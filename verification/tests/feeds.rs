use livetiming::feed::{
    audio_url, feed_url, index_url, join_url, url_directory, FeedKind, OutputMode,
};
use livetiming::info::SessionInfo;
use livetiming::json::Json;
use livetiming::radio::{captures_from_json, radio_json, radio_rows, rewrite_paths, Capture};
use livetiming::render::{render, render_structured, tabulate, SchemaMismatch};
use livetiming::roster::{roster_from_json, roster_rows, Driver};
use livetiming::status::{status_from_json, status_rows, StatusEntry, StatusKind};
use livetiming::table::Table;

fn strings(cells: &[&str]) -> Vec<String> {
    cells.iter().map(|c| c.to_string()).collect()
}

const MONACO_RADIO: &str = "https://livetiming.formula1.com/static/2023/Monaco/TeamRadio.json";

const INFO: &str = "{
    \"Meeting\": {
        \"Key\": 1210,
        \"Name\": \"Monaco Grand Prix\",
        \"OfficialName\": \"FORMULA 1 GRAND PRIX DE MONACO 2023\",
        \"Location\": \"Monte Carlo\",
        \"Country\": {\"Key\": 114, \"Code\": \"MON\", \"Name\": \"Monaco\"},
        \"Circuit\": {\"Key\": 22, \"ShortName\": \"Monte Carlo\"}
    },
    \"ArchiveStatus\": {\"Status\": \"Complete\"},
    \"Key\": 9094,
    \"Type\": \"Race\",
    \"Name\": \"Race\",
    \"StartDate\": \"2023-05-28T15:00:00\",
    \"EndDate\": \"2023-05-28T17:00:00\",
    \"GmtOffset\": \"02:00:00\",
    \"Path\": \"2023/2023-05-28_Monaco_Grand_Prix/2023-05-28_Race/\"
}";

const STATUS: &str = "{
    \"Series\": [{\"Utc\": \"2023-05-28T13:03:00.000Z\", \"Lap\": 1}],
    \"StatusSeries\": [
        {\"Utc\": \"2023-05-28T12:10:00.000Z\", \"TrackStatus\": \"AllClear\"},
        {\"Utc\": \"2023-05-28T13:03:00.000Z\", \"SessionStatus\": \"Started\"},
        {\"Utc\": \"2023-05-28T13:20:00.000Z\", \"TrackStatus\": \"Yellow\"},
        {\"Utc\": \"2023-05-28T12:00:00.000Z\", \"SessionStatus\": \"Finished\", \"TrackStatus\": null}
    ]
}";

const DRIVERS: &str = "{
    \"44\": {\"RacingNumber\": \"44\", \"FullName\": \"Lewis HAMILTON\", \"CountryCode\": \"GBR\",
             \"TeamName\": \"Mercedes\", \"Tla\": \"HAM\", \"Line\": 4},
    \"1\": {\"RacingNumber\": \"1\", \"FullName\": \"Max VERSTAPPEN\", \"CountryCode\": \"NED\",
            \"TeamName\": \"Red Bull Racing\", \"Tla\": \"VER\", \"Line\": 1},
    \"16\": {\"FullName\": \"Charles LECLERC\", \"CountryCode\": \"MON\", \"TeamName\": \"Ferrari\"}
}";

const RADIO: &str = "{\"Captures\": [
    {\"Utc\": \"2023-05-28T13:05:00.000Z\", \"RacingNumber\": \"14\", \"Path\": \"TeamRadio/FERALO01_14.mp3\"},
    {\"Utc\": \"2023-05-28T13:07:00.000Z\", \"RacingNumber\": \"1\", \"Path\": \"/abc.mp3\"}
]}";

#[test]
fn index_addresses() {
    assert_eq!(index_url(2023), "https://livetiming.formula1.com/static/2023/Index.json");
    assert_eq!(index_url(2018), "https://livetiming.formula1.com/static/2018/Index.json");
    assert_eq!(index_url(0), "https://livetiming.formula1.com/static/0/Index.json");
    assert_eq!(index_url(7), "https://livetiming.formula1.com/static/7/Index.json");
    assert_eq!(index_url(10), "https://livetiming.formula1.com/static/10/Index.json");
    assert_eq!(index_url(-305), "https://livetiming.formula1.com/static/-305/Index.json");
    assert_eq!(
        index_url(i32::MAX),
        "https://livetiming.formula1.com/static/2147483647/Index.json"
    );
    assert_eq!(
        index_url(i32::MIN),
        "https://livetiming.formula1.com/static/-2147483648/Index.json"
    );
}

#[test]
fn feed_addresses() {
    let path = "2023/2023-05-28_Monaco_Grand_Prix/2023-05-28_Race/";
    assert_eq!(
        feed_url(path, FeedKind::SessionInfo),
        "https://livetiming.formula1.com/static/2023/2023-05-28_Monaco_Grand_Prix/2023-05-28_Race/SessionInfo.json"
    );
    assert_eq!(
        feed_url(path, FeedKind::SessionStatus),
        "https://livetiming.formula1.com/static/2023/2023-05-28_Monaco_Grand_Prix/2023-05-28_Race/SessionData.json"
    );
    assert_eq!(
        feed_url(path, FeedKind::DriverRoster),
        "https://livetiming.formula1.com/static/2023/2023-05-28_Monaco_Grand_Prix/2023-05-28_Race/DriverList.json"
    );
    assert_eq!(
        feed_url(path, FeedKind::TeamRadio),
        "https://livetiming.formula1.com/static/2023/2023-05-28_Monaco_Grand_Prix/2023-05-28_Race/TeamRadio.json"
    );
    assert_eq!(
        feed_url("", FeedKind::TeamRadio),
        "https://livetiming.formula1.com/static/TeamRadio.json"
    );
}

#[test]
fn feed_file_names() {
    assert_eq!(FeedKind::SessionInfo.file_name(), "SessionInfo.json");
    assert_eq!(FeedKind::SessionStatus.file_name(), "SessionData.json");
    assert_eq!(FeedKind::DriverRoster.file_name(), "DriverList.json");
    assert_eq!(FeedKind::TeamRadio.file_name(), "TeamRadio.json");
}

#[test]
fn directory_of_an_address() {
    assert_eq!(url_directory(MONACO_RADIO), "https://livetiming.formula1.com/static/2023/Monaco");
    assert_eq!(url_directory("a/b/"), "a/b");
    assert_eq!(url_directory("/x"), "");
    assert_eq!(url_directory("/"), "");
    assert_eq!(url_directory("plain"), "plain");
    assert_eq!(url_directory(""), "");
    assert_eq!(url_directory("é/ü/ß.json"), "é/ü");
}

#[test]
fn joins_with_one_slash() {
    assert_eq!(join_url("https://h/Monaco", "/abc.mp3"), "https://h/Monaco/abc.mp3");
    assert_eq!(join_url("https://h/Monaco", "abc.mp3"), "https://h/Monaco/abc.mp3");
    assert_eq!(join_url("https://h/Monaco", ""), "https://h/Monaco/");
    assert_eq!(join_url("", "a"), "/a");
    assert_eq!(join_url("d", "//a"), "d//a");
}

#[test]
fn audio_address_round_trip() {
    assert_eq!(
        audio_url(MONACO_RADIO, "/abc.mp3"),
        "https://livetiming.formula1.com/static/2023/Monaco/abc.mp3"
    );
    assert_eq!(
        audio_url(MONACO_RADIO, "TeamRadio/FERALO01_14.mp3"),
        "https://livetiming.formula1.com/static/2023/Monaco/TeamRadio/FERALO01_14.mp3"
    );
}

#[test]
fn audio_address_is_the_same_in_both_modes() {
    let doc = Json::parse(RADIO).unwrap();
    let table = tabulate(&doc, FeedKind::TeamRadio, MONACO_RADIO).unwrap();
    assert_eq!(table.rows[1][1], "https://livetiming.formula1.com/static/2023/Monaco/abc.mp3");
    let shown = render_structured(&doc, FeedKind::TeamRadio, MONACO_RADIO).unwrap();
    let back = Json::parse(&shown).unwrap();
    let captures = back.get_array("Captures").unwrap();
    assert_eq!(
        captures[1].get_text("Path").unwrap(),
        "https://livetiming.formula1.com/static/2023/Monaco/abc.mp3"
    );
    assert_eq!(captures[0].get_text("Path").unwrap(), &table.rows[0][1]);
}

#[test]
fn decodes_session_info() {
    let doc = Json::parse(INFO).unwrap();
    let info = SessionInfo::from_json(&doc).unwrap();
    assert_eq!(
        info,
        SessionInfo {
            official_name: "FORMULA 1 GRAND PRIX DE MONACO 2023".to_string(),
            meeting_name: "Monaco Grand Prix".to_string(),
            country: "Monaco".to_string(),
            location: "Monte Carlo".to_string(),
            start_date: "2023-05-28T15:00:00".to_string(),
            end_date: "2023-05-28T17:00:00".to_string(),
            gmt_offset: "02:00:00".to_string(),
        }
    );
}

#[test]
fn session_info_table() {
    let doc = Json::parse(INFO).unwrap();
    let table = tabulate(&doc, FeedKind::SessionInfo, "").unwrap();
    assert_eq!(
        table,
        Table {
            titles: strings(&["", "FORMULA 1 GRAND PRIX DE MONACO 2023 - Monaco Grand Prix"]),
            rows: vec![
                strings(&["Country", "Monaco"]),
                strings(&["Location", "Monte Carlo"]),
                strings(&["Start Date", "2023-05-28T15:00:00"]),
                strings(&["End Date", "2023-05-28T17:00:00"]),
                strings(&["GMT Offset", "02:00:00"]),
            ],
        }
    );
}

#[test]
fn refuses_session_info_of_another_shape() {
    for source in [
        "null",
        "{}",
        "{\"Meeting\": {}}",
        "{\"Meeting\": {\"Name\": \"a\", \"OfficialName\": \"b\", \"Location\": \"c\", \"Country\": {\"Name\": \"d\"}}, \"StartDate\": \"e\", \"EndDate\": \"f\"}",
        "{\"Meeting\": {\"Name\": \"a\", \"OfficialName\": \"b\", \"Location\": \"c\", \"Country\": \"d\"}, \"StartDate\": \"e\", \"EndDate\": \"f\", \"GmtOffset\": \"g\"}",
        "{\"Meeting\": {\"Name\": \"a\", \"OfficialName\": \"b\", \"Location\": 3, \"Country\": {\"Name\": \"d\"}}, \"StartDate\": \"e\", \"EndDate\": \"f\", \"GmtOffset\": \"g\"}",
    ] {
        let doc = Json::parse(source).unwrap();
        assert_eq!(SessionInfo::from_json(&doc), None, "{}", source);
        assert_eq!(tabulate(&doc, FeedKind::SessionInfo, ""), Err(SchemaMismatch), "{}", source);
    }
}

#[test]
fn decodes_the_status_series_in_source_order() {
    let doc = Json::parse(STATUS).unwrap();
    let entries = status_from_json(&doc).unwrap();
    assert_eq!(
        entries,
        vec![
            StatusEntry {
                utc: "2023-05-28T12:10:00.000Z".to_string(),
                kind: StatusKind::Track,
                value: "AllClear".to_string(),
            },
            StatusEntry {
                utc: "2023-05-28T13:03:00.000Z".to_string(),
                kind: StatusKind::Session,
                value: "Started".to_string(),
            },
            StatusEntry {
                utc: "2023-05-28T13:20:00.000Z".to_string(),
                kind: StatusKind::Track,
                value: "Yellow".to_string(),
            },
            StatusEntry {
                utc: "2023-05-28T12:00:00.000Z".to_string(),
                kind: StatusKind::Session,
                value: "Finished".to_string(),
            },
        ]
    );
}

#[test]
fn track_and_session_status_rows() {
    let doc = Json::parse(
        "{\"StatusSeries\": [{\"Utc\": \"t1\", \"TrackStatus\": \"Yellow\"}, {\"Utc\": \"t2\", \"SessionStatus\": \"Started\"}]}",
    )
    .unwrap();
    let table = tabulate(&doc, FeedKind::SessionStatus, "").unwrap();
    assert_eq!(table.titles, strings(&["TimeStamp", "Status", "Status Type"]));
    assert_eq!(table.rows, vec![strings(&["t1", "Yellow", "Track"]), strings(&["t2", "Started", "Session"])]);
    assert_eq!(StatusKind::Track.label(), "Track");
    assert_eq!(StatusKind::Session.label(), "Session");
}

#[test]
fn status_rows_of_no_entries() {
    let table = status_rows(&vec![]);
    assert_eq!(table.rows, Vec::<Vec<String>>::new());
    assert_eq!(table.titles.len(), 3);
}

#[test]
fn refuses_a_status_series_of_another_shape() {
    for source in [
        "{}",
        "{\"StatusSeries\": {}}",
        "{\"StatusSeries\": [{\"TrackStatus\": \"Yellow\"}]}",
        "{\"StatusSeries\": [{\"Utc\": \"t\"}]}",
        "{\"StatusSeries\": [{\"Utc\": \"t\", \"TrackStatus\": \"Yellow\", \"SessionStatus\": \"Started\"}]}",
        "{\"StatusSeries\": [{\"Utc\": \"t\", \"TrackStatus\": 1}]}",
        "{\"StatusSeries\": [{\"Utc\": \"t\", \"TrackStatus\": \"Yellow\", \"SessionStatus\": 4}]}",
        "{\"StatusSeries\": [{\"Utc\": \"t\", \"TrackStatus\": null, \"SessionStatus\": null}]}",
        "{\"StatusSeries\": [{\"Utc\": \"t\", \"TrackStatus\": \"Yellow\"}, 3]}",
    ] {
        let doc = Json::parse(source).unwrap();
        assert_eq!(status_from_json(&doc), None, "{}", source);
        assert_eq!(tabulate(&doc, FeedKind::SessionStatus, ""), Err(SchemaMismatch), "{}", source);
    }
}

#[test]
fn decodes_the_roster_in_document_order() {
    let doc = Json::parse(DRIVERS).unwrap();
    let drivers = roster_from_json(&doc).unwrap();
    let numbers: Vec<&str> = drivers.iter().map(|d| d.number.as_str()).collect();
    assert_eq!(numbers, vec!["1", "16", "44"]);
    assert_eq!(
        drivers[2],
        Driver {
            number: "44".to_string(),
            full_name: "Lewis HAMILTON".to_string(),
            country_code: "GBR".to_string(),
            team_name: "Mercedes".to_string(),
        }
    );
}

#[test]
fn roster_table() {
    let doc = Json::Object(vec![
        (
            "44".to_string(),
            Json::Object(vec![
                ("TeamName".to_string(), Json::Text("Mercedes".to_string())),
                ("FullName".to_string(), Json::Text("Lewis HAMILTON".to_string())),
                ("CountryCode".to_string(), Json::Text("GBR".to_string())),
            ]),
        ),
        (
            "1".to_string(),
            Json::Object(vec![
                ("FullName".to_string(), Json::Text("Max VERSTAPPEN".to_string())),
                ("CountryCode".to_string(), Json::Text("NED".to_string())),
                ("TeamName".to_string(), Json::Text("Red Bull Racing".to_string())),
            ]),
        ),
    ]);
    let table = tabulate(&doc, FeedKind::DriverRoster, "").unwrap();
    assert_eq!(table.titles, strings(&["#", "Driver", "Country", "Team"]));
    assert_eq!(
        table.rows,
        vec![
            strings(&["44", "Lewis HAMILTON", "GBR", "Mercedes"]),
            strings(&["1", "Max VERSTAPPEN", "NED", "Red Bull Racing"]),
        ]
    );
    assert_eq!(roster_rows(&vec![]).rows.len(), 0);
}

#[test]
fn refuses_a_roster_of_another_shape() {
    for source in [
        "null",
        "[]",
        "{\"44\": 3}",
        "{\"44\": {\"FullName\": \"a\", \"CountryCode\": \"b\"}}",
        "{\"44\": {\"FullName\": \"a\", \"CountryCode\": \"b\", \"TeamName\": null}}",
        "{\"1\": {\"FullName\": \"a\", \"CountryCode\": \"b\", \"TeamName\": \"c\"}, \"2\": {}}",
    ] {
        let doc = Json::parse(source).unwrap();
        assert_eq!(roster_from_json(&doc), None, "{}", source);
        assert_eq!(tabulate(&doc, FeedKind::DriverRoster, ""), Err(SchemaMismatch), "{}", source);
    }
    let empty = Json::parse("{}").unwrap();
    assert_eq!(roster_from_json(&empty), Some(vec![]));
}

#[test]
fn decodes_and_rewrites_captures() {
    let doc = Json::parse(RADIO).unwrap();
    let captures = captures_from_json(&doc).unwrap();
    assert_eq!(
        captures,
        vec![
            Capture {
                path: "TeamRadio/FERALO01_14.mp3".to_string(),
                racing_number: "14".to_string(),
                utc: "2023-05-28T13:05:00.000Z".to_string(),
            },
            Capture {
                path: "/abc.mp3".to_string(),
                racing_number: "1".to_string(),
                utc: "2023-05-28T13:07:00.000Z".to_string(),
            },
        ]
    );
    let rewritten = rewrite_paths(&captures, MONACO_RADIO);
    assert_eq!(rewritten.len(), 2);
    assert_eq!(
        rewritten[0].path,
        "https://livetiming.formula1.com/static/2023/Monaco/TeamRadio/FERALO01_14.mp3"
    );
    assert_eq!(rewritten[0].racing_number, "14");
    assert_eq!(rewritten[0].utc, "2023-05-28T13:05:00.000Z");
    assert_eq!(rewritten[1].path, "https://livetiming.formula1.com/static/2023/Monaco/abc.mp3");
}

#[test]
fn radio_table_rows() {
    let doc = Json::parse(RADIO).unwrap();
    let table = tabulate(&doc, FeedKind::TeamRadio, MONACO_RADIO).unwrap();
    assert_eq!(table.titles, strings(&["#", "Audio Link", "UTC Timestamp"]));
    assert_eq!(
        table.rows,
        vec![
            strings(&[
                "14",
                "https://livetiming.formula1.com/static/2023/Monaco/TeamRadio/FERALO01_14.mp3",
                "2023-05-28T13:05:00.000Z",
            ]),
            strings(&[
                "1",
                "https://livetiming.formula1.com/static/2023/Monaco/abc.mp3",
                "2023-05-28T13:07:00.000Z",
            ]),
        ]
    );
    assert_eq!(radio_rows(&vec![]).rows.len(), 0);
}

#[test]
fn radio_document_shape() {
    let captures = vec![Capture {
        path: "p".to_string(),
        racing_number: "1".to_string(),
        utc: "t".to_string(),
    }];
    let doc = radio_json(&captures);
    assert_eq!(
        doc,
        Json::Object(vec![(
            "Captures".to_string(),
            Json::Array(vec![Json::Object(vec![
                ("Path".to_string(), Json::Text("p".to_string())),
                ("RacingNumber".to_string(), Json::Text("1".to_string())),
                ("Utc".to_string(), Json::Text("t".to_string())),
            ])]),
        )])
    );
    assert_eq!(captures[0].to_json(), Json::parse("{\"Path\":\"p\",\"RacingNumber\":\"1\",\"Utc\":\"t\"}").unwrap());
    assert_eq!(
        radio_json(&vec![]),
        Json::Object(vec![("Captures".to_string(), Json::Array(vec![]))])
    );
}

#[test]
fn radio_structured_text() {
    let doc = Json::parse("{\"Captures\": [{\"Utc\": \"t\", \"RacingNumber\": \"1\", \"Path\": \"/abc.mp3\", \"Extra\": 1}]}").unwrap();
    let shown = render(&doc, FeedKind::TeamRadio, OutputMode::Structured, "http://h/2023/Monaco/TeamRadio.json").unwrap();
    assert_eq!(
        shown,
        "{\n  \"Captures\": [\n    {\n      \"Path\": \"http://h/2023/Monaco/abc.mp3\",\n      \"RacingNumber\": \"1\",\n      \"Utc\": \"t\"\n    }\n  ]\n}"
    );
}

#[test]
fn refuses_captures_of_another_shape() {
    for source in [
        "{}",
        "[]",
        "{\"Captures\": {}}",
        "{\"Captures\": [{\"Path\": \"p\", \"Utc\": \"t\"}]}",
        "{\"Captures\": [{\"Path\": \"p\", \"Utc\": \"t\", \"RacingNumber\": 1}]}",
        "{\"Captures\": [{\"Path\": \"p\", \"Utc\": \"t\", \"RacingNumber\": \"1\"}, null]}",
    ] {
        let doc = Json::parse(source).unwrap();
        assert_eq!(captures_from_json(&doc), None, "{}", source);
        for mode in [OutputMode::Structured, OutputMode::Tabular] {
            assert_eq!(render(&doc, FeedKind::TeamRadio, mode, MONACO_RADIO), Err(SchemaMismatch));
        }
    }
}

#[test]
fn structured_output_passes_the_document_through() {
    for kind in [FeedKind::SessionInfo, FeedKind::SessionStatus, FeedKind::DriverRoster] {
        for source in [INFO, STATUS, DRIVERS, "null", "[1, 2]"] {
            let doc = Json::parse(source).unwrap();
            let value: serde_json::Value = serde_json::from_str(source).unwrap();
            assert_eq!(
                render(&doc, kind, OutputMode::Structured, ""),
                Ok(serde_json::to_string_pretty(&value).unwrap())
            );
        }
    }
}

#[test]
fn table_text_is_laid_out_by_prettytable() {
    let table = Table {
        titles: strings(&["#", "Driver"]),
        rows: vec![strings(&["44", "Lewis HAMILTON"]), strings(&["1", "Max"])],
    };
    let mut expected = prettytable::Table::new();
    expected.set_titles(prettytable::Row::new(vec![
        prettytable::Cell::new("#"),
        prettytable::Cell::new("Driver"),
    ]));
    expected.add_row(prettytable::Row::new(vec![
        prettytable::Cell::new("44"),
        prettytable::Cell::new("Lewis HAMILTON"),
    ]));
    expected.add_row(prettytable::Row::new(vec![
        prettytable::Cell::new("1"),
        prettytable::Cell::new("Max"),
    ]));
    assert_eq!(table.to_text(), expected.to_string());
}

#[test]
fn table_text_exact() {
    let table = Table {
        titles: strings(&["TimeStamp", "Status", "Status Type"]),
        rows: vec![strings(&["t1", "Yellow", "Track"]), strings(&["t2", "Started", "Session"])],
    };
    let expected = "\
+-----------+---------+-------------+
| TimeStamp | Status  | Status Type |
+===========+=========+=============+
| t1        | Yellow  | Track       |
+-----------+---------+-------------+
| t2        | Started | Session     |
+-----------+---------+-------------+
";
    assert_eq!(table.to_text(), expected);
}

#[test]
fn rendering_a_table() {
    let doc = Json::parse(
        "{\"StatusSeries\": [{\"Utc\": \"t1\", \"TrackStatus\": \"Yellow\"}, {\"Utc\": \"t2\", \"SessionStatus\": \"Started\"}]}",
    )
    .unwrap();
    let shown = render(&doc, FeedKind::SessionStatus, OutputMode::Tabular, "").unwrap();
    assert!(shown.contains("| t1        | Yellow  | Track       |"));
    assert!(shown.contains("| t2        | Started | Session     |"));
}

#[test]
fn rendering_twice_gives_the_same_text() {
    let cases = [
        (INFO, FeedKind::SessionInfo),
        (STATUS, FeedKind::SessionStatus),
        (DRIVERS, FeedKind::DriverRoster),
        (RADIO, FeedKind::TeamRadio),
    ];
    for (source, kind) in cases {
        for mode in [OutputMode::Structured, OutputMode::Tabular] {
            let first = render(&Json::parse(source).unwrap(), kind, mode, MONACO_RADIO);
            let second = render(&Json::parse(source).unwrap(), kind, mode, MONACO_RADIO);
            assert!(first.is_ok());
            assert_eq!(first, second);
        }
    }
}
