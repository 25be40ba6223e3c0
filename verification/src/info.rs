//! The session-info feed: where and when a session is held.

use vstd::prelude::*;
use vstd::string::StringExecFns;
use crate::json::{member, text_member, Json, JsonView};
use crate::table::{cell, row2, rows_view, Table, TableView};
use crate::text::push_text;

verus! {

/// What the session-info document says of the meeting and its dates.
#[derive(Debug, Clone, PartialEq, Eq)]
pub struct SessionInfo {
    pub official_name: String,
    pub meeting_name: String,
    pub country: String,
    pub location: String,
    pub start_date: String,
    pub end_date: String,
    pub gmt_offset: String,
}

pub ghost struct SessionInfoView {
    pub official_name: Seq<char>,
    pub meeting_name: Seq<char>,
    pub country: Seq<char>,
    pub location: Seq<char>,
    pub start_date: Seq<char>,
    pub end_date: Seq<char>,
    pub gmt_offset: Seq<char>,
}

impl View for SessionInfo {
    type V = SessionInfoView;

    open spec fn view(&self) -> SessionInfoView {
        SessionInfoView {
            official_name: self.official_name@,
            meeting_name: self.meeting_name@,
            country: self.country@,
            location: self.location@,
            start_date: self.start_date@,
            end_date: self.end_date@,
            gmt_offset: self.gmt_offset@,
        }
    }
}

/// The name of the country of a meeting object: the text `Name` of its
/// member `Country`.
pub open spec fn country_of(meeting: JsonView) -> Option<Seq<char>> {
    match member(meeting, "Country"@) {
        Some(country) => text_member(country, "Name"@),
        None => None,
    }
}

/// The session info that a document holds: the texts `StartDate`, `EndDate`
/// and `GmtOffset` of the document, the texts `OfficialName`, `Name` and
/// `Location` of its member `Meeting`, and that meeting's country. `None`
/// where any of them is missing or no text.
pub open spec fn info_of(doc: JsonView) -> Option<SessionInfoView> {
    match member(doc, "Meeting"@) {
        Some(meeting) => match (
            text_member(meeting, "OfficialName"@),
            text_member(meeting, "Name"@),
            country_of(meeting),
            text_member(meeting, "Location"@),
            text_member(doc, "StartDate"@),
            text_member(doc, "EndDate"@),
            text_member(doc, "GmtOffset"@),
        ) {
            (
                Some(official_name),
                Some(meeting_name),
                Some(country),
                Some(location),
                Some(start_date),
                Some(end_date),
                Some(gmt_offset),
            ) => Some(
                SessionInfoView {
                    official_name,
                    meeting_name,
                    country,
                    location,
                    start_date,
                    end_date,
                    gmt_offset,
                },
            ),
            _ => None,
        },
        None => None,
    }
}

/// The key/value table of a session info: an empty title beside the
/// official and the short name of the meeting, then one row per fact.
pub open spec fn info_table(info: SessionInfoView) -> TableView {
    TableView {
        titles: seq![""@, info.official_name + " - "@ + info.meeting_name],
        rows: seq![
            seq!["Country"@, info.country],
            seq!["Location"@, info.location],
            seq!["Start Date"@, info.start_date],
            seq!["End Date"@, info.end_date],
            seq!["GMT Offset"@, info.gmt_offset],
        ],
    }
}

impl SessionInfo {
    /// Decodes a session-info document; `None` where it has another shape.
    pub fn from_json(doc: &Json) -> (r: Option<SessionInfo>)
        ensures
            match r {
                Some(info) => info_of(doc@) == Some(info@),
                None => info_of(doc@).is_none(),
            },
    {
        let meeting = match doc.get("Meeting") {
            Some(meeting) => meeting,
            None => {
                return None;
            },
        };
        let country = match meeting.get("Country") {
            Some(country) => country.get_text("Name"),
            None => None,
        };
        match (
            meeting.get_text("OfficialName"),
            meeting.get_text("Name"),
            country,
            meeting.get_text("Location"),
            doc.get_text("StartDate"),
            doc.get_text("EndDate"),
            doc.get_text("GmtOffset"),
        ) {
            (
                Some(official_name),
                Some(meeting_name),
                Some(country),
                Some(location),
                Some(start_date),
                Some(end_date),
                Some(gmt_offset),
            ) => Some(
                SessionInfo {
                    official_name: official_name.clone(),
                    meeting_name: meeting_name.clone(),
                    country: country.clone(),
                    location: location.clone(),
                    start_date: start_date.clone(),
                    end_date: end_date.clone(),
                    gmt_offset: gmt_offset.clone(),
                },
            ),
            _ => None,
        }
    }

    /// The session info as a two-column table.
    pub fn table(&self) -> (t: Table)
        ensures
            t@ == info_table(self@),
    {
        let mut heading = String::from_str(self.official_name.as_str());
        push_text(&mut heading, " - ");
        push_text(&mut heading, self.meeting_name.as_str());
        let titles = row2(cell(""), heading);
        let mut rows: Vec<Vec<String>> = Vec::new();
        rows.push(row2(cell("Country"), self.country.clone()));
        rows.push(row2(cell("Location"), self.location.clone()));
        rows.push(row2(cell("Start Date"), self.start_date.clone()));
        rows.push(row2(cell("End Date"), self.end_date.clone()));
        rows.push(row2(cell("GMT Offset"), self.gmt_offset.clone()));
        proof {
            assert(rows_view(rows@) =~= info_table(self@).rows);
        }
        Table { titles, rows }
    }
}

} // verus!
