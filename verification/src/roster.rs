//! The driver-roster feed: who drives under which number.

use vstd::prelude::*;
use crate::json::{lemma_view_unfolds, members_view, text_member, Json, JsonView};
use crate::table::{cell, cells_view, row4, rows_view, Table, TableView};

verus! {

/// One entry of the roster.
#[derive(Debug, Clone, PartialEq, Eq)]
pub struct Driver {
    /// The racing number under which the roster lists the driver.
    pub number: String,
    pub full_name: String,
    pub country_code: String,
    pub team_name: String,
}

pub ghost struct DriverView {
    pub number: Seq<char>,
    pub full_name: Seq<char>,
    pub country_code: Seq<char>,
    pub team_name: Seq<char>,
}

impl View for Driver {
    type V = DriverView;

    open spec fn view(&self) -> DriverView {
        DriverView {
            number: self.number@,
            full_name: self.full_name@,
            country_code: self.country_code@,
            team_name: self.team_name@,
        }
    }
}

/// The views of a run of drivers, in order.
pub open spec fn drivers_view(drivers: Seq<Driver>) -> Seq<DriverView> {
    Seq::new(drivers.len(), |i: int| drivers[i]@)
}

/// The driver that a roster member describes: the member's key is the
/// racing number, its value an object with the texts `FullName`,
/// `CountryCode` and `TeamName`.
pub open spec fn driver_of(number: Seq<char>, doc: JsonView) -> Option<DriverView> {
    match (
        text_member(doc, "FullName"@),
        text_member(doc, "CountryCode"@),
        text_member(doc, "TeamName"@),
    ) {
        (Some(full_name), Some(country_code), Some(team_name)) => Some(
            DriverView { number, full_name, country_code, team_name },
        ),
        _ => None,
    }
}

/// The roster that a document holds: an object, each member of which
/// describes a driver; the drivers stand in the order of the members.
pub open spec fn roster_of(doc: JsonView) -> Option<Seq<DriverView>> {
    match doc {
        JsonView::Object(members) => {
            if forall|i: int|
                0 <= i < members.len() ==> driver_of(
                    (#[trigger] members[i]).0,
                    members[i].1,
                ).is_some() {
                Some(
                    Seq::new(
                        members.len(),
                        |i: int| driver_of(members[i].0, members[i].1).unwrap(),
                    ),
                )
            } else {
                None
            }
        },
        _ => None,
    }
}

/// The row of a driver: number, full name, country code, team.
pub open spec fn driver_row(driver: DriverView) -> Seq<Seq<char>> {
    seq![driver.number, driver.full_name, driver.country_code, driver.team_name]
}

/// The table of a roster: one row per driver, in the order given.
pub open spec fn roster_table(drivers: Seq<DriverView>) -> TableView {
    TableView {
        titles: seq!["#"@, "Driver"@, "Country"@, "Team"@],
        rows: Seq::new(drivers.len(), |i: int| driver_row(drivers[i])),
    }
}

impl Driver {
    /// Decodes a roster member; `None` where its value has another shape.
    pub fn from_json(number: &str, doc: &Json) -> (r: Option<Driver>)
        ensures
            match r {
                Some(driver) => driver_of(number@, doc@) == Some(driver@),
                None => driver_of(number@, doc@).is_none(),
            },
    {
        match (doc.get_text("FullName"), doc.get_text("CountryCode"), doc.get_text("TeamName")) {
            (Some(full_name), Some(country_code), Some(team_name)) => Some(
                Driver {
                    number: number.to_owned(),
                    full_name: full_name.clone(),
                    country_code: country_code.clone(),
                    team_name: team_name.clone(),
                },
            ),
            _ => None,
        }
    }
}

/// Decodes a driver-roster document; `None` where it has another shape.
pub fn roster_from_json(doc: &Json) -> (r: Option<Vec<Driver>>)
    ensures
        match r {
            Some(drivers) => roster_of(doc@) == Some(drivers_view(drivers@)),
            None => roster_of(doc@).is_none(),
        },
{
    proof {
        lemma_view_unfolds(*doc);
    }
    match doc {
        Json::Object(members) => {
            let ghost shown = members_view(members@);
            let mut out: Vec<Driver> = Vec::new();
            let mut i: usize = 0;
            while i < members.len()
                invariant
                    i <= members.len(),
                    out.len() == i,
                    shown == members_view(members@),
                    doc@ == JsonView::Object(shown),
                    forall|j: int|
                        0 <= j < i ==> driver_of(shown[j].0, shown[j].1) == Some(
                            #[trigger] out@[j]@,
                        ),
                decreases members.len() - i,
            {
                match Driver::from_json(members[i].0.as_str(), &members[i].1) {
                    Some(driver) => out.push(driver),
                    None => {
                        proof {
                            assert(driver_of(shown[i as int].0, shown[i as int].1).is_none());
                        }
                        return None;
                    },
                }
                i = i + 1;
            }
            proof {
                assert forall|j: int| 0 <= j < shown.len() implies driver_of(
                    (#[trigger] shown[j]).0,
                    shown[j].1,
                ).is_some() by {
                    assert(driver_of(shown[j].0, shown[j].1) == Some(out@[j]@));
                }
                assert(roster_of(doc@).unwrap() =~= drivers_view(out@));
            }
            Some(out)
        },
        _ => None,
    }
}

/// The roster as a table, in the order of the roster.
pub fn roster_rows(drivers: &Vec<Driver>) -> (t: Table)
    ensures
        t@ == roster_table(drivers_view(drivers@)),
{
    let titles = row4(cell("#"), cell("Driver"), cell("Country"), cell("Team"));
    let mut rows: Vec<Vec<String>> = Vec::new();
    let mut i: usize = 0;
    while i < drivers.len()
        invariant
            i <= drivers.len(),
            rows.len() == i,
            forall|j: int|
                0 <= j < i ==> cells_view(#[trigger] rows@[j]@) == driver_row(drivers@[j]@),
        decreases drivers.len() - i,
    {
        let driver = &drivers[i];
        rows.push(
            row4(
                driver.number.clone(),
                driver.full_name.clone(),
                driver.country_code.clone(),
                driver.team_name.clone(),
            ),
        );
        i = i + 1;
    }
    proof {
        assert(rows_view(rows@) =~= roster_table(drivers_view(drivers@)).rows);
    }
    Table { titles, rows }
}

} // verus!
