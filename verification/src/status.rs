//! The session-status feed: track and session status events in one series.

use vstd::prelude::*;
use crate::json::{
    all_of, array_member, items_view, lemma_all_of_none, lemma_all_of_some, member, text_member,
    Json, JsonView,
};
use crate::table::{cell, cells_view, row3, rows_view, Table, TableView};

verus! {

/// Which of the two statuses an event reports.
#[derive(Debug, Clone, Copy, PartialEq, Eq, Structural)]
pub enum StatusKind {
    Track,
    Session,
}

/// One status event: when, which status, and its value.
#[derive(Debug, Clone, PartialEq, Eq)]
pub struct StatusEntry {
    pub utc: String,
    pub kind: StatusKind,
    pub value: String,
}

pub ghost struct StatusEntryView {
    pub utc: Seq<char>,
    pub kind: StatusKind,
    pub value: Seq<char>,
}

impl View for StatusEntry {
    type V = StatusEntryView;

    open spec fn view(&self) -> StatusEntryView {
        StatusEntryView { utc: self.utc@, kind: self.kind, value: self.value@ }
    }
}

/// The views of a run of status events, in order.
pub open spec fn entries_view(entries: Seq<StatusEntry>) -> Seq<StatusEntryView> {
    Seq::new(entries.len(), |i: int| entries[i]@)
}

/// A member that may be left out: `Some(None)` where the object has no such
/// member or holds `null` there, `Some(Some(text))` where it holds a text,
/// `None` where it holds anything else.
pub open spec fn optional_text(doc: JsonView, key: Seq<char>) -> Option<Option<Seq<char>>> {
    match member(doc, key) {
        None => Some(None),
        Some(JsonView::Null) => Some(None),
        Some(JsonView::Text(t)) => Some(Some(t)),
        Some(_) => None,
    }
}

/// The status event that a document describes: a text `Utc` and exactly one
/// of `TrackStatus` and `SessionStatus`, which decides the kind.
pub open spec fn entry_of(doc: JsonView) -> Option<StatusEntryView> {
    match (
        text_member(doc, "Utc"@),
        optional_text(doc, "TrackStatus"@),
        optional_text(doc, "SessionStatus"@),
    ) {
        (Some(utc), Some(Some(value)), Some(None)) => Some(
            StatusEntryView { utc, kind: StatusKind::Track, value },
        ),
        (Some(utc), Some(None), Some(Some(value))) => Some(
            StatusEntryView { utc, kind: StatusKind::Session, value },
        ),
        _ => None,
    }
}

/// `entry_of` as a value.
pub open spec fn entry_decoder() -> spec_fn(JsonView) -> Option<StatusEntryView> {
    |doc: JsonView| entry_of(doc)
}

/// The status events that a document holds: the elements of its array
/// `StatusSeries`, in document order.
pub open spec fn status_of(doc: JsonView) -> Option<Seq<StatusEntryView>> {
    match array_member(doc, "StatusSeries"@) {
        Some(items) => all_of(items, entry_decoder()),
        None => None,
    }
}

/// The label under which a kind of status is shown.
pub open spec fn kind_label(kind: StatusKind) -> Seq<char> {
    match kind {
        StatusKind::Track => "Track"@,
        StatusKind::Session => "Session"@,
    }
}

/// The row of a status event: time stamp, value, label of the kind.
pub open spec fn status_row(entry: StatusEntryView) -> Seq<Seq<char>> {
    seq![entry.utc, entry.value, kind_label(entry.kind)]
}

/// The table of a status series: one row per event, in the order given.
pub open spec fn status_table(entries: Seq<StatusEntryView>) -> TableView {
    TableView {
        titles: seq!["TimeStamp"@, "Status"@, "Status Type"@],
        rows: Seq::new(entries.len(), |i: int| status_row(entries[i])),
    }
}

/// An event that carries a track status and no session status is shown
/// under `Track` with that status.
pub proof fn lemma_track_entry(doc: JsonView, utc: Seq<char>, value: Seq<char>)
    requires
        text_member(doc, "Utc"@) == Some(utc),
        text_member(doc, "TrackStatus"@) == Some(value),
        member(doc, "SessionStatus"@).is_none(),
    ensures
        entry_of(doc) == Some(StatusEntryView { utc, kind: StatusKind::Track, value }),
        status_row(entry_of(doc).unwrap()) == seq![utc, value, "Track"@],
{
}

/// An event that carries a session status and no track status is shown
/// under `Session` with that status.
pub proof fn lemma_session_entry(doc: JsonView, utc: Seq<char>, value: Seq<char>)
    requires
        text_member(doc, "Utc"@) == Some(utc),
        text_member(doc, "SessionStatus"@) == Some(value),
        member(doc, "TrackStatus"@).is_none(),
    ensures
        entry_of(doc) == Some(StatusEntryView { utc, kind: StatusKind::Session, value }),
        status_row(entry_of(doc).unwrap()) == seq![utc, value, "Session"@],
{
}

impl StatusKind {
    /// The label under which the kind is shown.
    pub fn label(&self) -> (l: &'static str)
        ensures
            l@ == kind_label(*self),
    {
        match self {
            StatusKind::Track => "Track",
            StatusKind::Session => "Session",
        }
    }
}

/// Reads a member that may be left out.
fn get_optional_text<'a>(doc: &'a Json, key: &str) -> (r: Option<Option<&'a String>>)
    ensures
        match r {
            Some(Some(t)) => optional_text(doc@, key@) == Some(Some(t@)),
            Some(None) => optional_text(doc@, key@) == Some(None::<Seq<char>>),
            None => optional_text(doc@, key@).is_none(),
        },
{
    match doc.get(key) {
        None => Some(None),
        Some(Json::Null) => Some(None),
        Some(Json::Text(t)) => Some(Some(t)),
        Some(_) => None,
    }
}

impl StatusEntry {
    /// Decodes a status event; `None` where the document has another shape.
    pub fn from_json(doc: &Json) -> (r: Option<StatusEntry>)
        ensures
            match r {
                Some(entry) => entry_of(doc@) == Some(entry@),
                None => entry_of(doc@).is_none(),
            },
    {
        match (
            doc.get_text("Utc"),
            get_optional_text(doc, "TrackStatus"),
            get_optional_text(doc, "SessionStatus"),
        ) {
            (Some(utc), Some(Some(value)), Some(None)) => Some(
                StatusEntry { utc: utc.clone(), kind: StatusKind::Track, value: value.clone() },
            ),
            (Some(utc), Some(None), Some(Some(value))) => Some(
                StatusEntry { utc: utc.clone(), kind: StatusKind::Session, value: value.clone() },
            ),
            _ => None,
        }
    }
}

/// Decodes a session-status document; `None` where it has another shape.
pub fn status_from_json(doc: &Json) -> (r: Option<Vec<StatusEntry>>)
    ensures
        match r {
            Some(entries) => status_of(doc@) == Some(entries_view(entries@)),
            None => status_of(doc@).is_none(),
        },
{
    match doc.get_array("StatusSeries") {
        Some(items) => {
            let mut out: Vec<StatusEntry> = Vec::new();
            let mut i: usize = 0;
            while i < items.len()
                invariant
                    i <= items.len(),
                    out.len() == i,
                    array_member(doc@, "StatusSeries"@) == Some(items_view(items@)),
                    forall|j: int| 0 <= j < i ==> entry_of(items@[j]@) == Some(#[trigger] out@[j]@),
                decreases items.len() - i,
            {
                match StatusEntry::from_json(&items[i]) {
                    Some(entry) => out.push(entry),
                    None => {
                        proof {
                            lemma_all_of_none(items_view(items@), entry_decoder(), i as int);
                        }
                        return None;
                    },
                }
                i = i + 1;
            }
            proof {
                lemma_all_of_some(items_view(items@), entry_decoder(), entries_view(out@));
            }
            Some(out)
        },
        None => None,
    }
}

/// The status series as a table, in the order of the series.
pub fn status_rows(entries: &Vec<StatusEntry>) -> (t: Table)
    ensures
        t@ == status_table(entries_view(entries@)),
{
    let titles = row3(cell("TimeStamp"), cell("Status"), cell("Status Type"));
    let mut rows: Vec<Vec<String>> = Vec::new();
    let mut i: usize = 0;
    while i < entries.len()
        invariant
            i <= entries.len(),
            rows.len() == i,
            forall|j: int| 0 <= j < i ==> cells_view(#[trigger] rows@[j]@) == status_row(entries@[j]@),
        decreases entries.len() - i,
    {
        let entry = &entries[i];
        rows.push(row3(entry.utc.clone(), entry.value.clone(), cell(entry.kind.label())));
        i = i + 1;
    }
    proof {
        assert(rows_view(rows@) =~= status_table(entries_view(entries@)).rows);
    }
    Table { titles, rows }
}

} // verus!
