//! The team-radio feed: audio captures, with their paths made into
//! addresses that can be fetched.

use vstd::prelude::*;
use crate::feed::{audio_address, audio_url};
use crate::json::{
    all_of, array_member, items_view, lemma_all_of_none, lemma_all_of_some, lemma_view_unfolds,
    members_view, text_member, Json, JsonView,
};
use crate::table::{cell, cells_view, row3, rows_view, Table, TableView};

verus! {

/// One radio capture.
#[derive(Debug, Clone, PartialEq, Eq)]
pub struct Capture {
    /// Where the audio file stands: relative to the session's directory as
    /// the feed gives it, a full address once rewritten.
    pub path: String,
    pub racing_number: String,
    pub utc: String,
}

pub ghost struct CaptureView {
    pub path: Seq<char>,
    pub racing_number: Seq<char>,
    pub utc: Seq<char>,
}

impl View for Capture {
    type V = CaptureView;

    open spec fn view(&self) -> CaptureView {
        CaptureView { path: self.path@, racing_number: self.racing_number@, utc: self.utc@ }
    }
}

/// The views of a run of captures, in order.
pub open spec fn captures_view(captures: Seq<Capture>) -> Seq<CaptureView> {
    Seq::new(captures.len(), |i: int| captures[i]@)
}

/// The capture that a document describes: an object with the texts `Path`,
/// `RacingNumber` and `Utc`.
pub open spec fn capture_of(doc: JsonView) -> Option<CaptureView> {
    match (
        text_member(doc, "Path"@),
        text_member(doc, "RacingNumber"@),
        text_member(doc, "Utc"@),
    ) {
        (Some(path), Some(racing_number), Some(utc)) => Some(
            CaptureView { path, racing_number, utc },
        ),
        _ => None,
    }
}

/// `capture_of` as a value.
pub open spec fn capture_decoder() -> spec_fn(JsonView) -> Option<CaptureView> {
    |doc: JsonView| capture_of(doc)
}

/// The captures that a document holds: the elements of its array
/// `Captures`, in document order.
pub open spec fn captures_of(doc: JsonView) -> Option<Seq<CaptureView>> {
    match array_member(doc, "Captures"@) {
        Some(items) => all_of(items, capture_decoder()),
        None => None,
    }
}

/// A capture with the address of its audio file in place of the relative
/// path, for a feed fetched from `feed_url`.
pub open spec fn rewritten(capture: CaptureView, feed_url: Seq<char>) -> CaptureView {
    CaptureView {
        path: audio_address(feed_url, capture.path),
        racing_number: capture.racing_number,
        utc: capture.utc,
    }
}

/// Every capture rewritten, in order.
pub open spec fn rewritten_all(captures: Seq<CaptureView>, feed_url: Seq<char>) -> Seq<
    CaptureView,
> {
    Seq::new(captures.len(), |i: int| rewritten(captures[i], feed_url))
}

/// The row of a capture: racing number, audio path, time stamp.
pub open spec fn capture_row(capture: CaptureView) -> Seq<Seq<char>> {
    seq![capture.racing_number, capture.path, capture.utc]
}

/// The table of a run of captures: one row per capture, in the order given.
pub open spec fn radio_table(captures: Seq<CaptureView>) -> TableView {
    TableView {
        titles: seq!["#"@, "Audio Link"@, "UTC Timestamp"@],
        rows: Seq::new(captures.len(), |i: int| capture_row(captures[i])),
    }
}

/// A capture as a document: an object with `Path`, `RacingNumber` and `Utc`.
pub open spec fn capture_document(capture: CaptureView) -> JsonView {
    JsonView::Object(
        seq![
            ("Path"@, JsonView::Text(capture.path)),
            ("RacingNumber"@, JsonView::Text(capture.racing_number)),
            ("Utc"@, JsonView::Text(capture.utc)),
        ],
    )
}

/// A run of captures as a document: an object whose one member `Captures`
/// is the array of the captures, in the order given.
pub open spec fn radio_document(captures: Seq<CaptureView>) -> JsonView {
    JsonView::Object(
        seq![
            (
                "Captures"@,
                JsonView::Array(Seq::new(captures.len(), |i: int| capture_document(captures[i]))),
            ),
        ],
    )
}

impl Capture {
    /// Decodes a capture; `None` where the document has another shape.
    pub fn from_json(doc: &Json) -> (r: Option<Capture>)
        ensures
            match r {
                Some(capture) => capture_of(doc@) == Some(capture@),
                None => capture_of(doc@).is_none(),
            },
    {
        match (doc.get_text("Path"), doc.get_text("RacingNumber"), doc.get_text("Utc")) {
            (Some(path), Some(racing_number), Some(utc)) => Some(
                Capture {
                    path: path.clone(),
                    racing_number: racing_number.clone(),
                    utc: utc.clone(),
                },
            ),
            _ => None,
        }
    }

    /// The capture as a document.
    pub fn to_json(&self) -> (doc: Json)
        ensures
            doc@ == capture_document(self@),
    {
        let mut members: Vec<(String, Json)> = Vec::new();
        members.push((cell("Path"), Json::Text(self.path.clone())));
        members.push((cell("RacingNumber"), Json::Text(self.racing_number.clone())));
        members.push((cell("Utc"), Json::Text(self.utc.clone())));
        let doc = Json::Object(members);
        proof {
            lemma_view_unfolds(doc);
            assert(members_view(members@) =~= capture_document(self@)->Object_0);
        }
        doc
    }
}

/// Decodes a team-radio document; `None` where it has another shape.
pub fn captures_from_json(doc: &Json) -> (r: Option<Vec<Capture>>)
    ensures
        match r {
            Some(captures) => captures_of(doc@) == Some(captures_view(captures@)),
            None => captures_of(doc@).is_none(),
        },
{
    match doc.get_array("Captures") {
        Some(items) => {
            let mut out: Vec<Capture> = Vec::new();
            let mut i: usize = 0;
            while i < items.len()
                invariant
                    i <= items.len(),
                    out.len() == i,
                    array_member(doc@, "Captures"@) == Some(items_view(items@)),
                    forall|j: int|
                        0 <= j < i ==> capture_of(items@[j]@) == Some(#[trigger] out@[j]@),
                decreases items.len() - i,
            {
                match Capture::from_json(&items[i]) {
                    Some(capture) => out.push(capture),
                    None => {
                        proof {
                            lemma_all_of_none(items_view(items@), capture_decoder(), i as int);
                        }
                        return None;
                    },
                }
                i = i + 1;
            }
            proof {
                lemma_all_of_some(items_view(items@), capture_decoder(), captures_view(out@));
            }
            Some(out)
        },
        None => None,
    }
}

/// Rewrites the path of every capture into the address of its audio file.
pub fn rewrite_paths(captures: &Vec<Capture>, feed_url: &str) -> (out: Vec<Capture>)
    ensures
        captures_view(out@) == rewritten_all(captures_view(captures@), feed_url@),
{
    let mut out: Vec<Capture> = Vec::new();
    let mut i: usize = 0;
    while i < captures.len()
        invariant
            i <= captures.len(),
            out.len() == i,
            forall|j: int| 0 <= j < i ==> (#[trigger] out@[j])@ == rewritten(captures@[j]@, feed_url@),
        decreases captures.len() - i,
    {
        let capture = &captures[i];
        out.push(
            Capture {
                path: audio_url(feed_url, capture.path.as_str()),
                racing_number: capture.racing_number.clone(),
                utc: capture.utc.clone(),
            },
        );
        i = i + 1;
    }
    proof {
        assert(captures_view(out@) =~= rewritten_all(captures_view(captures@), feed_url@));
    }
    out
}

/// The captures as a table, in the order given.
pub fn radio_rows(captures: &Vec<Capture>) -> (t: Table)
    ensures
        t@ == radio_table(captures_view(captures@)),
{
    let titles = row3(cell("#"), cell("Audio Link"), cell("UTC Timestamp"));
    let mut rows: Vec<Vec<String>> = Vec::new();
    let mut i: usize = 0;
    while i < captures.len()
        invariant
            i <= captures.len(),
            rows.len() == i,
            forall|j: int|
                0 <= j < i ==> cells_view(#[trigger] rows@[j]@) == capture_row(captures@[j]@),
        decreases captures.len() - i,
    {
        let capture = &captures[i];
        rows.push(row3(capture.racing_number.clone(), capture.path.clone(), capture.utc.clone()));
        i = i + 1;
    }
    proof {
        assert(rows_view(rows@) =~= radio_table(captures_view(captures@)).rows);
    }
    Table { titles, rows }
}

/// The captures as a document, in the order given.
pub fn radio_json(captures: &Vec<Capture>) -> (doc: Json)
    ensures
        doc@ == radio_document(captures_view(captures@)),
{
    let mut items: Vec<Json> = Vec::new();
    let mut i: usize = 0;
    while i < captures.len()
        invariant
            i <= captures.len(),
            items.len() == i,
            forall|j: int| 0 <= j < i ==> (#[trigger] items@[j])@ == capture_document(captures@[j]@),
        decreases captures.len() - i,
    {
        items.push(captures[i].to_json());
        i = i + 1;
    }
    let list = Json::Array(items);
    let mut members: Vec<(String, Json)> = Vec::new();
    members.push((cell("Captures"), list));
    let doc = Json::Object(members);
    proof {
        lemma_view_unfolds(list);
        lemma_view_unfolds(doc);
        let wanted = radio_document(captures_view(captures@));
        assert(items_view(items@) =~= wanted->Object_0[0].1->Array_0);
        assert(members_view(members@) =~= wanted->Object_0);
    }
    doc
}

} // verus!
