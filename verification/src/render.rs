//! From a fetched document to the text that is shown.

use vstd::prelude::*;
use crate::feed::{FeedKind, OutputMode};
use crate::info::{info_of, info_table, SessionInfo};
use crate::feed::audio_address;
use crate::json::{array_member, position_of, pretty_text, text_member, Json, JsonView};
use crate::radio::{
    capture_document, captures_from_json, captures_of, radio_document, radio_json, radio_rows, radio_table,
    rewrite_paths, rewritten_all,
};
use crate::roster::{roster_from_json, roster_of, roster_rows, roster_table};
use crate::status::{status_from_json, status_of, status_rows, status_table};
use crate::table::{table_text, Table, TableView};

verus! {

/// The document does not have the shape of the feed it was fetched as.
#[derive(Debug, Clone, Copy, PartialEq, Eq, Structural)]
pub struct SchemaMismatch;

/// The table that a feed document is shown as; `None` where the document
/// does not have the shape of the feed. Only the team-radio table depends on
/// the address the feed came from.
pub open spec fn tabulated(doc: JsonView, kind: FeedKind, feed_url: Seq<char>) -> Option<
    TableView,
> {
    match kind {
        FeedKind::SessionInfo => match info_of(doc) {
            Some(info) => Some(info_table(info)),
            None => None,
        },
        FeedKind::SessionStatus => match status_of(doc) {
            Some(entries) => Some(status_table(entries)),
            None => None,
        },
        FeedKind::DriverRoster => match roster_of(doc) {
            Some(drivers) => Some(roster_table(drivers)),
            None => None,
        },
        FeedKind::TeamRadio => match captures_of(doc) {
            Some(captures) => Some(radio_table(rewritten_all(captures, feed_url))),
            None => None,
        },
    }
}

/// The document that a feed document is printed as: the captures with
/// rewritten paths for team radio, the document itself for the others.
pub open spec fn structured(doc: JsonView, kind: FeedKind, feed_url: Seq<char>) -> Option<
    JsonView,
> {
    match kind {
        FeedKind::TeamRadio => match captures_of(doc) {
            Some(captures) => Some(radio_document(rewritten_all(captures, feed_url))),
            None => None,
        },
        _ => Some(doc),
    }
}

/// The text that a feed document is shown as in a mode.
pub open spec fn rendering(
    doc: JsonView,
    kind: FeedKind,
    mode: OutputMode,
    feed_url: Seq<char>,
) -> Option<Seq<char>> {
    match mode {
        OutputMode::Tabular => match tabulated(doc, kind, feed_url) {
            Some(table) => Some(table_text(table.titles, table.rows)),
            None => None,
        },
        OutputMode::Structured => match structured(doc, kind, feed_url) {
            Some(shown) => Some(pretty_text(shown)),
            None => None,
        },
    }
}

/// What `render` may return for a document: its rendering, or
/// `SchemaMismatch` where it has none.
pub open spec fn renders_to(
    doc: JsonView,
    kind: FeedKind,
    mode: OutputMode,
    feed_url: Seq<char>,
    r: Result<String, SchemaMismatch>,
) -> bool {
    match r {
        Ok(text) => rendering(doc, kind, mode, feed_url) == Some(text@),
        Err(_) => rendering(doc, kind, mode, feed_url).is_none(),
    }
}

/// Rendering one document twice in one mode gives the same text both times,
/// or fails both times.
pub proof fn lemma_rendering_repeats(
    doc: JsonView,
    kind: FeedKind,
    mode: OutputMode,
    feed_url: Seq<char>,
    first: Result<String, SchemaMismatch>,
    second: Result<String, SchemaMismatch>,
)
    requires
        renders_to(doc, kind, mode, feed_url, first),
        renders_to(doc, kind, mode, feed_url, second),
    ensures
        first.is_ok() == second.is_ok(),
        first.is_ok() ==> first.unwrap()@ == second.unwrap()@,
{
}

/// Both modes show one and the same audio address for each capture: the
/// capture's path joined to the directory of the feed's address.
pub proof fn lemma_modes_agree_on_audio(doc: JsonView, feed_url: Seq<char>, i: int)
    requires
        captures_of(doc).is_some(),
        0 <= i < captures_of(doc).unwrap().len(),
    ensures
        tabulated(doc, FeedKind::TeamRadio, feed_url).is_some(),
        structured(doc, FeedKind::TeamRadio, feed_url).is_some(),
        tabulated(doc, FeedKind::TeamRadio, feed_url).unwrap().rows[i][1] == audio_address(
            feed_url,
            captures_of(doc).unwrap()[i].path,
        ),
        array_member(structured(doc, FeedKind::TeamRadio, feed_url).unwrap(), "Captures"@)
            is Some,
        text_member(
            array_member(
                structured(doc, FeedKind::TeamRadio, feed_url).unwrap(),
                "Captures"@,
            ).unwrap()[i],
            "Path"@,
        ) == Some(audio_address(feed_url, captures_of(doc).unwrap()[i].path)),
{
    let captures = rewritten_all(captures_of(doc).unwrap(), feed_url);
    let shown = radio_document(captures);
    reveal_with_fuel(position_of, 2);
    assert(position_of(shown->Object_0, "Captures"@) == Some(0int));
    assert(position_of(capture_document(captures[i])->Object_0, "Path"@) == Some(0int));
}

/// The rows and titles under which a feed document is shown.
pub fn tabulate(doc: &Json, kind: FeedKind, feed_url: &str) -> (r: Result<Table, SchemaMismatch>)
    ensures
        match r {
            Ok(table) => tabulated(doc@, kind, feed_url@) == Some(table@),
            Err(_) => tabulated(doc@, kind, feed_url@).is_none(),
        },
{
    match kind {
        FeedKind::SessionInfo => match SessionInfo::from_json(doc) {
            Some(info) => Ok(info.table()),
            None => Err(SchemaMismatch),
        },
        FeedKind::SessionStatus => match status_from_json(doc) {
            Some(entries) => Ok(status_rows(&entries)),
            None => Err(SchemaMismatch),
        },
        FeedKind::DriverRoster => match roster_from_json(doc) {
            Some(drivers) => Ok(roster_rows(&drivers)),
            None => Err(SchemaMismatch),
        },
        FeedKind::TeamRadio => match captures_from_json(doc) {
            Some(captures) => Ok(radio_rows(&rewrite_paths(&captures, feed_url))),
            None => Err(SchemaMismatch),
        },
    }
}

/// Renders a feed document as pretty-printed JSON.
pub fn render_structured(doc: &Json, kind: FeedKind, feed_url: &str) -> (r: Result<
    String,
    SchemaMismatch,
>)
    ensures
        renders_to(doc@, kind, OutputMode::Structured, feed_url@, r),
{
    match kind {
        FeedKind::TeamRadio => match captures_from_json(doc) {
            Some(captures) => Ok(radio_json(&rewrite_paths(&captures, feed_url)).pretty()),
            None => Err(SchemaMismatch),
        },
        _ => Ok(doc.pretty()),
    }
}

/// Renders a feed document in the given mode. Nothing is shown of a
/// document that does not have the shape of its feed.
pub fn render(doc: &Json, kind: FeedKind, mode: OutputMode, feed_url: &str) -> (r: Result<
    String,
    SchemaMismatch,
>)
    ensures
        renders_to(doc@, kind, mode, feed_url@, r),
{
    match mode {
        OutputMode::Tabular => match tabulate(doc, kind, feed_url) {
            Ok(table) => Ok(table.to_text()),
            Err(e) => Err(e),
        },
        OutputMode::Structured => render_structured(doc, kind, feed_url),
    }
}

} // verus!
