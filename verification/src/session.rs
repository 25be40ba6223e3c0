//! A session command from start to end: which documents to ask for, and
//! what to make of each reply. The caller does the fetching.

use vstd::prelude::*;
use vstd::string::StringExecFns;
use crate::cli::{SessionArgs, SessionCommands};
use crate::feed::{feed_address, feed_url, index_address, index_url, FeedKind, OutputMode};
use crate::index::{
    failure_text, index_of, outcome, resolution, resolve, Index, ResolutionError,
    ResolutionFailure,
};
use crate::json::{parsed, Json};
use crate::render::{render, rendering};
use crate::text::push_text;

verus! {

/// Why a feed could not be shown.
#[derive(Debug, Clone, Copy, PartialEq, Eq, Structural)]
pub enum FeedError {
    /// The feed could not be had, or its body was not JSON.
    Unavailable,
    /// The feed was JSON of another shape than the feed has.
    SchemaMismatch,
}

/// The request for a season's index, with what is to be done with it.
#[derive(Debug, Clone, PartialEq, Eq)]
pub struct IndexRequest {
    /// The address to fetch.
    pub url: String,
    pub gp: String,
    pub session: String,
    pub kind: FeedKind,
    pub mode: OutputMode,
}

/// The request for a feed of a resolved session.
#[derive(Debug, Clone, PartialEq, Eq)]
pub struct FeedRequest {
    /// The address to fetch.
    pub url: String,
    pub kind: FeedKind,
    pub mode: OutputMode,
}

/// The text of a reply, where there is one.
pub open spec fn reply_text(reply: Option<&str>) -> Option<Seq<char>> {
    match reply {
        Some(text) => Some(text@),
        None => None,
    }
}

/// The arguments that a command carries.
pub open spec fn command_args(command: SessionCommands) -> SessionArgs {
    match command {
        SessionCommands::Info(args) => args,
        SessionCommands::Status(args) => args,
        SessionCommands::Radios(args) => args,
        SessionCommands::Drivers(args) => args,
    }
}

/// The feed that a command asks for.
pub open spec fn command_feed(command: SessionCommands) -> FeedKind {
    match command {
        SessionCommands::Info(_) => FeedKind::SessionInfo,
        SessionCommands::Status(_) => FeedKind::SessionStatus,
        SessionCommands::Radios(_) => FeedKind::TeamRadio,
        SessionCommands::Drivers(_) => FeedKind::DriverRoster,
    }
}

/// The output mode that the arguments choose.
pub open spec fn chosen_mode(json: bool) -> OutputMode {
    if json {
        OutputMode::Structured
    } else {
        OutputMode::Tabular
    }
}

/// What the reply to an index request resolves to: no reply and a reply
/// that is not JSON are `FetchFailed`, JSON that is no index is
/// `SchemaMismatch`, and an index resolves as `resolution` says.
pub open spec fn reply_resolution(
    reply: Option<Seq<char>>,
    gp: Seq<char>,
    session: Seq<char>,
) -> Result<Seq<char>, ResolutionFailure> {
    match reply {
        None => Err(ResolutionFailure::FetchFailed),
        Some(text) => match parsed(text) {
            None => Err(ResolutionFailure::FetchFailed),
            Some(doc) => match index_of(doc) {
                None => Err(ResolutionFailure::SchemaMismatch),
                Some(index) => resolution(index, gp, session),
            },
        },
    }
}

/// What the reply to a feed request is shown as: no reply and a reply that
/// is not JSON are `Unavailable`, JSON of another shape is
/// `SchemaMismatch`, and a feed document is shown as `rendering` says.
pub open spec fn presentation(
    reply: Option<Seq<char>>,
    kind: FeedKind,
    mode: OutputMode,
    feed_url: Seq<char>,
) -> Result<Seq<char>, FeedError> {
    match reply {
        None => Err(FeedError::Unavailable),
        Some(text) => match parsed(text) {
            None => Err(FeedError::Unavailable),
            Some(doc) => match rendering(doc, kind, mode, feed_url) {
                Some(shown) => Ok(shown),
                None => Err(FeedError::SchemaMismatch),
            },
        },
    }
}

/// The outcome of a presentation as a mathematical value.
pub open spec fn presented(r: Result<String, FeedError>) -> Result<Seq<char>, FeedError> {
    match r {
        Ok(text) => Ok(text@),
        Err(e) => Err(e),
    }
}

/// The line that reports a failed resolution: the address of the index
/// that was asked for, then what went wrong.
pub open spec fn resolution_report(failure: ResolutionFailure, index_url: Seq<char>) -> Seq<char> {
    "Error fetching session path from "@ + index_url + ": "@ + failure_text(failure)
}

/// The line that reports a feed that could not be shown: what went wrong,
/// then the address of the feed.
pub open spec fn feed_report(error: FeedError, feed_url: Seq<char>) -> Seq<char> {
    match error {
        FeedError::Unavailable => "Error fetching the data from "@ + feed_url,
        FeedError::SchemaMismatch => "Error parsing the data from "@ + feed_url,
    }
}

/// Resolves the reply to an index request to the path of one session.
/// `reply` is the body that came back, `None` where the transport failed.
pub fn fetch_session_path(reply: Option<&str>, gp: &str, session: &str) -> (r: Result<
    String,
    ResolutionError,
>)
    ensures
        outcome(r) == reply_resolution(reply_text(reply), gp@, session@),
{
    let text = match reply {
        Some(text) => text,
        None => {
            return Err(ResolutionError::FetchFailed);
        },
    };
    let doc = match Json::parse(text) {
        Some(doc) => doc,
        None => {
            return Err(ResolutionError::FetchFailed);
        },
    };
    match Index::from_json(&doc) {
        Some(index) => resolve(&index, gp, session),
        None => Err(ResolutionError::SchemaMismatch),
    }
}

/// Shows the reply to a feed request in the given mode. `reply` is the body
/// that came back, `None` where the transport failed.
pub fn present(reply: Option<&str>, kind: FeedKind, mode: OutputMode, feed_url: &str) -> (r:
    Result<String, FeedError>)
    ensures
        presented(r) == presentation(reply_text(reply), kind, mode, feed_url@),
{
    let text = match reply {
        Some(text) => text,
        None => {
            return Err(FeedError::Unavailable);
        },
    };
    let doc = match Json::parse(text) {
        Some(doc) => doc,
        None => {
            return Err(FeedError::Unavailable);
        },
    };
    match render(&doc, kind, mode, feed_url) {
        Ok(shown) => Ok(shown),
        Err(_) => Err(FeedError::SchemaMismatch),
    }
}

impl FeedError {
    /// The error as one line that names the feed by its address.
    pub fn message(&self, feed_url: &str) -> (text: String)
        ensures
            text@ == feed_report(*self, feed_url@),
    {
        let mut text = match self {
            FeedError::Unavailable => String::from_str("Error fetching the data from "),
            FeedError::SchemaMismatch => String::from_str("Error parsing the data from "),
        };
        push_text(&mut text, feed_url);
        text
    }
}

/// Starts a session command: the request for the index of its season,
/// carrying the queries, the feed that the command names and the output
/// mode that its arguments choose.
pub fn handle_session_command(command: SessionCommands) -> (request: IndexRequest)
    ensures
        request.url@ == index_address(command_args(command).year as int),
        request.gp@ == command_args(command).gp@,
        request.session@ == command_args(command).session@,
        request.kind == command_feed(command),
        request.mode == chosen_mode(command_args(command).json),
{
    let (args, kind) = match command {
        SessionCommands::Info(args) => (args, FeedKind::SessionInfo),
        SessionCommands::Status(args) => (args, FeedKind::SessionStatus),
        SessionCommands::Radios(args) => (args, FeedKind::TeamRadio),
        SessionCommands::Drivers(args) => (args, FeedKind::DriverRoster),
    };
    let mode = if args.json {
        OutputMode::Structured
    } else {
        OutputMode::Tabular
    };
    IndexRequest { url: index_url(args.year), gp: args.gp, session: args.session, kind, mode }
}

impl IndexRequest {
    /// Takes the reply to the index request: the request for the feed of
    /// the session that the queries resolve to, or the line that reports why
    /// there is none. No feed is asked for after a failed resolution.
    pub fn on_reply(&self, reply: Option<&str>) -> (r: Result<FeedRequest, String>)
        ensures
            match (r, reply_resolution(reply_text(reply), self.gp@, self.session@)) {
                (Ok(next), Ok(path)) => {
                    &&& next.url@ == feed_address(path, self.kind)
                    &&& next.kind == self.kind
                    &&& next.mode == self.mode
                },
                (Err(line), Err(failure)) => line@ == resolution_report(failure, self.url@),
                _ => false,
            },
    {
        match fetch_session_path(reply, self.gp.as_str(), self.session.as_str()) {
            Ok(path) => Ok(
                FeedRequest {
                    url: feed_url(path.as_str(), self.kind),
                    kind: self.kind,
                    mode: self.mode,
                },
            ),
            Err(e) => {
                let mut line = String::from_str("Error fetching session path from ");
                push_text(&mut line, self.url.as_str());
                push_text(&mut line, ": ");
                let told = e.message();
                push_text(&mut line, told.as_str());
                Err(line)
            },
        }
    }
}

impl FeedRequest {
    /// Takes the reply to the feed request: the text to show, or the line
    /// that reports why nothing is shown.
    pub fn on_reply(&self, reply: Option<&str>) -> (r: Result<String, String>)
        ensures
            match (r, presentation(reply_text(reply), self.kind, self.mode, self.url@)) {
                (Ok(shown), Ok(text)) => shown@ == text,
                (Err(line), Err(error)) => line@ == feed_report(error, self.url@),
                _ => false,
            },
    {
        match present(reply, self.kind, self.mode, self.url.as_str()) {
            Ok(shown) => Ok(shown),
            Err(e) => Err(e.message(self.url.as_str())),
        }
    }
}

} // verus!
