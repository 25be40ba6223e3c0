//! The season index and the resolution of a query to one session path.

use vstd::prelude::*;
use vstd::string::StringExecFns;
use crate::json::{
    all_of, array_member, items_view, lemma_all_of_none, lemma_all_of_some, text_member, Json,
    JsonView,
};
use crate::seqs::{lemma_filter_none, lemma_filter_one, lemma_filter_single, lemma_filter_two};
use crate::text::{
    decimal, lowercase, lowered_chars, matches_lowered, matches_query, push_digits, push_text,
};

verus! {

/// One timed session of a meeting.
#[derive(Debug, Clone, PartialEq, Eq)]
pub struct Session {
    pub name: String,
    /// Token from which the session's feed addresses are built.
    pub path: String,
}

/// One grand-prix weekend.
#[derive(Debug, Clone, PartialEq, Eq)]
pub struct Meeting {
    pub name: String,
    pub sessions: Vec<Session>,
}

/// A season's catalogue of meetings, in document order.
#[derive(Debug, Clone, PartialEq, Eq)]
pub struct Index {
    pub meetings: Vec<Meeting>,
}

pub ghost struct SessionView {
    pub name: Seq<char>,
    pub path: Seq<char>,
}

pub ghost struct MeetingView {
    pub name: Seq<char>,
    pub sessions: Seq<SessionView>,
}

impl View for Session {
    type V = SessionView;

    open spec fn view(&self) -> SessionView {
        SessionView { name: self.name@, path: self.path@ }
    }
}

/// The views of a run of sessions, in order.
pub open spec fn sessions_view(sessions: Seq<Session>) -> Seq<SessionView> {
    Seq::new(sessions.len(), |i: int| sessions[i]@)
}

impl View for Meeting {
    type V = MeetingView;

    open spec fn view(&self) -> MeetingView {
        MeetingView { name: self.name@, sessions: sessions_view(self.sessions@) }
    }
}

/// The views of a run of meetings, in order.
pub open spec fn meetings_view(meetings: Seq<Meeting>) -> Seq<MeetingView> {
    Seq::new(meetings.len(), |i: int| meetings[i]@)
}

impl View for Index {
    type V = Seq<MeetingView>;

    open spec fn view(&self) -> Seq<MeetingView> {
        meetings_view(self.meetings@)
    }
}

/// The session that a document describes: an object whose `Name` and `Path`
/// are texts.
pub open spec fn session_of(doc: JsonView) -> Option<SessionView> {
    match (text_member(doc, "Name"@), text_member(doc, "Path"@)) {
        (Some(name), Some(path)) => Some(SessionView { name, path }),
        _ => None,
    }
}

/// `session_of` as a value.
pub open spec fn session_decoder() -> spec_fn(JsonView) -> Option<SessionView> {
    |doc: JsonView| session_of(doc)
}

/// The sessions that the elements of an array describe.
pub open spec fn sessions_of(items: Seq<JsonView>) -> Option<Seq<SessionView>> {
    all_of(items, session_decoder())
}

/// The meeting that a document describes: an object whose `Name` is a text
/// and whose `Sessions` is an array of sessions.
pub open spec fn meeting_of(doc: JsonView) -> Option<MeetingView> {
    match (text_member(doc, "Name"@), array_member(doc, "Sessions"@)) {
        (Some(name), Some(items)) => match sessions_of(items) {
            Some(sessions) => Some(MeetingView { name, sessions }),
            None => None,
        },
        _ => None,
    }
}

/// `meeting_of` as a value.
pub open spec fn meeting_decoder() -> spec_fn(JsonView) -> Option<MeetingView> {
    |doc: JsonView| meeting_of(doc)
}

/// The meetings that the elements of an array describe.
pub open spec fn meetings_of(items: Seq<JsonView>) -> Option<Seq<MeetingView>> {
    all_of(items, meeting_decoder())
}

/// The index that a document describes: an object whose `Meetings` is an
/// array of meetings.
pub open spec fn index_of(doc: JsonView) -> Option<Seq<MeetingView>> {
    match array_member(doc, "Meetings"@) {
        Some(items) => meetings_of(items),
        None => None,
    }
}

impl Session {
    /// Decodes a session; `None` where the document has another shape.
    pub fn from_json(doc: &Json) -> (r: Option<Session>)
        ensures
            match r {
                Some(s) => session_of(doc@) == Some(s@),
                None => session_of(doc@).is_none(),
            },
    {
        match (doc.get_text("Name"), doc.get_text("Path")) {
            (Some(name), Some(path)) => Some(Session { name: name.clone(), path: path.clone() }),
            _ => None,
        }
    }
}

/// Decodes the sessions of a meeting, all or none.
fn sessions_from_json(items: &Vec<Json>) -> (r: Option<Vec<Session>>)
    ensures
        match r {
            Some(v) => sessions_of(items_view(items@)) == Some(sessions_view(v@)),
            None => sessions_of(items_view(items@)).is_none(),
        },
{
    let mut out: Vec<Session> = Vec::new();
    let mut i: usize = 0;
    while i < items.len()
        invariant
            i <= items.len(),
            out.len() == i,
            forall|j: int| 0 <= j < i ==> session_of(items@[j]@) == Some(#[trigger] out@[j]@),
        decreases items.len() - i,
    {
        match Session::from_json(&items[i]) {
            Some(s) => out.push(s),
            None => {
                proof {
                    lemma_all_of_none(items_view(items@), session_decoder(), i as int);
                }
                return None;
            },
        }
        i = i + 1;
    }
    proof {
        lemma_all_of_some(items_view(items@), session_decoder(), sessions_view(out@));
    }
    Some(out)
}

impl Meeting {
    /// Decodes a meeting; `None` where the document has another shape.
    pub fn from_json(doc: &Json) -> (r: Option<Meeting>)
        ensures
            match r {
                Some(m) => meeting_of(doc@) == Some(m@),
                None => meeting_of(doc@).is_none(),
            },
    {
        match (doc.get_text("Name"), doc.get_array("Sessions")) {
            (Some(name), Some(items)) => match sessions_from_json(items) {
                Some(sessions) => Some(Meeting { name: name.clone(), sessions }),
                None => None,
            },
            _ => None,
        }
    }
}

impl Index {
    /// Decodes an index; `None` where the document has another shape.
    pub fn from_json(doc: &Json) -> (r: Option<Index>)
        ensures
            match r {
                Some(index) => index_of(doc@) == Some(index@),
                None => index_of(doc@).is_none(),
            },
    {
        match doc.get_array("Meetings") {
            Some(items) => {
                let mut out: Vec<Meeting> = Vec::new();
                let mut i: usize = 0;
                while i < items.len()
                    invariant
                        i <= items.len(),
                        out.len() == i,
                        array_member(doc@, "Meetings"@) == Some(items_view(items@)),
                        forall|j: int|
                            0 <= j < i ==> meeting_of(items@[j]@) == Some(#[trigger] out@[j]@),
                    decreases items.len() - i,
                {
                    match Meeting::from_json(&items[i]) {
                        Some(m) => out.push(m),
                        None => {
                            proof {
                                lemma_all_of_none(items_view(items@), meeting_decoder(), i as int);
                            }
                            return None;
                        },
                    }
                    i = i + 1;
                }
                proof {
                    lemma_all_of_some(items_view(items@), meeting_decoder(), meetings_view(out@));
                }
                Some(Index { meetings: out })
            },
            None => None,
        }
    }
}

/// Why a query did not resolve to one session.
#[derive(Debug, Clone, PartialEq, Eq)]
pub enum ResolutionError {
    /// The index could not be had, or its body was not JSON.
    FetchFailed,
    /// The index was JSON of another shape than an index has.
    SchemaMismatch,
    /// No meeting matches the query, which is carried along.
    NoGpMatch(String),
    /// Several meetings match the query: the query and their number.
    AmbiguousGpMatch(String, usize),
    /// No session of the one matching meeting matches the query.
    NoSessionMatch(String),
    /// Several sessions of the one matching meeting match the query.
    AmbiguousSessionMatch(String, usize),
}

pub ghost enum ResolutionFailure {
    FetchFailed,
    SchemaMismatch,
    NoGpMatch(Seq<char>),
    AmbiguousGpMatch(Seq<char>, nat),
    NoSessionMatch(Seq<char>),
    AmbiguousSessionMatch(Seq<char>, nat),
}

impl View for ResolutionError {
    type V = ResolutionFailure;

    open spec fn view(&self) -> ResolutionFailure {
        match *self {
            ResolutionError::FetchFailed => ResolutionFailure::FetchFailed,
            ResolutionError::SchemaMismatch => ResolutionFailure::SchemaMismatch,
            ResolutionError::NoGpMatch(q) => ResolutionFailure::NoGpMatch(q@),
            ResolutionError::AmbiguousGpMatch(q, n) => ResolutionFailure::AmbiguousGpMatch(
                q@,
                n as nat,
            ),
            ResolutionError::NoSessionMatch(q) => ResolutionFailure::NoSessionMatch(q@),
            ResolutionError::AmbiguousSessionMatch(q, n) => ResolutionFailure::AmbiguousSessionMatch(
                q@,
                n as nat,
            ),
        }
    }
}

/// The outcome of a resolution as a mathematical value.
pub open spec fn outcome(r: Result<String, ResolutionError>) -> Result<Seq<char>, ResolutionFailure> {
    match r {
        Ok(path) => Ok(path@),
        Err(e) => Err(e@),
    }
}

/// The test that picks the meetings a query matches.
pub open spec fn meeting_matcher(query: Seq<char>) -> spec_fn(MeetingView) -> bool {
    |m: MeetingView| matches_query(m.name, query)
}

/// The test that picks the sessions a query matches.
pub open spec fn session_matcher(query: Seq<char>) -> spec_fn(SessionView) -> bool {
    |s: SessionView| matches_query(s.name, query)
}

/// The meetings whose name matches the query, in index order.
pub open spec fn matching_meetings(index: Seq<MeetingView>, query: Seq<char>) -> Seq<MeetingView> {
    index.filter(meeting_matcher(query))
}

/// The sessions whose name matches the query, in meeting order.
pub open spec fn matching_sessions(sessions: Seq<SessionView>, query: Seq<char>) -> Seq<
    SessionView,
> {
    sessions.filter(session_matcher(query))
}

/// What a query resolves to: the path of the one matching session of the one
/// matching meeting, or the first reason why there is no such session.
pub open spec fn resolution(index: Seq<MeetingView>, gp: Seq<char>, session: Seq<char>) -> Result<
    Seq<char>,
    ResolutionFailure,
> {
    let meetings = matching_meetings(index, gp);
    if meetings.len() == 0 {
        Err(ResolutionFailure::NoGpMatch(gp))
    } else if meetings.len() > 1 {
        Err(ResolutionFailure::AmbiguousGpMatch(gp, meetings.len()))
    } else {
        let sessions = matching_sessions(meetings[0].sessions, session);
        if sessions.len() == 0 {
            Err(ResolutionFailure::NoSessionMatch(session))
        } else if sessions.len() > 1 {
            Err(ResolutionFailure::AmbiguousSessionMatch(session, sessions.len()))
        } else {
            Ok(sessions[0].path)
        }
    }
}

/// Counts the meetings that match and remembers where the first one stands.
fn scan_meetings(meetings: &Vec<Meeting>, query: Ghost<Seq<char>>, lowered: &Vec<char>) -> (r: (
    usize,
    usize,
))
    requires
        lowered@ == lowercase(query@),
    ensures
        r.0 == matching_meetings(meetings_view(meetings@), query@).len(),
        r.0 > 0 ==> r.1 < meetings.len() && meetings[r.1 as int]@ == matching_meetings(
            meetings_view(meetings@),
            query@,
        )[0],
{
    let ghost all = meetings_view(meetings@);
    let ghost pred = meeting_matcher(query@);
    let mut count: usize = 0;
    let mut first: usize = 0;
    let mut i: usize = 0;
    proof {
        assert(all.take(0) =~= Seq::<MeetingView>::empty());
        reveal(Seq::filter);
    }
    while i < meetings.len()
        invariant
            i <= meetings.len(),
            all == meetings_view(meetings@),
            pred == meeting_matcher(query@),
            lowered@ == lowercase(query@),
            count <= i,
            count == all.take(i as int).filter(pred).len(),
            count > 0 ==> first < i && all[first as int] == all.take(i as int).filter(pred)[0],
        decreases meetings.len() - i,
    {
        let hit = matches_lowered(meetings[i].name.as_str(), lowered);
        proof {
            let before = all.take(i as int);
            assert(all.take(i + 1) =~= before.push(all[i as int]));
            before.lemma_filter_push(all[i as int], pred);
            assert(hit == pred(all[i as int]));
        }
        if hit {
            if count == 0 {
                first = i;
            }
            count = count + 1;
        }
        i = i + 1;
    }
    proof {
        assert(all.take(i as int) =~= all);
    }
    (count, first)
}

/// Counts the sessions that match and remembers where the first one stands.
fn scan_sessions(sessions: &Vec<Session>, query: Ghost<Seq<char>>, lowered: &Vec<char>) -> (r: (
    usize,
    usize,
))
    requires
        lowered@ == lowercase(query@),
    ensures
        r.0 == matching_sessions(sessions_view(sessions@), query@).len(),
        r.0 > 0 ==> r.1 < sessions.len() && sessions[r.1 as int]@ == matching_sessions(
            sessions_view(sessions@),
            query@,
        )[0],
{
    let ghost all = sessions_view(sessions@);
    let ghost pred = session_matcher(query@);
    let mut count: usize = 0;
    let mut first: usize = 0;
    let mut i: usize = 0;
    proof {
        assert(all.take(0) =~= Seq::<SessionView>::empty());
        reveal(Seq::filter);
    }
    while i < sessions.len()
        invariant
            i <= sessions.len(),
            all == sessions_view(sessions@),
            pred == session_matcher(query@),
            lowered@ == lowercase(query@),
            count <= i,
            count == all.take(i as int).filter(pred).len(),
            count > 0 ==> first < i && all[first as int] == all.take(i as int).filter(pred)[0],
        decreases sessions.len() - i,
    {
        let hit = matches_lowered(sessions[i].name.as_str(), lowered);
        proof {
            let before = all.take(i as int);
            assert(all.take(i + 1) =~= before.push(all[i as int]));
            before.lemma_filter_push(all[i as int], pred);
            assert(hit == pred(all[i as int]));
        }
        if hit {
            if count == 0 {
                first = i;
            }
            count = count + 1;
        }
        i = i + 1;
    }
    proof {
        assert(all.take(i as int) =~= all);
    }
    (count, first)
}

/// Narrows the index to the one session that both queries name.
///
/// A query matches a name when the lower-cased name contains the lower-cased
/// query. Nothing is guessed: no match and several matches are both errors,
/// and the meeting is settled before any session is looked at.
pub fn resolve(index: &Index, gp: &str, session: &str) -> (r: Result<String, ResolutionError>)
    ensures
        outcome(r) == resolution(index@, gp@, session@),
{
    let lowered_gp = lowered_chars(gp);
    let (meeting_count, meeting_at) = scan_meetings(
        &index.meetings,
        Ghost(gp@),
        &lowered_gp,
    );
    if meeting_count == 0 {
        return Err(ResolutionError::NoGpMatch(gp.to_owned()));
    }
    if meeting_count > 1 {
        return Err(ResolutionError::AmbiguousGpMatch(gp.to_owned(), meeting_count));
    }
    let meeting = &index.meetings[meeting_at];
    let lowered_session = lowered_chars(session);
    let (session_count, session_at) = scan_sessions(
        &meeting.sessions,
        Ghost(session@),
        &lowered_session,
    );
    if session_count == 0 {
        return Err(ResolutionError::NoSessionMatch(session.to_owned()));
    }
    if session_count > 1 {
        return Err(ResolutionError::AmbiguousSessionMatch(session.to_owned(), session_count));
    }
    Ok(meeting.sessions[session_at].path.clone())
}

/// A resolution with the queries it echoes replaced by others.
pub open spec fn requoted(
    r: Result<Seq<char>, ResolutionFailure>,
    gp: Seq<char>,
    session: Seq<char>,
) -> Result<Seq<char>, ResolutionFailure> {
    match r {
        Err(ResolutionFailure::NoGpMatch(_)) => Err(ResolutionFailure::NoGpMatch(gp)),
        Err(ResolutionFailure::AmbiguousGpMatch(_, n)) => Err(
            ResolutionFailure::AmbiguousGpMatch(gp, n),
        ),
        Err(ResolutionFailure::NoSessionMatch(_)) => Err(ResolutionFailure::NoSessionMatch(session)),
        Err(ResolutionFailure::AmbiguousSessionMatch(_, n)) => Err(
            ResolutionFailure::AmbiguousSessionMatch(session, n),
        ),
        other => other,
    }
}

/// When exactly one meeting matches the meeting query and exactly one of its
/// sessions matches the session query, the resolution is that session's path.
pub proof fn lemma_unique_match_resolves(
    index: Seq<MeetingView>,
    gp: Seq<char>,
    session: Seq<char>,
    m: int,
    s: int,
)
    requires
        0 <= m < index.len(),
        matches_query(index[m].name, gp),
        forall|i: int| 0 <= i < index.len() && i != m ==> !matches_query(index[i].name, gp),
        0 <= s < index[m].sessions.len(),
        matches_query(index[m].sessions[s].name, session),
        forall|j: int|
            0 <= j < index[m].sessions.len() && j != s ==> !matches_query(
                index[m].sessions[j].name,
                session,
            ),
    ensures
        resolution(index, gp, session) == Ok::<Seq<char>, ResolutionFailure>(
            index[m].sessions[s].path,
        ),
{
    lemma_filter_one(index, meeting_matcher(gp), m);
    lemma_filter_one(index[m].sessions, session_matcher(session), s);
}

/// When no meeting matches the meeting query, the resolution is `NoGpMatch`
/// with that query, whatever the session query is.
pub proof fn lemma_no_meeting_matches(index: Seq<MeetingView>, gp: Seq<char>, session: Seq<char>)
    requires
        forall|i: int| 0 <= i < index.len() ==> !matches_query(index[i].name, gp),
    ensures
        resolution(index, gp, session) == Err::<Seq<char>, ResolutionFailure>(
            ResolutionFailure::NoGpMatch(gp),
        ),
{
    lemma_filter_none(index, meeting_matcher(gp));
}

/// When two or more meetings match the meeting query, the resolution is
/// `AmbiguousGpMatch` with that query and their number, whatever the session
/// query is.
pub proof fn lemma_several_meetings_match(
    index: Seq<MeetingView>,
    gp: Seq<char>,
    session: Seq<char>,
    a: int,
    b: int,
)
    requires
        0 <= a < b < index.len(),
        matches_query(index[a].name, gp),
        matches_query(index[b].name, gp),
    ensures
        matching_meetings(index, gp).len() >= 2,
        resolution(index, gp, session) == Err::<Seq<char>, ResolutionFailure>(
            ResolutionFailure::AmbiguousGpMatch(gp, matching_meetings(index, gp).len()),
        ),
{
    lemma_filter_two(index, meeting_matcher(gp), a, b);
}

/// The meeting query alone decides whether resolution stops at the meetings:
/// with none or several matching, any two session queries give one result.
pub proof fn lemma_meeting_errors_ignore_session(
    index: Seq<MeetingView>,
    gp: Seq<char>,
    session_a: Seq<char>,
    session_b: Seq<char>,
)
    requires
        matching_meetings(index, gp).len() != 1,
    ensures
        resolution(index, gp, session_a) == resolution(index, gp, session_b),
{
}

/// Matching ignores case: queries with the same lower-casing select the same
/// meetings and sessions, so their resolutions differ at most in the query
/// that an error echoes.
pub proof fn lemma_case_insensitive(
    index: Seq<MeetingView>,
    gp_a: Seq<char>,
    session_a: Seq<char>,
    gp_b: Seq<char>,
    session_b: Seq<char>,
)
    requires
        lowercase(gp_a) == lowercase(gp_b),
        lowercase(session_a) == lowercase(session_b),
    ensures
        matching_meetings(index, gp_a) == matching_meetings(index, gp_b),
        forall|sessions: Seq<SessionView>|
            matching_sessions(sessions, session_a) == matching_sessions(sessions, session_b),
        resolution(index, gp_b, session_b) == requoted(
            resolution(index, gp_a, session_a),
            gp_b,
            session_b,
        ),
        resolution(index, gp_a, session_a) is Ok ==> resolution(index, gp_b, session_b)
            == resolution(index, gp_a, session_a),
{
    assert(meeting_matcher(gp_a) =~= meeting_matcher(gp_b));
    assert(session_matcher(session_a) =~= session_matcher(session_b));
}

/// A resolution succeeds only where nothing is ambiguous: exactly one
/// meeting matches the meeting query, exactly one of its sessions matches
/// the session query, and the path is that session's.
pub proof fn lemma_resolved_means_unique(
    index: Seq<MeetingView>,
    gp: Seq<char>,
    session: Seq<char>,
) -> (found: (int, int))
    requires
        resolution(index, gp, session) is Ok,
    ensures
        0 <= found.0 < index.len(),
        matches_query(index[found.0].name, gp),
        forall|i: int| 0 <= i < index.len() && i != found.0 ==> !matches_query(index[i].name, gp),
        0 <= found.1 < index[found.0].sessions.len(),
        matches_query(index[found.0].sessions[found.1].name, session),
        forall|j: int|
            0 <= j < index[found.0].sessions.len() && j != found.1 ==> !matches_query(
                index[found.0].sessions[j].name,
                session,
            ),
        resolution(index, gp, session) == Ok::<Seq<char>, ResolutionFailure>(
            index[found.0].sessions[found.1].path,
        ),
{
    let m = lemma_filter_single(index, meeting_matcher(gp));
    let s = lemma_filter_single(index[m].sessions, session_matcher(session));
    (m, s)
}

/// The sentence that tells a failed resolution: what was looked for, and
/// for an ambiguous query how many names it matched.
pub open spec fn failure_text(failure: ResolutionFailure) -> Seq<char> {
    match failure {
        ResolutionFailure::FetchFailed => "The season index could not be fetched"@,
        ResolutionFailure::SchemaMismatch => "The season index has an unexpected shape"@,
        ResolutionFailure::NoGpMatch(query) => "No GP matches found for '"@ + query + "'"@,
        ResolutionFailure::AmbiguousGpMatch(query, count) => "Multiple GP matches found for '"@
            + query + "': "@ + decimal(count as int),
        ResolutionFailure::NoSessionMatch(query) => "No sessions matches found for '"@ + query
            + "'"@,
        ResolutionFailure::AmbiguousSessionMatch(query, count) =>
            "Multiple Sessions matches found for '"@ + query + "': "@ + decimal(count as int),
    }
}

impl ResolutionError {
    /// The error as one sentence.
    pub fn message(&self) -> (text: String)
        ensures
            text@ == failure_text(self@),
    {
        match self {
            ResolutionError::FetchFailed => String::from_str(
                "The season index could not be fetched",
            ),
            ResolutionError::SchemaMismatch => String::from_str(
                "The season index has an unexpected shape",
            ),
            ResolutionError::NoGpMatch(query) => {
                let mut text = String::from_str("No GP matches found for '");
                push_text(&mut text, query.as_str());
                push_text(&mut text, "'");
                text
            },
            ResolutionError::AmbiguousGpMatch(query, count) => {
                let mut text = String::from_str("Multiple GP matches found for '");
                push_text(&mut text, query.as_str());
                push_text(&mut text, "': ");
                push_digits(&mut text, *count as u64);
                text
            },
            ResolutionError::NoSessionMatch(query) => {
                let mut text = String::from_str("No sessions matches found for '");
                push_text(&mut text, query.as_str());
                push_text(&mut text, "'");
                text
            },
            ResolutionError::AmbiguousSessionMatch(query, count) => {
                let mut text = String::from_str("Multiple Sessions matches found for '");
                push_text(&mut text, query.as_str());
                push_text(&mut text, "': ");
                push_digits(&mut text, *count as u64);
                text
            },
        }
    }
}

} // verus!
