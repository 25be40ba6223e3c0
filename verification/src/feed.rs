//! The data feeds of a session and their addresses.

use vstd::prelude::*;
use vstd::string::{StrSliceExecFns, StringExecFns};
use crate::text::{chars_of, decimal, push_decimal, push_text};

verus! {

/// Which of the four documents of a session is meant.
#[derive(Debug, Clone, Copy, PartialEq, Eq, Structural)]
pub enum FeedKind {
    SessionInfo,
    SessionStatus,
    DriverRoster,
    TeamRadio,
}

/// Whether output is JSON for machines or a table for people.
#[derive(Debug, Clone, Copy, PartialEq, Eq, Structural)]
pub enum OutputMode {
    Structured,
    Tabular,
}

/// The address under which every document stands.
pub open spec fn base_address() -> Seq<char> {
    "https://livetiming.formula1.com/static/"@
}

/// The file name of a feed.
pub open spec fn feed_file(kind: FeedKind) -> Seq<char> {
    match kind {
        FeedKind::SessionInfo => "SessionInfo.json"@,
        FeedKind::SessionStatus => "SessionData.json"@,
        FeedKind::DriverRoster => "DriverList.json"@,
        FeedKind::TeamRadio => "TeamRadio.json"@,
    }
}

/// The address of a season's index.
pub open spec fn index_address(year: int) -> Seq<char> {
    base_address() + decimal(year) + "/Index.json"@
}

/// The address of a feed of the session with the given path.
pub open spec fn feed_address(path: Seq<char>, kind: FeedKind) -> Seq<char> {
    base_address() + path + feed_file(kind)
}

/// The position of the last `/` of a text, if it has one.
pub open spec fn last_slash(url: Seq<char>) -> Option<int>
    decreases url.len(),
{
    if url.len() == 0 {
        None
    } else if url.last() == '/' {
        Some(url.len() - 1)
    } else {
        last_slash(url.drop_last())
    }
}

/// An address without its last segment: what stands before the last `/`,
/// or the whole address where it has none.
pub open spec fn directory(url: Seq<char>) -> Seq<char> {
    match last_slash(url) {
        Some(at) => url.subrange(0, at),
        None => url,
    }
}

/// A directory and a relative path put together with exactly one `/`
/// between them where the path brings none.
pub open spec fn joined(dir: Seq<char>, path: Seq<char>) -> Seq<char> {
    if path.len() > 0 && path[0] == '/' {
        dir + path
    } else {
        dir + seq!['/'] + path
    }
}

/// The address of an audio capture: its relative path joined to the
/// directory of the feed that lists it.
pub open spec fn audio_address(feed_url: Seq<char>, capture_path: Seq<char>) -> Seq<char> {
    joined(directory(feed_url), capture_path)
}

/// `last_slash` finds a `/` after which no other stands.
pub proof fn lemma_last_slash(url: Seq<char>)
    ensures
        match last_slash(url) {
            Some(at) => {
                &&& 0 <= at < url.len()
                &&& url[at] == '/'
                &&& forall|i: int| at < i < url.len() ==> url[i] != '/'
            },
            None => forall|i: int| 0 <= i < url.len() ==> url[i] != '/',
        },
    decreases url.len(),
{
    if url.len() > 0 && url.last() != '/' {
        let front = url.drop_last();
        lemma_last_slash(front);
        match last_slash(front) {
            Some(at) => {
                assert(front[at] == url[at]);
                assert forall|i: int| at < i < url.len() implies url[i] != '/' by {
                    if i < front.len() {
                        assert(front[i] == url[i]);
                    }
                }
            },
            None => {
                assert forall|i: int| 0 <= i < url.len() implies url[i] != '/' by {
                    if i < front.len() {
                        assert(front[i] == url[i]);
                    }
                }
            },
        }
    }
}

/// A position that holds `/` and is followed by none is the last slash.
pub proof fn lemma_last_slash_at(url: Seq<char>, at: int)
    requires
        0 <= at < url.len(),
        url[at] == '/',
        forall|i: int| at < i < url.len() ==> url[i] != '/',
    ensures
        last_slash(url) == Some(at),
{
    lemma_last_slash(url);
}

/// An address that ends in `/` and a file name has as its directory what
/// stands before that `/`.
pub proof fn lemma_directory_of_file(dir: Seq<char>, file: Seq<char>)
    requires
        forall|i: int| 0 <= i < file.len() ==> file[i] != '/',
    ensures
        directory(dir + seq!['/'] + file) == dir,
{
    let url = dir + seq!['/'] + file;
    assert forall|i: int| dir.len() < i < url.len() implies url[i] != '/' by {
        assert(url[i] == file[i - dir.len() - 1]);
    }
    lemma_last_slash_at(url, dir.len() as int);
    assert(url.subrange(0, dir.len() as int) =~= dir);
}

/// The audio address of a capture listed by a feed file in a directory is
/// the capture's path joined to that directory: put behind it as it is
/// where it begins with `/`, behind one `/` more where it does not.
pub proof fn lemma_audio_address_joins(dir: Seq<char>, file: Seq<char>, path: Seq<char>)
    requires
        forall|i: int| 0 <= i < file.len() ==> file[i] != '/',
    ensures
        audio_address(dir + seq!['/'] + file, path) == joined(dir, path),
        path.len() > 0 && path[0] == '/' ==> audio_address(dir + seq!['/'] + file, path) == dir
            + path,
        !(path.len() > 0 && path[0] == '/') ==> audio_address(dir + seq!['/'] + file, path) == dir
            + seq!['/'] + path,
{
    lemma_directory_of_file(dir, file);
}

/// No feed file name holds a `/`.
pub proof fn lemma_feed_file_is_one_segment(kind: FeedKind)
    ensures
        forall|i: int| 0 <= i < feed_file(kind).len() ==> feed_file(kind)[i] != '/',
{
    reveal_strlit("SessionInfo.json");
    reveal_strlit("SessionData.json");
    reveal_strlit("DriverList.json");
    reveal_strlit("TeamRadio.json");
}

/// The directory of a feed of a session whose path ends in `/` is the
/// session's own address without that `/`, whichever feed it is.
pub proof fn lemma_feed_directory(path: Seq<char>, kind: FeedKind)
    requires
        path.len() > 0,
        path.last() == '/',
    ensures
        directory(feed_address(path, kind)) == base_address() + path.drop_last(),
{
    lemma_feed_file_is_one_segment(kind);
    let dir = base_address() + path.drop_last();
    assert(feed_address(path, kind) =~= dir + seq!['/'] + feed_file(kind));
    lemma_directory_of_file(dir, feed_file(kind));
}

impl FeedKind {
    /// The file name of the feed.
    pub fn file_name(&self) -> (name: &'static str)
        ensures
            name@ == feed_file(*self),
    {
        match self {
            FeedKind::SessionInfo => "SessionInfo.json",
            FeedKind::SessionStatus => "SessionData.json",
            FeedKind::DriverRoster => "DriverList.json",
            FeedKind::TeamRadio => "TeamRadio.json",
        }
    }
}

/// The address from which a season's index is fetched.
pub fn index_url(year: i32) -> (url: String)
    ensures
        url@ == index_address(year as int),
{
    let mut url = String::from_str("https://livetiming.formula1.com/static/");
    push_decimal(&mut url, year as i64);
    push_text(&mut url, "/Index.json");
    url
}

/// The address from which a feed of a resolved session is fetched.
pub fn feed_url(path: &str, kind: FeedKind) -> (url: String)
    ensures
        url@ == feed_address(path@, kind),
{
    let mut url = String::from_str("https://livetiming.formula1.com/static/");
    push_text(&mut url, path);
    push_text(&mut url, kind.file_name());
    url
}

/// An address without its last segment.
pub fn url_directory(url: &str) -> (dir: String)
    ensures
        dir@ == directory(url@),
{
    let chars = chars_of(url);
    let mut i: usize = chars.len();
    while i > 0
        invariant
            i <= chars.len(),
            chars@ == url@,
            forall|j: int| i <= j < chars.len() ==> chars@[j] != '/',
        decreases i,
    {
        if chars[i - 1] == '/' {
            proof {
                lemma_last_slash_at(url@, i - 1);
            }
            return url.substring_char(0, i - 1).to_owned();
        }
        i = i - 1;
    }
    proof {
        lemma_last_slash(url@);
    }
    url.to_owned()
}

/// Joins a directory and a relative path.
pub fn join_url(dir: &str, path: &str) -> (url: String)
    ensures
        url@ == joined(dir@, path@),
{
    let mut url = String::from_str(dir);
    let rooted = path.unicode_len() > 0 && path.get_char(0) == '/';
    if !rooted {
        proof {
            reveal_strlit("/");
            assert("/"@ =~= seq!['/']);
        }
        push_text(&mut url, "/");
    }
    push_text(&mut url, path);
    url
}

/// The address of an audio capture listed by the feed at `feed_url`.
pub fn audio_url(feed_url: &str, capture_path: &str) -> (url: String)
    ensures
        url@ == audio_address(feed_url@, capture_path@),
{
    let dir = url_directory(feed_url);
    join_url(dir.as_str(), capture_path)
}

} // verus!
