//! The decisions taken while a connection to the embedded engine is set up
//! and torn down. Whoever drives the connection performs each action that
//! `step` returns on the engine and reports what came of it as the next event.
use vstd::prelude::*;

use crate::error::Error;
use crate::sqlite::SqliteError;

verus! {

/// The engine's success status.
pub const SQLITE_OK: i32 = 0;

/// Open for reading and writing.
pub const SQLITE_OPEN_READWRITE: i32 = 0x2;

/// Create the database file when it is missing.
pub const SQLITE_OPEN_CREATE: i32 = 0x4;

/// No internal locking: the connection is used from one thread at a time.
pub const SQLITE_OPEN_NOMUTEX: i32 = 0x8000;

/// Share the page cache between connections to one database.
pub const SQLITE_OPEN_SHAREDCACHE: i32 = 0x20000;

/// The flags that every connection is opened with.
pub const OPEN_FLAGS: i32 = SQLITE_OPEN_READWRITE | SQLITE_OPEN_CREATE | SQLITE_OPEN_NOMUTEX
    | SQLITE_OPEN_SHAREDCACHE;

/// The statements run on a freshly opened connection: write-ahead logging
/// and relaxed durability.
pub const SETUP_PRAGMAS: &'static str = "PRAGMA journal_mode = WAL;\nPRAGMA synchronous = NORMAL;";

/// What the URL parser gives for a text: the serialization of the URL, or
/// nothing when the text is no URL.
pub uninterp spec fn url_serialization(s: Seq<char>) -> Option<Seq<char>>;

/// Relies on url::Url::parse, and on the conversion of a `Url` into its
/// serialization: the outcome depends on the text alone.
#[verifier::external_body]
fn parse_url(s: &str) -> (r: Result<String, url::ParseError>)
    ensures
        r is Ok <==> url_serialization(s@) is Some,
        r matches Ok(t) ==> url_serialization(s@) == Some(t@),
{
    url::Url::parse(s).map(String::from)
}

/// `s` with every leading repetition of the non-empty `p` removed.
pub open spec fn strip_prefixes(s: Seq<char>, p: Seq<char>) -> Seq<char>
    decreases s.len(),
{
    if 0 < p.len() <= s.len() && s.subrange(0, p.len() as int) == p {
        strip_prefixes(s.subrange(p.len() as int, s.len() as int), p)
    } else {
        s
    }
}

/// Relies on str::trim_start_matches with a string pattern: it removes every
/// prefix that matches the pattern, repeatedly.
#[verifier::external_body]
fn trim_start_matches<'a>(s: &'a str, p: &str) -> (r: &'a str)
    requires
        p@.len() > 0,
    ensures
        r@ == strip_prefixes(s@, p@),
{
    s.trim_start_matches(p)
}

/// The file name that a URL's serialization designates: the text after the
/// scheme `sqlite:` and the authority marker `//`.
pub open spec fn filename_of(url: Seq<char>) -> Seq<char> {
    strip_prefixes(strip_prefixes(url, "sqlite:"@), "//"@)
}

/// The file name designated by a URL's serialization.
pub fn database_filename(serialized: &str) -> (r: String)
    ensures
        r@ == filename_of(serialized@),
{
    proof {
        reveal_strlit("sqlite:");
        reveal_strlit("//");
    }
    let rest = trim_start_matches(serialized, "sqlite:");
    trim_start_matches(rest, "//").to_owned()
}

/// Parses a connection URL and gives the file name to open; a URL that does
/// not parse is reported before any engine call.
pub fn resolve_filename(url: &str) -> (r: Result<String, Error>)
    ensures
        match url_serialization(url@) {
            None => r matches Err(Error::UrlParse(_)),
            Some(t) => r matches Ok(f) && f@ == filename_of(t),
        },
{
    match parse_url(url) {
        Ok(t) => Ok(database_filename(t.as_str())),
        Err(e) => Err(Error::UrlParse(e)),
    }
}

/// Where a connection stands.
#[derive(Debug, Clone, Copy, PartialEq, Eq, Structural)]
pub enum ConnState {
    /// Nothing asked of the engine yet.
    Unopened,
    /// The engine is opening the database.
    Opening,
    /// The handle is open; the setup statements are running.
    Configuring,
    /// Handed to the caller.
    Ready,
    /// Torn down after use.
    Closed,
    /// Setting up failed; nothing is left open.
    Failed,
}

/// What the engine reported back.
#[derive(Debug, Clone, Copy, PartialEq, Eq, Structural)]
pub enum ConnEvent {
    /// The caller asks for the connection.
    Start,
    /// Opening finished with this engine status; a handle came back with it.
    Opened { status: i32 },
    /// The setup statements ran.
    Configured,
    /// A setup statement failed.
    ConfigureFailed { error: SqliteError },
    /// The caller is done with the connection.
    Close,
}

/// What to do next.
#[derive(Debug, Clone, Copy, PartialEq, Eq, Structural)]
pub enum ConnAction {
    /// Open the database with these flags.
    Open { flags: i32 },
    /// Turn on extended result codes, then run the setup statements.
    Configure,
    /// Hand the connection to the caller.
    Deliver,
    /// Release the prepared statements, then close the handle.
    Release,
    /// Close the handle, then report the error.
    ReleaseAndFail(SqliteError),
    /// The event does not apply in this state; nothing to do.
    Ignore,
}

/// The engine handle is held in these states.
pub open spec fn holds_handle(s: ConnState) -> bool {
    s is Configuring || s is Ready
}

/// Whether the action closes the handle.
pub open spec fn releases(a: ConnAction) -> bool {
    a is Release || a is ReleaseAndFail
}

/// The next state and the action for each state and event.
pub open spec fn transition(s: ConnState, e: ConnEvent) -> (ConnState, ConnAction) {
    match (s, e) {
        (ConnState::Unopened, ConnEvent::Start) => (
            ConnState::Opening,
            ConnAction::Open { flags: OPEN_FLAGS },
        ),
        (ConnState::Opening, ConnEvent::Opened { status }) => if status == SQLITE_OK {
            (ConnState::Configuring, ConnAction::Configure)
        } else {
            (ConnState::Failed, ConnAction::ReleaseAndFail(SqliteError::Engine { code: status }))
        },
        (ConnState::Configuring, ConnEvent::Configured) => (ConnState::Ready, ConnAction::Deliver),
        (ConnState::Configuring, ConnEvent::ConfigureFailed { error }) => (
            ConnState::Failed,
            ConnAction::ReleaseAndFail(error),
        ),
        (ConnState::Configuring, ConnEvent::Close) => (ConnState::Closed, ConnAction::Release),
        (ConnState::Ready, ConnEvent::Close) => (ConnState::Closed, ConnAction::Release),
        _ => (s, ConnAction::Ignore),
    }
}

/// Decides what follows an event.
pub fn step(s: ConnState, e: ConnEvent) -> (r: (ConnState, ConnAction))
    ensures
        r == transition(s, e),
{
    match (s, e) {
        (ConnState::Unopened, ConnEvent::Start) => (
            ConnState::Opening,
            ConnAction::Open { flags: OPEN_FLAGS },
        ),
        (ConnState::Opening, ConnEvent::Opened { status }) => if status == SQLITE_OK {
            (ConnState::Configuring, ConnAction::Configure)
        } else {
            (ConnState::Failed, ConnAction::ReleaseAndFail(SqliteError::Engine { code: status }))
        },
        (ConnState::Configuring, ConnEvent::Configured) => (ConnState::Ready, ConnAction::Deliver),
        (ConnState::Configuring, ConnEvent::ConfigureFailed { error }) => (
            ConnState::Failed,
            ConnAction::ReleaseAndFail(error),
        ),
        (ConnState::Configuring, ConnEvent::Close) => (ConnState::Closed, ConnAction::Release),
        (ConnState::Ready, ConnEvent::Close) => (ConnState::Closed, ConnAction::Release),
        _ => (s, ConnAction::Ignore),
    }
}

/// No handle is ever left open or closed twice: a step closes the handle
/// exactly when one was held, or just came back from opening, and the next
/// state holds none. A failed open reports the engine's status.
pub proof fn lemma_handle_released_once(s: ConnState, e: ConnEvent)
    ensures
        ({
            let (next, action) = transition(s, e);
            let had = holds_handle(s) || (s is Opening && e is Opened);
            &&& releases(action) == (had && !holds_handle(next))
            &&& !had ==> !holds_handle(next)
        }),
        s is Opening ==> match e {
            ConnEvent::Opened { status } => status != SQLITE_OK ==> transition(s, e) == (
                ConnState::Failed,
                ConnAction::ReleaseAndFail(SqliteError::Engine { code: status }),
            ),
            _ => true,
        },
{
}

} // verus!
