use sqlx_core::error::Error;
use sqlx_core::establish::{
    database_filename, resolve_filename, step, ConnAction, ConnEvent, ConnState, OPEN_FLAGS,
};
use sqlx_core::sqlite::SqliteError;

#[test]
fn filename_strips_scheme_and_slashes() {
    assert_eq!(database_filename("sqlite://data.db"), "data.db");
    assert_eq!(database_filename("sqlite::memory:"), ":memory:");
    assert_eq!(database_filename("sqlite:sqlite:////x"), "x");
    assert_eq!(database_filename("file.db"), "file.db");
}

#[test]
fn url_is_resolved() {
    assert_eq!(resolve_filename("sqlite://data.db").unwrap(), "data.db");
    assert_eq!(resolve_filename("sqlite::memory:").unwrap(), ":memory:");
}

#[test]
fn url_scheme_is_normalized_before_stripping() {
    assert_eq!(resolve_filename("SQLITE::memory:").unwrap(), ":memory:");
    assert_eq!(database_filename("SQLITE::memory:"), "SQLITE::memory:");
}

#[test]
fn bad_url_fails_before_opening() {
    assert!(matches!(resolve_filename("not a url"), Err(Error::UrlParse(_))));
}

#[test]
fn open_flags() {
    assert_eq!(OPEN_FLAGS, 0x2 | 0x4 | 0x8000 | 0x20000);
}

#[test]
fn successful_setup() {
    let (s, a) = step(ConnState::Unopened, ConnEvent::Start);
    assert_eq!((s, a), (ConnState::Opening, ConnAction::Open { flags: OPEN_FLAGS }));
    let (s, a) = step(s, ConnEvent::Opened { status: 0 });
    assert_eq!((s, a), (ConnState::Configuring, ConnAction::Configure));
    let (s, a) = step(s, ConnEvent::Configured);
    assert_eq!((s, a), (ConnState::Ready, ConnAction::Deliver));
    let (s, a) = step(s, ConnEvent::Close);
    assert_eq!((s, a), (ConnState::Closed, ConnAction::Release));
    let (s, a) = step(s, ConnEvent::Close);
    assert_eq!((s, a), (ConnState::Closed, ConnAction::Ignore));
}

#[test]
fn failed_open_releases_handle() {
    let (s, a) = step(ConnState::Opening, ConnEvent::Opened { status: 14 });
    assert_eq!(s, ConnState::Failed);
    assert_eq!(a, ConnAction::ReleaseAndFail(SqliteError::Engine { code: 14 }));
}

#[test]
fn failed_setup_releases_handle() {
    let err = SqliteError::Engine { code: 5 };
    let (s, a) = step(ConnState::Configuring, ConnEvent::ConfigureFailed { error: err });
    assert_eq!((s, a), (ConnState::Failed, ConnAction::ReleaseAndFail(err)));
}

#[test]
fn events_out_of_order_are_ignored() {
    assert_eq!(
        step(ConnState::Unopened, ConnEvent::Opened { status: 0 }),
        (ConnState::Unopened, ConnAction::Ignore)
    );
    assert_eq!(step(ConnState::Failed, ConnEvent::Close), (ConnState::Failed, ConnAction::Ignore));
}
