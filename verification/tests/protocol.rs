//! The protocol, one reported event at a time.

use dotlock::acquire::is_stale;
use dotlock::acquire::judge;
use dotlock::Acquisition;
use dotlock::Action;
use dotlock::Dotlock;
use dotlock::DotlockOptions;
use dotlock::Event;
use dotlock::FileIdentity;
use dotlock::LockError;
use dotlock::Progress;
use dotlock::Span;
use dotlock::Verdict;
use std::io::Error;
use std::io::ErrorKind;
use std::path::PathBuf;

const MINE: FileIdentity = FileIdentity { dev: 1, ino: 100 };
const THEIRS: FileIdentity = FileIdentity { dev: 1, ino: 200 };

fn noon() -> Span {
    Span::from_secs(43_200)
}

fn pending(progress: Progress) -> Acquisition {
    match progress {
        Progress::Pending(acquisition) => acquisition,
        other => panic!("the acquisition ended: {:?}", other),
    }
}

fn acquired(progress: Progress) -> Dotlock {
    match progress {
        Progress::Acquired(lock) => lock,
        other => panic!("the lock was not taken: {:?}", other),
    }
}

fn failed(progress: Progress) -> LockError {
    match progress {
        Progress::Failed(error) => error,
        other => panic!("the acquisition did not fail: {:?}", other),
    }
}

/// Goes through one attempt up to the look at the path.
fn up_to_the_look(acquisition: Acquisition, temp: FileIdentity, linked: bool) -> Acquisition {
    assert_eq!(acquisition.action(), Action::CreateTemp);
    let acquisition = pending(acquisition.step(Event::TempCreated(temp)));
    assert_eq!(acquisition.action(), Action::Link);
    let acquisition = pending(acquisition.step(Event::LinkAttempted(linked)));
    assert_eq!(acquisition.action(), Action::DiscardTemp);
    let acquisition = pending(acquisition.step(Event::TempDiscarded));
    assert_eq!(acquisition.action(), Action::Examine);
    acquisition
}

fn found(id: FileIdentity, age: Option<Span>) -> Event {
    Event::Found {
        id,
        modified: age.map(|age| Span { nanos: noon().nanos - age.nanos }),
        now: noon(),
    }
}

#[test]
fn span_from_secs_counts_nanoseconds() {
    assert_eq!(Span::from_secs(0), Span { nanos: 0 });
    assert_eq!(Span::from_secs(5).nanos, 5_000_000_000);
    assert_eq!(Span::from_secs(u64::MAX).nanos, 18_446_744_073_709_551_615_000_000_000);
}

#[test]
fn span_from_millis_counts_nanoseconds() {
    assert_eq!(Span::from_millis(1).nanos, 1_000_000);
    assert_eq!(Span::from_millis(1100).nanos, 1_100_000_000);
    assert_eq!(Span::from_millis(u64::MAX).nanos, 18_446_744_073_709_551_615_000_000);
}

#[test]
fn same_file_compares_device_and_number() {
    assert!(MINE.same_file(&FileIdentity { dev: 1, ino: 100 }));
    assert!(!MINE.same_file(&FileIdentity { dev: 2, ino: 100 }));
    assert!(!MINE.same_file(&FileIdentity { dev: 1, ino: 101 }));
    assert!(!MINE.same_file(&THEIRS));
}

#[test]
fn nothing_is_stale_without_a_stale_age() {
    assert!(!is_stale(None, Some(Span::from_secs(0)), noon()));
    assert!(!is_stale(None, None, noon()));
}

#[test]
fn stale_is_older_than_the_stale_age() {
    let limit = Some(Span::from_secs(1));
    let modified = Some(Span::from_secs(43_199));
    assert!(!is_stale(limit, modified, Span::from_secs(43_199)));
    assert!(!is_stale(limit, modified, Span::from_millis(43_199_500)));
    assert!(!is_stale(limit, modified, Span::from_secs(43_200)));
    assert!(is_stale(limit, modified, Span { nanos: 43_200_000_000_001 }));
    assert!(is_stale(limit, modified, Span::from_millis(43_200_100)));
}

#[test]
fn file_from_the_future_is_not_stale() {
    let limit = Some(Span::from_secs(1));
    assert!(!is_stale(limit, Some(Span::from_secs(50_000)), noon()));
    assert!(!is_stale(limit, Some(Span { nanos: u128::MAX }), noon()));
}

#[test]
fn file_of_unknown_age_is_not_stale() {
    assert!(!is_stale(Some(Span::from_secs(1)), None, noon()));
    assert!(!is_stale(Some(Span { nanos: 1 }), None, Span { nanos: u128::MAX }));
}

#[test]
fn everything_is_stale_at_a_stale_age_of_zero() {
    let limit = Some(Span { nanos: 0 });
    assert!(is_stale(limit, Some(noon()), noon()));
    assert!(is_stale(limit, Some(Span::from_secs(50_000)), noon()));
    assert!(is_stale(limit, None, noon()));
}

#[test]
fn huge_stale_age_does_not_overflow() {
    let limit = Some(Span { nanos: u128::MAX });
    assert!(!is_stale(limit, Some(Span { nanos: 1 }), Span { nanos: u128::MAX }));
    assert!(!is_stale(limit, Some(Span { nanos: 0 }), Span { nanos: u128::MAX }));
}

#[test]
fn judge_puts_identity_before_age() {
    let limit = Some(Span::from_secs(1));
    let old = Some(Span::from_secs(1));
    let young = Some(noon());
    assert_eq!(judge(MINE, limit, MINE, old, noon()), Verdict::Won);
    assert_eq!(judge(MINE, limit, MINE, young, noon()), Verdict::Won);
    assert_eq!(judge(MINE, limit, THEIRS, old, noon()), Verdict::Stale);
    assert_eq!(judge(MINE, limit, THEIRS, young, noon()), Verdict::Lost);
    assert_eq!(judge(MINE, None, THEIRS, old, noon()), Verdict::Lost);
    assert_eq!(judge(MINE, None, MINE, None, noon()), Verdict::Won);
}

#[test]
fn first_action_is_the_temporary_file() {
    let acquisition = Dotlock::create(PathBuf::from("database.lock"));
    assert_eq!(acquisition.action(), Action::CreateTemp);
    assert_eq!(acquisition.path(), &PathBuf::from("database.lock"));
    let acquisition = DotlockOptions::new().tries(3).create(PathBuf::from("/var/lock/x.lock"));
    assert_eq!(acquisition.action(), Action::CreateTemp);
    assert_eq!(acquisition.path(), &PathBuf::from("/var/lock/x.lock"));
}

#[test]
fn own_file_at_the_path_takes_the_lock() {
    let acquisition = Dotlock::create(PathBuf::from("x.lock"));
    let acquisition = up_to_the_look(acquisition, MINE, true);
    let mut lock = acquired(acquisition.step(found(MINE, Some(Span::from_secs(0)))));
    assert!(lock.is_locked());
    assert_eq!(lock.identity(), MINE);
    assert_eq!(lock.unlock(), Some(PathBuf::from("x.lock")));
}

#[test]
fn what_the_link_call_reports_decides_nothing() {
    // The call reported failure, yet the path holds the temporary file.
    let acquisition = up_to_the_look(Dotlock::create(PathBuf::from("x.lock")), MINE, false);
    let lock = acquired(acquisition.step(found(MINE, None)));
    assert_eq!(lock.identity(), MINE);
    // The call reported success, yet the path holds another file.
    let acquisition = DotlockOptions::new().tries(1).create(PathBuf::from("x.lock"));
    let acquisition = up_to_the_look(acquisition, MINE, true);
    assert!(failed(acquisition.step(found(THEIRS, None))).is_timed_out());
}

#[test]
fn another_file_at_the_path_uses_up_the_attempt() {
    let acquisition = DotlockOptions::new().tries(2).create(PathBuf::from("x.lock"));
    let acquisition = up_to_the_look(acquisition, MINE, false);
    let acquisition = pending(acquisition.step(found(THEIRS, Some(Span::from_secs(9)))));
    assert_eq!(acquisition.action(), Action::Sleep(Span::from_secs(5)));
    let acquisition = pending(acquisition.step(Event::Slept));
    let acquisition = up_to_the_look(acquisition, FileIdentity { dev: 1, ino: 101 }, false);
    let error = failed(acquisition.step(found(THEIRS, Some(Span::from_secs(14)))));
    assert!(error.is_timed_out());
    assert!(matches!(error, LockError::TimedOut));
}

#[test]
fn path_that_cannot_be_examined_uses_up_the_attempt() {
    let acquisition = DotlockOptions::new()
        .tries(2)
        .pause(Span::from_millis(20))
        .stale_age(Span { nanos: 0 })
        .create(PathBuf::from("x.lock"));
    let acquisition = up_to_the_look(acquisition, MINE, true);
    let acquisition = pending(acquisition.step(Event::NotFound));
    assert_eq!(acquisition.action(), Action::Sleep(Span { nanos: 20_000_000 }));
    let acquisition = pending(acquisition.step(Event::Slept));
    let acquisition = up_to_the_look(acquisition, MINE, true);
    assert!(failed(acquisition.step(Event::NotFound)).is_timed_out());
}

#[test]
fn fewer_than_one_try_counts_as_one() {
    let acquisition = DotlockOptions::new().tries(0).create(PathBuf::from("x.lock"));
    let acquisition = up_to_the_look(acquisition, MINE, false);
    assert!(failed(acquisition.step(found(THEIRS, None))).is_timed_out());
    let acquisition = DotlockOptions::new().tries(0).create(PathBuf::from("x.lock"));
    let acquisition = up_to_the_look(acquisition, MINE, false);
    assert_eq!(acquired(acquisition.step(found(MINE, None))).identity(), MINE);
}

#[test]
fn three_tries_are_three_attempts_and_two_pauses() {
    let mut acquisition = DotlockOptions::new()
        .tries(3)
        .pause(Span::from_secs(2))
        .create(PathBuf::from("x.lock"));
    let mut pauses = 0;
    let mut attempts = 0;
    let error = loop {
        attempts += 1;
        acquisition = up_to_the_look(acquisition, FileIdentity { dev: 1, ino: attempts }, false);
        match acquisition.step(found(THEIRS, Some(Span::from_secs(1)))) {
            Progress::Pending(next) => {
                assert_eq!(next.action(), Action::Sleep(Span::from_secs(2)));
                pauses += 1;
                acquisition = pending(next.step(Event::Slept));
            }
            Progress::Failed(error) => break error,
            Progress::Acquired(_) => panic!("the lock is held by another"),
        }
    };
    assert!(error.is_timed_out());
    assert_eq!(attempts, 3);
    assert_eq!(pauses, 2);
}

#[test]
fn temporary_file_that_cannot_be_created_ends_the_acquisition() {
    let acquisition = DotlockOptions::new().tries(10).create(PathBuf::from("/nowhere/x.lock"));
    let error = failed(acquisition.step(Event::TempFailed(Error::from(ErrorKind::NotFound))));
    assert!(!error.is_timed_out());
    match error {
        LockError::Io(error) => assert_eq!(error.kind(), ErrorKind::NotFound),
        LockError::TimedOut => panic!("nothing was tried"),
    }
}

#[test]
fn permissions_are_set_after_the_lock_is_won() {
    let acquisition = DotlockOptions::new().permissions(0o640).create(PathBuf::from("x.lock"));
    let acquisition = up_to_the_look(acquisition, MINE, true);
    let acquisition = pending(acquisition.step(found(MINE, None)));
    assert_eq!(acquisition.action(), Action::SetPermissions(0o640));
    let lock = acquired(acquisition.step(Event::PermissionsSet));
    assert!(lock.is_locked());
    assert_eq!(lock.identity(), MINE);
}

#[test]
fn permissions_are_not_set_on_a_lock_that_is_lost() {
    let acquisition = DotlockOptions::new()
        .permissions(0o640)
        .tries(2)
        .create(PathBuf::from("x.lock"));
    let acquisition = up_to_the_look(acquisition, MINE, true);
    let acquisition = pending(acquisition.step(found(THEIRS, None)));
    assert_eq!(acquisition.action(), Action::Sleep(Span::from_secs(5)));
}

#[test]
fn permissions_that_cannot_be_set_end_the_acquisition() {
    let acquisition = DotlockOptions::new()
        .permissions(0o640)
        .tries(5)
        .create(PathBuf::from("x.lock"));
    let acquisition = up_to_the_look(acquisition, MINE, true);
    let acquisition = pending(acquisition.step(found(MINE, None)));
    let denied = Event::PermissionsFailed(Error::from(ErrorKind::PermissionDenied));
    match failed(acquisition.step(denied)) {
        LockError::Io(error) => assert_eq!(error.kind(), ErrorKind::PermissionDenied),
        LockError::TimedOut => panic!("the lock was won"),
    }
}

#[test]
fn stale_lock_is_removed_without_pause_or_count() {
    let acquisition = DotlockOptions::new()
        .tries(1)
        .stale_age(Span::from_secs(1))
        .create(PathBuf::from("y.lock"));
    let acquisition = up_to_the_look(acquisition, MINE, false);
    let acquisition = pending(acquisition.step(found(THEIRS, Some(Span::from_millis(1100)))));
    assert_eq!(acquisition.action(), Action::RemoveStale);
    let acquisition = pending(acquisition.step(Event::RemoveAttempted(true)));
    let next = FileIdentity { dev: 1, ino: 101 };
    let acquisition = up_to_the_look(acquisition, next, true);
    assert_eq!(acquired(acquisition.step(found(next, Some(Span { nanos: 0 })))).identity(), next);
}

#[test]
fn removal_that_reports_failure_is_followed_by_the_next_attempt() {
    let acquisition = DotlockOptions::new()
        .tries(1)
        .stale_age(Span::from_secs(1))
        .create(PathBuf::from("y.lock"));
    let acquisition = up_to_the_look(acquisition, MINE, false);
    let acquisition = pending(acquisition.step(found(THEIRS, Some(Span::from_secs(2)))));
    let acquisition = pending(acquisition.step(Event::RemoveAttempted(false)));
    assert_eq!(acquisition.action(), Action::CreateTemp);
    // The one try is still to be had: a young lock file now ends it.
    let acquisition = up_to_the_look(acquisition, MINE, false);
    assert!(failed(acquisition.step(found(THEIRS, Some(Span::from_millis(10))))).is_timed_out());
}

#[test]
fn young_lock_is_not_removed() {
    let acquisition = DotlockOptions::new()
        .tries(2)
        .stale_age(Span::from_secs(1))
        .create(PathBuf::from("y.lock"));
    let acquisition = up_to_the_look(acquisition, MINE, false);
    let acquisition = pending(acquisition.step(found(THEIRS, Some(Span::from_millis(999)))));
    assert_eq!(acquisition.action(), Action::Sleep(Span::from_secs(5)));
}

#[test]
fn own_file_is_never_stale() {
    let acquisition = DotlockOptions::new()
        .stale_age(Span { nanos: 0 })
        .create(PathBuf::from("y.lock"));
    let acquisition = up_to_the_look(acquisition, MINE, false);
    assert!(acquired(acquisition.step(found(MINE, Some(Span::from_secs(3600))))).is_locked());
}

#[test]
fn event_that_does_not_answer_the_action_changes_nothing() {
    let acquisition = DotlockOptions::new().tries(1).create(PathBuf::from("x.lock"));
    let acquisition = pending(acquisition.step(Event::Slept));
    assert_eq!(acquisition.action(), Action::CreateTemp);
    let acquisition = pending(acquisition.step(found(MINE, None)));
    assert_eq!(acquisition.action(), Action::CreateTemp);
    let acquisition = pending(acquisition.step(Event::TempCreated(MINE)));
    let acquisition = pending(acquisition.step(Event::TempCreated(THEIRS)));
    let acquisition = pending(acquisition.step(Event::NotFound));
    assert_eq!(acquisition.action(), Action::Link);
    let acquisition = pending(acquisition.step(Event::LinkAttempted(true)));
    let acquisition = pending(acquisition.step(Event::PermissionsSet));
    assert_eq!(acquisition.action(), Action::DiscardTemp);
    let acquisition = pending(acquisition.step(Event::TempDiscarded));
    let acquisition = pending(acquisition.step(Event::RemoveAttempted(true)));
    assert_eq!(acquisition.action(), Action::Examine);
    // The temporary file is still the first one.
    assert_eq!(acquired(acquisition.step(found(MINE, None))).identity(), MINE);
}

#[test]
fn unlock_hands_out_the_path_once() {
    let acquisition = up_to_the_look(Dotlock::create(PathBuf::from("dir/x.lock")), MINE, true);
    let mut lock = acquired(acquisition.step(found(MINE, None)));
    assert!(lock.is_locked());
    assert_eq!(lock.unlock(), Some(PathBuf::from("dir/x.lock")));
    assert!(!lock.is_locked());
    assert_eq!(lock.unlock(), None);
    assert_eq!(lock.unlock(), None);
    assert!(!lock.is_locked());
    assert_eq!(lock.identity(), MINE);
}
