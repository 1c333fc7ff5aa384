use launcher_core::error::SyncError;
use launcher_core::sync::{summary, MirrorSync, SyncFailure};

fn lines(items: &[&str]) -> Vec<String> {
    let mut out = Vec::new();
    for item in items {
        out.push(String::from(*item));
    }
    out
}

fn failure(message: &str) -> SyncError {
    SyncError { message: String::from(message) }
}

#[test]
fn summary_of_nothing_is_nothing() {
    assert_eq!(summary(&vec![]), None);
}

#[test]
fn summary_lists_each_line() {
    assert_eq!(summary(&lines(&["added wine 8.2"])), Some(String::from("- added wine 8.2")));
    assert_eq!(
        summary(&lines(&["added wine 8.2", "removed dxvk 1.9", ""])),
        Some(String::from("- added wine 8.2\n- removed dxvk 1.9\n- "))
    );
}

#[test]
fn third_mirror_succeeds_after_two_failures() {
    let sync = MirrorSync::begin(lines(&["A", "B", "C"]));
    assert_eq!(sync.pending(), Some(String::from("A")));
    let sync = sync.record(Err(failure("A is down")));
    assert_eq!(sync.pending(), Some(String::from("B")));
    assert_eq!(sync.source(), None);
    let sync = sync.record(Err(failure("B timed out")));
    assert_eq!(sync.pending(), Some(String::from("C")));
    let sync = sync.record(Ok(lines(&["added wine 8.2"])));
    assert_eq!(sync.pending(), None);
    assert_eq!(sync.source(), Some(String::from("C")));
    assert_eq!(sync.changes(), Some(lines(&["added wine 8.2"])));
    assert_eq!(
        sync.failures(),
        vec![
            SyncFailure { mirror: String::from("A"), error: failure("A is down") },
            SyncFailure { mirror: String::from("B"), error: failure("B timed out") },
        ]
    );
}

#[test]
fn first_success_ends_the_attempts() {
    let sync = MirrorSync::begin(lines(&["A", "B"]));
    let sync = sync.record(Ok(vec![]));
    assert_eq!(sync.pending(), None);
    assert_eq!(sync.source(), Some(String::from("A")));
    assert_eq!(sync.changes(), Some(vec![]));
    let sync = sync.record(Err(failure("late")));
    let sync = sync.record(Ok(lines(&["late"])));
    assert_eq!(sync.source(), Some(String::from("A")));
    assert_eq!(sync.changes(), Some(vec![]));
    assert_eq!(sync.failures(), vec![]);
}

#[test]
fn every_failure_is_kept_when_all_mirrors_fail() {
    let sync = MirrorSync::begin(lines(&["A", "B"]));
    let sync = sync.record(Err(failure("A is down")));
    let sync = sync.record(Err(failure("B is down")));
    assert_eq!(sync.pending(), None);
    assert_eq!(sync.source(), None);
    assert_eq!(sync.changes(), None);
    assert_eq!(
        sync.failures(),
        vec![
            SyncFailure { mirror: String::from("A"), error: failure("A is down") },
            SyncFailure { mirror: String::from("B"), error: failure("B is down") },
        ]
    );
    let sync = sync.record(Ok(lines(&["late"])));
    assert_eq!(sync.source(), None);
    assert_eq!(sync.failures().len(), 2);
}

#[test]
fn no_mirror_means_no_attempt() {
    let sync = MirrorSync::begin(vec![]);
    assert_eq!(sync.pending(), None);
    assert_eq!(sync.source(), None);
    let sync = sync.record(Ok(lines(&["x"])));
    assert_eq!(sync.changes(), None);
    assert_eq!(sync.failures(), vec![]);
}
