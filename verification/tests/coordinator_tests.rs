use jplag_rs::coordinator::{Coordinator, FatalError, Step, SubmissionError};
use jplag_rs::dispatch::ArchiveKind;
use jplag_rs::validate::ArchiveCandidate;

fn names(list: &[&str]) -> Vec<String> {
    list.iter().map(|s| s.to_string()).collect()
}

fn candidate(path: &str, kind: ArchiveKind) -> ArchiveCandidate {
    ArchiveCandidate { path: path.to_string(), kind }
}

#[test]
fn run_that_goes_on_collects_one_error_and_two_successes() {
    let mut c = Coordinator::new(false);
    assert_eq!(
        c.submit("tmp/ok1", true, &names(&["tmp/ok1/a.zip", "tmp/ok1/notes.txt"])),
        Step::Extract {
            junk: names(&["tmp/ok1/notes.txt"]),
            candidate: candidate("tmp/ok1/a.zip", ArchiveKind::Zip),
        }
    );
    assert_eq!(c.submit("tmp/bad", true, &names(&["tmp/bad/notes.txt"])), Step::Discard);
    assert_eq!(
        c.submit("tmp/ok2", true, &names(&["tmp/ok2/b.tar"])),
        Step::Extract { junk: Vec::new(), candidate: candidate("tmp/ok2/b.tar", ArchiveKind::Tar) }
    );
    assert_eq!(c.pending(), 2);
    assert_eq!(c.settle("tmp/ok1", "tmp/ok1/a.zip", None), Step::Proceed);
    assert_eq!(c.settle("tmp/ok2", "tmp/ok2/b.tar", None), Step::Proceed);
    assert_eq!(c.pending(), 0);
    assert_eq!(c.rejected(), 1);
    assert!(!c.halted());
    let report = c.finish().unwrap();
    assert_eq!(report.attempted, 2);
    assert_eq!(report.succeeded, 2);
    assert_eq!(report.errors, vec![SubmissionError::NoArchive { owner: "tmp/bad".to_string() }]);
}

#[test]
fn run_that_aborts_stops_at_the_first_error() {
    let mut c = Coordinator::new(true);
    assert!(matches!(c.submit("tmp/ok1", true, &names(&["tmp/ok1/a.zip"])), Step::Extract { .. }));
    assert_eq!(c.submit("tmp/bad", true, &names(&["tmp/bad/notes.txt"])), Step::DiscardAndAbort);
    assert!(c.halted());
    assert_eq!(c.submit("tmp/ok2", true, &names(&["tmp/ok2/b.tar"])), Step::Abort);
    assert_eq!(c.attempted(), 1);
    assert_eq!(c.error_count(), 1);
    assert_eq!(c.settle("tmp/ok1", "tmp/ok1/a.zip", None), Step::Abort);
    assert_eq!(c.succeeded(), 0);
    assert_eq!(
        c.finish(),
        Err(FatalError::Aborted(SubmissionError::NoArchive { owner: "tmp/bad".to_string() }))
    );
}

#[test]
fn two_archives_reject_the_submission() {
    let mut c = Coordinator::new(false);
    let step = c.submit("tmp/eve", true, &names(&["tmp/eve/a.zip", "tmp/eve/b.7z", "tmp/eve/c.gz"]));
    assert_eq!(step, Step::Discard);
    assert_eq!(c.attempted(), 0);
    assert_eq!(c.error_count(), 1);
    assert_eq!(c.finish(), Err(FatalError::NoSubmissions));
}

#[test]
fn two_archives_are_named_in_the_error() {
    let mut c = Coordinator::new(true);
    assert_eq!(
        c.submit("tmp/eve", true, &names(&["tmp/eve/a.zip", "tmp/eve/b.7z"])),
        Step::DiscardAndAbort
    );
    assert_eq!(
        c.finish(),
        Err(FatalError::Aborted(SubmissionError::MultipleArchives {
            owner: "tmp/eve".to_string(),
            first: "tmp/eve/a.zip".to_string(),
            second: "tmp/eve/b.7z".to_string(),
        }))
    );
}

#[test]
fn entry_that_is_no_directory_is_an_error() {
    let mut c = Coordinator::new(false);
    assert_eq!(c.submit("tmp/stray.zip", false, &Vec::new()), Step::Discard);
    assert!(matches!(c.submit("tmp/ok", true, &names(&["tmp/ok/a.rar"])), Step::Extract { .. }));
    assert_eq!(c.settle("tmp/ok", "tmp/ok/a.rar", None), Step::Proceed);
    let report = c.finish().unwrap();
    assert_eq!(
        report.errors,
        vec![SubmissionError::NotADirectory { path: "tmp/stray.zip".to_string() }]
    );
    assert_eq!((report.attempted, report.succeeded), (1, 1));
}

#[test]
fn failed_extraction_discards_the_submission_and_goes_on() {
    let mut c = Coordinator::new(false);
    assert!(matches!(c.submit("tmp/a", true, &names(&["tmp/a/a.zip"])), Step::Extract { .. }));
    assert!(matches!(c.submit("tmp/b", true, &names(&["tmp/b/b.zip"])), Step::Extract { .. }));
    assert_eq!(c.settle("tmp/a", "tmp/a/a.zip", Some("bad header".to_string())), Step::Discard);
    assert_eq!(c.settle("tmp/b", "tmp/b/b.zip", None), Step::Proceed);
    let report = c.finish().unwrap();
    assert_eq!((report.attempted, report.succeeded), (2, 1));
    assert_eq!(
        report.errors,
        vec![SubmissionError::ExtractionFailed {
            owner: "tmp/a".to_string(),
            archive: "tmp/a/a.zip".to_string(),
            cause: "bad header".to_string(),
        }]
    );
}

#[test]
fn failed_extraction_halts_a_run_that_aborts() {
    let mut c = Coordinator::new(true);
    assert!(matches!(c.submit("tmp/a", true, &names(&["tmp/a/a.zip"])), Step::Extract { .. }));
    assert!(matches!(c.submit("tmp/b", true, &names(&["tmp/b/b.zip"])), Step::Extract { .. }));
    assert_eq!(c.settle("tmp/a", "tmp/a/a.zip", Some("bad header".to_string())), Step::Abort);
    assert_eq!(c.settle("tmp/b", "tmp/b/b.zip", None), Step::Abort);
    assert_eq!(
        c.finish(),
        Err(FatalError::Aborted(SubmissionError::ExtractionFailed {
            owner: "tmp/a".to_string(),
            archive: "tmp/a/a.zip".to_string(),
            cause: "bad header".to_string(),
        }))
    );
}

#[test]
fn run_without_any_success_is_fatal() {
    let mut c = Coordinator::new(false);
    assert!(matches!(c.submit("tmp/a", true, &names(&["tmp/a/a.zip"])), Step::Extract { .. }));
    assert_eq!(c.settle("tmp/a", "tmp/a/a.zip", Some("corrupt".to_string())), Step::Discard);
    assert_eq!(c.finish(), Err(FatalError::NoSuccess));
}

#[test]
fn run_without_any_entry_is_fatal() {
    assert_eq!(Coordinator::new(false).finish(), Err(FatalError::NoSubmissions));
    assert_eq!(Coordinator::new(true).finish(), Err(FatalError::NoSubmissions));
}

#[test]
fn report_without_outstanding_extraction_is_ignored() {
    let mut c = Coordinator::new(false);
    assert_eq!(c.settle("tmp/a", "tmp/a/a.zip", None), Step::Proceed);
    assert_eq!(c.settle("tmp/a", "tmp/a/a.zip", Some("late".to_string())), Step::Proceed);
    assert_eq!(c.succeeded(), 0);
    assert_eq!(c.error_count(), 0);
}
