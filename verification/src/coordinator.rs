use crate::text::{chars_of, string_of, texts};
use crate::dispatch::ArchiveKind;
use crate::validate::{
    archives_in, junk_in, validate, verdict_holds, ArchiveCandidate, RejectReason,
};
use vstd::prelude::*;

verus! {

/// An error that costs one submission and, unless the run aborts on errors,
/// lets the others go on.
#[derive(Clone, Debug, PartialEq, Eq)]
pub enum SubmissionError {
    /// An entry of the temp root that is no directory.
    NotADirectory { path: String },
    /// A submission directory without any archive.
    NoArchive { owner: String },
    /// A submission directory with more than one archive.
    MultipleArchives { owner: String, first: String, second: String },
    /// An archive that could not be unpacked.
    ExtractionFailed { owner: String, archive: String, cause: String },
}

/// A `SubmissionError` with texts in place of strings.
pub enum SubmissionErrorView {
    NotADirectory { path: Seq<char> },
    NoArchive { owner: Seq<char> },
    MultipleArchives { owner: Seq<char>, first: Seq<char>, second: Seq<char> },
    ExtractionFailed { owner: Seq<char>, archive: Seq<char>, cause: Seq<char> },
}

impl View for SubmissionError {
    type V = SubmissionErrorView;

    open spec fn view(&self) -> SubmissionErrorView {
        match *self {
            SubmissionError::NotADirectory { path } => SubmissionErrorView::NotADirectory {
                path: path@,
            },
            SubmissionError::NoArchive { owner } => SubmissionErrorView::NoArchive {
                owner: owner@,
            },
            SubmissionError::MultipleArchives {
                owner,
                first,
                second,
            } => SubmissionErrorView::MultipleArchives {
                owner: owner@,
                first: first@,
                second: second@,
            },
            SubmissionError::ExtractionFailed {
                owner,
                archive,
                cause,
            } => SubmissionErrorView::ExtractionFailed {
                owner: owner@,
                archive: archive@,
                cause: cause@,
            },
        }
    }
}

/// The views of a sequence of errors.
pub open spec fn error_views(errors: Seq<SubmissionError>) -> Seq<SubmissionErrorView> {
    Seq::new(errors.len(), |i: int| errors[i]@)
}

/// What a finished run hands back: the errors that were survived, how many
/// extractions were attempted and how many of them succeeded.
#[derive(Debug, PartialEq, Eq)]
pub struct PreparationReport {
    pub errors: Vec<SubmissionError>,
    pub attempted: usize,
    pub succeeded: usize,
}

/// An error that ends the whole run.
#[derive(Debug, PartialEq, Eq)]
pub enum FatalError {
    /// The run aborts on errors, and this one came first.
    Aborted(SubmissionError),
    /// No submission was accepted for extraction.
    NoSubmissions,
    /// Extractions were attempted and none succeeded.
    NoSuccess,
}

/// What the caller does after handing the coordinator an event.
#[derive(Debug, PartialEq, Eq)]
pub enum Step {
    /// Delete the junk files, then unpack the candidate in a worker.
    Extract { junk: Vec<String>, candidate: ArchiveCandidate },
    /// Remove the entry from the temp root and go on.
    Discard,
    /// Remove the entry from the temp root and stop: start no more workers.
    DiscardAndAbort,
    /// Leave everything in place and stop: start no more workers.
    Abort,
    /// Nothing to do; go on.
    Proceed,
}

/// The state of a run as contracts see it.
pub struct Progress {
    pub abort_on_error: bool,
    pub errors: Seq<SubmissionErrorView>,
    pub rejected: nat,
    pub attempted: nat,
    pub settled: nat,
    pub succeeded: nat,
    pub halted: bool,
}

impl Progress {
    /// What holds of every state that a run can reach: of the attempted
    /// extractions some are settled and of those some succeeded, there is
    /// one error for every rejected entry and for every failed extraction
    /// and no other, and a run that aborts on errors is halted exactly
    /// when it holds an error, which is then its only one.
    pub open spec fn consistent(self) -> bool {
        &&& self.succeeded <= self.settled <= self.attempted
        &&& self.errors.len() == self.rejected + (self.settled - self.succeeded)
        &&& self.halted ==> self.abort_on_error
        &&& self.abort_on_error ==> (self.halted <==> self.errors.len() == 1)
        &&& self.abort_on_error ==> self.errors.len() <= 1
    }

    /// The state after the error `e`: it is recorded, and halts a run that
    /// aborts on errors.
    pub open spec fn with_error(self, e: SubmissionErrorView) -> Progress {
        Progress { errors: self.errors.push(e), halted: self.abort_on_error, ..self }
    }

    /// The state after an entry was rejected with the error `e`.
    pub open spec fn with_rejection(self, e: SubmissionErrorView) -> Progress {
        Progress { rejected: self.rejected + 1, ..self }.with_error(e)
    }

    /// The state after the entry `owner` of the temp root was looked at: a
    /// directory that holds the regular files `files`, or something else.
    pub open spec fn submitted(self, owner: Seq<char>, is_dir: bool, files: Seq<Seq<char>>) -> Progress {
        let found = archives_in(files);
        if self.halted {
            self
        } else if !is_dir {
            self.with_rejection(SubmissionErrorView::NotADirectory { path: owner })
        } else if found.len() == 0 {
            self.with_rejection(SubmissionErrorView::NoArchive { owner })
        } else if found.len() == 1 {
            Progress { attempted: self.attempted + 1, ..self }
        } else {
            self.with_rejection(
                SubmissionErrorView::MultipleArchives { owner, first: found[0], second: found[1] },
            )
        }
    }

    /// The state after a worker reported how unpacking `archive` for
    /// `owner` went: `None` for success, else the cause of the failure.
    pub open spec fn settled_with(
        self,
        owner: Seq<char>,
        archive: Seq<char>,
        failure: Option<Seq<char>>,
    ) -> Progress {
        if self.halted || self.settled >= self.attempted {
            self
        } else {
            match failure {
                None => Progress {
                    settled: self.settled + 1,
                    succeeded: self.succeeded + 1,
                    ..self
                },
                Some(cause) => Progress { settled: self.settled + 1, ..self }.with_error(
                    SubmissionErrorView::ExtractionFailed { owner, archive, cause },
                ),
            }
        }
    }
}

/// Collects the outcomes of one run over the entries of the temp root. The
/// caller walks the entries, starts and joins the workers and touches the
/// disk; the coordinator decides what each outcome means for the run.
pub struct Coordinator {
    abort_on_error: bool,
    errors: Vec<SubmissionError>,
    rejected: usize,
    attempted: usize,
    settled: usize,
    succeeded: usize,
    halted: bool,
}

impl View for Coordinator {
    type V = Progress;

    closed spec fn view(&self) -> Progress {
        Progress {
            abort_on_error: self.abort_on_error,
            errors: error_views(self.errors@),
            rejected: self.rejected as nat,
            attempted: self.attempted as nat,
            settled: self.settled as nat,
            succeeded: self.succeeded as nat,
            halted: self.halted,
        }
    }
}

impl Coordinator {
    /// A run that has seen nothing yet.
    pub fn new(abort_on_error: bool) -> (c: Coordinator)
        ensures
            c@ == (Progress {
                abort_on_error,
                errors: Seq::empty(),
                rejected: 0,
                attempted: 0,
                settled: 0,
                succeeded: 0,
                halted: false,
            }),
            c@.consistent(),
    {
        let c = Coordinator {
            abort_on_error,
            errors: Vec::new(),
            rejected: 0,
            attempted: 0,
            settled: 0,
            succeeded: 0,
            halted: false,
        };
        assert(error_views(c.errors@) =~= Seq::empty());
        c
    }

    /// Whether the run has stopped on an error.
    pub fn halted(&self) -> (r: bool)
        ensures
            r == self@.halted,
    {
        self.halted
    }

    /// How many extractions were started.
    pub fn attempted(&self) -> (r: usize)
        ensures
            r == self@.attempted,
    {
        self.attempted
    }

    /// How many extractions succeeded.
    pub fn succeeded(&self) -> (r: usize)
        ensures
            r == self@.succeeded,
    {
        self.succeeded
    }

    /// How many started extractions have not reported yet.
    pub fn pending(&self) -> (r: usize)
        requires
            self@.consistent(),
        ensures
            r == self@.attempted - self@.settled,
    {
        self.attempted - self.settled
    }

    /// How many errors the run holds.
    pub fn error_count(&self) -> (r: usize)
        ensures
            r == self@.errors.len(),
    {
        self.errors.len()
    }

    /// How many entries were rejected before any extraction.
    pub fn rejected(&self) -> (r: usize)
        ensures
            r == self@.rejected,
    {
        self.rejected
    }

    fn record(&mut self, e: SubmissionError)
        ensures
            final(self)@ == old(self)@.with_error(e@),
    {
        self.errors.push(e);
        self.halted = self.abort_on_error;
        assert(error_views(self.errors@) =~= error_views(old(self).errors@).push(e@));
    }

    fn reject(&mut self, e: SubmissionError)
        requires
            old(self)@.consistent(),
        ensures
            final(self)@ == old(self)@.with_rejection(e@),
    {
        self.errors.push(e);
        let held: usize = self.errors.len();
        assert(error_views(old(self).errors@).len() == held - 1);
        self.rejected = self.rejected + 1;
        self.halted = self.abort_on_error;
        assert(error_views(self.errors@) =~= error_views(old(self).errors@).push(e@));
    }

    /// Takes in one entry of the temp root: `owner` is its path, `is_dir`
    /// says whether it is a directory, `files` lists the regular files
    /// below it in the order of the walk. A halted run ignores the entry.
    /// An entry that is no directory, and a directory that does not hold
    /// exactly one archive, is an error and is discarded; the one archive
    /// of any other directory is handed out for extraction with the junk
    /// to delete beside it.
    pub fn submit(&mut self, owner: &str, is_dir: bool, files: &Vec<String>) -> (step: Step)
        requires
            old(self)@.consistent(),
            old(self)@.attempted < usize::MAX,
        ensures
            final(self)@ == old(self)@.submitted(owner@, is_dir, texts(files@)),
            final(self)@.consistent(),
            old(self)@.halted ==> step == Step::Abort,
            !old(self)@.halted && is_dir && archives_in(texts(files@)).len() == 1 ==> {
                &&& step is Extract
                &&& verdict_holds(texts(files@), Ok(step->candidate))
                &&& step->candidate.kind != ArchiveKind::NotArchive
                &&& texts(step->junk@) == junk_in(texts(files@))
            },
            !old(self)@.halted && !(is_dir && archives_in(texts(files@)).len() == 1) ==> step == (
            if old(self)@.abort_on_error {
                Step::DiscardAndAbort
            } else {
                Step::Discard
            }),
    {
        if self.halted {
            return Step::Abort;
        }
        if !is_dir {
            self.reject(SubmissionError::NotADirectory { path: string_of(&chars_of(owner)) });
            return self.after_discard();
        }
        let checked = validate(files);
        match checked.verdict {
            Ok(candidate) => {
                self.attempted = self.attempted + 1;
                Step::Extract { junk: checked.junk, candidate }
            },
            Err(RejectReason::NoArchive) => {
                self.reject(SubmissionError::NoArchive { owner: string_of(&chars_of(owner)) });
                self.after_discard()
            },
            Err(RejectReason::MultipleArchives { first, second }) => {
                self.reject(
                    SubmissionError::MultipleArchives {
                        owner: string_of(&chars_of(owner)),
                        first,
                        second,
                    },
                );
                self.after_discard()
            },
        }
    }

    fn after_discard(&self) -> (step: Step)
        ensures
            step == (if self@.abort_on_error {
                Step::DiscardAndAbort
            } else {
                Step::Discard
            }),
    {
        if self.abort_on_error {
            Step::DiscardAndAbort
        } else {
            Step::Discard
        }
    }

    /// Takes in what a worker reported for the archive `archive` of
    /// `owner`: `None` where it was unpacked, else the cause of the
    /// failure. A halted run, and one with no extraction outstanding,
    /// ignores the report. A failure is an error: a run that goes on
    /// discards the submission, a run that aborts on errors stops and
    /// leaves everything in place.
    pub fn settle(&mut self, owner: &str, archive: &str, failure: Option<String>) -> (step: Step)
        requires
            old(self)@.consistent(),
        ensures
            final(self)@ == old(self)@.settled_with(
                owner@,
                archive@,
                match failure {
                    Some(cause) => Some(cause@),
                    None => None,
                },
            ),
            final(self)@.consistent(),
            step == (if old(self)@.halted {
                Step::Abort
            } else if old(self)@.settled >= old(self)@.attempted || failure is None {
                Step::Proceed
            } else if old(self)@.abort_on_error {
                Step::Abort
            } else {
                Step::Discard
            }),
    {
        if self.halted {
            return Step::Abort;
        }
        if self.settled >= self.attempted {
            return Step::Proceed;
        }
        self.settled = self.settled + 1;
        match failure {
            None => {
                self.succeeded = self.succeeded + 1;
                Step::Proceed
            },
            Some(cause) => {
                self.record(
                    SubmissionError::ExtractionFailed {
                        owner: string_of(&chars_of(owner)),
                        archive: string_of(&chars_of(archive)),
                        cause,
                    },
                );
                if self.abort_on_error {
                    Step::Abort
                } else {
                    Step::Discard
                }
            },
        }
    }

    /// Ends the run once every worker has been joined. A halted run fails
    /// with the error that halted it; a run that accepted no submission
    /// fails with `NoSubmissions`; one whose extractions all failed fails
    /// with `NoSuccess`; any other hands back its report.
    pub fn finish(self) -> (out: Result<PreparationReport, FatalError>)
        requires
            self@.consistent(),
            self@.halted || self@.settled == self@.attempted,
        ensures
            match out {
                Ok(report) => {
                    &&& !self@.halted
                    &&& self@.succeeded > 0
                    &&& error_views(report.errors@) == self@.errors
                    &&& report.attempted == self@.attempted
                    &&& report.succeeded == self@.succeeded
                    &&& report.errors@.len() == self@.rejected + (report.attempted
                        - report.succeeded)
                },
                Err(FatalError::Aborted(e)) => self@.halted && e@ == self@.errors[0],
                Err(FatalError::NoSubmissions) => !self@.halted && self@.attempted == 0,
                Err(FatalError::NoSuccess) => !self@.halted && self@.attempted > 0
                    && self@.succeeded == 0,
            },
    {
        let mut errors = self.errors;
        if self.halted {
            assert(errors@.len() == 1);
            let ghost e0 = errors@[0];
            match errors.pop() {
                Some(e) => {
                    assert(e == e0);
                    return Err(FatalError::Aborted(e));
                },
                None => {
                    return Err(FatalError::NoSubmissions);
                },
            }
        }
        if self.attempted == 0 {
            Err(FatalError::NoSubmissions)
        } else if self.succeeded == 0 {
            Err(FatalError::NoSuccess)
        } else {
            Ok(PreparationReport { errors, attempted: self.attempted, succeeded: self.succeeded })
        }
    }
}

/// A run that aborts on errors takes in nothing after its first error: no
/// later entry and no later report changes its state.
pub proof fn lemma_abort_ignores_later_events(
    p: Progress,
    owner: Seq<char>,
    is_dir: bool,
    files: Seq<Seq<char>>,
    archive: Seq<char>,
    failure: Option<Seq<char>>,
)
    requires
        p.consistent(),
        p.abort_on_error,
        p.errors.len() > 0,
    ensures
        p.submitted(owner, is_dir, files) == p,
        p.settled_with(owner, archive, failure) == p,
{
}

/// Every event keeps the counts of a run exact: the state after it is
/// consistent where the state before it was.
pub proof fn lemma_events_keep_counts_exact(
    p: Progress,
    owner: Seq<char>,
    is_dir: bool,
    files: Seq<Seq<char>>,
    archive: Seq<char>,
    failure: Option<Seq<char>>,
)
    requires
        p.consistent(),
    ensures
        p.submitted(owner, is_dir, files).consistent(),
        p.settled_with(owner, archive, failure).consistent(),
{
}

} // verus!
