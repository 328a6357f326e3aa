use crate::dispatch::{kind_of_path, strategy_for, ArchiveKind};
use crate::text::texts;
use vstd::prelude::*;

verus! {

/// The one archive that a submission directory resolves to.
#[derive(Clone, Debug, PartialEq, Eq)]
pub struct ArchiveCandidate {
    pub path: String,
    pub kind: ArchiveKind,
}

/// Why a submission directory is turned away.
#[derive(Clone, Debug, PartialEq, Eq)]
pub enum RejectReason {
    NoArchive,
    MultipleArchives { first: String, second: String },
}

/// What validating one submission directory decided: the files to delete as
/// junk, and the archive to unpack or the reason for rejecting the directory.
#[derive(Debug, PartialEq, Eq)]
pub struct Validation {
    pub junk: Vec<String>,
    pub verdict: Result<ArchiveCandidate, RejectReason>,
}

/// Whether the file at `path` is taken by an extraction strategy.
pub open spec fn is_archive(path: Seq<char>) -> bool {
    kind_of_path(path) != ArchiveKind::NotArchive
}

/// The archives among `files`, in order.
pub open spec fn archives_in(files: Seq<Seq<char>>) -> Seq<Seq<char>> {
    files.filter(|p: Seq<char>| is_archive(p))
}

/// The files among `files` that are no archives, in order.
pub open spec fn junk_in(files: Seq<Seq<char>>) -> Seq<Seq<char>> {
    files.filter(|p: Seq<char>| !is_archive(p))
}

/// How many of `files` the scan looks at: all of them while it has met
/// fewer than two archives, and nothing beyond the second archive.
pub open spec fn scan_end(files: Seq<Seq<char>>) -> int
    decreases files.len(),
{
    if files.len() == 0 {
        0
    } else if archives_in(files.drop_last()).len() >= 2 {
        scan_end(files.drop_last())
    } else {
        files.len() as int
    }
}

/// The verdict on a directory that holds the regular files `files`.
pub open spec fn verdict_holds(
    files: Seq<Seq<char>>,
    verdict: Result<ArchiveCandidate, RejectReason>,
) -> bool {
    let found = archives_in(files);
    if found.len() == 0 {
        verdict == Err::<ArchiveCandidate, RejectReason>(RejectReason::NoArchive)
    } else if found.len() == 1 {
        &&& verdict is Ok
        &&& verdict->Ok_0.path@ == found[0]
        &&& verdict->Ok_0.kind == kind_of_path(found[0])
    } else {
        &&& verdict is Err
        &&& verdict->Err_0 is MultipleArchives
        &&& verdict->Err_0->first@ == found[0]
        &&& verdict->Err_0->second@ == found[1]
    }
}

proof fn lemma_take_step(files: Seq<Seq<char>>, i: int)
    requires
        0 <= i < files.len(),
    ensures
        archives_in(files.take(i + 1)) == if is_archive(files[i]) {
            archives_in(files.take(i)).push(files[i])
        } else {
            archives_in(files.take(i))
        },
        junk_in(files.take(i + 1)) == if is_archive(files[i]) {
            junk_in(files.take(i))
        } else {
            junk_in(files.take(i)).push(files[i])
        },
{
    reveal(Seq::filter);
    assert(files.take(i + 1).drop_last() =~= files.take(i));
    assert(files.take(i + 1).last() == files[i]);
}

/// A longer prefix holds the archives of a shorter one at their places.
proof fn lemma_archives_grow(files: Seq<Seq<char>>, i: int, j: int)
    requires
        0 <= i <= j <= files.len(),
    ensures
        archives_in(files.take(i)).len() <= archives_in(files.take(j)).len(),
        forall|k: int|
            0 <= k < archives_in(files.take(i)).len() ==> archives_in(files.take(j))[k]
                == archives_in(files.take(i))[k],
    decreases j - i,
{
    if i < j {
        lemma_archives_grow(files, i, j - 1);
        lemma_take_step(files, j - 1);
    }
}

/// Once a prefix holds two archives, the scan of the whole ends where the
/// scan of that prefix ends.
proof fn lemma_scan_stops(files: Seq<Seq<char>>, n: int)
    requires
        0 <= n <= files.len(),
        archives_in(files.take(n)).len() >= 2,
    ensures
        scan_end(files) == scan_end(files.take(n)),
    decreases files.len() - n,
{
    if n < files.len() {
        let head = files.drop_last();
        assert(head =~= files.take(files.len() - 1));
        assert(head.take(n) =~= files.take(n));
        lemma_archives_grow(files, n, files.len() - 1);
        lemma_scan_stops(head, n);
    } else {
        assert(files.take(n) =~= files);
    }
}

/// With fewer than two archives among them, the scan looks at all files.
pub proof fn lemma_scan_all(files: Seq<Seq<char>>)
    requires
        archives_in(files).len() < 2,
    ensures
        scan_end(files) == files.len(),
{
    if files.len() > 0 {
        reveal(Seq::filter);
    }
}

/// What the filter for archives keeps is an archive.
pub proof fn lemma_archives_are_archives(files: Seq<Seq<char>>, k: int)
    requires
        0 <= k < archives_in(files).len(),
    ensures
        is_archive(archives_in(files)[k]),
{
    files.lemma_filter_pred(|p: Seq<char>| is_archive(p), k);
}

/// Decides what to do with one submission directory from the regular files
/// found in it, given in the order of the walk. Every file that no strategy
/// takes is junk to delete. No archive among the files rejects the directory
/// with `NoArchive`; exactly one is the candidate to unpack; a second one
/// rejects the directory with `MultipleArchives`, naming the first two, and
/// ends the scan there, so that no later file is listed as junk.
pub fn validate(files: &Vec<String>) -> (out: Validation)
    ensures
        verdict_holds(texts(files@), out.verdict),
        texts(out.junk@) == junk_in(texts(files@).take(scan_end(texts(files@)))),
        archives_in(texts(files@)).len() < 2 ==> texts(out.junk@) == junk_in(texts(files@)),
        out.verdict is Ok ==> is_archive(out.verdict->Ok_0.path@) && out.verdict->Ok_0.kind
            != ArchiveKind::NotArchive,
{
    let ghost all = texts(files@);
    let mut junk: Vec<String> = Vec::new();
    let mut first: Option<ArchiveCandidate> = None;
    let mut i: usize = 0;
    proof {
        reveal(Seq::filter);
        assert(all.take(0) =~= Seq::<Seq<char>>::empty());
        assert(texts(junk@) =~= junk_in(all.take(0)));
    }
    while i < files.len()
        invariant
            i <= files.len(),
            all == texts(files@),
            texts(junk@) == junk_in(all.take(i as int)),
            scan_end(all.take(i as int)) == i,
            match first {
                Some(c) => archives_in(all.take(i as int)) == seq![c.path@] && c.kind
                    == kind_of_path(c.path@),
                None => archives_in(all.take(i as int)).len() == 0,
            },
        decreases files.len() - i,
    {
        let path: &String = &files[i];
        let kind = strategy_for(path.as_str());
        proof {
            lemma_take_step(all, i as int);
            assert(all[i as int] == path@);
            assert(all.take(i + 1).drop_last() =~= all.take(i as int));
        }
        if kind == ArchiveKind::NotArchive {
            junk.push(path.clone());
            assert(texts(junk@) =~= junk_in(all.take(i as int)).push(path@));
        } else {
            match first {
                Some(c) => {
                    proof {
                        lemma_scan_stops(all, i + 1);
                        lemma_archives_grow(all, i + 1, all.len() as int);
                        assert(all.take(all.len() as int) =~= all);
                        lemma_take_step(all.take(i + 1), i as int);
                        assert(all.take(i + 1).take(i as int) =~= all.take(i as int));
                        assert(all.take(i + 1).take(i + 1) =~= all.take(i + 1));
                    }
                    let reason = RejectReason::MultipleArchives {
                        first: c.path,
                        second: path.clone(),
                    };
                    return Validation { junk, verdict: Err(reason) };
                },
                None => {
                    first = Some(ArchiveCandidate { path: path.clone(), kind });
                    assert(archives_in(all.take(i + 1)) =~= seq![path@]);
                },
            }
        }
        i = i + 1;
    }
    assert(all.take(i as int) =~= all);
    proof {
        lemma_scan_all(all);
        if first is Some {
            lemma_archives_are_archives(all, 0);
        }
    }
    match first {
        Some(c) => Validation { junk, verdict: Ok(c) },
        None => Validation { junk, verdict: Err(RejectReason::NoArchive) },
    }
}

} // verus!
