use crate::extract::{join, joined};
use crate::sanitize::{entry_views, Entry, EntryView};
use vstd::prelude::*;

verus! {

/// A directory with further submissions, as the caller found it: whether
/// the path exists, whether it is a directory, and the entries of a walk
/// over it.
#[derive(Clone, Debug, PartialEq, Eq)]
pub struct SubDir {
    pub path: String,
    pub exists: bool,
    pub is_dir: bool,
    pub entries: Vec<Entry>,
}

/// A `SubDir` with texts in place of strings.
pub struct SubDirView {
    pub path: Seq<char>,
    pub exists: bool,
    pub is_dir: bool,
    pub entries: Seq<EntryView>,
}

impl View for SubDir {
    type V = SubDirView;

    open spec fn view(&self) -> SubDirView {
        SubDirView {
            path: self.path@,
            exists: self.exists,
            is_dir: self.is_dir,
            entries: entry_views(self.entries@),
        }
    }
}

/// The views of a sequence of directories.
pub open spec fn sub_dir_views(dirs: Seq<SubDir>) -> Seq<SubDirView> {
    Seq::new(dirs.len(), |i: int| dirs[i]@)
}

/// Why a directory with further submissions cannot be taken.
#[derive(Clone, Debug, PartialEq, Eq)]
pub enum AddSubError {
    Missing(String),
    NotADirectory(String),
}

/// An `AddSubError` with the path as text.
pub enum AddSubErrorView {
    Missing(Seq<char>),
    NotADirectory(Seq<char>),
}

impl View for AddSubError {
    type V = AddSubErrorView;

    open spec fn view(&self) -> AddSubErrorView {
        match *self {
            AddSubError::Missing(p) => AddSubErrorView::Missing(p@),
            AddSubError::NotADirectory(p) => AddSubErrorView::NotADirectory(p@),
        }
    }
}

/// One thing to do: create the directory `to`, or copy the file `from`
/// to `to`.
#[derive(Clone, Debug, PartialEq, Eq)]
pub struct CopyStep {
    pub from: String,
    pub to: String,
    pub is_dir: bool,
}

/// A `CopyStep` with texts in place of strings.
pub struct CopyStepView {
    pub from: Seq<char>,
    pub to: Seq<char>,
    pub is_dir: bool,
}

impl View for CopyStep {
    type V = CopyStepView;

    open spec fn view(&self) -> CopyStepView {
        CopyStepView { from: self.from@, to: self.to@, is_dir: self.is_dir }
    }
}

/// The views of a sequence of steps.
pub open spec fn step_views(steps: Seq<CopyStep>) -> Seq<CopyStepView> {
    Seq::new(steps.len(), |i: int| steps[i]@)
}

/// The steps to do in order and, where a directory cannot be taken, the
/// error to fail with after them.
#[derive(Debug, PartialEq, Eq)]
pub struct CopyPlan {
    pub steps: Vec<CopyStep>,
    pub failure: Option<AddSubError>,
}

/// A `CopyPlan` as contracts see it.
pub struct CopyPlanView {
    pub steps: Seq<CopyStepView>,
    pub failure: Option<AddSubErrorView>,
}

impl View for CopyPlan {
    type V = CopyPlanView;

    open spec fn view(&self) -> CopyPlanView {
        CopyPlanView {
            steps: step_views(self.steps@),
            failure: match self.failure {
                Some(e) => Some(e@),
                None => None,
            },
        }
    }
}

/// Where `path` goes below the temp root: a relative path is joined to
/// it, a path from the root stays what it is.
pub open spec fn mirrored(tmp_dir: Seq<char>, path: Seq<char>) -> Seq<char> {
    if path.len() > 0 && path[0] == '/' {
        path
    } else {
        joined(tmp_dir, path)
    }
}

/// The step that mirrors one entry below the temp root.
pub open spec fn mirror_step(tmp_dir: Seq<char>, e: EntryView) -> CopyStepView {
    CopyStepView { from: e.path, to: mirrored(tmp_dir, e.path), is_dir: e.is_dir }
}

/// The steps for one directory: its own mirror is created, then each
/// entry of the walk is mirrored in order.
pub open spec fn dir_steps(tmp_dir: Seq<char>, dir: SubDirView) -> Seq<CopyStepView> {
    seq![CopyStepView { from: dir.path, to: mirrored(tmp_dir, dir.path), is_dir: true }]
        + Seq::new(dir.entries.len(), |i: int| mirror_step(tmp_dir, dir.entries[i]))
}

/// The plan for the first `n` directories: the steps of each in order, up
/// to the first one that is missing or no directory, which fails the plan.
pub open spec fn planned(tmp_dir: Seq<char>, dirs: Seq<SubDirView>, n: int) -> CopyPlanView
    decreases n,
{
    if n <= 0 {
        CopyPlanView { steps: Seq::empty(), failure: None }
    } else {
        let before = planned(tmp_dir, dirs, n - 1);
        let dir = dirs[n - 1];
        if before.failure is Some {
            before
        } else if !dir.exists {
            CopyPlanView { failure: Some(AddSubErrorView::Missing(dir.path)), ..before }
        } else if !dir.is_dir {
            CopyPlanView { failure: Some(AddSubErrorView::NotADirectory(dir.path)), ..before }
        } else {
            CopyPlanView { steps: before.steps + dir_steps(tmp_dir, dir), ..before }
        }
    }
}

/// A failed plan stays as it is, whatever follows.
proof fn lemma_planned_failed(tmp_dir: Seq<char>, dirs: Seq<SubDirView>, n: int, m: int)
    requires
        0 <= n <= m,
        planned(tmp_dir, dirs, n).failure is Some,
    ensures
        planned(tmp_dir, dirs, m) == planned(tmp_dir, dirs, n),
    decreases m - n,
{
    if n < m {
        lemma_planned_failed(tmp_dir, dirs, n, m - 1);
    }
}

fn mirror(tmp_dir: &str, path: &str) -> (out: String)
    ensures
        out@ == mirrored(tmp_dir@, path@),
{
    if path.unicode_len() > 0 && path.get_char(0) == '/' {
        path.to_owned()
    } else {
        join(tmp_dir, path)
    }
}

/// Plans the copying of further submissions into the temp root. Each
/// directory is mirrored there under its own path, entry by entry in the
/// order of its walk. The first directory that does not exist, or is no
/// directory, ends the plan with an error; what was planned before it is
/// still done.
pub fn add_subs(sub_dir_vec: &Vec<SubDir>, tmp_dir: &str) -> (plan: CopyPlan)
    ensures
        plan@ == planned(tmp_dir@, sub_dir_views(sub_dir_vec@), sub_dir_vec@.len() as int),
{
    let ghost dirs = sub_dir_views(sub_dir_vec@);
    let mut steps: Vec<CopyStep> = Vec::new();
    let mut i: usize = 0;
    assert(step_views(steps@) =~= Seq::empty());
    while i < sub_dir_vec.len()
        invariant
            i <= sub_dir_vec.len(),
            dirs == sub_dir_views(sub_dir_vec@),
            planned(tmp_dir@, dirs, i as int) == (CopyPlanView {
                steps: step_views(steps@),
                failure: None,
            }),
        decreases sub_dir_vec.len() - i,
    {
        let dir = &sub_dir_vec[i];
        assert(dirs[i as int] == dir@);
        if !dir.exists || !dir.is_dir {
            let failure = if !dir.exists {
                AddSubError::Missing(dir.path.clone())
            } else {
                AddSubError::NotADirectory(dir.path.clone())
            };
            let plan = CopyPlan { steps, failure: Some(failure) };
            proof {
                assert(planned(tmp_dir@, dirs, i + 1) == plan@);
                lemma_planned_failed(tmp_dir@, dirs, i + 1, dirs.len() as int);
            }
            return plan;
        }
        let ghost before = step_views(steps@);
        steps.push(
            CopyStep {
                from: dir.path.clone(),
                to: mirror(tmp_dir, dir.path.as_str()),
                is_dir: true,
            },
        );
        let ghost head = step_views(steps@);
        assert(head =~= before + seq![
            CopyStepView { from: dir@.path, to: mirrored(tmp_dir@, dir@.path), is_dir: true },
        ]);
        let mut k: usize = 0;
        while k < dir.entries.len()
            invariant
                k <= dir.entries.len(),
                step_views(steps@) == head + Seq::new(
                    k as nat,
                    |j: int| mirror_step(tmp_dir@, dir@.entries[j]),
                ),
            decreases dir.entries.len() - k,
        {
            let e = &dir.entries[k];
            let ghost so_far = step_views(steps@);
            assert(dir@.entries[k as int] == e@);
            steps.push(
                CopyStep {
                    from: e.path.clone(),
                    to: mirror(tmp_dir, e.path.as_str()),
                    is_dir: e.is_dir,
                },
            );
            assert(step_views(steps@) =~= so_far.push(mirror_step(tmp_dir@, e@)));
            k = k + 1;
            assert(step_views(steps@) =~= head + Seq::new(
                k as nat,
                |j: int| mirror_step(tmp_dir@, dir@.entries[j]),
            ));
        }
        assert(step_views(steps@) =~= before + dir_steps(tmp_dir@, dir@));
        i = i + 1;
    }
    CopyPlan { steps, failure: None }
}

} // verus!
