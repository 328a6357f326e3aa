use crate::text::{chars_of, ends_with, has_suffix, matches_at, occurs_at, same_text};
use vstd::prelude::*;

verus! {

/// One entry of a directory walk: its path and whether it is a directory.
#[derive(Clone, Debug, PartialEq, Eq)]
pub struct Entry {
    pub path: String,
    pub is_dir: bool,
}

/// An `Entry` with its path as text.
pub struct EntryView {
    pub path: Seq<char>,
    pub is_dir: bool,
}

impl View for Entry {
    type V = EntryView;

    open spec fn view(&self) -> EntryView {
        EntryView { path: self.path@, is_dir: self.is_dir }
    }
}

/// The views of a sequence of entries.
pub open spec fn entry_views(entries: Seq<Entry>) -> Seq<EntryView> {
    Seq::new(entries.len(), |i: int| entries[i]@)
}

/// Names of directories that are removed with all they hold: metadata of
/// operating systems and editors, build output, version control, and the
/// unpacked course tools.
pub open spec fn denied_dir_names() -> Seq<Seq<char>> {
    seq![
        "__MACOSX"@,
        ".idea"@,
        "target"@,
        "build"@,
        "gradle"@,
        ".git"@,
        "out"@,
        "Prog1Tools"@,
    ]
}

/// Endings of files that are removed: metadata, build scripts, project
/// files, documentation, nested archives, compiled classes and media.
pub open spec fn denied_file_endings() -> Seq<Seq<char>> {
    seq![
        ".DS_STORE"@,
        ".gitignore"@,
        "gradlew"@,
        "gradlew.bat"@,
        "build.gradle.kts"@,
        "settings.gradle.kts"@,
        "pom.xml"@,
        ".md"@,
        ".iml"@,
        ".zip"@,
        ".class"@,
        ".mp3"@,
    ]
}

/// Whether the last segment of `path` is `name`: the path is the name
/// itself or ends with a `/` and the name.
pub open spec fn ends_with_segment(path: Seq<char>, name: Seq<char>) -> bool {
    path == name || ends_with(path, seq!['/'] + name)
}

/// Whether a directory at `path` is removed for its name.
pub open spec fn dir_denied(path: Seq<char>) -> bool {
    exists|k: int|
        0 <= k < denied_dir_names().len() && ends_with_segment(path, #[trigger] denied_dir_names()[k])
}

/// Whether a file at `path` is removed for its ending.
pub open spec fn file_denied(path: Seq<char>) -> bool {
    exists|k: int|
        0 <= k < denied_file_endings().len() && ends_with(path, #[trigger] denied_file_endings()[k])
}

/// Whether an entry is removed for its own path.
pub open spec fn denied(e: EntryView) -> bool {
    if e.is_dir {
        dir_denied(e.path)
    } else {
        file_denied(e.path)
    }
}

/// Whether `path` lies below the directory `dir`: it starts with `dir`
/// and a `/`.
pub open spec fn lies_within(path: Seq<char>, dir: Seq<char>) -> bool {
    occurs_at(path, dir + seq!['/'], 0)
}

/// Whether `path` lies below a directory of the walk that is removed for
/// its name, so that a walk which removes that directory never meets it.
pub open spec fn shielded(entries: Seq<EntryView>, path: Seq<char>) -> bool {
    exists|j: int|
        0 <= j < entries.len() && (#[trigger] entries[j]).is_dir && dir_denied(entries[j].path)
            && lies_within(path, entries[j].path)
}

/// Whether the walk removes the entry `e` itself.
pub open spec fn removed(entries: Seq<EntryView>, e: EntryView) -> bool {
    denied(e) && !shielded(entries, e.path)
}

/// Whether the entry `e` is still there after the walk.
pub open spec fn survives(entries: Seq<EntryView>, e: EntryView) -> bool {
    !denied(e) && !shielded(entries, e.path)
}

/// The entries that the walk removes, in its order.
pub open spec fn removals(entries: Seq<EntryView>) -> Seq<EntryView> {
    entries.filter(|e: EntryView| removed(entries, e))
}

/// The entries that are left after the removals, in the order of the walk.
pub open spec fn survivors(entries: Seq<EntryView>) -> Seq<EntryView> {
    entries.filter(|e: EntryView| survives(entries, e))
}

/// The texts of a sequence of character vectors.
pub open spec fn vec_texts(v: Seq<Vec<char>>) -> Seq<Seq<char>> {
    Seq::new(v.len(), |i: int| v[i]@)
}

fn dir_names() -> (names: Vec<Vec<char>>)
    ensures
        vec_texts(names@) == denied_dir_names(),
{
    let mut names: Vec<Vec<char>> = Vec::new();
    names.push(chars_of("__MACOSX"));
    names.push(chars_of(".idea"));
    names.push(chars_of("target"));
    names.push(chars_of("build"));
    names.push(chars_of("gradle"));
    names.push(chars_of(".git"));
    names.push(chars_of("out"));
    names.push(chars_of("Prog1Tools"));
    assert(vec_texts(names@) =~= denied_dir_names());
    names
}

fn file_endings() -> (endings: Vec<Vec<char>>)
    ensures
        vec_texts(endings@) == denied_file_endings(),
{
    let mut endings: Vec<Vec<char>> = Vec::new();
    endings.push(chars_of(".DS_STORE"));
    endings.push(chars_of(".gitignore"));
    endings.push(chars_of("gradlew"));
    endings.push(chars_of("gradlew.bat"));
    endings.push(chars_of("build.gradle.kts"));
    endings.push(chars_of("settings.gradle.kts"));
    endings.push(chars_of("pom.xml"));
    endings.push(chars_of(".md"));
    endings.push(chars_of(".iml"));
    endings.push(chars_of(".zip"));
    endings.push(chars_of(".class"));
    endings.push(chars_of(".mp3"));
    assert(vec_texts(endings@) =~= denied_file_endings());
    endings
}

/// `dir` followed by a `/`.
fn with_slash_before(name: &Vec<char>) -> (out: Vec<char>)
    ensures
        out@ == seq!['/'] + name@,
{
    let mut out: Vec<char> = Vec::new();
    out.push('/');
    let mut i: usize = 0;
    while i < name.len()
        invariant
            i <= name.len(),
            out@ == seq!['/'] + name@.subrange(0, i as int),
        decreases name.len() - i,
    {
        out.push(name[i]);
        i = i + 1;
        assert(out@ =~= seq!['/'] + name@.subrange(0, i as int));
    }
    assert(name@.subrange(0, name.len() as int) =~= name@);
    out
}

fn with_slash_after(dir: &Vec<char>) -> (out: Vec<char>)
    ensures
        out@ == dir@ + seq!['/'],
{
    let mut out: Vec<char> = dir.clone();
    out.push('/');
    assert(out@ =~= dir@ + seq!['/']);
    out
}

/// Whether a directory at `path` is on the list of names to remove.
pub fn is_dir_denied(path: &str) -> (r: bool)
    ensures
        r == dir_denied(path@),
{
    let p = chars_of(path);
    let names = dir_names();
    let mut k: usize = 0;
    while k < names.len()
        invariant
            k <= names.len(),
            vec_texts(names@) == denied_dir_names(),
            p@ == path@,
            forall|j: int| 0 <= j < k ==> !ends_with_segment(path@, #[trigger] denied_dir_names()[j]),
        decreases names.len() - k,
    {
        assert(vec_texts(names@)[k as int] == names@[k as int]@);
        if same_text(&p, &names[k]) || has_suffix(&p, &with_slash_before(&names[k])) {
            return true;
        }
        k = k + 1;
    }
    assert(vec_texts(names@).len() == names@.len());
    false
}

/// Whether a file at `path` has one of the endings to remove.
pub fn is_file_denied(path: &str) -> (r: bool)
    ensures
        r == file_denied(path@),
{
    let p = chars_of(path);
    let endings = file_endings();
    let mut k: usize = 0;
    while k < endings.len()
        invariant
            k <= endings.len(),
            vec_texts(endings@) == denied_file_endings(),
            p@ == path@,
            forall|j: int| 0 <= j < k ==> !ends_with(path@, #[trigger] denied_file_endings()[j]),
        decreases endings.len() - k,
    {
        assert(vec_texts(endings@)[k as int] == endings@[k as int]@);
        if has_suffix(&p, &endings[k]) {
            return true;
        }
        k = k + 1;
    }
    assert(vec_texts(endings@).len() == endings@.len());
    false
}

/// Whether the walk removes an entry for its own path.
pub fn is_denied(e: &Entry) -> (r: bool)
    ensures
        r == denied(e@),
{
    if e.is_dir {
        is_dir_denied(e.path.as_str())
    } else {
        is_file_denied(e.path.as_str())
    }
}

/// Whether `prefix` is the path of a denied directory among the first `n`
/// entries, with a `/` behind it.
spec fn shield_of(all: Seq<EntryView>, n: int, prefix: Seq<char>) -> bool {
    exists|j: int|
        0 <= j < n && (#[trigger] all[j]).is_dir && dir_denied(all[j].path) && prefix
            == all[j].path + seq!['/']
}

/// Whether `text` is on `list`.
spec fn holds(list: Seq<Vec<char>>, text: Seq<char>) -> bool {
    exists|k: int| 0 <= k < list.len() && (#[trigger] list[k])@ == text
}

/// The denied directories among `entries`, each with a `/` behind it.
fn shields(entries: &Vec<Entry>) -> (out: Vec<Vec<char>>)
    ensures
        forall|path: Seq<char>|
            shielded(entry_views(entries@), path) <==> exists|k: int|
                0 <= k < out@.len() && occurs_at(path, #[trigger] out@[k]@, 0),
{
    let ghost all = entry_views(entries@);
    let mut out: Vec<Vec<char>> = Vec::new();
    let mut i: usize = 0;
    while i < entries.len()
        invariant
            i <= entries.len(),
            all == entry_views(entries@),
            forall|k: int| 0 <= k < out@.len() ==> shield_of(all, i as int, (#[trigger] out@[k])@),
            forall|j: int|
                0 <= j < i && (#[trigger] all[j]).is_dir && dir_denied(all[j].path) ==> holds(
                    out@,
                    all[j].path + seq!['/'],
                ),
        decreases entries.len() - i,
    {
        let e = &entries[i];
        let ghost before = out@;
        assert(all[i as int] == e@);
        if e.is_dir && is_dir_denied(e.path.as_str()) {
            out.push(with_slash_after(&chars_of(e.path.as_str())));
            assert(out@[before.len() as int]@ == all[i as int].path + seq!['/']);
            assert(holds(out@, all[i as int].path + seq!['/']));
        }
        assert forall|k: int| 0 <= k < out@.len() implies shield_of(
            all,
            i + 1,
            (#[trigger] out@[k])@,
        ) by {
            if k < before.len() {
                assert(out@[k] == before[k]);
                assert(shield_of(all, i as int, before[k]@));
                let j = choose|j: int|
                    0 <= j < i && (#[trigger] all[j]).is_dir && dir_denied(all[j].path)
                        && before[k]@ == all[j].path + seq!['/'];
                assert(all[j].is_dir);
            } else {
                assert(all[i as int].is_dir);
            }
        }
        assert forall|j: int|
            0 <= j < i + 1 && (#[trigger] all[j]).is_dir && dir_denied(all[j].path) implies holds(
            out@,
            all[j].path + seq!['/'],
        ) by {
            if j < i {
                assert(holds(before, all[j].path + seq!['/']));
                let k = choose|k: int|
                    0 <= k < before.len() && (#[trigger] before[k])@ == all[j].path + seq!['/'];
                assert(out@[k] == before[k]);
            }
        }
        i = i + 1;
    }
    assert forall|path: Seq<char>| shielded(all, path) implies exists|k: int|
        0 <= k < out@.len() && occurs_at(path, #[trigger] out@[k]@, 0) by {
        let j = choose|j: int|
            0 <= j < all.len() && (#[trigger] all[j]).is_dir && dir_denied(all[j].path)
                && lies_within(path, all[j].path);
        assert(holds(out@, all[j].path + seq!['/']));
        let k = choose|k: int|
            0 <= k < out@.len() && (#[trigger] out@[k])@ == all[j].path + seq!['/'];
        assert(occurs_at(path, out@[k]@, 0));
    }
    assert forall|path: Seq<char>|
        (exists|k: int|
            0 <= k < out@.len() && occurs_at(path, #[trigger] out@[k]@, 0)) implies shielded(
        all,
        path,
    ) by {
        let k = choose|k: int| 0 <= k < out@.len() && occurs_at(path, #[trigger] out@[k]@, 0);
        assert(shield_of(all, i as int, out@[k]@));
        let j = choose|j: int|
            0 <= j < i && (#[trigger] all[j]).is_dir && dir_denied(all[j].path) && out@[k]@
                == all[j].path + seq!['/'];
        assert(lies_within(path, all[j].path));
    }
    out
}

fn starts_with_any(path: &Vec<char>, prefixes: &Vec<Vec<char>>) -> (r: bool)
    ensures
        r == exists|k: int| 0 <= k < prefixes@.len() && occurs_at(path@, #[trigger] prefixes@[k]@, 0),
{
    let mut k: usize = 0;
    while k < prefixes.len()
        invariant
            k <= prefixes.len(),
            forall|j: int| 0 <= j < k ==> !occurs_at(path@, #[trigger] prefixes@[j]@, 0),
        decreases prefixes.len() - k,
    {
        if prefixes[k].len() <= path.len() && matches_at(path, &prefixes[k], 0) {
            return true;
        }
        k = k + 1;
    }
    false
}

/// Plans the cleaning of a tree from the entries of a walk over it. An
/// entry is removed when it is a directory whose last segment is on the
/// list of names, or a file whose path has one of the listed endings. A
/// removed directory goes with all it holds, so nothing below one is
/// removed, or looked at, on its own. The result lists the entries to
/// remove in the order of the walk.
pub fn sanitize_submissions(entries: &Vec<Entry>) -> (out: Vec<Entry>)
    ensures
        entry_views(out@) == removals(entry_views(entries@)),
{
    let ghost all = entry_views(entries@);
    let ghost pred = |e: EntryView| removed(all, e);
    let prefixes = shields(entries);
    let mut out: Vec<Entry> = Vec::new();
    let mut i: usize = 0;
    proof {
        reveal(Seq::filter);
        assert(all.take(0) =~= Seq::<EntryView>::empty());
        assert(entry_views(out@) =~= all.take(0).filter(pred));
    }
    while i < entries.len()
        invariant
            i <= entries.len(),
            all == entry_views(entries@),
            pred == |e: EntryView| removed(all, e),
            entry_views(out@) == all.take(i as int).filter(pred),
            forall|path: Seq<char>|
                shielded(all, path) <==> exists|k: int|
                    0 <= k < prefixes@.len() && occurs_at(path, #[trigger] prefixes@[k]@, 0),
        decreases entries.len() - i,
    {
        let e = &entries[i];
        let ghost before = entry_views(out@);
        proof {
            reveal(Seq::filter);
            assert(all[i as int] == e@);
            assert(all.take(i + 1).drop_last() =~= all.take(i as int));
            assert(all.take(i + 1).last() == e@);
        }
        if is_denied(e) && !starts_with_any(&chars_of(e.path.as_str()), &prefixes) {
            out.push(Entry { path: e.path.clone(), is_dir: e.is_dir });
            assert(entry_views(out@) =~= before.push(e@));
        }
        i = i + 1;
    }
    assert(all.take(i as int) =~= all);
    out
}

/// A filter that none of the elements passes gives nothing.
proof fn lemma_filter_none<A>(s: Seq<A>, pred: spec_fn(A) -> bool)
    requires
        forall|i: int| 0 <= i < s.len() ==> !pred(s[i]),
    ensures
        s.filter(pred) == Seq::<A>::empty(),
    decreases s.len(),
{
    reveal(Seq::filter);
    if s.len() > 0 {
        assert forall|i: int| 0 <= i < s.drop_last().len() implies !pred(s.drop_last()[i]) by {
            assert(s.drop_last()[i] == s[i]);
        }
        lemma_filter_none(s.drop_last(), pred);
    }
}

/// Cleaning is idempotent: a walk over what one cleaning left finds
/// nothing more to remove.
pub proof fn lemma_sanitize_idempotent(entries: Seq<EntryView>)
    ensures
        removals(survivors(entries)) == Seq::<EntryView>::empty(),
{
    let left = survivors(entries);
    let keep = |e: EntryView| survives(entries, e);
    let pred = |e: EntryView| removed(left, e);
    assert forall|i: int| 0 <= i < left.len() implies !pred(left[i]) by {
        entries.lemma_filter_pred(keep, i);
    }
    lemma_filter_none(left, pred);
}

} // verus!
