use crate::text::{chars_of, find_last, last_index_of, lemma_last_index_of, lower, same_text, slice_of, to_lower};
use vstd::prelude::*;

verus! {

/// How a submitted file is unpacked. `NotArchive` marks a file that no
/// strategy takes: callers delete such a file instead of unpacking it.
#[derive(Clone, Copy, Debug, PartialEq, Eq, Structural)]
pub enum ArchiveKind {
    Zip,
    Rar,
    SevenZip,
    Tar,
    TarGz,
    NotArchive,
}

/// The strategy that belongs to a lower-case extension without its dot.
/// `gz` always stands for a gzipped tar stream; nothing looks inside the file.
pub open spec fn kind_of_extension(ext: Seq<char>) -> ArchiveKind {
    if ext == "zip"@ {
        ArchiveKind::Zip
    } else if ext == "rar"@ {
        ArchiveKind::Rar
    } else if ext == "7z"@ {
        ArchiveKind::SevenZip
    } else if ext == "tar"@ {
        ArchiveKind::Tar
    } else if ext == "gz"@ {
        ArchiveKind::TarGz
    } else {
        ArchiveKind::NotArchive
    }
}

/// The last segment of a `/`-separated path: what follows its last `/`, or
/// the whole path where it has none.
pub open spec fn file_name_of(path: Seq<char>) -> Seq<char> {
    path.subrange(last_index_of(path, '/') + 1, path.len() as int)
}

/// The extension of a path: what follows the last `.` of its file name. A
/// file name without a `.`, one whose only `.` is its first character, and
/// the name `..` have none.
pub open spec fn extension_of(path: Seq<char>) -> Option<Seq<char>> {
    let name = file_name_of(path);
    let dot = last_index_of(name, '.');
    if dot <= 0 || name == seq!['.', '.'] {
        None
    } else {
        Some(name.subrange(dot + 1, name.len() as int))
    }
}

/// The strategy for a file, decided by its extension without regard to case.
pub open spec fn kind_of_path(path: Seq<char>) -> ArchiveKind {
    match extension_of(path) {
        Some(ext) => kind_of_extension(lower(ext)),
        None => ArchiveKind::NotArchive,
    }
}

fn kind_of_chars(ext: &Vec<char>) -> (kind: ArchiveKind)
    ensures
        kind == kind_of_extension(ext@),
{
    if same_text(ext, &chars_of("zip")) {
        ArchiveKind::Zip
    } else if same_text(ext, &chars_of("rar")) {
        ArchiveKind::Rar
    } else if same_text(ext, &chars_of("7z")) {
        ArchiveKind::SevenZip
    } else if same_text(ext, &chars_of("tar")) {
        ArchiveKind::Tar
    } else if same_text(ext, &chars_of("gz")) {
        ArchiveKind::TarGz
    } else {
        ArchiveKind::NotArchive
    }
}

/// Maps a lower-case extension without its dot to an extraction strategy.
/// Total: every other text, the empty one included, gives `NotArchive`.
pub fn resolve(extension: &str) -> (kind: ArchiveKind)
    ensures
        kind == kind_of_extension(extension@),
{
    kind_of_chars(&chars_of(extension))
}

/// The file name of a path given as characters.
pub fn file_name_chars(path: &Vec<char>) -> (name: Vec<char>)
    ensures
        name@ == file_name_of(path@),
{
    match find_last(path, '/') {
        Some(i) => {
            proof {
                lemma_last_index_of(path@, '/');
            }
            slice_of(path, i + 1, path.len())
        },
        None => slice_of(path, 0, path.len()),
    }
}

/// The extension of a path given as characters.
pub fn extension_chars(path: &Vec<char>) -> (ext: Option<Vec<char>>)
    ensures
        ext is Some == extension_of(path@) is Some,
        ext is Some ==> ext->0@ == extension_of(path@)->0,
{
    let name = file_name_chars(path);
    let dots: Vec<char> = vec!['.', '.'];
    assert(dots@ =~= seq!['.', '.']);
    if same_text(&name, &dots) {
        return None;
    }
    match find_last(&name, '.') {
        Some(dot) => {
            if dot == 0 {
                None
            } else {
                proof {
                    lemma_last_index_of(name@, '.');
                }
                Some(slice_of(&name, dot + 1, name.len()))
            }
        },
        None => None,
    }
}

/// The strategy for the file at `path`: its extension is lower-cased and
/// resolved; a path without an extension is no archive.
pub fn strategy_for(path: &str) -> (kind: ArchiveKind)
    ensures
        kind == kind_of_path(path@),
{
    match extension_chars(&chars_of(path)) {
        Some(ext) => kind_of_chars(&to_lower(&ext)),
        None => ArchiveKind::NotArchive,
    }
}

/// Every recognised extension resolves to its own strategy, and nothing
/// else resolves to a strategy at all.
pub proof fn lemma_resolve_table(ext: Seq<char>)
    ensures
        kind_of_extension("zip"@) == ArchiveKind::Zip,
        kind_of_extension("rar"@) == ArchiveKind::Rar,
        kind_of_extension("7z"@) == ArchiveKind::SevenZip,
        kind_of_extension("tar"@) == ArchiveKind::Tar,
        kind_of_extension("gz"@) == ArchiveKind::TarGz,
        kind_of_extension(Seq::empty()) == ArchiveKind::NotArchive,
        kind_of_extension(ext) != ArchiveKind::NotArchive <==> (ext == "zip"@ || ext == "rar"@
            || ext == "7z"@ || ext == "tar"@ || ext == "gz"@),
{
    reveal_strlit("zip");
    reveal_strlit("rar");
    reveal_strlit("7z");
    reveal_strlit("tar");
    reveal_strlit("gz");
    assert("zip"@.len() == 3 && "rar"@.len() == 3 && "tar"@.len() == 3);
    assert("7z"@.len() == 2 && "gz"@.len() == 2);
    assert("rar"@[0] != "zip"@[0]);
    assert("tar"@[0] != "zip"@[0]);
    assert("tar"@[0] != "rar"@[0]);
    assert("gz"@[0] != "7z"@[0]);
}

} // verus!
