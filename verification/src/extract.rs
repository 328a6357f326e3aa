use crate::dispatch::{file_name_chars, file_name_of, ArchiveKind};
use crate::text::{chars_of, matches_at, occurs_at, same_text, slice_of, string_of, texts};
use crate::zip_reader::{
    archive_entries, entry_count, failure_of, open_archive, read_entry, zip_listing, Decoded,
    ZipEntry, ZipEntryView, ZipFailure, ZipFailureView,
};
use std::io::Read;
use vstd::prelude::*;

verus! {

/// The kinds of failure of an extraction.
#[derive(Clone, Copy, Debug, PartialEq, Eq, Structural)]
pub enum ExtractFailure {
    /// The archive, or an entry of it, cannot be read as what it claims to be.
    Corrupt,
    /// The archive uses something that the decoder does not support.
    Unsupported,
    /// The disk refused to take what was unpacked.
    Filesystem,
    /// An entry would be written outside its destination.
    PathTraversal,
    /// The submission directory has no name to unpack under.
    NoOwnerName,
}

/// A failed extraction: the archive, the kind of failure and its cause.
#[derive(Clone, Debug, PartialEq, Eq)]
pub struct ExtractError {
    pub archive: String,
    pub failure: ExtractFailure,
    pub cause: String,
}

/// An `ExtractError` with texts in place of strings.
pub struct ExtractErrorView {
    pub archive: Seq<char>,
    pub failure: ExtractFailure,
    pub cause: Seq<char>,
}

impl View for ExtractError {
    type V = ExtractErrorView;

    open spec fn view(&self) -> ExtractErrorView {
        ExtractErrorView { archive: self.archive@, failure: self.failure, cause: self.cause@ }
    }
}

/// Something to put on disk: a directory to create, or a file to write
/// after creating the directories above it.
#[derive(Clone, Debug, PartialEq, Eq)]
pub enum Unpacked {
    Directory { path: String },
    File { path: String, data: Vec<u8> },
}

/// An `Unpacked` with its path as text and its content as bytes.
pub enum UnpackedView {
    Directory { path: Seq<char> },
    File { path: Seq<char>, data: Seq<u8> },
}

impl View for Unpacked {
    type V = UnpackedView;

    open spec fn view(&self) -> UnpackedView {
        match *self {
            Unpacked::Directory { path } => UnpackedView::Directory { path: path@ },
            Unpacked::File { path, data } => UnpackedView::File { path: path@, data: data@ },
        }
    }
}

impl UnpackedView {
    /// Where the item goes.
    pub open spec fn path(self) -> Seq<char> {
        match self {
            UnpackedView::Directory { path } => path,
            UnpackedView::File { path, .. } => path,
        }
    }
}

/// The views of a sequence of unpacked items.
pub open spec fn unpacked_views(items: Seq<Unpacked>) -> Seq<UnpackedView> {
    Seq::new(items.len(), |i: int| items[i]@)
}

/// `rel` below `base`: the two with one `/` between them, which an empty
/// base and one that ends in `/` do not need.
pub open spec fn joined(base: Seq<char>, rel: Seq<char>) -> Seq<char> {
    if base.len() == 0 || base.last() == '/' {
        base + rel
    } else {
        base + seq!['/'] + rel
    }
}

/// Whether the segment of `rel` that starts at `at` is `..`.
pub open spec fn parent_segment_at(rel: Seq<char>, at: int) -> bool {
    &&& occurs_at(rel, seq!['.', '.'], at)
    &&& (at == 0 || rel[at - 1] == '/')
    &&& (at + 2 == rel.len() || rel[at + 2] == '/')
}

/// Whether a relative path names something at or below the directory it
/// is joined to: it does not start at the root, holds no NUL and no
/// segment `..`.
pub open spec fn is_contained(rel: Seq<char>) -> bool {
    &&& !(rel.len() > 0 && rel[0] == '/')
    &&& !rel.contains('\0')
    &&& forall|at: int| !parent_segment_at(rel, at)
}

/// Whether `path` is `dest` with a contained relative path below it.
pub open spec fn stays_below(path: Seq<char>, dest: Seq<char>) -> bool {
    exists|rel: Seq<char>| is_contained(rel) && path == joined(dest, rel)
}

/// What stays below a directory has a path that begins with that of the
/// directory.
pub proof fn lemma_stays_below_prefix(path: Seq<char>, dest: Seq<char>)
    requires
        stays_below(path, dest),
    ensures
        occurs_at(path, dest, 0),
{
    let rel = choose|rel: Seq<char>| is_contained(rel) && path == joined(dest, rel);
    assert(path.subrange(0, dest.len() as int) =~= dest);
}

/// The error for an entry named `entry` that would leave its destination.
pub open spec fn traversal_error(archive: Seq<char>, entry: Seq<char>) -> ExtractErrorView {
    ExtractErrorView { archive, failure: ExtractFailure::PathTraversal, cause: entry }
}

/// Where the entry `e` of `archive` goes below `dest`, or the error for
/// an entry whose name leaves `dest`.
pub open spec fn placed(archive: Seq<char>, dest: Seq<char>, e: ZipEntryView) -> Result<
    UnpackedView,
    ExtractErrorView,
> {
    match e.enclosed {
        None => Err(
            traversal_error(
                archive,
                match e.name {
                    Some(n) => n,
                    None => Seq::empty(),
                },
            ),
        ),
        Some(rel) => if !is_contained(rel) {
            Err(traversal_error(archive, rel))
        } else if e.is_dir {
            Ok(UnpackedView::Directory { path: joined(dest, rel) })
        } else {
            Ok(UnpackedView::File { path: joined(dest, rel), data: e.data })
        },
    }
}

/// The kind of extraction failure that a failure of the zip decoder is.
pub open spec fn failure_class(f: ZipFailureView) -> ExtractFailure {
    match f {
        ZipFailureView::UnsupportedArchive(_) => ExtractFailure::Unsupported,
        ZipFailureView::InvalidPassword => ExtractFailure::Unsupported,
        ZipFailureView::CompressionMethodNotSupported(_) => ExtractFailure::Unsupported,
        _ => ExtractFailure::Corrupt,
    }
}

/// The cause that is reported for a failure of the zip decoder.
pub open spec fn failure_cause(f: ZipFailureView) -> Seq<char> {
    match f {
        ZipFailureView::Io(s) => s,
        ZipFailureView::InvalidArchive(s) => s,
        ZipFailureView::UnsupportedArchive(s) => s,
        ZipFailureView::FileNotFound => "specified file not found in archive"@,
        ZipFailureView::InvalidPassword => "provided password is incorrect"@,
        ZipFailureView::CompressionMethodNotSupported(_) => "compression method not supported"@,
        ZipFailureView::Other(s) => s,
    }
}

/// The extraction error for a failure of the zip decoder on `archive`.
pub open spec fn decode_error(archive: Seq<char>, f: ZipFailureView) -> ExtractErrorView {
    ExtractErrorView { archive, failure: failure_class(f), cause: failure_cause(f) }
}

/// What the first `n` outcomes of decoding the entries of `archive` come
/// to below `dest`: the items to put on disk in order, unless decoding or
/// placing one of them fails: then the first such error.
pub open spec fn placed_all(archive: Seq<char>, dest: Seq<char>, decoded: Seq<Decoded>, n: int) -> Result<
    Seq<UnpackedView>,
    ExtractErrorView,
>
    decreases n,
{
    if n <= 0 {
        Ok(Seq::empty())
    } else {
        match placed_all(archive, dest, decoded, n - 1) {
            Err(e) => Err(e),
            Ok(items) => match decoded[n - 1] {
                Err(f) => Err(decode_error(archive, f)),
                Ok(entry) => match placed(archive, dest, entry) {
                    Err(e) => Err(e),
                    Ok(item) => Ok(items.push(item)),
                },
            },
        }
    }
}

/// What unpacking the zip archive `archive` below `dest` comes to, given
/// what the decoder makes of its content.
pub open spec fn unzipped(
    archive: Seq<char>,
    dest: Seq<char>,
    listing: Result<Seq<Decoded>, ZipFailureView>,
) -> Result<Seq<UnpackedView>, ExtractErrorView> {
    match listing {
        Err(f) => Err(decode_error(archive, f)),
        Ok(decoded) => placed_all(archive, dest, decoded, decoded.len() as int),
    }
}

/// The view of the result of unpacking.
pub open spec fn unzip_view(r: Result<Vec<Unpacked>, ExtractError>) -> Result<
    Seq<UnpackedView>,
    ExtractErrorView,
> {
    match r {
        Ok(items) => Ok(unpacked_views(items@)),
        Err(e) => Err(e@),
    }
}

fn join_chars(base: &Vec<char>, rel: &Vec<char>) -> (out: Vec<char>)
    ensures
        out@ == joined(base@, rel@),
{
    let mut out: Vec<char> = base.clone();
    if base.len() > 0 && base[base.len() - 1] != '/' {
        out.push('/');
    }
    let ghost head = out@;
    let mut i: usize = 0;
    while i < rel.len()
        invariant
            i <= rel.len(),
            out@ == head + rel@.subrange(0, i as int),
        decreases rel.len() - i,
    {
        out.push(rel[i]);
        i = i + 1;
        assert(out@ =~= head + rel@.subrange(0, i as int));
    }
    assert(rel@.subrange(0, rel.len() as int) =~= rel@);
    assert(base@.len() > 0 && base@.last() != '/' ==> head =~= base@ + seq!['/']);
    out
}

/// Joins a relative path to a base directory.
pub fn join(base: &str, rel: &str) -> (out: String)
    ensures
        out@ == joined(base@, rel@),
{
    string_of(&join_chars(&chars_of(base), &chars_of(rel)))
}

fn contained_chars(rel: &Vec<char>) -> (r: bool)
    ensures
        r == is_contained(rel@),
{
    if rel.len() > 0 && rel[0] == '/' {
        return false;
    }
    let dots: Vec<char> = vec!['.', '.'];
    assert(dots@ =~= seq!['.', '.']);
    let mut i: usize = 0;
    while i < rel.len()
        invariant
            i <= rel.len(),
            dots@ == seq!['.', '.'],
            forall|k: int| 0 <= k < i ==> rel@[k] != '\0',
            forall|at: int| 0 <= at < i ==> !parent_segment_at(rel@, at),
        decreases rel.len() - i,
    {
        if rel[i] == '\0' {
            assert(rel@.contains('\0'));
            return false;
        }
        if rel.len() - i >= 2 && (i == 0 || rel[i - 1] == '/') && matches_at(rel, &dots, i) && (i
            + 2 == rel.len() || rel[i + 2] == '/') {
            assert(parent_segment_at(rel@, i as int));
            return false;
        }
        i = i + 1;
    }
    assert(!rel@.contains('\0'));
    assert forall|at: int| !parent_segment_at(rel@, at) by {
        if at >= rel@.len() {
            assert(!occurs_at(rel@, seq!['.', '.'], at));
        }
    }
    true
}

/// Whether a relative path stays at or below the directory it is joined to.
pub fn contained(rel: &str) -> (r: bool)
    ensures
        r == is_contained(rel@),
{
    contained_chars(&chars_of(rel))
}

/// Decides where one decoded entry goes below `dest`. An entry without a
/// safe name, and one whose safe name still leaves `dest`, is refused as
/// a path traversal; a directory entry becomes a directory to create, any
/// other a file to write with the entry's content.
pub fn place_entry(archive: &str, dest: &str, entry: ZipEntry) -> (r: Result<Unpacked, ExtractError>)
    ensures
        match r {
            Ok(item) => placed(archive@, dest@, entry@) == Ok::<UnpackedView, ExtractErrorView>(
                item@,
            ) && stays_below(item@.path(), dest@),
            Err(e) => placed(archive@, dest@, entry@) == Err::<UnpackedView, ExtractErrorView>(e@),
        },
{
    let rel = match entry.enclosed {
        Some(rel) => rel,
        None => {
            let cause = match entry.name {
                Some(n) => n,
                None => String::new(),
            };
            return Err(
                ExtractError {
                    archive: string_of(&chars_of(archive)),
                    failure: ExtractFailure::PathTraversal,
                    cause,
                },
            );
        },
    };
    if !contained(rel.as_str()) {
        return Err(
            ExtractError {
                archive: string_of(&chars_of(archive)),
                failure: ExtractFailure::PathTraversal,
                cause: rel,
            },
        );
    }
    let path = join(dest, rel.as_str());
    if entry.is_dir {
        Ok(Unpacked::Directory { path })
    } else {
        Ok(Unpacked::File { path, data: entry.data })
    }
}

/// Turns a failure of the zip decoder on `archive` into an extraction error.
pub fn decode_failure(archive: &str, f: ZipFailure) -> (e: ExtractError)
    ensures
        e@ == decode_error(archive@, f@),
{
    let archive = string_of(&chars_of(archive));
    match f {
        ZipFailure::Io(s) => ExtractError { archive, failure: ExtractFailure::Corrupt, cause: s },
        ZipFailure::InvalidArchive(s) => ExtractError {
            archive,
            failure: ExtractFailure::Corrupt,
            cause: s,
        },
        ZipFailure::UnsupportedArchive(s) => ExtractError {
            archive,
            failure: ExtractFailure::Unsupported,
            cause: s,
        },
        ZipFailure::FileNotFound => ExtractError {
            archive,
            failure: ExtractFailure::Corrupt,
            cause: string_of(&chars_of("specified file not found in archive")),
        },
        ZipFailure::InvalidPassword => ExtractError {
            archive,
            failure: ExtractFailure::Unsupported,
            cause: string_of(&chars_of("provided password is incorrect")),
        },
        ZipFailure::CompressionMethodNotSupported(_) => ExtractError {
            archive,
            failure: ExtractFailure::Unsupported,
            cause: string_of(&chars_of("compression method not supported")),
        },
        ZipFailure::Other(s) => ExtractError { archive, failure: ExtractFailure::Corrupt, cause: s },
    }
}

/// An error among the first outcomes stays the result for every longer run.
proof fn lemma_placed_all_error(
    archive: Seq<char>,
    dest: Seq<char>,
    decoded: Seq<Decoded>,
    n: int,
    m: int,
)
    requires
        0 <= n <= m,
        placed_all(archive, dest, decoded, n) is Err,
    ensures
        placed_all(archive, dest, decoded, m) == placed_all(archive, dest, decoded, n),
    decreases m - n,
{
    if n < m {
        lemma_placed_all_error(archive, dest, decoded, n, m - 1);
    }
}

/// Unpacks a zip archive held in memory. `archive` is the path that the
/// content `bytes` was read from and is only reported in errors; `dest`
/// is the directory to unpack below. The entries are decoded in the order
/// of the archive's directory and each is placed as `place_entry` says.
/// The first failure to decode or to place an entry ends the run with
/// that error, and nothing is handed out to write.
pub fn unzip_to(archive: &str, bytes: Vec<u8>, dest: &str) -> (r: Result<Vec<Unpacked>, ExtractError>)
    ensures
        unzip_view(r) == unzipped(archive@, dest@, zip_listing(bytes@)),
        r is Ok ==> forall|i: int|
            0 <= i < r->Ok_0@.len() ==> stays_below((#[trigger] r->Ok_0@[i])@.path(), dest@),
{
    let mut opened = match open_archive(bytes) {
        Ok(a) => a,
        Err(e) => {
            return Err(decode_failure(archive, failure_of(e)));
        },
    };
    let ghost decoded = archive_entries(opened);
    let count = entry_count(&opened);
    let mut items: Vec<Unpacked> = Vec::new();
    let mut i: usize = 0;
    assert(unpacked_views(items@) =~= Seq::empty());
    while i < count
        invariant
            i <= count == decoded.len(),
            archive_entries(opened) == decoded,
            zip_listing(bytes@) == Ok::<Seq<Decoded>, ZipFailureView>(decoded),
            placed_all(archive@, dest@, decoded, i as int) == Ok::<
                Seq<UnpackedView>,
                ExtractErrorView,
            >(unpacked_views(items@)),
            forall|k: int| 0 <= k < items@.len() ==> stays_below((#[trigger] items@[k])@.path(), dest@),
        decreases count - i,
    {
        let ghost before = unpacked_views(items@);
        let failed: ExtractError = match read_entry(&mut opened, i) {
            Ok(entry) => match place_entry(archive, dest, entry) {
                Ok(item) => {
                    items.push(item);
                    assert(unpacked_views(items@) =~= before.push(item@));
                    i = i + 1;
                    continue ;
                },
                Err(e) => e,
            },
            Err(e) => decode_failure(archive, failure_of(e)),
        };
        proof {
            assert(placed_all(archive@, dest@, decoded, i + 1) == Err::<
                Seq<UnpackedView>,
                ExtractErrorView,
            >(failed@));
            lemma_placed_all_error(archive@, dest@, decoded, i + 1, decoded.len() as int);
        }
        return Err(failed);
    }
    Ok(items)
}

/// What the gzip decoder makes of a file with the content `bytes`: the
/// content of its first member, or the message of the error that ended
/// the decoding.
pub uninterp spec fn gunzipped(bytes: Seq<u8>) -> Result<Seq<u8>, Seq<char>>;

/// `flate2::read::GzDecoder::new` on `bytes`, read to its end: the decoded
/// first member of the gzip data, or the message of the decoder's error.
/// The outcome depends on the bytes alone, and is what `gunzipped` names.
#[verifier::external_body]
fn inflate(bytes: &Vec<u8>) -> (r: Result<Vec<u8>, String>)
    ensures
        match r {
            Ok(out) => gunzipped(bytes@) == Ok::<Seq<u8>, Seq<char>>(out@),
            Err(msg) => gunzipped(bytes@) == Err::<Seq<u8>, Seq<char>>(msg@),
        },
{
    let mut out = Vec::new();
    match flate2::read::GzDecoder::new(bytes.as_slice()).read_to_end(&mut out) {
        Ok(_) => Ok(out),
        Err(e) => Err(e.to_string()),
    }
}

/// What is handed to the caller to put below the destination.
#[derive(Debug, PartialEq, Eq)]
pub enum Payload {
    /// The decoded entries, each with the place it goes to.
    Entries(Vec<Unpacked>),
    /// A tar stream to unpack into the destination.
    TarStream(Vec<u8>),
    /// Nothing decoded yet: the archive file itself is to be decoded into
    /// the destination.
    Source,
}

/// A `Payload` with sequences in place of vectors.
pub enum PayloadView {
    Entries(Seq<UnpackedView>),
    TarStream(Seq<u8>),
    Source,
}

impl View for Payload {
    type V = PayloadView;

    open spec fn view(&self) -> PayloadView {
        match *self {
            Payload::Entries(items) => PayloadView::Entries(unpacked_views(items@)),
            Payload::TarStream(bytes) => PayloadView::TarStream(bytes@),
            Payload::Source => PayloadView::Source,
        }
    }
}

/// The plan for unpacking one archive: what kind it is, where it lies,
/// the directory to unpack into and whether to create it first, and what
/// to put there. After a successful run the archive file is removed; after
/// a failed one it stays where it is.
#[derive(Debug, PartialEq, Eq)]
pub struct Extraction {
    pub kind: ArchiveKind,
    pub archive: String,
    pub destination: String,
    pub create_destination: bool,
    pub payload: Payload,
}

/// An `Extraction` with texts in place of strings.
pub struct ExtractionView {
    pub kind: ArchiveKind,
    pub archive: Seq<char>,
    pub destination: Seq<char>,
    pub create_destination: bool,
    pub payload: PayloadView,
}

impl View for Extraction {
    type V = ExtractionView;

    open spec fn view(&self) -> ExtractionView {
        ExtractionView {
            kind: self.kind,
            archive: self.archive@,
            destination: self.destination@,
            create_destination: self.create_destination,
            payload: self.payload@,
        }
    }
}

/// The view of a planned extraction or of the error in its place.
pub open spec fn plan_view(r: Result<Extraction, ExtractError>) -> Result<
    ExtractionView,
    ExtractErrorView,
> {
    match r {
        Ok(plan) => Ok(plan@),
        Err(e) => Err(e@),
    }
}

/// A path without what does not count at its end: separators and the
/// segment `.`.
pub open spec fn without_trailing(path: Seq<char>) -> Seq<char>
    decreases path.len(),
{
    if path.len() > 0 && path.last() == '/' {
        without_trailing(path.drop_last())
    } else if path.len() >= 2 && path.last() == '.' && path[path.len() - 2] == '/' {
        without_trailing(path.subrange(0, path.len() - 2))
    } else {
        path
    }
}

/// The name of a submission directory: the last segment of its path that
/// is no `.` and not empty, unless that is `..` or there is none.
pub open spec fn owner_name(owner: Seq<char>) -> Option<Seq<char>> {
    let name = file_name_of(without_trailing(owner));
    if name.len() == 0 || name == seq!['.'] || name == seq!['.', '.'] {
        None
    } else {
        Some(name)
    }
}

fn trim_trailing(path: &Vec<char>) -> (out: Vec<char>)
    ensures
        out@ == without_trailing(path@),
{
    let mut n: usize = path.len();
    assert(path@.subrange(0, n as int) =~= path@);
    loop
        invariant
            n <= path.len(),
            without_trailing(path@) == without_trailing(path@.subrange(0, n as int)),
        ensures
            n <= path.len(),
            without_trailing(path@) == path@.subrange(0, n as int),
        decreases n,
    {
        let ghost head = path@.subrange(0, n as int);
        if n > 0 && path[n - 1] == '/' {
            assert(head.drop_last() =~= path@.subrange(0, n - 1));
            n = n - 1;
        } else if n >= 2 && path[n - 1] == '.' && path[n - 2] == '/' {
            assert(head.subrange(0, head.len() - 2) =~= path@.subrange(0, n - 2));
            n = n - 2;
        } else {
            break ;
        }
    }
    slice_of(path, 0, n)
}

fn owner_name_chars(owner: &str) -> (name: Option<Vec<char>>)
    ensures
        name is Some == owner_name(owner@) is Some,
        name is Some ==> name->0@ == owner_name(owner@)->0,
{
    let name = file_name_chars(&trim_trailing(&chars_of(owner)));
    let dot: Vec<char> = vec!['.'];
    let dots: Vec<char> = vec!['.', '.'];
    assert(dot@ =~= seq!['.']);
    assert(dots@ =~= seq!['.', '.']);
    if name.len() == 0 || same_text(&name, &dot) || same_text(&name, &dots) {
        None
    } else {
        Some(name)
    }
}

/// The error for a submission directory without a name.
pub open spec fn no_owner_error(archive: Seq<char>, owner: Seq<char>) -> ExtractErrorView {
    ExtractErrorView { archive, failure: ExtractFailure::NoOwnerName, cause: owner }
}

fn no_owner(archive: &str, owner: &str) -> (e: ExtractError)
    ensures
        e@ == no_owner_error(archive@, owner@),
{
    ExtractError {
        archive: string_of(&chars_of(archive)),
        failure: ExtractFailure::NoOwnerName,
        cause: string_of(&chars_of(owner)),
    }
}

/// What the zip strategy plans: the archive is unpacked below a directory
/// of the temp root that carries the name of the submission directory.
pub open spec fn zip_plan(
    tmp_dir: Seq<char>,
    owner: Seq<char>,
    archive: Seq<char>,
    listing: Result<Seq<Decoded>, ZipFailureView>,
) -> Result<ExtractionView, ExtractErrorView> {
    match owner_name(owner) {
        None => Err(no_owner_error(archive, owner)),
        Some(name) => match unzipped(archive, joined(tmp_dir, name), listing) {
            Err(e) => Err(e),
            Ok(items) => Ok(
                ExtractionView {
                    kind: ArchiveKind::Zip,
                    archive,
                    destination: joined(tmp_dir, name),
                    create_destination: true,
                    payload: PayloadView::Entries(items),
                },
            ),
        },
    }
}

/// The zip strategy. `content` is what the archive file holds. The
/// destination is the directory of the temp root named like the
/// submission directory; every entry is decoded and placed below it.
pub fn zip(tmp_dir: &str, student_name_dir_path: &str, archive_file_path: &str, content: Vec<u8>) -> (r:
    Result<Extraction, ExtractError>)
    ensures
        plan_view(r) == zip_plan(
            tmp_dir@,
            student_name_dir_path@,
            archive_file_path@,
            zip_listing(content@),
        ),
{
    let name = match owner_name_chars(student_name_dir_path) {
        Some(name) => name,
        None => {
            return Err(no_owner(archive_file_path, student_name_dir_path));
        },
    };
    let destination = string_of(&join_chars(&chars_of(tmp_dir), &name));
    match unzip_to(archive_file_path, content, destination.as_str()) {
        Ok(items) => Ok(
            Extraction {
                kind: ArchiveKind::Zip,
                archive: string_of(&chars_of(archive_file_path)),
                destination,
                create_destination: true,
                payload: Payload::Entries(items),
            },
        ),
        Err(e) => Err(e),
    }
}

/// What the rar strategy plans: the archive file is decoded into the
/// directory of the temp root that carries the name of the submission
/// directory, written with a `/` behind it.
pub open spec fn rar_plan(tmp_dir: Seq<char>, owner: Seq<char>, archive: Seq<char>) -> Result<
    ExtractionView,
    ExtractErrorView,
> {
    match owner_name(owner) {
        None => Err(no_owner_error(archive, owner)),
        Some(name) => Ok(
            ExtractionView {
                kind: ArchiveKind::Rar,
                archive,
                destination: joined(tmp_dir, name + seq!['/']),
                create_destination: true,
                payload: PayloadView::Source,
            },
        ),
    }
}

/// The rar strategy: names the destination; the caller decodes the
/// archive file entry by entry and asks `rar_entry` what to do with each.
pub fn rar(tmp_dir: &str, student_name_dir_path: &str, archive_file_path: &str) -> (r: Result<
    Extraction,
    ExtractError,
>)
    ensures
        plan_view(r) == rar_plan(tmp_dir@, student_name_dir_path@, archive_file_path@),
{
    let mut name = match owner_name_chars(student_name_dir_path) {
        Some(name) => name,
        None => {
            return Err(no_owner(archive_file_path, student_name_dir_path));
        },
    };
    let ghost bare = name@;
    name.push('/');
    assert(name@ =~= bare + seq!['/']);
    Ok(
        Extraction {
            kind: ArchiveKind::Rar,
            archive: string_of(&chars_of(archive_file_path)),
            destination: string_of(&join_chars(&chars_of(tmp_dir), &name)),
            create_destination: true,
            payload: Payload::Source,
        },
    )
}

/// What to do with one entry of a rar archive: create the directory at
/// `path`, or unpack the entry's content to the file at `path`.
#[derive(Clone, Debug, PartialEq, Eq)]
pub enum RarStep {
    CreateDirectory { path: String },
    UnpackFile { path: String },
}

/// A `RarStep` with its path as text.
pub enum RarStepView {
    CreateDirectory { path: Seq<char> },
    UnpackFile { path: Seq<char> },
}

impl View for RarStep {
    type V = RarStepView;

    open spec fn view(&self) -> RarStepView {
        match *self {
            RarStep::CreateDirectory { path } => RarStepView::CreateDirectory { path: path@ },
            RarStep::UnpackFile { path } => RarStepView::UnpackFile { path: path@ },
        }
    }
}

impl RarStepView {
    /// Where the entry goes.
    pub open spec fn path(self) -> Seq<char> {
        match self {
            RarStepView::CreateDirectory { path } => path,
            RarStepView::UnpackFile { path } => path,
        }
    }
}

/// What becomes of one entry of a rar archive. An entry whose name does
/// not stay below the destination is refused, a directory entry as much
/// as a file entry. Any other directory entry is a directory to create at
/// its place below the destination, any other file entry a file to unpack
/// to its place there.
pub open spec fn rar_target(
    archive: Seq<char>,
    dest: Seq<char>,
    file_name: Seq<char>,
    is_file: bool,
) -> Result<RarStepView, ExtractErrorView> {
    if !is_contained(file_name) {
        Err(traversal_error(archive, file_name))
    } else if is_file {
        Ok(RarStepView::UnpackFile { path: joined(dest, file_name) })
    } else {
        Ok(RarStepView::CreateDirectory { path: joined(dest, file_name) })
    }
}

/// Decides what to do with one entry of a rar archive that is unpacked
/// below `dest`: `file_name` is the entry's name, `is_file` says whether
/// it holds content or stands for a directory.
pub fn rar_entry(archive: &str, dest: &str, file_name: &str, is_file: bool) -> (r: Result<
    RarStep,
    ExtractError,
>)
    ensures
        match r {
            Ok(step) => rar_target(archive@, dest@, file_name@, is_file) == Ok::<
                RarStepView,
                ExtractErrorView,
            >(step@) && step@.path() == joined(dest@, file_name@) && stays_below(
                step@.path(),
                dest@,
            ),
            Err(e) => rar_target(archive@, dest@, file_name@, is_file) == Err::<
                RarStepView,
                ExtractErrorView,
            >(e@),
        },
{
    if !contained(file_name) {
        return Err(
            ExtractError {
                archive: string_of(&chars_of(archive)),
                failure: ExtractFailure::PathTraversal,
                cause: string_of(&chars_of(file_name)),
            },
        );
    }
    let path = join(dest, file_name);
    if is_file {
        Ok(RarStep::UnpackFile { path })
    } else {
        Ok(RarStep::CreateDirectory { path })
    }
}

/// The plan of a strategy that decodes the archive file itself into the
/// submission directory.
pub open spec fn in_place_plan(kind: ArchiveKind, owner: Seq<char>, archive: Seq<char>) -> ExtractionView {
    ExtractionView {
        kind,
        archive,
        destination: owner,
        create_destination: false,
        payload: PayloadView::Source,
    }
}

fn in_place(kind: ArchiveKind, owner: &str, archive: &str) -> (plan: Extraction)
    ensures
        plan@ == in_place_plan(kind, owner@, archive@),
{
    Extraction {
        kind,
        archive: string_of(&chars_of(archive)),
        destination: string_of(&chars_of(owner)),
        create_destination: false,
        payload: Payload::Source,
    }
}

/// The 7z strategy: the archive file is decoded into the submission
/// directory itself. The temp root plays no part.
pub fn sz(_tmp_dir: &str, student_name_dir_path: &str, archive_file_path: &str) -> (plan: Extraction)
    ensures
        plan@ == in_place_plan(ArchiveKind::SevenZip, student_name_dir_path@, archive_file_path@),
{
    in_place(ArchiveKind::SevenZip, student_name_dir_path, archive_file_path)
}

/// What the tar decoder lists for a stream with the content `bytes`: the
/// paths of its entries in order, or the message of the error that ended
/// the listing.
pub uninterp spec fn tar_listing(bytes: Seq<u8>) -> Result<Seq<Seq<char>>, Seq<char>>;

/// `tar::Archive::new` on a cursor over `stream`, its `entries` walked to
/// the end, and of each entry `path`: the paths of the entries in the
/// order of the stream, or the message of the first error of the
/// decoder. The outcome depends on the bytes alone, and is what
/// `tar_listing` names.
#[verifier::external_body]
fn tar_names(stream: &Vec<u8>) -> (r: Result<Vec<String>, String>)
    ensures
        match r {
            Ok(names) => tar_listing(stream@) == Ok::<Seq<Seq<char>>, Seq<char>>(texts(names@)),
            Err(msg) => tar_listing(stream@) == Err::<Seq<Seq<char>>, Seq<char>>(msg@),
        },
{
    let mut archive = tar::Archive::new(std::io::Cursor::new(stream.as_slice()));
    let entries = archive.entries().map_err(|e| e.to_string())?;
    entries.map(|entry| Ok(entry?.path()?.to_string_lossy().into_owned())).collect::<
        std::io::Result<Vec<String>>,
    >().map_err(|e| e.to_string())
}

/// The first of the first `n` names that does not stay below the
/// directory it is unpacked into, if there is one.
pub open spec fn first_escape(names: Seq<Seq<char>>, n: int) -> Option<Seq<char>>
    decreases n,
{
    if n <= 0 {
        None
    } else {
        match first_escape(names, n - 1) {
            Some(name) => Some(name),
            None => if is_contained(names[n - 1]) {
                None
            } else {
                Some(names[n - 1])
            },
        }
    }
}

/// An escape among the first names stays the first one for every longer
/// run.
proof fn lemma_first_escape_stays(names: Seq<Seq<char>>, n: int, m: int)
    requires
        0 <= n <= m,
        first_escape(names, n) is Some,
    ensures
        first_escape(names, m) == first_escape(names, n),
    decreases m - n,
{
    if n < m {
        lemma_first_escape_stays(names, n, m - 1);
    }
}

/// Without an escape among them, each of the first names stays below.
pub proof fn lemma_no_escape(names: Seq<Seq<char>>, n: int)
    requires
        0 <= n <= names.len(),
        first_escape(names, n) is None,
    ensures
        forall|i: int| 0 <= i < n ==> is_contained(#[trigger] names[i]),
    decreases n,
{
    if n > 0 {
        lemma_no_escape(names, n - 1);
    }
}

/// What is planned for a tar stream of `kind`, given what the tar decoder
/// lists for it: a stream that cannot be listed is a corrupt archive, one
/// with an entry that leaves the submission directory is refused as a
/// path traversal, and any other is unpacked into the submission
/// directory itself.
pub open spec fn tar_plan(
    kind: ArchiveKind,
    owner: Seq<char>,
    archive: Seq<char>,
    stream: Seq<u8>,
    listing: Result<Seq<Seq<char>>, Seq<char>>,
) -> Result<ExtractionView, ExtractErrorView> {
    match listing {
        Err(cause) => Err(ExtractErrorView { archive, failure: ExtractFailure::Corrupt, cause }),
        Ok(names) => match first_escape(names, names.len() as int) {
            Some(name) => Err(traversal_error(archive, name)),
            None => Ok(
                ExtractionView {
                    kind,
                    archive,
                    destination: owner,
                    create_destination: false,
                    payload: PayloadView::TarStream(stream),
                },
            ),
        },
    }
}

/// The view of what the tar decoder listed.
pub open spec fn listing_view(listing: Result<Vec<String>, String>) -> Result<
    Seq<Seq<char>>,
    Seq<char>,
> {
    match listing {
        Ok(names) => Ok(texts(names@)),
        Err(msg) => Err(msg@),
    }
}

/// Plans the unpacking of a tar stream from what the tar decoder listed
/// for it. Every entry has to stay below the submission directory: the
/// first one that does not fails the plan.
pub fn tar_stream_plan(
    kind: ArchiveKind,
    student_name_dir_path: &str,
    archive_file_path: &str,
    stream: Vec<u8>,
    listing: Result<Vec<String>, String>,
) -> (r: Result<Extraction, ExtractError>)
    ensures
        plan_view(r) == tar_plan(
            kind,
            student_name_dir_path@,
            archive_file_path@,
            stream@,
            listing_view(listing),
        ),
        r is Ok ==> listing is Ok && forall|i: int|
            0 <= i < listing->Ok_0@.len() ==> stays_below(
                joined(student_name_dir_path@, #[trigger] listing->Ok_0@[i]@),
                student_name_dir_path@,
            ),
{
    let names = match listing {
        Ok(names) => names,
        Err(cause) => {
            return Err(
                ExtractError {
                    archive: string_of(&chars_of(archive_file_path)),
                    failure: ExtractFailure::Corrupt,
                    cause,
                },
            );
        },
    };
    let ghost all = texts(names@);
    let mut i: usize = 0;
    while i < names.len()
        invariant
            i <= names.len(),
            all == texts(names@),
            listing == Ok::<Vec<String>, String>(names),
            first_escape(all, i as int) is None,
        decreases names.len() - i,
    {
        assert(all[i as int] == names@[i as int]@);
        if !contained(names[i].as_str()) {
            proof {
                assert(first_escape(all, i + 1) == Some(all[i as int]));
                lemma_first_escape_stays(all, i + 1, all.len() as int);
            }
            return Err(
                ExtractError {
                    archive: string_of(&chars_of(archive_file_path)),
                    failure: ExtractFailure::PathTraversal,
                    cause: names[i].clone(),
                },
            );
        }
        i = i + 1;
    }
    proof {
        lemma_no_escape(all, all.len() as int);
        assert forall|k: int| 0 <= k < names@.len() implies stays_below(
            joined(student_name_dir_path@, #[trigger] names@[k]@),
            student_name_dir_path@,
        ) by {
            assert(all[k] == names@[k]@);
            assert(is_contained(all[k]));
        }
    }
    Ok(
        Extraction {
            kind,
            archive: string_of(&chars_of(archive_file_path)),
            destination: string_of(&chars_of(student_name_dir_path)),
            create_destination: false,
            payload: Payload::TarStream(stream),
        },
    )
}

/// The tar strategy. `content` is what the archive file holds. Its
/// entries are listed and held to the submission directory; the stream is
/// then unpacked into that directory itself. The temp root plays no part.
pub fn tar(_tmp_dir: &str, student_name_dir_path: &str, archive_file_path: &str, content: Vec<u8>) -> (r:
    Result<Extraction, ExtractError>)
    ensures
        plan_view(r) == tar_plan(
            ArchiveKind::Tar,
            student_name_dir_path@,
            archive_file_path@,
            content@,
            tar_listing(content@),
        ),
{
    let listing = tar_names(&content);
    tar_stream_plan(ArchiveKind::Tar, student_name_dir_path, archive_file_path, content, listing)
}

/// What the strategy for gzipped tar archives plans, given what the gzip
/// decoder makes of the archive's content: data that is no gzip data is a
/// corrupt archive, and the decoded stream is planned as a tar stream.
pub open spec fn gz_plan(owner: Seq<char>, archive: Seq<char>, decoded: Result<Seq<u8>, Seq<char>>) -> Result<
    ExtractionView,
    ExtractErrorView,
> {
    match decoded {
        Err(cause) => Err(ExtractErrorView { archive, failure: ExtractFailure::Corrupt, cause }),
        Ok(stream) => tar_plan(ArchiveKind::TarGz, owner, archive, stream, tar_listing(stream)),
    }
}

/// Plans the unpacking of a gzipped tar archive from what the gzip
/// decoder gave for it.
pub fn gz_decoded(student_name_dir_path: &str, archive_file_path: &str, decoded: Result<Vec<u8>, String>) -> (r:
    Result<Extraction, ExtractError>)
    ensures
        plan_view(r) == gz_plan(
            student_name_dir_path@,
            archive_file_path@,
            match decoded {
                Ok(stream) => Ok(stream@),
                Err(cause) => Err(cause@),
            },
        ),
{
    match decoded {
        Ok(stream) => {
            let listing = tar_names(&stream);
            tar_stream_plan(
                ArchiveKind::TarGz,
                student_name_dir_path,
                archive_file_path,
                stream,
                listing,
            )
        },
        Err(cause) => Err(
            ExtractError {
                archive: string_of(&chars_of(archive_file_path)),
                failure: ExtractFailure::Corrupt,
                cause,
            },
        ),
    }
}

/// The strategy for gzipped tar archives. `content` is what the archive
/// file holds; every file that ends in `.gz` is taken for one. The temp
/// root plays no part.
pub fn gz(_tmp_dir: &str, student_name_dir_path: &str, archive_file_path: &str, content: &Vec<u8>) -> (r:
    Result<Extraction, ExtractError>)
    ensures
        plan_view(r) == gz_plan(student_name_dir_path@, archive_file_path@, gunzipped(content@)),
{
    gz_decoded(student_name_dir_path, archive_file_path, inflate(content))
}

/// Whether the strategy of `kind` decodes the content of the archive in
/// memory, so that the caller has to read the file for it.
pub fn wants_content(kind: ArchiveKind) -> (r: bool)
    ensures
        r == (kind == ArchiveKind::Zip || kind == ArchiveKind::Tar || kind == ArchiveKind::TarGz),
{
    match kind {
        ArchiveKind::Zip => true,
        ArchiveKind::Tar => true,
        ArchiveKind::TarGz => true,
        _ => false,
    }
}

/// The plan of the strategy of `kind`.
pub open spec fn extraction_plan(
    kind: ArchiveKind,
    tmp_dir: Seq<char>,
    owner: Seq<char>,
    archive: Seq<char>,
    content: Seq<u8>,
) -> Result<ExtractionView, ExtractErrorView> {
    match kind {
        ArchiveKind::Zip => zip_plan(tmp_dir, owner, archive, zip_listing(content)),
        ArchiveKind::Rar => rar_plan(tmp_dir, owner, archive),
        ArchiveKind::SevenZip => Ok(in_place_plan(ArchiveKind::SevenZip, owner, archive)),
        ArchiveKind::Tar => tar_plan(ArchiveKind::Tar, owner, archive, content, tar_listing(content)),
        _ => gz_plan(owner, archive, gunzipped(content)),
    }
}

/// Applies the strategy of `kind` to one archive. `content` is what the
/// archive file holds where `wants_content` asks for it, and is not looked
/// at otherwise.
pub fn extract(kind: ArchiveKind, tmp_dir: &str, owner: &str, archive: &str, content: Vec<u8>) -> (r:
    Result<Extraction, ExtractError>)
    requires
        kind != ArchiveKind::NotArchive,
    ensures
        plan_view(r) == extraction_plan(kind, tmp_dir@, owner@, archive@, content@),
{
    match kind {
        ArchiveKind::Zip => zip(tmp_dir, owner, archive, content),
        ArchiveKind::Rar => rar(tmp_dir, owner, archive),
        ArchiveKind::SevenZip => Ok(sz(tmp_dir, owner, archive)),
        ArchiveKind::Tar => tar(tmp_dir, owner, archive, content),
        _ => gz(tmp_dir, owner, archive, &content),
    }
}

/// Ends one extraction. `failure` is `None` where everything was put in
/// place, else the kind and cause of what went wrong. After a success the
/// archive file is handed back for removal; after a failure it stays in
/// place and the error names it.
pub fn conclude(archive: &str, failure: Option<(ExtractFailure, String)>) -> (r: Result<
    String,
    ExtractError,
>)
    ensures
        match failure {
            None => r is Ok && r->Ok_0@ == archive@,
            Some(f) => r is Err && r->Err_0@ == (ExtractErrorView {
                archive: archive@,
                failure: f.0,
                cause: f.1@,
            }),
        },
{
    match failure {
        None => Ok(string_of(&chars_of(archive))),
        Some(f) => Err(
            ExtractError { archive: string_of(&chars_of(archive)), failure: f.0, cause: f.1 },
        ),
    }
}

} // verus!
