use crate::text::text_of;
use std::io::Read;
use vstd::prelude::*;

verus! {

/// `std::io::Cursor`, carried as a value that nothing here looks into.
#[verifier::external_type_specification]
#[verifier::external_body]
#[verifier::reject_recursive_types(T)]
pub struct ExCursor<T>(std::io::Cursor<T>);

/// `zip::ZipArchive`, an opened archive. Contracts speak of what it holds
/// through `archive_entries`.
#[verifier::external_type_specification]
#[verifier::external_body]
#[verifier::reject_recursive_types(R)]
pub struct ExZipArchive<R>(zip::ZipArchive<R>);

/// `zip::result::ZipError`, the decoder's error. Contracts speak of it
/// through `failure_view`.
#[verifier::external_type_specification]
#[verifier::external_body]
pub struct ExZipError(zip::result::ZipError);

/// Why the zip decoder gave up.
#[derive(Clone, Debug, PartialEq, Eq)]
pub enum ZipFailure {
    Io(String),
    InvalidArchive(String),
    UnsupportedArchive(String),
    FileNotFound,
    InvalidPassword,
    CompressionMethodNotSupported(u16),
    Other(String),
}

/// A `ZipFailure` with texts in place of strings.
pub enum ZipFailureView {
    Io(Seq<char>),
    InvalidArchive(Seq<char>),
    UnsupportedArchive(Seq<char>),
    FileNotFound,
    InvalidPassword,
    CompressionMethodNotSupported(u16),
    Other(Seq<char>),
}

impl View for ZipFailure {
    type V = ZipFailureView;

    open spec fn view(&self) -> ZipFailureView {
        match *self {
            ZipFailure::Io(s) => ZipFailureView::Io(s@),
            ZipFailure::InvalidArchive(s) => ZipFailureView::InvalidArchive(s@),
            ZipFailure::UnsupportedArchive(s) => ZipFailureView::UnsupportedArchive(s@),
            ZipFailure::FileNotFound => ZipFailureView::FileNotFound,
            ZipFailure::InvalidPassword => ZipFailureView::InvalidPassword,
            ZipFailure::CompressionMethodNotSupported(m) => {
                ZipFailureView::CompressionMethodNotSupported(m)
            },
            ZipFailure::Other(s) => ZipFailureView::Other(s@),
        }
    }
}

/// One decoded entry of a zip archive: its name as stored, the name made
/// safe to use below a destination (none where it cannot be), whether it
/// stands for a directory, and its content.
#[derive(Clone, Debug, PartialEq, Eq)]
pub struct ZipEntry {
    pub name: Option<String>,
    pub enclosed: Option<String>,
    pub is_dir: bool,
    pub data: Vec<u8>,
}

/// A `ZipEntry` with texts and bytes as sequences.
pub struct ZipEntryView {
    pub name: Option<Seq<char>>,
    pub enclosed: Option<Seq<char>>,
    pub is_dir: bool,
    pub data: Seq<u8>,
}

impl View for ZipEntry {
    type V = ZipEntryView;

    open spec fn view(&self) -> ZipEntryView {
        ZipEntryView {
            name: text_of(self.name),
            enclosed: text_of(self.enclosed),
            is_dir: self.is_dir,
            data: self.data@,
        }
    }
}

/// What decoding one entry gives: the entry, or why it could not be had.
pub type Decoded = Result<ZipEntryView, ZipFailureView>;

/// What the zip decoder makes of a file with the content `bytes`: why it is
/// no archive that it can open, or what decoding each of its entries gives,
/// in the order of the archive's directory.
pub uninterp spec fn zip_listing(bytes: Seq<u8>) -> Result<Seq<Decoded>, ZipFailureView>;

/// What decoding each entry of an opened archive gives, in the order of the
/// archive's directory.
pub uninterp spec fn archive_entries(archive: zip::ZipArchive<std::io::Cursor<Vec<u8>>>) -> Seq<
    Decoded,
>;

/// What a decoder error stands for, as a plain value.
pub uninterp spec fn failure_view(e: zip::result::ZipError) -> ZipFailureView;

/// Tells the variants of `zip::result::ZipError` apart and hands each on
/// with what it carries: the message of an I/O error and the texts of an
/// invalid or unsupported archive as strings, the compression method as a
/// number, and of a variant that this list does not know its message.
#[verifier::external_body]
pub(crate) fn failure_of(e: zip::result::ZipError) -> (f: ZipFailure)
    ensures
        f@ == failure_view(e),
{
    match e {
        zip::result::ZipError::Io(e) => ZipFailure::Io(e.to_string()),
        zip::result::ZipError::InvalidArchive(s) => ZipFailure::InvalidArchive(s.into_owned()),
        zip::result::ZipError::UnsupportedArchive(s) => ZipFailure::UnsupportedArchive(s.into()),
        zip::result::ZipError::FileNotFound => ZipFailure::FileNotFound,
        zip::result::ZipError::InvalidPassword => ZipFailure::InvalidPassword,
        zip::result::ZipError::CompressionMethodNotSupported(m) => {
            ZipFailure::CompressionMethodNotSupported(m)
        },
        other => ZipFailure::Other(other.to_string()),
    }
}

/// `zip::ZipArchive::new` on a cursor over `bytes`: reads the archive's
/// directory. What it gives depends on the bytes alone, and is what
/// `zip_listing` names.
#[verifier::external_body]
pub(crate) fn open_archive(bytes: Vec<u8>) -> (r: Result<
    zip::ZipArchive<std::io::Cursor<Vec<u8>>>,
    zip::result::ZipError,
>)
    ensures
        match r {
            Ok(archive) => zip_listing(bytes@) == Ok::<Seq<Decoded>, ZipFailureView>(
                archive_entries(archive),
            ),
            Err(e) => zip_listing(bytes@) == Err::<Seq<Decoded>, ZipFailureView>(failure_view(e)),
        },
{
    zip::ZipArchive::new(std::io::Cursor::new(bytes))
}

/// `zip::ZipArchive::len`: the number of entries in the archive's directory.
#[verifier::external_body]
pub(crate) fn entry_count(archive: &zip::ZipArchive<std::io::Cursor<Vec<u8>>>) -> (n: usize)
    ensures
        n == archive_entries(*archive).len(),
{
    archive.len()
}

/// `zip::ZipArchive::by_index`, and of the entry it gives `name`,
/// `enclosed_name`, `is_dir` and all that reading it yields. The archive
/// holds afterwards what it held before; for an index below the number of
/// entries the result is what `archive_entries` names at that place.
#[verifier::external_body]
pub(crate) fn read_entry(archive: &mut zip::ZipArchive<std::io::Cursor<Vec<u8>>>, index: usize) -> (r: Result<
    ZipEntry,
    zip::result::ZipError,
>)
    ensures
        archive_entries(*final(archive)) == archive_entries(*old(archive)),
        index < archive_entries(*old(archive)).len() ==> match r {
            Ok(entry) => archive_entries(*old(archive))[index as int] == Ok::<
                ZipEntryView,
                ZipFailureView,
            >(entry@),
            Err(e) => archive_entries(*old(archive))[index as int] == Err::<
                ZipEntryView,
                ZipFailureView,
            >(failure_view(e)),
        },
{
    let mut file = archive.by_index(index)?;
    let mut data = Vec::new();
    file.read_to_end(&mut data)?;
    Ok(ZipEntry {
        name: file.name().ok().map(|n| n.into_owned()),
        enclosed: file.enclosed_name().map(|p| p.to_string_lossy().into_owned()),
        is_dir: file.is_dir(),
        data,
    })
}

} // verus!
