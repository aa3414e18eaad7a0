//! Packing the pages of a comic folder into a `.cbz` archive: a ZIP file
//! whose entries are stored without compression, one per page, in order.
use std::io::Write;
use vstd::prelude::*;

verus! {

#[verifier::external_type_specification]
#[verifier::external_body]
pub struct ExZipError(zip::result::ZipError);

#[verifier::external_type_specification]
#[verifier::external_body]
pub struct ExIoError(std::io::Error);

/// The in-memory `zip::ZipWriter` that an archive is built in. Verus does
/// not take a declaration of `ZipWriter` itself, whose parameter is bound by
/// `std::io::Write` and `std::io::Seek`, so the writer is held out of its
/// sight here.
#[verifier::external_body]
pub struct ArchiveWriter {
    inner: zip::ZipWriter<std::io::Cursor<Vec<u8>>>,
}

/// The entries that a writer holds so far, each a name and its data, in the
/// order they were started.
pub uninterp spec fn zip_entries(w: ArchiveWriter) -> Seq<(Seq<char>, Seq<u8>)>;

/// Whether a writer is still open: neither finished, nor closed by a write
/// that took an entry past the size that needs the ZIP64 large-file option.
pub uninterp spec fn zip_open(w: ArchiveWriter) -> bool;

/// The bytes of a finished ZIP archive that holds these entries, each
/// stored without compression.
pub uninterp spec fn stored_zip(entries: Seq<(Seq<char>, Seq<u8>)>) -> Seq<u8>;

/// Relies on `zip::ZipWriter::new` over an empty in-memory buffer: the
/// writer starts open, with no entries.
#[verifier::external_body]
fn new_archive() -> (w: ArchiveWriter)
    ensures
        zip_entries(w) == Seq::<(Seq<char>, Seq<u8>)>::empty(),
        zip_open(w),
{
    ArchiveWriter { inner: zip::ZipWriter::new(std::io::Cursor::new(Vec::new())) }
}

/// Relies on `zip::ZipWriter::start_file` with the stored method and the
/// default (1980-01-01) modification time: on success a new, empty entry of
/// that name follows the earlier ones. On an open writer it succeeds, since
/// an open writer's current entry is within the size that needs no ZIP64
/// option, and the in-memory buffer takes every write and seek.
#[verifier::external_body]
fn start_stored_entry(w: &mut ArchiveWriter, name: &str) -> (r: Result<(), zip::result::ZipError>)
    ensures
        r is Ok ==> zip_entries(*final(w)) == zip_entries(*old(w)).push((name@, Seq::empty())),
        zip_open(*old(w)) ==> r is Ok && zip_open(*final(w)),
{
    let options = zip::write::FileOptions::default().compression_method(
        zip::CompressionMethod::Stored,
    ).last_modified_time(zip::DateTime::default());
    w.inner.start_file(name, options)
}

/// Relies on `std::io::Write::write_all` on a `zip::ZipWriter`: on success,
/// where an entry has been started, the data is appended to the entry
/// started last. On an open writer with an entry started, it succeeds as
/// long as that entry stays within `u32::MAX` bytes (the threshold past
/// which `write` asks for the ZIP64 large-file option).
#[verifier::external_body]
fn write_entry_data(w: &mut ArchiveWriter, data: &[u8]) -> (r: Result<(), std::io::Error>)
    ensures
        ({
            let old_entries = zip_entries(*old(w));
            let last = old_entries.last();
            r is Ok && old_entries.len() > 0 ==> zip_entries(*final(w)) == old_entries.update(
                old_entries.len() - 1,
                (last.0, last.1 + data@),
            )
        }),
        ({
            let old_entries = zip_entries(*old(w));
            zip_open(*old(w)) && old_entries.len() > 0 && old_entries.last().1.len() + data@.len()
                <= 0xFFFF_FFFF ==> r is Ok && zip_open(*final(w))
        }),
{
    w.inner.write_all(data)
}

/// Relies on `zip::ZipWriter::finish`: on success the buffer holds the
/// finished archive of the writer's entries. On an open writer it succeeds.
#[verifier::external_body]
fn finish_archive(w: &mut ArchiveWriter) -> (r: Result<Vec<u8>, zip::result::ZipError>)
    ensures
        r matches Ok(b) ==> b@ == stored_zip(zip_entries(*old(w))),
        zip_open(*old(w)) ==> r is Ok,
{
    w.inner.finish().map(|c| c.into_inner())
}

/// One page of a comic: the file's base name and its content.
#[derive(Clone, Debug)]
pub struct Page {
    pub name: String,
    pub data: Vec<u8>,
}

/// A finished archive: its file name and its bytes.
#[derive(Clone, Debug)]
pub struct CbzFile {
    pub name: String,
    pub bytes: Vec<u8>,
}

/// The step at which building an archive failed.
#[derive(Clone, Copy, Debug, PartialEq, Eq, Structural)]
pub enum ArchiveError {
    /// The entry for the page at this index could not be started.
    StartEntry { index: usize },
    /// The content of the page at this index could not be written.
    WriteData { index: usize },
    /// The archive could not be finished.
    Finish,
}

/// The entries of an archive of these pages: one per page, named by the
/// page's name and holding its content, in page order.
pub open spec fn page_entries(pages: Seq<Page>) -> Seq<(Seq<char>, Seq<u8>)> {
    pages.map_values(|p: Page| (p.name@, p.data@))
}

/// Whether every page fits in a plain (not ZIP64) entry: at most
/// `u32::MAX` bytes.
pub open spec fn pages_fit(pages: Seq<Page>) -> bool {
    forall|i: int| 0 <= i < pages.len() ==> (#[trigger] pages[i]).data@.len() <= 0xFFFF_FFFF
}

/// The file name of a folder's archive.
pub open spec fn cbz_name(folder_name: Seq<char>) -> Seq<char> {
    folder_name + ".cbz"@
}

/// The archive of a comic folder: named `<folder_name>.cbz`, holding one
/// stored entry per page, in page order. It is built whenever every page
/// fits in a plain entry.
pub fn create_cbz_file(pages: &Vec<Page>, folder_name: &str) -> (r: Result<CbzFile, ArchiveError>)
    ensures
        pages_fit(pages@) ==> r is Ok,
        r matches Ok(c) ==> c.name@ == cbz_name(folder_name@) && c.bytes@ == stored_zip(
            page_entries(pages@),
        ),
        r matches Err(ArchiveError::StartEntry { index }) ==> index < pages@.len(),
        r matches Err(ArchiveError::WriteData { index }) ==> index < pages@.len(),
{
    let mut w = new_archive();
    let mut i: usize = 0;
    while i < pages.len()
        invariant
            i <= pages@.len(),
            zip_entries(w) == page_entries(pages@.take(i as int)),
            pages_fit(pages@) ==> zip_open(w),
        decreases pages@.len() - i,
    {
        let page = &pages[i];
        assert(pages_fit(pages@) ==> page.data@.len() <= 0xFFFF_FFFF);
        match start_stored_entry(&mut w, page.name.as_str()) {
            Ok(()) => {},
            Err(_) => {
                return Err(ArchiveError::StartEntry { index: i });
            },
        }
        match write_entry_data(&mut w, page.data.as_slice()) {
            Ok(()) => {},
            Err(_) => {
                return Err(ArchiveError::WriteData { index: i });
            },
        }
        assert(Seq::<u8>::empty() + page.data@ == page.data@);
        assert(page_entries(pages@.take(i + 1)) == page_entries(pages@.take(i as int)).push(
            (page.name@, page.data@),
        ));
        i = i + 1;
    }
    assert(pages@.take(i as int) == pages@);
    let bytes = match finish_archive(&mut w) {
        Ok(b) => b,
        Err(_) => {
            return Err(ArchiveError::Finish);
        },
    };
    let name = String::from_str(folder_name).concat(".cbz");
    Ok(CbzFile { name, bytes })
}

/// An archive of `n` pages holds exactly `n` entries, the `i`-th named by
/// the `i`-th page's name and holding that page's content.
pub proof fn lemma_archive_lists_each_page(pages: Seq<Page>)
    ensures
        page_entries(pages).len() == pages.len(),
        forall|i: int|
            0 <= i < pages.len() ==> #[trigger] page_entries(pages)[i] == (
            pages[i].name@,
            pages[i].data@,
        ),
{
}

} // verus!
