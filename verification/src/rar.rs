//! Rar-backed archives (rar, cbr).
//!
//! The rar library reads from the filesystem, so what its calls return
//! depends on the file on disk and is not pinned by any contract; the
//! trusted wrappers here only move data across. Everything that decides —
//! which entries are pages, their order, the selected page, the checksum —
//! is a verified function of the listing the library handed back.
//!
//! The library opens paths through a C string, so a path holding a NUL
//! character is rejected up front as an unopenable archive. Rar archives
//! are inspected in place and never converted to another container:
//! `LibraryOptions::convert_rar_to_zip` is carried for callers, but no
//! converter is part of this library.

use vstd::prelude::*;
use crate::checksum::spec_sample_digest;
use crate::comic_info::{opt_view, spec_comic_metadata, MediaMetadata};
use crate::error::ProcessFileError;
use crate::media_file::{
    is_image_name, spec_is_image_name, IsImage, LibraryOptions, ProcessedMediaFile,
};
use crate::strutil::{has_nul, lex_leq, spec_has_nul, str_eq, views_of};

verus! {

/// One entry of a rar archive, as listed by the archive library.
#[derive(Debug, Clone, PartialEq, Eq)]
pub struct RarEntry {
    pub filename: String,
    pub is_file: bool,
}

impl IsImage for RarEntry {
    /// A rar entry is an image when it is a file with an image name.
    open spec fn spec_is_image(&self) -> bool {
        self.is_file && spec_is_image_name(self.filename@)
    }

    fn is_image(&self) -> (r: bool) {
        self.is_file && is_image_name(self.filename.as_str())
    }
}

/// [`RarEntry::spec_is_image`] as a predicate value, for filtering.
pub open spec fn rar_image_pred() -> spec_fn(RarEntry) -> bool {
    |e: RarEntry| e.is_file && spec_is_image_name(e.filename@)
}

/// The names of an entry list's image entries, in listing order.
pub open spec fn spec_rar_image_names(entries: Seq<RarEntry>) -> Seq<Seq<char>> {
    entries.filter(rar_image_pred()).map_values(|e: RarEntry| e.filename@)
}

/// Relies on unrar::Archive::open_for_listing and its header iterator: the
/// entries of the archive at this path. What comes back depends on the file
/// on disk, so nothing is claimed of it. The library turns the path into a
/// C string and panics on an embedded NUL, so such paths are excluded.
#[verifier::external_body]
fn rar_list(path: &str) -> (r: Result<Vec<RarEntry>, ()>)
    requires
        !spec_has_nul(path@),
{
    let archive = unrar::Archive::new(&path).open_for_listing().map_err(|_| ())?;
    archive.map(|header| {
        header.map(|h| RarEntry {
            filename: h.filename.to_string_lossy().into_owned(),
            is_file: h.is_file(),
        }).map_err(|_| ())
    }).collect()
}

/// A rar archive opened for sequential entry reading.
#[verifier::external_body]
pub struct RarReader {
    before_header: Option<unrar::OpenArchive<unrar::Process, unrar::CursorBeforeHeader>>,
    before_file: Option<unrar::OpenArchive<unrar::Process, unrar::CursorBeforeFile>>,
}

impl RarReader {
    /// Relies on unrar::Archive::open_for_processing: opens the archive at
    /// this path for reading entry data. The library turns the path into a
    /// C string and panics on an embedded NUL, so such paths are excluded.
    #[verifier::external_body]
    pub fn open(path: &str) -> (r: Result<RarReader, ()>)
        requires
            !spec_has_nul(path@),
    {
        match unrar::Archive::new(&path).open_for_processing() {
            Ok(a) => Ok(RarReader { before_header: Some(a), before_file: None }),
            Err(_) => Err(()),
        }
    }

    /// Relies on unrar's read_header and skip: steps the cursor to the next
    /// entry and returns its header, or nothing at the archive's end.
    #[verifier::external_body]
    pub fn next_entry(&mut self) -> (r: Result<Option<RarEntry>, ()>)
    {
        if let Some(cursor) = self.before_file.take() {
            self.before_header = Some(cursor.skip().map_err(|_| ())?);
        }
        match self.before_header.take().ok_or(())?.read_header().map_err(|_| ())? {
            Some(cursor) => {
                let e = cursor.entry();
                let filename = e.filename.to_string_lossy().into_owned();
                let entry = RarEntry { filename, is_file: e.is_file() };
                self.before_file = Some(cursor);
                Ok(Some(entry))
            },
            None => Ok(None),
        }
    }

    /// Relies on unrar's read: the data of the entry whose header was just
    /// returned.
    #[verifier::external_body]
    pub fn read_data(&mut self) -> (r: Result<Vec<u8>, ()>)
    {
        let cursor = self.before_file.take().ok_or(())?;
        let (bytes, rest) = cursor.read().map_err(|_| ())?;
        self.before_header = Some(rest);
        Ok(bytes)
    }
}

/// Names of the image entries of a listing, in listing order.
pub fn rar_image_names(entries: &Vec<RarEntry>) -> (r: Vec<String>)
    ensures
        views_of(r@) == spec_rar_image_names(entries@),
{
    let mut out: Vec<String> = Vec::new();
    let mut i: usize = 0;
    proof {
        reveal(Seq::filter);
        assert(entries@.subrange(0, 0) =~= Seq::<RarEntry>::empty());
        assert(views_of(out@) =~= spec_rar_image_names(entries@.subrange(0, 0)));
    }
    while i < entries.len()
        invariant
            i <= entries@.len(),
            views_of(out@) == spec_rar_image_names(entries@.subrange(0, i as int)),
        decreases entries@.len() - i,
    {
        let ghost prefix = entries@.subrange(0, i as int);
        let ghost next = entries@.subrange(0, i + 1 as int);
        proof {
            assert(next.drop_last() =~= prefix);
            assert(next.last() == entries@[i as int]);
            reveal(Seq::filter);
        }
        if entries[i].is_image() {
            let ghost before = out@;
            out.push(entries[i].filename.clone());
            proof {
                assert(views_of(out@) =~= views_of(before).push(entries@[i as int].filename@));
                assert(spec_rar_image_names(next) =~= spec_rar_image_names(prefix).push(
                    entries@[i as int].filename@,
                ));
            }
        } else {
            proof {
                assert(spec_rar_image_names(next) =~= spec_rar_image_names(prefix));
            }
        }
        i = i + 1;
    }
    proof {
        assert(entries@.subrange(0, entries@.len() as int) =~= entries@);
    }
    out
}

/// How many pages a rar listing holds: its image entries.
pub fn count_rar_pages(entries: &Vec<RarEntry>) -> (r: usize)
    ensures
        r == spec_rar_image_names(entries@).len(),
{
    let names = rar_image_names(entries);
    names.len()
}

/// The name of the requested page under the established sort order: defined
/// exactly when the page number is within the image count.
pub open spec fn spec_rar_page_name(entries: Seq<RarEntry>, page: int) -> Option<Seq<char>> {
    let sorted = spec_rar_image_names(entries).sort_by(lex_leq());
    if 1 <= page <= sorted.len() {
        Some(sorted[page - 1])
    } else {
        None
    }
}

/// Select the `page`th image entry of a listing, 1-indexed in ascending
/// lexicographic name order; nothing when the page number is out of range.
pub fn select_rar_page(entries: &Vec<RarEntry>, page: i32) -> (r: Option<String>)
    ensures
        opt_view(r) == spec_rar_page_name(entries@, page as int),
{
    let names = rar_image_names(entries);
    let sorted = crate::strutil::sorted_by_name(names);
    if page < 1 || (page as usize) > sorted.len() {
        return None;
    }
    let idx = (page - 1) as usize;
    let name = sorted[idx].clone();
    proof {
        assert(views_of(sorted@)[page - 1] == name@);
    }
    Some(name)
}

/// Find the entry with this name in a fresh walk of the archive and read
/// its bytes; the walk is bounded by the listing's length.
fn read_rar_entry(path: &str, name: &str, limit: usize) -> (r: Result<Vec<u8>, ()>)
    requires
        !spec_has_nul(path@),
{
    let mut reader = match RarReader::open(path) {
        Ok(rd) => rd,
        Err(_) => {
            return Err(());
        },
    };
    let mut steps: usize = 0;
    while steps < limit
        invariant
            steps <= limit,
        decreases limit - steps,
    {
        match reader.next_entry() {
            Ok(Some(entry)) => {
                if str_eq(entry.filename.as_str(), name) {
                    return reader.read_data();
                }
            },
            Ok(None) => {
                return Err(());
            },
            Err(_) => {
                return Err(());
            },
        }
        steps = steps + 1;
    }
    Err(())
}

/// Serve the `page`th image of a rar archive, 1-indexed in the established
/// lexicographic page order. The archive is walked twice — once to list and
/// order the entries, once to read the selected one — because the archive
/// library's cursor is consumed by a listing pass.
pub fn get_rar_image(file: &str, page: i32) -> (r: Result<(String, Vec<u8>), ProcessFileError>)
    ensures
        page < 1 ==> r == Err::<(String, Vec<u8>), ProcessFileError>(
            ProcessFileError::ArchiveReadError,
        ),
        page >= 1 && spec_has_nul(file@) ==> r == Err::<(String, Vec<u8>), ProcessFileError>(
            ProcessFileError::ArchiveOpenError,
        ),
        r matches Err(e) ==> (e is ArchiveOpenError || e is ArchiveReadError),
{
    if page < 1 {
        return Err(ProcessFileError::ArchiveReadError);
    }
    if has_nul(file) {
        return Err(ProcessFileError::ArchiveOpenError);
    }
    let entries = match rar_list(file) {
        Ok(v) => v,
        Err(_) => {
            return Err(ProcessFileError::ArchiveOpenError);
        },
    };
    let limit = entries.len();
    let name = match select_rar_page(&entries, page) {
        Some(n) => n,
        None => {
            return Err(ProcessFileError::ArchiveReadError);
        },
    };
    match read_rar_entry(file, name.as_str(), limit) {
        Ok(bytes) => {
            let content_type = crate::media_file::guess_content_type(name.as_str());
            Ok((content_type, bytes))
        },
        Err(_) => Err(ProcessFileError::ArchiveReadError),
    }
}

/// Whether a listing holds the well-known comic metadata entry.
pub open spec fn spec_has_comic_info(entries: Seq<RarEntry>) -> bool {
    exists|k: int|
        0 <= k < entries.len() && entries[k].is_file && (#[trigger] entries[k].filename@)
            == "ComicInfo.xml"@
}

fn find_comic_info(entries: &Vec<RarEntry>) -> (r: bool)
    ensures
        r == spec_has_comic_info(entries@),
{
    let mut i: usize = 0;
    while i < entries.len()
        invariant
            i <= entries@.len(),
            forall|k: int|
                0 <= k < i ==> !(entries@[k].is_file && (#[trigger] entries@[k].filename@)
                    == "ComicInfo.xml"@),
        decreases entries@.len() - i,
    {
        if entries[i].is_file && str_eq(entries[i].filename.as_str(), "ComicInfo.xml") {
            return true;
        }
        i = i + 1;
    }
    false
}

/// Process a rar archive in its entirety: count the image pages, parse the
/// metadata entry when one is present and readable, and fingerprint the
/// file from its size and sampled leading bytes.
///
/// The checksum is a pure function of the sample; the page count and
/// metadata are functions of whatever listing the archive library returned.
pub fn process_rar(
    file: &str,
    options: &LibraryOptions,
    file_size: u64,
    prefix: &Vec<u8>,
) -> (r: Result<ProcessedMediaFile, ProcessFileError>)
    ensures
        spec_has_nul(file@) ==> r == Err::<ProcessedMediaFile, ProcessFileError>(
            ProcessFileError::ArchiveOpenError,
        ),
        r matches Ok(p) ==> opt_view(p.checksum) == spec_sample_digest(file_size, prefix@),
        r matches Err(e) ==> (e is ArchiveOpenError || e is ArchiveReadError
            || e is Utf8ConversionError),
{
    if has_nul(file) {
        return Err(ProcessFileError::ArchiveOpenError);
    }
    let sample = crate::checksum::sample_size(file_size);
    let checksum = if sample <= prefix.len() as u64 {
        Some(crate::checksum::digest(prefix.as_slice(), sample as usize))
    } else {
        None
    };
    let entries = match rar_list(file) {
        Ok(v) => v,
        Err(_) => {
            return Err(ProcessFileError::ArchiveOpenError);
        },
    };
    let pages = count_rar_pages(&entries);
    let metadata: Option<MediaMetadata> = if find_comic_info(&entries) {
        match read_rar_entry(file, "ComicInfo.xml", entries.len()) {
            Ok(bytes) => {
                match crate::strutil::decode_utf8(&bytes) {
                    Some(text) => crate::comic_info::process_comic_info(text),
                    None => {
                        return Err(ProcessFileError::Utf8ConversionError);
                    },
                }
            },
            Err(_) => {
                return Err(ProcessFileError::ArchiveReadError);
            },
        }
    } else {
        None
    };
    if options.convert_rar_to_zip {
        // conversion to cbz is handled by the caller after a successful scan
    }
    Ok(ProcessedMediaFile { checksum, metadata, pages })
}

} // verus!
