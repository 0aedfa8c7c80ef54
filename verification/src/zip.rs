//! Zip-backed archives: zip/cbz comics and the epub container.
//!
//! The archive bytes are handed in whole; decoding is delegated to the zip
//! library behind two trusted wrappers whose results are functions of the
//! buffer alone, so everything downstream — image filtering, page ordering,
//! metadata extraction, the checksum — is verified against those names.

use vstd::prelude::*;
use crate::checksum::spec_sample_digest;
use crate::comic_info::{spec_comic_metadata, opt_view, MediaMetadata};
use crate::error::ProcessFileError;
use crate::media_file::{image_name_pred, is_image_name, spec_guess_content_type, ProcessedMediaFile};
use crate::strutil::{lex_leq, str_eq, utf8_decode, views_of};

verus! {

/// The entry names the zip library lists for an archive buffer: one per
/// distinctly named entry, in central-directory order; nothing for a
/// buffer that does not parse as a zip archive.
pub uninterp spec fn zip_names(data: Seq<u8>) -> Option<Seq<Seq<char>>>;

/// The decompressed bytes of a named entry of a zip archive; nothing when
/// the buffer does not parse, the name is absent, or the entry cannot be
/// decompressed.
pub uninterp spec fn zip_entry(data: Seq<u8>, name: Seq<char>) -> Option<Seq<u8>>;

/// Relies on zip::ZipArchive::new and ZipArchive::file_names: the names in
/// the archive's central directory, a function of the bytes alone.
#[verifier::external_body]
pub(crate) fn zip_entry_names(data: &Vec<u8>) -> (r: Option<Vec<String>>)
    ensures
        (r is Some) == (zip_names(data@) is Some),
        r matches Some(v) ==> zip_names(data@) == Some(views_of(v@)),
{
    let cursor = std::io::Cursor::new(data.as_slice());
    match zip::ZipArchive::new(cursor) {
        Ok(archive) => Some(archive.file_names().map(|n| n.to_owned()).collect()),
        Err(_) => None,
    }
}

/// Relies on zip::ZipArchive::by_name and std::io::Read::read_to_end: the
/// decompressed bytes of the named entry, a function of bytes and name.
#[verifier::external_body]
pub(crate) fn zip_entry_bytes(data: &Vec<u8>, name: &str) -> (r: Option<Vec<u8>>)
    ensures
        (r is Some) == (zip_entry(data@, name@) is Some),
        r matches Some(b) ==> zip_entry(data@, name@) == Some(b@),
{
    let cursor = std::io::Cursor::new(data.as_slice());
    let mut archive = zip::ZipArchive::new(cursor).ok()?;
    let mut file = archive.by_name(name).ok()?;
    let mut buf = Vec::new();
    std::io::Read::read_to_end(&mut file, &mut buf).ok()?;
    Some(buf)
}

/// Keep the names that denote images, in order.
pub fn filter_image_names(names: &Vec<String>) -> (r: Vec<String>)
    ensures
        views_of(r@) == views_of(names@).filter(image_name_pred()),
{
    let ghost vnames = views_of(names@);
    let mut out: Vec<String> = Vec::new();
    let mut i: usize = 0;
    proof {
        assert(views_of(out@) =~= vnames.subrange(0, 0).filter(image_name_pred())) by {
            reveal(Seq::filter);
            assert(vnames.subrange(0, 0) =~= Seq::<Seq<char>>::empty());
        }
    }
    while i < names.len()
        invariant
            i <= names@.len(),
            vnames == views_of(names@),
            views_of(out@) == vnames.subrange(0, i as int).filter(image_name_pred()),
        decreases names@.len() - i,
    {
        let ghost prefix = vnames.subrange(0, i as int);
        let ghost next = vnames.subrange(0, i + 1 as int);
        proof {
            assert(next.drop_last() =~= prefix);
            assert(next.last() == vnames[i as int]);
            reveal(Seq::filter);
        }
        if is_image_name(names[i].as_str()) {
            let ghost before = out@;
            out.push(names[i].clone());
            proof {
                assert(views_of(out@) =~= views_of(before).push(names@[i as int]@));
            }
        }
        i = i + 1;
    }
    proof {
        assert(vnames.subrange(0, names@.len() as int) =~= vnames);
    }
    out
}

/// The image entries of the archive in ascending lexicographic order: the
/// established page order.
pub fn sorted_image_names(names: &Vec<String>) -> (r: Vec<String>)
    ensures
        views_of(r@) == views_of(names@).filter(image_name_pred()).sort_by(lex_leq()),
{
    let imgs = filter_image_names(names);
    crate::strutil::sorted_by_name(imgs)
}

/// Does a name list include the well-known comic metadata entry?
fn has_comic_info(names: &Vec<String>) -> (r: bool)
    ensures
        r == views_of(names@).contains("ComicInfo.xml"@),
{
    let mut i: usize = 0;
    while i < names.len()
        invariant
            i <= names@.len(),
            forall|k: int| 0 <= k < i ==> views_of(names@)[k] != "ComicInfo.xml"@,
        decreases names@.len() - i,
    {
        if str_eq(names[i].as_str(), "ComicInfo.xml") {
            proof {
                assert(views_of(names@)[i as int] == "ComicInfo.xml"@);
            }
            return true;
        }
        i = i + 1;
    }
    false
}

/// What processing a zip-backed comic must yield, given the archive bytes
/// and the file size: open failures, unreadable or non-text metadata
/// entries surface as errors; otherwise the page count is the number of
/// image entries, the metadata comes from `ComicInfo.xml` when that entry
/// is present, and the checksum follows the sampling formula.
pub open spec fn zip_process_post(
    content: Seq<u8>,
    file_size: u64,
    r: Result<ProcessedMediaFile, ProcessFileError>,
) -> bool {
    match zip_names(content) {
        None => r == Err::<ProcessedMediaFile, ProcessFileError>(ProcessFileError::ArchiveOpenError),
        Some(names) => {
            if names.contains("ComicInfo.xml"@) {
                match zip_entry(content, "ComicInfo.xml"@) {
                    None => r == Err::<ProcessedMediaFile, ProcessFileError>(
                        ProcessFileError::ArchiveReadError,
                    ),
                    Some(bytes) => match utf8_decode(bytes) {
                        None => r == Err::<ProcessedMediaFile, ProcessFileError>(
                            ProcessFileError::Utf8ConversionError,
                        ),
                        Some(text) => match r {
                            Ok(p) => {
                                &&& p.pages == names.filter(image_name_pred()).len()
                                &&& opt_view(p.checksum) == spec_sample_digest(file_size, content)
                                &&& spec_comic_metadata(text, p.metadata)
                            },
                            Err(_) => false,
                        },
                    },
                }
            } else {
                match r {
                    Ok(p) => {
                        &&& p.pages == names.filter(image_name_pred()).len()
                        &&& opt_view(p.checksum) == spec_sample_digest(file_size, content)
                        &&& p.metadata is None
                    },
                    Err(_) => false,
                }
            }
        },
    }
}

/// Process a zip-backed comic in its entirety: count the image pages, read
/// and parse the metadata entry when there is one, and fingerprint the
/// bytes per the sampling formula.
pub fn process_zip(content: &Vec<u8>, file_size: u64) -> (r: Result<
    ProcessedMediaFile,
    ProcessFileError,
>)
    ensures
        zip_process_post(content@, file_size, r),
{
    let names = match zip_entry_names(content) {
        Some(v) => v,
        None => {
            return Err(ProcessFileError::ArchiveOpenError);
        },
    };
    let images = filter_image_names(&names);
    let pages = images.len();
    let metadata: Option<MediaMetadata> = if has_comic_info(&names) {
        let bytes = match zip_entry_bytes(content, "ComicInfo.xml") {
            Some(b) => b,
            None => {
                return Err(ProcessFileError::ArchiveReadError);
            },
        };
        let text = match crate::strutil::decode_utf8(&bytes) {
            Some(t) => t,
            None => {
                return Err(ProcessFileError::Utf8ConversionError);
            },
        };
        crate::comic_info::process_comic_info(text)
    } else {
        None
    };
    let sample = crate::checksum::sample_size(file_size);
    let checksum = if sample <= content.len() as u64 {
        Some(crate::checksum::digest(content.as_slice(), sample as usize))
    } else {
        None
    };
    Ok(ProcessedMediaFile { checksum, metadata, pages })
}

/// What serving page `page` of a zip-backed comic must yield: the page's
/// bytes and content type for a valid page number under the established
/// sort order, and an error for an unopenable archive, an out-of-range
/// page, or an unreadable entry.
pub open spec fn zip_page_post(
    content: Seq<u8>,
    page: i32,
    r: Result<(String, Vec<u8>), ProcessFileError>,
) -> bool {
    match zip_names(content) {
        None => r == Err::<(String, Vec<u8>), ProcessFileError>(ProcessFileError::ArchiveOpenError),
        Some(names) => {
            let sorted = names.filter(image_name_pred()).sort_by(lex_leq());
            if page < 1 || page > sorted.len() {
                r == Err::<(String, Vec<u8>), ProcessFileError>(ProcessFileError::ArchiveReadError)
            } else {
                let name = sorted[page - 1];
                match zip_entry(content, name) {
                    None => r == Err::<(String, Vec<u8>), ProcessFileError>(
                        ProcessFileError::ArchiveReadError,
                    ),
                    Some(bytes) => match r {
                        Ok(p) => p.0@ == spec_guess_content_type(name) && p.1@ == bytes,
                        Err(_) => false,
                    },
                }
            }
        },
    }
}

/// Serve the `page`th image of a zip-backed comic, 1-indexed in the
/// established lexicographic page order.
pub fn get_zip_image(content: &Vec<u8>, page: i32) -> (r: Result<
    (String, Vec<u8>),
    ProcessFileError,
>)
    ensures
        zip_page_post(content@, page, r),
{
    let names = match zip_entry_names(content) {
        Some(v) => v,
        None => {
            return Err(ProcessFileError::ArchiveOpenError);
        },
    };
    let sorted = sorted_image_names(&names);
    if page < 1 || (page as usize) > sorted.len() {
        return Err(ProcessFileError::ArchiveReadError);
    }
    let idx = (page - 1) as usize;
    let name = &sorted[idx];
    proof {
        assert(views_of(sorted@)[page - 1] == name@);
    }
    let bytes = match zip_entry_bytes(content, name.as_str()) {
        Some(b) => b,
        None => {
            return Err(ProcessFileError::ArchiveReadError);
        },
    };
    let content_type = crate::media_file::guess_content_type(name.as_str());
    Ok((content_type, bytes))
}

} // verus!
