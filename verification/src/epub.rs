//! Epub containers.
//!
//! An epub is a zip archive; pagination is not modeled — only the cover
//! image can be served, and processing counts the image entries. The cover
//! is the first image entry (in the established sort order) whose name
//! mentions a cover, or failing that the first image entry.

use vstd::prelude::*;
use crate::checksum::spec_sample_digest;
use crate::comic_info::{opt_view, spec_find};
use crate::error::ProcessFileError;
use crate::media_file::{image_name_pred, ProcessedMediaFile};
use crate::strutil::{lex_leq, lower_char, spec_lower, views_of};
use crate::zip::{zip_entry, zip_names};

verus! {

/// The first element satisfying the predicate, scanning left to right.
pub open spec fn spec_first_matching(
    v: Seq<Seq<char>>,
    pred: spec_fn(Seq<char>) -> bool,
) -> Option<Seq<char>>
    decreases v.len(),
{
    if v.len() == 0 {
        None
    } else if pred(v[0]) {
        Some(v[0])
    } else {
        spec_first_matching(v.drop_first(), pred)
    }
}

/// A name mentions a cover when, lower-cased, it contains `cover`.
pub open spec fn cover_name_pred() -> spec_fn(Seq<char>) -> bool {
    |n: Seq<char>| spec_find(spec_lower(n), "cover"@, 0) is Some
}

/// Check a lower-cased match of `pat` at position `i` of `s`.
fn matches_at_lower(s: &str, pat: &str, i: usize) -> (r: bool)
    requires
        i + pat@.len() <= s@.len(),
    ensures
        r == crate::comic_info::matches_at(spec_lower(s@), pat@, i as int),
{
    let slen = s.unicode_len();
    let plen = pat.unicode_len();
    let mut k: usize = 0;
    while k < plen
        invariant
            k <= plen,
            plen == pat@.len(),
            slen == s@.len(),
            i + plen <= slen,
            forall|j: int| 0 <= j < k ==> spec_lower(s@)[i + j] == pat@[j],
        decreases plen - k,
    {
        if lower_char(s.get_char(i + k)) != pat.get_char(k) {
            proof {
                assert(spec_lower(s@).subrange(i as int, i + plen)[k as int] != pat@[k as int]);
            }
            return false;
        }
        k = k + 1;
    }
    proof {
        assert(spec_lower(s@).subrange(i as int, i + plen) =~= pat@);
    }
    true
}

/// Does the lower-cased string contain the (already lower-case) pattern?
fn contains_lower(s: &str, pat: &str) -> (r: bool)
    ensures
        r == (spec_find(spec_lower(s@), pat@, 0) is Some),
{
    let slen = s.unicode_len();
    let plen = pat.unicode_len();
    if plen == 0 {
        proof {
            assert(spec_lower(s@).subrange(0, 0) =~= pat@);
        }
        return true;
    }
    let mut i: usize = 0;
    loop
        invariant
            i <= slen,
            slen == s@.len(),
            plen == pat@.len(),
            plen >= 1,
            spec_find(spec_lower(s@), pat@, 0) == spec_find(spec_lower(s@), pat@, i as nat),
        decreases slen - i,
    {
        if plen > slen - i {
            return false;
        }
        if matches_at_lower(s, pat, i) {
            return true;
        }
        i = i + 1;
    }
}

/// The cover entry among sorted image names: the first mentioning a cover,
/// else the first image; nothing when there are no images at all.
pub open spec fn spec_cover_of(sorted: Seq<Seq<char>>) -> Option<Seq<char>> {
    match spec_first_matching(sorted, cover_name_pred()) {
        Some(n) => Some(n),
        None => if sorted.len() > 0 {
            Some(sorted[0])
        } else {
            None
        },
    }
}

/// Pick the cover among sorted image names, per [`spec_cover_of`].
fn pick_cover(sorted: &Vec<String>) -> (r: Option<String>)
    ensures
        opt_view(r) == spec_cover_of(views_of(sorted@)),
{
    let ghost v = views_of(sorted@);
    let mut i: usize = 0;
    proof {
        assert(v.skip(0) =~= v);
    }
    while i < sorted.len()
        invariant
            i <= sorted@.len(),
            v == views_of(sorted@),
            spec_first_matching(v, cover_name_pred()) == spec_first_matching(
                v.skip(i as int),
                cover_name_pred(),
            ),
        decreases sorted@.len() - i,
    {
        proof {
            assert(v.skip(i as int)[0] == v[i as int]);
            assert(v.skip(i as int).drop_first() =~= v.skip(i + 1));
        }
        if contains_lower(sorted[i].as_str(), "cover") {
            return Some(sorted[i].clone());
        }
        i = i + 1;
    }
    proof {
        assert(v.skip(sorted@.len() as int) =~= Seq::<Seq<char>>::empty());
    }
    if sorted.len() > 0 {
        Some(sorted[0].clone())
    } else {
        None
    }
}

/// What serving an epub's cover must yield: the cover entry's bytes and
/// content type, or an error when the container does not open, has no
/// image entries, or the entry cannot be read.
pub open spec fn epub_cover_post(
    content: Seq<u8>,
    r: Result<(String, Vec<u8>), ProcessFileError>,
) -> bool {
    match zip_names(content) {
        None => r == Err::<(String, Vec<u8>), ProcessFileError>(ProcessFileError::ArchiveOpenError),
        Some(names) => {
            let sorted = names.filter(image_name_pred()).sort_by(lex_leq());
            match spec_cover_of(sorted) {
                None => r == Err::<(String, Vec<u8>), ProcessFileError>(
                    ProcessFileError::ArchiveReadError,
                ),
                Some(name) => match zip_entry(content, name) {
                    None => r == Err::<(String, Vec<u8>), ProcessFileError>(
                        ProcessFileError::ArchiveReadError,
                    ),
                    Some(bytes) => match r {
                        Ok(p) => p.0@ == crate::media_file::spec_guess_content_type(name) && p.1@
                            == bytes,
                        Err(_) => false,
                    },
                },
            }
        },
    }
}

/// Serve the cover image of an epub container.
pub fn get_epub_cover(content: &Vec<u8>) -> (r: Result<(String, Vec<u8>), ProcessFileError>)
    ensures
        epub_cover_post(content@, r),
{
    let names = match crate::zip::zip_entry_names(content) {
        Some(v) => v,
        None => {
            return Err(ProcessFileError::ArchiveOpenError);
        },
    };
    let sorted = crate::zip::sorted_image_names(&names);
    let name = match pick_cover(&sorted) {
        Some(n) => n,
        None => {
            return Err(ProcessFileError::ArchiveReadError);
        },
    };
    let bytes = match crate::zip::zip_entry_bytes(content, name.as_str()) {
        Some(b) => b,
        None => {
            return Err(ProcessFileError::ArchiveReadError);
        },
    };
    let content_type = crate::media_file::guess_content_type(name.as_str());
    Ok((content_type, bytes))
}

/// What processing an epub must yield: the image-entry count as its page
/// count, no structured metadata, and the sampling-formula checksum.
pub open spec fn epub_process_post(
    content: Seq<u8>,
    file_size: u64,
    r: Result<ProcessedMediaFile, ProcessFileError>,
) -> bool {
    match zip_names(content) {
        None => r == Err::<ProcessedMediaFile, ProcessFileError>(ProcessFileError::ArchiveOpenError),
        Some(names) => match r {
            Ok(p) => {
                &&& p.pages == names.filter(image_name_pred()).len()
                &&& opt_view(p.checksum) == spec_sample_digest(file_size, content)
                &&& p.metadata is None
            },
            Err(_) => false,
        },
    }
}

/// Process an epub container: count its image entries and fingerprint the
/// bytes. Pagination and in-book metadata are not modeled.
pub fn process_epub(content: &Vec<u8>, file_size: u64) -> (r: Result<
    ProcessedMediaFile,
    ProcessFileError,
>)
    ensures
        epub_process_post(content@, file_size, r),
{
    let names = match crate::zip::zip_entry_names(content) {
        Some(v) => v,
        None => {
            return Err(ProcessFileError::ArchiveOpenError);
        },
    };
    let images = crate::zip::filter_image_names(&names);
    let pages = images.len();
    let sample = crate::checksum::sample_size(file_size);
    let checksum = if sample <= content.len() as u64 {
        Some(crate::checksum::digest(content.as_slice(), sample as usize))
    } else {
        None
    };
    Ok(ProcessedMediaFile { checksum, metadata: None, pages })
}

} // verus!
