//! Format dispatch for media files.
//!
//! A file's container format is resolved by content sniffing with an
//! extension-table fallback, and requests are routed to the matching archive
//! extractor. The archive mime strings are the protocol here: they decide
//! which extractor runs and which errors are owed.

use vstd::prelude::*;
use crate::strutil::{spec_lower, spec_ends_with, lower_char, str_eq};

verus! {

/// Things that may denote an image, by name.
pub trait IsImage {
    /// Whether this entry denotes an image.
    spec fn spec_is_image(&self) -> bool;

    /// Decide [`IsImage::spec_is_image`].
    fn is_image(&self) -> (r: bool)
        ensures
            r == self.spec_is_image(),
    ;
}

/// A file name names an image when, lower-cased, it ends in a raster-image
/// suffix.
pub open spec fn spec_is_image_name(name: Seq<char>) -> bool {
    ||| spec_ends_with(spec_lower(name), ".jpg"@)
    ||| spec_ends_with(spec_lower(name), ".jpeg"@)
    ||| spec_ends_with(spec_lower(name), ".png"@)
}

/// [`spec_is_image_name`] as a predicate value, for filtering.
pub open spec fn image_name_pred() -> spec_fn(Seq<char>) -> bool {
    |n: Seq<char>| spec_is_image_name(n)
}

/// Case-insensitive suffix test: does the lower-cased string end with the
/// (already lower-case) suffix?
fn ends_with_lower(s: &str, suffix: &str) -> (r: bool)
    ensures
        r == spec_ends_with(spec_lower(s@), suffix@),
{
    let slen = s.unicode_len();
    let xlen = suffix.unicode_len();
    if xlen > slen {
        return false;
    }
    let mut i: usize = 0;
    while i < xlen
        invariant
            i <= xlen <= slen,
            slen == s@.len(),
            xlen == suffix@.len(),
            forall|k: int| 0 <= k < i ==> spec_lower(s@)[s@.len() - xlen + k] == suffix@[k],
        decreases xlen - i,
    {
        if lower_char(s.get_char(slen - xlen + i)) != suffix.get_char(i) {
            proof {
                assert(spec_lower(s@).subrange(s@.len() - xlen, s@.len() as int)[i as int]
                    != suffix@[i as int]);
            }
            return false;
        }
        i = i + 1;
    }
    proof {
        assert(spec_lower(s@).subrange(s@.len() - xlen, s@.len() as int) =~= suffix@);
    }
    true
}

/// Decide [`spec_is_image_name`] for a file name.
pub fn is_image_name(name: &str) -> (r: bool)
    ensures
        r == spec_is_image_name(name@),
{
    ends_with_lower(name, ".jpg") || ends_with_lower(name, ".jpeg") || ends_with_lower(name, ".png")
}

/// The extension of a path: the characters after the final `.` of its last
/// component, or nothing when that component has no dot.
pub open spec fn spec_extension(s: Seq<char>) -> Option<Seq<char>>
    decreases s.len(),
{
    if s.len() == 0 {
        None
    } else if s.last() == '.' {
        Some(Seq::empty())
    } else if s.last() == '/' {
        None
    } else {
        match spec_extension(s.drop_last()) {
            Some(e) => Some(e.push(s.last())),
            None => None,
        }
    }
}

proof fn lemma_extension_found(s: Seq<char>, k: int)
    requires
        0 <= k < s.len(),
        s[k] == '.',
        forall|j: int| k < j < s.len() ==> s[j] != '.' && s[j] != '/',
    ensures
        spec_extension(s) == Some(s.subrange(k + 1, s.len() as int)),
    decreases s.len(),
{
    if k == s.len() - 1 {
        assert(s.subrange(k + 1, s.len() as int) =~= Seq::<char>::empty());
    } else {
        lemma_extension_found(s.drop_last(), k);
        assert(s.drop_last().subrange(k + 1, s.len() - 1) =~= s.subrange(k + 1, s.len() - 1));
        assert(s.subrange(k + 1, s.len() - 1).push(s.last()) =~= s.subrange(k + 1, s.len() as int));
    }
}

proof fn lemma_extension_none(s: Seq<char>, k: int)
    requires
        -1 <= k < s.len(),
        k >= 0 ==> s[k] == '/',
        forall|j: int| k < j < s.len() ==> s[j] != '.' && s[j] != '/',
    ensures
        spec_extension(s) is None,
    decreases s.len(),
{
    if s.len() != 0 {
        if k == s.len() - 1 {
        } else {
            lemma_extension_none(s.drop_last(), k);
        }
    }
}

/// Extension of a path, per [`spec_extension`].
pub fn extension_of(path: &str) -> (r: Option<String>)
    ensures
        crate::comic_info::opt_view(r) == spec_extension(path@),
{
    let len = path.unicode_len();
    let mut i: usize = len;
    while i > 0
        invariant
            i <= len,
            len == path@.len(),
            forall|j: int| i <= j < len ==> path@[j] != '.' && path@[j] != '/',
        decreases i,
    {
        let c = path.get_char(i - 1);
        if c == '.' {
            proof {
                lemma_extension_found(path@, i - 1);
            }
            let ext = path.substring_char(i, len);
            return Some(ext.to_owned());
        }
        if c == '/' {
            proof {
                lemma_extension_none(path@, i - 1);
            }
            return None;
        }
        i = i - 1;
    }
    proof {
        lemma_extension_none(path@, -1);
    }
    None
}

/// The extension-to-mime lookup table, applied to a lower-cased extension.
pub open spec fn spec_mime_for_extension(ext: Seq<char>) -> Option<Seq<char>> {
    let e = spec_lower(ext);
    if e == "pdf"@ {
        Some("application/pdf"@)
    } else if e == "epub"@ {
        Some("application/epub+zip"@)
    } else if e == "zip"@ {
        Some("application/zip"@)
    } else if e == "cbz"@ {
        Some("application/vnd.comicbook+zip"@)
    } else if e == "rar"@ {
        Some("application/vnd.rar"@)
    } else if e == "cbr"@ {
        Some("application/vnd.comicbook-rar"@)
    } else if e == "png"@ {
        Some("image/png"@)
    } else if e == "jpg"@ || e == "jpeg"@ {
        Some("image/jpeg"@)
    } else if e == "webp"@ {
        Some("image/webp"@)
    } else if e == "gif"@ {
        Some("image/gif"@)
    } else if e == "xml"@ || e == "opf"@ || e == "ncx"@ {
        Some("application/xml"@)
    } else if e == "txt"@ {
        Some("text/plain"@)
    } else if e == "html"@ {
        Some("text/html"@)
    } else if e == "json"@ {
        Some("application/json"@)
    } else {
        None
    }
}

/// Case-insensitive comparison of a string against an (already lower-case)
/// keyword.
fn eq_lower(s: &str, keyword: &str) -> (r: bool)
    ensures
        r == (spec_lower(s@) == keyword@),
{
    let slen = s.unicode_len();
    let klen = keyword.unicode_len();
    if slen != klen {
        return false;
    }
    let mut i: usize = 0;
    while i < slen
        invariant
            i <= slen,
            slen == s@.len(),
            slen == keyword@.len(),
            forall|k: int| 0 <= k < i ==> spec_lower(s@)[k] == keyword@[k],
        decreases slen - i,
    {
        if lower_char(s.get_char(i)) != keyword.get_char(i) {
            return false;
        }
        i = i + 1;
    }
    proof {
        assert(spec_lower(s@) =~= keyword@);
    }
    true
}

/// Mime string for a file extension, case-insensitively.
pub fn mime_for_extension(ext: &str) -> (r: Option<&'static str>)
    ensures
        match r {
            Some(m) => spec_mime_for_extension(ext@) == Some(m@),
            None => spec_mime_for_extension(ext@) is None,
        },
{
    if eq_lower(ext, "pdf") {
        Some("application/pdf")
    } else if eq_lower(ext, "epub") {
        Some("application/epub+zip")
    } else if eq_lower(ext, "zip") {
        Some("application/zip")
    } else if eq_lower(ext, "cbz") {
        Some("application/vnd.comicbook+zip")
    } else if eq_lower(ext, "rar") {
        Some("application/vnd.rar")
    } else if eq_lower(ext, "cbr") {
        Some("application/vnd.comicbook-rar")
    } else if eq_lower(ext, "png") {
        Some("image/png")
    } else if eq_lower(ext, "jpg") || eq_lower(ext, "jpeg") {
        Some("image/jpeg")
    } else if eq_lower(ext, "webp") {
        Some("image/webp")
    } else if eq_lower(ext, "gif") {
        Some("image/gif")
    } else if eq_lower(ext, "xml") || eq_lower(ext, "opf") || eq_lower(ext, "ncx") {
        Some("application/xml")
    } else if eq_lower(ext, "txt") {
        Some("text/plain")
    } else if eq_lower(ext, "html") {
        Some("text/html")
    } else if eq_lower(ext, "json") {
        Some("application/json")
    } else {
        None
    }
}

/// The mime a path's extension suggests.
pub open spec fn spec_guess_mime(path: Seq<char>) -> Option<Seq<char>> {
    match spec_extension(path) {
        Some(e) => spec_mime_for_extension(e),
        None => None,
    }
}

/// Guess the MIME type of a file based on its extension.
pub fn guess_mime(path: &str) -> (r: Option<String>)
    ensures
        crate::comic_info::opt_view(r) == spec_guess_mime(path@),
{
    match extension_of(path) {
        Some(ext) => {
            match mime_for_extension(ext.as_str()) {
                Some(m) => Some(m.to_owned()),
                None => None,
            }
        },
        None => None,
    }
}

/// The content type served for a path: the mime its extension suggests, or
/// the wildcard type when the extension is unknown.
pub open spec fn spec_guess_content_type(path: Seq<char>) -> Seq<char> {
    match spec_guess_mime(path) {
        Some(m) => m,
        None => "*/*"@,
    }
}

/// Content type for a file name, with a wildcard fallback.
pub fn guess_content_type(file: &str) -> (r: String)
    ensures
        r@ == spec_guess_content_type(file@),
{
    match guess_mime(file) {
        Some(m) => m,
        None => "*/*".to_owned(),
    }
}

/// The mimes this library recognises as servable content types.
pub open spec fn spec_known_mime(m: Seq<char>) -> bool {
    ||| m == "application/pdf"@
    ||| m == "application/epub+zip"@
    ||| m == "application/zip"@
    ||| m == "application/vnd.comicbook+zip"@
    ||| m == "application/vnd.rar"@
    ||| m == "application/vnd.comicbook-rar"@
    ||| m == "image/png"@
    ||| m == "image/jpeg"@
    ||| m == "image/webp"@
    ||| m == "image/gif"@
    ||| m == "application/xml"@
    ||| m == "application/xhtml+xml"@
    ||| m == "text/plain"@
    ||| m == "text/html"@
    ||| m == "application/json"@
}

/// Normalise a mime string into a servable content type: recognised mimes
/// pass through, everything else becomes the wildcard type.
pub fn get_content_type_from_mime(mime: &str) -> (r: String)
    ensures
        spec_known_mime(mime@) ==> r@ == mime@,
        !spec_known_mime(mime@) ==> r@ == "*/*"@,
{
    if str_eq(mime, "application/pdf") || str_eq(mime, "application/epub+zip") || str_eq(
        mime,
        "application/zip",
    ) || str_eq(mime, "application/vnd.comicbook+zip") || str_eq(mime, "application/vnd.rar")
        || str_eq(mime, "application/vnd.comicbook-rar") || str_eq(mime, "image/png") || str_eq(
        mime,
        "image/jpeg",
    ) || str_eq(mime, "image/webp") || str_eq(mime, "image/gif") || str_eq(
        mime,
        "application/xml",
    ) || str_eq(mime, "application/xhtml+xml") || str_eq(mime, "text/plain") || str_eq(
        mime,
        "text/html",
    ) || str_eq(mime, "application/json") {
        mime.to_owned()
    } else {
        "*/*".to_owned()
    }
}

/// One media file as handed to the processor: its path, its size on disk,
/// and its raw bytes.
///
/// The zip-backed extractors work from `content`; the rar extractor opens
/// `path` itself, because the rar library reads from the filesystem. The
/// checksum sampler uses only the leading bytes of `content`, so a caller
/// that knows the file is a rar archive may read just the sampling prefix.
pub struct MediaSource {
    pub path: String,
    pub file_size: u64,
    pub content: Vec<u8>,
}

/// Options of the library a file belongs to.
#[derive(Debug, Clone, PartialEq, Eq)]
pub struct LibraryOptions {
    /// Convert processed rar archives to cbz afterwards.
    pub convert_rar_to_zip: bool,
    /// Delete the original archive after a conversion.
    pub hard_delete_conversions: bool,
    /// Generate webp thumbnails during the scan.
    pub create_webp_thumbnails: bool,
}

impl Default for LibraryOptions {
    /// No conversions and no eager thumbnails.
    fn default() -> (r: Self)
        ensures
            r == (LibraryOptions {
                convert_rar_to_zip: false,
                hard_delete_conversions: false,
                create_webp_thumbnails: false,
            }),
    {
        LibraryOptions {
            convert_rar_to_zip: false,
            hard_delete_conversions: false,
            create_webp_thumbnails: false,
        }
    }
}

/// What `process` produced for one media file.
#[derive(Debug, Clone, PartialEq, Eq)]
pub struct ProcessedMediaFile {
    /// Content fingerprint, absent when sampling failed.
    pub checksum: Option<String>,
    /// Parsed embedded metadata, absent when there was none.
    pub metadata: Option<crate::comic_info::MediaMetadata>,
    /// Number of image pages the extractor counted.
    pub pages: usize,
}

/// What content sniffing reports for a byte buffer.
pub uninterp spec fn inferred_mime(data: Seq<u8>) -> Option<Seq<char>>;

/// Relies on infer::get: sniffs a mime from the buffer's leading bytes, a
/// function of the buffer alone.
#[verifier::external_body]
fn sniff_mime(data: &Vec<u8>) -> (r: Option<String>)
    ensures
        (r is Some) == (inferred_mime(data@) is Some),
        r matches Some(m) ==> inferred_mime(data@) == Some(m@),
{
    infer::get(data.as_slice()).map(|t| t.mime_type().to_owned())
}

/// The mime a source resolves to: what sniffing reports, or the extension
/// table's entry when sniffing is inconclusive.
pub open spec fn spec_resolved_mime(content: Seq<u8>, path: Seq<char>) -> Option<Seq<char>> {
    match inferred_mime(content) {
        Some(m) => Some(m),
        None => spec_guess_mime(path),
    }
}

/// Infer the MIME type of a file from its content, falling back to the
/// extension table when sniffing is inconclusive.
pub fn infer_mime_from_path(source: &MediaSource) -> (r: Option<String>)
    ensures
        crate::comic_info::opt_view(r) == spec_resolved_mime(source.content@, source.path@),
{
    match sniff_mime(&source.content) {
        Some(m) => Some(m),
        None => guess_mime(source.path.as_str()),
    }
}

/// The container formats the extractors handle.
#[derive(Debug, Clone, Copy, PartialEq, Eq, Structural)]
pub enum MediaFormat {
    Zip,
    Rar,
    Epub,
}

/// Which extractor a mime routes to, or none for an unsupported mime.
pub open spec fn spec_format_of(m: Seq<char>) -> Option<MediaFormat> {
    if m == "application/zip"@ || m == "application/vnd.comicbook+zip"@ {
        Some(MediaFormat::Zip)
    } else if m == "application/vnd.rar"@ || m == "application/vnd.comicbook-rar"@ {
        Some(MediaFormat::Rar)
    } else if m == "application/epub+zip"@ {
        Some(MediaFormat::Epub)
    } else {
        None
    }
}

/// Route a mime to its extractor.
pub fn format_of(m: &str) -> (r: Option<MediaFormat>)
    ensures
        r == spec_format_of(m@),
{
    if str_eq(m, "application/zip") || str_eq(m, "application/vnd.comicbook+zip") {
        Some(MediaFormat::Zip)
    } else if str_eq(m, "application/vnd.rar") || str_eq(m, "application/vnd.comicbook-rar") {
        Some(MediaFormat::Rar)
    } else if str_eq(m, "application/epub+zip") {
        Some(MediaFormat::Epub)
    } else {
        None
    }
}

/// The message attached to an undeterminable-mime failure.
pub open spec fn spec_unknown_mime_message(path: Seq<char>) -> Seq<char> {
    "Unable to determine mime type for file: "@ + path
}

fn unknown_mime_error(path: &str) -> (r: crate::error::ProcessFileError)
    ensures
        r matches crate::error::ProcessFileError::Unknown(m) && m@ == spec_unknown_mime_message(
            path@,
        ),
{
    let mut m = String::new();
    m.append("Unable to determine mime type for file: ");
    m.append(path);
    crate::error::ProcessFileError::Unknown(m)
}

/// What `process` must yield: an undeterminable mime and an unsupported
/// mime fail with their own errors and exact messages, and each supported
/// container format is handled by its extractor — exactly (via the
/// extractor's own postcondition) for the zip-backed formats, and with the
/// sampling-formula checksum for rar, whose other fields depend on what the
/// rar library read from disk.
pub open spec fn spec_process_post(
    source: MediaSource,
    r: Result<ProcessedMediaFile, crate::error::ProcessFileError>,
) -> bool {
    match spec_resolved_mime(source.content@, source.path@) {
        None => r matches Err(crate::error::ProcessFileError::Unknown(m)) && m@
            == spec_unknown_mime_message(source.path@),
        Some(m) => match spec_format_of(m) {
            Some(MediaFormat::Zip) => crate::zip::zip_process_post(
                source.content@,
                source.file_size,
                r,
            ),
            Some(MediaFormat::Rar) => {
                &&& r matches Ok(p) ==> crate::comic_info::opt_view(p.checksum)
                    == crate::checksum::spec_sample_digest(source.file_size, source.content@)
                &&& r matches Err(e) ==> (e is ArchiveOpenError || e is ArchiveReadError
                    || e is Utf8ConversionError)
            },
            Some(MediaFormat::Epub) => crate::epub::epub_process_post(
                source.content@,
                source.file_size,
                r,
            ),
            None => r matches Err(crate::error::ProcessFileError::UnsupportedFileType(t)) && t@
                == source.path@,
        },
    }
}

/// Process one media file: resolve its container format, run the matching
/// extractor, and fingerprint the content.
pub fn process(source: &MediaSource, options: &LibraryOptions) -> (r: Result<
    ProcessedMediaFile,
    crate::error::ProcessFileError,
>)
    ensures
        spec_process_post(*source, r),
{
    let mime = match infer_mime_from_path(source) {
        Some(m) => m,
        None => {
            return Err(unknown_mime_error(source.path.as_str()));
        },
    };
    match format_of(mime.as_str()) {
        Some(MediaFormat::Zip) => crate::zip::process_zip(&source.content, source.file_size),
        Some(MediaFormat::Rar) => crate::rar::process_rar(
            source.path.as_str(),
            options,
            source.file_size,
            &source.content,
        ),
        Some(MediaFormat::Epub) => crate::epub::process_epub(&source.content, source.file_size),
        None => Err(crate::error::ProcessFileError::UnsupportedFileType(source.path.clone())),
    }
}

/// Whether a source resolves to one of the zip-backed formats, whose
/// processing outcome is a function of the bytes alone.
pub open spec fn spec_routes_to_zip_based(source: MediaSource) -> bool {
    match spec_resolved_mime(source.content@, source.path@) {
        Some(m) => spec_format_of(m) == Some(MediaFormat::Zip) || spec_format_of(m) == Some(
            MediaFormat::Epub,
        ),
        None => false,
    }
}

/// Processing is deterministic: any two results for the same unmodified
/// source agree on the checksum, and for the zip-backed formats — whose
/// whole outcome is a function of the bytes — they also agree on success
/// and on the page count. (A rar archive is re-read from disk on each
/// call, so only its checksum is pinned by the contract.)
pub proof fn lemma_process_deterministic(
    source: MediaSource,
    r1: Result<ProcessedMediaFile, crate::error::ProcessFileError>,
    r2: Result<ProcessedMediaFile, crate::error::ProcessFileError>,
)
    requires
        spec_process_post(source, r1),
        spec_process_post(source, r2),
    ensures
        match (r1, r2) {
            (Ok(a), Ok(b)) => crate::comic_info::opt_view(a.checksum) == crate::comic_info::opt_view(
                b.checksum,
            ),
            _ => true,
        },
        spec_routes_to_zip_based(source) ==> {
            &&& (r1 is Ok) == (r2 is Ok)
            &&& match (r1, r2) {
                (Ok(a), Ok(b)) => a.pages == b.pages,
                _ => true,
            }
        },
{
}

/// The message attached to a rejected non-cover epub page request.
pub open spec fn spec_epub_page_message() -> Seq<char> {
    "You may only request the cover page (first page) for epub files on this endpoint"@
}

/// What `get_page` must yield. The format is resolved the same way as in
/// `process` — content sniffing with an extension fallback: zip-backed
/// formats serve the requested page per their postconditions, an epub
/// serves only its cover — any other page fails with an unsupported-type
/// error — and an undeterminable or unsupported mime fails with an exact
/// message. On the rar route the page comes from disk; its contract pins
/// the bounds rejection and the error taxonomy.
pub open spec fn spec_get_page_post(
    source: MediaSource,
    page: i32,
    r: Result<(String, Vec<u8>), crate::error::ProcessFileError>,
) -> bool {
    match spec_resolved_mime(source.content@, source.path@) {
        None => r matches Err(crate::error::ProcessFileError::Unknown(m)) && m@
            == spec_unknown_mime_message(source.path@),
        Some(m) => match spec_format_of(m) {
            Some(MediaFormat::Zip) => crate::zip::zip_page_post(source.content@, page, r),
            Some(MediaFormat::Rar) => {
                &&& page < 1 ==> r == Err::<
                    (String, Vec<u8>),
                    crate::error::ProcessFileError,
                >(crate::error::ProcessFileError::ArchiveReadError)
                &&& r matches Err(e) ==> (e is ArchiveOpenError || e is ArchiveReadError)
            },
            Some(MediaFormat::Epub) => {
                if page == 1 {
                    crate::epub::epub_cover_post(source.content@, r)
                } else {
                    r matches Err(crate::error::ProcessFileError::UnsupportedFileType(t)) && t@
                        == spec_epub_page_message()
                }
            },
            None => r matches Err(crate::error::ProcessFileError::UnsupportedFileType(t)) && t@
                == source.path@,
        },
    }
}

/// Serve one page of a media file, 1-indexed: the named image entry for
/// zip- and rar-backed comics, the cover for an epub.
pub fn get_page(source: &MediaSource, page: i32) -> (r: Result<
    (String, Vec<u8>),
    crate::error::ProcessFileError,
>)
    ensures
        spec_get_page_post(*source, page, r),
{
    let mime = match infer_mime_from_path(source) {
        Some(m) => m,
        None => {
            return Err(unknown_mime_error(source.path.as_str()));
        },
    };
    match format_of(mime.as_str()) {
        Some(MediaFormat::Zip) => crate::zip::get_zip_image(&source.content, page),
        Some(MediaFormat::Rar) => crate::rar::get_rar_image(source.path.as_str(), page),
        Some(MediaFormat::Epub) => {
            if page == 1 {
                crate::epub::get_epub_cover(&source.content)
            } else {
                let mut m = String::new();
                m.append(
                    "You may only request the cover page (first page) for epub files on this endpoint",
                );
                Err(crate::error::ProcessFileError::UnsupportedFileType(m))
            }
        },
        None => Err(crate::error::ProcessFileError::UnsupportedFileType(source.path.clone())),
    }
}

} // verus!
