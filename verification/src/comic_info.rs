//! Embedded comic metadata.
//!
//! Archives may carry a `ComicInfo.xml` entry. This module parses the small
//! fragment of that format the library uses: top-level `<Tag>text</Tag>`
//! elements inside a `<ComicInfo>` document. A payload that does not look
//! like a ComicInfo document yields absent metadata, never an error.

use vstd::prelude::*;
use crate::strutil::spec_parse_u32;

verus! {

/// Structured metadata parsed from a `ComicInfo.xml` payload.
#[derive(Debug, Clone, PartialEq, Eq)]
pub struct MediaMetadata {
    pub series: Option<String>,
    pub number: Option<u32>,
    pub volume: Option<u32>,
    pub summary: Option<String>,
    pub publisher: Option<String>,
    pub genre: Option<String>,
    pub page_count: Option<u32>,
}

/// Whether `pat` occurs in `s` starting at index `i`.
pub open spec fn matches_at(s: Seq<char>, pat: Seq<char>, i: int) -> bool {
    0 <= i && i + pat.len() <= s.len() && s.subrange(i, i + pat.len()) == pat
}

/// Index of the first occurrence of `pat` in `s` at or after `from`.
pub open spec fn spec_find(s: Seq<char>, pat: Seq<char>, from: nat) -> Option<int>
    decreases s.len() + 1 - from,
{
    if from + pat.len() > s.len() {
        None
    } else if matches_at(s, pat, from as int) {
        Some(from as int)
    } else {
        spec_find(s, pat, from + 1)
    }
}

/// A found occurrence lies within bounds and really matches.
pub proof fn lemma_find_found(s: Seq<char>, pat: Seq<char>, from: nat, i: int)
    requires
        spec_find(s, pat, from) == Some(i),
    ensures
        from <= i,
        i + pat.len() <= s.len(),
        matches_at(s, pat, i),
    decreases s.len() + 1 - from,
{
    if from + pat.len() <= s.len() && !matches_at(s, pat, from as int) {
        lemma_find_found(s, pat, from + 1, i);
    }
}

/// Check a match of `pat` at position `i` of `s`.
fn matches_at_exec(s: &str, pat: &str, i: usize) -> (r: bool)
    requires
        i + pat@.len() <= s@.len(),
    ensures
        r == matches_at(s@, pat@, i as int),
{
    let slen = s.unicode_len();
    let plen = pat.unicode_len();
    let mut k: usize = 0;
    while k < plen
        invariant
            k <= plen,
            plen == pat@.len(),
            slen == s@.len(),
            i + plen <= slen,
            forall|j: int| 0 <= j < k ==> s@[i + j] == pat@[j],
        decreases plen - k,
    {
        if s.get_char(i + k) != pat.get_char(k) {
            proof {
                assert(s@.subrange(i as int, i + plen)[k as int] != pat@[k as int]);
            }
            return false;
        }
        k = k + 1;
    }
    proof {
        assert(s@.subrange(i as int, i + plen) =~= pat@);
    }
    true
}

/// Find the first occurrence of `pat` in `s` at or after `from`.
pub fn find_sub(s: &str, pat: &str, from: usize) -> (r: Option<usize>)
    requires
        from <= s@.len(),
    ensures
        match r {
            Some(i) => spec_find(s@, pat@, from as nat) == Some(i as int),
            None => spec_find(s@, pat@, from as nat) is None,
        },
{
    let slen = s.unicode_len();
    let plen = pat.unicode_len();
    if plen == 0 {
        proof {
            assert(s@.subrange(from as int, from as int) =~= pat@);
        }
        return Some(from);
    }
    let mut i: usize = from;
    loop
        invariant
            from <= i <= slen,
            slen == s@.len(),
            plen == pat@.len(),
            plen >= 1,
            spec_find(s@, pat@, from as nat) == spec_find(s@, pat@, i as nat),
        decreases slen - i,
    {
        if plen > slen - i {
            return None;
        }
        if matches_at_exec(s, pat, i) {
            return Some(i);
        }
        i = i + 1;
    }
}

/// The text of the first element delimited by `open_tag` and `close_tag`.
pub open spec fn spec_extract_tag(s: Seq<char>, open_tag: Seq<char>, close_tag: Seq<char>) -> Option<Seq<char>> {
    match spec_find(s, open_tag, 0) {
        Some(o) => {
            let start = o + open_tag.len();
            match spec_find(s, close_tag, start as nat) {
                Some(c) => Some(s.subrange(start, c)),
                None => None,
            }
        },
        None => None,
    }
}

/// Extract the text of the first `open_tag`…`close_tag` element.
pub fn extract_tag(s: &str, open_tag: &str, close_tag: &str) -> (r: Option<String>)
    ensures
        match r {
            Some(t) => spec_extract_tag(s@, open_tag@, close_tag@) == Some(t@),
            None => spec_extract_tag(s@, open_tag@, close_tag@) is None,
        },
{
    let slen = s.unicode_len();
    let o = match find_sub(s, open_tag, 0) {
        Some(o) => o,
        None => {
            return None;
        },
    };
    proof {
        lemma_find_found(s@, open_tag@, 0, o as int);
    }
    let start = o + open_tag.unicode_len();
    let c = match find_sub(s, close_tag, start) {
        Some(c) => c,
        None => {
            return None;
        },
    };
    proof {
        lemma_find_found(s@, close_tag@, start as nat, c as int);
    }
    let text = s.substring_char(start, c);
    Some(text.to_owned())
}

/// View of an optional string as an optional character sequence.
pub open spec fn opt_view(o: Option<String>) -> Option<Seq<char>> {
    match o {
        Some(s) => Some(s@),
        None => None,
    }
}

/// The number an optional digit string denotes.
pub open spec fn opt_parsed(o: Option<Seq<char>>) -> Option<u32> {
    match o {
        Some(t) => spec_parse_u32(t),
        None => None,
    }
}

/// A buffer holds comic metadata when it is non-empty and contains a
/// `ComicInfo` document opening.
pub open spec fn spec_is_comic_info(s: Seq<char>) -> bool {
    s.len() > 0 && spec_find(s, "<ComicInfo"@, 0) is Some
}

fn parse_text_field(buffer: &str, open_tag: &str, close_tag: &str) -> (r: Option<String>)
    ensures
        opt_view(r) == spec_extract_tag(buffer@, open_tag@, close_tag@),
{
    extract_tag(buffer, open_tag, close_tag)
}

fn parse_number_field(buffer: &str, open_tag: &str, close_tag: &str) -> (r: Option<u32>)
    ensures
        r == opt_parsed(spec_extract_tag(buffer@, open_tag@, close_tag@)),
{
    match extract_tag(buffer, open_tag, close_tag) {
        Some(t) => crate::strutil::parse_u32(t.as_str()),
        None => None,
    }
}

/// What parsing a metadata payload must yield: nothing for a buffer that is
/// not a ComicInfo document, otherwise the known elements, verbatim for text
/// and decimal-parsed for numbers.
pub open spec fn spec_comic_metadata(text: Seq<char>, r: Option<MediaMetadata>) -> bool {
    match r {
        None => !spec_is_comic_info(text),
        Some(m) => {
            &&& spec_is_comic_info(text)
            &&& opt_view(m.series) == spec_extract_tag(text, "<Series>"@, "</Series>"@)
            &&& m.number == opt_parsed(spec_extract_tag(text, "<Number>"@, "</Number>"@))
            &&& m.volume == opt_parsed(spec_extract_tag(text, "<Volume>"@, "</Volume>"@))
            &&& opt_view(m.summary) == spec_extract_tag(text, "<Summary>"@, "</Summary>"@)
            &&& opt_view(m.publisher) == spec_extract_tag(text, "<Publisher>"@, "</Publisher>"@)
            &&& opt_view(m.genre) == spec_extract_tag(text, "<Genre>"@, "</Genre>"@)
            &&& m.page_count == opt_parsed(spec_extract_tag(text, "<PageCount>"@, "</PageCount>"@))
        },
    }
}

/// Parse a `ComicInfo.xml` payload into structured metadata.
///
/// An empty buffer or one without a `<ComicInfo` opening parses to nothing;
/// otherwise each known element's text is taken verbatim, and the numeric
/// elements are kept only when they are plain decimal numbers.
pub fn process_comic_info(buffer: String) -> (r: Option<MediaMetadata>)
    ensures
        spec_comic_metadata(buffer@, r),
{
    let s = buffer.as_str();
    if s.unicode_len() == 0 {
        return None;
    }
    if find_sub(s, "<ComicInfo", 0).is_none() {
        return None;
    }
    Some(MediaMetadata {
        series: parse_text_field(s, "<Series>", "</Series>"),
        number: parse_number_field(s, "<Number>", "</Number>"),
        volume: parse_number_field(s, "<Volume>", "</Volume>"),
        summary: parse_text_field(s, "<Summary>", "</Summary>"),
        publisher: parse_text_field(s, "<Publisher>", "</Publisher>"),
        genre: parse_text_field(s, "<Genre>", "</Genre>"),
        page_count: parse_number_field(s, "<PageCount>", "</PageCount>"),
    })
}

} // verus!
