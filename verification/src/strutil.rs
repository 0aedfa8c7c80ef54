//! Character-level string helpers: equality, suffix tests, ASCII case
//! folding, lexicographic comparison and decimal parsing, each tied to a
//! direct specification over the string's character sequence.

use vstd::prelude::*;

verus! {

/// Character-by-character string equality.
pub fn str_eq(a: &str, b: &str) -> (r: bool)
    ensures
        r == (a@ == b@),
{
    let alen = a.unicode_len();
    let blen = b.unicode_len();
    if alen != blen {
        proof {
            assert(a@.len() != b@.len() ==> a@ != b@);
        }
        return false;
    }
    let mut i: usize = 0;
    while i < alen
        invariant
            i <= alen,
            alen == a@.len(),
            alen == b@.len(),
            forall|k: int| 0 <= k < i ==> a@[k] == b@[k],
        decreases alen - i,
    {
        if a.get_char(i) != b.get_char(i) {
            return false;
        }
        i = i + 1;
    }
    proof {
        assert(a@ =~= b@);
    }
    true
}

/// ASCII lower-casing of one character; other characters are unchanged.
pub open spec fn spec_lower_char(c: char) -> char {
    if 'A' <= c <= 'Z' {
        ((c as u32) + 32) as char
    } else {
        c
    }
}

/// ASCII lower-casing of a character sequence.
pub open spec fn spec_lower(s: Seq<char>) -> Seq<char> {
    s.map_values(|c: char| spec_lower_char(c))
}

/// Lower-case an ASCII letter, leaving every other character unchanged.
pub fn lower_char(c: char) -> (r: char)
    ensures
        r == spec_lower_char(c),
{
    if 'A' <= c && c <= 'Z' {
        let v = (c as u32) + 32;
        proof {
            assert('a' <= spec_lower_char(c) <= 'z');
        }
        char_from_u32(v)
    } else {
        c
    }
}

/// Relies on char::from_u32: for values below the surrogate range it returns
/// the character with that code point.
#[verifier::external_body]
fn char_from_u32(v: u32) -> (r: char)
    requires
        v < 0xD800,
    ensures
        r == (v as char),
{
    match char::from_u32(v) {
        Some(c) => c,
        None => ' ',
    }
}

/// True when `s` ends with `suffix`.
pub open spec fn spec_ends_with(s: Seq<char>, suffix: Seq<char>) -> bool {
    s.len() >= suffix.len() && s.subrange(s.len() - suffix.len(), s.len() as int) == suffix
}

/// Suffix test on the character sequences.
pub fn ends_with(s: &str, suffix: &str) -> (r: bool)
    ensures
        r == spec_ends_with(s@, suffix@),
{
    let slen = s.unicode_len();
    let xlen = suffix.unicode_len();
    if xlen > slen {
        return false;
    }
    let mut i: usize = 0;
    while i < xlen
        invariant
            i <= xlen <= slen,
            slen == s@.len(),
            xlen == suffix@.len(),
            forall|k: int| 0 <= k < i ==> s@[s@.len() - xlen + k] == suffix@[k],
        decreases xlen - i,
    {
        if s.get_char(slen - xlen + i) != suffix.get_char(i) {
            proof {
                assert(s@.subrange(s@.len() - xlen, s@.len() as int)[i as int] != suffix@[i as int]);
            }
            return false;
        }
        i = i + 1;
    }
    proof {
        assert(s@.subrange(s@.len() - xlen, s@.len() as int) =~= suffix@);
    }
    true
}

/// Lexicographic order on character sequences (by code point).
pub open spec fn lex_le(a: Seq<char>, b: Seq<char>) -> bool
    decreases a.len(),
{
    if a.len() == 0 {
        true
    } else if b.len() == 0 {
        false
    } else if a[0] != b[0] {
        a[0] < b[0]
    } else {
        lex_le(a.drop_first(), b.drop_first())
    }
}

/// `lex_le` is total: any two strings compare one way or the other.
pub proof fn lemma_lex_le_total(a: Seq<char>, b: Seq<char>)
    ensures
        lex_le(a, b) || lex_le(b, a),
    decreases a.len(),
{
    if a.len() != 0 && b.len() != 0 && a[0] == b[0] {
        lemma_lex_le_total(a.drop_first(), b.drop_first());
    }
}

/// Lexicographic comparison of two strings.
pub fn str_le(a: &str, b: &str) -> (r: bool)
    ensures
        r == lex_le(a@, b@),
{
    let alen = a.unicode_len();
    let blen = b.unicode_len();
    let mut i: usize = 0;
    proof {
        assert(a@.skip(0) =~= a@);
        assert(b@.skip(0) =~= b@);
    }
    loop
        invariant
            i <= alen,
            i <= blen,
            alen == a@.len(),
            blen == b@.len(),
            lex_le(a@, b@) == lex_le(a@.skip(i as int), b@.skip(i as int)),
            forall|k: int| 0 <= k < i ==> a@[k] == b@[k],
        decreases alen - i,
    {
        if i >= alen {
            return true;
        }
        if i >= blen {
            return false;
        }
        let ca = a.get_char(i);
        let cb = b.get_char(i);
        proof {
            assert(a@.skip(i as int)[0] == ca);
            assert(b@.skip(i as int)[0] == cb);
            assert(a@.skip(i as int).drop_first() =~= a@.skip(i + 1));
            assert(b@.skip(i as int).drop_first() =~= b@.skip(i + 1));
        }
        if ca != cb {
            return ca < cb;
        }
        i = i + 1;
    }
}

/// `lex_le` is transitive.
pub proof fn lemma_lex_le_trans(a: Seq<char>, b: Seq<char>, c: Seq<char>)
    requires
        lex_le(a, b),
        lex_le(b, c),
    ensures
        lex_le(a, c),
    decreases a.len(),
{
    if a.len() != 0 && b.len() != 0 && c.len() != 0 && a[0] == b[0] && b[0] == c[0] {
        lemma_lex_le_trans(a.drop_first(), b.drop_first(), c.drop_first());
    }
}

/// The character sequences of a sequence of strings.
pub open spec fn views_of(v: Seq<String>) -> Seq<Seq<char>> {
    v.map_values(|s: String| s@)
}

/// `lex_le` as a relation value, for use with ordering predicates.
pub open spec fn lex_leq() -> spec_fn(Seq<char>, Seq<char>) -> bool {
    |a: Seq<char>, b: Seq<char>| lex_le(a, b)
}

/// `lex_le` is reflexive.
pub proof fn lemma_lex_le_refl(a: Seq<char>)
    ensures
        lex_le(a, a),
    decreases a.len(),
{
    if a.len() != 0 {
        lemma_lex_le_refl(a.drop_first());
    }
}

/// `lex_le` is antisymmetric.
pub proof fn lemma_lex_le_antisym(a: Seq<char>, b: Seq<char>)
    requires
        lex_le(a, b),
        lex_le(b, a),
    ensures
        a == b,
    decreases a.len(),
{
    if a.len() != 0 && b.len() != 0 {
        if a[0] == b[0] {
            lemma_lex_le_antisym(a.drop_first(), b.drop_first());
            assert(a =~= seq![a[0]] + a.drop_first());
            assert(b =~= seq![b[0]] + b.drop_first());
        }
    }
}

/// `lex_le` is a total ordering on character sequences.
pub proof fn lemma_lex_total_ordering()
    ensures
        vstd::relations::total_ordering(lex_leq()),
{
    assert forall|a: Seq<char>| #[trigger] lex_leq()(a, a) by {
        lemma_lex_le_refl(a);
    }
    assert forall|a: Seq<char>, b: Seq<char>|
        #[trigger] lex_leq()(a, b) && #[trigger] lex_leq()(b, a) implies a == b by {
        lemma_lex_le_antisym(a, b);
    }
    assert forall|a: Seq<char>, b: Seq<char>, c: Seq<char>|
        #[trigger] lex_leq()(a, b) && #[trigger] lex_leq()(b, c) implies lex_leq()(a, c) by {
        lemma_lex_le_trans(a, b, c);
    }
    assert forall|a: Seq<char>, b: Seq<char>| #[trigger] lex_leq()(a, b) || #[trigger] lex_leq()(
        b,
        a,
    ) by {
        lemma_lex_le_total(a, b);
    }
}

/// The strings are in ascending lexicographic order.
pub open spec fn sorted_lex(v: Seq<Seq<char>>) -> bool {
    forall|i: int, j: int| 0 <= i < j < v.len() ==> lex_le(v[i], v[j])
}

/// Inserting an element anywhere adds exactly it to the multiset.
proof fn lemma_insert_to_multiset<A>(s: Seq<A>, i: int, a: A)
    requires
        0 <= i <= s.len(),
    ensures
        s.insert(i, a).to_multiset() == s.to_multiset().insert(a),
{
    let t = s.insert(i, a);
    t.to_multiset_ensures();
    s.to_multiset_ensures();
    assert(t.remove(i) =~= s);
    assert(t[i] == a);
    assert(s.to_multiset() =~= t.to_multiset().remove(a));
    assert(t.contains(a)) by {
        assert(t[i] == a);
    }
    assert(t.to_multiset().count(a) > 0);
    assert(t.to_multiset() =~= s.to_multiset().insert(a));
}

/// Sort strings into ascending lexicographic order.
///
/// The result is a permutation of the input (same multiset of strings) and
/// ordered by `lex_le`; since the order is total, this pins the result up to
/// the placement of duplicates.
pub fn sort_strings(v: &mut Vec<String>)
    ensures
        views_of(final(v)@).to_multiset() == views_of(old(v)@).to_multiset(),
        final(v)@.len() == old(v)@.len(),
        sorted_lex(views_of(final(v)@)),
{
    let ghost orig = v@;
    let mut i: usize = 1;
    while i < v.len()
        invariant
            1 <= i,
            v@.len() == 0 || i <= v@.len(),
            views_of(v@).to_multiset() == views_of(orig).to_multiset(),
            v@.len() == orig.len(),
            forall|k: int, l: int| 0 <= k < l < i && l < v@.len() ==> lex_le(v@[k]@, v@[l]@),
        decreases v@.len() - i,
    {
        let ghost before = v@;
        let x = v.remove(i);
        proof {
            views_of(before).to_multiset_ensures();
            assert(views_of(v@) =~= views_of(before).remove(i as int));
            assert(views_of(before).contains(views_of(before)[i as int]));
        }
        let mut j: usize = 0;
        while j < i && str_le(v[j].as_str(), x.as_str())
            invariant
                j <= i,
                i < before.len(),
                v@ == before.remove(i as int),
                forall|k: int| 0 <= k < j ==> lex_le(v@[k]@, x@),
            decreases i - j,
        {
            j = j + 1;
        }
        proof {
            if j < i {
                lemma_lex_le_total(v@[j as int]@, x@);
            }
        }
        let ghost removed = v@;
        v.insert(j, x);
        proof {
            assert(views_of(v@) =~= views_of(removed).insert(j as int, x@));
            lemma_insert_to_multiset(views_of(removed), j as int, x@);
            assert(views_of(before).to_multiset().remove(views_of(before)[i as int]).insert(x@)
                =~= views_of(before).to_multiset());
            // the prefix of length i + 1 is sorted: every element before the
            // insertion point is at most x, and x is at most every element
            // from the insertion point on, by totality and transitivity
            assert forall|k: int, l: int| 0 <= k < l < i + 1 && l < v@.len() implies lex_le(
                v@[k]@,
                v@[l]@,
            ) by {
                let jj = j as int;
                if l < jj {
                    assert(v@[k] == removed[k] && v@[l] == removed[l]);
                } else if k < jj && l == jj {
                    assert(v@[l] == x && v@[k] == removed[k]);
                } else if k < jj && l > jj {
                    assert(v@[k] == removed[k] && v@[l] == removed[l - 1]);
                } else if k == jj {
                    assert(v@[k] == x && v@[l] == removed[l - 1]);
                    if jj < i {
                        assert(lex_le(x@, removed[jj]@));
                        if l - 1 > jj {
                            assert(lex_le(removed[jj]@, removed[l - 1]@));
                            lemma_lex_le_trans(x@, removed[jj]@, removed[l - 1]@);
                        }
                    }
                } else {
                    assert(v@[k] == removed[k - 1] && v@[l] == removed[l - 1]);
                }
            }
        }
        i = i + 1;
    }
    proof {
        if v@.len() == 0 {
        } else {
            assert(forall|k: int, l: int| 0 <= k < l < v@.len() ==> lex_le(views_of(v@)[k], views_of(v@)[l]));
        }
    }
}

/// Sort strings into ascending lexicographic order, pinned to the
/// specification-level sorted permutation.
pub fn sorted_by_name(names: Vec<String>) -> (r: Vec<String>)
    ensures
        views_of(r@) == views_of(names@).sort_by(lex_leq()),
{
    let ghost spec_names = views_of(names@);
    let mut v = names;
    sort_strings(&mut v);
    proof {
        lemma_lex_total_ordering();
        spec_names.lemma_sort_by_ensures(lex_leq());
        assert(vstd::relations::sorted_by(views_of(v@), lex_leq())) by {
            assert(sorted_lex(views_of(v@)));
            assert forall|i: int, j: int|
                0 <= i < j < views_of(v@).len() implies #[trigger] lex_leq()(
                views_of(v@)[i],
                views_of(v@)[j],
            ) by {
                assert(lex_le(views_of(v@)[i], views_of(v@)[j]));
            }
        }
        vstd::seq_lib::lemma_sorted_unique(views_of(v@), spec_names.sort_by(lex_leq()), lex_leq());
    }
    v
}

/// Whether a string holds a NUL character. Paths handed to C libraries
/// must not: a NUL cannot be represented in a C string.
pub open spec fn spec_has_nul(s: Seq<char>) -> bool {
    exists|i: int| 0 <= i < s.len() && s[i] == '\0'
}

/// Decide [`spec_has_nul`].
pub fn has_nul(s: &str) -> (r: bool)
    ensures
        r == spec_has_nul(s@),
{
    let len = s.unicode_len();
    let mut i: usize = 0;
    while i < len
        invariant
            i <= len,
            len == s@.len(),
            forall|k: int| 0 <= k < i ==> s@[k] != '\0',
        decreases len - i,
    {
        if s.get_char(i) == '\0' {
            return true;
        }
        i = i + 1;
    }
    false
}

/// What a byte sequence decodes to as UTF-8, or nothing when it is not
/// valid UTF-8.
pub uninterp spec fn utf8_decode(bytes: Seq<u8>) -> Option<Seq<char>>;

/// Relies on std::str::from_utf8: succeeds exactly on valid UTF-8 input, and
/// the decoded text is a function of the bytes alone.
#[verifier::external_body]
pub fn decode_utf8(bytes: &Vec<u8>) -> (r: Option<String>)
    ensures
        (r is Some) == (utf8_decode(bytes@) is Some),
        r matches Some(s) ==> utf8_decode(bytes@) == Some(s@),
{
    match std::str::from_utf8(bytes.as_slice()) {
        Ok(s) => Some(s.to_owned()),
        Err(_) => None,
    }
}

/// The numeric value of a decimal digit character, or none.
pub open spec fn spec_digit_value(c: char) -> Option<u32> {
    if '0' <= c <= '9' {
        Some(((c as u32) - ('0' as u32)) as u32)
    } else {
        None
    }
}

/// What a string of decimal digits denotes, reading left to right; none when
/// the string is empty, holds a non-digit, or denotes more than `u32::MAX`.
pub open spec fn spec_parse_u32(s: Seq<char>) -> Option<u32>
    decreases s.len(),
{
    if s.len() == 0 {
        None
    } else if s.len() == 1 {
        spec_digit_value(s[0])
    } else {
        match (spec_parse_u32(s.drop_last()), spec_digit_value(s.last())) {
            (Some(hi), Some(lo)) => {
                if hi * 10 + lo <= u32::MAX {
                    Some((hi * 10 + lo) as u32)
                } else {
                    None
                }
            },
            _ => None,
        }
    }
}

/// Parse a decimal number, rejecting empty input, non-digits and overflow.
pub fn parse_u32(s: &str) -> (r: Option<u32>)
    ensures
        r == spec_parse_u32(s@),
{
    let len = s.unicode_len();
    if len == 0 {
        return None;
    }
    let mut acc: u32 = 0;
    let mut i: usize = 0;
    while i < len
        invariant
            i <= len,
            len == s@.len(),
            len >= 1,
            if i == 0 {
                acc == 0
            } else {
                spec_parse_u32(s@.subrange(0, i as int)) == Some(acc)
            },
        decreases len - i,
    {
        let c = s.get_char(i);
        if c < '0' || c > '9' {
            proof {
                lemma_parse_u32_bad_digit(s@, i as int);
            }
            return None;
        }
        let d: u32 = (c as u32) - ('0' as u32);
        if i > 0 && (acc > 429496729 || (acc == 429496729 && d > 5)) {
            proof {
                lemma_parse_u32_overflow(s@, i as int, acc, d);
            }
            return None;
        }
        proof {
            assert(s@.subrange(0, i + 1 as int).drop_last() =~= s@.subrange(0, i as int));
            assert(s@.subrange(0, i + 1 as int).last() == c);
        }
        if i == 0 {
            acc = d;
            proof {
                assert(s@.subrange(0, 1) =~= seq![s@[0]]);
            }
        } else {
            acc = acc * 10 + d;
        }
        i = i + 1;
    }
    proof {
        assert(s@.subrange(0, len as int) =~= s@);
    }
    Some(acc)
}

/// A non-digit anywhere makes the whole parse fail.
proof fn lemma_parse_u32_bad_digit(s: Seq<char>, i: int)
    requires
        0 <= i < s.len(),
        spec_digit_value(s[i]) is None,
    ensures
        forall|j: int| i < j <= s.len() ==> spec_parse_u32(#[trigger] s.subrange(0, j)) is None,
    decreases s.len(),
{
    assert forall|j: int| i < j <= s.len() implies spec_parse_u32(#[trigger] s.subrange(0, j)) is None by {
        lemma_parse_u32_bad_digit_upto(s, i, j);
    }
}

proof fn lemma_parse_u32_bad_digit_upto(s: Seq<char>, i: int, j: int)
    requires
        0 <= i < j <= s.len(),
        spec_digit_value(s[i]) is None,
    ensures
        spec_parse_u32(s.subrange(0, j)) is None,
    decreases j,
{
    let p = s.subrange(0, j);
    if j == i + 1 {
        if p.len() > 1 {
            assert(p.last() == s[i]);
        } else {
            assert(p[0] == s[i]);
        }
    } else {
        lemma_parse_u32_bad_digit_upto(s, i, j - 1);
        assert(p.drop_last() =~= s.subrange(0, j - 1));
    }
}

/// Once the running value would exceed `u32::MAX`, every longer prefix fails.
proof fn lemma_parse_u32_overflow(s: Seq<char>, i: int, acc: u32, d: u32)
    requires
        1 <= i < s.len(),
        spec_parse_u32(s.subrange(0, i)) == Some(acc),
        spec_digit_value(s[i]) == Some(d),
        acc * 10 + d > u32::MAX,
    ensures
        forall|j: int| i < j <= s.len() ==> spec_parse_u32(#[trigger] s.subrange(0, j)) is None,
{
    assert(spec_parse_u32(s.subrange(0, i + 1)) is None) by {
        assert(s.subrange(0, i + 1).drop_last() =~= s.subrange(0, i));
        assert(s.subrange(0, i + 1).last() == s[i]);
    }
    assert forall|j: int| i + 1 < j <= s.len() implies spec_parse_u32(#[trigger] s.subrange(0, j)) is None by {
        lemma_parse_u32_none_extends(s, i + 1, j);
    }
}

/// A failed prefix can never be extended into a successful parse.
proof fn lemma_parse_u32_none_extends(s: Seq<char>, i: int, j: int)
    requires
        1 <= i < j <= s.len(),
        spec_parse_u32(s.subrange(0, i)) is None,
    ensures
        spec_parse_u32(s.subrange(0, j)) is None,
    decreases j - i,
{
    if j == i + 1 {
        assert(s.subrange(0, j).drop_last() =~= s.subrange(0, i));
    } else {
        lemma_parse_u32_none_extends(s, i, j - 1);
        assert(s.subrange(0, j).drop_last() =~= s.subrange(0, j - 1));
    }
}

} // verus!
