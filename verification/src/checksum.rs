//! Bounded-cost content fingerprint.
//!
//! Large archives are not hashed whole: a sample size is derived from the
//! file size, and the digest covers only that many leading bytes. The digest
//! itself is a 64-bit FNV-1a hash rendered as a fixed-width hex string —
//! deterministic and cheap, aimed at change detection, not security.

use vstd::prelude::*;

verus! {

/// Number of bytes in one digest sample.
pub const DIGEST_SAMPLE_SIZE: u64 = 10000;

/// Number of samples that bound the digest cost.
pub const DIGEST_SAMPLE_COUNT: u64 = 4;

/// Files smaller than this are hashed whole.
pub const DIGEST_THRESHOLD: u64 = DIGEST_SAMPLE_SIZE * DIGEST_SAMPLE_COUNT;

/// How many leading bytes of a file of the given size the digest covers.
pub open spec fn spec_sample_size(file_size: u64) -> int {
    let n = file_size as int;
    let t = DIGEST_THRESHOLD as int;
    if n < t {
        n
    } else if n / t > 4 {
        t
    } else {
        n / 2
    }
}

/// Sample size for a file of `file_size` bytes: the whole file when it is
/// small, a bounded cap when it is very large, half of it in between.
pub fn sample_size(file_size: u64) -> (s: u64)
    ensures
        s == spec_sample_size(file_size),
        s <= file_size,
{
    let threshold = DIGEST_SAMPLE_SIZE * DIGEST_SAMPLE_COUNT;
    if file_size < threshold {
        file_size
    } else {
        let division = file_size / threshold;
        if division > 4 {
            threshold
        } else {
            file_size / 2
        }
    }
}

/// The sample never exceeds the file size.
pub proof fn lemma_sample_size_bounded(file_size: u64)
    ensures
        0 <= spec_sample_size(file_size) <= file_size,
{
}

/// The pairs of file sizes on which the sample size is order-preserving.
///
/// The sampling formula steps down at the two regime changes (when the size
/// reaches the threshold, and again when the capped regime begins), so it is
/// not monotonic across those boundaries; this predicate excludes exactly the
/// crossing pairs for which the order is lost.
pub open spec fn sample_monotone_applies(a: u64, b: u64) -> bool {
    let t = DIGEST_THRESHOLD as int;
    &&& !(a < t && t <= b < 5 * t && a > (b as int) / 2)
    &&& !(t <= a < 5 * t && 5 * t <= b && (a as int) / 2 > t)
}

/// The sample size is non-decreasing in the file size, away from the
/// regime-crossing pairs excluded by [`sample_monotone_applies`].
pub proof fn lemma_sample_size_monotonic(a: u64, b: u64)
    requires
        a <= b,
        sample_monotone_applies(a, b),
    ensures
        spec_sample_size(a) <= spec_sample_size(b),
{
}

/// FNV-1a offset basis.
pub const FNV_OFFSET: u64 = 0xcbf29ce484222325;

/// FNV-1a prime.
pub const FNV_PRIME: u64 = 0x100000001b3;

/// One FNV-1a step: fold a byte into the running hash.
pub open spec fn fnv1a_step(h: u64, b: u8) -> u64 {
    (((h ^ (b as u64)) * (FNV_PRIME as int)) % 0x1_0000_0000_0000_0000) as u64
}

/// FNV-1a hash of a byte sequence.
pub open spec fn spec_fnv1a(bytes: Seq<u8>) -> u64
    decreases bytes.len(),
{
    if bytes.len() == 0 {
        FNV_OFFSET
    } else {
        fnv1a_step(spec_fnv1a(bytes.drop_last()), bytes.last())
    }
}

/// Hex digit for a nibble value.
pub open spec fn spec_hex_digit(n: u64) -> char {
    if n == 0 {
        '0'
    } else if n == 1 {
        '1'
    } else if n == 2 {
        '2'
    } else if n == 3 {
        '3'
    } else if n == 4 {
        '4'
    } else if n == 5 {
        '5'
    } else if n == 6 {
        '6'
    } else if n == 7 {
        '7'
    } else if n == 8 {
        '8'
    } else if n == 9 {
        '9'
    } else if n == 10 {
        'a'
    } else if n == 11 {
        'b'
    } else if n == 12 {
        'c'
    } else if n == 13 {
        'd'
    } else if n == 14 {
        'e'
    } else {
        'f'
    }
}

/// Fixed-width (16 digit) lower-case hex rendering of a 64-bit value.
pub open spec fn spec_hex64(x: u64) -> Seq<char> {
    Seq::new(16, |j: int| spec_hex_digit((x >> ((60 - 4 * j) as u64)) & 0xf))
}

/// The checksum string contents for a byte sequence.
pub open spec fn spec_digest(bytes: Seq<u8>) -> Seq<char> {
    spec_hex64(spec_fnv1a(bytes))
}

fn hex_digit_str(n: u64) -> (r: &'static str)
    requires
        n < 16,
    ensures
        r@ =~= seq![spec_hex_digit(n)],
{
    proof {
        reveal_strlit("0");
        reveal_strlit("1");
        reveal_strlit("2");
        reveal_strlit("3");
        reveal_strlit("4");
        reveal_strlit("5");
        reveal_strlit("6");
        reveal_strlit("7");
        reveal_strlit("8");
        reveal_strlit("9");
        reveal_strlit("a");
        reveal_strlit("b");
        reveal_strlit("c");
        reveal_strlit("d");
        reveal_strlit("e");
        reveal_strlit("f");
    }
    if n == 0 {
        "0"
    } else if n == 1 {
        "1"
    } else if n == 2 {
        "2"
    } else if n == 3 {
        "3"
    } else if n == 4 {
        "4"
    } else if n == 5 {
        "5"
    } else if n == 6 {
        "6"
    } else if n == 7 {
        "7"
    } else if n == 8 {
        "8"
    } else if n == 9 {
        "9"
    } else if n == 10 {
        "a"
    } else if n == 11 {
        "b"
    } else if n == 12 {
        "c"
    } else if n == 13 {
        "d"
    } else if n == 14 {
        "e"
    } else {
        "f"
    }
}

fn hex64(x: u64) -> (r: String)
    ensures
        r@ == spec_hex64(x),
{
    let mut out = String::new();
    let mut j: usize = 0;
    while j < 16
        invariant
            j <= 16,
            out@ =~= spec_hex64(x).subrange(0, j as int),
        decreases 16 - j,
    {
        let shift: u64 = 60 - 4 * (j as u64);
        let nib: u64 = (x >> shift) & 0xf;
        proof {
            assert((x >> shift) & 0xf < 16) by (bit_vector);
        }
        out.append(hex_digit_str(nib));
        assert(out@ =~= spec_hex64(x).subrange(0, j + 1 as int));
        j = j + 1;
    }
    proof {
        assert(spec_hex64(x).subrange(0, 16) =~= spec_hex64(x));
    }
    out
}

/// Digest of the first `size` bytes of `data`: FNV-1a, rendered in hex.
pub fn digest(data: &[u8], size: usize) -> (r: String)
    requires
        size <= data@.len(),
    ensures
        r@ == spec_digest(data@.subrange(0, size as int)),
{
    let mut h: u64 = FNV_OFFSET;
    let mut i: usize = 0;
    while i < size
        invariant
            i <= size <= data@.len(),
            h == spec_fnv1a(data@.subrange(0, i as int)),
        decreases size - i,
    {
        let b = data[i];
        proof {
            assert(data@.subrange(0, i + 1 as int).drop_last() =~= data@.subrange(0, i as int));
            assert(data@.subrange(0, i + 1 as int).last() == b);
        }
        let mixed: u64 = h ^ (b as u64);
        let prod: u128 = (mixed as u128) * (FNV_PRIME as u128);
        let h2: u64 = #[verifier::truncate] (prod as u64);
        proof {
            assert(prod == (mixed as int) * (FNV_PRIME as int)) by (nonlinear_arith)
                requires
                    prod == (mixed as u128) * (FNV_PRIME as u128),
                    mixed < 0x1_0000_0000_0000_0000,
            ;
            assert(h2 == prod % 0x1_0000_0000_0000_0000u128) by (bit_vector)
                requires
                    h2 == prod as u64,
            ;
            assert(h2 == fnv1a_step(h, b));
        }
        h = h2;
        i = i + 1;
    }
    hex64(h)
}

/// A file's size together with the leading bytes that the caller was able to
/// read for sampling; the digest never needs more of the file than this.
pub struct FileSample {
    pub file_size: u64,
    pub prefix: Vec<u8>,
}

/// The checksum a sample yields: present exactly when enough leading bytes
/// were read to cover the sample size.
pub open spec fn spec_sample_digest(file_size: u64, prefix: Seq<u8>) -> Option<Seq<char>> {
    let s = spec_sample_size(file_size);
    if prefix.len() >= s {
        Some(spec_digest(prefix.subrange(0, s)))
    } else {
        None
    }
}

/// Fingerprint of an archive from its size and sampled leading bytes.
///
/// A short read (fewer prefix bytes than the sample size calls for) models an
/// I/O failure during sampling and yields an absent checksum rather than an
/// error; the caller records the file as failed without aborting its batch.
pub fn digest_rar(sample: &FileSample) -> (r: Option<String>)
    ensures
        match r {
            Some(d) => spec_sample_digest(sample.file_size, sample.prefix@) == Some(d@),
            None => spec_sample_digest(sample.file_size, sample.prefix@) is None,
        },
{
    let s = sample_size(sample.file_size);
    if s <= sample.prefix.len() as u64 {
        Some(digest(sample.prefix.as_slice(), s as usize))
    } else {
        None
    }
}

} // verus!
