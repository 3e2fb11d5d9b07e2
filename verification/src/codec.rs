//! Shared byte-level primitives for the per-kind codecs: little-endian
//! 16-bit fields, fixed-width NUL-padded text fields, signed 16-bit stats,
//! and the lossy UTF-8 text decoding every textual field goes through.

use vstd::bytes::{spec_u16_from_le_bytes, spec_u16_to_le_bytes, u16_from_le_bytes, u16_to_le_bytes};
use vstd::prelude::*;
use vstd::utf8::{decode_utf8, encode_utf8, encode_utf8_decode_utf8, encode_utf8_valid_utf8, valid_utf8};

verus! {

/// What `String::from_utf8_lossy` yields on the given bytes: a function of
/// the bytes alone.  Nothing more is assumed of it than what
/// [`lossy_string`] states.
pub uninterp spec fn lossy_decode(bytes: Seq<u8>) -> Seq<char>;

/// The characters a textual wire field decodes to: valid UTF-8 decodes to
/// exactly its characters, anything else is lossily repaired.
pub open spec fn text_of(bytes: Seq<u8>) -> Seq<char> {
    if valid_utf8(bytes) {
        decode_utf8(bytes)
    } else {
        lossy_decode(bytes)
    }
}

/// Relies on `String::from_utf8_lossy`: the result depends on the bytes
/// alone, and, as documented, bytes that are valid UTF-8 decode to exactly
/// their characters.
#[verifier::external_body]
fn lossy_string(bytes: &[u8]) -> (r: String)
    ensures
        r@ == lossy_decode(bytes@),
        valid_utf8(bytes@) ==> r@ == decode_utf8(bytes@),
{
    String::from_utf8_lossy(bytes).into_owned()
}

/// Decodes a textual wire field to a `String`, repairing invalid UTF-8.
pub fn text_string(bytes: &[u8]) -> (r: String)
    ensures
        r@ == text_of(bytes@),
{
    lossy_string(bytes)
}

/// The index of the first NUL byte, or the length when there is none.
pub open spec fn first_nul(b: Seq<u8>) -> int
    decreases b.len(),
{
    if b.len() == 0 {
        0
    } else if b[0] == 0 {
        0
    } else {
        1 + first_nul(b.drop_first())
    }
}

/// The prefix before the first NUL byte: C-string semantics, discarding
/// everything from the first NUL on.
pub open spec fn nul_cut(b: Seq<u8>) -> Seq<u8> {
    b.subrange(0, first_nul(b))
}

/// `first_nul` is exactly the index of the first NUL: any position below a
/// NUL-free prefix that itself holds a NUL (or is the end) pins it down.
pub proof fn lemma_first_nul_is(b: Seq<u8>, n: int)
    requires
        0 <= n <= b.len(),
        forall|j: int| 0 <= j < n ==> b[j] != 0,
        n < b.len() ==> b[n] == 0,
    ensures
        first_nul(b) == n,
    decreases b.len(),
{
    if b.len() == 0 {
    } else if b[0] == 0 {
        assert(n == 0) by {
            if n > 0 {
                assert(b[0] != 0);
            }
        }
    } else {
        assert(n > 0) by {
            if n == 0 {
                assert(b[0] == 0);
            }
        }
        let t = b.drop_first();
        assert forall|j: int| 0 <= j < n - 1 implies t[j] != 0 by {
            assert(b[j + 1] != 0);
        }
        assert(n - 1 < t.len() ==> t[n - 1] == 0);
        lemma_first_nul_is(t, n - 1);
    }
}

/// A field of `b.len()` bytes resized to exactly `w` bytes: truncated when
/// too long, right-padded with NUL bytes when too short.
pub open spec fn pad_or_trim(b: Seq<u8>, w: nat) -> Seq<u8> {
    if b.len() >= w {
        b.subrange(0, w as int)
    } else {
        b + Seq::new((w - b.len()) as nat, |i: int| 0u8)
    }
}

/// A resized field is always exactly `w` bytes long.
pub proof fn lemma_pad_or_trim_len(b: Seq<u8>, w: nat)
    ensures
        pad_or_trim(b, w).len() == w,
{
}

/// Cutting a NUL-free field at the first NUL after padding it to its wire
/// width recovers the field exactly.
pub proof fn lemma_nul_cut_padded(b: Seq<u8>, w: nat)
    requires
        b.len() <= w,
        forall|j: int| 0 <= j < b.len() ==> b[j] != 0,
    ensures
        nul_cut(pad_or_trim(b, w)) == b,
{
    let p = pad_or_trim(b, w);
    assert(forall|j: int| 0 <= j < b.len() ==> p[j] == b[j]);
    lemma_first_nul_is(p, b.len() as int);
    assert(nul_cut(p) =~= b);
}

/// A character sequence fits a fixed-width text field of `w` bytes when its
/// UTF-8 encoding is at most `w` bytes long and holds no NUL byte, so that
/// NUL padding can be told apart from content.
pub open spec fn text_fits(s: Seq<char>, w: nat) -> bool {
    &&& encode_utf8(s).len() <= w
    &&& forall|j: int| 0 <= j < encode_utf8(s).len() ==> encode_utf8(s)[j] != 0
}

/// A fixed-width text field round-trips: padding a fitting name to its wire
/// width, cutting at the first NUL and decoding the UTF-8 yields the name.
pub proof fn lemma_text_field_round_trip(s: Seq<char>, w: nat)
    requires
        text_fits(s, w),
    ensures
        text_of(nul_cut(pad_or_trim(encode_utf8(s), w))) == s,
{
    lemma_nul_cut_padded(encode_utf8(s), w);
    encode_utf8_valid_utf8(s);
    encode_utf8_decode_utf8(s);
}

/// An unpadded variable-length text field round-trips: its UTF-8 encoding
/// decodes back to the same characters.
pub proof fn lemma_text_tail_round_trip(s: Seq<char>)
    ensures
        text_of(encode_utf8(s)) == s,
{
    encode_utf8_valid_utf8(s);
    encode_utf8_decode_utf8(s);
}

/// Appends every byte of `b` to `out`.
pub fn push_bytes(out: &mut Vec<u8>, b: &[u8])
    ensures
        final(out)@ == old(out)@ + b@,
{
    let mut i: usize = 0;
    while i < b.len()
        invariant
            i <= b@.len(),
            out@ == old(out)@ + b@.subrange(0, i as int),
        decreases b@.len() - i,
    {
        out.push(b[i]);
        proof {
            assert(out@ =~= old(out)@ + b@.subrange(0, (i + 1) as int));
        }
        i = i + 1;
    }
    proof {
        assert(out@ =~= old(out)@ + b@);
    }
}

/// Appends `b` resized to exactly `w` bytes: truncated when too long,
/// right-padded with NUL bytes when too short.
pub fn push_padded(out: &mut Vec<u8>, b: &[u8], w: usize)
    ensures
        final(out)@ == old(out)@ + pad_or_trim(b@, w as nat),
{
    let n: usize = if b.len() < w {
        b.len()
    } else {
        w
    };
    let mut i: usize = 0;
    while i < n
        invariant
            n <= b@.len(),
            i <= n,
            out@ == old(out)@ + b@.subrange(0, i as int),
        decreases n - i,
    {
        out.push(b[i]);
        proof {
            assert(out@ =~= old(out)@ + b@.subrange(0, (i + 1) as int));
        }
        i = i + 1;
    }
    let mut k: usize = n;
    while k < w
        invariant
            n <= k <= w,
            n <= b@.len(),
            out@ == old(out)@ + b@.subrange(0, n as int) + Seq::new((k - n) as nat, |x: int| 0u8),
        decreases w - k,
    {
        out.push(0);
        proof {
            assert(out@ =~= old(out)@ + b@.subrange(0, n as int) + Seq::new(
                (k + 1 - n) as nat,
                |x: int| 0u8,
            ));
        }
        k = k + 1;
    }
    proof {
        assert(out@ =~= old(out)@ + pad_or_trim(b@, w as nat));
    }
}

/// Appends the UTF-8 bytes of `s` resized to exactly `w` bytes.
pub fn push_text_field(out: &mut Vec<u8>, s: &str, w: usize)
    ensures
        final(out)@ == old(out)@ + pad_or_trim(encode_utf8(s@), w as nat),
{
    push_padded(out, s.as_bytes(), w);
}

/// Appends the two little-endian bytes of `x`.
pub fn push_u16_le(out: &mut Vec<u8>, x: u16)
    ensures
        final(out)@ == old(out)@ + spec_u16_to_le_bytes(x),
{
    let mut b = u16_to_le_bytes(x);
    out.append(&mut b);
}

/// Reads the little-endian 16-bit value at offset `i`.
pub fn read_u16_le(b: &[u8], i: usize) -> (r: u16)
    requires
        i + 2 <= b@.len(),
    ensures
        r == spec_u16_from_le_bytes(b@.subrange(i as int, i as int + 2)),
{
    // The slice length bounds i + 2 away from usize overflow.
    let n = b.len();
    u16_from_le_bytes(&b[i..i + 2])
}

/// The slice of `b` before the first NUL byte.
pub fn cut_at_nul<'a>(b: &'a [u8]) -> (r: &'a [u8])
    ensures
        r@ == nul_cut(b@),
{
    let mut i: usize = 0;
    while i < b.len() && b[i] != 0
        invariant
            i <= b@.len(),
            forall|j: int| 0 <= j < i ==> b@[j] != 0,
        decreases b@.len() - i,
    {
        i = i + 1;
    }
    proof {
        lemma_first_nul_is(b@, i as int);
    }
    &b[0..i]
}

/// The 16-bit two's-complement pattern a signed stat is written as.
pub open spec fn spec_i16_to_bits(h: i16) -> u16 {
    if h >= 0 {
        h as u16
    } else {
        (h + 0x10000) as u16
    }
}

/// The signed stat a 16-bit wire pattern decodes to.
pub open spec fn spec_i16_from_bits(b: u16) -> i16 {
    if b < 0x8000 {
        b as i16
    } else {
        (b - 0x10000) as i16
    }
}

/// Converts a signed stat to its 16-bit wire pattern.
pub fn i16_to_bits(h: i16) -> (r: u16)
    ensures
        r == spec_i16_to_bits(h),
{
    if h >= 0 {
        h as u16
    } else {
        ((h as i32) + 0x10000) as u16
    }
}

/// Converts a 16-bit wire pattern back to the signed stat it encodes.
pub fn i16_from_bits(b: u16) -> (r: i16)
    ensures
        r == spec_i16_from_bits(b),
{
    if b < 0x8000 {
        b as i16
    } else {
        ((b as i32) - 0x10000) as i16
    }
}

/// The signed-stat wire pattern round-trips in both directions.
pub proof fn lemma_i16_bits_round_trip(h: i16, b: u16)
    ensures
        spec_i16_from_bits(spec_i16_to_bits(h)) == h,
        spec_i16_to_bits(spec_i16_from_bits(b)) == b,
{
}

} // verus!
