//! Primitive layer of the wire codec: heads, integers, byte strings,
//! text strings and simple values, with proofs that decoding inverts
//! encoding.
//!
//! Every value on the wire starts with a head byte holding a major kind
//! in its upper three bits and a small count in its lower five; counts of
//! 24 and above spill into 1, 2, 4 or 8 big-endian tail bytes.  Parsing
//! functions return the decoded value together with the unread remainder
//! of the input.

use vstd::prelude::*;
use vstd::utf8::{
    decode_utf8, encode_utf8, encode_utf8_decode_utf8, encode_utf8_valid_utf8, valid_utf8,
};
use crate::textutil::{bytes_eq, utf8_range_to_string};

verus! {

/// Major kind of unsigned integers.
pub const MAJOR_UINT: u8 = 0;

/// Major kind of negative integers (value encodes `-1 - n`).
pub const MAJOR_NINT: u8 = 1;

/// Major kind of raw byte strings.
pub const MAJOR_BYTES: u8 = 2;

/// Major kind of UTF-8 text strings.
pub const MAJOR_TEXT: u8 = 3;

/// Major kind of arrays.
pub const MAJOR_ARRAY: u8 = 4;

/// Major kind of maps.
pub const MAJOR_MAP: u8 = 5;

/// Encoded `false`.
pub const SIMPLE_FALSE: u8 = 0xf4;

/// Encoded `true`.
pub const SIMPLE_TRUE: u8 = 0xf5;

/// Encoded null, used for absent optional values.
pub const SIMPLE_NULL: u8 = 0xf6;

/// Two big-endian bytes of `v`.
pub open spec fn spec_be2(v: u64) -> Seq<u8> {
    seq![(v / 0x100) as u8, (v % 0x100) as u8]
}

/// Four big-endian bytes of `v`.
pub open spec fn spec_be4(v: u64) -> Seq<u8> {
    seq![
        (v / 0x1000000) as u8,
        ((v / 0x10000) % 0x100) as u8,
        ((v / 0x100) % 0x100) as u8,
        (v % 0x100) as u8,
    ]
}

/// Eight big-endian bytes of `v`.
pub open spec fn spec_be8(v: u64) -> Seq<u8> {
    seq![
        (v / 0x100000000000000) as u8,
        ((v / 0x1000000000000) % 0x100) as u8,
        ((v / 0x10000000000) % 0x100) as u8,
        ((v / 0x100000000) % 0x100) as u8,
        ((v / 0x1000000) % 0x100) as u8,
        ((v / 0x10000) % 0x100) as u8,
        ((v / 0x100) % 0x100) as u8,
        (v % 0x100) as u8,
    ]
}

/// Head of a wire item: major kind `major` with count `v`, in the
/// shortest form.
pub open spec fn spec_enc_uint(major: u8, v: u64) -> Seq<u8> {
    if v < 24 {
        seq![(major * 0x20 + v) as u8]
    } else if v < 0x100 {
        seq![(major * 0x20 + 24) as u8, v as u8]
    } else if v < 0x10000 {
        seq![(major * 0x20 + 25) as u8] + spec_be2(v)
    } else if v < 0x100000000 {
        seq![(major * 0x20 + 26) as u8] + spec_be4(v)
    } else {
        seq![(major * 0x20 + 27) as u8] + spec_be8(v)
    }
}

/// Parses one head: major kind, count, and the unread remainder.
#[verifier::opaque]
pub open spec fn spec_dec_head(b: Seq<u8>) -> Option<(u8, u64, Seq<u8>)> {
    if b.len() < 1 {
        None
    } else {
        let m = b[0] / 0x20;
        let info = b[0] % 0x20;
        if info < 24 {
            Some((m, info as u64, b.skip(1)))
        } else if info == 24 {
            if b.len() >= 2 {
                Some((m, b[1] as u64, b.skip(2)))
            } else {
                None
            }
        } else if info == 25 {
            if b.len() >= 3 {
                Some((m, (b[1] * 0x100 + b[2]) as u64, b.skip(3)))
            } else {
                None
            }
        } else if info == 26 {
            if b.len() >= 5 {
                Some(
                    (
                        m,
                        (b[1] * 0x1000000 + b[2] * 0x10000 + b[3] * 0x100 + b[4]) as u64,
                        b.skip(5),
                    ),
                )
            } else {
                None
            }
        } else if info == 27 {
            if b.len() >= 9 {
                Some(
                    (
                        m,
                        (b[1] * 0x100000000000000 + b[2] * 0x1000000000000 + b[3] * 0x10000000000
                            + b[4] * 0x100000000 + b[5] * 0x1000000 + b[6] * 0x10000 + b[7] * 0x100
                            + b[8]) as u64,
                        b.skip(9),
                    ),
                )
            } else {
                None
            }
        } else {
            None
        }
    }
}

/// Decoding a head inverts encoding one.
pub proof fn lemma_dec_head_enc(major: u8, v: u64, rest: Seq<u8>)
    requires
        major < 6,
    ensures
        spec_dec_head(spec_enc_uint(major, v) + rest) == Some((major, v, rest)),
{
    reveal(spec_dec_head);
    let e = spec_enc_uint(major, v);
    let all = e + rest;
    if v < 24 {
        assert(all[0] == (major * 0x20 + v) as u8);
        assert((major * 0x20 + v as u8) / 0x20 == major);
        assert((major * 0x20 + v as u8) % 0x20 == v);
        assert(all.skip(1) =~= rest);
    } else if v < 0x100 {
        assert(all[0] == (major * 0x20 + 24) as u8);
        assert(all[1] == v as u8);
        assert((major * 0x20 + 24) / 0x20 == major);
        assert((major * 0x20 + 24) % 0x20 == 24);
        assert(all.skip(2) =~= rest);
    } else if v < 0x10000 {
        assert(all[0] == (major * 0x20 + 25) as u8);
        assert(all[1] == (v / 0x100) as u8);
        assert(all[2] == (v % 0x100) as u8);
        assert((major * 0x20 + 25) / 0x20 == major);
        assert((major * 0x20 + 25) % 0x20 == 25);
        assert((v / 0x100) * 0x100 + v % 0x100 == v);
        assert(all.skip(3) =~= rest);
    } else if v < 0x100000000 {
        assert(all[0] == (major * 0x20 + 26) as u8);
        assert(all[1] == (v / 0x1000000) as u8);
        assert(all[2] == ((v / 0x10000) % 0x100) as u8);
        assert(all[3] == ((v / 0x100) % 0x100) as u8);
        assert(all[4] == (v % 0x100) as u8);
        assert((major * 0x20 + 26) / 0x20 == major);
        assert((major * 0x20 + 26) % 0x20 == 26);
        assert((v / 0x1000000) * 0x1000000 + ((v / 0x10000) % 0x100) * 0x10000 + ((v / 0x100)
            % 0x100) * 0x100 + v % 0x100 == v) by {
            lemma_be_recompose_4(v);
        }
        assert(all.skip(5) =~= rest);
    } else {
        assert(all[0] == (major * 0x20 + 27) as u8);
        assert(all[1] == (v / 0x100000000000000) as u8);
        assert(all[2] == ((v / 0x1000000000000) % 0x100) as u8);
        assert(all[3] == ((v / 0x10000000000) % 0x100) as u8);
        assert(all[4] == ((v / 0x100000000) % 0x100) as u8);
        assert(all[5] == ((v / 0x1000000) % 0x100) as u8);
        assert(all[6] == ((v / 0x10000) % 0x100) as u8);
        assert(all[7] == ((v / 0x100) % 0x100) as u8);
        assert(all[8] == (v % 0x100) as u8);
        assert((major * 0x20 + 27) / 0x20 == major);
        assert((major * 0x20 + 27) % 0x20 == 27);
        assert((v / 0x100000000000000) * 0x100000000000000 + ((v / 0x1000000000000) % 0x100)
            * 0x1000000000000 + ((v / 0x10000000000) % 0x100) * 0x10000000000 + ((v / 0x100000000)
            % 0x100) * 0x100000000 + ((v / 0x1000000) % 0x100) * 0x1000000 + ((v / 0x10000) % 0x100)
            * 0x10000 + ((v / 0x100) % 0x100) * 0x100 + v % 0x100 == v) by {
            lemma_be_recompose_8(v);
        }
        assert(all.skip(9) =~= rest);
    }
}

/// Big-endian recomposition over four byte positions.
proof fn lemma_be_recompose_4(v: u64)
    requires
        v < 0x100000000,
    ensures
        (v / 0x1000000) * 0x1000000 + ((v / 0x10000) % 0x100) * 0x10000 + ((v / 0x100) % 0x100)
            * 0x100 + v % 0x100 == v,
{
    vstd::arithmetic::div_mod::lemma_fundamental_div_mod(v as int, 0x100);
    lemma_div_mod_split(v as int, 0x100, 0x100);
    lemma_div_mod_split(v as int, 0x10000, 0x100);
}

/// Big-endian recomposition over eight byte positions.
proof fn lemma_be_recompose_8(v: u64)
    ensures
        (v / 0x100000000000000) * 0x100000000000000 + ((v / 0x1000000000000) % 0x100)
            * 0x1000000000000 + ((v / 0x10000000000) % 0x100) * 0x10000000000 + ((v / 0x100000000)
            % 0x100) * 0x100000000 + ((v / 0x1000000) % 0x100) * 0x1000000 + ((v / 0x10000) % 0x100)
            * 0x10000 + ((v / 0x100) % 0x100) * 0x100 + v % 0x100 == v,
{
    vstd::arithmetic::div_mod::lemma_fundamental_div_mod(v as int, 0x100);
    lemma_div_mod_split(v as int, 0x100, 0x100);
    lemma_div_mod_split(v as int, 0x10000, 0x100);
    lemma_div_mod_split(v as int, 0x1000000, 0x100);
    lemma_div_mod_split(v as int, 0x100000000, 0x100);
    lemma_div_mod_split(v as int, 0x10000000000, 0x100);
    lemma_div_mod_split(v as int, 0x1000000000000, 0x100);
    assert(v / 0x100000000000000 < 0x100);
}

/// `v / a` splits into `v / (a * b)` and `(v / a) % b`.
proof fn lemma_div_mod_split(v: int, a: int, b: int)
    requires
        v >= 0,
        a > 0,
        b > 0,
    ensures
        v / a == (v / (a * b)) * b + (v / a) % b,
        v / (a * b) == (v / a) / b,
{
    vstd::arithmetic::div_mod::lemma_div_denominator(v, a, b);
    vstd::arithmetic::div_mod::lemma_fundamental_div_mod(v / a, b);
}

/// Encoded heads of the listed major kinds never begin with a simple
/// value byte, so optional values are unambiguous.
pub proof fn lemma_enc_not_null(major: u8, v: u64)
    requires
        major < 6,
    ensures
        spec_enc_uint(major, v).len() >= 1,
        spec_enc_uint(major, v)[0] < 0xc0,
        spec_enc_uint(major, v)[0] != SIMPLE_NULL,
{
}

/// Appends the raw bytes of `s` to `out`.
pub fn push_bytes(out: &mut Vec<u8>, s: &[u8])
    ensures
        final(out)@ == old(out)@ + s@,
{
    let n: usize = s.len();
    let mut i: usize = 0;
    while i < n
        invariant
            n == s@.len(),
            i <= n,
            out@ == old(out)@ + s@.take(i as int),
        decreases n - i,
    {
        out.push(s[i]);
        proof {
            assert(old(out)@ + s@.take(i as int) + seq![s@[i as int]] =~= old(out)@ + s@.take(
                i as int + 1,
            ));
        }
        i = i + 1;
    }
    proof {
        assert(s@.take(n as int) =~= s@);
    }
}

/// Appends the head for major kind `major` with count `v`.
pub fn enc_uint(out: &mut Vec<u8>, major: u8, v: u64)
    requires
        major < 6,
    ensures
        final(out)@ == old(out)@ + spec_enc_uint(major, v),
{
    if v < 24 {
        out.push(major * 0x20 + v as u8);
        proof {
            assert(out@ =~= old(out)@ + spec_enc_uint(major, v));
        }
    } else if v < 0x100 {
        out.push(major * 0x20 + 24);
        out.push(v as u8);
        proof {
            assert(out@ =~= old(out)@ + spec_enc_uint(major, v));
        }
    } else if v < 0x10000 {
        out.push(major * 0x20 + 25);
        out.push((v / 0x100) as u8);
        out.push((v % 0x100) as u8);
        proof {
            assert(out@ =~= old(out)@ + spec_enc_uint(major, v));
        }
    } else if v < 0x100000000 {
        out.push(major * 0x20 + 26);
        out.push((v / 0x1000000) as u8);
        out.push(((v / 0x10000) % 0x100) as u8);
        out.push(((v / 0x100) % 0x100) as u8);
        out.push((v % 0x100) as u8);
        proof {
            assert(out@ =~= old(out)@ + spec_enc_uint(major, v));
        }
    } else {
        out.push(major * 0x20 + 27);
        out.push((v / 0x100000000000000) as u8);
        out.push(((v / 0x1000000000000) % 0x100) as u8);
        out.push(((v / 0x10000000000) % 0x100) as u8);
        out.push(((v / 0x100000000) % 0x100) as u8);
        out.push(((v / 0x1000000) % 0x100) as u8);
        out.push(((v / 0x10000) % 0x100) as u8);
        out.push(((v / 0x100) % 0x100) as u8);
        out.push((v % 0x100) as u8);
        proof {
            assert(out@ =~= old(out)@ + spec_enc_uint(major, v));
        }
    }
}

/// Reads one head at `pos`.
pub fn dec_head(buf: &[u8], pos: usize) -> (r: Option<(u8, u64, usize)>)
    requires
        pos <= buf@.len(),
    ensures
        ({
            let s = buf@.skip(pos as int);
            match spec_dec_head(s) {
                Some((m, v, rem)) => r matches Some((rm, rv, end)) && rm == m && rv == v && pos
                    <= end <= buf@.len() && buf@.skip(end as int) == rem,
                None => r is None,
            }
        }),
{
    reveal(spec_dec_head);
    let len: usize = buf.len();
    let ghost s = buf@.skip(pos as int);
    if pos >= len {
        return None;
    }
    let h = buf[pos];
    let m = h / 0x20;
    let info = h % 0x20;
    proof {
        assert(s[0] == buf@[pos as int]);
    }
    if info < 24 {
        proof {
            assert(buf@.skip(pos as int + 1) =~= s.skip(1));
        }
        Some((m, info as u64, pos + 1))
    } else if info == 24 {
        if len - pos >= 2 {
            proof {
                assert(s[1] == buf@[pos as int + 1]);
                assert(buf@.skip(pos as int + 2) =~= s.skip(2));
            }
            Some((m, buf[pos + 1] as u64, pos + 2))
        } else {
            None
        }
    } else if info == 25 {
        if len - pos >= 3 {
            proof {
                assert(s[1] == buf@[pos as int + 1]);
                assert(s[2] == buf@[pos as int + 2]);
                assert(buf@.skip(pos as int + 3) =~= s.skip(3));
            }
            let v = (buf[pos + 1] as u64) * 0x100 + (buf[pos + 2] as u64);
            Some((m, v, pos + 3))
        } else {
            None
        }
    } else if info == 26 {
        if len - pos >= 5 {
            proof {
                assert forall|k: int| 1 <= k < 5 implies s[k] == buf@[pos as int + k] by {}
                assert(buf@.skip(pos as int + 5) =~= s.skip(5));
            }
            let v = (buf[pos + 1] as u64) * 0x1000000 + (buf[pos + 2] as u64) * 0x10000 + (buf[pos
                + 3] as u64) * 0x100 + (buf[pos + 4] as u64);
            Some((m, v, pos + 5))
        } else {
            None
        }
    } else if info == 27 {
        if len - pos >= 9 {
            proof {
                assert forall|k: int| 1 <= k < 9 implies s[k] == buf@[pos as int + k] by {}
                assert(buf@.skip(pos as int + 9) =~= s.skip(9));
            }
            let v = (buf[pos + 1] as u64) * 0x100000000000000 + (buf[pos + 2] as u64)
                * 0x1000000000000 + (buf[pos + 3] as u64) * 0x10000000000 + (buf[pos + 4] as u64)
                * 0x100000000 + (buf[pos + 5] as u64) * 0x1000000 + (buf[pos + 6] as u64) * 0x10000
                + (buf[pos + 7] as u64) * 0x100 + (buf[pos + 8] as u64);
            Some((m, v, pos + 9))
        } else {
            None
        }
    } else {
        None
    }
}

/// Encoded byte string: a bytes head followed by the payload.
pub open spec fn spec_enc_bytes(p: Seq<u8>) -> Seq<u8> {
    spec_enc_uint(MAJOR_BYTES, p.len() as u64) + p
}

/// Encoded text string: a text head followed by the UTF-8 bytes.
pub open spec fn spec_enc_text(s: Seq<char>) -> Seq<u8> {
    spec_enc_uint(MAJOR_TEXT, encode_utf8(s).len() as u64) + encode_utf8(s)
}

/// Parses the payload of a byte or text string of major kind `major`.
#[verifier::opaque]
pub open spec fn spec_dec_segment(b: Seq<u8>, major: u8) -> Option<(Seq<u8>, Seq<u8>)> {
    match spec_dec_head(b) {
        Some((m, v, rem)) => {
            if m == major && v <= rem.len() {
                Some((rem.take(v as int), rem.skip(v as int)))
            } else {
                None
            }
        },
        None => None,
    }
}

/// Parses a text string into its character sequence.
#[verifier::opaque]
pub open spec fn spec_dec_text(b: Seq<u8>) -> Option<(Seq<char>, Seq<u8>)> {
    match spec_dec_segment(b, MAJOR_TEXT) {
        Some((seg, rem)) => {
            if valid_utf8(seg) {
                Some((decode_utf8(seg), rem))
            } else {
                None
            }
        },
        None => None,
    }
}

/// Parses a byte string into its payload.
pub open spec fn spec_dec_bytes(b: Seq<u8>) -> Option<(Seq<u8>, Seq<u8>)> {
    spec_dec_segment(b, MAJOR_BYTES)
}

/// Parses a text string and requires it to spell `name` exactly.
#[verifier::opaque]
pub open spec fn spec_dec_key(b: Seq<u8>, name: Seq<char>) -> Option<Seq<u8>> {
    match spec_dec_segment(b, MAJOR_TEXT) {
        Some((seg, rem)) => {
            if seg == encode_utf8(name) {
                Some(rem)
            } else {
                None
            }
        },
        None => None,
    }
}

/// Encoded boolean.
pub open spec fn spec_enc_bool(v: bool) -> Seq<u8> {
    if v {
        seq![SIMPLE_TRUE]
    } else {
        seq![SIMPLE_FALSE]
    }
}

/// Parses a boolean.
#[verifier::opaque]
pub open spec fn spec_dec_bool(b: Seq<u8>) -> Option<(bool, Seq<u8>)> {
    if b.len() >= 1 && b[0] == SIMPLE_TRUE {
        Some((true, b.skip(1)))
    } else if b.len() >= 1 && b[0] == SIMPLE_FALSE {
        Some((false, b.skip(1)))
    } else {
        None
    }
}

/// Encoded unsigned 64-bit value.
pub open spec fn spec_enc_u64(v: u64) -> Seq<u8> {
    spec_enc_uint(MAJOR_UINT, v)
}

/// Parses an unsigned 64-bit value.
#[verifier::opaque]
pub open spec fn spec_dec_u64(b: Seq<u8>) -> Option<(u64, Seq<u8>)> {
    match spec_dec_head(b) {
        Some((m, v, rem)) => {
            if m == MAJOR_UINT {
                Some((v, rem))
            } else {
                None
            }
        },
        None => None,
    }
}

/// Parses an unsigned 32-bit value.
#[verifier::opaque]
pub open spec fn spec_dec_u32(b: Seq<u8>) -> Option<(u32, Seq<u8>)> {
    match spec_dec_u64(b) {
        Some((v, rem)) => {
            if v <= u32::MAX as u64 {
                Some((v as u32, rem))
            } else {
                None
            }
        },
        None => None,
    }
}

/// Parses an unsigned 16-bit value.
#[verifier::opaque]
pub open spec fn spec_dec_u16(b: Seq<u8>) -> Option<(u16, Seq<u8>)> {
    match spec_dec_u64(b) {
        Some((v, rem)) => {
            if v <= u16::MAX as u64 {
                Some((v as u16, rem))
            } else {
                None
            }
        },
        None => None,
    }
}

/// Encoded signed 32-bit value: nonnegative values use the unsigned kind,
/// negative values the negative kind with count `-1 - v`.
pub open spec fn spec_enc_i32(v: i32) -> Seq<u8> {
    if v >= 0 {
        spec_enc_uint(MAJOR_UINT, v as u64)
    } else {
        spec_enc_uint(MAJOR_NINT, (-1 - v) as u64)
    }
}

/// Parses a signed 32-bit value.
#[verifier::opaque]
pub open spec fn spec_dec_i32(b: Seq<u8>) -> Option<(i32, Seq<u8>)> {
    match spec_dec_head(b) {
        Some((m, v, rem)) => {
            if m == MAJOR_UINT && v <= i32::MAX as u64 {
                Some((v as i32, rem))
            } else if m == MAJOR_NINT && v <= i32::MAX as u64 {
                Some(((-1 - v as int) as i32, rem))
            } else {
                None
            }
        },
        None => None,
    }
}

/// Decoding a byte string inverts encoding one.
pub proof fn lemma_dec_bytes_enc(p: Seq<u8>, rest: Seq<u8>)
    requires
        p.len() <= u64::MAX,
    ensures
        spec_dec_bytes(spec_enc_bytes(p) + rest) == Some((p, rest)),
{
    reveal(spec_dec_segment);
    let head = spec_enc_uint(MAJOR_BYTES, p.len() as u64);
    assert(spec_enc_bytes(p) + rest =~= head + (p + rest));
    lemma_dec_head_enc(MAJOR_BYTES, p.len() as u64, p + rest);
    assert((p + rest).take(p.len() as int) =~= p);
    assert((p + rest).skip(p.len() as int) =~= rest);
}

/// Decoding a segment inverts encoding a text string, at the byte level.
pub proof fn lemma_dec_segment_enc_text(s: Seq<char>, rest: Seq<u8>)
    requires
        encode_utf8(s).len() <= u64::MAX,
    ensures
        spec_dec_segment(spec_enc_text(s) + rest, MAJOR_TEXT) == Some((encode_utf8(s), rest)),
{
    reveal(spec_dec_segment);
    let u = encode_utf8(s);
    let head = spec_enc_uint(MAJOR_TEXT, u.len() as u64);
    assert(spec_enc_text(s) + rest =~= head + (u + rest));
    lemma_dec_head_enc(MAJOR_TEXT, u.len() as u64, u + rest);
    assert((u + rest).take(u.len() as int) =~= u);
    assert((u + rest).skip(u.len() as int) =~= rest);
}

/// Decoding a text string inverts encoding one.
pub proof fn lemma_dec_text_enc(s: Seq<char>, rest: Seq<u8>)
    requires
        encode_utf8(s).len() <= u64::MAX,
    ensures
        spec_dec_text(spec_enc_text(s) + rest) == Some((s, rest)),
{
    reveal(spec_dec_text);
    lemma_dec_segment_enc_text(s, rest);
    encode_utf8_valid_utf8(s);
    encode_utf8_decode_utf8(s);
}

/// Decoding a key inverts encoding its name.
pub proof fn lemma_dec_key_enc(name: Seq<char>, rest: Seq<u8>)
    requires
        encode_utf8(name).len() <= u64::MAX,
    ensures
        spec_dec_key(spec_enc_text(name) + rest, name) == Some(rest),
{
    reveal(spec_dec_key);
    lemma_dec_segment_enc_text(name, rest);
}

/// Decoding an unsigned value inverts encoding one.
pub proof fn lemma_dec_u64_enc(v: u64, rest: Seq<u8>)
    ensures
        spec_dec_u64(spec_enc_u64(v) + rest) == Some((v, rest)),
{
    reveal(spec_dec_u64);
    lemma_dec_head_enc(MAJOR_UINT, v, rest);
}

/// Decoding a 32-bit value inverts encoding one.
pub proof fn lemma_dec_u32_enc(v: u32, rest: Seq<u8>)
    ensures
        spec_dec_u32(spec_enc_u64(v as u64) + rest) == Some((v, rest)),
{
    reveal(spec_dec_u32);
    lemma_dec_u64_enc(v as u64, rest);
}

/// Decoding a 16-bit value inverts encoding one.
pub proof fn lemma_dec_u16_enc(v: u16, rest: Seq<u8>)
    ensures
        spec_dec_u16(spec_enc_u64(v as u64) + rest) == Some((v, rest)),
{
    reveal(spec_dec_u16);
    lemma_dec_u64_enc(v as u64, rest);
}

/// Decoding a signed value inverts encoding one.
pub proof fn lemma_dec_i32_enc(v: i32, rest: Seq<u8>)
    ensures
        spec_dec_i32(spec_enc_i32(v) + rest) == Some((v, rest)),
{
    reveal(spec_dec_i32);
    if v >= 0 {
        lemma_dec_head_enc(MAJOR_UINT, v as u64, rest);
    } else {
        lemma_dec_head_enc(MAJOR_NINT, (-1 - v) as u64, rest);
    }
}

/// Decoding a boolean inverts encoding one.
pub proof fn lemma_dec_bool_enc(v: bool, rest: Seq<u8>)
    ensures
        spec_dec_bool(spec_enc_bool(v) + rest) == Some((v, rest)),
{
    reveal(spec_dec_bool);
    assert((spec_enc_bool(v) + rest).skip(1) =~= rest);
}

/// Appends an encoded byte string.
pub fn enc_bytes(out: &mut Vec<u8>, p: &[u8])
    ensures
        final(out)@ == old(out)@ + spec_enc_bytes(p@),
{
    enc_uint(out, MAJOR_BYTES, p.len() as u64);
    push_bytes(out, p);
}

/// Appends an encoded text string.
pub fn enc_text(out: &mut Vec<u8>, s: &str)
    ensures
        final(out)@ == old(out)@ + spec_enc_text(s@),
{
    let bytes = s.as_bytes();
    enc_uint(out, MAJOR_TEXT, bytes.len() as u64);
    push_bytes(out, bytes);
}

/// Appends an encoded boolean.
pub fn enc_bool(out: &mut Vec<u8>, v: bool)
    ensures
        final(out)@ == old(out)@ + spec_enc_bool(v),
{
    if v {
        out.push(SIMPLE_TRUE);
    } else {
        out.push(SIMPLE_FALSE);
    }
    proof {
        assert(out@ =~= old(out)@ + spec_enc_bool(v));
    }
}

/// Appends an encoded null.
pub fn enc_null(out: &mut Vec<u8>)
    ensures
        final(out)@ == old(out)@ + seq![SIMPLE_NULL],
{
    out.push(SIMPLE_NULL);
    proof {
        assert(out@ =~= old(out)@ + seq![SIMPLE_NULL]);
    }
}

/// Appends an encoded unsigned value.
pub fn enc_u64(out: &mut Vec<u8>, v: u64)
    ensures
        final(out)@ == old(out)@ + spec_enc_u64(v),
{
    enc_uint(out, MAJOR_UINT, v);
}

/// Appends an encoded signed value.
pub fn enc_i32(out: &mut Vec<u8>, v: i32)
    ensures
        final(out)@ == old(out)@ + spec_enc_i32(v),
{
    if v >= 0 {
        enc_uint(out, MAJOR_UINT, v as u64);
    } else {
        let mag: i64 = -1 - (v as i64);
        enc_uint(out, MAJOR_NINT, mag as u64);
    }
}

/// Reads a byte- or text-string payload at `pos`; returns the payload
/// bounds, whose end is also the next read position.
pub fn dec_segment(buf: &[u8], pos: usize, major: u8) -> (r: Option<(usize, usize)>)
    requires
        pos <= buf@.len(),
    ensures
        ({
            let s = buf@.skip(pos as int);
            match spec_dec_segment(s, major) {
                Some((seg, rem)) => r matches Some((start, end)) && pos <= start <= end && end
                    <= buf@.len() && buf@.subrange(start as int, end as int) == seg && buf@.skip(
                    end as int,
                ) == rem,
                None => r is None,
            }
        }),
{
    reveal(spec_dec_segment);
    let ghost s = buf@.skip(pos as int);
    match dec_head(buf, pos) {
        Some((m, v, hend)) => {
            if m != major {
                return None;
            }
            let len: usize = buf.len();
            if v > (len - hend) as u64 {
                return None;
            }
            let end = hend + (v as usize);
            proof {
                match spec_dec_head(s) {
                    Some((sm, sv, srem)) => {
                        assert(buf@.subrange(hend as int, end as int) =~= srem.take(sv as int));
                        assert(buf@.skip(end as int) =~= srem.skip(sv as int));
                    },
                    None => {},
                }
            }
            Some((hend, end))
        },
        None => None,
    }
}

/// Reads a text string at `pos` into an owned string.
pub fn dec_text(buf: &[u8], pos: usize) -> (r: Option<(String, usize)>)
    requires
        pos <= buf@.len(),
    ensures
        ({
            let s = buf@.skip(pos as int);
            match spec_dec_text(s) {
                Some((cs, rem)) => r matches Some((v, end)) && v@ == cs && pos <= end <= buf@.len()
                    && buf@.skip(end as int) == rem,
                None => r is None,
            }
        }),
{
    reveal(spec_dec_text);
    let ghost s = buf@.skip(pos as int);
    match dec_segment(buf, pos, MAJOR_TEXT) {
        Some((start, end)) => {
            match utf8_range_to_string(buf, start, end) {
                Some(text) => {
                    proof {
                        match spec_dec_segment(s, MAJOR_TEXT) {
                            Some((seg, rem)) => {
                                lemma_encode_utf8_injective_text(text@, seg);
                            },
                            None => {},
                        }
                    }
                    Some((text, end))
                },
                None => None,
            }
        },
        None => None,
    }
}

/// A string whose encoding equals a valid segment spells that segment's
/// decoding.
proof fn lemma_encode_utf8_injective_text(cs: Seq<char>, seg: Seq<u8>)
    requires
        encode_utf8(cs) == seg,
    ensures
        valid_utf8(seg),
        cs == decode_utf8(seg),
{
    encode_utf8_valid_utf8(cs);
    encode_utf8_decode_utf8(cs);
}

/// Reads a text string at `pos` and requires it to spell `name`.
pub fn dec_key(buf: &[u8], pos: usize, name: &str) -> (r: Option<usize>)
    requires
        pos <= buf@.len(),
    ensures
        ({
            let s = buf@.skip(pos as int);
            match spec_dec_key(s, name@) {
                Some(rem) => r matches Some(end) && pos <= end <= buf@.len() && buf@.skip(
                    end as int,
                ) == rem,
                None => r is None,
            }
        }),
{
    reveal(spec_dec_key);
    match dec_segment(buf, pos, MAJOR_TEXT) {
        Some((start, end)) => {
            let sub = vstd::slice::slice_subrange(buf, start, end);
            if bytes_eq(sub, name.as_bytes()) {
                Some(end)
            } else {
                None
            }
        },
        None => None,
    }
}

/// True when `buf[start..end]` spells `lit` in UTF-8.
pub fn seg_is(buf: &[u8], start: usize, end: usize, lit: &str) -> (r: bool)
    requires
        start <= end <= buf@.len(),
    ensures
        r == (buf@.subrange(start as int, end as int) == encode_utf8(lit@)),
{
    bytes_eq(vstd::slice::slice_subrange(buf, start, end), lit.as_bytes())
}

/// Reads a boolean at `pos`.
pub fn dec_bool(buf: &[u8], pos: usize) -> (r: Option<(bool, usize)>)
    requires
        pos <= buf@.len(),
    ensures
        ({
            let s = buf@.skip(pos as int);
            match spec_dec_bool(s) {
                Some((v, rem)) => r matches Some((rv, end)) && rv == v && pos <= end <= buf@.len()
                    && buf@.skip(end as int) == rem,
                None => r is None,
            }
        }),
{
    reveal(spec_dec_bool);
    let len: usize = buf.len();
    if pos < len {
        proof {
            assert(buf@.skip(pos as int)[0] == buf@[pos as int]);
            assert(buf@.skip(pos as int + 1) =~= buf@.skip(pos as int).skip(1));
        }
        let h = buf[pos];
        if h == SIMPLE_TRUE {
            Some((true, pos + 1))
        } else if h == SIMPLE_FALSE {
            Some((false, pos + 1))
        } else {
            None
        }
    } else {
        None
    }
}

/// True when the byte at `pos` is the encoded null.
pub fn peek_null(buf: &[u8], pos: usize) -> (r: bool)
    requires
        pos <= buf@.len(),
    ensures
        r == ({
            let s = buf@.skip(pos as int);
            s.len() >= 1 && s[0] == SIMPLE_NULL
        }),
{
    if pos < buf.len() {
        proof {
            assert(buf@.skip(pos as int)[0] == buf@[pos as int]);
        }
        buf[pos] == SIMPLE_NULL
    } else {
        false
    }
}

/// Steps over one byte at `pos`, used after a successful null peek.
pub fn skip_one(buf: &[u8], pos: usize) -> (end: usize)
    requires
        pos < buf@.len(),
    ensures
        end == pos + 1,
        buf@.skip(end as int) == buf@.skip(pos as int).skip(1),
{
    let len: usize = buf.len();
    proof {
        assert(buf@.skip(pos as int + 1) =~= buf@.skip(pos as int).skip(1));
    }
    pos + 1
}

/// Reads an unsigned 64-bit value at `pos`.
pub fn dec_u64(buf: &[u8], pos: usize) -> (r: Option<(u64, usize)>)
    requires
        pos <= buf@.len(),
    ensures
        ({
            let s = buf@.skip(pos as int);
            match spec_dec_u64(s) {
                Some((v, rem)) => r matches Some((rv, end)) && rv == v && pos <= end <= buf@.len()
                    && buf@.skip(end as int) == rem,
                None => r is None,
            }
        }),
{
    reveal(spec_dec_u64);
    match dec_head(buf, pos) {
        Some((m, v, end)) => {
            if m == MAJOR_UINT {
                Some((v, end))
            } else {
                None
            }
        },
        None => None,
    }
}

/// Reads an unsigned 32-bit value at `pos`.
pub fn dec_u32(buf: &[u8], pos: usize) -> (r: Option<(u32, usize)>)
    requires
        pos <= buf@.len(),
    ensures
        ({
            let s = buf@.skip(pos as int);
            match spec_dec_u32(s) {
                Some((v, rem)) => r matches Some((rv, end)) && rv == v && pos <= end <= buf@.len()
                    && buf@.skip(end as int) == rem,
                None => r is None,
            }
        }),
{
    reveal(spec_dec_u32);
    match dec_u64(buf, pos) {
        Some((v, end)) => {
            if v <= u32::MAX as u64 {
                Some((v as u32, end))
            } else {
                None
            }
        },
        None => None,
    }
}

/// Reads an unsigned 16-bit value at `pos`.
pub fn dec_u16(buf: &[u8], pos: usize) -> (r: Option<(u16, usize)>)
    requires
        pos <= buf@.len(),
    ensures
        ({
            let s = buf@.skip(pos as int);
            match spec_dec_u16(s) {
                Some((v, rem)) => r matches Some((rv, end)) && rv == v && pos <= end <= buf@.len()
                    && buf@.skip(end as int) == rem,
                None => r is None,
            }
        }),
{
    reveal(spec_dec_u16);
    match dec_u64(buf, pos) {
        Some((v, end)) => {
            if v <= u16::MAX as u64 {
                Some((v as u16, end))
            } else {
                None
            }
        },
        None => None,
    }
}

/// Reads a signed 32-bit value at `pos`.
pub fn dec_i32(buf: &[u8], pos: usize) -> (r: Option<(i32, usize)>)
    requires
        pos <= buf@.len(),
    ensures
        ({
            let s = buf@.skip(pos as int);
            match spec_dec_i32(s) {
                Some((v, rem)) => r matches Some((rv, end)) && rv == v && pos <= end <= buf@.len()
                    && buf@.skip(end as int) == rem,
                None => r is None,
            }
        }),
{
    reveal(spec_dec_i32);
    match dec_head(buf, pos) {
        Some((m, v, end)) => {
            if m == MAJOR_UINT && v <= i32::MAX as u64 {
                Some((v as i32, end))
            } else if m == MAJOR_NINT && v <= i32::MAX as u64 {
                let neg: i64 = -1 - (v as i64);
                Some((neg as i32, end))
            } else {
                None
            }
        },
        None => None,
    }
}

/// Reads a map head at `pos`, returning the entry count.
pub fn dec_map_head(buf: &[u8], pos: usize) -> (r: Option<(u64, usize)>)
    requires
        pos <= buf@.len(),
    ensures
        ({
            let s = buf@.skip(pos as int);
            match spec_dec_head(s) {
                Some((m, v, rem)) => if m == MAJOR_MAP {
                    r matches Some((rv, end)) && rv == v && pos <= end <= buf@.len() && buf@.skip(
                        end as int,
                    ) == rem
                } else {
                    r is None
                },
                None => r is None,
            }
        }),
{
    match dec_head(buf, pos) {
        Some((m, v, end)) => {
            if m == MAJOR_MAP {
                Some((v, end))
            } else {
                None
            }
        },
        None => None,
    }
}

/// Reads an array head at `pos`, returning the element count.
pub fn dec_array_head(buf: &[u8], pos: usize) -> (r: Option<(u64, usize)>)
    requires
        pos <= buf@.len(),
    ensures
        ({
            let s = buf@.skip(pos as int);
            match spec_dec_head(s) {
                Some((m, v, rem)) => if m == MAJOR_ARRAY {
                    r matches Some((rv, end)) && rv == v && pos <= end <= buf@.len() && buf@.skip(
                        end as int,
                    ) == rem
                } else {
                    r is None
                },
                None => r is None,
            }
        }),
{
    match dec_head(buf, pos) {
        Some((m, v, end)) => {
            if m == MAJOR_ARRAY {
                Some((v, end))
            } else {
                None
            }
        },
        None => None,
    }
}

} // verus!
