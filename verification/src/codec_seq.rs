//! Wire encoding of sequences: string arrays, environment maps, and raw
//! byte payloads.

use vstd::prelude::*;
use crate::cbor::{
    dec_array_head, dec_map_head, dec_segment, dec_text, enc_bytes, enc_text, enc_uint,
    lemma_dec_head_enc, lemma_dec_text_enc, spec_dec_bytes, spec_dec_head, spec_dec_text,
    spec_enc_bytes, spec_enc_text, spec_enc_uint, MAJOR_ARRAY, MAJOR_BYTES, MAJOR_MAP,
};
use crate::env_map::EnvMap;
use crate::codec_basic::text_fits;
use crate::textutil::{copy_range, lemma_concat_assoc};

verus! {

/// Payload of an encoded string array: each element in order.
pub open spec fn spec_enc_texts_payload(xs: Seq<Seq<char>>) -> Seq<u8>
    decreases xs.len(),
{
    if xs.len() == 0 {
        Seq::empty()
    } else {
        spec_enc_text(xs[0]) + spec_enc_texts_payload(xs.drop_first())
    }
}

/// Encoded string array: an array head followed by the elements.
pub open spec fn spec_enc_texts(xs: Seq<Seq<char>>) -> Seq<u8> {
    spec_enc_uint(MAJOR_ARRAY, xs.len() as u64) + spec_enc_texts_payload(xs)
}

/// Parses `k` consecutive text strings.
pub open spec fn spec_dec_texts_payload(b: Seq<u8>, k: int) -> Option<(Seq<Seq<char>>, Seq<u8>)>
    decreases k,
{
    if k <= 0 {
        Some((Seq::empty(), b))
    } else {
        match spec_dec_text(b) {
            Some((c, r)) => {
                match spec_dec_texts_payload(r, k - 1) {
                    Some((cs, r2)) => Some((seq![c] + cs, r2)),
                    None => None,
                }
            },
            None => None,
        }
    }
}

/// Parses a string array.
pub open spec fn spec_dec_texts(b: Seq<u8>) -> Option<(Seq<Seq<char>>, Seq<u8>)> {
    match spec_dec_head(b) {
        Some((m, cnt, r0)) => {
            if m == MAJOR_ARRAY {
                spec_dec_texts_payload(r0, cnt as int)
            } else {
                None
            }
        },
        None => None,
    }
}

/// Every element's encoding fits a wire length.
pub open spec fn texts_fit(xs: Seq<Seq<char>>) -> bool {
    forall|i: int| 0 <= i < xs.len() ==> text_fits(#[trigger] xs[i])
}

/// Decoding an array payload inverts encoding one.
pub proof fn lemma_dec_texts_payload_enc(xs: Seq<Seq<char>>, rest: Seq<u8>)
    requires
        texts_fit(xs),
    ensures
        spec_dec_texts_payload(spec_enc_texts_payload(xs) + rest, xs.len() as int) == Some(
            (xs, rest),
        ),
    decreases xs.len(),
{
    if xs.len() == 0 {
        assert(spec_enc_texts_payload(xs) + rest =~= rest);
        assert(xs =~= Seq::<Seq<char>>::empty());
    } else {
        let e0 = spec_enc_text(xs[0]);
        let p = spec_enc_texts_payload(xs.drop_first());
        lemma_concat_assoc(e0, p, rest);
        lemma_dec_text_enc(xs[0], p + rest);
        assert(texts_fit(xs.drop_first())) by {
            assert(forall|i: int|
                0 <= i < xs.drop_first().len() ==> xs.drop_first()[i] == xs[i + 1]);
        }
        lemma_dec_texts_payload_enc(xs.drop_first(), rest);
        assert(seq![xs[0]] + xs.drop_first() =~= xs);
    }
}

/// Decoding a string array inverts encoding one.
pub proof fn lemma_dec_texts_enc(xs: Seq<Seq<char>>, rest: Seq<u8>)
    requires
        texts_fit(xs),
        xs.len() <= u64::MAX,
    ensures
        spec_dec_texts(spec_enc_texts(xs) + rest) == Some((xs, rest)),
{
    let h = spec_enc_uint(MAJOR_ARRAY, xs.len() as u64);
    let p = spec_enc_texts_payload(xs);
    lemma_concat_assoc(h, p, rest);
    lemma_dec_head_enc(MAJOR_ARRAY, xs.len() as u64, p + rest);
    lemma_dec_texts_payload_enc(xs, rest);
}

/// Extending a prefix by one element appends that element's encoding.
proof fn lemma_enc_texts_payload_snoc(xs: Seq<Seq<char>>, i: int)
    requires
        0 <= i < xs.len(),
    ensures
        spec_enc_texts_payload(xs.take(i + 1)) == spec_enc_texts_payload(xs.take(i))
            + spec_enc_text(xs[i]),
    decreases i,
{
    if i == 0 {
        assert(xs.take(1)[0] == xs[0]);
        assert(xs.take(1).drop_first() =~= Seq::<Seq<char>>::empty());
        assert(xs.take(0) =~= Seq::<Seq<char>>::empty());
        assert(spec_enc_text(xs[0]) + Seq::<u8>::empty() =~= spec_enc_text(xs[0]));
        assert(Seq::<u8>::empty() + spec_enc_text(xs[0]) =~= spec_enc_text(xs[0]));
    } else {
        let t = xs.drop_first();
        assert(xs.take(i + 1)[0] == xs[0]);
        assert(xs.take(i + 1).drop_first() =~= t.take(i));
        assert(xs.take(i)[0] == xs[0]);
        assert(xs.take(i).drop_first() =~= t.take(i - 1));
        lemma_enc_texts_payload_snoc(t, i - 1);
        lemma_concat_assoc(
            spec_enc_text(xs[0]),
            spec_enc_texts_payload(t.take(i - 1)),
            spec_enc_text(t[i - 1]),
        );
        assert(t[i - 1] == xs[i]);
    }
}

/// Appends an encoded string array.
pub fn enc_texts(out: &mut Vec<u8>, xs: &Vec<String>)
    ensures
        final(out)@ == old(out)@ + spec_enc_texts(xs.deep_view()),
{
    let ghost dv = xs.deep_view();
    let n: usize = xs.len();
    proof {
        assert(dv.len() == n);
    }
    enc_uint(out, MAJOR_ARRAY, n as u64);
    let mut i: usize = 0;
    proof {
        assert(dv.take(0) =~= Seq::<Seq<char>>::empty());
        assert(out@ + Seq::<u8>::empty() =~= out@);
    }
    while i < n
        invariant
            n == dv.len(),
            n == xs@.len(),
            dv == xs.deep_view(),
            i <= n,
            out@ == old(out)@ + spec_enc_uint(MAJOR_ARRAY, n as u64) + spec_enc_texts_payload(
                dv.take(i as int),
            ),
        decreases n - i,
    {
        enc_text(out, xs[i].as_str());
        proof {
            assert(xs@[i as int]@ == dv[i as int]);
            lemma_enc_texts_payload_snoc(dv, i as int);
        }
        i = i + 1;
    }
    proof {
        assert(dv.take(n as int) =~= dv);
        assert(old(out)@ + spec_enc_uint(MAJOR_ARRAY, n as u64) + spec_enc_texts_payload(dv)
            =~= old(out)@ + spec_enc_texts(dv));
    }
}

/// Reads a string array at `pos`.
pub fn dec_texts(buf: &[u8], pos: usize) -> (r: Option<(Vec<String>, usize)>)
    requires
        pos <= buf@.len(),
    ensures
        ({
            let s = buf@.skip(pos as int);
            match spec_dec_texts(s) {
                Some((v, rem)) => r matches Some((ov, end)) && ov.deep_view() == v && pos <= end
                    <= buf@.len() && buf@.skip(end as int) == rem,
                None => r is None,
            }
        }),
{
    let ghost s = buf@.skip(pos as int);
    let Some((cnt, p0)) = dec_array_head(buf, pos) else { return None };
    let mut acc: Vec<String> = Vec::new();
    let mut cur: usize = p0;
    let mut i: u64 = 0;
    proof {
        assert(acc.deep_view() =~= Seq::<Seq<char>>::empty());
    }
    while i < cnt
        invariant
            pos <= cur <= buf@.len(),
            i <= cnt,
            s == buf@.skip(pos as int),
            ({
                match spec_dec_texts_payload(buf@.skip(cur as int), (cnt - i) as int) {
                    Some((cs, rem)) => spec_dec_texts(s) == Some(
                        (acc.deep_view() + cs, rem),
                    ),
                    None => spec_dec_texts(s) is None,
                }
            }),
        decreases cnt - i,
    {
        let ghost acc0 = acc.deep_view();
        let Some((text, nend)) = dec_text(buf, cur) else { return None };
        proof {
            match spec_dec_text(buf@.skip(cur as int)) {
                Some((c, r)) => {
                    match spec_dec_texts_payload(r, (cnt - i - 1) as int) {
                        Some((cs2, rem2)) => {
                            lemma_concat_assoc(acc0, seq![c], cs2);
                        },
                        None => {},
                    }
                },
                None => {},
            }
        }
        acc.push(text);
        proof {
            assert(acc.deep_view() =~= acc0 + seq![text@]);
        }
        cur = nend;
        i = i + 1;
    }
    proof {
        assert(spec_dec_texts_payload(buf@.skip(cur as int), 0) == Some(
            (Seq::<Seq<char>>::empty(), buf@.skip(cur as int)),
        ));
        assert(acc.deep_view() + Seq::<Seq<char>>::empty() =~= acc.deep_view());
    }
    Some((acc, cur))
}

/// Payload of an encoded environment map: each key and value in order.
pub open spec fn spec_enc_env_payload(e: Seq<(Seq<char>, Seq<char>)>) -> Seq<u8>
    decreases e.len(),
{
    if e.len() == 0 {
        Seq::empty()
    } else {
        spec_enc_text(e[0].0) + spec_enc_text(e[0].1) + spec_enc_env_payload(e.drop_first())
    }
}

/// Encoded environment map: a map head followed by the entries.
pub open spec fn spec_enc_env(e: Seq<(Seq<char>, Seq<char>)>) -> Seq<u8> {
    spec_enc_uint(MAJOR_MAP, e.len() as u64) + spec_enc_env_payload(e)
}

/// Parses `k` consecutive key/value text pairs.
pub open spec fn spec_dec_env_payload(b: Seq<u8>, k: int) -> Option<
    (Seq<(Seq<char>, Seq<char>)>, Seq<u8>),
>
    decreases k,
{
    if k <= 0 {
        Some((Seq::empty(), b))
    } else {
        match spec_dec_text(b) {
            Some((key, r)) => {
                match spec_dec_text(r) {
                    Some((value, r2)) => {
                        match spec_dec_env_payload(r2, k - 1) {
                            Some((es, r3)) => Some((seq![(key, value)] + es, r3)),
                            None => None,
                        }
                    },
                    None => None,
                }
            },
            None => None,
        }
    }
}

/// Parses an environment map.
pub open spec fn spec_dec_env(b: Seq<u8>) -> Option<(Seq<(Seq<char>, Seq<char>)>, Seq<u8>)> {
    match spec_dec_head(b) {
        Some((m, cnt, r0)) => {
            if m == MAJOR_MAP {
                spec_dec_env_payload(r0, cnt as int)
            } else {
                None
            }
        },
        None => None,
    }
}

/// Every entry's encodings fit a wire length.
pub open spec fn env_fits(e: Seq<(Seq<char>, Seq<char>)>) -> bool {
    forall|i: int|
        0 <= i < e.len() ==> text_fits(#[trigger] e[i].0) && text_fits(e[i].1)
}

/// Decoding a map payload inverts encoding one.
pub proof fn lemma_dec_env_payload_enc(e: Seq<(Seq<char>, Seq<char>)>, rest: Seq<u8>)
    requires
        env_fits(e),
    ensures
        spec_dec_env_payload(spec_enc_env_payload(e) + rest, e.len() as int) == Some((e, rest)),
    decreases e.len(),
{
    if e.len() == 0 {
        assert(spec_enc_env_payload(e) + rest =~= rest);
        assert(e =~= Seq::<(Seq<char>, Seq<char>)>::empty());
    } else {
        let k0 = spec_enc_text(e[0].0);
        let v0 = spec_enc_text(e[0].1);
        let p = spec_enc_env_payload(e.drop_first());
        lemma_concat_assoc(k0 + v0, p, rest);
        lemma_concat_assoc(k0, v0, p + rest);
        lemma_dec_text_enc(e[0].0, v0 + (p + rest));
        lemma_dec_text_enc(e[0].1, p + rest);
        assert(env_fits(e.drop_first())) by {
            assert(forall|i: int|
                0 <= i < e.drop_first().len() ==> e.drop_first()[i] == e[i + 1]);
        }
        lemma_dec_env_payload_enc(e.drop_first(), rest);
        assert(seq![e[0]] + e.drop_first() =~= e);
    }
}

/// Decoding an environment map inverts encoding one.
pub proof fn lemma_dec_env_enc(e: Seq<(Seq<char>, Seq<char>)>, rest: Seq<u8>)
    requires
        env_fits(e),
        e.len() <= u64::MAX,
    ensures
        spec_dec_env(spec_enc_env(e) + rest) == Some((e, rest)),
{
    let h = spec_enc_uint(MAJOR_MAP, e.len() as u64);
    let p = spec_enc_env_payload(e);
    lemma_concat_assoc(h, p, rest);
    lemma_dec_head_enc(MAJOR_MAP, e.len() as u64, p + rest);
    lemma_dec_env_payload_enc(e, rest);
}

/// Extending a prefix by one entry appends that entry's encodings.
proof fn lemma_enc_env_payload_snoc(e: Seq<(Seq<char>, Seq<char>)>, i: int)
    requires
        0 <= i < e.len(),
    ensures
        spec_enc_env_payload(e.take(i + 1)) == spec_enc_env_payload(e.take(i)) + (spec_enc_text(
            e[i].0,
        ) + spec_enc_text(e[i].1)),
    decreases i,
{
    if i == 0 {
        assert(e.take(1)[0] == e[0]);
        assert(e.take(1).drop_first() =~= Seq::<(Seq<char>, Seq<char>)>::empty());
        assert(e.take(0) =~= Seq::<(Seq<char>, Seq<char>)>::empty());
        let kv = spec_enc_text(e[0].0) + spec_enc_text(e[0].1);
        assert(kv + Seq::<u8>::empty() =~= kv);
        assert(Seq::<u8>::empty() + kv =~= kv);
    } else {
        let t = e.drop_first();
        assert(e.take(i + 1)[0] == e[0]);
        assert(e.take(i + 1).drop_first() =~= t.take(i));
        assert(e.take(i)[0] == e[0]);
        assert(e.take(i).drop_first() =~= t.take(i - 1));
        lemma_enc_env_payload_snoc(t, i - 1);
        let kv0 = spec_enc_text(e[0].0) + spec_enc_text(e[0].1);
        let kvi = spec_enc_text(t[i - 1].0) + spec_enc_text(t[i - 1].1);
        lemma_concat_assoc(kv0, spec_enc_env_payload(t.take(i - 1)), kvi);
        assert(t[i - 1] == e[i]);
    }
}

/// Appends an encoded environment map.
pub fn enc_env(out: &mut Vec<u8>, e: &EnvMap)
    ensures
        final(out)@ == old(out)@ + spec_enc_env(e@),
{
    let n: usize = e.len();
    enc_uint(out, MAJOR_MAP, n as u64);
    let mut i: usize = 0;
    proof {
        assert(e@.take(0) =~= Seq::<(Seq<char>, Seq<char>)>::empty());
        assert(out@ + Seq::<u8>::empty() =~= out@);
    }
    while i < n
        invariant
            n == e@.len(),
            i <= n,
            out@ == old(out)@ + spec_enc_uint(MAJOR_MAP, n as u64) + spec_enc_env_payload(
                e@.take(i as int),
            ),
        decreases n - i,
    {
        let (key, value) = e.entry_at(i);
        let ghost before = out@;
        enc_text(out, key.as_str());
        enc_text(out, value.as_str());
        proof {
            lemma_concat_assoc(
                before,
                spec_enc_text(e@[i as int].0),
                spec_enc_text(e@[i as int].1),
            );
            lemma_enc_env_payload_snoc(e@, i as int);
            lemma_concat_assoc(
                old(out)@ + spec_enc_uint(MAJOR_MAP, n as u64),
                spec_enc_env_payload(e@.take(i as int)),
                spec_enc_text(e@[i as int].0) + spec_enc_text(e@[i as int].1),
            );
        }
        i = i + 1;
    }
    proof {
        assert(e@.take(n as int) =~= e@);
        assert(old(out)@ + spec_enc_uint(MAJOR_MAP, n as u64) + spec_enc_env_payload(e@)
            =~= old(out)@ + spec_enc_env(e@));
    }
}

/// Reads an environment map at `pos`.
pub fn dec_env(buf: &[u8], pos: usize) -> (r: Option<(EnvMap, usize)>)
    requires
        pos <= buf@.len(),
    ensures
        ({
            let s = buf@.skip(pos as int);
            match spec_dec_env(s) {
                Some((v, rem)) => r matches Some((ov, end)) && ov@ == v && pos <= end
                    <= buf@.len() && buf@.skip(end as int) == rem,
                None => r is None,
            }
        }),
{
    let ghost s = buf@.skip(pos as int);
    let Some((cnt, p0)) = dec_map_head(buf, pos) else { return None };
    let mut acc: Vec<(String, String)> = Vec::new();
    let mut cur: usize = p0;
    let mut i: u64 = 0;
    proof {
        assert(EnvMap { entries: acc }@ =~= Seq::<(Seq<char>, Seq<char>)>::empty());
    }
    while i < cnt
        invariant
            pos <= cur <= buf@.len(),
            i <= cnt,
            s == buf@.skip(pos as int),
            ({
                let av = acc@.map_values(|p: (String, String)| (p.0@, p.1@));
                match spec_dec_env_payload(buf@.skip(cur as int), (cnt - i) as int) {
                    Some((es, rem)) => spec_dec_env(s) == Some((av + es, rem)),
                    None => spec_dec_env(s) is None,
                }
            }),
        decreases cnt - i,
    {
        let ghost acc0 = acc@.map_values(|p: (String, String)| (p.0@, p.1@));
        let Some((key, kend)) = dec_text(buf, cur) else { return None };
        let Some((value, vend)) = dec_text(buf, kend) else { return None };
        proof {
            match spec_dec_text(buf@.skip(cur as int)) {
                Some((ck, r)) => {
                    match spec_dec_text(r) {
                        Some((cv, r2)) => {
                            match spec_dec_env_payload(r2, (cnt - i - 1) as int) {
                                Some((es2, rem2)) => {
                                    lemma_concat_assoc(acc0, seq![(ck, cv)], es2);
                                },
                                None => {},
                            }
                        },
                        None => {},
                    }
                },
                None => {},
            }
        }
        acc.push((key, value));
        proof {
            assert(acc@.map_values(|p: (String, String)| (p.0@, p.1@)) =~= acc0 + seq![
                (key@, value@),
            ]);
        }
        cur = vend;
        i = i + 1;
    }
    proof {
        let av = acc@.map_values(|p: (String, String)| (p.0@, p.1@));
        assert(spec_dec_env_payload(buf@.skip(cur as int), 0) == Some(
            (Seq::<(Seq<char>, Seq<char>)>::empty(), buf@.skip(cur as int)),
        ));
        assert(av + Seq::<(Seq<char>, Seq<char>)>::empty() =~= av);
    }
    Some((EnvMap { entries: acc }, cur))
}

/// Appends an encoded byte payload.
pub fn enc_data(out: &mut Vec<u8>, v: &Vec<u8>)
    ensures
        final(out)@ == old(out)@ + spec_enc_bytes(v@),
{
    enc_bytes(out, v.as_slice());
}

/// Reads a byte payload at `pos`.
pub fn dec_data(buf: &[u8], pos: usize) -> (r: Option<(Vec<u8>, usize)>)
    requires
        pos <= buf@.len(),
    ensures
        ({
            let s = buf@.skip(pos as int);
            match spec_dec_bytes(s) {
                Some((v, rem)) => r matches Some((ov, end)) && ov@ == v && pos <= end
                    <= buf@.len() && buf@.skip(end as int) == rem,
                None => r is None,
            }
        }),
{
    match dec_segment(buf, pos, MAJOR_BYTES) {
        Some((start, end)) => {
            let payload = copy_range(buf, start, end);
            Some((payload, end))
        },
        None => None,
    }
}

} // verus!
