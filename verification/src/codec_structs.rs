//! Wire encoding of the record types: cell specifications, command
//! specifications, cell metadata and job metadata.

use vstd::prelude::*;
use crate::cbor::{
    dec_key, dec_map_head, dec_text, dec_u64, enc_text, enc_u64, enc_uint, lemma_dec_head_enc,
    lemma_dec_key_enc, lemma_dec_text_enc, lemma_dec_u64_enc, spec_dec_head, spec_dec_key,
    spec_dec_text, spec_dec_u64, spec_enc_text, spec_enc_u64, spec_enc_uint, MAJOR_MAP,
};
use crate::codec_basic::{
    dec_exit_status, dec_opt_limits, dec_opt_term_reason, dec_opt_text, dec_opt_u32, dec_opt_u64,
    enc_exit_status, enc_opt_limits, enc_opt_term_reason, enc_opt_text, enc_opt_u32, enc_opt_u64,
    lemma_dec_exit_status_enc, lemma_dec_opt_limits_enc, lemma_dec_opt_term_reason_enc,
    lemma_dec_opt_text_enc, lemma_dec_opt_u32_enc, lemma_dec_opt_u64_enc, lemma_short_text_fits,
    spec_dec_exit_status, spec_dec_opt_limits, spec_dec_opt_term_reason, spec_dec_opt_text,
    spec_dec_opt_u32, spec_dec_opt_u64, spec_enc_exit_status, spec_enc_opt_limits,
    spec_enc_opt_term_reason, spec_enc_opt_text, spec_enc_opt_u32, spec_enc_opt_u64, text_fits,
};
use crate::codec_seq::{
    dec_env, dec_texts, enc_env, enc_texts, env_fits, lemma_dec_env_enc, lemma_dec_texts_enc,
    spec_dec_env, spec_dec_texts, spec_enc_env, spec_enc_texts, texts_fit,
};
use crate::ids::{CellId, JobId};
use crate::protocol::{CellInfo, CellInfoV, CellSpec, CellSpecV, CommandSpec, CommandSpecV,
    JobInfo, JobInfoV};
use crate::textutil::lemma_concat_assoc;

verus! {

/// A cell specification model whose strings fit wire lengths.
pub open spec fn cell_spec_fits(m: CellSpecV) -> bool {
    text_fits(m.name) && env_fits(m.env) && m.env.len() <= u64::MAX
}

/// Encoded cell specification.
pub open spec fn spec_enc_cell_spec(m: CellSpecV) -> Seq<u8> {
    spec_enc_uint(MAJOR_MAP, 2) + spec_enc_text("name"@) + spec_enc_text(m.name) + spec_enc_text(
        "env"@,
    ) + spec_enc_env(m.env)
}

/// Parses a cell specification.
#[verifier::opaque]
pub open spec fn spec_dec_cell_spec(b: Seq<u8>) -> Option<(CellSpecV, Seq<u8>)> {
    match spec_dec_head(b) {
        Some((m, cnt, r0)) => {
            if m != MAJOR_MAP || cnt != 2 {
                None
            } else {
                match spec_dec_key(r0, "name"@) {
                    Some(r1) => {
                        match spec_dec_text(r1) {
                            Some((name, r2)) => {
                                match spec_dec_key(r2, "env"@) {
                                    Some(r3) => {
                                        match spec_dec_env(r3) {
                                            Some((env, r4)) => Some(
                                                (CellSpecV { name, env }, r4),
                                            ),
                                            None => None,
                                        }
                                    },
                                    None => None,
                                }
                            },
                            None => None,
                        }
                    },
                    None => None,
                }
            }
        },
        None => None,
    }
}

/// Decoding a cell specification inverts encoding one.
pub proof fn lemma_dec_cell_spec_enc(m: CellSpecV, rest: Seq<u8>)
    requires
        cell_spec_fits(m),
    ensures
        spec_dec_cell_spec(spec_enc_cell_spec(m) + rest) == Some((m, rest)),
{
    reveal(spec_dec_cell_spec);
    reveal_strlit("name");
    reveal_strlit("env");
    assert("name"@.len() == 4);
    assert("env"@.len() == 3);
    lemma_short_text_fits("name"@);
    lemma_short_text_fits("env"@);
    let h = spec_enc_uint(MAJOR_MAP, 2);
    let k1 = spec_enc_text("name"@);
    let v1 = spec_enc_text(m.name);
    let k2 = spec_enc_text("env"@);
    let v2 = spec_enc_env(m.env);
    lemma_concat_assoc(h + k1 + v1 + k2, v2, rest);
    lemma_concat_assoc(h + k1 + v1, k2, v2 + rest);
    lemma_concat_assoc(h + k1, v1, k2 + (v2 + rest));
    lemma_concat_assoc(h, k1, v1 + (k2 + (v2 + rest)));
    lemma_dec_head_enc(MAJOR_MAP, 2, k1 + (v1 + (k2 + (v2 + rest))));
    lemma_dec_key_enc("name"@, v1 + (k2 + (v2 + rest)));
    lemma_dec_text_enc(m.name, k2 + (v2 + rest));
    lemma_dec_key_enc("env"@, v2 + rest);
    lemma_dec_env_enc(m.env, rest);
}

/// Appends an encoded cell specification.
pub fn enc_cell_spec(out: &mut Vec<u8>, v: &CellSpec)
    ensures
        final(out)@ == old(out)@ + spec_enc_cell_spec(v@),
{
    enc_uint(out, MAJOR_MAP, 2);
    enc_text(out, "name");
    enc_text(out, v.name.as_str());
    enc_text(out, "env");
    enc_env(out, &v.env);
    proof {
        assert(out@ =~= old(out)@ + spec_enc_cell_spec(v@));
    }
}

/// Reads a cell specification at `pos`.
pub fn dec_cell_spec(buf: &[u8], pos: usize) -> (r: Option<(CellSpec, usize)>)
    requires
        pos <= buf@.len(),
    ensures
        ({
            let s = buf@.skip(pos as int);
            match spec_dec_cell_spec(s) {
                Some((v, rem)) => r matches Some((ov, end)) && ov@ == v && pos <= end
                    <= buf@.len() && buf@.skip(end as int) == rem,
                None => r is None,
            }
        }),
{
    reveal(spec_dec_cell_spec);
    let Some((cnt, p0)) = dec_map_head(buf, pos) else { return None };
    if cnt != 2 {
        return None;
    }
    let Some(p1) = dec_key(buf, p0, "name") else { return None };
    let Some((name, p2)) = dec_text(buf, p1) else { return None };
    let Some(p3) = dec_key(buf, p2, "env") else { return None };
    let Some((env, p4)) = dec_env(buf, p3) else { return None };
    Some((CellSpec { name, env }, p4))
}

/// A command specification model whose parts fit wire lengths.
pub open spec fn cmd_fits(m: CommandSpecV) -> bool {
    texts_fit(m.argv) && m.argv.len() <= u64::MAX && (m.cwd matches Some(c) ==> text_fits(c))
        && env_fits(m.env) && m.env.len() <= u64::MAX
}

/// Encoded command specification.
pub open spec fn spec_enc_cmd(m: CommandSpecV) -> Seq<u8> {
    spec_enc_uint(MAJOR_MAP, 4) + spec_enc_text("argv"@) + spec_enc_texts(m.argv) + spec_enc_text(
        "cwd"@,
    ) + spec_enc_opt_text(m.cwd) + spec_enc_text("env"@) + spec_enc_env(m.env) + spec_enc_text(
        "limits"@,
    ) + spec_enc_opt_limits(m.limits)
}

/// Parses a command specification.
#[verifier::opaque]
pub open spec fn spec_dec_cmd(b: Seq<u8>) -> Option<(CommandSpecV, Seq<u8>)> {
    match spec_dec_head(b) {
        Some((m, cnt, r0)) => {
            if m != MAJOR_MAP || cnt != 4 {
                None
            } else {
                match spec_dec_key(r0, "argv"@) {
                    Some(r1) => {
                        match spec_dec_texts(r1) {
                            Some((argv, r2)) => {
                                match spec_dec_key(r2, "cwd"@) {
                                    Some(r3) => {
                                        match spec_dec_opt_text(r3) {
                                            Some((cwd, r4)) => {
                                                match spec_dec_key(r4, "env"@) {
                                                    Some(r5) => {
                                                        match spec_dec_env(r5) {
                                                            Some((env, r6)) => {
                                                                match spec_dec_key(
                                                                    r6,
                                                                    "limits"@,
                                                                ) {
                                                                    Some(r7) => {
                                                                        match spec_dec_opt_limits(
                                                                            r7,
                                                                        ) {
                                                                            Some((limits, r8)) => Some(
                                                                                (
                                                                                    CommandSpecV {
                                                                                        argv,
                                                                                        cwd,
                                                                                        env,
                                                                                        limits,
                                                                                    },
                                                                                    r8,
                                                                                ),
                                                                            ),
                                                                            None => None,
                                                                        }
                                                                    },
                                                                    None => None,
                                                                }
                                                            },
                                                            None => None,
                                                        }
                                                    },
                                                    None => None,
                                                }
                                            },
                                            None => None,
                                        }
                                    },
                                    None => None,
                                }
                            },
                            None => None,
                        }
                    },
                    None => None,
                }
            }
        },
        None => None,
    }
}

/// Decoding a command specification inverts encoding one.
pub proof fn lemma_dec_cmd_enc(m: CommandSpecV, rest: Seq<u8>)
    requires
        cmd_fits(m),
    ensures
        spec_dec_cmd(spec_enc_cmd(m) + rest) == Some((m, rest)),
{
    reveal(spec_dec_cmd);
    reveal_strlit("argv");
    reveal_strlit("cwd");
    reveal_strlit("env");
    reveal_strlit("limits");
    assert("argv"@.len() == 4);
    assert("cwd"@.len() == 3);
    assert("env"@.len() == 3);
    assert("limits"@.len() == 6);
    lemma_short_text_fits("argv"@);
    lemma_short_text_fits("cwd"@);
    lemma_short_text_fits("env"@);
    lemma_short_text_fits("limits"@);
    let h = spec_enc_uint(MAJOR_MAP, 4);
    let k1 = spec_enc_text("argv"@);
    let v1 = spec_enc_texts(m.argv);
    let k2 = spec_enc_text("cwd"@);
    let v2 = spec_enc_opt_text(m.cwd);
    let k3 = spec_enc_text("env"@);
    let v3 = spec_enc_env(m.env);
    let k4 = spec_enc_text("limits"@);
    let v4 = spec_enc_opt_limits(m.limits);
    lemma_concat_assoc(h + k1 + v1 + k2 + v2 + k3 + v3 + k4, v4, rest);
    lemma_concat_assoc(h + k1 + v1 + k2 + v2 + k3 + v3, k4, v4 + rest);
    lemma_concat_assoc(h + k1 + v1 + k2 + v2 + k3, v3, k4 + (v4 + rest));
    lemma_concat_assoc(h + k1 + v1 + k2 + v2, k3, v3 + (k4 + (v4 + rest)));
    lemma_concat_assoc(h + k1 + v1 + k2, v2, k3 + (v3 + (k4 + (v4 + rest))));
    lemma_concat_assoc(h + k1 + v1, k2, v2 + (k3 + (v3 + (k4 + (v4 + rest)))));
    lemma_concat_assoc(h + k1, v1, k2 + (v2 + (k3 + (v3 + (k4 + (v4 + rest))))));
    lemma_concat_assoc(h, k1, v1 + (k2 + (v2 + (k3 + (v3 + (k4 + (v4 + rest)))))));
    lemma_dec_head_enc(MAJOR_MAP, 4, k1 + (v1 + (k2 + (v2 + (k3 + (v3 + (k4 + (v4 + rest))))))));
    lemma_dec_key_enc("argv"@, v1 + (k2 + (v2 + (k3 + (v3 + (k4 + (v4 + rest)))))));
    lemma_dec_texts_enc(m.argv, k2 + (v2 + (k3 + (v3 + (k4 + (v4 + rest))))));
    lemma_dec_key_enc("cwd"@, v2 + (k3 + (v3 + (k4 + (v4 + rest)))));
    lemma_dec_opt_text_enc(m.cwd, k3 + (v3 + (k4 + (v4 + rest))));
    lemma_dec_key_enc("env"@, v3 + (k4 + (v4 + rest)));
    lemma_dec_env_enc(m.env, k4 + (v4 + rest));
    lemma_dec_key_enc("limits"@, v4 + rest);
    lemma_dec_opt_limits_enc(m.limits, rest);
}

/// Appends an encoded command specification.
pub fn enc_cmd(out: &mut Vec<u8>, v: &CommandSpec)
    ensures
        final(out)@ == old(out)@ + spec_enc_cmd(v@),
{
    enc_uint(out, MAJOR_MAP, 4);
    enc_text(out, "argv");
    enc_texts(out, &v.argv);
    enc_text(out, "cwd");
    enc_opt_text(out, &v.cwd);
    enc_text(out, "env");
    enc_env(out, &v.env);
    enc_text(out, "limits");
    enc_opt_limits(out, &v.limits);
    proof {
        let o = old(out)@;
        let h = spec_enc_uint(MAJOR_MAP, 4);
        let k1 = spec_enc_text("argv"@);
        let v1 = spec_enc_texts(v@.argv);
        let k2 = spec_enc_text("cwd"@);
        let v2 = spec_enc_opt_text(v@.cwd);
        let k3 = spec_enc_text("env"@);
        let v3 = spec_enc_env(v@.env);
        let k4 = spec_enc_text("limits"@);
        let v4 = spec_enc_opt_limits(v@.limits);
        lemma_concat_assoc(o, h, k1);
        lemma_concat_assoc(o, h + k1, v1);
        lemma_concat_assoc(o, h + k1 + v1, k2);
        lemma_concat_assoc(o, h + k1 + v1 + k2, v2);
        lemma_concat_assoc(o, h + k1 + v1 + k2 + v2, k3);
        lemma_concat_assoc(o, h + k1 + v1 + k2 + v2 + k3, v3);
        lemma_concat_assoc(o, h + k1 + v1 + k2 + v2 + k3 + v3, k4);
        lemma_concat_assoc(o, h + k1 + v1 + k2 + v2 + k3 + v3 + k4, v4);
    }
}

/// Reads a command specification at `pos`.
pub fn dec_cmd(buf: &[u8], pos: usize) -> (r: Option<(CommandSpec, usize)>)
    requires
        pos <= buf@.len(),
    ensures
        ({
            let s = buf@.skip(pos as int);
            match spec_dec_cmd(s) {
                Some((v, rem)) => r matches Some((ov, end)) && ov@ == v && pos <= end
                    <= buf@.len() && buf@.skip(end as int) == rem,
                None => r is None,
            }
        }),
{
    reveal(spec_dec_cmd);
    let Some((cnt, p0)) = dec_map_head(buf, pos) else { return None };
    if cnt != 4 {
        return None;
    }
    let Some(p1) = dec_key(buf, p0, "argv") else { return None };
    let Some((argv, p2)) = dec_texts(buf, p1) else { return None };
    let Some(p3) = dec_key(buf, p2, "cwd") else { return None };
    let Some((cwd, p4)) = dec_opt_text(buf, p3) else { return None };
    let Some(p5) = dec_key(buf, p4, "env") else { return None };
    let Some((env, p6)) = dec_env(buf, p5) else { return None };
    let Some(p7) = dec_key(buf, p6, "limits") else { return None };
    let Some((limits, p8)) = dec_opt_limits(buf, p7) else { return None };
    Some((CommandSpec { argv, cwd, env, limits }, p8))
}

/// A cell metadata model whose parts fit wire lengths.
pub open spec fn cell_info_fits(m: CellInfoV) -> bool {
    text_fits(m.id) && cell_spec_fits(m.spec) && text_fits(m.dir)
}

/// Encoded cell metadata.
pub open spec fn spec_enc_cell_info(m: CellInfoV) -> Seq<u8> {
    spec_enc_uint(MAJOR_MAP, 4) + spec_enc_text("id"@) + spec_enc_text(m.id) + spec_enc_text(
        "spec"@,
    ) + spec_enc_cell_spec(m.spec) + spec_enc_text("created_at_ms"@) + spec_enc_u64(
        m.created_at_ms,
    ) + spec_enc_text("dir"@) + spec_enc_text(m.dir)
}

/// Parses cell metadata.
#[verifier::opaque]
pub open spec fn spec_dec_cell_info(b: Seq<u8>) -> Option<(CellInfoV, Seq<u8>)> {
    match spec_dec_head(b) {
        Some((m, cnt, r0)) => {
            if m != MAJOR_MAP || cnt != 4 {
                None
            } else {
                match spec_dec_key(r0, "id"@) {
                    Some(r1) => {
                        match spec_dec_text(r1) {
                            Some((id, r2)) => {
                                match spec_dec_key(r2, "spec"@) {
                                    Some(r3) => {
                                        match spec_dec_cell_spec(r3) {
                                            Some((spec, r4)) => {
                                                match spec_dec_key(r4, "created_at_ms"@) {
                                                    Some(r5) => {
                                                        match spec_dec_u64(r5) {
                                                            Some((created_at_ms, r6)) => {
                                                                match spec_dec_key(r6, "dir"@) {
                                                                    Some(r7) => {
                                                                        match spec_dec_text(r7) {
                                                                            Some((dir, r8)) => Some(
                                                                                (
                                                                                    CellInfoV {
                                                                                        id,
                                                                                        spec,
                                                                                        created_at_ms,
                                                                                        dir,
                                                                                    },
                                                                                    r8,
                                                                                ),
                                                                            ),
                                                                            None => None,
                                                                        }
                                                                    },
                                                                    None => None,
                                                                }
                                                            },
                                                            None => None,
                                                        }
                                                    },
                                                    None => None,
                                                }
                                            },
                                            None => None,
                                        }
                                    },
                                    None => None,
                                }
                            },
                            None => None,
                        }
                    },
                    None => None,
                }
            }
        },
        None => None,
    }
}

/// Decoding cell metadata inverts encoding it.
pub proof fn lemma_dec_cell_info_enc(m: CellInfoV, rest: Seq<u8>)
    requires
        cell_info_fits(m),
    ensures
        spec_dec_cell_info(spec_enc_cell_info(m) + rest) == Some((m, rest)),
{
    reveal(spec_dec_cell_info);
    reveal_strlit("id");
    reveal_strlit("spec");
    reveal_strlit("created_at_ms");
    reveal_strlit("dir");
    assert("id"@.len() == 2);
    assert("spec"@.len() == 4);
    assert("created_at_ms"@.len() == 13);
    assert("dir"@.len() == 3);
    lemma_short_text_fits("id"@);
    lemma_short_text_fits("spec"@);
    lemma_short_text_fits("created_at_ms"@);
    lemma_short_text_fits("dir"@);
    let h = spec_enc_uint(MAJOR_MAP, 4);
    let k1 = spec_enc_text("id"@);
    let v1 = spec_enc_text(m.id);
    let k2 = spec_enc_text("spec"@);
    let v2 = spec_enc_cell_spec(m.spec);
    let k3 = spec_enc_text("created_at_ms"@);
    let v3 = spec_enc_u64(m.created_at_ms);
    let k4 = spec_enc_text("dir"@);
    let v4 = spec_enc_text(m.dir);
    lemma_concat_assoc(h + k1 + v1 + k2 + v2 + k3 + v3 + k4, v4, rest);
    lemma_concat_assoc(h + k1 + v1 + k2 + v2 + k3 + v3, k4, v4 + rest);
    lemma_concat_assoc(h + k1 + v1 + k2 + v2 + k3, v3, k4 + (v4 + rest));
    lemma_concat_assoc(h + k1 + v1 + k2 + v2, k3, v3 + (k4 + (v4 + rest)));
    lemma_concat_assoc(h + k1 + v1 + k2, v2, k3 + (v3 + (k4 + (v4 + rest))));
    lemma_concat_assoc(h + k1 + v1, k2, v2 + (k3 + (v3 + (k4 + (v4 + rest)))));
    lemma_concat_assoc(h + k1, v1, k2 + (v2 + (k3 + (v3 + (k4 + (v4 + rest))))));
    lemma_concat_assoc(h, k1, v1 + (k2 + (v2 + (k3 + (v3 + (k4 + (v4 + rest)))))));
    lemma_dec_head_enc(MAJOR_MAP, 4, k1 + (v1 + (k2 + (v2 + (k3 + (v3 + (k4 + (v4 + rest))))))));
    lemma_dec_key_enc("id"@, v1 + (k2 + (v2 + (k3 + (v3 + (k4 + (v4 + rest)))))));
    lemma_dec_text_enc(m.id, k2 + (v2 + (k3 + (v3 + (k4 + (v4 + rest))))));
    lemma_dec_key_enc("spec"@, v2 + (k3 + (v3 + (k4 + (v4 + rest)))));
    lemma_dec_cell_spec_enc(m.spec, k3 + (v3 + (k4 + (v4 + rest))));
    lemma_dec_key_enc("created_at_ms"@, v3 + (k4 + (v4 + rest)));
    lemma_dec_u64_enc(m.created_at_ms, k4 + (v4 + rest));
    lemma_dec_key_enc("dir"@, v4 + rest);
    lemma_dec_text_enc(m.dir, rest);
}

/// Appends encoded cell metadata.
pub fn enc_cell_info(out: &mut Vec<u8>, v: &CellInfo)
    ensures
        final(out)@ == old(out)@ + spec_enc_cell_info(v@),
{
    enc_uint(out, MAJOR_MAP, 4);
    enc_text(out, "id");
    enc_text(out, v.id.0.as_str());
    enc_text(out, "spec");
    enc_cell_spec(out, &v.spec);
    enc_text(out, "created_at_ms");
    enc_u64(out, v.created_at_ms);
    enc_text(out, "dir");
    enc_text(out, v.dir.as_str());
    proof {
        let o = old(out)@;
        let h = spec_enc_uint(MAJOR_MAP, 4);
        let k1 = spec_enc_text("id"@);
        let v1 = spec_enc_text(v@.id);
        let k2 = spec_enc_text("spec"@);
        let v2 = spec_enc_cell_spec(v@.spec);
        let k3 = spec_enc_text("created_at_ms"@);
        let v3 = spec_enc_u64(v@.created_at_ms);
        let k4 = spec_enc_text("dir"@);
        let v4 = spec_enc_text(v@.dir);
        lemma_concat_assoc(o, h, k1);
        lemma_concat_assoc(o, h + k1, v1);
        lemma_concat_assoc(o, h + k1 + v1, k2);
        lemma_concat_assoc(o, h + k1 + v1 + k2, v2);
        lemma_concat_assoc(o, h + k1 + v1 + k2 + v2, k3);
        lemma_concat_assoc(o, h + k1 + v1 + k2 + v2 + k3, v3);
        lemma_concat_assoc(o, h + k1 + v1 + k2 + v2 + k3 + v3, k4);
        lemma_concat_assoc(o, h + k1 + v1 + k2 + v2 + k3 + v3 + k4, v4);
    }
}

/// Reads cell metadata at `pos`.
pub fn dec_cell_info(buf: &[u8], pos: usize) -> (r: Option<(CellInfo, usize)>)
    requires
        pos <= buf@.len(),
    ensures
        ({
            let s = buf@.skip(pos as int);
            match spec_dec_cell_info(s) {
                Some((v, rem)) => r matches Some((ov, end)) && ov@ == v && pos <= end
                    <= buf@.len() && buf@.skip(end as int) == rem,
                None => r is None,
            }
        }),
{
    reveal(spec_dec_cell_info);
    let Some((cnt, p0)) = dec_map_head(buf, pos) else { return None };
    if cnt != 4 {
        return None;
    }
    let Some(p1) = dec_key(buf, p0, "id") else { return None };
    let Some((id, p2)) = dec_text(buf, p1) else { return None };
    let Some(p3) = dec_key(buf, p2, "spec") else { return None };
    let Some((spec, p4)) = dec_cell_spec(buf, p3) else { return None };
    let Some(p5) = dec_key(buf, p4, "created_at_ms") else { return None };
    let Some((created_at_ms, p6)) = dec_u64(buf, p5) else { return None };
    let Some(p7) = dec_key(buf, p6, "dir") else { return None };
    let Some((dir, p8)) = dec_text(buf, p7) else { return None };
    Some((CellInfo { id: CellId(id), spec, created_at_ms, dir }, p8))
}

/// A job metadata model whose parts fit wire lengths.
pub open spec fn job_info_fits(m: JobInfoV) -> bool {
    text_fits(m.id) && text_fits(m.cell_id) && cmd_fits(m.command)
}

/// Encoded job metadata.
pub open spec fn spec_enc_job_info(m: JobInfoV) -> Seq<u8> {
    spec_enc_uint(MAJOR_MAP, 8) + spec_enc_text("id"@) + spec_enc_text(m.id) + spec_enc_text(
        "cell_id"@,
    ) + spec_enc_text(m.cell_id) + spec_enc_text("command"@) + spec_enc_cmd(m.command)
        + spec_enc_text("started_at_ms"@) + spec_enc_u64(m.started_at_ms) + spec_enc_text(
        "finished_at_ms"@,
    ) + spec_enc_opt_u64(m.finished_at_ms) + spec_enc_text("pid"@) + spec_enc_opt_u32(m.pid)
        + spec_enc_text("status"@) + spec_enc_exit_status(m.status) + spec_enc_text(
        "termination_reason"@,
    ) + spec_enc_opt_term_reason(m.termination_reason)
}

/// Parses job metadata.
#[verifier::opaque]
pub open spec fn spec_dec_job_info(b: Seq<u8>) -> Option<(JobInfoV, Seq<u8>)> {
    match spec_dec_head(b) {
        Some((m, cnt, r0)) => {
            if m != MAJOR_MAP || cnt != 8 {
                None
            } else {
                match spec_dec_key(r0, "id"@) {
                    Some(r1) => match spec_dec_text(r1) {
                        Some((id, r2)) => match spec_dec_key(r2, "cell_id"@) {
                            Some(r3) => match spec_dec_text(r3) {
                                Some((cell_id, r4)) => match spec_dec_key(r4, "command"@) {
                                    Some(r5) => match spec_dec_cmd(r5) {
                                        Some((command, r6)) => match spec_dec_key(
                                            r6,
                                            "started_at_ms"@,
                                        ) {
                                            Some(r7) => match spec_dec_u64(r7) {
                                                Some((started_at_ms, r8)) => match spec_dec_key(
                                                    r8,
                                                    "finished_at_ms"@,
                                                ) {
                                                    Some(r9) => match spec_dec_opt_u64(r9) {
                                                        Some((finished_at_ms, r10)) => match
                                                            spec_dec_key(r10, "pid"@) {
                                                            Some(r11) => match spec_dec_opt_u32(
                                                                r11,
                                                            ) {
                                                                Some((pid, r12)) => match
                                                                    spec_dec_key(r12, "status"@) {
                                                                    Some(r13) => match
                                                                        spec_dec_exit_status(r13) {
                                                                        Some((status, r14)) => match
                                                                            spec_dec_key(
                                                                            r14,
                                                                            "termination_reason"@,
                                                                        ) {
                                                                            Some(r15) => match
                                                                                spec_dec_opt_term_reason(
                                                                                r15,
                                                                            ) {
                                                                                Some(
                                                                                    (
                                                                                        termination_reason,
                                                                                        r16,
                                                                                    ),
                                                                                ) => Some(
                                                                                    (
                                                                                        JobInfoV {
                                                                                            id,
                                                                                            cell_id,
                                                                                            command,
                                                                                            started_at_ms,
                                                                                            finished_at_ms,
                                                                                            pid,
                                                                                            status,
                                                                                            termination_reason,
                                                                                        },
                                                                                        r16,
                                                                                    ),
                                                                                ),
                                                                                None => None,
                                                                            },
                                                                            None => None,
                                                                        },
                                                                        None => None,
                                                                    },
                                                                    None => None,
                                                                },
                                                                None => None,
                                                            },
                                                            None => None,
                                                        },
                                                        None => None,
                                                    },
                                                    None => None,
                                                },
                                                None => None,
                                            },
                                            None => None,
                                        },
                                        None => None,
                                    },
                                    None => None,
                                },
                                None => None,
                            },
                            None => None,
                        },
                        None => None,
                    },
                    None => None,
                }
            }
        },
        None => None,
    }
}

/// Decoding job metadata inverts encoding it.
pub proof fn lemma_dec_job_info_enc(m: JobInfoV, rest: Seq<u8>)
    requires
        job_info_fits(m),
    ensures
        spec_dec_job_info(spec_enc_job_info(m) + rest) == Some((m, rest)),
{
    reveal(spec_dec_job_info);
    reveal_strlit("id");
    reveal_strlit("cell_id");
    reveal_strlit("command");
    reveal_strlit("started_at_ms");
    reveal_strlit("finished_at_ms");
    reveal_strlit("pid");
    reveal_strlit("status");
    reveal_strlit("termination_reason");
    assert("id"@.len() == 2);
    assert("cell_id"@.len() == 7);
    assert("command"@.len() == 7);
    assert("started_at_ms"@.len() == 13);
    assert("finished_at_ms"@.len() == 14);
    assert("pid"@.len() == 3);
    assert("status"@.len() == 6);
    assert("termination_reason"@.len() == 18);
    lemma_short_text_fits("id"@);
    lemma_short_text_fits("cell_id"@);
    lemma_short_text_fits("command"@);
    lemma_short_text_fits("started_at_ms"@);
    lemma_short_text_fits("finished_at_ms"@);
    lemma_short_text_fits("pid"@);
    lemma_short_text_fits("status"@);
    lemma_short_text_fits("termination_reason"@);
    let h = spec_enc_uint(MAJOR_MAP, 8);
    let k1 = spec_enc_text("id"@);
    let v1 = spec_enc_text(m.id);
    let k2 = spec_enc_text("cell_id"@);
    let v2 = spec_enc_text(m.cell_id);
    let k3 = spec_enc_text("command"@);
    let v3 = spec_enc_cmd(m.command);
    let k4 = spec_enc_text("started_at_ms"@);
    let v4 = spec_enc_u64(m.started_at_ms);
    let k5 = spec_enc_text("finished_at_ms"@);
    let v5 = spec_enc_opt_u64(m.finished_at_ms);
    let k6 = spec_enc_text("pid"@);
    let v6 = spec_enc_opt_u32(m.pid);
    let k7 = spec_enc_text("status"@);
    let v7 = spec_enc_exit_status(m.status);
    let k8 = spec_enc_text("termination_reason"@);
    let v8 = spec_enc_opt_term_reason(m.termination_reason);
    let t8 = rest;
    let t7f = v8 + t8;
    let t7 = k8 + t7f;
    let t6f = v7 + t7;
    let t6 = k7 + t6f;
    let t5f = v6 + t6;
    let t5 = k6 + t5f;
    let t4f = v5 + t5;
    let t4 = k5 + t4f;
    let t3f = v4 + t4;
    let t3 = k4 + t3f;
    let t2f = v3 + t3;
    let t2 = k3 + t2f;
    let t1f = v2 + t2;
    let t1 = k2 + t1f;
    let t0f = v1 + t1;
    let t0 = k1 + t0f;
    lemma_concat_assoc(h + k1 + v1 + k2 + v2 + k3 + v3 + k4 + v4 + k5 + v5 + k6 + v6 + k7 + v7
        + k8, v8, t8);
    lemma_concat_assoc(h + k1 + v1 + k2 + v2 + k3 + v3 + k4 + v4 + k5 + v5 + k6 + v6 + k7 + v7,
        k8, t7f);
    lemma_concat_assoc(h + k1 + v1 + k2 + v2 + k3 + v3 + k4 + v4 + k5 + v5 + k6 + v6 + k7, v7,
        t7);
    lemma_concat_assoc(h + k1 + v1 + k2 + v2 + k3 + v3 + k4 + v4 + k5 + v5 + k6 + v6, k7, t6f);
    lemma_concat_assoc(h + k1 + v1 + k2 + v2 + k3 + v3 + k4 + v4 + k5 + v5 + k6, v6, t6);
    lemma_concat_assoc(h + k1 + v1 + k2 + v2 + k3 + v3 + k4 + v4 + k5 + v5, k6, t5f);
    lemma_concat_assoc(h + k1 + v1 + k2 + v2 + k3 + v3 + k4 + v4 + k5, v5, t5);
    lemma_concat_assoc(h + k1 + v1 + k2 + v2 + k3 + v3 + k4 + v4, k5, t4f);
    lemma_concat_assoc(h + k1 + v1 + k2 + v2 + k3 + v3 + k4, v4, t4);
    lemma_concat_assoc(h + k1 + v1 + k2 + v2 + k3 + v3, k4, t3f);
    lemma_concat_assoc(h + k1 + v1 + k2 + v2 + k3, v3, t3);
    lemma_concat_assoc(h + k1 + v1 + k2 + v2, k3, t2f);
    lemma_concat_assoc(h + k1 + v1 + k2, v2, t2);
    lemma_concat_assoc(h + k1 + v1, k2, t1f);
    lemma_concat_assoc(h + k1, v1, t1);
    lemma_concat_assoc(h, k1, t0f);
    lemma_dec_head_enc(MAJOR_MAP, 8, t0);
    lemma_dec_key_enc("id"@, t0f);
    lemma_dec_text_enc(m.id, t1);
    lemma_dec_key_enc("cell_id"@, t1f);
    lemma_dec_text_enc(m.cell_id, t2);
    lemma_dec_key_enc("command"@, t2f);
    lemma_dec_cmd_enc(m.command, t3);
    lemma_dec_key_enc("started_at_ms"@, t3f);
    lemma_dec_u64_enc(m.started_at_ms, t4);
    lemma_dec_key_enc("finished_at_ms"@, t4f);
    lemma_dec_opt_u64_enc(m.finished_at_ms, t5);
    lemma_dec_key_enc("pid"@, t5f);
    lemma_dec_opt_u32_enc(m.pid, t6);
    lemma_dec_key_enc("status"@, t6f);
    lemma_dec_exit_status_enc(m.status, t7);
    lemma_dec_key_enc("termination_reason"@, t7f);
    lemma_dec_opt_term_reason_enc(m.termination_reason, t8);
}

/// Appends encoded job metadata.
pub fn enc_job_info(out: &mut Vec<u8>, v: &JobInfo)
    ensures
        final(out)@ == old(out)@ + spec_enc_job_info(v@),
{
    enc_uint(out, MAJOR_MAP, 8);
    enc_text(out, "id");
    enc_text(out, v.id.0.as_str());
    enc_text(out, "cell_id");
    enc_text(out, v.cell_id.0.as_str());
    enc_text(out, "command");
    enc_cmd(out, &v.command);
    enc_text(out, "started_at_ms");
    enc_u64(out, v.started_at_ms);
    enc_text(out, "finished_at_ms");
    enc_opt_u64(out, &v.finished_at_ms);
    enc_text(out, "pid");
    enc_opt_u32(out, &v.pid);
    enc_text(out, "status");
    enc_exit_status(out, &v.status);
    enc_text(out, "termination_reason");
    enc_opt_term_reason(out, &v.termination_reason);
    proof {
        let o = old(out)@;
        let h = spec_enc_uint(MAJOR_MAP, 8);
        let k1 = spec_enc_text("id"@);
        let v1 = spec_enc_text(v@.id);
        let k2 = spec_enc_text("cell_id"@);
        let v2 = spec_enc_text(v@.cell_id);
        let k3 = spec_enc_text("command"@);
        let v3 = spec_enc_cmd(v@.command);
        let k4 = spec_enc_text("started_at_ms"@);
        let v4 = spec_enc_u64(v@.started_at_ms);
        let k5 = spec_enc_text("finished_at_ms"@);
        let v5 = spec_enc_opt_u64(v@.finished_at_ms);
        let k6 = spec_enc_text("pid"@);
        let v6 = spec_enc_opt_u32(v@.pid);
        let k7 = spec_enc_text("status"@);
        let v7 = spec_enc_exit_status(v@.status);
        let k8 = spec_enc_text("termination_reason"@);
        let v8 = spec_enc_opt_term_reason(v@.termination_reason);
        lemma_concat_assoc(o, h, k1);
        lemma_concat_assoc(o, h + k1, v1);
        lemma_concat_assoc(o, h + k1 + v1, k2);
        lemma_concat_assoc(o, h + k1 + v1 + k2, v2);
        lemma_concat_assoc(o, h + k1 + v1 + k2 + v2, k3);
        lemma_concat_assoc(o, h + k1 + v1 + k2 + v2 + k3, v3);
        lemma_concat_assoc(o, h + k1 + v1 + k2 + v2 + k3 + v3, k4);
        lemma_concat_assoc(o, h + k1 + v1 + k2 + v2 + k3 + v3 + k4, v4);
        lemma_concat_assoc(o, h + k1 + v1 + k2 + v2 + k3 + v3 + k4 + v4, k5);
        lemma_concat_assoc(o, h + k1 + v1 + k2 + v2 + k3 + v3 + k4 + v4 + k5, v5);
        lemma_concat_assoc(o, h + k1 + v1 + k2 + v2 + k3 + v3 + k4 + v4 + k5 + v5, k6);
        lemma_concat_assoc(o, h + k1 + v1 + k2 + v2 + k3 + v3 + k4 + v4 + k5 + v5 + k6, v6);
        lemma_concat_assoc(o, h + k1 + v1 + k2 + v2 + k3 + v3 + k4 + v4 + k5 + v5 + k6 + v6, k7);
        lemma_concat_assoc(o, h + k1 + v1 + k2 + v2 + k3 + v3 + k4 + v4 + k5 + v5 + k6 + v6 + k7,
            v7);
        lemma_concat_assoc(o, h + k1 + v1 + k2 + v2 + k3 + v3 + k4 + v4 + k5 + v5 + k6 + v6 + k7
            + v7, k8);
        lemma_concat_assoc(o, h + k1 + v1 + k2 + v2 + k3 + v3 + k4 + v4 + k5 + v5 + k6 + v6 + k7
            + v7 + k8, v8);
    }
}

/// Reads job metadata at `pos`.
pub fn dec_job_info(buf: &[u8], pos: usize) -> (r: Option<(JobInfo, usize)>)
    requires
        pos <= buf@.len(),
    ensures
        ({
            let s = buf@.skip(pos as int);
            match spec_dec_job_info(s) {
                Some((v, rem)) => r matches Some((ov, end)) && ov@ == v && pos <= end
                    <= buf@.len() && buf@.skip(end as int) == rem,
                None => r is None,
            }
        }),
{
    reveal(spec_dec_job_info);
    let Some((cnt, p0)) = dec_map_head(buf, pos) else { return None };
    if cnt != 8 {
        return None;
    }
    let Some(p1) = dec_key(buf, p0, "id") else { return None };
    let Some((id, p2)) = dec_text(buf, p1) else { return None };
    let Some(p3) = dec_key(buf, p2, "cell_id") else { return None };
    let Some((cell_id, p4)) = dec_text(buf, p3) else { return None };
    let Some(p5) = dec_key(buf, p4, "command") else { return None };
    let Some((command, p6)) = dec_cmd(buf, p5) else { return None };
    let Some(p7) = dec_key(buf, p6, "started_at_ms") else { return None };
    let Some((started_at_ms, p8)) = dec_u64(buf, p7) else { return None };
    let Some(p9) = dec_key(buf, p8, "finished_at_ms") else { return None };
    let Some((finished_at_ms, p10)) = dec_opt_u64(buf, p9) else { return None };
    let Some(p11) = dec_key(buf, p10, "pid") else { return None };
    let Some((pid, p12)) = dec_opt_u32(buf, p11) else { return None };
    let Some(p13) = dec_key(buf, p12, "status") else { return None };
    let Some((status, p14)) = dec_exit_status(buf, p13) else { return None };
    let Some(p15) = dec_key(buf, p14, "termination_reason") else { return None };
    let Some((termination_reason, p16)) = dec_opt_term_reason(buf, p15) else { return None };
    Some(
        (
            JobInfo {
                id: JobId(id),
                cell_id: CellId(cell_id),
                command,
                started_at_ms,
                finished_at_ms,
                pid,
                status,
                termination_reason,
            },
            p16,
        ),
    )
}

} // verus!
