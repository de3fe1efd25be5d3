//! Platform capability configuration: the state-directory layout and the
//! sandbox policy a backend runs jobs under.

use vstd::prelude::*;
use vstd::string::StringExecFns;

verus! {

/// Errors emitted by platform backends.
#[derive(Debug, PartialEq, Eq)]
pub enum PlatformError {
    /// Underlying I/O failure description.
    Io(String),
    /// Caller supplied invalid input.
    InvalidInput(String),
    /// Operation is not supported on this backend.
    Unsupported(String),
}

/// Sandboxing policy applied to launched jobs.
#[derive(Debug, Clone, Copy, PartialEq, Eq, Structural)]
pub enum SandboxMode {
    /// Launch without sandbox restrictions.
    Disabled,
    /// Attempt sandboxing and fall back to plain execution on failure.
    Permissive,
    /// Require sandboxing; surface failure.
    Enforced,
}

/// Paths created for a logical execution cell.
#[derive(Debug, PartialEq, Eq)]
pub struct CellPaths {
    /// Absolute path to the cell root directory.
    pub cell_dir: String,
}

/// Process resource metrics sampled by a platform backend.
#[derive(Debug, Clone, Copy, PartialEq, Eq)]
pub struct JobUsage {
    /// Resident set size in bytes.
    pub rss_bytes: Option<u64>,
    /// CPU nanoseconds used by the process.
    pub cpu_nanos: Option<u64>,
}

/// Configuration of the host platform backend: where state lives and
/// which sandbox policy applies.
#[derive(Debug, PartialEq, Eq)]
pub struct MacosOps {
    /// Root state directory containing cells, logs and job metadata.
    pub root: String,
    /// Runtime sandbox mode.
    pub sandbox_mode: SandboxMode,
}

impl MacosOps {
    /// Creates a platform backend configuration for a state root.
    pub fn new(root: String, sandbox_mode: SandboxMode) -> (r: MacosOps)
        ensures
            r.root@ == root@,
            r.sandbox_mode == sandbox_mode,
    {
        MacosOps { root, sandbox_mode }
    }

    /// Directory containing all cell workspaces.
    pub fn cells_dir(&self) -> (r: String)
        ensures
            r@ == self.root@ + "/cells"@,
    {
        let mut out = self.root.clone();
        out.append("/cells");
        out
    }

    /// Directory containing stdout and stderr logs.
    pub fn logs_dir(&self) -> (r: String)
        ensures
            r@ == self.root@ + "/logs"@,
    {
        let mut out = self.root.clone();
        out.append("/logs");
        out
    }

    /// Directory containing persisted job metadata.
    pub fn jobs_dir(&self) -> (r: String)
        ensures
            r@ == self.root@ + "/jobs"@,
    {
        let mut out = self.root.clone();
        out.append("/jobs");
        out
    }

    /// Directory containing generated sandbox profiles.
    pub fn sandbox_dir(&self) -> (r: String)
        ensures
            r@ == self.root@ + "/sandbox"@,
    {
        let mut out = self.root.clone();
        out.append("/sandbox");
        out
    }

    /// Metadata file path for a job.
    pub fn job_meta_path(&self, job_id: &crate::ids::JobId) -> (r: String)
        ensures
            r@ == self.root@ + "/jobs/"@ + job_id@ + ".json"@,
    {
        let mut out = self.root.clone();
        out.append("/jobs/");
        out.append(job_id.0.as_str());
        out.append(".json");
        out
    }
}

} // verus!

verus! {

/// Relies on `std::path::Path::exists`: answers whether a path entry
/// exists on the filesystem at this moment; the result depends on the
/// disk, so nothing further is promised of it.
#[verifier::external_body]
fn path_exists(path: &str) -> bool {
    std::path::Path::new(path).exists()
}

impl MacosOps {
    /// Returns whether the host sandbox runner is present.
    pub fn sandbox_exec_available(&self) -> bool {
        path_exists("/usr/bin/sandbox-exec")
    }

    /// Ensures the target cell directory exists before launching work:
    /// the caller probes the directory and hands in the answer, and a
    /// missing cell is rejected as invalid input.
    pub fn ensure_cell_exists(&self, cell_id: &crate::ids::CellId, cell_dir_exists: bool) -> (r:
        Result<String, PlatformError>)
        ensures
            cell_dir_exists <==> r is Ok,
            r matches Ok(p) ==> p@ == self.root@ + "/cells/"@ + cell_id@,
            r matches Err(e) ==> e matches PlatformError::InvalidInput(_),
    {
        if cell_dir_exists {
            let mut cell_dir = self.root.clone();
            cell_dir.append("/cells/");
            cell_dir.append(cell_id.0.as_str());
            Ok(cell_dir)
        } else {
            let mut message = String::from_str("cell ");
            message.append(cell_id.0.as_str());
            message.append(" does not exist");
            Err(PlatformError::InvalidInput(message))
        }
    }
}

} // verus!

verus! {

/// Decision of the sandboxed launch path for a job.
#[derive(Debug, Clone, Copy, PartialEq, Eq, Structural)]
pub enum SpawnStep {
    /// Launch the command directly.
    SpawnPlain,
    /// Launch the command through the host sandbox runner.
    SpawnSandboxed,
    /// The sandboxed attempt failed: reopen the log files in append
    /// mode and fall back to a plain launch.
    ReopenLogsAndSpawnPlain,
    /// The sandboxed attempt failed and the mode requires the sandbox:
    /// surface the failure.
    Surface,
}

/// Launch path for a job under a sandbox mode.  `sandbox_failed` is
/// absent before any sandboxed attempt, and records afterwards whether
/// that attempt failed; a missing sandbox runner counts as a failed
/// attempt.
pub open spec fn spec_spawn_job_step(mode: SandboxMode, sandbox_failed: Option<bool>) -> SpawnStep {
    match mode {
        SandboxMode::Disabled => SpawnStep::SpawnPlain,
        SandboxMode::Permissive => match sandbox_failed {
            None => SpawnStep::SpawnSandboxed,
            Some(failed) => if failed {
                SpawnStep::ReopenLogsAndSpawnPlain
            } else {
                SpawnStep::SpawnSandboxed
            },
        },
        SandboxMode::Enforced => match sandbox_failed {
            None => SpawnStep::SpawnSandboxed,
            Some(failed) => if failed {
                SpawnStep::Surface
            } else {
                SpawnStep::SpawnSandboxed
            },
        },
    }
}

/// Decides how a job launches: disabled mode spawns plain; the other
/// modes attempt the sandbox, and a failed attempt falls back to a
/// plain launch on freshly reopened logs in permissive mode but
/// surfaces in enforced mode.
pub fn spawn_job_step(mode: SandboxMode, sandbox_failed: Option<bool>) -> (r: SpawnStep)
    ensures
        r == spec_spawn_job_step(mode, sandbox_failed),
        mode is Disabled ==> r == SpawnStep::SpawnPlain,
        mode is Permissive && sandbox_failed is None ==> r == SpawnStep::SpawnSandboxed,
        mode is Permissive && sandbox_failed == Some(true) ==> r
            == SpawnStep::ReopenLogsAndSpawnPlain,
        mode is Enforced && sandbox_failed == Some(true) ==> r == SpawnStep::Surface,
{
    match mode {
        SandboxMode::Disabled => SpawnStep::SpawnPlain,
        SandboxMode::Permissive => match sandbox_failed {
            Some(true) => SpawnStep::ReopenLogsAndSpawnPlain,
            _ => SpawnStep::SpawnSandboxed,
        },
        SandboxMode::Enforced => match sandbox_failed {
            Some(true) => SpawnStep::Surface,
            _ => SpawnStep::SpawnSandboxed,
        },
    }
}

/// Phase of a process-tree kill.
#[derive(Debug, Clone, Copy, PartialEq, Eq, Structural)]
pub enum KillTreeStep {
    /// Send KILL to the process and its direct children.
    SendKill,
    /// Send TERM to the process and its direct children, then wait the
    /// settling delay and probe.
    SendTermThenWait,
    /// The tree is gone; nothing further.
    Done,
}

/// Next phase of a tree kill.  `probed_alive` is absent before the
/// first signal and afterwards records whether the settling-delay probe
/// still found the process alive.
pub open spec fn spec_kill_tree_step(force: bool, probed_alive: Option<bool>) -> KillTreeStep {
    match probed_alive {
        None => if force {
            KillTreeStep::SendKill
        } else {
            KillTreeStep::SendTermThenWait
        },
        Some(alive) => if alive {
            KillTreeStep::SendKill
        } else {
            KillTreeStep::Done
        },
    }
}

/// Decides the next phase of a tree kill: a forced kill skips straight
/// to KILL; a graceful one sends TERM, waits, and escalates to KILL
/// exactly when the probe still finds the process alive.
pub fn kill_tree_step(force: bool, probed_alive: Option<bool>) -> (r: KillTreeStep)
    ensures
        r == spec_kill_tree_step(force, probed_alive),
        force && probed_alive is None ==> r == KillTreeStep::SendKill,
        !force && probed_alive is None ==> r == KillTreeStep::SendTermThenWait,
        probed_alive == Some(true) ==> r == KillTreeStep::SendKill,
        probed_alive == Some(false) ==> r == KillTreeStep::Done,
{
    match probed_alive {
        None => {
            if force {
                KillTreeStep::SendKill
            } else {
                KillTreeStep::SendTermThenWait
            }
        },
        Some(alive) => {
            if alive {
                KillTreeStep::SendKill
            } else {
                KillTreeStep::Done
            }
        },
    }
}

} // verus!

verus! {

/// The text with every occurrence of `name` replaced by `val`,
/// scanning left to right and never rescanning replaced text.
pub open spec fn spec_substitute(s: Seq<char>, name: Seq<char>, val: Seq<char>) -> Seq<char>
    decreases s.len(),
{
    if s.len() == 0 {
        Seq::empty()
    } else if 0 < name.len() <= s.len() && s.take(name.len() as int) == name {
        val + spec_substitute(s.skip(name.len() as int), name, val)
    } else {
        seq![s[0]] + spec_substitute(s.drop_first(), name, val)
    }
}

/// Characters of a string slice, in order.
fn chars_of(s: &str) -> (r: Vec<char>)
    ensures
        r@ == s@,
{
    let n: usize = s.unicode_len();
    let mut out: Vec<char> = Vec::new();
    let mut i: usize = 0;
    while i < n
        invariant
            n == s@.len(),
            i <= n,
            out@.len() == i,
            forall|k: int| 0 <= k < i ==> out@[k] == s@[k],
        decreases n - i,
    {
        out.push(s.get_char(i));
        i = i + 1;
    }
    proof {
        assert(out@ =~= s@);
    }
    out
}

/// Replaces every occurrence of `name` in `s` by `val`.
pub fn substitute(s: &str, name: &str, val: &str) -> (r: String)
    ensures
        r@ == spec_substitute(s@, name@, val@),
{
    let sv = chars_of(s);
    let nv = chars_of(name);
    let vv = chars_of(val);
    let n: usize = sv.len();
    let m: usize = nv.len();
    let mut out: Vec<char> = Vec::new();
    let mut i: usize = 0;
    proof {
        assert(s@.skip(0) =~= s@);
        assert(Seq::<char>::empty() + spec_substitute(s@, name@, val@) =~= spec_substitute(
            s@,
            name@,
            val@,
        ));
    }
    while i < n
        invariant
            n == s@.len(),
            m == name@.len(),
            sv@ == s@,
            nv@ == name@,
            vv@ == val@,
            i <= n,
            spec_substitute(s@, name@, val@) == out@ + spec_substitute(
                s@.skip(i as int),
                name@,
                val@,
            ),
        decreases n - i,
    {
        let ghost suffix = s@.skip(i as int);
        proof {
            assert(suffix[0] == s@[i as int]);
            assert(suffix.drop_first() =~= s@.skip(i as int + 1));
        }
        let mut window_match = m > 0 && m <= n - i;
        if window_match {
            let mut k: usize = 0;
            proof {
                assert(suffix.take(0) =~= name@.take(0));
            }
            while k < m
                invariant
                    n == s@.len(),
                    m == name@.len(),
                    sv@ == s@,
                    nv@ == name@,
                    i + m <= n,
                    k <= m,
                    window_match == (suffix.take(k as int) == name@.take(k as int)),
                    window_match || k == m,
                    suffix == s@.skip(i as int),
                decreases m - k,
            {
                proof {
                    assert(suffix.take(k as int + 1) =~= suffix.take(k as int) + seq![
                        suffix[k as int],
                    ]);
                    assert(name@.take(k as int + 1) =~= name@.take(k as int) + seq![
                        name@[k as int],
                    ]);
                    assert(suffix[k as int] == s@[i + k]);
                }
                if sv[i + k] != nv[k] {
                    window_match = false;
                    proof {
                        assert(s@[i + k] != name@[k as int]);
                        assert(suffix.take(m as int)[k as int] == suffix[k as int]);
                        assert(name@.take(m as int)[k as int] == name@[k as int]);
                        assert(suffix.take(m as int) != name@.take(m as int));
                    }
                    k = m;
                } else {
                    proof {
                        assert(s@[i + k] == name@[k as int]);
                        assert(suffix.take(k as int + 1) == name@.take(k as int + 1));
                    }
                    k = k + 1;
                }
            }
            proof {
                if window_match {
                    assert(suffix.take(m as int) =~= name@.take(m as int));
                    assert(name@.take(m as int) =~= name@);
                } else {
                    if suffix.take(m as int) == name@ {
                        assert(suffix.take(m as int) == name@.take(m as int));
                    }
                }
            }
        } else {
            proof {
                if 0 < name@.len() <= suffix.len() {
                    assert(false);
                }
            }
        }
        if window_match {
            let mut k: usize = 0;
            let ghost out_before = out@;
            while k < vv.len()
                invariant
                    vv@ == val@,
                    k <= vv@.len(),
                    out@ == out_before + val@.take(k as int),
                decreases vv@.len() - k,
            {
                proof {
                    assert(val@.take(k as int + 1) =~= val@.take(k as int) + seq![
                        val@[k as int],
                    ]);
                }
                out.push(vv[k]);
                k = k + 1;
            }
            proof {
                assert(val@.take(vv@.len() as int) =~= val@);
                assert(spec_substitute(suffix, name@, val@) == val@ + spec_substitute(
                    suffix.skip(m as int),
                    name@,
                    val@,
                ));
                assert(suffix.skip(m as int) =~= s@.skip(i as int + m as int));
                crate::textutil::lemma_concat_assoc(out_before, val@, spec_substitute(
                    s@.skip(i as int + m as int),
                    name@,
                    val@,
                ));
            }
            i = i + m;
        } else {
            let ghost out_before = out@;
            out.push(sv[i]);
            proof {
                assert(spec_substitute(suffix, name@, val@) == seq![s@[i as int]]
                    + spec_substitute(s@.skip(i as int + 1), name@, val@));
                crate::textutil::lemma_concat_assoc(
                    out_before,
                    seq![s@[i as int]],
                    spec_substitute(s@.skip(i as int + 1), name@, val@),
                );
                assert(out_before + seq![s@[i as int]] =~= out@);
            }
            i = i + 1;
        }
    }
    proof {
        assert(s@.skip(n as int).len() == 0);
        assert(out@ + Seq::<char>::empty() =~= out@);
    }
    crate::textutil::string_from_chars(out)
}

} // verus!

verus! {

/// Cuts trailing whitespace off a rendered fragment.
pub fn trim_end_str(s: &str) -> (r: String)
    ensures
        r@ == crate::worker_mgr::spec_trim_end_chars(s@),
{
    let n: usize = s.unicode_len();
    let mut end: usize = n;
    while end > 0 && crate::worker_mgr::is_ws_char(s.get_char(end - 1))
        invariant
            n == s@.len(),
            end <= n,
            forall|j: int|
                end <= j < n ==> crate::worker_mgr::spec_is_ws_char(#[trigger] s@[j]),
        decreases end,
    {
        end = end - 1;
    }
    proof {
        crate::worker_mgr::lemma_trim_end_chars(s@, end as int);
    }
    let r = s.substring_char(0, end).to_owned();
    r
}

/// One fragment's text with all five placeholders substituted, in the
/// fixed order.
pub open spec fn spec_profile_body(
    fragment: Seq<char>,
    cell_id: Seq<char>,
    state_root: Seq<char>,
    state_root_real: Seq<char>,
    cell_dir: Seq<char>,
    cell_dir_real: Seq<char>,
) -> Seq<char> {
    spec_substitute(
        spec_substitute(
            spec_substitute(
                spec_substitute(
                    spec_substitute(fragment, "{{CELL_ID}}"@, cell_id),
                    "{{STATE_ROOT}}"@,
                    state_root,
                ),
                "{{STATE_ROOT_REAL}}"@,
                state_root_real,
            ),
            "{{CELL_DIR}}"@,
            cell_dir,
        ),
        "{{CELL_DIR_REAL}}"@,
        cell_dir_real,
    )
}

/// The rendered profile from a fragment position on: each fragment
/// under its banner, trailing whitespace trimmed, fragments separated
/// by a blank line.
pub open spec fn spec_render_profile_from(
    fragments: Seq<(Seq<char>, Seq<char>)>,
    first: bool,
    cell_id: Seq<char>,
    state_root: Seq<char>,
    state_root_real: Seq<char>,
    cell_dir: Seq<char>,
    cell_dir_real: Seq<char>,
) -> Seq<char>
    decreases fragments.len(),
{
    if fragments.len() == 0 {
        Seq::empty()
    } else {
        (if first {
            Seq::<char>::empty()
        } else {
            "\n"@
        }) + "; ---- "@ + fragments[0].0 + " ----\n"@ + crate::worker_mgr::spec_trim_end_chars(
            spec_profile_body(
                fragments[0].1,
                cell_id,
                state_root,
                state_root_real,
                cell_dir,
                cell_dir_real,
            ),
        ) + "\n"@ + spec_render_profile_from(
            fragments.drop_first(),
            false,
            cell_id,
            state_root,
            state_root_real,
            cell_dir,
            cell_dir_real,
        )
    }
}

/// The complete rendered profile for a cell.
pub open spec fn spec_render_profile(
    fragments: Seq<(Seq<char>, Seq<char>)>,
    cell_id: Seq<char>,
    state_root: Seq<char>,
    state_root_real: Seq<char>,
    cell_dir: Seq<char>,
    cell_dir_real: Seq<char>,
) -> Seq<char> {
    spec_render_profile_from(
        fragments,
        true,
        cell_id,
        state_root,
        state_root_real,
        cell_dir,
        cell_dir_real,
    )
}

/// Renders the sandbox profile for a cell from the ordered named
/// fragments: each fragment is emitted under a banner naming it, with
/// the five placeholders substituted (the `_REAL` values carry resolved
/// paths the caller supplies) and trailing whitespace trimmed.
pub fn render_sandbox_profile(
    fragments: &Vec<(String, String)>,
    cell_id: &str,
    state_root: &str,
    state_root_real: &str,
    cell_dir: &str,
    cell_dir_real: &str,
) -> (r: String)
    ensures
        r@ == spec_render_profile(
            fragments@.map_values(|p: (String, String)| (p.0@, p.1@)),
            cell_id@,
            state_root@,
            state_root_real@,
            cell_dir@,
            cell_dir_real@,
        ),
{
    let ghost fv = fragments@.map_values(|p: (String, String)| (p.0@, p.1@));
    let mut out = String::new();
    let n: usize = fragments.len();
    let mut i: usize = 0;
    proof {
        assert(fv.skip(0) =~= fv);
        assert(out@ + spec_render_profile_from(
            fv,
            true,
            cell_id@,
            state_root@,
            state_root_real@,
            cell_dir@,
            cell_dir_real@,
        ) =~= spec_render_profile_from(
            fv,
            true,
            cell_id@,
            state_root@,
            state_root_real@,
            cell_dir@,
            cell_dir_real@,
        ));
    }
    while i < n
        invariant
            n == fv.len(),
            fv == fragments@.map_values(|p: (String, String)| (p.0@, p.1@)),
            i <= n,
            spec_render_profile(
                fv,
                cell_id@,
                state_root@,
                state_root_real@,
                cell_dir@,
                cell_dir_real@,
            ) == out@ + spec_render_profile_from(
                fv.skip(i as int),
                i == 0,
                cell_id@,
                state_root@,
                state_root_real@,
                cell_dir@,
                cell_dir_real@,
            ),
        decreases n - i,
    {
        proof {
            assert(fv.skip(i as int)[0] == fv[i as int]);
            assert(fv.skip(i as int).drop_first() =~= fv.skip(i as int + 1));
        }
        let ghost out_before = out@;
        if i > 0 {
            out.append("\n");
        }
        out.append("; ---- ");
        out.append(fragments[i].0.as_str());
        out.append(" ----\n");
        let body = substitute(
            substitute(
                substitute(
                    substitute(
                        substitute(fragments[i].1.as_str(), "{{CELL_ID}}", cell_id).as_str(),
                        "{{STATE_ROOT}}",
                        state_root,
                    ).as_str(),
                    "{{STATE_ROOT_REAL}}",
                    state_root_real,
                ).as_str(),
                "{{CELL_DIR}}",
                cell_dir,
            ).as_str(),
            "{{CELL_DIR_REAL}}",
            cell_dir_real,
        );
        out.append(trim_end_str(body.as_str()).as_str());
        out.append("\n");
        proof {
            let sep: Seq<char> = if i == 0 {
                Seq::<char>::empty()
            } else {
                "\n"@
            };
            let element = sep + "; ---- "@ + fv[i as int].0 + " ----\n"@
                + crate::worker_mgr::spec_trim_end_chars(
                spec_profile_body(
                    fv[i as int].1,
                    cell_id@,
                    state_root@,
                    state_root_real@,
                    cell_dir@,
                    cell_dir_real@,
                ),
            ) + "\n"@;
            assert(out@ =~= out_before + element);
            crate::textutil::lemma_concat_assoc(
                out_before,
                element,
                spec_render_profile_from(
                    fv.skip(i as int + 1),
                    false,
                    cell_id@,
                    state_root@,
                    state_root_real@,
                    cell_dir@,
                    cell_dir_real@,
                ),
            );
        }
        i = i + 1;
    }
    proof {
        assert(fv.skip(n as int).len() == 0);
        assert(out@ + Seq::<char>::empty() =~= out@);
    }
    out
}

} // verus!
