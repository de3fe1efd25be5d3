//! Daemon-side worker lifecycle decisions: when a cached worker is
//! reused, respawned or dropped, how the handshake outcome is judged,
//! and how a fresh worker's identity is formed.  The surrounding code
//! owns the sockets and process handles and runs the calls.

use vstd::prelude::*;
use vstd::string::{StrSliceExecFns, StringExecFns};
use crate::errors::{ErrorCode, PlanterError};
use crate::pty::spec_lower_char;
use crate::store::{spec_u64_digits, u64_to_string};
use crate::textutil::{str_eq, string_from_chars};

verus! {

/// How a per-cell call obtains its worker.
#[derive(Debug, Clone, Copy, PartialEq, Eq, Structural)]
pub enum WorkerCallStep {
    /// The cached worker answered the ping and is reused.
    Reuse,
    /// The cached worker failed the ping: terminate it and respawn.
    TerminateAndRespawn,
    /// No worker is cached: spawn a fresh one.
    SpawnFresh,
}

/// Decides how a per-cell call obtains its worker, from whether one is
/// cached and whether it answered a ping.
pub fn worker_call_step(have_cached: bool, ping_ok: bool) -> (r: WorkerCallStep)
    ensures
        have_cached && ping_ok ==> r == WorkerCallStep::Reuse,
        have_cached && !ping_ok ==> r == WorkerCallStep::TerminateAndRespawn,
        !have_cached ==> r == WorkerCallStep::SpawnFresh,
{
    if !have_cached {
        WorkerCallStep::SpawnFresh
    } else if ping_ok {
        WorkerCallStep::Reuse
    } else {
        WorkerCallStep::TerminateAndRespawn
    }
}

/// What happens to the worker handle after a call.
#[derive(Debug, Clone, Copy, PartialEq, Eq, Structural)]
pub enum KeepOrTerminate {
    /// Stamp the handle's last use and return it to the cache.
    StampAndKeep,
    /// Terminate the handle and propagate the error.
    TerminateAndPropagate,
}

/// Decides the handle's fate from the call's outcome: a successful call
/// keeps the worker cached, a failed one tears it down.
pub fn worker_call_finish(call_ok: bool) -> (r: KeepOrTerminate)
    ensures
        call_ok ==> r == KeepOrTerminate::StampAndKeep,
        !call_ok ==> r == KeepOrTerminate::TerminateAndPropagate,
{
    if call_ok {
        KeepOrTerminate::StampAndKeep
    } else {
        KeepOrTerminate::TerminateAndPropagate
    }
}

/// Judges the handshake of a just-spawned worker: the handshake's own
/// verdict passes through, and running out of time makes the worker
/// unavailable.
pub fn handshake_outcome(hello: Option<Result<(), PlanterError>>) -> (r: Result<(), PlanterError>)
    ensures
        match hello {
            Some(h) => match h {
                Ok(u) => r is Ok,
                Err(e) => r == Err::<(), PlanterError>(e),
            },
            None => r matches Err(e) && e.code == ErrorCode::Unavailable,
        },
{
    match hello {
        Some(Ok(())) => Ok(()),
        Some(Err(err)) => Err(err),
        None => Err(
            PlanterError {
                code: ErrorCode::Unavailable,
                message: String::from_str("worker hello timed out"),
                detail: None,
            },
        ),
    }
}

/// Authentication token for a fresh worker, formed from the daemon's
/// process id and a clock reading the caller supplies.
pub fn auth_token_for(pid: u64, nanos: u64) -> (r: String)
    ensures
        r@ == "wkr-"@ + spec_u64_digits(pid) + "-"@ + spec_u64_digits(nanos),
{
    let mut s = String::from_str("wkr-");
    s.append(u64_to_string(pid).as_str());
    s.append("-");
    s.append(u64_to_string(nanos).as_str());
    s
}

/// ASCII whitespace, as the truthiness check strips it.
pub open spec fn spec_is_ws_char(c: char) -> bool {
    c == ' ' || c == '\t' || c == '\n' || c == '\r'
}

/// The value with leading whitespace dropped.
pub open spec fn spec_trim_start(s: Seq<char>) -> Seq<char>
    decreases s.len(),
{
    if s.len() > 0 && spec_is_ws_char(s[0]) {
        spec_trim_start(s.drop_first())
    } else {
        s
    }
}

/// The value with trailing whitespace dropped.
pub open spec fn spec_trim_end_chars(s: Seq<char>) -> Seq<char>
    decreases s.len(),
{
    if s.len() > 0 && spec_is_ws_char(s.last()) {
        spec_trim_end_chars(s.drop_last())
    } else {
        s
    }
}

/// A value that switches the in-process worker on: one of the accepted
/// words, ignoring case and surrounding whitespace.
pub open spec fn spec_truthy(s: Seq<char>) -> bool {
    let t = spec_trim_end_chars(spec_trim_start(s)).map_values(|c: char| spec_lower_char(c));
    t == "1"@ || t == "true"@ || t == "yes"@ || t == "on"@
}

/// The suffix after the leading whitespace is its own trim.
proof fn lemma_trim_start_chars(s: Seq<char>, start: int)
    requires
        0 <= start <= s.len(),
        forall|j: int| 0 <= j < start ==> spec_is_ws_char(s[j]),
        start == s.len() || !spec_is_ws_char(s[start]),
    ensures
        spec_trim_start(s) == s.skip(start),
    decreases start,
{
    if start == 0 {
        assert(s.skip(0) =~= s);
    } else {
        let t = s.drop_first();
        assert forall|j: int| 0 <= j < start - 1 implies spec_is_ws_char(t[j]) by {
            assert(t[j] == s[j + 1]);
        }
        if start < s.len() {
            assert(t[start - 1] == s[start]);
        }
        lemma_trim_start_chars(t, start - 1);
        assert(t.skip(start - 1) =~= s.skip(start));
    }
}

/// The prefix before the trailing whitespace is its own trim.
pub proof fn lemma_trim_end_chars(s: Seq<char>, end: int)
    requires
        0 <= end <= s.len(),
        forall|j: int| end <= j < s.len() ==> spec_is_ws_char(s[j]),
        end == 0 || !spec_is_ws_char(s[end - 1]),
    ensures
        spec_trim_end_chars(s) == s.take(end),
    decreases s.len(),
{
    if end == s.len() {
        assert(s.take(end) =~= s);
    } else {
        assert(spec_is_ws_char(s.last()));
        let t = s.drop_last();
        assert forall|j: int| end <= j < t.len() implies spec_is_ws_char(t[j]) by {
            assert(t[j] == s[j]);
        }
        if end > 0 {
            assert(t[end - 1] == s[end - 1]);
        }
        lemma_trim_end_chars(t, end);
        assert(t.take(end) =~= s.take(end));
    }
}

/// Selects in-process worker mode, as the worker manager configures it:
/// an explicit switch value decides by truthiness; without one, the
/// worker runs in process exactly when its binary is missing.
pub fn use_inprocess_worker(inproc_env: Option<String>, bin_exists: bool) -> (r: bool)
    ensures
        inproc_env matches Some(v) ==> r == spec_truthy(v@),
        inproc_env is None ==> r == !bin_exists,
{
    let value = match inproc_env {
        Some(v) => v,
        None => {
            return !bin_exists;
        },
    };
    let s = value.as_str();
    let n: usize = s.unicode_len();
    let mut start: usize = 0;
    while start < n && is_ws_char(s.get_char(start))
        invariant
            n == s@.len(),
            start <= n,
            forall|j: int| 0 <= j < start ==> spec_is_ws_char(s@[j]),
        decreases n - start,
    {
        start = start + 1;
    }
    let mut end: usize = n;
    while end > start && is_ws_char(s.get_char(end - 1))
        invariant
            n == s@.len(),
            start <= end <= n,
            forall|j: int| end <= j < n ==> spec_is_ws_char(s@[j]),
        decreases end,
    {
        end = end - 1;
    }
    let mut lowered: Vec<char> = Vec::new();
    let mut i: usize = start;
    while i < end
        invariant
            n == s@.len(),
            start <= i <= end <= n,
            lowered@.len() == i - start,
            forall|k: int|
                0 <= k < i - start ==> lowered@[k] == spec_lower_char(#[trigger] s@[start + k]),
        decreases end - i,
    {
        let c = s.get_char(i);
        let low: char = if 'A' <= c && c <= 'Z' {
            ((c as u8) + 32) as char
        } else {
            c
        };
        lowered.push(low);
        i = i + 1;
    }
    let word = string_from_chars(lowered);
    proof {
        if end == start {
            assert(s@.skip(start as int).take(0) =~= Seq::<char>::empty());
        }
        lemma_trim_start_chars(s@, start as int);
        let mid = s@.skip(start as int);
        assert forall|j: int| (end - start) <= j < mid.len() implies spec_is_ws_char(mid[j]) by {
            assert(mid[j] == s@[start + j]);
        }
        if end > start {
            assert(mid[end - start - 1] == s@[end - 1]);
        }
        lemma_trim_end_chars(mid, end - start);
        let trimmed = mid.take(end - start);
        assert forall|k: int| 0 <= k < trimmed.len() implies word@[k] == spec_lower_char(
            trimmed[k],
        ) by {
            assert(trimmed[k] == s@[start + k]);
        }
        assert(word@ =~= trimmed.map_values(|c: char| spec_lower_char(c)));
    }
    str_eq(word.as_str(), "1") || str_eq(word.as_str(), "true") || str_eq(word.as_str(), "yes")
        || str_eq(word.as_str(), "on")
}

/// ASCII whitespace test on one character.
pub fn is_ws_char(c: char) -> (r: bool)
    ensures
        r == spec_is_ws_char(c),
{
    c == ' ' || c == '\t' || c == '\n' || c == '\r'
}

} // verus!
