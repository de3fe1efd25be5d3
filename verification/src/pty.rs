//! PTY session bookkeeping: the session table with its append-only
//! output buffers and offset-bounded reads, and the shell-argument
//! normalization applied before a session is spawned.

use vstd::prelude::*;
use vstd::string::{StrSliceExecFns, StringExecFns};
use crate::env_map::EnvMap;
use crate::errors::{ErrorCode, PlanterError};
use crate::ids::SessionId;
use crate::textutil::{str_eq, string_from_chars};

verus! {

/// Policy controlling whether PTY shells are nested inside the host
/// sandbox runner.
#[derive(Debug, Clone, Copy, PartialEq, Eq, Structural)]
pub enum PtySandboxMode {
    /// Never attempt nested sandboxing.
    Disabled,
    /// Attempt nested sandboxing where possible.
    Permissive,
    /// Require nested sandboxing unless blocked by parent confinement.
    Enforced,
}

/// Result payload for PTY open operations.
#[derive(Debug, PartialEq, Eq)]
pub struct PtyOpenResult {
    /// Newly created session id.
    pub session_id: SessionId,
    /// Child process id when available.
    pub pid: Option<u32>,
}

/// Result payload for PTY read operations.
#[derive(Debug, PartialEq, Eq)]
pub struct PtyReadResult {
    /// Offset used for the read call.
    pub offset: u64,
    /// Raw output bytes.
    pub data: Vec<u8>,
    /// True when no more bytes are currently buffered.
    pub eof: bool,
    /// True when session has fully completed.
    pub complete: bool,
    /// Exit code when complete.
    pub exit_code: Option<i32>,
}

/// Builds a standardized internal PTY error payload.
pub fn pty_to_error(action: &str, detail: String) -> (r: PlanterError)
    ensures
        r.code == ErrorCode::Internal,
        r.message@ == action@,
        r.detail matches Some(d) && d@ == detail@,
{
    PlanterError { code: ErrorCode::Internal, message: action.to_owned(), detail: Some(detail) }
}

/// Builds a standardized lock-poisoned error payload.
pub fn lock_error(message: &str) -> (r: PlanterError)
    ensures
        r.code == ErrorCode::Internal,
        r.message@ == message@,
        r.detail is None,
{
    PlanterError { code: ErrorCode::Internal, message: message.to_owned(), detail: None }
}

/// Builds a standardized not-found error payload.
pub fn not_found_error(message: String) -> (r: PlanterError)
    ensures
        r.code == ErrorCode::NotFound,
        r.message@ == message@,
        r.detail is None,
{
    PlanterError { code: ErrorCode::NotFound, message, detail: None }
}

/// Buffered state of one PTY session: what the reader thread has
/// appended so far, whether it has exited, and the captured exit code.
#[derive(Debug, PartialEq, Eq)]
pub struct PtySession {
    /// Output bytes appended so far, in arrival order.
    pub buffer: Vec<u8>,
    /// The reader thread has observed the end of the stream.
    pub complete: bool,
    /// Exit code captured at completion, when known.
    pub exit_code: Option<i32>,
}

/// First session bound to `id`.
pub open spec fn spec_sessions_get(m: Seq<(u64, PtySession)>, id: u64) -> Option<PtySession>
    decreases m.len(),
{
    if m.len() == 0 {
        None
    } else if m[0].0 == id {
        Some(m[0].1)
    } else {
        spec_sessions_get(m.drop_first(), id)
    }
}

/// The session table of one PTY manager, with its monotonic id counter.
#[derive(Debug, PartialEq, Eq)]
pub struct PtySessions {
    /// Sessions keyed by identifier, in creation order.
    pub sessions: Vec<(u64, PtySession)>,
    /// Next session id to hand out.
    pub next_id: u64,
}

impl View for PtySessions {
    type V = Seq<(u64, PtySession)>;

    open spec fn view(&self) -> Seq<(u64, PtySession)> {
        self.sessions@.map_values(|p: (u64, PtySession)| p)
    }
}

impl PtySessions {
    /// Identifiers are pairwise distinct and below the counter.
    pub open spec fn wf(&self) -> bool {
        (forall|i: int, j: int| 0 <= i < j < self@.len() ==> self@[i].0 != self@[j].0) && (forall|
            i: int,
        | 0 <= i < self@.len() ==> (#[trigger] self@[i].0) < self.next_id)
    }

    /// Creates an empty session table; identifiers start at one.
    pub fn new() -> (r: PtySessions)
        ensures
            r@ == Seq::<(u64, PtySession)>::empty(),
            r.wf(),
    {
        PtySessions { sessions: Vec::new(), next_id: 1 }
    }

    /// Index of the session bound to `id`, when present.
    fn find(&self, id: u64) -> (r: Option<usize>)
        ensures
            match r {
                Some(i) => i < self@.len() && self@[i as int].0 == id && spec_sessions_get(
                    self@,
                    id,
                ) == Some(self@[i as int].1),
                None => spec_sessions_get(self@, id) is None,
            },
    {
        let n: usize = self.sessions.len();
        let mut i: usize = 0;
        proof {
            assert(self@.skip(0) =~= self@);
        }
        while i < n
            invariant
                n == self@.len(),
                i <= n,
                spec_sessions_get(self@, id) == spec_sessions_get(self@.skip(i as int), id),
            decreases n - i,
        {
            proof {
                assert(self@.skip(i as int)[0] == self@[i as int]);
                assert(self@.skip(i as int).drop_first() =~= self@.skip(i as int + 1));
            }
            if self.sessions[i].0 == id {
                return Some(i);
            }
            i = i + 1;
        }
        proof {
            assert(self@.skip(n as int).len() == 0);
        }
        None
    }

    /// Registers a fresh session with an empty buffer and returns its id.
    pub fn open_session(&mut self) -> (r: SessionId)
        requires
            old(self).next_id < u64::MAX,
            old(self).wf(),
        ensures
            final(self).wf(),
            r.0 == old(self).next_id,
            final(self).next_id == old(self).next_id + 1,
            final(self)@.len() == old(self)@.len() + 1,
            final(self)@.subrange(0, old(self)@.len() as int) == old(self)@,
            final(self)@.last().0 == r.0,
            spec_sessions_get(final(self)@, r.0) matches Some(s) && s.buffer@.len() == 0
                && !s.complete && s.exit_code is None,
    {
        let ghost old_view = self@;
        let id = self.next_id;
        self.next_id = self.next_id + 1;
        let fresh = PtySession { buffer: Vec::new(), complete: false, exit_code: None };
        let ghost fresh_view = fresh;
        self.sessions.push((id, fresh));
        proof {
            assert(self@ =~= old_view + seq![(id, fresh_view)]);
            assert(self@.subrange(0, old_view.len() as int) =~= old_view);
            lemma_sessions_get_append(old_view, id, fresh_view);
            assert forall|a: int, b: int|
                0 <= a < b < self@.len() implies self@[a].0 != self@[b].0 by {}
        }
        SessionId(id)
    }

    /// Appends output bytes read from the PTY master to a session's
    /// buffer; reports whether the session still exists.
    pub fn append_output(&mut self, id: u64, data: &[u8]) -> (r: bool)
        requires
            old(self).wf(),
        ensures
            final(self).wf(),
            match spec_sessions_get(old(self)@, id) {
                Some(s) => r && (spec_sessions_get(final(self)@, id) matches Some(t) && t.buffer@
                    == s.buffer@ + data@ && t.complete == s.complete && t.exit_code
                    == s.exit_code),
                None => !r && final(self)@ == old(self)@,
            },
    {
        let ghost old_view = self@;
        match self.find(id) {
            Some(i) => {
                let ghost prev = self@[i as int].1;
                let mut entry = self.sessions.remove(i);
                crate::cbor::push_bytes(&mut entry.1.buffer, data);
                self.sessions.insert(i, entry);
                proof {
                    assert(self@ =~= old_view.update(
                        i as int,
                        (
                            old_view[i as int].0,
                            PtySession {
                                buffer: self@[i as int].1.buffer,
                                complete: prev.complete,
                                exit_code: prev.exit_code,
                            },
                        ),
                    ));
                    lemma_sessions_get_update(old_view, i as int, self@[i as int].1);
                    assert forall|a: int, b: int|
                        0 <= a < b < self@.len() implies self@[a].0 != self@[b].0 by {
                        assert(old_view[a].0 != old_view[b].0);
                    }
                    assert forall|a: int|
                        0 <= a < self@.len() implies (#[trigger] self@[a].0) < self.next_id by {
                        assert(old_view[a].0 < self.next_id);
                    }
                }
                true
            },
            None => false,
        }
    }

    /// Marks a session complete with its exit code; reports whether the
    /// session still exists.
    pub fn mark_complete(&mut self, id: u64, exit_code: Option<i32>) -> (r: bool)
        requires
            old(self).wf(),
        ensures
            final(self).wf(),
            match spec_sessions_get(old(self)@, id) {
                Some(s) => r && (spec_sessions_get(final(self)@, id) matches Some(t) && t.buffer@
                    == s.buffer@ && t.complete && t.exit_code == exit_code),
                None => !r && final(self)@ == old(self)@,
            },
    {
        let ghost old_view = self@;
        match self.find(id) {
            Some(i) => {
                let mut entry = self.sessions.remove(i);
                entry.1.complete = true;
                entry.1.exit_code = exit_code;
                self.sessions.insert(i, entry);
                proof {
                    assert(self@ =~= old_view.update(
                        i as int,
                        (old_view[i as int].0, self@[i as int].1),
                    ));
                    lemma_sessions_get_update(old_view, i as int, self@[i as int].1);
                    assert forall|a: int, b: int|
                        0 <= a < b < self@.len() implies self@[a].0 != self@[b].0 by {
                        assert(old_view[a].0 != old_view[b].0);
                    }
                    assert forall|a: int|
                        0 <= a < self@.len() implies (#[trigger] self@[a].0) < self.next_id by {
                        assert(old_view[a].0 < self.next_id);
                    }
                }
                true
            },
            None => false,
        }
    }

    /// Reads an offset-bounded chunk of a session's buffered output.
    ///
    /// The returned bytes are `buffer[min(offset, len) ..
    /// min(start + clamp(max_bytes), len)]`; a read at or past the end
    /// yields an empty chunk with `eof` set, and `complete` holds
    /// exactly when `eof` holds and the reader thread has finished.
    pub fn read_chunk(&self, id: u64, offset: u64, max_bytes: u32) -> (r: Result<
        PtyReadResult,
        PlanterError,
    >)
        ensures
            match r {
                Ok(chunk) => spec_sessions_get(self@, id) matches Some(s) && ({
                    let len = s.buffer@.len() as int;
                    let cap = if max_bytes == 0 {
                        1int
                    } else {
                        max_bytes as int
                    };
                    let start = if offset <= len {
                        offset as int
                    } else {
                        len
                    };
                    let end = if start + cap <= len {
                        start + cap
                    } else {
                        len
                    };
                    &&& chunk.offset == offset
                    &&& chunk.data@ == s.buffer@.subrange(start, end)
                    &&& chunk.eof == (end == len)
                    &&& chunk.complete == (chunk.eof && s.complete)
                    &&& chunk.exit_code == s.exit_code
                    &&& offset == len ==> chunk.data@.len() == 0 && chunk.eof
                }),
                Err(e) => spec_sessions_get(self@, id) is None && e.code == ErrorCode::NotFound,
            },
    {
        match self.find(id) {
            Some(i) => {
                let session = &self.sessions[i].1;
                let len: usize = session.buffer.len();
                let cap: usize = if max_bytes == 0 {
                    1
                } else {
                    max_bytes as usize
                };
                let start: usize = if offset <= len as u64 {
                    offset as usize
                } else {
                    len
                };
                let end: usize = if cap <= len - start {
                    start + cap
                } else {
                    len
                };
                let data = crate::textutil::copy_range(session.buffer.as_slice(), start, end);
                Ok(
                    PtyReadResult {
                        offset,
                        data,
                        eof: end == len,
                        complete: end == len && session.complete,
                        exit_code: session.exit_code,
                    },
                )
            },
            None => Err(
                PlanterError {
                    code: ErrorCode::NotFound,
                    message: String::from_str("session does not exist"),
                    detail: None,
                },
            ),
        }
    }

    /// Removes a session from the table; the caller kills the child.
    pub fn close(&mut self, id: u64) -> (r: Result<(), PlanterError>)
        requires
            old(self).wf(),
        ensures
            final(self).wf(),
            match r {
                Ok(()) => spec_sessions_get(old(self)@, id) is Some && spec_sessions_get(
                    final(self)@,
                    id,
                ) is None,
                Err(e) => spec_sessions_get(old(self)@, id) is None && e.code
                    == ErrorCode::NotFound && final(self)@ == old(self)@,
            },
    {
        let ghost old_view = self@;
        match self.find(id) {
            Some(i) => {
                self.sessions.remove(i);
                proof {
                    assert(self@ =~= old_view.subrange(0, i as int) + old_view.subrange(
                        i as int + 1,
                        old_view.len() as int,
                    ));
                    lemma_sessions_get_remove(old_view, i as int);
                    assert forall|a: int, b: int|
                        0 <= a < b < self@.len() implies self@[a].0 != self@[b].0 by {
                        let sa = if a < i {
                            a
                        } else {
                            a + 1
                        };
                        let sb = if b < i {
                            b
                        } else {
                            b + 1
                        };
                        assert(self@[a] == old_view[sa]);
                        assert(self@[b] == old_view[sb]);
                        assert(old_view[sa].0 != old_view[sb].0);
                    }
                    assert forall|a: int|
                        0 <= a < self@.len() implies (#[trigger] self@[a].0) < self.next_id by {
                        let sa = if a < i {
                            a
                        } else {
                            a + 1
                        };
                        assert(self@[a] == old_view[sa]);
                        assert(old_view[sa].0 < self.next_id);
                    }
                }
                Ok(())
            },
            None => Err(
                PlanterError {
                    code: ErrorCode::NotFound,
                    message: String::from_str("session does not exist"),
                    detail: None,
                },
            ),
        }
    }
}

/// Whether a follow-mode read sleeps and retries: only an empty chunk of
/// a live session, within the wait budget, is retried.
pub fn pty_read_should_retry(data_is_empty: bool, complete: bool, follow: bool, expired: bool) -> (r:
    bool)
    ensures
        r == (data_is_empty && !complete && follow && !expired),
{
    data_is_empty && !complete && follow && !expired
}

/// Appending an unseen identifier makes it found with its session.
proof fn lemma_sessions_get_append(m: Seq<(u64, PtySession)>, id: u64, s: PtySession)
    requires
        forall|i: int| 0 <= i < m.len() ==> (#[trigger] m[i].0) != id,
    ensures
        spec_sessions_get(m + seq![(id, s)], id) == Some(s),
    decreases m.len(),
{
    if m.len() == 0 {
        assert(m + seq![(id, s)] =~= seq![(id, s)]);
    } else {
        assert((m + seq![(id, s)]).drop_first() =~= m.drop_first() + seq![(id, s)]);
        assert forall|i: int|
            0 <= i < m.drop_first().len() implies (#[trigger] m.drop_first()[i].0) != id by {
            assert(m.drop_first()[i] == m[i + 1]);
        }
        lemma_sessions_get_append(m.drop_first(), id, s);
    }
}

/// Updating the first entry bound to an identifier updates its lookup.
proof fn lemma_sessions_get_update(m: Seq<(u64, PtySession)>, i: int, s: PtySession)
    requires
        0 <= i < m.len(),
        forall|k: int| 0 <= k < i ==> (#[trigger] m[k].0) != m[i].0,
    ensures
        spec_sessions_get(m.update(i, (m[i].0, s)), m[i].0) == Some(s),
        forall|id: u64|
            id != m[i].0 ==> spec_sessions_get(m.update(i, (m[i].0, s)), id) == spec_sessions_get(
                m,
                id,
            ),
    decreases i,
{
    let u = m.update(i, (m[i].0, s));
    if i == 0 {
        assert forall|id: u64| id != m[0].0 implies spec_sessions_get(u, id) == spec_sessions_get(
            m,
            id,
        ) by {
            assert(u.drop_first() =~= m.drop_first());
        }
    } else {
        assert(u[0] == m[0]);
        assert(u.drop_first() =~= m.drop_first().update(i - 1, (m[i].0, s)));
        assert(m.drop_first()[i - 1] == m[i]);
        assert forall|k: int|
            0 <= k < i - 1 implies (#[trigger] m.drop_first()[k].0) != m[i].0 by {
            assert(m.drop_first()[k] == m[k + 1]);
        }
        lemma_sessions_get_update(m.drop_first(), i - 1, s);
        assert forall|id: u64| id != m[i].0 implies spec_sessions_get(u, id) == spec_sessions_get(
            m,
            id,
        ) by {
            if id != m[0].0 {
                assert(spec_sessions_get(u, id) == spec_sessions_get(u.drop_first(), id));
                assert(spec_sessions_get(m, id) == spec_sessions_get(m.drop_first(), id));
            }
        }
    }
}

/// Removing the first entry bound to an identifier removes its lookup.
proof fn lemma_sessions_get_remove(m: Seq<(u64, PtySession)>, i: int)
    requires
        0 <= i < m.len(),
        forall|k: int, l: int| 0 <= k < l < m.len() ==> m[k].0 != m[l].0,
    ensures
        spec_sessions_get(
            m.subrange(0, i) + m.subrange(i + 1, m.len() as int),
            m[i].0,
        ) is None,
    decreases i,
{
    let u = m.subrange(0, i) + m.subrange(i + 1, m.len() as int);
    if i == 0 {
        assert(u =~= m.drop_first());
        lemma_sessions_absent(m.drop_first(), m[0].0);
    } else {
        assert(u[0] == m[0]);
        assert(u.drop_first() =~= m.drop_first().subrange(0, i - 1) + m.drop_first().subrange(
            i,
            m.drop_first().len() as int,
        ));
        assert(m.drop_first()[i - 1] == m[i]);
        assert forall|k: int, l: int|
            0 <= k < l < m.drop_first().len() implies m.drop_first()[k].0 != m.drop_first()[l].0
            by {
            assert(m.drop_first()[k] == m[k + 1]);
            assert(m.drop_first()[l] == m[l + 1]);
        }
        lemma_sessions_get_remove(m.drop_first(), i - 1);
    }
}

/// An identifier held by no entry is not found.
proof fn lemma_sessions_absent(m: Seq<(u64, PtySession)>, id: u64)
    requires
        forall|i: int| 0 <= i < m.len() ==> (#[trigger] m[i].0) != id,
    ensures
        spec_sessions_get(m, id) is None,
    decreases m.len(),
{
    if m.len() > 0 {
        assert forall|i: int|
            0 <= i < m.drop_first().len() implies (#[trigger] m.drop_first()[i].0) != id by {
            assert(m.drop_first()[i] == m[i + 1]);
        }
        lemma_sessions_absent(m.drop_first(), id);
    }
}

/// Lowercased form of an ASCII letter; other characters are unchanged.
pub open spec fn spec_lower_char(c: char) -> char {
    if 'A' <= c <= 'Z' {
        ((c as u8) + 32) as char
    } else {
        c
    }
}

/// Characters after the last path separator; the whole input when none
/// occurs.
pub open spec fn spec_basename(s: Seq<char>) -> Seq<char>
    decreases s.len(),
{
    if s.len() == 0 {
        s
    } else if s.last() == '/' {
        Seq::empty()
    } else {
        spec_basename(s.drop_last()) + seq![s.last()]
    }
}

/// Lowercased file name of a shell path, or nothing when the path ends
/// with a separator.
pub open spec fn spec_shell_name(s: Seq<char>) -> Option<Seq<char>> {
    let base = spec_basename(s);
    if base.len() == 0 {
        None
    } else {
        Some(base.map_values(|c: char| spec_lower_char(c)))
    }
}

/// Returns the lowercase shell basename from a shell path.
pub fn shell_name(shell: &str) -> (r: Option<String>)
    ensures
        match r {
            Some(name) => spec_shell_name(shell@) == Some(name@),
            None => spec_shell_name(shell@) is None,
        },
{
    let n: usize = shell.unicode_len();
    let mut start: usize = n;
    let mut found = false;
    while start > 0 && !found
        invariant
            n == shell@.len(),
            start <= n,
            forall|j: int| start <= j < n ==> shell@[j] != '/',
            found ==> start >= 1 && shell@[start - 1] == '/',
        decreases start, if found {
            0int
        } else {
            1int
        },
    {
        if shell.get_char(start - 1) == '/' {
            found = true;
        } else {
            start = start - 1;
        }
    }
    proof {
        lemma_basename_chars(shell@, start as int);
    }
    if start == n {
        return None;
    }
    let mut lowered: Vec<char> = Vec::new();
    let mut i: usize = start;
    while i < n
        invariant
            n == shell@.len(),
            start <= i <= n,
            lowered@.len() == i - start,
            forall|k: int|
                0 <= k < i - start ==> lowered@[k] == spec_lower_char(
                    #[trigger] shell@[start + k],
                ),
        decreases n - i,
    {
        let c = shell.get_char(i);
        let low: char = if 'A' <= c && c <= 'Z' {
            ((c as u8) + 32) as char
        } else {
            c
        };
        lowered.push(low);
        i = i + 1;
    }
    let name = string_from_chars(lowered);
    proof {
        let base = spec_basename(shell@);
        assert(base == shell@.subrange(start as int, n as int));
        assert forall|k: int| 0 <= k < base.len() implies name@[k] == spec_lower_char(
            base[k],
        ) by {
            assert(base[k] == shell@[start + k]);
        }
        assert(name@ =~= base.map_values(|c: char| spec_lower_char(c)));
    }
    Some(name)
}

/// The suffix after a separator is its own basename.
proof fn lemma_basename_chars(s: Seq<char>, start: int)
    requires
        0 <= start <= s.len(),
        forall|j: int| start <= j < s.len() ==> s[j] != '/',
        start == 0 || s[start - 1] == '/',
    ensures
        spec_basename(s) == s.subrange(start, s.len() as int),
    decreases s.len(),
{
    if s.len() == 0 {
        assert(s.subrange(0, 0) =~= s);
    } else if start == s.len() {
        assert(s.last() == '/');
        assert(s.subrange(start, s.len() as int) =~= Seq::<char>::empty());
    } else {
        assert(s.last() != '/');
        let t = s.drop_last();
        assert forall|j: int| start <= j < t.len() implies t[j] != '/' by {
            assert(t[j] == s[j]);
        }
        if start > 0 {
            assert(t[start - 1] == s[start - 1]);
        }
        lemma_basename_chars(t, start);
        assert(t.subrange(start, t.len() as int) + seq![s.last()] =~= s.subrange(
            start,
            s.len() as int,
        ));
    }
}

/// Returns default interactive arguments tailored to known shells: zsh
/// skips global rc files, bash is pointed at the generated rc file, and
/// anything else just runs interactively.
pub fn default_shell_args(shell: &str, bash_rc: &str) -> (r: Vec<String>)
    ensures
        spec_shell_name(shell@) == Some("zsh"@) ==> r.deep_view() =~= seq!["-d"@, "-i"@],
        spec_shell_name(shell@) == Some("bash"@) ==> r.deep_view() =~= seq![
            "--noprofile"@,
            "--rcfile"@,
            bash_rc@,
            "-i"@,
        ],
        spec_shell_name(shell@) != Some("zsh"@) && spec_shell_name(shell@) != Some("bash"@)
            ==> r.deep_view() =~= seq!["-i"@],
{
    proof {
        reveal_strlit("zsh");
        reveal_strlit("bash");
        assert("zsh"@.len() == 3);
        assert("bash"@.len() == 4);
        assert("zsh"@[0] == 'z');
        assert("bash"@[0] == 'b');
    }
    let name = shell_name(shell);
    match name {
        Some(n) => {
            if str_eq(n.as_str(), "zsh") {
                let mut out: Vec<String> = Vec::new();
                out.push(String::from_str("-d"));
                out.push(String::from_str("-i"));
                proof {
                    assert(out.deep_view() =~= seq!["-d"@, "-i"@]);
                }
                out
            } else if str_eq(n.as_str(), "bash") {
                let mut out: Vec<String> = Vec::new();
                out.push(String::from_str("--noprofile"));
                out.push(String::from_str("--rcfile"));
                out.push(bash_rc.to_owned());
                out.push(String::from_str("-i"));
                proof {
                    assert(out.deep_view() =~= seq!["--noprofile"@, "--rcfile"@, bash_rc@, "-i"@]);
                }
                out
            } else {
                let mut out: Vec<String> = Vec::new();
                out.push(String::from_str("-i"));
                proof {
                    assert(out.deep_view() =~= seq!["-i"@]);
                }
                out
            }
        },
        None => {
            let mut out: Vec<String> = Vec::new();
            out.push(String::from_str("-i"));
            proof {
                assert(out.deep_view() =~= seq!["-i"@]);
            }
            out
        },
    }
}

/// Normalizes user-provided shell arguments: an empty vector, or the
/// bare interactive flag, is replaced by the shell-specific defaults;
/// anything else passes through unchanged.
pub fn normalize_shell_args(shell: &str, bash_rc: &str, args: Vec<String>) -> (r: Vec<String>)
    ensures
        args@.len() == 0 || (args@.len() == 1 && args@[0]@ == "-i"@) ==> r.deep_view()
            == spec_default_shell_args(shell@, bash_rc@),
        !(args@.len() == 0 || (args@.len() == 1 && args@[0]@ == "-i"@)) ==> r.deep_view()
            == args.deep_view(),
{
    let use_default = if args.len() == 0 {
        true
    } else if args.len() == 1 {
        str_eq(args[0].as_str(), "-i")
    } else {
        false
    };
    if use_default {
        let r = default_shell_args(shell, bash_rc);
        proof {
            assert(r.deep_view() =~= spec_default_shell_args(shell@, bash_rc@));
        }
        r
    } else {
        args
    }
}

/// Default interactive arguments for a shell.
pub open spec fn spec_default_shell_args(shell: Seq<char>, bash_rc: Seq<char>) -> Seq<Seq<char>> {
    if spec_shell_name(shell) == Some("zsh"@) {
        seq!["-d"@, "-i"@]
    } else if spec_shell_name(shell) == Some("bash"@) {
        seq!["--noprofile"@, "--rcfile"@, bash_rc, "-i"@]
    } else {
        seq!["-i"@]
    }
}

/// Truncates verbose detail strings to a fixed character limit, marking
/// the cut with an ellipsis.
pub fn truncate_detail(value: &str, max_chars: usize) -> (r: String)
    ensures
        value@.len() <= max_chars ==> r@ == value@,
        value@.len() > max_chars ==> r@ == value@.subrange(0, max_chars as int) + "..."@,
{
    let n: usize = value.unicode_len();
    if n <= max_chars {
        value.to_owned()
    } else {
        let head = value.substring_char(0, max_chars);
        let mut out = head.to_owned();
        out.append("...");
        out
    }
}

} // verus!

verus! {

/// Quoted form of one character inside a single-quoted shell string:
/// a quote closes the string, emits an escaped quote, and reopens it.
pub open spec fn spec_quote_char(c: char) -> Seq<char> {
    if c == '\'' {
        seq!['\'', '\\', '\'', '\'']
    } else {
        seq![c]
    }
}

/// The value with every single quote replaced by its escaped form.
pub open spec fn spec_shell_quote(s: Seq<char>) -> Seq<char>
    decreases s.len(),
{
    if s.len() == 0 {
        Seq::empty()
    } else {
        spec_quote_char(s[0]) + spec_shell_quote(s.drop_first())
    }
}

/// Extending the input by one character appends its quoted form.
proof fn lemma_shell_quote_snoc(s: Seq<char>, i: int)
    requires
        0 <= i < s.len(),
    ensures
        spec_shell_quote(s.take(i + 1)) == spec_shell_quote(s.take(i)) + spec_quote_char(s[i]),
    decreases i,
{
    if i == 0 {
        assert(s.take(1)[0] == s[0]);
        assert(s.take(1).drop_first() =~= Seq::<char>::empty());
        assert(s.take(0) =~= Seq::<char>::empty());
        assert(spec_quote_char(s[0]) + Seq::<char>::empty() =~= spec_quote_char(s[0]));
        assert(Seq::<char>::empty() + spec_quote_char(s[0]) =~= spec_quote_char(s[0]));
    } else {
        let t = s.drop_first();
        assert(s.take(i + 1)[0] == s[0]);
        assert(s.take(i + 1).drop_first() =~= t.take(i));
        assert(s.take(i)[0] == s[0]);
        assert(s.take(i).drop_first() =~= t.take(i - 1));
        lemma_shell_quote_snoc(t, i - 1);
        crate::textutil::lemma_concat_assoc(
            spec_quote_char(s[0]),
            spec_shell_quote(t.take(i - 1)),
            spec_quote_char(t[i - 1]),
        );
        assert(t[i - 1] == s[i]);
    }
}

/// Escapes a value for safe inclusion in single-quoted shell strings.
pub fn shell_single_quote(value: &str) -> (r: String)
    ensures
        r@ == spec_shell_quote(value@),
{
    let n: usize = value.unicode_len();
    let mut out: Vec<char> = Vec::new();
    let mut i: usize = 0;
    proof {
        assert(value@.take(0) =~= Seq::<char>::empty());
    }
    while i < n
        invariant
            n == value@.len(),
            i <= n,
            out@ == spec_shell_quote(value@.take(i as int)),
        decreases n - i,
    {
        let c = value.get_char(i);
        if c == '\'' {
            out.push('\'');
            out.push('\\');
            out.push('\'');
            out.push('\'');
        } else {
            out.push(c);
        }
        proof {
            lemma_shell_quote_snoc(value@, i as int);
            assert(out@ =~= spec_shell_quote(value@.take(i as int)) + spec_quote_char(
                value@[i as int],
            ));
        }
        i = i + 1;
    }
    proof {
        assert(value@.take(n as int) =~= value@);
    }
    string_from_chars(out)
}

/// Renders the bash startup script used inside PTY sessions: it pins
/// the working directory to the build cell, tames key bindings, and
/// blocks `cd` outside the build-cell subtree.
pub fn render_bash_rc(build_cell: &str) -> (r: String)
    ensures
        r@ == "\nexport PLANTER_BUILD_CELL='"@ + spec_shell_quote(build_cell@)
            + "'\nbuiltin cd \"$PLANTER_BUILD_CELL\" 2>/dev/null || true\nstty sane 2>/dev/null || true\nstty erase '^?' 2>/dev/null || true\nbind '\"\\C-h\": backward-delete-char'\nbind '\"\\C-?\": backward-delete-char'\nbind '\"\\e[3~\": backward-delete-char'\ncd() {\n  if [ \"$#\" -eq 0 ]; then\n    builtin cd \"$PLANTER_BUILD_CELL\"\n    return $?\n  fi\n  case \"$1\" in\n    \"$PLANTER_BUILD_CELL\"|\"$PLANTER_BUILD_CELL/\"*)\n      builtin cd \"$1\"\n      ;;\n    *)\n      printf 'planter: blocked cd outside build cell: %s\\n' \"$1\" >&2\n      return 1\n      ;;\n  esac\n}\nreadonly -f cd\nPROMPT_COMMAND='builtin cd \"$PLANTER_BUILD_CELL\" 2>/dev/null || true'\nreadonly PROMPT_COMMAND\nPS1='planter:\\w\\$ '\n"@,
{
    let mut out = String::from_str("\nexport PLANTER_BUILD_CELL='");
    out.append(shell_single_quote(build_cell).as_str());
    out.append(
        "'\nbuiltin cd \"$PLANTER_BUILD_CELL\" 2>/dev/null || true\nstty sane 2>/dev/null || true\nstty erase '^?' 2>/dev/null || true\nbind '\"\\C-h\": backward-delete-char'\nbind '\"\\C-?\": backward-delete-char'\nbind '\"\\e[3~\": backward-delete-char'\ncd() {\n  if [ \"$#\" -eq 0 ]; then\n    builtin cd \"$PLANTER_BUILD_CELL\"\n    return $?\n  fi\n  case \"$1\" in\n    \"$PLANTER_BUILD_CELL\"|\"$PLANTER_BUILD_CELL/\"*)\n      builtin cd \"$1\"\n      ;;\n    *)\n      printf 'planter: blocked cd outside build cell: %s\\n' \"$1\" >&2\n      return 1\n      ;;\n  esac\n}\nreadonly -f cd\nPROMPT_COMMAND='builtin cd \"$PLANTER_BUILD_CELL\" 2>/dev/null || true'\nreadonly PROMPT_COMMAND\nPS1='planter:\\w\\$ '\n",
    );
    out
}

/// Renders the zsh startup script used inside PTY sessions, with the
/// same working-directory confinement as the bash variant.
pub fn render_zsh_rc(build_cell: &str) -> (r: String)
    ensures
        r@ == "\nexport PLANTER_BUILD_CELL='"@ + spec_shell_quote(build_cell@)
            + "'\nbuiltin cd \"$PLANTER_BUILD_CELL\" 2>/dev/null || true\nstty sane 2>/dev/null || true\nstty erase '^?' 2>/dev/null || true\nbindkey '^?' backward-delete-char\nbindkey '^H' backward-delete-char\nbindkey '\\e[3~' backward-delete-char\nbindkey -M emacs '^?' backward-delete-char\nbindkey -M emacs '^H' backward-delete-char\nbindkey -M emacs '\\e[3~' backward-delete-char\nbindkey -M viins '^?' backward-delete-char\nbindkey -M viins '^H' backward-delete-char\nbindkey -M viins '\\e[3~' backward-delete-char\nfunction cd() {\n  if [[ \"$#\" -eq 0 ]]; then\n    builtin cd \"$PLANTER_BUILD_CELL\"\n    return $?\n  fi\n  case \"$1\" in\n    \"$PLANTER_BUILD_CELL\"|\"$PLANTER_BUILD_CELL/\"*)\n      builtin cd \"$1\"\n      ;;\n    *)\n      print -u2 -- \"planter: blocked cd outside build cell: $1\"\n      return 1\n      ;;\n  esac\n}\nfunction precmd() {\n  builtin cd \"$PLANTER_BUILD_CELL\" 2>/dev/null || true\n}\nPROMPT='planter:%~ %# '\n"@,
{
    let mut out = String::from_str("\nexport PLANTER_BUILD_CELL='");
    out.append(shell_single_quote(build_cell).as_str());
    out.append(
        "'\nbuiltin cd \"$PLANTER_BUILD_CELL\" 2>/dev/null || true\nstty sane 2>/dev/null || true\nstty erase '^?' 2>/dev/null || true\nbindkey '^?' backward-delete-char\nbindkey '^H' backward-delete-char\nbindkey '\\e[3~' backward-delete-char\nbindkey -M emacs '^?' backward-delete-char\nbindkey -M emacs '^H' backward-delete-char\nbindkey -M emacs '\\e[3~' backward-delete-char\nbindkey -M viins '^?' backward-delete-char\nbindkey -M viins '^H' backward-delete-char\nbindkey -M viins '\\e[3~' backward-delete-char\nfunction cd() {\n  if [[ \"$#\" -eq 0 ]]; then\n    builtin cd \"$PLANTER_BUILD_CELL\"\n    return $?\n  fi\n  case \"$1\" in\n    \"$PLANTER_BUILD_CELL\"|\"$PLANTER_BUILD_CELL/\"*)\n      builtin cd \"$1\"\n      ;;\n    *)\n      print -u2 -- \"planter: blocked cd outside build cell: $1\"\n      return 1\n      ;;\n  esac\n}\nfunction precmd() {\n  builtin cd \"$PLANTER_BUILD_CELL\" 2>/dev/null || true\n}\nPROMPT='planter:%~ %# '\n",
    );
    out
}

} // verus!

verus! {

/// Environment names the session always overrides, so caller-supplied
/// values for them are dropped.
pub open spec fn spec_reserved_env_key(k: Seq<char>) -> bool {
    ||| k == "HOME"@
    ||| k == "USER"@
    ||| k == "LOGNAME"@
    ||| k == "ZDOTDIR"@
    ||| k == "HISTFILE"@
    ||| k == "PWD"@
    ||| k == "TMPDIR"@
    ||| k == "TEMP"@
    ||| k == "TMP"@
}

/// True when the session always overrides this environment name.
pub fn is_reserved_env_key(key: &str) -> (r: bool)
    ensures
        r == spec_reserved_env_key(key@),
{
    str_eq(key, "HOME") || str_eq(key, "USER") || str_eq(key, "LOGNAME") || str_eq(key, "ZDOTDIR")
        || str_eq(key, "HISTFILE") || str_eq(key, "PWD") || str_eq(key, "TMPDIR") || str_eq(
        key,
        "TEMP",
    ) || str_eq(key, "TMP")
}

/// The overrides applied in order, with reserved names dropped.
pub open spec fn spec_apply_overrides(
    acc: Seq<(Seq<char>, Seq<char>)>,
    xs: Seq<(Seq<char>, Seq<char>)>,
) -> Seq<(Seq<char>, Seq<char>)>
    decreases xs.len(),
{
    if xs.len() == 0 {
        acc
    } else if spec_reserved_env_key(xs[0].0) {
        spec_apply_overrides(acc, xs.drop_first())
    } else {
        spec_apply_overrides(crate::env_map::spec_env_set(acc, xs[0].0, xs[0].1), xs.drop_first())
    }
}

/// Builds a constrained environment map for PTY shells.
///
/// Only `PATH`, `TERM` (defaulting when unset) and `LANG` are inherited
/// from the daemon; caller overrides for reserved names are dropped; the
/// session then pins its own home, temp and identity variables, the
/// shell path, the working directory, and the session locations.
pub fn build_isolated_env(
    shell: &str,
    session_home: &str,
    session_tmp: &str,
    session_root: &str,
    build_cell: &str,
    cwd: &str,
    path_var: Option<String>,
    term_var: Option<String>,
    lang_var: Option<String>,
    overrides: &EnvMap,
) -> (r: EnvMap)
    ensures
        r.wf(),
        ({
            let base = Seq::<(Seq<char>, Seq<char>)>::empty();
            let with_path = match path_var {
                Some(p) => crate::env_map::spec_env_set(base, "PATH"@, p@),
                None => base,
            };
            let with_term = crate::env_map::spec_env_set(
                with_path,
                "TERM"@,
                match term_var {
                    Some(t) => t@,
                    None => "xterm-256color"@,
                },
            );
            let with_lang = match lang_var {
                Some(l) => crate::env_map::spec_env_set(with_term, "LANG"@, l@),
                None => with_term,
            };
            let with_overrides = spec_apply_overrides(with_lang, overrides@);
            let e1 = crate::env_map::spec_env_set(with_overrides, "HOME"@, session_home@);
            let e2 = crate::env_map::spec_env_set(e1, "USER"@, "anonymous"@);
            let e3 = crate::env_map::spec_env_set(e2, "LOGNAME"@, "anonymous"@);
            let e4 = crate::env_map::spec_env_set(e3, "ZDOTDIR"@, session_home@);
            let e5 = crate::env_map::spec_env_set(e4, "HISTFILE"@, "/dev/null"@);
            let e6 = crate::env_map::spec_env_set(e5, "TMPDIR"@, session_tmp@ + "/"@);
            let e7 = crate::env_map::spec_env_set(e6, "TEMP"@, session_tmp@);
            let e8 = crate::env_map::spec_env_set(e7, "TMP"@, session_tmp@);
            let e9 = crate::env_map::spec_env_set(e8, "SHELL"@, shell@);
            let e10 = crate::env_map::spec_env_set(e9, "PWD"@, cwd@);
            let e11 = crate::env_map::spec_env_set(e10, "PLANTER_BUILD_CELL"@, build_cell@);
            let e12 = crate::env_map::spec_env_set(e11, "PLANTER_SESSION_ROOT"@, session_root@);
            r@ == e12
        }),
{
    let mut env = EnvMap::new();
    match path_var {
        Some(p) => env.set(String::from_str("PATH"), p),
        None => (),
    }
    match term_var {
        Some(t) => env.set(String::from_str("TERM"), t),
        None => env.set(String::from_str("TERM"), String::from_str("xterm-256color")),
    }
    match lang_var {
        Some(l) => env.set(String::from_str("LANG"), l),
        None => (),
    }
    let ghost with_lang = env@;
    let n: usize = overrides.len();
    let mut i: usize = 0;
    proof {
        assert(overrides@.skip(0) =~= overrides@);
    }
    while i < n
        invariant
            n == overrides@.len(),
            i <= n,
            env.wf(),
            spec_apply_overrides(with_lang, overrides@) == spec_apply_overrides(
                env@,
                overrides@.skip(i as int),
            ),
        decreases n - i,
    {
        proof {
            assert(overrides@.skip(i as int)[0] == overrides@[i as int]);
            assert(overrides@.skip(i as int).drop_first() =~= overrides@.skip(i as int + 1));
        }
        let (key, value) = overrides.entry_at(i);
        if !is_reserved_env_key(key.as_str()) {
            env.set(key.clone(), value.clone());
        }
        i = i + 1;
    }
    proof {
        assert(overrides@.skip(n as int).len() == 0);
    }
    env.set(String::from_str("HOME"), session_home.to_owned());
    env.set(String::from_str("USER"), String::from_str("anonymous"));
    env.set(String::from_str("LOGNAME"), String::from_str("anonymous"));
    env.set(String::from_str("ZDOTDIR"), session_home.to_owned());
    env.set(String::from_str("HISTFILE"), String::from_str("/dev/null"));
    let mut tmpdir = session_tmp.to_owned();
    tmpdir.append("/");
    env.set(String::from_str("TMPDIR"), tmpdir);
    env.set(String::from_str("TEMP"), session_tmp.to_owned());
    env.set(String::from_str("TMP"), session_tmp.to_owned());
    env.set(String::from_str("SHELL"), shell.to_owned());
    env.set(String::from_str("PWD"), cwd.to_owned());
    env.set(String::from_str("PLANTER_BUILD_CELL"), build_cell.to_owned());
    env.set(String::from_str("PLANTER_SESSION_ROOT"), session_root.to_owned());
    env
}

} // verus!

verus! {

/// ASCII whitespace collapsed by detail formatting.
pub open spec fn spec_is_ws(b: u8) -> bool {
    b == 0x20 || b == 0x09 || b == 0x0a || b == 0x0d
}

/// The bytes with leading and trailing whitespace dropped and every
/// inner whitespace run collapsed to one space.  `started` records that
/// a word has been emitted; `pending` that a separator is owed before
/// the next one.
pub open spec fn spec_compact_ws(b: Seq<u8>, started: bool, pending: bool) -> Seq<u8>
    decreases b.len(),
{
    if b.len() == 0 {
        Seq::empty()
    } else if spec_is_ws(b[0]) {
        spec_compact_ws(b.drop_first(), started, started)
    } else if pending {
        seq![0x20u8, b[0]] + spec_compact_ws(b.drop_first(), true, false)
    } else {
        seq![b[0]] + spec_compact_ws(b.drop_first(), true, false)
    }
}

/// Normalizes command output for compact error details: whitespace is
/// collapsed, and the result is cut at `max_chars` characters.
///
/// Empty output gives nothing; so does output that is not UTF-8 once
/// compacted.
pub fn format_output_for_detail(output: &[u8], max_chars: usize) -> (r: Option<String>)
    ensures
        ({
            let c = spec_compact_ws(output@, false, false);
            &&& c.len() == 0 ==> r is None
            &&& c.len() > 0 && !vstd::utf8::valid_utf8(c) ==> r is None
            &&& c.len() > 0 && vstd::utf8::valid_utf8(c) ==> ({
                let d = vstd::utf8::decode_utf8(c);
                r matches Some(s) && s@ == (if d.len() <= max_chars {
                    d
                } else {
                    d.subrange(0, max_chars as int) + "..."@
                })
            })
        }),
{
    let ghost full = spec_compact_ws(output@, false, false);
    let n: usize = output.len();
    let mut acc: Vec<u8> = Vec::new();
    let mut started = false;
    let mut pending = false;
    let mut i: usize = 0;
    proof {
        assert(output@.skip(0) =~= output@);
        assert(Seq::<u8>::empty() + spec_compact_ws(output@, false, false) =~= full);
    }
    while i < n
        invariant
            n == output@.len(),
            i <= n,
            full == acc@ + spec_compact_ws(output@.skip(i as int), started, pending),
            pending ==> started,
        decreases n - i,
    {
        proof {
            assert(output@.skip(i as int)[0] == output@[i as int]);
            assert(output@.skip(i as int).drop_first() =~= output@.skip(i as int + 1));
        }
        let b = output[i];
        if b == 0x20 || b == 0x09 || b == 0x0a || b == 0x0d {
            pending = started;
        } else if pending {
            acc.push(0x20);
            acc.push(b);
            pending = false;
            started = true;
            proof {
                assert(acc@ + spec_compact_ws(output@.skip(i as int + 1), true, false) =~= full);
            }
        } else {
            acc.push(b);
            started = true;
            proof {
                assert(acc@ + spec_compact_ws(output@.skip(i as int + 1), true, false) =~= full);
            }
        }
        i = i + 1;
    }
    proof {
        assert(output@.skip(n as int).len() == 0);
        assert(acc@ + Seq::<u8>::empty() =~= acc@);
    }
    if acc.len() == 0 {
        return None;
    }
    match crate::textutil::string_from_utf8(acc) {
        Some(text) => {
            proof {
                vstd::utf8::encode_utf8_valid_utf8(text@);
                vstd::utf8::encode_utf8_decode_utf8(text@);
            }
            Some(truncate_detail(text.as_str(), max_chars))
        },
        None => None,
    }
}

} // verus!
