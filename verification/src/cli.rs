//! Plain-value helpers behind the command-line surfaces: the sandbox
//! mode argument, detail formatting, and environment pair parsing.

use vstd::prelude::*;
use vstd::string::{StrSliceExecFns, StringExecFns};
use crate::env_map::{spec_env_set, EnvMap};
use crate::errors::{ErrorCode, PlanterError};

verus! {

/// Command-line facing sandbox mode values.
#[derive(Debug, Clone, Copy, PartialEq, Eq, Structural)]
pub enum SandboxModeArg {
    /// Disable sandbox enforcement.
    Disabled,
    /// Use the sandbox when available and permit graceful fallback.
    Permissive,
    /// Require sandboxing for job launches.
    Enforced,
}

impl SandboxModeArg {
    /// Stable lowercase name of the mode, as logs print it.
    pub fn as_str(self) -> (r: &'static str)
        ensures
            self is Disabled ==> r@ == "disabled"@,
            self is Permissive ==> r@ == "permissive"@,
            self is Enforced ==> r@ == "enforced"@,
    {
        match self {
            SandboxModeArg::Disabled => "disabled",
            SandboxModeArg::Permissive => "permissive",
            SandboxModeArg::Enforced => "enforced",
        }
    }
}

/// Renders an optional error detail for display: nothing, or the detail
/// in parentheses after a space.
pub fn format_detail(detail: &Option<String>) -> (r: String)
    ensures
        detail matches Some(d) ==> r@ == " ("@ + d@ + ")"@,
        detail is None ==> r@ == Seq::<char>::empty(),
{
    match detail {
        Some(d) => {
            let mut out = String::from_str(" (");
            out.append(d.as_str());
            out.append(")");
            out
        },
        None => {
            let out = String::new();
            proof {
                assert(out@ =~= Seq::<char>::empty());
            }
            out
        },
    }
}

/// Splits a binding at its first separator: the name before the first
/// `=` and the value after it, or nothing when no `=` occurs.
pub open spec fn spec_split_env_pair(s: Seq<char>) -> Option<(Seq<char>, Seq<char>)>
    decreases s.len(),
{
    if s.len() == 0 {
        None
    } else if s[0] == '=' {
        Some((Seq::empty(), s.drop_first()))
    } else {
        match spec_split_env_pair(s.drop_first()) {
            Some((k, v)) => Some((seq![s[0]] + k, v)),
            None => None,
        }
    }
}

/// Bindings accumulated from the pairs in order, later bindings of the
/// same name replacing earlier ones; nothing when some pair has no `=`.
pub open spec fn spec_parse_env_pairs(
    xs: Seq<Seq<char>>,
    acc: Seq<(Seq<char>, Seq<char>)>,
) -> Option<Seq<(Seq<char>, Seq<char>)>>
    decreases xs.len(),
{
    if xs.len() == 0 {
        Some(acc)
    } else {
        match spec_split_env_pair(xs[0]) {
            Some((k, v)) => spec_parse_env_pairs(xs.drop_first(), spec_env_set(acc, k, v)),
            None => None,
        }
    }
}

/// A separator at `i` with none before it splits the pair there.
proof fn lemma_split_env_pair(s: Seq<char>, i: int)
    requires
        0 <= i < s.len(),
        s[i] == '=',
        forall|j: int| 0 <= j < i ==> s[j] != '=',
    ensures
        spec_split_env_pair(s) == Some((s.subrange(0, i), s.subrange(i + 1, s.len() as int))),
    decreases i,
{
    if i == 0 {
        assert(s.subrange(0, 0) =~= Seq::<char>::empty());
        assert(s.subrange(1, s.len() as int) =~= s.drop_first());
    } else {
        let t = s.drop_first();
        assert(t[i - 1] == s[i]);
        assert forall|j: int| 0 <= j < i - 1 implies t[j] != '=' by {
            assert(t[j] == s[j + 1]);
        }
        lemma_split_env_pair(t, i - 1);
        assert(seq![s[0]] + t.subrange(0, i - 1) =~= s.subrange(0, i));
        assert(t.subrange(i, t.len() as int) =~= s.subrange(i + 1, s.len() as int));
    }
}

/// A pair without a separator does not split.
proof fn lemma_split_env_pair_none(s: Seq<char>)
    requires
        forall|j: int| 0 <= j < s.len() ==> s[j] != '=',
    ensures
        spec_split_env_pair(s) is None,
    decreases s.len(),
{
    if s.len() > 0 {
        let t = s.drop_first();
        assert forall|j: int| 0 <= j < t.len() implies t[j] != '=' by {
            assert(t[j] == s[j + 1]);
        }
        lemma_split_env_pair_none(t);
    }
}

/// Splits one binding argument at its first `=`.
fn split_env_pair(pair: &str) -> (r: Option<(String, String)>)
    ensures
        match r {
            Some((k, v)) => spec_split_env_pair(pair@) == Some((k@, v@)),
            None => spec_split_env_pair(pair@) is None,
        },
{
    let n: usize = pair.unicode_len();
    let mut i: usize = 0;
    while i < n
        invariant
            n == pair@.len(),
            i <= n,
            forall|j: int| 0 <= j < i ==> pair@[j] != '=',
        decreases n - i,
    {
        if pair.get_char(i) == '=' {
            proof {
                lemma_split_env_pair(pair@, i as int);
            }
            let key = pair.substring_char(0, i).to_owned();
            let value = pair.substring_char(i + 1, n).to_owned();
            return Some((key, value));
        }
        i = i + 1;
    }
    proof {
        lemma_split_env_pair_none(pair@);
    }
    None
}

/// Parses `NAME=VALUE` arguments into an environment mapping.
///
/// Each argument is split at its first `=`; later bindings of a name
/// replace earlier ones.  An argument without `=` rejects the whole
/// list as an invalid request.
pub fn parse_env_pairs(pairs: Vec<String>) -> (r: Result<EnvMap, PlanterError>)
    ensures
        match r {
            Ok(m) => spec_parse_env_pairs(pairs.deep_view(), Seq::empty()) == Some(m@) && m.wf(),
            Err(e) => spec_parse_env_pairs(pairs.deep_view(), Seq::empty()) is None && e.code
                == ErrorCode::InvalidRequest,
        },
{
    let ghost xs = pairs.deep_view();
    let mut env = EnvMap::new();
    let n: usize = pairs.len();
    let mut i: usize = 0;
    proof {
        assert(xs.skip(0) =~= xs);
    }
    while i < n
        invariant
            n == xs.len(),
            xs == pairs.deep_view(),
            i <= n,
            env.wf(),
            spec_parse_env_pairs(xs, Seq::empty()) == spec_parse_env_pairs(
                xs.skip(i as int),
                env@,
            ),
        decreases n - i,
    {
        proof {
            assert(xs.skip(i as int)[0] == xs[i as int]);
            assert(xs.skip(i as int).drop_first() =~= xs.skip(i as int + 1));
        }
        match split_env_pair(pairs[i].as_str()) {
            Some((key, value)) => {
                env.set(key, value);
            },
            None => {
                return Err(
                    PlanterError {
                        code: ErrorCode::InvalidRequest,
                        message: String::from_str("environment binding must use NAME=VALUE"),
                        detail: None,
                    },
                );
            },
        }
        i = i + 1;
    }
    proof {
        assert(xs.skip(n as int).len() == 0);
    }
    Ok(env)
}

} // verus!
