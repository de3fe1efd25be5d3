//! Ordered string-to-string environment mapping with unique keys.

use vstd::prelude::*;
use crate::textutil::str_eq;

verus! {

/// Ordered mapping of environment variable names to values.
///
/// Entries keep their insertion order; well-formed maps have pairwise
/// distinct keys.
#[derive(Debug, PartialEq, Eq)]
pub struct EnvMap {
    /// Key/value pairs in insertion order.
    pub entries: Vec<(String, String)>,
}

impl Clone for EnvMap {
    fn clone(&self) -> (r: Self)
        ensures
            r@ == self@,
    {
        let n: usize = self.entries.len();
        let mut out: Vec<(String, String)> = Vec::new();
        let mut i: usize = 0;
        while i < n
            invariant
                n == self.entries@.len(),
                i <= n,
                out@.len() == i,
                forall|k: int| 0 <= k < i ==> out@[k] == self.entries@[k],
            decreases n - i,
        {
            let pair = &self.entries[i];
            out.push((pair.0.clone(), pair.1.clone()));
            i = i + 1;
        }
        let r = EnvMap { entries: out };
        proof {
            assert(r.entries@ =~= self.entries@);
        }
        r
    }
}

impl View for EnvMap {
    type V = Seq<(Seq<char>, Seq<char>)>;

    open spec fn view(&self) -> Seq<(Seq<char>, Seq<char>)> {
        self.entries@.map_values(|p: (String, String)| (p.0@, p.1@))
    }
}

/// First value bound to `key`, scanning entries in order.
pub open spec fn spec_env_get(m: Seq<(Seq<char>, Seq<char>)>, key: Seq<char>) -> Option<
    Seq<char>,
>
    decreases m.len(),
{
    if m.len() == 0 {
        None
    } else if m[0].0 == key {
        Some(m[0].1)
    } else {
        spec_env_get(m.drop_first(), key)
    }
}

/// Result of binding `key` to `value`: the first existing entry for `key` is
/// replaced in place, otherwise the pair is appended.
pub open spec fn spec_env_set(
    m: Seq<(Seq<char>, Seq<char>)>,
    key: Seq<char>,
    value: Seq<char>,
) -> Seq<(Seq<char>, Seq<char>)>
    decreases m.len(),
{
    if m.len() == 0 {
        seq![(key, value)]
    } else if m[0].0 == key {
        seq![(key, value)] + m.drop_first()
    } else {
        seq![m[0]] + spec_env_set(m.drop_first(), key, value)
    }
}

/// Result of applying every binding of `o` to `m`, in order.
pub open spec fn spec_env_merge(
    m: Seq<(Seq<char>, Seq<char>)>,
    o: Seq<(Seq<char>, Seq<char>)>,
) -> Seq<(Seq<char>, Seq<char>)>
    decreases o.len(),
{
    if o.len() == 0 {
        m
    } else {
        spec_env_merge(spec_env_set(m, o[0].0, o[0].1), o.drop_first())
    }
}

impl EnvMap {
    /// All keys are pairwise distinct.
    pub open spec fn wf(&self) -> bool {
        forall|i: int, j: int| 0 <= i < j < self@.len() ==> self@[i].0 != self@[j].0
    }

    /// Creates an empty mapping.
    pub fn new() -> (r: EnvMap)
        ensures
            r@ == Seq::<(Seq<char>, Seq<char>)>::empty(),
            r.wf(),
    {
        EnvMap { entries: Vec::new() }
    }

    /// Number of entries.
    pub fn len(&self) -> (r: usize)
        ensures
            r == self@.len(),
    {
        self.entries.len()
    }

    /// Returns the key and value at an index.
    pub fn entry_at(&self, i: usize) -> (r: (&String, &String))
        requires
            i < self@.len(),
        ensures
            r.0@ == self@[i as int].0,
            r.1@ == self@[i as int].1,
    {
        let pair = &self.entries[i];
        (&pair.0, &pair.1)
    }

    /// Looks up the first value bound to `key`.
    pub fn get(&self, key: &str) -> (r: Option<&String>)
        ensures
            match r {
                Some(v) => spec_env_get(self@, key@) == Some(v@),
                None => spec_env_get(self@, key@) is None,
            },
    {
        let n: usize = self.entries.len();
        let mut i: usize = 0;
        proof {
            assert(self@.skip(0) =~= self@);
        }
        while i < n
            invariant
                n == self@.len(),
                i <= n,
                spec_env_get(self@, key@) == spec_env_get(self@.skip(i as int), key@),
            decreases n - i,
        {
            proof {
                assert(self@.skip(i as int)[0] == self@[i as int]);
                assert(self@.skip(i as int).drop_first() =~= self@.skip(i as int + 1));
            }
            if str_eq(self.entries[i].0.as_str(), key) {
                proof {
                    assert(self@[i as int].0 == key@);
                    assert(spec_env_get(self@.skip(i as int), key@) == Some(
                        self@[i as int].1,
                    ));
                }
                return Some(&self.entries[i].1);
            }
            i = i + 1;
        }
        proof {
            assert(self@.skip(n as int).len() == 0);
        }
        None
    }

    /// Binds `key` to `value`, replacing any existing binding.
    pub fn set(&mut self, key: String, value: String)
        ensures
            final(self)@ == spec_env_set(old(self)@, key@, value@),
            old(self).wf() ==> final(self).wf(),
    {
        let ghost old_view = self@;
        let n: usize = self.entries.len();
        let mut i: usize = 0;
        while i < n
            invariant
                n == self@.len(),
                i <= n,
                self@ == old_view,
                old(self)@ == old_view,
                old(self).wf() == self.wf(),
                forall|k: int| 0 <= k < i ==> old_view[k].0 != key@,
            decreases n - i,
        {
            if str_eq(self.entries[i].0.as_str(), key.as_str()) {
                proof {
                    assert(old_view[i as int].0 == key@);
                }
                self.entries[i] = (key, value);
                proof {
                    lemma_env_set_replaces(old_view, key@, value@, i as int);
                    assert(self@ =~= old_view.update(i as int, (key@, value@)));
                    if old(self).wf() {
                        assert(old(self)@ == old_view);
                        assert forall|a: int, b: int|
                            0 <= a < b < self@.len() implies self@[a].0 != self@[b].0 by {
                            assert(old_view[a].0 != old_view[b].0);
                            if a == i {
                                assert(self@[a].0 == key@ && key@ == old_view[i as int].0);
                                assert(self@[b].0 == old_view[b].0);
                            } else if b == i {
                                assert(self@[b].0 == key@ && key@ == old_view[i as int].0);
                                assert(self@[a].0 == old_view[a].0);
                            } else {
                                assert(self@[a].0 == old_view[a].0);
                                assert(self@[b].0 == old_view[b].0);
                            }
                        }
                    }
                }
                return;
            }
            i = i + 1;
        }
        self.entries.push((key, value));
        proof {
            lemma_env_set_appends(old_view, key@, value@);
            assert(self@ =~= old_view + seq![(key@, value@)]);
            if old(self).wf() {
                assert(old(self)@ == old_view);
                assert forall|a: int, b: int|
                    0 <= a < b < self@.len() implies self@[a].0 != self@[b].0 by {
                    if b == old_view.len() {
                        assert(self@[a].0 == old_view[a].0);
                        assert(self@[b].0 == key@);
                        assert(old_view[a].0 != key@);
                    } else {
                        assert(old_view[a].0 != old_view[b].0);
                        assert(self@[a].0 == old_view[a].0);
                        assert(self@[b].0 == old_view[b].0);
                    }
                }
            }
        }
    }

    /// Returns this mapping with every binding of `overrides` applied on top.
    pub fn merged(&self, overrides: &EnvMap) -> (r: EnvMap)
        ensures
            r@ == spec_env_merge(self@, overrides@),
            self.wf() ==> r.wf(),
    {
        let mut out = self.clone();
        let n: usize = overrides.entries.len();
        let mut i: usize = 0;
        proof {
            assert(overrides@.skip(0) =~= overrides@);
        }
        while i < n
            invariant
                n == overrides@.len(),
                i <= n,
                spec_env_merge(self@, overrides@) == spec_env_merge(
                    out@,
                    overrides@.skip(i as int),
                ),
                self.wf() ==> out.wf(),
            decreases n - i,
        {
            proof {
                assert(overrides@.skip(i as int).drop_first() =~= overrides@.skip(i as int + 1));
                assert(overrides@.skip(i as int)[0] == overrides@[i as int]);
            }
            let (k, v) = overrides.entry_at(i);
            out.set(k.clone(), v.clone());
            i = i + 1;
        }
        proof {
            assert(overrides@.skip(n as int).len() == 0);
        }
        out
    }
}

/// When `key` occurs first at index `i`, `spec_env_set` is an in-place update.
proof fn lemma_env_set_replaces(
    m: Seq<(Seq<char>, Seq<char>)>,
    key: Seq<char>,
    value: Seq<char>,
    i: int,
)
    requires
        0 <= i < m.len(),
        m[i].0 == key,
        forall|k: int| 0 <= k < i ==> m[k].0 != key,
    ensures
        spec_env_set(m, key, value) == m.update(i, (key, value)),
    decreases i,
{
    if i == 0 {
        assert(spec_env_set(m, key, value) =~= m.update(0, (key, value)));
    } else {
        lemma_env_set_replaces(m.drop_first(), key, value, i - 1);
        assert(spec_env_set(m, key, value) =~= m.update(i, (key, value)));
    }
}

/// When `key` occurs nowhere in `m`, `spec_env_set` appends the pair.
proof fn lemma_env_set_appends(m: Seq<(Seq<char>, Seq<char>)>, key: Seq<char>, value: Seq<char>)
    requires
        forall|k: int| 0 <= k < m.len() ==> m[k].0 != key,
    ensures
        spec_env_set(m, key, value) == m + seq![(key, value)],
    decreases m.len(),
{
    if m.len() == 0 {
        assert(spec_env_set(m, key, value) =~= m + seq![(key, value)]);
    } else {
        lemma_env_set_appends(m.drop_first(), key, value);
        assert(spec_env_set(m, key, value) =~= m + seq![(key, value)]);
    }
}

} // verus!
