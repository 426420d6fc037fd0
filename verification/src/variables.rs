//! The variable environment of a run: a name-to-value store, seeded once from
//! the caller's initial variables, then updated by every entry's execution and
//! read by the entries that follow.

use vstd::prelude::*;

use crate::value::Value;

verus! {

/// The run-scoped variable environment. Viewed as a map from variable names
/// to values; a name bound twice keeps only the later value.
pub struct Variables {
    entries: Vec<(String, Value)>,
}

/// The value bound to `name` by the bindings in `s`, earliest binding first.
spec fn seq_get(s: Seq<(String, Value)>, name: Seq<char>) -> Option<Value>
    decreases s.len(),
{
    if s.len() == 0 {
        None
    } else if s[0].0@ == name {
        Some(s[0].1)
    } else {
        seq_get(s.drop_first(), name)
    }
}

impl View for Variables {
    type V = Map<Seq<char>, Value>;

    closed spec fn view(&self) -> Map<Seq<char>, Value> {
        Map::new(
            |name: Seq<char>| seq_get(self.entries@, name) is Some,
            |name: Seq<char>| seq_get(self.entries@, name)->Some_0,
        )
    }
}

proof fn lemma_seq_get_found(s: Seq<(String, Value)>, j: int, name: Seq<char>)
    requires
        0 <= j < s.len(),
        forall|l: int| 0 <= l < j ==> s[l].0@ != name,
        s[j].0@ == name,
    ensures
        seq_get(s, name) == Some(s[j].1),
    decreases j,
{
    if j > 0 {
        let t = s.drop_first();
        assert forall|l: int| 0 <= l < j - 1 implies t[l].0@ != name by {
            assert(t[l] == s[l + 1]);
        }
        assert(t[j - 1] == s[j]);
        lemma_seq_get_found(t, j - 1, name);
    }
}

proof fn lemma_seq_get_absent(s: Seq<(String, Value)>, name: Seq<char>)
    requires
        forall|l: int| 0 <= l < s.len() ==> s[l].0@ != name,
    ensures
        seq_get(s, name) is None,
    decreases s.len(),
{
    if s.len() > 0 {
        let t = s.drop_first();
        assert forall|l: int| 0 <= l < t.len() implies t[l].0@ != name by {
            assert(t[l] == s[l + 1]);
        }
        lemma_seq_get_absent(t, name);
    }
}

/// The environment `env` after binding every pair of `ps`, in order.
pub open spec fn with_all_bound(
    env: Map<Seq<char>, Value>,
    ps: Seq<(String, Value)>,
) -> Map<Seq<char>, Value>
    decreases ps.len(),
{
    if ps.len() == 0 {
        env
    } else {
        with_all_bound(env.insert(ps[0].0@, ps[0].1), ps.drop_first())
    }
}

impl Variables {
    /// An environment with no variables.
    pub fn new() -> (r: Variables)
        ensures
            r@ == Map::<Seq<char>, Value>::empty(),
    {
        let r = Variables { entries: Vec::new() };
        proof {
            assert forall|name: Seq<char>| !(seq_get(r.entries@, name) is Some) by {
                assert(r.entries@.len() == 0);
            }
            assert(r@ =~= Map::<Seq<char>, Value>::empty());
        }
        r
    }

    /// Looks the variable `name` up.
    pub fn get(&self, name: &String) -> (r: Option<&Value>)
        ensures
            match r {
                Some(v) => self@.contains_key(name@) && *v == self@[name@],
                None => !self@.contains_key(name@),
            },
    {
        let n = self.entries.len();
        let mut j: usize = 0;
        while j < n
            invariant
                j <= n,
                n == self.entries@.len(),
                forall|l: int| 0 <= l < j ==> self.entries@[l].0@ != name@,
            decreases n - j,
        {
            if self.entries[j].0 == *name {
                proof {
                    lemma_seq_get_found(self.entries@, j as int, name@);
                }
                return Some(&self.entries[j].1);
            }
            j += 1;
        }
        proof {
            lemma_seq_get_absent(self.entries@, name@);
        }
        None
    }

    /// Whether the variable `name` is bound.
    pub fn contains_key(&self, name: &String) -> (r: bool)
        ensures
            r == self@.contains_key(name@),
    {
        self.get(name).is_some()
    }

    /// Binds `name` to `value`. The new binding is put in front of any older
    /// one of the same name; lookups take the first match, so a rebinding
    /// hides the earlier value from then on.
    pub fn insert(&mut self, name: String, value: Value)
        ensures
            final(self)@ == old(self)@.insert(name@, value),
    {
        let ghost p = (name, value);
        let ghost s0 = self.entries@;
        self.entries.insert(0, (name, value));
        proof {
            s0.insert_ensures(0, p);
            assert(self.entries@[0] == p);
            assert(self.entries@.drop_first() =~= s0);
            assert forall|k: Seq<char>|
                seq_get(self.entries@, k) == (if k == p.0@ {
                    Some(p.1)
                } else {
                    seq_get(s0, k)
                }) by {
                assert(self.entries@.len() > 0);
            }
            assert(self@ =~= old(self)@.insert(p.0@, p.1));
        }
    }

    /// Binds every captured (name, value) pair, in order: what an entry's
    /// execution captured is part of the environment from then on.
    pub fn insert_all(&mut self, captures: Vec<(String, Value)>)
        ensures
            final(self)@ == with_all_bound(old(self)@, captures@),
    {
        let ghost all = captures@;
        let mut rest = captures;
        while rest.len() > 0
            invariant
                with_all_bound(old(self)@, all) == with_all_bound(self@, rest@),
            decreases rest@.len(),
        {
            let ghost rest_pre = rest@;
            let ghost env_pre = self@;
            let p = rest.remove(0);
            let ghost gp = p;
            self.insert(p.0, p.1);
            proof {
                assert(rest@ =~= rest_pre.drop_first());
                assert(rest_pre[0] == gp);
                assert(with_all_bound(env_pre, rest_pre) == with_all_bound(
                    env_pre.insert(gp.0@, gp.1),
                    rest_pre.drop_first(),
                ));
            }
        }
    }

    /// A copy of the environment: the same bindings in separate storage. The
    /// copy can be handed to a run and mutated there while the original stays
    /// as it was.
    pub fn duplicate(&self) -> (r: Variables)
        ensures
            r@ == self@,
    {
        let n = self.entries.len();
        let mut out: Vec<(String, Value)> = Vec::new();
        let mut j: usize = 0;
        while j < n
            invariant
                j <= n,
                n == self.entries@.len(),
                out@ =~= self.entries@.take(j as int),
            decreases n - j,
        {
            let name = self.entries[j].0.clone();
            let value = self.entries[j].1.duplicate();
            proof {
                assert((name, value) == self.entries@[j as int]);
            }
            out.push((name, value));
            proof {
                assert(out@ =~= self.entries@.take(j as int + 1));
            }
            j += 1;
        }
        proof {
            assert(out@ =~= self.entries@);
        }
        let r = Variables { entries: out };
        r
    }
}

} // verus!
