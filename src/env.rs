//! Looking up and binding names in an environment.
use crate::value::{entries_view, Bindings, Env, Val, Value};
use vstd::prelude::*;
use vstd::string::*;

verus! {

/// The value of the most recent binding of `name`, if there is one.
pub open spec fn lookup(env: Bindings, name: Seq<char>) -> Option<Val>
    decreases env.len(),
{
    if env.len() == 0 {
        None
    } else if env.last().0 == name {
        Some(env.last().1)
    } else {
        lookup(env.drop_last(), name)
    }
}

proof fn lemma_entries_view_len(s: Seq<(String, Value)>)
    ensures
        entries_view(s).len() == s.len(),
    decreases s.len(),
{
    if s.len() > 0 {
        lemma_entries_view_len(s.drop_last());
    }
}

proof fn lemma_entries_view_take(s: Seq<(String, Value)>, k: int)
    requires
        0 <= k <= s.len(),
    ensures
        entries_view(s.take(k)) == entries_view(s).take(k),
    decreases s.len(),
{
    lemma_entries_view_len(s);
    if k == s.len() {
        assert(s.take(k) =~= s);
        assert(entries_view(s).take(k) =~= entries_view(s));
    } else {
        assert(s.take(k) =~= s.drop_last().take(k));
        lemma_entries_view_take(s.drop_last(), k);
        lemma_entries_view_len(s.drop_last());
        assert(entries_view(s.drop_last()).take(k) =~= entries_view(s).take(k));
    }
}

impl Env {
    /// An environment with no bindings.
    pub fn new() -> (r: Env)
        ensures
            r@ == Seq::<(Seq<char>, Val)>::empty(),
            r.scopes@ == Seq::<usize>::empty(),
    {
        Env { entries: Vec::new(), scopes: Vec::new() }
    }

    /// The value of the most recent binding of `name`, searching from the
    /// innermost binding outward.
    pub fn get(&self, name: &str) -> (r: Option<&Value>)
        ensures
            match r {
                Some(v) => lookup(self@, name@) == Some(v@),
                None => lookup(self@, name@) is None,
            },
    {
        let key = String::from_str(name);
        let mut i: usize = self.entries.len();
        assert(self.entries@.take(i as int) =~= self.entries@);
        while i > 0
            invariant
                i <= self.entries.len(),
                key@ == name@,
                lookup(self@, name@) == lookup(entries_view(self.entries@.take(i as int)), name@),
            decreases i,
        {
            proof {
                let t = self.entries@.take(i as int);
                assert(t.drop_last() =~= self.entries@.take(i - 1));
                assert(t.last() == self.entries@[i - 1]);
                assert(entries_view(t) == entries_view(t.drop_last()).push((t.last().0@, t.last().1@)));
                assert(entries_view(t).drop_last() =~= entries_view(t.drop_last()));
            }
            if self.entries[i - 1].0 == key {
                return Some(&self.entries[i - 1].1);
            }
            i = i - 1;
        }
        None
    }

    /// Binds `name` to `value` in the innermost scope, shadowing any earlier
    /// binding of it.
    pub fn set(&mut self, name: &str, value: Value)
        ensures
            final(self)@ == old(self)@.push((name@, value@)),
            final(self).scopes@ == old(self).scopes@,
    {
        let key = String::from_str(name);
        let ghost prev = self.entries@;
        self.entries.push((key, value));
        assert(self.entries@.drop_last() =~= prev);
    }

    /// Enters a new innermost scope.
    pub fn push_scope(&mut self)
        ensures
            final(self)@ == old(self)@,
            final(self).scopes@ == old(self).scopes@.push(old(self).entries.len()),
    {
        let n = self.entries.len();
        self.scopes.push(n);
    }

    /// Leaves the innermost scope, dropping every binding made since it was
    /// entered. The top-level scope cannot be left.
    pub fn pop_scope(&mut self)
        requires
            old(self).scopes.len() > 0,
        ensures
            ({
                let mark = old(self).scopes@.last();
                &&& mark <= old(self).entries.len() ==> final(self)@ == old(self)@.take(mark as int)
                &&& mark > old(self).entries.len() ==> final(self)@ == old(self)@
            }),
            final(self).scopes@ == old(self).scopes@.drop_last(),
    {
        let mark = self.scopes.pop().unwrap();
        proof {
            if mark <= self.entries.len() {
                lemma_entries_view_take(self.entries@, mark as int);
                assert(self.entries@.subrange(0, mark as int) =~= self.entries@.take(mark as int));
            }
        }
        self.entries.truncate(mark);
    }
}

impl Default for Env {
    fn default() -> (r: Env)
        ensures
            r@ == Seq::<(Seq<char>, Val)>::empty(),
            r.scopes@ == Seq::<usize>::empty(),
    {
        Env::new()
    }
}

} // verus!
