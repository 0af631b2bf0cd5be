use vstd::prelude::*;

verus! {

/// The abstract content of a sequence of name/value pairs: each pair as the
/// character sequences of its two strings.
pub open spec fn kv_views(s: Seq<(String, String)>) -> Seq<(Seq<char>, Seq<char>)> {
    s.map_values(|p: (String, String)| (p.0@, p.1@))
}

/// The value of the first pair whose name equals `key`, scanning from index `i`.
pub open spec fn find_from<V>(s: Seq<(Seq<char>, V)>, key: Seq<char>, i: int) -> Option<V>
    decreases s.len() - i,
{
    if i < 0 || i >= s.len() {
        None
    } else if s[i].0 == key {
        Some(s[i].1)
    } else {
        find_from(s, key, i + 1)
    }
}

/// The value of the first pair whose name equals `key`, or `None` if no pair matches.
pub open spec fn find<V>(s: Seq<(Seq<char>, V)>, key: Seq<char>) -> Option<V> {
    find_from(s, key, 0)
}

/// A snapshot of the process environment, captured once as plain name/value
/// pairs, so that resolution is a deterministic function of its inputs.
pub struct ProcessEnv {
    pub vars: Vec<(String, String)>,
}

impl ProcessEnv {
    /// The snapshot's pairs as abstract character sequences.
    pub open spec fn entries(self) -> Seq<(Seq<char>, Seq<char>)> {
        kv_views(self.vars@)
    }

    /// The value the snapshot holds for `name`: first pair wins.
    pub open spec fn value_of(self, name: Seq<char>) -> Option<Seq<char>> {
        find(self.entries(), name)
    }

    pub fn new() -> (r: ProcessEnv)
        ensures
            r.entries() == Seq::<(Seq<char>, Seq<char>)>::empty(),
    {
        let r = ProcessEnv { vars: Vec::new() };
        proof {
            assert(r.entries() =~= Seq::<(Seq<char>, Seq<char>)>::empty());
        }
        r
    }

    /// Record that `name` is set to `value` in the captured environment.
    pub fn push_var(&mut self, name: String, value: String)
        ensures
            final(self).entries() == old(self).entries().push((name@, value@)),
    {
        let ghost before = self.entries();
        let ghost pair = (name@, value@);
        self.vars.push((name, value));
        proof {
            assert(self.entries() =~= before.push(pair));
        }
    }

    /// Look the variable `name` up in the snapshot.
    pub fn get(&self, name: &String) -> (r: Option<&String>)
        ensures
            match r {
                Some(v) => self.value_of(name@) == Some(v@),
                None => self.value_of(name@) is None,
            },
    {
        let mut i: usize = 0;
        while i < self.vars.len()
            invariant
                i <= self.vars.len(),
                find(self.entries(), name@) == find_from(self.entries(), name@, i as int),
            decreases self.vars.len() - i,
        {
            let pair = &self.vars[i];
            if pair.0 == *name {
                return Some(&pair.1);
            }
            i += 1;
        }
        None
    }
}

} // verus!
