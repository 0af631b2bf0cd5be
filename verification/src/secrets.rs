use crate::kv::kv_views;
use vstd::prelude::*;

verus! {

/// A secret retrieved from the remote store: a named credential value.
pub struct Secret {
    pub key: String,
    pub value: String,
}

/// The map that a sequence of key/value pairs builds up when later pairs
/// overwrite earlier ones with the same key.
pub open spec fn map_of(s: Seq<(Seq<char>, Seq<char>)>) -> Map<Seq<char>, Seq<char>>
    decreases s.len(),
{
    if s.len() == 0 {
        Map::empty()
    } else {
        map_of(s.drop_last()).insert(s.last().0, s.last().1)
    }
}

/// The value a map holds for a key, if any.
pub open spec fn map_lookup(m: Map<Seq<char>, Seq<char>>, k: Seq<char>) -> Option<Seq<char>> {
    if m.contains_key(k) {
        Some(m[k])
    } else {
        None
    }
}

/// Building a map from two runs of pairs in turn overlays the second run's
/// map over the first's: on a common key the later pair wins.
pub proof fn lemma_map_of_append(a: Seq<(Seq<char>, Seq<char>)>, b: Seq<(Seq<char>, Seq<char>)>)
    ensures
        map_of(a + b) == map_of(a).union_prefer_right(map_of(b)),
    decreases b.len(),
{
    if b.len() == 0 {
        assert(a + b =~= a);
        assert(map_of(a).union_prefer_right(map_of(b)) =~= map_of(a));
    } else {
        lemma_map_of_append(a, b.drop_last());
        assert((a + b).drop_last() =~= a + b.drop_last());
        assert(map_of(a).union_prefer_right(map_of(b.drop_last())).insert(b.last().0, b.last().1)
            =~= map_of(a).union_prefer_right(map_of(b.drop_last()).insert(b.last().0, b.last().1)));
    }
}

/// The secrets assembled for one launch: a mapping from secret key to secret
/// value, where a later entry for the same key overwrites the earlier one.
pub struct SecretsMap {
    entries: Vec<(String, String)>,
}

impl View for SecretsMap {
    type V = Map<Seq<char>, Seq<char>>;

    closed spec fn view(&self) -> Map<Seq<char>, Seq<char>> {
        map_of(kv_views(self.entries@))
    }
}

impl SecretsMap {
    pub fn new() -> (r: SecretsMap)
        ensures
            r@ == Map::<Seq<char>, Seq<char>>::empty(),
    {
        let r = SecretsMap { entries: Vec::new() };
        proof {
            assert(kv_views(r.entries@) =~= Seq::<(Seq<char>, Seq<char>)>::empty());
        }
        r
    }

    /// Record a secret; an existing value under the same key is overwritten.
    pub fn insert(&mut self, key: String, value: String)
        ensures
            final(self)@ == old(self)@.insert(key@, value@),
    {
        let ghost before = kv_views(self.entries@);
        let ghost pair = (key@, value@);
        self.entries.push((key, value));
        proof {
            assert(kv_views(self.entries@) =~= before.push(pair));
            assert(kv_views(self.entries@).drop_last() =~= before);
        }
    }

    /// The value stored under `key`, if any.
    pub fn get(&self, key: &String) -> (r: Option<&String>)
        ensures
            match r {
                Some(v) => map_lookup(self@, key@) == Some(v@),
                None => map_lookup(self@, key@) is None,
            },
    {
        let mut i: usize = self.entries.len();
        proof {
            assert(kv_views(self.entries@).take(i as int) =~= kv_views(self.entries@));
        }
        while i > 0
            invariant
                i <= self.entries.len(),
                map_lookup(self@, key@) == map_lookup(
                    map_of(kv_views(self.entries@).take(i as int)),
                    key@,
                ),
            decreases i,
        {
            let pair = &self.entries[i - 1];
            proof {
                assert(kv_views(self.entries@).take(i as int).drop_last() =~= kv_views(
                    self.entries@,
                ).take(i as int - 1));
            }
            if pair.0 == *key {
                return Some(&pair.1);
            }
            i = i - 1;
        }
        None
    }

    /// The recorded pairs, in retrieval order, for handing to the spawn call.
    pub fn pairs(&self) -> (r: &Vec<(String, String)>)
        ensures
            map_of(kv_views(r@)) == self@,
    {
        &self.entries
    }

    /// The child's environment block: the inherited pairs overlaid with these
    /// secrets, so that on a key collision the secret wins.
    pub fn overlay_onto(&self, inherited: &Vec<(String, String)>) -> (r: SecretsMap)
        ensures
            r@ == map_of(kv_views(inherited@)).union_prefer_right(self@),
    {
        let mut out = SecretsMap::new();
        let mut i: usize = 0;
        while i < inherited.len()
            invariant
                i <= inherited.len(),
                out@ == map_of(kv_views(inherited@).take(i as int)),
            decreases inherited.len() - i,
        {
            let pair = &inherited[i];
            out.insert(pair.0.clone(), pair.1.clone());
            proof {
                assert(kv_views(inherited@).take(i as int + 1).drop_last() =~= kv_views(
                    inherited@,
                ).take(i as int));
            }
            i += 1;
        }
        proof {
            assert(kv_views(inherited@).take(inherited@.len() as int) =~= kv_views(inherited@));
        }
        let mut j: usize = 0;
        while j < self.entries.len()
            invariant
                j <= self.entries.len(),
                out@ == map_of(kv_views(inherited@) + kv_views(self.entries@).take(j as int)),
            decreases self.entries.len() - j,
        {
            let pair = &self.entries[j];
            out.insert(pair.0.clone(), pair.1.clone());
            proof {
                assert((kv_views(inherited@) + kv_views(self.entries@).take(j as int + 1)).drop_last()
                    =~= kv_views(inherited@) + kv_views(self.entries@).take(j as int));
                assert((kv_views(inherited@) + kv_views(self.entries@).take(j as int + 1)).last()
                    == kv_views(self.entries@)[j as int]);
            }
            j += 1;
        }
        proof {
            assert(kv_views(self.entries@).take(self.entries@.len() as int) =~= kv_views(
                self.entries@,
            ));
            lemma_map_of_append(kv_views(inherited@), kv_views(self.entries@));
        }
        out
    }
}

} // verus!
