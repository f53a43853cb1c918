//! A small name-keyed mapping with string keys, viewed as a
//! `Map<Seq<char>, V>`. The registry's two exposed mappings use it:
//! consumers look a builtin up by its exact name and treat a missing key
//! as "not a builtin", never as an error.
use vstd::prelude::*;

verus! {

/// An association list from names to values. Keys are compared by their
/// character content; insertion refuses a key already present, so every
/// reachable map has one entry per name.
pub struct NameMap<V> {
    pairs: Vec<(String, V)>,
}

/// The mapping a sequence of pairs denotes: the first pair with a given
/// key wins, matching the lookup order below.
pub open spec fn assoc_map<V>(s: Seq<(String, V)>) -> Map<Seq<char>, V>
    decreases s.len(),
{
    if s.len() == 0 {
        Map::empty()
    } else {
        let m = assoc_map(s.drop_last());
        if m.contains_key(s.last().0@) {
            m
        } else {
            m.insert(s.last().0@, s.last().1)
        }
    }
}

/// A name that occurs in no pair of `s` has no entry in `assoc_map(s)`.
proof fn lemma_assoc_map_absent<V>(s: Seq<(String, V)>, k: Seq<char>)
    requires
        forall|j: int| 0 <= j < s.len() ==> s[j].0@ != k,
    ensures
        !assoc_map(s).contains_key(k),
    decreases s.len(),
{
    if s.len() > 0 {
        lemma_assoc_map_absent(s.drop_last(), k);
    }
}

/// The first pair carrying a given name supplies that name's value.
proof fn lemma_assoc_map_first<V>(s: Seq<(String, V)>, i: int)
    requires
        0 <= i < s.len(),
        forall|j: int| 0 <= j < i ==> s[j].0@ != s[i].0@,
    ensures
        assoc_map(s).contains_key(s[i].0@),
        assoc_map(s)[s[i].0@] == s[i].1,
    decreases s.len(),
{
    if i == s.len() - 1 {
        let t = s.drop_last();
        assert forall|j: int| 0 <= j < t.len() implies t[j].0@ != s[i].0@ by {
            assert(t[j] == s[j]);
        }
        lemma_assoc_map_absent(t, s[i].0@);
        assert(s.last() == s[i]);
    } else {
        let t = s.drop_last();
        assert forall|j: int| 0 <= j < i implies t[j].0@ != t[i].0@ by {
            assert(t[j] == s[j]);
            assert(t[i] == s[i]);
        }
        lemma_assoc_map_first(t, i);
        assert(t[i] == s[i]);
    }
}

impl<V> View for NameMap<V> {
    type V = Map<Seq<char>, V>;

    closed spec fn view(&self) -> Map<Seq<char>, V> {
        assoc_map(self.pairs@)
    }
}

impl<V> NameMap<V> {
    /// An empty mapping.
    pub fn new() -> (r: NameMap<V>)
        ensures
            r@ == Map::<Seq<char>, V>::empty(),
    {
        NameMap { pairs: Vec::new() }
    }

    /// Add a binding for a name not yet present.
    pub fn insert(&mut self, key: String, value: V)
        requires
            !old(self)@.contains_key(key@),
        ensures
            final(self)@ == old(self)@.insert(key@, value),
    {
        self.pairs.push((key, value));
        proof {
            assert(self.pairs@.drop_last() =~= old(self).pairs@);
            assert(self@ =~= old(self)@.insert(key@, value));
        }
    }

    /// Look a name up; `None` means the name is not bound.
    pub fn get(&self, name: &str) -> (r: Option<&V>)
        ensures
            match r {
                Some(v) => self@.contains_key(name@) && *v == self@[name@],
                None => !self@.contains_key(name@),
            },
    {
        let key = String::from_str(name);
        let n: usize = self.pairs.len();
        let mut i: usize = 0;
        while i < n
            invariant
                n == self.pairs.len(),
                i <= n,
                key@ == name@,
                forall|j: int| 0 <= j < i ==> self.pairs@[j].0@ != name@,
            decreases n - i,
        {
            if self.pairs[i].0 == key {
                proof {
                    lemma_assoc_map_first(self.pairs@, i as int);
                }
                return Some(&self.pairs[i].1);
            }
            i += 1;
        }
        proof {
            lemma_assoc_map_absent(self.pairs@, name@);
        }
        None
    }
}

} // verus!
