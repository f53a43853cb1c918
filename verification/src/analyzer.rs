//! The type-interning interface the signature binder runs against: a closed
//! set of primitive type tags, the `AnalyzerLike` trait through which a tag
//! is exchanged for a stable interned handle, and a verified reference
//! interner.
use vstd::prelude::*;

verus! {

/// A primitive type tag the registry can request from the interner. These
/// are requests, not owned types: the canonical type value lives in the
/// interning service, and the registry only holds the handle it returns.
#[derive(Debug, Clone, Copy, PartialEq, Eq, Structural)]
pub enum Builtin {
    Bool,
    Str,
    Address,
    /// Fixed-size byte array of the given width in bytes.
    Bytes(u8),
    DynamicBytes,
    /// Unsigned integer of the given bit width.
    Uint(u16),
}

/// The interning service: each tag maps to one stable handle for the whole
/// session, so structurally equal type requests never create duplicates.
///
/// `interned` is the service's ghost state: which tags have been interned
/// so far, and the handle each one received.
pub trait AnalyzerLike: Sized {
    spec fn interned(&self) -> Map<Builtin, usize>;

    /// Return the handle for `b`, interning it first if it is new. A tag
    /// already interned keeps its handle and leaves the service unchanged.
    fn builtin_or_add(&mut self, b: Builtin) -> (h: usize)
        ensures
            final(self).interned().dom() == old(self).interned().dom().insert(b),
            final(self).interned().contains_key(b),
            final(self).interned()[b] == h,
            forall|x: Builtin| old(self).interned().dom().contains(x)
                ==> final(self).interned()[x] == old(self).interned()[x],
            old(self).interned().contains_key(b)
                ==> final(self).interned() == old(self).interned();
}

/// The interned map a sequence of tags denotes: each tag maps to the index
/// of its first occurrence, so later requests for the same tag resolve to
/// the handle the first request produced.
pub open spec fn interner_map(s: Seq<Builtin>) -> Map<Builtin, usize>
    decreases s.len(),
{
    if s.len() == 0 {
        Map::empty()
    } else {
        let m = interner_map(s.drop_last());
        if m.contains_key(s.last()) {
            m
        } else {
            m.insert(s.last(), (s.len() - 1) as usize)
        }
    }
}

/// A tag that occurs nowhere in `s` has no entry in `interner_map(s)`.
proof fn lemma_interner_map_absent(s: Seq<Builtin>, b: Builtin)
    requires
        forall|j: int| 0 <= j < s.len() ==> s[j] != b,
    ensures
        !interner_map(s).contains_key(b),
    decreases s.len(),
{
    if s.len() > 0 {
        lemma_interner_map_absent(s.drop_last(), b);
    }
}

/// A tag maps to the index of its first occurrence in `s`.
proof fn lemma_interner_map_first(s: Seq<Builtin>, i: int)
    requires
        s.len() <= usize::MAX,
        0 <= i < s.len(),
        forall|j: int| 0 <= j < i ==> s[j] != s[i],
    ensures
        interner_map(s).contains_key(s[i]),
        interner_map(s)[s[i]] == i,
    decreases s.len(),
{
    if i == s.len() - 1 {
        let t = s.drop_last();
        assert forall|j: int| 0 <= j < t.len() implies t[j] != s[i] by {
            assert(t[j] == s[j]);
        }
        lemma_interner_map_absent(t, s[i]);
        assert(s.last() == s[i]);
    } else {
        let t = s.drop_last();
        assert forall|j: int| 0 <= j < i implies t[j] != t[i] by {
            assert(t[j] == s[j]);
            assert(t[i] == s[i]);
        }
        lemma_interner_map_first(t, i);
        assert(t[i] == s[i]);
    }
}

/// A reference implementation of the interning service: handles are indices
/// into the order of first requests. The broader analyzer supplies its own
/// service in production; this one demonstrates that the `AnalyzerLike`
/// contract is implementable and lets the registry be exercised end to end.
pub struct Interner {
    items: Vec<Builtin>,
}

impl Interner {
    /// A fresh service with nothing interned yet.
    pub fn new() -> (r: Interner)
        ensures
            r.interned() == Map::<Builtin, usize>::empty(),
    {
        Interner { items: Vec::new() }
    }
}

impl AnalyzerLike for Interner {
    closed spec fn interned(&self) -> Map<Builtin, usize> {
        interner_map(self.items@)
    }

    fn builtin_or_add(&mut self, b: Builtin) -> (h: usize)
        ensures
            final(self).interned().dom() == old(self).interned().dom().insert(b),
            final(self).interned().contains_key(b),
            final(self).interned()[b] == h,
            forall|x: Builtin| old(self).interned().dom().contains(x)
                ==> final(self).interned()[x] == old(self).interned()[x],
            old(self).interned().contains_key(b)
                ==> final(self).interned() == old(self).interned(),
    {
        let n: usize = self.items.len();
        let mut i: usize = 0;
        while i < n
            invariant
                n == self.items.len(),
                i <= n,
                *self == *old(self),
                forall|j: int| 0 <= j < i ==> self.items@[j] != b,
            decreases n - i,
        {
            if self.items[i] == b {
                proof {
                    lemma_interner_map_first(self.items@, i as int);
                    assert(self.interned().dom() =~= self.interned().dom().insert(b));
                }
                return i;
            }
            i += 1;
        }
        proof {
            lemma_interner_map_absent(self.items@, b);
        }
        self.items.push(b);
        proof {
            assert(self.items@.drop_last() =~= old(self).items@);
            assert(self.interned().dom() =~= old(self).interned().dom().insert(b));
        }
        n
    }
}

} // verus!
