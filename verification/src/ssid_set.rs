//! A small set of SSID names, stored as a duplicate-free vector and viewed
//! as a mathematical `Set<Seq<char>>`.

use vstd::prelude::*;

verus! {

/// The names held in a sequence of strings, as a set.
pub open spec fn names_of(v: Seq<String>) -> Set<Seq<char>> {
    v.map_values(|s: String| s@).to_set()
}

/// A set of SSIDs. The visible-network list and the attempted list of the
/// connection manager are both values of this type.
pub struct SsidSet {
    names: Vec<String>,
}

impl View for SsidSet {
    type V = Set<Seq<char>>;

    closed spec fn view(&self) -> Set<Seq<char>> {
        self.seq().to_set()
    }
}

impl SsidSet {
    /// The stored names in storage order.
    pub closed spec fn seq(&self) -> Seq<Seq<char>> {
        self.names@.map_values(|s: String| s@)
    }

    /// No name is stored twice.
    pub closed spec fn wf(&self) -> bool {
        self.seq().no_duplicates()
    }

    /// The view is exactly the membership of the stored sequence.
    pub proof fn lemma_view(&self)
        ensures
            self@.finite(),
            forall|x: Seq<char>| self@.contains(x) <==> self.seq().contains(x),
            self.wf() ==> self@.len() == self.seq().len(),
    {
        broadcast use vstd::seq_lib::group_seq_properties;

        self.seq().lemma_cardinality_of_set();
        if self.wf() {
            self.seq().unique_seq_to_set();
        }
    }

    pub fn new() -> (r: SsidSet)
        ensures
            r@ == Set::<Seq<char>>::empty(),
            r.wf(),
            r.seq().len() == 0,
    {
        let r = SsidSet { names: Vec::new() };
        proof {
            assert(r.seq() =~= Seq::<Seq<char>>::empty());
            assert(r@ =~= Set::<Seq<char>>::empty());
        }
        r
    }

    pub fn len(&self) -> (n: usize)
        ensures
            n == self.seq().len(),
    {
        self.names.len()
    }

    /// The stored name at position `i`.
    pub fn get(&self, i: usize) -> (s: &String)
        requires
            i < self.seq().len(),
        ensures
            s@ == self.seq()[i as int],
            self@.contains(s@),
    {
        let s = &self.names[i];
        proof {
            assert(self.seq().contains(self.seq()[i as int]));
        }
        s
    }

    pub fn contains(&self, name: &String) -> (r: bool)
        ensures
            r == self@.contains(name@),
    {
        let n = self.names.len();
        let mut i: usize = 0;
        while i < n
            invariant
                n == self.seq().len(),
                i <= n,
                forall|k: int| 0 <= k < i ==> self.seq()[k] != name@,
            decreases n - i,
        {
            if self.names[i] == *name {
                proof {
                    assert(self.seq()[i as int] == name@);
                    assert(self.seq().contains(name@));
                }
                return true;
            }
            i += 1;
        }
        proof {
            assert(!self.seq().contains(name@));
        }
        false
    }

    /// Adds a name; a name already present is left alone.
    pub fn insert(&mut self, name: String)
        requires
            old(self).wf(),
        ensures
            final(self).wf(),
            final(self)@ == old(self)@.insert(name@),
    {
        let present = self.contains(&name);
        if !present {
            proof {
                assert(!self.seq().contains(name@));
            }
            let ghost pre = self.seq();
            self.names.push(name);
            proof {
                assert(self.seq() =~= pre.push(name@));
                assert forall|x: Seq<char>| self.seq().contains(x) <==> (pre.contains(x) || x
                    == name@) by {
                    if self.seq().contains(x) {
                        let k = choose|k: int|
                            0 <= k < self.seq().len() && self.seq()[k] == x;
                        if k < pre.len() {
                            assert(pre[k] == x);
                        }
                    }
                    if pre.contains(x) {
                        let k = choose|k: int| 0 <= k < pre.len() && pre[k] == x;
                        assert(self.seq()[k] == x);
                    }
                    if x == name@ {
                        assert(self.seq().last() == name@);
                    }
                }
                assert(self@ =~= old(self)@.insert(name@));
            }
        } else {
            proof {
                assert(self@ =~= self@.insert(name@));
            }
        }
    }

    /// Removes every name.
    pub fn clear(&mut self)
        ensures
            final(self).wf(),
            final(self)@ == Set::<Seq<char>>::empty(),
            final(self).seq().len() == 0,
    {
        self.names.clear();
        proof {
            assert(self.seq() =~= Seq::<Seq<char>>::empty());
            assert(self@ =~= Set::<Seq<char>>::empty());
        }
    }

    /// Builds a set from a plain list of names, dropping duplicates.
    pub fn from_vec(v: &Vec<String>) -> (r: SsidSet)
        ensures
            r.wf(),
            r@ == names_of(v@),
    {
        let mut r = SsidSet::new();
        let n = v.len();
        let mut i: usize = 0;
        while i < n
            invariant
                n == v@.len(),
                i <= n,
                r.wf(),
                r@ == names_of(v@.take(i as int)),
            decreases n - i,
        {
            let ghost pre = r@;
            r.insert(v[i].clone());
            proof {
                lemma_names_of_take_step(v@, i as int);
                assert(r@ =~= names_of(v@.take(i as int + 1)));
            }
            i += 1;
        }
        proof {
            assert(v@.take(n as int) =~= v@);
        }
        r
    }
}

/// Taking one more element of `v` adds exactly that element's name.
pub proof fn lemma_names_of_take_step(v: Seq<String>, i: int)
    requires
        0 <= i < v.len(),
    ensures
        names_of(v.take(i + 1)) == names_of(v.take(i)).insert(v[i]@),
{
    let a = v.take(i).map_values(|s: String| s@);
    let b = v.take(i + 1).map_values(|s: String| s@);
    assert(b =~= a.push(v[i]@));
    assert forall|x: Seq<char>| b.contains(x) <==> (a.contains(x) || x == v[i]@) by {
        if b.contains(x) {
            let k = choose|k: int| 0 <= k < b.len() && b[k] == x;
            if k < a.len() {
                assert(a[k] == x);
            }
        }
        if a.contains(x) {
            let k = choose|k: int| 0 <= k < a.len() && a[k] == x;
            assert(b[k] == x);
        }
        if x == v[i]@ {
            assert(b.last() == x);
        }
    }
    assert(names_of(v.take(i + 1)) =~= names_of(v.take(i)).insert(v[i]@));
}

} // verus!
