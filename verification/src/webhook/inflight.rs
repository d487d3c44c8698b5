//! Sets of string keys: the delivery keys of webhook events already processed and
//! the issues with a dispatch in flight.

use vstd::prelude::*;

use crate::text::str_eq;

verus! {

/// A finite set of string keys.
pub struct KeySet {
    keys: Vec<String>,
}

impl View for KeySet {
    type V = Set<Seq<char>>;

    closed spec fn view(&self) -> Set<Seq<char>> {
        self.keys@.map_values(|k: String| k@).to_set()
    }
}

impl KeySet {
    /// No key is held twice.
    pub closed spec fn wf(&self) -> bool {
        forall|i: int, j: int|
            0 <= i < self.keys@.len() && 0 <= j < self.keys@.len() && i != j ==> self.keys@[i]@
                != self.keys@[j]@
    }

    pub closed spec fn len_spec(&self) -> nat {
        self.keys@.len()
    }

    /// An empty set.
    pub fn new() -> (s: KeySet)
        ensures
            s.wf(),
            s@ == Set::<Seq<char>>::empty(),
    {
        let s = KeySet { keys: Vec::new() };
        assert(s@ =~= Set::<Seq<char>>::empty());
        s
    }

    fn position(&self, key: &str) -> (r: Option<usize>)
        ensures
            r matches Some(i) ==> i < self.keys@.len() && self.keys@[i as int]@ == key@,
            r is None ==> forall|i: int| 0 <= i < self.keys@.len() ==> self.keys@[i]@ != key@,
    {
        let mut i: usize = 0;
        while i < self.keys.len()
            invariant
                i <= self.keys@.len(),
                forall|k: int| 0 <= k < i ==> self.keys@[k]@ != key@,
            decreases self.keys.len() - i,
        {
            if str_eq(self.keys[i].as_str(), key) {
                return Some(i);
            }
            i = i + 1;
        }
        None
    }

    /// Whether `key` is in the set.
    pub fn contains(&self, key: &str) -> (r: bool)
        ensures
            r == self@.contains(key@),
    {
        let p = self.position(key);
        proof {
            let m = self.keys@.map_values(|k: String| k@);
            if p is Some {
                assert(m[p->0 as int] == key@);
            } else {
                if m.contains(key@) {
                    let i = choose|i: int| 0 <= i < m.len() && m[i] == key@;
                    assert(self.keys@[i]@ == key@);
                }
            }
        }
        p.is_some()
    }

    /// Adds `key` unless it is present; returns whether it was added.
    pub fn insert(&mut self, key: &str) -> (added: bool)
        requires
            old(self).wf(),
        ensures
            final(self).wf(),
            added == !old(self)@.contains(key@),
            final(self)@ == old(self)@.insert(key@),
    {
        let present = self.contains(key);
        if present {
            assert(self@.insert(key@) =~= self@);
            return false;
        }
        let ghost before = self.keys@;
        let k = key.to_owned();
        self.keys.push(k);
        proof {
            let m0 = before.map_values(|k: String| k@);
            let m1 = self.keys@.map_values(|k: String| k@);
            assert(m1 =~= m0.push(key@));
            assert forall|x: Seq<char>| m1.to_set().contains(x) <==> m0.to_set().insert(
                key@,
            ).contains(x) by {
                if m1.contains(x) {
                    let i = choose|i: int| 0 <= i < m1.len() && m1[i] == x;
                    if i < m0.len() {
                        assert(m0[i] == x);
                    }
                }
                if m0.contains(x) {
                    let i = choose|i: int| 0 <= i < m0.len() && m0[i] == x;
                    assert(m1[i] == x);
                }
                if x == key@ {
                    assert(m1[m0.len() as int] == x);
                }
            }
            assert(m1.to_set() =~= m0.to_set().insert(key@));
            assert forall|i: int, j: int|
                0 <= i < self.keys@.len() && 0 <= j < self.keys@.len() && i != j implies self.keys@[i]@
                != self.keys@[j]@ by {
                if i < before.len() && j < before.len() {
                    assert(self.keys@[i] == before[i]);
                    assert(self.keys@[j] == before[j]);
                } else if i < before.len() {
                    assert(self.keys@[i] == before[i]);
                    assert(m0[i] == before[i]@);
                    assert(m0.contains(self.keys@[i]@));
                } else {
                    assert(self.keys@[j] == before[j]);
                    assert(m0[j] == before[j]@);
                    assert(m0.contains(self.keys@[j]@));
                }
            }
        }
        true
    }

    /// Removes `key` if present.
    pub fn remove(&mut self, key: &str)
        requires
            old(self).wf(),
        ensures
            final(self).wf(),
            final(self)@ == old(self)@.remove(key@),
    {
        match self.position(key) {
            None => {
                proof {
                    let m = self.keys@.map_values(|k: String| k@);
                    if m.contains(key@) {
                        let i = choose|i: int| 0 <= i < m.len() && m[i] == key@;
                        assert(self.keys@[i]@ == key@);
                    }
                    assert(self@.remove(key@) =~= self@);
                }
            },
            Some(i) => {
                let ghost before = self.keys@;
                let _ = self.keys.remove(i);
                proof {
                    let m0 = before.map_values(|k: String| k@);
                    let m1 = self.keys@.map_values(|k: String| k@);
                    assert forall|x: Seq<char>| m1.to_set().contains(x) <==> m0.to_set().remove(
                        key@,
                    ).contains(x) by {
                        if m1.contains(x) {
                            let j = choose|j: int| 0 <= j < m1.len() && m1[j] == x;
                            if j < i {
                                assert(self.keys@[j] == before[j]);
                                assert(m0[j] == x);
                                assert(j != i);
                            } else {
                                assert(self.keys@[j] == before[j + 1]);
                                assert(m0[j + 1] == x);
                                assert(j + 1 != i);
                            }
                        }
                        if m0.contains(x) && x != key@ {
                            let j = choose|j: int| 0 <= j < m0.len() && m0[j] == x;
                            assert(j != i);
                            if j < i {
                                assert(m1[j] == x);
                            } else {
                                assert(m1[j - 1] == x);
                            }
                        }
                    }
                    assert(m1.to_set() =~= m0.to_set().remove(key@));
                    assert forall|a: int, b: int|
                        0 <= a < self.keys@.len() && 0 <= b < self.keys@.len() && a != b implies self.keys@[a]@
                        != self.keys@[b]@ by {
                        let a0 = if a < i {
                            a
                        } else {
                            a + 1
                        };
                        let b0 = if b < i {
                            b
                        } else {
                            b + 1
                        };
                        assert(self.keys@[a] == before[a0]);
                        assert(self.keys@[b] == before[b0]);
                    }
                }
            },
        }
    }
}

/// A key that was just added is then present, and adding it again is refused
/// until it is removed; after removal it can be added again.
pub proof fn law_keyset_insert_remove(s: Set<Seq<char>>, k: Seq<char>)
    ensures
        s.insert(k).contains(k),
        !s.remove(k).contains(k),
        s.insert(k).remove(k) == s.remove(k),
{
    assert(s.insert(k).remove(k) =~= s.remove(k));
}

} // verus!
