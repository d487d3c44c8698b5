//! An environment-variable map: a sequence of assignments in which a later
//! assignment to a name replaces an earlier one.

use vstd::prelude::*;

use crate::text::str_eq;

verus! {

/// The variables that a sequence of assignments sets.
pub open spec fn map_of(s: Seq<(String, String)>) -> Map<Seq<char>, Seq<char>>
    decreases s.len(),
{
    if s.len() == 0 {
        Map::empty()
    } else {
        map_of(s.drop_last()).insert(s.last().0@, s.last().1@)
    }
}

/// The views of a sequence of assignments.
pub open spec fn pairs_view(s: Seq<(String, String)>) -> Seq<(Seq<char>, Seq<char>)> {
    s.map_values(|p: (String, String)| (p.0@, p.1@))
}

/// Environment variables, as the assignments that produced them.
#[derive(Debug, Clone)]
pub struct EnvMap {
    pub assignments: Vec<(String, String)>,
}

impl View for EnvMap {
    type V = Map<Seq<char>, Seq<char>>;

    open spec fn view(&self) -> Map<Seq<char>, Seq<char>> {
        map_of(self.assignments@)
    }
}

proof fn lemma_suffix_without_key(s: Seq<(String, String)>, i: int, k: Seq<char>)
    requires
        0 <= i <= s.len(),
        forall|j: int| i <= j < s.len() ==> (#[trigger] s[j]).0@ != k,
    ensures
        map_of(s).contains_key(k) == map_of(s.take(i)).contains_key(k),
        map_of(s).contains_key(k) ==> map_of(s)[k] == map_of(s.take(i))[k],
    decreases s.len() - i,
{
    if i < s.len() {
        let t = s.drop_last();
        assert(t.take(i) =~= s.take(i));
        assert forall|j: int| i <= j < t.len() implies (#[trigger] t[j]).0@ != k by {
            assert(t[j] == s[j]);
        }
        lemma_suffix_without_key(t, i, k);
        assert(s[s.len() - 1].0@ != k);
    } else {
        assert(s.take(i) =~= s);
    }
}

impl EnvMap {
    /// No variables.
    pub fn new() -> (m: EnvMap)
        ensures
            m@ == Map::<Seq<char>, Seq<char>>::empty(),
    {
        EnvMap { assignments: Vec::new() }
    }

    /// The variables set by `pairs`, a later pair winning over an earlier one.
    pub fn from_pairs(pairs: Vec<(String, String)>) -> (m: EnvMap)
        ensures
            m@ == map_of(pairs@),
    {
        EnvMap { assignments: pairs }
    }

    /// The variables set by a copy of `pairs`, a later pair winning over an earlier one.
    pub fn copy_of(pairs: &Vec<(String, String)>) -> (m: EnvMap)
        ensures
            m@ == map_of(pairs@),
    {
        let mut m = EnvMap::new();
        let mut i: usize = 0;
        while i < pairs.len()
            invariant
                i <= pairs.len(),
                m@ == map_of(pairs@.take(i as int)),
            decreases pairs.len() - i,
        {
            assert(pairs@.take(i + 1).drop_last() =~= pairs@.take(i as int));
            m.insert(pairs[i].0.clone(), pairs[i].1.clone());
            i = i + 1;
        }
        assert(pairs@.take(pairs.len() as int) =~= pairs@);
        m
    }

    /// Sets `name` to `value`.
    pub fn insert(&mut self, name: String, value: String)
        ensures
            final(self)@ == old(self)@.insert(name@, value@),
    {
        let ghost before = self.assignments@;
        self.assignments.push((name, value));
        assert(self.assignments@.drop_last() =~= before);
    }

    /// The value of `name`, if set.
    pub fn get(&self, name: &str) -> (r: Option<String>)
        ensures
            r matches Some(v) ==> self@.contains_key(name@) && self@[name@] == v@,
            r is None ==> !self@.contains_key(name@),
    {
        let s = &self.assignments;
        let mut i: usize = s.len();
        while i > 0
            invariant
                i <= s@.len(),
                s@ == self.assignments@,
                forall|j: int| i <= j < s@.len() ==> (#[trigger] s@[j]).0@ != name@,
            decreases i,
        {
            if str_eq(s[i - 1].0.as_str(), name) {
                proof {
                    lemma_suffix_without_key(s@, i as int, name@);
                    assert(s@.take(i as int).drop_last() =~= s@.take(i - 1));
                    assert(s@.take(i as int).last() == s@[i - 1]);
                    assert(map_of(s@.take(i as int)) == map_of(s@.take(i - 1)).insert(
                        s@[i - 1].0@,
                        s@[i - 1].1@,
                    ));
                    assert(map_of(s@.take(i as int)).contains_key(name@));
                }
                let v = s[i - 1].1.clone();
                assert(v@ == s@[i - 1].1@);
                return Some(v);
            }
            i = i - 1;
        }
        proof {
            lemma_suffix_without_key(s@, 0, name@);
            assert(s@.take(0) =~= Seq::<(String, String)>::empty());
        }
        None
    }

    /// Whether `name` is set.
    pub fn contains_key(&self, name: &str) -> (r: bool)
        ensures
            r == self@.contains_key(name@),
    {
        self.get(name).is_some()
    }
}

} // verus!
