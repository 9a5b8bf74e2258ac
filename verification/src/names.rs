//! Sets of tag names, and named groups of them, kept as lists without
//! repeats.

use vstd::prelude::*;
use crate::text::{str_eq, str_views, text};

verus! {

/// The names that a list holds.
pub open spec fn names_of(v: Seq<String>) -> Set<Seq<char>> {
    Set::new(|k: Seq<char>| exists|i: int| 0 <= i < v.len() && #[trigger] v[i]@ == k)
}

/// No name is held twice.
pub open spec fn names_distinct(v: Seq<String>) -> bool {
    forall|i: int, j: int| 0 <= i < v.len() && 0 <= j < v.len() && i != j ==> #[trigger] v[i]@ != #[trigger] v[j]@
}

/// A set of tag names.
pub struct NameSet {
    names: Vec<String>,
}

impl View for NameSet {
    type V = Set<Seq<char>>;

    closed spec fn view(&self) -> Set<Seq<char>> {
        names_of(self.names@)
    }
}

impl NameSet {
    #[verifier::type_invariant]
    closed spec fn inv(self) -> bool {
        names_distinct(self.names@)
    }

    /// The empty set.
    pub fn new() -> (s: NameSet)
        ensures
            s@ == Set::<Seq<char>>::empty(),
    {
        let s = NameSet { names: Vec::new() };
        assert(s@ =~= Set::<Seq<char>>::empty());
        s
    }

    /// The position of `name`, if held.
    fn find(&self, name: &str) -> (r: Option<usize>)
        ensures
            r matches Some(i) ==> i < self.names@.len() && self.names@[i as int]@ == name@,
            r is None ==> !self@.contains(name@),
    {
        let mut i: usize = 0;
        while i < self.names.len()
            invariant
                i <= self.names@.len(),
                forall|j: int| 0 <= j < i ==> #[trigger] self.names@[j]@ != name@,
            decreases self.names.len() - i,
        {
            if str_eq(self.names[i].as_str(), name) {
                return Some(i);
            }
            i = i + 1;
        }
        None
    }

    /// Whether `name` is held.
    pub fn contains(&self, name: &str) -> (r: bool)
        ensures
            r == self@.contains(name@),
    {
        match self.find(name) {
            Some(i) => {
                assert(self.names@[i as int]@ == name@);
                true
            },
            None => false,
        }
    }

    /// Whether no name is held.
    pub fn is_empty(&self) -> (r: bool)
        ensures
            r == (self@ == Set::<Seq<char>>::empty()),
    {
        if self.names.len() == 0 {
            assert(self@ =~= Set::<Seq<char>>::empty());
            true
        } else {
            assert(self@.contains(self.names@[0]@));
            false
        }
    }

    /// Adds `name`.
    pub fn insert(&mut self, name: &str)
        ensures
            final(self)@ == old(self)@.insert(name@),
    {
        proof {
            use_type_invariant(&*self);
        }
        if self.find(name).is_some() {
            assert(old(self)@.insert(name@) =~= old(self)@);
            return;
        }
        let mut names: Vec<String> = Vec::new();
        std::mem::swap(&mut names, &mut self.names);
        let ghost old_v = names@;
        names.push(text(name));
        proof {
            let v = names@;
            assert(names_distinct(v)) by {
                assert forall|a: int, b: int| 0 <= a < v.len() && 0 <= b < v.len() && a != b implies #[trigger] v[a]@ != #[trigger] v[b]@ by {
                    if a == v.len() - 1 {
                        assert(old_v[b]@ == v[b]@);
                    } else if b == v.len() - 1 {
                        assert(old_v[a]@ == v[a]@);
                    }
                }
            }
            assert forall|k: Seq<char>| names_of(v).contains(k) == old(self)@.insert(name@).contains(k) by {
                if names_of(old_v).contains(k) {
                    let j = choose|j: int| 0 <= j < old_v.len() && #[trigger] old_v[j]@ == k;
                    assert(v[j]@ == k);
                }
                if k == name@ {
                    assert(v[v.len() - 1]@ == k);
                }
                if names_of(v).contains(k) && k != name@ {
                    let j = choose|j: int| 0 <= j < v.len() && #[trigger] v[j]@ == k;
                    assert(old_v[j]@ == k);
                }
            }
            assert(names_of(v) =~= old(self)@.insert(name@));
        }
        self.names = names;
    }

    /// Removes `name`.
    pub fn remove(&mut self, name: &str)
        ensures
            final(self)@ == old(self)@.remove(name@),
    {
        proof {
            use_type_invariant(&*self);
        }
        match self.find(name) {
            None => {
                assert(old(self)@.remove(name@) =~= old(self)@);
            },
            Some(i) => {
                let mut names: Vec<String> = Vec::new();
                std::mem::swap(&mut names, &mut self.names);
                let ghost old_v = names@;
                let _ = names.swap_remove(i);
                proof {
                    let v = names@;
                    assert(forall|a: int| 0 <= a < v.len() ==> (#[trigger] v[a]) == (if a == i {
                        old_v[old_v.len() - 1]
                    } else {
                        old_v[a]
                    }));
                    assert(names_distinct(v)) by {
                        assert forall|a: int, b: int| 0 <= a < v.len() && 0 <= b < v.len() && a != b implies #[trigger] v[a]@ != #[trigger] v[b]@ by {
                            let oa = if a == i { old_v.len() - 1 } else { a };
                            let ob = if b == i { old_v.len() - 1 } else { b };
                            assert(old_v[oa]@ != old_v[ob]@);
                        }
                    }
                    assert forall|k: Seq<char>| names_of(v).contains(k) == old(self)@.remove(name@).contains(k) by {
                        if names_of(v).contains(k) {
                            let j = choose|j: int| 0 <= j < v.len() && #[trigger] v[j]@ == k;
                            let oj = if j == i { old_v.len() - 1 } else { j };
                            assert(old_v[oj]@ == k);
                            assert(oj != i);
                        }
                        if names_of(old_v).contains(k) && k != name@ {
                            let j = choose|j: int| 0 <= j < old_v.len() && #[trigger] old_v[j]@ == k;
                            assert(j != i);
                            if j == old_v.len() - 1 {
                                assert(v[i as int]@ == k);
                            } else {
                                assert(v[j]@ == k);
                            }
                        }
                    }
                    assert(names_of(v) =~= old(self)@.remove(name@));
                }
                self.names = names;
            },
        }
    }

    /// Removes every name.
    pub fn clear(&mut self)
        ensures
            final(self)@ == Set::<Seq<char>>::empty(),
    {
        self.names = Vec::new();
        assert(self@ =~= Set::<Seq<char>>::empty());
    }

    /// The names held, each once, in no particular order.
    pub fn to_vec(&self) -> (r: Vec<String>)
        ensures
            names_of(r@) == self@,
            names_distinct(r@),
    {
        proof {
            use_type_invariant(self);
        }
        let mut r: Vec<String> = Vec::new();
        let mut i: usize = 0;
        while i < self.names.len()
            invariant
                i <= self.names@.len(),
                r@.len() == i,
                forall|j: int| 0 <= j < i ==> (#[trigger] r@[j])@ == self.names@[j]@,
            decreases self.names.len() - i,
        {
            r.push(self.names[i].clone());
            i = i + 1;
        }
        assert(names_of(r@) =~= self@) by {
            assert forall|k: Seq<char>| names_of(r@).contains(k) == self@.contains(k) by {
                if names_of(r@).contains(k) {
                    let j = choose|j: int| 0 <= j < r@.len() && #[trigger] r@[j]@ == k;
                    assert(self.names@[j]@ == k);
                }
                if self@.contains(k) {
                    let j = choose|j: int| 0 <= j < self.names@.len() && #[trigger] self.names@[j]@ == k;
                    assert(r@[j]@ == k);
                }
            }
        }
        assert(names_distinct(r@)) by {
            assert forall|a: int, b: int| 0 <= a < r@.len() && 0 <= b < r@.len() && a != b implies #[trigger] r@[a]@ != #[trigger] r@[b]@ by {
                assert(self.names@[a]@ != self.names@[b]@);
            }
        }
        r
    }

    /// A copy of the set.
    pub fn copy(&self) -> (r: NameSet)
        ensures
            r@ == self@,
    {
        let names = self.to_vec();
        NameSet { names }
    }

    /// Adds every name of `other`.
    pub fn extend(&mut self, other: &NameSet)
        ensures
            final(self)@ == old(self)@.union(other@),
    {
        let v = other.to_vec();
        let ghost start = self@;
        let mut i: usize = 0;
        while i < v.len()
            invariant
                i <= v@.len(),
                names_of(v@) == other@,
                self@ == start.union(names_of(v@.subrange(0, i as int))),
            decreases v.len() - i,
        {
            self.insert(v[i].as_str());
            proof {
                assert(names_of(v@.subrange(0, i + 1)) =~= names_of(v@.subrange(0, i as int)).insert(v@[i as int]@)) by {
                    assert forall|k: Seq<char>| names_of(v@.subrange(0, i + 1)).contains(k) == names_of(v@.subrange(0, i as int)).insert(v@[i as int]@).contains(k) by {
                        if names_of(v@.subrange(0, i + 1)).contains(k) {
                            let j = choose|j: int| 0 <= j < i + 1 && #[trigger] v@.subrange(0, i + 1)[j]@ == k;
                            if j < i {
                                assert(v@.subrange(0, i as int)[j] == v@[j]);
                            }
                        }
                        if names_of(v@.subrange(0, i as int)).contains(k) {
                            let j = choose|j: int| 0 <= j < i && #[trigger] v@.subrange(0, i as int)[j]@ == k;
                            assert(v@.subrange(0, i + 1)[j] == v@[j]);
                        }
                        if k == v@[i as int]@ {
                            assert(v@.subrange(0, i + 1)[i as int] == v@[i as int]);
                        }
                    }
                }
                assert(self@ =~= start.union(names_of(v@.subrange(0, i + 1))));
            }
            i = i + 1;
        }
        assert(v@.subrange(0, v@.len() as int) =~= v@);
    }
}

/// A set made of the given names.
pub fn name_set_of(names: &[&str]) -> (s: NameSet)
    ensures
        s@ == str_views(names@).to_set(),
{
    let mut s = NameSet::new();
    let mut i: usize = 0;
    while i < names.len()
        invariant
            i <= names@.len(),
            s@ == str_views(names@.subrange(0, i as int)).to_set(),
        decreases names.len() - i,
    {
        s.insert(names[i]);
        proof {
            let a = str_views(names@.subrange(0, i as int));
            assert(str_views(names@.subrange(0, i + 1)) =~= a.push(names@[i as int]@));
            a.lemma_push_to_set_commute(names@[i as int]@);
        }
        i = i + 1;
    }
    assert(names@.subrange(0, names@.len() as int) =~= names@);
    s
}


/// The groups that a list holds: each name to the set stored with it.
pub open spec fn groups_of(e: Seq<(String, NameSet)>) -> Map<Seq<char>, Set<Seq<char>>> {
    Map::new(
        |k: Seq<char>| exists|i: int| 0 <= i < e.len() && #[trigger] e[i].0@ == k,
        |k: Seq<char>| e[choose|i: int| 0 <= i < e.len() && #[trigger] e[i].0@ == k].1@,
    )
}

/// No group name is held twice.
pub open spec fn group_names_distinct(e: Seq<(String, NameSet)>) -> bool {
    forall|i: int, j: int|
        0 <= i < e.len() && 0 <= j < e.len() && i != j ==> #[trigger] e[i].0@ != #[trigger] e[j].0@
}

/// In a list without repeated names, the map holds each stored group.
pub proof fn lemma_group_at(e: Seq<(String, NameSet)>, i: int)
    requires
        group_names_distinct(e),
        0 <= i < e.len(),
    ensures
        groups_of(e).contains_key(e[i].0@),
        groups_of(e)[e[i].0@] == e[i].1@,
{
    let k = e[i].0@;
    assert(e[i].0@ == k);
    let j = choose|j: int| 0 <= j < e.len() && #[trigger] e[j].0@ == k;
    assert(j == i);
}

/// Named groups of tag names. Storing a group under a name that is present
/// replaces it.
pub struct GroupMap {
    entries: Vec<(String, NameSet)>,
}

impl View for GroupMap {
    type V = Map<Seq<char>, Set<Seq<char>>>;

    closed spec fn view(&self) -> Map<Seq<char>, Set<Seq<char>>> {
        groups_of(self.entries@)
    }
}

impl GroupMap {
    #[verifier::type_invariant]
    closed spec fn inv(self) -> bool {
        group_names_distinct(self.entries@)
    }

    /// No groups.
    pub fn new() -> (m: GroupMap)
        ensures
            m@ == Map::<Seq<char>, Set<Seq<char>>>::empty(),
    {
        let m = GroupMap { entries: Vec::new() };
        assert(m@ =~= Map::<Seq<char>, Set<Seq<char>>>::empty());
        m
    }

    /// The position of the group `name`, if stored.
    fn find(&self, name: &str) -> (r: Option<usize>)
        ensures
            r matches Some(i) ==> i < self.entries@.len() && self.entries@[i as int].0@ == name@,
            r is None ==> !self@.contains_key(name@),
    {
        let mut i: usize = 0;
        while i < self.entries.len()
            invariant
                i <= self.entries@.len(),
                forall|j: int| 0 <= j < i ==> #[trigger] self.entries@[j].0@ != name@,
            decreases self.entries.len() - i,
        {
            if str_eq(self.entries[i].0.as_str(), name) {
                return Some(i);
            }
            i = i + 1;
        }
        None
    }

    /// The group stored under `name`.
    pub fn get(&self, name: &str) -> (r: Option<&NameSet>)
        ensures
            r is Some <==> self@.contains_key(name@),
            r matches Some(g) ==> self@[name@] == g@,
    {
        proof {
            use_type_invariant(self);
        }
        match self.find(name) {
            Some(i) => {
                proof {
                    lemma_group_at(self.entries@, i as int);
                }
                Some(&self.entries[i].1)
            },
            None => None,
        }
    }

    /// Stores `group` under `name`, replacing any earlier group.
    pub fn insert(&mut self, name: String, group: NameSet)
        ensures
            final(self)@ == old(self)@.insert(name@, group@),
    {
        proof {
            use_type_invariant(&*self);
        }
        let found = self.find(name.as_str());
        let mut entries: Vec<(String, NameSet)> = Vec::new();
        std::mem::swap(&mut entries, &mut self.entries);
        let ghost old_e = entries@;
        match found {
            Some(i) => {
                entries.set(i, (name, group));
                proof {
                    let e = entries@;
                    assert(group_names_distinct(e));
                    assert forall|k: Seq<char>|
                        #![trigger groups_of(e).contains_key(k)]
                        groups_of(e).contains_key(k) == old(self)@.insert(name@, group@).contains_key(k)
                        && (groups_of(e).contains_key(k) ==> groups_of(e)[k] == old(self)@.insert(
                        name@, group@)[k]) by {
                        if k == name@ {
                            lemma_group_at(e, i as int);
                        } else if groups_of(e).contains_key(k) {
                            let j = choose|j: int| 0 <= j < e.len() && #[trigger] e[j].0@ == k;
                            lemma_group_at(e, j);
                            lemma_group_at(old_e, j);
                        } else if groups_of(old_e).contains_key(k) {
                            let j = choose|j: int| 0 <= j < old_e.len() && #[trigger] old_e[j].0@ == k;
                            assert(e[j].0@ == k);
                        }
                    }
                    assert(groups_of(e) =~= old(self)@.insert(name@, group@));
                }
            },
            None => {
                entries.push((name, group));
                proof {
                    let e = entries@;
                    assert(group_names_distinct(e)) by {
                        assert forall|a: int, b: int|
                            0 <= a < e.len() && 0 <= b < e.len() && a != b implies #[trigger] e[a].0@
                            != #[trigger] e[b].0@ by {
                            if a == e.len() - 1 {
                                assert(old_e[b].0@ == e[b].0@);
                            } else if b == e.len() - 1 {
                                assert(old_e[a].0@ == e[a].0@);
                            }
                        }
                    }
                    assert forall|k: Seq<char>|
                        #![trigger groups_of(e).contains_key(k)]
                        groups_of(e).contains_key(k) == old(self)@.insert(name@, group@).contains_key(k)
                        && (groups_of(e).contains_key(k) ==> groups_of(e)[k] == old(self)@.insert(
                        name@, group@)[k]) by {
                        if k == name@ {
                            lemma_group_at(e, e.len() - 1);
                        } else if groups_of(e).contains_key(k) {
                            let j = choose|j: int| 0 <= j < e.len() && #[trigger] e[j].0@ == k;
                            lemma_group_at(e, j);
                            lemma_group_at(old_e, j);
                        } else if groups_of(old_e).contains_key(k) {
                            let j = choose|j: int| 0 <= j < old_e.len() && #[trigger] old_e[j].0@ == k;
                            assert(e[j].0@ == k);
                        }
                    }
                    assert(groups_of(e) =~= old(self)@.insert(name@, group@));
                }
            },
        }
        self.entries = entries;
    }

    /// The names of the stored groups, each once, in no particular order.
    pub fn names(&self) -> (r: Vec<String>)
        ensures
            names_of(r@) == self@.dom(),
            names_distinct(r@),
    {
        proof {
            use_type_invariant(self);
        }
        let mut r: Vec<String> = Vec::new();
        let mut i: usize = 0;
        while i < self.entries.len()
            invariant
                i <= self.entries@.len(),
                r@.len() == i,
                forall|j: int| 0 <= j < i ==> (#[trigger] r@[j])@ == self.entries@[j].0@,
            decreases self.entries.len() - i,
        {
            r.push(self.entries[i].0.clone());
            i = i + 1;
        }
        assert(names_of(r@) =~= self@.dom()) by {
            assert forall|k: Seq<char>| names_of(r@).contains(k) == self@.dom().contains(k) by {
                if names_of(r@).contains(k) {
                    let j = choose|j: int| 0 <= j < r@.len() && #[trigger] r@[j]@ == k;
                    assert(self.entries@[j].0@ == k);
                }
                if self@.dom().contains(k) {
                    let j = choose|j: int| 0 <= j < self.entries@.len() && #[trigger] self.entries@[j].0@ == k;
                    assert(r@[j]@ == k);
                }
            }
        }
        assert(names_distinct(r@)) by {
            assert forall|a: int, b: int| 0 <= a < r@.len() && 0 <= b < r@.len() && a != b implies #[trigger] r@[a]@ != #[trigger] r@[b]@ by {
                assert(self.entries@[a].0@ != self.entries@[b].0@);
            }
        }
        r
    }
}

} // verus!
