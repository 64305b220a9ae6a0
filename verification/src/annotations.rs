//! Annotations: a mapping from text keys to text values in which the order of
//! insertion does not matter.

use vstd::prelude::*;

verus! {

/// The mapping that a list of pairs describes when it is read front to back
/// and a later pair replaces an earlier one with the same key.
pub open spec fn map_of_pairs(pairs: Seq<(String, String)>) -> Map<Seq<char>, Seq<char>>
    decreases pairs.len(),
{
    if pairs.len() == 0 {
        Map::empty()
    } else {
        map_of_pairs(pairs.drop_last()).insert(pairs.last().0@, pairs.last().1@)
    }
}

/// No two pairs of the list have the same key.
pub open spec fn keys_distinct(pairs: Seq<(String, String)>) -> bool {
    forall|i: int, j: int|
        0 <= i < j < pairs.len() ==> (#[trigger] pairs[i]).0@ != (#[trigger] pairs[j]).0@
}

/// The key is the key of some pair of the list.
pub open spec fn has_key(pairs: Seq<(String, String)>, key: Seq<char>) -> bool {
    exists|i: int| 0 <= i < pairs.len() && (#[trigger] pairs[i]).0@ == key
}

/// A mapping from keys to values. Its view is the mapping itself.
#[derive(Debug)]
pub struct Annotations {
    entries: Vec<(String, String)>,
}

impl View for Annotations {
    type V = Map<Seq<char>, Seq<char>>;

    closed spec fn view(&self) -> Map<Seq<char>, Seq<char>> {
        map_of_pairs(self.entries@)
    }
}

/// Reading a list of pairs as a mapping: the keys of the mapping are the
/// keys of the list, and a key that occurs once has the value beside it.
pub proof fn lemma_map_of_pairs(pairs: Seq<(String, String)>)
    ensures
        forall|key: Seq<char>| map_of_pairs(pairs).dom().contains(key) <==> has_key(pairs, key),
        keys_distinct(pairs) ==> forall|i: int|
            0 <= i < pairs.len() ==> map_of_pairs(pairs)[(#[trigger] pairs[i]).0@] == pairs[i].1@,
    decreases pairs.len(),
{
    if pairs.len() > 0 {
        let front = pairs.drop_last();
        let n = pairs.len() - 1;
        lemma_map_of_pairs(front);
        assert forall|key: Seq<char>| map_of_pairs(pairs).dom().contains(key) <==> has_key(
            pairs,
            key,
        ) by {
            if has_key(pairs, key) {
                let i = choose|i: int| 0 <= i < pairs.len() && (#[trigger] pairs[i]).0@ == key;
                if i < n {
                    assert(front[i].0@ == key);
                    assert(has_key(front, key));
                }
            }
            if map_of_pairs(pairs).dom().contains(key) && key != pairs.last().0@ {
                assert(has_key(front, key));
                let i = choose|i: int| 0 <= i < front.len() && (#[trigger] front[i]).0@ == key;
                assert(pairs[i].0@ == key);
            }
            if key == pairs.last().0@ {
                assert(pairs[n].0@ == key);
            }
        }
        if keys_distinct(pairs) {
            assert(keys_distinct(front)) by {
                assert forall|i: int, j: int| 0 <= i < j < front.len() implies (#[trigger] front[i]).0@
                    != (#[trigger] front[j]).0@ by {
                    assert(pairs[i].0@ != pairs[j].0@);
                }
            }
            assert forall|i: int| 0 <= i < pairs.len() implies map_of_pairs(pairs)[(
            #[trigger] pairs[i]).0@] == pairs[i].1@ by {
                if i < n {
                    assert(pairs[i].0@ != pairs[n].0@);
                    assert(front[i] == pairs[i]);
                }
            }
        }
    }
}

impl Annotations {
    #[verifier::type_invariant]
    spec fn inv(self) -> bool {
        keys_distinct(self.entries@)
    }

    /// The empty mapping.
    pub fn new() -> (annotations: Annotations)
        ensures
            annotations@ == Map::<Seq<char>, Seq<char>>::empty(),
    {
        Annotations { entries: Vec::new() }
    }

    /// Binds `key` to `value`, in place of what it was bound to before.
    pub fn insert(&mut self, key: String, value: String)
        ensures
            final(self)@ == old(self)@.insert(key@, value@),
    {
        proof {
            use_type_invariant(&*self);
        }
        let mut entries: Vec<(String, String)> = Vec::new();
        core::mem::swap(&mut self.entries, &mut entries);
        let ghost before = entries@;
        let mut i: usize = 0;
        while i < entries.len()
            invariant
                i <= entries.len(),
                entries@ == before,
                before == old(self).entries@,
                keys_distinct(before),
                forall|j: int| 0 <= j < i ==> (#[trigger] entries@[j]).0@ != key@,
            decreases entries.len() - i,
        {
            if entries[i].0 == key {
                entries.set(i, (key, value));
                proof {
                    let after = entries@;
                    lemma_map_of_pairs(before);
                    assert(keys_distinct(after)) by {
                        assert forall|a: int, b: int| 0 <= a < b < after.len() implies (
                        #[trigger] after[a]).0@ != (#[trigger] after[b]).0@ by {
                            assert(before[a].0@ != before[b].0@);
                        }
                    }
                    lemma_map_of_pairs(after);
                    let i = i as int;
                    assert forall|k: Seq<char>| has_key(before, k) <==> has_key(after, k) by {
                        if has_key(before, k) {
                            let j = choose|j: int|
                                0 <= j < before.len() && (#[trigger] before[j]).0@ == k;
                            assert(after[j].0@ == k);
                        }
                        if has_key(after, k) {
                            let j = choose|j: int|
                                0 <= j < after.len() && (#[trigger] after[j]).0@ == k;
                            assert(before[j].0@ == k);
                        }
                    }
                    assert forall|k: Seq<char>| map_of_pairs(after).dom().contains(k) implies (
                    #[trigger] map_of_pairs(after)[k]) == map_of_pairs(before).insert(
                        key@,
                        value@,
                    )[k] by {
                        assert(has_key(after, k));
                        let j = choose|j: int|
                            0 <= j < after.len() && (#[trigger] after[j]).0@ == k;
                        assert(map_of_pairs(after)[after[j].0@] == after[j].1@);
                        if j != i {
                            assert(before[j] == after[j]);
                            assert(before[j].0@ != before[i].0@);
                            assert(map_of_pairs(before)[before[j].0@] == before[j].1@);
                        }
                    }
                    assert(before[i].0@ == key@);
                    assert(has_key(before, key@));
                    assert(map_of_pairs(after)[after[i].0@] == after[i].1@);
                    assert forall|k: Seq<char>|
                        map_of_pairs(after).dom().contains(k) <==> #[trigger] map_of_pairs(
                            before,
                        ).insert(key@, value@).dom().contains(k) by {
                        assert(has_key(after, k) <==> has_key(before, k));
                    }
                    assert(map_of_pairs(after) =~= map_of_pairs(before).insert(key@, value@));
                }
                self.entries = entries;
                return ;
            }
            i += 1;
        }
        entries.push((key, value));
        proof {
            let after = entries@;
            assert(after.drop_last() =~= before);
            assert(keys_distinct(after)) by {
                assert forall|a: int, b: int| 0 <= a < b < after.len() implies (
                #[trigger] after[a]).0@ != (#[trigger] after[b]).0@ by {
                    if b < before.len() {
                        assert(before[a].0@ != before[b].0@);
                    } else {
                        assert(before[a].0@ != key@);
                    }
                }
            }
        }
        self.entries = entries;
    }

    /// The mapping that a list of pairs describes; where a key occurs more
    /// than once, the last pair with it counts.
    pub fn from_pairs(pairs: &Vec<(String, String)>) -> (annotations: Annotations)
        ensures
            annotations@ == map_of_pairs(pairs@),
    {
        let mut annotations = Annotations::new();
        let mut i: usize = 0;
        while i < pairs.len()
            invariant
                i <= pairs.len(),
                annotations@ == map_of_pairs(pairs@.subrange(0, i as int)),
            decreases pairs.len() - i,
        {
            proof {
                let next = pairs@.subrange(0, i as int + 1);
                assert(next.drop_last() =~= pairs@.subrange(0, i as int));
                assert(next.last() == pairs@[i as int]);
            }
            annotations.insert(pairs[i].0.clone(), pairs[i].1.clone());
            i += 1;
        }
        assert(pairs@.subrange(0, i as int) =~= pairs@);
        annotations
    }

    /// The pairs of the mapping, each key once, in no order that callers may
    /// rely on.
    pub fn to_pairs(&self) -> (pairs: Vec<(String, String)>)
        ensures
            keys_distinct(pairs@),
            map_of_pairs(pairs@) == self@,
    {
        proof {
            use_type_invariant(self);
        }
        let mut pairs: Vec<(String, String)> = Vec::new();
        let mut i: usize = 0;
        while i < self.entries.len()
            invariant
                i <= self.entries.len(),
                pairs@ == self.entries@.subrange(0, i as int),
            decreases self.entries.len() - i,
        {
            pairs.push((self.entries[i].0.clone(), self.entries[i].1.clone()));
            assert(pairs@ =~= self.entries@.subrange(0, i as int + 1));
            i += 1;
        }
        assert(pairs@ =~= self.entries@);
        pairs
    }

    /// The value that `key` is bound to, if it is bound.
    pub fn get(&self, key: &String) -> (value: Option<&String>)
        ensures
            value.is_some() == self@.dom().contains(key@),
            value matches Some(found) ==> found@ == self@[key@],
    {
        proof {
            use_type_invariant(self);
        }
        let mut i: usize = 0;
        while i < self.entries.len()
            invariant
                i <= self.entries.len(),
                keys_distinct(self.entries@),
                forall|j: int| 0 <= j < i ==> (#[trigger] self.entries@[j]).0@ != key@,
            decreases self.entries.len() - i,
        {
            if self.entries[i].0 == *key {
                proof {
                    lemma_map_of_pairs(self.entries@);
                    assert(self.entries@[i as int].0@ == key@);
                    assert(has_key(self.entries@, key@));
                }
                return Some(&self.entries[i].1);
            }
            i += 1;
        }
        proof {
            lemma_map_of_pairs(self.entries@);
            if has_key(self.entries@, key@) {
                let j = choose|j: int|
                    0 <= j < self.entries@.len() && (#[trigger] self.entries@[j]).0@ == key@;
                assert(self.entries@[j].0@ != key@);
            }
        }
        None
    }
}

impl Clone for Annotations {
    fn clone(&self) -> (copy: Annotations)
        ensures
            copy@ == self@,
    {
        proof {
            use_type_invariant(self);
        }
        let mut entries: Vec<(String, String)> = Vec::new();
        let mut i: usize = 0;
        while i < self.entries.len()
            invariant
                i <= self.entries.len(),
                entries@ == self.entries@.subrange(0, i as int),
            decreases self.entries.len() - i,
        {
            entries.push((self.entries[i].0.clone(), self.entries[i].1.clone()));
            assert(entries@ =~= self.entries@.subrange(0, i as int + 1));
            i += 1;
        }
        assert(entries@ =~= self.entries@);
        Annotations { entries }
    }
}

} // verus!
