//! A set of identifiers, kept as a list without repetition.

use crate::text::texts;
use vstd::prelude::*;
use vstd::string::*;

verus! {

/// A set of identifiers.
pub struct IdSet {
    ids: Vec<String>,
}

impl View for IdSet {
    type V = Set<Seq<char>>;

    closed spec fn view(&self) -> Set<Seq<char>> {
        texts(self.ids@).to_set()
    }
}

impl IdSet {
    #[verifier::type_invariant]
    spec fn no_repetition(self) -> bool {
        texts(self.ids@).no_duplicates()
    }

    /// The identifiers in the order in which they came in.
    pub closed spec fn listed(&self) -> Seq<Seq<char>> {
        texts(self.ids@)
    }

    /// The empty set.
    pub fn new() -> (r: Self)
        ensures
            r@ == Set::<Seq<char>>::empty(),
            r.listed() == Seq::<Seq<char>>::empty(),
    {
        let r = IdSet { ids: Vec::new() };
        assert(texts(r.ids@) =~= Seq::<Seq<char>>::empty());
        assert(r@ =~= Set::<Seq<char>>::empty());
        r
    }

    /// Where `id` stands in the list, if it is in the set.
    fn index_of(&self, id: &str) -> (r: Option<usize>)
        ensures
            r is Some <==> self@.contains(id@),
            r matches Some(i) ==> i < self.ids@.len() && self.ids@[i as int]@ == id@,
    {
        let wanted = String::from_str(id);
        let mut i: usize = 0;
        while i < self.ids.len()
            invariant
                i <= self.ids.len(),
                wanted@ == id@,
                forall|j: int| 0 <= j < i ==> texts(self.ids@)[j] != id@,
            decreases self.ids.len() - i,
        {
            if self.ids[i] == wanted {
                assert(texts(self.ids@)[i as int] == id@);
                return Some(i);
            }
            i += 1;
        }
        None
    }

    /// Whether `id` is in the set.
    pub fn contains(&self, id: &str) -> (b: bool)
        ensures
            b == self@.contains(id@),
    {
        self.index_of(id).is_some()
    }

    /// Puts `id` into the set. Says whether it was new.
    pub fn insert(&mut self, id: &str) -> (fresh: bool)
        ensures
            fresh == !old(self)@.contains(id@),
            final(self)@ == old(self)@.insert(id@),
            final(self).listed() == if fresh {
                old(self).listed().push(id@)
            } else {
                old(self).listed()
            },
    {
        proof {
            use_type_invariant(&*self);
        }
        if self.index_of(id).is_some() {
            assert(self@.insert(id@) =~= self@);
            return false;
        }
        let ghost before = texts(self.ids@);
        let mut ids: Vec<String> = Vec::new();
        assert(texts(ids@) =~= Seq::<Seq<char>>::empty());
        std::mem::swap(&mut self.ids, &mut ids);
        ids.push(String::from_str(id));
        assert(texts(ids@) =~= before.push(id@));
        self.ids = ids;
        proof {
            assert(texts(self.ids@) =~= before.push(id@));
            assert forall|x: Seq<char>| #[trigger]
                before.push(id@).to_set().contains(x) == before.to_set().insert(id@).contains(
                    x,
                ) by {
                if before.contains(x) {
                    let j = choose|j: int| 0 <= j < before.len() && before[j] == x;
                    assert(before.push(id@)[j] == x);
                }
                if x == id@ {
                    assert(before.push(id@)[before.len() as int] == x);
                }
            }
            assert(self@ =~= old(self)@.insert(id@));
        }
        true
    }

    /// Takes `id` out of the set. Says whether it was there.
    pub fn remove(&mut self, id: &str) -> (present: bool)
        ensures
            present == old(self)@.contains(id@),
            final(self)@ == old(self)@.remove(id@),
    {
        proof {
            use_type_invariant(&*self);
        }
        match self.index_of(id) {
            Some(i) => {
                let ghost before = texts(self.ids@);
                let mut ids: Vec<String> = Vec::new();
                assert(texts(ids@) =~= Seq::<Seq<char>>::empty());
                std::mem::swap(&mut self.ids, &mut ids);
                ids.remove(i);
                assert(texts(ids@) =~= before.remove(i as int));
                assert(before.remove(i as int).no_duplicates()) by {
                    let after = before.remove(i as int);
                    assert forall|a: int, b: int|
                        0 <= a < after.len() && 0 <= b < after.len() && a != b implies after[a]
                        != after[b] by {
                        let a0 = if a < i { a } else { a + 1 };
                        let b0 = if b < i { b } else { b + 1 };
                        assert(after[a] == before[a0]);
                        assert(after[b] == before[b0]);
                    }
                }
                self.ids = ids;
                proof {
                    let after = texts(self.ids@);
                    assert(after =~= before.remove(i as int));
                    assert(before[i as int] == id@);
                    assert forall|x: Seq<char>| #[trigger]
                        after.to_set().contains(x) == before.to_set().remove(id@).contains(
                            x,
                        ) by {
                        if after.contains(x) {
                            let j = choose|j: int| 0 <= j < after.len() && after[j] == x;
                            let j0 = if j < i {
                                j
                            } else {
                                j + 1
                            };
                            assert(before[j0] == x);
                            assert(before.contains(x));
                            assert(x != id@);
                        }
                        if before.contains(x) && x != id@ {
                            let j = choose|j: int| 0 <= j < before.len() && before[j] == x;
                            let j1 = if j < i {
                                j
                            } else {
                                j - 1
                            };
                            assert(after[j1] == x);
                            assert(after.contains(x));
                        }
                    }
                    assert(self@ =~= old(self)@.remove(id@));
                }
                true
            },
            None => {
                assert(self@.remove(id@) =~= self@);
                false
            },
        }
    }

    /// The identifiers, in the order in which they came in: no two of them
    /// are the same.
    pub fn to_vec(&self) -> (r: Vec<String>)
        ensures
            texts(r@) == self.listed(),
            texts(r@).no_duplicates(),
            texts(r@).to_set() == self@,
    {
        proof {
            use_type_invariant(self);
        }
        let mut r: Vec<String> = Vec::new();
        let mut i: usize = 0;
        while i < self.ids.len()
            invariant
                i <= self.ids.len(),
                texts(r@) == texts(self.ids@).take(i as int),
            decreases self.ids.len() - i,
        {
            let ghost before = r@;
            let id = self.ids[i].clone();
            r.push(id);
            assert(r@ == before.push(self.ids@[i as int]));
            assert(texts(r@) =~= texts(before).push(self.ids@[i as int]@));
            assert(texts(self.ids@).take(i + 1) =~= texts(self.ids@).take(i as int).push(
                self.ids@[i as int]@,
            ));
            i += 1;
        }
        assert(texts(self.ids@).take(i as int) =~= texts(self.ids@));
        r
    }
}

} // verus!
