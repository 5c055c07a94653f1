use vstd::prelude::*;

verus! {

/// The set of request ids currently marked canceled. One instance is
/// shared by every in-flight stream; the streaming client consults it
/// at each suspension point and clears an id when its stream reaches a
/// terminal state, so a reused id is never seen as pre-canceled.
pub struct CancellationRegistry {
    ids: Vec<String>,
}

impl View for CancellationRegistry {
    type V = Set<Seq<char>>;

    closed spec fn view(&self) -> Set<Seq<char>> {
        Set::new(|x: Seq<char>| exists|i: int| 0 <= i < self.ids@.len() && self.ids@[i]@ == x)
    }
}

impl CancellationRegistry {
    /// A registry with nothing marked.
    pub fn new() -> (r: CancellationRegistry)
        ensures
            r@ == Set::<Seq<char>>::empty(),
    {
        let r = CancellationRegistry { ids: Vec::new() };
        proof {
            assert(r@ =~= Set::<Seq<char>>::empty());
        }
        r
    }

    /// Whether `id` is currently marked canceled.
    pub fn is_canceled(&self, id: &String) -> (r: bool)
        ensures
            r == self@.contains(id@),
    {
        let mut i: usize = 0;
        while i < self.ids.len()
            invariant
                i <= self.ids@.len(),
                forall|j: int| 0 <= j < i ==> self.ids@[j]@ != id@,
            decreases self.ids@.len() - i,
        {
            if self.ids[i] == *id {
                proof {
                    assert(self@.contains(id@));
                }
                return true;
            }
            i = i + 1;
        }
        proof {
            assert(!self@.contains(id@));
        }
        false
    }

    /// Marks `id` canceled. Idempotent: marking an id already present
    /// changes nothing.
    pub fn mark_canceled(&mut self, id: &String)
        ensures
            final(self)@ == old(self)@.insert(id@),
    {
        if self.is_canceled(id) {
            proof {
                assert(self@ =~= old(self)@.insert(id@));
            }
        } else {
            let ghost before = self.ids@;
            self.ids.push(id.clone());
            proof {
                assert forall|x: Seq<char>| self@.contains(x) implies old(self)@.insert(
                    id@,
                ).contains(x) by {
                    let i = choose|i: int| 0 <= i < self.ids@.len() && self.ids@[i]@ == x;
                    if i < before.len() {
                        assert(before[i]@ == x);
                    }
                }
                assert forall|x: Seq<char>| old(self)@.insert(id@).contains(x) implies
                    self@.contains(x) by {
                    if x == id@ {
                        assert(self.ids@[before.len() as int]@ == x);
                    } else {
                        let i = choose|i: int| 0 <= i < before.len() && before[i]@ == x;
                        assert(self.ids@[i]@ == x);
                    }
                }
                assert(self@ =~= old(self)@.insert(id@));
            }
        }
    }

    /// Removes `id` unconditionally; removing an absent id is a no-op.
    pub fn clear(&mut self, id: &String)
        ensures
            final(self)@ == old(self)@.remove(id@),
    {
        let mut kept: Vec<String> = Vec::new();
        let mut i: usize = 0;
        while i < self.ids.len()
            invariant
                i <= self.ids@.len(),
                forall|j: int| 0 <= j < kept@.len() ==> #[trigger] kept@[j]@ != id@,
                forall|j: int| 0 <= j < kept@.len() ==> exists|k: int|
                    0 <= k < i && self.ids@[k]@ == #[trigger] kept@[j]@,
                forall|k: int| 0 <= k < i && self.ids@[k]@ != id@ ==> exists|j: int|
                    0 <= j < kept@.len() && kept@[j]@ == #[trigger] self.ids@[k]@,
            decreases self.ids@.len() - i,
        {
            let ghost kept_before = kept@;
            if !(self.ids[i] == *id) {
                kept.push(self.ids[i].clone());
            }
            proof {
                assert forall|k: int| 0 <= k < i + 1 && self.ids@[k]@ != id@ implies exists|
                    j: int,
                |
                    0 <= j < kept@.len() && kept@[j]@ == #[trigger] self.ids@[k]@ by {
                    if k < i {
                        let j = choose|j: int|
                            0 <= j < kept_before.len() && kept_before[j]@ == self.ids@[k]@;
                        assert(kept@[j]@ == self.ids@[k]@);
                    } else {
                        assert(kept@[kept@.len() - 1]@ == self.ids@[k]@);
                    }
                }
            }
            i = i + 1;
        }
        proof {
            let ghost before = self.ids@;
            assert forall|x: Seq<char>| old(self)@.remove(id@).contains(x) implies exists|j: int|
                0 <= j < kept@.len() && kept@[j]@ == x by {
                let k = choose|k: int| 0 <= k < before.len() && before[k]@ == x;
                assert(before[k]@ != id@);
            }
        }
        self.ids = kept;
        proof {
            assert forall|x: Seq<char>| self@.contains(x) implies old(self)@.remove(
                id@,
            ).contains(x) by {
                let j = choose|j: int| 0 <= j < self.ids@.len() && self.ids@[j]@ == x;
                let k = choose|k: int|
                    0 <= k < old(self).ids@.len() && old(self).ids@[k]@ == self.ids@[j]@;
                assert(old(self)@.contains(x));
            }
            assert(self@ =~= old(self)@.remove(id@));
        }
    }
}

/// Law: marking an id canceled twice leaves the registry exactly as
/// marking it once does.
pub proof fn lemma_mark_canceled_idempotent(marked: Set<Seq<char>>, id: Seq<char>)
    ensures
        marked.insert(id).insert(id) == marked.insert(id),
{
    assert(marked.insert(id).insert(id) =~= marked.insert(id));
}

/// Law: clearing an id that is not marked is a no-op.
pub proof fn lemma_clear_absent_noop(marked: Set<Seq<char>>, id: Seq<char>)
    requires
        !marked.contains(id),
    ensures
        marked.remove(id) == marked,
{
    assert(marked.remove(id) =~= marked);
}

} // verus!
