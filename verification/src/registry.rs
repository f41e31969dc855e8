//! The breakpoint registry: the set of state names on whose entry a run
//! pauses. Per-transition breakpoints live on the transitions themselves.

use vstd::prelude::*;

verus! {

/// A set of state names with toggle semantics: toggling a name adds it when
/// absent and removes it when present.
pub struct BreakpointRegistry {
    states: Vec<String>,
}

impl View for BreakpointRegistry {
    type V = Set<Seq<char>>;

    closed spec fn view(&self) -> Set<Seq<char>> {
        Set::new(
            |n: Seq<char>|
                exists|i: int| 0 <= i < self.states@.len() && #[trigger] self.states@[i]@ == n,
        )
    }
}

impl BreakpointRegistry {
    /// Each name is stored at most once, so removing a name's one entry
    /// removes it from the set.
    pub closed spec fn wf(self) -> bool {
        forall|i: int, j: int|
            0 <= i < j < self.states@.len() ==> #[trigger] self.states@[i]@ != #[trigger] self.states@[j]@
    }

    /// An empty registry.
    pub fn new() -> (r: BreakpointRegistry)
        ensures
            r.wf(),
            r@ == Set::<Seq<char>>::empty(),
    {
        BreakpointRegistry { states: Vec::new() }
    }

    /// Whether a pause is registered for the state named `name`.
    pub fn contains_state(&self, name: &String) -> (r: bool)
        ensures
            r == self@.contains(name@),
    {
        let n = self.states.len();
        let mut i: usize = 0;
        while i < n
            invariant
                i <= n,
                n == self.states@.len(),
                forall|j: int| 0 <= j < i ==> #[trigger] self.states@[j]@ != name@,
            decreases n - i,
        {
            if self.states[i] == *name {
                return true;
            }
            i = i + 1;
        }
        false
    }

    /// The registered names as an ordered listing, for rendering: it holds
    /// exactly the names of the set, each once.
    pub fn names(&self) -> (r: &Vec<String>)
        requires
            self.wf(),
        ensures
            forall|i: int| 0 <= i < r@.len() ==> self@.contains(#[trigger] r@[i]@),
            forall|n: Seq<char>|
                self@.contains(n) ==> exists|i: int| 0 <= i < r@.len() && #[trigger] r@[i]@ == n,
            forall|i: int, j: int| 0 <= i < j < r@.len() ==> #[trigger] r@[i]@ != #[trigger] r@[j]@,
    {
        &self.states
    }

    /// Adds `name` when absent, removes it when present: toggling twice
    /// restores the registry.
    #[verifier::loop_isolation(false)]
    pub fn toggle_state(&mut self, name: &String)
        requires
            old(self).wf(),
        ensures
            final(self).wf(),
            old(self)@.contains(name@) ==> final(self)@ == old(self)@.remove(name@),
            !old(self)@.contains(name@) ==> final(self)@ == old(self)@.insert(name@),
    {
        let n = self.states.len();
        let mut i: usize = 0;
        while i < n
            invariant
                i <= n,
                n == self.states@.len(),
                self == old(self),
                forall|j: int| 0 <= j < i ==> #[trigger] self.states@[j]@ != name@,
            decreases n - i,
        {
            if self.states[i] == *name {
                self.states.remove(i);
                proof {
                    old(self).states@.remove_ensures(i as int);
                    assert forall|a: int, b: int|
                        0 <= a < b < self.states@.len() implies self.states@[a]@
                        != self.states@[b]@ by {
                        if a < i {
                            assert(old(self).states@.remove(i as int)[a] == old(self).states@[a]);
                        } else {
                            assert(old(self).states@.remove(i as int)[a] == old(
                                self,
                            ).states@[a + 1]);
                        }
                        if b < i {
                            assert(old(self).states@.remove(i as int)[b] == old(self).states@[b]);
                        } else {
                            assert(old(self).states@.remove(i as int)[b] == old(
                                self,
                            ).states@[b + 1]);
                        }
                    }
                    assert forall|m: Seq<char>|
                        self@.contains(m) <==> old(self)@.remove(name@).contains(m) by {
                        assert(old(self).states@[i as int]@ == name@);
                        if self@.contains(m) {
                            let k = choose|k: int|
                                0 <= k < self.states@.len() && #[trigger] self.states@[k]@ == m;
                            if k < i {
                                assert(old(self).states@.remove(i as int)[k] == old(
                                    self,
                                ).states@[k]);
                                assert(old(self).states@[k]@ == m);
                            } else {
                                assert(old(self).states@.remove(i as int)[k] == old(
                                    self,
                                ).states@[k + 1]);
                                assert(old(self).states@[k + 1]@ == m);
                            }
                        }
                        if old(self)@.remove(name@).contains(m) {
                            let k = choose|k: int|
                                0 <= k < old(self).states@.len() && #[trigger] old(
                                    self,
                                ).states@[k]@ == m;
                            if k < i {
                                assert(old(self).states@.remove(i as int)[k] == old(
                                    self,
                                ).states@[k]);
                                assert(self.states@[k]@ == m);
                            } else if k > i {
                                assert(old(self).states@.remove(i as int)[k - 1] == old(
                                    self,
                                ).states@[k]);
                                assert(self.states@[k - 1]@ == m);
                            }
                        }
                    }
                    assert(self@ =~= old(self)@.remove(name@));
                }
                return ;
            }
            i = i + 1;
        }
        self.states.push(name.clone());
        proof {
            assert(self.states@[self.states@.len() - 1]@ == name@);
            assert forall|a: int, b: int|
                0 <= a < b < self.states@.len() implies self.states@[a]@ != self.states@[b]@ by {
                if b < self.states@.len() - 1 {
                    assert(old(self).states@[a]@ != old(self).states@[b]@);
                } else {
                    assert(old(self).states@[a]@ != name@);
                }
            }
            assert forall|m: Seq<char>|
                self@.contains(m) <==> old(self)@.insert(name@).contains(m) by {
                if self@.contains(m) {
                    let k = choose|k: int|
                        0 <= k < self.states@.len() && #[trigger] self.states@[k]@ == m;
                    if k < self.states@.len() - 1 {
                        assert(old(self).states@[k]@ == m);
                    }
                }
                if old(self)@.contains(m) {
                    let k = choose|k: int|
                        0 <= k < old(self).states@.len() && #[trigger] old(self).states@[k]@ == m;
                    assert(self.states@[k]@ == m);
                }
            }
            assert(self@ =~= old(self)@.insert(name@));
        }
    }
}

} // verus!
