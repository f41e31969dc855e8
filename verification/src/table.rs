//! The deterministic rule set: an ordered list of transitions looked up by
//! `(current state, read symbol)` key.
//!
//! Lookup is by key, not position, and returns the first match; insertion
//! rejects a key that is already present, so a table built through `add`
//! alone never holds two rules for one key. Index-based `update` and
//! `remove` exist for listing collaborators, for which the order is part of
//! the contract.

use vstd::prelude::*;
use crate::symbol::{Direction, Symbol};

verus! {

/// One rule of the machine: in `current_state`, reading `read_symbol`, go to
/// `new_state`, write `write_symbol`, move the head in `direction`. The
/// `has_breakpoint` flag pauses the run whenever the rule fires.
#[derive(Debug, Clone)]
pub struct Transition {
    pub current_state: String,
    pub read_symbol: Symbol,
    pub new_state: String,
    pub write_symbol: Symbol,
    pub direction: Direction,
    pub has_breakpoint: bool,
}

/// The mathematical image of a [`Transition`]: state names as character
/// sequences, everything else as itself.
pub ghost struct SpecTransition {
    pub current_state: Seq<char>,
    pub read_symbol: Symbol,
    pub new_state: Seq<char>,
    pub write_symbol: Symbol,
    pub direction: Direction,
    pub has_breakpoint: bool,
}

impl View for Transition {
    type V = SpecTransition;

    open spec fn view(&self) -> SpecTransition {
        SpecTransition {
            current_state: self.current_state@,
            read_symbol: self.read_symbol,
            new_state: self.new_state@,
            write_symbol: self.write_symbol,
            direction: self.direction,
            has_breakpoint: self.has_breakpoint,
        }
    }
}

/// Whether `t`'s lookup key is `(state, sym)`.
pub open spec fn key_matches(t: SpecTransition, state: Seq<char>, sym: Symbol) -> bool {
    t.current_state == state && t.read_symbol == sym
}

/// Whether some transition in `tbl` has the key `(state, sym)`.
pub open spec fn has_match(tbl: Seq<SpecTransition>, state: Seq<char>, sym: Symbol) -> bool {
    exists|i: int| 0 <= i < tbl.len() && key_matches(#[trigger] tbl[i], state, sym)
}

/// Whether `i` is the first index in `tbl` whose transition has the key
/// `(state, sym)`.
pub open spec fn match_at(tbl: Seq<SpecTransition>, state: Seq<char>, sym: Symbol, i: int) -> bool {
    &&& 0 <= i < tbl.len()
    &&& key_matches(tbl[i], state, sym)
    &&& forall|j: int| 0 <= j < i ==> !key_matches(#[trigger] tbl[j], state, sym)
}

/// Lookup is deterministic: at most one index is the first match for a key.
pub proof fn lemma_match_at_unique(
    tbl: Seq<SpecTransition>,
    state: Seq<char>,
    sym: Symbol,
    i: int,
    j: int,
)
    requires
        match_at(tbl, state, sym, i),
        match_at(tbl, state, sym, j),
    ensures
        i == j,
{
}

/// The ordered collection of transitions.
pub struct TransitionTable {
    items: Vec<Transition>,
}

impl View for TransitionTable {
    type V = Seq<SpecTransition>;

    closed spec fn view(&self) -> Seq<SpecTransition> {
        self.items@.map_values(|t: Transition| t@)
    }
}

impl TransitionTable {
    /// An empty table.
    pub fn new() -> (t: TransitionTable)
        ensures
            t@.len() == 0,
    {
        TransitionTable { items: Vec::new() }
    }

    /// How many transitions the table holds.
    pub fn len(&self) -> (n: usize)
        ensures
            n == self@.len(),
    {
        self.items.len()
    }

    /// The transition at position `i` of the ordered listing.
    pub fn get(&self, i: usize) -> (t: &Transition)
        requires
            i < self@.len(),
        ensures
            t@ == self@[i as int],
    {
        &self.items[i]
    }

    /// The position of the first transition whose key is `(state, sym)`, or
    /// none when no transition has that key.
    pub fn find(&self, state: &String, sym: Symbol) -> (r: Option<usize>)
        ensures
            match r {
                Some(i) => match_at(self@, state@, sym, i as int),
                None => !has_match(self@, state@, sym),
            },
    {
        let n = self.items.len();
        let mut i: usize = 0;
        while i < n
            invariant
                i <= n,
                n == self@.len(),
                forall|j: int| 0 <= j < i ==> !key_matches(#[trigger] self@[j], state@, sym),
            decreases n - i,
        {
            if self.items[i].current_state == *state && self.items[i].read_symbol == sym {
                return Some(i);
            }
            i = i + 1;
        }
        None
    }

    /// Appends `t` iff no transition already has `t`'s key; on a duplicate
    /// key the table is left unchanged and `false` signals the rejection.
    pub fn add(&mut self, t: Transition) -> (r: bool)
        ensures
            r == !has_match(old(self)@, t@.current_state, t@.read_symbol),
            r ==> final(self)@ == old(self)@.push(t@),
            !r ==> final(self)@ == old(self)@,
    {
        match self.find(&t.current_state, t.read_symbol) {
            Option::None => {
                self.items.push(t);
                true
            },
            Option::Some(_) => false,
        }
    }

    /// Replaces the transition at position `i` with `t`, unconditionally: no
    /// duplicate-key check is made against the rest of the table, so the
    /// caller is responsible for not creating a second rule for a key that
    /// exists elsewhere.
    pub fn update(&mut self, i: usize, t: Transition)
        requires
            i < old(self)@.len(),
        ensures
            final(self)@ == old(self)@.update(i as int, t@),
    {
        self.items[i] = t;
    }

    /// Deletes the transition at position `i`; later positions shift down by
    /// one.
    pub fn remove(&mut self, i: usize)
        requires
            i < old(self)@.len(),
        ensures
            final(self)@ == old(self)@.remove(i as int),
    {
        self.items.remove(i);
    }

    /// Flips the breakpoint flag of the transition at position `i`; nothing
    /// else about it changes.
    pub fn toggle_breakpoint(&mut self, i: usize)
        requires
            i < old(self)@.len(),
        ensures
            final(self)@ == old(self)@.update(
                i as int,
                SpecTransition { has_breakpoint: !old(self)@[i as int].has_breakpoint, ..old(self)@[i as int] },
            ),
    {
        let current_state = self.items[i].current_state.clone();
        let new_state = self.items[i].new_state.clone();
        let read_symbol = self.items[i].read_symbol;
        let write_symbol = self.items[i].write_symbol;
        let direction = self.items[i].direction;
        let has_breakpoint = self.items[i].has_breakpoint;
        self.items[i] = Transition {
            current_state,
            read_symbol,
            new_state,
            write_symbol,
            direction,
            has_breakpoint: !has_breakpoint,
        };
    }
}

} // verus!
