//! The machine's storage: a conceptually infinite tape of symbols indexed by
//! signed position, materialized lazily as a contiguous window plus an offset.
//!
//! Every position outside the materialized window reads as [`Symbol::Blank`];
//! growing the window never changes the symbol at any absolute position.

use vstd::prelude::*;
use crate::symbol::Symbol;

verus! {

/// A growable, bidirectionally extending tape. `cells[i]` holds the symbol at
/// absolute position `offset + i`; everything outside the window is blank.
pub struct Tape {
    cells: Vec<Symbol>,
    offset: i64,
}

impl Tape {
    /// The lowest materialized position.
    pub closed spec fn lo(self) -> int {
        self.offset as int
    }

    /// One past the highest materialized position.
    pub closed spec fn hi(self) -> int {
        self.offset + self.cells@.len()
    }

    /// The symbol at absolute position `p`: the materialized cell inside the
    /// window, blank everywhere else. This is the tape's whole model; no
    /// operation ever changes it except `write`, at the written position.
    pub closed spec fn at(self, p: int) -> Symbol {
        if self.lo() <= p < self.hi() {
            self.cells@[p - self.lo()]
        } else {
            Symbol::Blank
        }
    }

    /// The window always covers the origin and never shrinks.
    pub open spec fn wf(self) -> bool {
        self.lo() <= 0 < self.hi()
    }

    /// The lowest position of the window once grown to cover `p`.
    pub open spec fn grown_lo(self, p: int) -> int {
        if p < self.lo() {
            p
        } else {
            self.lo()
        }
    }

    /// One past the highest position of the window once grown to cover `p`.
    pub open spec fn grown_hi(self, p: int) -> int {
        if p + 1 > self.hi() {
            p + 1
        } else {
            self.hi()
        }
    }

    /// The machine limits under which the window can grow to cover `p`: the
    /// distance to the window fits the index arithmetic and the grown window
    /// still fits in memory.
    pub open spec fn can_reach(self, p: int) -> bool {
        &&& self.lo() - p <= i64::MAX
        &&& p - self.lo() <= i64::MAX
        &&& self.grown_hi(p) - self.grown_lo(p) <= usize::MAX
    }

    /// A fresh all-blank tape whose initial window covers positions -50..=50.
    pub fn new() -> (t: Tape)
        ensures
            t.wf(),
            t.lo() == -50,
            t.hi() == 51,
            forall|p: int| t.at(p) == Symbol::Blank,
    {
        let mut cells: Vec<Symbol> = Vec::new();
        while cells.len() < 101
            invariant
                cells@.len() <= 101,
                forall|i: int| 0 <= i < cells@.len() ==> cells@[i] == Symbol::Blank,
            decreases 101 - cells@.len(),
        {
            cells.push(Symbol::Blank);
        }
        Tape { cells, offset: -50 }
    }

    /// Materializes position `pos`: prepends or appends exactly the blank
    /// cells needed so the window covers it. The symbol at every absolute
    /// position is preserved verbatim.
    #[verifier::loop_isolation(false)]
    pub fn ensure(&mut self, pos: i64)
        requires
            old(self).wf(),
            old(self).can_reach(pos as int),
        ensures
            final(self).wf(),
            final(self).lo() == old(self).grown_lo(pos as int),
            final(self).hi() == old(self).grown_hi(pos as int),
            final(self).lo() <= pos < final(self).hi(),
            forall|p: int| final(self).at(p) == old(self).at(p),
    {
        let idx: i64 = pos - self.offset;
        if idx < 0 {
            let extra: usize = (-idx) as usize;
            let mut grown: Vec<Symbol> = Vec::new();
            while grown.len() < extra
                invariant
                    grown@.len() <= extra,
                    forall|i: int| 0 <= i < grown@.len() ==> grown@[i] == Symbol::Blank,
                decreases extra - grown@.len(),
            {
                grown.push(Symbol::Blank);
            }
            let mut j: usize = 0;
            while j < self.cells.len()
                invariant
                    j <= self.cells@.len(),
                    grown@.len() == extra + j,
                    forall|i: int| 0 <= i < extra ==> grown@[i] == Symbol::Blank,
                    forall|i: int| 0 <= i < j ==> grown@[extra + i] == self.cells@[i],
                decreases self.cells@.len() - j,
            {
                grown.push(self.cells[j]);
                j = j + 1;
            }
            self.cells = grown;
            self.offset = pos;
            assert forall|p: int| self.at(p) == old(self).at(p) by {
                if old(self).lo() <= p < old(self).hi() {
                    assert(self.cells@[p - self.lo()] == old(self).cells@[p - old(self).lo()]);
                }
            }
        } else {
            let idx_u: usize = idx as usize;
            if idx_u >= self.cells.len() {
                while self.cells.len() < idx_u + 1
                    invariant
                        old(self).cells@.len() <= self.cells@.len() <= idx_u + 1,
                        self.offset == old(self).offset,
                        forall|i: int|
                            0 <= i < old(self).cells@.len() ==> self.cells@[i] == old(
                                self,
                            ).cells@[i],
                        forall|i: int|
                            old(self).cells@.len() <= i < self.cells@.len() ==> self.cells@[i]
                                == Symbol::Blank,
                    decreases idx_u + 1 - self.cells@.len(),
                {
                    self.cells.push(Symbol::Blank);
                }
            }
        }
    }

    /// Reads the symbol at `pos`, materializing the position first; a position
    /// never written reads blank.
    pub fn read(&mut self, pos: i64) -> (r: Symbol)
        requires
            old(self).wf(),
            old(self).can_reach(pos as int),
        ensures
            r == old(self).at(pos as int),
            final(self).wf(),
            final(self).lo() == old(self).grown_lo(pos as int),
            final(self).hi() == old(self).grown_hi(pos as int),
            forall|p: int| final(self).at(p) == old(self).at(p),
    {
        self.ensure(pos);
        let i: usize = (pos - self.offset) as usize;
        self.cells[i]
    }

    /// Writes `sym` at `pos`, materializing the position first. No other
    /// position changes.
    pub fn write(&mut self, pos: i64, sym: Symbol)
        requires
            old(self).wf(),
            old(self).can_reach(pos as int),
        ensures
            final(self).wf(),
            final(self).lo() == old(self).grown_lo(pos as int),
            final(self).hi() == old(self).grown_hi(pos as int),
            final(self).at(pos as int) == sym,
            forall|p: int| p != pos ==> final(self).at(p) == old(self).at(p),
    {
        self.ensure(pos);
        let i: usize = (pos - self.offset) as usize;
        self.cells[i] = sym;
    }
}

} // verus!
