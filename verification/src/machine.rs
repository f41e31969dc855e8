//! The execution engine: tape, transition table, breakpoint registry, head
//! position, current state and step counter, composed with the run-control
//! state machine that `step` and `reset` drive.

use vstd::prelude::*;
use crate::registry::BreakpointRegistry;
use crate::symbol::{dir_delta, Direction, Symbol};
use crate::table::{has_match, lemma_match_at_unique, match_at, SpecTransition, Transition,
    TransitionTable};
use crate::tape::Tape;

verus! {

/// The machine's lifecycle phase. `Accepted` and `Rejected` are terminal:
/// once entered, `step` makes no further mutation. `Idle` and `Running`
/// differ only in how the driver schedules `step` calls.
#[derive(Clone, Copy, Debug, PartialEq, Eq, Structural)]
pub enum RunStatus {
    Idle,
    Running,
    Accepted,
    Rejected,
}

/// Whether a status is one of the two terminal outcomes.
pub open spec fn is_terminal(s: RunStatus) -> bool {
    s == RunStatus::Accepted || s == RunStatus::Rejected
}

impl RunStatus {
    /// The text under which a status is displayed.
    pub fn display(&self) -> (r: &'static str)
        ensures
            *self == RunStatus::Idle ==> r@ == "Idle"@,
            *self == RunStatus::Running ==> r@ == "Running"@,
            *self == RunStatus::Accepted ==> r@ == "Accepted"@,
            *self == RunStatus::Rejected ==> r@ == "Rejected"@,
    {
        match self {
            RunStatus::Idle => "Idle",
            RunStatus::Running => "Running",
            RunStatus::Accepted => "Accepted",
            RunStatus::Rejected => "Rejected",
        }
    }
}

/// The driver's default stepping interval, and the closed range a requested
/// interval is clamped to.
pub const DEFAULT_SPEED_MS: u32 = 500;

pub const MIN_SPEED_MS: u32 = 50;

pub const MAX_SPEED_MS: u32 = 2000;

/// A deterministic single-tape Turing machine together with its run state.
pub struct TuringMachine {
    tape: Tape,
    head_pos: i64,
    current_state: String,
    start_state: String,
    accept_state: String,
    reject_state: String,
    table: TransitionTable,
    breakpoints: BreakpointRegistry,
    step_count: u64,
    status: RunStatus,
    timer_speed_ms: u32,
}

impl TuringMachine {
    /// The head's absolute tape position.
    pub closed spec fn spec_head(self) -> int {
        self.head_pos as int
    }

    /// The name of the state the machine is in.
    pub closed spec fn spec_current_state(self) -> Seq<char> {
        self.current_state@
    }

    /// The configured start-state name.
    pub closed spec fn spec_start_state(self) -> Seq<char> {
        self.start_state@
    }

    /// The configured accept-state name.
    pub closed spec fn spec_accept_state(self) -> Seq<char> {
        self.accept_state@
    }

    /// The configured reject-state name.
    pub closed spec fn spec_reject_state(self) -> Seq<char> {
        self.reject_state@
    }

    /// The ordered transition table.
    pub closed spec fn spec_table(self) -> Seq<SpecTransition> {
        self.table@
    }

    /// The set of state names that pause a run on entry.
    pub closed spec fn spec_breakpoints(self) -> Set<Seq<char>> {
        self.breakpoints@
    }

    /// How many transitions have been executed since the last reset.
    pub closed spec fn spec_step_count(self) -> int {
        self.step_count as int
    }

    /// The run-control status.
    pub closed spec fn spec_status(self) -> RunStatus {
        self.status
    }

    /// The stepping interval in time units.
    pub closed spec fn spec_speed(self) -> int {
        self.timer_speed_ms as int
    }

    /// The symbol at absolute tape position `p`.
    pub closed spec fn spec_tape_at(self, p: int) -> Symbol {
        self.tape.at(p)
    }

    /// The lowest materialized tape position.
    pub closed spec fn spec_tape_lo(self) -> int {
        self.tape.lo()
    }

    /// One past the highest materialized tape position.
    pub closed spec fn spec_tape_hi(self) -> int {
        self.tape.hi()
    }

    /// The engine's invariant: the tape window is well formed, the registry
    /// holds each name once, and the head sits inside the window or at most
    /// one cell beyond either edge (it moves one cell per step and every
    /// step first materializes the cell under it).
    pub closed spec fn wf(self) -> bool {
        &&& self.tape.wf()
        &&& self.breakpoints.wf()
        &&& self.spec_tape_lo() - 1 <= self.spec_head() <= self.spec_tape_hi()
    }

    /// Whether the machine is neither terminal nor standing in the accept or
    /// reject state: exactly then does `step` consult the tape and the table.
    pub open spec fn mid_run(self) -> bool {
        &&& !is_terminal(self.spec_status())
        &&& self.spec_current_state() != self.spec_accept_state()
        &&& self.spec_current_state() != self.spec_reject_state()
    }

    /// Machine limit: the window can still grow by the one cell a step may
    /// materialize under the head.
    pub open spec fn tape_room(self) -> bool {
        &&& self.spec_tape_hi() - self.spec_tape_lo() + 1 <= usize::MAX
        &&& self.spec_tape_hi() - self.spec_tape_lo() + 1 <= i64::MAX
    }

    /// Machine limit: the head can move one cell either way and the step
    /// counter can count one more step.
    pub open spec fn move_room(self) -> bool {
        &&& i64::MIN < self.spec_head() < i64::MAX
        &&& self.spec_step_count() < u64::MAX
    }

    /// The machine limits a `step` call needs: room to materialize the cell
    /// under the head when the tape will be read, and room to move and count
    /// when a transition will fire. On a machine already stopped, nothing.
    pub open spec fn step_fits(self) -> bool {
        &&& (self.mid_run() ==> self.tape_room())
        &&& (self.mid_run() && has_match(
            self.spec_table(),
            self.spec_current_state(),
            self.spec_tape_at(self.spec_head()),
        ) ==> self.move_room())
    }

    /// Machine limit under which a display window of `width` cells centered
    /// on `center` can be materialized: the window's positions fit the
    /// position arithmetic, and the tape window grown over all of them still
    /// fits in memory.
    pub open spec fn can_window(self, center: int, width: int) -> bool {
        ({
            let start = center - width / 2;
            let glo = if start < self.spec_tape_lo() {
                start
            } else {
                self.spec_tape_lo()
            };
            let ghi = if start + width > self.spec_tape_hi() {
                start + width
            } else {
                self.spec_tape_hi()
            };
            width > 0 ==> {
                &&& i64::MIN <= start
                &&& start + width - 1 <= i64::MAX
                &&& ghi - glo <= usize::MAX
                &&& ghi - glo <= i64::MAX
            }
        })
    }

    /// Machine limit under which tape position `p` can be materialized.
    pub open spec fn tape_reach(self, p: int) -> bool {
        &&& self.spec_tape_lo() - p <= i64::MAX
        &&& p - self.spec_tape_lo() <= i64::MAX
        &&& (if p < self.spec_tape_lo() {
            self.spec_tape_hi() - p
        } else if p + 1 > self.spec_tape_hi() {
            p + 1 - self.spec_tape_lo()
        } else {
            self.spec_tape_hi() - self.spec_tape_lo()
        }) <= usize::MAX
    }
}

/// Whether two machines agree on everything a driver can observe except the
/// run status: head, current state, step counter, tape window and contents.
pub open spec fn same_but_status(pre: TuringMachine, post: TuringMachine) -> bool {
    &&& post.spec_head() == pre.spec_head()
    &&& post.spec_current_state() == pre.spec_current_state()
    &&& post.spec_step_count() == pre.spec_step_count()
    &&& post.spec_tape_lo() == pre.spec_tape_lo()
    &&& post.spec_tape_hi() == pre.spec_tape_hi()
    &&& forall|p: int| post.spec_tape_at(p) == pre.spec_tape_at(p)
}

/// Whether two machines agree on the whole run state, status included.
pub open spec fn same_run_state(pre: TuringMachine, post: TuringMachine) -> bool {
    &&& same_but_status(pre, post)
    &&& post.spec_status() == pre.spec_status()
}

/// Whether two machines agree on the user-authored configuration: the three
/// state names, the transition table, the breakpoints, and the speed.
pub open spec fn same_config(pre: TuringMachine, post: TuringMachine) -> bool {
    &&& post.spec_start_state() == pre.spec_start_state()
    &&& post.spec_accept_state() == pre.spec_accept_state()
    &&& post.spec_reject_state() == pre.spec_reject_state()
    &&& post.spec_table() == pre.spec_table()
    &&& post.spec_breakpoints() == pre.spec_breakpoints()
    &&& post.spec_speed() == pre.spec_speed()
}

impl TuringMachine {
    /// A fresh machine: all-blank tape with its initial window over
    /// -50..=50, head at 0, states `q0` (start, current), `qa` (accept),
    /// `qr` (reject), empty table and registry, step counter 0, status
    /// `Idle`, default speed.
    pub fn new() -> (m: TuringMachine)
        ensures
            m.wf(),
            m.spec_head() == 0,
            m.spec_current_state() == "q0"@,
            m.spec_start_state() == "q0"@,
            m.spec_accept_state() == "qa"@,
            m.spec_reject_state() == "qr"@,
            m.spec_table().len() == 0,
            m.spec_breakpoints() == Set::<Seq<char>>::empty(),
            m.spec_step_count() == 0,
            m.spec_status() == RunStatus::Idle,
            m.spec_speed() == DEFAULT_SPEED_MS,
            m.spec_tape_lo() == -50,
            m.spec_tape_hi() == 51,
            forall|p: int| m.spec_tape_at(p) == Symbol::Blank,
    {
        TuringMachine {
            tape: Tape::new(),
            head_pos: 0,
            current_state: "q0".to_owned(),
            start_state: "q0".to_owned(),
            accept_state: "qa".to_owned(),
            reject_state: "qr".to_owned(),
            table: TransitionTable::new(),
            breakpoints: BreakpointRegistry::new(),
            step_count: 0,
            status: RunStatus::Idle,
            timer_speed_ms: DEFAULT_SPEED_MS,
        }
    }

    /// Performs one step of the machine and reports whether the driver may
    /// schedule another. In order: a terminal machine does nothing; a
    /// machine standing in the accept or reject state becomes terminal;
    /// otherwise the symbol under the head is read and the table consulted.
    /// No rule for `(current state, symbol)` rejects the machine without
    /// moving anything. A rule writes its symbol, switches the state, moves
    /// the head one cell and counts one step; entering the accept or reject
    /// state then stops the run terminally, and a breakpoint (on the rule or
    /// on the entered state) pauses it without touching the status.
    pub fn step(&mut self) -> (r: bool)
        requires
            old(self).wf(),
            old(self).step_fits(),
        ensures
            final(self).wf(),
            same_config(*old(self), *final(self)),
            // Already terminal: nothing happens.
            is_terminal(old(self).spec_status()) ==> r == false && same_run_state(
                *old(self),
                *final(self),
            ),
            // Standing in the accept state: the run ends, nothing else moves.
            ({
                let pre = *old(self);
                !is_terminal(pre.spec_status()) && pre.spec_current_state()
                    == pre.spec_accept_state() ==> r == false && final(self).spec_status()
                    == RunStatus::Accepted && same_but_status(pre, *final(self))
            }),
            // Standing in the reject state: the run ends, nothing else moves.
            ({
                let pre = *old(self);
                !is_terminal(pre.spec_status()) && pre.spec_current_state()
                    != pre.spec_accept_state() && pre.spec_current_state()
                    == pre.spec_reject_state() ==> r == false && final(self).spec_status()
                    == RunStatus::Rejected && same_but_status(pre, *final(self))
            }),
            // Otherwise the cell under the head is materialized and read; the
            // window grows to cover it and no symbol changes by the read.
            ({
                let pre = *old(self);
                pre.mid_run() ==> {
                    &&& final(self).spec_tape_lo() == (if pre.spec_head() < pre.spec_tape_lo() {
                        pre.spec_head()
                    } else {
                        pre.spec_tape_lo()
                    })
                    &&& final(self).spec_tape_hi() == (if pre.spec_head() + 1
                        > pre.spec_tape_hi() {
                        pre.spec_head() + 1
                    } else {
                        pre.spec_tape_hi()
                    })
                }
            }),
            // No rule for the read symbol: rejected, with no change to the
            // tape contents, head position, current state or step counter.
            ({
                let pre = *old(self);
                pre.mid_run() && !has_match(
                    pre.spec_table(),
                    pre.spec_current_state(),
                    pre.spec_tape_at(pre.spec_head()),
                ) ==> {
                    &&& r == false
                    &&& final(self).spec_status() == RunStatus::Rejected
                    &&& final(self).spec_head() == pre.spec_head()
                    &&& final(self).spec_current_state() == pre.spec_current_state()
                    &&& final(self).spec_step_count() == pre.spec_step_count()
                    &&& forall|p: int| final(self).spec_tape_at(p) == pre.spec_tape_at(p)
                }
            }),
            // The first rule for the read symbol fires: write, switch state,
            // move, count; then accept/reject on the entered state, or pause
            // on a breakpoint with the status untouched.
            ({
                let pre = *old(self);
                pre.mid_run() ==> forall|i: int|
                    match_at(
                        pre.spec_table(),
                        pre.spec_current_state(),
                        pre.spec_tape_at(pre.spec_head()),
                        i,
                    ) ==> {
                        let t = pre.spec_table()[i];
                        &&& forall|p: int|
                            final(self).spec_tape_at(p) == (if p == pre.spec_head() {
                                t.write_symbol
                            } else {
                                pre.spec_tape_at(p)
                            })
                        &&& final(self).spec_current_state() == t.new_state
                        &&& final(self).spec_head() == pre.spec_head() + dir_delta(t.direction)
                        &&& final(self).spec_step_count() == pre.spec_step_count() + 1
                        &&& final(self).spec_status() == (if t.new_state
                            == pre.spec_accept_state() {
                            RunStatus::Accepted
                        } else if t.new_state == pre.spec_reject_state() {
                            RunStatus::Rejected
                        } else {
                            pre.spec_status()
                        })
                        &&& r == (t.new_state != pre.spec_accept_state() && t.new_state
                            != pre.spec_reject_state() && !t.has_breakpoint
                            && !pre.spec_breakpoints().contains(t.new_state))
                    }
            }),
    {
        if self.status == RunStatus::Accepted || self.status == RunStatus::Rejected {
            return false;
        }
        if self.current_state == self.accept_state {
            self.status = RunStatus::Accepted;
            return false;
        }
        if self.current_state == self.reject_state {
            self.status = RunStatus::Rejected;
            return false;
        }
        let sym = self.tape.read(self.head_pos);
        let cur = self.current_state.clone();
        match self.table.find(&cur, sym) {
            Option::None => {
                self.status = RunStatus::Rejected;
                false
            },
            Option::Some(idx) => {
                let write_symbol = self.table.get(idx).write_symbol;
                let direction = self.table.get(idx).direction;
                let rule_breakpoint = self.table.get(idx).has_breakpoint;
                let new_state = self.table.get(idx).new_state.clone();
                self.tape.write(self.head_pos, write_symbol);
                self.current_state = new_state;
                match direction {
                    Direction::Left => self.head_pos = self.head_pos - 1,
                    Direction::Right => self.head_pos = self.head_pos + 1,
                }
                self.step_count = self.step_count + 1;
                let cont: bool = if self.current_state == self.accept_state {
                    self.status = RunStatus::Accepted;
                    false
                } else if self.current_state == self.reject_state {
                    self.status = RunStatus::Rejected;
                    false
                } else if rule_breakpoint || self.breakpoints.contains_state(&self.current_state) {
                    false
                } else {
                    true
                };
                proof {
                    assert forall|i: int|
                        match_at(
                            old(self).spec_table(),
                            old(self).spec_current_state(),
                            old(self).spec_tape_at(old(self).spec_head()),
                            i,
                        ) implies i == idx as int by {
                        lemma_match_at_unique(
                            old(self).spec_table(),
                            old(self).spec_current_state(),
                            old(self).spec_tape_at(old(self).spec_head()),
                            i,
                            idx as int,
                        );
                    }
                }
                cont
            },
        }
    }

    /// Reinitializes the run state: all-blank tape with the initial window,
    /// head at 0, current state back to the start state, step counter 0,
    /// status `Idle`. The transition table, the breakpoints, the state names
    /// and the speed are user-authored configuration and stay untouched.
    pub fn reset(&mut self)
        requires
            old(self).wf(),
        ensures
            final(self).wf(),
            same_config(*old(self), *final(self)),
            final(self).spec_head() == 0,
            final(self).spec_current_state() == final(self).spec_start_state(),
            final(self).spec_step_count() == 0,
            final(self).spec_status() == RunStatus::Idle,
            final(self).spec_tape_lo() == -50,
            final(self).spec_tape_hi() == 51,
            forall|p: int| final(self).spec_tape_at(p) == Symbol::Blank,
    {
        self.tape = Tape::new();
        self.head_pos = 0;
        self.current_state = self.start_state.clone();
        self.step_count = 0;
        self.status = RunStatus::Idle;
    }

    /// Appends `t` to the table iff no rule already has `t`'s key; on a
    /// duplicate key nothing changes and `false` signals the rejection.
    pub fn add_transition(&mut self, t: Transition) -> (r: bool)
        requires
            old(self).wf(),
        ensures
            final(self).wf(),
            same_run_state(*old(self), *final(self)),
            same_config_but_table(*old(self), *final(self)),
            r == !has_match(old(self).spec_table(), t@.current_state, t@.read_symbol),
            r ==> final(self).spec_table() == old(self).spec_table().push(t@),
            !r ==> final(self).spec_table() == old(self).spec_table(),
    {
        self.table.add(t)
    }

    /// Replaces the transition at position `i`, unconditionally; supplying a
    /// position from the machine's own listing is the caller's contract.
    pub fn update_transition(&mut self, i: usize, t: Transition)
        requires
            old(self).wf(),
            i < old(self).spec_table().len(),
        ensures
            final(self).wf(),
            same_run_state(*old(self), *final(self)),
            same_config_but_table(*old(self), *final(self)),
            final(self).spec_table() == old(self).spec_table().update(i as int, t@),
    {
        self.table.update(i, t);
    }

    /// Deletes the transition at position `i`; later positions shift down.
    pub fn delete_transition(&mut self, i: usize)
        requires
            old(self).wf(),
            i < old(self).spec_table().len(),
        ensures
            final(self).wf(),
            same_run_state(*old(self), *final(self)),
            same_config_but_table(*old(self), *final(self)),
            final(self).spec_table() == old(self).spec_table().remove(i as int),
    {
        self.table.remove(i);
    }

    /// Flips the breakpoint flag of the transition at position `i`.
    pub fn toggle_transition_breakpoint(&mut self, i: usize)
        requires
            old(self).wf(),
            i < old(self).spec_table().len(),
        ensures
            final(self).wf(),
            same_run_state(*old(self), *final(self)),
            same_config_but_table(*old(self), *final(self)),
            final(self).spec_table() == old(self).spec_table().update(
                i as int,
                SpecTransition {
                    has_breakpoint: !old(self).spec_table()[i as int].has_breakpoint,
                    ..old(self).spec_table()[i as int]
                },
            ),
    {
        self.table.toggle_breakpoint(i);
    }

    /// Registers a pause on entering the state named `name` when none is
    /// registered, and removes the registration when one is.
    pub fn toggle_state_breakpoint(&mut self, name: &String)
        requires
            old(self).wf(),
        ensures
            final(self).wf(),
            same_run_state(*old(self), *final(self)),
            final(self).spec_table() == old(self).spec_table(),
            final(self).spec_start_state() == old(self).spec_start_state(),
            final(self).spec_accept_state() == old(self).spec_accept_state(),
            final(self).spec_reject_state() == old(self).spec_reject_state(),
            final(self).spec_speed() == old(self).spec_speed(),
            old(self).spec_breakpoints().contains(name@) ==> final(self).spec_breakpoints()
                == old(self).spec_breakpoints().remove(name@),
            !old(self).spec_breakpoints().contains(name@) ==> final(self).spec_breakpoints()
                == old(self).spec_breakpoints().insert(name@),
    {
        self.breakpoints.toggle_state(name);
    }

    /// Sets the driver's stepping interval, clamped to the closed range
    /// `MIN_SPEED_MS..=MAX_SPEED_MS`.
    pub fn set_speed(&mut self, ms: u32)
        requires
            old(self).wf(),
        ensures
            final(self).wf(),
            same_run_state(*old(self), *final(self)),
            final(self).spec_table() == old(self).spec_table(),
            final(self).spec_breakpoints() == old(self).spec_breakpoints(),
            final(self).spec_start_state() == old(self).spec_start_state(),
            final(self).spec_accept_state() == old(self).spec_accept_state(),
            final(self).spec_reject_state() == old(self).spec_reject_state(),
            final(self).spec_speed() == (if ms < MIN_SPEED_MS {
                MIN_SPEED_MS as int
            } else if ms > MAX_SPEED_MS {
                MAX_SPEED_MS as int
            } else {
                ms as int
            }),
    {
        self.timer_speed_ms = if ms < MIN_SPEED_MS {
            MIN_SPEED_MS
        } else if ms > MAX_SPEED_MS {
            MAX_SPEED_MS
        } else {
            ms
        };
    }

    /// Marks the machine as driven by a scheduler. A terminal machine stays
    /// terminal; the driver's "Run" command has no other effect on the
    /// engine.
    pub fn set_running(&mut self)
        requires
            old(self).wf(),
        ensures
            final(self).wf(),
            same_config(*old(self), *final(self)),
            same_but_status(*old(self), *final(self)),
            final(self).spec_status() == (if is_terminal(old(self).spec_status()) {
                old(self).spec_status()
            } else {
                RunStatus::Running
            }),
    {
        if !(self.status == RunStatus::Accepted || self.status == RunStatus::Rejected) {
            self.status = RunStatus::Running;
        }
    }

    /// Marks a running machine as paused; a machine in any other status
    /// keeps it. The driver calls this on "Stop" and on a breakpoint pause.
    pub fn set_idle(&mut self)
        requires
            old(self).wf(),
        ensures
            final(self).wf(),
            same_config(*old(self), *final(self)),
            same_but_status(*old(self), *final(self)),
            final(self).spec_status() == (if old(self).spec_status() == RunStatus::Running {
                RunStatus::Idle
            } else {
                old(self).spec_status()
            }),
    {
        if self.status == RunStatus::Running {
            self.status = RunStatus::Idle;
        }
    }

    /// Reads the symbol at tape position `pos`, materializing it first; a
    /// position never written reads blank.
    pub fn read_tape(&mut self, pos: i64) -> (r: Symbol)
        requires
            old(self).wf(),
            old(self).tape_reach(pos as int),
        ensures
            final(self).wf(),
            r == old(self).spec_tape_at(pos as int),
            same_config(*old(self), *final(self)),
            final(self).spec_head() == old(self).spec_head(),
            final(self).spec_current_state() == old(self).spec_current_state(),
            final(self).spec_step_count() == old(self).spec_step_count(),
            final(self).spec_status() == old(self).spec_status(),
            forall|p: int| final(self).spec_tape_at(p) == old(self).spec_tape_at(p),
            final(self).spec_tape_lo() == (if pos < old(self).spec_tape_lo() {
                pos as int
            } else {
                old(self).spec_tape_lo()
            }),
            final(self).spec_tape_hi() == (if pos + 1 > old(self).spec_tape_hi() {
                pos + 1
            } else {
                old(self).spec_tape_hi()
            }),
    {
        self.tape.read(pos)
    }

    /// Writes `sym` at tape position `pos`, materializing it first. No other
    /// position changes.
    pub fn write_tape(&mut self, pos: i64, sym: Symbol)
        requires
            old(self).wf(),
            old(self).tape_reach(pos as int),
        ensures
            final(self).wf(),
            same_config(*old(self), *final(self)),
            final(self).spec_head() == old(self).spec_head(),
            final(self).spec_current_state() == old(self).spec_current_state(),
            final(self).spec_step_count() == old(self).spec_step_count(),
            final(self).spec_status() == old(self).spec_status(),
            final(self).spec_tape_at(pos as int) == sym,
            forall|p: int| p != pos ==> final(self).spec_tape_at(p) == old(self).spec_tape_at(p),
            final(self).spec_tape_lo() == (if pos < old(self).spec_tape_lo() {
                pos as int
            } else {
                old(self).spec_tape_lo()
            }),
            final(self).spec_tape_hi() == (if pos + 1 > old(self).spec_tape_hi() {
                pos + 1
            } else {
                old(self).spec_tape_hi()
            }),
    {
        self.tape.write(pos, sym);
    }

    /// The ordered display window: `width` cells starting at
    /// `center - width / 2`, each as `(position, symbol, is_head)`. Purely
    /// for rendering; it mutates the tape only by the same growth guarantee
    /// as a read, and changes no symbol.
    #[verifier::loop_isolation(false)]
    pub fn tape_window(&mut self, center: i64, width: usize) -> (w: Vec<(i64, Symbol, bool)>)
        requires
            old(self).wf(),
            old(self).can_window(center as int, width as int),
        ensures
            final(self).wf(),
            w@.len() == width,
            forall|k: int|
                0 <= k < width ==> {
                    let p = center - width as int / 2 + k;
                    &&& (#[trigger] w@[k]).0 == p
                    &&& w@[k].1 == old(self).spec_tape_at(p)
                    &&& w@[k].2 == (p == old(self).spec_head())
                },
            same_config(*old(self), *final(self)),
            final(self).spec_head() == old(self).spec_head(),
            final(self).spec_current_state() == old(self).spec_current_state(),
            final(self).spec_step_count() == old(self).spec_step_count(),
            final(self).spec_status() == old(self).spec_status(),
            forall|p: int| final(self).spec_tape_at(p) == old(self).spec_tape_at(p),
            final(self).spec_tape_lo() == (if width > 0 && center - width as int / 2 < old(
                self,
            ).spec_tape_lo() {
                center - width as int / 2
            } else {
                old(self).spec_tape_lo()
            }),
            final(self).spec_tape_hi() == (if width > 0 && center - width as int / 2 + width
                > old(self).spec_tape_hi() {
                center - width as int / 2 + width
            } else {
                old(self).spec_tape_hi()
            }),
    {
        let half: usize = width / 2;
        proof {
            if width > 0 {
                assert(half <= i64::MAX) by {
                    assert(usize::MAX == u32::MAX || usize::MAX == u64::MAX);
                }
            } else {
                assert(half == 0);
            }
        }
        let start: i64 = center - half as i64;
        let ghost glo: int = if (start as int) < old(self).spec_tape_lo() {
            start as int
        } else {
            old(self).spec_tape_lo()
        };
        let ghost ghi: int = if (start as int) + (width as int) > old(self).spec_tape_hi() {
            (start as int) + (width as int)
        } else {
            old(self).spec_tape_hi()
        };
        let mut out: Vec<(i64, Symbol, bool)> = Vec::new();
        let mut k: usize = 0;
        while k < width
            invariant
                k <= width,
                out@.len() == k,
                forall|j: int|
                    0 <= j < k ==> {
                        let p = start as int + j;
                        &&& (#[trigger] out@[j]).0 == p
                        &&& out@[j].1 == old(self).spec_tape_at(p)
                        &&& out@[j].2 == (p == old(self).spec_head())
                    },
                self.head_pos == old(self).head_pos,
                self.current_state == old(self).current_state,
                self.start_state == old(self).start_state,
                self.accept_state == old(self).accept_state,
                self.reject_state == old(self).reject_state,
                self.table == old(self).table,
                self.breakpoints == old(self).breakpoints,
                self.step_count == old(self).step_count,
                self.status == old(self).status,
                self.timer_speed_ms == old(self).timer_speed_ms,
                self.tape.wf(),
                forall|p: int| self.spec_tape_at(p) == old(self).spec_tape_at(p),
                self.spec_tape_lo() == (if k == 0 {
                    old(self).spec_tape_lo()
                } else {
                    glo
                }),
                self.spec_tape_hi() == (if k == 0 {
                    old(self).spec_tape_hi()
                } else if (start as int) + k > old(self).spec_tape_hi() {
                    (start as int) + k
                } else {
                    old(self).spec_tape_hi()
                }),
            decreases width - k,
        {
            let p: i64 = start + k as i64;
            proof {
                assert(glo <= self.spec_tape_lo());
                assert(self.spec_tape_hi() <= ghi);
                assert(self.tape.can_reach(p as int));
            }
            let sym = self.tape.read(p);
            let is_head = p == self.head_pos;
            out.push((p, sym, is_head));
            k = k + 1;
        }
        out
    }

    /// The position of the first rule for `(state, sym)`, or none.
    pub fn find_transition(&self, state: &String, sym: Symbol) -> (r: Option<usize>)
        ensures
            match r {
                Some(i) => match_at(self.spec_table(), state@, sym, i as int),
                None => !has_match(self.spec_table(), state@, sym),
            },
    {
        self.table.find(state, sym)
    }

    /// The name of the state the machine is in.
    pub fn current_state(&self) -> (r: &String)
        ensures
            r@ == self.spec_current_state(),
    {
        &self.current_state
    }

    /// The configured start-state name.
    pub fn start_state(&self) -> (r: &String)
        ensures
            r@ == self.spec_start_state(),
    {
        &self.start_state
    }

    /// The configured accept-state name.
    pub fn accept_state(&self) -> (r: &String)
        ensures
            r@ == self.spec_accept_state(),
    {
        &self.accept_state
    }

    /// The configured reject-state name.
    pub fn reject_state(&self) -> (r: &String)
        ensures
            r@ == self.spec_reject_state(),
    {
        &self.reject_state
    }

    /// How many transitions have been executed since the last reset.
    pub fn step_count(&self) -> (r: u64)
        ensures
            r as int == self.spec_step_count(),
    {
        self.step_count
    }

    /// The run-control status.
    pub fn status(&self) -> (r: RunStatus)
        ensures
            r == self.spec_status(),
    {
        self.status
    }

    /// The head's absolute tape position.
    pub fn head_pos(&self) -> (r: i64)
        ensures
            r as int == self.spec_head(),
    {
        self.head_pos
    }

    /// The driver's stepping interval in time units.
    pub fn speed_ms(&self) -> (r: u32)
        ensures
            r as int == self.spec_speed(),
    {
        self.timer_speed_ms
    }

    /// How many transitions the table holds.
    pub fn transition_count(&self) -> (n: usize)
        ensures
            n == self.spec_table().len(),
    {
        self.table.len()
    }

    /// The transition at position `i` of the ordered listing.
    pub fn transition(&self, i: usize) -> (t: &Transition)
        requires
            i < self.spec_table().len(),
        ensures
            t@ == self.spec_table()[i as int],
    {
        self.table.get(i)
    }

    /// Whether a pause is registered for the state named `name`.
    pub fn has_state_breakpoint(&self, name: &String) -> (r: bool)
        ensures
            r == self.spec_breakpoints().contains(name@),
    {
        self.breakpoints.contains_state(name)
    }

    /// The registered pause-on-entry state names, as an ordered listing for
    /// rendering: exactly the names of the set, each once.
    pub fn state_breakpoint_names(&self) -> (r: &Vec<String>)
        requires
            self.wf(),
        ensures
            forall|i: int|
                0 <= i < r@.len() ==> self.spec_breakpoints().contains(#[trigger] r@[i]@),
            forall|n: Seq<char>|
                self.spec_breakpoints().contains(n) ==> exists|i: int|
                    0 <= i < r@.len() && #[trigger] r@[i]@ == n,
            forall|i: int, j: int| 0 <= i < j < r@.len() ==> #[trigger] r@[i]@ != #[trigger] r@[j]@,
    {
        self.breakpoints.names()
    }
}

/// Whether two machines agree on the configuration apart from the table:
/// the three state names, the breakpoints, and the speed.
pub open spec fn same_config_but_table(pre: TuringMachine, post: TuringMachine) -> bool {
    &&& post.spec_start_state() == pre.spec_start_state()
    &&& post.spec_accept_state() == pre.spec_accept_state()
    &&& post.spec_reject_state() == pre.spec_reject_state()
    &&& post.spec_breakpoints() == pre.spec_breakpoints()
    &&& post.spec_speed() == pre.spec_speed()
}

} // verus!
