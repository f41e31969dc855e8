//! A deterministic single-tape Turing-machine execution engine.
//!
//! The engine owns a bidirectionally growable tape, a deterministic
//! transition table, a breakpoint registry, and the run-control state
//! machine that advances, inspects and resets a machine. A driver (UI,
//! event loop, test harness) calls into the engine and renders the
//! observable state it exposes; the engine itself does no I/O.

pub mod machine;
pub mod registry;
pub mod symbol;
pub mod table;
pub mod tape;
