//! Hooks for an interpreter that polls: the hook pauses the program and the
//! interpreter thread looks at the debugger again and again until it may run.

use crate::debugger::{step_pauses, Debugger, DebuggerModel, StepMode};
use crate::ScriptId;
use std::sync::Arc;
use std::sync::Mutex;
use vstd::prelude::*;

verus! {

/// `std::sync::Mutex`: a value behind a lock. Nothing is said of what it holds,
/// for that can change whenever the lock is free.
#[verifier::external_type_specification]
#[verifier::external_body]
#[verifier::reject_recursive_types(T)]
pub struct ExMutex<T: ?Sized>(Mutex<T>);

/// The hooks, with the debugger that they share with the protocol side.
pub struct DebuggerHostHooks {
    debugger: Arc<Mutex<Debugger>>,
}

impl DebuggerHostHooks {
    /// The debugger that the hooks share.
    pub closed spec fn shared(&self) -> Arc<Mutex<Debugger>> {
        self.debugger
    }

    /// Hooks that share `debugger`.
    pub fn new(debugger: Arc<Mutex<Debugger>>) -> (hooks: Self)
        ensures
            hooks.shared() == debugger,
    {
        Self { debugger }
    }

    /// One more handle on the debugger that the hooks share.
    pub fn debugger(&self) -> (debugger: Arc<Mutex<Debugger>>)
        ensures
            debugger == self.shared(),
    {
        self.debugger.clone()
    }

    /// Whether the hook pauses the program at an instruction.
    pub open spec fn pauses(
        d: DebuggerModel,
        depth: usize,
        position: Option<(ScriptId, u32)>,
    ) -> bool {
        ||| step_pauses(d.step_mode, depth)
        ||| position matches Some(at) && d.breakpoints.dom().contains(at)
    }

    /// The program is about to run the instruction at `position`, in a frame of
    /// depth `depth`. A debugger that is attached pauses if the step mode asks
    /// for it or a breakpoint stands there. The interpreter thread waits as long
    /// as the debugger is paused.
    pub fn on_step(
        debugger: &mut Debugger,
        depth: usize,
        position: Option<(ScriptId, u32)>,
    ) -> (wait: bool)
        ensures
            final(debugger)@ == (DebuggerModel {
                paused: old(debugger)@.paused || (old(debugger)@.attached && Self::pauses(
                    old(debugger)@,
                    depth,
                    position,
                )),
                ..old(debugger)@
            }),
            wait == (old(debugger)@.attached && final(debugger)@.paused),
    {
        if !debugger.is_attached() {
            return false;
        }
        if debugger.should_pause_for_step(depth) {
            debugger.pause();
        }
        match position {
            Some((script, pc)) => {
                if debugger.has_breakpoint(script, pc) {
                    debugger.pause();
                }
            },
            None => {},
        }
        let wait = debugger.is_paused();
        wait
    }

    /// Whether the interpreter thread, which waits, goes on waiting.
    pub fn keeps_waiting(debugger: &Debugger) -> (wait: bool)
        ensures
            wait == debugger@.paused,
    {
        debugger.is_paused()
    }

    /// The program reached a `debugger` statement: a debugger that is attached
    /// pauses.
    pub fn on_debugger_statement(debugger: &mut Debugger)
        ensures
            final(debugger)@ == (DebuggerModel {
                paused: old(debugger)@.paused || old(debugger)@.attached,
                ..old(debugger)@
            }),
    {
        if debugger.is_attached() {
            debugger.pause();
        }
    }

    /// Whether the interpreter stops where an exception unwinds: it does while
    /// the debugger is attached and steps.
    pub fn on_exception_unwind(debugger: &Debugger) -> (stop: bool)
        ensures
            stop == (debugger@.attached && debugger@.step_mode != StepMode::Continue),
    {
        if !debugger.is_attached() {
            return false;
        }
        match debugger.step_mode() {
            StepMode::Continue => false,
            _ => true,
        }
    }
}

} // verus!
