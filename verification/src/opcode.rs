//! The `debugger` instruction.

use crate::eval_context::HookError;
use vstd::prelude::*;

verus! {

/// How an instruction ends.
#[derive(Debug, Clone, Copy, PartialEq, Eq, Structural)]
pub enum Completion {
    /// The next instruction runs.
    Continue,
    /// The error is thrown in the program.
    Throw(HookError),
}

/// The instruction that a `debugger` statement compiles to: it calls the hook
/// of the host.
#[derive(Debug, Clone, Copy)]
pub struct Debugger;

impl Debugger {
    /// How the instruction ends, given what the hook returned: the program
    /// runs on unless the hook failed, and then the error is thrown.
    pub fn operation(hook: Result<(), HookError>) -> (completion: Completion)
        ensures
            completion == match hook {
                Ok(_) => Completion::Continue,
                Err(e) => Completion::Throw(e),
            },
    {
        match hook {
            Ok(()) => Completion::Continue,
            Err(e) => Completion::Throw(e),
        }
    }
}

} // verus!
