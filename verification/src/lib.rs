//! The core of a Debug Adapter Protocol front-end for a JavaScript interpreter.
//!
//! An editor drives a running interpreter over the protocol: it sets
//! breakpoints, pauses and resumes, steps, and looks at the paused program. Three
//! parties meet here. The interpreter runs on a thread of its own and calls
//! hooks at every instruction. The protocol side must answer the client even
//! while the program runs or is paused. And the hooks must be able to hold the
//! interpreter thread until the protocol side lets it go.
//!
//! This crate is the part that decides. It holds no thread, no lock and no
//! stream: every function takes the state and what happened, and says what the
//! new state is and what is to be done. The program around it carries that out.
//!
//! - [`transport`]: the wire format of a message.
//! - [`json`], [`encode`], [`decode`]: JSON values and the reading and writing
//!   of records.
//! - [`messages`], [`protocol`]: the typed arguments, bodies and messages.
//! - [`debugger`]: the pause flag, the step mode and the breakpoints.
//! - [`eval_context`], [`host_hooks`], [`opcode`]: what the interpreter thread
//!   does at an instruction, with a task, and while it is paused.
//! - [`session`], [`server`]: what a request does and what answers it.

use vstd::prelude::*;

pub mod debugger;
pub mod decode;
pub mod encode;
pub mod eval_context;
pub mod host_hooks;
pub mod json;
pub mod messages;
pub mod opcode;
pub mod protocol;
pub mod server;
pub mod session;
pub mod text;
pub mod transport;

verus! {

/// Identifier of a compiled source unit known to the interpreter.
#[derive(Debug, Clone, Copy, PartialEq, Eq, Hash, Structural)]
pub struct ScriptId(pub usize);

/// Identifier of a call frame.
#[derive(Debug, Clone, Copy, PartialEq, Eq, Hash, Structural)]
pub struct FrameId(pub usize);

} // verus!
