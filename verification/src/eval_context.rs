//! The evaluation worker and the hooks through which the interpreter reaches the
//! debugger.
//!
//! The worker is the one thread that owns the interpreter; it takes tasks and
//! reports events. This module holds every decision of that thread: what to do
//! with a task, when to pause, and what to do while paused. The thread itself,
//! its channels and the interpreter belong to the embedding program, which
//! carries each decision out and comes back with what happened.

use crate::debugger::{step_pauses, Debugger, DebuggerModel};
use crate::text::{opt_text, owned};
use crate::ScriptId;
use vstd::prelude::*;
use vstd::string::*;

verus! {

/// What the worker reports to the session.
#[derive(Debug, Clone)]
pub enum DebugEvent {
    /// The interpreter stopped.
    Stopped { reason: String, description: Option<String> },
    /// The program ran to its end.
    Terminated,
    /// The session ends: whoever forwards events stops.
    Shutdown,
}

/// The model of a [`DebugEvent`].
pub enum EventModel {
    Stopped { reason: Seq<char>, description: Option<Seq<char>> },
    Terminated,
    Shutdown,
}

impl View for DebugEvent {
    type V = EventModel;

    open spec fn view(&self) -> EventModel {
        match self {
            DebugEvent::Stopped { reason, description } => EventModel::Stopped {
                reason: reason@,
                description: opt_text(*description),
            },
            DebugEvent::Terminated => EventModel::Terminated,
            DebugEvent::Shutdown => EventModel::Shutdown,
        }
    }
}

/// A task for the worker.
#[derive(Debug, Clone)]
pub enum EvalTask {
    /// Evaluate `source` and answer with the result.
    ExecuteBlocking { source: String },
    /// Run `source` as the program under debug; nobody waits for the result.
    ExecuteAsync { source: String, file_path: Option<String> },
    /// Answer with the call stack.
    StackTrace,
    /// Evaluate `expression` in the current frame and answer with the result.
    Evaluate { expression: String },
    /// Leave.
    Terminate,
}

/// A frame of the call stack as the interpreter describes it.
#[derive(Debug, Clone)]
pub struct FrameSnapshot {
    pub function_name: String,
    pub source_path: String,
    pub line_number: Option<u32>,
    pub column_number: Option<u32>,
    pub pc: u32,
}

/// A frame of the call stack as the session gets it.
#[derive(Debug, Clone)]
pub struct StackFrameInfo {
    pub function_name: String,
    pub source_path: String,
    pub line_number: u32,
    pub column_number: u32,
    pub pc: usize,
}

/// The answer to an inspection task.
#[derive(Debug, Clone)]
pub enum InspectionReply {
    Frames(Vec<StackFrameInfo>),
    Value(String),
}

/// Why a hook makes the interpreter give up the running program.
#[derive(Debug, Clone, Copy, PartialEq, Eq, Structural)]
pub enum HookError {
    /// The worker was told to leave while it was paused.
    Terminating,
    /// Nobody can send tasks any more.
    ChannelClosed,
    /// The session is shutting down.
    ShuttingDown,
}

impl HookError {
    /// The text of the error as the interpreter reports it.
    pub open spec fn text(self) -> Seq<char> {
        match self {
            HookError::Terminating => "Eval thread terminating"@,
            HookError::ChannelClosed => "Task channel closed"@,
            HookError::ShuttingDown => "Debugger shutting down"@,
        }
    }

    pub fn message(&self) -> (m: String)
        ensures
            m@ == self.text(),
    {
        match self {
            HookError::Terminating => owned("Eval thread terminating"),
            HookError::ChannelClosed => owned("Task channel closed"),
            HookError::ShuttingDown => owned("Debugger shutting down"),
        }
    }
}

/// Whether the frame `f` is what the interpreter's frame `s` becomes: a missing
/// line or column is 0.
pub open spec fn describes(f: StackFrameInfo, s: FrameSnapshot) -> bool {
    &&& f.function_name@ == s.function_name@
    &&& f.source_path@ == s.source_path@
    &&& f.line_number == match s.line_number {
        Some(n) => n,
        None => 0,
    }
    &&& f.column_number == match s.column_number {
        Some(n) => n,
        None => 0,
    }
    &&& f.pc == s.pc
}

/// The text that answers `evaluate` while frame-bound evaluation is not there.
pub open spec fn evaluation_placeholder(expression: Seq<char>) -> Seq<char> {
    "Evaluation not yet implemented: "@ + expression
}

/// What the worker thread does next while it starts and serves tasks.
#[derive(Debug, Clone, Copy, PartialEq, Eq, Structural)]
pub enum WorkerPhase {
    /// The interpreter context is yet to be built, on this thread.
    Building,
    /// The caller's setup is yet to run.
    SettingUp,
    /// The debugger is yet to be attached.
    Attaching,
    /// Tasks are served.
    Serving,
    /// The thread has left, or is about to.
    Stopped,
}

/// What the worker does with a task.
#[derive(Debug, Clone, PartialEq, Eq)]
pub enum TaskAction {
    /// Evaluate the source and answer with what `blocking_reply` makes of the outcome.
    Evaluate { source: String },
    /// Run the source, then the pending jobs, whether the source failed or
    /// not, then report what `async_report` makes of the two outcomes. Nobody
    /// gets an answer.
    Run { source: String },
    /// Answer with what `process_inspection_task` gives.
    Inspect,
    /// Leave the loop.
    Exit,
}

/// What the worker reports when the program has run.
#[derive(Debug, Clone)]
pub struct AsyncReport {
    /// The error to print on the client's console, if the program failed.
    pub error_output: Option<String>,
    /// The event that follows: always `Terminated`.
    pub event: DebugEvent,
}

/// The life of the worker thread.
pub struct EvalWorker {
    phase: WorkerPhase,
}

impl EvalWorker {
    pub closed spec fn phase(&self) -> WorkerPhase {
        self.phase
    }

    /// A worker that has not started.
    pub fn new() -> (w: EvalWorker)
        ensures
            w.phase() == WorkerPhase::Building,
    {
        EvalWorker { phase: WorkerPhase::Building }
    }

    #[verifier::when_used_as_spec(phase)]
    pub fn current_phase(&self) -> (p: WorkerPhase)
        ensures
            p == self.phase(),
    {
        self.phase
    }

    /// The phase that follows `phase` when its step went well.
    pub open spec fn after(phase: WorkerPhase) -> WorkerPhase {
        match phase {
            WorkerPhase::Building => WorkerPhase::SettingUp,
            WorkerPhase::SettingUp => WorkerPhase::Attaching,
            WorkerPhase::Attaching => WorkerPhase::Serving,
            WorkerPhase::Serving => WorkerPhase::Serving,
            WorkerPhase::Stopped => WorkerPhase::Stopped,
        }
    }

    /// Takes note of how the step of the current phase went, and moves on: to
    /// the next phase if it went well, to `Stopped` if it failed. The context is
    /// built, then set up, then the debugger is attached, and only then is a
    /// task served. The new phase is returned.
    pub fn step_done(&mut self, ok: bool) -> (next: WorkerPhase)
        ensures
            final(self).phase() == next,
            next == if ok {
                Self::after(old(self).phase())
            } else {
                WorkerPhase::Stopped
            },
    {
        self.phase = if !ok {
            WorkerPhase::Stopped
        } else {
            match self.phase {
                WorkerPhase::Building => WorkerPhase::SettingUp,
                WorkerPhase::SettingUp => WorkerPhase::Attaching,
                WorkerPhase::Attaching => WorkerPhase::Serving,
                WorkerPhase::Serving => WorkerPhase::Serving,
                WorkerPhase::Stopped => WorkerPhase::Stopped,
            }
        };
        self.phase
    }

    /// What to do with a task that came while no program is inside a hook.
    ///
    /// A worker that is not serving does nothing but leave.
    pub fn on_task(&mut self, task: &EvalTask) -> (action: TaskAction)
        ensures
            old(self).phase() != WorkerPhase::Serving ==> {
                &&& action == TaskAction::Exit
                &&& final(self).phase() == WorkerPhase::Stopped
            },
            old(self).phase() == WorkerPhase::Serving ==> {
                &&& match *task {
                    EvalTask::ExecuteBlocking { source } => action matches TaskAction::Evaluate {
                        source: s,
                    } && s@ == source@,
                    EvalTask::ExecuteAsync { source, .. } => action matches TaskAction::Run {
                        source: s,
                    } && s@ == source@,
                    EvalTask::StackTrace => action == TaskAction::Inspect,
                    EvalTask::Evaluate { .. } => action == TaskAction::Inspect,
                    EvalTask::Terminate => action == TaskAction::Exit,
                }
                &&& final(self).phase() == if *task is Terminate {
                    WorkerPhase::Stopped
                } else {
                    WorkerPhase::Serving
                }
            },
    {
        match self.phase {
            WorkerPhase::Serving => match task {
                EvalTask::ExecuteBlocking { source } => TaskAction::Evaluate {
                    source: source.clone(),
                },
                EvalTask::ExecuteAsync { source, .. } => TaskAction::Run { source: source.clone() },
                EvalTask::StackTrace => TaskAction::Inspect,
                EvalTask::Evaluate { .. } => TaskAction::Inspect,
                EvalTask::Terminate => {
                    self.phase = WorkerPhase::Stopped;
                    TaskAction::Exit
                },
            },
            _ => {
                self.phase = WorkerPhase::Stopped;
                TaskAction::Exit
            },
        }
    }

    /// The task channel is closed: the worker leaves.
    pub fn on_channel_closed(&mut self)
        ensures
            final(self).phase() == WorkerPhase::Stopped,
    {
        self.phase = WorkerPhase::Stopped;
    }

    /// The error of a run, if it had one: that of the program, else that of
    /// the jobs that ran after it.
    pub open spec fn run_error(program: Result<(), String>, jobs: Result<(), String>) -> Option<
        Seq<char>,
    > {
        match (program, jobs) {
            (Err(e), _) => Some(e@),
            (Ok(_), Err(e)) => Some(e@),
            (Ok(_), Ok(_)) => None,
        }
    }

    /// What the worker reports when the program has run and the pending jobs
    /// after it: `Terminated`, after the error text for the client's console if
    /// the run failed.
    pub fn async_report(program: &Result<(), String>, jobs: &Result<(), String>) -> (report:
        AsyncReport)
        ensures
            report.event@ == EventModel::Terminated,
            opt_text(report.error_output) == match Self::run_error(*program, *jobs) {
                Some(e) => Some("Error: "@ + e),
                None => None,
            },
    {
        let error_output = match (program, jobs) {
            (Err(e), _) => Some(owned("Error: ").concat(e.as_str())),
            (Ok(_), Err(e)) => Some(owned("Error: ").concat(e.as_str())),
            (Ok(_), Ok(_)) => None,
        };
        AsyncReport { error_output, event: DebugEvent::Terminated }
    }
}

/// What the paused worker does with a task that it found waiting.
#[derive(Debug, Clone, Copy, PartialEq, Eq, Structural)]
pub enum DrainAction {
    /// The worker is busy: the task is dropped.
    Reject,
    /// The task reads the paused program: it is served on the spot.
    Service,
    /// The wait ends with an error.
    Abort(HookError),
}

/// What the paused worker does once no task is waiting.
#[derive(Debug, Clone, Copy, PartialEq, Eq, Structural)]
pub enum WaitDecision {
    /// The debugger is no longer paused: the hook returns and the program runs on.
    Resumed,
    /// The wait ends with an error, and the program with it.
    Abort(HookError),
    /// Still paused: sleep until woken, then look for tasks again.
    Sleep,
}

/// What a hook decided at an instruction.
#[derive(Debug, Clone)]
pub struct HookDecision {
    /// The event to report, if the hook paused the program.
    pub event: Option<DebugEvent>,
    /// Whether the worker now enters the wait loop.
    pub wait: bool,
}

/// The hooks that the interpreter calls on the worker thread.
///
/// The value records whether the worker is inside the wait loop. The debugger
/// state is handed to each call by the caller, who holds its lock for the time
/// of the call and for no longer.
///
/// The worker is inside the wait loop exactly while the debugger is paused:
/// each hook leaves the two in agreement. The protocol side breaks the agreement
/// when it pauses or resumes the debugger, and the next call of a hook, or of
/// `after_drain`, restores it. The one exception is the end of the session: a
/// worker that is told to leave, or that finds the debugger shutting down,
/// leaves the loop though the debugger is still paused.
pub struct DebugHooks {
    waiting: bool,
}

impl DebugHooks {
    /// Whether the worker is inside the wait loop.
    pub closed spec fn waiting(&self) -> bool {
        self.waiting
    }

    /// Whether the worker is inside the wait loop exactly if the debugger is
    /// paused.
    pub open spec fn agrees(&self, d: DebuggerModel) -> bool {
        self.waiting() == d.paused
    }

    /// Hooks of a worker that runs.
    pub fn new() -> (h: DebugHooks)
        ensures
            !h.waiting(),
    {
        DebugHooks { waiting: false }
    }

    #[verifier::when_used_as_spec(waiting)]
    pub fn is_waiting(&self) -> (w: bool)
        ensures
            w == self.waiting(),
    {
        self.waiting
    }

    /// The program reached a `debugger` statement in the frame described by
    /// `frame`: the debugger pauses, whatever its state, a `Stopped` event with
    /// the reason `pause` is to be reported and the worker enters the wait loop.
    pub fn on_debugger_statement(&mut self, debugger: &mut Debugger, frame: &str) -> (event:
        DebugEvent)
        ensures
            final(debugger)@ == (DebuggerModel { paused: true, ..old(debugger)@ }),
            final(self).waiting(),
            final(self).agrees(final(debugger)@),
            event@ == (EventModel::Stopped {
                reason: "pause"@,
                description: Some("Paused on debugger statement at "@ + frame@),
            }),
    {
        debugger.pause();
        self.waiting = true;
        DebugEvent::Stopped {
            reason: owned("pause"),
            description: Some(owned("Paused on debugger statement at ").concat(frame)),
        }
    }

    /// Why the hook pauses the program at an instruction, if it does: the step
    /// mode comes first, then a breakpoint at the position.
    pub open spec fn pause_reason(
        d: DebuggerModel,
        depth: usize,
        position: Option<(ScriptId, u32)>,
    ) -> Option<Seq<char>> {
        if step_pauses(d.step_mode, depth) {
            Some("step"@)
        } else if position matches Some(at) && d.breakpoints.dom().contains(at) {
            Some("breakpoint"@)
        } else {
            None
        }
    }

    /// The program is about to run the instruction at `position`, in a frame of
    /// depth `depth`.
    ///
    /// If the step mode asks for a pause here, the debugger pauses and a
    /// `Stopped` event with the reason `step` is to be reported. Else, if a
    /// breakpoint stands here, it pauses and the reason is `breakpoint`. The
    /// worker enters the wait loop exactly if the debugger is paused after that,
    /// be it by this call or by a request that came before it.
    pub fn on_step(
        &mut self,
        debugger: &mut Debugger,
        depth: usize,
        position: Option<(ScriptId, u32)>,
    ) -> (decision: HookDecision)
        ensures
            final(debugger)@ == (DebuggerModel {
                paused: old(debugger)@.paused || Self::pause_reason(
                    old(debugger)@,
                    depth,
                    position,
                ) is Some,
                ..old(debugger)@
            }),
            decision.wait == final(debugger)@.paused,
            final(self).agrees(final(debugger)@),
            match Self::pause_reason(old(debugger)@, depth, position) {
                Some(reason) => decision.event matches Some(e) && e@ == (EventModel::Stopped {
                    reason,
                    description: Some("Paused on "@ + reason),
                }),
                None => decision.event is None,
            },
    {
        let event = if debugger.should_pause_for_step(depth) {
            debugger.pause();
            Some(
                DebugEvent::Stopped {
                    reason: owned("step"),
                    description: Some(owned("Paused on ").concat("step")),
                },
            )
        } else {
            let hit = match position {
                Some((script, pc)) => debugger.has_breakpoint(script, pc),
                None => false,
            };
            if hit {
                debugger.pause();
                Some(
                    DebugEvent::Stopped {
                        reason: owned("breakpoint"),
                        description: Some(owned("Paused on ").concat("breakpoint")),
                    },
                )
            } else {
                None
            }
        };
        let wait = debugger.is_paused();
        self.waiting = wait;
        HookDecision { event, wait }
    }

    /// What the paused worker does with a task that it found waiting: it drops
    /// a task that runs code, ends the wait on `Terminate`, and serves a task
    /// that only reads.
    pub fn on_pending_task(&mut self, task: &EvalTask) -> (action: DrainAction)
        ensures
            action == match *task {
                EvalTask::ExecuteBlocking { .. } => DrainAction::Reject,
                EvalTask::ExecuteAsync { .. } => DrainAction::Reject,
                EvalTask::Terminate => DrainAction::Abort(HookError::Terminating),
                EvalTask::StackTrace => DrainAction::Service,
                EvalTask::Evaluate { .. } => DrainAction::Service,
            },
            final(self).waiting() == (old(self).waiting() && !(*task is Terminate)),
    {
        match task {
            EvalTask::ExecuteBlocking { .. } => DrainAction::Reject,
            EvalTask::ExecuteAsync { .. } => DrainAction::Reject,
            EvalTask::Terminate => {
                self.waiting = false;
                DrainAction::Abort(HookError::Terminating)
            },
            EvalTask::StackTrace => DrainAction::Service,
            EvalTask::Evaluate { .. } => DrainAction::Service,
        }
    }

    /// The task channel is closed while the worker is paused: the wait ends
    /// with an error.
    pub fn on_channel_closed(&mut self) -> (error: HookError)
        ensures
            error == HookError::ChannelClosed,
            !final(self).waiting(),
    {
        self.waiting = false;
        HookError::ChannelClosed
    }

    /// What the paused worker does once no task is waiting, with the debugger
    /// state as it is now: it returns if the debugger is no longer paused, gives
    /// up if the session shuts down, and sleeps else.
    pub fn after_drain(&mut self, debugger: &Debugger) -> (decision: WaitDecision)
        ensures
            decision == if !debugger@.paused {
                WaitDecision::Resumed
            } else if debugger@.shutting_down {
                WaitDecision::Abort(HookError::ShuttingDown)
            } else {
                WaitDecision::Sleep
            },
            final(self).waiting() == (decision == WaitDecision::Sleep),
            !debugger@.shutting_down ==> final(self).agrees(debugger@),
    {
        if !debugger.is_paused() {
            self.waiting = false;
            WaitDecision::Resumed
        } else if debugger.is_shutting_down() {
            self.waiting = false;
            WaitDecision::Abort(HookError::ShuttingDown)
        } else {
            self.waiting = true;
            WaitDecision::Sleep
        }
    }

    /// Serves a task that reads the program: the call stack for `StackTrace`,
    /// each frame as the interpreter describes it, and a placeholder text for
    /// `Evaluate`. Any other task is not served: the answer is `None`.
    pub fn process_inspection_task(task: &EvalTask, stack: &Vec<FrameSnapshot>) -> (reply: Option<
        InspectionReply,
    >)
        ensures
            match *task {
                EvalTask::StackTrace => reply matches Some(InspectionReply::Frames(frames))
                    && frames@.len() == stack@.len() && forall|i: int|
                    0 <= i < stack@.len() ==> describes(#[trigger] frames@[i], stack@[i]),
                EvalTask::Evaluate { expression } => reply matches Some(
                    InspectionReply::Value(text),
                ) && text@ == evaluation_placeholder(expression@),
                _ => reply is None,
            },
    {
        match task {
            EvalTask::StackTrace => {
                let mut frames: Vec<StackFrameInfo> = Vec::new();
                let mut i: usize = 0;
                while i < stack.len()
                    invariant
                        i <= stack.len(),
                        frames@.len() == i,
                        forall|k: int| 0 <= k < i ==> describes(#[trigger] frames@[k], stack@[k]),
                    decreases stack.len() - i,
                {
                    let s = &stack[i];
                    frames.push(
                        StackFrameInfo {
                            function_name: s.function_name.clone(),
                            source_path: s.source_path.clone(),
                            line_number: match s.line_number {
                                Some(n) => n,
                                None => 0,
                            },
                            column_number: match s.column_number {
                                Some(n) => n,
                                None => 0,
                            },
                            pc: s.pc as usize,
                        },
                    );
                    i += 1;
                }
                Some(InspectionReply::Frames(frames))
            },
            EvalTask::Evaluate { expression } => Some(
                InspectionReply::Value(
                    owned("Evaluation not yet implemented: ").concat(expression.as_str()),
                ),
            ),
            _ => None,
        }
    }
}

} // verus!
