//! The debug session: what the protocol side knows between two requests.
//!
//! The session keeps the client's breakpoint identifiers, the variable
//! references of the current pause, the script of each source, and whether the
//! program runs. The debugger state is shared with the interpreter side, so each
//! operation that needs it takes it as an argument.

use crate::debugger::{
    outside_script, BreakpointId, BreakpointModel, Debugger, DebuggerModel, Location, StepMode,
};
use crate::eval_context::{EvalTask, StackFrameInfo};
use crate::messages::{
    AttachRequestArguments, Breakpoint, Capabilities, ContinueArguments, ContinueResponseBody,
    EvaluateArguments, EvaluateResponseBody, InitializeRequestArguments, LaunchRequestArguments,
    NextArguments, Scope, ScopesArguments, ScopesResponseBody, SetBreakpointsArguments,
    SetBreakpointsResponseBody, Source, SourceBreakpoint, StackFrame, StackTraceArguments,
    StackTraceResponseBody, StepInArguments, StepOutArguments, Thread, ThreadsResponseBody,
    VariablesArguments, VariablesResponseBody,
};
use crate::text::{decimal, decimal_string, opt_text, owned, same_text};
use crate::ScriptId;
use std::collections::HashMap;
use vstd::prelude::*;
use vstd::string::*;

verus! {

/// The kind of a scope that a variable reference stands for.
#[derive(Debug, Clone, Copy, PartialEq, Eq, Structural)]
pub enum ScopeType {
    Local,
    Global,
    Closure,
}

/// What a variable reference stands for.
#[derive(Debug, Clone)]
pub enum VariableReference {
    Scope { frame_id: i64, scope_type: ScopeType },
    Object { object_id: String },
}

/// Why the session cannot do what it was asked.
#[derive(Debug, Clone, Copy, PartialEq, Eq, Structural)]
pub enum SessionError {
    /// No identifier is left for what was asked.
    IdentifiersExhausted,
}

impl SessionError {
    pub open spec fn text(self) -> Seq<char> {
        "No identifier is left"@
    }

    pub fn message(&self) -> (m: String)
        ensures
            m@ == self.text(),
    {
        owned("No identifier is left")
    }
}

/// One step of what a launch asks of the embedding program.
#[derive(Debug, Clone)]
pub enum LaunchStep {
    /// Start the worker thread.
    SpawnWorker,
    /// Start the thread that forwards the worker's events.
    SpawnForwarder,
    /// Read the program at this path and submit it to the worker to run.
    RunProgram(String),
}

/// The model of a [`LaunchStep`].
pub enum LaunchStepModel {
    SpawnWorker,
    SpawnForwarder,
    RunProgram(Seq<char>),
}

impl View for LaunchStep {
    type V = LaunchStepModel;

    open spec fn view(&self) -> LaunchStepModel {
        match self {
            LaunchStep::SpawnWorker => LaunchStepModel::SpawnWorker,
            LaunchStep::SpawnForwarder => LaunchStepModel::SpawnForwarder,
            LaunchStep::RunProgram(path) => LaunchStepModel::RunProgram(path@),
        }
    }
}

/// The client's identifier of a breakpoint, with the debugger's and the script
/// that the breakpoint stands in.
#[derive(Debug, Clone, Copy)]
pub struct BreakpointLink {
    pub dap_id: i64,
    pub internal: BreakpointId,
    pub script: ScriptId,
}

/// The model of a [`DebugSession`].
pub struct SessionModel {
    /// Whether the worker was started.
    pub worker: bool,
    pub program_path: Option<Seq<char>>,
    /// The script of each source that was named so far, by its path.
    pub scripts: Map<Seq<char>, ScriptId>,
    /// How many sources were named so far.
    pub known_scripts: nat,
    /// The debugger's breakpoint and its script, for each identifier that the
    /// client knows.
    pub breakpoints: Map<i64, (BreakpointId, ScriptId)>,
    pub next_breakpoint_id: int,
    pub next_variable_reference: int,
    pub variable_references: Map<i64, VariableReference>,
    pub thread_id: int,
    pub stopped_reason: Option<Seq<char>>,
    pub running: bool,
    pub initialized: bool,
}

/// The session.
pub struct DebugSession {
    worker: bool,
    program_path: Option<String>,
    source_to_script: Vec<(String, ScriptId)>,
    breakpoint_mapping: HashMap<i64, (BreakpointId, ScriptId)>,
    next_breakpoint_id: i64,
    initialized: bool,
    running: bool,
    thread_id: i64,
    stopped_reason: Option<String>,
    variable_references: HashMap<i64, VariableReference>,
    next_variable_reference: i64,
}

/// The script of the first entry for `path`, if there is one.
pub open spec fn find_script(list: Seq<(String, ScriptId)>, path: Seq<char>) -> Option<ScriptId>
    decreases list.len(),
{
    if list.len() == 0 {
        None
    } else if list[0].0@ == path {
        Some(list[0].1)
    } else {
        find_script(list.subrange(1, list.len() as int), path)
    }
}

/// The scripts of a list of sources, by path.
pub open spec fn script_map(list: Seq<(String, ScriptId)>) -> Map<Seq<char>, ScriptId> {
    Map::new(
        |path: Seq<char>| find_script(list, path) is Some,
        |path: Seq<char>| find_script(list, path)->0,
    )
}

/// The breakpoints that do not stand in `script`.
pub open spec fn without_script(
    m: Map<i64, (BreakpointId, ScriptId)>,
    script: ScriptId,
) -> Map<i64, (BreakpointId, ScriptId)> {
    Map::new(|id: i64| m.dom().contains(id) && m[id].1 != script, |id: i64| m[id])
}

/// The script that a source gets: the one it has, or a new one.
pub open spec fn script_for(
    scripts: Map<Seq<char>, ScriptId>,
    known: nat,
    path: Seq<char>,
) -> ScriptId {
    if scripts.dom().contains(path) {
        scripts[path]
    } else {
        ScriptId(known as usize)
    }
}

/// The path by which a source is known: its path, else its name, else `unknown`.
pub open spec fn source_key(source: Source) -> Seq<char> {
    match source.path {
        Some(p) => p@,
        None => match source.name {
            Some(n) => n@,
            None => "unknown"@,
        },
    }
}

/// The position that a line of the client stands for: the line itself where
/// it fits 32 bits, and its lowest 32 bits else.
pub open spec fn line_position(line: i64) -> u32 {
    line as u32
}

proof fn lemma_find_script_pushed(
    list: Seq<(String, ScriptId)>,
    entry: (String, ScriptId),
    path: Seq<char>,
)
    ensures
        find_script(list.push(entry), path) == if find_script(list, path) is Some {
            find_script(list, path)
        } else if entry.0@ == path {
            Some(entry.1)
        } else {
            None
        },
    decreases list.len(),
{
    let longer = list.push(entry);
    if list.len() == 0 {
        let tail = longer.subrange(1, longer.len() as int);
        assert(find_script(tail, path) is None);
    } else {
        let rest = list.subrange(1, list.len() as int);
        assert(longer.subrange(1, longer.len() as int) =~= rest.push(entry));
        lemma_find_script_pushed(rest, entry, path);
    }
}

/// An entry of a list of sources is found by its path where no earlier entry
/// has that path.
proof fn lemma_find_script_at(list: Seq<(String, ScriptId)>, path: Seq<char>)
    ensures
        find_script(list, path) matches Some(s) ==> exists|i: int|
            0 <= i < list.len() && (#[trigger] list[i]).0@ == path && list[i].1 == s,
    decreases list.len(),
{
    if list.len() > 0 && list[0].0@ != path {
        let rest = list.subrange(1, list.len() as int);
        lemma_find_script_at(rest, path);
        if find_script(rest, path) is Some {
            let i = choose|i: int|
                0 <= i < rest.len() && (#[trigger] rest[i]).0@ == path && rest[i].1
                    == find_script(rest, path)->0;
            assert(list[i + 1] == rest[i]);
        }
    }
}

/// The lines that a list of breakpoints asks for.
pub open spec fn requested_lines(requests: Option<Vec<SourceBreakpoint>>) -> Seq<i64> {
    match requests {
        Some(v) => Seq::new(v@.len(), |i: int| v@[i].line),
        None => Seq::empty(),
    }
}

/// The debugger after a breakpoint was put at each of `lines` in `script`, one
/// after the other.
pub open spec fn installed(d: DebuggerModel, script: ScriptId, lines: Seq<i64>) -> DebuggerModel
    decreases lines.len(),
{
    if lines.len() == 0 {
        d
    } else {
        let before = installed(d, script, lines.drop_last());
        DebuggerModel {
            breakpoints: before.breakpoints.insert(
                (script, line_position(lines.last())),
                BreakpointModel::plain(BreakpointId(before.next_id as u64)),
            ),
            next_id: before.next_id + 1,
            ..before
        }
    }
}

/// The client's breakpoints after `count` breakpoints of `script` were added:
/// they have the identifiers from `first` on, and the debugger knows them by
/// its identifiers from `internal_first` on, in the same order.
pub open spec fn linked(
    m: Map<i64, (BreakpointId, ScriptId)>,
    first: int,
    internal_first: int,
    script: ScriptId,
    count: nat,
) -> Map<i64, (BreakpointId, ScriptId)> {
    Map::new(
        |id: i64| m.dom().contains(id) || first <= id < first + count,
        |id: i64|
            if first <= id < first + count {
                (BreakpointId((internal_first + (id - first)) as u64), script)
            } else {
                m[id]
            },
    )
}

/// What the answer to `setBreakpoints` says of one breakpoint that was asked
/// for: its identifier, its place as it was asked for, and that it stands.
pub open spec fn reports(b: Breakpoint, asked: SourceBreakpoint, source: Source, id: int) -> bool {
    &&& b.id == Some(id as i64)
    &&& b.verified
    &&& b.message is None
    &&& b.source matches Some(s)
    &&& s@ == source@
    &&& b.line == Some(asked.line)
    &&& b.column == asked.column
    &&& b.end_line is None
    &&& b.end_column is None
}

/// The debugger without the breakpoints of `script`.
pub open spec fn cleared(d: DebuggerModel, script: ScriptId) -> DebuggerModel {
    DebuggerModel { breakpoints: d.breakpoints.restrict(outside_script(script)), ..d }
}

proof fn lemma_installed_next(d: DebuggerModel, script: ScriptId, lines: Seq<i64>)
    ensures
        installed(d, script, lines).next_id == d.next_id + lines.len(),
    decreases lines.len(),
{
    if lines.len() > 0 {
        lemma_installed_next(d, script, lines.drop_last());
    }
}

/// What `setBreakpoints` does: to the session, to the debugger, and what it
/// answers.
pub open spec fn sets_breakpoints(
    pre: SessionModel,
    d0: DebuggerModel,
    args: SetBreakpointsArguments,
    res: Result<SetBreakpointsResponseBody, SessionError>,
    post: SessionModel,
    d1: DebuggerModel,
) -> bool {
    let lines = requested_lines(args.breakpoints);
    let key = source_key(args.source);
    let script = script_for(pre.scripts, pre.known_scripts, key);
    let first = pre.next_breakpoint_id;
    &&& 1 <= first <= i64::MAX
    &&& 0 <= d0.next_id <= u64::MAX
    &&& res is Err <==> {
        ||| first + lines.len() > i64::MAX
        ||| d0.next_id + lines.len() > u64::MAX
    }
    &&& res is Err ==> post == pre && d1 == d0
    &&& res matches Ok(body) ==> {
        &&& body.breakpoints@.len() == lines.len()
        &&& forall|i: int|
            0 <= i < lines.len() ==> reports(
                #[trigger] body.breakpoints@[i],
                args.breakpoints->0@[i],
                args.source,
                first + i,
            )
        &&& forall|id: i64| #[trigger] pre.breakpoints.dom().contains(id) ==> id < first
        &&& forall|path: Seq<char>| #[trigger]
            pre.scripts.dom().contains(path) && path != key ==> pre.scripts[path] != script
        &&& d1 == installed(cleared(d0, script), script, lines)
        &&& post == (SessionModel {
            scripts: pre.scripts.insert(key, script),
            known_scripts: if pre.scripts.dom().contains(key) {
                pre.known_scripts
            } else {
                pre.known_scripts + 1
            },
            breakpoints: linked(
                without_script(pre.breakpoints, script),
                first,
                d0.next_id,
                script,
                lines.len(),
            ),
            next_breakpoint_id: first + lines.len(),
            ..pre
        })
    }
}

impl View for DebugSession {
    type V = SessionModel;

    closed spec fn view(&self) -> SessionModel {
        SessionModel {
            worker: self.worker,
            program_path: opt_text(self.program_path),
            scripts: script_map(self.source_to_script@),
            known_scripts: self.source_to_script@.len(),
            breakpoints: self.breakpoint_mapping@,
            next_breakpoint_id: self.next_breakpoint_id as int,
            next_variable_reference: self.next_variable_reference as int,
            variable_references: self.variable_references@,
            thread_id: self.thread_id as int,
            stopped_reason: opt_text(self.stopped_reason),
            running: self.running,
            initialized: self.initialized,
        }
    }
}

impl DebugSession {
    #[verifier::type_invariant]
    spec fn well_formed(&self) -> bool {
        &&& self.thread_id == 1
        &&& self.next_breakpoint_id >= 1
        &&& self.next_variable_reference >= 1
        &&& forall|k: i64| #[trigger]
            self.breakpoint_mapping@.dom().contains(k) ==> 1 <= k < self.next_breakpoint_id
        &&& forall|i: int|
            0 <= i < self.source_to_script@.len() ==> (#[trigger] self.source_to_script@[i]).1
                == ScriptId(i as usize)
        &&& forall|k: i64| #[trigger]
            self.variable_references@.dom().contains(k) ==> 1 <= k
                < self.next_variable_reference
    }

    /// A session that has seen no request.
    pub fn new() -> (s: DebugSession)
        ensures
            s@ == (SessionModel {
                worker: false,
                program_path: None,
                scripts: Map::empty(),
                known_scripts: 0,
                breakpoints: Map::empty(),
                next_breakpoint_id: 1,
                next_variable_reference: 1,
                variable_references: Map::empty(),
                thread_id: 1,
                stopped_reason: None,
                running: false,
                initialized: false,
            }),
    {
        let s = DebugSession {
            worker: false,
            program_path: None,
            source_to_script: Vec::new(),
            breakpoint_mapping: HashMap::new(),
            next_breakpoint_id: 1,
            initialized: false,
            running: false,
            thread_id: 1,
            stopped_reason: None,
            variable_references: HashMap::new(),
            next_variable_reference: 1,
        };
        assert(s@.scripts =~= Map::<Seq<char>, ScriptId>::empty());
        s
    }

    /// Every identifier of a breakpoint that the client knows is older than the
    /// next one, and so is every variable reference.
    pub fn next_breakpoint_id(&self) -> (id: i64)
        ensures
            id as int == self@.next_breakpoint_id,
            id >= 1,
            self@.next_variable_reference >= 1,
            self@.thread_id == 1,
            forall|k: i64| #[trigger] self@.breakpoints.dom().contains(k) ==> 1 <= k < id,
            forall|k: i64| #[trigger]
                self@.variable_references.dom().contains(k) ==> k < self@.next_variable_reference,
    {
        proof {
            use_type_invariant(self);
        }
        self.next_breakpoint_id
    }

    /// What the variable reference `reference` stands for, if it is one of the
    /// current pause.
    pub fn variable_reference(&self, reference: i64) -> (found: Option<&VariableReference>)
        ensures
            match found {
                Some(v) => self@.variable_references.dom().contains(reference)
                    && self@.variable_references[reference] == *v,
                None => !self@.variable_references.dom().contains(reference),
            },
    {
        proof {
            broadcast use vstd::std_specs::hash::group_hash_axioms;
        }
        self.variable_references.get(&reference)
    }

    /// The debugger's breakpoint for the identifier `dap_id` of the client, with
    /// its script, if the client knows a breakpoint by that identifier.
    pub fn breakpoint_link(&self, dap_id: i64) -> (found: Option<BreakpointLink>)
        ensures
            match found {
                Some(link) => self@.breakpoints.dom().contains(dap_id)
                    && self@.breakpoints[dap_id] == (link.internal, link.script) && link.dap_id
                    == dap_id,
                None => !self@.breakpoints.dom().contains(dap_id),
            },
    {
        proof {
            broadcast use vstd::std_specs::hash::group_hash_axioms;
        }
        match self.breakpoint_mapping.get(&dap_id) {
            Some(entry) => Some(BreakpointLink { dap_id, internal: entry.0, script: entry.1 }),
            None => None,
        }
    }

    /// The identifier by which the client knows the debugger's breakpoint
    /// `internal`, if it knows it: the least such identifier.
    pub fn client_breakpoint_id(&self, internal: BreakpointId) -> (found: Option<i64>)
        ensures
            match found {
                Some(id) => self@.breakpoints.dom().contains(id) && self@.breakpoints[id].0
                    == internal,
                None => forall|id: i64| #[trigger]
                    self@.breakpoints.dom().contains(id) ==> self@.breakpoints[id].0 != internal,
            },
    {
        proof {
            use_type_invariant(self);
            broadcast use vstd::std_specs::hash::group_hash_axioms;
        }
        let mut id: i64 = 1;
        while id < self.next_breakpoint_id
            invariant
                1 <= id <= self.next_breakpoint_id,
                forall|k: i64| #[trigger]
                    self.breakpoint_mapping@.dom().contains(k) ==> 1 <= k
                        < self.next_breakpoint_id,
                forall|k: i64| #[trigger]
                    self.breakpoint_mapping@.dom().contains(k) && k < id
                        ==> self.breakpoint_mapping@[k].0 != internal,
            decreases self.next_breakpoint_id - id,
        {
            proof {
                broadcast use vstd::std_specs::hash::group_hash_axioms;
            }
            match self.breakpoint_mapping.get(&id) {
                Some(entry) => {
                    if entry.0.0 == internal.0 {
                        return Some(id);
                    }
                },
                None => {},
            }
            id += 1;
        }
        None
    }

    /// Asks the interpreter to pause.
    pub fn pause(&mut self, debugger: &mut Debugger)
        ensures
            final(self)@ == old(self)@,
            final(debugger)@ == (DebuggerModel { paused: true, ..old(debugger)@ }),
    {
        debugger.pause();
    }

    /// Lets the interpreter run again. No variable reference outlives this.
    ///
    /// The caller wakes the interpreter thread afterwards.
    pub fn resume(&mut self, debugger: &mut Debugger)
        ensures
            final(debugger)@ == (DebuggerModel { paused: false, ..old(debugger)@ }),
            final(self)@ == (SessionModel {
                running: true,
                stopped_reason: None,
                variable_references: Map::empty(),
                ..old(self)@
            }),
    {
        proof {
            use_type_invariant(&*self);
        }
        debugger.resume();
        self.running = true;
        self.stopped_reason = None;
        self.variable_references = HashMap::new();
    }

    /// Whether the interpreter is paused.
    pub fn is_paused(&self, debugger: &Debugger) -> (paused: bool)
        ensures
            paused == debugger@.paused,
    {
        debugger.is_paused()
    }

    /// The capabilities of this adapter.
    pub open spec fn capabilities() -> Capabilities {
        Capabilities {
            supports_configuration_done_request: true,
            supports_function_breakpoints: false,
            supports_conditional_breakpoints: true,
            supports_hit_conditional_breakpoints: true,
            supports_evaluate_for_hovers: true,
            supports_step_back: false,
            supports_set_variable: false,
            supports_restart_frame: false,
            supports_goto_targets_request: false,
            supports_step_in_targets_request: false,
            supports_completions_request: false,
            supports_modules_request: false,
            supports_restart_request: false,
            supports_exception_options: false,
            supports_value_formatting_options: true,
            supports_exception_info_request: false,
            supports_terminate_debuggee: true,
            supports_delayed_stack_trace_loading: false,
            supports_loaded_sources_request: false,
            supports_log_points: true,
            supports_terminate_threads_request: false,
            supports_set_expression: false,
            supports_terminate_request: true,
            supports_data_breakpoints: false,
            supports_read_memory_request: false,
            supports_disassemble_request: false,
            supports_cancel_request: false,
            supports_breakpoint_locations_request: false,
            supports_clipboard_context: false,
        }
    }

    /// Answers `initialize` with the capabilities of this adapter: always the
    /// same record.
    pub fn handle_initialize(&mut self, _args: InitializeRequestArguments) -> (caps: Capabilities)
        ensures
            caps == Self::capabilities(),
            final(self)@ == (SessionModel { initialized: true, ..old(self)@ }),
    {
        proof {
            use_type_invariant(&*self);
        }
        self.initialized = true;
        Capabilities {
            supports_configuration_done_request: true,
            supports_function_breakpoints: false,
            supports_conditional_breakpoints: true,
            supports_hit_conditional_breakpoints: true,
            supports_evaluate_for_hovers: true,
            supports_step_back: false,
            supports_set_variable: false,
            supports_restart_frame: false,
            supports_goto_targets_request: false,
            supports_step_in_targets_request: false,
            supports_completions_request: false,
            supports_modules_request: false,
            supports_restart_request: false,
            supports_exception_options: false,
            supports_value_formatting_options: true,
            supports_exception_info_request: false,
            supports_terminate_debuggee: true,
            supports_delayed_stack_trace_loading: false,
            supports_loaded_sources_request: false,
            supports_log_points: true,
            supports_terminate_threads_request: false,
            supports_set_expression: false,
            supports_terminate_request: true,
            supports_data_breakpoints: false,
            supports_read_memory_request: false,
            supports_disassemble_request: false,
            supports_cancel_request: false,
            supports_breakpoint_locations_request: false,
            supports_clipboard_context: false,
        }
    }

    /// What a launch asks of the embedding program, step by step.
    ///
    /// The first launch starts the worker and then the forwarder of its events.
    /// Only after that is the program submitted, so that no event of the program
    /// is lost.
    pub open spec fn launch_steps(worker: bool, program: Option<Seq<char>>) -> Seq<
        LaunchStepModel,
    > {
        let start = if worker {
            Seq::<LaunchStepModel>::empty()
        } else {
            seq![LaunchStepModel::SpawnWorker, LaunchStepModel::SpawnForwarder]
        };
        match program {
            Some(path) => start.push(LaunchStepModel::RunProgram(path)),
            None => start,
        }
    }

    /// Answers `launch`: records the program and says what is to be done.
    pub fn handle_launch(&mut self, args: LaunchRequestArguments) -> (steps: Vec<LaunchStep>)
        ensures
            final(self)@ == (SessionModel {
                worker: true,
                program_path: opt_text(args.program),
                running: false,
                ..old(self)@
            }),
            steps@.map_values(|s: LaunchStep| s@) == Self::launch_steps(
                old(self)@.worker,
                opt_text(args.program),
            ),
    {
        proof {
            use_type_invariant(&*self);
        }
        let mut steps: Vec<LaunchStep> = Vec::new();
        if !self.worker {
            steps.push(LaunchStep::SpawnWorker);
            steps.push(LaunchStep::SpawnForwarder);
        }
        match &args.program {
            Some(path) => {
                steps.push(LaunchStep::RunProgram(path.clone()));
            },
            None => {},
        }
        self.program_path = args.program;
        self.worker = true;
        self.running = false;
        assert(steps@.map_values(|s: LaunchStep| s@) =~= Self::launch_steps(
            old(self)@.worker,
            opt_text(self.program_path),
        ));
        steps
    }

    /// The program of the last launch.
    pub fn get_program_path(&self) -> (path: Option<&str>)
        ensures
            match path {
                Some(p) => self@.program_path == Some(p@),
                None => self@.program_path is None,
            },
    {
        match &self.program_path {
            Some(p) => Some(p.as_str()),
            None => None,
        }
    }

    /// The text that answers `execute` before any launch.
    pub open spec fn not_launched() -> Seq<char> {
        "Evaluation context not initialized. Call handle_launch first."@
    }

    /// The task that evaluates `source` on the worker, or the reason why there
    /// is none: no worker was started.
    pub fn execute(&self, source: String) -> (task: Result<EvalTask, String>)
        ensures
            match task {
                Ok(t) => {
                    &&& self@.worker
                    &&& t matches EvalTask::ExecuteBlocking { source: s }
                    &&& s@ == source@
                },
                Err(e) => !self@.worker && e@ == Self::not_launched(),
            },
    {
        if self.worker {
            Ok(EvalTask::ExecuteBlocking { source })
        } else {
            Err(owned("Evaluation context not initialized. Call handle_launch first."))
        }
    }

    /// Answers `attach`: nothing is to be done.
    pub fn handle_attach(&mut self, _args: AttachRequestArguments)
        ensures
            final(self)@ == old(self)@,
    {
    }

    /// The script of the source that is known by `key`: the one it has already,
    /// or a new one.
    fn resolve_script(&mut self, key: String) -> (script: ScriptId)
        ensures
            script == script_for(old(self)@.scripts, old(self)@.known_scripts, key@),
            forall|path: Seq<char>| #[trigger]
                old(self)@.scripts.dom().contains(path) && path != key@ ==> old(
                    self,
                )@.scripts[path] != script,
            final(self)@ == (SessionModel {
                scripts: old(self)@.scripts.insert(key@, script),
                known_scripts: if old(self)@.scripts.dom().contains(key@) {
                    old(self)@.known_scripts
                } else {
                    old(self)@.known_scripts + 1
                },
                ..old(self)@
            }),
    {
        proof {
            use_type_invariant(&*self);
        }
        let ghost all = self.source_to_script@;
        let mut i: usize = 0;
        assert(all.subrange(0, all.len() as int) =~= all);
        proof {
            assert forall|path: Seq<char>| #[trigger]
                script_map(all).dom().contains(path) implies exists|j: int|
                0 <= j < all.len() && (#[trigger] all[j]).0@ == path && script_map(all)[path]
                    == ScriptId(j as usize) by {
                lemma_find_script_at(all, path);
            }
        }
        while i < self.source_to_script.len()
            invariant
                i <= self.source_to_script.len(),
                all == self.source_to_script@,
                *self == *old(self),
                forall|k: int| 0 <= k < i ==> (#[trigger] all[k]).0@ != key@,
                forall|path: Seq<char>| #[trigger]
                    script_map(all).dom().contains(path) ==> exists|j: int|
                        0 <= j < all.len() && (#[trigger] all[j]).0@ == path && script_map(
                            all,
                        )[path] == ScriptId(j as usize),
                forall|k: int| 0 <= k < all.len() ==> (#[trigger] all[k]).1 == ScriptId(k as usize),
                find_script(all, key@) == find_script(
                    all.subrange(i as int, all.len() as int),
                    key@,
                ),
            decreases self.source_to_script.len() - i,
        {
            let ghost rest = all.subrange(i as int, all.len() as int);
            assert(rest.subrange(1, rest.len() as int) =~= all.subrange(
                i as int + 1,
                all.len() as int,
            ));
            if same_text(self.source_to_script[i].0.as_str(), key.as_str()) {
                let script = self.source_to_script[i].1;
                assert(self@.scripts =~= old(self)@.scripts.insert(key@, script));
                return script;
            }
            i += 1;
        }
        let script = ScriptId(self.source_to_script.len());
        let mut list: Vec<(String, ScriptId)> = Vec::new();
        std::mem::swap(&mut list, &mut self.source_to_script);
        let ghost entry = (key, script);
        list.push((key, script));
        self.source_to_script = list;
        proof {
            assert forall|path: Seq<char>|
                find_script(all.push(entry), path) == if find_script(all, path) is Some {
                    find_script(all, path)
                } else if key@ == path {
                    Some(script)
                } else {
                    None
                } by {
                lemma_find_script_pushed(all, entry, path);
            }
            assert(self@.scripts =~= old(self)@.scripts.insert(key@, script));
        }
        script
    }

    /// Forgets the client's breakpoints that stand in `script`. Every
    /// identifier that was given so far is looked at.
    fn unlink_script(&mut self, script: ScriptId)
        ensures
            final(self)@ == (SessionModel {
                breakpoints: without_script(old(self)@.breakpoints, script),
                ..old(self)@
            }),
    {
        proof {
            use_type_invariant(&*self);
        }
        let next = self.next_breakpoint_id;
        let mut map: HashMap<i64, (BreakpointId, ScriptId)> = HashMap::new();
        std::mem::swap(&mut map, &mut self.breakpoint_mapping);
        let ghost before = map@;
        let mut id: i64 = 1;
        while id < next
            invariant
                1 <= id <= next,
                forall|k: i64| #[trigger] before.dom().contains(k) ==> 1 <= k < next,
                map@ == Map::new(
                    |k: i64| before.dom().contains(k) && (k >= id || before[k].1 != script),
                    |k: i64| before[k],
                ),
            decreases next - id,
        {
            proof {
                broadcast use vstd::std_specs::hash::group_hash_axioms;
            }
            let stands_there = match map.get(&id) {
                Some(entry) => entry.1.0 == script.0,
                None => false,
            };
            if stands_there {
                map.remove(&id);
            }
            assert(map@ =~= Map::new(
                |k: i64| before.dom().contains(k) && (k >= id + 1 || before[k].1 != script),
                |k: i64| before[k],
            ));
            id += 1;
        }
        assert(map@ =~= without_script(before, script));
        self.breakpoint_mapping = map;
    }

    /// Answers `setBreakpoints`: the breakpoints of the source are replaced by
    /// those that are asked for.
    ///
    /// The source gets its script, a new one if it was not named before. Every
    /// breakpoint of that script is taken away, from the debugger and from what
    /// the client knows. Then each breakpoint that is asked for is put and gets
    /// the next identifier of the session; the answer lists them in the order
    /// asked, each as verified. A line that does not fit 32 bits is cut to them.
    ///
    /// It fails, and changes nothing, if there are not enough identifiers left.
    pub fn handle_set_breakpoints(
        &mut self,
        debugger: &mut Debugger,
        args: SetBreakpointsArguments,
    ) -> (res: Result<SetBreakpointsResponseBody, SessionError>)
        ensures
            sets_breakpoints(old(self)@, old(debugger)@, args, res, final(self)@, final(debugger)@),
    {
        let first = self.next_breakpoint_id();
        let internal_first = debugger.next_id();
        let count: usize = match &args.breakpoints {
            Some(v) => v.len(),
            None => 0,
        };
        let ghost lines = requested_lines(args.breakpoints);
        let room: u64 = (i64::MAX - first) as u64;
        let internal_room: u64 = u64::MAX - internal_first;
        if count as u64 > room || count as u64 > internal_room {
            return Err(SessionError::IdentifiersExhausted);
        }
        let key = match &args.source.path {
            Some(p) => p.clone(),
            None => match &args.source.name {
                Some(n) => n.clone(),
                None => owned("unknown"),
            },
        };
        let script = self.resolve_script(key);
        debugger.clear_breakpoints(script);
        self.unlink_script(script);
        let ghost debugger0 = debugger@;
        let mut breakpoints: Vec<Breakpoint> = Vec::new();
        let mut links: HashMap<i64, (BreakpointId, ScriptId)> = HashMap::new();
        proof {
            use_type_invariant(&*self);
        }
        std::mem::swap(&mut links, &mut self.breakpoint_mapping);
        let ghost links0 = links@;
        assert(links@ =~= linked(links0, first as int, debugger0.next_id, script, 0));
        match &args.breakpoints {
            Some(requests) => {
                let mut i: usize = 0;
                while i < requests.len()
                    invariant
                        i <= requests.len(),
                        requests@.len() == count,
                        args.breakpoints == Some(*requests),
                        lines == requested_lines(args.breakpoints),
                        first + count <= i64::MAX,
                        first >= 1,
                        debugger0.next_id + count <= u64::MAX,
                        breakpoints@.len() == i,
                        forall|k: int|
                            0 <= k < i ==> reports(
                                #[trigger] breakpoints@[k],
                                requests@[k],
                                args.source,
                                first + k,
                            ),
                        debugger@ == installed(debugger0, script, lines.subrange(0, i as int)),
                        links@ == linked(
                            links0,
                            first as int,
                            debugger0.next_id,
                            script,
                            i as nat,
                        ),
                        forall|k: i64| #[trigger] links0.dom().contains(k) ==> 1 <= k < first,
                    decreases requests.len() - i,
                {
                    let ghost front = lines.subrange(0, i as int);
                    let ghost upto = lines.subrange(0, i as int + 1);
                    proof {
                        assert(upto.drop_last() =~= front);
                        lemma_installed_next(debugger0, script, front);
                        broadcast use vstd::std_specs::hash::group_hash_axioms;
                    }
                    let asked = &requests[i];
                    let dap_id = first + i as i64;
                    let at = #[verifier::truncate]
                    (asked.line as u32);
                    let internal = debugger.set_breakpoint(script, at);
                    links.insert(dap_id, (internal, script));
                    assert(links@ =~= linked(
                        links0,
                        first as int,
                        debugger0.next_id,
                        script,
                        (i + 1) as nat,
                    ));
                    breakpoints.push(
                        Breakpoint {
                            id: Some(dap_id),
                            verified: true,
                            message: None,
                            source: Some(args.source.copy()),
                            line: Some(asked.line),
                            column: asked.column,
                            end_line: None,
                            end_column: None,
                        },
                    );
                    i += 1;
                }
                assert(lines.subrange(0, i as int) =~= lines);
            },
            None => {
            },
        }
        self.next_breakpoint_id = first + count as i64;
        self.breakpoint_mapping = links;
        Ok(SetBreakpointsResponseBody { breakpoints })
    }

    /// Answers `disconnect`: the debugger is told to shut down, which ends the
    /// wait of a paused worker, and the session has no worker any more.
    ///
    /// The caller wakes the interpreter thread afterwards and takes the worker
    /// and the forwarder down.
    pub fn handle_disconnect(&mut self, debugger: &mut Debugger)
        ensures
            final(debugger)@ == (DebuggerModel { shutting_down: true, ..old(debugger)@ }),
            final(self)@ == (SessionModel { worker: false, running: false, ..old(self)@ }),
    {
        proof {
            use_type_invariant(&*self);
        }
        debugger.shutdown();
        self.worker = false;
        self.running = false;
    }

    /// Answers `continue`: the step mode is dropped and the interpreter runs.
    pub fn handle_continue(&mut self, debugger: &mut Debugger, _args: ContinueArguments) -> (body:
        ContinueResponseBody)
        ensures
            body.all_threads_continued,
            final(debugger)@ == (DebuggerModel {
                paused: false,
                step_mode: StepMode::Continue,
                ..old(debugger)@
            }),
            final(self)@ == (SessionModel {
                running: true,
                stopped_reason: None,
                variable_references: Map::empty(),
                ..old(self)@
            }),
    {
        debugger.set_step_mode(StepMode::Continue);
        self.resume(debugger);
        ContinueResponseBody { all_threads_continued: true }
    }

    /// Answers `next`: the interpreter runs to the next instruction of the
    /// frame of depth `frame_depth`, or of one that called it.
    pub fn handle_next(&mut self, debugger: &mut Debugger, _args: NextArguments, frame_depth: usize)
        ensures
            final(debugger)@ == (DebuggerModel {
                paused: false,
                step_mode: StepMode::Over(frame_depth),
                ..old(debugger)@
            }),
            final(self)@ == (SessionModel {
                running: true,
                stopped_reason: None,
                variable_references: Map::empty(),
                ..old(self)@
            }),
    {
        debugger.set_step_mode(StepMode::Over(frame_depth));
        self.resume(debugger);
    }

    /// Answers `stepIn`: the interpreter runs to the next instruction.
    pub fn handle_step_in(&mut self, debugger: &mut Debugger, _args: StepInArguments)
        ensures
            final(debugger)@ == (DebuggerModel {
                paused: false,
                step_mode: StepMode::Into,
                ..old(debugger)@
            }),
            final(self)@ == (SessionModel {
                running: true,
                stopped_reason: None,
                variable_references: Map::empty(),
                ..old(self)@
            }),
    {
        debugger.set_step_mode(StepMode::Into);
        self.resume(debugger);
    }

    /// Answers `stepOut`: the interpreter runs until the frame of depth
    /// `frame_depth` has returned.
    pub fn handle_step_out(
        &mut self,
        debugger: &mut Debugger,
        _args: StepOutArguments,
        frame_depth: usize,
    )
        ensures
            final(debugger)@ == (DebuggerModel {
                paused: false,
                step_mode: StepMode::Out(frame_depth),
                ..old(debugger)@
            }),
            final(self)@ == (SessionModel {
                running: true,
                stopped_reason: None,
                variable_references: Map::empty(),
                ..old(self)@
            }),
    {
        debugger.set_step_mode(StepMode::Out(frame_depth));
        self.resume(debugger);
    }

    /// Answers `variables`: no variable is shown yet.
    pub fn handle_variables(&mut self, _args: VariablesArguments) -> (body: VariablesResponseBody)
        ensures
            body.variables@.len() == 0,
            final(self)@ == old(self)@,
    {
        VariablesResponseBody { variables: Vec::new() }
    }

    /// Answers `threads`: the one thread of the interpreter.
    pub fn handle_threads(&mut self) -> (body: ThreadsResponseBody)
        ensures
            body.threads@.len() == 1,
            body.threads@[0].id == 1,
            body.threads@[0].name@ == "Main Thread"@,
            final(self)@ == old(self)@,
    {
        proof {
            use_type_invariant(&*self);
        }
        let mut threads: Vec<Thread> = Vec::new();
        threads.push(Thread { id: self.thread_id, name: owned("Main Thread") });
        ThreadsResponseBody { threads }
    }

    /// Takes note that the interpreter stopped.
    pub fn notify_stopped(&mut self, reason: String)
        ensures
            final(self)@ == (SessionModel {
                running: false,
                stopped_reason: Some(reason@),
                ..old(self)@
            }),
    {
        proof {
            use_type_invariant(&*self);
        }
        self.running = false;
        self.stopped_reason = Some(reason);
    }

    /// The identifier of the interpreter's one thread.
    pub fn thread_id(&self) -> (id: i64)
        ensures
            id == 1,
            id as int == self@.thread_id,
    {
        proof {
            use_type_invariant(self);
        }
        self.thread_id
    }

    pub fn is_running(&self) -> (running: bool)
        ensures
            running == self@.running,
    {
        self.running
    }

    pub fn is_initialized(&self) -> (initialized: bool)
        ensures
            initialized == self@.initialized,
    {
        self.initialized
    }

    /// Whether the worker was started.
    pub fn has_worker(&self) -> (worker: bool)
        ensures
            worker == self@.worker,
    {
        self.worker
    }

    pub fn stopped_reason(&self) -> (reason: Option<&str>)
        ensures
            match reason {
                Some(r) => self@.stopped_reason == Some(r@),
                None => self@.stopped_reason is None,
            },
    {
        match &self.stopped_reason {
            Some(r) => Some(r.as_str()),
            None => None,
        }
    }

    /// The task that reads the call stack, if the worker is there and paused:
    /// only then can it answer at once.
    pub fn stack_trace_task(&self, debugger: &Debugger) -> (task: Option<EvalTask>)
        ensures
            task is Some <==> self@.worker && debugger@.paused,
            task matches Some(t) ==> t is StackTrace,
    {
        if self.worker && debugger.is_paused() {
            Some(EvalTask::StackTrace)
        } else {
            None
        }
    }

    /// The task that evaluates the expression of `args`, if the worker is there
    /// and paused.
    pub fn evaluate_task(&self, debugger: &Debugger, args: &EvaluateArguments) -> (task: Option<
        EvalTask,
    >)
        ensures
            task is Some <==> self@.worker && debugger@.paused,
            task matches Some(t) ==> t matches EvalTask::Evaluate { expression } && expression@
                == args.expression@,
    {
        if self.worker && debugger.is_paused() {
            Some(EvalTask::Evaluate { expression: args.expression.clone() })
        } else {
            None
        }
    }

    /// Answers `stackTrace` with the frames that the worker gave, the innermost
    /// first. Without frames the list is empty.
    pub fn handle_stack_trace(
        &mut self,
        _args: StackTraceArguments,
        frames: &Vec<StackFrameInfo>,
    ) -> (body: StackTraceResponseBody)
        requires
            frames@.len() <= i64::MAX,
        ensures
            final(self)@ == old(self)@,
            body.total_frames == Some(frames@.len() as i64),
            body.stack_frames@.len() == frames@.len(),
            forall|i: int|
                0 <= i < frames@.len() ==> shows_frame(
                    #[trigger] body.stack_frames@[i],
                    frames@[i],
                    i,
                ),
    {
        let mut stack_frames: Vec<StackFrame> = Vec::new();
        let mut i: usize = 0;
        while i < frames.len()
            invariant
                i <= frames.len(),
                frames@.len() <= i64::MAX,
                stack_frames@.len() == i,
                forall|k: int|
                    0 <= k < i ==> shows_frame(#[trigger] stack_frames@[k], frames@[k], k),
            decreases frames.len() - i,
        {
            let frame = &frames[i];
            let source = Source {
                name: Some(frame.function_name.clone()),
                path: Some(frame.source_path.clone()),
                source_reference: None,
                presentation_hint: None,
                origin: None,
                sources: None,
                adapter_data: None,
                checksums: None,
            };
            stack_frames.push(
                StackFrame {
                    id: i as i64,
                    name: frame.function_name.clone(),
                    source: Some(source),
                    line: frame.line_number as i64,
                    column: frame.column_number as i64,
                    end_line: None,
                    end_column: None,
                    can_restart: false,
                    instruction_pointer_reference: Some(decimal_string(frame.pc)),
                    module_id: None,
                    presentation_hint: None,
                },
            );
            i += 1;
        }
        StackTraceResponseBody { stack_frames, total_frames: Some(frames.len() as i64) }
    }

    /// Answers `scopes` with the local and the global scope of the frame, each
    /// under a new variable reference: one that is greater than every reference
    /// there is, so that none is used twice within a pause.
    ///
    /// It fails, and changes nothing, if two more references cannot be had.
    pub fn handle_scopes(&mut self, args: ScopesArguments) -> (res: Result<
        ScopesResponseBody,
        SessionError,
    >)
        ensures
            res is Err <==> old(self)@.next_variable_reference + 2 > i64::MAX,
            res is Err ==> final(self)@ == old(self)@,
            1 <= old(self)@.next_variable_reference <= i64::MAX,
            forall|k: i64| #[trigger]
                old(self)@.variable_references.dom().contains(k) ==> 1 <= k < old(
                    self,
                )@.next_variable_reference,
            res matches Ok(body) ==> {
                let local = old(self)@.next_variable_reference;
                &&& body.scopes@.len() == 2
                &&& is_scope(body.scopes@[0], "Local"@, "locals"@, local)
                &&& is_scope(body.scopes@[1], "Global"@, "globals"@, local + 1)
                &&& final(self)@ == (SessionModel {
                    next_variable_reference: local + 2,
                    variable_references: old(self)@.variable_references.insert(
                        local as i64,
                        VariableReference::Scope {
                            frame_id: args.frame_id,
                            scope_type: ScopeType::Local,
                        },
                    ).insert(
                        (local + 1) as i64,
                        VariableReference::Scope {
                            frame_id: args.frame_id,
                            scope_type: ScopeType::Global,
                        },
                    ),
                    ..old(self)@
                })
            },
    {
        proof {
            use_type_invariant(&*self);
        }
        if self.next_variable_reference > i64::MAX - 2 {
            return Err(SessionError::IdentifiersExhausted);
        }
        let local_ref = self.next_variable_reference;
        let global_ref = local_ref + 1;
        let mut references: HashMap<i64, VariableReference> = HashMap::new();
        std::mem::swap(&mut references, &mut self.variable_references);
        proof {
            broadcast use vstd::std_specs::hash::group_hash_axioms;
        }
        references.insert(
            local_ref,
            VariableReference::Scope { frame_id: args.frame_id, scope_type: ScopeType::Local },
        );
        references.insert(
            global_ref,
            VariableReference::Scope { frame_id: args.frame_id, scope_type: ScopeType::Global },
        );
        self.next_variable_reference = local_ref + 2;
        self.variable_references = references;
        let mut scopes: Vec<Scope> = Vec::new();
        scopes.push(
            Scope {
                name: owned("Local"),
                presentation_hint: Some(owned("locals")),
                variables_reference: local_ref,
                named_variables: None,
                indexed_variables: None,
                expensive: false,
                source: None,
                line: None,
                column: None,
                end_line: None,
                end_column: None,
            },
        );
        scopes.push(
            Scope {
                name: owned("Global"),
                presentation_hint: Some(owned("globals")),
                variables_reference: global_ref,
                named_variables: None,
                indexed_variables: None,
                expensive: false,
                source: None,
                line: None,
                column: None,
                end_line: None,
                end_column: None,
            },
        );
        Ok(ScopesResponseBody { scopes })
    }

    /// The text that answers `evaluate`: what the worker gave; its error, marked
    /// as one; or, where the worker was not asked, a text that says so.
    pub open spec fn evaluation_text(
        expression: Seq<char>,
        reply: Option<Result<String, String>>,
    ) -> Seq<char> {
        match reply {
            Some(Ok(text)) => text@,
            Some(Err(e)) => "Error: "@ + e@,
            None => "Evaluation context not initialized: "@ + expression,
        }
    }

    /// Answers `evaluate` with what the worker replied, if it was asked.
    pub fn handle_evaluate(
        &mut self,
        args: EvaluateArguments,
        reply: Option<Result<String, String>>,
    ) -> (body: EvaluateResponseBody)
        ensures
            final(self)@ == old(self)@,
            body.result@ == Self::evaluation_text(args.expression@, reply),
            opt_text(body.type_) == Some("string"@),
            body.presentation_hint is None,
            body.variables_reference == 0,
            body.named_variables is None,
            body.indexed_variables is None,
    {
        let result = match reply {
            Some(Ok(text)) => text,
            Some(Err(e)) => owned("Error: ").concat(e.as_str()),
            None => owned("Evaluation context not initialized: ").concat(
                args.expression.as_str(),
            ),
        };
        EvaluateResponseBody {
            result,
            type_: Some(owned("string")),
            presentation_hint: None,
            variables_reference: 0,
            named_variables: None,
            indexed_variables: None,
        }
    }
}

/// Whether `f` shows the frame `info`, the `index`-th from the innermost.
pub open spec fn shows_frame(f: StackFrame, info: StackFrameInfo, index: int) -> bool {
    &&& f.id == index
    &&& f.name@ == info.function_name@
    &&& f.source matches Some(s)
    &&& opt_text(s.name) == Some(info.function_name@)
    &&& opt_text(s.path) == Some(info.source_path@)
    &&& s.source_reference is None
    &&& s.presentation_hint is None
    &&& s.origin is None
    &&& s.sources is None
    &&& s.adapter_data is None
    &&& s.checksums is None
    &&& f.line == info.line_number
    &&& f.column == info.column_number
    &&& f.end_line is None
    &&& f.end_column is None
    &&& !f.can_restart
    &&& opt_text(f.instruction_pointer_reference) == Some(decimal(info.pc as nat))
    &&& f.module_id is None
    &&& f.presentation_hint is None
}

/// Whether `s` is the scope called `name`, shown as `hint`, whose variables are
/// had under `reference`.
pub open spec fn is_scope(s: Scope, name: Seq<char>, hint: Seq<char>, reference: int) -> bool {
    &&& s.name@ == name
    &&& opt_text(s.presentation_hint) == Some(hint)
    &&& s.variables_reference == reference
    &&& s.named_variables is None
    &&& s.indexed_variables is None
    &&& !s.expensive
    &&& s.source is None
    &&& s.line is None
    &&& s.column is None
    &&& s.end_line is None
    &&& s.end_column is None
}

/// Whether two reported breakpoints differ in nothing but their identifier.
pub open spec fn same_shape(a: Breakpoint, b: Breakpoint) -> bool {
    &&& a.id is Some <==> b.id is Some
    &&& a.verified == b.verified
    &&& opt_text(a.message) == opt_text(b.message)
    &&& a.source is Some <==> b.source is Some
    &&& a.source matches Some(s) ==> s@ == b.source->0@
    &&& a.line == b.line
    &&& a.column == b.column
    &&& a.end_line == b.end_line
    &&& a.end_column == b.end_column
}

/// The breakpoints that replace those of a source get the next identifiers of
/// the session, each greater than any that a breakpoint of the session had
/// before, and there are as many of them as were asked for.
pub proof fn lemma_replacing_takes_new_identifiers(
    pre: SessionModel,
    d0: DebuggerModel,
    args: SetBreakpointsArguments,
    body: SetBreakpointsResponseBody,
    post: SessionModel,
    d1: DebuggerModel,
)
    requires
        sets_breakpoints(pre, d0, args, Ok(body), post, d1),
    ensures
        body.breakpoints@.len() == requested_lines(args.breakpoints).len(),
        forall|i: int|
            0 <= i < body.breakpoints@.len() ==> (#[trigger] body.breakpoints@[i]).id == Some(
                (pre.next_breakpoint_id + i) as i64,
            ),
        forall|i: int, known: i64|
            0 <= i < body.breakpoints@.len() && #[trigger] pre.breakpoints.dom().contains(known)
                ==> known < (#[trigger] body.breakpoints@[i]).id->0,
{
    assert forall|i: int| 0 <= i < body.breakpoints@.len() implies (
    #[trigger] body.breakpoints@[i]).id == Some((pre.next_breakpoint_id + i) as i64) by {
        assert(reports(
            body.breakpoints@[i],
            args.breakpoints->0@[i],
            args.source,
            pre.next_breakpoint_id + i,
        ));
    }
}

/// Asking twice for the same breakpoints gives two answers of the same shape:
/// entry by entry they differ in nothing but the identifier.
pub proof fn lemma_same_request_same_shape(
    pre1: SessionModel,
    d1: DebuggerModel,
    pre2: SessionModel,
    d2: DebuggerModel,
    args: SetBreakpointsArguments,
    first: SetBreakpointsResponseBody,
    second: SetBreakpointsResponseBody,
    post1: SessionModel,
    e1: DebuggerModel,
    post2: SessionModel,
    e2: DebuggerModel,
)
    requires
        sets_breakpoints(pre1, d1, args, Ok(first), post1, e1),
        sets_breakpoints(pre2, d2, args, Ok(second), post2, e2),
    ensures
        first.breakpoints@.len() == second.breakpoints@.len(),
        forall|i: int|
            0 <= i < first.breakpoints@.len() ==> same_shape(
                #[trigger] first.breakpoints@[i],
                second.breakpoints@[i],
            ),
{
    assert forall|i: int| 0 <= i < first.breakpoints@.len() implies same_shape(
        #[trigger] first.breakpoints@[i],
        second.breakpoints@[i],
    ) by {
        assert(reports(
            first.breakpoints@[i],
            args.breakpoints->0@[i],
            args.source,
            pre1.next_breakpoint_id + i,
        ));
        assert(reports(
            second.breakpoints@[i],
            args.breakpoints->0@[i],
            args.source,
            pre2.next_breakpoint_id + i,
        ));
    }
}

/// Asking for no breakpoint clears the source: afterwards the debugger has no
/// breakpoint in its script, the client knows none there, and the answer lists
/// none. Breakpoints of other scripts stay.
pub proof fn lemma_empty_request_clears(
    pre: SessionModel,
    d0: DebuggerModel,
    args: SetBreakpointsArguments,
    body: SetBreakpointsResponseBody,
    post: SessionModel,
    d1: DebuggerModel,
)
    requires
        sets_breakpoints(pre, d0, args, Ok(body), post, d1),
        requested_lines(args.breakpoints).len() == 0,
    ensures
        body.breakpoints@.len() == 0,
        forall|at: Location| #[trigger]
            d1.breakpoints.dom().contains(at) <==> d0.breakpoints.dom().contains(at) && at.0
                != script_for(pre.scripts, pre.known_scripts, source_key(args.source)),
        forall|id: i64| #[trigger]
            post.breakpoints.dom().contains(id) <==> pre.breakpoints.dom().contains(id)
                && pre.breakpoints[id].1 != script_for(
                pre.scripts,
                pre.known_scripts,
                source_key(args.source),
            ),
{
}

/// Putting breakpoints into a script touches no location of another script.
proof fn lemma_installed_elsewhere(d: DebuggerModel, script: ScriptId, lines: Seq<i64>)
    ensures
        forall|at: Location|
            at.0 != script ==> (#[trigger] installed(d, script, lines).breakpoints.dom().contains(
                at,
            ) <==> d.breakpoints.dom().contains(at)),
        forall|at: Location|
            at.0 != script && #[trigger] d.breakpoints.dom().contains(at) ==> installed(
                d,
                script,
                lines,
            ).breakpoints[at] == d.breakpoints[at],
    decreases lines.len(),
{
    if lines.len() > 0 {
        lemma_installed_elsewhere(d, script, lines.drop_last());
    }
}

/// Replacing the breakpoints of one source leaves those of every other source
/// as they are: each source has a script of its own, and only the script of the
/// source that is named is touched, in the debugger and in what the client
/// knows.
pub proof fn lemma_other_sources_keep_breakpoints(
    pre: SessionModel,
    d0: DebuggerModel,
    args: SetBreakpointsArguments,
    body: SetBreakpointsResponseBody,
    post: SessionModel,
    d1: DebuggerModel,
    other: Seq<char>,
)
    requires
        sets_breakpoints(pre, d0, args, Ok(body), post, d1),
        pre.scripts.dom().contains(other),
        other != source_key(args.source),
    ensures
        post.scripts.dom().contains(other),
        post.scripts[other] == pre.scripts[other],
        forall|line: u32|
            d1.breakpoints.dom().contains((pre.scripts[other], line)) <==> #[trigger]
            d0.breakpoints.dom().contains((pre.scripts[other], line)),
        forall|line: u32| #[trigger]
            d0.breakpoints.dom().contains((pre.scripts[other], line)) ==> d1.breakpoints[(
                pre.scripts[other],
                line,
            )] == d0.breakpoints[(pre.scripts[other], line)],
        forall|id: i64|
            pre.breakpoints.dom().contains(id) && pre.breakpoints[id].1 == pre.scripts[other]
                ==> #[trigger] post.breakpoints.dom().contains(id) && post.breakpoints[id]
                == pre.breakpoints[id],
{
    let script = script_for(pre.scripts, pre.known_scripts, source_key(args.source));
    let emptied = cleared(d0, script);
    lemma_installed_elsewhere(emptied, script, requested_lines(args.breakpoints));
    assert forall|line: u32| #[trigger]
        d0.breakpoints.dom().contains((pre.scripts[other], line)) implies d1.breakpoints[(
        pre.scripts[other],
        line,
    )] == d0.breakpoints[(pre.scripts[other], line)] by {
        assert(emptied.breakpoints.dom().contains((pre.scripts[other], line)));
    }
}

} // verus!
