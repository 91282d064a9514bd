//! The server: it takes a request, lets the session act on it and wraps what
//! comes of it as protocol messages.
//!
//! Every message that leaves, be it a response or an event, takes its sequence
//! number from the one counter of the server. Whatever needs the worker, a
//! thread or a file is handed back to the caller as a reaction to carry out.

use crate::debugger::{Debugger, DebuggerModel, StepMode};
use crate::decode::{flaw_text, Decode, DecodeError};
use crate::encode::{Encode, Fields};
use crate::eval_context::{DebugEvent, EvalTask, EventModel, InspectionReply, StackFrameInfo};
use crate::json::{opt_json, views, Json, JsonValue};
use crate::messages::{
    AttachRequestArguments, ContinueArguments, EvaluateArguments, InitializeRequestArguments,
    LaunchRequestArguments, NextArguments, OutputEventBody, ScopesArguments, ScopesResponseBody,
    SetBreakpointsArguments, SetBreakpointsResponseBody, StackTraceArguments,
    StackTraceResponseBody, StepInArguments, StepOutArguments, StoppedEventBody,
    TerminatedEventBody, VariablesArguments,
};
use crate::protocol::{Event, MessageModel, ProtocolMessage, Request, Response};
use crate::session::{
    is_scope, sets_breakpoints, shows_frame, DebugSession, LaunchStep, ScopeType, SessionError,
    SessionModel, VariableReference,
};
use crate::text::{copy_opt_text, decimal, opt_text, owned, same_text};
use vstd::prelude::*;
use vstd::string::*;

verus! {

/// The model of a [`DapServer`].
pub struct ServerModel {
    pub session: SessionModel,
    /// The sequence number of the next message that leaves.
    pub seq: int,
    pub initialized: bool,
    /// Whether events of the worker are still forwarded to the client.
    pub forwarding: bool,
}

/// The server.
pub struct DapServer {
    session: DebugSession,
    seq: i64,
    initialized: bool,
    forwarding: bool,
}

impl View for DapServer {
    type V = ServerModel;

    closed spec fn view(&self) -> ServerModel {
        ServerModel {
            session: self.session@,
            seq: self.seq as int,
            initialized: self.initialized,
            forwarding: self.forwarding,
        }
    }
}

/// How the program that was launched ended.
#[derive(Debug, Clone)]
pub enum ProgramOutcome {
    /// It ran to its end; the text is its result, unless that is undefined.
    Completed(Option<String>),
    /// It threw; the text is the error.
    Failed(String),
    /// Its file could not be read; the text says why.
    Unreadable(String),
}

/// What comes of forwarding one event of the worker.
#[derive(Debug, Clone)]
pub struct Forwarded {
    /// The event for the client, if there is one.
    pub message: Option<ProtocolMessage>,
    /// Whether the forwarder stops after this.
    pub exit: bool,
}

/// Which request waits for the caller to come back, with its arguments.
#[derive(Debug, Clone)]
pub enum PendingKind {
    StackTrace(StackTraceArguments),
    Evaluate(EvaluateArguments),
    Launch,
}

/// What is kept of a request while the caller does what it asks for.
#[derive(Debug, Clone)]
pub struct Pending {
    pub request_seq: i64,
    pub command: String,
    pub kind: PendingKind,
}

/// What the caller does with a request.
#[derive(Debug, Clone)]
pub enum Reaction {
    /// The messages answer the request.
    Reply(Vec<ProtocolMessage>),
    /// The messages answer the request, and the interpreter was let run: its
    /// thread is to be woken.
    Resume(Vec<ProtocolMessage>),
    /// The paused worker is to be given the task, and woken after that. What it
    /// answers goes to `finish_inspection`.
    AskWorker { task: EvalTask, pending: Pending },
    /// The steps are to be taken, in their order. How that went goes to
    /// `finish_launch`.
    Launch { steps: Vec<LaunchStep>, pending: Pending },
    /// The messages answer the request, and the session ends: the interpreter
    /// thread is woken, the worker is told to leave, the forwarder is stopped and
    /// the transport closes.
    Disconnect(Vec<ProtocolMessage>),
}

/// What comes of a message that arrived.
#[derive(Debug, Clone)]
pub enum Incoming {
    /// It was a request; this is what the caller does with it.
    Reaction(Reaction),
    /// It was a response or an event: the server has no use for it.
    Ignored,
    /// It was no message.
    Undecodable(DecodeError),
}

/// The models of a list of messages.
pub open spec fn models(messages: Seq<ProtocolMessage>) -> Seq<MessageModel> {
    Seq::new(messages.len(), |i: int| messages[i]@)
}

/// Whether `messages` carry the sequence numbers from `first` on, one after
/// the other.
pub open spec fn numbered_from(messages: Seq<MessageModel>, first: int) -> bool {
    forall|i: int| 0 <= i < messages.len() ==> (#[trigger] messages[i]).seq() == first + i
}

/// The response to a request.
pub open spec fn response(
    seq: int,
    request: Request,
    success: bool,
    message: Option<Seq<char>>,
    body: Option<JsonValue>,
) -> MessageModel {
    MessageModel::Response {
        seq,
        request_seq: request.seq as int,
        success,
        command: request.command@,
        message,
        body,
    }
}

/// The body of a `stopped` event: it names the one thread and says that
/// everything stopped.
pub open spec fn stopped_body(reason: Seq<char>, description: Option<Seq<char>>) -> JsonValue {
    Fields::new()
        .text("reason"@, reason)
        .opt_chars("description"@, description)
        .integer("threadId"@, 1)
        .boolean("allThreadsStopped"@, true)
        .json()
}

/// The body of an `output` event: the text ends its line.
pub open spec fn output_body(category: Seq<char>, text: Seq<char>) -> JsonValue {
    Fields::new()
        .text("category"@, category)
        .text("output"@, text + "\n"@)
        .json()
}

/// The body of a `terminated` event: an object without members.
pub open spec fn terminated_body() -> JsonValue {
    Fields::new().json()
}

/// The JSON value that holds the arguments of a request: null where it has none.
pub open spec fn arguments_of(request: Request) -> JsonValue {
    match request.arguments {
        Some(j) => j@,
        None => JsonValue::Null,
    }
}

/// The server after `n` more messages have left.
pub open spec fn sent(pre: ServerModel, n: int) -> ServerModel {
    ServerModel { seq: pre.seq + n, ..pre }
}

/// Whether the reaction is to send `messages`.
pub open spec fn replies(r: Reaction, messages: Seq<MessageModel>) -> bool {
    r matches Reaction::Reply(ms) && models(ms@) == messages
}

/// Whether the reaction is to send `messages` and to wake the interpreter thread.
pub open spec fn resumes(r: Reaction, messages: Seq<MessageModel>) -> bool {
    r matches Reaction::Resume(ms) && models(ms@) == messages
}

/// Whether `pending` stands for `request`.
pub open spec fn awaits(pending: Pending, request: Request) -> bool {
    &&& pending.request_seq == request.seq
    &&& pending.command@ == request.command@
}

/// The request is refused with `text`, and nothing changes.
pub open spec fn refused(
    pre: ServerModel,
    d0: DebuggerModel,
    request: Request,
    text: Seq<char>,
    r: Reaction,
    post: ServerModel,
    d1: DebuggerModel,
) -> bool {
    &&& replies(r, seq![response(pre.seq, request, false, Some(text), None)])
    &&& post == sent(pre, 1)
    &&& d1 == d0
}

/// The request is granted with `body`.
pub open spec fn granted(
    pre: ServerModel,
    request: Request,
    body: Option<JsonValue>,
    r: Reaction,
) -> bool {
    replies(r, seq![response(pre.seq, request, true, None, body)])
}

/// The session after the interpreter was let run.
pub open spec fn resumed(session: SessionModel) -> SessionModel {
    SessionModel {
        running: true,
        stopped_reason: None,
        variable_references: Map::empty(),
        ..session
    }
}

/// The text that refuses an unknown command.
pub open spec fn unknown_command(command: Seq<char>) -> Seq<char> {
    "Unknown command: "@ + command + " (not implemented)"@
}

/// The body that answers `continue`.
pub open spec fn continue_body() -> JsonValue {
    Fields::new().boolean("allThreadsContinued"@, true).json()
}

/// The body that answers `threads`: the one thread of the interpreter.
pub open spec fn threads_body() -> JsonValue {
    Fields::new()
        .array(
            "threads"@,
            seq![Fields::new().integer("id"@, 1).text("name"@, "Main Thread"@).json()],
        )
        .json()
}

/// The body that answers `variables`: no variable.
pub open spec fn variables_body() -> JsonValue {
    Fields::new().array("variables"@, Seq::empty()).json()
}

/// A scope in the answer to `scopes`.
pub open spec fn scope_json(name: Seq<char>, hint: Seq<char>, reference: int) -> JsonValue {
    Fields::new()
        .text("name"@, name)
        .text("presentationHint"@, hint)
        .integer("variablesReference"@, reference)
        .boolean("expensive"@, false)
        .json()
}

/// The body that answers `scopes`: the local scope under the reference
/// `local`, the global one under the next.
pub open spec fn scopes_body(local: int) -> JsonValue {
    Fields::new()
        .array(
            "scopes"@,
            seq![
                scope_json("Local"@, "locals"@, local),
                scope_json("Global"@, "globals"@, local + 1),
            ],
        )
        .json()
}

/// The body that answers `evaluate` with `text`.
pub open spec fn evaluate_body(text: Seq<char>) -> JsonValue {
    Fields::new()
        .text("result"@, text)
        .text("type"@, "string"@)
        .integer("variablesReference"@, 0)
        .json()
}

/// A frame in the answer to `stackTrace`.
pub open spec fn frame_json(info: StackFrameInfo, index: int) -> JsonValue {
    Fields::new()
        .integer("id"@, index)
        .text("name"@, info.function_name@)
        .value(
            "source"@,
            Fields::new()
                .text("name"@, info.function_name@)
                .text("path"@, info.source_path@)
                .json(),
        )
        .integer("line"@, info.line_number as int)
        .integer("column"@, info.column_number as int)
        .boolean("canRestart"@, false)
        .text("instructionPointerReference"@, decimal(info.pc as nat))
        .json()
}

/// The body that answers `stackTrace` with `frames`, the innermost first.
pub open spec fn stack_body(frames: Seq<StackFrameInfo>) -> JsonValue {
    Fields::new()
        .array("stackFrames"@, Seq::new(frames.len(), |i: int| frame_json(frames[i], i)))
        .integer("totalFrames"@, frames.len() as int)
        .json()
}

/// The text that refuses a launch that could not be started.
pub open spec fn launch_failure(error: Seq<char>) -> Seq<char> {
    "Failed to start execution: "@ + error
}

/// The text that refuses an inspection whose answer is not of the kind asked for.
pub open spec fn unexpected_reply() -> Seq<char> {
    "Unexpected reply from the worker"@
}

/// The text that refuses a stack trace that has more frames than can be counted.
pub open spec fn too_many_frames() -> Seq<char> {
    "Too many stack frames"@
}

/// The messages that a reaction sends at once.
pub open spec fn messages_of(r: Reaction) -> Seq<MessageModel> {
    match r {
        Reaction::Reply(ms) => models(ms@),
        Reaction::Resume(ms) => models(ms@),
        Reaction::Disconnect(ms) => models(ms@),
        _ => Seq::empty(),
    }
}

/// Whether a message, if it is a response, answers the request numbered `seq`.
pub open spec fn answers(m: MessageModel, seq: int) -> bool {
    m matches MessageModel::Response { request_seq, .. } ==> request_seq == seq
}

impl DapServer {
    /// A server for `session` that has sent nothing and forwards events.
    pub fn new(session: DebugSession) -> (server: DapServer)
        ensures
            server@ == (ServerModel {
                session: session@,
                seq: 1,
                initialized: false,
                forwarding: true,
            }),
    {
        DapServer { session, seq: 1, initialized: false, forwarding: true }
    }

    /// The session.
    pub fn session(&self) -> (session: &DebugSession)
        ensures
            session@ == self@.session,
    {
        &self.session
    }

    /// The sequence number of the next message that leaves.
    pub fn seq(&self) -> (seq: i64)
        ensures
            seq as int == self@.seq,
    {
        self.seq
    }

    /// Takes the next sequence number.
    pub fn next_seq(&mut self) -> (seq: i64)
        requires
            old(self)@.seq < i64::MAX,
        ensures
            seq as int == old(self)@.seq,
            final(self)@ == (ServerModel { seq: old(self)@.seq + 1, ..old(self)@ }),
    {
        let seq = self.seq;
        self.seq = self.seq + 1;
        seq
    }

    /// Makes the response to the request with the number `request_seq`.
    pub fn create_response(
        &mut self,
        request_seq: i64,
        command: &str,
        success: bool,
        message: Option<String>,
        body: Option<Json>,
    ) -> (m: ProtocolMessage)
        requires
            old(self)@.seq < i64::MAX,
        ensures
            m@ == (MessageModel::Response {
                seq: old(self)@.seq,
                request_seq: request_seq as int,
                success,
                command: command@,
                message: opt_text(message),
                body: opt_json(body),
            }),
            final(self)@ == (ServerModel { seq: old(self)@.seq + 1, ..old(self)@ }),
    {
        ProtocolMessage::Response(
            Response {
                seq: self.next_seq(),
                request_seq,
                success,
                command: owned(command),
                message,
                body,
            },
        )
    }

    /// Makes an event.
    pub fn create_event(&mut self, event: &str, body: Option<Json>) -> (m: ProtocolMessage)
        requires
            old(self)@.seq < i64::MAX,
        ensures
            m@ == (MessageModel::Event {
                seq: old(self)@.seq,
                event: event@,
                body: opt_json(body),
            }),
            final(self)@ == (ServerModel { seq: old(self)@.seq + 1, ..old(self)@ }),
    {
        ProtocolMessage::Event(Event { seq: self.next_seq(), event: owned(event), body })
    }

    /// Makes the `output` event that shows `text`, and a line end after it, on
    /// the client's console under `category`.
    pub fn output_event(&mut self, category: &str, text: &str) -> (m: ProtocolMessage)
        requires
            old(self)@.seq < i64::MAX,
        ensures
            m@ == (MessageModel::Event {
                seq: old(self)@.seq,
                event: "output"@,
                body: Some(output_body(category@, text@)),
            }),
            final(self)@ == (ServerModel { seq: old(self)@.seq + 1, ..old(self)@ }),
    {
        let body = OutputEventBody {
            category: Some(owned(category)),
            output: owned(text).concat("\n"),
            group: None,
            variables_reference: None,
            source: None,
            line: None,
            column: None,
            data: None,
        };
        self.create_event("output", Some(body.to_json()))
    }

    /// What the client is told of how the program ended: what it printed last,
    /// if anything, and then that it terminated.
    pub open spec fn program_outputs(outcome: ProgramOutcome) -> Option<(Seq<char>, Seq<char>)> {
        match outcome {
            ProgramOutcome::Completed(Some(result)) => Some(("stdout"@, result@)),
            ProgramOutcome::Completed(None) => None,
            ProgramOutcome::Failed(error) => Some(("stderr"@, "Error: "@ + error@)),
            ProgramOutcome::Unreadable(error) => Some(
                ("stderr"@, "Failed to read file: "@ + error@),
            ),
        }
    }

    /// The events that tell the client how the program ended: an `output` event
    /// with the result or the error, if there is one, and then `terminated`.
    pub fn program_events(&mut self, outcome: &ProgramOutcome) -> (events: Vec<ProtocolMessage>)
        requires
            old(self)@.seq + 2 <= i64::MAX,
        ensures
            match Self::program_outputs(*outcome) {
                Some((category, text)) => models(events@) == seq![
                    MessageModel::Event {
                        seq: old(self)@.seq,
                        event: "output"@,
                        body: Some(output_body(category, text)),
                    },
                    MessageModel::Event {
                        seq: old(self)@.seq + 1,
                        event: "terminated"@,
                        body: Some(terminated_body()),
                    },
                ],
                None => models(events@) == seq![
                    MessageModel::Event {
                        seq: old(self)@.seq,
                        event: "terminated"@,
                        body: Some(terminated_body()),
                    },
                ],
            },
            final(self)@ == (ServerModel { seq: old(self)@.seq + events@.len(), ..old(self)@ }),
    {
        let mut events: Vec<ProtocolMessage> = Vec::new();
        match outcome {
            ProgramOutcome::Completed(Some(result)) => {
                events.push(self.output_event("stdout", result.as_str()));
            },
            ProgramOutcome::Completed(None) => {},
            ProgramOutcome::Failed(error) => {
                let text = owned("Error: ").concat(error.as_str());
                events.push(self.output_event("stderr", text.as_str()));
            },
            ProgramOutcome::Unreadable(error) => {
                let text = owned("Failed to read file: ").concat(error.as_str());
                events.push(self.output_event("stderr", text.as_str()));
            },
        }
        let body = TerminatedEventBody { restart: None };
        events.push(self.create_event("terminated", Some(body.to_json())));
        proof {
            match Self::program_outputs(*outcome) {
                Some((category, text)) => {
                },
                None => {
                },
            }
        }
        events
    }

    /// What forwarding one event of the worker does.
    ///
    /// A `Stopped` event becomes a `stopped` event, and the session takes note
    /// of the reason. `Terminated` becomes a `terminated` event and ends the
    /// forwarding, `Shutdown` ends it without a message. Once the forwarding
    /// has ended, nothing is forwarded any more.
    pub open spec fn forwards(
        pre: ServerModel,
        event: EventModel,
        out: Forwarded,
        post: ServerModel,
    ) -> bool {
        if !pre.forwarding {
            &&& out.message is None
            &&& out.exit
            &&& post == pre
        } else {
            match event {
                EventModel::Stopped { reason, description } => {
                    &&& out.message matches Some(m)
                    &&& m@ == (MessageModel::Event {
                        seq: pre.seq,
                        event: "stopped"@,
                        body: Some(stopped_body(reason, description)),
                    })
                    &&& !out.exit
                    &&& post == (ServerModel {
                        seq: pre.seq + 1,
                        session: SessionModel {
                            running: false,
                            stopped_reason: Some(reason),
                            ..pre.session
                        },
                        ..pre
                    })
                },
                EventModel::Terminated => {
                    &&& out.message matches Some(m)
                    &&& m@ == (MessageModel::Event {
                        seq: pre.seq,
                        event: "terminated"@,
                        body: Some(terminated_body()),
                    })
                    &&& out.exit
                    &&& post == (ServerModel { seq: pre.seq + 1, forwarding: false, ..pre })
                },
                EventModel::Shutdown => {
                    &&& out.message is None
                    &&& out.exit
                    &&& post == (ServerModel { forwarding: false, ..pre })
                },
            }
        }
    }

    /// Forwards one event of the worker to the client.
    pub fn forward_event(&mut self, event: &DebugEvent) -> (out: Forwarded)
        requires
            old(self)@.seq < i64::MAX,
        ensures
            Self::forwards(old(self)@, event@, out, final(self)@),
    {
        if !self.forwarding {
            return Forwarded { message: None, exit: true };
        }
        match event {
            DebugEvent::Stopped { reason, description } => {
                let thread_id = self.session.thread_id();
                let body = StoppedEventBody {
                    reason: reason.clone(),
                    description: copy_opt_text(description),
                    thread_id: Some(thread_id),
                    preserve_focus_hint: None,
                    text: None,
                    all_threads_stopped: true,
                    hit_breakpoint_ids: None,
                };
                self.session.notify_stopped(reason.clone());
                let m = self.create_event("stopped", Some(body.to_json()));
                Forwarded { message: Some(m), exit: false }
            },
            DebugEvent::Terminated => {
                let body = TerminatedEventBody { restart: None };
                let m = self.create_event("terminated", Some(body.to_json()));
                self.forwarding = false;
                Forwarded { message: Some(m), exit: true }
            },
            DebugEvent::Shutdown => {
                self.forwarding = false;
                Forwarded { message: None, exit: true }
            },
        }
    }

    /// Reads the arguments of a request as a `T`.
    fn arguments<T: Decode>(request: &Request) -> (res: Result<T, DecodeError>)
        ensures
            match res {
                Ok(a) => T::flaw(arguments_of(*request)) is None && T::decodes(
                    arguments_of(*request),
                    a,
                ),
                Err(e) => T::flaw(arguments_of(*request)) == Some(e@),
            },
    {
        match &request.arguments {
            Some(j) => T::from_json(j),
            None => {
                let null = Json::Null;
                T::from_json(&null)
            },
        }
    }

    /// Refuses a request with `text`.
    fn refuse(&mut self, request: &Request, text: String) -> (r: Reaction)
        requires
            old(self)@.seq < i64::MAX,
        ensures
            replies(r, seq![response(old(self)@.seq, *request, false, Some(text@), None)]),
            final(self)@ == sent(old(self)@, 1),
    {
        let m = self.create_response(
            request.seq,
            request.command.as_str(),
            false,
            Some(text),
            None,
        );
        let mut ms: Vec<ProtocolMessage> = Vec::new();
        ms.push(m);
        assert(models(ms@) =~= seq![m@]);
        Reaction::Reply(ms)
    }

    /// Grants a request with `body`.
    fn grant(&mut self, request: &Request, body: Option<Json>) -> (r: Reaction)
        requires
            old(self)@.seq < i64::MAX,
        ensures
            granted(old(self)@, *request, opt_json(body), r),
            final(self)@ == sent(old(self)@, 1),
    {
        let m = self.create_response(request.seq, request.command.as_str(), true, None, body);
        let mut ms: Vec<ProtocolMessage> = Vec::new();
        ms.push(m);
        assert(models(ms@) =~= seq![m@]);
        Reaction::Reply(ms)
    }

    /// Grants a request that let the interpreter run.
    fn grant_resume(&mut self, request: &Request, body: Option<Json>) -> (r: Reaction)
        requires
            old(self)@.seq < i64::MAX,
        ensures
            resumes(r, seq![response(old(self)@.seq, *request, true, None, opt_json(body))]),
            final(self)@ == sent(old(self)@, 1),
    {
        let m = self.create_response(request.seq, request.command.as_str(), true, None, body);
        let mut ms: Vec<ProtocolMessage> = Vec::new();
        ms.push(m);
        assert(models(ms@) =~= seq![m@]);
        Reaction::Resume(ms)
    }

    /// What `initialize` does: it answers with the capabilities and then tells
    /// the client that the adapter is initialized.
    pub open spec fn on_initialize(
        pre: ServerModel,
        d0: DebuggerModel,
        request: Request,
        r: Reaction,
        post: ServerModel,
        d1: DebuggerModel,
    ) -> bool {
        match InitializeRequestArguments::flaw(arguments_of(request)) {
            Some(f) => refused(pre, d0, request, flaw_text(f), r, post, d1),
            None => {
                &&& replies(
                    r,
                    seq![
                        response(
                            pre.seq,
                            request,
                            true,
                            None,
                            Some(DebugSession::capabilities()@),
                        ),
                        MessageModel::Event { seq: pre.seq + 1, event: "initialized"@, body: None },
                    ],
                )
                &&& post == (ServerModel {
                    seq: pre.seq + 2,
                    initialized: true,
                    session: SessionModel { initialized: true, ..pre.session },
                    ..pre
                })
                &&& d1 == d0
            },
        }
    }

    fn handle_initialize(&mut self, debugger: &mut Debugger, request: Request) -> (r: Reaction)
        requires
            old(self)@.seq + 2 <= i64::MAX,
        ensures
            Self::on_initialize(
                old(self)@,
                old(debugger)@,
                request,
                r,
                final(self)@,
                final(debugger)@,
            ),
    {
        match Self::arguments::<InitializeRequestArguments>(&request) {
            Err(e) => self.refuse(&request, e.message()),
            Ok(args) => {
                let capabilities = self.session.handle_initialize(args);
                self.initialized = true;
                let answer = self.create_response(
                    request.seq,
                    request.command.as_str(),
                    true,
                    None,
                    Some(capabilities.to_json()),
                );
                let event = self.create_event("initialized", None);
                let mut ms: Vec<ProtocolMessage> = Vec::new();
                ms.push(answer);
                ms.push(event);
                assert(models(ms@) =~= seq![answer@, event@]);
                Reaction::Reply(ms)
            },
        }
    }

    /// What `launch` does: the session records the program, and the caller is
    /// told what to start. The answer is made when the caller comes back.
    pub open spec fn on_launch(
        pre: ServerModel,
        d0: DebuggerModel,
        request: Request,
        r: Reaction,
        post: ServerModel,
        d1: DebuggerModel,
    ) -> bool {
        let j = arguments_of(request);
        match LaunchRequestArguments::flaw(j) {
            Some(f) => refused(pre, d0, request, flaw_text(f), r, post, d1),
            None => {
                let program = j.text_at("program"@)->Ok_0;
                &&& r matches Reaction::Launch { steps, pending }
                &&& steps@.map_values(|s: LaunchStep| s@) == DebugSession::launch_steps(
                    pre.session.worker,
                    program,
                )
                &&& awaits(pending, request)
                &&& pending.kind is Launch
                &&& post == (ServerModel {
                    session: SessionModel {
                        worker: true,
                        program_path: program,
                        running: false,
                        ..pre.session
                    },
                    ..pre
                })
                &&& d1 == d0
            },
        }
    }

    fn handle_launch(&mut self, debugger: &mut Debugger, request: Request) -> (r: Reaction)
        requires
            old(self)@.seq + 2 <= i64::MAX,
        ensures
            Self::on_launch(old(self)@, old(debugger)@, request, r, final(self)@, final(debugger)@),
    {
        match Self::arguments::<LaunchRequestArguments>(&request) {
            Err(e) => self.refuse(&request, e.message()),
            Ok(args) => {
                let steps = self.session.handle_launch(args);
                Reaction::Launch {
                    steps,
                    pending: Pending {
                        request_seq: request.seq,
                        command: request.command,
                        kind: PendingKind::Launch,
                    },
                }
            },
        }
    }

    /// What `attach` does: nothing but answer.
    pub open spec fn on_attach(
        pre: ServerModel,
        d0: DebuggerModel,
        request: Request,
        r: Reaction,
        post: ServerModel,
        d1: DebuggerModel,
    ) -> bool {
        match AttachRequestArguments::flaw(arguments_of(request)) {
            Some(f) => refused(pre, d0, request, flaw_text(f), r, post, d1),
            None => granted(pre, request, None, r) && post == sent(pre, 1) && d1 == d0,
        }
    }

    fn handle_attach(&mut self, debugger: &mut Debugger, request: Request) -> (r: Reaction)
        requires
            old(self)@.seq + 2 <= i64::MAX,
        ensures
            Self::on_attach(old(self)@, old(debugger)@, request, r, final(self)@, final(debugger)@),
    {
        match Self::arguments::<AttachRequestArguments>(&request) {
            Err(e) => self.refuse(&request, e.message()),
            Ok(args) => {
                self.session.handle_attach(args);
                self.grant(&request, None)
            },
        }
    }

    /// What `configurationDone` does: nothing but answer.
    pub open spec fn on_configuration_done(
        pre: ServerModel,
        d0: DebuggerModel,
        request: Request,
        r: Reaction,
        post: ServerModel,
        d1: DebuggerModel,
    ) -> bool {
        granted(pre, request, None, r) && post == sent(pre, 1) && d1 == d0
    }

    fn handle_configuration_done(&mut self, debugger: &mut Debugger, request: Request) -> (r:
        Reaction)
        requires
            old(self)@.seq + 2 <= i64::MAX,
        ensures
            Self::on_configuration_done(
                old(self)@,
                old(debugger)@,
                request,
                r,
                final(self)@,
                final(debugger)@,
            ),
    {
        self.grant(&request, None)
    }

    /// What `setBreakpoints` does: the session replaces the breakpoints of the
    /// source, and the answer lists the new ones.
    pub open spec fn on_set_breakpoints(
        pre: ServerModel,
        d0: DebuggerModel,
        request: Request,
        r: Reaction,
        post: ServerModel,
        d1: DebuggerModel,
    ) -> bool {
        let j = arguments_of(request);
        match SetBreakpointsArguments::flaw(j) {
            Some(f) => refused(pre, d0, request, flaw_text(f), r, post, d1),
            None => exists|
                args: SetBreakpointsArguments,
                res: Result<SetBreakpointsResponseBody, SessionError>,
            |
                {
                    &&& SetBreakpointsArguments::decodes(j, args)
                    &&& #[trigger] sets_breakpoints(
                        pre.session,
                        d0,
                        args,
                        res,
                        post.session,
                        d1,
                    )
                    &&& post == (ServerModel { session: post.session, seq: pre.seq + 1, ..pre })
                    &&& match res {
                        Ok(body) => granted(pre, request, Some(body@), r),
                        Err(e) => replies(
                            r,
                            seq![response(pre.seq, request, false, Some(e.text()), None)],
                        ),
                    }
                },
        }
    }

    fn handle_set_breakpoints(&mut self, debugger: &mut Debugger, request: Request) -> (r:
        Reaction)
        requires
            old(self)@.seq + 2 <= i64::MAX,
        ensures
            Self::on_set_breakpoints(
                old(self)@,
                old(debugger)@,
                request,
                r,
                final(self)@,
                final(debugger)@,
            ),
    {
        match Self::arguments::<SetBreakpointsArguments>(&request) {
            Err(e) => self.refuse(&request, e.message()),
            Ok(args) => {
                let ghost seen = args;
                let res = self.session.handle_set_breakpoints(debugger, args);
                let ghost outcome = res;
                let r = match res {
                    Ok(body) => self.grant(&request, Some(body.to_json())),
                    Err(e) => self.refuse(&request, e.message()),
                };
                assert(sets_breakpoints(
                    old(self)@.session,
                    old(debugger)@,
                    seen,
                    outcome,
                    self@.session,
                    debugger@,
                ));
                r
            },
        }
    }

    /// What `continue` does: the step mode is dropped and the interpreter runs.
    pub open spec fn on_continue(
        pre: ServerModel,
        d0: DebuggerModel,
        request: Request,
        r: Reaction,
        post: ServerModel,
        d1: DebuggerModel,
    ) -> bool {
        match ContinueArguments::flaw(arguments_of(request)) {
            Some(f) => refused(pre, d0, request, flaw_text(f), r, post, d1),
            None => {
                &&& resumes(r, seq![response(pre.seq, request, true, None, Some(continue_body()))])
                &&& post == (ServerModel {
                    seq: pre.seq + 1,
                    session: resumed(pre.session),
                    ..pre
                })
                &&& d1 == (DebuggerModel { paused: false, step_mode: StepMode::Continue, ..d0 })
            },
        }
    }

    fn handle_continue(&mut self, debugger: &mut Debugger, request: Request) -> (r: Reaction)
        requires
            old(self)@.seq + 2 <= i64::MAX,
        ensures
            Self::on_continue(
                old(self)@,
                old(debugger)@,
                request,
                r,
                final(self)@,
                final(debugger)@,
            ),
    {
        match Self::arguments::<ContinueArguments>(&request) {
            Err(e) => self.refuse(&request, e.message()),
            Ok(args) => {
                let body = self.session.handle_continue(debugger, args);
                self.grant_resume(&request, Some(body.to_json()))
            },
        }
    }

    /// What a step request does: the step mode is set and the interpreter runs.
    pub open spec fn stepped(
        pre: ServerModel,
        d0: DebuggerModel,
        request: Request,
        mode: StepMode,
        r: Reaction,
        post: ServerModel,
        d1: DebuggerModel,
    ) -> bool {
        &&& resumes(r, seq![response(pre.seq, request, true, None, None)])
        &&& post == (ServerModel { seq: pre.seq + 1, session: resumed(pre.session), ..pre })
        &&& d1 == (DebuggerModel { paused: false, step_mode: mode, ..d0 })
    }

    /// What `next` does: the interpreter runs to the next instruction of the
    /// frame that it is in, or of one that called it.
    pub open spec fn on_next(
        pre: ServerModel,
        d0: DebuggerModel,
        request: Request,
        frame_depth: usize,
        r: Reaction,
        post: ServerModel,
        d1: DebuggerModel,
    ) -> bool {
        match NextArguments::flaw(arguments_of(request)) {
            Some(f) => refused(pre, d0, request, flaw_text(f), r, post, d1),
            None => Self::stepped(pre, d0, request, StepMode::Over(frame_depth), r, post, d1),
        }
    }

    fn handle_next(&mut self, debugger: &mut Debugger, request: Request, frame_depth: usize) -> (r:
        Reaction)
        requires
            old(self)@.seq + 2 <= i64::MAX,
        ensures
            Self::on_next(
                old(self)@,
                old(debugger)@,
                request,
                frame_depth,
                r,
                final(self)@,
                final(debugger)@,
            ),
    {
        match Self::arguments::<NextArguments>(&request) {
            Err(e) => self.refuse(&request, e.message()),
            Ok(args) => {
                self.session.handle_next(debugger, args, frame_depth);
                self.grant_resume(&request, None)
            },
        }
    }

    /// What `stepIn` does: the interpreter runs to the next instruction.
    pub open spec fn on_step_in(
        pre: ServerModel,
        d0: DebuggerModel,
        request: Request,
        r: Reaction,
        post: ServerModel,
        d1: DebuggerModel,
    ) -> bool {
        match StepInArguments::flaw(arguments_of(request)) {
            Some(f) => refused(pre, d0, request, flaw_text(f), r, post, d1),
            None => Self::stepped(pre, d0, request, StepMode::Into, r, post, d1),
        }
    }

    fn handle_step_in(&mut self, debugger: &mut Debugger, request: Request) -> (r: Reaction)
        requires
            old(self)@.seq + 2 <= i64::MAX,
        ensures
            Self::on_step_in(
                old(self)@,
                old(debugger)@,
                request,
                r,
                final(self)@,
                final(debugger)@,
            ),
    {
        match Self::arguments::<StepInArguments>(&request) {
            Err(e) => self.refuse(&request, e.message()),
            Ok(args) => {
                self.session.handle_step_in(debugger, args);
                self.grant_resume(&request, None)
            },
        }
    }

    /// What `stepOut` does: the interpreter runs until the frame that it is in
    /// has returned.
    pub open spec fn on_step_out(
        pre: ServerModel,
        d0: DebuggerModel,
        request: Request,
        frame_depth: usize,
        r: Reaction,
        post: ServerModel,
        d1: DebuggerModel,
    ) -> bool {
        match StepOutArguments::flaw(arguments_of(request)) {
            Some(f) => refused(pre, d0, request, flaw_text(f), r, post, d1),
            None => Self::stepped(pre, d0, request, StepMode::Out(frame_depth), r, post, d1),
        }
    }

    fn handle_step_out(
        &mut self,
        debugger: &mut Debugger,
        request: Request,
        frame_depth: usize,
    ) -> (r: Reaction)
        requires
            old(self)@.seq + 2 <= i64::MAX,
        ensures
            Self::on_step_out(
                old(self)@,
                old(debugger)@,
                request,
                frame_depth,
                r,
                final(self)@,
                final(debugger)@,
            ),
    {
        match Self::arguments::<StepOutArguments>(&request) {
            Err(e) => self.refuse(&request, e.message()),
            Ok(args) => {
                self.session.handle_step_out(debugger, args, frame_depth);
                self.grant_resume(&request, None)
            },
        }
    }

    /// What `stackTrace` does: while the worker is paused it is asked for the
    /// call stack; else the answer is an empty list.
    pub open spec fn on_stack_trace(
        pre: ServerModel,
        d0: DebuggerModel,
        request: Request,
        r: Reaction,
        post: ServerModel,
        d1: DebuggerModel,
    ) -> bool {
        match StackTraceArguments::flaw(arguments_of(request)) {
            Some(f) => refused(pre, d0, request, flaw_text(f), r, post, d1),
            None => if pre.session.worker && d0.paused {
                &&& r matches Reaction::AskWorker { task, pending }
                &&& task is StackTrace
                &&& awaits(pending, request)
                &&& pending.kind matches PendingKind::StackTrace(a)
                &&& StackTraceArguments::decodes(arguments_of(request), a)
                &&& post == pre
                &&& d1 == d0
            } else {
                &&& granted(pre, request, Some(stack_body(Seq::empty())), r)
                &&& post == sent(pre, 1)
                &&& d1 == d0
            },
        }
    }

    fn handle_stack_trace(&mut self, debugger: &mut Debugger, request: Request) -> (r: Reaction)
        requires
            old(self)@.seq + 2 <= i64::MAX,
        ensures
            Self::on_stack_trace(
                old(self)@,
                old(debugger)@,
                request,
                r,
                final(self)@,
                final(debugger)@,
            ),
    {
        match Self::arguments::<StackTraceArguments>(&request) {
            Err(e) => self.refuse(&request, e.message()),
            Ok(args) => match self.session.stack_trace_task(debugger) {
                Some(task) => Reaction::AskWorker {
                    task,
                    pending: Pending {
                        request_seq: request.seq,
                        command: request.command,
                        kind: PendingKind::StackTrace(args),
                    },
                },
                None => {
                    let frames: Vec<StackFrameInfo> = Vec::new();
                    let body = self.session.handle_stack_trace(args, &frames);
                    proof {
                        lemma_stack_body(body, frames@);
                    }
                    self.grant(&request, Some(body.to_json()))
                },
            },
        }
    }

    /// What `scopes` does: the local and the global scope of the frame get a
    /// new variable reference each, greater than every reference there is.
    pub open spec fn on_scopes(
        pre: ServerModel,
        d0: DebuggerModel,
        request: Request,
        r: Reaction,
        post: ServerModel,
        d1: DebuggerModel,
    ) -> bool {
        let j = arguments_of(request);
        match ScopesArguments::flaw(j) {
            Some(f) => refused(pre, d0, request, flaw_text(f), r, post, d1),
            None => {
                let local = pre.session.next_variable_reference;
                let frame_id = j.required_integer_at("frameId"@)->Ok_0 as i64;
                if local + 2 > i64::MAX {
                    refused(
                        pre,
                        d0,
                        request,
                        SessionError::IdentifiersExhausted.text(),
                        r,
                        post,
                        d1,
                    )
                } else {
                    &&& granted(pre, request, Some(scopes_body(local)), r)
                    &&& 1 <= local
                    &&& forall|k: i64| #[trigger]
                        pre.session.variable_references.dom().contains(k) ==> 1 <= k < local
                    &&& post == (ServerModel {
                        seq: pre.seq + 1,
                        session: SessionModel {
                            next_variable_reference: local + 2,
                            variable_references: pre.session.variable_references.insert(
                                local as i64,
                                VariableReference::Scope {
                                    frame_id,
                                    scope_type: ScopeType::Local,
                                },
                            ).insert(
                                (local + 1) as i64,
                                VariableReference::Scope {
                                    frame_id,
                                    scope_type: ScopeType::Global,
                                },
                            ),
                            ..pre.session
                        },
                        ..pre
                    })
                    &&& d1 == d0
                }
            },
        }
    }

    fn handle_scopes(&mut self, debugger: &mut Debugger, request: Request) -> (r: Reaction)
        requires
            old(self)@.seq + 2 <= i64::MAX,
        ensures
            Self::on_scopes(old(self)@, old(debugger)@, request, r, final(self)@, final(debugger)@),
    {
        match Self::arguments::<ScopesArguments>(&request) {
            Err(e) => self.refuse(&request, e.message()),
            Ok(args) => match self.session.handle_scopes(args) {
                Ok(body) => {
                    proof {
                        lemma_scopes_body(body, old(self)@.session.next_variable_reference);
                    }
                    self.grant(&request, Some(body.to_json()))
                },
                Err(e) => self.refuse(&request, e.message()),
            },
        }
    }

    /// What `variables` does: it answers that there is none.
    pub open spec fn on_variables(
        pre: ServerModel,
        d0: DebuggerModel,
        request: Request,
        r: Reaction,
        post: ServerModel,
        d1: DebuggerModel,
    ) -> bool {
        match VariablesArguments::flaw(arguments_of(request)) {
            Some(f) => refused(pre, d0, request, flaw_text(f), r, post, d1),
            None => {
                &&& granted(pre, request, Some(variables_body()), r)
                &&& post == sent(pre, 1)
                &&& d1 == d0
            },
        }
    }

    fn handle_variables(&mut self, debugger: &mut Debugger, request: Request) -> (r: Reaction)
        requires
            old(self)@.seq + 2 <= i64::MAX,
        ensures
            Self::on_variables(
                old(self)@,
                old(debugger)@,
                request,
                r,
                final(self)@,
                final(debugger)@,
            ),
    {
        match Self::arguments::<VariablesArguments>(&request) {
            Err(e) => self.refuse(&request, e.message()),
            Ok(args) => {
                let body = self.session.handle_variables(args);
                assert(views(body.variables@) =~= Seq::<JsonValue>::empty());
                self.grant(&request, Some(body.to_json()))
            },
        }
    }

    /// What `evaluate` does: while the worker is paused it is asked to evaluate
    /// the expression; else the answer says that nothing can evaluate it.
    pub open spec fn on_evaluate(
        pre: ServerModel,
        d0: DebuggerModel,
        request: Request,
        r: Reaction,
        post: ServerModel,
        d1: DebuggerModel,
    ) -> bool {
        let j = arguments_of(request);
        match EvaluateArguments::flaw(j) {
            Some(f) => refused(pre, d0, request, flaw_text(f), r, post, d1),
            None => {
                let expression = j.required_text_at("expression"@)->Ok_0;
                if pre.session.worker && d0.paused {
                    &&& r matches Reaction::AskWorker { task, pending }
                    &&& task matches EvalTask::Evaluate { expression: e }
                    &&& e@ == expression
                    &&& awaits(pending, request)
                    &&& pending.kind matches PendingKind::Evaluate(a)
                    &&& EvaluateArguments::decodes(j, a)
                    &&& post == pre
                    &&& d1 == d0
                } else {
                    &&& granted(
                        pre,
                        request,
                        Some(evaluate_body(DebugSession::evaluation_text(expression, None))),
                        r,
                    )
                    &&& post == sent(pre, 1)
                    &&& d1 == d0
                }
            },
        }
    }

    fn handle_evaluate(&mut self, debugger: &mut Debugger, request: Request) -> (r: Reaction)
        requires
            old(self)@.seq + 2 <= i64::MAX,
        ensures
            Self::on_evaluate(
                old(self)@,
                old(debugger)@,
                request,
                r,
                final(self)@,
                final(debugger)@,
            ),
    {
        match Self::arguments::<EvaluateArguments>(&request) {
            Err(e) => self.refuse(&request, e.message()),
            Ok(args) => match self.session.evaluate_task(debugger, &args) {
                Some(task) => Reaction::AskWorker {
                    task,
                    pending: Pending {
                        request_seq: request.seq,
                        command: request.command,
                        kind: PendingKind::Evaluate(args),
                    },
                },
                None => {
                    let body = self.session.handle_evaluate(args, None);
                    self.grant(&request, Some(body.to_json()))
                },
            },
        }
    }

    /// What `threads` does: it answers with the one thread.
    pub open spec fn on_threads(
        pre: ServerModel,
        d0: DebuggerModel,
        request: Request,
        r: Reaction,
        post: ServerModel,
        d1: DebuggerModel,
    ) -> bool {
        &&& granted(pre, request, Some(threads_body()), r)
        &&& post == sent(pre, 1)
        &&& d1 == d0
    }

    fn handle_threads(&mut self, debugger: &mut Debugger, request: Request) -> (r: Reaction)
        requires
            old(self)@.seq + 2 <= i64::MAX,
        ensures
            Self::on_threads(
                old(self)@,
                old(debugger)@,
                request,
                r,
                final(self)@,
                final(debugger)@,
            ),
    {
        let body = self.session.handle_threads();
        assert(views(body.threads@) =~= seq![body.threads@[0]@]);
        self.grant(&request, Some(body.to_json()))
    }

    /// What `disconnect` does: the debugger is told to shut down, the session
    /// gives up its worker, and the request is answered.
    pub open spec fn on_disconnect(
        pre: ServerModel,
        d0: DebuggerModel,
        request: Request,
        r: Reaction,
        post: ServerModel,
        d1: DebuggerModel,
    ) -> bool {
        &&& r matches Reaction::Disconnect(ms)
        &&& models(ms@) == seq![response(pre.seq, request, true, None, None)]
        &&& post == (ServerModel {
            seq: pre.seq + 1,
            session: SessionModel { worker: false, running: false, ..pre.session },
            ..pre
        })
        &&& d1 == (DebuggerModel { shutting_down: true, ..d0 })
    }

    fn handle_disconnect(&mut self, debugger: &mut Debugger, request: Request) -> (r: Reaction)
        requires
            old(self)@.seq + 2 <= i64::MAX,
        ensures
            Self::on_disconnect(
                old(self)@,
                old(debugger)@,
                request,
                r,
                final(self)@,
                final(debugger)@,
            ),
    {
        self.session.handle_disconnect(debugger);
        let m = self.create_response(request.seq, request.command.as_str(), true, None, None);
        let mut ms: Vec<ProtocolMessage> = Vec::new();
        ms.push(m);
        assert(models(ms@) =~= seq![m@]);
        Reaction::Disconnect(ms)
    }

    /// The answer to a request that waited for the worker, given what the
    /// worker replied or why it did not.
    ///
    /// A call stack answers `stackTrace`. A text answers `evaluate`, and so does
    /// an error of the worker, marked as one: it does not fail the request.
    /// Anything else is refused.
    pub open spec fn inspection_answer(
        seq: int,
        pending: Pending,
        reply: Result<InspectionReply, String>,
    ) -> MessageModel {
        let refusal = |text: Seq<char>|
            MessageModel::Response {
                seq,
                request_seq: pending.request_seq as int,
                success: false,
                command: pending.command@,
                message: Some(text),
                body: None,
            };
        let grant = |body: JsonValue|
            MessageModel::Response {
                seq,
                request_seq: pending.request_seq as int,
                success: true,
                command: pending.command@,
                message: None,
                body: Some(body),
            };
        match (pending.kind, reply) {
            (PendingKind::StackTrace(_), Ok(InspectionReply::Frames(frames))) => if frames@.len()
                <= i64::MAX {
                grant(stack_body(frames@))
            } else {
                refusal(too_many_frames())
            },
            (PendingKind::StackTrace(_), Err(e)) => refusal(e@),
            (PendingKind::Evaluate(_), Ok(InspectionReply::Value(text))) => grant(
                evaluate_body(text@),
            ),
            (PendingKind::Evaluate(_), Err(e)) => grant(evaluate_body("Error: "@ + e@)),
            _ => refusal(unexpected_reply()),
        }
    }

    /// Answers a request that waited for the worker.
    pub fn finish_inspection(
        &mut self,
        pending: Pending,
        reply: Result<InspectionReply, String>,
    ) -> (m: ProtocolMessage)
        requires
            old(self)@.seq < i64::MAX,
        ensures
            m@ == Self::inspection_answer(old(self)@.seq, pending, reply),
            final(self)@ == sent(old(self)@, 1),
    {
        let Pending { request_seq, command, kind } = pending;
        match (kind, reply) {
            (PendingKind::StackTrace(args), Ok(InspectionReply::Frames(frames))) => {
                if frames.len() as u64 <= i64::MAX as u64 {
                    let body = self.session.handle_stack_trace(args, &frames);
                    proof {
                        lemma_stack_body(body, frames@);
                    }
                    self.create_response(
                        request_seq,
                        command.as_str(),
                        true,
                        None,
                        Some(body.to_json()),
                    )
                } else {
                    self.create_response(
                        request_seq,
                        command.as_str(),
                        false,
                        Some(owned("Too many stack frames")),
                        None,
                    )
                }
            },
            (PendingKind::StackTrace(_), Err(e)) => self.create_response(
                request_seq,
                command.as_str(),
                false,
                Some(e),
                None,
            ),
            (PendingKind::Evaluate(args), Ok(InspectionReply::Value(text))) => {
                let body = self.session.handle_evaluate(args, Some(Ok(text))).to_json();
                self.create_response(request_seq, command.as_str(), true, None, Some(body))
            },
            (PendingKind::Evaluate(args), Err(e)) => {
                let body = self.session.handle_evaluate(args, Some(Err(e))).to_json();
                self.create_response(request_seq, command.as_str(), true, None, Some(body))
            },
            _ => self.create_response(
                request_seq,
                command.as_str(),
                false,
                Some(owned("Unexpected reply from the worker")),
                None,
            ),
        }
    }

    /// The answer to `launch`, given how the launch went.
    pub open spec fn launch_answer(
        seq: int,
        pending: Pending,
        started: Result<(), String>,
    ) -> MessageModel {
        MessageModel::Response {
            seq,
            request_seq: pending.request_seq as int,
            success: started is Ok,
            command: pending.command@,
            message: match started {
                Ok(_) => None,
                Err(e) => Some(launch_failure(e@)),
            },
            body: None,
        }
    }

    /// Answers `launch` once the caller has taken the steps of the launch.
    pub fn finish_launch(&mut self, pending: Pending, started: Result<(), String>) -> (m:
        ProtocolMessage)
        requires
            old(self)@.seq < i64::MAX,
        ensures
            m@ == Self::launch_answer(old(self)@.seq, pending, started),
            final(self)@ == sent(old(self)@, 1),
    {
        match started {
            Ok(_) => self.create_response(
                pending.request_seq,
                pending.command.as_str(),
                true,
                None,
                None,
            ),
            Err(e) => {
                let text = owned("Failed to start execution: ").concat(e.as_str());
                self.create_response(
                    pending.request_seq,
                    pending.command.as_str(),
                    false,
                    Some(text),
                    None,
                )
            },
        }
    }

    /// What the server does with a message that arrived: it acts on a request,
    /// and on nothing else.
    pub open spec fn receives(
        pre: ServerModel,
        d0: DebuggerModel,
        message: JsonValue,
        frame_depth: usize,
        out: Incoming,
        post: ServerModel,
        d1: DebuggerModel,
    ) -> bool {
        match MessageModel::decode(message) {
            Err(f) => out matches Incoming::Undecodable(e) && e@ == f && post == pre && d1 == d0,
            Ok(MessageModel::Request { seq, command, arguments }) => {
                &&& out matches Incoming::Reaction(r)
                &&& exists|request: Request| #[trigger]
                    Self::reacts(pre, d0, request, frame_depth, r, post, d1) && request@
                        == (MessageModel::Request { seq, command, arguments })
            },
            Ok(_) => out is Ignored && post == pre && d1 == d0,
        }
    }

    /// Acts on a message that arrived, given as its JSON form.
    pub fn handle_message(
        &mut self,
        debugger: &mut Debugger,
        message: &Json,
        frame_depth: usize,
    ) -> (out: Incoming)
        requires
            old(self)@.seq + 2 <= i64::MAX,
        ensures
            Self::receives(
                old(self)@,
                old(debugger)@,
                message@,
                frame_depth,
                out,
                final(self)@,
                final(debugger)@,
            ),
    {
        match ProtocolMessage::from_json(message) {
            Err(e) => Incoming::Undecodable(e),
            Ok(ProtocolMessage::Request(request)) => {
                let ghost seen = request;
                let r = self.handle_request(debugger, request, frame_depth);
                assert(Self::reacts(
                    old(self)@,
                    old(debugger)@,
                    seen,
                    frame_depth,
                    r,
                    self@,
                    debugger@,
                ));
                Incoming::Reaction(r)
            },
            Ok(_) => Incoming::Ignored,
        }
    }

    /// What the server does with a request, by its command. A command that is
    /// not known is refused.
    pub open spec fn reacts(
        pre: ServerModel,
        d0: DebuggerModel,
        request: Request,
        frame_depth: usize,
        r: Reaction,
        post: ServerModel,
        d1: DebuggerModel,
    ) -> bool {
        let command = request.command@;
        if command == "initialize"@ {
            Self::on_initialize(pre, d0, request, r, post, d1)
        } else if command == "launch"@ {
            Self::on_launch(pre, d0, request, r, post, d1)
        } else if command == "attach"@ {
            Self::on_attach(pre, d0, request, r, post, d1)
        } else if command == "configurationDone"@ {
            Self::on_configuration_done(pre, d0, request, r, post, d1)
        } else if command == "setBreakpoints"@ {
            Self::on_set_breakpoints(pre, d0, request, r, post, d1)
        } else if command == "continue"@ {
            Self::on_continue(pre, d0, request, r, post, d1)
        } else if command == "next"@ {
            Self::on_next(pre, d0, request, frame_depth, r, post, d1)
        } else if command == "stepIn"@ {
            Self::on_step_in(pre, d0, request, r, post, d1)
        } else if command == "stepOut"@ {
            Self::on_step_out(pre, d0, request, frame_depth, r, post, d1)
        } else if command == "stackTrace"@ {
            Self::on_stack_trace(pre, d0, request, r, post, d1)
        } else if command == "scopes"@ {
            Self::on_scopes(pre, d0, request, r, post, d1)
        } else if command == "variables"@ {
            Self::on_variables(pre, d0, request, r, post, d1)
        } else if command == "evaluate"@ {
            Self::on_evaluate(pre, d0, request, r, post, d1)
        } else if command == "threads"@ {
            Self::on_threads(pre, d0, request, r, post, d1)
        } else if command == "disconnect"@ {
            Self::on_disconnect(pre, d0, request, r, post, d1)
        } else {
            refused(pre, d0, request, unknown_command(command), r, post, d1)
        }
    }

    /// Acts on a request.
    ///
    /// `frame_depth` is the depth of the frame that the interpreter is in; a
    /// step over or out of that frame is bound to it.
    pub fn handle_request(
        &mut self,
        debugger: &mut Debugger,
        request: Request,
        frame_depth: usize,
    ) -> (r: Reaction)
        requires
            old(self)@.seq + 2 <= i64::MAX,
        ensures
            Self::reacts(
                old(self)@,
                old(debugger)@,
                request,
                frame_depth,
                r,
                final(self)@,
                final(debugger)@,
            ),
    {
        let command = request.command.as_str();
        if same_text(command, "initialize") {
            self.handle_initialize(debugger, request)
        } else if same_text(command, "launch") {
            self.handle_launch(debugger, request)
        } else if same_text(command, "attach") {
            self.handle_attach(debugger, request)
        } else if same_text(command, "configurationDone") {
            self.handle_configuration_done(debugger, request)
        } else if same_text(command, "setBreakpoints") {
            self.handle_set_breakpoints(debugger, request)
        } else if same_text(command, "continue") {
            self.handle_continue(debugger, request)
        } else if same_text(command, "next") {
            self.handle_next(debugger, request, frame_depth)
        } else if same_text(command, "stepIn") {
            self.handle_step_in(debugger, request)
        } else if same_text(command, "stepOut") {
            self.handle_step_out(debugger, request, frame_depth)
        } else if same_text(command, "stackTrace") {
            self.handle_stack_trace(debugger, request)
        } else if same_text(command, "scopes") {
            self.handle_scopes(debugger, request)
        } else if same_text(command, "variables") {
            self.handle_variables(debugger, request)
        } else if same_text(command, "evaluate") {
            self.handle_evaluate(debugger, request)
        } else if same_text(command, "threads") {
            self.handle_threads(debugger, request)
        } else if same_text(command, "disconnect") {
            self.handle_disconnect(debugger, request)
        } else {
            let text = owned("Unknown command: ").concat(command).concat(" (not implemented)");
            self.refuse(&request, text)
        }
    }
}

/// The JSON form of the answer to `scopes`.
proof fn lemma_scopes_body(body: ScopesResponseBody, local: int)
    requires
        body.scopes@.len() == 2,
        is_scope(body.scopes@[0], "Local"@, "locals"@, local),
        is_scope(body.scopes@[1], "Global"@, "globals"@, local + 1),
    ensures
        body@ == scopes_body(local),
{
    assert(views(body.scopes@) =~= seq![
        scope_json("Local"@, "locals"@, local),
        scope_json("Global"@, "globals"@, local + 1),
    ]);
}

/// The JSON form of the answer to `stackTrace`.
proof fn lemma_stack_body(body: StackTraceResponseBody, frames: Seq<StackFrameInfo>)
    requires
        frames.len() <= i64::MAX,
        body.total_frames == Some(frames.len() as i64),
        body.stack_frames@.len() == frames.len(),
        forall|i: int|
            0 <= i < frames.len() ==> shows_frame(
                #[trigger] body.stack_frames@[i],
                frames[i],
                i,
            ),
    ensures
        body@ == stack_body(frames),
{
    assert forall|i: int| 0 <= i < frames.len() implies (#[trigger] body.stack_frames@[i])@
        == frame_json(frames[i], i) by {
        let f = body.stack_frames@[i];
        crate::messages::lemma_source_model(f.source->0);
    }
    assert(views(body.stack_frames@) =~= Seq::new(
        frames.len(),
        |i: int| frame_json(frames[i], i),
    ));
}

/// The messages that answer a request carry the sequence numbers from the
/// counter on, one after the other, and the counter ends behind the last.
pub proof fn lemma_reaction_is_numbered(
    pre: ServerModel,
    d0: DebuggerModel,
    request: Request,
    frame_depth: usize,
    r: Reaction,
    post: ServerModel,
    d1: DebuggerModel,
)
    requires
        DapServer::reacts(pre, d0, request, frame_depth, r, post, d1),
    ensures
        numbered_from(messages_of(r), pre.seq),
        post.seq == pre.seq + messages_of(r).len(),
{
}

/// Every message that leaves later has a greater sequence number than every
/// message that left before: the counter never goes back.
pub proof fn lemma_later_is_greater(
    earlier: Seq<MessageModel>,
    first: int,
    later: Seq<MessageModel>,
    next: int,
)
    requires
        numbered_from(earlier, first),
        numbered_from(later, next),
        first + earlier.len() <= next,
    ensures
        forall|i: int, j: int|
            0 <= i < earlier.len() && 0 <= j < later.len() ==> (#[trigger] earlier[i]).seq() < (
            #[trigger] later[j]).seq(),
{
}

/// Every response names the request that it answers.
pub proof fn lemma_response_names_request(
    pre: ServerModel,
    d0: DebuggerModel,
    request: Request,
    frame_depth: usize,
    r: Reaction,
    post: ServerModel,
    d1: DebuggerModel,
)
    requires
        DapServer::reacts(pre, d0, request, frame_depth, r, post, d1),
    ensures
        forall|i: int|
            0 <= i < messages_of(r).len() ==> answers(
                #[trigger] messages_of(r)[i],
                request.seq as int,
            ),
        r matches Reaction::AskWorker { pending, .. } ==> pending.request_seq == request.seq,
        r matches Reaction::Launch { pending, .. } ==> pending.request_seq == request.seq,
{
}

/// `continue` while the interpreter runs freely is granted and leaves the
/// debugger as it is.
pub proof fn lemma_continue_before_pause(
    pre: ServerModel,
    d0: DebuggerModel,
    request: Request,
    r: Reaction,
    post: ServerModel,
    d1: DebuggerModel,
)
    requires
        DapServer::on_continue(pre, d0, request, r, post, d1),
        ContinueArguments::flaw(arguments_of(request)) is None,
        !d0.paused,
        d0.step_mode == StepMode::Continue,
    ensures
        d1 == d0,
        resumes(r, seq![response(pre.seq, request, true, None, Some(continue_body()))]),
{
}

/// `stackTrace` while the interpreter is not paused is granted with an empty
/// list of frames.
pub proof fn lemma_stack_trace_before_pause(
    pre: ServerModel,
    d0: DebuggerModel,
    request: Request,
    r: Reaction,
    post: ServerModel,
    d1: DebuggerModel,
)
    requires
        DapServer::on_stack_trace(pre, d0, request, r, post, d1),
        StackTraceArguments::flaw(arguments_of(request)) is None,
        !d0.paused,
    ensures
        granted(pre, request, Some(stack_body(Seq::empty())), r),
        d1 == d0,
{
}

/// Once `terminated` was forwarded, or the worker shut down, no event of the
/// worker reaches the client any more, whatever the worker reports.
pub proof fn lemma_nothing_follows_terminated(
    pre: ServerModel,
    last: EventModel,
    out: Forwarded,
    then: ServerModel,
    late: EventModel,
    late_out: Forwarded,
    post: ServerModel,
)
    requires
        last is Terminated || last is Shutdown,
        DapServer::forwards(pre, last, out, then),
        DapServer::forwards(then, late, late_out, post),
    ensures
        late_out.message is None,
        post == then,
{
}

/// `initialize` answers with the same capabilities whenever it is asked.
pub proof fn lemma_initialize_is_idempotent(
    pre1: ServerModel,
    d1: DebuggerModel,
    first: Request,
    r1: Reaction,
    post1: ServerModel,
    e1: DebuggerModel,
    pre2: ServerModel,
    d2: DebuggerModel,
    second: Request,
    r2: Reaction,
    post2: ServerModel,
    e2: DebuggerModel,
)
    requires
        DapServer::on_initialize(pre1, d1, first, r1, post1, e1),
        DapServer::on_initialize(pre2, d2, second, r2, post2, e2),
        InitializeRequestArguments::flaw(arguments_of(first)) is None,
        InitializeRequestArguments::flaw(arguments_of(second)) is None,
    ensures
        messages_of(r1)[0] matches MessageModel::Response { body, .. } && body == Some(
            DebugSession::capabilities()@,
        ),
        messages_of(r2)[0] matches MessageModel::Response { body, .. } && body == Some(
            DebugSession::capabilities()@,
        ),
{
}

/// Whenever the interpreter is let run, by `continue` or by a step, no
/// variable reference is left and the debugger is not paused.
pub proof fn lemma_resume_drops_references(
    pre: ServerModel,
    d0: DebuggerModel,
    request: Request,
    frame_depth: usize,
    r: Reaction,
    post: ServerModel,
    d1: DebuggerModel,
)
    requires
        DapServer::reacts(pre, d0, request, frame_depth, r, post, d1),
        r is Resume,
    ensures
        post.session.variable_references == Map::<i64, VariableReference>::empty(),
        post.session.running,
        post.session.stopped_reason is None,
        !d1.paused,
{
}

} // verus!
