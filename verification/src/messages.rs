//! The message catalog: typed request arguments, response bodies and event
//! bodies, each with its JSON form.
//!
//! The model of a type that is sent is its JSON form; a type that is received
//! says which JSON values it accepts and what it then holds.

use crate::decode::{
    opt_int, opt_port, opt_text_pairs, or_flaw, Decode, DecodeError, Flaw, Scan,
};
use crate::encode::{Encode, Fields, ObjectBuilder};
use crate::json::{
    copy_opt_json, items_model, lemma_array_model, lemma_member_smaller, opt_integers, opt_json,
    opt_texts, opt_view, opt_views, views, Json, JsonValue, Members,
};
use crate::text::{copy_opt_text, opt_text, owned};
use vstd::prelude::*;

verus! {

// Request arguments

/// Arguments of `initialize`: what the client is and can do.
#[derive(Debug, Clone)]
pub struct InitializeRequestArguments {
    pub client_id: Option<String>,
    pub client_name: Option<String>,
    pub adapter_id: Option<String>,
    pub locale: Option<String>,
    pub lines_start_at_1: bool,
    pub columns_start_at_1: bool,
    pub path_format: Option<String>,
    pub supports_variable_type: bool,
    pub supports_variable_paging: bool,
    pub supports_run_in_terminal_request: bool,
    pub supports_memory_references: bool,
    pub supports_progress_reporting: bool,
    pub supports_invalidated_event: bool,
}

impl Decode for InitializeRequestArguments {
    open spec fn flaw(j: JsonValue) -> Option<Flaw> {
        Scan::object(j)
            .text("clientId"@)
            .text("clientName"@)
            .text("adapterId"@)
            .text("locale"@)
            .flag("linesStartAt1"@)
            .flag("columnsStartAt1"@)
            .text("pathFormat"@)
            .flag("supportsVariableType"@)
            .flag("supportsVariablePaging"@)
            .flag("supportsRunInTerminalRequest"@)
            .flag("supportsMemoryReferences"@)
            .flag("supportsProgressReporting"@)
            .flag("supportsInvalidatedEvent"@)
            .flaw
    }

    open spec fn decodes(j: JsonValue, a: Self) -> bool {
        &&& j.text_at("clientId"@) == Ok::<Option<Seq<char>>, Flaw>(opt_text(a.client_id))
        &&& j.text_at("clientName"@) == Ok::<Option<Seq<char>>, Flaw>(opt_text(a.client_name))
        &&& j.text_at("adapterId"@) == Ok::<Option<Seq<char>>, Flaw>(opt_text(a.adapter_id))
        &&& j.text_at("locale"@) == Ok::<Option<Seq<char>>, Flaw>(opt_text(a.locale))
        &&& j.flag_at("linesStartAt1"@) == Ok::<bool, Flaw>(a.lines_start_at_1)
        &&& j.flag_at("columnsStartAt1"@) == Ok::<bool, Flaw>(a.columns_start_at_1)
        &&& j.text_at("pathFormat"@) == Ok::<Option<Seq<char>>, Flaw>(opt_text(a.path_format))
        &&& j.flag_at("supportsVariableType"@) == Ok::<bool, Flaw>(a.supports_variable_type)
        &&& j.flag_at("supportsVariablePaging"@) == Ok::<bool, Flaw>(a.supports_variable_paging)
        &&& j.flag_at("supportsRunInTerminalRequest"@) == Ok::<bool, Flaw>(
            a.supports_run_in_terminal_request,
        )
        &&& j.flag_at("supportsMemoryReferences"@) == Ok::<bool, Flaw>(a.supports_memory_references)
        &&& j.flag_at("supportsProgressReporting"@) == Ok::<bool, Flaw>(
            a.supports_progress_reporting,
        )
        &&& j.flag_at("supportsInvalidatedEvent"@) == Ok::<bool, Flaw>(a.supports_invalidated_event)
    }

    fn from_json(j: &Json) -> (res: Result<Self, DecodeError>) {
        j.expect_object()?;
        let client_id = j.text_at("clientId")?;
        let client_name = j.text_at("clientName")?;
        let adapter_id = j.text_at("adapterId")?;
        let locale = j.text_at("locale")?;
        let lines_start_at_1 = j.flag_at("linesStartAt1")?;
        let columns_start_at_1 = j.flag_at("columnsStartAt1")?;
        let path_format = j.text_at("pathFormat")?;
        let supports_variable_type = j.flag_at("supportsVariableType")?;
        let supports_variable_paging = j.flag_at("supportsVariablePaging")?;
        let supports_run_in_terminal_request = j.flag_at("supportsRunInTerminalRequest")?;
        let supports_memory_references = j.flag_at("supportsMemoryReferences")?;
        let supports_progress_reporting = j.flag_at("supportsProgressReporting")?;
        let supports_invalidated_event = j.flag_at("supportsInvalidatedEvent")?;
        Ok(InitializeRequestArguments {
            client_id,
            client_name,
            adapter_id,
            locale,
            lines_start_at_1,
            columns_start_at_1,
            path_format,
            supports_variable_type,
            supports_variable_paging,
            supports_run_in_terminal_request,
            supports_memory_references,
            supports_progress_reporting,
            supports_invalidated_event,
        })
    }
}

/// Arguments of `launch`: the program to run and how.
#[derive(Debug, Clone)]
pub struct LaunchRequestArguments {
    pub no_debug: Option<bool>,
    pub program: Option<String>,
    pub args: Option<Vec<String>>,
    pub cwd: Option<String>,
    pub env: Option<Vec<(String, String)>>,
    pub stop_on_entry: Option<bool>,
}

impl Decode for LaunchRequestArguments {
    open spec fn flaw(j: JsonValue) -> Option<Flaw> {
        Scan::object(j)
            .boolean("noDebug"@)
            .text("program"@)
            .texts("args"@)
            .text("cwd"@)
            .text_map("env"@)
            .boolean("stopOnEntry"@)
            .flaw
    }

    open spec fn decodes(j: JsonValue, a: Self) -> bool {
        &&& j.bool_at("noDebug"@) == Ok::<Option<bool>, Flaw>(a.no_debug)
        &&& j.text_at("program"@) == Ok::<Option<Seq<char>>, Flaw>(opt_text(a.program))
        &&& j.texts_at("args"@) == Ok::<Option<Seq<JsonValue>>, Flaw>(opt_texts(a.args))
        &&& j.text_at("cwd"@) == Ok::<Option<Seq<char>>, Flaw>(opt_text(a.cwd))
        &&& j.text_map_at("env"@) == Ok::<Option<Members>, Flaw>(opt_text_pairs(a.env))
        &&& j.bool_at("stopOnEntry"@) == Ok::<Option<bool>, Flaw>(a.stop_on_entry)
    }

    fn from_json(j: &Json) -> (res: Result<Self, DecodeError>) {
        j.expect_object()?;
        let no_debug = j.bool_at("noDebug")?;
        let program = j.text_at("program")?;
        let args = j.texts_at("args")?;
        let cwd = j.text_at("cwd")?;
        let env = j.text_map_at("env")?;
        let stop_on_entry = j.bool_at("stopOnEntry")?;
        Ok(LaunchRequestArguments { no_debug, program, args, cwd, env, stop_on_entry })
    }
}

/// Arguments of `attach`.
#[derive(Debug, Clone)]
pub struct AttachRequestArguments {
    pub port: Option<u16>,
    pub address: Option<String>,
}

impl Decode for AttachRequestArguments {
    open spec fn flaw(j: JsonValue) -> Option<Flaw> {
        Scan::object(j)
            .port("port"@)
            .text("address"@)
            .flaw
    }

    open spec fn decodes(j: JsonValue, a: Self) -> bool {
        &&& j.port_at("port"@) == Ok::<Option<int>, Flaw>(opt_port(a.port))
        &&& j.text_at("address"@) == Ok::<Option<Seq<char>>, Flaw>(opt_text(a.address))
    }

    fn from_json(j: &Json) -> (res: Result<Self, DecodeError>) {
        j.expect_object()?;
        let port = j.port_at("port")?;
        let address = j.text_at("address")?;
        Ok(AttachRequestArguments { port, address })
    }
}

/// Arguments of `setBreakpoints`: a source and the breakpoints it shall have.
#[derive(Debug, Clone)]
pub struct SetBreakpointsArguments {
    pub source: Source,
    pub breakpoints: Option<Vec<SourceBreakpoint>>,
    pub lines: Option<Vec<i64>>,
    pub source_modified: Option<bool>,
}

impl Decode for SetBreakpointsArguments {
    open spec fn flaw(j: JsonValue) -> Option<Flaw> {
        Scan::object(j)
            .required_record::<Source>("source"@)
            .records::<SourceBreakpoint>("breakpoints"@)
            .integers("lines"@)
            .boolean("sourceModified"@)
            .flaw
    }

    open spec fn decodes(j: JsonValue, a: Self) -> bool {
        &&& j.required_record_decodes_at::<Source>("source"@, a.source)
        &&& j.records_decode_at::<SourceBreakpoint>("breakpoints"@, a.breakpoints)
        &&& j.integers_at("lines"@) == Ok::<Option<Seq<JsonValue>>, Flaw>(opt_integers(a.lines))
        &&& j.bool_at("sourceModified"@) == Ok::<Option<bool>, Flaw>(a.source_modified)
    }

    fn from_json(j: &Json) -> (res: Result<Self, DecodeError>) {
        j.expect_object()?;
        let source = j.required_record_at::<Source>("source")?;
        let breakpoints = j.records_at::<SourceBreakpoint>("breakpoints")?;
        let lines = j.integers_at("lines")?;
        let source_modified = j.bool_at("sourceModified")?;
        Ok(SetBreakpointsArguments { source, breakpoints, lines, source_modified })
    }
}

/// A breakpoint as the client asks for it.
#[derive(Debug, Clone)]
pub struct SourceBreakpoint {
    pub line: i64,
    pub column: Option<i64>,
    pub condition: Option<String>,
    pub hit_condition: Option<String>,
    pub log_message: Option<String>,
}

impl Decode for SourceBreakpoint {
    open spec fn flaw(j: JsonValue) -> Option<Flaw> {
        Scan::object(j)
            .required_integer("line"@)
            .integer("column"@)
            .text("condition"@)
            .text("hitCondition"@)
            .text("logMessage"@)
            .flaw
    }

    open spec fn decodes(j: JsonValue, a: Self) -> bool {
        &&& j.required_integer_at("line"@) == Ok::<int, Flaw>(a.line as int)
        &&& j.integer_at("column"@) == Ok::<Option<int>, Flaw>(opt_int(a.column))
        &&& j.text_at("condition"@) == Ok::<Option<Seq<char>>, Flaw>(opt_text(a.condition))
        &&& j.text_at("hitCondition"@) == Ok::<Option<Seq<char>>, Flaw>(opt_text(a.hit_condition))
        &&& j.text_at("logMessage"@) == Ok::<Option<Seq<char>>, Flaw>(opt_text(a.log_message))
    }

    fn from_json(j: &Json) -> (res: Result<Self, DecodeError>) {
        j.expect_object()?;
        let line = j.required_integer_at("line")?;
        let column = j.integer_at("column")?;
        let condition = j.text_at("condition")?;
        let hit_condition = j.text_at("hitCondition")?;
        let log_message = j.text_at("logMessage")?;
        Ok(SourceBreakpoint { line, column, condition, hit_condition, log_message })
    }
}

/// Arguments of `continue`.
#[derive(Debug, Clone)]
pub struct ContinueArguments {
    pub thread_id: i64,
    pub single_thread: Option<bool>,
}

impl Decode for ContinueArguments {
    open spec fn flaw(j: JsonValue) -> Option<Flaw> {
        Scan::object(j)
            .required_integer("threadId"@)
            .boolean("singleThread"@)
            .flaw
    }

    open spec fn decodes(j: JsonValue, a: Self) -> bool {
        &&& j.required_integer_at("threadId"@) == Ok::<int, Flaw>(a.thread_id as int)
        &&& j.bool_at("singleThread"@) == Ok::<Option<bool>, Flaw>(a.single_thread)
    }

    fn from_json(j: &Json) -> (res: Result<Self, DecodeError>) {
        j.expect_object()?;
        let thread_id = j.required_integer_at("threadId")?;
        let single_thread = j.bool_at("singleThread")?;
        Ok(ContinueArguments { thread_id, single_thread })
    }
}

/// Arguments of `next`.
#[derive(Debug, Clone)]
pub struct NextArguments {
    pub thread_id: i64,
    pub single_thread: Option<bool>,
    pub granularity: Option<String>,
}

impl Decode for NextArguments {
    open spec fn flaw(j: JsonValue) -> Option<Flaw> {
        Scan::object(j)
            .required_integer("threadId"@)
            .boolean("singleThread"@)
            .text("granularity"@)
            .flaw
    }

    open spec fn decodes(j: JsonValue, a: Self) -> bool {
        &&& j.required_integer_at("threadId"@) == Ok::<int, Flaw>(a.thread_id as int)
        &&& j.bool_at("singleThread"@) == Ok::<Option<bool>, Flaw>(a.single_thread)
        &&& j.text_at("granularity"@) == Ok::<Option<Seq<char>>, Flaw>(opt_text(a.granularity))
    }

    fn from_json(j: &Json) -> (res: Result<Self, DecodeError>) {
        j.expect_object()?;
        let thread_id = j.required_integer_at("threadId")?;
        let single_thread = j.bool_at("singleThread")?;
        let granularity = j.text_at("granularity")?;
        Ok(NextArguments { thread_id, single_thread, granularity })
    }
}

/// Arguments of `stepIn`.
#[derive(Debug, Clone)]
pub struct StepInArguments {
    pub thread_id: i64,
    pub single_thread: Option<bool>,
    pub target_id: Option<i64>,
    pub granularity: Option<String>,
}

impl Decode for StepInArguments {
    open spec fn flaw(j: JsonValue) -> Option<Flaw> {
        Scan::object(j)
            .required_integer("threadId"@)
            .boolean("singleThread"@)
            .integer("targetId"@)
            .text("granularity"@)
            .flaw
    }

    open spec fn decodes(j: JsonValue, a: Self) -> bool {
        &&& j.required_integer_at("threadId"@) == Ok::<int, Flaw>(a.thread_id as int)
        &&& j.bool_at("singleThread"@) == Ok::<Option<bool>, Flaw>(a.single_thread)
        &&& j.integer_at("targetId"@) == Ok::<Option<int>, Flaw>(opt_int(a.target_id))
        &&& j.text_at("granularity"@) == Ok::<Option<Seq<char>>, Flaw>(opt_text(a.granularity))
    }

    fn from_json(j: &Json) -> (res: Result<Self, DecodeError>) {
        j.expect_object()?;
        let thread_id = j.required_integer_at("threadId")?;
        let single_thread = j.bool_at("singleThread")?;
        let target_id = j.integer_at("targetId")?;
        let granularity = j.text_at("granularity")?;
        Ok(StepInArguments { thread_id, single_thread, target_id, granularity })
    }
}

/// Arguments of `stepOut`.
#[derive(Debug, Clone)]
pub struct StepOutArguments {
    pub thread_id: i64,
    pub single_thread: Option<bool>,
    pub granularity: Option<String>,
}

impl Decode for StepOutArguments {
    open spec fn flaw(j: JsonValue) -> Option<Flaw> {
        Scan::object(j)
            .required_integer("threadId"@)
            .boolean("singleThread"@)
            .text("granularity"@)
            .flaw
    }

    open spec fn decodes(j: JsonValue, a: Self) -> bool {
        &&& j.required_integer_at("threadId"@) == Ok::<int, Flaw>(a.thread_id as int)
        &&& j.bool_at("singleThread"@) == Ok::<Option<bool>, Flaw>(a.single_thread)
        &&& j.text_at("granularity"@) == Ok::<Option<Seq<char>>, Flaw>(opt_text(a.granularity))
    }

    fn from_json(j: &Json) -> (res: Result<Self, DecodeError>) {
        j.expect_object()?;
        let thread_id = j.required_integer_at("threadId")?;
        let single_thread = j.bool_at("singleThread")?;
        let granularity = j.text_at("granularity")?;
        Ok(StepOutArguments { thread_id, single_thread, granularity })
    }
}

/// Arguments of `stackTrace`.
#[derive(Debug, Clone)]
pub struct StackTraceArguments {
    pub thread_id: i64,
    pub start_frame: Option<i64>,
    pub levels: Option<i64>,
    pub format: Option<StackFrameFormat>,
}

impl Decode for StackTraceArguments {
    open spec fn flaw(j: JsonValue) -> Option<Flaw> {
        Scan::object(j)
            .required_integer("threadId"@)
            .integer("startFrame"@)
            .integer("levels"@)
            .record::<StackFrameFormat>("format"@)
            .flaw
    }

    open spec fn decodes(j: JsonValue, a: Self) -> bool {
        &&& j.required_integer_at("threadId"@) == Ok::<int, Flaw>(a.thread_id as int)
        &&& j.integer_at("startFrame"@) == Ok::<Option<int>, Flaw>(opt_int(a.start_frame))
        &&& j.integer_at("levels"@) == Ok::<Option<int>, Flaw>(opt_int(a.levels))
        &&& j.record_decodes_at::<StackFrameFormat>("format"@, a.format)
    }

    fn from_json(j: &Json) -> (res: Result<Self, DecodeError>) {
        j.expect_object()?;
        let thread_id = j.required_integer_at("threadId")?;
        let start_frame = j.integer_at("startFrame")?;
        let levels = j.integer_at("levels")?;
        let format = j.record_at::<StackFrameFormat>("format")?;
        Ok(StackTraceArguments { thread_id, start_frame, levels, format })
    }
}

/// Arguments of `scopes`.
#[derive(Debug, Clone)]
pub struct ScopesArguments {
    pub frame_id: i64,
}

impl Decode for ScopesArguments {
    open spec fn flaw(j: JsonValue) -> Option<Flaw> {
        Scan::object(j)
            .required_integer("frameId"@)
            .flaw
    }

    open spec fn decodes(j: JsonValue, a: Self) -> bool {
        &&& j.required_integer_at("frameId"@) == Ok::<int, Flaw>(a.frame_id as int)
    }

    fn from_json(j: &Json) -> (res: Result<Self, DecodeError>) {
        j.expect_object()?;
        let frame_id = j.required_integer_at("frameId")?;
        Ok(ScopesArguments { frame_id })
    }
}

/// Arguments of `variables`.
#[derive(Debug, Clone)]
pub struct VariablesArguments {
    pub variables_reference: i64,
    pub filter: Option<String>,
    pub start: Option<i64>,
    pub count: Option<i64>,
    pub format: Option<ValueFormat>,
}

impl Decode for VariablesArguments {
    open spec fn flaw(j: JsonValue) -> Option<Flaw> {
        Scan::object(j)
            .required_integer("variablesReference"@)
            .text("filter"@)
            .integer("start"@)
            .integer("count"@)
            .record::<ValueFormat>("format"@)
            .flaw
    }

    open spec fn decodes(j: JsonValue, a: Self) -> bool {
        &&& j.required_integer_at("variablesReference"@) == Ok::<int, Flaw>(
            a.variables_reference as int,
        )
        &&& j.text_at("filter"@) == Ok::<Option<Seq<char>>, Flaw>(opt_text(a.filter))
        &&& j.integer_at("start"@) == Ok::<Option<int>, Flaw>(opt_int(a.start))
        &&& j.integer_at("count"@) == Ok::<Option<int>, Flaw>(opt_int(a.count))
        &&& j.record_decodes_at::<ValueFormat>("format"@, a.format)
    }

    fn from_json(j: &Json) -> (res: Result<Self, DecodeError>) {
        j.expect_object()?;
        let variables_reference = j.required_integer_at("variablesReference")?;
        let filter = j.text_at("filter")?;
        let start = j.integer_at("start")?;
        let count = j.integer_at("count")?;
        let format = j.record_at::<ValueFormat>("format")?;
        Ok(VariablesArguments { variables_reference, filter, start, count, format })
    }
}

/// Arguments of `evaluate`.
#[derive(Debug, Clone)]
pub struct EvaluateArguments {
    pub expression: String,
    pub frame_id: Option<i64>,
    pub context: Option<String>,
    pub format: Option<ValueFormat>,
}

impl Decode for EvaluateArguments {
    open spec fn flaw(j: JsonValue) -> Option<Flaw> {
        Scan::object(j)
            .required_text("expression"@)
            .integer("frameId"@)
            .text("context"@)
            .record::<ValueFormat>("format"@)
            .flaw
    }

    open spec fn decodes(j: JsonValue, a: Self) -> bool {
        &&& j.required_text_at("expression"@) == Ok::<Seq<char>, Flaw>(a.expression@)
        &&& j.integer_at("frameId"@) == Ok::<Option<int>, Flaw>(opt_int(a.frame_id))
        &&& j.text_at("context"@) == Ok::<Option<Seq<char>>, Flaw>(opt_text(a.context))
        &&& j.record_decodes_at::<ValueFormat>("format"@, a.format)
    }

    fn from_json(j: &Json) -> (res: Result<Self, DecodeError>) {
        j.expect_object()?;
        let expression = j.required_text_at("expression")?;
        let frame_id = j.integer_at("frameId")?;
        let context = j.text_at("context")?;
        let format = j.record_at::<ValueFormat>("format")?;
        Ok(EvaluateArguments { expression, frame_id, context, format })
    }
}

/// Arguments of `source`.
#[derive(Debug, Clone)]
pub struct SourceArguments {
    pub source: Option<Source>,
    pub source_reference: Option<i64>,
}

impl Decode for SourceArguments {
    open spec fn flaw(j: JsonValue) -> Option<Flaw> {
        Scan::object(j)
            .record::<Source>("source"@)
            .integer("sourceReference"@)
            .flaw
    }

    open spec fn decodes(j: JsonValue, a: Self) -> bool {
        &&& j.record_decodes_at::<Source>("source"@, a.source)
        &&& j.integer_at("sourceReference"@) == Ok::<Option<int>, Flaw>(opt_int(a.source_reference))
    }

    fn from_json(j: &Json) -> (res: Result<Self, DecodeError>) {
        j.expect_object()?;
        let source = j.record_at::<Source>("source")?;
        let source_reference = j.integer_at("sourceReference")?;
        Ok(SourceArguments { source, source_reference })
    }
}

// Response bodies

/// What the adapter can do, as `initialize` answers it.
#[derive(Debug, Clone)]
pub struct Capabilities {
    pub supports_configuration_done_request: bool,
    pub supports_function_breakpoints: bool,
    pub supports_conditional_breakpoints: bool,
    pub supports_hit_conditional_breakpoints: bool,
    pub supports_evaluate_for_hovers: bool,
    pub supports_step_back: bool,
    pub supports_set_variable: bool,
    pub supports_restart_frame: bool,
    pub supports_goto_targets_request: bool,
    pub supports_step_in_targets_request: bool,
    pub supports_completions_request: bool,
    pub supports_modules_request: bool,
    pub supports_restart_request: bool,
    pub supports_exception_options: bool,
    pub supports_value_formatting_options: bool,
    pub supports_exception_info_request: bool,
    pub supports_terminate_debuggee: bool,
    pub supports_delayed_stack_trace_loading: bool,
    pub supports_loaded_sources_request: bool,
    pub supports_log_points: bool,
    pub supports_terminate_threads_request: bool,
    pub supports_set_expression: bool,
    pub supports_terminate_request: bool,
    pub supports_data_breakpoints: bool,
    pub supports_read_memory_request: bool,
    pub supports_disassemble_request: bool,
    pub supports_cancel_request: bool,
    pub supports_breakpoint_locations_request: bool,
    pub supports_clipboard_context: bool,
}

impl Capabilities {
    /// The members from `supportsConfigurationDoneRequest` to
    /// `supportsRestartFrame`, after `before`.
    pub open spec fn first_run(&self, before: Fields) -> Fields {
        before
            .boolean("supportsConfigurationDoneRequest"@, self.supports_configuration_done_request)
            .boolean("supportsFunctionBreakpoints"@, self.supports_function_breakpoints)
            .boolean("supportsConditionalBreakpoints"@, self.supports_conditional_breakpoints)
            .boolean(
                "supportsHitConditionalBreakpoints"@,
                self.supports_hit_conditional_breakpoints,
            )
            .boolean("supportsEvaluateForHovers"@, self.supports_evaluate_for_hovers)
            .boolean("supportsStepBack"@, self.supports_step_back)
            .boolean("supportsSetVariable"@, self.supports_set_variable)
            .boolean("supportsRestartFrame"@, self.supports_restart_frame)
    }

    /// The members from `supportsGotoTargetsRequest` to
    /// `supportsExceptionInfoRequest`, after `before`.
    pub open spec fn second_run(&self, before: Fields) -> Fields {
        before
            .boolean("supportsGotoTargetsRequest"@, self.supports_goto_targets_request)
            .boolean("supportsStepInTargetsRequest"@, self.supports_step_in_targets_request)
            .boolean("supportsCompletionsRequest"@, self.supports_completions_request)
            .boolean("supportsModulesRequest"@, self.supports_modules_request)
            .boolean("supportsRestartRequest"@, self.supports_restart_request)
            .boolean("supportsExceptionOptions"@, self.supports_exception_options)
            .boolean("supportsValueFormattingOptions"@, self.supports_value_formatting_options)
            .boolean("supportsExceptionInfoRequest"@, self.supports_exception_info_request)
    }

    /// The members from `supportsTerminateDebuggee` to `supportsDataBreakpoints`, after `before`.
    pub open spec fn third_run(&self, before: Fields) -> Fields {
        before
            .boolean("supportsTerminateDebuggee"@, self.supports_terminate_debuggee)
            .boolean("supportsDelayedStackTraceLoading"@, self.supports_delayed_stack_trace_loading)
            .boolean("supportsLoadedSourcesRequest"@, self.supports_loaded_sources_request)
            .boolean("supportsLogPoints"@, self.supports_log_points)
            .boolean("supportsTerminateThreadsRequest"@, self.supports_terminate_threads_request)
            .boolean("supportsSetExpression"@, self.supports_set_expression)
            .boolean("supportsTerminateRequest"@, self.supports_terminate_request)
            .boolean("supportsDataBreakpoints"@, self.supports_data_breakpoints)
    }

    /// The members from `supportsReadMemoryRequest` to `supportsClipboardContext`, after `before`.
    pub open spec fn last_run(&self, before: Fields) -> Fields {
        before
            .boolean("supportsReadMemoryRequest"@, self.supports_read_memory_request)
            .boolean("supportsDisassembleRequest"@, self.supports_disassemble_request)
            .boolean("supportsCancelRequest"@, self.supports_cancel_request)
            .boolean(
                "supportsBreakpointLocationsRequest"@,
                self.supports_breakpoint_locations_request,
            )
            .boolean("supportsClipboardContext"@, self.supports_clipboard_context)
    }

    fn put_first_run(&self, before: ObjectBuilder) -> (b: ObjectBuilder)
        ensures
            b@ == self.first_run(before@),
    {
        before
            .boolean("supportsConfigurationDoneRequest", self.supports_configuration_done_request)
            .boolean("supportsFunctionBreakpoints", self.supports_function_breakpoints)
            .boolean("supportsConditionalBreakpoints", self.supports_conditional_breakpoints)
            .boolean("supportsHitConditionalBreakpoints", self.supports_hit_conditional_breakpoints)
            .boolean("supportsEvaluateForHovers", self.supports_evaluate_for_hovers)
            .boolean("supportsStepBack", self.supports_step_back)
            .boolean("supportsSetVariable", self.supports_set_variable)
            .boolean("supportsRestartFrame", self.supports_restart_frame)
    }

    fn put_second_run(&self, before: ObjectBuilder) -> (b: ObjectBuilder)
        ensures
            b@ == self.second_run(before@),
    {
        before
            .boolean("supportsGotoTargetsRequest", self.supports_goto_targets_request)
            .boolean("supportsStepInTargetsRequest", self.supports_step_in_targets_request)
            .boolean("supportsCompletionsRequest", self.supports_completions_request)
            .boolean("supportsModulesRequest", self.supports_modules_request)
            .boolean("supportsRestartRequest", self.supports_restart_request)
            .boolean("supportsExceptionOptions", self.supports_exception_options)
            .boolean("supportsValueFormattingOptions", self.supports_value_formatting_options)
            .boolean("supportsExceptionInfoRequest", self.supports_exception_info_request)
    }

    fn put_third_run(&self, before: ObjectBuilder) -> (b: ObjectBuilder)
        ensures
            b@ == self.third_run(before@),
    {
        before
            .boolean("supportsTerminateDebuggee", self.supports_terminate_debuggee)
            .boolean("supportsDelayedStackTraceLoading", self.supports_delayed_stack_trace_loading)
            .boolean("supportsLoadedSourcesRequest", self.supports_loaded_sources_request)
            .boolean("supportsLogPoints", self.supports_log_points)
            .boolean("supportsTerminateThreadsRequest", self.supports_terminate_threads_request)
            .boolean("supportsSetExpression", self.supports_set_expression)
            .boolean("supportsTerminateRequest", self.supports_terminate_request)
            .boolean("supportsDataBreakpoints", self.supports_data_breakpoints)
    }

    fn put_last_run(&self, before: ObjectBuilder) -> (b: ObjectBuilder)
        ensures
            b@ == self.last_run(before@),
    {
        before
            .boolean("supportsReadMemoryRequest", self.supports_read_memory_request)
            .boolean("supportsDisassembleRequest", self.supports_disassemble_request)
            .boolean("supportsCancelRequest", self.supports_cancel_request)
            .boolean(
                "supportsBreakpointLocationsRequest",
                self.supports_breakpoint_locations_request,
            )
            .boolean("supportsClipboardContext", self.supports_clipboard_context)
    }
}

/// The JSON form holds every capability, in the order of the fields. It is
/// stated in four runs of members, which keeps each proof about it small.
impl View for Capabilities {
    type V = JsonValue;

    open spec fn view(&self) -> JsonValue {
        self.last_run(self.third_run(self.second_run(self.first_run(Fields::new())))).json()
    }
}

impl Encode for Capabilities {
    fn to_json(&self) -> (j: Json) {
        let b = self.put_first_run(ObjectBuilder::new());
        let b = self.put_second_run(b);
        let b = self.put_third_run(b);
        let b = self.put_last_run(b);
        b.build()
    }
}

/// Body of the answer to `setBreakpoints`.
#[derive(Debug, Clone)]
pub struct SetBreakpointsResponseBody {
    pub breakpoints: Vec<Breakpoint>,
}

impl View for SetBreakpointsResponseBody {
    type V = JsonValue;

    open spec fn view(&self) -> JsonValue {
        Fields::new()
            .array("breakpoints"@, views(self.breakpoints@))
            .json()
    }
}

impl Encode for SetBreakpointsResponseBody {
    fn to_json(&self) -> (j: Json) {
        ObjectBuilder::new()
            .records("breakpoints", &self.breakpoints)
            .build()
    }
}

/// Body of the answer to `continue`.
#[derive(Debug, Clone)]
pub struct ContinueResponseBody {
    pub all_threads_continued: bool,
}

impl View for ContinueResponseBody {
    type V = JsonValue;

    open spec fn view(&self) -> JsonValue {
        Fields::new()
            .boolean("allThreadsContinued"@, self.all_threads_continued)
            .json()
    }
}

impl Encode for ContinueResponseBody {
    fn to_json(&self) -> (j: Json) {
        ObjectBuilder::new()
            .boolean("allThreadsContinued", self.all_threads_continued)
            .build()
    }
}

/// Body of the answer to `stackTrace`.
#[derive(Debug, Clone)]
pub struct StackTraceResponseBody {
    pub stack_frames: Vec<StackFrame>,
    pub total_frames: Option<i64>,
}

impl View for StackTraceResponseBody {
    type V = JsonValue;

    open spec fn view(&self) -> JsonValue {
        Fields::new()
            .array("stackFrames"@, views(self.stack_frames@))
            .opt_integer("totalFrames"@, self.total_frames)
            .json()
    }
}

impl Encode for StackTraceResponseBody {
    fn to_json(&self) -> (j: Json) {
        ObjectBuilder::new()
            .records("stackFrames", &self.stack_frames)
            .opt_integer("totalFrames", self.total_frames)
            .build()
    }
}

/// Body of the answer to `scopes`.
#[derive(Debug, Clone)]
pub struct ScopesResponseBody {
    pub scopes: Vec<Scope>,
}

impl View for ScopesResponseBody {
    type V = JsonValue;

    open spec fn view(&self) -> JsonValue {
        Fields::new()
            .array("scopes"@, views(self.scopes@))
            .json()
    }
}

impl Encode for ScopesResponseBody {
    fn to_json(&self) -> (j: Json) {
        ObjectBuilder::new()
            .records("scopes", &self.scopes)
            .build()
    }
}

/// Body of the answer to `variables`.
#[derive(Debug, Clone)]
pub struct VariablesResponseBody {
    pub variables: Vec<Variable>,
}

impl View for VariablesResponseBody {
    type V = JsonValue;

    open spec fn view(&self) -> JsonValue {
        Fields::new()
            .array("variables"@, views(self.variables@))
            .json()
    }
}

impl Encode for VariablesResponseBody {
    fn to_json(&self) -> (j: Json) {
        ObjectBuilder::new()
            .records("variables", &self.variables)
            .build()
    }
}

/// Body of the answer to `evaluate`.
#[derive(Debug, Clone)]
pub struct EvaluateResponseBody {
    pub result: String,
    pub type_: Option<String>,
    pub presentation_hint: Option<VariablePresentationHint>,
    pub variables_reference: i64,
    pub named_variables: Option<i64>,
    pub indexed_variables: Option<i64>,
}

impl View for EvaluateResponseBody {
    type V = JsonValue;

    open spec fn view(&self) -> JsonValue {
        Fields::new()
            .text("result"@, self.result@)
            .opt_text("type"@, self.type_)
            .opt_value("presentationHint"@, opt_view(self.presentation_hint))
            .integer("variablesReference"@, self.variables_reference as int)
            .opt_integer("namedVariables"@, self.named_variables)
            .opt_integer("indexedVariables"@, self.indexed_variables)
            .json()
    }
}

impl Encode for EvaluateResponseBody {
    fn to_json(&self) -> (j: Json) {
        ObjectBuilder::new()
            .text("result", self.result.as_str())
            .opt_text("type", &self.type_)
            .opt_record("presentationHint", &self.presentation_hint)
            .integer("variablesReference", self.variables_reference)
            .opt_integer("namedVariables", self.named_variables)
            .opt_integer("indexedVariables", self.indexed_variables)
            .build()
    }
}

/// Body of the answer to `threads`.
#[derive(Debug, Clone)]
pub struct ThreadsResponseBody {
    pub threads: Vec<Thread>,
}

impl View for ThreadsResponseBody {
    type V = JsonValue;

    open spec fn view(&self) -> JsonValue {
        Fields::new()
            .array("threads"@, views(self.threads@))
            .json()
    }
}

impl Encode for ThreadsResponseBody {
    fn to_json(&self) -> (j: Json) {
        ObjectBuilder::new()
            .records("threads", &self.threads)
            .build()
    }
}

// Types

/// A source file or other unit of code, as both sides name it.
#[derive(Debug)]
pub struct Source {
    pub name: Option<String>,
    pub path: Option<String>,
    pub source_reference: Option<i64>,
    pub presentation_hint: Option<String>,
    pub origin: Option<String>,
    pub sources: Option<Vec<Source>>,
    pub adapter_data: Option<Json>,
    pub checksums: Option<Vec<Checksum>>,
}

impl View for Source {
    type V = JsonValue;

    open spec fn view(&self) -> JsonValue
        decreases self,
    {
        Fields::new()
            .opt_text("name"@, self.name)
            .opt_text("path"@, self.path)
            .opt_integer("sourceReference"@, self.source_reference)
            .opt_text("presentationHint"@, self.presentation_hint)
            .opt_text("origin"@, self.origin)
            .opt_array(
                "sources"@,
                match self.sources {
                    Some(v) => Some(nested_sources(v)),
                    None => None,
                },
            )
            .opt_value("adapterData"@, opt_json(self.adapter_data))
            .opt_array("checksums"@, opt_views(self.checksums))
            .json()
    }
}

/// The JSON forms of the sources nested in a source.
pub open spec fn nested_sources(v: Vec<Source>) -> Seq<JsonValue>
    decreases v,
{
    Seq::new(
        v@.len(),
        |i: int|
            if 0 <= i < v@.len() {
                v@[i].view()
            } else {
                JsonValue::Null
            },
    )
}

/// The nested sources of a source are in its JSON form as an array of their own
/// JSON forms.
pub proof fn lemma_source_model(s: Source)
    ensures
        s@ == Fields::new()
            .opt_text("name"@, s.name)
            .opt_text("path"@, s.path)
            .opt_integer("sourceReference"@, s.source_reference)
            .opt_text("presentationHint"@, s.presentation_hint)
            .opt_text("origin"@, s.origin)
            .opt_array("sources"@, opt_views(s.sources))
            .opt_value("adapterData"@, opt_json(s.adapter_data))
            .opt_array("checksums"@, opt_views(s.checksums))
            .json(),
{
    match s.sources {
        Some(v) => {
            assert(nested_sources(v) =~= views(v@));
        },
        None => {},
    }
}

/// Why `j` is not a source, if it is not.
pub open spec fn source_flaw(j: JsonValue) -> Option<Flaw>
    decreases j,
{
    Scan::object(j)
        .text("name"@)
        .text("path"@)
        .integer("sourceReference"@)
        .text("presentationHint"@)
        .text("origin"@)
        .check(
            match j.array_at("sources"@) {
                Ok(Some(items)) => {
                    proof {
                        lemma_member_smaller(j->Object_0, "sources"@);
                    }
                    sources_flaw(items)
                },
                Ok(None) => None,
                Err(f) => Some(f),
            },
        )
        .records::<Checksum>("checksums"@)
        .flaw
}

/// The first flaw among the items of an array of sources.
pub open spec fn sources_flaw(items: Seq<JsonValue>) -> Option<Flaw>
    decreases items,
{
    if items.len() == 0 {
        None
    } else {
        or_flaw(source_flaw(items[0]), sources_flaw(items.subrange(1, items.len() as int)))
    }
}

/// Whether `a` is the source that `j` holds.
pub open spec fn source_decodes(j: JsonValue, a: Source) -> bool
    decreases a,
{
    &&& j.text_at("name"@) == Ok::<Option<Seq<char>>, Flaw>(opt_text(a.name))
    &&& j.text_at("path"@) == Ok::<Option<Seq<char>>, Flaw>(opt_text(a.path))
    &&& j.integer_at("sourceReference"@) == Ok::<Option<int>, Flaw>(opt_int(a.source_reference))
    &&& j.text_at("presentationHint"@) == Ok::<Option<Seq<char>>, Flaw>(
        opt_text(a.presentation_hint),
    )
    &&& j.text_at("origin"@) == Ok::<Option<Seq<char>>, Flaw>(opt_text(a.origin))
    &&& match j.array_at("sources"@) {
        Ok(Some(items)) => a.sources matches Some(v) && v@.len() == items.len() && forall|i: int|
            0 <= i < v@.len() ==> source_decodes(items[i], #[trigger] v@[i]),
        _ => a.sources is None,
    }
    &&& j.value_at("adapterData"@) == opt_json(a.adapter_data)
    &&& j.records_decode_at::<Checksum>("checksums"@, a.checksums)
}

impl Source {
    /// A source known by its path alone.
    pub fn from_path(path: &str) -> (s: Source)
        ensures
            opt_text(s.path) == Some(path@),
            s.name is None,
            s.source_reference is None,
            s.presentation_hint is None,
            s.origin is None,
            s.sources is None,
            s.adapter_data is None,
            s.checksums is None,
    {
        Source {
            name: None,
            path: Some(owned(path)),
            source_reference: None,
            presentation_hint: None,
            origin: None,
            sources: None,
            adapter_data: None,
            checksums: None,
        }
    }

    /// The JSON form of `self`.
    pub fn encode(&self) -> (j: Json)
        ensures
            j@ == self@,
        decreases self,
    {
        proof {
            lemma_source_model(*self);
        }
        let nested = match &self.sources {
            Some(v) => Some(encode_sources(v)),
            None => None,
        };
        ObjectBuilder::new()
            .opt_text("name", &self.name)
            .opt_text("path", &self.path)
            .opt_integer("sourceReference", self.source_reference)
            .opt_text("presentationHint", &self.presentation_hint)
            .opt_text("origin", &self.origin)
            .opt_value("sources", nested)
            .opt_json("adapterData", &self.adapter_data)
            .opt_records("checksums", &self.checksums)
            .build()
    }

    /// Reads a source from `j`.
    pub fn decode(j: &Json) -> (res: Result<Source, DecodeError>)
        ensures
            match res {
                Ok(a) => source_flaw(j@) is None && source_decodes(j@, a),
                Err(e) => source_flaw(j@) == Some(e@),
            },
        decreases j,
    {
        j.expect_object()?;
        let name = j.text_at("name")?;
        let path = j.text_at("path")?;
        let source_reference = j.integer_at("sourceReference")?;
        let presentation_hint = j.text_at("presentationHint")?;
        let origin = j.text_at("origin")?;
        let sources = match j.array_at("sources")? {
            Some(items) => Some(decode_sources(items)?),
            None => None,
        };
        let adapter_data = j.json_at("adapterData");
        let checksums = j.records_at::<Checksum>("checksums")?;
        Ok(
            Source {
                name,
                path,
                source_reference,
                presentation_hint,
                origin,
                sources,
                adapter_data,
                checksums,
            },
        )
    }

    /// A copy of `self`.
    pub fn copy(&self) -> (res: Source)
        ensures
            res@ == self@,
        decreases self,
    {
        proof {
            lemma_source_model(*self);
        }
        let sources = match &self.sources {
            Some(v) => Some(copy_sources(v)),
            None => None,
        };
        let checksums = match &self.checksums {
            Some(v) => Some(copy_checksums(v)),
            None => None,
        };
        let res = Source {
            name: copy_opt_text(&self.name),
            path: copy_opt_text(&self.path),
            source_reference: self.source_reference,
            presentation_hint: copy_opt_text(&self.presentation_hint),
            origin: copy_opt_text(&self.origin),
            sources,
            adapter_data: copy_opt_json(&self.adapter_data),
            checksums,
        };
        proof {
            lemma_source_model(res);
        }
        res
    }
}

/// The JSON array of the forms of `items`.
pub fn encode_sources(items: &Vec<Source>) -> (j: Json)
    ensures
        j@ == JsonValue::Array(views(items@)),
    decreases items,
{
    let mut out: Vec<Json> = Vec::new();
    let mut i: usize = 0;
    while i < items.len()
        invariant
            i <= items.len(),
            out@.len() == i,
            forall|k: int| 0 <= k < i ==> out@[k]@ == items@[k]@,
        decreases items.len() - i,
    {
        proof {
            broadcast use vstd::std_specs::vec::axiom_vec_index_decreases;
        }
        out.push(items[i].encode());
        i += 1;
    }
    proof {
        lemma_array_model(out);
        assert(items_model(out@) =~= views(items@));
    }
    Json::Array(out)
}

/// Reads every item of an array as a source; the first flaw met is the error.
pub fn decode_sources(items: &Vec<Json>) -> (res: Result<Vec<Source>, DecodeError>)
    ensures
        match res {
            Ok(v) => {
                &&& sources_flaw(items_model(items@)) is None
                &&& v@.len() == items@.len()
                &&& forall|i: int|
                    0 <= i < v@.len() ==> source_decodes(items_model(items@)[i], #[trigger] v@[i])
            },
            Err(e) => sources_flaw(items_model(items@)) == Some(e@),
        },
    decreases items,
{
    let ghost all = items_model(items@);
    let mut out: Vec<Source> = Vec::new();
    let mut i: usize = 0;
    assert(all.subrange(0, all.len() as int) =~= all);
    while i < items.len()
        invariant
            i <= items.len(),
            out@.len() == i,
            all == items_model(items@),
            sources_flaw(all) == sources_flaw(all.subrange(i as int, all.len() as int)),
            forall|k: int| 0 <= k < i ==> source_decodes(all[k], #[trigger] out@[k]),
        decreases items.len() - i,
    {
        let ghost rest = all.subrange(i as int, all.len() as int);
        assert(rest.subrange(1, rest.len() as int) =~= all.subrange(
            i as int + 1,
            all.len() as int,
        ));
        proof {
            broadcast use vstd::std_specs::vec::axiom_vec_index_decreases;
        }
        match Source::decode(&items[i]) {
            Ok(v) => out.push(v),
            Err(e) => { return Err(e); },
        }
        i += 1;
    }
    Ok(out)
}

/// A copy of a list of sources.
pub fn copy_sources(items: &Vec<Source>) -> (out: Vec<Source>)
    ensures
        views(out@) == views(items@),
    decreases items,
{
    let mut out: Vec<Source> = Vec::new();
    let mut i: usize = 0;
    while i < items.len()
        invariant
            i <= items.len(),
            out@.len() == i,
            forall|k: int| 0 <= k < i ==> out@[k]@ == items@[k]@,
        decreases items.len() - i,
    {
        proof {
            broadcast use vstd::std_specs::vec::axiom_vec_index_decreases;
        }
        out.push(items[i].copy());
        i += 1;
    }
    out
}

/// A copy of a list of checksums.
pub fn copy_checksums(items: &Vec<Checksum>) -> (out: Vec<Checksum>)
    ensures
        views(out@) == views(items@),
{
    let mut out: Vec<Checksum> = Vec::new();
    let mut i: usize = 0;
    while i < items.len()
        invariant
            i <= items.len(),
            out@.len() == i,
            forall|k: int| 0 <= k < i ==> out@[k]@ == items@[k]@,
        decreases items.len() - i,
    {
        out.push(
            Checksum { algorithm: items[i].algorithm.clone(), checksum: items[i].checksum.clone() },
        );
        i += 1;
    }
    out
}

impl Clone for Source {
    fn clone(&self) -> (res: Source)
        ensures
            res@ == self@,
    {
        self.copy()
    }
}

impl Encode for Source {
    fn to_json(&self) -> (j: Json) {
        self.encode()
    }
}

impl Decode for Source {
    open spec fn flaw(j: JsonValue) -> Option<Flaw> {
        source_flaw(j)
    }

    open spec fn decodes(j: JsonValue, a: Self) -> bool {
        source_decodes(j, a)
    }

    fn from_json(j: &Json) -> (res: Result<Self, DecodeError>) {
        Source::decode(j)
    }
}

/// A checksum of a source.
#[derive(Debug, Clone)]
pub struct Checksum {
    pub algorithm: String,
    pub checksum: String,
}

impl View for Checksum {
    type V = JsonValue;

    open spec fn view(&self) -> JsonValue {
        Fields::new()
            .text("algorithm"@, self.algorithm@)
            .text("checksum"@, self.checksum@)
            .json()
    }
}

impl Encode for Checksum {
    fn to_json(&self) -> (j: Json) {
        ObjectBuilder::new()
            .text("algorithm", self.algorithm.as_str())
            .text("checksum", self.checksum.as_str())
            .build()
    }
}

impl Decode for Checksum {
    open spec fn flaw(j: JsonValue) -> Option<Flaw> {
        Scan::object(j)
            .required_text("algorithm"@)
            .required_text("checksum"@)
            .flaw
    }

    open spec fn decodes(j: JsonValue, a: Self) -> bool {
        &&& j.required_text_at("algorithm"@) == Ok::<Seq<char>, Flaw>(a.algorithm@)
        &&& j.required_text_at("checksum"@) == Ok::<Seq<char>, Flaw>(a.checksum@)
    }

    fn from_json(j: &Json) -> (res: Result<Self, DecodeError>) {
        j.expect_object()?;
        let algorithm = j.required_text_at("algorithm")?;
        let checksum = j.required_text_at("checksum")?;
        Ok(Checksum { algorithm, checksum })
    }
}

/// A breakpoint as the adapter reports it.
#[derive(Debug, Clone)]
pub struct Breakpoint {
    pub id: Option<i64>,
    pub verified: bool,
    pub message: Option<String>,
    pub source: Option<Source>,
    pub line: Option<i64>,
    pub column: Option<i64>,
    pub end_line: Option<i64>,
    pub end_column: Option<i64>,
}

impl View for Breakpoint {
    type V = JsonValue;

    open spec fn view(&self) -> JsonValue {
        Fields::new()
            .opt_integer("id"@, self.id)
            .boolean("verified"@, self.verified)
            .opt_text("message"@, self.message)
            .opt_value("source"@, opt_view(self.source))
            .opt_integer("line"@, self.line)
            .opt_integer("column"@, self.column)
            .opt_integer("endLine"@, self.end_line)
            .opt_integer("endColumn"@, self.end_column)
            .json()
    }
}

impl Encode for Breakpoint {
    fn to_json(&self) -> (j: Json) {
        ObjectBuilder::new()
            .opt_integer("id", self.id)
            .boolean("verified", self.verified)
            .opt_text("message", &self.message)
            .opt_record("source", &self.source)
            .opt_integer("line", self.line)
            .opt_integer("column", self.column)
            .opt_integer("endLine", self.end_line)
            .opt_integer("endColumn", self.end_column)
            .build()
    }
}

/// A frame of the call stack.
#[derive(Debug, Clone)]
pub struct StackFrame {
    pub id: i64,
    pub name: String,
    pub source: Option<Source>,
    pub line: i64,
    pub column: i64,
    pub end_line: Option<i64>,
    pub end_column: Option<i64>,
    pub can_restart: bool,
    pub instruction_pointer_reference: Option<String>,
    pub module_id: Option<Json>,
    pub presentation_hint: Option<String>,
}

impl View for StackFrame {
    type V = JsonValue;

    open spec fn view(&self) -> JsonValue {
        Fields::new()
            .integer("id"@, self.id as int)
            .text("name"@, self.name@)
            .opt_value("source"@, opt_view(self.source))
            .integer("line"@, self.line as int)
            .integer("column"@, self.column as int)
            .opt_integer("endLine"@, self.end_line)
            .opt_integer("endColumn"@, self.end_column)
            .boolean("canRestart"@, self.can_restart)
            .opt_text("instructionPointerReference"@, self.instruction_pointer_reference)
            .opt_value("moduleId"@, opt_json(self.module_id))
            .opt_text("presentationHint"@, self.presentation_hint)
            .json()
    }
}

impl Encode for StackFrame {
    fn to_json(&self) -> (j: Json) {
        ObjectBuilder::new()
            .integer("id", self.id)
            .text("name", self.name.as_str())
            .opt_record("source", &self.source)
            .integer("line", self.line)
            .integer("column", self.column)
            .opt_integer("endLine", self.end_line)
            .opt_integer("endColumn", self.end_column)
            .boolean("canRestart", self.can_restart)
            .opt_text("instructionPointerReference", &self.instruction_pointer_reference)
            .opt_json("moduleId", &self.module_id)
            .opt_text("presentationHint", &self.presentation_hint)
            .build()
    }
}

/// A named group of variables of a frame.
#[derive(Debug, Clone)]
pub struct Scope {
    pub name: String,
    pub presentation_hint: Option<String>,
    pub variables_reference: i64,
    pub named_variables: Option<i64>,
    pub indexed_variables: Option<i64>,
    pub expensive: bool,
    pub source: Option<Source>,
    pub line: Option<i64>,
    pub column: Option<i64>,
    pub end_line: Option<i64>,
    pub end_column: Option<i64>,
}

impl View for Scope {
    type V = JsonValue;

    open spec fn view(&self) -> JsonValue {
        Fields::new()
            .text("name"@, self.name@)
            .opt_text("presentationHint"@, self.presentation_hint)
            .integer("variablesReference"@, self.variables_reference as int)
            .opt_integer("namedVariables"@, self.named_variables)
            .opt_integer("indexedVariables"@, self.indexed_variables)
            .boolean("expensive"@, self.expensive)
            .opt_value("source"@, opt_view(self.source))
            .opt_integer("line"@, self.line)
            .opt_integer("column"@, self.column)
            .opt_integer("endLine"@, self.end_line)
            .opt_integer("endColumn"@, self.end_column)
            .json()
    }
}

impl Encode for Scope {
    fn to_json(&self) -> (j: Json) {
        ObjectBuilder::new()
            .text("name", self.name.as_str())
            .opt_text("presentationHint", &self.presentation_hint)
            .integer("variablesReference", self.variables_reference)
            .opt_integer("namedVariables", self.named_variables)
            .opt_integer("indexedVariables", self.indexed_variables)
            .boolean("expensive", self.expensive)
            .opt_record("source", &self.source)
            .opt_integer("line", self.line)
            .opt_integer("column", self.column)
            .opt_integer("endLine", self.end_line)
            .opt_integer("endColumn", self.end_column)
            .build()
    }
}

/// A variable and its value.
#[derive(Debug, Clone)]
pub struct Variable {
    pub name: String,
    pub value: String,
    pub type_: Option<String>,
    pub presentation_hint: Option<VariablePresentationHint>,
    pub evaluate_name: Option<String>,
    pub variables_reference: i64,
    pub named_variables: Option<i64>,
    pub indexed_variables: Option<i64>,
    pub memory_reference: Option<String>,
}

impl View for Variable {
    type V = JsonValue;

    open spec fn view(&self) -> JsonValue {
        Fields::new()
            .text("name"@, self.name@)
            .text("value"@, self.value@)
            .opt_text("type"@, self.type_)
            .opt_value("presentationHint"@, opt_view(self.presentation_hint))
            .opt_text("evaluateName"@, self.evaluate_name)
            .integer("variablesReference"@, self.variables_reference as int)
            .opt_integer("namedVariables"@, self.named_variables)
            .opt_integer("indexedVariables"@, self.indexed_variables)
            .opt_text("memoryReference"@, self.memory_reference)
            .json()
    }
}

impl Encode for Variable {
    fn to_json(&self) -> (j: Json) {
        ObjectBuilder::new()
            .text("name", self.name.as_str())
            .text("value", self.value.as_str())
            .opt_text("type", &self.type_)
            .opt_record("presentationHint", &self.presentation_hint)
            .opt_text("evaluateName", &self.evaluate_name)
            .integer("variablesReference", self.variables_reference)
            .opt_integer("namedVariables", self.named_variables)
            .opt_integer("indexedVariables", self.indexed_variables)
            .opt_text("memoryReference", &self.memory_reference)
            .build()
    }
}

/// A thread of the debuggee.
#[derive(Debug, Clone)]
pub struct Thread {
    pub id: i64,
    pub name: String,
}

impl View for Thread {
    type V = JsonValue;

    open spec fn view(&self) -> JsonValue {
        Fields::new()
            .integer("id"@, self.id as int)
            .text("name"@, self.name@)
            .json()
    }
}

impl Encode for Thread {
    fn to_json(&self) -> (j: Json) {
        ObjectBuilder::new()
            .integer("id", self.id)
            .text("name", self.name.as_str())
            .build()
    }
}

/// How the client wants stack frames shown.
#[derive(Debug, Clone)]
pub struct StackFrameFormat {
    pub parameters: Option<bool>,
    pub parameter_types: Option<bool>,
    pub parameter_names: Option<bool>,
    pub parameter_values: Option<bool>,
    pub line: Option<bool>,
    pub module: Option<bool>,
    pub include_all: Option<bool>,
}

impl Decode for StackFrameFormat {
    open spec fn flaw(j: JsonValue) -> Option<Flaw> {
        Scan::object(j)
            .boolean("parameters"@)
            .boolean("parameterTypes"@)
            .boolean("parameterNames"@)
            .boolean("parameterValues"@)
            .boolean("line"@)
            .boolean("module"@)
            .boolean("includeAll"@)
            .flaw
    }

    open spec fn decodes(j: JsonValue, a: Self) -> bool {
        &&& j.bool_at("parameters"@) == Ok::<Option<bool>, Flaw>(a.parameters)
        &&& j.bool_at("parameterTypes"@) == Ok::<Option<bool>, Flaw>(a.parameter_types)
        &&& j.bool_at("parameterNames"@) == Ok::<Option<bool>, Flaw>(a.parameter_names)
        &&& j.bool_at("parameterValues"@) == Ok::<Option<bool>, Flaw>(a.parameter_values)
        &&& j.bool_at("line"@) == Ok::<Option<bool>, Flaw>(a.line)
        &&& j.bool_at("module"@) == Ok::<Option<bool>, Flaw>(a.module)
        &&& j.bool_at("includeAll"@) == Ok::<Option<bool>, Flaw>(a.include_all)
    }

    fn from_json(j: &Json) -> (res: Result<Self, DecodeError>) {
        j.expect_object()?;
        let parameters = j.bool_at("parameters")?;
        let parameter_types = j.bool_at("parameterTypes")?;
        let parameter_names = j.bool_at("parameterNames")?;
        let parameter_values = j.bool_at("parameterValues")?;
        let line = j.bool_at("line")?;
        let module = j.bool_at("module")?;
        let include_all = j.bool_at("includeAll")?;
        Ok(StackFrameFormat {
            parameters,
            parameter_types,
            parameter_names,
            parameter_values,
            line,
            module,
            include_all,
        })
    }
}

/// How the client wants values shown.
#[derive(Debug, Clone)]
pub struct ValueFormat {
    pub hex: Option<bool>,
}

impl Decode for ValueFormat {
    open spec fn flaw(j: JsonValue) -> Option<Flaw> {
        Scan::object(j)
            .boolean("hex"@)
            .flaw
    }

    open spec fn decodes(j: JsonValue, a: Self) -> bool {
        &&& j.bool_at("hex"@) == Ok::<Option<bool>, Flaw>(a.hex)
    }

    fn from_json(j: &Json) -> (res: Result<Self, DecodeError>) {
        j.expect_object()?;
        let hex = j.bool_at("hex")?;
        Ok(ValueFormat { hex })
    }
}

/// How a variable is best shown.
#[derive(Debug, Clone)]
pub struct VariablePresentationHint {
    pub kind: Option<String>,
    pub attributes: Option<Vec<String>>,
    pub visibility: Option<String>,
}

impl View for VariablePresentationHint {
    type V = JsonValue;

    open spec fn view(&self) -> JsonValue {
        Fields::new()
            .opt_text("kind"@, self.kind)
            .opt_array("attributes"@, opt_texts(self.attributes))
            .opt_text("visibility"@, self.visibility)
            .json()
    }
}

impl Encode for VariablePresentationHint {
    fn to_json(&self) -> (j: Json) {
        ObjectBuilder::new()
            .opt_text("kind", &self.kind)
            .opt_texts("attributes", &self.attributes)
            .opt_text("visibility", &self.visibility)
            .build()
    }
}

// Event bodies

/// Body of the `stopped` event.
#[derive(Debug, Clone)]
pub struct StoppedEventBody {
    pub reason: String,
    pub description: Option<String>,
    pub thread_id: Option<i64>,
    pub preserve_focus_hint: Option<bool>,
    pub text: Option<String>,
    pub all_threads_stopped: bool,
    pub hit_breakpoint_ids: Option<Vec<i64>>,
}

impl View for StoppedEventBody {
    type V = JsonValue;

    open spec fn view(&self) -> JsonValue {
        Fields::new()
            .text("reason"@, self.reason@)
            .opt_text("description"@, self.description)
            .opt_integer("threadId"@, self.thread_id)
            .opt_boolean("preserveFocusHint"@, self.preserve_focus_hint)
            .opt_text("text"@, self.text)
            .boolean("allThreadsStopped"@, self.all_threads_stopped)
            .opt_array("hitBreakpointIds"@, opt_integers(self.hit_breakpoint_ids))
            .json()
    }
}

impl Encode for StoppedEventBody {
    fn to_json(&self) -> (j: Json) {
        ObjectBuilder::new()
            .text("reason", self.reason.as_str())
            .opt_text("description", &self.description)
            .opt_integer("threadId", self.thread_id)
            .opt_boolean("preserveFocusHint", self.preserve_focus_hint)
            .opt_text("text", &self.text)
            .boolean("allThreadsStopped", self.all_threads_stopped)
            .opt_integers("hitBreakpointIds", &self.hit_breakpoint_ids)
            .build()
    }
}

/// Body of the `continued` event.
#[derive(Debug, Clone)]
pub struct ContinuedEventBody {
    pub thread_id: i64,
    pub all_threads_continued: bool,
}

impl View for ContinuedEventBody {
    type V = JsonValue;

    open spec fn view(&self) -> JsonValue {
        Fields::new()
            .integer("threadId"@, self.thread_id as int)
            .boolean("allThreadsContinued"@, self.all_threads_continued)
            .json()
    }
}

impl Encode for ContinuedEventBody {
    fn to_json(&self) -> (j: Json) {
        ObjectBuilder::new()
            .integer("threadId", self.thread_id)
            .boolean("allThreadsContinued", self.all_threads_continued)
            .build()
    }
}

/// Body of the `thread` event.
#[derive(Debug, Clone)]
pub struct ThreadEventBody {
    pub reason: String,
    pub thread_id: i64,
}

impl View for ThreadEventBody {
    type V = JsonValue;

    open spec fn view(&self) -> JsonValue {
        Fields::new()
            .text("reason"@, self.reason@)
            .integer("threadId"@, self.thread_id as int)
            .json()
    }
}

impl Encode for ThreadEventBody {
    fn to_json(&self) -> (j: Json) {
        ObjectBuilder::new()
            .text("reason", self.reason.as_str())
            .integer("threadId", self.thread_id)
            .build()
    }
}

/// Body of the `output` event.
#[derive(Debug, Clone)]
pub struct OutputEventBody {
    pub category: Option<String>,
    pub output: String,
    pub group: Option<String>,
    pub variables_reference: Option<i64>,
    pub source: Option<Source>,
    pub line: Option<i64>,
    pub column: Option<i64>,
    pub data: Option<Json>,
}

impl View for OutputEventBody {
    type V = JsonValue;

    open spec fn view(&self) -> JsonValue {
        Fields::new()
            .nullable_text("category"@, self.category)
            .text("output"@, self.output@)
            .opt_text("group"@, self.group)
            .opt_integer("variablesReference"@, self.variables_reference)
            .opt_value("source"@, opt_view(self.source))
            .opt_integer("line"@, self.line)
            .opt_integer("column"@, self.column)
            .opt_value("data"@, opt_json(self.data))
            .json()
    }
}

impl Encode for OutputEventBody {
    fn to_json(&self) -> (j: Json) {
        ObjectBuilder::new()
            .nullable_text("category", &self.category)
            .text("output", self.output.as_str())
            .opt_text("group", &self.group)
            .opt_integer("variablesReference", self.variables_reference)
            .opt_record("source", &self.source)
            .opt_integer("line", self.line)
            .opt_integer("column", self.column)
            .opt_json("data", &self.data)
            .build()
    }
}

/// Body of the `terminated` event.
#[derive(Debug, Clone)]
pub struct TerminatedEventBody {
    pub restart: Option<Json>,
}

impl View for TerminatedEventBody {
    type V = JsonValue;

    open spec fn view(&self) -> JsonValue {
        Fields::new()
            .opt_value("restart"@, opt_json(self.restart))
            .json()
    }
}

impl Encode for TerminatedEventBody {
    fn to_json(&self) -> (j: Json) {
        ObjectBuilder::new()
            .opt_json("restart", &self.restart)
            .build()
    }
}

/// Body of the `exited` event.
#[derive(Debug, Clone)]
pub struct ExitedEventBody {
    pub exit_code: i64,
}

impl View for ExitedEventBody {
    type V = JsonValue;

    open spec fn view(&self) -> JsonValue {
        Fields::new()
            .integer("exitCode"@, self.exit_code as int)
            .json()
    }
}

impl Encode for ExitedEventBody {
    fn to_json(&self) -> (j: Json) {
        ObjectBuilder::new()
            .integer("exitCode", self.exit_code)
            .build()
    }
}

} // verus!
