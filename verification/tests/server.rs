//! The server, request by request: what goes in as JSON and what comes out.

use boa_dap::debugger::{Debugger, StepMode};
use boa_dap::eval_context::{
    DebugEvent, DebugHooks, DrainAction, EvalTask, EvalWorker, FrameSnapshot, HookError,
    InspectionReply, TaskAction, WaitDecision, WorkerPhase,
};
use boa_dap::json::{Json, Member};
use boa_dap::protocol::{ProtocolMessage, Request};
use boa_dap::server::{DapServer, Incoming, PendingKind, ProgramOutcome, Reaction};
use boa_dap::session::{DebugSession, LaunchStep};
use boa_dap::ScriptId;

fn from_value(v: &serde_json::Value) -> Json {
    match v {
        serde_json::Value::Null => Json::Null,
        serde_json::Value::Bool(b) => Json::Bool(*b),
        serde_json::Value::Number(n) => match n.as_i64() {
            Some(i) => Json::Integer(i),
            None => Json::Decimal(n.to_string()),
        },
        serde_json::Value::String(s) => Json::Text(s.clone()),
        serde_json::Value::Array(a) => Json::Array(a.iter().map(from_value).collect()),
        serde_json::Value::Object(m) => Json::Object(
            m.iter().map(|(k, v)| Member { name: k.clone(), value: from_value(v) }).collect(),
        ),
    }
}

fn to_value(j: &Json) -> serde_json::Value {
    match j {
        Json::Null => serde_json::Value::Null,
        Json::Bool(b) => serde_json::Value::Bool(*b),
        Json::Integer(i) => serde_json::Value::from(*i),
        Json::Decimal(s) => serde_json::from_str(s).unwrap(),
        Json::Text(s) => serde_json::Value::String(s.clone()),
        Json::Array(a) => serde_json::Value::Array(a.iter().map(to_value).collect()),
        Json::Object(m) => serde_json::Value::Object(
            m.iter().map(|e| (e.name.clone(), to_value(&e.value))).collect(),
        ),
    }
}

fn json(text: &str) -> Json {
    from_value(&serde_json::from_str::<serde_json::Value>(text).unwrap())
}

fn wire(m: &ProtocolMessage) -> serde_json::Value {
    to_value(&m.to_json())
}

fn fresh() -> (DapServer, Debugger) {
    (DapServer::new(DebugSession::new()), Debugger::new())
}

fn send(server: &mut DapServer, debugger: &mut Debugger, text: &str) -> Reaction {
    match server.handle_message(debugger, &json(text), 0) {
        Incoming::Reaction(r) => r,
        other => panic!("not a request: {:?}", other),
    }
}

fn replies(r: Reaction) -> Vec<serde_json::Value> {
    match r {
        Reaction::Reply(ms) => ms.iter().map(wire).collect(),
        Reaction::Resume(ms) => ms.iter().map(wire).collect(),
        other => panic!("not a reply: {:?}", other),
    }
}

fn ask(server: &mut DapServer, debugger: &mut Debugger, text: &str) -> Vec<serde_json::Value> {
    let r = send(server, debugger, text);
    replies(r)
}

#[test]
fn test_dap_server_initialize() {
    let (mut server, mut debugger) = fresh();
    let out = ask(
        &mut server,
        &mut debugger,
        r#"{"seq":1,"type":"request","command":"initialize","arguments":{
            "clientID":"test","clientName":"Test Client","adapterID":"boa","locale":"en-US",
            "linesStartAt1":true,"columnsStartAt1":true,"pathFormat":"path"}}"#,
    );
    assert_eq!(out.len(), 2);
    let response = &out[0];
    assert_eq!(response["type"], "response");
    assert_eq!(response["command"], "initialize");
    assert_eq!(response["success"], true);
    let body = response["body"].as_object().expect("Body should be an object");
    assert!(
        body.contains_key("supports_configuration_done_request")
            || body.contains_key("supportsConfigurationDoneRequest"),
        "Should have configurationDone support"
    );
    assert_eq!(body["supportsConfigurationDoneRequest"], true);
    let event = &out[1];
    assert_eq!(event["type"], "event");
    assert_eq!(event["event"], "initialized");
}

#[test]
fn test_dap_server_threads() {
    let (mut server, mut debugger) = fresh();
    ask(
        &mut server,
        &mut debugger,
        r#"{"seq":1,"type":"request","command":"initialize","arguments":{}}"#,
    );
    let out = ask(
        &mut server,
        &mut debugger,
        r#"{"seq":2,"type":"request","command":"threads","arguments":{}}"#,
    );
    assert_eq!(out.len(), 1);
    let response = &out[0];
    assert_eq!(response["type"], "response");
    assert_eq!(response["command"], "threads");
    assert_eq!(response["success"], true);
    let threads = response["body"]["threads"].as_array().expect("Threads should be an array");
    assert!(!threads.is_empty(), "Should have at least one thread");
    assert_eq!(threads.len(), 1);
    assert_eq!(threads[0]["id"], 1);
    assert_eq!(threads[0]["name"], "Main Thread");
}

#[test]
fn test_dap_server_unknown_command() {
    let (mut server, mut debugger) = fresh();
    let out = ask(
        &mut server,
        &mut debugger,
        r#"{"seq":1,"type":"request","command":"unknownCommand","arguments":{}}"#,
    );
    assert_eq!(out.len(), 1);
    let response = &out[0];
    assert_eq!(response["type"], "response");
    assert_eq!(response["command"], "unknownCommand");
    assert_eq!(response["success"], false);
    let message = response["message"].as_str().expect("Should have error message");
    assert!(message.contains("not implemented"), "Error message should mention 'not implemented'");
    assert_eq!(message, "Unknown command: unknownCommand (not implemented)");
    assert!(response.get("body").is_none());
}

#[test]
fn test_dap_typed_structs() {
    let (mut server, mut debugger) = fresh();
    let out = ask(
        &mut server,
        &mut debugger,
        r#"{"seq":1,"type":"request","command":"setBreakpoints","arguments":{
            "source":{"path":"test.js"},"breakpoints":[]}}"#,
    );
    assert_eq!(out.len(), 1);
    let response = &out[0];
    assert_eq!(response["type"], "response");
    assert_eq!(response["command"], "setBreakpoints");
    assert_eq!(response["success"], true);
    assert!(response["seq"].is_number());
    assert!(response["request_seq"].is_number());
    let body = response["body"].as_object().expect("Body should be present");
    assert!(body.contains_key("breakpoints"), "Should have breakpoints field from typed struct");
    assert_eq!(body["breakpoints"], serde_json::Value::Array(Vec::new()));
}

#[test]
fn initialize_answers_with_every_capability() {
    let (mut server, mut debugger) = fresh();
    let out = ask(
        &mut server,
        &mut debugger,
        r#"{"seq":1,"type":"request","command":"initialize","arguments":{}}"#,
    );
    let body = out[0]["body"].as_object().unwrap();
    assert_eq!(body.len(), 29);
    let on = [
        "supportsConfigurationDoneRequest",
        "supportsConditionalBreakpoints",
        "supportsHitConditionalBreakpoints",
        "supportsEvaluateForHovers",
        "supportsValueFormattingOptions",
        "supportsTerminateDebuggee",
        "supportsLogPoints",
        "supportsTerminateRequest",
    ];
    for (name, value) in body {
        assert_eq!(value.as_bool(), Some(on.contains(&name.as_str())), "{}", name);
    }
    for name in [
        "supportsSetVariable",
        "supportsFunctionBreakpoints",
        "supportsStepBack",
        "supportsRestartRequest",
        "supportsDataBreakpoints",
    ] {
        assert_eq!(body[name], false);
    }
    assert_eq!(out[0]["seq"], 1);
    assert_eq!(out[0]["request_seq"], 1);
    assert_eq!(out[1]["seq"], 2);
    assert!(out[1].get("body").is_none());
    assert!(server.session().is_initialized());
}

#[test]
fn initialize_twice_gives_the_same_record() {
    let (mut server, mut debugger) = fresh();
    let request = r#"{"seq":1,"type":"request","command":"initialize","arguments":{}}"#;
    let first = ask(&mut server, &mut debugger, request);
    let second = ask(&mut server, &mut debugger, request);
    assert_eq!(first[0]["body"], second[0]["body"]);
}

#[test]
fn initialize_without_arguments_is_refused() {
    let (mut server, mut debugger) = fresh();
    let out = ask(&mut server, &mut debugger, r#"{"seq":4,"type":"request","command":"initialize"}"#);
    assert_eq!(out.len(), 1);
    assert_eq!(out[0]["success"], false);
    assert_eq!(out[0]["message"], "invalid type: expected an object");
    assert_eq!(out[0]["request_seq"], 4);
    assert!(!server.session().is_initialized());
}

#[test]
fn every_message_has_a_greater_seq_than_those_before() {
    let (mut server, mut debugger) = fresh();
    let mut seen: Vec<i64> = Vec::new();
    for text in [
        r#"{"seq":1,"type":"request","command":"initialize","arguments":{}}"#,
        r#"{"seq":2,"type":"request","command":"threads"}"#,
        r#"{"seq":3,"type":"request","command":"nope"}"#,
        r#"{"seq":4,"type":"request","command":"configurationDone"}"#,
        r#"{"seq":5,"type":"request","command":"continue","arguments":{"threadId":1}}"#,
    ] {
        for m in ask(&mut server, &mut debugger, text) {
            seen.push(m["seq"].as_i64().unwrap());
        }
        let event = server.output_event("console", "x");
        seen.push(event.seq());
        let forwarded = server.forward_event(&DebugEvent::Stopped {
            reason: "step".to_string(),
            description: None,
        });
        seen.push(forwarded.message.unwrap().seq());
    }
    assert_eq!(seen, (1..=16).collect::<Vec<i64>>());
    assert_eq!(server.seq(), 17);
}

#[test]
fn every_response_names_its_request() {
    let (mut server, mut debugger) = fresh();
    for (seq, command) in [(11, "threads"), (5, "variables"), (900, "bogus"), (-3, "attach")] {
        let text = format!(
            r#"{{"seq":{},"type":"request","command":"{}","arguments":{{"variablesReference":1}}}}"#,
            seq, command
        );
        let out = ask(&mut server, &mut debugger, &text);
        assert_eq!(out[0]["request_seq"], seq);
        assert_eq!(out[0]["command"], command);
    }
}

#[test]
fn bad_arguments_are_refused_with_the_decoder_text() {
    let (mut server, mut debugger) = fresh();
    let out = ask(
        &mut server,
        &mut debugger,
        r#"{"seq":1,"type":"request","command":"continue","arguments":{}}"#,
    );
    assert_eq!(out[0]["success"], false);
    assert_eq!(out[0]["message"], "missing field `threadId`");
    let out = ask(
        &mut server,
        &mut debugger,
        r#"{"seq":2,"type":"request","command":"continue","arguments":{"threadId":"one"}}"#,
    );
    assert_eq!(out[0]["success"], false);
    assert_eq!(out[0]["message"], "invalid value for field `threadId`");
    let out = ask(
        &mut server,
        &mut debugger,
        r#"{"seq":3,"type":"request","command":"scopes","arguments":[1]}"#,
    );
    assert_eq!(out[0]["message"], "invalid type: expected an object");
    let out = ask(
        &mut server,
        &mut debugger,
        r#"{"seq":4,"type":"request","command":"attach","arguments":{"port":70000}}"#,
    );
    assert_eq!(out[0]["message"], "invalid value for field `port`");
    let out = ask(
        &mut server,
        &mut debugger,
        r#"{"seq":5,"type":"request","command":"attach","arguments":{"port":65535}}"#,
    );
    assert_eq!(out[0]["success"], true);
    assert!(out[0].get("message").is_none());
}

#[test]
fn messages_that_are_no_request_are_not_acted_on() {
    let (mut server, mut debugger) = fresh();
    let event = json(r#"{"seq":1,"type":"event","event":"stopped"}"#);
    assert!(matches!(server.handle_message(&mut debugger, &event, 0), Incoming::Ignored));
    let bad = json(r#"{"seq":1,"type":"question","command":"threads"}"#);
    match server.handle_message(&mut debugger, &bad, 0) {
        Incoming::Undecodable(e) => assert_eq!(e.message(), "invalid value for field `type`"),
        other => panic!("{:?}", other),
    }
    let bad = json(r#"{"type":"request","command":"threads"}"#);
    match server.handle_message(&mut debugger, &bad, 0) {
        Incoming::Undecodable(e) => assert_eq!(e.message(), "missing field `seq`"),
        other => panic!("{:?}", other),
    }
    let bad = json(r#"[1,2]"#);
    match server.handle_message(&mut debugger, &bad, 0) {
        Incoming::Undecodable(e) => assert_eq!(e.message(), "invalid type: expected an object"),
        other => panic!("{:?}", other),
    }
    assert_eq!(server.seq(), 1);
}

#[test]
fn continue_before_any_pause_is_granted_and_changes_nothing() {
    let (mut server, mut debugger) = fresh();
    let out = ask(
        &mut server,
        &mut debugger,
        r#"{"seq":1,"type":"request","command":"continue","arguments":{"threadId":1}}"#,
    );
    assert!(matches!(
        send(
            &mut server,
            &mut debugger,
            r#"{"seq":0,"type":"request","command":"continue","arguments":{"threadId":1}}"#
        ),
        Reaction::Resume(_)
    ));
    assert_eq!(out.len(), 1);
    assert_eq!(out[0]["success"], true);
    assert_eq!(out[0]["body"]["allThreadsContinued"], true);
    assert!(!debugger.is_paused());
    assert!(!debugger.is_shutting_down());
    assert_eq!(debugger.step_mode(), StepMode::Continue);
    assert_eq!(debugger.next_id(), 1);
    assert!(server.session().is_running());
}

#[test]
fn stack_trace_before_any_pause_is_empty() {
    let (mut server, mut debugger) = fresh();
    let out = ask(
        &mut server,
        &mut debugger,
        r#"{"seq":1,"type":"request","command":"stackTrace","arguments":{"threadId":1}}"#,
    );
    assert_eq!(out[0]["success"], true);
    assert_eq!(out[0]["body"]["stackFrames"], serde_json::Value::Array(Vec::new()));
    assert_eq!(out[0]["body"]["totalFrames"], 0);
}

#[test]
fn steps_set_the_mode_and_resume() {
    let (mut server, mut debugger) = fresh();
    debugger.pause();
    let r = server.handle_message(
        &mut debugger,
        &json(r#"{"seq":1,"type":"request","command":"next","arguments":{"threadId":1}}"#),
        3,
    );
    assert!(matches!(r, Incoming::Reaction(Reaction::Resume(_))));
    let refused = send(&mut server, &mut debugger, r#"{"seq":1,"type":"request","command":"next"}"#);
    assert!(matches!(refused, Reaction::Reply(_)));
    assert_eq!(debugger.step_mode(), StepMode::Over(3));
    assert!(!debugger.is_paused());
    debugger.pause();
    server.handle_message(
        &mut debugger,
        &json(r#"{"seq":2,"type":"request","command":"stepOut","arguments":{"threadId":1}}"#),
        5,
    );
    assert_eq!(debugger.step_mode(), StepMode::Out(5));
    assert!(!debugger.is_paused());
    debugger.pause();
    let out = ask(
        &mut server,
        &mut debugger,
        r#"{"seq":3,"type":"request","command":"stepIn","arguments":{"threadId":1}}"#,
    );
    assert_eq!(out[0]["success"], true);
    assert!(out[0].get("body").is_none());
    assert_eq!(debugger.step_mode(), StepMode::Into);
    assert!(!debugger.is_paused());
}

#[test]
fn scopes_take_two_references_and_resume_drops_them() {
    let (mut server, mut debugger) = fresh();
    let out = ask(
        &mut server,
        &mut debugger,
        r#"{"seq":1,"type":"request","command":"scopes","arguments":{"frameId":0}}"#,
    );
    let scopes = out[0]["body"]["scopes"].as_array().unwrap();
    assert_eq!(scopes.len(), 2);
    assert_eq!(scopes[0]["name"], "Local");
    assert_eq!(scopes[0]["presentationHint"], "locals");
    assert_eq!(scopes[0]["variablesReference"], 1);
    assert_eq!(scopes[0]["expensive"], false);
    assert_eq!(scopes[1]["name"], "Global");
    assert_eq!(scopes[1]["presentationHint"], "globals");
    assert_eq!(scopes[1]["variablesReference"], 2);
    assert_eq!(scopes[0].as_object().unwrap().len(), 4);
    let out = ask(
        &mut server,
        &mut debugger,
        r#"{"seq":2,"type":"request","command":"scopes","arguments":{"frameId":1}}"#,
    );
    assert_eq!(out[0]["body"]["scopes"][0]["variablesReference"], 3);
    assert_eq!(out[0]["body"]["scopes"][1]["variablesReference"], 4);
    let out = ask(
        &mut server,
        &mut debugger,
        r#"{"seq":3,"type":"request","command":"variables","arguments":{"variablesReference":3}}"#,
    );
    assert_eq!(out[0]["body"]["variables"], serde_json::Value::Array(Vec::new()));
}

#[test]
fn set_breakpoints_replaces_the_breakpoints_of_a_source() {
    let (mut server, mut debugger) = fresh();
    let request = r#"{"seq":1,"type":"request","command":"setBreakpoints","arguments":{
        "source":{"name":"a","path":"a.js","adapterData":{"k":[1,null]}},
        "breakpoints":[{"line":3},{"line":7,"column":2},{"line":-1},{"line":4294967296}]}}"#;
    let first = ask(&mut server, &mut debugger, request);
    let listed = first[0]["body"]["breakpoints"].as_array().unwrap().clone();
    assert_eq!(listed.len(), 4);
    assert_eq!(listed[0]["id"], 1);
    assert_eq!(listed[0]["verified"], true);
    assert_eq!(listed[0]["line"], 3);
    assert!(listed[0].get("column").is_none());
    assert_eq!(listed[0]["source"]["path"], "a.js");
    assert_eq!(listed[0]["source"]["name"], "a");
    assert_eq!(listed[0]["source"]["adapterData"]["k"][0], 1);
    assert_eq!(listed[1]["id"], 2);
    assert_eq!(listed[1]["line"], 7);
    assert_eq!(listed[1]["column"], 2);
    assert_eq!(listed[2]["id"], 3);
    assert_eq!(listed[2]["verified"], true);
    assert!(listed[2].get("message").is_none());
    assert_eq!(listed[2]["line"], -1);
    assert_eq!(listed[3]["id"], 4);
    assert_eq!(listed[3]["verified"], true);
    assert_eq!(listed[3]["line"], 4294967296i64);
    assert!(listed[3].get("message").is_none());
    assert!(listed.iter().all(|b| b["verified"] == true && b["source"]["path"] == "a.js"));
    assert!(debugger.has_breakpoint(ScriptId(0), 3));
    assert!(debugger.has_breakpoint(ScriptId(0), 7));
    assert!(debugger.has_breakpoint(ScriptId(0), u32::MAX));
    assert!(debugger.has_breakpoint(ScriptId(0), 0));
    assert!(!debugger.has_breakpoint(ScriptId(0), 4));
    assert!(!debugger.has_breakpoint(ScriptId(1), 3));
    assert_eq!(debugger.next_id(), 5);
    for id in 1..=4 {
        let link = server.session().breakpoint_link(id).unwrap();
        assert_eq!(link.script, ScriptId(0));
        assert_eq!(link.internal.0, id as u64);
    }
    assert!(server.session().breakpoint_link(5).is_none());

    let second = ask(&mut server, &mut debugger, request);
    let again = second[0]["body"]["breakpoints"].as_array().unwrap().clone();
    assert_eq!(again.len(), listed.len());
    for (a, b) in listed.iter().zip(again.iter()) {
        let mut a = a.as_object().unwrap().clone();
        let mut b = b.as_object().unwrap().clone();
        assert!(b["id"].as_i64().unwrap() > 4);
        a.remove("id");
        b.remove("id");
        assert_eq!(a, b);
    }
    assert_eq!(again[0]["id"], 5);
    assert_eq!(again[3]["id"], 8);

    let other = ask(
        &mut server,
        &mut debugger,
        r#"{"seq":3,"type":"request","command":"setBreakpoints","arguments":{
            "source":{"path":"b.js"},"breakpoints":[{"line":3}]}}"#,
    );
    assert_eq!(other[0]["body"]["breakpoints"][0]["id"], 9);
    assert!(debugger.has_breakpoint(ScriptId(1), 3));
    assert!(debugger.has_breakpoint(ScriptId(0), 3));
    assert!(server.session().breakpoint_link(4).is_none());
    assert_eq!(server.session().breakpoint_link(8).unwrap().script, ScriptId(0));
    assert_eq!(server.session().breakpoint_link(9).unwrap().script, ScriptId(1));

    let cleared = ask(
        &mut server,
        &mut debugger,
        r#"{"seq":4,"type":"request","command":"setBreakpoints","arguments":{
            "source":{"path":"a.js"},"breakpoints":[]}}"#,
    );
    assert_eq!(cleared[0]["success"], true);
    assert_eq!(cleared[0]["body"]["breakpoints"], serde_json::Value::Array(Vec::new()));
    assert!(!debugger.has_breakpoint(ScriptId(0), 3));
    assert!(!debugger.has_breakpoint(ScriptId(0), 7));
    assert!(!debugger.has_breakpoint(ScriptId(0), 0));
    assert!(debugger.has_breakpoint(ScriptId(1), 3));
    assert!(server.session().breakpoint_link(8).is_none());
    assert_eq!(server.session().breakpoint_link(9).unwrap().script, ScriptId(1));

    let unnamed = ask(
        &mut server,
        &mut debugger,
        r#"{"seq":5,"type":"request","command":"setBreakpoints","arguments":{
            "source":{},"lines":[1,2]}}"#,
    );
    assert_eq!(unnamed[0]["success"], true);
    assert_eq!(unnamed[0]["body"]["breakpoints"], serde_json::Value::Array(Vec::new()));
    let no_source = ask(
        &mut server,
        &mut debugger,
        r#"{"seq":6,"type":"request","command":"setBreakpoints","arguments":{"breakpoints":[]}}"#,
    );
    assert_eq!(no_source[0]["success"], false);
    assert_eq!(no_source[0]["message"], "missing field `source`");
}

#[test]
fn launch_runs_program_and_terminates() {
    let (mut server, mut debugger) = fresh();
    let mut out = ask(
        &mut server,
        &mut debugger,
        r#"{"seq":1,"type":"request","command":"initialize","arguments":{}}"#,
    );
    let r = send(
        &mut server,
        &mut debugger,
        r#"{"seq":2,"type":"request","command":"launch","arguments":{"program":"test_dap_temp.js"}}"#,
    );
    let (steps, pending) = match r {
        Reaction::Launch { steps, pending } => (steps, pending),
        other => panic!("{:?}", other),
    };
    assert_eq!(steps.len(), 3);
    assert!(matches!(steps[0], LaunchStep::SpawnWorker));
    assert!(matches!(steps[1], LaunchStep::SpawnForwarder));
    assert!(matches!(&steps[2], LaunchStep::RunProgram(p) if p == "test_dap_temp.js"));
    assert!(matches!(pending.kind, PendingKind::Launch));
    assert_eq!(server.session().get_program_path(), Some("test_dap_temp.js"));
    assert!(server.session().has_worker());

    let mut worker = EvalWorker::new();
    assert_eq!(worker.current_phase(), WorkerPhase::Building);
    assert_eq!(worker.step_done(true), WorkerPhase::SettingUp);
    assert_eq!(worker.step_done(true), WorkerPhase::Attaching);
    assert_eq!(worker.step_done(true), WorkerPhase::Serving);
    debugger.attach();
    let task = EvalTask::ExecuteAsync {
        source: "console.log(\"a\"); console.log(\"b\"); 42+58;".to_string(),
        file_path: Some("test_dap_temp.js".to_string()),
    };
    let action = worker.on_task(&task);
    assert!(matches!(&action, TaskAction::Run { source } if source.contains("42+58")));
    out.push(wire(&server.finish_launch(pending, Ok(()))));

    let mut hooks = DebugHooks::new();
    for pc in 0..4 {
        let decision = hooks.on_step(&mut debugger, 1, Some((ScriptId(0), pc)));
        assert!(!decision.wait);
        assert!(decision.event.is_none());
    }
    out.push(wire(&server.output_event("stdout", "a")));
    out.push(wire(&server.output_event("stdout", "b")));
    let report = EvalWorker::async_report(&Ok(()), &Ok(()));
    assert!(report.error_output.is_none());
    let forwarded = server.forward_event(&report.event);
    assert!(forwarded.exit);
    out.push(wire(&forwarded.message.unwrap()));

    let kinds: Vec<String> = out
        .iter()
        .map(|m| match m["type"].as_str().unwrap() {
            "response" => format!("response:{}", m["command"].as_str().unwrap()),
            _ => format!("event:{}", m["event"].as_str().unwrap()),
        })
        .collect();
    assert_eq!(
        kinds,
        vec![
            "response:initialize",
            "event:initialized",
            "response:launch",
            "event:output",
            "event:output",
            "event:terminated"
        ]
    );
    assert_eq!(out[2]["success"], true);
    assert_eq!(out[3]["body"]["output"], "a\n");
    assert_eq!(out[3]["body"]["category"], "stdout");
    assert_eq!(out[4]["body"]["output"], "b\n");
    assert!(out.iter().all(|m| m["event"] != "stopped"));
    let seqs: Vec<i64> = out.iter().map(|m| m["seq"].as_i64().unwrap()).collect();
    assert_eq!(seqs, vec![1, 2, 3, 4, 5, 6]);
}

#[test]
fn a_second_launch_starts_no_second_worker() {
    let (mut server, mut debugger) = fresh();
    let text = r#"{"seq":1,"type":"request","command":"launch","arguments":{"program":"p.js"}}"#;
    send(&mut server, &mut debugger, text);
    match send(&mut server, &mut debugger, text) {
        Reaction::Launch { steps, .. } => {
            assert_eq!(steps.len(), 1);
            assert!(matches!(&steps[0], LaunchStep::RunProgram(p) if p == "p.js"));
        },
        other => panic!("{:?}", other),
    }
    match send(
        &mut server,
        &mut debugger,
        r#"{"seq":3,"type":"request","command":"launch","arguments":{"noDebug":true}}"#,
    ) {
        Reaction::Launch { steps, pending } => {
            assert!(steps.is_empty());
            let m = wire(&server.finish_launch(pending, Err("worker is gone".to_string())));
            assert_eq!(m["success"], false);
            assert_eq!(m["message"], "Failed to start execution: worker is gone");
            assert_eq!(m["request_seq"], 3);
        },
        other => panic!("{:?}", other),
    }
    assert_eq!(server.session().get_program_path(), None);
}

#[test]
fn pause_on_debugger_statement_and_resume() {
    let (mut server, mut debugger) = fresh();
    let launch = send(
        &mut server,
        &mut debugger,
        r#"{"seq":1,"type":"request","command":"launch","arguments":{"program":"d.js"}}"#,
    );
    let pending = match launch {
        Reaction::Launch { pending, .. } => pending,
        other => panic!("{:?}", other),
    };
    let mut out = vec![wire(&server.finish_launch(pending, Ok(())))];

    let mut hooks = DebugHooks::new();
    assert!(!hooks.on_step(&mut debugger, 1, None).wait);
    let event = hooks.on_debugger_statement(&mut debugger, "main at d.js:1:12");
    assert!(debugger.is_paused());
    assert!(hooks.is_waiting());
    let forwarded = server.forward_event(&event);
    assert!(!forwarded.exit);
    out.push(wire(&forwarded.message.unwrap()));
    assert_eq!(out[1]["event"], "stopped");
    assert_eq!(out[1]["body"]["reason"], "pause");
    assert_eq!(out[1]["body"]["threadId"], 1);
    assert_eq!(out[1]["body"]["allThreadsStopped"], true);
    assert_eq!(
        out[1]["body"]["description"],
        "Paused on debugger statement at main at d.js:1:12"
    );
    assert_eq!(server.session().stopped_reason(), Some("pause"));
    assert!(!server.session().is_running());
    assert_eq!(hooks.after_drain(&debugger), WaitDecision::Sleep);

    let scopes = ask(
        &mut server,
        &mut debugger,
        r#"{"seq":2,"type":"request","command":"scopes","arguments":{"frameId":0}}"#,
    );
    assert_eq!(scopes[0]["success"], true);
    assert_eq!(hooks.after_drain(&debugger), WaitDecision::Sleep);
    assert!(hooks.is_waiting());

    let resumed = ask(
        &mut server,
        &mut debugger,
        r#"{"seq":3,"type":"request","command":"continue","arguments":{"threadId":1}}"#,
    );
    assert_eq!(resumed[0]["success"], true);
    assert_eq!(server.session().stopped_reason(), None);
    assert!(server.session().is_running());
    assert_eq!(hooks.after_drain(&debugger), WaitDecision::Resumed);
    assert!(!hooks.is_waiting());
    assert!(!hooks.on_step(&mut debugger, 1, None).wait);

    let report = EvalWorker::async_report(&Ok(()), &Ok(()));
    let forwarded = server.forward_event(&report.event);
    out.push(wire(&forwarded.message.unwrap()));
    assert_eq!(out[2]["event"], "terminated");
    assert!(forwarded.exit);
    let after = scopes[0]["body"]["scopes"][1]["variablesReference"].as_i64().unwrap();
    let next = ask(
        &mut server,
        &mut debugger,
        r#"{"seq":4,"type":"request","command":"scopes","arguments":{"frameId":0}}"#,
    );
    assert!(next[0]["body"]["scopes"][0]["variablesReference"].as_i64().unwrap() > after);
}

#[test]
fn inspection_during_pause_is_served_by_the_paused_worker() {
    let (mut server, mut debugger) = fresh();
    send(
        &mut server,
        &mut debugger,
        r#"{"seq":1,"type":"request","command":"launch","arguments":{"program":"d.js"}}"#,
    );
    let mut hooks = DebugHooks::new();
    hooks.on_debugger_statement(&mut debugger, "inner");
    let r = send(
        &mut server,
        &mut debugger,
        r#"{"seq":2,"type":"request","command":"stackTrace","arguments":{"threadId":1}}"#,
    );
    let (task, pending) = match r {
        Reaction::AskWorker { task, pending } => (task, pending),
        other => panic!("{:?}", other),
    };
    assert!(matches!(task, EvalTask::StackTrace));
    assert_eq!(hooks.on_pending_task(&task), DrainAction::Service);
    let stack = vec![
        FrameSnapshot {
            function_name: "inner".to_string(),
            source_path: "d.js".to_string(),
            line_number: Some(4),
            column_number: Some(9),
            pc: 17,
        },
        FrameSnapshot {
            function_name: "<main>".to_string(),
            source_path: "d.js".to_string(),
            line_number: None,
            column_number: None,
            pc: 4096,
        },
    ];
    let reply = DebugHooks::process_inspection_task(&task, &stack).unwrap();
    let m = wire(&server.finish_inspection(pending, Ok(reply)));
    assert_eq!(m["success"], true);
    assert_eq!(m["request_seq"], 2);
    assert_eq!(m["command"], "stackTrace");
    let frames = m["body"]["stackFrames"].as_array().unwrap();
    assert_eq!(frames.len(), 2);
    assert_eq!(m["body"]["totalFrames"], 2);
    assert_eq!(frames[0]["id"], 0);
    assert_eq!(frames[0]["name"], "inner");
    assert_eq!(frames[0]["line"], 4);
    assert_eq!(frames[0]["column"], 9);
    assert_eq!(frames[0]["canRestart"], false);
    assert_eq!(frames[0]["instructionPointerReference"], "17");
    assert_eq!(frames[0]["source"]["name"], "inner");
    assert_eq!(frames[0]["source"]["path"], "d.js");
    assert_eq!(frames[1]["id"], 1);
    assert_eq!(frames[1]["line"], 0);
    assert_eq!(frames[1]["column"], 0);
    assert_eq!(frames[1]["instructionPointerReference"], "4096");
    assert_eq!(hooks.after_drain(&debugger), WaitDecision::Sleep);
    assert!(debugger.is_paused());

    let r = send(
        &mut server,
        &mut debugger,
        r#"{"seq":3,"type":"request","command":"evaluate","arguments":{"expression":"x + 1"}}"#,
    );
    let (task, pending) = match r {
        Reaction::AskWorker { task, pending } => (task, pending),
        other => panic!("{:?}", other),
    };
    assert!(matches!(&task, EvalTask::Evaluate { expression } if expression == "x + 1"));
    let reply = DebugHooks::process_inspection_task(&task, &stack).unwrap();
    assert!(
        matches!(&reply, InspectionReply::Value(t) if t == "Evaluation not yet implemented: x + 1")
    );
    let m = wire(&server.finish_inspection(pending, Ok(reply)));
    assert_eq!(m["success"], true);
    assert_eq!(m["body"]["result"], "Evaluation not yet implemented: x + 1");
    assert_eq!(m["body"]["type"], "string");
    assert_eq!(m["body"]["variablesReference"], 0);
    assert!(debugger.is_paused());
}

#[test]
fn errors_of_an_inspection() {
    let (mut server, mut debugger) = fresh();
    send(
        &mut server,
        &mut debugger,
        r#"{"seq":1,"type":"request","command":"launch","arguments":{}}"#,
    );
    debugger.pause();
    let evaluate = r#"{"seq":2,"type":"request","command":"evaluate","arguments":{"expression":"y"}}"#;
    let pending = match send(&mut server, &mut debugger, evaluate) {
        Reaction::AskWorker { pending, .. } => pending,
        other => panic!("{:?}", other),
    };
    let m = wire(&server.finish_inspection(pending, Err("y is not defined".to_string())));
    assert_eq!(m["success"], true);
    assert_eq!(m["body"]["result"], "Error: y is not defined");
    assert!(debugger.is_paused());

    let pending = match send(&mut server, &mut debugger, evaluate) {
        Reaction::AskWorker { pending, .. } => pending,
        other => panic!("{:?}", other),
    };
    let m = wire(&server.finish_inspection(pending, Ok(InspectionReply::Frames(Vec::new()))));
    assert_eq!(m["success"], false);
    assert_eq!(m["message"], "Unexpected reply from the worker");

    let trace = r#"{"seq":4,"type":"request","command":"stackTrace","arguments":{"threadId":1}}"#;
    let pending = match send(&mut server, &mut debugger, trace) {
        Reaction::AskWorker { pending, .. } => pending,
        other => panic!("{:?}", other),
    };
    let m = wire(&server.finish_inspection(pending, Err("Failed to receive result".to_string())));
    assert_eq!(m["success"], false);
    assert_eq!(m["message"], "Failed to receive result");
    assert_eq!(m["request_seq"], 4);

    let pending = match send(&mut server, &mut debugger, trace) {
        Reaction::AskWorker { pending, .. } => pending,
        other => panic!("{:?}", other),
    };
    let m = wire(&server.finish_inspection(pending, Ok(InspectionReply::Value("v".to_string()))));
    assert_eq!(m["success"], false);
    assert_eq!(m["message"], "Unexpected reply from the worker");
}

#[test]
fn evaluate_without_a_paused_worker_says_so() {
    let (mut server, mut debugger) = fresh();
    let out = ask(
        &mut server,
        &mut debugger,
        r#"{"seq":1,"type":"request","command":"evaluate","arguments":{"expression":"1+1"}}"#,
    );
    assert_eq!(out[0]["success"], true);
    assert_eq!(out[0]["body"]["result"], "Evaluation context not initialized: 1+1");
    assert_eq!(out[0]["body"]["type"], "string");
    let out = ask(
        &mut server,
        &mut debugger,
        r#"{"seq":2,"type":"request","command":"evaluate","arguments":{}}"#,
    );
    assert_eq!(out[0]["message"], "missing field `expression`");
}

#[test]
fn disconnect_during_a_pause_ends_the_session() {
    let (mut server, mut debugger) = fresh();
    let mut hooks = DebugHooks::new();
    hooks.on_debugger_statement(&mut debugger, "f");
    assert_eq!(hooks.after_drain(&debugger), WaitDecision::Sleep);
    let r = send(&mut server, &mut debugger, r#"{"seq":9,"type":"request","command":"disconnect"}"#);
    let ms = match r {
        Reaction::Disconnect(ms) => ms,
        other => panic!("{:?}", other),
    };
    assert_eq!(ms.len(), 1);
    let m = wire(&ms[0]);
    assert_eq!(m["success"], true);
    assert_eq!(m["command"], "disconnect");
    assert_eq!(m["request_seq"], 9);
    assert!(debugger.is_shutting_down());
    assert!(debugger.is_paused());
    assert!(!server.session().has_worker());
    assert!(!server.session().is_running());
    assert_eq!(hooks.after_drain(&debugger), WaitDecision::Abort(HookError::ShuttingDown));
    assert!(!hooks.is_waiting());

    let terminated = server.forward_event(&DebugEvent::Terminated);
    assert!(terminated.exit);
    assert_eq!(wire(&terminated.message.unwrap())["event"], "terminated");
    let seq = server.seq();
    let late = server.forward_event(&DebugEvent::Stopped {
        reason: "step".to_string(),
        description: None,
    });
    assert!(late.message.is_none());
    assert!(late.exit);
    assert_eq!(server.seq(), seq);
}

#[test]
fn shutdown_event_stops_the_forwarder_without_a_message() {
    let (mut server, _debugger) = fresh();
    let out = server.forward_event(&DebugEvent::Shutdown);
    assert!(out.message.is_none());
    assert!(out.exit);
    assert!(server.forward_event(&DebugEvent::Terminated).message.is_none());
    assert_eq!(server.seq(), 1);
}

#[test]
fn the_end_of_the_program_is_told_to_the_client() {
    let (mut server, _debugger) = fresh();
    let events: Vec<serde_json::Value> =
        server.program_events(&ProgramOutcome::Completed(Some("100".to_string()))).iter().map(wire).collect();
    assert_eq!(events.len(), 2);
    assert_eq!(events[0]["event"], "output");
    assert_eq!(events[0]["body"]["category"], "stdout");
    assert_eq!(events[0]["body"]["output"], "100\n");
    assert_eq!(events[1]["event"], "terminated");
    assert_eq!(events[1]["body"], serde_json::Value::Object(serde_json::Map::new()));
    let events: Vec<serde_json::Value> =
        server.program_events(&ProgramOutcome::Completed(None)).iter().map(wire).collect();
    assert_eq!(events.len(), 1);
    assert_eq!(events[0]["event"], "terminated");
    assert_eq!(events[0]["seq"], 3);
    let events: Vec<serde_json::Value> =
        server.program_events(&ProgramOutcome::Failed("x is not defined".to_string())).iter().map(wire).collect();
    assert_eq!(events[0]["body"]["category"], "stderr");
    assert_eq!(events[0]["body"]["output"], "Error: x is not defined\n");
    assert_eq!(events[1]["event"], "terminated");
    let events: Vec<serde_json::Value> =
        server.program_events(&ProgramOutcome::Unreadable("No such file".to_string())).iter().map(wire).collect();
    assert_eq!(events[0]["body"]["category"], "stderr");
    assert_eq!(events[0]["body"]["output"], "Failed to read file: No such file\n");
    assert_eq!(events[1]["seq"], 7);
    let report = EvalWorker::async_report(&Err("boom".to_string()), &Ok(()));
    assert_eq!(report.error_output.as_deref(), Some("Error: boom"));
    assert!(matches!(report.event, DebugEvent::Terminated));
    let report = EvalWorker::async_report(&Err("boom".to_string()), &Err("late".to_string()));
    assert_eq!(report.error_output.as_deref(), Some("Error: boom"));
    let report = EvalWorker::async_report(&Ok(()), &Err("late".to_string()));
    assert_eq!(report.error_output.as_deref(), Some("Error: late"));
    assert!(matches!(report.event, DebugEvent::Terminated));
}

#[test]
fn responses_and_events_are_made_with_the_next_seq() {
    let (mut server, _debugger) = fresh();
    let m = server.create_response(41, "x", false, Some("no".to_string()), Some(Json::Integer(5)));
    assert_eq!(m.seq(), 1);
    let v = wire(&m);
    assert_eq!(v["request_seq"], 41);
    assert_eq!(v["command"], "x");
    assert_eq!(v["success"], false);
    assert_eq!(v["message"], "no");
    assert_eq!(v["body"], 5);
    let e = server.create_event("thread", None);
    assert_eq!(e.seq(), 2);
    assert_eq!(wire(&e)["event"], "thread");
    assert_eq!(server.next_seq(), 3);
    assert_eq!(server.next_seq(), 4);
    let request = Request { seq: 1, command: "threads".to_string(), arguments: None };
    match server.handle_request(&mut Debugger::new(), request, 0) {
        Reaction::Reply(ms) => assert_eq!(ms[0].seq(), 5),
        other => panic!("{:?}", other),
    }
}
