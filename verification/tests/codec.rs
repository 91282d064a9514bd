//! The wire format and the JSON forms of messages.

use boa_dap::decode::{Decode, DecodeError};
use boa_dap::encode::{Encode, ObjectBuilder};
use boa_dap::json::{Json, Member};
use boa_dap::messages::{
    AttachRequestArguments, Breakpoint, Capabilities, Checksum, EvaluateArguments,
    InitializeRequestArguments, LaunchRequestArguments, OutputEventBody, Scope,
    SetBreakpointsArguments, Source, StackTraceArguments, StoppedEventBody, TerminatedEventBody,
    Variable, VariablePresentationHint, VariablesArguments,
};
use boa_dap::protocol::{Event, ProtocolMessage, Request, Response};
use boa_dap::text::{decimal_string, same_text};
use boa_dap::transport::{
    after_connection, debug_logging, frame_message, length_digits, parse_header_line, split_frame,
    AcceptStep, DapTransportMode, Frame, FrameReader, HeaderLine, ReadStep,
};

fn member(name: &str, value: Json) -> Member {
    Member { name: name.to_string(), value }
}

fn object(members: Vec<(&str, Json)>) -> Json {
    Json::Object(members.into_iter().map(|(n, v)| member(n, v)).collect())
}

fn text(s: &str) -> Json {
    Json::Text(s.to_string())
}

#[test]
fn a_frame_is_the_length_line_a_blank_line_and_the_body() {
    assert_eq!(frame_message(b"{}"), b"Content-Length: 2\r\n\r\n{}".to_vec());
    assert_eq!(frame_message(b""), b"Content-Length: 0\r\n\r\n".to_vec());
    let body = vec![b'x'; 1234];
    let frame = frame_message(&body);
    assert!(frame.starts_with(b"Content-Length: 1234\r\n\r\n"));
    assert_eq!(frame.len(), 24 + 1234);
    assert_eq!(&frame[24..], &body[..]);
    let umlaut = "{\"a\":\"\u{e4}\"}";
    assert_eq!(frame_message(umlaut.as_bytes())[..20].to_vec(), b"Content-Length: 10\r\n".to_vec());
}

#[test]
fn header_lines_are_told_apart() {
    assert_eq!(parse_header_line(b"Content-Length: 42\r\n"), HeaderLine::ContentLength(42));
    assert_eq!(parse_header_line(b"Content-Length:42"), HeaderLine::ContentLength(42));
    assert_eq!(parse_header_line(b"  Content-Length: \t 007 \r\n"), HeaderLine::ContentLength(7));
    assert_eq!(parse_header_line(b"Content-Length: 0\n"), HeaderLine::ContentLength(0));
    assert_eq!(parse_header_line(b"\r\n"), HeaderLine::Blank);
    assert_eq!(parse_header_line(b""), HeaderLine::Blank);
    assert_eq!(parse_header_line(b" \t\r\n"), HeaderLine::Blank);
    assert_eq!(parse_header_line(b"Content-Length: \r\n"), HeaderLine::Invalid);
    assert_eq!(parse_header_line(b"Content-Length: 12a\r\n"), HeaderLine::Invalid);
    assert_eq!(parse_header_line(b"Content-Length: -1\r\n"), HeaderLine::Invalid);
    assert_eq!(parse_header_line(b"Content-Length: +1\r\n"), HeaderLine::Invalid);
    assert_eq!(parse_header_line(b"Content-Length: 1 2\r\n"), HeaderLine::Invalid);
    assert_eq!(
        parse_header_line(b"Content-Length: 99999999999999999999999999\r\n"),
        HeaderLine::Invalid
    );
    assert_eq!(
        parse_header_line(format!("Content-Length: {}\r\n", usize::MAX).as_bytes()),
        HeaderLine::ContentLength(usize::MAX)
    );
    assert_eq!(parse_header_line(b"Content-Type: application/json\r\n"), HeaderLine::Other);
    assert_eq!(parse_header_line(b"content-length: 3\r\n"), HeaderLine::Other);
    assert_eq!(parse_header_line(b"Content-Length\r\n"), HeaderLine::Other);
    assert_eq!(parse_header_line(b"Content-Leng"), HeaderLine::Other);
    assert_eq!(parse_header_line(b"X"), HeaderLine::Other);
}

#[test]
fn a_written_frame_is_read_back() {
    for body in [&b"{\"seq\":1}"[..], &b""[..], &[0u8, 13, 10, 13, 10, 255][..]] {
        let frame = frame_message(body);
        let mut reader = FrameReader::new();
        let mut rest = &frame[..];
        let mut step = ReadStep::Line;
        while step == ReadStep::Line {
            let end = rest.windows(2).position(|w| w == b"\r\n").unwrap() + 2;
            step = reader.on_line(&rest[..end]);
            rest = &rest[end..];
        }
        assert_eq!(step, ReadStep::Body(body.len()));
        assert_eq!(rest, body);
        assert_eq!(reader, FrameReader::new());
    }
}

#[test]
fn frames_are_split_off_a_buffer() {
    let mut buffer = frame_message(b"{\"a\":1}");
    let first = buffer.len();
    assert_eq!(split_frame(&buffer), Frame::Message { start: first - 7, end: first });
    buffer.extend_from_slice(&frame_message(b"second"));
    assert_eq!(split_frame(&buffer), Frame::Message { start: first - 7, end: first });
    assert_eq!(&buffer[first - 7..first], b"{\"a\":1}");
    let rest = buffer[first..].to_vec();
    assert_eq!(split_frame(&rest), Frame::Message { start: 21, end: 27 });
    for cut in 0..rest.len() {
        assert_eq!(split_frame(&rest[..cut]), Frame::Incomplete, "{}", cut);
    }
    assert_eq!(split_frame(b""), Frame::Incomplete);
    assert_eq!(split_frame(b"\r\n\r\n"), Frame::Incomplete);
    assert_eq!(
        split_frame(b"\r\nContent-Type: x\r\nContent-Length: 2\r\n\r\nok..."),
        Frame::Message { start: 40, end: 42 }
    );
    assert_eq!(split_frame(b"Content-Length: 0\n\n"), Frame::Message { start: 19, end: 19 });
    assert_eq!(split_frame(b"Content-Type: x\r\n\r\nab"), Frame::Malformed { end: 19 });
    assert_eq!(split_frame(b"Content-Length: x\r\n\r\nab"), Frame::Malformed { end: 19 });
    assert_eq!(
        split_frame(format!("Content-Length: {}\r\n\r\n", usize::MAX).as_bytes()),
        Frame::Incomplete
    );
}

#[test]
fn the_reader_passes_over_what_it_does_not_need() {
    let mut reader = FrameReader::new();
    assert_eq!(reader.on_line(b"\r\n"), ReadStep::Line);
    assert_eq!(reader.on_line(b"\n"), ReadStep::Line);
    assert_eq!(reader.on_line(b"Content-Type: application/vscode-jsonrpc\r\n"), ReadStep::Line);
    assert_eq!(reader.on_line(b"Content-Length: 5\r\n"), ReadStep::Line);
    assert_eq!(reader.on_line(b"Content-Length: 9\r\n"), ReadStep::Line);
    assert_eq!(reader.on_line(b"X-Other: 1\r\n"), ReadStep::Line);
    assert_eq!(reader.on_line(b"\r\n"), ReadStep::Body(5));
    assert_eq!(reader.on_line(b"Content-Length: 1\r\n"), ReadStep::Line);
    assert_eq!(reader.on_line(b"\r\n"), ReadStep::Body(1));
}

#[test]
fn a_malformed_frame_is_given_up() {
    let mut reader = FrameReader::new();
    assert_eq!(reader.on_line(b"Content-Type: x\r\n"), ReadStep::Line);
    assert_eq!(reader.on_line(b"\r\n"), ReadStep::Skip);
    assert_eq!(reader, FrameReader::new());
    assert_eq!(reader.on_line(b"Content-Length: 3\r\n"), ReadStep::Line);
    assert_eq!(reader.on_line(b"Content-Length: many\r\n"), ReadStep::Skip);
    assert_eq!(reader, FrameReader::new());
    assert_eq!(reader.on_line(b"\r\n"), ReadStep::Line);
    assert_eq!(reader.on_line(b"Content-Length: 4\r\n"), ReadStep::Line);
    assert_eq!(reader.on_line(b"\r\n"), ReadStep::Body(4));
}

#[test]
fn numbers_are_spelled_in_decimal() {
    assert_eq!(decimal_string(0), "0");
    assert_eq!(decimal_string(7), "7");
    assert_eq!(decimal_string(10), "10");
    assert_eq!(decimal_string(4096), "4096");
    assert_eq!(decimal_string(1234567890), "1234567890");
    assert_eq!(decimal_string(usize::MAX), usize::MAX.to_string());
    assert_eq!(length_digits(0), b"0".to_vec());
    assert_eq!(length_digits(905), b"905".to_vec());
    assert_eq!(length_digits(usize::MAX), usize::MAX.to_string().into_bytes());
    assert!(same_text("stepIn", "stepIn"));
    assert!(!same_text("stepIn", "stepin"));
    assert!(!same_text("", " "));
}

#[test]
fn the_listener_serves_one_session() {
    assert_eq!(after_connection(true), AcceptStep::Stop);
    assert_eq!(after_connection(false), AcceptStep::Accept);
    assert_eq!(DapTransportMode::Stdio.describe(), "stdio");
    assert_eq!(DapTransportMode::Tcp(4711).describe(), "TCP on port 4711");
    assert_eq!(DapTransportMode::Tcp(0).describe(), "TCP on port 0");
    for on in ["1", "true", "TRUE", "True", "tRuE"] {
        assert!(debug_logging(on.as_bytes()), "{}", on);
    }
    for off in ["", "0", "2", "11", "yes", "on", "truE ", " true", "tru", "trve", "t\u{52}ue!"] {
        assert!(!debug_logging(off.as_bytes()), "{}", off);
    }
}

#[test]
fn a_request_has_its_json_form() {
    let request = Request {
        seq: 3,
        command: "scopes".to_string(),
        arguments: Some(object(vec![("frameId", Json::Integer(0))])),
    };
    assert_eq!(
        request.to_json(),
        object(vec![
            ("type", text("request")),
            ("seq", Json::Integer(3)),
            ("command", text("scopes")),
            ("arguments", object(vec![("frameId", Json::Integer(0))])),
        ])
    );
    let bare = Request { seq: -1, command: String::new(), arguments: None };
    assert_eq!(
        bare.to_json(),
        object(vec![("type", text("request")), ("seq", Json::Integer(-1)), ("command", text(""))])
    );
}

#[test]
fn a_response_and_an_event_have_their_json_forms() {
    let response = Response {
        seq: 8,
        request_seq: 3,
        success: false,
        command: "next".to_string(),
        message: Some("no".to_string()),
        body: Some(Json::Array(vec![Json::Null])),
    };
    assert_eq!(
        response.to_json(),
        object(vec![
            ("type", text("response")),
            ("seq", Json::Integer(8)),
            ("request_seq", Json::Integer(3)),
            ("success", Json::Bool(false)),
            ("command", text("next")),
            ("message", text("no")),
            ("body", Json::Array(vec![Json::Null])),
        ])
    );
    let event = Event { seq: 9, event: "terminated".to_string(), body: None };
    assert_eq!(
        event.to_json(),
        object(vec![("type", text("event")), ("seq", Json::Integer(9)), ("event", text("terminated"))])
    );
}

fn round_trip(m: &ProtocolMessage) -> ProtocolMessage {
    ProtocolMessage::from_json(&m.to_json()).unwrap()
}

#[test]
fn a_message_that_is_written_is_read_back() {
    let request = ProtocolMessage::Request(Request {
        seq: i64::MAX,
        command: "evaluate".to_string(),
        arguments: Some(object(vec![
            ("expression", text("a\"b")),
            ("n", Json::Decimal("1.5e300".to_string())),
            ("type", text("not a tag")),
        ])),
    });
    match round_trip(&request) {
        ProtocolMessage::Request(r) => {
            assert_eq!(r.seq, i64::MAX);
            assert_eq!(r.command, "evaluate");
            match (&request, &r.arguments) {
                (ProtocolMessage::Request(sent), got) => assert_eq!(&sent.arguments, got),
                _ => unreachable!(),
            }
        },
        other => panic!("{:?}", other),
    }
    let response = ProtocolMessage::Response(Response {
        seq: 2,
        request_seq: i64::MIN,
        success: true,
        command: "x".to_string(),
        message: None,
        body: Some(Json::Bool(false)),
    });
    match round_trip(&response) {
        ProtocolMessage::Response(r) => {
            assert_eq!((r.seq, r.request_seq, r.success), (2, i64::MIN, true));
            assert_eq!(r.command, "x");
            assert_eq!(r.message, None);
            assert_eq!(r.body, Some(Json::Bool(false)));
        },
        other => panic!("{:?}", other),
    }
    let response = ProtocolMessage::Response(Response {
        seq: 2,
        request_seq: 1,
        success: false,
        command: "x".to_string(),
        message: Some(String::new()),
        body: None,
    });
    match round_trip(&response) {
        ProtocolMessage::Response(r) => {
            assert_eq!(r.message, Some(String::new()));
            assert_eq!(r.body, None);
            assert!(!r.success);
        },
        other => panic!("{:?}", other),
    }
    let event = ProtocolMessage::Event(Event {
        seq: 0,
        event: "output".to_string(),
        body: Some(Json::Array(Vec::new())),
    });
    match round_trip(&event) {
        ProtocolMessage::Event(e) => {
            assert_eq!(e.seq, 0);
            assert_eq!(e.event, "output");
            assert_eq!(e.body, Some(Json::Array(Vec::new())));
        },
        other => panic!("{:?}", other),
    }
    assert_eq!(round_trip(&event).seq(), 0);
}

#[test]
fn a_null_payload_is_read_back_as_none() {
    let event = ProtocolMessage::Event(Event {
        seq: 1,
        event: "e".to_string(),
        body: Some(Json::Null),
    });
    match round_trip(&event) {
        ProtocolMessage::Event(e) => assert_eq!(e.body, None),
        other => panic!("{:?}", other),
    }
}

#[test]
fn what_is_no_message_is_refused() {
    let cases = [
        (Json::Null, DecodeError::NotAnObject),
        (object(vec![("seq", Json::Integer(1))]), DecodeError::MissingField("type".to_string())),
        (
            object(vec![("type", Json::Integer(1))]),
            DecodeError::InvalidField("type".to_string()),
        ),
        (
            object(vec![("type", text("Request"))]),
            DecodeError::InvalidField("type".to_string()),
        ),
        (
            object(vec![("type", text("request")), ("command", text("x"))]),
            DecodeError::MissingField("seq".to_string()),
        ),
        (
            object(vec![("type", text("request")), ("seq", Json::Decimal("1.5".to_string()))]),
            DecodeError::InvalidField("seq".to_string()),
        ),
        (
            object(vec![("type", text("request")), ("seq", Json::Integer(1))]),
            DecodeError::MissingField("command".to_string()),
        ),
        (
            object(vec![("type", text("event")), ("seq", Json::Integer(1)), ("event", Json::Null)]),
            DecodeError::InvalidField("event".to_string()),
        ),
        (
            object(vec![
                ("type", text("response")),
                ("seq", Json::Integer(1)),
                ("request_seq", Json::Integer(1)),
                ("command", text("x")),
            ]),
            DecodeError::MissingField("success".to_string()),
        ),
        (
            object(vec![
                ("type", text("response")),
                ("seq", Json::Integer(1)),
                ("request_seq", Json::Integer(1)),
                ("success", Json::Bool(true)),
                ("command", text("x")),
                ("message", Json::Integer(3)),
            ]),
            DecodeError::InvalidField("message".to_string()),
        ),
    ];
    for (json, error) in cases {
        assert_eq!(ProtocolMessage::from_json(&json).unwrap_err(), error);
    }
    assert_eq!(DecodeError::NotAnObject.message(), "invalid type: expected an object");
    assert_eq!(DecodeError::MissingField("f".to_string()).message(), "missing field `f`");
    assert_eq!(DecodeError::InvalidField("f".to_string()).message(), "invalid value for field `f`");
}

#[test]
fn members_are_looked_up_by_name() {
    let j = object(vec![
        ("a", Json::Integer(1)),
        ("b", Json::Null),
        ("a", Json::Integer(2)),
        ("c", Json::Bool(true)),
        ("d", text("t")),
        ("e", Json::Array(vec![Json::Integer(1), Json::Integer(2)])),
        ("f", Json::Array(vec![text("x"), Json::Integer(2)])),
        ("g", object(vec![("k", text("v")), ("l", text("w"))])),
    ]);
    assert_eq!(j.member("a"), Some(&Json::Integer(1)));
    assert_eq!(j.member("b"), Some(&Json::Null));
    assert_eq!(j.member("z"), None);
    assert_eq!(Json::Integer(1).member("a"), None);
    assert_eq!(j.value_at("b"), None);
    assert_eq!(j.integer_at("a"), Ok(Some(1)));
    assert_eq!(j.integer_at("b"), Ok(None));
    assert_eq!(j.integer_at("z"), Ok(None));
    assert_eq!(j.integer_at("c"), Err(DecodeError::InvalidField("c".to_string())));
    assert_eq!(j.required_integer_at("b"), Err(DecodeError::InvalidField("b".to_string())));
    assert_eq!(j.required_integer_at("z"), Err(DecodeError::MissingField("z".to_string())));
    assert_eq!(j.bool_at("c"), Ok(Some(true)));
    assert_eq!(j.flag_at("z"), Ok(false));
    assert_eq!(j.flag_at("c"), Ok(true));
    assert_eq!(j.flag_at("b"), Err(DecodeError::InvalidField("b".to_string())));
    assert_eq!(j.required_bool_at("z"), Err(DecodeError::MissingField("z".to_string())));
    assert_eq!(j.text_at("d"), Ok(Some("t".to_string())));
    assert_eq!(j.required_text_at("d"), Ok("t".to_string()));
    assert_eq!(j.required_text_at("a"), Err(DecodeError::InvalidField("a".to_string())));
    assert_eq!(j.integers_at("e"), Ok(Some(vec![1, 2])));
    assert_eq!(j.integers_at("f"), Err(DecodeError::InvalidField("f".to_string())));
    assert_eq!(j.texts_at("f"), Err(DecodeError::InvalidField("f".to_string())));
    assert_eq!(j.texts_at("z"), Ok(None));
    assert_eq!(
        j.text_map_at("g"),
        Ok(Some(vec![("k".to_string(), "v".to_string()), ("l".to_string(), "w".to_string())]))
    );
    assert_eq!(j.text_map_at("e"), Err(DecodeError::InvalidField("e".to_string())));
    assert_eq!(j.port_at("a"), Ok(Some(1)));
    assert_eq!(j.json_at("g"), Some(object(vec![("k", text("v")), ("l", text("w"))])));
    assert_eq!(j.copy(), j);
    assert_eq!(j.clone(), j);
    assert!(j.is_object());
    assert_eq!(Json::Null.expect_object(), Err(DecodeError::NotAnObject));
}

#[test]
fn an_object_is_built_member_by_member() {
    let built = ObjectBuilder::new()
        .integer("a", 1)
        .opt_integer("b", None)
        .opt_integer("c", Some(3))
        .boolean("d", false)
        .opt_boolean("e", Some(true))
        .opt_boolean("f", None)
        .text("g", "x")
        .opt_text("h", &None)
        .opt_text("i", &Some("y".to_string()))
        .nullable_text("j", &None)
        .nullable_text("k", &Some("z".to_string()))
        .opt_json("l", &Some(Json::Null))
        .opt_integers("m", &Some(vec![1, 2]))
        .opt_texts("n", &Some(vec!["s".to_string()]))
        .opt_value("o", None)
        .build();
    assert_eq!(
        built,
        object(vec![
            ("a", Json::Integer(1)),
            ("c", Json::Integer(3)),
            ("d", Json::Bool(false)),
            ("e", Json::Bool(true)),
            ("g", text("x")),
            ("i", text("y")),
            ("j", Json::Null),
            ("k", text("z")),
            ("l", Json::Null),
            ("m", Json::Array(vec![Json::Integer(1), Json::Integer(2)])),
            ("n", Json::Array(vec![text("s")])),
        ])
    );
}

#[test]
fn arguments_are_read_from_their_json_forms() {
    let args = InitializeRequestArguments::from_json(&object(vec![
        ("clientId", text("vscode")),
        ("clientID", text("ignored")),
        ("linesStartAt1", Json::Bool(true)),
        ("locale", Json::Null),
    ]))
    .unwrap();
    assert_eq!(args.client_id.as_deref(), Some("vscode"));
    assert!(args.lines_start_at_1);
    assert!(!args.columns_start_at_1);
    assert_eq!(args.locale, None);
    assert_eq!(args.adapter_id, None);
    assert!(InitializeRequestArguments::from_json(&object(vec![(
        "supportsVariableType",
        Json::Null
    )]))
    .is_err());

    let args = LaunchRequestArguments::from_json(&object(vec![
        ("program", text("p.js")),
        ("args", Json::Array(vec![text("-v")])),
        ("env", object(vec![("HOME", text("/root"))])),
        ("stopOnEntry", Json::Bool(true)),
    ]))
    .unwrap();
    assert_eq!(args.program.as_deref(), Some("p.js"));
    assert_eq!(args.args, Some(vec!["-v".to_string()]));
    assert_eq!(args.env, Some(vec![("HOME".to_string(), "/root".to_string())]));
    assert_eq!(args.stop_on_entry, Some(true));
    assert_eq!(args.no_debug, None);
    assert_eq!(
        LaunchRequestArguments::from_json(&object(vec![("env", object(vec![("A", Json::Integer(1))]))]))
            .unwrap_err(),
        DecodeError::InvalidField("env".to_string())
    );

    let args = AttachRequestArguments::from_json(&object(vec![("port", Json::Integer(0))])).unwrap();
    assert_eq!(args.port, Some(0));
    assert_eq!(
        AttachRequestArguments::from_json(&object(vec![("port", Json::Integer(-1))])).unwrap_err(),
        DecodeError::InvalidField("port".to_string())
    );

    let args = StackTraceArguments::from_json(&object(vec![
        ("threadId", Json::Integer(1)),
        ("levels", Json::Integer(20)),
        ("format", object(vec![("hex", Json::Bool(true)), ("line", Json::Bool(false))])),
    ]))
    .unwrap();
    assert_eq!((args.thread_id, args.start_frame, args.levels), (1, None, Some(20)));
    let format = args.format.unwrap();
    assert_eq!(format.line, Some(false));
    assert_eq!(format.parameters, None);
    assert_eq!(
        StackTraceArguments::from_json(&object(vec![
            ("threadId", Json::Integer(1)),
            ("format", Json::Integer(1)),
        ]))
        .unwrap_err(),
        DecodeError::NotAnObject
    );

    let args = VariablesArguments::from_json(&object(vec![
        ("variablesReference", Json::Integer(5)),
        ("format", object(vec![("hex", Json::Bool(true))])),
    ]))
    .unwrap();
    assert_eq!(args.variables_reference, 5);
    assert_eq!(args.format.unwrap().hex, Some(true));

    let args = EvaluateArguments::from_json(&object(vec![
        ("expression", text("a")),
        ("frameId", Json::Integer(2)),
        ("context", text("hover")),
    ]))
    .unwrap();
    assert_eq!(args.expression, "a");
    assert_eq!(args.frame_id, Some(2));
    assert_eq!(args.context.as_deref(), Some("hover"));
}

#[test]
fn the_arguments_of_set_breakpoints_are_read_in_depth() {
    let j = object(vec![
        (
            "source",
            object(vec![
                ("path", text("a.js")),
                ("sourceReference", Json::Integer(0)),
                (
                    "sources",
                    Json::Array(vec![
                        object(vec![("name", text("inner"))]),
                        object(vec![("sources", Json::Array(vec![object(vec![])]))]),
                    ]),
                ),
                ("adapterData", Json::Array(vec![Json::Integer(1)])),
                (
                    "checksums",
                    Json::Array(vec![object(vec![
                        ("algorithm", text("MD5")),
                        ("checksum", text("00")),
                    ])]),
                ),
            ]),
        ),
        (
            "breakpoints",
            Json::Array(vec![object(vec![
                ("line", Json::Integer(3)),
                ("condition", text("x > 1")),
                ("hitCondition", text("2")),
                ("logMessage", text("hi")),
            ])]),
        ),
        ("lines", Json::Array(vec![Json::Integer(3)])),
        ("sourceModified", Json::Bool(false)),
    ]);
    let args = SetBreakpointsArguments::from_json(&j).unwrap();
    assert_eq!(args.source.path.as_deref(), Some("a.js"));
    assert_eq!(args.source.source_reference, Some(0));
    let nested = args.source.sources.as_ref().unwrap();
    assert_eq!(nested.len(), 2);
    assert_eq!(nested[0].name.as_deref(), Some("inner"));
    assert_eq!(nested[1].sources.as_ref().unwrap().len(), 1);
    assert_eq!(args.source.adapter_data, Some(Json::Array(vec![Json::Integer(1)])));
    assert_eq!(args.source.checksums.as_ref().unwrap()[0].algorithm, "MD5");
    let asked = &args.breakpoints.as_ref().unwrap()[0];
    assert_eq!(asked.line, 3);
    assert_eq!(asked.column, None);
    assert_eq!(asked.condition.as_deref(), Some("x > 1"));
    assert_eq!(asked.hit_condition.as_deref(), Some("2"));
    assert_eq!(asked.log_message.as_deref(), Some("hi"));
    assert_eq!(args.lines, Some(vec![3]));
    assert_eq!(args.source_modified, Some(false));
    assert_eq!(args.source.to_json(), args.source.copy().to_json());
    assert_eq!(args.source.to_json(), args.source.clone().to_json());
    assert_eq!(Source::from_json(&args.source.to_json()).unwrap().to_json(), args.source.to_json());

    let bad = object(vec![(
        "source",
        object(vec![(
            "sources",
            Json::Array(vec![object(vec![]), object(vec![("name", Json::Integer(1))])]),
        )]),
    )]);
    assert_eq!(
        SetBreakpointsArguments::from_json(&bad).unwrap_err(),
        DecodeError::InvalidField("name".to_string())
    );
    let bad = object(vec![
        ("source", object(vec![])),
        ("breakpoints", Json::Array(vec![object(vec![("column", Json::Integer(1))])])),
    ]);
    assert_eq!(
        SetBreakpointsArguments::from_json(&bad).unwrap_err(),
        DecodeError::MissingField("line".to_string())
    );
    let bad = object(vec![
        ("source", object(vec![("checksums", Json::Array(vec![object(vec![])]))])),
    ]);
    assert_eq!(
        SetBreakpointsArguments::from_json(&bad).unwrap_err(),
        DecodeError::MissingField("algorithm".to_string())
    );
}

#[test]
fn bodies_have_their_json_forms() {
    let source = Source::from_path("a.js");
    assert_eq!(source.to_json(), object(vec![("path", text("a.js"))]));
    let breakpoint = Breakpoint {
        id: Some(4),
        verified: true,
        message: None,
        source: Some(source),
        line: Some(10),
        column: None,
        end_line: Some(11),
        end_column: None,
    };
    assert_eq!(
        breakpoint.to_json(),
        object(vec![
            ("id", Json::Integer(4)),
            ("verified", Json::Bool(true)),
            ("source", object(vec![("path", text("a.js"))])),
            ("line", Json::Integer(10)),
            ("endLine", Json::Integer(11)),
        ])
    );
    let scope = Scope {
        name: "Closure".to_string(),
        presentation_hint: None,
        variables_reference: 7,
        named_variables: Some(2),
        indexed_variables: None,
        expensive: true,
        source: None,
        line: None,
        column: None,
        end_line: None,
        end_column: None,
    };
    assert_eq!(
        scope.to_json(),
        object(vec![
            ("name", text("Closure")),
            ("variablesReference", Json::Integer(7)),
            ("namedVariables", Json::Integer(2)),
            ("expensive", Json::Bool(true)),
        ])
    );
    let variable = Variable {
        name: "x".to_string(),
        value: "1".to_string(),
        type_: Some("number".to_string()),
        presentation_hint: Some(VariablePresentationHint {
            kind: Some("data".to_string()),
            attributes: Some(vec!["readOnly".to_string()]),
            visibility: None,
        }),
        evaluate_name: None,
        variables_reference: 0,
        named_variables: None,
        indexed_variables: None,
        memory_reference: None,
    };
    assert_eq!(
        variable.to_json(),
        object(vec![
            ("name", text("x")),
            ("value", text("1")),
            ("type", text("number")),
            (
                "presentationHint",
                object(vec![
                    ("kind", text("data")),
                    ("attributes", Json::Array(vec![text("readOnly")])),
                ])
            ),
            ("variablesReference", Json::Integer(0)),
        ])
    );
    let stopped = StoppedEventBody {
        reason: "breakpoint".to_string(),
        description: None,
        thread_id: Some(1),
        preserve_focus_hint: None,
        text: None,
        all_threads_stopped: true,
        hit_breakpoint_ids: Some(vec![3]),
    };
    assert_eq!(
        stopped.to_json(),
        object(vec![
            ("reason", text("breakpoint")),
            ("threadId", Json::Integer(1)),
            ("allThreadsStopped", Json::Bool(true)),
            ("hitBreakpointIds", Json::Array(vec![Json::Integer(3)])),
        ])
    );
    let output = OutputEventBody {
        category: None,
        output: "o".to_string(),
        group: None,
        variables_reference: None,
        source: None,
        line: None,
        column: None,
        data: None,
    };
    assert_eq!(output.to_json(), object(vec![("category", Json::Null), ("output", text("o"))]));
    assert_eq!(TerminatedEventBody { restart: None }.to_json(), object(vec![]));
    assert_eq!(
        TerminatedEventBody { restart: Some(Json::Bool(true)) }.to_json(),
        object(vec![("restart", Json::Bool(true))])
    );
    let checksum = Checksum { algorithm: "SHA1".to_string(), checksum: "ff".to_string() };
    assert_eq!(Checksum::from_json(&checksum.to_json()).unwrap().checksum, "ff");
}

#[test]
fn capabilities_are_written_in_the_order_of_the_record() {
    let all_off = Capabilities {
        supports_configuration_done_request: false,
        supports_function_breakpoints: false,
        supports_conditional_breakpoints: false,
        supports_hit_conditional_breakpoints: false,
        supports_evaluate_for_hovers: false,
        supports_step_back: false,
        supports_set_variable: false,
        supports_restart_frame: false,
        supports_goto_targets_request: false,
        supports_step_in_targets_request: false,
        supports_completions_request: false,
        supports_modules_request: false,
        supports_restart_request: false,
        supports_exception_options: false,
        supports_value_formatting_options: false,
        supports_exception_info_request: false,
        supports_terminate_debuggee: false,
        supports_delayed_stack_trace_loading: false,
        supports_loaded_sources_request: false,
        supports_log_points: false,
        supports_terminate_threads_request: false,
        supports_set_expression: false,
        supports_terminate_request: false,
        supports_data_breakpoints: false,
        supports_read_memory_request: false,
        supports_disassemble_request: false,
        supports_cancel_request: false,
        supports_breakpoint_locations_request: false,
        supports_clipboard_context: true,
    };
    match all_off.to_json() {
        Json::Object(members) => {
            assert_eq!(members.len(), 29);
            assert_eq!(members[0].name, "supportsConfigurationDoneRequest");
            assert_eq!(members[8].name, "supportsGotoTargetsRequest");
            assert_eq!(members[16].name, "supportsTerminateDebuggee");
            assert_eq!(members[24].name, "supportsReadMemoryRequest");
            assert_eq!(members[28].name, "supportsClipboardContext");
            assert_eq!(members[28].value, Json::Bool(true));
            assert!(members[..28].iter().all(|m| m.value == Json::Bool(false)));
        },
        other => panic!("{:?}", other),
    }
}
