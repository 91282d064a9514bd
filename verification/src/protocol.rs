//! The three shapes of a protocol message and their JSON forms.
//!
//! Every message is a JSON object whose member `type` says which shape it has:
//! `request`, `response` or `event`.

use crate::decode::{DecodeError, Flaw};
use crate::encode::{Fields, ObjectBuilder};
use crate::json::{opt_json, Json, JsonValue};
use crate::text::{opt_text, owned, same_text};
use vstd::prelude::*;

verus! {

/// A request of the client.
#[derive(Debug, Clone)]
pub struct Request {
    pub seq: i64,
    pub command: String,
    pub arguments: Option<Json>,
}

/// The answer to a request.
#[derive(Debug, Clone)]
pub struct Response {
    pub seq: i64,
    pub request_seq: i64,
    pub success: bool,
    pub command: String,
    pub message: Option<String>,
    pub body: Option<Json>,
}

/// Something the adapter reports of its own accord.
#[derive(Debug, Clone)]
pub struct Event {
    pub seq: i64,
    pub event: String,
    pub body: Option<Json>,
}

/// A message of the protocol.
#[derive(Debug, Clone)]
pub enum ProtocolMessage {
    Request(Request),
    Response(Response),
    Event(Event),
}

/// The model of a protocol message.
pub enum MessageModel {
    Request { seq: int, command: Seq<char>, arguments: Option<JsonValue> },
    Response {
        seq: int,
        request_seq: int,
        success: bool,
        command: Seq<char>,
        message: Option<Seq<char>>,
        body: Option<JsonValue>,
    },
    Event { seq: int, event: Seq<char>, body: Option<JsonValue> },
}

impl View for Request {
    type V = MessageModel;

    open spec fn view(&self) -> MessageModel {
        MessageModel::Request {
            seq: self.seq as int,
            command: self.command@,
            arguments: opt_json(self.arguments),
        }
    }
}

impl View for Response {
    type V = MessageModel;

    open spec fn view(&self) -> MessageModel {
        MessageModel::Response {
            seq: self.seq as int,
            request_seq: self.request_seq as int,
            success: self.success,
            command: self.command@,
            message: opt_text(self.message),
            body: opt_json(self.body),
        }
    }
}

impl View for Event {
    type V = MessageModel;

    open spec fn view(&self) -> MessageModel {
        MessageModel::Event { seq: self.seq as int, event: self.event@, body: opt_json(self.body) }
    }
}

impl View for ProtocolMessage {
    type V = MessageModel;

    open spec fn view(&self) -> MessageModel {
        match self {
            ProtocolMessage::Request(r) => r@,
            ProtocolMessage::Response(r) => r@,
            ProtocolMessage::Event(e) => e@,
        }
    }
}

impl MessageModel {
    /// The sequence number of the message.
    pub open spec fn seq(self) -> int {
        match self {
            MessageModel::Request { seq, .. } => seq,
            MessageModel::Response { seq, .. } => seq,
            MessageModel::Event { seq, .. } => seq,
        }
    }

    /// Whether the message carries a payload that is the JSON null. Such a
    /// payload is written as null and read back as no payload.
    pub open spec fn has_null_payload(self) -> bool {
        match self {
            MessageModel::Request { arguments, .. } => arguments == Some(JsonValue::Null),
            MessageModel::Response { body, .. } => body == Some(JsonValue::Null),
            MessageModel::Event { body, .. } => body == Some(JsonValue::Null),
        }
    }

    /// The JSON form of the message.
    pub open spec fn encode(self) -> JsonValue {
        match self {
            MessageModel::Request { seq, command, arguments } => Fields::new()
                .text("type"@, "request"@)
                .integer("seq"@, seq)
                .text("command"@, command)
                .opt_value("arguments"@, arguments)
                .json(),
            MessageModel::Response { seq, request_seq, success, command, message, body } =>
                Fields::new()
                .text("type"@, "response"@)
                .integer("seq"@, seq)
                .integer("request_seq"@, request_seq)
                .boolean("success"@, success)
                .text("command"@, command)
                .opt_value(
                    "message"@,
                    match message {
                        Some(m) => Some(JsonValue::Text(m)),
                        None => None,
                    },
                )
                .opt_value("body"@, body)
                .json(),
            MessageModel::Event { seq, event, body } => Fields::new()
                .text("type"@, "event"@)
                .integer("seq"@, seq)
                .text("event"@, event)
                .opt_value("body"@, body)
                .json(),
        }
    }

    /// The message that a JSON value holds, or why it holds none.
    ///
    /// The members are looked at in the order in which they are written; the
    /// first that is missing or of the wrong kind is the flaw.
    pub open spec fn decode(j: JsonValue) -> Result<MessageModel, Flaw> {
        if !(j is Object) {
            Err(Flaw::NotAnObject)
        } else {
            match j.required_text_at("type"@) {
                Err(f) => Err(f),
                Ok(kind) => if kind == "request"@ {
                    Self::decode_request(j)
                } else if kind == "response"@ {
                    Self::decode_response(j)
                } else if kind == "event"@ {
                    Self::decode_event(j)
                } else {
                    Err(Flaw::InvalidField("type"@))
                },
            }
        }
    }

    pub open spec fn decode_request(j: JsonValue) -> Result<MessageModel, Flaw> {
        match (j.required_integer_at("seq"@), j.required_text_at("command"@)) {
            (Err(f), _) => Err(f),
            (_, Err(f)) => Err(f),
            (Ok(seq), Ok(command)) => Ok(
                MessageModel::Request { seq, command, arguments: j.value_at("arguments"@) },
            ),
        }
    }

    pub open spec fn decode_response(j: JsonValue) -> Result<MessageModel, Flaw> {
        match (
            j.required_integer_at("seq"@),
            j.required_integer_at("request_seq"@),
            j.required_bool_at("success"@),
            j.required_text_at("command"@),
            j.text_at("message"@),
        ) {
            (Err(f), _, _, _, _) => Err(f),
            (_, Err(f), _, _, _) => Err(f),
            (_, _, Err(f), _, _) => Err(f),
            (_, _, _, Err(f), _) => Err(f),
            (_, _, _, _, Err(f)) => Err(f),
            (Ok(seq), Ok(request_seq), Ok(success), Ok(command), Ok(message)) => Ok(
                MessageModel::Response {
                    seq,
                    request_seq,
                    success,
                    command,
                    message,
                    body: j.value_at("body"@),
                },
            ),
        }
    }

    pub open spec fn decode_event(j: JsonValue) -> Result<MessageModel, Flaw> {
        match (j.required_integer_at("seq"@), j.required_text_at("event"@)) {
            (Err(f), _) => Err(f),
            (_, Err(f)) => Err(f),
            (Ok(seq), Ok(event)) => Ok(
                MessageModel::Event { seq, event, body: j.value_at("body"@) },
            ),
        }
    }
}

impl Request {
    /// The JSON form of the request.
    pub fn to_json(&self) -> (j: Json)
        ensures
            j@ == self@.encode(),
    {
        ObjectBuilder::new()
            .text("type", "request")
            .integer("seq", self.seq)
            .text("command", self.command.as_str())
            .opt_json("arguments", &self.arguments)
            .build()
    }

    /// Reads the members of a request from an object whose `type` is `request`.
    pub fn from_json(j: &Json) -> (res: Result<Request, DecodeError>)
        ensures
            match res {
                Ok(r) => MessageModel::decode_request(j@) == Ok::<MessageModel, Flaw>(r@),
                Err(e) => MessageModel::decode_request(j@) == Err::<MessageModel, Flaw>(e@),
            },
    {
        let seq = j.required_integer_at("seq")?;
        let command = j.required_text_at("command")?;
        let arguments = j.json_at("arguments");
        Ok(Request { seq, command, arguments })
    }
}

impl Response {
    /// The JSON form of the response.
    pub fn to_json(&self) -> (j: Json)
        ensures
            j@ == self@.encode(),
    {
        let j = ObjectBuilder::new()
            .text("type", "response")
            .integer("seq", self.seq)
            .integer("request_seq", self.request_seq)
            .boolean("success", self.success)
            .text("command", self.command.as_str())
            .opt_text("message", &self.message)
            .opt_json("body", &self.body)
            .build();
        j
    }

    /// Reads the members of a response from an object whose `type` is `response`.
    pub fn from_json(j: &Json) -> (res: Result<Response, DecodeError>)
        ensures
            match res {
                Ok(r) => MessageModel::decode_response(j@) == Ok::<MessageModel, Flaw>(r@),
                Err(e) => MessageModel::decode_response(j@) == Err::<MessageModel, Flaw>(e@),
            },
    {
        let seq = j.required_integer_at("seq")?;
        let request_seq = j.required_integer_at("request_seq")?;
        let success = j.required_bool_at("success")?;
        let command = j.required_text_at("command")?;
        let message = j.text_at("message")?;
        let body = j.json_at("body");
        Ok(Response { seq, request_seq, success, command, message, body })
    }
}

impl Event {
    /// The JSON form of the event.
    pub fn to_json(&self) -> (j: Json)
        ensures
            j@ == self@.encode(),
    {
        ObjectBuilder::new()
            .text("type", "event")
            .integer("seq", self.seq)
            .text("event", self.event.as_str())
            .opt_json("body", &self.body)
            .build()
    }

    /// Reads the members of an event from an object whose `type` is `event`.
    pub fn from_json(j: &Json) -> (res: Result<Event, DecodeError>)
        ensures
            match res {
                Ok(r) => MessageModel::decode_event(j@) == Ok::<MessageModel, Flaw>(r@),
                Err(e) => MessageModel::decode_event(j@) == Err::<MessageModel, Flaw>(e@),
            },
    {
        let seq = j.required_integer_at("seq")?;
        let event = j.required_text_at("event")?;
        let body = j.json_at("body");
        Ok(Event { seq, event, body })
    }
}

impl ProtocolMessage {
    /// The sequence number of the message.
    pub fn seq(&self) -> (seq: i64)
        ensures
            seq as int == self@.seq(),
    {
        match self {
            ProtocolMessage::Request(r) => r.seq,
            ProtocolMessage::Response(r) => r.seq,
            ProtocolMessage::Event(e) => e.seq,
        }
    }

    /// The JSON form of the message.
    pub fn to_json(&self) -> (j: Json)
        ensures
            j@ == self@.encode(),
    {
        match self {
            ProtocolMessage::Request(r) => r.to_json(),
            ProtocolMessage::Response(r) => r.to_json(),
            ProtocolMessage::Event(e) => e.to_json(),
        }
    }

    /// Reads a message from its JSON form.
    pub fn from_json(j: &Json) -> (res: Result<ProtocolMessage, DecodeError>)
        ensures
            match res {
                Ok(m) => MessageModel::decode(j@) == Ok::<MessageModel, Flaw>(m@),
                Err(e) => MessageModel::decode(j@) == Err::<MessageModel, Flaw>(e@),
            },
    {
        j.expect_object()?;
        let kind = j.required_text_at("type")?;
        if same_text(kind.as_str(), "request") {
            Ok(ProtocolMessage::Request(Request::from_json(j)?))
        } else if same_text(kind.as_str(), "response") {
            Ok(ProtocolMessage::Response(Response::from_json(j)?))
        } else if same_text(kind.as_str(), "event") {
            Ok(ProtocolMessage::Event(Event::from_json(j)?))
        } else {
            Err(DecodeError::InvalidField(owned("type")))
        }
    }
}

/// What a look-up in the JSON form of a request finds.
pub proof fn lemma_request_member(
    seq: int,
    command: Seq<char>,
    arguments: Option<JsonValue>,
    key: Seq<char>,
)
    ensures
        (MessageModel::Request { seq, command, arguments }).encode() is Object,
        (MessageModel::Request { seq, command, arguments }).encode().member(key) == if key
            == "type"@ {
            Some(JsonValue::Text("request"@))
        } else if key == "seq"@ {
            Some(JsonValue::Integer(seq))
        } else if key == "command"@ {
            Some(JsonValue::Text(command))
        } else if key == "arguments"@ {
            arguments
        } else {
            None
        },
{
    let f0 = Fields::new();
    let f1 = f0.text("type"@, "request"@);
    let f2 = f1.integer("seq"@, seq);
    let f3 = f2.text("command"@, command);
    f0.lemma_find_value("type"@, JsonValue::Text("request"@), key);
    f1.lemma_find_value("seq"@, JsonValue::Integer(seq), key);
    f2.lemma_find_value("command"@, JsonValue::Text(command), key);
    if arguments is Some {
        f3.lemma_find_value("arguments"@, arguments->0, key);
    }
}

/// What a look-up in the JSON form of a response finds.
pub proof fn lemma_response_member(
    seq: int,
    request_seq: int,
    success: bool,
    command: Seq<char>,
    message: Option<Seq<char>>,
    body: Option<JsonValue>,
    key: Seq<char>,
)
    ensures
        (MessageModel::Response { seq, request_seq, success, command, message, body }).encode()
            is Object,
        (MessageModel::Response { seq, request_seq, success, command, message, body }).encode()
            .member(key) == if key == "type"@ {
            Some(JsonValue::Text("response"@))
        } else if key == "seq"@ {
            Some(JsonValue::Integer(seq))
        } else if key == "request_seq"@ {
            Some(JsonValue::Integer(request_seq))
        } else if key == "success"@ {
            Some(JsonValue::Bool(success))
        } else if key == "command"@ {
            Some(JsonValue::Text(command))
        } else if key == "message"@ && message is Some {
            Some(JsonValue::Text(message->0))
        } else if key == "body"@ {
            body
        } else {
            None
        },
{
    let f0 = Fields::new();
    let f1 = f0.text("type"@, "response"@);
    let f2 = f1.integer("seq"@, seq);
    let f3 = f2.integer("request_seq"@, request_seq);
    let f4 = f3.boolean("success"@, success);
    let f5 = f4.text("command"@, command);
    let f6 = f5.opt_value(
        "message"@,
        match message {
            Some(m) => Some(JsonValue::Text(m)),
            None => None,
        },
    );
    f0.lemma_find_value("type"@, JsonValue::Text("response"@), key);
    f1.lemma_find_value("seq"@, JsonValue::Integer(seq), key);
    f2.lemma_find_value("request_seq"@, JsonValue::Integer(request_seq), key);
    f3.lemma_find_value("success"@, JsonValue::Bool(success), key);
    f4.lemma_find_value("command"@, JsonValue::Text(command), key);
    if message is Some {
        f5.lemma_find_value("message"@, JsonValue::Text(message->0), key);
    }
    if body is Some {
        f6.lemma_find_value("body"@, body->0, key);
    }
}

/// What a look-up in the JSON form of an event finds.
pub proof fn lemma_event_member(seq: int, event: Seq<char>, body: Option<JsonValue>, key: Seq<char>)
    ensures
        (MessageModel::Event { seq, event, body }).encode() is Object,
        (MessageModel::Event { seq, event, body }).encode().member(key) == if key == "type"@ {
            Some(JsonValue::Text("event"@))
        } else if key == "seq"@ {
            Some(JsonValue::Integer(seq))
        } else if key == "event"@ {
            Some(JsonValue::Text(event))
        } else if key == "body"@ {
            body
        } else {
            None
        },
{
    let f0 = Fields::new();
    let f1 = f0.text("type"@, "event"@);
    let f2 = f1.integer("seq"@, seq);
    let f3 = f2.text("event"@, event);
    f0.lemma_find_value("type"@, JsonValue::Text("event"@), key);
    f1.lemma_find_value("seq"@, JsonValue::Integer(seq), key);
    f2.lemma_find_value("event"@, JsonValue::Text(event), key);
    if body is Some {
        f3.lemma_find_value("body"@, body->0, key);
    }
}

/// The names of the members of a message are all different.
pub proof fn lemma_member_names_differ()
    ensures
        "type"@ != "seq"@,
        "type"@ != "command"@,
        "type"@ != "arguments"@,
        "type"@ != "request_seq"@,
        "type"@ != "success"@,
        "type"@ != "message"@,
        "type"@ != "body"@,
        "type"@ != "event"@,
        "seq"@ != "command"@,
        "seq"@ != "arguments"@,
        "seq"@ != "request_seq"@,
        "seq"@ != "success"@,
        "seq"@ != "message"@,
        "seq"@ != "body"@,
        "seq"@ != "event"@,
        "command"@ != "arguments"@,
        "command"@ != "request_seq"@,
        "command"@ != "success"@,
        "command"@ != "message"@,
        "command"@ != "body"@,
        "request_seq"@ != "success"@,
        "request_seq"@ != "message"@,
        "request_seq"@ != "body"@,
        "success"@ != "message"@,
        "success"@ != "body"@,
        "message"@ != "body"@,
        "event"@ != "body"@,
        "request"@ != "response"@,
        "request"@ != "event"@,
        "response"@ != "event"@,
{
    reveal_strlit("type");
    reveal_strlit("seq");
    reveal_strlit("command");
    reveal_strlit("arguments");
    reveal_strlit("request_seq");
    reveal_strlit("success");
    reveal_strlit("message");
    reveal_strlit("body");
    reveal_strlit("event");
    reveal_strlit("request");
    reveal_strlit("response");
    assert("type"@.len() == 4 && "seq"@.len() == 3 && "command"@.len() == 7);
    assert("arguments"@.len() == 9 && "request_seq"@.len() == 11 && "success"@.len() == 7);
    assert("request"@.len() == 7 && "response"@.len() == 8);
    assert("type"@[0] != "body"@[0]);
    assert("command"@[0] != "success"@[0]);
}

/// Reading the JSON form of a message gives the message back.
///
/// The one exception is a message whose payload is the JSON null: it is read
/// back as a message without payload.
pub proof fn lemma_decode_encode(m: MessageModel)
    requires
        !m.has_null_payload(),
    ensures
        MessageModel::decode(m.encode()) == Ok::<MessageModel, Flaw>(m),
{
    lemma_member_names_differ();
    match m {
        MessageModel::Request { seq, command, arguments } => {
            lemma_request_member(seq, command, arguments, "type"@);
            lemma_request_member(seq, command, arguments, "seq"@);
            lemma_request_member(seq, command, arguments, "command"@);
            lemma_request_member(seq, command, arguments, "arguments"@);
        },
        MessageModel::Response { seq, request_seq, success, command, message, body } => {
            lemma_response_member(seq, request_seq, success, command, message, body, "type"@);
            lemma_response_member(seq, request_seq, success, command, message, body, "seq"@);
            lemma_response_member(
                seq,
                request_seq,
                success,
                command,
                message,
                body,
                "request_seq"@,
            );
            lemma_response_member(seq, request_seq, success, command, message, body, "success"@);
            lemma_response_member(seq, request_seq, success, command, message, body, "command"@);
            lemma_response_member(seq, request_seq, success, command, message, body, "message"@);
            lemma_response_member(seq, request_seq, success, command, message, body, "body"@);
        },
        MessageModel::Event { seq, event, body } => {
            lemma_event_member(seq, event, body, "type"@);
            lemma_event_member(seq, event, body, "seq"@);
            lemma_event_member(seq, event, body, "event"@);
            lemma_event_member(seq, event, body, "body"@);
        },
    }
}

} // verus!
