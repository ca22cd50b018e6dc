use echo_node::codec::{decode, encode};
use echo_node::message::{DecodeError, Field, Message, MessageBody, Payload};
use echo_node::node::{Node, NodeError};

const INIT_LINE: &str =
    r#"{"src":"c1","dest":"n1","body":{"type":"init","msg_id":1,"node_id":"n1","node_ids":["n1"]}}"#;
const ECHO_LINE: &str = r#"{"src":"c1","dest":"n1","body":{"type":"echo","msg_id":2,"echo":"hello"}}"#;

fn message(src: &str, dest: &str, msg_id: Option<usize>, payload: Payload) -> Message {
    Message {
        src: src.to_string(),
        dest: dest.to_string(),
        body: MessageBody { msg_id, in_reply_to: None, payload },
    }
}

fn echo(text: &str) -> Payload {
    Payload::Echo { echo: text.to_string() }
}

#[test]
fn init_is_answered_with_init_ok() {
    let mut node = Node::new();
    let out = node.process_line(INIT_LINE, true);
    assert_eq!(
        out,
        Ok(Some(
            r#"{"src":"n1","dest":"c1","body":{"type":"init_ok","msg_id":0,"in_reply_to":1}}"#.to_string()
        ))
    );
    assert_eq!(node.counter(), 1);
}

#[test]
fn echo_after_init_is_echoed() {
    let mut node = Node::new();
    node.process_line(INIT_LINE, true).unwrap();
    let out = node.process_line(ECHO_LINE, false);
    assert_eq!(
        out,
        Ok(Some(
            r#"{"src":"n1","dest":"c1","body":{"type":"echo_ok","msg_id":1,"in_reply_to":2,"echo":"hello"}}"#
                .to_string()
        ))
    );
    assert_eq!(node.counter(), 2);
}

#[test]
fn echo_before_init_is_refused() {
    let mut node = Node::new();
    let line = r#"{"src":"c1","dest":"n1","body":{"type":"echo","msg_id":1,"echo":"x"}}"#;
    assert_eq!(node.process_line(line, true), Err(NodeError::NotInit));
    assert_eq!(node.counter(), 0);
}

#[test]
fn first_line_not_json_fails_to_decode() {
    let mut node = Node::new();
    assert_eq!(
        node.process_line("not json", true),
        Err(NodeError::Decode(DecodeError::NotJson))
    );
    assert_eq!(node.counter(), 0);
}

#[test]
fn echo_ok_after_session_gets_no_reply() {
    let mut node = Node::new();
    node.process_line(INIT_LINE, true).unwrap();
    node.process_line(ECHO_LINE, false).unwrap();
    let line = r#"{"src":"n1","dest":"c1","body":{"type":"echo_ok","msg_id":3,"in_reply_to":1,"echo":"hello"}}"#;
    assert_eq!(node.process_line(line, false), Ok(None));
    assert_eq!(node.counter(), 2);
}

#[test]
fn round_trip_keeps_every_field() {
    let samples = vec![
        Message {
            src: "c1".to_string(),
            dest: "n1".to_string(),
            body: MessageBody {
                msg_id: Some(7),
                in_reply_to: None,
                payload: Payload::Init {
                    node_id: "n1".to_string(),
                    node_ids: vec!["n1".to_string(), "n2".to_string(), "n3".to_string()],
                },
            },
        },
        Message {
            src: "n1".to_string(),
            dest: "c1".to_string(),
            body: MessageBody { msg_id: None, in_reply_to: Some(4), payload: Payload::InitOk },
        },
        message("a", "b", Some(0), echo("quote \" backslash \\ newline \n tab \t é")),
        Message {
            src: "".to_string(),
            dest: "x".to_string(),
            body: MessageBody {
                msg_id: Some(usize::MAX),
                in_reply_to: Some(0),
                payload: Payload::EchoOk { echo: "".to_string() },
            },
        },
        Message {
            src: "c".to_string(),
            dest: "n".to_string(),
            body: MessageBody {
                msg_id: None,
                in_reply_to: None,
                payload: Payload::Init { node_id: "n".to_string(), node_ids: vec![] },
            },
        },
    ];
    for m in samples {
        let line = encode(&m);
        assert!(!line.contains('\n'));
        assert_eq!(decode(&line), Ok(m));
    }
}

#[test]
fn absent_ids_are_omitted_not_null() {
    let m = Message {
        src: "n1".to_string(),
        dest: "c1".to_string(),
        body: MessageBody { msg_id: None, in_reply_to: None, payload: Payload::InitOk },
    };
    assert_eq!(encode(&m), r#"{"src":"n1","dest":"c1","body":{"type":"init_ok"}}"#);
}

#[test]
fn encode_escapes_strings() {
    let m = message("c1", "n1", Some(12), echo("say \"hi\"\n"));
    assert_eq!(
        encode(&m),
        r#"{"src":"c1","dest":"n1","body":{"type":"echo","msg_id":12,"echo":"say \"hi\"\n"}}"#
    );
}

#[test]
fn encode_writes_peer_list() {
    let m = Message {
        src: "c1".to_string(),
        dest: "n1".to_string(),
        body: MessageBody {
            msg_id: Some(1),
            in_reply_to: None,
            payload: Payload::Init {
                node_id: "n1".to_string(),
                node_ids: vec!["n1".to_string(), "n2".to_string()],
            },
        },
    };
    assert_eq!(encode(&m), INIT_LINE.replace(r#"["n1"]"#, r#"["n1","n2"]"#));
}

#[test]
fn decode_reads_escaped_text() {
    let line = r#"{"src":"c1","dest":"n1","body":{"type":"echo","echo":"a\"bé"}}"#;
    assert_eq!(decode(line), Ok(message("c1", "n1", None, echo("a\"bé"))));
}

#[test]
fn decode_ignores_member_order_and_extra_members() {
    let line = r#"{"body":{"echo":"x","extra":[1,2],"msg_id":null,"type":"echo"},"dest":"n1","src":"c1","z":0}"#;
    assert_eq!(decode(line), Ok(message("c1", "n1", None, echo("x"))));
}

#[test]
fn decode_errors_name_their_cause() {
    let cases: Vec<(&str, DecodeError)> = vec![
        ("not json", DecodeError::NotJson),
        ("{\"src\":", DecodeError::NotJson),
        ("[1,2]", DecodeError::NotAnObject),
        (r#"{"dest":"n1","body":{"type":"init_ok"}}"#, DecodeError::MissingField(Field::Src)),
        (r#"{"src":1,"dest":"n1","body":{"type":"init_ok"}}"#, DecodeError::WrongKind(Field::Src)),
        (r#"{"src":"c1","body":{"type":"init_ok"}}"#, DecodeError::MissingField(Field::Dest)),
        (r#"{"src":"c1","dest":"n1"}"#, DecodeError::MissingField(Field::Body)),
        (r#"{"src":"c1","dest":"n1","body":"x"}"#, DecodeError::WrongKind(Field::Body)),
        (r#"{"src":"c1","dest":"n1","body":{}}"#, DecodeError::MissingField(Field::Type)),
        (r#"{"src":"c1","dest":"n1","body":{"type":3}}"#, DecodeError::WrongKind(Field::Type)),
        (r#"{"src":"c1","dest":"n1","body":{"type":"Echo","echo":"x"}}"#, DecodeError::UnknownType),
        (r#"{"src":"c1","dest":"n1","body":{"type":"ping"}}"#, DecodeError::UnknownType),
        (r#"{"src":"c1","dest":"n1","body":{"type":"echo"}}"#, DecodeError::MissingField(Field::Echo)),
        (r#"{"src":"c1","dest":"n1","body":{"type":"echo_ok","echo":5}}"#, DecodeError::WrongKind(Field::Echo)),
        (r#"{"src":"c1","dest":"n1","body":{"type":"init","node_ids":[]}}"#, DecodeError::MissingField(Field::NodeId)),
        (r#"{"src":"c1","dest":"n1","body":{"type":"init","node_id":"n1"}}"#, DecodeError::MissingField(Field::NodeIds)),
        (r#"{"src":"c1","dest":"n1","body":{"type":"init","node_id":"n1","node_ids":["a",2]}}"#, DecodeError::WrongKind(Field::NodeIds)),
        (r#"{"src":"c1","dest":"n1","body":{"type":"init_ok","msg_id":-1}}"#, DecodeError::WrongKind(Field::MsgId)),
        (r#"{"src":"c1","dest":"n1","body":{"type":"init_ok","msg_id":1.5}}"#, DecodeError::WrongKind(Field::MsgId)),
        (r#"{"src":"c1","dest":"n1","body":{"type":"init_ok","in_reply_to":"1"}}"#, DecodeError::WrongKind(Field::InReplyTo)),
    ];
    for (line, expected) in cases {
        assert_eq!(decode(line), Err(expected), "{}", line);
    }
}

#[test]
fn echo_returns_the_same_text() {
    for text in ["", "hello", "with \"quotes\" and \\ and \u{1F600}", "  spaced  "] {
        let mut node = Node::new();
        let reply = node.handle(message("c1", "n1", Some(5), echo(text))).unwrap();
        assert_eq!(reply.body.payload, Payload::EchoOk { echo: text.to_string() });
    }
}

#[test]
fn replies_are_addressed_back() {
    let mut node = Node::new();
    let reply = node.handle(message("client-9", "node-3", Some(41), echo("x"))).unwrap();
    assert_eq!(reply.src, "node-3");
    assert_eq!(reply.dest, "client-9");
    assert_eq!(reply.body.in_reply_to, Some(41));
    assert_eq!(reply.body.msg_id, Some(0));
}

#[test]
fn missing_request_id_propagates_as_absent() {
    let mut node = Node::new();
    let reply = node.handle(message("c1", "n1", None, echo("x"))).unwrap();
    assert_eq!(reply.body.in_reply_to, None);
}

#[test]
fn ids_are_consecutive_and_skip_acknowledgements() {
    let mut node = Node::new();
    let inputs = vec![
        message("c1", "n1", Some(1), Payload::Init { node_id: "n1".to_string(), node_ids: vec![] }),
        message("c1", "n1", Some(2), Payload::InitOk),
        message("c1", "n1", Some(3), echo("a")),
        message("c1", "n1", Some(4), Payload::EchoOk { echo: "a".to_string() }),
        message("c1", "n1", Some(5), Payload::EchoOk { echo: "b".to_string() }),
        message("c1", "n1", Some(6), echo("b")),
        message("c1", "n1", Some(7), echo("c")),
    ];
    let mut ids = Vec::new();
    for m in inputs {
        if let Some(reply) = node.handle(m) {
            ids.push(reply.body.msg_id.unwrap());
        }
    }
    assert_eq!(ids, vec![0, 1, 2, 3]);
    assert_eq!(node.counter(), 4);
}

#[test]
fn acknowledgements_get_no_reply() {
    let mut node = Node::new();
    assert_eq!(node.handle(message("c1", "n1", Some(1), Payload::InitOk)), None);
    assert_eq!(node.handle(message("c1", "n1", None, Payload::EchoOk { echo: "e".to_string() })), None);
    assert_eq!(node.counter(), 0);
}

#[test]
fn handle_first_refuses_everything_but_init() {
    let others = vec![echo("x"), Payload::InitOk, Payload::EchoOk { echo: "x".to_string() }];
    for p in others {
        let mut node = Node::new();
        assert_eq!(node.handle_first(message("c1", "n1", Some(1), p)), Err(NodeError::NotInit));
        assert_eq!(node.counter(), 0);
    }
    let mut node = Node::new();
    let init = Payload::Init { node_id: "n1".to_string(), node_ids: vec!["n1".to_string()] };
    let reply = node.handle_first(message("c1", "n1", Some(1), init)).unwrap();
    assert_eq!(reply.body.payload, Payload::InitOk);
    assert_eq!(node.counter(), 1);
}

#[test]
fn undecodable_line_changes_nothing() {
    let mut node = Node::new();
    node.process_line(INIT_LINE, true).unwrap();
    assert_eq!(
        node.process_line(r#"{"src":"c1"}"#, false),
        Err(NodeError::Decode(DecodeError::MissingField(Field::Dest)))
    );
    assert_eq!(node.counter(), 1);
}

#[test]
fn later_init_is_answered_too() {
    let mut node = Node::new();
    node.process_line(INIT_LINE, true).unwrap();
    let out = node.process_line(INIT_LINE, false).unwrap().unwrap();
    assert_eq!(out, r#"{"src":"n1","dest":"c1","body":{"type":"init_ok","msg_id":1,"in_reply_to":1}}"#);
}

#[test]
fn field_names_match_the_wire() {
    assert_eq!(Field::InReplyTo.name(), "in_reply_to");
    assert_eq!(Field::NodeIds.name(), "node_ids");
}
