use pine_ws_bridge::{
    decode_request, CodecError, RequestError,
    accept_path, check_results, encode_reply, finish, next_step, plan, plan_message, BufferError,
    Command, Event, Message, Node, Outgoing, Plan, Record, Reply, Request, Response, Scalar, Status,
    Step,
};

fn text(s: &str) -> Scalar {
    Scalar::Text(s.to_string())
}

fn rec(pairs: &[(&str, Scalar)]) -> Record {
    Record { entries: pairs.iter().map(|(k, v)| (k.to_string(), v.clone())).collect() }
}

fn msg(pairs: Vec<(&str, Node)>) -> Message {
    Message { entries: pairs.into_iter().map(|(k, v)| (k.to_string(), v)).collect() }
}

fn error_text(out: &Outgoing) -> String {
    match out {
        Outgoing::Structured(m) => {
            assert_eq!(m.entries.len(), 1);
            assert_eq!(m.entries[0].0, "error");
            match &m.entries[0].1 {
                Node::Scalar(Scalar::Text(t)) => t.clone(),
                other => panic!("not an error text: {:?}", other),
            }
        }
        Outgoing::Plain(t) => panic!("plain text: {}", t),
    }
}

#[test]
fn execute_command_read32() {
    let m = msg(vec![
        ("command", Node::Scalar(text("execute_command"))),
        ("cmd", Node::Record(rec(&[("command", text("MsgRead32")), ("mem", Scalar::Num(4096))]))),
    ]);
    let p = plan_message(&m).unwrap();
    assert_eq!(p, Plan { batch: vec![Command::MsgRead32 { mem: 4096 }], single: true });
    let reply = finish(&p, Ok(vec![Response::ResRead32 { val: 0xDEADBEEF }]));
    assert_eq!(reply, Reply::Single(Response::ResRead32 { val: 0xDEADBEEF }));
    let out = encode_reply(&reply);
    let expected = msg(vec![(
        "res",
        Node::Record(rec(&[("command", text("ResRead32")), ("val", Scalar::Num(3735928559))])),
    )]);
    assert_eq!(out, Outgoing::Structured(expected));
}

#[test]
fn write_buffer_one_word() {
    let m = msg(vec![
        ("command", Node::Scalar(text("write_buffer"))),
        ("address", Node::Scalar(Scalar::Num(0x1000))),
        ("buffer", Node::Scalar(text("AQIDBAUGBwg="))),
    ]);
    let p = plan_message(&m).unwrap();
    assert_eq!(p.batch, vec![Command::MsgWrite64 { mem: 0x1000, val: 0x0807060504030201 }]);
    assert!(!p.single);
    let reply = finish(&p, Ok(vec![Response::ResWrite64]));
    assert_eq!(reply, Reply::Batch(vec![Response::ResWrite64]));
    let expected = msg(vec![("res", Node::List(vec![rec(&[("command", text("ResWrite64"))])]))]);
    assert_eq!(encode_reply(&reply), Outgoing::Structured(expected));
}

#[test]
fn write_buffer_unpadded_base64() {
    let m = msg(vec![
        ("command", Node::Scalar(text("write_buffer"))),
        ("address", Node::Scalar(Scalar::Num(8))),
        ("buffer", Node::Scalar(text("AAAAAAAAAAA"))),
    ]);
    let p = plan_message(&m).unwrap();
    assert_eq!(p.batch, vec![Command::MsgWrite64 { mem: 8, val: 0 }]);
}

#[test]
fn write_buffer_partial_word_is_invalid() {
    let m = msg(vec![
        ("command", Node::Scalar(text("write_buffer"))),
        ("address", Node::Scalar(Scalar::Num(0))),
        ("buffer", Node::Scalar(text("AQID"))),
    ]);
    let reply = plan_message(&m).unwrap_err();
    assert_eq!(reply, Reply::Invalid(BufferError::PartialWord));
    assert_eq!(error_text(&encode_reply(&reply)), "Invalid buffer: length is not a multiple of 8");
}

#[test]
fn bad_base64_is_unparsed() {
    let m = msg(vec![
        ("command", Node::Scalar(text("write_buffer"))),
        ("address", Node::Scalar(Scalar::Num(0))),
        ("buffer", Node::Scalar(text("!!!"))),
    ]);
    let reply = plan_message(&m).unwrap_err();
    assert!(matches!(reply, Reply::Unparsed(_)));
    match encode_reply(&reply) {
        Outgoing::Plain(t) => assert!(t.starts_with("Failed to parse command: ")),
        other => panic!("{:?}", other),
    }
}

#[test]
fn unknown_envelope_is_unparsed() {
    let m = msg(vec![("command", Node::Scalar(text("launch")))]);
    assert!(matches!(plan_message(&m), Err(Reply::Unparsed(_))));
    let m = msg(vec![
        ("command", Node::Scalar(text("execute_batch"))),
        ("batch", Node::List(vec![rec(&[("command", text("MsgStatus"))]), rec(&[("command", text("Nope"))])])),
    ]);
    assert!(matches!(plan_message(&m), Err(Reply::Unparsed(_))));
}

#[test]
fn batch_transport_error_gives_one_error_envelope() {
    let m = msg(vec![
        ("command", Node::Scalar(text("execute_batch"))),
        (
            "batch",
            Node::List(vec![rec(&[("command", text("MsgStatus"))]), rec(&[("command", text("MsgTitle"))])]),
        ),
    ]);
    let p = plan_message(&m).unwrap();
    assert_eq!(p.batch, vec![Command::MsgStatus, Command::MsgTitle]);
    let reply = finish(&p, Err("broken pipe".to_string()));
    assert_eq!(reply, Reply::Failed("broken pipe".to_string()));
    assert_eq!(error_text(&encode_reply(&reply)), "Failed to send command: broken pipe");
    assert_eq!(next_step(Event::Sent), Step::Next);
    assert_eq!(next_step(Event::Text), Step::Dispatch);
}

#[test]
fn batch_results_in_order() {
    let p = plan(Request::ExecuteBatch(vec![Command::MsgStatus, Command::MsgRead8 { mem: 1 }])).unwrap();
    let res = vec![Response::ResStatus { status: Status::Running }, Response::ResRead8 { val: 7 }];
    assert!(check_results(&p.batch, &res));
    assert_eq!(finish(&p, Ok(res.clone())), Reply::Batch(res));
}

#[test]
fn mismatched_results_are_refused() {
    let p = plan(Request::ExecuteBatch(vec![Command::MsgStatus, Command::MsgRead8 { mem: 1 }])).unwrap();
    let short = vec![Response::ResStatus { status: Status::Running }];
    assert!(!check_results(&p.batch, &short));
    assert_eq!(finish(&p, Ok(short)), Reply::Mismatched);
    let swapped = vec![Response::ResRead8 { val: 7 }, Response::ResStatus { status: Status::Running }];
    assert_eq!(finish(&p, Ok(swapped)), Reply::Mismatched);
    let single = plan(Request::ExecuteCommand(Command::MsgStatus)).unwrap();
    assert_eq!(finish(&single, Ok(vec![])), Reply::Mismatched);
    assert_eq!(
        error_text(&encode_reply(&Reply::Mismatched)),
        "Failed to send command: results do not match the batch"
    );
}

#[test]
fn handshake_path() {
    assert!(accept_path("/"));
    assert!(!accept_path("/ws"));
    assert!(!accept_path(""));
}

#[test]
fn session_steps() {
    assert_eq!(next_step(Event::Close), Step::Stop);
    assert_eq!(next_step(Event::ReadFailed), Step::Stop);
    assert_eq!(next_step(Event::SendFailed), Step::Stop);
    assert_eq!(next_step(Event::Other), Step::Next);
}

#[test]
fn request_errors() {
    let m = msg(vec![("command", Node::Scalar(text("execute_command"))), ("cmd", Node::Scalar(text("x")))]);
    assert_eq!(decode_request(&m), Err(RequestError::BadEnvelope));
    let m = msg(vec![
        ("command", Node::Scalar(text("execute_command"))),
        ("cmd", Node::Record(rec(&[("command", text("MsgRead8"))]))),
    ]);
    assert_eq!(decode_request(&m), Err(RequestError::BadCommand(CodecError::BadField)));
    let m = msg(vec![
        ("command", Node::Scalar(text("execute_batch"))),
        ("batch", Node::List(vec![rec(&[("command", text("MsgID"))]), rec(&[("mem", Scalar::Num(1))])])),
    ]);
    assert_eq!(
        decode_request(&m),
        Err(RequestError::BadBatchEntry { index: 1, cause: CodecError::MissingTag })
    );
    let m = msg(vec![
        ("command", Node::Scalar(text("write_buffer"))),
        ("address", Node::Scalar(Scalar::Num(0x1_0000_0000))),
        ("buffer", Node::Scalar(text("AAAAAAAAAAA="))),
    ]);
    assert_eq!(decode_request(&m), Err(RequestError::BadEnvelope));
    let m = msg(vec![
        ("command", Node::Scalar(text("write_buffer"))),
        ("address", Node::Scalar(Scalar::Num(4))),
        ("buffer", Node::Scalar(text("@@@@"))),
    ]);
    assert_eq!(decode_request(&m), Err(RequestError::BadBase64));
    assert_eq!(decode_request(&msg(vec![])), Err(RequestError::BadEnvelope));
}

#[test]
fn empty_batch_is_sent_and_answered_empty() {
    let m = msg(vec![("command", Node::Scalar(text("execute_batch"))), ("batch", Node::List(vec![]))]);
    assert_eq!(decode_request(&m), Ok(Request::ExecuteBatch(vec![])));
    let p = plan_message(&m).unwrap();
    assert_eq!(finish(&p, Ok(vec![])), Reply::Batch(vec![]));
}

#[test]
fn three_results_render_exactly() {
    let reply = Reply::Batch(vec![
        Response::ResTitle { title: "abc".to_string() },
        Response::ResRead64 { val: u64::MAX },
        Response::ResStatus { status: Status::Paused },
    ]);
    let expected = msg(vec![(
        "res",
        Node::List(vec![
            rec(&[("command", text("ResTitle")), ("title", text("abc"))]),
            rec(&[("command", text("ResRead64")), ("val", Scalar::Num(18446744073709551615))]),
            rec(&[("command", text("ResStatus")), ("status", text("Paused"))]),
        ]),
    )]);
    assert_eq!(encode_reply(&reply), Outgoing::Structured(expected));
}

#[test]
fn error_descriptions() {
    assert_eq!(RequestError::BadEnvelope.describe(), "missing or malformed envelope");
    assert_eq!(RequestError::BadBase64.describe(), "invalid base64 buffer");
    assert_eq!(
        RequestError::BadCommand(CodecError::UnknownTag).describe(),
        "invalid command: unknown variant in field `command`"
    );
    assert_eq!(
        RequestError::BadBatchEntry { index: 2, cause: CodecError::MissingTag }.describe(),
        "invalid batch entry: missing text field `command`"
    );
    let m = msg(vec![("command", Node::Scalar(text("launch")))]);
    assert_eq!(
        plan_message(&m),
        Err(Reply::Unparsed("missing or malformed envelope".to_string()))
    );
}
