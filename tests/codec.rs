use pine_ws_bridge::{
    decode_command, decode_response, decode_status, encode_response, encode_status, CodecError,
    Command, Record, Response, Scalar, Status,
};

fn rec(pairs: &[(&str, Scalar)]) -> Record {
    Record { entries: pairs.iter().map(|(k, v)| (k.to_string(), v.clone())).collect() }
}

fn text(s: &str) -> Scalar {
    Scalar::Text(s.to_string())
}

#[test]
fn response_round_trip_read32() {
    let r = Response::ResRead32 { val: 0xDEADBEEF };
    let e = encode_response(&r);
    assert_eq!(e, rec(&[("command", text("ResRead32")), ("val", Scalar::Num(3735928559))]));
    assert_eq!(decode_response(&e), Ok(r));
}

#[test]
fn response_round_trip_every_shape() {
    let all = vec![
        Response::ResRead8 { val: 255 },
        Response::ResRead16 { val: 65535 },
        Response::ResRead64 { val: u64::MAX },
        Response::ResWrite8,
        Response::ResWrite16,
        Response::ResWrite32,
        Response::ResWrite64,
        Response::ResVersion { version: "PCSX2 v2.0".to_string() },
        Response::ResSaveState,
        Response::ResLoadState,
        Response::ResTitle { title: "Game".to_string() },
        Response::ResID { id: "SLUS-20002".to_string() },
        Response::ResUUID { uuid: "abcd".to_string() },
        Response::ResGameVersion { version: "1.00".to_string() },
        Response::ResStatus { status: Status::Paused },
        Response::ResUnimplemented,
    ];
    for r in all {
        assert_eq!(decode_response(&encode_response(&r)), Ok(r.clone()));
    }
}

#[test]
fn status_is_written_by_name() {
    let e = encode_response(&Response::ResStatus { status: Status::Shutdown });
    assert_eq!(e, rec(&[("command", text("ResStatus")), ("status", text("Shutdown"))]));
    assert_eq!(encode_status(Status::Running), "Running");
    assert_eq!(decode_status(&"Unknown".to_string()), Some(Status::Unknown));
    assert_eq!(decode_status(&"running".to_string()), None);
}

#[test]
fn command_with_fields_decodes() {
    let r = rec(&[("command", text("MsgWrite16")), ("mem", Scalar::Num(16)), ("val", Scalar::Num(513))]);
    assert_eq!(decode_command(&r), Ok(Command::MsgWrite16 { mem: 16, val: 513 }));
    let r = rec(&[("mem", Scalar::Num(4096)), ("command", text("MsgRead32"))]);
    assert_eq!(decode_command(&r), Ok(Command::MsgRead32 { mem: 4096 }));
    let r = rec(&[("command", text("MsgStatus")), ("extra", Scalar::Other)]);
    assert_eq!(decode_command(&r), Ok(Command::MsgStatus));
}

#[test]
fn command_errors() {
    assert_eq!(decode_command(&rec(&[("mem", Scalar::Num(1))])), Err(CodecError::MissingTag));
    assert_eq!(decode_command(&rec(&[("command", Scalar::Num(1))])), Err(CodecError::MissingTag));
    assert_eq!(decode_command(&rec(&[("command", text("MsgFly"))])), Err(CodecError::UnknownTag));
    let r = rec(&[("command", text("MsgWrite8")), ("mem", Scalar::Num(0)), ("val", Scalar::Num(256))]);
    assert_eq!(decode_command(&r), Err(CodecError::BadField));
    let r = rec(&[("command", text("MsgRead8")), ("mem", text("0"))]);
    assert_eq!(decode_command(&r), Err(CodecError::BadField));
    let r = rec(&[("command", text("MsgSaveState"))]);
    assert_eq!(decode_command(&r), Err(CodecError::BadField));
    assert!(!CodecError::BadField.describe().is_empty());
}

#[test]
fn response_errors() {
    assert_eq!(decode_response(&rec(&[("command", text("ResFly"))])), Err(CodecError::UnknownTag));
    let r = rec(&[("command", text("ResStatus")), ("status", text("Asleep"))]);
    assert_eq!(decode_response(&r), Err(CodecError::BadField));
    let r = rec(&[("command", text("ResTitle")), ("title", Scalar::Num(3))]);
    assert_eq!(decode_response(&r), Err(CodecError::BadField));
}
