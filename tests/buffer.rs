use pine_ws_bridge::{expand_write_buffer, le_word, resolve_target, BufferError, Command, ConfigError, Endpoint};

#[test]
fn two_words_little_endian() {
    let buf: Vec<u8> = (1..=16).collect();
    let cmds = expand_write_buffer(0x2000, &buf).unwrap();
    assert_eq!(
        cmds,
        vec![
            Command::MsgWrite64 { mem: 0x2000, val: 0x0807060504030201 },
            Command::MsgWrite64 { mem: 0x2008, val: 0x100f0e0d0c0b0a09 },
        ]
    );
}

#[test]
fn empty_buffer_gives_no_writes() {
    assert_eq!(expand_write_buffer(0xFFFF_FFFF, &vec![]), Ok(vec![]));
}

#[test]
fn partial_word_rejected() {
    assert_eq!(expand_write_buffer(0, &vec![0; 7]), Err(BufferError::PartialWord));
    assert_eq!(expand_write_buffer(0, &vec![0; 9]), Err(BufferError::PartialWord));
}

#[test]
fn address_space_edge() {
    assert_eq!(expand_write_buffer(0xFFFF_FFFC, &vec![0; 16]), Err(BufferError::PastAddressSpace));
    assert_eq!(expand_write_buffer(0xFFFF_FFFC, &vec![0; 8]).unwrap().len(), 1);
    let ok = expand_write_buffer(0xFFFF_FFF7, &vec![0xff; 8]).unwrap();
    assert_eq!(ok, vec![Command::MsgWrite64 { mem: 0xFFFF_FFF7, val: u64::MAX }]);
}

#[test]
fn word_at_offset() {
    let buf = vec![0, 0, 0xEF, 0xBE, 0xAD, 0xDE, 0, 0, 0, 0];
    assert_eq!(le_word(&buf, 2), 0xDEADBEEF);
}

#[test]
fn known_targets() {
    assert_eq!(resolve_target("pcsx2", None), Ok(Endpoint { slot: 28011, auto: true }));
    assert_eq!(resolve_target("rpcs3", None), Ok(Endpoint { slot: 28012, auto: true }));
    assert_eq!(resolve_target("duckstation", Some(5)), Ok(Endpoint { slot: 5, auto: false }));
}

#[test]
fn other_targets_need_a_slot() {
    assert_eq!(resolve_target("dolphin", Some(9000)), Ok(Endpoint { slot: 9000, auto: false }));
    assert_eq!(resolve_target("dolphin", None), Err(ConfigError::SlotRequired));
}
