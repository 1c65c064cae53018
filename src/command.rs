use vstd::prelude::*;

verus! {

/// Run state of the emulator as the backend reports it.
#[derive(Clone, Copy, Debug, PartialEq, Eq, Structural)]
pub enum Status {
    Running,
    Paused,
    Shutdown,
    Unknown,
}

/// One backend operation.
#[derive(Clone, Copy, Debug, PartialEq, Eq, Structural)]
pub enum Command {
    MsgRead8 { mem: u32 },
    MsgRead16 { mem: u32 },
    MsgRead32 { mem: u32 },
    MsgRead64 { mem: u32 },
    MsgWrite8 { mem: u32, val: u8 },
    MsgWrite16 { mem: u32, val: u16 },
    MsgWrite32 { mem: u32, val: u32 },
    MsgWrite64 { mem: u32, val: u64 },
    MsgVersion,
    MsgSaveState { sta: u8 },
    MsgLoadState { sta: u8 },
    MsgTitle,
    MsgID,
    MsgUUID,
    MsgGameVersion,
    MsgStatus,
    MsgUnimplemented,
}

/// The backend's answer to one command.
#[derive(Clone, Debug, PartialEq, Eq)]
pub enum Response {
    ResRead8 { val: u8 },
    ResRead16 { val: u16 },
    ResRead32 { val: u32 },
    ResRead64 { val: u64 },
    ResWrite8,
    ResWrite16,
    ResWrite32,
    ResWrite64,
    ResVersion { version: String },
    ResSaveState,
    ResLoadState,
    ResTitle { title: String },
    ResID { id: String },
    ResUUID { uuid: String },
    ResGameVersion { version: String },
    ResStatus { status: Status },
    ResUnimplemented,
}

/// `r` has the shape of an answer to `c`: the variant that mirrors it.
pub open spec fn answers(c: Command, r: Response) -> bool {
    match c {
        Command::MsgRead8 { .. } => r is ResRead8,
        Command::MsgRead16 { .. } => r is ResRead16,
        Command::MsgRead32 { .. } => r is ResRead32,
        Command::MsgRead64 { .. } => r is ResRead64,
        Command::MsgWrite8 { .. } => r is ResWrite8,
        Command::MsgWrite16 { .. } => r is ResWrite16,
        Command::MsgWrite32 { .. } => r is ResWrite32,
        Command::MsgWrite64 { .. } => r is ResWrite64,
        Command::MsgVersion => r is ResVersion,
        Command::MsgSaveState { .. } => r is ResSaveState,
        Command::MsgLoadState { .. } => r is ResLoadState,
        Command::MsgTitle => r is ResTitle,
        Command::MsgID => r is ResID,
        Command::MsgUUID => r is ResUUID,
        Command::MsgGameVersion => r is ResGameVersion,
        Command::MsgStatus => r is ResStatus,
        Command::MsgUnimplemented => r is ResUnimplemented,
    }
}

/// Whether `r` answers `c`.
pub fn is_answer(c: &Command, r: &Response) -> (b: bool)
    ensures
        b == answers(*c, *r),
{
    match c {
        Command::MsgRead8 { .. } => matches!(r, Response::ResRead8 { .. }),
        Command::MsgRead16 { .. } => matches!(r, Response::ResRead16 { .. }),
        Command::MsgRead32 { .. } => matches!(r, Response::ResRead32 { .. }),
        Command::MsgRead64 { .. } => matches!(r, Response::ResRead64 { .. }),
        Command::MsgWrite8 { .. } => matches!(r, Response::ResWrite8),
        Command::MsgWrite16 { .. } => matches!(r, Response::ResWrite16),
        Command::MsgWrite32 { .. } => matches!(r, Response::ResWrite32),
        Command::MsgWrite64 { .. } => matches!(r, Response::ResWrite64),
        Command::MsgVersion => matches!(r, Response::ResVersion { .. }),
        Command::MsgSaveState { .. } => matches!(r, Response::ResSaveState),
        Command::MsgLoadState { .. } => matches!(r, Response::ResLoadState),
        Command::MsgTitle => matches!(r, Response::ResTitle { .. }),
        Command::MsgID => matches!(r, Response::ResID { .. }),
        Command::MsgUUID => matches!(r, Response::ResUUID { .. }),
        Command::MsgGameVersion => matches!(r, Response::ResGameVersion { .. }),
        Command::MsgStatus => matches!(r, Response::ResStatus { .. }),
        Command::MsgUnimplemented => matches!(r, Response::ResUnimplemented),
    }
}

} // verus!
