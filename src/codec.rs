use vstd::prelude::*;
use crate::command::{Command, Response, Status};
use crate::value::{has_num, has_string, has_text, lookup, position, text_at, Record, Scalar};

verus! {

/// The name under which a command is tagged.
pub open spec fn command_tag(c: Command) -> Seq<char> {
    match c {
        Command::MsgRead8 { .. } => "MsgRead8"@,
        Command::MsgRead16 { .. } => "MsgRead16"@,
        Command::MsgRead32 { .. } => "MsgRead32"@,
        Command::MsgRead64 { .. } => "MsgRead64"@,
        Command::MsgWrite8 { .. } => "MsgWrite8"@,
        Command::MsgWrite16 { .. } => "MsgWrite16"@,
        Command::MsgWrite32 { .. } => "MsgWrite32"@,
        Command::MsgWrite64 { .. } => "MsgWrite64"@,
        Command::MsgVersion => "MsgVersion"@,
        Command::MsgSaveState { .. } => "MsgSaveState"@,
        Command::MsgLoadState { .. } => "MsgLoadState"@,
        Command::MsgTitle => "MsgTitle"@,
        Command::MsgID => "MsgID"@,
        Command::MsgUUID => "MsgUUID"@,
        Command::MsgGameVersion => "MsgGameVersion"@,
        Command::MsgStatus => "MsgStatus"@,
        Command::MsgUnimplemented => "MsgUnimplemented"@,
    }
}

/// The name under which a response is tagged.
pub open spec fn response_tag(r: Response) -> Seq<char> {
    match r {
        Response::ResRead8 { .. } => "ResRead8"@,
        Response::ResRead16 { .. } => "ResRead16"@,
        Response::ResRead32 { .. } => "ResRead32"@,
        Response::ResRead64 { .. } => "ResRead64"@,
        Response::ResWrite8 => "ResWrite8"@,
        Response::ResWrite16 => "ResWrite16"@,
        Response::ResWrite32 => "ResWrite32"@,
        Response::ResWrite64 => "ResWrite64"@,
        Response::ResVersion { .. } => "ResVersion"@,
        Response::ResSaveState => "ResSaveState"@,
        Response::ResLoadState => "ResLoadState"@,
        Response::ResTitle { .. } => "ResTitle"@,
        Response::ResID { .. } => "ResID"@,
        Response::ResUUID { .. } => "ResUUID"@,
        Response::ResGameVersion { .. } => "ResGameVersion"@,
        Response::ResStatus { .. } => "ResStatus"@,
        Response::ResUnimplemented => "ResUnimplemented"@,
    }
}

/// The text that stands for a status.
pub open spec fn status_name(s: Status) -> Seq<char> {
    match s {
        Status::Running => "Running"@,
        Status::Paused => "Paused"@,
        Status::Shutdown => "Shutdown"@,
        Status::Unknown => "Unknown"@,
    }
}

pub open spec fn known_command_tag(t: Seq<char>) -> bool {
    t == "MsgRead8"@
    || t == "MsgRead16"@
    || t == "MsgRead32"@
    || t == "MsgRead64"@
    || t == "MsgWrite8"@
    || t == "MsgWrite16"@
    || t == "MsgWrite32"@
    || t == "MsgWrite64"@
    || t == "MsgVersion"@
    || t == "MsgSaveState"@
    || t == "MsgLoadState"@
    || t == "MsgTitle"@
    || t == "MsgID"@
    || t == "MsgUUID"@
    || t == "MsgGameVersion"@
    || t == "MsgStatus"@
    || t == "MsgUnimplemented"@
}

pub open spec fn known_response_tag(t: Seq<char>) -> bool {
    t == "ResRead8"@
    || t == "ResRead16"@
    || t == "ResRead32"@
    || t == "ResRead64"@
    || t == "ResWrite8"@
    || t == "ResWrite16"@
    || t == "ResWrite32"@
    || t == "ResWrite64"@
    || t == "ResVersion"@
    || t == "ResSaveState"@
    || t == "ResLoadState"@
    || t == "ResTitle"@
    || t == "ResID"@
    || t == "ResUUID"@
    || t == "ResGameVersion"@
    || t == "ResStatus"@
    || t == "ResUnimplemented"@
}

/// The entries `es` spell the command `c`: its tag under `command` and each of
/// its fields under the field's name. Other entries are ignored.
pub open spec fn describes_command(es: Seq<(String, Scalar)>, c: Command) -> bool {
    &&& has_text(es, "command"@, command_tag(c))
    &&& match c {
        Command::MsgRead8 { mem } => has_num(es, "mem"@, mem as u64),
        Command::MsgRead16 { mem } => has_num(es, "mem"@, mem as u64),
        Command::MsgRead32 { mem } => has_num(es, "mem"@, mem as u64),
        Command::MsgRead64 { mem } => has_num(es, "mem"@, mem as u64),
        Command::MsgWrite8 { mem, val } => has_num(es, "mem"@, mem as u64) && has_num(es, "val"@, val as u64),
        Command::MsgWrite16 { mem, val } => has_num(es, "mem"@, mem as u64) && has_num(es, "val"@, val as u64),
        Command::MsgWrite32 { mem, val } => has_num(es, "mem"@, mem as u64) && has_num(es, "val"@, val as u64),
        Command::MsgWrite64 { mem, val } => has_num(es, "mem"@, mem as u64) && has_num(es, "val"@, val as u64),
        Command::MsgSaveState { sta } => has_num(es, "sta"@, sta as u64),
        Command::MsgLoadState { sta } => has_num(es, "sta"@, sta as u64),
        _ => true,
    }
}

/// The entries `es` spell the response `r`.
pub open spec fn describes_response(es: Seq<(String, Scalar)>, r: Response) -> bool {
    &&& has_text(es, "command"@, response_tag(r))
    &&& match r {
        Response::ResRead8 { val } => has_num(es, "val"@, val as u64),
        Response::ResRead16 { val } => has_num(es, "val"@, val as u64),
        Response::ResRead32 { val } => has_num(es, "val"@, val as u64),
        Response::ResRead64 { val } => has_num(es, "val"@, val as u64),
        Response::ResVersion { version } => has_string(es, "version"@, version),
        Response::ResTitle { title } => has_string(es, "title"@, title),
        Response::ResID { id } => has_string(es, "id"@, id),
        Response::ResUUID { uuid } => has_string(es, "uuid"@, uuid),
        Response::ResGameVersion { version } => has_string(es, "version"@, version),
        Response::ResStatus { status } => has_text(es, "status"@, status_name(status)),
        _ => true,
    }
}

/// `es` is exactly the rendering of `r`: the tag under `command`, then, for a
/// response with a payload, that payload under its name, and nothing else.
pub open spec fn renders_response(es: Seq<(String, Scalar)>, r: Response) -> bool {
    &&& es.len() >= 1
    &&& es[0].0@ == "command"@
    &&& es[0].1 matches Scalar::Text(t) && t@ == response_tag(r)
    &&& match r {
        Response::ResRead8 { val } => es.len() == 2 && es[1].0@ == "val"@ && es[1].1 == Scalar::Num(val as u64),
        Response::ResRead16 { val } => es.len() == 2 && es[1].0@ == "val"@ && es[1].1 == Scalar::Num(val as u64),
        Response::ResRead32 { val } => es.len() == 2 && es[1].0@ == "val"@ && es[1].1 == Scalar::Num(val as u64),
        Response::ResRead64 { val } => es.len() == 2 && es[1].0@ == "val"@ && es[1].1 == Scalar::Num(val as u64),
        Response::ResVersion { version } => es.len() == 2 && es[1].0@ == "version"@ && es[1].1 == Scalar::Text(version),
        Response::ResTitle { title } => es.len() == 2 && es[1].0@ == "title"@ && es[1].1 == Scalar::Text(title),
        Response::ResID { id } => es.len() == 2 && es[1].0@ == "id"@ && es[1].1 == Scalar::Text(id),
        Response::ResUUID { uuid } => es.len() == 2 && es[1].0@ == "uuid"@ && es[1].1 == Scalar::Text(uuid),
        Response::ResGameVersion { version } => es.len() == 2 && es[1].0@ == "version"@ && es[1].1 == Scalar::Text(version),
        Response::ResStatus { status } => es.len() == 2 && es[1].0@ == "status"@ && (es[1].1 matches Scalar::Text(s) && s@ == status_name(status)),
        _ => es.len() == 1,
    }
}

/// Why a record is not a command or a response.
#[derive(Clone, Copy, Debug, PartialEq, Eq, Structural)]
pub enum CodecError {
    /// No text under `command`.
    MissingTag,
    /// The tag names no known operation.
    UnknownTag,
    /// The tag is known but a field it needs is absent, not a number or text
    /// as required, or out of range.
    BadField,
}

/// The words in which a codec error is reported.
pub open spec fn codec_error_text(e: CodecError) -> Seq<char> {
    match e {
        CodecError::MissingTag => "missing text field `command`"@,
        CodecError::UnknownTag => "unknown variant in field `command`"@,
        CodecError::BadField => "missing or invalid field for this command"@,
    }
}

impl CodecError {
    /// A human-readable cause.
    pub fn describe(&self) -> (s: String)
        ensures
            s@ == codec_error_text(*self),
    {
        match self {
            CodecError::MissingTag => "missing text field `command`".to_owned(),
            CodecError::UnknownTag => "unknown variant in field `command`".to_owned(),
            CodecError::BadField => "missing or invalid field for this command".to_owned(),
        }
    }
}

/// What decoding `es` as a command must give.
pub open spec fn command_decoding(es: Seq<(String, Scalar)>, r: Result<Command, CodecError>) -> bool {
    match r {
        Ok(c) => describes_command(es, c),
        Err(CodecError::MissingTag) => text_at(es, "command"@) is None,
        Err(CodecError::UnknownTag) => text_at(es, "command"@) matches Some(t) && !known_command_tag(t),
        Err(CodecError::BadField) => text_at(es, "command"@) matches Some(t) && known_command_tag(t)
            && forall|c: Command| !describes_command(es, c),
    }
}

/// What decoding `es` as a response must give.
pub open spec fn response_decoding(es: Seq<(String, Scalar)>, r: Result<Response, CodecError>) -> bool {
    match r {
        Ok(x) => describes_response(es, x),
        Err(CodecError::MissingTag) => text_at(es, "command"@) is None,
        Err(CodecError::UnknownTag) => text_at(es, "command"@) matches Some(t) && !known_response_tag(t),
        Err(CodecError::BadField) => text_at(es, "command"@) matches Some(t) && known_response_tag(t)
            && forall|x: Response| !describes_response(es, x),
    }
}

/// Length, fourth and last character: enough to tell any two tags apart.
spec fn tag_sig(t: Seq<char>) -> (int, char, char) {
    (t.len() as int, t[3], t[t.len() - 1])
}

spec fn command_sig(c: Command) -> (int, char, char) {
    match c {
        Command::MsgRead8 { .. } => (8, 'R', '8'),
        Command::MsgRead16 { .. } => (9, 'R', '6'),
        Command::MsgRead32 { .. } => (9, 'R', '2'),
        Command::MsgRead64 { .. } => (9, 'R', '4'),
        Command::MsgWrite8 { .. } => (9, 'W', '8'),
        Command::MsgWrite16 { .. } => (10, 'W', '6'),
        Command::MsgWrite32 { .. } => (10, 'W', '2'),
        Command::MsgWrite64 { .. } => (10, 'W', '4'),
        Command::MsgVersion => (10, 'V', 'n'),
        Command::MsgSaveState { .. } => (12, 'S', 'e'),
        Command::MsgLoadState { .. } => (12, 'L', 'e'),
        Command::MsgTitle => (8, 'T', 'e'),
        Command::MsgID => (5, 'I', 'D'),
        Command::MsgUUID => (7, 'U', 'D'),
        Command::MsgGameVersion => (14, 'G', 'n'),
        Command::MsgStatus => (9, 'S', 's'),
        Command::MsgUnimplemented => (16, 'U', 'd'),
    }
}

spec fn response_sig(r: Response) -> (int, char, char) {
    match r {
        Response::ResRead8 { .. } => (8, 'R', '8'),
        Response::ResRead16 { .. } => (9, 'R', '6'),
        Response::ResRead32 { .. } => (9, 'R', '2'),
        Response::ResRead64 { .. } => (9, 'R', '4'),
        Response::ResWrite8 => (9, 'W', '8'),
        Response::ResWrite16 => (10, 'W', '6'),
        Response::ResWrite32 => (10, 'W', '2'),
        Response::ResWrite64 => (10, 'W', '4'),
        Response::ResVersion { .. } => (10, 'V', 'n'),
        Response::ResSaveState => (12, 'S', 'e'),
        Response::ResLoadState => (12, 'L', 'e'),
        Response::ResTitle { .. } => (8, 'T', 'e'),
        Response::ResID { .. } => (5, 'I', 'D'),
        Response::ResUUID { .. } => (7, 'U', 'D'),
        Response::ResGameVersion { .. } => (14, 'G', 'n'),
        Response::ResStatus { .. } => (9, 'S', 's'),
        Response::ResUnimplemented => (16, 'U', 'd'),
    }
}

spec fn status_sig(s: Status) -> (int, char, char) {
    match s {
        Status::Running => (7, 'n', 'g'),
        Status::Paused => (6, 's', 'd'),
        Status::Shutdown => (8, 't', 'n'),
        Status::Unknown => (7, 'n', 'n'),
    }
}

pub(crate) proof fn lemma_command_tags_distinct()
    ensures
        forall|c: Command| #[trigger] command_tag(c) == "MsgRead8"@ ==> c is MsgRead8,
        forall|c: Command| #[trigger] command_tag(c) == "MsgRead16"@ ==> c is MsgRead16,
        forall|c: Command| #[trigger] command_tag(c) == "MsgRead32"@ ==> c is MsgRead32,
        forall|c: Command| #[trigger] command_tag(c) == "MsgRead64"@ ==> c is MsgRead64,
        forall|c: Command| #[trigger] command_tag(c) == "MsgWrite8"@ ==> c is MsgWrite8,
        forall|c: Command| #[trigger] command_tag(c) == "MsgWrite16"@ ==> c is MsgWrite16,
        forall|c: Command| #[trigger] command_tag(c) == "MsgWrite32"@ ==> c is MsgWrite32,
        forall|c: Command| #[trigger] command_tag(c) == "MsgWrite64"@ ==> c is MsgWrite64,
        forall|c: Command| #[trigger] command_tag(c) == "MsgVersion"@ ==> c is MsgVersion,
        forall|c: Command| #[trigger] command_tag(c) == "MsgSaveState"@ ==> c is MsgSaveState,
        forall|c: Command| #[trigger] command_tag(c) == "MsgLoadState"@ ==> c is MsgLoadState,
        forall|c: Command| #[trigger] command_tag(c) == "MsgTitle"@ ==> c is MsgTitle,
        forall|c: Command| #[trigger] command_tag(c) == "MsgID"@ ==> c is MsgID,
        forall|c: Command| #[trigger] command_tag(c) == "MsgUUID"@ ==> c is MsgUUID,
        forall|c: Command| #[trigger] command_tag(c) == "MsgGameVersion"@ ==> c is MsgGameVersion,
        forall|c: Command| #[trigger] command_tag(c) == "MsgStatus"@ ==> c is MsgStatus,
        forall|c: Command| #[trigger] command_tag(c) == "MsgUnimplemented"@ ==> c is MsgUnimplemented,
{
    reveal_strlit("MsgRead8");
    reveal_strlit("MsgRead16");
    reveal_strlit("MsgRead32");
    reveal_strlit("MsgRead64");
    reveal_strlit("MsgWrite8");
    reveal_strlit("MsgWrite16");
    reveal_strlit("MsgWrite32");
    reveal_strlit("MsgWrite64");
    reveal_strlit("MsgVersion");
    reveal_strlit("MsgSaveState");
    reveal_strlit("MsgLoadState");
    reveal_strlit("MsgTitle");
    reveal_strlit("MsgID");
    reveal_strlit("MsgUUID");
    reveal_strlit("MsgGameVersion");
    reveal_strlit("MsgStatus");
    reveal_strlit("MsgUnimplemented");
    assert forall|c: Command| tag_sig(#[trigger] command_tag(c)) == command_sig(c) by {}
}

proof fn lemma_response_tags_distinct()
    ensures
        forall|r: Response| #[trigger] response_tag(r) == "ResRead8"@ ==> r is ResRead8,
        forall|r: Response| #[trigger] response_tag(r) == "ResRead16"@ ==> r is ResRead16,
        forall|r: Response| #[trigger] response_tag(r) == "ResRead32"@ ==> r is ResRead32,
        forall|r: Response| #[trigger] response_tag(r) == "ResRead64"@ ==> r is ResRead64,
        forall|r: Response| #[trigger] response_tag(r) == "ResWrite8"@ ==> r is ResWrite8,
        forall|r: Response| #[trigger] response_tag(r) == "ResWrite16"@ ==> r is ResWrite16,
        forall|r: Response| #[trigger] response_tag(r) == "ResWrite32"@ ==> r is ResWrite32,
        forall|r: Response| #[trigger] response_tag(r) == "ResWrite64"@ ==> r is ResWrite64,
        forall|r: Response| #[trigger] response_tag(r) == "ResVersion"@ ==> r is ResVersion,
        forall|r: Response| #[trigger] response_tag(r) == "ResSaveState"@ ==> r is ResSaveState,
        forall|r: Response| #[trigger] response_tag(r) == "ResLoadState"@ ==> r is ResLoadState,
        forall|r: Response| #[trigger] response_tag(r) == "ResTitle"@ ==> r is ResTitle,
        forall|r: Response| #[trigger] response_tag(r) == "ResID"@ ==> r is ResID,
        forall|r: Response| #[trigger] response_tag(r) == "ResUUID"@ ==> r is ResUUID,
        forall|r: Response| #[trigger] response_tag(r) == "ResGameVersion"@ ==> r is ResGameVersion,
        forall|r: Response| #[trigger] response_tag(r) == "ResStatus"@ ==> r is ResStatus,
        forall|r: Response| #[trigger] response_tag(r) == "ResUnimplemented"@ ==> r is ResUnimplemented,
{
    reveal_strlit("ResRead8");
    reveal_strlit("ResRead16");
    reveal_strlit("ResRead32");
    reveal_strlit("ResRead64");
    reveal_strlit("ResWrite8");
    reveal_strlit("ResWrite16");
    reveal_strlit("ResWrite32");
    reveal_strlit("ResWrite64");
    reveal_strlit("ResVersion");
    reveal_strlit("ResSaveState");
    reveal_strlit("ResLoadState");
    reveal_strlit("ResTitle");
    reveal_strlit("ResID");
    reveal_strlit("ResUUID");
    reveal_strlit("ResGameVersion");
    reveal_strlit("ResStatus");
    reveal_strlit("ResUnimplemented");
    assert forall|r: Response| tag_sig(#[trigger] response_tag(r)) == response_sig(r) by {}
}

proof fn lemma_status_names_distinct()
    ensures
        forall|s: Status| #[trigger] status_name(s) == "Running"@ ==> s is Running,
        forall|s: Status| #[trigger] status_name(s) == "Paused"@ ==> s is Paused,
        forall|s: Status| #[trigger] status_name(s) == "Shutdown"@ ==> s is Shutdown,
        forall|s: Status| #[trigger] status_name(s) == "Unknown"@ ==> s is Unknown,
{
    reveal_strlit("Running");
    reveal_strlit("Paused");
    reveal_strlit("Shutdown");
    reveal_strlit("Unknown");
    assert forall|s: Status| tag_sig(#[trigger] status_name(s)) == status_sig(s) by {}
}

pub(crate) fn is_lit(s: &String, lit: &str) -> (b: bool)
    ensures
        b == (s@ == lit@),
{
    *s == lit.to_owned()
}

/// The number under `key`, if there is one no larger than `max`.
fn num_field(es: &Vec<(String, Scalar)>, key: &str, max: u64) -> (r: Option<u64>)
    ensures
        r matches Some(n) ==> n <= max && has_num(es@, key@, n),
        r is None ==> forall|n: u64| n <= max ==> !#[trigger] has_num(es@, key@, n),
{
    match position(es, key) {
        Some(i) => match &es[i].1 {
            Scalar::Num(n) => if *n <= max {
                Some(*n)
            } else {
                None
            },
            _ => None,
        },
        None => None,
    }
}

/// A copy of the text under `key`, if there is one.
fn text_field(es: &Vec<(String, Scalar)>, key: &str) -> (r: Option<String>)
    ensures
        r matches Some(s) ==> lookup(es@, key@) == Some(Scalar::Text(s)),
        r is None ==> text_at(es@, key@) is None,
{
    match position(es, key) {
        Some(i) => match &es[i].1 {
            Scalar::Text(s) => Some(s.clone()),
            _ => None,
        },
        None => None,
    }
}

/// The text that stands for `s`.
pub fn encode_status(s: Status) -> (t: String)
    ensures
        t@ == status_name(s),
{
    match s {
        Status::Running => "Running".to_owned(),
        Status::Paused => "Paused".to_owned(),
        Status::Shutdown => "Shutdown".to_owned(),
        Status::Unknown => "Unknown".to_owned(),
    }
}

/// The status that `t` stands for.
pub fn decode_status(t: &String) -> (r: Option<Status>)
    ensures
        r matches Some(s) ==> status_name(s) == t@,
        r is None ==> forall|s: Status| status_name(s) != t@,
{
    if is_lit(t, "Running") {
        Some(Status::Running)
    } else if is_lit(t, "Paused") {
        Some(Status::Paused)
    } else if is_lit(t, "Shutdown") {
        Some(Status::Shutdown)
    } else if is_lit(t, "Unknown") {
        Some(Status::Unknown)
    } else {
        None
    }
}

/// Reads a command from a record.
pub fn decode_command(rec: &Record) -> (r: Result<Command, CodecError>)
    ensures
        command_decoding(rec.entries@, r),
{
    proof {
        lemma_command_tags_distinct();
    }
    let es = &rec.entries;
    let tag = match text_field(es, "command") {
        Some(t) => t,
        None => return Err(CodecError::MissingTag),
    };
    if is_lit(&tag, "MsgRead8") {
        match num_field(es, "mem", 0xffff_ffff) {
            None => Err(CodecError::BadField),
            Some(mem) => Ok(Command::MsgRead8 { mem: mem as u32 }),
        }
    } else if is_lit(&tag, "MsgRead16") {
        match num_field(es, "mem", 0xffff_ffff) {
            None => Err(CodecError::BadField),
            Some(mem) => Ok(Command::MsgRead16 { mem: mem as u32 }),
        }
    } else if is_lit(&tag, "MsgRead32") {
        match num_field(es, "mem", 0xffff_ffff) {
            None => Err(CodecError::BadField),
            Some(mem) => Ok(Command::MsgRead32 { mem: mem as u32 }),
        }
    } else if is_lit(&tag, "MsgRead64") {
        match num_field(es, "mem", 0xffff_ffff) {
            None => Err(CodecError::BadField),
            Some(mem) => Ok(Command::MsgRead64 { mem: mem as u32 }),
        }
    } else if is_lit(&tag, "MsgWrite8") {
        match num_field(es, "mem", 0xffff_ffff) {
            None => Err(CodecError::BadField),
            Some(mem) => match num_field(es, "val", 0xff) {
                None => Err(CodecError::BadField),
                Some(val) => Ok(Command::MsgWrite8 { mem: mem as u32, val: val as u8 }),
            },
        }
    } else if is_lit(&tag, "MsgWrite16") {
        match num_field(es, "mem", 0xffff_ffff) {
            None => Err(CodecError::BadField),
            Some(mem) => match num_field(es, "val", 0xffff) {
                None => Err(CodecError::BadField),
                Some(val) => Ok(Command::MsgWrite16 { mem: mem as u32, val: val as u16 }),
            },
        }
    } else if is_lit(&tag, "MsgWrite32") {
        match num_field(es, "mem", 0xffff_ffff) {
            None => Err(CodecError::BadField),
            Some(mem) => match num_field(es, "val", 0xffff_ffff) {
                None => Err(CodecError::BadField),
                Some(val) => Ok(Command::MsgWrite32 { mem: mem as u32, val: val as u32 }),
            },
        }
    } else if is_lit(&tag, "MsgWrite64") {
        match num_field(es, "mem", 0xffff_ffff) {
            None => Err(CodecError::BadField),
            Some(mem) => match num_field(es, "val", 0xffff_ffff_ffff_ffff) {
                None => Err(CodecError::BadField),
                Some(val) => Ok(Command::MsgWrite64 { mem: mem as u32, val: val as u64 }),
            },
        }
    } else if is_lit(&tag, "MsgVersion") {
        Ok(Command::MsgVersion)
    } else if is_lit(&tag, "MsgSaveState") {
        match num_field(es, "sta", 0xff) {
            None => Err(CodecError::BadField),
            Some(sta) => Ok(Command::MsgSaveState { sta: sta as u8 }),
        }
    } else if is_lit(&tag, "MsgLoadState") {
        match num_field(es, "sta", 0xff) {
            None => Err(CodecError::BadField),
            Some(sta) => Ok(Command::MsgLoadState { sta: sta as u8 }),
        }
    } else if is_lit(&tag, "MsgTitle") {
        Ok(Command::MsgTitle)
    } else if is_lit(&tag, "MsgID") {
        Ok(Command::MsgID)
    } else if is_lit(&tag, "MsgUUID") {
        Ok(Command::MsgUUID)
    } else if is_lit(&tag, "MsgGameVersion") {
        Ok(Command::MsgGameVersion)
    } else if is_lit(&tag, "MsgStatus") {
        Ok(Command::MsgStatus)
    } else if is_lit(&tag, "MsgUnimplemented") {
        Ok(Command::MsgUnimplemented)
    } else {
        Err(CodecError::UnknownTag)
    }
}

/// Reads a response from a record.
pub fn decode_response(rec: &Record) -> (r: Result<Response, CodecError>)
    ensures
        response_decoding(rec.entries@, r),
{
    proof {
        lemma_response_tags_distinct();
        lemma_status_names_distinct();
    }
    let es = &rec.entries;
    let tag = match text_field(es, "command") {
        Some(t) => t,
        None => return Err(CodecError::MissingTag),
    };
    if is_lit(&tag, "ResRead8") {
        match num_field(es, "val", 0xff) {
            Some(val) => Ok(Response::ResRead8 { val: val as u8 }),
            None => Err(CodecError::BadField),
        }
    } else if is_lit(&tag, "ResRead16") {
        match num_field(es, "val", 0xffff) {
            Some(val) => Ok(Response::ResRead16 { val: val as u16 }),
            None => Err(CodecError::BadField),
        }
    } else if is_lit(&tag, "ResRead32") {
        match num_field(es, "val", 0xffff_ffff) {
            Some(val) => Ok(Response::ResRead32 { val: val as u32 }),
            None => Err(CodecError::BadField),
        }
    } else if is_lit(&tag, "ResRead64") {
        match num_field(es, "val", 0xffff_ffff_ffff_ffff) {
            Some(val) => Ok(Response::ResRead64 { val: val as u64 }),
            None => Err(CodecError::BadField),
        }
    } else if is_lit(&tag, "ResWrite8") {
        Ok(Response::ResWrite8)
    } else if is_lit(&tag, "ResWrite16") {
        Ok(Response::ResWrite16)
    } else if is_lit(&tag, "ResWrite32") {
        Ok(Response::ResWrite32)
    } else if is_lit(&tag, "ResWrite64") {
        Ok(Response::ResWrite64)
    } else if is_lit(&tag, "ResVersion") {
        match text_field(es, "version") {
            Some(version) => Ok(Response::ResVersion { version }),
            None => Err(CodecError::BadField),
        }
    } else if is_lit(&tag, "ResSaveState") {
        Ok(Response::ResSaveState)
    } else if is_lit(&tag, "ResLoadState") {
        Ok(Response::ResLoadState)
    } else if is_lit(&tag, "ResTitle") {
        match text_field(es, "title") {
            Some(title) => Ok(Response::ResTitle { title }),
            None => Err(CodecError::BadField),
        }
    } else if is_lit(&tag, "ResID") {
        match text_field(es, "id") {
            Some(id) => Ok(Response::ResID { id }),
            None => Err(CodecError::BadField),
        }
    } else if is_lit(&tag, "ResUUID") {
        match text_field(es, "uuid") {
            Some(uuid) => Ok(Response::ResUUID { uuid }),
            None => Err(CodecError::BadField),
        }
    } else if is_lit(&tag, "ResGameVersion") {
        match text_field(es, "version") {
            Some(version) => Ok(Response::ResGameVersion { version }),
            None => Err(CodecError::BadField),
        }
    } else if is_lit(&tag, "ResStatus") {
        match text_field(es, "status") {
            Some(t) => match decode_status(&t) {
                Some(status) => Ok(Response::ResStatus { status }),
                None => Err(CodecError::BadField),
            },
            None => Err(CodecError::BadField),
        }
    } else if is_lit(&tag, "ResUnimplemented") {
        Ok(Response::ResUnimplemented)
    } else {
        Err(CodecError::UnknownTag)
    }
}


/// A record of one entry.
fn single_entry(key: &str, v: Scalar) -> (rec: Record)
    ensures
        lookup(rec.entries@, key@) == Some(v),
        forall|k: Seq<char>| k != key@ ==> lookup(#[trigger] rec.entries@, k) is None,
        rec.entries@.len() == 1,
        rec.entries@[0].0@ == key@,
        rec.entries@[0].1 == v,
{
    let rec = Record { entries: vec![(key.to_owned(), v)] };
    proof {
        reveal_with_fuel(lookup, 2);
        assert forall|k: Seq<char>| k != key@ implies lookup(#[trigger] rec.entries@, k) is None by {
            reveal_with_fuel(lookup, 2);
        }
    }
    rec
}

/// Adds an entry under a key that `rec` does not hold yet.
fn add_entry(rec: &mut Record, key: &str, v: Scalar)
    requires
        lookup(old(rec).entries@, key@) is None,
    ensures
        lookup(final(rec).entries@, key@) == Some(v),
        forall|k: Seq<char>| k != key@ ==> lookup(#[trigger] final(rec).entries@, k) == lookup(old(rec).entries@, k),
        final(rec).entries@.len() == old(rec).entries@.len() + 1,
        final(rec).entries@.drop_last() == old(rec).entries@,
        final(rec).entries@.last().0@ == key@,
        final(rec).entries@.last().1 == v,
{
    let ghost before = rec.entries@;
    let e = (key.to_owned(), v);
    let ghost added = e;
    rec.entries.push(e);
    proof {
        assert(rec.entries@.drop_last() =~= before);
        lemma_lookup_push(before, added, key@);
        assert forall|k: Seq<char>| k != key@ implies lookup(#[trigger] rec.entries@, k) == lookup(before, k) by {
            lemma_lookup_push(before, added, k);
        }
    }
}

proof fn lemma_lookup_push(es: Seq<(String, Scalar)>, e: (String, Scalar), k: Seq<char>)
    ensures
        k == e.0@ && lookup(es, k) is None ==> lookup(es.push(e), k) == Some(e.1),
        k != e.0@ ==> lookup(es.push(e), k) == lookup(es, k),
    decreases es.len(),
{
    if es.len() > 0 {
        assert(es.push(e).drop_first() =~= es.drop_first().push(e));
        lemma_lookup_push(es.drop_first(), e, k);
    } else {
        assert(es.push(e).drop_first() =~= Seq::<(String, Scalar)>::empty());
        reveal_with_fuel(lookup, 2);
    }
}

/// Writes a response as a record: its tag under `command`, then its payload
/// under the payload's name.
pub fn encode_response(r: &Response) -> (rec: Record)
    ensures
        renders_response(rec.entries@, *r),
        describes_response(rec.entries@, *r),
{
    proof {
        reveal_strlit("command");
        reveal_strlit("val");
        reveal_strlit("version");
        reveal_strlit("title");
        reveal_strlit("id");
        reveal_strlit("uuid");
        reveal_strlit("status");
        assert("command"@[0] != "version"@[0]);
    }
    match r {
        Response::ResRead8 { val } => {
            let mut rec = single_entry("command", Scalar::Text("ResRead8".to_owned()));
            add_entry(&mut rec, "val", Scalar::Num(*val as u64));
            rec
        },
        Response::ResRead16 { val } => {
            let mut rec = single_entry("command", Scalar::Text("ResRead16".to_owned()));
            add_entry(&mut rec, "val", Scalar::Num(*val as u64));
            rec
        },
        Response::ResRead32 { val } => {
            let mut rec = single_entry("command", Scalar::Text("ResRead32".to_owned()));
            add_entry(&mut rec, "val", Scalar::Num(*val as u64));
            rec
        },
        Response::ResRead64 { val } => {
            let mut rec = single_entry("command", Scalar::Text("ResRead64".to_owned()));
            add_entry(&mut rec, "val", Scalar::Num(*val as u64));
            rec
        },
        Response::ResWrite8 => single_entry("command", Scalar::Text("ResWrite8".to_owned())),
        Response::ResWrite16 => single_entry("command", Scalar::Text("ResWrite16".to_owned())),
        Response::ResWrite32 => single_entry("command", Scalar::Text("ResWrite32".to_owned())),
        Response::ResWrite64 => single_entry("command", Scalar::Text("ResWrite64".to_owned())),
        Response::ResVersion { version } => {
            let mut rec = single_entry("command", Scalar::Text("ResVersion".to_owned()));
            add_entry(&mut rec, "version", Scalar::Text(version.clone()));
            rec
        },
        Response::ResSaveState => single_entry("command", Scalar::Text("ResSaveState".to_owned())),
        Response::ResLoadState => single_entry("command", Scalar::Text("ResLoadState".to_owned())),
        Response::ResTitle { title } => {
            let mut rec = single_entry("command", Scalar::Text("ResTitle".to_owned()));
            add_entry(&mut rec, "title", Scalar::Text(title.clone()));
            rec
        },
        Response::ResID { id } => {
            let mut rec = single_entry("command", Scalar::Text("ResID".to_owned()));
            add_entry(&mut rec, "id", Scalar::Text(id.clone()));
            rec
        },
        Response::ResUUID { uuid } => {
            let mut rec = single_entry("command", Scalar::Text("ResUUID".to_owned()));
            add_entry(&mut rec, "uuid", Scalar::Text(uuid.clone()));
            rec
        },
        Response::ResGameVersion { version } => {
            let mut rec = single_entry("command", Scalar::Text("ResGameVersion".to_owned()));
            add_entry(&mut rec, "version", Scalar::Text(version.clone()));
            rec
        },
        Response::ResStatus { status } => {
            let mut rec = single_entry("command", Scalar::Text("ResStatus".to_owned()));
            add_entry(&mut rec, "status", Scalar::Text(encode_status(*status)));
            rec
        },
        Response::ResUnimplemented => single_entry("command", Scalar::Text("ResUnimplemented".to_owned())),
    }
}

/// Decoding gives back what was encoded: a record that spells a response
/// decodes to exactly that response.
pub proof fn lemma_response_round_trip(r: Response, es: Seq<(String, Scalar)>, d: Result<Response, CodecError>)
    requires
        describes_response(es, r),
        response_decoding(es, d),
    ensures
        d == Ok::<Response, CodecError>(r),
{
    lemma_response_tags_distinct();
    lemma_status_names_distinct();
    assert(known_response_tag(response_tag(r)));
    match d {
        Ok(x) => {
            assert(response_tag(x) == response_tag(r));
        },
        Err(e) => {
            assert(!describes_response(es, r));
        },
    }
}

} // verus!
