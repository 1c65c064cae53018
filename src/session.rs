use vstd::prelude::*;
use base64::Engine;
use crate::buffer::{expand_write_buffer, write_expansion, BufferError};
use crate::codec::{
    codec_error_text, command_decoding, decode_command, describes_command, describes_response,
    encode_response, renders_response,
    is_lit, lemma_command_tags_distinct, CodecError,
};
use crate::command::{answers, is_answer, Command, Response};
use crate::value::{lookup, position, Message, Node, Record, Scalar};

verus! {

#[verifier::external_type_specification]
#[verifier::external_body]
pub struct ExBase64DecodeError(base64::DecodeError);

/// The bytes that a base64 text stands for, if it is valid base64.
pub uninterp spec fn base64_decoded(s: Seq<char>) -> Option<Seq<u8>>;

/// Relies on `base64::Engine::decode` of a `GeneralPurpose` engine with the
/// standard alphabet and padding optional (how serde_with's `Base64` reads):
/// the bytes depend on the text alone, and an error means it is not base64.
#[verifier::external_body]
fn decode_base64(s: &String) -> (r: Result<Vec<u8>, base64::DecodeError>)
    ensures
        r matches Ok(v) ==> base64_decoded(s@) == Some(v@),
        r is Err ==> base64_decoded(s@) is None,
{
    base64::engine::GeneralPurpose::new(
        &base64::alphabet::STANDARD,
        base64::engine::GeneralPurposeConfig::new().with_decode_padding_mode(
            base64::engine::DecodePaddingMode::Indifferent,
        ),
    ).decode(s)
}

/// What a client asks for.
#[derive(Clone, Debug, PartialEq, Eq)]
pub enum Request {
    ExecuteCommand(Command),
    ExecuteBatch(Vec<Command>),
    WriteBuffer { address: u32, buffer: Vec<u8> },
}

/// Why a client message is not a request.
#[derive(Clone, Debug, PartialEq, Eq)]
pub enum RequestError {
    /// The envelope's tag, or the field that it needs, is missing or malformed.
    BadEnvelope,
    /// The command of `execute_command` is not a command.
    BadCommand(CodecError),
    /// Entry `index` of `execute_batch` is not a command.
    BadBatchEntry { index: usize, cause: CodecError },
    /// The buffer of `write_buffer` is not valid base64.
    BadBase64,
}

/// The words in which a request error is reported.
pub open spec fn request_error_text(e: RequestError) -> Seq<char> {
    match e {
        RequestError::BadEnvelope => "missing or malformed envelope"@,
        RequestError::BadBase64 => "invalid base64 buffer"@,
        RequestError::BadCommand(c) => "invalid command: "@ + codec_error_text(c),
        RequestError::BadBatchEntry { cause, .. } => "invalid batch entry: "@ + codec_error_text(cause),
    }
}

impl RequestError {
    /// A human-readable cause.
    pub fn describe(&self) -> (s: String)
        ensures
            s@ == request_error_text(*self),
    {
        match self {
            RequestError::BadEnvelope => "missing or malformed envelope".to_owned(),
            RequestError::BadBase64 => "invalid base64 buffer".to_owned(),
            RequestError::BadCommand(e) => {
                let mut s = "invalid command: ".to_owned();
                s.append(e.describe().as_str());
                s
            },
            RequestError::BadBatchEntry { cause, .. } => {
                let mut s = "invalid batch entry: ".to_owned();
                s.append(cause.describe().as_str());
                s
            },
        }
    }
}

/// The text that `es` holds under `key`, if any.
pub open spec fn node_text(es: Seq<(String, Node)>, key: Seq<char>) -> Option<Seq<char>> {
    match lookup(es, key) {
        Some(Node::Scalar(Scalar::Text(s))) => Some(s@),
        _ => None,
    }
}

/// The message `es` spells the request `req`.
pub open spec fn describes_request(es: Seq<(String, Node)>, req: Request) -> bool {
    match req {
        Request::ExecuteCommand(c) => node_text(es, "command"@) == Some("execute_command"@)
            && (lookup(es, "cmd"@) matches Some(Node::Record(rec)) && describes_command(rec.entries@, c)),
        Request::ExecuteBatch(b) => node_text(es, "command"@) == Some("execute_batch"@)
            && (lookup(es, "batch"@) matches Some(Node::List(recs))
                && recs@.len() == b@.len()
                && forall|i: int| 0 <= i < b@.len()
                    ==> #[trigger] describes_command(recs@[i].entries@, b@[i])),
        Request::WriteBuffer { address, buffer } => node_text(es, "command"@) == Some("write_buffer"@)
            && lookup(es, "address"@) == Some(Node::Scalar(Scalar::Num(address as u64)))
            && (lookup(es, "buffer"@) matches Some(Node::Scalar(Scalar::Text(s)))
                && base64_decoded(s@) == Some(buffer@)),
    }
}

/// `rec` spells some command.
pub open spec fn decodes(rec: Record) -> bool {
    exists|c: Command| describes_command(rec.entries@, c)
}

/// `es` has the shape of one of the three envelopes, whatever the contents of
/// its command, batch or buffer.
pub open spec fn envelope_shaped(es: Seq<(String, Node)>) -> bool {
    ||| node_text(es, "command"@) == Some("execute_command"@) && lookup(es, "cmd"@) matches Some(Node::Record(_))
    ||| node_text(es, "command"@) == Some("execute_batch"@) && lookup(es, "batch"@) matches Some(Node::List(_))
    ||| node_text(es, "command"@) == Some("write_buffer"@) && address_at(es) is Some
        && lookup(es, "buffer"@) matches Some(Node::Scalar(Scalar::Text(_)))
}

/// The 32-bit address that `es` holds under `address`, if any.
pub open spec fn address_at(es: Seq<(String, Node)>) -> Option<u32> {
    match lookup(es, "address"@) {
        Some(Node::Scalar(Scalar::Num(n))) => if n <= u32::MAX {
            Some(n as u32)
        } else {
            None
        },
        _ => None,
    }
}

/// Which error decoding `es` as a request must give.
pub open spec fn request_refusal(es: Seq<(String, Node)>, e: RequestError) -> bool {
    match e {
        RequestError::BadEnvelope => !envelope_shaped(es),
        RequestError::BadCommand(c) => node_text(es, "command"@) == Some("execute_command"@)
            && (lookup(es, "cmd"@) matches Some(Node::Record(rec)) && command_decoding(rec.entries@, Err(c))),
        RequestError::BadBatchEntry { index, cause } => node_text(es, "command"@) == Some("execute_batch"@)
            && (lookup(es, "batch"@) matches Some(Node::List(recs)) && index < recs@.len()
                && command_decoding(recs@[index as int].entries@, Err(cause))
                && forall|j: int| 0 <= j < index ==> #[trigger] decodes(recs@[j])),
        RequestError::BadBase64 => node_text(es, "command"@) == Some("write_buffer"@) && address_at(es) is Some
            && (lookup(es, "buffer"@) matches Some(Node::Scalar(Scalar::Text(s))) && base64_decoded(s@) is None),
    }
}

proof fn lemma_no_command(es: Seq<(String, Scalar)>, e: CodecError)
    requires
        command_decoding(es, Err(e)),
    ensures
        forall|c: Command| !describes_command(es, c),
{
    lemma_command_tags_distinct();
}

/// Reads every record of a batch as a command.
fn decode_batch(recs: &Vec<Record>) -> (r: Result<Vec<Command>, (usize, CodecError)>)
    ensures
        r matches Ok(b) ==> b@.len() == recs@.len()
            && forall|i: int| 0 <= i < b@.len() ==> #[trigger] describes_command(recs@[i].entries@, b@[i]),
        r matches Err((i, e)) ==> i < recs@.len() && command_decoding(recs@[i as int].entries@, Err(e))
            && (forall|c: Command| !describes_command(recs@[i as int].entries@, c))
            && forall|j: int| 0 <= j < i ==> #[trigger] decodes(recs@[j]),
{
    let mut out: Vec<Command> = Vec::new();
    let n = recs.len();
    let mut i: usize = 0;
    while i < n
        invariant
            n == recs@.len(),
            i <= n,
            out@.len() == i,
            forall|j: int| 0 <= j < i ==> #[trigger] describes_command(recs@[j].entries@, out@[j]),
        decreases n - i,
    {
        match decode_command(&recs[i]) {
            Ok(c) => out.push(c),
            Err(e) => {
                proof {
                    lemma_no_command(recs@[i as int].entries@, e);
                    assert forall|j: int| 0 <= j < i implies #[trigger] decodes(recs@[j]) by {
                        assert(describes_command(recs@[j].entries@, out@[j]));
                    }
                }
                return Err((i, e));
            },
        }
        i = i + 1;
    }
    Ok(out)
}

/// Reads a client message as a request.
pub fn decode_request(msg: &Message) -> (r: Result<Request, RequestError>)
    ensures
        r matches Ok(req) ==> describes_request(msg.entries@, req),
        r is Err ==> forall|req: Request| !describes_request(msg.entries@, req),
        r matches Err(e) ==> request_refusal(msg.entries@, e),
{
    proof {
        reveal_strlit("execute_command");
        reveal_strlit("execute_batch");
        reveal_strlit("write_buffer");
        assert("execute_command"@.len() != "execute_batch"@.len());
        assert("execute_command"@.len() != "write_buffer"@.len());
        assert("execute_batch"@.len() != "write_buffer"@.len());
    }
    let es = &msg.entries;
    let tag = match position(es, "command") {
        Some(i) => match &es[i].1 {
            Node::Scalar(Scalar::Text(t)) => t,
            _ => return Err(RequestError::BadEnvelope),
        },
        None => return Err(RequestError::BadEnvelope),
    };
    if is_lit(tag, "execute_command") {
        match position(es, "cmd") {
            Some(i) => match &es[i].1 {
                Node::Record(rec) => match decode_command(rec) {
                    Ok(c) => Ok(Request::ExecuteCommand(c)),
                    Err(e) => {
                        proof {
                            lemma_no_command(rec.entries@, e);
                        }
                        Err(RequestError::BadCommand(e))
                    },
                },
                _ => Err(RequestError::BadEnvelope),
            },
            None => Err(RequestError::BadEnvelope),
        }
    } else if is_lit(tag, "execute_batch") {
        match position(es, "batch") {
            Some(i) => match &es[i].1 {
                Node::List(recs) => match decode_batch(recs) {
                    Ok(b) => Ok(Request::ExecuteBatch(b)),
                    Err((index, cause)) => {
                        assert forall|req: Request| !describes_request(msg.entries@, req) by {
                            if let Request::ExecuteBatch(b) = req {
                                if describes_request(msg.entries@, req) && (index as int) < b@.len() {
                                    assert(describes_command(recs@[index as int].entries@, b@[index as int]));
                                }
                            }
                        }
                        Err(RequestError::BadBatchEntry { index, cause })
                    },
                },
                _ => Err(RequestError::BadEnvelope),
            },
            None => Err(RequestError::BadEnvelope),
        }
    } else if is_lit(tag, "write_buffer") {
        let address = match position(es, "address") {
            Some(i) => match &es[i].1 {
                Node::Scalar(Scalar::Num(n)) => if *n <= 0xffff_ffff {
                    *n as u32
                } else {
                    return Err(RequestError::BadEnvelope);
                },
                _ => return Err(RequestError::BadEnvelope),
            },
            None => return Err(RequestError::BadEnvelope),
        };
        match position(es, "buffer") {
            Some(i) => match &es[i].1 {
                Node::Scalar(Scalar::Text(s)) => match decode_base64(s) {
                    Ok(buffer) => Ok(Request::WriteBuffer { address, buffer }),
                    Err(_) => Err(RequestError::BadBase64),
                },
                _ => Err(RequestError::BadEnvelope),
            },
            None => Err(RequestError::BadEnvelope),
        }
    } else {
        Err(RequestError::BadEnvelope)
    }
}


/// The batch that one request sends, and whether its answer is a single result.
#[derive(Clone, Debug, PartialEq, Eq)]
pub struct Plan {
    pub batch: Vec<Command>,
    pub single: bool,
}

impl Plan {
    pub open spec fn wf(&self) -> bool {
        self.single ==> self.batch@.len() == 1
    }
}

/// What a session sends back for one client message.
#[derive(Clone, Debug, PartialEq, Eq)]
pub enum Reply {
    /// The result of `execute_command`.
    Single(Response),
    /// The results of a batch, in the batch's order.
    Batch(Vec<Response>),
    /// The backend failed the dispatch; the cause as the channel gave it.
    Failed(String),
    /// The backend's results do not answer the batch that was sent.
    Mismatched,
    /// A buffer write that cannot be expanded.
    Invalid(BufferError),
    /// The message is not a request; the cause in words.
    Unparsed(String),
}

/// The batch that `req` sends.
pub open spec fn planned(req: Request, p: Plan) -> bool {
    match req {
        Request::ExecuteCommand(c) => p.single && p.batch@ == seq![c],
        Request::ExecuteBatch(b) => !p.single && p.batch@ == b@,
        Request::WriteBuffer { address, buffer } => !p.single
            && write_expansion(address, buffer@) == Ok::<Seq<Command>, BufferError>(p.batch@),
    }
}

/// Turns a request into the batch to send. Only a buffer write can fail.
pub fn plan(req: Request) -> (r: Result<Plan, BufferError>)
    ensures
        r matches Ok(p) ==> p.wf() && planned(req, p),
        r matches Err(e) ==> req matches Request::WriteBuffer { address, buffer }
            && write_expansion(address, buffer@) == Err::<Seq<Command>, BufferError>(e),
        !(req is WriteBuffer) ==> r is Ok,
{
    match req {
        Request::ExecuteCommand(c) => {
            let batch = vec![c];
            assert(batch@ =~= seq![c]);
            Ok(Plan { batch, single: true })
        },
        Request::ExecuteBatch(b) => Ok(Plan { batch: b, single: false }),
        Request::WriteBuffer { address, buffer } => match expand_write_buffer(address, &buffer) {
            Ok(batch) => Ok(Plan { batch, single: false }),
            Err(e) => Err(e),
        },
    }
}

/// `req` is a buffer write whose expansion fails with `e`.
pub open spec fn write_refused(req: Request, e: BufferError) -> bool {
    match req {
        Request::WriteBuffer { address, buffer } => write_expansion(address, buffer@) == Err::<Seq<Command>, BufferError>(e),
        _ => false,
    }
}

/// `reply` is the answer to a message `es` that asks for no dispatch.
pub open spec fn refused(es: Seq<(String, Node)>, reply: Reply) -> bool {
    match reply {
        Reply::Unparsed(t) => (forall|req: Request| !describes_request(es, req))
            && exists|e: RequestError| request_refusal(es, e) && t@ == request_error_text(e),
        Reply::Invalid(e) => exists|req: Request| describes_request(es, req) && write_refused(req, e),
        _ => false,
    }
}

/// Reads a client message and plans its batch; on failure, the reply to send.
pub fn plan_message(msg: &Message) -> (r: Result<Plan, Reply>)
    ensures
        r matches Ok(p) ==> p.wf() && exists|req: Request| describes_request(msg.entries@, req) && planned(req, p),
        r matches Err(reply) ==> refused(msg.entries@, reply),
{
    match decode_request(msg) {
        Ok(req) => {
            let ghost g = req;
            match plan(req) {
                Ok(p) => {
                    assert(describes_request(msg.entries@, g) && planned(g, p));
                    Ok(p)
                },
                Err(e) => {
                    assert(describes_request(msg.entries@, g) && write_refused(g, e));
                    Err(Reply::Invalid(e))
                },
            }
        },
        Err(e) => Err(Reply::Unparsed(e.describe())),
    }
}

/// Every result answers the command at its position, and there are as many
/// results as commands.
pub open spec fn answers_all(cmds: Seq<Command>, res: Seq<Response>) -> bool {
    cmds.len() == res.len() && forall|i: int| 0 <= i < cmds.len() ==> #[trigger] answers(cmds[i], res[i])
}

/// Whether the results answer the batch, position by position.
pub fn check_results(cmds: &Vec<Command>, res: &Vec<Response>) -> (b: bool)
    ensures
        b == answers_all(cmds@, res@),
{
    if cmds.len() != res.len() {
        return false;
    }
    let n = cmds.len();
    let mut i: usize = 0;
    while i < n
        invariant
            n == cmds@.len(),
            n == res@.len(),
            i <= n,
            forall|j: int| 0 <= j < i ==> #[trigger] answers(cmds@[j], res@[j]),
        decreases n - i,
    {
        if !is_answer(&cmds[i], &res[i]) {
            return false;
        }
        i = i + 1;
    }
    true
}

/// The reply to a dispatch of `plan`, given what the channel returned.
pub fn finish(plan: &Plan, outcome: Result<Vec<Response>, String>) -> (r: Reply)
    requires
        plan.wf(),
    ensures
        match outcome {
            Err(cause) => r == Reply::Failed(cause),
            Ok(res) => if !answers_all(plan.batch@, res@) {
                r == Reply::Mismatched
            } else if plan.single {
                r == Reply::Single(res@[0])
            } else {
                r == Reply::Batch(res)
            },
        },
        r matches Reply::Batch(v) ==> answers_all(plan.batch@, v@),
{
    match outcome {
        Err(cause) => Reply::Failed(cause),
        Ok(mut res) => {
            if !check_results(&plan.batch, &res) {
                Reply::Mismatched
            } else if plan.single {
                Reply::Single(res.remove(0))
            } else {
                Reply::Batch(res)
            }
        },
    }
}

/// A reply as it goes out: a structured message, or plain text.
#[derive(Clone, Debug, PartialEq, Eq)]
pub enum Outgoing {
    Structured(Message),
    Plain(String),
}

/// The message `m` is the error envelope whose text is `t`.
pub open spec fn is_error_envelope(m: Message, t: Seq<char>) -> bool {
    m.entries@.len() == 1 && m.entries@[0].0@ == "error"@
        && (m.entries@[0].1 matches Node::Scalar(Scalar::Text(s)) && s@ == t)
}

pub open spec fn send_failure_text(cause: Seq<char>) -> Seq<char> {
    "Failed to send command: "@ + cause
}

fn error_envelope(t: String) -> (m: Message)
    ensures
        is_error_envelope(m, t@),
{
    Message { entries: vec![("error".to_owned(), Node::Scalar(Scalar::Text(t)))] }
}

fn result_envelope(n: Node) -> (m: Message)
    ensures
        m.entries@.len() == 1,
        m.entries@[0].0@ == "res"@,
        m.entries@[0].1 == n,
{
    Message { entries: vec![("res".to_owned(), n)] }
}

/// `m` is `{res: r}` with `r` exactly the rendering of `x`.
pub open spec fn single_result(m: Message, x: Response) -> bool {
    &&& m.entries@.len() == 1
    &&& m.entries@[0].0@ == "res"@
    &&& m.entries@[0].1 matches Node::Record(rec)
    &&& renders_response(rec.entries@, x)
    &&& describes_response(rec.entries@, x)
}

/// `m` is `{res: [r0, r1, ...]}` with each `ri` exactly the rendering of `v[i]`.
pub open spec fn batch_result(m: Message, v: Seq<Response>) -> bool {
    &&& m.entries@.len() == 1
    &&& m.entries@[0].0@ == "res"@
    &&& m.entries@[0].1 matches Node::List(recs)
    &&& recs@.len() == v.len()
    &&& forall|i: int| 0 <= i < v.len() ==> #[trigger] renders_response(recs@[i].entries@, v[i])
    &&& forall|i: int| 0 <= i < v.len() ==> #[trigger] describes_response(recs@[i].entries@, v[i])
}

/// Writes a reply out: `{res: result}`, `{res: [results]}`, `{error: text}`, or,
/// for a message that is not a request, the plain text of the cause.
pub fn encode_reply(reply: &Reply) -> (out: Outgoing)
    ensures
        match *reply {
            Reply::Single(x) => out matches Outgoing::Structured(m) && single_result(m, x),
            Reply::Batch(v) => out matches Outgoing::Structured(m) && batch_result(m, v@),
            Reply::Failed(cause) => out matches Outgoing::Structured(m)
                && is_error_envelope(m, send_failure_text(cause@)),
            Reply::Mismatched => out matches Outgoing::Structured(m)
                && is_error_envelope(m, send_failure_text("results do not match the batch"@)),
            Reply::Invalid(e) => out matches Outgoing::Structured(m)
                && is_error_envelope(m, "Invalid buffer: "@ + buffer_error_text(e)),
            Reply::Unparsed(cause) => out matches Outgoing::Plain(t)
                && t@ == "Failed to parse command: "@ + cause@,
        },
{
    match reply {
        Reply::Single(x) => {
            let rec = encode_response(x);
            let m = result_envelope(Node::Record(rec));
            assert(single_result(m, *x));
            Outgoing::Structured(m)
        },
        Reply::Batch(v) => {
            let mut recs: Vec<Record> = Vec::new();
            let n = v.len();
            let mut i: usize = 0;
            while i < n
                invariant
                    n == v@.len(),
                    i <= n,
                    recs@.len() == i,
                    forall|j: int| 0 <= j < i ==> #[trigger] renders_response(recs@[j].entries@, v@[j]),
                    forall|j: int| 0 <= j < i ==> #[trigger] describes_response(recs@[j].entries@, v@[j]),
                decreases n - i,
            {
                recs.push(encode_response(&v[i]));
                i = i + 1;
            }
            let m = result_envelope(Node::List(recs));
            assert(batch_result(m, v@));
            Outgoing::Structured(m)
        },
        Reply::Failed(cause) => {
            let mut t = "Failed to send command: ".to_owned();
            t.append(cause.as_str());
            Outgoing::Structured(error_envelope(t))
        },
        Reply::Mismatched => {
            let mut t = "Failed to send command: ".to_owned();
            t.append("results do not match the batch");
            Outgoing::Structured(error_envelope(t))
        },
        Reply::Invalid(e) => {
            let mut t = "Invalid buffer: ".to_owned();
            t.append(buffer_error_str(*e));
            Outgoing::Structured(error_envelope(t))
        },
        Reply::Unparsed(cause) => {
            let mut t = "Failed to parse command: ".to_owned();
            t.append(cause.as_str());
            Outgoing::Plain(t)
        },
    }
}

pub open spec fn buffer_error_text(e: BufferError) -> Seq<char> {
    match e {
        BufferError::PartialWord => "length is not a multiple of 8"@,
        BufferError::PastAddressSpace => "write runs past the 32-bit address space"@,
    }
}

fn buffer_error_str(e: BufferError) -> (s: &'static str)
    ensures
        s@ == buffer_error_text(e),
{
    match e {
        BufferError::PartialWord => "length is not a multiple of 8",
        BufferError::PastAddressSpace => "write runs past the 32-bit address space",
    }
}

/// What a session's transport hands it.
#[derive(Clone, Copy, Debug, PartialEq, Eq, Structural)]
pub enum Event {
    /// A text message.
    Text,
    /// The client closed the connection.
    Close,
    /// Reading from the connection failed.
    ReadFailed,
    /// Any other kind of message, binary included.
    Other,
    /// The reply was written.
    Sent,
    /// Writing the reply failed.
    SendFailed,
}

/// What a session does next.
#[derive(Clone, Copy, Debug, PartialEq, Eq, Structural)]
pub enum Step {
    /// Decode the text, dispatch it, and write the reply.
    Dispatch,
    /// Read the next message without replying.
    Next,
    /// End the session.
    Stop,
}

/// The session's decision on one event: text is dispatched, a close or a
/// failed read or write ends the session, anything else is skipped.
pub fn next_step(e: Event) -> (s: Step)
    ensures
        s == match e {
            Event::Text => Step::Dispatch,
            Event::Close | Event::ReadFailed | Event::SendFailed => Step::Stop,
            Event::Other | Event::Sent => Step::Next,
        },
{
    match e {
        Event::Text => Step::Dispatch,
        Event::Close | Event::ReadFailed | Event::SendFailed => Step::Stop,
        Event::Other | Event::Sent => Step::Next,
    }
}

/// Whether a handshake for resource `path` is accepted: only the root is.
pub fn accept_path(path: &str) -> (b: bool)
    ensures
        b == (path@ == "/"@),
{
    let p = path.to_owned();
    p == "/".to_owned()
}

} // verus!
