//! A bridge between message-oriented clients and an emulator-control backend:
//! the command vocabulary, its codec over a small structured-value model, the
//! expansion of buffer writes into word writes, the decisions that each client
//! session takes, and the choice of backend endpoint at startup.

mod buffer;
mod codec;
mod command;
mod config;
mod session;
mod value;

pub use buffer::{expand_write_buffer, le_word, BufferError};
pub use codec::{
    decode_command, decode_response, decode_status, encode_response, encode_status,
    lemma_response_round_trip, CodecError,
};
pub use command::{is_answer, Command, Response, Status};
pub use config::{resolve_target, ConfigError, Endpoint, DUCKSTATION_SLOT, PCSX2_SLOT, RPCS3_SLOT};
pub use session::{
    accept_path, check_results, decode_request, encode_reply, finish, next_step, plan, plan_message,
    Event, Outgoing, Plan, Reply, Request, RequestError, Step,
};
pub use value::{position, Message, Node, Record, Scalar};
