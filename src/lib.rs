//! A length-prefixed, colon-delimited control protocol for a networked smart
//! socket: frame codec, command/response grammar, the per-connection request
//! logic and the listener's accept/shutdown discipline.

pub mod client;
pub mod command;
pub mod error;
pub mod frame;
pub mod handler;
pub mod response;
pub mod supervisor;
pub mod text;

pub use command::Command;
pub use error::ProtocolError;
pub use frame::{read_message, serialize_message};
pub use response::Response;
