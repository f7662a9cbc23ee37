//! Temperature polling over a serial link: the frame codec, the shared
//! snapshot cell, and the reconnecting poll loop as a state machine.
pub mod message;
pub mod protocol;
pub mod reader;
pub mod state;

pub use protocol::{build_request_packet, crc8, parse_response_packet, ParseError, TemperatureData};
pub use reader::{Action, Effect, Outcome, Phase, PollLoop, Step};
pub use state::{Snapshot, TemperatureState};
