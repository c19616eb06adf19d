//! The wire protocol of the SparkFun Qwiic MP3 Trigger, an MP3 player that is driven over I2C.
//!
//! The crate says what is written to the bus for each operation, in which order a query is
//! written, given time to settle and read back, and what the eight bytes of a reply mean.
//! It performs no transfer and no wait itself: a caller that owns the bus does what the steps
//! of an exchange ask for and reports how it went.
//!
//! - [`command`]: the operations and their frames.
//! - [`exchange`]: the steps of a query, from the write of its frame to its reply.
//! - [`response`]: the decoders of the replies.
//! - [`opcode`], [`equalizer`]: the bytes that stand for commands and equalizer modes.
//! - [`decimal`]: the numerals in which a version is written.

pub mod command;
pub mod decimal;
pub mod equalizer;
pub mod exchange;
pub mod opcode;
pub mod response;

pub use command::{Command, Frame, Query};
pub use equalizer::EqualizerMode;
pub use exchange::{Reading, Settling, Step, Writing};
pub use opcode::Opcode;
pub use response::{CardStatus, PlayStatus};
