//! A typed encoder/decoder and dispatch layer for the TMCL motor-controller
//! command language.
//!
//! Typed instruction values are rendered to an exact wire encoding, wire
//! replies are decoded back into typed return values, and the register /
//! capability rules of the protocol (read vs. write vs. persist) are enforced
//! by trait bounds, so that for instance a get-parameter instruction cannot be
//! built over a write-only register type.

pub mod codec;
pub mod status;
pub mod errors;
pub mod parameters;
pub mod instructions;
pub mod command;
pub mod interface;
pub mod modules;

pub use command::Command;
pub use command::Reply;
pub use errors::Error;
pub use errors::ParameterError;
pub use instructions::Instruction;
pub use instructions::Return;
pub use interface::Interface;
pub use interface::SharedInterface;
pub use parameters::AxisParameter;
pub use parameters::ReadableAxisParameter;
pub use parameters::WriteableAxisParameter;
pub use status::ErrStatus;
pub use status::NonValidErrorCode;
pub use status::OkStatus;
pub use status::Status;
