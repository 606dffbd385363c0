//! Resolving the slave side of a pseudoterminal from its master, without
//! shared state between calls.
//!
//! * [`native`] asks the operating system directly, where it offers a
//!   reentrant query of its own.
//! * [`reply`] turns the answer of a "get slave name" device-control request
//!   into the same kind of result, for systems that only offer that request.
//! * [`buffer`] and [`text`] hold the two steps of reading such an answer:
//!   cutting the name buffer at its terminator, and decoding what is left.
//! * [`error`] is the one failure there is: whatever the system reported.

pub mod buffer;
pub mod error;
pub mod native;
pub mod reply;
pub mod text;

pub use buffer::{fresh_buffer, name_length, SLAVE_NAME_MAX};
pub use error::OsError;
pub use native::{lift_native, ptsname_r};
pub use reply::{complete_request, decode_slave_name, interpret_reply};
