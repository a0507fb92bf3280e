//! Client library for the ROAP control interface of 2012-era LG televisions.
//!
//! The library covers everything the protocol decides: the static catalog of
//! remote-control commands, the three XML request payloads, the request URLs,
//! the pairing state of a television, and the rules by which a command-line
//! invocation is turned into requests, messages and an exit code.  Performing
//! the HTTP exchanges themselves is left to the calling program, which hands
//! the raw status codes back to this library.

pub mod device;
pub mod numbers;
pub mod registry;
pub mod shell;

pub use device::{content_type, ControlRequest, LGTV};
pub use numbers::{parse_u32, u32_to_dec};
pub use registry::{lookup, lookup_ci};
pub use shell::{
    bad_key_outcome, command_outcome, display_code_outcome, pair_outcome, plan, sending_message,
    unknown_command_outcome, usage_outcome, Outcome, Plan,
};
