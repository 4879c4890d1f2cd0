//! Decision logic of a screen recorder: frames are validated, stamped and
//! handed to a codec in order, and the container is always closed properly.
//!
//! The crate holds no codec and no capture device. Every component is a
//! state machine: the caller performs the command it is handed (open the
//! output, submit a frame, write a packet, ...) and reports what happened.

pub mod error;
pub mod capture;
pub mod command;
pub mod encode_loop;
pub mod encoder;
pub mod frame;
pub mod lifecycle;
pub mod pipeline;
pub mod session;
