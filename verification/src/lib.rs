//! Session and transfer-buffer rules for the ggwave data-over-sound codec.
//!
//! The codec engine itself is a native component that this crate never calls.
//! What lives here is everything that has to be decided around it: how a
//! session is bound to an engine handle, how a payload is sized and encoded in
//! two phases, how an engine return code becomes a decode outcome, and how
//! audio-file samples are framed for the engine. Each step takes the engine's
//! answer as a plain value, so the caller that owns the native handle makes
//! the calls and this crate makes the decisions.
#![allow(non_camel_case_types)]
#![allow(non_snake_case)]
#![allow(non_upper_case_globals)]

pub mod buffer;
pub mod command;
pub mod decode;
pub mod encode;
pub mod error;
pub mod ffi;
pub mod session;
pub mod wav;

pub use decode::MAX_DATA_SIZE;
pub use error::Error;
pub use session::GgWave;

pub use ffi::{
    ggwave_Parameters as Parameters, ggwave_ProtocolId as ProtocolId,
    ggwave_SampleFormat as SampleFormat, GGWAVE_OPERATING_MODE_RX,
    GGWAVE_OPERATING_MODE_RX_AND_TX, GGWAVE_OPERATING_MODE_TX,
    GGWAVE_OPERATING_MODE_TX_ONLY_TONES, GGWAVE_OPERATING_MODE_USE_DSS,
};
