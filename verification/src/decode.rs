//! The decode path: a waveform becomes a payload, or nothing, or an error.
//!
//! The engine cannot say in advance how long a decoded payload will be, so
//! the destination has a fixed capacity, `MAX_DATA_SIZE`, and the engine
//! reports either how much of it was used or that it did not suffice. Its
//! return code has three meanings, which `Decoded` keeps apart: a waveform
//! that holds no complete transmission is no failure.

use crate::buffer::{trim, trimmed, zeroed};
use crate::error::{to_c_int, Error};
use crate::session::GgWave;
use vstd::prelude::*;

verus! {

/// Largest payload that a session decodes, in bytes.
pub const MAX_DATA_SIZE: usize = 256;

/// The engine's return code for a failure while decoding.
pub const DECODE_FAILED: i32 = -1;

/// The engine's return code for a payload that does not fit the destination.
pub const DECODE_BUFFER_TOO_SMALL: i32 = -2;

/// One decode call to make on the engine.
#[derive(Debug)]
pub struct DecodeCall {
    instance: i32,
    waveform_len: i32,
}

/// What a decode call came to.
#[derive(Debug)]
pub enum Decoded {
    /// The waveform holds no payload that can be decoded yet.
    Nothing,
    /// The payload, exactly as long as the engine reported.
    Payload(Vec<u8>),
    /// The engine failed, or the payload did not fit.
    Failed(Error),
}

impl GgWave {
    /// Starts the decoding of `waveform`.
    ///
    /// The length of the waveform must fit the engine's signed 32-bit size
    /// field; a longer one is rejected before the engine is involved.
    /// Otherwise the result is the call to make on the engine.
    pub fn decode(&self, waveform: &[u8]) -> (r: Result<DecodeCall, Error>)
        ensures
            waveform@.len() <= i32::MAX ==> (r matches Ok(call) && call.spec_instance()
                == self.spec_instance() && call.spec_waveform_len() == waveform@.len()),
            waveform@.len() > i32::MAX ==> (r matches Err(e) && e.rejects(
                "waveform too large"@,
            )),
    {
        let waveform_len = match to_c_int(waveform.len(), "waveform too large") {
            Ok(n) => n,
            Err(e) => {
                return Err(e);
            },
        };
        let instance = self.instance();
        Ok(DecodeCall { instance, waveform_len })
    }
}

impl DecodeCall {
    #[verifier::type_invariant]
    spec fn well_formed(&self) -> bool {
        &&& self.instance >= 0
        &&& self.waveform_len >= 0
    }

    /// Handle of the session that decodes.
    pub closed spec fn spec_instance(&self) -> int {
        self.instance as int
    }

    /// Length of the waveform in bytes.
    pub closed spec fn spec_waveform_len(&self) -> int {
        self.waveform_len as int
    }

    pub fn instance(&self) -> (handle: i32)
        ensures
            handle == self.spec_instance(),
            handle >= 0,
    {
        proof {
            use_type_invariant(self);
        }
        self.instance
    }

    pub fn waveform_len(&self) -> (n: i32)
        ensures
            n == self.spec_waveform_len(),
            n >= 0,
    {
        proof {
            use_type_invariant(self);
        }
        self.waveform_len
    }

    /// Capacity of the destination, as the engine's size field takes it.
    pub fn capacity(&self) -> (n: i32)
        ensures
            n == MAX_DATA_SIZE,
    {
        256
    }

    /// The destination of the call: `MAX_DATA_SIZE` zero bytes.
    pub fn buffer(&self) -> (payload: Vec<u8>)
        ensures
            payload@ == Seq::new(MAX_DATA_SIZE as nat, |i: int| 0u8),
    {
        zeroed(MAX_DATA_SIZE)
    }

    /// Takes the buffer that the engine wrote to and `decoded`, its return
    /// code.
    ///
    /// Zero gives `Nothing`. A positive code is the payload's length, and the
    /// payload is that many bytes from the start of the buffer. The code for
    /// a destination that is too small gives `BufferTooSmall`, so a payload
    /// over the capacity is never cut short in silence. Every other negative
    /// code gives `DecodeFailed`.
    pub fn finish(self, payload: Vec<u8>, decoded: i32) -> (r: Decoded)
        ensures
            decoded == 0 ==> r is Nothing,
            decoded > 0 ==> (r matches Decoded::Payload(out) && out@ == trimmed(
                payload@,
                decoded as int,
            )),
            decoded == DECODE_BUFFER_TOO_SMALL ==> r matches Decoded::Failed(Error::BufferTooSmall),
            decoded < 0 && decoded != DECODE_BUFFER_TOO_SMALL ==> r matches Decoded::Failed(
                Error::DecodeFailed,
            ),
    {
        if decoded == 0 {
            Decoded::Nothing
        } else if decoded == DECODE_FAILED {
            Decoded::Failed(Error::DecodeFailed)
        } else if decoded == DECODE_BUFFER_TOO_SMALL {
            Decoded::Failed(Error::BufferTooSmall)
        } else if decoded > 0 {
            Decoded::Payload(trim(payload, decoded as usize))
        } else {
            Decoded::Failed(Error::DecodeFailed)
        }
    }
}

impl Decoded {
    /// The outcome for callers that propagate failures: `Ok(None)` where
    /// nothing was decoded, `Ok(Some(..))` with the payload, `Err(..)` with
    /// the failure.
    pub fn into_result(self) -> (r: Result<Option<Vec<u8>>, Error>)
        ensures
            match self {
                Decoded::Nothing => r matches Ok(None),
                Decoded::Payload(payload) => r matches Ok(Some(out)) && out == payload,
                Decoded::Failed(error) => r matches Err(e) && e == error,
            },
    {
        match self {
            Decoded::Nothing => Ok(None),
            Decoded::Payload(payload) => Ok(Some(payload)),
            Decoded::Failed(error) => Err(error),
        }
    }
}

} // verus!
