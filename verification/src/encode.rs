//! The encode path: a payload becomes a waveform in two engine calls.
//!
//! The engine cannot write a waveform before the caller has a buffer for it,
//! and the caller cannot size the buffer before the engine has said how long
//! the waveform will be. So the same engine call is made twice: first as a
//! query, without a destination, then with a buffer of the size that the query
//! returned. Each phase is a type of its own. `GgWave::encode` yields an
//! `EncodeQuery`, `EncodeQuery::sized` turns the engine's answer into an
//! `EncodeFill`, and `EncodeFill::finish` turns the second answer into the
//! waveform. There is no way to reach the fill without the query.

use crate::buffer::{trim, trimmed, zeroed};
use crate::error::{to_c_int, Error};
use crate::ffi::ggwave_ProtocolId;
use crate::session::GgWave;
use vstd::prelude::*;

verus! {

/// Softest volume that encode accepts.
pub const MIN_VOLUME: i32 = 0;

/// Loudest volume that encode accepts.
pub const MAX_VOLUME: i32 = 100;

/// What the engine is told in both phases of one encode.
#[derive(Debug, Copy, Clone, PartialEq, Eq, Structural)]
pub struct EncodeArgs {
    /// Handle of the session.
    pub instance: i32,
    /// Length of the payload in bytes.
    pub payload_len: i32,
    /// Protocol to modulate with.
    pub protocol: ggwave_ProtocolId,
    /// Volume, from `MIN_VOLUME` to `MAX_VOLUME`.
    pub volume: i32,
}

impl EncodeArgs {
    /// Whether these arguments may be handed to the engine.
    pub open spec fn valid(self) -> bool {
        &&& self.instance >= 0
        &&& self.payload_len >= 0
        &&& MIN_VOLUME <= self.volume <= MAX_VOLUME
    }
}

/// First phase: the engine is to be asked for the waveform's size.
#[derive(Debug)]
pub struct EncodeQuery {
    args: EncodeArgs,
}

/// Second phase: the engine is to fill a buffer of the size it asked for.
#[derive(Debug)]
pub struct EncodeFill {
    args: EncodeArgs,
    capacity: usize,
}

impl GgWave {
    /// What `encode` answers for a payload of `payload_len` bytes at `volume`:
    /// which input is rejected, and why.
    pub open spec fn encode_rejection(payload_len: nat, volume: int) -> Option<Seq<char>> {
        if !(MIN_VOLUME <= volume <= MAX_VOLUME) {
            Some("volume must be between 0 and 100"@)
        } else if payload_len > i32::MAX {
            Some("payload too large"@)
        } else {
            None
        }
    }

    /// Starts the encoding of `payload` with `protocol` at `volume`.
    ///
    /// The volume must lie between 0 and 100, both included, and the length of
    /// the payload must fit the engine's signed 32-bit size field. Either
    /// violation is reported before the engine is involved. Otherwise the
    /// result is the query to make on the engine.
    pub fn encode(&self, payload: &[u8], protocol: ggwave_ProtocolId, volume: i32) -> (r: Result<
        EncodeQuery,
        Error,
    >)
        ensures
            match Self::encode_rejection(payload@.len(), volume as int) {
                Some(reason) => r matches Err(e) && e.rejects(reason),
                None => r matches Ok(query) && query@ == (EncodeArgs {
                    instance: self.spec_instance() as i32,
                    payload_len: payload@.len() as i32,
                    protocol,
                    volume,
                }),
            },
    {
        if !(MIN_VOLUME <= volume && volume <= MAX_VOLUME) {
            return Err(Error::InvalidInput("volume must be between 0 and 100"));
        }
        let payload_len = match to_c_int(payload.len(), "payload too large") {
            Ok(n) => n,
            Err(e) => {
                return Err(e);
            },
        };
        let instance = self.instance();
        Ok(EncodeQuery { args: EncodeArgs { instance, payload_len, protocol, volume } })
    }
}

impl View for EncodeQuery {
    type V = EncodeArgs;

    closed spec fn view(&self) -> EncodeArgs {
        self.args
    }
}

impl EncodeQuery {
    #[verifier::type_invariant]
    spec fn well_formed(&self) -> bool {
        self.args.valid()
    }

    /// The arguments of the query call. The call has no destination and asks
    /// for the size only.
    pub fn args(&self) -> (a: EncodeArgs)
        ensures
            a == self@,
            a.valid(),
    {
        proof {
            use_type_invariant(self);
        }
        self.args
    }

    /// Takes `size`, the engine's answer to the query.
    ///
    /// A size that is not positive means that the engine cannot encode the
    /// payload. A positive size is the exact capacity of the buffer to fill.
    pub fn sized(self, size: i32) -> (r: Result<EncodeFill, Error>)
        ensures
            size <= 0 ==> r matches Err(Error::EncodeFailed),
            size > 0 ==> (r matches Ok(fill) && fill.spec_args() == self@ && fill.spec_capacity()
                == size),
    {
        proof {
            use_type_invariant(&self);
        }
        if size <= 0 {
            return Err(Error::EncodeFailed);
        }
        Ok(EncodeFill { args: self.args, capacity: size as usize })
    }
}

impl EncodeFill {
    #[verifier::type_invariant]
    spec fn well_formed(&self) -> bool {
        &&& self.args.valid()
        &&& 0 < self.capacity <= i32::MAX
    }

    /// The arguments of the fill call: those of the query.
    pub closed spec fn spec_args(&self) -> EncodeArgs {
        self.args
    }

    /// The size that the engine asked for.
    pub closed spec fn spec_capacity(&self) -> int {
        self.capacity as int
    }

    pub fn args(&self) -> (a: EncodeArgs)
        ensures
            a == self.spec_args(),
            a.valid(),
    {
        proof {
            use_type_invariant(self);
        }
        self.args
    }

    pub fn capacity(&self) -> (n: usize)
        ensures
            n == self.spec_capacity(),
            0 < n <= i32::MAX,
    {
        proof {
            use_type_invariant(self);
        }
        self.capacity
    }

    /// The destination of the fill call: as many zero bytes as the engine
    /// asked for, no more and no fewer.
    pub fn buffer(&self) -> (waveform: Vec<u8>)
        ensures
            waveform@ == Seq::new(self.spec_capacity() as nat, |i: int| 0u8),
    {
        proof {
            use_type_invariant(self);
        }
        zeroed(self.capacity)
    }

    /// Takes the buffer that the engine wrote to and `written`, its answer to
    /// the fill call.
    ///
    /// An answer that is not positive is a failure. Otherwise the waveform is
    /// the first `written` bytes of the buffer: the engine may have asked for
    /// more room than it used, and the rest is cut off.
    pub fn finish(self, waveform: Vec<u8>, written: i32) -> (r: Result<Vec<u8>, Error>)
        ensures
            written <= 0 ==> r matches Err(Error::EncodeFailed),
            written > 0 ==> (r matches Ok(out) && out@ == trimmed(waveform@, written as int)),
            written > 0 && waveform@.len() == self.spec_capacity() ==> (r matches Ok(out)
                && 0 < out@.len() <= self.spec_capacity()),
    {
        proof {
            use_type_invariant(&self);
        }
        if written <= 0 {
            return Err(Error::EncodeFailed);
        }
        Ok(trim(waveform, written as usize))
    }
}

} // verus!
