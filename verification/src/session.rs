//! The session: one engine handle together with the configuration it was
//! created from.
//!
//! A session is in one of three states. Before `GgWave::new` there is none;
//! a value of `GgWave` is an active session; `GgWave::release` consumes the
//! value and yields the handle to free, so a handle leaves a session exactly
//! once and no session can be used after it.

use crate::error::Error;
use crate::ffi::ggwave_Parameters;
use std::marker::PhantomData;
use std::rc::Rc;
use vstd::prelude::*;

verus! {

/// An active session on the engine.
///
/// The engine keeps its handles in a process-wide table without any locking,
/// so a session must stay on the thread that created it. The marker field
/// makes the type neither `Send` nor `Sync`.
#[derive(Debug)]
pub struct GgWave {
    instance: i32,
    parameters: ggwave_Parameters,
    _not_send_sync: PhantomData<Rc<()>>,
}

impl GgWave {
    #[verifier::type_invariant]
    spec fn active(&self) -> bool {
        self.instance >= 0
    }

    /// The engine handle that this session owns.
    pub closed spec fn spec_instance(&self) -> int {
        self.instance as int
    }

    /// The configuration that this session was created from.
    pub closed spec fn spec_parameters(&self) -> ggwave_Parameters {
        self.parameters
    }

    /// Binds a session to `instance`, the engine's answer to an
    /// initialization with `parameters`.
    ///
    /// A negative answer means that the engine has no free handle or refused
    /// the configuration, and no session comes to be.
    pub fn new(parameters: ggwave_Parameters, instance: i32) -> (r: Result<GgWave, Error>)
        ensures
            instance >= 0 ==> (r matches Ok(session) && session.spec_instance() == instance
                && session.spec_parameters() == parameters),
            instance < 0 ==> r matches Err(Error::InitFailed),
    {
        if instance < 0 {
            return Err(Error::InitFailed);
        }
        Ok(GgWave { instance, parameters, _not_send_sync: PhantomData })
    }

    pub fn parameters(&self) -> (p: &ggwave_Parameters)
        ensures
            *p == self.spec_parameters(),
    {
        &self.parameters
    }

    /// The handle to name in every engine call of this session.
    pub fn instance(&self) -> (handle: i32)
        ensures
            handle == self.spec_instance(),
            handle >= 0,
    {
        proof {
            use_type_invariant(self);
        }
        self.instance
    }

    /// Ends the session and yields the handle, which the caller now frees.
    pub fn release(self) -> (handle: i32)
        ensures
            handle == self.spec_instance(),
            handle >= 0,
    {
        proof {
            use_type_invariant(&self);
        }
        self.instance
    }
}

} // verus!
