//! Instrumentation surface for a realtime CPU/GPU sampling profiler.
//!
//! The engine that records samples is a native runtime outside this crate.
//! The library decides which engine calls a request needs and hands them
//! back as [`EngineCall`] values; the caller performs each one against the
//! engine. Engine results come back in as plain values.
pub mod cfixed_string;
pub mod engine;
pub mod error;

use vstd::prelude::*;
use vstd::string::StringSliceAdditionalSpecFns;
use crate::cfixed_string::{marshalled_as, CFixedString, NulError};
pub use crate::engine::{EngineCall, RmtError, SampleFlags};
use crate::error::{get_error, spec_get_error, RemoteryError};

verus! {

/// Why a request could not be turned into an engine call.
#[derive(Debug, Clone, Copy, PartialEq, Eq, Structural)]
pub enum CallError {
    /// No engine instance is active: it was never created, or was torn down.
    NotCreated,
    /// The text held a zero byte at this index.
    InteriorNul { position: usize },
}

/// `r` is the outcome owed for marshalling `text` while the handle is
/// `active`: `NotCreated` when it is not, and otherwise what marshalling
/// `text` gives.
pub open spec fn marshal_step(active: bool, text: Seq<u8>, r: Result<CFixedString, CallError>) -> bool {
    if !active {
        r == Err::<CFixedString, CallError>(CallError::NotCreated)
    } else {
        match r {
            Ok(c) => marshalled_as(Ok(c), text),
            Err(CallError::InteriorNul { position }) => marshalled_as(Err(NulError { position }), text),
            Err(CallError::NotCreated) => false,
        }
    }
}

/// The handle of the engine's global instance.
///
/// It holds the instance's address, zero once there is none. Sample, thread
/// name and log requests are answered only while an instance is held;
/// teardown gives the instance up and asks for its destruction once.
#[derive(Debug)]
pub struct Remotery {
    instance: usize,
}

/// `before` torn down gives `after` and asks for `r`: the destruction of the
/// instance held, if any, after which none is held.
pub open spec fn teardown_step(before: Remotery, r: Option<EngineCall>, after: Remotery) -> bool {
    &&& after.spec_instance() == 0
    &&& if before.spec_active() {
        r == Some(EngineCall::DestroyGlobalInstance { instance: before.spec_instance() })
    } else {
        r is None
    }
}

/// Number of destructions that `r` asks for.
pub open spec fn destroy_count(r: Option<EngineCall>) -> nat {
    if r matches Some(EngineCall::DestroyGlobalInstance { .. }) {
        1
    } else {
        0
    }
}

impl Remotery {
    /// Address of the engine instance held; zero when none is.
    pub closed spec fn spec_instance(&self) -> usize {
        self.instance
    }

    /// An engine instance is held.
    pub open spec fn spec_active(&self) -> bool {
        self.spec_instance() != 0
    }

    /// Builds the handle from what the engine's create call gave back: its
    /// status and the address of the instance it created. A nonzero status
    /// is decoded into the error; no handle is produced then.
    pub fn create_global_instance(status: u32, instance: usize) -> (r: Result<Remotery, RemoteryError>)
        ensures
            r is Ok <==> status == 0,
            r matches Ok(h) ==> h.spec_instance() == instance,
            r matches Err(e) ==> e == spec_get_error(status),
    {
        if status != 0 {
            return Err(get_error(status));
        }
        Ok(Remotery { instance })
    }

    /// Address of the engine instance held; zero when none is.
    pub fn instance(&self) -> (r: usize)
        ensures
            r == self.spec_instance(),
    {
        self.instance
    }

    /// An engine instance is held.
    pub fn is_active(&self) -> (r: bool)
        ensures
            r == self.spec_active(),
    {
        self.instance != 0
    }

    fn marshal(&self, text: &str) -> (r: Result<CFixedString, CallError>)
        ensures
            marshal_step(self.spec_active(), text.spec_bytes(), r),
    {
        if self.instance == 0 {
            return Err(CallError::NotCreated);
        }
        match CFixedString::from_str(text) {
            Ok(c) => Ok(c),
            Err(e) => Err(CallError::InteriorNul { position: e.position }),
        }
    }

    /// Asks to begin a CPU sample named `name`; it must be paired with
    /// [`Remotery::end_cpu_sample`] on the same thread.
    pub fn begin_cpu_sample(&self, name: &str, flags: SampleFlags) -> (r: Result<EngineCall, CallError>)
        ensures
            match r {
                Ok(EngineCall::BeginCpuSample { name: c, flags: f }) => f == flags && marshal_step(
                    self.spec_active(),
                    name.spec_bytes(),
                    Ok(c),
                ),
                Ok(_) => false,
                Err(e) => marshal_step(self.spec_active(), name.spec_bytes(), Err(e)),
            },
    {
        match self.marshal(name) {
            Ok(c) => Ok(EngineCall::BeginCpuSample { name: c, flags }),
            Err(e) => Err(e),
        }
    }

    /// Asks to end the innermost open CPU sample of the calling thread.
    pub fn end_cpu_sample(&self) -> (r: Result<EngineCall, CallError>)
        ensures
            self.spec_active() ==> r == Ok::<EngineCall, CallError>(EngineCall::EndCpuSample),
            !self.spec_active() ==> r == Err::<EngineCall, CallError>(CallError::NotCreated),
    {
        if self.instance == 0 {
            return Err(CallError::NotCreated);
        }
        Ok(EngineCall::EndCpuSample)
    }

    /// Asks to name the calling thread `name` in the viewer.
    pub fn set_current_thread_name(&self, name: &str) -> (r: Result<EngineCall, CallError>)
        ensures
            match r {
                Ok(EngineCall::SetCurrentThreadName { name: c }) => marshal_step(
                    self.spec_active(),
                    name.spec_bytes(),
                    Ok(c),
                ),
                Ok(_) => false,
                Err(e) => marshal_step(self.spec_active(), name.spec_bytes(), Err(e)),
            },
    {
        match self.marshal(name) {
            Ok(c) => Ok(EngineCall::SetCurrentThreadName { name: c }),
            Err(e) => Err(e),
        }
    }

    /// Asks to send `text` to the viewer's log.
    pub fn log_text(&self, text: &str) -> (r: Result<EngineCall, CallError>)
        ensures
            match r {
                Ok(EngineCall::LogText { text: c }) => marshal_step(
                    self.spec_active(),
                    text.spec_bytes(),
                    Ok(c),
                ),
                Ok(_) => false,
                Err(e) => marshal_step(self.spec_active(), text.spec_bytes(), Err(e)),
            },
    {
        match self.marshal(text) {
            Ok(c) => Ok(EngineCall::LogText { text: c }),
            Err(e) => Err(e),
        }
    }

    /// Gives up the instance held and asks for its destruction; on a handle
    /// that holds none it asks for nothing, so a second call does nothing.
    pub fn teardown(&mut self) -> (r: Option<EngineCall>)
        ensures
            teardown_step(*old(self), r, *final(self)),
    {
        if self.instance == 0 {
            return None;
        }
        let instance = self.instance;
        self.instance = 0;
        Some(EngineCall::DestroyGlobalInstance { instance })
    }
}

/// Teardown is idempotent: tearing a handle down twice asks for exactly one
/// destruction when it held an instance, and for none when it held none.
pub proof fn lemma_teardown_idempotent(
    h: Remotery,
    first: Option<EngineCall>,
    mid: Remotery,
    second: Option<EngineCall>,
    last: Remotery,
)
    requires
        teardown_step(h, first, mid),
        teardown_step(mid, second, last),
    ensures
        destroy_count(first) + destroy_count(second) == if h.spec_active() {
            1nat
        } else {
            0nat
        },
        second is None,
{
}

/// Closing `scope` asks for `r`: one end of its sample when its begin was
/// asked for and its handle still holds an instance, and nothing otherwise.
pub open spec fn scope_end_step(scope: RemoteryScope, r: Option<EngineCall>) -> bool {
    if scope.spec_began() && scope.spec_profiler().spec_active() {
        r == Some(EngineCall::EndCpuSample)
    } else {
        r is None
    }
}

/// Number of sample begins that `r` asks for.
pub open spec fn begin_count(r: Result<EngineCall, CallError>) -> nat {
    if r matches Ok(EngineCall::BeginCpuSample { .. }) {
        1
    } else {
        0
    }
}

/// Number of sample ends that `r` asks for.
pub open spec fn end_count(r: Option<EngineCall>) -> nat {
    if r matches Some(EngineCall::EndCpuSample) {
        1
    } else {
        0
    }
}

/// A scope asks for as many sample ends as it asked for begins: one each
/// when the begin could be asked for, none otherwise.
pub proof fn lemma_scope_balanced(
    scope: RemoteryScope,
    begin: Result<EngineCall, CallError>,
    end: Option<EngineCall>,
)
    requires
        scope.spec_began() == begin is Ok,
        scope.spec_began() ==> scope.spec_profiler().spec_active(),
        begin matches Ok(call) ==> call is BeginCpuSample,
        scope_end_step(scope, end),
    ensures
        begin_count(begin) == end_count(end),
        end_count(end) <= 1,
{
}

/// A guard around one CPU sample: building it asks to begin the sample,
/// ending it asks to end the sample exactly when the begin was asked for.
///
/// The guard borrows its handle, so the handle cannot be torn down while
/// the guard lives. It is neither `Clone` nor `Copy`, nor `Send` or `Sync`,
/// and [`RemoteryScope::end`] consumes it, so no sample can be ended twice
/// or on another thread.
#[derive(Debug)]
pub struct RemoteryScope<'a> {
    profiler: &'a Remotery,
    began: bool,
    thread_bound: std::marker::PhantomData<std::rc::Rc<()>>,
}

impl<'a> RemoteryScope<'a> {
    /// The begin of this scope's sample was asked for.
    pub closed spec fn spec_began(&self) -> bool {
        self.began
    }

    /// The handle that the scope was opened on.
    pub closed spec fn spec_profiler(&self) -> Remotery {
        *self.profiler
    }

    /// Opens a scope named `name` on `profiler`. Opening never fails: when
    /// the begin cannot be asked for, the error comes with the scope, and
    /// the scope asks for no end either.
    pub fn new(profiler: &'a Remotery, name: &str, flags: SampleFlags) -> (r: (
        RemoteryScope<'a>,
        Result<EngineCall, CallError>,
    ))
        ensures
            r.0.spec_profiler() == *profiler,
            r.0.spec_began() == r.1 is Ok,
            r.0.spec_began() ==> profiler.spec_active(),
            match r.1 {
                Ok(EngineCall::BeginCpuSample { name: c, flags: f }) => f == flags && marshal_step(
                    profiler.spec_active(),
                    name.spec_bytes(),
                    Ok(c),
                ),
                Ok(_) => false,
                Err(e) => marshal_step(profiler.spec_active(), name.spec_bytes(), Err(e)),
            },
    {
        let begin = profiler.begin_cpu_sample(name, flags);
        let began = begin.is_ok();
        (RemoteryScope { profiler, began, thread_bound: std::marker::PhantomData }, begin)
    }

    /// Closes the scope: asks to end its sample when its begin was asked for
    /// and its handle still holds an instance.
    pub fn end(self) -> (r: Option<EngineCall>)
        ensures
            scope_end_step(self, r),
    {
        if self.began && self.profiler.is_active() {
            Some(EngineCall::EndCpuSample)
        } else {
            None
        }
    }
}

} // verus!
