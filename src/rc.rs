use vstd::prelude::*;

use crate::error::RfcErrorInfo;

verus! {

/// Status code returned by every call into the native runtime.
#[derive(Clone, Copy, Debug, PartialEq, Eq, Structural)]
pub enum RfcRc {
    RfcOk,
    CommunicationFailure,
    LogonFailure,
    AbapRuntimeFailure,
    AbapMessage,
    AbapException,
    Closed,
    Canceled,
    Timeout,
    MemoryInsufficient,
    VersionMismatch,
    InvalidProtocol,
    SerializationFailure,
    InvalidHandle,
    Retry,
    ExternalFailure,
    Executed,
    NotFound,
    NotSupported,
    IllegalState,
    InvalidParameter,
    CodepageConversionFailure,
    ConversionFailure,
    BufferTooSmall,
    TableMoveBof,
    TableMoveEof,
    StartSapguiFailure,
    AbapClassException,
    UnknownError,
    AuthorizationFailure,
}

/// Whether a status code reports success; `RfcOk` is the only such code.
pub fn is_rc_ok(rc: RfcRc) -> (r: bool)
    ensures
        r <==> rc == RfcRc::RfcOk,
{
    rc == RfcRc::RfcOk
}

/// Turn the status of a native call into a result: `Ok` for `RfcOk`, else
/// the error record that the call filled in.
pub fn check_rc(rc: RfcRc, err: RfcErrorInfo) -> (r: Result<(), RfcErrorInfo>)
    ensures
        rc == RfcRc::RfcOk ==> r is Ok,
        rc != RfcRc::RfcOk ==> r == Err::<(), RfcErrorInfo>(err),
{
    if is_rc_ok(rc) {
        Ok(())
    } else {
        Err(err)
    }
}

/// Turn the handle returned by a native call into a result: the handle where
/// it is not null (zero), else the error record that the call filled in.
pub fn check_handle(handle: usize, err: RfcErrorInfo) -> (r: Result<usize, RfcErrorInfo>)
    ensures
        handle != 0 ==> r == Ok::<usize, RfcErrorInfo>(handle),
        handle == 0 ==> r == Err::<usize, RfcErrorInfo>(err),
{
    if handle == 0 {
        Err(err)
    } else {
        Ok(handle)
    }
}

/// What taking a handle out of a slot holding `h` returns, and what the
/// slot holds afterwards.
pub open spec fn take_spec(h: usize) -> (Option<usize>, usize) {
    (if h == 0 { None } else { Some(h) }, 0)
}

/// A native handle that is released at most once. Zero is the null
/// sentinel: a released slot holds zero.
#[derive(Debug)]
pub struct HandleSlot {
    handle: usize,
}

impl View for HandleSlot {
    type V = usize;

    closed spec fn view(&self) -> usize {
        self.handle
    }
}

impl HandleSlot {
    pub fn new(handle: usize) -> (r: HandleSlot)
        ensures
            r@ == handle,
    {
        HandleSlot { handle }
    }

    /// The handle, or zero once released.
    pub fn get(&self) -> (r: usize)
        ensures
            r == self@,
    {
        self.handle
    }

    pub fn is_null(&self) -> (r: bool)
        ensures
            r <==> self@ == 0,
    {
        self.handle == 0
    }

    /// Hand the handle out for release and leave the null sentinel behind:
    /// the handle the first time, `None` on every later call.
    pub fn take(&mut self) -> (r: Option<usize>)
        ensures
            (r, final(self)@) == take_spec(old(self)@),
    {
        if self.handle == 0 {
            None
        } else {
            let h = self.handle;
            self.handle = 0;
            Some(h)
        }
    }
}

} // verus!
