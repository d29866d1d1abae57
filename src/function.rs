//! Remote-enabled function modules: a description handle and an instance
//! handle, released in that order's reverse, exactly once each.
use vstd::prelude::*;

use crate::connection::RfcConnection;
use crate::error::{RfcErrorInfo, Warning};
use crate::parameter::{RfcParameter, RfcParameterDesc};
use crate::rc::{check_rc, HandleSlot, RfcRc};

verus! {

/// A native call that releasing a function asks for.
#[derive(PartialEq, Eq, Structural, Clone, Copy, Debug)]
pub enum ReleaseStep {
    /// Destroy the instance handle.
    DestroyInstance(usize),
    /// Destroy the description handle.
    DestroyDescription(usize),
}

/// What the next release call returns for an instance handle `func` and a
/// description handle `desc` (zero: already released), and the two handles
/// it leaves behind. The instance goes first.
pub open spec fn release_spec(func: usize, desc: usize) -> (Option<ReleaseStep>, usize, usize) {
    if func != 0 {
        (Some(ReleaseStep::DestroyInstance(func)), 0, desc)
    } else if desc != 0 {
        (Some(ReleaseStep::DestroyDescription(desc)), 0, 0)
    } else {
        (None, 0, 0)
    }
}

/// What to report after destroying the instance returned `rc`.
pub open spec fn instance_report_spec(rc: RfcRc, err: RfcErrorInfo) -> Option<Warning> {
    if rc == RfcRc::RfcOk {
        None
    } else {
        Some(Warning::FunctionDiscardFailed(err))
    }
}

/// What to report after destroying the description returned `rc`. The
/// runtime refuses with `IllegalState` a description that its cache holds;
/// the cache then owns it, so that is no failure.
pub open spec fn description_report_spec(rc: RfcRc, err: RfcErrorInfo) -> Option<Warning> {
    if rc == RfcRc::RfcOk || rc == RfcRc::IllegalState {
        None
    } else {
        Some(Warning::FunctionDescriptionDiscardFailed(err))
    }
}

/// A function module instance. It owns its description and instance handles
/// and borrows the connection it was resolved on.
#[derive(Debug)]
pub struct RfcFunction<'conn> {
    conn: &'conn RfcConnection,
    desc: HandleSlot,
    func: HandleSlot,
}

impl<'conn> RfcFunction<'conn> {
    /// The description handle; zero once released.
    pub closed spec fn spec_desc_handle(&self) -> usize {
        self.desc@
    }

    /// The instance handle; zero once released.
    pub closed spec fn spec_func_handle(&self) -> usize {
        self.func@
    }

    pub closed spec fn spec_connection(&self) -> usize {
        self.conn@
    }

    /// The function made from a resolved description `desc` and the result
    /// of creating an instance from it: an error, the record that the create
    /// call filled in, where the instance handle is null.
    pub fn new(conn: &'conn RfcConnection, desc: usize, func: usize, err: RfcErrorInfo) -> (r: Result<
        RfcFunction<'conn>,
        RfcErrorInfo,
    >)
        requires
            desc != 0,
        ensures
            func != 0 ==> (r matches Ok(f) && f.spec_desc_handle() == desc && f.spec_func_handle() == func
                && f.spec_connection() == conn@),
            func == 0 ==> r == Err::<RfcFunction<'conn>, RfcErrorInfo>(err),
    {
        if func == 0 {
            Err(err)
        } else {
            Ok(RfcFunction { conn, desc: HandleSlot::new(desc), func: HandleSlot::new(func) })
        }
    }

    /// The connection handle that invoking the function goes through.
    pub fn connection_handle(&self) -> (r: usize)
        ensures
            r == self.spec_connection(),
    {
        self.conn.handle()
    }

    /// The description handle, to resolve parameters against.
    pub fn desc_handle(&self) -> (r: usize)
        ensures
            r == self.spec_desc_handle(),
    {
        self.desc.get()
    }

    /// The instance handle, the data container of the parameters.
    pub fn func_handle(&self) -> (r: usize)
        ensures
            r == self.spec_func_handle(),
    {
        self.func.get()
    }

    /// The parameter that the description lookup for it returned: `rc` and
    /// `err` are the lookup's status and error record, `desc` the descriptor
    /// it filled in. The parameter borrows this function and cannot outlive it.
    pub fn get_parameter<'param>(&'param self, rc: RfcRc, desc: RfcParameterDesc, err: RfcErrorInfo) -> (r:
        Result<RfcParameter<'param>, RfcErrorInfo>)
        ensures
            rc == RfcRc::RfcOk ==> (r matches Ok(p) && p.desc() == desc && p.container()
                == self.spec_func_handle()),
            rc != RfcRc::RfcOk ==> r == Err::<RfcParameter<'param>, RfcErrorInfo>(err),
    {
        match check_rc(rc, err) {
            Ok(()) => Ok(RfcParameter::new(&self.func, desc)),
            Err(e) => Err(e),
        }
    }

    /// The result of invoking the function, from the invoke call's status and
    /// error record.
    pub fn invoke_result(&self, rc: RfcRc, err: RfcErrorInfo) -> (r: Result<(), RfcErrorInfo>)
        ensures
            rc == RfcRc::RfcOk ==> r is Ok,
            rc != RfcRc::RfcOk ==> r == Err::<(), RfcErrorInfo>(err),
    {
        check_rc(rc, err)
    }

    /// The next native call that releasing the function needs: the instance
    /// first, then the description, each at most once; `None` once both are
    /// released.
    pub fn next_release(&mut self) -> (r: Option<ReleaseStep>)
        ensures
            (r, final(self).spec_func_handle(), final(self).spec_desc_handle()) == release_spec(
                old(self).spec_func_handle(),
                old(self).spec_desc_handle(),
            ),
            final(self).spec_connection() == old(self).spec_connection(),
    {
        match self.func.take() {
            Some(f) => Some(ReleaseStep::DestroyInstance(f)),
            None => match self.desc.take() {
                Some(d) => Some(ReleaseStep::DestroyDescription(d)),
                None => None,
            },
        }
    }

    /// What to report after destroying the instance returned `rc`: a warning
    /// for any failure.
    pub fn instance_release_report(rc: RfcRc, err: RfcErrorInfo) -> (r: Option<Warning>)
        ensures
            r == instance_report_spec(rc, err),
    {
        if rc == RfcRc::RfcOk {
            None
        } else {
            Some(Warning::FunctionDiscardFailed(err))
        }
    }

    /// What to report after destroying the description returned `rc`: a
    /// warning for any failure but `IllegalState`, which the runtime gives
    /// for a description that its cache holds.
    pub fn description_release_report(rc: RfcRc, err: RfcErrorInfo) -> (r: Option<Warning>)
        ensures
            r == description_report_spec(rc, err),
    {
        if rc == RfcRc::RfcOk || rc == RfcRc::IllegalState {
            None
        } else {
            Some(Warning::FunctionDescriptionDiscardFailed(err))
        }
    }
}

/// Releasing a function asks for at most two native calls, the instance
/// before the description, and nothing after: a third release call, and any
/// later one, is a no-op.
pub proof fn lemma_release_order(func: usize, desc: usize)
    ensures
        ({
            let (s1, f1, d1) = release_spec(func, desc);
            let (s2, f2, d2) = release_spec(f1, d1);
            let (s3, f3, d3) = release_spec(f2, d2);
            &&& func != 0 ==> s1 == Some(ReleaseStep::DestroyInstance(func))
            &&& func != 0 && desc != 0 ==> s2 == Some(ReleaseStep::DestroyDescription(desc))
            &&& func == 0 && desc != 0 ==> s1 == Some(ReleaseStep::DestroyDescription(desc))
            &&& s3 is None
            &&& f3 == 0 && d3 == 0
            &&& release_spec(f3, d3).0 is None
        }),
{
}

/// A description that the runtime's cache holds is released without a
/// warning, while any failure to destroy the instance is reported.
pub proof fn lemma_illegal_state_suppressed(rc: RfcRc, err: RfcErrorInfo)
    ensures
        description_report_spec(RfcRc::IllegalState, err) is None,
        rc != RfcRc::RfcOk ==> instance_report_spec(rc, err) == Some(Warning::FunctionDiscardFailed(err)),
        rc != RfcRc::RfcOk && rc != RfcRc::IllegalState ==> description_report_spec(rc, err) == Some(
            Warning::FunctionDescriptionDiscardFailed(err),
        ),
{
}

} // verus!
