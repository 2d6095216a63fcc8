//! Cooperative cancellation. A stage is handed a probe, a function without
//! arguments that reports whether cancellation has been requested, and asks it
//! once before each unit of work.

use vstd::prelude::*;
use crate::error::ExportError;

verus! {

/// Whether the probe may be asked.
pub open spec fn can_ask<F: Fn() -> bool>(probe: &F) -> bool {
    call_requires(*probe, ())
}

/// Whether `answer` is among the answers that the probe can give.
pub open spec fn may_report<F: Fn() -> bool>(probe: &F, answer: bool) -> bool {
    call_ensures(*probe, (), answer)
}

/// The probe reports a request whenever it is asked.
pub open spec fn always_requested<F: Fn() -> bool>(probe: &F) -> bool {
    !may_report(probe, false)
}

/// The probe never reports a request.
pub open spec fn never_requested<F: Fn() -> bool>(probe: &F) -> bool {
    !may_report(probe, true)
}

/// What a stage does with one answer of the probe: it goes on after `false`
/// and stops with the cancellation error after `true`.
pub fn proceed_unless(requested: bool) -> (r: Result<(), ExportError>)
    ensures
        requested <==> r == Err::<(), ExportError>(ExportError::CancellationRequested),
        !requested <==> r is Ok,
{
    if requested {
        Err(ExportError::CancellationRequested)
    } else {
        Ok(())
    }
}

/// Asks the probe once at the start of a unit of work.
pub fn checkpoint<F: Fn() -> bool>(probe: &F) -> (r: Result<(), ExportError>)
    requires
        can_ask(probe),
    ensures
        r is Ok ==> may_report(probe, false),
        r is Err ==> r == Err::<(), ExportError>(ExportError::CancellationRequested)
            && may_report(probe, true),
{
    let requested = probe();
    proceed_unless(requested)
}

} // verus!
