//! Small helpers for control flow and verbosity.

use vstd::prelude::*;
use std::ops::ControlFlow;

verus! {

/// Discards a value.
pub fn to_unit<T>(_x: T) {
}

/// Continues with the value of `Ok`, or breaks with what `err_f` makes of
/// the error.
pub fn result_to_control_flow<U, E, O, F: Fn(E) -> O>(r: Result<U, E>, err_f: F) -> (c: ControlFlow<O, U>)
    requires
        forall|e: E| err_f.requires((e,)),
    ensures
        r matches Ok(u) ==> c == ControlFlow::<O, U>::Continue(u),
        r matches Err(e) ==> (c matches ControlFlow::Break(o) && err_f.ensures((e,), o)),
{
    match r {
        Ok(u) => ControlFlow::Continue(u),
        Err(e) => ControlFlow::Break(err_f(e)),
    }
}

/// How much the program reports, from nothing to everything.
#[derive(Debug, Clone, Copy, PartialEq, Eq, Structural)]
pub enum VerboseLevel {
    Off,
    Error,
    Warn,
    Info,
    Debug,
    Trace,
}

/// One step more verbose, staying at the most verbose level.
pub fn next_verbose_level(level: VerboseLevel) -> (r: VerboseLevel)
    ensures
        r == match level {
            VerboseLevel::Off => VerboseLevel::Error,
            VerboseLevel::Error => VerboseLevel::Warn,
            VerboseLevel::Warn => VerboseLevel::Info,
            VerboseLevel::Info => VerboseLevel::Debug,
            VerboseLevel::Debug => VerboseLevel::Trace,
            VerboseLevel::Trace => VerboseLevel::Trace,
        },
{
    match level {
        VerboseLevel::Off => VerboseLevel::Error,
        VerboseLevel::Error => VerboseLevel::Warn,
        VerboseLevel::Warn => VerboseLevel::Info,
        VerboseLevel::Info => VerboseLevel::Debug,
        VerboseLevel::Debug => VerboseLevel::Trace,
        VerboseLevel::Trace => VerboseLevel::Trace,
    }
}

} // verus!
