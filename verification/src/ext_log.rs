//! Pass-through helpers for reporting the outcome of a fallible step.
//! Each hands its result back unchanged; the program's front end records
//! the error (or, for `log_ok`, the value) at the matching severity.

use vstd::prelude::*;

verus! {

/// Reporting helpers on [`Result`].
pub trait ResultExt<T, E>: Sized {
    /// For critical failures that disrupt normal execution (`ERROR`).
    fn log_err(self) -> Result<T, E>;

    /// For non-fatal errors, recoverable fallbacks or retryable attempts (`WARN`).
    fn log_warn(self) -> Result<T, E>;

    /// For expected failures or business-logic rejections (`INFO`).
    fn log_info(self) -> Result<T, E>;

    /// For diagnostics during development or troubleshooting (`DEBUG`).
    fn log_debug(self) -> Result<T, E>;

    /// For low-level, high-volume debugging information (`TRACE`).
    fn log_trace(self) -> Result<T, E>;

    /// Reports the success value (`INFO`).
    fn log_ok(self) -> Result<T, E>;
}

impl<T, E> ResultExt<T, E> for Result<T, E> {
    fn log_err(self) -> (r: Result<T, E>)
        ensures
            r == self,
    {
        self
    }

    fn log_warn(self) -> (r: Result<T, E>)
        ensures
            r == self,
    {
        self
    }

    fn log_info(self) -> (r: Result<T, E>)
        ensures
            r == self,
    {
        self
    }

    fn log_debug(self) -> (r: Result<T, E>)
        ensures
            r == self,
    {
        self
    }

    fn log_trace(self) -> (r: Result<T, E>)
        ensures
            r == self,
    {
        self
    }

    fn log_ok(self) -> (r: Result<T, E>)
        ensures
            r == self,
    {
        self
    }
}

} // verus!
