//! The lifecycle of a libarchive handle and the reading of its status codes.

use vstd::prelude::*;
use crate::error::{
    free_error, get_error, is_error_of_report, is_free_error, is_success, is_success_code,
    ArchiveError, ErrorReport, ARCHIVE_OK, ARCHIVE_WARN,
};

verus! {

/// How a libarchive call succeeded: cleanly, or with a warning.
#[derive(Debug, Clone, Copy, PartialEq, Eq, Structural)]
pub enum SuccessResult {
    Clean,
    Warn,
}

/// The state of a libarchive handle that the binding owns: whether it still
/// has to be freed.
#[derive(Debug)]
pub struct Archive {
    live: bool,
}

impl Archive {
    /// Whether the handle has not been freed yet.
    pub closed spec fn is_live(&self) -> bool {
        self.live
    }

    /// Takes charge of a handle that libarchive has just allocated.
    pub fn new() -> (a: Archive)
        ensures
            a.is_live(),
    {
        Archive { live: true }
    }

    /// Whether the handle has not been freed yet.
    pub fn live(&self) -> (b: bool)
        ensures
            b == self.is_live(),
    {
        self.live
    }

    /// Records the status that `archive_free` returned for this handle.
    /// `archive_free` releases the handle whatever it returns, so the handle
    /// counts as freed in any case; a failure status gives an error built
    /// from the status alone, since the handle's error state is gone.
    pub fn free(&mut self, num: i32) -> (r: Result<(), ArchiveError>)
        requires
            old(self).is_live(),
        ensures
            !final(self).is_live(),
            is_success(num) <==> r is Ok,
            r matches Err(e) ==> is_free_error(e, num),
    {
        self.live = false;
        if is_success_code(num) {
            Ok(())
        } else {
            Err(free_error(num))
        }
    }

    /// Closes the handle: the same as `free`, for a handle that is given up.
    pub fn close(&mut self, num: i32) -> (r: Result<(), ArchiveError>)
        requires
            old(self).is_live(),
        ensures
            !final(self).is_live(),
            is_success(num) <==> r is Ok,
            r matches Err(e) ==> is_free_error(e, num),
    {
        self.free(num)
    }

    /// Whether dropping the binding's value must free the handle: exactly
    /// when it has not been freed.
    pub fn drop_frees(&self) -> (b: bool)
        ensures
            b == self.is_live(),
    {
        self.live
    }

    /// The error that the handle's error state stands for.
    pub fn get_error(&self, report: &ErrorReport) -> (e: ArchiveError)
        ensures
            is_error_of_report(e, *report),
    {
        get_error(report)
    }

    /// Reads a status code: `ARCHIVE_OK` is a clean success, `ARCHIVE_WARN`
    /// a success with a warning, any other code the handle's error.
    pub fn check_result(&self, num: i32, report: &ErrorReport) -> (r: Result<SuccessResult, ArchiveError>)
        ensures
            num == ARCHIVE_OK ==> r == Ok::<SuccessResult, ArchiveError>(SuccessResult::Clean),
            num == ARCHIVE_WARN ==> r == Ok::<SuccessResult, ArchiveError>(SuccessResult::Warn),
            !is_success(num) ==> (r matches Err(e) && is_error_of_report(e, *report)),
    {
        if num == ARCHIVE_OK {
            Ok(SuccessResult::Clean)
        } else if num == ARCHIVE_WARN {
            Ok(SuccessResult::Warn)
        } else {
            Err(self.get_error(report))
        }
    }
}

} // verus!
