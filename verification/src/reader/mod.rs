//! Reading archives: the formats a reader enables, seek requests, the
//! source of bytes and its callbacks, entries, and the status of each step.

pub mod callback;
pub mod entry;
pub mod seek_conv;
pub mod support;

use vstd::prelude::*;
use crate::archive::SuccessResult;
use crate::error::{
    get_error, is_error_of_report, is_success, ArchiveError, ErrorReport, ARCHIVE_EOF, ARCHIVE_OK,
    ARCHIVE_WARN,
};

verus! {

/// Reads the status of `archive_read_next_header`: `ARCHIVE_EOF` means that
/// there are no more entries (`None`); a success, with or without a
/// warning, means that the next entry's header was read; any other status
/// gives the archive's error.
pub fn next_header(num: i32, report: &ErrorReport) -> (r: Result<Option<SuccessResult>, ArchiveError>)
    ensures
        num == ARCHIVE_EOF ==> r == Ok::<Option<SuccessResult>, ArchiveError>(None),
        num == ARCHIVE_OK ==> r == Ok::<Option<SuccessResult>, ArchiveError>(Some(SuccessResult::Clean)),
        num == ARCHIVE_WARN ==> r == Ok::<Option<SuccessResult>, ArchiveError>(Some(SuccessResult::Warn)),
        num != ARCHIVE_EOF && !is_success(num) ==> (r matches Err(e) && is_error_of_report(e, *report)),
{
    if num == ARCHIVE_EOF {
        Ok(None)
    } else if num == ARCHIVE_OK {
        Ok(Some(SuccessResult::Clean))
    } else if num == ARCHIVE_WARN {
        Ok(Some(SuccessResult::Warn))
    } else {
        Err(get_error(report))
    }
}

/// Reads the value that `archive_read_data` returned: a count of bytes
/// read, zero at the end of the entry's data, or, when negative, a status
/// that gives the archive's error.
pub fn read_data(n: isize, report: &ErrorReport) -> (r: Result<usize, ArchiveError>)
    ensures
        n >= 0 ==> (r matches Ok(m) && m as int == n as int),
        n < 0 ==> (r matches Err(e) && is_error_of_report(e, *report)),
{
    if n >= 0 {
        Ok(n as usize)
    } else {
        Err(get_error(report))
    }
}

/// Reads the value that `archive_seek_data` returned: the new offset in
/// the entry's data, or, when negative, a status that gives the archive's
/// error.
pub fn seek_data(n: i64, report: &ErrorReport) -> (r: Result<u64, ArchiveError>)
    ensures
        n >= 0 ==> r == Ok::<u64, ArchiveError>(n as u64),
        n < 0 ==> (r matches Err(e) && is_error_of_report(e, *report)),
{
    if n >= 0 {
        Ok(n as u64)
    } else {
        Err(get_error(report))
    }
}

} // verus!
