//! The path names of archive entries, as libarchive hands them out.

use vstd::prelude::*;
use vstd::utf8::*;
use crate::error::{get_error, is_error_of_report, ArchiveError, ErrorKind, ErrorReport};

verus! {

/// The message of the error that `std::str::from_utf8` returns for bytes
/// that are not UTF-8.
pub uninterp spec fn utf8_error_text(bytes: Seq<u8>) -> Seq<char>;

/// Calls `std::str::from_utf8` and formats its error with `to_string`. As
/// the standard library documents, it succeeds exactly on valid UTF-8 and
/// then hands back the same bytes as text; its error message is a function
/// of the bytes, whose wording is left unsaid.
#[verifier::external_body]
fn str_from_utf8(bytes: &[u8]) -> (r: Result<&str, String>)
    ensures
        r is Ok <==> valid_utf8(bytes@),
        r matches Ok(s) ==> s@ == decode_utf8(bytes@),
        r matches Err(m) ==> m@ == utf8_error_text(bytes@),
{
    match std::str::from_utf8(bytes) {
        Ok(s) => Ok(s),
        Err(e) => Err(e.to_string()),
    }
}

/// An entry's path name in the platform's multibyte encoding: the bytes of
/// the name, or, when libarchive has no name for the entry (a null
/// pointer, here `None`), the archive's error.
pub fn pathname_mb<'a>(name: Option<&'a [u8]>, report: &ErrorReport) -> (r: Result<&'a [u8], ArchiveError>)
    ensures
        match name {
            Some(bytes) => r == Ok::<&'a [u8], ArchiveError>(bytes),
            None => r matches Err(e) && is_error_of_report(e, *report),
        },
{
    match name {
        Some(bytes) => Ok(bytes),
        None => Err(get_error(report)),
    }
}

/// An entry's path name in UTF-8: the name as text, or, when libarchive has
/// no name for the entry, the archive's error. Bytes that are not UTF-8,
/// which libarchive should never hand out here, give an `InvalidData`
/// error.
pub fn pathname_utf8<'a>(name: Option<&'a [u8]>, report: &ErrorReport) -> (r: Result<&'a str, ArchiveError>)
    ensures
        match name {
            Some(bytes) => if valid_utf8(bytes@) {
                r matches Ok(s) && s@ == decode_utf8(bytes@)
            } else {
                r matches Err(ArchiveError::Custom(k, m)) && k == ErrorKind::InvalidData && m@
                    == utf8_error_text(bytes@)
            },
            None => r matches Err(e) && is_error_of_report(e, *report),
        },
{
    match name {
        None => Err(get_error(report)),
        Some(bytes) => match str_from_utf8(bytes) {
            Ok(s) => Ok(s),
            Err(m) => Err(ArchiveError::Custom(ErrorKind::InvalidData, m)),
        },
    }
}

} // verus!
