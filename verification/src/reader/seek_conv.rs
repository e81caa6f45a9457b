//! Conversions between a seek request as Rust states it and as libarchive's
//! seek callback receives it (an offset and a `whence` constant).

use vstd::prelude::*;
use crate::error::{decimal, i32_text, ArchiveError, ErrorKind};
use vstd::string::{StrSliceExecFns, StringExecFns};
use vstd::std_specs::convert::{FromSpecImpl, TryFromSpecImpl};

verus! {

/// A position to seek to, as `std::io::SeekFrom` states it.
#[derive(Debug, Clone, Copy, PartialEq, Eq, Structural)]
pub enum SeekFrom {
    Start(u64),
    End(i64),
    Current(i64),
}

/// A seek request as libarchive's seek callback receives it.
#[derive(Debug, Clone, Copy, PartialEq, Eq, Structural)]
pub struct FFISeekFrom {
    pub offset: i64,
    pub whence: i32,
}

/// Reads `libc::SEEK_SET`, which the libc crate defines as 0.
#[verifier::external_body]
fn seek_set() -> (w: i32)
    ensures
        w == 0,
{
    libc::SEEK_SET
}

/// Reads `libc::SEEK_CUR`, which the libc crate defines as 1.
#[verifier::external_body]
fn seek_cur() -> (w: i32)
    ensures
        w == 1,
{
    libc::SEEK_CUR
}

/// Reads `libc::SEEK_END`, which the libc crate defines as 2.
#[verifier::external_body]
fn seek_end() -> (w: i32)
    ensures
        w == 2,
{
    libc::SEEK_END
}

/// Whether `m` is the message with which a `whence` value that is none of
/// `SEEK_SET`, `SEEK_CUR` and `SEEK_END` is refused: the words
/// `Invalid whence value: ` and the value in decimal.
pub open spec fn is_invalid_whence_message(m: Seq<char>, whence: i32) -> bool {
    m == "Invalid whence value: "@ + decimal(whence as int)
}

/// The message with which an unknown `whence` value is refused.
fn invalid_whence_message(whence: i32) -> (s: String)
    ensures
        is_invalid_whence_message(s@, whence),
{
    String::from_str("Invalid whence value: ").concat(i32_text(whence).as_str())
}

/// The libarchive form of a seek request. A request relative to the
/// current position is passed on as relative to the start, with its offset
/// unchanged.
pub open spec fn seek_to_ffi(val: SeekFrom) -> FFISeekFrom {
    match val {
        SeekFrom::Start(offset) => FFISeekFrom { whence: 0, offset: offset as i64 },
        SeekFrom::End(offset) => FFISeekFrom { whence: 2, offset: offset },
        SeekFrom::Current(offset) => FFISeekFrom { whence: 0, offset: offset },
    }
}

/// The Rust form of a seek request that libarchive made, or `None` for a
/// `whence` that is none of the three known ones.
pub open spec fn ffi_to_seek(val: FFISeekFrom) -> Option<SeekFrom> {
    if val.whence == 0 {
        Some(SeekFrom::Start(val.offset as u64))
    } else if val.whence == 2 {
        Some(SeekFrom::End(val.offset))
    } else if val.whence == 1 {
        Some(SeekFrom::Current(val.offset))
    } else {
        None
    }
}

/// Whether `r` is what converting the libarchive request `val` gives: the
/// Rust form of the request, or, for an unknown `whence`, an
/// `InvalidInput` error with the message for that value.
pub open spec fn is_seek_of(r: Result<SeekFrom, ArchiveError>, val: FFISeekFrom) -> bool {
    match ffi_to_seek(val) {
        Some(pos) => r == Ok::<SeekFrom, ArchiveError>(pos),
        None => r matches Err(ArchiveError::Custom(k, m)) && k == ErrorKind::InvalidInput
            && is_invalid_whence_message(m@, val.whence),
    }
}

impl From<SeekFrom> for FFISeekFrom {
    fn from(val: SeekFrom) -> (r: Self) {
        match val {
            SeekFrom::Start(offset) => Self { whence: seek_set(), offset: offset as i64 },
            SeekFrom::End(offset) => Self { whence: seek_end(), offset: offset },
            SeekFrom::Current(offset) => Self { whence: seek_set(), offset: offset },
        }
    }
}

impl FromSpecImpl<SeekFrom> for FFISeekFrom {
    open spec fn obeys_from_spec() -> bool {
        true
    }

    open spec fn from_spec(val: SeekFrom) -> Self {
        seek_to_ffi(val)
    }
}

impl TryFrom<FFISeekFrom> for SeekFrom {
    type Error = ArchiveError;

    /// Converts a seek request that libarchive made; see `is_seek_of`.
    fn try_from(val: FFISeekFrom) -> (r: Result<Self, Self::Error>)
        ensures
            is_seek_of(r, val),
    {
        if val.whence == seek_set() {
            Ok(SeekFrom::Start(val.offset as u64))
        } else if val.whence == seek_end() {
            Ok(SeekFrom::End(val.offset))
        } else if val.whence == seek_cur() {
            Ok(SeekFrom::Current(val.offset))
        } else {
            Err(ArchiveError::Custom(ErrorKind::InvalidInput, invalid_whence_message(val.whence)))
        }
    }
}

/// The error of a refused request carries a message built at run time, a
/// `String` that no spec function can produce, so the conversion is not
/// claimed to equal one spec value: `try_from`'s own `ensures` states its
/// whole result through `is_seek_of`.
impl TryFromSpecImpl<FFISeekFrom> for SeekFrom {
    open spec fn obeys_try_from_spec() -> bool {
        false
    }

    open spec fn try_from_spec(val: FFISeekFrom) -> Result<Self, ArchiveError> {
        choose|r: Result<Self, ArchiveError>| is_seek_of(r, val)
    }
}

/// A seek request from the start or from the end, converted to libarchive's
/// form and back, is the request that was converted.
pub proof fn lemma_seek_round_trip(pos: SeekFrom)
    requires
        !(pos is Current),
    ensures
        ffi_to_seek(seek_to_ffi(pos)) == Some(pos),
{
    if let SeekFrom::Start(offset) = pos {
        assert((offset as i64) as u64 == offset) by (bit_vector);
    }
}

/// A libarchive seek request relative to the start or to the end, converted
/// to the Rust form and back, is the request that was converted.
pub proof fn lemma_ffi_round_trip(val: FFISeekFrom)
    requires
        val.whence == 0 || val.whence == 2,
    ensures
        ffi_to_seek(val) matches Some(pos) && seek_to_ffi(pos) == val,
{
    let offset = val.offset;
    assert((offset as u64) as i64 == offset) by (bit_vector);
}

/// A libarchive seek request converts exactly when its `whence` is
/// `SEEK_SET`, `SEEK_CUR` or `SEEK_END`; any other value is refused as
/// invalid input, with the message for that value.
pub proof fn lemma_whence_accepted(val: FFISeekFrom, r: Result<SeekFrom, ArchiveError>)
    requires
        is_seek_of(r, val),
    ensures
        r is Ok <==> 0 <= val.whence <= 2,
        !(0 <= val.whence <= 2) ==> (r matches Err(ArchiveError::Custom(k, m)) && k
            == ErrorKind::InvalidInput && m@ == "Invalid whence value: "@ + decimal(
            val.whence as int,
        )),
{
}

/// What each `whence` means: a request with `SEEK_SET` converts to a seek
/// from the start, `SEEK_CUR` to a seek relative to the current position,
/// and `SEEK_END` to a seek from the end, each by the request's offset.
pub proof fn lemma_whence_table(val: FFISeekFrom, r: Result<SeekFrom, ArchiveError>)
    requires
        is_seek_of(r, val),
    ensures
        val.whence == 0 ==> r == Ok::<SeekFrom, ArchiveError>(SeekFrom::Start(val.offset as u64)),
        val.whence == 1 ==> r == Ok::<SeekFrom, ArchiveError>(SeekFrom::Current(val.offset)),
        val.whence == 2 ==> r == Ok::<SeekFrom, ArchiveError>(SeekFrom::End(val.offset)),
{
}

} // verus!
