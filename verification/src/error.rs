//! Errors that the binding reports, and how libarchive's status codes and
//! error state turn into them.

use vstd::prelude::*;
use vstd::string::{StrSliceExecFns, StringExecFns};
use vstd::utf8::*;

verus! {

/// The category of an error, as `std::io::ErrorKind` names them.
#[derive(Debug, Clone, Copy, PartialEq, Eq)]
pub enum ErrorKind {
    NotFound,
    PermissionDenied,
    ConnectionRefused,
    ConnectionReset,
    ConnectionAborted,
    NotConnected,
    AddrInUse,
    AddrNotAvailable,
    BrokenPipe,
    AlreadyExists,
    WouldBlock,
    InvalidInput,
    InvalidData,
    TimedOut,
    WriteZero,
    Interrupted,
    Unsupported,
    UnexpectedEof,
    OutOfMemory,
    Other,
}

/// An error of the binding: either an operating-system error number, or a
/// kind with a message (what `std::io::Error::new(kind, message)` carries).
#[derive(Debug, Clone, PartialEq, Eq)]
pub enum ArchiveError {
    Os(i32),
    Custom(ErrorKind, String),
}

impl ArchiveError {
    /// A copy of the error.
    pub fn duplicate(&self) -> (r: ArchiveError)
        ensures
            r == *self,
    {
        match self {
            ArchiveError::Os(code) => ArchiveError::Os(*code),
            ArchiveError::Custom(kind, message) => ArchiveError::Custom(*kind, message.clone()),
        }
    }

    /// The operating-system error number, when the error carries one.
    pub fn raw_os_error(&self) -> (r: Option<i32>)
        ensures
            r == (match self {
                ArchiveError::Os(code) => Some(*code),
                ArchiveError::Custom(_, _) => None::<i32>,
            }),
    {
        match self {
            ArchiveError::Os(code) => Some(*code),
            ArchiveError::Custom(_, _) => None,
        }
    }
}

/// What libarchive holds about its last error: the text that
/// `archive_error_string` returned (its bytes, `None` for a null pointer)
/// and the number that `archive_errno` returned.
#[derive(Debug, Clone, PartialEq, Eq)]
pub struct ErrorReport {
    pub message: Option<Vec<u8>>,
    pub errno: i32,
}

/// Lossy decoding of bytes as UTF-8, as `String::from_utf8_lossy` does it.
pub uninterp spec fn utf8_lossy(bytes: Seq<u8>) -> Seq<char>;

/// Calls `String::from_utf8_lossy` and takes the result as an owned
/// string. Its contract claims that the result is a function of the bytes
/// alone, and, as the standard library documents, that valid UTF-8 is
/// decoded unchanged. How invalid sequences are replaced is left unsaid.
#[verifier::external_body]
fn from_utf8_lossy(bytes: &[u8]) -> (s: String)
    ensures
        s@ == utf8_lossy(bytes@),
        valid_utf8(bytes@) ==> s@ == decode_utf8(bytes@),
{
    String::from_utf8_lossy(bytes).into_owned()
}

/// The error that libarchive's error state stands for: its message, where
/// it has one, decoded as `CStr::to_string_lossy` does, as an error of kind
/// `Other`; else its error number as an operating-system error.
pub open spec fn is_error_of_report(e: ArchiveError, report: ErrorReport) -> bool {
    match report.message {
        Some(m) => e matches ArchiveError::Custom(k, s) && k == ErrorKind::Other && s@
            == utf8_lossy(m@) && (valid_utf8(m@) ==> s@ == decode_utf8(m@)),
        None => e == ArchiveError::Os(report.errno),
    }
}

/// Builds the error that libarchive's error state stands for.
pub fn get_error(report: &ErrorReport) -> (e: ArchiveError)
    ensures
        is_error_of_report(e, *report),
{
    match &report.message {
        Some(m) => ArchiveError::Custom(ErrorKind::Other, from_utf8_lossy(m.as_slice())),
        None => ArchiveError::Os(report.errno),
    }
}

/// The decimal digits of a natural number, most significant first.
pub open spec fn decimal_digits(n: nat) -> Seq<char>
    decreases n,
{
    if n < 10 {
        seq![((48 + n) as u32) as char]
    } else {
        decimal_digits(n / 10).push(((48 + n % 10) as u32) as char)
    }
}

/// An integer written in decimal, with a leading `-` when it is negative.
pub open spec fn decimal(i: int) -> Seq<char> {
    if i < 0 {
        seq!['-'] + decimal_digits((-i) as nat)
    } else {
        decimal_digits(i as nat)
    }
}

/// Formats an `i32` with `to_string`, which `Display` writes in decimal,
/// with a leading `-` when the number is negative.
#[verifier::external_body]
pub(crate) fn i32_text(i: i32) -> (s: String)
    ensures
        s@ == decimal(i as int),
{
    i.to_string()
}

/// libarchive's status codes (`ARCHIVE_EOF`, `ARCHIVE_OK`, ... in
/// `archive.h`).
pub const ARCHIVE_EOF: i32 = 1;

pub const ARCHIVE_OK: i32 = 0;

pub const ARCHIVE_RETRY: i32 = -10;

pub const ARCHIVE_WARN: i32 = -20;

pub const ARCHIVE_FAILED: i32 = -25;

pub const ARCHIVE_FATAL: i32 = -30;

/// Whether a status code reports success, with or without a warning.
pub open spec fn is_success(code: i32) -> bool {
    code == ARCHIVE_OK || code == ARCHIVE_WARN
}

/// Whether a status code reports success, with or without a warning: when
/// it does not, the archive's error state explains it.
pub fn is_success_code(num: i32) -> (b: bool)
    ensures
        b == is_success(num),
{
    num == ARCHIVE_OK || num == ARCHIVE_WARN
}

/// Turns the status code of a libarchive call into a result: success for
/// `ARCHIVE_OK` and `ARCHIVE_WARN`, and for any other code the error that
/// libarchive's error state stands for.
pub fn check_result(num: i32, report: &ErrorReport) -> (r: Result<(), ArchiveError>)
    ensures
        is_success(num) <==> r is Ok,
        r matches Err(e) ==> is_error_of_report(e, *report),
{
    if num == ARCHIVE_OK || num == ARCHIVE_WARN {
        Ok(())
    } else {
        Err(get_error(report))
    }
}

/// What is handed to `archive_set_error` when a callback fails: the error
/// number and the message.
#[derive(Debug, Clone, PartialEq, Eq)]
pub struct ErrorArgs {
    pub errno: i32,
    pub message: String,
}

/// Calls `std::io::Error::from_raw_os_error(code)` and formats it with
/// `to_string`. The text depends on the platform and its locale, so the
/// contract says nothing of it.
#[verifier::external_body]
fn os_error_text(code: i32) -> String {
    std::io::Error::from_raw_os_error(code).to_string()
}

/// The platform's text for an error's operating-system number, as
/// `std::io::Error` writes it: for an `Os(code)` error, the text for
/// `code` (which depends on the platform and its locale, and is left
/// unsaid); for an error with a message, an empty text, which is not used.
pub fn platform_text(e: &ArchiveError) -> (t: String)
    ensures
        e is Custom ==> t@ == Seq::<char>::empty(),
{
    match e {
        ArchiveError::Os(code) => os_error_text(*code),
        ArchiveError::Custom(_, _) => String::new(),
    }
}

/// Whether `args` is how the given error is recorded in libarchive: the
/// operating-system error number and the platform's text `os_text` for
/// it; or, for an error with a message, 0 and that message.
pub open spec fn is_error_args_of(args: ErrorArgs, e: ArchiveError, os_text: Seq<char>) -> bool {
    match e {
        ArchiveError::Os(code) => args.errno == code && args.message@ == os_text,
        ArchiveError::Custom(_, m) => args.errno == 0 && args.message == m,
    }
}

/// The error number and message under which a failed callback's error is
/// recorded in libarchive. `os_text` is the platform's text for the
/// error's operating-system number (see `platform_text`); it is used only
/// for an operating-system error.
pub fn set_archive_error(io_err: &ArchiveError, os_text: &String) -> (args: ErrorArgs)
    ensures
        is_error_args_of(args, *io_err, os_text@),
{
    match io_err {
        ArchiveError::Os(code) => ErrorArgs { errno: *code, message: os_text.clone() },
        ArchiveError::Custom(_, m) => ErrorArgs { errno: 0, message: m.clone() },
    }
}

/// Bytes with no zero byte are handed to libarchive whole.
pub proof fn lemma_c_message_bytes_whole(bytes: Seq<u8>)
    requires
        !bytes.contains(0u8),
    ensures
        c_message_bytes(bytes) == bytes,
    decreases bytes.len(),
{
    if bytes.len() > 0 {
        assert(bytes[0] != 0u8);
        let rest = bytes.drop_first();
        assert(!rest.contains(0u8)) by {
            if rest.contains(0u8) {
                let j = choose|j: int| 0 <= j < rest.len() && rest[j] == 0u8;
                assert(bytes[j + 1] == 0u8);
            }
        }
        lemma_c_message_bytes_whole(rest);
        assert(seq![bytes[0]] + rest == bytes);
    }
}

/// An error that a callback records in libarchive comes back with the same
/// text: when the recorded text holds no zero byte and the archive's error
/// state holds the bytes that `c_message` handed over (libarchive is given
/// them as the argument of a `%s` format), the error built from that state
/// is of kind `Other` and carries the recorded text, which is the error's
/// message, or, for an operating-system error, the platform's text for it.
pub proof fn lemma_recorded_message_comes_back(
    e: ArchiveError,
    os_text: Seq<char>,
    args: ErrorArgs,
    report: ErrorReport,
    back: ArchiveError,
)
    requires
        is_error_args_of(args, e, os_text),
        !encode_utf8(args.message@).contains(0u8),
        report.message matches Some(m) && m@ == c_message_bytes(encode_utf8(args.message@)),
        is_error_of_report(back, report),
    ensures
        back matches ArchiveError::Custom(k, text) && k == ErrorKind::Other && text@
            == args.message@,
        e matches ArchiveError::Custom(_, m) ==> m@ == args.message@,
        e is Os ==> os_text == args.message@,
{
    broadcast use encode_utf8_decode_utf8, encode_utf8_valid_utf8;

    let m = args.message@;
    lemma_c_message_bytes_whole(encode_utf8(m));
    assert(valid_utf8(encode_utf8(m)));
    assert(decode_utf8(encode_utf8(m)) == m);
}

/// The error for a handle that `archive_free` released with a failure
/// status. The handle is gone by then, so the error is built from the
/// status alone: `Other`, with the message `archive_free failed with
/// status ` and the status in decimal.
pub open spec fn is_free_error(e: ArchiveError, num: i32) -> bool {
    e matches ArchiveError::Custom(k, m) && k == ErrorKind::Other && m@
        == "archive_free failed with status "@ + decimal(num as int)
}

/// Builds the error for a failed `archive_free` from its status.
pub fn free_error(num: i32) -> (e: ArchiveError)
    ensures
        is_free_error(e, num),
{
    let prefix = String::from_str("archive_free failed with status ");
    let code = i32_text(num);
    ArchiveError::Custom(ErrorKind::Other, prefix.concat(code.as_str()))
}

/// The bytes of a message as a C string takes them: its UTF-8 bytes up to,
/// and without, the first zero byte (a message with no zero byte is kept
/// whole).
pub open spec fn c_message_bytes(bytes: Seq<u8>) -> Seq<u8>
    decreases bytes.len(),
{
    if bytes.len() == 0 || bytes[0] == 0 {
        Seq::empty()
    } else {
        seq![bytes[0]] + c_message_bytes(bytes.drop_first())
    }
}

/// The bytes under which a message is handed to libarchive: its UTF-8
/// bytes, cut at the first zero byte, so that they hold no zero byte.
pub fn c_message(message: &String) -> (bytes: Vec<u8>)
    ensures
        bytes@ == c_message_bytes(encode_utf8(message@)),
        !bytes@.contains(0u8),
        !encode_utf8(message@).contains(0u8) ==> bytes@ == encode_utf8(message@),
{
    let all = message.as_str().as_bytes();
    let mut bytes: Vec<u8> = Vec::new();
    let mut i: usize = 0;
    assert(all@.skip(0) == all@);
    while i < all.len() && all[i] != 0
        invariant
            i <= all@.len(),
            all@ == encode_utf8(message@),
            forall|j: int| 0 <= j < i ==> all@[j] != 0,
            bytes@ == all@.take(i as int),
            c_message_bytes(all@) == bytes@ + c_message_bytes(all@.skip(i as int)),
        decreases all@.len() - i,
    {
        assert(all@.skip(i as int).drop_first() == all@.skip(i as int + 1));
        bytes.push(all[i]);
        i = i + 1;
        assert(bytes@ == all@.take(i as int));
    }
    assert(c_message_bytes(all@.skip(i as int)) == Seq::<u8>::empty());
    proof {
        assert(bytes@ == c_message_bytes(all@));
        assert forall|j: int| 0 <= j < bytes@.len() implies bytes@[j] != 0u8 by {}
        if !all@.contains(0u8) {
            assert(i == all@.len()) by {
                if i < all@.len() {
                    assert(all@[i as int] == 0u8);
                }
            }
            assert(all@.take(i as int) == all@);
        }
    }
    bytes
}

} // verus!
