//! The source of archive bytes that libarchive reads through, and what the
//! binding answers libarchive when one of its callbacks returns.

use vstd::prelude::*;
use crate::error::{
    is_error_args_of, platform_text, set_archive_error, ArchiveError, ErrorArgs, ErrorKind, ARCHIVE_FATAL, ARCHIVE_OK,
};
use crate::reader::seek_conv::{ffi_to_seek, is_invalid_whence_message, FFISeekFrom, SeekFrom};
use vstd::string::StringExecFns;

verus! {

/// The view of a read's answer: the bytes of the block, or the error.
pub open spec fn block_view<'a>(r: Result<&'a [u8], ArchiveError>) -> Result<Seq<u8>, ArchiveError> {
    match r {
        Ok(s) => Ok(s@),
        Err(e) => Err(e),
    }
}

/// A source of archive bytes that libarchive draws from: it hands out the
/// next block of bytes, seeks, and is closed when the archive is.
///
/// Each method's answer satisfies a relation that the source may state
/// (`read_answer`, `seek_answer`, `close_answer`); a source that states
/// none keeps the default, which holds of every answer.
pub trait Callback: Send {
    /// Whether `r` is an answer that `read` may give when the source goes
    /// from `self` to `after`.
    open spec fn read_answer(&self, after: &Self, r: Result<Seq<u8>, ArchiveError>) -> bool {
        true
    }

    /// Whether `r` is an answer that `seek` to `pos` may give when the
    /// source goes from `self` to `after`.
    open spec fn seek_answer(&self, after: &Self, pos: SeekFrom, r: Result<u64, ArchiveError>) -> bool {
        true
    }

    /// Whether `r` is an answer that `close` may give for the source `self`.
    open spec fn close_answer(&self, r: Result<(), ArchiveError>) -> bool {
        true
    }

    /// The next block of bytes; an empty block marks the end of the data.
    fn read(&mut self) -> (r: Result<&[u8], ArchiveError>)
        ensures
            old(self).read_answer(final(self), block_view(r)),
    ;

    /// Moves to the given position and returns the new offset from the start.
    fn seek(&mut self, pos: SeekFrom) -> (r: Result<u64, ArchiveError>)
        ensures
            old(self).seek_answer(final(self), pos, r),
    ;

    /// Releases the source.
    fn close(self) -> (r: Result<(), ArchiveError>)
        ensures
            self.close_answer(r),
    ;
}

/// A call that an `IoCallback` made on its stream, with the stream's
/// answer.
pub enum StreamCall {
    /// A read into a buffer of the given length, with the buffer's bytes as
    /// the stream left them.
    Read(usize, Result<usize, ArchiveError>, Ghost<Seq<u8>>),
    /// A seek to the given position.
    Seek(SeekFrom, Result<u64, ArchiveError>),
}

/// A readable and seekable stream of bytes, as `std::io::Read` and
/// `std::io::Seek` together provide it.
pub trait ReadSeek: Send {
    /// Reads bytes into the front of `buf` and returns how many it read.
    fn read(&mut self, buf: &mut [u8]) -> Result<usize, ArchiveError>;

    /// Moves to the given position and returns the new offset from the start.
    fn seek(&mut self, pos: SeekFrom) -> Result<u64, ArchiveError>;
}

/// A `Callback` over a stream, which reads into a buffer of `BUF_SIZE` bytes.
pub struct IoCallback<R, const BUF_SIZE: usize> {
    io: R,
    buf: Vec<u8>,
    calls: Ghost<Seq<StreamCall>>,
}

/// Whether `r` (by its view) is the block that a read hands out from
/// `buffer` when the stream answered `n`: the front of the buffer that the
/// stream says it filled, or the stream's error; a claim of more bytes
/// than the buffer holds gives an `InvalidData` error.
pub open spec fn is_block_view_of(
    r: Result<Seq<u8>, ArchiveError>,
    buffer: Seq<u8>,
    n: Result<usize, ArchiveError>,
) -> bool {
    match n {
        Ok(len) => if len <= buffer.len() {
            r matches Ok(s) && s == buffer.take(len as int)
        } else {
            r matches Err(ArchiveError::Custom(k, m)) && k == ErrorKind::InvalidData && m@
                == "stream read past the end of the buffer"@
        },
        Err(e) => r == Err::<Seq<u8>, ArchiveError>(e),
    }
}

/// Whether `r` is the block that a read hands out from `buffer` when the
/// stream answered `n` (see `is_block_view_of`).
pub open spec fn is_block_of<'a>(
    r: Result<&'a [u8], ArchiveError>,
    buffer: Seq<u8>,
    n: Result<usize, ArchiveError>,
) -> bool {
    is_block_view_of(block_view(r), buffer, n)
}

impl<R, const BUF_SIZE: usize> IoCallback<R, BUF_SIZE> {
    /// The stream that the callback reads from.
    pub closed spec fn stream(&self) -> R {
        self.io
    }

    /// The bytes of the callback's buffer.
    pub closed spec fn buffer(&self) -> Seq<u8> {
        self.buf@
    }

    /// The calls that the callback has made on its stream, oldest first.
    pub closed spec fn calls(&self) -> Seq<StreamCall> {
        self.calls@
    }

    /// The buffer always holds `BUF_SIZE` bytes.
    #[verifier::type_invariant]
    spec fn buffer_is_full_size(&self) -> bool {
        self.buf@.len() == BUF_SIZE
    }

    /// A callback over the given stream, with a buffer of `BUF_SIZE` zeros.
    pub fn with_io(io: R) -> (cb: Self)
        ensures
            cb.stream() == io,
            cb.buffer() == Seq::new(BUF_SIZE as nat, |i: int| 0u8),
            cb.calls() == Seq::<StreamCall>::empty(),
    {
        let mut buf: Vec<u8> = Vec::new();
        let mut i: usize = 0;
        while i < BUF_SIZE
            invariant
                i <= BUF_SIZE,
                buf@ == Seq::new(i as nat, |j: int| 0u8),
            decreases BUF_SIZE - i,
        {
            buf.push(0u8);
            i = i + 1;
        }
        IoCallback { io, buf, calls: Ghost(Seq::empty()) }
    }

    /// The block that a read hands out, given what the stream answered: the
    /// front of the buffer that the stream says it filled, or the stream's
    /// error. A stream that claims to have read more bytes than the buffer
    /// holds is refused with an `InvalidData` error.
    pub fn block(&self, n: Result<usize, ArchiveError>) -> (r: Result<&[u8], ArchiveError>)
        ensures
            is_block_of(r, self.buffer(), n),
    {
        match n {
            Err(e) => Err(e),
            Ok(len) => {
                if len <= self.buf.len() {
                    Ok(vstd::slice::slice_subrange(self.buf.as_slice(), 0, len))
                } else {
                    Err(
                        ArchiveError::Custom(
                            ErrorKind::InvalidData,
                            String::from_str("stream read past the end of the buffer"),
                        ),
                    )
                }
            },
        }
    }
}

impl<R: ReadSeek, const BUF_SIZE: usize> IoCallback<R, BUF_SIZE> {
    /// Calls the stream's `read`, once, with the whole buffer, and records
    /// the call with the stream's answer and the buffer as the stream left
    /// it. The buffer keeps its length, as a slice does; what the stream
    /// writes into it and what it answers are the stream's own, and left
    /// unsaid.
    #[verifier::external_body]
    fn stream_read(&mut self) -> (n: Result<usize, ArchiveError>)
        ensures
            final(self).calls() == old(self).calls().push(
                StreamCall::Read(old(self).buffer().len() as usize, n, Ghost(final(self).buffer())),
            ),
            final(self).buffer().len() == old(self).buffer().len(),
    {
        self.io.read(self.buf.as_mut_slice())
    }

    /// Calls the stream's `seek`, once, with `pos`, and records the call
    /// with the stream's answer, which is the stream's own and left unsaid.
    /// The buffer is untouched.
    #[verifier::external_body]
    fn stream_seek(&mut self, pos: SeekFrom) -> (r: Result<u64, ArchiveError>)
        ensures
            final(self).calls() == old(self).calls().push(StreamCall::Seek(pos, r)),
            final(self).buffer() == old(self).buffer(),
    {
        self.io.seek(pos)
    }
}

impl<R: ReadSeek, const BUF_SIZE: usize> Callback for IoCallback<R, BUF_SIZE> {
    /// A read hands the stream the whole buffer of `BUF_SIZE` bytes, once,
    /// and answers the part that the stream filled, from the bytes as the
    /// stream left them.
    open spec fn read_answer(&self, after: &Self, r: Result<Seq<u8>, ArchiveError>) -> bool {
        &&& after.calls().len() == self.calls().len() + 1
        &&& after.calls().drop_last() == self.calls()
        &&& after.calls().last() matches StreamCall::Read(len, n, left) && len == BUF_SIZE
            && after.buffer() == left@ && is_block_view_of(r, left@, n)
        &&& after.buffer().len() == self.buffer().len()
    }

    /// A seek asks the stream, once, to seek to `pos`, and answers what the
    /// stream answered; the buffer is left as it was.
    open spec fn seek_answer(&self, after: &Self, pos: SeekFrom, r: Result<u64, ArchiveError>) -> bool {
        &&& after.calls() == self.calls().push(StreamCall::Seek(pos, r))
        &&& after.buffer() == self.buffer()
    }

    /// Closing always succeeds.
    open spec fn close_answer(&self, r: Result<(), ArchiveError>) -> bool {
        r is Ok
    }

    /// Hands the stream the whole buffer of `BUF_SIZE` bytes, once, and
    /// hands out the part that the stream filled, as `block` reads the
    /// stream's answer, from the bytes as the stream left them.
    fn read(&mut self) -> (r: Result<&[u8], ArchiveError>)
        ensures
            final(self).calls().len() == old(self).calls().len() + 1,
            final(self).calls().drop_last() == old(self).calls(),
            final(self).calls().last() matches StreamCall::Read(len, n, after) && len
                == BUF_SIZE && final(self).buffer() == after@ && is_block_of(r, after@, n),
    {
        proof {
            use_type_invariant(&*self);
        }
        let n = self.stream_read();
        let r = self.block(n);
        assert(self.calls().drop_last() == old(self).calls());
        r
    }

    /// Asks the stream, once, to seek to `pos` and returns its answer
    /// unchanged. The buffer is left as it was.
    fn seek(&mut self, pos: SeekFrom) -> (r: Result<u64, ArchiveError>)
        ensures
            final(self).calls() == old(self).calls().push(StreamCall::Seek(pos, r)),
            final(self).buffer() == old(self).buffer(),
    {
        self.stream_seek(pos)
    }

    /// Closing needs nothing of the stream, and always succeeds.
    fn close(self) -> (r: Result<(), ArchiveError>)
        ensures
            r is Ok,
    {
        Ok(())
    }
}

/// What one of the binding's callbacks returns to libarchive, and the error
/// that it records in the archive first (through `archive_set_error`), if
/// the callback failed.
#[derive(Debug, Clone, PartialEq, Eq)]
pub struct CallbackReturn<T> {
    pub value: T,
    pub error: Option<ErrorArgs>,
}

/// The answer to libarchive's read callback: the length of the block that
/// the source handed out, or, when the source failed, `ARCHIVE_FATAL` with
/// the source's error recorded (`os_text` is the platform's text for it,
/// see `platform_text`).
pub fn read_callback_return(r: Result<usize, ArchiveError>, os_text: &String) -> (ret: CallbackReturn<isize>)
    ensures
        match r {
            Ok(len) => ret.value == len as isize && ret.error is None,
            Err(e) => ret.value == ARCHIVE_FATAL as isize && (ret.error matches Some(
                args,
            ) && is_error_args_of(args, e, os_text@)),
        },
        r matches Ok(len) && len <= isize::MAX ==> ret.value >= 0,
        r is Err ==> ret.value < 0,
{
    match r {
        Ok(len) => CallbackReturn { value: len as isize, error: None },
        Err(e) => CallbackReturn { value: ARCHIVE_FATAL as isize, error: Some(set_archive_error(&e, os_text)) },
    }
}

/// The answer to libarchive's seek callback: the new offset that the
/// source reported, or, when the request could not be converted or the
/// source failed, `ARCHIVE_FATAL` with that error recorded.
pub fn seek_callback_return(r: Result<u64, ArchiveError>, os_text: &String) -> (ret: CallbackReturn<i64>)
    ensures
        match r {
            Ok(pos) => ret.value == pos as i64 && ret.error is None,
            Err(e) => ret.value == ARCHIVE_FATAL as i64 && (ret.error matches Some(
                args,
            ) && is_error_args_of(args, e, os_text@)),
        },
        r matches Ok(pos) && pos <= i64::MAX ==> ret.value >= 0,
        r is Err ==> ret.value < 0,
{
    match r {
        Ok(pos) => CallbackReturn { value: pos as i64, error: None },
        Err(e) => CallbackReturn { value: ARCHIVE_FATAL as i64, error: Some(set_archive_error(&e, os_text)) },
    }
}

/// The answer to libarchive's close callback: `ARCHIVE_OK` when the source
/// closed, else `ARCHIVE_FATAL` with the source's error recorded.
pub fn close_callback_return(r: Result<(), ArchiveError>, os_text: &String) -> (ret: CallbackReturn<i32>)
    ensures
        match r {
            Ok(_) => ret.value == ARCHIVE_OK && ret.error is None,
            Err(e) => ret.value == ARCHIVE_FATAL && (ret.error matches Some(args)
                && is_error_args_of(args, e, os_text@)),
        },
{
    match r {
        Ok(()) => CallbackReturn { value: ARCHIVE_OK, error: None },
        Err(e) => CallbackReturn { value: ARCHIVE_FATAL, error: Some(set_archive_error(&e, os_text)) },
    }
}

/// Whether `ret` is the answer to libarchive when a source's failure `e`
/// is recorded: `ARCHIVE_FATAL`, with `e` recorded under its error number
/// and its message (for an operating-system error, the platform's text).
pub open spec fn is_failure_answer<T>(ret: CallbackReturn<T>, fatal: T, e: ArchiveError) -> bool {
    ret.value == fatal && (ret.error matches Some(args) && is_error_args_of(
        args,
        e,
        args.message@,
    ))
}

/// Runs libarchive's read callback on a source: asks it, once, for its
/// next block, and gives the source's answer with the answer to libarchive:
/// the block's length, or `ARCHIVE_FATAL` with the source's error recorded,
/// under the platform's text for an operating-system error.
pub fn read_callback<C: Callback>(callback: &mut C) -> (ret: (
    Result<&[u8], ArchiveError>,
    CallbackReturn<isize>,
))
    ensures
        ret.0 matches Ok(block) ==> ret.1 == (CallbackReturn::<isize> {
            value: block@.len() as isize,
            error: None,
        }),
        ret.0 matches Err(e) ==> is_failure_answer(ret.1, ARCHIVE_FATAL as isize, e),
        old(callback).read_answer(final(callback), block_view(ret.0)),
        is_read_callback_result(*old(callback), *final(callback), ret),
{
    match callback.read() {
        Ok(block) => {
            let ret = read_callback_return(Ok(block.len()), &String::new());
            (Ok(block), ret)
        },
        Err(e) => {
            let os_text = platform_text(&e);
            let ret = read_callback_return(Err(e.duplicate()), &os_text);
            (Err(e), ret)
        },
    }
}

/// Runs libarchive's seek callback on a source: converts the request, and
/// when it converts, asks the source, once, to seek to the converted
/// position. Gives the position and the source's answer, where the source
/// was asked (`None` for an unknown `whence`), with the answer to
/// libarchive: the source's new offset, or `ARCHIVE_FATAL` with the error
/// recorded, the conversion's for an unknown `whence`, else the source's.
pub fn seek_callback<C: Callback>(callback: &mut C, request: FFISeekFrom) -> (ret: (
    Option<(SeekFrom, Result<u64, ArchiveError>)>,
    CallbackReturn<i64>,
))
    ensures
        ret.0 is None <==> !(0 <= request.whence <= 2),
        ret.0 is None ==> ret.1.value == ARCHIVE_FATAL as i64 && (ret.1.error matches Some(args)
            && args.errno == 0 && is_invalid_whence_message(args.message@, request.whence)),
        ret.0 matches Some((pos, _)) ==> ffi_to_seek(request) == Some(pos),
        ret.0 matches Some((_, Ok(offset))) ==> ret.1 == (CallbackReturn::<i64> {
            value: offset as i64,
            error: None,
        }),
        ret.0 matches Some((_, Err(e))) ==> is_failure_answer(ret.1, ARCHIVE_FATAL as i64, e),
        ret.0 matches Some((pos, r)) ==> old(callback).seek_answer(final(callback), pos, r),
        ret.0 is None ==> *final(callback) == *old(callback),
        is_seek_callback_result(*old(callback), *final(callback), request, ret),
{
    match SeekFrom::try_from(request) {
        Ok(pos) => {
            let r = callback.seek(pos);
            match r {
                Ok(offset) => {
                    let ret = seek_callback_return(Ok(offset), &String::new());
                    (Some((pos, Ok(offset))), ret)
                },
                Err(e) => {
                    let os_text = platform_text(&e);
                    let ret = seek_callback_return(Err(e.duplicate()), &os_text);
                    (Some((pos, Err(e))), ret)
                },
            }
        },
        Err(e) => {
            let os_text = platform_text(&e);
            (None, seek_callback_return(Err(e), &os_text))
        },
    }
}

/// Runs libarchive's close callback on a source: closes it, and gives the
/// source's answer with the answer to libarchive: `ARCHIVE_OK`, or
/// `ARCHIVE_FATAL` with the source's error recorded.
pub fn close_callback<C: Callback>(callback: C) -> (ret: (Result<(), ArchiveError>, CallbackReturn<i32>))
    ensures
        ret.0 is Ok ==> ret.1 == (CallbackReturn::<i32> { value: ARCHIVE_OK, error: None }),
        ret.0 matches Err(e) ==> is_failure_answer(ret.1, ARCHIVE_FATAL, e),
        callback.close_answer(ret.0),
        is_close_callback_result(callback, ret),
{
    let r = callback.close();
    let ret = match &r {
        Ok(()) => close_callback_return(Ok(()), &String::new()),
        Err(e) => {
            let os_text = platform_text(e);
            close_callback_return(Err(e.duplicate()), &os_text)
        },
    };
    (r, ret)
}

/// What `read_callback` gives when the source goes from `before` to
/// `after`: an answer that the source's `read` may give, handed back as it
/// is, with libarchive told its length or its error.
pub open spec fn is_read_callback_result<'a, C: Callback>(
    before: C,
    after: C,
    ret: (Result<&'a [u8], ArchiveError>, CallbackReturn<isize>),
) -> bool {
    &&& ret.0 matches Ok(block) ==> ret.1 == (CallbackReturn::<isize> {
        value: block@.len() as isize,
        error: None,
    })
    &&& ret.0 matches Err(e) ==> is_failure_answer(ret.1, ARCHIVE_FATAL as isize, e)
    &&& before.read_answer(&after, block_view(ret.0))
}

/// What `seek_callback` gives for `request` when the source goes from
/// `before` to `after`.
pub open spec fn is_seek_callback_result<C: Callback>(
    before: C,
    after: C,
    request: FFISeekFrom,
    ret: (Option<(SeekFrom, Result<u64, ArchiveError>)>, CallbackReturn<i64>),
) -> bool {
    &&& ret.0 is None <==> !(0 <= request.whence <= 2)
    &&& ret.0 is None ==> ret.1.value == ARCHIVE_FATAL as i64 && (ret.1.error matches Some(args)
        && args.errno == 0 && is_invalid_whence_message(args.message@, request.whence))
        && after == before
    &&& ret.0 matches Some((pos, _)) ==> ffi_to_seek(request) == Some(pos)
    &&& ret.0 matches Some((_, Ok(offset))) ==> ret.1 == (CallbackReturn::<i64> {
        value: offset as i64,
        error: None,
    })
    &&& ret.0 matches Some((_, Err(e))) ==> is_failure_answer(ret.1, ARCHIVE_FATAL as i64, e)
    &&& ret.0 matches Some((pos, r)) ==> before.seek_answer(&after, pos, r)
}

/// What `close_callback` gives for the source `source`.
pub open spec fn is_close_callback_result<C: Callback>(
    source: C,
    ret: (Result<(), ArchiveError>, CallbackReturn<i32>),
) -> bool {
    &&& ret.0 is Ok ==> ret.1 == (CallbackReturn::<i32> { value: ARCHIVE_OK, error: None })
    &&& ret.0 matches Err(e) ==> is_failure_answer(ret.1, ARCHIVE_FATAL, e)
    &&& source.close_answer(ret.0)
}

/// A block hands out exactly what the stream filled: when the stream says
/// it read `k` bytes and `k` fits the buffer, the block is `k` bytes long
/// and holds the buffer's first `k` bytes.
pub proof fn lemma_block_is_filled_front<'a>(r: Result<&'a [u8], ArchiveError>, buffer: Seq<u8>, k: usize)
    requires
        is_block_of(r, buffer, Ok(k)),
        k <= buffer.len(),
    ensures
        r matches Ok(s) && s@.len() == k && forall|i: int| 0 <= i < k ==> s@[i] == buffer[i],
{
}

/// Over a stream, the read callback hands libarchive exactly what the
/// stream read: the stream is asked once, with the whole buffer; when it
/// answers `Ok(k)` with `k` within the buffer (the end of data, `k == 0`,
/// included), the callback gives the `k` bytes the stream left at the
/// front of the buffer and tells libarchive `k`, with no error; when it
/// fails, the callback gives that error and tells libarchive
/// `ARCHIVE_FATAL`, with the error recorded.
pub proof fn lemma_read_callback_passes_stream_blocks<'a, R: ReadSeek, const BUF_SIZE: usize>(
    before: IoCallback<R, BUF_SIZE>,
    after: IoCallback<R, BUF_SIZE>,
    ret: (Result<&'a [u8], ArchiveError>, CallbackReturn<isize>),
)
    requires
        before.buffer().len() == BUF_SIZE,
        is_read_callback_result(before, after, ret),
    ensures
        after.calls().len() == before.calls().len() + 1,
        forall|i: int| 0 <= i < before.calls().len() ==> after.calls()[i] == before.calls()[i],
        match after.calls().last() {
            StreamCall::Read(len, Ok(k), left) => len == BUF_SIZE && (k <= BUF_SIZE ==> (
            ret.0 matches Ok(s) && s@.len() == k && (forall|i: int|
                0 <= i < k ==> s@[i] == left@[i]) && ret.1 == (CallbackReturn::<isize> {
                value: k as isize,
                error: None,
            }))),
            StreamCall::Read(len, Err(e), _) => len == BUF_SIZE && ret.0 == Err::<
                &'a [u8],
                ArchiveError,
            >(e) && ret.1.value == ARCHIVE_FATAL as isize && (ret.1.error matches Some(args)
                && is_error_args_of(args, e, args.message@)),
            StreamCall::Seek(_, _) => false,
        },
{
    let calls = after.calls();
    assert forall|i: int| 0 <= i < before.calls().len() implies calls[i] == before.calls()[i] by {
        assert(calls.drop_last()[i] == calls[i]);
    }
}

/// Over a stream, the seek callback asks the stream to seek as libarchive
/// asked, and reports the stream's answer unchanged: for `SEEK_SET`,
/// `SEEK_CUR` and `SEEK_END` the stream is asked, once, to seek to
/// `Start(offset)`, `Current(offset)` and `End(offset)`, and libarchive is
/// told the offset the stream answered, or `ARCHIVE_FATAL` with the
/// stream's error recorded; for any other `whence` the stream is not asked
/// and libarchive is told `ARCHIVE_FATAL`.
pub proof fn lemma_seek_callback_reports_stream_offset<R: ReadSeek, const BUF_SIZE: usize>(
    before: IoCallback<R, BUF_SIZE>,
    after: IoCallback<R, BUF_SIZE>,
    request: FFISeekFrom,
    ret: (Option<(SeekFrom, Result<u64, ArchiveError>)>, CallbackReturn<i64>),
)
    requires
        is_seek_callback_result(before, after, request, ret),
    ensures
        request.whence == 0 ==> (ret.0 matches Some((pos, _)) && pos == SeekFrom::Start(
            request.offset as u64,
        )),
        request.whence == 1 ==> (ret.0 matches Some((pos, _)) && pos == SeekFrom::Current(
            request.offset,
        )),
        request.whence == 2 ==> (ret.0 matches Some((pos, _)) && pos == SeekFrom::End(
            request.offset,
        )),
        ret.0 matches Some((pos, r)) ==> after.calls() == before.calls().push(
            StreamCall::Seek(pos, r),
        ),
        ret.0 matches Some((_, Ok(offset))) ==> ret.1.value == offset as i64 && ret.1.error is None,
        ret.0 matches Some((_, Err(e))) ==> ret.1.value == ARCHIVE_FATAL as i64 && (
        ret.1.error matches Some(args) && is_error_args_of(args, e, args.message@)),
        !(0 <= request.whence <= 2) ==> ret.0 is None && after.calls() == before.calls()
            && ret.1.value == ARCHIVE_FATAL as i64,
{
}

/// A source's close is reported faithfully: a failed close is told to
/// libarchive as `ARCHIVE_FATAL` with the error recorded, and a source
/// whose close can only fail is never reported as closed.
pub proof fn lemma_close_callback_reports_failure<C: Callback>(
    source: C,
    ret: (Result<(), ArchiveError>, CallbackReturn<i32>),
)
    requires
        is_close_callback_result(source, ret),
    ensures
        ret.0 matches Err(e) ==> ret.1.value == ARCHIVE_FATAL && (ret.1.error matches Some(args)
            && is_error_args_of(args, e, args.message@)),
        (forall|r: Result<(), ArchiveError>| #[trigger] source.close_answer(r) ==> r is Err) ==> (
        ret.0 is Err && ret.1.value == ARCHIVE_FATAL && ret.1.error is Some),
        ret.1.value == ARCHIVE_OK <==> ret.0 is Ok,
{
}

/// A read callback gives the source's answer: when every answer that the
/// source's `read` may give is one block `b`, the callback gives `b` and
/// tells libarchive its length, with no error.
pub proof fn lemma_read_callback_passes_source_block<'a, C: Callback>(
    before: C,
    after: C,
    b: Seq<u8>,
    ret: (Result<&'a [u8], ArchiveError>, CallbackReturn<isize>),
)
    requires
        is_read_callback_result(before, after, ret),
        forall|r: Result<Seq<u8>, ArchiveError>| #[trigger] before.read_answer(&after, r) ==> r
            == Ok::<Seq<u8>, ArchiveError>(b),
    ensures
        ret.0 matches Ok(s) && s@ == b,
        ret.1 == (CallbackReturn::<isize> { value: b.len() as isize, error: None }),
{
}

} // verus!
