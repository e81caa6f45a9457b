use akv::error::{ArchiveError, ErrorArgs, ErrorKind, ARCHIVE_FATAL, ARCHIVE_OK};
use akv::reader::callback::{
    close_callback, close_callback_return, read_callback, read_callback_return, seek_callback,
    seek_callback_return, Callback, CallbackReturn,
    IoCallback, ReadSeek,
};
use akv::reader::seek_conv::{FFISeekFrom, SeekFrom};

/// A stream over bytes in memory, which can be told to fail or to lie.
struct Memory {
    data: Vec<u8>,
    pos: usize,
    fail: bool,
    overclaim: bool,
}

impl ReadSeek for Memory {
    fn read(&mut self, buf: &mut [u8]) -> Result<usize, ArchiveError> {
        if self.fail {
            return Err(ArchiveError::Os(5));
        }
        if self.overclaim {
            return Ok(buf.len() + 1);
        }
        let n = std::cmp::min(buf.len(), self.data.len() - self.pos);
        buf[..n].copy_from_slice(&self.data[self.pos..self.pos + n]);
        self.pos += n;
        Ok(n)
    }

    fn seek(&mut self, pos: SeekFrom) -> Result<u64, ArchiveError> {
        match pos {
            SeekFrom::Start(p) => self.pos = p as usize,
            SeekFrom::End(d) => self.pos = (self.data.len() as i64 + d) as usize,
            SeekFrom::Current(d) => self.pos = (self.pos as i64 + d) as usize,
        }
        Ok(self.pos as u64)
    }
}

fn memory(data: &[u8]) -> Memory {
    Memory { data: data.to_vec(), pos: 0, fail: false, overclaim: false }
}

#[test]
fn io_callback_reads_in_blocks() {
    let mut cb = IoCallback::<Memory, 4>::with_io(memory(b"foobar"));
    assert_eq!(cb.read().unwrap(), b"foob");
    assert_eq!(cb.read().unwrap(), b"ar");
    assert_eq!(cb.read().unwrap(), b"");
}

#[test]
fn io_callback_seeks_the_stream() {
    let mut cb = IoCallback::<Memory, 16>::with_io(memory(b"foobar"));
    assert_eq!(cb.seek(SeekFrom::End(-2)), Ok(4));
    assert_eq!(cb.read().unwrap(), b"ar");
    assert_eq!(cb.seek(SeekFrom::Start(1)), Ok(1));
    assert_eq!(cb.read().unwrap(), b"oobar");
    assert_eq!(cb.close(), Ok(()));
}

#[test]
fn io_callback_passes_errors_on() {
    let mut m = memory(b"x");
    m.fail = true;
    let mut cb = IoCallback::<Memory, 8>::with_io(m);
    assert_eq!(cb.read(), Err(ArchiveError::Os(5)));
}

#[test]
fn io_callback_refuses_an_overlong_read() {
    let mut m = memory(b"x");
    m.overclaim = true;
    let mut cb = IoCallback::<Memory, 8>::with_io(m);
    assert!(matches!(cb.read(), Err(ArchiveError::Custom(ErrorKind::InvalidData, _))));
}

#[test]
fn read_callback_returns_length_or_fatal() {
    assert_eq!(read_callback_return(Ok(512), &String::new()), CallbackReturn { value: 512, error: None });
    assert_eq!(
        read_callback_return(
            Err(ArchiveError::Custom(ErrorKind::UnexpectedEof, "short".to_string())),
            &String::new()
        ),
        CallbackReturn {
            value: ARCHIVE_FATAL as isize,
            error: Some(ErrorArgs { errno: 0, message: "short".to_string() })
        }
    );
}

#[test]
fn seek_callback_returns_offset_or_fatal() {
    assert_eq!(seek_callback_return(Ok(4096), &String::new()), CallbackReturn { value: 4096, error: None });
    assert_eq!(seek_callback_return(Ok(u64::MAX), &String::new()), CallbackReturn { value: -1, error: None });
    let r = seek_callback_return(Err(ArchiveError::Os(29)), &"Illegal seek".to_string());
    assert_eq!(r.value, ARCHIVE_FATAL as i64);
    assert_eq!(r.error, Some(ErrorArgs { errno: 29, message: "Illegal seek".to_string() }));
}

#[test]
fn close_callback_returns_ok_or_fatal() {
    assert_eq!(close_callback_return(Ok(()), &String::new()), CallbackReturn { value: ARCHIVE_OK, error: None });
    assert_eq!(
        close_callback_return(
            Err(ArchiveError::Custom(ErrorKind::Other, "busy".to_string())),
            &String::new()
        ),
        CallbackReturn {
            value: ARCHIVE_FATAL,
            error: Some(ErrorArgs { errno: 0, message: "busy".to_string() })
        }
    );
}

#[test]
fn block_is_the_filled_front_of_the_buffer() {
    let cb = IoCallback::<Memory, 4>::with_io(memory(b""));
    assert_eq!(cb.block(Ok(2)), Ok(&[0u8, 0u8][..]));
    assert_eq!(cb.block(Ok(4)), Ok(&[0u8; 4][..]));
    assert!(matches!(cb.block(Ok(5)), Err(ArchiveError::Custom(ErrorKind::InvalidData, _))));
    assert_eq!(cb.block(Err(ArchiveError::Os(11))), Err(ArchiveError::Os(11)));
}

#[test]
fn read_callback_hands_out_the_block() {
    let mut cb = IoCallback::<Memory, 4>::with_io(memory(b"abcdef"));
    let (block, ret) = read_callback(&mut cb);
    assert_eq!(block, Ok(&b"abcd"[..]));
    assert_eq!(ret, CallbackReturn { value: 4, error: None });
    let (block, ret) = read_callback(&mut cb);
    assert_eq!(block, Ok(&b"ef"[..]));
    assert_eq!(ret, CallbackReturn { value: 2, error: None });
}

#[test]
fn read_callback_records_a_failure() {
    let mut m = memory(b"x");
    m.fail = true;
    let mut cb = IoCallback::<Memory, 4>::with_io(m);
    let (block, ret) = read_callback(&mut cb);
    assert_eq!(block, Err(ArchiveError::Os(5)));
    assert_eq!(ret.value, ARCHIVE_FATAL as isize);
    let args = ret.error.unwrap();
    assert_eq!(args.errno, 5);
    assert_eq!(args.message, std::io::Error::from_raw_os_error(5).to_string());
}

#[test]
fn seek_callback_converts_and_seeks() {
    let mut cb = IoCallback::<Memory, 4>::with_io(memory(b"abcdef"));
    assert_eq!(
        seek_callback(&mut cb, FFISeekFrom { offset: -2, whence: 2 }),
        (Some((SeekFrom::End(-2), Ok(4))), CallbackReturn { value: 4, error: None })
    );
    assert_eq!(cb.read().unwrap(), b"ef");
    assert_eq!(
        seek_callback(&mut cb, FFISeekFrom { offset: 1, whence: 0 }),
        (Some((SeekFrom::Start(1), Ok(1))), CallbackReturn { value: 1, error: None })
    );
}

#[test]
fn seek_callback_refuses_an_unknown_whence() {
    let mut cb = IoCallback::<Memory, 4>::with_io(memory(b"abcdef"));
    assert_eq!(
        seek_callback(&mut cb, FFISeekFrom { offset: 0, whence: 9 }),
        (
            None,
            CallbackReturn {
                value: ARCHIVE_FATAL as i64,
                error: Some(ErrorArgs { errno: 0, message: "Invalid whence value: 9".to_string() })
            }
        )
    );
}

/// A source whose close fails.
struct Stuck;

impl Callback for Stuck {
    fn read(&mut self) -> Result<&[u8], ArchiveError> {
        Ok(&[])
    }

    fn seek(&mut self, _pos: SeekFrom) -> Result<u64, ArchiveError> {
        Err(ArchiveError::Custom(ErrorKind::Unsupported, "no seeking".to_string()))
    }

    fn close(self) -> Result<(), ArchiveError> {
        Err(ArchiveError::Custom(ErrorKind::Other, "still busy".to_string()))
    }
}

#[test]
fn close_callback_closes() {
    let cb = IoCallback::<Memory, 4>::with_io(memory(b""));
    assert_eq!(close_callback(cb), (Ok(()), CallbackReturn { value: ARCHIVE_OK, error: None }));
}

#[test]
fn close_callback_records_a_failure() {
    let e = ArchiveError::Custom(ErrorKind::Other, "still busy".to_string());
    assert_eq!(
        close_callback(Stuck),
        (
            Err(e),
            CallbackReturn {
                value: ARCHIVE_FATAL,
                error: Some(ErrorArgs { errno: 0, message: "still busy".to_string() })
            }
        )
    );
}

#[test]
fn seek_callback_records_a_source_failure() {
    let mut s = Stuck;
    let (answer, ret) = seek_callback(&mut s, FFISeekFrom { offset: 3, whence: 1 });
    assert_eq!(
        answer,
        Some((
            SeekFrom::Current(3),
            Err(ArchiveError::Custom(ErrorKind::Unsupported, "no seeking".to_string()))
        ))
    );
    assert_eq!(ret.value, ARCHIVE_FATAL as i64);
    assert_eq!(ret.error, Some(ErrorArgs { errno: 0, message: "no seeking".to_string() }));
}
