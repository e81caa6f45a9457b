use akv::archive::SuccessResult;
use akv::error::{ArchiveError, ErrorKind, ErrorReport, ARCHIVE_EOF, ARCHIVE_FATAL, ARCHIVE_OK, ARCHIVE_WARN};
use akv::reader::entry::{pathname_mb, pathname_utf8};
use akv::reader::support::{check_support, support_order, Preparation, Support, SupportCheck};
use akv::reader::{next_header, read_data, seek_data};

fn no_message(errno: i32) -> ErrorReport {
    ErrorReport { message: None, errno }
}

fn message(text: &str) -> ErrorReport {
    ErrorReport { message: Some(text.as_bytes().to_vec()), errno: 0 }
}

#[test]
fn next_header_end_of_archive() {
    assert_eq!(next_header(ARCHIVE_EOF, &no_message(0)), Ok(None));
}

#[test]
fn next_header_entry_with_or_without_warning() {
    assert_eq!(next_header(ARCHIVE_OK, &no_message(0)), Ok(Some(SuccessResult::Clean)));
    assert_eq!(next_header(ARCHIVE_WARN, &no_message(0)), Ok(Some(SuccessResult::Warn)));
}

#[test]
fn next_header_failure() {
    assert_eq!(
        next_header(ARCHIVE_FATAL, &message("Damaged tar archive")),
        Err(ArchiveError::Custom(ErrorKind::Other, "Damaged tar archive".to_string()))
    );
}

#[test]
fn read_data_counts_and_errors() {
    assert_eq!(read_data(3, &no_message(0)), Ok(3));
    assert_eq!(read_data(0, &no_message(0)), Ok(0));
    assert_eq!(read_data(-30, &no_message(5)), Err(ArchiveError::Os(5)));
}

#[test]
fn support_order_is_formats_then_filters() {
    let order = support_order();
    assert_eq!(order.len(), 22);
    assert_eq!(order[0], Support::FormatAr);
    assert_eq!(order[12], Support::FormatZip);
    assert_eq!(order[13], Support::FilterBzip2);
    assert_eq!(order[21], Support::FilterZstd);
    assert_eq!(order[0].name(), "archive_read_support_format_ar");
    assert_eq!(order[7].name(), "archive_read_support_format_7zip");
    assert_eq!(order[21].name(), "archive_read_support_filter_zstd");
    for i in 0..order.len() {
        for j in 0..i {
            assert_ne!(order[i], order[j]);
        }
    }
}

#[test]
fn check_support_outcomes() {
    assert_eq!(check_support(ARCHIVE_OK, &no_message(0)), SupportCheck::Enabled);
    assert_eq!(check_support(ARCHIVE_WARN, &no_message(0)), SupportCheck::Warned);
    assert_eq!(
        check_support(ARCHIVE_FATAL, &no_message(12)),
        SupportCheck::Failed(ArchiveError::Os(12))
    );
}

#[test]
fn preparation_walks_the_whole_order() {
    let order = support_order();
    let mut p = Preparation::new();
    for s in order.iter() {
        assert_eq!(p.next(), Some(*s));
        assert_eq!(p.record(ARCHIVE_OK, &no_message(0)), SupportCheck::Enabled);
    }
    assert_eq!(p.next(), None);
    assert_eq!(p.enabled_count(), 22);
}

#[test]
fn preparation_stops_at_a_warning() {
    let mut p = Preparation::new();
    assert_eq!(p.record(ARCHIVE_OK, &no_message(0)), SupportCheck::Enabled);
    assert_eq!(p.record(ARCHIVE_WARN, &no_message(0)), SupportCheck::Warned);
    assert_eq!(p.enabled_count(), 1);
    assert_eq!(p.next(), Some(Support::FormatCpio));
}

#[test]
fn pathname_mb_bytes_or_error() {
    assert_eq!(pathname_mb(Some(b"a"), &no_message(0)), Ok(&b"a"[..]));
    assert_eq!(pathname_mb(None, &no_message(2)), Err(ArchiveError::Os(2)));
}

#[test]
fn pathname_utf8_text_or_error() {
    assert_eq!(pathname_utf8(Some(b"b"), &no_message(0)), Ok("b"));
    assert_eq!(pathname_utf8(Some("dir/é.txt".as_bytes()), &no_message(0)), Ok("dir/é.txt"));
    assert_eq!(
        pathname_utf8(None, &message("no pathname")),
        Err(ArchiveError::Custom(ErrorKind::Other, "no pathname".to_string()))
    );
    assert_eq!(
        pathname_utf8(Some(b"\xffa"), &no_message(0)),
        Err(ArchiveError::Custom(
            ErrorKind::InvalidData,
            "invalid utf-8 sequence of 1 bytes from index 0".to_string()
        ))
    );
}

#[test]
fn seek_data_offsets_and_errors() {
    assert_eq!(seek_data(42, &no_message(0)), Ok(42));
    assert_eq!(seek_data(-25, &message("Seek failed")), Err(ArchiveError::Custom(ErrorKind::Other, "Seek failed".to_string())));
}
