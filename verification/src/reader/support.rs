//! The formats and filters that a reader enables, and the check that each
//! of them was enabled without a warning.

use vstd::prelude::*;
use crate::error::{get_error, is_error_of_report, ArchiveError, ErrorReport, ARCHIVE_OK, ARCHIVE_WARN};

verus! {

/// One of libarchive's `archive_read_support_*` functions that a reader
/// calls. Those that are rarely used, and those that may run an external
/// program (and then report `ARCHIVE_WARN`), are left out.
#[derive(Debug, Clone, Copy, PartialEq, Eq, Structural)]
pub enum Support {
    FormatAr,
    FormatCpio,
    FormatEmpty,
    FormatLha,
    FormatMtree,
    FormatTar,
    FormatWarc,
    Format7zip,
    FormatCab,
    FormatRar,
    FormatRar5,
    FormatIso9660,
    FormatZip,
    FilterBzip2,
    FilterCompress,
    FilterGzip,
    FilterLzip,
    FilterLzma,
    FilterXz,
    FilterUu,
    FilterRpm,
    FilterZstd,
}

/// The order in which a reader enables formats and filters: the formats
/// first, then the filters.
pub open spec fn support_sequence() -> Seq<Support> {
    seq![
        Support::FormatAr,
        Support::FormatCpio,
        Support::FormatEmpty,
        Support::FormatLha,
        Support::FormatMtree,
        Support::FormatTar,
        Support::FormatWarc,
        Support::Format7zip,
        Support::FormatCab,
        Support::FormatRar,
        Support::FormatRar5,
        Support::FormatIso9660,
        Support::FormatZip,
        Support::FilterBzip2,
        Support::FilterCompress,
        Support::FilterGzip,
        Support::FilterLzip,
        Support::FilterLzma,
        Support::FilterXz,
        Support::FilterUu,
        Support::FilterRpm,
        Support::FilterZstd,
    ]
}

impl Support {
    /// The name of the libarchive function that enables this format or
    /// filter.
    #[verifier::allow_in_spec]
    pub fn name(&self) -> &'static str
        returns
            (match self {
                Support::FormatAr => "archive_read_support_format_ar",
                Support::FormatCpio => "archive_read_support_format_cpio",
                Support::FormatEmpty => "archive_read_support_format_empty",
                Support::FormatLha => "archive_read_support_format_lha",
                Support::FormatMtree => "archive_read_support_format_mtree",
                Support::FormatTar => "archive_read_support_format_tar",
                Support::FormatWarc => "archive_read_support_format_warc",
                Support::Format7zip => "archive_read_support_format_7zip",
                Support::FormatCab => "archive_read_support_format_cab",
                Support::FormatRar => "archive_read_support_format_rar",
                Support::FormatRar5 => "archive_read_support_format_rar5",
                Support::FormatIso9660 => "archive_read_support_format_iso9660",
                Support::FormatZip => "archive_read_support_format_zip",
                Support::FilterBzip2 => "archive_read_support_filter_bzip2",
                Support::FilterCompress => "archive_read_support_filter_compress",
                Support::FilterGzip => "archive_read_support_filter_gzip",
                Support::FilterLzip => "archive_read_support_filter_lzip",
                Support::FilterLzma => "archive_read_support_filter_lzma",
                Support::FilterXz => "archive_read_support_filter_xz",
                Support::FilterUu => "archive_read_support_filter_uu",
                Support::FilterRpm => "archive_read_support_filter_rpm",
                Support::FilterZstd => "archive_read_support_filter_zstd",
            }),
    {
        match self {
            Support::FormatAr => "archive_read_support_format_ar",
            Support::FormatCpio => "archive_read_support_format_cpio",
            Support::FormatEmpty => "archive_read_support_format_empty",
            Support::FormatLha => "archive_read_support_format_lha",
            Support::FormatMtree => "archive_read_support_format_mtree",
            Support::FormatTar => "archive_read_support_format_tar",
            Support::FormatWarc => "archive_read_support_format_warc",
            Support::Format7zip => "archive_read_support_format_7zip",
            Support::FormatCab => "archive_read_support_format_cab",
            Support::FormatRar => "archive_read_support_format_rar",
            Support::FormatRar5 => "archive_read_support_format_rar5",
            Support::FormatIso9660 => "archive_read_support_format_iso9660",
            Support::FormatZip => "archive_read_support_format_zip",
            Support::FilterBzip2 => "archive_read_support_filter_bzip2",
            Support::FilterCompress => "archive_read_support_filter_compress",
            Support::FilterGzip => "archive_read_support_filter_gzip",
            Support::FilterLzip => "archive_read_support_filter_lzip",
            Support::FilterLzma => "archive_read_support_filter_lzma",
            Support::FilterXz => "archive_read_support_filter_xz",
            Support::FilterUu => "archive_read_support_filter_uu",
            Support::FilterRpm => "archive_read_support_filter_rpm",
            Support::FilterZstd => "archive_read_support_filter_zstd",
        }
    }
}

/// How one `archive_read_support_*` call went.
#[derive(Debug, Clone, PartialEq, Eq)]
pub enum SupportCheck {
    /// It returned `ARCHIVE_OK`.
    Enabled,
    /// It returned `ARCHIVE_WARN`: the format or filter would run an
    /// external program. The reader refuses to go on.
    Warned,
    /// It failed, with the archive's error.
    Failed(ArchiveError),
}

/// Reads the status of an `archive_read_support_*` call.
pub fn check_support(num: i32, report: &ErrorReport) -> (c: SupportCheck)
    ensures
        num == ARCHIVE_OK <==> c is Enabled,
        num == ARCHIVE_WARN <==> c is Warned,
        num != ARCHIVE_OK && num != ARCHIVE_WARN ==> (c matches SupportCheck::Failed(e)
            && is_error_of_report(e, *report)),
{
    if num == ARCHIVE_OK {
        SupportCheck::Enabled
    } else if num == ARCHIVE_WARN {
        SupportCheck::Warned
    } else {
        SupportCheck::Failed(get_error(report))
    }
}

/// The preparation of a new reader: which formats and filters have been
/// enabled so far, all of them cleanly and in the order of
/// `support_sequence`.
#[derive(Debug)]
pub struct Preparation {
    enabled: usize,
}

impl Preparation {
    /// No more formats and filters are enabled than there are.
    #[verifier::type_invariant]
    spec fn within_sequence(&self) -> bool {
        self.enabled <= support_sequence().len()
    }

    /// How many formats and filters have been enabled, counted from the
    /// front of `support_sequence`.
    pub closed spec fn enabled(&self) -> nat {
        self.enabled as nat
    }

    /// How many formats and filters have been enabled.
    pub fn enabled_count(&self) -> (n: usize)
        ensures
            n == self.enabled(),
            n <= support_sequence().len(),
    {
        proof {
            use_type_invariant(self);
        }
        self.enabled
    }

    /// Whether every format and filter has been enabled.
    pub open spec fn is_complete(&self) -> bool {
        self.enabled() == support_sequence().len()
    }

    /// A preparation in which nothing is enabled yet.
    pub fn new() -> (p: Preparation)
        ensures
            p.enabled() == 0,
    {
        Preparation { enabled: 0 }
    }

    /// The format or filter to enable next, or `None` once all are.
    pub fn next(&self) -> (s: Option<Support>)
        ensures
            self.is_complete() <==> s is None,
            s matches Some(x) ==> x == support_sequence()[self.enabled() as int],
    {
        proof {
            use_type_invariant(self);
        }
        let order = support_order();
        if self.enabled < order.len() {
            Some(order[self.enabled])
        } else {
            None
        }
    }

    /// Records the status of the call that enabled the next format or
    /// filter. The preparation moves on only when it returned `ARCHIVE_OK`.
    pub fn record(&mut self, num: i32, report: &ErrorReport) -> (c: SupportCheck)
        requires
            old(self).enabled() < support_sequence().len(),
        ensures
            num == ARCHIVE_OK <==> c is Enabled,
            num == ARCHIVE_WARN <==> c is Warned,
            num != ARCHIVE_OK && num != ARCHIVE_WARN ==> (c matches SupportCheck::Failed(e)
                && is_error_of_report(e, *report)),
            c is Enabled ==> final(self).enabled() == old(self).enabled() + 1,
            !(c is Enabled) ==> final(self).enabled() == old(self).enabled(),
    {
        proof {
            use_type_invariant(&*self);
        }
        let c = check_support(num, report);
        if let SupportCheck::Enabled = c {
            self.enabled = self.enabled + 1;
        }
        c
    }
}

/// The formats and filters that a reader enables, in order.
pub fn support_order() -> (v: Vec<Support>)
    ensures
        v@ == support_sequence(),
{
    vec![
        Support::FormatAr,
        Support::FormatCpio,
        Support::FormatEmpty,
        Support::FormatLha,
        Support::FormatMtree,
        Support::FormatTar,
        Support::FormatWarc,
        Support::Format7zip,
        Support::FormatCab,
        Support::FormatRar,
        Support::FormatRar5,
        Support::FormatIso9660,
        Support::FormatZip,
        Support::FilterBzip2,
        Support::FilterCompress,
        Support::FilterGzip,
        Support::FilterLzip,
        Support::FilterLzma,
        Support::FilterXz,
        Support::FilterUu,
        Support::FilterRpm,
        Support::FilterZstd,
    ]
}

/// Each format and filter is enabled once: no two places of the sequence
/// hold the same one.
pub proof fn lemma_support_sequence_distinct()
    ensures
        forall|i: int, j: int|
            0 <= i < j < support_sequence().len() ==> support_sequence()[i]
                != support_sequence()[j],
{
}

} // verus!
