//! The metadata record of the facade, and the rule for its optional
//! timestamp fields.
//!
//! A metadata snapshot carries a size, two kind flags, and two optional
//! timestamps, each given as whole seconds since the epoch. A timestamp
//! field is present exactly when the platform reported the corresponding
//! time and that time lies at or after the epoch; in every other case the
//! field is absent, never a sentinel value.

use vstd::prelude::*;

verus! {

/// What the platform reported for one timestamp of a file-system entry.
///
/// A file system need not record every timestamp, and a recorded time may
/// precede the epoch; both cases must be kept apart from an ordinary
/// reading of zero seconds.
#[derive(Clone, Copy, Debug, PartialEq, Eq, Structural)]
pub enum ReportedTime {
    /// The platform does not report this timestamp.
    Unavailable,
    /// The timestamp lies this many whole seconds at or after the epoch.
    SinceEpoch(u64),
    /// The timestamp was reported, but lies before the epoch.
    BeforeEpoch,
}

/// A read-only snapshot of one file-system entry, as a stat call reports it.
#[derive(Clone, Copy, Debug, PartialEq, Eq)]
pub struct FileMetadata {
    /// Size in bytes.
    pub size: u64,
    /// Whether the entry is a directory.
    pub is_dir: bool,
    /// Whether the entry is a regular file.
    pub is_file: bool,
    /// Seconds since the epoch of the last modification, where available.
    pub modified: Option<u64>,
    /// Seconds since the epoch of the creation, where available.
    pub created: Option<u64>,
}

/// The seconds a metadata record carries for a reported time: present
/// exactly when the platform reported a time at or after the epoch.
pub open spec fn timestamp_secs(t: ReportedTime) -> Option<u64> {
    match t {
        ReportedTime::Unavailable => None,
        ReportedTime::SinceEpoch(s) => Some(s),
        ReportedTime::BeforeEpoch => None,
    }
}

/// Turns a reported time into the optional field of the record: the
/// seconds are kept as reported, and a timestamp that is unavailable or
/// precedes the epoch is dropped, not replaced by a default.
pub fn timestamp_field(t: ReportedTime) -> (r: Option<u64>)
    ensures
        r == timestamp_secs(t),
{
    match t {
        ReportedTime::Unavailable => None,
        ReportedTime::SinceEpoch(s) => Some(s),
        ReportedTime::BeforeEpoch => None,
    }
}

/// Assembles the metadata record from one stat result: size and the two
/// kind flags are taken over unchanged, and each timestamp keeps its
/// seconds exactly when it was reported at or after the epoch.
pub fn metadata_from_stat(
    size: u64,
    is_dir: bool,
    is_file: bool,
    modified: ReportedTime,
    created: ReportedTime,
) -> (m: FileMetadata)
    ensures
        m.size == size,
        m.is_dir == is_dir,
        m.is_file == is_file,
        m.modified == timestamp_secs(modified),
        m.created == timestamp_secs(created),
{
    FileMetadata {
        size,
        is_dir,
        is_file,
        modified: timestamp_field(modified),
        created: timestamp_field(created),
    }
}

} // verus!
