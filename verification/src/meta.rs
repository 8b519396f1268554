//! The data model: the parsed options, one entry's metadata snapshot,
//! a broken-down local time, and the fatal error conditions.

use vstd::prelude::*;

verus! {

/// The options of one invocation, fixed at startup and read-only afterwards.
#[derive(Clone, Copy)]
pub struct Config {
    /// Also list entries whose name starts with `.`.
    pub all: bool,
    /// List a directory itself instead of its contents.
    pub directory: bool,
    /// Long (full metadata) output instead of name-only output.
    pub long: bool,
    /// Print sizes as exact byte counts instead of human-scaled units.
    pub not_human_readable: bool,
}

/// The kind of a filesystem entry, taken from metadata that does not
/// follow symlinks: a symlink is described as itself, not as its target.
#[derive(Clone, Copy, PartialEq, Eq, Structural, Debug)]
pub enum EntryKind {
    Regular,
    Directory,
    Symlink,
    Other,
}

/// The metadata fields that only POSIX platforms expose.
#[derive(Clone, Copy)]
pub struct PosixInfo {
    /// Permission bits; only the nine low `rwxrwxrwx` bits are displayed.
    pub mode: u32,
    /// Hard-link count.
    pub nlink: u64,
    /// Numeric owner id.
    pub uid: u32,
    /// Numeric group id.
    pub gid: u32,
}

/// A non-following metadata snapshot of one entry.
#[derive(Clone, Copy)]
pub struct EntryMeta {
    pub kind: EntryKind,
    /// Size in bytes.
    pub size: u64,
    /// Modification time, whole seconds since the Unix epoch.
    pub modified: i64,
    /// Present on platforms that expose POSIX permission metadata.
    pub posix: Option<PosixInfo>,
}

/// A local-time instant, already broken into the calendar fields that
/// the long format displays.
#[derive(Clone, Copy)]
pub struct TimeParts {
    /// Calendar month, `1` to `12`.
    pub month: u8,
    /// Day of the month, `1` to `31`.
    pub day: u8,
    /// Hour of the day, `0` to `23`.
    pub hour: u8,
    /// Minute of the hour, `0` to `59`.
    pub minute: u8,
}

impl TimeParts {
    /// The field ranges of a real calendar time.
    pub open spec fn wf(self) -> bool {
        &&& 1 <= self.month <= 12
        &&& 1 <= self.day <= 31
        &&& self.hour <= 23
        &&& self.minute <= 59
    }
}

/// Timestamps (seconds since the epoch) that the time library is sure to
/// resolve to a local calendar date; the bound stays well inside its
/// representable range of roughly 262 thousand years on either side.
pub open spec fn time_in_range(secs: i64) -> bool {
    -8000000000000 <= secs <= 8000000000000
}

/// A fatal condition: each one aborts the whole run.
#[derive(Debug)]
pub enum LsError {
    /// Metadata could not be obtained for the entry with the held display name.
    NotAccessible(String),
    /// The target of the symlink with the held display name could not be read.
    LinkUnreadable(String),
    /// The contents of the held directory path could not be enumerated.
    DirectoryUnreadable(String),
}

impl LsError {
    /// The human-readable description of the failure, naming the entry.
    pub fn message(&self) -> (r: String)
        ensures
            self matches LsError::NotAccessible(n) ==> r@ == "cannot access '"@ + n@ + "'"@,
            self matches LsError::LinkUnreadable(n) ==> r@ == "cannot read link '"@ + n@ + "'"@,
            self matches LsError::DirectoryUnreadable(n) ==> r@ == "failed to read dir '"@ + n@
                + "'"@,
    {
        match self {
            LsError::NotAccessible(n) => String::from_str("cannot access '").concat(
                n.as_str(),
            ).concat("'"),
            LsError::LinkUnreadable(n) => String::from_str("cannot read link '").concat(
                n.as_str(),
            ).concat("'"),
            LsError::DirectoryUnreadable(n) => String::from_str("failed to read dir '").concat(
                n.as_str(),
            ).concat("'"),
        }
    }
}

} // verus!
