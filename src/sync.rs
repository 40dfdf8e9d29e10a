//! The directory synchronizer's decisions for one source file: whether it is
//! already copied, which destination directories must be created, and the
//! figures of its progress line.
use vstd::prelude::*;

use crate::error::IoFailure;

verus! {

/// What the caller found at a path.
#[derive(Debug)]
pub enum PathStatus {
    Missing,
    File { size: u64 },
    Directory,
    /// The path could not be inspected.
    Failed(IoFailure),
}

/// Why the destination of a file cannot be examined.
#[derive(Debug)]
pub enum DestinationError {
    /// A directory stands where the file is to go.
    IsDirectory,
    Io(IoFailure),
}

/// Whether the destination already holds the file: it exists as a regular
/// file of the source's size. This looks at sizes only, not at contents.
pub fn file_already_copied(dst: PathStatus, file_size: u64) -> (r: Result<bool, DestinationError>)
    ensures
        match dst {
            PathStatus::Missing => r matches Ok(b) && !b,
            PathStatus::File { size } => r matches Ok(b) && b == (size == file_size),
            PathStatus::Directory => r matches Err(DestinationError::IsDirectory),
            PathStatus::Failed(f) => r matches Err(DestinationError::Io(g)) && g@ == f@,
        },
{
    match dst {
        PathStatus::Missing => Ok(false),
        PathStatus::File { size } => Ok(size == file_size),
        PathStatus::Directory => Err(DestinationError::IsDirectory),
        PathStatus::Failed(f) => Err(DestinationError::Io(f)),
    }
}

/// One directory on the way to a destination file.
#[derive(Debug)]
pub struct DirLevel {
    pub path: String,
    pub status: PathStatus,
}

/// Why the directory of a destination file cannot be made.
#[derive(Debug)]
pub enum MkDstDirError {
    /// A regular file stands where a directory is needed.
    FoundRegularFileNotDir(String),
    /// Creating a directory failed.
    MkDirFailed(IoFailure),
    /// A directory on the way could not be inspected.
    IoError(IoFailure),
}

/// The levels before `i` are all directories.
pub open spec fn dirs_before(levels: Seq<DirLevel>, i: int) -> bool {
    forall|k: int| 0 <= k < i ==> #[trigger] levels[k].status is Directory
}

/// Given the directories leading to a destination file, outermost first,
/// returns the index of the first one to create; every level from there on
/// is created in order. The length means all exist. A regular file or an
/// unreadable entry before the first missing level stops the copy.
pub fn plan_parent_dirs(levels: &Vec<DirLevel>) -> (r: Result<usize, MkDstDirError>)
    ensures
        match r {
            Ok(i) => i <= levels@.len() && dirs_before(levels@, i as int) && (i < levels@.len()
                ==> levels@[i as int].status is Missing),
            Err(MkDstDirError::FoundRegularFileNotDir(p)) => exists|i: int|
                0 <= i < levels@.len() && dirs_before(levels@, i) && #[trigger] levels@[i].status is File
                    && p@ == levels@[i].path@,
            Err(MkDstDirError::IoError(f)) => exists|i: int|
                0 <= i < levels@.len() && dirs_before(levels@, i) && (#[trigger] levels@[i].status matches PathStatus::Failed(g) && f@ == g@),
            Err(MkDstDirError::MkDirFailed(_)) => false,
        },
{
    let mut i: usize = 0;
    while i < levels.len()
        invariant
            i <= levels@.len(),
            dirs_before(levels@, i as int),
        decreases levels@.len() - i,
    {
        match &levels[i].status {
            PathStatus::Directory => {},
            PathStatus::Missing => return Ok(i),
            PathStatus::File { .. } => {
                return Err(MkDstDirError::FoundRegularFileNotDir(levels[i].path.clone()));
            },
            PathStatus::Failed(f) => {
                let failure = IoFailure { kind: f.kind, message: f.message.clone() };
                return Err(MkDstDirError::IoError(failure));
            },
        }
        i = i + 1;
    }
    Ok(i)
}

/// Progress in hundredths of a percent, rounded down; none for an empty file.
pub fn calc_percent(current: i64, total: i64) -> (r: Option<u64>)
    requires
        0 <= current <= total,
    ensures
        total == 0 ==> r is None,
        total > 0 ==> (r matches Some(p) && p as int == current as int * 10000 / total as int),
        r matches Some(p) ==> p <= 10000,
{
    if total == 0 {
        return None;
    }
    let scaled = current as u128 * 10000;
    assert(scaled / (total as u128) <= 10000) by (nonlinear_arith)
        requires
            scaled == current * 10000,
            0 <= current <= total,
            total > 0,
    ;
    Some((scaled / (total as u128)) as u64)
}

/// Transfer speed in hundredths of a MiB per second: whole MiB moved,
/// times 100 000, over the milliseconds taken; none when no time passed.
pub fn transfer_rate(bytes: u64, ms: u64) -> (r: Option<u64>)
    ensures
        ms == 0 ==> r is None,
        ms > 0 ==> (r matches Some(v) && v as int == (bytes as int / 0x10_0000) * 100000 / ms as int),
{
    if ms == 0 {
        return None;
    }
    let mib = bytes / 0x10_0000;
    assert(mib * 100000 <= u64::MAX) by (nonlinear_arith)
        requires
            mib == bytes / 0x10_0000,
    ;
    Some(mib * 100000 / ms)
}

} // verus!
