use vstd::prelude::*;
use vstd::string::{StringExecFns, StringSliceAdditionalSpecFns};

use crate::error::{
    IoFailure, IoFailureKind, IoFailureView, ProgFileInvalidCause, RCopyError, RCopyErrorView,
    RCopyResult,
};

verus! {

/// The unsigned value of the first eight bytes of `b`, most significant first.
pub open spec fn be_u64(b: Seq<u8>) -> int
    recommends
        b.len() >= 8,
{
    b[0] * 0x100_0000_0000_0000 + b[1] * 0x1_0000_0000_0000 + b[2] * 0x100_0000_0000
        + b[3] * 0x1_0000_0000 + b[4] * 0x100_0000 + b[5] * 0x1_0000 + b[6] * 0x100 + b[7]
}

/// The first eight bytes of `b` read as a big-endian two's-complement integer.
pub open spec fn be_i64(b: Seq<u8>) -> int
    recommends
        b.len() >= 8,
{
    if be_u64(b) < 0x8000_0000_0000_0000 {
        be_u64(b)
    } else {
        be_u64(b) - 0x1_0000_0000_0000_0000
    }
}

/// Decodes the first eight bytes of `b`, the layout of a checkpoint file.
pub fn decode_position(b: &[u8]) -> (r: i64)
    requires
        b@.len() >= 8,
    ensures
        r == be_i64(b@),
{
    let v: u64 = b[0] as u64 * 0x100_0000_0000_0000 + b[1] as u64 * 0x1_0000_0000_0000
        + b[2] as u64 * 0x100_0000_0000 + b[3] as u64 * 0x1_0000_0000 + b[4] as u64 * 0x100_0000
        + b[5] as u64 * 0x1_0000 + b[6] as u64 * 0x100 + b[7] as u64;
    if v <= i64::MAX as u64 {
        v as i64
    } else {
        (v - 0x8000_0000_0000_0000u64) as i64 + i64::MIN
    }
}

/// Encodes a position as the eight bytes of a checkpoint file.
pub fn encode_position(position: i64) -> (r: Vec<u8>)
    requires
        position >= 0,
    ensures
        r@.len() == 8,
        be_i64(r@) == position,
{
    let u = position as u64;
    let b0 = (u >> 56u64) as u8;
    let b1 = ((u >> 48u64) & 0xff) as u8;
    let b2 = ((u >> 40u64) & 0xff) as u8;
    let b3 = ((u >> 32u64) & 0xff) as u8;
    let b4 = ((u >> 24u64) & 0xff) as u8;
    let b5 = ((u >> 16u64) & 0xff) as u8;
    let b6 = ((u >> 8u64) & 0xff) as u8;
    let b7 = (u & 0xff) as u8;
    assert(b0 * 0x100_0000_0000_0000 + b1 * 0x1_0000_0000_0000 + b2 * 0x100_0000_0000
        + b3 * 0x1_0000_0000 + b4 * 0x100_0000 + b5 * 0x1_0000 + b6 * 0x100 + b7 == u)
        by (bit_vector)
        requires
            b0 == (u >> 56u64) as u8,
            b1 == ((u >> 48u64) & 0xff) as u8,
            b2 == ((u >> 40u64) & 0xff) as u8,
            b3 == ((u >> 32u64) & 0xff) as u8,
            b4 == ((u >> 24u64) & 0xff) as u8,
            b5 == ((u >> 16u64) & 0xff) as u8,
            b6 == ((u >> 8u64) & 0xff) as u8,
            b7 == (u & 0xff) as u8,
    ;
    let r = vec![b0, b1, b2, b3, b4, b5, b6, b7];
    r
}

/// The error a copy stops with when the checkpoint file at `fpath` is not
/// one of ours, for `cause`.
pub open spec fn invalid_checkpoint(fpath: Seq<char>, cause: ProgFileInvalidCause) -> RCopyErrorView {
    RCopyErrorView::ProgFileInvalid { fpath, cause }
}

/// The error a copy stops with when a checkpoint file of eight bytes yields
/// fewer on reading: it changed while being read.
pub open spec fn short_checkpoint_failure() -> RCopyErrorView {
    RCopyErrorView::IoError(
        IoFailureView {
            kind: IoFailureKind::UnexpectedEof,
            message: "the checkpoint file ended before eight bytes"@,
        },
    )
}

/// What the checkpoint file at `fpath`, of `size` bytes beginning with
/// `head`, says for a source of `file_size` bytes: the position to resume
/// from, or the error that stops the copy.
pub open spec fn checkpoint_verdict(fpath: Seq<char>, size: u64, head: Seq<u8>, file_size: int) -> Result<
    int,
    RCopyErrorView,
> {
    if size != 8 {
        Err(invalid_checkpoint(fpath, ProgFileInvalidCause::WrongEncodedSize(size)))
    } else if head.len() < 8 {
        Err(short_checkpoint_failure())
    } else if be_i64(head) < 0 || be_i64(head) > file_size {
        Err(
            invalid_checkpoint(
                fpath,
                ProgFileInvalidCause::PosOutOfRange {
                    position: be_i64(head) as i64,
                    file_size: file_size as i64,
                },
            ),
        )
    } else {
        Ok(be_i64(head))
    }
}

/// Validates the checkpoint file at `fpath`, of `size` bytes beginning with
/// `head`, against the size of the source file, and returns the position it
/// records.
///
/// A file of the wrong size, or one whose value lies outside
/// `[0, file_size]`, is taken to belong to somebody else.
pub fn read_position(fpath: &str, size: u64, head: &[u8], file_size: i64) -> (r: RCopyResult<i64>)
    ensures
        match checkpoint_verdict(fpath@, size, head@, file_size as int) {
            Ok(p) => r matches Ok(q) && q == p,
            Err(v) => r matches Err(e) && e@ == v,
        },
{
    if size != 8 {
        let cause = ProgFileInvalidCause::WrongEncodedSize(size);
        return Err(RCopyError::ProgFileInvalid { fpath: String::from_str(fpath), cause });
    }
    if head.len() < 8 {
        let message = String::from_str("the checkpoint file ended before eight bytes");
        return Err(RCopyError::IoError(IoFailure { kind: IoFailureKind::UnexpectedEof, message }));
    }
    let position = decode_position(head);
    if position < 0 || position > file_size {
        let cause = ProgFileInvalidCause::PosOutOfRange { position, file_size };
        return Err(RCopyError::ProgFileInvalid { fpath: String::from_str(fpath), cause });
    }
    Ok(position)
}

/// What the caller found at the checkpoint path.
#[derive(Clone, Debug)]
pub enum CheckpointLookup {
    /// No file exists there.
    Missing,
    /// A file of `size` bytes exists; `head` holds its first bytes, at most
    /// eight.
    Found { size: u64, head: Vec<u8> },
    /// The file could not be inspected.
    Failed(IoFailure),
}

/// The offset a copy starts from: zero without a checkpoint, the recorded
/// position with a valid one.
pub fn resolve_start(fpath: &str, lookup: CheckpointLookup, file_size: i64) -> (r: RCopyResult<i64>)
    ensures
        match lookup {
            CheckpointLookup::Missing => r matches Ok(p) && p == 0,
            CheckpointLookup::Found { size, head } => match checkpoint_verdict(
                fpath@,
                size,
                head@,
                file_size as int,
            ) {
                Ok(p) => r matches Ok(q) && q == p,
                Err(v) => r matches Err(e) && e@ == v,
            },
            CheckpointLookup::Failed(f) => r matches Err(e) && e@ == RCopyErrorView::IoError(f@),
        },
{
    match lookup {
        CheckpointLookup::Missing => Ok(0),
        CheckpointLookup::Found { size, head } => read_position(fpath, size, head.as_slice(), file_size),
        CheckpointLookup::Failed(e) => Err(RCopyError::IoError(e)),
    }
}

/// The byte `.` of a path.
pub const DOT: u8 = 0x2e;

/// The byte `/` that separates path components.
pub const SLASH: u8 = 0x2f;

/// Some dot of the final component of the path `b` is not that component's
/// first character.
pub open spec fn name_has_inner_dot(b: Seq<u8>) -> bool {
    exists|i: int|
        0 < i < b.len() && #[trigger] b[i] == DOT && b[i - 1] != SLASH && (forall|j: int|
            i < j < b.len() ==> b[j] != SLASH)
}

/// The final component of the path `b` is `..`.
pub open spec fn name_is_parent(b: Seq<u8>) -> bool {
    &&& b.len() >= 2
    &&& b[b.len() - 1] == DOT
    &&& b[b.len() - 2] == DOT
    &&& (b.len() == 2 || b[b.len() - 3] == SLASH)
}

/// The final component of the path `b` has an extension: the text after its
/// last dot, where that dot is not the component's first character.
pub open spec fn has_extension(b: Seq<u8>) -> bool {
    name_has_inner_dot(b) && !name_is_parent(b)
}

/// The checkpoint path of a destination path: `.progress` appended to the
/// destination's extension, an absent extension counting as empty.
pub open spec fn progress_path_of(dst: Seq<char>, dst_bytes: Seq<u8>) -> Seq<char> {
    if has_extension(dst_bytes) {
        dst + ".progress"@
    } else {
        dst + "..progress"@
    }
}

fn inner_dot_in_name(b: &[u8]) -> (r: bool)
    ensures
        r == name_has_inner_dot(b@),
{
    let n = b.len();
    let mut i: usize = n;
    while i > 0
        invariant
            i <= n,
            n == b@.len(),
            forall|k: int| i <= k < n ==> b@[k] != SLASH,
            forall|k: int| i <= k < n && 0 < k ==> !(#[trigger] b@[k] == DOT && b@[k - 1] != SLASH),
        decreases i,
    {
        let c = b[i - 1];
        if c == SLASH {
            assert forall|k: int| 0 < k < n && #[trigger] b@[k] == DOT && b@[k - 1] != SLASH implies
                exists|j: int| k < j < n && b@[j] == SLASH by {
                if k >= i {
                } else {
                    assert(k < i - 1);
                    assert(b@[i - 1] == SLASH);
                }
            }
            return false;
        }
        if c == DOT && i >= 2 && b[i - 2] != SLASH {
            assert(b@[i - 1] == DOT);
            return true;
        }
        i = i - 1;
    }
    false
}

/// Given a destination file, returns the path of its checkpoint file.
pub fn progress_file_path(dst_file: &str) -> (r: String)
    ensures
        r@ == progress_path_of(dst_file@, dst_file.spec_bytes()),
{
    let b = dst_file.as_bytes();
    let n = b.len();
    let parent = n >= 2 && b[n - 1] == DOT && b[n - 2] == DOT && (n == 2 || b[n - 3] == SLASH);
    let mut r = String::from_str(dst_file);
    if inner_dot_in_name(b) && !parent {
        r.append(".progress");
    } else {
        r.append("..progress");
    }
    r
}

} // verus!
