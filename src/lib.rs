//! Resumable, checkpointed file copying.
//!
//! The library holds the decisions of the copy engine: the checkpoint format
//! and its validation, the copy session as a state machine driven by the
//! caller's I/O, the retry policy, and the directory synchronizer's per-file
//! choices. The caller performs every read, write and sleep and feeds the
//! outcomes back.
pub mod checkpoint;
pub mod daemon;
pub mod error;
pub mod rcopylib;
pub mod retry;
pub mod session;
pub mod sync;

pub use checkpoint::{
    decode_position, encode_position, progress_file_path, read_position, resolve_start,
    CheckpointLookup,
};
pub use daemon::{RCopyDaemon, SocketAddress};
pub use error::{IoFailure, IoFailureKind, ProgFileInvalidCause, RCopyError, RCopyResult};
pub use retry::{AttemptOutcome, RetryBackoff, RetryDecision};
pub use session::{Action, CopySession, Event, Phase, ProgressInfo, CHUNK_SIZE};
pub use sync::{
    calc_percent, file_already_copied, plan_parent_dirs, transfer_rate, DestinationError, DirLevel,
    MkDstDirError, PathStatus,
};
