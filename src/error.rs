use vstd::prelude::*;

verus! {

/// What kind of I/O failure occurred, as far as the engine cares.
#[derive(Clone, Copy, Debug, PartialEq, Eq, Structural)]
pub enum IoFailureKind {
    /// The file or directory does not exist.
    NotFound,
    /// A stream ended before the bytes that were expected.
    UnexpectedEof,
    /// Any other failure of the operating system.
    Other,
}

/// An I/O failure reported by the caller, with a human-readable message.
#[derive(Clone, Debug)]
pub struct IoFailure {
    pub kind: IoFailureKind,
    pub message: String,
}

/// Why a checkpoint file was judged not to be one of ours.
#[derive(Clone, Copy, Debug, PartialEq, Eq, Structural)]
pub enum ProgFileInvalidCause {
    /// The file does not hold exactly eight bytes; the value is its size.
    WrongEncodedSize(u64),
    /// The decoded position is negative or beyond the end of the source file.
    PosOutOfRange { position: i64, file_size: i64 },
}

/// Errors of the copy engine.
#[derive(Clone, Debug)]
pub enum RCopyError {
    /// The daemon surface, which has no implementation.
    NotImplemented,
    /// The file at the checkpoint path is not a valid checkpoint; copying
    /// would clobber or misread somebody else's data.
    ProgFileInvalid { fpath: String, cause: ProgFileInvalidCause },
    /// A transient I/O failure.
    IoError(IoFailure),
}

pub type RCopyResult<T> = Result<T, RCopyError>;

/// The values an I/O failure carries.
pub struct IoFailureView {
    pub kind: IoFailureKind,
    pub message: Seq<char>,
}

impl View for IoFailure {
    type V = IoFailureView;

    open spec fn view(&self) -> IoFailureView {
        IoFailureView { kind: self.kind, message: self.message@ }
    }
}

/// The values an error carries.
pub enum RCopyErrorView {
    NotImplemented,
    ProgFileInvalid { fpath: Seq<char>, cause: ProgFileInvalidCause },
    IoError(IoFailureView),
}

impl View for RCopyError {
    type V = RCopyErrorView;

    open spec fn view(&self) -> RCopyErrorView {
        match self {
            RCopyError::NotImplemented => RCopyErrorView::NotImplemented,
            RCopyError::ProgFileInvalid { fpath, cause } => RCopyErrorView::ProgFileInvalid {
                fpath: fpath@,
                cause: *cause,
            },
            RCopyError::IoError(f) => RCopyErrorView::IoError(f@),
        }
    }
}

impl RCopyError {
    /// Only transient I/O failures are worth another attempt.
    pub open spec fn spec_retryable(&self) -> bool {
        self is IoError
    }

    pub fn is_retryable(&self) -> (r: bool)
        ensures
            r == self.spec_retryable(),
    {
        match self {
            RCopyError::IoError(_) => true,
            _ => false,
        }
    }

    /// A short description of the error.
    pub fn description(&self) -> (r: String)
        ensures
            self is NotImplemented ==> r@ == "not implemented"@,
            self is ProgFileInvalid ==> r@ == "invalid progress file"@,
            self is IoError ==> r@ == self->IoError_0.message@,
    {
        match self {
            RCopyError::NotImplemented => String::from_str("not implemented"),
            RCopyError::ProgFileInvalid { .. } => String::from_str("invalid progress file"),
            RCopyError::IoError(e) => e.message.clone(),
        }
    }
}

} // verus!
