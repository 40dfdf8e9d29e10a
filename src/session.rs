//! One file's resumable copy, as a state machine.
//!
//! The caller opens the source and looks up the checkpoint file, then asks
//! the session what to do next (`pending`) and reports how it went (`step`),
//! until the session has finished or aborted. The session never touches a
//! file itself: it decides the offsets, the chunk boundaries, when the
//! checkpoint is persisted and when it is removed.
use vstd::prelude::*;
use vstd::string::StringExecFns;

use crate::checkpoint::{be_i64, checkpoint_verdict, encode_position, resolve_start, CheckpointLookup};
use crate::error::{IoFailure, IoFailureKind, IoFailureView, RCopyError, RCopyErrorView, RCopyResult};

verus! {

/// The size of one chunk: the most bytes transferred between two checkpoints.
pub const CHUNK_SIZE: usize = 8 << 20;

/// Progress of a copy: `current` of `total` bytes are in the destination.
#[derive(Clone, Copy, Debug, PartialEq, Eq, Structural)]
pub struct ProgressInfo {
    pub current: i64,
    pub total: i64,
}

/// Where a session stands, that is, what it waits for.
#[derive(Clone, Copy, Debug, PartialEq, Eq, Structural)]
pub enum Phase {
    /// A progress report is to be sent.
    Reporting,
    /// More source bytes are wanted for the current chunk.
    Reading,
    /// The current chunk is to be written to the destination.
    Writing,
    /// The position is to be persisted in the checkpoint file.
    Saving,
    /// The checkpoint file is to be removed.
    Removing,
    /// The copy is complete.
    Done,
    /// The copy stopped on an error.
    Failed,
}

/// How the caller's last action went.
#[derive(Debug)]
pub enum Event {
    /// The action was carried out.
    Done,
    /// The read returned these bytes.
    Data(Vec<u8>),
    /// The read found the end of the source.
    EndOfFile,
    /// The action failed.
    Failed(IoFailure),
}

/// What the caller is to do next.
#[derive(Debug)]
pub enum Action<'a> {
    /// Send this progress report.
    Report(ProgressInfo),
    /// Read at most `max_len` further bytes of the source.
    Read { max_len: usize },
    /// Write `data` to the destination at `offset`.
    Write { offset: i64, data: &'a [u8] },
    /// Replace the checkpoint file's contents with `bytes`, which record `position`.
    SaveCheckpoint { position: i64, bytes: Vec<u8> },
    /// Remove the checkpoint file.
    RemoveCheckpoint,
    /// The copy is complete.
    Finished,
    /// The copy stopped on this error.
    Aborted(&'a RCopyError),
}

/// The state of a session, as values.
pub struct SessionModel {
    /// Size of the source file.
    pub file_size: int,
    /// Offset the session resumed from.
    pub start: int,
    /// Bytes `[0, position)` of the destination are in place.
    pub position: int,
    pub chunk_size: nat,
    /// Source bytes read for the chunk at `position`, not yet written.
    pub buffer: Seq<u8>,
    pub phase: Phase,
    pub failure: Option<RCopyErrorView>,
    /// Everything written to the destination by this session, in order,
    /// starting at `start`.
    pub written: Seq<u8>,
    /// The position that the checkpoint file holds, if there is one.
    pub persisted: Option<int>,
}

/// The error a session stops with when the source ends before its size.
pub open spec fn short_source_failure() -> RCopyErrorView {
    RCopyErrorView::IoError(
        IoFailureView {
            kind: IoFailureKind::UnexpectedEof,
            message: "the source file ended before its recorded size"@,
        },
    )
}

impl SessionModel {
    /// The length of the chunk that starts at `position`.
    pub open spec fn chunk_len(self) -> int {
        if self.chunk_size < self.file_size - self.position {
            self.chunk_size as int
        } else {
            self.file_size - self.position
        }
    }

    pub open spec fn wf(self) -> bool {
        &&& 0 <= self.start <= self.position <= self.file_size <= i64::MAX
        &&& 0 < self.chunk_size <= usize::MAX
        &&& self.written.len() == self.position - self.start
        &&& self.position + self.buffer.len() <= self.file_size
        &&& self.buffer.len() <= self.chunk_len()
        &&& (self.phase == Phase::Reading ==> self.position < self.file_size && self.buffer.len()
            < self.chunk_len())
        &&& (self.phase == Phase::Writing ==> 0 < self.buffer.len())
        &&& (self.phase != Phase::Reading && self.phase != Phase::Writing ==> self.buffer.len()
            == 0)
        &&& (self.phase == Phase::Removing || self.phase == Phase::Done ==> self.position
            == self.file_size)
        &&& (self.phase == Phase::Failed <==> self.failure is Some)
        &&& (self.persisted matches Some(p) ==> self.start <= p <= self.position)
    }

    /// The state of a fresh session.
    pub open spec fn initial(file_size: int, start: int, chunk_size: nat, persisted: Option<int>) -> SessionModel {
        SessionModel {
            file_size,
            start,
            position: start,
            chunk_size,
            buffer: Seq::empty(),
            phase: Phase::Reporting,
            failure: None,
            written: Seq::empty(),
            persisted,
        }
    }

    pub open spec fn fail(self, f: RCopyErrorView) -> SessionModel {
        SessionModel { phase: Phase::Failed, failure: Some(f), buffer: Seq::empty(), ..self }
    }

    /// The source has no more bytes: a partial chunk is written, and a
    /// source that ends before its recorded size stops the session.
    pub open spec fn end_of_source(self) -> SessionModel {
        if self.buffer.len() > 0 {
            SessionModel { phase: Phase::Writing, ..self }
        } else {
            self.fail(short_source_failure())
        }
    }

    /// The state after the caller reports `e`. An event that does not answer
    /// the pending action leaves the state as it is.
    pub open spec fn next(self, e: Event) -> SessionModel {
        match self.phase {
            Phase::Reporting => match e {
                Event::Done => if self.position < self.file_size {
                    SessionModel { phase: Phase::Reading, ..self }
                } else {
                    SessionModel { phase: Phase::Removing, ..self }
                },
                _ => self,
            },
            Phase::Reading => match e {
                Event::Data(d) => if d@.len() == 0 {
                    self.end_of_source()
                } else if self.buffer.len() + d@.len() <= self.chunk_len() {
                    let buffer = self.buffer + d@;
                    SessionModel {
                        buffer,
                        phase: if buffer.len() == self.chunk_len() {
                            Phase::Writing
                        } else {
                            Phase::Reading
                        },
                        ..self
                    }
                } else {
                    self
                },
                Event::EndOfFile => self.end_of_source(),
                Event::Failed(f) => self.fail(RCopyErrorView::IoError(f@)),
                Event::Done => self,
            },
            Phase::Writing => match e {
                Event::Done => SessionModel {
                    position: self.position + self.buffer.len(),
                    written: self.written + self.buffer,
                    buffer: Seq::empty(),
                    phase: Phase::Saving,
                    ..self
                },
                Event::Failed(f) => self.fail(RCopyErrorView::IoError(f@)),
                _ => self,
            },
            Phase::Saving => match e {
                Event::Done => SessionModel {
                    persisted: Some(self.position),
                    phase: Phase::Reporting,
                    ..self
                },
                Event::Failed(f) => self.fail(RCopyErrorView::IoError(f@)),
                _ => self,
            },
            Phase::Removing => match e {
                Event::Done => SessionModel { persisted: None, phase: Phase::Done, ..self },
                // The checkpoint stays behind; the next attempt only checks it again.
                Event::Failed(_) => SessionModel { phase: Phase::Done, ..self },
                _ => self,
            },
            Phase::Done | Phase::Failed => self,
        }
    }
}

/// The destination's earlier contents `dst` with `data` written at `offset`.
pub open spec fn overlay(dst: Seq<u8>, offset: int, data: Seq<u8>) -> Seq<u8> {
    if offset + data.len() >= dst.len() {
        dst.subrange(0, offset) + data
    } else {
        dst.subrange(0, offset) + data + dst.subrange(offset + data.len(), dst.len() as int)
    }
}

impl SessionModel {
    /// The bytes the session has written, followed by those it holds for
    /// writing, are the source's bytes from the resume offset on.
    pub open spec fn reads_match(self, src: Seq<u8>) -> bool {
        self.written + self.buffer == src.subrange(self.start, self.position + self.buffer.len())
    }

    /// `e` delivers, if it is a read, the source's bytes that follow those
    /// already read.
    pub open spec fn delivers_source(self, e: Event, src: Seq<u8>) -> bool {
        e matches Event::Data(d) ==> d@ == src.subrange(
            self.position + self.buffer.len(),
            self.position + self.buffer.len() + d@.len(),
        )
    }
}

/// Resuming from a checkpoint at `k` only ever writes bytes `[k, file_size)`:
/// every step keeps the session well formed with the same starting offset,
/// and a pending write starts at or after that offset and ends within the
/// source's size. Bytes before the offset are never written.
pub proof fn lemma_resume_writes_only_tail(m: SessionModel, e: Event)
    requires
        m.wf(),
    ensures
        m.next(e).wf(),
        m.next(e).start == m.start,
        m.next(e).file_size == m.file_size,
        m.phase == Phase::Writing ==> m.start <= m.position && m.position + m.buffer.len()
            <= m.file_size,
{
}

/// While every read delivers the source's next bytes, what the session has
/// written and buffered stays equal to the source from the resume offset on.
pub proof fn lemma_reads_match_preserved(m: SessionModel, e: Event, src: Seq<u8>)
    requires
        m.wf(),
        src.len() == m.file_size,
        m.reads_match(src),
        m.delivers_source(e, src),
    ensures
        m.next(e).reads_match(src),
{
    let n = m.next(e);
    if m.phase == Phase::Reading {
        if let Event::Data(d) = e {
            if d@.len() > 0 && m.buffer.len() + d@.len() <= m.chunk_len() {
                assert(n.written + n.buffer =~= (m.written + m.buffer) + d@);
                assert(src.subrange(m.start, m.position + m.buffer.len() + d@.len()) =~= src.subrange(
                    m.start,
                    m.position + m.buffer.len(),
                ) + d@);
            }
        }
    }
    if m.phase == Phase::Writing && e is Done {
        assert(n.written + n.buffer =~= m.written + m.buffer);
    }
    if n.phase == Phase::Failed && m.phase != Phase::Failed {
        assert(m.written =~= (m.written + m.buffer).subrange(0, m.written.len() as int));
        assert(src.subrange(m.start, m.position) =~= src.subrange(
            m.start,
            m.position + m.buffer.len(),
        ).subrange(0, m.written.len() as int));
        assert(n.written + n.buffer =~= m.written);
    }
}

/// A copy that has written everything, with reads that matched the source,
/// leaves a destination identical to the source, provided its bytes before
/// the resume offset were already the source's and it was no longer than the
/// source. Acknowledging the removal of the checkpoint leaves none behind.
pub proof fn lemma_complete_copy_matches_source(m: SessionModel, src: Seq<u8>, dst: Seq<u8>)
    requires
        m.wf(),
        m.phase == Phase::Removing || m.phase == Phase::Done,
        src.len() == m.file_size,
        m.reads_match(src),
        m.start <= dst.len() <= m.file_size,
        dst.subrange(0, m.start) == src.subrange(0, m.start),
    ensures
        overlay(dst, m.start, m.written) == src,
        m.phase == Phase::Removing ==> m.next(Event::Done).phase == Phase::Done
            && m.next(Event::Done).persisted is None,
{
    assert(m.written + m.buffer =~= m.written);
    assert(overlay(dst, m.start, m.written) =~= src.subrange(0, m.start) + src.subrange(
        m.start,
        m.file_size,
    ));
    assert(src =~= src.subrange(0, m.start) + src.subrange(m.start, m.file_size));
}

/// One file's copy in progress.
pub struct CopySession {
    file_size: i64,
    start: i64,
    position: i64,
    chunk_size: usize,
    buffer: Vec<u8>,
    phase: Phase,
    failure: Option<RCopyError>,
    written: Ghost<Seq<u8>>,
    persisted: Ghost<Option<int>>,
}

impl View for CopySession {
    type V = SessionModel;

    closed spec fn view(&self) -> SessionModel {
        SessionModel {
            file_size: self.file_size as int,
            start: self.start as int,
            position: self.position as int,
            chunk_size: self.chunk_size as nat,
            buffer: self.buffer@,
            phase: self.phase,
            failure: match self.failure {
                Some(f) => Some(f@),
                None => None,
            },
            written: self.written@,
            persisted: self.persisted@,
        }
    }
}

impl CopySession {
    /// Starts the copy of a source of `file_size` bytes whose destination has
    /// the checkpoint path `checkpoint_path`, given what was found there.
    ///
    /// A checkpoint that fails validation, or that cannot be inspected, stops
    /// the copy before anything is written.
    pub fn open(checkpoint_path: &str, file_size: i64, lookup: CheckpointLookup, chunk_size: usize) -> (r:
        RCopyResult<CopySession>)
        requires
            file_size >= 0,
            chunk_size > 0,
        ensures
            match lookup {
                CheckpointLookup::Missing => r matches Ok(s) && s@ == SessionModel::initial(
                    file_size as int,
                    0,
                    chunk_size as nat,
                    None,
                ),
                CheckpointLookup::Found { size, head } => match checkpoint_verdict(
                    checkpoint_path@,
                    size,
                    head@,
                    file_size as int,
                ) {
                    Ok(p) => r matches Ok(s) && s@ == SessionModel::initial(
                        file_size as int,
                        p,
                        chunk_size as nat,
                        Some(p),
                    ),
                    Err(v) => r matches Err(e) && e@ == v,
                },
                CheckpointLookup::Failed(f) => r matches Err(e) && e@ == RCopyErrorView::IoError(f@),
            },
            r matches Ok(s) ==> s@.wf(),
    {
        let found = match &lookup {
            CheckpointLookup::Found { .. } => true,
            _ => false,
        };
        let start = resolve_start(checkpoint_path, lookup, file_size)?;
        Ok(
            CopySession {
                file_size,
                start,
                position: start,
                chunk_size,
                buffer: Vec::new(),
                phase: Phase::Reporting,
                failure: None,
                written: Ghost(Seq::empty()),
                persisted: Ghost(
                    if found {
                        Some(start as int)
                    } else {
                        None
                    },
                ),
            },
        )
    }

    pub fn phase(&self) -> (r: Phase)
        ensures
            r == self@.phase,
    {
        self.phase
    }

    /// The offset the copy resumed from; both files are positioned there.
    pub fn start(&self) -> (r: i64)
        ensures
            r == self@.start,
    {
        self.start
    }

    /// The number of source bytes still wanted for the chunk being read.
    fn wanted(&self) -> (r: usize)
        requires
            self@.wf(),
            self@.phase == Phase::Reading,
        ensures
            r == self@.chunk_len() - self@.buffer.len(),
            r > 0,
    {
        let rest = (self.file_size - self.position) as u64;
        let len = if (self.chunk_size as u64) < rest {
            self.chunk_size
        } else {
            rest as usize
        };
        len - self.buffer.len()
    }

    /// What the caller is to do next.
    pub fn pending(&self) -> (r: Action<'_>)
        requires
            self@.wf(),
        ensures
            self@.phase == Phase::Reporting <==> (r matches Action::Report(p) && p.current
                == self@.position && p.total == self@.file_size),
            self@.phase == Phase::Reading <==> (r matches Action::Read { max_len } && max_len
                == self@.chunk_len() - self@.buffer.len()),
            self@.phase == Phase::Writing <==> (r matches Action::Write { offset, data } && offset
                == self@.position && data@ == self@.buffer),
            self@.phase == Phase::Saving <==> (r matches Action::SaveCheckpoint { position, bytes }
                && position == self@.position && bytes@.len() == 8 && be_i64(bytes@)
                == self@.position),
            self@.phase == Phase::Removing <==> r is RemoveCheckpoint,
            self@.phase == Phase::Done <==> r is Finished,
            self@.phase == Phase::Failed <==> (r matches Action::Aborted(e) && self@.failure
                == Some(e@)),
    {
        match self.phase {
            Phase::Reporting => Action::Report(
                ProgressInfo { current: self.position, total: self.file_size },
            ),
            Phase::Reading => Action::Read { max_len: self.wanted() },
            Phase::Writing => Action::Write { offset: self.position, data: self.buffer.as_slice() },
            Phase::Saving => Action::SaveCheckpoint {
                position: self.position,
                bytes: encode_position(self.position),
            },
            Phase::Removing => Action::RemoveCheckpoint,
            Phase::Done => Action::Finished,
            Phase::Failed => match &self.failure {
                Some(e) => Action::Aborted(e),
                None => Action::Finished,
            },
        }
    }

    fn fail(&mut self, e: RCopyError)
        requires
            old(self)@.wf(),
        ensures
            final(self)@ == old(self)@.fail(e@),
    {
        self.phase = Phase::Failed;
        self.failure = Some(e);
        self.buffer.clear();
    }

    fn end_of_source(&mut self)
        requires
            old(self)@.wf(),
            old(self)@.phase == Phase::Reading,
        ensures
            final(self)@ == old(self)@.end_of_source(),
    {
        if self.buffer.len() > 0 {
            self.phase = Phase::Writing;
        } else {
            let message = String::from_str("the source file ended before its recorded size");
            self.fail(RCopyError::IoError(IoFailure { kind: IoFailureKind::UnexpectedEof, message }));
        }
    }

    /// Takes in how the pending action went.
    pub fn step(&mut self, e: Event)
        requires
            old(self)@.wf(),
        ensures
            final(self)@ == old(self)@.next(e),
            final(self)@.wf(),
    {
        match self.phase {
            Phase::Reporting => {
                if let Event::Done = e {
                    if self.position < self.file_size {
                        self.phase = Phase::Reading;
                    } else {
                        self.phase = Phase::Removing;
                    }
                }
            },
            Phase::Reading => {
                match e {
                    Event::Data(mut d) => {
                        if d.len() == 0 {
                            self.end_of_source();
                        } else if d.len() <= self.wanted() {
                            let full = d.len() == self.wanted();
                            self.buffer.append(&mut d);
                            if full {
                                self.phase = Phase::Writing;
                            }
                        }
                    },
                    Event::EndOfFile => self.end_of_source(),
                    Event::Failed(f) => self.fail(RCopyError::IoError(f)),
                    Event::Done => {},
                }
            },
            Phase::Writing => {
                match e {
                    Event::Done => {
                        proof {
                            self.written@ = self.written@ + self.buffer@;
                        }
                        self.position = self.position + self.buffer.len() as i64;
                        self.buffer.clear();
                        self.phase = Phase::Saving;
                    },
                    Event::Failed(f) => self.fail(RCopyError::IoError(f)),
                    _ => {},
                }
            },
            Phase::Saving => {
                match e {
                    Event::Done => {
                        proof {
                            self.persisted@ = Some(self.position as int);
                        }
                        self.phase = Phase::Reporting;
                    },
                    Event::Failed(f) => self.fail(RCopyError::IoError(f)),
                    _ => {},
                }
            },
            Phase::Removing => {
                match e {
                    Event::Done => {
                        proof {
                            self.persisted@ = None;
                        }
                        self.phase = Phase::Done;
                    },
                    Event::Failed(_) => self.phase = Phase::Done,
                    _ => {},
                }
            },
            Phase::Done | Phase::Failed => {},
        }
    }
}

} // verus!
