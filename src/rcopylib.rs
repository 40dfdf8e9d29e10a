//! The first, string-typed surface of the daemon, kept for the `rcopyd`
//! program: errors are messages, and the file copy reports no progress.
use vstd::prelude::*;
use vstd::string::StringExecFns;

use crate::daemon::SocketAddress;
use crate::error::IoFailure;

verus! {

/// An error, as a message.
#[derive(Clone, Debug)]
pub struct RCopyError(pub String);

pub type RCopyResult<T> = Result<T, RCopyError>;

impl RCopyError {
    /// An I/O failure becomes its message.
    pub fn from_io(f: IoFailure) -> (r: RCopyError)
        ensures
            r.0@ == f.message@,
    {
        RCopyError(f.message)
    }

    pub fn description(&self) -> (r: &str)
        ensures
            r@ == self.0@,
    {
        self.0.as_str()
    }
}

pub struct RCopyDaemon {
    hostport: SocketAddress,
}

impl RCopyDaemon {
    pub closed spec fn spec_hostport(&self) -> (Seq<u8>, u16) {
        (self.hostport.ip@, self.hostport.port)
    }

    /// A daemon for the address that `hostport` resolved to; a failed
    /// resolution yields the failure's message.
    pub fn new(hostport: Result<SocketAddress, IoFailure>) -> (r: RCopyResult<RCopyDaemon>)
        ensures
            match hostport {
                Ok(a) => r matches Ok(d) && d.spec_hostport() == (a.ip@, a.port),
                Err(f) => r matches Err(e) && e.0@ == f.message@,
            },
    {
        match hostport {
            Ok(hostport) => Ok(RCopyDaemon { hostport }),
            Err(f) => Err(RCopyError::from_io(f)),
        }
    }

    /// Serving is not implemented: this reports so.
    pub fn serve(&mut self) -> (r: RCopyError)
        ensures
            r.0@ == "not implemented"@,
            final(self).spec_hostport() == old(self).spec_hostport(),
    {
        RCopyError(String::from_str("not implemented"))
    }
}

/// Progress of a copy: `current` of `total` bytes are in the destination.
#[derive(Clone, Copy, Debug, PartialEq, Eq, Structural)]
pub struct ProgressInfo {
    pub current: i64,
    pub total: i64,
}

/// The copy of this surface transfers nothing and reports no progress.
#[allow(non_snake_case)]
pub fn ResumableFileCopy(dst_path: &str, src_path: &str) -> (r: Vec<ProgressInfo>)
    ensures
        r@.len() == 0,
{
    Vec::new()
}

} // verus!
