//! The network daemon surface, which is declared but not implemented.
use vstd::prelude::*;

use crate::error::{IoFailure, RCopyError, RCopyErrorView, RCopyResult};

verus! {

/// A resolved network address: the octets of an IPv4 or IPv6 address, and a port.
#[derive(Clone, Debug)]
pub struct SocketAddress {
    pub ip: Vec<u8>,
    pub port: u16,
}

pub struct RCopyDaemon {
    hostport: SocketAddress,
}

impl RCopyDaemon {
    pub closed spec fn spec_hostport(&self) -> (Seq<u8>, u16) {
        (self.hostport.ip@, self.hostport.port)
    }

    /// A daemon for the address that `hostport` resolved to; a failed
    /// resolution is an I/O error.
    pub fn new(hostport: Result<SocketAddress, IoFailure>) -> (r: RCopyResult<RCopyDaemon>)
        ensures
            match hostport {
                Ok(a) => r matches Ok(d) && d.spec_hostport() == (a.ip@, a.port),
                Err(f) => r matches Err(e) && e@ == RCopyErrorView::IoError(f@),
            },
    {
        match hostport {
            Ok(hostport) => Ok(RCopyDaemon { hostport }),
            Err(f) => Err(RCopyError::IoError(f)),
        }
    }

    /// The address the daemon is for.
    pub fn hostport(&self) -> (r: &SocketAddress)
        ensures
            (r.ip@, r.port) == self.spec_hostport(),
    {
        &self.hostport
    }

    /// Serving is not implemented: this reports so.
    pub fn serve(&mut self) -> (r: RCopyError)
        ensures
            r is NotImplemented,
            final(self).spec_hostport() == old(self).spec_hostport(),
    {
        RCopyError::NotImplemented
    }
}

} // verus!
