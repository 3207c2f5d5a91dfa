//! Remote HTTP-backed block device of the first USB MSC prototype. Unlike
//! `block::remote`, it places the logical block address itself, not the byte
//! offset `lba * 512`, at the start of the requested HTTP byte range.

use vstd::prelude::*;
use crate::block::remote::{finished_fetch, FetchAction, FetchPhase, RangeFetch};
use crate::utils::Ipv4Address;

verus! {

/// Block backend that retrieves data from a host-side HTTP image server.
#[derive(Debug, Clone, Copy)]
pub struct RemoteBlockDevice {
    /// Host PC serving the image.
    pub server: Ipv4Address,
    /// TCP port of the image server.
    pub port: u16,
}

impl RemoteBlockDevice {
    /// Creates a backend pointed at `server:port`.
    pub fn new(server: Ipv4Address, port: u16) -> (r: Self)
        ensures
            r.server == server && r.port == port,
    {
        Self { server, port }
    }

    /// Starts reading `len` bytes for block `lba`: the requested byte range
    /// is `lba..=lba + len - 1`. An empty read needs no request.
    pub fn read_block(&mut self, lba: u32, len: usize) -> (r: (RangeFetch, FetchAction))
        requires
            len <= u32::MAX,
            len > 0 ==> lba + len <= u32::MAX,
        ensures
            *final(self) == *old(self),
            r.0.wf(),
            len == 0 ==> finished_fetch(r.0, old(self).server) && r.1 == FetchAction::Done(Ok(())),
            len > 0 ==> r.0.phase == FetchPhase::Connecting && r.0.server == old(self).server
                && r.0.start == lba && r.0.end == lba + len - 1 && r.0.total == len
                && r.0.got == 0 && r.0.filled == 0 && r.1 is Connect,
    {
        if len == 0 {
            let (mut f, _) = RangeFetch::new(self.server, 0, 0, 0);
            f.phase = FetchPhase::Finished;
            return (f, FetchAction::Done(Ok(())));
        }
        RangeFetch::new(self.server, lba, lba + len as u32 - 1, len)
    }
}

} // verus!
