//! Small read-through cache for block backends.
//!
//! Raspberry Pi boot and OS probing read nearby sectors repeatedly. The cache
//! loads 24 sectors at a time into one window and serves `read_block` calls
//! directly while the requested LBA is inside that window. On a miss the
//! window is realigned at the requested LBA and refilled from the backend.
//! `read_blocks` bypasses the cache. There is no write-back path: the
//! exported USB disk is read-only.

use vstd::prelude::*;

verus! {

/// Number of sectors held by the cache window.
pub const CACHE_BLOCKS: u32 = 24;

/// Size of the cache window in bytes.
pub const CACHE_BYTES: usize = 24 * 512;

/// Result of looking a sector up in the cache.
#[derive(Debug, Clone, Copy, PartialEq, Eq, Structural)]
pub enum CacheLookup {
    /// The sector was copied from the window.
    Hit,
    /// The window was realigned at the requested LBA and must be refilled
    /// from the backend (see [`CachedData::fill_parts`] and
    /// [`CachedData::finish_fill`]).
    Miss,
}

/// Read-through cache wrapper around a block backend `D`.
pub struct CachedData<D> {
    /// Backend that actually owns the storage or network connection.
    inner: D,
    /// Cached sector data for the current window.
    data: [u8; CACHE_BYTES],
    /// First LBA represented by `data`.
    start_lba: u32,
    /// Whether `data` contains a loaded window.
    valid: bool,
}

impl<D> CachedData<D> {
    /// Window contents.
    pub closed spec fn window(&self) -> Seq<u8> {
        self.data@
    }

    /// First LBA of the window.
    pub closed spec fn start(&self) -> u32 {
        self.start_lba
    }

    /// Whether the window holds loaded data.
    pub closed spec fn is_valid(&self) -> bool {
        self.valid
    }

    /// The wrapped backend.
    pub closed spec fn backend(&self) -> D {
        self.inner
    }

    /// The window always spans exactly 24 sectors.
    pub closed spec fn wf(&self) -> bool {
        self.data@.len() == CACHE_BYTES
    }

    /// Whether `lba` falls inside the loaded window.
    pub open spec fn covers(&self, lba: u32) -> bool {
        self.is_valid() && self.start() <= lba < self.start() + CACHE_BLOCKS
    }

    /// Sector `lba` as held by the window.
    pub open spec fn cached_sector(&self, lba: u32) -> Seq<u8> {
        let off = (lba - self.start()) * 512;
        self.window().subrange(off, off + 512)
    }

    /// Creates a cache around `inner` with an empty window.
    pub fn new(inner: D) -> (r: Self)
        ensures
            r.wf(),
            r.backend() == inner,
            !r.is_valid(),
            r.start() == 0,
            r.window() == Seq::new(CACHE_BYTES as nat, |i: int| 0u8),
    {
        let data = [0u8; CACHE_BYTES];
        assert(data@ =~= Seq::new(CACHE_BYTES as nat, |i: int| 0u8));
        Self { inner, data, start_lba: 0, valid: false }
    }

    /// Whether `read_block(lba, ..)` can test the window: a valid window whose
    /// end lies past `u32::MAX` cannot be compared with an LBA at or after
    /// its start.
    pub fn lookup_in_range(&self, lba: u32) -> (r: bool)
        ensures
            r == (self.is_valid() && lba >= self.start() ==> self.start() + CACHE_BLOCKS <= u32::MAX),
    {
        !(self.valid && lba >= self.start_lba) || self.start_lba <= u32::MAX - CACHE_BLOCKS
    }

    /// Serves sector `lba` into the 512-byte `buf` when the window covers it
    /// (`Hit`). Otherwise realigns the window at `lba` (`Miss`); the caller
    /// then fills the window from the backend and calls `finish_fill`.
    pub fn read_block(&mut self, lba: u32, buf: &mut [u8]) -> (r: CacheLookup)
        requires
            old(self).wf(),
            old(buf)@.len() == 512,
            old(self).is_valid() && lba >= old(self).start() ==> old(self).start() + CACHE_BLOCKS <= u32::MAX,
        ensures
            final(self).wf(),
            final(self).backend() == old(self).backend(),
            final(self).window() == old(self).window(),
            final(self).is_valid() == old(self).is_valid(),
            old(self).covers(lba) ==> r == CacheLookup::Hit && final(self).start() == old(self).start()
                && final(buf)@ == old(self).cached_sector(lba),
            !old(self).covers(lba) ==> r == CacheLookup::Miss && final(self).start() == lba
                && final(buf)@ == old(buf)@,
    {
        if self.valid && lba >= self.start_lba && lba < self.start_lba + CACHE_BLOCKS {
            let offset = ((lba - self.start_lba) as usize) * 512;
            let mut i: usize = 0;
            while i < 512
                invariant
                    self.wf(),
                    offset + 512 <= CACHE_BYTES,
                    buf@.len() == 512,
                    i <= 512,
                    forall|k: int| 0 <= k < i ==> buf@[k] == self.data@[offset + k],
                decreases 512 - i,
            {
                buf[i] = self.data[offset + i];
                i = i + 1;
            }
            assert(buf@ =~= self.cached_sector(lba));
            return CacheLookup::Hit;
        }
        self.start_lba = lba;
        CacheLookup::Miss
    }

    /// The backend and the window, for the backend to fill the window with
    /// the blocks starting at the window's LBA.
    pub fn fill_parts(&mut self) -> (r: (&mut D, &mut [u8; CACHE_BYTES]))
        requires
            old(self).wf(),
        ensures
            *r.0 == old(self).backend(),
            r.1@ == old(self).window(),
            final(self).backend() == *final(r.0),
            final(self).window() == final(r.1)@,
            final(self).wf(),
            final(self).start() == old(self).start(),
            final(self).is_valid() == old(self).is_valid(),
    {
        (&mut self.inner, &mut self.data)
    }

    /// Completes a miss with the backend's result. On success the window is
    /// marked valid and its first sector is copied into the 512-byte `buf`.
    /// On failure the error is passed on and the window is marked invalid:
    /// it no longer holds a loaded window for its (moved) start.
    pub fn finish_fill(&mut self, result: Result<(), ()>, buf: &mut [u8]) -> (r: Result<(), ()>)
        requires
            old(self).wf(),
            old(buf)@.len() == 512,
        ensures
            final(self).wf(),
            r == result,
            final(self).backend() == old(self).backend(),
            final(self).window() == old(self).window(),
            final(self).start() == old(self).start(),
            result is Err ==> !final(self).is_valid() && final(buf)@ == old(buf)@,
            result is Ok ==> final(self).is_valid() && final(buf)@ == old(self).window().subrange(0, 512),
    {
        if let Err(()) = result {
            self.valid = false;
            return result;
        }
        self.valid = true;
        let mut i: usize = 0;
        while i < 512
            invariant
                self.wf(),
                buf@.len() == 512,
                i <= 512,
                forall|k: int| 0 <= k < i ==> buf@[k] == self.data@[k],
            decreases 512 - i,
        {
            buf[i] = self.data[i];
            i = i + 1;
        }
        assert(buf@ =~= self.data@.subrange(0, 512));
        result
    }

    /// The backend, for multi-block reads, which bypass the cache.
    pub fn inner_mut(&mut self) -> (r: &mut D)
        ensures
            *r == old(self).backend(),
            final(self).backend() == *final(r),
            final(self).window() == old(self).window(),
            final(self).start() == old(self).start(),
            final(self).is_valid() == old(self).is_valid(),
            final(self).wf() == old(self).wf(),
    {
        &mut self.inner
    }
}

/// After a miss at `lba` and a successful fill, the window holds the data
/// the backend wrote into it for the blocks `lba .. lba + 24`, and every read
/// of those blocks is a hit answered from that data.
pub proof fn lemma_hits_after_fill<D>(c: CachedData<D>, lba: u32, l2: u32)
    requires
        c.is_valid(),
        c.start() == lba,
        lba <= l2 < lba + CACHE_BLOCKS,
    ensures
        c.covers(l2),
        c.cached_sector(l2) == c.window().subrange((l2 - lba) * 512, (l2 - lba) * 512 + 512),
{
}

} // verus!
