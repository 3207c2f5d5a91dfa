//! Remote HTTP-backed block device.
//!
//! The host exposes a disk image through `/image` and supports HTTP
//! `Range: bytes=start-end` requests. A sector read becomes one HTTP request
//! over a fresh TCP connection: connect, send the request, read the response
//! header up to the blank line (keeping any body bytes that arrived with it),
//! then read body bytes until the caller's buffer is full. Any premature close
//! or read error fails the block read. HTTP status codes are not inspected.

use vstd::prelude::*;
use crate::utils::{
    ascii, ascii_bytes, decimal, dotted_quad, extend_bytes, find_blank_line, find_header_end,
    format_ip, lemma_find_blank_line, u32_to_ascii, Ipv4Address,
};

verus! {

/// Capacity of the response-header buffer.
pub const HEADER_CAPACITY: usize = 512;

/// HTTP request for the inclusive byte range `start..=end` of the image.
pub open spec fn range_request(server: Seq<u8>, start: nat, end: nat) -> Seq<u8> {
    ascii("GET /image HTTP/1.1\r\nHost: "@) + dotted_quad(server) + ascii("\r\nRange: bytes="@)
        + decimal(start) + ascii("-"@) + decimal(end) + ascii("\r\nConnection: close\r\n\r\n"@)
}

/// Where a range fetch stands.
#[derive(Debug, Clone, Copy, PartialEq, Eq, Structural)]
pub enum FetchPhase {
    Connecting,
    Sending,
    ReadingHeader,
    ReadingBody,
    Finished,
}

/// Next I/O step of a range fetch.
pub enum FetchAction {
    /// Open a TCP connection to the image server.
    Connect,
    /// Send these request bytes (write errors are ignored).
    Send(Vec<u8>),
    /// Read at most this many header bytes and report them.
    ReadHeader(usize),
    /// Read body bytes into the caller's buffer from this offset on and report the count.
    ReadBody(usize),
    /// The fetch is over. On success the connection is flushed and closed.
    Done(Result<(), ()>),
}

/// An HTTP range request filling a caller buffer of `total` bytes with the
/// image bytes `start..=end`.
pub struct RangeFetch {
    pub phase: FetchPhase,
    pub server: Ipv4Address,
    pub start: u32,
    pub end: u32,
    pub total: usize,
    pub header: [u8; HEADER_CAPACITY],
    pub filled: usize,
    pub got: usize,
}

impl RangeFetch {
    /// Header bytes received so far.
    pub open spec fn header(&self) -> Seq<u8> {
        self.header@.subrange(0, self.filled as int)
    }

    /// State invariant.
    pub open spec fn wf(&self) -> bool {
        &&& self.filled <= HEADER_CAPACITY
        &&& self.got <= self.total
        &&& self.phase == FetchPhase::ReadingBody ==> self.got < self.total
        &&& self.phase == FetchPhase::ReadingHeader ==> self.filled < HEADER_CAPACITY
    }

    /// Starts fetching the byte range `start..=end` into a buffer of `total` bytes.
    pub fn new(server: Ipv4Address, start: u32, end: u32, total: usize) -> (r: (RangeFetch, FetchAction))
        ensures
            r.0.wf(),
            r.0.phase == FetchPhase::Connecting,
            r.0.server == server && r.0.start == start && r.0.end == end && r.0.total == total,
            r.0.filled == 0 && r.0.got == 0,
            r.1 is Connect,
    {
        let f = RangeFetch {
            phase: FetchPhase::Connecting,
            server,
            start,
            end,
            total,
            header: [0u8; HEADER_CAPACITY],
            filled: 0,
            got: 0,
        };
        (f, FetchAction::Connect)
    }

    /// Handles the outcome of the connection attempt: on success the request
    /// is sent, otherwise the fetch fails.
    pub fn on_connect(&mut self, connected: bool) -> (r: FetchAction)
        requires
            old(self).wf(),
            old(self).phase == FetchPhase::Connecting,
        ensures
            final(self).wf(),
            final(self).server == old(self).server && final(self).start == old(self).start,
            final(self).end == old(self).end && final(self).total == old(self).total,
            final(self).filled == 0 && final(self).got == 0 || !connected,
            connected ==> final(self).phase == FetchPhase::Sending && (r matches FetchAction::Send(v)
                && v@ == range_request(old(self).server.octets@, old(self).start as nat, old(self).end as nat)),
            !connected ==> *final(self) == (RangeFetch { phase: FetchPhase::Finished, ..*old(self) })
                && r == FetchAction::Done(Err(())),
    {
        if !connected {
            self.phase = FetchPhase::Finished;
            return FetchAction::Done(Err(()));
        }
        self.filled = 0;
        self.got = 0;
        self.phase = FetchPhase::Sending;
        FetchAction::Send(build_range_request(self.server, self.start, self.end))
    }
}

/// Builds the HTTP range request for the bytes `start..=end` of the image.
pub fn build_range_request(server: Ipv4Address, start: u32, end: u32) -> (r: Vec<u8>)
    ensures
        r@ == range_request(server.octets@, start as nat, end as nat),
{
    let mut req: Vec<u8> = Vec::new();
    proof {
        reveal_strlit("GET /image HTTP/1.1\r\nHost: ");
        reveal_strlit("\r\nRange: bytes=");
        reveal_strlit("-");
        reveal_strlit("\r\nConnection: close\r\n\r\n");
    }
    extend_bytes(&mut req, ascii_bytes("GET /image HTTP/1.1\r\nHost: "));
    let mut ip_buf = [0u8; 16];
    proof {
        crate::utils::lemma_dotted_quad_len(server.octets@);
    }
    let s = format_ip(server, &mut ip_buf);
    extend_bytes(&mut req, s);
    extend_bytes(&mut req, ascii_bytes("\r\nRange: bytes="));
    let mut numbuf = [0u8; 24];
    proof {
        crate::utils::lemma_decimal_u32_len(start as nat);
        crate::utils::lemma_ascii_roundtrip(start as nat, 24);
    }
    let start_ascii = u32_to_ascii(start, &mut numbuf);
    extend_bytes(&mut req, start_ascii);
    extend_bytes(&mut req, ascii_bytes("-"));
    proof {
        crate::utils::lemma_decimal_u32_len(end as nat);
        crate::utils::lemma_ascii_roundtrip(end as nat, 24);
    }
    let end_ascii = u32_to_ascii(end, &mut numbuf);
    extend_bytes(&mut req, end_ascii);
    extend_bytes(&mut req, ascii_bytes("\r\nConnection: close\r\n\r\n"));
    req
}

/// Header-phase transition: `h` is the header received so far (including the
/// newest bytes), `buf` the caller's buffer. Returns the new `got` count, the
/// new buffer contents and the next action.
pub open spec fn header_step(h: Seq<u8>, total: nat, buf: Seq<u8>) -> (nat, Seq<u8>, FetchPhase, Option<Result<(), ()>>) {
    let term = find_blank_line(h, 0);
    if term >= 0 {
        let body_start = term + 4;
        let avail = h.len() - body_start;
        let k = if avail < total { avail } else { total as int };
        let nbuf = h.subrange(body_start, body_start + k) + buf.subrange(k, buf.len() as int);
        if k < total {
            (k as nat, nbuf, FetchPhase::ReadingBody, None)
        } else {
            (k as nat, nbuf, FetchPhase::Finished, Some(Ok(())))
        }
    } else if h.len() >= HEADER_CAPACITY {
        (0, buf, FetchPhase::Finished, Some(Err(())))
    } else {
        (0, buf, FetchPhase::ReadingHeader, None)
    }
}

impl RangeFetch {
    /// Handles the end of the request transmission (write errors are
    /// ignored): the response header is read next.
    pub fn on_sent(&mut self) -> (r: FetchAction)
        requires
            old(self).wf(),
            old(self).phase == FetchPhase::Sending,
            old(self).filled == 0,
        ensures
            final(self).wf(),
            *final(self) == (RangeFetch { phase: FetchPhase::ReadingHeader, ..*old(self) }),
            r == FetchAction::ReadHeader(HEADER_CAPACITY),
    {
        self.phase = FetchPhase::ReadingHeader;
        FetchAction::ReadHeader(HEADER_CAPACITY)
    }

    /// Handles a header read: `received` holds the bytes read (at most the
    /// requested count), is empty when the server closed the connection, or
    /// is `Err` on a read error. Once the header's blank line has arrived, the
    /// body bytes received with it are copied to the start of `buf`.
    pub fn on_header_data(&mut self, received: Result<&[u8], ()>, buf: &mut [u8]) -> (r: FetchAction)
        requires
            old(self).wf(),
            old(self).phase == FetchPhase::ReadingHeader,
            old(buf)@.len() == old(self).total,
            received matches Ok(d) ==> d@.len() <= HEADER_CAPACITY - old(self).filled,
        ensures
            final(self).wf(),
            final(self).server == old(self).server && final(self).start == old(self).start,
            final(self).end == old(self).end && final(self).total == old(self).total,
            final(buf)@.len() == old(buf)@.len(),
            match received {
                Err(()) => final(self).phase == FetchPhase::Finished && r == FetchAction::Done(Err(()))
                    && final(buf)@ == old(buf)@,
                Ok(d) => if d@.len() == 0 {
                    final(self).phase == FetchPhase::Finished && r == FetchAction::Done(Err(()))
                        && final(buf)@ == old(buf)@
                } else {
                    let h = old(self).header() + d@;
                    let step = header_step(h, old(self).total as nat, old(buf)@);
                    &&& final(self).header() == h
                    &&& final(self).got == step.0
                    &&& final(buf)@ == step.1
                    &&& final(self).phase == step.2
                    &&& match step.3 {
                        Some(res) => r == FetchAction::Done(res),
                        None => if step.2 == FetchPhase::ReadingBody {
                            r == FetchAction::ReadBody(step.0 as usize)
                        } else {
                            r == FetchAction::ReadHeader((HEADER_CAPACITY - h.len()) as usize)
                        },
                    }
                },
            },
    {
        let d = match received {
            Err(()) => {
                self.phase = FetchPhase::Finished;
                return FetchAction::Done(Err(()));
            },
            Ok(d) => d,
        };
        if d.len() == 0 {
            self.phase = FetchPhase::Finished;
            return FetchAction::Done(Err(()));
        }
        let ghost old_header = self.header();
        let mut i: usize = 0;
        while i < d.len()
            invariant
                old(self).filled + d@.len() <= HEADER_CAPACITY,
                self.filled == old(self).filled,
                self.phase == old(self).phase && self.server == old(self).server,
                self.start == old(self).start && self.end == old(self).end,
                self.total == old(self).total && self.got == old(self).got,
                old_header == old(self).header(),
                i <= d@.len(),
                forall|k: int| 0 <= k < self.filled ==> self.header@[k] == old_header[k],
                forall|k: int| 0 <= k < i ==> self.header@[self.filled + k] == d@[k],
            decreases d@.len() - i,
        {
            self.header[self.filled + i] = d[i];
            i = i + 1;
        }
        self.filled = self.filled + d.len();
        let ghost h = old_header + d@;
        assert(self.header() =~= h);
        let term = find_header_end(&self.header, self.filled);
        proof {
            lemma_find_blank_line(h, 0);
        }
        if term >= 0 {
            let body_start = (term + 4) as usize;
            let avail = self.filled - body_start;
            let k = if avail < self.total { avail } else { self.total };
            let mut j: usize = 0;
            while j < k
                invariant
                    body_start + k <= self.filled <= HEADER_CAPACITY,
                    k <= buf@.len(),
                    buf@.len() == old(buf)@.len(),
                    j <= k,
                    forall|q: int| 0 <= q < j ==> buf@[q] == self.header@[body_start + q],
                    forall|q: int| j <= q < buf@.len() ==> buf@[q] == old(buf)@[q],
                decreases k - j,
            {
                buf[j] = self.header[body_start + j];
                j = j + 1;
            }
            assert(buf@ =~= h.subrange(body_start as int, body_start + k) + old(buf)@.subrange(k as int, old(buf)@.len() as int));
            self.got = k;
            if k < self.total {
                self.phase = FetchPhase::ReadingBody;
                FetchAction::ReadBody(k)
            } else {
                self.phase = FetchPhase::Finished;
                FetchAction::Done(Ok(()))
            }
        } else if self.filled >= HEADER_CAPACITY {
            self.got = 0;
            self.phase = FetchPhase::Finished;
            FetchAction::Done(Err(()))
        } else {
            self.got = 0;
            FetchAction::ReadHeader(HEADER_CAPACITY - self.filled)
        }
    }

    /// Handles a body read of `received` bytes into the caller's buffer at
    /// offset `got`: a closed connection or read error fails the fetch, and
    /// the fetch succeeds once the buffer is full.
    pub fn on_body_read(&mut self, received: Result<usize, ()>) -> (r: FetchAction)
        requires
            old(self).wf(),
            old(self).phase == FetchPhase::ReadingBody,
            received matches Ok(n) ==> n <= old(self).total - old(self).got,
        ensures
            final(self).wf(),
            final(self).server == old(self).server && final(self).start == old(self).start,
            final(self).end == old(self).end && final(self).total == old(self).total,
            final(self).filled == old(self).filled && final(self).header == old(self).header,
            match received {
                Ok(n) => if n == 0 {
                    final(self).phase == FetchPhase::Finished && r == FetchAction::Done(Err(()))
                        && final(self).got == old(self).got
                } else {
                    &&& final(self).got == old(self).got + n
                    &&& if final(self).got < final(self).total {
                        final(self).phase == FetchPhase::ReadingBody && r == FetchAction::ReadBody(final(self).got)
                    } else {
                        final(self).phase == FetchPhase::Finished && r == FetchAction::Done(Ok(()))
                    }
                },
                Err(()) => final(self).phase == FetchPhase::Finished && r == FetchAction::Done(Err(()))
                    && final(self).got == old(self).got,
            },
    {
        match received {
            Ok(n) => {
                if n == 0 {
                    self.phase = FetchPhase::Finished;
                    return FetchAction::Done(Err(()));
                }
                self.got = self.got + n;
                if self.got < self.total {
                    FetchAction::ReadBody(self.got)
                } else {
                    self.phase = FetchPhase::Finished;
                    FetchAction::Done(Ok(()))
                }
            },
            Err(()) => {
                self.phase = FetchPhase::Finished;
                FetchAction::Done(Err(()))
            },
        }
    }
}


/// Block backend that retrieves sectors from a host-side HTTP image server.
#[derive(Debug, Clone, Copy)]
pub struct RemoteBlockDevice {
    /// Host PC serving the image.
    pub server: Ipv4Address,
    /// TCP port of the image server.
    pub port: u16,
}

/// A fetch of nothing, over before it started.
pub open spec fn finished_fetch(f: RangeFetch, server: Ipv4Address) -> bool {
    f.phase == FetchPhase::Finished && f.server == server && f.total == 0
}

impl RemoteBlockDevice {
    /// Creates a backend pointed at `server:port`.
    pub fn new(server: Ipv4Address, port: u16) -> (r: Self)
        ensures
            r.server == server && r.port == port,
    {
        Self { server, port }
    }

    /// Reads one block: the same request as `read_blocks`.
    pub fn read_block(&mut self, lba: u32, len: usize) -> (r: (RangeFetch, FetchAction))
        requires
            len <= u32::MAX,
            len > 0 ==> lba * 512 + len <= u32::MAX,
        ensures
            *final(self) == *old(self),
            r.0.wf(),
            len == 0 ==> finished_fetch(r.0, old(self).server) && r.1 == FetchAction::Done(Ok(())),
            len > 0 ==> r.0.phase == FetchPhase::Connecting && r.0.server == old(self).server
                && r.0.start == lba * 512 && r.0.end == lba * 512 + len - 1 && r.0.total == len
                && r.0.got == 0 && r.0.filled == 0 && r.1 is Connect,
    {
        self.read_blocks(lba, len)
    }

    /// Whether a read of `len` bytes at block `lba` has its byte range in
    /// 32 bits, as `read_blocks` needs.
    pub fn range_in_bounds(lba: u32, len: usize) -> (r: bool)
        ensures
            r == (len <= u32::MAX && (len > 0 ==> lba * 512 + len <= u32::MAX)),
    {
        if len > u32::MAX as usize {
            return false;
        }
        len == 0 || lba <= (u32::MAX - len as u32) / 512
    }

    /// Starts reading the `len` bytes of the image that begin at block `lba`
    /// into a caller buffer. HTTP byte ranges are inclusive: a one-sector
    /// read at LBA 0 asks for bytes 0..511. An empty read needs no request.
    pub fn read_blocks(&mut self, lba: u32, len: usize) -> (r: (RangeFetch, FetchAction))
        requires
            len <= u32::MAX,
            len > 0 ==> lba * 512 + len <= u32::MAX,
        ensures
            *final(self) == *old(self),
            r.0.wf(),
            len == 0 ==> finished_fetch(r.0, old(self).server) && r.1 == FetchAction::Done(Ok(())),
            len > 0 ==> r.0.phase == FetchPhase::Connecting && r.0.server == old(self).server
                && r.0.start == lba * 512 && r.0.end == lba * 512 + len - 1 && r.0.total == len
                && r.0.got == 0 && r.0.filled == 0 && r.1 is Connect,
    {
        if len == 0 {
            let (mut f, _) = RangeFetch::new(self.server, 0, 0, 0);
            f.phase = FetchPhase::Finished;
            return (f, FetchAction::Done(Ok(())));
        }
        let start_byte = lba * 512;
        let end_byte = start_byte + len as u32 - 1;
        RangeFetch::new(self.server, start_byte, end_byte, len)
    }
}

} // verus!
