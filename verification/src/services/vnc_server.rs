//! Experimental VNC/RFB diagnostic service.
//!
//! A very small subset of RFB 3.8: the server accepts a no-auth client,
//! advertises a fixed 200x200 framebuffer, and answers framebuffer update
//! requests with generated gradient pixels in raw encoding. Pixel-format
//! requests set the bits per pixel used for the answers (32-bit BGRA, 16-bit
//! RGB565, or one green byte per pixel otherwise). An update request whose
//! rows would not fit the 800-byte line buffer ends the session. Keyboard and pointer
//! events are only decoded; encoding lists and clipboard text are drained so
//! the message stream stays aligned.
//!
//! A session is a state machine: it names the next socket step (write bytes,
//! read an exact number of bytes, close) and the caller reports the outcome.

use vstd::prelude::*;
use crate::wire::{be16, be32, from_be16, from_be32, u16_from_be_bytes, u16_to_be_bytes, u32_from_be_bytes, u32_to_be_bytes};
use crate::utils::{ascii, ascii_bytes, extend_bytes};
use vstd::slice::slice_to_vec;

verus! {

/// Framebuffer width in pixels.
pub const SCREEN_WIDTH: u16 = 200;
/// Framebuffer height in pixels.
pub const SCREEN_HEIGHT: u16 = 200;
/// Capacity of the line buffer used for one framebuffer row.
pub const LINE_CAPACITY: usize = 800;

/// RGB colour of pixel `(x, y)` of the synthetic gradient.
pub open spec fn gradient_pixel(x: u16, y: u16) -> Seq<u8> {
    let hue = #[verifier::truncate] ((((x as u32 + y as u32) * 360) / 400) as u16);
    let h = (hue / 60) % 6;
    let c: u8 = 200;
    let xv = ((c as u32 * (60 - (hue % 60) as u32)) / 60) as u8;
    if h == 0 {
        seq![c, xv, 0u8]
    } else if h == 1 {
        seq![xv, c, 0u8]
    } else if h == 2 {
        seq![0u8, c, xv]
    } else if h == 3 {
        seq![0u8, xv, c]
    } else if h == 4 {
        seq![xv, 0u8, c]
    } else {
        seq![c, 0u8, xv]
    }
}

/// Produces a deterministic RGB gradient for the synthetic framebuffer.
pub fn generate_gradient_pixel(x: u16, y: u16) -> (r: [u8; 3])
    ensures
        r@ == gradient_pixel(x, y),
{
    let hue = #[verifier::truncate] ((((x as u32 + y as u32) * 360) / (SCREEN_WIDTH as u32 + SCREEN_HEIGHT as u32)) as u16);
    let sat: u32 = 255;
    let val: u32 = 200;
    let h = (hue / 60) % 6;
    assert(val * sat == 51000);
    let c = ((val * sat) / 255) as u8;
    assert(c == 200);
    let x_val = (c as u32 * (60 - ((hue % 60) as u32))) / 60;
    let r = if h == 0 {
        [c, x_val as u8, 0]
    } else if h == 1 {
        [x_val as u8, c, 0]
    } else if h == 2 {
        [0, c, x_val as u8]
    } else if h == 3 {
        [0, x_val as u8, c]
    } else if h == 4 {
        [x_val as u8, 0, c]
    } else {
        [c, 0, x_val as u8]
    };
    assert(r@ =~= gradient_pixel(x, y));
    r
}

/// RGB565 value of an RGB colour.
pub open spec fn rgb565(p: Seq<u8>) -> int {
    (p[0] / 8) * 2048 + (p[1] / 4) * 32 + p[2] / 8
}

/// Byte `k` (`0 <= k < bpp`) of pixel `(x, y)` encoded with `bpp` bytes per pixel.
pub open spec fn pixel_byte(x: u16, y: u16, bpp: int, k: int) -> u8 {
    let p = gradient_pixel(x, y);
    if bpp == 4 {
        if k == 0 { p[2] } else if k == 1 { p[1] } else if k == 2 { p[0] } else { 0 }
    } else if bpp == 2 {
        if k == 0 { (rgb565(p) % 256) as u8 } else { (rgb565(p) / 256) as u8 }
    } else {
        if k == 0 { p[1] } else { 0 }
    }
}

/// One framebuffer row `y`, pixels `start_x .. start_x + width`.
pub open spec fn row_bytes(start_x: u16, y: u16, width: nat, bpp: int) -> Seq<u8> {
    Seq::new(width * bpp as nat, |i: int| pixel_byte((start_x + i / bpp) as u16, y, bpp, i % bpp))
}

/// Bytes per pixel for a client bit depth (at least one).
pub open spec fn bytes_per_pixel(bits: u8) -> int {
    if bits / 8 == 0 { 1 } else { (bits / 8) as int }
}

/// The RFB protocol version string.
pub open spec fn protocol_version() -> Seq<u8> {
    ascii("RFB 003.008\n"@)
}

/// ServerInit: 200x200 framebuffer, 32-bit true-colour BGRA pixel format,
/// name `STM32VNC`.
pub open spec fn server_init() -> Seq<u8> {
    be16(SCREEN_WIDTH) + be16(SCREEN_HEIGHT) + seq![32u8, 24, 0, 1] + be16(255) + be16(255) + be16(255)
        + seq![16u8, 8, 0, 0, 0, 0] + be32(8) + ascii("STM32VNC"@)
}

/// Framebuffer update header announcing one raw rectangle.
pub open spec fn fb_update_header(x: u16, y: u16, w: u16, h: u16) -> Seq<u8> {
    seq![0u8, 0u8] + be16(1) + be16(x) + be16(y) + be16(w) + be16(h) + seq![0u8, 0, 0, 0]
}

/// A framebuffer rectangle clamped to the screen.
#[derive(Debug, Clone, Copy)]
pub struct Rect {
    pub x: u16,
    pub y: u16,
    pub width: u16,
    pub height: u16,
}

/// Smaller of two 16-bit values.
pub open spec fn min16(a: u16, b: u16) -> u16 {
    if a < b { a } else { b }
}

/// The rectangle of a FramebufferUpdateRequest payload, clamped to the screen.
pub open spec fn clamp_request(p: Seq<u8>) -> Rect {
    let rx = from_be16(p[1], p[2]) as u16;
    let ry = from_be16(p[3], p[4]) as u16;
    let rw = from_be16(p[5], p[6]) as u16;
    let rh = from_be16(p[7], p[8]) as u16;
    let x = min16(rx, SCREEN_WIDTH);
    let y = min16(ry, SCREEN_HEIGHT);
    Rect { x, y, width: min16(rw, (SCREEN_WIDTH - x) as u16), height: min16(rh, (SCREEN_HEIGHT - y) as u16) }
}

/// Where a session stands.
#[derive(Debug, Clone, Copy)]
pub enum VncPhase {
    SendVersion,
    ReadVersion,
    SendSecurityTypes,
    ReadSecurityType,
    SendSecurityResult,
    ReadClientInit,
    SendServerInit,
    ReadMessageType,
    ReadPixelFormat,
    ReadEncodingsHeader,
    ReadEncoding { encodings_left: u16 },
    ReadUpdateRequest,
    SendUpdateHeader { rect: Rect },
    SendRow { rect: Rect, row: u16 },
    ReadKeyEvent,
    ReadPointerEvent,
    ReadCutTextHeader,
    ReadCutText { bytes_left: u32 },
    Closed,
}

/// Next socket step of a session.
pub enum VncAction {
    /// Write these bytes (write errors are ignored).
    Write(Vec<u8>),
    /// Read exactly this many bytes into a zeroed buffer.
    ReadExact(usize),
    /// End the session.
    Close,
}

/// Specification view of a socket step.
pub enum VncStep {
    Write(Seq<u8>),
    ReadExact(nat),
    Close,
}

/// The step named by an action.
pub open spec fn step_of(a: &VncAction) -> VncStep {
    match a {
        VncAction::Write(v) => VncStep::Write(v@),
        VncAction::ReadExact(n) => VncStep::ReadExact(*n as nat),
        VncAction::Close => VncStep::Close,
    }
}

/// A VNC session: its phase and the bits per pixel the client asked for.
#[derive(Debug, Clone, Copy)]
pub struct VncSession {
    pub phase: VncPhase,
    pub bpp: u8,
}

/// Bytes of a row answered to a session using `bits` bits per pixel.
pub open spec fn session_row(rect: Rect, row: u16, bits: u8) -> Seq<u8> {
    row_bytes(rect.x, (rect.y + row) as u16, rect.width as nat, bytes_per_pixel(bits))
}

/// Whether a row of `width` pixels fits the line buffer at `bits` bits per pixel.
pub open spec fn row_fits(width: u16, bits: u8) -> bool {
    width * bytes_per_pixel(bits) <= LINE_CAPACITY
}

/// Phase of a session after its pending write completed, and the next step.
pub open spec fn after_write(s: VncSession) -> (VncSession, VncStep) {
    match s.phase {
        VncPhase::SendVersion => (VncSession { phase: VncPhase::ReadVersion, ..s }, VncStep::ReadExact(12)),
        VncPhase::SendSecurityTypes => (VncSession { phase: VncPhase::ReadSecurityType, ..s }, VncStep::ReadExact(1)),
        VncPhase::SendSecurityResult => (VncSession { phase: VncPhase::ReadClientInit, ..s }, VncStep::ReadExact(1)),
        VncPhase::SendServerInit => (VncSession { phase: VncPhase::ReadMessageType, ..s }, VncStep::ReadExact(1)),
        VncPhase::SendUpdateHeader { rect } => (
            VncSession { phase: VncPhase::SendRow { rect, row: 0 }, ..s },
            VncStep::Write(session_row(rect, 0, s.bpp)),
        ),
        VncPhase::SendRow { rect, row } => if row + 1 < rect.height {
            (
                VncSession { phase: VncPhase::SendRow { rect, row: (row + 1) as u16 }, ..s },
                VncStep::Write(session_row(rect, (row + 1) as u16, s.bpp)),
            )
        } else {
            (VncSession { phase: VncPhase::ReadMessageType, ..s }, VncStep::ReadExact(1))
        },
        _ => (VncSession { phase: VncPhase::Closed, ..s }, VncStep::Close),
    }
}

/// Session after a completed (or failed, `ok == false`) exact read that
/// left `data` in the buffer, and the next step.
pub open spec fn after_read(s: VncSession, ok: bool, data: Seq<u8>) -> (VncSession, VncStep) {
    let closed = (VncSession { phase: VncPhase::Closed, ..s }, VncStep::Close);
    let next_msg = (VncSession { phase: VncPhase::ReadMessageType, ..s }, VncStep::ReadExact(1));
    match s.phase {
        VncPhase::ReadVersion => (
            VncSession { phase: VncPhase::SendSecurityTypes, ..s },
            VncStep::Write(seq![1u8, 1u8]),
        ),
        VncPhase::ReadSecurityType => if data[0] != 1 {
            closed
        } else {
            (VncSession { phase: VncPhase::SendSecurityResult, ..s }, VncStep::Write(seq![0u8, 0, 0, 0]))
        },
        VncPhase::ReadClientInit => (
            VncSession { phase: VncPhase::SendServerInit, ..s },
            VncStep::Write(server_init()),
        ),
        VncPhase::ReadMessageType => if !ok {
            closed
        } else if data[0] == 0 {
            (VncSession { phase: VncPhase::ReadPixelFormat, ..s }, VncStep::ReadExact(19))
        } else if data[0] == 2 {
            (VncSession { phase: VncPhase::ReadEncodingsHeader, ..s }, VncStep::ReadExact(3))
        } else if data[0] == 3 {
            (VncSession { phase: VncPhase::ReadUpdateRequest, ..s }, VncStep::ReadExact(9))
        } else if data[0] == 4 {
            (VncSession { phase: VncPhase::ReadKeyEvent, ..s }, VncStep::ReadExact(7))
        } else if data[0] == 5 {
            (VncSession { phase: VncPhase::ReadPointerEvent, ..s }, VncStep::ReadExact(5))
        } else if data[0] == 6 {
            (VncSession { phase: VncPhase::ReadCutTextHeader, ..s }, VncStep::ReadExact(7))
        } else {
            closed
        },
        VncPhase::ReadPixelFormat => if !ok {
            closed
        } else {
            (VncSession { phase: VncPhase::ReadMessageType, bpp: data[3] }, VncStep::ReadExact(1))
        },
        VncPhase::ReadEncodingsHeader => if !ok {
            closed
        } else {
            let n = from_be16(data[1], data[2]);
            if n == 0 {
                next_msg
            } else {
                (
                    VncSession { phase: VncPhase::ReadEncoding { encodings_left: n as u16 }, ..s },
                    VncStep::ReadExact(4),
                )
            }
        },
        VncPhase::ReadEncoding { encodings_left } => if encodings_left > 1 {
            (
                VncSession { phase: VncPhase::ReadEncoding { encodings_left: (encodings_left - 1) as u16 }, ..s },
                VncStep::ReadExact(4),
            )
        } else {
            next_msg
        },
        VncPhase::ReadUpdateRequest => if !ok {
            closed
        } else {
            let rect = clamp_request(data);
            if rect.width == 0 || rect.height == 0 {
                next_msg
            } else if !row_fits(rect.width, s.bpp) {
                closed
            } else {
                (
                    VncSession { phase: VncPhase::SendUpdateHeader { rect }, ..s },
                    VncStep::Write(fb_update_header(rect.x, rect.y, rect.width, rect.height)),
                )
            }
        },
        VncPhase::ReadKeyEvent => if !ok { closed } else { next_msg },
        VncPhase::ReadPointerEvent => if !ok { closed } else { next_msg },
        VncPhase::ReadCutTextHeader => {
            let len = from_be32(data[3], data[4], data[5], data[6]);
            if len == 0 {
                next_msg
            } else {
                (
                    VncSession { phase: VncPhase::ReadCutText { bytes_left: len as u32 }, ..s },
                    VncStep::ReadExact(1),
                )
            }
        },
        VncPhase::ReadCutText { bytes_left } => if bytes_left > 1 {
            (
                VncSession { phase: VncPhase::ReadCutText { bytes_left: (bytes_left - 1) as u32 }, ..s },
                VncStep::ReadExact(1),
            )
        } else {
            next_msg
        },
        _ => closed,
    }
}

/// Session and step after the exact reads `reads` (each the read's success
/// and the bytes it left), taken one after another from `s`.
pub open spec fn after_reads(s: VncSession, reads: Seq<(bool, Seq<u8>)>) -> (VncSession, VncStep)
    decreases reads.len(),
{
    if reads.len() == 0 {
        (s, VncStep::Close)
    } else if reads.len() == 1 {
        after_read(s, reads[0].0, reads[0].1)
    } else {
        after_reads(after_read(s, reads[0].0, reads[0].1).0, reads.drop_first())
    }
}

proof fn lemma_encodings_drain(s: VncSession, k: u16, reads: Seq<(bool, Seq<u8>)>)
    requires
        s.phase == (VncPhase::ReadEncoding { encodings_left: k }),
        1 <= reads.len() <= k,
    ensures
        after_reads(s, reads) == if reads.len() < k {
            (VncSession { phase: VncPhase::ReadEncoding { encodings_left: (k - reads.len()) as u16 }, ..s }, VncStep::ReadExact(4))
        } else {
            (VncSession { phase: VncPhase::ReadMessageType, ..s }, VncStep::ReadExact(1))
        },
    decreases reads.len(),
{
    if reads.len() > 1 {
        let s1 = after_read(s, reads[0].0, reads[0].1).0;
        assert(s1 == VncSession { phase: VncPhase::ReadEncoding { encodings_left: (k - 1) as u16 }, ..s });
        lemma_encodings_drain(s1, (k - 1) as u16, reads.drop_first());
    }
}

/// A SetEncodings message announcing `n >= 1` encodings is followed by
/// exactly `n` reads of 4 bytes, whatever they hold and however they end,
/// before the session reads the next message type; the pixel format is
/// left alone.
pub proof fn lemma_set_encodings_drained(s: VncSession, header: Seq<u8>, reads: Seq<(bool, Seq<u8>)>)
    requires
        s.phase == VncPhase::ReadEncodingsHeader,
        header.len() == 3,
        from_be16(header[1], header[2]) >= 1,
        1 <= reads.len() <= from_be16(header[1], header[2]),
    ensures
        ({
            let n = from_be16(header[1], header[2]);
            let (s1, step1) = after_read(s, true, header);
            let (s2, step2) = after_reads(s1, reads);
            &&& step1 == VncStep::ReadExact(4)
            &&& s2.bpp == s.bpp
            &&& reads.len() < n ==> step2 == VncStep::ReadExact(4) && s2.phase is ReadEncoding
            &&& reads.len() == n ==> step2 == VncStep::ReadExact(1) && s2.phase is ReadMessageType
        }),
{
    let n = from_be16(header[1], header[2]);
    crate::wire::lemma_from_be16_bound(header[1], header[2]);
    let s1 = after_read(s, true, header).0;
    lemma_encodings_drain(s1, n as u16, reads);
}

proof fn lemma_cut_text_drain(s: VncSession, k: u32, reads: Seq<(bool, Seq<u8>)>)
    requires
        s.phase == (VncPhase::ReadCutText { bytes_left: k }),
        1 <= reads.len() <= k,
    ensures
        after_reads(s, reads) == if reads.len() < k {
            (VncSession { phase: VncPhase::ReadCutText { bytes_left: (k - reads.len()) as u32 }, ..s }, VncStep::ReadExact(1))
        } else {
            (VncSession { phase: VncPhase::ReadMessageType, ..s }, VncStep::ReadExact(1))
        },
    decreases reads.len(),
{
    if reads.len() > 1 {
        let s1 = after_read(s, reads[0].0, reads[0].1).0;
        assert(s1 == VncSession { phase: VncPhase::ReadCutText { bytes_left: (k - 1) as u32 }, ..s });
        lemma_cut_text_drain(s1, (k - 1) as u32, reads.drop_first());
    }
}

/// A ClientCutText message announcing `len >= 1` bytes of text is followed
/// by exactly `len` one-byte reads before the session reads the next
/// message type.
pub proof fn lemma_cut_text_drained(s: VncSession, header: Seq<u8>, reads: Seq<(bool, Seq<u8>)>)
    requires
        s.phase == VncPhase::ReadCutTextHeader,
        header.len() == 7,
        from_be32(header[3], header[4], header[5], header[6]) >= 1,
        1 <= reads.len() <= from_be32(header[3], header[4], header[5], header[6]),
    ensures
        ({
            let len = from_be32(header[3], header[4], header[5], header[6]);
            let (s1, step1) = after_read(s, true, header);
            let (s2, step2) = after_reads(s1, reads);
            &&& step1 == VncStep::ReadExact(1)
            &&& s2.bpp == s.bpp
            &&& reads.len() < len ==> step2 == VncStep::ReadExact(1) && s2.phase is ReadCutText
            &&& reads.len() == len ==> step2 == VncStep::ReadExact(1) && s2.phase is ReadMessageType
        }),
{
    let len = from_be32(header[3], header[4], header[5], header[6]);
    crate::wire::lemma_from_be32_bound(header[3], header[4], header[5], header[6]);
    let s1 = after_read(s, true, header).0;
    lemma_cut_text_drain(s1, len as u32, reads);
}

/// Session and step after `m` completed writes from `s`.
pub open spec fn after_writes(s: VncSession, m: nat) -> (VncSession, VncStep)
    decreases m,
{
    if m == 0 {
        (s, VncStep::Close)
    } else if m == 1 {
        after_write(s)
    } else {
        after_writes(after_write(s).0, (m - 1) as nat)
    }
}

proof fn lemma_rows_drain(s: VncSession, rect: Rect, row: u16, j: nat)
    requires
        s.phase == (VncPhase::SendRow { rect, row }),
        row < rect.height,
        1 <= j <= rect.height - row,
    ensures
        after_writes(s, j) == if row + j < rect.height {
            (
                VncSession { phase: VncPhase::SendRow { rect, row: (row + j) as u16 }, ..s },
                VncStep::Write(session_row(rect, (row + j) as u16, s.bpp)),
            )
        } else {
            (VncSession { phase: VncPhase::ReadMessageType, ..s }, VncStep::ReadExact(1))
        },
    decreases j,
{
    if j > 1 {
        let s1 = after_write(s).0;
        assert(s1 == VncSession { phase: VncPhase::SendRow { rect, row: (row + 1) as u16 }, ..s });
        lemma_rows_drain(s1, rect, (row + 1) as u16, (j - 1) as nat);
    }
}

/// A framebuffer update is answered by its header and then exactly one
/// write per row of the rectangle, rows in order from the top, each row the
/// gradient pixels of that screen line in the session's pixel format; after
/// the last row the session reads the next message type.
pub proof fn lemma_update_rows(s: VncSession, rect: Rect, m: nat)
    requires
        s.phase == (VncPhase::SendUpdateHeader { rect }),
        session_wf(s),
        1 <= m <= rect.height + 1,
    ensures
        m <= rect.height ==> after_writes(s, m) == (
            VncSession { phase: VncPhase::SendRow { rect, row: (m - 1) as u16 }, ..s },
            VncStep::Write(row_bytes(rect.x, (rect.y + m - 1) as u16, rect.width as nat, bytes_per_pixel(s.bpp))),
        ),
        m == rect.height + 1 ==> after_writes(s, m) == (VncSession { phase: VncPhase::ReadMessageType, ..s }, VncStep::ReadExact(1)),
{
    let s1 = after_write(s).0;
    if m > 1 {
        lemma_rows_drain(s1, rect, 0, (m - 1) as nat);
    }
}

/// SetPixelFormat takes the bits per pixel from the first byte of the pixel
/// format (byte 3 of the message payload); the depth and the other fields
/// do not change it.
pub proof fn lemma_pixel_format_bits(s: VncSession, data: Seq<u8>)
    requires
        s.phase == VncPhase::ReadPixelFormat,
        data.len() == 19,
    ensures
        after_read(s, true, data).0.bpp == data[3],
        after_read(s, true, data).0.phase is ReadMessageType,
        after_read(s, false, data).0.phase is Closed,
{
}

/// An update request is clamped to the screen: the rectangle answered lies
/// inside the 200x200 framebuffer, and a requested rectangle that already
/// lies inside it is answered as requested.
pub proof fn lemma_clamp_request(p: Seq<u8>)
    requires
        p.len() == 9,
    ensures
        ({
            let r = clamp_request(p);
            let (x, y, w, h) = (from_be16(p[1], p[2]), from_be16(p[3], p[4]), from_be16(p[5], p[6]), from_be16(p[7], p[8]));
            &&& r.x + r.width <= SCREEN_WIDTH
            &&& r.y + r.height <= SCREEN_HEIGHT
            &&& r.width <= w && r.height <= h
            &&& x + w <= SCREEN_WIDTH && y + h <= SCREEN_HEIGHT ==> r.x == x && r.y == y && r.width == w
                && r.height == h
        }),
{
    crate::wire::lemma_from_be16_bound(p[1], p[2]);
    crate::wire::lemma_from_be16_bound(p[3], p[4]);
    crate::wire::lemma_from_be16_bound(p[5], p[6]);
    crate::wire::lemma_from_be16_bound(p[7], p[8]);
}

/// The handshake and message dispatch: the server answers the client's
/// version with the single security type "None", accepts only that type,
/// answers ClientInit with its ServerInit, and after each message type reads
/// exactly that message's fixed-size payload (SetPixelFormat 19 bytes,
/// SetEncodings header 3, FramebufferUpdateRequest 9, KeyEvent 7,
/// PointerEvent 5, ClientCutText header 7); any other type, or a failed
/// read of the type, ends the session.
pub proof fn lemma_handshake_and_dispatch(s: VncSession, data: Seq<u8>)
    requires
        data.len() >= 1,
    ensures
        s.phase is ReadVersion ==> after_read(s, true, data).1 == VncStep::Write(seq![1u8, 1u8]),
        s.phase is ReadSecurityType ==> (after_read(s, true, data).1 == if data[0] == 1 {
            VncStep::Write(seq![0u8, 0, 0, 0])
        } else {
            VncStep::Close
        }),
        s.phase is ReadClientInit ==> after_read(s, true, data).1 == VncStep::Write(server_init()),
        s.phase is ReadMessageType ==> {
            let t = data[0];
            &&& after_read(s, false, data).1 == VncStep::Close
            &&& after_read(s, true, data).1 == if t == 0 {
                VncStep::ReadExact(19)
            } else if t == 2 {
                VncStep::ReadExact(3)
            } else if t == 3 {
                VncStep::ReadExact(9)
            } else if t == 4 {
                VncStep::ReadExact(7)
            } else if t == 5 {
                VncStep::ReadExact(5)
            } else if t == 6 {
                VncStep::ReadExact(7)
            } else {
                VncStep::Close
            }
        },
{
}

/// Number of bytes a read phase waits for (0 for other phases).
pub open spec fn read_len(p: VncPhase) -> nat {
    match p {
        VncPhase::ReadVersion => 12,
        VncPhase::ReadSecurityType => 1,
        VncPhase::ReadClientInit => 1,
        VncPhase::ReadMessageType => 1,
        VncPhase::ReadPixelFormat => 19,
        VncPhase::ReadEncodingsHeader => 3,
        VncPhase::ReadEncoding { .. } => 4,
        VncPhase::ReadUpdateRequest => 9,
        VncPhase::ReadKeyEvent => 7,
        VncPhase::ReadPointerEvent => 5,
        VncPhase::ReadCutTextHeader => 7,
        VncPhase::ReadCutText { .. } => 1,
        _ => 0,
    }
}

/// Whether the session waits for a write to complete.
pub open spec fn is_write_phase(p: VncPhase) -> bool {
    match p {
        VncPhase::SendVersion | VncPhase::SendSecurityTypes | VncPhase::SendSecurityResult
        | VncPhase::SendServerInit | VncPhase::SendUpdateHeader { .. } | VncPhase::SendRow { .. } => true,
        _ => false,
    }
}

/// Session invariant: pending rows lie inside their rectangle, which lies
/// inside the screen, and fit the line buffer.
pub open spec fn session_wf(s: VncSession) -> bool {
    match s.phase {
        VncPhase::SendUpdateHeader { rect } => rect_wf(rect) && row_fits(rect.width, s.bpp),
        VncPhase::SendRow { rect, row } => rect_wf(rect) && row_fits(rect.width, s.bpp) && row < rect.height,
        _ => true,
    }
}

/// A non-empty rectangle inside the screen.
pub open spec fn rect_wf(r: Rect) -> bool {
    &&& r.width > 0 && r.height > 0
    &&& r.x + r.width <= SCREEN_WIDTH
    &&& r.y + r.height <= SCREEN_HEIGHT
}

proof fn lemma_pixel_index(x: int, bpp: int, k: int)
    requires
        x >= 0,
        bpp >= 1,
        0 <= k < bpp,
    ensures
        (x * bpp + k) / bpp == x,
        (x * bpp + k) % bpp == k,
{
    assert((x * bpp + k) / bpp == x) by (nonlinear_arith)
        requires x >= 0, bpp >= 1, 0 <= k < bpp;
    assert((x * bpp + k) % bpp == k) by (nonlinear_arith)
        requires x >= 0, bpp >= 1, 0 <= k < bpp;
}

/// Bytes per pixel for a client bit depth (at least one).
pub fn pixel_size(bits: u8) -> (r: usize)
    ensures
        r == bytes_per_pixel(bits),
        1 <= r <= 31,
{
    let b = (bits / 8) as usize;
    if b == 0 { 1 } else { b }
}

/// Encodes row `row` of `rect` with `bits` bits per pixel.
pub fn encode_row(rect: Rect, row: u16, bits: u8) -> (r: Vec<u8>)
    requires
        rect_wf(rect),
        row < rect.height,
        row_fits(rect.width, bits),
    ensures
        r@ == session_row(rect, row, bits),
{
    let bpp = pixel_size(bits);
    let y = rect.y + row;
    let width = rect.width as usize;
    let mut line = [0u8; LINE_CAPACITY];
    let mut x: usize = 0;
    let ghost target = session_row(rect, row, bits);
    while x < width
        invariant
            rect_wf(rect),
            width == rect.width,
            bpp == bytes_per_pixel(bits),
            1 <= bpp <= 31,
            width * bpp <= LINE_CAPACITY,
            y == rect.y + row,
            target == session_row(rect, row, bits),
            target.len() == width * bpp,
            x <= width,
            forall|j: int| 0 <= j < x * bpp ==> line@[j] == target[j],
            forall|j: int| x * bpp <= j < LINE_CAPACITY ==> line@[j] == 0u8,
        decreases width - x,
    {
        let px = (rect.x as usize + x) as u16;
        let p = generate_gradient_pixel(px, y);
        assert(x * bpp + bpp <= width * bpp) by (nonlinear_arith)
            requires x < width, bpp >= 1;
        let i = x * bpp;
        if bpp == 4 {
            line[i] = p[2];
            line[i + 1] = p[1];
            line[i + 2] = p[0];
            line[i + 3] = 0;
        } else if bpp == 2 {
            let v: u32 = (p[0] as u32 / 8) * 2048 + (p[1] as u32 / 4) * 32 + p[2] as u32 / 8;
            line[i] = (v % 256) as u8;
            line[i + 1] = (v / 256) as u8;
        } else {
            line[i] = p[1];
        }
        proof {
            assert((x + 1) * bpp == x * bpp + bpp) by (nonlinear_arith);
            assert forall|j: int| 0 <= j < (x + 1) * bpp implies line@[j] == target[j] by {
                if j >= x * bpp {
                    let k = j - x * bpp;
                    lemma_pixel_index(x as int, bpp as int, k);
                    assert(target[j] == pixel_byte((rect.x + j / bpp as int) as u16, y, bpp as int, j % bpp as int));
                }
            }
            assert forall|j: int| (x + 1) * bpp <= j < LINE_CAPACITY implies line@[j] == 0u8 by {
                assert((x + 1) * bpp == x * bpp + bpp) by (nonlinear_arith);
            }
        }
        x = x + 1;
    }
    let n = width * bpp;
    let r = slice_to_vec(&line[0..n]);
    assert(r@ =~= target);
    r
}

/// Builds the ServerInit message.
pub fn server_init_message() -> (r: Vec<u8>)
    ensures
        r@ == server_init(),
{
    let mut v: Vec<u8> = Vec::new();
    extend_bytes(&mut v, &u16_to_be_bytes(SCREEN_WIDTH));
    extend_bytes(&mut v, &u16_to_be_bytes(SCREEN_HEIGHT));
    extend_bytes(&mut v, &[32u8, 24, 0, 1]);
    extend_bytes(&mut v, &u16_to_be_bytes(255));
    extend_bytes(&mut v, &u16_to_be_bytes(255));
    extend_bytes(&mut v, &u16_to_be_bytes(255));
    extend_bytes(&mut v, &[16u8, 8, 0, 0, 0, 0]);
    extend_bytes(&mut v, &u32_to_be_bytes(8));
    proof {
        reveal_strlit("STM32VNC");
    }
    extend_bytes(&mut v, ascii_bytes("STM32VNC"));
    assert(v@ =~= server_init());
    v
}

/// Builds the header of a framebuffer update with one raw rectangle.
pub fn update_header(rect: Rect) -> (r: Vec<u8>)
    ensures
        r@ == fb_update_header(rect.x, rect.y, rect.width, rect.height),
{
    let mut v: Vec<u8> = Vec::new();
    extend_bytes(&mut v, &[0u8, 0u8]);
    extend_bytes(&mut v, &u16_to_be_bytes(1));
    extend_bytes(&mut v, &u16_to_be_bytes(rect.x));
    extend_bytes(&mut v, &u16_to_be_bytes(rect.y));
    extend_bytes(&mut v, &u16_to_be_bytes(rect.width));
    extend_bytes(&mut v, &u16_to_be_bytes(rect.height));
    extend_bytes(&mut v, &[0u8, 0, 0, 0]);
    assert(v@ =~= fb_update_header(rect.x, rect.y, rect.width, rect.height));
    v
}

/// Clamps the rectangle of a FramebufferUpdateRequest payload to the screen.
pub fn clamp_update_request(p: &[u8]) -> (r: Rect)
    requires
        p@.len() == 9,
    ensures
        r == clamp_request(p@),
{
    let req_x = u16_from_be_bytes(p[1], p[2]);
    let req_y = u16_from_be_bytes(p[3], p[4]);
    let req_w = u16_from_be_bytes(p[5], p[6]);
    let req_h = u16_from_be_bytes(p[7], p[8]);
    let start_x = if req_x < SCREEN_WIDTH { req_x } else { SCREEN_WIDTH };
    let start_y = if req_y < SCREEN_HEIGHT { req_y } else { SCREEN_HEIGHT };
    let wmax = SCREEN_WIDTH - start_x;
    let hmax = SCREEN_HEIGHT - start_y;
    let width = if req_w < wmax { req_w } else { wmax };
    let height = if req_h < hmax { req_h } else { hmax };
    Rect { x: start_x, y: start_y, width, height }
}

fn width_fits(width: u16, bits: u8) -> (r: bool)
    ensures
        r == row_fits(width, bits),
{
    let bpp = pixel_size(bits);
    assert(width * bpp <= 65535 * 31) by (nonlinear_arith)
        requires width <= 65535, bpp <= 31;
    (width as usize) * bpp <= LINE_CAPACITY
}

impl VncSession {
    /// Starts a session: the server speaks first with its protocol version.
    pub fn new() -> (r: (VncSession, VncAction))
        ensures
            r.0.phase == VncPhase::SendVersion,
            r.0.bpp == 32,
            session_wf(r.0),
            step_of(&r.1) == VncStep::Write(protocol_version()),
    {
        proof {
            reveal_strlit("RFB 003.008\n");
        }
        let mut v: Vec<u8> = Vec::new();
        extend_bytes(&mut v, ascii_bytes("RFB 003.008\n"));
        (VncSession { phase: VncPhase::SendVersion, bpp: 32 }, VncAction::Write(v))
    }

    /// Whether the row the session is about to send fits the line buffer;
    /// it always does in a well-formed session.
    pub fn next_row_fits(&self) -> (r: bool)
        ensures
            session_wf(*self) ==> r,
            r == match self.phase {
                VncPhase::SendUpdateHeader { rect } => row_fits(rect.width, self.bpp),
                VncPhase::SendRow { rect, .. } => row_fits(rect.width, self.bpp),
                _ => true,
            },
    {
        match self.phase {
            VncPhase::SendUpdateHeader { rect } => width_fits(rect.width, self.bpp),
            VncPhase::SendRow { rect, .. } => width_fits(rect.width, self.bpp),
            _ => true,
        }
    }

    /// Advances the session after its pending write (errors are ignored).
    pub fn on_written(self) -> (r: (VncSession, VncAction))
        requires
            session_wf(self),
            is_write_phase(self.phase),
        ensures
            session_wf(r.0),
            (r.0, step_of(&r.1)) == after_write(self),
    {
        match self.phase {
            VncPhase::SendVersion => (VncSession { phase: VncPhase::ReadVersion, ..self }, VncAction::ReadExact(12)),
            VncPhase::SendSecurityTypes => (
                VncSession { phase: VncPhase::ReadSecurityType, ..self },
                VncAction::ReadExact(1),
            ),
            VncPhase::SendSecurityResult => (
                VncSession { phase: VncPhase::ReadClientInit, ..self },
                VncAction::ReadExact(1),
            ),
            VncPhase::SendServerInit => (
                VncSession { phase: VncPhase::ReadMessageType, ..self },
                VncAction::ReadExact(1),
            ),
            VncPhase::SendUpdateHeader { rect } => {
                let line = encode_row(rect, 0, self.bpp);
                (VncSession { phase: VncPhase::SendRow { rect, row: 0 }, ..self }, VncAction::Write(line))
            },
            VncPhase::SendRow { rect, row } => {
                if row + 1 < rect.height {
                    let line = encode_row(rect, row + 1, self.bpp);
                    (VncSession { phase: VncPhase::SendRow { rect, row: row + 1 }, ..self }, VncAction::Write(line))
                } else {
                    (VncSession { phase: VncPhase::ReadMessageType, ..self }, VncAction::ReadExact(1))
                }
            },
            _ => (VncSession { phase: VncPhase::Closed, ..self }, VncAction::Close),
        }
    }

    /// Advances the session after its pending exact read; `ok` tells whether
    /// the read succeeded and `data` is the zero-initialised read buffer as
    /// the read left it.
    pub fn on_read(self, ok: bool, data: &[u8]) -> (r: (VncSession, VncAction))
        requires
            session_wf(self),
            read_len(self.phase) > 0,
            data@.len() == read_len(self.phase),
        ensures
            session_wf(r.0),
            (r.0, step_of(&r.1)) == after_read(self, ok, data@),
    {
        let closed = VncSession { phase: VncPhase::Closed, ..self };
        let next_msg = VncSession { phase: VncPhase::ReadMessageType, ..self };
        match self.phase {
            VncPhase::ReadVersion => {
                let mut v: Vec<u8> = Vec::new();
                v.push(1);
                v.push(1);
                assert(v@ =~= seq![1u8, 1u8]);
                (VncSession { phase: VncPhase::SendSecurityTypes, ..self }, VncAction::Write(v))
            },
            VncPhase::ReadSecurityType => {
                if data[0] != 1 {
                    (closed, VncAction::Close)
                } else {
                    let mut v: Vec<u8> = Vec::new();
                    extend_bytes(&mut v, &[0u8, 0, 0, 0]);
                    assert(v@ =~= seq![0u8, 0, 0, 0]);
                    (VncSession { phase: VncPhase::SendSecurityResult, ..self }, VncAction::Write(v))
                }
            },
            VncPhase::ReadClientInit => (
                VncSession { phase: VncPhase::SendServerInit, ..self },
                VncAction::Write(server_init_message()),
            ),
            VncPhase::ReadMessageType => {
                if !ok {
                    (closed, VncAction::Close)
                } else if data[0] == 0 {
                    (VncSession { phase: VncPhase::ReadPixelFormat, ..self }, VncAction::ReadExact(19))
                } else if data[0] == 2 {
                    (VncSession { phase: VncPhase::ReadEncodingsHeader, ..self }, VncAction::ReadExact(3))
                } else if data[0] == 3 {
                    (VncSession { phase: VncPhase::ReadUpdateRequest, ..self }, VncAction::ReadExact(9))
                } else if data[0] == 4 {
                    (VncSession { phase: VncPhase::ReadKeyEvent, ..self }, VncAction::ReadExact(7))
                } else if data[0] == 5 {
                    (VncSession { phase: VncPhase::ReadPointerEvent, ..self }, VncAction::ReadExact(5))
                } else if data[0] == 6 {
                    (VncSession { phase: VncPhase::ReadCutTextHeader, ..self }, VncAction::ReadExact(7))
                } else {
                    (closed, VncAction::Close)
                }
            },
            VncPhase::ReadPixelFormat => {
                if !ok {
                    (closed, VncAction::Close)
                } else {
                    (VncSession { phase: VncPhase::ReadMessageType, bpp: data[3] }, VncAction::ReadExact(1))
                }
            },
            VncPhase::ReadEncodingsHeader => {
                if !ok {
                    (closed, VncAction::Close)
                } else {
                    let n = u16_from_be_bytes(data[1], data[2]);
                    if n == 0 {
                        (next_msg, VncAction::ReadExact(1))
                    } else {
                        (VncSession { phase: VncPhase::ReadEncoding { encodings_left: n }, ..self }, VncAction::ReadExact(4))
                    }
                }
            },
            VncPhase::ReadEncoding { encodings_left } => {
                if encodings_left > 1 {
                    (
                        VncSession { phase: VncPhase::ReadEncoding { encodings_left: encodings_left - 1 }, ..self },
                        VncAction::ReadExact(4),
                    )
                } else {
                    (next_msg, VncAction::ReadExact(1))
                }
            },
            VncPhase::ReadUpdateRequest => {
                if !ok {
                    (closed, VncAction::Close)
                } else {
                    let rect = clamp_update_request(data);
                    if rect.width == 0 || rect.height == 0 {
                        (next_msg, VncAction::ReadExact(1))
                    } else if !width_fits(rect.width, self.bpp) {
                        (closed, VncAction::Close)
                    } else {
                        (VncSession { phase: VncPhase::SendUpdateHeader { rect }, ..self }, VncAction::Write(update_header(rect)))
                    }
                }
            },
            VncPhase::ReadKeyEvent => {
                if !ok {
                    (closed, VncAction::Close)
                } else {
                    (next_msg, VncAction::ReadExact(1))
                }
            },
            VncPhase::ReadPointerEvent => {
                if !ok {
                    (closed, VncAction::Close)
                } else {
                    (next_msg, VncAction::ReadExact(1))
                }
            },
            VncPhase::ReadCutTextHeader => {
                let len = u32_from_be_bytes(data[3], data[4], data[5], data[6]);
                if len == 0 {
                    (next_msg, VncAction::ReadExact(1))
                } else {
                    (VncSession { phase: VncPhase::ReadCutText { bytes_left: len }, ..self }, VncAction::ReadExact(1))
                }
            },
            VncPhase::ReadCutText { bytes_left } => {
                if bytes_left > 1 {
                    (VncSession { phase: VncPhase::ReadCutText { bytes_left: bytes_left - 1 }, ..self }, VncAction::ReadExact(1))
                } else {
                    (next_msg, VncAction::ReadExact(1))
                }
            },
            _ => (closed, VncAction::Close),
        }
    }
}

} // verus!
