//! Decisions of the USB Mass Storage Class device.
//!
//! The device follows the Bulk-Only Transport profile (class 0x08, subclass
//! 0x06, protocol 0x50) with exactly one logical unit. The host sends Command
//! Block Wrappers on bulk OUT, receives command data and the Command Status
//! Wrapper on bulk IN. Full-speed bulk endpoints carry at most 64 bytes per
//! transaction, so larger payloads are sent in 64-byte chunks.

use vstd::prelude::*;

verus! {

/// Maximum packet size of the full-speed bulk endpoints.
pub const MAX_PACKET_SIZE: usize = 64;

/// Length of a Command Block Wrapper packet.
pub const CBW_LEN: usize = 31;

/// Errors reported by a USB endpoint.
#[derive(Debug, Clone, Copy, PartialEq, Eq, Structural)]
pub enum EndpointError {
    /// The packet did not fit the buffer.
    BufferOverflow,
    /// The endpoint is disabled (bus reset, cable unplugged, not configured).
    Disabled,
}

/// Failure to send a payload to the host.
#[derive(Debug, Clone, Copy)]
pub struct SendToHostError {
    /// Bytes that were still unsent when the endpoint failed.
    pub residue: u32,
    /// Endpoint error that stopped the transfer.
    pub usb_error: EndpointError,
}

/// Outcome of reading a CBW from the bulk OUT endpoint: `received` is what
/// the endpoint returned, or `None` when the device has no OUT endpoint.
/// Short packets are dropped because a valid CBW is exactly 31 bytes.
pub fn cbw_read_result(received: Option<Result<usize, EndpointError>>) -> (r: Result<(), EndpointError>)
    ensures
        r == match received {
            None => Err(EndpointError::Disabled),
            Some(Err(e)) => Err(e),
            Some(Ok(n)) => if n < CBW_LEN { Err(EndpointError::Disabled) } else { Ok(()) },
        },
{
    match received {
        None => Err(EndpointError::Disabled),
        Some(Err(e)) => Err(e),
        Some(Ok(n)) => {
            if n < CBW_LEN {
                Err(EndpointError::Disabled)
            } else {
                Ok(())
            }
        },
    }
}

/// Next step of a bulk IN transfer.
#[derive(Debug, Clone, Copy)]
pub enum BulkInAction {
    /// Write bytes `start..end` of the payload to the endpoint.
    SendChunk { start: usize, end: usize },
    /// The transfer is over with this result.
    Done(Result<(), SendToHostError>),
}

/// A payload being written to the bulk IN endpoint in packet-sized chunks.
pub struct BulkInWrite {
    /// Payload length.
    pub len: usize,
    /// Bytes acknowledged by the endpoint so far.
    pub offset: usize,
}

/// Action after `offset` of `len` bytes have been acknowledged.
pub open spec fn bulk_in_next(len: usize, offset: usize) -> BulkInAction {
    if offset < len {
        let size = if len - offset < 64 { len - offset } else { 64int };
        BulkInAction::SendChunk { start: offset, end: (offset + size) as usize }
    } else {
        BulkInAction::Done(Ok(()))
    }
}

impl BulkInWrite {
    /// Transfer state invariant.
    pub open spec fn wf(&self) -> bool {
        self.offset <= self.len
    }

    /// Starts writing a payload of `len` bytes; `endpoint_available` tells
    /// whether the device owns an IN endpoint.
    pub fn start(len: usize, endpoint_available: bool) -> (r: (BulkInWrite, BulkInAction))
        ensures
            r.0.wf(),
            r.0.len == len,
            r.0.offset == 0,
            endpoint_available ==> r.1 == bulk_in_next(len, 0),
            !endpoint_available ==> r.1 == BulkInAction::Done(
                Err(SendToHostError { residue: len as u32, usb_error: EndpointError::Disabled }),
            ),
    {
        let w = BulkInWrite { len, offset: 0 };
        if !endpoint_available {
            return (w, BulkInAction::Done(Err(SendToHostError { residue: len as u32, usb_error: EndpointError::Disabled })));
        }
        let a = w.next();
        (w, a)
    }

    fn next(&self) -> (r: BulkInAction)
        requires
            self.wf(),
        ensures
            r == bulk_in_next(self.len, self.offset),
    {
        if self.offset < self.len {
            let rest = self.len - self.offset;
            let size = if rest < MAX_PACKET_SIZE { rest } else { MAX_PACKET_SIZE };
            BulkInAction::SendChunk { start: self.offset, end: self.offset + size }
        } else {
            BulkInAction::Done(Ok(()))
        }
    }

    /// Records the endpoint's answer to the chunk `start..end` that was sent.
    /// A failed chunk ends the transfer with the unsent byte count as residue.
    pub fn on_chunk(&mut self, start: usize, end: usize, result: Result<(), EndpointError>) -> (r: BulkInAction)
        requires
            old(self).wf(),
            bulk_in_next(old(self).len, old(self).offset) == (BulkInAction::SendChunk { start, end }),
        ensures
            final(self).wf(),
            final(self).len == old(self).len,
            match result {
                Ok(()) => final(self).offset == end && r == bulk_in_next(final(self).len, end),
                Err(e) => final(self).offset == old(self).offset && r == BulkInAction::Done(
                    Err(SendToHostError { residue: (old(self).len - old(self).offset) as u32, usb_error: e }),
                ),
            },
    {
        match result {
            Ok(()) => {
                self.offset = end;
                self.next()
            },
            Err(e) => {
                let residue = (self.len - self.offset) as u32;
                BulkInAction::Done(Err(SendToHostError { residue, usb_error: e }))
            },
        }
    }
}

/// Control request type field.
#[derive(Debug, Clone, Copy, PartialEq, Eq, Structural)]
pub enum RequestType {
    Standard,
    Class,
    Vendor,
    Reserved,
}

/// Control request recipient field.
#[derive(Debug, Clone, Copy, PartialEq, Eq, Structural)]
pub enum Recipient {
    Device,
    Interface,
    Endpoint,
    Other,
    Reserved,
}

/// A USB control request as received in the SETUP stage.
#[derive(Debug, Clone, Copy)]
pub struct ControlRequest {
    pub request_type: RequestType,
    pub recipient: Recipient,
    pub request: u8,
    pub value: u16,
    pub index: u16,
    pub length: u16,
}

/// Answer to a control OUT request.
#[derive(Debug, Clone, Copy, PartialEq, Eq, Structural)]
pub enum OutResponse {
    Accepted,
    Rejected,
}

/// Handles class-specific control requests for the MSC interface.
pub struct MscHandler {
    /// Interface number assigned by the USB builder.
    pub iface_num: u8,
}

/// Class request addressed to this interface with request code `code`.
pub open spec fn is_class_request(req: ControlRequest, iface_num: u8, code: u8) -> bool {
    &&& req.request_type == RequestType::Class
    &&& req.recipient == Recipient::Interface
    &&& req.request == code
    &&& req.index == iface_num as u16
}

/// GET_MAX_LUN request code.
pub const GET_MAX_LUN: u8 = 0xFE;
/// Bulk-Only Mass Storage Reset request code.
pub const BULK_ONLY_RESET: u8 = 0xFF;

impl MscHandler {
    /// Whether `req` is this interface's GET_MAX_LUN, which `control_in`
    /// answers in the first byte of its buffer.
    pub fn is_get_max_lun(&self, req: ControlRequest) -> (r: bool)
        ensures
            r == is_class_request(req, self.iface_num, GET_MAX_LUN),
    {
        req.request_type == RequestType::Class && req.recipient == Recipient::Interface
            && req.request == GET_MAX_LUN && req.index == self.iface_num as u16
    }

    /// Answers GET_MAX_LUN with a single byte 0 (one LUN, numbered 0): the
    /// result is the number of bytes of `buf` to send; other requests are
    /// not handled (`None`).
    pub fn control_in(&mut self, req: ControlRequest, buf: &mut [u8]) -> (r: Option<usize>)
        requires
            is_class_request(req, old(self).iface_num, GET_MAX_LUN) ==> old(buf)@.len() >= 1,
        ensures
            final(self).iface_num == old(self).iface_num,
            is_class_request(req, old(self).iface_num, GET_MAX_LUN) ==> r == Some(1usize)
                && final(buf)@ == old(buf)@.update(0, 0u8),
            !is_class_request(req, old(self).iface_num, GET_MAX_LUN) ==> r is None && final(buf)@
                == old(buf)@,
    {
        if req.request_type == RequestType::Class && req.recipient == Recipient::Interface
            && req.request == GET_MAX_LUN && req.index == self.iface_num as u16
        {
            buf[0] = 0x00;
            Some(1)
        } else {
            None
        }
    }

    /// Acknowledges the Bulk-Only Mass Storage Reset; the command loop keeps
    /// no state between CBWs, so nothing else needs to be cleared.
    pub fn control_out(&mut self, req: ControlRequest, _data: &[u8]) -> (r: Option<OutResponse>)
        ensures
            final(self).iface_num == old(self).iface_num,
            r == if is_class_request(req, old(self).iface_num, BULK_ONLY_RESET) {
                Some(OutResponse::Accepted)
            } else {
                None
            },
    {
        if req.request_type == RequestType::Class && req.recipient == Recipient::Interface
            && req.request == BULK_ONLY_RESET && req.index == self.iface_num as u16
        {
            Some(OutResponse::Accepted)
        } else {
            None
        }
    }
}

} // verus!
