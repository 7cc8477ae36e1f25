//! Event packets written by CPU2 for CPU1, and the handle that owns one
//! while CPU1 reads it.

use vstd::prelude::*;
use super::{PacketHeader, SharedMemory};
use super::wire::{copy_range, from_le16, push_all, read_u16};

verus! {

/// The payload of `Evt` for a command status event.
#[derive(Debug, Copy, Clone, PartialEq, Eq, Structural)]
pub struct CsEvt {
    pub status: u8,
    pub num_cmd: u8,
    pub cmd_code: u16,
}

impl CsEvt {
    /// Reads a command status from the start of an event payload.
    pub fn from_payload(p: &Vec<u8>) -> (r: CsEvt)
        requires
            p@.len() >= 4,
        ensures
            r.status == p@[0],
            r.num_cmd == p@[1],
            r.cmd_code == from_le16(p@[2], p@[3]),
    {
        CsEvt { status: p[0], num_cmd: p[1], cmd_code: read_u16(p[2], p[3]) }
    }
}

/// The payload of `Evt` for a command complete event.
#[derive(Debug, Clone, PartialEq, Eq)]
pub struct CcEvt {
    pub num_cmd: u8,
    pub cmd_code: u16,
    pub payload: Vec<u8>,
}

impl CcEvt {
    /// Reads a command complete event from an event payload: count (1 byte),
    /// command code (2), return parameters (the rest).
    pub fn from_payload(p: &Vec<u8>) -> (r: CcEvt)
        requires
            p@.len() >= 3,
        ensures
            r.num_cmd == p@[0],
            r.cmd_code == from_le16(p@[1], p@[2]),
            r.payload@ == p@.subrange(3, p@.len() as int),
    {
        let rest = copy_range(p, 3, p.len() - 3);
        CcEvt { num_cmd: p[0], cmd_code: read_u16(p[1], p[2]), payload: rest }
    }
}

/// The payload of `Evt` for an asynchronous (vendor) event.
#[derive(Debug, Clone, PartialEq, Eq)]
pub struct AsynchEvt {
    pub sub_evt_code: u16,
    pub payload: Vec<u8>,
}

impl AsynchEvt {
    /// Reads an asynchronous event from an event payload: sub-event code
    /// (2 bytes), then its own payload.
    pub fn from_payload(p: &Vec<u8>) -> (r: AsynchEvt)
        requires
            p@.len() >= 2,
        ensures
            r.sub_evt_code == from_le16(p@[0], p@[1]),
            r.payload@ == p@.subrange(2, p@.len() as int),
    {
        let rest = copy_range(p, 2, p.len() - 2);
        AsynchEvt { sub_evt_code: read_u16(p[0], p[1]), payload: rest }
    }
}

/// An event: code, payload length and the `payload_len` payload bytes.
#[derive(Debug, Clone, PartialEq, Eq)]
pub struct Evt {
    pub evt_code: u8,
    pub payload_len: u8,
    pub payload: Vec<u8>,
}

/// An event behind its packet type tag.
#[derive(Debug, Clone, PartialEq, Eq)]
pub struct EvtSerial {
    pub kind: u8,
    pub evt: Evt,
}

/// Bytes after the link header at which an event's payload starts: tag,
/// event code, payload length.
pub const TL_EVT_HEADER_SIZE: usize = 3;

impl EvtSerial {
    /// Layout: tag (1 byte), code (1), payload length (1), payload.
    pub open spec fn spec_bytes(&self) -> Seq<u8> {
        seq![self.kind, self.evt.evt_code, self.evt.payload_len] + self.evt.payload@
    }

    /// The fields a well-formed event has: as many payload bytes as its
    /// length byte says.
    pub open spec fn spec_decoded_from(&self, b: Seq<u8>) -> bool {
        &&& b.len() >= TL_EVT_HEADER_SIZE + 255
        &&& self.kind == b[0]
        &&& self.evt.evt_code == b[1]
        &&& self.evt.payload_len == b[2]
        &&& self.evt.payload@ == b.subrange(3, 3 + b[2])
    }

    /// Reads an event from the bytes after a link header.
    pub fn from_bytes(b: &Vec<u8>) -> (r: EvtSerial)
        requires
            b@.len() >= TL_EVT_HEADER_SIZE + 255,
        ensures
            r.spec_decoded_from(b@),
    {
        let len = b[2];
        let payload = copy_range(b, 3, len as usize);
        EvtSerial { kind: b[0], evt: Evt { evt_code: b[1], payload_len: len, payload } }
    }

    /// The packed bytes of the tagged event.
    pub fn to_bytes(&self) -> (r: Vec<u8>)
        ensures
            r@ == self.spec_bytes(),
    {
        let mut out: Vec<u8> = Vec::new();
        out.push(self.kind);
        out.push(self.evt.evt_code);
        out.push(self.evt.payload_len);
        push_all(&mut out, self.evt.payload.as_slice());
        assert(out@ =~= self.spec_bytes());
        out
    }
}

/// This format is used for all events (asynchronous and command response)
/// reported by CPU2, except for the response to a system command, which
/// carries no link header and uses `EvtSerial` alone.
#[derive(Debug, Clone, PartialEq, Eq)]
pub struct EvtPacket {
    pub header: PacketHeader,
    pub evt_serial: EvtSerial,
}

impl EvtPacket {
    /// Layout: link header (8 bytes), then the tagged event.
    pub open spec fn spec_bytes(&self) -> Seq<u8> {
        self.header.spec_bytes() + self.evt_serial.spec_bytes()
    }

    /// The packed bytes of the whole packet.
    pub fn to_bytes(&self) -> (r: Vec<u8>)
        ensures
            r@ == self.spec_bytes(),
    {
        let mut out = self.header.to_bytes();
        let s = self.evt_serial.to_bytes();
        push_all(&mut out, s.as_slice());
        out
    }

    pub fn kind(&self) -> (r: u8)
        ensures
            r == self.evt_serial.kind,
    {
        self.evt_serial.kind
    }

    pub fn evt(&self) -> (r: &Evt)
        ensures
            *r == self.evt_serial.evt,
    {
        &self.evt_serial.evt
    }
}

/// Owns one event buffer that CPU1 took off an event queue, until it is
/// handed back with `mm::evt_drop`. Only the mailbox makes one, and it can
/// be neither copied nor cloned, so each buffer is handed back at most once.
#[derive(Debug)]
pub struct EvtBox {
    ptr: u32,
}

impl EvtBox {
    /// The shared-memory slot of the buffer.
    pub closed spec fn slot(&self) -> u32 {
        self.ptr
    }

    pub(crate) fn new(ptr: u32) -> (r: EvtBox)
        ensures
            r.slot() == ptr,
    {
        EvtBox { ptr }
    }

    /// The shared-memory slot of the buffer.
    pub fn slot_number(&self) -> (r: u32)
        ensures
            r == self.slot(),
    {
        self.ptr
    }

    /// Copies the event out of shared memory. Nothing in shared memory
    /// changes, however often this is called.
    pub fn evt(&self, shm: &SharedMemory) -> (r: EvtPacket)
        requires
            shm.wf(),
            shm.in_flight().contains(self.slot()),
        ensures
            r.header == shm.header_of(self.slot()),
            r.evt_serial.spec_decoded_from(shm.slot_bytes(self.slot())),
    {
        let header = shm.read_header(self.ptr);
        let bytes = shm.read_slot(self.ptr);
        let evt_serial = EvtSerial::from_bytes(&bytes);
        EvtPacket { header, evt_serial }
    }
}

/// Every event packet has its tag at byte 8, the event code at 9, the
/// payload length at 10 and the payload from byte 11 on.
pub proof fn lemma_evt_packet_layout(p: EvtPacket)
    ensures
        p.spec_bytes().len() == 11 + p.evt_serial.evt.payload@.len(),
        p.spec_bytes()[8] == p.evt_serial.kind,
        p.spec_bytes()[9] == p.evt_serial.evt.evt_code,
        p.spec_bytes()[10] == p.evt_serial.evt.payload_len,
        p.spec_bytes().subrange(11, p.spec_bytes().len() as int) == p.evt_serial.evt.payload@,
{
    assert(p.spec_bytes().subrange(11, p.spec_bytes().len() as int) =~= p.evt_serial.evt.payload@);
}

} // verus!
