//! Command packets written by CPU1 for CPU2.

use vstd::prelude::*;
use super::PacketHeader;
use super::wire::{le16, push_all, push_u16};

verus! {

/// Number of payload bytes a command carries room for.
pub const CMD_PAYLOAD_CAPACITY: usize = 255;

/// A command: code, meaningful payload length and the payload area.
#[derive(Copy, Clone)]
pub struct Cmd {
    pub cmd_code: u16,
    pub payload_len: u8,
    pub payload: [u8; 255],
}

impl Cmd {
    /// Layout: code (2 bytes), payload length (1 byte), payload area (255).
    pub open spec fn spec_bytes(&self) -> Seq<u8> {
        le16(self.cmd_code) + seq![self.payload_len] + self.payload@
    }

    /// The packed bytes of the command.
    pub fn to_bytes(&self) -> (r: Vec<u8>)
        ensures
            r@ == self.spec_bytes(),
    {
        let mut out: Vec<u8> = Vec::new();
        push_u16(&mut out, self.cmd_code);
        out.push(self.payload_len);
        push_all(&mut out, &self.payload);
        assert(out@ =~= self.spec_bytes());
        out
    }
}

/// A command behind its packet type tag.
#[derive(Copy, Clone)]
pub struct CmdSerial {
    pub ty: u8,
    pub cmd: Cmd,
}

impl CmdSerial {
    /// Layout: tag (1 byte), then the command.
    pub open spec fn spec_bytes(&self) -> Seq<u8> {
        seq![self.ty] + self.cmd.spec_bytes()
    }

    /// The packed bytes of the tagged command.
    pub fn to_bytes(&self) -> (r: Vec<u8>)
        ensures
            r@ == self.spec_bytes(),
            r@.len() == 259,
    {
        let mut out: Vec<u8> = Vec::new();
        out.push(self.ty);
        let c = self.cmd.to_bytes();
        push_all(&mut out, c.as_slice());
        assert(out@ =~= self.spec_bytes());
        out
    }
}

/// A command packet as it lies in shared memory.
#[derive(Copy, Clone)]
pub struct CmdPacket {
    pub header: PacketHeader,
    pub cmdserial: CmdSerial,
}

impl CmdPacket {
    /// Layout: link header (8 bytes), then the tagged command.
    pub open spec fn spec_bytes(&self) -> Seq<u8> {
        self.header.spec_bytes() + self.cmdserial.spec_bytes()
    }

    /// The packed bytes of the whole packet.
    pub fn to_bytes(&self) -> (r: Vec<u8>)
        ensures
            r@ == self.spec_bytes(),
            r@.len() == 267,
    {
        let mut out = self.header.to_bytes();
        let s = self.cmdserial.to_bytes();
        push_all(&mut out, s.as_slice());
        out
    }
}

/// HCI ACL data behind its packet type tag. `acl_data` holds the data bytes
/// (the packed layout ends in a flexible array).
#[derive(Clone)]
pub struct AclDataSerial {
    pub ty: u8,
    pub handle: u16,
    pub length: u16,
    pub acl_data: Vec<u8>,
}

impl AclDataSerial {
    /// Layout: tag (1 byte), handle (2), length (2), data.
    pub open spec fn spec_bytes(&self) -> Seq<u8> {
        seq![self.ty] + le16(self.handle) + le16(self.length) + self.acl_data@
    }

    /// The packed bytes of the tagged ACL data.
    pub fn to_bytes(&self) -> (r: Vec<u8>)
        ensures
            r@ == self.spec_bytes(),
    {
        let mut out: Vec<u8> = Vec::new();
        out.push(self.ty);
        push_u16(&mut out, self.handle);
        push_u16(&mut out, self.length);
        push_all(&mut out, self.acl_data.as_slice());
        assert(out@ =~= self.spec_bytes());
        out
    }
}

/// An ACL data packet as it lies in shared memory.
#[derive(Clone)]
pub struct AclDataPacket {
    pub header: PacketHeader,
    pub acl_data_serial: AclDataSerial,
}

impl AclDataPacket {
    /// Layout: link header (8 bytes), then the tagged ACL data.
    pub open spec fn spec_bytes(&self) -> Seq<u8> {
        self.header.spec_bytes() + self.acl_data_serial.spec_bytes()
    }

    /// The packed bytes of the whole packet.
    pub fn to_bytes(&self) -> (r: Vec<u8>)
        ensures
            r@ == self.spec_bytes(),
    {
        let mut out = self.header.to_bytes();
        let s = self.acl_data_serial.to_bytes();
        push_all(&mut out, s.as_slice());
        out
    }
}

/// Every command packet is 267 bytes: link header at 0..8, tag at 8,
/// command code at 9..11 (least significant byte first), payload length at
/// 11, payload area at 12..267.
pub proof fn lemma_cmd_packet_layout(p: CmdPacket)
    ensures
        p.spec_bytes().len() == 267,
        p.spec_bytes().subrange(0, 8) == p.header.spec_bytes(),
        p.spec_bytes()[8] == p.cmdserial.ty,
        p.spec_bytes().subrange(9, 11) == le16(p.cmdserial.cmd.cmd_code),
        p.spec_bytes()[11] == p.cmdserial.cmd.payload_len,
        p.spec_bytes().subrange(12, 267) == p.cmdserial.cmd.payload@,
{
    let b = p.spec_bytes();
    assert(b.subrange(0, 8) =~= p.header.spec_bytes());
    assert(b.subrange(9, 11) =~= le16(p.cmdserial.cmd.cmd_code));
    assert(b.subrange(12, 267) =~= p.cmdserial.cmd.payload@);
}

/// Every ACL data packet has its tag at byte 8, the connection handle at
/// 9..11, the data length at 11..13 and the data from byte 13 on.
pub proof fn lemma_acl_data_packet_layout(p: AclDataPacket)
    ensures
        p.spec_bytes().len() == 13 + p.acl_data_serial.acl_data@.len(),
        p.spec_bytes()[8] == p.acl_data_serial.ty,
        p.spec_bytes().subrange(9, 11) == le16(p.acl_data_serial.handle),
        p.spec_bytes().subrange(11, 13) == le16(p.acl_data_serial.length),
        p.spec_bytes().subrange(13, p.spec_bytes().len() as int) == p.acl_data_serial.acl_data@,
{
    let b = p.spec_bytes();
    assert(b.subrange(9, 11) =~= le16(p.acl_data_serial.handle));
    assert(b.subrange(11, 13) =~= le16(p.acl_data_serial.length));
    assert(b.subrange(13, b.len() as int) =~= p.acl_data_serial.acl_data@);
}

} // verus!
