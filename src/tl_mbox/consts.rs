//! Packet type tags.

use vstd::prelude::*;

verus! {

/// The one-byte tag that follows the link header of every packet.
#[derive(Debug, Copy, Clone, PartialEq, Eq, Structural)]
pub enum TlPacketType {
    BleCmd,
    AclData,
    BleEvt,
    OtCmd,
    OtRsp,
    CliCmd,
    OtNot,
    OtAck,
    CliNot,
    CliAck,
    SysCmd,
    SysRsp,
    SysEvt,
    LocCmd,
    LocRsp,
    TracesApp,
    TracesWl,
}

impl TlPacketType {
    /// The tag byte on the wire.
    pub open spec fn spec_value(self) -> u8 {
        match self {
            TlPacketType::BleCmd => 0x01,
            TlPacketType::AclData => 0x02,
            TlPacketType::BleEvt => 0x04,
            TlPacketType::OtCmd => 0x08,
            TlPacketType::OtRsp => 0x09,
            TlPacketType::CliCmd => 0x0A,
            TlPacketType::OtNot => 0x0C,
            TlPacketType::OtAck => 0x0D,
            TlPacketType::CliNot => 0x0E,
            TlPacketType::CliAck => 0x0F,
            TlPacketType::SysCmd => 0x10,
            TlPacketType::SysRsp => 0x11,
            TlPacketType::SysEvt => 0x12,
            TlPacketType::LocCmd => 0x20,
            TlPacketType::LocRsp => 0x21,
            TlPacketType::TracesApp => 0x40,
            TlPacketType::TracesWl => 0x41,
        }
    }

    /// The tag byte on the wire.
    #[verifier::when_used_as_spec(spec_value)]
    pub fn value(self) -> (r: u8)
        ensures
            r == self.spec_value(),
    {
        match self {
            TlPacketType::BleCmd => 0x01,
            TlPacketType::AclData => 0x02,
            TlPacketType::BleEvt => 0x04,
            TlPacketType::OtCmd => 0x08,
            TlPacketType::OtRsp => 0x09,
            TlPacketType::CliCmd => 0x0A,
            TlPacketType::OtNot => 0x0C,
            TlPacketType::OtAck => 0x0D,
            TlPacketType::CliNot => 0x0E,
            TlPacketType::CliAck => 0x0F,
            TlPacketType::SysCmd => 0x10,
            TlPacketType::SysRsp => 0x11,
            TlPacketType::SysEvt => 0x12,
            TlPacketType::LocCmd => 0x20,
            TlPacketType::LocRsp => 0x21,
            TlPacketType::TracesApp => 0x40,
            TlPacketType::TracesWl => 0x41,
        }
    }
}

} // verus!
