use stm32wb_hal::tl_mbox::cmd::{AclDataPacket, AclDataSerial, Cmd, CmdPacket, CmdSerial};
use stm32wb_hal::tl_mbox::consts::TlPacketType;
use stm32wb_hal::tl_mbox::evt::{AsynchEvt, CcEvt, CsEvt, Evt, EvtPacket, EvtSerial};
use stm32wb_hal::tl_mbox::PacketHeader;

#[test]
fn command_packet_layout() {
    let mut payload = [0u8; 255];
    payload[0] = 0x11;
    payload[254] = 0x22;
    let p = CmdPacket {
        header: PacketHeader { next: 0x0403_0201, prev: 0x0807_0605 },
        cmdserial: CmdSerial { ty: 0x10, cmd: Cmd { cmd_code: 0xBEEF, payload_len: 2, payload } },
    };
    let b = p.to_bytes();
    assert_eq!(b.len(), 267);
    // header: next at 0..4, prev at 4..8, little-endian
    assert_eq!(&b[0..8], &[1, 2, 3, 4, 5, 6, 7, 8]);
    // tag at 8, command code at 9..11, payload length at 11, payload from 12
    assert_eq!(b[8], 0x10);
    assert_eq!(&b[9..11], &[0xEF, 0xBE]);
    assert_eq!(b[11], 2);
    assert_eq!(b[12], 0x11);
    assert_eq!(b[266], 0x22);
}

#[test]
fn acl_data_packet_layout() {
    let p = AclDataPacket {
        header: PacketHeader::default(),
        acl_data_serial: AclDataSerial { ty: 0x02, handle: 0x0123, length: 3, acl_data: vec![9, 8, 7] },
    };
    let b = p.to_bytes();
    assert_eq!(b, vec![0, 0, 0, 0, 0, 0, 0, 0, 0x02, 0x23, 0x01, 0x03, 0x00, 9, 8, 7]);
}

#[test]
fn event_layout_after_header() {
    let mut bytes = vec![0u8; 259];
    bytes[0] = 0x12; // tag
    bytes[1] = 0x0F; // event code
    bytes[2] = 4; // payload length
    bytes[3..7].copy_from_slice(&[0x00, 0x01, 0x34, 0x12]);
    let e = EvtSerial::from_bytes(&bytes);
    assert_eq!(e.kind, 0x12);
    assert_eq!(e.evt.evt_code, 0x0F);
    assert_eq!(e.evt.payload_len, 4);
    assert_eq!(e.evt.payload, vec![0x00, 0x01, 0x34, 0x12]);
    let cs = CsEvt::from_payload(&e.evt.payload);
    assert_eq!(cs, CsEvt { status: 0, num_cmd: 1, cmd_code: 0x1234 });
    assert_eq!(e.to_bytes(), bytes[..7].to_vec());
}

#[test]
fn command_complete_and_vendor_payloads() {
    let cc = CcEvt::from_payload(&vec![1, 0x0C, 0xFC, 0x00, 0x42]);
    assert_eq!(cc.num_cmd, 1);
    assert_eq!(cc.cmd_code, 0xFC0C);
    assert_eq!(cc.payload, vec![0x00, 0x42]);
    let a = AsynchEvt::from_payload(&vec![0x07, 0x0C, 0xAA]);
    assert_eq!(a.sub_evt_code, 0x0C07);
    assert_eq!(a.payload, vec![0xAA]);
}

#[test]
fn packet_type_tags() {
    assert_eq!(TlPacketType::BleCmd.value(), 0x01);
    assert_eq!(TlPacketType::AclData.value(), 0x02);
    assert_eq!(TlPacketType::BleEvt.value(), 0x04);
    assert_eq!(TlPacketType::SysCmd.value(), 0x10);
    assert_eq!(TlPacketType::SysRsp.value(), 0x11);
    assert_eq!(TlPacketType::SysEvt.value(), 0x12);
    assert_eq!(TlPacketType::TracesWl.value(), 0x41);
}

#[test]
fn command_serial_is_tag_then_command() {
    let cmd = Cmd { cmd_code: 0x0102, payload_len: 0, payload: [0xEE; 255] };
    let s = CmdSerial { ty: 0x01, cmd };
    let b = s.to_bytes();
    assert_eq!(b.len(), 259);
    assert_eq!(&b[..4], &[0x01, 0x02, 0x01, 0x00]);
    assert_eq!(&b[4..], &cmd.to_bytes()[3..]);
    assert_eq!(PacketHeader::default().to_bytes(), vec![0; 8]);
}

#[test]
fn event_packet_layout() {
    let p = EvtPacket {
        header: PacketHeader { next: 0x10, prev: 0x0200 },
        evt_serial: EvtSerial {
            kind: 0x04,
            evt: Evt { evt_code: 0x3E, payload_len: 2, payload: vec![0x01, 0x02] },
        },
    };
    assert_eq!(
        p.to_bytes(),
        vec![0x10, 0, 0, 0, 0x00, 0x02, 0, 0, 0x04, 0x3E, 2, 0x01, 0x02]
    );
    assert_eq!(p.kind(), 0x04);
    assert_eq!(p.evt().evt_code, 0x3E);
}
