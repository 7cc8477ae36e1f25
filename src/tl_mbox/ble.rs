//! BLE channel: radio-stack commands, ACL data and events.

use vstd::prelude::*;
use crate::ipcc::{tx_bit, Ipcc, IpccRegisters};
use crate::bits::bit_replaced;
use super::channels::{IPCC_BLE_CMD_CHANNEL, IPCC_BLE_EVENT_CHANNEL, IPCC_HCI_ACL_DATA_CHANNEL};
use super::cmd::{AclDataSerial, Cmd, CmdSerial};
use super::consts::TlPacketType;
use super::evt::EvtBox;
use super::{
    drain_events, BleTable, RefTable, SharedMemory, BLE_CMD_BUFFER, CS_BUFFER, EVT_QUEUE,
    HCI_ACL_DATA_BUFFER, SLOT_BYTES,
};

verus! {

/// The BLE channel's table entries.
pub open spec fn ble_table() -> BleTable {
    BleTable {
        pcmd_buffer: BLE_CMD_BUFFER,
        pcs_buffer: CS_BUFFER,
        pevt_queue: EVT_QUEUE,
        phci_acl_data_buffer: HCI_ACL_DATA_BUFFER,
    }
}

/// The BLE channel.
pub struct Ble {}

impl Ble {
    /// Empties the BLE event queue, publishes the BLE table and enables
    /// CPU1's receive interrupt for BLE events.
    pub fn new(ipcc: &mut Ipcc, shm: &mut SharedMemory) -> (r: Ble)
        requires
            old(shm).wf(),
        ensures
            final(shm).wf(),
            final(shm).queues() == old(shm).queues().insert(EVT_QUEUE, Seq::<u32>::empty()),
            final(shm).in_flight() == old(shm).in_flight(),
            final(shm).spec_tables() == (RefTable { ble_table: ble_table(), ..old(shm).spec_tables() }),
            final(ipcc).rb.is_c1_rx_set(old(ipcc).rb, IPCC_BLE_EVENT_CHANNEL, true),
            forall|x: u32| #[trigger] final(shm).slot_bytes(x) == old(shm).slot_bytes(x),
    {
        shm.init_queue(EVT_QUEUE);
        shm.set_ble_table(
            BleTable {
                pcmd_buffer: BLE_CMD_BUFFER,
                pcs_buffer: CS_BUFFER,
                pevt_queue: EVT_QUEUE,
                phci_acl_data_buffer: HCI_ACL_DATA_BUFFER,
            },
        );
        ipcc.c1_set_rx_channel(IPCC_BLE_EVENT_CHANNEL, true);
        Ble {}
    }

    /// Receive interrupt of the BLE event channel: takes every event off the
    /// BLE event queue, front first, then acknowledges the doorbell.
    pub fn evt_handler(&self, shm: &mut SharedMemory, ipcc: &mut Ipcc) -> (r: Vec<EvtBox>)
        requires
            old(shm).wf(),
        ensures
            final(shm).wf(),
            r@.len() == old(shm).queue(EVT_QUEUE).len(),
            forall|i: int| 0 <= i < r@.len() ==> (#[trigger] r@[i]).slot() == old(shm).queue(EVT_QUEUE)[i],
            final(shm).queue(EVT_QUEUE) == Seq::<u32>::empty(),
            final(shm).queues() == old(shm).queues().insert(EVT_QUEUE, Seq::<u32>::empty()),
            final(shm).in_flight() == old(shm).in_flight() + old(shm).queue(EVT_QUEUE).to_set(),
            forall|x: u32| #[trigger] final(shm).slot_bytes(x) == old(shm).slot_bytes(x),
            final(ipcc).rb.is_c1_flag_cleared(old(ipcc).rb, IPCC_BLE_EVENT_CHANNEL),
    {
        let r = drain_events(shm, EVT_QUEUE);
        ipcc.c1_clear_flag_channel(IPCC_BLE_EVENT_CHANNEL);
        r
    }

    /// Transmit-free interrupt of the ACL data channel: CPU2 has taken the
    /// data; stop listening for it.
    pub fn acl_data_handler(&self, ipcc: &mut Ipcc)
        ensures
            final(ipcc).rb.is_c1_tx_set(old(ipcc).rb, IPCC_HCI_ACL_DATA_CHANNEL, false),
    {
        ipcc.c1_set_tx_channel(IPCC_HCI_ACL_DATA_CHANNEL, false);
    }
}

/// Writes `cmd`, tagged as a BLE command, into the BLE command buffer and
/// rings the BLE command doorbell.
pub fn ble_send_cmd(shm: &mut SharedMemory, ipcc: &mut Ipcc, cmd: &Cmd)
    requires
        old(shm).wf(),
    ensures
        final(shm).wf(),
        final(shm).slot_bytes(BLE_CMD_BUFFER) == (CmdSerial {
            ty: TlPacketType::BleCmd.spec_value(),
            cmd: *cmd,
        }).spec_bytes(),
        forall|y: u32| y != BLE_CMD_BUFFER ==> #[trigger] final(shm).slot_bytes(y) == old(shm).slot_bytes(y),
        final(shm).queues() == old(shm).queues(),
        final(shm).in_flight() == old(shm).in_flight(),
        final(ipcc).rb.is_c1_flag_set(old(ipcc).rb, IPCC_BLE_CMD_CHANNEL),
{
    let serial = CmdSerial { ty: TlPacketType::BleCmd.value(), cmd: *cmd };
    let bytes = serial.to_bytes();
    shm.write_slot(BLE_CMD_BUFFER, &bytes);
    proof {
        assert(final(shm).slot_bytes(BLE_CMD_BUFFER) =~= serial.spec_bytes());
    }
    ipcc.c1_set_flag_channel(IPCC_BLE_CMD_CHANNEL);
}

/// Writes `acl`, tagged as ACL data, into the ACL data buffer, rings the ACL
/// data doorbell and asks for the transmit-free interrupt.
pub fn ble_send_acl_data(shm: &mut SharedMemory, ipcc: &mut Ipcc, acl: &AclDataSerial)
    requires
        old(shm).wf(),
        acl.spec_bytes().len() <= SLOT_BYTES,
    ensures
        final(shm).wf(),
        final(shm).slot_bytes(HCI_ACL_DATA_BUFFER) == acl.spec_bytes().update(
            0,
            TlPacketType::AclData.spec_value(),
        ) + old(shm).slot_bytes(HCI_ACL_DATA_BUFFER).subrange(
            acl.spec_bytes().len() as int,
            SLOT_BYTES as int,
        ),
        forall|y: u32|
            y != HCI_ACL_DATA_BUFFER ==> #[trigger] final(shm).slot_bytes(y) == old(shm).slot_bytes(y),
        final(shm).queues() == old(shm).queues(),
        final(shm).in_flight() == old(shm).in_flight(),
        final(ipcc).c1_flag(IPCC_HCI_ACL_DATA_CHANNEL),
        final(ipcc).c1_tx_enabled(IPCC_HCI_ACL_DATA_CHANNEL),
        bit_replaced(
            final(ipcc).rb.c1toc2sr,
            old(ipcc).rb.c1toc2sr,
            IPCC_HCI_ACL_DATA_CHANNEL.spec_index(),
            true,
        ),
        bit_replaced(
            final(ipcc).rb.c1mr,
            old(ipcc).rb.c1mr,
            tx_bit(IPCC_HCI_ACL_DATA_CHANNEL),
            false,
        ),
        final(ipcc).rb == (IpccRegisters {
            c1mr: final(ipcc).rb.c1mr,
            c1toc2sr: final(ipcc).rb.c1toc2sr,
            ..old(ipcc).rb
        }),
{
    let tagged = AclDataSerial {
        ty: TlPacketType::AclData.value(),
        handle: acl.handle,
        length: acl.length,
        acl_data: acl.acl_data.clone(),
    };
    let bytes = tagged.to_bytes();
    proof {
        assert(tagged.acl_data@ == acl.acl_data@);
        assert(tagged.spec_bytes() =~= acl.spec_bytes().update(0, TlPacketType::AclData.spec_value()));
    }
    shm.write_slot(HCI_ACL_DATA_BUFFER, &bytes);
    ipcc.c1_set_flag_channel(IPCC_HCI_ACL_DATA_CHANNEL);
    ipcc.c1_set_tx_channel(IPCC_HCI_ACL_DATA_CHANNEL, true);
}

} // verus!
