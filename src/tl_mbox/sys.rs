//! System channel: firmware-level commands and events.

use vstd::prelude::*;
use crate::ipcc::{tx_bit, Ipcc, IpccRegisters};
use crate::bits::bit_replaced;
use super::channels::{IPCC_SYSTEM_CMD_RSP_CHANNEL, IPCC_SYSTEM_EVENT_CHANNEL};
use super::cmd::CmdSerial;
use super::evt::EvtBox;
use super::{drain_events, RefTable, SharedMemory, SysTable, SYSTEM_EVT_QUEUE, SYS_CMD_BUF};

verus! {

/// The system channel's table entries.
pub open spec fn sys_table() -> SysTable {
    SysTable { pcmd_buffer: SYS_CMD_BUF, sys_queue: SYSTEM_EVT_QUEUE }
}

/// The system channel.
pub struct Sys {
    config: Config,
}

/// Configuration of the system channel. Command completions and events are
/// not called back: the interrupt handlers report them to their caller.
#[derive(Debug, Clone)]
pub struct Config {}

impl Sys {
    /// Empties the system event queue, publishes the system table and
    /// enables CPU1's receive interrupt for system events.
    pub fn new(ipcc: &mut Ipcc, shm: &mut SharedMemory, config: Config) -> (r: Sys)
        requires
            old(shm).wf(),
        ensures
            final(shm).wf(),
            final(shm).queues() == old(shm).queues().insert(SYSTEM_EVT_QUEUE, Seq::<u32>::empty()),
            final(shm).in_flight() == old(shm).in_flight(),
            final(shm).spec_tables() == (RefTable { sys_table: sys_table(), ..old(shm).spec_tables() }),
            final(ipcc).rb.is_c1_rx_set(old(ipcc).rb, IPCC_SYSTEM_EVENT_CHANNEL, true),
            forall|x: u32| #[trigger] final(shm).slot_bytes(x) == old(shm).slot_bytes(x),
    {
        ipcc.c1_set_rx_channel(IPCC_SYSTEM_EVENT_CHANNEL, true);
        shm.init_queue(SYSTEM_EVT_QUEUE);
        shm.set_sys_table(SysTable { pcmd_buffer: SYS_CMD_BUF, sys_queue: SYSTEM_EVT_QUEUE });
        Sys { config }
    }

    /// Writes `cmd` into the system command buffer, rings the system command
    /// doorbell and asks for the transmit-free interrupt that tells when CPU2
    /// has answered.
    pub fn send_cmd(&self, shm: &mut SharedMemory, ipcc: &mut Ipcc, cmd: &CmdSerial)
        requires
            old(shm).wf(),
        ensures
            final(shm).wf(),
            final(shm).slot_bytes(SYS_CMD_BUF) == cmd.spec_bytes(),
            forall|y: u32| y != SYS_CMD_BUF ==> #[trigger] final(shm).slot_bytes(y) == old(shm).slot_bytes(y),
            final(shm).queues() == old(shm).queues(),
            final(shm).in_flight() == old(shm).in_flight(),
            final(shm).spec_tables() == old(shm).spec_tables(),
            final(ipcc).c1_flag(IPCC_SYSTEM_CMD_RSP_CHANNEL),
            final(ipcc).c1_tx_enabled(IPCC_SYSTEM_CMD_RSP_CHANNEL),
            bit_replaced(
                final(ipcc).rb.c1toc2sr,
                old(ipcc).rb.c1toc2sr,
                IPCC_SYSTEM_CMD_RSP_CHANNEL.spec_index(),
                true,
            ),
            bit_replaced(
                final(ipcc).rb.c1mr,
                old(ipcc).rb.c1mr,
                tx_bit(IPCC_SYSTEM_CMD_RSP_CHANNEL),
                false,
            ),
            final(ipcc).rb == (IpccRegisters {
                c1mr: final(ipcc).rb.c1mr,
                c1toc2sr: final(ipcc).rb.c1toc2sr,
                ..old(ipcc).rb
            }),
    {
        let bytes = cmd.to_bytes();
        shm.write_slot(SYS_CMD_BUF, &bytes);
        proof {
            assert(final(shm).slot_bytes(SYS_CMD_BUF) =~= cmd.spec_bytes());
        }
        ipcc.c1_set_flag_channel(IPCC_SYSTEM_CMD_RSP_CHANNEL);
        ipcc.c1_set_tx_channel(IPCC_SYSTEM_CMD_RSP_CHANNEL, true);
    }

    /// Transmit-free interrupt of the system command channel: CPU2 has
    /// answered; stop listening for it.
    pub fn cmd_evt_handler(&self, ipcc: &mut Ipcc)
        ensures
            final(ipcc).rb.is_c1_tx_set(old(ipcc).rb, IPCC_SYSTEM_CMD_RSP_CHANNEL, false),
            !final(ipcc).c1_tx_enabled(IPCC_SYSTEM_CMD_RSP_CHANNEL),
    {
        ipcc.c1_set_tx_channel(IPCC_SYSTEM_CMD_RSP_CHANNEL, false);
    }

    /// Receive interrupt of the system event channel: takes every event off
    /// the system event queue, front first, then acknowledges the doorbell.
    pub fn evt_handler(&self, shm: &mut SharedMemory, ipcc: &mut Ipcc) -> (r: Vec<EvtBox>)
        requires
            old(shm).wf(),
        ensures
            final(shm).wf(),
            r@.len() == old(shm).queue(SYSTEM_EVT_QUEUE).len(),
            forall|i: int| 0 <= i < r@.len() ==> (#[trigger] r@[i]).slot() == old(shm).queue(SYSTEM_EVT_QUEUE)[i],
            final(shm).queue(SYSTEM_EVT_QUEUE) == Seq::<u32>::empty(),
            final(shm).queues() == old(shm).queues().insert(SYSTEM_EVT_QUEUE, Seq::<u32>::empty()),
            final(shm).in_flight() == old(shm).in_flight() + old(shm).queue(SYSTEM_EVT_QUEUE).to_set(),
            forall|x: u32| #[trigger] final(shm).slot_bytes(x) == old(shm).slot_bytes(x),
            final(ipcc).rb.is_c1_flag_cleared(old(ipcc).rb, IPCC_SYSTEM_EVENT_CHANNEL),
            !final(ipcc).c2_flag(IPCC_SYSTEM_EVENT_CHANNEL),
    {
        let r = drain_events(shm, SYSTEM_EVT_QUEUE);
        ipcc.c1_clear_flag_channel(IPCC_SYSTEM_EVENT_CHANNEL);
        r
    }
}

} // verus!
