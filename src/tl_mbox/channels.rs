//! Which doorbell channel carries which traffic.

use vstd::prelude::*;
use crate::ipcc::IpccChannel;

verus! {

/// CPU1 to CPU2: BLE command.
pub const IPCC_BLE_CMD_CHANNEL: IpccChannel = IpccChannel::Channel1;

/// CPU1 to CPU2: system command (CPU2 answers by clearing the flag).
pub const IPCC_SYSTEM_CMD_RSP_CHANNEL: IpccChannel = IpccChannel::Channel2;

/// CPU1 to CPU2: Thread command.
pub const IPCC_THREAD_OT_CMD_RSP_CHANNEL: IpccChannel = IpccChannel::Channel3;

/// CPU1 to CPU2: event buffers handed back to the free queue.
pub const IPCC_MM_RELEASE_BUFFER_CHANNEL: IpccChannel = IpccChannel::Channel4;

/// CPU1 to CPU2: Thread CLI command.
pub const IPCC_THREAD_CLI_CMD_CHANNEL: IpccChannel = IpccChannel::Channel5;

/// CPU1 to CPU2: HCI ACL data.
pub const IPCC_HCI_ACL_DATA_CHANNEL: IpccChannel = IpccChannel::Channel6;

/// CPU2 to CPU1: BLE events.
pub const IPCC_BLE_EVENT_CHANNEL: IpccChannel = IpccChannel::Channel1;

/// CPU2 to CPU1: system events.
pub const IPCC_SYSTEM_EVENT_CHANNEL: IpccChannel = IpccChannel::Channel2;

/// CPU2 to CPU1: Thread notification acknowledgement.
pub const IPCC_THREAD_NOTIFICATION_ACK_CHANNEL: IpccChannel = IpccChannel::Channel3;

/// CPU2 to CPU1: traces.
pub const IPCC_TRACES_CHANNEL: IpccChannel = IpccChannel::Channel4;

/// CPU2 to CPU1: Thread CLI notification acknowledgement.
pub const IPCC_THREAD_CLI_NOTIFICATION_ACK_CHANNEL: IpccChannel = IpccChannel::Channel5;

} // verus!
