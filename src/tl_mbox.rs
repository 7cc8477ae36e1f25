//! Mailbox transport between CPU1 and the wireless stack on CPU2.
//!
//! The shared region is modelled as a table of slots. Each slot starts with
//! the two links of an intrusive queue node, followed by `SLOT_BYTES` bytes
//! of packet. Queue heads, the command buffers and the event buffers are all
//! slots; slot 0 stands for the null address. The tables through which CPU2
//! finds everything hold slot numbers.

use vstd::prelude::*;
use crate::ipcc::Ipcc;
use crate::linked_list::{LinkedListNode, NodeArena};
use crate::rcc::Rcc;
use crate::tl_mbox::wire::{le32, push_u32};

pub mod ble;
pub mod channels;
pub mod cmd;
pub mod consts;
pub mod evt;
pub mod mm;
pub mod sys;
pub mod wire;

verus! {

/// Slot number that stands for the null address.
pub const NULL_SLOT: u32 = 0;

/// Head of the queue through which CPU1 hands event buffers back to CPU2.
pub const FREE_BUF_QUEUE: u32 = 1;

/// Head of CPU1's own queue of buffers waiting to be handed back.
pub const LOCAL_FREE_BUF_QUEUE: u32 = 2;

/// Head of the system event queue.
pub const SYSTEM_EVT_QUEUE: u32 = 3;

/// Head of the BLE event queue.
pub const EVT_QUEUE: u32 = 4;

/// Head of the trace event queue.
pub const TRACES_EVT_QUEUE: u32 = 5;

/// The system command buffer.
pub const SYS_CMD_BUF: u32 = 6;

/// The BLE command buffer.
pub const BLE_CMD_BUFFER: u32 = 7;

/// The HCI ACL data buffer.
pub const HCI_ACL_DATA_BUFFER: u32 = 8;

/// The command status buffer.
pub const CS_BUFFER: u32 = 9;

/// Spare event buffer for system events.
pub const SYS_SPARE_EVT_BUF: u32 = 10;

/// Spare event buffer for BLE events.
pub const BLE_SPARE_EVT_BUF: u32 = 11;

/// First slot of the BLE event buffer pool.
pub const EVT_POOL: u32 = 12;

/// Number of buffers in the BLE event pool.
pub const CFG_TLBLE_EVT_QUEUE_LENGTH: u32 = 5;

/// Number of slots in the shared region, the null slot included.
pub const NUM_SLOTS: u32 = 17;

/// Bytes of packet after the link header of every slot: room for a tagged
/// command (tag, code, length, 255 payload bytes).
pub const SLOT_BYTES: usize = 259;

/// Size of the link header on the wire: two 32-bit addresses.
pub const TL_PACKET_HEADER_SIZE: usize = 8;

/// Largest BLE event payload.
pub const CFG_TLBLE_MOST_EVENT_PAYLOAD_SIZE: usize = 255;

/// Bytes of a BLE event frame after the link header.
pub const TL_BLE_EVENT_FRAME_SIZE: usize = 3 + CFG_TLBLE_MOST_EVENT_PAYLOAD_SIZE;

/// Bytes of the BLE event pool: each buffer rounded up to whole words.
pub const POOL_SIZE: u32 = 5 * 4 * 67;

/// `x / y`, rounded up.
pub fn divc(x: usize, y: usize) -> (r: usize)
    requires
        y > 0,
        x + y - 1 <= usize::MAX,
    ensures
        r == (x + y - 1) / (y as int),
{
    (x + (y - 1)) / y
}

/// The slots that head a queue.
pub open spec fn is_queue_head(h: u32) -> bool {
    h == FREE_BUF_QUEUE || h == LOCAL_FREE_BUF_QUEUE || h == SYSTEM_EVT_QUEUE || h == EVT_QUEUE
        || h == TRACES_EVT_QUEUE
}

/// The slots that hold event buffers: the two spares and the pool.
pub open spec fn is_evt_slot(x: u32) -> bool {
    x == SYS_SPARE_EVT_BUF || x == BLE_SPARE_EVT_BUF || (EVT_POOL <= x < NUM_SLOTS)
}

/// The link header at the start of every packet.
#[derive(Debug, Copy, Clone, PartialEq, Eq, Structural)]
pub struct PacketHeader {
    pub next: u32,
    pub prev: u32,
}

impl Default for PacketHeader {
    fn default() -> (r: Self)
        ensures
            r == (PacketHeader { next: NULL_SLOT, prev: NULL_SLOT }),
    {
        PacketHeader { next: NULL_SLOT, prev: NULL_SLOT }
    }
}

impl PacketHeader {
    /// Layout: next (4 bytes), previous (4 bytes).
    pub open spec fn spec_bytes(&self) -> Seq<u8> {
        le32(self.next) + le32(self.prev)
    }

    /// The packed bytes of the header.
    pub fn to_bytes(&self) -> (r: Vec<u8>)
        ensures
            r@ == self.spec_bytes(),
            r@.len() == TL_PACKET_HEADER_SIZE,
    {
        let mut out: Vec<u8> = Vec::new();
        push_u32(&mut out, self.next);
        push_u32(&mut out, self.prev);
        out
    }
}

/// Version of the secure boot firmware.
#[derive(Debug, Copy, Clone, PartialEq, Eq, Structural)]
pub struct SafeBootInfoTable {
    pub version: u32,
}

/// Version and layout of the radio security services.
#[derive(Debug, Copy, Clone, PartialEq, Eq, Structural)]
pub struct RssInfoTable {
    pub version: u32,
    pub memory_size: u32,
    pub rss_info: u32,
}

/// Version and layout of the wireless firmware.
#[derive(Debug, Copy, Clone, PartialEq, Eq, Structural)]
pub struct WirelessFwInfoTable {
    pub version: u32,
    pub memory_size: u32,
    pub thread_info: u32,
    pub ble_info: u32,
}

/// Information that CPU2 publishes about its firmware.
#[derive(Debug, Copy, Clone, PartialEq, Eq, Structural)]
pub struct DeviceInfoTable {
    pub safe_boot_info_table: SafeBootInfoTable,
    pub rss_info_table: RssInfoTable,
    pub wireless_fw_info_table: WirelessFwInfoTable,
}

/// Where the BLE channel's buffers and queue are.
#[derive(Debug, Copy, Clone, PartialEq, Eq, Structural)]
pub struct BleTable {
    pub pcmd_buffer: u32,
    pub pcs_buffer: u32,
    pub pevt_queue: u32,
    pub phci_acl_data_buffer: u32,
}

/// Where the Thread channel's buffers are.
#[derive(Debug, Copy, Clone, PartialEq, Eq, Structural)]
pub struct ThreadTable {
    pub nostack_buffer: u32,
    pub clicmdrsp_buffer: u32,
    pub otcmdrsp_buffer: u32,
}

/// Where the system channel's buffer and queue are.
#[derive(Debug, Copy, Clone, PartialEq, Eq, Structural)]
pub struct SysTable {
    pub pcmd_buffer: u32,
    pub sys_queue: u32,
}

/// Where the memory manager's buffers and free queue are.
#[derive(Debug, Copy, Clone, PartialEq, Eq, Structural)]
pub struct MemManagerTable {
    pub spare_ble_buffer: u32,
    pub spare_sys_buffer: u32,
    pub blepool: u32,
    pub blepoolsize: u32,
    pub pevt_free_buffer_queue: u32,
    pub traces_evt_pool: u32,
    pub tracespoolsize: u32,
}

/// Where the trace queue is.
#[derive(Debug, Copy, Clone, PartialEq, Eq, Structural)]
pub struct TracesTable {
    pub traces_queue: u32,
}

/// Where the 802.15.4 channel's buffers and queue are.
#[derive(Debug, Copy, Clone, PartialEq, Eq, Structural)]
pub struct Mac802154Table {
    pub p_cmdrsp_buffer: u32,
    pub p_notack_buffer: u32,
    pub evt_queue: u32,
}

/// Reference table: the root through which CPU2 finds every other table.
#[derive(Debug, Copy, Clone, PartialEq, Eq, Structural)]
pub struct RefTable {
    pub device_info_table: DeviceInfoTable,
    pub ble_table: BleTable,
    pub thread_table: ThreadTable,
    pub sys_table: SysTable,
    pub mem_manager_table: MemManagerTable,
    pub traces_table: TracesTable,
    pub mac_802_15_4_table: Mac802154Table,
}

/// The reference table with every field zero (every address null).
pub open spec fn zeroed_ref_table() -> RefTable {
    RefTable {
        device_info_table: DeviceInfoTable {
            safe_boot_info_table: SafeBootInfoTable { version: 0 },
            rss_info_table: RssInfoTable { version: 0, memory_size: 0, rss_info: 0 },
            wireless_fw_info_table: WirelessFwInfoTable {
                version: 0,
                memory_size: 0,
                thread_info: 0,
                ble_info: 0,
            },
        },
        ble_table: BleTable { pcmd_buffer: 0, pcs_buffer: 0, pevt_queue: 0, phci_acl_data_buffer: 0 },
        thread_table: ThreadTable { nostack_buffer: 0, clicmdrsp_buffer: 0, otcmdrsp_buffer: 0 },
        sys_table: SysTable { pcmd_buffer: 0, sys_queue: 0 },
        mem_manager_table: MemManagerTable {
            spare_ble_buffer: 0,
            spare_sys_buffer: 0,
            blepool: 0,
            blepoolsize: 0,
            pevt_free_buffer_queue: 0,
            traces_evt_pool: 0,
            tracespoolsize: 0,
        },
        traces_table: TracesTable { traces_queue: 0 },
        mac_802_15_4_table: Mac802154Table { p_cmdrsp_buffer: 0, p_notack_buffer: 0, evt_queue: 0 },
    }
}

impl RefTable {
    /// The reference table with every field zero.
    pub fn zeroed() -> (r: RefTable)
        ensures
            r == zeroed_ref_table(),
    {
        RefTable {
            device_info_table: DeviceInfoTable {
                safe_boot_info_table: SafeBootInfoTable { version: 0 },
                rss_info_table: RssInfoTable { version: 0, memory_size: 0, rss_info: 0 },
                wireless_fw_info_table: WirelessFwInfoTable {
                    version: 0,
                    memory_size: 0,
                    thread_info: 0,
                    ble_info: 0,
                },
            },
            ble_table: BleTable {
                pcmd_buffer: 0,
                pcs_buffer: 0,
                pevt_queue: 0,
                phci_acl_data_buffer: 0,
            },
            thread_table: ThreadTable { nostack_buffer: 0, clicmdrsp_buffer: 0, otcmdrsp_buffer: 0 },
            sys_table: SysTable { pcmd_buffer: 0, sys_queue: 0 },
            mem_manager_table: MemManagerTable {
                spare_ble_buffer: 0,
                spare_sys_buffer: 0,
                blepool: 0,
                blepoolsize: 0,
                pevt_free_buffer_queue: 0,
                traces_evt_pool: 0,
                tracespoolsize: 0,
            },
            traces_table: TracesTable { traces_queue: 0 },
            mac_802_15_4_table: Mac802154Table {
                p_cmdrsp_buffer: 0,
                p_notack_buffer: 0,
                evt_queue: 0,
            },
        }
    }
}

/// The shared region: slot links and bytes, the tables, and (as ghost
/// state) the event buffers CPU1 currently holds through an `EvtBox`.
pub struct SharedMemory {
    links: NodeArena,
    bufs: Vec<Vec<u8>>,
    tables: RefTable,
    in_flight: Ghost<Set<u32>>,
}

impl SharedMemory {
    /// For every queue head, the buffers on its queue from front to back.
    pub closed spec fn queues(&self) -> Map<u32, Seq<u32>> {
        self.links@
    }

    /// The buffers on the queue headed by `h`, from front to back.
    pub open spec fn queue(&self, h: u32) -> Seq<u32> {
        self.queues()[h]
    }

    /// The packet bytes of slot `x` (after its link header).
    pub closed spec fn slot_bytes(&self, x: u32) -> Seq<u8> {
        if (x as int) < self.bufs@.len() {
            self.bufs@[x as int]@
        } else {
            Seq::empty()
        }
    }

    /// The link header of slot `x`.
    pub closed spec fn header_of(&self, x: u32) -> PacketHeader {
        PacketHeader { next: self.links.links()[x as int].next, prev: self.links.links()[x as int].prev }
    }

    /// Event buffers that CPU1 holds through an `EvtBox`.
    pub closed spec fn in_flight(&self) -> Set<u32> {
        self.in_flight@
    }

    /// The tables as they stand.
    pub closed spec fn spec_tables(&self) -> RefTable {
        self.tables
    }

    /// Event buffer `x` is with CPU2: on no queue and not held by CPU1.
    pub open spec fn with_cpu2(&self, x: u32) -> bool {
        &&& is_evt_slot(x)
        &&& !self.in_flight().contains(x)
        &&& forall|h: u32| #[trigger] is_queue_head(h) ==> !self.queue(h).contains(x)
    }

    /// The region is consistent: every queue head heads a proper queue of
    /// event buffers, every slot has its full size, and buffers held by CPU1
    /// are on no queue.
    pub closed spec fn wf(&self) -> bool {
        &&& self.links.wf()
        &&& self.links.spec_len() == NUM_SLOTS
        &&& self.bufs@.len() == NUM_SLOTS
        &&& forall|x: int| 0 <= x < NUM_SLOTS ==> (#[trigger] self.bufs@[x])@.len() == SLOT_BYTES
        &&& forall|h: u32| #[trigger] self.links@.contains_key(h) <==> is_queue_head(h)
        &&& forall|h: u32, i: int|
            self.links@.contains_key(h) && 0 <= i < self.links@[h].len() ==> is_evt_slot(
                #[trigger] self.links@[h][i],
            )
        &&& forall|x: u32| #[trigger] self.in_flight@.contains(x) ==> is_evt_slot(x) && self.links.is_free(x)
    }

    /// Consistency facts that callers rely on.
    pub proof fn lemma_wf(&self)
        requires
            self.wf(),
        ensures
            forall|h: u32| is_queue_head(h) ==> #[trigger] self.queue(h).no_duplicates(),
            forall|h: u32, i: int|
                is_queue_head(h) && 0 <= i < self.queue(h).len() ==> is_evt_slot(
                    #[trigger] self.queue(h)[i],
                ),
            forall|h: u32, x: u32|
                is_queue_head(h) && #[trigger] self.in_flight().contains(x) ==> !#[trigger] self.queue(
                    h,
                ).contains(x),
            forall|x: u32| is_evt_slot(x) ==> #[trigger] self.slot_bytes(x).len() == SLOT_BYTES,
            forall|h1: u32, h2: u32, x: u32|
                is_queue_head(h1) && is_queue_head(h2) && h1 != h2 && #[trigger] self.queue(h1).contains(x)
                    ==> !#[trigger] self.queue(h2).contains(x),
            forall|h: u32| #[trigger] self.queues().contains_key(h) <==> is_queue_head(h),
    {
        assert forall|h1: u32, h2: u32, x: u32|
            is_queue_head(h1) && is_queue_head(h2) && h1 != h2 && #[trigger] self.queue(h1).contains(x)
                implies !#[trigger] self.queue(h2).contains(x) by {
            assert(self.links@.contains_key(h1));
            assert(self.links@.contains_key(h2));
            self.links.lemma_disjoint(h1, h2);
        }
        assert forall|h: u32| is_queue_head(h) implies #[trigger] self.queue(h).no_duplicates() by {
            assert(self.links@.contains_key(h));
            self.links.lemma_members(h);
        }
        assert forall|x: u32| is_evt_slot(x) implies #[trigger] self.slot_bytes(x).len() == SLOT_BYTES by {
            assert(self.bufs@[x as int]@.len() == SLOT_BYTES);
        }
        assert forall|h: u32, x: u32|
            is_queue_head(h) && #[trigger] self.in_flight().contains(x) implies !#[trigger] self.queue(
                h,
            ).contains(x) by {
            assert(self.links@.contains_key(h));
        }
    }

    /// A region with every slot zeroed, every queue empty and the tables
    /// zeroed.
    pub fn new() -> (r: SharedMemory)
        ensures
            r.wf(),
            forall|h: u32| is_queue_head(h) ==> #[trigger] r.queue(h) == Seq::<u32>::empty(),
            r.in_flight() == Set::<u32>::empty(),
            r.spec_tables() == zeroed_ref_table(),
            forall|x: u32| x < NUM_SLOTS ==> #[trigger] r.slot_bytes(x) == Seq::new(SLOT_BYTES as nat, |i: int| 0u8),
    {
        let mut links = NodeArena::new(NUM_SLOTS);
        links.init_head(FREE_BUF_QUEUE);
        links.init_head(LOCAL_FREE_BUF_QUEUE);
        links.init_head(SYSTEM_EVT_QUEUE);
        links.init_head(EVT_QUEUE);
        links.init_head(TRACES_EVT_QUEUE);
        let mut bufs: Vec<Vec<u8>> = Vec::new();
        let mut i: u32 = 0;
        while i < NUM_SLOTS
            invariant
                i <= NUM_SLOTS,
                bufs@.len() == i,
                forall|x: int| 0 <= x < i ==> (#[trigger] bufs@[x])@ == Seq::new(SLOT_BYTES as nat, |j: int| 0u8),
            decreases NUM_SLOTS - i,
        {
            let mut b: Vec<u8> = Vec::new();
            let mut j: usize = 0;
            while j < SLOT_BYTES
                invariant
                    j <= SLOT_BYTES,
                    b@ == Seq::new(j as nat, |k: int| 0u8),
                decreases SLOT_BYTES - j,
            {
                b.push(0u8);
                j = j + 1;
                assert(b@ =~= Seq::new(j as nat, |k: int| 0u8));
            }
            bufs.push(b);
            i = i + 1;
        }
        let r = SharedMemory { links, bufs, tables: RefTable::zeroed(), in_flight: Ghost(Set::empty()) };
        assert forall|h: u32| #[trigger] r.links@.contains_key(h) <==> is_queue_head(h) by {}
        r
    }

    /// The tables as they stand.
    pub fn tables(&self) -> (r: &RefTable)
        ensures
            *r == self.spec_tables(),
    {
        &self.tables
    }

    pub(crate) fn set_sys_table(&mut self, t: SysTable)
        ensures
            final(self).spec_tables() == (RefTable { sys_table: t, ..old(self).spec_tables() }),
            final(self).queues() == old(self).queues(),
            final(self).in_flight() == old(self).in_flight(),
            forall|x: u32| #[trigger] final(self).slot_bytes(x) == old(self).slot_bytes(x),
            old(self).wf() ==> final(self).wf(),
    {
        self.tables.sys_table = t;
    }

    pub(crate) fn set_ble_table(&mut self, t: BleTable)
        ensures
            final(self).spec_tables() == (RefTable { ble_table: t, ..old(self).spec_tables() }),
            final(self).queues() == old(self).queues(),
            final(self).in_flight() == old(self).in_flight(),
            forall|x: u32| #[trigger] final(self).slot_bytes(x) == old(self).slot_bytes(x),
            old(self).wf() ==> final(self).wf(),
    {
        self.tables.ble_table = t;
    }

    pub(crate) fn set_mem_manager_table(&mut self, t: MemManagerTable)
        ensures
            final(self).spec_tables() == (RefTable { mem_manager_table: t, ..old(self).spec_tables() }),
            final(self).queues() == old(self).queues(),
            final(self).in_flight() == old(self).in_flight(),
            forall|x: u32| #[trigger] final(self).slot_bytes(x) == old(self).slot_bytes(x),
            old(self).wf() ==> final(self).wf(),
    {
        self.tables.mem_manager_table = t;
    }

    pub(crate) fn set_traces_table(&mut self, t: TracesTable)
        ensures
            final(self).spec_tables() == (RefTable { traces_table: t, ..old(self).spec_tables() }),
            final(self).queues() == old(self).queues(),
            final(self).in_flight() == old(self).in_flight(),
            forall|x: u32| #[trigger] final(self).slot_bytes(x) == old(self).slot_bytes(x),
            old(self).wf() ==> final(self).wf(),
    {
        self.tables.traces_table = t;
    }

    /// Empties the queue headed by `h`; buffers that were on it go back to
    /// CPU2.
    pub fn init_queue(&mut self, h: u32)
        requires
            old(self).wf(),
            is_queue_head(h),
        ensures
            final(self).wf(),
            final(self).queues() == old(self).queues().insert(h, Seq::<u32>::empty()),
            final(self).in_flight() == old(self).in_flight(),
            final(self).spec_tables() == old(self).spec_tables(),
            forall|x: u32| #[trigger] final(self).slot_bytes(x) == old(self).slot_bytes(x),
    {
        proof {
            assert(self.links@.contains_key(h));
            self.links.lemma_members(h);
            assert forall|h2: u32| #[trigger] self.links@.contains_key(h2) implies !self.links@[h2].contains(h) by {
                if self.links@[h2].contains(h) {
                    let k = choose|k: int| 0 <= k < self.links@[h2].len() && self.links@[h2][k] == h;
                    assert(is_evt_slot(self.links@[h2][k]));
                }
            }
        }
        self.links.init_head(h);
        proof {
            assert forall|x: u32| #[trigger] self.in_flight@.contains(x) implies is_evt_slot(x) && self.links.is_free(x) by {
                assert(old(self).links.is_free(x));
            }
        }
    }

    /// Whether the queue headed by `h` is empty.
    pub fn is_queue_empty(&self, h: u32) -> (r: bool)
        requires
            self.wf(),
            is_queue_head(h),
        ensures
            r == (self.queue(h).len() == 0),
    {
        assert(self.links@.contains_key(h));
        self.links.is_empty(h)
    }

    /// Takes the front buffer off the queue headed by `h`. With `hold`, CPU1
    /// now holds it; without, it is with CPU2.
    pub(crate) fn pop(&mut self, h: u32, hold: bool) -> (r: Option<u32>)
        requires
            old(self).wf(),
            is_queue_head(h),
        ensures
            final(self).wf(),
            r == (if old(self).queue(h).len() == 0 {
                None::<u32>
            } else {
                Some(old(self).queue(h)[0])
            }),
            final(self).queues() == (if old(self).queue(h).len() == 0 {
                old(self).queues()
            } else {
                old(self).queues().insert(h, old(self).queue(h).drop_first())
            }),
            final(self).in_flight() == (match r {
                Some(x) => if hold {
                    old(self).in_flight().insert(x)
                } else {
                    old(self).in_flight()
                },
                None => old(self).in_flight(),
            }),
            final(self).spec_tables() == old(self).spec_tables(),
            forall|x: u32| #[trigger] final(self).slot_bytes(x) == old(self).slot_bytes(x),
            !hold ==> (r matches Some(x) ==> final(self).with_cpu2(x)),
    {
        assert(self.links@.contains_key(h));
        let r = self.links.remove_head(h);
        proof {
            let q = old(self).links@;
            match r {
                Some(x) => {
                    assert(q[h].contains(x));
                    assert(is_evt_slot(q[h][0]));
                    assert(!old(self).in_flight@.contains(x)) by {
                        if old(self).in_flight@.contains(x) {
                            assert(old(self).links.is_free(x));
                        }
                    }
                    if hold {
                        self.in_flight@ = self.in_flight@.insert(x);
                    }
                    assert forall|h2: u32| #[trigger] is_queue_head(h2) implies !self.queue(h2).contains(x) by {
                        assert(self.links@.contains_key(h2));
                    }
                },
                None => {},
            }
            assert forall|h2: u32, i: int|
                self.links@.contains_key(h2) && 0 <= i < self.links@[h2].len() implies is_evt_slot(
                #[trigger] self.links@[h2][i],
            ) by {
                if h2 == h {
                    assert(self.links@[h2][i] == q[h][i + 1]);
                }
            }
            assert forall|x: u32| #[trigger] self.in_flight@.contains(x) implies is_evt_slot(x) && self.links.is_free(x) by {
                if r != Some(x) {
                    assert(old(self).links.is_free(x));
                    assert forall|h2: u32| #[trigger] self.links@.contains_key(h2) implies !self.links@[h2].contains(x) by {
                        if h2 == h && self.links@[h2].contains(x) {
                            let k = choose|k: int| 0 <= k < self.links@[h2].len() && self.links@[h2][k] == x;
                            assert(q[h][k + 1] == x);
                            assert(q[h].contains(x));
                        }
                    }
                }
            }
        }
        r
    }

    /// Appends event buffer `x` to the queue headed by `h`. With `held`, CPU1
    /// held the buffer and lets go of it; without, it came from CPU2.
    pub(crate) fn push(&mut self, h: u32, x: u32, held: bool)
        requires
            old(self).wf(),
            is_queue_head(h),
            held ==> old(self).in_flight().contains(x),
            !held ==> old(self).with_cpu2(x),
        ensures
            final(self).wf(),
            final(self).queues() == old(self).queues().insert(h, old(self).queue(h).push(x)),
            final(self).in_flight() == old(self).in_flight().remove(x),
            final(self).spec_tables() == old(self).spec_tables(),
            forall|y: u32| #[trigger] final(self).slot_bytes(y) == old(self).slot_bytes(y),
    {
        assert(self.links@.contains_key(h));
        proof {
            assert(is_evt_slot(x));
            if !held {
                assert forall|h2: u32| #[trigger] self.links@.contains_key(h2) implies !self.links@[h2].contains(x) by {
                    assert(is_queue_head(h2));
                }
                assert(!self.links@.contains_key(x));
            }
        }
        self.links.insert_tail(h, x);
        proof {
            let q = old(self).links@;
            self.in_flight@ = self.in_flight@.remove(x);
            assert forall|h2: u32, i: int|
                self.links@.contains_key(h2) && 0 <= i < self.links@[h2].len() implies is_evt_slot(
                #[trigger] self.links@[h2][i],
            ) by {
                if h2 == h && i < q[h].len() {
                    assert(self.links@[h2][i] == q[h][i]);
                }
            }
            assert forall|y: u32| #[trigger] self.in_flight@.contains(y) implies is_evt_slot(y) && self.links.is_free(y) by {
                assert(old(self).links.is_free(y));
                assert forall|h2: u32| #[trigger] self.links@.contains_key(h2) implies !self.links@[h2].contains(y) by {
                    if h2 == h && self.links@[h2].contains(y) {
                        let k = choose|k: int| 0 <= k < self.links@[h2].len() && self.links@[h2][k] == y;
                        assert(q[h][k] == y);
                        assert(q[h].contains(y));
                    }
                }
            }
        }
    }

    /// A copy of the packet bytes of slot `x`.
    pub fn read_slot(&self, x: u32) -> (r: Vec<u8>)
        requires
            self.wf(),
            x < NUM_SLOTS,
        ensures
            r@ == self.slot_bytes(x),
            r@.len() == SLOT_BYTES,
    {
        let b = &self.bufs[x as usize];
        let mut out: Vec<u8> = Vec::new();
        let mut i: usize = 0;
        while i < b.len()
            invariant
                i <= b@.len(),
                out@ == b@.subrange(0, i as int),
            decreases b@.len() - i,
        {
            out.push(b[i]);
            i = i + 1;
            assert(out@ =~= b@.subrange(0, i as int));
        }
        assert(b@.subrange(0, b@.len() as int) =~= b@);
        out
    }

    /// The link header of slot `x`.
    pub fn read_header(&self, x: u32) -> (r: PacketHeader)
        requires
            self.wf(),
            x < NUM_SLOTS,
        ensures
            r == self.header_of(x),
    {
        let n: LinkedListNode = self.links.node(x);
        PacketHeader { next: n.next, prev: n.prev }
    }

    /// Writes `bytes` over the start of slot `x`'s packet; the bytes after
    /// them keep their contents.
    pub fn write_slot(&mut self, x: u32, bytes: &Vec<u8>)
        requires
            old(self).wf(),
            x < NUM_SLOTS,
            bytes@.len() <= SLOT_BYTES,
        ensures
            final(self).wf(),
            final(self).slot_bytes(x) == bytes@ + old(self).slot_bytes(x).subrange(
                bytes@.len() as int,
                SLOT_BYTES as int,
            ),
            forall|y: u32| y != x ==> #[trigger] final(self).slot_bytes(y) == old(self).slot_bytes(y),
            final(self).queues() == old(self).queues(),
            final(self).in_flight() == old(self).in_flight(),
            final(self).spec_tables() == old(self).spec_tables(),
    {
        let old_bytes = self.read_slot(x);
        let mut b: Vec<u8> = Vec::new();
        let mut i: usize = 0;
        while i < SLOT_BYTES
            invariant
                i <= SLOT_BYTES,
                bytes@.len() <= SLOT_BYTES,
                old_bytes@.len() == SLOT_BYTES,
                b@.len() == i,
                forall|k: int| 0 <= k < i ==> #[trigger] b@[k] == if k < bytes@.len() {
                    bytes@[k]
                } else {
                    old_bytes@[k]
                },
            decreases SLOT_BYTES - i,
        {
            if i < bytes.len() {
                b.push(bytes[i]);
            } else {
                b.push(old_bytes[i]);
            }
            i = i + 1;
        }
        assert(b@ =~= bytes@ + old_bytes@.subrange(bytes@.len() as int, SLOT_BYTES as int));
        self.bufs.set(x as usize, b);
        proof {
            assert forall|y: u32| y != x implies #[trigger] self.slot_bytes(y) == old(self).slot_bytes(y) by {
                if (y as int) < self.bufs@.len() {
                    assert(self.bufs@[y as int] == old(self).bufs@[y as int]);
                }
            }
            assert forall|k: int| 0 <= k < NUM_SLOTS implies (#[trigger] self.bufs@[k])@.len() == SLOT_BYTES by {
                if k != x {
                    assert(self.bufs@[k] == old(self).bufs@[k]);
                }
            }
        }
    }

    /// CPU2's side: writes `evt` into event buffer `slot` and appends the
    /// buffer to the queue headed by `h`.
    pub fn cpu2_post_event(&mut self, h: u32, slot: u32, evt: &evt::EvtSerial)
        requires
            old(self).wf(),
            is_queue_head(h),
            old(self).with_cpu2(slot),
            evt.spec_bytes().len() <= SLOT_BYTES,
        ensures
            final(self).wf(),
            final(self).queues() == old(self).queues().insert(h, old(self).queue(h).push(slot)),
            final(self).in_flight() == old(self).in_flight(),
            final(self).slot_bytes(slot) == evt.spec_bytes() + old(self).slot_bytes(slot).subrange(
                evt.spec_bytes().len() as int,
                SLOT_BYTES as int,
            ),
            forall|y: u32| y != slot ==> #[trigger] final(self).slot_bytes(y) == old(self).slot_bytes(y),
            final(self).spec_tables() == old(self).spec_tables(),
    {
        let bytes = evt.to_bytes();
        self.write_slot(slot, &bytes);
        self.push(h, slot, false);
    }

    /// CPU2's side: takes the front buffer off the free buffer queue.
    pub fn cpu2_take_free_buffer(&mut self) -> (r: Option<u32>)
        requires
            old(self).wf(),
        ensures
            final(self).wf(),
            r == (if old(self).queue(FREE_BUF_QUEUE).len() == 0 {
                None::<u32>
            } else {
                Some(old(self).queue(FREE_BUF_QUEUE)[0])
            }),
            final(self).queues() == (if old(self).queue(FREE_BUF_QUEUE).len() == 0 {
                old(self).queues()
            } else {
                old(self).queues().insert(FREE_BUF_QUEUE, old(self).queue(FREE_BUF_QUEUE).drop_first())
            }),
            final(self).in_flight() == old(self).in_flight(),
    {
        self.pop(FREE_BUF_QUEUE, false)
    }
}

/// The mailbox: shared region plus the system and BLE channels.
pub struct TlMbox {
    pub shm: SharedMemory,
    pub sys: sys::Sys,
    pub ble: ble::Ble,
}

/// Configuration of the mailbox.
pub struct TlMboxConfig {
    pub sys_config: sys::Config,
}

/// The tables once the mailbox is set up: system, BLE, memory manager and
/// trace entries filled in, the rest zero.
pub open spec fn initial_ref_table() -> RefTable {
    RefTable {
        sys_table: sys::sys_table(),
        ble_table: ble::ble_table(),
        mem_manager_table: mm::mm_table(),
        traces_table: TracesTable { traces_queue: TRACES_EVT_QUEUE },
        ..zeroed_ref_table()
    }
}

impl TlMbox {
    /// Sets up the transport: zeroes the shared region and its tables,
    /// empties every queue, fills in the tables, enables IPCC clocking and
    /// CPU1's IPCC interrupts, and listens for system and BLE events. CPU2
    /// may be started once this returns.
    pub fn tl_init(rcc: &mut Rcc, ipcc: &mut Ipcc, config: TlMboxConfig) -> (r: TlMbox)
        ensures
            r.shm.wf(),
            forall|h: u32| is_queue_head(h) ==> #[trigger] r.shm.queue(h) == Seq::<u32>::empty(),
            r.shm.in_flight() == Set::<u32>::empty(),
            r.shm.spec_tables() == initial_ref_table(),
            forall|x: u32|
                x < NUM_SLOTS ==> #[trigger] r.shm.slot_bytes(x) == Seq::new(SLOT_BYTES as nat, |i: int| 0u8),
            final(rcc).ipcc_enabled(),
            crate::bits::bit_of(final(ipcc).rb.c1cr, crate::ipcc::CR_RXOIE),
            crate::bits::bit_of(final(ipcc).rb.c1cr, crate::ipcc::CR_TXFIE),
            final(ipcc).c1_rx_enabled(channels::IPCC_SYSTEM_EVENT_CHANNEL),
            final(ipcc).c1_rx_enabled(channels::IPCC_BLE_EVENT_CHANNEL),
            final(ipcc).rb.c1toc2sr == old(ipcc).rb.c1toc2sr,
            final(ipcc).rb.c2toc1sr == old(ipcc).rb.c2toc1sr,
            final(ipcc).rb.c2mr == old(ipcc).rb.c2mr,
    {
        let mut shm = SharedMemory::new();
        ipcc.init(rcc);
        let sys = sys::Sys::new(ipcc, &mut shm, config.sys_config);
        let ble = ble::Ble::new(ipcc, &mut shm);
        let _mm = mm::MemoryManager::new(&mut shm);
        shm.init_queue(TRACES_EVT_QUEUE);
        shm.set_traces_table(TracesTable { traces_queue: TRACES_EVT_QUEUE });
        TlMbox { shm, sys, ble }
    }

    /// CPU1's IPCC receive interrupt. Serves the first pending channel in
    /// the order system events, Thread notification acknowledgement, BLE
    /// events, traces, Thread CLI notification acknowledgement. System and
    /// BLE events are taken off their queue and returned, front first; the
    /// other channels carry nothing this transport handles.
    pub fn interrupt_ipcc_rx_handler(&mut self, ipcc: &mut Ipcc) -> (r: Vec<evt::EvtBox>)
        requires
            old(self).shm.wf(),
        ensures
            final(self).shm.wf(),
            old(ipcc).is_rx_pending_spec(channels::IPCC_SYSTEM_EVENT_CHANNEL) ==> {
                &&& r@.len() == old(self).shm.queue(SYSTEM_EVT_QUEUE).len()
                &&& forall|i: int|
                    0 <= i < r@.len() ==> (#[trigger] r@[i]).slot() == old(self).shm.queue(SYSTEM_EVT_QUEUE)[i]
                &&& final(self).shm.queues() == old(self).shm.queues().insert(
                    SYSTEM_EVT_QUEUE,
                    Seq::<u32>::empty(),
                )
                &&& final(self).shm.in_flight() == old(self).shm.in_flight() + old(self).shm.queue(
                    SYSTEM_EVT_QUEUE,
                ).to_set()
                &&& final(ipcc).rb.is_c1_flag_cleared(old(ipcc).rb, channels::IPCC_SYSTEM_EVENT_CHANNEL)
            },
            !old(ipcc).is_rx_pending_spec(channels::IPCC_SYSTEM_EVENT_CHANNEL) && !old(
                ipcc,
            ).is_rx_pending_spec(channels::IPCC_THREAD_NOTIFICATION_ACK_CHANNEL) && old(
                ipcc,
            ).is_rx_pending_spec(channels::IPCC_BLE_EVENT_CHANNEL) ==> {
                &&& r@.len() == old(self).shm.queue(EVT_QUEUE).len()
                &&& forall|i: int|
                    0 <= i < r@.len() ==> (#[trigger] r@[i]).slot() == old(self).shm.queue(EVT_QUEUE)[i]
                &&& final(self).shm.queues() == old(self).shm.queues().insert(
                    EVT_QUEUE,
                    Seq::<u32>::empty(),
                )
                &&& final(self).shm.in_flight() == old(self).shm.in_flight() + old(self).shm.queue(
                    EVT_QUEUE,
                ).to_set()
                &&& final(ipcc).rb.is_c1_flag_cleared(old(ipcc).rb, channels::IPCC_BLE_EVENT_CHANNEL)
            },
            !old(ipcc).is_rx_pending_spec(channels::IPCC_SYSTEM_EVENT_CHANNEL) && (old(
                ipcc,
            ).is_rx_pending_spec(channels::IPCC_THREAD_NOTIFICATION_ACK_CHANNEL) || !old(
                ipcc,
            ).is_rx_pending_spec(channels::IPCC_BLE_EVENT_CHANNEL)) ==> {
                &&& r@.len() == 0
                &&& final(self).shm.queues() == old(self).shm.queues()
                &&& final(self).shm.in_flight() == old(self).shm.in_flight()
                &&& final(ipcc).rb == old(ipcc).rb
            },
            forall|x: u32| #[trigger] final(self).shm.slot_bytes(x) == old(self).shm.slot_bytes(x),
    {
        if ipcc.is_rx_pending(channels::IPCC_SYSTEM_EVENT_CHANNEL) {
            let r = self.sys.evt_handler(&mut self.shm, ipcc);
            r
        } else if ipcc.is_rx_pending(channels::IPCC_THREAD_NOTIFICATION_ACK_CHANNEL) {
            Vec::new()
        } else if ipcc.is_rx_pending(channels::IPCC_BLE_EVENT_CHANNEL) {
            let r = self.ble.evt_handler(&mut self.shm, ipcc);
            r
        } else {
            Vec::new()
        }
    }

    /// CPU1's IPCC transmit-free interrupt. Serves the first pending channel
    /// in the order system command, Thread command, buffer release, ACL
    /// data, and returns it, or `None` when it is one this transport does
    /// not handle (or none is pending). A system command answer stops the
    /// command's interrupt; a buffer release channel gone idle gets the
    /// buffers released meanwhile; ACL data taken stops its interrupt.
    pub fn interrupt_ipcc_tx_handler(&mut self, ipcc: &mut Ipcc) -> (r: Option<crate::ipcc::IpccChannel>)
        requires
            old(self).shm.wf(),
        ensures
            final(self).shm.wf(),
            final(self).shm.in_flight() == old(self).shm.in_flight(),
            old(ipcc).is_tx_pending_spec(channels::IPCC_SYSTEM_CMD_RSP_CHANNEL) ==> {
                &&& r == Some(channels::IPCC_SYSTEM_CMD_RSP_CHANNEL)
                &&& final(ipcc).rb.is_c1_tx_set(old(ipcc).rb, channels::IPCC_SYSTEM_CMD_RSP_CHANNEL, false)
                &&& final(self).shm.queues() == old(self).shm.queues()
            },
            !old(ipcc).is_tx_pending_spec(channels::IPCC_SYSTEM_CMD_RSP_CHANNEL) && old(
                ipcc,
            ).is_tx_pending_spec(channels::IPCC_THREAD_OT_CMD_RSP_CHANNEL) ==> {
                &&& r == None::<crate::ipcc::IpccChannel>
                &&& final(ipcc).rb == old(ipcc).rb
                &&& final(self).shm.queues() == old(self).shm.queues()
            },
            !old(ipcc).is_tx_pending_spec(channels::IPCC_SYSTEM_CMD_RSP_CHANNEL) && !old(
                ipcc,
            ).is_tx_pending_spec(channels::IPCC_THREAD_OT_CMD_RSP_CHANNEL) && old(
                ipcc,
            ).is_tx_pending_spec(channels::IPCC_MM_RELEASE_BUFFER_CHANNEL) ==> {
                &&& r == Some(channels::IPCC_MM_RELEASE_BUFFER_CHANNEL)
                &&& final(self).shm.queues() == mm::after_send(old(self).shm.queues())
                &&& !final(ipcc).c1_tx_enabled(channels::IPCC_MM_RELEASE_BUFFER_CHANNEL)
                &&& final(ipcc).c1_flag(channels::IPCC_MM_RELEASE_BUFFER_CHANNEL)
            },
            !old(ipcc).is_tx_pending_spec(channels::IPCC_SYSTEM_CMD_RSP_CHANNEL) && !old(
                ipcc,
            ).is_tx_pending_spec(channels::IPCC_THREAD_OT_CMD_RSP_CHANNEL) && !old(
                ipcc,
            ).is_tx_pending_spec(channels::IPCC_MM_RELEASE_BUFFER_CHANNEL) && old(
                ipcc,
            ).is_tx_pending_spec(channels::IPCC_HCI_ACL_DATA_CHANNEL) ==> {
                &&& r == Some(channels::IPCC_HCI_ACL_DATA_CHANNEL)
                &&& final(ipcc).rb.is_c1_tx_set(old(ipcc).rb, channels::IPCC_HCI_ACL_DATA_CHANNEL, false)
                &&& final(self).shm.queues() == old(self).shm.queues()
            },
            !old(ipcc).is_tx_pending_spec(channels::IPCC_SYSTEM_CMD_RSP_CHANNEL) && !old(
                ipcc,
            ).is_tx_pending_spec(channels::IPCC_THREAD_OT_CMD_RSP_CHANNEL) && !old(
                ipcc,
            ).is_tx_pending_spec(channels::IPCC_MM_RELEASE_BUFFER_CHANNEL) && !old(
                ipcc,
            ).is_tx_pending_spec(channels::IPCC_HCI_ACL_DATA_CHANNEL) ==> {
                &&& r == None::<crate::ipcc::IpccChannel>
                &&& final(ipcc).rb == old(ipcc).rb
                &&& final(self).shm.queues() == old(self).shm.queues()
            },
            forall|x: u32| #[trigger] final(self).shm.slot_bytes(x) == old(self).shm.slot_bytes(x),
    {
        if ipcc.is_tx_pending(channels::IPCC_SYSTEM_CMD_RSP_CHANNEL) {
            self.sys.cmd_evt_handler(ipcc);
            Some(channels::IPCC_SYSTEM_CMD_RSP_CHANNEL)
        } else if ipcc.is_tx_pending(channels::IPCC_THREAD_OT_CMD_RSP_CHANNEL) {
            None
        } else if ipcc.is_tx_pending(channels::IPCC_MM_RELEASE_BUFFER_CHANNEL) {
            mm::free_buf_handler(&mut self.shm, ipcc);
            Some(channels::IPCC_MM_RELEASE_BUFFER_CHANNEL)
        } else if ipcc.is_tx_pending(channels::IPCC_HCI_ACL_DATA_CHANNEL) {
            self.ble.acl_data_handler(ipcc);
            Some(channels::IPCC_HCI_ACL_DATA_CHANNEL)
        } else {
            None
        }
    }
}

/// Takes every buffer off the queue headed by `h`, front first, each now
/// held by CPU1 through the `EvtBox` returned for it.
pub(crate) fn drain_events(shm: &mut SharedMemory, h: u32) -> (r: Vec<evt::EvtBox>)
    requires
        old(shm).wf(),
        is_queue_head(h),
    ensures
        final(shm).wf(),
        r@.len() == old(shm).queue(h).len(),
        forall|i: int| 0 <= i < r@.len() ==> (#[trigger] r@[i]).slot() == old(shm).queue(h)[i],
        final(shm).queue(h) == Seq::<u32>::empty(),
        final(shm).queues() == old(shm).queues().insert(h, Seq::<u32>::empty()),
        final(shm).in_flight() == old(shm).in_flight() + old(shm).queue(h).to_set(),
        forall|x: u32| #[trigger] final(shm).slot_bytes(x) == old(shm).slot_bytes(x),
        final(shm).spec_tables() == old(shm).spec_tables(),
{
    let ghost q = shm.queue(h);
    proof {
        shm.lemma_wf();
        assert(q.subrange(0, q.len() as int) =~= q);
        assert(shm.queues().insert(h, q) =~= shm.queues());
    }
    let mut out: Vec<evt::EvtBox> = Vec::new();
    while !shm.is_queue_empty(h)
        invariant
            shm.wf(),
            is_queue_head(h),
            out@.len() <= q.len(),
            forall|i: int| 0 <= i < out@.len() ==> (#[trigger] out@[i]).slot() == q[i],
            shm.queues() == old(shm).queues().insert(h, q.subrange(out@.len() as int, q.len() as int)),
            shm.in_flight() == old(shm).in_flight() + q.subrange(0, out@.len() as int).to_set(),
            forall|x: u32| #[trigger] shm.slot_bytes(x) == old(shm).slot_bytes(x),
            shm.spec_tables() == old(shm).spec_tables(),
        decreases q.len() - out@.len(),
    {
        let ghost k = out@.len() as int;
        let node = shm.pop(h, true);
        match node {
            Some(x) => {
                out.push(evt::EvtBox::new(x));
                proof {
                    assert(q[k] == x);
                    assert(shm.queue(h) =~= q.subrange(k + 1, q.len() as int));
                    assert(shm.queues() =~= old(shm).queues().insert(h, q.subrange(k + 1, q.len() as int)));
                    assert(q.subrange(0, k + 1) =~= q.subrange(0, k).push(x));
                    assert(q.subrange(0, k + 1).to_set() =~= q.subrange(0, k).to_set().insert(x)) by {
                        q.subrange(0, k).lemma_push_to_set_commute(x);
                    }
                    assert(shm.in_flight() =~= old(shm).in_flight() + q.subrange(0, k + 1).to_set());
                }
            },
            None => {},
        }
    }
    proof {
        assert(q.subrange(0, out@.len() as int) =~= q);
        assert(q.subrange(out@.len() as int, q.len() as int) =~= Seq::<u32>::empty());
    }
    out
}

} // verus!
