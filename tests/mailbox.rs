use stm32wb_hal::ipcc::{Ipcc, IpccChannel, IpccRegisters};
use stm32wb_hal::rcc::{Rcc, RccExt, RccRegisters};
use stm32wb_hal::tl_mbox::channels::{
    IPCC_MM_RELEASE_BUFFER_CHANNEL, IPCC_SYSTEM_CMD_RSP_CHANNEL, IPCC_SYSTEM_EVENT_CHANNEL,
};
use stm32wb_hal::tl_mbox::cmd::{Cmd, CmdSerial};
use stm32wb_hal::tl_mbox::evt::{EvtBox, Evt, EvtSerial};
use stm32wb_hal::tl_mbox::mm::evt_drop;
use stm32wb_hal::tl_mbox::sys::Config;
use stm32wb_hal::tl_mbox::{
    TlMbox, TlMboxConfig, EVT_POOL, EVT_QUEUE, FREE_BUF_QUEUE, LOCAL_FREE_BUF_QUEUE,
    SYSTEM_EVT_QUEUE, SYS_CMD_BUF,
};

fn masked_ipcc() -> Ipcc {
    Ipcc {
        rb: IpccRegisters {
            c1cr: 0,
            c1mr: 0xFFFF_FFFF,
            c2cr: 0,
            c2mr: 0xFFFF_FFFF,
            c1toc2sr: 0,
            c2toc1sr: 0,
        },
    }
}

fn setup() -> (Rcc, Ipcc, TlMbox) {
    let mut rcc = RccRegisters { ahb3enr: 0, cfgr: 0 }.constrain();
    let mut ipcc = masked_ipcc();
    let mbox = TlMbox::tl_init(&mut rcc, &mut ipcc, TlMboxConfig { sys_config: Config {} });
    (rcc, ipcc, mbox)
}

fn event(kind: u8, code: u8, payload: Vec<u8>) -> EvtSerial {
    EvtSerial {
        kind,
        evt: Evt { evt_code: code, payload_len: payload.len() as u8, payload },
    }
}

fn one_system_event(ipcc: &mut Ipcc, mbox: &mut TlMbox, slot: u32, code: u8) -> EvtBox {
    mbox.shm.cpu2_post_event(SYSTEM_EVT_QUEUE, slot, &event(0x12, code, vec![code]));
    ipcc.c2_set_flag_channel(IPCC_SYSTEM_EVENT_CHANNEL);
    let mut got = mbox.interrupt_ipcc_rx_handler(ipcc);
    assert_eq!(got.len(), 1);
    got.pop().unwrap()
}

#[test]
fn init_enables_clock_interrupts_and_event_channels() {
    let (rcc, ipcc, mbox) = setup();
    assert_eq!(rcc.rb.ahb3enr, 1 << 20);
    assert_eq!(ipcc.rb.c1cr, 0x0001_0001);
    assert!(ipcc.c1_get_rx_channel(IpccChannel::Channel1));
    assert!(ipcc.c1_get_rx_channel(IpccChannel::Channel2));
    assert!(!ipcc.c1_get_rx_channel(IpccChannel::Channel3));
    for h in [FREE_BUF_QUEUE, LOCAL_FREE_BUF_QUEUE, SYSTEM_EVT_QUEUE, EVT_QUEUE].iter() {
        assert!(mbox.shm.is_queue_empty(*h));
    }
    let t = mbox.shm.tables();
    assert_eq!(t.sys_table.pcmd_buffer, SYS_CMD_BUF);
    assert_eq!(t.sys_table.sys_queue, SYSTEM_EVT_QUEUE);
    assert_eq!(t.mem_manager_table.pevt_free_buffer_queue, FREE_BUF_QUEUE);
    assert_eq!(t.mem_manager_table.blepool, EVT_POOL);
    assert_eq!(t.mem_manager_table.blepoolsize, 1340);
    assert_eq!(t.ble_table.pevt_queue, EVT_QUEUE);
    assert_eq!(t.thread_table.nostack_buffer, 0);
}

#[test]
fn system_command_and_event_round_trip() {
    let (_rcc, mut ipcc, mut mbox) = setup();
    let mut payload = [0u8; 255];
    payload[0] = 0xAB;
    let cmd = CmdSerial { ty: 0x01, cmd: Cmd { cmd_code: 0xFC0C, payload_len: 1, payload } };
    mbox.sys.send_cmd(&mut mbox.shm, &mut ipcc, &cmd);
    assert!(ipcc.c1_is_active_flag(IpccChannel::Channel2));
    assert!(ipcc.c1_get_tx_channel(IpccChannel::Channel2));
    let written = mbox.shm.read_slot(SYS_CMD_BUF);
    assert_eq!(&written[..5], &[0x01, 0x0C, 0xFC, 0x01, 0xAB]);

    // The co-processor raises its doorbell on channel 2 and queues one event.
    ipcc.c2_set_flag_channel(IpccChannel::Channel2);
    mbox.shm.cpu2_post_event(SYSTEM_EVT_QUEUE, EVT_POOL, &event(0x12, 0x0E, vec![1, 2, 3]));
    assert!(ipcc.is_rx_pending(IpccChannel::Channel2));

    let boxes = mbox.interrupt_ipcc_rx_handler(&mut ipcc);
    assert_eq!(boxes.len(), 1);
    let e = boxes[0].evt(&mbox.shm);
    assert_eq!(e.kind(), 0x12);
    assert_eq!(e.evt().evt_code, 0x0E);
    assert_eq!(e.evt().payload, vec![1, 2, 3]);
    assert!(!ipcc.c2_is_active_flag(IpccChannel::Channel2));
    assert!(mbox.shm.is_queue_empty(SYSTEM_EVT_QUEUE));

    // CPU2 takes the command: its flag clears and the transmit-free
    // interrupt reports the system command channel.
    ipcc.c2_clear_flag_channel(IPCC_SYSTEM_CMD_RSP_CHANNEL);
    assert_eq!(mbox.interrupt_ipcc_tx_handler(&mut ipcc), Some(IpccChannel::Channel2));
    assert!(!ipcc.c1_get_tx_channel(IpccChannel::Channel2));
    for b in boxes {
        evt_drop(b, &mut mbox.shm, &mut ipcc);
    }
}

#[test]
fn release_while_busy_waits_for_the_channel() {
    let (_rcc, mut ipcc, mut mbox) = setup();
    let b1 = one_system_event(&mut ipcc, &mut mbox, EVT_POOL, 7);
    // A previous release is still pending on the release channel.
    ipcc.c1_set_flag_channel(IPCC_MM_RELEASE_BUFFER_CHANNEL);
    evt_drop(b1, &mut mbox.shm, &mut ipcc);
    assert!(mbox.shm.is_queue_empty(FREE_BUF_QUEUE));
    assert!(!mbox.shm.is_queue_empty(LOCAL_FREE_BUF_QUEUE));
    assert!(ipcc.c1_get_tx_channel(IpccChannel::Channel4));
    assert_eq!(mbox.interrupt_ipcc_tx_handler(&mut ipcc), None);
    assert!(mbox.shm.is_queue_empty(FREE_BUF_QUEUE));

    // CPU2 takes the previous release: the channel is ready.
    ipcc.c2_clear_flag_channel(IPCC_MM_RELEASE_BUFFER_CHANNEL);
    assert_eq!(mbox.interrupt_ipcc_tx_handler(&mut ipcc), Some(IpccChannel::Channel4));
    assert!(mbox.shm.is_queue_empty(LOCAL_FREE_BUF_QUEUE));
    assert!(!ipcc.c1_get_tx_channel(IpccChannel::Channel4));
    assert!(ipcc.c1_is_active_flag(IpccChannel::Channel4));
    assert_eq!(mbox.shm.cpu2_take_free_buffer(), Some(EVT_POOL));
    assert_eq!(mbox.shm.cpu2_take_free_buffer(), None);
}

#[test]
fn release_while_idle_goes_straight_to_the_free_queue() {
    let (_rcc, mut ipcc, mut mbox) = setup();
    let b = one_system_event(&mut ipcc, &mut mbox, EVT_POOL + 1, 3);
    evt_drop(b, &mut mbox.shm, &mut ipcc);
    assert!(mbox.shm.is_queue_empty(LOCAL_FREE_BUF_QUEUE));
    assert!(ipcc.c1_is_active_flag(IpccChannel::Channel4));
    assert_eq!(mbox.shm.cpu2_take_free_buffer(), Some(EVT_POOL + 1));
}

#[test]
fn reading_an_event_many_times_releases_it_once() {
    let (_rcc, mut ipcc, mut mbox) = setup();
    let b = one_system_event(&mut ipcc, &mut mbox, EVT_POOL + 2, 0x44);
    for _ in 0..5 {
        assert_eq!(b.evt(&mbox.shm).evt().evt_code, 0x44);
        assert!(mbox.shm.is_queue_empty(FREE_BUF_QUEUE));
        assert!(mbox.shm.is_queue_empty(LOCAL_FREE_BUF_QUEUE));
    }
    evt_drop(b, &mut mbox.shm, &mut ipcc);
    assert_eq!(mbox.shm.cpu2_take_free_buffer(), Some(EVT_POOL + 2));
    assert_eq!(mbox.shm.cpu2_take_free_buffer(), None);
}

#[test]
fn events_come_out_in_the_order_they_were_queued() {
    let (_rcc, mut ipcc, mut mbox) = setup();
    let slots = [EVT_POOL + 3, EVT_POOL, EVT_POOL + 4, EVT_POOL + 1];
    for (i, s) in slots.iter().enumerate() {
        let payload: Vec<u8> = (0..(i as u8 + 2)).map(|k| k * 17 + i as u8).collect();
        mbox.shm.cpu2_post_event(EVT_QUEUE, *s, &event(0x04, 0x30 + i as u8, payload));
    }
    ipcc.c2_set_flag_channel(IpccChannel::Channel1);
    let boxes = mbox.interrupt_ipcc_rx_handler(&mut ipcc);
    assert_eq!(boxes.len(), 4);
    for (i, b) in boxes.iter().enumerate() {
        assert_eq!(b.slot_number(), slots[i]);
        let e = b.evt(&mbox.shm);
        assert_eq!(e.evt().evt_code, 0x30 + i as u8);
        let expect: Vec<u8> = (0..(i as u8 + 2)).map(|k| k * 17 + i as u8).collect();
        assert_eq!(e.evt().payload, expect);
    }
    assert!(!ipcc.c2_is_active_flag(IpccChannel::Channel1));
}

#[test]
fn rx_handler_without_pending_channel_does_nothing() {
    let (_rcc, mut ipcc, mut mbox) = setup();
    mbox.shm.cpu2_post_event(SYSTEM_EVT_QUEUE, EVT_POOL, &event(0x12, 1, vec![]));
    let before = ipcc.rb;
    let got = mbox.interrupt_ipcc_rx_handler(&mut ipcc);
    assert!(got.is_empty());
    assert_eq!(ipcc.rb, before);
    assert!(!mbox.shm.is_queue_empty(SYSTEM_EVT_QUEUE));
}
