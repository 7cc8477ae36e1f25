use stm32wb_hal::dma::{Direction, Priority, WordSize};
use stm32wb_hal::dmamux::{DmaMuxIndex, DmaMuxTriggerSync};
use stm32wb_hal::flash::{Error, FlashPage, FlashProgramming};
use stm32wb_hal::ipcc::{Ipcc, IpccChannel, IpccExt, IpccRegisters};
use stm32wb_hal::rtc::{bcd2_to_byte, byte_to_bcd2};
use stm32wb_hal::tl_mbox::divc;

fn regs() -> IpccRegisters {
    IpccRegisters { c1cr: 0, c1mr: 0, c2cr: 0, c2mr: 0, c1toc2sr: 0, c2toc1sr: 0 }
}

#[test]
fn doorbell_register_bits() {
    let mut ipcc: Ipcc = regs().constrain();
    ipcc.c1_set_rx_channel(IpccChannel::Channel3, false);
    assert_eq!(ipcc.rb.c1mr, 0x0000_0004);
    ipcc.c1_set_tx_channel(IpccChannel::Channel2, false);
    assert_eq!(ipcc.rb.c1mr, 0x0002_0004);
    ipcc.c1_set_rx_channel(IpccChannel::Channel3, true);
    assert_eq!(ipcc.rb.c1mr, 0x0002_0000);
    ipcc.c2_set_tx_channel(IpccChannel::Channel6, false);
    assert_eq!(ipcc.rb.c2mr, 0x0020_0000);
    ipcc.c2_set_rx_channel(IpccChannel::Channel1, false);
    assert_eq!(ipcc.rb.c2mr, 0x0020_0001);
    ipcc.c1_set_flag_channel(IpccChannel::Channel5);
    assert_eq!(ipcc.rb.c1toc2sr, 0x10);
    assert!(ipcc.c1_is_active_flag(IpccChannel::Channel5));
    ipcc.c2_clear_flag_channel(IpccChannel::Channel5);
    assert_eq!(ipcc.rb.c1toc2sr, 0);
    ipcc.c2_set_flag_channel(IpccChannel::Channel4);
    assert!(ipcc.c2_is_active_flag(IpccChannel::Channel4));
    ipcc.c1_clear_flag_channel(IpccChannel::Channel4);
    assert!(!ipcc.c2_is_active_flag(IpccChannel::Channel4));
}

#[test]
fn pending_combines_flag_and_mask() {
    let mut ipcc: Ipcc = regs().constrain();
    assert!(ipcc.is_tx_pending(IpccChannel::Channel1));
    ipcc.c1_set_flag_channel(IpccChannel::Channel1);
    assert!(!ipcc.is_tx_pending(IpccChannel::Channel1));
    assert!(!ipcc.is_rx_pending(IpccChannel::Channel2));
    ipcc.c2_set_flag_channel(IpccChannel::Channel2);
    assert!(ipcc.is_rx_pending(IpccChannel::Channel2));
    ipcc.c1_set_rx_channel(IpccChannel::Channel2, false);
    assert!(!ipcc.is_rx_pending(IpccChannel::Channel2));
}

#[test]
fn reset_masks_and_clears_every_channel() {
    let mut ipcc = Ipcc {
        rb: IpccRegisters {
            c1cr: 0x0001_0001,
            c1mr: 0,
            c2cr: 0,
            c2mr: 0,
            c1toc2sr: 0x3F,
            c2toc1sr: 0x3F,
        },
    };
    ipcc.reset();
    assert_eq!(ipcc.rb.c1mr, 0x003F_003F);
    assert_eq!(ipcc.rb.c2mr, 0x003F_003F);
    assert_eq!(ipcc.rb.c1toc2sr, 0);
    assert_eq!(ipcc.rb.c2toc1sr, 0);
    assert_eq!(ipcc.rb.c1cr, 0x0001_0001);
}

#[test]
fn channel_iterator_walks_six_channels() {
    let mut it = IpccChannel::iterator();
    let mut seen = Vec::new();
    while let Some(ch) = it.next() {
        seen.push(ch.index());
    }
    assert_eq!(seen, vec![0, 1, 2, 3, 4, 5]);
    assert_eq!(it.next(), None);
}

#[test]
fn bcd_conversions() {
    assert_eq!(byte_to_bcd2(59), (5, 0x59));
    assert_eq!(byte_to_bcd2(7), (0, 0x07));
    assert_eq!(byte_to_bcd2(0), (0, 0));
    assert_eq!(bcd2_to_byte((5, 9)), 59);
    assert_eq!(bcd2_to_byte((2, 3)), 23);
}

#[test]
fn flash_page_addresses_and_status() {
    assert_eq!(FlashPage(0).to_address(), 0x0800_0000);
    assert_eq!(FlashPage(2).to_address(), 0x0800_2000);
    assert_eq!(FlashProgramming::status(0), Ok(()));
    assert_eq!(FlashProgramming::status(1 << 16), Err(Error::Busy));
    assert_eq!(FlashProgramming::status((1 << 16) | (1 << 5)), Err(Error::Busy));
    assert_eq!(FlashProgramming::status(1 << 5), Err(Error::Illegal));
    assert_eq!(FlashProgramming::status(1 << 4), Err(Error::Illegal));
    assert_eq!(FlashProgramming::status(1 << 3), Err(Error::Illegal));
    assert_eq!(FlashProgramming::status(1), Ok(()));
}

#[test]
fn flash_write_splits_into_double_words() {
    let plan = FlashProgramming::write_plan(0x0800_0005, &[1, 2, 3, 4, 5, 6, 7, 8, 9, 10, 11, 12]);
    assert_eq!(
        plan,
        vec![
            (0x0800_0000, 0x0302_01FF_FFFF_FFFF),
            (0x0800_0008, 0x0B0A_0908_0706_0504),
            (0x0800_0010, 0xFFFF_FFFF_FFFF_FF0C),
        ]
    );
    let aligned = FlashProgramming::write_plan(0x0800_0010, &[0xAA; 8]);
    assert_eq!(aligned, vec![(0x0800_0010, 0xAAAA_AAAA_AAAA_AAAA)]);
    assert!(FlashProgramming::write_plan(0x0800_0010, &[]).is_empty());
}

#[test]
fn dma_field_values() {
    assert_eq!(u8::from(Priority::Low), 0);
    assert_eq!(u8::from(Priority::VeryHigh), 3);
    assert!(bool::from(Direction::FromMemory));
    assert!(!bool::from(Direction::FromPeripheral));
    assert_eq!(u8::from(WordSize::BITS32), 2);
    assert_eq!(DmaMuxIndex::I2C3_TX.val(), 13);
    assert_eq!(DmaMuxIndex::dmamux_req_gen0.val(), 1);
    assert_eq!(DmaMuxTriggerSync::LPTIM2_OUT.val(), 19);
}

#[test]
fn rounding_up_division() {
    assert_eq!(divc(266, 4), 67);
    assert_eq!(divc(8, 4), 2);
    assert_eq!(divc(0, 4), 0);
}

