use stm32wb_hal::rcc::{
    ApbDivider, Config, HDivider, HseDivider, MsiRange, PllConfig, PllSrc, RccExt, RccRegisters,
    StopWakeupClock, SysClkSrc, UsbClkSrc,
};
use stm32wb_hal::time::Hertz;

fn rcc() -> stm32wb_hal::rcc::Rcc {
    RccRegisters { ahb3enr: 0, cfgr: 0 }.constrain()
}

#[test]
fn builders_set_one_field_each() {
    let c = Config::hsi().apb1_div(ApbDivider::Div4).cpu2_hdiv(HDivider::Div2).with_lse();
    assert_eq!(c.sysclk_src, SysClkSrc::Hsi);
    assert_eq!(c.apb1_div, ApbDivider::Div4);
    assert_eq!(c.apb2_div, ApbDivider::NotDivided);
    assert_eq!(c.cpu2_hdiv, HDivider::Div2);
    assert!(c.lse);
    assert!(!c.lsi1);
    assert_eq!(c.usb_src, UsbClkSrc::PllSai1Q);
    let p = Config::pll();
    assert_eq!(p.sysclk_src, SysClkSrc::Pll(PllSrc::Msi(MsiRange::RANGE4M)));
    assert_eq!(p.pll_cfg, PllConfig { m: 1, n: 8, r: 2, q: None, p: None });
    assert!(Config::new(SysClkSrc::Hsi).with_lsi1().lsi1);
}

#[test]
fn divider_values() {
    assert_eq!(ApbDivider::Div16.divisor(), 16);
    assert_eq!(ApbDivider::Div2.bits(), 0b100);
    assert_eq!(HDivider::Div10.divisor(), 10);
    assert_eq!(HDivider::Div512.divisor(), 512);
    assert_eq!(HDivider::Div3.bits(), 0b0001);
}

#[test]
fn hse_system_clock() {
    let mut r = rcc();
    let plan = r
        .apply_clock_config(Config::hse_sys(HseDivider::Div2).apb2_div(ApbDivider::Div2))
        .unwrap();
    assert_eq!(r.clocks.sysclk(), Hertz(16_000_000));
    assert_eq!(r.clocks.pclk1(), Hertz(16_000_000));
    assert_eq!(r.clocks.pclk2(), Hertz(8_000_000));
    assert_eq!(r.clocks.hse, Some(Hertz(32_000_000)));
    assert_eq!(plan.sysclk_bits, 0b10);
    assert_eq!(plan.flash_latency, 0);
    assert!(plan.hse_on && plan.hse_divided);
    assert!(plan.pll.is_none());
    assert_eq!(plan.ppre2, 0b100);
}

#[test]
fn pll_from_hsi_at_64_mhz() {
    let mut r = rcc();
    let cfg = Config::new(SysClkSrc::Pll(PllSrc::Hsi))
        .pll_cfg(PllConfig { m: 2, n: 16, r: 2, q: Some(4), p: None })
        .usb_src(UsbClkSrc::PllQ)
        .cpu2_hdiv(HDivider::Div2);
    let plan = r.apply_clock_config(cfg).unwrap();
    assert_eq!(r.clocks.sysclk(), Hertz(64_000_000));
    assert_eq!(r.clocks.hclk2, Hertz(32_000_000));
    assert_eq!(r.clocks.pllq, Some(Hertz(32_000_000)));
    assert_eq!(r.clocks.clk48, Some(Hertz(32_000_000)));
    assert_eq!(plan.flash_latency, 3);
    assert_eq!(plan.sysclk_bits, 0b11);
    let pll = plan.pll.unwrap();
    assert_eq!((pll.src_bits, pll.pllm, pll.plln, pll.pllr, pll.pllq), (0b10, 1, 16, 1, Some(3)));
}

#[test]
fn unsupported_configs_change_nothing() {
    let mut r = rcc();
    assert!(r.apply_clock_config(Config::hsi()).is_none());
    assert!(r.apply_clock_config(Config::pll()).is_none());
    let too_fast = Config::new(SysClkSrc::Pll(PllSrc::Hse(HseDivider::NotDivided)))
        .pll_cfg(PllConfig { m: 1, n: 8, r: 2, q: None, p: None });
    assert!(r.apply_clock_config(too_fast).is_none());
    let bad_r = Config::new(SysClkSrc::Pll(PllSrc::Hsi))
        .pll_cfg(PllConfig { m: 1, n: 8, r: 9, q: None, p: None });
    assert!(r.apply_clock_config(bad_r).is_none());
    assert_eq!(r.clocks.sysclk(), Hertz(4_000_000));
    assert_eq!(r.clocks.lsi(), Hertz(32_000));
    assert_eq!(r.clocks.hsi16(), Hertz(16_000_000));
    assert_eq!(r.clocks.lse(), None);
    assert_eq!(r.clocks.lptim1(), Hertz(4_000_000));
    assert_eq!(r.clocks.lptim2(), Hertz(4_000_000));
}

#[test]
fn clock_gates_and_wakeup_clock() {
    let mut r = rcc();
    r.set_ipcc(true);
    assert_eq!(r.rb.ahb3enr, 1 << 20);
    r.set_stop_wakeup_clock(StopWakeupClock::HSI16);
    assert_eq!(r.rb.cfgr, 1 << 15);
    r.set_stop_wakeup_clock(StopWakeupClock::MSI);
    assert_eq!(r.rb.cfgr, 0);
    r.set_ipcc(false);
    assert_eq!(r.rb.ahb3enr, 0);
}
