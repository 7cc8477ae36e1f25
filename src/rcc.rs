//! Reset and clock control.

use vstd::prelude::*;
use crate::bits::{bit_of, bit_replaced, write_bit};
use crate::time::Hertz;

pub mod config;
pub mod mux;

pub use config::{
    ApbDivider, Config, HDivider, HseDivider, MsiRange, PllConfig, StopWakeupClock,
    default_config, default_pll_config,
};
pub use mux::{PllSrc, SysClkSrc, UsbClkSrc};

verus! {

/// HSI frequency.
pub const HSI_FREQ: u32 = 16_000_000;

/// On WB55 HSE frequency is fixed with 32 MHz.
pub const HSE_FREQ: u32 = 32_000_000;

/// LSE crystal frequency.
pub const LSE_FREQ: u32 = 32_768;

/// IPCC clock enable bit of AHB3ENR.
pub const AHB3ENR_IPCCEN: u32 = 20;

/// STOP-mode wake-up clock selection bit of CFGR.
pub const CFGR_STOPWUCK: u32 = 15;

/// Image of the RCC registers that hold state the library changes.
#[derive(Debug, Copy, Clone, PartialEq, Eq, Structural)]
pub struct RccRegisters {
    pub ahb3enr: u32,
    pub cfgr: u32,
}

/// Reset and clock control: the register image, the configuration last
/// applied and the clock frequencies that result from it.
pub struct Rcc {
    pub clocks: Clocks,
    pub config: Config,
    pub rb: RccRegisters,
}

impl Rcc {
    /// The IPCC peripheral clock is on.
    pub open spec fn ipcc_enabled(&self) -> bool {
        bit_of(self.rb.ahb3enr, AHB3ENR_IPCCEN)
    }

    /// Enables or disables IPCC peripheral clock.
    pub fn set_ipcc(&mut self, enabled: bool)
        ensures
            bit_replaced(final(self).rb.ahb3enr, old(self).rb.ahb3enr, AHB3ENR_IPCCEN, enabled),
            final(self).rb.cfgr == old(self).rb.cfgr,
            final(self).clocks == old(self).clocks,
            final(self).config == old(self).config,
            final(self).ipcc_enabled() == enabled,
    {
        self.rb.ahb3enr = write_bit(self.rb.ahb3enr, AHB3ENR_IPCCEN, enabled);
    }

    /// Sets default clock source after exit from STOP modes.
    pub fn set_stop_wakeup_clock(&mut self, stop_wakeup_clock: StopWakeupClock)
        ensures
            bit_replaced(
                final(self).rb.cfgr,
                old(self).rb.cfgr,
                CFGR_STOPWUCK,
                stop_wakeup_clock == StopWakeupClock::HSI16,
            ),
            final(self).rb.ahb3enr == old(self).rb.ahb3enr,
            final(self).clocks == old(self).clocks,
            final(self).config == old(self).config,
    {
        let bit = match stop_wakeup_clock {
            StopWakeupClock::MSI => false,
            StopWakeupClock::HSI16 => true,
        };
        self.rb.cfgr = write_bit(self.rb.cfgr, CFGR_STOPWUCK, bit);
    }
}

/// Wraps a register image into the clock control, with the power-on
/// clocks and the default configuration.
pub trait RccExt {
    fn constrain(self) -> Rcc;
}

impl RccExt for RccRegisters {
    fn constrain(self) -> Rcc {
        Rcc { clocks: Clocks::default(), config: Config::default(), rb: self }
    }
}

/// Frozen clock frequencies.
#[derive(Clone, Copy, Debug, PartialEq, Eq, Structural)]
pub struct Clocks {
    pub sysclk: Hertz,
    pub hclk1: Hertz,
    pub hclk2: Hertz,
    pub hclk4: Hertz,
    pub systick: Hertz,
    pub lse: Option<Hertz>,
    pub hse: Option<Hertz>,
    pub pclk1: Hertz,
    pub tim_pclk1: Hertz,
    pub pclk2: Hertz,
    pub tim_pclk2: Hertz,
    pub lsi: Hertz,
    pub rtcclk: Hertz,
    pub rng: Option<Hertz>,
    pub adc: Option<Hertz>,
    pub clk48: Option<Hertz>,
    pub sai1: Option<Hertz>,
    pub i2c1: Hertz,
    pub i2c3: Hertz,
    pub usart1: Hertz,
    pub lpuart1: Hertz,
    pub lptim1: Hertz,
    pub lptim2: Hertz,
    pub pllclk: Option<Hertz>,
    pub pllq: Option<Hertz>,
    pub pllp: Option<Hertz>,
}

/// Clock frequencies right after power-on reset: 4 MHz from MSI everywhere,
/// LSI at 32 kHz, everything optional off.
pub open spec fn reset_clocks() -> Clocks {
    Clocks {
        sysclk: Hertz(4_000_000),
        hclk1: Hertz(4_000_000),
        hclk2: Hertz(4_000_000),
        hclk4: Hertz(4_000_000),
        systick: Hertz(4_000_000),
        lse: None,
        hse: None,
        pclk1: Hertz(4_000_000),
        tim_pclk1: Hertz(4_000_000),
        pclk2: Hertz(4_000_000),
        tim_pclk2: Hertz(4_000_000),
        lsi: Hertz(32_000),
        rtcclk: Hertz(32_000),
        rng: None,
        adc: None,
        clk48: None,
        sai1: None,
        i2c1: Hertz(4_000_000),
        i2c3: Hertz(4_000_000),
        usart1: Hertz(4_000_000),
        lpuart1: Hertz(4_000_000),
        lptim1: Hertz(4_000_000),
        lptim2: Hertz(4_000_000),
        pllclk: None,
        pllq: None,
        pllp: None,
    }
}

impl Default for Clocks {
    /// Default clock frequencies right after power-on reset.
    fn default() -> (r: Self)
        ensures
            r == reset_clocks(),
    {
        Clocks {
            sysclk: Hertz(4_000_000),
            hclk1: Hertz(4_000_000),
            hclk2: Hertz(4_000_000),
            hclk4: Hertz(4_000_000),
            systick: Hertz(4_000_000),
            lse: None,
            hse: None,
            pclk1: Hertz(4_000_000),
            tim_pclk1: Hertz(4_000_000),
            pclk2: Hertz(4_000_000),
            tim_pclk2: Hertz(4_000_000),
            lsi: Hertz(32_000),
            rtcclk: Hertz(32_000),
            rng: None,
            adc: None,
            clk48: None,
            sai1: None,
            i2c1: Hertz(4_000_000),
            i2c3: Hertz(4_000_000),
            usart1: Hertz(4_000_000),
            lpuart1: Hertz(4_000_000),
            lptim1: Hertz(4_000_000),
            lptim2: Hertz(4_000_000),
            pllclk: None,
            pllq: None,
            pllp: None,
        }
    }
}

impl Clocks {
    /// Returns the system (core) frequency
    pub fn sysclk(&self) -> (r: Hertz)
        ensures
            r == self.sysclk,
    {
        self.sysclk
    }

    pub fn pclk1(&self) -> (r: Hertz)
        ensures
            r == self.pclk1,
    {
        self.pclk1
    }

    pub fn pclk2(&self) -> (r: Hertz)
        ensures
            r == self.pclk2,
    {
        self.pclk2
    }

    pub fn lsi(&self) -> (r: Hertz)
        ensures
            r == self.lsi,
    {
        self.lsi
    }

    pub fn lse(&self) -> (r: Option<Hertz>)
        ensures
            r == self.lse,
    {
        self.lse
    }

    /// The HSI oscillator frequency, fixed at 16 MHz.
    pub fn hsi16(&self) -> (r: Hertz)
        ensures
            r == Hertz(HSI_FREQ),
    {
        Hertz(HSI_FREQ)
    }

    pub fn lptim1(&self) -> (r: Hertz)
        ensures
            r == self.lptim1,
    {
        self.lptim1
    }

    pub fn lptim2(&self) -> (r: Hertz)
        ensures
            r == self.lptim2,
    {
        self.lptim2
    }
}

/// Frequency HSE delivers through `div`.
pub open spec fn hse_freq(div: HseDivider) -> u32 {
    match div {
        HseDivider::NotDivided => HSE_FREQ,
        HseDivider::Div2 => HSE_FREQ / 2,
    }
}

/// Frequency entering the PLL from `src`; `None` for MSI, whose range
/// setup is not supported.
pub open spec fn pll_input(src: PllSrc) -> Option<u32> {
    match src {
        PllSrc::Msi(_) => None,
        PllSrc::Hsi => Some(HSI_FREQ),
        PllSrc::Hse(d) => Some(hse_freq(d)),
    }
}

/// The PLL factors lie in the ranges the hardware takes.
pub open spec fn pll_factors_ok(cfg: PllConfig) -> bool {
    &&& 1 <= cfg.m <= 8
    &&& 8 <= cfg.n <= 86
    &&& 2 <= cfg.r <= 8
    &&& (cfg.p matches Some(p) ==> 2 <= p <= 32)
    &&& (cfg.q matches Some(q) ==> 2 <= q <= 8)
}

/// VCO frequency for input `f_in`: divided by `m`, then multiplied by `n`.
pub open spec fn vco(f_in: u32, cfg: PllConfig) -> int {
    ((f_in as int) / (cfg.m as int)) * (cfg.n as int)
}

/// The PLL can run with `cfg` from `f_in`: factors in range and every
/// enabled output at most 64 MHz.
pub open spec fn pll_ok(f_in: u32, cfg: PllConfig) -> bool {
    &&& pll_factors_ok(cfg)
    &&& vco(f_in, cfg) / (cfg.r as int) <= 64_000_000
    &&& (cfg.p matches Some(p) ==> vco(f_in, cfg) / (p as int) <= 64_000_000)
    &&& (cfg.q matches Some(q) ==> vco(f_in, cfg) / (q as int) <= 64_000_000)
}

/// The PLL's fields in the PLLCFGR register, and the output frequencies.
#[derive(Debug, Copy, Clone, PartialEq, Eq, Structural)]
pub struct PllSetup {
    pub src_bits: u8,
    pub pllm: u8,
    pub plln: u8,
    pub pllr: u8,
    pub pllp: Option<u8>,
    pub pllq: Option<u8>,
    pub f_pllr: u32,
    pub f_pllp: Option<u32>,
    pub f_pllq: Option<u32>,
}

/// SYSCLK source selection field value: 2 for HSE, 3 for the PLL.
pub open spec fn sysclk_bits(src: SysClkSrc) -> u8 {
    match src {
        SysClkSrc::HseSys(_) => 2,
        _ => 3,
    }
}

/// Flash wait states needed at `f` hertz.
pub open spec fn flash_latency(f: u32) -> u8 {
    if f <= 18_000_000 {
        0
    } else if f <= 36_000_000 {
        1
    } else if f <= 54_000_000 {
        2
    } else {
        3
    }
}

/// Everything the hardware has to be told to apply a configuration, as
/// plain field values.
#[derive(Debug, Copy, Clone, PartialEq, Eq, Structural)]
pub struct ClockPlan {
    pub lse_on: bool,
    pub lsi1_off: bool,
    pub hse_on: bool,
    pub hse_divided: bool,
    pub pll: Option<PllSetup>,
    pub sysclk_bits: u8,
    pub flash_latency: u8,
    pub cpu1_hpre: u8,
    pub cpu2_hpre: u8,
    pub shd_hpre: u8,
    pub ppre1: u8,
    pub ppre2: u8,
    pub clk48sel: u8,
}

/// The configuration can be applied: SYSCLK from HSE, or from a PLL fed by
/// HSI or HSE whose factors and outputs are in range.
pub open spec fn config_supported(config: Config) -> bool {
    match config.sysclk_src {
        SysClkSrc::HseSys(_) => true,
        SysClkSrc::Pll(src) => match pll_input(src) {
            Some(f) => pll_ok(f, config.pll_cfg),
            None => false,
        },
        _ => false,
    }
}

/// SYSCLK frequency of a supported configuration.
pub open spec fn sysclk_of(config: Config) -> u32 {
    match config.sysclk_src {
        SysClkSrc::HseSys(d) => hse_freq(d),
        SysClkSrc::Pll(src) => (vco(pll_input(src).unwrap(), config.pll_cfg) / (config.pll_cfg.r as int)) as u32,
        _ => 0,
    }
}

/// The PLL takes its input from HSE.
pub open spec fn uses_hse(config: Config) -> bool {
    match config.sysclk_src {
        SysClkSrc::HseSys(_) => true,
        SysClkSrc::Pll(PllSrc::Hse(_)) => true,
        _ => false,
    }
}

/// The clocks after applying a supported `config` to clocks `c`.
pub open spec fn clocks_after(config: Config, c: Clocks) -> Clocks {
    let f = sysclk_of(config);
    let pll = match config.sysclk_src {
        SysClkSrc::Pll(src) => Some(vco(pll_input(src).unwrap(), config.pll_cfg)),
        _ => None,
    };
    let pllp = match (pll, config.pll_cfg.p) {
        (Some(v), Some(p)) => Some(Hertz((v / (p as int)) as u32)),
        _ => c.pllp,
    };
    let pllq = match (pll, config.pll_cfg.q) {
        (Some(v), Some(q)) => Some(Hertz((v / (q as int)) as u32)),
        _ => c.pllq,
    };
    let hclk1 = (f / config.cpu1_hdiv.spec_divisor()) as u32;
    Clocks {
        lse: if config.lse {
            Some(Hertz(LSE_FREQ))
        } else {
            c.lse
        },
        hse: if uses_hse(config) {
            Some(Hertz(HSE_FREQ))
        } else {
            c.hse
        },
        pllclk: if pll is Some {
            Some(Hertz(f))
        } else {
            c.pllclk
        },
        pllp,
        pllq,
        sysclk: Hertz(f),
        hclk1: Hertz(hclk1),
        hclk2: Hertz((f / config.cpu2_hdiv.spec_divisor()) as u32),
        hclk4: Hertz((f / config.hclk_hdiv.spec_divisor()) as u32),
        pclk1: Hertz((hclk1 / config.apb1_div.spec_divisor()) as u32),
        pclk2: Hertz((hclk1 / config.apb2_div.spec_divisor()) as u32),
        clk48: if config.usb_src == UsbClkSrc::PllQ {
            pllq
        } else {
            None
        },
        ..c
    }
}

/// Frequency HSE delivers through `div`.
pub fn hse_frequency(div: &HseDivider) -> (r: u32)
    ensures
        r == hse_freq(*div),
{
    match div {
        HseDivider::NotDivided => HSE_FREQ,
        HseDivider::Div2 => HSE_FREQ / 2,
    }
}

/// Checks the PLL factors against the hardware ranges and computes the
/// PLLCFGR fields and output frequencies for input `f_in`; `None` when a
/// factor is out of range or an output would exceed 64 MHz.
pub fn pll_setup(f_in: u32, src_bits: u8, cfg: &PllConfig) -> (r: Option<PllSetup>)
    requires
        f_in <= HSE_FREQ,
    ensures
        r is Some <==> pll_ok(f_in, *cfg),
        r matches Some(s) ==> {
            &&& s.src_bits == src_bits
            &&& s.pllm == cfg.m - 1
            &&& s.plln == cfg.n
            &&& s.pllr == cfg.r - 1
            &&& s.pllp == (match cfg.p {
                Some(p) => Some((p - 1) as u8),
                None => None::<u8>,
            })
            &&& s.pllq == (match cfg.q {
                Some(q) => Some((q - 1) as u8),
                None => None::<u8>,
            })
            &&& s.f_pllr == vco(f_in, *cfg) / (cfg.r as int)
            &&& s.f_pllp == (match cfg.p {
                Some(p) => Some((vco(f_in, *cfg) / (p as int)) as u32),
                None => None::<u32>,
            })
            &&& s.f_pllq == (match cfg.q {
                Some(q) => Some((vco(f_in, *cfg) / (q as int)) as u32),
                None => None::<u32>,
            })
        },
{
    if cfg.m < 1 || cfg.m > 8 || cfg.n < 8 || cfg.n > 86 || cfg.r < 2 || cfg.r > 8 {
        return None;
    }
    let pllp = match cfg.p {
        Some(p) => {
            if p < 2 || p > 32 {
                return None;
            }
            Some(p - 1)
        },
        None => None,
    };
    let pllq = match cfg.q {
        Some(q) => {
            if q < 2 || q > 8 {
                return None;
            }
            Some(q - 1)
        },
        None => None,
    };
    let divided = f_in / (cfg.m as u32);
    assert(divided * (cfg.n as u32) <= 32_000_000 * 86) by (nonlinear_arith)
        requires
            divided <= 32_000_000,
            cfg.n <= 86,
    ;
    let v = divided * (cfg.n as u32);
    let f_pllr = v / (cfg.r as u32);
    if f_pllr > 64_000_000 {
        return None;
    }
    let f_pllp = match pllp {
        Some(p) => {
            let f = v / ((p as u32) + 1);
            if f > 64_000_000 {
                return None;
            }
            Some(f)
        },
        None => None,
    };
    let f_pllq = match pllq {
        Some(q) => {
            let f = v / ((q as u32) + 1);
            if f > 64_000_000 {
                return None;
            }
            Some(f)
        },
        None => None,
    };
    Some(
        PllSetup {
            src_bits,
            pllm: cfg.m - 1,
            plln: cfg.n,
            pllr: cfg.r - 1,
            pllp,
            pllq,
            f_pllr,
            f_pllp,
            f_pllq,
        },
    )
}

/// Flash wait states needed at `f` hertz.
pub fn latency_for(f: u32) -> (r: u8)
    ensures
        r == flash_latency(f),
{
    if f <= 18_000_000 {
        0
    } else if f <= 36_000_000 {
        1
    } else if f <= 54_000_000 {
        2
    } else {
        3
    }
}

impl Rcc {
    /// Works out how to apply `config`: on success records the new
    /// configuration and clock frequencies and returns the register field
    /// values to program (the caller programs them and waits for each
    /// oscillator to be ready). `None`, with nothing changed, for a
    /// configuration that cannot be applied (SYSCLK from MSI or HSI, PLL
    /// from MSI, PLL factors out of range, a PLL output above 64 MHz).
    /// CLK48 is tracked only when it comes from the PLL's Q output.
    pub fn apply_clock_config(&mut self, config: Config) -> (r: Option<ClockPlan>)
        ensures
            r is Some <==> config_supported(config),
            r is None ==> *final(self) == *old(self),
            r matches Some(plan) ==> {
                &&& final(self).config == config
                &&& final(self).clocks == clocks_after(config, old(self).clocks)
                &&& final(self).rb == old(self).rb
                &&& plan.lse_on == config.lse
                &&& plan.lsi1_off == config.lsi1
                &&& plan.hse_on == uses_hse(config)
                &&& plan.sysclk_bits == sysclk_bits(config.sysclk_src)
                &&& plan.flash_latency == flash_latency(sysclk_of(config))
                &&& plan.cpu1_hpre == config.cpu1_hdiv.bits_spec()
                &&& plan.cpu2_hpre == config.cpu2_hdiv.bits_spec()
                &&& plan.shd_hpre == config.hclk_hdiv.bits_spec()
                &&& plan.ppre1 == config.apb1_div.bits_spec()
                &&& plan.ppre2 == config.apb2_div.bits_spec()
                &&& plan.clk48sel == config.usb_src.bits_spec()
                &&& (plan.pll is Some <==> config.sysclk_src is Pll)
            },
    {
        let (f, hse_on, hse_divided, pll) = match &config.sysclk_src {
            SysClkSrc::HseSys(d) => {
                let divided = match d {
                    HseDivider::NotDivided => false,
                    HseDivider::Div2 => true,
                };
                (hse_frequency(d), true, divided, None)
            },
            SysClkSrc::Pll(src) => {
                let (f_in, src_bits, hse_on, divided) = match src {
                    PllSrc::Msi(_) => {
                        return None;
                    },
                    PllSrc::Hsi => (HSI_FREQ, 0b10u8, false, false),
                    PllSrc::Hse(d) => {
                        let divided = match d {
                            HseDivider::NotDivided => false,
                            HseDivider::Div2 => true,
                        };
                        (hse_frequency(d), 0b11u8, true, divided)
                    },
                };
                match pll_setup(f_in, src_bits, &config.pll_cfg) {
                    Some(s) => (s.f_pllr, hse_on, divided, Some(s)),
                    None => {
                        return None;
                    },
                }
            },
            _ => {
                return None;
            },
        };
        let sysclk_bits: u8 = match pll {
            Some(_) => 0b11,
            None => 0b10,
        };
        let mut clocks = self.clocks;
        if config.lse {
            clocks.lse = Some(Hertz(LSE_FREQ));
        }
        if hse_on {
            clocks.hse = Some(Hertz(HSE_FREQ));
        }
        match pll {
            Some(s) => {
                clocks.pllclk = Some(Hertz(s.f_pllr));
                match s.f_pllp {
                    Some(fp) => {
                        clocks.pllp = Some(Hertz(fp));
                    },
                    None => {},
                }
                match s.f_pllq {
                    Some(fq) => {
                        clocks.pllq = Some(Hertz(fq));
                    },
                    None => {},
                }
            },
            None => {},
        }
        clocks.sysclk = Hertz(f);
        let hclk1 = f / config.cpu1_hdiv.divisor();
        clocks.hclk1 = Hertz(hclk1);
        clocks.hclk2 = Hertz(f / config.cpu2_hdiv.divisor());
        clocks.hclk4 = Hertz(f / config.hclk_hdiv.divisor());
        clocks.pclk1 = Hertz(hclk1 / config.apb1_div.divisor());
        clocks.pclk2 = Hertz(hclk1 / config.apb2_div.divisor());
        clocks.clk48 = match config.usb_src {
            UsbClkSrc::PllQ => clocks.pllq,
            _ => None,
        };
        let plan = ClockPlan {
            lse_on: config.lse,
            lsi1_off: config.lsi1,
            hse_on,
            hse_divided,
            pll,
            sysclk_bits,
            flash_latency: latency_for(f),
            cpu1_hpre: config.cpu1_hdiv.bits(),
            cpu2_hpre: config.cpu2_hdiv.bits(),
            shd_hpre: config.hclk_hdiv.bits(),
            ppre1: config.apb1_div.bits(),
            ppre2: config.apb2_div.bits(),
            clk48sel: config.usb_src.bits(),
        };
        self.clocks = clocks;
        self.config = config;
        Some(plan)
    }
}

} // verus!
