//! Clock configuration: what `Rcc::apply_clock_config` is asked to set up.

use vstd::prelude::*;
use super::mux::{PllSrc, SysClkSrc, UsbClkSrc};

verus! {

/// A complete clock configuration, built from a default with the builder
/// methods below.
#[derive(Debug, Clone, PartialEq, Eq, Structural)]
pub struct Config {
    pub lse: bool,
    pub lsi1: bool,
    pub sysclk_src: SysClkSrc,
    pub pll_cfg: PllConfig,
    pub apb1_div: ApbDivider,
    pub apb2_div: ApbDivider,
    pub cpu1_hdiv: HDivider,
    pub cpu2_hdiv: HDivider,
    pub hclk_hdiv: HDivider,
    pub usb_src: UsbClkSrc,
}

/// The configuration `Config::default` returns: SYSCLK from HSI, no PLL, no
/// divider anywhere, LSE and LSI1 off.
pub open spec fn default_config() -> Config {
    Config {
        lse: false,
        lsi1: false,
        sysclk_src: SysClkSrc::Hsi,
        pll_cfg: default_pll_config(),
        apb1_div: ApbDivider::NotDivided,
        apb2_div: ApbDivider::NotDivided,
        cpu1_hdiv: HDivider::NotDivided,
        cpu2_hdiv: HDivider::NotDivided,
        hclk_hdiv: HDivider::NotDivided,
        usb_src: UsbClkSrc::PllSai1Q,
    }
}

impl Default for Config {
    fn default() -> (r: Self)
        ensures
            r == default_config(),
    {
        Config {
            lse: false,
            lsi1: false,
            sysclk_src: SysClkSrc::Hsi,
            pll_cfg: PllConfig::default(),
            apb1_div: ApbDivider::NotDivided,
            apb2_div: ApbDivider::NotDivided,
            cpu1_hdiv: HDivider::NotDivided,
            cpu2_hdiv: HDivider::NotDivided,
            hclk_hdiv: HDivider::NotDivided,
            usb_src: UsbClkSrc::default(),
        }
    }
}

impl Config {
    /// The default configuration with `mux` as system clock source.
    pub fn new(mux: SysClkSrc) -> (r: Self)
        ensures
            r == (Config { sysclk_src: mux, ..default_config() }),
    {
        Config::default().clock_src(mux)
    }

    /// System clock from the PLL fed by MSI at 4 MHz, default PLL factors.
    pub fn pll() -> (r: Self)
        ensures
            r == (Config {
                sysclk_src: SysClkSrc::Pll(PllSrc::Msi(MsiRange::RANGE4M)),
                ..default_config()
            }),
    {
        Config::default().clock_src(SysClkSrc::Pll(PllSrc::Msi(MsiRange::default()))).pll_cfg(
            PllConfig::default(),
        )
    }

    /// System clock from HSI.
    pub fn hsi() -> (r: Self)
        ensures
            r == (Config { sysclk_src: SysClkSrc::Hsi, ..default_config() }),
    {
        Config::default().clock_src(SysClkSrc::Hsi)
    }

    /// System clock straight from HSE, through `hse_divider`.
    pub fn hse_sys(hse_divider: HseDivider) -> (r: Self)
        ensures
            r == (Config { sysclk_src: SysClkSrc::HseSys(hse_divider), ..default_config() }),
    {
        Config::default().clock_src(SysClkSrc::HseSys(hse_divider))
    }

    pub fn clock_src(self, mux: SysClkSrc) -> (r: Self)
        ensures
            r == (Config { sysclk_src: mux, ..self }),
    {
        let mut c = self;
        c.sysclk_src = mux;
        c
    }

    pub fn pll_cfg(self, cfg: PllConfig) -> (r: Self)
        ensures
            r == (Config { pll_cfg: cfg, ..self }),
    {
        let mut c = self;
        c.pll_cfg = cfg;
        c
    }

    pub fn apb1_div(self, div: ApbDivider) -> (r: Self)
        ensures
            r == (Config { apb1_div: div, ..self }),
    {
        let mut c = self;
        c.apb1_div = div;
        c
    }

    pub fn apb2_div(self, div: ApbDivider) -> (r: Self)
        ensures
            r == (Config { apb2_div: div, ..self }),
    {
        let mut c = self;
        c.apb2_div = div;
        c
    }

    pub fn cpu1_hdiv(self, div: HDivider) -> (r: Self)
        ensures
            r == (Config { cpu1_hdiv: div, ..self }),
    {
        let mut c = self;
        c.cpu1_hdiv = div;
        c
    }

    pub fn cpu2_hdiv(self, div: HDivider) -> (r: Self)
        ensures
            r == (Config { cpu2_hdiv: div, ..self }),
    {
        let mut c = self;
        c.cpu2_hdiv = div;
        c
    }

    pub fn usb_src(self, src: UsbClkSrc) -> (r: Self)
        ensures
            r == (Config { usb_src: src, ..self }),
    {
        let mut c = self;
        c.usb_src = src;
        c
    }

    pub fn with_lse(self) -> (r: Self)
        ensures
            r == (Config { lse: true, ..self }),
    {
        let mut c = self;
        c.lse = true;
        c
    }

    pub fn with_lsi1(self) -> (r: Self)
        ensures
            r == (Config { lsi1: true, ..self }),
    {
        let mut c = self;
        c.lsi1 = true;
        c
    }
}

/// MSI oscillator ranges.
#[allow(non_camel_case_types)]
#[derive(Debug, Clone, PartialEq, Eq, Structural)]
pub enum MsiRange {
    /// range 0 around 100 kHz
    RANGE100K,
    /// range 1 around 200 kHz
    RANGE200K,
    /// range 2 around 400 kHz
    RANGE400K,
    /// range 3 around 800 kHz
    RANGE800K,
    /// range 4 around 1 MHz
    RANGE1M,
    /// range 5 around 2 MHz
    RANGE2M,
    /// range 6 around 4 MHz
    RANGE4M,
    /// range 7 around 8 MHz
    RANGE8M,
    /// range 8 around 16 MHz
    RANGE16M,
    /// range 9 around 24 MHz
    RANGE24M,
    /// range 10 around 32 MHz
    RANGE32M,
    /// range 11 around 48 MHz
    RANGE48M,
}

impl Default for MsiRange {
    fn default() -> (r: Self)
        ensures
            r == MsiRange::RANGE4M,
    {
        MsiRange::RANGE4M
    }
}

/// HSE input divider.
#[derive(Debug, Clone, PartialEq, Eq, Structural)]
pub enum HseDivider {
    NotDivided,
    Div2,
}

/// PLL configuration: input divider `m`, multiplier `n` and the output
/// dividers `r`, `q`, `p` (the last two optional).
#[derive(Debug, Clone, PartialEq, Eq, Structural)]
pub struct PllConfig {
    pub m: u8,
    pub n: u8,
    pub r: u8,
    pub q: Option<u8>,
    pub p: Option<u8>,
}

/// The PLL configuration `PllConfig::default` returns.
pub open spec fn default_pll_config() -> PllConfig {
    PllConfig { m: 1, n: 8, r: 2, q: None, p: None }
}

impl Default for PllConfig {
    fn default() -> (r: Self)
        ensures
            r == default_pll_config(),
    {
        PllConfig { m: 1, n: 8, r: 2, q: None, p: None }
    }
}

/// APB prescaler.
#[derive(Debug, Copy, Clone, PartialEq, Eq, Structural)]
pub enum ApbDivider {
    NotDivided,
    Div2,
    Div4,
    Div8,
    Div16,
}

impl ApbDivider {
    /// Division value.
    pub open spec fn spec_divisor(self) -> u32 {
        match self {
            ApbDivider::NotDivided => 1,
            ApbDivider::Div2 => 2,
            ApbDivider::Div4 => 4,
            ApbDivider::Div8 => 8,
            ApbDivider::Div16 => 16,
        }
    }

    /// Division value.
    pub fn divisor(&self) -> (r: u32)
        ensures
            r == self.spec_divisor(),
            1 <= r <= 16,
    {
        match self {
            ApbDivider::NotDivided => 1,
            ApbDivider::Div2 => 2,
            ApbDivider::Div4 => 4,
            ApbDivider::Div8 => 8,
            ApbDivider::Div16 => 16,
        }
    }

    /// Value of the PPRE field that selects this prescaler.
    pub open spec fn bits_spec(self) -> u8 {
        match self {
            ApbDivider::NotDivided => 0u8,
            ApbDivider::Div2 => 4u8,
            ApbDivider::Div4 => 5u8,
            ApbDivider::Div8 => 6u8,
            ApbDivider::Div16 => 7u8,
        }
    }

    /// Value of the PPRE field that selects this prescaler.
    pub fn bits(&self) -> (r: u8)
        ensures
            r == self.bits_spec(),
    {
        match self {
            ApbDivider::NotDivided => 0b000,
            ApbDivider::Div2 => 0b100,
            ApbDivider::Div4 => 0b101,
            ApbDivider::Div8 => 0b110,
            ApbDivider::Div16 => 0b111,
        }
    }
}

/// CPU1, CPU2 and shared AHB (HPRE) prescaler.
#[derive(Debug, Copy, Clone, PartialEq, Eq, Structural)]
pub enum HDivider {
    NotDivided,
    Div2,
    Div3,
    Div4,
    Div5,
    Div6,
    Div10,
    Div8,
    Div16,
    Div32,
    Div64,
    Div128,
    Div256,
    Div512,
}

impl HDivider {
    /// Division value.
    pub open spec fn spec_divisor(self) -> u32 {
        match self {
            HDivider::NotDivided => 1,
            HDivider::Div2 => 2,
            HDivider::Div3 => 3,
            HDivider::Div4 => 4,
            HDivider::Div5 => 5,
            HDivider::Div6 => 6,
            HDivider::Div10 => 10,
            HDivider::Div8 => 8,
            HDivider::Div16 => 16,
            HDivider::Div32 => 32,
            HDivider::Div64 => 64,
            HDivider::Div128 => 128,
            HDivider::Div256 => 256,
            HDivider::Div512 => 512,
        }
    }

    /// Returns division value
    pub fn divisor(&self) -> (r: u32)
        ensures
            r == self.spec_divisor(),
            1 <= r <= 512,
    {
        match self {
            HDivider::NotDivided => 1,
            HDivider::Div2 => 2,
            HDivider::Div3 => 3,
            HDivider::Div4 => 4,
            HDivider::Div5 => 5,
            HDivider::Div6 => 6,
            HDivider::Div10 => 10,
            HDivider::Div8 => 8,
            HDivider::Div16 => 16,
            HDivider::Div32 => 32,
            HDivider::Div64 => 64,
            HDivider::Div128 => 128,
            HDivider::Div256 => 256,
            HDivider::Div512 => 512,
        }
    }

    /// Value of the HPRE field that selects this prescaler.
    pub open spec fn bits_spec(self) -> u8 {
        match self {
            HDivider::NotDivided => 0u8,
            HDivider::Div2 => 8u8,
            HDivider::Div3 => 1u8,
            HDivider::Div4 => 9u8,
            HDivider::Div5 => 2u8,
            HDivider::Div6 => 5u8,
            HDivider::Div10 => 6u8,
            HDivider::Div8 => 10u8,
            HDivider::Div16 => 11u8,
            HDivider::Div32 => 7u8,
            HDivider::Div64 => 12u8,
            HDivider::Div128 => 13u8,
            HDivider::Div256 => 14u8,
            HDivider::Div512 => 15u8,
        }
    }

    /// Value of the HPRE field that selects this prescaler.
    pub fn bits(&self) -> (r: u8)
        ensures
            r == self.bits_spec(),
    {
        match self {
            HDivider::NotDivided => 0,
            HDivider::Div2 => 0b1000,
            HDivider::Div3 => 0b0001,
            HDivider::Div4 => 0b1001,
            HDivider::Div5 => 0b0010,
            HDivider::Div6 => 0b0101,
            HDivider::Div10 => 0b0110,
            HDivider::Div8 => 0b1010,
            HDivider::Div16 => 0b1011,
            HDivider::Div32 => 0b0111,
            HDivider::Div64 => 0b1100,
            HDivider::Div128 => 0b1101,
            HDivider::Div256 => 0b1110,
            HDivider::Div512 => 0b1111,
        }
    }
}

/// Clock the system runs from after leaving a STOP mode.
#[derive(Debug, Copy, Clone, PartialEq, Eq, Structural)]
pub enum StopWakeupClock {
    MSI,
    HSI16,
}

} // verus!
