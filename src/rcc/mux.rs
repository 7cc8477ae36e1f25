//! Clock source selections.

use vstd::prelude::*;
use super::config::{HseDivider, MsiRange};

verus! {

/// PLL input frequency source.
#[derive(Debug, Clone, PartialEq, Eq, Structural)]
pub enum PllSrc {
    Msi(MsiRange),
    Hsi,
    Hse(HseDivider),
}

/// System clock (SYSCLK) source selection.
#[derive(Debug, Clone, PartialEq, Eq, Structural)]
pub enum SysClkSrc {
    /// Multi-speed internal RC oscillator
    Msi(MsiRange),
    /// 16 MHz internal RC
    Hsi,
    /// Use HSE directly, without PLL.
    HseSys(HseDivider),
    /// Use PLL.
    Pll(PllSrc),
}

/// USB (48 MHz) clock source selection.
#[derive(Debug, Copy, Clone, PartialEq, Eq, Structural)]
pub enum UsbClkSrc {
    Hsi48,
    PllSai1Q,
    PllQ,
    Msi,
}

impl UsbClkSrc {
    /// Value of the CLK48SEL field that selects this source.
    pub open spec fn bits_spec(self) -> u8 {
        match self {
            UsbClkSrc::Hsi48 => 0u8,
            UsbClkSrc::PllSai1Q => 1u8,
            UsbClkSrc::PllQ => 2u8,
            UsbClkSrc::Msi => 3u8,
        }
    }

    /// Value of the CLK48SEL field that selects this source.
    pub fn bits(&self) -> (r: u8)
        ensures
            r == self.bits_spec(),
    {
        match self {
            UsbClkSrc::Hsi48 => 0b00,
            UsbClkSrc::PllSai1Q => 0b01,
            UsbClkSrc::PllQ => 0b10,
            UsbClkSrc::Msi => 0b11,
        }
    }
}

impl Default for UsbClkSrc {
    fn default() -> (r: Self)
        ensures
            r == UsbClkSrc::PllSai1Q,
    {
        UsbClkSrc::PllSai1Q
    }
}

} // verus!
