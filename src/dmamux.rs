//! DMA request multiplexer: request and trigger line numbers.

use vstd::prelude::*;

verus! {

/// DMAMUX request line of a peripheral.
#[allow(non_camel_case_types)]
#[derive(Debug, Copy, Clone, PartialEq, Eq, Structural)]
#[non_exhaustive]
pub enum DmaMuxIndex {
    dmamux_req_gen0,
    dmamux_req_gen1,
    dmamux_req_gen2,
    dmamux_req_gen3,
    ADC1,
    SPI1_RX,
    SPI1_TX,
    I2C1_RX,
    I2C1_TX,
    I2C3_RX,
    I2C3_TX,
}

impl DmaMuxIndex {
    /// The request line number.
    pub open spec fn val_spec(self) -> u8 {
        match self {
            DmaMuxIndex::dmamux_req_gen0 => 1,
            DmaMuxIndex::dmamux_req_gen1 => 2,
            DmaMuxIndex::dmamux_req_gen2 => 3,
            DmaMuxIndex::dmamux_req_gen3 => 4,
            DmaMuxIndex::ADC1 => 5,
            DmaMuxIndex::SPI1_RX => 6,
            DmaMuxIndex::SPI1_TX => 7,
            DmaMuxIndex::I2C1_RX => 10,
            DmaMuxIndex::I2C1_TX => 11,
            DmaMuxIndex::I2C3_RX => 12,
            DmaMuxIndex::I2C3_TX => 13,
        }
    }

    /// The request line number.
    pub fn val(self) -> (r: u8)
        ensures
            r == self.val_spec(),
    {
        match self {
            DmaMuxIndex::dmamux_req_gen0 => 1,
            DmaMuxIndex::dmamux_req_gen1 => 2,
            DmaMuxIndex::dmamux_req_gen2 => 3,
            DmaMuxIndex::dmamux_req_gen3 => 4,
            DmaMuxIndex::ADC1 => 5,
            DmaMuxIndex::SPI1_RX => 6,
            DmaMuxIndex::SPI1_TX => 7,
            DmaMuxIndex::I2C1_RX => 10,
            DmaMuxIndex::I2C1_TX => 11,
            DmaMuxIndex::I2C3_RX => 12,
            DmaMuxIndex::I2C3_TX => 13,
        }
    }
}

/// DMAMUX trigger / synchronisation input.
#[allow(non_camel_case_types)]
#[derive(Debug, Copy, Clone, PartialEq, Eq, Structural)]
pub enum DmaMuxTriggerSync {
    EXTI_LINE0,
    EXTI_LINE1,
    EXTI_LINE2,
    EXTI_LINE3,
    EXTI_LINE4,
    EXTI_LINE5,
    EXTI_LINE6,
    EXTI_LINE7,
    EXTI_LINE8,
    EXTI_LINE9,
    EXTI_LINE10,
    EXTI_LINE11,
    EXTI_LINE12,
    EXTI_LINE13,
    EXTI_LINE14,
    EXTI_LINE15,
    dmamux_evt0,
    dmamux_evt1,
    LPTIM1_OUT,
    LPTIM2_OUT,
}

impl DmaMuxTriggerSync {
    /// The input number.
    pub open spec fn val_spec(self) -> u8 {
        match self {
            DmaMuxTriggerSync::EXTI_LINE0 => 0,
            DmaMuxTriggerSync::EXTI_LINE1 => 1,
            DmaMuxTriggerSync::EXTI_LINE2 => 2,
            DmaMuxTriggerSync::EXTI_LINE3 => 3,
            DmaMuxTriggerSync::EXTI_LINE4 => 4,
            DmaMuxTriggerSync::EXTI_LINE5 => 5,
            DmaMuxTriggerSync::EXTI_LINE6 => 6,
            DmaMuxTriggerSync::EXTI_LINE7 => 7,
            DmaMuxTriggerSync::EXTI_LINE8 => 8,
            DmaMuxTriggerSync::EXTI_LINE9 => 9,
            DmaMuxTriggerSync::EXTI_LINE10 => 10,
            DmaMuxTriggerSync::EXTI_LINE11 => 11,
            DmaMuxTriggerSync::EXTI_LINE12 => 12,
            DmaMuxTriggerSync::EXTI_LINE13 => 13,
            DmaMuxTriggerSync::EXTI_LINE14 => 14,
            DmaMuxTriggerSync::EXTI_LINE15 => 15,
            DmaMuxTriggerSync::dmamux_evt0 => 16,
            DmaMuxTriggerSync::dmamux_evt1 => 17,
            DmaMuxTriggerSync::LPTIM1_OUT => 18,
            DmaMuxTriggerSync::LPTIM2_OUT => 19,
        }
    }

    /// The input number.
    pub fn val(self) -> (r: u8)
        ensures
            r == self.val_spec(),
    {
        match self {
            DmaMuxTriggerSync::EXTI_LINE0 => 0,
            DmaMuxTriggerSync::EXTI_LINE1 => 1,
            DmaMuxTriggerSync::EXTI_LINE2 => 2,
            DmaMuxTriggerSync::EXTI_LINE3 => 3,
            DmaMuxTriggerSync::EXTI_LINE4 => 4,
            DmaMuxTriggerSync::EXTI_LINE5 => 5,
            DmaMuxTriggerSync::EXTI_LINE6 => 6,
            DmaMuxTriggerSync::EXTI_LINE7 => 7,
            DmaMuxTriggerSync::EXTI_LINE8 => 8,
            DmaMuxTriggerSync::EXTI_LINE9 => 9,
            DmaMuxTriggerSync::EXTI_LINE10 => 10,
            DmaMuxTriggerSync::EXTI_LINE11 => 11,
            DmaMuxTriggerSync::EXTI_LINE12 => 12,
            DmaMuxTriggerSync::EXTI_LINE13 => 13,
            DmaMuxTriggerSync::EXTI_LINE14 => 14,
            DmaMuxTriggerSync::EXTI_LINE15 => 15,
            DmaMuxTriggerSync::dmamux_evt0 => 16,
            DmaMuxTriggerSync::dmamux_evt1 => 17,
            DmaMuxTriggerSync::LPTIM1_OUT => 18,
            DmaMuxTriggerSync::LPTIM2_OUT => 19,
        }
    }
}

} // verus!
