//! Direct memory access: the plain-value parts of a channel's setup.

use vstd::prelude::*;

verus! {

/// DMA transfer error.
#[derive(Debug, Copy, Clone, PartialEq, Eq, Structural)]
#[non_exhaustive]
pub enum Error {
    Overrun,
}

/// Half of a circular double buffer.
#[derive(Debug, Copy, Clone, PartialEq, Eq, Structural)]
pub enum Half {
    First,
    Second,
}

/// Channel priority level
#[derive(Debug, Copy, Clone, PartialEq, Eq, Structural)]
pub enum Priority {
    /// Low
    Low,
    /// Medium
    Medium,
    /// High
    High,
    /// Very high
    VeryHigh,
}

impl Priority {
    /// Value of the PL field.
    pub open spec fn bits_spec(self) -> u8 {
        match self {
            Priority::Low => 0,
            Priority::Medium => 1,
            Priority::High => 2,
            Priority::VeryHigh => 3,
        }
    }
}

impl From<Priority> for u8 {
    fn from(prio: Priority) -> (r: u8) {
        match prio {
            Priority::Low => 0b00,
            Priority::Medium => 0b01,
            Priority::High => 0b10,
            Priority::VeryHigh => 0b11,
        }
    }
}

impl vstd::std_specs::convert::FromSpecImpl<Priority> for u8 {
    open spec fn obeys_from_spec() -> bool {
        true
    }

    open spec fn from_spec(prio: Priority) -> u8 {
        prio.bits_spec()
    }
}

/// DMA transfer direction
#[derive(Debug, Copy, Clone, PartialEq, Eq, Structural)]
pub enum Direction {
    /// From memory to peripheral
    FromMemory,
    /// From peripheral to memory
    FromPeripheral,
}

impl From<Direction> for bool {
    fn from(dir: Direction) -> (r: bool) {
        match dir {
            Direction::FromMemory => true,
            Direction::FromPeripheral => false,
        }
    }
}

impl vstd::std_specs::convert::FromSpecImpl<Direction> for bool {
    open spec fn obeys_from_spec() -> bool {
        true
    }

    open spec fn from_spec(dir: Direction) -> bool {
        dir == Direction::FromMemory
    }
}

/// Peripheral size
#[derive(Clone, Copy, Debug, PartialEq, Eq, Structural)]
pub enum WordSize {
    /// 0: 8-bit size
    BITS8,
    /// 1: 16-bit size
    BITS16,
    /// 2: 32-bit size
    BITS32,
}

impl From<WordSize> for u8 {
    fn from(variant: WordSize) -> (r: u8) {
        match variant {
            WordSize::BITS8 => 0,
            WordSize::BITS16 => 1,
            WordSize::BITS32 => 2,
        }
    }
}

impl vstd::std_specs::convert::FromSpecImpl<WordSize> for u8 {
    open spec fn obeys_from_spec() -> bool {
        true
    }

    open spec fn from_spec(variant: WordSize) -> u8 {
        match variant {
            WordSize::BITS8 => 0,
            WordSize::BITS16 => 1,
            WordSize::BITS32 => 2,
        }
    }
}

/// DMA events
#[derive(Debug, Copy, Clone, PartialEq, Eq, Structural)]
pub enum Event {
    /// First half of a transfer is done
    HalfTransfer,
    /// Transfer is complete
    TransferComplete,
    /// A transfer error occurred
    TransferError,
    /// Any of the above events occurred
    Any,
}

/// Read transfer
pub struct R;

/// Write transfer
pub struct W;

} // verus!
