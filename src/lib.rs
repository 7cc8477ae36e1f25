//! Host-core side of the STM32WB inter-processor mailbox: doorbell channels,
//! intrusive shared queues, the memory manager and the system / BLE channels,
//! together with the clock, flash and DMA settings they depend on.
//!
//! Peripheral registers appear as plain register images; the operations are
//! the read-modify-writes the hardware performs, and moving an image to and
//! from the device is left to the caller.

pub mod bits;
pub mod dma;
pub mod dmamux;
pub mod flash;
pub mod ipcc;
pub mod linked_list;
pub mod rcc;
pub mod rtc;
pub mod time;
pub mod tl_mbox;
