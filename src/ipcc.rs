//! Inter-processor communication controller (IPCC): six doorbell channels
//! between CPU1 (this core) and CPU2 (the radio co-processor).
//!
//! `Ipcc` holds an image of the controller's registers as plain words; every
//! operation is the read-modify-write the hardware performs on them. Bits
//! 0..6 of a mask register mask the receive ("occupied") interrupt of each
//! channel, bits 16..22 the transmit ("free") interrupt; a set mask bit means
//! the interrupt is disabled.

use vstd::prelude::*;
use crate::bits::{bit_of, bit_replaced, read_bit, write_bit};
use crate::rcc::Rcc;

verus! {

/// Offset of the transmit-free mask bits within a mask register.
pub const TX_MASK_SHIFT: u32 = 16;

/// Receive-occupied interrupt enable bit of a control register.
pub const CR_RXOIE: u32 = 0;

/// Transmit-free interrupt enable bit of a control register.
pub const CR_TXFIE: u32 = 16;

/// Position of the transmit-free mask bit of `ch` in a mask register.
pub open spec fn tx_bit(ch: IpccChannel) -> u32 {
    (TX_MASK_SHIFT + ch.spec_index()) as u32
}

/// One of the six doorbell channels.
#[derive(Debug, Copy, Clone, PartialEq, Eq, Structural)]
pub enum IpccChannel {
    Channel1,
    Channel2,
    Channel3,
    Channel4,
    Channel5,
    Channel6,
}

/// The channel at zero-based position `n`, if there is one.
pub open spec fn channel_at(n: int) -> Option<IpccChannel> {
    if n == 0 {
        Some(IpccChannel::Channel1)
    } else if n == 1 {
        Some(IpccChannel::Channel2)
    } else if n == 2 {
        Some(IpccChannel::Channel3)
    } else if n == 3 {
        Some(IpccChannel::Channel4)
    } else if n == 4 {
        Some(IpccChannel::Channel5)
    } else if n == 5 {
        Some(IpccChannel::Channel6)
    } else {
        None
    }
}

impl IpccChannel {
    /// Zero-based position of the channel's bit in the IPCC registers.
    pub open spec fn spec_index(self) -> u32 {
        match self {
            IpccChannel::Channel1 => 0,
            IpccChannel::Channel2 => 1,
            IpccChannel::Channel3 => 2,
            IpccChannel::Channel4 => 3,
            IpccChannel::Channel5 => 4,
            IpccChannel::Channel6 => 5,
        }
    }

    /// Zero-based position of the channel's bit in the IPCC registers.
    #[verifier::when_used_as_spec(spec_index)]
    pub fn index(self) -> (r: u32)
        ensures
            r == self.spec_index(),
            r < 6,
            channel_at(r as int) == Some(self),
    {
        match self {
            IpccChannel::Channel1 => 0,
            IpccChannel::Channel2 => 1,
            IpccChannel::Channel3 => 2,
            IpccChannel::Channel4 => 3,
            IpccChannel::Channel5 => 4,
            IpccChannel::Channel6 => 5,
        }
    }

    /// An iterator over all six channels, in order.
    pub fn iterator() -> (r: IpccChannelIterator)
        ensures
            r.position() == 0,
    {
        IpccChannelIterator { channel_number: 0 }
    }
}

/// Walks the six channels from `Channel1` to `Channel6`.
pub struct IpccChannelIterator {
    channel_number: u8,
}

impl IpccChannelIterator {
    /// How many channels have been handed out so far (at most six).
    pub closed spec fn position(&self) -> int {
        self.channel_number as int
    }

    /// The next channel, or `None` once all six were handed out.
    pub fn next(&mut self) -> (r: Option<IpccChannel>)
        requires
            old(self).position() <= 6,
        ensures
            r == channel_at(old(self).position()),
            final(self).position() == if old(self).position() < 6 {
                old(self).position() + 1
            } else {
                6
            },
    {
        let ch = match self.channel_number {
            0 => Some(IpccChannel::Channel1),
            1 => Some(IpccChannel::Channel2),
            2 => Some(IpccChannel::Channel3),
            3 => Some(IpccChannel::Channel4),
            4 => Some(IpccChannel::Channel5),
            5 => Some(IpccChannel::Channel6),
            _ => None,
        };
        if self.channel_number < 6 {
            self.channel_number = self.channel_number + 1;
        }
        ch
    }
}

/// Image of the IPCC register block, one word per register that holds state.
///
/// `c1scr` and `c2scr` are write-only triggers and hold no state: a write of
/// a clear bit clears the peer's flag in `c2toc1sr` / `c1toc2sr`, a write of
/// a set bit sets the own flag.
#[derive(Debug, Copy, Clone, PartialEq, Eq, Structural)]
pub struct IpccRegisters {
    pub c1cr: u32,
    pub c1mr: u32,
    pub c2cr: u32,
    pub c2mr: u32,
    /// Flags raised by CPU1 towards CPU2.
    pub c1toc2sr: u32,
    /// Flags raised by CPU2 towards CPU1.
    pub c2toc1sr: u32,
}

impl IpccRegisters {
    /// The words to write to C1SCR and C2SCR so that the flag registers go
    /// from `self` to `after`: in C1SCR a set bit `16 + n` raises CPU1's flag
    /// `n` and a set bit `n` clears CPU2's flag `n`; C2SCR the same for the
    /// other core. Only the six channel bits are looked at.
    pub fn scr_writes(&self, after: &IpccRegisters) -> (r: (u32, u32))
        ensures
            forall|j: u32|
                j < 6 ==> {
                    &&& #[trigger] bit_of(r.0, j) == (bit_of(self.c2toc1sr, j) && !bit_of(after.c2toc1sr, j))
                    &&& bit_of(r.0, (j + 16) as u32) == (!bit_of(self.c1toc2sr, j) && bit_of(after.c1toc2sr, j))
                    &&& bit_of(r.1, j) == (bit_of(self.c1toc2sr, j) && !bit_of(after.c1toc2sr, j))
                    &&& bit_of(r.1, (j + 16) as u32) == (!bit_of(self.c2toc1sr, j) && bit_of(after.c2toc1sr, j))
                },
            forall|j: u32| j < 32 && !(j < 6 || 16 <= j < 22) ==> !#[trigger] bit_of(r.0, j),
            forall|j: u32| j < 32 && !(j < 6 || 16 <= j < 22) ==> !#[trigger] bit_of(r.1, j),
    {
        let mut c1: u32 = 0;
        let mut c2: u32 = 0;
        proof {
            assert forall|j: u32| j < 32 implies !#[trigger] bit_of(0u32, j) by {
                assert((0u32 >> j) & 1u32 == 0u32) by (bit_vector);
            }
        }
        let mut n: u32 = 0;
        while n < 6
            invariant
                n <= 6,
                forall|j: u32|
                    j < n ==> {
                        &&& #[trigger] bit_of(c1, j) == (bit_of(self.c2toc1sr, j) && !bit_of(after.c2toc1sr, j))
                        &&& bit_of(c1, (j + 16) as u32) == (!bit_of(self.c1toc2sr, j) && bit_of(after.c1toc2sr, j))
                        &&& bit_of(c2, j) == (bit_of(self.c1toc2sr, j) && !bit_of(after.c1toc2sr, j))
                        &&& bit_of(c2, (j + 16) as u32) == (!bit_of(self.c2toc1sr, j) && bit_of(after.c2toc1sr, j))
                    },
                forall|j: u32| j < 32 && !(j < n || 16 <= j < 16 + n) ==> !#[trigger] bit_of(c1, j),
                forall|j: u32| j < 32 && !(j < n || 16 <= j < 16 + n) ==> !#[trigger] bit_of(c2, j),
            decreases 6 - n,
        {
            let clear1 = read_bit(self.c2toc1sr, n) && !read_bit(after.c2toc1sr, n);
            let set1 = !read_bit(self.c1toc2sr, n) && read_bit(after.c1toc2sr, n);
            let clear2 = read_bit(self.c1toc2sr, n) && !read_bit(after.c1toc2sr, n);
            let set2 = !read_bit(self.c2toc1sr, n) && read_bit(after.c2toc1sr, n);
            c1 = write_bit(c1, n, clear1);
            c1 = write_bit(c1, n + 16, set1);
            c2 = write_bit(c2, n, clear2);
            c2 = write_bit(c2, n + 16, set2);
            n = n + 1;
        }
        (c1, c2)
    }

    /// `self` is `old` with CPU1's transmit-free interrupt for `ch` switched
    /// to `enabled`, and nothing else changed.
    pub open spec fn is_c1_tx_set(self, old: IpccRegisters, ch: IpccChannel, enabled: bool) -> bool {
        &&& bit_replaced(self.c1mr, old.c1mr, tx_bit(ch), !enabled)
        &&& self == (IpccRegisters { c1mr: self.c1mr, ..old })
    }

    /// `self` is `old` with CPU1's receive interrupt for `ch` switched to
    /// `enabled`, and nothing else changed.
    pub open spec fn is_c1_rx_set(self, old: IpccRegisters, ch: IpccChannel, enabled: bool) -> bool {
        &&& bit_replaced(self.c1mr, old.c1mr, ch.spec_index(), !enabled)
        &&& self == (IpccRegisters { c1mr: self.c1mr, ..old })
    }

    /// `self` is `old` with CPU1's doorbell on `ch` raised, and nothing else
    /// changed.
    pub open spec fn is_c1_flag_set(self, old: IpccRegisters, ch: IpccChannel) -> bool {
        &&& bit_replaced(self.c1toc2sr, old.c1toc2sr, ch.spec_index(), true)
        &&& self == (IpccRegisters { c1toc2sr: self.c1toc2sr, ..old })
    }

    /// `self` is `old` with CPU2's doorbell on `ch` acknowledged (cleared),
    /// and nothing else changed.
    pub open spec fn is_c1_flag_cleared(self, old: IpccRegisters, ch: IpccChannel) -> bool {
        &&& bit_replaced(self.c2toc1sr, old.c2toc1sr, ch.spec_index(), false)
        &&& self == (IpccRegisters { c2toc1sr: self.c2toc1sr, ..old })
    }
}

/// The doorbell controller, seen from CPU1.
pub struct Ipcc {
    pub rb: IpccRegisters,
}

impl Ipcc {
    /// CPU1 receives interrupts for `ch`.
    pub open spec fn c1_rx_enabled(&self, ch: IpccChannel) -> bool {
        !bit_of(self.rb.c1mr, ch.spec_index())
    }

    /// CPU1 gets a transmit-free interrupt for `ch`.
    pub open spec fn c1_tx_enabled(&self, ch: IpccChannel) -> bool {
        !bit_of(self.rb.c1mr, tx_bit(ch))
    }

    /// CPU2 receives interrupts for `ch`.
    pub open spec fn c2_rx_enabled(&self, ch: IpccChannel) -> bool {
        !bit_of(self.rb.c2mr, ch.spec_index())
    }

    /// CPU2 gets a transmit-free interrupt for `ch`.
    pub open spec fn c2_tx_enabled(&self, ch: IpccChannel) -> bool {
        !bit_of(self.rb.c2mr, tx_bit(ch))
    }

    /// CPU1 has rung the doorbell of `ch` and CPU2 has not yet cleared it.
    pub open spec fn c1_flag(&self, ch: IpccChannel) -> bool {
        bit_of(self.rb.c1toc2sr, ch.spec_index())
    }

    /// CPU2 has rung the doorbell of `ch` and CPU1 has not yet cleared it.
    pub open spec fn c2_flag(&self, ch: IpccChannel) -> bool {
        bit_of(self.rb.c2toc1sr, ch.spec_index())
    }

    /// A transmit-free interrupt is due on `ch`.
    pub open spec fn is_tx_pending_spec(&self, ch: IpccChannel) -> bool {
        !self.c1_flag(ch) && self.c1_tx_enabled(ch)
    }

    /// A receive interrupt is due on `ch`.
    pub open spec fn is_rx_pending_spec(&self, ch: IpccChannel) -> bool {
        self.c2_flag(ch) && self.c1_rx_enabled(ch)
    }

    /// Enables IPCC clocking and the two CPU1 interrupts (receive-occupied
    /// and transmit-free) in the control register. Unmasking the matching
    /// processor interrupt lines is left to the caller, which owns the
    /// interrupt controller.
    pub fn init(&mut self, rcc: &mut Rcc)
        ensures
            final(rcc).ipcc_enabled(),
            final(rcc).clocks == old(rcc).clocks,
            final(rcc).config == old(rcc).config,
            bit_of(final(self).rb.c1cr, CR_RXOIE),
            bit_of(final(self).rb.c1cr, CR_TXFIE),
            forall|j: u32|
                j < 32 && j != CR_RXOIE && j != CR_TXFIE ==> #[trigger] bit_of(final(self).rb.c1cr, j)
                    == bit_of(old(self).rb.c1cr, j),
            final(self).rb.c1mr == old(self).rb.c1mr,
            final(self).rb.c2cr == old(self).rb.c2cr,
            final(self).rb.c2mr == old(self).rb.c2mr,
            final(self).rb.c1toc2sr == old(self).rb.c1toc2sr,
            final(self).rb.c2toc1sr == old(self).rb.c2toc1sr,
    {
        rcc.set_ipcc(true);
        let w = write_bit(self.rb.c1cr, CR_RXOIE, true);
        let w2 = write_bit(w, CR_TXFIE, true);
        self.rb.c1cr = w2;
    }

    /// Channel `ch` is fully idle: no doorbell raised in either direction and
    /// no interrupt of either core enabled for it.
    pub open spec fn channel_off(&self, ch: IpccChannel) -> bool {
        &&& !self.c1_rx_enabled(ch)
        &&& !self.c1_tx_enabled(ch)
        &&& !self.c2_rx_enabled(ch)
        &&& !self.c2_tx_enabled(ch)
        &&& !self.c1_flag(ch)
        &&& !self.c2_flag(ch)
    }

    /// Channel `ch` looks the same in `self` and in `other`.
    pub open spec fn same_channel(&self, other: &Ipcc, ch: IpccChannel) -> bool {
        &&& self.c1_rx_enabled(ch) == other.c1_rx_enabled(ch)
        &&& self.c1_tx_enabled(ch) == other.c1_tx_enabled(ch)
        &&& self.c2_rx_enabled(ch) == other.c2_rx_enabled(ch)
        &&& self.c2_tx_enabled(ch) == other.c2_tx_enabled(ch)
        &&& self.c1_flag(ch) == other.c1_flag(ch)
        &&& self.c2_flag(ch) == other.c2_flag(ch)
    }

    /// Clears both doorbells of `channel` and disables all its interrupts.
    fn reset_channel(&mut self, channel: IpccChannel)
        ensures
            final(self).channel_off(channel),
            forall|ch: IpccChannel| ch != channel ==> #[trigger] final(self).same_channel(old(self), ch),
            final(self).rb.c1cr == old(self).rb.c1cr,
            final(self).rb.c2cr == old(self).rb.c2cr,
    {
        self.c1_clear_flag_channel(channel);
        self.c2_clear_flag_channel(channel);
        self.c1_set_rx_channel(channel, false);
        self.c2_set_rx_channel(channel, false);
        self.c1_set_tx_channel(channel, false);
        self.c2_set_tx_channel(channel, false);
        assert forall|ch: IpccChannel| ch != channel implies #[trigger] self.same_channel(old(self), ch) by {
            assert(channel_at(ch.spec_index() as int) == Some(ch));
            assert(channel_at(channel.spec_index() as int) == Some(channel));
        }
    }

    /// Resets every channel: both directions' flags cleared, all receive and
    /// transmit interrupts of both cores disabled.
    pub fn reset(&mut self)
        ensures
            forall|ch: IpccChannel| #[trigger] final(self).channel_off(ch),
            final(self).rb.c1cr == old(self).rb.c1cr,
            final(self).rb.c2cr == old(self).rb.c2cr,
    {
        let mut it = IpccChannel::iterator();
        let ghost start = self.rb;
        loop
            invariant
                0 <= it.position() <= 6,
                self.rb.c1cr == start.c1cr,
                self.rb.c2cr == start.c2cr,
                forall|ch: IpccChannel| ch.spec_index() < it.position() ==> #[trigger] self.channel_off(ch),
            ensures
                it.position() == 6,
            decreases 6 - it.position(),
        {
            let ghost before_pos = it.position();
            let next = it.next();
            match next {
                Some(channel) => {
                    let ghost before = *self;
                    self.reset_channel(channel);
                    assert forall|ch: IpccChannel| ch.spec_index() < it.position() implies #[trigger] self.channel_off(ch) by {
                        assert(channel_at(ch.spec_index() as int) == Some(ch));
                        if ch != channel {
                            assert(self.same_channel(&before, ch));
                            assert(before.channel_off(ch));
                        }
                    }
                },
                None => {
                    break ;
                },
            }
        }
        assert forall|ch: IpccChannel| #[trigger] self.channel_off(ch) by {
            assert(channel_at(ch.spec_index() as int) == Some(ch));
        }
    }

    /// Enables (`true`) or disables CPU1's receive interrupt for `channel`.
    pub fn c1_set_rx_channel(&mut self, channel: IpccChannel, enabled: bool)
        ensures
            bit_replaced(final(self).rb.c1mr, old(self).rb.c1mr, channel.spec_index(), !enabled),
            final(self).rb == (IpccRegisters { c1mr: final(self).rb.c1mr, ..old(self).rb }),
    {
        self.rb.c1mr = write_bit(self.rb.c1mr, channel.index(), !enabled);
    }

    /// Whether CPU1's receive interrupt for `channel` is enabled.
    pub fn c1_get_rx_channel(&self, channel: IpccChannel) -> (r: bool)
        ensures
            r == self.c1_rx_enabled(channel),
    {
        !read_bit(self.rb.c1mr, channel.index())
    }

    /// Enables (`true`) or disables CPU2's receive interrupt for `channel`.
    pub fn c2_set_rx_channel(&mut self, channel: IpccChannel, enabled: bool)
        ensures
            bit_replaced(final(self).rb.c2mr, old(self).rb.c2mr, channel.spec_index(), !enabled),
            final(self).rb == (IpccRegisters { c2mr: final(self).rb.c2mr, ..old(self).rb }),
    {
        self.rb.c2mr = write_bit(self.rb.c2mr, channel.index(), !enabled);
    }

    /// Enables (`true`) or disables CPU1's transmit-free interrupt for `channel`.
    pub fn c1_set_tx_channel(&mut self, channel: IpccChannel, enabled: bool)
        ensures
            bit_replaced(
                final(self).rb.c1mr,
                old(self).rb.c1mr,
                tx_bit(channel),
                !enabled,
            ),
            final(self).rb == (IpccRegisters { c1mr: final(self).rb.c1mr, ..old(self).rb }),
    {
        self.rb.c1mr = write_bit(self.rb.c1mr, TX_MASK_SHIFT + channel.index(), !enabled);
    }

    /// Whether CPU1's transmit-free interrupt for `channel` is enabled.
    pub fn c1_get_tx_channel(&self, channel: IpccChannel) -> (r: bool)
        ensures
            r == self.c1_tx_enabled(channel),
    {
        !read_bit(self.rb.c1mr, TX_MASK_SHIFT + channel.index())
    }

    /// Enables (`true`) or disables CPU2's transmit-free interrupt for `channel`.
    pub fn c2_set_tx_channel(&mut self, channel: IpccChannel, enabled: bool)
        ensures
            bit_replaced(
                final(self).rb.c2mr,
                old(self).rb.c2mr,
                tx_bit(channel),
                !enabled,
            ),
            final(self).rb == (IpccRegisters { c2mr: final(self).rb.c2mr, ..old(self).rb }),
    {
        self.rb.c2mr = write_bit(self.rb.c2mr, TX_MASK_SHIFT + channel.index(), !enabled);
    }

    /// CPU1 acknowledges an inbound doorbell: clears the flag CPU2 raised on
    /// `channel`.
    pub fn c1_clear_flag_channel(&mut self, channel: IpccChannel)
        ensures
            bit_replaced(final(self).rb.c2toc1sr, old(self).rb.c2toc1sr, channel.spec_index(), false),
            final(self).rb == (IpccRegisters { c2toc1sr: final(self).rb.c2toc1sr, ..old(self).rb }),
    {
        self.rb.c2toc1sr = write_bit(self.rb.c2toc1sr, channel.index(), false);
    }

    /// CPU2 acknowledges an inbound doorbell: clears the flag CPU1 raised on
    /// `channel`.
    pub fn c2_clear_flag_channel(&mut self, channel: IpccChannel)
        ensures
            bit_replaced(final(self).rb.c1toc2sr, old(self).rb.c1toc2sr, channel.spec_index(), false),
            final(self).rb == (IpccRegisters { c1toc2sr: final(self).rb.c1toc2sr, ..old(self).rb }),
    {
        self.rb.c1toc2sr = write_bit(self.rb.c1toc2sr, channel.index(), false);
    }

    /// CPU1 rings the doorbell of `channel`.
    pub fn c1_set_flag_channel(&mut self, channel: IpccChannel)
        ensures
            bit_replaced(final(self).rb.c1toc2sr, old(self).rb.c1toc2sr, channel.spec_index(), true),
            final(self).rb == (IpccRegisters { c1toc2sr: final(self).rb.c1toc2sr, ..old(self).rb }),
    {
        self.rb.c1toc2sr = write_bit(self.rb.c1toc2sr, channel.index(), true);
    }

    /// CPU2 rings the doorbell of `channel`.
    pub fn c2_set_flag_channel(&mut self, channel: IpccChannel)
        ensures
            bit_replaced(final(self).rb.c2toc1sr, old(self).rb.c2toc1sr, channel.spec_index(), true),
            final(self).rb == (IpccRegisters { c2toc1sr: final(self).rb.c2toc1sr, ..old(self).rb }),
    {
        self.rb.c2toc1sr = write_bit(self.rb.c2toc1sr, channel.index(), true);
    }

    /// Whether CPU1's doorbell on `channel` is still raised (not yet
    /// acknowledged by CPU2).
    pub fn c1_is_active_flag(&self, channel: IpccChannel) -> (r: bool)
        ensures
            r == self.c1_flag(channel),
    {
        read_bit(self.rb.c1toc2sr, channel.index())
    }

    /// Whether CPU2's doorbell on `channel` is raised.
    pub fn c2_is_active_flag(&self, channel: IpccChannel) -> (r: bool)
        ensures
            r == self.c2_flag(channel),
    {
        read_bit(self.rb.c2toc1sr, channel.index())
    }

    /// A transmit-free interrupt is due on `channel`: CPU2 has taken the
    /// doorbell and CPU1 asked to be told.
    pub fn is_tx_pending(&self, channel: IpccChannel) -> (r: bool)
        ensures
            r == self.is_tx_pending_spec(channel),
    {
        !self.c1_is_active_flag(channel) && self.c1_get_tx_channel(channel)
    }

    /// A receive interrupt is due on `channel`: CPU2 rang and CPU1 listens.
    pub fn is_rx_pending(&self, channel: IpccChannel) -> (r: bool)
        ensures
            r == self.is_rx_pending_spec(channel),
    {
        self.c2_is_active_flag(channel) && self.c1_get_rx_channel(channel)
    }
}

/// Wraps a register image into the doorbell controller.
pub trait IpccExt {
    fn constrain(self) -> Ipcc;
}

impl IpccExt for IpccRegisters {
    fn constrain(self) -> Ipcc {
        Ipcc { rb: self }
    }
}

} // verus!
