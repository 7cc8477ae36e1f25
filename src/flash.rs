//! Flash programming: page addresses, status decoding, and how a byte write
//! becomes a run of 64-bit programming operations.

use vstd::prelude::*;
use crate::bits::{bit_of, read_bit};

verus! {

/// First key of the unlock sequence.
pub const FLASH_KEY1: u32 = 0x4567_0123;

/// Second key of the unlock sequence.
pub const FLASH_KEY2: u32 = 0xCDEF_89AB;

/// Start of flash in the address space.
pub const FLASH_BASE: usize = 0x0800_0000;

/// Size of a flash page.
pub const PAGE_SIZE: usize = 4096;

/// Size of the flash programming unit (a double word).
pub const NATIVE_SIZE: usize = 8;

/// Status register bits.
pub const SR_PROGERR: u32 = 3;
pub const SR_WRPERR: u32 = 4;
pub const SR_PGAERR: u32 = 5;
pub const SR_BSY: u32 = 16;

/// Why a flash operation did not succeed.
#[derive(Debug, Copy, Clone, PartialEq, Eq, Structural)]
pub enum Error {
    /// The controller stayed locked.
    Failure,
    /// An operation is still running.
    Busy,
    /// Alignment, programming or write-protection error.
    Illegal,
}

/// A flash page, by number.
#[derive(Debug, Copy, Clone, PartialEq, Eq, Structural)]
pub struct FlashPage(pub usize);

impl FlashPage {
    /// This gives the starting address of a flash page in physical address
    pub fn to_address(&self) -> (r: usize)
        requires
            FLASH_BASE + self.0 * PAGE_SIZE <= usize::MAX,
        ensures
            r == FLASH_BASE + self.0 * PAGE_SIZE,
    {
        FLASH_BASE + self.0 * PAGE_SIZE
    }
}

/// 256 to the power `n`.
pub open spec fn pow256(n: nat) -> int
    decreases n,
{
    if n == 0 {
        1
    } else {
        256 * pow256((n - 1) as nat)
    }
}

/// The number whose bytes, least significant first, are `b`.
pub open spec fn le_word(b: Seq<u8>) -> int
    decreases b.len(),
{
    if b.len() == 0 {
        0
    } else {
        b[0] + 256 * le_word(b.subrange(1, b.len() as int))
    }
}

/// The byte a write of `data` at an address `offset` bytes past a double
/// word boundary puts at position `j` from that boundary: the data where it
/// lands, erased flash (0xFF) around it.
pub open spec fn image_byte(data: Seq<u8>, offset: int, j: int) -> u8 {
    if offset <= j < offset + data.len() {
        data[j - offset]
    } else {
        0xFF
    }
}

/// The double word `i` of a write of `data` at `offset` past a boundary.
pub open spec fn image_word(data: Seq<u8>, offset: int, i: int) -> int {
    le_word(Seq::new(8, |k: int| image_byte(data, offset, 8 * i + k)))
}

proof fn lemma_pow256_mono(a: nat, b: nat)
    requires
        a <= b,
    ensures
        pow256(a) <= pow256(b),
        pow256(a) >= 1,
    decreases b,
{
    if b > 0 {
        if a < b {
            lemma_pow256_mono(a, (b - 1) as nat);
        } else {
            lemma_pow256_mono((a - 1) as nat, (b - 1) as nat);
        }
    }
}

/// The number whose eight bytes, least significant first, are `b`.
pub fn word_from_le(b: &Vec<u8>) -> (r: u64)
    requires
        b@.len() == 8,
    ensures
        r == le_word(b@),
{
    proof {
        reveal_with_fuel(pow256, 9);
        assert(pow256(8) == 0x1_0000_0000_0000_0000);
        assert(b@.subrange(8, 8) =~= Seq::<u8>::empty());
    }
    let mut acc: u64 = 0;
    let mut j: usize = 8;
    while j > 0
        invariant
            j <= 8,
            b@.len() == 8,
            acc == le_word(b@.subrange(j as int, 8)),
            acc < pow256((8 - j) as nat),
            pow256(8) == 0x1_0000_0000_0000_0000,
        decreases j,
    {
        let x = b[j - 1];
        proof {
            let s = b@.subrange(j - 1, 8);
            assert(s.subrange(1, s.len() as int) =~= b@.subrange(j as int, 8));
            assert(s[0] == x);
            let p = pow256((8 - j) as nat);
            assert(pow256((9 - j) as nat) == 256 * p);
            lemma_pow256_mono((9 - j) as nat, 8);
            assert(acc * 256 + x < 256 * p) by (nonlinear_arith)
                requires
                    acc < p,
                    x < 256,
            ;
        }
        acc = acc * 256 + x as u64;
        j = j - 1;
    }
    proof {
        assert(b@.subrange(0, 8) =~= b@);
    }
    acc
}

/// Flash programming: what the controller is asked to do, as plain values.
pub struct FlashProgramming;

impl FlashProgramming {
    /// Decodes the status register: busy, then any of the alignment,
    /// programming and write-protection errors, else success.
    pub fn status(sr: u32) -> (r: Result<(), Error>)
        ensures
            bit_of(sr, SR_BSY) ==> r == Err::<(), Error>(Error::Busy),
            !bit_of(sr, SR_BSY) && (bit_of(sr, SR_PGAERR) || bit_of(sr, SR_PROGERR) || bit_of(
                sr,
                SR_WRPERR,
            )) ==> r == Err::<(), Error>(Error::Illegal),
            !bit_of(sr, SR_BSY) && !bit_of(sr, SR_PGAERR) && !bit_of(sr, SR_PROGERR) && !bit_of(
                sr,
                SR_WRPERR,
            ) ==> r == Ok::<(), Error>(()),
    {
        if read_bit(sr, SR_BSY) {
            Err(Error::Busy)
        } else if read_bit(sr, SR_PGAERR) || read_bit(sr, SR_PROGERR) || read_bit(sr, SR_WRPERR) {
            Err(Error::Illegal)
        } else {
            Ok(())
        }
    }

    /// The double-word writes that store `data` at `address`: one per double
    /// word the data touches, in address order, each filled with erased
    /// bytes (0xFF) where the data does not reach. A write that starts off a
    /// double-word boundary must reach that boundary.
    pub fn write_plan(address: usize, data: &[u8]) -> (r: Vec<(usize, u64)>)
        requires
            address % 8 == 0 || data@.len() >= 8 - address % 8,
            address + data@.len() + 16 <= usize::MAX,
        ensures
            r@.len() == (address % 8 + data@.len() + 7) / 8,
            forall|i: int|
                0 <= i < r@.len() ==> (#[trigger] r@[i]).0 == address - address % 8 + 8 * i && r@[i].1
                    == image_word(data@, (address % 8) as int, i),
    {
        let offset = address % 8;
        let base = address - offset;
        let len = data.len();
        let n = (offset + len + 7) / 8;
        let mut out: Vec<(usize, u64)> = Vec::new();
        let mut i: usize = 0;
        while i < n
            invariant
                i <= n,
                n == (offset + len + 7) / 8,
                len == data@.len(),
                offset == address % 8,
                base == address - offset,
                address + len + 16 <= usize::MAX,
                out@.len() == i,
                forall|t: int|
                    0 <= t < i ==> (#[trigger] out@[t]).0 == base + 8 * t && out@[t].1 == image_word(
                        data@,
                        offset as int,
                        t,
                    ),
            decreases n - i,
        {
            let mut bytes: Vec<u8> = Vec::new();
            let mut k: usize = 0;
            while k < 8
                invariant
                    k <= 8,
                    i < n,
                    n == (offset + len + 7) / 8,
                    len == data@.len(),
                    offset < 8,
                    address + len + 16 <= usize::MAX,
                    offset <= address,
                    bytes@ == Seq::new(k as nat, |q: int| image_byte(data@, offset as int, 8 * i + q)),
                decreases 8 - k,
            {
                let j = 8 * i + k;
                let v = if offset <= j && j < offset + len {
                    data[j - offset]
                } else {
                    0xFF
                };
                bytes.push(v);
                k = k + 1;
                assert(bytes@ =~= Seq::new(k as nat, |q: int| image_byte(data@, offset as int, 8 * i + q)));
            }
            let w = word_from_le(&bytes);
            out.push((base + 8 * i, w));
            i = i + 1;
        }
        out
    }
}

} // verus!
