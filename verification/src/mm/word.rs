//! Machine words in user memory, stored least significant byte first.

use crate::errno::SysError;
use crate::mm::region::{
    read_region, spec_after_check, spec_after_write, spec_read_region, spec_region_valid,
    write_region,
};
use crate::mm::space::{AccessFlags, SpaceView, UserMemory};
use vstd::prelude::*;

verus! {

/// The 32-bit word that four bytes spell, least significant byte first.
pub open spec fn spec_word32(bytes: Seq<u8>) -> u32 {
    (bytes[0] as int + bytes[1] as int * 0x100 + bytes[2] as int * 0x1_0000 + bytes[3] as int
        * 0x100_0000) as u32
}

/// The 64-bit word that eight bytes spell, least significant byte first.
pub open spec fn spec_word64(bytes: Seq<u8>) -> u64 {
    (spec_word32(bytes.subrange(0, 4)) as int + spec_word32(bytes.subrange(4, 8)) as int
        * 0x1_0000_0000) as u64
}

/// The eight bytes that spell a 64-bit word, least significant byte first.
pub open spec fn spec_bytes64(word: u64) -> Seq<u8> {
    Seq::new(8, |i: int| (word as int / spec_byte_weight(i) % 256) as u8)
}

/// Weight of byte `i` in a word: 256 to the power of `i`.
pub open spec fn spec_byte_weight(i: int) -> int {
    if i == 0 {
        1
    } else if i == 1 {
        0x100
    } else if i == 2 {
        0x1_0000
    } else if i == 3 {
        0x100_0000
    } else if i == 4 {
        0x1_0000_0000
    } else if i == 5 {
        0x100_0000_0000
    } else if i == 6 {
        0x1_0000_0000_0000
    } else {
        0x100_0000_0000_0000
    }
}

/// The 32-bit word spelled by the four bytes of `bytes` from `at` on.
pub fn word32(bytes: &[u8], at: usize) -> (word: u32)
    requires
        at + 4 <= bytes@.len(),
    ensures
        word == spec_word32(bytes@.subrange(at as int, at + 4)),
{
    let b0: u32 = bytes[at] as u32;
    let b1: u32 = bytes[at + 1] as u32;
    let b2: u32 = bytes[at + 2] as u32;
    let b3: u32 = bytes[at + 3] as u32;
    b0 + b1 * 0x100 + b2 * 0x1_0000 + b3 * 0x100_0000
}

/// The 64-bit word spelled by the eight bytes of `bytes` from `at` on.
pub fn word64(bytes: &[u8], at: usize) -> (word: u64)
    requires
        at + 8 <= bytes@.len(),
    ensures
        word == spec_word64(bytes@.subrange(at as int, at + 8)),
{
    let len: usize = bytes.len();
    let low: u64 = word32(bytes, at) as u64;
    let high: u64 = word32(bytes, at + 4) as u64;
    proof {
        let whole = bytes@.subrange(at as int, at + 8);
        assert(whole.subrange(0, 4) =~= bytes@.subrange(at as int, at + 4));
        assert(whole.subrange(4, 8) =~= bytes@.subrange(at + 4, at + 8));
    }
    low + high * 0x1_0000_0000
}

/// The eight bytes that spell `word`, least significant byte first.
pub fn bytes64(word: u64) -> (bytes: Vec<u8>)
    ensures
        bytes@ == spec_bytes64(word),
{
    let mut bytes: Vec<u8> = Vec::new();
    bytes.push((word % 256) as u8);
    bytes.push((word / 0x100 % 256) as u8);
    bytes.push((word / 0x1_0000 % 256) as u8);
    bytes.push((word / 0x100_0000 % 256) as u8);
    bytes.push((word / 0x1_0000_0000 % 256) as u8);
    bytes.push((word / 0x100_0000_0000 % 256) as u8);
    bytes.push((word / 0x1_0000_0000_0000 % 256) as u8);
    bytes.push((word / 0x100_0000_0000_0000 % 256) as u8);
    assert(bytes@ =~= spec_bytes64(word));
    bytes
}

/// What a validated read of the 32-bit word at `addr` gives. The word must
/// lie at a multiple of four.
pub open spec fn spec_read_word(view: SpaceView, addr: int) -> Result<u32, SysError> {
    match spec_read_region(view, addr, 4, 4, AccessFlags::read_only()) {
        Ok(bytes) => Ok(spec_word32(bytes)),
        Err(e) => Err(e),
    }
}

/// The space after a validated read of the 32-bit word at `addr`.
pub open spec fn spec_after_read_word(view: SpaceView, addr: int) -> SpaceView {
    spec_after_check(view, addr, 4, 4, AccessFlags::read_only())
}

/// Validates the 32-bit word at `addr` for reading and returns it.
pub fn read_word<M: UserMemory>(mem: &mut M, addr: usize) -> (r: Result<u32, SysError>)
    requires
        old(mem).inv(),
    ensures
        final(mem).inv(),
        r == spec_read_word(old(mem).view(), addr as int),
        final(mem).view() == spec_after_read_word(old(mem).view(), addr as int),
{
    match read_region(mem, addr, 4, 4, AccessFlags::read_only()) {
        Ok(bytes) => {
            assert(bytes@.subrange(0, 4) =~= bytes@);
            Ok(word32(bytes.as_slice(), 0))
        },
        Err(e) => Err(e),
    }
}

/// Whether the four bytes at `addr` can be read without a fault and spell
/// `value`.
pub open spec fn spec_word_is(view: SpaceView, addr: int, value: u32) -> bool {
    &&& view.load(addr) is Some
    &&& view.load(addr + 1) is Some
    &&& view.load(addr + 2) is Some
    &&& view.load(addr + 3) is Some
    &&& spec_word32(view.bytes.subrange(addr, addr + 4)) == value
}

/// Looks at the 32-bit word at `addr` without validating or populating
/// anything, and tells whether it is there to be read and equals `value`.
pub fn word_is<M: UserMemory>(mem: &M, addr: usize, value: u32) -> (same: bool)
    requires
        mem.inv(),
    ensures
        same == spec_word_is(mem.view(), addr as int, value),
{
    proof {
        mem.lemma_view_wf();
    }
    if addr > usize::MAX - 3 {
        return false;
    }
    let b0 = match mem.load(addr) {
        Some(b) => b,
        None => {
            return false;
        },
    };
    let b1 = match mem.load(addr + 1) {
        Some(b) => b,
        None => {
            return false;
        },
    };
    let b2 = match mem.load(addr + 2) {
        Some(b) => b,
        None => {
            return false;
        },
    };
    let b3 = match mem.load(addr + 3) {
        Some(b) => b,
        None => {
            return false;
        },
    };
    let word: u32 = b0 as u32 + b1 as u32 * 0x100 + b2 as u32 * 0x1_0000 + b3 as u32 * 0x100_0000;
    word == value
}

/// Validates the eight bytes at `addr` for writing and stores `word` there.
/// The word must lie at a multiple of eight.
pub fn write_word64<M: UserMemory>(mem: &mut M, addr: usize, word: u64) -> (r: Result<
    (),
    SysError,
>)
    requires
        old(mem).inv(),
    ensures
        final(mem).inv(),
        r is Ok <==> spec_region_valid(
            old(mem).view(),
            addr as int,
            8,
            8,
            AccessFlags::read_write(),
        ),
        r is Err ==> r == Err::<(), SysError>(SysError::InvalidAddress),
        final(mem).view() == spec_after_write(
            old(mem).view(),
            addr as int,
            spec_bytes64(word),
            8,
        ),
{
    let bytes = bytes64(word);
    write_region(mem, addr, bytes.as_slice(), 8)
}

} // verus!
