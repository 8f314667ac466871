//! Reading values out of blocks of 16-bit Modbus registers.
//!
//! A block is what one read returned: the registers from a start address on,
//! in order. Values wider than one register are stored big-endian: the
//! register at the lower address holds the high half.
use vstd::prelude::*;

verus! {

/// The register at `address` of a block read from `start` on, if the block holds it.
pub open spec fn spec_register(block: Seq<u16>, start: u16, address: u16) -> Option<u16> {
    if start <= address && address - start < block.len() {
        Some(block[address - start])
    } else {
        None
    }
}

/// The unsigned 32-bit value whose high half is `high` and whose low half is `low`.
pub open spec fn be_u32(high: u16, low: u16) -> u32 {
    (high as int * 0x10000 + low as int) as u32
}

/// The two's-complement reading of a 32-bit pattern.
pub open spec fn as_signed(v: u32) -> i32 {
    if v < 0x8000_0000 {
        v as i32
    } else {
        (v as int - 0x1_0000_0000) as i32
    }
}

/// The unsigned 32-bit value stored in the registers `address` and `address + 1`.
pub open spec fn spec_uint32(block: Seq<u16>, start: u16, address: u16) -> Option<u32> {
    match spec_register(block, start, address) {
        None => None,
        Some(high) => match spec_register(block, start, (address + 1) as u16) {
            None => None,
            Some(low) => Some(be_u32(high, low)),
        },
    }
}

/// The signed 32-bit value stored in the registers `address` and `address + 1`.
pub open spec fn spec_int32(block: Seq<u16>, start: u16, address: u16) -> Option<i32> {
    match spec_uint32(block, start, address) {
        None => None,
        Some(v) => Some(as_signed(v)),
    }
}

/// Looks up the register at `address` in a block of registers read from `start` on.
pub fn register(block: &[u16], start: u16, address: u16) -> (res: Option<u16>)
    ensures
        res == spec_register(block@, start, address),
{
    match address.checked_sub(start) {
        Some(offset) => {
            let idx: usize = offset as usize;
            if idx < block.len() {
                Some(block[idx])
            } else {
                None
            }
        },
        None => None,
    }
}

/// Reads the unsigned 32-bit value stored big-endian in the registers
/// `address` and `address + 1`.
///
/// There is no register after address 0xFFFF: a read that finds a register
/// there is left out.
pub fn uint32(block: &[u16], start: u16, address: u16) -> (res: Option<u32>)
    requires
        address < 0xFFFF || spec_register(block@, start, address) is None,
    ensures
        res == spec_uint32(block@, start, address),
{
    let high = match register(block, start, address) {
        Some(h) => h,
        None => return None,
    };
    let low = match register(block, start, address + 1) {
        Some(l) => l,
        None => return None,
    };
    Some((high as u32) * 0x10000 + (low as u32))
}

/// Reads the signed (two's-complement) 32-bit value stored big-endian in the
/// registers `address` and `address + 1`.
pub fn int32(block: &[u16], start: u16, address: u16) -> (res: Option<i32>)
    requires
        address < 0xFFFF || spec_register(block@, start, address) is None,
    ensures
        res == spec_int32(block@, start, address),
{
    match uint32(block, start, address) {
        None => None,
        Some(v) => Some(reinterpret_signed(v)),
    }
}

/// The two's-complement reading of a 32-bit pattern.
fn reinterpret_signed(v: u32) -> (res: i32)
    ensures
        res == as_signed(v),
{
    if v < 0x8000_0000 {
        v as i32
    } else {
        ((v as i64) - 0x1_0000_0000i64) as i32
    }
}

/// The signed and the unsigned reading of the same two registers agree: both
/// are present or both absent, and the signed one equals the unsigned one
/// below 2^31 and the unsigned one minus 2^32 from there on.
pub proof fn lemma_int32_reinterprets_uint32(block: Seq<u16>, start: u16, address: u16)
    ensures
        spec_int32(block, start, address) is Some <==> spec_uint32(block, start, address) is Some,
        spec_uint32(block, start, address) matches Some(u) ==> {
            &&& u < 0x8000_0000 ==> spec_int32(block, start, address) == Some(u as i32)
            &&& u >= 0x8000_0000 ==> spec_int32(block, start, address)->0 as int == u as int
                - 0x1_0000_0000
        },
{
}

/// A 32-bit value can be read exactly when the block holds both of its
/// registers, and its value is `high * 65536 + low`.
pub proof fn lemma_uint32_present(block: Seq<u16>, start: u16, address: u16)
    requires
        address < 0xFFFF,
    ensures
        spec_uint32(block, start, address) is Some <==> (start <= address && address + 1 - start
            < block.len()),
        spec_uint32(block, start, address) matches Some(u) ==> u as int == block[address
            - start] as int * 65536 + block[address + 1 - start] as int,
{
}

} // verus!
