//! The fixed boundary sets: for each floating domain, the ordered bit
//! patterns of the values every generated sequence must begin with. The
//! integer domain has no boundary set.

use vstd::prelude::*;

verus! {

/// Bit patterns of the nine 32-bit floating boundary values, in canonical
/// order: NaN (quiet), +infinity, -infinity, epsilon, -epsilon, max, min,
/// min positive normal, -min positive normal.
pub open spec fn f32_boundary_bits() -> Seq<u32> {
    seq![
        0x7FC0_0000u32,
        0x7F80_0000u32,
        0xFF80_0000u32,
        0x3400_0000u32,
        0xB400_0000u32,
        0x7F7F_FFFFu32,
        0xFF7F_FFFFu32,
        0x0080_0000u32,
        0x8080_0000u32,
    ]
}

/// Bit patterns of the nine 64-bit floating boundary values, in the same
/// canonical order as the 32-bit set.
pub open spec fn f64_boundary_bits() -> Seq<u64> {
    seq![
        0x7FF8_0000_0000_0000u64,
        0x7FF0_0000_0000_0000u64,
        0xFFF0_0000_0000_0000u64,
        0x3CB0_0000_0000_0000u64,
        0xBCB0_0000_0000_0000u64,
        0x7FEF_FFFF_FFFF_FFFFu64,
        0xFFEF_FFFF_FFFF_FFFFu64,
        0x0010_0000_0000_0000u64,
        0x8010_0000_0000_0000u64,
    ]
}

/// The 32-bit boundary set as a vector, for sequence assembly and for
/// callers that want the set itself.
pub fn f32_boundary_values() -> (v: Vec<u32>)
    ensures
        v@ == f32_boundary_bits(),
{
    let mut v: Vec<u32> = Vec::new();
    v.push(0x7FC0_0000);
    v.push(0x7F80_0000);
    v.push(0xFF80_0000);
    v.push(0x3400_0000);
    v.push(0xB400_0000);
    v.push(0x7F7F_FFFF);
    v.push(0xFF7F_FFFF);
    v.push(0x0080_0000);
    v.push(0x8080_0000);
    proof {
        assert(v@ =~= f32_boundary_bits());
    }
    v
}

/// The 64-bit boundary set as a vector.
pub fn f64_boundary_values() -> (v: Vec<u64>)
    ensures
        v@ == f64_boundary_bits(),
{
    let mut v: Vec<u64> = Vec::new();
    v.push(0x7FF8_0000_0000_0000);
    v.push(0x7FF0_0000_0000_0000);
    v.push(0xFFF0_0000_0000_0000);
    v.push(0x3CB0_0000_0000_0000);
    v.push(0xBCB0_0000_0000_0000);
    v.push(0x7FEF_FFFF_FFFF_FFFF);
    v.push(0xFFEF_FFFF_FFFF_FFFF);
    v.push(0x0010_0000_0000_0000);
    v.push(0x8010_0000_0000_0000);
    proof {
        assert(v@ =~= f64_boundary_bits());
    }
    v
}

} // verus!
