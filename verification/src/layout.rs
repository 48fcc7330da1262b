//! Per-warp WMMA fragment layout for the m16n16k16 shape with bf16 inputs
//! and an f32 accumulator, and the order in which the lanes of the
//! fragments travel as operands of the raw intrinsics.
//!
//! Each warp of 32 threads holds a 16x16 tile collectively: an A or B
//! fragment is 4 `u32` registers per thread, each packing two bf16
//! values, and a C or D accumulator is 8 `f32` lanes per thread.

use vstd::prelude::*;

verus! {

/// Threads per warp.
pub const WARP_SIZE: usize = 32;

/// Rows and columns of a WMMA tile (m = n = k = 16).
pub const TILE_DIM: usize = 16;

/// `u32` registers per thread in an A or B fragment.
pub const AB_REGS_PER_THREAD: usize = 4;

/// bf16 values packed in one `u32` register.
pub const BF16_PER_REG: usize = 2;

/// `f32` lanes per thread in a C or D accumulator.
pub const ACC_LANES_PER_THREAD: usize = 8;

/// Operands of the raw MMA intrinsic: `a0..a3, b0..b3, c0..c7`.
pub const MMA_OPERANDS: usize = 16;

/// Operands of the raw store intrinsic: `dst, stride, d0..d7`.
pub const STORE_OPERANDS: usize = 10;

/// Operands of a fragment load: `src, stride`.
pub const LOAD_OPERANDS: usize = 2;

/// The role of one operand of the raw MMA intrinsic.
#[derive(PartialEq, Eq, Structural, Clone, Copy, Debug)]
pub enum MmaOperand {
    /// Register `i` of the A fragment.
    A(usize),
    /// Register `i` of the B fragment.
    B(usize),
    /// Lane `i` of the C accumulator.
    C(usize),
}

/// The role of one operand of the raw store intrinsic.
#[derive(PartialEq, Eq, Structural, Clone, Copy, Debug)]
pub enum StoreOperand {
    /// The destination address.
    Dst,
    /// The row stride, in elements.
    Stride,
    /// Lane `i` of the D accumulator.
    D(usize),
}

/// The role of one operand of a fragment load.
#[derive(PartialEq, Eq, Structural, Clone, Copy, Debug)]
pub enum LoadOperand {
    /// The source address.
    Src,
    /// The row stride, in elements.
    Stride,
}

/// Whether a role names an existing register or lane.
pub open spec fn mma_operand_valid(o: MmaOperand) -> bool {
    match o {
        MmaOperand::A(i) => i < AB_REGS_PER_THREAD,
        MmaOperand::B(i) => i < AB_REGS_PER_THREAD,
        MmaOperand::C(i) => i < ACC_LANES_PER_THREAD,
    }
}

/// The role of the `i`-th operand of the raw MMA intrinsic.
pub open spec fn spec_mma_operand_at(i: usize) -> Option<MmaOperand> {
    if i < 4 {
        Some(MmaOperand::A(i))
    } else if i < 8 {
        Some(MmaOperand::B((i - 4) as usize))
    } else if i < 16 {
        Some(MmaOperand::C((i - 8) as usize))
    } else {
        None
    }
}

/// The position of a role among the raw MMA operands.
pub open spec fn spec_mma_operand_index(o: MmaOperand) -> int {
    match o {
        MmaOperand::A(i) => i as int,
        MmaOperand::B(i) => 4 + i,
        MmaOperand::C(i) => 8 + i,
    }
}

/// Whether a role names an existing lane.
pub open spec fn store_operand_valid(o: StoreOperand) -> bool {
    match o {
        StoreOperand::D(i) => i < ACC_LANES_PER_THREAD,
        _ => true,
    }
}

/// The role of the `i`-th operand of the raw store intrinsic.
pub open spec fn spec_store_operand_at(i: usize) -> Option<StoreOperand> {
    if i == 0 {
        Some(StoreOperand::Dst)
    } else if i == 1 {
        Some(StoreOperand::Stride)
    } else if i < 10 {
        Some(StoreOperand::D((i - 2) as usize))
    } else {
        None
    }
}

/// The position of a role among the raw store operands.
pub open spec fn spec_store_operand_index(o: StoreOperand) -> int {
    match o {
        StoreOperand::Dst => 0,
        StoreOperand::Stride => 1,
        StoreOperand::D(i) => 2 + i,
    }
}

/// The role of the `i`-th operand of a fragment load.
pub open spec fn spec_load_operand_at(i: usize) -> Option<LoadOperand> {
    if i == 0 {
        Some(LoadOperand::Src)
    } else if i == 1 {
        Some(LoadOperand::Stride)
    } else {
        None
    }
}

/// The role of the `i`-th operand of the raw MMA intrinsic, if there is one.
pub fn mma_operand_at(i: usize) -> (r: Option<MmaOperand>)
    ensures
        r == spec_mma_operand_at(i),
{
    if i < 4 {
        Some(MmaOperand::A(i))
    } else if i < 8 {
        Some(MmaOperand::B(i - 4))
    } else if i < 16 {
        Some(MmaOperand::C(i - 8))
    } else {
        None
    }
}

/// The position among the raw MMA operands of the register or lane `o`.
pub fn mma_operand_index(o: MmaOperand) -> (r: usize)
    requires
        mma_operand_valid(o),
    ensures
        r as int == spec_mma_operand_index(o),
{
    match o {
        MmaOperand::A(i) => i,
        MmaOperand::B(i) => 4 + i,
        MmaOperand::C(i) => 8 + i,
    }
}

/// The role of the `i`-th operand of the raw store intrinsic, if there is one.
pub fn store_operand_at(i: usize) -> (r: Option<StoreOperand>)
    ensures
        r == spec_store_operand_at(i),
{
    if i == 0 {
        Some(StoreOperand::Dst)
    } else if i == 1 {
        Some(StoreOperand::Stride)
    } else if i < 10 {
        Some(StoreOperand::D(i - 2))
    } else {
        None
    }
}

/// The position among the raw store operands of `o`.
pub fn store_operand_index(o: StoreOperand) -> (r: usize)
    requires
        store_operand_valid(o),
    ensures
        r as int == spec_store_operand_index(o),
{
    match o {
        StoreOperand::Dst => 0,
        StoreOperand::Stride => 1,
        StoreOperand::D(i) => 2 + i,
    }
}

/// The role of the `i`-th operand of a fragment load, if there is one.
pub fn load_operand_at(i: usize) -> (r: Option<LoadOperand>)
    ensures
        r == spec_load_operand_at(i),
{
    if i == 0 {
        Some(LoadOperand::Src)
    } else if i == 1 {
        Some(LoadOperand::Stride)
    } else {
        None
    }
}

/// A warp's A or B fragments together hold one 16x16 bf16 tile
/// (4 registers x 32 threads = 128 registers = 256 bf16 values), and its
/// accumulators one 16x16 f32 tile (8 lanes x 32 threads = 256 values).
pub proof fn lemma_fragments_cover_tile()
    ensures
        AB_REGS_PER_THREAD * WARP_SIZE == 128,
        AB_REGS_PER_THREAD * WARP_SIZE * BF16_PER_REG == TILE_DIM * TILE_DIM,
        ACC_LANES_PER_THREAD * WARP_SIZE == TILE_DIM * TILE_DIM,
{
}

/// The MMA operand list is `A`'s registers, then `B`'s, then `C`'s lanes:
/// each position in `0..16` has exactly one role, and each role exactly one
/// position.
pub proof fn lemma_mma_operand_layout_bijective(i: usize, o: MmaOperand)
    ensures
        i < MMA_OPERANDS <==> spec_mma_operand_at(i) is Some,
        spec_mma_operand_at(i) matches Some(r) ==> mma_operand_valid(r)
            && spec_mma_operand_index(r) == i,
        mma_operand_valid(o) ==> 0 <= spec_mma_operand_index(o) < MMA_OPERANDS
            && spec_mma_operand_at(spec_mma_operand_index(o) as usize) == Some(o),
        MMA_OPERANDS == 2 * AB_REGS_PER_THREAD + ACC_LANES_PER_THREAD,
{
}

/// The store operand list is the address, the stride, then `D`'s lanes:
/// each position in `0..10` has exactly one role, and each role exactly
/// one position.
pub proof fn lemma_store_operand_layout_bijective(i: usize, o: StoreOperand)
    ensures
        i < STORE_OPERANDS <==> spec_store_operand_at(i) is Some,
        spec_store_operand_at(i) matches Some(r) ==> store_operand_valid(r)
            && spec_store_operand_index(r) == i,
        store_operand_valid(o) ==> 0 <= spec_store_operand_index(o) < STORE_OPERANDS
            && spec_store_operand_at(spec_store_operand_index(o) as usize) == Some(o),
        STORE_OPERANDS == 2 + ACC_LANES_PER_THREAD,
{
}

} // verus!
