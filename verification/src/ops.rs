//! The NVVM dialect operations that the intrinsics become: their names,
//! and how many operands and results each one has.
//!
//! | Operation                         | name                                      | operands | results |
//! |-----------------------------------|-------------------------------------------|----------|---------|
//! | `SqrtApproxF32Op`                 | `nvvm.sqrt_approx_f32`                    | 1        | 1       |
//! | `CosApproxF32Op`                  | `nvvm.cos_approx_f32`                     | 1        | 1       |
//! | `SinApproxF32Op`                  | `nvvm.sin_approx_f32`                     | 1        | 1       |
//! | `Ex2ApproxF32Op`                  | `nvvm.ex2_approx_f32`                     | 1        | 1       |
//! | `Lg2ApproxF32Op`                  | `nvvm.lg2_approx_f32`                     | 1        | 1       |
//! | `WmmaLoadAM16N16K16Bf16RowOp`     | `nvvm.wmma_load_a_m16n16k16_bf16_row`     | 2        | 4       |
//! | `WmmaLoadBM16N16K16Bf16ColOp`     | `nvvm.wmma_load_b_m16n16k16_bf16_col`     | 2        | 4       |
//! | `WmmaMmaM16N16K16Bf16Bf16F32Op`   | `nvvm.wmma_mma_m16n16k16_bf16_bf16_f32`   | 16       | 8       |
//! | `WmmaStoreDM16N16K16Bf16F32RowOp` | `nvvm.wmma_store_d_m16n16k16_bf16_f32_row`| 10       | 0       |
//!
//! The operation structs are generic over the handle of the IR operation
//! they wrap, so that they can stand for an operation of any IR context.

use vstd::prelude::*;
use crate::layout::{
    AB_REGS_PER_THREAD, ACC_LANES_PER_THREAD, LOAD_OPERANDS, MMA_OPERANDS, STORE_OPERANDS,
};

verus! {

/// The kinds of NVVM dialect operation.
#[derive(PartialEq, Eq, Structural, Clone, Copy, Debug)]
pub enum NvvmOp {
    SqrtApproxF32,
    CosApproxF32,
    SinApproxF32,
    Ex2ApproxF32,
    Lg2ApproxF32,
    WmmaLoadAM16N16K16Bf16Row,
    WmmaLoadBM16N16K16Bf16Col,
    WmmaMmaM16N16K16Bf16Bf16F32,
    WmmaStoreDM16N16K16Bf16F32Row,
}

/// Whether `op` is one of the unary `*.approx.f32` operations.
pub open spec fn is_unary_approx(op: NvvmOp) -> bool {
    match op {
        NvvmOp::SqrtApproxF32 | NvvmOp::CosApproxF32 | NvvmOp::SinApproxF32
        | NvvmOp::Ex2ApproxF32 | NvvmOp::Lg2ApproxF32 => true,
        _ => false,
    }
}

/// The registered name of `op`.
pub open spec fn spec_op_name(op: NvvmOp) -> Seq<char> {
    match op {
        NvvmOp::SqrtApproxF32 => "nvvm.sqrt_approx_f32"@,
        NvvmOp::CosApproxF32 => "nvvm.cos_approx_f32"@,
        NvvmOp::SinApproxF32 => "nvvm.sin_approx_f32"@,
        NvvmOp::Ex2ApproxF32 => "nvvm.ex2_approx_f32"@,
        NvvmOp::Lg2ApproxF32 => "nvvm.lg2_approx_f32"@,
        NvvmOp::WmmaLoadAM16N16K16Bf16Row => "nvvm.wmma_load_a_m16n16k16_bf16_row"@,
        NvvmOp::WmmaLoadBM16N16K16Bf16Col => "nvvm.wmma_load_b_m16n16k16_bf16_col"@,
        NvvmOp::WmmaMmaM16N16K16Bf16Bf16F32 => "nvvm.wmma_mma_m16n16k16_bf16_bf16_f32"@,
        NvvmOp::WmmaStoreDM16N16K16Bf16F32Row => "nvvm.wmma_store_d_m16n16k16_bf16_f32_row"@,
    }
}

/// The number of operands of `op` (its `NOpdsInterface<N>`).
pub open spec fn spec_num_operands(op: NvvmOp) -> nat {
    match op {
        NvvmOp::WmmaLoadAM16N16K16Bf16Row | NvvmOp::WmmaLoadBM16N16K16Bf16Col => 2,
        NvvmOp::WmmaMmaM16N16K16Bf16Bf16F32 => 16,
        NvvmOp::WmmaStoreDM16N16K16Bf16F32Row => 10,
        _ => 1,
    }
}

/// The number of results of `op` (its `NResultsInterface<N>`).
pub open spec fn spec_num_results(op: NvvmOp) -> nat {
    match op {
        NvvmOp::WmmaLoadAM16N16K16Bf16Row | NvvmOp::WmmaLoadBM16N16K16Bf16Col => 4,
        NvvmOp::WmmaMmaM16N16K16Bf16Bf16F32 => 8,
        NvvmOp::WmmaStoreDM16N16K16Bf16F32Row => 0,
        _ => 1,
    }
}

/// All operations of the dialect, in the order in which they are registered.
pub open spec fn spec_all_ops() -> Seq<NvvmOp> {
    seq![
        NvvmOp::SqrtApproxF32,
        NvvmOp::CosApproxF32,
        NvvmOp::SinApproxF32,
        NvvmOp::Ex2ApproxF32,
        NvvmOp::Lg2ApproxF32,
        NvvmOp::WmmaLoadAM16N16K16Bf16Row,
        NvvmOp::WmmaLoadBM16N16K16Bf16Col,
        NvvmOp::WmmaMmaM16N16K16Bf16Bf16F32,
        NvvmOp::WmmaStoreDM16N16K16Bf16F32Row,
    ]
}

impl NvvmOp {
    /// The registered name of the operation.
    pub fn name(&self) -> (r: &'static str)
        ensures
            r@ == spec_op_name(*self),
    {
        match self {
            NvvmOp::SqrtApproxF32 => "nvvm.sqrt_approx_f32",
            NvvmOp::CosApproxF32 => "nvvm.cos_approx_f32",
            NvvmOp::SinApproxF32 => "nvvm.sin_approx_f32",
            NvvmOp::Ex2ApproxF32 => "nvvm.ex2_approx_f32",
            NvvmOp::Lg2ApproxF32 => "nvvm.lg2_approx_f32",
            NvvmOp::WmmaLoadAM16N16K16Bf16Row => "nvvm.wmma_load_a_m16n16k16_bf16_row",
            NvvmOp::WmmaLoadBM16N16K16Bf16Col => "nvvm.wmma_load_b_m16n16k16_bf16_col",
            NvvmOp::WmmaMmaM16N16K16Bf16Bf16F32 => "nvvm.wmma_mma_m16n16k16_bf16_bf16_f32",
            NvvmOp::WmmaStoreDM16N16K16Bf16F32Row => "nvvm.wmma_store_d_m16n16k16_bf16_f32_row",
        }
    }

    /// The number of operands the operation takes.
    pub fn num_operands(&self) -> (r: usize)
        ensures
            r == spec_num_operands(*self),
    {
        match self {
            NvvmOp::WmmaLoadAM16N16K16Bf16Row | NvvmOp::WmmaLoadBM16N16K16Bf16Col => LOAD_OPERANDS,
            NvvmOp::WmmaMmaM16N16K16Bf16Bf16F32 => MMA_OPERANDS,
            NvvmOp::WmmaStoreDM16N16K16Bf16F32Row => STORE_OPERANDS,
            _ => 1,
        }
    }

    /// The number of results the operation defines.
    pub fn num_results(&self) -> (r: usize)
        ensures
            r == spec_num_results(*self),
    {
        match self {
            NvvmOp::WmmaLoadAM16N16K16Bf16Row | NvvmOp::WmmaLoadBM16N16K16Bf16Col => AB_REGS_PER_THREAD,
            NvvmOp::WmmaMmaM16N16K16Bf16Bf16F32 => ACC_LANES_PER_THREAD,
            NvvmOp::WmmaStoreDM16N16K16Bf16F32Row => 0,
            _ => 1,
        }
    }
}

/// All operations of the dialect, in the order in which they are registered
/// with an IR context.
pub fn all_ops() -> (r: Vec<NvvmOp>)
    ensures
        r@ == spec_all_ops(),
{
    vec![
        NvvmOp::SqrtApproxF32,
        NvvmOp::CosApproxF32,
        NvvmOp::SinApproxF32,
        NvvmOp::Ex2ApproxF32,
        NvvmOp::Lg2ApproxF32,
        NvvmOp::WmmaLoadAM16N16K16Bf16Row,
        NvvmOp::WmmaLoadBM16N16K16Bf16Col,
        NvvmOp::WmmaMmaM16N16K16Bf16Bf16F32,
        NvvmOp::WmmaStoreDM16N16K16Bf16F32Row,
    ]
}

/// Every kind of operation is registered exactly once, and no two kinds
/// share a name.
pub proof fn lemma_registry_complete_and_names_distinct(a: NvvmOp, b: NvvmOp)
    ensures
        spec_all_ops().contains(a),
        spec_all_ops().no_duplicates(),
        a != b ==> spec_op_name(a) != spec_op_name(b),
{
    assert(spec_all_ops()[0] == NvvmOp::SqrtApproxF32);
    assert(spec_all_ops()[1] == NvvmOp::CosApproxF32);
    assert(spec_all_ops()[2] == NvvmOp::SinApproxF32);
    assert(spec_all_ops()[3] == NvvmOp::Ex2ApproxF32);
    assert(spec_all_ops()[4] == NvvmOp::Lg2ApproxF32);
    assert(spec_all_ops()[5] == NvvmOp::WmmaLoadAM16N16K16Bf16Row);
    assert(spec_all_ops()[6] == NvvmOp::WmmaLoadBM16N16K16Bf16Col);
    assert(spec_all_ops()[7] == NvvmOp::WmmaMmaM16N16K16Bf16Bf16F32);
    assert(spec_all_ops()[8] == NvvmOp::WmmaStoreDM16N16K16Bf16F32Row);
    lemma_name_signature(a);
    lemma_name_signature(b);
}

/// The length of an operation's name, with its characters at positions 5
/// and 15: enough to tell every two names apart.
pub open spec fn name_signature(op: NvvmOp) -> (nat, char, char) {
    match op {
        NvvmOp::SqrtApproxF32 => (20, 's', 'x'),
        NvvmOp::CosApproxF32 => (19, 'c', '_'),
        NvvmOp::SinApproxF32 => (19, 's', '_'),
        NvvmOp::Ex2ApproxF32 => (19, 'e', '_'),
        NvvmOp::Lg2ApproxF32 => (19, 'l', '_'),
        NvvmOp::WmmaLoadAM16N16K16Bf16Row => (35, 'w', 'a'),
        NvvmOp::WmmaLoadBM16N16K16Bf16Col => (35, 'w', 'b'),
        NvvmOp::WmmaMmaM16N16K16Bf16Bf16F32 => (37, 'w', '1'),
        NvvmOp::WmmaStoreDM16N16K16Bf16F32Row => (40, 'w', '_'),
    }
}

proof fn lemma_name_signature(op: NvvmOp)
    ensures
        spec_op_name(op).len() == name_signature(op).0,
        spec_op_name(op)[5] == name_signature(op).1,
        spec_op_name(op)[15] == name_signature(op).2,
{
    match op {
        NvvmOp::SqrtApproxF32 => reveal_strlit("nvvm.sqrt_approx_f32"),
        NvvmOp::CosApproxF32 => reveal_strlit("nvvm.cos_approx_f32"),
        NvvmOp::SinApproxF32 => reveal_strlit("nvvm.sin_approx_f32"),
        NvvmOp::Ex2ApproxF32 => reveal_strlit("nvvm.ex2_approx_f32"),
        NvvmOp::Lg2ApproxF32 => reveal_strlit("nvvm.lg2_approx_f32"),
        NvvmOp::WmmaLoadAM16N16K16Bf16Row => reveal_strlit("nvvm.wmma_load_a_m16n16k16_bf16_row"),
        NvvmOp::WmmaLoadBM16N16K16Bf16Col => reveal_strlit("nvvm.wmma_load_b_m16n16k16_bf16_col"),
        NvvmOp::WmmaMmaM16N16K16Bf16Bf16F32 => reveal_strlit("nvvm.wmma_mma_m16n16k16_bf16_bf16_f32"),
        NvvmOp::WmmaStoreDM16N16K16Bf16F32Row => reveal_strlit("nvvm.wmma_store_d_m16n16k16_bf16_f32_row"),
    }
}

/// Approximate sqrt for f32.
///
/// Corresponds to `llvm.nvvm.sqrt.approx.f` / PTX `sqrt.approx.f32`.
pub struct SqrtApproxF32Op<H> {
    op: H,
}

impl<H: Copy> SqrtApproxF32Op<H> {
    /// The IR operation that this value wraps.
    pub closed spec fn operation(&self) -> H {
        self.op
    }

    /// Wrap an existing operation handle.
    pub fn new(op: H) -> (r: Self)
        ensures
            r.operation() == op,
    {
        SqrtApproxF32Op { op }
    }

    /// The wrapped operation handle.
    pub fn get_operation(&self) -> (r: H)
        ensures
            r == self.operation(),
    {
        self.op
    }

    /// The kind of dialect operation that this type stands for.
    pub fn kind() -> (r: NvvmOp)
        ensures
            r == NvvmOp::SqrtApproxF32,
    {
        NvvmOp::SqrtApproxF32
    }
}

/// Approximate cosine for f32.
///
/// Corresponds to `llvm.nvvm.cos.approx.f` / PTX `cos.approx.f32`.
pub struct CosApproxF32Op<H> {
    op: H,
}

impl<H: Copy> CosApproxF32Op<H> {
    /// The IR operation that this value wraps.
    pub closed spec fn operation(&self) -> H {
        self.op
    }

    /// Wrap an existing operation handle.
    pub fn new(op: H) -> (r: Self)
        ensures
            r.operation() == op,
    {
        CosApproxF32Op { op }
    }

    /// The wrapped operation handle.
    pub fn get_operation(&self) -> (r: H)
        ensures
            r == self.operation(),
    {
        self.op
    }

    /// The kind of dialect operation that this type stands for.
    pub fn kind() -> (r: NvvmOp)
        ensures
            r == NvvmOp::CosApproxF32,
    {
        NvvmOp::CosApproxF32
    }
}

/// Approximate sine for f32.
///
/// Corresponds to `llvm.nvvm.sin.approx.f` / PTX `sin.approx.f32`.
pub struct SinApproxF32Op<H> {
    op: H,
}

impl<H: Copy> SinApproxF32Op<H> {
    /// The IR operation that this value wraps.
    pub closed spec fn operation(&self) -> H {
        self.op
    }

    /// Wrap an existing operation handle.
    pub fn new(op: H) -> (r: Self)
        ensures
            r.operation() == op,
    {
        SinApproxF32Op { op }
    }

    /// The wrapped operation handle.
    pub fn get_operation(&self) -> (r: H)
        ensures
            r == self.operation(),
    {
        self.op
    }

    /// The kind of dialect operation that this type stands for.
    pub fn kind() -> (r: NvvmOp)
        ensures
            r == NvvmOp::SinApproxF32,
    {
        NvvmOp::SinApproxF32
    }
}

/// Approximate 2^x for f32.
///
/// Corresponds to `llvm.nvvm.ex2.approx.f` / PTX `ex2.approx.f32`.
pub struct Ex2ApproxF32Op<H> {
    op: H,
}

impl<H: Copy> Ex2ApproxF32Op<H> {
    /// The IR operation that this value wraps.
    pub closed spec fn operation(&self) -> H {
        self.op
    }

    /// Wrap an existing operation handle.
    pub fn new(op: H) -> (r: Self)
        ensures
            r.operation() == op,
    {
        Ex2ApproxF32Op { op }
    }

    /// The wrapped operation handle.
    pub fn get_operation(&self) -> (r: H)
        ensures
            r == self.operation(),
    {
        self.op
    }

    /// The kind of dialect operation that this type stands for.
    pub fn kind() -> (r: NvvmOp)
        ensures
            r == NvvmOp::Ex2ApproxF32,
    {
        NvvmOp::Ex2ApproxF32
    }
}

/// Approximate log2(x) for f32.
///
/// Corresponds to `llvm.nvvm.lg2.approx.f` / PTX `lg2.approx.f32`.
pub struct Lg2ApproxF32Op<H> {
    op: H,
}

impl<H: Copy> Lg2ApproxF32Op<H> {
    /// The IR operation that this value wraps.
    pub closed spec fn operation(&self) -> H {
        self.op
    }

    /// Wrap an existing operation handle.
    pub fn new(op: H) -> (r: Self)
        ensures
            r.operation() == op,
    {
        Lg2ApproxF32Op { op }
    }

    /// The wrapped operation handle.
    pub fn get_operation(&self) -> (r: H)
        ensures
            r == self.operation(),
    {
        self.op
    }

    /// The kind of dialect operation that this type stands for.
    pub fn kind() -> (r: NvvmOp)
        ensures
            r == NvvmOp::Lg2ApproxF32,
    {
        NvvmOp::Lg2ApproxF32
    }
}

/// Warp-cooperative load of an A fragment, m16n16k16 bf16, row-major.
///
/// Corresponds to operands `[src_ptr, stride]`; results: 4 u32 (packed bf16 pairs).
pub struct WmmaLoadAM16N16K16Bf16RowOp<H> {
    op: H,
}

impl<H: Copy> WmmaLoadAM16N16K16Bf16RowOp<H> {
    /// The IR operation that this value wraps.
    pub closed spec fn operation(&self) -> H {
        self.op
    }

    /// Wrap an existing operation handle.
    pub fn new(op: H) -> (r: Self)
        ensures
            r.operation() == op,
    {
        WmmaLoadAM16N16K16Bf16RowOp { op }
    }

    /// The wrapped operation handle.
    pub fn get_operation(&self) -> (r: H)
        ensures
            r == self.operation(),
    {
        self.op
    }

    /// The kind of dialect operation that this type stands for.
    pub fn kind() -> (r: NvvmOp)
        ensures
            r == NvvmOp::WmmaLoadAM16N16K16Bf16Row,
    {
        NvvmOp::WmmaLoadAM16N16K16Bf16Row
    }
}

/// Warp-cooperative load of a B fragment, m16n16k16 bf16, column-major.
///
/// Corresponds to operands `[src_ptr, stride]`; results: 4 u32 (packed bf16 pairs).
pub struct WmmaLoadBM16N16K16Bf16ColOp<H> {
    op: H,
}

impl<H: Copy> WmmaLoadBM16N16K16Bf16ColOp<H> {
    /// The IR operation that this value wraps.
    pub closed spec fn operation(&self) -> H {
        self.op
    }

    /// Wrap an existing operation handle.
    pub fn new(op: H) -> (r: Self)
        ensures
            r.operation() == op,
    {
        WmmaLoadBM16N16K16Bf16ColOp { op }
    }

    /// The wrapped operation handle.
    pub fn get_operation(&self) -> (r: H)
        ensures
            r == self.operation(),
    {
        self.op
    }

    /// The kind of dialect operation that this type stands for.
    pub fn kind() -> (r: NvvmOp)
        ensures
            r == NvvmOp::WmmaLoadBM16N16K16Bf16Col,
    {
        NvvmOp::WmmaLoadBM16N16K16Bf16Col
    }
}

/// Warp-cooperative MMA `D = A * B + C`, m16n16k16 bf16 x bf16 -> f32.
///
/// Corresponds to operands `[a0..a3, b0..b3, c0..c7]`; results: 8 f32 (the new accumulator lanes).
pub struct WmmaMmaM16N16K16Bf16Bf16F32Op<H> {
    op: H,
}

impl<H: Copy> WmmaMmaM16N16K16Bf16Bf16F32Op<H> {
    /// The IR operation that this value wraps.
    pub closed spec fn operation(&self) -> H {
        self.op
    }

    /// Wrap an existing operation handle.
    pub fn new(op: H) -> (r: Self)
        ensures
            r.operation() == op,
    {
        WmmaMmaM16N16K16Bf16Bf16F32Op { op }
    }

    /// The wrapped operation handle.
    pub fn get_operation(&self) -> (r: H)
        ensures
            r == self.operation(),
    {
        self.op
    }

    /// The kind of dialect operation that this type stands for.
    pub fn kind() -> (r: NvvmOp)
        ensures
            r == NvvmOp::WmmaMmaM16N16K16Bf16Bf16F32,
    {
        NvvmOp::WmmaMmaM16N16K16Bf16Bf16F32
    }
}

/// Warp-cooperative store of a D fragment, m16n16k16 f32, row-major.
///
/// Corresponds to operands `[dst_ptr, stride, d0..d7]`; no results.
pub struct WmmaStoreDM16N16K16Bf16F32RowOp<H> {
    op: H,
}

impl<H: Copy> WmmaStoreDM16N16K16Bf16F32RowOp<H> {
    /// The IR operation that this value wraps.
    pub closed spec fn operation(&self) -> H {
        self.op
    }

    /// Wrap an existing operation handle.
    pub fn new(op: H) -> (r: Self)
        ensures
            r.operation() == op,
    {
        WmmaStoreDM16N16K16Bf16F32RowOp { op }
    }

    /// The wrapped operation handle.
    pub fn get_operation(&self) -> (r: H)
        ensures
            r == self.operation(),
    {
        self.op
    }

    /// The kind of dialect operation that this type stands for.
    pub fn kind() -> (r: NvvmOp)
        ensures
            r == NvvmOp::WmmaStoreDM16N16K16Bf16F32Row,
    {
        NvvmOp::WmmaStoreDM16N16K16Bf16F32Row
    }
}

} // verus!
