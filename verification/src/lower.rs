//! Lowering of the NVVM dialect operations to LLVM: the checks and the
//! shape of what each operation becomes.
//!
//! | Operation         | Lowering                          |
//! |-------------------|-----------------------------------|
//! | `*.approx.f32`    | call of its NVVM intrinsic, f32(f32) |
//! | WMMA load A / B   | inline PTX, 4 i32 results         |
//! | WMMA MMA          | inline PTX, 8 f32 results         |
//! | WMMA store D      | inline PTX, no result, clobbers memory |
//!
//! | Operation         | Intrinsic                 | PTX               |
//! |-------------------|---------------------------|-------------------|
//! | `SqrtApproxF32Op` | `llvm_nvvm_sqrt_approx_f` | `sqrt.approx.f32` |
//! | `CosApproxF32Op`  | `llvm_nvvm_cos_approx_f`  | `cos.approx.f32`  |
//! | `SinApproxF32Op`  | `llvm_nvvm_sin_approx_f`  | `sin.approx.f32`  |
//! | `Ex2ApproxF32Op`  | `llvm_nvvm_ex2_approx_f`  | `ex2.approx.f32`  |
//! | `Lg2ApproxF32Op`  | `llvm_nvvm_lg2_approx_f`  | `lg2.approx.f32`  |
//!
//! The inline PTX goes through `llc` directly rather than through the
//! `llvm.nvvm.wmma.*` intrinsics, which need libNVVM.

use vstd::prelude::*;
use crate::ops::{NvvmOp, is_unary_approx, spec_num_operands, spec_num_results, spec_op_name};
use crate::ptx::{
    is_wmma, lemma_statement_text, lemma_wmma_statement_well_formed, render_constraints,
    render_template, spec_constraints_text, spec_template_text, wmma_statement,
};
use crate::text::{decimal, push_decimal};

verus! {

/// The type of a value that the lowering produces or passes.
#[derive(PartialEq, Eq, Structural, Clone, Copy, Debug)]
pub enum LaneType {
    /// A signless 32-bit integer.
    I32,
    /// An unsigned 32-bit integer.
    U32,
    /// A 32-bit float.
    F32,
}

/// Why an operation could not be lowered.
#[derive(PartialEq, Eq, Structural, Clone, Copy, Debug)]
pub enum LoweringError {
    /// The operation has `found` operands, not the number its kind takes.
    OperandCount { op: NvvmOp, found: usize },
}

/// The text of a lowering error.
pub open spec fn spec_lowering_message(e: LoweringError) -> Seq<char> {
    match e {
        LoweringError::OperandCount { op, found } => {
            let head = match op {
                NvvmOp::WmmaLoadAM16N16K16Bf16Row | NvvmOp::WmmaLoadBM16N16K16Bf16Col =>
                    "wmma load requires 2 operands [ptr, stride], got "@,
                NvvmOp::WmmaMmaM16N16K16Bf16Bf16F32 =>
                    "wmma mma requires 16 operands [a0..3, b0..3, c0..7], got "@,
                NvvmOp::WmmaStoreDM16N16K16Bf16F32Row =>
                    "wmma store_d requires 10 operands [dst, stride, d0..7], got "@,
                _ => "*.approx.f32 unary math op requires 1 operand, got "@,
            };
            head + decimal(found as nat)
        },
    }
}

impl LoweringError {
    /// The error's text, naming the number of operands found.
    pub fn message(&self) -> (r: String)
        ensures
            r@ == spec_lowering_message(*self),
    {
        let mut s = String::new();
        match *self {
            LoweringError::OperandCount { op, found } => {
                match op {
                    NvvmOp::WmmaLoadAM16N16K16Bf16Row | NvvmOp::WmmaLoadBM16N16K16Bf16Col => {
                        s.append("wmma load requires 2 operands [ptr, stride], got ");
                    },
                    NvvmOp::WmmaMmaM16N16K16Bf16Bf16F32 => {
                        s.append("wmma mma requires 16 operands [a0..3, b0..3, c0..7], got ");
                    },
                    NvvmOp::WmmaStoreDM16N16K16Bf16F32Row => {
                        s.append("wmma store_d requires 10 operands [dst, stride, d0..7], got ");
                    },
                    _ => {
                        s.append("*.approx.f32 unary math op requires 1 operand, got ");
                    },
                }
                push_decimal(&mut s, found);
            },
        }
        s
    }
}

/// An operation with `found` operands is lowered only if its kind takes
/// exactly that many.
pub fn check_operand_count(op: NvvmOp, found: usize) -> (r: Result<(), LoweringError>)
    ensures
        r is Ok <==> found == spec_num_operands(op),
        r matches Err(e) ==> e == (LoweringError::OperandCount { op, found }),
{
    if found != op.num_operands() {
        Err(LoweringError::OperandCount { op, found })
    } else {
        Ok(())
    }
}

/// The intrinsic that an approximation lowers to; nothing for a WMMA
/// operation.
pub open spec fn spec_lowering_intrinsic(op: NvvmOp) -> Option<Seq<char>> {
    match op {
        NvvmOp::SqrtApproxF32 => Some("llvm_nvvm_sqrt_approx_f"@),
        NvvmOp::CosApproxF32 => Some("llvm_nvvm_cos_approx_f"@),
        NvvmOp::SinApproxF32 => Some("llvm_nvvm_sin_approx_f"@),
        NvvmOp::Ex2ApproxF32 => Some("llvm_nvvm_ex2_approx_f"@),
        NvvmOp::Lg2ApproxF32 => Some("llvm_nvvm_lg2_approx_f"@),
        _ => None,
    }
}

/// The intrinsic that an approximation lowers to; `None` for a WMMA
/// operation, which lowers to inline PTX.
pub fn lowering_intrinsic(op: NvvmOp) -> (r: Option<&'static str>)
    ensures
        match r {
            Some(name) => spec_lowering_intrinsic(op) == Some(name@),
            None => spec_lowering_intrinsic(op) is None,
        },
{
    match op {
        NvvmOp::SqrtApproxF32 => Some("llvm_nvvm_sqrt_approx_f"),
        NvvmOp::CosApproxF32 => Some("llvm_nvvm_cos_approx_f"),
        NvvmOp::SinApproxF32 => Some("llvm_nvvm_sin_approx_f"),
        NvvmOp::Ex2ApproxF32 => Some("llvm_nvvm_ex2_approx_f"),
        NvvmOp::Lg2ApproxF32 => Some("llvm_nvvm_lg2_approx_f"),
        _ => None,
    }
}

/// The type of each field of the result struct of a WMMA statement.
pub open spec fn spec_field_type(op: NvvmOp) -> LaneType {
    match op {
        NvvmOp::WmmaLoadAM16N16K16Bf16Row | NvvmOp::WmmaLoadBM16N16K16Bf16Col => LaneType::I32,
        _ => LaneType::F32,
    }
}

/// What an inline PTX lowering builds.
pub struct InlineAsmLowering {
    /// The statement's template.
    pub template: String,
    /// The statement's constraint list.
    pub constraints: String,
    /// The fields of the struct that the statement returns; empty for a
    /// statement with no result (its type is `void`).
    pub fields: Vec<LaneType>,
    /// The field indices to extract, in order; the extracted values
    /// replace the operation's results one for one.
    pub extract: Vec<u32>,
    /// Whether the operation is erased rather than replaced by values.
    pub erase: bool,
}

/// What an operation is lowered to.
pub enum Lowering {
    /// A call of the NVVM intrinsic `intrinsic`, whose function type has
    /// `params` and returns `ret`, on the operation's operands in order;
    /// the call replaces the operation.
    IntrinsicCall { intrinsic: &'static str, params: Vec<LaneType>, ret: LaneType },
    /// An inline PTX statement.
    InlineAsm(InlineAsmLowering),
}

/// The lowering of `op`, given the number of operands the operation has.
pub open spec fn lowering_matches(op: NvvmOp, l: Lowering) -> bool {
    match l {
        Lowering::IntrinsicCall { intrinsic, params, ret } => {
            &&& is_unary_approx(op)
            &&& spec_lowering_intrinsic(op) == Some(intrinsic@)
            &&& params@ == seq![LaneType::F32]
            &&& ret == LaneType::F32
        },
        Lowering::InlineAsm(a) => {
            &&& is_wmma(op)
            &&& a.template@ == spec_template_text(op)
            &&& a.constraints@ == spec_constraints_text(op)
            &&& a.fields@ == Seq::new(spec_num_results(op), |i: int| spec_field_type(op))
            &&& a.extract@ == Seq::new(spec_num_results(op), |i: int| i as u32)
            &&& a.erase == (spec_num_results(op) == 0)
        },
    }
}

/// Plans the lowering of an operation of kind `op` that has `num_operands`
/// operands: an error if the count is not the kind's, else the intrinsic
/// call (for `*.approx.f32`) or the inline PTX statement (for WMMA).
pub fn plan_lowering(op: NvvmOp, num_operands: usize) -> (r: Result<Lowering, LoweringError>)
    ensures
        r is Ok <==> num_operands == spec_num_operands(op),
        r matches Err(e) ==> e == (LoweringError::OperandCount { op, found: num_operands }),
        r matches Ok(l) ==> lowering_matches(op, l),
{
    check_operand_count(op, num_operands)?;
    match wmma_statement(op) {
        None => {
            let intrinsic = match lowering_intrinsic(op) {
                Some(name) => name,
                None => "",
            };
            let params = vec![LaneType::F32];
            assert(params@ =~= seq![LaneType::F32]);
            Ok(Lowering::IntrinsicCall { intrinsic, params, ret: LaneType::F32 })
        },
        Some(st) => {
            proof {
                lemma_wmma_statement_well_formed(op);
                lemma_statement_text(op);
            }
            let template = render_template(&st);
            let constraints = render_constraints(&st);
            let n = op.num_results();
            let ty = match op {
                NvvmOp::WmmaLoadAM16N16K16Bf16Row | NvvmOp::WmmaLoadBM16N16K16Bf16Col => LaneType::I32,
                _ => LaneType::F32,
            };
            let mut fields: Vec<LaneType> = Vec::new();
            let mut extract: Vec<u32> = Vec::new();
            let mut i: usize = 0;
            while i < n
                invariant
                    i <= n,
                    n == spec_num_results(op),
                    n <= 8,
                    ty == spec_field_type(op),
                    fields@ =~= Seq::new(i as nat, |k: int| spec_field_type(op)),
                    extract@ =~= Seq::new(i as nat, |k: int| k as u32),
                decreases n - i,
            {
                fields.push(ty);
                extract.push(i as u32);
                i = i + 1;
            }
            let l = InlineAsmLowering { template, constraints, fields, extract, erase: n == 0 };
            assert(l.fields@ == Seq::new(spec_num_results(op), |i: int| spec_field_type(op)));
            assert(l.extract@ == Seq::new(spec_num_results(op), |i: int| i as u32));
            Ok(Lowering::InlineAsm(l))
        },
    }
}

/// Each approximation lowers to the intrinsic named after it: with its
/// registered name `nvvm.<f>_approx_f32`, the intrinsic is
/// `llvm_nvvm_<f>_approx_f`; a WMMA operation lowers to no intrinsic.
pub proof fn lemma_intrinsic_named_after_op(op: NvvmOp)
    ensures
        is_unary_approx(op) ==> spec_lowering_intrinsic(op) == Some(
            "llvm_nvvm_"@ + spec_op_name(op).subrange(5, spec_op_name(op).len() - 2),
        ),
        !is_unary_approx(op) ==> spec_lowering_intrinsic(op) is None,
{
    let name = spec_op_name(op);
    reveal_strlit("llvm_nvvm_");
    match op {
        NvvmOp::SqrtApproxF32 => {
            reveal_strlit("nvvm.sqrt_approx_f32");
            reveal_strlit("llvm_nvvm_sqrt_approx_f");
            assert(spec_lowering_intrinsic(op).unwrap() =~= "llvm_nvvm_"@ + name.subrange(5, name.len() - 2));
        },
        NvvmOp::CosApproxF32 => {
            reveal_strlit("nvvm.cos_approx_f32");
            reveal_strlit("llvm_nvvm_cos_approx_f");
            assert(spec_lowering_intrinsic(op).unwrap() =~= "llvm_nvvm_"@ + name.subrange(5, name.len() - 2));
        },
        NvvmOp::SinApproxF32 => {
            reveal_strlit("nvvm.sin_approx_f32");
            reveal_strlit("llvm_nvvm_sin_approx_f");
            assert(spec_lowering_intrinsic(op).unwrap() =~= "llvm_nvvm_"@ + name.subrange(5, name.len() - 2));
        },
        NvvmOp::Ex2ApproxF32 => {
            reveal_strlit("nvvm.ex2_approx_f32");
            reveal_strlit("llvm_nvvm_ex2_approx_f");
            assert(spec_lowering_intrinsic(op).unwrap() =~= "llvm_nvvm_"@ + name.subrange(5, name.len() - 2));
        },
        NvvmOp::Lg2ApproxF32 => {
            reveal_strlit("nvvm.lg2_approx_f32");
            reveal_strlit("llvm_nvvm_lg2_approx_f");
            assert(spec_lowering_intrinsic(op).unwrap() =~= "llvm_nvvm_"@ + name.subrange(5, name.len() - 2));
        },
        _ => {},
    }
}

/// The operand-count error names the count the operation takes: its text
/// holds `requires <n> operand`, `n` being the operation's operand count,
/// whatever count was found.
pub proof fn lemma_lowering_message_names_expected_count(op: NvvmOp, found: usize)
    ensures
        exists|k: int| #![trigger spec_lowering_message(LoweringError::OperandCount { op, found }).subrange(k, k + 10 + decimal(spec_num_operands(op)).len() as int)]
            0 <= k && k + 10 + decimal(spec_num_operands(op)).len() as int
                <= spec_lowering_message(LoweringError::OperandCount { op, found }).len()
            && spec_lowering_message(LoweringError::OperandCount { op, found }).subrange(
                k,
                k + 10 + decimal(spec_num_operands(op)).len() as int,
            ) == "requires "@ + decimal(spec_num_operands(op)) + " "@,
{
    let msg = spec_lowering_message(LoweringError::OperandCount { op, found });
    let want = "requires "@ + decimal(spec_num_operands(op)) + " "@;
    reveal_strlit("requires ");
    reveal_strlit(" ");
    reveal_strlit("1");
    reveal_strlit("2");
    reveal_strlit("0");
    reveal_strlit("6");
    reveal_with_fuel(decimal, 2);
    let k: int = match op {
        NvvmOp::WmmaLoadAM16N16K16Bf16Row | NvvmOp::WmmaLoadBM16N16K16Bf16Col => {
            reveal_strlit("wmma load requires 2 operands [ptr, stride], got ");
            10
        },
        NvvmOp::WmmaMmaM16N16K16Bf16Bf16F32 => {
            reveal_strlit("wmma mma requires 16 operands [a0..3, b0..3, c0..7], got ");
            9
        },
        NvvmOp::WmmaStoreDM16N16K16Bf16F32Row => {
            reveal_strlit("wmma store_d requires 10 operands [dst, stride, d0..7], got ");
            13
        },
        _ => {
            reveal_strlit("*.approx.f32 unary math op requires 1 operand, got ");
            27
        },
    };
    assert(msg.subrange(k, k + want.len()) =~= want);
    assert(want.len() == 10 + decimal(spec_num_operands(op)).len());
    assert(msg.subrange(k, k + 10 + decimal(spec_num_operands(op)).len() as int) == want);
}

} // verus!
