//! Import of calls of the device intrinsics, as they appear in MIR,
//! into NVVM dialect operations: the argument checks and the shape of the
//! operation that each call becomes.
//!
//! A call of `cuda_device::math::*_approx_f32` becomes the matching unary
//! `*.approx.f32` operation with one f32 result; a WMMA load becomes an
//! operation with four `u32` results, packed into a `[u32; 4]` array and
//! then into the destination's fragment struct; the raw MMA becomes an
//! operation with eight f32 results, packed the same way; the raw store
//! becomes an operation with no result.

use vstd::prelude::*;
use crate::lower::{LaneType, spec_field_type};
use crate::ptx::{Constraint, is_output, is_wmma, lemma_wmma_statement_well_formed, spec_constraints};
use crate::ops::{NvvmOp, is_unary_approx, spec_num_operands, spec_num_results, spec_op_name};
use crate::text::{decimal, push_decimal};

verus! {

/// Why a call could not be imported.
pub enum ImportError {
    /// The call of the intrinsic named `label` has `found` arguments, not
    /// the number its operation takes.
    ArgCount { op: NvvmOp, label: String, found: usize },
    /// A call that must continue somewhere has no target block.
    MissingTarget { message: String },
}

/// What the error message says after the label, before the count.
pub open spec fn spec_arg_count_middle(op: NvvmOp) -> Seq<char> {
    match op {
        NvvmOp::WmmaLoadAM16N16K16Bf16Row | NvvmOp::WmmaLoadBM16N16K16Bf16Col =>
            " expects 2 arguments (src, stride), got "@,
        NvvmOp::WmmaMmaM16N16K16Bf16Bf16F32 =>
            " expects 16 arguments (a0..a3, b0..b3, c0..c7), got "@,
        NvvmOp::WmmaStoreDM16N16K16Bf16F32Row =>
            " expects 10 arguments (dst, stride, d0..d7), got "@,
        _ => " expects 1 argument (x: f32), got "@,
    }
}

/// The text of an import error.
pub open spec fn spec_import_message(e: ImportError) -> Seq<char> {
    match e {
        ImportError::ArgCount { op, label, found } =>
            label@ + spec_arg_count_middle(op) + decimal(found as nat),
        ImportError::MissingTarget { message } => message@,
    }
}

impl ImportError {
    /// The error's text.
    pub fn message(&self) -> (r: String)
        ensures
            r@ == spec_import_message(*self),
    {
        match self {
            ImportError::ArgCount { op, label, found } => {
                let mut s = String::new();
                s.append(label.as_str());
                match op {
                    NvvmOp::WmmaLoadAM16N16K16Bf16Row | NvvmOp::WmmaLoadBM16N16K16Bf16Col => {
                        s.append(" expects 2 arguments (src, stride), got ");
                    },
                    NvvmOp::WmmaMmaM16N16K16Bf16Bf16F32 => {
                        s.append(" expects 16 arguments (a0..a3, b0..b3, c0..c7), got ");
                    },
                    NvvmOp::WmmaStoreDM16N16K16Bf16F32Row => {
                        s.append(" expects 10 arguments (dst, stride, d0..d7), got ");
                    },
                    _ => {
                        s.append(" expects 1 argument (x: f32), got ");
                    },
                }
                push_decimal(&mut s, *found);
                s
            },
            ImportError::MissingTarget { message } => message.clone(),
        }
    }
}

/// The name of the device function whose calls become `op`.
pub open spec fn spec_intrinsic_name(op: NvvmOp) -> Seq<char> {
    match op {
        NvvmOp::SqrtApproxF32 => "sqrt_approx_f32"@,
        NvvmOp::CosApproxF32 => "cos_approx_f32"@,
        NvvmOp::SinApproxF32 => "sin_approx_f32"@,
        NvvmOp::Ex2ApproxF32 => "ex2_approx_f32"@,
        NvvmOp::Lg2ApproxF32 => "lg2_approx_f32"@,
        NvvmOp::WmmaLoadAM16N16K16Bf16Row => "wmma_load_a_m16n16k16_bf16_row"@,
        NvvmOp::WmmaLoadBM16N16K16Bf16Col => "wmma_load_b_m16n16k16_bf16_col"@,
        NvvmOp::WmmaMmaM16N16K16Bf16Bf16F32 => "wmma_mma_m16n16k16_bf16_bf16_f32_raw"@,
        NvvmOp::WmmaStoreDM16N16K16Bf16F32Row => "wmma_store_d_m16n16k16_bf16_f32_row_raw"@,
    }
}

/// The name of the device function whose calls become `op`.
pub fn intrinsic_name(op: NvvmOp) -> (r: &'static str)
    ensures
        r@ == spec_intrinsic_name(op),
        "nvvm."@ + r@ == device_name_of(spec_op_name(op), op),
{
    proof {
        lemma_device_fn_named_after_op(op);
    }
    match op {
        NvvmOp::SqrtApproxF32 => "sqrt_approx_f32",
        NvvmOp::CosApproxF32 => "cos_approx_f32",
        NvvmOp::SinApproxF32 => "sin_approx_f32",
        NvvmOp::Ex2ApproxF32 => "ex2_approx_f32",
        NvvmOp::Lg2ApproxF32 => "lg2_approx_f32",
        NvvmOp::WmmaLoadAM16N16K16Bf16Row => "wmma_load_a_m16n16k16_bf16_row",
        NvvmOp::WmmaLoadBM16N16K16Bf16Col => "wmma_load_b_m16n16k16_bf16_col",
        NvvmOp::WmmaMmaM16N16K16Bf16Bf16F32 => "wmma_mma_m16n16k16_bf16_bf16_f32_raw",
        NvvmOp::WmmaStoreDM16N16K16Bf16F32Row => "wmma_store_d_m16n16k16_bf16_f32_row_raw",
    }
}

/// A call with `found` arguments of the intrinsic named `label` is
/// imported only if the operation takes exactly that many operands.
pub fn check_call_args(op: NvvmOp, label: &str, found: usize) -> (r: Result<(), ImportError>)
    ensures
        r is Ok <==> found == spec_num_operands(op),
        r matches Err(e) ==> e matches ImportError::ArgCount { op: eop, label: elabel, found: efound }
            && eop == op && elabel@ == label@ && efound == found,
{
    if found != op.num_operands() {
        Err(ImportError::ArgCount { op, label: label.to_string(), found })
    } else {
        Ok(())
    }
}

/// The type of every result of the operation that a call becomes.
pub open spec fn spec_result_type(op: NvvmOp) -> LaneType {
    match op {
        NvvmOp::WmmaLoadAM16N16K16Bf16Row | NvvmOp::WmmaLoadBM16N16K16Bf16Col => LaneType::U32,
        _ => LaneType::F32,
    }
}

/// What the block says when a call of `op` (named `label`) has no target.
pub open spec fn spec_no_target_message(op: NvvmOp, label: Seq<char>) -> Seq<char> {
    match op {
        NvvmOp::WmmaLoadAM16N16K16Bf16Row | NvvmOp::WmmaLoadBM16N16K16Bf16Col => label,
        NvvmOp::WmmaMmaM16N16K16Bf16Bf16F32 =>
            "wmma_mma_m16n16k16_bf16_bf16_f32_raw call without target block"@,
        NvvmOp::WmmaStoreDM16N16K16Bf16F32Row =>
            "wmma_store_d_m16n16k16_bf16_f32_row_raw call without target block"@,
        _ => "math approx call without target block"@,
    }
}

/// The shape of the operation that a call becomes.
pub struct CallPlan {
    /// For each operand of the operation, in order, the call argument it
    /// comes from.
    pub operand_order: Vec<usize>,
    /// The types of the operation's results, in order.
    pub results: Vec<LaneType>,
    /// For each element of the packed array, in order, the result of the
    /// operation it holds; empty when nothing is packed.
    pub pack_order: Vec<usize>,
    /// Whether the results are packed into an array of as many elements,
    /// and that array into the destination's struct, before being stored.
    pub packed: bool,
    /// What is reported when the call has no target block.
    pub no_target_message: String,
}

/// Plans the import of a call with `num_args` arguments of the
/// intrinsic named `label`, whose operation is `op`.
pub fn plan_call(op: NvvmOp, label: &str, num_args: usize) -> (r: Result<CallPlan, ImportError>)
    ensures
        r is Ok <==> num_args == spec_num_operands(op),
        r matches Err(e) ==> e matches ImportError::ArgCount { op: eop, label: elabel, found: efound }
            && eop == op && elabel@ == label@ && efound == num_args,
        r matches Ok(p) ==> {
            &&& p.operand_order@ == Seq::new(num_args as nat, |i: int| i as usize)
            &&& p.results@ == Seq::new(spec_num_results(op), |i: int| spec_result_type(op))
            &&& p.pack_order@ == if p.packed {
                Seq::new(spec_num_results(op), |i: int| i as usize)
            } else {
                Seq::empty()
            }
            &&& p.packed == (!is_unary_approx(op) && spec_num_results(op) > 0)
            &&& p.no_target_message@ == spec_no_target_message(op, label@)
        },
{
    check_call_args(op, label, num_args)?;
    let n = op.num_results();
    let ty = match op {
        NvvmOp::WmmaLoadAM16N16K16Bf16Row | NvvmOp::WmmaLoadBM16N16K16Bf16Col => LaneType::U32,
        _ => LaneType::F32,
    };
    let mut operand_order: Vec<usize> = Vec::new();
    let mut j: usize = 0;
    while j < num_args
        invariant
            j <= num_args,
            operand_order@ =~= Seq::new(j as nat, |k: int| k as usize),
        decreases num_args - j,
    {
        operand_order.push(j);
        j = j + 1;
    }
    let mut results: Vec<LaneType> = Vec::new();
    let mut i: usize = 0;
    while i < n
        invariant
            i <= n,
            n == spec_num_results(op),
            ty == spec_result_type(op),
            results@ =~= Seq::new(i as nat, |k: int| spec_result_type(op)),
        decreases n - i,
    {
        results.push(ty);
        i = i + 1;
    }
    let no_target_message = match op {
        NvvmOp::WmmaLoadAM16N16K16Bf16Row | NvvmOp::WmmaLoadBM16N16K16Bf16Col => label.to_string(),
        NvvmOp::WmmaMmaM16N16K16Bf16Bf16F32 =>
            "wmma_mma_m16n16k16_bf16_bf16_f32_raw call without target block".to_string(),
        NvvmOp::WmmaStoreDM16N16K16Bf16F32Row =>
            "wmma_store_d_m16n16k16_bf16_f32_row_raw call without target block".to_string(),
        _ => "math approx call without target block".to_string(),
    };
    let packed = match op {
        NvvmOp::WmmaLoadAM16N16K16Bf16Row | NvvmOp::WmmaLoadBM16N16K16Bf16Col
        | NvvmOp::WmmaMmaM16N16K16Bf16Bf16F32 => true,
        _ => false,
    };
    let mut pack_order: Vec<usize> = Vec::new();
    if packed {
        let mut k: usize = 0;
        while k < n
            invariant
                k <= n,
                pack_order@ =~= Seq::new(k as nat, |m: int| m as usize),
            decreases n - k,
        {
            pack_order.push(k);
            k = k + 1;
        }
    }
    Ok(CallPlan { operand_order, results, pack_order, packed, no_target_message })
}

/// Where a new operation goes in its block.
#[derive(Debug)]
pub enum InsertAt<P> {
    /// Right after the operation `P`.
    After(P),
    /// At the front of the block.
    Front,
}

/// A new operation goes right after the last operation emitted for the
/// call, or at the front of the block if none was.
pub fn insertion_point<P: Copy>(last: Option<P>) -> (r: InsertAt<P>)
    ensures
        match last {
            Some(p) => r == InsertAt::After(p),
            None => r == InsertAt::<P>::Front,
        },
{
    match last {
        Some(p) => InsertAt::After(p),
        None => InsertAt::Front,
    }
}

/// A call that must continue goes to its target block; without one, the
/// import fails with `message`.
pub fn continue_to(target: Option<usize>, message: &str) -> (r: Result<usize, ImportError>)
    ensures
        match target {
            Some(t) => r == Ok::<usize, ImportError>(t),
            None => r matches Err(ImportError::MissingTarget { message: m }) && m@ == message@,
        },
{
    match target {
        Some(t) => Ok(t),
        None => Err(ImportError::MissingTarget { message: message.to_string() }),
    }
}

/// What the importer creates is what the lowering consumes. Every kind of
/// operation is either an approximation, lowered to an intrinsic call
/// with one f32 operand and one f32 result, or a WMMA operation, lowered
/// to an inline statement whose outputs are exactly its first
/// `results` constraints; the output for each result the importer
/// creates is a float exactly when that result is a float, and so is the
/// field that the lowering extracts for it.
pub proof fn lemma_import_lowering_agree(op: NvvmOp, i: int)
    ensures
        is_unary_approx(op) != is_wmma(op),
        is_unary_approx(op) ==> spec_num_operands(op) == 1 && spec_num_results(op) == 1
            && spec_result_type(op) == LaneType::F32,
        is_wmma(op) ==> (0 <= i < spec_constraints(op).len() ==>
            (is_output(spec_constraints(op)[i]) <==> i < spec_num_results(op))),
        is_wmma(op) && 0 <= i < spec_num_results(op) ==> {
            &&& (spec_constraints(op)[i] == Constraint::OutF32 <==> spec_result_type(op) == LaneType::F32)
            &&& (spec_field_type(op) == LaneType::F32 <==> spec_result_type(op) == LaneType::F32)
        },
{
    if is_wmma(op) {
        lemma_wmma_statement_well_formed(op);
    }
}

/// Whether the raw form of the device function stands for `op` (its name
/// ends in `_raw`).
pub open spec fn has_raw_device_fn(op: NvvmOp) -> bool {
    op == NvvmOp::WmmaMmaM16N16K16Bf16Bf16F32 || op == NvvmOp::WmmaStoreDM16N16K16Bf16F32Row
}

/// The operation's registered name, with `_raw` appended for the raw forms.
pub open spec fn device_name_of(op_name: Seq<char>, op: NvvmOp) -> Seq<char> {
    if has_raw_device_fn(op) {
        op_name + "_raw"@
    } else {
        op_name
    }
}

/// The device function whose calls become `op` is named after `op`
/// itself: prefixed with the dialect's `nvvm.`, its name is the
/// operation's registered name (with `_raw` for the raw MMA and store).
pub proof fn lemma_device_fn_named_after_op(op: NvvmOp)
    ensures
        "nvvm."@ + spec_intrinsic_name(op) == device_name_of(spec_op_name(op), op),
{
    match op {
        NvvmOp::SqrtApproxF32 => {
            reveal_strlit("nvvm.");
            reveal_strlit("sqrt_approx_f32");
            reveal_strlit("nvvm.sqrt_approx_f32");
            assert("nvvm."@ + spec_intrinsic_name(op) =~= device_name_of(spec_op_name(op), op));
        },
        NvvmOp::CosApproxF32 => {
            reveal_strlit("nvvm.");
            reveal_strlit("cos_approx_f32");
            reveal_strlit("nvvm.cos_approx_f32");
            assert("nvvm."@ + spec_intrinsic_name(op) =~= device_name_of(spec_op_name(op), op));
        },
        NvvmOp::SinApproxF32 => {
            reveal_strlit("nvvm.");
            reveal_strlit("sin_approx_f32");
            reveal_strlit("nvvm.sin_approx_f32");
            assert("nvvm."@ + spec_intrinsic_name(op) =~= device_name_of(spec_op_name(op), op));
        },
        NvvmOp::Ex2ApproxF32 => {
            reveal_strlit("nvvm.");
            reveal_strlit("ex2_approx_f32");
            reveal_strlit("nvvm.ex2_approx_f32");
            assert("nvvm."@ + spec_intrinsic_name(op) =~= device_name_of(spec_op_name(op), op));
        },
        NvvmOp::Lg2ApproxF32 => {
            reveal_strlit("nvvm.");
            reveal_strlit("lg2_approx_f32");
            reveal_strlit("nvvm.lg2_approx_f32");
            assert("nvvm."@ + spec_intrinsic_name(op) =~= device_name_of(spec_op_name(op), op));
        },
        NvvmOp::WmmaLoadAM16N16K16Bf16Row => {
            reveal_strlit("nvvm.");
            reveal_strlit("wmma_load_a_m16n16k16_bf16_row");
            reveal_strlit("nvvm.wmma_load_a_m16n16k16_bf16_row");
            assert("nvvm."@ + spec_intrinsic_name(op) =~= device_name_of(spec_op_name(op), op));
        },
        NvvmOp::WmmaLoadBM16N16K16Bf16Col => {
            reveal_strlit("nvvm.");
            reveal_strlit("wmma_load_b_m16n16k16_bf16_col");
            reveal_strlit("nvvm.wmma_load_b_m16n16k16_bf16_col");
            assert("nvvm."@ + spec_intrinsic_name(op) =~= device_name_of(spec_op_name(op), op));
        },
        NvvmOp::WmmaMmaM16N16K16Bf16Bf16F32 => {
            reveal_strlit("nvvm.");
            reveal_strlit("_raw");
            reveal_strlit("wmma_mma_m16n16k16_bf16_bf16_f32_raw");
            reveal_strlit("nvvm.wmma_mma_m16n16k16_bf16_bf16_f32");
            assert("nvvm."@ + spec_intrinsic_name(op) =~= device_name_of(spec_op_name(op), op));
        },
        NvvmOp::WmmaStoreDM16N16K16Bf16F32Row => {
            reveal_strlit("nvvm.");
            reveal_strlit("_raw");
            reveal_strlit("wmma_store_d_m16n16k16_bf16_f32_row_raw");
            reveal_strlit("nvvm.wmma_store_d_m16n16k16_bf16_f32_row");
            assert("nvvm."@ + spec_intrinsic_name(op) =~= device_name_of(spec_op_name(op), op));
        },
    }
}

/// The types the imported operations and their lowerings give their
/// results: a fragment load defines four unsigned 32-bit results (the
/// `u32` registers of a bf16 fragment), lowered as signless 32-bit fields;
/// every other operation defines f32 results, lowered as f32 fields.
pub proof fn lemma_result_types(op: NvvmOp)
    ensures
        (op == NvvmOp::WmmaLoadAM16N16K16Bf16Row || op == NvvmOp::WmmaLoadBM16N16K16Bf16Col) ==> {
            &&& spec_num_results(op) == 4
            &&& spec_result_type(op) == LaneType::U32
            &&& spec_field_type(op) == LaneType::I32
        },
        !(op == NvvmOp::WmmaLoadAM16N16K16Bf16Row || op == NvvmOp::WmmaLoadBM16N16K16Bf16Col) ==> {
            &&& spec_result_type(op) == LaneType::F32
            &&& spec_field_type(op) == LaneType::F32
        },
{
}

/// The argument-count error names the count the operation takes: right
/// after the label comes ` expects <n> argument`, `n` being the
/// operation's operand count.
pub proof fn lemma_import_message_names_expected_count(op: NvvmOp)
    ensures
        spec_arg_count_middle(op).subrange(0, 18 + decimal(spec_num_operands(op)).len() as int)
            == " expects "@ + decimal(spec_num_operands(op)) + " argument"@,
{
    reveal_strlit(" expects ");
    reveal_strlit(" argument");
    reveal_strlit("1");
    reveal_strlit("2");
    reveal_strlit("0");
    reveal_strlit("6");
    reveal_with_fuel(decimal, 2);
    reveal_strlit(" expects 2 arguments (src, stride), got ");
    reveal_strlit(" expects 16 arguments (a0..a3, b0..b3, c0..c7), got ");
    reveal_strlit(" expects 10 arguments (dst, stride, d0..d7), got ");
    reveal_strlit(" expects 1 argument (x: f32), got ");
    assert(spec_arg_count_middle(op).subrange(0, 18 + decimal(spec_num_operands(op)).len() as int)
        =~= " expects "@ + decimal(spec_num_operands(op)) + " argument"@);
}

} // verus!
