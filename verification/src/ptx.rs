//! Inline PTX statements for the WMMA operations.
//!
//! A statement is an instruction mnemonic followed by its arguments; each
//! argument refers to the statement's operands through `$n` placeholders.
//! Outputs are numbered first, then inputs, in the order of the
//! constraint list. The constraint codes say how each operand is passed:
//! `=r`/`=f` for 32-bit integer or float outputs, `l` for a 64-bit
//! address, `r` for a 32-bit integer, `f` for a float, and `~{memory}`
//! for a memory clobber.
//!
//! The fragment loads and the store use the generic addressing form of the
//! instructions (`wmma.load.a.sync.aligned.m16n16k16.row.bf16`, without a
//! `.shared` state space), so the address may point into any state space.

use vstd::prelude::*;
use crate::layout::{
    LoadOperand, MmaOperand, StoreOperand, load_operand_at, mma_operand_at,
    spec_load_operand_at, spec_mma_operand_at, spec_mma_operand_index, spec_store_operand_at,
    spec_store_operand_index, store_operand_at,
};
use crate::ops::{NvvmOp, spec_num_operands, spec_num_results, spec_op_name};
use crate::text::{decimal, push_decimal};

verus! {

/// How one operand of an inline assembly statement is passed.
#[derive(PartialEq, Eq, Structural, Clone, Copy, Debug)]
pub enum Constraint {
    /// A 32-bit integer register written by the statement (`=r`).
    OutReg32,
    /// A 32-bit float register written by the statement (`=f`).
    OutF32,
    /// A 64-bit address read by the statement (`l`).
    InPtr64,
    /// A 32-bit integer register read by the statement (`r`).
    InReg32,
    /// A 32-bit float register read by the statement (`f`).
    InF32,
    /// The statement writes memory (`~{memory}`).
    ClobberMemory,
}

/// One argument of a statement.
#[derive(PartialEq, Eq, Structural, Clone, Copy, Debug)]
pub enum AsmArg {
    /// `{$first,...,$(first+count-1)}`: a vector of consecutive operands.
    Vector { first: usize, count: usize },
    /// `[$n]`: a memory address.
    Address(usize),
    /// `$n`: a single operand.
    Scalar(usize),
}

/// An inline assembly statement: mnemonic, arguments and constraints.
pub struct AsmStatement {
    pub mnemonic: &'static str,
    pub args: Vec<AsmArg>,
    pub constraints: Vec<Constraint>,
}

/// The code of a constraint.
pub open spec fn constraint_text(c: Constraint) -> Seq<char> {
    match c {
        Constraint::OutReg32 => "=r"@,
        Constraint::OutF32 => "=f"@,
        Constraint::InPtr64 => "l"@,
        Constraint::InReg32 => "r"@,
        Constraint::InF32 => "f"@,
        Constraint::ClobberMemory => "~{memory}"@,
    }
}

/// Whether `c` is an output of the statement.
pub open spec fn is_output(c: Constraint) -> bool {
    c == Constraint::OutReg32 || c == Constraint::OutF32
}

/// Whether `c` is a clobber rather than an operand.
pub open spec fn is_clobber(c: Constraint) -> bool {
    c == Constraint::ClobberMemory
}

/// The parts, separated by `sep`.
pub open spec fn join(parts: Seq<Seq<char>>, sep: Seq<char>) -> Seq<char>
    decreases parts.len(),
{
    if parts.len() == 0 {
        Seq::empty()
    } else if parts.len() == 1 {
        parts[0]
    } else {
        join(parts.drop_last(), sep) + sep + parts.last()
    }
}

/// `$n`.
pub open spec fn placeholder(n: nat) -> Seq<char> {
    "$"@ + decimal(n)
}

/// The operand numbers that an argument refers to, in order.
pub open spec fn arg_placeholders(a: AsmArg) -> Seq<nat> {
    match a {
        AsmArg::Vector { first, count } => Seq::new(count as nat, |i: int| (first + i) as nat),
        AsmArg::Address(n) => seq![n as nat],
        AsmArg::Scalar(n) => seq![n as nat],
    }
}

/// The text of an argument.
pub open spec fn render_arg(a: AsmArg) -> Seq<char> {
    match a {
        AsmArg::Vector { first, count } => "{"@ + join(
            Seq::new(count as nat, |i: int| placeholder((first + i) as nat)),
            ","@,
        ) + "}"@,
        AsmArg::Address(n) => "["@ + placeholder(n as nat) + "]"@,
        AsmArg::Scalar(n) => placeholder(n as nat),
    }
}

/// The template text: `mnemonic arg, arg, ...;`.
pub open spec fn render_template_spec(mnemonic: Seq<char>, args: Seq<AsmArg>) -> Seq<char> {
    mnemonic + " "@ + join(args.map_values(|a: AsmArg| render_arg(a)), ", "@) + ";"@
}

/// The constraint text: the codes separated by commas.
pub open spec fn render_constraints_spec(cs: Seq<Constraint>) -> Seq<char> {
    join(cs.map_values(|c: Constraint| constraint_text(c)), ","@)
}

/// All operand numbers that the arguments refer to, in order of appearance.
pub open spec fn all_placeholders(args: Seq<AsmArg>) -> Seq<nat>
    decreases args.len(),
{
    if args.len() == 0 {
        Seq::empty()
    } else {
        all_placeholders(args.drop_last()) + arg_placeholders(args.last())
    }
}

/// Whether the argument's operand numbers fit in a `usize`.
pub open spec fn arg_fits(a: AsmArg) -> bool {
    match a {
        AsmArg::Vector { first, count } => first + count <= usize::MAX,
        _ => true,
    }
}

fn constraint_str(c: Constraint) -> (r: &'static str)
    ensures
        r@ == constraint_text(c),
{
    match c {
        Constraint::OutReg32 => "=r",
        Constraint::OutF32 => "=f",
        Constraint::InPtr64 => "l",
        Constraint::InReg32 => "r",
        Constraint::InF32 => "f",
        Constraint::ClobberMemory => "~{memory}",
    }
}

proof fn lemma_join_push(parts: Seq<Seq<char>>, sep: Seq<char>, x: Seq<char>)
    ensures
        join(parts.push(x), sep) == if parts.len() == 0 {
            x
        } else {
            join(parts, sep) + sep + x
        },
{
    assert(parts.push(x).drop_last() =~= parts);
}

fn push_placeholder(out: &mut String, n: usize)
    ensures
        final(out)@ == old(out)@ + placeholder(n as nat),
{
    let ghost before = out@;
    out.append("$");
    push_decimal(out, n);
    assert(out@ =~= before + placeholder(n as nat));
}

fn push_arg(out: &mut String, a: AsmArg)
    requires
        arg_fits(a),
    ensures
        final(out)@ == old(out)@ + render_arg(a),
{
    let ghost before = out@;
    match a {
        AsmArg::Vector { first, count } => {
            out.append("{");
            let ghost f = |i: int| placeholder((first + i) as nat);
            let mut i: usize = 0;
            while i < count
                invariant
                    i <= count,
                    first + count <= usize::MAX,
                    f == (|i: int| placeholder((first + i) as nat)),
                    out@ == before + "{"@ + join(Seq::new(i as nat, f), ","@),
                decreases count - i,
            {
                let ghost mid = out@;
                proof {
                    assert(Seq::new((i + 1) as nat, f) =~= Seq::new(i as nat, f).push(f(i as int)));
                    lemma_join_push(Seq::new(i as nat, f), ","@, f(i as int));
                }
                if i > 0 {
                    out.append(",");
                }
                push_placeholder(out, first + i);
                assert(out@ =~= before + "{"@ + join(Seq::new((i + 1) as nat, f), ","@));
                i = i + 1;
            }
            out.append("}");
            assert(out@ =~= before + render_arg(a));
        },
        AsmArg::Address(n) => {
            out.append("[");
            push_placeholder(out, n);
            out.append("]");
            assert(out@ =~= before + render_arg(a));
        },
        AsmArg::Scalar(n) => {
            push_placeholder(out, n);
        },
    }
}

/// The template text of a statement.
pub fn render_template(st: &AsmStatement) -> (r: String)
    requires
        forall|i: int| 0 <= i < st.args@.len() ==> arg_fits(#[trigger] st.args@[i]),
    ensures
        r@ == render_template_spec(st.mnemonic@, st.args@),
{
    let mut out = String::new();
    out.append(st.mnemonic);
    out.append(" ");
    let ghost head = out@;
    let ghost parts = st.args@.map_values(|a: AsmArg| render_arg(a));
    let mut i: usize = 0;
    while i < st.args.len()
        invariant
            i <= st.args@.len(),
            forall|i: int| 0 <= i < st.args@.len() ==> arg_fits(#[trigger] st.args@[i]),
            parts == st.args@.map_values(|a: AsmArg| render_arg(a)),
            out@ == head + join(parts.take(i as int), ", "@),
        decreases st.args@.len() - i,
    {
        proof {
            assert(parts.take(i + 1) =~= parts.take(i as int).push(parts[i as int]));
            lemma_join_push(parts.take(i as int), ", "@, parts[i as int]);
        }
        if i > 0 {
            out.append(", ");
        }
        push_arg(&mut out, st.args[i]);
        assert(out@ =~= head + join(parts.take(i + 1), ", "@));
        i = i + 1;
    }
    assert(parts.take(i as int) =~= parts);
    out.append(";");
    out
}

/// The constraint text of a statement.
pub fn render_constraints(st: &AsmStatement) -> (r: String)
    ensures
        r@ == render_constraints_spec(st.constraints@),
{
    let mut out = String::new();
    let ghost parts = st.constraints@.map_values(|c: Constraint| constraint_text(c));
    let mut i: usize = 0;
    while i < st.constraints.len()
        invariant
            i <= st.constraints@.len(),
            parts == st.constraints@.map_values(|c: Constraint| constraint_text(c)),
            out@ == join(parts.take(i as int), ","@),
        decreases st.constraints@.len() - i,
    {
        proof {
            assert(parts.take(i + 1) =~= parts.take(i as int).push(parts[i as int]));
            lemma_join_push(parts.take(i as int), ","@, parts[i as int]);
        }
        if i > 0 {
            out.append(",");
        }
        out.append(constraint_str(st.constraints[i]));
        assert(out@ =~= join(parts.take(i + 1), ","@));
        i = i + 1;
    }
    assert(parts.take(i as int) =~= parts);
    out
}


/// Whether `op` is lowered to an inline PTX statement (the WMMA operations).
pub open spec fn is_wmma(op: NvvmOp) -> bool {
    match op {
        NvvmOp::WmmaLoadAM16N16K16Bf16Row | NvvmOp::WmmaLoadBM16N16K16Bf16Col
        | NvvmOp::WmmaMmaM16N16K16Bf16Bf16F32 | NvvmOp::WmmaStoreDM16N16K16Bf16F32Row => true,
        _ => false,
    }
}

/// The PTX mnemonic of a WMMA operation.
pub open spec fn spec_mnemonic(op: NvvmOp) -> Seq<char> {
    match op {
        NvvmOp::WmmaLoadAM16N16K16Bf16Row => "wmma.load.a.sync.aligned.m16n16k16.row.bf16"@,
        NvvmOp::WmmaLoadBM16N16K16Bf16Col => "wmma.load.b.sync.aligned.m16n16k16.col.bf16"@,
        NvvmOp::WmmaMmaM16N16K16Bf16Bf16F32 => "wmma.mma.sync.aligned.m16n16k16.row.col.f32.bf16.bf16.f32"@,
        _ => "wmma.store.d.sync.aligned.m16n16k16.row.f32"@,
    }
}

/// The arguments of the statement for a WMMA operation.
pub open spec fn spec_args(op: NvvmOp) -> Seq<AsmArg> {
    match op {
        NvvmOp::WmmaLoadAM16N16K16Bf16Row | NvvmOp::WmmaLoadBM16N16K16Bf16Col => seq![
            AsmArg::Vector { first: 0, count: 4 },
            AsmArg::Address(4),
            AsmArg::Scalar(5),
        ],
        NvvmOp::WmmaMmaM16N16K16Bf16Bf16F32 => seq![
            AsmArg::Vector { first: 0, count: 8 },
            AsmArg::Vector { first: 8, count: 4 },
            AsmArg::Vector { first: 12, count: 4 },
            AsmArg::Vector { first: 16, count: 8 },
        ],
        _ => seq![
            AsmArg::Address(0),
            AsmArg::Vector { first: 2, count: 8 },
            AsmArg::Scalar(1),
        ],
    }
}

/// How the `i`-th input operand of `op` is passed, from the role that the
/// operand layout gives it.
pub open spec fn spec_input_constraint(op: NvvmOp, i: usize) -> Constraint {
    match op {
        NvvmOp::WmmaLoadAM16N16K16Bf16Row | NvvmOp::WmmaLoadBM16N16K16Bf16Col => {
            match spec_load_operand_at(i) {
                Some(LoadOperand::Src) => Constraint::InPtr64,
                _ => Constraint::InReg32,
            }
        },
        NvvmOp::WmmaMmaM16N16K16Bf16Bf16F32 => {
            match spec_mma_operand_at(i) {
                Some(MmaOperand::C(_)) => Constraint::InF32,
                _ => Constraint::InReg32,
            }
        },
        NvvmOp::WmmaStoreDM16N16K16Bf16F32Row => {
            match spec_store_operand_at(i) {
                Some(StoreOperand::Dst) => Constraint::InPtr64,
                Some(StoreOperand::Stride) => Constraint::InReg32,
                _ => Constraint::InF32,
            }
        },
        _ => Constraint::InF32,
    }
}

/// How every result of `op` is passed.
pub open spec fn spec_output_constraint(op: NvvmOp) -> Constraint {
    match op {
        NvvmOp::WmmaLoadAM16N16K16Bf16Row | NvvmOp::WmmaLoadBM16N16K16Bf16Col => Constraint::OutReg32,
        _ => Constraint::OutF32,
    }
}

/// The clobbers of the statement for `op`: a store writes memory.
pub open spec fn spec_clobbers(op: NvvmOp) -> Seq<Constraint> {
    match op {
        NvvmOp::WmmaStoreDM16N16K16Bf16F32Row => seq![Constraint::ClobberMemory],
        _ => Seq::empty(),
    }
}

/// The constraint list for `op`: one output per result, one input per
/// operand, then the clobbers.
pub open spec fn spec_constraints(op: NvvmOp) -> Seq<Constraint> {
    Seq::new(spec_num_results(op), |i: int| spec_output_constraint(op))
        + Seq::new(spec_num_operands(op), |i: int| spec_input_constraint(op, i as usize))
        + spec_clobbers(op)
}

fn input_constraint(op: NvvmOp, i: usize) -> (r: Constraint)
    ensures
        r == spec_input_constraint(op, i),
{
    match op {
        NvvmOp::WmmaLoadAM16N16K16Bf16Row | NvvmOp::WmmaLoadBM16N16K16Bf16Col => {
            match load_operand_at(i) {
                Some(LoadOperand::Src) => Constraint::InPtr64,
                _ => Constraint::InReg32,
            }
        },
        NvvmOp::WmmaMmaM16N16K16Bf16Bf16F32 => {
            match mma_operand_at(i) {
                Some(MmaOperand::C(_)) => Constraint::InF32,
                _ => Constraint::InReg32,
            }
        },
        NvvmOp::WmmaStoreDM16N16K16Bf16F32Row => {
            match store_operand_at(i) {
                Some(StoreOperand::Dst) => Constraint::InPtr64,
                Some(StoreOperand::Stride) => Constraint::InReg32,
                _ => Constraint::InF32,
            }
        },
        _ => Constraint::InF32,
    }
}

fn output_constraint(op: NvvmOp) -> (r: Constraint)
    ensures
        r == spec_output_constraint(op),
{
    match op {
        NvvmOp::WmmaLoadAM16N16K16Bf16Row | NvvmOp::WmmaLoadBM16N16K16Bf16Col => Constraint::OutReg32,
        _ => Constraint::OutF32,
    }
}

/// The constraint list of the statement for `op`.
pub fn constraints_for(op: NvvmOp) -> (r: Vec<Constraint>)
    ensures
        r@ == spec_constraints(op),
{
    let mut v: Vec<Constraint> = Vec::new();
    let nres = op.num_results();
    let nops = op.num_operands();
    let out = output_constraint(op);
    let mut i: usize = 0;
    while i < nres
        invariant
            i <= nres,
            nres == spec_num_results(op),
            out == spec_output_constraint(op),
            v@ =~= Seq::new(i as nat, |k: int| spec_output_constraint(op)),
        decreases nres - i,
    {
        v.push(out);
        i = i + 1;
    }
    let ghost outs = v@;
    let mut j: usize = 0;
    while j < nops
        invariant
            j <= nops,
            nops == spec_num_operands(op),
            v@ =~= outs + Seq::new(j as nat, |k: int| spec_input_constraint(op, k as usize)),
        decreases nops - j,
    {
        v.push(input_constraint(op, j));
        j = j + 1;
    }
    match op {
        NvvmOp::WmmaStoreDM16N16K16Bf16F32Row => {
            v.push(Constraint::ClobberMemory);
        },
        _ => {},
    }
    assert(v@ =~= spec_constraints(op));
    v
}

/// The inline PTX statement that a WMMA operation lowers to; `None` for
/// the operations that lower to an intrinsic call instead.
pub fn wmma_statement(op: NvvmOp) -> (r: Option<AsmStatement>)
    ensures
        is_wmma(op) <==> r is Some,
        r matches Some(st) ==> {
            &&& st.mnemonic@ == spec_mnemonic(op)
            &&& st.args@ == spec_args(op)
            &&& st.constraints@ == spec_constraints(op)
        },
{
    match op {
        NvvmOp::WmmaLoadAM16N16K16Bf16Row => Some(AsmStatement {
            mnemonic: "wmma.load.a.sync.aligned.m16n16k16.row.bf16",
            args: vec![
                AsmArg::Vector { first: 0, count: 4 },
                AsmArg::Address(4),
                AsmArg::Scalar(5),
            ],
            constraints: constraints_for(op),
        }),
        NvvmOp::WmmaLoadBM16N16K16Bf16Col => Some(AsmStatement {
            mnemonic: "wmma.load.b.sync.aligned.m16n16k16.col.bf16",
            args: vec![
                AsmArg::Vector { first: 0, count: 4 },
                AsmArg::Address(4),
                AsmArg::Scalar(5),
            ],
            constraints: constraints_for(op),
        }),
        NvvmOp::WmmaMmaM16N16K16Bf16Bf16F32 => Some(AsmStatement {
            mnemonic: "wmma.mma.sync.aligned.m16n16k16.row.col.f32.bf16.bf16.f32",
            args: vec![
                AsmArg::Vector { first: 0, count: 8 },
                AsmArg::Vector { first: 8, count: 4 },
                AsmArg::Vector { first: 12, count: 4 },
                AsmArg::Vector { first: 16, count: 8 },
            ],
            constraints: constraints_for(op),
        }),
        NvvmOp::WmmaStoreDM16N16K16Bf16F32Row => Some(AsmStatement {
            mnemonic: "wmma.store.d.sync.aligned.m16n16k16.row.f32",
            args: vec![
                AsmArg::Address(0),
                AsmArg::Vector { first: 2, count: 8 },
                AsmArg::Scalar(1),
            ],
            constraints: constraints_for(op),
        }),
        _ => None,
    }
}

/// For every WMMA operation: the statement's arguments refer to each
/// operand number in `0..results+operands` exactly once; the constraint
/// list has one entry per operand number followed by the clobbers; the
/// first `results` entries are the outputs; and every argument's numbers
/// fit in a `usize`.
pub proof fn lemma_wmma_statement_well_formed(op: NvvmOp)
    requires
        is_wmma(op),
    ensures
        ({
            let n = spec_num_results(op) + spec_num_operands(op);
            let flat = all_placeholders(spec_args(op));
            let cs = spec_constraints(op);
            &&& flat.len() == n
            &&& flat.no_duplicates()
            &&& forall|k: nat| k < n ==> flat.contains(k)
            &&& cs.len() == n + spec_clobbers(op).len()
            &&& forall|i: int| 0 <= i < cs.len() ==> (is_output(#[trigger] cs[i]) <==> i < spec_num_results(op))
            &&& forall|i: int| 0 <= i < cs.len() ==> (is_clobber(#[trigger] cs[i]) <==> i >= n)
            &&& forall|i: int| 0 <= i < spec_args(op).len() ==> arg_fits(#[trigger] spec_args(op)[i])
        }),
{
    let n = spec_num_results(op) + spec_num_operands(op);
    let args = spec_args(op);
    let flat = all_placeholders(args);
    reveal_with_fuel(all_placeholders, 5);
    let expected: Seq<nat> = match op {
        NvvmOp::WmmaStoreDM16N16K16Bf16F32Row => Seq::new(10, |i: int| if i == 0 {
            0nat
        } else if i < 9 {
            (i + 1) as nat
        } else {
            1nat
        }),
        _ => Seq::new(n, |i: int| i as nat),
    };
    assert(flat =~= expected);
    assert forall|k: nat| k < n implies flat.contains(k) by {
        let j: int = match op {
            NvvmOp::WmmaStoreDM16N16K16Bf16F32Row => if k == 0 {
                0
            } else if k == 1 {
                9
            } else {
                k - 1
            },
            _ => k as int,
        };
        assert(flat[j] == k);
    }
    let cs = spec_constraints(op);
    assert forall|i: int| 0 <= i < cs.len() implies (is_output(#[trigger] cs[i]) <==> i < spec_num_results(op)) by {
        if i >= spec_num_results(op) {
            let j = i - spec_num_results(op);
            if j < spec_num_operands(op) {
                assert(cs[i] == spec_input_constraint(op, j as usize));
            } else {
                assert(cs[i] == spec_clobbers(op)[j - spec_num_operands(op)]);
            }
        }
    }
    assert forall|i: int| 0 <= i < cs.len() implies (is_clobber(#[trigger] cs[i]) <==> i >= n) by {
        if i >= spec_num_results(op) {
            let j = i - spec_num_results(op);
            if j < spec_num_operands(op) {
                assert(cs[i] == spec_input_constraint(op, j as usize));
            } else {
                assert(cs[i] == spec_clobbers(op)[j - spec_num_operands(op)]);
            }
        }
    }
}

/// In the MMA statement the first vector holds the eight outputs, and the
/// second, third and fourth vectors hold the A registers, the B registers
/// and the C lanes: lane `i` of each is the placeholder of the input whose
/// layout role is that register, and that input is passed as a 32-bit
/// integer (A, B) or as a float (C).
pub proof fn lemma_mma_statement_follows_layout(i: usize)
    ensures
        i < 8 ==> arg_placeholders(spec_args(NvvmOp::WmmaMmaM16N16K16Bf16Bf16F32)[0])[i as int] == i
            && spec_constraints(NvvmOp::WmmaMmaM16N16K16Bf16Bf16F32)[i as int] == Constraint::OutF32,
        i < 4 ==> arg_placeholders(spec_args(NvvmOp::WmmaMmaM16N16K16Bf16Bf16F32)[1])[i as int]
            == 8 + spec_mma_operand_index(MmaOperand::A(i))
            && spec_constraints(NvvmOp::WmmaMmaM16N16K16Bf16Bf16F32)[8 + spec_mma_operand_index(MmaOperand::A(i))]
            == Constraint::InReg32,
        i < 4 ==> arg_placeholders(spec_args(NvvmOp::WmmaMmaM16N16K16Bf16Bf16F32)[2])[i as int]
            == 8 + spec_mma_operand_index(MmaOperand::B(i))
            && spec_constraints(NvvmOp::WmmaMmaM16N16K16Bf16Bf16F32)[8 + spec_mma_operand_index(MmaOperand::B(i))]
            == Constraint::InReg32,
        i < 8 ==> arg_placeholders(spec_args(NvvmOp::WmmaMmaM16N16K16Bf16Bf16F32)[3])[i as int]
            == 8 + spec_mma_operand_index(MmaOperand::C(i))
            && spec_constraints(NvvmOp::WmmaMmaM16N16K16Bf16Bf16F32)[8 + spec_mma_operand_index(MmaOperand::C(i))]
            == Constraint::InF32,
{
}

/// In the store statement the address is the input whose role is the
/// destination (passed as a 64-bit address), the vector holds the D lanes
/// in order (passed as floats), and the scalar is the stride (a 32-bit
/// integer).
pub proof fn lemma_store_statement_follows_layout(i: usize)
    ensures
        spec_args(NvvmOp::WmmaStoreDM16N16K16Bf16F32Row)[0]
            == AsmArg::Address(spec_store_operand_index(StoreOperand::Dst) as usize),
        spec_constraints(NvvmOp::WmmaStoreDM16N16K16Bf16F32Row)[spec_store_operand_index(StoreOperand::Dst)]
            == Constraint::InPtr64,
        spec_args(NvvmOp::WmmaStoreDM16N16K16Bf16F32Row)[2]
            == AsmArg::Scalar(spec_store_operand_index(StoreOperand::Stride) as usize),
        spec_constraints(NvvmOp::WmmaStoreDM16N16K16Bf16F32Row)[spec_store_operand_index(StoreOperand::Stride)]
            == Constraint::InReg32,
        i < 8 ==> arg_placeholders(spec_args(NvvmOp::WmmaStoreDM16N16K16Bf16F32Row)[1])[i as int]
            == spec_store_operand_index(StoreOperand::D(i))
            && spec_constraints(NvvmOp::WmmaStoreDM16N16K16Bf16F32Row)[spec_store_operand_index(StoreOperand::D(i))]
            == Constraint::InF32,
{
}

/// In a load statement the vector holds the four outputs, the address is
/// the input whose role is the source (a 64-bit address) and the scalar is
/// the stride (a 32-bit integer).
pub proof fn lemma_load_statement_follows_layout(op: NvvmOp, i: usize)
    requires
        op == NvvmOp::WmmaLoadAM16N16K16Bf16Row || op == NvvmOp::WmmaLoadBM16N16K16Bf16Col,
    ensures
        i < 4 ==> arg_placeholders(spec_args(op)[0])[i as int] == i
            && spec_constraints(op)[i as int] == Constraint::OutReg32,
        spec_args(op)[1] == AsmArg::Address(4),
        spec_load_operand_at(0) == Some(LoadOperand::Src),
        spec_constraints(op)[4] == Constraint::InPtr64,
        spec_args(op)[2] == AsmArg::Scalar(5),
        spec_load_operand_at(1) == Some(LoadOperand::Stride),
        spec_constraints(op)[5] == Constraint::InReg32,
{
}

proof fn lemma_join_new(n: nat, f: spec_fn(int) -> Seq<char>, sep: Seq<char>)
    requires
        n >= 1,
    ensures
        join(Seq::new(n + 1, f), sep) == join(Seq::new(n, f), sep) + sep + f(n as int),
{
    assert(Seq::new(n + 1, f).drop_last() =~= Seq::new(n, f));
}

proof fn lemma_join_one(f: spec_fn(int) -> Seq<char>, sep: Seq<char>)
    ensures
        join(Seq::new(1, f), sep) == f(0),
{
}

/// `$first,$(first+1),...,$(first+count-1)`.
pub open spec fn placeholder_list(first: nat, count: nat) -> Seq<char>
    decreases count,
{
    if count <= 1 {
        placeholder(first)
    } else {
        placeholder_list(first, (count - 1) as nat) + ","@ + placeholder((first + count - 1) as nat)
    }
}

proof fn lemma_join_placeholders(first: nat, count: nat, f: spec_fn(int) -> Seq<char>)
    requires
        1 <= count,
        forall|i: int| #[trigger] f(i) == placeholder((first + i) as nat),
    ensures
        join(Seq::new(count, f), ","@) == placeholder_list(first, count),
    decreases count,
{
    if count == 1 {
        lemma_join_one(f, ","@);
        assert(f(0) == placeholder(first));
    } else {
        lemma_join_placeholders(first, (count - 1) as nat, f);
        lemma_join_new((count - 1) as nat, f, ","@);
        assert(f((count - 1) as int) == placeholder((first + count - 1) as nat));
    }
}

/// A vector argument is its placeholders separated by commas, in braces.
proof fn lemma_vector_text(first: usize, count: usize)
    requires
        1 <= count,
    ensures
        render_arg(AsmArg::Vector { first, count })
            == "{"@ + placeholder_list(first as nat, count as nat) + "}"@,
{
    lemma_join_placeholders(first as nat, count as nat, |i: int| placeholder((first + i) as nat));
}

/// The vector arguments that the WMMA statements use, written out.
#[verifier::rlimit(50)]
proof fn lemma_vector_texts()
    ensures
        render_arg(AsmArg::Vector { first: 0, count: 4 }) == "{$0,$1,$2,$3}"@,
        render_arg(AsmArg::Vector { first: 0, count: 8 }) == "{$0,$1,$2,$3,$4,$5,$6,$7}"@,
        render_arg(AsmArg::Vector { first: 8, count: 4 }) == "{$8,$9,$10,$11}"@,
        render_arg(AsmArg::Vector { first: 12, count: 4 }) == "{$12,$13,$14,$15}"@,
        render_arg(AsmArg::Vector { first: 16, count: 8 }) == "{$16,$17,$18,$19,$20,$21,$22,$23}"@,
        render_arg(AsmArg::Vector { first: 2, count: 8 }) == "{$2,$3,$4,$5,$6,$7,$8,$9}"@,
{
    reveal_strlit("{");
    reveal_strlit("}");
    reveal_strlit(",");
    reveal_strlit("$");
    reveal_strlit("0");
    reveal_strlit("1");
    reveal_strlit("2");
    reveal_strlit("3");
    reveal_strlit("4");
    reveal_strlit("5");
    reveal_strlit("6");
    reveal_strlit("7");
    reveal_strlit("8");
    reveal_strlit("9");
    reveal_strlit("{$0,$1,$2,$3}");
    reveal_strlit("{$0,$1,$2,$3,$4,$5,$6,$7}");
    reveal_strlit("{$8,$9,$10,$11}");
    reveal_strlit("{$12,$13,$14,$15}");
    reveal_strlit("{$16,$17,$18,$19,$20,$21,$22,$23}");
    reveal_strlit("{$2,$3,$4,$5,$6,$7,$8,$9}");
    reveal_with_fuel(decimal, 2);
    reveal_with_fuel(placeholder_list, 8);
    lemma_vector_text(0, 4);
    lemma_vector_text(0, 8);
    lemma_vector_text(8, 4);
    lemma_vector_text(12, 4);
    lemma_vector_text(16, 8);
    lemma_vector_text(2, 8);
    assert(render_arg(AsmArg::Vector { first: 0, count: 4 }) =~= "{$0,$1,$2,$3}"@);
    assert(render_arg(AsmArg::Vector { first: 0, count: 8 }) =~= "{$0,$1,$2,$3,$4,$5,$6,$7}"@);
    assert(render_arg(AsmArg::Vector { first: 8, count: 4 }) =~= "{$8,$9,$10,$11}"@);
    assert(render_arg(AsmArg::Vector { first: 12, count: 4 }) =~= "{$12,$13,$14,$15}"@);
    assert(render_arg(AsmArg::Vector { first: 16, count: 8 })
        =~= "{$16,$17,$18,$19,$20,$21,$22,$23}"@);
    assert(render_arg(AsmArg::Vector { first: 2, count: 8 }) =~= "{$2,$3,$4,$5,$6,$7,$8,$9}"@);
}

/// The template text of a WMMA operation's statement.
pub open spec fn spec_template_text(op: NvvmOp) -> Seq<char> {
    match op {
        NvvmOp::WmmaLoadAM16N16K16Bf16Row => "wmma.load.a.sync.aligned.m16n16k16.row.bf16 {$0,$1,$2,$3}, [$4], $5;"@,
        NvvmOp::WmmaLoadBM16N16K16Bf16Col => "wmma.load.b.sync.aligned.m16n16k16.col.bf16 {$0,$1,$2,$3}, [$4], $5;"@,
        NvvmOp::WmmaMmaM16N16K16Bf16Bf16F32 => "wmma.mma.sync.aligned.m16n16k16.row.col.f32.bf16.bf16.f32 {$0,$1,$2,$3,$4,$5,$6,$7}, {$8,$9,$10,$11}, {$12,$13,$14,$15}, {$16,$17,$18,$19,$20,$21,$22,$23};"@,
        NvvmOp::WmmaStoreDM16N16K16Bf16F32Row => "wmma.store.d.sync.aligned.m16n16k16.row.f32 [$0], {$2,$3,$4,$5,$6,$7,$8,$9}, $1;"@,
        _ => Seq::empty(),
    }
}

/// The constraint text of a WMMA operation's statement.
pub open spec fn spec_constraints_text(op: NvvmOp) -> Seq<char> {
    match op {
        NvvmOp::WmmaLoadAM16N16K16Bf16Row => "=r,=r,=r,=r,l,r"@,
        NvvmOp::WmmaLoadBM16N16K16Bf16Col => "=r,=r,=r,=r,l,r"@,
        NvvmOp::WmmaMmaM16N16K16Bf16Bf16F32 => "=f,=f,=f,=f,=f,=f,=f,=f,r,r,r,r,r,r,r,r,f,f,f,f,f,f,f,f"@,
        NvvmOp::WmmaStoreDM16N16K16Bf16F32Row => "l,r,f,f,f,f,f,f,f,f,~{memory}"@,
        _ => Seq::empty(),
    }
}

proof fn lemma_join_take(parts: Seq<Seq<char>>, sep: Seq<char>, i: int)
    requires
        1 <= i < parts.len(),
    ensures
        join(parts.take(i + 1), sep) == join(parts.take(i), sep) + sep + parts[i],
{
    assert(parts.take(i + 1).drop_last() =~= parts.take(i));
}

/// What follows the mnemonic in the template of a fragment load.
pub open spec fn load_operands_text() -> Seq<char> {
    " {$0,$1,$2,$3}, [$4], $5;"@
}

/// Whether `op` is one of the two fragment loads.
pub open spec fn is_load(op: NvvmOp) -> bool {
    op == NvvmOp::WmmaLoadAM16N16K16Bf16Row || op == NvvmOp::WmmaLoadBM16N16K16Bf16Col
}

/// The texts of both fragment loads: each template is the load's mnemonic
/// followed by the same operands, and both share one constraint text.
#[verifier::rlimit(50)]
proof fn lemma_load_texts(op: NvvmOp)
    requires
        is_load(op),
    ensures
        render_template_spec(spec_mnemonic(op), spec_args(op)) == spec_template_text(op),
        render_constraints_spec(spec_constraints(op)) == spec_constraints_text(op),
{
    reveal_strlit(" ");
    reveal_strlit("$");
    reveal_strlit("$5");
    reveal_strlit(", ");
    reveal_strlit("4");
    reveal_strlit("5");
    reveal_strlit(";");
    reveal_strlit("[");
    reveal_strlit("[$4]");
    reveal_strlit("]");
    reveal_strlit("{$0,$1,$2,$3}");
    reveal_strlit(" {$0,$1,$2,$3}, [$4], $5;");
    let args = spec_args(op);
    lemma_vector_texts();
    assert(render_arg(args[1]) =~= "[$4]"@);
    assert(render_arg(args[2]) =~= "$5"@);
    let parts = args.map_values(|a: AsmArg| render_arg(a));
    assert(parts.take(1) =~= seq![parts[0]]);
    lemma_join_take(parts, ", "@, 1);
    lemma_join_take(parts, ", "@, 2);
    assert(parts.take(3) =~= parts);
    assert(render_template_spec(spec_mnemonic(op), args) =~= spec_mnemonic(op) + load_operands_text());
    if op == NvvmOp::WmmaLoadAM16N16K16Bf16Row {
        reveal_strlit("wmma.load.a.sync.aligned.m16n16k16.row.bf16");
        reveal_strlit("wmma.load.a.sync.aligned.m16n16k16.row.bf16 {$0,$1,$2,$3}, [$4], $5;");
        assert(spec_mnemonic(op) + load_operands_text() =~= spec_template_text(op));
    } else {
        reveal_strlit("wmma.load.b.sync.aligned.m16n16k16.col.bf16");
        reveal_strlit("wmma.load.b.sync.aligned.m16n16k16.col.bf16 {$0,$1,$2,$3}, [$4], $5;");
        assert(spec_mnemonic(op) + load_operands_text() =~= spec_template_text(op));
    }
    reveal_strlit(",");
    reveal_strlit("=r");
    reveal_strlit("=r,=r,=r,=r,l,r");
    reveal_strlit("l");
    reveal_strlit("r");
    let cparts = spec_constraints(op).map_values(|c: Constraint| constraint_text(c));
    assert(cparts =~= seq!["=r"@, "=r"@, "=r"@, "=r"@, "l"@, "r"@]);
    assert(cparts.take(1) =~= seq![cparts[0]]);
    lemma_join_take(cparts, ","@, 1);
    lemma_join_take(cparts, ","@, 2);
    lemma_join_take(cparts, ","@, 3);
    lemma_join_take(cparts, ","@, 4);
    lemma_join_take(cparts, ","@, 5);
    assert(cparts.take(6) =~= cparts);
    assert(render_constraints_spec(spec_constraints(op)) =~= spec_constraints_text(op));
}

proof fn lemma_template_text_mma()
    ensures
        render_template_spec(spec_mnemonic(NvvmOp::WmmaMmaM16N16K16Bf16Bf16F32), spec_args(NvvmOp::WmmaMmaM16N16K16Bf16Bf16F32))
            == spec_template_text(NvvmOp::WmmaMmaM16N16K16Bf16Bf16F32),
{
    reveal_strlit(" ");
    reveal_strlit("$");
    reveal_strlit(", ");
    reveal_strlit(";");
    reveal_strlit("[");
    reveal_strlit("]");
    reveal_strlit("wmma.mma.sync.aligned.m16n16k16.row.col.f32.bf16.bf16.f32");
    reveal_strlit("wmma.mma.sync.aligned.m16n16k16.row.col.f32.bf16.bf16.f32 {$0,$1,$2,$3,$4,$5,$6,$7}, {$8,$9,$10,$11}, {$12,$13,$14,$15}, {$16,$17,$18,$19,$20,$21,$22,$23};");
    reveal_strlit("{$0,$1,$2,$3,$4,$5,$6,$7}");
    reveal_strlit("{$12,$13,$14,$15}");
    reveal_strlit("{$16,$17,$18,$19,$20,$21,$22,$23}");
    reveal_strlit("{$8,$9,$10,$11}");
    let args = spec_args(NvvmOp::WmmaMmaM16N16K16Bf16Bf16F32);
    lemma_vector_texts();
    let parts = args.map_values(|a: AsmArg| render_arg(a));
    assert(parts.take(1) =~= seq![parts[0]]);
    lemma_join_take(parts, ", "@, 1);
    lemma_join_take(parts, ", "@, 2);
    lemma_join_take(parts, ", "@, 3);
    assert(parts.take(4) =~= parts);
    assert(render_template_spec(spec_mnemonic(NvvmOp::WmmaMmaM16N16K16Bf16Bf16F32), args) =~= spec_template_text(NvvmOp::WmmaMmaM16N16K16Bf16Bf16F32));
}

#[verifier::rlimit(50)]
proof fn lemma_constraints_text_mma()
    ensures
        render_constraints_spec(spec_constraints(NvvmOp::WmmaMmaM16N16K16Bf16Bf16F32)) == spec_constraints_text(NvvmOp::WmmaMmaM16N16K16Bf16Bf16F32),
{
    reveal_strlit(",");
    reveal_strlit("=f");
    reveal_strlit("=f,=f,=f,=f,=f,=f,=f,=f,r,r,r,r,r,r,r,r,f,f,f,f,f,f,f,f");
    reveal_strlit("f");
    reveal_strlit("r");
    let parts = spec_constraints(NvvmOp::WmmaMmaM16N16K16Bf16Bf16F32).map_values(|c: Constraint| constraint_text(c));
    assert(parts =~= seq!["=f"@, "=f"@, "=f"@, "=f"@, "=f"@, "=f"@, "=f"@, "=f"@, "r"@, "r"@, "r"@, "r"@, "r"@, "r"@, "r"@, "r"@, "f"@, "f"@, "f"@, "f"@, "f"@, "f"@, "f"@, "f"@]);
    assert(parts.take(1) =~= seq![parts[0]]);
    lemma_join_take(parts, ","@, 1);
    lemma_join_take(parts, ","@, 2);
    lemma_join_take(parts, ","@, 3);
    lemma_join_take(parts, ","@, 4);
    lemma_join_take(parts, ","@, 5);
    lemma_join_take(parts, ","@, 6);
    lemma_join_take(parts, ","@, 7);
    lemma_join_take(parts, ","@, 8);
    lemma_join_take(parts, ","@, 9);
    lemma_join_take(parts, ","@, 10);
    lemma_join_take(parts, ","@, 11);
    lemma_join_take(parts, ","@, 12);
    lemma_join_take(parts, ","@, 13);
    lemma_join_take(parts, ","@, 14);
    lemma_join_take(parts, ","@, 15);
    lemma_join_take(parts, ","@, 16);
    lemma_join_take(parts, ","@, 17);
    lemma_join_take(parts, ","@, 18);
    lemma_join_take(parts, ","@, 19);
    lemma_join_take(parts, ","@, 20);
    lemma_join_take(parts, ","@, 21);
    lemma_join_take(parts, ","@, 22);
    lemma_join_take(parts, ","@, 23);
    assert(parts.take(24) =~= parts);
    assert(render_constraints_spec(spec_constraints(NvvmOp::WmmaMmaM16N16K16Bf16Bf16F32)) =~= spec_constraints_text(NvvmOp::WmmaMmaM16N16K16Bf16Bf16F32));
}

proof fn lemma_template_text_store_d()
    ensures
        render_template_spec(spec_mnemonic(NvvmOp::WmmaStoreDM16N16K16Bf16F32Row), spec_args(NvvmOp::WmmaStoreDM16N16K16Bf16F32Row))
            == spec_template_text(NvvmOp::WmmaStoreDM16N16K16Bf16F32Row),
{
    reveal_strlit(" ");
    reveal_strlit("$");
    reveal_strlit("$1");
    reveal_strlit(", ");
    reveal_strlit("0");
    reveal_strlit("1");
    reveal_strlit(";");
    reveal_strlit("[");
    reveal_strlit("[$0]");
    reveal_strlit("]");
    reveal_strlit("wmma.store.d.sync.aligned.m16n16k16.row.f32");
    reveal_strlit("wmma.store.d.sync.aligned.m16n16k16.row.f32 [$0], {$2,$3,$4,$5,$6,$7,$8,$9}, $1;");
    reveal_strlit("{$2,$3,$4,$5,$6,$7,$8,$9}");
    let args = spec_args(NvvmOp::WmmaStoreDM16N16K16Bf16F32Row);
    assert(render_arg(args[0]) =~= "[$0]"@);
    assert(render_arg(args[2]) =~= "$1"@);
    lemma_vector_texts();
    let parts = args.map_values(|a: AsmArg| render_arg(a));
    assert(parts.take(1) =~= seq![parts[0]]);
    lemma_join_take(parts, ", "@, 1);
    lemma_join_take(parts, ", "@, 2);
    assert(parts.take(3) =~= parts);
    assert(render_template_spec(spec_mnemonic(NvvmOp::WmmaStoreDM16N16K16Bf16F32Row), args) =~= spec_template_text(NvvmOp::WmmaStoreDM16N16K16Bf16F32Row));
}

#[verifier::rlimit(50)]
proof fn lemma_constraints_text_store_d()
    ensures
        render_constraints_spec(spec_constraints(NvvmOp::WmmaStoreDM16N16K16Bf16F32Row)) == spec_constraints_text(NvvmOp::WmmaStoreDM16N16K16Bf16F32Row),
{
    reveal_strlit(",");
    reveal_strlit("f");
    reveal_strlit("l");
    reveal_strlit("l,r,f,f,f,f,f,f,f,f,~{memory}");
    reveal_strlit("r");
    reveal_strlit("~{memory}");
    let parts = spec_constraints(NvvmOp::WmmaStoreDM16N16K16Bf16F32Row).map_values(|c: Constraint| constraint_text(c));
    assert(parts =~= seq!["l"@, "r"@, "f"@, "f"@, "f"@, "f"@, "f"@, "f"@, "f"@, "f"@, "~{memory}"@]);
    assert(parts.take(1) =~= seq![parts[0]]);
    lemma_join_take(parts, ","@, 1);
    lemma_join_take(parts, ","@, 2);
    lemma_join_take(parts, ","@, 3);
    lemma_join_take(parts, ","@, 4);
    lemma_join_take(parts, ","@, 5);
    lemma_join_take(parts, ","@, 6);
    lemma_join_take(parts, ","@, 7);
    lemma_join_take(parts, ","@, 8);
    lemma_join_take(parts, ","@, 9);
    lemma_join_take(parts, ","@, 10);
    assert(parts.take(11) =~= parts);
    assert(render_constraints_spec(spec_constraints(NvvmOp::WmmaStoreDM16N16K16Bf16F32Row)) =~= spec_constraints_text(NvvmOp::WmmaStoreDM16N16K16Bf16F32Row));
}

/// For every WMMA operation, the rendered template and constraint text
/// are exactly the statement's text, written out.
pub proof fn lemma_statement_text(op: NvvmOp)
    requires
        is_wmma(op),
    ensures
        render_template_spec(spec_mnemonic(op), spec_args(op)) == spec_template_text(op),
        render_constraints_spec(spec_constraints(op)) == spec_constraints_text(op),
{
    match op {
        NvvmOp::WmmaLoadAM16N16K16Bf16Row | NvvmOp::WmmaLoadBM16N16K16Bf16Col => {
            lemma_load_texts(op);
        },
        NvvmOp::WmmaMmaM16N16K16Bf16Bf16F32 => {
            lemma_template_text_mma();
            lemma_constraints_text_mma();
        },
        NvvmOp::WmmaStoreDM16N16K16Bf16F32Row => {
            lemma_template_text_store_d();
            lemma_constraints_text_store_d();
        },
        _ => {},
    }
}

/// Each WMMA load or store instruction is the one its operation names:
/// the fragment letter and the layout in the mnemonic are those in the
/// operation's registered name (`nvvm.wmma_load_<f>_m16n16k16_bf16_<layout>`,
/// `nvvm.wmma_store_<f>_m16n16k16_bf16_f32_<layout>`).
pub proof fn lemma_mnemonic_named_after_op(op: NvvmOp)
    ensures
        is_load(op) ==> spec_mnemonic(op) == "wmma.load."@ + spec_op_name(op).subrange(15, 16)
            + ".sync.aligned.m16n16k16."@ + spec_op_name(op).subrange(32, 35) + ".bf16"@,
        op == NvvmOp::WmmaStoreDM16N16K16Bf16F32Row ==> spec_mnemonic(op) == "wmma.store."@
            + spec_op_name(op).subrange(16, 17) + ".sync.aligned.m16n16k16."@
            + spec_op_name(op).subrange(37, 40) + ".f32"@,
{
    reveal_strlit("wmma.load.");
    reveal_strlit("wmma.store.");
    reveal_strlit(".sync.aligned.m16n16k16.");
    reveal_strlit(".bf16");
    reveal_strlit(".f32");
    let name = spec_op_name(op);
    match op {
        NvvmOp::WmmaLoadAM16N16K16Bf16Row => {
            reveal_strlit("nvvm.wmma_load_a_m16n16k16_bf16_row");
            reveal_strlit("wmma.load.a.sync.aligned.m16n16k16.row.bf16");
            assert(spec_mnemonic(op) =~= "wmma.load."@ + name.subrange(15, 16)
                + ".sync.aligned.m16n16k16."@ + name.subrange(32, 35) + ".bf16"@);
        },
        NvvmOp::WmmaLoadBM16N16K16Bf16Col => {
            reveal_strlit("nvvm.wmma_load_b_m16n16k16_bf16_col");
            reveal_strlit("wmma.load.b.sync.aligned.m16n16k16.col.bf16");
            assert(spec_mnemonic(op) =~= "wmma.load."@ + name.subrange(15, 16)
                + ".sync.aligned.m16n16k16."@ + name.subrange(32, 35) + ".bf16"@);
        },
        NvvmOp::WmmaStoreDM16N16K16Bf16F32Row => {
            reveal_strlit("nvvm.wmma_store_d_m16n16k16_bf16_f32_row");
            reveal_strlit("wmma.store.d.sync.aligned.m16n16k16.row.f32");
            assert(spec_mnemonic(op) =~= "wmma.store."@ + name.subrange(16, 17)
                + ".sync.aligned.m16n16k16."@ + name.subrange(37, 40) + ".f32"@);
        },
        _ => {},
    }
}

} // verus!
