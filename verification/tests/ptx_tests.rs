use cuda_intrinsics::ops::NvvmOp;
use cuda_intrinsics::ptx::{render_constraints, render_template, wmma_statement, AsmArg, Constraint};

fn rendered(op: NvvmOp) -> (String, String) {
    let st = wmma_statement(op).expect("a WMMA operation has a statement");
    (render_template(&st), render_constraints(&st))
}

#[test]
fn load_a_statement_text() {
    let (t, c) = rendered(NvvmOp::WmmaLoadAM16N16K16Bf16Row);
    assert_eq!(t, "wmma.load.a.sync.aligned.m16n16k16.row.bf16 {$0,$1,$2,$3}, [$4], $5;");
    assert_eq!(c, "=r,=r,=r,=r,l,r");
}

#[test]
fn load_b_statement_text() {
    let (t, c) = rendered(NvvmOp::WmmaLoadBM16N16K16Bf16Col);
    assert_eq!(t, "wmma.load.b.sync.aligned.m16n16k16.col.bf16 {$0,$1,$2,$3}, [$4], $5;");
    assert_eq!(c, "=r,=r,=r,=r,l,r");
}

#[test]
fn mma_statement_text() {
    let (t, c) = rendered(NvvmOp::WmmaMmaM16N16K16Bf16Bf16F32);
    assert_eq!(
        t,
        "wmma.mma.sync.aligned.m16n16k16.row.col.f32.bf16.bf16.f32 \
{$0,$1,$2,$3,$4,$5,$6,$7}, \
{$8,$9,$10,$11}, \
{$12,$13,$14,$15}, \
{$16,$17,$18,$19,$20,$21,$22,$23};"
    );
    assert_eq!(c, "=f,=f,=f,=f,=f,=f,=f,=f,r,r,r,r,r,r,r,r,f,f,f,f,f,f,f,f");
}

#[test]
fn store_statement_text() {
    let (t, c) = rendered(NvvmOp::WmmaStoreDM16N16K16Bf16F32Row);
    assert_eq!(
        t,
        "wmma.store.d.sync.aligned.m16n16k16.row.f32 \
[$0], \
{$2,$3,$4,$5,$6,$7,$8,$9}, $1;"
    );
    assert_eq!(c, "l,r,f,f,f,f,f,f,f,f,~{memory}");
}

#[test]
fn approximations_have_no_statement() {
    for op in [
        NvvmOp::SqrtApproxF32,
        NvvmOp::CosApproxF32,
        NvvmOp::SinApproxF32,
        NvvmOp::Ex2ApproxF32,
        NvvmOp::Lg2ApproxF32,
    ] {
        assert!(wmma_statement(op).is_none());
    }
}

#[test]
fn every_placeholder_used_once() {
    for op in [
        NvvmOp::WmmaLoadAM16N16K16Bf16Row,
        NvvmOp::WmmaLoadBM16N16K16Bf16Col,
        NvvmOp::WmmaMmaM16N16K16Bf16Bf16F32,
        NvvmOp::WmmaStoreDM16N16K16Bf16F32Row,
    ] {
        let st = wmma_statement(op).unwrap();
        let mut seen: Vec<usize> = Vec::new();
        for a in &st.args {
            match *a {
                AsmArg::Vector { first, count } => seen.extend(first..first + count),
                AsmArg::Address(n) | AsmArg::Scalar(n) => seen.push(n),
            }
        }
        seen.sort();
        let n = op.num_results() + op.num_operands();
        assert_eq!(seen, (0..n).collect::<Vec<_>>());
        let operands = st.constraints.iter().filter(|c| **c != Constraint::ClobberMemory).count();
        assert_eq!(operands, n);
    }
}

#[test]
fn custom_statement_renders_each_argument_kind() {
    let st = cuda_intrinsics::ptx::AsmStatement {
        mnemonic: "op.x",
        args: vec![AsmArg::Scalar(12), AsmArg::Vector { first: 9, count: 2 }, AsmArg::Address(100)],
        constraints: vec![Constraint::OutF32, Constraint::InReg32, Constraint::ClobberMemory],
    };
    assert_eq!(render_template(&st), "op.x $12, {$9,$10}, [$100];");
    assert_eq!(render_constraints(&st), "=f,r,~{memory}");
}

#[test]
fn empty_statement_renders() {
    let st = cuda_intrinsics::ptx::AsmStatement { mnemonic: "bar.sync", args: vec![], constraints: vec![] };
    assert_eq!(render_template(&st), "bar.sync ;");
    assert_eq!(render_constraints(&st), "");
}
