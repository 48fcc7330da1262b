use cuda_intrinsics::lower::{check_operand_count, lowering_intrinsic, plan_lowering, LaneType, Lowering, LoweringError};
use cuda_intrinsics::ops::{all_ops, NvvmOp};
use cuda_intrinsics::importer::{intrinsic_name, plan_call};
use cuda_intrinsics::ptx::{wmma_statement, Constraint};

#[test]
fn approximation_lowers_to_call() {
    match plan_lowering(NvvmOp::SqrtApproxF32, 1) {
        Ok(Lowering::IntrinsicCall { intrinsic, params, ret }) => {
            assert_eq!(intrinsic, "llvm_nvvm_sqrt_approx_f");
            assert_eq!(params, vec![LaneType::F32]);
            assert_eq!(ret, LaneType::F32);
        }
        _ => panic!("expected an intrinsic call"),
    }
}

#[test]
fn approximation_with_wrong_operand_count() {
    let e = match plan_lowering(NvvmOp::CosApproxF32, 2) {
        Err(e) => e,
        Ok(_) => panic!("expected an error"),
    };
    assert_eq!(e, LoweringError::OperandCount { op: NvvmOp::CosApproxF32, found: 2 });
    assert_eq!(e.message(), "*.approx.f32 unary math op requires 1 operand, got 2");
}

#[test]
fn load_lowering_shape() {
    match plan_lowering(NvvmOp::WmmaLoadAM16N16K16Bf16Row, 2) {
        Ok(Lowering::InlineAsm(a)) => {
            assert_eq!(a.template, "wmma.load.a.sync.aligned.m16n16k16.row.bf16 {$0,$1,$2,$3}, [$4], $5;");
            assert_eq!(a.constraints, "=r,=r,=r,=r,l,r");
            assert_eq!(a.fields, vec![LaneType::I32; 4]);
            assert_eq!(a.extract, vec![0, 1, 2, 3]);
            assert!(!a.erase);
        }
        _ => panic!("expected inline PTX"),
    }
}

#[test]
fn mma_lowering_shape() {
    match plan_lowering(NvvmOp::WmmaMmaM16N16K16Bf16Bf16F32, 16) {
        Ok(Lowering::InlineAsm(a)) => {
            assert_eq!(a.fields, vec![LaneType::F32; 8]);
            assert_eq!(a.extract, (0..8).collect::<Vec<u32>>());
            assert!(!a.erase);
        }
        _ => panic!("expected inline PTX"),
    }
}

#[test]
fn store_lowering_shape() {
    match plan_lowering(NvvmOp::WmmaStoreDM16N16K16Bf16F32Row, 10) {
        Ok(Lowering::InlineAsm(a)) => {
            assert_eq!(a.template, "wmma.store.d.sync.aligned.m16n16k16.row.f32 [$0], {$2,$3,$4,$5,$6,$7,$8,$9}, $1;");
            assert_eq!(a.constraints, "l,r,f,f,f,f,f,f,f,f,~{memory}");
            assert!(a.fields.is_empty());
            assert!(a.extract.is_empty());
            assert!(a.erase);
        }
        _ => panic!("expected inline PTX"),
    }
}

#[test]
fn wmma_operand_count_messages() {
    let cases = [
        (NvvmOp::WmmaLoadBM16N16K16Bf16Col, 3, "wmma load requires 2 operands [ptr, stride], got 3"),
        (NvvmOp::WmmaMmaM16N16K16Bf16Bf16F32, 15, "wmma mma requires 16 operands [a0..3, b0..3, c0..7], got 15"),
        (NvvmOp::WmmaStoreDM16N16K16Bf16F32Row, 0, "wmma store_d requires 10 operands [dst, stride, d0..7], got 0"),
    ];
    for (op, n, msg) in cases {
        match plan_lowering(op, n) {
            Err(e) => assert_eq!(e.message(), msg),
            Ok(_) => panic!("expected an error"),
        }
    }
}

#[test]
fn operand_count_check() {
    assert!(check_operand_count(NvvmOp::WmmaStoreDM16N16K16Bf16F32Row, 10).is_ok());
    assert_eq!(
        check_operand_count(NvvmOp::Lg2ApproxF32, 0),
        Err(LoweringError::OperandCount { op: NvvmOp::Lg2ApproxF32, found: 0 })
    );
}

#[test]
fn importer_and_lowering_agree() {
    for op in all_ops() {
        let n = op.num_operands();
        for m in [0, n, n + 1] {
            assert_eq!(
                plan_call(op, intrinsic_name(op), m).is_ok(),
                plan_lowering(op, m).is_ok()
            );
        }
        let call = plan_call(op, intrinsic_name(op), n).ok().unwrap();
        match plan_lowering(op, n).ok().unwrap() {
            Lowering::IntrinsicCall { params, ret, .. } => {
                assert_eq!(params.len(), n);
                assert_eq!(call.results, vec![ret]);
            }
            Lowering::InlineAsm(a) => {
                assert_eq!(a.extract.len(), call.results.len());
                let st = wmma_statement(op).unwrap();
                let outputs: Vec<Constraint> = st.constraints[..call.results.len()].to_vec();
                for (c, t) in outputs.iter().zip(call.results.iter()) {
                    assert_eq!(*c == Constraint::OutF32, *t == LaneType::F32);
                }
                assert!(st.constraints[call.results.len()..]
                    .iter()
                    .all(|c| *c != Constraint::OutF32 && *c != Constraint::OutReg32));
            }
        }
    }
}

#[test]
fn approximation_intrinsics() {
    assert_eq!(lowering_intrinsic(NvvmOp::SqrtApproxF32), Some("llvm_nvvm_sqrt_approx_f"));
    assert_eq!(lowering_intrinsic(NvvmOp::CosApproxF32), Some("llvm_nvvm_cos_approx_f"));
    assert_eq!(lowering_intrinsic(NvvmOp::SinApproxF32), Some("llvm_nvvm_sin_approx_f"));
    assert_eq!(lowering_intrinsic(NvvmOp::Ex2ApproxF32), Some("llvm_nvvm_ex2_approx_f"));
    assert_eq!(lowering_intrinsic(NvvmOp::Lg2ApproxF32), Some("llvm_nvvm_lg2_approx_f"));
    assert_eq!(lowering_intrinsic(NvvmOp::WmmaMmaM16N16K16Bf16Bf16F32), None);
    match plan_lowering(NvvmOp::Lg2ApproxF32, 1) {
        Ok(Lowering::IntrinsicCall { intrinsic, .. }) => assert_eq!(intrinsic, "llvm_nvvm_lg2_approx_f"),
        _ => panic!("expected an intrinsic call"),
    }
}
