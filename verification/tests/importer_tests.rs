use cuda_intrinsics::importer::{
    check_call_args, continue_to, insertion_point, intrinsic_name, plan_call, ImportError, InsertAt,
};
use cuda_intrinsics::lower::LaneType;
use cuda_intrinsics::ops::NvvmOp;

fn err_message<T>(r: Result<T, ImportError>) -> String {
    match r {
        Err(e) => e.message(),
        Ok(_) => panic!("expected an error"),
    }
}

#[test]
fn math_call_plan() {
    let p = plan_call(NvvmOp::Ex2ApproxF32, "ex2_approx_f32", 1).ok().unwrap();
    assert_eq!(p.operand_order, vec![0]);
    assert_eq!(p.results, vec![LaneType::F32]);
    assert!(p.pack_order.is_empty());
    assert!(!p.packed);
    assert_eq!(p.no_target_message, "math approx call without target block");
}

#[test]
fn math_call_wrong_args() {
    assert_eq!(
        err_message(plan_call(NvvmOp::SinApproxF32, "sin_approx_f32", 2)),
        "sin_approx_f32 expects 1 argument (x: f32), got 2"
    );
}

#[test]
fn load_call_plan() {
    let label = intrinsic_name(NvvmOp::WmmaLoadBM16N16K16Bf16Col);
    assert_eq!(label, "wmma_load_b_m16n16k16_bf16_col");
    let p = plan_call(NvvmOp::WmmaLoadBM16N16K16Bf16Col, label, 2).ok().unwrap();
    assert_eq!(p.operand_order, vec![0, 1]);
    assert_eq!(p.results, vec![LaneType::U32; 4]);
    assert_eq!(p.pack_order, vec![0, 1, 2, 3]);
    assert!(p.packed);
    assert_eq!(p.no_target_message, "wmma_load_b_m16n16k16_bf16_col");
    assert_eq!(
        err_message(plan_call(NvvmOp::WmmaLoadAM16N16K16Bf16Row, "wmma_load_a_m16n16k16_bf16_row", 1)),
        "wmma_load_a_m16n16k16_bf16_row expects 2 arguments (src, stride), got 1"
    );
}

#[test]
fn mma_call_plan() {
    let label = intrinsic_name(NvvmOp::WmmaMmaM16N16K16Bf16Bf16F32);
    let p = plan_call(NvvmOp::WmmaMmaM16N16K16Bf16Bf16F32, label, 16).ok().unwrap();
    assert_eq!(p.operand_order, (0..16).collect::<Vec<usize>>());
    assert_eq!(p.results, vec![LaneType::F32; 8]);
    assert_eq!(p.pack_order, (0..8).collect::<Vec<usize>>());
    assert!(p.packed);
    assert_eq!(p.no_target_message, "wmma_mma_m16n16k16_bf16_bf16_f32_raw call without target block");
    assert_eq!(
        err_message(plan_call(NvvmOp::WmmaMmaM16N16K16Bf16Bf16F32, label, 8)),
        "wmma_mma_m16n16k16_bf16_bf16_f32_raw expects 16 arguments (a0..a3, b0..b3, c0..c7), got 8"
    );
}

#[test]
fn store_call_plan() {
    let label = intrinsic_name(NvvmOp::WmmaStoreDM16N16K16Bf16F32Row);
    let p = plan_call(NvvmOp::WmmaStoreDM16N16K16Bf16F32Row, label, 10).ok().unwrap();
    assert_eq!(p.operand_order, (0..10).collect::<Vec<usize>>());
    assert!(p.results.is_empty());
    assert!(p.pack_order.is_empty());
    assert!(!p.packed);
    assert_eq!(
        err_message(plan_call(NvvmOp::WmmaStoreDM16N16K16Bf16F32Row, label, 11)),
        "wmma_store_d_m16n16k16_bf16_f32_row_raw expects 10 arguments (dst, stride, d0..d7), got 11"
    );
    assert_eq!(continue_to(Some(7), &p.no_target_message).ok(), Some(7));
    assert_eq!(
        err_message(continue_to(None, &p.no_target_message)),
        "wmma_store_d_m16n16k16_bf16_f32_row_raw call without target block"
    );
}

#[test]
fn argument_check() {
    assert!(check_call_args(NvvmOp::SqrtApproxF32, "sqrt_approx_f32", 1).is_ok());
    match check_call_args(NvvmOp::SqrtApproxF32, "sqrt_approx_f32", 0) {
        Err(ImportError::ArgCount { op, label, found }) => {
            assert_eq!(op, NvvmOp::SqrtApproxF32);
            assert_eq!(label, "sqrt_approx_f32");
            assert_eq!(found, 0);
        }
        _ => panic!("expected an argument count error"),
    }
}

#[test]
fn insertion_after_last_or_at_front() {
    assert!(matches!(insertion_point(Some(3u8)), InsertAt::After(3)));
    assert!(matches!(insertion_point::<u8>(None), InsertAt::Front));
}
