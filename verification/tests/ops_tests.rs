use cuda_intrinsics::ops::{
    all_ops, CosApproxF32Op, Ex2ApproxF32Op, Lg2ApproxF32Op, NvvmOp, SinApproxF32Op, SqrtApproxF32Op,
    WmmaLoadAM16N16K16Bf16RowOp, WmmaLoadBM16N16K16Bf16ColOp, WmmaMmaM16N16K16Bf16Bf16F32Op,
    WmmaStoreDM16N16K16Bf16F32RowOp,
};

#[test]
fn operation_table() {
    let expected = [
        (NvvmOp::SqrtApproxF32, "nvvm.sqrt_approx_f32", 1, 1),
        (NvvmOp::CosApproxF32, "nvvm.cos_approx_f32", 1, 1),
        (NvvmOp::SinApproxF32, "nvvm.sin_approx_f32", 1, 1),
        (NvvmOp::Ex2ApproxF32, "nvvm.ex2_approx_f32", 1, 1),
        (NvvmOp::Lg2ApproxF32, "nvvm.lg2_approx_f32", 1, 1),
        (NvvmOp::WmmaLoadAM16N16K16Bf16Row, "nvvm.wmma_load_a_m16n16k16_bf16_row", 2, 4),
        (NvvmOp::WmmaLoadBM16N16K16Bf16Col, "nvvm.wmma_load_b_m16n16k16_bf16_col", 2, 4),
        (NvvmOp::WmmaMmaM16N16K16Bf16Bf16F32, "nvvm.wmma_mma_m16n16k16_bf16_bf16_f32", 16, 8),
        (NvvmOp::WmmaStoreDM16N16K16Bf16F32Row, "nvvm.wmma_store_d_m16n16k16_bf16_f32_row", 10, 0),
    ];
    let ops = all_ops();
    assert_eq!(ops.len(), expected.len());
    for (i, (op, name, nops, nres)) in expected.iter().enumerate() {
        assert_eq!(ops[i], *op);
        assert_eq!(op.name(), *name);
        assert_eq!(op.num_operands(), *nops);
        assert_eq!(op.num_results(), *nres);
    }
}

#[test]
fn operation_structs_wrap_handles() {
    assert_eq!(SqrtApproxF32Op::new(1u32).get_operation(), 1);
    assert_eq!(CosApproxF32Op::new(2u32).get_operation(), 2);
    assert_eq!(SinApproxF32Op::new(3u32).get_operation(), 3);
    assert_eq!(Ex2ApproxF32Op::new(4u32).get_operation(), 4);
    assert_eq!(Lg2ApproxF32Op::new(5u32).get_operation(), 5);
    assert_eq!(WmmaLoadAM16N16K16Bf16RowOp::new(6u32).get_operation(), 6);
    assert_eq!(WmmaLoadBM16N16K16Bf16ColOp::new(7u32).get_operation(), 7);
    assert_eq!(WmmaMmaM16N16K16Bf16Bf16F32Op::new(8u32).get_operation(), 8);
    assert_eq!(WmmaStoreDM16N16K16Bf16F32RowOp::new(9u32).get_operation(), 9);
}

#[test]
fn operation_structs_know_their_kind() {
    assert_eq!(SqrtApproxF32Op::<u32>::kind(), NvvmOp::SqrtApproxF32);
    assert_eq!(CosApproxF32Op::<u32>::kind(), NvvmOp::CosApproxF32);
    assert_eq!(SinApproxF32Op::<u32>::kind(), NvvmOp::SinApproxF32);
    assert_eq!(Ex2ApproxF32Op::<u32>::kind(), NvvmOp::Ex2ApproxF32);
    assert_eq!(Lg2ApproxF32Op::<u32>::kind(), NvvmOp::Lg2ApproxF32);
    assert_eq!(WmmaLoadAM16N16K16Bf16RowOp::<u32>::kind(), NvvmOp::WmmaLoadAM16N16K16Bf16Row);
    assert_eq!(WmmaLoadBM16N16K16Bf16ColOp::<u32>::kind(), NvvmOp::WmmaLoadBM16N16K16Bf16Col);
    assert_eq!(WmmaMmaM16N16K16Bf16Bf16F32Op::<u32>::kind(), NvvmOp::WmmaMmaM16N16K16Bf16Bf16F32);
    assert_eq!(WmmaStoreDM16N16K16Bf16F32RowOp::<u32>::kind(), NvvmOp::WmmaStoreDM16N16K16Bf16F32Row);
}

#[test]
fn names_are_distinct() {
    let ops = all_ops();
    for i in 0..ops.len() {
        for j in 0..ops.len() {
            if i != j {
                assert_ne!(ops[i].name(), ops[j].name());
            }
        }
    }
}
