use cuda_intrinsics::layout::{
    load_operand_at, mma_operand_at, mma_operand_index, store_operand_at, store_operand_index,
    LoadOperand, MmaOperand, StoreOperand, ACC_LANES_PER_THREAD, AB_REGS_PER_THREAD, BF16_PER_REG,
    MMA_OPERANDS, STORE_OPERANDS, TILE_DIM, WARP_SIZE,
};

#[test]
fn fragments_cover_a_tile() {
    assert_eq!(AB_REGS_PER_THREAD * WARP_SIZE, 128);
    assert_eq!(AB_REGS_PER_THREAD * WARP_SIZE * BF16_PER_REG, TILE_DIM * TILE_DIM);
    assert_eq!(ACC_LANES_PER_THREAD * WARP_SIZE, 256);
}

#[test]
fn mma_operand_order() {
    assert_eq!(mma_operand_at(0), Some(MmaOperand::A(0)));
    assert_eq!(mma_operand_at(3), Some(MmaOperand::A(3)));
    assert_eq!(mma_operand_at(4), Some(MmaOperand::B(0)));
    assert_eq!(mma_operand_at(8), Some(MmaOperand::C(0)));
    assert_eq!(mma_operand_at(15), Some(MmaOperand::C(7)));
    assert_eq!(mma_operand_at(16), None);
    for i in 0..MMA_OPERANDS {
        assert_eq!(mma_operand_index(mma_operand_at(i).unwrap()), i);
    }
}

#[test]
fn store_operand_order() {
    assert_eq!(store_operand_at(0), Some(StoreOperand::Dst));
    assert_eq!(store_operand_at(1), Some(StoreOperand::Stride));
    assert_eq!(store_operand_at(2), Some(StoreOperand::D(0)));
    assert_eq!(store_operand_at(9), Some(StoreOperand::D(7)));
    assert_eq!(store_operand_at(10), None);
    for i in 0..STORE_OPERANDS {
        assert_eq!(store_operand_index(store_operand_at(i).unwrap()), i);
    }
}

#[test]
fn load_operand_order() {
    assert_eq!(load_operand_at(0), Some(LoadOperand::Src));
    assert_eq!(load_operand_at(1), Some(LoadOperand::Stride));
    assert_eq!(load_operand_at(2), None);
}
