use gpu_vecops::{
    reduction_shape, validate, LaunchShape, VecOp, VecOpError, ELEMENTWISE_BLOCK,
    REDUCTION_BLOCK,
};

fn shape(grid: u32, block: u32, shared: u32) -> LaunchShape {
    LaunchShape {
        grid_dim: (grid, 1, 1),
        block_dim: (block, 1, 1),
        shared_mem_bytes: shared,
    }
}

#[test]
fn reduction_shape_of_three_elements() {
    assert_eq!(reduction_shape(3), shape(1, 256, 1024));
}

#[test]
fn reduction_shape_of_exact_blocks() {
    assert_eq!(reduction_shape(256), shape(1, 256, 1024));
    assert_eq!(reduction_shape(512), shape(2, 256, 1024));
}

#[test]
fn reduction_shape_of_partial_last_block() {
    assert_eq!(reduction_shape(257), shape(2, 256, 1024));
    assert_eq!(reduction_shape(1000), shape(4, 256, 1024));
}

#[test]
fn reduction_shape_of_nothing() {
    assert_eq!(reduction_shape(0), shape(0, 256, 1024));
}

#[test]
fn reduction_shape_of_longest_input() {
    let n = i32::MAX as u32;
    let s = reduction_shape(n);
    assert_eq!(s.grid_dim.0, 8_388_608);
    assert!(s.grid_dim.0 as u64 * REDUCTION_BLOCK as u64 >= n as u64);
}

#[test]
fn elementwise_shape_of_four_elements() {
    assert_eq!(VecOp::Add.launch_shape(4), shape(1, ELEMENTWISE_BLOCK, 0));
    assert_eq!(VecOp::Multiply.launch_shape(4), shape(1, 1024, 0));
}

#[test]
fn elementwise_shape_rounds_up() {
    assert_eq!(VecOp::Add.launch_shape(1024), shape(1, 1024, 0));
    assert_eq!(VecOp::Add.launch_shape(1025), shape(2, 1024, 0));
    assert_eq!(VecOp::Multiply.launch_shape(0), shape(0, 1024, 0));
}

#[test]
fn dot_product_uses_reduction_shape() {
    assert_eq!(VecOp::DotProduct.launch_shape(3), shape(1, 256, 1024));
    assert_eq!(VecOp::DotProduct.launch_shape(1000), reduction_shape(1000));
}

#[test]
fn kernel_names() {
    assert_eq!(VecOp::Add.kernel_name(), "add");
    assert_eq!(VecOp::Multiply.kernel_name(), "multiply");
    assert_eq!(VecOp::DotProduct.kernel_name(), "dot_product");
}

#[test]
fn output_lengths() {
    assert_eq!(VecOp::Add.output_len(), 4);
    assert_eq!(VecOp::Multiply.output_len(), 4);
    assert_eq!(VecOp::DotProduct.output_len(), 1);
}

#[test]
fn longest_inputs() {
    assert_eq!(VecOp::Add.max_len(), u32::MAX as usize);
    assert_eq!(VecOp::DotProduct.max_len(), i32::MAX as usize);
}

#[test]
fn validate_rejects_unequal_lengths() {
    assert_eq!(validate(VecOp::Add, 4, 3), Err(VecOpError::LengthMismatch));
    assert_eq!(validate(VecOp::Multiply, 2, 4), Err(VecOpError::LengthMismatch));
    assert_eq!(validate(VecOp::DotProduct, 3, 2), Err(VecOpError::LengthMismatch));
    assert_eq!(validate(VecOp::DotProduct, 0, 1), Err(VecOpError::LengthMismatch));
}

#[test]
fn validate_accepts_equal_lengths() {
    assert_eq!(validate(VecOp::Add, 4, 4), Ok(()));
    assert_eq!(validate(VecOp::DotProduct, 3, 3), Ok(()));
    assert_eq!(validate(VecOp::Multiply, 0, 0), Ok(()));
}

#[test]
fn validate_rejects_too_long() {
    let over = i32::MAX as usize + 1;
    assert_eq!(validate(VecOp::DotProduct, over, over), Err(VecOpError::TooLong));
    assert_eq!(validate(VecOp::Add, over, over), Ok(()));
    let longest = i32::MAX as usize;
    assert_eq!(validate(VecOp::DotProduct, longest, longest), Ok(()));
}

#[test]
fn validate_mismatch_comes_before_length_limit() {
    let over = i32::MAX as usize + 1;
    assert_eq!(validate(VecOp::DotProduct, over, 3), Err(VecOpError::LengthMismatch));
}

#[test]
fn repeated_shapes_agree() {
    let first = VecOp::DotProduct.launch_shape(3);
    for _ in 1..101 {
        assert_eq!(VecOp::DotProduct.launch_shape(3), first);
        assert_eq!(VecOp::Add.launch_shape(4), shape(1, 1024, 0));
    }
}
