use cudarc::driver::LaunchConfig;
use vstd::prelude::*;

verus! {

/// Threads in each block of the dot-product reduction kernel.
pub const REDUCTION_BLOCK: u32 = 256;

/// Size in bytes of one `i32` element.
pub const I32_BYTES: u32 = 4;

/// Threads in each block of an element-wise launch, as cudarc chooses them.
pub const ELEMENTWISE_BLOCK: u32 = 1024;

/// Grid dimensions, block dimensions and dynamic shared memory of one launch.
#[derive(Clone, Copy, Debug, PartialEq, Eq)]
pub struct LaunchShape {
    pub grid_dim: (u32, u32, u32),
    pub block_dim: (u32, u32, u32),
    pub shared_mem_bytes: u32,
}

/// Smallest number of blocks of `block` threads that covers `n` elements.
pub open spec fn blocks_for(n: nat, block: nat) -> nat
    recommends
        block > 0,
{
    ((n + block - 1) / block as int) as nat
}

/// Blocks of an element-wise launch over `n` elements.
pub open spec fn elementwise_grid(n: nat) -> nat {
    blocks_for(n, ELEMENTWISE_BLOCK as nat)
}

/// Blocks of the reduction launch over `n` elements.
pub open spec fn reduction_grid(n: nat) -> nat {
    blocks_for(n, REDUCTION_BLOCK as nat)
}

/// Relies on `LaunchConfig::for_num_elems`: a one-dimensional grid of
/// `n.div_ceil(1024)` blocks of 1024 threads, without shared memory.
#[verifier::external_body]
pub(crate) fn elementwise_shape(n: u32) -> (r: LaunchShape)
    ensures
        r.grid_dim == (elementwise_grid(n as nat) as u32, 1u32, 1u32),
        r.block_dim == (ELEMENTWISE_BLOCK, 1u32, 1u32),
        r.shared_mem_bytes == 0,
{
    let cfg = LaunchConfig::for_num_elems(n);
    LaunchShape {
        grid_dim: cfg.grid_dim,
        block_dim: cfg.block_dim,
        shared_mem_bytes: cfg.shared_mem_bytes,
    }
}

/// Launch shape of the dot-product reduction over `n` elements: blocks of
/// 256 threads, enough of them to cover every element, and one `i32` of
/// shared memory per thread.
pub fn reduction_shape(n: u32) -> (r: LaunchShape)
    ensures
        r.grid_dim == (reduction_grid(n as nat) as u32, 1u32, 1u32),
        r.block_dim == (REDUCTION_BLOCK, 1u32, 1u32),
        r.shared_mem_bytes == REDUCTION_BLOCK * I32_BYTES,
        r.grid_dim.0 * REDUCTION_BLOCK >= n,
        n > 0 ==> (r.grid_dim.0 - 1) * REDUCTION_BLOCK < n,
{
    let full = n / REDUCTION_BLOCK;
    let blocks: u32 = if n % REDUCTION_BLOCK == 0 { full } else { full + 1 };
    LaunchShape {
        grid_dim: (blocks, 1, 1),
        block_dim: (REDUCTION_BLOCK, 1, 1),
        shared_mem_bytes: REDUCTION_BLOCK * I32_BYTES,
    }
}

} // verus!
