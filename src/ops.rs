use crate::device::{
    alloc_zeros, copy_to_device, copy_to_host, default_stream, device_len, load_function,
    load_module_file, zeros, DeviceBuffer, Kernel,
};
use crate::launch::{
    blocks_for, elementwise_grid, elementwise_shape, reduction_grid, reduction_shape, LaunchShape,
    ELEMENTWISE_BLOCK, I32_BYTES, REDUCTION_BLOCK,
};
use cudarc::driver::{CudaContext, CudaStream, DriverError};
use std::sync::Arc;
use vstd::prelude::*;

verus! {

/// Path of the compiled kernel module, relative to the working directory.
pub const KERNEL_PATH: &'static str = "kernel.ptx";

/// The three vector operations of the kernel module.
#[derive(Clone, Copy, Debug, PartialEq, Eq)]
pub enum VecOp {
    Add,
    Multiply,
    DotProduct,
}

/// Why an operation produced no result.
#[derive(Clone, Copy, Debug, PartialEq, Eq)]
pub enum VecOpError {
    /// The two inputs differ in length.
    LengthMismatch,
    /// The inputs are too long for the kernel's launch or length argument.
    TooLong,
    /// A driver call failed: context creation, module load, kernel lookup,
    /// allocation, a copy or the launch.
    Device(DriverError),
}

impl VecOp {
    /// Name of the kernel entry point.
    pub open spec fn spec_kernel_name(self) -> Seq<char> {
        match self {
            VecOp::Add => seq!['a', 'd', 'd'],
            VecOp::Multiply => seq!['m', 'u', 'l', 't', 'i', 'p', 'l', 'y'],
            VecOp::DotProduct => seq!['d', 'o', 't', '_', 'p', 'r', 'o', 'd', 'u', 'c', 't'],
        }
    }

    /// Elements of the output buffer: four for the element-wise kernels, one
    /// for the reduction.
    pub open spec fn spec_output_len(self) -> nat {
        match self {
            VecOp::DotProduct => 1,
            _ => 4,
        }
    }

    /// Longest input the operation accepts: the element-wise launch counts
    /// elements in a `u32`, the reduction receives its length as an `i32`.
    pub open spec fn spec_max_len(self) -> nat {
        match self {
            VecOp::DotProduct => i32::MAX as nat,
            _ => u32::MAX as nat,
        }
    }

    /// Threads per block in the first dimension.
    pub open spec fn spec_block_size(self) -> nat {
        match self {
            VecOp::DotProduct => REDUCTION_BLOCK as nat,
            _ => ELEMENTWISE_BLOCK as nat,
        }
    }

    /// Blocks needed to cover `n` elements.
    pub open spec fn spec_blocks(self, n: nat) -> nat {
        blocks_for(n, self.spec_block_size())
    }

    /// Launch shape for inputs of `n` elements.
    pub open spec fn spec_shape(self, n: nat) -> LaunchShape {
        match self {
            VecOp::DotProduct => LaunchShape {
                grid_dim: (reduction_grid(n) as u32, 1u32, 1u32),
                block_dim: (REDUCTION_BLOCK, 1u32, 1u32),
                shared_mem_bytes: (REDUCTION_BLOCK * I32_BYTES) as u32,
            },
            _ => LaunchShape {
                grid_dim: (elementwise_grid(n) as u32, 1u32, 1u32),
                block_dim: (ELEMENTWISE_BLOCK, 1u32, 1u32),
                shared_mem_bytes: 0u32,
            },
        }
    }

    /// Scalar argument that follows the buffers: the length, for the reduction.
    pub open spec fn spec_length_arg(self, n: nat) -> Option<i32> {
        match self {
            VecOp::DotProduct => Some(n as i32),
            _ => None,
        }
    }

    /// Name of the kernel entry point in the module.
    pub fn kernel_name(&self) -> (r: &'static str)
        ensures
            r@ == self.spec_kernel_name(),
    {
        match self {
            VecOp::Add => {
                proof {
                    reveal_strlit("add");
                }
                "add"
            },
            VecOp::Multiply => {
                proof {
                    reveal_strlit("multiply");
                }
                "multiply"
            },
            VecOp::DotProduct => {
                proof {
                    reveal_strlit("dot_product");
                }
                "dot_product"
            },
        }
    }

    /// Longest input length the operation accepts.
    pub fn max_len(&self) -> (r: usize)
        ensures
            r == self.spec_max_len(),
    {
        match self {
            VecOp::DotProduct => i32::MAX as usize,
            _ => u32::MAX as usize,
        }
    }

    /// Launch shape for inputs of `n` elements: cudarc's element-wise
    /// configuration for the element-wise kernels, and blocks of 256 threads
    /// with one `i32` of shared memory per thread for the reduction.
    pub fn launch_shape(&self, n: u32) -> (r: LaunchShape)
        ensures
            r == self.spec_shape(n as nat),
    {
        match self {
            VecOp::DotProduct => reduction_shape(n),
            _ => elementwise_shape(n),
        }
    }

    /// Elements of the output buffer.
    pub fn output_len(&self) -> (r: usize)
        ensures
            r == self.spec_output_len(),
    {
        match self {
            VecOp::DotProduct => 1,
            _ => 4,
        }
    }
}

/// Everything a launch needs, prepared on the device: the stream, the
/// resolved kernel, the two input buffers, the zeroed output buffer, the
/// launch shape and, for the reduction, the length argument. Arguments go to
/// the kernel in the order `lhs`, `rhs`, `out`, then `length_arg` if present.
pub struct KernelJob {
    pub op: VecOp,
    pub stream: Arc<CudaStream>,
    pub kernel: Kernel,
    pub lhs: DeviceBuffer,
    pub rhs: DeviceBuffer,
    pub out: DeviceBuffer,
    pub shape: LaunchShape,
    pub length_arg: Option<i32>,
}

impl KernelJob {
    /// The job is the one for `op` on the inputs `a` and `b`: the kernel of
    /// `op` from the module at `KERNEL_PATH`, input buffers that hold `a` and
    /// `b`, a zeroed output buffer of the operation's size, and the launch
    /// shape and length argument for `a.len()` elements.
    pub open spec fn prepared_for(&self, op: VecOp, a: Seq<i32>, b: Seq<i32>) -> bool {
        &&& self.op == op
        &&& self.kernel.name@ == op.spec_kernel_name()
        &&& self.kernel.path@ == KERNEL_PATH@
        &&& device_len(self.lhs.slice) == a.len()
        &&& self.lhs.initial@ == a
        &&& device_len(self.rhs.slice) == b.len()
        &&& self.rhs.initial@ == b
        &&& device_len(self.out.slice) == op.spec_output_len()
        &&& self.out.initial@ == zeros(op.spec_output_len())
        &&& self.shape == op.spec_shape(a.len())
        &&& self.length_arg == op.spec_length_arg(a.len())
    }
}

/// For every input length that `op` accepts, its launch covers each element
/// with exactly one thread in the first dimension and leaves no block idle:
/// `grid * block` reaches `n`, one block fewer would not, and the grid count
/// fits the `u32` it is launched with. A length that is no multiple of the
/// block size gets one partially filled last block.
pub proof fn lemma_launch_covers(op: VecOp, n: nat)
    requires
        n <= op.spec_max_len(),
    ensures
        op.spec_blocks(n) * op.spec_block_size() >= n,
        n > 0 ==> (op.spec_blocks(n) - 1) * op.spec_block_size() < n,
        op.spec_blocks(n) <= u32::MAX,
        op.spec_shape(n).grid_dim.0 == op.spec_blocks(n),
        op.spec_shape(n).block_dim.0 == op.spec_block_size(),
{
    let b = op.spec_block_size();
    let g = op.spec_blocks(n);
    assert(g * b >= n && (n > 0 ==> (g - 1) * b < n) && g <= u32::MAX) by (nonlinear_arith)
        requires g == (n + b - 1) / b as int, b == 256 || b == 1024, n <= u32::MAX;
    assert(op.spec_shape(n).grid_dim.0 == g);
}

/// Two calls of `op` on the same inputs hand the launcher the same launch:
/// the same kernel, shape and length argument, and buffers that start with
/// the same contents. For the reduction the length argument is the input length itself.
pub proof fn lemma_same_launch(
    op: VecOp,
    a: Seq<i32>,
    b: Seq<i32>,
    first: KernelJob,
    second: KernelJob,
)
    requires
        a.len() <= op.spec_max_len(),
        first.prepared_for(op, a, b),
        second.prepared_for(op, a, b),
    ensures
        first.kernel.name@ == second.kernel.name@,
        first.kernel.path@ == second.kernel.path@,
        first.shape == second.shape,
        first.length_arg == second.length_arg,
        first.lhs.initial@ == second.lhs.initial@,
        first.rhs.initial@ == second.rhs.initial@,
        first.out.initial@ == second.out.initial@,
        device_len(first.out.slice) == device_len(second.out.slice),
        op is DotProduct ==> (first.length_arg matches Some(k) && k == a.len()),
{
}

/// The error that validation reports for `op` on inputs of lengths `n` and `m`,
/// if any.
pub open spec fn validation_error(op: VecOp, n: nat, m: nat) -> Option<VecOpError> {
    if n != m {
        Some(VecOpError::LengthMismatch)
    } else if n > op.spec_max_len() {
        Some(VecOpError::TooLong)
    } else {
        None
    }
}

/// Checks that the inputs of lengths `n` and `m` suit `op`.
pub fn validate(op: VecOp, n: usize, m: usize) -> (r: Result<(), VecOpError>)
    ensures
        validation_error(op, n as nat, m as nat) matches Some(e) ==> r == Err::<(), VecOpError>(e),
        validation_error(op, n as nat, m as nat) is None ==> r is Ok,
{
    if n != m {
        Err(VecOpError::LengthMismatch)
    } else if n > op.max_len() {
        Err(VecOpError::TooLong)
    } else {
        Ok(())
    }
}

/// The launcher ran, and returned `Ok`, on a job prepared for `op` on the
/// inputs `a` and `b`.
pub open spec fn launched<F: FnOnce(&KernelJob) -> Result<(), DriverError>>(
    launch: F,
    op: VecOp,
    a: Seq<i32>,
    b: Seq<i32>,
) -> bool {
    exists|job: KernelJob|
        #[trigger] job.prepared_for(op, a, b) && call_ensures(launch, (&job,), Ok::<(), DriverError>(()))
}

/// Wraps a driver error.
fn device_err<T>(r: Result<T, DriverError>) -> (out: Result<T, VecOpError>)
    ensures
        r matches Ok(v) ==> out == Ok::<T, VecOpError>(v),
        r matches Err(e) ==> out == Err::<T, VecOpError>(VecOpError::Device(e)),
{
    match r {
        Ok(v) => Ok(v),
        Err(e) => Err(VecOpError::Device(e)),
    }
}

/// Runs `op` on `a_host` and `b_host` in the device context `ctx`:
/// validates the lengths, prepares the job on the context's default stream
/// with the kernel resolved from the module at `KERNEL_PATH`, hands it to
/// `launch`, and copies the output buffer back.
///
/// A length error is reported exactly when validation finds one, before any
/// device work; every other failure is a driver error. A result comes only
/// after `launch` returned `Ok` on a job prepared for `op`, and has exactly
/// the output buffer's length.
pub fn run<F>(ctx: &Arc<CudaContext>, op: VecOp, a_host: &Vec<i32>, b_host: &Vec<i32>, launch: F) -> (r: Result<
    Vec<i32>,
    VecOpError,
>) where F: FnOnce(&KernelJob) -> Result<(), DriverError>
    requires
        forall|job: KernelJob| job.prepared_for(op, a_host@, b_host@) ==> call_requires(launch, (&job,)),
    ensures
        validation_error(op, a_host@.len(), b_host@.len()) matches Some(e) ==> r == Err::<Vec<i32>, VecOpError>(e),
        validation_error(op, a_host@.len(), b_host@.len()) is None ==> (r matches Err(e) ==> e is Device),
        r is Ok ==> launched(launch, op, a_host@, b_host@),
        r matches Ok(v) ==> v@.len() == op.spec_output_len(),
{
    let n = a_host.len();
    validate(op, n, b_host.len())?;
    let shape = op.launch_shape(n as u32);
    let length_arg = match op {
        VecOp::DotProduct => Some(n as i32),
        _ => None,
    };
    let stream = default_stream(ctx);
    proof {
        reveal_strlit("kernel.ptx");
    }
    let module = device_err(load_module_file(ctx, KERNEL_PATH))?;
    let name = op.kernel_name();
    let kernel = device_err(load_function(&module, name))?;
    let lhs = device_err(copy_to_device(&stream, a_host))?;
    let rhs = device_err(copy_to_device(&stream, b_host))?;
    let out = device_err(alloc_zeros(&stream, op.output_len()))?;
    let job = KernelJob { op, stream, kernel, lhs, rhs, out, shape, length_arg };
    assert(job.prepared_for(op, a_host@, b_host@));
    let launched = launch(&job);
    device_err(launched)?;
    assert(call_ensures(launch, (&job,), Ok::<(), DriverError>(())));
    device_err(copy_to_host(&job.stream, &job.out.slice))
}

/// Element-wise sum of the first four positions of `a_host` and `b_host`, as
/// the `add` kernel computes it on the device; the contract fixes what the
/// kernel is handed and the result's length, not its values.
pub fn add<F>(ctx: &Arc<CudaContext>, a_host: Vec<i32>, b_host: Vec<i32>, launch: F) -> (r: Result<
    Vec<i32>,
    VecOpError,
>) where F: FnOnce(&KernelJob) -> Result<(), DriverError>
    requires
        forall|job: KernelJob|
            job.prepared_for(VecOp::Add, a_host@, b_host@) ==> call_requires(launch, (&job,)),
    ensures
        r == Err::<Vec<i32>, VecOpError>(VecOpError::LengthMismatch) <==> a_host@.len()
            != b_host@.len(),
        r == Err::<Vec<i32>, VecOpError>(VecOpError::TooLong) <==> a_host@.len() == b_host@.len()
            && a_host@.len() > u32::MAX,
        r is Ok ==> launched(launch, VecOp::Add, a_host@, b_host@),
        r matches Ok(v) ==> v@.len() == 4,
{
    run(ctx, VecOp::Add, &a_host, &b_host, launch)
}

/// Element-wise product of the first four positions of `a_host` and
/// `b_host`, as the `multiply` kernel computes it on the device; the contract
/// fixes what the kernel is handed and the result's length, not its values.
pub fn multiply<F>(ctx: &Arc<CudaContext>, a_host: Vec<i32>, b_host: Vec<i32>, launch: F) -> (r: Result<
    Vec<i32>,
    VecOpError,
>) where F: FnOnce(&KernelJob) -> Result<(), DriverError>
    requires
        forall|job: KernelJob|
            job.prepared_for(VecOp::Multiply, a_host@, b_host@) ==> call_requires(launch, (&job,)),
    ensures
        r == Err::<Vec<i32>, VecOpError>(VecOpError::LengthMismatch) <==> a_host@.len()
            != b_host@.len(),
        r == Err::<Vec<i32>, VecOpError>(VecOpError::TooLong) <==> a_host@.len() == b_host@.len()
            && a_host@.len() > u32::MAX,
        r is Ok ==> launched(launch, VecOp::Multiply, a_host@, b_host@),
        r matches Ok(v) ==> v@.len() == 4,
{
    run(ctx, VecOp::Multiply, &a_host, &b_host, launch)
}

/// Inner product of `a_host` and `b_host`, as the `dot_product` reduction
/// kernel computes it on the device: the first element of its one-element
/// output. The contract fixes what the kernel is handed, not the value.
pub fn dot_product<F>(ctx: &Arc<CudaContext>, a_host: Vec<i32>, b_host: Vec<i32>, launch: F) -> (r: Result<
    i32,
    VecOpError,
>) where F: FnOnce(&KernelJob) -> Result<(), DriverError>
    requires
        forall|job: KernelJob|
            job.prepared_for(VecOp::DotProduct, a_host@, b_host@) ==> call_requires(launch, (&job,)),
    ensures
        r == Err::<i32, VecOpError>(VecOpError::LengthMismatch) <==> a_host@.len()
            != b_host@.len(),
        r == Err::<i32, VecOpError>(VecOpError::TooLong) <==> a_host@.len() == b_host@.len()
            && a_host@.len() > i32::MAX,
        r is Ok ==> launched(launch, VecOp::DotProduct, a_host@, b_host@),
{
    let v = run(ctx, VecOp::DotProduct, &a_host, &b_host, launch)?;
    Ok(v[0])
}

} // verus!
