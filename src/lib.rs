//! Element-wise addition, element-wise multiplication and the dot product of
//! `i32` vectors, computed by kernels of a compiled PTX module on a CUDA device.
//!
//! Each operation validates its inputs, takes the caller's device context and
//! its default stream, loads the kernel, moves the inputs to the device, allocates
//! a zeroed output buffer, hands a fully prepared [`ops::KernelJob`] to a
//! launcher supplied by the caller, and copies the output back to the host.
//! The launch itself is left to the caller because cudarc marks it `unsafe`;
//! so is creating the context, which panics where no driver can be loaded.
//!
//! The values that come back are the kernels' own: they are computed on the
//! device by code read from the PTX file at run time, so the contracts here
//! say what each kernel is handed (its name, the module path, the buffers and
//! their initial contents, the launch shape, the length argument), that a
//! result comes only after the launch succeeded, and how long it is, but not
//! which numbers it holds.

mod device;
pub mod launch;
pub mod ops;

pub use device::{device_len, zeros, DeviceBuffer, Kernel, Module};
pub use launch::{
    elementwise_grid, reduction_grid, reduction_shape, LaunchShape, ELEMENTWISE_BLOCK,
    I32_BYTES, REDUCTION_BLOCK,
};
pub use ops::{
    add, dot_product, lemma_launch_covers, lemma_same_launch, multiply, run, validate, validation_error, launched,
    KernelJob, VecOp, VecOpError, KERNEL_PATH,
};
