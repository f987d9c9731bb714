use cudarc::driver::{CudaContext, CudaFunction, CudaModule, CudaSlice, CudaStream, DriverError};
use cudarc::nvrtc::Ptx;
use std::sync::Arc;
use vstd::prelude::*;

verus! {

#[verifier::external_type_specification]
#[verifier::external_body]
pub struct ExCudaContext(CudaContext);

#[verifier::external_type_specification]
#[verifier::external_body]
pub struct ExCudaStream(CudaStream);

#[verifier::external_type_specification]
#[verifier::external_body]
pub struct ExCudaModule(CudaModule);

#[verifier::external_type_specification]
#[verifier::external_body]
pub struct ExCudaFunction(CudaFunction);

#[verifier::external_type_specification]
#[verifier::external_body]
#[verifier::reject_recursive_types(T)]
pub struct ExCudaSlice<T>(CudaSlice<T>);

#[verifier::external_type_specification]
#[verifier::external_body]
pub struct ExDriverError(DriverError);

/// Number of elements of a device buffer, fixed when the buffer is created.
pub uninterp spec fn device_len(s: CudaSlice<i32>) -> nat;

/// Whether `s` can be handed to the driver as a C string.
pub open spec fn no_nul(s: Seq<char>) -> bool {
    forall|i: int| 0 <= i < s.len() ==> s[i] != '\0'
}

/// Relies on `CudaContext::default_stream`: the null stream of the context.
#[verifier::external_body]
pub(crate) fn default_stream(ctx: &Arc<CudaContext>) -> (r: Arc<CudaStream>) {
    ctx.default_stream()
}

/// A module loaded into a context, with the path of the PTX file it was
/// loaded from.
pub struct Module {
    pub module: Arc<CudaModule>,
    pub path: Ghost<Seq<char>>,
}

/// Relies on `Ptx::from_file`, which only records the path, and on
/// `CudaContext::load_module`, which loads the PTX file at that path. The
/// latter turns the path into a C string and panics on an interior NUL.
#[verifier::external_body]
pub(crate) fn load_module_file(ctx: &Arc<CudaContext>, path: &str) -> (r: Result<
    Module,
    DriverError,
>)
    requires
        no_nul(path@),
    ensures
        r matches Ok(m) ==> m.path@ == path@,
{
    match ctx.load_module(Ptx::from_file(path)) {
        Ok(module) => Ok(Module { module, path: Ghost(path@) }),
        Err(e) => Err(e),
    }
}

/// A kernel resolved from a loaded module, with the name it was resolved by
/// and the path of the module's PTX file.
pub struct Kernel {
    pub function: CudaFunction,
    pub name: Ghost<Seq<char>>,
    pub path: Ghost<Seq<char>>,
}

/// Relies on `CudaModule::load_function`: resolves the kernel named `name`
/// in `module`. It turns the name into a C string and panics on an interior
/// NUL.
#[verifier::external_body]
pub(crate) fn load_function(module: &Module, name: &str) -> (r: Result<Kernel, DriverError>)
    requires
        no_nul(name@),
    ensures
        r matches Ok(k) ==> k.name@ == name@ && k.path@ == module.path@,
{
    match module.module.load_function(name) {
        Ok(function) => Ok(Kernel { function, name: Ghost(name@), path: Ghost(module.path@) }),
        Err(e) => Err(e),
    }
}

/// A device buffer of `i32`, with the contents it was created with. Kernels
/// may write to it afterwards; `initial` records what it held before any.
pub struct DeviceBuffer {
    pub slice: CudaSlice<i32>,
    pub initial: Ghost<Seq<i32>>,
}

/// `n` zeros.
pub open spec fn zeros(n: nat) -> Seq<i32> {
    Seq::new(n, |i: int| 0i32)
}

/// Relies on `CudaStream::memcpy_stod`: allocates a device buffer of
/// `host.len()` elements and copies `host` into it.
#[verifier::external_body]
pub(crate) fn copy_to_device(stream: &Arc<CudaStream>, host: &Vec<i32>) -> (r: Result<
    DeviceBuffer,
    DriverError,
>)
    ensures
        r matches Ok(b) ==> device_len(b.slice) == host@.len() && b.initial@ == host@,
{
    match stream.memcpy_stod(host) {
        Ok(slice) => Ok(DeviceBuffer { slice, initial: Ghost(host@) }),
        Err(e) => Err(e),
    }
}

/// Relies on `CudaStream::alloc_zeros`: a device buffer of `len` zeroed
/// elements.
#[verifier::external_body]
pub(crate) fn alloc_zeros(stream: &Arc<CudaStream>, len: usize) -> (r: Result<
    DeviceBuffer,
    DriverError,
>)
    ensures
        r matches Ok(b) ==> device_len(b.slice) == len && b.initial@ == zeros(len as nat),
{
    match stream.alloc_zeros::<i32>(len) {
        Ok(slice) => Ok(DeviceBuffer { slice, initial: Ghost(zeros(len as nat)) }),
        Err(e) => Err(e),
    }
}

/// Relies on `CudaStream::memcpy_dtov`: a host vector with one element for
/// each element of the device buffer.
#[verifier::external_body]
pub(crate) fn copy_to_host(stream: &Arc<CudaStream>, dev: &CudaSlice<i32>) -> (r: Result<
    Vec<i32>,
    DriverError,
>)
    ensures
        r matches Ok(v) ==> v@.len() == device_len(*dev),
{
    stream.memcpy_dtov(dev)
}

} // verus!
