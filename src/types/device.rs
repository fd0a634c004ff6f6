use vstd::prelude::*;

verus! {

/// Where a buffer lives. Only the CPU is used; the tag is carried along.
#[derive(Clone, Copy, PartialEq, Eq, Structural, Debug)]
pub enum Device {
    CPU,
    OPENCL,
}

/// The device that buffers get when none is named.
pub fn default_device() -> (d: Device)
    ensures
        d == Device::CPU,
{
    Device::CPU
}

} // verus!
