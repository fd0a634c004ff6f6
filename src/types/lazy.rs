use vstd::prelude::*;
use crate::types::device::{Device, default_device};
use crate::types::error::TensorError;

verus! {

/// A shape: (rows, columns).
pub type Dimensions = (usize, usize);

/// A row-major buffer of elements.
pub type DataArray<T> = Vec<T>;

/// The number of elements of a matrix of shape `d`.
pub open spec fn size_of(d: Dimensions) -> nat {
    (d.0 * d.1) as nat
}

/// A shaped buffer: row-major elements, their shape and the device they live on.
///
/// Its elements always number `rows * cols`.
pub struct LazyBuffer<T> {
    data: DataArray<T>,
    dimensions: Dimensions,
    device: Device,
    realized: bool,
}

/// A copy of the elements of `data`.
pub fn copy_data<T: Copy>(data: &DataArray<T>) -> (r: DataArray<T>)
    ensures
        r@ == data@,
{
    let mut r: Vec<T> = Vec::new();
    let mut i: usize = 0;
    while i < data.len()
        invariant
            0 <= i <= data@.len(),
            r@ =~= data@.take(i as int),
        decreases data@.len() - i,
    {
        r.push(data[i]);
        i = i + 1;
    }
    proof {
        assert(data@.take(data@.len() as int) =~= data@);
    }
    r
}

impl<T: Copy> LazyBuffer<T> {
    /// The elements, in row-major order.
    pub closed spec fn spec_data(&self) -> Seq<T> {
        self.data@
    }

    /// The shape.
    pub closed spec fn spec_dim(&self) -> Dimensions {
        self.dimensions
    }

    /// The device.
    pub closed spec fn spec_device(&self) -> Device {
        self.device
    }

    /// Whether the elements are computed.
    pub closed spec fn spec_realized(&self) -> bool {
        self.realized
    }

    /// The elements number `rows * cols`, and they are computed.
    pub open spec fn wf(&self) -> bool {
        self.spec_data().len() == size_of(self.spec_dim()) && self.spec_realized()
    }

    /// A buffer of `data` with shape `dimensions`, on `device` (the default
    /// device if `None`). Fails with `ShapeMismatch` exactly when the length of
    /// `data` is not `rows * cols`.
    pub fn new(data: DataArray<T>, dimensions: Dimensions, device: Option<Device>) -> (r: Result<
        Self,
        TensorError,
    >)
        ensures
            r is Ok <==> data@.len() == size_of(dimensions),
            r matches Ok(b) ==> b.wf() && b.spec_data() == data@ && b.spec_dim() == dimensions
                && b.spec_device() == (match device {
                Some(d) => d,
                Option::None => Device::CPU,
            }),
            r matches Err(e) ==> e == (TensorError::ShapeMismatch {
                expected: dimensions,
                found: (data@.len() as usize, 1),
            }),
    {
        let len = data.len();
        let fits = match dimensions.0.checked_mul(dimensions.1) {
            Some(size) => size == len,
            Option::None => false,
        };
        if !fits {
            return Err(TensorError::ShapeMismatch { expected: dimensions, found: (len, 1) });
        }
        let device = match device {
            Some(device) => device,
            Option::None => default_device(),
        };
        Ok(LazyBuffer { data, dimensions, device, realized: true })
    }

    /// A buffer on `device` of `data`, whose length fits `dimensions`.
    pub fn with_shape(data: DataArray<T>, dimensions: Dimensions, device: Device) -> (b: Self)
        requires
            data@.len() == size_of(dimensions),
        ensures
            b.wf(),
            b.spec_data() == data@,
            b.spec_dim() == dimensions,
            b.spec_device() == device,
    {
        LazyBuffer { data, dimensions, device, realized: true }
    }

    /// The shape.
    pub fn dim(&self) -> (r: Dimensions)
        ensures
            r == self.spec_dim(),
    {
        self.dimensions
    }

    /// The elements, in row-major order.
    pub fn data(&self) -> (r: &DataArray<T>)
        ensures
            r@ == self.spec_data(),
    {
        &self.data
    }

    /// The device.
    pub fn device(&self) -> (r: &Device)
        ensures
            *r == self.spec_device(),
    {
        &self.device
    }

    /// Whether the elements are computed; they always are.
    pub fn is_realized(&self) -> (r: bool)
        requires
            self.wf(),
        ensures
            r,
    {
        self.realized
    }

    /// Replaces the elements, keeping the shape.
    pub fn set_data(&mut self, data: DataArray<T>)
        requires
            data@.len() == old(self).spec_data().len(),
        ensures
            final(self).spec_data() == data@,
            final(self).spec_dim() == old(self).spec_dim(),
            final(self).spec_device() == old(self).spec_device(),
            final(self).spec_realized() == old(self).spec_realized(),
    {
        self.data = data;
    }

    /// The buffer with its elements computed: the buffer itself.
    pub fn realize(&self) -> (r: &LazyBuffer<T>)
        ensures
            r == self,
    {
        self
    }

    /// Reads the same elements under another shape with as many elements.
    pub fn set_dim(&mut self, dim: Dimensions)
        requires
            size_of(dim) == size_of(old(self).spec_dim()),
        ensures
            final(self).spec_data() == old(self).spec_data(),
            final(self).spec_dim() == dim,
            final(self).spec_device() == old(self).spec_device(),
            final(self).spec_realized() == old(self).spec_realized(),
    {
        self.dimensions = dim;
    }

    /// A copy of this buffer.
    pub fn copy(&self) -> (r: LazyBuffer<T>)
        ensures
            r.spec_data() == self.spec_data(),
            r.spec_dim() == self.spec_dim(),
            r.spec_device() == self.spec_device(),
            r.spec_realized() == self.spec_realized(),
    {
        LazyBuffer {
            data: copy_data(&self.data),
            dimensions: self.dimensions,
            device: self.device,
            realized: self.realized,
        }
    }
}

} // verus!
