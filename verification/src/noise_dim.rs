use vstd::prelude::*;

verus! {

/// The extents of a noise grid along each of up to four axes, together with
/// the number of axes that are in use.
#[derive(Debug, Copy, Clone, PartialEq, Eq, Hash)]
pub struct NoiseDim {
    pub(crate) x_extent: usize,
    pub(crate) y_extent: usize,
    pub(crate) z_extent: usize,
    pub(crate) w_extent: usize,
    dim: usize,
}

impl NoiseDim {
    /// Extent along the x axis.
    pub closed spec fn spec_x(self) -> usize {
        self.x_extent
    }

    /// Extent along the y axis.
    pub closed spec fn spec_y(self) -> usize {
        self.y_extent
    }

    /// Extent along the z axis.
    pub closed spec fn spec_z(self) -> usize {
        self.z_extent
    }

    /// Extent along the w axis.
    pub closed spec fn spec_w(self) -> usize {
        self.w_extent
    }

    /// Number of axes in use.
    pub closed spec fn spec_dim(self) -> usize {
        self.dim
    }

    /// The grid uses between one and four axes, and every axis it does not use
    /// has extent 1.
    pub open spec fn wf(self) -> bool {
        &&& 1 <= self.spec_dim() <= 4
        &&& self.spec_dim() < 2 ==> self.spec_y() == 1
        &&& self.spec_dim() < 3 ==> self.spec_z() == 1
        &&& self.spec_dim() < 4 ==> self.spec_w() == 1
    }

    /// Number of cells of the grid: the product of the four extents.
    pub open spec fn spec_size(self) -> int {
        self.spec_x() * self.spec_y() * self.spec_z() * self.spec_w()
    }

    /// A line of `x_extent` cells.
    pub fn new_1d(x_extent: usize) -> (r: Self)
        ensures
            r.spec_x() == x_extent,
            r.spec_y() == 1,
            r.spec_z() == 1,
            r.spec_w() == 1,
            r.spec_dim() == 1,
            r.wf(),
            r.spec_size() == x_extent,
    {
        NoiseDim { x_extent, y_extent: 1, z_extent: 1, w_extent: 1, dim: 1 }
    }

    /// A plane of `x_extent` by `y_extent` cells.
    pub fn new_2d(x_extent: usize, y_extent: usize) -> (r: Self)
        ensures
            r.spec_x() == x_extent,
            r.spec_y() == y_extent,
            r.spec_z() == 1,
            r.spec_w() == 1,
            r.spec_dim() == 2,
            r.wf(),
            r.spec_size() == x_extent * y_extent,
    {
        NoiseDim { x_extent, y_extent, z_extent: 1, w_extent: 1, dim: 2 }
    }

    /// A volume of `x_extent` by `y_extent` by `z_extent` cells.
    pub fn new_3d(x_extent: usize, y_extent: usize, z_extent: usize) -> (r: Self)
        ensures
            r.spec_x() == x_extent,
            r.spec_y() == y_extent,
            r.spec_z() == z_extent,
            r.spec_w() == 1,
            r.spec_dim() == 3,
            r.wf(),
            r.spec_size() == x_extent * y_extent * z_extent,
    {
        NoiseDim { x_extent, y_extent, z_extent, w_extent: 1, dim: 3 }
    }

    /// A four-dimensional grid with the given extents.
    pub fn new_4d(x_extent: usize, y_extent: usize, z_extent: usize, w_extent: usize) -> (r: Self)
        ensures
            r.spec_x() == x_extent,
            r.spec_y() == y_extent,
            r.spec_z() == z_extent,
            r.spec_w() == w_extent,
            r.spec_dim() == 4,
            r.wf(),
            r.spec_size() == x_extent * y_extent * z_extent * w_extent,
    {
        NoiseDim { x_extent, y_extent, z_extent, w_extent, dim: 4 }
    }

    /// Whether the product of the extents, taken from x to w, stays within a
    /// machine word at every step.
    pub open spec fn size_fits(self) -> bool {
        &&& self.spec_x() * self.spec_y() <= usize::MAX
        &&& self.spec_x() * self.spec_y() * self.spec_z() <= usize::MAX
        &&& self.spec_size() <= usize::MAX
    }

    /// Number of cells of the grid.
    pub fn size(self) -> (r: usize)
        requires
            self.size_fits(),
        ensures
            r == self.spec_size(),
    {
        self.x_extent * self.y_extent * self.z_extent * self.w_extent
    }

    /// Number of cells of the grid, or `None` when a product of the extents,
    /// taken from x to w, overflows a machine word.
    pub fn checked_size(self) -> (r: Option<usize>)
        ensures
            r is Some <==> self.size_fits(),
            r matches Some(n) ==> n == self.spec_size(),
    {
        let xy = match self.x_extent.checked_mul(self.y_extent) {
            Some(v) => v,
            None => return None,
        };
        let xyz = match xy.checked_mul(self.z_extent) {
            Some(v) => v,
            None => return None,
        };
        xyz.checked_mul(self.w_extent)
    }

    /// Number of axes in use.
    pub fn dim(self) -> (r: usize)
        ensures
            r == self.spec_dim(),
    {
        self.dim
    }

    /// Extent along the x axis.
    pub fn x_extent(self) -> (r: usize)
        ensures
            r == self.spec_x(),
    {
        self.x_extent
    }

    /// Extent along the y axis.
    pub fn y_extent(self) -> (r: usize)
        ensures
            r == self.spec_y(),
    {
        self.y_extent
    }

    /// Extent along the z axis.
    pub fn z_extent(self) -> (r: usize)
        ensures
            r == self.spec_z(),
    {
        self.z_extent
    }

    /// Extent along the w axis.
    pub fn w_extent(self) -> (r: usize)
        ensures
            r == self.spec_w(),
    {
        self.w_extent
    }
}

/// The size of a well-formed grid is the product of the extents of the axes
/// it uses.
pub proof fn lemma_size_of_used_axes(d: NoiseDim)
    requires
        d.wf(),
    ensures
        d.spec_dim() == 1 ==> d.spec_size() == d.spec_x(),
        d.spec_dim() == 2 ==> d.spec_size() == d.spec_x() * d.spec_y(),
        d.spec_dim() == 3 ==> d.spec_size() == d.spec_x() * d.spec_y() * d.spec_z(),
{
}

} // verus!
