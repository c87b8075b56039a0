//! A dense grid of voxels, stored with `x` varying fastest, then `y`, then `z`.

use vstd::prelude::*;

use crate::gpu_voxel::Voxel;

verus! {

/// Number of cells of a grid with dimensions `dims`.
pub open spec fn cell_count(dims: [u32; 3]) -> int {
    dims[0] * dims[1] * dims[2]
}

/// Position of cell `(x, y, z)` in the grid's storage.
pub open spec fn cell_index(dims: [u32; 3], x: int, y: int, z: int) -> int {
    x + dims[0] * (y + dims[1] * z)
}

/// Whether `(x, y, z)` lies inside a grid with dimensions `dims`.
pub open spec fn in_grid(dims: [u32; 3], x: int, y: int, z: int) -> bool {
    0 <= x < dims[0] && 0 <= y < dims[1] && 0 <= z < dims[2]
}

/// A dense voxel grid.
pub struct VoxelVolume {
    pub dims: [u32; 3],
    pub voxels: Vec<Voxel>,
}

/// A cell inside the grid has a storage position inside the grid, and two
/// different cells have different positions.
pub proof fn lemma_cell_index_in_range_and_unique(
    dims: [u32; 3],
    x: int,
    y: int,
    z: int,
    x2: int,
    y2: int,
    z2: int,
)
    requires
        in_grid(dims, x, y, z),
        in_grid(dims, x2, y2, z2),
    ensures
        0 <= cell_index(dims, x, y, z) < cell_count(dims),
        cell_index(dims, x, y, z) == cell_index(dims, x2, y2, z2) ==> x == x2 && y == y2 && z == z2,
{
    let d0 = dims[0] as int;
    let d1 = dims[1] as int;
    let d2 = dims[2] as int;
    let w = y + d1 * z;
    let w2 = y2 + d1 * z2;
    assert(0 <= w < d1 * d2) by (nonlinear_arith)
        requires
            0 <= y < d1,
            0 <= z < d2,
            w == y + d1 * z,
    {
        assert(d1 * z + d1 <= d1 * d2);
    }
    assert(0 <= x + d0 * w < d0 * (d1 * d2)) by (nonlinear_arith)
        requires
            0 <= x < d0,
            0 <= w < d1 * d2,
    {
        assert(d0 * w + d0 <= d0 * (d1 * d2));
    }
    assert(d0 * (d1 * d2) == d0 * d1 * d2) by (nonlinear_arith);
    if cell_index(dims, x, y, z) == cell_index(dims, x2, y2, z2) {
        assert(0 <= w2 < d1 * d2) by (nonlinear_arith)
            requires
                0 <= y2 < d1,
                0 <= z2 < d2,
                w2 == y2 + d1 * z2,
        {
            assert(d1 * z2 + d1 <= d1 * d2);
        }
        assert(x == x2 && w == w2) by (nonlinear_arith)
            requires
                0 <= x < d0,
                0 <= x2 < d0,
                0 <= w,
                0 <= w2,
                x + d0 * w == x2 + d0 * w2,
        {
            if w < w2 {
                assert(d0 * w + d0 <= d0 * w2);
            } else if w2 < w {
                assert(d0 * w2 + d0 <= d0 * w);
            }
        }
        assert(y == y2 && z == z2) by (nonlinear_arith)
            requires
                0 <= y < d1,
                0 <= y2 < d1,
                0 <= z,
                0 <= z2,
                y + d1 * z == y2 + d1 * z2,
        {
            if z < z2 {
                assert(d1 * z + d1 <= d1 * z2);
            } else if z2 < z {
                assert(d1 * z2 + d1 <= d1 * z);
            }
        }
    }
}

impl VoxelVolume {
    /// The grid's cells in storage order.
    pub open spec fn cells(self) -> Seq<Voxel> {
        self.voxels@
    }

    /// The grid holds one cell per position.
    pub open spec fn well_formed(self) -> bool {
        self.cells().len() == cell_count(self.dims)
    }

    /// A grid of the given dimensions with every cell set to `fill`.
    pub fn new(dims: [u32; 3], fill: Voxel) -> (volume: Self)
        requires
            cell_count(dims) <= usize::MAX,
        ensures
            volume.well_formed(),
            volume.dims == dims,
            forall|i: int| 0 <= i < cell_count(dims) ==> #[trigger] volume.cells()[i] == fill,
    {
        let d0 = dims[0] as usize;
        let d1 = dims[1] as usize;
        let d2 = dims[2] as usize;
        assert(0 <= d0 * d1 <= d0 * d1 * d2 || d2 == 0) by (nonlinear_arith)
            requires
                d0 >= 0,
                d1 >= 0,
                d2 >= 0,
        ;
        let count: usize = if d2 == 0 {
            0
        } else {
            d0 * d1 * d2
        };
        assert(count == cell_count(dims)) by (nonlinear_arith)
            requires
                d2 == 0 ==> count == 0,
                d2 != 0 ==> count == d0 * d1 * d2,
                d0 == dims[0],
                d1 == dims[1],
                d2 == dims[2],
        ;
        let mut voxels: Vec<Voxel> = Vec::new();
        for i in 0..count
            invariant
                voxels@.len() == i,
                forall|j: int| 0 <= j < i ==> #[trigger] voxels@[j] == fill,
        {
            voxels.push(fill);
        }
        VoxelVolume { dims, voxels }
    }

    /// The grid's cells in storage order.
    pub fn voxels(&self) -> (cells: &[Voxel])
        ensures
            cells@ == self.cells(),
    {
        self.voxels.as_slice()
    }

    /// Sets cell `(x, y, z)` to `voxel`, leaving every other cell as it was.
    pub fn set_voxel(&mut self, x: u32, y: u32, z: u32, voxel: Voxel)
        requires
            old(self).well_formed(),
            in_grid(old(self).dims, x as int, y as int, z as int),
        ensures
            final(self).well_formed(),
            final(self).dims == old(self).dims,
            final(self).cells() == old(self).cells().update(
                cell_index(old(self).dims, x as int, y as int, z as int),
                voxel,
            ),
            final(self).cells()[x + old(self).dims[0] * (y + old(self).dims[1] * z)] == voxel,
            forall|i: int|
                0 <= i < old(self).cells().len() && i != x + old(self).dims[0] * (y + old(self).dims[1] * z)
                    ==> #[trigger] final(self).cells()[i] == old(self).cells()[i],
    {
        proof {
            lemma_cell_index_in_range_and_unique(self.dims, x as int, y as int, z as int, x as int, y as int, z as int);
        }
        let d0 = self.dims[0] as usize;
        let d1 = self.dims[1] as usize;
        let ghost idx = cell_index(self.dims, x as int, y as int, z as int);
        assert(0 <= y as int + d1 * (z as int) <= d1 * (z as int) + d1) by (nonlinear_arith)
            requires
                y < d1,
        ;
        assert(0 <= d0 * (y as int + d1 * (z as int)) <= idx) by (nonlinear_arith)
            requires
                idx == x as int + d0 * (y as int + d1 * (z as int)),
                0 <= y as int + d1 * (z as int),
        ;
        assert(0 <= d1 * (z as int) <= y as int + d1 * (z as int)) by (nonlinear_arith)
            requires
                0 <= z,
        ;
        assert(idx < self.voxels.len());
        assert((y as int) + d1 * (z as int) <= d0 * ((y as int) + d1 * (z as int))) by (nonlinear_arith)
            requires
                x < d0,
                0 <= (y as int) + d1 * (z as int),
        ;
        assert(d0 * ((y as int) + d1 * (z as int)) <= idx);
        let inner = (y as usize) + d1 * (z as usize);
        let index = (x as usize) + d0 * inner;
        self.voxels.set(index, voxel);
    }
}

} // verus!
