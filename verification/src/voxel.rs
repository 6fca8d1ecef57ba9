use vstd::prelude::*;

verus! {

/// The material of one voxel.
#[derive(Clone, Copy, Debug, Eq, PartialEq, Structural)]
pub enum VoxelKind {
    Air,
    Stone,
    Dirt,
    Grass,
}

/// The meshing algorithm used for voxel chunks.
#[derive(Clone, Copy, Debug, Eq, PartialEq, Structural)]
pub enum MeshingAlgorithmKind {
    Culled,
    Greedy,
}

/// A cube of voxels: either all of one material, or split into eight octants, ordered by
/// `4 * z + 2 * y + x` where each of `x`, `y`, `z` is 0 for the lower half and 1 for the upper.
#[derive(Debug)]
pub enum SparseOctree {
    Uniform { kind: VoxelKind },
    Mixed { children: Vec<SparseOctree> },
}

/// A grid of column heights with `rows` values of `x` and `cols` values of `y`. The height of
/// column `(x, y)` is at index `x + y * rows` (column-major, as in a matrix with `rows` rows).
#[derive(Debug)]
pub struct Heightmap {
    pub rows: usize,
    pub cols: usize,
    pub heights: Vec<i64>,
}

impl VoxelKind {
    pub fn is_air(&self) -> (res: bool)
        ensures
            res == (*self == VoxelKind::Air),
    {
        matches!(self, VoxelKind::Air)
    }
}

/// The material of a voxel at height `z` in a column whose terrain reaches `height`: air above
/// the terrain, one layer of grass, four layers of dirt, stone below.
pub open spec fn spec_material(height: int, z: int) -> VoxelKind {
    if height <= z {
        VoxelKind::Air
    } else if height <= z + 1 {
        VoxelKind::Grass
    } else if height <= z + 5 {
        VoxelKind::Dirt
    } else {
        VoxelKind::Stone
    }
}

/// Depth rank of a material: stone lies deepest.
pub open spec fn material_rank(k: VoxelKind) -> int {
    match k {
        VoxelKind::Stone => 3,
        VoxelKind::Dirt => 2,
        VoxelKind::Grass => 1,
        VoxelKind::Air => 0,
    }
}

pub fn material_from_height(height: i64, z: i64) -> (res: VoxelKind)
    requires
        height > z + 1 ==> z + 5 <= i64::MAX,
    ensures
        res == spec_material(height as int, z as int),
{
    if height <= z {
        VoxelKind::Air
    } else if height <= z + 1 {
        VoxelKind::Grass
    } else if height <= z + 5 {
        VoxelKind::Dirt
    } else {
        VoxelKind::Stone
    }
}

/// Law: going up a column never goes deeper in material; a voxel is never of a deeper
/// material than the voxels below it.
pub proof fn law_material_monotone(height: int, z1: int, z2: int)
    requires
        z1 <= z2,
    ensures
        material_rank(spec_material(height, z2)) <= material_rank(spec_material(height, z1)),
{
}

proof fn lemma_material_between(height: int, z1: int, z: int, z2: int)
    requires
        z1 <= z <= z2,
        spec_material(height, z1) == spec_material(height, z2),
    ensures
        spec_material(height, z) == spec_material(height, z1),
{
    law_material_monotone(height, z1, z);
    law_material_monotone(height, z, z2);
}

/// Whether `n` is a power of two.
pub open spec fn is_pow2(n: nat) -> bool
    decreases n,
{
    if n <= 1 {
        n == 1
    } else {
        n % 2 == 0 && is_pow2(n / 2)
    }
}

impl Heightmap {
    /// The heightmap holds exactly `rows * cols` heights.
    pub open spec fn wf(&self) -> bool {
        self.heights@.len() == self.rows * self.cols
    }

    /// Height of column `(x, y)`.
    pub open spec fn height(&self, x: int, y: int) -> int {
        self.heights@[x + y * self.rows] as int
    }

    /// A well-formed heightmap fits in memory.
    pub proof fn lemma_size_bound(&self)
        requires
            self.wf(),
        ensures
            self.rows * self.cols <= usize::MAX,
    {
        vstd::std_specs::vec::axiom_spec_len(&self.heights);
    }

    /// A square of side `n` inside a well-formed heightmap has a side of at most 2^32.
    pub proof fn lemma_square_side(&self, n: int)
        requires
            self.wf(),
            0 <= n <= self.rows,
            n <= self.cols,
        ensures
            n <= 0x1_0000_0000,
    {
        self.lemma_size_bound();
        let r = self.rows as int;
        let c = self.cols as int;
        assert(n * n <= r * c) by (nonlinear_arith)
            requires
                0 <= n <= r,
                n <= c,
        ;
        assert(n <= 0x1_0000_0000) by (nonlinear_arith)
            requires
                n * n <= 0xffff_ffff_ffff_ffff,
                n >= 0,
        {
            if n > 0x1_0000_0000 {
                assert(n * n > 0x1_0000_0000 * 0x1_0000_0000);
            }
        }
    }

    pub fn get(&self, x: usize, y: usize) -> (res: i64)
        requires
            self.wf(),
            x < self.rows,
            y < self.cols,
        ensures
            res == self.height(x as int, y as int),
    {
        proof {
            self.lemma_size_bound();
            let r = self.rows as int;
            let c = self.cols as int;
            assert(x + y * r < r * c) by (nonlinear_arith)
                requires
                    0 <= x < r,
                    0 <= y < c,
            {
                assert(y * r <= (c - 1) * r);
            }
        }
        self.heights[x + y * self.rows]
    }
}

/// Whether the octree is well formed for a cube of side `n`: split nodes have exactly eight
/// children, each well formed for half the side, and only cubes of side at least two are split.
pub open spec fn octree_wf(o: SparseOctree, n: nat) -> bool
    decreases o,
{
    match o {
        SparseOctree::Uniform { .. } => true,
        SparseOctree::Mixed { children } => {
            &&& n >= 2
            &&& children@.len() == 8
            &&& octree_wf(children@[0], n / 2)
            &&& octree_wf(children@[1], n / 2)
            &&& octree_wf(children@[2], n / 2)
            &&& octree_wf(children@[3], n / 2)
            &&& octree_wf(children@[4], n / 2)
            &&& octree_wf(children@[5], n / 2)
            &&& octree_wf(children@[6], n / 2)
            &&& octree_wf(children@[7], n / 2)
        },
    }
}

/// Offset of the upper half (`bit == 1`) or lower half of a side split into halves of `h`.
pub open spec fn offset(bit: int, h: int) -> int {
    if bit == 1 {
        h
    } else {
        0
    }
}

proof fn lemma_mixed_wf(children: Vec<SparseOctree>, n: nat)
    requires
        n >= 2,
        children@.len() == 8,
        forall|i: int| 0 <= i < 8 ==> #[trigger] octree_wf(children@[i], n / 2),
    ensures
        octree_wf(SparseOctree::Mixed { children }, n),
{
    let o = SparseOctree::Mixed { children };
    assert(o->children == children);
    assert(octree_wf(children@[0], n / 2));
    assert(octree_wf(o, n) == (n >= 2 && children@.len() == 8 && octree_wf(children@[0], n / 2)
        && octree_wf(children@[1], n / 2) && octree_wf(children@[2], n / 2) && octree_wf(
        children@[3],
        n / 2,
    ) && octree_wf(children@[4], n / 2) && octree_wf(children@[5], n / 2) && octree_wf(
        children@[6],
        n / 2,
    ) && octree_wf(children@[7], n / 2)));
}

/// Which half (0 or 1) of a side `n` the coordinate `d` lies in.
pub open spec fn half(d: int, n: nat) -> int {
    if d >= n / 2 {
        1
    } else {
        0
    }
}

/// The material an octree for a cube of side `n` gives the voxel at offset `(dx, dy, dz)`.
pub open spec fn octree_at(o: SparseOctree, n: nat, dx: int, dy: int, dz: int) -> VoxelKind
    decreases o,
{
    match o {
        SparseOctree::Uniform { kind } => kind,
        SparseOctree::Mixed { children } => {
            let h = n / 2;
            let i = 4 * half(dz, n) + 2 * half(dy, n) + half(dx, n);
            if 0 <= i < children@.len() {
                octree_at(
                    children@[i],
                    h,
                    dx - offset(half(dx, n), h as int),
                    dy - offset(half(dy, n), h as int),
                    dz - offset(half(dz, n), h as int),
                )
            } else {
                VoxelKind::Air
            }
        },
    }
}

/// The octree describes the terrain of the cube of side `n` whose lowest corner is column
/// `(x, y)` at height `z`: every voxel gets the material its column's height gives it.
pub open spec fn represents(
    o: SparseOctree,
    heightmap: Heightmap,
    x: int,
    y: int,
    z: int,
    n: nat,
) -> bool {
    forall|dx: int, dy: int, dz: int|
        0 <= dx < n && 0 <= dy < n && 0 <= dz < n ==> #[trigger] octree_at(o, n, dx, dy, dz)
            == spec_material(heightmap.height(x + dx, y + dy), z + dz)
}

/// Material of the voxel at offset `(dx, dy, dz)` from column `(x, y)` at height `z`.
pub open spec fn voxel_material(
    heightmap: Heightmap,
    x: int,
    y: int,
    z: int,
    dx: int,
    dy: int,
    dz: int,
) -> VoxelKind {
    spec_material(heightmap.height(x + dx, y + dy), z + dz)
}

/// Whether every voxel of the cube of side `n` whose lowest corner is column `(x, y)` at
/// height `z` has material `m`.
pub open spec fn cube_uniform(heightmap: Heightmap, x: int, y: int, z: int, n: nat, m: VoxelKind) -> bool {
    forall|dx: int, dy: int, dz: int|
        0 <= dx < n && 0 <= dy < n && 0 <= dz < n ==> #[trigger] voxel_material(
            heightmap,
            x,
            y,
            z,
            dx,
            dy,
            dz,
        ) == m
}

/// Whether `o` is the sparse octree of the cube of side `n` whose lowest corner is column
/// `(x, y)` at height `z`: a single uniform node when every voxel of the cube has the material of
/// its lowest corner, otherwise a split node whose child `4 * dz + 2 * dy + dx` is the sparse
/// octree of that octant (halves of side `n / 2`). This fixes every node of the octree.
pub open spec fn is_sparse_octree(
    o: SparseOctree,
    heightmap: Heightmap,
    x: int,
    y: int,
    z: int,
    n: nat,
) -> bool
    decreases o,
{
    let m = spec_material(heightmap.height(x, y), z);
    let h = n / 2;
    match o {
        SparseOctree::Uniform { kind } => kind == m && cube_uniform(heightmap, x, y, z, n, m),
        SparseOctree::Mixed { children } => {
            &&& !cube_uniform(heightmap, x, y, z, n, m)
            &&& children@.len() == 8
            &&& is_sparse_octree(children@[0], heightmap, x, y, z, h)
            &&& is_sparse_octree(children@[1], heightmap, x + h, y, z, h)
            &&& is_sparse_octree(children@[2], heightmap, x, y + h, z, h)
            &&& is_sparse_octree(children@[3], heightmap, x + h, y + h, z, h)
            &&& is_sparse_octree(children@[4], heightmap, x, y, z + h, h)
            &&& is_sparse_octree(children@[5], heightmap, x + h, y, z + h, h)
            &&& is_sparse_octree(children@[6], heightmap, x, y + h, z + h, h)
            &&& is_sparse_octree(children@[7], heightmap, x + h, y + h, z + h, h)
        },
    }
}

/// Whether every column of the `n` by `n` square at `(x, y)` has material `kind` at both
/// heights `z` and `z + n - 1`.
fn square_is_uniform(
    x: usize,
    y: usize,
    z: i64,
    n: usize,
    heightmap: &Heightmap,
    kind: VoxelKind,
) -> (res: bool)
    requires
        heightmap.wf(),
        1 <= n,
        x + n <= heightmap.rows,
        y + n <= heightmap.cols,
        z + n + 4 <= i64::MAX,
    ensures
        res == forall|lx: int, ly: int|
            x <= lx < x + n && y <= ly < y + n ==> spec_material(
                #[trigger] heightmap.height(lx, ly),
                z as int,
            ) == kind && spec_material(heightmap.height(lx, ly), z + n - 1) == kind,
{
    proof {
        heightmap.lemma_size_bound();
        heightmap.lemma_square_side(n as int);
    }
    let top = z + n as i64 - 1;
    let mut ly = y;
    while ly < y + n
        invariant
            heightmap.wf(),
            x + n <= heightmap.rows,
            y + n <= heightmap.cols,
            y <= ly <= y + n,
            top == z + n - 1,
            z + n + 4 <= i64::MAX,
            forall|lx: int, ly2: int|
                x <= lx < x + n && y <= ly2 < ly ==> spec_material(
                    #[trigger] heightmap.height(lx, ly2),
                    z as int,
                ) == kind && spec_material(heightmap.height(lx, ly2), z + n - 1) == kind,
        decreases y + n - ly,
    {
        let mut lx = x;
        while lx < x + n
            invariant
                heightmap.wf(),
                x + n <= heightmap.rows,
                y + n <= heightmap.cols,
                y <= ly < y + n,
                x <= lx <= x + n,
                top == z + n - 1,
                z + n + 4 <= i64::MAX,
                forall|lx2: int, ly2: int|
                    x <= lx2 < x + n && y <= ly2 < ly ==> spec_material(
                        #[trigger] heightmap.height(lx2, ly2),
                        z as int,
                    ) == kind && spec_material(heightmap.height(lx2, ly2), z + n - 1) == kind,
                forall|lx2: int|
                    x <= lx2 < lx ==> spec_material(
                        #[trigger] heightmap.height(lx2, ly as int),
                        z as int,
                    ) == kind && spec_material(heightmap.height(lx2, ly as int), z + n - 1)
                        == kind,
            decreases x + n - lx,
        {
            let height = heightmap.get(lx, ly);
            let low = material_from_height(height, z);
            let high = material_from_height(height, top);
            if low != kind || high != kind {
                return false;
            }
            lx = lx + 1;
        }
        ly = ly + 1;
    }
    true
}

/// Builds the octree of the cube of side `n` whose lowest corner is column `(x, y)` at height
/// `z`: a uniform node where the whole cube has one material, otherwise eight octants built the
/// same way.
pub fn svo_from_heightmap_impl(
    x: usize,
    y: usize,
    z: i64,
    n: usize,
    heightmap: &Heightmap,
) -> (res: SparseOctree)
    requires
        heightmap.wf(),
        1 <= n,
        x + n <= heightmap.rows,
        y + n <= heightmap.cols,
        z + n + 4 <= i64::MAX,
    ensures
        octree_wf(res, n as nat),
        is_sparse_octree(res, *heightmap, x as int, y as int, z as int, n as nat),
        is_pow2(n as nat) ==> represents(res, *heightmap, x as int, y as int, z as int, n as nat),
    decreases n,
{
    let material = material_from_height(heightmap.get(x, y), z);
    if square_is_uniform(x, y, z, n, heightmap, material) {
        proof {
            assert forall|dx: int, dy: int, dz: int|
                0 <= dx < n && 0 <= dy < n && 0 <= dz < n implies #[trigger] voxel_material(
                *heightmap,
                x as int,
                y as int,
                z as int,
                dx,
                dy,
                dz,
            ) == material by {
                let h = heightmap.height(x + dx, y + dy);
                assert(spec_material(h, z as int) == material);
                assert(spec_material(h, z + n - 1) == material);
                lemma_material_between(h, z as int, z + dz, z + n - 1);
            }
            assert forall|dx: int, dy: int, dz: int|
                0 <= dx < n && 0 <= dy < n && 0 <= dz < n implies #[trigger] octree_at(
                SparseOctree::Uniform { kind: material },
                n as nat,
                dx,
                dy,
                dz,
            ) == spec_material(heightmap.height(x + dx, y + dy), z + dz) by {
                let h = heightmap.height(x + dx, y + dy);
                assert(spec_material(h, z as int) == material);
                assert(spec_material(h, z + n - 1) == material);
                lemma_material_between(h, z as int, z + dz, z + n - 1);
            }
        }
        return SparseOctree::Uniform { kind: material };
    }
    proof {
        heightmap.lemma_size_bound();
        if cube_uniform(*heightmap, x as int, y as int, z as int, n as nat, material) {
            assert forall|lx: int, ly: int|
                x <= lx < x + n && y <= ly < y + n implies spec_material(
                #[trigger] heightmap.height(lx, ly),
                z as int,
            ) == material && spec_material(heightmap.height(lx, ly), z + n - 1) == material by {
                assert(voxel_material(*heightmap, x as int, y as int, z as int, lx - x, ly - y, 0)
                    == material);
                assert(voxel_material(
                    *heightmap,
                    x as int,
                    y as int,
                    z as int,
                    lx - x,
                    ly - y,
                    n - 1,
                ) == material);
            }
            assert(false);
        }
        if n == 1 {
            // A single voxel is always uniform.
            assert(spec_material(heightmap.height(x as int, y as int), z as int) == material);
            assert(false);
        }
    }
    let h = n / 2;
    let mut children: Vec<SparseOctree> = Vec::new();
    let mut k: usize = 0;
    while k < 8
        invariant
            heightmap.wf(),
            2 <= n,
            h == n / 2,
            x + n <= heightmap.rows,
            y + n <= heightmap.cols,
            z + n + 4 <= i64::MAX,
            k <= 8,
            children@.len() == k,
            forall|i: int| 0 <= i < k ==> #[trigger] octree_wf(children@[i], h as nat),
            forall|i: int|
                0 <= i < k ==> is_sparse_octree(
                    #[trigger] children@[i],
                    *heightmap,
                    x + offset(i % 2, h as int),
                    y + offset((i / 2) % 2, h as int),
                    z + offset(i / 4, h as int),
                    h as nat,
                ),
            forall|i: int|
                0 <= i < k ==> (is_pow2(h as nat) ==> represents(
                    #[trigger] children@[i],
                    *heightmap,
                    x + offset(i % 2, h as int),
                    y + offset((i / 2) % 2, h as int),
                    z + offset(i / 4, h as int),
                    h as nat,
                )),
        decreases 8 - k,
    {
        let ox = if k % 2 == 1 { h } else { 0 };
        let oy = if (k / 2) % 2 == 1 { h } else { 0 };
        let oz = if k / 4 == 1 { h } else { 0 };
        let child = svo_from_heightmap_impl(x + ox, y + oy, z + oz as i64, h, heightmap);
        children.push(child);
        k = k + 1;
    }
    let ghost cs = children@;
    let res = SparseOctree::Mixed { children };
    proof {
        assert(res->children@ == cs);
        assert(cs.len() == 8);
        assert forall|i: int| 0 <= i < 8 implies #[trigger] octree_wf(cs[i], (n as nat) / 2) by {
            assert(octree_wf(cs[i], h as nat));
        }
        lemma_mixed_wf(res->children, n as nat);
        let hx = x + h;
        let hy = y + h;
        let hz = z + h;
        assert(is_sparse_octree(cs[0], *heightmap, x as int, y as int, z as int, h as nat));
        assert(is_sparse_octree(cs[1], *heightmap, hx, y as int, z as int, h as nat));
        assert(is_sparse_octree(cs[2], *heightmap, x as int, hy, z as int, h as nat));
        assert(is_sparse_octree(cs[3], *heightmap, hx, hy, z as int, h as nat));
        assert(is_sparse_octree(cs[4], *heightmap, x as int, y as int, hz, h as nat));
        assert(is_sparse_octree(cs[5], *heightmap, hx, y as int, hz, h as nat));
        assert(is_sparse_octree(cs[6], *heightmap, x as int, hy, hz, h as nat));
        assert(is_sparse_octree(cs[7], *heightmap, hx, hy, hz, h as nat));
        assert(h as nat == (n as nat) / 2);
        assert(is_sparse_octree(res, *heightmap, x as int, y as int, z as int, n as nat));
        if is_pow2(n as nat) {
            assert(n == 2 * h);
            assert(is_pow2(h as nat));
            assert forall|dx: int, dy: int, dz: int|
                0 <= dx < n && 0 <= dy < n && 0 <= dz < n implies #[trigger] octree_at(
                res,
                n as nat,
                dx,
                dy,
                dz,
            ) == spec_material(heightmap.height(x + dx, y + dy), z + dz) by {
                let i = 4 * half(dz, n as nat) + 2 * half(dy, n as nat) + half(dx, n as nat);
                assert(0 <= i < 8);
                assert(i % 2 == half(dx, n as nat));
                assert((i / 2) % 2 == half(dy, n as nat));
                assert(i / 4 == half(dz, n as nat));
                let c = cs[i];
                assert(represents(
                    c,
                    *heightmap,
                    x + offset(i % 2, h as int),
                    y + offset((i / 2) % 2, h as int),
                    z + offset(i / 4, h as int),
                    h as nat,
                ));
                let ex = dx - offset(half(dx, n as nat), h as int);
                let ey = dy - offset(half(dy, n as nat), h as int);
                let ez = dz - offset(half(dz, n as nat), h as int);
                assert(octree_at(c, h as nat, ex, ey, ez) == spec_material(
                    heightmap.height(
                        x + offset(i % 2, h as int) + ex,
                        y + offset((i / 2) % 2, h as int) + ey,
                    ),
                    z + offset(i / 4, h as int) + ez,
                ));
            }
        }
    }
    res
}

/// Builds the octree of a chunk from its heightmap; the chunk's lowest voxel layer is at height
/// `chunk_z * chunk_size`.
pub fn generate_svo(chunk_z: i64, heightmap: &Heightmap, chunk_size: usize) -> (res: SparseOctree)
    requires
        heightmap.wf(),
        heightmap.rows == chunk_size,
        heightmap.cols == chunk_size,
        1 <= chunk_size,
        i64::MIN <= chunk_z * chunk_size,
        chunk_z * chunk_size + chunk_size + 4 <= i64::MAX,
    ensures
        octree_wf(res, chunk_size as nat),
        is_sparse_octree(res, *heightmap, 0, 0, chunk_z * chunk_size, chunk_size as nat),
        is_pow2(chunk_size as nat) ==> represents(
            res,
            *heightmap,
            0,
            0,
            chunk_z * chunk_size,
            chunk_size as nat,
        ),
{
    proof {
        heightmap.lemma_size_bound();
        heightmap.lemma_square_side(chunk_size as int);
    }
    let base = chunk_z * chunk_size as i64;
    svo_from_heightmap_impl(0, 0, base, chunk_size, heightmap)
}

} // verus!
