use vstd::prelude::*;

verus! {

/// A point or offset on the integer voxel grid.
#[derive(Clone, Copy, Debug, PartialEq, Eq, Structural)]
pub struct Vec3 {
    pub x: i64,
    pub y: i64,
    pub z: i64,
}

/// Integer coordinates: the constants zero and one.
pub trait Coordinate: Sized {
    fn zero() -> Self;

    fn one() -> Self;
}

impl Coordinate for i64 {
    fn zero() -> (r: i64)
        ensures
            r == 0,
    {
        0
    }

    fn one() -> (r: i64)
        ensures
            r == 1,
    {
        1
    }
}

/// An axis-aligned box of voxels: the voxels `base + (i, j, k)` for `0 <= i < size.x`,
/// `0 <= j < size.y`, `0 <= k < size.z`.
#[derive(Clone, Copy, Debug, PartialEq, Eq, Structural)]
pub struct Cuboid {
    pub base: Vec3,
    pub size: Vec3,
}

/// One of the six unit steps along an axis.
pub open spec fn is_direction(d: Vec3) -> bool {
    ||| d == Vec3 { x: 1, y: 0, z: 0 }
    ||| d == Vec3 { x: -1i64, y: 0, z: 0 }
    ||| d == Vec3 { x: 0, y: 1, z: 0 }
    ||| d == Vec3 { x: 0, y: -1i64, z: 0 }
    ||| d == Vec3 { x: 0, y: 0, z: 1 }
    ||| d == Vec3 { x: 0, y: 0, z: -1i64 }
}

pub open spec fn vadd(a: Vec3, b: Vec3) -> Vec3 {
    Vec3 { x: (a.x + b.x) as i64, y: (a.y + b.y) as i64, z: (a.z + b.z) as i64 }
}

pub open spec fn vsub(a: Vec3, b: Vec3) -> Vec3 {
    Vec3 { x: (a.x - b.x) as i64, y: (a.y - b.y) as i64, z: (a.z - b.z) as i64 }
}

pub open spec fn abs(a: int) -> int {
    if a < 0 {
        -a
    } else {
        a
    }
}

impl Cuboid {
    /// Whether `p` is one of the cuboid's voxels.
    pub open spec fn spec_contains(self, p: Vec3) -> bool {
        &&& self.base.x <= p.x < self.base.x + self.size.x
        &&& self.base.y <= p.y < self.base.y + self.size.y
        &&& self.base.z <= p.z < self.base.z + self.size.z
    }

    /// The voxel of the side facing `d` at position `(u, v)` on that side.
    pub open spec fn spec_side_voxel(self, d: Vec3, u: int, v: int) -> Vec3 {
        let sx = if d.x > 0 {
            self.size.x - 1
        } else {
            0
        };
        let sy = if d.y > 0 {
            self.size.y - 1
        } else {
            0
        };
        let sz = if d.z > 0 {
            self.size.z - 1
        } else {
            0
        };
        let (ux, uy) = if d.x == 0 {
            (u, 0)
        } else {
            (0, u)
        };
        let (vy, vz) = if d.z == 0 {
            (0, v)
        } else {
            (v, 0)
        };
        Vec3 {
            x: (self.base.x + sx + ux) as i64,
            y: (self.base.y + sy + uy + vy) as i64,
            z: (self.base.z + sz + vz) as i64,
        }
    }

    /// Number of rows (`u` values) of the side facing `d`.
    pub open spec fn side_rows(self, d: Vec3) -> int {
        if d.x == 0 {
            self.size.x as int
        } else {
            self.size.y as int
        }
    }

    /// Number of columns (`v` values) of the side facing `d`.
    pub open spec fn side_columns(self, d: Vec3) -> int {
        if d.z == 0 {
            self.size.z as int
        } else {
            self.size.y as int
        }
    }

    /// Row `u` of the side facing `d`.
    pub open spec fn side_row(self, d: Vec3, u: int) -> Seq<Vec3> {
        Seq::new(
            (if self.side_columns(d) < 0 {
                0
            } else {
                self.side_columns(d)
            }) as nat,
            |v: int| self.spec_side_voxel(d, u, v),
        )
    }

    /// The first `n` rows of the side facing `d`, row after row.
    pub open spec fn side_prefix(self, d: Vec3, n: int) -> Seq<Vec3>
        decreases n,
    {
        if n <= 0 {
            seq![]
        } else {
            self.side_prefix(d, n - 1) + self.side_row(d, n - 1)
        }
    }

    /// All voxels of the side facing `d`.
    pub open spec fn spec_side_voxels(self, d: Vec3) -> Seq<Vec3> {
        self.side_prefix(d, self.side_rows(d))
    }

    /// Offset of the side facing `d` from the base along each axis.
    pub open spec fn side_offset(self, d: Vec3) -> Vec3 {
        Vec3 {
            x: if d.x > 0 { (self.size.x - 1) as i64 } else { 0 },
            y: if d.y > 0 { (self.size.y - 1) as i64 } else { 0 },
            z: if d.z > 0 { (self.size.z - 1) as i64 } else { 0 },
        }
    }

    /// Whether the voxels of the side facing `d`, and the sums that compute them, fit in `i64`.
    pub open spec fn side_fits(self, d: Vec3) -> bool {
        let s = self.side_offset(d);
        let last_u = self.side_rows(d) - 1;
        let last_v = self.side_columns(d) - 1;
        &&& d.x > 0 ==> self.size.x > i64::MIN
        &&& d.y > 0 ==> self.size.y > i64::MIN
        &&& d.z > 0 ==> self.size.z > i64::MIN
        &&& self.side_rows(d) >= 1 && self.side_columns(d) >= 1 ==> {
            &&& i64::MIN <= self.base.x + s.x
            &&& self.base.x + s.x + (if d.x == 0 { last_u } else { 0 }) <= i64::MAX
            &&& i64::MIN <= self.base.y + s.y
            &&& self.base.y + s.y + (if d.x == 0 { 0 } else { last_u }) + (if d.z == 0 {
                0
            } else {
                last_v
            }) <= i64::MAX
            &&& i64::MIN <= self.base.z + s.z
            &&& self.base.z + s.z + (if d.z == 0 { last_v } else { 0 }) <= i64::MAX
        }
    }

    pub fn new_empty() -> (res: Cuboid)
        ensures
            res.base == (Vec3 { x: 0, y: 0, z: 0 }),
            res.size == (Vec3 { x: 0, y: 0, z: 0 }),
    {
        Cuboid::new_cube(Vec3 { x: 0, y: 0, z: 0 }, 0)
    }

    pub fn new_unit_cube(base: Vec3) -> (res: Cuboid)
        ensures
            res.base == base,
            res.size == (Vec3 { x: 1, y: 1, z: 1 }),
    {
        Cuboid::new_cube(base, 1)
    }

    pub fn new_cube(base: Vec3, side: i64) -> (res: Cuboid)
        ensures
            res.base == base,
            res.size == (Vec3 { x: side, y: side, z: side }),
    {
        Cuboid::new(base, Vec3 { x: side, y: side, z: side })
    }

    pub fn new(base: Vec3, size: Vec3) -> (res: Cuboid)
        ensures
            res.base == base,
            res.size == size,
    {
        Cuboid { base, size }
    }

    pub fn is_empty(&self) -> (res: bool)
        ensures
            res == (self.size == Vec3 { x: 0, y: 0, z: 0 }),
    {
        self.size.x == 0 && self.size.y == 0 && self.size.z == 0
    }

    pub fn contains(&self, point: Vec3) -> (res: bool)
        requires
            i64::MIN <= point.x - self.base.x <= i64::MAX,
            i64::MIN <= point.y - self.base.y <= i64::MAX,
            i64::MIN <= point.z - self.base.z <= i64::MAX,
        ensures
            res == self.spec_contains(point),
    {
        let dx = point.x - self.base.x;
        let dy = point.y - self.base.y;
        let dz = point.z - self.base.z;
        dx >= 0 && dx < self.size.x && dy >= 0 && dy < self.size.y && dz >= 0 && dz < self.size.z
    }

    /// The voxels of the side that faces `direction`, row by row.
    pub fn side_voxels(&self, direction: Vec3) -> (res: Vec<Vec3>)
        requires
            self.side_fits(direction),
            is_direction(direction),
        ensures
            res@ == self.spec_side_voxels(direction),
    {
        let lu = if direction.x == 0 {
            self.size.x
        } else {
            self.size.y
        };
        let lv = if direction.z == 0 {
            self.size.z
        } else {
            self.size.y
        };
        let sx = if direction.x > 0 {
            self.size.x - 1
        } else {
            0
        };
        let sy = if direction.y > 0 {
            self.size.y - 1
        } else {
            0
        };
        let sz = if direction.z > 0 {
            self.size.z - 1
        } else {
            0
        };
        let mut res: Vec<Vec3> = Vec::new();
        let mut u: i64 = 0;
        while u < lu
            invariant
                self.side_fits(direction),
                is_direction(direction),
                lu == self.side_rows(direction),
                lv == self.side_columns(direction),
                sx == (if direction.x > 0 { self.size.x - 1 } else { 0 }),
                sy == (if direction.y > 0 { self.size.y - 1 } else { 0 }),
                sz == (if direction.z > 0 { self.size.z - 1 } else { 0 }),
                0 <= u,
                u <= lu || (lu < 0 && u == 0),
                res@ == self.side_prefix(direction, u as int),
            decreases lu - u,
        {
            let mut v: i64 = 0;
            let ghost start = res@;
            while v < lv
                invariant
                    self.side_fits(direction),
                    is_direction(direction),
                    lu == self.side_rows(direction),
                    lv == self.side_columns(direction),
                    sx == (if direction.x > 0 { self.size.x - 1 } else { 0 }),
                    sy == (if direction.y > 0 { self.size.y - 1 } else { 0 }),
                    sz == (if direction.z > 0 { self.size.z - 1 } else { 0 }),
                    0 <= u < lu,
                    0 <= v,
                    v <= lv || (lv < 0 && v == 0),
                    start == self.side_prefix(direction, u as int),
                    res@ == start + self.side_row(direction, u as int).take(v as int),
                decreases lv - v,
            {
                let ux = if direction.x == 0 {
                    u
                } else {
                    0
                };
                let uy = if direction.x == 0 {
                    0
                } else {
                    u
                };
                let vy = if direction.z == 0 {
                    0
                } else {
                    v
                };
                let vz = if direction.z == 0 {
                    v
                } else {
                    0
                };
                let p = Vec3 {
                    x: self.base.x + sx + ux,
                    y: self.base.y + sy + uy + vy,
                    z: self.base.z + sz + vz,
                };
                assert(p == self.spec_side_voxel(direction, u as int, v as int));
                res.push(p);
                assert(self.side_row(direction, u as int).take(v + 1) =~= self.side_row(
                    direction,
                    u as int,
                ).take(v as int).push(p));
                v = v + 1;
            }
            let ghost row = self.side_row(direction, u as int);
            assert(v == row.len());
            assert(row.take(v as int) =~= row);
            assert(res@ == start + row);
            assert(self.side_prefix(direction, (u + 1) as int) == self.side_prefix(direction, u as int) + row);
            assert(res@ =~= self.side_prefix(direction, (u + 1) as int));
            u = u + 1;
        }
        assert(u == self.side_rows(direction) || self.side_rows(direction) < 0 && u == 0);
        res
    }

    /// The signed number of steps from `point` to the first voxel beyond the cuboid's side
    /// facing `direction`, along that direction's axis.
    pub open spec fn axis_gap(self, point: Vec3, direction: Vec3) -> int {
        if direction.x != 0 {
            point.x - (if direction.x > 0 {
                self.base.x + self.size.x
            } else {
                self.base.x - 1
            })
        } else if direction.y != 0 {
            point.y - (if direction.y > 0 {
                self.base.y + self.size.y
            } else {
                self.base.y - 1
            })
        } else {
            point.z - (if direction.z > 0 {
                self.base.z + self.size.z
            } else {
                self.base.z - 1
            })
        }
    }

    /// How many steps a voxel at `point` is from leaving the cuboid when moving along
    /// `direction`.
    pub fn distance_from_inside(&self, point: Vec3, direction: Vec3) -> (res: i64)
        requires
            is_direction(direction),
            direction.x + direction.y + direction.z > 0 ==> {
                &&& self.base.x + self.size.x <= i64::MAX
                &&& self.base.y + self.size.y <= i64::MAX
                &&& self.base.z + self.size.z <= i64::MAX
                &&& i64::MIN <= self.base.x + self.size.x
                &&& i64::MIN <= self.base.y + self.size.y
                &&& i64::MIN <= self.base.z + self.size.z
            },
            direction.x + direction.y + direction.z <= 0 ==> {
                &&& self.base.x > i64::MIN
                &&& self.base.y > i64::MIN
                &&& self.base.z > i64::MIN
            },
            -i64::MAX <= self.axis_gap(point, direction) <= i64::MAX,
        ensures
            res == abs(self.axis_gap(point, direction)),
    {
        let positive = direction.x + direction.y + direction.z > 0;
        let edge = if positive {
            Vec3 {
                x: self.base.x + self.size.x,
                y: self.base.y + self.size.y,
                z: self.base.z + self.size.z,
            }
        } else {
            Vec3 { x: self.base.x - 1, y: self.base.y - 1, z: self.base.z - 1 }
        };
        let (point_on_axis, edge_on_axis) = if direction.x != 0 {
            (point.x, edge.x)
        } else if direction.y != 0 {
            (point.y, edge.y)
        } else {
            (point.z, edge.z)
        };
        let diff = point_on_axis - edge_on_axis;
        if diff < 0 {
            -diff
        } else {
            diff
        }
    }

    /// The cuboid grown by one layer of voxels on the side facing `direction`.
    pub fn extend_in_direction(&self, direction: Vec3) -> (res: Cuboid)
        requires
            is_direction(direction),
            direction.x < 0 ==> self.base.x > i64::MIN,
            direction.y < 0 ==> self.base.y > i64::MIN,
            direction.z < 0 ==> self.base.z > i64::MIN,
            self.size.x + abs(direction.x as int) <= i64::MAX,
            self.size.y + abs(direction.y as int) <= i64::MAX,
            self.size.z + abs(direction.z as int) <= i64::MAX,
        ensures
            res.base == vadd(
                self.base,
                Vec3 {
                    x: if direction.x < 0 { -1i64 } else { 0i64 },
                    y: if direction.y < 0 { -1i64 } else { 0i64 },
                    z: if direction.z < 0 { -1i64 } else { 0i64 },
                },
            ),
            res.size == vadd(
                self.size,
                Vec3 { x: abs(direction.x as int) as i64, y: abs(direction.y as int) as i64, z: abs(
                    direction.z as int,
                ) as i64 },
            ),
    {
        let base = Vec3 {
            x: self.base.x + if direction.x < 0 {
                -1
            } else {
                0
            },
            y: self.base.y + if direction.y < 0 {
                -1
            } else {
                0
            },
            z: self.base.z + if direction.z < 0 {
                -1
            } else {
                0
            },
        };
        let size = Vec3 {
            x: self.size.x + if direction.x < 0 {
                -direction.x
            } else {
                direction.x
            },
            y: self.size.y + if direction.y < 0 {
                -direction.y
            } else {
                direction.y
            },
            z: self.size.z + if direction.z < 0 {
                -direction.z
            } else {
                direction.z
            },
        };
        Cuboid { base, size }
    }
}

/// Law: growing a cuboid on the side facing `d` adds exactly the voxels one step beyond that
/// side: a voxel is in the grown cuboid iff it is in the cuboid or one step back along `d` is.
/// Holds when the cuboid is at least one voxel thick along `d`'s axis.
pub proof fn law_extend_adds_one_layer(c: Cuboid, d: Vec3, p: Vec3)
    requires
        is_direction(d),
        d.x < 0 ==> c.base.x > i64::MIN,
        d.y < 0 ==> c.base.y > i64::MIN,
        d.z < 0 ==> c.base.z > i64::MIN,
        c.size.x + abs(d.x as int) <= i64::MAX,
        c.size.y + abs(d.y as int) <= i64::MAX,
        c.size.z + abs(d.z as int) <= i64::MAX,
        i64::MIN <= p.x - d.x <= i64::MAX,
        i64::MIN <= p.y - d.y <= i64::MAX,
        i64::MIN <= p.z - d.z <= i64::MAX,
        d.x != 0 ==> c.size.x >= 1,
        d.y != 0 ==> c.size.y >= 1,
        d.z != 0 ==> c.size.z >= 1,
    ensures
        ({
            let e = Cuboid {
                base: vadd(
                    c.base,
                    Vec3 {
                        x: if d.x < 0 { -1i64 } else { 0i64 },
                        y: if d.y < 0 { -1i64 } else { 0i64 },
                        z: if d.z < 0 { -1i64 } else { 0i64 },
                    },
                ),
                size: vadd(
                    c.size,
                    Vec3 { x: abs(d.x as int) as i64, y: abs(d.y as int) as i64, z: abs(
                        d.z as int,
                    ) as i64 },
                ),
            };
            e.spec_contains(p) <==> c.spec_contains(p) || c.spec_contains(vsub(p, d))
        }),
{
}

/// Law: every voxel of a side lies in the cuboid, and one step further along the side's
/// direction leaves the cuboid.
pub proof fn law_side_voxels_on_boundary(c: Cuboid, d: Vec3, u: int, v: int)
    requires
        c.side_fits(d),
        is_direction(d),
        i64::MIN <= c.spec_side_voxel(d, u, v).x + d.x <= i64::MAX,
        i64::MIN <= c.spec_side_voxel(d, u, v).y + d.y <= i64::MAX,
        i64::MIN <= c.spec_side_voxel(d, u, v).z + d.z <= i64::MAX,
        c.size.x >= 1 && c.size.y >= 1 && c.size.z >= 1,
        0 <= u < c.side_rows(d),
        0 <= v < c.side_columns(d),
    ensures
        c.spec_contains(c.spec_side_voxel(d, u, v)),
        !c.spec_contains(vadd(c.spec_side_voxel(d, u, v), d)),
{
}

/// Whether the voxel at integer coordinates `(x, y, z)` is in the cuboid.
pub open spec fn contains_at(c: Cuboid, x: int, y: int, z: int) -> bool {
    &&& c.base.x <= x < c.base.x + c.size.x
    &&& c.base.y <= y < c.base.y + c.size.y
    &&& c.base.z <= z < c.base.z + c.size.z
}

/// Law: the distance from inside counts the steps along `d` to the first voxel beyond the side
/// facing `d`: toward positive `x` it is the distance to `base.x + size.x`, toward negative `x`
/// to `base.x - 1`, and likewise on the other axes. From a voxel inside the cuboid, that many
/// steps along `d` leave it, and one step fewer stays inside.
pub proof fn law_distance_counts_steps_out(c: Cuboid, p: Vec3, d: Vec3)
    requires
        is_direction(d),
    ensures
        d == (Vec3 { x: 1, y: 0, z: 0 }) ==> abs(c.axis_gap(p, d)) == abs(p.x - (c.base.x + c.size.x)),
        d == (Vec3 { x: -1i64, y: 0, z: 0 }) ==> abs(c.axis_gap(p, d)) == abs(p.x - (c.base.x - 1)),
        d == (Vec3 { x: 0, y: 1, z: 0 }) ==> abs(c.axis_gap(p, d)) == abs(p.y - (c.base.y + c.size.y)),
        d == (Vec3 { x: 0, y: -1i64, z: 0 }) ==> abs(c.axis_gap(p, d)) == abs(p.y - (c.base.y - 1)),
        d == (Vec3 { x: 0, y: 0, z: 1 }) ==> abs(c.axis_gap(p, d)) == abs(p.z - (c.base.z + c.size.z)),
        d == (Vec3 { x: 0, y: 0, z: -1i64 }) ==> abs(c.axis_gap(p, d)) == abs(p.z - (c.base.z - 1)),
        c.spec_contains(p) ==> ({
            let r = abs(c.axis_gap(p, d));
            &&& r >= 1
            &&& contains_at(c, p.x + (r - 1) * d.x, p.y + (r - 1) * d.y, p.z + (r - 1) * d.z)
            &&& !contains_at(c, p.x + r * d.x, p.y + r * d.y, p.z + r * d.z)
        }),
{
    let r = abs(c.axis_gap(p, d));
    if d.x == 1 {
        assert(d.y == 0 && d.z == 0);
        assert((r - 1) * d.x == r - 1 && r * d.x == r && (r - 1) * d.y == 0 && r * d.y == 0 && (r - 1) * d.z == 0 && r * d.z == 0);
    } else if d.x == -1 {
        assert(d.y == 0 && d.z == 0);
        assert((r - 1) * d.x == 1 - r && r * d.x == -r && (r - 1) * d.y == 0 && r * d.y == 0 && (r - 1) * d.z == 0 && r * d.z == 0);
    } else if d.y == 1 {
        assert(d.x == 0 && d.z == 0);
        assert((r - 1) * d.x == 0 && r * d.x == 0 && (r - 1) * d.y == r - 1 && r * d.y == r && (r - 1) * d.z == 0 && r * d.z == 0);
    } else if d.y == -1 {
        assert(d.x == 0 && d.z == 0);
        assert((r - 1) * d.x == 0 && r * d.x == 0 && (r - 1) * d.y == 1 - r && r * d.y == -r && (r - 1) * d.z == 0 && r * d.z == 0);
    } else if d.z == 1 {
        assert(d.x == 0 && d.y == 0);
        assert((r - 1) * d.x == 0 && r * d.x == 0 && (r - 1) * d.y == 0 && r * d.y == 0 && (r - 1) * d.z == r - 1 && r * d.z == r);
    } else {
        assert(d.x == 0 && d.y == 0);
        assert((r - 1) * d.x == 0 && r * d.x == 0 && (r - 1) * d.y == 0 && r * d.y == 0 && (r - 1) * d.z == 1 - r && r * d.z == -r);
    }
}

/// Whether `p` is a voxel of the cuboid's face layer toward `d`: in the cuboid, with the voxel
/// one step further along `d` outside it.
pub open spec fn on_face(c: Cuboid, p: Vec3, d: Vec3) -> bool {
    &&& c.spec_contains(p)
    &&& !{
        &&& c.base.x <= p.x + d.x < c.base.x + c.size.x
        &&& c.base.y <= p.y + d.y < c.base.y + c.size.y
        &&& c.base.z <= p.z + d.z < c.base.z + c.size.z
    }
}

/// Row `i`, column `j` of the side stands at index `i * columns + j` of the first `n` rows.
proof fn lemma_side_prefix(c: Cuboid, d: Vec3, n: int)
    requires
        0 <= n,
        c.side_columns(d) >= 0,
    ensures
        c.side_prefix(d, n).len() == n * c.side_columns(d),
        forall|i: int, j: int|
            0 <= i < n && 0 <= j < c.side_columns(d) ==> c.side_prefix(d, n)[i
                * c.side_columns(d) + j] == #[trigger] c.spec_side_voxel(d, i, j),
    decreases n,
{
    let cols = c.side_columns(d);
    if n > 0 {
        lemma_side_prefix(c, d, n - 1);
        let prev = c.side_prefix(d, n - 1);
        assert((n - 1) * cols + cols == n * cols) by (nonlinear_arith);
        assert forall|i: int, j: int| 0 <= i < n && 0 <= j < cols implies c.side_prefix(d, n)[i
            * cols + j] == #[trigger] c.spec_side_voxel(d, i, j) by {
            if i < n - 1 {
                assert(i * cols + j < (n - 1) * cols) by (nonlinear_arith)
                    requires
                        0 <= i < n - 1,
                        0 <= j < cols,
                ;
                assert(c.side_prefix(d, n)[i * cols + j] == prev[i * cols + j]);
            } else {
                assert(i * cols + j == (n - 1) * cols + j);
            }
        }
    }
}

/// An index below `rows * cols` splits into a row and a column.
proof fn lemma_index_split(k: int, rows: int, cols: int) -> (ij: (int, int))
    requires
        0 <= k < rows * cols,
        cols >= 1,
    ensures
        0 <= ij.0 < rows,
        0 <= ij.1 < cols,
        k == ij.0 * cols + ij.1,
{
    let i = k / cols;
    let j = k % cols;
    vstd::arithmetic::div_mod::lemma_fundamental_div_mod(k, cols);
    vstd::arithmetic::div_mod::lemma_mod_pos_bound(k, cols);
    assert(k == i * cols + j) by (nonlinear_arith)
        requires
            k == cols * i + j,
    ;
    assert(0 <= i < rows) by (nonlinear_arith)
        requires
            k == i * cols + j,
            0 <= j < cols,
            0 <= k < rows * cols,
    ;
    (i, j)
}

/// Law: the side voxels toward `d` of a cuboid at least one voxel thick on every axis are
/// exactly its face layer toward `d`, each listed once, and there are as many as the product of
/// the cuboid's two sizes across `d`.
pub proof fn law_side_voxels_are_the_face(c: Cuboid, d: Vec3)
    requires
        is_direction(d),
        c.side_fits(d),
        c.size.x >= 1 && c.size.y >= 1 && c.size.z >= 1,
    ensures
        c.spec_side_voxels(d).len() == (if d.x != 0 {
            c.size.y * c.size.z
        } else if d.y != 0 {
            c.size.x * c.size.z
        } else {
            c.size.x * c.size.y
        }),
        c.spec_side_voxels(d).no_duplicates(),
        forall|p: Vec3| #[trigger] c.spec_side_voxels(d).contains(p) <==> on_face(c, p, d),
{
    let rows = c.side_rows(d);
    let cols = c.side_columns(d);
    let sv = c.spec_side_voxels(d);
    lemma_side_prefix(c, d, rows);
    assert forall|i: int, j: int| 0 <= i < rows && 0 <= j < cols implies on_face(
        c,
        #[trigger] c.spec_side_voxel(d, i, j),
        d,
    ) by {}
    assert forall|k1: int, k2: int| 0 <= k1 < sv.len() && 0 <= k2 < sv.len() && k1 != k2 implies sv[k1]
        != sv[k2] by {
        let (i1, j1) = lemma_index_split(k1, rows, cols);
        let (i2, j2) = lemma_index_split(k2, rows, cols);
        assert(sv[k1] == c.spec_side_voxel(d, i1, j1));
        assert(sv[k2] == c.spec_side_voxel(d, i2, j2));
        if i1 == i2 && j1 == j2 {
            assert(k1 == k2);
        }
    }
    assert forall|p: Vec3| #[trigger] sv.contains(p) <==> on_face(c, p, d) by {
        if sv.contains(p) {
            let k = choose|k: int| 0 <= k < sv.len() && sv[k] == p;
            let (i, j) = lemma_index_split(k, rows, cols);
            assert(sv[k] == c.spec_side_voxel(d, i, j));
        }
        if on_face(c, p, d) {
            let (u, v) = if d.x != 0 {
                ((p.y - c.base.y) as int, (p.z - c.base.z) as int)
            } else if d.y != 0 {
                ((p.x - c.base.x) as int, (p.z - c.base.z) as int)
            } else {
                ((p.x - c.base.x) as int, (p.y - c.base.y) as int)
            };
            assert(0 <= u < rows && 0 <= v < cols);
            assert(c.spec_side_voxel(d, u, v) == p);
            assert(u * cols + v < rows * cols) by (nonlinear_arith)
                requires
                    0 <= u < rows,
                    0 <= v < cols,
            ;
            assert(0 <= u * cols + v) by (nonlinear_arith)
                requires
                    0 <= u,
                    0 <= v,
                    cols >= 1,
            ;
            assert(sv[u * cols + v] == p);
        }
    }
}

/// The six unit steps along the axes: +x, -x, +y, -y, +z, -z.
pub fn directions() -> (res: [Vec3; 6])
    ensures
        res@ == seq![
            Vec3 { x: 1, y: 0, z: 0 },
            Vec3 { x: -1i64, y: 0, z: 0 },
            Vec3 { x: 0, y: 1, z: 0 },
            Vec3 { x: 0, y: -1i64, z: 0 },
            Vec3 { x: 0, y: 0, z: 1 },
            Vec3 { x: 0, y: 0, z: -1i64 },
        ],
{
    let res = [
        Vec3 { x: 1, y: 0, z: 0 },
        Vec3 { x: -1i64, y: 0, z: 0 },
        Vec3 { x: 0, y: 1, z: 0 },
        Vec3 { x: 0, y: -1i64, z: 0 },
        Vec3 { x: 0, y: 0, z: 1 },
        Vec3 { x: 0, y: 0, z: -1i64 },
    ];
    assert(res@ =~= seq![
        Vec3 { x: 1, y: 0, z: 0 },
        Vec3 { x: -1i64, y: 0, z: 0 },
        Vec3 { x: 0, y: 1, z: 0 },
        Vec3 { x: 0, y: -1i64, z: 0 },
        Vec3 { x: 0, y: 0, z: 1 },
        Vec3 { x: 0, y: 0, z: -1i64 },
    ]);
    res
}

} // verus!
