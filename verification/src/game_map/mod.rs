//! The voxel terrain, read through point queries.
//!
//! A [`GameMap`] is a box of voxels. Each voxel names one of the map's voxel
//! types, which says what surface the voxel offers and which of its six
//! sides are empty. Outside the box there is no voxel.

use crate::geometry::vec3d::Vec3;
use crate::vehicle::locomotion::SurfaceType;
use vstd::prelude::*;

pub mod raycaster;

verus! {

/// The mask of a voxel whose six sides are all empty.
pub const ALL_SIDES_EMPTY: u8 = 0b0011_1111;

/// The position of a voxel: whole coordinates.
#[derive(Clone, Copy, Debug, PartialEq, Eq, Structural)]
pub struct WorldVoxelPos {
    pub x: i32,
    pub y: i32,
    pub z: i32,
}

/// The voxel that holds the point `p`: each coordinate rounded down.
#[verifier::allow_in_spec]
pub fn get_voxel_pos(p: Vec3) -> WorldVoxelPos
    returns
        (WorldVoxelPos { x: p.x.floor(), y: p.y.floor(), z: p.z.floor() }),
{
    WorldVoxelPos { x: p.x.floor(), y: p.y.floor(), z: p.z.floor() }
}

/// What the voxels of one type have in common.
#[derive(Clone, Copy, Debug, PartialEq, Eq, Structural)]
pub struct VoxelType {
    /// The surface that such a voxel offers, if any.
    pub surface_type: Option<SurfaceType>,
    /// One bit for each empty side, in the low six bits.
    pub empty_sides: u8,
}

impl VoxelType {
    /// The mask of the empty sides.
    #[verifier::allow_in_spec]
    pub fn sides_empty(&self) -> u8
        returns
            self.empty_sides,
    {
        self.empty_sides
    }

    /// Whether all six sides are empty.
    #[verifier::allow_in_spec]
    pub fn is_completely_empty(&self) -> bool
        returns
            self.empty_sides == ALL_SIDES_EMPTY,
    {
        self.empty_sides == ALL_SIDES_EMPTY
    }
}

/// One voxel: the index of its type among the map's voxel types.
#[derive(Clone, Copy, Debug, PartialEq, Eq, Structural)]
pub struct Voxel {
    pub voxel_type: u16,
}

/// A box of voxels and the types they name.
pub struct GameMap {
    origin: WorldVoxelPos,
    size_x: usize,
    size_y: usize,
    size_z: usize,
    voxels: Vec<Voxel>,
    voxel_types: Vec<VoxelType>,
}

impl GameMap {
    #[verifier::type_invariant]
    spec fn well_formed(self) -> bool {
        self.size_x * self.size_y * self.size_z == self.voxels.len()
    }

    /// Whether `pos` lies in the box.
    spec fn holds(&self, pos: WorldVoxelPos) -> bool {
        &&& self.origin.x <= pos.x < self.origin.x + self.size_x
        &&& self.origin.y <= pos.y < self.origin.y + self.size_y
        &&& self.origin.z <= pos.z < self.origin.z + self.size_z
    }

    /// Where the voxel at `pos` stands among the voxels.
    spec fn index_of(&self, pos: WorldVoxelPos) -> int {
        ((pos.z - self.origin.z) * self.size_y + (pos.y - self.origin.y)) * self.size_x + (pos.x
            - self.origin.x)
    }

    /// The voxel at `pos`, where the map has one.
    pub closed spec fn voxel_at(&self, pos: WorldVoxelPos) -> Option<Voxel> {
        if self.holds(pos) {
            Some(self.voxels[self.index_of(pos)])
        } else {
            None
        }
    }

    /// The voxel types of the map.
    pub closed spec fn types(&self) -> Seq<VoxelType> {
        self.voxel_types@
    }

    /// The type of the voxel at `pos`, where the map has one and it names
    /// one of the map's types.
    pub open spec fn type_at(&self, pos: WorldVoxelPos) -> Option<VoxelType> {
        match self.voxel_at(pos) {
            Some(voxel) => if voxel.voxel_type < self.types().len() {
                Some(self.types()[voxel.voxel_type as int])
            } else {
                None
            },
            None => None,
        }
    }

    /// Whether the map has a voxel at `pos` that is not empty on all sides.
    pub open spec fn solid_at(&self, pos: WorldVoxelPos) -> bool {
        match self.type_at(pos) {
            Some(voxel_type) => !voxel_type.is_completely_empty(),
            None => false,
        }
    }

    /// The corner of the box with the least coordinates.
    pub closed spec fn lower_corner(&self) -> WorldVoxelPos {
        self.origin
    }

    /// The number of voxels along each axis.
    pub closed spec fn extent(&self) -> (nat, nat, nat) {
        (self.size_x as nat, self.size_y as nat, self.size_z as nat)
    }

    /// The position `pos` lies in a box with the given corner and extent.
    pub open spec fn in_box(
        origin: WorldVoxelPos,
        extent: (nat, nat, nat),
        pos: WorldVoxelPos,
    ) -> bool {
        &&& origin.x <= pos.x < origin.x + extent.0
        &&& origin.y <= pos.y < origin.y + extent.1
        &&& origin.z <= pos.z < origin.z + extent.2
    }

    /// The map has a voxel exactly at the positions of its box.
    pub proof fn lemma_voxels_fill_the_box(&self, pos: WorldVoxelPos)
        ensures
            self.voxel_at(pos).is_some() == Self::in_box(self.lower_corner(), self.extent(), pos),
    {
    }

    /// The index of a voxel of the box lies among the voxels.
    proof fn lemma_index_in_range(&self, pos: WorldVoxelPos)
        requires
            self.holds(pos),
            self.size_x * self.size_y * self.size_z == self.voxels.len(),
        ensures
            0 <= self.index_of(pos) < self.voxels.len(),
    {
        let dx = pos.x - self.origin.x;
        let dy = pos.y - self.origin.y;
        let dz = pos.z - self.origin.z;
        let sx = self.size_x as int;
        let sy = self.size_y as int;
        let sz = self.size_z as int;
        assert(0 <= (dz * sy + dy) * sx + dx < sx * sy * sz) by (nonlinear_arith)
            requires
                0 <= dx < sx,
                0 <= dy < sy,
                0 <= dz < sz,
        ;
    }

    /// A map of `size_x` by `size_y` by `size_z` voxels, all equal to `fill`,
    /// whose least corner is `origin`. There is none where the box would
    /// hold more than `u32::MAX` voxels.
    pub fn new(
        origin: WorldVoxelPos,
        size_x: usize,
        size_y: usize,
        size_z: usize,
        voxel_types: Vec<VoxelType>,
        fill: Voxel,
    ) -> (r: Option<GameMap>)
        ensures
            r.is_some() <==> size_x * size_y * size_z <= u32::MAX,
            r matches Some(map) ==> {
                &&& map.lower_corner() == origin
                &&& map.extent() == (size_x as nat, size_y as nat, size_z as nat)
                &&& map.types() == voxel_types@
                &&& forall|pos: WorldVoxelPos|
                    map.voxel_at(pos) == if Self::in_box(origin, map.extent(), pos) {
                        Some(fill)
                    } else {
                        None
                    }
            },
    {
        if size_x == 0 || size_y == 0 || size_z == 0 {
            proof {
                assert(size_x * size_y * size_z == 0) by (nonlinear_arith)
                    requires
                        size_x == 0 || size_y == 0 || size_z == 0,
                ;
            }
            return Some(
                GameMap { origin, size_x, size_y, size_z, voxels: Vec::new(), voxel_types },
            );
        }
        let limit: u64 = 0xffff_ffff;
        if size_x as u64 > limit || size_y as u64 > limit || size_z as u64 > limit {
            proof {
                Self::lemma_large_side(size_x as int, size_y as int, size_z as int);
            }
            return None;
        }
        proof {
            assert(0 <= size_x * size_y <= 0xffff_ffff * 0xffff_ffff) by (nonlinear_arith)
                requires
                    0 <= size_x <= 0xffff_ffff,
                    0 <= size_y <= 0xffff_ffff,
            ;
        }
        let xy: u64 = size_x as u64 * size_y as u64;
        proof {
            assert(0 <= xy * size_z <= 0xffff_ffff * 0xffff_ffff * 0xffff_ffff) by (nonlinear_arith)
                requires
                    0 <= xy <= 0xffff_ffff * 0xffff_ffff,
                    0 <= size_z <= 0xffff_ffff,
            ;
        }
        let total: u128 = xy as u128 * size_z as u128;
        if total > limit as u128 {
            return None;
        }
        let count: usize = total as usize;
        let mut voxels: Vec<Voxel> = Vec::new();
        while voxels.len() < count
            invariant
                voxels.len() <= count,
                forall|i: int| 0 <= i < voxels.len() ==> voxels[i] == fill,
            decreases count - voxels.len(),
        {
            voxels.push(fill);
        }
        let map = GameMap { origin, size_x, size_y, size_z, voxels, voxel_types };
        proof {
            assert forall|pos: WorldVoxelPos|
                map.voxel_at(pos) == if Self::in_box(origin, map.extent(), pos) {
                    Some(fill)
                } else {
                    None
                } by {
                if map.holds(pos) {
                    map.lemma_index_in_range(pos);
                }
            }
        }
        Some(map)
    }

    /// A box with a side longer than `u32::MAX` and no empty side holds more
    /// than `u32::MAX` voxels.
    proof fn lemma_large_side(x: int, y: int, z: int)
        requires
            x >= 1,
            y >= 1,
            z >= 1,
            x > u32::MAX || y > u32::MAX || z > u32::MAX,
        ensures
            x * y * z > u32::MAX,
    {
        assert(x * y * z >= x && x * y * z >= y && x * y * z >= z) by (nonlinear_arith)
            requires
                x >= 1,
                y >= 1,
                z >= 1,
        ;
    }

    /// Puts `voxel` at `pos`. Nothing changes, and the answer is `false`,
    /// where the map has no voxel at `pos`.
    pub fn set_voxel(&mut self, pos: WorldVoxelPos, voxel: Voxel) -> (r: bool)
        ensures
            r == old(self).voxel_at(pos).is_some(),
            final(self).lower_corner() == old(self).lower_corner(),
            final(self).extent() == old(self).extent(),
            final(self).types() == old(self).types(),
            forall|other: WorldVoxelPos|
                final(self).voxel_at(other) == if r && other == pos {
                    Some(voxel)
                } else {
                    old(self).voxel_at(other)
                },
    {
        proof {
            use_type_invariant(&*self);
        }
        match self.slot(pos) {
            Some(index) => {
                self.voxels[index] = voxel;
                proof {
                    assert forall|other: WorldVoxelPos|
                        final(self).voxel_at(other) == if other == pos {
                            Some(voxel)
                        } else {
                            old(self).voxel_at(other)
                        } by {
                        if old(self).holds(other) {
                            old(self).lemma_index_in_range(other);
                            old(self).lemma_index_distinct(pos, other);
                        }
                    }
                }
                true
            },
            None => false,
        }
    }

    /// Two voxels of the box with one index are the same voxel.
    proof fn lemma_index_distinct(&self, a: WorldVoxelPos, b: WorldVoxelPos)
        requires
            self.holds(a),
            self.holds(b),
        ensures
            self.index_of(a) == self.index_of(b) ==> a == b,
    {
        let sx = self.size_x as int;
        let sy = self.size_y as int;
        let ax = a.x - self.origin.x;
        let ay = a.y - self.origin.y;
        let az = a.z - self.origin.z;
        let bx = b.x - self.origin.x;
        let by = b.y - self.origin.y;
        let bz = b.z - self.origin.z;
        let ra = az * sy + ay;
        let rb = bz * sy + by;
        if ra * sx + ax == rb * sx + bx {
            assert(ra == rb && ax == bx) by (nonlinear_arith)
                requires
                    ra * sx + ax == rb * sx + bx,
                    0 <= ax < sx,
                    0 <= bx < sx,
            ;
            assert(az == bz && ay == by) by (nonlinear_arith)
                requires
                    az * sy + ay == bz * sy + by,
                    0 <= ay < sy,
                    0 <= by < sy,
            ;
        }
    }

    /// Where the voxel at `pos` stands among the voxels, if the map has one.
    fn slot(&self, pos: WorldVoxelPos) -> (r: Option<usize>)
        ensures
            r.is_some() == self.holds(pos),
            r matches Some(index) ==> index == self.index_of(pos) && index < self.voxels.len(),
    {
        proof {
            use_type_invariant(self);
        }
        let dx: i64 = pos.x as i64 - self.origin.x as i64;
        let dy: i64 = pos.y as i64 - self.origin.y as i64;
        let dz: i64 = pos.z as i64 - self.origin.z as i64;
        if dx < 0 || dy < 0 || dz < 0 {
            return None;
        }
        if dx as u64 >= self.size_x as u64 || dy as u64 >= self.size_y as u64 || dz as u64
            >= self.size_z as u64 {
            return None;
        }
        proof {
            self.lemma_index_in_range(pos);
            let sx = self.size_x as int;
            let sy = self.size_y as int;
            assert(0 <= dz * sy + dy && (dz * sy + dy) * sx + dx >= dz * sy + dy && dz * sy >= 0
                && (dz * sy + dy) * sx >= 0) by (nonlinear_arith)
                requires
                    0 <= dx < sx,
                    0 <= dy < sy,
                    0 <= dz,
            ;
        }
        let row: usize = dz as usize * self.size_y + dy as usize;
        Some(row * self.size_x + dx as usize)
    }

    /// The voxel types of the map.
    pub fn get_voxel_types(&self) -> (r: &Vec<VoxelType>)
        ensures
            r@ == self.types(),
    {
        &self.voxel_types
    }

    /// The voxel at `pos`, where the map has one.
    pub fn get_voxel_at(&self, pos: WorldVoxelPos) -> (r: Option<Voxel>)
        ensures
            r == self.voxel_at(pos),
    {
        match self.slot(pos) {
            Some(index) => Some(self.voxels[index]),
            None => None,
        }
    }

    /// The type of the voxel at `pos`, where the map has one and it names
    /// one of the map's types.
    pub fn get_type_of_voxel_at(&self, pos: WorldVoxelPos) -> (r: Option<VoxelType>)
        ensures
            r == self.type_at(pos),
    {
        match self.get_voxel_at(pos) {
            Some(voxel) => if (voxel.voxel_type as usize) < self.voxel_types.len() {
                Some(self.voxel_types[voxel.voxel_type as usize])
            } else {
                None
            },
            None => None,
        }
    }

    /// Whether the map has a voxel at `pos` that is not empty on all sides.
    pub fn is_voxel_solid(&self, pos: WorldVoxelPos) -> (r: bool)
        ensures
            r == self.solid_at(pos),
    {
        match self.get_type_of_voxel_at(pos) {
            Some(voxel_type) => !voxel_type.is_completely_empty(),
            None => false,
        }
    }
}

} // verus!
