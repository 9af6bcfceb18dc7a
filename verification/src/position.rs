//! Positions of blocks.

use vstd::prelude::*;

use crate::nbt::{ints_at, NbtCompound, NbtTag, NbtValue};

verus! {

#[derive(Clone, Copy, PartialEq, Eq, Structural, Debug)]
pub struct BlockPos {
    pub x: i32,
    pub y: i32,
    pub z: i32,
}

/// The size of a number without its sign.
pub open spec fn abs(n: int) -> int {
    if n < 0 {
        -n
    } else {
        n
    }
}

/// How many steps along the axes an offset takes.
pub open spec fn steps(x: int, y: int, z: int) -> int {
    abs(x) + abs(y) + abs(z)
}

/// Whether an offset stays within a distance along each axis.
pub open spec fn within(x: int, y: int, z: int, distance: int) -> bool {
    abs(x) <= distance && abs(y) <= distance && abs(z) <= distance
}

/// Whether every offset within a distance leads to a position.
pub open spec fn has_room(origin: BlockPos, distance: int) -> bool {
    &&& i32::MIN + distance <= origin.x <= i32::MAX - distance
    &&& i32::MIN + distance <= origin.y <= i32::MAX - distance
    &&& i32::MIN + distance <= origin.z <= i32::MAX - distance
}

/// A point in space, by the bits of its coordinates.
#[derive(Clone, Copy, PartialEq, Eq, Structural, Debug)]
pub struct Point {
    pub x: u64,
    pub y: u64,
    pub z: u64,
}

impl BlockPos {
    pub fn new(x: i32, y: i32, z: i32) -> (pos: Self)
        ensures
            pos == (BlockPos { x, y, z }),
    {
        BlockPos { x, y, z }
    }

    /// The position at an offset.
    pub open spec fn at(self, x: int, y: int, z: int) -> BlockPos {
        BlockPos { x: (self.x + x) as i32, y: (self.y + y) as i32, z: (self.z + z) as i32 }
    }

    /// The square of the distance to another position.
    pub open spec fn distance_squared(self, other: BlockPos) -> int {
        (other.x - self.x) * (other.x - self.x) + (other.y - self.y) * (other.y - self.y) + (other.z
            - self.z) * (other.z - self.z)
    }
}

/// How a position is saved: its coordinates in an array.
pub open spec fn pos_value(pos: BlockPos) -> NbtValue {
    NbtValue::IntArray(seq![pos.x, pos.y, pos.z])
}

/// The position under a name: an array of just three coordinates.
pub open spec fn pos_at(nbt: Map<Seq<char>, NbtValue>, name: Seq<char>) -> Option<BlockPos> {
    match ints_at(nbt, name) {
        Some(ints) if ints.len() == 3 => Some(BlockPos { x: ints[0], y: ints[1], z: ints[2] }),
        _ => None,
    }
}

/// The coordinates of a position in an array.
pub fn block_pos_to_nbt(pos: BlockPos) -> (tag: NbtTag)
    ensures
        tag@ == pos_value(pos),
{
    let ints: Vec<i32> = vec![pos.x, pos.y, pos.z];
    assert(ints@ =~= seq![pos.x, pos.y, pos.z]);
    NbtTag::IntArray(ints)
}

/// The position under a name.
pub fn block_pos_from_nbt(nbt: &NbtCompound, name: &str) -> (pos: Option<BlockPos>)
    ensures
        pos == pos_at(nbt@, name@),
{
    match nbt.get_int_array(name) {
        Some(ints) => {
            if ints.len() == 3 {
                Some(BlockPos::new(ints[0], ints[1], ints[2]))
            } else {
                None
            }
        },
        None => None,
    }
}

/// A saved position is read back as it was.
pub proof fn law_position_round_trip(
    nbt: Map<Seq<char>, NbtValue>,
    name: Seq<char>,
    pos: BlockPos,
)
    ensures
        pos_at(nbt.insert(name, pos_value(pos)), name) == Some(pos),
{
}

/// Moving on by some steps and back by as many leads to where one was.
pub proof fn law_moves_can_be_undone(pos: BlockPos, x: int, y: int, z: int, distance: int)
    requires
        has_room(pos, distance),
        within(x, y, z, distance),
    ensures
        pos.at(x, y, z).at(-x, -y, -z) == pos,
        pos.at(x, y, z).x - pos.x == x,
        pos.at(x, y, z).y - pos.y == y,
        pos.at(x, y, z).z - pos.z == z,
{
}

/// The distance between two places is the same both ways, and nothing only from a place to itself.
pub proof fn law_distances(a: BlockPos, b: BlockPos)
    ensures
        a.distance_squared(b) == b.distance_squared(a),
        a.distance_squared(b) >= 0,
        a.distance_squared(b) == 0 <==> a == b,
{
    let x = b.x - a.x;
    let y = b.y - a.y;
    let z = b.z - a.z;
    assert(x * x == (-x) * (-x) && y * y == (-y) * (-y) && z * z == (-z) * (-z)) by (nonlinear_arith);
    assert(x * x >= 0 && y * y >= 0 && z * z >= 0) by (nonlinear_arith);
    assert(x * x == 0 <==> x == 0) by (nonlinear_arith);
    assert(y * y == 0 <==> y == 0) by (nonlinear_arith);
    assert(z * z == 0 <==> z == 0) by (nonlinear_arith);
}

/// Steps add up over the three directions, whichever way they go.
pub proof fn law_steps_add_up(x: int, y: int, z: int)
    requires
        x >= 0 && y >= 0 && z >= 0,
    ensures
        steps(x, y, z) == x + y + z,
        steps(-x, y, z) == steps(x, y, z),
        steps(x, -y, z) == steps(x, y, z),
        steps(x, y, -z) == steps(x, y, z),
{
}

/// Only lists of three numbers are places.
pub proof fn law_places_are_three_numbers(nbt: Map<Seq<char>, NbtValue>, name: Seq<char>)
    ensures
        pos_at(nbt, name) is Some <==> ints_at(nbt, name) is Some && ints_at(nbt, name)->0.len() == 3,
        pos_at(nbt, name) is Some ==> pos_at(nbt, name)->0.x == ints_at(nbt, name)->0[0] && pos_at(
            nbt,
            name,
        )->0.y == ints_at(nbt, name)->0[1] && pos_at(nbt, name)->0.z == ints_at(nbt, name)->0[2],
{
}

} // verus!
