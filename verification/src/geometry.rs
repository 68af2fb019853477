//! Directions, block positions and the numbers derived from a facing.

use vstd::prelude::*;

verus! {

/// The six directions a dispenser can face.
#[derive(Clone, Copy, Debug, PartialEq, Eq, Structural)]
pub enum Facing {
    North,
    East,
    South,
    West,
    Up,
    Down,
}

/// A vector of whole blocks.
#[derive(Clone, Copy, Debug, PartialEq, Eq, Structural)]
pub struct Vector3 {
    pub x: i32,
    pub y: i32,
    pub z: i32,
}

/// The position of a block. Coordinates wrap around at the ends of `i32`.
#[derive(Clone, Copy, Debug, PartialEq, Eq, Structural)]
pub struct BlockPos {
    pub x: i32,
    pub y: i32,
    pub z: i32,
}

/// The unit vector a facing points along.
pub open spec fn normal_of(facing: Facing) -> Vector3 {
    match facing {
        Facing::North => Vector3 { x: 0, y: 0, z: (-1) as i32 },
        Facing::East => Vector3 { x: 1, y: 0, z: 0 },
        Facing::South => Vector3 { x: 0, y: 0, z: 1 },
        Facing::West => Vector3 { x: (-1) as i32, y: 0, z: 0 },
        Facing::Up => Vector3 { x: 0, y: 1, z: 0 },
        Facing::Down => Vector3 { x: 0, y: (-1) as i32, z: 0 },
    }
}

/// The facing that points the other way.
pub open spec fn opposite_of(facing: Facing) -> Facing {
    match facing {
        Facing::North => Facing::South,
        Facing::East => Facing::West,
        Facing::South => Facing::North,
        Facing::West => Facing::East,
        Facing::Up => Facing::Down,
        Facing::Down => Facing::Up,
    }
}

/// The number by which smoke particles learn their direction.
pub open spec fn data3d_of(facing: Facing) -> i32 {
    match facing {
        Facing::Down => 0,
        Facing::Up => 1,
        Facing::North => 2,
        Facing::South => 3,
        Facing::West => 4,
        Facing::East => 5,
    }
}

/// Sixteenths of a turn, clockwise from south. A vertical facing counts as south.
pub open spec fn rotation16_of(facing: Facing) -> u8 {
    match facing {
        Facing::South | Facing::Up | Facing::Down => 0,
        Facing::West => 4,
        Facing::North => 8,
        Facing::East => 12,
    }
}

/// The block reached from `position` by the vector `by`.
pub open spec fn offset_by(position: BlockPos, by: Vector3) -> BlockPos {
    BlockPos {
        x: i32::wrapping_add(position.x, by.x),
        y: i32::wrapping_add(position.y, by.y),
        z: i32::wrapping_add(position.z, by.z),
    }
}

/// The block above.
pub open spec fn above(position: BlockPos) -> BlockPos {
    offset_by(position, normal_of(Facing::Up))
}

/// The block underneath.
pub open spec fn below(position: BlockPos) -> BlockPos {
    offset_by(position, normal_of(Facing::Down))
}

impl Facing {
    /// The facing that points the other way.
    pub fn opposite(self) -> (other: Facing)
        ensures
            other == opposite_of(self),
    {
        match self {
            Facing::North => Facing::South,
            Facing::East => Facing::West,
            Facing::South => Facing::North,
            Facing::West => Facing::East,
            Facing::Up => Facing::Down,
            Facing::Down => Facing::Up,
        }
    }
}

/// The unit vector a facing points along.
pub fn to_normal(facing: Facing) -> (normal: Vector3)
    ensures
        normal == normal_of(facing),
{
    match facing {
        Facing::North => Vector3 { x: 0, y: 0, z: -1 },
        Facing::East => Vector3 { x: 1, y: 0, z: 0 },
        Facing::South => Vector3 { x: 0, y: 0, z: 1 },
        Facing::West => Vector3 { x: -1, y: 0, z: 0 },
        Facing::Up => Vector3 { x: 0, y: 1, z: 0 },
        Facing::Down => Vector3 { x: 0, y: -1, z: 0 },
    }
}

/// The direction number of the smoke that comes out of the block.
pub fn to_data3d(facing: Facing) -> (data: i32)
    ensures
        data == data3d_of(facing),
{
    match facing {
        Facing::North => 2,
        Facing::East => 5,
        Facing::South => 3,
        Facing::West => 4,
        Facing::Up => 1,
        Facing::Down => 0,
    }
}

/// The rotation of a skull set down in front of the block.
pub fn to_rotation16(facing: Facing) -> (rotation: u8)
    ensures
        rotation == rotation16_of(facing),
{
    match facing {
        Facing::South | Facing::Up | Facing::Down => 0,
        Facing::West => 4,
        Facing::North => 8,
        Facing::East => 12,
    }
}

/// How far below the centre line an item that is thrown out leaves, in thirty-seconds
/// of a block.
pub open spec fn sink_of(facing: Facing) -> u32 {
    if facing == Facing::Up || facing == Facing::Down {
        4
    } else {
        5
    }
}

/// By how many thirty-seconds of a block an item that is thrown out leaves below
/// the centre line: an eighth of a block when the block faces up or down, five
/// thirty-seconds otherwise.
pub fn drop_sink_32nds(facing: Facing) -> (sink: u32)
    ensures
        sink == sink_of(facing),
{
    match facing {
        Facing::Up | Facing::Down => 4,
        _ => 5,
    }
}

impl BlockPos {
    /// The block reached by the vector `by`.
    pub fn offset(self, by: Vector3) -> (moved: BlockPos)
        ensures
            moved == offset_by(self, by),
    {
        BlockPos {
            x: self.x.wrapping_add(by.x),
            y: self.y.wrapping_add(by.y),
            z: self.z.wrapping_add(by.z),
        }
    }

    /// The block above.
    pub fn up(self) -> (moved: BlockPos)
        ensures
            moved == above(self),
    {
        self.offset(to_normal(Facing::Up))
    }

    /// The block underneath.
    pub fn down(self) -> (moved: BlockPos)
        ensures
            moved == below(self),
    {
        self.offset(to_normal(Facing::Down))
    }
}

/// Where an activation takes place.
#[derive(Clone, Copy, Debug, PartialEq, Eq, Structural)]
pub struct DispenseContext {
    pub position: BlockPos,
    pub facing: Facing,
}

/// The block in front of the dispenser.
pub open spec fn target_of(ctx: DispenseContext) -> BlockPos {
    offset_by(ctx.position, normal_of(ctx.facing))
}

impl DispenseContext {
    /// The context of a dispenser at `position` that faces `facing`.
    pub fn new(position: BlockPos, facing: Facing) -> (ctx: DispenseContext)
        ensures
            ctx.position == position,
            ctx.facing == facing,
    {
        DispenseContext { position, facing }
    }

    /// The block in front of the dispenser.
    pub fn target_position(&self) -> (target: BlockPos)
        ensures
            target == target_of(*self),
    {
        self.position.offset(to_normal(self.facing))
    }
}

/// Turning around twice restores the facing, and no facing is its own opposite.
pub proof fn opposite_is_an_involution(facing: Facing)
    ensures
        opposite_of(opposite_of(facing)) == facing,
        opposite_of(facing) != facing,
{
}

/// One step along a facing and one step along its opposite end where they began.
pub proof fn stepping_back_returns(position: BlockPos, facing: Facing)
    ensures
        offset_by(offset_by(position, normal_of(facing)), normal_of(opposite_of(facing)))
            == position,
{
}

/// The block in front of a dispenser is never the dispenser itself, and two
/// different facings have different blocks in front of them.
pub proof fn targets_are_distinct(position: BlockPos, one: Facing, other: Facing)
    ensures
        target_of((DispenseContext { position, facing: one })) != position,
        one != other ==> target_of((DispenseContext { position, facing: one })) != target_of(
            (DispenseContext { position, facing: other }),
        ),
{
}

/// Particles of different facings carry different direction numbers, all below six.
pub proof fn data3d_is_injective(one: Facing, other: Facing)
    ensures
        0 <= data3d_of(one) < 6,
        one != other ==> data3d_of(one) != data3d_of(other),
{
}

/// A skull's rotation is a quarter of a full turn of sixteen steps, and facings
/// that lie opposite on the horizontal plane differ by half a turn.
pub proof fn rotation16_is_a_quarter_turn(facing: Facing)
    ensures
        rotation16_of(facing) < 16,
        rotation16_of(facing) % 4 == 0,
        normal_of(facing).y == 0 ==> (rotation16_of(facing) + 8) % 16 == rotation16_of(
            opposite_of(facing),
        ),
{
}

/// Moving by a vector adds it, coordinate by coordinate. Where a sum leaves the range of
/// coordinates it comes back in at the other end.
pub proof fn moving_adds_up(position: BlockPos, by: Vector3)
    ensures
        ({
            let moved = offset_by(position, by);
            let lap = 0x1_0000_0000int;
            &&& (moved.x - position.x - by.x) % lap == 0
            &&& (moved.y - position.y - by.y) % lap == 0
            &&& (moved.z - position.z - by.z) % lap == 0
            &&& i32::MIN <= position.x + by.x <= i32::MAX ==> moved.x == position.x + by.x
            &&& i32::MIN <= position.y + by.y <= i32::MAX ==> moved.y == position.y + by.y
            &&& i32::MIN <= position.z + by.z <= i32::MAX ==> moved.z == position.z + by.z
        }),
{
}

/// The facings are the six unit steps: up and down along y, east and west along x, south
/// and north along z, the first of each pair towards higher numbers.
pub proof fn facings_are_unit_steps(facing: Facing)
    ensures
        ({
            let step = normal_of(facing);
            &&& step.x * step.x + step.y * step.y + step.z * step.z == 1
            &&& step.y == 1 <==> facing is Up
            &&& step.y == -1 <==> facing is Down
            &&& step.x == 1 <==> facing is East
            &&& step.x == -1 <==> facing is West
            &&& step.z == 1 <==> facing is South
            &&& step.z == -1 <==> facing is North
        }),
{
    let step = normal_of(facing);
    assert(step.x == 0 || step.x == 1 || step.x == -1);
    assert(step.x * step.x + step.y * step.y + step.z * step.z == 1) by (nonlinear_arith)
        requires
            step.x == 0 && step.y == 0 && (step.z == 1 || step.z == -1) || step.x == 0 && step.z
                == 0 && (step.y == 1 || step.y == -1) || step.y == 0 && step.z == 0 && (step.x
                == 1 || step.x == -1),
    ;
}

/// The opposite facing is the opposite step.
pub proof fn opposites_point_the_other_way(facing: Facing)
    ensures
        normal_of(opposite_of(facing)).x == -normal_of(facing).x,
        normal_of(opposite_of(facing)).y == -normal_of(facing).y,
        normal_of(opposite_of(facing)).z == -normal_of(facing).z,
{
}

/// Up and down are one step along y, and coordinates wrap around.
pub proof fn above_and_below_are_one_step_away(position: BlockPos)
    ensures
        above(position).x == position.x && above(position).z == position.z,
        below(position).x == position.x && below(position).z == position.z,
        position.y < i32::MAX ==> above(position).y == position.y + 1,
        position.y == i32::MAX ==> above(position).y == i32::MIN,
        position.y > i32::MIN ==> below(position).y == position.y - 1,
        position.y == i32::MIN ==> below(position).y == i32::MAX,
{
}

/// The number of a direction counts the axes y, z and x, two to each, the step towards
/// lower numbers first.
pub proof fn data3d_counts_the_axes(facing: Facing)
    ensures
        ({
            let step = normal_of(facing);
            let axis = if step.y != 0 {
                0int
            } else if step.z != 0 {
                1int
            } else {
                2int
            };
            let towards_higher = step.x + step.y + step.z == 1;
            data3d_of(facing) == 2 * axis + if towards_higher {
                1int
            } else {
                0int
            }
        }),
{
}

/// A skull looks south at rotation zero, also when the dispenser looks up or down, and
/// each quarter of a turn to the right adds four sixteenths.
pub proof fn rotation16_turns_to_the_right(facing: Facing, next: Facing)
    ensures
        rotation16_of(Facing::South) == 0,
        normal_of(facing).y != 0 ==> rotation16_of(facing) == 0,
        normal_of(facing).y == 0 && normal_of(next).y == 0 && normal_of(next).x
            == -normal_of(facing).z && normal_of(next).z == normal_of(facing).x
            ==> rotation16_of(next) == (rotation16_of(facing) + 4) % 16,
{
}

/// What is thrown out starts an eighth of a block below the centre line if it leaves
/// upwards or downwards, and a thirty-second lower otherwise.
pub proof fn thrown_items_sink(facing: Facing)
    ensures
        normal_of(facing).y != 0 ==> 8 * sink_of(facing) == 32,
        normal_of(facing).y == 0 ==> 8 * (sink_of(facing) - 1) == 32,
{
}

} // verus!
