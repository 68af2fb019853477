//! Boats, minecarts and armor stands.

use crate::dispenser::DispenserBlock;
use crate::geometry;
use crate::geometry::{BlockPos, DispenseContext, Facing};
use crate::item;
use crate::item::ItemStack;
use crate::protocol::{Cell, Effect, Rail, Sound, SoundCategory, Spot};
use crate::registry;
use crate::registry::FluidIds;
use crate::turn;
use crate::turn::{DispenseOutcome, Phase, Turn};
use vstd::prelude::*;

verus! {

/// Nothing is in the way.
pub open spec fn is_room(space_empty: bool, obstacles: usize) -> bool {
    space_empty && obstacles == 0
}

/// A boat goes into water in front; over air, the block underneath is looked at.
pub open spec fn boat_at_front(
    fluids: FluidIds,
    ctx: DispenseContext,
    stack: ItemStack,
    entity_type: u16,
    front: Cell,
) -> turn::TurnView {
    if registry::is_water_id(fluids, front.fluid) {
        turn::asks(
            stack,
            Phase::BoatRoom { entity_type, position: geometry::target_of(ctx) },
        )
    } else if front.air {
        turn::asks(stack, Phase::BoatBelow { entity_type })
    } else {
        turn::gives_up(stack, DispenseOutcome::Drop)
    }
}

/// Over air, a boat goes onto water underneath.
pub open spec fn boat_at_below(
    fluids: FluidIds,
    ctx: DispenseContext,
    stack: ItemStack,
    entity_type: u16,
    under: Cell,
) -> turn::TurnView {
    if registry::is_water_id(fluids, under.fluid) {
        turn::asks(
            stack,
            Phase::BoatRoom { entity_type, position: geometry::below(geometry::target_of(ctx)) },
        )
    } else {
        turn::gives_up(stack, DispenseOutcome::Drop)
    }
}

/// A boat is set afloat where there is room for it.
pub open spec fn boat_with_room(
    stack: ItemStack,
    entity_type: u16,
    position: BlockPos,
    room: bool,
) -> turn::TurnView {
    if room {
        turn::succeeds(
            item::one_less(stack),
            seq![Effect::SpawnBoat { entity_type, position }],
        )
    } else {
        turn::gives_up(stack, DispenseOutcome::Drop)
    }
}

/// Whether a rail ascends, if the block is a rail.
pub open spec fn ascends(cell: Cell) -> Option<bool> {
    match cell.rail {
        Some(Rail::Powered { ascending }) => Some(ascending),
        Some(Rail::Plain { ascending }) => Some(ascending),
        None => None,
    }
}

/// A minecart is put on the rail.
pub open spec fn minecart_on(
    stack: ItemStack,
    entity_type: u16,
    height_tenths: i32,
) -> turn::TurnView {
    turn::succeeds(
        item::one_less(stack),
        seq![Effect::SpawnMinecart { entity_type, height_tenths }],
    )
}

/// A minecart goes onto a rail in front; over air, the block underneath is looked at.
pub open spec fn minecart_at_front(
    stack: ItemStack,
    entity_type: u16,
    front: Cell,
) -> turn::TurnView {
    match ascends(front) {
        Some(ascending) => minecart_on(
            stack,
            entity_type,
            if ascending {
                6
            } else {
                1
            },
        ),
        None => if front.air {
            turn::asks(stack, Phase::MinecartBelow { entity_type })
        } else {
            turn::gives_up(stack, DispenseOutcome::Drop)
        },
    }
}

/// Over air, a minecart goes onto a rail underneath. An ascending rail lifts it,
/// except when the dispenser faces down.
pub open spec fn minecart_at_below(
    ctx: DispenseContext,
    stack: ItemStack,
    entity_type: u16,
    under: Cell,
) -> turn::TurnView {
    match ascends(under) {
        Some(ascending) => minecart_on(
            stack,
            entity_type,
            if ascending && ctx.facing != Facing::Down {
                (-4) as i32
            } else {
                (-9) as i32
            },
        ),
        None => turn::gives_up(stack, DispenseOutcome::Drop),
    }
}

/// An armor stand is set up where there is room for it.
pub open spec fn stand_with_room(
    ctx: DispenseContext,
    stack: ItemStack,
    room: bool,
) -> turn::TurnView {
    let target = geometry::target_of(ctx);
    if room {
        turn::succeeds(
            item::one_less(stack),
            seq![
                Effect::PlaySound {
                    sound: Sound::EntityArmorStandPlace,
                    category: SoundCategory::Blocks,
                    spot: Spot::Floor(target),
                },
                Effect::SpawnArmorStand { position: target },
            ],
        )
    } else {
        turn::gives_up(stack, DispenseOutcome::Drop)
    }
}

/// Whether a rail ascends, if the block is a rail.
pub fn rail_is_ascending(cell: &Cell) -> (ascending: Option<bool>)
    ensures
        ascending == ascends(*cell),
{
    match cell.rail {
        Some(Rail::Powered { ascending }) => Some(ascending),
        Some(Rail::Plain { ascending }) => Some(ascending),
        None => None,
    }
}

impl DispenserBlock {
    /// Tells whether an entity fits in: no block and no other entity is in the way.
    pub fn has_room_for(space_empty: bool, obstacles: usize) -> (room: bool)
        ensures
            room == is_room(space_empty, obstacles),
    {
        space_empty && obstacles == 0
    }

    /// Looks for water for a boat in the block in front.
    pub fn dispense_boat(
        fluids: &FluidIds,
        ctx: &DispenseContext,
        stack: ItemStack,
        entity_type: u16,
        front: &Cell,
    ) -> (turn: Turn)
        ensures
            turn@ == boat_at_front(*fluids, *ctx, stack, entity_type, *front),
    {
        if registry::is_water(fluids, front.fluid) {
            Turn::asks(
                stack,
                Phase::BoatRoom { entity_type, position: ctx.target_position() },
            )
        } else if front.air {
            Turn::asks(stack, Phase::BoatBelow { entity_type })
        } else {
            Turn::gives_up(stack, DispenseOutcome::Drop)
        }
    }

    /// Looks for water for a boat under the block in front.
    pub fn dispense_boat_below(
        fluids: &FluidIds,
        ctx: &DispenseContext,
        stack: ItemStack,
        entity_type: u16,
        under: &Cell,
    ) -> (turn: Turn)
        ensures
            turn@ == boat_at_below(*fluids, *ctx, stack, entity_type, *under),
    {
        if registry::is_water(fluids, under.fluid) {
            Turn::asks(
                stack,
                Phase::BoatRoom { entity_type, position: ctx.target_position().down() },
            )
        } else {
            Turn::gives_up(stack, DispenseOutcome::Drop)
        }
    }

    /// Sets a boat afloat if it fits in.
    pub fn launch_boat(
        stack: ItemStack,
        entity_type: u16,
        position: BlockPos,
        space_empty: bool,
        obstacles: usize,
    ) -> (turn: Turn)
        ensures
            turn@ == boat_with_room(stack, entity_type, position, is_room(space_empty, obstacles)),
    {
        if !Self::has_room_for(space_empty, obstacles) {
            return Turn::gives_up(stack, DispenseOutcome::Drop);
        }
        let mut rest = stack;
        rest.split(1);
        Turn::succeeds(rest, vec![Effect::SpawnBoat { entity_type, position }])
    }

    /// Puts a minecart on a rail in the block in front.
    pub fn dispense_minecart(stack: ItemStack, entity_type: u16, front: &Cell) -> (turn: Turn)
        ensures
            turn@ == minecart_at_front(stack, entity_type, *front),
    {
        match rail_is_ascending(front) {
            Some(ascending) => {
                let height_tenths: i32 = if ascending {
                    6
                } else {
                    1
                };
                Self::place_minecart(stack, entity_type, height_tenths)
            },
            None => if front.air {
                Turn::asks(stack, Phase::MinecartBelow { entity_type })
            } else {
                Turn::gives_up(stack, DispenseOutcome::Drop)
            },
        }
    }

    /// Puts a minecart on a rail under the block in front.
    pub fn dispense_minecart_below(
        ctx: &DispenseContext,
        stack: ItemStack,
        entity_type: u16,
        under: &Cell,
    ) -> (turn: Turn)
        ensures
            turn@ == minecart_at_below(*ctx, stack, entity_type, *under),
    {
        match rail_is_ascending(under) {
            Some(ascending) => {
                let height_tenths: i32 = if ascending && ctx.facing != Facing::Down {
                    -4
                } else {
                    -9
                };
                Self::place_minecart(stack, entity_type, height_tenths)
            },
            None => Turn::gives_up(stack, DispenseOutcome::Drop),
        }
    }

    fn place_minecart(stack: ItemStack, entity_type: u16, height_tenths: i32) -> (turn: Turn)
        ensures
            turn@ == minecart_on(stack, entity_type, height_tenths),
    {
        let mut rest = stack;
        rest.split(1);
        Turn::succeeds(rest, vec![Effect::SpawnMinecart { entity_type, height_tenths }])
    }

    /// Sets up an armor stand if it fits in.
    pub fn dispense_armor_stand(
        ctx: &DispenseContext,
        stack: ItemStack,
        space_empty: bool,
        obstacles: usize,
    ) -> (turn: Turn)
        ensures
            turn@ == stand_with_room(*ctx, stack, is_room(space_empty, obstacles)),
    {
        let target = ctx.target_position();
        if !Self::has_room_for(space_empty, obstacles) {
            return Turn::gives_up(stack, DispenseOutcome::Drop);
        }
        let mut rest = stack;
        rest.split(1);
        Turn::succeeds(
            rest,
            vec![
                Effect::PlaySound {
                    sound: Sound::EntityArmorStandPlace,
                    category: SoundCategory::Blocks,
                    spot: Spot::Floor(target),
                },
                Effect::SpawnArmorStand { position: target },
            ],
        )
    }
}

} // verus!
