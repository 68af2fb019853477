//! Buckets and bottles.

use crate::dispenser::DispenserBlock;
use crate::geometry;
use crate::geometry::DispenseContext;
use crate::inventory;
use crate::item;
use crate::item::ItemStack;
use crate::protocol::{Cell, Effect, NewState, Notify, Sound, SoundCategory, Spot};
use crate::registry;
use crate::registry::Registry;
use crate::turn;
use crate::turn::{DispenseOutcome, Phase, Turn};
use vstd::prelude::*;

verus! {

/// The honey level at which a beehive can be harvested.
pub const FULL_HONEY_LEVEL: u8 = 5;

/// The block is a beehive with honey to harvest.
pub open spec fn is_full_hive(cell: Cell) -> bool {
    cell.honey_level is Some && cell.honey_level->0 >= FULL_HONEY_LEVEL
}

/// The beehive loses its honey.
pub open spec fn emptied_hive(position: geometry::BlockPos, hive: Cell) -> Effect {
    Effect::SetBlockState {
        position,
        state: NewState::HoneyLevel { block: hive.block, state: hive.state, level: 0 },
        notify: Notify::All,
    }
}

/// An empty bucket that took something up is exchanged for the filled one.
pub open spec fn scooping(
    air: u16,
    slot: int,
    stack: ItemStack,
    filled: Option<u16>,
) -> turn::TurnView {
    match filled {
        Some(bucket) => inventory::exchanging(
            air,
            slot,
            stack,
            seq![],
            item::plain_stack(1, bucket),
        ),
        None => turn::gives_up(stack, DispenseOutcome::Drop),
    }
}

/// A bucket whose contents boil away is left empty; otherwise it is to be emptied.
pub open spec fn boiling(
    bucket: u16,
    ctx: DispenseContext,
    stack: ItemStack,
    evaporates: bool,
) -> turn::TurnView {
    if evaporates {
        turn::succeeds(
            item::plain_stack(1, bucket),
            seq![Effect::PlayEvaporation { spot: Spot::Center(geometry::target_of(ctx)) }],
        )
    } else {
        turn::asks(stack, Phase::Emptying)
    }
}

/// A bucket that could be emptied is left empty.
pub open spec fn emptying(bucket: u16, stack: ItemStack, emptied: bool) -> turn::TurnView {
    if emptied {
        turn::succeeds(item::plain_stack(1, bucket), seq![])
    } else {
        turn::gives_up(stack, DispenseOutcome::Drop)
    }
}

/// A glass bottle is filled with the honey of a full beehive, or else with water.
pub open spec fn bottling(
    reg: &Registry,
    ctx: DispenseContext,
    slot: int,
    stack: ItemStack,
    front: Cell,
) -> turn::TurnView {
    if is_full_hive(front) {
        inventory::exchanging(
            reg.items.air,
            slot,
            stack,
            seq![emptied_hive(geometry::target_of(ctx), front)],
            item::plain_stack(1, reg.items.honey_bottle),
        )
    } else if front.honey_level is None && registry::is_water_id(reg.fluids, front.fluid) {
        inventory::exchanging(
            reg.items.air,
            slot,
            stack,
            seq![],
            item::water_bottle_of(reg.items.potion, reg.water_potion),
        )
    } else {
        turn::gives_up(stack, DispenseOutcome::DropFailure)
    }
}

/// A water bottle turns earth in front to mud and is left as a glass bottle.
pub open spec fn muddying(
    reg: &Registry,
    ctx: DispenseContext,
    stack: ItemStack,
    front: Cell,
) -> turn::TurnView {
    let target = geometry::target_of(ctx);
    if front.convertible_to_mud {
        turn::succeeds(
            item::plain_stack(1, reg.items.glass_bottle),
            seq![
                Effect::SpawnSplash {
                    spot: Spot::Center(target),
                    spread_tenths: 5,
                    speed_tenths: 10,
                    count: 5,
                },
                Effect::PlaySound {
                    sound: Sound::ItemBottleEmpty,
                    category: SoundCategory::Blocks,
                    spot: Spot::Block(target),
                },
                Effect::SetBlockState {
                    position: target,
                    state: NewState::DefaultOf(reg.blocks.mud),
                    notify: Notify::All,
                },
            ],
        )
    } else {
        turn::gives_up(stack, DispenseOutcome::Drop)
    }
}

/// The effect that takes the honey out of a beehive.
pub fn harvest_hive(position: geometry::BlockPos, hive: &Cell) -> (effect: Effect)
    ensures
        effect == emptied_hive(position, *hive),
{
    Effect::SetBlockState {
        position,
        state: NewState::HoneyLevel { block: hive.block, state: hive.state, level: 0 },
        notify: Notify::All,
    }
}

impl DispenserBlock {
    /// Exchanges an empty bucket for what it took up.
    pub fn dispense_empty_bucket(
        air: u16,
        slot: usize,
        stack: ItemStack,
        filled: Option<u16>,
    ) -> (turn: Turn)
        ensures
            turn@ == scooping(air, slot as int, stack, filled),
    {
        match filled {
            Some(bucket) => Self::consume_with_remainder(
                air,
                slot,
                stack,
                Vec::new(),
                ItemStack::new(1, bucket),
            ),
            None => Turn::gives_up(stack, DispenseOutcome::Drop),
        }
    }

    /// Lets the contents of a bucket boil away, or goes on to empty it.
    pub fn dispense_filled_bucket(
        bucket: u16,
        ctx: &DispenseContext,
        stack: ItemStack,
        evaporates: bool,
    ) -> (turn: Turn)
        ensures
            turn@ == boiling(bucket, *ctx, stack, evaporates),
    {
        if evaporates {
            Turn::succeeds(
                ItemStack::new(1, bucket),
                vec![Effect::PlayEvaporation { spot: Spot::Center(ctx.target_position()) }],
            )
        } else {
            Turn::asks(stack, Phase::Emptying)
        }
    }

    /// Leaves an empty bucket if the contents could be poured out.
    pub fn pour_out(bucket: u16, stack: ItemStack, emptied: bool) -> (turn: Turn)
        ensures
            turn@ == emptying(bucket, stack, emptied),
    {
        if emptied {
            Turn::succeeds(ItemStack::new(1, bucket), Vec::new())
        } else {
            Turn::gives_up(stack, DispenseOutcome::Drop)
        }
    }

    /// Fills a glass bottle with honey or water.
    pub fn dispense_glass_bottle(
        reg: &Registry,
        ctx: &DispenseContext,
        slot: usize,
        stack: ItemStack,
        front: &Cell,
    ) -> (turn: Turn)
        ensures
            turn@ == bottling(reg, *ctx, slot as int, stack, *front),
    {
        if let Some(honey_level) = front.honey_level {
            if honey_level < FULL_HONEY_LEVEL {
                return Turn::gives_up(stack, DispenseOutcome::DropFailure);
            }
            return Self::consume_with_remainder(
                reg.items.air,
                slot,
                stack,
                vec![harvest_hive(ctx.target_position(), front)],
                ItemStack::new(1, reg.items.honey_bottle),
            );
        }
        if registry::is_water(&reg.fluids, front.fluid) {
            return Self::consume_with_remainder(
                reg.items.air,
                slot,
                stack,
                Vec::new(),
                item::water_bottle(reg),
            );
        }
        Turn::gives_up(stack, DispenseOutcome::DropFailure)
    }

    /// Pours a water bottle over earth.
    pub fn dispense_water_bottle(
        reg: &Registry,
        ctx: &DispenseContext,
        stack: ItemStack,
        front: &Cell,
    ) -> (turn: Turn)
        ensures
            turn@ == muddying(reg, *ctx, stack, *front),
    {
        let target = ctx.target_position();
        if !front.convertible_to_mud {
            return Turn::gives_up(stack, DispenseOutcome::Drop);
        }
        Turn::succeeds(
            ItemStack::new(1, reg.items.glass_bottle),
            vec![
                Effect::SpawnSplash {
                    spot: Spot::Center(target),
                    spread_tenths: 5,
                    speed_tenths: 10,
                    count: 5,
                },
                Effect::PlaySound {
                    sound: Sound::ItemBottleEmpty,
                    category: SoundCategory::Blocks,
                    spot: Spot::Block(target),
                },
                Effect::SetBlockState {
                    position: target,
                    state: NewState::DefaultOf(reg.blocks.mud),
                    notify: Notify::All,
                },
            ],
        )
    }
}

} // verus!
