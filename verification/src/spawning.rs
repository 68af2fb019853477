//! Primed TNT and spawn eggs.

use crate::dispenser::DispenserBlock;
use crate::geometry;
use crate::geometry::DispenseContext;
use crate::item;
use crate::item::ItemStack;
use crate::protocol::{Effect, Sound, SoundCategory, Spot};
use crate::turn;
use crate::turn::Turn;
use vstd::prelude::*;

verus! {

/// The strength of the explosion.
pub const TNT_POWER: u32 = 4;

/// The ticks until the explosion.
pub const TNT_FUSE: u32 = 80;

/// One block of TNT comes out primed.
pub open spec fn priming(ctx: DispenseContext, stack: ItemStack) -> turn::TurnView {
    let target = geometry::target_of(ctx);
    turn::succeeds(
        item::one_less(stack),
        seq![
            Effect::SpawnTnt { position: target, power: TNT_POWER, fuse: TNT_FUSE },
            Effect::PlaySound {
                sound: Sound::EntityTntPrimed,
                category: SoundCategory::Blocks,
                spot: Spot::Floor(target),
            },
        ],
    )
}

/// One egg hatches in front.
pub open spec fn hatching(
    ctx: DispenseContext,
    stack: ItemStack,
    entity_type: u16,
    uuid: u128,
) -> turn::TurnView {
    turn::succeeds(
        item::one_less(stack),
        seq![
            Effect::SpawnMob {
                entity_type,
                position: geometry::target_of(ctx),
                uuid,
                egg: item::one_less(stack),
            },
        ],
    )
}

impl DispenserBlock {
    /// Puts one block of primed TNT in front.
    pub fn dispense_tnt(ctx: &DispenseContext, stack: ItemStack) -> (turn: Turn)
        ensures
            turn@ == priming(*ctx, stack),
    {
        let mut rest = stack;
        rest.split(1);
        let target = ctx.target_position();
        Turn::succeeds(
            rest,
            vec![
                Effect::SpawnTnt { position: target, power: TNT_POWER, fuse: TNT_FUSE },
                Effect::PlaySound {
                    sound: Sound::EntityTntPrimed,
                    category: SoundCategory::Blocks,
                    spot: Spot::Floor(target),
                },
            ],
        )
    }

    /// Hatches one egg in front, under the identifier `uuid`.
    pub fn dispense_spawn_egg(
        ctx: &DispenseContext,
        stack: ItemStack,
        entity_type: u16,
        uuid: u128,
    ) -> (turn: Turn)
        ensures
            turn@ == hatching(*ctx, stack, entity_type, uuid),
    {
        let mut rest = stack;
        rest.split(1);
        Turn::succeeds(
            rest,
            vec![
                Effect::SpawnMob {
                    entity_type,
                    position: ctx.target_position(),
                    uuid,
                    egg: rest,
                },
            ],
        )
    }
}

} // verus!
