//! Items that change or set the block in front.

use crate::dispenser::DispenserBlock;
use crate::geometry;
use crate::geometry::{DispenseContext, Facing};
use crate::item;
use crate::item::ItemStack;
use crate::protocol::{
    Cell, Effect, NewState, Notify, Sound, SoundCategory, Spot, Summon, WorldEvent,
};
use crate::registry::BlockIds;
use crate::turn;
use crate::turn::{DispenseOutcome, Phase, Turn};
use vstd::prelude::*;

verus! {

/// The most charges a respawn anchor holds.
pub const MAX_CHARGES: u8 = 4;

/// One item is used to set the block in front.
pub open spec fn placing(ctx: DispenseContext, state: NewState) -> Effect {
    Effect::SetBlockState { position: geometry::target_of(ctx), state, notify: Notify::All }
}

/// A block that can be waxed is waxed.
pub open spec fn waxing(
    ctx: DispenseContext,
    stack: ItemStack,
    waxed: Option<u16>,
) -> turn::TurnView {
    match waxed {
        Some(state) => turn::succeeds(
            item::one_less(stack),
            seq![
                placing(ctx, NewState::State(state)),
                Effect::SyncWorldEvent {
                    event: WorldEvent::ParticlesAndSoundWaxOn,
                    position: geometry::target_of(ctx),
                    data: 0,
                },
            ],
        ),
        None => turn::gives_up(stack, DispenseOutcome::Drop),
    }
}

/// A respawn anchor that is not full is charged.
pub open spec fn charging(
    anchor: u16,
    ctx: DispenseContext,
    stack: ItemStack,
    front: Cell,
) -> turn::TurnView {
    if front.block != anchor {
        turn::gives_up(stack, DispenseOutcome::Drop)
    } else if front.charges >= MAX_CHARGES {
        turn::gives_up(stack, DispenseOutcome::Failure)
    } else {
        turn::succeeds(
            item::one_less(stack),
            seq![
                placing(
                    ctx,
                    NewState::Charges {
                        block: front.block,
                        state: front.state,
                        charges: (front.charges + 1) as u8,
                    },
                ),
                Effect::PlaySound {
                    sound: Sound::BlockRespawnAnchorCharge,
                    category: SoundCategory::Blocks,
                    spot: Spot::Block(geometry::target_of(ctx)),
                },
            ],
        )
    }
}

/// A head can only finish a pattern in the air; otherwise it is put on someone.
pub open spec fn heading(stack: ItemStack, summon: Summon, front: Cell) -> turn::TurnView {
    if front.air {
        turn::asks(stack, Phase::HeadPattern { summon })
    } else {
        turn::asks(stack, Phase::Fitting { fallback: DispenseOutcome::Failure })
    }
}

/// The state of the block that a head is set down as.
pub open spec fn head_state(blocks: BlockIds, ctx: DispenseContext, summon: Summon) -> NewState {
    match summon {
        Summon::Wither => NewState::Rotation {
            block: blocks.wither_skeleton_skull,
            rotation: geometry::rotation16_of(ctx.facing),
        },
        Summon::Golem => NewState::DefaultOf(blocks.carved_pumpkin),
    }
}

/// A head that finishes a pattern is set down; otherwise it is put on someone.
pub open spec fn summoning(
    blocks: BlockIds,
    ctx: DispenseContext,
    stack: ItemStack,
    summon: Summon,
    finishes: bool,
) -> turn::TurnView {
    if finishes {
        turn::succeeds(
            item::one_less(stack),
            seq![placing(ctx, head_state(blocks, ctx, summon))],
        )
    } else {
        turn::asks(stack, Phase::Fitting { fallback: DispenseOutcome::Failure })
    }
}

/// A shulker box needs a replaceable block in front.
pub open spec fn boxing(stack: ItemStack, block: u16, front: Cell) -> turn::TurnView {
    if front.replaceable {
        turn::asks(stack, Phase::ShulkerBelow { block })
    } else {
        turn::gives_up(stack, DispenseOutcome::Failure)
    }
}

/// Over air a shulker box opens the way the dispenser faces, otherwise upwards.
pub open spec fn unpacking(
    ctx: DispenseContext,
    stack: ItemStack,
    block: u16,
    under: Cell,
) -> turn::TurnView {
    turn::succeeds(
        item::one_less(stack),
        seq![
            placing(
                ctx,
                NewState::Towards {
                    block,
                    facing: if under.air {
                        ctx.facing
                    } else {
                        Facing::Up
                    },
                },
            ),
        ],
    )
}

/// The effect that sets the block in front.
fn place(ctx: &DispenseContext, state: NewState) -> (effect: Effect)
    ensures
        effect == placing(*ctx, state),
{
    Effect::SetBlockState { position: ctx.target_position(), state, notify: Notify::All }
}

impl DispenserBlock {
    /// Waxes the block in front, if it has a waxed form.
    pub fn dispense_honeycomb(
        ctx: &DispenseContext,
        stack: ItemStack,
        waxed: Option<u16>,
    ) -> (turn: Turn)
        ensures
            turn@ == waxing(*ctx, stack, waxed),
    {
        match waxed {
            Some(state) => {
                let mut rest = stack;
                rest.split(1);
                Turn::succeeds(
                    rest,
                    vec![
                        place(ctx, NewState::State(state)),
                        Effect::SyncWorldEvent {
                            event: WorldEvent::ParticlesAndSoundWaxOn,
                            position: ctx.target_position(),
                            data: 0,
                        },
                    ],
                )
            },
            None => Turn::gives_up(stack, DispenseOutcome::Drop),
        }
    }

    /// Charges a respawn anchor in front.
    pub fn dispense_glowstone(
        anchor: u16,
        ctx: &DispenseContext,
        stack: ItemStack,
        front: &Cell,
    ) -> (turn: Turn)
        ensures
            turn@ == charging(anchor, *ctx, stack, *front),
    {
        if front.block != anchor {
            return Turn::gives_up(stack, DispenseOutcome::Drop);
        }
        if front.charges >= MAX_CHARGES {
            return Turn::gives_up(stack, DispenseOutcome::Failure);
        }
        let mut rest = stack;
        rest.split(1);
        Turn::succeeds(
            rest,
            vec![
                place(
                    ctx,
                    NewState::Charges {
                        block: front.block,
                        state: front.state,
                        charges: front.charges + 1,
                    },
                ),
                Effect::PlaySound {
                    sound: Sound::BlockRespawnAnchorCharge,
                    category: SoundCategory::Blocks,
                    spot: Spot::Block(ctx.target_position()),
                },
            ],
        )
    }

    /// Looks whether a head could be set down in front.
    pub fn dispense_mob_head(stack: ItemStack, summon: Summon, front: &Cell) -> (turn: Turn)
        ensures
            turn@ == heading(stack, summon, *front),
    {
        if front.air {
            Turn::asks(stack, Phase::HeadPattern { summon })
        } else {
            Turn::asks(stack, Phase::Fitting { fallback: DispenseOutcome::Failure })
        }
    }

    /// Sets down a head that finishes a pattern.
    pub fn summon_mob(
        blocks: &BlockIds,
        ctx: &DispenseContext,
        stack: ItemStack,
        summon: Summon,
        finishes: bool,
    ) -> (turn: Turn)
        ensures
            turn@ == summoning(*blocks, *ctx, stack, summon, finishes),
    {
        if !finishes {
            return Turn::asks(stack, Phase::Fitting { fallback: DispenseOutcome::Failure });
        }
        let state = match summon {
            Summon::Wither => NewState::Rotation {
                block: blocks.wither_skeleton_skull,
                rotation: geometry::to_rotation16(ctx.facing),
            },
            Summon::Golem => NewState::DefaultOf(blocks.carved_pumpkin),
        };
        let mut rest = stack;
        rest.split(1);
        Turn::succeeds(rest, vec![place(ctx, state)])
    }

    /// Looks whether a shulker box could be set down in front.
    pub fn dispense_shulker_box(stack: ItemStack, block: u16, front: &Cell) -> (turn: Turn)
        ensures
            turn@ == boxing(stack, block, *front),
    {
        if front.replaceable {
            Turn::asks(stack, Phase::ShulkerBelow { block })
        } else {
            Turn::gives_up(stack, DispenseOutcome::Failure)
        }
    }

    /// Sets down a shulker box.
    pub fn place_shulker_box(
        ctx: &DispenseContext,
        stack: ItemStack,
        block: u16,
        under: &Cell,
    ) -> (turn: Turn)
        ensures
            turn@ == unpacking(*ctx, stack, block, *under),
    {
        let facing = if under.air {
            ctx.facing
        } else {
            Facing::Up
        };
        let mut rest = stack;
        rest.split(1);
        Turn::succeeds(rest, vec![place(ctx, NewState::Towards { block, facing })])
    }
}

} // verus!
