//! Flint and steel, and shears.

use crate::containers;
use crate::dispenser::DispenserBlock;
use crate::geometry;
use crate::geometry::DispenseContext;
use crate::item;
use crate::item::ItemStack;
use crate::protocol::{Animal, Cell, Effect, Sound, SoundCategory, Spot};
use crate::registry;
use crate::registry::{ItemIds, WoolIds};
use crate::search;
use crate::turn;
use crate::turn::{DispenseOutcome, Phase, Turn};
use vstd::prelude::*;

verus! {

/// The honeycombs that a beehive yields.
pub const HARVESTED_HONEYCOMBS: u8 = 3;

/// TNT in front is primed; anything else may catch fire.
pub open spec fn striking(
    tnt: u16,
    ctx: DispenseContext,
    stack: ItemStack,
    front: Cell,
) -> turn::TurnView {
    if front.block == tnt {
        turn::acts_and_asks(
            stack,
            seq![Effect::PrimeTnt { position: geometry::target_of(ctx) }],
            Phase::Wearing,
        )
    } else {
        turn::asks(stack, Phase::Igniting)
    }
}

/// A tool that was of use wears down; otherwise the attempt failed.
pub open spec fn using(stack: ItemStack, useful: bool) -> turn::TurnView {
    if useful {
        turn::asks(stack, Phase::Wearing)
    } else {
        turn::gives_up(stack, DispenseOutcome::Failure)
    }
}

/// Shears harvest a full beehive in front; otherwise they turn to the entities there.
pub open spec fn harvesting(
    honeycomb: u16,
    ctx: DispenseContext,
    stack: ItemStack,
    front: Cell,
) -> turn::TurnView {
    let target = geometry::target_of(ctx);
    if containers::is_full_hive(front) {
        turn::acts_and_asks(
            stack,
            seq![
                Effect::PlaySound {
                    sound: Sound::BlockBeehiveShear,
                    category: SoundCategory::Blocks,
                    spot: Spot::Block(target),
                },
                Effect::DropAt {
                    spot: Spot::Center(target),
                    stack: item::plain_stack(HARVESTED_HONEYCOMBS, honeycomb),
                },
                containers::emptied_hive(target, front),
            ],
            Phase::Wearing,
        )
    } else {
        turn::asks(stack, Phase::Flock)
    }
}

/// A living sheep with its wool on.
pub open spec fn is_shearable(animal: Animal) -> bool {
    animal.sheep && !animal.sheared && animal.alive
}

/// The animals that can be sheared.
pub open spec fn shearable(animals: Seq<Animal>) -> spec_fn(int) -> bool {
    |i: int| is_shearable(animals[i])
}

/// The first sheep that can be sheared is sheared.
pub open spec fn shearing(stack: ItemStack, animals: Seq<Animal>) -> turn::TurnView {
    match search::first_index(animals.len() as int, shearable(animals)) {
        Some(i) => turn::acts_and_asks(
            stack,
            seq![
                Effect::SetSheared { entity: i as usize },
                Effect::PlaySound {
                    sound: Sound::EntitySheepShear,
                    category: SoundCategory::Blocks,
                    spot: Spot::Entity(i as usize),
                },
            ],
            Phase::WoolRoll { entity: i as usize, color: animals[i].color },
        ),
        None => turn::gives_up(stack, DispenseOutcome::Failure),
    }
}

/// The wool falls where the sheep is.
pub open spec fn dropping_wool(
    wool: WoolIds,
    stack: ItemStack,
    entity: usize,
    color: u8,
    count: u8,
) -> turn::TurnView {
    turn::acts_and_asks(
        stack,
        seq![
            Effect::DropAt {
                spot: Spot::Entity(entity),
                stack: item::plain_stack(count, registry::wool_id(wool, color)),
            },
        ],
        Phase::Wearing,
    )
}

impl DispenserBlock {
    /// Strikes fire at the block in front.
    pub fn dispense_flint_and_steel(
        tnt: u16,
        ctx: &DispenseContext,
        stack: ItemStack,
        front: &Cell,
    ) -> (turn: Turn)
        ensures
            turn@ == striking(tnt, *ctx, stack, *front),
    {
        if front.block == tnt {
            Turn::acts_and_asks(
                stack,
                vec![Effect::PrimeTnt { position: ctx.target_position() }],
                Phase::Wearing,
            )
        } else {
            Turn::asks(stack, Phase::Igniting)
        }
    }

    /// Wears a tool down if it was of use.
    pub fn wear_down(stack: ItemStack, useful: bool) -> (turn: Turn)
        ensures
            turn@ == using(stack, useful),
    {
        if useful {
            Turn::asks(stack, Phase::Wearing)
        } else {
            Turn::gives_up(stack, DispenseOutcome::Failure)
        }
    }

    /// Harvests a beehive in front, or turns to the entities there.
    pub fn shear_beehive(
        items: &ItemIds,
        ctx: &DispenseContext,
        stack: ItemStack,
        front: &Cell,
    ) -> (turn: Turn)
        ensures
            turn@ == harvesting(items.honeycomb, *ctx, stack, *front),
    {
        let target = ctx.target_position();
        match front.honey_level {
            Some(honey_level) => if honey_level < containers::FULL_HONEY_LEVEL {
                Turn::asks(stack, Phase::Flock)
            } else {
                Turn::acts_and_asks(
                    stack,
                    vec![
                        Effect::PlaySound {
                            sound: Sound::BlockBeehiveShear,
                            category: SoundCategory::Blocks,
                            spot: Spot::Block(target),
                        },
                        Effect::DropAt {
                            spot: Spot::Center(target),
                            stack: ItemStack::new(HARVESTED_HONEYCOMBS, items.honeycomb),
                        },
                        containers::harvest_hive(target, front),
                    ],
                    Phase::Wearing,
                )
            },
            None => Turn::asks(stack, Phase::Flock),
        }
    }

    /// Shears the first sheep that can be sheared.
    pub fn shear_entity_in_front(stack: ItemStack, animals: &Vec<Animal>) -> (turn: Turn)
        ensures
            turn@ == shearing(stack, animals@),
    {
        let ghost wanted = shearable(animals@);
        let mut i: usize = 0;
        while i < animals.len()
            invariant
                i <= animals.len(),
                wanted == shearable(animals@),
                forall|j: int| 0 <= j < i ==> !#[trigger] wanted(j),
            decreases animals.len() - i,
        {
            let animal = animals[i];
            if animal.sheep && !animal.sheared && animal.alive {
                proof {
                    search::first_index_at(animals@.len() as int, wanted, i as int);
                }
                return Turn::acts_and_asks(
                    stack,
                    vec![
                        Effect::SetSheared { entity: i },
                        Effect::PlaySound {
                            sound: Sound::EntitySheepShear,
                            category: SoundCategory::Blocks,
                            spot: Spot::Entity(i),
                        },
                    ],
                    Phase::WoolRoll { entity: i, color: animal.color },
                );
            }
            i += 1;
        }
        proof {
            search::first_index_none(animals@.len() as int, wanted);
        }
        Turn::gives_up(stack, DispenseOutcome::Failure)
    }

    /// Leaves `count` pieces of wool where the sheep is.
    pub fn drop_wool(
        wool: &WoolIds,
        stack: ItemStack,
        entity: usize,
        color: u8,
        count: u8,
    ) -> (turn: Turn)
        ensures
            turn@ == dropping_wool(*wool, stack, entity, color, count),
    {
        Turn::acts_and_asks(
            stack,
            vec![
                Effect::DropAt {
                    spot: Spot::Entity(entity),
                    stack: ItemStack::new(count, registry::wool_of_color(wool, color)),
                },
            ],
            Phase::Wearing,
        )
    }
}

} // verus!
