//! What becomes of containers that are filled and emptied.

use crate::behavior;
use crate::dispenser;
use crate::geometry::DispenseContext;
use crate::inventory;
use crate::item::{ItemStack, PotionContents};
use crate::performance;
use crate::performance::Scene;
use crate::promises;
use crate::protocol::{Effect, NewState, SlotContents, Sound, Spot, WorldEvent};
use crate::registry;
use crate::registry::Registry;
use crate::search;
use crate::turn::{DispenseOutcome, Next, Phase};
use vstd::prelude::*;

verus! {

/// There is nothing in a slot.
pub open spec fn vacant(air: u16, contents: SlotContents) -> bool {
    contents.stack.item_count == 0 || contents.stack.item == air
}

/// A slot holds what the container is, data and all, and has room for one more.
pub open spec fn has_more_of(contents: SlotContents, container: ItemStack) -> bool {
    &&& contents.stack.item == container.item
    &&& contents.stack.potion_contents == container.potion_contents
    &&& contents.stack.components == container.components
    &&& contents.stack.item_count < contents.max_stack_size
}

/// Slot `i` is another slot than the one dispensed from, and the container can go there.
pub open spec fn receives(
    air: u16,
    slot: usize,
    container: ItemStack,
    slots: Seq<SlotContents>,
    i: int,
) -> bool {
    &&& 0 <= i < slots.len()
    &&& i != slot
    &&& vacant(air, slots[i]) || has_more_of(slots[i], container)
}

/// Slot `i` is the first that the container can go to.
pub open spec fn receives_first(
    air: u16,
    slot: usize,
    container: ItemStack,
    slots: Seq<SlotContents>,
    i: int,
) -> bool {
    &&& receives(air, slot, container, slots, i)
    &&& forall|j: int| j < i ==> !#[trigger] receives(air, slot, container, slots, j)
}

/// What is in a slot once the container is there: a vacant slot holds the container
/// itself, any other what it held and one more.
pub open spec fn with_container(
    air: u16,
    container: ItemStack,
    contents: SlotContents,
) -> ItemStack {
    if vacant(air, contents) {
        container
    } else {
        ItemStack {
            item: contents.stack.item,
            item_count: (contents.stack.item_count + 1) as u8,
            potion_contents: contents.stack.potion_contents,
            components: contents.stack.components,
        }
    }
}

/// After `acts`, one item of the stack was exchanged for the container. The last one is
/// replaced by it; otherwise it goes to the first slot that can take it, or out.
pub open spec fn exchanges(
    ended: (dispenser::DispensingView, Seq<Effect>),
    air: u16,
    ctx: DispenseContext,
    slot: usize,
    stack: ItemStack,
    slots: Seq<SlotContents>,
    acts: Seq<Effect>,
    container: ItemStack,
) -> bool {
    let sound = WorldEvent::SoundDispenserDispense;
    let rest = promises::remaining(stack);
    &&& stack.item_count <= 1 ==> promises::comes_to(ended, ctx, container, acts, sound)
    &&& stack.item_count > 1 ==> (forall|i: int| #[trigger]
        receives_first(air, slot, container, slots, i) ==> promises::comes_to(
            ended,
            ctx,
            rest,
            acts.push(
                Effect::SetSlot {
                    index: i as usize,
                    stack: with_container(air, container, slots[i]),
                },
            ),
            sound,
        ))
    &&& stack.item_count > 1 && (forall|i: int|
        !#[trigger] receives(air, slot, container, slots, i)) ==> promises::comes_to(
        ended,
        ctx,
        rest,
        acts.push(Effect::DropStack { stack: container, pickup_delay: 40 }),
        sound,
    )
}

proof fn exchange_is_right(
    ended: (dispenser::DispensingView, Seq<Effect>),
    air: u16,
    ctx: DispenseContext,
    slot: usize,
    stack: ItemStack,
    scene: Scene,
    acts: Seq<Effect>,
    container: ItemStack,
)
    requires
        scene.fits(),
        stack.item != air,
        ({
            let what = performance::exchange_deed(air, slot, stack, acts, container, scene);
            &&& ended.0.phase is Finished
            &&& ended.0.item == performance::leftover(what)
            &&& ended.1 == performance::performance(ctx, what)
        }),
    ensures
        exchanges(ended, air, ctx, slot, stack, scene.slots, acts, container),
{
    let slots = scene.slots;
    let len = slots.len() as int;
    let open = inventory::open_slots(air, slot as int, container, slots);
    let what = performance::exchange_deed(air, slot, stack, acts, container, scene);
    let closing = dispenser::flourish(ctx, WorldEvent::SoundDispenserDispense);
    promises::the_target_is_the_next_block(ctx);
    assert(ended.1 =~= what.effects + closing);
    assert forall|i: int| 0 <= i < len implies #[trigger] open(i) == receives(
        air,
        slot,
        container,
        slots,
        i,
    ) by {}
    search::first_index_none(len, open);
    if stack.item_count > 1 {
        assert forall|i: int| #[trigger] receives_first(
            air,
            slot,
            container,
            slots,
            i,
        ) implies what.effects == acts.push(
            Effect::SetSlot {
                index: i as usize,
                stack: with_container(air, container, slots[i]),
            },
        ) by {
            assert(open(i));
            assert forall|j: int| 0 <= j < i implies !#[trigger] open(j) by {
                assert(!receives(air, slot, container, slots, j));
            }
            search::first_index_at(len, open, i);
        }
        if forall|i: int| !#[trigger] receives(air, slot, container, slots, i) {
            assert forall|j: int| 0 <= j < len implies !#[trigger] open(j) by {
                assert(!receives(air, slot, container, slots, j));
            }
            assert(what.effects == acts.push(
                Effect::DropStack { stack: container, pickup_delay: 40 },
            ));
        }
    }
}

/// An empty bucket that scoops something up in front is exchanged for the bucket that
/// it fills; one that finds nothing is thrown out as it is.
pub proof fn empty_buckets_are_filled(
    reg: &Registry,
    ctx: DispenseContext,
    slot: usize,
    stack: ItemStack,
    scene: Scene,
)
    requires
        scene.fits(),
        reg.distinct(),
        stack.item == reg.items.bucket,
    ensures
        ({
            let ended = promises::run(reg, ctx, slot, stack, scene);
            match (scene.picked_up)(promises::front(ctx), ctx.facing) {
                Some(filled) => exchanges(
                    ended,
                    reg.items.air,
                    ctx,
                    slot,
                    stack,
                    scene.slots,
                    seq![],
                    promises::fresh(1, filled),
                ),
                None => promises::throws_one_out(
                    ended,
                    ctx,
                    stack,
                    WorldEvent::SoundDispenserDispense,
                ),
            }
        }),
{
    let ended = promises::run(reg, ctx, slot, stack, scene);
    promises::run_is_the_deed(reg, ctx, slot, stack, scene);
    behavior::each_item_has_its_own_behavior(reg, stack);
    registry::items_have_numbers(reg.items);
    match (scene.picked_up)(promises::front(ctx), ctx.facing) {
        Some(filled) => {
            exchange_is_right(
                ended,
                reg.items.air,
                ctx,
                slot,
                stack,
                scene,
                seq![],
                promises::fresh(1, filled),
            );
        },
        None => {
            let thrown = seq![
                Effect::DropStack { stack: promises::single(stack), pickup_delay: 40 },
            ];
            assert(ended.1 =~= thrown + dispenser::flourish(
                ctx,
                WorldEvent::SoundDispenserDispense,
            ));
        },
    }
}

/// A bottle of plain water, as it is filled at a source.
pub open spec fn bottled_water(reg: &Registry) -> ItemStack {
    ItemStack {
        item: reg.items.potion,
        item_count: 1,
        potion_contents: Some(
            PotionContents { potion_id: Some(reg.water_potion as i32), custom: 0 },
        ),
        components: 0,
    }
}

/// A glass bottle in front of a brimming hive is exchanged for a bottle of honey, and
/// the hive loses its honey. In front of water that is no hive it is exchanged for a
/// bottle of water. Otherwise it is thrown out, with the sound of a failure.
pub proof fn glass_bottles_are_filled(
    reg: &Registry,
    ctx: DispenseContext,
    slot: usize,
    stack: ItemStack,
    scene: Scene,
)
    requires
        scene.fits(),
        reg.distinct(),
        stack.item == reg.items.glass_bottle,
    ensures
        ({
            let ended = promises::run(reg, ctx, slot, stack, scene);
            let front = promises::front(ctx);
            let air = reg.items.air;
            if promises::brims(scene, front) {
                exchanges(
                    ended,
                    air,
                    ctx,
                    slot,
                    stack,
                    scene.slots,
                    seq![promises::drains_hive(ctx, scene)],
                    promises::fresh(1, reg.items.honey_bottle),
                )
            } else if (scene.cell)(front).honey_level is None && promises::wet(reg, scene, front) {
                exchanges(
                    ended,
                    air,
                    ctx,
                    slot,
                    stack,
                    scene.slots,
                    seq![],
                    bottled_water(reg),
                )
            } else {
                promises::throws_one_out(ended, ctx, stack, WorldEvent::SoundDispenserFail)
            }
        }),
{
    let ended = promises::run(reg, ctx, slot, stack, scene);
    let front = promises::front(ctx);
    promises::run_is_the_deed(reg, ctx, slot, stack, scene);
    behavior::each_item_has_its_own_behavior(reg, stack);
    registry::items_have_numbers(reg.items);
    let what = performance::deed(reg, ctx, slot, stack, scene);
    if promises::brims(scene, front) {
        assert(what == performance::exchange_deed(
            reg.items.air,
            slot,
            stack,
            seq![promises::drains_hive(ctx, scene)],
            promises::fresh(1, reg.items.honey_bottle),
            scene,
        ));
        exchange_is_right(
            ended,
            reg.items.air,
            ctx,
            slot,
            stack,
            scene,
            seq![promises::drains_hive(ctx, scene)],
            promises::fresh(1, reg.items.honey_bottle),
        );
    } else if (scene.cell)(front).honey_level is None && promises::wet(reg, scene, front) {
        exchange_is_right(
            ended,
            reg.items.air,
            ctx,
            slot,
            stack,
            scene,
            seq![],
            bottled_water(reg),
        );
    } else {
        let thrown = seq![Effect::DropStack { stack: promises::single(stack), pickup_delay: 40 }];
        assert(ended.1 =~= thrown + dispenser::flourish(ctx, WorldEvent::SoundDispenserFail));
    }
}

/// A potion of plain water over earth makes mud of it and leaves one glass bottle;
/// elsewhere it is thrown out as it is.
pub proof fn water_bottles_make_mud(
    reg: &Registry,
    ctx: DispenseContext,
    slot: usize,
    stack: ItemStack,
    scene: Scene,
)
    requires
        scene.fits(),
        reg.distinct(),
        stack.item == reg.items.potion,
        stack.potion_contents is Some,
        stack.potion_contents->0.potion_id == Some(reg.water_potion as i32),
    ensures
        ({
            let ended = promises::run(reg, ctx, slot, stack, scene);
            let front = promises::front(ctx);
            let sound = WorldEvent::SoundDispenserDispense;
            if (scene.cell)(front).convertible_to_mud {
                promises::comes_to(
                    ended,
                    ctx,
                    promises::fresh(1, reg.items.glass_bottle),
                    seq![
                        Effect::SpawnSplash {
                            spot: Spot::Center(front),
                            spread_tenths: 5,
                            speed_tenths: 10,
                            count: 5,
                        },
                        promises::sounds(Sound::ItemBottleEmpty, Spot::Block(front)),
                        promises::sets_front(ctx, NewState::DefaultOf(reg.blocks.mud)),
                    ],
                    sound,
                )
            } else {
                promises::throws_one_out(ended, ctx, stack, sound)
            }
        }),
{
    let ended = promises::run(reg, ctx, slot, stack, scene);
    promises::run_is_the_deed(reg, ctx, slot, stack, scene);
    behavior::each_item_has_its_own_behavior(reg, stack);
    let what = performance::deed(reg, ctx, slot, stack, scene);
    let closing = dispenser::flourish(ctx, WorldEvent::SoundDispenserDispense);
    if what.outcome is Success {
        assert(ended.1 =~= what.effects + closing);
    } else {
        let thrown = seq![Effect::DropStack { stack: promises::single(stack), pickup_delay: 40 }];
        assert(ended.1 =~= thrown + closing);
    }
}

/// Where the water that a glass bottle was filled with ended up: in the slot it was
/// dispensed from, in another slot, or outside.
pub open spec fn refilled(
    stack: ItemStack,
    ended: (dispenser::DispensingView, Seq<Effect>),
) -> ItemStack {
    if stack.item_count <= 1 {
        ended.0.item
    } else {
        match ended.1[0] {
            Effect::SetSlot { stack: put, .. } => put,
            Effect::DropStack { stack: thrown, .. } => thrown,
            _ => ended.0.item,
        }
    }
}

/// A bottle that a dispenser filled with water is a bottle of water, wherever it went:
/// from there a dispenser pours it out over earth.
pub proof fn filled_bottles_can_be_poured_out(
    reg: &Registry,
    ctx: DispenseContext,
    slot: usize,
    stack: ItemStack,
    scene: Scene,
    later: DispenseContext,
    later_slot: usize,
    elsewhere: Scene,
)
    requires
        scene.fits(),
        elsewhere.fits(),
        reg.distinct(),
        stack.item == reg.items.glass_bottle,
        (scene.cell)(promises::front(ctx)).honey_level is None,
        promises::wet(reg, scene, promises::front(ctx)),
        (elsewhere.cell)(promises::front(later)).convertible_to_mud,
    ensures
        ({
            let water = refilled(stack, promises::run(reg, ctx, slot, stack, scene));
            let poured = promises::run(reg, later, later_slot, water, elsewhere);
            &&& water.item == reg.items.potion
            &&& water.potion_contents is Some
            &&& water.potion_contents->0.potion_id == Some(reg.water_potion as i32)
            &&& water.item_count >= 1
            &&& poured.0.item == promises::fresh(1, reg.items.glass_bottle)
            &&& poured.1[2] == promises::sets_front(later, NewState::DefaultOf(reg.blocks.mud))
        }),
{
    let ended = promises::run(reg, ctx, slot, stack, scene);
    let air = reg.items.air;
    let slots = scene.slots;
    let len = slots.len() as int;
    let water = bottled_water(reg);
    glass_bottles_are_filled(reg, ctx, slot, stack, scene);
    if stack.item_count > 1 {
        let wanted = |i: int| receives(air, slot, water, slots, i);
        search::first_index_none(len, wanted);
        match search::first_index(len, wanted) {
            Some(i) => {
                assert(search::is_first(len, wanted, i));
                assert(receives(air, slot, water, slots, i));
                assert forall|j: int| j < i implies !#[trigger] receives(
                    air,
                    slot,
                    water,
                    slots,
                    j,
                ) by {
                    if 0 <= j {
                        assert(!wanted(j));
                    }
                }
                assert(receives_first(air, slot, water, slots, i));
            },
            None => {
                assert forall|j: int| !#[trigger] receives(air, slot, water, slots, j) by {
                    if 0 <= j < len {
                        assert(!wanted(j));
                    }
                }
            },
        }
    }
    water_bottles_make_mud(reg, later, later_slot, refilled(stack, ended), elsewhere);
}

/// Using up an item for a container leaves the container itself where the last item was,
/// whatever its data is. If more are left they keep their data, and the first slot other
/// than their own is looked at.
pub proof fn the_last_item_gives_way_to_the_container(
    air: u16,
    slot: usize,
    stack: ItemStack,
    acts: Seq<Effect>,
    container: ItemStack,
)
    ensures
        ({
            let step = inventory::exchanging(air, slot as int, stack, acts, container);
            &&& step.effects == acts
            &&& stack.item_count <= 1 || stack.item == air ==> step.item == container && step.next
                == Next::End(DispenseOutcome::Success(WorldEvent::SoundDispenserDispense))
            &&& stack.item_count > 1 && stack.item != air ==> step.item == promises::remaining(
                stack,
            ) && step.next == Next::Ask(
                Phase::Stowing {
                    remainder: container,
                    index: if slot == 0 {
                        1
                    } else {
                        0
                    },
                },
            )
        }),
{
}

/// A vacant slot takes the container as it is, data and all. A slot with the same in it
/// that is not full takes one more and keeps what it held. Past any other slot the search
/// goes on, without the own one; past the last slot the container is thrown out as it
/// is. What is left in the own slot is not touched.
pub proof fn a_slot_takes_the_container_as_it_is(
    air: u16,
    slot: usize,
    stack: ItemStack,
    container: ItemStack,
    index: usize,
    contents: Option<SlotContents>,
)
    ensures
        ({
            let step = inventory::trying_slot(
                air,
                slot as int,
                stack,
                container,
                index,
                contents,
            );
            let done = Next::End(DispenseOutcome::Success(WorldEvent::SoundDispenserDispense));
            let out = seq![Effect::DropStack { stack: container, pickup_delay: 40 }];
            let next = if index + 1 == slot {
                index + 2
            } else {
                index + 1
            };
            &&& step.item == stack
            &&& contents is None ==> step.next == done && step.effects == out
            &&& contents is Some && vacant(air, contents->0) ==> step.next == done && step.effects
                == seq![Effect::SetSlot { index, stack: container }]
            &&& contents is Some && !vacant(air, contents->0) && has_more_of(
                contents->0,
                container,
            ) ==> {
                let put = step.effects[0]->SetSlot_stack;
                &&& step.next == done
                &&& step.effects == seq![Effect::SetSlot { index, stack: put }]
                &&& put.item == container.item
                &&& put.potion_contents == container.potion_contents
                &&& put.components == container.components
                &&& put.item_count == contents->0.stack.item_count + 1
            }
            &&& contents is Some && !vacant(air, contents->0) && !has_more_of(
                contents->0,
                container,
            ) ==> if next <= usize::MAX {
                step.effects == Seq::<Effect>::empty() && step.next == Next::Ask(
                    Phase::Stowing { remainder: container, index: next as usize },
                )
            } else {
                step.effects == out && step.next == done
            }
        }),
{
    let step = inventory::trying_slot(air, slot as int, stack, container, index, contents);
    if let Some(other) = contents {
        if !vacant(air, other) && has_more_of(other, container) {
            assert(step.effects =~= seq![
                Effect::SetSlot { index, stack: step.effects[0]->SetSlot_stack },
            ]);
        }
    }
}

/// Whatever is thrown out of a dispenser is thrown out as it is.
pub proof fn stacks_are_thrown_out_as_they_are(stack: ItemStack)
    ensures
        inventory::throwing(stack) is DropStack,
        inventory::throwing(stack)->DropStack_stack == stack,
        inventory::throwing(stack)->pickup_delay == 40,
{
}

} // verus!
