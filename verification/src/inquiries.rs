//! What holds of every question and every effect of an activation, by their fields.

use crate::behavior;
use crate::behavior::Behavior;
use crate::containers;
use crate::dispenser;
use crate::equipment;
use crate::geometry;
use crate::geometry::DispenseContext;
use crate::inventory;
use crate::item;
use crate::item::ItemStack;
use crate::laws;
use crate::performance;
use crate::performance::Scene;
use crate::placements;
use crate::promises;
use crate::protocol::{Effect, Query};
use crate::questions;
use crate::registry::Registry;
use crate::search;
use crate::turn::DispenseOutcome;
use vstd::prelude::*;

verus! {

/// Number `entity` in front may be dressed in the item, as far as its own fields tell.
pub open spec fn may_be_dressed(
    ctx: DispenseContext,
    stack: ItemStack,
    scene: Scene,
    entity: usize,
) -> bool {
    let worn = (scene.equippable)(stack);
    &&& worn is Some
    &&& worn->0.dispensable
    &&& entity < placements::crowd(ctx, worn->0, scene).len()
    &&& placements::crowd(ctx, worn->0, scene)[entity as int].living
    &&& placements::crowd(ctx, worn->0, scene)[entity as int].part_of_game
    &&& placements::may_wear(
        worn->0.allowed_entities,
        placements::crowd(ctx, worn->0, scene)[entity as int],
    )
}

/// The question is about what the activation has to do with: the block in front or the
/// one under it, the stack in the slot, another slot, or someone in front who may be
/// dressed.
pub open spec fn is_to_the_point(
    reg: &Registry,
    ctx: DispenseContext,
    slot: usize,
    stack: ItemStack,
    scene: Scene,
    query: Query,
) -> bool {
    let front = promises::front(ctx);
    let under = promises::under_front(ctx);
    match query {
        Query::Cell { position } => position == front || position == under,
        Query::Room { position, .. } => position == front || position == under,
        Query::PickUp { position, facing } => position == front && facing == ctx.facing,
        Query::Evaporates { item } => item == stack.item,
        Query::EmptyOut { item, position, facing } => item == stack.item && position
            == ctx.position && facing == ctx.facing,
        Query::Ignite { position, notify } => position == front && notify is All,
        Query::Damage { stack: tool, amount } => tool == stack && amount == 1,
        Query::Animals { position } => position == front,
        Query::Roll { low, high } => low == 1 && high == 3,
        Query::FreshUuid => true,
        Query::WaxedState { block, state } => block == (scene.cell)(front).block && state == (
        scene.cell)(front).state,
        Query::Pattern { position, .. } => position == front,
        Query::Equippable { stack: worn } => worn == stack,
        Query::Wearers { position, tag } => {
            let worn = (scene.equippable)(stack);
            position == front && worn is Some && worn->0.dispensable && tag
                == placements::tag_asked(worn->0)
        },
        Query::NothingWorn { entity, slot: place } => may_be_dressed(ctx, stack, scene, entity)
            && place == (scene.equippable)(stack)->0.slot,
        Query::Slot { index } => index != slot,
        Query::Power { .. } | Query::Properties { .. } | Query::PickSlot { .. } => false,
    }
}

spec fn all_to_the_point(
    reg: &Registry,
    ctx: DispenseContext,
    slot: usize,
    stack: ItemStack,
    scene: Scene,
    queries: Seq<Query>,
) -> bool {
    forall|k: int|
        0 <= k < queries.len() ==> is_to_the_point(
            reg,
            ctx,
            slot,
            stack,
            scene,
            #[trigger] queries[k],
        )
}

proof fn slots_are_to_the_point(
    reg: &Registry,
    ctx: DispenseContext,
    slot: usize,
    stack: ItemStack,
    scene: Scene,
    remainder: ItemStack,
    from: int,
)
    requires
        0 <= from <= usize::MAX + 1,
    ensures
        all_to_the_point(
            reg,
            ctx,
            slot,
            stack,
            scene,
            questions::slots_tried(reg.items.air, slot as int, remainder, scene.slots, from),
        ),
    decreases usize::MAX + 1 - from,
{
    let index = inventory::next_slot(slot as int, from);
    let slots = scene.slots;
    if index <= usize::MAX && index < slots.len() && !inventory::takes(
        reg.items.air,
        remainder,
        slots[index],
    ) {
        slots_are_to_the_point(reg, ctx, slot, stack, scene, remainder, index + 1);
    }
}

proof fn wearers_are_to_the_point(
    reg: &Registry,
    ctx: DispenseContext,
    slot: usize,
    stack: ItemStack,
    scene: Scene,
    from: int,
)
    requires
        scene.fits(),
        (scene.equippable)(stack) is Some,
        (scene.equippable)(stack)->0.dispensable,
        0 <= from <= scene.crowd(ctx, stack).len(),
    ensures
        ({
            let worn = (scene.equippable)(stack)->0;
            all_to_the_point(
                reg,
                ctx,
                slot,
                stack,
                scene,
                questions::wearers_tried(
                    worn.allowed_entities,
                    worn.slot,
                    scene.crowd(ctx, stack),
                    scene,
                    from,
                ),
            )
        }),
    decreases scene.crowd(ctx, stack).len() - from,
{
    let worn = (scene.equippable)(stack)->0;
    let crowd = scene.crowd(ctx, stack);
    promises::the_target_is_the_next_block(ctx);
    assert(crowd == placements::crowd(ctx, worn, scene));
    if from < crowd.len() {
        placements::wearing_is_allowed(worn.allowed_entities, crowd[from]);
        wearers_are_to_the_point(reg, ctx, slot, stack, scene, from + 1);
    }
}

proof fn dressing_is_to_the_point(
    reg: &Registry,
    ctx: DispenseContext,
    slot: usize,
    stack: ItemStack,
    scene: Scene,
)
    requires
        scene.fits(),
    ensures
        all_to_the_point(
            reg,
            ctx,
            slot,
            stack,
            scene,
            questions::dressing_agenda(ctx, stack, scene),
        ),
{
    promises::the_target_is_the_next_block(ctx);
    if (scene.equippable)(stack) is Some && (scene.equippable)(stack)->0.dispensable {
        wearers_are_to_the_point(reg, ctx, slot, stack, scene, 0);
    }
}

proof fn containers_are_to_the_point(
    reg: &Registry,
    ctx: DispenseContext,
    slot: usize,
    stack: ItemStack,
    scene: Scene,
)
    requires
        behavior::behavior_of(reg, stack) is EmptyBucket || behavior::behavior_of(
            reg,
            stack,
        ) is GlassBottle,
    ensures
        all_to_the_point(
            reg,
            ctx,
            slot,
            stack,
            scene,
            questions::agenda(reg, ctx, slot, stack, scene),
        ),
{
    promises::the_target_is_the_next_block(ctx);
    let front = promises::front(ctx);
    if let Some(filled) = (scene.picked_up)(front, ctx.facing) {
        let bucket = item::plain_stack(1, filled);
        slots_are_to_the_point(reg, ctx, slot, stack, scene, bucket, 0);
    }
    let honey = item::plain_stack(1, reg.items.honey_bottle);
    slots_are_to_the_point(reg, ctx, slot, stack, scene, honey, 0);
    let water = item::water_bottle_of(reg.items.potion, reg.water_potion);
    slots_are_to_the_point(reg, ctx, slot, stack, scene, water, 0);
}

/// Every question of an activation is to the point. In particular nobody is asked for
/// what they have on but who lives, takes part in the game and may wear the item.
pub proof fn questions_are_to_the_point(
    reg: &Registry,
    ctx: DispenseContext,
    slot: usize,
    stack: ItemStack,
    scene: Scene,
    k: int,
)
    requires
        scene.fits(),
    ensures
        ({
            let asked = questions::transcript(
                reg,
                scene,
                dispenser::begun(reg, ctx, slot, stack).0,
                performance::enough(ctx, stack, scene),
            );
            0 <= k < asked.len() ==> is_to_the_point(reg, ctx, slot, stack, scene, asked[k])
        }),
{
    questions::activation_keeps_to_the_agenda(
        reg,
        ctx,
        slot,
        stack,
        scene,
        performance::enough(ctx, stack, scene),
    );
    promises::the_target_is_the_next_block(ctx);
    match behavior::behavior_of(reg, stack) {
        Behavior::EmptyBucket | Behavior::GlassBottle => {
            containers_are_to_the_point(reg, ctx, slot, stack, scene);
        },
        Behavior::MobHead { .. } | Behavior::Ordinary => {
            dressing_is_to_the_point(reg, ctx, slot, stack, scene);
        },
        _ => {},
    }
}

/// The effect dresses nobody who may not be dressed, in nothing but one item of the
/// stack, and puts it where it is worn.
pub open spec fn dresses_properly(
    ctx: DispenseContext,
    stack: ItemStack,
    scene: Scene,
    effect: Effect,
) -> bool {
    let one = |put: ItemStack|
        {
            &&& put.item == stack.item
            &&& put.potion_contents == stack.potion_contents
            &&& put.components == stack.components
            &&& stack.item_count > 0 ==> put.item_count == 1
        };
    match effect {
        Effect::SendEquipment { entity, slot, stack: put } => {
            &&& may_be_dressed(ctx, stack, scene, entity)
            &&& slot == (scene.equippable)(stack)->0.slot
            &&& one(put)
        },
        Effect::Equip { entity, slot, stack: put } => {
            &&& may_be_dressed(ctx, stack, scene, entity)
            &&& slot == (scene.equippable)(stack)->0.slot
            &&& one(put)
        },
        Effect::PlayEquipSound { entity, equip_sound, category } => {
            &&& may_be_dressed(ctx, stack, scene, entity)
            &&& equip_sound == (scene.equippable)(stack)->0.equip_sound
            &&& category is Blocks
        },
        _ => true,
    }
}

proof fn dressing_is_proper(
    ctx: DispenseContext,
    stack: ItemStack,
    fallback: DispenseOutcome,
    scene: Scene,
)
    requires
        scene.fits(),
    ensures
        forall|k: int|
            #![trigger performance::dressing_deed(ctx, stack, fallback, scene).effects[k]]
            0 <= k < performance::dressing_deed(ctx, stack, fallback, scene).effects.len()
                ==> dresses_properly(
                ctx,
                stack,
                scene,
                performance::dressing_deed(ctx, stack, fallback, scene).effects[k],
            ),
{
    if (scene.equippable)(stack) is Some && (scene.equippable)(stack)->0.dispensable {
        let worn = (scene.equippable)(stack)->0;
        let crowd = scene.crowd(ctx, stack);
        let len = crowd.len() as int;
        let wanted = performance::dressable(worn.allowed_entities, worn.slot, crowd, scene);
        promises::the_target_is_the_next_block(ctx);
        assert(crowd == placements::crowd(ctx, worn, scene));
        if let Some(i) = search::first_index(len, wanted) {
            assert(search::is_first(len, wanted, i));
            assert(equipment::eligible(worn.allowed_entities, crowd[i]));
            placements::wearing_is_allowed(worn.allowed_entities, crowd[i]);
        }
    }
}

/// The effect has to do with what someone wears.
spec fn is_about_dress(effect: Effect) -> bool {
    effect is SendEquipment || effect is PlayEquipSound || effect is Equip
}

proof fn exchanges_are_not_about_dress(
    air: u16,
    slot: usize,
    stack: ItemStack,
    effects: Seq<Effect>,
    remainder: ItemStack,
    scene: Scene,
    k: int,
)
    requires
        forall|i: int| 0 <= i < effects.len() ==> !is_about_dress(#[trigger] effects[i]),
        ({
            let all = performance::exchange_deed(air, slot, stack, effects, remainder, scene);
            0 <= k < all.effects.len()
        }),
    ensures
        !is_about_dress(
            performance::exchange_deed(air, slot, stack, effects, remainder, scene).effects[k],
        ),
{
}

proof fn shears_are_not_about_dress(
    reg: &Registry,
    ctx: DispenseContext,
    stack: ItemStack,
    scene: Scene,
    k: int,
)
    requires
        0 <= k < performance::shears_deed(reg, ctx, stack, scene).effects.len(),
    ensures
        !is_about_dress(performance::shears_deed(reg, ctx, stack, scene).effects[k]),
{
}

proof fn only_dressing_is_about_dress(
    reg: &Registry,
    ctx: DispenseContext,
    slot: usize,
    stack: ItemStack,
    scene: Scene,
    k: int,
)
    requires
        ({
            let effects = performance::deed(reg, ctx, slot, stack, scene).effects;
            0 <= k < effects.len() && is_about_dress(effects[k])
        }),
    ensures
        ({
            let what = performance::deed(reg, ctx, slot, stack, scene);
            ||| what == performance::dressing_deed(ctx, stack, DispenseOutcome::Drop, scene)
            ||| what == performance::dressing_deed(ctx, stack, DispenseOutcome::Failure, scene)
        }),
{
    let air = reg.items.air;
    let target = geometry::target_of(ctx);
    let front = (scene.cell)(target);
    let what = performance::deed(reg, ctx, slot, stack, scene);
    match behavior::behavior_of(reg, stack) {
        Behavior::Ordinary => {},
        Behavior::MobHead { .. } => {},
        Behavior::Shears => {
            shears_are_not_about_dress(reg, ctx, stack, scene, k);
        },
        Behavior::EmptyBucket => {
            if let Some(filled) = (scene.picked_up)(target, ctx.facing) {
                let bucket = item::plain_stack(1, filled);
                exchanges_are_not_about_dress(air, slot, stack, seq![], bucket, scene, k);
            }
        },
        Behavior::GlassBottle => {
            if containers::is_full_hive(front) {
                let emptied = seq![containers::emptied_hive(target, front)];
                let honey = item::plain_stack(1, reg.items.honey_bottle);
                exchanges_are_not_about_dress(air, slot, stack, emptied, honey, scene, k);
            } else if what.effects.len() > 0 {
                let water = item::water_bottle_of(reg.items.potion, reg.water_potion);
                exchanges_are_not_about_dress(air, slot, stack, seq![], water, scene, k);
            }
        },
        _ => {
            assert(!is_about_dress(what.effects[k]));
        },
    }
}

proof fn closing_is_not_about_dress(
    ctx: DispenseContext,
    stack: ItemStack,
    outcome: DispenseOutcome,
    k: int,
)
    requires
        0 <= k < dispenser::closing_effects(ctx, stack, outcome).len(),
    ensures
        !is_about_dress(dispenser::closing_effects(ctx, stack, outcome)[k]),
{
}

/// Whoever an activation dresses lives, takes part in the game and may wear the item. It
/// is one item, the same as those in the stack in everything.
pub proof fn only_who_may_is_dressed(
    reg: &Registry,
    ctx: DispenseContext,
    slot: usize,
    stack: ItemStack,
    scene: Scene,
    k: int,
)
    requires
        scene.fits(),
    ensures
        ({
            let effects = promises::run(reg, ctx, slot, stack, scene).1;
            0 <= k < effects.len() ==> dresses_properly(ctx, stack, scene, effects[k])
        }),
{
    promises::run_is_the_deed(reg, ctx, slot, stack, scene);
    let what = performance::deed(reg, ctx, slot, stack, scene);
    let effects = promises::run(reg, ctx, slot, stack, scene).1;
    if 0 <= k < effects.len() && is_about_dress(effects[k]) {
        if k < what.effects.len() {
            assert(effects[k] == what.effects[k]);
            only_dressing_is_about_dress(reg, ctx, slot, stack, scene, k);
            dressing_is_proper(ctx, stack, DispenseOutcome::Drop, scene);
            dressing_is_proper(ctx, stack, DispenseOutcome::Failure, scene);
        } else {
            let closing = dispenser::closing_effects(ctx, what.item, what.outcome);
            assert(effects[k] == closing[k - what.effects.len()]);
            closing_is_not_about_dress(ctx, what.item, what.outcome, k - what.effects.len());
        }
    }
}

proof fn deeds_throw_out_only_containers(
    reg: &Registry,
    ctx: DispenseContext,
    slot: usize,
    stack: ItemStack,
    scene: Scene,
    k: int,
)
    requires
        ({
            let effects = performance::deed(reg, ctx, slot, stack, scene).effects;
            0 <= k < effects.len() && effects[k] is DropStack
        }),
    ensures
        behavior::behavior_of(reg, stack) is EmptyBucket || behavior::behavior_of(
            reg,
            stack,
        ) is GlassBottle,
        performance::deed(reg, ctx, slot, stack, scene).effects[k]->pickup_delay == 40,
{
}

proof fn closing_throws_out_the_item(
    ctx: DispenseContext,
    stack: ItemStack,
    outcome: DispenseOutcome,
    k: int,
)
    requires
        ({
            let closing = dispenser::closing_effects(ctx, stack, outcome);
            0 <= k < closing.len() && closing[k] is DropStack
        }),
    ensures
        k == 0,
        dispenser::closing_effects(ctx, stack, outcome)[0] == (Effect::DropStack {
            stack: promises::single(stack),
            pickup_delay: 40,
        }),
        dispenser::closing_effects(ctx, stack, outcome).len() == 4,
        dispenser::is_drop(outcome),
{
}

/// What an activation throws out can be picked up after forty ticks. Unless a container
/// was exchanged, it is one item of the stack, the same in everything, and nothing
/// else happens to the world.
pub proof fn what_is_thrown_out_is_unharmed(
    reg: &Registry,
    ctx: DispenseContext,
    slot: usize,
    stack: ItemStack,
    scene: Scene,
    k: int,
)
    requires
        scene.fits(),
        reg.distinct(),
    ensures
        ({
            let ended = promises::run(reg, ctx, slot, stack, scene);
            let effects = ended.1;
            0 <= k < effects.len() && effects[k] is DropStack ==> {
                let thrown = effects[k]->DropStack_stack;
                &&& effects[k]->pickup_delay == 40
                &&& stack.item != reg.items.bucket && stack.item != reg.items.glass_bottle ==> {
                    &&& k == 0
                    &&& effects.len() == 4
                    &&& thrown.item == stack.item
                    &&& thrown.potion_contents == stack.potion_contents
                    &&& thrown.components == stack.components
                    &&& stack.item_count > 0 ==> thrown.item_count == 1
                    &&& stack.item_count > 0 ==> ended.0.item.item_count == stack.item_count - 1
                    &&& ended.0.item.item == stack.item
                    &&& ended.0.item.potion_contents == stack.potion_contents
                    &&& ended.0.item.components == stack.components
                }
            }
        }),
{
    promises::run_is_the_deed(reg, ctx, slot, stack, scene);
    let what = performance::deed(reg, ctx, slot, stack, scene);
    let effects = promises::run(reg, ctx, slot, stack, scene).1;
    if 0 <= k < effects.len() && effects[k] is DropStack {
        if k < what.effects.len() {
            assert(effects[k] == what.effects[k]);
            deeds_throw_out_only_containers(reg, ctx, slot, stack, scene, k);
            assert(stack.item == reg.items.bucket || stack.item == reg.items.glass_bottle) by {
                behavior::each_item_has_its_own_behavior(reg, stack);
            }
        } else {
            let closing = dispenser::closing_effects(ctx, what.item, what.outcome);
            assert(effects[k] == closing[k - what.effects.len()]);
            closing_throws_out_the_item(ctx, what.item, what.outcome, k - what.effects.len());
            laws::unused_items_are_kept_or_thrown_out(reg, ctx, slot, stack, scene);
            assert(effects.len() == 4);
            assert(effects[0] == inventory::throwing(item::one_of(stack)));
        }
    }
}

} // verus!
