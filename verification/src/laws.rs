//! What holds of every activation.

use crate::behavior;
use crate::behavior::Behavior;
use crate::blocks;
use crate::chance;
use crate::containers;
use crate::dispenser;
use crate::equipment;
use crate::geometry;
use crate::geometry::DispenseContext;
use crate::inventory;
use crate::item;
use crate::item::ItemStack;
use crate::performance;
use crate::projectile;
use crate::protocol;
use crate::protocol::{Cell, Effect, NewState, Query, SlotContents, Spot, WorldEvent};
use crate::registry;
use crate::registry::Registry;
use crate::search;
use crate::tools;
use crate::turn;
use crate::turn::{DispenseOutcome, Phase};
use vstd::prelude::*;

verus! {

/// The answer is of the kind that the question calls for.
pub open spec fn answers(query: Query, reply: protocol::ReplyView) -> bool {
    match query {
        Query::Cell { .. } => reply is Cell,
        Query::Room { .. } => reply is Room,
        Query::PickUp { .. } => reply is Item,
        Query::Evaporates { .. }
        | Query::EmptyOut { .. }
        | Query::Ignite { .. }
        | Query::Pattern { .. }
        | Query::NothingWorn { .. }
        | Query::Power { .. } => reply is Flag,
        Query::Damage { .. } => reply is Stack,
        Query::Animals { .. } => reply is Animals,
        Query::Roll { .. } => reply is Count,
        Query::FreshUuid => reply is Uuid,
        Query::WaxedState { .. } => reply is State,
        Query::Equippable { .. } => reply is Equippable,
        Query::Wearers { .. } => reply is Wearers,
        Query::Slot { .. } => reply is Slot,
        Query::Properties { .. } => reply is Properties,
        Query::PickSlot { .. } => reply is Picked,
    }
}

/// An activation goes on exactly when it is given an answer of the kind it asked
/// for. Anything else leaves it as it is, and nothing moves one that has finished.
pub proof fn only_fitting_answers_count(
    reg: &Registry,
    s: dispenser::DispensingView,
    reply: protocol::ReplyView,
)
    ensures
        dispenser::response(reg, s, reply) is Some <==> dispenser::question(s) is Some && answers(
            dispenser::question(s)->0,
            reply,
        ),
        dispenser::response(reg, s, reply) is None ==> dispenser::answered(reg, s, reply) == (
            s,
            Seq::<Effect>::empty(),
        ),
{
}

/// What chance answers is of the kind that was asked for.
pub proof fn chance_answers_fit(query: Query, reply: protocol::ReplyView)
    requires
        chance::possible(query, reply),
    ensures
        answers(query, reply),
{
}

/// The effect belongs to the end of an activation.
pub open spec fn is_final_flourish(effect: Effect) -> bool {
    match effect {
        Effect::MarkDirty => true,
        Effect::SyncWorldEvent { event, .. } => event == WorldEvent::ParticlesShootSmoke,
        _ => false,
    }
}

/// The effect changes no other block than the one in front.
pub open spec fn keeps_to_the_front(ctx: DispenseContext, effect: Effect) -> bool {
    match effect {
        Effect::SetBlockState { position, .. } => position == geometry::target_of(ctx),
        Effect::PrimeTnt { position } => position == geometry::target_of(ctx),
        Effect::SetProperties { .. } => false,
        _ => true,
    }
}

/// The effect is one of those in the middle of an activation.
spec fn is_inner(ctx: DispenseContext, effect: Effect) -> bool {
    !is_final_flourish(effect) && keeps_to_the_front(ctx, effect)
}

spec fn all_inner(ctx: DispenseContext, effects: Seq<Effect>) -> bool {
    forall|i: int| 0 <= i < effects.len() ==> is_inner(ctx, #[trigger] effects[i])
}

proof fn exchange_is_inner(
    ctx: DispenseContext,
    air: u16,
    slot: usize,
    stack: ItemStack,
    effects: Seq<Effect>,
    remainder: ItemStack,
    scene: performance::Scene,
)
    requires
        all_inner(ctx, effects),
    ensures
        all_inner(
            ctx,
            performance::exchange_deed(air, slot, stack, effects, remainder, scene).effects,
        ),
{
    let more = inventory::stowing(air, slot as int, remainder, scene.slots);
    assert(is_inner(ctx, more));
}

proof fn shears_are_inner(
    reg: &Registry,
    ctx: DispenseContext,
    stack: ItemStack,
    scene: performance::Scene,
)
    ensures
        all_inner(ctx, performance::shears_deed(reg, ctx, stack, scene).effects),
{
}

proof fn dressing_is_inner(
    ctx: DispenseContext,
    stack: ItemStack,
    fallback: DispenseOutcome,
    scene: performance::Scene,
)
    ensures
        all_inner(ctx, performance::dressing_deed(ctx, stack, fallback, scene).effects),
{
}

proof fn deeds_are_inner(
    reg: &Registry,
    ctx: DispenseContext,
    slot: usize,
    stack: ItemStack,
    scene: performance::Scene,
)
    ensures
        all_inner(ctx, performance::deed(reg, ctx, slot, stack, scene).effects),
{
    let target = geometry::target_of(ctx);
    let front = (scene.cell)(target);
    let air = reg.items.air;
    match behavior::behavior_of(reg, stack) {
        Behavior::EmptyBucket => {
            if let Some(filled) = (scene.picked_up)(target, ctx.facing) {
                exchange_is_inner(
                    ctx,
                    air,
                    slot,
                    stack,
                    seq![],
                    item::plain_stack(1, filled),
                    scene,
                );
            }
        },
        Behavior::GlassBottle => {
            exchange_is_inner(
                ctx,
                air,
                slot,
                stack,
                seq![containers::emptied_hive(target, front)],
                item::plain_stack(1, reg.items.honey_bottle),
                scene,
            );
            exchange_is_inner(
                ctx,
                air,
                slot,
                stack,
                seq![],
                item::water_bottle_of(reg.items.potion, reg.water_potion),
                scene,
            );
        },
        Behavior::Shears => {
            shears_are_inner(reg, ctx, stack, scene);
        },
        Behavior::MobHead { .. } => {
            dressing_is_inner(ctx, stack, DispenseOutcome::Failure, scene);
        },
        Behavior::Ordinary => {
            dressing_is_inner(ctx, stack, DispenseOutcome::Drop, scene);
        },
        _ => {},
    }
}

/// Whatever is dispensed, an activation ends with its sound, one puff of smoke the
/// way the block faces and one note that the contents changed. Before that it
/// neither smokes nor notes anything, and the only block it changes is the one in
/// front of it.
pub proof fn every_activation_ends_alike(
    reg: &Registry,
    ctx: DispenseContext,
    slot: usize,
    stack: ItemStack,
    scene: performance::Scene,
)
    ensures
        ({
            let what = performance::deed(reg, ctx, slot, stack, scene);
            let all = performance::performance(ctx, what);
            &&& all.len() >= 3
            &&& all.skip(all.len() - 3) == dispenser::flourish(
                ctx,
                dispenser::sound_of(what.outcome),
            )
            &&& forall|i: int|
                0 <= i < all.len() - 3 ==> !is_final_flourish(#[trigger] all[i])
            &&& forall|i: int| 0 <= i < all.len() ==> keeps_to_the_front(ctx, #[trigger] all[i])
        }),
{
    deeds_are_inner(reg, ctx, slot, stack, scene);
    let what = performance::deed(reg, ctx, slot, stack, scene);
    let all = performance::performance(ctx, what);
    let closing = dispenser::closing_effects(ctx, what.item, what.outcome);
    assert(all.skip(all.len() - 3) =~= dispenser::flourish(
        ctx,
        dispenser::sound_of(what.outcome),
    ));
    assert forall|i: int| 0 <= i < all.len() implies keeps_to_the_front(ctx, #[trigger] all[i]) by {
        if i < what.effects.len() {
            assert(is_inner(ctx, what.effects[i]));
        } else {
            assert(all[i] == closing[i - what.effects.len()]);
        }
    }
    assert forall|i: int| 0 <= i < all.len() - 3 implies !is_final_flourish(#[trigger] all[i]) by {
        if i < what.effects.len() {
            assert(is_inner(ctx, what.effects[i]));
        } else {
            assert(all[i] == closing[i - what.effects.len()]);
        }
    }
}

/// An item that could not be put to use leaves the world alone. If that counts as
/// a failure the stack is untouched; otherwise exactly one item is thrown out.
pub proof fn unused_items_are_kept_or_thrown_out(
    reg: &Registry,
    ctx: DispenseContext,
    slot: usize,
    stack: ItemStack,
    scene: performance::Scene,
)
    ensures
        ({
            let what = performance::deed(reg, ctx, slot, stack, scene);
            let all = performance::performance(ctx, what);
            let thrown = seq![inventory::throwing(item::one_of(stack))];
            let fail = dispenser::flourish(ctx, WorldEvent::SoundDispenserFail);
            let dispense = dispenser::flourish(ctx, WorldEvent::SoundDispenserDispense);
            match what.outcome {
                DispenseOutcome::Success(_) => true,
                DispenseOutcome::Failure => performance::leftover(what) == stack && all == fail,
                DispenseOutcome::Drop => performance::leftover(what) == item::one_less(stack)
                    && all == thrown + dispense,
                DispenseOutcome::DropFailure => performance::leftover(what) == item::one_less(
                    stack,
                ) && all == thrown + fail,
            }
        }),
{
    let what = performance::deed(reg, ctx, slot, stack, scene);
    let all = performance::performance(ctx, what);
    if !(what.outcome is Success) {
        assert(what.effects =~= seq![]);
        assert(all =~= dispenser::closing_effects(ctx, stack, what.outcome));
    }
}

/// An item without a behavior of its own that a dispenser cannot put on anyone is
/// thrown out, one at a time.
pub proof fn ordinary_items_are_thrown_out(
    reg: &Registry,
    ctx: DispenseContext,
    slot: usize,
    stack: ItemStack,
    scene: performance::Scene,
)
    requires
        behavior::behavior_of(reg, stack) == Behavior::Ordinary,
        (scene.equippable)(stack) is None || !(scene.equippable)(stack)->0.dispensable,
    ensures
        ({
            let what = performance::deed(reg, ctx, slot, stack, scene);
            &&& performance::leftover(what) == item::one_less(stack)
            &&& performance::performance(ctx, what) == seq![
                inventory::throwing(item::one_of(stack)),
            ] + dispenser::flourish(ctx, WorldEvent::SoundDispenserDispense)
        }),
{
    unused_items_are_kept_or_thrown_out(reg, ctx, slot, stack, scene);
}

/// The behavior wears a tool down instead of using it up.
pub open spec fn is_tool(what: Behavior) -> bool {
    what is FlintAndSteel || what is Shears
}

/// An activation takes at most one item off the stack and adds none. What remains
/// is of the same kind, unless the last container was exchanged for the filled or
/// emptied one. Tools are left as the host wore them down; a filled bucket and a
/// water bottle leave one empty container.
pub proof fn at_most_one_item_is_used(
    reg: &Registry,
    ctx: DispenseContext,
    slot: usize,
    stack: ItemStack,
    scene: performance::Scene,
)
    ensures
        ({
            let kind = behavior::behavior_of(reg, stack);
            let what = performance::deed(reg, ctx, slot, stack, scene);
            let rest = performance::leftover(what);
            ||| rest == stack
            ||| rest == item::one_less(stack)
            ||| is_tool(kind) && what.outcome is Success && rest == (scene.worn_down)(stack, 1)
            ||| kind is FilledBucket && rest == item::plain_stack(1, reg.items.bucket)
            ||| kind is WaterBottle && rest == item::plain_stack(1, reg.items.glass_bottle)
            ||| (kind is EmptyBucket || kind is GlassBottle) && item::is_empty_stack(
                reg.items.air,
                item::one_less(stack),
            ) && rest.item_count == 1
        }),
{
}

/// What is in the slots after an activation that left `rest` in the slot it was
/// dispensed from.
pub open spec fn contents_after(
    slots: Seq<SlotContents>,
    slot: int,
    rest: ItemStack,
    effects: Seq<Effect>,
) -> Seq<SlotContents> {
    let others = inventory::slots_after(slots, effects);
    others.update(slot, SlotContents { stack: rest, ..others[slot] })
}

proof fn closing_throws_out_one_or_none(
    air: u16,
    ctx: DispenseContext,
    slots: Seq<SlotContents>,
    stack: ItemStack,
    outcome: DispenseOutcome,
)
    ensures
        ({
            let closing = dispenser::closing_effects(ctx, stack, outcome);
            &&& inventory::slots_after(slots, closing) == slots
            &&& inventory::thrown_out(air, closing) == (if dispenser::is_drop(outcome) {
                inventory::held(air, item::one_of(stack))
            } else {
                0
            })
        }),
{
    let flourish = dispenser::flourish(ctx, dispenser::sound_of(outcome));
    inventory::idle_effects_move_nothing(air, slots, flourish);
    if dispenser::is_drop(outcome) {
        let thrown = seq![inventory::throwing(item::one_of(stack))];
        reveal_with_fuel(inventory::slots_after, 2);
        reveal_with_fuel(inventory::thrown_out, 2);
        assert(thrown.drop_last() =~= seq![]);
        inventory::effects_add_up(air, slots, thrown, flourish);
    }
}

proof fn exchange_conserves(
    air: u16,
    ctx: DispenseContext,
    slot: usize,
    stack: ItemStack,
    effects: Seq<Effect>,
    remainder: ItemStack,
    scene: performance::Scene,
)
    requires
        scene.slots.len() <= usize::MAX,
        slot < scene.slots.len(),
        scene.slots[slot as int].stack == stack,
        !item::is_empty_stack(air, stack),
        remainder.item_count == 1,
        remainder.item != air,
        forall|i: int| 0 <= i < effects.len() ==> inventory::is_idle(#[trigger] effects[i]),
    ensures
        ({
            let what = performance::exchange_deed(air, slot, stack, effects, remainder, scene);
            let all = performance::performance(ctx, what);
            let after = contents_after(scene.slots, slot as int, performance::leftover(what), all);
            inventory::total(air, after) + inventory::thrown_out(air, all) == inventory::total(
                air,
                scene.slots,
            )
        }),
{
    let slots = scene.slots;
    let what = performance::exchange_deed(air, slot, stack, effects, remainder, scene);
    let rest = item::one_less(stack);
    closing_throws_out_one_or_none(
        air,
        ctx,
        inventory::slots_after(slots, what.effects),
        what.item,
        what.outcome,
    );
    inventory::effects_add_up(
        air,
        slots,
        what.effects,
        dispenser::closing_effects(ctx, what.item, what.outcome),
    );
    inventory::idle_effects_move_nothing(air, slots, effects);
    if !item::is_empty_stack(air, rest) {
        let more = seq![inventory::stowing(air, slot as int, remainder, slots)];
        assert(what.effects =~= effects + more);
        inventory::effects_add_up(air, slots, effects, more);
        inventory::stowing_conserves(air, slot as int, remainder, slots);
    }
    let others = inventory::slots_after(slots, what.effects);
    inventory::total_of_update(
        air,
        others,
        slot as int,
        SlotContents { stack: what.item, ..others[slot as int] },
    );
}

/// Buckets and glass bottles are exchanged one for one: whether a container is
/// filled or thrown out as it is, and wherever it goes, the slots and what was
/// thrown out hold together as many items as the slots did before.
pub proof fn exchanges_conserve(
    reg: &Registry,
    ctx: DispenseContext,
    slot: usize,
    stack: ItemStack,
    scene: performance::Scene,
)
    requires
        behavior::behavior_of(reg, stack) is EmptyBucket || behavior::behavior_of(
            reg,
            stack,
        ) is GlassBottle,
        scene.fits(),
        slot < scene.slots.len(),
        scene.slots[slot as int].stack == stack,
        !item::is_empty_stack(reg.items.air, stack),
        (scene.picked_up)(geometry::target_of(ctx), ctx.facing) != Some(reg.items.air),
        reg.items.honey_bottle != reg.items.air,
        reg.items.potion != reg.items.air,
    ensures
        ({
            let what = performance::deed(reg, ctx, slot, stack, scene);
            let all = performance::performance(ctx, what);
            let after = contents_after(scene.slots, slot as int, performance::leftover(what), all);
            inventory::total(reg.items.air, after) + inventory::thrown_out(reg.items.air, all)
                == inventory::total(reg.items.air, scene.slots)
        }),
{
    let air = reg.items.air;
    let target = geometry::target_of(ctx);
    let front = (scene.cell)(target);
    let what = performance::deed(reg, ctx, slot, stack, scene);
    if dispenser::is_drop(what.outcome) {
        let closing = dispenser::closing_effects(ctx, stack, what.outcome);
        closing_throws_out_one_or_none(air, ctx, scene.slots, stack, what.outcome);
        assert(performance::performance(ctx, what) =~= closing);
        inventory::total_of_update(
            air,
            scene.slots,
            slot as int,
            SlotContents { stack: item::one_less(stack), ..scene.slots[slot as int] },
        );
    } else if behavior::behavior_of(reg, stack) is EmptyBucket {
        let filled = item::plain_stack(1, (scene.picked_up)(target, ctx.facing)->0);
        exchange_conserves(air, ctx, slot, stack, seq![], filled, scene);
    } else if containers::is_full_hive(front) {
        let emptied = seq![containers::emptied_hive(target, front)];
        let honey = item::plain_stack(1, reg.items.honey_bottle);
        exchange_conserves(air, ctx, slot, stack, emptied, honey, scene);
    } else {
        let water = item::water_bottle_of(reg.items.potion, reg.water_potion);
        exchange_conserves(air, ctx, slot, stack, seq![], water, scene);
    }
}

/// The one with number `i` in front may wear the item and has nothing on there.
pub open spec fn can_be_dressed(
    ctx: DispenseContext,
    stack: ItemStack,
    scene: performance::Scene,
    i: int,
) -> bool {
    let worn = (scene.equippable)(stack);
    &&& worn is Some
    &&& equipment::eligible(worn->0.allowed_entities, scene.crowd(ctx, stack)[i])
    &&& (scene.nothing_worn)(i, worn->0.slot)
}

/// Number `i` is the first one in front who can be dressed.
pub open spec fn is_next_in_line(
    ctx: DispenseContext,
    stack: ItemStack,
    scene: performance::Scene,
    i: int,
) -> bool {
    &&& 0 <= i < scene.crowd(ctx, stack).len()
    &&& can_be_dressed(ctx, stack, scene, i)
    &&& forall|j: int| 0 <= j < i ==> !#[trigger] can_be_dressed(ctx, stack, scene, j)
}

/// Equipment goes to the first one in front who may wear it and has nothing on
/// there. If anyone can be dressed there is such a first one; if nobody can, nothing
/// is done. Players come last: one is dressed only if no other entity can be.
pub proof fn the_first_wearer_is_dressed(
    ctx: DispenseContext,
    stack: ItemStack,
    fallback: DispenseOutcome,
    scene: performance::Scene,
    i: int,
)
    requires
        (scene.equippable)(stack) is Some,
        (scene.equippable)(stack)->0.dispensable,
    ensures
        ({
            let worn = (scene.equippable)(stack)->0;
            let crowd = scene.crowd(ctx, stack);
            let others = (scene.entities)(geometry::target_of(ctx), scene.tag_for(stack)).len();
            let what = performance::dressing_deed(ctx, stack, fallback, scene);
            &&& is_next_in_line(ctx, stack, scene, i) ==> what == performance::done(
                item::one_less(stack),
                equipment::dressing(stack, worn.slot, worn.equip_sound, i as usize).effects,
            )
            &&& 0 <= i < crowd.len() && can_be_dressed(ctx, stack, scene, i) ==> exists|
                first: int,
            |
                first <= i && #[trigger] is_next_in_line(ctx, stack, scene, first)
            &&& (forall|k: int|
                0 <= k < crowd.len() ==> !#[trigger] can_be_dressed(ctx, stack, scene, k))
                ==> what == performance::left(stack, fallback)
            &&& is_next_in_line(ctx, stack, scene, i) && i >= others ==> forall|j: int|
                0 <= j < others ==> !#[trigger] can_be_dressed(ctx, stack, scene, j)
        }),
{
    let worn = (scene.equippable)(stack)->0;
    let crowd = scene.crowd(ctx, stack);
    let wanted = performance::dressable(worn.allowed_entities, worn.slot, crowd, scene);
    let len = crowd.len() as int;
    assert(forall|k: int| #[trigger] can_be_dressed(ctx, stack, scene, k) == wanted(k));
    search::first_index_none(len, wanted);
    if is_next_in_line(ctx, stack, scene, i) {
        assert forall|j: int| 0 <= j < i implies !#[trigger] wanted(j) by {
            assert(!can_be_dressed(ctx, stack, scene, j));
        }
        search::first_index_at(len, wanted, i);
    }
    match search::first_index(len, wanted) {
        Some(first) => {
            assert(search::is_first(len, wanted, first));
            assert forall|j: int| 0 <= j < first implies !#[trigger] can_be_dressed(
                ctx,
                stack,
                scene,
                j,
            ) by {
                assert(!wanted(j));
            }
            assert(is_next_in_line(ctx, stack, scene, first));
            assert(can_be_dressed(ctx, stack, scene, first));
        },
        None => {},
    }
}

/// A respawn anchor is charged one step at a time and never past its limit.
pub proof fn anchors_are_never_overcharged(
    reg: &Registry,
    ctx: DispenseContext,
    stack: ItemStack,
    front: Cell,
)
    ensures
        ({
            let step = blocks::charging(reg.blocks.respawn_anchor, ctx, stack, front);
            step.effects.len() > 0 ==> step.effects[0] == blocks::placing(
                ctx,
                NewState::Charges {
                    block: front.block,
                    state: front.state,
                    charges: (front.charges + 1) as u8,
                },
            ) && 0 < front.charges + 1 <= blocks::MAX_CHARGES && front.block
                == reg.blocks.respawn_anchor
        }),
{
}

/// A hive that was harvested holds no honey and cannot be harvested again until it
/// has filled up: shears turn to the entities in front, and a bottle is thrown out.
pub proof fn harvested_hives_are_spent(
    reg: &Registry,
    ctx: DispenseContext,
    slot: int,
    stack: ItemStack,
    hive: Cell,
)
    ensures
        ({
            let spent = Cell { honey_level: Some(0), ..hive };
            &&& containers::emptied_hive(geometry::target_of(ctx), hive)
                == (Effect::SetBlockState {
                position: geometry::target_of(ctx),
                state: NewState::HoneyLevel { block: hive.block, state: hive.state, level: 0 },
                notify: protocol::Notify::All,
            })
            &&& tools::harvesting(reg.items.honeycomb, ctx, stack, spent) == turn::asks(
                stack,
                Phase::Flock,
            )
            &&& containers::bottling(reg, ctx, slot, stack, spent) == turn::gives_up(
                stack,
                DispenseOutcome::DropFailure,
            )
        }),
{
}

/// A sheep gives one to three pieces of wool, of its own color, where it stands.
pub proof fn sheep_give_one_to_three_wool(
    reg: &Registry,
    s: dispenser::DispensingView,
    entity: usize,
    color: u8,
    reply: protocol::ReplyView,
)
    requires
        s.phase == (Phase::WoolRoll { entity, color }),
        chance::possible(dispenser::question(s)->0, reply),
    ensures
        dispenser::answered(reg, s, reply).1.len() == 1,
        exists|count: u8|
            1 <= count <= 3 && dispenser::answered(reg, s, reply).1[0] == (Effect::DropAt {
                spot: Spot::Entity(entity),
                stack: #[trigger] item::plain_stack(
                    count,
                    registry::wool_id(reg.wool, color),
                ),
            }),
{
    let count = reply->Count_0;
    assert(dispenser::answered(reg, s, reply).1[0] == (Effect::DropAt {
        spot: Spot::Entity(entity),
        stack: item::plain_stack(count, registry::wool_id(reg.wool, color)),
    }));
}

/// Potions are shot with a quarter more power than arrows and half the uncertainty.
pub proof fn potions_fly_harder_and_straighter()
    ensures
        4 * projectile::POTION_POWER == 5 * projectile::PROJECTILE_POWER,
        2 * projectile::POTION_UNCERTAINTY == projectile::PROJECTILE_UNCERTAINTY,
{
}

} // verus!
