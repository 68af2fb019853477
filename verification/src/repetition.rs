//! Activations one after the other.

use crate::behavior;
use crate::behavior::Behavior;
use crate::blocks;
use crate::containers;
use crate::geometry;
use crate::geometry::{BlockPos, DispenseContext};
use crate::inventory;
use crate::item;
use crate::item::ItemStack;
use crate::performance;
use crate::performance::Scene;
use crate::protocol::{Animal, Cell, Effect, EquipmentSlot, NewState};
use crate::registry;
use crate::registry::Registry;
use crate::search;
use crate::tools;
use crate::turn::DispenseOutcome;
use vstd::prelude::*;

verus! {

/// The scene in which an entity has something on.
pub open spec fn dressed(scene: Scene, entity: int, slot: EquipmentSlot) -> Scene {
    Scene {
        nothing_worn: |e: int, s: EquipmentSlot|
            !(e == entity && s == slot) && (scene.nothing_worn)(e, s),
        ..scene
    }
}

/// The scene in which an animal at a position has lost its wool.
pub open spec fn shorn(scene: Scene, position: BlockPos, entity: int) -> Scene {
    let flock = (scene.animals)(position);
    Scene {
        animals: |p: BlockPos|
            if p == position {
                flock.update(entity, Animal { sheared: true, ..flock[entity] })
            } else {
                (scene.animals)(p)
            },
        ..scene
    }
}

/// What a block is after it was changed to a state. A beehive with another honey
/// level and a respawn anchor with another charge are otherwise what they were.
pub open spec fn changed(scene: Scene, cell: Cell, state: NewState) -> Cell {
    let made = (scene.made)(state);
    match state {
        NewState::HoneyLevel { block, level, .. } => Cell {
            block,
            state: made.state,
            honey_level: Some(level),
            ..cell
        },
        NewState::Charges { block, charges, .. } => Cell {
            block,
            state: made.state,
            charges,
            ..cell
        },
        _ => made,
    }
}

/// The scene in which a block was changed to a state.
pub open spec fn rebuilt(scene: Scene, position: BlockPos, state: NewState) -> Scene {
    Scene {
        cell: |p: BlockPos|
            if p == position {
                changed(scene, (scene.cell)(p), state)
            } else {
                (scene.cell)(p)
            },
        ..scene
    }
}

/// The scene after effects on blocks and on whoever is at a position.
pub open spec fn scene_after(scene: Scene, position: BlockPos, effects: Seq<Effect>) -> Scene
    decreases effects.len(),
{
    if effects.len() == 0 {
        scene
    } else {
        let before = scene_after(scene, position, effects.drop_last());
        match effects.last() {
            Effect::Equip { entity, slot, .. } => dressed(before, entity as int, slot),
            Effect::SetSheared { entity } => shorn(before, position, entity as int),
            Effect::SetBlockState { position: at, state, .. } => rebuilt(before, at, state),
            _ => before,
        }
    }
}

/// The stack and the scene after `k` activations.
pub open spec fn repeated(
    reg: &Registry,
    ctx: DispenseContext,
    slot: usize,
    stack: ItemStack,
    scene: Scene,
    k: nat,
) -> (ItemStack, Scene)
    decreases k,
{
    if k == 0 {
        (stack, scene)
    } else {
        let what = performance::deed(reg, ctx, slot, stack, scene);
        repeated(
            reg,
            ctx,
            slot,
            performance::leftover(what),
            scene_after(scene, geometry::target_of(ctx), what.effects),
            (k - 1) as nat,
        )
    }
}

/// Each of `k` activations puts the item to use.
pub open spec fn all_succeed(
    reg: &Registry,
    ctx: DispenseContext,
    slot: usize,
    stack: ItemStack,
    scene: Scene,
    k: nat,
) -> bool
    decreases k,
{
    k == 0 || {
        let what = performance::deed(reg, ctx, slot, stack, scene);
        &&& what.outcome is Success
        &&& all_succeed(
            reg,
            ctx,
            slot,
            performance::leftover(what),
            scene_after(scene, geometry::target_of(ctx), what.effects),
            (k - 1) as nat,
        )
    }
}

/// How an attempt ends that can only dress someone and finds nobody: an ordinary item
/// is thrown out, a head that finishes no pattern is kept.
pub open spec fn undressed_outcome(
    reg: &Registry,
    ctx: DispenseContext,
    stack: ItemStack,
    scene: Scene,
) -> Option<DispenseOutcome> {
    let target = geometry::target_of(ctx);
    match behavior::behavior_of(reg, stack) {
        Behavior::Ordinary => Some(DispenseOutcome::Drop),
        Behavior::MobHead { summon } => if (scene.cell)(target).air && (scene.pattern)(
            summon,
            target,
        ) {
            None
        } else {
            Some(DispenseOutcome::Failure)
        },
        _ => None,
    }
}

/// How the item is worn does not depend on how many there are.
pub open spec fn worn_alike(scene: Scene, stack: ItemStack) -> bool {
    forall|count: int|
        (scene.equippable)(#[trigger] item::with_count(stack, count)) == (scene.equippable)(stack)
}

/// How many in front may wear the item and have nothing on there.
pub open spec fn number_to_dress(ctx: DispenseContext, stack: ItemStack, scene: Scene) -> nat {
    let worn = (scene.equippable)(stack)->0;
    let crowd = scene.crowd(ctx, stack);
    search::count(
        crowd.len() as int,
        performance::dressable(worn.allowed_entities, worn.slot, crowd, scene),
    )
}

proof fn dressing_dresses_one(
    reg: &Registry,
    ctx: DispenseContext,
    slot: usize,
    stack: ItemStack,
    scene: Scene,
)
    requires
        scene.fits(),
        undressed_outcome(reg, ctx, stack, scene) is Some,
        (scene.equippable)(stack) is Some,
        (scene.equippable)(stack)->0.dispensable,
        worn_alike(scene, stack),
        number_to_dress(ctx, stack, scene) > 0,
    ensures
        ({
            let what = performance::deed(reg, ctx, slot, stack, scene);
            let after = scene_after(scene, geometry::target_of(ctx), what.effects);
            let rest = item::one_less(stack);
            &&& what.outcome is Success
            &&& performance::leftover(what) == rest
            &&& after.fits()
            &&& undressed_outcome(reg, ctx, rest, after) == undressed_outcome(
                reg,
                ctx,
                stack,
                scene,
            )
            &&& (after.equippable)(rest) == (scene.equippable)(stack)
            &&& worn_alike(after, rest)
            &&& number_to_dress(ctx, stack, scene) == number_to_dress(ctx, rest, after) + 1
        }),
{
    let worn = (scene.equippable)(stack)->0;
    let crowd = scene.crowd(ctx, stack);
    let len = crowd.len() as int;
    let target = geometry::target_of(ctx);
    let wanted = performance::dressable(worn.allowed_entities, worn.slot, crowd, scene);
    let what = performance::deed(reg, ctx, slot, stack, scene);
    let rest = item::one_less(stack);
    search::count_none(len, wanted);
    search::first_index_none(len, wanted);
    let i = search::first_index(len, wanted)->0;
    assert(search::is_first(len, wanted, i));
    let effects = what.effects;
    assert(effects.len() == 3);
    reveal_with_fuel(scene_after, 4);
    let after = scene_after(scene, target, effects);
    assert(after == dressed(scene, i, worn.slot));
    assert((scene.equippable)(rest) == (scene.equippable)(stack));
    assert forall|count: int| (after.equippable)(#[trigger] item::with_count(rest, count)) == (
    after.equippable)(rest) by {
        assert(item::with_count(rest, count) == item::with_count(stack, count));
    }
    assert(behavior::behavior_of(reg, rest) == behavior::behavior_of(reg, stack));
    assert forall|position: BlockPos, tag: Option<u32>|
        (#[trigger] after.present(position, tag)).len() <= usize::MAX by {
        assert(after.present(position, tag) == scene.present(position, tag));
    }
    assert forall|position: BlockPos|
        (#[trigger] (after.animals)(position)).len() <= usize::MAX by {
        assert((after.animals)(position) == (scene.animals)(position));
    }
    assert(after.crowd(ctx, rest) == crowd);
    let remaining = performance::dressable(worn.allowed_entities, worn.slot, crowd, after);
    search::count_drops(len, wanted, remaining, i);
}

/// If `k` in front may wear the item and have nothing on there, exactly `k`
/// activations dress someone and they take `k` items. After that everyone has
/// something on, and the next attempt dresses nobody.
pub proof fn every_wearer_takes_one_item(
    reg: &Registry,
    ctx: DispenseContext,
    slot: usize,
    stack: ItemStack,
    scene: Scene,
    k: nat,
)
    requires
        scene.fits(),
        undressed_outcome(reg, ctx, stack, scene) is Some,
        (scene.equippable)(stack) is Some,
        (scene.equippable)(stack)->0.dispensable,
        worn_alike(scene, stack),
        number_to_dress(ctx, stack, scene) == k,
        stack.item_count >= k,
    ensures
        ({
            let end = repeated(reg, ctx, slot, stack, scene, k);
            &&& all_succeed(reg, ctx, slot, stack, scene, k)
            &&& end.0 == item::with_count(stack, stack.item_count - k)
            &&& number_to_dress(ctx, end.0, end.1) == 0
            &&& performance::deed(reg, ctx, slot, end.0, end.1) == performance::left(
                end.0,
                undressed_outcome(reg, ctx, stack, scene)->0,
            )
        }),
    decreases k,
{
    if k == 0 {
        let worn = (scene.equippable)(stack)->0;
        let crowd = scene.crowd(ctx, stack);
        let len = crowd.len() as int;
        let wanted = performance::dressable(worn.allowed_entities, worn.slot, crowd, scene);
        search::count_none(len, wanted);
        search::first_index_none(len, wanted);
        assert(item::with_count(stack, stack.item_count as int) == stack);
    } else {
        dressing_dresses_one(reg, ctx, slot, stack, scene);
        let what = performance::deed(reg, ctx, slot, stack, scene);
        let after = scene_after(scene, geometry::target_of(ctx), what.effects);
        let rest = item::one_less(stack);
        every_wearer_takes_one_item(reg, ctx, slot, rest, after, (k - 1) as nat);
    }
}

/// How many living sheep in front have their wool on.
pub open spec fn number_to_shear(ctx: DispenseContext, scene: Scene) -> nat {
    let flock = (scene.animals)(geometry::target_of(ctx));
    search::count(flock.len() as int, tools::shearable(flock))
}

/// Shears that were worn down are still shears.
pub open spec fn shears_last(reg: &Registry, scene: Scene) -> bool {
    forall|stack: ItemStack|
        behavior::behavior_of(reg, stack) is Shears ==> behavior::behavior_of(
            reg,
            #[trigger] (scene.worn_down)(stack, 1),
        ) is Shears
}

proof fn shearing_shears_one(
    reg: &Registry,
    ctx: DispenseContext,
    slot: usize,
    stack: ItemStack,
    scene: Scene,
)
    requires
        scene.fits(),
        behavior::behavior_of(reg, stack) is Shears,
        shears_last(reg, scene),
        !containers::is_full_hive((scene.cell)(geometry::target_of(ctx))),
        number_to_shear(ctx, scene) > 0,
    ensures
        ({
            let what = performance::deed(reg, ctx, slot, stack, scene);
            let after = scene_after(scene, geometry::target_of(ctx), what.effects);
            &&& what.outcome is Success
            &&& performance::leftover(what) == (scene.worn_down)(stack, 1)
            &&& after.fits()
            &&& after.cell == scene.cell
            &&& after.worn_down == scene.worn_down
            &&& number_to_shear(ctx, scene) == number_to_shear(ctx, after) + 1
        }),
{
    let target = geometry::target_of(ctx);
    let flock = (scene.animals)(target);
    let len = flock.len() as int;
    let wanted = tools::shearable(flock);
    let what = performance::deed(reg, ctx, slot, stack, scene);
    search::count_none(len, wanted);
    search::first_index_none(len, wanted);
    let i = search::first_index(len, wanted)->0;
    assert(search::is_first(len, wanted, i));
    assert((scene.animals)(target).len() <= usize::MAX);
    let effects = what.effects;
    assert(effects.len() == 3);
    reveal_with_fuel(scene_after, 4);
    let after = scene_after(scene, target, effects);
    assert(after == shorn(scene, target, i));
    assert forall|position: BlockPos|
        (#[trigger] (after.animals)(position)).len() <= usize::MAX by {
        assert((scene.animals)(position).len() <= usize::MAX);
    }
    assert forall|position: BlockPos, tag: Option<u32>|
        (#[trigger] after.present(position, tag)).len() <= usize::MAX by {
        assert(after.present(position, tag) == scene.present(position, tag));
    }
    let remaining = tools::shearable((after.animals)(target));
    search::count_drops(len, wanted, remaining, i);
}

/// If `k` living sheep in front have their wool on and no full hive stands there,
/// exactly `k` activations shear one, as long as the shears last. The next attempt
/// fails.
pub proof fn every_sheep_is_shorn_once(
    reg: &Registry,
    ctx: DispenseContext,
    slot: usize,
    stack: ItemStack,
    scene: Scene,
    k: nat,
)
    requires
        scene.fits(),
        behavior::behavior_of(reg, stack) is Shears,
        shears_last(reg, scene),
        !containers::is_full_hive((scene.cell)(geometry::target_of(ctx))),
        number_to_shear(ctx, scene) == k,
    ensures
        ({
            let end = repeated(reg, ctx, slot, stack, scene, k);
            &&& all_succeed(reg, ctx, slot, stack, scene, k)
            &&& number_to_shear(ctx, end.1) == 0
            &&& performance::deed(reg, ctx, slot, end.0, end.1) == performance::left(
                end.0,
                DispenseOutcome::Failure,
            )
        }),
    decreases k,
{
    if k == 0 {
        let flock = (scene.animals)(geometry::target_of(ctx));
        let len = flock.len() as int;
        search::count_none(len, tools::shearable(flock));
        search::first_index_none(len, tools::shearable(flock));
    } else {
        shearing_shears_one(reg, ctx, slot, stack, scene);
        let what = performance::deed(reg, ctx, slot, stack, scene);
        let after = scene_after(scene, geometry::target_of(ctx), what.effects);
        let rest = (scene.worn_down)(stack, 1);
        every_sheep_is_shorn_once(reg, ctx, slot, rest, after, (k - 1) as nat);
    }
}

proof fn charging_charges_one(
    reg: &Registry,
    ctx: DispenseContext,
    slot: usize,
    stack: ItemStack,
    scene: Scene,
)
    requires
        behavior::behavior_of(reg, stack) is Glowstone,
        (scene.cell)(geometry::target_of(ctx)).block == reg.blocks.respawn_anchor,
        (scene.cell)(geometry::target_of(ctx)).charges < blocks::MAX_CHARGES,
    ensures
        ({
            let target = geometry::target_of(ctx);
            let what = performance::deed(reg, ctx, slot, stack, scene);
            let after = scene_after(scene, target, what.effects);
            &&& what.outcome is Success
            &&& performance::leftover(what) == item::one_less(stack)
            &&& (after.cell)(target).block == reg.blocks.respawn_anchor
            &&& (after.cell)(target).charges == (scene.cell)(target).charges + 1
        }),
{
    let what = performance::deed(reg, ctx, slot, stack, scene);
    assert(what.effects.len() == 2);
    reveal_with_fuel(scene_after, 3);
}

/// A respawn anchor takes exactly as many pieces of glowstone as it lacks charges:
/// that many activations charge it, one piece each. Then it is full, and the next
/// attempt fails.
pub proof fn an_anchor_takes_what_it_lacks(
    reg: &Registry,
    ctx: DispenseContext,
    slot: usize,
    stack: ItemStack,
    scene: Scene,
    k: nat,
)
    requires
        behavior::behavior_of(reg, stack) is Glowstone,
        (scene.cell)(geometry::target_of(ctx)).block == reg.blocks.respawn_anchor,
        (scene.cell)(geometry::target_of(ctx)).charges + k == blocks::MAX_CHARGES,
        stack.item_count >= k,
    ensures
        ({
            let end = repeated(reg, ctx, slot, stack, scene, k);
            let anchor = (end.1.cell)(geometry::target_of(ctx));
            &&& all_succeed(reg, ctx, slot, stack, scene, k)
            &&& end.0 == item::with_count(stack, stack.item_count - k)
            &&& anchor.block == reg.blocks.respawn_anchor
            &&& anchor.charges == blocks::MAX_CHARGES
            &&& performance::deed(reg, ctx, slot, end.0, end.1) == performance::left(
                end.0,
                DispenseOutcome::Failure,
            )
        }),
    decreases k,
{
    if k == 0 {
        assert(item::with_count(stack, stack.item_count as int) == stack);
    } else {
        charging_charges_one(reg, ctx, slot, stack, scene);
        let what = performance::deed(reg, ctx, slot, stack, scene);
        let after = scene_after(scene, geometry::target_of(ctx), what.effects);
        let rest = item::one_less(stack);
        assert(behavior::behavior_of(reg, rest) == behavior::behavior_of(reg, stack));
        an_anchor_takes_what_it_lacks(reg, ctx, slot, rest, after, (k - 1) as nat);
    }
}

/// The effect sets the honey level of a hive.
pub open spec fn sets_honey(effect: Effect) -> bool {
    effect is SetBlockState && effect->SetBlockState_state is HoneyLevel
}

/// The effects harvest a hive.
pub open spec fn harvests_hive(effects: Seq<Effect>) -> bool {
    exists|i: int| 0 <= i < effects.len() && sets_honey(#[trigger] effects[i])
}

/// How many of `k` activations harvest a hive.
pub open spec fn harvests(
    reg: &Registry,
    ctx: DispenseContext,
    slot: usize,
    stack: ItemStack,
    scene: Scene,
    k: nat,
) -> nat
    decreases k,
{
    if k == 0 {
        0
    } else {
        let what = performance::deed(reg, ctx, slot, stack, scene);
        let more = harvests(
            reg,
            ctx,
            slot,
            performance::leftover(what),
            scene_after(scene, geometry::target_of(ctx), what.effects),
            (k - 1) as nat,
        );
        if harvests_hive(what.effects) {
            more + 1
        } else {
            more
        }
    }
}

/// How many items of a kind the effects leave lying somewhere.
pub open spec fn left_lying(id: u16, effects: Seq<Effect>) -> nat
    decreases effects.len(),
{
    if effects.len() == 0 {
        0
    } else {
        left_lying(id, effects.drop_last()) + match effects.last() {
            Effect::DropAt { stack, .. } if stack.item == id => stack.item_count as nat,
            _ => 0,
        }
    }
}

/// How many items of a kind `k` activations leave lying somewhere.
pub open spec fn yielded(
    reg: &Registry,
    ctx: DispenseContext,
    slot: usize,
    stack: ItemStack,
    scene: Scene,
    id: u16,
    k: nat,
) -> nat
    decreases k,
{
    if k == 0 {
        0
    } else {
        let what = performance::deed(reg, ctx, slot, stack, scene);
        left_lying(id, what.effects) + yielded(
            reg,
            ctx,
            slot,
            performance::leftover(what),
            scene_after(scene, geometry::target_of(ctx), what.effects),
            id,
            (k - 1) as nat,
        )
    }
}

/// The stack can be used on hives for `k` activations: shears that last, or more
/// than `k` glass bottles.
pub open spec fn lasts_at_hives(
    reg: &Registry,
    stack: ItemStack,
    scene: Scene,
    k: nat,
) -> bool {
    ||| behavior::behavior_of(reg, stack) is Shears && shears_last(reg, scene)
    ||| behavior::behavior_of(reg, stack) is GlassBottle && stack.item_count > k && stack.item
        != reg.items.air
}

/// The block is a hive without enough honey.
pub open spec fn is_spent_hive(cell: Cell) -> bool {
    cell.honey_level is Some && cell.honey_level->0 < containers::FULL_HONEY_LEVEL
}

/// An attempt at a spent hive leaves it as it is.
proof fn spent_hives_stay_spent(
    reg: &Registry,
    ctx: DispenseContext,
    slot: usize,
    stack: ItemStack,
    scene: Scene,
    k: nat,
)
    requires
        k > 0,
        lasts_at_hives(reg, stack, scene, k),
        is_spent_hive((scene.cell)(geometry::target_of(ctx))),
    ensures
        ({
            let what = performance::deed(reg, ctx, slot, stack, scene);
            let after = scene_after(scene, geometry::target_of(ctx), what.effects);
            let rest = performance::leftover(what);
            &&& !harvests_hive(what.effects)
            &&& after.cell == scene.cell
            &&& lasts_at_hives(reg, rest, after, (k - 1) as nat)
            &&& behavior::behavior_of(reg, rest) == behavior::behavior_of(reg, stack)
            &&& reg.distinct() ==> left_lying(reg.items.honeycomb, what.effects) == 0
        }),
{
    let target = geometry::target_of(ctx);
    let what = performance::deed(reg, ctx, slot, stack, scene);
    let rest = performance::leftover(what);
    reveal_with_fuel(scene_after, 4);
    reveal_with_fuel(left_lying, 4);
    if behavior::behavior_of(reg, stack) is GlassBottle {
        assert(what == performance::left(stack, DispenseOutcome::DropFailure));
        assert(behavior::behavior_of(reg, rest) == behavior::behavior_of(reg, stack));
    } else {
        let flock = (scene.animals)(target);
        let wanted = tools::shearable(flock);
        match search::first_index(flock.len() as int, wanted) {
            Some(i) => {
                assert(what.effects.len() == 3);
                registry::items_have_numbers(reg.items);
                assert(reg.items.ids().contains(reg.items.honeycomb)) by {
                    assert(reg.items.ids()[21] == reg.items.honeycomb);
                }
            },
            None => {
                assert(what.effects =~= seq![]);
            },
        }
    }
}

/// A full hive that is harvested is spent.
proof fn harvesting_spends_the_hive(
    reg: &Registry,
    ctx: DispenseContext,
    slot: usize,
    stack: ItemStack,
    scene: Scene,
    k: nat,
)
    requires
        k > 0,
        lasts_at_hives(reg, stack, scene, k),
        containers::is_full_hive((scene.cell)(geometry::target_of(ctx))),
    ensures
        ({
            let target = geometry::target_of(ctx);
            let what = performance::deed(reg, ctx, slot, stack, scene);
            let after = scene_after(scene, target, what.effects);
            let rest = performance::leftover(what);
            &&& what.outcome is Success
            &&& harvests_hive(what.effects)
            &&& is_spent_hive((after.cell)(target))
            &&& lasts_at_hives(reg, rest, after, (k - 1) as nat)
            &&& behavior::behavior_of(reg, stack) is Shears ==> behavior::behavior_of(
                reg,
                rest,
            ) is Shears && left_lying(reg.items.honeycomb, what.effects)
                == tools::HARVESTED_HONEYCOMBS
        }),
{
    let target = geometry::target_of(ctx);
    let front = (scene.cell)(target);
    let what = performance::deed(reg, ctx, slot, stack, scene);
    let rest = performance::leftover(what);
    reveal_with_fuel(scene_after, 4);
    reveal_with_fuel(left_lying, 4);
    if behavior::behavior_of(reg, stack) is GlassBottle {
        let honey = item::plain_stack(1, reg.items.honey_bottle);
        let stowed = inventory::stowing(reg.items.air, slot as int, honey, scene.slots);
        assert(what.effects =~= seq![containers::emptied_hive(target, front), stowed]);
        assert(sets_honey(what.effects[0]));
        assert(behavior::behavior_of(reg, rest) == behavior::behavior_of(reg, stack));
    } else {
        assert(what.effects.len() == 3);
        assert(sets_honey(what.effects[2]));
    }
}

proof fn spent_hives_are_not_harvested(
    reg: &Registry,
    ctx: DispenseContext,
    slot: usize,
    stack: ItemStack,
    scene: Scene,
    k: nat,
)
    requires
        lasts_at_hives(reg, stack, scene, k),
        is_spent_hive((scene.cell)(geometry::target_of(ctx))),
    ensures
        harvests(reg, ctx, slot, stack, scene, k) == 0,
        reg.distinct() ==> yielded(reg, ctx, slot, stack, scene, reg.items.honeycomb, k) == 0,
    decreases k,
{
    if k > 0 {
        spent_hives_stay_spent(reg, ctx, slot, stack, scene, k);
        let what = performance::deed(reg, ctx, slot, stack, scene);
        let after = scene_after(scene, geometry::target_of(ctx), what.effects);
        let rest = performance::leftover(what);
        spent_hives_are_not_harvested(reg, ctx, slot, rest, after, (k - 1) as nat);
    }
}

/// A full hive is harvested once: however many activations use shears or glass
/// bottles on it, the first one harvests it and no other does. Shears get three
/// honeycombs out of it in all, where no id stands for two things.
pub proof fn a_full_hive_is_harvested_once(
    reg: &Registry,
    ctx: DispenseContext,
    slot: usize,
    stack: ItemStack,
    scene: Scene,
    k: nat,
)
    requires
        k > 0,
        lasts_at_hives(reg, stack, scene, k),
        containers::is_full_hive((scene.cell)(geometry::target_of(ctx))),
    ensures
        harvests_hive(performance::deed(reg, ctx, slot, stack, scene).effects),
        harvests(reg, ctx, slot, stack, scene, k) == 1,
        behavior::behavior_of(reg, stack) is Shears && reg.distinct() ==> yielded(
            reg,
            ctx,
            slot,
            stack,
            scene,
            reg.items.honeycomb,
            k,
        ) == tools::HARVESTED_HONEYCOMBS,
{
    harvesting_spends_the_hive(reg, ctx, slot, stack, scene, k);
    let what = performance::deed(reg, ctx, slot, stack, scene);
    let after = scene_after(scene, geometry::target_of(ctx), what.effects);
    let rest = performance::leftover(what);
    spent_hives_are_not_harvested(reg, ctx, slot, rest, after, (k - 1) as nat);
}

} // verus!
