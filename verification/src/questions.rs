//! What an activation asks, in which order and about what.

use crate::behavior;
use crate::behavior::Behavior;
use crate::containers;
use crate::dispenser;
use crate::equipment;
use crate::geometry;
use crate::geometry::{BlockPos, DispenseContext};
use crate::inventory;
use crate::item;
use crate::item::ItemStack;
use crate::performance;
use crate::performance::Scene;
use crate::protocol;
use crate::protocol::{EquipmentSlot, Notify, Picked, Query, SlotContents, Summon, Wearer};
use crate::redstone;
use crate::registry;
use crate::registry::Registry;
use crate::search;
use crate::tools;
use crate::turn::{DispenseOutcome, Phase};
use crate::vehicles;
use vstd::prelude::*;

verus! {

/// The questions of an activation, in order, up to `n` of them.
pub open spec fn transcript(
    reg: &Registry,
    scene: Scene,
    s: dispenser::DispensingView,
    n: nat,
) -> Seq<Query>
    decreases n,
{
    match dispenser::question(s) {
        Some(query) if n > 0 => seq![query] + transcript(
            reg,
            scene,
            performance::next_of(reg, scene, s).0,
            (n - 1) as nat,
        ),
        _ => seq![],
    }
}

/// A boat asks for the block in front, for the one underneath if that is air without
/// water, and for room where water was found.
pub open spec fn boat_agenda(
    reg: &Registry,
    ctx: DispenseContext,
    entity_type: u16,
    scene: Scene,
) -> Seq<Query> {
    let front = geometry::target_of(ctx);
    let under = geometry::below(front);
    let wet = |position: BlockPos|
        registry::is_water_id(reg.fluids, (scene.cell)(position).fluid);
    let look = Query::Cell { position: front };
    let look_under = Query::Cell { position: under };
    if wet(front) {
        seq![look, Query::Room { position: front, entity_type }]
    } else if !(scene.cell)(front).air {
        seq![look]
    } else if wet(under) {
        seq![look, look_under, Query::Room { position: under, entity_type }]
    } else {
        seq![look, look_under]
    }
}

/// The slots are asked for one by one, without the own one, up to the first that
/// takes the remainder or that the dispenser does not have.
pub open spec fn slots_tried(
    air: u16,
    slot: int,
    remainder: ItemStack,
    slots: Seq<SlotContents>,
    from: int,
) -> Seq<Query>
    decreases usize::MAX + 1 - from,
{
    let index = inventory::next_slot(slot, from);
    let query = Query::Slot { index: index as usize };
    if index > usize::MAX {
        seq![]
    } else if index < slots.len() && !inventory::takes(air, remainder, slots[index]) {
        seq![query] + slots_tried(air, slot, remainder, slots, index + 1)
    } else {
        seq![query]
    }
}

/// An exchange asks for other slots unless the last item was used up.
pub open spec fn exchange_agenda(
    air: u16,
    slot: usize,
    stack: ItemStack,
    remainder: ItemStack,
    scene: Scene,
) -> Seq<Query> {
    if item::is_empty_stack(air, item::one_less(stack)) {
        seq![]
    } else {
        slots_tried(air, slot as int, remainder, scene.slots, 0)
    }
}

/// Those who may wear the item are asked for what they have on, one by one, up to
/// the first who has nothing on.
pub open spec fn wearers_tried(
    allowed: Option<protocol::EntitySetView>,
    slot: EquipmentSlot,
    crowd: Seq<Wearer>,
    scene: Scene,
    from: int,
) -> Seq<Query>
    decreases crowd.len() - from,
{
    let query = Query::NothingWorn { entity: from as usize, slot };
    if from >= crowd.len() {
        seq![]
    } else if !equipment::eligible(allowed, crowd[from]) {
        wearers_tried(allowed, slot, crowd, scene, from + 1)
    } else if (scene.nothing_worn)(from, slot) {
        seq![query]
    } else {
        seq![query] + wearers_tried(allowed, slot, crowd, scene, from + 1)
    }
}

/// Equipment asks how it is worn, who is in front, and then those who may wear it.
pub open spec fn dressing_agenda(
    ctx: DispenseContext,
    stack: ItemStack,
    scene: Scene,
) -> Seq<Query> {
    let fit = seq![Query::Equippable { stack }];
    match (scene.equippable)(stack) {
        Some(worn) if worn.dispensable => fit.push(
            Query::Wearers { position: geometry::target_of(ctx), tag: scene.tag_for(stack) },
        ) + wearers_tried(
            worn.allowed_entities,
            worn.slot,
            scene.crowd(ctx, stack),
            scene,
            0,
        ),
        _ => fit,
    }
}

/// Shears ask for the block in front, for the entities there unless it is a full
/// hive, for the amount of wool if there is a sheep to shear, and for what is left of
/// them if they were of use.
pub open spec fn shears_agenda(
    ctx: DispenseContext,
    stack: ItemStack,
    scene: Scene,
) -> Seq<Query> {
    let target = geometry::target_of(ctx);
    let look = Query::Cell { position: target };
    let flock = (scene.animals)(target);
    let wear = Query::Damage { stack, amount: 1 };
    if containers::is_full_hive((scene.cell)(target)) {
        seq![look, wear]
    } else if search::first_index(flock.len() as int, tools::shearable(flock)) is Some {
        seq![look, Query::Animals { position: target }, Query::Roll { low: 1, high: 3 }, wear]
    } else {
        seq![look, Query::Animals { position: target }]
    }
}

/// What an activation asks in a scene.
pub open spec fn agenda(
    reg: &Registry,
    ctx: DispenseContext,
    slot: usize,
    stack: ItemStack,
    scene: Scene,
) -> Seq<Query> {
    let air = reg.items.air;
    let target = geometry::target_of(ctx);
    let front = (scene.cell)(target);
    let look = Query::Cell { position: target };
    let look_under = Query::Cell { position: geometry::below(target) };
    let wear = Query::Damage { stack, amount: 1 };
    match behavior::behavior_of(reg, stack) {
        Behavior::Projectile | Behavior::Tnt | Behavior::BoneMeal => seq![],
        Behavior::Boat { entity_type } => boat_agenda(reg, ctx, entity_type, scene),
        Behavior::Minecart { .. } => if vehicles::ascends(front) is None && front.air {
            seq![look, look_under]
        } else {
            seq![look]
        },
        Behavior::ArmorStand => seq![
            Query::Room { position: target, entity_type: reg.armor_stand_entity },
        ],
        Behavior::SpawnEgg { .. } => seq![Query::FreshUuid],
        Behavior::EmptyBucket => {
            let scoop = seq![Query::PickUp { position: target, facing: ctx.facing }];
            match (scene.picked_up)(target, ctx.facing) {
                Some(filled) => scoop + exchange_agenda(
                    air,
                    slot,
                    stack,
                    item::plain_stack(1, filled),
                    scene,
                ),
                None => scoop,
            }
        },
        Behavior::FilledBucket => {
            let boil = Query::Evaporates { item: stack.item };
            if (scene.evaporates)(stack.item) {
                seq![boil]
            } else {
                seq![
                    boil,
                    Query::EmptyOut {
                        item: stack.item,
                        position: ctx.position,
                        facing: ctx.facing,
                    },
                ]
            }
        },
        Behavior::FlintAndSteel => if front.block == reg.blocks.tnt {
            seq![look, wear]
        } else if (scene.ignited)(target, Notify::All) {
            seq![look, Query::Ignite { position: target, notify: Notify::All }, wear]
        } else {
            seq![look, Query::Ignite { position: target, notify: Notify::All }]
        },
        Behavior::Shears => shears_agenda(ctx, stack, scene),
        Behavior::GlassBottle => if containers::is_full_hive(front) {
            seq![look] + exchange_agenda(
                air,
                slot,
                stack,
                item::plain_stack(1, reg.items.honey_bottle),
                scene,
            )
        } else if front.honey_level is None && registry::is_water_id(reg.fluids, front.fluid) {
            seq![look] + exchange_agenda(
                air,
                slot,
                stack,
                item::water_bottle_of(reg.items.potion, reg.water_potion),
                scene,
            )
        } else {
            seq![look]
        },
        Behavior::WaterBottle | Behavior::Glowstone => seq![look],
        Behavior::Honeycomb => seq![
            look,
            Query::WaxedState { block: front.block, state: front.state },
        ],
        Behavior::MobHead { summon } => {
            let pattern = Query::Pattern { summon, position: target };
            if !front.air {
                seq![look] + dressing_agenda(ctx, stack, scene)
            } else if (scene.pattern)(summon, target) {
                seq![look, pattern]
            } else {
                seq![look, pattern] + dressing_agenda(ctx, stack, scene)
            }
        },
        Behavior::ShulkerBox { .. } => if front.replaceable {
            seq![look, look_under]
        } else {
            seq![look]
        },
        Behavior::Ordinary => dressing_agenda(ctx, stack, scene),
    }
}

/// One question of a transcript.
proof fn one_question(reg: &Registry, scene: Scene, s: dispenser::DispensingView, n: nat)
    ensures
        n > 0 && dispenser::question(s) is Some ==> transcript(reg, scene, s, n) == seq![
            dispenser::question(s)->0,
        ] + transcript(reg, scene, performance::next_of(reg, scene, s).0, (n - 1) as nat),
        dispenser::question(s) is None ==> transcript(reg, scene, s, n) == Seq::<Query>::empty(),
{
}

/// A chain of up to four questions, each followed by the rest of the transcript.
proof fn chained(asked: Seq<Option<Query>>, rests: Seq<Seq<Query>>)
    requires
        asked.len() == 4,
        rests.len() == 5,
        rests[0] == after_question(asked[0], rests[1]),
        rests[1] == after_question(asked[1], rests[2]),
        rests[2] == after_question(asked[2], rests[3]),
        rests[3] == after_question(asked[3], rests[4]),
    ensures
        asked[0] is None ==> rests[0] == Seq::<Query>::empty(),
        asked[0] is Some && asked[1] is None ==> rests[0] == seq![asked[0]->0],
        asked[0] is Some && asked[1] is Some && asked[2] is None ==> rests[0] == seq![
            asked[0]->0,
            asked[1]->0,
        ],
        asked[0] is Some && asked[1] is Some && asked[2] is Some && asked[3] is None ==> rests[0]
            == seq![asked[0]->0, asked[1]->0, asked[2]->0],
        asked[0] is Some && asked[1] is Some && asked[2] is Some && asked[3] is Some ==> rests[0]
            == seq![asked[0]->0, asked[1]->0, asked[2]->0, asked[3]->0] + rests[4],
{
}

/// The question, if there is one, and what comes after it.
spec fn after_question(asked: Option<Query>, rest: Seq<Query>) -> Seq<Query> {
    match asked {
        Some(query) => seq![query] + rest,
        None => seq![],
    }
}

/// Up to four questions of a transcript.
proof fn four_questions(reg: &Registry, scene: Scene, s: dispenser::DispensingView, n: nat)
    requires
        n >= 4,
    ensures
        ({
            let one = performance::next_of(reg, scene, s).0;
            let two = performance::next_of(reg, scene, one).0;
            let three = performance::next_of(reg, scene, two).0;
            let four = performance::next_of(reg, scene, three).0;
            let all = transcript(reg, scene, s, n);
            let (a, b, c, d) = (
                dispenser::question(s),
                dispenser::question(one),
                dispenser::question(two),
                dispenser::question(three),
            );
            &&& a is None ==> all == Seq::<Query>::empty()
            &&& a is Some && b is None ==> all == seq![a->0]
            &&& a is Some && b is Some && c is None ==> all == seq![a->0, b->0]
            &&& a is Some && b is Some && c is Some && d is None ==> all == seq![
                a->0,
                b->0,
                c->0,
            ]
            &&& a is Some && b is Some && c is Some && d is Some ==> all == seq![
                a->0,
                b->0,
                c->0,
                d->0,
            ] + transcript(reg, scene, four, (n - 4) as nat)
        }),
{
    let one = performance::next_of(reg, scene, s).0;
    let two = performance::next_of(reg, scene, one).0;
    let three = performance::next_of(reg, scene, two).0;
    let four = performance::next_of(reg, scene, three).0;
    one_question(reg, scene, s, n);
    one_question(reg, scene, one, (n - 1) as nat);
    one_question(reg, scene, two, (n - 2) as nat);
    one_question(reg, scene, three, (n - 3) as nat);
    chained(
        seq![
            dispenser::question(s),
            dispenser::question(one),
            dispenser::question(two),
            dispenser::question(three),
        ],
        seq![
            transcript(reg, scene, s, n),
            transcript(reg, scene, one, (n - 1) as nat),
            transcript(reg, scene, two, (n - 2) as nat),
            transcript(reg, scene, three, (n - 3) as nat),
            transcript(reg, scene, four, (n - 4) as nat),
        ],
    );
}

/// Those who may not wear the item are not asked.
proof fn others_are_passed_over(
    allowed: Option<protocol::EntitySetView>,
    slot: EquipmentSlot,
    crowd: Seq<Wearer>,
    scene: Scene,
    from: int,
    to: int,
)
    requires
        0 <= from <= to <= crowd.len(),
        forall|j: int| from <= j < to ==> !equipment::eligible(allowed, #[trigger] crowd[j]),
    ensures
        wearers_tried(allowed, slot, crowd, scene, from) == wearers_tried(
            allowed,
            slot,
            crowd,
            scene,
            to,
        ),
    decreases to - from,
{
    if from < to {
        assert(!equipment::eligible(allowed, crowd[from]));
        others_are_passed_over(allowed, slot, crowd, scene, from + 1, to);
    }
}

proof fn wearers_are_asked(
    reg: &Registry,
    scene: Scene,
    s: dispenser::DispensingView,
    fallback: DispenseOutcome,
    slot: EquipmentSlot,
    sound: u32,
    from: int,
    n: nat,
)
    requires
        s.crowd.len() <= usize::MAX,
        0 <= from <= s.crowd.len(),
        n >= s.crowd.len() - from,
    ensures
        ({
            let go_on = dispenser::settled(
                s,
                equipment::choosing(s.item, fallback, slot, sound, s.allowed, s.crowd, from),
            );
            transcript(reg, scene, go_on.0, n) == wearers_tried(
                s.allowed,
                slot,
                s.crowd,
                scene,
                from,
            )
        }),
    decreases s.crowd.len() - from,
{
    let next = equipment::eligible_from(s.allowed, s.crowd, from);
    let len = s.crowd.len() as int;
    search::first_index_none(len, next);
    let choice = equipment::choosing(s.item, fallback, slot, sound, s.allowed, s.crowd, from);
    let go_on = dispenser::settled(s, choice).0;
    one_question(reg, scene, go_on, n);
    match search::first_index(len, next) {
        Some(i) => {
            assert(search::is_first(len, next, i));
            assert forall|j: int| from <= j < i implies !equipment::eligible(
                s.allowed,
                #[trigger] s.crowd[j],
            ) by {
                assert(!next(j));
            }
            others_are_passed_over(s.allowed, slot, s.crowd, scene, from, i);
            let after = performance::next_of(reg, scene, go_on).0;
            one_question(reg, scene, after, (n - 1) as nat);
            if (scene.nothing_worn)(i, slot) {
                assert(after.phase == Phase::Finished);
                assert(transcript(reg, scene, go_on, n) =~= seq![
                    Query::NothingWorn { entity: i as usize, slot },
                ]);
            } else {
                wearers_are_asked(
                    reg,
                    scene,
                    s,
                    fallback,
                    slot,
                    sound,
                    i + 1,
                    (n - 1) as nat,
                );
                let again = dispenser::settled(
                    s,
                    equipment::choosing(
                        s.item,
                        fallback,
                        slot,
                        sound,
                        s.allowed,
                        s.crowd,
                        i + 1,
                    ),
                );
                assert(after =~= again.0);
            }
        },
        None => {
            assert forall|j: int| from <= j < len implies !equipment::eligible(
                s.allowed,
                #[trigger] s.crowd[j],
            ) by {
                assert(!next(j));
            }
            others_are_passed_over(s.allowed, slot, s.crowd, scene, from, len);
        },
    }
}

proof fn dressing_is_asked(
    reg: &Registry,
    scene: Scene,
    s: dispenser::DispensingView,
    fallback: DispenseOutcome,
    n: nat,
)
    requires
        scene.fits(),
        s.phase == (Phase::Fitting { fallback }),
        n >= 2 + scene.crowd(s.ctx, s.item).len(),
    ensures
        transcript(reg, scene, s, n) == dressing_agenda(s.ctx, s.item, scene),
{
    let worn = (scene.equippable)(s.item);
    let one = performance::next_of(reg, scene, s).0;
    let two = performance::next_of(reg, scene, one).0;
    one_question(reg, scene, s, n);
    one_question(reg, scene, one, (n - 1) as nat);
    if worn is Some && worn->0.dispensable {
        let informed = dispenser::DispensingView { crowd: scene.crowd(s.ctx, s.item), ..one };
        wearers_are_asked(
            reg,
            scene,
            informed,
            fallback,
            worn->0.slot,
            worn->0.equip_sound,
            0,
            (n - 2) as nat,
        );
    }
    assert(transcript(reg, scene, s, n) =~= dressing_agenda(s.ctx, s.item, scene));
}

proof fn slots_are_asked(
    reg: &Registry,
    scene: Scene,
    s: dispenser::DispensingView,
    remainder: ItemStack,
    from: int,
    n: nat,
)
    requires
        scene.slots.len() <= usize::MAX,
        0 <= from <= scene.slots.len(),
        n >= scene.slots.len() - from + 1,
    ensures
        transcript(
            reg,
            scene,
            dispenser::settled(
                s,
                inventory::seeking(s.slot as int, s.item, remainder, from),
            ).0,
            n,
        ) == slots_tried(reg.items.air, s.slot as int, remainder, scene.slots, from),
    decreases scene.slots.len() - from,
{
    let slot = s.slot as int;
    let slots = scene.slots;
    let index = inventory::next_slot(slot, from);
    let go_on = dispenser::settled(s, inventory::seeking(slot, s.item, remainder, from)).0;
    one_question(reg, scene, go_on, n);
    if index <= usize::MAX {
        let after = performance::next_of(reg, scene, go_on).0;
        one_question(reg, scene, after, (n - 1) as nat);
        if index < slots.len() && !inventory::takes(reg.items.air, remainder, slots[index]) {
            slots_are_asked(reg, scene, s, remainder, index + 1, (n - 1) as nat);
            let again = dispenser::settled(
                s,
                inventory::seeking(slot, s.item, remainder, index + 1),
            );
            assert(after =~= again.0);
        } else {
            assert(transcript(reg, scene, go_on, n) =~= seq![
                Query::Slot { index: index as usize },
            ]);
        }
    }
}

proof fn exchange_is_asked(
    reg: &Registry,
    scene: Scene,
    s: dispenser::DispensingView,
    effects: Seq<protocol::Effect>,
    remainder: ItemStack,
    n: nat,
)
    requires
        scene.slots.len() <= usize::MAX,
        n >= scene.slots.len() + 1,
    ensures
        transcript(
            reg,
            scene,
            dispenser::settled(
                s,
                inventory::exchanging(reg.items.air, s.slot as int, s.item, effects, remainder),
            ).0,
            n,
        ) == exchange_agenda(reg.items.air, s.slot, s.item, remainder, scene),
{
    let slot = s.slot as int;
    let go_on = dispenser::settled(
        s,
        inventory::exchanging(reg.items.air, slot, s.item, effects, remainder),
    ).0;
    one_question(reg, scene, go_on, n);
    if !item::is_empty_stack(reg.items.air, item::one_less(s.item)) {
        let used = dispenser::DispensingView { item: item::one_less(s.item), ..s };
        slots_are_asked(reg, scene, used, remainder, 0, n);
        let seeking = dispenser::settled(used, inventory::seeking(slot, used.item, remainder, 0));
        assert(go_on =~= seeking.0);
    }
}

/// Boats, minecarts and armor stands.
proof fn vehicles_are_asked(
    reg: &Registry,
    ctx: DispenseContext,
    slot: usize,
    stack: ItemStack,
    scene: Scene,
    n: nat,
)
    requires
        n >= 4,
        ({
            let kind = behavior::behavior_of(reg, stack);
            ||| kind is Boat
            ||| kind is Minecart
            ||| kind is ArmorStand
        }),
    ensures
        transcript(reg, scene, dispenser::begun(reg, ctx, slot, stack).0, n) == agenda(
            reg,
            ctx,
            slot,
            stack,
            scene,
        ),
{
    let s = dispenser::begun(reg, ctx, slot, stack).0;
    four_questions(reg, scene, s, n);
    assert(transcript(reg, scene, s, n) =~= agenda(reg, ctx, slot, stack, scene));
}

/// Buckets to be emptied, flint and steel, and what changes or sets a block.
proof fn uses_are_asked(
    reg: &Registry,
    ctx: DispenseContext,
    slot: usize,
    stack: ItemStack,
    scene: Scene,
    n: nat,
)
    requires
        n >= 4,
        ({
            let kind = behavior::behavior_of(reg, stack);
            ||| kind is FilledBucket
            ||| kind is FlintAndSteel
            ||| kind is WaterBottle
            ||| kind is Honeycomb
            ||| kind is Glowstone
            ||| kind is ShulkerBox
        }),
    ensures
        transcript(reg, scene, dispenser::begun(reg, ctx, slot, stack).0, n) == agenda(
            reg,
            ctx,
            slot,
            stack,
            scene,
        ),
{
    let s = dispenser::begun(reg, ctx, slot, stack).0;
    four_questions(reg, scene, s, n);
    assert(transcript(reg, scene, s, n) =~= agenda(reg, ctx, slot, stack, scene));
}

/// What is let loose, and bone meal.
proof fn releases_are_asked(
    reg: &Registry,
    ctx: DispenseContext,
    slot: usize,
    stack: ItemStack,
    scene: Scene,
    n: nat,
)
    requires
        n >= 4,
        ({
            let kind = behavior::behavior_of(reg, stack);
            ||| kind is Projectile
            ||| kind is Tnt
            ||| kind is SpawnEgg
            ||| kind is BoneMeal
        }),
    ensures
        transcript(reg, scene, dispenser::begun(reg, ctx, slot, stack).0, n) == agenda(
            reg,
            ctx,
            slot,
            stack,
            scene,
        ),
{
    let s = dispenser::begun(reg, ctx, slot, stack).0;
    four_questions(reg, scene, s, n);
    assert(transcript(reg, scene, s, n) =~= agenda(reg, ctx, slot, stack, scene));
}

proof fn shears_are_asked(
    reg: &Registry,
    scene: Scene,
    s: dispenser::DispensingView,
    n: nat,
)
    requires
        scene.fits(),
        s.phase == Phase::HiveFront,
        n >= 4,
    ensures
        transcript(reg, scene, s, n) == shears_agenda(s.ctx, s.item, scene),
{
    let one = performance::next_of(reg, scene, s).0;
    let two = performance::next_of(reg, scene, one).0;
    let three = performance::next_of(reg, scene, two).0;
    four_questions(reg, scene, s, n);
    one_question(reg, scene, performance::next_of(reg, scene, three).0, (n - 4) as nat);
    assert(transcript(reg, scene, s, n) =~= shears_agenda(s.ctx, s.item, scene));
}

proof fn containers_are_asked(
    reg: &Registry,
    ctx: DispenseContext,
    slot: usize,
    stack: ItemStack,
    scene: Scene,
    n: nat,
)
    requires
        scene.fits(),
        n >= 2 + scene.slots.len(),
        behavior::behavior_of(reg, stack) is EmptyBucket || behavior::behavior_of(
            reg,
            stack,
        ) is GlassBottle,
    ensures
        transcript(reg, scene, dispenser::begun(reg, ctx, slot, stack).0, n) == agenda(
            reg,
            ctx,
            slot,
            stack,
            scene,
        ),
{
    let s = dispenser::begun(reg, ctx, slot, stack).0;
    let target = geometry::target_of(ctx);
    let front = (scene.cell)(target);
    let scooped = (scene.picked_up)(target, ctx.facing);
    let one = performance::next_of(reg, scene, s).0;
    let m = (n - 1) as nat;
    one_question(reg, scene, s, n);
    one_question(reg, scene, one, m);
    if behavior::behavior_of(reg, stack) is EmptyBucket {
        if scooped is Some {
            let filled = item::plain_stack(1, scooped->0);
            exchange_is_asked(reg, scene, s, seq![], filled, m);
        }
    } else if containers::is_full_hive(front) {
        let honey = item::plain_stack(1, reg.items.honey_bottle);
        let emptied = seq![containers::emptied_hive(target, front)];
        exchange_is_asked(reg, scene, s, emptied, honey, m);
    } else if front.honey_level is None && registry::is_water_id(reg.fluids, front.fluid) {
        let water = item::water_bottle_of(reg.items.potion, reg.water_potion);
        exchange_is_asked(reg, scene, s, seq![], water, m);
    }
    assert(transcript(reg, scene, s, n) =~= agenda(reg, ctx, slot, stack, scene));
}

proof fn heads_are_asked(
    reg: &Registry,
    ctx: DispenseContext,
    slot: usize,
    stack: ItemStack,
    summon: Summon,
    scene: Scene,
    n: nat,
)
    requires
        scene.fits(),
        n >= performance::enough(ctx, stack, scene),
        behavior::behavior_of(reg, stack) == (Behavior::MobHead { summon }),
    ensures
        transcript(reg, scene, dispenser::begun(reg, ctx, slot, stack).0, n) == agenda(
            reg,
            ctx,
            slot,
            stack,
            scene,
        ),
{
    let s = dispenser::begun(reg, ctx, slot, stack).0;
    let one = performance::next_of(reg, scene, s).0;
    let two = performance::next_of(reg, scene, one).0;
    one_question(reg, scene, s, n);
    if one.phase is Fitting {
        dressing_is_asked(reg, scene, one, DispenseOutcome::Failure, (n - 1) as nat);
    } else {
        one_question(reg, scene, one, (n - 1) as nat);
        if two.phase is Fitting {
            dressing_is_asked(reg, scene, two, DispenseOutcome::Failure, (n - 2) as nat);
        } else {
            one_question(reg, scene, two, (n - 2) as nat);
        }
    }
    assert(transcript(reg, scene, s, n) =~= agenda(reg, ctx, slot, stack, scene));
}

/// An activation asks exactly the questions of its agenda, each about the block, the
/// item, the slot or the entity that the agenda names, and in that order.
pub proof fn activation_keeps_to_the_agenda(
    reg: &Registry,
    ctx: DispenseContext,
    slot: usize,
    stack: ItemStack,
    scene: Scene,
    n: nat,
)
    requires
        scene.fits(),
        n >= performance::enough(ctx, stack, scene),
    ensures
        transcript(reg, scene, dispenser::begun(reg, ctx, slot, stack).0, n) == agenda(
            reg,
            ctx,
            slot,
            stack,
            scene,
        ),
{
    let s = dispenser::begun(reg, ctx, slot, stack).0;
    match behavior::behavior_of(reg, stack) {
        Behavior::EmptyBucket | Behavior::GlassBottle => {
            containers_are_asked(reg, ctx, slot, stack, scene, n);
        },
        Behavior::MobHead { summon } => {
            heads_are_asked(reg, ctx, slot, stack, summon, scene, n);
        },
        Behavior::Ordinary => {
            dressing_is_asked(reg, scene, s, DispenseOutcome::Drop, n);
        },
        Behavior::Shears => {
            shears_are_asked(reg, scene, s, n);
        },
        Behavior::Boat { .. } | Behavior::Minecart { .. } | Behavior::ArmorStand => {
            vehicles_are_asked(reg, ctx, slot, stack, scene, n);
        },
        Behavior::Projectile
        | Behavior::Tnt
        | Behavior::SpawnEgg { .. }
        | Behavior::BoneMeal => {
            releases_are_asked(reg, ctx, slot, stack, scene, n);
        },
        _ => {
            uses_are_asked(reg, ctx, slot, stack, scene, n);
        },
    }
}

/// The questions of a scheduled tick, in order, up to `n` of them.
pub open spec fn tick_transcript(
    reg: &Registry,
    scene: Scene,
    s: redstone::ScheduledTickView,
    n: nat,
) -> Seq<Query>
    decreases n,
{
    match redstone::tick_question(s) {
        Some(query) if n > 0 => seq![query] + tick_transcript(
            reg,
            scene,
            redstone::tick_answered(reg, s, scene.answer(query)).0,
            (n - 1) as nat,
        ),
        _ => seq![],
    }
}

proof fn working_tick_asks_what_the_activation_asks(
    reg: &Registry,
    scene: Scene,
    block: u16,
    position: BlockPos,
    d: dispenser::DispensingView,
    n: nat,
)
    ensures
        tick_transcript(
            reg,
            scene,
            redstone::ScheduledTickView {
                block,
                position,
                phase: redstone::TickPhaseView::Working(d),
            },
            n,
        ) == transcript(reg, scene, d, n),
    decreases n,
{
    if dispenser::question(d) is Some && n > 0 {
        working_tick_asks_what_the_activation_asks(
            reg,
            scene,
            block,
            position,
            performance::next_of(reg, scene, d).0,
            (n - 1) as nat,
        );
    }
}

/// A scheduled tick asks for a slot, for the facing if it got one, and then what the
/// activation of that slot asks.
pub proof fn tick_keeps_to_the_agenda(
    reg: &Registry,
    block: u16,
    position: BlockPos,
    scene: Scene,
    n: nat,
)
    requires
        scene.fits(),
        ({
            let facing = (scene.properties)(block, position).facing;
            let ctx = DispenseContext { position, facing };
            match (scene.picked)(position) {
                Picked::Slot { item, .. } => n >= 2 + performance::enough(ctx, item, scene),
                _ => n >= 1,
            }
        }),
    ensures
        ({
            let facing = (scene.properties)(block, position).facing;
            let ctx = DispenseContext { position, facing };
            let tick = redstone::ScheduledTickView {
                block,
                position,
                phase: redstone::TickPhaseView::Picking,
            };
            let pick = Query::PickSlot { position };
            tick_transcript(reg, scene, tick, n) == match (scene.picked)(position) {
                Picked::Slot { slot, item } => seq![
                    pick,
                    Query::Properties { block, position },
                ] + agenda(reg, ctx, slot, item, scene),
                _ => seq![pick],
            }
        }),
{
    let facing = (scene.properties)(block, position).facing;
    let ctx = DispenseContext { position, facing };
    let tick = redstone::ScheduledTickView {
        block,
        position,
        phase: redstone::TickPhaseView::Picking,
    };
    let pick = Query::PickSlot { position };
    let one = redstone::tick_answered(reg, tick, scene.answer(pick)).0;
    assert(tick_transcript(reg, scene, tick, n) == seq![pick] + tick_transcript(
        reg,
        scene,
        one,
        (n - 1) as nat,
    ));
    if let Picked::Slot { slot, item } = (scene.picked)(position) {
        let look = Query::Properties { block, position };
        let two = redstone::tick_answered(reg, one, scene.answer(look)).0;
        let started = dispenser::begun(reg, ctx, slot, item).0;
        assert(tick_transcript(reg, scene, one, (n - 1) as nat) == seq![look] + tick_transcript(
            reg,
            scene,
            two,
            (n - 2) as nat,
        ));
        working_tick_asks_what_the_activation_asks(
            reg,
            scene,
            block,
            position,
            started,
            (n - 2) as nat,
        );
        activation_keeps_to_the_agenda(reg, ctx, slot, item, scene, (n - 2) as nat);
        assert(tick_transcript(reg, scene, tick, n) =~= seq![pick, look] + agenda(
            reg,
            ctx,
            slot,
            item,
            scene,
        ));
    } else {
        assert(tick_transcript(reg, scene, one, (n - 1) as nat) =~= seq![]);
        assert(tick_transcript(reg, scene, tick, n) =~= seq![pick]);
    }
}

} // verus!
