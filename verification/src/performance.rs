//! Whole activations, from the first question to the last effect.

use crate::behavior;
use crate::behavior::Behavior;
use crate::blocks;
use crate::containers;
use crate::dispenser;
use crate::equipment;
use crate::geometry;
use crate::geometry::{BlockPos, DispenseContext, Facing};
use crate::inventory;
use crate::item;
use crate::item::ItemStack;
use crate::projectile;
use crate::protocol;
use crate::protocol::{
    Animal, Cell, DispenserProperties, Effect, EquipmentSlot, NewState, Notify, Picked, Query,
    SlotContents, Spot, Summon, Wearer, WorldEvent,
};
use crate::redstone;
use crate::registry;
use crate::registry::Registry;
use crate::search;
use crate::spawning;
use crate::tools;
use crate::turn::{DispenseOutcome, Phase};
use crate::vehicles;
use vstd::prelude::*;

verus! {

/// The surroundings of an activation: what each question would be answered, by
/// all that the question says, and what becomes of the blocks that are changed.
pub struct Scene {
    pub cell: spec_fn(BlockPos) -> Cell,
    pub room: spec_fn(BlockPos, u16) -> (bool, usize),
    pub picked_up: spec_fn(BlockPos, Facing) -> Option<u16>,
    pub evaporates: spec_fn(u16) -> bool,
    pub emptied: spec_fn(u16, BlockPos, Facing) -> bool,
    pub ignited: spec_fn(BlockPos, Notify) -> bool,
    pub worn_down: spec_fn(ItemStack, i32) -> ItemStack,
    pub animals: spec_fn(BlockPos) -> Seq<Animal>,
    pub drawn: spec_fn(u8, u8) -> u8,
    pub uuid: u128,
    pub waxed: spec_fn(u16, u16) -> Option<u16>,
    pub pattern: spec_fn(Summon, BlockPos) -> bool,
    pub equippable: spec_fn(ItemStack) -> Option<protocol::EquippableView>,
    pub entities: spec_fn(BlockPos, Option<u32>) -> Seq<Wearer>,
    pub players: spec_fn(BlockPos, Option<u32>) -> Seq<Wearer>,
    pub nothing_worn: spec_fn(int, EquipmentSlot) -> bool,
    pub slots: Seq<SlotContents>,
    pub picked: spec_fn(BlockPos) -> Picked,
    pub properties: spec_fn(u16, BlockPos) -> DispenserProperties,
    pub powered: spec_fn(BlockPos) -> bool,
    /// What a block is after it was changed to a state.
    pub made: spec_fn(NewState) -> Cell,
}

impl Scene {
    /// The scene holds no more than can be counted.
    pub open spec fn fits(self) -> bool {
        &&& forall|position: BlockPos| (#[trigger] (self.animals)(position)).len() <= usize::MAX
        &&& forall|position: BlockPos, tag: Option<u32>|
            (#[trigger] self.present(position, tag)).len() <= usize::MAX
        &&& self.slots.len() <= usize::MAX
    }

    /// The entities in a block, and behind them the players.
    pub open spec fn present(self, position: BlockPos, tag: Option<u32>) -> Seq<Wearer> {
        (self.entities)(position, tag) + (self.players)(position, tag)
    }

    /// The tag by which those who may wear the item are known, if there is one.
    pub open spec fn tag_for(self, stack: ItemStack) -> Option<u32> {
        match (self.equippable)(stack) {
            Some(worn) => dispenser::tag_of(worn.allowed_entities),
            None => None,
        }
    }

    /// Those in front of a dispenser that might be dressed in the item.
    pub open spec fn crowd(self, ctx: DispenseContext, stack: ItemStack) -> Seq<Wearer> {
        self.present(geometry::target_of(ctx), self.tag_for(stack))
    }

    /// What there is room for at a position.
    pub open spec fn has_room(self, position: BlockPos, entity_type: u16) -> bool {
        let room = (self.room)(position, entity_type);
        vehicles::is_room(room.0, room.1)
    }

    /// The answer that the scene gives.
    pub open spec fn answer(self, query: Query) -> protocol::ReplyView {
        match query {
            Query::Cell { position } => protocol::ReplyView::Cell((self.cell)(position)),
            Query::Room { position, entity_type } => {
                let room = (self.room)(position, entity_type);
                protocol::ReplyView::Room { space_empty: room.0, obstacles: room.1 }
            },
            Query::PickUp { position, facing } => protocol::ReplyView::Item(
                (self.picked_up)(position, facing),
            ),
            Query::Evaporates { item } => protocol::ReplyView::Flag((self.evaporates)(item)),
            Query::EmptyOut { item, position, facing } => protocol::ReplyView::Flag(
                (self.emptied)(item, position, facing),
            ),
            Query::Ignite { position, notify } => protocol::ReplyView::Flag(
                (self.ignited)(position, notify),
            ),
            Query::Damage { stack, amount } => protocol::ReplyView::Stack(
                (self.worn_down)(stack, amount),
            ),
            Query::Animals { position } => protocol::ReplyView::Animals((self.animals)(position)),
            Query::Roll { low, high } => protocol::ReplyView::Count((self.drawn)(low, high)),
            Query::FreshUuid => protocol::ReplyView::Uuid(self.uuid),
            Query::WaxedState { block, state } => protocol::ReplyView::State(
                (self.waxed)(block, state),
            ),
            Query::Pattern { summon, position } => protocol::ReplyView::Flag(
                (self.pattern)(summon, position),
            ),
            Query::Equippable { stack } => protocol::ReplyView::Equippable(
                (self.equippable)(stack),
            ),
            Query::Wearers { position, tag } => protocol::ReplyView::Wearers {
                entities: (self.entities)(position, tag),
                players: (self.players)(position, tag),
            },
            Query::NothingWorn { entity, slot } => protocol::ReplyView::Flag(
                (self.nothing_worn)(entity as int, slot),
            ),
            Query::Slot { index } => protocol::ReplyView::Slot(
                if index < self.slots.len() {
                    Some(self.slots[index as int])
                } else {
                    None
                },
            ),
            Query::Power { position } => protocol::ReplyView::Flag((self.powered)(position)),
            Query::Properties { block, position } => protocol::ReplyView::Properties(
                (self.properties)(block, position),
            ),
            Query::PickSlot { position } => protocol::ReplyView::Picked((self.picked)(position)),
        }
    }
}

/// An activation and all effects so far, after up to `n` more answers.
pub open spec fn conversation(
    reg: &Registry,
    scene: Scene,
    s: dispenser::DispensingView,
    effects: Seq<Effect>,
    n: nat,
) -> (dispenser::DispensingView, Seq<Effect>)
    decreases n,
{
    match dispenser::question(s) {
        Some(query) if n > 0 => {
            let after = dispenser::answered(reg, s, scene.answer(query));
            conversation(reg, scene, after.0, effects + after.1, (n - 1) as nat)
        },
        _ => (s, effects),
    }
}

/// What an attempt to dispense comes to: what is left of the stack, what was done,
/// and how it came out.
#[verifier::ext_equal]
pub struct Deed {
    pub item: ItemStack,
    pub effects: Seq<Effect>,
    pub outcome: DispenseOutcome,
}

/// The item was put to use.
pub open spec fn done(item: ItemStack, effects: Seq<Effect>) -> Deed {
    Deed {
        item,
        effects,
        outcome: DispenseOutcome::Success(WorldEvent::SoundDispenserDispense),
    }
}

/// Nothing was done.
pub open spec fn left(item: ItemStack, outcome: DispenseOutcome) -> Deed {
    Deed { item, effects: seq![], outcome }
}

/// A boat needs water in front, or air in front and water underneath, and room there.
pub open spec fn boat_deed(
    reg: &Registry,
    ctx: DispenseContext,
    stack: ItemStack,
    entity_type: u16,
    scene: Scene,
) -> Deed {
    let front = geometry::target_of(ctx);
    let under = geometry::below(front);
    let wet = |position: BlockPos|
        registry::is_water_id(reg.fluids, (scene.cell)(position).fluid);
    let place = if wet(front) {
        Some(front)
    } else if (scene.cell)(front).air && wet(under) {
        Some(under)
    } else {
        None
    };
    match place {
        Some(position) if scene.has_room(position, entity_type) => done(
            item::one_less(stack),
            seq![Effect::SpawnBoat { entity_type, position }],
        ),
        _ => left(stack, DispenseOutcome::Drop),
    }
}

/// A minecart needs a rail in front, or air in front and a rail underneath.
pub open spec fn minecart_deed(
    ctx: DispenseContext,
    stack: ItemStack,
    entity_type: u16,
    scene: Scene,
) -> Deed {
    let front = (scene.cell)(geometry::target_of(ctx));
    let under = (scene.cell)(geometry::below(geometry::target_of(ctx)));
    let height = if vehicles::ascends(front) is Some {
        Some(
            if vehicles::ascends(front)->0 {
                6int
            } else {
                1int
            },
        )
    } else if front.air && vehicles::ascends(under) is Some {
        Some(
            if vehicles::ascends(under)->0 && ctx.facing != Facing::Down {
                -4int
            } else {
                -9int
            },
        )
    } else {
        None
    };
    match height {
        Some(tenths) => done(
            item::one_less(stack),
            seq![Effect::SpawnMinecart { entity_type, height_tenths: tenths as i32 }],
        ),
        None => left(stack, DispenseOutcome::Drop),
    }
}

/// One item of the stack is used up for `remainder`, which takes its place if it
/// was the last one, or else goes to another slot or out.
pub open spec fn exchange_deed(
    air: u16,
    slot: usize,
    stack: ItemStack,
    effects: Seq<Effect>,
    remainder: ItemStack,
    scene: Scene,
) -> Deed {
    let rest = item::one_less(stack);
    if item::is_empty_stack(air, rest) {
        done(remainder, effects)
    } else {
        done(
            rest,
            effects.push(inventory::stowing(air, slot as int, remainder, scene.slots)),
        )
    }
}

/// Those in a crowd who may wear the item and have nothing on there.
pub open spec fn dressable(
    allowed: Option<protocol::EntitySetView>,
    slot: EquipmentSlot,
    crowd: Seq<Wearer>,
    scene: Scene,
) -> spec_fn(int) -> bool {
    |i: int| equipment::eligible(allowed, crowd[i]) && (scene.nothing_worn)(i, slot)
}

/// The first one in front who may wear the item and has nothing on there.
pub open spec fn first_dressable(
    ctx: DispenseContext,
    stack: ItemStack,
    worn: protocol::EquippableView,
    scene: Scene,
) -> Option<int> {
    let crowd = scene.crowd(ctx, stack);
    search::first_index(
        crowd.len() as int,
        dressable(worn.allowed_entities, worn.slot, crowd, scene),
    )
}

/// Equipment goes onto the first one in front who may wear it and has nothing on
/// there.
pub open spec fn dressing_deed(
    ctx: DispenseContext,
    stack: ItemStack,
    fallback: DispenseOutcome,
    scene: Scene,
) -> Deed {
    match (scene.equippable)(stack) {
        Some(worn) if worn.dispensable => match first_dressable(ctx, stack, worn, scene) {
            Some(i) => done(
                item::one_less(stack),
                equipment::dressing(stack, worn.slot, worn.equip_sound, i as usize).effects,
            ),
            None => left(stack, fallback),
        },
        _ => left(stack, fallback),
    }
}

/// Shears harvest a full hive, or else the first sheep with its wool on, and wear
/// down.
pub open spec fn shears_deed(
    reg: &Registry,
    ctx: DispenseContext,
    stack: ItemStack,
    scene: Scene,
) -> Deed {
    let target = geometry::target_of(ctx);
    let front = (scene.cell)(target);
    let flock = (scene.animals)(target);
    let worn = (scene.worn_down)(stack, 1);
    if containers::is_full_hive(front) {
        done(worn, tools::harvesting(reg.items.honeycomb, ctx, stack, front).effects)
    } else {
        match search::first_index(flock.len() as int, tools::shearable(flock)) {
            Some(i) => done(
                worn,
                tools::shearing(stack, flock).effects.push(
                    Effect::DropAt {
                        spot: Spot::Entity(i as usize),
                        stack: item::plain_stack(
                            (scene.drawn)(dispenser::LEAST_WOOL, dispenser::MOST_WOOL),
                            registry::wool_id(reg.wool, flock[i].color),
                        ),
                    },
                ),
            ),
            None => left(stack, DispenseOutcome::Failure),
        }
    }
}

/// What a dispenser does with the stack in a scene.
pub open spec fn deed(
    reg: &Registry,
    ctx: DispenseContext,
    slot: usize,
    stack: ItemStack,
    scene: Scene,
) -> Deed {
    let target = geometry::target_of(ctx);
    let front = (scene.cell)(target);
    let under = (scene.cell)(geometry::below(target));
    let air = reg.items.air;
    let used = item::one_less(stack);
    match behavior::behavior_of(reg, stack) {
        Behavior::Projectile => Deed {
            item: used,
            effects: projectile::shooting(reg.items, stack).effects,
            outcome: DispenseOutcome::Success(projectile::shot_of(reg.items, stack.item).sound),
        },
        Behavior::Boat { entity_type } => boat_deed(reg, ctx, stack, entity_type, scene),
        Behavior::Minecart { entity_type } => minecart_deed(ctx, stack, entity_type, scene),
        Behavior::ArmorStand => if scene.has_room(target, reg.armor_stand_entity) {
            done(used, vehicles::stand_with_room(ctx, stack, true).effects)
        } else {
            left(stack, DispenseOutcome::Drop)
        },
        Behavior::Tnt => done(used, spawning::priming(ctx, stack).effects),
        Behavior::SpawnEgg { entity_type } => done(
            used,
            spawning::hatching(ctx, stack, entity_type, scene.uuid).effects,
        ),
        Behavior::EmptyBucket => match (scene.picked_up)(target, ctx.facing) {
            Some(filled) => exchange_deed(
                air,
                slot,
                stack,
                seq![],
                item::plain_stack(1, filled),
                scene,
            ),
            None => left(stack, DispenseOutcome::Drop),
        },
        Behavior::FilledBucket => if (scene.evaporates)(stack.item) {
            done(
                item::plain_stack(1, reg.items.bucket),
                seq![Effect::PlayEvaporation { spot: Spot::Center(target) }],
            )
        } else if (scene.emptied)(stack.item, ctx.position, ctx.facing) {
            done(item::plain_stack(1, reg.items.bucket), seq![])
        } else {
            left(stack, DispenseOutcome::Drop)
        },
        Behavior::FlintAndSteel => if front.block == reg.blocks.tnt {
            done((scene.worn_down)(stack, 1), seq![Effect::PrimeTnt { position: target }])
        } else if (scene.ignited)(target, Notify::All) {
            done((scene.worn_down)(stack, 1), seq![])
        } else {
            left(stack, DispenseOutcome::Failure)
        },
        Behavior::Shears => shears_deed(reg, ctx, stack, scene),
        Behavior::GlassBottle => if containers::is_full_hive(front) {
            exchange_deed(
                air,
                slot,
                stack,
                seq![containers::emptied_hive(target, front)],
                item::plain_stack(1, reg.items.honey_bottle),
                scene,
            )
        } else if front.honey_level is None && registry::is_water_id(reg.fluids, front.fluid) {
            exchange_deed(
                air,
                slot,
                stack,
                seq![],
                item::water_bottle_of(reg.items.potion, reg.water_potion),
                scene,
            )
        } else {
            left(stack, DispenseOutcome::DropFailure)
        },
        Behavior::WaterBottle => if front.convertible_to_mud {
            done(
                item::plain_stack(1, reg.items.glass_bottle),
                containers::muddying(reg, ctx, stack, front).effects,
            )
        } else {
            left(stack, DispenseOutcome::Drop)
        },
        Behavior::Honeycomb => match (scene.waxed)(front.block, front.state) {
            Some(state) => done(used, blocks::waxing(ctx, stack, Some(state)).effects),
            None => left(stack, DispenseOutcome::Drop),
        },
        Behavior::Glowstone => if front.block != reg.blocks.respawn_anchor {
            left(stack, DispenseOutcome::Drop)
        } else if front.charges >= blocks::MAX_CHARGES {
            left(stack, DispenseOutcome::Failure)
        } else {
            done(
                used,
                blocks::charging(reg.blocks.respawn_anchor, ctx, stack, front).effects,
            )
        },
        Behavior::BoneMeal => left(stack, DispenseOutcome::Failure),
        Behavior::MobHead { summon } => if front.air && (scene.pattern)(summon, target) {
            done(used, seq![blocks::placing(ctx, blocks::head_state(reg.blocks, ctx, summon))])
        } else {
            dressing_deed(ctx, stack, DispenseOutcome::Failure, scene)
        },
        Behavior::ShulkerBox { block } => if front.replaceable {
            done(used, blocks::unpacking(ctx, stack, block, under).effects)
        } else {
            left(stack, DispenseOutcome::Failure)
        },
        Behavior::Ordinary => dressing_deed(ctx, stack, DispenseOutcome::Drop, scene),
    }
}

/// All effects of an activation.
pub open spec fn performance(ctx: DispenseContext, what: Deed) -> Seq<Effect> {
    what.effects + dispenser::closing_effects(ctx, what.item, what.outcome)
}

/// The stack after an activation.
pub open spec fn leftover(what: Deed) -> ItemStack {
    dispenser::closing_stack(what.item, what.outcome)
}

/// The activation has finished, with the effects and the stack of the deed.
pub open spec fn performed(
    ctx: DispenseContext,
    what: Deed,
    ended: (dispenser::DispensingView, Seq<Effect>),
) -> bool {
    &&& ended.0.phase == Phase::Finished
    &&& ended.0.item == leftover(what)
    &&& ended.1 == performance(ctx, what)
}

/// The questions it takes at most to come to an end.
pub open spec fn enough(ctx: DispenseContext, stack: ItemStack, scene: Scene) -> nat {
    4 + scene.crowd(ctx, stack).len() + scene.slots.len()
}

/// One answer of a conversation.
proof fn one_answer(
    reg: &Registry,
    scene: Scene,
    s: dispenser::DispensingView,
    effects: Seq<Effect>,
    n: nat,
)
    requires
        n > 0,
        dispenser::question(s) is Some,
    ensures
        ({
            let after = next_of(reg, scene, s);
            conversation(reg, scene, s, effects, n) == conversation(
                reg,
                scene,
                after.0,
                effects + after.1,
                (n - 1) as nat,
            )
        }),
{
}

/// The state and the effects of the step that an answer leads to.
pub open spec fn next_of(
    reg: &Registry,
    scene: Scene,
    s: dispenser::DispensingView,
) -> (dispenser::DispensingView, Seq<Effect>) {
    dispenser::answered(reg, s, scene.answer(dispenser::question(s)->0))
}

/// The crowd is tried in order: from number `from` on, the first one who may wear
/// the item and has nothing on is dressed.
proof fn dressing_goes_through_the_crowd(
    reg: &Registry,
    scene: Scene,
    s: dispenser::DispensingView,
    fallback: DispenseOutcome,
    slot: EquipmentSlot,
    sound: u32,
    from: int,
    n: nat,
)
    requires
        s.crowd.len() <= usize::MAX,
        0 <= from <= s.crowd.len(),
        n >= s.crowd.len() - from,
        forall|j: int| 0 <= j < from ==> !#[trigger] dressable(s.allowed, slot, s.crowd, scene)(j),
    ensures
        ({
            let go_on = dispenser::settled(
                s,
                equipment::choosing(s.item, fallback, slot, sound, s.allowed, s.crowd, from),
            );
            performed(
                s.ctx,
                match search::first_index(
                    s.crowd.len() as int,
                    dressable(s.allowed, slot, s.crowd, scene),
                ) {
                    Some(i) => done(
                        item::one_less(s.item),
                        equipment::dressing(s.item, slot, sound, i as usize).effects,
                    ),
                    None => left(s.item, fallback),
                },
                conversation(reg, scene, go_on.0, go_on.1, n),
            )
        }),
    decreases s.crowd.len() - from,
{
    let wanted = dressable(s.allowed, slot, s.crowd, scene);
    let next = equipment::eligible_from(s.allowed, s.crowd, from);
    let len = s.crowd.len() as int;
    search::first_index_none(len, wanted);
    search::first_index_none(len, next);
    let choice = equipment::choosing(s.item, fallback, slot, sound, s.allowed, s.crowd, from);
    let go_on = dispenser::settled(s, choice);
    match search::first_index(len, next) {
        Some(i) => {
            assert(search::is_first(len, next, i));
            assert forall|j: int| 0 <= j < i implies !#[trigger] wanted(j) by {
                if from <= j {
                    assert(!next(j));
                }
            }
            let asking = go_on.0;
            let after = next_of(reg, scene, asking);
            one_answer(reg, scene, asking, go_on.1, n);
            assert(go_on.1 + after.1 =~= after.1);
            if (scene.nothing_worn)(i, slot) {
                assert(wanted(i));
                search::first_index_at(len, wanted, i);
                assert(after.0.phase == Phase::Finished);
            } else {
                assert(!wanted(i));
                dressing_goes_through_the_crowd(
                    reg,
                    scene,
                    s,
                    fallback,
                    slot,
                    sound,
                    i + 1,
                    (n - 1) as nat,
                );
                let again = dispenser::settled(
                    s,
                    equipment::choosing(
                        s.item,
                        fallback,
                        slot,
                        sound,
                        s.allowed,
                        s.crowd,
                        i + 1,
                    ),
                );
                assert(after.0 =~= again.0);
                assert(after.1 =~= again.1);
            }
        },
        None => {
            assert forall|j: int| 0 <= j < len implies !#[trigger] wanted(j) by {
                if from <= j {
                    assert(!next(j));
                }
            }
            assert(go_on.0.phase == Phase::Finished);
            assert(go_on.1 =~= dispenser::closing_effects(s.ctx, s.item, fallback));
            assert(performance(s.ctx, left(s.item, fallback)) =~= dispenser::closing_effects(
                s.ctx,
                s.item,
                fallback,
            ));
        },
    }
}

/// Dressing someone, from the question how the item is worn.
proof fn dressing_is_performed(
    reg: &Registry,
    scene: Scene,
    s: dispenser::DispensingView,
    fallback: DispenseOutcome,
    n: nat,
)
    requires
        scene.fits(),
        s.phase == (Phase::Fitting { fallback }),
        n >= 2 + scene.crowd(s.ctx, s.item).len(),
    ensures
        performed(
            s.ctx,
            dressing_deed(s.ctx, s.item, fallback, scene),
            conversation(reg, scene, s, seq![], n),
        ),
{
    let none = Seq::<Effect>::empty();
    let first = next_of(reg, scene, s);
    one_answer(reg, scene, s, none, n);
    assert(none + first.1 =~= first.1);
    let worn = (scene.equippable)(s.item);
    if worn is Some && worn->0.dispensable {
        let asking = first.0;
        let second = next_of(reg, scene, asking);
        one_answer(reg, scene, asking, first.1, (n - 1) as nat);
        assert(first.1 + second.1 =~= second.1);
        let informed = dispenser::DispensingView { crowd: scene.crowd(s.ctx, s.item), ..asking };
        dressing_goes_through_the_crowd(
            reg,
            scene,
            informed,
            fallback,
            worn->0.slot,
            worn->0.equip_sound,
            0,
            (n - 2) as nat,
        );
    } else {
        assert(first.0.phase == Phase::Finished);
        assert(first.1 =~= performance(s.ctx, left(s.item, fallback)));
    }
}

proof fn boat_is_performed(
    reg: &Registry,
    scene: Scene,
    s: dispenser::DispensingView,
    entity_type: u16,
    n: nat,
)
    requires
        s.phase == (Phase::BoatFront { entity_type }),
        n >= 3,
    ensures
        performed(
            s.ctx,
            boat_deed(reg, s.ctx, s.item, entity_type, scene),
            conversation(reg, scene, s, seq![], n),
        ),
{
    let what = boat_deed(reg, s.ctx, s.item, entity_type, scene);
    let one = next_of(reg, scene, s);
    one_answer(reg, scene, s, seq![], n);
    let so_far = Seq::<Effect>::empty() + one.1;
    if one.0.phase == Phase::Finished {
        assert(so_far =~= performance(s.ctx, what));
    } else {
        assert(so_far =~= seq![]);
        let two = next_of(reg, scene, one.0);
        one_answer(reg, scene, one.0, so_far, (n - 1) as nat);
        if two.0.phase == Phase::Finished {
            assert(so_far + two.1 =~= performance(s.ctx, what));
        } else {
            let three = next_of(reg, scene, two.0);
            one_answer(reg, scene, two.0, so_far + two.1, (n - 2) as nat);
            assert(so_far + two.1 + three.1 =~= performance(s.ctx, what));
        }
    }
}

proof fn minecart_is_performed(
    reg: &Registry,
    scene: Scene,
    s: dispenser::DispensingView,
    entity_type: u16,
    n: nat,
)
    requires
        s.phase == (Phase::MinecartFront { entity_type }),
        n >= 2,
    ensures
        performed(
            s.ctx,
            minecart_deed(s.ctx, s.item, entity_type, scene),
            conversation(reg, scene, s, seq![], n),
        ),
{
    let what = minecart_deed(s.ctx, s.item, entity_type, scene);
    let one = next_of(reg, scene, s);
    one_answer(reg, scene, s, seq![], n);
    let so_far = Seq::<Effect>::empty() + one.1;
    if one.0.phase == Phase::Finished {
        assert(so_far =~= performance(s.ctx, what));
    } else {
        let two = next_of(reg, scene, one.0);
        one_answer(reg, scene, one.0, so_far, (n - 1) as nat);
        assert(so_far + two.1 =~= performance(s.ctx, what));
    }
}

/// The slots are tried in order: from number `from` on, the first one other than
/// the own slot that takes the remainder gets it.
proof fn stowing_goes_through_the_slots(
    reg: &Registry,
    scene: Scene,
    s: dispenser::DispensingView,
    before: Seq<Effect>,
    remainder: ItemStack,
    from: int,
    n: nat,
)
    requires
        scene.slots.len() <= usize::MAX,
        0 <= from <= scene.slots.len(),
        n >= scene.slots.len() - from + 1,
        forall|j: int|
            0 <= j < from ==> !#[trigger] inventory::open_slots(
                reg.items.air,
                s.slot as int,
                remainder,
                scene.slots,
            )(j),
    ensures
        ({
            let air = reg.items.air;
            let slot = s.slot as int;
            let go_on = dispenser::settled(s, inventory::seeking(slot, s.item, remainder, from));
            performed(
                s.ctx,
                done(
                    s.item,
                    before.push(inventory::stowing(air, slot, remainder, scene.slots)),
                ),
                conversation(reg, scene, go_on.0, before + go_on.1, n),
            )
        }),
    decreases scene.slots.len() - from,
{
    let air = reg.items.air;
    let slot = s.slot as int;
    let slots = scene.slots;
    let len = slots.len() as int;
    let open = inventory::open_slots(air, slot, remainder, slots);
    let go_on = dispenser::settled(s, inventory::seeking(slot, s.item, remainder, from));
    let what = done(s.item, before.push(inventory::stowing(air, slot, remainder, slots)));
    let index = inventory::next_slot(slot, from);
    search::first_index_none(len, open);
    assert(!open(slot));
    assert(forall|j: int| from <= j < index ==> !#[trigger] open(j));
    if index > usize::MAX {
        assert(before + go_on.1 =~= performance(s.ctx, what));
    } else {
        let asking = go_on.0;
        let after = next_of(reg, scene, asking);
        one_answer(reg, scene, asking, before + go_on.1, n);
        assert(before + go_on.1 =~= before);
        if index >= len {
            assert(before + after.1 =~= performance(s.ctx, what));
        } else if inventory::takes(air, remainder, slots[index]) {
            assert(open(index));
            search::first_index_at(len, open, index);
            assert(before + after.1 =~= performance(s.ctx, what));
        } else {
            assert(!open(index));
            stowing_goes_through_the_slots(
                reg,
                scene,
                s,
                before,
                remainder,
                index + 1,
                (n - 1) as nat,
            );
            let again = dispenser::settled(
                s,
                inventory::seeking(slot, s.item, remainder, index + 1),
            );
            assert(after.0 =~= again.0);
            assert(after.1 =~= again.1);
        }
    }
}

/// An exchange, from the move that uses up the item on.
proof fn exchange_is_performed(
    reg: &Registry,
    scene: Scene,
    s: dispenser::DispensingView,
    effects: Seq<Effect>,
    remainder: ItemStack,
    n: nat,
)
    requires
        scene.slots.len() <= usize::MAX,
        n >= scene.slots.len() + 1,
    ensures
        ({
            let go_on = dispenser::settled(
                s,
                inventory::exchanging(reg.items.air, s.slot as int, s.item, effects, remainder),
            );
            performed(
                s.ctx,
                exchange_deed(reg.items.air, s.slot, s.item, effects, remainder, scene),
                conversation(reg, scene, go_on.0, Seq::<Effect>::empty() + go_on.1, n),
            )
        }),
{
    let slot = s.slot as int;
    let go_on = dispenser::settled(
        s,
        inventory::exchanging(reg.items.air, slot, s.item, effects, remainder),
    );
    let so_far = Seq::<Effect>::empty() + go_on.1;
    if go_on.0.phase == Phase::Finished {
        let what = exchange_deed(reg.items.air, s.slot, s.item, effects, remainder, scene);
        assert(so_far =~= performance(s.ctx, what));
    } else {
        let used = dispenser::DispensingView { item: item::one_less(s.item), ..s };
        stowing_goes_through_the_slots(reg, scene, used, effects, remainder, 0, n);
        let seeking = dispenser::settled(
            used,
            inventory::seeking(slot, used.item, remainder, 0),
        );
        assert(go_on.0 =~= seeking.0);
        assert(so_far =~= effects + seeking.1);
    }
}

proof fn shears_are_performed(
    reg: &Registry,
    scene: Scene,
    s: dispenser::DispensingView,
    n: nat,
)
    requires
        scene.fits(),
        s.phase == Phase::HiveFront,
        n >= 4,
    ensures
        performed(
            s.ctx,
            shears_deed(reg, s.ctx, s.item, scene),
            conversation(reg, scene, s, seq![], n),
        ),
{
    let what = shears_deed(reg, s.ctx, s.item, scene);
    let one = next_of(reg, scene, s);
    one_answer(reg, scene, s, seq![], n);
    let so_far = Seq::<Effect>::empty() + one.1;
    let two = next_of(reg, scene, one.0);
    one_answer(reg, scene, one.0, so_far, (n - 1) as nat);
    if two.0.phase == Phase::Finished {
        assert(so_far + two.1 =~= performance(s.ctx, what));
    } else {
        let three = next_of(reg, scene, two.0);
        one_answer(reg, scene, two.0, so_far + two.1, (n - 2) as nat);
        let four = next_of(reg, scene, three.0);
        one_answer(reg, scene, three.0, so_far + two.1 + three.1, (n - 3) as nat);
        assert(so_far + two.1 + three.1 + four.1 =~= performance(s.ctx, what));
    }
}

/// A head, from the sight of the block in front on.
proof fn head_is_performed(
    reg: &Registry,
    scene: Scene,
    s: dispenser::DispensingView,
    summon: Summon,
    n: nat,
)
    requires
        scene.fits(),
        s.phase == (Phase::HeadFront { summon }),
        n >= enough(s.ctx, s.item, scene),
    ensures
        performed(
            s.ctx,
            if (scene.cell)(geometry::target_of(s.ctx)).air && (scene.pattern)(
                summon,
                geometry::target_of(s.ctx),
            ) {
                done(
                    item::one_less(s.item),
                    seq![
                        blocks::placing(s.ctx, blocks::head_state(reg.blocks, s.ctx, summon)),
                    ],
                )
            } else {
                dressing_deed(s.ctx, s.item, DispenseOutcome::Failure, scene)
            },
            conversation(reg, scene, s, seq![], n),
        ),
{
    let one = next_of(reg, scene, s);
    one_answer(reg, scene, s, seq![], n);
    let so_far = Seq::<Effect>::empty() + one.1;
    assert(so_far =~= seq![]);
    if one.0.phase is Fitting {
        dressing_is_performed(reg, scene, one.0, DispenseOutcome::Failure, (n - 1) as nat);
    } else {
        let two = next_of(reg, scene, one.0);
        one_answer(reg, scene, one.0, so_far, (n - 1) as nat);
        if (scene.pattern)(summon, geometry::target_of(s.ctx)) {
            let what = done(
                item::one_less(s.item),
                seq![blocks::placing(s.ctx, blocks::head_state(reg.blocks, s.ctx, summon))],
            );
            assert(so_far + two.1 =~= performance(s.ctx, what));
        } else {
            assert(so_far + two.1 =~= seq![]);
            dressing_is_performed(reg, scene, two.0, DispenseOutcome::Failure, (n - 2) as nat);
        }
    }
}

/// The behaviors that come to an end with the first answer.
proof fn one_answer_is_performed(
    reg: &Registry,
    ctx: DispenseContext,
    slot: usize,
    stack: ItemStack,
    scene: Scene,
    n: nat,
)
    requires
        n >= 1,
        ({
            let kind = behavior::behavior_of(reg, stack);
            ||| kind is ArmorStand
            ||| kind is SpawnEgg
            ||| kind is WaterBottle
            ||| kind is Glowstone
        }),
    ensures
        performed(
            ctx,
            deed(reg, ctx, slot, stack, scene),
            conversation(reg, scene, dispenser::begun(reg, ctx, slot, stack).0, seq![], n),
        ),
{
    let what = deed(reg, ctx, slot, stack, scene);
    let s = dispenser::begun(reg, ctx, slot, stack).0;
    let one = next_of(reg, scene, s);
    one_answer(reg, scene, s, seq![], n);
    let so_far = Seq::<Effect>::empty() + one.1;
    assert(so_far =~= performance(ctx, what));
}

/// The behaviors that come to an end with the second answer at the latest.
proof fn two_answers_are_performed(
    reg: &Registry,
    ctx: DispenseContext,
    slot: usize,
    stack: ItemStack,
    scene: Scene,
    n: nat,
)
    requires
        n >= 2,
        ({
            let kind = behavior::behavior_of(reg, stack);
            ||| kind is FilledBucket
            ||| kind is Honeycomb
            ||| kind is ShulkerBox
        }),
    ensures
        performed(
            ctx,
            deed(reg, ctx, slot, stack, scene),
            conversation(reg, scene, dispenser::begun(reg, ctx, slot, stack).0, seq![], n),
        ),
{
    let what = deed(reg, ctx, slot, stack, scene);
    let s = dispenser::begun(reg, ctx, slot, stack).0;
    let one = next_of(reg, scene, s);
    one_answer(reg, scene, s, seq![], n);
    let so_far = Seq::<Effect>::empty() + one.1;
    if one.0.phase == Phase::Finished {
        assert(so_far =~= performance(ctx, what));
    } else {
        let two = next_of(reg, scene, one.0);
        one_answer(reg, scene, one.0, so_far, (n - 1) as nat);
        assert(so_far + two.1 =~= performance(ctx, what));
    }
}

/// Flint and steel.
proof fn flint_is_performed(
    reg: &Registry,
    ctx: DispenseContext,
    slot: usize,
    stack: ItemStack,
    scene: Scene,
    n: nat,
)
    requires
        n >= 3,
        behavior::behavior_of(reg, stack) is FlintAndSteel,
    ensures
        performed(
            ctx,
            deed(reg, ctx, slot, stack, scene),
            conversation(reg, scene, dispenser::begun(reg, ctx, slot, stack).0, seq![], n),
        ),
{
    let what = deed(reg, ctx, slot, stack, scene);
    let s = dispenser::begun(reg, ctx, slot, stack).0;
    let one = next_of(reg, scene, s);
    one_answer(reg, scene, s, seq![], n);
    let so_far = Seq::<Effect>::empty() + one.1;
    let two = next_of(reg, scene, one.0);
    one_answer(reg, scene, one.0, so_far, (n - 1) as nat);
    if two.0.phase == Phase::Finished {
        assert(so_far + two.1 =~= performance(ctx, what));
    } else {
        let three = next_of(reg, scene, two.0);
        one_answer(reg, scene, two.0, so_far + two.1, (n - 2) as nat);
        assert(so_far + two.1 + three.1 =~= performance(ctx, what));
    }
}

/// The behaviors that exchange one container for another.
proof fn container_behavior_is_performed(
    reg: &Registry,
    ctx: DispenseContext,
    slot: usize,
    stack: ItemStack,
    scene: Scene,
    n: nat,
)
    requires
        scene.fits(),
        n >= 2 + scene.slots.len(),
        behavior::behavior_of(reg, stack) is EmptyBucket || behavior::behavior_of(
            reg,
            stack,
        ) is GlassBottle,
    ensures
        performed(
            ctx,
            deed(reg, ctx, slot, stack, scene),
            conversation(reg, scene, dispenser::begun(reg, ctx, slot, stack).0, seq![], n),
        ),
{
    let what = deed(reg, ctx, slot, stack, scene);
    let s = dispenser::begun(reg, ctx, slot, stack).0;
    let target = geometry::target_of(ctx);
    let front = (scene.cell)(target);
    let one = next_of(reg, scene, s);
    one_answer(reg, scene, s, seq![], n);
    let so_far = Seq::<Effect>::empty() + one.1;
    let n = (n - 1) as nat;
    let scooped = (scene.picked_up)(target, ctx.facing);
    if behavior::behavior_of(reg, stack) is EmptyBucket && scooped is Some {
        let filled = item::plain_stack(1, scooped->0);
        exchange_is_performed(reg, scene, s, seq![], filled, n);
    } else if behavior::behavior_of(reg, stack) is GlassBottle && containers::is_full_hive(front) {
        let honey = item::plain_stack(1, reg.items.honey_bottle);
        let emptied = seq![containers::emptied_hive(target, front)];
        exchange_is_performed(reg, scene, s, emptied, honey, n);
    } else if behavior::behavior_of(reg, stack) is GlassBottle && front.honey_level is None
        && registry::is_water_id(reg.fluids, front.fluid) {
        let water = item::water_bottle_of(reg.items.potion, reg.water_potion);
        exchange_is_performed(reg, scene, s, seq![], water, n);
    } else {
        assert(one.0.phase == Phase::Finished);
        assert(so_far =~= performance(ctx, what));
    }
}

/// Every activation comes to an end and does, in the scene it is set off in,
/// what `deed` describes: whatever the host's answers are, the effects handed out
/// and the stack left in the slot are those, in that order.
pub proof fn activation_performs_the_deed(
    reg: &Registry,
    ctx: DispenseContext,
    slot: usize,
    stack: ItemStack,
    scene: Scene,
    n: nat,
)
    requires
        scene.fits(),
        n >= enough(ctx, stack, scene),
    ensures
        ({
            let start = dispenser::begun(reg, ctx, slot, stack);
            performed(
                ctx,
                deed(reg, ctx, slot, stack, scene),
                conversation(reg, scene, start.0, start.1, n),
            )
        }),
{
    let start = dispenser::begun(reg, ctx, slot, stack);
    let what = deed(reg, ctx, slot, stack, scene);
    let s = start.0;
    match behavior::behavior_of(reg, stack) {
        Behavior::Projectile | Behavior::Tnt | Behavior::BoneMeal => {
            assert(start.1 =~= performance(ctx, what));
        },
        Behavior::Boat { entity_type } => {
            assert(start.1 =~= seq![]);
            boat_is_performed(reg, scene, s, entity_type, n);
        },
        Behavior::Minecart { entity_type } => {
            assert(start.1 =~= seq![]);
            minecart_is_performed(reg, scene, s, entity_type, n);
        },
        Behavior::Shears => {
            assert(start.1 =~= seq![]);
            shears_are_performed(reg, scene, s, n);
        },
        Behavior::MobHead { summon } => {
            assert(start.1 =~= seq![]);
            head_is_performed(reg, scene, s, summon, n);
        },
        Behavior::EmptyBucket | Behavior::GlassBottle => {
            assert(start.1 =~= seq![]);
            container_behavior_is_performed(reg, ctx, slot, stack, scene, n);
        },
        Behavior::Ordinary => {
            assert(start.1 =~= seq![]);
            dressing_is_performed(reg, scene, s, DispenseOutcome::Drop, n);
        },
        Behavior::ArmorStand
        | Behavior::SpawnEgg { .. }
        | Behavior::WaterBottle
        | Behavior::Glowstone => {
            assert(start.1 =~= seq![]);
            one_answer_is_performed(reg, ctx, slot, stack, scene, n);
        },
        Behavior::FilledBucket | Behavior::Honeycomb | Behavior::ShulkerBox { .. } => {
            assert(start.1 =~= seq![]);
            two_answers_are_performed(reg, ctx, slot, stack, scene, n);
        },
        Behavior::FlintAndSteel => {
            assert(start.1 =~= seq![]);
            flint_is_performed(reg, ctx, slot, stack, scene, n);
        },
    }
}

/// A scheduled tick and all effects so far, after up to `n` more answers.
pub open spec fn tick_conversation(
    reg: &Registry,
    scene: Scene,
    s: redstone::ScheduledTickView,
    effects: Seq<Effect>,
    n: nat,
) -> (redstone::ScheduledTickView, Seq<Effect>)
    decreases n,
{
    match redstone::tick_question(s) {
        Some(query) if n > 0 => {
            let after = redstone::tick_answered(reg, s, scene.answer(query));
            tick_conversation(reg, scene, after.0, effects + after.1, (n - 1) as nat)
        },
        _ => (s, effects),
    }
}

proof fn working_tick_is_an_activation(
    reg: &Registry,
    scene: Scene,
    block: u16,
    position: BlockPos,
    d: dispenser::DispensingView,
    effects: Seq<Effect>,
    n: nat,
)
    ensures
        ({
            let tick = redstone::ScheduledTickView {
                block,
                position,
                phase: redstone::TickPhaseView::Working(d),
            };
            let end = conversation(reg, scene, d, effects, n);
            tick_conversation(reg, scene, tick, effects, n) == (
                redstone::ScheduledTickView {
                    block,
                    position,
                    phase: redstone::TickPhaseView::Working(end.0),
                },
                end.1,
            )
        }),
    decreases n,
{
    if dispenser::question(d) is Some && n > 0 {
        let after = dispenser::answered(reg, d, scene.answer(dispenser::question(d)->0));
        working_tick_is_an_activation(
            reg,
            scene,
            block,
            position,
            after.0,
            effects + after.1,
            (n - 1) as nat,
        );
    }
}

/// A scheduled tick comes to an end. Where there is no dispenser it does nothing;
/// an empty dispenser only makes the sound of a failure; otherwise the picked item
/// is dispensed the way the block faces.
pub proof fn tick_performs_the_deed(
    reg: &Registry,
    block: u16,
    position: BlockPos,
    scene: Scene,
    n: nat,
)
    requires
        scene.fits(),
        ({
            let facing = (scene.properties)(block, position).facing;
            let ctx = DispenseContext { position, facing };
            match (scene.picked)(position) {
                Picked::Slot { item, .. } => n >= 2 + enough(ctx, item, scene),
                _ => n >= 1,
            }
        }),
    ensures
        ({
            let facing = (scene.properties)(block, position).facing;
            let ctx = DispenseContext { position, facing };
            let tick = redstone::ScheduledTickView {
                block,
                position,
                phase: redstone::TickPhaseView::Picking,
            };
            let end = tick_conversation(reg, scene, tick, seq![], n);
            &&& redstone::tick_question(end.0) is None
            &&& match (scene.picked)(position) {
                Picked::NoDispenser => end.1 == Seq::<Effect>::empty(),
                Picked::Nothing => end.1 == seq![
                    Effect::SyncWorldEvent {
                        event: WorldEvent::SoundDispenserFail,
                        position,
                        data: 0,
                    },
                ],
                Picked::Slot { slot, item } => {
                    let what = deed(reg, ctx, slot, item, scene);
                    &&& end.1 == performance(ctx, what)
                    &&& end.0.phase is Working
                    &&& end.0.phase->Working_0.slot == slot
                    &&& end.0.phase->Working_0.item == leftover(what)
                },
            }
        }),
{
    let tick = redstone::ScheduledTickView {
        block,
        position,
        phase: redstone::TickPhaseView::Picking,
    };
    let none = Seq::<Effect>::empty();
    let picked = protocol::ReplyView::Picked((scene.picked)(position));
    let one = redstone::tick_answered(reg, tick, picked);
    assert(tick_conversation(reg, scene, tick, none, n) == tick_conversation(
        reg,
        scene,
        one.0,
        none + one.1,
        (n - 1) as nat,
    ));
    assert(none + one.1 =~= one.1);
    if let Picked::Slot { slot, item } = (scene.picked)(position) {
        let facing = (scene.properties)(block, position).facing;
        let ctx = DispenseContext { position, facing };
        let start = dispenser::begun(reg, ctx, slot, item);
        let two = redstone::tick_answered(
            reg,
            one.0,
            protocol::ReplyView::Properties((scene.properties)(block, position)),
        );
        assert(tick_conversation(reg, scene, one.0, none, (n - 1) as nat) == tick_conversation(
            reg,
            scene,
            two.0,
            none + two.1,
            (n - 2) as nat,
        ));
        assert(none + two.1 =~= start.1);
        working_tick_is_an_activation(
            reg,
            scene,
            block,
            position,
            start.0,
            start.1,
            (n - 2) as nat,
        );
        activation_performs_the_deed(reg, ctx, slot, item, scene, (n - 2) as nat);
        slot_is_kept(reg, scene, start.0, start.1, (n - 2) as nat);
    }
}

proof fn slot_is_kept(
    reg: &Registry,
    scene: Scene,
    d: dispenser::DispensingView,
    effects: Seq<Effect>,
    n: nat,
)
    ensures
        conversation(reg, scene, d, effects, n).0.slot == d.slot,
    decreases n,
{
    if dispenser::question(d) is Some && n > 0 {
        let after = dispenser::answered(reg, d, scene.answer(dispenser::question(d)->0));
        slot_is_kept(reg, scene, after.0, effects + after.1, (n - 1) as nat);
    }
}

} // verus!
