//! What becomes of items that are set down, and of those that are put on someone.

use crate::behavior;
use crate::dispenser;
use crate::equipment;
use crate::geometry::{DispenseContext, Facing};
use crate::item;
use crate::item::ItemStack;
use crate::performance;
use crate::performance::Scene;
use crate::promises;
use crate::protocol;
use crate::protocol::{
    Effect, NewState, Sound, SoundCategory, Spot, Summon, Wearer, WorldEvent,
};
use crate::registry;
use crate::registry::{BlockItem, Registry};
use crate::search;
use crate::turn::DispenseOutcome;
use vstd::prelude::*;

verus! {

/// A honeycomb waxes the block in front if that has a waxed form, with the sparkle of
/// waxing; otherwise it is thrown out.
pub proof fn honeycombs_wax(
    reg: &Registry,
    ctx: DispenseContext,
    slot: usize,
    stack: ItemStack,
    scene: Scene,
)
    requires
        scene.fits(),
        reg.distinct(),
        stack.item == reg.items.honeycomb,
    ensures
        ({
            let ended = promises::run(reg, ctx, slot, stack, scene);
            let front = promises::front(ctx);
            let cell = (scene.cell)(front);
            match (scene.waxed)(cell.block, cell.state) {
                Some(state) => promises::uses_one(
                    ended,
                    ctx,
                    stack,
                    seq![
                        promises::sets_front(ctx, NewState::State(state)),
                        Effect::SyncWorldEvent {
                            event: WorldEvent::ParticlesAndSoundWaxOn,
                            position: front,
                            data: 0,
                        },
                    ],
                ),
                None => promises::throws_one_out(
                    ended,
                    ctx,
                    stack,
                    WorldEvent::SoundDispenserDispense,
                ),
            }
        }),
{
    promises::run_is_the_deed(reg, ctx, slot, stack, scene);
    behavior::each_item_has_its_own_behavior(reg, stack);
    ends_of_runs(reg, ctx, slot, stack, scene);
}

/// Glowstone charges a respawn anchor in front by one, up to four; a full one makes it
/// fail. In front of anything else it is thrown out.
pub proof fn glowstone_charges_anchors(
    reg: &Registry,
    ctx: DispenseContext,
    slot: usize,
    stack: ItemStack,
    scene: Scene,
)
    requires
        scene.fits(),
        reg.distinct(),
        stack.item == reg.items.glowstone,
    ensures
        ({
            let ended = promises::run(reg, ctx, slot, stack, scene);
            let front = promises::front(ctx);
            let cell = (scene.cell)(front);
            if cell.block != reg.blocks.respawn_anchor {
                promises::throws_one_out(ended, ctx, stack, WorldEvent::SoundDispenserDispense)
            } else if cell.charges >= 4 {
                promises::fails(ended, ctx, stack)
            } else {
                promises::uses_one(
                    ended,
                    ctx,
                    stack,
                    seq![
                        promises::sets_front(
                            ctx,
                            NewState::Charges {
                                block: cell.block,
                                state: cell.state,
                                charges: (cell.charges + 1) as u8,
                            },
                        ),
                        promises::sounds(Sound::BlockRespawnAnchorCharge, Spot::Block(front)),
                    ],
                )
            }
        }),
{
    promises::run_is_the_deed(reg, ctx, slot, stack, scene);
    behavior::each_item_has_its_own_behavior(reg, stack);
    ends_of_runs(reg, ctx, slot, stack, scene);
}

/// Bone meal fails, whatever is in front.
pub proof fn bone_meal_fails(
    reg: &Registry,
    ctx: DispenseContext,
    slot: usize,
    stack: ItemStack,
    scene: Scene,
)
    requires
        scene.fits(),
        reg.distinct(),
        stack.item == reg.items.bone_meal,
    ensures
        promises::fails(promises::run(reg, ctx, slot, stack, scene), ctx, stack),
{
    promises::run_is_the_deed(reg, ctx, slot, stack, scene);
    behavior::each_item_has_its_own_behavior(reg, stack);
    ends_of_runs(reg, ctx, slot, stack, scene);
}

/// A run ends with the outcome of its deed.
proof fn ends_of_runs(
    reg: &Registry,
    ctx: DispenseContext,
    slot: usize,
    stack: ItemStack,
    scene: Scene,
)
    requires
        scene.fits(),
    ensures
        ({
            let ended = promises::run(reg, ctx, slot, stack, scene);
            let what = performance::deed(reg, ctx, slot, stack, scene);
            match what.outcome {
                DispenseOutcome::Success(sound) => promises::comes_to(
                    ended,
                    ctx,
                    what.item,
                    what.effects,
                    sound,
                ),
                DispenseOutcome::Failure => promises::comes_to(
                    ended,
                    ctx,
                    what.item,
                    what.effects,
                    WorldEvent::SoundDispenserFail,
                ),
                DispenseOutcome::Drop => what.item == stack && what.effects.len() == 0
                    ==> promises::throws_one_out(
                    ended,
                    ctx,
                    stack,
                    WorldEvent::SoundDispenserDispense,
                ),
                DispenseOutcome::DropFailure => what.item == stack && what.effects.len() == 0
                    ==> promises::throws_one_out(
                    ended,
                    ctx,
                    stack,
                    WorldEvent::SoundDispenserFail,
                ),
            }
        }),
{
    promises::run_is_the_deed(reg, ctx, slot, stack, scene);
    let ended = promises::run(reg, ctx, slot, stack, scene);
    let what = performance::deed(reg, ctx, slot, stack, scene);
    let sound = dispenser::sound_of(what.outcome);
    if dispenser::is_drop(what.outcome) {
        if what.item == stack && what.effects.len() == 0 {
            let thrown = seq![
                Effect::DropStack { stack: promises::single(stack), pickup_delay: 40 },
            ];
            assert(ended.1 =~= thrown + dispenser::flourish(ctx, sound));
        }
    } else {
        assert(ended.1 =~= what.effects + dispenser::flourish(ctx, sound));
    }
}

/// Entry `i` of the block items is the first for an item, and makes it a shulker box.
pub open spec fn is_box(table: Seq<BlockItem>, i: int, id: u16, block: u16) -> bool {
    &&& 0 <= i < table.len()
    &&& table[i] == (BlockItem { item: id, block, shulker_box: true })
    &&& forall|j: int| 0 <= j < i ==> (#[trigger] table[j]).item != id
}

/// A shulker box is set down in front if what is there gives way. It opens the way the
/// dispenser faces if there is air underneath, and upwards if there is not. Otherwise
/// it fails.
pub proof fn shulker_boxes_are_set_down(
    reg: &Registry,
    ctx: DispenseContext,
    slot: usize,
    stack: ItemStack,
    scene: Scene,
    i: int,
    block: u16,
)
    requires
        scene.fits(),
        reg.distinct(),
        is_box(reg.block_items@, i, stack.item, block),
    ensures
        ({
            let ended = promises::run(reg, ctx, slot, stack, scene);
            let hanging = (scene.cell)(promises::under_front(ctx)).air;
            let placed = ended.1[0];
            if (scene.cell)(promises::front(ctx)).replaceable {
                &&& promises::uses_one(ended, ctx, stack, seq![placed])
                &&& placed is SetBlockState
                &&& placed->SetBlockState_position == promises::front(ctx)
                &&& placed->SetBlockState_notify is All
                &&& placed->SetBlockState_state is Towards
                &&& placed->SetBlockState_state->Towards_block == block
                &&& hanging ==> placed->SetBlockState_state->facing == ctx.facing
                &&& !hanging ==> placed->SetBlockState_state->facing is Up
            } else {
                promises::fails(ended, ctx, stack)
            }
        }),
{
    let table = reg.block_items@;
    let wanted = registry::made_of(table, stack.item);
    assert forall|j: int| 0 <= j < i implies !#[trigger] wanted(j) by {
        assert(table[j].item != stack.item);
    }
    search::first_index_at(table.len() as int, wanted, i);
    promises::run_is_the_deed(reg, ctx, slot, stack, scene);
    behavior::each_item_has_its_own_behavior(reg, stack);
    ends_of_runs(reg, ctx, slot, stack, scene);
    let ended = promises::run(reg, ctx, slot, stack, scene);
    if (scene.cell)(promises::front(ctx)).replaceable {
        assert(ended.1.take(1) =~= seq![ended.1[0]]);
        let what = performance::deed(reg, ctx, slot, stack, scene);
        assert(what.effects =~= seq![ended.1[0]]);
    }
}

/// Who may be dressed in an item that is only for some: whoever lives, takes part in the
/// game, and carries the tag or is of a listed type.
pub open spec fn may_wear(allowed: Option<protocol::EntitySetView>, wearer: Wearer) -> bool {
    &&& wearer.living
    &&& wearer.part_of_game
    &&& match allowed {
        None => true,
        Some(protocol::EntitySetView::Tag(_)) => wearer.tagged == Some(true),
        Some(protocol::EntitySetView::Ids(ids)) => exists|k: int|
            0 <= k < ids.len() && #[trigger] ids[k] == wearer.entity_type,
    }
}

/// The tag that those in front are asked for.
pub open spec fn tag_asked(worn: protocol::EquippableView) -> Option<u32> {
    match worn.allowed_entities {
        Some(protocol::EntitySetView::Tag(tag)) => Some(tag),
        _ => None,
    }
}

/// Everyone in front of a dispenser: the entities, and behind them the players.
pub open spec fn crowd(
    ctx: DispenseContext,
    worn: protocol::EquippableView,
    scene: Scene,
) -> Seq<Wearer> {
    (scene.entities)(promises::front(ctx), tag_asked(worn)) + (scene.players)(
        promises::front(ctx),
        tag_asked(worn),
    )
}

/// Number `i` in front may wear the item and has nothing on there.
pub open spec fn is_bare(
    ctx: DispenseContext,
    worn: protocol::EquippableView,
    scene: Scene,
    i: int,
) -> bool {
    &&& 0 <= i < crowd(ctx, worn, scene).len()
    &&& may_wear(worn.allowed_entities, crowd(ctx, worn, scene)[i])
    &&& (scene.nothing_worn)(i, worn.slot)
}

/// Number `i` is the first of those.
pub open spec fn is_first_bare(
    ctx: DispenseContext,
    worn: protocol::EquippableView,
    scene: Scene,
    i: int,
) -> bool {
    &&& is_bare(ctx, worn, scene, i)
    &&& forall|j: int| j < i ==> !#[trigger] is_bare(ctx, worn, scene, j)
}

/// The first one in front who may wear the item and has nothing on there is dressed in
/// one item, just as it was in the stack, with the sound of it. If there is nobody, or
/// the item is not for dispensers to put on, it is `otherwise`.
pub open spec fn dresses(
    ended: (dispenser::DispensingView, Seq<Effect>),
    ctx: DispenseContext,
    stack: ItemStack,
    scene: Scene,
    otherwise: bool,
) -> bool {
    match (scene.equippable)(stack) {
        Some(worn) if worn.dispensable => {
            &&& forall|i: int| #[trigger]
                is_first_bare(ctx, worn, scene, i) ==> promises::uses_one(
                    ended,
                    ctx,
                    stack,
                    seq![
                        Effect::SendEquipment {
                            entity: i as usize,
                            slot: worn.slot,
                            stack: promises::single(stack),
                        },
                        Effect::PlayEquipSound {
                            entity: i as usize,
                            equip_sound: worn.equip_sound,
                            category: SoundCategory::Blocks,
                        },
                        Effect::Equip {
                            entity: i as usize,
                            slot: worn.slot,
                            stack: promises::single(stack),
                        },
                    ],
                )
            &&& (forall|i: int| !#[trigger] is_bare(ctx, worn, scene, i)) ==> otherwise
        },
        _ => otherwise,
    }
}

proof fn dressing_is_right(
    ended: (dispenser::DispensingView, Seq<Effect>),
    reg: &Registry,
    ctx: DispenseContext,
    slot: usize,
    stack: ItemStack,
    scene: Scene,
    fallback: DispenseOutcome,
    otherwise: bool,
)
    requires
        scene.fits(),
        ended == promises::run(reg, ctx, slot, stack, scene),
        performance::deed(reg, ctx, slot, stack, scene) == performance::dressing_deed(
            ctx,
            stack,
            fallback,
            scene,
        ),
        performance::deed(reg, ctx, slot, stack, scene) == performance::left(stack, fallback)
            ==> otherwise,
    ensures
        dresses(ended, ctx, stack, scene, otherwise),
{
    promises::run_is_the_deed(reg, ctx, slot, stack, scene);
    ends_of_runs(reg, ctx, slot, stack, scene);
    let what = performance::deed(reg, ctx, slot, stack, scene);
    if (scene.equippable)(stack) is Some && (scene.equippable)(stack)->0.dispensable {
        let worn = (scene.equippable)(stack)->0;
        let all = crowd(ctx, worn, scene);
        let len = all.len() as int;
        let wanted = performance::dressable(worn.allowed_entities, worn.slot, all, scene);
        assert(scene.crowd(ctx, stack) == all);
        assert forall|i: int| 0 <= i < len implies #[trigger] wanted(i) == is_bare(
            ctx,
            worn,
            scene,
            i,
        ) by {
            wearing_is_allowed(worn.allowed_entities, all[i]);
        }
        search::first_index_none(len, wanted);
        assert forall|i: int| #[trigger] is_first_bare(ctx, worn, scene, i) implies what
            == performance::done(
            item::one_less(stack),
            equipment::dressing(stack, worn.slot, worn.equip_sound, i as usize).effects,
        ) by {
            assert(wanted(i));
            assert forall|j: int| 0 <= j < i implies !#[trigger] wanted(j) by {
                assert(!is_bare(ctx, worn, scene, j));
            }
            search::first_index_at(len, wanted, i);
        }
        if forall|i: int| !#[trigger] is_bare(ctx, worn, scene, i) {
            assert forall|j: int| 0 <= j < len implies !#[trigger] wanted(j) by {
                assert(!is_bare(ctx, worn, scene, j));
            }
        }
    }
}

/// Only who lives, takes part in the game and belongs to those whom the item allows may
/// be dressed in it.
pub proof fn wearing_is_allowed(allowed: Option<protocol::EntitySetView>, wearer: Wearer)
    ensures
        equipment::eligible(allowed, wearer) == may_wear(allowed, wearer),
{
    if let Some(protocol::EntitySetView::Ids(ids)) = allowed {
        if ids.contains(wearer.entity_type) {
            let k = choose|k: int| 0 <= k < ids.len() && ids[k] == wearer.entity_type;
            assert(ids[k] == wearer.entity_type);
        }
    }
}

/// The rotation of a skull, in sixteenths of a turn clockwise from south.
pub open spec fn compass(facing: Facing) -> u8 {
    match facing {
        Facing::West => 4,
        Facing::North => 8,
        Facing::East => 12,
        _ => 0,
    }
}

/// A wither skeleton skull or a carved pumpkin that finishes a pattern in the air in
/// front is set down there, the skull turned as the dispenser faces. Otherwise it is put
/// on someone, and failing that it fails.
pub proof fn heads_are_set_down_or_put_on(
    reg: &Registry,
    ctx: DispenseContext,
    slot: usize,
    stack: ItemStack,
    scene: Scene,
)
    requires
        scene.fits(),
        reg.distinct(),
        stack.item == reg.items.wither_skeleton_skull || stack.item == reg.items.carved_pumpkin,
    ensures
        ({
            let ended = promises::run(reg, ctx, slot, stack, scene);
            let front = promises::front(ctx);
            let skull = stack.item == reg.items.wither_skeleton_skull;
            let summon = if skull {
                Summon::Wither
            } else {
                Summon::Golem
            };
            if (scene.cell)(front).air && (scene.pattern)(summon, front) {
                promises::uses_one(
                    ended,
                    ctx,
                    stack,
                    seq![
                        promises::sets_front(
                            ctx,
                            if skull {
                                NewState::Rotation {
                                    block: reg.blocks.wither_skeleton_skull,
                                    rotation: compass(ctx.facing),
                                }
                            } else {
                                NewState::DefaultOf(reg.blocks.carved_pumpkin)
                            },
                        ),
                    ],
                )
            } else {
                dresses(ended, ctx, stack, scene, promises::fails(ended, ctx, stack))
            }
        }),
{
    let ended = promises::run(reg, ctx, slot, stack, scene);
    let front = promises::front(ctx);
    promises::run_is_the_deed(reg, ctx, slot, stack, scene);
    behavior::each_item_has_its_own_behavior(reg, stack);
    ends_of_runs(reg, ctx, slot, stack, scene);
    let summon = if stack.item == reg.items.wither_skeleton_skull {
        Summon::Wither
    } else {
        Summon::Golem
    };
    registry::items_have_numbers(reg.items);
    if !((scene.cell)(front).air && (scene.pattern)(summon, front)) {
        dressing_is_right(
            ended,
            reg,
            ctx,
            slot,
            stack,
            scene,
            DispenseOutcome::Failure,
            promises::fails(ended, ctx, stack),
        );
    }
}

/// The item is in none of the lists, or is one that is only listed to be recognized:
/// air, a honey bottle, or a potion of something else than plain water.
pub open spec fn has_no_use(reg: &Registry, stack: ItemStack) -> bool {
    ||| reg.listings(stack.item) == 0
    ||| stack.item == reg.items.air
    ||| stack.item == reg.items.honey_bottle
    ||| stack.item == reg.items.potion && (stack.potion_contents is None
        || stack.potion_contents->0.potion_id != Some(reg.water_potion as i32))
}

/// Any item without a use of its own is put on someone, and failing that one of them is
/// thrown out just as it was in the stack.
pub proof fn other_items_are_put_on_or_thrown_out(
    reg: &Registry,
    ctx: DispenseContext,
    slot: usize,
    stack: ItemStack,
    scene: Scene,
)
    requires
        scene.fits(),
        reg.distinct(),
        has_no_use(reg, stack),
    ensures
        ({
            let ended = promises::run(reg, ctx, slot, stack, scene);
            dresses(
                ended,
                ctx,
                stack,
                scene,
                promises::throws_one_out(ended, ctx, stack, WorldEvent::SoundDispenserDispense),
            )
        }),
{
    let ended = promises::run(reg, ctx, slot, stack, scene);
    let ids = reg.items.ids();
    promises::run_is_the_deed(reg, ctx, slot, stack, scene);
    behavior::each_item_has_its_own_behavior(reg, stack);
    ends_of_runs(reg, ctx, slot, stack, scene);
    registry::items_have_numbers(reg.items);
    assert(reg.listings(stack.item) <= 1);
    assert(forall|k: int| 0 <= k < 26 ==> ids.contains(#[trigger] ids[k]));
    assert(behavior::behavior_of(reg, stack) is Ordinary);
    dressing_is_right(
        ended,
        reg,
        ctx,
        slot,
        stack,
        scene,
        DispenseOutcome::Drop,
        promises::throws_one_out(ended, ctx, stack, WorldEvent::SoundDispenserDispense),
    );
}

} // verus!
