//! What a dispenser promises of a whole activation, told by what is around it and by
//! the fields of what it does.

use crate::behavior;
use crate::dispenser;
use crate::geometry;
use crate::geometry::{BlockPos, DispenseContext, Facing};
use crate::item;
use crate::item::ItemStack;
use crate::performance;
use crate::performance::Scene;
use crate::projectile;
use crate::protocol::{
    Animal, ArrowPickup, Effect, Gravity, NewState, Notify, Projectile, ProjectileSettings, Rail,
    Sound, SoundCategory, Spot, ThrownSettings, WorldEvent,
};
use crate::registry;
use crate::registry::Registry;
use crate::search;
use crate::tools;
use crate::turn::Phase;
use vstd::prelude::*;

verus! {

/// A whole activation: what has become of it once nothing is left to ask, and all
/// that was done.
pub open spec fn run(
    reg: &Registry,
    ctx: DispenseContext,
    slot: usize,
    stack: ItemStack,
    scene: Scene,
) -> (dispenser::DispensingView, Seq<Effect>) {
    let start = dispenser::begun(reg, ctx, slot, stack);
    performance::conversation(
        reg,
        scene,
        start.0,
        start.1,
        performance::enough(ctx, stack, scene),
    )
}

/// A coordinate one step further or one step back.
pub open spec fn stepped(coordinate: i32, by: int) -> i32 {
    if coordinate + by > i32::MAX {
        i32::MIN
    } else if coordinate + by < i32::MIN {
        i32::MAX
    } else {
        (coordinate + by) as i32
    }
}

/// The neighbor of a block: north is towards lower z, east towards higher x.
pub open spec fn neighbor(position: BlockPos, side: Facing) -> BlockPos {
    match side {
        Facing::North => BlockPos { z: stepped(position.z, -1), ..position },
        Facing::South => BlockPos { z: stepped(position.z, 1), ..position },
        Facing::West => BlockPos { x: stepped(position.x, -1), ..position },
        Facing::East => BlockPos { x: stepped(position.x, 1), ..position },
        Facing::Down => BlockPos { y: stepped(position.y, -1), ..position },
        Facing::Up => BlockPos { y: stepped(position.y, 1), ..position },
    }
}

/// The block in front of a dispenser.
pub open spec fn front(ctx: DispenseContext) -> BlockPos {
    neighbor(ctx.position, ctx.facing)
}

/// The block under the one in front.
pub open spec fn under_front(ctx: DispenseContext) -> BlockPos {
    neighbor(front(ctx), Facing::Down)
}

/// The number of a direction on the wire: two for each axis, in the order y, z, x.
pub open spec fn wire_number(facing: Facing) -> i32 {
    match facing {
        Facing::Down => 0,
        Facing::Up => 1,
        Facing::North => 2,
        Facing::South => 3,
        Facing::West => 4,
        Facing::East => 5,
    }
}

/// The stack without the item that is taken off it, with everything else it had.
pub open spec fn remaining(stack: ItemStack) -> ItemStack {
    ItemStack {
        item: stack.item,
        item_count: if stack.item_count == 0 {
            0
        } else {
            (stack.item_count - 1) as u8
        },
        potion_contents: stack.potion_contents,
        components: stack.components,
    }
}

/// The item that is taken off the stack, with everything that the stack had.
pub open spec fn single(stack: ItemStack) -> ItemStack {
    ItemStack {
        item: stack.item,
        item_count: if stack.item_count == 0 {
            0
        } else {
            1
        },
        potion_contents: stack.potion_contents,
        components: stack.components,
    }
}

/// New items without data of their own.
pub open spec fn fresh(count: u8, item: u16) -> ItemStack {
    ItemStack { item, item_count: count, potion_contents: None, components: 0 }
}

/// The activation has come to an end. It left `rest` in the slot; it did `acts`, and
/// then came the sound, the smoke the way the block faces, and the dirty mark.
pub open spec fn comes_to(
    ended: (dispenser::DispensingView, Seq<Effect>),
    ctx: DispenseContext,
    rest: ItemStack,
    acts: Seq<Effect>,
    sound: WorldEvent,
) -> bool {
    &&& ended.0.phase is Finished
    &&& ended.0.item == rest
    &&& ended.1 == acts + seq![
        Effect::SyncWorldEvent { event: sound, position: ctx.position, data: 0 },
        Effect::SyncWorldEvent {
            event: WorldEvent::ParticlesShootSmoke,
            position: ctx.position,
            data: wire_number(ctx.facing),
        },
        Effect::MarkDirty,
    ]
}

/// One item was put to use: `acts` were done and it is gone from the stack.
pub open spec fn uses_one(
    ended: (dispenser::DispensingView, Seq<Effect>),
    ctx: DispenseContext,
    stack: ItemStack,
    acts: Seq<Effect>,
) -> bool {
    comes_to(ended, ctx, remaining(stack), acts, WorldEvent::SoundDispenserDispense)
}

/// One item was thrown out as it was, and nothing else was done.
pub open spec fn throws_one_out(
    ended: (dispenser::DispensingView, Seq<Effect>),
    ctx: DispenseContext,
    stack: ItemStack,
    sound: WorldEvent,
) -> bool {
    comes_to(
        ended,
        ctx,
        remaining(stack),
        seq![Effect::DropStack { stack: single(stack), pickup_delay: 40 }],
        sound,
    )
}

/// Nothing was done but to sound like a failure.
pub open spec fn fails(
    ended: (dispenser::DispensingView, Seq<Effect>),
    ctx: DispenseContext,
    stack: ItemStack,
) -> bool {
    comes_to(ended, ctx, stack, seq![], WorldEvent::SoundDispenserFail)
}

/// A change of the block in front that everyone hears of.
pub open spec fn sets_front(ctx: DispenseContext, state: NewState) -> Effect {
    Effect::SetBlockState { position: front(ctx), state, notify: Notify::All }
}

/// A sound of a block.
pub open spec fn sounds(sound: Sound, spot: Spot) -> Effect {
    Effect::PlaySound { sound, category: SoundCategory::Blocks, spot }
}

/// The block that a dispenser acts on lies one step away, the way it faces.
pub proof fn the_target_is_the_next_block(ctx: DispenseContext)
    ensures
        geometry::target_of(ctx) == front(ctx),
        geometry::below(geometry::target_of(ctx)) == under_front(ctx),
        geometry::data3d_of(ctx.facing) == wire_number(ctx.facing),
{
}

/// A run is what the deed says.
pub proof fn run_is_the_deed(
    reg: &Registry,
    ctx: DispenseContext,
    slot: usize,
    stack: ItemStack,
    scene: Scene,
)
    requires
        scene.fits(),
    ensures
        ({
            let ended = run(reg, ctx, slot, stack, scene);
            let what = performance::deed(reg, ctx, slot, stack, scene);
            &&& ended.0.phase == Phase::Finished
            &&& ended.0.item == performance::leftover(what)
            &&& ended.1 == performance::performance(ctx, what)
            &&& geometry::target_of(ctx) == front(ctx)
            &&& geometry::below(geometry::target_of(ctx)) == under_front(ctx)
            &&& geometry::data3d_of(ctx.facing) == wire_number(ctx.facing)
            &&& item::one_less(stack) == remaining(stack)
            &&& item::one_of(stack) == single(stack)
        }),
{
    performance::activation_performs_the_deed(
        reg,
        ctx,
        slot,
        stack,
        scene,
        performance::enough(ctx, stack, scene),
    );
    the_target_is_the_next_block(ctx);
}

/// What a projectile item turns into.
pub open spec fn flies_as(reg: &Registry, id: u16) -> Projectile {
    let items = reg.items;
    if id == items.snowball {
        Projectile::Snowball
    } else if id == items.egg || id == items.blue_egg || id == items.brown_egg {
        Projectile::Egg
    } else if id == items.splash_potion {
        Projectile::SplashPotion
    } else if id == items.lingering_potion {
        Projectile::LingeringPotion
    } else if id == items.firework_rocket {
        Projectile::FireworkRocket
    } else if id == items.fire_charge {
        Projectile::SmallFireball
    } else if id == items.wind_charge {
        Projectile::WindCharge
    } else if id == items.spectral_arrow {
        Projectile::SpectralArrow
    } else {
        Projectile::Arrow
    }
}

/// A projectile item is shot, one at a time. Eggs and potions carry the item along
/// with all its data, so that a potion still has its effects where it lands; nothing
/// else carries anything. Arrows may be picked up. The sound, the power and the
/// spread are those of the projectile.
pub proof fn projectiles_are_shot(
    reg: &Registry,
    ctx: DispenseContext,
    slot: usize,
    stack: ItemStack,
    scene: Scene,
)
    requires
        scene.fits(),
        ({
            let id = stack.item;
            let items = reg.items;
            ||| id == items.arrow
            ||| id == items.tipped_arrow
            ||| id == items.spectral_arrow
            ||| id == items.egg
            ||| id == items.blue_egg
            ||| id == items.brown_egg
            ||| id == items.snowball
            ||| id == items.splash_potion
            ||| id == items.lingering_potion
            ||| id == items.firework_rocket
            ||| id == items.fire_charge
            ||| id == items.wind_charge
        }),
    ensures
        ({
            let ended = run(reg, ctx, slot, stack, scene);
            let what = flies_as(reg, stack.item);
            let shot = ended.1[0];
            let potion = what is SplashPotion || what is LingeringPotion;
            let arrow = what is Arrow || what is SpectralArrow;
            &&& comes_to(
                ended,
                ctx,
                remaining(stack),
                seq![shot],
                match what {
                    Projectile::FireworkRocket => WorldEvent::SoundFireworkShoot,
                    Projectile::SmallFireball => WorldEvent::SoundBlazeFireball,
                    Projectile::WindCharge => WorldEvent::SoundWindChargeShoot,
                    _ => WorldEvent::SoundDispenserProjectileLaunch,
                },
            )
            &&& shot is Shoot
            &&& shot->projectile == what
            &&& shot->carried is Some <==> potion || what is Egg
            &&& shot->carried is Some ==> {
                let carried = shot->carried->0;
                &&& carried.item == stack.item
                &&& carried.potion_contents == stack.potion_contents
                &&& carried.components == stack.components
                &&& stack.item_count > 0 ==> carried.item_count == 1
            }
            &&& shot->settings == (ProjectileSettings {
                owner: None,
                pickup: if arrow {
                    Some(ArrowPickup::Allowed)
                } else {
                    None
                },
                thrown: if what is WindCharge {
                    Some(
                        ThrownSettings {
                            collides_with_projectiles: false,
                            has_hit: false,
                            gravity: Gravity::WindCharge,
                        },
                    )
                } else {
                    None
                },
            })
            &&& shot->launch.power_milli == (match what {
                Projectile::FireworkRocket => 500u32,
                Projectile::SmallFireball => 1000u32,
                Projectile::SplashPotion
                | Projectile::LingeringPotion
                | Projectile::WindCharge => 1375u32,
                _ => 1100u32,
            })
            &&& shot->launch.uncertainty_e7 == (match what {
                Projectile::FireworkRocket => 10_000_000u32,
                Projectile::SmallFireball => 66_666_665u32,
                Projectile::SplashPotion
                | Projectile::LingeringPotion
                | Projectile::WindCharge => 30_000_000u32,
                _ => 60_000_000u32,
            })
        }),
{
    run_is_the_deed(reg, ctx, slot, stack, scene);
    let ended = run(reg, ctx, slot, stack, scene);
    assert(ended.1 =~= seq![ended.1[0]] + dispenser::flourish(
        ctx,
        projectile::shot_of(reg.items, stack.item).sound,
    ));
}

/// There is water in a block, still or flowing.
pub open spec fn wet(reg: &Registry, scene: Scene, position: BlockPos) -> bool {
    let fluid = (scene.cell)(position).fluid;
    fluid == reg.fluids.water || fluid == reg.fluids.flowing_water
}

/// Neither a block nor an entity is in the way.
pub open spec fn clear(scene: Scene, position: BlockPos, entity_type: u16) -> bool {
    (scene.room)(position, entity_type).0 && (scene.room)(position, entity_type).1 == 0
}

/// Entry `i` of a table is the first for an item, and gives it `value`.
pub open spec fn names(table: Seq<(u16, u16)>, i: int, id: u16, value: u16) -> bool {
    &&& 0 <= i < table.len()
    &&& table[i].0 == id
    &&& table[i].1 == value
    &&& forall|j: int| 0 <= j < i ==> (#[trigger] table[j]).0 != id
}

proof fn named_entries_are_found(table: Seq<(u16, u16)>, i: int, id: u16, value: u16)
    requires
        names(table, i, id, value),
    ensures
        registry::entry_of(table, id) == Some(value),
{
    let wanted = registry::keyed(table, id);
    assert forall|j: int| 0 <= j < i implies !#[trigger] wanted(j) by {
        assert(table[j].0 != id);
    }
    search::first_index_at(table.len() as int, wanted, i);
}

/// A boat is set afloat in the water in front or, past a block of air, on the water
/// under it, if there is room for it there. Otherwise it is thrown out.
pub proof fn boats_are_set_afloat(
    reg: &Registry,
    ctx: DispenseContext,
    slot: usize,
    stack: ItemStack,
    scene: Scene,
    i: int,
    entity_type: u16,
)
    requires
        scene.fits(),
        reg.distinct(),
        names(reg.boats@, i, stack.item, entity_type),
    ensures
        ({
            let ended = run(reg, ctx, slot, stack, scene);
            let ahead = wet(reg, scene, front(ctx));
            let below = !ahead && (scene.cell)(front(ctx)).air && wet(
                reg,
                scene,
                under_front(ctx),
            );
            let place = if ahead {
                front(ctx)
            } else {
                under_front(ctx)
            };
            if (ahead || below) && clear(scene, place, entity_type) {
                uses_one(
                    ended,
                    ctx,
                    stack,
                    seq![Effect::SpawnBoat { entity_type, position: place }],
                )
            } else {
                throws_one_out(ended, ctx, stack, WorldEvent::SoundDispenserDispense)
            }
        }),
{
    run_is_the_deed(reg, ctx, slot, stack, scene);
    behavior::each_item_has_its_own_behavior(reg, stack);
    named_entries_are_found(reg.boats@, i, stack.item, entity_type);
    let ended = run(reg, ctx, slot, stack, scene);
    let what = performance::deed(reg, ctx, slot, stack, scene);
    assert(ended.1 =~= performance::performance(ctx, what));
    assert(throws_one_out(ended, ctx, stack, WorldEvent::SoundDispenserDispense) || uses_one(
        ended,
        ctx,
        stack,
        what.effects,
    )) by {
        if what.outcome is Success {
            assert(ended.1 =~= what.effects + dispenser::flourish(
                ctx,
                WorldEvent::SoundDispenserDispense,
            ));
        } else {
            let thrown = seq![Effect::DropStack { stack: single(stack), pickup_delay: 40 }];
            assert(ended.1 =~= thrown + dispenser::flourish(
                ctx,
                WorldEvent::SoundDispenserDispense,
            ));
        }
    }
}

/// Whether a rail climbs, if the block is one of either kind.
pub open spec fn climbs(scene: Scene, position: BlockPos) -> Option<bool> {
    match (scene.cell)(position).rail {
        Some(Rail::Powered { ascending }) => Some(ascending),
        Some(Rail::Plain { ascending }) => Some(ascending),
        None => None,
    }
}

/// A minecart is put on the rail in front or, past a block of air, on the rail under
/// it; how high depends on whether the rail climbs, and underneath also on whether
/// the dispenser looks straight down. Without a rail it is thrown out.
pub proof fn minecarts_are_put_on_rails(
    reg: &Registry,
    ctx: DispenseContext,
    slot: usize,
    stack: ItemStack,
    scene: Scene,
    i: int,
    entity_type: u16,
)
    requires
        scene.fits(),
        reg.distinct(),
        names(reg.minecarts@, i, stack.item, entity_type),
    ensures
        ({
            let ended = run(reg, ctx, slot, stack, scene);
            let ahead = climbs(scene, front(ctx));
            let below = climbs(scene, under_front(ctx));
            let put = |tenths: int|
                uses_one(
                    ended,
                    ctx,
                    stack,
                    seq![Effect::SpawnMinecart { entity_type, height_tenths: tenths as i32 }],
                );
            &&& ahead == Some(true) ==> put(6)
            &&& ahead == Some(false) ==> put(1)
            &&& ahead is None && (scene.cell)(front(ctx)).air && below == Some(true) ==> put(
                if ctx.facing is Down {
                    -9
                } else {
                    -4
                },
            )
            &&& ahead is None && (scene.cell)(front(ctx)).air && below == Some(false) ==> put(-9)
            &&& ahead is None && (!(scene.cell)(front(ctx)).air || below is None)
                ==> throws_one_out(ended, ctx, stack, WorldEvent::SoundDispenserDispense)
        }),
{
    run_is_the_deed(reg, ctx, slot, stack, scene);
    behavior::each_item_has_its_own_behavior(reg, stack);
    named_entries_are_found(reg.minecarts@, i, stack.item, entity_type);
    let ended = run(reg, ctx, slot, stack, scene);
    let what = performance::deed(reg, ctx, slot, stack, scene);
    let closing = dispenser::flourish(ctx, WorldEvent::SoundDispenserDispense);
    if what.outcome is Success {
        assert(ended.1 =~= what.effects + closing);
    } else {
        let thrown = seq![Effect::DropStack { stack: single(stack), pickup_delay: 40 }];
        assert(ended.1 =~= thrown + closing);
    }
}

/// An armor stand is set up in front if there is room for it, and thrown out if not.
pub proof fn armor_stands_are_set_up(
    reg: &Registry,
    ctx: DispenseContext,
    slot: usize,
    stack: ItemStack,
    scene: Scene,
)
    requires
        scene.fits(),
        reg.distinct(),
        stack.item == reg.items.armor_stand,
    ensures
        ({
            let ended = run(reg, ctx, slot, stack, scene);
            if clear(scene, front(ctx), reg.armor_stand_entity) {
                uses_one(
                    ended,
                    ctx,
                    stack,
                    seq![
                        sounds(Sound::EntityArmorStandPlace, Spot::Floor(front(ctx))),
                        Effect::SpawnArmorStand { position: front(ctx) },
                    ],
                )
            } else {
                throws_one_out(ended, ctx, stack, WorldEvent::SoundDispenserDispense)
            }
        }),
{
    run_is_the_deed(reg, ctx, slot, stack, scene);
    behavior::each_item_has_its_own_behavior(reg, stack);
    let ended = run(reg, ctx, slot, stack, scene);
    let what = performance::deed(reg, ctx, slot, stack, scene);
    let closing = dispenser::flourish(ctx, WorldEvent::SoundDispenserDispense);
    if what.outcome is Success {
        assert(ended.1 =~= what.effects + closing);
    } else {
        let thrown = seq![Effect::DropStack { stack: single(stack), pickup_delay: 40 }];
        assert(ended.1 =~= thrown + closing);
    }
}

/// TNT comes out primed, whatever is in front.
pub proof fn tnt_comes_out_primed(
    reg: &Registry,
    ctx: DispenseContext,
    slot: usize,
    stack: ItemStack,
    scene: Scene,
)
    requires
        scene.fits(),
        reg.distinct(),
        stack.item == reg.items.tnt,
    ensures
        uses_one(
            run(reg, ctx, slot, stack, scene),
            ctx,
            stack,
            seq![
                Effect::SpawnTnt { position: front(ctx), power: 4, fuse: 80 },
                sounds(Sound::EntityTntPrimed, Spot::Floor(front(ctx))),
            ],
        ),
{
    run_is_the_deed(reg, ctx, slot, stack, scene);
    behavior::each_item_has_its_own_behavior(reg, stack);
}

/// A spawn egg hatches in front, whatever is there, under the identifier that was
/// drawn for the mob.
pub proof fn spawn_eggs_hatch(
    reg: &Registry,
    ctx: DispenseContext,
    slot: usize,
    stack: ItemStack,
    scene: Scene,
    i: int,
    entity_type: u16,
)
    requires
        scene.fits(),
        reg.distinct(),
        names(reg.spawn_eggs@, i, stack.item, entity_type),
    ensures
        uses_one(
            run(reg, ctx, slot, stack, scene),
            ctx,
            stack,
            seq![
                Effect::SpawnMob {
                    entity_type,
                    position: front(ctx),
                    uuid: scene.uuid,
                    egg: remaining(stack),
                },
            ],
        ),
{
    run_is_the_deed(reg, ctx, slot, stack, scene);
    behavior::each_item_has_its_own_behavior(reg, stack);
    named_entries_are_found(reg.spawn_eggs@, i, stack.item, entity_type);
}

/// A bucket with something in it is emptied, or its contents boil away; either way
/// one empty bucket is left. If neither is possible it is thrown out as it is.
pub proof fn filled_buckets_are_emptied(
    reg: &Registry,
    ctx: DispenseContext,
    slot: usize,
    stack: ItemStack,
    scene: Scene,
    i: int,
)
    requires
        scene.fits(),
        reg.distinct(),
        0 <= i < reg.filled_buckets@.len(),
        reg.filled_buckets@[i] == stack.item,
    ensures
        ({
            let ended = run(reg, ctx, slot, stack, scene);
            let empty = fresh(1, reg.items.bucket);
            let sound = WorldEvent::SoundDispenserDispense;
            if (scene.evaporates)(stack.item) {
                comes_to(
                    ended,
                    ctx,
                    empty,
                    seq![Effect::PlayEvaporation { spot: Spot::Center(front(ctx)) }],
                    sound,
                )
            } else if (scene.emptied)(stack.item, ctx.position, ctx.facing) {
                comes_to(ended, ctx, empty, seq![], sound)
            } else {
                throws_one_out(ended, ctx, stack, sound)
            }
        }),
{
    run_is_the_deed(reg, ctx, slot, stack, scene);
    behavior::each_item_has_its_own_behavior(reg, stack);
    assert(reg.filled_buckets@.contains(stack.item));
    let ended = run(reg, ctx, slot, stack, scene);
    let what = performance::deed(reg, ctx, slot, stack, scene);
    let closing = dispenser::flourish(ctx, WorldEvent::SoundDispenserDispense);
    if what.outcome is Success {
        assert(ended.1 =~= what.effects + closing);
    } else {
        let thrown = seq![Effect::DropStack { stack: single(stack), pickup_delay: 40 }];
        assert(ended.1 =~= thrown + closing);
    }
}

/// Flint and steel primes TNT in front, or sets fire there, and wears down by one
/// use. If nothing catches fire it fails.
pub proof fn flint_and_steel_makes_fire(
    reg: &Registry,
    ctx: DispenseContext,
    slot: usize,
    stack: ItemStack,
    scene: Scene,
)
    requires
        scene.fits(),
        reg.distinct(),
        stack.item == reg.items.flint_and_steel,
    ensures
        ({
            let ended = run(reg, ctx, slot, stack, scene);
            let worn = (scene.worn_down)(stack, 1);
            let sound = WorldEvent::SoundDispenserDispense;
            if (scene.cell)(front(ctx)).block == reg.blocks.tnt {
                comes_to(ended, ctx, worn, seq![Effect::PrimeTnt { position: front(ctx) }], sound)
            } else if (scene.ignited)(front(ctx), Notify::All) {
                comes_to(ended, ctx, worn, seq![], sound)
            } else {
                fails(ended, ctx, stack)
            }
        }),
{
    run_is_the_deed(reg, ctx, slot, stack, scene);
    behavior::each_item_has_its_own_behavior(reg, stack);
    let ended = run(reg, ctx, slot, stack, scene);
    let what = performance::deed(reg, ctx, slot, stack, scene);
    assert(ended.1 =~= what.effects + dispenser::flourish(
        ctx,
        dispenser::sound_of(what.outcome),
    ));
}

/// A hive in front has all the honey it can have.
pub open spec fn brims(scene: Scene, position: BlockPos) -> bool {
    let honey_level = (scene.cell)(position).honey_level;
    honey_level is Some && honey_level->0 >= 5
}

/// The hive in front loses its honey, and nothing else about it changes.
pub open spec fn drains_hive(ctx: DispenseContext, scene: Scene) -> Effect {
    let hive = (scene.cell)(front(ctx));
    sets_front(ctx, NewState::HoneyLevel { block: hive.block, state: hive.state, level: 0 })
}

/// Animal `i` is the first that is a living sheep with its wool on.
pub open spec fn first_woolly(flock: Seq<Animal>, i: int) -> bool {
    &&& 0 <= i < flock.len()
    &&& flock[i].sheep && flock[i].alive && !flock[i].sheared
    &&& forall|j: int|
        0 <= j < i ==> !((#[trigger] flock[j]).sheep && flock[j].alive && !flock[j].sheared)
}

/// The wool of a color; white for every number past the last.
pub open spec fn dyed_wool(reg: &Registry, color: u8) -> u16 {
    if color < 16 {
        reg.wool.ids()[color as int]
    } else {
        reg.wool.white
    }
}

/// Shears take three honeycombs out of a brimming hive in front. Otherwise they shear
/// the first living sheep there with its wool on, which drops as much wool of its color
/// as was drawn from one to three. Either way they wear down by one use. If there is
/// neither, they fail.
pub proof fn shears_harvest_hives_and_sheep(
    reg: &Registry,
    ctx: DispenseContext,
    slot: usize,
    stack: ItemStack,
    scene: Scene,
    i: int,
)
    requires
        scene.fits(),
        reg.distinct(),
        stack.item == reg.items.shears,
    ensures
        ({
            let ended = run(reg, ctx, slot, stack, scene);
            let worn = (scene.worn_down)(stack, 1);
            let sound = WorldEvent::SoundDispenserDispense;
            let flock = (scene.animals)(front(ctx));
            &&& brims(scene, front(ctx)) ==> comes_to(
                ended,
                ctx,
                worn,
                seq![
                    sounds(Sound::BlockBeehiveShear, Spot::Block(front(ctx))),
                    Effect::DropAt {
                        spot: Spot::Center(front(ctx)),
                        stack: fresh(3, reg.items.honeycomb),
                    },
                    drains_hive(ctx, scene),
                ],
                sound,
            )
            &&& !brims(scene, front(ctx)) && first_woolly(flock, i) ==> comes_to(
                ended,
                ctx,
                worn,
                seq![
                    Effect::SetSheared { entity: i as usize },
                    sounds(Sound::EntitySheepShear, Spot::Entity(i as usize)),
                    Effect::DropAt {
                        spot: Spot::Entity(i as usize),
                        stack: fresh((scene.drawn)(1, 3), dyed_wool(reg, flock[i].color)),
                    },
                ],
                sound,
            )
            &&& !brims(scene, front(ctx)) && (forall|j: int|
                0 <= j < flock.len() ==> !((#[trigger] flock[j]).sheep && flock[j].alive
                    && !flock[j].sheared)) ==> fails(ended, ctx, stack)
        }),
{
    run_is_the_deed(reg, ctx, slot, stack, scene);
    behavior::each_item_has_its_own_behavior(reg, stack);
    let ended = run(reg, ctx, slot, stack, scene);
    let what = performance::deed(reg, ctx, slot, stack, scene);
    let flock = (scene.animals)(front(ctx));
    let len = flock.len() as int;
    let wanted = tools::shearable(flock);
    if first_woolly(flock, i) {
        assert forall|j: int| 0 <= j < i implies !#[trigger] wanted(j) by {
            assert(!(flock[j].sheep && flock[j].alive && !flock[j].sheared));
        }
        search::first_index_at(len, wanted, i);
        registry::sixteen_colors_give_sixteen_wools(reg.wool, flock[i].color, 0);
        if !brims(scene, front(ctx)) {
            assert(what.effects =~= seq![
                Effect::SetSheared { entity: i as usize },
                sounds(Sound::EntitySheepShear, Spot::Entity(i as usize)),
                Effect::DropAt {
                    spot: Spot::Entity(i as usize),
                    stack: fresh((scene.drawn)(1, 3), dyed_wool(reg, flock[i].color)),
                },
            ]);
        }
    }
    if forall|j: int|
        0 <= j < flock.len() ==> !((#[trigger] flock[j]).sheep && flock[j].alive
            && !flock[j].sheared) {
        assert forall|j: int| 0 <= j < len implies !#[trigger] wanted(j) by {
            assert(!(flock[j].sheep && flock[j].alive && !flock[j].sheared));
        }
        search::first_index_none(len, wanted);
    }
    assert(ended.1 =~= what.effects + dispenser::flourish(
        ctx,
        dispenser::sound_of(what.outcome),
    ));
}

} // verus!
