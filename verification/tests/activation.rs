use dispenser::dispenser::DispenserBlock;
use dispenser::geometry::{BlockPos, DispenseContext, Facing};
use dispenser::item::{water_bottle, ItemStack};
use dispenser::projectile::settings_for;
use dispenser::protocol::{
    Animal, ArrowPickup, Cell, Effect, EntitySet, EquipmentSlot, Equippable, Gravity,
    LaunchProfile, NewState, Notify, Projectile, ProjectileSettings, Query, Rail, Reply,
    SlotContents, Sound, SoundCategory, Spot, Summon, ThrownSettings, Wearer, WorldEvent,
};
use dispenser::registry::{BlockIds, BlockItem, FluidIds, ItemIds, Registry, WoolIds};

fn registry() -> Registry {
    Registry {
        items: ItemIds {
            air: 0,
            arrow: 1,
            tipped_arrow: 2,
            spectral_arrow: 3,
            egg: 4,
            blue_egg: 5,
            brown_egg: 6,
            snowball: 7,
            splash_potion: 8,
            lingering_potion: 9,
            firework_rocket: 10,
            fire_charge: 11,
            wind_charge: 12,
            armor_stand: 13,
            tnt: 14,
            bucket: 15,
            flint_and_steel: 16,
            shears: 17,
            glass_bottle: 18,
            potion: 19,
            honey_bottle: 20,
            honeycomb: 21,
            glowstone: 22,
            bone_meal: 23,
            wither_skeleton_skull: 24,
            carved_pumpkin: 25,
        },
        wool: WoolIds {
            white: 100,
            orange: 101,
            magenta: 102,
            light_blue: 103,
            yellow: 104,
            lime: 105,
            pink: 106,
            gray: 107,
            light_gray: 108,
            cyan: 109,
            purple: 110,
            blue: 111,
            brown: 112,
            green: 113,
            red: 114,
            black: 115,
        },
        blocks: BlockIds {
            tnt: 200,
            respawn_anchor: 201,
            wither_skeleton_skull: 202,
            carved_pumpkin: 203,
            mud: 204,
        },
        fluids: FluidIds {
            water: 2,
            flowing_water: 1,
        },
        armor_stand_entity: 300,
        water_potion: 7,
        boats: vec![(30, 301), (31, 302), (30, 399)],
        minecarts: vec![(32, 303)],
        spawn_eggs: vec![(33, 304)],
        filled_buckets: vec![34, 35],
        block_items: vec![
            BlockItem {
                item: 36,
                block: 205,
                shulker_box: true,
            },
            BlockItem {
                item: 37,
                block: 206,
                shulker_box: false,
            },
        ],
    }
}

const HERE: BlockPos = BlockPos { x: 5, y: 64, z: 5 };
const FRONT: BlockPos = BlockPos { x: 6, y: 64, z: 5 };
const UNDER: BlockPos = BlockPos { x: 6, y: 63, z: 5 };
const SLOT: usize = 1;

/// What an activation asked, did and left behind.
struct Run {
    asked: Vec<Query>,
    effects: Vec<Effect>,
    item: ItemStack,
}

fn run_facing(facing: Facing, stack: ItemStack, replies: Vec<Reply>) -> Run {
    let reg = registry();
    let ctx = DispenseContext::new(HERE, facing);
    let (mut dispensing, mut effects) = DispenserBlock::dispense(&reg, ctx, SLOT, stack);
    let mut asked = Vec::new();
    for reply in replies {
        asked.push(dispensing.pending().expect("a question"));
        effects.extend(dispensing.advance(&reg, reply));
    }
    assert_eq!(dispensing.pending(), None);
    assert_eq!(dispensing.slot, SLOT);
    Run {
        asked,
        effects,
        item: dispensing.item,
    }
}

/// The dispenser faces east.
fn run(stack: ItemStack, replies: Vec<Reply>) -> Run {
    run_facing(Facing::East, stack, replies)
}

fn closing(sound: WorldEvent, smoke: i32) -> Vec<Effect> {
    vec![
        Effect::SyncWorldEvent {
            event: sound,
            position: HERE,
            data: 0,
        },
        Effect::SyncWorldEvent {
            event: WorldEvent::ParticlesShootSmoke,
            position: HERE,
            data: smoke,
        },
        Effect::MarkDirty,
    ]
}

fn with_sound(mut effects: Vec<Effect>, sound: WorldEvent) -> Vec<Effect> {
    effects.extend(closing(sound, 5));
    effects
}

fn dispensed(effects: Vec<Effect>) -> Vec<Effect> {
    with_sound(effects, WorldEvent::SoundDispenserDispense)
}

fn failed() -> Vec<Effect> {
    closing(WorldEvent::SoundDispenserFail, 5)
}

fn stack(count: u8, item: u16) -> ItemStack {
    ItemStack::new(count, item)
}

fn throw(stack: ItemStack) -> Effect {
    Effect::DropStack {
        stack,
        pickup_delay: 40,
    }
}

fn thrown(item: u16) -> Vec<Effect> {
    dispensed(vec![throw(stack(1, item))])
}

fn stone() -> Cell {
    Cell {
        block: 1,
        state: 10,
        fluid: 0,
        air: false,
        replaceable: false,
        rail: None,
        honey_level: None,
        convertible_to_mud: false,
        charges: 0,
    }
}

fn air() -> Cell {
    Cell {
        block: 0,
        state: 0,
        air: true,
        replaceable: true,
        ..stone()
    }
}

fn water() -> Cell {
    Cell {
        block: 2,
        fluid: 2,
        replaceable: true,
        ..stone()
    }
}

fn rail(ascending: bool) -> Cell {
    Cell {
        rail: Some(Rail::Plain { ascending }),
        ..stone()
    }
}

fn powered_rail(ascending: bool) -> Cell {
    Cell {
        rail: Some(Rail::Powered { ascending }),
        ..stone()
    }
}

fn hive(honey_level: u8) -> Cell {
    Cell {
        block: 50,
        state: 500,
        honey_level: Some(honey_level),
        ..stone()
    }
}

fn room() -> Reply {
    Reply::Room {
        space_empty: true,
        obstacles: 0,
    }
}

fn set_front(state: NewState) -> Effect {
    Effect::SetBlockState {
        position: FRONT,
        state,
        notify: Notify::All,
    }
}

fn look_front() -> Query {
    Query::Cell { position: FRONT }
}

fn look_under() -> Query {
    Query::Cell { position: UNDER }
}

fn shot(item: u16) -> (Effect, WorldEvent) {
    let run = run(stack(3, item), Vec::new());
    assert_eq!(run.item, stack(2, item));
    assert_eq!(run.effects.len(), 4);
    match run.effects[1] {
        Effect::SyncWorldEvent { event, .. } => {
            assert_eq!(run.effects[1..], closing(event, 5)[..]);
            (run.effects[0], event)
        }
        _ => panic!("no sound"),
    }
}

fn shoot(projectile: Projectile, carried: Option<ItemStack>, power: u32, spread: u32) -> Effect {
    Effect::Shoot {
        projectile,
        settings: settings_for(projectile),
        carried,
        launch: LaunchProfile {
            power_milli: power,
            uncertainty_e7: spread,
        },
    }
}

#[test]
fn arrows_and_snowballs_fly() {
    let launch = WorldEvent::SoundDispenserProjectileLaunch;
    let usual = |projectile: Projectile| (shoot(projectile, None, 1100, 60_000_000), launch);
    assert_eq!(shot(1), usual(Projectile::Arrow));
    assert_eq!(shot(2), usual(Projectile::Arrow));
    assert_eq!(shot(3), usual(Projectile::SpectralArrow));
    assert_eq!(shot(7), usual(Projectile::Snowball));
}

#[test]
fn eggs_and_potions_carry_their_item() {
    let launch = WorldEvent::SoundDispenserProjectileLaunch;
    for egg in 4..=6u16 {
        let carried = Some(stack(1, egg));
        assert_eq!(
            shot(egg),
            (shoot(Projectile::Egg, carried, 1100, 60_000_000), launch)
        );
    }
    assert_eq!(
        shot(8),
        (
            shoot(Projectile::SplashPotion, Some(stack(1, 8)), 1375, 30_000_000),
            launch
        )
    );
    assert_eq!(
        shot(9),
        (
            shoot(Projectile::LingeringPotion, Some(stack(1, 9)), 1375, 30_000_000),
            launch
        )
    );
}

#[test]
fn rockets_and_charges_have_sounds_of_their_own() {
    assert_eq!(
        shot(10),
        (
            shoot(Projectile::FireworkRocket, None, 500, 10_000_000),
            WorldEvent::SoundFireworkShoot
        )
    );
    assert_eq!(
        shot(11),
        (
            shoot(Projectile::SmallFireball, None, 1000, 66_666_665),
            WorldEvent::SoundBlazeFireball
        )
    );
    assert_eq!(
        shot(12),
        (
            shoot(Projectile::WindCharge, None, 1375, 30_000_000),
            WorldEvent::SoundWindChargeShoot
        )
    );
}

#[test]
fn shots_have_no_owner() {
    let plain = ProjectileSettings {
        owner: None,
        pickup: None,
        thrown: None,
    };
    let arrow = ProjectileSettings {
        pickup: Some(ArrowPickup::Allowed),
        ..plain
    };
    let charge = ProjectileSettings {
        thrown: Some(ThrownSettings {
            collides_with_projectiles: false,
            has_hit: false,
            gravity: Gravity::WindCharge,
        }),
        ..plain
    };
    for item in 1..=12u16 {
        let expected = match item {
            1..=3 => arrow,
            12 => charge,
            _ => plain,
        };
        match shot(item).0 {
            Effect::Shoot { settings, .. } => assert_eq!(settings, expected),
            _ => panic!("no shot"),
        }
    }
}

#[test]
fn smoke_goes_where_the_block_faces() {
    for (facing, smoke) in [(Facing::Down, 0), (Facing::North, 2), (Facing::West, 4)] {
        let run = run_facing(facing, stack(1, 7), Vec::new());
        let launch = WorldEvent::SoundDispenserProjectileLaunch;
        assert_eq!(run.effects[1..], closing(launch, smoke)[..]);
    }
}

#[test]
fn boats_go_into_water_in_front() {
    let run = run(stack(1, 31), vec![Reply::Cell(water()), room()]);
    let room = Query::Room {
        position: FRONT,
        entity_type: 302,
    };
    assert_eq!(run.asked, vec![look_front(), room]);
    assert_eq!(
        run.effects,
        dispensed(vec![Effect::SpawnBoat {
            entity_type: 302,
            position: FRONT
        }])
    );
    assert_eq!(run.item, stack(0, 31));
}

#[test]
fn boats_go_onto_water_under_air() {
    let flowing = Cell { fluid: 1, ..water() };
    let run = run(
        stack(2, 30),
        vec![Reply::Cell(air()), Reply::Cell(flowing), room()],
    );
    let room = Query::Room {
        position: UNDER,
        entity_type: 301,
    };
    assert_eq!(run.asked, vec![look_front(), look_under(), room]);
    assert_eq!(
        run.effects,
        dispensed(vec![Effect::SpawnBoat {
            entity_type: 301,
            position: UNDER
        }])
    );
    assert_eq!(run.item, stack(1, 30));
}

#[test]
fn boats_without_water_or_room_are_thrown_out() {
    let attempts = vec![
        vec![Reply::Cell(stone())],
        vec![Reply::Cell(air()), Reply::Cell(stone())],
        vec![
            Reply::Cell(water()),
            Reply::Room {
                space_empty: false,
                obstacles: 0,
            },
        ],
        vec![
            Reply::Cell(water()),
            Reply::Room {
                space_empty: true,
                obstacles: 1,
            },
        ],
    ];
    for replies in attempts {
        let run = run(stack(2, 30), replies);
        assert_eq!(run.effects, thrown(30));
        assert_eq!(run.item, stack(1, 30));
    }
}

fn minecart_height(facing: Facing, cells: Vec<Cell>) -> i32 {
    let replies = cells.into_iter().map(Reply::Cell).collect();
    let run = run_facing(facing, stack(4, 32), replies);
    assert_eq!(run.item, stack(3, 32));
    match run.effects[0] {
        Effect::SpawnMinecart {
            entity_type: 303,
            height_tenths,
        } => height_tenths,
        _ => panic!("no minecart"),
    }
}

#[test]
fn minecarts_go_onto_rails() {
    let east = Facing::East;
    assert_eq!(minecart_height(east, vec![rail(true)]), 6);
    assert_eq!(minecart_height(east, vec![powered_rail(true)]), 6);
    assert_eq!(minecart_height(east, vec![rail(false)]), 1);
    assert_eq!(minecart_height(east, vec![powered_rail(false)]), 1);
    assert_eq!(minecart_height(east, vec![air(), rail(true)]), -4);
    assert_eq!(minecart_height(east, vec![air(), powered_rail(false)]), -9);
    let down = Facing::Down;
    assert_eq!(minecart_height(down, vec![air(), rail(true)]), -9);
    assert_eq!(minecart_height(down, vec![rail(true)]), 6);
}

#[test]
fn minecarts_without_rails_are_thrown_out() {
    let blocked = run(stack(1, 32), vec![Reply::Cell(stone())]);
    assert_eq!(blocked.effects, thrown(32));
    assert_eq!(blocked.item, stack(0, 32));
    let replies = vec![Reply::Cell(air()), Reply::Cell(stone())];
    assert_eq!(run(stack(1, 32), replies).effects, thrown(32));
}

#[test]
fn armor_stands_need_room() {
    let placed = run(stack(2, 13), vec![room()]);
    assert_eq!(
        placed.asked,
        vec![Query::Room {
            position: FRONT,
            entity_type: 300
        }]
    );
    assert_eq!(
        placed.effects,
        dispensed(vec![
            Effect::PlaySound {
                sound: Sound::EntityArmorStandPlace,
                category: SoundCategory::Blocks,
                spot: Spot::Floor(FRONT)
            },
            Effect::SpawnArmorStand { position: FRONT },
        ])
    );
    assert_eq!(placed.item, stack(1, 13));
    let crowded = Reply::Room {
        space_empty: true,
        obstacles: 2,
    };
    assert_eq!(run(stack(2, 13), vec![crowded]).effects, thrown(13));
}

#[test]
fn tnt_comes_out_primed() {
    let run = run(stack(64, 14), Vec::new());
    assert_eq!(
        run.effects,
        dispensed(vec![
            Effect::SpawnTnt {
                position: FRONT,
                power: 4,
                fuse: 80
            },
            Effect::PlaySound {
                sound: Sound::EntityTntPrimed,
                category: SoundCategory::Blocks,
                spot: Spot::Floor(FRONT)
            },
        ])
    );
    assert_eq!(run.item, stack(63, 14));
}

#[test]
fn spawn_eggs_hatch() {
    let run = run(stack(3, 33), vec![Reply::Uuid(0xabc)]);
    assert_eq!(run.asked, vec![Query::FreshUuid]);
    assert_eq!(
        run.effects,
        dispensed(vec![Effect::SpawnMob {
            entity_type: 304,
            position: FRONT,
            uuid: 0xabc,
            egg: stack(2, 33)
        }])
    );
    assert_eq!(run.item, stack(2, 33));
}

fn contents(stack: ItemStack) -> Reply {
    Reply::Slot(Some(SlotContents {
        stack,
        max_stack_size: 16,
    }))
}

#[test]
fn the_last_bucket_is_exchanged_in_place() {
    let run = run(stack(1, 15), vec![Reply::Item(Some(34))]);
    assert_eq!(
        run.asked,
        vec![Query::PickUp {
            position: FRONT,
            facing: Facing::East
        }]
    );
    assert_eq!(run.effects, dispensed(Vec::new()));
    assert_eq!(run.item, stack(1, 34));
}

#[test]
fn filled_buckets_go_to_the_first_slot_that_takes_them() {
    // The slots looked at, as long as there are some, and what comes of it.
    let fill = |slots: Vec<(usize, Option<ItemStack>)>| {
        let mut replies = vec![Reply::Item(Some(34))];
        let mut expected = Vec::new();
        for (index, slot) in slots {
            expected.push(Query::Slot { index });
            replies.push(slot.map_or(Reply::Slot(None), contents));
        }
        let run = run(stack(5, 15), replies);
        assert_eq!(run.asked[1..], expected[..]);
        assert_eq!(run.item, stack(4, 15));
        assert_eq!(run.effects.len(), 4);
        assert_eq!(run.effects[1..], dispensed(Vec::new())[..]);
        run.effects[0]
    };
    let put = |index: usize, stack: ItemStack| Effect::SetSlot { index, stack };
    // An empty slot takes it, and so does air.
    assert_eq!(fill(vec![(0, Some(stack(0, 9)))]), put(0, stack(1, 34)));
    assert_eq!(fill(vec![(0, Some(stack(1, 0)))]), put(0, stack(1, 34)));
    // A slot with the same in it takes one more, up to its limit. The slot that is
    // dispensed from is passed over.
    assert_eq!(
        fill(vec![(0, Some(stack(1, 9))), (2, Some(stack(15, 34)))]),
        put(2, stack(16, 34))
    );
    assert_eq!(
        fill(vec![
            (0, Some(stack(1, 9))),
            (2, Some(stack(16, 34))),
            (3, Some(stack(0, 0)))
        ]),
        put(3, stack(1, 34))
    );
    // Data of its own sets a stack apart.
    let named = ItemStack {
        components: 3,
        ..stack(1, 34)
    };
    assert_eq!(
        fill(vec![(0, Some(named)), (2, None)]),
        throw(stack(1, 34))
    );
    assert_eq!(fill(vec![(0, None)]), throw(stack(1, 34)));
}

#[test]
fn the_first_slot_is_passed_over_if_it_is_dispensed_from() {
    let reg = registry();
    let ctx = DispenseContext::new(HERE, Facing::East);
    let (mut dispensing, _) = DispenserBlock::dispense(&reg, ctx, 0, stack(5, 15));
    dispensing.advance(&reg, Reply::Item(Some(34)));
    assert_eq!(dispensing.pending(), Some(Query::Slot { index: 1 }));
}

#[test]
fn slot_numbers_come_to_an_end() {
    let full = Some(SlotContents {
        stack: stack(1, 9),
        max_stack_size: 1,
    });
    for (slot, index) in [(0, usize::MAX), (usize::MAX, usize::MAX - 1)] {
        let turn =
            DispenserBlock::stow_remainder(0, slot, stack(4, 15), stack(1, 34), index, full);
        assert_eq!(turn.effects, vec![throw(stack(1, 34))]);
    }
}

#[test]
fn exchanges_lose_no_container() {
    let before = vec![stack(3, 9), stack(5, 15), stack(2, 34)];
    let count: u32 = before.iter().map(|stack| u32::from(stack.item_count)).sum();
    let run = run(
        before[SLOT],
        vec![
            Reply::Item(Some(34)),
            contents(before[0]),
            contents(before[2]),
        ],
    );
    let mut after = before;
    after[SLOT] = run.item;
    let mut out: u32 = 0;
    for effect in run.effects {
        match effect {
            Effect::SetSlot { index, stack } => after[index] = stack,
            Effect::DropStack { stack, .. } => out += u32::from(stack.item_count),
            _ => {}
        }
    }
    let left: u32 = after.iter().map(|stack| u32::from(stack.item_count)).sum();
    assert_eq!(after, vec![stack(3, 9), stack(4, 15), stack(3, 34)]);
    assert_eq!(left + out, count);
}

#[test]
fn buckets_with_nothing_to_scoop_are_thrown_out() {
    let run = run(stack(2, 15), vec![Reply::Item(None)]);
    assert_eq!(run.effects, thrown(15));
    assert_eq!(run.item, stack(1, 15));
}

#[test]
fn filled_buckets_are_poured_out() {
    let poured = run(stack(1, 34), vec![Reply::Flag(false), Reply::Flag(true)]);
    assert_eq!(
        poured.asked,
        vec![
            Query::Evaporates { item: 34 },
            Query::EmptyOut {
                item: 34,
                position: HERE,
                facing: Facing::East
            }
        ]
    );
    assert_eq!(poured.effects, dispensed(Vec::new()));
    assert_eq!(poured.item, stack(1, 15));

    let boiled = run(stack(1, 35), vec![Reply::Flag(true)]);
    assert_eq!(
        boiled.effects,
        dispensed(vec![Effect::PlayEvaporation {
            spot: Spot::Center(FRONT)
        }])
    );
    assert_eq!(boiled.item, stack(1, 15));

    let blocked = run(stack(1, 34), vec![Reply::Flag(false), Reply::Flag(false)]);
    assert_eq!(blocked.effects, thrown(34));
    assert_eq!(blocked.item, stack(0, 34));
}

fn worn(item: u16) -> ItemStack {
    ItemStack {
        components: 77,
        ..stack(1, item)
    }
}

fn damage(item: u16) -> Query {
    Query::Damage {
        stack: stack(1, item),
        amount: 1,
    }
}

#[test]
fn flint_and_steel_primes_tnt() {
    let tnt = Cell { block: 200, ..stone() };
    let run = run(stack(1, 16), vec![Reply::Cell(tnt), Reply::Stack(worn(16))]);
    assert_eq!(run.asked, vec![look_front(), damage(16)]);
    assert_eq!(
        run.effects,
        dispensed(vec![Effect::PrimeTnt { position: FRONT }])
    );
    assert_eq!(run.item, worn(16));
}

#[test]
fn flint_and_steel_sets_fire_or_fails() {
    let lit = run(
        stack(1, 16),
        vec![
            Reply::Cell(stone()),
            Reply::Flag(true),
            Reply::Stack(worn(16)),
        ],
    );
    let ignite = Query::Ignite {
        position: FRONT,
        notify: Notify::All,
    };
    assert_eq!(lit.asked, vec![look_front(), ignite, damage(16)]);
    assert_eq!(lit.effects, dispensed(Vec::new()));
    assert_eq!(lit.item, worn(16));

    let unlit = run(stack(1, 16), vec![Reply::Cell(stone()), Reply::Flag(false)]);
    assert_eq!(unlit.effects, failed());
    assert_eq!(unlit.item, stack(1, 16));
}

#[test]
fn shears_harvest_full_hives() {
    let run = run(
        stack(1, 17),
        vec![Reply::Cell(hive(5)), Reply::Stack(worn(17))],
    );
    assert_eq!(run.asked, vec![look_front(), damage(17)]);
    assert_eq!(
        run.effects,
        dispensed(vec![
            Effect::PlaySound {
                sound: Sound::BlockBeehiveShear,
                category: SoundCategory::Blocks,
                spot: Spot::Block(FRONT)
            },
            Effect::DropAt {
                spot: Spot::Center(FRONT),
                stack: stack(3, 21)
            },
            set_front(NewState::HoneyLevel {
                block: 50,
                state: 500,
                level: 0
            }),
        ])
    );
    assert_eq!(run.item, worn(17));
}

fn sheep(color: u8) -> Animal {
    Animal {
        sheep: true,
        sheared: false,
        alive: true,
        color,
    }
}

#[test]
fn shears_take_the_first_sheep_with_wool() {
    let animals = vec![
        Animal { sheep: false, ..sheep(1) },
        Animal { sheared: true, ..sheep(2) },
        Animal { alive: false, ..sheep(3) },
        sheep(14),
        sheep(5),
    ];
    let run = run(
        stack(1, 17),
        vec![
            Reply::Cell(hive(4)),
            Reply::Animals(animals),
            Reply::Count(2),
            Reply::Stack(worn(17)),
        ],
    );
    let animals = Query::Animals { position: FRONT };
    let roll = Query::Roll { low: 1, high: 3 };
    assert_eq!(run.asked, vec![look_front(), animals, roll, damage(17)]);
    assert_eq!(
        run.effects,
        dispensed(vec![
            Effect::SetSheared { entity: 3 },
            Effect::PlaySound {
                sound: Sound::EntitySheepShear,
                category: SoundCategory::Blocks,
                spot: Spot::Entity(3)
            },
            Effect::DropAt {
                spot: Spot::Entity(3),
                stack: stack(2, 114)
            },
        ])
    );
    assert_eq!(run.item, worn(17));
}

#[test]
fn shears_without_anything_to_shear_fail() {
    let run = run(
        stack(1, 17),
        vec![Reply::Cell(stone()), Reply::Animals(Vec::new())],
    );
    assert_eq!(run.effects, failed());
    assert_eq!(run.item, stack(1, 17));
}

#[test]
fn glass_bottles_are_filled_with_honey() {
    let emptied = set_front(NewState::HoneyLevel {
        block: 50,
        state: 500,
        level: 0,
    });
    let last = run(stack(1, 18), vec![Reply::Cell(hive(5))]);
    assert_eq!(last.effects, dispensed(vec![emptied]));
    assert_eq!(last.item, stack(1, 20));

    let more = run(
        stack(3, 18),
        vec![Reply::Cell(hive(6)), contents(stack(0, 0))],
    );
    let stowed = Effect::SetSlot {
        index: 0,
        stack: stack(1, 20),
    };
    assert_eq!(more.effects, dispensed(vec![emptied, stowed]));
    assert_eq!(more.item, stack(2, 18));
}

#[test]
fn glass_bottles_are_filled_with_water() {
    let reg = registry();
    let last = run(stack(1, 18), vec![Reply::Cell(water())]);
    assert_eq!(last.effects, dispensed(Vec::new()));
    assert_eq!(last.item, water_bottle(&reg));

    let more = run(
        stack(2, 18),
        vec![
            Reply::Cell(water()),
            contents(stack(9, 18)),
            Reply::Slot(None),
        ],
    );
    let out = throw(water_bottle(&reg));
    assert_eq!(more.effects, dispensed(vec![out]));
    assert_eq!(more.item, stack(1, 18));
}

#[test]
fn glass_bottles_that_cannot_be_filled_are_thrown_out_with_a_click() {
    let flooded_hive = Cell { fluid: 2, ..hive(4) };
    for front in [stone(), hive(0), flooded_hive] {
        let run = run(stack(2, 18), vec![Reply::Cell(front)]);
        let out = vec![throw(stack(1, 18))];
        assert_eq!(run.effects, with_sound(out, WorldEvent::SoundDispenserFail));
        assert_eq!(run.item, stack(1, 18));
    }
}

#[test]
fn water_bottles_make_mud() {
    let reg = registry();
    let dirt = Cell {
        convertible_to_mud: true,
        ..stone()
    };
    let muddied = run(water_bottle(&reg), vec![Reply::Cell(dirt)]);
    assert_eq!(
        muddied.effects,
        dispensed(vec![
            Effect::SpawnSplash {
                spot: Spot::Center(FRONT),
                spread_tenths: 5,
                speed_tenths: 10,
                count: 5
            },
            Effect::PlaySound {
                sound: Sound::ItemBottleEmpty,
                category: SoundCategory::Blocks,
                spot: Spot::Block(FRONT)
            },
            set_front(NewState::DefaultOf(204)),
        ])
    );
    assert_eq!(muddied.item, stack(1, 18));

    let kept = run(water_bottle(&reg), vec![Reply::Cell(stone())]);
    let out = throw(water_bottle(&reg));
    assert_eq!(kept.effects, dispensed(vec![out]));
    assert_eq!(kept.item.item_count, 0);
}

#[test]
fn honeycombs_wax() {
    let waxed = run(
        stack(4, 21),
        vec![Reply::Cell(stone()), Reply::State(Some(11))],
    );
    let state = Query::WaxedState {
        block: 1,
        state: 10,
    };
    assert_eq!(waxed.asked, vec![look_front(), state]);
    assert_eq!(
        waxed.effects,
        dispensed(vec![
            set_front(NewState::State(11)),
            Effect::SyncWorldEvent {
                event: WorldEvent::ParticlesAndSoundWaxOn,
                position: FRONT,
                data: 0
            },
        ])
    );
    assert_eq!(waxed.item, stack(3, 21));

    let replies = vec![Reply::Cell(stone()), Reply::State(None)];
    assert_eq!(run(stack(4, 21), replies).effects, thrown(21));
}

#[test]
fn glowstone_charges_respawn_anchors() {
    let anchor = |charges: u8| Cell {
        block: 201,
        state: 90,
        charges,
        ..stone()
    };
    for charges in 0..4u8 {
        let run = run(stack(8, 22), vec![Reply::Cell(anchor(charges))]);
        assert_eq!(
            run.effects,
            dispensed(vec![
                set_front(NewState::Charges {
                    block: 201,
                    state: 90,
                    charges: charges + 1
                }),
                Effect::PlaySound {
                    sound: Sound::BlockRespawnAnchorCharge,
                    category: SoundCategory::Blocks,
                    spot: Spot::Block(FRONT)
                },
            ])
        );
        assert_eq!(run.item, stack(7, 22));
    }
    let full = run(stack(8, 22), vec![Reply::Cell(anchor(4))]);
    assert_eq!(full.effects, failed());
    assert_eq!(full.item, stack(8, 22));
    let other = run(stack(8, 22), vec![Reply::Cell(stone())]);
    assert_eq!(other.effects, thrown(22));
    assert_eq!(other.item, stack(7, 22));
}

#[test]
fn anchors_take_the_glowstone_they_lack() {
    let mut anchor = Cell {
        block: 201,
        state: 90,
        charges: 1,
        ..stone()
    };
    let mut left = stack(5, 22);
    let mut charged = 0;
    loop {
        let attempt = run(left, vec![Reply::Cell(anchor)]);
        left = attempt.item;
        match attempt.effects[0] {
            Effect::SetBlockState {
                state: NewState::Charges { charges, .. },
                ..
            } => {
                anchor.charges = charges;
                charged += 1;
            }
            _ => {
                assert_eq!(attempt.effects, failed());
                break;
            }
        }
    }
    assert_eq!(charged, 3);
    assert_eq!(anchor.charges, 4);
    assert_eq!(left, stack(2, 22));
}

#[test]
fn full_hives_are_harvested_once() {
    let mut front = hive(5);
    let mut honeycombs = 0;
    for attempt in 0..3 {
        let last = if attempt == 0 {
            Reply::Stack(stack(1, 17))
        } else {
            Reply::Animals(Vec::new())
        };
        for effect in run(stack(1, 17), vec![Reply::Cell(front), last]).effects {
            match effect {
                Effect::DropAt { stack, .. } if stack.item == 21 => honeycombs += stack.item_count,
                Effect::SetBlockState {
                    state: NewState::HoneyLevel { level, .. },
                    ..
                } => front = hive(level),
                _ => {}
            }
        }
    }
    assert_eq!(honeycombs, 3);
    assert_eq!(front, hive(0));
}

#[test]
fn bone_meal_fails() {
    let run = run(stack(5, 23), Vec::new());
    assert_eq!(run.effects, failed());
    assert_eq!(run.item, stack(5, 23));
}

#[test]
fn heads_finish_patterns() {
    let wither = run(stack(3, 24), vec![Reply::Cell(air()), Reply::Flag(true)]);
    let pattern = Query::Pattern {
        summon: Summon::Wither,
        position: FRONT,
    };
    assert_eq!(wither.asked, vec![look_front(), pattern]);
    assert_eq!(
        wither.effects,
        dispensed(vec![set_front(NewState::Rotation {
            block: 202,
            rotation: 12
        })])
    );
    assert_eq!(wither.item, stack(2, 24));

    let golem = run(stack(1, 25), vec![Reply::Cell(air()), Reply::Flag(true)]);
    assert_eq!(
        golem.effects,
        dispensed(vec![set_front(NewState::DefaultOf(203))])
    );
}

fn helmet(allowed_entities: Option<EntitySet>) -> Reply {
    Reply::Equippable(Some(Equippable {
        slot: EquipmentSlot::Head,
        dispensable: true,
        allowed_entities,
        equip_sound: 44,
    }))
}

fn wearer(entity_type: u16) -> Wearer {
    Wearer {
        living: true,
        part_of_game: true,
        entity_type,
        tagged: None,
    }
}

fn put_on(item: u16, entity: usize) -> Vec<Effect> {
    let slot = EquipmentSlot::Head;
    let stack = stack(1, item);
    dispensed(vec![
        Effect::SendEquipment {
            entity,
            slot,
            stack,
        },
        Effect::PlayEquipSound {
            entity,
            equip_sound: 44,
            category: SoundCategory::Blocks,
        },
        Effect::Equip {
            entity,
            slot,
            stack,
        },
    ])
}

#[test]
fn heads_without_a_pattern_are_put_on_or_fail() {
    let dressed = run(
        stack(2, 25),
        vec![
            Reply::Cell(air()),
            Reply::Flag(false),
            helmet(None),
            Reply::Wearers {
                entities: vec![wearer(1)],
                players: Vec::new(),
            },
            Reply::Flag(true),
        ],
    );
    assert_eq!(dressed.effects, put_on(25, 0));
    assert_eq!(dressed.item, stack(1, 25));

    let blocked = run(
        stack(2, 24),
        vec![
            Reply::Cell(stone()),
            helmet(None),
            Reply::Wearers {
                entities: Vec::new(),
                players: Vec::new(),
            },
        ],
    );
    assert_eq!(blocked.effects, failed());
    assert_eq!(blocked.item, stack(2, 24));
}

#[test]
fn shulker_boxes_are_set_down() {
    let towards =
        |facing: Facing| dispensed(vec![set_front(NewState::Towards { block: 205, facing })]);
    let hanging = run(stack(1, 36), vec![Reply::Cell(air()), Reply::Cell(air())]);
    assert_eq!(hanging.asked, vec![look_front(), look_under()]);
    assert_eq!(hanging.effects, towards(Facing::East));
    assert_eq!(hanging.item, stack(0, 36));
    let standing = run(stack(1, 36), vec![Reply::Cell(water()), Reply::Cell(stone())]);
    assert_eq!(standing.effects, towards(Facing::Up));
    let blocked = run(stack(1, 36), vec![Reply::Cell(stone())]);
    assert_eq!(blocked.effects, failed());
    assert_eq!(blocked.item, stack(1, 36));
}

#[test]
fn equipment_goes_to_the_first_who_has_nothing_on() {
    let entities = vec![
        Wearer { living: false, ..wearer(1) },
        Wearer { part_of_game: false, ..wearer(1) },
        wearer(1),
        wearer(2),
    ];
    let run = run(
        stack(1, 60),
        vec![
            helmet(Some(EntitySet::Ids(vec![2, 3]))),
            Reply::Wearers {
                entities,
                players: vec![wearer(3)],
            },
            Reply::Flag(false),
            Reply::Flag(true),
        ],
    );
    let slot = EquipmentSlot::Head;
    assert_eq!(
        run.asked,
        vec![
            Query::Equippable { stack: stack(1, 60) },
            Query::Wearers {
                position: FRONT,
                tag: None
            },
            Query::NothingWorn { entity: 3, slot },
            Query::NothingWorn { entity: 4, slot },
        ]
    );
    assert_eq!(run.effects, put_on(60, 4));
    assert_eq!(run.item, stack(0, 60));
}

#[test]
fn every_wearer_takes_one() {
    // Of four in front one has something on already and one may not wear it.
    let mut bare = [true, false, true, true];
    let mut left = stack(5, 60);
    let mut attempts = 0;
    loop {
        let crowd = [2u16, 2, 7, 3].map(wearer).to_vec();
        let mut replies = vec![
            helmet(Some(EntitySet::Ids(vec![2, 3]))),
            Reply::Wearers {
                entities: crowd,
                players: Vec::new(),
            },
        ];
        let mut found = None;
        for entity in [0usize, 1, 3] {
            replies.push(Reply::Flag(bare[entity]));
            if bare[entity] {
                found = Some(entity);
                break;
            }
        }
        let attempt = run(left, replies);
        left = attempt.item;
        match found {
            Some(entity) => {
                assert_eq!(attempt.effects, put_on(60, entity));
                bare[entity] = false;
                attempts += 1;
            }
            None => {
                assert_eq!(attempt.effects, thrown(60));
                break;
            }
        }
    }
    assert_eq!(attempts, 2);
    assert_eq!(left, stack(2, 60));
}

#[test]
fn every_sheep_is_shorn() {
    let mut flock = vec![
        sheep(1),
        Animal { alive: false, ..sheep(2) },
        sheep(3),
        Animal { sheared: true, ..sheep(4) },
    ];
    for expected in [0usize, 2] {
        let run = run(
            stack(1, 17),
            vec![
                Reply::Cell(stone()),
                Reply::Animals(flock.clone()),
                Reply::Count(1),
                Reply::Stack(stack(1, 17)),
            ],
        );
        assert_eq!(run.effects[0], Effect::SetSheared { entity: expected });
        flock[expected].sheared = true;
    }
    let last = run(
        stack(1, 17),
        vec![Reply::Cell(stone()), Reply::Animals(flock)],
    );
    assert_eq!(last.effects, failed());
}

#[test]
fn equipment_goes_by_tags() {
    let run = run(
        stack(1, 60),
        vec![
            helmet(Some(EntitySet::Tag(8))),
            Reply::Wearers {
                entities: vec![
                    wearer(1),
                    Wearer { tagged: Some(false), ..wearer(1) },
                    Wearer { tagged: Some(true), ..wearer(1) },
                ],
                players: Vec::new(),
            },
            Reply::Flag(true),
        ],
    );
    assert_eq!(
        run.asked[1],
        Query::Wearers {
            position: FRONT,
            tag: Some(8)
        }
    );
    assert_eq!(run.effects, put_on(60, 2));
}

#[test]
fn equipment_that_fits_nobody_is_thrown_out() {
    let everyone_dressed = vec![
        helmet(None),
        Reply::Wearers {
            entities: vec![wearer(1)],
            players: vec![wearer(2)],
        },
        Reply::Flag(false),
        Reply::Flag(false),
    ];
    let not_by_dispensers = vec![Reply::Equippable(Some(Equippable {
        slot: EquipmentSlot::Chest,
        dispensable: false,
        allowed_entities: None,
        equip_sound: 44,
    }))];
    for replies in [everyone_dressed, not_by_dispensers, vec![Reply::Equippable(None)]] {
        let run = run(stack(3, 60), replies);
        assert_eq!(run.effects, thrown(60));
        assert_eq!(run.item, stack(2, 60));
    }
}

#[test]
fn answers_of_another_kind_change_nothing() {
    let reg = registry();
    let ctx = DispenseContext::new(HERE, Facing::East);
    let (mut dispensing, _) = DispenserBlock::dispense(&reg, ctx, SLOT, stack(1, 30));
    for reply in [Reply::Flag(true), Reply::Count(1), room(), Reply::Item(None)] {
        assert!(dispensing.advance(&reg, reply).is_empty());
        assert_eq!(dispensing.pending(), Some(look_front()));
        assert_eq!(dispensing.item, stack(1, 30));
    }
    assert!(!dispensing.advance(&reg, Reply::Cell(stone())).is_empty());
    // Nothing moves one that has finished.
    assert!(dispensing.advance(&reg, Reply::Cell(water())).is_empty());
    assert_eq!(dispensing.pending(), None);
    assert_eq!(dispensing.item, stack(0, 30));
}
