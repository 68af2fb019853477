use dispenser::dispenser::DispenserBlock;
use dispenser::geometry::{BlockPos, Facing};
use dispenser::item::ItemStack;
use dispenser::protocol::{
    Animal, Cell, DispenserProperties, Effect, Notify, Picked, Query, Reply, Spot, TickPriority,
    WorldEvent,
};
use dispenser::redstone::{ScheduledTick, TickPhase};
use dispenser::registry::{BlockIds, BlockItem, FluidIds, ItemIds, Registry, WoolIds};

fn registry() -> Registry {
    Registry {
        items: ItemIds {
            air: 0,
            arrow: 1,
            tipped_arrow: 2,
            spectral_arrow: 3,
            egg: 4,
            blue_egg: 5,
            brown_egg: 6,
            snowball: 7,
            splash_potion: 8,
            lingering_potion: 9,
            firework_rocket: 10,
            fire_charge: 11,
            wind_charge: 12,
            armor_stand: 13,
            tnt: 14,
            bucket: 15,
            flint_and_steel: 16,
            shears: 17,
            glass_bottle: 18,
            potion: 19,
            honey_bottle: 20,
            honeycomb: 21,
            glowstone: 22,
            bone_meal: 23,
            wither_skeleton_skull: 24,
            carved_pumpkin: 25,
        },
        wool: WoolIds {
            white: 100,
            orange: 101,
            magenta: 102,
            light_blue: 103,
            yellow: 104,
            lime: 105,
            pink: 106,
            gray: 107,
            light_gray: 108,
            cyan: 109,
            purple: 110,
            blue: 111,
            brown: 112,
            green: 113,
            red: 114,
            black: 115,
        },
        blocks: BlockIds {
            tnt: 200,
            respawn_anchor: 201,
            wither_skeleton_skull: 202,
            carved_pumpkin: 203,
            mud: 204,
        },
        fluids: FluidIds {
            water: 2,
            flowing_water: 1,
        },
        armor_stand_entity: 300,
        water_potion: 7,
        boats: vec![(30, 301), (31, 302), (30, 399)],
        minecarts: vec![(32, 303)],
        spawn_eggs: vec![(33, 304)],
        filled_buckets: vec![34, 35],
        block_items: vec![
            BlockItem {
                item: 36,
                block: 205,
                shulker_box: true,
            },
            BlockItem {
                item: 37,
                block: 206,
                shulker_box: false,
            },
        ],
    }
}

const BLOCK: u16 = 207;
const HERE: BlockPos = BlockPos { x: 5, y: 64, z: 5 };
const ABOVE: BlockPos = BlockPos { x: 5, y: 65, z: 5 };

fn properties(triggered: bool) -> DispenserProperties {
    DispenserProperties {
        facing: Facing::West,
        triggered,
    }
}

fn read_properties() -> Query {
    Query::Properties {
        block: BLOCK,
        position: HERE,
    }
}

fn trigger(triggered: bool) -> Effect {
    Effect::SetProperties {
        block: BLOCK,
        position: HERE,
        properties: properties(triggered),
        notify: Notify::Listeners,
    }
}

fn update(here: bool, above: bool, triggered: bool) -> Vec<Effect> {
    let mut update = DispenserBlock::on_neighbor_update(BLOCK, HERE);
    assert_eq!(update.pending(), Some(Query::Power { position: HERE }));
    assert!(update.advance(Reply::Flag(here)).is_empty());
    if !here {
        assert_eq!(update.pending(), Some(Query::Power { position: ABOVE }));
        assert!(update.advance(Reply::Flag(above)).is_empty());
    }
    assert_eq!(update.pending(), Some(read_properties()));
    assert!(update.advance(Reply::Count(1)).is_empty());
    let effects = update.advance(Reply::Properties(properties(triggered)));
    assert_eq!(update.pending(), None);
    effects
}

#[test]
fn placed_dispensers_face_the_player() {
    for triggered in [false, true] {
        let placed = DispenserBlock::on_place(properties(triggered), Facing::Up);
        assert_eq!(placed.facing, Facing::Down);
        assert_eq!(placed.triggered, triggered);
    }
}

#[test]
fn rising_power_schedules_an_activation() {
    let scheduled = Effect::ScheduleTick {
        block: BLOCK,
        position: HERE,
        delay: 4,
        priority: TickPriority::Normal,
    };
    assert_eq!(update(true, false, false), vec![scheduled, trigger(true)]);
    assert_eq!(update(false, true, false), vec![scheduled, trigger(true)]);
}

#[test]
fn falling_power_resets_the_trigger() {
    assert_eq!(update(false, false, true), vec![trigger(false)]);
}

#[test]
fn lasting_power_does_nothing() {
    assert!(update(true, true, true).is_empty());
    assert!(update(false, true, true).is_empty());
    assert!(update(false, false, false).is_empty());
}

fn tick(picked: Picked) -> (ScheduledTick, Vec<Effect>) {
    let reg = registry();
    let mut tick = DispenserBlock::on_scheduled_tick(BLOCK, HERE);
    assert_eq!(tick.pending(), Some(Query::PickSlot { position: HERE }));
    assert!(tick.advance(&reg, Reply::Flag(true)).is_empty());
    let effects = tick.advance(&reg, Reply::Picked(picked));
    (tick, effects)
}

fn working_item(tick: &ScheduledTick) -> ItemStack {
    match &tick.phase {
        TickPhase::Working(dispensing) => dispensing.item,
        _ => panic!("no activation"),
    }
}

#[test]
fn ticks_without_a_dispenser_do_nothing() {
    let (tick, effects) = tick(Picked::NoDispenser);
    assert!(effects.is_empty());
    assert_eq!(tick.pending(), None);
}

#[test]
fn empty_dispensers_click() {
    let (tick, effects) = tick(Picked::Nothing);
    assert_eq!(
        effects,
        vec![Effect::SyncWorldEvent {
            event: WorldEvent::SoundDispenserFail,
            position: HERE,
            data: 0
        }]
    );
    assert_eq!(tick.pending(), None);
}

#[test]
fn ticks_dispense_the_way_the_block_faces() {
    let reg = registry();
    let item = ItemStack::new(2, 14);
    let (mut tick, effects) = tick(Picked::Slot { slot: 6, item });
    assert!(effects.is_empty());
    assert_eq!(tick.pending(), Some(read_properties()));
    assert_eq!(tick.advance_by_chance(&reg), None);
    let effects = tick.advance(&reg, Reply::Properties(properties(true)));
    assert_eq!(
        effects[0],
        Effect::SpawnTnt {
            position: BlockPos { x: 4, y: 64, z: 5 },
            power: 4,
            fuse: 80
        }
    );
    assert_eq!(tick.pending(), None);
    assert_eq!(working_item(&tick), ItemStack::new(1, 14));
    assert_eq!(tick.advance_by_chance(&reg), None);
}

#[test]
fn chance_names_the_hatched_mob() {
    let reg = registry();
    let item = ItemStack::new(1, 33);
    let mut seen = Vec::new();
    for _ in 0..2 {
        let (mut tick, _) = tick(Picked::Slot { slot: 0, item });
        tick.advance(&reg, Reply::Properties(properties(true)));
        assert_eq!(tick.pending(), Some(Query::FreshUuid));
        let effects = tick.advance_by_chance(&reg).expect("a name");
        match effects[0] {
            Effect::SpawnMob { uuid, .. } => seen.push(uuid),
            _ => panic!("no mob"),
        }
        assert_eq!(tick.pending(), None);
        assert_eq!(working_item(&tick), ItemStack::new(0, 33));
    }
    assert_ne!(seen[0], seen[1]);
}

#[test]
fn chance_decides_how_much_wool_comes_off() {
    let reg = registry();
    let item = ItemStack::new(1, 17);
    let front = Cell {
        block: 1,
        state: 1,
        fluid: 0,
        air: true,
        replaceable: true,
        rail: None,
        honey_level: None,
        convertible_to_mud: false,
        charges: 0,
    };
    let sheep = Animal {
        sheep: true,
        sheared: false,
        alive: true,
        color: 15,
    };
    let mut counts = [0u32; 4];
    for _ in 0..300 {
        let (mut tick, _) = tick(Picked::Slot { slot: 0, item });
        tick.advance(&reg, Reply::Properties(properties(true)));
        tick.advance(&reg, Reply::Cell(front));
        tick.advance(&reg, Reply::Animals(vec![sheep]));
        let effects = tick.advance_by_chance(&reg).expect("a roll");
        match effects[..] {
            [Effect::DropAt {
                spot: Spot::Entity(0),
                stack,
            }] => {
                assert_eq!(stack.item, 115);
                assert!((1..=3).contains(&stack.item_count));
                counts[usize::from(stack.item_count)] += 1;
            }
            _ => panic!("no wool"),
        }
        assert_eq!(
            tick.pending(),
            Some(Query::Damage {
                stack: item,
                amount: 1
            })
        );
    }
    assert!(counts[1] > 0 && counts[2] > 0 && counts[3] > 0);
}
