use dispenser::behavior::Behavior;
use dispenser::dispenser::DispenserBlock;
use dispenser::equipment::is_allowed_entity;
use dispenser::item::{is_water_bottle, water_bottle, ItemStack, PotionContents};
use dispenser::protocol::{EntitySet, Summon, Wearer};
use dispenser::registry::{
    find_block_item, find_entry, is_water, lists_id, wool_of_color, BlockIds, BlockItem, FluidIds,
    ItemIds, Registry, WoolIds,
};

fn registry() -> Registry {
    Registry {
        items: ItemIds {
            air: 0,
            arrow: 1,
            tipped_arrow: 2,
            spectral_arrow: 3,
            egg: 4,
            blue_egg: 5,
            brown_egg: 6,
            snowball: 7,
            splash_potion: 8,
            lingering_potion: 9,
            firework_rocket: 10,
            fire_charge: 11,
            wind_charge: 12,
            armor_stand: 13,
            tnt: 14,
            bucket: 15,
            flint_and_steel: 16,
            shears: 17,
            glass_bottle: 18,
            potion: 19,
            honey_bottle: 20,
            honeycomb: 21,
            glowstone: 22,
            bone_meal: 23,
            wither_skeleton_skull: 24,
            carved_pumpkin: 25,
        },
        wool: WoolIds {
            white: 100,
            orange: 101,
            magenta: 102,
            light_blue: 103,
            yellow: 104,
            lime: 105,
            pink: 106,
            gray: 107,
            light_gray: 108,
            cyan: 109,
            purple: 110,
            blue: 111,
            brown: 112,
            green: 113,
            red: 114,
            black: 115,
        },
        blocks: BlockIds {
            tnt: 200,
            respawn_anchor: 201,
            wither_skeleton_skull: 202,
            carved_pumpkin: 203,
            mud: 204,
        },
        fluids: FluidIds {
            water: 2,
            flowing_water: 1,
        },
        armor_stand_entity: 300,
        water_potion: 7,
        boats: vec![(30, 301), (31, 302), (30, 399)],
        minecarts: vec![(32, 303)],
        spawn_eggs: vec![(33, 304)],
        filled_buckets: vec![34, 35],
        block_items: vec![
            BlockItem {
                item: 36,
                block: 205,
                shulker_box: true,
            },
            BlockItem {
                item: 37,
                block: 206,
                shulker_box: false,
            },
        ],
    }
}

fn potion(id: Option<i32>) -> ItemStack {
    ItemStack {
        potion_contents: Some(PotionContents {
            potion_id: id,
            custom: 0,
        }),
        ..ItemStack::new(1, 19)
    }
}

#[test]
fn splitting_takes_no_more_than_there_is() {
    let mut stack = ItemStack::new(5, 37);
    assert_eq!(stack.split(1), ItemStack::new(1, 37));
    assert_eq!(stack, ItemStack::new(4, 37));
    assert_eq!(stack.split(9), ItemStack::new(4, 37));
    assert_eq!(stack, ItemStack::new(0, 37));
    assert_eq!(stack.split(1), ItemStack::new(0, 37));
}

#[test]
fn splitting_keeps_the_data() {
    let mut stack = ItemStack {
        components: 9,
        item_count: 3,
        ..potion(Some(4))
    };
    let taken = stack.split(1);
    assert!(taken.are_items_and_components_equal(&stack));
    assert_eq!(taken.item_count + stack.item_count, 3);
    assert_eq!(taken.components, 9);
}

#[test]
fn counts_saturate() {
    let mut stack = ItemStack::new(254, 1);
    stack.increment(1);
    assert_eq!(stack.item_count, 255);
    stack.increment(1);
    assert_eq!(stack.item_count, 255);
    stack.decrement(250);
    assert_eq!(stack.item_count, 5);
    stack.decrement(6);
    assert_eq!(stack.item_count, 0);
}

#[test]
fn empty_stacks() {
    assert!(ItemStack::new(0, 1).is_empty(0));
    assert!(ItemStack::new(3, 0).is_empty(0));
    assert!(!ItemStack::new(1, 1).is_empty(0));
}

#[test]
fn stacks_of_one_kind() {
    let plain = ItemStack::new(1, 19);
    assert!(plain.are_items_and_components_equal(&ItemStack::new(64, 19)));
    assert!(!plain.are_items_and_components_equal(&ItemStack::new(1, 20)));
    assert!(!plain.are_items_and_components_equal(&potion(Some(7))));
    assert!(!potion(Some(6)).are_items_and_components_equal(&potion(Some(7))));
    let named = ItemStack {
        components: 1,
        ..plain
    };
    assert!(!plain.are_items_and_components_equal(&named));
}

#[test]
fn water_bottles_hold_water() {
    let reg = registry();
    let bottle = water_bottle(&reg);
    assert_eq!(bottle, potion(Some(7)));
    assert!(is_water_bottle(&reg, &bottle));
    assert!(!is_water_bottle(&reg, &potion(Some(8))));
    assert!(!is_water_bottle(&reg, &potion(None)));
    assert!(!is_water_bottle(&reg, &ItemStack::new(1, 19)));
    let odd = ItemStack { item: 18, ..bottle };
    assert!(!is_water_bottle(&reg, &odd));
}

#[test]
fn still_and_flowing_water() {
    let reg = registry();
    assert!(is_water(&reg.fluids, 2));
    assert!(is_water(&reg.fluids, 1));
    assert!(!is_water(&reg.fluids, 3));
}

#[test]
fn wool_of_every_color() {
    let reg = registry();
    for color in 0..16u8 {
        assert_eq!(wool_of_color(&reg.wool, color), 100 + u16::from(color));
    }
    for a in 0..16u8 {
        for b in 0..16u8 {
            let same = wool_of_color(&reg.wool, a) == wool_of_color(&reg.wool, b);
            assert_eq!(same, a == b);
        }
    }
    for color in 16..=255u8 {
        assert_eq!(wool_of_color(&reg.wool, color), 100);
    }
}

#[test]
fn the_first_entry_of_a_table_counts() {
    let reg = registry();
    assert_eq!(find_entry(&reg.boats, 30), Some(301));
    assert_eq!(find_entry(&reg.boats, 31), Some(302));
    assert_eq!(find_entry(&reg.boats, 32), None);
    assert_eq!(find_block_item(&reg.block_items, 37), Some(reg.block_items[1]));
    assert_eq!(find_block_item(&reg.block_items, 38), None);
    assert!(lists_id(&reg.filled_buckets, 35));
    assert!(!lists_id(&reg.filled_buckets, 15));
}

#[test]
fn behaviors_of_items() {
    let reg = registry();
    let of = |item: u16| DispenserBlock::behavior(&reg, &ItemStack::new(1, item));
    for projectile in 1..=12u16 {
        assert_eq!(of(projectile), Behavior::Projectile);
    }
    assert_eq!(of(13), Behavior::ArmorStand);
    assert_eq!(of(14), Behavior::Tnt);
    assert_eq!(of(15), Behavior::EmptyBucket);
    assert_eq!(of(16), Behavior::FlintAndSteel);
    assert_eq!(of(17), Behavior::Shears);
    assert_eq!(of(18), Behavior::GlassBottle);
    assert_eq!(of(19), Behavior::Ordinary);
    assert_eq!(of(20), Behavior::Ordinary);
    assert_eq!(of(21), Behavior::Honeycomb);
    assert_eq!(of(22), Behavior::Glowstone);
    assert_eq!(of(23), Behavior::BoneMeal);
    let wither = Summon::Wither;
    assert_eq!(of(24), Behavior::MobHead { summon: wither });
    let golem = Summon::Golem;
    assert_eq!(of(25), Behavior::MobHead { summon: golem });
    assert_eq!(of(30), Behavior::Boat { entity_type: 301 });
    assert_eq!(of(32), Behavior::Minecart { entity_type: 303 });
    assert_eq!(of(33), Behavior::SpawnEgg { entity_type: 304 });
    assert_eq!(of(34), Behavior::FilledBucket);
    assert_eq!(of(36), Behavior::ShulkerBox { block: 205 });
    assert_eq!(of(37), Behavior::Ordinary);
    assert_eq!(
        DispenserBlock::behavior(&reg, &water_bottle(&reg)),
        Behavior::WaterBottle
    );
    assert_eq!(
        DispenserBlock::world_behavior(&reg, &ItemStack::new(1, 14)),
        None
    );
    assert_eq!(
        DispenserBlock::world_behavior(&reg, &ItemStack::new(1, 17)),
        Some(Behavior::Shears)
    );
}

#[test]
fn who_may_wear_what() {
    let wearer = Wearer {
        living: true,
        part_of_game: true,
        entity_type: 5,
        tagged: None,
    };
    let tagged = |tagged: Option<bool>| Wearer { tagged, ..wearer };
    assert!(is_allowed_entity(&None, &wearer));
    let tag = Some(EntitySet::Tag(1));
    assert!(is_allowed_entity(&tag, &tagged(Some(true))));
    assert!(!is_allowed_entity(&tag, &tagged(Some(false))));
    assert!(!is_allowed_entity(&tag, &tagged(None)));
    let ids = |ids: Vec<u16>| Some(EntitySet::Ids(ids));
    assert!(is_allowed_entity(&ids(vec![4, 5]), &wearer));
    assert!(!is_allowed_entity(&ids(vec![4, 6]), &tagged(Some(true))));
    assert!(!is_allowed_entity(&ids(Vec::new()), &wearer));
}
