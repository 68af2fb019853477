//! Which behavior an item has.

use crate::dispenser::DispenserBlock;
use crate::item;
use crate::item::ItemStack;
use crate::protocol::Summon;
use crate::registry;
use crate::registry::Registry;
use vstd::prelude::*;

verus! {

/// What a dispenser does with an item.
#[derive(Clone, Copy, Debug, PartialEq, Eq, Structural)]
pub enum Behavior {
    Projectile,
    Boat { entity_type: u16 },
    Minecart { entity_type: u16 },
    ArmorStand,
    Tnt,
    SpawnEgg { entity_type: u16 },
    EmptyBucket,
    FilledBucket,
    FlintAndSteel,
    Shears,
    GlassBottle,
    WaterBottle,
    Honeycomb,
    Glowstone,
    BoneMeal,
    MobHead { summon: Summon },
    ShulkerBox { block: u16 },
    /// Anything else: someone may be dressed in it, or it is thrown out.
    Ordinary,
}

/// The behavior of an item that is used on the block in front.
pub open spec fn world_behavior_of(reg: &Registry, stack: ItemStack) -> Option<Behavior> {
    let id = stack.item;
    let block_item = registry::block_item_of(reg.block_items@, id);
    if id == reg.items.bucket {
        Some(Behavior::EmptyBucket)
    } else if reg.filled_buckets@.contains(id) {
        Some(Behavior::FilledBucket)
    } else if id == reg.items.flint_and_steel {
        Some(Behavior::FlintAndSteel)
    } else if id == reg.items.shears {
        Some(Behavior::Shears)
    } else if id == reg.items.glass_bottle {
        Some(Behavior::GlassBottle)
    } else if item::holds_water(reg.items.potion, reg.water_potion, stack) {
        Some(Behavior::WaterBottle)
    } else if id == reg.items.honeycomb {
        Some(Behavior::Honeycomb)
    } else if id == reg.items.glowstone {
        Some(Behavior::Glowstone)
    } else if id == reg.items.bone_meal {
        Some(Behavior::BoneMeal)
    } else if id == reg.items.wither_skeleton_skull {
        Some(Behavior::MobHead { summon: Summon::Wither })
    } else if id == reg.items.carved_pumpkin {
        Some(Behavior::MobHead { summon: Summon::Golem })
    } else if block_item is Some && block_item->0.shulker_box {
        Some(Behavior::ShulkerBox { block: block_item->0.block })
    } else {
        None
    }
}

/// The behavior of an item.
pub open spec fn behavior_of(reg: &Registry, stack: ItemStack) -> Behavior {
    let id = stack.item;
    if registry::is_projectile_id(reg.items, id) {
        Behavior::Projectile
    } else if let Some(entity_type) = registry::entry_of(reg.boats@, id) {
        Behavior::Boat { entity_type }
    } else if let Some(entity_type) = registry::entry_of(reg.minecarts@, id) {
        Behavior::Minecart { entity_type }
    } else if id == reg.items.armor_stand {
        Behavior::ArmorStand
    } else if id == reg.items.tnt {
        Behavior::Tnt
    } else if let Some(entity_type) = registry::entry_of(reg.spawn_eggs@, id) {
        Behavior::SpawnEgg { entity_type }
    } else if let Some(behavior) = world_behavior_of(reg, stack) {
        behavior
    } else {
        Behavior::Ordinary
    }
}

impl DispenserBlock {
    /// The behavior of an item that is used on the block in front.
    pub fn world_behavior(reg: &Registry, stack: &ItemStack) -> (behavior: Option<Behavior>)
        ensures
            behavior == world_behavior_of(reg, *stack),
    {
        let id: u16 = stack.item;
        if id == reg.items.bucket {
            return Some(Behavior::EmptyBucket);
        }
        if registry::lists_id(&reg.filled_buckets, id) {
            return Some(Behavior::FilledBucket);
        }
        if id == reg.items.flint_and_steel {
            return Some(Behavior::FlintAndSteel);
        }
        if id == reg.items.shears {
            return Some(Behavior::Shears);
        }
        if id == reg.items.glass_bottle {
            return Some(Behavior::GlassBottle);
        }
        if item::is_water_bottle(reg, stack) {
            return Some(Behavior::WaterBottle);
        }
        if id == reg.items.honeycomb {
            return Some(Behavior::Honeycomb);
        }
        if id == reg.items.glowstone {
            return Some(Behavior::Glowstone);
        }
        if id == reg.items.bone_meal {
            return Some(Behavior::BoneMeal);
        }
        if id == reg.items.wither_skeleton_skull {
            return Some(Behavior::MobHead { summon: Summon::Wither });
        }
        if id == reg.items.carved_pumpkin {
            return Some(Behavior::MobHead { summon: Summon::Golem });
        }
        match registry::find_block_item(&reg.block_items, id) {
            Some(found) => if found.shulker_box {
                Some(Behavior::ShulkerBox { block: found.block })
            } else {
                None
            },
            None => None,
        }
    }

    /// The behavior of an item.
    pub fn behavior(reg: &Registry, stack: &ItemStack) -> (behavior: Behavior)
        ensures
            behavior == behavior_of(reg, *stack),
    {
        let id: u16 = stack.item;
        if reg.items.is_projectile(id) {
            return Behavior::Projectile;
        }
        if let Some(entity_type) = registry::find_entry(&reg.boats, id) {
            return Behavior::Boat { entity_type };
        }
        if let Some(entity_type) = registry::find_entry(&reg.minecarts, id) {
            return Behavior::Minecart { entity_type };
        }
        if id == reg.items.armor_stand {
            return Behavior::ArmorStand;
        }
        if id == reg.items.tnt {
            return Behavior::Tnt;
        }
        if let Some(entity_type) = registry::find_entry(&reg.spawn_eggs, id) {
            return Behavior::SpawnEgg { entity_type };
        }
        match Self::world_behavior(reg, stack) {
            Some(behavior) => behavior,
            None => Behavior::Ordinary,
        }
    }
}

/// Where no id stands for two things, an item has a behavior exactly if it is one of
/// the items that the behavior is named after. In particular the order in which the
/// behaviors are tried does not matter.
pub proof fn each_item_has_its_own_behavior(reg: &Registry, stack: ItemStack)
    requires
        reg.distinct(),
    ensures
        ({
            let id = stack.item;
            let items = reg.items;
            let what = behavior_of(reg, stack);
            let box_of = registry::block_item_of(reg.block_items@, id);
            &&& what is Projectile <==> registry::is_projectile_id(items, id)
            &&& what is Boat <==> registry::entry_of(reg.boats@, id) is Some
            &&& what is Boat ==> what == (Behavior::Boat {
                entity_type: registry::entry_of(reg.boats@, id)->0,
            })
            &&& what is Minecart <==> registry::entry_of(reg.minecarts@, id) is Some
            &&& what is Minecart ==> what == (Behavior::Minecart {
                entity_type: registry::entry_of(reg.minecarts@, id)->0,
            })
            &&& what is ArmorStand <==> id == items.armor_stand
            &&& what is Tnt <==> id == items.tnt
            &&& what is SpawnEgg <==> registry::entry_of(reg.spawn_eggs@, id) is Some
            &&& what is SpawnEgg ==> what == (Behavior::SpawnEgg {
                entity_type: registry::entry_of(reg.spawn_eggs@, id)->0,
            })
            &&& what is EmptyBucket <==> id == items.bucket
            &&& what is FilledBucket <==> reg.filled_buckets@.contains(id)
            &&& what is FlintAndSteel <==> id == items.flint_and_steel
            &&& what is Shears <==> id == items.shears
            &&& what is GlassBottle <==> id == items.glass_bottle
            &&& what is WaterBottle <==> item::holds_water(items.potion, reg.water_potion, stack)
            &&& what is Honeycomb <==> id == items.honeycomb
            &&& what is Glowstone <==> id == items.glowstone
            &&& what is BoneMeal <==> id == items.bone_meal
            &&& what == (Behavior::MobHead { summon: Summon::Wither }) <==> id
                == items.wither_skeleton_skull
            &&& what == (Behavior::MobHead { summon: Summon::Golem }) <==> id
                == items.carved_pumpkin
            &&& what is ShulkerBox <==> reg.lists_shulker_box(id)
            &&& what is ShulkerBox ==> what == (Behavior::ShulkerBox { block: box_of->0.block })
        }),
{
    let id = stack.item;
    assert(reg.listings(id) <= 1);
    registry::items_have_numbers(reg.items);
}

} // verus!
