//! Items that are shot.

use crate::dispenser::DispenserBlock;
use crate::item;
use crate::item::ItemStack;
use crate::protocol::{
    ArrowPickup, Effect, Gravity, LaunchProfile, Projectile, ProjectileSettings, ThrownSettings,
    WorldEvent,
};
use crate::registry;
use crate::registry::ItemIds;
use crate::turn;
use crate::turn::{DispenseOutcome, Next, Turn};
use vstd::prelude::*;

verus! {

/// The power of arrows, eggs and snowballs, in thousandths.
pub const PROJECTILE_POWER: u32 = 1100;

/// The uncertainty of arrows, eggs and snowballs, in ten-millionths.
pub const PROJECTILE_UNCERTAINTY: u32 = 60_000_000;

/// The power of potions and wind charges: a quarter more.
pub const POTION_POWER: u32 = 1375;

/// The uncertainty of potions and wind charges: half as much.
pub const POTION_UNCERTAINTY: u32 = 30_000_000;

/// The power of fireworks.
pub const FIREWORK_POWER: u32 = 500;

/// The uncertainty of fireworks.
pub const FIREWORK_UNCERTAINTY: u32 = 10_000_000;

/// The power of fire charges.
pub const FIRE_CHARGE_POWER: u32 = 1000;

/// The uncertainty of fire charges.
pub const FIRE_CHARGE_UNCERTAINTY: u32 = 66_666_665;

/// Arrows may be picked up by anyone.
pub open spec fn pickup_of(projectile: Projectile) -> Option<ArrowPickup> {
    if projectile is Arrow || projectile is SpectralArrow {
        Some(ArrowPickup::Allowed)
    } else {
        None
    }
}

/// A wind charge has hit nothing yet, flies through other projectiles and falls by
/// a gravity of its own.
pub open spec fn thrown_as(projectile: Projectile) -> Option<ThrownSettings> {
    if projectile is WindCharge {
        Some(
            ThrownSettings {
                collides_with_projectiles: false,
                has_hit: false,
                gravity: Gravity::WindCharge,
            },
        )
    } else {
        None
    }
}

/// How a dispenser makes a projectile. Nobody counts as the shooter.
pub open spec fn settings_of(projectile: Projectile) -> ProjectileSettings {
    ProjectileSettings { owner: None, pickup: pickup_of(projectile), thrown: thrown_as(projectile) }
}

/// A shot: what flies, how, with what sound, and whether it carries the item along.
#[derive(Clone, Copy, Debug, PartialEq, Eq, Structural)]
pub struct Shot {
    pub projectile: Projectile,
    pub launch: LaunchProfile,
    pub sound: WorldEvent,
    pub carries_item: bool,
}

/// The shot that an item makes. Whatever is not listed flies as an arrow.
pub open spec fn shot_of(items: ItemIds, id: u16) -> Shot {
    let usual = WorldEvent::SoundDispenserProjectileLaunch;
    if id == items.snowball {
        Shot {
            projectile: Projectile::Snowball,
            launch: LaunchProfile {
                power_milli: PROJECTILE_POWER,
                uncertainty_e7: PROJECTILE_UNCERTAINTY,
            },
            sound: usual,
            carries_item: false,
        }
    } else if id == items.egg || id == items.blue_egg || id == items.brown_egg {
        Shot {
            projectile: Projectile::Egg,
            launch: LaunchProfile {
                power_milli: PROJECTILE_POWER,
                uncertainty_e7: PROJECTILE_UNCERTAINTY,
            },
            sound: usual,
            carries_item: true,
        }
    } else if id == items.splash_potion {
        Shot {
            projectile: Projectile::SplashPotion,
            launch: LaunchProfile {
                power_milli: POTION_POWER,
                uncertainty_e7: POTION_UNCERTAINTY,
            },
            sound: usual,
            carries_item: true,
        }
    } else if id == items.lingering_potion {
        Shot {
            projectile: Projectile::LingeringPotion,
            launch: LaunchProfile {
                power_milli: POTION_POWER,
                uncertainty_e7: POTION_UNCERTAINTY,
            },
            sound: usual,
            carries_item: true,
        }
    } else if id == items.firework_rocket {
        Shot {
            projectile: Projectile::FireworkRocket,
            launch: LaunchProfile {
                power_milli: FIREWORK_POWER,
                uncertainty_e7: FIREWORK_UNCERTAINTY,
            },
            sound: WorldEvent::SoundFireworkShoot,
            carries_item: false,
        }
    } else if id == items.fire_charge {
        Shot {
            projectile: Projectile::SmallFireball,
            launch: LaunchProfile {
                power_milli: FIRE_CHARGE_POWER,
                uncertainty_e7: FIRE_CHARGE_UNCERTAINTY,
            },
            sound: WorldEvent::SoundBlazeFireball,
            carries_item: false,
        }
    } else if id == items.wind_charge {
        Shot {
            projectile: Projectile::WindCharge,
            launch: LaunchProfile {
                power_milli: POTION_POWER,
                uncertainty_e7: POTION_UNCERTAINTY,
            },
            sound: WorldEvent::SoundWindChargeShoot,
            carries_item: false,
        }
    } else {
        Shot {
            projectile: if id == items.spectral_arrow {
                Projectile::SpectralArrow
            } else {
                Projectile::Arrow
            },
            launch: LaunchProfile {
                power_milli: PROJECTILE_POWER,
                uncertainty_e7: PROJECTILE_UNCERTAINTY,
            },
            sound: usual,
            carries_item: false,
        }
    }
}

/// One item is taken off the stack and shot.
pub open spec fn shooting(items: ItemIds, stack: ItemStack) -> turn::TurnView {
    let shot = shot_of(items, stack.item);
    turn::TurnView {
        item: item::one_less(stack),
        effects: seq![
            Effect::Shoot {
                projectile: shot.projectile,
                settings: settings_of(shot.projectile),
                carried: if shot.carries_item {
                    Some(item::one_of(stack))
                } else {
                    None
                },
                launch: shot.launch,
            },
        ],
        next: Next::End(DispenseOutcome::Success(shot.sound)),
    }
}

/// How a dispenser makes a projectile.
pub fn settings_for(projectile: Projectile) -> (settings: ProjectileSettings)
    ensures
        settings == settings_of(projectile),
{
    let pickup = match projectile {
        Projectile::Arrow | Projectile::SpectralArrow => Some(ArrowPickup::Allowed),
        _ => None,
    };
    let thrown = match projectile {
        Projectile::WindCharge => Some(
            ThrownSettings {
                collides_with_projectiles: false,
                has_hit: false,
                gravity: Gravity::WindCharge,
            },
        ),
        _ => None,
    };
    ProjectileSettings { owner: None, pickup, thrown }
}

/// The shot that an item makes.
pub fn shot_for(items: &ItemIds, id: u16) -> (shot: Shot)
    ensures
        shot == shot_of(*items, id),
{
    let usual = WorldEvent::SoundDispenserProjectileLaunch;
    let (projectile, power_milli, uncertainty_e7, sound, carries_item) = if id == items.snowball {
        (Projectile::Snowball, PROJECTILE_POWER, PROJECTILE_UNCERTAINTY, usual, false)
    } else if id == items.egg || id == items.blue_egg || id == items.brown_egg {
        (Projectile::Egg, PROJECTILE_POWER, PROJECTILE_UNCERTAINTY, usual, true)
    } else if id == items.splash_potion {
        (Projectile::SplashPotion, POTION_POWER, POTION_UNCERTAINTY, usual, true)
    } else if id == items.lingering_potion {
        (Projectile::LingeringPotion, POTION_POWER, POTION_UNCERTAINTY, usual, true)
    } else if id == items.firework_rocket {
        let sound = WorldEvent::SoundFireworkShoot;
        (Projectile::FireworkRocket, FIREWORK_POWER, FIREWORK_UNCERTAINTY, sound, false)
    } else if id == items.fire_charge {
        let sound = WorldEvent::SoundBlazeFireball;
        (Projectile::SmallFireball, FIRE_CHARGE_POWER, FIRE_CHARGE_UNCERTAINTY, sound, false)
    } else if id == items.wind_charge {
        let sound = WorldEvent::SoundWindChargeShoot;
        (Projectile::WindCharge, POTION_POWER, POTION_UNCERTAINTY, sound, false)
    } else if id == items.spectral_arrow {
        (Projectile::SpectralArrow, PROJECTILE_POWER, PROJECTILE_UNCERTAINTY, usual, false)
    } else {
        (Projectile::Arrow, PROJECTILE_POWER, PROJECTILE_UNCERTAINTY, usual, false)
    };
    Shot {
        projectile,
        launch: LaunchProfile { power_milli, uncertainty_e7 },
        sound,
        carries_item,
    }
}

impl DispenserBlock {
    /// Takes one item off the stack and shoots it.
    pub fn dispense_projectile(items: &ItemIds, stack: ItemStack) -> (turn: Turn)
        ensures
            turn@ == shooting(*items, stack),
    {
        let mut rest = stack;
        let taken = rest.split(1);
        let shot = shot_for(items, taken.item);
        let carried = if shot.carries_item {
            Some(taken)
        } else {
            None
        };
        Turn {
            item: rest,
            effects: vec![
                Effect::Shoot {
                    projectile: shot.projectile,
                    settings: settings_for(shot.projectile),
                    carried,
                    launch: shot.launch,
                },
            ],
            next: Next::End(DispenseOutcome::Success(shot.sound)),
        }
    }
}

/// Where no two items share an id, each item is shot as what it is: the three eggs
/// as eggs, a fire charge as a small fireball, a tipped arrow as an arrow, and every
/// other one as the entity of its name.
pub proof fn each_item_is_shot_as_what_it_is(items: ItemIds, id: u16)
    requires
        items.distinct(),
        registry::is_projectile_id(items, id),
    ensures
        ({
            let what = shot_of(items, id).projectile;
            &&& what is Snowball <==> id == items.snowball
            &&& what is Egg <==> id == items.egg || id == items.blue_egg || id == items.brown_egg
            &&& what is SplashPotion <==> id == items.splash_potion
            &&& what is LingeringPotion <==> id == items.lingering_potion
            &&& what is FireworkRocket <==> id == items.firework_rocket
            &&& what is SmallFireball <==> id == items.fire_charge
            &&& what is WindCharge <==> id == items.wind_charge
            &&& what is SpectralArrow <==> id == items.spectral_arrow
            &&& what is Arrow <==> id == items.arrow || id == items.tipped_arrow
        }),
{
    registry::items_have_numbers(items);
}

/// Whatever is shot has no owner. Arrows, and nothing else, are made to be picked up
/// by anyone; a wind charge, and nothing else, is set up as a thrown item, which
/// flies through other projectiles under its own gravity.
pub proof fn shots_belong_to_nobody(items: ItemIds, stack: ItemStack)
    ensures
        ({
            let effects = shooting(items, stack).effects;
            let projectile = shot_of(items, stack.item).projectile;
            &&& effects.len() == 1
            &&& effects[0] is Shoot
            &&& effects[0]->projectile == projectile
            &&& effects[0]->settings.owner is None
            &&& effects[0]->settings.pickup == (if projectile is Arrow
                || projectile is SpectralArrow {
                Some(ArrowPickup::Allowed)
            } else {
                None
            })
            &&& effects[0]->settings.thrown is Some <==> projectile is WindCharge
            &&& projectile is WindCharge ==> effects[0]->settings.thrown == Some(
                ThrownSettings {
                    collides_with_projectiles: false,
                    has_hit: false,
                    gravity: Gravity::WindCharge,
                },
            )
        }),
{
}

} // verus!
