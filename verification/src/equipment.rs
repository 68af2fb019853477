//! Dressing whoever stands in front.

use crate::dispenser::DispenserBlock;
use crate::item;
use crate::item::ItemStack;
use crate::protocol;
use crate::protocol::{Effect, EntitySet, EquipmentSlot, Equippable, SoundCategory, Wearer};
use crate::registry;
use crate::search;
use crate::turn;
use crate::turn::{DispenseOutcome, Phase, Turn};
use vstd::prelude::*;

verus! {

/// The entity belongs to those that may wear the item.
pub open spec fn allows(allowed: Option<protocol::EntitySetView>, wearer: Wearer) -> bool {
    match allowed {
        None => true,
        Some(protocol::EntitySetView::Tag(_)) => wearer.tagged == Some(true),
        Some(protocol::EntitySetView::Ids(ids)) => ids.contains(wearer.entity_type),
    }
}

/// The entity lives, takes part in the game and may wear the item.
pub open spec fn eligible(allowed: Option<protocol::EntitySetView>, wearer: Wearer) -> bool {
    wearer.living && wearer.part_of_game && allows(allowed, wearer)
}

/// The entities of a crowd, from number `from` on, that may be dressed.
pub open spec fn eligible_from(
    allowed: Option<protocol::EntitySetView>,
    crowd: Seq<Wearer>,
    from: int,
) -> spec_fn(int) -> bool {
    |i: int| from <= i && eligible(allowed, crowd[i])
}

/// The item is worn by someone and may be put on by a dispenser; otherwise the
/// attempt ends with `fallback`.
pub open spec fn fitting(
    stack: ItemStack,
    fallback: DispenseOutcome,
    worn: Option<protocol::EquippableView>,
) -> turn::TurnView {
    match worn {
        Some(equippable) if equippable.dispensable => turn::asks(
            stack,
            Phase::Wearers { fallback, slot: equippable.slot, sound: equippable.equip_sound },
        ),
        _ => turn::gives_up(stack, fallback),
    }
}

/// The next entity that may be dressed is looked at; if there is none, the
/// attempt ends with `fallback`.
pub open spec fn choosing(
    stack: ItemStack,
    fallback: DispenseOutcome,
    slot: EquipmentSlot,
    sound: u32,
    allowed: Option<protocol::EntitySetView>,
    crowd: Seq<Wearer>,
    from: int,
) -> turn::TurnView {
    match search::first_index(crowd.len() as int, eligible_from(allowed, crowd, from)) {
        Some(i) => turn::asks(
            stack,
            Phase::Dressing { fallback, slot, sound, entity: i as usize },
        ),
        None => turn::gives_up(stack, fallback),
    }
}

/// One item of the stack is put on the entity.
pub open spec fn dressing(
    stack: ItemStack,
    slot: EquipmentSlot,
    sound: u32,
    entity: usize,
) -> turn::TurnView {
    turn::succeeds(
        item::one_less(stack),
        seq![
            Effect::SendEquipment { entity, slot, stack: item::one_of(stack) },
            Effect::PlayEquipSound {
                entity,
                equip_sound: sound,
                category: SoundCategory::Blocks,
            },
            Effect::Equip { entity, slot, stack: item::one_of(stack) },
        ],
    )
}

/// Tells whether an entity belongs to those that may wear the item.
pub fn is_allowed_entity(allowed: &Option<EntitySet>, wearer: &Wearer) -> (allowed_here: bool)
    ensures
        allowed_here == allows(protocol::allowed_view(*allowed), *wearer),
{
    match allowed {
        None => true,
        Some(EntitySet::Tag(_)) => match wearer.tagged {
            Some(tagged) => tagged,
            None => false,
        },
        Some(EntitySet::Ids(types)) => registry::lists_id(types, wearer.entity_type),
    }
}

impl DispenserBlock {
    /// Begins to dress someone, if the item can be put on by a dispenser.
    pub fn dispense_equipment(
        stack: ItemStack,
        fallback: DispenseOutcome,
        worn: &Option<Equippable>,
    ) -> (turn: Turn)
        ensures
            turn@ == fitting(
                stack,
                fallback,
                match *worn {
                    Some(equippable) => Some(equippable@),
                    None => None,
                },
            ),
    {
        match worn {
            Some(equippable) => if equippable.dispensable {
                Turn::asks(
                    stack,
                    Phase::Wearers {
                        fallback,
                        slot: equippable.slot,
                        sound: equippable.equip_sound,
                    },
                )
            } else {
                Turn::gives_up(stack, fallback)
            },
            None => Turn::gives_up(stack, fallback),
        }
    }

    /// Looks for the next entity, from number `from` on, that may be dressed.
    pub fn choose_wearer(
        stack: ItemStack,
        fallback: DispenseOutcome,
        slot: EquipmentSlot,
        sound: u32,
        allowed: &Option<EntitySet>,
        crowd: &Vec<Wearer>,
        from: usize,
    ) -> (turn: Turn)
        ensures
            turn@ == choosing(
                stack,
                fallback,
                slot,
                sound,
                protocol::allowed_view(*allowed),
                crowd@,
                from as int,
            ),
    {
        let ghost wanted = eligible_from(protocol::allowed_view(*allowed), crowd@, from as int);
        let mut i: usize = from;
        while i < crowd.len()
            invariant
                from <= i,
                wanted == eligible_from(protocol::allowed_view(*allowed), crowd@, from as int),
                forall|j: int| 0 <= j < i && j < crowd.len() ==> !#[trigger] wanted(j),
            decreases crowd.len() - i,
        {
            let wearer = crowd[i];
            if wearer.living && wearer.part_of_game && is_allowed_entity(allowed, &wearer) {
                proof {
                    search::first_index_at(crowd@.len() as int, wanted, i as int);
                }
                return Turn::asks(stack, Phase::Dressing { fallback, slot, sound, entity: i });
            }
            i += 1;
        }
        proof {
            search::first_index_none(crowd@.len() as int, wanted);
        }
        Turn::gives_up(stack, fallback)
    }

    /// Puts one item of the stack on the entity.
    pub fn dress(stack: ItemStack, slot: EquipmentSlot, sound: u32, entity: usize) -> (turn: Turn)
        ensures
            turn@ == dressing(stack, slot, sound, entity),
    {
        let mut rest = stack;
        let taken = rest.split(1);
        Turn::succeeds(
            rest,
            vec![
                Effect::SendEquipment { entity, slot, stack: taken },
                Effect::PlayEquipSound {
                    entity,
                    equip_sound: sound,
                    category: SoundCategory::Blocks,
                },
                Effect::Equip { entity, slot, stack: taken },
            ],
        )
    }
}

/// An item without a list of wearers is for all; one with a tag is for those who are
/// known to carry it; one with a list of types is for those types.
pub proof fn wearers_are_told_by_tag_or_type(
    wearer: Wearer,
    tag: u32,
    ids: Seq<u16>,
)
    ensures
        allows(None, wearer),
        allows(Some(protocol::EntitySetView::Tag(tag)), wearer) <==> wearer.tagged == Some(true),
        allows(Some(protocol::EntitySetView::Ids(ids)), wearer) <==> exists|k: int|
            0 <= k < ids.len() && #[trigger] ids[k] == wearer.entity_type,
{
    if ids.contains(wearer.entity_type) {
        let k = choose|k: int| 0 <= k < ids.len() && ids[k] == wearer.entity_type;
        assert(ids[k] == wearer.entity_type);
    }
}

} // verus!
