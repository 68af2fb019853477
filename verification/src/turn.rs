//! One move of an activation: what becomes of the stack, what the host has to
//! do, and how it goes on.

use crate::item::ItemStack;
use crate::protocol::{Effect, EquipmentSlot, Summon, WorldEvent};
use crate::geometry::BlockPos;
use vstd::prelude::*;

verus! {

/// How the attempt to dispense an item came out.
#[derive(Clone, Copy, Debug, PartialEq, Eq, Structural)]
pub enum DispenseOutcome {
    /// The item was put to use, with this sound.
    Success(WorldEvent),
    /// Nothing was done with the item.
    Failure,
    /// One item is to be thrown out.
    Drop,
    /// One item is to be thrown out, with the sound of a failure.
    DropFailure,
}

/// What an activation is waiting for.
#[derive(Clone, Copy, Debug, PartialEq, Eq, Structural)]
pub enum Phase {
    /// A boat: the block in front.
    BoatFront { entity_type: u16 },
    /// A boat: the block under the one in front.
    BoatBelow { entity_type: u16 },
    /// A boat: room at the place found for it.
    BoatRoom { entity_type: u16, position: BlockPos },
    /// A minecart: the block in front.
    MinecartFront { entity_type: u16 },
    /// A minecart: the block under the one in front.
    MinecartBelow { entity_type: u16 },
    /// An armor stand: room in front.
    StandRoom { entity_type: u16 },
    /// A spawn egg: an identifier for the mob.
    EggUuid { entity_type: u16 },
    /// An empty bucket: what it took up.
    Scooping,
    /// A filled bucket: whether its contents boil away.
    Boiling,
    /// A filled bucket: whether it could be emptied.
    Emptying,
    /// Flint and steel: the block in front.
    FlintFront,
    /// Flint and steel: whether something caught fire.
    Igniting,
    /// A tool that was used: what is left of it.
    Wearing,
    /// Shears: the block in front.
    HiveFront,
    /// Shears: the entities in front.
    Flock,
    /// Shears: how much wool comes off.
    WoolRoll { entity: usize, color: u8 },
    /// A glass bottle: the block in front.
    BottleFront,
    /// A water bottle: the block in front.
    MudFront,
    /// A honeycomb: the block in front.
    WaxFront,
    /// A honeycomb: the waxed form of the block in front.
    Waxing { block: u16, state: u16 },
    /// Glowstone: the block in front.
    AnchorFront,
    /// A head: the block in front.
    HeadFront { summon: Summon },
    /// A head: whether it finishes a pattern.
    HeadPattern { summon: Summon },
    /// A shulker box: the block in front.
    ShulkerFront { block: u16 },
    /// A shulker box: the block under the one in front.
    ShulkerBelow { block: u16 },
    /// Equipment: how it is worn.
    Fitting { fallback: DispenseOutcome },
    /// Equipment: who is in front.
    Wearers { fallback: DispenseOutcome, slot: EquipmentSlot, sound: u32 },
    /// Equipment: whether the entity has nothing on there.
    Dressing { fallback: DispenseOutcome, slot: EquipmentSlot, sound: u32, entity: usize },
    /// A filled container: the next slot it may go to.
    Stowing { remainder: ItemStack, index: usize },
    /// Nothing any more.
    Finished,
}

/// How an activation goes on.
#[derive(Clone, Copy, Debug, PartialEq, Eq, Structural)]
pub enum Next {
    /// It has to know something.
    Ask(Phase),
    /// It is decided.
    End(DispenseOutcome),
}

/// One move.
pub struct Turn {
    pub item: ItemStack,
    pub effects: Vec<Effect>,
    pub next: Next,
}

/// The model of a move.
#[verifier::ext_equal]
pub struct TurnView {
    pub item: ItemStack,
    pub effects: Seq<Effect>,
    pub next: Next,
}

impl View for Turn {
    type V = TurnView;

    open spec fn view(&self) -> TurnView {
        TurnView { item: self.item, effects: self.effects@, next: self.next }
    }
}

/// Nothing is done yet; the activation waits for `phase`.
pub open spec fn asks(item: ItemStack, phase: Phase) -> TurnView {
    TurnView { item, effects: seq![], next: Next::Ask(phase) }
}

/// The effects are carried out, then the activation waits for `phase`.
pub open spec fn acts_and_asks(item: ItemStack, effects: Seq<Effect>, phase: Phase) -> TurnView {
    TurnView { item, effects, next: Next::Ask(phase) }
}

/// Nothing was done, and nothing will be.
pub open spec fn gives_up(item: ItemStack, outcome: DispenseOutcome) -> TurnView {
    TurnView { item, effects: seq![], next: Next::End(outcome) }
}

/// The effects are carried out and the item has been dispensed.
pub open spec fn succeeds(item: ItemStack, effects: Seq<Effect>) -> TurnView {
    TurnView {
        item,
        effects,
        next: Next::End(DispenseOutcome::Success(WorldEvent::SoundDispenserDispense)),
    }
}

impl Turn {
    /// Waits for `phase`.
    pub fn asks(item: ItemStack, phase: Phase) -> (turn: Turn)
        ensures
            turn@ == crate::turn::asks(item, phase),
    {
        Turn { item, effects: Vec::new(), next: Next::Ask(phase) }
    }

    /// Carries out the effects, then waits for `phase`.
    pub fn acts_and_asks(item: ItemStack, effects: Vec<Effect>, phase: Phase) -> (turn: Turn)
        ensures
            turn@ == crate::turn::acts_and_asks(item, effects@, phase),
    {
        Turn { item, effects, next: Next::Ask(phase) }
    }

    /// Leaves everything as it is.
    pub fn gives_up(item: ItemStack, outcome: DispenseOutcome) -> (turn: Turn)
        ensures
            turn@ == crate::turn::gives_up(item, outcome),
    {
        Turn { item, effects: Vec::new(), next: Next::End(outcome) }
    }

    /// Carries out the effects and reports the item as dispensed.
    pub fn succeeds(item: ItemStack, effects: Vec<Effect>) -> (turn: Turn)
        ensures
            turn@ == crate::turn::succeeds(item, effects@),
    {
        Turn {
            item,
            effects,
            next: Next::End(DispenseOutcome::Success(WorldEvent::SoundDispenserDispense)),
        }
    }
}

} // verus!
