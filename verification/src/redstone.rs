//! How a dispenser is placed, how it follows the redstone signal, and what a
//! scheduled tick sets off.

use crate::chance;
use crate::dispenser;
use crate::dispenser::{DispenserBlock, Dispensing};
use crate::geometry;
use crate::geometry::{BlockPos, DispenseContext, Facing};
use crate::item::ItemStack;
use crate::protocol;
use crate::protocol::{
    DispenserProperties, Effect, Notify, Picked, Query, Reply, TickPriority, WorldEvent,
};
use crate::registry::Registry;
use vstd::prelude::*;

verus! {

/// The ticks between the signal and the activation.
pub const TRIGGER_DELAY: u8 = 4;

/// What a neighbor update waits for.
#[derive(Clone, Copy, Debug, PartialEq, Eq, Structural)]
pub enum WatchPhase {
    /// Whether the dispenser receives power.
    PowerHere,
    /// Whether the block above does.
    PowerAbove,
    /// The properties of the dispenser.
    Reading { powered: bool },
    /// Nothing any more.
    Finished,
}

/// A neighbor update in progress.
#[derive(Clone, Copy, Debug, PartialEq, Eq, Structural)]
pub struct NeighborUpdate {
    /// The block that the dispenser is known as.
    pub block: u16,
    pub position: BlockPos,
    pub phase: WatchPhase,
}

/// The effects by which the trigger follows the power: when it rises, an
/// activation is scheduled.
pub open spec fn following(
    block: u16,
    position: BlockPos,
    powered: bool,
    properties: DispenserProperties,
) -> Seq<Effect> {
    let followed = Effect::SetProperties {
        block,
        position,
        properties: DispenserProperties { triggered: powered, ..properties },
        notify: Notify::Listeners,
    };
    if powered == properties.triggered {
        seq![]
    } else if powered {
        seq![
            Effect::ScheduleTick {
                block,
                position,
                delay: TRIGGER_DELAY,
                priority: TickPriority::Normal,
            },
            followed,
        ]
    } else {
        seq![followed]
    }
}

/// The properties of a dispenser that a player who looks along `player_facing` sets
/// down.
pub open spec fn set_down(
    default_properties: DispenserProperties,
    player_facing: Facing,
) -> DispenserProperties {
    DispenserProperties {
        facing: geometry::opposite_of(player_facing),
        ..default_properties
    }
}

/// The question a neighbor update waits on.
pub open spec fn watch_question(s: NeighborUpdate) -> Option<Query> {
    match s.phase {
        WatchPhase::PowerHere => Some(Query::Power { position: s.position }),
        WatchPhase::PowerAbove => Some(Query::Power { position: geometry::above(s.position) }),
        WatchPhase::Reading { .. } => Some(
            Query::Properties { block: s.block, position: s.position },
        ),
        WatchPhase::Finished => None,
    }
}

/// A neighbor update and its effects after an answer. The block above is only
/// looked at when the dispenser itself has no power. An answer that does not fit
/// the question changes nothing.
pub open spec fn watch_answered(s: NeighborUpdate, reply: protocol::ReplyView) -> (
    NeighborUpdate,
    Seq<Effect>,
) {
    match (s.phase, reply) {
        (WatchPhase::PowerHere, protocol::ReplyView::Flag(powered)) => (
            NeighborUpdate {
                phase: if powered {
                    WatchPhase::Reading { powered }
                } else {
                    WatchPhase::PowerAbove
                },
                ..s
            },
            seq![],
        ),
        (WatchPhase::PowerAbove, protocol::ReplyView::Flag(powered)) => (
            NeighborUpdate { phase: WatchPhase::Reading { powered }, ..s },
            seq![],
        ),
        (WatchPhase::Reading { powered }, protocol::ReplyView::Properties(properties)) => (
            NeighborUpdate { phase: WatchPhase::Finished, ..s },
            following(s.block, s.position, powered, properties),
        ),
        _ => (s, seq![]),
    }
}

impl NeighborUpdate {
    /// The question the update waits on. There is none once it has finished.
    pub fn pending(&self) -> (query: Option<Query>)
        ensures
            query == watch_question(*self),
    {
        match self.phase {
            WatchPhase::PowerHere => Some(Query::Power { position: self.position }),
            WatchPhase::PowerAbove => Some(Query::Power { position: self.position.up() }),
            WatchPhase::Reading { .. } => Some(
                Query::Properties { block: self.block, position: self.position },
            ),
            WatchPhase::Finished => None,
        }
    }

    /// Takes an answer to the pending question and returns what the host has to do.
    pub fn advance(&mut self, reply: Reply) -> (effects: Vec<Effect>)
        ensures
            (*final(self), effects@) == watch_answered(*old(self), reply@),
    {
        match (self.phase, reply) {
            (WatchPhase::PowerHere, Reply::Flag(powered)) => {
                self.phase = if powered {
                    WatchPhase::Reading { powered }
                } else {
                    WatchPhase::PowerAbove
                };
                Vec::new()
            },
            (WatchPhase::PowerAbove, Reply::Flag(powered)) => {
                self.phase = WatchPhase::Reading { powered };
                Vec::new()
            },
            (WatchPhase::Reading { powered }, Reply::Properties(properties)) => {
                self.phase = WatchPhase::Finished;
                DispenserBlock::follow_power(self.block, self.position, powered, properties)
            },
            _ => Vec::new(),
        }
    }
}

/// What a scheduled tick waits for.
pub enum TickPhase {
    /// The slot that is dispensed from.
    Picking,
    /// The facing of the dispenser.
    Aiming { slot: usize, item: ItemStack },
    /// What the activation waits for.
    Working(Dispensing),
    /// Nothing any more.
    Finished,
}

/// A scheduled tick in progress.
pub struct ScheduledTick {
    /// The block that the dispenser is known as.
    pub block: u16,
    pub position: BlockPos,
    pub phase: TickPhase,
}

/// The model of what a scheduled tick waits for.
pub enum TickPhaseView {
    Picking,
    Aiming { slot: usize, item: ItemStack },
    Working(dispenser::DispensingView),
    Finished,
}

/// The model of a scheduled tick.
pub struct ScheduledTickView {
    pub block: u16,
    pub position: BlockPos,
    pub phase: TickPhaseView,
}

impl View for ScheduledTick {
    type V = ScheduledTickView;

    open spec fn view(&self) -> ScheduledTickView {
        ScheduledTickView {
            block: self.block,
            position: self.position,
            phase: match self.phase {
                TickPhase::Picking => TickPhaseView::Picking,
                TickPhase::Aiming { slot, item } => TickPhaseView::Aiming { slot, item },
                TickPhase::Working(dispensing) => TickPhaseView::Working(dispensing@),
                TickPhase::Finished => TickPhaseView::Finished,
            },
        }
    }
}

/// The question a scheduled tick waits on.
pub open spec fn tick_question(s: ScheduledTickView) -> Option<Query> {
    match s.phase {
        TickPhaseView::Picking => Some(Query::PickSlot { position: s.position }),
        TickPhaseView::Aiming { .. } => Some(
            Query::Properties { block: s.block, position: s.position },
        ),
        TickPhaseView::Working(dispensing) => dispenser::question(dispensing),
        TickPhaseView::Finished => None,
    }
}

/// A scheduled tick and its effects after an answer: an empty dispenser only
/// clicks, a filled one is activated in the direction it faces.
pub open spec fn tick_answered(
    reg: &Registry,
    s: ScheduledTickView,
    reply: protocol::ReplyView,
) -> (ScheduledTickView, Seq<Effect>) {
    let at = |phase: TickPhaseView| ScheduledTickView { phase, ..s };
    match (s.phase, reply) {
        (TickPhaseView::Picking, protocol::ReplyView::Picked(Picked::NoDispenser)) => (
            at(TickPhaseView::Finished),
            seq![],
        ),
        (TickPhaseView::Picking, protocol::ReplyView::Picked(Picked::Nothing)) => (
            at(TickPhaseView::Finished),
            seq![
                Effect::SyncWorldEvent {
                    event: WorldEvent::SoundDispenserFail,
                    position: s.position,
                    data: 0,
                },
            ],
        ),
        (TickPhaseView::Picking, protocol::ReplyView::Picked(Picked::Slot { slot, item })) => (
            at(TickPhaseView::Aiming { slot, item }),
            seq![],
        ),
        (TickPhaseView::Aiming { slot, item }, protocol::ReplyView::Properties(properties)) => {
            let started = dispenser::begun(
                reg,
                DispenseContext { position: s.position, facing: properties.facing },
                slot,
                item,
            );
            (at(TickPhaseView::Working(started.0)), started.1)
        },
        (TickPhaseView::Working(dispensing), _) => {
            let gone_on = dispenser::answered(reg, dispensing, reply);
            (at(TickPhaseView::Working(gone_on.0)), gone_on.1)
        },
        _ => (s, seq![]),
    }
}

impl ScheduledTick {
    /// The question the tick waits on. There is none once it has finished.
    pub fn pending(&self) -> (query: Option<Query>)
        ensures
            query == tick_question(self@),
    {
        match &self.phase {
            TickPhase::Picking => Some(Query::PickSlot { position: self.position }),
            TickPhase::Aiming { .. } => Some(
                Query::Properties { block: self.block, position: self.position },
            ),
            TickPhase::Working(dispensing) => dispensing.pending(),
            TickPhase::Finished => None,
        }
    }

    /// Takes an answer to the pending question and returns what the host has to do.
    /// An answer that does not fit the question changes nothing.
    pub fn advance(&mut self, reg: &Registry, reply: Reply) -> (effects: Vec<Effect>)
        ensures
            (final(self)@, effects@) == tick_answered(reg, old(self)@, reply@),
    {
        let position = self.position;
        match (&mut self.phase, reply) {
            (TickPhase::Working(dispensing), reply) => {
                return dispensing.advance(reg, reply);
            },
            (TickPhase::Picking, Reply::Picked(Picked::NoDispenser)) => {
                self.phase = TickPhase::Finished;
                Vec::new()
            },
            (TickPhase::Picking, Reply::Picked(Picked::Nothing)) => {
                self.phase = TickPhase::Finished;
                vec![
                    Effect::SyncWorldEvent {
                        event: WorldEvent::SoundDispenserFail,
                        position,
                        data: 0,
                    },
                ]
            },
            (TickPhase::Picking, Reply::Picked(Picked::Slot { slot, item })) => {
                self.phase = TickPhase::Aiming { slot, item };
                Vec::new()
            },
            (TickPhase::Aiming { slot, item }, Reply::Properties(properties)) => {
                let (dispensing, effects) = DispenserBlock::dispense(
                    reg,
                    DispenseContext::new(position, properties.facing),
                    *slot,
                    *item,
                );
                self.phase = TickPhase::Working(dispensing);
                effects
            },
            _ => Vec::new(),
        }
    }

    /// Lets chance answer the pending question, if it is one for chance, and
    /// returns what the host has to do.
    pub fn advance_by_chance(&mut self, reg: &Registry) -> (effects: Option<Vec<Effect>>)
        ensures
            effects is Some <==> tick_question(old(self)@) is Some && chance::is_up_to_chance(
                tick_question(old(self)@)->0,
            ),
            effects is None ==> final(self)@ == old(self)@,
            effects is Some ==> exists|reply: protocol::ReplyView|
                #![trigger tick_answered(reg, old(self)@, reply)]
                chance::possible(tick_question(old(self)@)->0, reply) && (
                    final(self)@,
                    effects->0@,
                ) == tick_answered(reg, old(self)@, reply),
    {
        match self.pending() {
            Some(query) => match chance::draw(query) {
                Some(reply) => Some(self.advance(reg, reply)),
                None => None,
            },
            None => None,
        }
    }
}

impl DispenserBlock {
    /// The properties of a dispenser that a player sets down: it faces the player.
    pub fn on_place(
        default_properties: DispenserProperties,
        player_facing: Facing,
    ) -> (properties: DispenserProperties)
        ensures
            properties == set_down(default_properties, player_facing),
    {
        let mut properties = default_properties;
        properties.facing = player_facing.opposite();
        properties
    }

    /// Begins to look whether the power at the dispenser has changed.
    pub fn on_neighbor_update(block: u16, position: BlockPos) -> (update: NeighborUpdate)
        ensures
            update == (NeighborUpdate { block, position, phase: WatchPhase::PowerHere }),
    {
        NeighborUpdate { block, position, phase: WatchPhase::PowerHere }
    }

    /// Lets the trigger follow the power, and schedules an activation when it rises.
    pub fn follow_power(
        block: u16,
        position: BlockPos,
        powered: bool,
        properties: DispenserProperties,
    ) -> (effects: Vec<Effect>)
        ensures
            effects@ == following(block, position, powered, properties),
    {
        let mut properties = properties;
        if powered && !properties.triggered {
            properties.triggered = true;
            vec![
                Effect::ScheduleTick {
                    block,
                    position,
                    delay: TRIGGER_DELAY,
                    priority: TickPriority::Normal,
                },
                Effect::SetProperties { block, position, properties, notify: Notify::Listeners },
            ]
        } else if !powered && properties.triggered {
            properties.triggered = false;
            vec![
                Effect::SetProperties { block, position, properties, notify: Notify::Listeners },
            ]
        } else {
            Vec::new()
        }
    }

    /// Begins what a scheduled tick sets off.
    pub fn on_scheduled_tick(block: u16, position: BlockPos) -> (tick: ScheduledTick)
        ensures
            tick@ == (ScheduledTickView { block, position, phase: TickPhaseView::Picking }),
    {
        ScheduledTick { block, position, phase: TickPhase::Picking }
    }
}

/// The properties after the effects of an update.
pub open spec fn properties_after(
    properties: DispenserProperties,
    effects: Seq<Effect>,
) -> DispenserProperties
    decreases effects.len(),
{
    if effects.len() == 0 {
        properties
    } else {
        match effects.last() {
            Effect::SetProperties { properties: changed, .. } => changed,
            _ => properties_after(properties, effects.drop_last()),
        }
    }
}

/// The effects schedule an activation.
pub open spec fn schedules(effects: Seq<Effect>) -> bool {
    exists|i: int| 0 <= i < effects.len() && effects[i] is ScheduleTick
}

/// After an update the trigger shows whether there is power and the facing is
/// unchanged. An activation was scheduled exactly if the power had risen, so a
/// lasting signal sets off one activation only: a second update under the same
/// power does nothing.
pub proof fn trigger_follows_power(
    block: u16,
    position: BlockPos,
    powered: bool,
    properties: DispenserProperties,
)
    ensures
        ({
            let effects = following(block, position, powered, properties);
            let after = properties_after(properties, effects);
            &&& after.triggered == powered
            &&& after.facing == properties.facing
            &&& schedules(effects) <==> powered && !properties.triggered
            &&& following(block, position, powered, after) == Seq::<Effect>::empty()
        }),
{
    reveal_with_fuel(properties_after, 3);
    let effects = following(block, position, powered, properties);
    if powered && !properties.triggered {
        assert(effects[0] is ScheduleTick);
    }
}

/// A neighbor update counts power at the dispenser or at the block above it, and
/// asks about the latter only when the former has none.
pub proof fn update_sees_power_here_or_above(
    block: u16,
    position: BlockPos,
    here: bool,
    above: bool,
    properties: DispenserProperties,
)
    ensures
        ({
            let begun = NeighborUpdate { block, position, phase: WatchPhase::PowerHere };
            let looked = watch_answered(begun, protocol::ReplyView::Flag(here)).0;
            let reading = if here {
                looked
            } else {
                watch_answered(looked, protocol::ReplyView::Flag(above)).0
            };
            let done = watch_answered(reading, protocol::ReplyView::Properties(properties));
            &&& watch_question(begun) == Some(Query::Power { position })
            &&& !here ==> watch_question(looked) == Some(
                Query::Power { position: geometry::above(position) },
            )
            &&& watch_question(reading) == Some(Query::Properties { block, position })
            &&& watch_question(done.0) is None
            &&& done.1 == following(block, position, here || above, properties)
        }),
{
}

} // verus!
