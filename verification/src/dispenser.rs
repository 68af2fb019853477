//! One activation from the picked item to the last puff of smoke.

use crate::behavior;
use crate::behavior::Behavior;
use crate::blocks;
use crate::containers;
use crate::equipment;
use crate::geometry;
use crate::geometry::DispenseContext;
use crate::inventory;
use crate::item;
use crate::item::ItemStack;
use crate::projectile;
use crate::protocol;
use crate::protocol::{Cell, Effect, EntitySet, Notify, Query, Reply, Wearer, WorldEvent};
use crate::registry::Registry;
use crate::spawning;
use crate::tools;
use crate::turn;
use crate::turn::{DispenseOutcome, Next, Phase, Turn};
use crate::vehicles;
use vstd::prelude::*;

verus! {

/// The dispenser block.
pub struct DispenserBlock;

/// The least wool that comes off a sheep.
pub const LEAST_WOOL: u8 = 1;

/// The most wool that comes off a sheep.
pub const MOST_WOOL: u8 = 3;

/// An activation in progress.
pub struct Dispensing {
    pub ctx: DispenseContext,
    /// The slot that is being dispensed from.
    pub slot: usize,
    /// What is in that slot by now.
    pub item: ItemStack,
    pub phase: Phase,
    /// Who may wear the item, once that is known.
    pub allowed: Option<EntitySet>,
    /// Who stands in front, once that is known.
    pub crowd: Vec<Wearer>,
}

/// The model of an activation in progress.
#[verifier::ext_equal]
pub struct DispensingView {
    pub ctx: DispenseContext,
    pub slot: usize,
    pub item: ItemStack,
    pub phase: Phase,
    pub allowed: Option<protocol::EntitySetView>,
    pub crowd: Seq<Wearer>,
}

impl View for Dispensing {
    type V = DispensingView;

    open spec fn view(&self) -> DispensingView {
        DispensingView {
            ctx: self.ctx,
            slot: self.slot,
            item: self.item,
            phase: self.phase,
            allowed: protocol::allowed_view(self.allowed),
            crowd: self.crowd@,
        }
    }
}

/// The first move, by the behavior of the item.
pub open spec fn opening(reg: &Registry, ctx: DispenseContext, stack: ItemStack) -> turn::TurnView {
    match behavior::behavior_of(reg, stack) {
        Behavior::Projectile => projectile::shooting(reg.items, stack),
        Behavior::Boat { entity_type } => turn::asks(stack, Phase::BoatFront { entity_type }),
        Behavior::Minecart { entity_type } => turn::asks(
            stack,
            Phase::MinecartFront { entity_type },
        ),
        Behavior::ArmorStand => turn::asks(
            stack,
            Phase::StandRoom { entity_type: reg.armor_stand_entity },
        ),
        Behavior::Tnt => spawning::priming(ctx, stack),
        Behavior::SpawnEgg { entity_type } => turn::asks(stack, Phase::EggUuid { entity_type }),
        Behavior::EmptyBucket => turn::asks(stack, Phase::Scooping),
        Behavior::FilledBucket => turn::asks(stack, Phase::Boiling),
        Behavior::FlintAndSteel => turn::asks(stack, Phase::FlintFront),
        Behavior::Shears => turn::asks(stack, Phase::HiveFront),
        Behavior::GlassBottle => turn::asks(stack, Phase::BottleFront),
        Behavior::WaterBottle => turn::asks(stack, Phase::MudFront),
        Behavior::Honeycomb => turn::asks(stack, Phase::WaxFront),
        Behavior::Glowstone => turn::asks(stack, Phase::AnchorFront),
        Behavior::BoneMeal => turn::gives_up(stack, DispenseOutcome::Failure),
        Behavior::MobHead { summon } => turn::asks(stack, Phase::HeadFront { summon }),
        Behavior::ShulkerBox { block } => turn::asks(stack, Phase::ShulkerFront { block }),
        Behavior::Ordinary => turn::asks(
            stack,
            Phase::Fitting { fallback: DispenseOutcome::Drop },
        ),
    }
}

/// The world event that announces an outcome.
pub open spec fn sound_of(outcome: DispenseOutcome) -> WorldEvent {
    match outcome {
        DispenseOutcome::Success(event) => event,
        DispenseOutcome::Drop => WorldEvent::SoundDispenserDispense,
        DispenseOutcome::Failure | DispenseOutcome::DropFailure => WorldEvent::SoundDispenserFail,
    }
}

/// The outcome calls for one item to be thrown out.
pub open spec fn is_drop(outcome: DispenseOutcome) -> bool {
    outcome == DispenseOutcome::Drop || outcome == DispenseOutcome::DropFailure
}

/// What every activation ends with: the sound, the smoke and the note that the
/// contents changed.
pub open spec fn flourish(ctx: DispenseContext, sound: WorldEvent) -> Seq<Effect> {
    seq![
        Effect::SyncWorldEvent { event: sound, position: ctx.position, data: 0 },
        Effect::SyncWorldEvent {
            event: WorldEvent::ParticlesShootSmoke,
            position: ctx.position,
            data: geometry::data3d_of(ctx.facing),
        },
        Effect::MarkDirty,
    ]
}

/// The effects that an outcome brings about.
pub open spec fn closing_effects(
    ctx: DispenseContext,
    stack: ItemStack,
    outcome: DispenseOutcome,
) -> Seq<Effect> {
    if is_drop(outcome) {
        seq![inventory::throwing(item::one_of(stack))] + flourish(ctx, sound_of(outcome))
    } else {
        flourish(ctx, sound_of(outcome))
    }
}

/// The stack after the outcome.
pub open spec fn closing_stack(stack: ItemStack, outcome: DispenseOutcome) -> ItemStack {
    if is_drop(outcome) {
        item::one_less(stack)
    } else {
        stack
    }
}

/// The activation and its effects after a move.
pub open spec fn settled(s: DispensingView, step: turn::TurnView) -> (
    DispensingView,
    Seq<Effect>,
) {
    match step.next {
        Next::Ask(phase) => (
            DispensingView { item: step.item, phase, ..s },
            step.effects,
        ),
        Next::End(outcome) => (
            DispensingView {
                item: closing_stack(step.item, outcome),
                phase: Phase::Finished,
                ..s
            },
            step.effects + closing_effects(s.ctx, step.item, outcome),
        ),
    }
}

/// An activation that has just been set off, and its first effects.
pub open spec fn begun(
    reg: &Registry,
    ctx: DispenseContext,
    slot: usize,
    stack: ItemStack,
) -> (DispensingView, Seq<Effect>) {
    settled(
        DispensingView {
            ctx,
            slot,
            item: stack,
            phase: Phase::Finished,
            allowed: None,
            crowd: seq![],
        },
        opening(reg, ctx, stack),
    )
}

/// The tag by which those who may wear the item are known, if there is one.
pub open spec fn tag_of(allowed: Option<protocol::EntitySetView>) -> Option<u32> {
    match allowed {
        Some(protocol::EntitySetView::Tag(tag)) => Some(tag),
        _ => None,
    }
}

/// The question an activation waits on. There is none once it has finished.
pub open spec fn question(s: DispensingView) -> Option<Query> {
    let target = geometry::target_of(s.ctx);
    match s.phase {
        Phase::BoatFront { .. } | Phase::MinecartFront { .. } | Phase::FlintFront | Phase::HiveFront
        | Phase::BottleFront | Phase::MudFront | Phase::WaxFront | Phase::AnchorFront
        | Phase::HeadFront { .. } | Phase::ShulkerFront { .. } => Some(
            Query::Cell { position: target },
        ),
        Phase::BoatBelow { .. } | Phase::MinecartBelow { .. } | Phase::ShulkerBelow { .. } => Some(
            Query::Cell { position: geometry::below(target) },
        ),
        Phase::BoatRoom { entity_type, position } => Some(Query::Room { position, entity_type }),
        Phase::StandRoom { entity_type } => Some(Query::Room { position: target, entity_type }),
        Phase::EggUuid { .. } => Some(Query::FreshUuid),
        Phase::Scooping => Some(Query::PickUp { position: target, facing: s.ctx.facing }),
        Phase::Boiling => Some(Query::Evaporates { item: s.item.item }),
        Phase::Emptying => Some(
            Query::EmptyOut {
                item: s.item.item,
                position: s.ctx.position,
                facing: s.ctx.facing,
            },
        ),
        Phase::Igniting => Some(Query::Ignite { position: target, notify: Notify::All }),
        Phase::Wearing => Some(Query::Damage { stack: s.item, amount: 1 }),
        Phase::Flock => Some(Query::Animals { position: target }),
        Phase::WoolRoll { .. } => Some(Query::Roll { low: LEAST_WOOL, high: MOST_WOOL }),
        Phase::Waxing { block, state } => Some(Query::WaxedState { block, state }),
        Phase::HeadPattern { summon } => Some(Query::Pattern { summon, position: target }),
        Phase::Fitting { .. } => Some(Query::Equippable { stack: s.item }),
        Phase::Wearers { .. } => Some(Query::Wearers { position: target, tag: tag_of(s.allowed) }),
        Phase::Dressing { slot, entity, .. } => Some(Query::NothingWorn { entity, slot }),
        Phase::Stowing { index, .. } => Some(Query::Slot { index }),
        Phase::Finished => None,
    }
}

/// The move that the sight of a block leads to, if a block was waited for.
pub open spec fn on_cell(reg: &Registry, s: DispensingView, cell: Cell) -> Option<turn::TurnView> {
    match s.phase {
        Phase::BoatFront { entity_type } => Some(
            vehicles::boat_at_front(reg.fluids, s.ctx, s.item, entity_type, cell),
        ),
        Phase::BoatBelow { entity_type } => Some(
            vehicles::boat_at_below(reg.fluids, s.ctx, s.item, entity_type, cell),
        ),
        Phase::MinecartFront { entity_type } => Some(
            vehicles::minecart_at_front(s.item, entity_type, cell),
        ),
        Phase::MinecartBelow { entity_type } => Some(
            vehicles::minecart_at_below(s.ctx, s.item, entity_type, cell),
        ),
        Phase::FlintFront => Some(tools::striking(reg.blocks.tnt, s.ctx, s.item, cell)),
        Phase::HiveFront => Some(tools::harvesting(reg.items.honeycomb, s.ctx, s.item, cell)),
        Phase::BottleFront => Some(containers::bottling(reg, s.ctx, s.slot as int, s.item, cell)),
        Phase::MudFront => Some(containers::muddying(reg, s.ctx, s.item, cell)),
        Phase::WaxFront => Some(
            turn::asks(s.item, Phase::Waxing { block: cell.block, state: cell.state }),
        ),
        Phase::AnchorFront => Some(
            blocks::charging(reg.blocks.respawn_anchor, s.ctx, s.item, cell),
        ),
        Phase::HeadFront { summon } => Some(blocks::heading(s.item, summon, cell)),
        Phase::ShulkerFront { block } => Some(blocks::boxing(s.item, block, cell)),
        Phase::ShulkerBelow { block } => Some(blocks::unpacking(s.ctx, s.item, block, cell)),
        _ => None,
    }
}

/// The move that a yes or no leads to, if one was waited for.
pub open spec fn on_flag(reg: &Registry, s: DispensingView, flag: bool) -> Option<turn::TurnView> {
    match s.phase {
        Phase::Boiling => Some(containers::boiling(reg.items.bucket, s.ctx, s.item, flag)),
        Phase::Emptying => Some(containers::emptying(reg.items.bucket, s.item, flag)),
        Phase::Igniting => Some(tools::using(s.item, flag)),
        Phase::HeadPattern { summon } => Some(
            blocks::summoning(reg.blocks, s.ctx, s.item, summon, flag),
        ),
        Phase::Dressing { fallback, slot, sound, entity } => Some(
            if flag {
                equipment::dressing(s.item, slot, sound, entity)
            } else {
                equipment::choosing(
                    s.item,
                    fallback,
                    slot,
                    sound,
                    s.allowed,
                    s.crowd,
                    entity + 1,
                )
            },
        ),
        _ => None,
    }
}

/// The move that an answer leads to. An answer that does not fit the question
/// leads to none.
pub open spec fn response(
    reg: &Registry,
    s: DispensingView,
    reply: protocol::ReplyView,
) -> Option<turn::TurnView> {
    match (s.phase, reply) {
        (_, protocol::ReplyView::Cell(cell)) => on_cell(reg, s, cell),
        (_, protocol::ReplyView::Flag(flag)) => on_flag(reg, s, flag),
        (
            Phase::BoatRoom { entity_type, position },
            protocol::ReplyView::Room { space_empty, obstacles },
        ) => Some(
            vehicles::boat_with_room(
                s.item,
                entity_type,
                position,
                vehicles::is_room(space_empty, obstacles),
            ),
        ),
        (Phase::StandRoom { .. }, protocol::ReplyView::Room { space_empty, obstacles }) => Some(
            vehicles::stand_with_room(s.ctx, s.item, vehicles::is_room(space_empty, obstacles)),
        ),
        (Phase::EggUuid { entity_type }, protocol::ReplyView::Uuid(uuid)) => Some(
            spawning::hatching(s.ctx, s.item, entity_type, uuid),
        ),
        (Phase::Scooping, protocol::ReplyView::Item(filled)) => Some(
            containers::scooping(reg.items.air, s.slot as int, s.item, filled),
        ),
        (Phase::Wearing, protocol::ReplyView::Stack(worn)) => Some(turn::succeeds(worn, seq![])),
        (Phase::Flock, protocol::ReplyView::Animals(animals)) => Some(
            tools::shearing(s.item, animals),
        ),
        (Phase::WoolRoll { entity, color }, protocol::ReplyView::Count(count)) => Some(
            tools::dropping_wool(reg.wool, s.item, entity, color, count),
        ),
        (Phase::Waxing { .. }, protocol::ReplyView::State(waxed)) => Some(
            blocks::waxing(s.ctx, s.item, waxed),
        ),
        (Phase::Fitting { fallback }, protocol::ReplyView::Equippable(worn)) => Some(
            equipment::fitting(s.item, fallback, worn),
        ),
        (
            Phase::Wearers { fallback, slot, sound },
            protocol::ReplyView::Wearers { entities, players },
        ) => Some(
            equipment::choosing(
                s.item,
                fallback,
                slot,
                sound,
                s.allowed,
                entities + players,
                0,
            ),
        ),
        (Phase::Stowing { remainder, index }, protocol::ReplyView::Slot(contents)) => Some(
            inventory::trying_slot(
                reg.items.air,
                s.slot as int,
                s.item,
                remainder,
                index,
                contents,
            ),
        ),
        _ => None,
    }
}

/// What an activation remembers of an answer.
pub open spec fn noted(s: DispensingView, reply: protocol::ReplyView) -> DispensingView {
    match (s.phase, reply) {
        (Phase::Fitting { .. }, protocol::ReplyView::Equippable(worn)) => DispensingView {
            allowed: match worn {
                Some(equippable) => equippable.allowed_entities,
                None => None,
            },
            ..s
        },
        (Phase::Wearers { .. }, protocol::ReplyView::Wearers { entities, players }) => {
            DispensingView { crowd: entities + players, ..s }
        },
        _ => s,
    }
}

/// An activation and its effects after an answer. An answer that does not fit the
/// question changes nothing.
pub open spec fn answered(
    reg: &Registry,
    s: DispensingView,
    reply: protocol::ReplyView,
) -> (DispensingView, Seq<Effect>) {
    match response(reg, s, reply) {
        Some(step) => settled(noted(s, reply), step),
        None => (s, seq![]),
    }
}

impl DispenserBlock {
    /// The first move, by the behavior of the item.
    pub fn run_behavior(reg: &Registry, ctx: &DispenseContext, stack: ItemStack) -> (turn: Turn)
        ensures
            turn@ == opening(reg, *ctx, stack),
    {
        match Self::behavior(reg, &stack) {
            Behavior::Projectile => Self::dispense_projectile(&reg.items, stack),
            Behavior::Boat { entity_type } => Turn::asks(stack, Phase::BoatFront { entity_type }),
            Behavior::Minecart { entity_type } => Turn::asks(
                stack,
                Phase::MinecartFront { entity_type },
            ),
            Behavior::ArmorStand => Turn::asks(
                stack,
                Phase::StandRoom { entity_type: reg.armor_stand_entity },
            ),
            Behavior::Tnt => Self::dispense_tnt(ctx, stack),
            Behavior::SpawnEgg { entity_type } => Turn::asks(stack, Phase::EggUuid { entity_type }),
            Behavior::EmptyBucket => Turn::asks(stack, Phase::Scooping),
            Behavior::FilledBucket => Turn::asks(stack, Phase::Boiling),
            Behavior::FlintAndSteel => Turn::asks(stack, Phase::FlintFront),
            Behavior::Shears => Turn::asks(stack, Phase::HiveFront),
            Behavior::GlassBottle => Turn::asks(stack, Phase::BottleFront),
            Behavior::WaterBottle => Turn::asks(stack, Phase::MudFront),
            Behavior::Honeycomb => Turn::asks(stack, Phase::WaxFront),
            Behavior::Glowstone => Turn::asks(stack, Phase::AnchorFront),
            Behavior::BoneMeal => Turn::gives_up(stack, DispenseOutcome::Failure),
            Behavior::MobHead { summon } => Turn::asks(stack, Phase::HeadFront { summon }),
            Behavior::ShulkerBox { block } => Turn::asks(stack, Phase::ShulkerFront { block }),
            Behavior::Ordinary => Turn::asks(
                stack,
                Phase::Fitting { fallback: DispenseOutcome::Drop },
            ),
        }
    }

    /// Sets off an activation of a dispenser with `stack` in the picked slot, and
    /// returns it with its first effects.
    pub fn dispense(
        reg: &Registry,
        ctx: DispenseContext,
        slot: usize,
        stack: ItemStack,
    ) -> (started: (Dispensing, Vec<Effect>))
        ensures
            (started.0@, started.1@) == begun(reg, ctx, slot, stack),
    {
        let turn = Self::run_behavior(reg, &ctx, stack);
        let mut dispensing = Dispensing {
            ctx,
            slot,
            item: stack,
            phase: Phase::Finished,
            allowed: None,
            crowd: Vec::new(),
        };
        let effects = dispensing.settle(turn);
        (dispensing, effects)
    }
}

impl Dispensing {
    /// Ends the activation with `outcome` and appends what that brings about.
    fn conclude(&mut self, outcome: DispenseOutcome, effects: &mut Vec<Effect>)
        ensures
            final(self)@ == (DispensingView {
                item: closing_stack(old(self).item, outcome),
                phase: Phase::Finished,
                ..old(self)@
            }),
            final(effects)@ == old(effects)@ + closing_effects(
                old(self).ctx,
                old(self).item,
                outcome,
            ),
    {
        let sound = match outcome {
            DispenseOutcome::Success(event) => event,
            DispenseOutcome::Failure => WorldEvent::SoundDispenserFail,
            DispenseOutcome::Drop => {
                effects.push(inventory::throw_out(self.item.split(1)));
                WorldEvent::SoundDispenserDispense
            },
            DispenseOutcome::DropFailure => {
                effects.push(inventory::throw_out(self.item.split(1)));
                WorldEvent::SoundDispenserFail
            },
        };
        effects.push(
            Effect::SyncWorldEvent { event: sound, position: self.ctx.position, data: 0 },
        );
        effects.push(
            Effect::SyncWorldEvent {
                event: WorldEvent::ParticlesShootSmoke,
                position: self.ctx.position,
                data: geometry::to_data3d(self.ctx.facing),
            },
        );
        effects.push(Effect::MarkDirty);
        self.phase = Phase::Finished;
        proof {
            assert(effects@ =~= old(effects)@ + closing_effects(
                old(self).ctx,
                old(self).item,
                outcome,
            ));
        }
    }

    /// Makes a move and returns its effects.
    fn settle(&mut self, turn: Turn) -> (effects: Vec<Effect>)
        ensures
            (final(self)@, effects@) == settled(old(self)@, turn@),
    {
        let mut effects = turn.effects;
        self.item = turn.item;
        match turn.next {
            Next::Ask(phase) => {
                self.phase = phase;
            },
            Next::End(outcome) => {
                self.conclude(outcome, &mut effects);
            },
        }
        effects
    }

    /// The question the activation waits on. There is none once it has finished.
    pub fn pending(&self) -> (query: Option<Query>)
        ensures
            query == question(self@),
    {
        let target = self.ctx.target_position();
        match self.phase {
            Phase::BoatFront { .. }
            | Phase::MinecartFront { .. }
            | Phase::FlintFront
            | Phase::HiveFront
            | Phase::BottleFront
            | Phase::MudFront
            | Phase::WaxFront
            | Phase::AnchorFront
            | Phase::HeadFront { .. }
            | Phase::ShulkerFront { .. } => Some(Query::Cell { position: target }),
            Phase::BoatBelow { .. } | Phase::MinecartBelow { .. } | Phase::ShulkerBelow { .. } => {
                Some(Query::Cell { position: target.down() })
            },
            Phase::BoatRoom { entity_type, position } => Some(
                Query::Room { position, entity_type },
            ),
            Phase::StandRoom { entity_type } => Some(
                Query::Room { position: target, entity_type },
            ),
            Phase::EggUuid { .. } => Some(Query::FreshUuid),
            Phase::Scooping => Some(Query::PickUp { position: target, facing: self.ctx.facing }),
            Phase::Boiling => Some(Query::Evaporates { item: self.item.item }),
            Phase::Emptying => Some(
                Query::EmptyOut {
                    item: self.item.item,
                    position: self.ctx.position,
                    facing: self.ctx.facing,
                },
            ),
            Phase::Igniting => Some(Query::Ignite { position: target, notify: Notify::All }),
            Phase::Wearing => Some(Query::Damage { stack: self.item, amount: 1 }),
            Phase::Flock => Some(Query::Animals { position: target }),
            Phase::WoolRoll { .. } => Some(Query::Roll { low: LEAST_WOOL, high: MOST_WOOL }),
            Phase::Waxing { block, state } => Some(Query::WaxedState { block, state }),
            Phase::HeadPattern { summon } => Some(Query::Pattern { summon, position: target }),
            Phase::Fitting { .. } => Some(Query::Equippable { stack: self.item }),
            Phase::Wearers { .. } => {
                let tag = match &self.allowed {
                    Some(EntitySet::Tag(tag)) => Some(*tag),
                    _ => None,
                };
                Some(Query::Wearers { position: target, tag })
            },
            Phase::Dressing { slot, entity, .. } => Some(Query::NothingWorn { entity, slot }),
            Phase::Stowing { index, .. } => Some(Query::Slot { index }),
            Phase::Finished => None,
        }
    }

    /// The move that the sight of a block leads to.
    fn see(&self, reg: &Registry, cell: &Cell) -> (turn: Option<Turn>)
        ensures
            turn is Some <==> on_cell(reg, self@, *cell) is Some,
            turn is Some ==> turn->0@ == on_cell(reg, self@, *cell)->0,
    {
        let ctx = &self.ctx;
        let item = self.item;
        match self.phase {
            Phase::BoatFront { entity_type } => Some(
                DispenserBlock::dispense_boat(&reg.fluids, ctx, item, entity_type, cell),
            ),
            Phase::BoatBelow { entity_type } => Some(
                DispenserBlock::dispense_boat_below(&reg.fluids, ctx, item, entity_type, cell),
            ),
            Phase::MinecartFront { entity_type } => Some(
                DispenserBlock::dispense_minecart(item, entity_type, cell),
            ),
            Phase::MinecartBelow { entity_type } => Some(
                DispenserBlock::dispense_minecart_below(ctx, item, entity_type, cell),
            ),
            Phase::FlintFront => Some(
                DispenserBlock::dispense_flint_and_steel(reg.blocks.tnt, ctx, item, cell),
            ),
            Phase::HiveFront => Some(DispenserBlock::shear_beehive(&reg.items, ctx, item, cell)),
            Phase::BottleFront => Some(
                DispenserBlock::dispense_glass_bottle(reg, ctx, self.slot, item, cell),
            ),
            Phase::MudFront => Some(DispenserBlock::dispense_water_bottle(reg, ctx, item, cell)),
            Phase::WaxFront => Some(
                Turn::asks(item, Phase::Waxing { block: cell.block, state: cell.state }),
            ),
            Phase::AnchorFront => Some(
                DispenserBlock::dispense_glowstone(reg.blocks.respawn_anchor, ctx, item, cell),
            ),
            Phase::HeadFront { summon } => Some(
                DispenserBlock::dispense_mob_head(item, summon, cell),
            ),
            Phase::ShulkerFront { block } => Some(
                DispenserBlock::dispense_shulker_box(item, block, cell),
            ),
            Phase::ShulkerBelow { block } => Some(
                DispenserBlock::place_shulker_box(ctx, item, block, cell),
            ),
            _ => None,
        }
    }

    /// The move that a yes or no leads to.
    fn hear(&self, reg: &Registry, flag: bool) -> (turn: Option<Turn>)
        ensures
            turn is Some <==> on_flag(reg, self@, flag) is Some,
            turn is Some ==> turn->0@ == on_flag(reg, self@, flag)->0,
    {
        match self.phase {
            Phase::Boiling => Some(
                DispenserBlock::dispense_filled_bucket(
                    reg.items.bucket,
                    &self.ctx,
                    self.item,
                    flag,
                ),
            ),
            Phase::Emptying => Some(DispenserBlock::pour_out(reg.items.bucket, self.item, flag)),
            Phase::Igniting => Some(DispenserBlock::wear_down(self.item, flag)),
            Phase::HeadPattern { summon } => Some(
                DispenserBlock::summon_mob(&reg.blocks, &self.ctx, self.item, summon, flag),
            ),
            Phase::Dressing { fallback, slot, sound, entity } => Some(
                if flag {
                    DispenserBlock::dress(self.item, slot, sound, entity)
                } else if entity < self.crowd.len() {
                    DispenserBlock::choose_wearer(
                        self.item,
                        fallback,
                        slot,
                        sound,
                        &self.allowed,
                        &self.crowd,
                        entity + 1,
                    )
                } else {
                    Turn::gives_up(self.item, fallback)
                },
            ),
            _ => None,
        }
    }

    /// Takes an answer to the pending question and returns what the host has to do.
    /// An answer that does not fit the question changes nothing.
    pub fn advance(&mut self, reg: &Registry, reply: Reply) -> (effects: Vec<Effect>)
        ensures
            (final(self)@, effects@) == answered(reg, old(self)@, reply@),
    {
        let turn = match (self.phase, reply) {
            (_, Reply::Cell(cell)) => self.see(reg, &cell),
            (_, Reply::Flag(flag)) => self.hear(reg, flag),
            (Phase::BoatRoom { entity_type, position }, Reply::Room { space_empty, obstacles }) => {
                Some(
                    DispenserBlock::launch_boat(
                        self.item,
                        entity_type,
                        position,
                        space_empty,
                        obstacles,
                    ),
                )
            },
            (Phase::StandRoom { .. }, Reply::Room { space_empty, obstacles }) => Some(
                DispenserBlock::dispense_armor_stand(&self.ctx, self.item, space_empty, obstacles),
            ),
            (Phase::EggUuid { entity_type }, Reply::Uuid(uuid)) => Some(
                DispenserBlock::dispense_spawn_egg(&self.ctx, self.item, entity_type, uuid),
            ),
            (Phase::Scooping, Reply::Item(filled)) => Some(
                DispenserBlock::dispense_empty_bucket(
                    reg.items.air,
                    self.slot,
                    self.item,
                    filled,
                ),
            ),
            (Phase::Wearing, Reply::Stack(worn)) => Some(Turn::succeeds(worn, Vec::new())),
            (Phase::Flock, Reply::Animals(animals)) => Some(
                DispenserBlock::shear_entity_in_front(self.item, &animals),
            ),
            (Phase::WoolRoll { entity, color }, Reply::Count(count)) => Some(
                DispenserBlock::drop_wool(&reg.wool, self.item, entity, color, count),
            ),
            (Phase::Waxing { .. }, Reply::State(waxed)) => Some(
                DispenserBlock::dispense_honeycomb(&self.ctx, self.item, waxed),
            ),
            (Phase::Fitting { fallback }, Reply::Equippable(worn)) => {
                let turn = DispenserBlock::dispense_equipment(self.item, fallback, &worn);
                self.allowed = match worn {
                    Some(equippable) => equippable.allowed_entities,
                    None => None,
                };
                Some(turn)
            },
            (Phase::Wearers { fallback, slot, sound }, Reply::Wearers { entities, players }) => {
                let mut crowd = entities;
                let mut players = players;
                crowd.append(&mut players);
                let turn = DispenserBlock::choose_wearer(
                    self.item,
                    fallback,
                    slot,
                    sound,
                    &self.allowed,
                    &crowd,
                    0,
                );
                self.crowd = crowd;
                Some(turn)
            },
            (Phase::Stowing { remainder, index }, Reply::Slot(contents)) => Some(
                DispenserBlock::stow_remainder(
                    reg.items.air,
                    self.slot,
                    self.item,
                    remainder,
                    index,
                    contents,
                ),
            ),
            _ => None,
        };
        match turn {
            Some(turn) => self.settle(turn),
            None => Vec::new(),
        }
    }
}

} // verus!
