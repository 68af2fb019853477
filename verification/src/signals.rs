//! What a dispenser promises to who places it, to the power around it and to the clock.

use crate::geometry;
use crate::geometry::{BlockPos, DispenseContext, Facing};
use crate::performance;
use crate::performance::Scene;
use crate::promises;
use crate::protocol::{
    DispenserProperties, Effect, Notify, Picked, Query, TickPriority, WorldEvent,
};
use crate::redstone;
use crate::registry::Registry;
use vstd::prelude::*;

verus! {

/// A dispenser that is set down looks back at the player: one step the way it faces and
/// one step the way the player looks lead back. It is otherwise as by default.
pub proof fn dispensers_look_at_who_places_them(
    default_properties: DispenserProperties,
    player_facing: Facing,
    position: BlockPos,
)
    ensures
        ({
            let placed = redstone::set_down(default_properties, player_facing);
            let ahead = promises::neighbor(position, placed.facing);
            &&& promises::neighbor(ahead, player_facing) == position
            &&& placed.facing != player_facing
            &&& placed.triggered == default_properties.triggered
        }),
{
}

/// A neighbor update after up to `n` more answers, with what was asked and done.
pub open spec fn watching(
    scene: Scene,
    s: redstone::NeighborUpdate,
    asked: Seq<Query>,
    effects: Seq<Effect>,
    n: nat,
) -> (redstone::NeighborUpdate, Seq<Query>, Seq<Effect>)
    decreases n,
{
    match redstone::watch_question(s) {
        Some(query) if n > 0 => {
            let after = redstone::watch_answered(s, scene.answer(query));
            watching(scene, after.0, asked.push(query), effects + after.1, (n - 1) as nat)
        },
        _ => (s, asked, effects),
    }
}

/// A dispenser with power, or with power at the block on top of it, that was not
/// triggered becomes triggered and is ticked four ticks later; one without power that
/// was triggered no longer is. It keeps its facing, only those who listen to the block
/// hear of it, and nothing happens otherwise. The power on top is asked for only if
/// there is none at the dispenser.
pub proof fn dispensers_follow_the_power(
    block: u16,
    position: BlockPos,
    scene: Scene,
    n: nat,
)
    requires
        n >= 3,
    ensures
        ({
            let begun = redstone::NeighborUpdate {
                block,
                position,
                phase: redstone::WatchPhase::PowerHere,
            };
            let ended = watching(scene, begun, seq![], seq![], n);
            let top = promises::neighbor(position, Facing::Up);
            let here = (scene.powered)(position);
            let powered = here || (scene.powered)(top);
            let before = (scene.properties)(block, position);
            let after = Effect::SetProperties {
                block,
                position,
                properties: DispenserProperties { facing: before.facing, triggered: powered },
                notify: Notify::Listeners,
            };
            &&& redstone::watch_question(ended.0) is None
            &&& here ==> ended.1 == seq![
                Query::Power { position },
                Query::Properties { block, position },
            ]
            &&& !here ==> ended.1 == seq![
                Query::Power { position },
                Query::Power { position: top },
                Query::Properties { block, position },
            ]
            &&& powered && !before.triggered ==> ended.2 == seq![
                Effect::ScheduleTick {
                    block,
                    position,
                    delay: 4,
                    priority: TickPriority::Normal,
                },
                after,
            ]
            &&& !powered && before.triggered ==> ended.2 == seq![after]
            &&& powered == before.triggered ==> ended.2 == Seq::<Effect>::empty()
        }),
{
    let begun = redstone::NeighborUpdate {
        block,
        position,
        phase: redstone::WatchPhase::PowerHere,
    };
    let ended = watching(scene, begun, seq![], seq![], n);
    reveal_with_fuel(watching, 4);
    let here = (scene.powered)(position);
    let powered = here || (scene.powered)(promises::neighbor(position, Facing::Up));
    assert(geometry::above(position) == promises::neighbor(position, Facing::Up));
    assert(ended.2 =~= redstone::following(
        block,
        position,
        powered,
        (scene.properties)(block, position),
    ));
    if here {
        assert(ended.1 =~= seq![Query::Power { position }, Query::Properties { block, position }]);
    } else {
        assert(ended.1 =~= seq![
            Query::Power { position },
            Query::Power { position: promises::neighbor(position, Facing::Up) },
            Query::Properties { block, position },
        ]);
    }
}

/// A tick where there is no dispenser does nothing; an empty dispenser sounds like a
/// failure; otherwise the picked slot is dispensed from, the way the block faces.
pub proof fn ticks_dispense_the_picked_slot(
    reg: &Registry,
    block: u16,
    position: BlockPos,
    scene: Scene,
    n: nat,
)
    requires
        scene.fits(),
        ({
            let facing = (scene.properties)(block, position).facing;
            let ctx = DispenseContext { position, facing };
            match (scene.picked)(position) {
                Picked::Slot { item, .. } => n >= 2 + performance::enough(ctx, item, scene),
                _ => n >= 1,
            }
        }),
    ensures
        ({
            let facing = (scene.properties)(block, position).facing;
            let ctx = DispenseContext { position, facing };
            let tick = redstone::ScheduledTickView {
                block,
                position,
                phase: redstone::TickPhaseView::Picking,
            };
            let ended = performance::tick_conversation(reg, scene, tick, seq![], n);
            &&& redstone::tick_question(ended.0) is None
            &&& match (scene.picked)(position) {
                Picked::NoDispenser => ended.1 == Seq::<Effect>::empty(),
                Picked::Nothing => ended.1 == seq![
                    Effect::SyncWorldEvent {
                        event: WorldEvent::SoundDispenserFail,
                        position,
                        data: 0,
                    },
                ],
                Picked::Slot { slot, item } => {
                    let all = promises::run(reg, ctx, slot, item, scene);
                    &&& ended.1 == all.1
                    &&& ended.0.phase is Working
                    &&& ended.0.phase->Working_0.slot == slot
                    &&& ended.0.phase->Working_0.item == all.0.item
                },
            }
        }),
{
    let facing = (scene.properties)(block, position).facing;
    let ctx = DispenseContext { position, facing };
    performance::tick_performs_the_deed(reg, block, position, scene, n);
    if let Picked::Slot { slot, item } = (scene.picked)(position) {
        promises::run_is_the_deed(reg, ctx, slot, item, scene);
    }
}

} // verus!
