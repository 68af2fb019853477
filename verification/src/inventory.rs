//! Where a filled container goes: into the hand, into another slot, or out.

use crate::dispenser::DispenserBlock;
use crate::item;
use crate::item::ItemStack;
use crate::protocol::{Effect, SlotContents};
use crate::search;
use crate::turn;
use crate::turn::{Phase, Turn};
use vstd::prelude::*;

verus! {

/// The ticks before a stack that was thrown out can be picked up.
pub const PICKUP_DELAY: u8 = 40;

/// A slot that one more of `remainder` can go to: an empty one, or one that holds
/// the same and is not full.
pub open spec fn takes(air: u16, remainder: ItemStack, contents: SlotContents) -> bool {
    ||| item::is_empty_stack(air, contents.stack)
    ||| item::same_kind(contents.stack, remainder) && contents.stack.item_count
        < contents.max_stack_size
}

/// The slots other than `slot` that `remainder` can go to.
pub open spec fn open_slots(
    air: u16,
    slot: int,
    remainder: ItemStack,
    slots: Seq<SlotContents>,
) -> spec_fn(int) -> bool {
    |i: int| i != slot && takes(air, remainder, slots[i])
}

/// What is in a slot after `remainder` went there.
pub open spec fn joined(air: u16, remainder: ItemStack, contents: SlotContents) -> ItemStack {
    if item::is_empty_stack(air, contents.stack) {
        remainder
    } else {
        item::one_more(contents.stack)
    }
}

/// The stack is thrown out of the dispenser.
pub open spec fn throwing(stack: ItemStack) -> Effect {
    Effect::DropStack { stack, pickup_delay: PICKUP_DELAY }
}

/// The first slot from number `from` on that is not `slot`.
pub open spec fn next_slot(slot: int, from: int) -> int {
    if from == slot {
        from + 1
    } else {
        from
    }
}

/// One item of the stack is used up for `remainder`. If that was the last one,
/// the remainder takes its place; otherwise a slot is looked for.
pub open spec fn exchanging(
    air: u16,
    slot: int,
    stack: ItemStack,
    effects: Seq<Effect>,
    remainder: ItemStack,
) -> turn::TurnView {
    let rest = item::one_less(stack);
    if item::is_empty_stack(air, rest) {
        turn::succeeds(remainder, effects)
    } else {
        turn::acts_and_asks(
            rest,
            effects,
            Phase::Stowing { remainder, index: next_slot(slot, 0) as usize },
        )
    }
}

/// The next slot from number `from` on is looked at. Past the last number there
/// is none, and the remainder is thrown out.
pub open spec fn seeking(
    slot: int,
    stack: ItemStack,
    remainder: ItemStack,
    from: int,
) -> turn::TurnView {
    if next_slot(slot, from) <= usize::MAX {
        turn::asks(stack, Phase::Stowing { remainder, index: next_slot(slot, from) as usize })
    } else {
        turn::succeeds(stack, seq![throwing(remainder)])
    }
}

/// The remainder goes to the slot if it takes it; otherwise the next one is looked
/// at. When there is no such slot, the remainder is thrown out.
pub open spec fn trying_slot(
    air: u16,
    slot: int,
    stack: ItemStack,
    remainder: ItemStack,
    index: usize,
    contents: Option<SlotContents>,
) -> turn::TurnView {
    match contents {
        Some(other) => if takes(air, remainder, other) {
            turn::succeeds(
                stack,
                seq![Effect::SetSlot { index, stack: joined(air, remainder, other) }],
            )
        } else {
            seeking(slot, stack, remainder, index + 1)
        },
        None => turn::succeeds(stack, seq![throwing(remainder)]),
    }
}

/// The remainder goes to the first other slot that can take it, or else out.
pub open spec fn stowing(
    air: u16,
    slot: int,
    remainder: ItemStack,
    slots: Seq<SlotContents>,
) -> Effect {
    match search::first_index(slots.len() as int, open_slots(air, slot, remainder, slots)) {
        Some(i) => Effect::SetSlot { index: i as usize, stack: joined(air, remainder, slots[i]) },
        None => throwing(remainder),
    }
}

/// The effect that throws a stack out of the dispenser.
pub fn throw_out(stack: ItemStack) -> (effect: Effect)
    ensures
        effect == throwing(stack),
{
    Effect::DropStack { stack, pickup_delay: PICKUP_DELAY }
}

impl DispenserBlock {
    /// Uses up one item of the stack in `slot` for `remainder`, after `effects`.
    pub fn consume_with_remainder(
        air: u16,
        slot: usize,
        stack: ItemStack,
        effects: Vec<Effect>,
        remainder: ItemStack,
    ) -> (turn: Turn)
        ensures
            turn@ == exchanging(air, slot as int, stack, effects@, remainder),
    {
        let mut rest = stack;
        rest.decrement(1);
        if rest.is_empty(air) {
            Turn::succeeds(remainder, effects)
        } else {
            let index: usize = if slot == 0 {
                1
            } else {
                0
            };
            Turn::acts_and_asks(rest, effects, Phase::Stowing { remainder, index })
        }
    }

    /// Puts the remainder into the slot with number `index` if it takes it, goes on
    /// to the next one other than `slot` if not, and throws it out if there is none.
    pub fn stow_remainder(
        air: u16,
        slot: usize,
        stack: ItemStack,
        remainder: ItemStack,
        index: usize,
        contents: Option<SlotContents>,
    ) -> (turn: Turn)
        ensures
            turn@ == trying_slot(air, slot as int, stack, remainder, index, contents),
    {
        let other = match contents {
            Some(other) => other,
            None => {
                return Turn::succeeds(stack, vec![throw_out(remainder)]);
            },
        };
        if other.stack.is_empty(air) {
            return Turn::succeeds(stack, vec![Effect::SetSlot { index, stack: remainder }]);
        }
        if other.stack.are_items_and_components_equal(&remainder) && other.stack.item_count
            < other.max_stack_size {
            let mut grown = other.stack;
            grown.increment(1);
            return Turn::succeeds(stack, vec![Effect::SetSlot { index, stack: grown }]);
        }
        let next = match index.checked_add(1) {
            Some(next) => if next == slot {
                next.checked_add(1)
            } else {
                Some(next)
            },
            None => None,
        };
        match next {
            Some(index) => Turn::asks(stack, Phase::Stowing { remainder, index }),
            None => Turn::succeeds(stack, vec![throw_out(remainder)]),
        }
    }
}

/// How many items are in a stack, if any.
pub open spec fn held(air: u16, stack: ItemStack) -> int {
    if item::is_empty_stack(air, stack) {
        0
    } else {
        stack.item_count as int
    }
}

/// How many items are in all slots together.
pub open spec fn total(air: u16, slots: Seq<SlotContents>) -> int
    decreases slots.len(),
{
    if slots.len() == 0 {
        0
    } else {
        total(air, slots.drop_last()) + held(air, slots.last().stack)
    }
}

/// The slots after the effects that concern them.
pub open spec fn slots_after(slots: Seq<SlotContents>, effects: Seq<Effect>) -> Seq<SlotContents>
    decreases effects.len(),
{
    if effects.len() == 0 {
        slots
    } else {
        let before = slots_after(slots, effects.drop_last());
        match effects.last() {
            Effect::SetSlot { index, stack } => before.update(
                index as int,
                SlotContents { stack, ..before[index as int] },
            ),
            _ => before,
        }
    }
}

/// How many items the effects throw out of the dispenser.
pub open spec fn thrown_out(air: u16, effects: Seq<Effect>) -> int
    decreases effects.len(),
{
    if effects.len() == 0 {
        0
    } else {
        thrown_out(air, effects.drop_last()) + match effects.last() {
            Effect::DropStack { stack, .. } => held(air, stack),
            _ => 0,
        }
    }
}

/// Changing one slot changes the total by the difference.
pub proof fn total_of_update(air: u16, slots: Seq<SlotContents>, i: int, contents: SlotContents)
    requires
        0 <= i < slots.len(),
    ensures
        total(air, slots.update(i, contents)) == total(air, slots) - held(air, slots[i].stack)
            + held(air, contents.stack),
    decreases slots.len(),
{
    let updated = slots.update(i, contents);
    if i == slots.len() - 1 {
        assert(updated.drop_last() =~= slots.drop_last());
    } else {
        assert(updated.drop_last() =~= slots.drop_last().update(i, contents));
        total_of_update(air, slots.drop_last(), i, contents);
    }
}

/// Stowing a single container loses nothing and makes nothing: it ends up in one
/// of the other slots or outside. The slot that is being dispensed from and every
/// slot but one are left alone, and no slot is filled past its limit.
pub proof fn stowing_conserves(
    air: u16,
    slot: int,
    remainder: ItemStack,
    slots: Seq<SlotContents>,
)
    requires
        remainder.item_count == 1,
        remainder.item != air,
        slots.len() <= usize::MAX,
    ensures
        ({
            let effects = seq![stowing(air, slot, remainder, slots)];
            let after = slots_after(slots, effects);
            &&& after.len() == slots.len()
            &&& total(air, after) + thrown_out(air, effects) == total(air, slots) + 1
            &&& 0 <= slot < slots.len() ==> after[slot] == slots[slot]
            &&& forall|i: int, j: int|
                #![trigger after[i], after[j]]
                0 <= i < slots.len() && 0 <= j < slots.len() && after[i] != slots[i] && after[j]
                    != slots[j] ==> i == j
            &&& forall|i: int|
                0 <= i < slots.len() && 1 <= slots[i].max_stack_size
                    && slots[i].stack.item_count <= slots[i].max_stack_size
                    ==> (#[trigger] after[i]).stack.item_count <= after[i].max_stack_size
            &&& thrown_out(air, effects) == (if exists|i: int|
                0 <= i < slots.len() && i != slot && takes(air, remainder, #[trigger] slots[i]) {
                0int
            } else {
                1int
            })
        }),
{
    let wanted = open_slots(air, slot, remainder, slots);
    let effects = seq![stowing(air, slot, remainder, slots)];
    search::first_index_none(slots.len() as int, wanted);
    assert(effects.drop_last() =~= seq![]);
    reveal_with_fuel(slots_after, 2);
    reveal_with_fuel(thrown_out, 2);
    match search::first_index(slots.len() as int, wanted) {
        Some(i) => {
            assert(search::is_first(slots.len() as int, wanted, i));
            assert(takes(air, remainder, slots[i]));
            let contents = SlotContents { stack: joined(air, remainder, slots[i]), ..slots[i] };
            total_of_update(air, slots, i, contents);
            assert(slots_after(slots, effects) =~= slots.update(i, contents));
        },
        None => {
            assert forall|i: int| 0 <= i < slots.len() && i != slot implies !takes(
                air,
                remainder,
                #[trigger] slots[i],
            ) by {
                assert(!wanted(i));
            }
        },
    }
}

/// The effect neither fills a slot nor throws anything out.
pub open spec fn is_idle(effect: Effect) -> bool {
    !(effect is SetSlot) && !(effect is DropStack)
}

/// Idle effects leave the contents of the dispenser alone.
pub proof fn idle_effects_move_nothing(air: u16, slots: Seq<SlotContents>, effects: Seq<Effect>)
    requires
        forall|i: int| 0 <= i < effects.len() ==> is_idle(#[trigger] effects[i]),
    ensures
        slots_after(slots, effects) == slots,
        thrown_out(air, effects) == 0,
    decreases effects.len(),
{
    if effects.len() > 0 {
        assert(is_idle(effects.last()));
        assert forall|i: int| 0 <= i < effects.len() - 1 implies is_idle(
            #[trigger] effects.drop_last()[i],
        ) by {
            assert(is_idle(effects[i]));
        }
        idle_effects_move_nothing(air, slots, effects.drop_last());
    }
}

/// Effects that are carried out one after the other add up.
pub proof fn effects_add_up(
    air: u16,
    slots: Seq<SlotContents>,
    first: Seq<Effect>,
    second: Seq<Effect>,
)
    ensures
        slots_after(slots, first + second) == slots_after(slots_after(slots, first), second),
        thrown_out(air, first + second) == thrown_out(air, first) + thrown_out(air, second),
    decreases second.len(),
{
    if second.len() == 0 {
        assert(first + second =~= first);
    } else {
        assert((first + second).drop_last() =~= first + second.drop_last());
        effects_add_up(air, slots, first, second.drop_last());
    }
}

} // verus!
