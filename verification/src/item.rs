//! Item stacks, as far as a dispenser looks into them.

use crate::registry::Registry;
use vstd::prelude::*;

verus! {

/// What a potion holds. `custom` names its custom color, effects and name in the
/// host's store; 0 stands for none.
#[derive(Clone, Copy, Debug, PartialEq, Eq, Structural)]
pub struct PotionContents {
    pub potion_id: Option<i32>,
    pub custom: u64,
}

/// A stack of items. `components` names the remaining data components of the
/// stack in the host's store, where equal components have equal names; 0 stands
/// for none beyond those that every item of the kind has.
#[derive(Clone, Copy, Debug, PartialEq, Eq, Structural)]
pub struct ItemStack {
    pub item: u16,
    pub item_count: u8,
    pub potion_contents: Option<PotionContents>,
    pub components: u64,
}

/// `count` items of the kind `item` without data of their own.
pub open spec fn plain_stack(count: u8, item: u16) -> ItemStack {
    ItemStack { item, item_count: count, potion_contents: None, components: 0 }
}

/// The stack with another count.
pub open spec fn with_count(stack: ItemStack, count: int) -> ItemStack {
    ItemStack { item_count: count as u8, ..stack }
}

/// How many of `amount` items a stack can give.
pub open spec fn giving(stack: ItemStack, amount: u8) -> int {
    if amount <= stack.item_count {
        amount as int
    } else {
        stack.item_count as int
    }
}

/// The items that are taken off a stack.
pub open spec fn taken_off(stack: ItemStack, amount: u8) -> ItemStack {
    with_count(stack, giving(stack, amount))
}

/// The stack after items were taken off it.
pub open spec fn left_of(stack: ItemStack, amount: u8) -> ItemStack {
    with_count(stack, stack.item_count - giving(stack, amount))
}

/// The stack after items were added to it, up to the most a count can hold.
pub open spec fn grown_by(stack: ItemStack, amount: u8) -> ItemStack {
    with_count(
        stack,
        if stack.item_count + amount <= u8::MAX {
            stack.item_count + amount
        } else {
            u8::MAX as int
        },
    )
}

/// The stack after one item was taken off. Nothing can be taken off no items.
pub open spec fn one_less(stack: ItemStack) -> ItemStack {
    with_count(
        stack,
        if stack.item_count == 0 {
            0
        } else {
            stack.item_count - 1
        },
    )
}

/// The single item that is taken off a stack.
pub open spec fn one_of(stack: ItemStack) -> ItemStack {
    with_count(
        stack,
        if stack.item_count == 0 {
            0
        } else {
            1
        },
    )
}

/// The stack with one more item, up to the most a count can hold.
pub open spec fn one_more(stack: ItemStack) -> ItemStack {
    with_count(
        stack,
        if stack.item_count == u8::MAX {
            u8::MAX as int
        } else {
            stack.item_count + 1
        },
    )
}

/// No items, or air.
pub open spec fn is_empty_stack(air: u16, stack: ItemStack) -> bool {
    stack.item_count == 0 || stack.item == air
}

/// Two stacks of the same item with the same data, whatever their counts.
pub open spec fn same_kind(one: ItemStack, other: ItemStack) -> bool {
    with_count(one, 0) == with_count(other, 0)
}

/// A glass bottle filled with plain water.
pub open spec fn water_bottle_of(potion: u16, water_potion: u8) -> ItemStack {
    ItemStack {
        item: potion,
        item_count: 1,
        potion_contents: Some(PotionContents { potion_id: Some(water_potion as i32), custom: 0 }),
        components: 0,
    }
}

/// A potion whose contents are plain water.
pub open spec fn holds_water(potion: u16, water_potion: u8, stack: ItemStack) -> bool {
    &&& stack.item == potion
    &&& stack.potion_contents is Some
    &&& stack.potion_contents->0.potion_id == Some(water_potion as i32)
}

impl ItemStack {
    /// A stack of `count` items of the kind `item`.
    pub fn new(count: u8, item: u16) -> (stack: ItemStack)
        ensures
            stack == plain_stack(count, item),
    {
        ItemStack { item, item_count: count, potion_contents: None, components: 0 }
    }

    /// Tells whether there is nothing in the stack.
    pub fn is_empty(&self, air: u16) -> (empty: bool)
        ensures
            empty == is_empty_stack(air, *self),
    {
        self.item_count == 0 || self.item == air
    }

    /// Takes up to `amount` items off the stack and returns them.
    pub fn split(&mut self, amount: u8) -> (taken: ItemStack)
        ensures
            taken == taken_off(*old(self), amount),
            *final(self) == left_of(*old(self), amount),
    {
        let taken: u8 = if amount <= self.item_count {
            amount
        } else {
            self.item_count
        };
        let mut stack = *self;
        stack.item_count = taken;
        self.decrement(taken);
        stack
    }

    /// Takes `amount` items off the stack, or all there are.
    pub fn decrement(&mut self, amount: u8)
        ensures
            *final(self) == left_of(*old(self), amount),
    {
        self.item_count = self.item_count.saturating_sub(amount);
    }

    /// Adds `amount` items to the stack, as far as the count can hold them.
    pub fn increment(&mut self, amount: u8)
        ensures
            *final(self) == grown_by(*old(self), amount),
    {
        self.item_count = self.item_count.saturating_add(amount);
    }

    /// Tells whether two stacks hold the same item with the same data.
    pub fn are_items_and_components_equal(&self, other: &ItemStack) -> (equal: bool)
        ensures
            equal == same_kind(*self, *other),
    {
        self.item == other.item && self.potion_contents == other.potion_contents
            && self.components == other.components
    }
}

/// A bottle of plain water.
pub fn water_bottle(reg: &Registry) -> (stack: ItemStack)
    ensures
        stack == water_bottle_of(reg.items.potion, reg.water_potion),
{
    ItemStack {
        item: reg.items.potion,
        item_count: 1,
        potion_contents: Some(
            PotionContents { potion_id: Some(reg.water_potion as i32), custom: 0 },
        ),
        components: 0,
    }
}

/// Tells whether a stack is a potion whose contents are plain water.
pub fn is_water_bottle(reg: &Registry, stack: &ItemStack) -> (water: bool)
    ensures
        water == holds_water(reg.items.potion, reg.water_potion, *stack),
{
    stack.item == reg.items.potion && match stack.potion_contents {
        Some(contents) => contents.potion_id == Some(reg.water_potion as i32),
        None => false,
    }
}

/// A water bottle is a bottle of water.
pub proof fn water_bottle_holds_water(potion: u16, water_potion: u8)
    ensures
        holds_water(potion, water_potion, water_bottle_of(potion, water_potion)),
{
}

/// Taking one item off a stack neither makes nor loses an item.
pub proof fn taking_one_conserves(stack: ItemStack)
    ensures
        one_less(stack).item_count + one_of(stack).item_count == stack.item_count,
        same_kind(one_less(stack), stack),
        same_kind(one_of(stack), stack),
        stack.item_count > 0 ==> one_of(stack).item_count == 1,
{
}

/// Two stacks have the same data, field by field.
pub open spec fn alike(one: ItemStack, other: ItemStack) -> bool {
    &&& one.item == other.item
    &&& one.potion_contents == other.potion_contents
    &&& one.components == other.components
}

/// Taking items off a stack parts it in two that keep its data. As many as asked for
/// come off, or all; together they are as many as before.
pub proof fn splitting_parts_the_stack(stack: ItemStack, amount: u8)
    ensures
        alike(taken_off(stack, amount), stack),
        alike(left_of(stack, amount), stack),
        taken_off(stack, amount).item_count + left_of(stack, amount).item_count
            == stack.item_count,
        taken_off(stack, amount).item_count <= amount,
        taken_off(stack, amount).item_count < amount ==> left_of(stack, amount).item_count == 0,
{
}

/// Adding items to a stack keeps its data and counts them, as far as a count goes.
pub proof fn growing_keeps_the_data(stack: ItemStack, amount: u8)
    ensures
        alike(grown_by(stack, amount), stack),
        stack.item_count + amount <= 255 ==> grown_by(stack, amount).item_count
            == stack.item_count + amount,
        stack.item_count + amount > 255 ==> grown_by(stack, amount).item_count == 255,
{
}

/// One item more or less, and one item alone, are the same item with the same data.
pub proof fn single_items_keep_the_data(stack: ItemStack, count: int)
    ensures
        alike(one_less(stack), stack),
        alike(one_of(stack), stack),
        alike(one_more(stack), stack),
        stack.item_count > 0 ==> one_less(stack).item_count == stack.item_count - 1,
        stack.item_count > 0 ==> one_of(stack).item_count == 1,
        stack.item_count < 255 ==> one_more(stack).item_count == stack.item_count + 1,
        stack.item_count == 0 ==> one_less(stack) == stack && one_of(stack) == stack,
        alike(with_count(stack, count), stack),
        0 <= count <= 255 ==> with_count(stack, count).item_count == count,
{
}

/// Stacks are of one kind exactly if their data is the same; counts do not matter. A
/// stack is empty if it counts nothing or is air.
pub proof fn kinds_are_told_by_the_data(air: u16, one: ItemStack, other: ItemStack)
    ensures
        same_kind(one, other) <==> alike(one, other),
        is_empty_stack(air, one) <==> one.item_count == 0 || one.item == air,
{
}

/// New items have no data of their own; a bottle of water has that of plain water, and
/// a stack holds water exactly if it is a potion of that.
pub proof fn new_items_are_plain(
    count: u8,
    id: u16,
    potion: u16,
    water_potion: u8,
    stack: ItemStack,
)
    ensures
        ({
            let plain = plain_stack(count, id);
            let water = water_bottle_of(potion, water_potion);
            &&& plain.item == id && plain.item_count == count
            &&& plain.potion_contents is None && plain.components == 0
            &&& water.item == potion && water.item_count == 1 && water.components == 0
            &&& water.potion_contents is Some
            &&& water.potion_contents->0.potion_id == Some(water_potion as i32)
            &&& water.potion_contents->0.custom == 0
            &&& holds_water(potion, water_potion, stack) <==> stack.item == potion
                && stack.potion_contents is Some && stack.potion_contents->0.potion_id == Some(
                water_potion as i32,
            )
        }),
{
}

} // verus!
