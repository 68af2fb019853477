//! The numbers under which a game version knows its items, blocks and fluids.

use crate::search;
use vstd::prelude::*;

verus! {

/// The ids of the items a dispenser treats specially.
#[derive(Clone, Copy, Debug, PartialEq, Eq, Structural)]
pub struct ItemIds {
    pub air: u16,
    pub arrow: u16,
    pub tipped_arrow: u16,
    pub spectral_arrow: u16,
    pub egg: u16,
    pub blue_egg: u16,
    pub brown_egg: u16,
    pub snowball: u16,
    pub splash_potion: u16,
    pub lingering_potion: u16,
    pub firework_rocket: u16,
    pub fire_charge: u16,
    pub wind_charge: u16,
    pub armor_stand: u16,
    pub tnt: u16,
    pub bucket: u16,
    pub flint_and_steel: u16,
    pub shears: u16,
    pub glass_bottle: u16,
    pub potion: u16,
    pub honey_bottle: u16,
    pub honeycomb: u16,
    pub glowstone: u16,
    pub bone_meal: u16,
    pub wither_skeleton_skull: u16,
    pub carved_pumpkin: u16,
}

/// The ids of the sixteen wools.
#[derive(Clone, Copy, Debug, PartialEq, Eq, Structural)]
pub struct WoolIds {
    pub white: u16,
    pub orange: u16,
    pub magenta: u16,
    pub light_blue: u16,
    pub yellow: u16,
    pub lime: u16,
    pub pink: u16,
    pub gray: u16,
    pub light_gray: u16,
    pub cyan: u16,
    pub purple: u16,
    pub blue: u16,
    pub brown: u16,
    pub green: u16,
    pub red: u16,
    pub black: u16,
}

/// The ids of the blocks a dispenser looks for or sets.
#[derive(Clone, Copy, Debug, PartialEq, Eq, Structural)]
pub struct BlockIds {
    pub tnt: u16,
    pub respawn_anchor: u16,
    pub wither_skeleton_skull: u16,
    pub carved_pumpkin: u16,
    pub mud: u16,
}

/// The ids of the two states of water.
#[derive(Clone, Copy, Debug, PartialEq, Eq, Structural)]
pub struct FluidIds {
    pub water: u16,
    pub flowing_water: u16,
}

/// An item that can be set down as a block.
#[derive(Clone, Copy, Debug, PartialEq, Eq, Structural)]
pub struct BlockItem {
    pub item: u16,
    pub block: u16,
    pub shulker_box: bool,
}

/// Everything a dispenser has to know about a game version. In each table the
/// first entry for an id is the one that counts.
pub struct Registry {
    pub items: ItemIds,
    pub wool: WoolIds,
    pub blocks: BlockIds,
    pub fluids: FluidIds,
    /// The entity type of an armor stand.
    pub armor_stand_entity: u16,
    /// The potion in a bottle of plain water.
    pub water_potion: u8,
    /// Boat items and the entity types they set afloat.
    pub boats: Vec<(u16, u16)>,
    /// Minecart items and the entity types they put on rails.
    pub minecarts: Vec<(u16, u16)>,
    /// Spawn eggs and the entity types they hatch.
    pub spawn_eggs: Vec<(u16, u16)>,
    /// Buckets with something in them.
    pub filled_buckets: Vec<u16>,
    /// Items that can be set down as blocks.
    pub block_items: Vec<BlockItem>,
}

/// The entries of a table with the key `id`.
pub open spec fn keyed(table: Seq<(u16, u16)>, id: u16) -> spec_fn(int) -> bool {
    |i: int| table[i].0 == id
}

/// The value that a table gives the key `id`.
pub open spec fn entry_of(table: Seq<(u16, u16)>, id: u16) -> Option<u16> {
    match search::first_index(table.len() as int, keyed(table, id)) {
        Some(i) => Some(table[i].1),
        None => None,
    }
}

/// The block items of a table with the item id `id`.
pub open spec fn made_of(table: Seq<BlockItem>, id: u16) -> spec_fn(int) -> bool {
    |i: int| table[i].item == id
}

/// The block item that a table lists for the item `id`.
pub open spec fn block_item_of(table: Seq<BlockItem>, id: u16) -> Option<BlockItem> {
    match search::first_index(table.len() as int, made_of(table, id)) {
        Some(i) => Some(table[i]),
        None => None,
    }
}

/// The items that leave a dispenser as projectiles.
pub open spec fn is_projectile_id(items: ItemIds, id: u16) -> bool {
    ||| id == items.arrow
    ||| id == items.tipped_arrow
    ||| id == items.spectral_arrow
    ||| id == items.egg
    ||| id == items.blue_egg
    ||| id == items.brown_egg
    ||| id == items.snowball
    ||| id == items.splash_potion
    ||| id == items.lingering_potion
    ||| id == items.firework_rocket
    ||| id == items.fire_charge
    ||| id == items.wind_charge
}

/// Still or flowing water.
pub open spec fn is_water_id(fluids: FluidIds, fluid: u16) -> bool {
    fluid == fluids.water || fluid == fluids.flowing_water
}

/// The wool of a dye color. Numbers past the last dye count as white.
pub open spec fn wool_id(wool: WoolIds, color: u8) -> u16 {
    match color {
        1 => wool.orange,
        2 => wool.magenta,
        3 => wool.light_blue,
        4 => wool.yellow,
        5 => wool.lime,
        6 => wool.pink,
        7 => wool.gray,
        8 => wool.light_gray,
        9 => wool.cyan,
        10 => wool.purple,
        11 => wool.blue,
        12 => wool.brown,
        13 => wool.green,
        14 => wool.red,
        15 => wool.black,
        _ => wool.white,
    }
}

/// Looks up the value of the key `id`.
pub fn find_entry(table: &Vec<(u16, u16)>, id: u16) -> (value: Option<u16>)
    ensures
        value == entry_of(table@, id),
{
    let mut i: usize = 0;
    while i < table.len()
        invariant
            i <= table.len(),
            forall|j: int| 0 <= j < i ==> !#[trigger] keyed(table@, id)(j),
        decreases table.len() - i,
    {
        if table[i].0 == id {
            proof {
                search::first_index_at(table@.len() as int, keyed(table@, id), i as int);
            }
            return Some(table[i].1);
        }
        i += 1;
    }
    proof {
        search::first_index_none(table@.len() as int, keyed(table@, id));
    }
    None
}

/// Looks up the block that the item `id` can be set down as.
pub fn find_block_item(table: &Vec<BlockItem>, id: u16) -> (found: Option<BlockItem>)
    ensures
        found == block_item_of(table@, id),
{
    let mut i: usize = 0;
    while i < table.len()
        invariant
            i <= table.len(),
            forall|j: int| 0 <= j < i ==> !#[trigger] made_of(table@, id)(j),
        decreases table.len() - i,
    {
        if table[i].item == id {
            proof {
                search::first_index_at(table@.len() as int, made_of(table@, id), i as int);
            }
            return Some(table[i]);
        }
        i += 1;
    }
    proof {
        search::first_index_none(table@.len() as int, made_of(table@, id));
    }
    None
}

/// Tells whether a list of ids holds `id`.
pub fn lists_id(ids: &Vec<u16>, id: u16) -> (listed: bool)
    ensures
        listed == ids@.contains(id),
{
    let mut i: usize = 0;
    while i < ids.len()
        invariant
            i <= ids.len(),
            forall|j: int| 0 <= j < i ==> ids@[j] != id,
        decreases ids.len() - i,
    {
        if ids[i] == id {
            return true;
        }
        i += 1;
    }
    false
}

impl ItemIds {
    /// Tells whether an item leaves a dispenser as a projectile.
    pub fn is_projectile(&self, id: u16) -> (projectile: bool)
        ensures
            projectile == is_projectile_id(*self, id),
    {
        id == self.arrow || id == self.tipped_arrow || id == self.spectral_arrow || id == self.egg
            || id == self.blue_egg || id == self.brown_egg || id == self.snowball || id
            == self.splash_potion || id == self.lingering_potion || id == self.firework_rocket
            || id == self.fire_charge || id == self.wind_charge
    }
}

/// Tells whether a fluid is still or flowing water.
pub fn is_water(fluids: &FluidIds, fluid: u16) -> (water: bool)
    ensures
        water == is_water_id(*fluids, fluid),
{
    fluid == fluids.water || fluid == fluids.flowing_water
}

/// The wool that a sheep of the given color is sheared for.
pub fn wool_of_color(wool: &WoolIds, color: u8) -> (id: u16)
    ensures
        id == wool_id(*wool, color),
{
    match color {
        1 => wool.orange,
        2 => wool.magenta,
        3 => wool.light_blue,
        4 => wool.yellow,
        5 => wool.lime,
        6 => wool.pink,
        7 => wool.gray,
        8 => wool.light_gray,
        9 => wool.cyan,
        10 => wool.purple,
        11 => wool.blue,
        12 => wool.brown,
        13 => wool.green,
        14 => wool.red,
        15 => wool.black,
        _ => wool.white,
    }
}

impl ItemIds {
    /// All ids in the list.
    pub open spec fn ids(self) -> Seq<u16> {
        seq![
            self.air,
            self.arrow,
            self.tipped_arrow,
            self.spectral_arrow,
            self.egg,
            self.blue_egg,
            self.brown_egg,
            self.snowball,
            self.splash_potion,
            self.lingering_potion,
            self.firework_rocket,
            self.fire_charge,
            self.wind_charge,
            self.armor_stand,
            self.tnt,
            self.bucket,
            self.flint_and_steel,
            self.shears,
            self.glass_bottle,
            self.potion,
            self.honey_bottle,
            self.honeycomb,
            self.glowstone,
            self.bone_meal,
            self.wither_skeleton_skull,
            self.carved_pumpkin,
        ]
    }

    /// No two items share an id.
    pub open spec fn distinct(self) -> bool {
        self.ids().no_duplicates()
    }
}

impl WoolIds {
    /// The sixteen ids, by color.
    pub open spec fn ids(self) -> Seq<u16> {
        seq![
            self.white,
            self.orange,
            self.magenta,
            self.light_blue,
            self.yellow,
            self.lime,
            self.pink,
            self.gray,
            self.light_gray,
            self.cyan,
            self.purple,
            self.blue,
            self.brown,
            self.green,
            self.red,
            self.black,
        ]
    }

    /// No two wools share an id.
    pub open spec fn distinct(self) -> bool {
        self.ids().no_duplicates()
    }
}

impl BlockIds {
    /// All ids in the list.
    pub open spec fn ids(self) -> Seq<u16> {
        seq![
            self.tnt,
            self.respawn_anchor,
            self.wither_skeleton_skull,
            self.carved_pumpkin,
            self.mud,
        ]
    }

    /// No two blocks share an id.
    pub open spec fn distinct(self) -> bool {
        self.ids().no_duplicates()
    }
}

impl Registry {
    /// The item can be set down as a shulker box.
    pub open spec fn lists_shulker_box(self, id: u16) -> bool {
        let block_item = block_item_of(self.block_items@, id);
        block_item is Some && block_item->0.shulker_box
    }

    /// In how many of the lists that tell behaviors apart the item is: the named
    /// items, boats, minecarts, spawn eggs, filled buckets and shulker boxes.
    pub open spec fn listings(self, id: u16) -> int {
        let count = |listed: bool|
            if listed {
                1int
            } else {
                0int
            };
        count(self.items.ids().contains(id)) + count(entry_of(self.boats@, id) is Some) + count(
            entry_of(self.minecarts@, id) is Some,
        ) + count(entry_of(self.spawn_eggs@, id) is Some) + count(
            self.filled_buckets@.contains(id),
        ) + count(self.lists_shulker_box(id))
    }

    /// No id stands for two things.
    pub open spec fn distinct(self) -> bool {
        &&& self.items.distinct()
        &&& self.wool.distinct()
        &&& self.blocks.distinct()
        &&& self.fluids.water != self.fluids.flowing_water
        &&& forall|id: u16| #[trigger] self.listings(id) <= 1
        &&& forall|color: u8| !self.items.ids().contains(#[trigger] wool_id(self.wool, color))
    }
}

/// Every item stands in the list of ids under a number of its own.
pub proof fn items_have_numbers(items: ItemIds)
    ensures
        items.ids().len() == 26,
        items.ids()[0] == items.air,
        items.ids()[1] == items.arrow,
        items.ids()[2] == items.tipped_arrow,
        items.ids()[3] == items.spectral_arrow,
        items.ids()[4] == items.egg,
        items.ids()[5] == items.blue_egg,
        items.ids()[6] == items.brown_egg,
        items.ids()[7] == items.snowball,
        items.ids()[8] == items.splash_potion,
        items.ids()[9] == items.lingering_potion,
        items.ids()[10] == items.firework_rocket,
        items.ids()[11] == items.fire_charge,
        items.ids()[12] == items.wind_charge,
        items.ids()[13] == items.armor_stand,
        items.ids()[14] == items.tnt,
        items.ids()[15] == items.bucket,
        items.ids()[16] == items.flint_and_steel,
        items.ids()[17] == items.shears,
        items.ids()[18] == items.glass_bottle,
        items.ids()[19] == items.potion,
        items.ids()[20] == items.honey_bottle,
        items.ids()[21] == items.honeycomb,
        items.ids()[22] == items.glowstone,
        items.ids()[23] == items.bone_meal,
        items.ids()[24] == items.wither_skeleton_skull,
        items.ids()[25] == items.carved_pumpkin,
{
}

/// Sixteen colors give sixteen wools: different colors give different ones. Every
/// number past the last color gives the wool of the first, white.
pub proof fn sixteen_colors_give_sixteen_wools(wool: WoolIds, a: u8, b: u8)
    requires
        wool.distinct(),
    ensures
        a < 16 && b < 16 && wool_id(wool, a) == wool_id(wool, b) ==> a == b,
        a < 16 ==> wool_id(wool, a) == wool.ids()[a as int],
        a >= 16 ==> wool_id(wool, a) == wool_id(wool, 0),
        wool_id(wool, 0) == wool.white,
{
    let ids = wool.ids();
    if a < 16 {
        assert(wool_id(wool, a) == ids[a as int]);
    }
    if b < 16 {
        assert(wool_id(wool, b) == ids[b as int]);
    }
}

/// A table gives an item what its first entry for the item says, and gives nothing to an
/// item that it has no entry for.
pub proof fn the_first_entry_counts(table: Seq<(u16, u16)>, id: u16, i: int)
    ensures
        0 <= i < table.len() && table[i].0 == id && (forall|j: int|
            0 <= j < i ==> (#[trigger] table[j]).0 != id) ==> entry_of(table, id) == Some(
            table[i].1,
        ),
        entry_of(table, id) is Some ==> exists|j: int|
            0 <= j < table.len() && #[trigger] table[j] == (id, entry_of(table, id)->0),
{
    let wanted = keyed(table, id);
    let len = table.len() as int;
    if 0 <= i < len && table[i].0 == id && (forall|j: int|
        0 <= j < i ==> (#[trigger] table[j]).0 != id) {
        assert forall|j: int| 0 <= j < i implies !#[trigger] wanted(j) by {
            assert(table[j].0 != id);
        }
        search::first_index_at(len, wanted, i);
    }
    if let Some(j) = search::first_index(len, wanted) {
        assert(search::is_first(len, wanted, j));
        assert(table[j] == (id, table[j].1));
    }
}

/// The same of the items that can be set down as blocks.
pub proof fn the_first_block_item_counts(table: Seq<BlockItem>, id: u16, i: int)
    ensures
        0 <= i < table.len() && table[i].item == id && (forall|j: int|
            0 <= j < i ==> (#[trigger] table[j]).item != id) ==> block_item_of(table, id) == Some(
            table[i],
        ),
        block_item_of(table, id) is Some ==> block_item_of(table, id)->0.item == id && exists|
            j: int,
        |
            0 <= j < table.len() && #[trigger] table[j] == block_item_of(table, id)->0,
{
    let wanted = made_of(table, id);
    let len = table.len() as int;
    if 0 <= i < len && table[i].item == id && (forall|j: int|
        0 <= j < i ==> (#[trigger] table[j]).item != id) {
        assert forall|j: int| 0 <= j < i implies !#[trigger] wanted(j) by {
            assert(table[j].item != id);
        }
        search::first_index_at(len, wanted, i);
    }
    if let Some(j) = search::first_index(len, wanted) {
        assert(search::is_first(len, wanted, j));
    }
}

/// A fluid is water exactly if it is still water or flowing water, and an item is a
/// projectile exactly if it stands in the list of items from the arrow to the wind
/// charge.
pub proof fn water_and_projectiles_are_told_by_their_ids(
    fluids: FluidIds,
    fluid: u16,
    items: ItemIds,
    id: u16,
)
    ensures
        is_water_id(fluids, fluid) <==> fluid == fluids.water || fluid == fluids.flowing_water,
        is_projectile_id(items, id) <==> exists|k: int|
            1 <= k <= 12 && #[trigger] items.ids()[k] == id,
{
    let ids = items.ids();
    items_have_numbers(items);
    if is_projectile_id(items, id) {
        assert(ids[1] == id || ids[2] == id || ids[3] == id || ids[4] == id || ids[5] == id
            || ids[6] == id || ids[7] == id || ids[8] == id || ids[9] == id || ids[10] == id
            || ids[11] == id || ids[12] == id);
    }
}

} // verus!
