//! What a dispenser asks of its host, what the host answers, and what it is told
//! to do.

use crate::geometry::{BlockPos, Facing};
use crate::item::ItemStack;
use vstd::prelude::*;

verus! {

/// World events, each a sound or particles that every client around plays.
#[derive(Clone, Copy, Debug, PartialEq, Eq, Structural)]
pub enum WorldEvent {
    SoundDispenserDispense,
    SoundDispenserFail,
    SoundDispenserProjectileLaunch,
    SoundFireworkShoot,
    SoundBlazeFireball,
    SoundWindChargeShoot,
    ParticlesShootSmoke,
    ParticlesAndSoundWaxOn,
}

/// The categories by which clients set the volume of sounds.
#[derive(Clone, Copy, Debug, PartialEq, Eq, Structural)]
pub enum SoundCategory {
    Master,
    Music,
    Records,
    Weather,
    Blocks,
    Hostile,
    Neutral,
    Players,
    Ambient,
    Voice,
}

/// Which of the blocks that are due at the same time is ticked first.
#[derive(Clone, Copy, Debug, PartialEq, Eq, Structural)]
pub enum TickPriority {
    ExtremelyHigh,
    VeryHigh,
    High,
    Normal,
    Low,
    VeryLow,
    ExtremelyLow,
}

/// Sounds.
#[derive(Clone, Copy, Debug, PartialEq, Eq, Structural)]
pub enum Sound {
    EntityArmorStandPlace,
    EntityTntPrimed,
    BlockBeehiveShear,
    EntitySheepShear,
    ItemBottleEmpty,
    BlockRespawnAnchorCharge,
}

/// A place in the world.
#[derive(Clone, Copy, Debug, PartialEq, Eq, Structural)]
pub enum Spot {
    /// The middle of a block's floor, where an entity stands.
    Floor(BlockPos),
    /// The centre of a block.
    Center(BlockPos),
    /// A block as a whole.
    Block(BlockPos),
    /// Where an entity of the latest `Query::Animals` is.
    Entity(usize),
}

/// Who hears of a changed block.
#[derive(Clone, Copy, Debug, PartialEq, Eq, Structural)]
pub enum Notify {
    Listeners,
    All,
}

/// A block state, by its number or by how it is made.
#[derive(Clone, Copy, Debug, PartialEq, Eq, Structural)]
pub enum NewState {
    /// The state with this number.
    State(u16),
    /// The default state of a block.
    DefaultOf(u16),
    /// The beehive state `state` of `block` with another honey level.
    HoneyLevel { block: u16, state: u16, level: u8 },
    /// The respawn anchor state `state` of `block` with another charge.
    Charges { block: u16, state: u16, charges: u8 },
    /// The default state of a skull with a rotation.
    Rotation { block: u16, rotation: u8 },
    /// The default state of a block with a facing.
    Towards { block: u16, facing: Facing },
}

/// The block properties of a dispenser.
#[derive(Clone, Copy, Debug, PartialEq, Eq, Structural)]
pub struct DispenserProperties {
    pub facing: Facing,
    pub triggered: bool,
}

/// The part of the body, or of the saddlery, that equipment is worn on.
#[derive(Clone, Copy, Debug, PartialEq, Eq, Structural)]
pub enum EquipmentSlot {
    MainHand,
    OffHand,
    Feet,
    Legs,
    Chest,
    Head,
    Body,
    Saddle,
}

/// Entities that fly out of a dispenser.
#[derive(Clone, Copy, Debug, PartialEq, Eq, Structural)]
pub enum Projectile {
    Snowball,
    Egg,
    SplashPotion,
    LingeringPotion,
    FireworkRocket,
    SmallFireball,
    WindCharge,
    SpectralArrow,
    Arrow,
}

/// Who may pick up an arrow that has come down.
#[derive(Clone, Copy, Debug, PartialEq, Eq, Structural)]
pub enum ArrowPickup {
    Disallowed,
    Allowed,
    CreativeOnly,
}

/// A gravity that the host knows by name.
#[derive(Clone, Copy, Debug, PartialEq, Eq, Structural)]
pub enum Gravity {
    WindCharge,
}

/// How a projectile is made that is set up as a thrown item.
#[derive(Clone, Copy, Debug, PartialEq, Eq, Structural)]
pub struct ThrownSettings {
    pub collides_with_projectiles: bool,
    pub has_hit: bool,
    pub gravity: Gravity,
}

/// How a projectile is made.
#[derive(Clone, Copy, Debug, PartialEq, Eq, Structural)]
pub struct ProjectileSettings {
    /// The entity that counts as the shooter.
    pub owner: Option<i32>,
    /// Who may pick it up, if it is an arrow.
    pub pickup: Option<ArrowPickup>,
    /// What is set of it as a thrown item, if anything is.
    pub thrown: Option<ThrownSettings>,
}

/// How hard and how straight a projectile is shot: the power in thousandths, the
/// uncertainty in ten-millionths.
#[derive(Clone, Copy, Debug, PartialEq, Eq, Structural)]
pub struct LaunchProfile {
    pub power_milli: u32,
    pub uncertainty_e7: u32,
}

/// The monster that a head on a finished pattern brings to life.
#[derive(Clone, Copy, Debug, PartialEq, Eq, Structural)]
pub enum Summon {
    Wither,
    Golem,
}

/// Something the host has to do. The effects of one step are carried out in the
/// order in which they are handed out, before the next question is answered.
#[derive(Clone, Copy, Debug, PartialEq, Eq, Structural)]
pub enum Effect {
    /// Send a world event.
    SyncWorldEvent { event: WorldEvent, position: BlockPos, data: i32 },
    /// Mark the contents of the dispenser as changed.
    MarkDirty,
    /// Throw a stack out of the dispenser. It can be picked up after `pickup_delay`
    /// ticks.
    DropStack { stack: ItemStack, pickup_delay: u8 },
    /// Leave a stack lying at a spot.
    DropAt { spot: Spot, stack: ItemStack },
    /// Shoot a projectile; `carried` is the item it shows and delivers.
    Shoot {
        projectile: Projectile,
        settings: ProjectileSettings,
        carried: Option<ItemStack>,
        launch: LaunchProfile,
    },
    /// Set a boat afloat on the floor of a block, turned as the dispenser faces.
    SpawnBoat { entity_type: u16, position: BlockPos },
    /// Put a minecart in front of the dispenser, `height_tenths` of a block over
    /// the floor of the block in front.
    SpawnMinecart { entity_type: u16, height_tenths: i32 },
    /// Stand an armor stand on the floor of a block, turned as the dispenser faces.
    SpawnArmorStand { position: BlockPos },
    /// Put primed TNT on the floor of a block.
    SpawnTnt { position: BlockPos, power: u32, fuse: u32 },
    /// Hatch a mob on the floor of a block, with the variant that the egg names.
    SpawnMob { entity_type: u16, position: BlockPos, uuid: u128, egg: ItemStack },
    /// Play a sound.
    PlaySound { sound: Sound, category: SoundCategory, spot: Spot },
    /// Change a block.
    SetBlockState { position: BlockPos, state: NewState, notify: Notify },
    /// Change the properties of the dispenser itself, which is the block `block`.
    SetProperties {
        block: u16,
        position: BlockPos,
        properties: DispenserProperties,
        notify: Notify,
    },
    /// Have the block `block` ticked after a delay.
    ScheduleTick { block: u16, position: BlockPos, delay: u8, priority: TickPriority },
    /// Show splashing water.
    SpawnSplash { spot: Spot, spread_tenths: u32, speed_tenths: u32, count: u32 },
    /// Show and sound a bucket's water boiling away.
    PlayEvaporation { spot: Spot },
    /// Prime a block of TNT.
    PrimeTnt { position: BlockPos },
    /// Take the wool off an entity of the latest `Query::Animals`.
    SetSheared { entity: usize },
    /// Tell the clients what an entity of the latest `Query::Wearers` puts on.
    SendEquipment { entity: usize, slot: EquipmentSlot, stack: ItemStack },
    /// Play the sound of putting on equipment where the entity is.
    PlayEquipSound { entity: usize, equip_sound: u32, category: SoundCategory },
    /// Put a stack into an equipment slot of the entity.
    Equip { entity: usize, slot: EquipmentSlot, stack: ItemStack },
    /// Put a stack into the slot of the latest `Query::Slot`.
    SetSlot { index: usize, stack: ItemStack },
}

/// Something a dispenser has to know before it can go on.
#[derive(Clone, Copy, Debug, PartialEq, Eq, Structural)]
pub enum Query {
    /// What is in a block? Answered by `Reply::Cell`.
    Cell { position: BlockPos },
    /// Is there room for an entity on the floor of a block? `Reply::Room`.
    Room { position: BlockPos, entity_type: u16 },
    /// Scoop up what an empty bucket can take there. `Reply::Item`, the filled bucket.
    PickUp { position: BlockPos, facing: Facing },
    /// Would the contents of this bucket boil away here? `Reply::Flag`.
    Evaporates { item: u16 },
    /// Empty a bucket from a position. `Reply::Flag`, whether that was possible.
    EmptyOut { item: u16, position: BlockPos, facing: Facing },
    /// Set fire there, telling `notify` of the changed block. `Reply::Flag`, whether
    /// anything caught fire.
    Ignite { position: BlockPos, notify: Notify },
    /// Wear down a tool. `Reply::Stack`, what is left of it.
    Damage { stack: ItemStack, amount: i32 },
    /// Which entities are in a block? `Reply::Animals`.
    Animals { position: BlockPos },
    /// A number drawn at random from `low` to `high`. `Reply::Count`.
    Roll { low: u8, high: u8 },
    /// A fresh random identifier. `Reply::Uuid`.
    FreshUuid,
    /// The waxed form of a block state. `Reply::State`.
    WaxedState { block: u16, state: u16 },
    /// Would a head set down here finish a pattern? `Reply::Flag`.
    Pattern { summon: Summon, position: BlockPos },
    /// How is this worn? `Reply::Equippable`.
    Equippable { stack: ItemStack },
    /// Which entities and players are in a block? `Reply::Wearers`.
    Wearers { position: BlockPos, tag: Option<u32> },
    /// Has this entity of the latest `Query::Wearers` nothing on there? `Reply::Flag`.
    NothingWorn { entity: usize, slot: EquipmentSlot },
    /// What is in a slot of the dispenser? `Reply::Slot`.
    Slot { index: usize },
    /// Does a block receive redstone power? `Reply::Flag`.
    Power { position: BlockPos },
    /// The properties of the dispenser, which is the block `block`.
    /// `Reply::Properties`.
    Properties { block: u16, position: BlockPos },
    /// Pick one of the filled slots of the dispenser at random. `Reply::Picked`.
    PickSlot { position: BlockPos },
}

/// The rails a block can be.
#[derive(Clone, Copy, Debug, PartialEq, Eq, Structural)]
pub enum Rail {
    /// A rail of the kind that can carry a signal.
    Powered { ascending: bool },
    /// A rail of the kind that can bend.
    Plain { ascending: bool },
}

/// What there is to know about a block.
#[derive(Clone, Copy, Debug, PartialEq, Eq, Structural)]
pub struct Cell {
    pub block: u16,
    pub state: u16,
    pub fluid: u16,
    pub air: bool,
    pub replaceable: bool,
    /// What kind of rail it is, if it is tagged as one.
    pub rail: Option<Rail>,
    /// The honey level, if it is tagged as a beehive.
    pub honey_level: Option<u8>,
    /// Whether it is tagged as convertible to mud.
    pub convertible_to_mud: bool,
    /// The charges of a respawn anchor, 0 for any other block.
    pub charges: u8,
}

/// An entity in front of a pair of shears.
#[derive(Clone, Copy, Debug, PartialEq, Eq, Structural)]
pub struct Animal {
    pub sheep: bool,
    pub sheared: bool,
    pub alive: bool,
    pub color: u8,
}

/// An entity that might wear something.
#[derive(Clone, Copy, Debug, PartialEq, Eq, Structural)]
pub struct Wearer {
    pub living: bool,
    pub part_of_game: bool,
    pub entity_type: u16,
    /// Whether its type carries the tag that was asked for, if that is known.
    pub tagged: Option<bool>,
}

/// A set of entity types.
#[derive(Debug)]
pub enum EntitySet {
    /// The types with a tag.
    Tag(u32),
    /// The types listed.
    Ids(Vec<u16>),
}

/// How an item is worn.
#[derive(Debug)]
pub struct Equippable {
    pub slot: EquipmentSlot,
    pub dispensable: bool,
    /// Who may wear it; everyone if nothing is said.
    pub allowed_entities: Option<EntitySet>,
    pub equip_sound: u32,
}

/// A slot of the dispenser: what is in it, and how many of that it can hold.
#[derive(Clone, Copy, Debug, PartialEq, Eq, Structural)]
pub struct SlotContents {
    pub stack: ItemStack,
    pub max_stack_size: u8,
}

/// The outcome of picking a slot.
#[derive(Clone, Copy, Debug, PartialEq, Eq, Structural)]
pub enum Picked {
    /// There is no dispenser here.
    NoDispenser,
    /// All slots are empty.
    Nothing,
    /// This slot, with this in it.
    Slot { slot: usize, item: ItemStack },
}

/// What the host answers.
#[derive(Debug)]
pub enum Reply {
    Cell(Cell),
    /// Whether no block is in the way, and how many entities are.
    Room { space_empty: bool, obstacles: usize },
    Item(Option<u16>),
    Flag(bool),
    Stack(ItemStack),
    Animals(Vec<Animal>),
    Count(u8),
    Uuid(u128),
    State(Option<u16>),
    Equippable(Option<Equippable>),
    Wearers { entities: Vec<Wearer>, players: Vec<Wearer> },
    /// What is in the slot, if the dispenser has a slot of that number.
    Slot(Option<SlotContents>),
    Properties(DispenserProperties),
    Picked(Picked),
}

/// The model of a set of entity types.
pub enum EntitySetView {
    Tag(u32),
    Ids(Seq<u16>),
}

/// The model of how an item is worn.
pub struct EquippableView {
    pub slot: EquipmentSlot,
    pub dispensable: bool,
    pub allowed_entities: Option<EntitySetView>,
    pub equip_sound: u32,
}

/// The model of an answer.
pub enum ReplyView {
    Cell(Cell),
    Room { space_empty: bool, obstacles: usize },
    Item(Option<u16>),
    Flag(bool),
    Stack(ItemStack),
    Animals(Seq<Animal>),
    Count(u8),
    Uuid(u128),
    State(Option<u16>),
    Equippable(Option<EquippableView>),
    Wearers { entities: Seq<Wearer>, players: Seq<Wearer> },
    Slot(Option<SlotContents>),
    Properties(DispenserProperties),
    Picked(Picked),
}

impl View for EntitySet {
    type V = EntitySetView;

    open spec fn view(&self) -> EntitySetView {
        match *self {
            EntitySet::Tag(tag) => EntitySetView::Tag(tag),
            EntitySet::Ids(ids) => EntitySetView::Ids(ids@),
        }
    }
}

/// The model of an optional set of entity types.
pub open spec fn allowed_view(allowed: Option<EntitySet>) -> Option<EntitySetView> {
    match allowed {
        Some(set) => Some(set@),
        None => None,
    }
}

impl View for Equippable {
    type V = EquippableView;

    open spec fn view(&self) -> EquippableView {
        EquippableView {
            slot: self.slot,
            dispensable: self.dispensable,
            allowed_entities: allowed_view(self.allowed_entities),
            equip_sound: self.equip_sound,
        }
    }
}

impl View for Reply {
    type V = ReplyView;

    open spec fn view(&self) -> ReplyView {
        match *self {
            Reply::Cell(cell) => ReplyView::Cell(cell),
            Reply::Room { space_empty, obstacles } => ReplyView::Room { space_empty, obstacles },
            Reply::Item(item) => ReplyView::Item(item),
            Reply::Flag(flag) => ReplyView::Flag(flag),
            Reply::Stack(stack) => ReplyView::Stack(stack),
            Reply::Animals(animals) => ReplyView::Animals(animals@),
            Reply::Count(count) => ReplyView::Count(count),
            Reply::Uuid(uuid) => ReplyView::Uuid(uuid),
            Reply::State(state) => ReplyView::State(state),
            Reply::Equippable(worn) => ReplyView::Equippable(
                match worn {
                    Some(equippable) => Some(equippable@),
                    None => None,
                },
            ),
            Reply::Wearers { entities, players } => ReplyView::Wearers {
                entities: entities@,
                players: players@,
            },
            Reply::Slot(contents) => ReplyView::Slot(contents),
            Reply::Properties(properties) => ReplyView::Properties(properties),
            Reply::Picked(picked) => ReplyView::Picked(picked),
        }
    }
}

} // verus!
