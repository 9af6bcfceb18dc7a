//! What a mob asks its host to do. Rules append effects to a list, in the order in which the
//! host has to carry them out.

use vstd::prelude::*;

use crate::goal::EntityKind;
use crate::item::{Item, ItemStack};
use crate::position::BlockPos;

verus! {

#[derive(Clone, Copy, PartialEq, Eq, Structural, Debug)]
pub enum Sound {
    AllayItemGiven,
    AllayItemTaken,
    AllayItemThrown,
    AmethystBlockChime,
    AxeScrape,
    BeeLoop,
    BeePollinate,
    BeeSting,
    CatEat,
    ChickenAmbient,
    CopperGolemHurt,
    CopperGolemOxidizedHurt,
    CopperGolemOxidizedStep,
    CopperGolemStep,
    CopperGolemWeatheredHurt,
    CopperGolemWeatheredStep,
    CowAmbient,
    DolphinEat,
    DonkeyAngry,
    DonkeyChest,
    DonkeyEat,
    FoxAmbient,
    FrogAmbient,
    GhastlingAmbient,
    GhastlingHurt,
    GlowSquidSquirt,
    GoatEat,
    GoatLongJump,
    GoatStep,
    GoatMilk,
    GoatScreamingEat,
    GoatScreamingLongJump,
    GoatScreamingMilk,
    HappyGhastAmbient,
    HappyGhastHarnessGogglesDown,
    HappyGhastHurt,
    HoneycombWaxOn,
    HorseAngry,
    HorseEat,
    HorseJump,
    HorseSaddle,
    IronGolemAttack,
    IronGolemDamage,
    IronGolemRepair,
    LlamaAngry,
    LlamaChest,
    LlamaEat,
    MuleAngry,
    MuleChest,
    MuleEat,
    MuleJump,
    PandaAggressiveAmbient,
    PandaAmbient,
    PandaBite,
    PandaCantBreed,
    PandaEat,
    PandaPreSneeze,
    PandaSneeze,
    PandaWorriedAmbient,
    PigAmbient,
    PolarBearAmbient,
    PolarBearAmbientBaby,
    PolarBearStep,
    PolarBearWarning,
    PufferFishBlowOut,
    PufferFishBlowUp,
    PufferFishSting,
    RabbitAmbient,
    RabbitJump,
    SnifferEat,
    SnifferEggPlop,
    SnifferHappy,
    SnifferScenting,
    SnifferSniffing,
    SnowGolemAmbient,
    SquidSquirt,
    StriderEat,
    TadpoleGrowUp,
}

#[derive(Clone, Copy, PartialEq, Eq, Structural, Debug)]
pub enum Particle {
    Glow,
    GlowSquidInk,
    HappyVillager,
    Heart,
    Smoke,
    SquidInk,
}

/// A value of a mob that clients keep a copy of.
#[derive(Clone, Copy, PartialEq, Eq, Structural, Debug)]
pub enum SyncedValue {
    Baby(bool),
    AirSupply(i32),
    AxolotlVariant(i32),
    BeeFlags(i8),
    CamelDash(bool),
    CatCollarColor(i32),
    CatLying(bool),
    CatRelaxStateOne(bool),
    CatSoundVariant(i32),
    CatVariant(i32),
    ChickenVariant(i32),
    CopperGolemState(i32),
    CopperGolemWeather(i32),
    CowVariant(i32),
    DolphinGotFish(bool),
    DolphinMoistness(i32),
    FoxFlags(i8),
    FoxVariant(i32),
    FrogVariant(i32),
    GlowSquidDarkTicks(i32),
    GoatLeftHorn(bool),
    GoatRightHorn(bool),
    GoatScreaming(bool),
    HappyGhastLeashHolder(bool),
    HappyGhastStaysStill(bool),
    HorseVariant(i32),
    IronGolemFlags(i8),
    LlamaStrength(i32),
    LlamaVariant(i32),
    PandaEatCounter(i32),
    PandaFlags(i8),
    PandaHiddenGene(i8),
    PandaMainGene(i8),
    PandaSneezeCounter(i32),
    PandaUnhappyCounter(i32),
    PolarBearStanding(bool),
    PuffState(i32),
    SalmonVariant(i32),
    SnifferState(i32),
    SnowGolemPumpkin(i8),
    TadpoleAgeLocked(bool),
    TamableFlags(u8),
    TamableOwner(Option<u128>),
}

#[derive(Clone, Copy, PartialEq, Eq, Structural, Debug)]
pub enum EquipmentSlot {
    Body,
    Saddle,
}

#[derive(Clone, Copy, PartialEq, Eq, Structural, Debug)]
pub enum Pose {
    Standing,
    Crouching,
}

/// How a statue of a golem stands.
#[derive(Clone, Copy, PartialEq, Eq, Structural, Debug)]
pub enum StatuePose {
    Standing,
    Sitting,
    Running,
    Star,
}

/// How a mob moves.
#[derive(Clone, Copy, PartialEq, Eq, Structural, Debug)]
pub enum MoveControl {
    /// It flies, turns by so many degrees at most, and hovers.
    Flying { max_turn: u32, hovers: bool },
    /// It floats as ghasts do.
    Ghast,
}

/// Names that the host translates.
#[derive(Clone, Copy, PartialEq, Eq, Structural, Debug)]
pub enum MobName {
    KillerBunny,
}

/// What a path leads over.
#[derive(Clone, Copy, PartialEq, Eq, Structural, Debug)]
pub enum Ground {
    Water,
    Lava,
    PowderSnow,
    NearFire,
    Fire,
    NearDamage,
}

/// What a mob is capable of.
#[derive(Clone, Copy, PartialEq, Eq, Structural, Debug)]
pub enum Attribute {
    MaxHealth,
    MovementSpeed,
    JumpStrength,
}

/// A request to the host.
#[derive(Clone, Copy, PartialEq, Eq, Structural, Debug)]
pub enum Effect {
    /// Play a sound where the mob is.
    Play(Sound),
    /// Play a sound with a volume and a pitch, each in ten-thousandths.
    PlayAt { sound: Sound, volume: u32, pitch: u32 },
    /// Send a value to the clients.
    Sync(SyncedValue),
    /// Spawn particles at a part of the mob's height (in thousandths), with a speed (in
    /// thousandths).
    Particles { kind: Particle, height: u32, speed: u32, count: u32 },
    /// Show the hearts of a mob in love.
    LoveHearts,
    /// Show that taming worked.
    TamingSucceeded,
    /// Show that taming did not work.
    TamingFailed,
    /// Take a pose.
    SetPose(Pose),
    /// Start or stop sprinting.
    SetSprinting(bool),
    /// Start or stop jumping.
    SetJumping(bool),
    /// Give the mob health.
    Heal(u32),
    /// Fill an equipment slot, tell the clients, and let the item always drop.
    Equip { slot: EquipmentSlot, stack: ItemStack },
    /// Play the sound of putting an item on.
    PlayEquipSound(Item),
    /// Let a player ride the mob, if the player can ride and both are in the world.
    Mount { player: u128 },
    /// Show a player the mob's inventory.
    OpenInventory { player: u128 },
    /// Drop items where the mob is.
    Drop(ItemStack),
    /// Move to a point above the middle of a block's floor; the height above the floor and the
    /// speed are in thousandths.
    MoveTo { pos: BlockPos, height: u32, speed: u32 },
    /// Turn to a point above the middle of a block's floor.
    LookAtBlock { pos: BlockPos, height: u32 },
    /// Stop walking.
    StopNavigation,
    /// Keep the head level.
    LevelHead,
    /// Look at the target.
    LookAtTarget,
    /// Start to roll forward; a baby rolls with half the force.
    RollStart { baby: bool },
    /// Bounce while rolling.
    RollBounce,
    /// Go on rolling.
    RollOn,
    /// Make others of the mob's kind jump that are startled and touch its body, which for this
    /// is larger on all sides by the reach, in thousandths.
    StartleOthers { reach: u32 },
    /// Set how much health the mob can have.
    SetMaxHealth(u32),
    /// Give the mob all the health it can have.
    FillHealth,
    /// Set what the mob is capable of, by the bits of a floating-point number, where it has such
    /// an attribute.
    SetAttribute { attribute: Attribute, bits: u64 },
    /// Draw what the mob is capable of around what its parents are capable of, within a range,
    /// all of it by the bits of floating-point numbers, and record it.
    InheritAttribute { attribute: Attribute, first: u64, second: u64, low: u64, high: u64 },
    /// Take away what health the mob has beyond its maximum.
    CapHealth,
    /// Draw how fast the mob moves, and record it.
    RollSpeed,
    /// Draw how high the mob jumps, and record it.
    RollJumpStrength,
    /// Set how fast the mob moves, in thousandths.
    SetMovementSpeed(u32),
    /// Turn head and body to where the mob faces.
    AlignHead,
    /// Send the position of the mob exactly, or no longer.
    SendExactPosition(bool),
    /// Move in another way.
    MoveLike(MoveControl),
    /// Drop all goals and plans.
    RemoveFreeWill,
    /// Go on with the first activity that is possible, resting among them.
    BecomeIdle,
    /// Stay within a distance of a block.
    StayNear { pos: BlockPos, radius: i32 },
    /// Wear an item on the body and tell the clients.
    WearOnBody(ItemStack),
    /// Play a sound at a pitch (in ten-thousandths) that two draws move by up to a fifth of the
    /// usual pitch.
    PlayVaried { sound: Sound, pitch: u32 },
    /// Hop about on the ground, out of the water.
    Flop,
    /// Start the animation of an attack.
    StartAttacking,
    /// Fling the target upwards, as far as it does not resist.
    FlingTarget,
    /// Put items into the inventory of the player who interacts, where there is room.
    PutIntoInventory(ItemStack),
    /// Set the armour of the mob.
    SetArmor(u32),
    /// Let the attacks of the mob do more damage.
    BoostAttack(u32),
    /// Give the mob a name that all its kind bears.
    SetName(MobName),
    /// Let the paths of the mob lead through water, as far as it can float.
    FloatOnPaths,
    /// Let the paths of the mob lead through doors, which it opens.
    OpenDoorsOnPaths,
    /// Keep the paths of the mob off some ground.
    AvoidGround(Ground),
    /// Let the paths of the mob lead over some ground at no cost.
    AllowGround(Ground),
    /// Take the mob out of the world.
    Remove,
    /// Start to listen to the sounds around the mob.
    RegisterListeners,
    /// Spawn the duplicate of the mob where the mob is.
    Duplicate,
    /// Put items into the mob's hand.
    Hold(ItemStack),
    /// Give items to the player who interacts, or drop them in front of that player.
    GiveToPlayer(ItemStack),
    /// Wear the tool in the player's hand down.
    DamageTool(u32),
    /// Become a statue.
    BecomeStatue(StatuePose),
    /// Let the anger of the mob cool down by one tick.
    TickAnger,
    /// Hold a grudge against someone from now on.
    HoldGrudge(u128),
    /// Forget all anger.
    ForgetAnger,
    /// Give up the target.
    DropTarget,
    /// Poison the target for some ticks.
    PoisonTarget(i32),
    /// Poison the mob itself for some ticks.
    PoisonSelf(i32),
    /// Take deadly damage from a player.
    DieBy { player: u128 },
    /// Let the health of the player who helped come back for some ticks.
    GiveRegeneration(i32),
    /// Take weariness in mining from the player who helped.
    CureMiningFatigue,
    /// Spray ink around.
    SprayInk(Particle),
    /// Let a spark of light glow somewhere within the mob.
    Sparkle(Particle),
    /// Set the size of the mob, in thousandths of the usual one.
    ScaleBody(u32),
    /// Become a mob of another kind.
    ConvertTo(EntityKind),
    /// Slow the fall of the mob.
    GlideDown,
    /// Lay an item, unless someone objects.
    Lay(ItemStack),
    /// Leave a stinger in the target.
    LeaveStinger,
    /// Take damage from drowning.
    Drown(u32),
    /// Take damage from drying out.
    DryOut(u32),
    /// Die.
    Die,
    /// Let a crop below the mob, so many blocks down, grow to an age.
    GrowCrop { below: i32, age: u8 },
    /// Move into the hive.
    EnterHive { flower: Option<BlockPos> },
}

/// How a mob took an interaction.
#[derive(Clone, Copy, PartialEq, Eq, Structural, Debug)]
pub enum Interaction {
    /// It did something.
    Handled,
    /// It did nothing.
    Refused,
    /// The interaction that all mobs share decides.
    Shared,
}

/// Seven hearts or other signs of feeling above the mob.
pub open spec fn feeling(kind: Particle) -> Effect {
    Effect::Particles { kind, height: 1000, speed: 1000, count: 7 }
}

/// Seven hearts or other signs of feeling above the mob.
pub fn show_feeling(kind: Particle) -> (effect: Effect)
    ensures
        effect == feeling(kind),
{
    Effect::Particles { kind, height: 1000, speed: 1000, count: 7 }
}

/// What is in two lists joined is in one of them.
pub broadcast proof fn lemma_in_joined(a: Seq<Effect>, b: Seq<Effect>, x: Effect)
    ensures
        #[trigger] (a + b).contains(x) <==> a.contains(x) || b.contains(x),
{
    let all = a + b;
    if all.contains(x) {
        let i = choose|i: int| 0 <= i < all.len() && all[i] == x;
        if i < a.len() {
            assert(a[i] == x);
        } else {
            assert(b[i - a.len()] == x);
        }
    }
    if a.contains(x) {
        let i = choose|i: int| 0 <= i < a.len() && a[i] == x;
        assert(all[i] == x);
    }
    if b.contains(x) {
        let i = choose|i: int| 0 <= i < b.len() && b[i] == x;
        assert(all[a.len() + i] == x);
    }
}

/// What is in a list with something put at its end is in the list or is that thing.
pub broadcast proof fn lemma_in_pushed(a: Seq<Effect>, y: Effect, x: Effect)
    ensures
        #[trigger] a.push(y).contains(x) <==> a.contains(x) || x == y,
{
    let all = a.push(y);
    if all.contains(x) {
        let i = choose|i: int| 0 <= i < all.len() && all[i] == x;
        if i < a.len() {
            assert(a[i] == x);
        }
    }
    if a.contains(x) {
        let i = choose|i: int| 0 <= i < a.len() && a[i] == x;
        assert(all[i] == x);
    }
    assert(all[a.len() as int] == y);
}

/// Nothing is in an empty list.
pub broadcast proof fn lemma_in_nothing(x: Effect)
    ensures
        !(#[trigger] Seq::<Effect>::empty().contains(x)),
{
}

pub broadcast group group_effects {
    lemma_in_joined,
    lemma_in_pushed,
    lemma_in_nothing,
}

} // verus!
