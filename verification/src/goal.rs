//! The goals that a mob pursues. A mob lists each goal with a priority; a lower number comes
//! first, and the order of the list breaks ties.
//!
//! Speeds and distances are given in thousandths.

use vstd::prelude::*;

use crate::item::Diet;

verus! {

/// The entities that a rule of a mob names.
#[derive(Clone, Copy, PartialEq, Eq, Structural, Debug)]
pub enum EntityKind {
    Player,
    /// A boat or raft of any wood, with or without a chest.
    Boat,
    Chicken,
    Cod,
    Creeper,
    Donkey,
    Drowned,
    ElderGuardian,
    Fox,
    Frog,
    GlowSquid,
    Guardian,
    HappyGhast,
    Horse,
    Llama,
    Mule,
    Nautilus,
    PolarBear,
    Pufferfish,
    Rabbit,
    Salmon,
    SkeletonHorse,
    Sniffer,
    Squid,
    Strider,
    Tadpole,
    TraderLlama,
    TropicalFish,
    Turtle,
    Wolf,
    ZombieHorse,
    ZombieNautilus,
    Other(u16),
}

/// What a goal needs for itself: two goals that both move the mob are not pursued at once.
#[derive(Clone, Copy, PartialEq, Eq, Structural, Debug)]
pub enum Controls {
    Nothing,
    Move,
}

/// Whom an avoiding mob is willing to flee from, beyond the kind of entity.
#[derive(Clone, Copy, PartialEq, Eq, Structural, Debug)]
pub enum AvoidRule {
    /// Everyone of the kind.
    Always,
    /// A fox flees from a player it does not trust and that it can be startled by.
    FoxPlayer,
    /// A fox flees from an untamed wolf unless it defends someone.
    FoxWolf,
    /// A fox flees from a polar bear unless it defends someone.
    FoxPolarBear,
}

/// Whom an attacking mob is willing to target, beyond the kind of entity.
#[derive(Clone, Copy, PartialEq, Eq, Structural, Debug)]
pub enum TargetRule {
    /// Those that the mob holds a grudge against.
    AngryAt,
    /// Everyone, provided the mob itself is an adult.
    MobIsAdult,
    /// Young turtles out of the water.
    BabyTurtleOnLand,
    /// Wolves that nobody has tamed.
    UntamedWolf,
}

/// One goal, with its settings.
#[derive(Clone, Copy, PartialEq, Eq, Structural, Debug)]
pub enum Goal {
    Swim,
    EscapeDanger { speed: u32 },
    Breed { speed: u32 },
    SnifferBreed { speed: u32 },
    HorseBreed { speed: u32 },
    PandaBreed { speed: u32 },
    Tempt { speed: u32, items: Diet, scared: bool },
    TemptAtDistance { speed: u32, items: Diet, scared: bool, stop_distance: u32 },
    FollowParent { speed: u32 },
    FollowHorseParent { speed: u32 },
    FollowOwner { speed: u32, start_distance: u32, stop_distance: u32 },
    FollowFlockLeader,
    FollowRiddenEntity { vehicles: RiddenKinds },
    Wander { speed: u32 },
    WanderAvoidingWater { speed: u32 },
    /// The probability is given in millionths.
    WanderAvoidingWaterSometimes { speed: u32, probability: u32 },
    WanderAtInterval { speed: u32, interval: u32 },
    LookAt { kind: EntityKind, range: u32 },
    LookAround,
    Avoid { kind: EntityKind, distance: u32, slow_speed: u32, fast_speed: u32, from: AvoidRule },
    MeleeAttack { speed: u32, pause_when_idle: bool },
    LeapAtTarget { height: u32 },
    OcelotAttack,
    Sit,
    ClimbOnTopOfPowderSnow,
    Revenge { group: bool },
    ResetUniversalAnger { alert_others: bool },
    ActiveTarget {
        kind: EntityKind,
        interval: u32,
        check_visibility: bool,
        check_navigable: bool,
        only: TargetRule,
    },
    /// A target goal with the usual interval.
    SimpleTarget { kind: EntityKind, check_visibility: bool },
    NonTameTarget { prey: NonTameKinds, check_visibility: bool },
    NearestHostile,
    NearestHostileForSnowGolem,
    AmbientStand,
    RunAroundLikeCrazy { speed: u32 },
    AxolotlPlayDead,
    BeeAttack,
    BeeEnterHive,
    BeeValidateHive,
    BeeValidateFlower,
    BeePollinate,
    BeeLocateHive,
    BeeGoToHive,
    BeeGoToKnownFlower,
    BeeGrowCrop,
    BreatheAir,
    CamelSit,
    CatRelaxOnOwner,
    CatLieOnBed { speed: u32 },
    CatSitOnBlock { speed: u32 },
    DefendTrusted,
    DefendVillage,
    DolphinHurtByTarget,
    DolphinJump { chance: u32 },
    DolphinSwimToTreasure { speed: u32 },
    DolphinSwimWithPlayer { speed: u32 },
    FoxFaceplant,
    FoxMeleeAttack,
    FoxPounce,
    FoxSleep,
    FoxStalkPrey,
    FrogFindFood,
    FrogLaySpawn { speed: u32 },
    FrogTongueAttack,
    GhastRandomFloat,
    GoatRam,
    GoatLongJump { min_interval: u32, max_interval: u32, height: u32, width: u32, velocity: u32 },
    InteractWithDoor { close: bool },
    LlamaFollowCaravan { speed: u32 },
    LlamaHurtByTarget,
    LlamaSpit { speed: u32, interval: u32, range: u32 },
    OfferFlower,
    PandaAttack { speed: u32, pause_when_idle: bool },
    PandaAvoidMonsters { distance: u32, slow_speed: u32, fast_speed: u32 },
    PandaAvoidPlayer { distance: u32, slow_speed: u32, fast_speed: u32 },
    PandaHurtByTarget,
    PandaLieOnBack,
    PandaLookAtPlayer { range: u32 },
    PandaPanic { speed: u32 },
    PandaRoll,
    PandaSit,
    PandaSneeze,
    PolarBearAttackPlayers,
    PolarBearHurtByTarget,
    PolarBearMeleeAttack,
    RabbitAvoid { kind: EntityKind, distance: u32, slow_speed: u32, fast_speed: u32 },
    RabbitAvoidMonsters { distance: u32, slow_speed: u32, fast_speed: u32 },
    RaidGarden { speed: u32 },
    RangedSnowballAttack { interval: u32, range: u32 },
    SkeletonTrap,
    SnifferDig { speed: u32 },
    SquidFlee,
    SquidRandomMovement,
    StriderGoToLava { speed: u32 },
    TransportItems { speed: u32 },
    TryFindWater,
}

/// What a mob knows of an entity that it may attack.
#[derive(Clone, Copy)]
pub struct Candidate {
    /// Whether the mob holds a grudge against the entity.
    pub angry_at: bool,
    /// Whether the mob holds a grudge against all players.
    pub angry_at_all_players: bool,
    /// Whether the mob itself is a baby.
    pub mob_is_baby: bool,
    /// The age of the entity; negative while it is a baby.
    pub age: i32,
    pub in_water: bool,
    pub tamed: bool,
}

impl TargetRule {
    /// Whether a mob with the rule attacks an entity.
    pub open spec fn allows(self, candidate: Candidate) -> bool {
        match self {
            TargetRule::AngryAt => candidate.angry_at || candidate.angry_at_all_players,
            TargetRule::MobIsAdult => !candidate.mob_is_baby,
            TargetRule::BabyTurtleOnLand => candidate.age < 0 && !candidate.in_water,
            TargetRule::UntamedWolf => !candidate.tamed,
        }
    }

    /// Whether a mob with the rule attacks an entity.
    pub fn admits(self, candidate: &Candidate) -> (admitted: bool)
        ensures
            admitted == self.allows(*candidate),
    {
        match self {
            TargetRule::AngryAt => candidate.angry_at || candidate.angry_at_all_players,
            TargetRule::MobIsAdult => !candidate.mob_is_baby,
            TargetRule::BabyTurtleOnLand => candidate.age < 0 && !candidate.in_water,
            TargetRule::UntamedWolf => !candidate.tamed,
        }
    }
}

/// The vehicles that a dolphin swims along with.
#[derive(Clone, Copy, PartialEq, Eq, Structural, Debug)]
pub enum RiddenKinds {
    Boats,
    Nautiluses,
}

impl RiddenKinds {
    /// Whether a dolphin swims along with a vehicle.
    pub fn contains(self, vehicle: EntityKind) -> (found: bool)
        ensures
            found == (match self {
                RiddenKinds::Boats => vehicle == EntityKind::Boat,
                RiddenKinds::Nautiluses => vehicle == EntityKind::Nautilus || vehicle
                    == EntityKind::ZombieNautilus,
            }),
    {
        match self {
            RiddenKinds::Boats => vehicle == EntityKind::Boat,
            RiddenKinds::Nautiluses => vehicle == EntityKind::Nautilus || vehicle
                == EntityKind::ZombieNautilus,
        }
    }
}

/// The prey of mobs that hunt only while nobody owns them.
#[derive(Clone, Copy, PartialEq, Eq, Structural, Debug)]
pub enum NonTameKinds {
    Rabbits,
    BabyTurtlesOnLand,
    AxolotlPrey,
}

/// A goal and its priority.
#[derive(Clone, Copy, PartialEq, Eq, Structural, Debug)]
pub struct GoalEntry {
    pub priority: u8,
    pub goal: Goal,
}

/// The entry for a goal with a priority.
pub open spec fn entry(priority: u8, goal: Goal) -> GoalEntry {
    GoalEntry { priority, goal }
}

/// The entry for a goal with a priority.
pub fn goal(priority: u8, pursued: Goal) -> (e: GoalEntry)
    ensures
        e == entry(priority, pursued),
{
    GoalEntry { priority, goal: pursued }
}

/// Looking at a player within a range.
pub open spec fn look_at_player(range: u32) -> Goal {
    Goal::LookAt { kind: EntityKind::Player, range }
}

/// Looking at a player within a range.
pub fn watch_player(range: u32) -> (g: Goal)
    ensures
        g == look_at_player(range),
{
    Goal::LookAt { kind: EntityKind::Player, range }
}

/// Whom each rule lets a mob choose.
pub proof fn law_rules_of_targets(candidate: Candidate)
    ensures
        candidate.angry_at ==> TargetRule::AngryAt.allows(candidate),
        candidate.angry_at_all_players ==> TargetRule::AngryAt.allows(candidate),
        !candidate.angry_at && !candidate.angry_at_all_players ==> !TargetRule::AngryAt.allows(
            candidate,
        ),
        candidate.mob_is_baby <==> !TargetRule::MobIsAdult.allows(candidate),
        candidate.in_water || candidate.age >= 0 <==> !TargetRule::BabyTurtleOnLand.allows(candidate),
        candidate.tamed <==> !TargetRule::UntamedWolf.allows(candidate),
{
}

} // verus!
