//! Axolotls.

use vstd::prelude::*;

use crate::double::{is_less, less};
use crate::effect::{group_effects, Effect, SyncedValue};
use crate::goal::{
    entry, goal, look_at_player, watch_player, EntityKind, Goal, GoalEntry, NonTameKinds,
};
use crate::mob::MobEntity;
use crate::nbt::{int_at, NbtCompound, NbtValue};
use crate::random::roll;

verus! {

/// The square of the distance up to which an axolotl thanks a player, twenty blocks, by its bits.
pub const THANKS_SQUARED: u64 = 0x4079_0000_0000_0000;

/// How long a player who helped may stay healed by axolotls.
pub const MAX_REGENERATION: i32 = 2400;

/// The colour of an axolotl.
#[derive(Clone, Copy, PartialEq, Eq, Structural, Debug)]
pub enum AxolotlVariant {
    Lucy,
    Wild,
    Gold,
    Cyan,
    Blue,
}

/// The number of a colour.
pub open spec fn axolotl_id(variant: AxolotlVariant) -> i32 {
    match variant {
        AxolotlVariant::Lucy => 0,
        AxolotlVariant::Wild => 1,
        AxolotlVariant::Gold => 2,
        AxolotlVariant::Cyan => 3,
        AxolotlVariant::Blue => 4,
    }
}

/// The colour for a number. What is none is the first one.
pub open spec fn axolotl_of_id(id: i32) -> AxolotlVariant {
    match id {
        1 => AxolotlVariant::Wild,
        2 => AxolotlVariant::Gold,
        3 => AxolotlVariant::Cyan,
        4 => AxolotlVariant::Blue,
        _ => AxolotlVariant::Lucy,
    }
}

/// The colours of wild axolotls.
pub open spec fn common_variants() -> Seq<AxolotlVariant> {
    seq![
        AxolotlVariant::Lucy,
        AxolotlVariant::Wild,
        AxolotlVariant::Gold,
        AxolotlVariant::Cyan,
    ]
}

impl AxolotlVariant {
    pub const DEFAULT: AxolotlVariant = AxolotlVariant::Lucy;

    pub fn by_id(id: i32) -> (variant: Self)
        ensures
            variant == axolotl_of_id(id),
    {
        match id {
            1 => AxolotlVariant::Wild,
            2 => AxolotlVariant::Gold,
            3 => AxolotlVariant::Cyan,
            4 => AxolotlVariant::Blue,
            _ => AxolotlVariant::Lucy,
        }
    }

    pub fn id(self) -> (id: i32)
        ensures
            id == axolotl_id(self),
    {
        match self {
            AxolotlVariant::Lucy => 0,
            AxolotlVariant::Wild => 1,
            AxolotlVariant::Gold => 2,
            AxolotlVariant::Cyan => 3,
            AxolotlVariant::Blue => 4,
        }
    }
}

/// The number of a colour leads back to it.
pub proof fn law_axolotl_variant_round_trip(variant: AxolotlVariant)
    ensures
        axolotl_of_id(axolotl_id(variant)) == variant,
{
}

/// The prey of axolotls.
pub open spec fn axolotl_prey() -> Seq<EntityKind> {
    seq![
        EntityKind::Drowned,
        EntityKind::Guardian,
        EntityKind::ElderGuardian,
        EntityKind::TropicalFish,
        EntityKind::Pufferfish,
        EntityKind::Salmon,
        EntityKind::Cod,
        EntityKind::Squid,
        EntityKind::GlowSquid,
        EntityKind::Tadpole,
    ]
}

/// The prey of axolotls.
pub fn axolotl_target_types() -> (kinds: Vec<EntityKind>)
    ensures
        kinds@ == axolotl_prey(),
{
    vec![
        EntityKind::Drowned,
        EntityKind::Guardian,
        EntityKind::ElderGuardian,
        EntityKind::TropicalFish,
        EntityKind::Pufferfish,
        EntityKind::Salmon,
        EntityKind::Cod,
        EntityKind::Squid,
        EntityKind::GlowSquid,
        EntityKind::Tadpole,
    ]
}

/// Whether an axolotl attacks prey: only in water.
pub fn axolotl_attackable(touching_water: bool) -> (attackable: bool)
    ensures
        attackable == touching_water,
{
    touching_water
}

/// What an axolotl pursues.
pub open spec fn axolotl_goals() -> Seq<GoalEntry> {
    seq![
        entry(0, Goal::AxolotlPlayDead),
        entry(1, Goal::Swim),
        entry(2, Goal::MeleeAttack { speed: 1000, pause_when_idle: true }),
        entry(3, Goal::Wander { speed: 1000 }),
        entry(4, look_at_player(6000)),
        entry(5, Goal::LookAround),
    ]
}

/// Whom an axolotl attacks.
pub open spec fn axolotl_targets() -> Seq<GoalEntry> {
    seq![
        entry(
            1,
            Goal::NonTameTarget { prey: NonTameKinds::AxolotlPrey, check_visibility: false },
        ),
    ]
}

/// An axolotl.
pub struct AxolotlEntity {
    pub mob_entity: MobEntity,
    pub variant: i32,
}

/// How long a player's health comes back for, after an axolotl thanked for help.
pub open spec fn thanked_duration(existing: Option<i32>) -> Option<i32> {
    match existing {
        None => Some(100),
        Some(ticks) => if ticks < MAX_REGENERATION {
            Some(if 100 + ticks > MAX_REGENERATION { MAX_REGENERATION } else { (100 + ticks) as i32 })
        } else {
            None
        },
    }
}

/// What thanking a player asks of the host.
pub open spec fn thanks(existing: Option<i32>) -> Seq<Effect> {
    match thanked_duration(existing) {
        Some(ticks) => seq![Effect::GiveRegeneration(ticks), Effect::CureMiningFatigue],
        None => seq![Effect::CureMiningFatigue],
    }
}

/// What an axolotl sees of a target that it has hit.
#[derive(Clone, Copy)]
pub struct AxolotlVictim {
    /// Whether the target is a living being.
    pub living: bool,
    pub alive: bool,
    /// Whether a player hit the target last.
    pub hit_by_player: bool,
    /// The square of that player's distance, by its bits.
    pub distance_squared: u64,
    /// How long that player's health comes back for already, where it does.
    pub regeneration: Option<i32>,
}

/// Whether an axolotl thanks a player for helping with its prey.
pub open spec fn owes_thanks(victim: AxolotlVictim) -> bool {
    victim.living && !victim.alive && victim.hit_by_player && !less(
        THANKS_SQUARED,
        victim.distance_squared,
    )
}

impl AxolotlEntity {
    /// An axolotl of a colour.
    pub fn with_variant(age: i32, variant: AxolotlVariant) -> (axolotl: Self)
        ensures
            axolotl.mob_entity.fresh(age),
            axolotl.mob_entity.goals@ == axolotl_goals(),
            axolotl.mob_entity.targets@ == axolotl_targets(),
            axolotl.variant == axolotl_id(variant),
    {
        let goals = vec![
            goal(0, Goal::AxolotlPlayDead),
            goal(1, Goal::Swim),
            goal(2, Goal::MeleeAttack { speed: 1000, pause_when_idle: true }),
            goal(3, Goal::Wander { speed: 1000 }),
            goal(4, watch_player(6000)),
            goal(5, Goal::LookAround),
        ];
        let targets = vec![
            goal(
                1,
                Goal::NonTameTarget { prey: NonTameKinds::AxolotlPrey, check_visibility: false },
            ),
        ];
        AxolotlEntity {
            mob_entity: MobEntity::with_goals(age, goals, targets),
            variant: variant.id(),
        }
    }

    /// A new axolotl of one of the wild colours.
    pub fn new(age: i32) -> (axolotl: Self)
        ensures
            axolotl.mob_entity.fresh(age),
            axolotl.mob_entity.goals@ == axolotl_goals(),
            axolotl.mob_entity.targets@ == axolotl_targets(),
            exists|i: int|
                0 <= i < 4 && axolotl.variant == axolotl_id(#[trigger] common_variants()[i]),
    {
        let draw: i32 = roll(0, 4);
        let variant = if draw == 0 {
            AxolotlVariant::Lucy
        } else if draw == 1 {
            AxolotlVariant::Wild
        } else if draw == 2 {
            AxolotlVariant::Gold
        } else {
            AxolotlVariant::Cyan
        };
        assert(common_variants()[draw as int] == variant);
        Self::with_variant(age, variant)
    }

    pub fn variant(&self) -> (variant: AxolotlVariant)
        ensures
            variant == axolotl_of_id(self.variant),
    {
        AxolotlVariant::by_id(self.variant)
    }

    pub fn set_variant(&mut self, variant: AxolotlVariant, effects: &mut Vec<Effect>)
        ensures
            *final(self) == (AxolotlEntity { variant: axolotl_id(variant), ..*old(self) }),
            final(effects)@ == old(effects)@.push(
                Effect::Sync(SyncedValue::AxolotlVariant(axolotl_id(variant))),
            ),
    {
        self.variant = variant.id();
        effects.push(Effect::Sync(SyncedValue::AxolotlVariant(variant.id())));
    }

    /// Thanks a player: health comes back for longer, up to a limit, and weariness in mining
    /// ends.
    pub fn apply_supporting_effects(existing: Option<i32>, effects: &mut Vec<Effect>)
        ensures
            final(effects)@ == old(effects)@ + thanks(existing),
    {
        let should_apply = match existing {
            Some(ticks) => ticks <= MAX_REGENERATION - 1,
            None => true,
        };
        if should_apply {
            let previous: i32 = existing.unwrap_or(0);
            let duration: i32 = if 100 + previous > MAX_REGENERATION {
                MAX_REGENERATION
            } else {
                100 + previous
            };
            effects.push(Effect::GiveRegeneration(duration));
        }
        effects.push(Effect::CureMiningFatigue);
    }

    /// Thanks a player nearby who helped to kill the target that the axolotl has hit.
    pub fn on_successful_attack(&self, victim: &AxolotlVictim, effects: &mut Vec<Effect>)
        ensures
            final(effects)@ == old(effects)@ + (if owes_thanks(*victim) {
                thanks(victim.regeneration)
            } else {
                seq![]
            }),
    {
        if !victim.living {
            return ;
        }
        if victim.alive {
            return ;
        }
        if !victim.hit_by_player {
            return ;
        }
        if is_less(THANKS_SQUARED, victim.distance_squared) {
            return ;
        }
        Self::apply_supporting_effects(victim.regeneration, effects);
    }

    /// Tells clients about the axolotl when they first see it.
    pub fn mob_init_data_tracker(&self, effects: &mut Vec<Effect>)
        ensures
            final(effects)@ == old(effects)@.push(
                Effect::Sync(SyncedValue::AxolotlVariant(self.variant)),
            ),
    {
        effects.push(Effect::Sync(SyncedValue::AxolotlVariant(self.variant)));
    }

    /// Saves the axolotl.
    pub fn write_nbt(&self, nbt: &mut NbtCompound)
        ensures
            final(nbt)@ == axolotl_saved(old(nbt)@, *self),
    {
        nbt.put_int("Variant", self.variant);
    }

    /// Restores the axolotl.
    pub fn read_nbt(&mut self, nbt: &NbtCompound)
        ensures
            *final(self) == axolotl_restored(*old(self), nbt@),
    {
        let variant = match nbt.get_int("Variant") {
            Some(id) => AxolotlVariant::by_id(id),
            None => AxolotlVariant::DEFAULT,
        };
        self.variant = variant.id();
    }
}

/// What is saved of an axolotl.
pub open spec fn axolotl_saved(nbt: Map<Seq<char>, NbtValue>, axolotl: AxolotlEntity) -> Map<
    Seq<char>,
    NbtValue,
> {
    nbt.insert("Variant"@, NbtValue::Int(axolotl.variant))
}

/// An axolotl with its saved state restored.
pub open spec fn axolotl_restored(
    axolotl: AxolotlEntity,
    nbt: Map<Seq<char>, NbtValue>,
) -> AxolotlEntity {
    AxolotlEntity {
        variant: axolotl_id(
            match int_at(nbt, "Variant"@) {
                Some(id) => axolotl_of_id(id),
                None => AxolotlVariant::Lucy,
            },
        ),
        ..axolotl
    }
}

/// Restoring a saved axolotl gives back its colour.
pub proof fn law_axolotl_round_trip(
    nbt: Map<Seq<char>, NbtValue>,
    axolotl: AxolotlEntity,
    other: AxolotlEntity,
)
    ensures
        axolotl_of_id(axolotl_restored(other, axolotl_saved(nbt, axolotl)).variant)
            == axolotl_of_id(axolotl.variant),
{
}

/// No blue axolotl is wild.
pub proof fn law_blue_is_not_wild()
    ensures
        !common_variants().contains(AxolotlVariant::Blue),
{
}

/// Thanks never shorten the time for which a player's health comes back, nor lengthen it beyond
/// the limit.
pub proof fn law_thanks_are_bounded(existing: Option<i32>)
    ensures
        thanked_duration(existing) matches Some(ticks) ==> {
            &&& ticks <= MAX_REGENERATION
            &&& existing matches Some(before) ==> before < ticks
        },
{
}

/// The numbers of the colours of axolotls; an unknown number is that of the first one.
pub proof fn law_numbers_of_axolotls(variant: AxolotlVariant, id: i32)
    ensures
        axolotl_id(AxolotlVariant::Lucy) == 0,
        axolotl_id(AxolotlVariant::Wild) == 1,
        axolotl_id(AxolotlVariant::Gold) == 2,
        axolotl_id(AxolotlVariant::Cyan) == 3,
        axolotl_id(AxolotlVariant::Blue) == 4,
        id < 0 || id > 4 ==> axolotl_of_id(id) == AxolotlVariant::Lucy,
        variant != AxolotlVariant::Blue ==> common_variants().contains(variant),
        common_variants().len() == 4,
{
    let all = common_variants();
    assert(all[0] == AxolotlVariant::Lucy && all[1] == AxolotlVariant::Wild && all[2]
        == AxolotlVariant::Gold && all[3] == AxolotlVariant::Cyan);
}

/// A player whom an axolotl thanks regenerates for five seconds more, up to two minutes in all, and
/// is cured of mining fatigue; one who regenerates for as long already is only cured.
pub proof fn law_how_axolotls_thank(existing: Option<i32>, ticks: i32)
    ensures
        ({
            let given = thanks(existing);
            &&& given.contains(Effect::CureMiningFatigue)
            &&& existing is None ==> (given.contains(Effect::GiveRegeneration(ticks)) <==> ticks
                == 100)
            &&& existing is Some && existing->0 + 100 <= 2400 ==> (given.contains(
                Effect::GiveRegeneration(ticks),
            ) <==> ticks == existing->0 + 100)
            &&& existing is Some && 2300 < existing->0 < 2400 ==> (given.contains(
                Effect::GiveRegeneration(ticks),
            ) <==> ticks == 2400)
            &&& existing is Some && existing->0 >= 2400 ==> !given.contains(
                Effect::GiveRegeneration(ticks),
            )
        }),
{
    broadcast use group_effects;

    let given = thanks(existing);
    if thanked_duration(existing) is Some {
        assert(given[0] == Effect::GiveRegeneration(thanked_duration(existing)->0));
        assert(given[1] == Effect::CureMiningFatigue);
    }
}

/// What axolotls pursue, and how urgently: this and nothing else.
pub proof fn law_what_axolotls_pursue(e: GoalEntry)
    ensures
        axolotl_goals().contains(e) <==> {
            ||| e.priority == 0 && e.goal == Goal::AxolotlPlayDead
            ||| e.priority == 1 && e.goal == Goal::Swim
            ||| e.priority == 2 && e.goal == (Goal::MeleeAttack { speed: 1000, pause_when_idle: true })
            ||| e.priority == 3 && e.goal == (Goal::Wander { speed: 1000 })
            ||| e.priority == 4 && e.goal == (Goal::LookAt { kind: EntityKind::Player, range: 6000 })
            ||| e.priority == 5 && e.goal == Goal::LookAround
        },
        axolotl_goals().len() == 6,
{
    let all = axolotl_goals();
    assert(all[0] == (GoalEntry { priority: 0, goal: Goal::AxolotlPlayDead }));
    assert(all[1] == (GoalEntry { priority: 1, goal: Goal::Swim }));
    assert(all[2] == (GoalEntry { priority: 2, goal: Goal::MeleeAttack { speed: 1000, pause_when_idle: true } }));
    assert(all[3] == (GoalEntry { priority: 3, goal: Goal::Wander { speed: 1000 } }));
    assert(all[4] == (GoalEntry { priority: 4, goal: Goal::LookAt { kind: EntityKind::Player, range: 6000 } }));
    assert(all[5] == (GoalEntry { priority: 5, goal: Goal::LookAround }));
}

/// What axolotls go for, and how urgently: this and nothing else.
pub proof fn law_what_axolotls_go_for(e: GoalEntry)
    ensures
        axolotl_targets().contains(e) <==> {
            ||| e.priority == 1 && e.goal == (Goal::NonTameTarget { prey: NonTameKinds::AxolotlPrey, check_visibility: false })
        },
        axolotl_targets().len() == 1,
{
    let all = axolotl_targets();
    assert(all[0] == (GoalEntry { priority: 1, goal: Goal::NonTameTarget { prey: NonTameKinds::AxolotlPrey, check_visibility: false } }));
}

/// What axolotls hunt: this and nothing else.
pub proof fn law_what_axolotls_hunt(kind: EntityKind)
    ensures
        axolotl_prey().contains(kind) <==> {
            ||| kind == EntityKind::Drowned
            ||| kind == EntityKind::Guardian
            ||| kind == EntityKind::ElderGuardian
            ||| kind == EntityKind::TropicalFish
            ||| kind == EntityKind::Pufferfish
            ||| kind == EntityKind::Salmon
            ||| kind == EntityKind::Cod
            ||| kind == EntityKind::Squid
            ||| kind == EntityKind::GlowSquid
            ||| kind == EntityKind::Tadpole
        },
        axolotl_prey().len() == 10,
{
    let all = axolotl_prey();
    assert(all[0] == EntityKind::Drowned);
    assert(all[1] == EntityKind::Guardian);
    assert(all[2] == EntityKind::ElderGuardian);
    assert(all[3] == EntityKind::TropicalFish);
    assert(all[4] == EntityKind::Pufferfish);
    assert(all[5] == EntityKind::Salmon);
    assert(all[6] == EntityKind::Cod);
    assert(all[7] == EntityKind::Squid);
    assert(all[8] == EntityKind::GlowSquid);
    assert(all[9] == EntityKind::Tadpole);
}

/// An axolotl thanks a player who is near and hit what it has killed, and nobody else.
pub proof fn law_whom_axolotls_thank(victim: AxolotlVictim)
    ensures
        victim.alive ==> !owes_thanks(victim),
        !victim.living ==> !owes_thanks(victim),
        !victim.hit_by_player ==> !owes_thanks(victim),
        victim.living && !victim.alive && victim.hit_by_player ==> (owes_thanks(victim) <==> !less(
            0x4079_0000_0000_0000,
            victim.distance_squared,
        )),
{
}

} // verus!
