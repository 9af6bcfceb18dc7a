//! Foxes: sleeping, stalking, and whom they trust.

use vstd::prelude::*;

use crate::animal::{
    animal_interact, animal_restored, animal_saved, falls_in_love, fed, feeding_effects, grows,
    meal_outcome, read_animal_nbt, stack_after_meal, write_animal_nbt, Feeding,
};
use crate::effect::{Effect, Interaction, Sound, SyncedValue};
use crate::flags::{
    get_flag, has_flag, law_flag_leaves_others, law_flag_reads_back, set_flag, with_flag,
};
use crate::goal::{
    entry, goal, look_at_player, watch_player, AvoidRule, EntityKind, Goal, GoalEntry, TargetRule,
};
use crate::item::{diet_items, Diet, ItemStack, Player};
use crate::mob::{Dimensions, MobEntity};
use crate::nbt::{bool_at, bool_value, id_at, text_at, NbtCompound, NbtValue};
use crate::random::chance;
use crate::text::same_text;

verus! {

pub const FLAG_SITTING: u8 = 1;

pub const FLAG_CROUCHING: u8 = 4;

pub const FLAG_INTERESTED: u8 = 8;

pub const FLAG_POUNCING: u8 = 16;

pub const FLAG_SLEEPING: u8 = 32;

pub const FLAG_FACEPLANTED: u8 = 64;

pub const FLAG_DEFENDING: u8 = 128;

/// How long a fox takes to crouch down fully.
pub const FULLY_CROUCHED_TICKS: u8 = 25;

/// The number of a coat that is not known yet.
pub const VARIANT_UNSET: u8 = 2;

/// The slots for those whom a fox trusts, with one more put into the first free one, if there
/// is one.
pub open spec fn trust_filled(slots: Seq<Option<u128>>, id: u128) -> Seq<Option<u128>> {
    if slots[0] is None {
        slots.update(0, Some(id))
    } else if slots[1] is None {
        slots.update(1, Some(id))
    } else {
        slots
    }
}

/// Puts someone into the first free slot of two. With no free slot nobody is put aside.
pub fn fill_trust_slot(slots: [Option<u128>; 2], id: u128) -> (filled: [Option<u128>; 2])
    ensures
        filled@ == trust_filled(slots@, id),
{
    if slots[0].is_none() {
        let filled = [Some(id), slots[1]];
        assert(filled@ =~= trust_filled(slots@, id));
        filled
    } else if slots[1].is_none() {
        let filled = [slots[0], Some(id)];
        assert(filled@ =~= trust_filled(slots@, id));
        filled
    } else {
        slots
    }
}

/// Those whom a fox trusts stay trusted, whoever else comes; and while a slot is free, who
/// comes is trusted.
pub proof fn law_trust_is_never_displaced(slots: Seq<Option<u128>>, id: u128, trusted: u128)
    requires
        slots.len() == 2,
    ensures
        slots.contains(Some(trusted)) ==> trust_filled(slots, id).contains(Some(trusted)),
        slots.contains(None) ==> trust_filled(slots, id).contains(Some(id)),
        !slots.contains(None) ==> trust_filled(slots, id) == slots,
{
    let after = trust_filled(slots, id);
    if slots.contains(Some(trusted)) {
        let i = choose|i: int| 0 <= i < slots.len() && slots[i] == Some(trusted);
        assert(after[i] == Some(trusted));
    }
    if slots[0] is None {
        assert(after[0] == Some(id));
    } else if slots[1] is None {
        assert(after[1] == Some(id));
    }
}

/// The coat of a fox.
#[derive(Clone, Copy, PartialEq, Eq, Structural, Debug)]
pub enum FoxVariant {
    Red,
    Snow,
}

/// The number of a coat.
pub open spec fn fox_id(variant: FoxVariant) -> u8 {
    match variant {
        FoxVariant::Red => 0,
        FoxVariant::Snow => 1,
    }
}

/// The coat for a number.
pub open spec fn fox_of_id(id: u8) -> FoxVariant {
    if id == 1 {
        FoxVariant::Snow
    } else {
        FoxVariant::Red
    }
}

/// The name of a coat.
pub open spec fn fox_name(variant: FoxVariant) -> Seq<char> {
    match variant {
        FoxVariant::Red => "red"@,
        FoxVariant::Snow => "snow"@,
    }
}

/// The coat for a name.
pub open spec fn fox_of_name(name: Seq<char>) -> FoxVariant {
    if name == "snow"@ {
        FoxVariant::Snow
    } else {
        FoxVariant::Red
    }
}

impl FoxVariant {
    pub fn from_id(id: u8) -> (variant: Self)
        ensures
            variant == fox_of_id(id),
    {
        match id {
            1 => FoxVariant::Snow,
            _ => FoxVariant::Red,
        }
    }

    pub fn id(self) -> (id: u8)
        ensures
            id == fox_id(self),
    {
        match self {
            FoxVariant::Red => 0,
            FoxVariant::Snow => 1,
        }
    }

    pub fn name(self) -> (name: &'static str)
        ensures
            name@ == fox_name(self),
    {
        match self {
            FoxVariant::Red => "red",
            FoxVariant::Snow => "snow",
        }
    }

    pub fn from_name(name: &str) -> (variant: Self)
        ensures
            variant == fox_of_name(name@),
    {
        if same_text(name, "snow") {
            FoxVariant::Snow
        } else {
            FoxVariant::Red
        }
    }
}

/// The number and the name of a coat lead back to it.
pub proof fn law_fox_variant_round_trip(variant: FoxVariant)
    ensures
        fox_of_id(fox_id(variant)) == variant,
        fox_of_name(fox_name(variant)) == variant,
{
    reveal_strlit("red");
    reveal_strlit("snow");
    assert("red"@.len() != "snow"@.len());
}

/// A fox.
pub struct FoxEntity {
    pub mob_entity: MobEntity,
    pub flags: u8,
    pub variant: u8,
    pub crouch_ticks: u8,
    pub trusted: [Option<u128>; 2],
    pub target_goals_registered: bool,
}

/// Fleeing from a kind of entity.
pub open spec fn fox_avoids(kind: EntityKind, distance: u32, from: AvoidRule) -> Goal {
    Goal::Avoid { kind, distance, slow_speed: 1600, fast_speed: 1400, from }
}

/// What a fox pursues.
pub open spec fn fox_goals() -> Seq<GoalEntry> {
    seq![
        entry(0, Goal::Swim),
        entry(0, Goal::ClimbOnTopOfPowderSnow),
        entry(1, Goal::EscapeDanger { speed: 1500 }),
        entry(1, Goal::FoxFaceplant),
        entry(2, Goal::Breed { speed: 1000 }),
        entry(3, Goal::Tempt { speed: 1200, items: Diet::Fox, scared: false }),
        entry(4, Goal::FollowParent { speed: 1100 }),
        entry(4, fox_avoids(EntityKind::Player, 16000, AvoidRule::FoxPlayer)),
        entry(4, fox_avoids(EntityKind::Wolf, 8000, AvoidRule::FoxWolf)),
        entry(4, fox_avoids(EntityKind::PolarBear, 8000, AvoidRule::FoxPolarBear)),
        entry(5, Goal::FoxStalkPrey),
        entry(5, Goal::FoxPounce),
        entry(5, Goal::FoxMeleeAttack),
        entry(5, Goal::FoxSleep),
        entry(6, Goal::Wander { speed: 1000 }),
        entry(9, look_at_player(6000)),
        entry(10, Goal::LookAround),
    ]
}

/// Whom a fox hunts by its coat: a red one prefers prey on land, a white one fish.
pub open spec fn fox_prey(variant: FoxVariant) -> Seq<GoalEntry> {
    let land: u8 = if variant == FoxVariant::Red { 4 } else { 6 };
    let fish: u8 = if variant == FoxVariant::Red { 6 } else { 4 };
    seq![
        entry(land, Goal::SimpleTarget { kind: EntityKind::Chicken, check_visibility: false }),
        entry(land, Goal::SimpleTarget { kind: EntityKind::Rabbit, check_visibility: false }),
        entry(
            land,
            Goal::ActiveTarget {
                kind: EntityKind::Turtle,
                interval: 10,
                check_visibility: false,
                check_navigable: false,
                only: TargetRule::BabyTurtleOnLand,
            },
        ),
        entry(fish, Goal::SimpleTarget { kind: EntityKind::Cod, check_visibility: false }),
        entry(fish, Goal::SimpleTarget { kind: EntityKind::Salmon, check_visibility: false }),
    ]
}

/// The message that tells clients about the flags of a fox.
pub open spec fn fox_flags_sync(flags: u8) -> Effect {
    Effect::Sync(SyncedValue::FoxFlags(flags as i8))
}

/// What a fox sees of the world in one tick.
#[derive(Clone, Copy)]
pub struct FoxTick {
    pub has_target: bool,
    pub target_alive: bool,
    pub in_water: bool,
    pub thundering: bool,
}

/// What a fox may have become once it has nobody to hunt.
pub open spec fn fox_after_hunt(flags: u8, seen: FoxTick) -> u8 {
    if seen.target_alive {
        flags
    } else {
        let calm = with_flag(with_flag(flags, FLAG_CROUCHING, false), FLAG_INTERESTED, false);
        if has_flag(calm, FLAG_DEFENDING) {
            with_flag(calm, FLAG_DEFENDING, false)
        } else {
            calm
        }
    }
}

/// What losing its prey makes a fox tell the clients.
pub open spec fn fox_hunt_effects(flags: u8, seen: FoxTick) -> Seq<Effect> {
    if seen.target_alive {
        seq![]
    } else {
        let stood = with_flag(flags, FLAG_CROUCHING, false);
        let calm = with_flag(stood, FLAG_INTERESTED, false);
        let first = seq![fox_flags_sync(stood), fox_flags_sync(calm)];
        if has_flag(calm, FLAG_DEFENDING) {
            first.push(fox_flags_sync(with_flag(calm, FLAG_DEFENDING, false)))
        } else {
            first
        }
    }
}

/// Whether something wakes a fox.
pub open spec fn fox_wakes(seen: FoxTick) -> bool {
    seen.in_water || seen.has_target || seen.thundering
}

/// The flags of a fox once it is awake if something woke it.
pub open spec fn fox_after_waking(flags: u8, seen: FoxTick) -> u8 {
    let hunted = fox_after_hunt(flags, seen);
    if fox_wakes(seen) {
        with_flag(hunted, FLAG_SLEEPING, false)
    } else {
        hunted
    }
}

/// Whether a fox does not stay sitting.
pub open spec fn fox_rises(flags: u8, seen: FoxTick) -> bool {
    seen.in_water || has_flag(fox_after_waking(flags, seen), FLAG_SLEEPING)
}

/// The flags of a fox after one tick.
pub open spec fn fox_flags_ticked(flags: u8, seen: FoxTick) -> u8 {
    let awake = fox_after_waking(flags, seen);
    if fox_rises(flags, seen) {
        with_flag(awake, FLAG_SITTING, false)
    } else {
        awake
    }
}

/// What a tick of a fox tells the clients.
pub open spec fn fox_tick_effects(flags: u8, seen: FoxTick) -> Seq<Effect> {
    let waking = if fox_wakes(seen) {
        seq![fox_flags_sync(fox_after_waking(flags, seen))]
    } else {
        seq![]
    };
    let rising = if fox_rises(flags, seen) {
        seq![fox_flags_sync(fox_flags_ticked(flags, seen))]
    } else {
        seq![]
    };
    fox_hunt_effects(flags, seen) + waking + rising
}

/// How long a fox has been crouching after one more tick.
pub open spec fn crouch_counted(ticks: u8, crouching: bool) -> u8 {
    if !crouching {
        0
    } else if ticks < FULLY_CROUCHED_TICKS {
        (ticks + 1) as u8
    } else {
        ticks
    }
}

/// The flags of a fox that has forgotten what it was doing.
pub open spec fn fox_cleared(flags: u8) -> u8 {
    with_flag(
        with_flag(
            with_flag(
                with_flag(
                    with_flag(with_flag(flags, FLAG_INTERESTED, false), FLAG_CROUCHING, false),
                    FLAG_SITTING,
                    false,
                ),
                FLAG_SLEEPING,
                false,
            ),
            FLAG_DEFENDING,
            false,
        ),
        FLAG_FACEPLANTED,
        false,
    )
}

/// What forgetting tells the clients and the host.
pub open spec fn fox_cleared_effects(flags: u8) -> Seq<Effect> {
    let f1 = with_flag(flags, FLAG_INTERESTED, false);
    let f2 = with_flag(f1, FLAG_CROUCHING, false);
    let f3 = with_flag(f2, FLAG_SITTING, false);
    let f4 = with_flag(f3, FLAG_SLEEPING, false);
    let f5 = with_flag(f4, FLAG_DEFENDING, false);
    let f6 = with_flag(f5, FLAG_FACEPLANTED, false);
    seq![
        fox_flags_sync(f1),
        fox_flags_sync(f2),
        fox_flags_sync(f3),
        fox_flags_sync(f4),
        fox_flags_sync(f5),
        fox_flags_sync(f6),
        Effect::SetJumping(false),
    ]
}

/// A fox that forgets what it was doing forgets all of it but a pounce.
pub proof fn law_clearing_leaves_only_the_pounce(flags: u8)
    ensures
        !has_flag(fox_cleared(flags), FLAG_SITTING),
        !has_flag(fox_cleared(flags), FLAG_CROUCHING),
        !has_flag(fox_cleared(flags), FLAG_INTERESTED),
        !has_flag(fox_cleared(flags), FLAG_SLEEPING),
        !has_flag(fox_cleared(flags), FLAG_FACEPLANTED),
        !has_flag(fox_cleared(flags), FLAG_DEFENDING),
        has_flag(fox_cleared(flags), FLAG_POUNCING) == has_flag(flags, FLAG_POUNCING),
{
    let after = fox_cleared(flags);
    assert((((((flags & !8u8) & !4u8) & !1u8) & !32u8) & !128u8) & !64u8 == flags & 18u8)
        by (bit_vector);
    assert((flags & 18u8) & 1u8 == 0 && (flags & 18u8) & 4u8 == 0 && (flags & 18u8) & 8u8 == 0 && (
    flags & 18u8) & 32u8 == 0 && (flags & 18u8) & 64u8 == 0 && (flags & 18u8) & 128u8 == 0 && (flags
        & 18u8) & 16u8 == flags & 16u8) by (bit_vector);
}

/// A sleeping fox does not sit, and one in the water does neither, after any tick.
pub proof fn law_sleeping_fox_does_not_sit(flags: u8, seen: FoxTick)
    ensures
        has_flag(fox_flags_ticked(flags, seen), FLAG_SLEEPING) ==> !has_flag(
            fox_flags_ticked(flags, seen),
            FLAG_SITTING,
        ),
        seen.in_water ==> !has_flag(fox_flags_ticked(flags, seen), FLAG_SLEEPING) && !has_flag(
            fox_flags_ticked(flags, seen),
            FLAG_SITTING,
        ),
{
    let awake = fox_after_waking(flags, seen);
    let hunted = fox_after_hunt(flags, seen);
    assert(FLAG_SITTING & FLAG_SLEEPING == 0) by {
        assert(1u8 & 32u8 == 0) by (bit_vector);
    }
    law_flag_reads_back(hunted, FLAG_SLEEPING, false);
    law_flag_reads_back(awake, FLAG_SITTING, false);
    law_flag_leaves_others(awake, FLAG_SITTING, FLAG_SLEEPING, false);
}

/// What a fox makes of a player who comes near.
#[derive(Clone, Copy)]
pub struct NearbyPlayer {
    pub id: u128,
    pub sneaking: bool,
    pub creative: bool,
    pub spectator: bool,
}

/// Whether a fox runs from a player.
pub open spec fn runs_from_player(fox: FoxEntity, player: NearbyPlayer) -> bool {
    !has_flag(fox.flags, FLAG_DEFENDING) && !fox.trusted@.contains(Some(player.id))
        && !player.sneaking && !player.creative && !player.spectator
}

/// Whether a fox runs from a wolf.
pub open spec fn runs_from_wolf(fox: FoxEntity, wolf_tamed: bool) -> bool {
    !has_flag(fox.flags, FLAG_DEFENDING) && !wolf_tamed
}

/// The coat of a fox when it appears.
pub open spec fn first_coat_of_fox(variant: u8, snowy: bool) -> FoxVariant {
    if variant == VARIANT_UNSET {
        if snowy {
            FoxVariant::Snow
        } else {
            FoxVariant::Red
        }
    } else {
        fox_of_id(variant)
    }
}

impl FoxEntity {
    /// A new fox whose coat is not known yet.
    pub fn new(age: i32) -> (fox: Self)
        ensures
            fox.mob_entity.fresh(age),
            fox.mob_entity.goals@ == fox_goals(),
            fox.mob_entity.targets@ == seq![entry(3, Goal::DefendTrusted)],
            fox.flags == 0,
            fox.variant == VARIANT_UNSET,
            fox.crouch_ticks == 0,
            fox.trusted@ == seq![None::<u128>, None::<u128>],
            !fox.target_goals_registered,
    {
        let goals = vec![
            goal(0, Goal::Swim),
            goal(0, Goal::ClimbOnTopOfPowderSnow),
            goal(1, Goal::EscapeDanger { speed: 1500 }),
            goal(1, Goal::FoxFaceplant),
            goal(2, Goal::Breed { speed: 1000 }),
            goal(3, Goal::Tempt { speed: 1200, items: Diet::Fox, scared: false }),
            goal(4, Goal::FollowParent { speed: 1100 }),
            goal(
                4,
                Goal::Avoid {
                    kind: EntityKind::Player,
                    distance: 16000,
                    slow_speed: 1600,
                    fast_speed: 1400,
                    from: AvoidRule::FoxPlayer,
                },
            ),
            goal(
                4,
                Goal::Avoid {
                    kind: EntityKind::Wolf,
                    distance: 8000,
                    slow_speed: 1600,
                    fast_speed: 1400,
                    from: AvoidRule::FoxWolf,
                },
            ),
            goal(
                4,
                Goal::Avoid {
                    kind: EntityKind::PolarBear,
                    distance: 8000,
                    slow_speed: 1600,
                    fast_speed: 1400,
                    from: AvoidRule::FoxPolarBear,
                },
            ),
            goal(5, Goal::FoxStalkPrey),
            goal(5, Goal::FoxPounce),
            goal(5, Goal::FoxMeleeAttack),
            goal(5, Goal::FoxSleep),
            goal(6, Goal::Wander { speed: 1000 }),
            goal(9, watch_player(6000)),
            goal(10, Goal::LookAround),
        ];
        let targets = vec![goal(3, Goal::DefendTrusted)];
        let fox = FoxEntity {
            mob_entity: MobEntity::with_goals(age, goals, targets),
            flags: 0,
            variant: VARIANT_UNSET,
            crouch_ticks: 0,
            trusted: [None, None],
            target_goals_registered: false,
        };
        assert(fox.trusted@ =~= seq![None::<u128>, None::<u128>]);
        fox
    }

    /// Whether a fox flees from a player: one it does not trust, who does not sneak, and whom it
    /// could be hurt by, and only while it defends nobody.
    pub fn avoids_player(&self, player: &NearbyPlayer) -> (avoids: bool)
        ensures
            avoids == runs_from_player(*self, *player),
    {
        if self.is_defending() {
            return false;
        }
        if self.trusts(player.id) {
            return false;
        }
        !player.sneaking && !player.creative && !player.spectator
    }

    /// Whether a fox flees from a wolf.
    pub fn avoids_wolf(&self, wolf_tamed: bool) -> (avoids: bool)
        ensures
            avoids == runs_from_wolf(*self, wolf_tamed),
    {
        !self.is_defending() && !wolf_tamed
    }

    /// Whether a fox flees from a polar bear.
    pub fn avoids_polar_bear(&self) -> (avoids: bool)
        ensures
            avoids == !has_flag(self.flags, FLAG_DEFENDING),
    {
        !self.is_defending()
    }

    /// Adds whom the fox hunts by its coat.
    pub fn register_target_goals(&mut self, variant: FoxVariant)
        ensures
            final(self).mob_entity.targets@ == old(self).mob_entity.targets@ + fox_prey(variant),
            *final(self) == (FoxEntity {
                mob_entity: MobEntity {
                    targets: final(self).mob_entity.targets,
                    ..old(self).mob_entity
                },
                ..*old(self)
            }),
    {
        let land: u8 = match variant {
            FoxVariant::Red => 4,
            FoxVariant::Snow => 6,
        };
        let fish: u8 = match variant {
            FoxVariant::Red => 6,
            FoxVariant::Snow => 4,
        };
        self.mob_entity.targets.push(
            goal(land, Goal::SimpleTarget { kind: EntityKind::Chicken, check_visibility: false }),
        );
        self.mob_entity.targets.push(
            goal(land, Goal::SimpleTarget { kind: EntityKind::Rabbit, check_visibility: false }),
        );
        self.mob_entity.targets.push(
            goal(
                land,
                Goal::ActiveTarget {
                    kind: EntityKind::Turtle,
                    interval: 10,
                    check_visibility: false,
                    check_navigable: false,
                    only: TargetRule::BabyTurtleOnLand,
                },
            ),
        );
        self.mob_entity.targets.push(
            goal(fish, Goal::SimpleTarget { kind: EntityKind::Cod, check_visibility: false }),
        );
        self.mob_entity.targets.push(
            goal(fish, Goal::SimpleTarget { kind: EntityKind::Salmon, check_visibility: false }),
        );
    }

    fn set_flag(&mut self, flag: u8, value: bool, effects: &mut Vec<Effect>)
        ensures
            *final(self) == (FoxEntity {
                flags: with_flag(old(self).flags, flag, value),
                ..*old(self)
            }),
            final(effects)@ == old(effects)@.push(
                fox_flags_sync(with_flag(old(self).flags, flag, value)),
            ),
    {
        self.flags = set_flag(self.flags, flag, value);
        effects.push(Effect::Sync(SyncedValue::FoxFlags(self.flags as i8)));
    }

    pub fn is_sitting(&self) -> (set: bool)
        ensures
            set == has_flag(self.flags, FLAG_SITTING),
    {
        get_flag(self.flags, FLAG_SITTING)
    }

    pub fn set_sitting(&mut self, value: bool, effects: &mut Vec<Effect>)
        ensures
            *final(self) == (FoxEntity {
                flags: with_flag(old(self).flags, FLAG_SITTING, value),
                ..*old(self)
            }),
            final(effects)@ == old(effects)@.push(
                fox_flags_sync(with_flag(old(self).flags, FLAG_SITTING, value)),
            ),
    {
        self.set_flag(FLAG_SITTING, value, effects);
    }

    pub fn is_crouching(&self) -> (set: bool)
        ensures
            set == has_flag(self.flags, FLAG_CROUCHING),
    {
        get_flag(self.flags, FLAG_CROUCHING)
    }

    pub fn set_is_crouching(&mut self, value: bool, effects: &mut Vec<Effect>)
        ensures
            *final(self) == (FoxEntity {
                flags: with_flag(old(self).flags, FLAG_CROUCHING, value),
                ..*old(self)
            }),
            final(effects)@ == old(effects)@.push(
                fox_flags_sync(with_flag(old(self).flags, FLAG_CROUCHING, value)),
            ),
    {
        self.set_flag(FLAG_CROUCHING, value, effects);
    }

    pub fn is_interested(&self) -> (set: bool)
        ensures
            set == has_flag(self.flags, FLAG_INTERESTED),
    {
        get_flag(self.flags, FLAG_INTERESTED)
    }

    pub fn set_is_interested(&mut self, value: bool, effects: &mut Vec<Effect>)
        ensures
            *final(self) == (FoxEntity {
                flags: with_flag(old(self).flags, FLAG_INTERESTED, value),
                ..*old(self)
            }),
            final(effects)@ == old(effects)@.push(
                fox_flags_sync(with_flag(old(self).flags, FLAG_INTERESTED, value)),
            ),
    {
        self.set_flag(FLAG_INTERESTED, value, effects);
    }

    pub fn is_pouncing(&self) -> (set: bool)
        ensures
            set == has_flag(self.flags, FLAG_POUNCING),
    {
        get_flag(self.flags, FLAG_POUNCING)
    }

    pub fn set_is_pouncing(&mut self, value: bool, effects: &mut Vec<Effect>)
        ensures
            *final(self) == (FoxEntity {
                flags: with_flag(old(self).flags, FLAG_POUNCING, value),
                ..*old(self)
            }),
            final(effects)@ == old(effects)@.push(
                fox_flags_sync(with_flag(old(self).flags, FLAG_POUNCING, value)),
            ),
    {
        self.set_flag(FLAG_POUNCING, value, effects);
    }

    pub fn set_jumping(&self, jumping: bool, effects: &mut Vec<Effect>)
        ensures
            final(effects)@ == old(effects)@.push(Effect::SetJumping(jumping)),
    {
        effects.push(Effect::SetJumping(jumping));
    }

    pub fn is_sleeping(&self) -> (set: bool)
        ensures
            set == has_flag(self.flags, FLAG_SLEEPING),
    {
        get_flag(self.flags, FLAG_SLEEPING)
    }

    pub fn set_sleeping(&mut self, value: bool, effects: &mut Vec<Effect>)
        ensures
            *final(self) == (FoxEntity {
                flags: with_flag(old(self).flags, FLAG_SLEEPING, value),
                ..*old(self)
            }),
            final(effects)@ == old(effects)@.push(
                fox_flags_sync(with_flag(old(self).flags, FLAG_SLEEPING, value)),
            ),
    {
        self.set_flag(FLAG_SLEEPING, value, effects);
    }

    pub fn is_faceplanted(&self) -> (set: bool)
        ensures
            set == has_flag(self.flags, FLAG_FACEPLANTED),
    {
        get_flag(self.flags, FLAG_FACEPLANTED)
    }

    pub fn set_faceplanted(&mut self, value: bool, effects: &mut Vec<Effect>)
        ensures
            *final(self) == (FoxEntity {
                flags: with_flag(old(self).flags, FLAG_FACEPLANTED, value),
                ..*old(self)
            }),
            final(effects)@ == old(effects)@.push(
                fox_flags_sync(with_flag(old(self).flags, FLAG_FACEPLANTED, value)),
            ),
    {
        self.set_flag(FLAG_FACEPLANTED, value, effects);
    }

    pub fn is_defending(&self) -> (set: bool)
        ensures
            set == has_flag(self.flags, FLAG_DEFENDING),
    {
        get_flag(self.flags, FLAG_DEFENDING)
    }

    pub fn set_defending(&mut self, value: bool, effects: &mut Vec<Effect>)
        ensures
            *final(self) == (FoxEntity {
                flags: with_flag(old(self).flags, FLAG_DEFENDING, value),
                ..*old(self)
            }),
            final(effects)@ == old(effects)@.push(
                fox_flags_sync(with_flag(old(self).flags, FLAG_DEFENDING, value)),
            ),
    {
        self.set_flag(FLAG_DEFENDING, value, effects);
    }

    /// Makes the fox forget what it was doing, but for a pounce.
    pub fn clear_states(&mut self, effects: &mut Vec<Effect>)
        ensures
            *final(self) == (FoxEntity { flags: fox_cleared(old(self).flags), ..*old(self) }),
            final(effects)@ == old(effects)@ + fox_cleared_effects(old(self).flags),
    {
        self.set_is_interested(false, effects);
        self.set_is_crouching(false, effects);
        self.set_sitting(false, effects);
        self.set_sleeping(false, effects);
        self.set_defending(false, effects);
        self.set_faceplanted(false, effects);
        self.set_jumping(false, effects);
    }

    pub fn wake_up(&mut self, effects: &mut Vec<Effect>)
        ensures
            *final(self) == (FoxEntity {
                flags: with_flag(old(self).flags, FLAG_SLEEPING, false),
                ..*old(self)
            }),
            final(effects)@ == old(effects)@.push(
                fox_flags_sync(with_flag(old(self).flags, FLAG_SLEEPING, false)),
            ),
    {
        self.set_sleeping(false, effects);
    }

    pub fn is_fully_crouched(&self) -> (fully: bool)
        ensures
            fully == (self.crouch_ticks >= FULLY_CROUCHED_TICKS),
    {
        self.crouch_ticks >= FULLY_CROUCHED_TICKS
    }

    pub fn variant(&self) -> (variant: FoxVariant)
        ensures
            variant == fox_of_id(self.variant),
    {
        FoxVariant::from_id(self.variant)
    }

    pub fn set_variant(&mut self, variant: FoxVariant, effects: &mut Vec<Effect>)
        ensures
            *final(self) == (FoxEntity { variant: fox_id(variant), ..*old(self) }),
            final(effects)@ == old(effects)@.push(fox_variant_sync(variant)),
    {
        self.variant = variant.id();
        effects.push(Effect::Sync(SyncedValue::FoxVariant(variant.id() as i32)));
    }

    pub fn trusts(&self, id: u128) -> (trusts: bool)
        ensures
            trusts == self.trusted@.contains(Some(id)),
    {
        let first = match self.trusted[0] {
            Some(t) => t == id,
            None => false,
        };
        let second = match self.trusted[1] {
            Some(t) => t == id,
            None => false,
        };
        proof {
            if first {
                assert(self.trusted@[0] == Some(id));
            }
            if second {
                assert(self.trusted@[1] == Some(id));
            }
        }
        first || second
    }

    /// Makes the fox trust someone, while it has a slot for that.
    pub fn add_trusted_entity(&mut self, id: u128)
        ensures
            final(self).trusted@ == trust_filled(old(self).trusted@, id),
            *final(self) == (FoxEntity { trusted: final(self).trusted, ..*old(self) }),
    {
        self.trusted = fill_trust_slot(self.trusted, id);
    }

    pub fn clear_trusted(&mut self)
        ensures
            final(self).trusted@ == seq![None::<u128>, None::<u128>],
            *final(self) == (FoxEntity { trusted: final(self).trusted, ..*old(self) }),
    {
        self.trusted = [None, None];
        assert(self.trusted@ =~= seq![None::<u128>, None::<u128>]);
    }

    /// Those whom the fox trusts, in the order of their slots.
    pub fn trusted_uuids(&self) -> (ids: Vec<u128>)
        ensures
            ids@ == trusted_ids(self.trusted@),
    {
        let mut ids: Vec<u128> = Vec::new();
        if let Some(id) = self.trusted[0] {
            ids.push(id);
        }
        if let Some(id) = self.trusted[1] {
            ids.push(id);
        }
        ids
    }

    /// The size of a baby.
    pub fn baby_dimensions(&self) -> (size: Dimensions)
        ensures
            size == (Dimensions { width: 36000, height: 42000, eye_height: 34375 }),
    {
        Dimensions { width: 36000, height: 42000, eye_height: 34375 }
    }

    /// Whether an item is food for the fox.
    pub fn is_food(&self, stack: &ItemStack) -> (food: bool)
        ensures
            food == diet_items(Diet::Fox).contains(stack.item),
    {
        Diet::Fox.contains(stack.item)
    }

    /// Lets a player feed the fox.
    pub fn mob_interact(
        &mut self,
        breeding_ready: bool,
        player: &Player,
        stack: &mut ItemStack,
        effects: &mut Vec<Effect>,
    ) -> (outcome: Interaction)
        requires
            grows(
                old(self).mob_entity,
                fox_feeding(diet_items(Diet::Fox).contains(old(stack).item), breeding_ready),
            ) ==> old(self).mob_entity.age > i32::MIN,
        ensures
            ({
                let feeding = fox_feeding(
                    diet_items(Diet::Fox).contains(old(stack).item),
                    breeding_ready,
                );
                let mob = old(self).mob_entity;
                &&& *final(self) == (FoxEntity {
                    mob_entity: fed(mob, feeding, *player),
                    ..*old(self)
                })
                &&& final(effects)@ == old(effects)@ + feeding_effects(mob, feeding)
                &&& outcome == meal_outcome(mob, feeding)
                &&& *final(stack) == stack_after_meal(
                    mob,
                    feeding,
                    *old(stack),
                    player.gamemode,
                )
            }),
    {
        let food = self.is_food(stack);
        let feeding = Feeding { food, breeding_ready, can_age_up: true, sound: Sound::FoxAmbient };
        animal_interact(&mut self.mob_entity, feeding, player, stack, effects)
    }

    /// Tells clients about the fox when they first see it. A fox without a coat gets one by
    /// whether white foxes live around it, and every fox learns whom to hunt, once.
    pub fn mob_init_data_tracker(&mut self, snowy: bool, effects: &mut Vec<Effect>)
        ensures
            ({
                let variant = first_coat_of_fox(old(self).variant, snowy);
                &&& final(effects)@ == old(effects)@ + seq![
                    fox_variant_sync(variant),
                    fox_flags_sync(old(self).flags),
                ]
                &&& final(self).mob_entity.targets@ == (if old(self).target_goals_registered {
                    old(self).mob_entity.targets@
                } else {
                    old(self).mob_entity.targets@ + fox_prey(variant)
                })
                &&& *final(self) == (FoxEntity {
                    mob_entity: MobEntity {
                        targets: final(self).mob_entity.targets,
                        ..old(self).mob_entity
                    },
                    variant: fox_id(variant),
                    target_goals_registered: true,
                    ..*old(self)
                })
            }),
    {
        if self.variant == VARIANT_UNSET {
            let variant = if snowy { FoxVariant::Snow } else { FoxVariant::Red };
            self.set_variant(variant, effects);
        } else {
            let variant = self.variant();
            self.set_variant(variant, effects);
        }
        effects.push(Effect::Sync(SyncedValue::FoxFlags(self.flags as i8)));
        if !self.target_goals_registered {
            self.target_goals_registered = true;
            let variant = self.variant();
            self.register_target_goals(variant);
        }
    }

    /// One tick.
    pub fn mob_tick(&mut self, seen: &FoxTick, effects: &mut Vec<Effect>)
        ensures
            *final(self) == (FoxEntity {
                flags: fox_flags_ticked(old(self).flags, *seen),
                crouch_ticks: crouch_counted(
                    old(self).crouch_ticks,
                    has_flag(fox_flags_ticked(old(self).flags, *seen), FLAG_CROUCHING),
                ),
                ..*old(self)
            }),
            final(effects)@ == old(effects)@ + fox_tick_effects(old(self).flags, *seen),
    {
        if !seen.target_alive {
            self.set_is_crouching(false, effects);
            self.set_is_interested(false, effects);
            if self.is_defending() {
                self.set_defending(false, effects);
            }
        }
        if seen.in_water || seen.has_target || seen.thundering {
            self.wake_up(effects);
        }
        if seen.in_water || self.is_sleeping() {
            self.set_sitting(false, effects);
        }
        if self.is_crouching() {
            if self.crouch_ticks < FULLY_CROUCHED_TICKS {
                self.crouch_ticks = self.crouch_ticks + 1;
            }
        } else {
            self.crouch_ticks = 0;
        }
    }

    /// Makes a cub take after its parents: it has the coat of one of them, which
    /// `after_first` picks, and it trusts those who brought them together.
    pub fn inherit(
        &mut self,
        first: &FoxEntity,
        mate_variant: Option<FoxVariant>,
        mate_breeder: Option<u128>,
        after_first: bool,
        effects: &mut Vec<Effect>,
    )
        ensures
            ({
                let coat = inherited_coat(first.variant, mate_variant, after_first);
                &&& final(self).trusted@ == inherited_trust(
                    old(self).trusted@,
                    first.mob_entity.breeder,
                    mate_breeder,
                )
                &&& *final(self) == (FoxEntity {
                    variant: fox_id(coat),
                    trusted: final(self).trusted,
                    ..*old(self)
                })
                &&& final(effects)@ == old(effects)@.push(fox_variant_sync(coat))
            }),
    {
        let variant = if after_first {
            first.variant()
        } else {
            match mate_variant {
                Some(v) => v,
                None => first.variant(),
            }
        };
        self.set_variant(variant, effects);
        let first_breeder = first.mob_entity.breeder;
        if let Some(id) = first_breeder {
            self.add_trusted_entity(id);
        }
        if let Some(id) = mate_breeder {
            let same = match first_breeder {
                Some(other) => other == id,
                None => false,
            };
            if !same {
                self.add_trusted_entity(id);
            }
        }
    }

    /// Makes a cub take after its parents, with the coat of either.
    pub fn create_offspring(
        &mut self,
        first: &FoxEntity,
        mate_variant: Option<FoxVariant>,
        mate_breeder: Option<u128>,
        effects: &mut Vec<Effect>,
    )
        ensures
            final(self).trusted@ == inherited_trust(
                old(self).trusted@,
                first.mob_entity.breeder,
                mate_breeder,
            ),
            exists|after_first: bool|
                {
                    let coat = #[trigger] inherited_coat(first.variant, mate_variant, after_first);
                    &&& *final(self) == (FoxEntity {
                        variant: fox_id(coat),
                        trusted: final(self).trusted,
                        ..*old(self)
                    })
                    &&& final(effects)@ == old(effects)@.push(fox_variant_sync(coat))
                },
    {
        let after_first = chance(1, 2);
        self.inherit(first, mate_variant, mate_breeder, after_first, effects);
    }

    /// Saves the fox.
    pub fn write_nbt(&self, nbt: &mut NbtCompound)
        ensures
            final(nbt)@ == fox_saved(old(nbt)@, *self),
    {
        write_animal_nbt(&self.mob_entity, nbt);
        nbt.put_bool("Sleeping", self.is_sleeping());
        nbt.put_string("Type", self.variant().name());
        nbt.put_bool("Sitting", self.is_sitting());
        nbt.put_bool("Crouching", self.is_crouching());
        if let Some(id) = self.trusted[0] {
            nbt.put_id("TrustedUuid0", id);
        }
        if let Some(id) = self.trusted[1] {
            nbt.put_id("TrustedUuid1", id);
        }
    }

    /// Restores the fox.
    pub fn read_nbt(&mut self, nbt: &NbtCompound, effects: &mut Vec<Effect>)
        ensures
            final(self).trusted@ == restored_trust(nbt@),
            *final(self) == (FoxEntity {
                mob_entity: animal_restored(old(self).mob_entity, nbt@),
                flags: fox_restored_flags(old(self).flags, nbt@),
                variant: fox_id(restored_coat(nbt@)),
                trusted: final(self).trusted,
                ..*old(self)
            }),
            final(effects)@ == old(effects)@ + fox_restore_effects(old(self).flags, nbt@),
    {
        read_animal_nbt(&mut self.mob_entity, nbt);
        self.set_sleeping(nbt.get_bool("Sleeping").unwrap_or(false), effects);
        let variant = match nbt.get_string("Type") {
            Some(name) => FoxVariant::from_name(name),
            None => FoxVariant::Red,
        };
        self.set_variant(variant, effects);
        self.set_sitting(nbt.get_bool("Sitting").unwrap_or(false), effects);
        self.set_is_crouching(nbt.get_bool("Crouching").unwrap_or(false), effects);
        self.clear_trusted();
        if let Some(id) = nbt.get_id("TrustedUuid0") {
            self.add_trusted_entity(id);
        }
        if let Some(id) = nbt.get_id("TrustedUuid1") {
            self.add_trusted_entity(id);
        }
    }
}

/// How a fox takes food.
pub open spec fn fox_feeding(food: bool, breeding_ready: bool) -> Feeding {
    Feeding { food, breeding_ready, can_age_up: true, sound: Sound::FoxAmbient }
}

/// The message that tells clients about the coat of a fox.
pub open spec fn fox_variant_sync(variant: FoxVariant) -> Effect {
    Effect::Sync(SyncedValue::FoxVariant(fox_id(variant) as i32))
}

/// Those in the slots, in order.
pub open spec fn trusted_ids(slots: Seq<Option<u128>>) -> Seq<u128> {
    let first = match slots[0] {
        Some(id) => seq![id],
        None => seq![],
    };
    match slots[1] {
        Some(id) => first.push(id),
        None => first,
    }
}

/// The coat of a cub.
pub open spec fn inherited_coat(
    first: u8,
    mate_variant: Option<FoxVariant>,
    after_first: bool,
) -> FoxVariant {
    match mate_variant {
        Some(v) if !after_first => v,
        _ => fox_of_id(first),
    }
}

/// Whom a cub trusts: those who fed its parents, each once.
pub open spec fn inherited_trust(
    slots: Seq<Option<u128>>,
    first_breeder: Option<u128>,
    mate_breeder: Option<u128>,
) -> Seq<Option<u128>> {
    let with_first = match first_breeder {
        Some(id) => trust_filled(slots, id),
        None => slots,
    };
    match mate_breeder {
        Some(id) if first_breeder != Some(id) => trust_filled(with_first, id),
        _ => with_first,
    }
}

/// What is saved of a fox.
pub open spec fn fox_saved(nbt: Map<Seq<char>, NbtValue>, fox: FoxEntity) -> Map<
    Seq<char>,
    NbtValue,
> {
    let base = animal_saved(nbt, fox.mob_entity).insert(
        "Sleeping"@,
        bool_value(has_flag(fox.flags, FLAG_SLEEPING)),
    ).insert("Type"@, NbtValue::Text(fox_name(fox_of_id(fox.variant)))).insert(
        "Sitting"@,
        bool_value(has_flag(fox.flags, FLAG_SITTING)),
    ).insert("Crouching"@, bool_value(has_flag(fox.flags, FLAG_CROUCHING)));
    let with_first = match fox.trusted@[0] {
        Some(id) => base.insert("TrustedUuid0"@, NbtValue::Id(id)),
        None => base,
    };
    match fox.trusted@[1] {
        Some(id) => with_first.insert("TrustedUuid1"@, NbtValue::Id(id)),
        None => with_first,
    }
}

/// The coat in a compound.
pub open spec fn restored_coat(nbt: Map<Seq<char>, NbtValue>) -> FoxVariant {
    match text_at(nbt, "Type"@) {
        Some(name) => fox_of_name(name),
        None => FoxVariant::Red,
    }
}

/// Whom a restored fox trusts.
pub open spec fn restored_trust(nbt: Map<Seq<char>, NbtValue>) -> Seq<Option<u128>> {
    let none = seq![None::<u128>, None::<u128>];
    let with_first = match id_at(nbt, "TrustedUuid0"@) {
        Some(id) => trust_filled(none, id),
        None => none,
    };
    match id_at(nbt, "TrustedUuid1"@) {
        Some(id) => trust_filled(with_first, id),
        None => with_first,
    }
}

/// The flags of a restored fox.
pub open spec fn fox_restored_flags(flags: u8, nbt: Map<Seq<char>, NbtValue>) -> u8 {
    with_flag(
        with_flag(
            with_flag(flags, FLAG_SLEEPING, bool_at(nbt, "Sleeping"@) == Some(true)),
            FLAG_SITTING,
            bool_at(nbt, "Sitting"@) == Some(true),
        ),
        FLAG_CROUCHING,
        bool_at(nbt, "Crouching"@) == Some(true),
    )
}

/// What restoring a fox tells the clients.
pub open spec fn fox_restore_effects(flags: u8, nbt: Map<Seq<char>, NbtValue>) -> Seq<Effect> {
    let f1 = with_flag(flags, FLAG_SLEEPING, bool_at(nbt, "Sleeping"@) == Some(true));
    let f2 = with_flag(f1, FLAG_SITTING, bool_at(nbt, "Sitting"@) == Some(true));
    seq![
        fox_flags_sync(f1),
        fox_variant_sync(restored_coat(nbt)),
        fox_flags_sync(f2),
        fox_flags_sync(fox_restored_flags(flags, nbt)),
    ]
}

/// Restoring a fox that was saved to an empty compound gives back how it rests, its coat, and
/// whom it trusts, the first slot filled first.
pub proof fn law_fox_round_trip(fox: FoxEntity, flags: u8)
    requires
        fox.trusted@[0] is None ==> fox.trusted@[1] is None,
    ensures
        ({
            let nbt = fox_saved(Map::empty(), fox);
            let back = fox_restored_flags(flags, nbt);
            &&& has_flag(back, FLAG_SLEEPING) == has_flag(fox.flags, FLAG_SLEEPING)
            &&& has_flag(back, FLAG_SITTING) == has_flag(fox.flags, FLAG_SITTING)
            &&& has_flag(back, FLAG_CROUCHING) == has_flag(fox.flags, FLAG_CROUCHING)
            &&& restored_coat(nbt) == fox_of_id(fox.variant)
            &&& restored_trust(nbt) == fox.trusted@
        }),
{
    reveal_strlit("InLove");
    reveal_strlit("LoveCause");
    reveal_strlit("Sleeping");
    reveal_strlit("Type");
    reveal_strlit("Sitting");
    reveal_strlit("Crouching");
    reveal_strlit("TrustedUuid0");
    reveal_strlit("TrustedUuid1");
    assert("InLove"@.len() == 6 && "LoveCause"@.len() == 9 && "Sleeping"@.len() == 8
        && "Type"@.len() == 4 && "Sitting"@.len() == 7 && "Crouching"@.len() == 9
        && "TrustedUuid0"@.len() == 12 && "TrustedUuid1"@.len() == 12);
    assert("LoveCause"@[0] == 'L' && "Crouching"@[0] == 'C' && "TrustedUuid0"@[11] == '0'
        && "TrustedUuid1"@[11] == '1');
    let nbt = fox_saved(Map::empty(), fox);
    let sleeping = has_flag(fox.flags, FLAG_SLEEPING);
    let sitting = has_flag(fox.flags, FLAG_SITTING);
    let crouching = has_flag(fox.flags, FLAG_CROUCHING);
    assert(bool_at(nbt, "Sleeping"@) == Some(sleeping));
    assert(bool_at(nbt, "Sitting"@) == Some(sitting));
    assert(bool_at(nbt, "Crouching"@) == Some(crouching));
    law_fox_variant_round_trip(fox_of_id(fox.variant));
    assert(1u8 & 32u8 == 0 && 4u8 & 32u8 == 0 && 4u8 & 1u8 == 0) by (bit_vector);
    let f1 = with_flag(flags, FLAG_SLEEPING, sleeping);
    let f2 = with_flag(f1, FLAG_SITTING, sitting);
    law_flag_reads_back(flags, FLAG_SLEEPING, sleeping);
    law_flag_leaves_others(f1, FLAG_SITTING, FLAG_SLEEPING, sitting);
    law_flag_reads_back(f1, FLAG_SITTING, sitting);
    law_flag_leaves_others(f2, FLAG_CROUCHING, FLAG_SLEEPING, crouching);
    law_flag_leaves_others(f2, FLAG_CROUCHING, FLAG_SITTING, crouching);
    law_flag_reads_back(f2, FLAG_CROUCHING, crouching);
    assert(restored_trust(nbt) =~= fox.trusted@);
}

/// No two flags of a fox share a bit.
proof fn lemma_fox_flags_disjoint()
    ensures
        4u8 & 1u8 == 0 && 4u8 & 8u8 == 0 && 4u8 & 16u8 == 0 && 4u8 & 32u8 == 0 && 4u8 & 64u8 == 0
            && 4u8 & 128u8 == 0,
        8u8 & 1u8 == 0 && 8u8 & 4u8 == 0 && 8u8 & 16u8 == 0 && 8u8 & 32u8 == 0 && 8u8 & 64u8 == 0
            && 8u8 & 128u8 == 0,
        128u8 & 1u8 == 0 && 128u8 & 4u8 == 0 && 128u8 & 8u8 == 0 && 128u8 & 16u8 == 0 && 128u8
            & 32u8 == 0 && 128u8 & 64u8 == 0,
        32u8 & 1u8 == 0 && 32u8 & 4u8 == 0 && 32u8 & 8u8 == 0 && 32u8 & 16u8 == 0 && 32u8 & 64u8
            == 0 && 32u8 & 128u8 == 0,
        1u8 & 4u8 == 0 && 1u8 & 8u8 == 0 && 1u8 & 16u8 == 0 && 1u8 & 32u8 == 0 && 1u8 & 64u8 == 0
            && 1u8 & 128u8 == 0,
{
    assert(4u8 & 1u8 == 0 && 4u8 & 8u8 == 0 && 4u8 & 16u8 == 0 && 4u8 & 32u8 == 0 && 4u8 & 64u8 == 0
        && 4u8 & 128u8 == 0 && 8u8 & 1u8 == 0 && 8u8 & 4u8 == 0 && 8u8 & 16u8 == 0 && 8u8 & 32u8
        == 0 && 8u8 & 64u8 == 0 && 8u8 & 128u8 == 0 && 128u8 & 1u8 == 0 && 128u8 & 4u8 == 0 && 128u8
        & 8u8 == 0 && 128u8 & 16u8 == 0 && 128u8 & 32u8 == 0 && 128u8 & 64u8 == 0 && 32u8 & 1u8 == 0
        && 32u8 & 4u8 == 0 && 32u8 & 8u8 == 0 && 32u8 & 16u8 == 0 && 32u8 & 64u8 == 0 && 32u8
        & 128u8 == 0 && 1u8 & 4u8 == 0 && 1u8 & 8u8 == 0 && 1u8 & 16u8 == 0 && 1u8 & 32u8 == 0
        && 1u8 & 64u8 == 0 && 1u8 & 128u8 == 0) by (bit_vector);
}

/// A fox without a living target neither crouches, nor is interested, nor defends anybody; with
/// one it goes on as it was.
pub proof fn law_fox_calms_down(flags: u8, seen: FoxTick)
    ensures
        ({
            let after = fox_after_hunt(flags, seen);
            &&& has_flag(after, 4) <==> has_flag(flags, 4) && seen.target_alive
            &&& has_flag(after, 8) <==> has_flag(flags, 8) && seen.target_alive
            &&& has_flag(after, 128) <==> has_flag(flags, 128) && seen.target_alive
            &&& has_flag(after, 1) <==> has_flag(flags, 1)
            &&& has_flag(after, 16) <==> has_flag(flags, 16)
            &&& has_flag(after, 32) <==> has_flag(flags, 32)
            &&& has_flag(after, 64) <==> has_flag(flags, 64)
        }),
{
    lemma_fox_flags_disjoint();
    let stood = with_flag(flags, FLAG_CROUCHING, false);
    let calm = with_flag(stood, FLAG_INTERESTED, false);
    law_flag_reads_back(flags, FLAG_CROUCHING, false);
    law_flag_reads_back(stood, FLAG_INTERESTED, false);
    law_flag_reads_back(calm, FLAG_DEFENDING, false);
    law_flag_leaves_others(stood, FLAG_INTERESTED, FLAG_CROUCHING, false);
    law_flag_leaves_others(calm, FLAG_DEFENDING, FLAG_CROUCHING, false);
    law_flag_leaves_others(calm, FLAG_DEFENDING, FLAG_INTERESTED, false);
    law_flag_leaves_others(flags, FLAG_CROUCHING, 1, false);
    law_flag_leaves_others(flags, FLAG_CROUCHING, 16, false);
    law_flag_leaves_others(flags, FLAG_CROUCHING, 32, false);
    law_flag_leaves_others(flags, FLAG_CROUCHING, 64, false);
    law_flag_leaves_others(flags, FLAG_CROUCHING, 128, false);
    law_flag_leaves_others(stood, FLAG_INTERESTED, 1, false);
    law_flag_leaves_others(stood, FLAG_INTERESTED, 16, false);
    law_flag_leaves_others(stood, FLAG_INTERESTED, 32, false);
    law_flag_leaves_others(stood, FLAG_INTERESTED, 64, false);
    law_flag_leaves_others(stood, FLAG_INTERESTED, 128, false);
    law_flag_leaves_others(calm, FLAG_DEFENDING, 1, false);
    law_flag_leaves_others(calm, FLAG_DEFENDING, 16, false);
    law_flag_leaves_others(calm, FLAG_DEFENDING, 32, false);
    law_flag_leaves_others(calm, FLAG_DEFENDING, 64, false);
}

/// A fox sleeps on unless water, a target or thunder wakes it; it sits on unless it is in water or
/// asleep. It crouches, is interested and defends only while its target lives. Pouncing and lying
/// on its face are nothing that a tick ends.
pub proof fn law_what_a_tick_makes_of_a_fox(flags: u8, seen: FoxTick)
    ensures
        ({
            let after = fox_flags_ticked(flags, seen);
            let sleeps = has_flag(flags, 32) && !seen.in_water && !seen.has_target
                && !seen.thundering;
            &&& has_flag(after, 32) <==> sleeps
            &&& has_flag(after, 1) <==> has_flag(flags, 1) && !seen.in_water && !sleeps
            &&& has_flag(after, 4) <==> has_flag(flags, 4) && seen.target_alive
            &&& has_flag(after, 8) <==> has_flag(flags, 8) && seen.target_alive
            &&& has_flag(after, 128) <==> has_flag(flags, 128) && seen.target_alive
            &&& has_flag(after, 16) <==> has_flag(flags, 16)
            &&& has_flag(after, 64) <==> has_flag(flags, 64)
        }),
{
    law_fox_calms_down(flags, seen);
    lemma_fox_flags_disjoint();
    let hunted = fox_after_hunt(flags, seen);
    let awake = fox_after_waking(flags, seen);
    law_flag_reads_back(hunted, FLAG_SLEEPING, false);
    law_flag_reads_back(awake, FLAG_SITTING, false);
    law_flag_leaves_others(hunted, FLAG_SLEEPING, 1, false);
    law_flag_leaves_others(hunted, FLAG_SLEEPING, 4, false);
    law_flag_leaves_others(hunted, FLAG_SLEEPING, 8, false);
    law_flag_leaves_others(hunted, FLAG_SLEEPING, 16, false);
    law_flag_leaves_others(hunted, FLAG_SLEEPING, 64, false);
    law_flag_leaves_others(hunted, FLAG_SLEEPING, 128, false);
    law_flag_leaves_others(awake, FLAG_SITTING, 4, false);
    law_flag_leaves_others(awake, FLAG_SITTING, 8, false);
    law_flag_leaves_others(awake, FLAG_SITTING, 16, false);
    law_flag_leaves_others(awake, FLAG_SITTING, 32, false);
    law_flag_leaves_others(awake, FLAG_SITTING, 64, false);
    law_flag_leaves_others(awake, FLAG_SITTING, 128, false);
}

/// After every change clients know the flags of a fox: the last of them that a tick tells are
/// those that the fox has then.
pub proof fn law_clients_know_a_foxs_flags(flags: u8, seen: FoxTick)
    ensures
        fox_tick_effects(flags, seen).len() > 0 ==> fox_tick_effects(flags, seen).last()
            == Effect::Sync(SyncedValue::FoxFlags(fox_flags_ticked(flags, seen) as i8)),
        fox_tick_effects(flags, seen).len() == 0 ==> fox_flags_ticked(flags, seen) == flags,
{
}

/// A fox crouches lower by a step a tick, for twenty-five steps, and stands as soon as it does not
/// crouch.
pub proof fn law_how_low_foxes_crouch(ticks: u8, crouching: bool)
    ensures
        !crouching ==> crouch_counted(ticks, crouching) == 0,
        crouching && ticks < 25 ==> crouch_counted(ticks, crouching) == ticks + 1,
        crouching && ticks >= 25 ==> crouch_counted(ticks, crouching) == ticks,
{
}

/// A red fox hunts on land before it fishes, and a snow fox fishes first.
pub proof fn law_what_foxes_hunt(variant: FoxVariant, i: int)
    requires
        0 <= i < 5,
    ensures
        fox_prey(variant).len() == 5,
        variant == FoxVariant::Red ==> fox_prey(variant)[i].priority == (if i < 3 { 4u8 } else { 6 }),
        variant == FoxVariant::Snow ==> fox_prey(variant)[i].priority == (if i < 3 {
            6u8
        } else {
            4
        }),
        fox_prey(variant)[0].goal == (Goal::SimpleTarget {
            kind: EntityKind::Chicken,
            check_visibility: false,
        }),
        fox_prey(variant)[1].goal == (Goal::SimpleTarget {
            kind: EntityKind::Rabbit,
            check_visibility: false,
        }),
        fox_prey(variant)[3].goal == (Goal::SimpleTarget {
            kind: EntityKind::Cod,
            check_visibility: false,
        }),
        fox_prey(variant)[4].goal == (Goal::SimpleTarget {
            kind: EntityKind::Salmon,
            check_visibility: false,
        }),
{
}

/// A kit has the coat of the parent that the draw names, or of its only parent among foxes.
pub proof fn law_whose_coat_a_kit_has(first: u8, mate: Option<FoxVariant>, after_first: bool)
    ensures
        after_first || mate is None ==> inherited_coat(first, mate, after_first) == fox_of_id(first),
        !after_first && mate is Some ==> inherited_coat(first, mate, after_first) == mate->0,
{
}

/// A kit trusts the players who bred its parents, the same one only once.
pub proof fn law_whom_a_kit_trusts(first: Option<u128>, mate: Option<u128>)
    ensures
        ({
            let none = seq![None::<u128>, None::<u128>];
            let trusted = inherited_trust(none, first, mate);
            &&& first is Some ==> trusted[0] == first
            &&& first is None ==> trusted[0] == mate
            &&& first is Some && mate is Some && first != mate ==> trusted[1] == mate
            &&& first is None || mate is None || first == mate ==> trusted[1] is None
            &&& trusted.len() == 2
        }),
{
}

/// The first free place takes the one who is trusted, and the other place keeps whom it has.
pub proof fn law_where_trust_goes(slots: Seq<Option<u128>>, id: u128)
    requires
        slots.len() == 2,
    ensures
        slots[0] is None ==> trust_filled(slots, id) == seq![Some(id), slots[1]],
        slots[0] is Some && slots[1] is None ==> trust_filled(slots, id) == seq![slots[0], Some(id)],
        slots[0] is Some && slots[1] is Some ==> trust_filled(slots, id) == slots,
        trusted_ids(slots).len() == (if slots[0] is Some { 1int } else { 0 }) + (if slots[1] is Some {
            1int
        } else {
            0
        }),
        slots[0] is Some ==> trusted_ids(slots)[0] == slots[0]->0,
        slots[1] is Some ==> trusted_ids(slots).last() == slots[1]->0,
{
    if slots[0] is None {
        assert(trust_filled(slots, id) =~= seq![Some(id), slots[1]]);
    } else if slots[1] is None {
        assert(trust_filled(slots, id) =~= seq![slots[0], Some(id)]);
    }
}

/// The numbers and names of the coats of foxes.
pub proof fn law_names_of_foxes()
    ensures
        fox_id(FoxVariant::Red) == 0 && fox_id(FoxVariant::Snow) == 1,
        fox_name(FoxVariant::Red) == "red"@ && fox_name(FoxVariant::Snow) == "snow"@,
{
}

/// Food makes a baby fox grow and a grown one that is ready fall in love; nothing else does, and
/// it is heard.
pub proof fn law_what_feeding_a_fox_does(mob: MobEntity, food: bool, breeding_ready: bool)
    ensures
        grows(mob, fox_feeding(food, breeding_ready)) <==> food && mob.age < 0,
        falls_in_love(mob, fox_feeding(food, breeding_ready)) <==> food && breeding_ready && mob.age >= 0
            && mob.love_ticks <= 0,
        fox_feeding(food, breeding_ready).sound == Sound::FoxAmbient,
{
}

/// What foxes pursue, and how urgently: this and nothing else.
pub proof fn law_what_foxes_pursue(e: GoalEntry)
    ensures
        fox_goals().contains(e) <==> {
            ||| e.priority == 0 && e.goal == Goal::Swim
            ||| e.priority == 0 && e.goal == Goal::ClimbOnTopOfPowderSnow
            ||| e.priority == 1 && e.goal == (Goal::EscapeDanger { speed: 1500 })
            ||| e.priority == 1 && e.goal == Goal::FoxFaceplant
            ||| e.priority == 2 && e.goal == (Goal::Breed { speed: 1000 })
            ||| e.priority == 3 && e.goal == (Goal::Tempt { speed: 1200, items: Diet::Fox, scared: false })
            ||| e.priority == 4 && e.goal == (Goal::FollowParent { speed: 1100 })
            ||| e.priority == 4 && e.goal == fox_avoids(EntityKind::Player, 16000, AvoidRule::FoxPlayer)
            ||| e.priority == 4 && e.goal == fox_avoids(EntityKind::Wolf, 8000, AvoidRule::FoxWolf)
            ||| e.priority == 4 && e.goal == fox_avoids(EntityKind::PolarBear, 8000, AvoidRule::FoxPolarBear)
            ||| e.priority == 5 && e.goal == Goal::FoxStalkPrey
            ||| e.priority == 5 && e.goal == Goal::FoxPounce
            ||| e.priority == 5 && e.goal == Goal::FoxMeleeAttack
            ||| e.priority == 5 && e.goal == Goal::FoxSleep
            ||| e.priority == 6 && e.goal == (Goal::Wander { speed: 1000 })
            ||| e.priority == 9 && e.goal == (Goal::LookAt { kind: EntityKind::Player, range: 6000 })
            ||| e.priority == 10 && e.goal == Goal::LookAround
        },
        fox_goals().len() == 17,
{
    let all = fox_goals();
    assert(all[0] == (GoalEntry { priority: 0, goal: Goal::Swim }));
    assert(all[1] == (GoalEntry { priority: 0, goal: Goal::ClimbOnTopOfPowderSnow }));
    assert(all[2] == (GoalEntry { priority: 1, goal: Goal::EscapeDanger { speed: 1500 } }));
    assert(all[3] == (GoalEntry { priority: 1, goal: Goal::FoxFaceplant }));
    assert(all[4] == (GoalEntry { priority: 2, goal: Goal::Breed { speed: 1000 } }));
    assert(all[5] == (GoalEntry { priority: 3, goal: Goal::Tempt { speed: 1200, items: Diet::Fox, scared: false } }));
    assert(all[6] == (GoalEntry { priority: 4, goal: Goal::FollowParent { speed: 1100 } }));
    assert(all[7] == (GoalEntry { priority: 4, goal: fox_avoids(EntityKind::Player, 16000, AvoidRule::FoxPlayer) }));
    assert(all[8] == (GoalEntry { priority: 4, goal: fox_avoids(EntityKind::Wolf, 8000, AvoidRule::FoxWolf) }));
    assert(all[9] == (GoalEntry { priority: 4, goal: fox_avoids(EntityKind::PolarBear, 8000, AvoidRule::FoxPolarBear) }));
    assert(all[10] == (GoalEntry { priority: 5, goal: Goal::FoxStalkPrey }));
    assert(all[11] == (GoalEntry { priority: 5, goal: Goal::FoxPounce }));
    assert(all[12] == (GoalEntry { priority: 5, goal: Goal::FoxMeleeAttack }));
    assert(all[13] == (GoalEntry { priority: 5, goal: Goal::FoxSleep }));
    assert(all[14] == (GoalEntry { priority: 6, goal: Goal::Wander { speed: 1000 } }));
    assert(all[15] == (GoalEntry { priority: 9, goal: Goal::LookAt { kind: EntityKind::Player, range: 6000 } }));
    assert(all[16] == (GoalEntry { priority: 10, goal: Goal::LookAround }));
}

/// What is told of a fox that is read back: at last its flags, and between them its coat.
pub proof fn law_read_fox_is_told(flags: u8, nbt: Map<Seq<char>, NbtValue>)
    ensures
        fox_restore_effects(flags, nbt).len() == 4,
        fox_restore_effects(flags, nbt).last() == Effect::Sync(
            SyncedValue::FoxFlags(fox_restored_flags(flags, nbt) as i8),
        ),
        fox_restore_effects(flags, nbt)[1] == Effect::Sync(
            SyncedValue::FoxVariant(fox_id(restored_coat(nbt)) as i32),
        ),
        fox_restore_effects(flags, nbt)[0] is Sync && fox_restore_effects(flags, nbt)[2] is Sync,
{
}

/// What clears a fox's flags tells each step, the last with all of them cleared, and ends its jump.
pub proof fn law_cleared_fox_is_told(flags: u8)
    ensures
        fox_cleared_effects(flags).len() == 7,
        fox_cleared_effects(flags).last() == Effect::SetJumping(false),
        fox_cleared_effects(flags)[5] == Effect::Sync(
            SyncedValue::FoxFlags(fox_cleared(flags) as i8),
        ),
        fox_cleared_effects(flags)[0] == Effect::Sync(
            SyncedValue::FoxFlags(with_flag(flags, 8, false) as i8),
        ),
        forall|i: int| 0 <= i < 6 ==> (#[trigger] fox_cleared_effects(flags)[i]) is Sync,
{
}

/// A fox that defends somebody runs from nobody; else it runs from wild wolves and from players it
/// does not trust, unless they sneak or cannot touch it.
pub proof fn law_whom_foxes_run_from(fox: FoxEntity, player: NearbyPlayer, wolf_tamed: bool)
    ensures
        has_flag(fox.flags, 128) ==> !runs_from_player(fox, player) && !runs_from_wolf(fox, wolf_tamed),
        fox.trusted@.contains(Some(player.id)) ==> !runs_from_player(fox, player),
        player.sneaking || player.creative || player.spectator ==> !runs_from_player(fox, player),
        !has_flag(fox.flags, 128) && !fox.trusted@.contains(Some(player.id)) && !player.sneaking
            && !player.creative && !player.spectator ==> runs_from_player(fox, player),
        !has_flag(fox.flags, 128) ==> runs_from_wolf(fox, wolf_tamed) == !wolf_tamed,
{
}

/// A fox without a coat gets that of the land; one that has a coat keeps it.
pub proof fn law_first_coats_of_foxes(variant: u8, snowy: bool)
    ensures
        variant == 2 ==> (first_coat_of_fox(variant, snowy) == FoxVariant::Snow <==> snowy),
        variant != 2 ==> first_coat_of_fox(variant, snowy) == fox_of_id(variant),
{
}

/// Each state of a fox has a bit of its own.
pub proof fn law_bits_of_foxes()
    ensures
        FLAG_SITTING == 1,
        FLAG_CROUCHING == 4,
        FLAG_INTERESTED == 8,
        FLAG_POUNCING == 16,
        FLAG_SLEEPING == 32,
        FLAG_FACEPLANTED == 64,
        FLAG_DEFENDING == 128,
{
}

} // verus!
