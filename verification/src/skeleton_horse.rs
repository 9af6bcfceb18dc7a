//! Skeleton horses, some of which are traps.

use vstd::prelude::*;

use crate::animal::{animal_restored, animal_saved, read_animal_nbt, write_animal_nbt};
use crate::effect::{group_effects, Effect, Interaction};
use crate::equine::{
    abstract_horse_mob_interact, base_rules, carries_over, horse_interacted, horse_restore_effects,
    horse_restored, horse_saved, law_horse_round_trip, lemma_horse_names, new_horse_data, same_kind,
    AbstractHorseData, HorseAttributes, HorseContext, HorseRules, HorseScene,
};
use crate::goal::{entry, goal, look_at_player, watch_player, EntityKind, Goal, GoalEntry};
use crate::item::{ItemStack, Player};
use crate::mob::MobEntity;
use crate::nbt::{bool_at, bool_value, int_at, NbtCompound, NbtValue};
use crate::ticks::{count_up, counted_up};

verus! {

/// How long a trap waits before it vanishes.
pub const TRAP_MAX_LIFE: i32 = 18000;

/// What a skeleton horse pursues.
pub open spec fn skeleton_horse_goals() -> Seq<GoalEntry> {
    seq![
        entry(0, Goal::Swim),
        entry(1, Goal::RunAroundLikeCrazy { speed: 1200 }),
        entry(1, Goal::SkeletonTrap),
        entry(4, Goal::FollowParent { speed: 1000 }),
        entry(6, Goal::WanderAvoidingWater { speed: 700 }),
        entry(7, look_at_player(6000)),
        entry(8, Goal::LookAround),
        entry(9, Goal::AmbientStand),
    ]
}

/// A skeleton horse.
pub struct SkeletonHorseEntity {
    pub mob_entity: MobEntity,
    pub is_trap: bool,
    pub trap_time: i32,
    pub horse_data: AbstractHorseData,
}

/// Drawing how high a skeleton horse jumps, where its kind jumps at all.
pub open spec fn jump_draw_effects(attributes: HorseAttributes) -> Seq<Effect> {
    if attributes.jump_strength is Some {
        seq![Effect::RollJumpStrength]
    } else {
        seq![]
    }
}

impl SkeletonHorseEntity {
    /// A new skeleton horse that is no trap.
    /// `attributes` is what its kind is capable of by default.
    pub fn new(
        age: i32,
        attributes: HorseAttributes,
        effects: &mut Vec<Effect>,
    ) -> (horse: Self)
        ensures
            horse.mob_entity.fresh(age),
            horse.mob_entity.goals@ == skeleton_horse_goals(),
            horse.mob_entity.targets@ == Seq::<GoalEntry>::empty(),
            !horse.is_trap,
            horse.trap_time == 0,
            horse.horse_data == new_horse_data(attributes),
            final(effects)@ == old(effects)@ + jump_draw_effects(attributes),
    {
        let goals = vec![
            goal(0, Goal::Swim),
            goal(1, Goal::RunAroundLikeCrazy { speed: 1200 }),
            goal(1, Goal::SkeletonTrap),
            goal(4, Goal::FollowParent { speed: 1000 }),
            goal(6, Goal::WanderAvoidingWater { speed: 700 }),
            goal(7, watch_player(6000)),
            goal(8, Goal::LookAround),
            goal(9, Goal::AmbientStand),
        ];
        let horse = SkeletonHorseEntity {
            mob_entity: MobEntity::with_goals(age, goals, Vec::new()),
            is_trap: false,
            trap_time: 0,
            horse_data: AbstractHorseData::with_attributes(attributes),
        };
        horse.randomize_attributes(effects);
        horse
    }

    pub fn is_trap(&self) -> (trap: bool)
        ensures
            trap == self.is_trap,
    {
        self.is_trap
    }

    pub fn set_trap(&mut self, trap: bool)
        ensures
            *final(self) == (SkeletonHorseEntity { is_trap: trap, ..*old(self) }),
    {
        self.is_trap = trap;
    }

    /// Draws the body of a new skeleton horse: only how high it jumps.
    pub fn randomize_attributes(&self, effects: &mut Vec<Effect>)
        ensures
            final(effects)@ == old(effects)@ + jump_draw_effects(self.horse_data.attributes),
    {
        if self.horse_data.attributes.jump_strength.is_some() {
            effects.push(Effect::RollJumpStrength);
        }
    }

    /// Whether food makes a young skeleton horse grow. It never does.
    pub fn can_age_up(&self) -> (can: bool)
        ensures
            !can,
    {
        false
    }

    /// Lets a player use an item on the skeleton horse. A wild one does not react at all.
    pub fn mob_interact(
        &mut self,
        cx: &HorseContext,
        player: &Player,
        stack: &mut ItemStack,
        effects: &mut Vec<Effect>,
    ) -> (outcome: Interaction)
        ensures
            final(self).is_trap == old(self).is_trap,
            final(self).trap_time == old(self).trap_time,
            old(self).horse_data.wf() ==> final(self).horse_data.wf(),
            ({
                let before = HorseScene {
                    mob: old(self).mob_entity,
                    data: old(self).horse_data,
                    stack: *old(stack),
                    effects: old(effects)@,
                    outcome: Interaction::Refused,
                };
                (HorseScene {
                    mob: final(self).mob_entity,
                    data: final(self).horse_data,
                    stack: *final(stack),
                    effects: final(effects)@,
                    outcome,
                }) == (if old(self).mob_entity.owner is None {
                    before
                } else {
                    horse_interacted(before, base_rules(), *cx, *player)
                })
            }),
    {
        if !self.mob_entity.is_tamed() {
            return Interaction::Refused;
        }
        let rules = HorseRules::base();
        abstract_horse_mob_interact(
            &mut self.mob_entity,
            &mut self.horse_data,
            &rules,
            cx,
            player,
            stack,
            effects,
        )
    }

    /// One tick. A trap that nobody triggered in time vanishes.
    pub fn mob_tick(&mut self, effects: &mut Vec<Effect>)
        ensures
            *final(self) == trap_ticked(*old(self)),
            final(effects)@ == old(effects)@ + trap_effects(*old(self)),
    {
        if self.is_trap {
            self.trap_time = count_up(self.trap_time);
            if self.trap_time >= TRAP_MAX_LIFE {
                effects.push(Effect::Remove);
            }
        }
    }

    /// Saves the skeleton horse.
    pub fn write_nbt(&self, nbt: &mut NbtCompound)
        ensures
            final(nbt)@ == skeleton_horse_saved(old(nbt)@, *self),
    {
        write_animal_nbt(&self.mob_entity, nbt);
        self.horse_data.write_horse_nbt(nbt);
        nbt.put_bool("SkeletonTrap", self.is_trap);
        nbt.put_int("SkeletonTrapTime", self.trap_time);
    }

    /// Restores the skeleton horse.
    pub fn read_nbt(&mut self, nbt: &NbtCompound, effects: &mut Vec<Effect>)
        ensures
            final(effects)@ == old(effects)@ + horse_restore_effects(
                old(self).horse_data.attributes,
                nbt@,
            ),
            *final(self) == skeleton_horse_restored(*old(self), nbt@),
    {
        read_animal_nbt(&mut self.mob_entity, nbt);
        self.horse_data.read_horse_nbt(nbt, effects);
        self.is_trap = nbt.get_bool("SkeletonTrap").unwrap_or(false);
        self.trap_time = nbt.get_int("SkeletonTrapTime").unwrap_or(0);
    }
}

/// A skeleton horse after one tick.
pub open spec fn trap_ticked(horse: SkeletonHorseEntity) -> SkeletonHorseEntity {
    if horse.is_trap {
        SkeletonHorseEntity { trap_time: counted_up(horse.trap_time), ..horse }
    } else {
        horse
    }
}

/// What one tick of a skeleton horse asks of the host.
pub open spec fn trap_effects(horse: SkeletonHorseEntity) -> Seq<Effect> {
    if horse.is_trap && counted_up(horse.trap_time) >= TRAP_MAX_LIFE {
        seq![Effect::Remove]
    } else {
        seq![]
    }
}

/// A skeleton horse after some ticks.
pub open spec fn trap_after(horse: SkeletonHorseEntity, ticks: nat) -> SkeletonHorseEntity
    decreases ticks,
{
    if ticks == 0 {
        horse
    } else {
        trap_ticked(trap_after(horse, (ticks - 1) as nat))
    }
}

/// A trap that was just set does not vanish before its time is over, and vanishes then.
pub proof fn law_trap_lifetime(horse: SkeletonHorseEntity, ticks: nat)
    requires
        horse.is_trap,
        horse.trap_time == 0,
        ticks < TRAP_MAX_LIFE,
    ensures
        trap_after(horse, ticks).is_trap,
        trap_after(horse, ticks).trap_time == ticks,
        trap_effects(trap_after(horse, ticks)) == (if ticks + 1 == TRAP_MAX_LIFE {
            seq![Effect::Remove]
        } else {
            seq![]
        }),
    decreases ticks,
{
    if ticks > 0 {
        law_trap_lifetime(horse, (ticks - 1) as nat);
    }
}

/// What is saved of a skeleton horse.
pub open spec fn skeleton_horse_saved(
    nbt: Map<Seq<char>, NbtValue>,
    horse: SkeletonHorseEntity,
) -> Map<Seq<char>, NbtValue> {
    horse_saved(animal_saved(nbt, horse.mob_entity), horse.horse_data).insert(
        "SkeletonTrap"@,
        bool_value(horse.is_trap),
    ).insert("SkeletonTrapTime"@, NbtValue::Int(horse.trap_time))
}

/// A skeleton horse with its saved state restored.
pub open spec fn skeleton_horse_restored(
    horse: SkeletonHorseEntity,
    nbt: Map<Seq<char>, NbtValue>,
) -> SkeletonHorseEntity {
    SkeletonHorseEntity {
        mob_entity: animal_restored(horse.mob_entity, nbt),
        horse_data: horse_restored(horse.horse_data, nbt),
        is_trap: bool_at(nbt, "SkeletonTrap"@) == Some(true),
        trap_time: match int_at(nbt, "SkeletonTrapTime"@) {
            Some(time) => time,
            None => 0,
        },
    }
}

/// A saved trap is restored as one, with the time it has waited. Whether the horse eats, whether
/// it was bred, its temper and what it is capable of come back too.
pub proof fn law_skeleton_horse_round_trip(
    nbt: Map<Seq<char>, NbtValue>,
    horse: SkeletonHorseEntity,
    other: SkeletonHorseEntity,
)
    ensures
        ({
            let back = skeleton_horse_restored(other, skeleton_horse_saved(nbt, horse));
            &&& back.is_trap == horse.is_trap
            &&& back.trap_time == horse.trap_time
            &&& carries_over(back.horse_data, horse.horse_data)
            &&& same_kind(horse.horse_data.attributes, other.horse_data.attributes)
                ==> back.horse_data.attributes == horse.horse_data.attributes
        }),
{
    reveal_strlit("SkeletonTrap");
    reveal_strlit("SkeletonTrapTime");
    lemma_horse_names();
    assert("SkeletonTrap"@.len() == 12 && "SkeletonTrapTime"@.len() == 16);
    let animal = animal_saved(nbt, horse.mob_entity);
    law_horse_round_trip(animal, horse.horse_data, other.horse_data);
    assert(horse_restored(other.horse_data, skeleton_horse_saved(nbt, horse)) == horse_restored(
        other.horse_data,
        horse_saved(animal, horse.horse_data),
    ));
}

/// A trap ages by a tick at a time and vanishes after fifteen minutes; a horse that is no trap
/// neither ages so nor vanishes.
pub proof fn law_traps_vanish(horse: SkeletonHorseEntity)
    requires
        horse.trap_time < i32::MAX,
    ensures
        horse.is_trap ==> trap_ticked(horse) == (SkeletonHorseEntity {
            trap_time: (horse.trap_time + 1) as i32,
            ..horse
        }),
        !horse.is_trap ==> trap_ticked(horse) == horse,
        trap_effects(horse).contains(Effect::Remove) <==> horse.is_trap && horse.trap_time + 1
            >= 18000,
{
    broadcast use group_effects;

}

/// How high a skeleton horse jumps is drawn if its kind jumps, and nothing else is.
pub proof fn law_what_is_drawn_for_a_skeleton_horse(attributes: HorseAttributes)
    ensures
        attributes.jump_strength is Some ==> jump_draw_effects(attributes) == seq![
            Effect::RollJumpStrength,
        ],
        attributes.jump_strength is None ==> jump_draw_effects(attributes).len() == 0,
{
}

/// What skeleton horses pursue, and how urgently: this and nothing else.
pub proof fn law_what_skeleton_horses_pursue(e: GoalEntry)
    ensures
        skeleton_horse_goals().contains(e) <==> {
            ||| e.priority == 0 && e.goal == Goal::Swim
            ||| e.priority == 1 && e.goal == (Goal::RunAroundLikeCrazy { speed: 1200 })
            ||| e.priority == 1 && e.goal == Goal::SkeletonTrap
            ||| e.priority == 4 && e.goal == (Goal::FollowParent { speed: 1000 })
            ||| e.priority == 6 && e.goal == (Goal::WanderAvoidingWater { speed: 700 })
            ||| e.priority == 7 && e.goal == (Goal::LookAt { kind: EntityKind::Player, range: 6000 })
            ||| e.priority == 8 && e.goal == Goal::LookAround
            ||| e.priority == 9 && e.goal == Goal::AmbientStand
        },
        skeleton_horse_goals().len() == 8,
{
    let all = skeleton_horse_goals();
    assert(all[0] == (GoalEntry { priority: 0, goal: Goal::Swim }));
    assert(all[1] == (GoalEntry { priority: 1, goal: Goal::RunAroundLikeCrazy { speed: 1200 } }));
    assert(all[2] == (GoalEntry { priority: 1, goal: Goal::SkeletonTrap }));
    assert(all[3] == (GoalEntry { priority: 4, goal: Goal::FollowParent { speed: 1000 } }));
    assert(all[4] == (GoalEntry { priority: 6, goal: Goal::WanderAvoidingWater { speed: 700 } }));
    assert(all[5] == (GoalEntry { priority: 7, goal: Goal::LookAt { kind: EntityKind::Player, range: 6000 } }));
    assert(all[6] == (GoalEntry { priority: 8, goal: Goal::LookAround }));
    assert(all[7] == (GoalEntry { priority: 9, goal: Goal::AmbientStand }));
}

} // verus!
