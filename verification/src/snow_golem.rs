//! Snow golems, with or without a pumpkin.

use vstd::prelude::*;

use crate::effect::{Effect, Sound, SyncedValue};
use crate::flags::{
    get_flag, has_flag, law_flag_leaves_others, law_flag_reads_back, law_flag_settles, set_flag,
    with_flag,
};
use crate::goal::{entry, goal, look_at_player, watch_player, EntityKind, Goal, GoalEntry};
use crate::mob::MobEntity;

verus! {

pub const PUMPKIN_FLAG: u8 = 16;

/// What a snow golem pursues.
pub open spec fn snow_golem_goals() -> Seq<GoalEntry> {
    seq![
        entry(1, Goal::RangedSnowballAttack { interval: 20, range: 10000 }),
        entry(2, Goal::WanderAvoidingWaterSometimes { speed: 1000, probability: 10 }),
        entry(3, look_at_player(6000)),
        entry(4, Goal::LookAround),
    ]
}

/// A snow golem.
pub struct SnowGolemEntity {
    pub mob_entity: MobEntity,
    pub pumpkin_flags: u8,
}

impl SnowGolemEntity {
    /// A new snow golem with a pumpkin on.
    pub fn new(age: i32) -> (golem: Self)
        ensures
            golem.mob_entity.fresh(age),
            golem.mob_entity.goals@ == snow_golem_goals(),
            golem.mob_entity.targets@ == seq![entry(1, Goal::NearestHostileForSnowGolem)],
            golem.pumpkin_flags == PUMPKIN_FLAG,
            has_flag(golem.pumpkin_flags, PUMPKIN_FLAG),
    {
        assert(16u8 & 16u8 != 0) by (bit_vector);
        let goals = vec![
            goal(1, Goal::RangedSnowballAttack { interval: 20, range: 10000 }),
            goal(2, Goal::WanderAvoidingWaterSometimes { speed: 1000, probability: 10 }),
            goal(3, watch_player(6000)),
            goal(4, Goal::LookAround),
        ];
        let targets = vec![goal(1, Goal::NearestHostileForSnowGolem)];
        SnowGolemEntity {
            mob_entity: MobEntity::with_goals(age, goals, targets),
            pumpkin_flags: PUMPKIN_FLAG,
        }
    }

    pub fn has_pumpkin(&self) -> (has: bool)
        ensures
            has == has_flag(self.pumpkin_flags, PUMPKIN_FLAG),
    {
        get_flag(self.pumpkin_flags, PUMPKIN_FLAG)
    }

    /// Puts a pumpkin on the golem, or takes it off.
    pub fn set_pumpkin(&mut self, pumpkin: bool, effects: &mut Vec<Effect>)
        ensures
            *final(self) == (SnowGolemEntity {
                pumpkin_flags: with_flag(old(self).pumpkin_flags, PUMPKIN_FLAG, pumpkin),
                ..*old(self)
            }),
            has_flag(final(self).pumpkin_flags, PUMPKIN_FLAG) == pumpkin,
            final(effects)@ == old(effects)@.push(
                Effect::Sync(SyncedValue::SnowGolemPumpkin(final(self).pumpkin_flags as i8)),
            ),
    {
        self.pumpkin_flags = set_flag(self.pumpkin_flags, PUMPKIN_FLAG, pumpkin);
        proof {
            law_flag_reads_back(old(self).pumpkin_flags, PUMPKIN_FLAG, pumpkin);
        }
        effects.push(Effect::Sync(SyncedValue::SnowGolemPumpkin(self.pumpkin_flags as i8)));
    }

    pub fn get_ambient_sound(&self) -> (sound: Option<Sound>)
        ensures
            sound == Some(Sound::SnowGolemAmbient),
    {
        Some(Sound::SnowGolemAmbient)
    }

    /// Whether water hurts the golem.
    pub fn mob_is_sensitive_to_water(&self) -> (sensitive: bool)
        ensures
            sensitive,
    {
        true
    }
}

/// Putting a pumpkin on or taking it off leaves every other flag alone.
pub proof fn law_pumpkin_leaves_other_flags(flags: u8, other: u8, pumpkin: bool)
    requires
        PUMPKIN_FLAG & other == 0,
    ensures
        has_flag(with_flag(flags, PUMPKIN_FLAG, pumpkin), other) == has_flag(flags, other),
{
    law_flag_leaves_others(flags, PUMPKIN_FLAG, other, pumpkin);
}

/// The pumpkin is on as the golem was last told, and telling it twice is telling it once.
pub proof fn law_pumpkin_settles(flags: u8, pumpkin: bool)
    ensures
        has_flag(with_flag(flags, 16, pumpkin), 16) == pumpkin,
        with_flag(with_flag(flags, 16, pumpkin), 16, pumpkin) == with_flag(flags, 16, pumpkin),
        PUMPKIN_FLAG == 16,
{
    law_flag_reads_back(flags, 16, pumpkin);
    law_flag_settles(flags, 16, pumpkin);
}

/// What snow golems pursue, and how urgently: this and nothing else.
pub proof fn law_what_snow_golems_pursue(e: GoalEntry)
    ensures
        snow_golem_goals().contains(e) <==> {
            ||| e.priority == 1 && e.goal == (Goal::RangedSnowballAttack { interval: 20, range: 10000 })
            ||| e.priority == 2 && e.goal == (Goal::WanderAvoidingWaterSometimes { speed: 1000, probability: 10 })
            ||| e.priority == 3 && e.goal == (Goal::LookAt { kind: EntityKind::Player, range: 6000 })
            ||| e.priority == 4 && e.goal == Goal::LookAround
        },
        snow_golem_goals().len() == 4,
{
    let all = snow_golem_goals();
    assert(all[0] == (GoalEntry { priority: 1, goal: Goal::RangedSnowballAttack { interval: 20, range: 10000 } }));
    assert(all[1] == (GoalEntry { priority: 2, goal: Goal::WanderAvoidingWaterSometimes { speed: 1000, probability: 10 } }));
    assert(all[2] == (GoalEntry { priority: 3, goal: Goal::LookAt { kind: EntityKind::Player, range: 6000 } }));
    assert(all[3] == (GoalEntry { priority: 4, goal: Goal::LookAround }));
}

} // verus!
