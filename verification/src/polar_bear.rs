//! Polar bears.

use vstd::prelude::*;

use crate::effect::{Effect, Sound, SyncedValue};
use crate::goal::{
    entry, goal, look_at_player, watch_player, EntityKind, Goal, GoalEntry, TargetRule,
};
use crate::mob::MobEntity;
use crate::ticks::{count_down, counted_down};

verus! {

/// How long a bear is quiet after it has warned someone.
pub const WARNING_TICKS: i32 = 40;

/// What a polar bear pursues.
pub open spec fn polar_bear_goals() -> Seq<GoalEntry> {
    seq![
        entry(0, Goal::Swim),
        entry(1, Goal::PolarBearMeleeAttack),
        entry(1, Goal::EscapeDanger { speed: 2000 }),
        entry(4, Goal::FollowParent { speed: 1250 }),
        entry(5, Goal::Wander { speed: 1000 }),
        entry(6, look_at_player(6000)),
        entry(7, Goal::LookAround),
    ]
}

/// Whom a polar bear attacks.
pub open spec fn polar_bear_targets() -> Seq<GoalEntry> {
    seq![
        entry(1, Goal::PolarBearHurtByTarget),
        entry(2, Goal::PolarBearAttackPlayers),
        entry(
            3,
            Goal::ActiveTarget {
                kind: EntityKind::Player,
                interval: 10,
                check_visibility: true,
                check_navigable: false,
                only: TargetRule::AngryAt,
            },
        ),
        entry(
            4,
            Goal::ActiveTarget {
                kind: EntityKind::Fox,
                interval: 10,
                check_visibility: true,
                check_navigable: true,
                only: TargetRule::MobIsAdult,
            },
        ),
        entry(5, Goal::ResetUniversalAnger { alert_others: false }),
    ]
}

/// A polar bear.
pub struct PolarBearEntity {
    pub mob_entity: MobEntity,
    pub is_standing: bool,
    pub warning_sound_ticks: i32,
}

impl PolarBearEntity {
    /// A new polar bear.
    pub fn new(age: i32) -> (bear: Self)
        ensures
            bear.mob_entity.fresh(age),
            bear.mob_entity.goals@ == polar_bear_goals(),
            bear.mob_entity.targets@ == polar_bear_targets(),
            !bear.is_standing,
            bear.warning_sound_ticks == 0,
    {
        let goals = vec![
            goal(0, Goal::Swim),
            goal(1, Goal::PolarBearMeleeAttack),
            goal(1, Goal::EscapeDanger { speed: 2000 }),
            goal(4, Goal::FollowParent { speed: 1250 }),
            goal(5, Goal::Wander { speed: 1000 }),
            goal(6, watch_player(6000)),
            goal(7, Goal::LookAround),
        ];
        let targets = vec![
            goal(1, Goal::PolarBearHurtByTarget),
            goal(2, Goal::PolarBearAttackPlayers),
            goal(
                3,
                Goal::ActiveTarget {
                    kind: EntityKind::Player,
                    interval: 10,
                    check_visibility: true,
                    check_navigable: false,
                    only: TargetRule::AngryAt,
                },
            ),
            goal(
                4,
                Goal::ActiveTarget {
                    kind: EntityKind::Fox,
                    interval: 10,
                    check_visibility: true,
                    check_navigable: true,
                    only: TargetRule::MobIsAdult,
                },
            ),
            goal(5, Goal::ResetUniversalAnger { alert_others: false }),
        ];
        PolarBearEntity {
            mob_entity: MobEntity::with_goals(age, goals, targets),
            is_standing: false,
            warning_sound_ticks: 0,
        }
    }

    /// Whether a bear attacks a player: one it is angry at, or anyone while it is angry at all.
    pub fn attacks_player(angry_at: bool, angry_at_all_players: bool) -> (attacks: bool)
        ensures
            attacks == (angry_at || angry_at_all_players),
    {
        angry_at || angry_at_all_players
    }

    /// Whether the bear hunts foxes. Only a grown one does.
    pub fn hunts_foxes(&self) -> (hunts: bool)
        ensures
            hunts == (self.mob_entity.age >= 0),
    {
        self.mob_entity.age >= 0
    }

    pub fn is_standing(&self) -> (standing: bool)
        ensures
            standing == self.is_standing,
    {
        self.is_standing
    }

    /// Rears up or comes down, and tells clients if that is new.
    pub fn set_standing(&mut self, value: bool, effects: &mut Vec<Effect>)
        ensures
            *final(self) == (PolarBearEntity { is_standing: value, ..*old(self) }),
            final(effects)@ == old(effects)@ + (if old(self).is_standing != value {
                seq![Effect::Sync(SyncedValue::PolarBearStanding(value))]
            } else {
                seq![]
            }),
    {
        let before = self.is_standing;
        self.is_standing = value;
        if before != value {
            effects.push(Effect::Sync(SyncedValue::PolarBearStanding(value)));
        }
    }

    /// Warns someone, unless the bear has just done so.
    pub fn play_warning_sound(&mut self, effects: &mut Vec<Effect>)
        ensures
            *final(self) == warned(*old(self)),
            final(effects)@ == old(effects)@ + (if old(self).warning_sound_ticks <= 0 {
                seq![Effect::Play(Sound::PolarBearWarning)]
            } else {
                seq![]
            }),
    {
        if self.warning_sound_ticks <= 0 {
            effects.push(Effect::Play(Sound::PolarBearWarning));
            self.warning_sound_ticks = WARNING_TICKS;
        }
    }

    pub fn get_ambient_sound(&self) -> (sound: Option<Sound>)
        ensures
            sound == Some(
                if self.mob_entity.age < 0 {
                    Sound::PolarBearAmbientBaby
                } else {
                    Sound::PolarBearAmbient
                },
            ),
    {
        Some(
            if self.mob_entity.is_baby() {
                Sound::PolarBearAmbientBaby
            } else {
                Sound::PolarBearAmbient
            },
        )
    }

    pub fn get_step_sound(&self) -> (sound: Option<Sound>)
        ensures
            sound == Some(Sound::PolarBearStep),
    {
        Some(Sound::PolarBearStep)
    }

    /// One tick. The anger cools down, and a target becomes someone to be angry at;
    /// `angry_at_target` says whether it is that already once the anger has cooled down.
    pub fn mob_tick(
        &mut self,
        target: Option<u128>,
        angry_at_target: bool,
        effects: &mut Vec<Effect>,
    )
        ensures
            *final(self) == (PolarBearEntity {
                warning_sound_ticks: counted_down(old(self).warning_sound_ticks),
                ..*old(self)
            }),
            final(effects)@ == old(effects)@ + (match target {
                Some(id) if !angry_at_target => seq![Effect::TickAnger, Effect::HoldGrudge(id)],
                _ => seq![Effect::TickAnger],
            }),
    {
        effects.push(Effect::TickAnger);
        self.warning_sound_ticks = count_down(self.warning_sound_ticks);
        if let Some(id) = target {
            if !angry_at_target {
                effects.push(Effect::HoldGrudge(id));
            }
        }
    }
}

/// A bear that may have warned someone.
pub open spec fn warned(bear: PolarBearEntity) -> PolarBearEntity {
    if bear.warning_sound_ticks <= 0 {
        PolarBearEntity { warning_sound_ticks: WARNING_TICKS, ..bear }
    } else {
        bear
    }
}

/// The quiet of a bear after some ticks.
pub open spec fn quiet_after(ticks_left: i32, ticks: nat) -> i32
    decreases ticks,
{
    if ticks == 0 {
        ticks_left
    } else {
        counted_down(quiet_after(ticks_left, (ticks - 1) as nat))
    }
}

/// A bear that has warned someone is quiet for its time, and no longer.
pub proof fn law_warnings_are_apart(bear: PolarBearEntity, ticks: nat)
    requires
        bear.warning_sound_ticks <= 0,
        ticks <= WARNING_TICKS,
    ensures
        quiet_after(warned(bear).warning_sound_ticks, ticks) == WARNING_TICKS - ticks,
        quiet_after(warned(bear).warning_sound_ticks, ticks) <= 0 <==> ticks == WARNING_TICKS,
    decreases ticks,
{
    if ticks > 0 {
        law_warnings_are_apart(bear, (ticks - 1) as nat);
    }
}

/// A bear warns only when its last warning is over, and is then quiet for forty ticks.
pub proof fn law_bear_warns_when_quiet_is_over(bear: PolarBearEntity)
    ensures
        bear.warning_sound_ticks <= 0 ==> warned(bear).warning_sound_ticks == 40,
        bear.warning_sound_ticks > 0 ==> warned(bear) == bear,
        warned(bear).warning_sound_ticks > 0,
        warned(bear).is_standing == bear.is_standing,
        warned(bear).mob_entity == bear.mob_entity,
{
}

/// What polar bears pursue, and how urgently: this and nothing else.
pub proof fn law_what_polar_bears_pursue(e: GoalEntry)
    ensures
        polar_bear_goals().contains(e) <==> {
            ||| e.priority == 0 && e.goal == Goal::Swim
            ||| e.priority == 1 && e.goal == Goal::PolarBearMeleeAttack
            ||| e.priority == 1 && e.goal == (Goal::EscapeDanger { speed: 2000 })
            ||| e.priority == 4 && e.goal == (Goal::FollowParent { speed: 1250 })
            ||| e.priority == 5 && e.goal == (Goal::Wander { speed: 1000 })
            ||| e.priority == 6 && e.goal == (Goal::LookAt { kind: EntityKind::Player, range: 6000 })
            ||| e.priority == 7 && e.goal == Goal::LookAround
        },
        polar_bear_goals().len() == 7,
{
    let all = polar_bear_goals();
    assert(all[0] == (GoalEntry { priority: 0, goal: Goal::Swim }));
    assert(all[1] == (GoalEntry { priority: 1, goal: Goal::PolarBearMeleeAttack }));
    assert(all[2] == (GoalEntry { priority: 1, goal: Goal::EscapeDanger { speed: 2000 } }));
    assert(all[3] == (GoalEntry { priority: 4, goal: Goal::FollowParent { speed: 1250 } }));
    assert(all[4] == (GoalEntry { priority: 5, goal: Goal::Wander { speed: 1000 } }));
    assert(all[5] == (GoalEntry { priority: 6, goal: Goal::LookAt { kind: EntityKind::Player, range: 6000 } }));
    assert(all[6] == (GoalEntry { priority: 7, goal: Goal::LookAround }));
}

/// What polar bears go for, and how urgently: this and nothing else.
pub proof fn law_what_polar_bears_go_for(e: GoalEntry)
    ensures
        polar_bear_targets().contains(e) <==> {
            ||| e.priority == 1 && e.goal == Goal::PolarBearHurtByTarget
            ||| e.priority == 2 && e.goal == Goal::PolarBearAttackPlayers
            ||| e.priority == 3 && e.goal == (Goal::ActiveTarget { kind: EntityKind::Player, interval: 10, check_visibility: true, check_navigable: false, only: TargetRule::AngryAt, })
            ||| e.priority == 4 && e.goal == (Goal::ActiveTarget { kind: EntityKind::Fox, interval: 10, check_visibility: true, check_navigable: true, only: TargetRule::MobIsAdult, })
            ||| e.priority == 5 && e.goal == (Goal::ResetUniversalAnger { alert_others: false })
        },
        polar_bear_targets().len() == 5,
{
    let all = polar_bear_targets();
    assert(all[0] == (GoalEntry { priority: 1, goal: Goal::PolarBearHurtByTarget }));
    assert(all[1] == (GoalEntry { priority: 2, goal: Goal::PolarBearAttackPlayers }));
    assert(all[2] == (GoalEntry { priority: 3, goal: Goal::ActiveTarget { kind: EntityKind::Player, interval: 10, check_visibility: true, check_navigable: false, only: TargetRule::AngryAt, } }));
    assert(all[3] == (GoalEntry { priority: 4, goal: Goal::ActiveTarget { kind: EntityKind::Fox, interval: 10, check_visibility: true, check_navigable: true, only: TargetRule::MobIsAdult, } }));
    assert(all[4] == (GoalEntry { priority: 5, goal: Goal::ResetUniversalAnger { alert_others: false } }));
}

} // verus!
