//! What all mobs have in common.

use vstd::prelude::*;

use crate::goal::GoalEntry;

verus! {

/// The size of a mob, in hundred-thousandths of a block.
#[derive(Clone, Copy, PartialEq, Eq, Structural, Debug)]
pub struct Dimensions {
    pub width: u32,
    pub height: u32,
    pub eye_height: u32,
}

/// The state that every mob has.
pub struct MobEntity {
    /// Ticks since the mob grew up; negative while it is a baby.
    pub age: i32,
    /// Ticks for which the mob stays in love.
    pub love_ticks: i32,
    /// The player who made the mob fall in love.
    pub breeder: Option<u128>,
    /// The player who tamed the mob.
    pub owner: Option<u128>,
    /// Whether the owner told the mob to sit.
    pub ordered_to_sit: bool,
    /// Whether the mob picks items up from the ground.
    pub can_pick_up_loot: bool,
    /// What the mob does.
    pub goals: Vec<GoalEntry>,
    /// Whom the mob attacks.
    pub targets: Vec<GoalEntry>,
}

impl MobEntity {
    /// Whether the mob has an age and nobody has interacted with it yet. What it pursues is left
    /// open.
    pub open spec fn fresh(self, age: i32) -> bool {
        &&& self.age == age
        &&& self.love_ticks == 0
        &&& self.breeder is None
        &&& self.owner is None
        &&& !self.ordered_to_sit
        &&& !self.can_pick_up_loot
    }

    /// A mob of an age, without goals.
    pub fn new(age: i32) -> (mob: Self)
        ensures
            mob.fresh(age),
            mob.goals@ == Seq::<GoalEntry>::empty(),
            mob.targets@ == Seq::<GoalEntry>::empty(),
    {
        MobEntity {
            age,
            love_ticks: 0,
            breeder: None,
            owner: None,
            ordered_to_sit: false,
            can_pick_up_loot: false,
            goals: Vec::new(),
            targets: Vec::new(),
        }
    }

    /// A mob of an age, with its goals and its target goals.
    pub fn with_goals(age: i32, goals: Vec<GoalEntry>, targets: Vec<GoalEntry>) -> (mob: Self)
        ensures
            mob.fresh(age),
            mob.goals == goals,
            mob.targets == targets,
    {
        MobEntity {
            age,
            love_ticks: 0,
            breeder: None,
            owner: None,
            ordered_to_sit: false,
            can_pick_up_loot: false,
            goals,
            targets,
        }
    }

    pub fn is_baby(&self) -> (baby: bool)
        ensures
            baby == (self.age < 0),
    {
        self.age < 0
    }

    pub fn is_in_love(&self) -> (in_love: bool)
        ensures
            in_love == (self.love_ticks > 0),
    {
        self.love_ticks > 0
    }

    pub fn is_tamed(&self) -> (tamed: bool)
        ensures
            tamed == self.owner is Some,
    {
        self.owner.is_some()
    }

    pub fn set_love_ticks(&mut self, ticks: i32, breeder: Option<u128>)
        ensures
            *final(self) == (MobEntity { love_ticks: ticks, breeder, ..*old(self) }),
    {
        self.love_ticks = ticks;
        self.breeder = breeder;
    }

    pub fn set_owner(&mut self, owner: u128)
        ensures
            *final(self) == (MobEntity { owner: Some(owner), ..*old(self) }),
    {
        self.owner = Some(owner);
    }
}

} // verus!
