//! Cod.

use vstd::prelude::*;

use crate::fish::{goals_in_school, schooling_fish_goals};
use crate::goal::GoalEntry;
use crate::mob::MobEntity;

verus! {

/// A cod.
pub struct CodEntity {
    pub mob_entity: MobEntity,
}

impl CodEntity {
    /// A new cod.
    pub fn new(age: i32) -> (cod: Self)
        ensures
            cod.mob_entity.fresh(age),
            cod.mob_entity.goals@ == schooling_fish_goals(),
            cod.mob_entity.targets@ == Seq::<GoalEntry>::empty(),
    {
        CodEntity { mob_entity: MobEntity::with_goals(age, goals_in_school(), Vec::new()) }
    }
}

} // verus!
