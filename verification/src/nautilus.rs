//! Nautiluses.

use vstd::prelude::*;

use crate::goal::{entry, goal, look_at_player, watch_player, EntityKind, Goal, GoalEntry};
use crate::mob::MobEntity;

verus! {

/// What a nautilus pursues.
pub open spec fn nautilus_goals() -> Seq<GoalEntry> {
    seq![
        entry(0, Goal::EscapeDanger { speed: 1600 }),
        entry(4, Goal::Wander { speed: 1000 }),
        entry(5, look_at_player(8000)),
        entry(6, Goal::LookAround),
    ]
}

/// A nautilus.
pub struct NautilusEntity {
    pub mob_entity: MobEntity,
}

impl NautilusEntity {
    /// A new nautilus.
    pub fn new(age: i32) -> (nautilus: Self)
        ensures
            nautilus.mob_entity.fresh(age),
            nautilus.mob_entity.goals@ == nautilus_goals(),
            nautilus.mob_entity.targets@ == Seq::<GoalEntry>::empty(),
    {
        let goals = vec![
            goal(0, Goal::EscapeDanger { speed: 1600 }),
            goal(4, Goal::Wander { speed: 1000 }),
            goal(5, watch_player(8000)),
            goal(6, Goal::LookAround),
        ];
        NautilusEntity { mob_entity: MobEntity::with_goals(age, goals, Vec::new()) }
    }
}

/// What nautiluses pursue, and how urgently: this and nothing else.
pub proof fn law_what_nautiluses_pursue(e: GoalEntry)
    ensures
        nautilus_goals().contains(e) <==> {
            ||| e.priority == 0 && e.goal == (Goal::EscapeDanger { speed: 1600 })
            ||| e.priority == 4 && e.goal == (Goal::Wander { speed: 1000 })
            ||| e.priority == 5 && e.goal == (Goal::LookAt { kind: EntityKind::Player, range: 8000 })
            ||| e.priority == 6 && e.goal == Goal::LookAround
        },
        nautilus_goals().len() == 4,
{
    let all = nautilus_goals();
    assert(all[0] == (GoalEntry { priority: 0, goal: Goal::EscapeDanger { speed: 1600 } }));
    assert(all[1] == (GoalEntry { priority: 4, goal: Goal::Wander { speed: 1000 } }));
    assert(all[2] == (GoalEntry { priority: 5, goal: Goal::LookAt { kind: EntityKind::Player, range: 8000 } }));
    assert(all[3] == (GoalEntry { priority: 6, goal: Goal::LookAround }));
}

} // verus!
