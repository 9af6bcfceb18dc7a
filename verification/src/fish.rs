//! What fish have in common.

use vstd::prelude::*;

use crate::goal::{
    entry, goal, look_at_player, watch_player, AvoidRule, EntityKind, Goal, GoalEntry,
};

verus! {

/// Keeping away from players.
pub open spec fn fish_avoids_players() -> Goal {
    Goal::Avoid {
        kind: EntityKind::Player,
        distance: 8000,
        slow_speed: 1600,
        fast_speed: 1400,
        from: AvoidRule::Always,
    }
}

/// What a fish that lives alone pursues.
pub open spec fn lone_fish_goals() -> Seq<GoalEntry> {
    seq![
        entry(0, Goal::EscapeDanger { speed: 1250 }),
        entry(2, fish_avoids_players()),
        entry(4, Goal::WanderAtInterval { speed: 1000, interval: 40 }),
        entry(2, look_at_player(6000)),
        entry(3, Goal::LookAround),
    ]
}

/// What a fish that lives in a school pursues.
pub open spec fn schooling_fish_goals() -> Seq<GoalEntry> {
    seq![
        entry(0, Goal::EscapeDanger { speed: 1250 }),
        entry(2, fish_avoids_players()),
        entry(4, Goal::WanderAtInterval { speed: 1000, interval: 40 }),
        entry(5, Goal::FollowFlockLeader),
        entry(2, look_at_player(6000)),
        entry(3, Goal::LookAround),
    ]
}

fn avoid_players() -> (g: Goal)
    ensures
        g == fish_avoids_players(),
{
    Goal::Avoid {
        kind: EntityKind::Player,
        distance: 8000,
        slow_speed: 1600,
        fast_speed: 1400,
        from: AvoidRule::Always,
    }
}

/// What a fish that lives alone pursues.
pub fn goals_alone() -> (goals: Vec<GoalEntry>)
    ensures
        goals@ == lone_fish_goals(),
{
    vec![
        goal(0, Goal::EscapeDanger { speed: 1250 }),
        goal(2, avoid_players()),
        goal(4, Goal::WanderAtInterval { speed: 1000, interval: 40 }),
        goal(2, watch_player(6000)),
        goal(3, Goal::LookAround),
    ]
}

/// What a fish that lives in a school pursues.
pub fn goals_in_school() -> (goals: Vec<GoalEntry>)
    ensures
        goals@ == schooling_fish_goals(),
{
    vec![
        goal(0, Goal::EscapeDanger { speed: 1250 }),
        goal(2, avoid_players()),
        goal(4, Goal::WanderAtInterval { speed: 1000, interval: 40 }),
        goal(5, Goal::FollowFlockLeader),
        goal(2, watch_player(6000)),
        goal(3, Goal::LookAround),
    ]
}

/// What fish on their own pursue, and how urgently: this and nothing else.
pub proof fn law_what_fish_on_their_own_pursue(e: GoalEntry)
    ensures
        lone_fish_goals().contains(e) <==> {
            ||| e.priority == 0 && e.goal == (Goal::EscapeDanger { speed: 1250 })
            ||| e.priority == 2 && e.goal == (Goal::Avoid { kind: EntityKind::Player, distance: 8000, slow_speed: 1600, fast_speed: 1400, from: AvoidRule::Always, })
            ||| e.priority == 4 && e.goal == (Goal::WanderAtInterval { speed: 1000, interval: 40 })
            ||| e.priority == 2 && e.goal == (Goal::LookAt { kind: EntityKind::Player, range: 6000 })
            ||| e.priority == 3 && e.goal == Goal::LookAround
        },
        lone_fish_goals().len() == 5,
{
    let all = lone_fish_goals();
    assert(all[0] == (GoalEntry { priority: 0, goal: Goal::EscapeDanger { speed: 1250 } }));
    assert(all[1] == (GoalEntry { priority: 2, goal: Goal::Avoid { kind: EntityKind::Player, distance: 8000, slow_speed: 1600, fast_speed: 1400, from: AvoidRule::Always, } }));
    assert(all[2] == (GoalEntry { priority: 4, goal: Goal::WanderAtInterval { speed: 1000, interval: 40 } }));
    assert(all[3] == (GoalEntry { priority: 2, goal: Goal::LookAt { kind: EntityKind::Player, range: 6000 } }));
    assert(all[4] == (GoalEntry { priority: 3, goal: Goal::LookAround }));
}

/// What fish in schools pursue, and how urgently: this and nothing else.
pub proof fn law_what_fish_in_schools_pursue(e: GoalEntry)
    ensures
        schooling_fish_goals().contains(e) <==> {
            ||| e.priority == 0 && e.goal == (Goal::EscapeDanger { speed: 1250 })
            ||| e.priority == 2 && e.goal == (Goal::Avoid { kind: EntityKind::Player, distance: 8000, slow_speed: 1600, fast_speed: 1400, from: AvoidRule::Always, })
            ||| e.priority == 4 && e.goal == (Goal::WanderAtInterval { speed: 1000, interval: 40 })
            ||| e.priority == 5 && e.goal == Goal::FollowFlockLeader
            ||| e.priority == 2 && e.goal == (Goal::LookAt { kind: EntityKind::Player, range: 6000 })
            ||| e.priority == 3 && e.goal == Goal::LookAround
        },
        schooling_fish_goals().len() == 6,
{
    let all = schooling_fish_goals();
    assert(all[0] == (GoalEntry { priority: 0, goal: Goal::EscapeDanger { speed: 1250 } }));
    assert(all[1] == (GoalEntry { priority: 2, goal: Goal::Avoid { kind: EntityKind::Player, distance: 8000, slow_speed: 1600, fast_speed: 1400, from: AvoidRule::Always, } }));
    assert(all[2] == (GoalEntry { priority: 4, goal: Goal::WanderAtInterval { speed: 1000, interval: 40 } }));
    assert(all[3] == (GoalEntry { priority: 5, goal: Goal::FollowFlockLeader }));
    assert(all[4] == (GoalEntry { priority: 2, goal: Goal::LookAt { kind: EntityKind::Player, range: 6000 } }));
    assert(all[5] == (GoalEntry { priority: 3, goal: Goal::LookAround }));
}

} // verus!
