//! What bees do: sting, gather nectar, go home, and help crops grow.

use vstd::prelude::*;

use crate::bee::{
    arrived, has_reached_target, is_too_far_away, latest, too_far_away, BeeEntity,
    BeehiveBlockEntity, COOLDOWN_BEFORE_LOCATING_NEW_FLOWER, COOLDOWN_BEFORE_LOCATING_NEW_HIVE,
    FLAG_HAS_NECTAR, FLAG_HAS_STUNG, MAX_FIND_FLOWER_RETRY_COOLDOWN, MIN_FIND_FLOWER_RETRY_COOLDOWN,
};
use crate::bee_search::{find_nearby_flower, is_closest_flower, FLOWER_SEARCH_RADIUS};
use crate::block::Block;
use crate::double::{is_less, less};
use crate::effect::{group_effects, Effect, Sound, SyncedValue};
use crate::flags::{has_flag, law_flag_reads_back, with_flag};
use crate::goal::{Controls, Goal};
use crate::position::{has_room, BlockPos};
use crate::random::{chance, roll};
use crate::ticks::counted_up;

verus! {

pub const MAX_TRAVELLING_TICKS: i32 = 2400;

pub const TICKS_BEFORE_HIVE_DROP: i32 = 60;

pub const MIN_POLLINATION_TICKS: i32 = 400;

pub const MAX_POLLINATING_TICKS: i32 = 600;

/// Ticks between two sounds of pollination.
pub const POLLINATION_SOUND_TICKS: i32 = 60;

/// The distance up to which a bee hovers at a flower, one block, by its bits.
pub const HOVER_DISTANCE: u64 = 0x3FF0_0000_0000_0000;

/// How far above the floor of its block a flower is visited, in thousandths.
pub const HOVER_HEIGHT_WITHIN_FLOWER: u32 = 600;

pub const VALIDATE_COOLDOWN_MIN: i32 = 20;

pub const VALIDATE_COOLDOWN_MAX: i32 = 40;

pub const TICKS_WITHOUT_NECTAR_BEFORE_SEEKING_KNOWN_FLOWER: i32 = 600;

pub const MAX_FLOWER_TRAVELLING_TICKS: i32 = 2400;

pub const GROW_CHANCE: i32 = 30;

pub const MAX_CROPS_GROWN_PER_POLLINATION: i32 = 10;

/// The largest finite number, by its bits: farther away is no hive.
pub const FARTHEST: u64 = 0x7FEF_FFFF_FFFF_FFFF;

/// How fast an attacking bee is, in thousandths.
pub const ATTACK_SPEED: u32 = 1400;

/// Attacking with the sting, by a melee attack while the bee has one.
#[derive(Clone, Copy, PartialEq, Eq, Structural, Debug)]
pub struct BeeAttackGoal {
    pub melee: Goal,
}

/// Whether a bee goes at what it is angry at.
pub open spec fn may_attack(bee: BeeEntity, angry: bool) -> bool {
    !has_flag(bee.flags, FLAG_HAS_STUNG) && angry
}

impl BeeAttackGoal {
    pub fn new() -> (goal: Self)
        ensures
            goal.melee == (Goal::MeleeAttack { speed: ATTACK_SPEED, pause_when_idle: true }),
    {
        BeeAttackGoal { melee: Goal::MeleeAttack { speed: ATTACK_SPEED, pause_when_idle: true } }
    }

    /// Whether the bee attacks, given whether the melee attack can be pursued.
    pub fn can_start(&self, bee: &BeeEntity, angry: bool, melee: bool) -> (starts: bool)
        ensures
            starts == (may_attack(*bee, angry) && melee),
    {
        self.can_sting(bee, angry) && melee
    }

    /// Whether the bee goes on, given whether the melee attack goes on.
    pub fn should_continue(&self, bee: &BeeEntity, angry: bool, melee: bool) -> (goes: bool)
        ensures
            goes == (may_attack(*bee, angry) && melee),
    {
        self.can_sting(bee, angry) && melee
    }

    /// Whether the bee still has its sting and is angry.
    pub fn can_sting(&self, bee: &BeeEntity, angry: bool) -> (can: bool)
        ensures
            can == may_attack(*bee, angry),
    {
        !bee.has_stung() && angry
    }
}

/// Gathering nectar from a flower.
#[derive(Clone, Copy, PartialEq, Eq, Structural, Debug)]
pub struct BeePollinateGoal {
    pub successful_pollinating_ticks: i32,
    pub last_sound_played_tick: i32,
    pub pollinating: bool,
    pub pollinating_ticks: i32,
}

/// What a search for a flower makes of a bee that may look for one.
pub open spec fn searched(bee: BeeEntity, found: Option<BlockPos>, retry: i32) -> BeeEntity {
    match found {
        Some(pos) => BeeEntity { flower_pos: Some(pos), ..bee },
        None => BeeEntity { flower_cooldown: retry, ..bee },
    }
}

/// What a search for a flower asks of the host.
pub open spec fn search_effects(found: Option<BlockPos>) -> Seq<Effect> {
    match found {
        Some(pos) => seq![fly_to_flower(pos)],
        None => seq![],
    }
}

/// Flying to a flower.
pub open spec fn fly_to_flower(pos: BlockPos) -> Effect {
    Effect::MoveTo { pos, height: HOVER_HEIGHT_WITHIN_FLOWER, speed: 1200 }
}

/// Whether a bee may look for a flower.
pub open spec fn may_search(bee: BeeEntity, raining: bool) -> bool {
    bee.flower_cooldown <= 0 && !has_flag(bee.flags, FLAG_HAS_NECTAR) && !raining
}

/// What gathering nectar does in one tick to a bee.
pub open spec fn pollinating_bee(goal: BeePollinateGoal, bee: BeeEntity) -> BeeEntity {
    if bee.flower_pos is Some && goal.pollinating_ticks + 1 > MAX_POLLINATING_TICKS {
        BeeEntity {
            flower_pos: None,
            pollinating: false,
            flower_cooldown: COOLDOWN_BEFORE_LOCATING_NEW_FLOWER,
            ..bee
        }
    } else {
        bee
    }
}

/// Whether the sound of pollination is heard in this tick.
pub open spec fn buzzes(goal: BeePollinateGoal, lucky: bool) -> bool {
    lucky && goal.successful_pollinating_ticks + 1 > goal.last_sound_played_tick
        + POLLINATION_SOUND_TICKS
}

/// The goal after one tick.
pub open spec fn pollination_ticked(
    goal: BeePollinateGoal,
    bee: BeeEntity,
    distance: u64,
    lucky: bool,
) -> BeePollinateGoal {
    if bee.flower_pos is None {
        goal
    } else if goal.pollinating_ticks + 1 > MAX_POLLINATING_TICKS {
        BeePollinateGoal {
            pollinating: false,
            pollinating_ticks: (goal.pollinating_ticks + 1) as i32,
            ..goal
        }
    } else if less(HOVER_DISTANCE, distance) {
        BeePollinateGoal { pollinating_ticks: (goal.pollinating_ticks + 1) as i32, ..goal }
    } else {
        BeePollinateGoal {
            pollinating_ticks: (goal.pollinating_ticks + 1) as i32,
            successful_pollinating_ticks: (goal.successful_pollinating_ticks + 1) as i32,
            last_sound_played_tick: if buzzes(goal, lucky) {
                (goal.successful_pollinating_ticks + 1) as i32
            } else {
                goal.last_sound_played_tick
            },
            ..goal
        }
    }
}

/// What a tick of gathering nectar asks of the host.
pub open spec fn pollination_effects(
    goal: BeePollinateGoal,
    bee: BeeEntity,
    distance: u64,
    idle: bool,
    lucky: bool,
) -> Seq<Effect> {
    match bee.flower_pos {
        Some(pos) if goal.pollinating_ticks + 1 <= MAX_POLLINATING_TICKS => {
            if less(HOVER_DISTANCE, distance) {
                if idle {
                    seq![fly_to_flower(pos)]
                } else {
                    seq![]
                }
            } else {
                let hover = seq![
                    Effect::StopNavigation,
                    Effect::LookAtBlock { pos, height: HOVER_HEIGHT_WITHIN_FLOWER },
                ];
                if buzzes(goal, lucky) {
                    hover.push(Effect::Play(Sound::BeePollinate))
                } else {
                    hover
                }
            }
        },
        _ => seq![],
    }
}

/// Whether a bee stays at its flower; luck decides once it has been there long enough.
pub open spec fn stays_at_flower(
    goal: BeePollinateGoal,
    bee: BeeEntity,
    raining: bool,
    lucky: bool,
) -> bool {
    &&& goal.pollinating && bee.flower_pos is Some && !raining
    &&& goal.successful_pollinating_ticks > MIN_POLLINATION_TICKS ==> lucky
}

/// A bee that leaves its flower, with nectar if it has been there long enough.
pub open spec fn left_flower(goal: BeePollinateGoal, bee: BeeEntity) -> BeeEntity {
    let enough = goal.successful_pollinating_ticks > MIN_POLLINATION_TICKS;
    BeeEntity {
        flags: if enough {
            with_flag(bee.flags, FLAG_HAS_NECTAR, true)
        } else {
            bee.flags
        },
        ticks_without_nectar: if enough {
            0
        } else {
            bee.ticks_without_nectar
        },
        flower_cooldown: COOLDOWN_BEFORE_LOCATING_NEW_FLOWER,
        pollinating: false,
        ..bee
    }
}

/// What leaving a flower asks of the host.
pub open spec fn left_flower_effects(goal: BeePollinateGoal, bee: BeeEntity) -> Seq<Effect> {
    (if goal.successful_pollinating_ticks > MIN_POLLINATION_TICKS {
        crate::bee::flag_effects(bee.flags, FLAG_HAS_NECTAR, true)
    } else {
        seq![]
    }) + seq![Effect::StopNavigation]
}

impl BeePollinateGoal {
    /// The counters are in order.
    pub open spec fn wf(self) -> bool {
        0 <= self.last_sound_played_tick <= self.successful_pollinating_ticks
            <= self.pollinating_ticks && self.successful_pollinating_ticks <= MAX_POLLINATING_TICKS
    }

    pub fn new() -> (goal: Self)
        ensures
            goal == (BeePollinateGoal {
                successful_pollinating_ticks: 0,
                last_sound_played_tick: 0,
                pollinating: false,
                pollinating_ticks: 0,
            }),
            goal.wf(),
    {
        BeePollinateGoal {
            successful_pollinating_ticks: 0,
            last_sound_played_tick: 0,
            pollinating: false,
            pollinating_ticks: 0,
        }
    }

    pub fn should_run_every_tick(&self) -> (every: bool)
        ensures
            every,
    {
        true
    }

    /// What the goal needs for itself: to move the bee.
    pub fn controls(&self) -> (controls: Controls)
        ensures
            controls == Controls::Move,
    {
        Controls::Move
    }

    pub fn has_pollinated_long_enough(&self) -> (enough: bool)
        ensures
            enough == (self.successful_pollinating_ticks > MIN_POLLINATION_TICKS),
    {
        self.successful_pollinating_ticks > MIN_POLLINATION_TICKS
    }

    /// Whether the bee goes to a flower, given the outcome of its search and how long it waits
    /// after a vain one.
    pub fn start_with_flower(
        &self,
        bee: &mut BeeEntity,
        raining: bool,
        found: Option<BlockPos>,
        retry: i32,
        effects: &mut Vec<Effect>,
    ) -> (starts: bool)
        ensures
            starts == (may_search(*old(bee), raining) && found is Some),
            *final(bee) == (if may_search(*old(bee), raining) {
                searched(*old(bee), found, retry)
            } else {
                *old(bee)
            }),
            final(effects)@ == old(effects)@ + (if may_search(*old(bee), raining) {
                search_effects(found)
            } else {
                seq![]
            }),
    {
        if bee.flower_cooldown > 0 || bee.has_nectar() {
            return false;
        }
        if raining {
            return false;
        }
        match found {
            Some(pos) => {
                bee.flower_pos = Some(pos);
                effects.push(
                    Effect::MoveTo { pos, height: HOVER_HEIGHT_WITHIN_FLOWER, speed: 1200 },
                );
                true
            },
            None => {
                bee.flower_cooldown = retry;
                false
            },
        }
    }

    /// Whether the bee goes to a flower: it does if it may look for one and finds one.
    /// `attracts` says whether the block at a position draws bees.
    pub fn can_start<F: Fn(BlockPos) -> bool>(
        &self,
        bee: &mut BeeEntity,
        raining: bool,
        origin: BlockPos,
        attracts: F,
        effects: &mut Vec<Effect>,
    ) -> (starts: bool)
        requires
            has_room(origin, FLOWER_SEARCH_RADIUS as int),
            forall|pos: BlockPos| call_requires(attracts, (pos,)),
        ensures
            !may_search(*old(bee), raining) ==> !starts && *final(bee) == *old(bee)
                && final(effects)@ == old(effects)@,
            may_search(*old(bee), raining) ==> exists|found: Option<BlockPos>, retry: i32|
                {
                    &&& is_closest_flower(found, origin, attracts)
                    &&& MIN_FIND_FLOWER_RETRY_COOLDOWN <= retry <= MAX_FIND_FLOWER_RETRY_COOLDOWN
                    &&& starts == found is Some
                    &&& *final(bee) == #[trigger] searched(*old(bee), found, retry)
                    &&& final(effects)@ == old(effects)@ + search_effects(found)
                },
    {
        if bee.flower_cooldown > 0 || bee.has_nectar() {
            return false;
        }
        if raining {
            return false;
        }
        let found = find_nearby_flower(origin, attracts);
        let retry: i32 = roll(
            MIN_FIND_FLOWER_RETRY_COOLDOWN,
            MAX_FIND_FLOWER_RETRY_COOLDOWN + 1,
        );
        let starts = self.start_with_flower(bee, raining, found, retry, effects);
        assert(*bee == searched(*old(bee), found, retry));
        starts
    }

    /// Whether the bee goes on. Once it has enough, it goes on only if it is lucky.
    pub fn continues_with_luck(&self, bee: &BeeEntity, raining: bool, lucky: bool) -> (goes: bool)
        ensures
            goes == stays_at_flower(*self, *bee, raining, lucky),
    {
        if !self.pollinating || bee.flower_pos.is_none() {
            return false;
        }
        if raining {
            return false;
        }
        if self.has_pollinated_long_enough() {
            return lucky;
        }
        true
    }

    /// Whether the bee goes on.
    pub fn should_continue(&self, bee: &BeeEntity, raining: bool) -> (goes: bool)
        ensures
            goes ==> stays_at_flower(*self, *bee, raining, true),
            stays_at_flower(*self, *bee, raining, false) ==> goes,
    {
        let lucky = chance(1, 5);
        self.continues_with_luck(bee, raining, lucky)
    }

    pub fn start(&mut self, bee: &mut BeeEntity)
        ensures
            final(self).wf(),
            *final(self) == (BeePollinateGoal {
                successful_pollinating_ticks: 0,
                last_sound_played_tick: 0,
                pollinating: true,
                pollinating_ticks: 0,
            }),
            *final(bee) == (BeeEntity {
                pollinating: true,
                ticks_without_nectar: 0,
                ..*old(bee)
            }),
    {
        self.successful_pollinating_ticks = 0;
        self.pollinating_ticks = 0;
        self.last_sound_played_tick = 0;
        self.pollinating = true;
        bee.pollinating = true;
        bee.reset_ticks_without_nectar();
    }

    /// Ends the visit. A bee that stayed long enough carries nectar now.
    pub fn stop(&mut self, bee: &mut BeeEntity, effects: &mut Vec<Effect>)
        ensures
            *final(self) == (BeePollinateGoal { pollinating: false, ..*old(self) }),
            *final(bee) == left_flower(*old(self), *old(bee)),
            final(effects)@ == old(effects)@ + left_flower_effects(*old(self), *old(bee)),
    {
        if self.has_pollinated_long_enough() {
            bee.set_has_nectar(true, effects);
        }
        bee.flower_cooldown = COOLDOWN_BEFORE_LOCATING_NEW_FLOWER;
        bee.pollinating = false;
        self.pollinating = false;
        effects.push(Effect::StopNavigation);
    }

    /// One tick. The distance to the flower is given by its bits; `idle` says whether the bee
    /// flies nowhere, and `lucky` whether it feels like buzzing.
    pub fn tick_with_luck(
        &mut self,
        bee: &mut BeeEntity,
        distance: u64,
        idle: bool,
        lucky: bool,
        effects: &mut Vec<Effect>,
    )
        requires
            old(self).wf(),
            old(self).pollinating_ticks < i32::MAX,
        ensures
            final(self).wf(),
            *final(self) == pollination_ticked(*old(self), *old(bee), distance, lucky),
            *final(bee) == pollinating_bee(*old(self), *old(bee)),
            final(effects)@ == old(effects)@ + pollination_effects(
                *old(self),
                *old(bee),
                distance,
                idle,
                lucky,
            ),
    {
        let pos = match bee.flower_pos {
            Some(pos) => pos,
            None => {
                return ;
            },
        };
        self.pollinating_ticks = self.pollinating_ticks + 1;
        if self.pollinating_ticks > MAX_POLLINATING_TICKS {
            bee.drop_flower_for(COOLDOWN_BEFORE_LOCATING_NEW_FLOWER);
            self.pollinating = false;
            bee.pollinating = false;
            return ;
        }
        if is_less(HOVER_DISTANCE, distance) {
            if idle {
                effects.push(
                    Effect::MoveTo { pos, height: HOVER_HEIGHT_WITHIN_FLOWER, speed: 1200 },
                );
            }
            return ;
        }
        effects.push(Effect::StopNavigation);
        effects.push(Effect::LookAtBlock { pos, height: HOVER_HEIGHT_WITHIN_FLOWER });
        self.successful_pollinating_ticks = self.successful_pollinating_ticks + 1;
        if lucky && self.successful_pollinating_ticks > self.last_sound_played_tick
            + POLLINATION_SOUND_TICKS {
            self.last_sound_played_tick = self.successful_pollinating_ticks;
            effects.push(Effect::Play(Sound::BeePollinate));
        }
    }

    /// One tick.
    pub fn tick(&mut self, bee: &mut BeeEntity, distance: u64, idle: bool, effects: &mut Vec<Effect>)
        requires
            old(self).wf(),
            old(self).pollinating_ticks < i32::MAX,
        ensures
            final(self).wf(),
            *final(bee) == pollinating_bee(*old(self), *old(bee)),
            exists|lucky: bool|
                *final(self) == #[trigger] pollination_ticked(
                    *old(self),
                    *old(bee),
                    distance,
                    lucky,
                ) && final(effects)@ == old(effects)@ + pollination_effects(
                    *old(self),
                    *old(bee),
                    distance,
                    idle,
                    lucky,
                ),
    {
        let lucky = chance(1, 20);
        self.tick_with_luck(bee, distance, idle, lucky, effects);
    }
}

/// Going into the hive.
pub struct BeeEnterHiveGoal;

/// Whether a bee that wants to go in is at its hive.
pub open spec fn at_its_hive(
    bee: BeeEntity,
    wants_to_enter: bool,
    distance: u64,
    hive: Option<&BeehiveBlockEntity>,
) -> bool {
    bee.hive_pos is Some && wants_to_enter && arrived(distance) && hive is Some
}

/// Whether a bee goes into its hive.
pub open spec fn goes_in(
    bee: BeeEntity,
    wants_to_enter: bool,
    distance: u64,
    hive: Option<&BeehiveBlockEntity>,
) -> bool {
    at_its_hive(bee, wants_to_enter, distance, hive) && !hive->0.full
}

/// A bee that has tried to go into its hive; it forgets a full one.
pub open spec fn tried_hive(
    bee: BeeEntity,
    wants_to_enter: bool,
    distance: u64,
    hive: Option<&BeehiveBlockEntity>,
) -> BeeEntity {
    if at_its_hive(bee, wants_to_enter, distance, hive) && hive->0.full {
        BeeEntity { hive_pos: None, ..bee }
    } else {
        bee
    }
}

impl BeeEnterHiveGoal {
    /// Whether the bee goes in. It forgets a full hive that it stands in front of.
    pub fn can_start(
        &self,
        bee: &mut BeeEntity,
        wants_to_enter: bool,
        distance: u64,
        hive: Option<&BeehiveBlockEntity>,
    ) -> (starts: bool)
        ensures
            starts == goes_in(*old(bee), wants_to_enter, distance, hive),
            *final(bee) == tried_hive(*old(bee), wants_to_enter, distance, hive),
    {
        if bee.hive_pos.is_none() {
            return false;
        }
        if !wants_to_enter || !has_reached_target(distance) {
            return false;
        }
        match hive {
            None => false,
            Some(hive) => {
                if hive.full {
                    bee.hive_pos = None;
                    return false;
                }
                true
            },
        }
    }

    pub fn start(&self, bee: &BeeEntity, hive: Option<&BeehiveBlockEntity>, effects: &mut Vec<Effect>)
        ensures
            final(effects)@ == old(effects)@ + (if hive is Some {
                seq![Effect::EnterHive { flower: bee.flower_pos }]
            } else {
                seq![]
            }),
    {
        if hive.is_some() {
            effects.push(Effect::EnterHive { flower: bee.flower_pos });
        }
    }
}

/// Looking for a hive.
pub struct BeeLocateHiveGoal;

/// The first of some hives that is not on a list, if there is one.
pub open spec fn first_allowed(hives: Seq<BlockPos>, blacklist: Seq<BlockPos>) -> Option<BlockPos>
    decreases hives.len(),
{
    if hives.len() == 0 {
        None
    } else if !blacklist.contains(hives[0]) {
        Some(hives[0])
    } else {
        first_allowed(hives.skip(1), blacklist)
    }
}

/// Whether a bee looks round for a hive.
pub open spec fn looks_for_hive(bee: BeeEntity, wants_to_enter: bool) -> bool {
    bee.hive_cooldown == 0 && bee.hive_pos is None && wants_to_enter
}

/// The hive that a bee settles on among those found, closest first.
pub open spec fn settles_on(bee: BeeEntity, hives: Seq<BlockPos>) -> Option<BlockPos> {
    if hives.len() == 0 {
        bee.hive_pos
    } else if first_allowed(hives, bee.hive_blacklist@) is Some {
        first_allowed(hives, bee.hive_blacklist@)
    } else {
        Some(hives[0])
    }
}

/// The hives that a bee still avoids after it has settled on one.
pub open spec fn still_avoided(bee: BeeEntity, hives: Seq<BlockPos>) -> Seq<BlockPos> {
    if hives.len() > 0 && first_allowed(hives, bee.hive_blacklist@) is None {
        Seq::empty()
    } else {
        bee.hive_blacklist@
    }
}

impl BeeLocateHiveGoal {
    pub fn can_start(&self, bee: &BeeEntity, wants_to_enter: bool) -> (starts: bool)
        ensures
            starts == looks_for_hive(*bee, wants_to_enter),
    {
        bee.hive_cooldown == 0 && !bee.has_hive() && wants_to_enter
    }

    /// Chooses among hives, the closest first. Hives that the bee could not get into come
    /// last: only if there are no others does it forget about them and take the closest.
    pub fn start(&self, bee: &mut BeeEntity, hives: &Vec<BlockPos>)
        requires
            old(bee).wf(),
        ensures
            final(bee).wf(),
            *final(bee) == (BeeEntity {
                hive_cooldown: COOLDOWN_BEFORE_LOCATING_NEW_HIVE,
                hive_pos: settles_on(*old(bee), hives@),
                hive_blacklist: final(bee).hive_blacklist,
                ..*old(bee)
            }),
            final(bee).hive_blacklist@ == still_avoided(*old(bee), hives@),
    {
        bee.hive_cooldown = COOLDOWN_BEFORE_LOCATING_NEW_HIVE;
        if hives.len() == 0 {
            return ;
        }
        let mut i: usize = 0;
        assert(hives@.skip(0) =~= hives@);
        while i < hives.len()
            invariant
                i <= hives.len(),
                *bee == (BeeEntity {
                    hive_cooldown: COOLDOWN_BEFORE_LOCATING_NEW_HIVE,
                    ..*old(bee)
                }),
                old(bee).wf(),
                hives@.len() > 0,
                first_allowed(hives@, old(bee).hive_blacklist@) == first_allowed(
                    hives@.skip(i as int),
                    old(bee).hive_blacklist@,
                ),
            decreases hives.len() - i,
        {
            assert(hives@.skip(i as int)[0] == hives@[i as int]);
            assert(hives@.skip(i as int).skip(1) =~= hives@.skip(i + 1));
            if !bee.is_hive_blacklisted(hives[i]) {
                bee.hive_pos = Some(hives[i]);
                return ;
            }
            i = i + 1;
        }
        bee.clear_hive_blacklist();
        bee.hive_pos = Some(hives[0]);
    }
}

/// A hive that a bee chose is one of those it was offered.
pub proof fn law_chosen_hive_is_offered(hives: Seq<BlockPos>, blacklist: Seq<BlockPos>)
    ensures
        match first_allowed(hives, blacklist) {
            Some(pos) => hives.contains(pos) && !blacklist.contains(pos),
            None => forall|i: int| 0 <= i < hives.len() ==> blacklist.contains(#[trigger] hives[i]),
        },
    decreases hives.len(),
{
    if hives.len() > 0 {
        let rest = hives.skip(1);
        law_chosen_hive_is_offered(rest, blacklist);
        if blacklist.contains(hives[0]) {
            match first_allowed(rest, blacklist) {
                Some(pos) => {
                    let i = choose|i: int| 0 <= i < rest.len() && rest[i] == pos;
                    assert(hives[i + 1] == pos);
                },
                None => {
                    assert forall|i: int| 0 <= i < hives.len() implies blacklist.contains(
                        #[trigger] hives[i],
                    ) by {
                        if i > 0 {
                            assert(rest[i - 1] == hives[i]);
                        }
                    }
                },
            }
        } else {
            assert(hives[0] == first_allowed(hives, blacklist)->0);
        }
    }
}

/// Flying home.
#[derive(Clone, Copy, PartialEq, Eq, Structural, Debug)]
pub struct BeeGoToHiveGoal {
    pub travelling_ticks: i32,
    pub ticks_stuck: i32,
    /// The square of the least distance to the hive so far, by its bits.
    pub best_distance: u64,
}

/// What became of a bee on its way home in one tick.
pub enum HomeFlight {
    /// It has no hive to fly to.
    NoHive,
    /// It gave up, and remembers that it could not get there.
    GaveUp,
    /// It forgot the hive, which is too far away.
    TooFar,
    /// It flies on.
    Flying,
}

/// What becomes of a bee on its way home in one tick.
pub open spec fn home_flight(
    goal: BeeGoToHiveGoal,
    bee: BeeEntity,
    distance: u64,
) -> HomeFlight {
    if bee.hive_pos is None {
        HomeFlight::NoHive
    } else if goal.travelling_ticks + 1 > MAX_TRAVELLING_TICKS {
        HomeFlight::GaveUp
    } else if too_far_away(distance) {
        HomeFlight::TooFar
    } else if !less(distance, goal.best_distance) && goal.ticks_stuck + 1 > TICKS_BEFORE_HIVE_DROP {
        HomeFlight::GaveUp
    } else {
        HomeFlight::Flying
    }
}

/// The goal after one tick on the way home.
pub open spec fn home_flight_ticked(
    goal: BeeGoToHiveGoal,
    bee: BeeEntity,
    distance: u64,
) -> BeeGoToHiveGoal {
    if bee.hive_pos is None {
        goal
    } else if goal.travelling_ticks + 1 > MAX_TRAVELLING_TICKS || too_far_away(distance) {
        BeeGoToHiveGoal { travelling_ticks: (goal.travelling_ticks + 1) as i32, ..goal }
    } else if less(distance, goal.best_distance) {
        BeeGoToHiveGoal {
            travelling_ticks: (goal.travelling_ticks + 1) as i32,
            ticks_stuck: 0,
            best_distance: distance,
        }
    } else {
        BeeGoToHiveGoal {
            travelling_ticks: (goal.travelling_ticks + 1) as i32,
            ticks_stuck: (goal.ticks_stuck + 1) as i32,
            ..goal
        }
    }
}

/// Whether a bee sets out for its hive.
pub open spec fn sets_out_for_hive(
    bee: BeeEntity,
    distance: u64,
    wants_to_enter: bool,
    is_beehive: bool,
) -> bool {
    bee.hive_pos is Some && !too_far_away(distance) && !arrived(distance) && wants_to_enter
        && is_beehive
}

/// A bee on its way home, which gives its hive up where the way does not lead there.
pub open spec fn flown_home(
    bee: BeeEntity,
    flight: HomeFlight,
    blacklist: Vec<BlockPos>,
) -> BeeEntity {
    if flight is GaveUp || flight is TooFar {
        BeeEntity {
            hive_pos: None,
            hive_cooldown: COOLDOWN_BEFORE_LOCATING_NEW_HIVE,
            hive_blacklist: blacklist,
            ..bee
        }
    } else {
        BeeEntity { hive_blacklist: blacklist, ..bee }
    }
}

/// The hives that a bee avoids after a tick on its way home.
pub open spec fn avoided_after_flight(bee: BeeEntity, flight: HomeFlight) -> Seq<BlockPos> {
    if flight is GaveUp {
        latest(bee.hive_blacklist@.push(bee.hive_pos->0))
    } else {
        bee.hive_blacklist@
    }
}

/// What a tick on the way home asks of the host.
pub open spec fn home_flight_effects(bee: BeeEntity, flight: HomeFlight, idle: bool) -> Seq<Effect> {
    if flight is Flying && idle {
        seq![Effect::MoveTo { pos: bee.hive_pos->0, height: 500, speed: 1000 }]
    } else {
        seq![]
    }
}

impl BeeGoToHiveGoal {
    pub fn new() -> (goal: Self)
        ensures
            goal == (BeeGoToHiveGoal {
                travelling_ticks: 0,
                ticks_stuck: 0,
                best_distance: FARTHEST,
            }),
    {
        BeeGoToHiveGoal { travelling_ticks: 0, ticks_stuck: 0, best_distance: FARTHEST }
    }

    pub fn should_run_every_tick(&self) -> (every: bool)
        ensures
            every,
    {
        true
    }

    /// What the goal needs for itself: to move the bee.
    pub fn controls(&self) -> (controls: Controls)
        ensures
            controls == Controls::Move,
    {
        Controls::Move
    }

    /// Whether the bee sets out: it has a hive, which is neither too far away nor reached, it
    /// wants to go in, and a hive still stands there.
    pub fn can_use(
        bee: &BeeEntity,
        distance: u64,
        wants_to_enter: bool,
        is_beehive: bool,
    ) -> (can: bool)
        ensures
            can == sets_out_for_hive(*bee, distance, wants_to_enter, is_beehive),
    {
        if bee.hive_pos.is_none() {
            return false;
        }
        if is_too_far_away(distance) || has_reached_target(distance) {
            return false;
        }
        if !wants_to_enter {
            return false;
        }
        is_beehive
    }

    pub fn start(&mut self)
        ensures
            *final(self) == (BeeGoToHiveGoal {
                travelling_ticks: 0,
                ticks_stuck: 0,
                best_distance: FARTHEST,
            }),
    {
        self.travelling_ticks = 0;
        self.ticks_stuck = 0;
        self.best_distance = FARTHEST;
    }

    pub fn stop(&mut self, effects: &mut Vec<Effect>)
        ensures
            *final(self) == (BeeGoToHiveGoal {
                travelling_ticks: 0,
                ticks_stuck: 0,
                best_distance: FARTHEST,
            }),
            final(effects)@ == old(effects)@.push(Effect::StopNavigation),
    {
        self.start();
        effects.push(Effect::StopNavigation);
    }

    /// One tick. The square of the distance to the hive is given by its bits; `idle` says whether
    /// the bee flies nowhere. A bee that travelled for too long, or that comes no closer for too
    /// long, gives the hive up.
    pub fn tick(
        &mut self,
        bee: &mut BeeEntity,
        distance: u64,
        idle: bool,
        effects: &mut Vec<Effect>,
    )
        requires
            old(bee).wf(),
            old(self).travelling_ticks < i32::MAX,
            old(self).ticks_stuck < i32::MAX,
        ensures
            final(bee).wf(),
            *final(self) == home_flight_ticked(*old(self), *old(bee), distance),
            ({
                let flight = home_flight(*old(self), *old(bee), distance);
                &&& *final(bee) == flown_home(*old(bee), flight, final(bee).hive_blacklist)
                &&& final(bee).hive_blacklist@ == avoided_after_flight(*old(bee), flight)
                &&& final(effects)@ == old(effects)@ + home_flight_effects(
                    *old(bee),
                    flight,
                    idle,
                )
            }),
    {
        let pos = match bee.hive_pos {
            Some(pos) => pos,
            None => {
                return ;
            },
        };
        self.travelling_ticks = self.travelling_ticks + 1;
        if self.travelling_ticks > MAX_TRAVELLING_TICKS {
            bee.drop_and_blacklist_hive();
            return ;
        }
        if is_too_far_away(distance) {
            bee.drop_hive();
            return ;
        }
        if is_less(distance, self.best_distance) {
            self.best_distance = distance;
            self.ticks_stuck = 0;
        } else {
            self.ticks_stuck = self.ticks_stuck + 1;
            if self.ticks_stuck > TICKS_BEFORE_HIVE_DROP {
                bee.drop_and_blacklist_hive();
                return ;
            }
        }
        if idle {
            effects.push(Effect::MoveTo { pos, height: 500, speed: 1000 });
        }
    }
}

/// A wait between two checks.
#[derive(Clone, Copy, PartialEq, Eq, Structural, Debug)]
pub struct Validation {
    pub cooldown: i64,
    pub last_validate_tick: i64,
}

/// Whether it is time to look again at what a bee remembers.
pub open spec fn is_time_to_look(validation: Validation, angry: bool, game_time: i64) -> bool {
    !angry && game_time > validation.last_validate_tick + validation.cooldown
}

/// A bee that has looked at its hive; it forgets one that is gone.
pub open spec fn looked_at_hive(bee: BeeEntity, loaded: bool, hive_valid: bool) -> BeeEntity {
    if bee.hive_pos is Some && loaded && !hive_valid {
        BeeEntity { hive_pos: None, hive_cooldown: COOLDOWN_BEFORE_LOCATING_NEW_HIVE, ..bee }
    } else {
        bee
    }
}

/// Whether a bee that looks at its flower finds it gone.
pub open spec fn flower_is_gone(bee: BeeEntity, loaded: bool, attracts: bool) -> bool {
    bee.flower_pos is Some && loaded && !attracts
}

impl Validation {
    /// A wait of a length, with no check made yet.
    pub fn with_cooldown(cooldown: i64) -> (validation: Self)
        ensures
            validation.cooldown == cooldown,
            validation.last_validate_tick == -1,
    {
        Validation { cooldown, last_validate_tick: -1 }
    }

    /// A wait of one to two seconds.
    pub fn new() -> (validation: Self)
        ensures
            VALIDATE_COOLDOWN_MIN <= validation.cooldown <= VALIDATE_COOLDOWN_MAX,
            validation.last_validate_tick == -1,
    {
        let cooldown: i32 = roll(VALIDATE_COOLDOWN_MIN, VALIDATE_COOLDOWN_MAX + 1);
        Self::with_cooldown(cooldown as i64)
    }

    /// Whether a calm bee checks again.
    pub fn is_due(&self, angry: bool, game_time: i64) -> (due: bool)
        ensures
            due == is_time_to_look(*self, angry, game_time),
    {
        if angry {
            return false;
        }
        game_time as i128 > self.last_validate_tick as i128 + self.cooldown as i128
    }
}

/// Checking whether the hive still stands.
pub struct BeeValidateHiveGoal {
    pub validation: Validation,
}

impl BeeValidateHiveGoal {
    pub fn new() -> (goal: Self)
        ensures
            VALIDATE_COOLDOWN_MIN <= goal.validation.cooldown <= VALIDATE_COOLDOWN_MAX,
            goal.validation.last_validate_tick == -1,
    {
        BeeValidateHiveGoal { validation: Validation::new() }
    }

    pub fn can_start(&self, angry: bool, game_time: i64) -> (starts: bool)
        ensures
            starts == is_time_to_look(self.validation, angry, game_time),
    {
        self.validation.is_due(angry, game_time)
    }

    /// Forgets a hive that is gone, but not one that is out of sight.
    pub fn start(&mut self, bee: &mut BeeEntity, loaded: bool, hive_valid: bool, game_time: i64)
        ensures
            final(self).validation == (Validation {
                last_validate_tick: game_time,
                ..old(self).validation
            }),
            *final(bee) == looked_at_hive(*old(bee), loaded, hive_valid),
    {
        if bee.has_hive() && loaded && !hive_valid {
            bee.drop_hive();
        }
        self.validation.last_validate_tick = game_time;
    }
}

/// Checking whether the flower still stands.
pub struct BeeValidateFlowerGoal {
    pub validation: Validation,
}

impl BeeValidateFlowerGoal {
    pub fn new() -> (goal: Self)
        ensures
            VALIDATE_COOLDOWN_MIN <= goal.validation.cooldown <= VALIDATE_COOLDOWN_MAX,
            goal.validation.last_validate_tick == -1,
    {
        BeeValidateFlowerGoal { validation: Validation::new() }
    }

    pub fn can_start(&self, angry: bool, game_time: i64) -> (starts: bool)
        ensures
            starts == is_time_to_look(self.validation, angry, game_time),
    {
        self.validation.is_due(angry, game_time)
    }

    /// Forgets a flower that no longer draws bees, but not one that is out of sight.
    pub fn start(&mut self, bee: &mut BeeEntity, loaded: bool, attracts: bool, game_time: i64)
        ensures
            final(self).validation == (Validation {
                last_validate_tick: game_time,
                ..old(self).validation
            }),
            ({
                let gone = flower_is_gone(*old(bee), loaded, attracts);
                &&& *final(bee) == (if gone {
                    BeeEntity {
                        flower_pos: None,
                        flower_cooldown: final(bee).flower_cooldown,
                        ..*old(bee)
                    }
                } else {
                    *old(bee)
                })
                &&& gone ==> MIN_FIND_FLOWER_RETRY_COOLDOWN <= final(bee).flower_cooldown
                    <= MAX_FIND_FLOWER_RETRY_COOLDOWN
            }),
    {
        if bee.flower_pos.is_some() && loaded && !attracts {
            bee.drop_flower();
        }
        self.validation.last_validate_tick = game_time;
    }
}

/// Flying back to a flower that the bee remembers.
#[derive(Clone, Copy, PartialEq, Eq, Structural, Debug)]
pub struct BeeGoToKnownFlowerGoal {
    pub travelling_ticks: i32,
}

/// Whether a bee sets out for the flower it knows.
pub open spec fn sets_out_for_flower(bee: BeeEntity, distance: u64, angry: bool) -> bool {
    bee.flower_pos is Some && bee.hive_pos is None && bee.ticks_without_nectar
        > TICKS_WITHOUT_NECTAR_BEFORE_SEEKING_KNOWN_FLOWER && !arrived(distance) && !angry
}

impl BeeGoToKnownFlowerGoal {
    pub fn new() -> (goal: Self)
        ensures
            goal.travelling_ticks == 0,
    {
        BeeGoToKnownFlowerGoal { travelling_ticks: 0 }
    }

    pub fn should_run_every_tick(&self) -> (every: bool)
        ensures
            every,
    {
        true
    }

    /// What the goal needs for itself: to move the bee.
    pub fn controls(&self) -> (controls: Controls)
        ensures
            controls == Controls::Move,
    {
        Controls::Move
    }

    /// Whether the bee sets out: a calm one without a hive that went long without nectar and
    /// is not at the flower yet.
    pub fn can_use(bee: &BeeEntity, distance: u64, angry: bool) -> (can: bool)
        ensures
            can == sets_out_for_flower(*bee, distance, angry),
    {
        if bee.flower_pos.is_none() {
            return false;
        }
        if bee.has_hive() {
            return false;
        }
        if bee.ticks_without_nectar() <= TICKS_WITHOUT_NECTAR_BEFORE_SEEKING_KNOWN_FLOWER {
            return false;
        }
        !has_reached_target(distance) && !angry
    }

    pub fn start(&mut self)
        ensures
            final(self).travelling_ticks == 0,
    {
        self.travelling_ticks = 0;
    }

    pub fn stop(&mut self, effects: &mut Vec<Effect>)
        ensures
            final(self).travelling_ticks == 0,
            final(effects)@ == old(effects)@.push(Effect::StopNavigation),
    {
        self.travelling_ticks = 0;
        effects.push(Effect::StopNavigation);
    }

    /// One tick, where `retry` is how long the bee waits if it forgets the flower.
    pub fn tick_with_retry(
        &mut self,
        bee: &mut BeeEntity,
        idle: bool,
        distance: u64,
        retry: i32,
        effects: &mut Vec<Effect>,
    )
        requires
            old(self).travelling_ticks < i32::MAX,
        ensures
            *final(self) == flower_flight_ticked(*old(self), *old(bee)),
            *final(bee) == (if flower_flight_ends(*old(self), *old(bee), idle, distance) {
                BeeEntity { flower_pos: None, flower_cooldown: retry, ..*old(bee) }
            } else {
                *old(bee)
            }),
            final(effects)@ == old(effects)@ + flower_flight_effects(
                *old(self),
                *old(bee),
                idle,
                distance,
            ),
    {
        let pos = match bee.flower_pos {
            Some(pos) => pos,
            None => {
                return ;
            },
        };
        self.travelling_ticks = self.travelling_ticks + 1;
        if self.travelling_ticks > MAX_FLOWER_TRAVELLING_TICKS {
            bee.drop_flower_for(retry);
            return ;
        }
        if !idle {
            return ;
        }
        if is_too_far_away(distance) {
            bee.drop_flower_for(retry);
            return ;
        }
        effects.push(Effect::MoveTo { pos, height: 500, speed: 1000 });
    }

    /// One tick.
    pub fn tick(&mut self, bee: &mut BeeEntity, idle: bool, distance: u64, effects: &mut Vec<Effect>)
        requires
            old(self).travelling_ticks < i32::MAX,
        ensures
            *final(self) == flower_flight_ticked(*old(self), *old(bee)),
            ({
                let ends = flower_flight_ends(*old(self), *old(bee), idle, distance);
                &&& *final(bee) == (if ends {
                    BeeEntity {
                        flower_pos: None,
                        flower_cooldown: final(bee).flower_cooldown,
                        ..*old(bee)
                    }
                } else {
                    *old(bee)
                })
                &&& ends ==> MIN_FIND_FLOWER_RETRY_COOLDOWN <= final(bee).flower_cooldown
                    <= MAX_FIND_FLOWER_RETRY_COOLDOWN
            }),
            final(effects)@ == old(effects)@ + flower_flight_effects(
                *old(self),
                *old(bee),
                idle,
                distance,
            ),
    {
        let retry: i32 = roll(
            MIN_FIND_FLOWER_RETRY_COOLDOWN,
            MAX_FIND_FLOWER_RETRY_COOLDOWN + 1,
        );
        self.tick_with_retry(bee, idle, distance, retry, effects);
    }
}

/// The goal after one tick on the way to a flower.
pub open spec fn flower_flight_ticked(
    goal: BeeGoToKnownFlowerGoal,
    bee: BeeEntity,
) -> BeeGoToKnownFlowerGoal {
    if bee.flower_pos is Some {
        BeeGoToKnownFlowerGoal { travelling_ticks: (goal.travelling_ticks + 1) as i32 }
    } else {
        goal
    }
}

/// Whether the bee forgets the flower on its way: after travelling for too long, or when it
/// finds that the flower is too far away.
pub open spec fn flower_flight_ends(
    goal: BeeGoToKnownFlowerGoal,
    bee: BeeEntity,
    idle: bool,
    distance: u64,
) -> bool {
    bee.flower_pos is Some && (goal.travelling_ticks + 1 > MAX_FLOWER_TRAVELLING_TICKS || idle
        && too_far_away(distance))
}

/// What a tick on the way to a flower asks of the host.
pub open spec fn flower_flight_effects(
    goal: BeeGoToKnownFlowerGoal,
    bee: BeeEntity,
    idle: bool,
    distance: u64,
) -> Seq<Effect> {
    match bee.flower_pos {
        Some(pos) if goal.travelling_ticks + 1 <= MAX_FLOWER_TRAVELLING_TICKS && idle
            && !too_far_away(distance) => seq![Effect::MoveTo { pos, height: 500, speed: 1000 }],
        _ => seq![],
    }
}

/// The age at which a crop that bees help is ripe.
pub open spec fn ripe_age(block: Block) -> Option<u8> {
    match block {
        Block::Wheat | Block::PumpkinStem | Block::MelonStem | Block::Carrots | Block::Potatoes =>
            Some(7),
        Block::Beetroots | Block::SweetBerryBush => Some(3),
        Block::TorchflowerCrop => Some(1),
        _ => None,
    }
}

/// The age at which a crop that bees help is ripe.
pub fn bee_growable_max_age(block: Block) -> (age: Option<u8>)
    ensures
        age == ripe_age(block),
{
    match block {
        Block::Wheat | Block::PumpkinStem | Block::MelonStem | Block::Carrots | Block::Potatoes =>
            Some(7),
        Block::Beetroots | Block::SweetBerryBush => Some(3),
        Block::TorchflowerCrop => Some(1),
        _ => None,
    }
}

/// What a bee reads of a block below it.
#[derive(Clone, Copy)]
pub struct CropBlock {
    pub block: Block,
    /// Whether bees help blocks of this kind.
    pub bee_growable: bool,
    /// How old the crop is, if it has an age.
    pub age: Option<u8>,
}

/// The age of a crop after a bee has helped it, if it could.
pub open spec fn grown_age(block: Block, age: Option<u8>) -> Option<u8> {
    match (ripe_age(block), age) {
        (Some(ripe), Some(a)) if a < ripe => Some((a + 1) as u8),
        _ => None,
    }
}

/// Helping crops to grow.
pub struct BeeGrowCropGoal;

/// What flying over a crop does to it, so many blocks below the bee.
pub open spec fn crop_effects(crop: CropBlock, below: i32) -> Seq<Effect> {
    match grown_age(crop.block, crop.age) {
        Some(age) if crop.bee_growable => seq![Effect::GrowCrop { below, age }],
        _ => seq![],
    }
}

/// A count of crops after one more, if it grew.
pub open spec fn crops_counted(count: i32, crop: CropBlock) -> i32 {
    if crop.bee_growable && grown_age(crop.block, crop.age) is Some {
        counted_up(count)
    } else {
        count
    }
}

/// Whether a bee helps crops; luck may have it skip this time.
pub open spec fn helps_crops(bee: BeeEntity, skips: bool, hive_valid: bool, angry: bool) -> bool {
    bee.crops_grown_since_pollination < MAX_CROPS_GROWN_PER_POLLINATION && !skips && has_flag(
        bee.flags,
        FLAG_HAS_NECTAR,
    ) && hive_valid && !angry
}

/// A bee after a tick above two crops, which it helps where the draw says so.
pub open spec fn helped_both(
    bee: BeeEntity,
    upper: CropBlock,
    lower: CropBlock,
    draw: int,
) -> BeeEntity {
    if draw == 0 {
        BeeEntity {
            crops_grown_since_pollination: crops_counted(
                crops_counted(bee.crops_grown_since_pollination, upper),
                lower,
            ),
            ..bee
        }
    } else {
        bee
    }
}

/// What a tick above two crops asks of the host.
pub open spec fn both_crops_effects(upper: CropBlock, lower: CropBlock, draw: int) -> Seq<Effect> {
    if draw == 0 {
        crop_effects(upper, 1) + crop_effects(lower, 2)
    } else {
        seq![]
    }
}

impl BeeGrowCropGoal {
    pub fn should_run_every_tick(&self) -> (every: bool)
        ensures
            every,
    {
        true
    }

    /// What the goal needs for itself: nothing.
    pub fn controls(&self) -> (controls: Controls)
        ensures
            controls == Controls::Nothing,
    {
        Controls::Nothing
    }

    /// Whether a bee helps crops: one with nectar and a hive that is calm, has not helped too
    /// many, and does not happen to skip it.
    pub fn can_use_with_luck(bee: &BeeEntity, skips: bool, hive_valid: bool, angry: bool) -> (can:
        bool)
        ensures
            can == helps_crops(*bee, skips, hive_valid, angry),
    {
        if bee.crops_grown_since_pollination() >= MAX_CROPS_GROWN_PER_POLLINATION {
            return false;
        }
        if skips {
            return false;
        }
        bee.has_nectar() && hive_valid && !angry
    }

    pub fn can_use(bee: &BeeEntity, hive_valid: bool, angry: bool) -> (can: bool)
        ensures
            can ==> helps_crops(*bee, false, hive_valid, angry),
    {
        let skips = chance(3, 10);
        Self::can_use_with_luck(bee, skips, hive_valid, angry)
    }

    /// The age of a crop after a bee has helped it; a ripe crop does not grow.
    pub fn grown_state(block: Block, age: Option<u8>) -> (grown: Option<u8>)
        ensures
            grown == grown_age(block, age),
    {
        match (bee_growable_max_age(block), age) {
            (Some(ripe), Some(a)) => {
                if a >= ripe {
                    None
                } else {
                    Some(a + 1)
                }
            },
            _ => None,
        }
    }

    fn help(&self, bee: &mut BeeEntity, crop: &CropBlock, below: i32, effects: &mut Vec<Effect>)
        ensures
            *final(bee) == (BeeEntity {
                crops_grown_since_pollination: crops_counted(
                    old(bee).crops_grown_since_pollination,
                    *crop,
                ),
                ..*old(bee)
            }),
            final(effects)@ == old(effects)@ + crop_effects(*crop, below),
    {
        if crop.bee_growable {
            if let Some(age) = Self::grown_state(crop.block, crop.age) {
                effects.push(Effect::GrowCrop { below, age });
                bee.increment_crops_grown_since_pollination();
            }
        }
    }

    /// One tick over two blocks, the upper first, where `draw` decides whether the bee acts.
    pub fn tick_with_draw(
        &self,
        bee: &mut BeeEntity,
        upper: &CropBlock,
        lower: &CropBlock,
        draw: i32,
        effects: &mut Vec<Effect>,
    )
        ensures
            *final(bee) == helped_both(*old(bee), *upper, *lower, draw as int),
            final(effects)@ == old(effects)@ + both_crops_effects(*upper, *lower, draw as int),
    {
        if draw != 0 {
            return ;
        }
        self.help(bee, upper, 1, effects);
        self.help(bee, lower, 2, effects);
    }

    /// One tick over two blocks, the upper first.
    pub fn tick(
        &self,
        bee: &mut BeeEntity,
        upper: &CropBlock,
        lower: &CropBlock,
        effects: &mut Vec<Effect>,
    )
        ensures
            final(effects)@ == old(effects)@ && *final(bee) == *old(bee) || {
                &&& *final(bee) == helped_both(*old(bee), *upper, *lower, 0)
                &&& final(effects)@ == old(effects)@ + both_crops_effects(*upper, *lower, 0)
            },
    {
        let draw: i32 = roll(0, GROW_CHANCE);
        self.tick_with_draw(bee, upper, lower, draw, effects);
    }
}

/// A crop that a bee helps grows by one step, never past ripeness, and a ripe crop not at all.
pub proof fn law_crops_grow_one_step(block: Block, age: u8)
    ensures
        match grown_age(block, Some(age)) {
            Some(grown) => ripe_age(block) is Some && grown == age + 1 && grown <= ripe_age(
                block,
            )->0,
            None => ripe_age(block) is None || age >= ripe_age(block)->0,
        },
{
}

/// A bee looks for a flower exactly if it need not wait, has no nectar and it does not rain. One
/// that it finds it remembers and flies to; after a vain search it waits.
pub proof fn law_bee_looks_for_flowers(
    bee: BeeEntity,
    raining: bool,
    pos: BlockPos,
    retry: i32,
)
    ensures
        may_search(bee, raining) <==> bee.flower_cooldown <= 0 && !has_flag(bee.flags, 8)
            && !raining,
        searched(bee, Some(pos), retry) == (BeeEntity { flower_pos: Some(pos), ..bee }),
        searched(bee, None, retry) == (BeeEntity { flower_cooldown: retry, ..bee }),
        search_effects(Some(pos)) == seq![
            Effect::MoveTo { pos, height: 600, speed: 1200 },
        ],
        search_effects(None).len() == 0,
{
}

/// While a bee has a flower, each tick counts; only ticks within one block of the flower count as
/// gathering. A bee that has been at it for more than thirty seconds gives the flower up and
/// waits ten.
pub proof fn law_pollination_counts(
    goal: BeePollinateGoal,
    bee: BeeEntity,
    distance: u64,
    lucky: bool,
)
    requires
        goal.wf(),
        goal.pollinating_ticks < i32::MAX,
    ensures
        ({
            let after = pollination_ticked(goal, bee, distance, lucky);
            let left = pollinating_bee(goal, bee);
            let near = !less(0x3FF0_0000_0000_0000, distance);
            let over = goal.pollinating_ticks + 1 > 600;
            &&& bee.flower_pos is None ==> after == goal && left == bee
            &&& bee.flower_pos is Some ==> after.pollinating_ticks == goal.pollinating_ticks + 1
            &&& bee.flower_pos is Some && !over && near ==> after.successful_pollinating_ticks
                == goal.successful_pollinating_ticks + 1 && after.pollinating == goal.pollinating
            &&& bee.flower_pos is Some && (over || !near) ==> after.successful_pollinating_ticks
                == goal.successful_pollinating_ticks
            &&& bee.flower_pos is Some && over ==> !after.pollinating && left.flower_pos is None
                && !left.pollinating && left.flower_cooldown == 200
            &&& bee.flower_pos is Some && !over ==> left == bee
        }),
{
}

/// A bee that gathers is heard at most every three seconds, and only when luck has it; it hovers
/// then and looks at the flower. One that is not there yet flies on once it stands idle.
pub proof fn law_pollination_is_seen_and_heard(
    goal: BeePollinateGoal,
    bee: BeeEntity,
    distance: u64,
    idle: bool,
    lucky: bool,
)
    requires
        goal.wf(),
    ensures
        ({
            let effects = pollination_effects(goal, bee, distance, idle, lucky);
            let working = bee.flower_pos is Some && goal.pollinating_ticks < 600;
            let near = !less(0x3FF0_0000_0000_0000, distance);
            &&& effects.contains(Effect::Play(Sound::BeePollinate)) <==> working && near && lucky
                && goal.successful_pollinating_ticks + 1 > goal.last_sound_played_tick + 60
            &&& effects.contains(Effect::StopNavigation) <==> working && near
            &&& !working ==> effects.len() == 0
            &&& working && !near && idle ==> effects == seq![
                Effect::MoveTo { pos: bee.flower_pos->0, height: 600, speed: 1200 },
            ]
            &&& working && !near && !idle ==> effects.len() == 0
        }),
{
    broadcast use group_effects;

    let effects = pollination_effects(goal, bee, distance, idle, lucky);
    if bee.flower_pos is Some && goal.pollinating_ticks < 600 && !less(HOVER_DISTANCE, distance) {
        assert(effects[0] == Effect::StopNavigation);
        if buzzes(goal, lucky) {
            assert(effects[2] == Effect::Play(Sound::BeePollinate));
        }
    }
}

/// The hive that a bee takes is the first of those offered that it has not given up.
pub proof fn law_first_hive_that_will_do(hives: Seq<BlockPos>, blacklist: Seq<BlockPos>, i: int)
    requires
        0 <= i < hives.len(),
        !blacklist.contains(hives[i]),
        forall|j: int| 0 <= j < i ==> blacklist.contains(#[trigger] hives[j]),
    ensures
        first_allowed(hives, blacklist) == Some(hives[i]),
    decreases i,
{
    if i > 0 {
        assert(blacklist.contains(hives[0]));
        let rest = hives.skip(1);
        assert(rest[i - 1] == hives[i]);
        assert forall|j: int| 0 <= j < i - 1 implies blacklist.contains(#[trigger] rest[j]) by {
            assert(rest[j] == hives[j + 1]);
        }
        law_first_hive_that_will_do(rest, blacklist, i - 1);
    }
}

/// A bee on its way home gives its hive up for good after two minutes, or after three seconds
/// without coming closer; it forgets one that is too far away, and otherwise flies on.
pub proof fn law_way_home_ends(goal: BeeGoToHiveGoal, bee: BeeEntity, distance: u64)
    requires
        bee.hive_pos is Some,
    ensures
        ({
            let flight = home_flight(goal, bee, distance);
            let far = !less(distance, 0x40A2_0000_0000_0000);
            let closer = less(distance, goal.best_distance);
            &&& goal.travelling_ticks >= 2400 ==> flight is GaveUp
            &&& goal.travelling_ticks < 2400 && far ==> flight is TooFar
            &&& goal.travelling_ticks < 2400 && !far && closer ==> flight is Flying
            &&& goal.travelling_ticks < 2400 && !far && !closer && goal.ticks_stuck >= 60
                ==> flight is GaveUp
            &&& goal.travelling_ticks < 2400 && !far && !closer && goal.ticks_stuck < 60
                ==> flight is Flying
        }),
{
}

/// Each tick on the way home counts; one that brings the bee closer than ever is remembered and
/// ends its being stuck, and any other within reach adds to it.
pub proof fn law_way_home_counts(goal: BeeGoToHiveGoal, bee: BeeEntity, distance: u64)
    requires
        goal.travelling_ticks < i32::MAX,
        goal.ticks_stuck < i32::MAX,
    ensures
        ({
            let after = home_flight_ticked(goal, bee, distance);
            let in_reach = goal.travelling_ticks < 2400 && less(distance, 0x40A2_0000_0000_0000);
            &&& bee.hive_pos is None ==> after == goal && home_flight(goal, bee, distance) is NoHive
            &&& bee.hive_pos is Some ==> after.travelling_ticks == goal.travelling_ticks + 1
            &&& bee.hive_pos is Some && in_reach && less(distance, goal.best_distance)
                ==> after.best_distance == distance && after.ticks_stuck == 0
            &&& bee.hive_pos is Some && in_reach && !less(distance, goal.best_distance)
                ==> after.best_distance == goal.best_distance && after.ticks_stuck
                == goal.ticks_stuck + 1
        }),
{
}

/// A bee flies back to a flower it knows for at most two minutes, and not if it is too far away
/// when it would set off anew; then it gives the flower up.
pub proof fn law_way_to_a_known_flower(
    goal: BeeGoToKnownFlowerGoal,
    bee: BeeEntity,
    idle: bool,
    distance: u64,
)
    requires
        goal.travelling_ticks < i32::MAX,
    ensures
        ({
            let ends = flower_flight_ends(goal, bee, idle, distance);
            let effects = flower_flight_effects(goal, bee, idle, distance);
            let far = !less(distance, 0x40A2_0000_0000_0000);
            &&& bee.flower_pos is None ==> !ends && effects.len() == 0 && flower_flight_ticked(
                goal,
                bee,
            ) == goal
            &&& bee.flower_pos is Some ==> flower_flight_ticked(goal, bee).travelling_ticks
                == goal.travelling_ticks + 1
            &&& bee.flower_pos is Some && goal.travelling_ticks >= 2400 ==> ends
            &&& bee.flower_pos is Some && goal.travelling_ticks < 2400 ==> (ends <==> idle && far)
            &&& bee.flower_pos is Some && goal.travelling_ticks < 2400 && idle && !far
                ==> effects == seq![
                Effect::MoveTo { pos: bee.flower_pos->0, height: 500, speed: 1000 },
            ]
            &&& ends || !idle ==> effects.len() == 0
        }),
{
}

/// How old each crop gets that bees help along.
pub proof fn law_when_crops_are_ripe(block: Block)
    ensures
        ripe_age(block) == Some(7u8) <==> block == Block::Wheat || block == Block::PumpkinStem
            || block == Block::MelonStem || block == Block::Carrots || block == Block::Potatoes,
        ripe_age(block) == Some(3u8) <==> block == Block::Beetroots || block
            == Block::SweetBerryBush,
        ripe_age(block) == Some(1u8) <==> block == Block::TorchflowerCrop,
        ripe_age(block) is Some ==> ripe_age(block) == Some(7u8) || ripe_age(block) == Some(3u8)
            || ripe_age(block) == Some(1u8),
{
}

/// A crop below a bee that is not ripe grows by one stage, which counts as one crop helped; a ripe
/// one, or one that bees do not help, is left alone.
pub proof fn law_bees_help_crops(crop: CropBlock, below: i32, count: i32)
    requires
        count < i32::MAX,
    ensures
        ({
            let young = crop.bee_growable && crop.age is Some && ripe_age(crop.block) is Some
                && crop.age->0 < ripe_age(crop.block)->0;
            &&& young ==> crop_effects(crop, below) == seq![
                Effect::GrowCrop { below, age: (crop.age->0 + 1) as u8 },
            ] && crops_counted(count, crop) == count + 1
            &&& !young ==> crop_effects(crop, below).len() == 0 && crops_counted(count, crop)
                == count
        }),
{
}

/// A bee stings once: only one that is angry and has not stung goes at anything.
pub proof fn law_bees_sting_once(bee: BeeEntity, angry: bool)
    ensures
        has_flag(bee.flags, 4) ==> !may_attack(bee, angry),
        !angry ==> !may_attack(bee, angry),
        angry && !has_flag(bee.flags, 4) ==> may_attack(bee, angry),
{
}

/// A bee leaves its flower when it rains, when the flower is gone or when it has stopped, and else
/// stays for at least four hundred good ticks; after that luck decides.
pub proof fn law_how_long_bees_stay(
    goal: BeePollinateGoal,
    bee: BeeEntity,
    raining: bool,
    lucky: bool,
)
    ensures
        raining || bee.flower_pos is None || !goal.pollinating ==> !stays_at_flower(
            goal,
            bee,
            raining,
            lucky,
        ),
        !raining && bee.flower_pos is Some && goal.pollinating
            && goal.successful_pollinating_ticks <= 400 ==> stays_at_flower(goal, bee, raining, lucky),
        !raining && bee.flower_pos is Some && goal.pollinating
            && goal.successful_pollinating_ticks > 400 ==> stays_at_flower(goal, bee, raining, lucky)
            == lucky,
{
}

/// A bee takes nectar from its flower if and only if it has had more than four hundred good ticks
/// there; either way it looks for no other flower for ten seconds.
pub proof fn law_nectar_takes_time(goal: BeePollinateGoal, bee: BeeEntity)
    ensures
        ({
            let after = left_flower(goal, bee);
            let told = left_flower_effects(goal, bee);
            &&& goal.successful_pollinating_ticks > 400 ==> has_flag(after.flags, 8)
                && after.ticks_without_nectar == 0
            &&& goal.successful_pollinating_ticks <= 400 ==> after.flags == bee.flags
                && after.ticks_without_nectar == bee.ticks_without_nectar && told.len() == 1
            &&& after.flower_cooldown == 200
            &&& !after.pollinating
            &&& after.flower_pos == bee.flower_pos
            &&& after.hive_pos == bee.hive_pos
            &&& told.last() == Effect::StopNavigation
            &&& told.len() == 2 ==> told[0] == Effect::Sync(SyncedValue::BeeFlags(after.flags as i8))
            &&& told.len() == 1 ==> after.flags == bee.flags
        }),
{
    law_flag_reads_back(bee.flags, 8, true);
}

/// A bee goes into its hive when it has come to it, wants to, and finds room; it forgets a full
/// hive and no other.
pub proof fn law_bees_enter_hives_with_room(
    bee: BeeEntity,
    wants_to_enter: bool,
    distance: u64,
    hive: Option<&BeehiveBlockEntity>,
)
    ensures
        bee.hive_pos is None || !wants_to_enter || !arrived(distance) || hive is None ==> !goes_in(
            bee,
            wants_to_enter,
            distance,
            hive,
        ) && tried_hive(bee, wants_to_enter, distance, hive) == bee,
        bee.hive_pos is Some && wants_to_enter && arrived(distance) && hive is Some
            && !hive->0.full ==> goes_in(bee, wants_to_enter, distance, hive) && tried_hive(
            bee,
            wants_to_enter,
            distance,
            hive,
        ) == bee,
        bee.hive_pos is Some && wants_to_enter && arrived(distance) && hive is Some && hive->0.full
            ==> !goes_in(bee, wants_to_enter, distance, hive) && tried_hive(
            bee,
            wants_to_enter,
            distance,
            hive,
        ).hive_pos is None,
        tried_hive(bee, wants_to_enter, distance, hive).flags == bee.flags,
        tried_hive(bee, wants_to_enter, distance, hive).flower_pos == bee.flower_pos,
{
}

/// Only a bee without a hive that wants to go in and need not wait looks for one.
pub proof fn law_homeless_bees_look_for_hives(bee: BeeEntity, wants_to_enter: bool)
    ensures
        looks_for_hive(bee, wants_to_enter) ==> bee.hive_pos is None && wants_to_enter
            && bee.hive_cooldown == 0,
        bee.hive_pos is None && wants_to_enter && bee.hive_cooldown == 0 ==> looks_for_hive(
            bee,
            wants_to_enter,
        ),
{
}

/// A bee settles on a hive that was found, on one it does not avoid where there is one; where it
/// avoids them all it takes the closest and avoids none any more.
pub proof fn law_bees_settle_on_found_hives(bee: BeeEntity, hives: Seq<BlockPos>)
    ensures
        hives.len() == 0 ==> settles_on(bee, hives) == bee.hive_pos && still_avoided(bee, hives)
            == bee.hive_blacklist@,
        hives.len() > 0 ==> settles_on(bee, hives) is Some,
        hives.len() > 0 && first_allowed(hives, bee.hive_blacklist@) is None ==> settles_on(bee, hives)
            == Some(hives[0]) && still_avoided(bee, hives).len() == 0,
        hives.len() > 0 && first_allowed(hives, bee.hive_blacklist@) is Some ==> settles_on(bee, hives)
            == first_allowed(hives, bee.hive_blacklist@) && still_avoided(bee, hives)
            == bee.hive_blacklist@,
{
}

/// A bee sets out for its hive when it wants to go in, the hive is still there, and the way is
/// neither done nor too far.
pub proof fn law_when_bees_set_out_for_home(
    bee: BeeEntity,
    distance: u64,
    wants_to_enter: bool,
    is_beehive: bool,
)
    ensures
        !sets_out_for_hive(bee, distance, wants_to_enter, is_beehive) <==> bee.hive_pos is None
            || too_far_away(distance) || arrived(distance) || !wants_to_enter || !is_beehive,
{
}

/// A bee on its way home keeps its hive unless the way is too far or it gives up; a hive given up
/// is avoided from then on, and one too far away is not.
pub proof fn law_hives_given_up_are_avoided(
    bee: BeeEntity,
    flight: HomeFlight,
    blacklist: Vec<BlockPos>,
    idle: bool,
)
    ensures
        flown_home(bee, flight, blacklist).hive_pos is None <==> bee.hive_pos is None
            || flight is GaveUp || flight is TooFar,
        flight is GaveUp || flight is TooFar ==> flown_home(bee, flight, blacklist).hive_cooldown == 200,
        !(flight is GaveUp || flight is TooFar) ==> flown_home(bee, flight, blacklist).hive_pos
            == bee.hive_pos && flown_home(bee, flight, blacklist).hive_cooldown == bee.hive_cooldown,
        flight is GaveUp ==> avoided_after_flight(bee, flight).len() > 0 && avoided_after_flight(
            bee,
            flight,
        ).last() == bee.hive_pos->0,
        !(flight is GaveUp) ==> avoided_after_flight(bee, flight) == bee.hive_blacklist@,
        home_flight_effects(bee, flight, idle).len() == 1 <==> flight is Flying && idle,
        home_flight_effects(bee, flight, idle).len() == 0 <==> !(flight is Flying && idle),
        flight is Flying && idle ==> home_flight_effects(bee, flight, idle)[0] == (Effect::MoveTo {
            pos: bee.hive_pos->0,
            height: 500,
            speed: 1000,
        }),
        flown_home(bee, flight, blacklist).flags == bee.flags,
        flown_home(bee, flight, blacklist).flower_pos == bee.flower_pos,
{
}

/// A calm bee looks again once its pause is over, and not before.
pub proof fn law_bees_look_again(validation: Validation, angry: bool, game_time: i64)
    ensures
        is_time_to_look(validation, angry, game_time) ==> !angry,
        !angry ==> (is_time_to_look(validation, angry, game_time) <==> game_time
            - validation.last_validate_tick > validation.cooldown),
{
}

/// A bee forgets a hive or a flower only where it can see that it is gone.
pub proof fn law_bees_forget_what_is_gone(bee: BeeEntity, loaded: bool, there: bool)
    ensures
        !loaded || there ==> looked_at_hive(bee, loaded, there) == bee && !flower_is_gone(
            bee,
            loaded,
            there,
        ),
        loaded && !there ==> looked_at_hive(bee, loaded, there).hive_pos is None,
        loaded && !there && bee.hive_pos is Some ==> looked_at_hive(bee, loaded, there).hive_cooldown
            == 200,
        loaded && !there ==> (flower_is_gone(bee, loaded, there) <==> bee.flower_pos is Some),
        bee.hive_pos is None ==> looked_at_hive(bee, loaded, there) == bee,
        looked_at_hive(bee, loaded, there).flower_pos == bee.flower_pos,
        looked_at_hive(bee, loaded, there).hive_blacklist == bee.hive_blacklist,
{
}

/// A calm bee without a hive sets out for the flower it knows after six hundred ticks without
/// nectar, unless it is there.
pub proof fn law_when_bees_set_out_for_flowers(bee: BeeEntity, distance: u64, angry: bool)
    ensures
        !sets_out_for_flower(bee, distance, angry) <==> bee.flower_pos is None || bee.hive_pos is Some
            || bee.ticks_without_nectar <= 600 || arrived(distance) || angry,
{
}

/// A calm bee with nectar and a hive helps up to ten crops; luck may have it skip any time.
pub proof fn law_when_bees_help_crops(bee: BeeEntity, skips: bool, hive_valid: bool, angry: bool)
    ensures
        !helps_crops(bee, skips, hive_valid, angry) <==> bee.crops_grown_since_pollination >= 10 || skips
            || !has_flag(bee.flags, 8) || !hive_valid || angry,
{
}

/// Where the draw lets a bee help, it helps the upper crop before the lower; else nothing happens.
pub proof fn law_bees_help_both_crops(
    bee: BeeEntity,
    upper: CropBlock,
    lower: CropBlock,
    draw: int,
)
    ensures
        draw != 0 ==> helped_both(bee, upper, lower, draw) == bee && both_crops_effects(
            upper,
            lower,
            draw,
        ).len() == 0,
        draw == 0 ==> helped_both(bee, upper, lower, draw).crops_grown_since_pollination
            == crops_counted(crops_counted(bee.crops_grown_since_pollination, upper), lower)
            && both_crops_effects(upper, lower, draw) == crop_effects(upper, 1) + crop_effects(
            lower,
            2,
        ),
        helped_both(bee, upper, lower, draw).flags == bee.flags,
        helped_both(bee, upper, lower, draw).hive_pos == bee.hive_pos,
{
}

} // verus!
