//! Bees: nectar, stings and hives.

use vstd::prelude::*;

use crate::animal::{
    animal_interact, animal_restored, animal_saved, falls_in_love, fed, feeding_effects, grows,
    meal_outcome, newborn_id, read_animal_nbt, stack_after_meal, write_animal_nbt, Feeding,
};
use crate::block::Block;
use crate::double::{is_less, less};
use crate::effect::{group_effects, Effect, Interaction, Sound, SyncedValue};
use crate::flags::{
    get_flag, has_flag, law_flag_leaves_others, law_flag_reads_back, set_flag, with_flag,
};
use crate::goal::{
    entry, goal, look_at_player, watch_player, EntityKind, Goal, GoalEntry, TargetRule,
};
use crate::item::{ItemStack, Player};
use crate::mob::MobEntity;
use crate::nbt::{bool_at, bool_value, int_at, NbtCompound, NbtValue};
use crate::position::{block_pos_from_nbt, block_pos_to_nbt, pos_at, pos_value, BlockPos};
use crate::random::{is_random_id, roll};
use crate::ticks::{count_down, count_up, counted_down, counted_up, is_multiple};

verus! {

pub const FLAG_ROLL: u8 = 2;

pub const FLAG_HAS_STUNG: u8 = 4;

pub const FLAG_HAS_NECTAR: u8 = 8;

pub const STING_DEATH_COUNTDOWN: i32 = 1200;

pub const TICKS_WITHOUT_NECTAR_BEFORE_GOING_HOME: i32 = 3600;

pub const COOLDOWN_BEFORE_LOCATING_NEW_FLOWER: i32 = 200;

pub const MIN_FIND_FLOWER_RETRY_COOLDOWN: i32 = 20;

pub const MAX_FIND_FLOWER_RETRY_COOLDOWN: i32 = 60;

pub const COOLDOWN_BEFORE_LOCATING_NEW_HIVE: i32 = 200;

pub const MAX_BLACKLISTED_TARGETS: usize = 3;

/// How many ticks a bee survives under water before it takes damage.
pub const MAX_UNDER_WATER_TICKS: i32 = 20;

#[derive(Clone, Copy, PartialEq, Eq, Structural, Debug)]
pub enum Difficulty {
    Peaceful,
    Easy,
    Normal,
    Hard,
}

/// For how long a sting poisons.
pub open spec fn sting_poison(difficulty: Difficulty) -> Option<i32> {
    match difficulty {
        Difficulty::Normal => Some(200),
        Difficulty::Hard => Some(360),
        _ => None,
    }
}

/// For how long a sting poisons: ten seconds, eighteen when it is hard to survive, and not at
/// all when it is easy.
pub fn poison_duration(difficulty: Difficulty) -> (ticks: Option<i32>)
    ensures
        ticks == sting_poison(difficulty),
{
    match difficulty {
        Difficulty::Normal => Some(10 * 20),
        Difficulty::Hard => Some(18 * 20),
        Difficulty::Peaceful | Difficulty::Easy => None,
    }
}

/// Among how many outcomes the death of a bee that has stung is one.
pub open spec fn death_odds(time_since_sting: int) -> int {
    if STING_DEATH_COUNTDOWN - time_since_sting < 1 {
        1
    } else if STING_DEATH_COUNTDOWN - time_since_sting > STING_DEATH_COUNTDOWN {
        STING_DEATH_COUNTDOWN as int
    } else {
        STING_DEATH_COUNTDOWN - time_since_sting
    }
}

/// Among how many outcomes the death of a bee that has stung is one. The longer ago the sting,
/// the fewer.
pub fn sting_death_roll_bound(time_since_sting: i32) -> (bound: i32)
    ensures
        bound == death_odds(time_since_sting as int),
{
    if time_since_sting >= STING_DEATH_COUNTDOWN {
        1
    } else if time_since_sting < 0 {
        STING_DEATH_COUNTDOWN
    } else {
        STING_DEATH_COUNTDOWN - time_since_sting
    }
}

/// The odds of dying are at least one in all the ticks of the countdown, never fall as time
/// passes, and are certain at its end.
pub proof fn law_death_draws_closer(earlier: int, later: int)
    requires
        earlier <= later,
    ensures
        1 <= death_odds(later) <= death_odds(earlier) <= STING_DEATH_COUNTDOWN,
        later >= STING_DEATH_COUNTDOWN - 1 ==> death_odds(later) == 1,
{
}

/// Whether a bee gives up looking for nectar.
pub fn is_tired_of_looking_for_nectar(ticks_without_nectar: i32) -> (tired: bool)
    ensures
        tired == is_tired(ticks_without_nectar),
{
    ticks_without_nectar > TICKS_WITHOUT_NECTAR_BEFORE_GOING_HOME
}

/// What a bee reads of a block that might be a flower.
#[derive(Clone, Copy)]
pub struct FlowerBlock {
    pub block: Block,
    /// Whether blocks of this kind draw bees.
    pub bee_attractive: bool,
    pub waterlogged: bool,
    /// Whether it is the upper half of a plant two blocks high.
    pub upper_half: bool,
}

/// Whether a block draws bees.
pub open spec fn draws_bees(flower: FlowerBlock) -> bool {
    flower.bee_attractive && !flower.waterlogged && (flower.block == Block::Sunflower
        ==> flower.upper_half)
}

/// The square of the distance from which on a place is too far away for a bee, 48 blocks, by its
/// bits.
pub const TOO_FAR_SQUARED: u64 = 0x40A2_0000_0000_0000;

/// The square of the distance within which a bee is at a hive or a flower, two blocks, by its
/// bits.
pub const ARRIVAL_SQUARED: u64 = 0x4010_0000_0000_0000;

/// Whether a place is too far away for a bee, by the bits of the square of its distance.
pub open spec fn too_far_away(distance_squared: u64) -> bool {
    !less(distance_squared, TOO_FAR_SQUARED)
}

/// Whether a bee has arrived at a place, by the bits of the square of its distance.
pub open spec fn arrived(distance_squared: u64) -> bool {
    less(distance_squared, ARRIVAL_SQUARED)
}

/// Whether a place is too far away for a bee, by the bits of the square of its distance.
pub fn is_too_far_away(distance_squared: u64) -> (too_far: bool)
    ensures
        too_far == too_far_away(distance_squared),
{
    !is_less(distance_squared, TOO_FAR_SQUARED)
}

/// Whether a bee has arrived at a place, by the bits of the square of its distance.
pub fn has_reached_target(distance_squared: u64) -> (reached: bool)
    ensures
        reached == arrived(distance_squared),
{
    is_less(distance_squared, ARRIVAL_SQUARED)
}

/// Whether a block draws bees. Of a sunflower only the upper half does.
pub fn attracts_bees(flower: &FlowerBlock) -> (attracts: bool)
    ensures
        attracts == draws_bees(*flower),
{
    if !flower.bee_attractive {
        return false;
    }
    if flower.waterlogged {
        return false;
    }
    if flower.block == Block::Sunflower {
        return flower.upper_half;
    }
    true
}

/// A hive.
#[derive(Clone, Copy, PartialEq, Eq, Structural, Debug)]
pub struct BeehiveBlockEntity {
    pub full: bool,
    pub fire_nearby: bool,
}

/// What stands at a position beside the block itself.
#[derive(Clone, Copy, PartialEq, Eq, Structural, Debug)]
pub enum BlockEntity {
    Beehive(BeehiveBlockEntity),
    Other,
}

/// The hive in a block entity, if it is one.
pub fn as_hive(handle: &BlockEntity) -> (hive: Option<&BeehiveBlockEntity>)
    ensures
        match *handle {
            BlockEntity::Beehive(h) => hive == Some(&h),
            BlockEntity::Other => hive is None,
        },
{
    match handle {
        BlockEntity::Beehive(hive) => Some(hive),
        BlockEntity::Other => None,
    }
}

/// A bee.
pub struct BeeEntity {
    pub mob_entity: MobEntity,
    pub flags: u8,
    pub hive_pos: Option<BlockPos>,
    pub flower_pos: Option<BlockPos>,
    pub ticks_without_nectar: i32,
    pub stay_out_of_hive_countdown: i32,
    pub crops_grown_since_pollination: i32,
    pub time_since_sting: i32,
    pub under_water_ticks: i32,
    pub flower_cooldown: i32,
    pub hive_cooldown: i32,
    pub pollinating: bool,
    /// Hives that the bee could not get into, the latest last.
    pub hive_blacklist: Vec<BlockPos>,
    pub tick_count: i32,
}

/// What a bee pursues.
pub open spec fn bee_goals() -> Seq<GoalEntry> {
    seq![
        entry(0, Goal::BeeAttack),
        entry(1, Goal::BeeEnterHive),
        entry(2, Goal::Breed { speed: 1000 }),
        entry(3, Goal::BeeValidateHive),
        entry(3, Goal::BeeValidateFlower),
        entry(4, Goal::BeePollinate),
        entry(5, Goal::FollowParent { speed: 1250 }),
        entry(5, Goal::BeeLocateHive),
        entry(5, Goal::BeeGoToHive),
        entry(6, Goal::BeeGoToKnownFlower),
        entry(7, Goal::BeeGrowCrop),
        entry(8, Goal::Wander { speed: 1000 }),
        entry(9, Goal::Swim),
        entry(5, look_at_player(6000)),
        entry(6, Goal::LookAround),
    ]
}

/// Whom a bee attacks.
pub open spec fn bee_targets() -> Seq<GoalEntry> {
    seq![
        entry(1, Goal::Revenge { group: true }),
        entry(
            2,
            Goal::ActiveTarget {
                kind: EntityKind::Player,
                interval: 10,
                check_visibility: true,
                check_navigable: false,
                only: TargetRule::AngryAt,
            },
        ),
        entry(3, Goal::ResetUniversalAnger { alert_others: true }),
    ]
}

/// What a bee sees of the world in one tick.
#[derive(Clone, Copy)]
pub struct BeeTick {
    pub dead: bool,
    /// Whom the bee attacks.
    pub target: Option<u128>,
    /// Whether the bee already holds a grudge against its target.
    pub angry_at_target: bool,
    /// Whether a hive stands where the bee remembers one.
    pub hive_valid: bool,
    pub in_water: bool,
}

/// The latest entries of a list, as many as a bee remembers.
pub open spec fn latest(list: Seq<BlockPos>) -> Seq<BlockPos> {
    if list.len() > MAX_BLACKLISTED_TARGETS {
        list.skip(list.len() - MAX_BLACKLISTED_TARGETS)
    } else {
        list
    }
}

/// What setting a flag of a bee tells the clients: nothing if it changes nothing.
pub open spec fn flag_effects(flags: u8, flag: u8, value: bool) -> Seq<Effect> {
    if with_flag(flags, flag, value) == flags {
        seq![]
    } else {
        seq![Effect::Sync(SyncedValue::BeeFlags(with_flag(flags, flag, value) as i8))]
    }
}

/// A bee after one tick.
pub open spec fn bee_ticked(bee: BeeEntity, seen: BeeTick) -> BeeEntity {
    if seen.dead {
        bee
    } else {
        let tick_count = counted_up(bee.tick_count);
        BeeEntity {
            stay_out_of_hive_countdown: counted_down(bee.stay_out_of_hive_countdown),
            flower_cooldown: counted_down(bee.flower_cooldown),
            hive_cooldown: counted_down(bee.hive_cooldown),
            tick_count,
            hive_pos: if tick_count % 20 == 0 && !seen.hive_valid { None } else { bee.hive_pos },
            under_water_ticks: if seen.in_water { counted_up(bee.under_water_ticks) } else { 0 },
            time_since_sting: if has_flag(bee.flags, FLAG_HAS_STUNG) {
                counted_up(bee.time_since_sting)
            } else {
                bee.time_since_sting
            },
            ticks_without_nectar: if has_flag(bee.flags, FLAG_HAS_NECTAR) {
                bee.ticks_without_nectar
            } else {
                counted_up(bee.ticks_without_nectar)
            },
            ..bee
        }
    }
}

/// Whether a bee dies of its sting in a tick for a draw.
pub open spec fn dies_of_sting(bee: BeeEntity, draw: int) -> bool {
    has_flag(bee.flags, FLAG_HAS_STUNG) && counted_up(bee.time_since_sting) % 5 == 0 && draw == 0
}

/// What a tick of a bee asks of the host.
pub open spec fn bee_tick_effects(bee: BeeEntity, seen: BeeTick, draw: int) -> Seq<Effect> {
    if seen.dead {
        seq![]
    } else {
        let grudge = match seen.target {
            Some(id) if !seen.angry_at_target => seq![Effect::HoldGrudge(id)],
            _ => seq![],
        };
        let drowning = if bee_ticked(bee, seen).under_water_ticks > MAX_UNDER_WATER_TICKS {
            seq![Effect::Drown(1)]
        } else {
            seq![]
        };
        let death = if dies_of_sting(bee, draw) {
            seq![Effect::Die]
        } else {
            seq![]
        };
        seq![Effect::TickAnger] + grudge + drowning + death
    }
}

/// Whether a bee can see that its hive is still one.
pub open spec fn sees_its_hive(
    bee: BeeEntity,
    distance_squared: u64,
    at_hive: Option<&BlockEntity>,
) -> bool {
    bee.hive_pos is Some && !too_far_away(distance_squared) && at_hive is Some
        && *at_hive->0 is Beehive
}

/// Whether a bee has looked for nectar long enough.
pub open spec fn is_tired(ticks_without_nectar: i32) -> bool {
    ticks_without_nectar > TICKS_WITHOUT_NECTAR_BEFORE_GOING_HOME
}

/// A bee that has got its nectar or has none any more.
pub open spec fn nectar_set(bee: BeeEntity, has_nectar: bool) -> BeeEntity {
    BeeEntity {
        flags: with_flag(bee.flags, FLAG_HAS_NECTAR, has_nectar),
        ticks_without_nectar: if has_nectar {
            0
        } else {
            bee.ticks_without_nectar
        },
        ..bee
    }
}

/// A bee that has left its nectar at the hive.
pub open spec fn nectar_dropped(bee: BeeEntity) -> BeeEntity {
    BeeEntity {
        flags: with_flag(bee.flags, FLAG_HAS_NECTAR, false),
        crops_grown_since_pollination: 0,
        ..bee
    }
}

impl BeeEntity {
    /// A bee remembers only so many hives that it could not get into.
    pub open spec fn wf(self) -> bool {
        self.hive_blacklist@.len() <= MAX_BLACKLISTED_TARGETS
    }

    /// Whether a bee of an age has done nothing yet.
    pub open spec fn is_new(self, age: i32) -> bool {
        &&& self.mob_entity.fresh(age)
        &&& self.mob_entity.goals@ == bee_goals()
        &&& self.mob_entity.targets@ == bee_targets()
        &&& self.flags == 0
        &&& self.hive_pos is None
        &&& self.flower_pos is None
        &&& self.ticks_without_nectar == 0
        &&& self.stay_out_of_hive_countdown == 0
        &&& self.crops_grown_since_pollination == 0
        &&& self.time_since_sting == 0
        &&& self.under_water_ticks == 0
        &&& self.hive_cooldown == 0
        &&& !self.pollinating
        &&& self.hive_blacklist@ == Seq::<BlockPos>::empty()
        &&& self.tick_count == 0
    }

    /// A new bee that waits some ticks before it looks for a flower.
    pub fn with_flower_cooldown(age: i32, flower_cooldown: i32) -> (bee: Self)
        ensures
            bee.is_new(age),
            bee.flower_cooldown == flower_cooldown,
            bee.wf(),
    {
        let goals = vec![
            goal(0, Goal::BeeAttack),
            goal(1, Goal::BeeEnterHive),
            goal(2, Goal::Breed { speed: 1000 }),
            goal(3, Goal::BeeValidateHive),
            goal(3, Goal::BeeValidateFlower),
            goal(4, Goal::BeePollinate),
            goal(5, Goal::FollowParent { speed: 1250 }),
            goal(5, Goal::BeeLocateHive),
            goal(5, Goal::BeeGoToHive),
            goal(6, Goal::BeeGoToKnownFlower),
            goal(7, Goal::BeeGrowCrop),
            goal(8, Goal::Wander { speed: 1000 }),
            goal(9, Goal::Swim),
            goal(5, watch_player(6000)),
            goal(6, Goal::LookAround),
        ];
        let targets = vec![
            goal(1, Goal::Revenge { group: true }),
            goal(
                2,
                Goal::ActiveTarget {
                    kind: EntityKind::Player,
                    interval: 10,
                    check_visibility: true,
                    check_navigable: false,
                    only: TargetRule::AngryAt,
                },
            ),
            goal(3, Goal::ResetUniversalAnger { alert_others: true }),
        ];
        BeeEntity {
            mob_entity: MobEntity::with_goals(age, goals, targets),
            flags: 0,
            hive_pos: None,
            flower_pos: None,
            ticks_without_nectar: 0,
            stay_out_of_hive_countdown: 0,
            crops_grown_since_pollination: 0,
            time_since_sting: 0,
            under_water_ticks: 0,
            flower_cooldown,
            hive_cooldown: 0,
            pollinating: false,
            hive_blacklist: Vec::new(),
            tick_count: 0,
        }
    }

    /// A new bee.
    pub fn new(age: i32) -> (bee: Self)
        ensures
            bee.is_new(age),
            bee.wf(),
            MIN_FIND_FLOWER_RETRY_COOLDOWN <= bee.flower_cooldown
                <= MAX_FIND_FLOWER_RETRY_COOLDOWN,
    {
        let cooldown: i32 = roll(
            MIN_FIND_FLOWER_RETRY_COOLDOWN,
            MAX_FIND_FLOWER_RETRY_COOLDOWN + 1,
        );
        Self::with_flower_cooldown(age, cooldown)
    }

    fn set_flag(&mut self, flag: u8, value: bool, effects: &mut Vec<Effect>)
        ensures
            *final(self) == (BeeEntity {
                flags: with_flag(old(self).flags, flag, value),
                ..*old(self)
            }),
            final(effects)@ == old(effects)@ + flag_effects(old(self).flags, flag, value),
    {
        let before: u8 = self.flags;
        let after: u8 = set_flag(before, flag, value);
        self.flags = after;
        if before == after {
            return;
        }
        effects.push(Effect::Sync(SyncedValue::BeeFlags(after as i8)));
    }

    pub fn has_nectar(&self) -> (has: bool)
        ensures
            has == has_flag(self.flags, FLAG_HAS_NECTAR),
    {
        get_flag(self.flags, FLAG_HAS_NECTAR)
    }

    /// Gives nectar to the bee or takes it away. A bee that got nectar is no longer tired of
    /// looking for it.
    pub fn set_has_nectar(&mut self, has_nectar: bool, effects: &mut Vec<Effect>)
        ensures
            *final(self) == nectar_set(*old(self), has_nectar),
            final(effects)@ == old(effects)@ + flag_effects(
                old(self).flags,
                FLAG_HAS_NECTAR,
                has_nectar,
            ),
    {
        if has_nectar {
            self.ticks_without_nectar = 0;
        }
        self.set_flag(FLAG_HAS_NECTAR, has_nectar, effects);
    }

    pub fn has_stung(&self) -> (has: bool)
        ensures
            has == has_flag(self.flags, FLAG_HAS_STUNG),
    {
        get_flag(self.flags, FLAG_HAS_STUNG)
    }

    pub fn set_has_stung(&mut self, has_stung: bool, effects: &mut Vec<Effect>)
        ensures
            *final(self) == (BeeEntity {
                flags: with_flag(old(self).flags, FLAG_HAS_STUNG, has_stung),
                ..*old(self)
            }),
            final(effects)@ == old(effects)@ + flag_effects(
                old(self).flags,
                FLAG_HAS_STUNG,
                has_stung,
            ),
    {
        self.set_flag(FLAG_HAS_STUNG, has_stung, effects);
    }

    pub fn is_rolling(&self) -> (rolling: bool)
        ensures
            rolling == has_flag(self.flags, FLAG_ROLL),
    {
        get_flag(self.flags, FLAG_ROLL)
    }

    /// Leaves the nectar in the hive.
    pub fn drop_off_nectar(&mut self, effects: &mut Vec<Effect>)
        ensures
            *final(self) == nectar_dropped(*old(self)),
            final(effects)@ == old(effects)@ + flag_effects(
                old(self).flags,
                FLAG_HAS_NECTAR,
                false,
            ),
    {
        self.set_has_nectar(false, effects);
        self.crops_grown_since_pollination = 0;
    }

    pub fn is_tired_of_looking_for_nectar(&self) -> (tired: bool)
        ensures
            tired == is_tired(self.ticks_without_nectar),
    {
        is_tired_of_looking_for_nectar(self.ticks_without_nectar)
    }

    pub fn set_stay_out_of_hive_countdown(&mut self, ticks: i32)
        ensures
            *final(self) == (BeeEntity { stay_out_of_hive_countdown: ticks, ..*old(self) }),
    {
        self.stay_out_of_hive_countdown = ticks;
    }

    pub fn ticks_without_nectar(&self) -> (ticks: i32)
        ensures
            ticks == self.ticks_without_nectar,
    {
        self.ticks_without_nectar
    }

    pub fn crops_grown_since_pollination(&self) -> (crops: i32)
        ensures
            crops == self.crops_grown_since_pollination,
    {
        self.crops_grown_since_pollination
    }

    pub fn increment_crops_grown_since_pollination(&mut self)
        ensures
            *final(self) == (BeeEntity {
                crops_grown_since_pollination: counted_up(old(self).crops_grown_since_pollination),
                ..*old(self)
            }),
    {
        self.crops_grown_since_pollination = count_up(self.crops_grown_since_pollination);
    }

    /// Forgets the flower, and waits some ticks before looking for another.
    pub fn drop_flower_for(&mut self, cooldown: i32)
        ensures
            *final(self) == (BeeEntity {
                flower_pos: None,
                flower_cooldown: cooldown,
                ..*old(self)
            }),
    {
        self.flower_pos = None;
        self.flower_cooldown = cooldown;
    }

    /// Forgets the flower.
    pub fn drop_flower(&mut self)
        ensures
            *final(self) == (BeeEntity {
                flower_pos: None,
                flower_cooldown: final(self).flower_cooldown,
                ..*old(self)
            }),
            MIN_FIND_FLOWER_RETRY_COOLDOWN <= final(self).flower_cooldown
                <= MAX_FIND_FLOWER_RETRY_COOLDOWN,
    {
        let cooldown: i32 = roll(
            MIN_FIND_FLOWER_RETRY_COOLDOWN,
            MAX_FIND_FLOWER_RETRY_COOLDOWN + 1,
        );
        self.drop_flower_for(cooldown);
    }

    pub fn reset_ticks_without_nectar(&mut self)
        ensures
            *final(self) == (BeeEntity { ticks_without_nectar: 0, ..*old(self) }),
    {
        self.ticks_without_nectar = 0;
    }

    pub fn set_hive_pos(&mut self, hive_pos: Option<BlockPos>)
        ensures
            *final(self) == (BeeEntity { hive_pos, ..*old(self) }),
    {
        self.hive_pos = hive_pos;
    }

    pub fn has_hive(&self) -> (has: bool)
        ensures
            has == self.hive_pos is Some,
    {
        self.hive_pos.is_some()
    }

    /// Forgets the hive, and waits before looking for another.
    pub fn drop_hive(&mut self)
        ensures
            *final(self) == (BeeEntity {
                hive_pos: None,
                hive_cooldown: COOLDOWN_BEFORE_LOCATING_NEW_HIVE,
                ..*old(self)
            }),
    {
        self.hive_pos = None;
        self.hive_cooldown = COOLDOWN_BEFORE_LOCATING_NEW_HIVE;
    }

    /// Remembers a hive that the bee could not get into. Only the latest few are remembered.
    pub fn blacklist_hive(&mut self, pos: BlockPos)
        ensures
            final(self).wf(),
            final(self).hive_blacklist@ == latest(old(self).hive_blacklist@.push(pos)),
            *final(self) == (BeeEntity {
                hive_blacklist: final(self).hive_blacklist,
                ..*old(self)
            }),
    {
        self.hive_blacklist.push(pos);
        let ghost all = self.hive_blacklist@;
        while self.hive_blacklist.len() > MAX_BLACKLISTED_TARGETS
            invariant
                self.hive_blacklist@.len() <= all.len(),
                self.hive_blacklist@ == all.skip(all.len() - self.hive_blacklist@.len()),
                all.len() > MAX_BLACKLISTED_TARGETS ==> self.hive_blacklist@.len()
                    >= MAX_BLACKLISTED_TARGETS,
                all.len() <= MAX_BLACKLISTED_TARGETS ==> self.hive_blacklist@.len() == all.len(),
                *self == (BeeEntity { hive_blacklist: self.hive_blacklist, ..*old(self) }),
            decreases self.hive_blacklist@.len(),
        {
            self.hive_blacklist.remove(0);
        }
    }

    pub fn is_hive_blacklisted(&self, pos: BlockPos) -> (blacklisted: bool)
        ensures
            blacklisted == self.hive_blacklist@.contains(pos),
    {
        let mut i: usize = 0;
        while i < self.hive_blacklist.len()
            invariant
                i <= self.hive_blacklist.len(),
                forall|j: int| 0 <= j < i ==> self.hive_blacklist@[j] != pos,
            decreases self.hive_blacklist.len() - i,
        {
            if self.hive_blacklist[i] == pos {
                return true;
            }
            i = i + 1;
        }
        false
    }

    pub fn clear_hive_blacklist(&mut self)
        ensures
            final(self).hive_blacklist@ == Seq::<BlockPos>::empty(),
            *final(self) == (BeeEntity {
                hive_blacklist: final(self).hive_blacklist,
                ..*old(self)
            }),
    {
        self.hive_blacklist.clear();
    }

    /// Forgets the hive and remembers that the bee could not get into it.
    pub fn drop_and_blacklist_hive(&mut self)
        requires
            old(self).wf(),
        ensures
            final(self).wf(),
            final(self).hive_blacklist@ == (match old(self).hive_pos {
                Some(pos) => latest(old(self).hive_blacklist@.push(pos)),
                None => old(self).hive_blacklist@,
            }),
            *final(self) == (BeeEntity {
                hive_pos: None,
                hive_cooldown: COOLDOWN_BEFORE_LOCATING_NEW_HIVE,
                hive_blacklist: final(self).hive_blacklist,
                ..*old(self)
            }),
    {
        if let Some(pos) = self.hive_pos {
            self.blacklist_hive(pos);
        }
        self.drop_hive();
    }

    /// The hive of the bee, if it is not too far away and still there. `at_hive` is what
    /// stands where the bee remembers a hive; the square of its distance is given by its bits.
    pub fn get_beehive_block_entity<'a>(
        &self,
        distance_squared: u64,
        at_hive: Option<&'a BlockEntity>,
    ) -> (hive: Option<&'a BeehiveBlockEntity>)
        ensures
            match at_hive {
                Some(BlockEntity::Beehive(h)) if self.hive_pos is Some && !too_far_away(
                    distance_squared,
                ) => hive == Some(h),
                _ => hive is None,
            },
    {
        if self.hive_pos.is_none() {
            return None;
        }
        if is_too_far_away(distance_squared) {
            return None;
        }
        match at_hive {
            Some(handle) => as_hive(handle),
            None => None,
        }
    }

    /// Whether the hive of the bee is not too far away and still there.
    pub fn is_hive_valid(&self, distance_squared: u64, at_hive: Option<&BlockEntity>) -> (valid:
        bool)
        ensures
            valid == sees_its_hive(*self, distance_squared, at_hive),
    {
        self.get_beehive_block_entity(distance_squared, at_hive).is_some()
    }

    /// Whether the hive of the bee is near a fire.
    pub fn is_hive_near_fire(&self, distance_squared: u64, at_hive: Option<&BlockEntity>) -> (near:
        bool)
        ensures
            near == (sees_its_hive(*self, distance_squared, at_hive)
                && (*at_hive->0)->Beehive_0.fire_nearby),
    {
        match self.get_beehive_block_entity(distance_squared, at_hive) {
            Some(hive) => hive.fire_nearby,
            None => false,
        }
    }

    /// Whether the bee wants to go into its hive. `stays_in_hive` says whether the weather or
    /// the time of day keeps bees inside.
    pub open spec fn longs_for_hive(
        self,
        has_target: bool,
        stays_in_hive: bool,
        hive_near_fire: bool,
    ) -> bool {
        &&& self.stay_out_of_hive_countdown <= 0
        &&& !self.pollinating
        &&& !has_flag(self.flags, FLAG_HAS_STUNG)
        &&& !has_target
        &&& has_flag(self.flags, FLAG_HAS_NECTAR) || self.ticks_without_nectar
            > TICKS_WITHOUT_NECTAR_BEFORE_GOING_HOME || stays_in_hive
        &&& !hive_near_fire
    }

    pub fn wants_to_enter_hive(
        &self,
        has_target: bool,
        stays_in_hive: bool,
        hive_near_fire: bool,
    ) -> (wants: bool)
        ensures
            wants == self.longs_for_hive(has_target, stays_in_hive, hive_near_fire),
    {
        if self.stay_out_of_hive_countdown > 0 || self.pollinating || self.has_stung()
            || has_target {
            return false;
        }
        let wants = self.has_nectar() || self.is_tired_of_looking_for_nectar() || stays_in_hive;
        wants && !hive_near_fire
    }

    /// A sting that landed: it poisons where the game is hard enough, the bee has stung, and
    /// its anger is gone.
    pub fn on_successful_attack(
        &mut self,
        target_is_living: bool,
        difficulty: Difficulty,
        effects: &mut Vec<Effect>,
    )
        ensures
            *final(self) == (BeeEntity {
                flags: with_flag(old(self).flags, FLAG_HAS_STUNG, true),
                ..*old(self)
            }),
            final(effects)@ == old(effects)@ + sting_effects(
                old(self).flags,
                target_is_living,
                difficulty,
            ),
    {
        if target_is_living {
            effects.push(Effect::LeaveStinger);
            if let Some(ticks) = poison_duration(difficulty) {
                effects.push(Effect::PoisonTarget(ticks));
            }
        }
        self.set_has_stung(true, effects);
        effects.push(Effect::ForgetAnger);
        effects.push(Effect::DropTarget);
        effects.push(Effect::Play(Sound::BeeSting));
    }

    /// One tick, where `draw` decides whether the bee dies of its sting.
    pub fn tick_with_draw(&mut self, seen: &BeeTick, draw: i32, effects: &mut Vec<Effect>)
        ensures
            *final(self) == bee_ticked(*old(self), *seen),
            final(effects)@ == old(effects)@ + bee_tick_effects(*old(self), *seen, draw as int),
    {
        if seen.dead {
            return;
        }
        effects.push(Effect::TickAnger);
        if let Some(id) = seen.target {
            if !seen.angry_at_target {
                effects.push(Effect::HoldGrudge(id));
            }
        }
        self.stay_out_of_hive_countdown = count_down(self.stay_out_of_hive_countdown);
        self.flower_cooldown = count_down(self.flower_cooldown);
        self.hive_cooldown = count_down(self.hive_cooldown);
        self.tick_count = count_up(self.tick_count);
        if is_multiple(self.tick_count, 20) && self.hive_pos.is_some() && !seen.hive_valid {
            self.hive_pos = None;
        }
        if seen.in_water {
            self.under_water_ticks = count_up(self.under_water_ticks);
        } else {
            self.under_water_ticks = 0;
        }
        if self.under_water_ticks > MAX_UNDER_WATER_TICKS {
            effects.push(Effect::Drown(1));
        }
        if self.has_stung() {
            self.time_since_sting = count_up(self.time_since_sting);
            if is_multiple(self.time_since_sting, 5) && draw == 0 {
                effects.push(Effect::Die);
            }
        }
        if !self.has_nectar() {
            self.ticks_without_nectar = count_up(self.ticks_without_nectar);
        }
    }

    /// One tick. The longer ago a bee has stung, the likelier it dies.
    pub fn mob_tick(&mut self, seen: &BeeTick, effects: &mut Vec<Effect>)
        ensures
            *final(self) == bee_ticked(*old(self), *seen),
            exists|draw: int|
                0 <= draw < death_odds(counted_up(old(self).time_since_sting) as int)
                    && final(effects)@ == old(effects)@ + #[trigger] bee_tick_effects(
                    *old(self),
                    *seen,
                    draw,
                ),
    {
        let bound: i32 = sting_death_roll_bound(count_up(self.time_since_sting));
        let draw: i32 = roll(0, bound);
        self.tick_with_draw(seen, draw, effects);
    }

    /// Lets a player feed the bee.
    pub fn mob_interact(
        &mut self,
        food: bool,
        breeding_ready: bool,
        player: &Player,
        stack: &mut ItemStack,
        effects: &mut Vec<Effect>,
    ) -> (outcome: Interaction)
        requires
            grows(
                old(self).mob_entity,
                bee_feeding(food, breeding_ready),
            ) ==> old(self).mob_entity.age > i32::MIN,
        ensures
            ({
                let feeding = bee_feeding(food, breeding_ready);
                let mob = old(self).mob_entity;
                &&& *final(self) == (BeeEntity {
                    mob_entity: fed(mob, feeding, *player),
                    ..*old(self)
                })
                &&& final(effects)@ == old(effects)@ + feeding_effects(mob, feeding)
                &&& outcome == meal_outcome(mob, feeding)
                &&& *final(stack) == stack_after_meal(
                    mob,
                    feeding,
                    *old(stack),
                    player.gamemode,
                )
            }),
    {
        let feeding = Feeding { food, breeding_ready, can_age_up: true, sound: Sound::BeeLoop };
        animal_interact(&mut self.mob_entity, feeding, player, stack, effects)
    }

    /// The bee that two bees have together, with its identifier: a new one like any other.
    pub fn create_offspring(&self) -> (born: (u128, BeeEntity))
        ensures
            is_random_id(born.0),
            born.1.is_new(0),
            born.1.wf(),
            MIN_FIND_FLOWER_RETRY_COOLDOWN <= born.1.flower_cooldown
                <= MAX_FIND_FLOWER_RETRY_COOLDOWN,
    {
        (newborn_id(), BeeEntity::new(0))
    }

    /// Tells clients about the bee when they first see it.
    pub fn mob_init_data_tracker(&self, effects: &mut Vec<Effect>)
        ensures
            final(effects)@ == old(effects)@ + (if self.mob_entity.age < 0 {
                seq![
                    Effect::Sync(SyncedValue::BeeFlags(self.flags as i8)),
                    Effect::Sync(SyncedValue::Baby(true)),
                ]
            } else {
                seq![Effect::Sync(SyncedValue::BeeFlags(self.flags as i8))]
            }),
    {
        effects.push(Effect::Sync(SyncedValue::BeeFlags(self.flags as i8)));
        if self.mob_entity.is_baby() {
            effects.push(Effect::Sync(SyncedValue::Baby(true)));
        }
    }

    /// Saves the bee.
    pub fn write_nbt(&self, nbt: &mut NbtCompound)
        ensures
            final(nbt)@ == bee_saved(old(nbt)@, *self),
    {
        write_animal_nbt(&self.mob_entity, nbt);
        if let Some(pos) = self.hive_pos {
            nbt.put("hive_pos", block_pos_to_nbt(pos));
        }
        if let Some(pos) = self.flower_pos {
            nbt.put("flower_pos", block_pos_to_nbt(pos));
        }
        nbt.put_bool("HasNectar", self.has_nectar());
        nbt.put_bool("HasStung", self.has_stung());
        nbt.put_int("TicksSincePollination", self.ticks_without_nectar);
        nbt.put_int("CannotEnterHiveTicks", self.stay_out_of_hive_countdown);
        nbt.put_int("CropsGrownSincePollination", self.crops_grown_since_pollination);
    }

    /// Restores the bee.
    pub fn read_nbt(&mut self, nbt: &NbtCompound)
        ensures
            *final(self) == bee_restored(*old(self), nbt@),
    {
        read_animal_nbt(&mut self.mob_entity, nbt);
        let mut flags: u8 = 0;
        if nbt.get_bool("HasNectar").unwrap_or(false) {
            flags = set_flag(flags, FLAG_HAS_NECTAR, true);
        }
        if nbt.get_bool("HasStung").unwrap_or(false) {
            flags = set_flag(flags, FLAG_HAS_STUNG, true);
        }
        self.flags = flags;
        self.ticks_without_nectar = nbt.get_int("TicksSincePollination").unwrap_or(0);
        self.stay_out_of_hive_countdown = nbt.get_int("CannotEnterHiveTicks").unwrap_or(0);
        self.crops_grown_since_pollination = nbt.get_int("CropsGrownSincePollination").unwrap_or(
            0,
        );
        self.hive_pos = block_pos_from_nbt(nbt, "hive_pos");
        self.flower_pos = block_pos_from_nbt(nbt, "flower_pos");
    }
}

/// How a bee takes food.
pub open spec fn bee_feeding(food: bool, breeding_ready: bool) -> Feeding {
    Feeding { food, breeding_ready, can_age_up: true, sound: Sound::BeeLoop }
}

/// What a sting that landed asks of the host.
pub open spec fn sting_effects(flags: u8, target_is_living: bool, difficulty: Difficulty) -> Seq<
    Effect,
> {
    let wound = if !target_is_living {
        seq![]
    } else {
        match sting_poison(difficulty) {
            Some(ticks) => seq![Effect::LeaveStinger, Effect::PoisonTarget(ticks)],
            None => seq![Effect::LeaveStinger],
        }
    };
    wound + flag_effects(flags, FLAG_HAS_STUNG, true) + seq![
        Effect::ForgetAnger,
        Effect::DropTarget,
        Effect::Play(Sound::BeeSting),
    ]
}

/// What is saved of a bee.
pub open spec fn bee_saved(nbt: Map<Seq<char>, NbtValue>, bee: BeeEntity) -> Map<
    Seq<char>,
    NbtValue,
> {
    let animal = animal_saved(nbt, bee.mob_entity);
    let hive = match bee.hive_pos {
        Some(pos) => animal.insert("hive_pos"@, pos_value(pos)),
        None => animal,
    };
    let flower = match bee.flower_pos {
        Some(pos) => hive.insert("flower_pos"@, pos_value(pos)),
        None => hive,
    };
    flower.insert("HasNectar"@, bool_value(has_flag(bee.flags, FLAG_HAS_NECTAR))).insert(
        "HasStung"@,
        bool_value(has_flag(bee.flags, FLAG_HAS_STUNG)),
    ).insert("TicksSincePollination"@, NbtValue::Int(bee.ticks_without_nectar)).insert(
        "CannotEnterHiveTicks"@,
        NbtValue::Int(bee.stay_out_of_hive_countdown),
    ).insert(
        "CropsGrownSincePollination"@,
        NbtValue::Int(bee.crops_grown_since_pollination),
    )
}

/// The flags of a bee that carries nectar or not and has stung or not.
pub open spec fn restored_flags(nectar: bool, stung: bool) -> u8 {
    let with_nectar = if nectar { with_flag(0, FLAG_HAS_NECTAR, true) } else { 0 };
    if stung {
        with_flag(with_nectar, FLAG_HAS_STUNG, true)
    } else {
        with_nectar
    }
}

/// A bee with its saved state restored.
pub open spec fn bee_restored(bee: BeeEntity, nbt: Map<Seq<char>, NbtValue>) -> BeeEntity {
    BeeEntity {
        mob_entity: animal_restored(bee.mob_entity, nbt),
        flags: restored_flags(
            bool_at(nbt, "HasNectar"@) == Some(true),
            bool_at(nbt, "HasStung"@) == Some(true),
        ),
        ticks_without_nectar: match int_at(nbt, "TicksSincePollination"@) {
            Some(n) => n,
            None => 0,
        },
        stay_out_of_hive_countdown: match int_at(nbt, "CannotEnterHiveTicks"@) {
            Some(n) => n,
            None => 0,
        },
        crops_grown_since_pollination: match int_at(nbt, "CropsGrownSincePollination"@) {
            Some(n) => n,
            None => 0,
        },
        hive_pos: pos_at(nbt, "hive_pos"@),
        flower_pos: pos_at(nbt, "flower_pos"@),
        ..bee
    }
}

/// Restoring a bee that was saved to an empty compound gives back everything that was saved:
/// its hive, its flower, its nectar, its sting, and its counters.
pub proof fn law_bee_round_trip(bee: BeeEntity, other: BeeEntity)
    ensures
        ({
            let back = bee_restored(other, bee_saved(Map::empty(), bee));
            &&& back.hive_pos == bee.hive_pos
            &&& back.flower_pos == bee.flower_pos
            &&& has_flag(back.flags, FLAG_HAS_NECTAR) == has_flag(bee.flags, FLAG_HAS_NECTAR)
            &&& has_flag(back.flags, FLAG_HAS_STUNG) == has_flag(bee.flags, FLAG_HAS_STUNG)
            &&& back.ticks_without_nectar == bee.ticks_without_nectar
            &&& back.stay_out_of_hive_countdown == bee.stay_out_of_hive_countdown
            &&& back.crops_grown_since_pollination == bee.crops_grown_since_pollination
            &&& back.mob_entity.love_ticks == bee.mob_entity.love_ticks
            &&& back.mob_entity.breeder == bee.mob_entity.breeder
        }),
{
    reveal_strlit("InLove");
    reveal_strlit("LoveCause");
    reveal_strlit("hive_pos");
    reveal_strlit("flower_pos");
    reveal_strlit("HasNectar");
    reveal_strlit("HasStung");
    reveal_strlit("TicksSincePollination");
    reveal_strlit("CannotEnterHiveTicks");
    reveal_strlit("CropsGrownSincePollination");
    assert("InLove"@.len() == 6 && "LoveCause"@.len() == 9 && "LoveCause"@[0] == 'L');
    assert("hive_pos"@.len() == 8 && "hive_pos"@[0] == 'h');
    assert("flower_pos"@.len() == 10 && "HasNectar"@.len() == 9 && "HasNectar"@[0] == 'H');
    assert("HasStung"@.len() == 8 && "HasStung"@[0] == 'H');
    assert("TicksSincePollination"@.len() == 21 && "CannotEnterHiveTicks"@.len() == 20
        && "CropsGrownSincePollination"@.len() == 26);
    let nectar = has_flag(bee.flags, FLAG_HAS_NECTAR);
    let stung = has_flag(bee.flags, FLAG_HAS_STUNG);
    let saved = bee_saved(Map::empty(), bee);
    assert(bool_at(saved, "HasNectar"@) == Some(nectar));
    assert(bool_at(saved, "HasStung"@) == Some(stung));
    lemma_restored_flags(nectar, stung);
}

proof fn lemma_restored_flags(nectar: bool, stung: bool)
    ensures
        has_flag(restored_flags(nectar, stung), FLAG_HAS_NECTAR) == nectar,
        has_flag(restored_flags(nectar, stung), FLAG_HAS_STUNG) == stung,
{
    assert(0u8 & 8u8 == 0u8 && 0u8 & 4u8 == 0u8 && 4u8 & 8u8 == 0u8 && 8u8 & 4u8 == 0u8)
        by (bit_vector);
    let with_nectar = if nectar { with_flag(0, FLAG_HAS_NECTAR, true) } else { 0 };
    law_flag_reads_back(0, FLAG_HAS_NECTAR, true);
    law_flag_leaves_others(0, FLAG_HAS_NECTAR, FLAG_HAS_STUNG, true);
    law_flag_reads_back(with_nectar, FLAG_HAS_STUNG, true);
    law_flag_leaves_others(with_nectar, FLAG_HAS_STUNG, FLAG_HAS_NECTAR, true);
}

/// A bee never remembers more than a few hives, and the latest is always among them.
pub proof fn law_blacklist_keeps_the_latest(list: Seq<BlockPos>, pos: BlockPos)
    ensures
        latest(list.push(pos)).len() <= MAX_BLACKLISTED_TARGETS,
        latest(list.push(pos)).last() == pos,
        latest(list.push(pos)).contains(pos),
{
    let after = latest(list.push(pos));
    assert(after[after.len() - 1] == pos);
}

/// A bee that has stung does not want to go into its hive, whatever it sees.
pub proof fn law_stung_bee_stays_out(
    bee: BeeEntity,
    has_target: bool,
    stays_in_hive: bool,
    hive_near_fire: bool,
)
    requires
        has_flag(bee.flags, FLAG_HAS_STUNG),
    ensures
        !bee.longs_for_hive(has_target, stays_in_hive, hive_near_fire),
{
}

/// A bee that may go in goes home whenever night or rain keeps bees inside, whenever it carries
/// nectar, and whenever it has looked in vain for nectar for more than three minutes; if none of
/// the three holds, it stays out.
pub proof fn law_bee_goes_home(bee: BeeEntity, stays_in_hive: bool)
    requires
        bee.stay_out_of_hive_countdown <= 0,
        !bee.pollinating,
        !has_flag(bee.flags, 4),
    ensures
        stays_in_hive ==> bee.longs_for_hive(false, stays_in_hive, false),
        has_flag(bee.flags, 8) ==> bee.longs_for_hive(false, stays_in_hive, false),
        bee.ticks_without_nectar > 3600 ==> bee.longs_for_hive(false, stays_in_hive, false),
        !stays_in_hive && !has_flag(bee.flags, 8) && bee.ticks_without_nectar <= 3600
            ==> !bee.longs_for_hive(false, stays_in_hive, false),
{
}

/// Whatever calls a bee home, it stays out while it has to wait, gathers nectar, has stung, has a
/// target, or its hive is near a fire.
pub proof fn law_bee_may_have_to_stay_out(
    bee: BeeEntity,
    has_target: bool,
    stays_in_hive: bool,
    hive_near_fire: bool,
)
    requires
        bee.stay_out_of_hive_countdown > 0 || bee.pollinating || has_flag(bee.flags, 4)
            || has_target || hive_near_fire,
    ensures
        !bee.longs_for_hive(has_target, stays_in_hive, hive_near_fire),
{
}

/// In a tick of a living bee each of its waiting times that is left gets shorter by one; the time
/// since it stung grows only if it has stung, and the time without nectar only if it has none.
/// What it carries, whom it minds and where its flower is do not change.
pub proof fn law_bee_counts_its_times(bee: BeeEntity, seen: BeeTick)
    requires
        !seen.dead,
        bee.time_since_sting < i32::MAX,
        bee.ticks_without_nectar < i32::MAX,
        bee.under_water_ticks < i32::MAX,
    ensures
        ({
            let after = bee_ticked(bee, seen);
            &&& bee.stay_out_of_hive_countdown > 0 ==> after.stay_out_of_hive_countdown
                == bee.stay_out_of_hive_countdown - 1
            &&& bee.stay_out_of_hive_countdown <= 0 ==> after.stay_out_of_hive_countdown
                == bee.stay_out_of_hive_countdown
            &&& bee.flower_cooldown > 0 ==> after.flower_cooldown == bee.flower_cooldown - 1
            &&& bee.flower_cooldown <= 0 ==> after.flower_cooldown == bee.flower_cooldown
            &&& bee.hive_cooldown > 0 ==> after.hive_cooldown == bee.hive_cooldown - 1
            &&& bee.hive_cooldown <= 0 ==> after.hive_cooldown == bee.hive_cooldown
            &&& after.time_since_sting == bee.time_since_sting + (if has_flag(bee.flags, 4) {
                1int
            } else {
                0
            })
            &&& after.ticks_without_nectar == bee.ticks_without_nectar + (if has_flag(
                bee.flags,
                8,
            ) {
                0int
            } else {
                1
            })
            &&& seen.in_water ==> after.under_water_ticks == bee.under_water_ticks + 1
            &&& !seen.in_water ==> after.under_water_ticks == 0
            &&& after.flags == bee.flags
            &&& after.flower_pos == bee.flower_pos
            &&& after.mob_entity == bee.mob_entity
            &&& after.pollinating == bee.pollinating
            &&& after.crops_grown_since_pollination == bee.crops_grown_since_pollination
        }),
{
}

/// Every second a bee forgets a hive that is no longer one; a valid hive, and any hive between
/// those times, is remembered. A dead bee does not change.
pub proof fn law_bee_forgets_lost_hives(bee: BeeEntity, seen: BeeTick)
    requires
        0 <= bee.tick_count < i32::MAX,
    ensures
        !seen.dead ==> bee_ticked(bee, seen).tick_count == bee.tick_count + 1,
        !seen.dead && seen.hive_valid ==> bee_ticked(bee, seen).hive_pos == bee.hive_pos,
        !seen.dead && (bee.tick_count + 1) % 20 != 0 ==> bee_ticked(bee, seen).hive_pos
            == bee.hive_pos,
        !seen.dead && !seen.hive_valid && (bee.tick_count + 1) % 20 == 0 ==> bee_ticked(
            bee,
            seen,
        ).hive_pos is None,
        seen.dead ==> bee_ticked(bee, seen) == bee,
{
}

/// A bee under water drowns once it has been there for more than a second; a bee that has stung
/// dies at the draw, which comes every fifth tick; no other bee does. A dead bee asks for nothing.
pub proof fn law_what_kills_a_bee(bee: BeeEntity, seen: BeeTick, draw: int)
    requires
        bee.time_since_sting < i32::MAX,
        bee.under_water_ticks < i32::MAX,
    ensures
        ({
            let effects = bee_tick_effects(bee, seen, draw);
            &&& effects.contains(Effect::Die) <==> !seen.dead && has_flag(bee.flags, 4)
                && (bee.time_since_sting + 1) % 5 == 0 && draw == 0
            &&& effects.contains(Effect::Drown(1)) <==> !seen.dead && seen.in_water
                && bee.under_water_ticks + 1 > 20
            &&& effects.contains(Effect::TickAnger) <==> !seen.dead
        }),
{
    broadcast use group_effects;

}

/// A bee holds a grudge against a target that it is not yet angry at, and against nobody else.
pub proof fn law_bee_holds_grudges(bee: BeeEntity, seen: BeeTick, draw: int, id: u128)
    ensures
        bee_tick_effects(bee, seen, draw).contains(Effect::HoldGrudge(id)) <==> !seen.dead
            && seen.target == Some(id) && !seen.angry_at_target,
{
    broadcast use group_effects;

}

/// A sting leaves the stinger in a living target and poisons it, for ten seconds on normal and
/// eighteen on hard difficulty, and not at all on easier ones. In any case it is heard, and the
/// bee drops its anger and its target.
pub proof fn law_what_a_sting_does(
    flags: u8,
    target_is_living: bool,
    difficulty: Difficulty,
    ticks: i32,
)
    ensures
        ({
            let effects = sting_effects(flags, target_is_living, difficulty);
            &&& effects.contains(Effect::LeaveStinger) <==> target_is_living
            &&& effects.contains(Effect::PoisonTarget(ticks)) <==> target_is_living && (difficulty
                == Difficulty::Normal && ticks == 200 || difficulty == Difficulty::Hard && ticks
                == 360)
            &&& effects.contains(Effect::ForgetAnger)
            &&& effects.contains(Effect::DropTarget)
            &&& effects.contains(Effect::Play(Sound::BeeSting))
        }),
{
    broadcast use group_effects;

    let end = seq![Effect::ForgetAnger, Effect::DropTarget, Effect::Play(Sound::BeeSting)];
    assert(end[0] == Effect::ForgetAnger && end[1] == Effect::DropTarget && end[2]
        == Effect::Play(Sound::BeeSting));
    let wound = seq![Effect::LeaveStinger, Effect::PoisonTarget(ticks)];
    assert(wound[0] == Effect::LeaveStinger && wound[1] == Effect::PoisonTarget(ticks));
    let normal = seq![Effect::LeaveStinger, Effect::PoisonTarget(200)];
    assert(normal[0] == Effect::LeaveStinger && normal[1] == Effect::PoisonTarget(200));
    let hard = seq![Effect::LeaveStinger, Effect::PoisonTarget(360)];
    assert(hard[0] == Effect::LeaveStinger && hard[1] == Effect::PoisonTarget(360));
}

/// Dry flowers that draw bees draw them, but of a sunflower only the upper half; nothing under
/// water and nothing else does.
pub proof fn law_what_draws_bees(flower: FlowerBlock)
    ensures
        flower.waterlogged ==> !draws_bees(flower),
        !flower.bee_attractive ==> !draws_bees(flower),
        flower.bee_attractive && !flower.waterlogged && flower.block != Block::Sunflower
            ==> draws_bees(flower),
        flower.bee_attractive && !flower.waterlogged && flower.block == Block::Sunflower ==> (
        draws_bees(flower) <==> flower.upper_half),
{
}

/// Forty-eight blocks away is too far, and less is not; closer than two blocks is there.
pub proof fn law_how_far_bees_fly(distance_squared: u64)
    ensures
        too_far_away(distance_squared) <==> !less(distance_squared, 0x40A2_0000_0000_0000),
        arrived(distance_squared) <==> less(distance_squared, 0x4010_0000_0000_0000),
        arrived(distance_squared) ==> !too_far_away(distance_squared),
{
}

/// A bee remembers up to three hives that it gave up, in their order; a fourth displaces the one
/// that it gave up first.
pub proof fn law_blacklist_drops_the_oldest(list: Seq<BlockPos>, pos: BlockPos)
    requires
        list.len() <= 3,
    ensures
        list.len() < 3 ==> latest(list.push(pos)) == list.push(pos),
        list.len() == 3 ==> latest(list.push(pos)) == seq![list[1], list[2], pos],
{
    if list.len() == 3 {
        assert(latest(list.push(pos)) =~= seq![list[1], list[2], pos]);
    }
}

/// Clients learn of the flags of a bee when one of them changes, and only then.
pub proof fn law_flags_are_told_when_they_change(flags: u8, flag: u8, value: bool)
    requires
        flag != 0,
        flag & (flag - 1) as u8 == 0,
    ensures
        has_flag(flags, flag) != value ==> flag_effects(flags, flag, value) == seq![
            Effect::Sync(SyncedValue::BeeFlags(with_flag(flags, flag, value) as i8)),
        ],
        has_flag(flags, flag) == value ==> flag_effects(flags, flag, value).len() == 0,
{
    let less_one = (flag - 1) as u8;
    assert(flags & flag != 0 ==> flags | flag == flags) by (bit_vector)
        requires
            flag & less_one == 0,
            less_one == flag - 1,
            flag != 0,
    ;
    assert(flags & flag == 0 ==> flags & !flag == flags) by (bit_vector);
    law_flag_reads_back(flags, flag, value);
}

/// Food makes a baby bee grow and a grown one that is ready fall in love; nothing else does, and
/// it is heard.
pub proof fn law_what_feeding_a_bee_does(mob: MobEntity, food: bool, breeding_ready: bool)
    ensures
        grows(mob, bee_feeding(food, breeding_ready)) <==> food && mob.age < 0,
        falls_in_love(mob, bee_feeding(food, breeding_ready)) <==> food && breeding_ready && mob.age >= 0
            && mob.love_ticks <= 0,
        bee_feeding(food, breeding_ready).sound == Sound::BeeLoop,
{
}

/// What bees pursue, and how urgently: this and nothing else.
pub proof fn law_what_bees_pursue(e: GoalEntry)
    ensures
        bee_goals().contains(e) <==> {
            ||| e.priority == 0 && e.goal == Goal::BeeAttack
            ||| e.priority == 1 && e.goal == Goal::BeeEnterHive
            ||| e.priority == 2 && e.goal == (Goal::Breed { speed: 1000 })
            ||| e.priority == 3 && e.goal == Goal::BeeValidateHive
            ||| e.priority == 3 && e.goal == Goal::BeeValidateFlower
            ||| e.priority == 4 && e.goal == Goal::BeePollinate
            ||| e.priority == 5 && e.goal == (Goal::FollowParent { speed: 1250 })
            ||| e.priority == 5 && e.goal == Goal::BeeLocateHive
            ||| e.priority == 5 && e.goal == Goal::BeeGoToHive
            ||| e.priority == 6 && e.goal == Goal::BeeGoToKnownFlower
            ||| e.priority == 7 && e.goal == Goal::BeeGrowCrop
            ||| e.priority == 8 && e.goal == (Goal::Wander { speed: 1000 })
            ||| e.priority == 9 && e.goal == Goal::Swim
            ||| e.priority == 5 && e.goal == (Goal::LookAt { kind: EntityKind::Player, range: 6000 })
            ||| e.priority == 6 && e.goal == Goal::LookAround
        },
        bee_goals().len() == 15,
{
    let all = bee_goals();
    assert(all[0] == (GoalEntry { priority: 0, goal: Goal::BeeAttack }));
    assert(all[1] == (GoalEntry { priority: 1, goal: Goal::BeeEnterHive }));
    assert(all[2] == (GoalEntry { priority: 2, goal: Goal::Breed { speed: 1000 } }));
    assert(all[3] == (GoalEntry { priority: 3, goal: Goal::BeeValidateHive }));
    assert(all[4] == (GoalEntry { priority: 3, goal: Goal::BeeValidateFlower }));
    assert(all[5] == (GoalEntry { priority: 4, goal: Goal::BeePollinate }));
    assert(all[6] == (GoalEntry { priority: 5, goal: Goal::FollowParent { speed: 1250 } }));
    assert(all[7] == (GoalEntry { priority: 5, goal: Goal::BeeLocateHive }));
    assert(all[8] == (GoalEntry { priority: 5, goal: Goal::BeeGoToHive }));
    assert(all[9] == (GoalEntry { priority: 6, goal: Goal::BeeGoToKnownFlower }));
    assert(all[10] == (GoalEntry { priority: 7, goal: Goal::BeeGrowCrop }));
    assert(all[11] == (GoalEntry { priority: 8, goal: Goal::Wander { speed: 1000 } }));
    assert(all[12] == (GoalEntry { priority: 9, goal: Goal::Swim }));
    assert(all[13] == (GoalEntry { priority: 5, goal: Goal::LookAt { kind: EntityKind::Player, range: 6000 } }));
    assert(all[14] == (GoalEntry { priority: 6, goal: Goal::LookAround }));
}

/// What bees go for, and how urgently: this and nothing else.
pub proof fn law_what_bees_go_for(e: GoalEntry)
    ensures
        bee_targets().contains(e) <==> {
            ||| e.priority == 1 && e.goal == (Goal::Revenge { group: true })
            ||| e.priority == 2 && e.goal == (Goal::ActiveTarget { kind: EntityKind::Player, interval: 10, check_visibility: true, check_navigable: false, only: TargetRule::AngryAt, })
            ||| e.priority == 3 && e.goal == (Goal::ResetUniversalAnger { alert_others: true })
        },
        bee_targets().len() == 3,
{
    let all = bee_targets();
    assert(all[0] == (GoalEntry { priority: 1, goal: Goal::Revenge { group: true } }));
    assert(all[1] == (GoalEntry { priority: 2, goal: Goal::ActiveTarget { kind: EntityKind::Player, interval: 10, check_visibility: true, check_navigable: false, only: TargetRule::AngryAt, } }));
    assert(all[2] == (GoalEntry { priority: 3, goal: Goal::ResetUniversalAnger { alert_others: true } }));
}

/// A sting poisons on normal difficulty, longer on hard, and on no other.
pub proof fn law_when_stings_poison(difficulty: Difficulty)
    ensures
        sting_poison(difficulty) is Some <==> difficulty == Difficulty::Normal || difficulty
            == Difficulty::Hard,
        difficulty == Difficulty::Normal ==> sting_poison(difficulty)->0 == 10 * 20,
        difficulty == Difficulty::Hard ==> sting_poison(difficulty)->0 == 18 * 20,
{
}

/// What was saved of nectar and of a sting, and nothing else, is in the flags of a bee read back.
pub proof fn law_flags_read_back(nectar: bool, stung: bool)
    ensures
        has_flag(restored_flags(nectar, stung), 8) == nectar,
        has_flag(restored_flags(nectar, stung), 4) == stung,
        !nectar && !stung ==> restored_flags(nectar, stung) == 0,
        !has_flag(restored_flags(nectar, stung), 2),
{
    assert((0u8 | 8u8) & 8u8 == 8u8 && (0u8 | 8u8) & 4u8 == 0u8 && (0u8 | 8u8) & 2u8 == 0u8)
        by (bit_vector);
    assert((0u8 | 4u8) & 4u8 == 4u8 && (0u8 | 4u8) & 8u8 == 0u8 && (0u8 | 4u8) & 2u8 == 0u8)
        by (bit_vector);
    assert(((0u8 | 8u8) | 4u8) & 4u8 == 4u8 && ((0u8 | 8u8) | 4u8) & 8u8 == 8u8 && ((0u8 | 8u8) | 4u8)
        & 2u8 == 0u8) by (bit_vector);
    assert(0u8 & 8u8 == 0u8 && 0u8 & 4u8 == 0u8 && 0u8 & 2u8 == 0u8) by (bit_vector);
}

/// A bee that has stung dies on every fifth tick since, if the draw says so, and never otherwise.
pub proof fn law_when_stings_kill_the_bee(bee: BeeEntity, draw: int)
    ensures
        dies_of_sting(bee, draw) ==> has_flag(bee.flags, 4) && draw == 0,
        has_flag(bee.flags, 4) && draw == 0 && 0 <= bee.time_since_sting < i32::MAX ==> (dies_of_sting(
            bee,
            draw,
        ) <==> (bee.time_since_sting + 1) % 5 == 0),
{
}

/// A bee sees its hive where there is one, not too far away, at the place it remembers.
pub proof fn law_when_bees_see_their_hive(
    bee: BeeEntity,
    distance_squared: u64,
    at_hive: Option<&BlockEntity>,
)
    ensures
        !sees_its_hive(bee, distance_squared, at_hive) <==> bee.hive_pos is None || too_far_away(
            distance_squared,
        ) || at_hive is None || *at_hive->0 is Other,
{
}

/// A bee is tired of looking for nectar after three minutes.
pub proof fn law_when_bees_tire(ticks_without_nectar: i32)
    ensures
        is_tired(ticks_without_nectar) <==> ticks_without_nectar >= 3 * 60 * 20 + 1,
{
}

/// A bee that gets nectar has it and need no longer look; one that drops it off starts its crops
/// anew. Nothing else of it changes.
pub proof fn law_bees_gain_and_drop_nectar(bee: BeeEntity, has_nectar: bool)
    ensures
        has_flag(nectar_set(bee, has_nectar).flags, 8) == has_nectar,
        has_flag(nectar_set(bee, has_nectar).flags, 4) == has_flag(bee.flags, 4),
        has_nectar ==> nectar_set(bee, has_nectar).ticks_without_nectar == 0,
        !has_nectar ==> nectar_set(bee, has_nectar).ticks_without_nectar == bee.ticks_without_nectar,
        nectar_set(bee, has_nectar).crops_grown_since_pollination == bee.crops_grown_since_pollination,
        !has_flag(nectar_dropped(bee).flags, 8),
        has_flag(nectar_dropped(bee).flags, 4) == has_flag(bee.flags, 4),
        nectar_dropped(bee).crops_grown_since_pollination == 0,
        nectar_dropped(bee).ticks_without_nectar == bee.ticks_without_nectar,
        nectar_dropped(bee).hive_pos == bee.hive_pos,
{
    assert(8u8 & 4u8 == 0) by (bit_vector);
    law_flag_reads_back(bee.flags, 8, has_nectar);
    law_flag_reads_back(bee.flags, 8, false);
    law_flag_leaves_others(bee.flags, 8, 4, has_nectar);
    law_flag_leaves_others(bee.flags, 8, 4, false);
}

} // verus!
