//! Dolphins, which dry out on land.

use vstd::prelude::*;

use crate::effect::{group_effects, Effect, Interaction, Sound, SyncedValue};
use crate::goal::{
    entry, goal, look_at_player, watch_player, AvoidRule, EntityKind, Goal, GoalEntry, RiddenKinds,
};
use crate::item::{after_use, ItemStack, Player};
use crate::mob::MobEntity;
use crate::nbt::{bool_at, bool_value, int_at, NbtCompound, NbtValue};

verus! {

/// How long a dolphin keeps moist out of the water.
pub const TOTAL_MOISTNESS_LEVEL: i32 = 2400;

/// The damage that a dry dolphin takes in each tick.
pub const DRY_OUT_DAMAGE: u32 = 1;

/// What a dolphin pursues.
pub open spec fn dolphin_goals() -> Seq<GoalEntry> {
    seq![
        entry(0, Goal::BreatheAir),
        entry(0, Goal::TryFindWater),
        entry(1, Goal::DolphinSwimToTreasure { speed: 1300 }),
        entry(2, Goal::DolphinSwimWithPlayer { speed: 4000 }),
        entry(4, Goal::WanderAtInterval { speed: 1000, interval: 10 }),
        entry(4, Goal::LookAround),
        entry(5, look_at_player(6000)),
        entry(5, Goal::DolphinJump { chance: 10 }),
        entry(6, Goal::MeleeAttack { speed: 1200, pause_when_idle: true }),
        entry(8, Goal::FollowRiddenEntity { vehicles: RiddenKinds::Boats }),
        entry(8, Goal::FollowRiddenEntity { vehicles: RiddenKinds::Nautiluses }),
        entry(9, dolphin_avoids(EntityKind::Guardian)),
        entry(9, dolphin_avoids(EntityKind::ElderGuardian)),
    ]
}

/// Keeping away from guardians.
pub open spec fn dolphin_avoids(kind: EntityKind) -> Goal {
    Goal::Avoid {
        kind,
        distance: 8000,
        slow_speed: 1000,
        fast_speed: 1000,
        from: AvoidRule::Always,
    }
}

/// A dolphin.
pub struct DolphinEntity {
    pub mob_entity: MobEntity,
    pub air_supply: i32,
    pub got_fish: bool,
    pub moistness_level: i32,
}

/// What a dolphin sees of the world in one tick.
#[derive(Clone, Copy)]
pub struct DolphinTick {
    pub dead: bool,
    /// Whether the dolphin has no will of its own.
    pub no_ai: bool,
    pub max_air: i32,
    pub in_water: bool,
    /// Whether it rains where the dolphin is.
    pub raining_here: bool,
    /// Whether it rains on the back of the dolphin.
    pub raining_above: bool,
    pub on_ground: bool,
}

impl DolphinTick {
    /// Whether the dolphin is wet.
    pub open spec fn wet(self) -> bool {
        self.in_water || self.raining_here || self.raining_above
    }
}

/// The message that tells clients how moist a dolphin is.
pub open spec fn moistness_sync(level: i32) -> Effect {
    Effect::Sync(SyncedValue::DolphinMoistness(level))
}

/// The message that tells clients whether a dolphin got fish.
pub open spec fn fish_sync(got_fish: bool) -> Effect {
    Effect::Sync(SyncedValue::DolphinGotFish(got_fish))
}

/// How moist a dolphin is after one tick.
pub open spec fn moistness_ticked(level: int, wet: bool) -> int {
    if wet {
        TOTAL_MOISTNESS_LEVEL as int
    } else {
        level - 1
    }
}

/// How moist a dolphin is after some ticks on dry land.
pub open spec fn moistness_after(level: int, ticks: nat) -> int
    decreases ticks,
{
    if ticks == 0 {
        level
    } else {
        moistness_ticked(moistness_after(level, (ticks - 1) as nat), false)
    }
}

/// What one tick of drying asks of the host.
pub open spec fn moistness_effects(level: i32, seen: DolphinTick) -> Seq<Effect> {
    let next = moistness_ticked(level as int, seen.wet()) as i32;
    let told = if seen.wet() && level == TOTAL_MOISTNESS_LEVEL {
        seq![]
    } else {
        seq![moistness_sync(next)]
    };
    let dried = if !seen.wet() && next <= 0 {
        seq![Effect::DryOut(DRY_OUT_DAMAGE)]
    } else {
        seq![]
    };
    let flops = if !seen.wet() && seen.on_ground {
        seq![Effect::Flop]
    } else {
        seq![]
    };
    told + dried + flops
}

/// A dolphin after one tick.
pub open spec fn dolphin_ticked(dolphin: DolphinEntity, seen: DolphinTick) -> DolphinEntity {
    if seen.dead {
        dolphin
    } else if seen.no_ai {
        DolphinEntity { air_supply: seen.max_air, ..dolphin }
    } else {
        DolphinEntity {
            moistness_level: moistness_ticked(dolphin.moistness_level as int, seen.wet()) as i32,
            ..dolphin
        }
    }
}

/// What a dolphin's tick asks of the host.
pub open spec fn dolphin_tick_effects(dolphin: DolphinEntity, seen: DolphinTick) -> Seq<Effect> {
    if seen.dead || seen.no_ai && dolphin.air_supply == seen.max_air {
        seq![]
    } else if seen.no_ai {
        seq![Effect::Sync(SyncedValue::AirSupply(seen.max_air))]
    } else {
        moistness_effects(dolphin.moistness_level, seen)
    }
}

impl DolphinEntity {
    /// A new dolphin, moist and with some air.
    pub fn new(age: i32, air_supply: i32) -> (dolphin: Self)
        ensures
            dolphin.mob_entity.fresh(age),
            dolphin.mob_entity.goals@ == dolphin_goals(),
            dolphin.mob_entity.targets@ == seq![entry(1, Goal::DolphinHurtByTarget)],
            dolphin.air_supply == air_supply,
            !dolphin.got_fish,
            dolphin.moistness_level == TOTAL_MOISTNESS_LEVEL,
    {
        let goals = vec![
            goal(0, Goal::BreatheAir),
            goal(0, Goal::TryFindWater),
            goal(1, Goal::DolphinSwimToTreasure { speed: 1300 }),
            goal(2, Goal::DolphinSwimWithPlayer { speed: 4000 }),
            goal(4, Goal::WanderAtInterval { speed: 1000, interval: 10 }),
            goal(4, Goal::LookAround),
            goal(5, watch_player(6000)),
            goal(5, Goal::DolphinJump { chance: 10 }),
            goal(6, Goal::MeleeAttack { speed: 1200, pause_when_idle: true }),
            goal(8, Goal::FollowRiddenEntity { vehicles: RiddenKinds::Boats }),
            goal(8, Goal::FollowRiddenEntity { vehicles: RiddenKinds::Nautiluses }),
            goal(
                9,
                Goal::Avoid {
                    kind: EntityKind::Guardian,
                    distance: 8000,
                    slow_speed: 1000,
                    fast_speed: 1000,
                    from: AvoidRule::Always,
                },
            ),
            goal(
                9,
                Goal::Avoid {
                    kind: EntityKind::ElderGuardian,
                    distance: 8000,
                    slow_speed: 1000,
                    fast_speed: 1000,
                    from: AvoidRule::Always,
                },
            ),
        ];
        DolphinEntity {
            mob_entity: MobEntity::with_goals(
                age,
                goals,
                vec![goal(1, Goal::DolphinHurtByTarget)],
            ),
            air_supply,
            got_fish: false,
            moistness_level: TOTAL_MOISTNESS_LEVEL,
        }
    }

    pub fn get_air_supply(&self) -> (air: i32)
        ensures
            air == self.air_supply,
    {
        self.air_supply
    }

    pub fn got_fish(&self) -> (got: bool)
        ensures
            got == self.got_fish,
    {
        self.got_fish
    }

    pub fn set_got_fish(&mut self, got_fish: bool, effects: &mut Vec<Effect>)
        ensures
            *final(self) == (DolphinEntity { got_fish, ..*old(self) }),
            final(effects)@ == old(effects)@.push(fish_sync(got_fish)),
    {
        self.got_fish = got_fish;
        effects.push(Effect::Sync(SyncedValue::DolphinGotFish(got_fish)));
    }

    fn send_moistness(&self, level: i32, effects: &mut Vec<Effect>)
        ensures
            final(effects)@ == old(effects)@.push(moistness_sync(level)),
    {
        effects.push(Effect::Sync(SyncedValue::DolphinMoistness(level)));
    }

    /// Keeps a wet dolphin moist and dries one on land, which flops about.
    pub fn tick_moistness(&mut self, seen: &DolphinTick, effects: &mut Vec<Effect>)
        requires
            seen.wet() || old(self).moistness_level > i32::MIN,
        ensures
            *final(self) == (DolphinEntity {
                moistness_level: moistness_ticked(
                    old(self).moistness_level as int,
                    seen.wet(),
                ) as i32,
                ..*old(self)
            }),
            final(effects)@ == old(effects)@ + moistness_effects(old(self).moistness_level, *seen),
    {
        let wet = seen.in_water || seen.raining_here || seen.raining_above;
        if wet {
            if self.moistness_level != TOTAL_MOISTNESS_LEVEL {
                self.moistness_level = TOTAL_MOISTNESS_LEVEL;
                self.send_moistness(TOTAL_MOISTNESS_LEVEL, effects);
            }
        } else {
            let level: i32 = self.moistness_level - 1;
            self.moistness_level = level;
            self.send_moistness(level, effects);
            if level <= 0 {
                effects.push(Effect::DryOut(DRY_OUT_DAMAGE));
            }
        }
        if !wet && seen.on_ground {
            effects.push(Effect::Flop);
        }
    }

    /// One tick. A dolphin without a will of its own gets its air back and does not dry.
    pub fn mob_tick(&mut self, seen: &DolphinTick, effects: &mut Vec<Effect>)
        requires
            seen.dead || seen.no_ai || seen.wet() || old(self).moistness_level > i32::MIN,
        ensures
            *final(self) == dolphin_ticked(*old(self), *seen),
            final(effects)@ == old(effects)@ + dolphin_tick_effects(*old(self), *seen),
    {
        if seen.dead {
            return ;
        }
        if seen.no_ai {
            let before: i32 = self.air_supply;
            self.air_supply = seen.max_air;
            if before != seen.max_air {
                effects.push(Effect::Sync(SyncedValue::AirSupply(seen.max_air)));
            }
            return ;
        }
        self.tick_moistness(seen, effects);
    }

    /// Lets a player use an item on the dolphin, which takes fish.
    pub fn mob_interact(
        &mut self,
        is_fish: bool,
        player: &Player,
        stack: &mut ItemStack,
        effects: &mut Vec<Effect>,
    ) -> (outcome: Interaction)
        ensures
            outcome == (if is_fish { Interaction::Handled } else { Interaction::Shared }),
            *final(self) == (DolphinEntity {
                got_fish: old(self).got_fish || is_fish,
                ..*old(self)
            }),
            *final(stack) == (if is_fish {
                after_use(*old(stack), player.gamemode, 1)
            } else {
                *old(stack)
            }),
            final(effects)@ == old(effects)@ + (if is_fish {
                seq![Effect::Play(Sound::DolphinEat), fish_sync(true)]
            } else {
                seq![]
            }),
    {
        if !is_fish {
            return Interaction::Shared;
        }
        effects.push(Effect::Play(Sound::DolphinEat));
        self.set_got_fish(true, effects);
        stack.decrement_unless_creative(player.gamemode, 1);
        Interaction::Handled
    }

    /// Tells clients about the dolphin when they first see it.
    pub fn mob_init_data_tracker(&self, effects: &mut Vec<Effect>)
        ensures
            final(effects)@ == old(effects)@ + seq![
                moistness_sync(self.moistness_level),
                fish_sync(self.got_fish),
            ],
    {
        self.send_moistness(self.moistness_level, effects);
        effects.push(Effect::Sync(SyncedValue::DolphinGotFish(self.got_fish)));
    }

    /// Saves the dolphin.
    pub fn write_nbt(&self, nbt: &mut NbtCompound)
        ensures
            final(nbt)@ == dolphin_saved(old(nbt)@, *self),
    {
        nbt.put_bool("GotFish", self.got_fish);
        nbt.put_int("Moistness", self.moistness_level);
    }

    /// Restores the dolphin.
    pub fn read_nbt(&mut self, nbt: &NbtCompound)
        ensures
            *final(self) == dolphin_restored(*old(self), nbt@),
    {
        self.got_fish = nbt.get_bool("GotFish").unwrap_or(false);
        self.moistness_level = nbt.get_int("Moistness").unwrap_or(TOTAL_MOISTNESS_LEVEL);
    }
}

/// What is saved of a dolphin.
pub open spec fn dolphin_saved(nbt: Map<Seq<char>, NbtValue>, dolphin: DolphinEntity) -> Map<
    Seq<char>,
    NbtValue,
> {
    nbt.insert("GotFish"@, bool_value(dolphin.got_fish)).insert(
        "Moistness"@,
        NbtValue::Int(dolphin.moistness_level),
    )
}

/// A dolphin with its saved state restored.
pub open spec fn dolphin_restored(
    dolphin: DolphinEntity,
    nbt: Map<Seq<char>, NbtValue>,
) -> DolphinEntity {
    DolphinEntity {
        got_fish: bool_at(nbt, "GotFish"@) == Some(true),
        moistness_level: match int_at(nbt, "Moistness"@) {
            Some(level) => level,
            None => TOTAL_MOISTNESS_LEVEL,
        },
        ..dolphin
    }
}

/// Restoring a saved dolphin gives back how moist it is and whether it got fish.
pub proof fn law_dolphin_round_trip(
    nbt: Map<Seq<char>, NbtValue>,
    dolphin: DolphinEntity,
    other: DolphinEntity,
)
    ensures
        ({
            let back = dolphin_restored(other, dolphin_saved(nbt, dolphin));
            &&& back.got_fish == dolphin.got_fish
            &&& back.moistness_level == dolphin.moistness_level
        }),
{
    reveal_strlit("GotFish");
    reveal_strlit("Moistness");
    assert("GotFish"@.len() == 7 && "Moistness"@.len() == 9);
}

/// A dolphin that left the water is still moist until its time is over, and dry from then on.
pub proof fn law_dolphin_dries_out_in_time(ticks: nat)
    ensures
        moistness_after(TOTAL_MOISTNESS_LEVEL as int, ticks) == TOTAL_MOISTNESS_LEVEL - ticks,
        moistness_after(TOTAL_MOISTNESS_LEVEL as int, ticks) <= 0 <==> ticks
            >= TOTAL_MOISTNESS_LEVEL,
    decreases ticks,
{
    if ticks > 0 {
        law_dolphin_dries_out_in_time((ticks - 1) as nat);
    }
}

/// Water makes a dolphin as moist as it can be, however dry it was, and does it no harm.
pub proof fn law_water_saves_the_dolphin(level: i32, seen: DolphinTick)
    requires
        seen.wet(),
    ensures
        moistness_ticked(level as int, seen.wet()) == TOTAL_MOISTNESS_LEVEL,
        !moistness_effects(level, seen).contains(Effect::DryOut(DRY_OUT_DAMAGE)),
{
}

/// A dry dolphin loses one step of two minutes a tick, and dries out by one health in every tick
/// once nothing is left; a wet one has all of it again. On dry ground it flops about.
pub proof fn law_dolphins_dry(level: i32, seen: DolphinTick)
    requires
        level > i32::MIN,
    ensures
        ({
            let wet = seen.in_water || seen.raining_here || seen.raining_above;
            let effects = moistness_effects(level, seen);
            &&& seen.wet() <==> wet
            &&& wet ==> moistness_ticked(level as int, wet) == 2400
            &&& !wet ==> moistness_ticked(level as int, wet) == level - 1
            &&& effects.contains(Effect::DryOut(1)) <==> !wet && level - 1 <= 0
            &&& effects.contains(Effect::Flop) <==> !wet && seen.on_ground
            &&& wet && level == 2400 ==> effects.len() == 0
            &&& wet && level != 2400 ==> effects.contains(
                Effect::Sync(SyncedValue::DolphinMoistness(2400)),
            )
            &&& !wet ==> effects.contains(
                Effect::Sync(SyncedValue::DolphinMoistness((level - 1) as i32)),
            )
        }),
{
    broadcast use group_effects;

}

/// A dolphin of which nothing was saved is wet through.
pub proof fn law_what_is_read_of_a_dolphin(dolphin: DolphinEntity, nbt: Map<Seq<char>, NbtValue>)
    ensures
        int_at(nbt, "Moistness"@) is None ==> dolphin_restored(dolphin, nbt).moistness_level == 2400,
        int_at(nbt, "Moistness"@) is Some ==> dolphin_restored(dolphin, nbt).moistness_level
            == int_at(nbt, "Moistness"@)->0,
        dolphin_restored(dolphin, nbt).got_fish <==> bool_at(nbt, "GotFish"@) == Some(true),
        dolphin_restored(dolphin, nbt).air_supply == dolphin.air_supply,
{
}

/// What dolphins pursue, and how urgently: this and nothing else.
pub proof fn law_what_dolphins_pursue(e: GoalEntry)
    ensures
        dolphin_goals().contains(e) <==> {
            ||| e.priority == 0 && e.goal == Goal::BreatheAir
            ||| e.priority == 0 && e.goal == Goal::TryFindWater
            ||| e.priority == 1 && e.goal == (Goal::DolphinSwimToTreasure { speed: 1300 })
            ||| e.priority == 2 && e.goal == (Goal::DolphinSwimWithPlayer { speed: 4000 })
            ||| e.priority == 4 && e.goal == (Goal::WanderAtInterval { speed: 1000, interval: 10 })
            ||| e.priority == 4 && e.goal == Goal::LookAround
            ||| e.priority == 5 && e.goal == (Goal::LookAt { kind: EntityKind::Player, range: 6000 })
            ||| e.priority == 5 && e.goal == (Goal::DolphinJump { chance: 10 })
            ||| e.priority == 6 && e.goal == (Goal::MeleeAttack { speed: 1200, pause_when_idle: true })
            ||| e.priority == 8 && e.goal == (Goal::FollowRiddenEntity { vehicles: RiddenKinds::Boats })
            ||| e.priority == 8 && e.goal == (Goal::FollowRiddenEntity { vehicles: RiddenKinds::Nautiluses })
            ||| e.priority == 9 && e.goal == dolphin_avoids(EntityKind::Guardian)
            ||| e.priority == 9 && e.goal == dolphin_avoids(EntityKind::ElderGuardian)
        },
        dolphin_goals().len() == 13,
{
    let all = dolphin_goals();
    assert(all[0] == (GoalEntry { priority: 0, goal: Goal::BreatheAir }));
    assert(all[1] == (GoalEntry { priority: 0, goal: Goal::TryFindWater }));
    assert(all[2] == (GoalEntry { priority: 1, goal: Goal::DolphinSwimToTreasure { speed: 1300 } }));
    assert(all[3] == (GoalEntry { priority: 2, goal: Goal::DolphinSwimWithPlayer { speed: 4000 } }));
    assert(all[4] == (GoalEntry { priority: 4, goal: Goal::WanderAtInterval { speed: 1000, interval: 10 } }));
    assert(all[5] == (GoalEntry { priority: 4, goal: Goal::LookAround }));
    assert(all[6] == (GoalEntry { priority: 5, goal: Goal::LookAt { kind: EntityKind::Player, range: 6000 } }));
    assert(all[7] == (GoalEntry { priority: 5, goal: Goal::DolphinJump { chance: 10 } }));
    assert(all[8] == (GoalEntry { priority: 6, goal: Goal::MeleeAttack { speed: 1200, pause_when_idle: true } }));
    assert(all[9] == (GoalEntry { priority: 8, goal: Goal::FollowRiddenEntity { vehicles: RiddenKinds::Boats } }));
    assert(all[10] == (GoalEntry { priority: 8, goal: Goal::FollowRiddenEntity { vehicles: RiddenKinds::Nautiluses } }));
    assert(all[11] == (GoalEntry { priority: 9, goal: dolphin_avoids(EntityKind::Guardian) }));
    assert(all[12] == (GoalEntry { priority: 9, goal: dolphin_avoids(EntityKind::ElderGuardian) }));
}

/// A dead dolphin does not change; one without a will of its own only gets its air back; any other
/// dries out or gets wet.
pub proof fn law_what_a_tick_makes_of_a_dolphin(dolphin: DolphinEntity, seen: DolphinTick)
    ensures
        ({
            let after = dolphin_ticked(dolphin, seen);
            let told = dolphin_tick_effects(dolphin, seen);
            &&& seen.dead ==> after == dolphin && told.len() == 0
            &&& !seen.dead && seen.no_ai ==> after.air_supply == seen.max_air
                && after.moistness_level == dolphin.moistness_level
            &&& !seen.dead && seen.no_ai && dolphin.air_supply == seen.max_air ==> told.len() == 0
            &&& !seen.dead && seen.no_ai && dolphin.air_supply != seen.max_air ==> told == seq![
                Effect::Sync(SyncedValue::AirSupply(seen.max_air)),
            ]
            &&& !seen.dead && !seen.no_ai ==> after.air_supply == dolphin.air_supply && told
                == moistness_effects(dolphin.moistness_level, seen)
            &&& !seen.dead && !seen.no_ai && seen.wet() ==> after.moistness_level == 2400
            &&& !seen.dead && !seen.no_ai && !seen.wet() && dolphin.moistness_level > i32::MIN
                ==> after.moistness_level == dolphin.moistness_level - 1
            &&& after.mob_entity == dolphin.mob_entity
        }),
{
}

/// Dolphins always keep eight blocks from what they avoid, at their usual pace.
pub proof fn law_how_dolphins_avoid(kind: EntityKind)
    ensures
        dolphin_avoids(kind) == (Goal::Avoid {
            kind,
            distance: 8000,
            slow_speed: 1000,
            fast_speed: 1000,
            from: AvoidRule::Always,
        }),
{
}

} // verus!
