//! Glow squids, which stop to glow when they are hurt.

use vstd::prelude::*;

use crate::effect::{group_effects, Effect, Particle, Sound, SyncedValue};
use crate::goal::GoalEntry;
use crate::mob::MobEntity;
use crate::nbt::{int_at, NbtCompound, NbtValue};
use crate::position::Point;
use crate::squid::{goals_of_squids, resting, squid_goals, stroked, StrokeStep, Tentacles};
use crate::ticks::{count_down, counted_down};

verus! {

/// How long a hurt glow squid stays dark.
pub const DARK_TICKS_ON_HURT: i32 = 100;

/// A glow squid.
pub struct GlowSquidEntity {
    pub mob_entity: MobEntity,
    pub dark_ticks_remaining: i32,
    pub tentacles: Tentacles,
}

/// The message that tells clients how long a glow squid stays dark.
pub open spec fn dark_sync(ticks: i32) -> Effect {
    Effect::Sync(SyncedValue::GlowSquidDarkTicks(ticks))
}

/// What one tick of a glow squid asks of the host.
pub open spec fn glow_effects(dark_ticks: i32) -> Seq<Effect> {
    if dark_ticks > 0 {
        seq![dark_sync((dark_ticks - 1) as i32), Effect::Sparkle(Particle::Glow)]
    } else {
        seq![Effect::Sparkle(Particle::Glow)]
    }
}

impl GlowSquidEntity {
    /// A new glow squid that glows, with the speed of its tentacles.
    pub fn new(age: i32, pace: u64) -> (squid: Self)
        ensures
            squid.mob_entity.fresh(age),
            squid.mob_entity.goals@ == squid_goals(),
            squid.mob_entity.targets@ == Seq::<GoalEntry>::empty(),
            squid.dark_ticks_remaining == 0,
            squid.tentacles == resting(pace),
    {
        GlowSquidEntity {
            mob_entity: MobEntity::with_goals(age, goals_of_squids(), Vec::new()),
            dark_ticks_remaining: 0,
            tentacles: Tentacles::new(pace),
        }
    }

    fn send_dark_ticks(&self, ticks: i32, effects: &mut Vec<Effect>)
        ensures
            final(effects)@ == old(effects)@.push(dark_sync(ticks)),
    {
        effects.push(Effect::Sync(SyncedValue::GlowSquidDarkTicks(ticks)));
    }

    /// Tells clients about the glow squid when they first see it.
    pub fn mob_init_data_tracker(&self, effects: &mut Vec<Effect>)
        ensures
            final(effects)@ == old(effects)@.push(dark_sync(self.dark_ticks_remaining)),
    {
        self.send_dark_ticks(self.dark_ticks_remaining, effects);
    }

    pub fn set_movement_vector(&mut self, movement: Point)
        ensures
            *final(self) == (GlowSquidEntity {
                tentacles: Tentacles { movement_vector: movement, ..old(self).tentacles },
                ..*old(self)
            }),
    {
        self.tentacles.movement_vector = movement;
    }

    pub fn get_movement_vector(&self) -> (movement: Point)
        ensures
            movement == self.tentacles.movement_vector,
    {
        self.tentacles.movement_vector
    }

    /// One tick. The squid sparkles even while it is dark. A dead one keeps still.
    pub fn mob_tick(&mut self, dead: bool, step: &StrokeStep, effects: &mut Vec<Effect>)
        ensures
            dead ==> *final(self) == *old(self) && final(effects)@ == old(effects)@,
            !dead ==> exists|draw: int|
                0 <= draw < 10 && *final(self) == (GlowSquidEntity {
                    dark_ticks_remaining: counted_down(old(self).dark_ticks_remaining),
                    tentacles: #[trigger] stroked(old(self).tentacles, *step, draw),
                    ..*old(self)
                }),
            !dead ==> final(effects)@ == old(effects)@ + glow_effects(
                old(self).dark_ticks_remaining,
            ),
    {
        if dead {
            return ;
        }
        self.tentacles.tick(step);
        let remaining: i32 = self.dark_ticks_remaining;
        self.dark_ticks_remaining = count_down(remaining);
        if remaining > 0 {
            self.send_dark_ticks(remaining - 1, effects);
        }
        effects.push(Effect::Sparkle(Particle::Glow));
    }

    /// Goes dark and sprays ink at an attacker. Damage that nobody did is taken quietly.
    pub fn on_damage(&mut self, has_source: bool, effects: &mut Vec<Effect>)
        ensures
            *final(self) == (GlowSquidEntity {
                dark_ticks_remaining: if has_source {
                    DARK_TICKS_ON_HURT
                } else {
                    old(self).dark_ticks_remaining
                },
                ..*old(self)
            }),
            final(effects)@ == old(effects)@ + (if has_source {
                seq![
                    dark_sync(DARK_TICKS_ON_HURT),
                    Effect::SprayInk(Particle::GlowSquidInk),
                    Effect::Play(Sound::GlowSquidSquirt),
                ]
            } else {
                seq![]
            }),
    {
        if !has_source {
            return ;
        }
        self.dark_ticks_remaining = DARK_TICKS_ON_HURT;
        self.send_dark_ticks(DARK_TICKS_ON_HURT, effects);
        effects.push(Effect::SprayInk(Particle::GlowSquidInk));
        effects.push(Effect::Play(Sound::GlowSquidSquirt));
    }

    /// Saves the glow squid.
    pub fn write_nbt(&self, nbt: &mut NbtCompound)
        ensures
            final(nbt)@ == glow_squid_saved(old(nbt)@, *self),
    {
        nbt.put_int("DarkTicksRemaining", self.dark_ticks_remaining);
    }

    /// Restores the glow squid.
    pub fn read_nbt(&mut self, nbt: &NbtCompound)
        ensures
            *final(self) == glow_squid_restored(*old(self), nbt@),
    {
        self.dark_ticks_remaining = nbt.get_int("DarkTicksRemaining").unwrap_or(0);
    }
}

/// What is saved of a glow squid.
pub open spec fn glow_squid_saved(nbt: Map<Seq<char>, NbtValue>, squid: GlowSquidEntity) -> Map<
    Seq<char>,
    NbtValue,
> {
    nbt.insert("DarkTicksRemaining"@, NbtValue::Int(squid.dark_ticks_remaining))
}

/// A glow squid with its saved state restored.
pub open spec fn glow_squid_restored(
    squid: GlowSquidEntity,
    nbt: Map<Seq<char>, NbtValue>,
) -> GlowSquidEntity {
    GlowSquidEntity {
        dark_ticks_remaining: match int_at(nbt, "DarkTicksRemaining"@) {
            Some(ticks) => ticks,
            None => 0,
        },
        ..squid
    }
}

/// Restoring a saved glow squid gives back how long it stays dark.
pub proof fn law_glow_squid_round_trip(
    nbt: Map<Seq<char>, NbtValue>,
    squid: GlowSquidEntity,
    other: GlowSquidEntity,
)
    ensures
        glow_squid_restored(other, glow_squid_saved(nbt, squid)).dark_ticks_remaining
            == squid.dark_ticks_remaining,
{
}

/// The dark of a glow squid after some ticks.
pub open spec fn dark_after(dark_ticks: i32, ticks: nat) -> i32
    decreases ticks,
{
    if ticks == 0 {
        dark_ticks
    } else {
        counted_down(dark_after(dark_ticks, (ticks - 1) as nat))
    }
}

/// A hurt glow squid glows again after its time, and not before.
pub proof fn law_glow_comes_back(ticks: nat)
    requires
        ticks <= DARK_TICKS_ON_HURT,
    ensures
        dark_after(DARK_TICKS_ON_HURT, ticks) == DARK_TICKS_ON_HURT - ticks,
    decreases ticks,
{
    if ticks > 0 {
        law_glow_comes_back((ticks - 1) as nat);
    }
}

/// A glow squid sparkles in every tick, and its darkness gets shorter by one until it is over.
pub proof fn law_glow_squids_sparkle(dark_ticks: i32, left: i32)
    ensures
        glow_effects(dark_ticks).contains(Effect::Sparkle(Particle::Glow)),
        glow_effects(dark_ticks).contains(Effect::Sync(SyncedValue::GlowSquidDarkTicks(left))) <==> (
        dark_ticks > 0 && left == dark_ticks - 1),
{
    broadcast use group_effects;

    if dark_ticks > 0 {
        assert(glow_effects(dark_ticks)[0] == dark_sync((dark_ticks - 1) as i32));
        assert(glow_effects(dark_ticks)[1] == Effect::Sparkle(Particle::Glow));
    }
}

} // verus!
