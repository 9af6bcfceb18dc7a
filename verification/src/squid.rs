//! Squids, which swim by moving their tentacles.

use vstd::prelude::*;

use crate::double::{is_at_least, is_less, is_number, less};
use crate::effect::{Effect, Particle, Sound};
use crate::goal::{entry, goal, Goal, GoalEntry};
use crate::mob::MobEntity;
use crate::position::Point;
use crate::random::roll;

verus! {

/// What a squid pursues.
pub open spec fn squid_goals() -> Seq<GoalEntry> {
    seq![entry(0, Goal::SquidRandomMovement), entry(1, Goal::SquidFlee)]
}

/// What a squid pursues.
pub fn goals_of_squids() -> (goals: Vec<GoalEntry>)
    ensures
        goals@ == squid_goals(),
{
    vec![goal(0, Goal::SquidRandomMovement), goal(1, Goal::SquidFlee)]
}

/// Half a circle, in radians, by its bits.
pub const HALF_CIRCLE: u64 = 0x4009_21FB_5444_2D18;

/// A full circle, in radians, by its bits.
pub const FULL_CIRCLE: u64 = 0x4019_21FB_5444_2D18;

/// The part of a half circle after which a stroke pushes, three quarters, by its bits.
pub const PUSH_FROM: u64 = 0x3FE8_0000_0000_0000;

/// The square of the speed up to which a squid is at rest, a hundred-thousandth, by its bits.
pub const REST_LIMIT: u64 = 0x3EE4_F8B5_88E3_68F1;

/// How a squid moves its tentacles, and where to, by the bits of floating-point numbers.
#[derive(Clone, Copy, PartialEq, Eq, Structural, Debug)]
pub struct Tentacles {
    pub movement_vector: Point,
    /// How far a stroke has come.
    pub tentacle_movement: u64,
    /// By how much a stroke goes on in a tick.
    pub tentacle_speed: u64,
}

/// The numbers that a stroke can come to in a tick, by their bits.
#[derive(Clone, Copy)]
pub struct StrokeStep {
    /// How far the stroke has come, and its speed on top.
    pub advanced: u64,
    /// The same less a full circle.
    pub wrapped: u64,
    /// A speed that was drawn.
    pub pace: u64,
}

/// What a stroke does to a squid.
#[derive(Clone, Copy, PartialEq, Eq, Structural, Debug)]
pub enum Stroke {
    /// It pushes the squid to where it wants to go.
    Push,
    /// The squid goes on as before.
    Glide,
    /// The squid slows down by a tenth.
    Slow,
    /// Out of the water, the squid falls.
    Sink,
}

/// Tentacles at rest, with a speed.
pub open spec fn resting(pace: u64) -> Tentacles {
    Tentacles {
        movement_vector: Point { x: 0, y: 0, z: 0 },
        tentacle_movement: 0,
        tentacle_speed: pace,
    }
}

/// Tentacles after a tick, for a draw among ten: at times when they have come full circle, they
/// change their speed.
pub open spec fn stroked(tentacles: Tentacles, step: StrokeStep, draw: int) -> Tentacles {
    if less(FULL_CIRCLE, step.advanced) {
        Tentacles {
            tentacle_movement: step.wrapped,
            tentacle_speed: if draw == 0 {
                step.pace
            } else {
                tentacles.tentacle_speed
            },
            ..tentacles
        }
    } else {
        Tentacles { tentacle_movement: step.advanced, ..tentacles }
    }
}

/// What a stroke does, for how far it has come, and which part of a half circle that is.
pub open spec fn stroke_at(in_water: bool, phase: u64, part: u64) -> Stroke {
    if !in_water {
        Stroke::Sink
    } else if !less(phase, HALF_CIRCLE) {
        Stroke::Slow
    } else if less(PUSH_FROM, part) {
        Stroke::Push
    } else {
        Stroke::Glide
    }
}

impl Tentacles {
    /// Tentacles at rest, with a speed.
    pub fn new(pace: u64) -> (tentacles: Self)
        ensures
            tentacles == resting(pace),
    {
        Tentacles {
            movement_vector: Point { x: 0, y: 0, z: 0 },
            tentacle_movement: 0,
            tentacle_speed: pace,
        }
    }

    /// One tick, for a draw among ten.
    pub fn tick_with_draw(&mut self, step: &StrokeStep, draw: i32)
        ensures
            *final(self) == stroked(*old(self), *step, draw as int),
    {
        if is_less(FULL_CIRCLE, step.advanced) {
            self.tentacle_movement = step.wrapped;
            if draw == 0 {
                self.tentacle_speed = step.pace;
            }
        } else {
            self.tentacle_movement = step.advanced;
        }
    }

    /// One tick.
    pub fn tick(&mut self, step: &StrokeStep)
        ensures
            exists|draw: int|
                0 <= draw < 10 && *final(self) == #[trigger] stroked(*old(self), *step, draw),
    {
        let draw: i32 = roll(0, 10);
        self.tick_with_draw(step, draw);
    }

    /// What the stroke does. `part` is the part of a half circle that it has come.
    pub fn stroke(&self, in_water: bool, part: u64) -> (stroke: Stroke)
        ensures
            stroke == stroke_at(in_water, self.tentacle_movement, part),
    {
        if !in_water {
            Stroke::Sink
        } else if is_less(self.tentacle_movement, HALF_CIRCLE) {
            if is_less(PUSH_FROM, part) {
                Stroke::Push
            } else {
                Stroke::Glide
            }
        } else {
            Stroke::Slow
        }
    }
}

/// A squid.
pub struct SquidEntity {
    pub mob_entity: MobEntity,
    pub tentacles: Tentacles,
}

impl SquidEntity {
    /// A new squid, with the speed of its tentacles.
    pub fn new(age: i32, pace: u64) -> (squid: Self)
        ensures
            squid.mob_entity.fresh(age),
            squid.mob_entity.goals@ == squid_goals(),
            squid.mob_entity.targets@ == Seq::<GoalEntry>::empty(),
            squid.tentacles == resting(pace),
    {
        SquidEntity {
            mob_entity: MobEntity::with_goals(age, goals_of_squids(), Vec::new()),
            tentacles: Tentacles::new(pace),
        }
    }

    pub fn set_movement_vector(&mut self, movement: Point)
        ensures
            *final(self) == (SquidEntity {
                tentacles: Tentacles { movement_vector: movement, ..old(self).tentacles },
                ..*old(self)
            }),
    {
        self.tentacles.movement_vector = movement;
    }

    pub fn movement_vector(&self) -> (movement: Point)
        ensures
            movement == self.tentacles.movement_vector,
    {
        self.tentacles.movement_vector
    }

    /// One tick. A dead squid keeps still.
    pub fn mob_tick(&mut self, dead: bool, step: &StrokeStep)
        ensures
            dead ==> *final(self) == *old(self),
            !dead ==> exists|draw: int|
                0 <= draw < 10 && *final(self) == (SquidEntity {
                    tentacles: #[trigger] stroked(old(self).tentacles, *step, draw),
                    ..*old(self)
                }),
    {
        if dead {
            return ;
        }
        self.tentacles.tick(step);
    }

    pub fn ink_particle(&self) -> (particle: Particle)
        ensures
            particle == Particle::SquidInk,
    {
        Particle::SquidInk
    }

    pub fn squirt_sound(&self) -> (sound: Sound)
        ensures
            sound == Sound::SquidSquirt,
    {
        Sound::SquidSquirt
    }

    /// Sprays ink at an attacker. Damage that nobody did is taken quietly.
    pub fn on_damage(&self, has_source: bool, effects: &mut Vec<Effect>)
        ensures
            final(effects)@ == old(effects)@ + (if has_source {
                seq![Effect::SprayInk(Particle::SquidInk), Effect::Play(Sound::SquidSquirt)]
            } else {
                seq![]
            }),
    {
        if !has_source {
            return ;
        }
        effects.push(Effect::SprayInk(self.ink_particle()));
        effects.push(Effect::Play(self.squirt_sound()));
    }
}

/// The goal of swimming about.
pub struct SquidRandomMovementGoal;

/// Whether a squid is at rest that has a speed with this square.
pub open spec fn at_rest(speed_squared: u64) -> bool {
    is_number(speed_squared) && !less(REST_LIMIT, speed_squared)
}

/// Whether a squid that swims about takes a new direction, for a draw among fifty.
pub open spec fn turns(can_swim: bool, speed_squared: u64, draw: int) -> bool {
    can_swim && (draw == 0 || at_rest(speed_squared))
}

impl SquidRandomMovementGoal {
    /// Whether the goal can be pursued. It always can.
    pub fn can_start(&self) -> (can: bool)
        ensures
            can,
    {
        true
    }

    pub fn should_run_every_tick(&self) -> (every: bool)
        ensures
            every,
    {
        true
    }

    /// Whether the mob takes a new direction in a tick, for a draw among fifty. `can_swim` says
    /// whether it swims as squids do; the square of the speed to which it wants to push is given
    /// by its bits.
    pub fn tick_with_draw(&self, can_swim: bool, speed_squared: u64, draw: i32) -> (takes: bool)
        ensures
            takes == turns(can_swim, speed_squared, draw as int),
    {
        if !can_swim {
            return false;
        }
        draw == 0 || is_at_least(REST_LIMIT, speed_squared)
    }

    /// Whether the mob takes a new direction in a tick.
    pub fn tick(&self, can_swim: bool, speed_squared: u64) -> (takes: bool)
        ensures
            exists|draw: int|
                0 <= draw < 50 && takes == #[trigger] turns(can_swim, speed_squared, draw),
    {
        let draw: i32 = roll(0, 50);
        self.tick_with_draw(can_swim, speed_squared, draw)
    }
}

/// A new squid in the water sets off at once, whatever is drawn.
pub proof fn law_resting_squid_sets_off(draw: int)
    ensures
        turns(true, 0, draw),
        !turns(false, 0, draw),
{
}

/// A squid's stroke wraps round past a full circle, and only then may its pace change; until then
/// it goes on as it was.
pub proof fn law_stroke_wraps_round(tentacles: Tentacles, step: StrokeStep, draw: int)
    ensures
        less(0x4019_21FB_5444_2D18, step.advanced) ==> stroked(tentacles, step, draw).tentacle_movement
            == step.wrapped,
        !less(0x4019_21FB_5444_2D18, step.advanced) ==> stroked(
            tentacles,
            step,
            draw,
        ).tentacle_movement == step.advanced,
        stroked(tentacles, step, draw).tentacle_speed != tentacles.tentacle_speed ==> draw == 0
            && less(0x4019_21FB_5444_2D18, step.advanced),
        draw == 0 && less(0x4019_21FB_5444_2D18, step.advanced) ==> stroked(
            tentacles,
            step,
            draw,
        ).tentacle_speed == step.pace,
        stroked(tentacles, step, draw).movement_vector == tentacles.movement_vector,
{
}

/// A squid out of the water sinks; in it, it pushes late in the first half circle, glides early in
/// it and slows down in the second.
pub proof fn law_strokes_by_place_and_phase(in_water: bool, phase: u64, part: u64)
    ensures
        stroke_at(in_water, phase, part) is Sink <==> !in_water,
        stroke_at(in_water, phase, part) is Slow <==> in_water && !less(
            phase,
            0x4009_21FB_5444_2D18,
        ),
        stroke_at(in_water, phase, part) is Push <==> in_water && less(phase, 0x4009_21FB_5444_2D18)
            && less(0x3FE8_0000_0000_0000, part),
        stroke_at(in_water, phase, part) is Glide <==> in_water && less(
            phase,
            0x4009_21FB_5444_2D18,
        ) && !less(0x3FE8_0000_0000_0000, part),
{
}

/// A squid that can swim takes a new direction by draw or because it hardly moves; one that cannot
/// never does.
pub proof fn law_when_squids_turn(can_swim: bool, speed_squared: u64, draw: int)
    ensures
        !can_swim ==> !turns(can_swim, speed_squared, draw),
        can_swim && draw == 0 ==> turns(can_swim, speed_squared, draw),
        can_swim && draw != 0 ==> (turns(can_swim, speed_squared, draw) <==> is_number(speed_squared)
            && !less(0x3EE4_F8B5_88E3_68F1, speed_squared)),
{
}

/// A squid sets out at rest, at the pace it is given.
pub proof fn law_squids_start_at_rest(pace: u64)
    ensures
        resting(pace).tentacle_speed == pace,
        resting(pace).tentacle_movement == 0,
        resting(pace).movement_vector == (Point { x: 0, y: 0, z: 0 }),
{
}

/// What squids pursue, and how urgently: this and nothing else.
pub proof fn law_what_squids_pursue(e: GoalEntry)
    ensures
        squid_goals().contains(e) <==> {
            ||| e.priority == 0 && e.goal == Goal::SquidRandomMovement
            ||| e.priority == 1 && e.goal == Goal::SquidFlee
        },
        squid_goals().len() == 2,
{
    let all = squid_goals();
    assert(all[0] == (GoalEntry { priority: 0, goal: Goal::SquidRandomMovement }));
    assert(all[1] == (GoalEntry { priority: 1, goal: Goal::SquidFlee }));
}

} // verus!
