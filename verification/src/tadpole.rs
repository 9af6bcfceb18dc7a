//! Tadpoles, which become frogs.

use vstd::prelude::*;

use crate::effect::{Effect, Sound, SyncedValue};
use crate::fish::{goals_alone, lone_fish_goals};
use crate::goal::{EntityKind, GoalEntry};
use crate::mob::MobEntity;
use crate::nbt::{bool_at, bool_value, int_at, NbtCompound, NbtValue};
use crate::ticks::{count_up, counted_up};

verus! {

/// How long a tadpole takes to become a frog.
pub const TICKS_TO_BE_FROG: i32 = 24000;

/// A tadpole.
pub struct TadpoleEntity {
    pub mob_entity: MobEntity,
    /// Ticks since the tadpole hatched.
    pub age: i32,
    /// Whether the tadpole does not grow.
    pub age_locked: bool,
}

/// Whether a tadpole grows in a tick.
pub open spec fn tadpole_grows(tadpole: TadpoleEntity, alive: bool) -> bool {
    alive && !tadpole.age_locked
}

/// A tadpole after one tick.
pub open spec fn tadpole_ticked(tadpole: TadpoleEntity, alive: bool) -> TadpoleEntity {
    if tadpole_grows(tadpole, alive) {
        TadpoleEntity { age: counted_up(tadpole.age), ..tadpole }
    } else {
        tadpole
    }
}

/// What one tick of a tadpole asks of the host.
pub open spec fn tadpole_effects(tadpole: TadpoleEntity, alive: bool) -> Seq<Effect> {
    if tadpole_grows(tadpole, alive) && counted_up(tadpole.age) >= TICKS_TO_BE_FROG {
        seq![Effect::Play(Sound::TadpoleGrowUp), Effect::ConvertTo(EntityKind::Frog)]
    } else {
        seq![]
    }
}

impl TadpoleEntity {
    /// A tadpole that has just hatched.
    pub fn new(age: i32) -> (tadpole: Self)
        ensures
            tadpole.mob_entity.fresh(age),
            tadpole.mob_entity.goals@ == lone_fish_goals(),
            tadpole.mob_entity.targets@ == Seq::<GoalEntry>::empty(),
            tadpole.age == 0,
            !tadpole.age_locked,
    {
        TadpoleEntity {
            mob_entity: MobEntity::with_goals(age, goals_alone(), Vec::new()),
            age: 0,
            age_locked: false,
        }
    }

    pub fn is_age_locked(&self) -> (locked: bool)
        ensures
            locked == self.age_locked,
    {
        self.age_locked
    }

    /// Becomes a frog.
    pub fn grow_into_frog(&self, effects: &mut Vec<Effect>)
        ensures
            final(effects)@ == old(effects)@ + seq![
                Effect::Play(Sound::TadpoleGrowUp),
                Effect::ConvertTo(EntityKind::Frog),
            ],
    {
        effects.push(Effect::Play(Sound::TadpoleGrowUp));
        effects.push(Effect::ConvertTo(EntityKind::Frog));
    }

    /// One tick: the tadpole grows, and becomes a frog in time.
    pub fn mob_tick(&mut self, alive: bool, effects: &mut Vec<Effect>)
        ensures
            *final(self) == tadpole_ticked(*old(self), alive),
            final(effects)@ == old(effects)@ + tadpole_effects(*old(self), alive),
    {
        if !alive || self.is_age_locked() {
            return ;
        }
        self.age = count_up(self.age);
        if self.age >= TICKS_TO_BE_FROG {
            self.grow_into_frog(effects);
        }
    }

    /// Tells clients about the tadpole when they first see it.
    pub fn mob_init_data_tracker(&self, effects: &mut Vec<Effect>)
        ensures
            final(effects)@ == old(effects)@.push(
                Effect::Sync(SyncedValue::TadpoleAgeLocked(self.age_locked)),
            ),
    {
        effects.push(Effect::Sync(SyncedValue::TadpoleAgeLocked(self.age_locked)));
    }

    /// Saves the tadpole.
    pub fn write_nbt(&self, nbt: &mut NbtCompound)
        ensures
            final(nbt)@ == tadpole_saved(old(nbt)@, *self),
    {
        nbt.put_int("Age", self.age);
        nbt.put_bool("AgeLocked", self.age_locked);
    }

    /// Restores the tadpole.
    pub fn read_nbt(&mut self, nbt: &NbtCompound)
        ensures
            *final(self) == tadpole_restored(*old(self), nbt@),
    {
        self.age = nbt.get_int("Age").unwrap_or(0);
        self.age_locked = nbt.get_bool("AgeLocked").unwrap_or(false);
    }
}

/// What is saved of a tadpole.
pub open spec fn tadpole_saved(nbt: Map<Seq<char>, NbtValue>, tadpole: TadpoleEntity) -> Map<
    Seq<char>,
    NbtValue,
> {
    nbt.insert("Age"@, NbtValue::Int(tadpole.age)).insert(
        "AgeLocked"@,
        bool_value(tadpole.age_locked),
    )
}

/// A tadpole with its saved state restored.
pub open spec fn tadpole_restored(
    tadpole: TadpoleEntity,
    nbt: Map<Seq<char>, NbtValue>,
) -> TadpoleEntity {
    TadpoleEntity {
        age: match int_at(nbt, "Age"@) {
            Some(age) => age,
            None => 0,
        },
        age_locked: bool_at(nbt, "AgeLocked"@) == Some(true),
        ..tadpole
    }
}

/// Restoring a saved tadpole gives back its age and whether it grows.
pub proof fn law_tadpole_round_trip(
    nbt: Map<Seq<char>, NbtValue>,
    tadpole: TadpoleEntity,
    other: TadpoleEntity,
)
    ensures
        ({
            let back = tadpole_restored(other, tadpole_saved(nbt, tadpole));
            &&& back.age == tadpole.age
            &&& back.age_locked == tadpole.age_locked
        }),
{
    reveal_strlit("Age");
    reveal_strlit("AgeLocked");
    assert("Age"@.len() == 3 && "AgeLocked"@.len() == 9);
}

/// A tadpole after some ticks of life.
pub open spec fn tadpole_after(tadpole: TadpoleEntity, ticks: nat) -> TadpoleEntity
    decreases ticks,
{
    if ticks == 0 {
        tadpole
    } else {
        tadpole_ticked(tadpole_after(tadpole, (ticks - 1) as nat), true)
    }
}

/// A tadpole that has just hatched becomes a frog in the tick in which its time is over, and in
/// none before that; one that does not grow never does.
pub proof fn law_tadpole_becomes_a_frog(tadpole: TadpoleEntity, ticks: nat)
    requires
        tadpole.age == 0,
        ticks < TICKS_TO_BE_FROG,
    ensures
        tadpole_after(tadpole, ticks).age_locked == tadpole.age_locked,
        tadpole.age_locked ==> tadpole_effects(tadpole_after(tadpole, ticks), true) == Seq::<
            Effect,
        >::empty(),
        !tadpole.age_locked ==> {
            &&& tadpole_after(tadpole, ticks).age == ticks
            &&& (tadpole_effects(tadpole_after(tadpole, ticks), true).len() > 0) == (ticks + 1
                == TICKS_TO_BE_FROG)
        },
    decreases ticks,
{
    if ticks > 0 {
        law_tadpole_becomes_a_frog(tadpole, (ticks - 1) as nat);
    }
}

/// A living tadpole grows by a tick at a time unless its age is locked.
pub proof fn law_tadpole_grows(tadpole: TadpoleEntity, alive: bool)
    requires
        tadpole.age < i32::MAX,
    ensures
        alive && !tadpole.age_locked ==> tadpole_ticked(tadpole, alive).age == tadpole.age + 1,
        !alive || tadpole.age_locked ==> tadpole_ticked(tadpole, alive) == tadpole,
        tadpole_ticked(tadpole, alive).age_locked == tadpole.age_locked,
        tadpole_ticked(tadpole, alive).mob_entity == tadpole.mob_entity,
{
}

/// A tadpole turns into a frog, heard, with the tick that makes it twenty-four thousand ticks old.
pub proof fn law_tadpole_turns(tadpole: TadpoleEntity, alive: bool)
    requires
        tadpole.age < i32::MAX,
    ensures
        tadpole_effects(tadpole, alive).len() == 2 <==> alive && !tadpole.age_locked && tadpole.age
            >= 23999,
        tadpole_effects(tadpole, alive).len() == 0 <==> !alive || tadpole.age_locked || tadpole.age
            < 23999,
        alive && !tadpole.age_locked && tadpole.age >= 23999 ==> tadpole_effects(tadpole, alive)[0]
            == Effect::Play(Sound::TadpoleGrowUp) && tadpole_effects(tadpole, alive)[1]
            == Effect::ConvertTo(EntityKind::Frog),
{
}

/// A tadpole of which nothing was saved is newly hatched and free to grow.
pub proof fn law_unsaved_tadpole_is_new(tadpole: TadpoleEntity, nbt: Map<Seq<char>, NbtValue>)
    ensures
        int_at(nbt, "Age"@) is None ==> tadpole_restored(tadpole, nbt).age == 0,
        bool_at(nbt, "AgeLocked"@) is None ==> !tadpole_restored(tadpole, nbt).age_locked,
        tadpole_restored(tadpole, nbt).mob_entity == tadpole.mob_entity,
{
}

} // verus!
