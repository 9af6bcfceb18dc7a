//! Chickens, which lay eggs.

use vstd::prelude::*;

use crate::animal::{
    animal_interact, animal_restored, animal_saved, falls_in_love, fed, feeding_effects, grows,
    meal_outcome, read_animal_nbt, stack_after_meal, write_animal_nbt, Feeding,
};
use crate::climate::{
    climate_name, full_name, lemma_climate_names, select_spawn_variant, settled_coat, COLD,
    TEMPERATE, VARIANT_UNSET, WARM,
};
use crate::effect::{group_effects, Effect, Interaction, Sound, SyncedValue};
use crate::goal::{entry, goal, look_at_player, watch_player, EntityKind, Goal, GoalEntry};
use crate::item::{diet_items, Diet, Item, ItemStack, Player};
use crate::mob::{Dimensions, MobEntity};
use crate::nbt::{int_at, text_at, NbtCompound, NbtValue};
use crate::random::{chance, roll};
use crate::text::{local_name, same_text, strip_namespace};

verus! {

/// How soon a chicken lays an egg at the earliest, and how late at the latest.
pub const EGG_TIME_MIN: i32 = 6000;

pub const EGG_TIME_MAX: i32 = 12000;

/// The coat of a name, with or without the default namespace. What is none is temperate.
pub open spec fn chicken_of_name(name: Seq<char>) -> u8 {
    let local = local_name(name);
    if local == "cold"@ {
        COLD
    } else if local == "warm"@ {
        WARM
    } else {
        TEMPERATE
    }
}

/// The coat of a name, with or without the default namespace.
pub fn variant_from_name(name: &str) -> (variant: u8)
    ensures
        variant == chicken_of_name(name@),
{
    let local = strip_namespace(name);
    if same_text(local, "cold") {
        COLD
    } else if same_text(local, "warm") {
        WARM
    } else {
        TEMPERATE
    }
}

/// The name of a coat leads back to it.
pub proof fn law_chicken_name_round_trip(id: u8)
    requires
        id <= WARM,
    ensures
        chicken_of_name(climate_name(id)) == id,
{
    lemma_climate_names();
}

/// What a chicken pursues.
pub open spec fn chicken_goals() -> Seq<GoalEntry> {
    seq![
        entry(0, Goal::Swim),
        entry(1, Goal::EscapeDanger { speed: 1400 }),
        entry(2, Goal::Breed { speed: 1000 }),
        entry(3, Goal::Tempt { speed: 1000, items: Diet::Chicken, scared: false }),
        entry(4, Goal::FollowParent { speed: 1100 }),
        entry(5, Goal::Wander { speed: 1000 }),
        entry(6, look_at_player(6000)),
        entry(7, Goal::LookAround),
    ]
}

/// A chicken.
pub struct ChickenEntity {
    pub mob_entity: MobEntity,
    pub variant: u8,
    /// Ticks until the next egg.
    pub egg_lay_time: i32,
}

/// A coat that exists: whatever is neither cold nor warm is temperate.
pub open spec fn normal_coat(variant: u8) -> u8 {
    if variant == COLD {
        COLD
    } else if variant == WARM {
        WARM
    } else {
        TEMPERATE
    }
}

/// A coat that exists.
pub fn normalized(variant: u8) -> (normal: u8)
    ensures
        normal == normal_coat(variant),
{
    match variant {
        COLD => COLD,
        WARM => WARM,
        _ => TEMPERATE,
    }
}

/// The message that tells clients about the coat of a chicken.
pub open spec fn chicken_sync(variant: u8) -> Effect {
    Effect::Sync(SyncedValue::ChickenVariant(variant as i32))
}

/// The time to the next egg after one tick, where `next` is the time to the egg after it.
pub open spec fn egg_ticked(time: i32, next: i32) -> i32 {
    if time <= 1 {
        next
    } else {
        (time - 1) as i32
    }
}

/// A chicken after one tick.
pub open spec fn chicken_ticked(chicken: ChickenEntity, dead: bool, next: i32) -> ChickenEntity {
    if dead {
        chicken
    } else {
        ChickenEntity { egg_lay_time: egg_ticked(chicken.egg_lay_time, next), ..chicken }
    }
}

/// What one tick of a chicken asks of the host.
pub open spec fn chicken_effects(time: i32, falls: bool) -> Seq<Effect> {
    (if falls {
        seq![Effect::GlideDown]
    } else {
        seq![]
    }) + (if time <= 1 {
        seq![Effect::Lay((ItemStack { item: Item::Egg, count: 1 }))]
    } else {
        seq![]
    })
}

/// The coat of a chick, after one of its parents; with one parent alone it keeps its own.
pub open spec fn chick_coat(own: u8, first: u8, mate: Option<u8>, from_first: bool) -> u8 {
    match mate {
        Some(second) => if from_first {
            normal_coat(first)
        } else {
            normal_coat(second)
        },
        None => own,
    }
}

impl ChickenEntity {
    /// A chicken that lays an egg at a time, and whose coat is not known yet.
    pub fn with_egg_time(age: i32, egg_lay_time: i32) -> (chicken: Self)
        ensures
            chicken.mob_entity.fresh(age),
            chicken.mob_entity.goals@ == chicken_goals(),
            chicken.mob_entity.targets@ == Seq::<GoalEntry>::empty(),
            chicken.variant == VARIANT_UNSET,
            chicken.egg_lay_time == egg_lay_time,
    {
        let goals = vec![
            goal(0, Goal::Swim),
            goal(1, Goal::EscapeDanger { speed: 1400 }),
            goal(2, Goal::Breed { speed: 1000 }),
            goal(3, Goal::Tempt { speed: 1000, items: Diet::Chicken, scared: false }),
            goal(4, Goal::FollowParent { speed: 1100 }),
            goal(5, Goal::Wander { speed: 1000 }),
            goal(6, watch_player(6000)),
            goal(7, Goal::LookAround),
        ];
        ChickenEntity {
            mob_entity: MobEntity::with_goals(age, goals, Vec::new()),
            variant: VARIANT_UNSET,
            egg_lay_time,
        }
    }

    /// A new chicken, the time of whose first egg is drawn.
    pub fn new(age: i32) -> (chicken: Self)
        ensures
            chicken.mob_entity.fresh(age),
            chicken.mob_entity.goals@ == chicken_goals(),
            chicken.mob_entity.targets@ == Seq::<GoalEntry>::empty(),
            chicken.variant == VARIANT_UNSET,
            EGG_TIME_MIN <= chicken.egg_lay_time < EGG_TIME_MAX,
    {
        let egg_lay_time: i32 = roll(EGG_TIME_MIN, EGG_TIME_MAX);
        Self::with_egg_time(age, egg_lay_time)
    }

    /// One tick, where `next` is the time to the egg after the next. A chicken that falls
    /// glides.
    pub fn tick_with_draw(
        &mut self,
        dead: bool,
        falls: bool,
        next: i32,
        effects: &mut Vec<Effect>,
    )
        ensures
            *final(self) == chicken_ticked(*old(self), dead, next),
            final(effects)@ == old(effects)@ + (if dead {
                seq![]
            } else {
                chicken_effects(old(self).egg_lay_time, falls)
            }),
    {
        if dead {
            return ;
        }
        if falls {
            effects.push(Effect::GlideDown);
        }
        if self.egg_lay_time <= 1 {
            effects.push(Effect::Lay(ItemStack::new(1, Item::Egg)));
            self.egg_lay_time = next;
        } else {
            self.egg_lay_time = self.egg_lay_time - 1;
        }
    }

    /// One tick.
    pub fn mob_tick(&mut self, dead: bool, falls: bool, effects: &mut Vec<Effect>)
        ensures
            exists|next: i32|
                EGG_TIME_MIN <= next < EGG_TIME_MAX && *final(self) == #[trigger] chicken_ticked(
                    *old(self),
                    dead,
                    next,
                ),
            final(effects)@ == old(effects)@ + (if dead {
                seq![]
            } else {
                chicken_effects(old(self).egg_lay_time, falls)
            }),
    {
        let next: i32 = roll(EGG_TIME_MIN, EGG_TIME_MAX);
        self.tick_with_draw(dead, falls, next, effects);
    }

    /// The size of a baby.
    pub fn baby_dimensions(&self) -> (size: Dimensions)
        ensures
            size == (Dimensions { width: 30000, height: 40000, eye_height: 28125 }),
    {
        Dimensions { width: 30000, height: 40000, eye_height: 28125 }
    }

    /// Gives the chicken the coat of a name.
    pub fn mob_set_variant_name(&mut self, name: &str)
        ensures
            *final(self) == (ChickenEntity { variant: chicken_of_name(name@), ..*old(self) }),
    {
        self.variant = variant_from_name(name);
    }

    /// Whether an item is food for the chicken: seeds, and what is tagged as such.
    pub fn is_food(&self, stack: &ItemStack, tagged_food: bool) -> (food: bool)
        ensures
            food == (tagged_food || diet_items(Diet::Chicken).contains(stack.item)),
    {
        tagged_food || Diet::Chicken.contains(stack.item)
    }

    /// Lets a player use an item on the chicken.
    pub fn mob_interact(
        &mut self,
        tagged_food: bool,
        breeding_ready: bool,
        player: &Player,
        stack: &mut ItemStack,
        effects: &mut Vec<Effect>,
    ) -> (outcome: Interaction)
        requires
            grows(
                old(self).mob_entity,
                chicken_feeding(
                    tagged_food || diet_items(Diet::Chicken).contains(old(stack).item),
                    breeding_ready,
                ),
            ) ==> old(self).mob_entity.age > i32::MIN,
        ensures
            ({
                let mob = old(self).mob_entity;
                let feeding = chicken_feeding(
                    tagged_food || diet_items(Diet::Chicken).contains(old(stack).item),
                    breeding_ready,
                );
                &&& outcome == meal_outcome(mob, feeding)
                &&& *final(self) == (ChickenEntity {
                    mob_entity: fed(mob, feeding, *player),
                    ..*old(self)
                })
                &&& *final(stack) == stack_after_meal(
                    mob,
                    feeding,
                    *old(stack),
                    player.gamemode,
                )
                &&& final(effects)@ == old(effects)@ + feeding_effects(mob, feeding)
            }),
    {
        let feeding = Feeding {
            food: self.is_food(stack, tagged_food),
            breeding_ready,
            can_age_up: true,
            sound: Sound::ChickenAmbient,
        };
        animal_interact(&mut self.mob_entity, feeding, player, stack, effects)
    }

    /// Tells clients about the chicken when they first see it. A coat that is not known yet is that
    /// of the climate.
    pub fn mob_init_data_tracker(&mut self, warm: bool, cold: bool, effects: &mut Vec<Effect>)
        ensures
            ({
                let variant = settled_coat(old(self).variant, warm, cold);
                &&& *final(self) == (ChickenEntity { variant, ..*old(self) })
                &&& final(effects)@ == old(effects)@ + (if old(self).mob_entity.age < 0 {
                    seq![Effect::Sync(SyncedValue::Baby(true))]
                } else {
                    seq![]
                }) + seq![chicken_sync(variant)]
            }),
    {
        if self.variant == VARIANT_UNSET {
            self.variant = select_spawn_variant(warm, cold);
        }
        if self.mob_entity.is_baby() {
            effects.push(Effect::Sync(SyncedValue::Baby(true)));
        }
        effects.push(Effect::Sync(SyncedValue::ChickenVariant(self.variant as i32)));
    }

    /// Gives a chick the coat of one of two chickens.
    pub fn inherit(&mut self, first: &ChickenEntity, mate: Option<&ChickenEntity>, from_first: bool)
        ensures
            *final(self) == (ChickenEntity {
                variant: chick_coat(
                    old(self).variant,
                    first.variant,
                    match mate {
                        Some(second) => Some(second.variant),
                        None => None,
                    },
                    from_first,
                ),
                ..*old(self)
            }),
    {
        if let Some(second) = mate {
            self.variant = if from_first {
                normalized(first.variant)
            } else {
                normalized(second.variant)
            };
        }
    }

    /// Gives a chick the coat of one of its parents, if both are chickens.
    pub fn create_offspring(&mut self, first: &ChickenEntity, mate: Option<&ChickenEntity>)
        ensures
            *final(self) == (ChickenEntity { variant: final(self).variant, ..*old(self) }),
            match mate {
                Some(second) => final(self).variant == normal_coat(first.variant)
                    || final(self).variant == normal_coat(second.variant),
                None => final(self).variant == old(self).variant,
            },
    {
        let from_first: bool = chance(1, 2);
        self.inherit(first, mate, from_first);
    }

    /// Saves the chicken.
    pub fn write_nbt(&self, nbt: &mut NbtCompound)
        ensures
            final(nbt)@ == chicken_saved(old(nbt)@, *self),
    {
        write_animal_nbt(&self.mob_entity, nbt);
        nbt.put_int("EggLayTime", self.egg_lay_time);
        nbt.put_string("variant", full_name(self.variant));
    }

    /// Restores the chicken.
    pub fn read_nbt(&mut self, nbt: &NbtCompound)
        ensures
            *final(self) == chicken_restored(*old(self), nbt@),
    {
        read_animal_nbt(&mut self.mob_entity, nbt);
        self.egg_lay_time = nbt.get_int("EggLayTime").unwrap_or(6000);
        if let Some(name) = nbt.get_string("variant") {
            self.variant = variant_from_name(name);
        }
    }
}

/// How a chicken takes food.
pub open spec fn chicken_feeding(food: bool, breeding_ready: bool) -> Feeding {
    Feeding { food, breeding_ready, can_age_up: true, sound: Sound::ChickenAmbient }
}

/// What is saved of a chicken.
pub open spec fn chicken_saved(nbt: Map<Seq<char>, NbtValue>, chicken: ChickenEntity) -> Map<
    Seq<char>,
    NbtValue,
> {
    animal_saved(nbt, chicken.mob_entity).insert(
        "EggLayTime"@,
        NbtValue::Int(chicken.egg_lay_time),
    ).insert("variant"@, NbtValue::Text(climate_name(chicken.variant)))
}

/// A chicken with its saved state restored.
pub open spec fn chicken_restored(
    chicken: ChickenEntity,
    nbt: Map<Seq<char>, NbtValue>,
) -> ChickenEntity {
    ChickenEntity {
        mob_entity: animal_restored(chicken.mob_entity, nbt),
        variant: match text_at(nbt, "variant"@) {
            Some(name) => chicken_of_name(name),
            None => chicken.variant,
        },
        egg_lay_time: match int_at(nbt, "EggLayTime"@) {
            Some(time) => time,
            None => 6000,
        },
    }
}

/// Restoring a saved chicken gives back the time to its next egg and its coat; a coat that was
/// not known yet becomes temperate.
pub proof fn law_chicken_round_trip(
    nbt: Map<Seq<char>, NbtValue>,
    chicken: ChickenEntity,
    other: ChickenEntity,
)
    ensures
        ({
            let back = chicken_restored(other, chicken_saved(nbt, chicken));
            &&& back.variant == normal_coat(chicken.variant)
            &&& back.egg_lay_time == chicken.egg_lay_time
        }),
{
    reveal_strlit("EggLayTime");
    reveal_strlit("variant");
    assert("EggLayTime"@.len() == 10 && "variant"@.len() == 7);
    lemma_climate_names();
}

/// The time to the next egg of a chicken, after some ticks without one.
pub open spec fn egg_time_after(time: i32, ticks: nat) -> i32
    decreases ticks,
{
    if ticks == 0 {
        time
    } else {
        egg_ticked(egg_time_after(time, (ticks - 1) as nat), 0)
    }
}

/// A chicken lays its egg in the tick in which its time is over, and in none before that.
pub proof fn law_egg_comes_in_time(time: i32, ticks: nat)
    requires
        1 <= time,
        ticks < time,
    ensures
        egg_time_after(time, ticks) == time - ticks,
        egg_time_after(time, ticks) <= 1 <==> ticks + 1 == time,
    decreases ticks,
{
    if ticks > 0 {
        law_egg_comes_in_time(time, (ticks - 1) as nat);
    }
}

/// The time until the next egg gets shorter by one tick; when it is over an egg is laid and the
/// drawn time begins. A dead chicken lays nothing, and nothing else about a chicken changes.
pub proof fn law_how_chickens_lay(chicken: ChickenEntity, falls: bool, next: i32)
    ensures
        ({
            let after = chicken_ticked(chicken, false, next);
            let egg = Effect::Lay(ItemStack { item: Item::Egg, count: 1 });
            let effects = chicken_effects(chicken.egg_lay_time, falls);
            &&& chicken.egg_lay_time > 1 ==> after.egg_lay_time == chicken.egg_lay_time - 1
            &&& chicken.egg_lay_time <= 1 ==> after.egg_lay_time == next
            &&& effects.contains(egg) <==> chicken.egg_lay_time <= 1
            &&& effects.contains(Effect::GlideDown) <==> falls
            &&& after.variant == chicken.variant && after.mob_entity == chicken.mob_entity
            &&& chicken_ticked(chicken, true, next) == chicken
        }),
{
    broadcast use group_effects;

}

/// A coat without a name, and one that has not been chosen, is the temperate one.
pub proof fn law_coats_of_chickens(variant: u8, name: Seq<char>)
    ensures
        variant == 0 || variant == 2 ==> normal_coat(variant) == variant,
        variant != 0 && variant != 2 ==> normal_coat(variant) == 1,
        local_name(name) == "cold"@ ==> chicken_of_name(name) == 0,
        local_name(name) == "warm"@ ==> chicken_of_name(name) == 2,
        local_name(name) != "cold"@ && local_name(name) != "warm"@ ==> chicken_of_name(name) == 1,
{
    lemma_climate_names();
}

/// Food makes a baby chicken grow and a grown one that is ready fall in love; nothing else does, and
/// it is heard.
pub proof fn law_what_feeding_a_chicken_does(mob: MobEntity, food: bool, breeding_ready: bool)
    ensures
        grows(mob, chicken_feeding(food, breeding_ready)) <==> food && mob.age < 0,
        falls_in_love(mob, chicken_feeding(food, breeding_ready)) <==> food && breeding_ready && mob.age >= 0
            && mob.love_ticks <= 0,
        chicken_feeding(food, breeding_ready).sound == Sound::ChickenAmbient,
{
}

/// What chickens pursue, and how urgently: this and nothing else.
pub proof fn law_what_chickens_pursue(e: GoalEntry)
    ensures
        chicken_goals().contains(e) <==> {
            ||| e.priority == 0 && e.goal == Goal::Swim
            ||| e.priority == 1 && e.goal == (Goal::EscapeDanger { speed: 1400 })
            ||| e.priority == 2 && e.goal == (Goal::Breed { speed: 1000 })
            ||| e.priority == 3 && e.goal == (Goal::Tempt { speed: 1000, items: Diet::Chicken, scared: false })
            ||| e.priority == 4 && e.goal == (Goal::FollowParent { speed: 1100 })
            ||| e.priority == 5 && e.goal == (Goal::Wander { speed: 1000 })
            ||| e.priority == 6 && e.goal == (Goal::LookAt { kind: EntityKind::Player, range: 6000 })
            ||| e.priority == 7 && e.goal == Goal::LookAround
        },
        chicken_goals().len() == 8,
{
    let all = chicken_goals();
    assert(all[0] == (GoalEntry { priority: 0, goal: Goal::Swim }));
    assert(all[1] == (GoalEntry { priority: 1, goal: Goal::EscapeDanger { speed: 1400 } }));
    assert(all[2] == (GoalEntry { priority: 2, goal: Goal::Breed { speed: 1000 } }));
    assert(all[3] == (GoalEntry { priority: 3, goal: Goal::Tempt { speed: 1000, items: Diet::Chicken, scared: false } }));
    assert(all[4] == (GoalEntry { priority: 4, goal: Goal::FollowParent { speed: 1100 } }));
    assert(all[5] == (GoalEntry { priority: 5, goal: Goal::Wander { speed: 1000 } }));
    assert(all[6] == (GoalEntry { priority: 6, goal: Goal::LookAt { kind: EntityKind::Player, range: 6000 } }));
    assert(all[7] == (GoalEntry { priority: 7, goal: Goal::LookAround }));
}

/// A chick has the coat of the parent the draw names, and its own if there is but one.
pub proof fn law_whose_coat_a_chick_has(own: u8, first: u8, second: u8, from_first: bool)
    ensures
        chick_coat(own, first, None, from_first) == own,
        from_first ==> chick_coat(own, first, Some(second), from_first) == normal_coat(first),
        !from_first ==> chick_coat(own, first, Some(second), from_first) == normal_coat(second),
{
}

} // verus!
