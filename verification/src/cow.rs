//! Cows.

use vstd::prelude::*;

use crate::animal::{
    animal_interact, animal_restored, animal_saved, falls_in_love, fed, feeding_effects, grows,
    meal_outcome, read_animal_nbt, stack_after_meal, write_animal_nbt, Feeding,
};
use crate::climate::{
    climate_coat, climate_name, full_name, lemma_climate_names, settled_coat, COLD, TEMPERATE,
    VARIANT_UNSET, WARM,
};
use crate::effect::{Effect, Interaction, Sound, SyncedValue};
use crate::goal::{entry, goal, look_at_player, watch_player, EntityKind, Goal, GoalEntry};
use crate::item::{diet_items, Diet, ItemStack, Player};
use crate::mob::{Dimensions, MobEntity};
use crate::nbt::{text_at, NbtCompound, NbtValue};
use crate::random::chance;
use crate::text::{local_name, same_text, strip_namespace};

verus! {

/// The full name of a coat.
pub fn name(id: u8) -> (name: &'static str)
    ensures
        name@ == climate_name(id),
{
    full_name(id)
}

/// The coat of a name, with or without the default namespace.
pub open spec fn cow_of_name(name: Seq<char>) -> Option<u8> {
    let local = local_name(name);
    if local == "cold"@ {
        Some(COLD)
    } else if local == "warm"@ {
        Some(WARM)
    } else if local == "temperate"@ {
        Some(TEMPERATE)
    } else {
        None
    }
}

/// The coat of a name, with or without the default namespace.
pub fn from_name(name: &str) -> (variant: Option<u8>)
    ensures
        variant == cow_of_name(name@),
{
    let local = strip_namespace(name);
    if same_text(local, "cold") {
        Some(COLD)
    } else if same_text(local, "warm") {
        Some(WARM)
    } else if same_text(local, "temperate") {
        Some(TEMPERATE)
    } else {
        None
    }
}

/// The name of a coat leads back to it.
pub proof fn law_cow_name_round_trip(id: u8)
    requires
        id <= WARM,
    ensures
        cow_of_name(climate_name(id)) == Some(id),
{
    lemma_climate_names();
}

/// What a cow pursues.
pub open spec fn cow_goals() -> Seq<GoalEntry> {
    seq![
        entry(0, Goal::Swim),
        entry(1, Goal::EscapeDanger { speed: 2000 }),
        entry(2, Goal::Breed { speed: 1000 }),
        entry(3, Goal::Tempt { speed: 1250, items: Diet::Cow, scared: false }),
        entry(4, Goal::FollowParent { speed: 1250 }),
        entry(5, Goal::WanderAvoidingWater { speed: 1000 }),
        entry(6, look_at_player(6000)),
        entry(7, Goal::LookAround),
    ]
}

/// A cow.
pub struct CowEntity {
    pub mob_entity: MobEntity,
    pub variant: u8,
}

/// The coat of a cow; one that is not known yet counts as temperate.
pub open spec fn cow_coat(variant: u8) -> u8 {
    if variant == VARIANT_UNSET {
        TEMPERATE
    } else {
        variant
    }
}

/// The message that tells clients about the coat of a cow.
pub open spec fn cow_sync(variant: u8) -> Effect {
    Effect::Sync(SyncedValue::CowVariant(cow_coat(variant) as i32))
}

/// The coat of a calf, after one of its parents; with one parent alone it keeps its own.
pub open spec fn calf_coat(own: u8, first: u8, mate: Option<u8>, from_first: bool) -> u8 {
    match mate {
        Some(second) => if from_first {
            cow_coat(first)
        } else {
            cow_coat(second)
        },
        None => own,
    }
}

impl CowEntity {
    /// A new cow whose coat is not known yet.
    pub fn new(age: i32) -> (cow: Self)
        ensures
            cow.mob_entity.fresh(age),
            cow.mob_entity.goals@ == cow_goals(),
            cow.mob_entity.targets@ == Seq::<GoalEntry>::empty(),
            cow.variant == VARIANT_UNSET,
    {
        let goals = vec![
            goal(0, Goal::Swim),
            goal(1, Goal::EscapeDanger { speed: 2000 }),
            goal(2, Goal::Breed { speed: 1000 }),
            goal(3, Goal::Tempt { speed: 1250, items: Diet::Cow, scared: false }),
            goal(4, Goal::FollowParent { speed: 1250 }),
            goal(5, Goal::WanderAvoidingWater { speed: 1000 }),
            goal(6, watch_player(6000)),
            goal(7, Goal::LookAround),
        ];
        CowEntity {
            mob_entity: MobEntity::with_goals(age, goals, Vec::new()),
            variant: VARIANT_UNSET,
        }
    }

    /// The size of a baby.
    pub fn baby_dimensions(&self) -> (size: Dimensions)
        ensures
            size == (Dimensions { width: 45000, height: 70000, eye_height: 69000 }),
    {
        Dimensions { width: 45000, height: 70000, eye_height: 69000 }
    }

    pub fn get_variant(&self) -> (variant: u8)
        ensures
            variant == cow_coat(self.variant),
    {
        if self.variant == VARIANT_UNSET {
            TEMPERATE
        } else {
            self.variant
        }
    }

    pub fn set_variant(&mut self, variant: u8, effects: &mut Vec<Effect>)
        ensures
            *final(self) == (CowEntity { variant, ..*old(self) }),
            final(effects)@ == old(effects)@.push(cow_sync(variant)),
    {
        self.variant = variant;
        effects.push(Effect::Sync(SyncedValue::CowVariant(self.get_variant() as i32)));
    }

    /// The coat of a cow that comes to life in a climate.
    pub fn select_spawn_variant(warm: bool, cold: bool) -> (variant: u8)
        ensures
            variant == climate_coat(warm, cold),
    {
        crate::climate::select_spawn_variant(warm, cold)
    }

    /// Gives the cow the coat of a name; a name that is none changes nothing.
    pub fn mob_set_variant_name(&mut self, name: &str)
        ensures
            *final(self) == (CowEntity {
                variant: match cow_of_name(name@) {
                    Some(variant) => variant,
                    None => old(self).variant,
                },
                ..*old(self)
            }),
    {
        if let Some(variant) = from_name(name) {
            self.variant = variant;
        }
    }

    /// Whether an item is food for the cow: wheat, and what is tagged as such.
    pub fn is_food(&self, stack: &ItemStack, tagged_food: bool) -> (food: bool)
        ensures
            food == (tagged_food || diet_items(Diet::Cow).contains(stack.item)),
    {
        tagged_food || Diet::Cow.contains(stack.item)
    }

    /// Lets a player use an item on the cow.
    pub fn mob_interact(
        &mut self,
        tagged_food: bool,
        breeding_ready: bool,
        player: &Player,
        stack: &mut ItemStack,
        effects: &mut Vec<Effect>,
    ) -> (outcome: Interaction)
        requires
            grows(
                old(self).mob_entity,
                cow_feeding(
                    tagged_food || diet_items(Diet::Cow).contains(old(stack).item),
                    breeding_ready,
                ),
            ) ==> old(self).mob_entity.age > i32::MIN,
        ensures
            ({
                let mob = old(self).mob_entity;
                let feeding = cow_feeding(
                    tagged_food || diet_items(Diet::Cow).contains(old(stack).item),
                    breeding_ready,
                );
                &&& outcome == meal_outcome(mob, feeding)
                &&& *final(self) == (CowEntity {
                    mob_entity: fed(mob, feeding, *player),
                    ..*old(self)
                })
                &&& *final(stack) == stack_after_meal(
                    mob,
                    feeding,
                    *old(stack),
                    player.gamemode,
                )
                &&& final(effects)@ == old(effects)@ + feeding_effects(mob, feeding)
            }),
    {
        let feeding = Feeding {
            food: self.is_food(stack, tagged_food),
            breeding_ready,
            can_age_up: true,
            sound: Sound::CowAmbient,
        };
        animal_interact(&mut self.mob_entity, feeding, player, stack, effects)
    }

    /// Tells clients about the cow when they first see it. A coat that is not known yet is that
    /// of the climate.
    pub fn mob_init_data_tracker(&mut self, warm: bool, cold: bool, effects: &mut Vec<Effect>)
        ensures
            ({
                let variant = settled_coat(old(self).variant, warm, cold);
                &&& *final(self) == (CowEntity { variant, ..*old(self) })
                &&& final(effects)@ == old(effects)@.push(cow_sync(variant)) + (if old(
                    self,
                ).mob_entity.age < 0 {
                    seq![Effect::Sync(SyncedValue::Baby(true))]
                } else {
                    seq![]
                })
            }),
    {
        if self.variant == VARIANT_UNSET {
            self.variant = Self::select_spawn_variant(warm, cold);
        }
        effects.push(Effect::Sync(SyncedValue::CowVariant(self.get_variant() as i32)));
        if self.mob_entity.is_baby() {
            effects.push(Effect::Sync(SyncedValue::Baby(true)));
        }
    }

    /// Gives a calf the coat of one of two cows.
    pub fn inherit(&mut self, first: &CowEntity, mate: Option<&CowEntity>, from_first: bool)
        ensures
            *final(self) == (CowEntity {
                variant: calf_coat(
                    old(self).variant,
                    first.variant,
                    match mate {
                        Some(second) => Some(second.variant),
                        None => None,
                    },
                    from_first,
                ),
                ..*old(self)
            }),
    {
        if let Some(second) = mate {
            self.variant = if from_first {
                first.get_variant()
            } else {
                second.get_variant()
            };
        }
    }

    /// Gives a calf the coat of one of its parents, if both are cows.
    pub fn create_offspring(&mut self, first: &CowEntity, mate: Option<&CowEntity>)
        ensures
            *final(self) == (CowEntity { variant: final(self).variant, ..*old(self) }),
            match mate {
                Some(second) => final(self).variant == cow_coat(first.variant)
                    || final(self).variant == cow_coat(second.variant),
                None => final(self).variant == old(self).variant,
            },
    {
        let from_first: bool = chance(1, 2);
        self.inherit(first, mate, from_first);
    }

    /// Saves the cow.
    pub fn write_nbt(&self, nbt: &mut NbtCompound)
        ensures
            final(nbt)@ == cow_saved(old(nbt)@, *self),
    {
        write_animal_nbt(&self.mob_entity, nbt);
        nbt.put_string("variant", name(self.get_variant()));
    }

    /// Restores the cow. A coat that is missing or unknown is left open.
    pub fn read_nbt(&mut self, nbt: &NbtCompound)
        ensures
            *final(self) == cow_restored(*old(self), nbt@),
    {
        read_animal_nbt(&mut self.mob_entity, nbt);
        if let Some(name) = nbt.get_string("variant") {
            if let Some(variant) = from_name(name) {
                self.variant = variant;
            }
        }
    }
}

/// How a cow takes food.
pub open spec fn cow_feeding(food: bool, breeding_ready: bool) -> Feeding {
    Feeding { food, breeding_ready, can_age_up: true, sound: Sound::CowAmbient }
}

/// What is saved of a cow.
pub open spec fn cow_saved(nbt: Map<Seq<char>, NbtValue>, cow: CowEntity) -> Map<
    Seq<char>,
    NbtValue,
> {
    animal_saved(nbt, cow.mob_entity).insert(
        "variant"@,
        NbtValue::Text(climate_name(cow_coat(cow.variant))),
    )
}

/// A cow with its saved state restored.
pub open spec fn cow_restored(cow: CowEntity, nbt: Map<Seq<char>, NbtValue>) -> CowEntity {
    CowEntity {
        mob_entity: animal_restored(cow.mob_entity, nbt),
        variant: match text_at(nbt, "variant"@) {
            Some(name) => match cow_of_name(name) {
                Some(variant) => variant,
                None => cow.variant,
            },
            None => cow.variant,
        },
    }
}

/// Restoring a saved cow gives back its coat; one that was not known yet becomes temperate.
pub proof fn law_cow_round_trip(nbt: Map<Seq<char>, NbtValue>, cow: CowEntity, other: CowEntity)
    requires
        cow.variant <= WARM || cow.variant == VARIANT_UNSET,
    ensures
        cow_restored(other, cow_saved(nbt, cow)).variant == cow_coat(cow.variant),
{
    law_cow_name_round_trip(cow_coat(cow.variant));
}

/// A coat that has not been chosen counts as the temperate one; a name that is none of the three
/// is the name of no coat.
pub proof fn law_coats_of_cows(variant: u8, name: Seq<char>)
    ensures
        variant == 255 ==> cow_coat(variant) == 1,
        variant != 255 ==> cow_coat(variant) == variant,
        local_name(name) == "cold"@ ==> cow_of_name(name) == Some(0u8),
        local_name(name) == "temperate"@ ==> cow_of_name(name) == Some(1u8),
        local_name(name) == "warm"@ ==> cow_of_name(name) == Some(2u8),
        local_name(name) != "cold"@ && local_name(name) != "temperate"@ && local_name(name)
            != "warm"@ ==> cow_of_name(name) is None,
{
    lemma_climate_names();
}

/// Food makes a baby cow grow and a grown one that is ready fall in love; nothing else does, and
/// it is heard.
pub proof fn law_what_feeding_a_cow_does(mob: MobEntity, food: bool, breeding_ready: bool)
    ensures
        grows(mob, cow_feeding(food, breeding_ready)) <==> food && mob.age < 0,
        falls_in_love(mob, cow_feeding(food, breeding_ready)) <==> food && breeding_ready && mob.age >= 0
            && mob.love_ticks <= 0,
        cow_feeding(food, breeding_ready).sound == Sound::CowAmbient,
{
}

/// What cows pursue, and how urgently: this and nothing else.
pub proof fn law_what_cows_pursue(e: GoalEntry)
    ensures
        cow_goals().contains(e) <==> {
            ||| e.priority == 0 && e.goal == Goal::Swim
            ||| e.priority == 1 && e.goal == (Goal::EscapeDanger { speed: 2000 })
            ||| e.priority == 2 && e.goal == (Goal::Breed { speed: 1000 })
            ||| e.priority == 3 && e.goal == (Goal::Tempt { speed: 1250, items: Diet::Cow, scared: false })
            ||| e.priority == 4 && e.goal == (Goal::FollowParent { speed: 1250 })
            ||| e.priority == 5 && e.goal == (Goal::WanderAvoidingWater { speed: 1000 })
            ||| e.priority == 6 && e.goal == (Goal::LookAt { kind: EntityKind::Player, range: 6000 })
            ||| e.priority == 7 && e.goal == Goal::LookAround
        },
        cow_goals().len() == 8,
{
    let all = cow_goals();
    assert(all[0] == (GoalEntry { priority: 0, goal: Goal::Swim }));
    assert(all[1] == (GoalEntry { priority: 1, goal: Goal::EscapeDanger { speed: 2000 } }));
    assert(all[2] == (GoalEntry { priority: 2, goal: Goal::Breed { speed: 1000 } }));
    assert(all[3] == (GoalEntry { priority: 3, goal: Goal::Tempt { speed: 1250, items: Diet::Cow, scared: false } }));
    assert(all[4] == (GoalEntry { priority: 4, goal: Goal::FollowParent { speed: 1250 } }));
    assert(all[5] == (GoalEntry { priority: 5, goal: Goal::WanderAvoidingWater { speed: 1000 } }));
    assert(all[6] == (GoalEntry { priority: 6, goal: Goal::LookAt { kind: EntityKind::Player, range: 6000 } }));
    assert(all[7] == (GoalEntry { priority: 7, goal: Goal::LookAround }));
}

/// A calf has the coat of the parent the draw names, and its own if there is but one.
pub proof fn law_whose_coat_a_calf_has(own: u8, first: u8, second: u8, from_first: bool)
    ensures
        calf_coat(own, first, None, from_first) == own,
        from_first ==> calf_coat(own, first, Some(second), from_first) == cow_coat(first),
        !from_first ==> calf_coat(own, first, Some(second), from_first) == cow_coat(second),
{
}

} // verus!
