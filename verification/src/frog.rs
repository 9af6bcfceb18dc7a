//! Frogs.

use vstd::prelude::*;

use crate::animal::{
    animal_interact, animal_restored, animal_saved, falls_in_love, fed, feeding_effects, grows,
    meal_outcome, read_animal_nbt, stack_after_meal, write_animal_nbt, Feeding,
};
use crate::effect::{Effect, Interaction, Sound, SyncedValue};
use crate::goal::{entry, goal, look_at_player, watch_player, EntityKind, Goal, GoalEntry};
use crate::item::{diet_items, Diet, ItemStack, Player};
use crate::mob::MobEntity;
use crate::nbt::{bool_at, bool_value, text_at, NbtCompound, NbtValue};
use crate::text::same_text;

verus! {

/// By how much a frog's fall hurts less.
pub const FALL_DAMAGE_REDUCTION: i32 = 5;

/// The number that stands for no target of the tongue.
pub const NO_TARGET: i32 = -1;

/// The kind of a frog.
#[derive(Clone, Copy, PartialEq, Eq, Structural, Debug)]
pub enum FrogVariant {
    Cold,
    Temperate,
    Warm,
}

impl Default for FrogVariant {
    fn default() -> (variant: Self)
        ensures
            variant == FrogVariant::Temperate,
    {
        FrogVariant::Temperate
    }
}

/// The number of a kind.
pub open spec fn frog_id(variant: FrogVariant) -> i32 {
    match variant {
        FrogVariant::Cold => 0,
        FrogVariant::Temperate => 1,
        FrogVariant::Warm => 2,
    }
}

/// The kind for a number. What is none is temperate.
pub open spec fn frog_of_id(id: i32) -> FrogVariant {
    match id {
        0 => FrogVariant::Cold,
        2 => FrogVariant::Warm,
        _ => FrogVariant::Temperate,
    }
}

/// The full name of a kind.
pub open spec fn frog_name(variant: FrogVariant) -> Seq<char> {
    match variant {
        FrogVariant::Cold => "minecraft:cold"@,
        FrogVariant::Temperate => "minecraft:temperate"@,
        FrogVariant::Warm => "minecraft:warm"@,
    }
}

/// The kind of a name, full or short. What is none is temperate.
pub open spec fn frog_of_name(name: Seq<char>) -> FrogVariant {
    if name == "minecraft:cold"@ || name == "cold"@ {
        FrogVariant::Cold
    } else if name == "minecraft:warm"@ || name == "warm"@ {
        FrogVariant::Warm
    } else {
        FrogVariant::Temperate
    }
}

impl FrogVariant {
    pub fn from_id(id: i32) -> (variant: Self)
        ensures
            variant == frog_of_id(id),
    {
        match id {
            0 => FrogVariant::Cold,
            2 => FrogVariant::Warm,
            _ => FrogVariant::Temperate,
        }
    }

    pub fn id(self) -> (id: i32)
        ensures
            id == frog_id(self),
    {
        match self {
            FrogVariant::Cold => 0,
            FrogVariant::Temperate => 1,
            FrogVariant::Warm => 2,
        }
    }

    pub fn as_str(self) -> (name: &'static str)
        ensures
            name@ == frog_name(self),
    {
        match self {
            FrogVariant::Cold => "minecraft:cold",
            FrogVariant::Temperate => "minecraft:temperate",
            FrogVariant::Warm => "minecraft:warm",
        }
    }

    pub fn from_name(s: &str) -> (variant: Self)
        ensures
            variant == frog_of_name(s@),
    {
        if same_text(s, "minecraft:cold") || same_text(s, "cold") {
            FrogVariant::Cold
        } else if same_text(s, "minecraft:warm") || same_text(s, "warm") {
            FrogVariant::Warm
        } else {
            FrogVariant::Temperate
        }
    }
}

/// The number and the name of a kind lead back to it.
pub proof fn law_frog_variant_round_trip(variant: FrogVariant)
    ensures
        frog_of_id(frog_id(variant)) == variant,
        frog_of_name(frog_name(variant)) == variant,
{
    reveal_strlit("minecraft:cold");
    reveal_strlit("minecraft:warm");
    reveal_strlit("minecraft:temperate");
    reveal_strlit("cold");
    reveal_strlit("warm");
    assert("minecraft:cold"@[10] == 'c' && "minecraft:warm"@[10] == 'w');
    assert("minecraft:temperate"@.len() == 19 && "minecraft:cold"@.len() == 14
        && "minecraft:warm"@.len() == 14 && "cold"@.len() == 4 && "warm"@.len() == 4);
}

/// What a frog pursues.
pub open spec fn frog_goals() -> Seq<GoalEntry> {
    seq![
        entry(0, Goal::Swim),
        entry(1, Goal::FrogTongueAttack),
        entry(1, Goal::Tempt { speed: 1000, items: Diet::Frog, scared: false }),
        entry(1, Goal::FrogLaySpawn { speed: 1000 }),
        entry(2, Goal::Breed { speed: 1000 }),
        entry(2, Goal::Wander { speed: 1000 }),
        entry(3, look_at_player(6000)),
        entry(4, Goal::LookAround),
    ]
}

/// A frog.
pub struct FrogEntity {
    pub mob_entity: MobEntity,
    pub variant: i32,
    pub tongue_target_id: i32,
    /// Whether the frog is about to lay spawn.
    pub is_pregnant: bool,
}

/// The message that tells clients about the kind of a frog.
pub open spec fn frog_sync(variant: FrogVariant) -> Effect {
    Effect::Sync(SyncedValue::FrogVariant(frog_id(variant)))
}

impl FrogEntity {
    /// A new temperate frog.
    pub fn new(age: i32) -> (frog: Self)
        ensures
            frog.mob_entity.fresh(age),
            frog.mob_entity.goals@ == frog_goals(),
            frog.mob_entity.targets@ == seq![entry(1, Goal::FrogFindFood)],
            frog.variant == frog_id(FrogVariant::Temperate),
            frog.tongue_target_id == NO_TARGET,
            !frog.is_pregnant,
    {
        let goals = vec![
            goal(0, Goal::Swim),
            goal(1, Goal::FrogTongueAttack),
            goal(1, Goal::Tempt { speed: 1000, items: Diet::Frog, scared: false }),
            goal(1, Goal::FrogLaySpawn { speed: 1000 }),
            goal(2, Goal::Breed { speed: 1000 }),
            goal(2, Goal::Wander { speed: 1000 }),
            goal(3, watch_player(6000)),
            goal(4, Goal::LookAround),
        ];
        FrogEntity {
            mob_entity: MobEntity::with_goals(age, goals, vec![goal(1, Goal::FrogFindFood)]),
            variant: FrogVariant::Temperate.id(),
            tongue_target_id: NO_TARGET,
            is_pregnant: false,
        }
    }

    pub fn get_variant(&self) -> (variant: FrogVariant)
        ensures
            variant == frog_of_id(self.variant),
    {
        FrogVariant::from_id(self.variant)
    }

    pub fn set_variant(&mut self, variant: FrogVariant, effects: &mut Vec<Effect>)
        ensures
            *final(self) == (FrogEntity { variant: frog_id(variant), ..*old(self) }),
            final(effects)@ == old(effects)@.push(frog_sync(variant)),
    {
        self.variant = variant.id();
        effects.push(Effect::Sync(SyncedValue::FrogVariant(variant.id())));
    }

    /// Makes the frog the kind of a name.
    pub fn mob_set_variant_name(&mut self, name: &str, effects: &mut Vec<Effect>)
        ensures
            *final(self) == (FrogEntity { variant: frog_id(frog_of_name(name@)), ..*old(self) }),
            final(effects)@ == old(effects)@.push(frog_sync(frog_of_name(name@))),
    {
        self.set_variant(FrogVariant::from_name(name), effects);
    }

    pub fn is_pregnant(&self) -> (pregnant: bool)
        ensures
            pregnant == self.is_pregnant,
    {
        self.is_pregnant
    }

    pub fn set_pregnant(&mut self, pregnant: bool)
        ensures
            *final(self) == (FrogEntity { is_pregnant: pregnant, ..*old(self) }),
    {
        self.is_pregnant = pregnant;
    }

    /// The baby of two frogs: none, since they lay spawn.
    pub fn create_offspring(&self) -> (baby: Option<u128>)
        ensures
            baby is None,
    {
        None
    }

    /// What comes of breeding: the frog is about to lay spawn.
    pub fn spawn_breeding_result(&mut self)
        ensures
            *final(self) == (FrogEntity { is_pregnant: true, ..*old(self) }),
    {
        self.set_pregnant(true);
    }

    /// The damage of a fall that would hurt others by some amount.
    pub fn mob_calculate_fall_damage(&self, usual_damage: i32) -> (damage: i32)
        requires
            usual_damage >= i32::MIN + FALL_DAMAGE_REDUCTION,
        ensures
            damage == usual_damage - FALL_DAMAGE_REDUCTION,
    {
        usual_damage - FALL_DAMAGE_REDUCTION
    }

    /// Whether an item is food for the frog: slime, and what is tagged as such.
    pub fn is_food(&self, stack: &ItemStack, tagged_food: bool) -> (food: bool)
        ensures
            food == (tagged_food || diet_items(Diet::Frog).contains(stack.item)),
    {
        tagged_food || Diet::Frog.contains(stack.item)
    }

    /// Lets a player use an item on the frog.
    pub fn mob_interact(
        &mut self,
        tagged_food: bool,
        breeding_ready: bool,
        player: &Player,
        stack: &mut ItemStack,
        effects: &mut Vec<Effect>,
    ) -> (outcome: Interaction)
        requires
            grows(
                old(self).mob_entity,
                frog_feeding(
                    tagged_food || diet_items(Diet::Frog).contains(old(stack).item),
                    breeding_ready,
                ),
            ) ==> old(self).mob_entity.age > i32::MIN,
        ensures
            ({
                let mob = old(self).mob_entity;
                let feeding = frog_feeding(
                    tagged_food || diet_items(Diet::Frog).contains(old(stack).item),
                    breeding_ready,
                );
                &&& outcome == meal_outcome(mob, feeding)
                &&& *final(self) == (FrogEntity {
                    mob_entity: fed(mob, feeding, *player),
                    ..*old(self)
                })
                &&& *final(stack) == stack_after_meal(
                    mob,
                    feeding,
                    *old(stack),
                    player.gamemode,
                )
                &&& final(effects)@ == old(effects)@ + feeding_effects(mob, feeding)
            }),
    {
        let feeding = Feeding {
            food: self.is_food(stack, tagged_food),
            breeding_ready,
            can_age_up: true,
            sound: Sound::FrogAmbient,
        };
        animal_interact(&mut self.mob_entity, feeding, player, stack, effects)
    }

    /// Tells clients about the frog when they first see it.
    pub fn mob_init_data_tracker(&self, effects: &mut Vec<Effect>)
        ensures
            final(effects)@ == old(effects)@ + (if self.mob_entity.age < 0 {
                seq![Effect::Sync(SyncedValue::Baby(true))]
            } else {
                seq![]
            }) + seq![frog_sync(frog_of_id(self.variant))],
    {
        if self.mob_entity.is_baby() {
            effects.push(Effect::Sync(SyncedValue::Baby(true)));
        }
        effects.push(Effect::Sync(SyncedValue::FrogVariant(self.get_variant().id())));
    }

    /// Saves the frog.
    pub fn write_nbt(&self, nbt: &mut NbtCompound)
        ensures
            final(nbt)@ == frog_saved(old(nbt)@, *self),
    {
        write_animal_nbt(&self.mob_entity, nbt);
        nbt.put_string("variant", self.get_variant().as_str());
        nbt.put_bool("IsPregnant", self.is_pregnant);
    }

    /// Restores the frog.
    pub fn read_nbt(&mut self, nbt: &NbtCompound, effects: &mut Vec<Effect>)
        ensures
            *final(self) == frog_restored(*old(self), nbt@),
            final(effects)@ == old(effects)@ + (match text_at(nbt@, "variant"@) {
                Some(name) => seq![frog_sync(frog_of_name(name))],
                None => seq![],
            }),
    {
        read_animal_nbt(&mut self.mob_entity, nbt);
        if let Some(name) = nbt.get_string("variant") {
            self.set_variant(FrogVariant::from_name(name), effects);
        }
        self.is_pregnant = nbt.get_bool("IsPregnant").unwrap_or(false);
    }
}

/// How a frog takes food.
pub open spec fn frog_feeding(food: bool, breeding_ready: bool) -> Feeding {
    Feeding { food, breeding_ready, can_age_up: true, sound: Sound::FrogAmbient }
}

/// What is saved of a frog.
pub open spec fn frog_saved(nbt: Map<Seq<char>, NbtValue>, frog: FrogEntity) -> Map<
    Seq<char>,
    NbtValue,
> {
    animal_saved(nbt, frog.mob_entity).insert(
        "variant"@,
        NbtValue::Text(frog_name(frog_of_id(frog.variant))),
    ).insert("IsPregnant"@, bool_value(frog.is_pregnant))
}

/// A frog with its saved state restored.
pub open spec fn frog_restored(frog: FrogEntity, nbt: Map<Seq<char>, NbtValue>) -> FrogEntity {
    FrogEntity {
        mob_entity: animal_restored(frog.mob_entity, nbt),
        variant: match text_at(nbt, "variant"@) {
            Some(name) => frog_id(frog_of_name(name)),
            None => frog.variant,
        },
        is_pregnant: bool_at(nbt, "IsPregnant"@) == Some(true),
        ..frog
    }
}

/// Restoring a saved frog gives back its kind and whether it is about to lay spawn.
pub proof fn law_frog_round_trip(
    nbt: Map<Seq<char>, NbtValue>,
    frog: FrogEntity,
    other: FrogEntity,
)
    ensures
        ({
            let back = frog_restored(other, frog_saved(nbt, frog));
            &&& frog_of_id(back.variant) == frog_of_id(frog.variant)
            &&& back.is_pregnant == frog.is_pregnant
        }),
{
    reveal_strlit("variant");
    reveal_strlit("IsPregnant");
    assert("variant"@.len() == 7 && "IsPregnant"@.len() == 10);
    law_frog_variant_round_trip(frog_of_id(frog.variant));
}

/// The numbers and names of the coats of frogs; an unknown one is that of the temperate frog.
pub proof fn law_names_of_frogs(id: i32, name: Seq<char>)
    ensures
        frog_id(FrogVariant::Cold) == 0 && frog_id(FrogVariant::Temperate) == 1 && frog_id(
            FrogVariant::Warm,
        ) == 2,
        id != 0 && id != 2 ==> frog_of_id(id) == FrogVariant::Temperate,
        frog_name(FrogVariant::Cold) == "minecraft:cold"@,
        frog_name(FrogVariant::Temperate) == "minecraft:temperate"@,
        frog_name(FrogVariant::Warm) == "minecraft:warm"@,
        name == "cold"@ ==> frog_of_name(name) == FrogVariant::Cold,
        name == "warm"@ ==> frog_of_name(name) == FrogVariant::Warm,
        name != "cold"@ && name != "minecraft:cold"@ && name != "warm"@ && name
            != "minecraft:warm"@ ==> frog_of_name(name) == FrogVariant::Temperate,
{
    reveal_strlit("cold");
    reveal_strlit("warm");
    reveal_strlit("minecraft:cold");
    assert("cold"@[0] == 'c' && "warm"@[0] == 'w' && "minecraft:cold"@.len() == 14 && "warm"@.len()
        == 4);
}

/// Food makes a baby frog grow and a grown one that is ready fall in love; nothing else does, and
/// it is heard.
pub proof fn law_what_feeding_a_frog_does(mob: MobEntity, food: bool, breeding_ready: bool)
    ensures
        grows(mob, frog_feeding(food, breeding_ready)) <==> food && mob.age < 0,
        falls_in_love(mob, frog_feeding(food, breeding_ready)) <==> food && breeding_ready && mob.age >= 0
            && mob.love_ticks <= 0,
        frog_feeding(food, breeding_ready).sound == Sound::FrogAmbient,
{
}

/// What frogs pursue, and how urgently: this and nothing else.
pub proof fn law_what_frogs_pursue(e: GoalEntry)
    ensures
        frog_goals().contains(e) <==> {
            ||| e.priority == 0 && e.goal == Goal::Swim
            ||| e.priority == 1 && e.goal == Goal::FrogTongueAttack
            ||| e.priority == 1 && e.goal == (Goal::Tempt { speed: 1000, items: Diet::Frog, scared: false })
            ||| e.priority == 1 && e.goal == (Goal::FrogLaySpawn { speed: 1000 })
            ||| e.priority == 2 && e.goal == (Goal::Breed { speed: 1000 })
            ||| e.priority == 2 && e.goal == (Goal::Wander { speed: 1000 })
            ||| e.priority == 3 && e.goal == (Goal::LookAt { kind: EntityKind::Player, range: 6000 })
            ||| e.priority == 4 && e.goal == Goal::LookAround
        },
        frog_goals().len() == 8,
{
    let all = frog_goals();
    assert(all[0] == (GoalEntry { priority: 0, goal: Goal::Swim }));
    assert(all[1] == (GoalEntry { priority: 1, goal: Goal::FrogTongueAttack }));
    assert(all[2] == (GoalEntry { priority: 1, goal: Goal::Tempt { speed: 1000, items: Diet::Frog, scared: false } }));
    assert(all[3] == (GoalEntry { priority: 1, goal: Goal::FrogLaySpawn { speed: 1000 } }));
    assert(all[4] == (GoalEntry { priority: 2, goal: Goal::Breed { speed: 1000 } }));
    assert(all[5] == (GoalEntry { priority: 2, goal: Goal::Wander { speed: 1000 } }));
    assert(all[6] == (GoalEntry { priority: 3, goal: Goal::LookAt { kind: EntityKind::Player, range: 6000 } }));
    assert(all[7] == (GoalEntry { priority: 4, goal: Goal::LookAround }));
}

} // verus!
