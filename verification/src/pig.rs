//! Pigs.

use vstd::prelude::*;

use crate::animal::{
    animal_restored, animal_saved, fed, feeding_effects, grows, meal_outcome, read_animal_nbt,
    stack_after_meal, write_animal_nbt,
};
use crate::effect::{Effect, Interaction, Sound};
use crate::goal::{entry, goal, look_at_player, watch_player, EntityKind, Goal, GoalEntry};
use crate::item::{diet_items, Diet, Item, ItemStack, Player};
use crate::mob::{Dimensions, MobEntity};
use crate::nbt::NbtCompound;
use crate::saddle::{
    is_steered_with, mounts, put_saddle_on, ride_or_feed, saddle_feeding, saddling_effects,
    saddling_outcome, stack_after_saddling, steers, Rider, SaddleContext,
};

verus! {

/// What a pig pursues.
pub open spec fn pig_goals() -> Seq<GoalEntry> {
    seq![
        entry(0, Goal::Swim),
        entry(1, Goal::EscapeDanger { speed: 1250 }),
        entry(2, Goal::Breed { speed: 1000 }),
        entry(3, Goal::Tempt { speed: 1200, items: Diet::Pig, scared: false }),
        entry(4, Goal::FollowParent { speed: 1100 }),
        entry(5, Goal::WanderAvoidingWater { speed: 1000 }),
        entry(6, look_at_player(6000)),
        entry(7, Goal::LookAround),
    ]
}

/// A pig.
pub struct PigEntity {
    pub mob_entity: MobEntity,
}

impl PigEntity {
    /// A new pig.
    pub fn new(age: i32) -> (pig: Self)
        ensures
            pig.mob_entity.fresh(age),
            pig.mob_entity.goals@ == pig_goals(),
            pig.mob_entity.targets@ == Seq::<GoalEntry>::empty(),
    {
        let goals = vec![
            goal(0, Goal::Swim),
            goal(1, Goal::EscapeDanger { speed: 1250 }),
            goal(2, Goal::Breed { speed: 1000 }),
            goal(3, Goal::Tempt { speed: 1200, items: Diet::Pig, scared: false }),
            goal(4, Goal::FollowParent { speed: 1100 }),
            goal(5, Goal::WanderAvoidingWater { speed: 1000 }),
            goal(6, watch_player(6000)),
            goal(7, Goal::LookAround),
        ];
        PigEntity { mob_entity: MobEntity::with_goals(age, goals, Vec::new()) }
    }

    /// The size of a baby.
    pub fn baby_dimensions(&self) -> (size: Dimensions)
        ensures
            size == (Dimensions { width: 45000, height: 45000, eye_height: 40625 }),
    {
        Dimensions { width: 45000, height: 45000, eye_height: 40625 }
    }

    /// Whether an item is food for the pig.
    pub fn is_food(&self, stack: &ItemStack) -> (food: bool)
        ensures
            food == diet_items(Diet::Pig).contains(stack.item),
    {
        Diet::Pig.contains(stack.item)
    }

    /// Whether a rider steers the pig, with a carrot on a stick.
    pub fn has_controlling_passenger(
        &self,
        cx: &SaddleContext,
        rider: Option<Rider>,
        otherwise: bool,
    ) -> (steered: bool)
        ensures
            steered == steers(
                self.mob_entity,
                *cx,
                rider,
                Item::CarrotOnAStick,
                otherwise,
            ),
    {
        is_steered_with(&self.mob_entity, cx, rider, Item::CarrotOnAStick, otherwise)
    }

    /// Lets a player mount the pig, or feed it. Where the interaction that all mobs share
    /// decides and does nothing, `put_saddle_on` follows.
    pub fn mob_interact(
        &mut self,
        cx: &SaddleContext,
        player: &Player,
        stack: &mut ItemStack,
        effects: &mut Vec<Effect>,
    ) -> (outcome: Interaction)
        requires
            grows(
                old(self).mob_entity,
                saddle_feeding(
                    diet_items(Diet::Pig).contains(old(stack).item),
                    *cx,
                    Sound::PigAmbient,
                ),
            ) ==> old(self).mob_entity.age > i32::MIN,
        ensures
            ({
                let mob = old(self).mob_entity;
                let food = diet_items(Diet::Pig).contains(old(stack).item);
                let feeding = saddle_feeding(food, *cx, Sound::PigAmbient);
                if mounts(mob, food, *cx, *player) {
                    &&& outcome == Interaction::Handled
                    &&& final(self).mob_entity == mob
                    &&& *final(stack) == *old(stack)
                    &&& final(effects)@ == old(effects)@.push(Effect::Mount { player: player.id })
                } else {
                    &&& outcome == meal_outcome(mob, feeding)
                    &&& final(self).mob_entity == fed(mob, feeding, *player)
                    &&& *final(stack) == stack_after_meal(
                        mob,
                        feeding,
                        *old(stack),
                        player.gamemode,
                    )
                    &&& final(effects)@ == old(effects)@ + feeding_effects(mob, feeding)
                }
            }),
    {
        let food = self.is_food(stack);
        ride_or_feed(
            &mut self.mob_entity,
            food,
            Sound::PigAmbient,
            cx,
            player,
            stack,
            effects,
        )
    }

    /// Puts a saddle on the pig.
    pub fn put_saddle_on(
        &self,
        cx: &SaddleContext,
        player: &Player,
        stack: &mut ItemStack,
        effects: &mut Vec<Effect>,
    ) -> (outcome: Interaction)
        ensures
            outcome == saddling_outcome(self.mob_entity, *cx),
            *final(stack) == stack_after_saddling(
                self.mob_entity,
                *cx,
                *old(stack),
                player.gamemode,
            ),
            final(effects)@ == old(effects)@ + saddling_effects(
                self.mob_entity,
                *cx,
                *old(stack),
            ),
    {
        put_saddle_on(&self.mob_entity, cx, player, stack, effects)
    }

    /// Saves the pig.
    pub fn write_nbt(&self, nbt: &mut NbtCompound)
        ensures
            final(nbt)@ == animal_saved(old(nbt)@, self.mob_entity),
    {
        write_animal_nbt(&self.mob_entity, nbt);
    }

    /// Restores the pig.
    pub fn read_nbt(&mut self, nbt: &NbtCompound)
        ensures
            final(self).mob_entity == animal_restored(old(self).mob_entity, nbt@),
    {
        read_animal_nbt(&mut self.mob_entity, nbt);
    }
}

/// What pigs pursue, and how urgently: this and nothing else.
pub proof fn law_what_pigs_pursue(e: GoalEntry)
    ensures
        pig_goals().contains(e) <==> {
            ||| e.priority == 0 && e.goal == Goal::Swim
            ||| e.priority == 1 && e.goal == (Goal::EscapeDanger { speed: 1250 })
            ||| e.priority == 2 && e.goal == (Goal::Breed { speed: 1000 })
            ||| e.priority == 3 && e.goal == (Goal::Tempt { speed: 1200, items: Diet::Pig, scared: false })
            ||| e.priority == 4 && e.goal == (Goal::FollowParent { speed: 1100 })
            ||| e.priority == 5 && e.goal == (Goal::WanderAvoidingWater { speed: 1000 })
            ||| e.priority == 6 && e.goal == (Goal::LookAt { kind: EntityKind::Player, range: 6000 })
            ||| e.priority == 7 && e.goal == Goal::LookAround
        },
        pig_goals().len() == 8,
{
    let all = pig_goals();
    assert(all[0] == (GoalEntry { priority: 0, goal: Goal::Swim }));
    assert(all[1] == (GoalEntry { priority: 1, goal: Goal::EscapeDanger { speed: 1250 } }));
    assert(all[2] == (GoalEntry { priority: 2, goal: Goal::Breed { speed: 1000 } }));
    assert(all[3] == (GoalEntry { priority: 3, goal: Goal::Tempt { speed: 1200, items: Diet::Pig, scared: false } }));
    assert(all[4] == (GoalEntry { priority: 4, goal: Goal::FollowParent { speed: 1100 } }));
    assert(all[5] == (GoalEntry { priority: 5, goal: Goal::WanderAvoidingWater { speed: 1000 } }));
    assert(all[6] == (GoalEntry { priority: 6, goal: Goal::LookAt { kind: EntityKind::Player, range: 6000 } }));
    assert(all[7] == (GoalEntry { priority: 7, goal: Goal::LookAround }));
}

} // verus!
