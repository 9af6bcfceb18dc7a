//! Striders, which walk on lava.

use vstd::prelude::*;

use crate::animal::{
    animal_restored, animal_saved, fed, feeding_effects, grows, meal_outcome, read_animal_nbt,
    stack_after_meal, write_animal_nbt,
};
use crate::effect::{Effect, Ground, Interaction, Sound};
use crate::goal::{entry, goal, look_at_player, watch_player, EntityKind, Goal, GoalEntry};
use crate::item::{Diet, Item, ItemStack, Player};
use crate::mob::{Dimensions, MobEntity};
use crate::nbt::{bool_at, bool_value, byte_at, NbtCompound, NbtValue};
use crate::saddle::{
    is_steered_with, mounts, put_saddle_on, ride_or_feed, saddle_feeding, saddled, saddling_effects,
    saddling_outcome, stack_after_saddling, steers, Rider, SaddleContext,
};

verus! {

/// What a strider pursues.
pub open spec fn strider_goals() -> Seq<GoalEntry> {
    seq![
        entry(1, Goal::EscapeDanger { speed: 1650 }),
        entry(2, Goal::Breed { speed: 1000 }),
        entry(3, Goal::Tempt { speed: 1400, items: Diet::Strider, scared: false }),
        entry(4, Goal::StriderGoToLava { speed: 1000 }),
        entry(5, Goal::FollowParent { speed: 1000 }),
        entry(7, Goal::WanderAtInterval { speed: 1000, interval: 60 }),
        entry(8, look_at_player(8000)),
        entry(8, Goal::LookAround),
        entry(9, Goal::LookAt { kind: EntityKind::Strider, range: 8000 }),
    ]
}

/// A strider.
pub struct StriderEntity {
    pub mob_entity: MobEntity,
    pub saddled: bool,
}

/// What the paths of a strider ask of the host.
pub open spec fn strider_path_effects() -> Seq<Effect> {
    seq![
        Effect::AvoidGround(Ground::Water),
        Effect::AllowGround(Ground::Lava),
        Effect::AllowGround(Ground::NearFire),
        Effect::AllowGround(Ground::Fire),
    ]
}

impl StriderEntity {
    /// A new strider.
    pub fn new(age: i32, effects: &mut Vec<Effect>) -> (strider: Self)
        ensures
            strider.mob_entity.fresh(age),
            strider.mob_entity.goals@ == strider_goals(),
            strider.mob_entity.targets@ == Seq::<GoalEntry>::empty(),
            !strider.saddled,
            final(effects)@ == old(effects)@ + strider_path_effects(),
    {
        let goals = vec![
            goal(1, Goal::EscapeDanger { speed: 1650 }),
            goal(2, Goal::Breed { speed: 1000 }),
            goal(3, Goal::Tempt { speed: 1400, items: Diet::Strider, scared: false }),
            goal(4, Goal::StriderGoToLava { speed: 1000 }),
            goal(5, Goal::FollowParent { speed: 1000 }),
            goal(7, Goal::WanderAtInterval { speed: 1000, interval: 60 }),
            goal(8, watch_player(8000)),
            goal(8, Goal::LookAround),
            goal(9, Goal::LookAt { kind: EntityKind::Strider, range: 8000 }),
        ];
        let strider = StriderEntity {
            mob_entity: MobEntity::with_goals(age, goals, Vec::new()),
            saddled: false,
        };
        strider.prepare_paths(effects);
        strider
    }

    /// The size of a baby.
    pub fn baby_dimensions(&self) -> (size: Dimensions)
        ensures
            size == (Dimensions { width: 45000, height: 85000, eye_height: 43750 }),
    {
        Dimensions { width: 45000, height: 85000, eye_height: 43750 }
    }

    /// Whether an item is food for the strider: warped fungus, without a stick.
    pub fn is_food(&self, stack: &ItemStack) -> (food: bool)
        ensures
            food == (stack.item == Item::WarpedFungus),
    {
        stack.item == Item::WarpedFungus
    }

    /// Prepares the paths of a new strider: it keeps off water, and neither lava nor fire stops
    /// it.
    pub fn prepare_paths(&self, effects: &mut Vec<Effect>)
        ensures
            final(effects)@ == old(effects)@ + strider_path_effects(),
    {
        effects.push(Effect::AvoidGround(Ground::Water));
        effects.push(Effect::AllowGround(Ground::Lava));
        effects.push(Effect::AllowGround(Ground::NearFire));
        effects.push(Effect::AllowGround(Ground::Fire));
    }

    /// Whether mobs on the strider find their paths as it does.
    pub fn should_passengers_inherit_malus(&self) -> (inherit: bool)
        ensures
            inherit,
    {
        true
    }

    /// Whether water hurts the strider.
    pub fn mob_is_sensitive_to_water(&self) -> (sensitive: bool)
        ensures
            sensitive,
    {
        true
    }

    pub fn is_saddled(&self) -> (is: bool)
        ensures
            is == self.saddled,
    {
        self.saddled
    }

    pub fn set_saddled(&mut self, saddled: bool)
        ensures
            *final(self) == (StriderEntity { saddled, ..*old(self) }),
    {
        self.saddled = saddled;
    }

    pub fn can_be_saddled(&self, alive: bool) -> (can: bool)
        ensures
            can == alive,
    {
        alive
    }

    /// Whether a rider steers the strider, with a warped fungus on a stick.
    pub fn has_controlling_passenger(
        &self,
        cx: &SaddleContext,
        rider: Option<Rider>,
        otherwise: bool,
    ) -> (steered: bool)
        ensures
            steered == steers(
                self.mob_entity,
                *cx,
                rider,
                Item::WarpedFungusOnAStick,
                otherwise,
            ),
    {
        is_steered_with(&self.mob_entity, cx, rider, Item::WarpedFungusOnAStick, otherwise)
    }

    /// Lets a player mount the strider, or feed it. Where the interaction that all mobs share
    /// decides and does nothing, `put_saddle_on` follows.
    pub fn mob_interact(
        &mut self,
        cx: &SaddleContext,
        player: &Player,
        stack: &mut ItemStack,
        effects: &mut Vec<Effect>,
    ) -> (outcome: Interaction)
        requires
            grows(
                old(self).mob_entity,
                saddle_feeding(
                    old(stack).item == Item::WarpedFungus,
                    *cx,
                    Sound::StriderEat,
                ),
            ) ==> old(self).mob_entity.age > i32::MIN,
        ensures
            final(self).saddled == old(self).saddled,
            ({
                let mob = old(self).mob_entity;
                let food = old(stack).item == Item::WarpedFungus;
                let feeding = saddle_feeding(food, *cx, Sound::StriderEat);
                if mounts(mob, food, *cx, *player) {
                    &&& outcome == Interaction::Handled
                    &&& final(self).mob_entity == mob
                    &&& *final(stack) == *old(stack)
                    &&& final(effects)@ == old(effects)@.push(Effect::Mount { player: player.id })
                } else {
                    &&& outcome == meal_outcome(mob, feeding)
                    &&& final(self).mob_entity == fed(mob, feeding, *player)
                    &&& *final(stack) == stack_after_meal(
                        mob,
                        feeding,
                        *old(stack),
                        player.gamemode,
                    )
                    &&& final(effects)@ == old(effects)@ + feeding_effects(mob, feeding)
                }
            }),
    {
        let food = self.is_food(stack);
        ride_or_feed(
            &mut self.mob_entity,
            food,
            Sound::StriderEat,
            cx,
            player,
            stack,
            effects,
        )
    }

    /// Puts a saddle on the strider.
    pub fn put_saddle_on(
        &self,
        cx: &SaddleContext,
        player: &Player,
        stack: &mut ItemStack,
        effects: &mut Vec<Effect>,
    ) -> (outcome: Interaction)
        ensures
            outcome == saddling_outcome(self.mob_entity, *cx),
            *final(stack) == stack_after_saddling(
                self.mob_entity,
                *cx,
                *old(stack),
                player.gamemode,
            ),
            final(effects)@ == old(effects)@ + saddling_effects(
                self.mob_entity,
                *cx,
                *old(stack),
            ),
    {
        put_saddle_on(&self.mob_entity, cx, player, stack, effects)
    }

    /// Saves the strider.
    pub fn write_nbt(&self, nbt: &mut NbtCompound)
        ensures
            final(nbt)@ == strider_saved(old(nbt)@, *self),
    {
        write_animal_nbt(&self.mob_entity, nbt);
        nbt.put_bool("Saddle", self.is_saddled());
    }

    /// Restores the strider.
    pub fn read_nbt(&mut self, nbt: &NbtCompound)
        ensures
            *final(self) == strider_restored(*old(self), nbt@),
    {
        read_animal_nbt(&mut self.mob_entity, nbt);
        if let Some(saddle) = nbt.get_byte("Saddle") {
            self.set_saddled(saddle == 1);
        }
    }
}

/// What is saved of a strider.
pub open spec fn strider_saved(nbt: Map<Seq<char>, NbtValue>, strider: StriderEntity) -> Map<
    Seq<char>,
    NbtValue,
> {
    animal_saved(nbt, strider.mob_entity).insert("Saddle"@, bool_value(strider.saddled))
}

/// A strider with its saved state restored.
pub open spec fn strider_restored(
    strider: StriderEntity,
    nbt: Map<Seq<char>, NbtValue>,
) -> StriderEntity {
    StriderEntity {
        mob_entity: animal_restored(strider.mob_entity, nbt),
        saddled: match byte_at(nbt, "Saddle"@) {
            Some(saddle) => saddle == 1,
            None => strider.saddled,
        },
    }
}

/// Restoring a saved strider gives back its saddle.
pub proof fn law_strider_round_trip(
    nbt: Map<Seq<char>, NbtValue>,
    strider: StriderEntity,
    other: StriderEntity,
)
    ensures
        strider_restored(other, strider_saved(nbt, strider)).saddled == strider.saddled,
{
}

/// A strider is saddled by what was saved of it, else as it was.
pub proof fn law_saved_saddle_counts(strider: StriderEntity, nbt: Map<Seq<char>, NbtValue>)
    ensures
        byte_at(nbt, "Saddle"@) is None ==> strider_restored(strider, nbt).saddled == strider.saddled,
        byte_at(nbt, "Saddle"@) is Some ==> (strider_restored(strider, nbt).saddled <==> byte_at(
            nbt,
            "Saddle"@,
        )->0 == 1),
        bool_at(strider_saved(nbt, strider), "Saddle"@) == Some(strider.saddled),
{
}

/// Striders keep off water, and walk on lava and through fire.
pub proof fn law_where_striders_walk()
    ensures
        strider_path_effects().len() == 4,
        strider_path_effects().contains(Effect::AvoidGround(Ground::Water)),
        strider_path_effects().contains(Effect::AllowGround(Ground::Lava)),
        strider_path_effects().contains(Effect::AllowGround(Ground::NearFire)),
        strider_path_effects().contains(Effect::AllowGround(Ground::Fire)),
{
    assert(strider_path_effects()[0] == Effect::AvoidGround(Ground::Water));
    assert(strider_path_effects()[1] == Effect::AllowGround(Ground::Lava));
    assert(strider_path_effects()[2] == Effect::AllowGround(Ground::NearFire));
    assert(strider_path_effects()[3] == Effect::AllowGround(Ground::Fire));
}

/// What striders pursue, and how urgently: this and nothing else.
pub proof fn law_what_striders_pursue(e: GoalEntry)
    ensures
        strider_goals().contains(e) <==> {
            ||| e.priority == 1 && e.goal == (Goal::EscapeDanger { speed: 1650 })
            ||| e.priority == 2 && e.goal == (Goal::Breed { speed: 1000 })
            ||| e.priority == 3 && e.goal == (Goal::Tempt { speed: 1400, items: Diet::Strider, scared: false })
            ||| e.priority == 4 && e.goal == (Goal::StriderGoToLava { speed: 1000 })
            ||| e.priority == 5 && e.goal == (Goal::FollowParent { speed: 1000 })
            ||| e.priority == 7 && e.goal == (Goal::WanderAtInterval { speed: 1000, interval: 60 })
            ||| e.priority == 8 && e.goal == (Goal::LookAt { kind: EntityKind::Player, range: 8000 })
            ||| e.priority == 8 && e.goal == Goal::LookAround
            ||| e.priority == 9 && e.goal == (Goal::LookAt { kind: EntityKind::Strider, range: 8000 })
        },
        strider_goals().len() == 9,
{
    let all = strider_goals();
    assert(all[0] == (GoalEntry { priority: 1, goal: Goal::EscapeDanger { speed: 1650 } }));
    assert(all[1] == (GoalEntry { priority: 2, goal: Goal::Breed { speed: 1000 } }));
    assert(all[2] == (GoalEntry { priority: 3, goal: Goal::Tempt { speed: 1400, items: Diet::Strider, scared: false } }));
    assert(all[3] == (GoalEntry { priority: 4, goal: Goal::StriderGoToLava { speed: 1000 } }));
    assert(all[4] == (GoalEntry { priority: 5, goal: Goal::FollowParent { speed: 1000 } }));
    assert(all[5] == (GoalEntry { priority: 7, goal: Goal::WanderAtInterval { speed: 1000, interval: 60 } }));
    assert(all[6] == (GoalEntry { priority: 8, goal: Goal::LookAt { kind: EntityKind::Player, range: 8000 } }));
    assert(all[7] == (GoalEntry { priority: 8, goal: Goal::LookAround }));
    assert(all[8] == (GoalEntry { priority: 9, goal: Goal::LookAt { kind: EntityKind::Strider, range: 8000 } }));
}

} // verus!
