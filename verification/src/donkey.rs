//! Donkeys: horses that carry a chest.

use vstd::prelude::*;

use crate::animal::{animal_restored, animal_saved, newborn_id, read_animal_nbt, write_animal_nbt};
use crate::effect::{Effect, Interaction, Sound};
use crate::equine::{
    base_rules, carries_over, chest_size, chested_interacted, chested_mob_interact,
    chested_reaction, has_saddled_player_passenger, health_effects, horse_restore_effects,
    horse_restored, horse_saved, horse_ticked, inherit_attributes, inherited_attributes, is_saddled,
    jump_effect, known_parent, law_horse_round_trip, lemma_horse_names, new_horse_data,
    play_jump_sound, randomize_max_health, resized, saddle_slot_usable, same_kind, with_health,
    AbstractHorseData, ChestedHorseData, HorseAttributes, HorseContext, HorseReaction, HorseRules,
    HorseScene, Menu, ParentAttributes, GRAZE_ODDS,
};
use crate::goal::{entry, goal, look_at_player, watch_player, EntityKind, Goal, GoalEntry};
use crate::item::{Diet, ItemStack, Player};
use crate::mob::MobEntity;
use crate::nbt::{bool_at, bool_value, NbtCompound, NbtValue};
use crate::random::is_random_id;

verus! {

/// The rules of donkeys.
pub open spec fn donkey_rules() -> HorseRules {
    HorseRules {
        angry_sound: Some(Sound::DonkeyAngry),
        eating_sound: Some(Sound::DonkeyEat),
        ..base_rules()
    }
}

/// What a donkey pursues.
pub open spec fn donkey_goals() -> Seq<GoalEntry> {
    seq![
        entry(0, Goal::Swim),
        entry(1, Goal::RunAroundLikeCrazy { speed: 1200 }),
        entry(2, Goal::HorseBreed { speed: 1000 }),
        entry(3, Goal::Tempt { speed: 1250, items: Diet::Horse, scared: false }),
        entry(4, Goal::FollowHorseParent { speed: 1000 }),
        entry(6, Goal::WanderAvoidingWater { speed: 700 }),
        entry(7, look_at_player(6000)),
        entry(8, Goal::LookAround),
        entry(9, Goal::AmbientStand),
    ]
}

/// A donkey.
pub struct DonkeyEntity {
    pub mob_entity: MobEntity,
    pub horse_data: AbstractHorseData,
    pub chested_data: ChestedHorseData,
}

impl DonkeyEntity {
    /// A new donkey, whose health is drawn. `attributes` is what its kind is capable of by default.
    pub fn new(
        age: i32,
        attributes: HorseAttributes,
        effects: &mut Vec<Effect>,
    ) -> (donkey: Self)
        ensures
            donkey.mob_entity.fresh(age),
            donkey.mob_entity.goals@ == donkey_goals(),
            donkey.mob_entity.targets@ == Seq::<GoalEntry>::empty(),
            !donkey.chested_data.has_chest,
            donkey.chested_data.inventory@ == Seq::<ItemStack>::empty(),
            exists|health: u32|
                15 <= health <= 30 && donkey.horse_data == new_horse_data(
                    with_health(attributes, health),
                ) && final(effects)@ == old(effects)@ + #[trigger] health_effects(
                    attributes,
                    health,
                ),
    {
        let goals = vec![
            goal(0, Goal::Swim),
            goal(1, Goal::RunAroundLikeCrazy { speed: 1200 }),
            goal(2, Goal::HorseBreed { speed: 1000 }),
            goal(3, Goal::Tempt { speed: 1250, items: Diet::Horse, scared: false }),
            goal(4, Goal::FollowHorseParent { speed: 1000 }),
            goal(6, Goal::WanderAvoidingWater { speed: 700 }),
            goal(7, watch_player(6000)),
            goal(8, Goal::LookAround),
            goal(9, Goal::AmbientStand),
        ];
        let mut donkey = DonkeyEntity {
            mob_entity: MobEntity::with_goals(age, goals, Vec::new()),
            horse_data: AbstractHorseData::with_attributes(attributes),
            chested_data: ChestedHorseData::default(),
        };
        donkey.randomize_attributes(effects);
        donkey
    }

    /// The rules of donkeys.
    pub fn rules() -> (rules: HorseRules)
        ensures
            rules == donkey_rules(),
    {
        HorseRules {
            angry_sound: Some(Sound::DonkeyAngry),
            eating_sound: Some(Sound::DonkeyEat),
            ..HorseRules::base()
        }
    }

    /// Draws the health of a new donkey.
    pub fn randomize_attributes(&mut self, effects: &mut Vec<Effect>)
        ensures
            exists|health: u32|
                15 <= health <= 30 && *final(self) == (DonkeyEntity {
                    horse_data: AbstractHorseData {
                        attributes: with_health(old(self).horse_data.attributes, health),
                        ..old(self).horse_data
                    },
                    ..*old(self)
                }) && final(effects)@ == old(effects)@ + #[trigger] health_effects(
                    old(self).horse_data.attributes,
                    health,
                ),
    {
        randomize_max_health(&mut self.horse_data, effects);
    }

    /// One tick: the donkey may graze, and comes down if it rears.
    pub fn mob_tick(&mut self, is_vehicle: bool, grass_below: bool)
        requires
            old(self).horse_data.wf(),
        ensures
            final(self).mob_entity == old(self).mob_entity,
            final(self).chested_data == old(self).chested_data,
            final(self).horse_data.wf(),
            exists|draw: int|
                0 <= draw < GRAZE_ODDS && final(self).horse_data == #[trigger] horse_ticked(
                    old(self).horse_data,
                    donkey_rules(),
                    is_vehicle,
                    grass_below,
                    draw,
                ),
    {
        let rules = Self::rules();
        self.horse_data.tick_horse_ai(&rules, is_vehicle, grass_below);
    }

    /// Whether the first rider controls the donkey: a player does once it is saddled; `otherwise`
    /// is what holds of mobs in general.
    pub fn has_controlling_passenger(
        &self,
        cx: &HorseContext,
        first_passenger_is_player: bool,
        otherwise: bool,
    ) -> (controlled: bool)
        ensures
            controlled == (saddle_slot_usable(self.mob_entity, cx.alive) && cx.wears_saddle
                && first_passenger_is_player || otherwise),
    {
        let saddled = is_saddled(&self.mob_entity, cx.alive, cx.wears_saddle);
        has_saddled_player_passenger(saddled, first_passenger_is_player, otherwise)
    }

    /// Plays the sound of the donkey jumping with its rider.
    pub fn play_jump_sound(&self, effects: &mut Vec<Effect>)
        ensures
            final(effects)@ == old(effects)@.push(jump_effect(donkey_rules())),
    {
        let rules = Self::rules();
        play_jump_sound(&rules, effects);
    }

    /// Lets a player use an item on the donkey.
    pub fn mob_interact(
        &mut self,
        cx: &HorseContext,
        player: &Player,
        stack: &mut ItemStack,
        effects: &mut Vec<Effect>,
    ) -> (outcome: Interaction)
        ensures
            (HorseScene {
                mob: final(self).mob_entity,
                data: final(self).horse_data,
                stack: *final(stack),
                effects: final(effects)@,
                outcome,
            }) == chested_interacted(
                (HorseScene {
                    mob: old(self).mob_entity,
                    data: old(self).horse_data,
                    stack: *old(stack),
                    effects: old(effects)@,
                    outcome,
                }),
                old(self).chested_data.has_chest,
                donkey_rules(),
                *cx,
                *player,
            ),
            old(self).horse_data.wf() ==> final(self).horse_data.wf(),
            ({
                let reaction = chested_reaction(
                    old(self).mob_entity,
                    old(self).chested_data.has_chest,
                    *cx,
                    *player,
                    *old(stack),
                );
                if reaction == HorseReaction::TakeChest {
                    &&& final(self).chested_data.has_chest
                    &&& final(self).chested_data.inventory@ == resized(
                        old(self).chested_data.inventory@,
                        chest_size(true, 5),
                    )
                } else {
                    final(self).chested_data == old(self).chested_data
                }
            }),
    {
        let rules = Self::rules();
        chested_mob_interact(
            &mut self.mob_entity,
            &mut self.horse_data,
            &mut self.chested_data,
            5,
            &rules,
            cx,
            player,
            stack,
            effects,
        )
    }

    /// The foal of a donkey, with its identifier. What it is capable of is drawn from its
    /// parents, whatever the second one is; the effects are those of the foal.
    pub fn create_offspring(
        attributes: HorseAttributes,
        own: &ParentAttributes,
        other: Option<&ParentAttributes>,
        effects: &mut Vec<Effect>,
    ) -> (born: (u128, DonkeyEntity))
        ensures
            is_random_id(born.0),
            born.1.mob_entity.fresh(0),
            born.1.mob_entity.goals@ == donkey_goals(),
            born.1.mob_entity.targets@ == Seq::<GoalEntry>::empty(),
            !born.1.chested_data.has_chest,
            born.1.chested_data.inventory@ == Seq::<ItemStack>::empty(),
            exists|health: u32|
                15 <= health <= 30 && born.1.horse_data == new_horse_data(
                    with_health(attributes, health),
                ) && final(effects)@ == old(effects)@ + #[trigger] health_effects(
                    attributes,
                    health,
                ) + inherited_attributes(*own, known_parent(other)),
    {
        let foal = DonkeyEntity::new(0, attributes, effects);
        inherit_attributes(own, other, effects);
        (newborn_id(), foal)
    }

    /// Saves the donkey.
    pub fn write_nbt(&self, nbt: &mut NbtCompound)
        ensures
            final(nbt)@ == donkey_saved(old(nbt)@, *self),
    {
        write_animal_nbt(&self.mob_entity, nbt);
        self.horse_data.write_horse_nbt(nbt);
        self.chested_data.write_chested_horse_nbt(nbt);
    }

    /// Restores the donkey.
    pub fn read_nbt(&mut self, nbt: &NbtCompound, effects: &mut Vec<Effect>)
        ensures
            final(effects)@ == old(effects)@ + horse_restore_effects(
                old(self).horse_data.attributes,
                nbt@,
            ),
            final(self).mob_entity == animal_restored(old(self).mob_entity, nbt@),
            final(self).horse_data == horse_restored(old(self).horse_data, nbt@),
            final(self).chested_data.has_chest == (bool_at(nbt@, "ChestedHorse"@) == Some(true)),
            final(self).chested_data.inventory@ == resized(
                old(self).chested_data.inventory@,
                chest_size(bool_at(nbt@, "ChestedHorse"@) == Some(true), 5),
            ),
    {
        read_animal_nbt(&mut self.mob_entity, nbt);
        self.horse_data.read_horse_nbt(nbt, effects);
        self.chested_data.read_chested_horse_nbt(nbt, 5);
    }
}

/// What is saved of a donkey.
pub open spec fn donkey_saved(nbt: Map<Seq<char>, NbtValue>, donkey: DonkeyEntity) -> Map<
    Seq<char>,
    NbtValue,
> {
    horse_saved(animal_saved(nbt, donkey.mob_entity), donkey.horse_data).insert(
        "ChestedHorse"@,
        bool_value(donkey.chested_data.has_chest),
    )
}

/// A saved donkey with a chest is restored with one, and one without is restored without. Whether
/// it eats, whether it was bred, its temper and what it is capable of come back too.
pub proof fn law_donkey_round_trip(
    nbt: Map<Seq<char>, NbtValue>,
    donkey: DonkeyEntity,
    other: AbstractHorseData,
)
    ensures
        (bool_at(donkey_saved(nbt, donkey), "ChestedHorse"@) == Some(true))
            == donkey.chested_data.has_chest,
        ({
            let back = horse_restored(other, donkey_saved(nbt, donkey));
            &&& carries_over(back, donkey.horse_data)
            &&& same_kind(donkey.horse_data.attributes, other.attributes) ==> back.attributes
                == donkey.horse_data.attributes
        }),
{
    reveal_strlit("ChestedHorse");
    lemma_horse_names();
    assert("ChestedHorse"@.len() == 12);
    let animal = animal_saved(nbt, donkey.mob_entity);
    law_horse_round_trip(animal, donkey.horse_data, other);
    assert(horse_restored(other, donkey_saved(nbt, donkey)) == horse_restored(
        other,
        horse_saved(animal, donkey.horse_data),
    ));
}

/// A donkey has the temper and the manners of all horses, and a voice of its own.
pub proof fn law_rules_of_donkeys()
    ensures
        donkey_rules().max_temper == 100,
        donkey_rules().can_rear && donkey_rules().can_eat_grass && donkey_rules().can_fall_in_love,
        donkey_rules().menu == Menu::Horse,
        donkey_rules().eating_sound == Some(Sound::DonkeyEat),
        donkey_rules().angry_sound == Some(Sound::DonkeyAngry),
        donkey_rules().chest_sound == Sound::DonkeyChest,
        donkey_rules().jump_sound == Sound::HorseJump,
{
}

/// What donkeys pursue, and how urgently: this and nothing else.
pub proof fn law_what_donkeys_pursue(e: GoalEntry)
    ensures
        donkey_goals().contains(e) <==> {
            ||| e.priority == 0 && e.goal == Goal::Swim
            ||| e.priority == 1 && e.goal == (Goal::RunAroundLikeCrazy { speed: 1200 })
            ||| e.priority == 2 && e.goal == (Goal::HorseBreed { speed: 1000 })
            ||| e.priority == 3 && e.goal == (Goal::Tempt { speed: 1250, items: Diet::Horse, scared: false })
            ||| e.priority == 4 && e.goal == (Goal::FollowHorseParent { speed: 1000 })
            ||| e.priority == 6 && e.goal == (Goal::WanderAvoidingWater { speed: 700 })
            ||| e.priority == 7 && e.goal == (Goal::LookAt { kind: EntityKind::Player, range: 6000 })
            ||| e.priority == 8 && e.goal == Goal::LookAround
            ||| e.priority == 9 && e.goal == Goal::AmbientStand
        },
        donkey_goals().len() == 9,
{
    let all = donkey_goals();
    assert(all[0] == (GoalEntry { priority: 0, goal: Goal::Swim }));
    assert(all[1] == (GoalEntry { priority: 1, goal: Goal::RunAroundLikeCrazy { speed: 1200 } }));
    assert(all[2] == (GoalEntry { priority: 2, goal: Goal::HorseBreed { speed: 1000 } }));
    assert(all[3] == (GoalEntry { priority: 3, goal: Goal::Tempt { speed: 1250, items: Diet::Horse, scared: false } }));
    assert(all[4] == (GoalEntry { priority: 4, goal: Goal::FollowHorseParent { speed: 1000 } }));
    assert(all[5] == (GoalEntry { priority: 6, goal: Goal::WanderAvoidingWater { speed: 700 } }));
    assert(all[6] == (GoalEntry { priority: 7, goal: Goal::LookAt { kind: EntityKind::Player, range: 6000 } }));
    assert(all[7] == (GoalEntry { priority: 8, goal: Goal::LookAround }));
    assert(all[8] == (GoalEntry { priority: 9, goal: Goal::AmbientStand }));
}

} // verus!
