//! Mules: the foals of horses and donkeys.

use vstd::prelude::*;

use crate::animal::{animal_restored, animal_saved, read_animal_nbt, write_animal_nbt};
use crate::effect::{Effect, Interaction, Sound};
use crate::equine::{
    base_rules, carries_over, chest_size, chested_interacted, chested_mob_interact,
    chested_reaction, has_saddled_player_passenger, health_effects, horse_restore_effects,
    horse_restored, horse_saved, horse_ticked, is_saddled, jump_effect, law_horse_round_trip,
    lemma_horse_names, new_horse_data, play_jump_sound, randomize_max_health, resized,
    saddle_slot_usable, same_kind, with_health, AbstractHorseData, ChestedHorseData,
    HorseAttributes, HorseContext, HorseReaction, HorseRules, HorseScene, Menu, GRAZE_ODDS,
};
use crate::goal::{entry, goal, look_at_player, watch_player, EntityKind, Goal, GoalEntry};
use crate::item::{Diet, ItemStack, Player};
use crate::mob::MobEntity;
use crate::nbt::{bool_at, bool_value, NbtCompound, NbtValue};

verus! {

/// The rules of mules.
pub open spec fn mule_rules() -> HorseRules {
    HorseRules {
        angry_sound: Some(Sound::MuleAngry),
        eating_sound: Some(Sound::MuleEat),
        chest_sound: Sound::MuleChest,
        jump_sound: Sound::MuleJump,
        ..base_rules()
    }
}

/// What a mule pursues.
pub open spec fn mule_goals() -> Seq<GoalEntry> {
    seq![
        entry(0, Goal::Swim),
        entry(1, Goal::RunAroundLikeCrazy { speed: 1200 }),
        entry(3, Goal::Tempt { speed: 1250, items: Diet::Horse, scared: false }),
        entry(4, Goal::FollowParent { speed: 1000 }),
        entry(6, Goal::WanderAvoidingWater { speed: 700 }),
        entry(7, look_at_player(6000)),
        entry(8, Goal::LookAround),
        entry(9, Goal::AmbientStand),
    ]
}

/// A mule.
pub struct MuleEntity {
    pub mob_entity: MobEntity,
    pub horse_data: AbstractHorseData,
    pub chested_data: ChestedHorseData,
}

impl MuleEntity {
    /// A new mule, whose health is drawn. `attributes` is what its kind is capable of by default.
    pub fn new(
        age: i32,
        attributes: HorseAttributes,
        effects: &mut Vec<Effect>,
    ) -> (mule: Self)
        ensures
            mule.mob_entity.fresh(age),
            mule.mob_entity.goals@ == mule_goals(),
            mule.mob_entity.targets@ == Seq::<GoalEntry>::empty(),
            !mule.chested_data.has_chest,
            mule.chested_data.inventory@ == Seq::<ItemStack>::empty(),
            exists|health: u32|
                15 <= health <= 30 && mule.horse_data == new_horse_data(
                    with_health(attributes, health),
                ) && final(effects)@ == old(effects)@ + #[trigger] health_effects(
                    attributes,
                    health,
                ),
    {
        let goals = vec![
            goal(0, Goal::Swim),
            goal(1, Goal::RunAroundLikeCrazy { speed: 1200 }),
            goal(3, Goal::Tempt { speed: 1250, items: Diet::Horse, scared: false }),
            goal(4, Goal::FollowParent { speed: 1000 }),
            goal(6, Goal::WanderAvoidingWater { speed: 700 }),
            goal(7, watch_player(6000)),
            goal(8, Goal::LookAround),
            goal(9, Goal::AmbientStand),
        ];
        let mut mule = MuleEntity {
            mob_entity: MobEntity::with_goals(age, goals, Vec::new()),
            horse_data: AbstractHorseData::with_attributes(attributes),
            chested_data: ChestedHorseData::default(),
        };
        mule.randomize_attributes(effects);
        mule
    }

    /// The rules of mules.
    pub fn rules() -> (rules: HorseRules)
        ensures
            rules == mule_rules(),
    {
        HorseRules {
            angry_sound: Some(Sound::MuleAngry),
            eating_sound: Some(Sound::MuleEat),
            chest_sound: Sound::MuleChest,
            jump_sound: Sound::MuleJump,
            ..HorseRules::base()
        }
    }

    /// Draws the health of a new mule.
    pub fn randomize_attributes(&mut self, effects: &mut Vec<Effect>)
        ensures
            exists|health: u32|
                15 <= health <= 30 && *final(self) == (MuleEntity {
                    horse_data: AbstractHorseData {
                        attributes: with_health(old(self).horse_data.attributes, health),
                        ..old(self).horse_data
                    },
                    ..*old(self)
                }) && final(effects)@ == old(effects)@ + #[trigger] health_effects(
                    old(self).horse_data.attributes,
                    health,
                ),
    {
        randomize_max_health(&mut self.horse_data, effects);
    }

    /// One tick: the mule may graze, and comes down if it rears.
    pub fn mob_tick(&mut self, is_vehicle: bool, grass_below: bool)
        requires
            old(self).horse_data.wf(),
        ensures
            final(self).mob_entity == old(self).mob_entity,
            final(self).chested_data == old(self).chested_data,
            final(self).horse_data.wf(),
            exists|draw: int|
                0 <= draw < GRAZE_ODDS && final(self).horse_data == #[trigger] horse_ticked(
                    old(self).horse_data,
                    mule_rules(),
                    is_vehicle,
                    grass_below,
                    draw,
                ),
    {
        let rules = Self::rules();
        self.horse_data.tick_horse_ai(&rules, is_vehicle, grass_below);
    }

    /// Whether the first rider controls the mule: a player does once it is saddled; `otherwise`
    /// is what holds of mobs in general.
    pub fn has_controlling_passenger(
        &self,
        cx: &HorseContext,
        first_passenger_is_player: bool,
        otherwise: bool,
    ) -> (controlled: bool)
        ensures
            controlled == (saddle_slot_usable(self.mob_entity, cx.alive) && cx.wears_saddle
                && first_passenger_is_player || otherwise),
    {
        let saddled = is_saddled(&self.mob_entity, cx.alive, cx.wears_saddle);
        has_saddled_player_passenger(saddled, first_passenger_is_player, otherwise)
    }

    /// Plays the sound of the mule jumping with its rider.
    pub fn play_jump_sound(&self, effects: &mut Vec<Effect>)
        ensures
            final(effects)@ == old(effects)@.push(jump_effect(mule_rules())),
    {
        let rules = Self::rules();
        play_jump_sound(&rules, effects);
    }

    /// Lets a player use an item on the mule.
    pub fn mob_interact(
        &mut self,
        cx: &HorseContext,
        player: &Player,
        stack: &mut ItemStack,
        effects: &mut Vec<Effect>,
    ) -> (outcome: Interaction)
        ensures
            (HorseScene {
                mob: final(self).mob_entity,
                data: final(self).horse_data,
                stack: *final(stack),
                effects: final(effects)@,
                outcome,
            }) == chested_interacted(
                (HorseScene {
                    mob: old(self).mob_entity,
                    data: old(self).horse_data,
                    stack: *old(stack),
                    effects: old(effects)@,
                    outcome,
                }),
                old(self).chested_data.has_chest,
                mule_rules(),
                *cx,
                *player,
            ),
            old(self).horse_data.wf() ==> final(self).horse_data.wf(),
            ({
                let reaction = chested_reaction(
                    old(self).mob_entity,
                    old(self).chested_data.has_chest,
                    *cx,
                    *player,
                    *old(stack),
                );
                if reaction == HorseReaction::TakeChest {
                    &&& final(self).chested_data.has_chest
                    &&& final(self).chested_data.inventory@ == resized(
                        old(self).chested_data.inventory@,
                        chest_size(true, 5),
                    )
                } else {
                    final(self).chested_data == old(self).chested_data
                }
            }),
    {
        let rules = Self::rules();
        chested_mob_interact(
            &mut self.mob_entity,
            &mut self.horse_data,
            &mut self.chested_data,
            5,
            &rules,
            cx,
            player,
            stack,
            effects,
        )
    }

    /// Saves the mule.
    pub fn write_nbt(&self, nbt: &mut NbtCompound)
        ensures
            final(nbt)@ == mule_saved(old(nbt)@, *self),
    {
        write_animal_nbt(&self.mob_entity, nbt);
        self.horse_data.write_horse_nbt(nbt);
        self.chested_data.write_chested_horse_nbt(nbt);
    }

    /// Restores the mule.
    pub fn read_nbt(&mut self, nbt: &NbtCompound, effects: &mut Vec<Effect>)
        ensures
            final(effects)@ == old(effects)@ + horse_restore_effects(
                old(self).horse_data.attributes,
                nbt@,
            ),
            final(self).mob_entity == animal_restored(old(self).mob_entity, nbt@),
            final(self).horse_data == horse_restored(old(self).horse_data, nbt@),
            final(self).chested_data.has_chest == (bool_at(nbt@, "ChestedHorse"@) == Some(true)),
            final(self).chested_data.inventory@ == resized(
                old(self).chested_data.inventory@,
                chest_size(bool_at(nbt@, "ChestedHorse"@) == Some(true), 5),
            ),
    {
        read_animal_nbt(&mut self.mob_entity, nbt);
        self.horse_data.read_horse_nbt(nbt, effects);
        self.chested_data.read_chested_horse_nbt(nbt, 5);
    }
}

/// What is saved of a mule.
pub open spec fn mule_saved(nbt: Map<Seq<char>, NbtValue>, mule: MuleEntity) -> Map<
    Seq<char>,
    NbtValue,
> {
    horse_saved(animal_saved(nbt, mule.mob_entity), mule.horse_data).insert(
        "ChestedHorse"@,
        bool_value(mule.chested_data.has_chest),
    )
}

/// A saved mule with a chest is restored with one, and one without is restored without. Whether
/// it eats, whether it was bred, its temper and what it is capable of come back too.
pub proof fn law_mule_round_trip(
    nbt: Map<Seq<char>, NbtValue>,
    mule: MuleEntity,
    other: AbstractHorseData,
)
    ensures
        (bool_at(mule_saved(nbt, mule), "ChestedHorse"@) == Some(true))
            == mule.chested_data.has_chest,
        ({
            let back = horse_restored(other, mule_saved(nbt, mule));
            &&& carries_over(back, mule.horse_data)
            &&& same_kind(mule.horse_data.attributes, other.attributes) ==> back.attributes
                == mule.horse_data.attributes
        }),
{
    reveal_strlit("ChestedHorse");
    lemma_horse_names();
    assert("ChestedHorse"@.len() == 12);
    let animal = animal_saved(nbt, mule.mob_entity);
    law_horse_round_trip(animal, mule.horse_data, other);
    assert(horse_restored(other, mule_saved(nbt, mule)) == horse_restored(
        other,
        horse_saved(animal, mule.horse_data),
    ));
}

/// A mule has the temper and the manners of all horses, and a voice of its own.
pub proof fn law_rules_of_mules()
    ensures
        mule_rules().max_temper == 100,
        mule_rules().can_rear && mule_rules().can_eat_grass && mule_rules().can_fall_in_love,
        mule_rules().menu == Menu::Horse,
        mule_rules().eating_sound == Some(Sound::MuleEat),
        mule_rules().angry_sound == Some(Sound::MuleAngry),
        mule_rules().chest_sound == Sound::MuleChest,
        mule_rules().jump_sound == Sound::MuleJump,
{
}

/// What mules pursue, and how urgently: this and nothing else.
pub proof fn law_what_mules_pursue(e: GoalEntry)
    ensures
        mule_goals().contains(e) <==> {
            ||| e.priority == 0 && e.goal == Goal::Swim
            ||| e.priority == 1 && e.goal == (Goal::RunAroundLikeCrazy { speed: 1200 })
            ||| e.priority == 3 && e.goal == (Goal::Tempt { speed: 1250, items: Diet::Horse, scared: false })
            ||| e.priority == 4 && e.goal == (Goal::FollowParent { speed: 1000 })
            ||| e.priority == 6 && e.goal == (Goal::WanderAvoidingWater { speed: 700 })
            ||| e.priority == 7 && e.goal == (Goal::LookAt { kind: EntityKind::Player, range: 6000 })
            ||| e.priority == 8 && e.goal == Goal::LookAround
            ||| e.priority == 9 && e.goal == Goal::AmbientStand
        },
        mule_goals().len() == 8,
{
    let all = mule_goals();
    assert(all[0] == (GoalEntry { priority: 0, goal: Goal::Swim }));
    assert(all[1] == (GoalEntry { priority: 1, goal: Goal::RunAroundLikeCrazy { speed: 1200 } }));
    assert(all[2] == (GoalEntry { priority: 3, goal: Goal::Tempt { speed: 1250, items: Diet::Horse, scared: false } }));
    assert(all[3] == (GoalEntry { priority: 4, goal: Goal::FollowParent { speed: 1000 } }));
    assert(all[4] == (GoalEntry { priority: 6, goal: Goal::WanderAvoidingWater { speed: 700 } }));
    assert(all[5] == (GoalEntry { priority: 7, goal: Goal::LookAt { kind: EntityKind::Player, range: 6000 } }));
    assert(all[6] == (GoalEntry { priority: 8, goal: Goal::LookAround }));
    assert(all[7] == (GoalEntry { priority: 9, goal: Goal::AmbientStand }));
}

} // verus!
