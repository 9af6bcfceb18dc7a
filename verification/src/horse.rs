//! Horses: coats and markings.

use vstd::prelude::*;

use crate::animal::{animal_restored, animal_saved, read_animal_nbt, write_animal_nbt};
use crate::effect::{group_effects, Effect, Interaction, Sound, SyncedValue};
use crate::equine::{
    abstract_horse_mob_interact, base_rules, carries_over, generate_max_health, horse_interacted,
    horse_restore_effects, horse_restored, horse_saved, inherit_attributes, inherited_attributes,
    known_parent, law_horse_round_trip, lemma_horse_names, max_health_effects, new_horse_data,
    same_kind, set_max_health, with_health, AbstractHorseData, HorseAttributes, HorseContext,
    HorseRules, HorseScene, Menu, ParentAttributes,
};
use crate::goal::{entry, goal, look_at_player, watch_player, EntityKind, Goal, GoalEntry};
use crate::item::{Diet, ItemStack, Player};
use crate::mob::MobEntity;
use crate::nbt::{int_at, NbtCompound, NbtValue};
use crate::random::roll;

verus! {

/// How many coats there are.
pub const VARIANT_COUNT: u8 = 7;

/// How many markings there are.
pub const MARKINGS_COUNT: u8 = 5;

/// A coat and markings in one number: the coat in the low byte, the markings in the high one.
pub open spec fn packed(variant: u8, markings: u8) -> u16 {
    (variant + 256 * markings) as u16
}

/// The coat in a number.
pub open spec fn packed_variant(number: u16) -> u8 {
    (number % 256) as u8
}

/// The markings in a number.
pub open spec fn packed_markings(number: u16) -> u8 {
    (number / 256) as u8
}

/// A coat and markings that were packed into a number come out of it again.
pub proof fn law_packing_round_trip(variant: u8, markings: u8)
    ensures
        packed_variant(packed(variant, markings)) == variant,
        packed_markings(packed(variant, markings)) == markings,
{
}

/// The rules of horses.
pub open spec fn horse_rules() -> HorseRules {
    HorseRules {
        angry_sound: Some(Sound::HorseAngry),
        eating_sound: Some(Sound::HorseEat),
        ..base_rules()
    }
}

/// What a horse pursues.
pub open spec fn horse_goals() -> Seq<GoalEntry> {
    seq![
        entry(0, Goal::Swim),
        entry(1, Goal::RunAroundLikeCrazy { speed: 1200 }),
        entry(2, Goal::HorseBreed { speed: 1000 }),
        entry(3, Goal::Tempt { speed: 1250, items: Diet::Horse, scared: false }),
        entry(4, Goal::FollowParent { speed: 1000 }),
        entry(6, Goal::WanderAvoidingWater { speed: 700 }),
        entry(7, look_at_player(6000)),
        entry(8, Goal::LookAround),
        entry(9, Goal::AmbientStand),
    ]
}

/// Whom a horse, or a donkey, breeds with.
pub open spec fn breeds_with(kind: EntityKind) -> bool {
    kind == EntityKind::Horse || kind == EntityKind::Donkey
}

/// Whether a horse, or a donkey, breeds with a mob of a kind.
pub fn is_compatible_mate(kind: EntityKind) -> (compatible: bool)
    ensures
        compatible == breeds_with(kind),
{
    kind == EntityKind::Horse || kind == EntityKind::Donkey
}

/// A horse.
pub struct HorseEntity {
    pub mob_entity: MobEntity,
    pub horse_data: AbstractHorseData,
    /// The coat and the markings in one number.
    pub variant_and_markings: u16,
}

/// What chance decides about the looks of a foal.
#[derive(Clone, Copy)]
pub struct FoalDraws {
    /// Among nine: whose coat it has.
    pub coat_from: i32,
    /// The coat that neither parent gave.
    pub new_coat: u8,
    /// Among five: whose markings it has.
    pub markings_from: i32,
    /// The markings that neither parent gave.
    pub new_markings: u8,
}

/// Whether draws are among the possible ones.
pub open spec fn foal_draws_valid(draws: FoalDraws) -> bool {
    &&& 0 <= draws.coat_from < 9
    &&& draws.new_coat < VARIANT_COUNT
    &&& 0 <= draws.markings_from < 5
    &&& draws.new_markings < MARKINGS_COUNT
}

/// The looks of a foal of two horses.
pub open spec fn foal_looks(first: u16, second: u16, draws: FoalDraws) -> u16 {
    packed(
        if draws.coat_from < 4 {
            packed_variant(first)
        } else if draws.coat_from < 8 {
            packed_variant(second)
        } else {
            draws.new_coat
        },
        if draws.markings_from < 2 {
            packed_markings(first)
        } else if draws.markings_from < 4 {
            packed_markings(second)
        } else {
            draws.new_markings
        },
    )
}

/// Drawing the body of a horse, as far as its kind has the attributes, and then giving it all
/// the health it can have.
pub open spec fn body_effects(attributes: HorseAttributes, health: u32) -> Seq<Effect> {
    max_health_effects(attributes, health) + (if attributes.speed is Some {
        seq![Effect::RollSpeed]
    } else {
        seq![]
    }) + (if attributes.jump_strength is Some {
        seq![Effect::RollJumpStrength]
    } else {
        seq![]
    }) + seq![Effect::FillHealth]
}

/// A horse with a drawn health.
pub open spec fn with_body(horse: HorseEntity, health: u32) -> HorseEntity {
    HorseEntity {
        horse_data: AbstractHorseData {
            attributes: with_health(horse.horse_data.attributes, health),
            ..horse.horse_data
        },
        ..horse
    }
}

impl HorseEntity {
    /// A horse with a coat and markings, of a kind with attributes.
    pub fn with_looks(
        age: i32,
        attributes: HorseAttributes,
        variant: u8,
        markings: u8,
    ) -> (horse: Self)
        ensures
            horse.mob_entity.fresh(age),
            horse.mob_entity.goals@ == horse_goals(),
            horse.mob_entity.targets@ == Seq::<GoalEntry>::empty(),
            horse.horse_data == new_horse_data(attributes),
            horse.variant_and_markings == packed(variant, markings),
    {
        let goals = vec![
            goal(0, Goal::Swim),
            goal(1, Goal::RunAroundLikeCrazy { speed: 1200 }),
            goal(2, Goal::HorseBreed { speed: 1000 }),
            goal(3, Goal::Tempt { speed: 1250, items: Diet::Horse, scared: false }),
            goal(4, Goal::FollowParent { speed: 1000 }),
            goal(6, Goal::WanderAvoidingWater { speed: 700 }),
            goal(7, watch_player(6000)),
            goal(8, Goal::LookAround),
            goal(9, Goal::AmbientStand),
        ];
        HorseEntity {
            mob_entity: MobEntity::with_goals(age, goals, Vec::new()),
            horse_data: AbstractHorseData::with_attributes(attributes),
            variant_and_markings: variant as u16 + 256 * markings as u16,
        }
    }

    /// A new horse, whose looks and whose body are drawn. `attributes` is what its kind is
    /// capable of by default.
    pub fn new(
        age: i32,
        attributes: HorseAttributes,
        effects: &mut Vec<Effect>,
    ) -> (horse: Self)
        ensures
            horse.mob_entity.fresh(age),
            horse.mob_entity.goals@ == horse_goals(),
            horse.mob_entity.targets@ == Seq::<GoalEntry>::empty(),
            packed_variant(horse.variant_and_markings) < VARIANT_COUNT,
            packed_markings(horse.variant_and_markings) < MARKINGS_COUNT,
            exists|health: u32|
                15 <= health <= 30 && horse.horse_data == new_horse_data(
                    with_health(attributes, health),
                ) && final(effects)@ == old(effects)@ + #[trigger] body_effects(attributes, health),
    {
        let variant: i32 = roll(0, VARIANT_COUNT as i32);
        let markings: i32 = roll(0, MARKINGS_COUNT as i32);
        proof {
            law_packing_round_trip(variant as u8, markings as u8);
        }
        let mut horse = Self::with_looks(age, attributes, variant as u8, markings as u8);
        horse.randomize_attributes(effects);
        horse
    }

    /// The rules of horses.
    pub fn rules() -> (rules: HorseRules)
        ensures
            rules == horse_rules(),
    {
        HorseRules {
            angry_sound: Some(Sound::HorseAngry),
            eating_sound: Some(Sound::HorseEat),
            ..HorseRules::base()
        }
    }

    /// Gives a new horse a body: its health, and what the host draws of its speed and of how high
    /// it jumps.
    pub fn set_body(&mut self, health: u32, effects: &mut Vec<Effect>)
        requires
            15 <= health <= 30,
        ensures
            *final(self) == with_body(*old(self), health),
            final(effects)@ == old(effects)@ + body_effects(old(self).horse_data.attributes, health),
    {
        set_max_health(&mut self.horse_data, health, effects);
        if self.horse_data.attributes.speed.is_some() {
            effects.push(Effect::RollSpeed);
        }
        if self.horse_data.attributes.jump_strength.is_some() {
            effects.push(Effect::RollJumpStrength);
        }
        effects.push(Effect::FillHealth);
        assert(effects@ =~= old(effects)@ + body_effects(
            old(self).horse_data.attributes,
            health,
        ));
    }

    /// Draws the body of a new horse.
    pub fn randomize_attributes(&mut self, effects: &mut Vec<Effect>)
        ensures
            exists|health: u32|
                15 <= health <= 30 && *final(self) == with_body(*old(self), health)
                    && final(effects)@ == old(effects)@ + #[trigger] body_effects(
                    old(self).horse_data.attributes,
                    health,
                ),
    {
        let health: i32 = generate_max_health();
        self.set_body(health as u32, effects);
    }

    pub fn variant(&self) -> (variant: u8)
        ensures
            variant == packed_variant(self.variant_and_markings),
    {
        (self.variant_and_markings % 256) as u8
    }

    pub fn markings(&self) -> (markings: u8)
        ensures
            markings == packed_markings(self.variant_and_markings),
    {
        (self.variant_and_markings / 256) as u8
    }

    pub fn set_variant_and_markings(&mut self, variant: u8, markings: u8)
        ensures
            *final(self) == (HorseEntity {
                variant_and_markings: packed(variant, markings),
                ..*old(self)
            }),
    {
        self.variant_and_markings = variant as u16 + 256 * markings as u16;
    }

    /// Gives a foal the looks of its parents, for draws.
    pub fn inherit(&mut self, first: &HorseEntity, second: &HorseEntity, draws: &FoalDraws)
        ensures
            *final(self) == (HorseEntity {
                variant_and_markings: foal_looks(
                    first.variant_and_markings,
                    second.variant_and_markings,
                    *draws,
                ),
                ..*old(self)
            }),
    {
        let variant: u8 = if draws.coat_from < 4 {
            first.variant()
        } else if draws.coat_from < 8 {
            second.variant()
        } else {
            draws.new_coat
        };
        let markings: u8 = if draws.markings_from < 2 {
            first.markings()
        } else if draws.markings_from < 4 {
            second.markings()
        } else {
            draws.new_markings
        };
        self.set_variant_and_markings(variant, markings);
    }

    /// Gives a foal its looks, those of two horses, or else it keeps the ones it was born with;
    /// and draws what it is capable of, whatever its second parent is.
    pub fn create_offspring(
        &mut self,
        first: &HorseEntity,
        mate: Option<&HorseEntity>,
        own: &ParentAttributes,
        other: Option<&ParentAttributes>,
        effects: &mut Vec<Effect>,
    )
        ensures
            final(effects)@ == old(effects)@ + inherited_attributes(*own, known_parent(other)),
            match mate {
                Some(second) => exists|draws: FoalDraws|
                    foal_draws_valid(draws) && *final(self) == (HorseEntity {
                        variant_and_markings: #[trigger] foal_looks(
                            first.variant_and_markings,
                            second.variant_and_markings,
                            draws,
                        ),
                        ..*old(self)
                    }),
                None => *final(self) == *old(self),
            },
    {
        if let Some(second) = mate {
            let coat_from: i32 = roll(0, 9);
            let new_coat: i32 = roll(0, VARIANT_COUNT as i32);
            let markings_from: i32 = roll(0, 5);
            let new_markings: i32 = roll(0, MARKINGS_COUNT as i32);
            let draws = FoalDraws {
                coat_from,
                new_coat: new_coat as u8,
                markings_from,
                new_markings: new_markings as u8,
            };
            self.inherit(first, second, &draws);
            assert(foal_draws_valid(draws));
        }
        inherit_attributes(own, other, effects);
    }

    /// Lets a player use an item on the horse.
    pub fn mob_interact(
        &mut self,
        cx: &HorseContext,
        player: &Player,
        stack: &mut ItemStack,
        effects: &mut Vec<Effect>,
    ) -> (outcome: Interaction)
        ensures
            (HorseScene {
                mob: final(self).mob_entity,
                data: final(self).horse_data,
                stack: *final(stack),
                effects: final(effects)@,
                outcome,
            }) == horse_interacted(
                (HorseScene {
                    mob: old(self).mob_entity,
                    data: old(self).horse_data,
                    stack: *old(stack),
                    effects: old(effects)@,
                    outcome,
                }),
                horse_rules(),
                *cx,
                *player,
            ),
            final(self).variant_and_markings == old(self).variant_and_markings,
            old(self).horse_data.wf() ==> final(self).horse_data.wf(),
    {
        let rules = Self::rules();
        abstract_horse_mob_interact(
            &mut self.mob_entity,
            &mut self.horse_data,
            &rules,
            cx,
            player,
            stack,
            effects,
        )
    }

    /// Tells clients about the horse when they first see it.
    pub fn mob_init_data_tracker(&self, effects: &mut Vec<Effect>)
        ensures
            final(effects)@ == old(effects)@.push(
                Effect::Sync(SyncedValue::HorseVariant(self.variant_and_markings as i32)),
            ),
    {
        effects.push(Effect::Sync(SyncedValue::HorseVariant(self.variant_and_markings as i32)));
    }

    /// Saves the horse.
    pub fn write_nbt(&self, nbt: &mut NbtCompound)
        ensures
            final(nbt)@ == horse_entity_saved(old(nbt)@, *self),
    {
        write_animal_nbt(&self.mob_entity, nbt);
        self.horse_data.write_horse_nbt(nbt);
        nbt.put_int("Variant", self.variant_and_markings as i32);
    }

    /// Restores the horse.
    pub fn read_nbt(&mut self, nbt: &NbtCompound, effects: &mut Vec<Effect>)
        ensures
            final(effects)@ == old(effects)@ + horse_restore_effects(
                old(self).horse_data.attributes,
                nbt@,
            ),
            *final(self) == horse_entity_restored(*old(self), nbt@),
    {
        read_animal_nbt(&mut self.mob_entity, nbt);
        self.horse_data.read_horse_nbt(nbt, effects);
        if let Some(number) = nbt.get_int("Variant") {
            self.variant_and_markings = number as u16;
        }
    }
}

/// What is saved of a horse.
pub open spec fn horse_entity_saved(nbt: Map<Seq<char>, NbtValue>, horse: HorseEntity) -> Map<
    Seq<char>,
    NbtValue,
> {
    horse_saved(animal_saved(nbt, horse.mob_entity), horse.horse_data).insert(
        "Variant"@,
        NbtValue::Int(horse.variant_and_markings as i32),
    )
}

/// A horse with its saved state restored.
pub open spec fn horse_entity_restored(
    horse: HorseEntity,
    nbt: Map<Seq<char>, NbtValue>,
) -> HorseEntity {
    HorseEntity {
        mob_entity: animal_restored(horse.mob_entity, nbt),
        horse_data: horse_restored(horse.horse_data, nbt),
        variant_and_markings: match int_at(nbt, "Variant"@) {
            Some(number) => number as u16,
            None => horse.variant_and_markings,
        },
    }
}

/// Restoring a saved horse gives back its looks, whether it eats, whether it was bred, its
/// temper, and what it is capable of.
pub proof fn law_horse_entity_round_trip(
    nbt: Map<Seq<char>, NbtValue>,
    horse: HorseEntity,
    other: HorseEntity,
)
    ensures
        ({
            let back = horse_entity_restored(other, horse_entity_saved(nbt, horse));
            &&& back.variant_and_markings == horse.variant_and_markings
            &&& carries_over(back.horse_data, horse.horse_data)
            &&& same_kind(horse.horse_data.attributes, other.horse_data.attributes)
                ==> back.horse_data.attributes == horse.horse_data.attributes
        }),
{
    reveal_strlit("Variant");
    lemma_horse_names();
    assert("Variant"@.len() == 7);
    let animal = animal_saved(nbt, horse.mob_entity);
    law_horse_round_trip(animal, horse.horse_data, other.horse_data);
    assert(horse_restored(other.horse_data, horse_entity_saved(nbt, horse)) == horse_restored(
        other.horse_data,
        horse_saved(animal, horse.horse_data),
    ));
}

/// A foal has a coat and markings that exist, if its parents do.
pub proof fn law_foal_looks_exist(first: u16, second: u16, draws: FoalDraws)
    requires
        foal_draws_valid(draws),
        packed_variant(first) < VARIANT_COUNT && packed_markings(first) < MARKINGS_COUNT,
        packed_variant(second) < VARIANT_COUNT && packed_markings(second) < MARKINGS_COUNT,
    ensures
        packed_variant(foal_looks(first, second, draws)) < VARIANT_COUNT,
        packed_markings(foal_looks(first, second, draws)) < MARKINGS_COUNT,
{
}

/// Of nine draws four give a foal the coat of either parent and one a new one; of five, two give
/// it the markings of either parent and one new ones. Coat and markings do not depend on each
/// other.
pub proof fn law_whose_looks_a_foal_has(first: u16, second: u16, draws: FoalDraws)
    requires
        foal_draws_valid(draws),
    ensures
        ({
            let foal = foal_looks(first, second, draws);
            &&& draws.coat_from < 4 ==> foal % 256 == first % 256
            &&& 4 <= draws.coat_from < 8 ==> foal % 256 == second % 256
            &&& draws.coat_from == 8 ==> foal % 256 == draws.new_coat
            &&& draws.markings_from < 2 ==> foal / 256 == first / 256
            &&& 2 <= draws.markings_from < 4 ==> foal / 256 == second / 256
            &&& draws.markings_from == 4 ==> foal / 256 == draws.new_markings
            &&& draws.new_coat < 7 && draws.new_markings < 5
        }),
{
    law_packing_round_trip(packed_variant(first), packed_markings(first));
}

/// Horses breed with horses and donkeys, and with nobody else.
pub proof fn law_whom_horses_breed_with(kind: EntityKind)
    ensures
        breeds_with(kind) <==> kind == EntityKind::Horse || kind == EntityKind::Donkey,
{
}

/// What is drawn for a new horse: each attribute that its kind has, and then it is given all the
/// health it can have.
pub proof fn law_what_is_drawn_for_a_horse(attributes: HorseAttributes, health: u32, other: u32)
    ensures
        ({
            let effects = body_effects(attributes, health);
            &&& effects.contains(Effect::SetMaxHealth(other)) <==> attributes.max_health is Some
                && other == health
            &&& effects.contains(Effect::RollSpeed) <==> attributes.speed is Some
            &&& effects.contains(Effect::RollJumpStrength) <==> attributes.jump_strength is Some
            &&& effects.len() > 0 && effects.last() == Effect::FillHealth
        }),
{
    broadcast use group_effects;

}

/// A horse has the temper and the manners of all horses, and a voice of its own.
pub proof fn law_rules_of_horses()
    ensures
        horse_rules().max_temper == 100,
        horse_rules().can_rear && horse_rules().can_eat_grass && horse_rules().can_fall_in_love,
        horse_rules().menu == Menu::Horse,
        horse_rules().eating_sound == Some(Sound::HorseEat),
        horse_rules().angry_sound == Some(Sound::HorseAngry),
        horse_rules().jump_sound == Sound::HorseJump,
{
}

/// What horses pursue, and how urgently: this and nothing else.
pub proof fn law_what_horses_pursue(e: GoalEntry)
    ensures
        horse_goals().contains(e) <==> {
            ||| e.priority == 0 && e.goal == Goal::Swim
            ||| e.priority == 1 && e.goal == (Goal::RunAroundLikeCrazy { speed: 1200 })
            ||| e.priority == 2 && e.goal == (Goal::HorseBreed { speed: 1000 })
            ||| e.priority == 3 && e.goal == (Goal::Tempt { speed: 1250, items: Diet::Horse, scared: false })
            ||| e.priority == 4 && e.goal == (Goal::FollowParent { speed: 1000 })
            ||| e.priority == 6 && e.goal == (Goal::WanderAvoidingWater { speed: 700 })
            ||| e.priority == 7 && e.goal == (Goal::LookAt { kind: EntityKind::Player, range: 6000 })
            ||| e.priority == 8 && e.goal == Goal::LookAround
            ||| e.priority == 9 && e.goal == Goal::AmbientStand
        },
        horse_goals().len() == 9,
{
    let all = horse_goals();
    assert(all[0] == (GoalEntry { priority: 0, goal: Goal::Swim }));
    assert(all[1] == (GoalEntry { priority: 1, goal: Goal::RunAroundLikeCrazy { speed: 1200 } }));
    assert(all[2] == (GoalEntry { priority: 2, goal: Goal::HorseBreed { speed: 1000 } }));
    assert(all[3] == (GoalEntry { priority: 3, goal: Goal::Tempt { speed: 1250, items: Diet::Horse, scared: false } }));
    assert(all[4] == (GoalEntry { priority: 4, goal: Goal::FollowParent { speed: 1000 } }));
    assert(all[5] == (GoalEntry { priority: 6, goal: Goal::WanderAvoidingWater { speed: 700 } }));
    assert(all[6] == (GoalEntry { priority: 7, goal: Goal::LookAt { kind: EntityKind::Player, range: 6000 } }));
    assert(all[7] == (GoalEntry { priority: 8, goal: Goal::LookAround }));
    assert(all[8] == (GoalEntry { priority: 9, goal: Goal::AmbientStand }));
}

/// What is drawn for a foal: whose coat of nine, whose markings of five, and new ones of those
/// there are.
pub proof fn law_what_is_drawn_for_a_foal(draws: FoalDraws)
    ensures
        foal_draws_valid(draws) <==> draws.coat_from >= 0 && draws.coat_from <= 8 && draws.new_coat <= 6
            && draws.markings_from >= 0 && draws.markings_from <= 4 && draws.new_markings <= 4,
{
}

} // verus!
