//! Goats: horns, screams and milk.

use vstd::prelude::*;

use crate::animal::{
    animal_interact, animal_restored, animal_saved, falls_in_love, fed, feeding_effects, grows,
    meal_outcome, read_animal_nbt, stack_after_meal, write_animal_nbt, Feeding,
};
use crate::effect::{group_effects, Effect, Interaction, Sound, SyncedValue};
use crate::goal::{entry, goal, look_at_player, watch_player, EntityKind, Goal, GoalEntry};
use crate::item::{after_use, Diet, GameMode, Item, ItemStack, Player};
use crate::mob::{Dimensions, MobEntity};
use crate::nbt::{bool_at, bool_value, NbtCompound, NbtValue};
use crate::random::chance;

verus! {

/// By how much a goat's fall hurts less.
pub const FALL_DAMAGE_REDUCTION: i32 = 10;

/// The long jumps of a goat: how often, how high, how wide, and how fast in ten-millionths.
pub open spec fn goat_long_jump() -> Goal {
    Goal::GoatLongJump {
        min_interval: 600,
        max_interval: 1200,
        height: 5,
        width: 5,
        velocity: 35714288,
    }
}

/// What a goat pursues.
pub open spec fn goat_goals() -> Seq<GoalEntry> {
    seq![
        entry(0, Goal::Swim),
        entry(1, Goal::GoatRam),
        entry(2, goat_long_jump()),
        entry(3, Goal::Breed { speed: 1000 }),
        entry(4, Goal::Tempt { speed: 1250, items: Diet::Goat, scared: false }),
        entry(5, Goal::FollowParent { speed: 1250 }),
        entry(6, Goal::Wander { speed: 1000 }),
        entry(7, look_at_player(6000)),
        entry(8, Goal::LookAround),
    ]
}

/// A goat.
pub struct GoatEntity {
    pub mob_entity: MobEntity,
    pub is_screaming: bool,
    pub has_left_horn: bool,
    pub has_right_horn: bool,
}

/// What chance decides about a new goat.
#[derive(Clone, Copy)]
pub struct GoatDraws {
    pub screams: bool,
    /// Whether a grown goat lacks a horn.
    pub unihorn: bool,
    /// Whether the horn that is lacking is the left one.
    pub lacks_left: bool,
}

/// Whether a new goat of an age is one that draws describe.
pub open spec fn goat_is(goat: GoatEntity, age: i32, draws: GoatDraws) -> bool {
    let lacks = age >= 0 && draws.unihorn;
    &&& goat.mob_entity.fresh(age)
    &&& goat.mob_entity.goals@ == goat_goals()
    &&& goat.mob_entity.targets@ == Seq::<GoalEntry>::empty()
    &&& goat.is_screaming == draws.screams
    &&& goat.has_left_horn == !(lacks && draws.lacks_left)
    &&& goat.has_right_horn == !(lacks && !draws.lacks_left)
}

/// The sound of a goat that jumps far.
pub open spec fn long_jump_sound(screaming: bool) -> Sound {
    if screaming {
        Sound::GoatScreamingLongJump
    } else {
        Sound::GoatLongJump
    }
}

/// The size of a young goat.
pub fn goat_baby_dimensions() -> (size: Dimensions)
    ensures
        size == (Dimensions { width: 45000, height: 65000, eye_height: 59375 }),
{
    Dimensions { width: 45000, height: 65000, eye_height: 59375 }
}

/// The sound of a mob that jumps far as goats do; only a goat can scream.
pub fn goat_long_jump_sound(goat: Option<&GoatEntity>) -> (sound: Sound)
    ensures
        sound == long_jump_sound(goat is Some && goat->0.is_screaming),
{
    let screaming = match goat {
        Some(goat) => goat.is_screaming_goat(),
        None => false,
    };
    if screaming {
        Sound::GoatScreamingLongJump
    } else {
        Sound::GoatLongJump
    }
}

/// The sound of a goat that lands after jumping far.
pub fn goat_landing_sound() -> (sound: Sound)
    ensures
        sound == Sound::GoatStep,
{
    Sound::GoatStep
}

/// The sound of a goat that is milked.
pub open spec fn milk_sound(screaming: bool) -> Sound {
    if screaming {
        Sound::GoatScreamingMilk
    } else {
        Sound::GoatMilk
    }
}

/// The sound of a goat that eats.
pub open spec fn eat_sound(screaming: bool) -> Sound {
    if screaming {
        Sound::GoatScreamingEat
    } else {
        Sound::GoatEat
    }
}

/// A bucket of milk.
pub open spec fn milk() -> ItemStack {
    ItemStack { item: Item::MilkBucket, count: 1 }
}

/// What is in hand once a bucket was filled.
pub open spec fn stack_after_milking(stack: ItemStack, gamemode: GameMode) -> ItemStack {
    let rest = after_use(stack, gamemode, 1);
    if gamemode != GameMode::Creative && rest.holds_nothing() {
        milk()
    } else {
        rest
    }
}

/// Where the milk goes that is not in hand.
pub open spec fn milking_effects(stack: ItemStack, gamemode: GameMode, has_milk: bool) -> Seq<
    Effect,
> {
    if gamemode == GameMode::Creative {
        if has_milk {
            seq![]
        } else {
            seq![Effect::PutIntoInventory(milk())]
        }
    } else if after_use(stack, gamemode, 1).holds_nothing() {
        seq![]
    } else {
        seq![Effect::GiveToPlayer(milk())]
    }
}

/// Whether a kid screams.
pub open spec fn kid_screams(first: bool, mate: Option<bool>, from_first: bool, luck: bool) -> bool {
    luck || (if from_first {
        first
    } else {
        mate == Some(true)
    })
}

/// Whether a goat can be milked with what a player holds.
pub open spec fn gives_milk(goat: GoatEntity, item: Item) -> bool {
    item == Item::Bucket && goat.mob_entity.age >= 0
}

impl GoatEntity {
    /// A goat for draws.
    pub fn with_draws(age: i32, draws: &GoatDraws) -> (goat: Self)
        ensures
            goat_is(goat, age, *draws),
    {
        let goals = vec![
            goal(0, Goal::Swim),
            goal(1, Goal::GoatRam),
            goal(
                2,
                Goal::GoatLongJump {
                    min_interval: 600,
                    max_interval: 1200,
                    height: 5,
                    width: 5,
                    velocity: 35714288,
                },
            ),
            goal(3, Goal::Breed { speed: 1000 }),
            goal(4, Goal::Tempt { speed: 1250, items: Diet::Goat, scared: false }),
            goal(5, Goal::FollowParent { speed: 1250 }),
            goal(6, Goal::Wander { speed: 1000 }),
            goal(7, watch_player(6000)),
            goal(8, Goal::LookAround),
        ];
        let mut left_horn: bool = true;
        let mut right_horn: bool = true;
        if age >= 0 && draws.unihorn {
            if draws.lacks_left {
                left_horn = false;
            } else {
                right_horn = false;
            }
        }
        GoatEntity {
            mob_entity: MobEntity::with_goals(age, goals, Vec::new()),
            is_screaming: draws.screams,
            has_left_horn: left_horn,
            has_right_horn: right_horn,
        }
    }

    /// A new goat. Few scream, and a few grown ones lack a horn.
    pub fn new(age: i32) -> (goat: Self)
        ensures
            exists|draws: GoatDraws| #[trigger] goat_is(goat, age, draws),
            goat.has_left_horn || goat.has_right_horn,
            age < 0 ==> goat.has_left_horn && goat.has_right_horn,
    {
        let draws = GoatDraws {
            screams: chance(1, 50),
            unihorn: chance(1, 10),
            lacks_left: chance(1, 2),
        };
        let goat = Self::with_draws(age, &draws);
        assert(goat_is(goat, age, draws));
        goat
    }

    pub fn is_screaming_goat(&self) -> (screams: bool)
        ensures
            screams == self.is_screaming,
    {
        self.is_screaming
    }

    pub fn set_screaming_goat(&mut self, screaming: bool, effects: &mut Vec<Effect>)
        ensures
            *final(self) == (GoatEntity { is_screaming: screaming, ..*old(self) }),
            final(effects)@ == old(effects)@.push(
                Effect::Sync(SyncedValue::GoatScreaming(screaming)),
            ),
    {
        self.is_screaming = screaming;
        effects.push(Effect::Sync(SyncedValue::GoatScreaming(screaming)));
    }

    pub fn has_left_horn(&self) -> (has: bool)
        ensures
            has == self.has_left_horn,
    {
        self.has_left_horn
    }

    pub fn has_right_horn(&self) -> (has: bool)
        ensures
            has == self.has_right_horn,
    {
        self.has_right_horn
    }

    fn milking_sound(&self) -> (sound: Sound)
        ensures
            sound == milk_sound(self.is_screaming),
    {
        if self.is_screaming {
            Sound::GoatScreamingMilk
        } else {
            Sound::GoatMilk
        }
    }

    fn eating_sound(&self) -> (sound: Sound)
        ensures
            sound == eat_sound(self.is_screaming),
    {
        if self.is_screaming {
            Sound::GoatScreamingEat
        } else {
            Sound::GoatEat
        }
    }

    /// The damage of a fall that would hurt others by some amount.
    pub fn mob_calculate_fall_damage(&self, usual_damage: i32) -> (damage: i32)
        requires
            usual_damage >= i32::MIN + FALL_DAMAGE_REDUCTION,
        ensures
            damage == usual_damage - FALL_DAMAGE_REDUCTION,
    {
        usual_damage - FALL_DAMAGE_REDUCTION
    }

    /// Fills one bucket of the stack with milk. A player in creative mode keeps the bucket and
    /// gets milk only if there is none yet (`has_milk`).
    pub fn fill_bucket_with_milk(
        &self,
        player: &Player,
        has_milk: bool,
        stack: &mut ItemStack,
        effects: &mut Vec<Effect>,
    )
        ensures
            *final(stack) == stack_after_milking(*old(stack), player.gamemode),
            final(effects)@ == old(effects)@ + milking_effects(
                *old(stack),
                player.gamemode,
                has_milk,
            ),
    {
        let filled = ItemStack::new(1, Item::MilkBucket);
        if player.gamemode == GameMode::Creative {
            if !has_milk {
                effects.push(Effect::PutIntoInventory(filled));
            }
            return ;
        }
        stack.decrement(1);
        if stack.is_empty() {
            *stack = filled;
        } else {
            effects.push(Effect::GiveToPlayer(filled));
        }
    }

    /// Lets a player use an item on the goat: a bucket milks a grown one, food feeds it.
    pub fn mob_interact(
        &mut self,
        food: bool,
        breeding_ready: bool,
        player: &Player,
        has_milk: bool,
        stack: &mut ItemStack,
        effects: &mut Vec<Effect>,
    ) -> (outcome: Interaction)
        requires
            grows(
                old(self).mob_entity,
                goat_feeding(food, breeding_ready, old(self).is_screaming),
            ) ==> old(self).mob_entity.age > i32::MIN,
        ensures
            ({
                let goat = *old(self);
                let feeding = goat_feeding(food, breeding_ready, goat.is_screaming);
                if gives_milk(goat, old(stack).item) {
                    &&& outcome == Interaction::Handled
                    &&& *final(self) == goat
                    &&& *final(stack) == stack_after_milking(*old(stack), player.gamemode)
                    &&& final(effects)@ == old(effects)@.push(
                        Effect::Play(milk_sound(goat.is_screaming)),
                    ) + milking_effects(*old(stack), player.gamemode, has_milk)
                } else {
                    &&& outcome == meal_outcome(goat.mob_entity, feeding)
                    &&& *final(self) == (GoatEntity {
                        mob_entity: fed(goat.mob_entity, feeding, *player),
                        ..goat
                    })
                    &&& *final(stack) == stack_after_meal(
                        goat.mob_entity,
                        feeding,
                        *old(stack),
                        player.gamemode,
                    )
                    &&& final(effects)@ == old(effects)@ + feeding_effects(
                        goat.mob_entity,
                        feeding,
                    )
                }
            }),
    {
        if stack.item == Item::Bucket && !self.mob_entity.is_baby() {
            effects.push(Effect::Play(self.milking_sound()));
            self.fill_bucket_with_milk(player, has_milk, stack, effects);
            return Interaction::Handled;
        }
        let feeding = Feeding {
            food,
            breeding_ready,
            can_age_up: true,
            sound: self.eating_sound(),
        };
        animal_interact(&mut self.mob_entity, feeding, player, stack, effects)
    }

    /// Decides whether a kid screams, for draws.
    pub fn inherit(
        &mut self,
        first: &GoatEntity,
        mate: Option<&GoatEntity>,
        from_first: bool,
        luck: bool,
        effects: &mut Vec<Effect>,
    )
        ensures
            ({
                let screams = kid_screams(
                    first.is_screaming,
                    match mate {
                        Some(goat) => Some(goat.is_screaming),
                        None => None,
                    },
                    from_first,
                    luck,
                );
                &&& *final(self) == (GoatEntity { is_screaming: screams, ..*old(self) })
                &&& final(effects)@ == old(effects)@.push(
                    Effect::Sync(SyncedValue::GoatScreaming(screams)),
                )
            }),
    {
        let parent_screams = if from_first {
            first.is_screaming_goat()
        } else {
            match mate {
                Some(goat) => goat.is_screaming_goat(),
                None => false,
            }
        };
        self.set_screaming_goat(parent_screams || luck, effects);
    }

    /// Decides whether a kid screams: as one of its parents does, or by luck.
    pub fn create_offspring(
        &mut self,
        first: &GoatEntity,
        mate: Option<&GoatEntity>,
        effects: &mut Vec<Effect>,
    )
        ensures
            *final(self) == (GoatEntity { is_screaming: final(self).is_screaming, ..*old(self) }),
            final(effects)@ == old(effects)@.push(
                Effect::Sync(SyncedValue::GoatScreaming(final(self).is_screaming)),
            ),
            first.is_screaming && mate is Some && mate->0.is_screaming
                ==> final(self).is_screaming,
    {
        let from_first: bool = chance(1, 2);
        let luck: bool = chance(1, 50);
        self.inherit(first, mate, from_first, luck, effects);
    }

    /// The size of a baby.
    pub fn baby_dimensions(&self) -> (size: Dimensions)
        ensures
            size == (Dimensions { width: 45000, height: 65000, eye_height: 59375 }),
    {
        goat_baby_dimensions()
    }

    /// Tells clients about the goat when they first see it.
    pub fn mob_init_data_tracker(&self, effects: &mut Vec<Effect>)
        ensures
            final(effects)@ == old(effects)@ + seq![
                Effect::Sync(SyncedValue::GoatScreaming(self.is_screaming)),
                Effect::Sync(SyncedValue::GoatLeftHorn(self.has_left_horn)),
                Effect::Sync(SyncedValue::GoatRightHorn(self.has_right_horn)),
            ],
    {
        effects.push(Effect::Sync(SyncedValue::GoatScreaming(self.is_screaming)));
        effects.push(Effect::Sync(SyncedValue::GoatLeftHorn(self.has_left_horn)));
        effects.push(Effect::Sync(SyncedValue::GoatRightHorn(self.has_right_horn)));
    }

    /// Saves the goat.
    pub fn write_nbt(&self, nbt: &mut NbtCompound)
        ensures
            final(nbt)@ == goat_saved(old(nbt)@, *self),
    {
        write_animal_nbt(&self.mob_entity, nbt);
        nbt.put_bool("IsScreamingGoat", self.is_screaming);
        nbt.put_bool("HasLeftHorn", self.has_left_horn);
        nbt.put_bool("HasRightHorn", self.has_right_horn);
    }

    /// Restores the goat. It has both horns unless something else was saved.
    pub fn read_nbt(&mut self, nbt: &NbtCompound)
        ensures
            *final(self) == goat_restored(*old(self), nbt@),
    {
        read_animal_nbt(&mut self.mob_entity, nbt);
        self.is_screaming = nbt.get_bool("IsScreamingGoat").unwrap_or(false);
        self.has_left_horn = nbt.get_bool("HasLeftHorn").unwrap_or(true);
        self.has_right_horn = nbt.get_bool("HasRightHorn").unwrap_or(true);
    }
}

/// How a goat takes food.
pub open spec fn goat_feeding(food: bool, breeding_ready: bool, screaming: bool) -> Feeding {
    Feeding { food, breeding_ready, can_age_up: true, sound: eat_sound(screaming) }
}

/// What is saved of a goat.
pub open spec fn goat_saved(nbt: Map<Seq<char>, NbtValue>, goat: GoatEntity) -> Map<
    Seq<char>,
    NbtValue,
> {
    animal_saved(nbt, goat.mob_entity).insert(
        "IsScreamingGoat"@,
        bool_value(goat.is_screaming),
    ).insert("HasLeftHorn"@, bool_value(goat.has_left_horn)).insert(
        "HasRightHorn"@,
        bool_value(goat.has_right_horn),
    )
}

/// A goat with its saved state restored.
pub open spec fn goat_restored(goat: GoatEntity, nbt: Map<Seq<char>, NbtValue>) -> GoatEntity {
    GoatEntity {
        mob_entity: animal_restored(goat.mob_entity, nbt),
        is_screaming: bool_at(nbt, "IsScreamingGoat"@) == Some(true),
        has_left_horn: bool_at(nbt, "HasLeftHorn"@) != Some(false),
        has_right_horn: bool_at(nbt, "HasRightHorn"@) != Some(false),
    }
}

/// Restoring a saved goat gives back its horns and whether it screams.
pub proof fn law_goat_round_trip(
    nbt: Map<Seq<char>, NbtValue>,
    goat: GoatEntity,
    other: GoatEntity,
)
    ensures
        ({
            let back = goat_restored(other, goat_saved(nbt, goat));
            &&& back.is_screaming == goat.is_screaming
            &&& back.has_left_horn == goat.has_left_horn
            &&& back.has_right_horn == goat.has_right_horn
        }),
{
    reveal_strlit("IsScreamingGoat");
    reveal_strlit("HasLeftHorn");
    reveal_strlit("HasRightHorn");
    assert("IsScreamingGoat"@.len() == 15 && "HasLeftHorn"@.len() == 11 && "HasRightHorn"@.len()
        == 12);
}

/// The kid of two screaming goats screams, whatever chance decides; the kid of two quiet ones
/// only by luck.
pub proof fn law_screaming_is_inherited(from_first: bool, luck: bool)
    ensures
        kid_screams(true, Some(true), from_first, luck),
        kid_screams(false, Some(false), from_first, luck) == luck,
{
}

/// Milking turns one bucket into one bucket of milk: what is in hand and what is handed over
/// hold as many buckets as before, unless the player is in creative mode.
pub proof fn law_milking_keeps_buckets(stack: ItemStack, gamemode: GameMode, has_milk: bool)
    requires
        gamemode != GameMode::Creative,
        stack.item == Item::Bucket,
        stack.count > 0,
    ensures
        stack.count == 1 ==> stack_after_milking(stack, gamemode) == milk() && milking_effects(
            stack,
            gamemode,
            has_milk,
        ) == Seq::<Effect>::empty(),
        stack.count > 1 ==> stack_after_milking(stack, gamemode) == (ItemStack {
            item: Item::Bucket,
            count: (stack.count - 1) as u8,
        }) && milking_effects(stack, gamemode, has_milk) == seq![Effect::GiveToPlayer(milk())],
{
}

/// A goat loses a horn only when it is grown and the draw says so, and then the one that the draw
/// names; it screams if the draw says so.
pub proof fn law_horns_of_goats(goat: GoatEntity, age: i32, draws: GoatDraws)
    requires
        goat_is(goat, age, draws),
    ensures
        goat.is_screaming == draws.screams,
        age < 0 || !draws.unihorn ==> goat.has_left_horn && goat.has_right_horn,
        age >= 0 && draws.unihorn && draws.lacks_left ==> !goat.has_left_horn
            && goat.has_right_horn,
        age >= 0 && draws.unihorn && !draws.lacks_left ==> goat.has_left_horn
            && !goat.has_right_horn,
{
}

/// A kid screams by luck, or if the parent screams whom the draw names; an unknown parent does not.
pub proof fn law_which_kids_scream(first: bool, mate: Option<bool>, from_first: bool, luck: bool)
    ensures
        luck ==> kid_screams(first, mate, from_first, luck),
        !luck && from_first ==> kid_screams(first, mate, from_first, luck) == first,
        !luck && !from_first && mate is Some ==> kid_screams(first, mate, from_first, luck)
            == mate->0,
        !luck && !from_first && mate is None ==> !kid_screams(first, mate, from_first, luck),
{
}

/// In creative mode milking keeps the bucket and puts milk into the inventory, unless there is
/// some already.
pub proof fn law_milking_in_creative_mode(stack: ItemStack, has_milk: bool)
    ensures
        stack_after_milking(stack, GameMode::Creative) == stack,
        milking_effects(stack, GameMode::Creative, has_milk).contains(
            Effect::PutIntoInventory(ItemStack { item: Item::MilkBucket, count: 1 }),
        ) <==> !has_milk,
        milk() == (ItemStack { item: Item::MilkBucket, count: 1 }),
{
    broadcast use group_effects;

}

/// Screaming goats are heard as such.
pub proof fn law_voices_of_goats()
    ensures
        long_jump_sound(true) == Sound::GoatScreamingLongJump && long_jump_sound(false)
            == Sound::GoatLongJump,
        milk_sound(true) == Sound::GoatScreamingMilk && milk_sound(false) == Sound::GoatMilk,
        eat_sound(true) == Sound::GoatScreamingEat && eat_sound(false) == Sound::GoatEat,
{
}

/// A goat of which nothing was saved has both horns and does not scream.
pub proof fn law_what_is_read_of_a_goat(goat: GoatEntity, nbt: Map<Seq<char>, NbtValue>)
    ensures
        bool_at(nbt, "IsScreamingGoat"@) is None ==> !goat_restored(goat, nbt).is_screaming,
        bool_at(nbt, "HasLeftHorn"@) is None ==> goat_restored(goat, nbt).has_left_horn,
        bool_at(nbt, "HasRightHorn"@) is None ==> goat_restored(goat, nbt).has_right_horn,
{
}

/// Food makes a baby goat grow and a grown one that is ready fall in love; nothing else does, and
/// it is heard.
pub proof fn law_what_feeding_a_goat_does(mob: MobEntity, food: bool, breeding_ready: bool)
    ensures
        grows(mob, goat_feeding(food, breeding_ready, false)) <==> food && mob.age < 0,
        falls_in_love(mob, goat_feeding(food, breeding_ready, false)) <==> food && breeding_ready && mob.age >= 0
            && mob.love_ticks <= 0,
        goat_feeding(food, breeding_ready, false).sound == Sound::GoatEat,
{
}

/// What goats pursue, and how urgently: this and nothing else.
pub proof fn law_what_goats_pursue(e: GoalEntry)
    ensures
        goat_goals().contains(e) <==> {
            ||| e.priority == 0 && e.goal == Goal::Swim
            ||| e.priority == 1 && e.goal == Goal::GoatRam
            ||| e.priority == 2 && e.goal == (Goal::GoatLongJump { min_interval: 600, max_interval: 1200, height: 5, width: 5, velocity: 35714288, })
            ||| e.priority == 3 && e.goal == (Goal::Breed { speed: 1000 })
            ||| e.priority == 4 && e.goal == (Goal::Tempt { speed: 1250, items: Diet::Goat, scared: false })
            ||| e.priority == 5 && e.goal == (Goal::FollowParent { speed: 1250 })
            ||| e.priority == 6 && e.goal == (Goal::Wander { speed: 1000 })
            ||| e.priority == 7 && e.goal == (Goal::LookAt { kind: EntityKind::Player, range: 6000 })
            ||| e.priority == 8 && e.goal == Goal::LookAround
        },
        goat_goals().len() == 9,
{
    let all = goat_goals();
    assert(all[0] == (GoalEntry { priority: 0, goal: Goal::Swim }));
    assert(all[1] == (GoalEntry { priority: 1, goal: Goal::GoatRam }));
    assert(all[2] == (GoalEntry { priority: 2, goal: Goal::GoatLongJump { min_interval: 600, max_interval: 1200, height: 5, width: 5, velocity: 35714288, } }));
    assert(all[3] == (GoalEntry { priority: 3, goal: Goal::Breed { speed: 1000 } }));
    assert(all[4] == (GoalEntry { priority: 4, goal: Goal::Tempt { speed: 1250, items: Diet::Goat, scared: false } }));
    assert(all[5] == (GoalEntry { priority: 5, goal: Goal::FollowParent { speed: 1250 } }));
    assert(all[6] == (GoalEntry { priority: 6, goal: Goal::Wander { speed: 1000 } }));
    assert(all[7] == (GoalEntry { priority: 7, goal: Goal::LookAt { kind: EntityKind::Player, range: 6000 } }));
    assert(all[8] == (GoalEntry { priority: 8, goal: Goal::LookAround }));
}

/// Grown goats give milk into empty buckets, and into nothing else.
pub proof fn law_when_goats_give_milk(goat: GoatEntity, item: Item)
    ensures
        item != Item::Bucket ==> !gives_milk(goat, item),
        goat.mob_entity.age < 0 ==> !gives_milk(goat, item),
        goat.mob_entity.age >= 0 ==> gives_milk(goat, Item::Bucket),
{
}

} // verus!
