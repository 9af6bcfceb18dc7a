//! Feeding animals, and saving how they feel.

use vstd::prelude::*;

use crate::effect::{feeling, show_feeling, Effect, Interaction, Particle, Sound};
use crate::item::{after_use, GameMode, ItemStack, Player};
use crate::mob::MobEntity;
use crate::nbt::{id_at, int_at, NbtCompound, NbtValue};
use crate::random::{fresh_id, is_random_id};

verus! {

/// How long a fed animal stays in love.
pub const LOVE_TICKS: i32 = 600;

/// What feeding reads of an animal and its kind.
#[derive(Clone, Copy)]
pub struct Feeding {
    /// Whether the item is food for the animal.
    pub food: bool,
    /// Whether enough time has passed since the animal last bred.
    pub breeding_ready: bool,
    /// Whether food makes a baby of this kind grow.
    pub can_age_up: bool,
    /// What the animal sounds like when it is fed.
    pub sound: Sound,
}

/// Whether the animal falls in love when fed.
pub open spec fn falls_in_love(mob: MobEntity, feeding: Feeding) -> bool {
    feeding.food && mob.age >= 0 && feeding.breeding_ready && mob.love_ticks <= 0
}

/// Whether the animal grows when fed.
pub open spec fn grows(mob: MobEntity, feeding: Feeding) -> bool {
    feeding.food && mob.age < 0 && feeding.can_age_up
}

/// The age of a baby after one meal: a tenth of the time that is left to grow up is skipped,
/// and at least one tick.
pub open spec fn age_after_meal(age: int) -> int {
    if -age / 10 > 1 {
        age + -age / 10
    } else {
        age + 1
    }
}

/// What feeding the animal asks of the host.
pub open spec fn feeding_effects(mob: MobEntity, feeding: Feeding) -> Seq<Effect> {
    if falls_in_love(mob, feeding) {
        seq![Effect::LoveHearts, feeling(Particle::Heart), Effect::Play(feeding.sound)]
    } else if grows(mob, feeding) {
        seq![feeling(Particle::HappyVillager), Effect::Play(feeding.sound)]
    } else {
        seq![]
    }
}

/// The animal after it was fed.
pub open spec fn fed(mob: MobEntity, feeding: Feeding, player: Player) -> MobEntity {
    if falls_in_love(mob, feeding) {
        MobEntity { love_ticks: LOVE_TICKS, breeder: Some(player.id), ..mob }
    } else if grows(mob, feeding) {
        MobEntity { age: age_after_meal(mob.age as int) as i32, ..mob }
    } else {
        mob
    }
}

/// How an animal answers to being fed.
pub open spec fn meal_outcome(mob: MobEntity, feeding: Feeding) -> Interaction {
    if falls_in_love(mob, feeding) || grows(mob, feeding) {
        Interaction::Handled
    } else {
        Interaction::Shared
    }
}

/// What is left in the hand of a player who has fed an animal.
pub open spec fn stack_after_meal(
    mob: MobEntity,
    feeding: Feeding,
    stack: ItemStack,
    gamemode: GameMode,
) -> ItemStack {
    if falls_in_love(mob, feeding) || grows(mob, feeding) {
        after_use(stack, gamemode, 1)
    } else {
        stack
    }
}

/// Feeds an animal: a grown one that is ready falls in love, a baby grows. Anything else is
/// left to the interaction that all mobs share.
pub fn animal_interact(
    mob: &mut MobEntity,
    feeding: Feeding,
    player: &Player,
    stack: &mut ItemStack,
    effects: &mut Vec<Effect>,
) -> (outcome: Interaction)
    requires
        grows(*old(mob), feeding) ==> old(mob).age > i32::MIN,
    ensures
        *final(mob) == fed(*old(mob), feeding, *player),
        final(effects)@ == old(effects)@ + feeding_effects(*old(mob), feeding),
        outcome == meal_outcome(*old(mob), feeding),
        *final(stack) == stack_after_meal(*old(mob), feeding, *old(stack), player.gamemode),
{
    if feeding.food {
        let age: i32 = mob.age;
        if age >= 0 && feeding.breeding_ready && !mob.is_in_love() {
            stack.decrement_unless_creative(player.gamemode, 1);
            mob.set_love_ticks(LOVE_TICKS, Some(player.id));
            effects.push(Effect::LoveHearts);
            effects.push(show_feeling(Particle::Heart));
            effects.push(Effect::Play(feeding.sound));
            return Interaction::Handled;
        }
        if age < 0 && feeding.can_age_up {
            stack.decrement_unless_creative(player.gamemode, 1);
            let tenth: i32 = -age / 10;
            let speedup: i32 = if tenth > 1 { tenth } else { 1 };
            mob.age = age + speedup;
            effects.push(show_feeling(Particle::HappyVillager));
            effects.push(Effect::Play(feeding.sound));
            return Interaction::Handled;
        }
    }
    Interaction::Shared
}

/// A meal brings a baby closer to growing up, and never past it.
pub proof fn law_meal_grows_towards_adulthood(age: int)
    requires
        age < 0,
    ensures
        age < age_after_meal(age) <= 0,
{
}

/// An animal in love is not made to fall in love again: feeding a grown one twice in a row
/// changes it once.
pub proof fn law_second_meal_changes_nothing(mob: MobEntity, feeding: Feeding, player: Player)
    requires
        mob.age >= 0,
    ensures
        fed(fed(mob, feeding, player), feeding, player) == fed(mob, feeding, player),
{
}

/// The identifier of a newborn.
pub fn newborn_id() -> (id: u128)
    ensures
        is_random_id(id),
{
    fresh_id()
}

/// What is saved of an animal.
pub open spec fn animal_saved(
    nbt: Map<Seq<char>, NbtValue>,
    mob: MobEntity,
) -> Map<Seq<char>, NbtValue> {
    let with_love = nbt.insert("InLove"@, NbtValue::Int(mob.love_ticks));
    match mob.breeder {
        Some(id) => with_love.insert("LoveCause"@, NbtValue::Id(id)),
        None => with_love,
    }
}

/// An animal with its saved feelings restored.
pub open spec fn animal_restored(mob: MobEntity, nbt: Map<Seq<char>, NbtValue>) -> MobEntity {
    MobEntity {
        love_ticks: match int_at(nbt, "InLove"@) {
            Some(ticks) => ticks,
            None => 0,
        },
        breeder: id_at(nbt, "LoveCause"@),
        ..mob
    }
}

/// Saves whether the animal is in love, and because of whom.
pub fn write_animal_nbt(mob: &MobEntity, nbt: &mut NbtCompound)
    ensures
        final(nbt)@ == animal_saved(old(nbt)@, *mob),
{
    nbt.put_int("InLove", mob.love_ticks);
    if let Some(id) = mob.breeder {
        nbt.put_id("LoveCause", id);
    }
}

/// Restores whether the animal is in love, and because of whom.
pub fn read_animal_nbt(mob: &mut MobEntity, nbt: &NbtCompound)
    ensures
        *final(mob) == animal_restored(*old(mob), nbt@),
{
    let in_love: i32 = nbt.get_int("InLove").unwrap_or(0);
    let cause = nbt.get_id("LoveCause");
    mob.set_love_ticks(in_love, cause);
}

/// What was saved of an animal in an empty compound is what is restored, whatever animal it
/// is restored to.
pub proof fn law_animal_round_trip(mob: MobEntity, other: MobEntity)
    ensures
        animal_restored(other, animal_saved(Map::empty(), mob)).love_ticks == mob.love_ticks,
        animal_restored(other, animal_saved(Map::empty(), mob)).breeder == mob.breeder,
{
    reveal_strlit("InLove");
    reveal_strlit("LoveCause");
    assert("InLove"@.len() != "LoveCause"@.len());
}

/// One meal takes a tenth off the time that a baby has left to grow up, rounded down, and at least
/// one tick; it changes nothing else about the baby.
pub proof fn law_meal_skips_a_tenth(mob: MobEntity, feeding: Feeding, player: Player)
    requires
        feeding.food,
        feeding.can_age_up,
        mob.age < 0,
    ensures
        ({
            let gain = fed(mob, feeding, player).age - mob.age;
            &&& gain >= 1
            &&& mob.age <= -20 ==> -mob.age - 10 < 10 * gain <= -mob.age
            &&& mob.age > -20 ==> gain == 1
            &&& grows(mob, feeding) && !falls_in_love(mob, feeding)
            &&& fed(mob, feeding, player) == (MobEntity {
                age: fed(mob, feeding, player).age,
                ..mob
            })
            &&& feeding_effects(mob, feeding).contains(Effect::Play(feeding.sound))
            &&& !feeding_effects(mob, feeding).contains(Effect::LoveHearts)
        }),
{
    assert(feeding_effects(mob, feeding)[1] == Effect::Play(feeding.sound));
}

/// A grown animal that is ready and not yet in love is in love for thirty seconds after a meal,
/// by the player who fed it; nothing else about it changes.
pub proof fn law_meal_makes_love(mob: MobEntity, feeding: Feeding, player: Player)
    requires
        feeding.food,
        feeding.breeding_ready,
        mob.age >= 0,
        mob.love_ticks <= 0,
    ensures
        falls_in_love(mob, feeding) && !grows(mob, feeding),
        fed(mob, feeding, player) == (MobEntity {
            love_ticks: 600,
            breeder: Some(player.id),
            ..mob
        }),
        feeding_effects(mob, feeding).contains(Effect::LoveHearts),
        feeding_effects(mob, feeding).contains(Effect::Play(feeding.sound)),
{
    assert(feeding_effects(mob, feeding)[0] == Effect::LoveHearts);
    assert(feeding_effects(mob, feeding)[2] == Effect::Play(feeding.sound));
}

/// What is no food, what a grown animal is not ready for, and what does not make a baby grow,
/// changes nothing and asks for nothing.
pub proof fn law_useless_meal_changes_nothing(mob: MobEntity, feeding: Feeding, player: Player)
    requires
        !feeding.food || mob.age >= 0 && (!feeding.breeding_ready || mob.love_ticks > 0) || mob.age
            < 0 && !feeding.can_age_up,
    ensures
        !falls_in_love(mob, feeding) && !grows(mob, feeding),
        fed(mob, feeding, player) == mob,
        feeding_effects(mob, feeding).len() == 0,
{
}

/// Love and its cause are kept under the names by which saved animals are known, and the rest of
/// what was saved is left alone.
pub proof fn law_animals_are_saved_by_name(
    nbt: Map<Seq<char>, NbtValue>,
    mob: MobEntity,
    name: Seq<char>,
)
    ensures
        animal_saved(nbt, mob)["InLove"@] == NbtValue::Int(mob.love_ticks),
        mob.breeder is Some ==> animal_saved(nbt, mob)["LoveCause"@] == NbtValue::Id(
            mob.breeder->0,
        ),
        name != "InLove"@ && name != "LoveCause"@ ==> animal_saved(nbt, mob).contains_key(name)
            == nbt.contains_key(name) && animal_saved(nbt, mob)[name] == nbt[name],
{
    reveal_strlit("InLove");
    reveal_strlit("LoveCause");
    assert("InLove"@.len() != "LoveCause"@.len());
}

/// An animal takes what it is fed if and only if that makes it grow or fall in love: food for a
/// young one that can age, or for a grown one that is ready and not yet in love. One piece of it is
/// then gone from the hand, unless the player is creative; else nothing is.
pub proof fn law_when_animals_take_food(
    mob: MobEntity,
    feeding: Feeding,
    stack: ItemStack,
    gamemode: GameMode,
)
    ensures
        meal_outcome(mob, feeding) == Interaction::Handled <==> feeding.food && (mob.age < 0
            && feeding.can_age_up || mob.age >= 0 && feeding.breeding_ready && mob.love_ticks <= 0),
        meal_outcome(mob, feeding) == Interaction::Handled || meal_outcome(mob, feeding)
            == Interaction::Shared,
        meal_outcome(mob, feeding) == Interaction::Shared ==> stack_after_meal(
            mob,
            feeding,
            stack,
            gamemode,
        ) == stack,
        meal_outcome(mob, feeding) == Interaction::Handled && gamemode == GameMode::Creative
            ==> stack_after_meal(mob, feeding, stack, gamemode) == stack,
        meal_outcome(mob, feeding) == Interaction::Handled && gamemode != GameMode::Creative
            && stack.count >= 1 ==> stack_after_meal(mob, feeding, stack, gamemode).count
            == stack.count - 1,
{
}

} // verus!
