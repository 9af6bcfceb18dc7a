//! Animals that are ridden with a saddle and steered with something on a stick.

use vstd::prelude::*;

use crate::animal::{
    animal_interact, falls_in_love, fed, feeding_effects, grows, meal_outcome, stack_after_meal,
    Feeding,
};
use crate::effect::{Effect, EquipmentSlot, Interaction, Sound};
use crate::equine::equip_item;
use crate::item::{after_use, GameMode, Item, ItemStack, Player};
use crate::mob::MobEntity;

verus! {

/// What an interaction reads of a saddled animal's surroundings and equipment.
#[derive(Clone, Copy)]
pub struct SaddleContext {
    pub alive: bool,
    /// Whether a saddle for this kind of animal is in the saddle slot.
    pub wears_saddle: bool,
    /// Whether nothing is in the saddle slot.
    pub slot_empty: bool,
    /// Whether the item in hand is a saddle that is put on by using it.
    pub fits_saddle: bool,
    pub has_passengers: bool,
    pub breeding_ready: bool,
}

/// The player in front on an animal, with what is in both hands.
#[derive(Clone, Copy)]
pub struct Rider {
    pub main_hand: Item,
    pub off_hand: Item,
}

/// Whether the animal is saddled.
pub open spec fn saddled(mob: MobEntity, cx: SaddleContext) -> bool {
    cx.alive && mob.age >= 0 && cx.wears_saddle
}

/// Whether a player mounts the animal instead of feeding it.
pub open spec fn mounts(mob: MobEntity, food: bool, cx: SaddleContext, player: Player) -> bool {
    !food && saddled(mob, cx) && !cx.has_passengers && !player.sneaking
}

/// How the animal takes food.
pub open spec fn saddle_feeding(food: bool, cx: SaddleContext, sound: Sound) -> Feeding {
    Feeding { food, breeding_ready: cx.breeding_ready, can_age_up: true, sound }
}

/// Whether the animal eats what it is offered.
pub open spec fn takes_food(mob: MobEntity, feeding: Feeding) -> bool {
    falls_in_love(mob, feeding) || grows(mob, feeding)
}

/// Whether a rider steers the animal with what lures it on a stick.
pub open spec fn steers(
    mob: MobEntity,
    cx: SaddleContext,
    rider: Option<Rider>,
    stick: Item,
    otherwise: bool,
) -> bool {
    otherwise || saddled(mob, cx) && rider is Some && (rider->0.main_hand == stick
        || rider->0.off_hand == stick)
}

/// How an animal answers to being saddled.
pub open spec fn saddling_outcome(mob: MobEntity, cx: SaddleContext) -> Interaction {
    if takes_saddle(mob, cx) {
        Interaction::Handled
    } else {
        Interaction::Refused
    }
}

/// What is left in the hand of a player who has saddled an animal.
pub open spec fn stack_after_saddling(
    mob: MobEntity,
    cx: SaddleContext,
    stack: ItemStack,
    gamemode: GameMode,
) -> ItemStack {
    if takes_saddle(mob, cx) {
        after_use(stack, gamemode, 1)
    } else {
        stack
    }
}

/// Lets a player mount a saddled animal, or feed it. Where the interaction that all mobs share
/// decides and does nothing, `put_saddle_on` follows.
pub fn ride_or_feed(
    mob: &mut MobEntity,
    food: bool,
    sound: Sound,
    cx: &SaddleContext,
    player: &Player,
    stack: &mut ItemStack,
    effects: &mut Vec<Effect>,
) -> (outcome: Interaction)
    requires
        grows(*old(mob), saddle_feeding(food, *cx, sound)) ==> old(mob).age > i32::MIN,
    ensures
        mounts(*old(mob), food, *cx, *player) ==> {
            &&& outcome == Interaction::Handled
            &&& *final(mob) == *old(mob)
            &&& *final(stack) == *old(stack)
            &&& final(effects)@ == old(effects)@.push(Effect::Mount { player: player.id })
        },
        !mounts(*old(mob), food, *cx, *player) ==> {
            let feeding = saddle_feeding(food, *cx, sound);
            &&& outcome == meal_outcome(*old(mob), feeding)
            &&& *final(mob) == fed(*old(mob), feeding, *player)
            &&& *final(stack) == stack_after_meal(
                *old(mob),
                feeding,
                *old(stack),
                player.gamemode,
            )
            &&& final(effects)@ == old(effects)@ + feeding_effects(*old(mob), feeding)
        },
{
    let is_saddled = cx.alive && !mob.is_baby() && cx.wears_saddle;
    if !food && is_saddled && !cx.has_passengers && !player.sneaking {
        effects.push(Effect::Mount { player: player.id });
        return Interaction::Handled;
    }
    let feeding = Feeding { food, breeding_ready: cx.breeding_ready, can_age_up: true, sound };
    animal_interact(mob, feeding, player, stack, effects)
}

/// Whether a saddle can be put on the animal.
pub open spec fn takes_saddle(mob: MobEntity, cx: SaddleContext) -> bool {
    cx.slot_empty && cx.alive && mob.age >= 0 && cx.fits_saddle
}

/// What offering a saddle asks of the host.
pub open spec fn saddling_effects(mob: MobEntity, cx: SaddleContext, stack: ItemStack) -> Seq<
    Effect,
> {
    if takes_saddle(mob, cx) {
        seq![
            Effect::Equip {
                slot: EquipmentSlot::Saddle,
                stack: (ItemStack {
                    item: stack.item,
                    count: if stack.count < 1 { stack.count } else { 1 },
                }),
            },
            Effect::PlayEquipSound(stack.item),
        ]
    } else {
        seq![]
    }
}

/// Puts a saddle on a grown animal that wears none.
pub fn put_saddle_on(
    mob: &MobEntity,
    cx: &SaddleContext,
    player: &Player,
    stack: &mut ItemStack,
    effects: &mut Vec<Effect>,
) -> (outcome: Interaction)
    ensures
        outcome == saddling_outcome(*mob, *cx),
        *final(stack) == stack_after_saddling(*mob, *cx, *old(stack), player.gamemode),
        final(effects)@ == old(effects)@ + saddling_effects(*mob, *cx, *old(stack)),
{
    if cx.slot_empty && cx.alive && !mob.is_baby() && cx.fits_saddle {
        equip_item(EquipmentSlot::Saddle, player, stack, effects);
        return Interaction::Handled;
    }
    Interaction::Refused
}

/// Whether the player in front steers the animal: it is saddled, and the player holds the stick
/// in either hand. `otherwise` is what holds of mobs in general.
pub fn is_steered_with(
    mob: &MobEntity,
    cx: &SaddleContext,
    rider: Option<Rider>,
    stick: Item,
    otherwise: bool,
) -> (steered: bool)
    ensures
        steered == steers(*mob, *cx, rider, stick, otherwise),
{
    let is_saddled = cx.alive && !mob.is_baby() && cx.wears_saddle;
    if !is_saddled {
        return otherwise;
    }
    match rider {
        Some(player) => {
            if player.main_hand == stick {
                return true;
            }
            player.off_hand == stick || otherwise
        },
        None => otherwise,
    }
}

/// A baby is neither mounted nor saddled, whatever the player holds.
pub proof fn law_babies_carry_nobody(mob: MobEntity, food: bool, cx: SaddleContext, player: Player)
    requires
        mob.age < 0,
    ensures
        !mounts(mob, food, cx, player),
        !takes_saddle(mob, cx),
{
}

/// A player mounts a living, grown and saddled animal that carries nobody, unless the player
/// sneaks or offers food; and no other.
pub proof fn law_who_is_mounted(mob: MobEntity, food: bool, cx: SaddleContext, player: Player)
    ensures
        cx.alive && mob.age >= 0 && cx.wears_saddle && !cx.has_passengers && !food
            && !player.sneaking ==> mounts(mob, food, cx, player),
        mounts(mob, food, cx, player) ==> cx.alive && mob.age >= 0 && cx.wears_saddle
            && !cx.has_passengers && !food && !player.sneaking,
{
}

/// A saddle goes on a living, grown animal with no saddle yet that the item fits, one of the
/// stack and no more; no other animal gets anything.
pub proof fn law_who_is_saddled(mob: MobEntity, cx: SaddleContext, stack: ItemStack)
    ensures
        takes_saddle(mob, cx) <==> cx.alive && mob.age >= 0 && cx.slot_empty && cx.fits_saddle,
        takes_saddle(mob, cx) && stack.count >= 1 ==> saddling_effects(mob, cx, stack).contains(
            Effect::Equip {
                slot: EquipmentSlot::Saddle,
                stack: (ItemStack { item: stack.item, count: 1 }),
            },
        ),
        !takes_saddle(mob, cx) ==> saddling_effects(mob, cx, stack).len() == 0,
{
    if takes_saddle(mob, cx) {
        assert(saddling_effects(mob, cx, stack)[0] is Equip);
        let first = saddling_effects(mob, cx, stack)[0];
        assert(saddling_effects(mob, cx, stack).contains(first));
    }
}

/// Food offered to an animal with a saddle works on it as on any other animal of its age.
pub proof fn law_saddled_animals_eat(mob: MobEntity, food: bool, cx: SaddleContext, sound: Sound)
    ensures
        takes_food(mob, saddle_feeding(food, cx, sound)) <==> food && (mob.age < 0
            || cx.breeding_ready && mob.love_ticks <= 0),
{
}

/// A rider with the lure in either hand steers an animal that is saddled, and nobody else does.
pub proof fn law_who_steers(
    mob: MobEntity,
    cx: SaddleContext,
    rider: Option<Rider>,
    stick: Item,
)
    ensures
        steers(mob, cx, rider, stick, true),
        steers(mob, cx, rider, stick, false) ==> rider is Some && cx.alive && mob.age >= 0
            && cx.wears_saddle,
        rider is Some && rider->0.main_hand != stick && rider->0.off_hand != stick ==> !steers(
            mob,
            cx,
            rider,
            stick,
            false,
        ),
        rider is Some && rider->0.main_hand == stick && cx.alive && mob.age >= 0 && cx.wears_saddle
            ==> steers(mob, cx, rider, stick, false),
        rider is Some && rider->0.off_hand == stick && cx.alive && mob.age >= 0 && cx.wears_saddle
            ==> steers(mob, cx, rider, stick, false),
{
}

/// A saddle that is taken is gone from the hand, unless the player is creative; one that is not
/// taken stays there.
pub proof fn law_saddling_takes_the_saddle(
    mob: MobEntity,
    cx: SaddleContext,
    stack: ItemStack,
    gamemode: GameMode,
)
    ensures
        saddling_outcome(mob, cx) == Interaction::Handled <==> cx.slot_empty && cx.alive && mob.age >= 0
            && cx.fits_saddle,
        saddling_outcome(mob, cx) != Interaction::Handled <==> saddling_outcome(mob, cx)
            == Interaction::Refused,
        saddling_outcome(mob, cx) == Interaction::Refused || gamemode == GameMode::Creative
            ==> stack_after_saddling(mob, cx, stack, gamemode) == stack,
        saddling_outcome(mob, cx) == Interaction::Handled && gamemode != GameMode::Creative
            && stack.count >= 1 ==> stack_after_saddling(mob, cx, stack, gamemode).count == stack.count
            - 1,
{
}

} // verus!
