//! Camels, which dash and carry two.

use vstd::prelude::*;

use crate::effect::{Effect, EquipmentSlot, Interaction, SyncedValue};
use crate::equine::{equip_item, has_saddled_player_passenger};
use crate::goal::{entry, goal, look_at_player, watch_player, EntityKind, Goal, GoalEntry};
use crate::item::{after_use, ItemStack, Player};
use crate::mob::MobEntity;
use crate::ticks::{count_down, counted_down};

verus! {

/// How long a camel rests after a dash.
pub const DASH_COOLDOWN_TICKS: i32 = 55;

/// From when on a dash may end.
pub const DASH_CLEAR_THRESHOLD: i32 = 50;

/// How many riders a camel carries.
pub const MAX_PASSENGERS: usize = 2;

/// What a camel pursues.
pub open spec fn camel_goals() -> Seq<GoalEntry> {
    seq![
        entry(0, Goal::Swim),
        entry(1, Goal::CamelSit),
        entry(2, Goal::Wander { speed: 1000 }),
        entry(3, look_at_player(6000)),
        entry(4, Goal::LookAround),
    ]
}

/// A camel.
pub struct CamelEntity {
    pub mob_entity: MobEntity,
    pub dashing: bool,
    pub dash_cooldown: i32,
}

/// What an interaction reads of a camel's surroundings and equipment.
#[derive(Clone, Copy)]
pub struct CamelContext {
    /// Whether the interaction that all mobs share has done something.
    pub shared_handled: bool,
    /// Whether the item in hand is a saddle that is put on by using it.
    pub fits_saddle: bool,
    pub wears_saddle: bool,
    pub passengers: usize,
}

/// What a camel sees of the world in one tick.
#[derive(Clone, Copy)]
pub struct CamelTick {
    pub on_ground: bool,
    pub in_water: bool,
    pub has_passengers: bool,
}

/// The message that tells clients whether a camel dashes.
pub open spec fn dash_sync(dashing: bool) -> Effect {
    Effect::Sync(SyncedValue::CamelDash(dashing))
}

/// Whether a dash ends in a tick.
pub open spec fn dash_ends(camel: CamelEntity, seen: CamelTick) -> bool {
    camel.dashing && camel.dash_cooldown < DASH_CLEAR_THRESHOLD && (seen.on_ground || seen.in_water
        || seen.has_passengers)
}

/// A camel after one tick.
pub open spec fn camel_ticked(camel: CamelEntity, seen: CamelTick) -> CamelEntity {
    CamelEntity {
        dashing: camel.dashing && !dash_ends(camel, seen),
        dash_cooldown: counted_down(camel.dash_cooldown),
        ..camel
    }
}

/// Whether a player puts a saddle on a camel.
pub open spec fn camel_takes_saddle(mob: MobEntity, cx: CamelContext, stack: ItemStack) -> bool {
    !cx.shared_handled && mob.age >= 0 && !stack.holds_nothing() && cx.fits_saddle
        && !cx.wears_saddle
}

/// Whether a player mounts a camel.
pub open spec fn camel_is_mounted(mob: MobEntity, cx: CamelContext, stack: ItemStack) -> bool {
    !cx.shared_handled && mob.age >= 0 && !camel_takes_saddle(mob, cx, stack) && cx.passengers
        < MAX_PASSENGERS
}

/// How a camel answers to a player.
pub open spec fn camel_outcome(mob: MobEntity, cx: CamelContext, stack: ItemStack) -> Interaction {
    if cx.shared_handled || camel_takes_saddle(mob, cx, stack) || camel_is_mounted(
        mob,
        cx,
        stack,
    ) {
        Interaction::Handled
    } else {
        Interaction::Refused
    }
}

/// What a player's hand on a camel asks of the host.
pub open spec fn camel_answer_effects(
    mob: MobEntity,
    cx: CamelContext,
    stack: ItemStack,
    player: Player,
) -> Seq<Effect> {
    if camel_takes_saddle(mob, cx, stack) {
        seq![
            Effect::Equip {
                slot: EquipmentSlot::Saddle,
                stack: (ItemStack { item: stack.item, count: 1 }),
            },
            Effect::PlayEquipSound(stack.item),
        ]
    } else if camel_is_mounted(mob, cx, stack) {
        seq![Effect::Mount { player: player.id }]
    } else {
        seq![]
    }
}

impl CamelEntity {
    /// A new camel that does not dash.
    pub fn new(age: i32) -> (camel: Self)
        ensures
            camel.mob_entity.fresh(age),
            camel.mob_entity.goals@ == camel_goals(),
            camel.mob_entity.targets@ == Seq::<GoalEntry>::empty(),
            !camel.dashing,
            camel.dash_cooldown == 0,
    {
        let goals = vec![
            goal(0, Goal::Swim),
            goal(1, Goal::CamelSit),
            goal(2, Goal::Wander { speed: 1000 }),
            goal(3, watch_player(6000)),
            goal(4, Goal::LookAround),
        ];
        CamelEntity {
            mob_entity: MobEntity::with_goals(age, goals, Vec::new()),
            dashing: false,
            dash_cooldown: 0,
        }
    }

    pub fn is_dashing(&self) -> (dashing: bool)
        ensures
            dashing == self.dashing,
    {
        self.dashing
    }

    pub fn set_dashing(&mut self, dashing: bool, effects: &mut Vec<Effect>)
        ensures
            *final(self) == (CamelEntity { dashing, ..*old(self) }),
            final(effects)@ == old(effects)@.push(dash_sync(dashing)),
    {
        self.dashing = dashing;
        effects.push(Effect::Sync(SyncedValue::CamelDash(dashing)));
    }

    /// Starts a dash.
    pub fn dash(&mut self, effects: &mut Vec<Effect>)
        ensures
            *final(self) == (CamelEntity {
                dashing: true,
                dash_cooldown: DASH_COOLDOWN_TICKS,
                ..*old(self)
            }),
            final(effects)@ == old(effects)@.push(dash_sync(true)),
    {
        self.dash_cooldown = DASH_COOLDOWN_TICKS;
        self.set_dashing(true, effects);
    }

    /// Whether a player in front controls the camel: only a saddled one. `otherwise` is what
    /// holds of mobs in general.
    pub fn has_controlling_passenger(
        &self,
        wears_saddle: bool,
        first_passenger_is_player: bool,
        otherwise: bool,
    ) -> (controlled: bool)
        ensures
            controlled == (wears_saddle && first_passenger_is_player || otherwise),
    {
        has_saddled_player_passenger(wears_saddle, first_passenger_is_player, otherwise)
    }

    /// Lets a player use an item on the camel, after the interaction that all mobs share: a
    /// saddle is put on, and otherwise the player mounts while there is room.
    pub fn mob_interact(
        &self,
        cx: &CamelContext,
        player: &Player,
        stack: &mut ItemStack,
        effects: &mut Vec<Effect>,
    ) -> (outcome: Interaction)
        ensures
            ({
                let saddles = camel_takes_saddle(self.mob_entity, *cx, *old(stack));
                &&& outcome == camel_outcome(self.mob_entity, *cx, *old(stack))
                &&& *final(stack) == (if saddles {
                    after_use(*old(stack), player.gamemode, 1)
                } else {
                    *old(stack)
                })
                &&& final(effects)@ == old(effects)@ + camel_answer_effects(
                    self.mob_entity,
                    *cx,
                    *old(stack),
                    *player,
                )
            }),
    {
        if cx.shared_handled {
            return Interaction::Handled;
        }
        if self.mob_entity.is_baby() {
            return Interaction::Refused;
        }
        if !stack.is_empty() && cx.fits_saddle && !cx.wears_saddle {
            equip_item(EquipmentSlot::Saddle, player, stack, effects);
            return Interaction::Handled;
        }
        if cx.passengers < MAX_PASSENGERS {
            effects.push(Effect::Mount { player: player.id });
            return Interaction::Handled;
        }
        Interaction::Refused
    }

    /// Tells clients about the camel when they first see it.
    pub fn mob_init_data_tracker(&self, effects: &mut Vec<Effect>)
        ensures
            final(effects)@ == old(effects)@ + (if self.mob_entity.age < 0 {
                seq![Effect::Sync(SyncedValue::Baby(true))]
            } else {
                seq![]
            }) + seq![dash_sync(false)],
    {
        if self.mob_entity.is_baby() {
            effects.push(Effect::Sync(SyncedValue::Baby(true)));
        }
        effects.push(Effect::Sync(SyncedValue::CamelDash(false)));
    }

    /// One tick. A dash ends once the camel has rested a little and has landed, swims or is
    /// ridden.
    pub fn mob_tick(&mut self, seen: &CamelTick, effects: &mut Vec<Effect>)
        ensures
            *final(self) == camel_ticked(*old(self), *seen),
            final(effects)@ == old(effects)@ + (if dash_ends(*old(self), *seen) {
                seq![dash_sync(false)]
            } else {
                seq![]
            }),
    {
        if self.is_dashing() && self.dash_cooldown < DASH_CLEAR_THRESHOLD {
            let grounded = seen.on_ground || seen.in_water;
            if grounded || seen.has_passengers {
                self.set_dashing(false, effects);
            }
        }
        self.dash_cooldown = count_down(self.dash_cooldown);
    }
}

/// A camel after some ticks that are alike.
pub open spec fn camel_after(camel: CamelEntity, seen: CamelTick, ticks: nat) -> CamelEntity
    decreases ticks,
{
    if ticks == 0 {
        camel
    } else {
        camel_ticked(camel_after(camel, seen, (ticks - 1) as nat), seen)
    }
}

/// A dash of a camel on the ground lasts for six ticks: the rest has to fall below the
/// threshold first.
pub proof fn law_dash_lasts(camel: CamelEntity, seen: CamelTick, ticks: nat)
    requires
        camel.dashing,
        camel.dash_cooldown == DASH_COOLDOWN_TICKS,
        seen.on_ground,
        ticks <= 7,
    ensures
        camel_after(camel, seen, ticks).dash_cooldown == DASH_COOLDOWN_TICKS - ticks,
        camel_after(camel, seen, ticks).dashing == (ticks <= DASH_COOLDOWN_TICKS
            - DASH_CLEAR_THRESHOLD + 1),
    decreases ticks,
{
    if ticks > 0 {
        law_dash_lasts(camel, seen, (ticks - 1) as nat);
    }
}

/// There is never a third rider, and never one on a baby.
pub proof fn law_camel_carries_two(mob: MobEntity, cx: CamelContext, stack: ItemStack)
    ensures
        cx.passengers >= MAX_PASSENGERS ==> !camel_is_mounted(mob, cx, stack),
        mob.age < 0 ==> !camel_is_mounted(mob, cx, stack),
{
}

/// A dash ends, once its first moments are over, as soon as the camel touches ground or water or
/// carries somebody, and not before; the time until the next dash passes in any case.
pub proof fn law_when_dashes_end(camel: CamelEntity, seen: CamelTick)
    ensures
        ({
            let after = camel_ticked(camel, seen);
            let lands = seen.on_ground || seen.in_water || seen.has_passengers;
            &&& dash_ends(camel, seen) <==> camel.dashing && camel.dash_cooldown < 50 && lands
            &&& after.dashing <==> camel.dashing && (camel.dash_cooldown >= 50 || !lands)
            &&& camel.dash_cooldown > 0 ==> after.dash_cooldown == camel.dash_cooldown - 1
            &&& camel.dash_cooldown <= 0 ==> after.dash_cooldown == camel.dash_cooldown
            &&& after.mob_entity == camel.mob_entity
        }),
{
}

/// A grown camel takes a saddle that it is offered and does not wear yet; otherwise it is mounted
/// while it has room for one more of two. Nothing of this happens once what all mobs share has
/// done something, or to a baby.
pub proof fn law_how_camels_answer(mob: MobEntity, cx: CamelContext, stack: ItemStack)
    ensures
        ({
            let free = !cx.shared_handled && mob.age >= 0;
            let saddle = !stack.holds_nothing() && cx.fits_saddle && !cx.wears_saddle;
            &&& camel_takes_saddle(mob, cx, stack) <==> free && saddle
            &&& camel_is_mounted(mob, cx, stack) <==> free && !saddle && cx.passengers < 2
        }),
{
}

/// What camels pursue, and how urgently: this and nothing else.
pub proof fn law_what_camels_pursue(e: GoalEntry)
    ensures
        camel_goals().contains(e) <==> {
            ||| e.priority == 0 && e.goal == Goal::Swim
            ||| e.priority == 1 && e.goal == Goal::CamelSit
            ||| e.priority == 2 && e.goal == (Goal::Wander { speed: 1000 })
            ||| e.priority == 3 && e.goal == (Goal::LookAt { kind: EntityKind::Player, range: 6000 })
            ||| e.priority == 4 && e.goal == Goal::LookAround
        },
        camel_goals().len() == 5,
{
    let all = camel_goals();
    assert(all[0] == (GoalEntry { priority: 0, goal: Goal::Swim }));
    assert(all[1] == (GoalEntry { priority: 1, goal: Goal::CamelSit }));
    assert(all[2] == (GoalEntry { priority: 2, goal: Goal::Wander { speed: 1000 } }));
    assert(all[3] == (GoalEntry { priority: 3, goal: Goal::LookAt { kind: EntityKind::Player, range: 6000 } }));
    assert(all[4] == (GoalEntry { priority: 4, goal: Goal::LookAround }));
}

/// A grown camel is saddled or mounted by whoever is not busy with it otherwise: saddled where it
/// can be, else mounted where there is room; each is asked of the host.
pub proof fn law_what_camels_let_be_done(
    mob: MobEntity,
    cx: CamelContext,
    stack: ItemStack,
    player: Player,
)
    ensures
        ({
            let told = camel_answer_effects(mob, cx, stack, player);
            let saddles = !stack.holds_nothing() && cx.fits_saddle && !cx.wears_saddle;
            &&& camel_outcome(mob, cx, stack) == Interaction::Handled <==> cx.shared_handled || (mob.age
                >= 0 && (saddles || cx.passengers <= 1))
            &&& camel_outcome(mob, cx, stack) != Interaction::Handled ==> camel_outcome(mob, cx, stack)
                == Interaction::Refused && told.len() == 0
            &&& cx.shared_handled || mob.age < 0 ==> told.len() == 0
            &&& !cx.shared_handled && mob.age >= 0 && saddles ==> told.len() == 2 && told[0] == (
            Effect::Equip {
                slot: EquipmentSlot::Saddle,
                stack: ItemStack { item: stack.item, count: 1 },
            }) && told[1] == Effect::PlayEquipSound(stack.item)
            &&& !cx.shared_handled && mob.age >= 0 && !saddles && cx.passengers <= 1 ==> told == seq![
                Effect::Mount { player: player.id },
            ]
        }),
{
}

} // verus!
