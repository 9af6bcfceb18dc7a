//! Parrots, whom cookies kill.

use vstd::prelude::*;

use crate::effect::{feeling, show_feeling, Effect, Interaction, Particle, SyncedValue};
use crate::goal::{entry, goal, look_at_player, watch_player, EntityKind, Goal, GoalEntry};
use crate::item::{after_use, ItemStack, Player};
use crate::mob::MobEntity;
use crate::nbt::{bool_at, bool_value, id_at, NbtCompound, NbtValue};
use crate::random::roll;
use crate::tamable::{flags_sync, tame_flags, tame_flags_byte};

verus! {

/// How long the poison of a cookie lasts.
pub const COOKIE_POISON_DURATION: i32 = 900;

/// What a parrot pursues.
pub open spec fn parrot_goals() -> Seq<GoalEntry> {
    seq![
        entry(0, Goal::EscapeDanger { speed: 1250 }),
        entry(0, Goal::Swim),
        entry(1, look_at_player(8000)),
        entry(2, Goal::Sit),
        entry(2, Goal::FollowOwner { speed: 1000, start_distance: 5000, stop_distance: 1000 }),
        entry(2, Goal::WanderAvoidingWater { speed: 1000 }),
    ]
}

/// A parrot.
pub struct ParrotEntity {
    pub mob_entity: MobEntity,
}

/// How a parrot is treated.
pub enum ParrotTreatment {
    /// It eats what kills it.
    Poisoned,
    /// It is offered food to tame it.
    Courted,
    /// Its owner tells it to sit or to stand.
    Ordered,
    /// The interaction that all mobs share decides.
    Shared,
}

/// How a player treats a parrot with an item.
pub open spec fn parrot_treatment(
    mob: MobEntity,
    poisonous: bool,
    food: bool,
    on_ground: bool,
    player: u128,
) -> ParrotTreatment {
    if poisonous {
        ParrotTreatment::Poisoned
    } else if mob.owner is None && food {
        ParrotTreatment::Courted
    } else if on_ground && mob.owner == Some(player) {
        ParrotTreatment::Ordered
    } else {
        ParrotTreatment::Shared
    }
}

/// A parrot after it was treated, where a draw of zero tames it.
pub open spec fn parrot_treated(
    mob: MobEntity,
    treatment: ParrotTreatment,
    player: u128,
    draw: int,
) -> MobEntity {
    match treatment {
        ParrotTreatment::Courted if draw == 0 => MobEntity { owner: Some(player), ..mob },
        ParrotTreatment::Ordered => MobEntity { ordered_to_sit: !mob.ordered_to_sit, ..mob },
        _ => mob,
    }
}

/// What treating a parrot asks of the host.
pub open spec fn parrot_effects(
    mob: MobEntity,
    treatment: ParrotTreatment,
    player: u128,
    draw: int,
) -> Seq<Effect> {
    match treatment {
        ParrotTreatment::Poisoned => seq![
            Effect::PoisonSelf(COOKIE_POISON_DURATION),
            Effect::DieBy { player },
        ],
        ParrotTreatment::Courted => if draw == 0 {
            seq![flags_sync(mob.ordered_to_sit, true), feeling(Particle::Heart)]
        } else {
            seq![feeling(Particle::Smoke)]
        },
        ParrotTreatment::Ordered => seq![flags_sync(!mob.ordered_to_sit, true)],
        ParrotTreatment::Shared => seq![],
    }
}

impl ParrotEntity {
    /// A new parrot.
    pub fn new(age: i32) -> (parrot: Self)
        ensures
            parrot.mob_entity.fresh(age),
            parrot.mob_entity.goals@ == parrot_goals(),
            parrot.mob_entity.targets@ == Seq::<GoalEntry>::empty(),
    {
        let goals = vec![
            goal(0, Goal::EscapeDanger { speed: 1250 }),
            goal(0, Goal::Swim),
            goal(1, watch_player(8000)),
            goal(2, Goal::Sit),
            goal(2, Goal::FollowOwner { speed: 1000, start_distance: 5000, stop_distance: 1000 }),
            goal(2, Goal::WanderAvoidingWater { speed: 1000 }),
        ];
        ParrotEntity { mob_entity: MobEntity::with_goals(age, goals, Vec::new()) }
    }

    /// Whether the parrot sits and whether it is tame, in one byte.
    pub fn tame_flags(&self) -> (flags: u8)
        ensures
            flags == tame_flags(self.mob_entity.ordered_to_sit, self.mob_entity.owner is Some),
    {
        tame_flags_byte(self.mob_entity.ordered_to_sit, self.mob_entity.is_tamed())
    }

    fn sync_tame_flags(&self, effects: &mut Vec<Effect>)
        ensures
            final(effects)@ == old(effects)@.push(
                flags_sync(self.mob_entity.ordered_to_sit, self.mob_entity.owner is Some),
            ),
    {
        effects.push(Effect::Sync(SyncedValue::TamableFlags(self.tame_flags())));
    }

    /// Eats a cookie, which poisons and kills the parrot.
    pub fn eat_cookie(&self, player: &Player, stack: &mut ItemStack, effects: &mut Vec<Effect>)
        ensures
            *final(stack) == after_use(*old(stack), player.gamemode, 1),
            final(effects)@ == old(effects)@ + seq![
                Effect::PoisonSelf(COOKIE_POISON_DURATION),
                Effect::DieBy { player: player.id },
            ],
    {
        stack.decrement_unless_creative(player.gamemode, 1);
        effects.push(Effect::PoisonSelf(COOKIE_POISON_DURATION));
        effects.push(Effect::DieBy { player: player.id });
    }

    /// Lets a player use an item on the parrot, where a draw of zero among ten tames it.
    pub fn interact_with_draw(
        &mut self,
        poisonous: bool,
        food: bool,
        on_ground: bool,
        player: &Player,
        draw: i32,
        stack: &mut ItemStack,
        effects: &mut Vec<Effect>,
    ) -> (outcome: Interaction)
        ensures
            ({
                let mob = old(self).mob_entity;
                let treatment = parrot_treatment(mob, poisonous, food, on_ground, player.id);
                &&& outcome == (if treatment is Shared {
                    Interaction::Shared
                } else {
                    Interaction::Handled
                })
                &&& final(self).mob_entity == parrot_treated(
                    mob,
                    treatment,
                    player.id,
                    draw as int,
                )
                &&& *final(stack) == (if treatment is Poisoned || treatment is Courted {
                    after_use(*old(stack), player.gamemode, 1)
                } else {
                    *old(stack)
                })
                &&& final(effects)@ == old(effects)@ + parrot_effects(
                    mob,
                    treatment,
                    player.id,
                    draw as int,
                )
            }),
    {
        if poisonous {
            self.eat_cookie(player, stack, effects);
            return Interaction::Handled;
        }
        if !self.mob_entity.is_tamed() && food {
            stack.decrement_unless_creative(player.gamemode, 1);
            if draw == 0 {
                self.mob_entity.set_owner(player.id);
                self.sync_tame_flags(effects);
                effects.push(show_feeling(Particle::Heart));
            } else {
                effects.push(show_feeling(Particle::Smoke));
            }
            return Interaction::Handled;
        }
        let owned = match self.mob_entity.owner {
            Some(owner) => owner == player.id,
            None => false,
        };
        if on_ground && owned {
            self.mob_entity.ordered_to_sit = !self.mob_entity.ordered_to_sit;
            self.sync_tame_flags(effects);
            return Interaction::Handled;
        }
        Interaction::Shared
    }

    /// Lets a player use an item on the parrot.
    pub fn mob_interact(
        &mut self,
        poisonous: bool,
        food: bool,
        on_ground: bool,
        player: &Player,
        stack: &mut ItemStack,
        effects: &mut Vec<Effect>,
    ) -> (outcome: Interaction)
        ensures
            ({
                let mob = old(self).mob_entity;
                let treatment = parrot_treatment(mob, poisonous, food, on_ground, player.id);
                &&& outcome == (if treatment is Shared {
                    Interaction::Shared
                } else {
                    Interaction::Handled
                })
                &&& *final(stack) == (if treatment is Poisoned || treatment is Courted {
                    after_use(*old(stack), player.gamemode, 1)
                } else {
                    *old(stack)
                })
                &&& exists|draw: int|
                    {
                        &&& 0 <= draw < 10
                        &&& final(self).mob_entity == #[trigger] parrot_treated(
                            mob,
                            treatment,
                            player.id,
                            draw,
                        )
                        &&& final(effects)@ == old(effects)@ + parrot_effects(
                            mob,
                            treatment,
                            player.id,
                            draw,
                        )
                    }
            }),
    {
        let draw: i32 = roll(0, 10);
        self.interact_with_draw(poisonous, food, on_ground, player, draw, stack, effects)
    }

    /// Tells clients about the parrot when they first see it.
    pub fn mob_init_data_tracker(&self, effects: &mut Vec<Effect>)
        ensures
            final(effects)@ == old(effects)@ + seq![
                flags_sync(self.mob_entity.ordered_to_sit, self.mob_entity.owner is Some),
                Effect::Sync(SyncedValue::TamableOwner(self.mob_entity.owner)),
            ],
    {
        self.sync_tame_flags(effects);
        effects.push(Effect::Sync(SyncedValue::TamableOwner(self.mob_entity.owner)));
    }

    /// Saves whose the parrot is and whether it was told to sit.
    pub fn write_nbt(&self, nbt: &mut NbtCompound)
        ensures
            final(nbt)@ == parrot_saved(old(nbt)@, self.mob_entity),
    {
        if let Some(owner) = self.mob_entity.owner {
            nbt.put_id("Owner", owner);
        }
        nbt.put_bool("Sitting", self.mob_entity.ordered_to_sit);
    }

    /// Restores whose the parrot is and whether it was told to sit.
    pub fn read_nbt(&mut self, nbt: &NbtCompound)
        ensures
            final(self).mob_entity == parrot_restored(old(self).mob_entity, nbt@),
    {
        if let Some(owner) = nbt.get_id("Owner") {
            self.mob_entity.set_owner(owner);
        }
        if let Some(sitting) = nbt.get_bool("Sitting") {
            self.mob_entity.ordered_to_sit = sitting;
        }
    }
}

/// What is saved of a parrot.
pub open spec fn parrot_saved(nbt: Map<Seq<char>, NbtValue>, mob: MobEntity) -> Map<
    Seq<char>,
    NbtValue,
> {
    let owned = match mob.owner {
        Some(owner) => nbt.insert("Owner"@, NbtValue::Id(owner)),
        None => nbt,
    };
    owned.insert("Sitting"@, bool_value(mob.ordered_to_sit))
}

/// A parrot with its saved state restored.
pub open spec fn parrot_restored(mob: MobEntity, nbt: Map<Seq<char>, NbtValue>) -> MobEntity {
    MobEntity {
        owner: match id_at(nbt, "Owner"@) {
            Some(owner) => Some(owner),
            None => mob.owner,
        },
        ordered_to_sit: match bool_at(nbt, "Sitting"@) {
            Some(sitting) => sitting,
            None => mob.ordered_to_sit,
        },
        ..mob
    }
}

/// A parrot that is restored to a new one has its owner again, and sits as it was told.
pub proof fn law_parrot_round_trip(mob: MobEntity, other: MobEntity)
    requires
        other.owner is None,
    ensures
        parrot_restored(other, parrot_saved(Map::empty(), mob)).owner == mob.owner,
        parrot_restored(other, parrot_saved(Map::empty(), mob)).ordered_to_sit
            == mob.ordered_to_sit,
{
    reveal_strlit("Owner");
    reveal_strlit("Sitting");
    assert("Owner"@.len() == 5 && "Sitting"@.len() == 7);
}

/// Only its owner tells a parrot to sit, and it does so only on the ground; and telling it
/// twice changes nothing.
pub proof fn law_only_the_owner_orders_a_parrot(
    mob: MobEntity,
    food: bool,
    on_ground: bool,
    player: u128,
    draw: int,
)
    ensures
        ({
            let treatment = parrot_treatment(mob, false, food, on_ground, player);
            let once = parrot_treated(mob, treatment, player, draw);
            &&& once.ordered_to_sit != mob.ordered_to_sit ==> on_ground && mob.owner == Some(player)
            &&& treatment is Ordered ==> parrot_treated(
                once,
                parrot_treatment(once, false, food, on_ground, player),
                player,
                draw,
            ) == mob
        }),
{
}

/// What is done to a parrot: a cookie always poisons it; else a wild one is courted with food, and
/// a tame one on the ground takes orders from its owner alone.
pub proof fn law_treatments_of_parrots(
    mob: MobEntity,
    poisonous: bool,
    food: bool,
    on_ground: bool,
    player: u128,
)
    ensures
        ({
            let treatment = parrot_treatment(mob, poisonous, food, on_ground, player);
            &&& treatment is Poisoned <==> poisonous
            &&& treatment is Courted <==> !poisonous && food && mob.owner is None
            &&& treatment is Ordered <==> !poisonous && on_ground && mob.owner is Some
                && mob.owner->0 == player
        }),
{
}

/// One draw in ten tames a courted parrot, and only then does it get an owner, who is the one who
/// courted it.
pub proof fn law_parrot_is_won(
    mob: MobEntity,
    poisonous: bool,
    food: bool,
    on_ground: bool,
    player: u128,
    draw: int,
)
    ensures
        ({
            let treatment = parrot_treatment(mob, poisonous, food, on_ground, player);
            let after = parrot_treated(mob, treatment, player, draw);
            let told = parrot_effects(mob, treatment, player, draw);
            &&& after.owner != mob.owner <==> !poisonous && food && mob.owner is None && draw == 0
            &&& after.owner != mob.owner ==> after.owner == Some(player) && told.len() == 2 && told[0]
                == flags_sync(mob.ordered_to_sit, true) && told[1] == feeling(Particle::Heart)
            &&& !poisonous && food && mob.owner is None && draw != 0 ==> after == mob && told == seq![
                feeling(Particle::Smoke),
            ]
        }),
{
}

/// A poisoned parrot is poisoned for nine hundred ticks and dies by the player; nothing else about
/// it changes.
pub proof fn law_cookies_kill_parrots(mob: MobEntity, food: bool, on_ground: bool, player: u128, draw: int)
    ensures
        ({
            let treatment = parrot_treatment(mob, true, food, on_ground, player);
            let told = parrot_effects(mob, treatment, player, draw);
            &&& parrot_treated(mob, treatment, player, draw) == mob
            &&& told.len() == 2
            &&& told[0] == Effect::PoisonSelf(900)
            &&& told[1] == (Effect::DieBy { player })
        }),
{
}

/// The order of its owner turns a parrot's sitting round and is told to the watchers.
pub proof fn law_order_turns_sitting_round(mob: MobEntity, food: bool, player: u128, draw: int)
    requires
        mob.owner == Some(player),
    ensures
        ({
            let treatment = parrot_treatment(mob, false, food, true, player);
            let after = parrot_treated(mob, treatment, player, draw);
            &&& after.ordered_to_sit == !mob.ordered_to_sit
            &&& after.owner == mob.owner
            &&& parrot_effects(mob, treatment, player, draw) == seq![
                flags_sync(after.ordered_to_sit, true),
            ]
        }),
{
}

/// A parrot is saved by its owner, if it has one, and by whether it sits.
pub proof fn law_parrots_are_saved_by_name(nbt: Map<Seq<char>, NbtValue>, mob: MobEntity)
    ensures
        mob.owner is Some ==> parrot_saved(nbt, mob)["Owner"@] == NbtValue::Id(mob.owner->0),
        bool_at(parrot_saved(nbt, mob), "Sitting"@) == Some(mob.ordered_to_sit),
        id_at(nbt, "Owner"@) is None ==> parrot_restored(mob, nbt).owner == mob.owner,
        bool_at(nbt, "Sitting"@) is None ==> parrot_restored(mob, nbt).ordered_to_sit
            == mob.ordered_to_sit,
        parrot_restored(mob, nbt).age == mob.age,
{
    reveal_strlit("Owner");
    reveal_strlit("Sitting");
    assert("Owner"@.len() == 5 && "Sitting"@.len() == 7);
}

/// What parrots pursue, and how urgently: this and nothing else.
pub proof fn law_what_parrots_pursue(e: GoalEntry)
    ensures
        parrot_goals().contains(e) <==> {
            ||| e.priority == 0 && e.goal == (Goal::EscapeDanger { speed: 1250 })
            ||| e.priority == 0 && e.goal == Goal::Swim
            ||| e.priority == 1 && e.goal == (Goal::LookAt { kind: EntityKind::Player, range: 8000 })
            ||| e.priority == 2 && e.goal == Goal::Sit
            ||| e.priority == 2 && e.goal == (Goal::FollowOwner { speed: 1000, start_distance: 5000, stop_distance: 1000 })
            ||| e.priority == 2 && e.goal == (Goal::WanderAvoidingWater { speed: 1000 })
        },
        parrot_goals().len() == 6,
{
    let all = parrot_goals();
    assert(all[0] == (GoalEntry { priority: 0, goal: Goal::EscapeDanger { speed: 1250 } }));
    assert(all[1] == (GoalEntry { priority: 0, goal: Goal::Swim }));
    assert(all[2] == (GoalEntry { priority: 1, goal: Goal::LookAt { kind: EntityKind::Player, range: 8000 } }));
    assert(all[3] == (GoalEntry { priority: 2, goal: Goal::Sit }));
    assert(all[4] == (GoalEntry { priority: 2, goal: Goal::FollowOwner { speed: 1000, start_distance: 5000, stop_distance: 1000 } }));
    assert(all[5] == (GoalEntry { priority: 2, goal: Goal::WanderAvoidingWater { speed: 1000 } }));
}

} // verus!
