//! Iron golems, which guard villages.

use vstd::prelude::*;

use crate::double::{is_less, less};
use crate::effect::{Effect, Interaction, Sound, SyncedValue};
use crate::goal::{entry, goal, look_at_player, watch_player, EntityKind, Goal, GoalEntry};
use crate::item::{after_use, Item, ItemStack, Player};
use crate::mob::MobEntity;
use crate::nbt::{bool_at, bool_value, NbtCompound, NbtValue};
use crate::random::roll;
use crate::ticks::{count_down, counted_down};

verus! {

/// By how much an iron ingot heals a golem.
pub const IRON_INGOT_HEAL_AMOUNT: u32 = 25;

/// How badly a golem is cracked.
#[derive(Clone, Copy, PartialEq, Eq, Structural, Debug)]
pub enum Crackiness {
    Intact,
    Low,
    Medium,
    High,
}

/// A quarter, by its bits.
pub const QUARTER: u64 = 0x3FD0_0000_0000_0000;

/// A half, by its bits.
pub const HALF: u64 = 0x3FE0_0000_0000_0000;

/// Three quarters, by its bits.
pub const THREE_QUARTERS: u64 = 0x3FE8_0000_0000_0000;

/// How badly a golem is cracked that has kept a fraction of its health, given by its bits.
pub open spec fn crackiness_at(fraction: u64) -> Crackiness {
    if less(fraction, QUARTER) {
        Crackiness::High
    } else if less(fraction, HALF) {
        Crackiness::Medium
    } else if less(fraction, THREE_QUARTERS) {
        Crackiness::Low
    } else {
        Crackiness::Intact
    }
}

/// How badly a golem is cracked that has kept a fraction of its health, given by its bits.
pub fn golem_crackiness(fraction: u64) -> (crackiness: Crackiness)
    ensures
        crackiness == crackiness_at(fraction),
{
    if is_less(fraction, QUARTER) {
        Crackiness::High
    } else if is_less(fraction, HALF) {
        Crackiness::Medium
    } else if is_less(fraction, THREE_QUARTERS) {
        Crackiness::Low
    } else {
        Crackiness::Intact
    }
}

/// What an iron golem pursues.
pub open spec fn iron_golem_goals() -> Seq<GoalEntry> {
    seq![
        entry(1, Goal::MeleeAttack { speed: 1000, pause_when_idle: true }),
        entry(5, Goal::OfferFlower),
        entry(6, Goal::Wander { speed: 600 }),
        entry(7, look_at_player(6000)),
        entry(8, Goal::LookAround),
    ]
}

/// Whom an iron golem attacks.
pub open spec fn iron_golem_targets() -> Seq<GoalEntry> {
    seq![
        entry(1, Goal::DefendVillage),
        entry(2, Goal::Revenge { group: true }),
        entry(3, Goal::NearestHostile),
    ]
}

/// An iron golem.
pub struct IronGolemEntity {
    pub mob_entity: MobEntity,
    /// Whether a player built the golem.
    pub player_created: bool,
    /// The health of the golem before it was last hit, by its bits.
    pub health_before_damage: u32,
    pub attack_animation_tick: i32,
    pub offer_flower_tick: i32,
}

/// The message that tells clients who built a golem.
pub open spec fn golem_sync(player_created: bool) -> Effect {
    Effect::Sync(SyncedValue::IronGolemFlags(if player_created { 1 } else { 0 }))
}

/// Whether a golem attacks a mob of a kind at all.
pub open spec fn golem_attacks(player_created: bool, kind: EntityKind) -> bool {
    &&& kind != EntityKind::Creeper
    &&& !(player_created && kind == EntityKind::Player)
}

/// Whether a player mends a golem with what they hold.
pub open spec fn mends(shared_handled: bool, hurt: bool, item: Item) -> bool {
    !shared_handled && hurt && item == Item::IronIngot
}

/// What mending a golem asks of the host.
pub open spec fn mending_effects() -> Seq<Effect> {
    seq![
        Effect::Heal(IRON_INGOT_HEAL_AMOUNT),
        Effect::PlayVaried { sound: Sound::IronGolemRepair, pitch: 10000 },
    ]
}

/// What the end of an attack asks of the host.
pub open spec fn attack_effects(damaged: bool) -> Seq<Effect> {
    if damaged {
        seq![Effect::FlingTarget, Effect::Play(Sound::IronGolemAttack)]
    } else {
        seq![Effect::Play(Sound::IronGolemAttack)]
    }
}

/// What damage asks of the host, by the share of health before it and after.
pub open spec fn damage_effects(before: u64, now: u64) -> Seq<Effect> {
    if crackiness_at(before) != crackiness_at(now) {
        seq![Effect::Play(Sound::IronGolemDamage)]
    } else {
        seq![]
    }
}

impl IronGolemEntity {
    /// A new golem that no player built.
    pub fn new(age: i32) -> (golem: Self)
        ensures
            golem.mob_entity.fresh(age),
            golem.mob_entity.goals@ == iron_golem_goals(),
            golem.mob_entity.targets@ == iron_golem_targets(),
            !golem.player_created,
            golem.health_before_damage == 0,
            golem.attack_animation_tick == 0,
            golem.offer_flower_tick == 0,
    {
        let goals = vec![
            goal(1, Goal::MeleeAttack { speed: 1000, pause_when_idle: true }),
            goal(5, Goal::OfferFlower),
            goal(6, Goal::Wander { speed: 600 }),
            goal(7, watch_player(6000)),
            goal(8, Goal::LookAround),
        ];
        let targets = vec![
            goal(1, Goal::DefendVillage),
            goal(2, Goal::Revenge { group: true }),
            goal(3, Goal::NearestHostile),
        ];
        IronGolemEntity {
            mob_entity: MobEntity::with_goals(age, goals, targets),
            player_created: false,
            health_before_damage: 0,
            attack_animation_tick: 0,
            offer_flower_tick: 0,
        }
    }

    pub fn is_player_created(&self) -> (created: bool)
        ensures
            created == self.player_created,
    {
        self.player_created
    }

    pub fn set_player_created(&mut self, value: bool, effects: &mut Vec<Effect>)
        ensures
            *final(self) == (IronGolemEntity { player_created: value, ..*old(self) }),
            final(effects)@ == old(effects)@.push(golem_sync(value)),
    {
        self.player_created = value;
        let flag: i8 = if value { 1 } else { 0 };
        effects.push(Effect::Sync(SyncedValue::IronGolemFlags(flag)));
    }

    /// Whether the golem attacks a mob of a kind at all: never a creeper, and never a player
    /// if one built it.
    pub fn can_attack(&self, target: EntityKind) -> (can: bool)
        ensures
            can == golem_attacks(self.player_created, target),
    {
        if self.player_created && target == EntityKind::Player {
            return false;
        }
        target != EntityKind::Creeper
    }

    /// Starts an attack, unless the golem is dead.
    pub fn start_attack(&self, dead: bool, effects: &mut Vec<Effect>) -> (starts: bool)
        ensures
            starts == !dead,
            final(effects)@ == old(effects)@ + (if dead {
                seq![]
            } else {
                seq![Effect::StartAttacking]
            }),
    {
        if dead {
            return false;
        }
        effects.push(Effect::StartAttacking);
        true
    }

    /// Draws what is added to half of the golem's damage, whose whole part is given.
    pub fn draw_attack_bonus(&self, whole_damage: i32) -> (bonus: i32)
        ensures
            whole_damage > 0 ==> 0 <= bonus < whole_damage,
            whole_damage <= 0 ==> bonus == 0,
    {
        if whole_damage > 0 {
            roll(0, whole_damage)
        } else {
            0
        }
    }

    /// Ends an attack: a target that was hurt is flung up, and the blow sounds either way.
    pub fn finish_attack(&self, damaged: bool, effects: &mut Vec<Effect>) -> (hit: bool)
        ensures
            hit == damaged,
            final(effects)@ == old(effects)@ + attack_effects(damaged),
    {
        if damaged {
            effects.push(Effect::FlingTarget);
        }
        effects.push(Effect::Play(Sound::IronGolemAttack));
        damaged
    }

    /// Remembers the health of the golem, by its bits, before it is hit. Every hit counts.
    pub fn pre_damage(&mut self, health: u32) -> (goes_on: bool)
        ensures
            goes_on,
            *final(self) == (IronGolemEntity { health_before_damage: health, ..*old(self) }),
    {
        self.health_before_damage = health;
        true
    }

    /// Cracks audibly if a hit has changed how badly the golem is cracked. The fractions of its
    /// health that it had before and has now are given by their bits.
    pub fn on_damage(&self, before: u64, now: u64, effects: &mut Vec<Effect>)
        ensures
            final(effects)@ == old(effects)@ + damage_effects(before, now),
    {
        if golem_crackiness(before) != golem_crackiness(now) {
            effects.push(Effect::Play(Sound::IronGolemDamage));
        }
    }

    /// One tick.
    pub fn mob_tick(&mut self)
        ensures
            *final(self) == (IronGolemEntity {
                attack_animation_tick: counted_down(old(self).attack_animation_tick),
                offer_flower_tick: counted_down(old(self).offer_flower_tick),
                ..*old(self)
            }),
    {
        self.attack_animation_tick = count_down(self.attack_animation_tick);
        self.offer_flower_tick = count_down(self.offer_flower_tick);
    }

    /// Tells clients about the golem when they first see it.
    pub fn mob_init_data_tracker(&self, effects: &mut Vec<Effect>)
        ensures
            final(effects)@ == old(effects)@.push(golem_sync(self.player_created)),
    {
        let flag: i8 = if self.player_created { 1 } else { 0 };
        effects.push(Effect::Sync(SyncedValue::IronGolemFlags(flag)));
    }

    /// Lets a player use an item on the golem, after the interaction that all mobs share: an
    /// iron ingot heals a golem that is hurt.
    pub fn mob_interact(
        &self,
        shared_handled: bool,
        hurt: bool,
        player: &Player,
        stack: &mut ItemStack,
        effects: &mut Vec<Effect>,
    ) -> (outcome: Interaction)
        ensures
            ({
                let heals = mends(shared_handled, hurt, old(stack).item);
                &&& outcome == (if shared_handled || heals {
                    Interaction::Handled
                } else {
                    Interaction::Refused
                })
                &&& *final(stack) == (if heals {
                    after_use(*old(stack), player.gamemode, 1)
                } else {
                    *old(stack)
                })
                &&& final(effects)@ == old(effects)@ + (if heals {
                    mending_effects()
                } else {
                    seq![]
                })
            }),
    {
        if shared_handled {
            return Interaction::Handled;
        }
        if stack.item == Item::IronIngot {
            if !hurt {
                return Interaction::Refused;
            }
            effects.push(Effect::Heal(IRON_INGOT_HEAL_AMOUNT));
            effects.push(Effect::PlayVaried { sound: Sound::IronGolemRepair, pitch: 10000 });
            stack.decrement_unless_creative(player.gamemode, 1);
            return Interaction::Handled;
        }
        Interaction::Refused
    }

    /// Saves the golem.
    pub fn write_nbt(&self, nbt: &mut NbtCompound)
        ensures
            final(nbt)@ == golem_saved(old(nbt)@, *self),
    {
        nbt.put_bool("PlayerCreated", self.player_created);
    }

    /// Restores the golem.
    pub fn read_nbt(&mut self, nbt: &NbtCompound)
        ensures
            *final(self) == golem_restored(*old(self), nbt@),
    {
        self.player_created = nbt.get_bool("PlayerCreated").unwrap_or(false);
    }
}

/// What is saved of a golem.
pub open spec fn golem_saved(nbt: Map<Seq<char>, NbtValue>, golem: IronGolemEntity) -> Map<
    Seq<char>,
    NbtValue,
> {
    nbt.insert("PlayerCreated"@, bool_value(golem.player_created))
}

/// A golem with its saved state restored.
pub open spec fn golem_restored(
    golem: IronGolemEntity,
    nbt: Map<Seq<char>, NbtValue>,
) -> IronGolemEntity {
    IronGolemEntity { player_created: bool_at(nbt, "PlayerCreated"@) == Some(true), ..golem }
}

/// Restoring a saved golem gives back who built it.
pub proof fn law_golem_round_trip(
    nbt: Map<Seq<char>, NbtValue>,
    golem: IronGolemEntity,
    other: IronGolemEntity,
)
    ensures
        golem_restored(other, golem_saved(nbt, golem)).player_created == golem.player_created,
{
}

/// The less of its health a golem has kept, the more it is cracked.
pub proof fn law_golem_cracks_grow(less_kept: u64, more_kept: u64)
    requires
        less(less_kept, more_kept),
    ensures
        crackiness_at(more_kept) == Crackiness::High ==> crackiness_at(less_kept)
            == Crackiness::High,
        crackiness_at(less_kept) == Crackiness::Intact ==> crackiness_at(more_kept)
            == Crackiness::Intact,
        crackiness_at(less_kept) == Crackiness::Low ==> crackiness_at(more_kept)
            == Crackiness::Low || crackiness_at(more_kept) == Crackiness::Intact,
{
}

/// No golem attacks a creeper, and one that a player built attacks no player.
pub proof fn law_golem_spares_its_makers(player_created: bool)
    ensures
        !golem_attacks(player_created, EntityKind::Creeper),
        golem_attacks(player_created, EntityKind::Player) == !player_created,
{
}

/// The cracks of a golem by the share of its health that is left: under a quarter, under a half,
/// under three quarters.
pub proof fn law_where_golem_cracks_begin(fraction: u64)
    ensures
        crackiness_at(fraction) == Crackiness::High <==> less(fraction, 0x3FD0_0000_0000_0000),
        crackiness_at(fraction) == Crackiness::Medium <==> less(fraction, 0x3FE0_0000_0000_0000)
            && !less(fraction, 0x3FD0_0000_0000_0000),
        crackiness_at(fraction) == Crackiness::Low <==> less(fraction, 0x3FE8_0000_0000_0000)
            && !less(fraction, 0x3FE0_0000_0000_0000),
        crackiness_at(fraction) == Crackiness::Intact <==> !less(fraction, 0x3FE8_0000_0000_0000),
{
}

/// Golems attack all kinds but creepers, and players unless a player made them.
pub proof fn law_whom_golems_attack(player_created: bool, kind: EntityKind)
    ensures
        !golem_attacks(player_created, kind) <==> kind == EntityKind::Creeper || (kind
            == EntityKind::Player && player_created),
{
}

/// What a golem tells of its maker is the lowest bit of its flags.
pub proof fn law_golem_tells_its_maker(player_created: bool)
    ensures
        golem_sync(player_created) == Effect::Sync(SyncedValue::IronGolemFlags(1)) <==> player_created,
        golem_sync(player_created) == Effect::Sync(SyncedValue::IronGolemFlags(0)) <==> !player_created,
{
}

/// A golem of whose maker nothing was saved was not made by a player.
pub proof fn law_golems_are_wild_unless_saved(
    golem: IronGolemEntity,
    nbt: Map<Seq<char>, NbtValue>,
)
    ensures
        golem_restored(golem, nbt).player_created ==> bool_at(nbt, "PlayerCreated"@) is Some,
        bool_at(nbt, "PlayerCreated"@) is Some ==> golem_restored(golem, nbt).player_created
            == bool_at(nbt, "PlayerCreated"@)->0,
        golem_restored(golem, nbt).mob_entity == golem.mob_entity,
        golem_restored(golem, nbt).offer_flower_tick == golem.offer_flower_tick,
        golem_restored(golem, nbt).attack_animation_tick == golem.attack_animation_tick,
{
}

/// What iron golems pursue, and how urgently: this and nothing else.
pub proof fn law_what_iron_golems_pursue(e: GoalEntry)
    ensures
        iron_golem_goals().contains(e) <==> {
            ||| e.priority == 1 && e.goal == (Goal::MeleeAttack { speed: 1000, pause_when_idle: true })
            ||| e.priority == 5 && e.goal == Goal::OfferFlower
            ||| e.priority == 6 && e.goal == (Goal::Wander { speed: 600 })
            ||| e.priority == 7 && e.goal == (Goal::LookAt { kind: EntityKind::Player, range: 6000 })
            ||| e.priority == 8 && e.goal == Goal::LookAround
        },
        iron_golem_goals().len() == 5,
{
    let all = iron_golem_goals();
    assert(all[0] == (GoalEntry { priority: 1, goal: Goal::MeleeAttack { speed: 1000, pause_when_idle: true } }));
    assert(all[1] == (GoalEntry { priority: 5, goal: Goal::OfferFlower }));
    assert(all[2] == (GoalEntry { priority: 6, goal: Goal::Wander { speed: 600 } }));
    assert(all[3] == (GoalEntry { priority: 7, goal: Goal::LookAt { kind: EntityKind::Player, range: 6000 } }));
    assert(all[4] == (GoalEntry { priority: 8, goal: Goal::LookAround }));
}

/// What iron golems go for, and how urgently: this and nothing else.
pub proof fn law_what_iron_golems_go_for(e: GoalEntry)
    ensures
        iron_golem_targets().contains(e) <==> {
            ||| e.priority == 1 && e.goal == Goal::DefendVillage
            ||| e.priority == 2 && e.goal == (Goal::Revenge { group: true })
            ||| e.priority == 3 && e.goal == Goal::NearestHostile
        },
        iron_golem_targets().len() == 3,
{
    let all = iron_golem_targets();
    assert(all[0] == (GoalEntry { priority: 1, goal: Goal::DefendVillage }));
    assert(all[1] == (GoalEntry { priority: 2, goal: Goal::Revenge { group: true } }));
    assert(all[2] == (GoalEntry { priority: 3, goal: Goal::NearestHostile }));
}

/// A hurt golem is mended with iron, by a quarter of a hundred points, unless the player's hand was
/// busy otherwise.
pub proof fn law_iron_mends_golems(shared_handled: bool, hurt: bool, item: Item)
    ensures
        mends(shared_handled, hurt, item) ==> hurt && item == Item::IronIngot,
        hurt && !shared_handled ==> mends(shared_handled, hurt, Item::IronIngot),
        shared_handled ==> !mends(shared_handled, hurt, item),
        mending_effects().len() == 2,
        mending_effects()[0] == Effect::Heal(25),
        mending_effects()[1] == (Effect::PlayVaried { sound: Sound::IronGolemRepair, pitch: 10000 }),
{
}

/// A blow of a golem is always heard, and throws what it hurts.
pub proof fn law_golem_blows(damaged: bool)
    ensures
        attack_effects(damaged).last() == Effect::Play(Sound::IronGolemAttack),
        attack_effects(damaged).contains(Effect::FlingTarget) <==> damaged,
        attack_effects(damaged).len() <= 2,
{
    if damaged {
        assert(attack_effects(damaged)[0] == Effect::FlingTarget);
    }
}

/// Damage to a golem is heard when its cracks change, and only then.
pub proof fn law_cracking_is_heard(before: u64, now: u64)
    ensures
        crackiness_at(before) == crackiness_at(now) <==> damage_effects(before, now).len() == 0,
        crackiness_at(before) != crackiness_at(now) ==> damage_effects(before, now) == seq![
            Effect::Play(Sound::IronGolemDamage),
        ],
{
}

} // verus!
