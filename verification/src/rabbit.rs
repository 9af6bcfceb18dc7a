//! Rabbits: coats, hops and carrots.

use vstd::prelude::*;

use crate::animal::{
    animal_interact, animal_restored, animal_saved, falls_in_love, fed, feeding_effects, grows,
    meal_outcome, read_animal_nbt, stack_after_meal, write_animal_nbt, Feeding,
};
use crate::double::{is_less, less};
use crate::effect::{group_effects, Effect, Interaction, MobName, Sound, SyncedValue};
use crate::goal::{entry, goal, look_at_player, watch_player, EntityKind, Goal, GoalEntry};
use crate::item::{diet_items, Diet, ItemStack, Player};
use crate::mob::MobEntity;
use crate::nbt::{int_at, NbtCompound, NbtValue};
use crate::random::{chance, roll};
use crate::ticks::{count_down, counted_down};

verus! {

/// The speed from which on a rabbit hops without a rest, two and two tenths, by its bits.
pub const FLEE_SPEED: u64 = 0x4001_9999_9999_999A;

/// The square of the distance within which an evil rabbit lunges, four blocks, by its bits.
pub const LUNGE_SQUARED: u64 = 0x4030_0000_0000_0000;

/// How long a rabbit that ate keeps away from gardens.
pub const MORE_CARROTS_DELAY: i32 = 40;

/// The number of a coat that is not known yet.
pub const VARIANT_UNSET: u8 = 0xFF;

/// The coat of a rabbit.
#[derive(Clone, Copy, PartialEq, Eq, Structural, Debug)]
pub enum RabbitVariant {
    Brown,
    White,
    Black,
    WhiteSplotched,
    Gold,
    Salt,
    Evil,
}

/// The number of a coat.
pub open spec fn rabbit_id(variant: RabbitVariant) -> u8 {
    match variant {
        RabbitVariant::Brown => 0,
        RabbitVariant::White => 1,
        RabbitVariant::Black => 2,
        RabbitVariant::WhiteSplotched => 3,
        RabbitVariant::Gold => 4,
        RabbitVariant::Salt => 5,
        RabbitVariant::Evil => 99,
    }
}

/// The coat for a number. What is no coat is brown.
pub open spec fn rabbit_of_id(id: u8) -> RabbitVariant {
    match id {
        1 => RabbitVariant::White,
        2 => RabbitVariant::Black,
        3 => RabbitVariant::WhiteSplotched,
        4 => RabbitVariant::Gold,
        5 => RabbitVariant::Salt,
        99 => RabbitVariant::Evil,
        _ => RabbitVariant::Brown,
    }
}

impl From<u8> for RabbitVariant {
    fn from(value: u8) -> (variant: Self) {
        match value {
            1 => RabbitVariant::White,
            2 => RabbitVariant::Black,
            3 => RabbitVariant::WhiteSplotched,
            4 => RabbitVariant::Gold,
            5 => RabbitVariant::Salt,
            99 => RabbitVariant::Evil,
            _ => RabbitVariant::Brown,
        }
    }
}

impl vstd::std_specs::convert::FromSpecImpl<u8> for RabbitVariant {
    open spec fn obeys_from_spec() -> bool {
        true
    }

    open spec fn from_spec(value: u8) -> Self {
        rabbit_of_id(value)
    }
}

impl RabbitVariant {
    pub fn id(self) -> (id: u8)
        ensures
            id == rabbit_id(self),
    {
        match self {
            RabbitVariant::Brown => 0,
            RabbitVariant::White => 1,
            RabbitVariant::Black => 2,
            RabbitVariant::WhiteSplotched => 3,
            RabbitVariant::Gold => 4,
            RabbitVariant::Salt => 5,
            RabbitVariant::Evil => 99,
        }
    }
}

/// The number of a coat leads back to it.
pub proof fn law_rabbit_variant_round_trip(variant: RabbitVariant)
    ensures
        rabbit_of_id(rabbit_id(variant)) == variant,
        rabbit_id(variant) != VARIANT_UNSET,
{
}

/// The coat of a wild rabbit for a draw among a hundred.
pub open spec fn wild_coat(white_biome: bool, gold_biome: bool, draw: int) -> RabbitVariant {
    if white_biome {
        if draw < 80 {
            RabbitVariant::White
        } else {
            RabbitVariant::WhiteSplotched
        }
    } else if gold_biome {
        RabbitVariant::Gold
    } else if draw < 50 {
        RabbitVariant::Brown
    } else if draw < 90 {
        RabbitVariant::Salt
    } else {
        RabbitVariant::Black
    }
}

/// The coat of a wild rabbit for a draw.
pub fn rabbit_variant_for_draw(white_biome: bool, gold_biome: bool, draw: i32) -> (variant:
    RabbitVariant)
    ensures
        variant == wild_coat(white_biome, gold_biome, draw as int),
{
    if white_biome {
        if draw < 80 {
            RabbitVariant::White
        } else {
            RabbitVariant::WhiteSplotched
        }
    } else if gold_biome {
        RabbitVariant::Gold
    } else if draw < 50 {
        RabbitVariant::Brown
    } else if draw < 90 {
        RabbitVariant::Salt
    } else {
        RabbitVariant::Black
    }
}

/// Draws the coat of a wild rabbit. Where it lives says which coats there are.
pub fn get_random_rabbit_variant(white_biome: bool, gold_biome: bool) -> (variant: RabbitVariant)
    ensures
        exists|draw: int|
            0 <= draw < 100 && variant == #[trigger] wild_coat(white_biome, gold_biome, draw),
{
    let draw: i32 = roll(0, 100);
    rabbit_variant_for_draw(white_biome, gold_biome, draw)
}

/// No rabbit is evil by nature.
pub proof fn law_no_wild_rabbit_is_evil(white_biome: bool, gold_biome: bool, draw: int)
    ensures
        wild_coat(white_biome, gold_biome, draw) != RabbitVariant::Evil,
{
}

/// How long a rabbit that landed rests, for the bits of its speed.
pub open spec fn rest_after_landing(speed: u64) -> i32 {
    if less(speed, FLEE_SPEED) {
        10
    } else {
        1
    }
}

/// How long a rabbit that landed rests, for the bits of its speed. One that flees hops on.
pub fn landing_delay_for_speed(speed: u64) -> (delay: i32)
    ensures
        delay == rest_after_landing(speed),
{
    if is_less(speed, FLEE_SPEED) {
        10
    } else {
        1
    }
}

/// How long a rabbit keeps away from gardens, after a tick with a draw.
pub open spec fn carrots_decayed(ticks: i32, draw: i32) -> int {
    if ticks <= 0 {
        ticks as int
    } else if ticks < draw {
        0
    } else {
        ticks - draw
    }
}

/// How long a rabbit keeps away from gardens, after a tick with a draw.
pub fn decay_more_carrot_ticks(current: i32, roll: i32) -> (ticks: i32)
    requires
        current > 0 ==> current - roll <= i32::MAX,
    ensures
        ticks == carrots_decayed(current, roll),
{
    if current <= 0 {
        return current;
    }
    let next: i32 = current - roll;
    if next < 0 {
        0
    } else {
        next
    }
}

/// How long a rabbit keeps away from gardens, after some ticks with the largest draws.
pub open spec fn carrots_after(ticks: i32, elapsed: nat) -> int
    decreases elapsed,
{
    if elapsed == 0 {
        ticks as int
    } else {
        carrots_decayed(carrots_after(ticks, (elapsed - 1) as nat) as i32, 2)
    }
}

/// A rabbit that just ate keeps away from gardens for twenty ticks at least, however fast its
/// hunger comes back.
pub proof fn law_eating_keeps_rabbits_away(elapsed: nat)
    requires
        elapsed <= 20,
    ensures
        carrots_after(MORE_CARROTS_DELAY, elapsed) == MORE_CARROTS_DELAY - 2 * elapsed,
        carrots_after(MORE_CARROTS_DELAY, elapsed) <= 0 <==> elapsed == 20,
    decreases elapsed,
{
    if elapsed > 0 {
        law_eating_keeps_rabbits_away((elapsed - 1) as nat);
    }
}

/// Hunger never makes the delay negative, and never longer.
pub proof fn law_carrot_delay_only_shrinks(ticks: i32, draw: i32)
    requires
        ticks >= 0,
        draw >= 0,
    ensures
        0 <= carrots_decayed(ticks, draw) <= ticks,
{
}

/// What a rabbit pursues.
pub open spec fn rabbit_goals() -> Seq<GoalEntry> {
    seq![
        entry(1, Goal::Swim),
        entry(1, Goal::ClimbOnTopOfPowderSnow),
        entry(1, Goal::EscapeDanger { speed: 2200 }),
        entry(2, Goal::Breed { speed: 800 }),
        entry(3, Goal::Tempt { speed: 1000, items: Diet::Rabbit, scared: false }),
        entry(
            4,
            Goal::RabbitAvoid {
                kind: EntityKind::Player,
                distance: 8000,
                slow_speed: 2200,
                fast_speed: 2200,
            },
        ),
        entry(
            4,
            Goal::RabbitAvoid {
                kind: EntityKind::Wolf,
                distance: 10000,
                slow_speed: 2200,
                fast_speed: 2200,
            },
        ),
        entry(
            4,
            Goal::RabbitAvoidMonsters { distance: 4000, slow_speed: 2200, fast_speed: 2200 },
        ),
        entry(5, Goal::RaidGarden { speed: 700 }),
        entry(6, Goal::Wander { speed: 600 }),
        entry(11, look_at_player(10000)),
    ]
}

/// What an evil rabbit pursues besides.
pub open spec fn evil_goals() -> Seq<GoalEntry> {
    seq![entry(4, Goal::MeleeAttack { speed: 1400, pause_when_idle: true })]
}

/// Whom an evil rabbit attacks.
pub open spec fn evil_targets() -> Seq<GoalEntry> {
    seq![
        entry(1, Goal::Revenge { group: true }),
        entry(2, Goal::SimpleTarget { kind: EntityKind::Player, check_visibility: true }),
        entry(2, Goal::SimpleTarget { kind: EntityKind::Wolf, check_visibility: true }),
    ]
}

/// A rabbit.
pub struct RabbitEntity {
    pub mob_entity: MobEntity,
    pub variant: u8,
    /// Ticks until the rabbit may hop again.
    pub jump_delay_ticks: i32,
    pub was_on_ground: bool,
    pub more_carrot_ticks: i32,
    pub evil_goals_registered: bool,
    pub jumping: bool,
}

/// What a rabbit sees of the world in one tick.
#[derive(Clone, Copy)]
pub struct RabbitTick {
    pub on_ground: bool,
    /// How fast the rabbit is on its way, by the bits of that number; zero if it is not.
    pub speed: u64,
    /// Whether the rabbit is on no way at all.
    pub idle: bool,
    /// The square of the distance to the rabbit's target, by its bits, if it has one.
    pub target: Option<u64>,
}

/// Whether a target is closer than four blocks.
pub open spec fn in_reach(target: Option<u64>) -> bool {
    match target {
        Some(distance_squared) => less(distance_squared, LUNGE_SQUARED),
        None => false,
    }
}

/// Whether a target is closer than four blocks.
fn is_in_reach(target: Option<u64>) -> (is: bool)
    ensures
        is == in_reach(target),
{
    match target {
        Some(distance_squared) => is_less(distance_squared, LUNGE_SQUARED),
        None => false,
    }
}

/// A rabbit and what it asked of the host.
pub struct RabbitStep {
    pub rabbit: RabbitEntity,
    pub effects: Seq<Effect>,
}

/// What starting a hop asks of the host.
pub open spec fn hop_effects() -> Seq<Effect> {
    seq![Effect::SetJumping(true), Effect::Play(Sound::RabbitJump)]
}

/// A rabbit that has just landed rests.
pub open spec fn landed(r: RabbitEntity, seen: RabbitTick) -> RabbitStep {
    if seen.on_ground && !r.was_on_ground {
        RabbitStep {
            rabbit: RabbitEntity {
                jumping: false,
                jump_delay_ticks: rest_after_landing(seen.speed),
                ..r
            },
            effects: seq![Effect::SetJumping(false)],
        }
    } else {
        RabbitStep { rabbit: r, effects: seq![] }
    }
}

/// Whether a rabbit on the ground hops: an evil one at its target, any other on its way.
pub open spec fn hops(r: RabbitEntity, seen: RabbitTick) -> bool {
    &&& seen.on_ground
    &&& r.jump_delay_ticks == 0
    &&& (rabbit_of_id(r.variant) == RabbitVariant::Evil && in_reach(seen.target)) || (!r.jumping
        && !seen.idle)
}

/// A rabbit after one tick.
pub open spec fn rabbit_ticked(r: RabbitEntity, seen: RabbitTick, draw: i32) -> RabbitStep {
    let counted = RabbitEntity {
        jump_delay_ticks: counted_down(r.jump_delay_ticks),
        more_carrot_ticks: carrots_decayed(r.more_carrot_ticks, draw) as i32,
        ..r
    };
    let down = landed(counted, seen);
    if hops(down.rabbit, seen) {
        RabbitStep {
            rabbit: RabbitEntity { jumping: true, was_on_ground: seen.on_ground, ..down.rabbit },
            effects: down.effects + hop_effects(),
        }
    } else {
        RabbitStep {
            rabbit: RabbitEntity { was_on_ground: seen.on_ground, ..down.rabbit },
            effects: down.effects,
        }
    }
}

/// What getting a coat asks of the host.
pub open spec fn coat_effects(variant: RabbitVariant, named: bool) -> Seq<Effect> {
    if variant == RabbitVariant::Evil {
        let armed = seq![Effect::SetArmor(8), Effect::BoostAttack(5)];
        if named {
            armed
        } else {
            armed.push(Effect::SetName(MobName::KillerBunny))
        }
    } else {
        seq![]
    }
}

/// Whether getting a coat brings new goals.
pub open spec fn turns_evil(r: RabbitEntity, variant: RabbitVariant) -> bool {
    variant == RabbitVariant::Evil && !r.evil_goals_registered
}

/// Whether a rabbit is another one with a coat.
pub open spec fn coated(before: RabbitEntity, after: RabbitEntity, variant: RabbitVariant) -> bool {
    let evil = turns_evil(before, variant);
    &&& after == (RabbitEntity {
        variant: rabbit_id(variant),
        evil_goals_registered: before.evil_goals_registered || evil,
        mob_entity: (MobEntity {
            goals: after.mob_entity.goals,
            targets: after.mob_entity.targets,
            ..before.mob_entity
        }),
        ..before
    })
    &&& after.mob_entity.goals@ == before.mob_entity.goals@ + (if evil {
        evil_goals()
    } else {
        seq![]
    })
    &&& after.mob_entity.targets@ == before.mob_entity.targets@ + (if evil {
        evil_targets()
    } else {
        seq![]
    })
}

/// What chance decides about a kit.
#[derive(Clone, Copy)]
pub struct KitDraws {
    /// Among twenty: whether the kit takes after neither parent.
    pub odd: i32,
    /// Whether the kit takes after the first parent.
    pub from_first: bool,
    /// Among a hundred: the coat of a kit that takes after neither.
    pub coat: i32,
}

/// The coat of a rabbit, where there is one.
pub open spec fn coat_of(mate: Option<&RabbitEntity>) -> Option<RabbitVariant> {
    match mate {
        Some(rabbit) => Some(rabbit_of_id(rabbit.variant)),
        None => None,
    }
}

/// The coat of a kit.
pub open spec fn kit_coat(
    first: RabbitVariant,
    mate: Option<RabbitVariant>,
    white_biome: bool,
    gold_biome: bool,
    draws: KitDraws,
) -> RabbitVariant {
    if draws.odd == 0 {
        wild_coat(white_biome, gold_biome, draws.coat as int)
    } else if draws.from_first {
        first
    } else {
        match mate {
            Some(second) => second,
            None => first,
        }
    }
}

/// The coat of a kit.
pub fn kit_variant(
    first: RabbitVariant,
    mate: Option<RabbitVariant>,
    white_biome: bool,
    gold_biome: bool,
    draws: &KitDraws,
) -> (variant: RabbitVariant)
    ensures
        variant == kit_coat(first, mate, white_biome, gold_biome, *draws),
{
    if draws.odd != 0 {
        if draws.from_first {
            first
        } else {
            match mate {
                Some(second) => second,
                None => first,
            }
        }
    } else {
        rabbit_variant_for_draw(white_biome, gold_biome, draws.coat)
    }
}

impl RabbitEntity {
    /// A new rabbit whose coat is not known yet.
    pub fn new(age: i32) -> (rabbit: Self)
        ensures
            rabbit.mob_entity.fresh(age),
            rabbit.mob_entity.goals@ == rabbit_goals(),
            rabbit.mob_entity.targets@ == Seq::<GoalEntry>::empty(),
            rabbit.variant == VARIANT_UNSET,
            rabbit.jump_delay_ticks == 0,
            rabbit.was_on_ground,
            rabbit.more_carrot_ticks == 0,
            !rabbit.evil_goals_registered,
            !rabbit.jumping,
    {
        let goals = vec![
            goal(1, Goal::Swim),
            goal(1, Goal::ClimbOnTopOfPowderSnow),
            goal(1, Goal::EscapeDanger { speed: 2200 }),
            goal(2, Goal::Breed { speed: 800 }),
            goal(3, Goal::Tempt { speed: 1000, items: Diet::Rabbit, scared: false }),
            goal(
                4,
                Goal::RabbitAvoid {
                    kind: EntityKind::Player,
                    distance: 8000,
                    slow_speed: 2200,
                    fast_speed: 2200,
                },
            ),
            goal(
                4,
                Goal::RabbitAvoid {
                    kind: EntityKind::Wolf,
                    distance: 10000,
                    slow_speed: 2200,
                    fast_speed: 2200,
                },
            ),
            goal(
                4,
                Goal::RabbitAvoidMonsters { distance: 4000, slow_speed: 2200, fast_speed: 2200 },
            ),
            goal(5, Goal::RaidGarden { speed: 700 }),
            goal(6, Goal::Wander { speed: 600 }),
            goal(11, watch_player(10000)),
        ];
        RabbitEntity {
            mob_entity: MobEntity::with_goals(age, goals, Vec::new()),
            variant: VARIANT_UNSET,
            jump_delay_ticks: 0,
            was_on_ground: true,
            more_carrot_ticks: 0,
            evil_goals_registered: false,
            jumping: false,
        }
    }

    fn set_jumping(&mut self, jumping: bool, effects: &mut Vec<Effect>)
        ensures
            *final(self) == (RabbitEntity { jumping, ..*old(self) }),
            final(effects)@ == old(effects)@ + (if jumping {
                hop_effects()
            } else {
                seq![Effect::SetJumping(false)]
            }),
    {
        self.jumping = jumping;
        effects.push(Effect::SetJumping(jumping));
        if jumping {
            effects.push(Effect::Play(Sound::RabbitJump));
        }
    }

    /// Starts a hop.
    pub fn start_jumping(&mut self, effects: &mut Vec<Effect>)
        ensures
            *final(self) == (RabbitEntity { jumping: true, ..*old(self) }),
            final(effects)@ == old(effects)@ + hop_effects(),
    {
        self.set_jumping(true, effects);
    }

    /// Starts a hop that something asked for.
    pub fn jump_control_tick(&mut self, jump_requested: bool, effects: &mut Vec<Effect>)
        ensures
            *final(self) == (RabbitEntity {
                jumping: old(self).jumping || jump_requested,
                ..*old(self)
            }),
            final(effects)@ == old(effects)@ + (if jump_requested {
                hop_effects()
            } else {
                seq![]
            }),
    {
        if jump_requested {
            self.start_jumping(effects);
        }
    }

    fn set_landing_delay(&mut self, speed: u64)
        ensures
            *final(self) == (RabbitEntity {
                jump_delay_ticks: rest_after_landing(speed),
                ..*old(self)
            }),
    {
        self.jump_delay_ticks = landing_delay_for_speed(speed);
    }

    pub fn wants_more_food(&self) -> (wants: bool)
        ensures
            wants == (self.more_carrot_ticks <= 0),
    {
        self.more_carrot_ticks <= 0
    }

    pub fn set_more_carrot_delay(&mut self)
        ensures
            *final(self) == (RabbitEntity { more_carrot_ticks: MORE_CARROTS_DELAY, ..*old(self) }),
            !(final(self).more_carrot_ticks <= 0),
    {
        self.more_carrot_ticks = MORE_CARROTS_DELAY;
    }

    pub fn get_variant(&self) -> (variant: RabbitVariant)
        ensures
            variant == rabbit_of_id(self.variant),
    {
        RabbitVariant::from(self.variant)
    }

    /// Gives the rabbit a coat. An evil one is armed, hunts from then on, and bears a name
    /// unless it has one.
    pub fn set_variant(&mut self, variant: RabbitVariant, named: bool, effects: &mut Vec<Effect>)
        ensures
            coated(*old(self), *final(self), variant),
            final(effects)@ == old(effects)@ + coat_effects(variant, named),
    {
        self.variant = variant.id();
        if variant == RabbitVariant::Evil {
            effects.push(Effect::SetArmor(8));
            effects.push(Effect::BoostAttack(5));
            if !self.evil_goals_registered {
                self.evil_goals_registered = true;
                self.mob_entity.goals.push(
                    goal(4, Goal::MeleeAttack { speed: 1400, pause_when_idle: true }),
                );
                self.mob_entity.targets.push(goal(1, Goal::Revenge { group: true }));
                self.mob_entity.targets.push(
                    goal(
                        2,
                        Goal::SimpleTarget { kind: EntityKind::Player, check_visibility: true },
                    ),
                );
                self.mob_entity.targets.push(
                    goal(2, Goal::SimpleTarget { kind: EntityKind::Wolf, check_visibility: true }),
                );
            }
            if !named {
                effects.push(Effect::SetName(MobName::KillerBunny));
            }
        }
        proof {
            let before = old(self).mob_entity;
            if turns_evil(*old(self), variant) {
                assert(self.mob_entity.goals@ =~= before.goals@ + evil_goals());
                assert(self.mob_entity.targets@ =~= before.targets@ + evil_targets());
            } else {
                assert(self.mob_entity.goals@ =~= before.goals@ + Seq::<GoalEntry>::empty());
                assert(self.mob_entity.targets@ =~= before.targets@ + Seq::<GoalEntry>::empty());
            }
        }
    }

    /// Whether an item is food for the rabbit.
    pub fn is_food(&self, stack: &ItemStack) -> (food: bool)
        ensures
            food == diet_items(Diet::Rabbit).contains(stack.item),
    {
        Diet::Rabbit.contains(stack.item)
    }

    /// Lets a player use an item on the rabbit.
    pub fn mob_interact(
        &mut self,
        breeding_ready: bool,
        player: &Player,
        stack: &mut ItemStack,
        effects: &mut Vec<Effect>,
    ) -> (outcome: Interaction)
        requires
            grows(
                old(self).mob_entity,
                rabbit_feeding(diet_items(Diet::Rabbit).contains(old(stack).item), breeding_ready),
            ) ==> old(self).mob_entity.age > i32::MIN,
        ensures
            ({
                let mob = old(self).mob_entity;
                let feeding = rabbit_feeding(
                    diet_items(Diet::Rabbit).contains(old(stack).item),
                    breeding_ready,
                );
                &&& outcome == meal_outcome(mob, feeding)
                &&& *final(self) == (RabbitEntity {
                    mob_entity: fed(mob, feeding, *player),
                    ..*old(self)
                })
                &&& *final(stack) == stack_after_meal(
                    mob,
                    feeding,
                    *old(stack),
                    player.gamemode,
                )
                &&& final(effects)@ == old(effects)@ + feeding_effects(mob, feeding)
            }),
    {
        let feeding = Feeding {
            food: self.is_food(stack),
            breeding_ready,
            can_age_up: true,
            sound: Sound::RabbitAmbient,
        };
        animal_interact(&mut self.mob_entity, feeding, player, stack, effects)
    }

    /// One tick, for a draw among three.
    pub fn tick_with_draw(&mut self, seen: &RabbitTick, draw: i32, effects: &mut Vec<Effect>)
        requires
            old(self).more_carrot_ticks > 0 ==> old(self).more_carrot_ticks - draw <= i32::MAX,
        ensures
            *final(self) == rabbit_ticked(*old(self), *seen, draw).rabbit,
            final(effects)@ == old(effects)@ + rabbit_ticked(*old(self), *seen, draw).effects,
    {
        self.jump_delay_ticks = count_down(self.jump_delay_ticks);
        self.more_carrot_ticks = decay_more_carrot_ticks(self.more_carrot_ticks, draw);
        if seen.on_ground {
            if !self.was_on_ground {
                self.set_jumping(false, effects);
                self.set_landing_delay(seen.speed);
            }
            let mut evil_lunged: bool = false;
            if self.get_variant() == RabbitVariant::Evil && self.jump_delay_ticks == 0
                && is_in_reach(seen.target) {
                self.start_jumping(effects);
                evil_lunged = true;
            }
            if !evil_lunged && !self.jumping && self.jump_delay_ticks == 0 && !seen.idle {
                self.start_jumping(effects);
            }
        }
        self.was_on_ground = seen.on_ground;
    }

    /// One tick.
    pub fn mob_tick(&mut self, seen: &RabbitTick, effects: &mut Vec<Effect>)
        ensures
            exists|draw: i32|
                {
                    &&& 0 <= draw < 3
                    &&& *final(self) == (#[trigger] rabbit_ticked(*old(self), *seen, draw)).rabbit
                    &&& final(effects)@ == old(effects)@ + rabbit_ticked(
                        *old(self),
                        *seen,
                        draw,
                    ).effects
                },
    {
        let draw: i32 = roll(0, 3);
        self.tick_with_draw(seen, draw, effects);
    }

    /// Tells clients about the rabbit when they first see it, for a draw. A coat that is not
    /// known yet is drawn.
    pub fn init_with_draw(
        &mut self,
        white_biome: bool,
        gold_biome: bool,
        draw: i32,
        named: bool,
        effects: &mut Vec<Effect>,
    )
        ensures
            ({
                let variant = first_coat(old(self).variant, white_biome, gold_biome, draw as int);
                &&& coated(*old(self), *final(self), variant)
                &&& final(effects)@ == old(effects)@ + first_coat_effects(
                    variant,
                    named,
                    old(self).mob_entity.age,
                )
            }),
    {
        if self.variant == VARIANT_UNSET {
            let variant = rabbit_variant_for_draw(white_biome, gold_biome, draw);
            self.set_variant(variant, named, effects);
        } else {
            let variant = self.get_variant();
            self.set_variant(variant, named, effects);
        }
        if self.mob_entity.is_baby() {
            effects.push(Effect::Sync(SyncedValue::Baby(true)));
        }
    }

    /// Tells clients about the rabbit when they first see it.
    pub fn mob_init_data_tracker(
        &mut self,
        white_biome: bool,
        gold_biome: bool,
        named: bool,
        effects: &mut Vec<Effect>,
    )
        ensures
            exists|draw: int|
                {
                    let variant = #[trigger] first_coat(
                        old(self).variant,
                        white_biome,
                        gold_biome,
                        draw,
                    );
                    &&& 0 <= draw < 100
                    &&& coated(*old(self), *final(self), variant)
                    &&& final(effects)@ == old(effects)@ + first_coat_effects(
                        variant,
                        named,
                        old(self).mob_entity.age,
                    )
                },
    {
        let draw: i32 = roll(0, 100);
        self.init_with_draw(white_biome, gold_biome, draw, named, effects);
    }

    /// Gives a kit its coat: mostly that of a parent, at times that of a wild rabbit.
    pub fn create_offspring(
        &mut self,
        first: &RabbitEntity,
        mate: Option<&RabbitEntity>,
        white_biome: bool,
        gold_biome: bool,
        named: bool,
        effects: &mut Vec<Effect>,
    )
        ensures
            exists|draws: KitDraws|
                {
                    let variant = #[trigger] kit_coat(
                        rabbit_of_id(first.variant),
                        coat_of(mate),
                        white_biome,
                        gold_biome,
                        draws,
                    );
                    &&& 0 <= draws.odd < 20 && 0 <= draws.coat < 100
                    &&& coated(*old(self), *final(self), variant)
                    &&& final(effects)@ == old(effects)@ + coat_effects(variant, named)
                },
    {
        let draws = KitDraws { odd: roll(0, 20), from_first: chance(1, 2), coat: roll(0, 100) };
        let second = match mate {
            Some(rabbit) => Some(rabbit.get_variant()),
            None => None,
        };
        let variant = kit_variant(first.get_variant(), second, white_biome, gold_biome, &draws);
        self.set_variant(variant, named, effects);
    }

    /// Saves the rabbit.
    pub fn write_nbt(&self, nbt: &mut NbtCompound)
        ensures
            final(nbt)@ == rabbit_saved(old(nbt)@, *self),
    {
        write_animal_nbt(&self.mob_entity, nbt);
        nbt.put_int("RabbitType", self.variant as i32);
        nbt.put_int("MoreCarrotTicks", self.more_carrot_ticks);
    }

    /// Restores the rabbit.
    pub fn read_nbt(&mut self, nbt: &NbtCompound)
        ensures
            *final(self) == rabbit_restored(*old(self), nbt@),
    {
        read_animal_nbt(&mut self.mob_entity, nbt);
        if let Some(variant) = nbt.get_int("RabbitType") {
            self.variant = variant as u8;
        }
        self.more_carrot_ticks = nbt.get_int("MoreCarrotTicks").unwrap_or(0);
    }
}

/// How a rabbit takes food.
pub open spec fn rabbit_feeding(food: bool, breeding_ready: bool) -> Feeding {
    Feeding { food, breeding_ready, can_age_up: true, sound: Sound::RabbitAmbient }
}

/// A coat that is known, or else that of a wild rabbit for a draw.
pub open spec fn first_coat(
    id: u8,
    white_biome: bool,
    gold_biome: bool,
    draw: int,
) -> RabbitVariant {
    if id == VARIANT_UNSET {
        wild_coat(white_biome, gold_biome, draw)
    } else {
        rabbit_of_id(id)
    }
}

/// What a rabbit with a coat asks of the host when clients first see it.
pub open spec fn first_coat_effects(variant: RabbitVariant, named: bool, age: i32) -> Seq<Effect> {
    coat_effects(variant, named) + (if age < 0 {
        seq![Effect::Sync(SyncedValue::Baby(true))]
    } else {
        seq![]
    })
}

/// What is saved of a rabbit.
pub open spec fn rabbit_saved(nbt: Map<Seq<char>, NbtValue>, rabbit: RabbitEntity) -> Map<
    Seq<char>,
    NbtValue,
> {
    animal_saved(nbt, rabbit.mob_entity).insert(
        "RabbitType"@,
        NbtValue::Int(rabbit.variant as i32),
    ).insert("MoreCarrotTicks"@, NbtValue::Int(rabbit.more_carrot_ticks))
}

/// A rabbit with its saved state restored.
pub open spec fn rabbit_restored(
    rabbit: RabbitEntity,
    nbt: Map<Seq<char>, NbtValue>,
) -> RabbitEntity {
    RabbitEntity {
        mob_entity: animal_restored(rabbit.mob_entity, nbt),
        variant: match int_at(nbt, "RabbitType"@) {
            Some(variant) => variant as u8,
            None => rabbit.variant,
        },
        more_carrot_ticks: match int_at(nbt, "MoreCarrotTicks"@) {
            Some(ticks) => ticks,
            None => 0,
        },
        ..rabbit
    }
}

/// Restoring a saved rabbit gives back its coat and how long it keeps away from gardens.
pub proof fn law_rabbit_round_trip(
    nbt: Map<Seq<char>, NbtValue>,
    rabbit: RabbitEntity,
    other: RabbitEntity,
)
    ensures
        ({
            let back = rabbit_restored(other, rabbit_saved(nbt, rabbit));
            &&& back.variant == rabbit.variant
            &&& back.more_carrot_ticks == rabbit.more_carrot_ticks
        }),
{
    reveal_strlit("RabbitType");
    reveal_strlit("MoreCarrotTicks");
    assert("RabbitType"@.len() == 10 && "MoreCarrotTicks"@.len() == 15);
}

/// However often a rabbit is made evil, it gets its goals of the hunt once.
pub proof fn law_evil_goals_come_once(
    start: RabbitEntity,
    once: RabbitEntity,
    twice: RabbitEntity,
)
    requires
        coated(start, once, RabbitVariant::Evil),
        coated(once, twice, RabbitVariant::Evil),
    ensures
        twice.mob_entity.goals@ == once.mob_entity.goals@,
        twice.mob_entity.targets@ == once.mob_entity.targets@,
{
}

/// A rabbit that is resting does not hop, and one in the air does not either.
pub proof fn law_resting_rabbit_does_not_hop(r: RabbitEntity, seen: RabbitTick)
    ensures
        r.jump_delay_ticks != 0 ==> !hops(r, seen),
        !seen.on_ground ==> !hops(r, seen),
{
}

/// Food makes a baby rabbit grow and a grown one that is ready fall in love; nothing else does, and
/// it is heard.
pub proof fn law_what_feeding_a_rabbit_does(mob: MobEntity, food: bool, breeding_ready: bool)
    ensures
        grows(mob, rabbit_feeding(food, breeding_ready)) <==> food && mob.age < 0,
        falls_in_love(mob, rabbit_feeding(food, breeding_ready)) <==> food && breeding_ready && mob.age >= 0
            && mob.love_ticks <= 0,
        rabbit_feeding(food, breeding_ready).sound == Sound::RabbitAmbient,
{
}

/// White and golden lands have their own rabbits; elsewhere half of them are brown, four in ten
/// salt and the rest black.
pub proof fn law_wild_coats(white_biome: bool, gold_biome: bool, draw: int)
    ensures
        ({
            let coat = wild_coat(white_biome, gold_biome, draw);
            &&& coat == RabbitVariant::White <==> white_biome && draw < 80
            &&& coat == RabbitVariant::WhiteSplotched <==> white_biome && draw >= 80
            &&& coat == RabbitVariant::Gold <==> gold_biome && !white_biome
            &&& coat == RabbitVariant::Brown <==> !white_biome && !gold_biome && draw < 50
            &&& coat == RabbitVariant::Salt <==> !white_biome && !gold_biome && 50 <= draw < 90
            &&& coat == RabbitVariant::Black <==> !white_biome && !gold_biome && draw >= 90
        }),
{
}

/// A fleeing rabbit rests one tick after landing, any other ten.
pub proof fn law_rest_after_landing(speed: u64)
    ensures
        rest_after_landing(speed) == 10 <==> less(speed, 0x4001_9999_9999_999A),
        rest_after_landing(speed) == 1 <==> !less(speed, 0x4001_9999_9999_999A),
{
}

/// The wait for carrots runs down by the draw and stops at nothing; once over it stays as it is.
pub proof fn law_wait_for_carrots_runs_down(ticks: i32, draw: i32)
    ensures
        ticks <= 0 ==> carrots_decayed(ticks, draw) == ticks,
        0 < ticks <= draw ==> carrots_decayed(ticks, draw) == 0,
        ticks > 0 && draw <= ticks ==> carrots_decayed(ticks, draw) + draw == ticks,
        ticks > 0 && ticks < draw ==> carrots_decayed(ticks, draw) == 0,
{
}

/// A rested rabbit on the ground hops when it is on its way, and an evil one also whenever its
/// target is less than four blocks away.
pub proof fn law_when_rabbits_hop(r: RabbitEntity, seen: RabbitTick)
    ensures
        hops(r, seen) ==> seen.on_ground && r.jump_delay_ticks == 0,
        seen.on_ground && r.jump_delay_ticks == 0 && !r.jumping && !seen.idle ==> hops(r, seen),
        seen.on_ground && r.jump_delay_ticks == 0 && r.variant == 99 && seen.target is Some && less(
            seen.target->0,
            0x4030_0000_0000_0000,
        ) ==> hops(r, seen),
        r.variant != 99 && r.jumping ==> !hops(r, seen),
        r.variant != 99 && seen.idle ==> !hops(r, seen),
        seen.target is None && (r.jumping || seen.idle) ==> !hops(r, seen),
        seen.target is Some && !less(seen.target->0, 0x4030_0000_0000_0000) && (r.jumping
            || seen.idle) ==> !hops(r, seen),
{
}

/// What a tick does to a rabbit: one that comes down rests and no longer jumps, the wait before a
/// hop runs down by one elsewhere, and the ground under it is remembered.
pub proof fn law_rabbit_tick(r: RabbitEntity, seen: RabbitTick, draw: i32)
    ensures
        ({
            let after = rabbit_ticked(r, seen, draw).rabbit;
            &&& after.was_on_ground == seen.on_ground
            &&& after.more_carrot_ticks == carrots_decayed(r.more_carrot_ticks, draw) as i32
            &&& seen.on_ground && !r.was_on_ground ==> !after.jumping && after.jump_delay_ticks == (
            if less(seen.speed, 0x4001_9999_9999_999A) {
                10i32
            } else {
                1i32
            })
            &&& !(seen.on_ground && !r.was_on_ground) && r.jump_delay_ticks > 0
                ==> after.jump_delay_ticks == r.jump_delay_ticks - 1
            &&& !(seen.on_ground && !r.was_on_ground) && r.jump_delay_ticks <= 0
                ==> after.jump_delay_ticks == r.jump_delay_ticks
            &&& !seen.on_ground ==> after.jumping == r.jumping
            &&& after.variant == r.variant
            &&& after.mob_entity == r.mob_entity
            &&& after.evil_goals_registered == r.evil_goals_registered
        }),
{
}

/// A rabbit's landing and its hops are told as they happen, and the two never in one tick.
pub proof fn law_rabbit_tells_hops(r: RabbitEntity, seen: RabbitTick, draw: i32)
    ensures
        ({
            let told = rabbit_ticked(r, seen, draw).effects;
            let lands = seen.on_ground && !r.was_on_ground;
            let rested = r.jump_delay_ticks == 0 || r.jump_delay_ticks == 1;
            let strikes = r.variant == 99 && seen.target is Some && less(
                seen.target->0,
                0x4030_0000_0000_0000,
            );
            let jumps = seen.on_ground && r.was_on_ground && rested && (strikes || (!r.jumping
                && !seen.idle));
            &&& lands ==> told == seq![Effect::SetJumping(false)]
            &&& jumps ==> told == seq![Effect::SetJumping(true), Effect::Play(Sound::RabbitJump)]
                && rabbit_ticked(r, seen, draw).rabbit.jumping
            &&& !lands && !jumps ==> told.len() == 0 && rabbit_ticked(r, seen, draw).rabbit.jumping
                == r.jumping
        }),
{
    let told = rabbit_ticked(r, seen, draw).effects;
    assert(Seq::<Effect>::empty() + hop_effects() =~= hop_effects());
    assert(seen.on_ground && !r.was_on_ground ==> told =~= seq![Effect::SetJumping(false)]);
}

/// Only evil rabbits are armed, and named where they have no name yet.
pub proof fn law_evil_rabbits_are_armed(variant: RabbitVariant, named: bool)
    ensures
        variant != RabbitVariant::Evil <==> coat_effects(variant, named).len() == 0,
        variant == RabbitVariant::Evil ==> coat_effects(variant, named)[0] == Effect::SetArmor(8)
            && coat_effects(variant, named)[1] == Effect::BoostAttack(5),
        variant == RabbitVariant::Evil && named ==> coat_effects(variant, named).len() == 2,
        variant == RabbitVariant::Evil && !named ==> coat_effects(variant, named).len() == 3
            && coat_effects(variant, named)[2] == Effect::SetName(MobName::KillerBunny),
{
}

/// A coat is kept by its number; only a rabbit that turns evil for the first time gets new goals
/// and targets, after those it had.
pub proof fn law_what_a_coat_changes(
    before: RabbitEntity,
    after: RabbitEntity,
    variant: RabbitVariant,
)
    requires
        coated(before, after, variant),
    ensures
        rabbit_of_id(after.variant) == variant,
        variant != RabbitVariant::Evil ==> after.mob_entity.goals@ == before.mob_entity.goals@
            && after.mob_entity.targets@ == before.mob_entity.targets@
            && after.evil_goals_registered == before.evil_goals_registered,
        variant == RabbitVariant::Evil ==> after.evil_goals_registered,
        variant == RabbitVariant::Evil && !before.evil_goals_registered
            ==> after.mob_entity.goals@.len() == before.mob_entity.goals@.len() + 1
            && after.mob_entity.goals@.last() == entry(
            4,
            Goal::MeleeAttack { speed: 1400, pause_when_idle: true },
        ) && after.mob_entity.targets@.len() == before.mob_entity.targets@.len() + 3,
        before.evil_goals_registered ==> after.mob_entity.goals@ == before.mob_entity.goals@
            && after.mob_entity.targets@ == before.mob_entity.targets@,
        after.jump_delay_ticks == before.jump_delay_ticks,
        after.more_carrot_ticks == before.more_carrot_ticks,
        after.jumping == before.jumping,
        after.mob_entity.age == before.mob_entity.age,
{
}

/// A kit has the coat of one of its parents, save for one draw that gives it the coat of the land;
/// with one parent alone it takes after that one.
pub proof fn law_kits_take_after_their_parents(
    first: RabbitVariant,
    mate: Option<RabbitVariant>,
    white_biome: bool,
    gold_biome: bool,
    draws: KitDraws,
)
    ensures
        ({
            let coat = kit_coat(first, mate, white_biome, gold_biome, draws);
            &&& draws.odd == 0 ==> coat == wild_coat(white_biome, gold_biome, draws.coat as int)
            &&& draws.odd != 0 && draws.from_first ==> coat == first
            &&& draws.odd != 0 && !draws.from_first && mate is Some ==> coat == mate->0
            &&& draws.odd != 0 && mate is None ==> coat == first
        }),
{
}

/// A rabbit without a coat gets that of the land; one that has a coat keeps it.
pub proof fn law_first_coat(id: u8, white_biome: bool, gold_biome: bool, draw: int)
    ensures
        id == 255 ==> first_coat(id, white_biome, gold_biome, draw) == wild_coat(
            white_biome,
            gold_biome,
            draw,
        ),
        id != 255 ==> first_coat(id, white_biome, gold_biome, draw) == rabbit_of_id(id),
{
}

/// The watchers learn of a baby rabbit when it appears.
pub proof fn law_baby_rabbits_are_told(variant: RabbitVariant, named: bool, age: i32)
    ensures
        first_coat_effects(variant, named, age).contains(Effect::Sync(SyncedValue::Baby(true)))
            <==> age < 0,
{
    broadcast use group_effects;

    let told = coat_effects(variant, named);
    assert(!told.contains(Effect::Sync(SyncedValue::Baby(true))));
    if age < 0 {
        assert(seq![Effect::Sync(SyncedValue::Baby(true))][0] == Effect::Sync(
            SyncedValue::Baby(true),
        ));
    }
}

/// A rabbit of whose wait for carrots nothing was saved need not wait; its coat stays.
pub proof fn law_rabbit_without_saved_parts(rabbit: RabbitEntity, nbt: Map<Seq<char>, NbtValue>)
    ensures
        int_at(nbt, "MoreCarrotTicks"@) is None ==> rabbit_restored(rabbit, nbt).more_carrot_ticks == 0,
        int_at(nbt, "RabbitType"@) is None ==> rabbit_restored(rabbit, nbt).variant == rabbit.variant,
        rabbit_restored(rabbit, nbt).jump_delay_ticks == rabbit.jump_delay_ticks,
        rabbit_restored(rabbit, nbt).evil_goals_registered == rabbit.evil_goals_registered,
{
}

/// What rabbits pursue, and how urgently: this and nothing else.
pub proof fn law_what_rabbits_pursue(e: GoalEntry)
    ensures
        rabbit_goals().contains(e) <==> {
            ||| e.priority == 1 && e.goal == Goal::Swim
            ||| e.priority == 1 && e.goal == Goal::ClimbOnTopOfPowderSnow
            ||| e.priority == 1 && e.goal == (Goal::EscapeDanger { speed: 2200 })
            ||| e.priority == 2 && e.goal == (Goal::Breed { speed: 800 })
            ||| e.priority == 3 && e.goal == (Goal::Tempt { speed: 1000, items: Diet::Rabbit, scared: false })
            ||| e.priority == 4 && e.goal == (Goal::RabbitAvoid { kind: EntityKind::Player, distance: 8000, slow_speed: 2200, fast_speed: 2200, })
            ||| e.priority == 4 && e.goal == (Goal::RabbitAvoid { kind: EntityKind::Wolf, distance: 10000, slow_speed: 2200, fast_speed: 2200, })
            ||| e.priority == 4 && e.goal == (Goal::RabbitAvoidMonsters { distance: 4000, slow_speed: 2200, fast_speed: 2200 })
            ||| e.priority == 5 && e.goal == (Goal::RaidGarden { speed: 700 })
            ||| e.priority == 6 && e.goal == (Goal::Wander { speed: 600 })
            ||| e.priority == 11 && e.goal == (Goal::LookAt { kind: EntityKind::Player, range: 10000 })
        },
        rabbit_goals().len() == 11,
{
    let all = rabbit_goals();
    assert(all[0] == (GoalEntry { priority: 1, goal: Goal::Swim }));
    assert(all[1] == (GoalEntry { priority: 1, goal: Goal::ClimbOnTopOfPowderSnow }));
    assert(all[2] == (GoalEntry { priority: 1, goal: Goal::EscapeDanger { speed: 2200 } }));
    assert(all[3] == (GoalEntry { priority: 2, goal: Goal::Breed { speed: 800 } }));
    assert(all[4] == (GoalEntry { priority: 3, goal: Goal::Tempt { speed: 1000, items: Diet::Rabbit, scared: false } }));
    assert(all[5] == (GoalEntry { priority: 4, goal: Goal::RabbitAvoid { kind: EntityKind::Player, distance: 8000, slow_speed: 2200, fast_speed: 2200, } }));
    assert(all[6] == (GoalEntry { priority: 4, goal: Goal::RabbitAvoid { kind: EntityKind::Wolf, distance: 10000, slow_speed: 2200, fast_speed: 2200, } }));
    assert(all[7] == (GoalEntry { priority: 4, goal: Goal::RabbitAvoidMonsters { distance: 4000, slow_speed: 2200, fast_speed: 2200 } }));
    assert(all[8] == (GoalEntry { priority: 5, goal: Goal::RaidGarden { speed: 700 } }));
    assert(all[9] == (GoalEntry { priority: 6, goal: Goal::Wander { speed: 600 } }));
    assert(all[10] == (GoalEntry { priority: 11, goal: Goal::LookAt { kind: EntityKind::Player, range: 10000 } }));
}

/// What evil rabbits pursue, and how urgently: this and nothing else.
pub proof fn law_what_evil_rabbits_pursue(e: GoalEntry)
    ensures
        evil_goals().contains(e) <==> {
            ||| e.priority == 4 && e.goal == (Goal::MeleeAttack { speed: 1400, pause_when_idle: true })
        },
        evil_goals().len() == 1,
{
    let all = evil_goals();
    assert(all[0] == (GoalEntry { priority: 4, goal: Goal::MeleeAttack { speed: 1400, pause_when_idle: true } }));
}

/// What evil rabbits go for, and how urgently: this and nothing else.
pub proof fn law_what_evil_rabbits_go_for(e: GoalEntry)
    ensures
        evil_targets().contains(e) <==> {
            ||| e.priority == 1 && e.goal == (Goal::Revenge { group: true })
            ||| e.priority == 2 && e.goal == (Goal::SimpleTarget { kind: EntityKind::Player, check_visibility: true })
            ||| e.priority == 2 && e.goal == (Goal::SimpleTarget { kind: EntityKind::Wolf, check_visibility: true })
        },
        evil_targets().len() == 3,
{
    let all = evil_targets();
    assert(all[0] == (GoalEntry { priority: 1, goal: Goal::Revenge { group: true } }));
    assert(all[1] == (GoalEntry { priority: 2, goal: Goal::SimpleTarget { kind: EntityKind::Player, check_visibility: true } }));
    assert(all[2] == (GoalEntry { priority: 2, goal: Goal::SimpleTarget { kind: EntityKind::Wolf, check_visibility: true } }));
}

} // verus!
