//! Happy ghasts: harnesses, riders, and standing still.

use vstd::prelude::*;

use crate::animal::{
    animal_interact, animal_restored, animal_saved, falls_in_love, fed, feeding_effects, grows,
    read_animal_nbt, write_animal_nbt, Feeding,
};
use crate::double::{is_at_least, is_less, is_number, less};
use crate::effect::{
    group_effects, Effect, EquipmentSlot, Interaction, MoveControl, Sound, SyncedValue,
};
use crate::equine::{Equippable, Wearers};
use crate::goal::{entry, goal, EntityKind, Goal, GoalEntry};
use crate::item::{after_use, diet_items, Diet, GameMode, ItemStack, Player};
use crate::mob::{Dimensions, MobEntity};
use crate::nbt::{int_at, NbtCompound, NbtValue};
use crate::position::{BlockPos, Point};
use crate::text::same_text;
use crate::ticks::{count_down, count_up, counted_down, counted_up};

verus! {

/// How long a hurt ghast takes to heal by one.
pub const HEAL_INTERVAL_TICKS: i32 = 600;

/// How many riders a ghast carries.
pub const MAX_PASSENGERS: usize = 4;

/// How long a ghast is known to hold a lead after it was told so.
pub const LEASH_HOLDER_TICKS: i32 = 5;

/// How long a ghast stays still for a player above it.
pub const STILL_TICKS: i32 = 10;

/// How far from its place a ghast goes.
pub open spec fn roaming_radius(is_baby: bool, has_body_armor: bool) -> i32 {
    if !is_baby && !has_body_armor {
        64
    } else {
        32
    }
}

/// How far from its place a ghast goes: a grown one without a harness goes farther.
pub fn restriction_radius(is_baby: bool, has_body_armor: bool) -> (radius: i32)
    ensures
        radius == roaming_radius(is_baby, has_body_armor),
{
    if !is_baby && !has_body_armor {
        64
    } else {
        32
    }
}

/// What a grown ghast pursues.
pub open spec fn happy_ghast_goals() -> Seq<GoalEntry> {
    seq![
        entry(3, Goal::Swim),
        entry(
            4,
            Goal::TemptAtDistance {
                speed: 1000,
                items: Diet::HappyGhast,
                scared: false,
                stop_distance: 7000,
            },
        ),
        entry(5, Goal::GhastRandomFloat),
    ]
}

/// What a young ghast does of its own accord, by thousandths of speed.
#[derive(Clone, Copy, PartialEq, Eq, Structural, Debug)]
pub enum GhastBehavior {
    Swim { chance: u32 },
    Panic { speed: u32 },
    LookAtTarget { min_ticks: u32, max_ticks: u32 },
    MoveToTarget,
    /// One of the next two, with equal weights.
    StrollOrFollowLook { stroll_speed: u32, look_speed: u32, distance: u32 },
}

/// The plans of a young ghast.
pub struct GhastBrain {
    /// What goes on all the time.
    pub core: Vec<GhastBehavior>,
    /// What goes on while nothing else does.
    pub idle: Vec<GhastBehavior>,
}

/// What goes on all the time.
pub open spec fn ghast_core() -> Seq<GhastBehavior> {
    seq![
        GhastBehavior::Swim { chance: 800 },
        GhastBehavior::Panic { speed: 2000 },
        GhastBehavior::LookAtTarget { min_ticks: 45, max_ticks: 90 },
        GhastBehavior::MoveToTarget,
    ]
}

/// What goes on while nothing else does.
pub open spec fn ghast_idle() -> Seq<GhastBehavior> {
    seq![
        GhastBehavior::StrollOrFollowLook { stroll_speed: 1000, look_speed: 1000, distance: 3 },
    ]
}

/// Whether a lead on a mob of a kind holds it at four points.
pub open spec fn held_at_four_points(kind: EntityKind) -> bool {
    match kind {
        EntityKind::Boat => true,
        EntityKind::Horse => true,
        EntityKind::Donkey => true,
        EntityKind::Mule => true,
        EntityKind::SkeletonHorse => true,
        EntityKind::ZombieHorse => true,
        EntityKind::Llama => true,
        EntityKind::TraderLlama => true,
        EntityKind::Sniffer => true,
        _ => false,
    }
}

/// Whether a lead on a mob of a kind holds it at four points.
pub fn supports_quad_leash(kind: EntityKind) -> (supports: bool)
    ensures
        supports == held_at_four_points(kind),
{
    match kind {
        EntityKind::Boat => true,
        EntityKind::Horse => true,
        EntityKind::Donkey => true,
        EntityKind::Mule => true,
        EntityKind::SkeletonHorse => true,
        EntityKind::ZombieHorse => true,
        EntityKind::Llama => true,
        EntityKind::TraderLlama => true,
        EntityKind::Sniffer => true,
        _ => false,
    }
}

/// The damage of a fall, however deep: none.
pub fn happy_ghast_fall_damage() -> (damage: i32)
    ensures
        damage == 0,
{
    0
}

/// How high the voice of a ghast is, young or old, in ten-thousandths.
pub fn happy_ghast_voice_pitch() -> (pitch: u32)
    ensures
        pitch == 10000,
{
    10000
}

/// A box with edges along the axes.
#[derive(Clone, Copy, PartialEq, Eq, Structural, Debug)]
pub struct BoundingBox {
    pub min: Point,
    pub max: Point,
}

/// Whether a coordinate lies in a range that begins with its lower end and ends before its
/// upper one.
pub open spec fn in_range(at: u64, low: u64, high: u64) -> bool {
    is_number(low) && !less(at, low) && less(at, high)
}

/// Whether a point lies in a box: on its lower faces it does, on its upper ones not.
pub open spec fn in_box(space: BoundingBox, at: Point) -> bool {
    &&& in_range(at.x, space.min.x, space.max.x)
    &&& in_range(at.y, space.min.y, space.max.y)
    &&& in_range(at.z, space.min.z, space.max.z)
}

/// Whether a point lies in a box: on its lower faces it does, on its upper ones not.
pub fn happy_ghast_detection_box_contains(space: &BoundingBox, at: Point) -> (contains: bool)
    ensures
        contains == in_box(*space, at),
{
    is_at_least(at.x, space.min.x) && is_less(at.x, space.max.x) && is_at_least(
        at.y,
        space.min.y,
    ) && is_less(at.y, space.max.y) && is_at_least(at.z, space.min.z) && is_less(
        at.z,
        space.max.z,
    )
}

/// The keys that a rider holds down.
#[derive(Clone, Copy, PartialEq, Eq, Structural, Debug)]
pub struct RiderKeys {
    pub forward: bool,
    pub backward: bool,
    pub left: bool,
    pub right: bool,
    pub jump: bool,
}

/// Where a rider steers a ghast, in thousandths.
#[derive(Clone, Copy, PartialEq, Eq, Structural, Debug)]
pub struct Steering {
    /// To the left.
    pub strafe: i32,
    /// To where the rider looks, up or down included.
    pub ahead: i32,
    /// Upwards, beyond that.
    pub lift: i32,
}

/// Where keys steer a ghast. Opposite keys to the sides cancel; backwards outweighs forwards and
/// goes at half the speed.
pub open spec fn steered_by(keys: RiderKeys) -> Steering {
    Steering {
        strafe: (if keys.left {
            1000int
        } else {
            0
        } - if keys.right {
            1000int
        } else {
            0
        }) as i32,
        ahead: (if keys.backward {
            -500int
        } else if keys.forward {
            1000
        } else {
            0
        }) as i32,
        lift: if keys.jump {
            500
        } else {
            0
        },
    }
}

/// Where keys steer a ghast.
pub fn ridden_input(keys: &RiderKeys) -> (steering: Steering)
    ensures
        steering == steered_by(*keys),
{
    let mut strafe: i32 = 0;
    if keys.left {
        strafe = strafe + 1000;
    }
    if keys.right {
        strafe = strafe - 1000;
    }
    let mut ahead: i32 = 0;
    if keys.forward || keys.backward {
        ahead = if keys.backward {
            -500
        } else {
            1000
        };
    }
    Steering {
        strafe,
        ahead,
        lift: if keys.jump {
            500
        } else {
            0
        },
    }
}

/// A player, as a ghast sees who stands above it.
#[derive(Clone, Copy)]
pub struct OverheadPlayer {
    pub spectator: bool,
    /// Whether the player, by way of whatever is ridden, sits on a happy ghast.
    pub on_happy_ghast: bool,
    /// Where the player is, or what carries the player.
    pub at: Point,
}

/// Whether a player stands in the space above the ghast.
pub open spec fn stands_above(player: OverheadPlayer, space: BoundingBox) -> bool {
    !player.spectator && !player.on_happy_ghast && in_box(space, player.at)
}

/// Whether any player stands in the space above the ghast.
pub fn scan_player_above_ghast(players: &Vec<OverheadPlayer>, space: &BoundingBox) -> (found: bool)
    ensures
        found == exists|i: int|
            0 <= i < players@.len() && stands_above(#[trigger] players@[i], *space),
{
    let mut i: usize = 0;
    while i < players.len()
        invariant
            i <= players.len(),
            forall|j: int| 0 <= j < i ==> !stands_above(#[trigger] players@[j], *space),
        decreases players.len() - i,
    {
        if !players[i].spectator && !players[i].on_happy_ghast
            && happy_ghast_detection_box_contains(space, players[i].at) {
            assert(stands_above(players@[i as int], *space));
            return true;
        }
        i = i + 1;
    }
    false
}

/// A happy ghast.
pub struct HappyGhastEntity {
    pub mob_entity: MobEntity,
    pub heal_ticks: i32,
    pub server_still_timeout: i32,
    pub leash_holder_time: i32,
    pub is_leash_holder: bool,
    pub stays_still: bool,
    /// Whether the ghast lives as a baby.
    pub baby_setup: bool,
    /// What the ghast plans while it is young.
    pub brain: GhastBrain,
}

/// What a ghast sees of the world in one tick.
#[derive(Clone, Copy)]
pub struct GhastTick {
    pub alive: bool,
    pub dead: bool,
    /// Whether the ghast has less than its full health.
    pub hurt: bool,
    pub player_above: bool,
    pub is_vehicle: bool,
    pub leashed: bool,
    pub wears_harness: bool,
    pub pos: BlockPos,
}

/// What an interaction reads of a ghast's surroundings and equipment.
#[derive(Clone, Copy)]
pub struct GhastContext {
    /// Whether the item in hand is a harness that is put on by using it.
    pub is_harness: bool,
    pub wears_harness: bool,
    /// Whether the player can ride at all.
    pub can_start_riding: bool,
    pub passengers: usize,
    /// Whether both the ghast and the player are found in the world.
    pub in_world: bool,
    pub breeding_ready: bool,
    /// Whether the item in hand is tagged as food.
    pub tagged_food: bool,
}

/// The message that tells clients whether a ghast stays still.
pub open spec fn still_sync(still: bool) -> Effect {
    Effect::Sync(SyncedValue::HappyGhastStaysStill(still))
}

/// The message that tells clients whether a ghast holds a lead.
pub open spec fn leash_sync(holds: bool) -> Effect {
    Effect::Sync(SyncedValue::HappyGhastLeashHolder(holds))
}

/// A ghast that was told to stay still for some time.
pub open spec fn told_to_stay(ghast: HappyGhastEntity, timeout: i32) -> HappyGhastEntity {
    HappyGhastEntity { server_still_timeout: timeout, stays_still: timeout > 0, ..ghast }
}

/// Whether a ghast stays still.
pub open spec fn still(ghast: HappyGhastEntity) -> bool {
    ghast.stays_still || ghast.server_still_timeout > 0
}

/// What a ghast holds in its hand of the time since it held a lead.
pub open spec fn leash_ticked(ghast: HappyGhastEntity) -> HappyGhastEntity {
    HappyGhastEntity {
        leash_holder_time: counted_down(ghast.leash_holder_time),
        is_leash_holder: ghast.leash_holder_time > 0,
        ..ghast
    }
}

/// A ghast that may have stood still long enough.
pub open spec fn still_ticked(ghast: HappyGhastEntity) -> HappyGhastEntity {
    if ghast.server_still_timeout > 0 {
        told_to_stay(
            ghast,
            if ghast.mob_entity.age > 60 {
                (ghast.server_still_timeout - 1) as i32
            } else {
                ghast.server_still_timeout
            },
        )
    } else {
        ghast
    }
}

/// What one tick of standing still tells the clients.
pub open spec fn still_effects(ghast: HappyGhastEntity) -> Seq<Effect> {
    if ghast.server_still_timeout > 0 {
        seq![still_sync(still_ticked(ghast).stays_still)]
    } else {
        seq![]
    }
}

/// A ghast below a player, or not.
pub open spec fn overhead_ticked(ghast: HappyGhastEntity, player_above: bool) -> HappyGhastEntity {
    if player_above {
        told_to_stay(ghast, STILL_TICKS)
    } else {
        ghast
    }
}

/// What a player above tells the clients.
pub open spec fn overhead_effects(player_above: bool) -> Seq<Effect> {
    if player_above {
        seq![still_sync(true)]
    } else {
        seq![]
    }
}

/// A ghast that may have healed.
pub open spec fn heal_ticked(ghast: HappyGhastEntity, dead: bool, hurt: bool) -> HappyGhastEntity {
    if dead {
        ghast
    } else if !hurt || counted_up(ghast.heal_ticks) >= HEAL_INTERVAL_TICKS {
        HappyGhastEntity { heal_ticks: 0, ..ghast }
    } else {
        HappyGhastEntity { heal_ticks: counted_up(ghast.heal_ticks), ..ghast }
    }
}

/// The healing of a ghast in one tick.
pub open spec fn heal_effects(ghast: HappyGhastEntity, dead: bool, hurt: bool) -> Seq<Effect> {
    if !dead && hurt && counted_up(ghast.heal_ticks) >= HEAL_INTERVAL_TICKS {
        seq![Effect::Heal(1)]
    } else {
        seq![]
    }
}

/// Where a ghast is kept in one tick.
pub open spec fn restriction_effects(ghast: HappyGhastEntity, seen: GhastTick) -> Seq<Effect> {
    if seen.is_vehicle || seen.leashed {
        seq![]
    } else {
        seq![
            Effect::StayNear {
                pos: seen.pos,
                radius: roaming_radius(ghast.mob_entity.age < 0, seen.wears_harness),
            },
        ]
    }
}

/// What becoming a baby, or growing up, asks of the host.
pub open spec fn growth_effects(ghast: HappyGhastEntity) -> Seq<Effect> {
    if ghast.mob_entity.age < 0 && !ghast.baby_setup {
        seq![
            Effect::MoveLike(MoveControl::Flying { max_turn: 180, hovers: true }),
            still_sync(false),
            Effect::RemoveFreeWill,
            Effect::BecomeIdle,
        ]
    } else if ghast.mob_entity.age < 0 {
        seq![Effect::BecomeIdle]
    } else if ghast.baby_setup {
        seq![Effect::MoveLike(MoveControl::Ghast), Effect::RemoveFreeWill]
    } else {
        seq![]
    }
}

/// Whether a ghast does not live yet as its age demands.
pub open spec fn must_adapt(ghast: HappyGhastEntity) -> bool {
    (ghast.mob_entity.age < 0) != ghast.baby_setup
}

/// What a ghast pursues once it lives as its age demands: one that becomes a baby drops its
/// goals.
pub open spec fn adapted_goals(ghast: HappyGhastEntity) -> Seq<GoalEntry> {
    if !must_adapt(ghast) {
        ghast.mob_entity.goals@
    } else if ghast.mob_entity.age < 0 {
        Seq::empty()
    } else {
        happy_ghast_goals()
    }
}

/// A ghast that lives as its age demands, and pursues some goals. One that becomes a baby no
/// longer stays still.
pub open spec fn adapted(ghast: HappyGhastEntity, goals: Vec<GoalEntry>) -> HappyGhastEntity {
    let baby = ghast.mob_entity.age < 0;
    let stirs = must_adapt(ghast) && baby;
    HappyGhastEntity {
        mob_entity: MobEntity { goals, ..ghast.mob_entity },
        baby_setup: baby,
        server_still_timeout: if stirs {
            0
        } else {
            ghast.server_still_timeout
        },
        stays_still: ghast.stays_still && !stirs,
        ..ghast
    }
}

/// What a tick asks of the host before the ghast ages.
pub open spec fn start_effects(ghast: HappyGhastEntity, has_passengers: bool) -> Seq<Effect> {
    if has_passengers {
        seq![Effect::AlignHead, Effect::SendExactPosition(still(ghast))]
    } else {
        seq![Effect::SendExactPosition(still(ghast))]
    }
}

/// A ghast of another age.
pub open spec fn of_age(ghast: HappyGhastEntity, age: i32) -> HappyGhastEntity {
    HappyGhastEntity { mob_entity: MobEntity { age, ..ghast.mob_entity }, ..ghast }
}

/// A ghast after the part of a tick that follows its ageing.
pub open spec fn rest_ticked(ghast: HappyGhastEntity, seen: GhastTick) -> HappyGhastEntity {
    let stood = still_ticked(leash_ticked(ghast));
    heal_ticked(overhead_ticked(stood, seen.player_above), seen.dead, seen.hurt)
}

/// What that part of a tick asks of the host.
pub open spec fn rest_effects(ghast: HappyGhastEntity, seen: GhastTick) -> Seq<Effect> {
    let leashed = leash_ticked(ghast);
    let warned = overhead_ticked(still_ticked(leashed), seen.player_above);
    seq![leash_sync(leashed.is_leash_holder)] + still_effects(leashed) + overhead_effects(
        seen.player_above,
    ) + seq![Effect::SendExactPosition(still(warned))] + heal_effects(warned, seen.dead, seen.hurt)
        + restriction_effects(rest_ticked(ghast, seen), seen)
}

/// Appending six lists one by one appends them all.
proof fn lemma_appended(
    before: Seq<Effect>,
    a: Seq<Effect>,
    b: Seq<Effect>,
    c: Seq<Effect>,
    d: Seq<Effect>,
    e: Seq<Effect>,
    f: Seq<Effect>,
)
    ensures
        before + a + b + c + d + e + f == before + (a + b + c + d + e + f),
{
    assert(before + a + b + c + d + e + f =~= before + (a + b + c + d + e + f));
}

/// Whether a ghast is given the harness in a player's hand.
pub open spec fn is_harnessed(mob: MobEntity, cx: GhastContext, stack: ItemStack) -> bool {
    mob.age >= 0 && !stack.holds_nothing() && cx.is_harness && !cx.wears_harness
}

/// Whether a player gets on a ghast.
pub open spec fn is_mounted(mob: MobEntity, cx: GhastContext, stack: ItemStack) -> bool {
    mob.age >= 0 && !is_harnessed(mob, cx, stack) && mountable(cx)
}

/// How a ghast answers to a player.
pub open spec fn ghast_outcome(
    mob: MobEntity,
    cx: GhastContext,
    feeding: Feeding,
    stack: ItemStack,
) -> Interaction {
    if mob.age < 0 && grows(mob, feeding) || is_harnessed(mob, cx, stack) || is_mounted(
        mob,
        cx,
        stack,
    ) {
        Interaction::Handled
    } else {
        Interaction::Shared
    }
}

/// What is left in the hand of a player who has used it on a ghast.
pub open spec fn stack_after_ghast(
    mob: MobEntity,
    cx: GhastContext,
    feeding: Feeding,
    stack: ItemStack,
    gamemode: GameMode,
) -> ItemStack {
    if mob.age < 0 && grows(mob, feeding) || is_harnessed(mob, cx, stack) {
        after_use(stack, gamemode, 1)
    } else {
        stack
    }
}

/// What a player's hand on a ghast asks of the host.
pub open spec fn ghast_answer_effects(
    mob: MobEntity,
    cx: GhastContext,
    feeding: Feeding,
    stack: ItemStack,
    player: Player,
) -> Seq<Effect> {
    if mob.age < 0 {
        feeding_effects(mob, feeding)
    } else if is_harnessed(mob, cx, stack) {
        harness_effects(stack)
    } else if is_mounted(mob, cx, stack) {
        mount_effects(cx, player)
    } else {
        seq![]
    }
}

impl HappyGhastEntity {
    /// A new ghast that lives and moves as a grown one until its first tick.
    pub fn new(age: i32, effects: &mut Vec<Effect>) -> (ghast: Self)
        ensures
            ghast.mob_entity.fresh(age),
            ghast.mob_entity.goals@ == happy_ghast_goals(),
            ghast.mob_entity.targets@ == Seq::<GoalEntry>::empty(),
            ghast.heal_ticks == 0,
            ghast.server_still_timeout == 0,
            ghast.leash_holder_time == 0,
            !ghast.is_leash_holder,
            !ghast.stays_still,
            !ghast.baby_setup,
            ghast.brain.core@ == ghast_core(),
            ghast.brain.idle@ == ghast_idle(),
            final(effects)@ == old(effects)@.push(Effect::MoveLike(MoveControl::Ghast)),
    {
        let goals = Self::adult_goals();
        effects.push(Effect::MoveLike(MoveControl::Ghast));
        HappyGhastEntity {
            mob_entity: MobEntity::with_goals(age, goals, Vec::new()),
            heal_ticks: 0,
            server_still_timeout: 0,
            leash_holder_time: 0,
            is_leash_holder: false,
            stays_still: false,
            baby_setup: false,
            brain: Self::make_brain(),
        }
    }

    fn adult_goals() -> (goals: Vec<GoalEntry>)
        ensures
            goals@ == happy_ghast_goals(),
    {
        vec![
            goal(3, Goal::Swim),
            goal(
                4,
                Goal::TemptAtDistance {
                    speed: 1000,
                    items: Diet::HappyGhast,
                    scared: false,
                    stop_distance: 7000,
                },
            ),
            goal(5, Goal::GhastRandomFloat),
        ]
    }

    /// The plans of a young ghast.
    pub fn make_brain() -> (brain: GhastBrain)
        ensures
            brain.core@ == ghast_core(),
            brain.idle@ == ghast_idle(),
    {
        GhastBrain {
            core: vec![
                GhastBehavior::Swim { chance: 800 },
                GhastBehavior::Panic { speed: 2000 },
                GhastBehavior::LookAtTarget { min_ticks: 45, max_ticks: 90 },
                GhastBehavior::MoveToTarget,
            ],
            idle: vec![
                GhastBehavior::StrollOrFollowLook {
                    stroll_speed: 1000,
                    look_speed: 1000,
                    distance: 3,
                },
            ],
        }
    }

    /// Whether a ghast of an age follows its plans rather than its goals.
    pub fn should_tick_brain_for_age(age: i32) -> (should: bool)
        ensures
            should == (age < 0),
    {
        age < 0
    }

    /// Whether the ghast follows its plans rather than its goals.
    pub fn should_tick_brain(&self) -> (should: bool)
        ensures
            should == (self.mob_entity.age < 0),
    {
        Self::should_tick_brain_for_age(self.mob_entity.age)
    }

    pub fn can_breathe_underwater(&self) -> (can: bool)
        ensures
            can == (self.mob_entity.age < 0),
    {
        self.mob_entity.is_baby()
    }

    pub fn should_follow_leash(&self) -> (follows: bool)
        ensures
            !follows,
    {
        false
    }

    pub fn can_be_collided_with(&self, alive: bool) -> (can: bool)
        ensures
            can == (self.mob_entity.age >= 0 && alive),
    {
        !self.mob_entity.is_baby() && alive
    }

    /// The damage of a fall, however deep: none.
    pub fn mob_calculate_fall_damage(&self) -> (damage: i32)
        ensures
            damage == 0,
    {
        happy_ghast_fall_damage()
    }

    /// How strongly the ghast is drawn down, in thousandths: it floats.
    pub fn get_mob_gravity(&self) -> (gravity: u32)
        ensures
            gravity == 0,
    {
        0
    }

    /// How high the voice of the ghast is, in ten-thousandths.
    pub fn get_sound_pitch(&self) -> (pitch: u32)
        ensures
            pitch == 10000,
    {
        happy_ghast_voice_pitch()
    }

    pub fn get_ambient_sound(&self) -> (sound: Option<Sound>)
        ensures
            sound == Some(
                if self.mob_entity.age < 0 {
                    Sound::GhastlingAmbient
                } else {
                    Sound::HappyGhastAmbient
                },
            ),
    {
        Some(
            if self.mob_entity.is_baby() {
                Sound::GhastlingAmbient
            } else {
                Sound::HappyGhastAmbient
            },
        )
    }

    pub fn get_hurt_sound(&self) -> (sound: Option<Sound>)
        ensures
            sound == Some(
                if self.mob_entity.age < 0 {
                    Sound::GhastlingHurt
                } else {
                    Sound::HappyGhastHurt
                },
            ),
    {
        Some(
            if self.mob_entity.is_baby() {
                Sound::GhastlingHurt
            } else {
                Sound::HappyGhastHurt
            },
        )
    }

    /// Tells the ghast to stay still for some ticks.
    pub fn set_server_still_timeout(&mut self, timeout: i32, effects: &mut Vec<Effect>)
        ensures
            *final(self) == told_to_stay(*old(self), timeout),
            final(effects)@ == old(effects)@.push(still_sync(timeout > 0)),
    {
        self.server_still_timeout = timeout;
        self.sync_stay_still_flag(effects);
    }

    pub fn is_on_still_timeout(&self) -> (on: bool)
        ensures
            on == still(*self),
    {
        self.stays_still || self.server_still_timeout > 0
    }

    fn sync_stay_still_flag(&mut self, effects: &mut Vec<Effect>)
        ensures
            *final(self) == (HappyGhastEntity {
                stays_still: old(self).server_still_timeout > 0,
                ..*old(self)
            }),
            final(effects)@ == old(effects)@.push(still_sync(old(self).server_still_timeout > 0)),
    {
        self.stays_still = self.server_still_timeout > 0;
        effects.push(Effect::Sync(SyncedValue::HappyGhastStaysStill(self.stays_still)));
    }

    fn set_leash_holder(&mut self, is_leash_holder: bool, effects: &mut Vec<Effect>)
        ensures
            *final(self) == (HappyGhastEntity { is_leash_holder, ..*old(self) }),
            final(effects)@ == old(effects)@.push(leash_sync(is_leash_holder)),
    {
        self.is_leash_holder = is_leash_holder;
        effects.push(Effect::Sync(SyncedValue::HappyGhastLeashHolder(is_leash_holder)));
    }

    /// Tells the ghast that it holds the lead of a mob.
    pub fn notify_leash_holder(&mut self, kind: EntityKind)
        ensures
            *final(self) == (HappyGhastEntity {
                leash_holder_time: if held_at_four_points(kind) {
                    LEASH_HOLDER_TICKS
                } else {
                    old(self).leash_holder_time
                },
                ..*old(self)
            }),
    {
        if supports_quad_leash(kind) {
            self.leash_holder_time = LEASH_HOLDER_TICKS;
        }
    }

    /// Starts to live as a grown ghast.
    fn setup_adult(&mut self, effects: &mut Vec<Effect>)
        ensures
            *final(self) == (HappyGhastEntity { mob_entity: final(self).mob_entity, ..*old(self) }),
            final(self).mob_entity == (MobEntity {
                goals: final(self).mob_entity.goals,
                ..old(self).mob_entity
            }),
            final(self).mob_entity.goals@ == happy_ghast_goals(),
            final(effects)@ == old(effects)@ + seq![
                Effect::MoveLike(MoveControl::Ghast),
                Effect::RemoveFreeWill,
            ],
    {
        effects.push(Effect::MoveLike(MoveControl::Ghast));
        effects.push(Effect::RemoveFreeWill);
        self.mob_entity.goals = Self::adult_goals();
    }

    /// Starts to live as a baby.
    fn setup_baby(&mut self, effects: &mut Vec<Effect>)
        ensures
            *final(self) == told_to_stay(
                (HappyGhastEntity { mob_entity: final(self).mob_entity, ..*old(self) }),
                0,
            ),
            final(self).mob_entity == (MobEntity {
                goals: final(self).mob_entity.goals,
                ..old(self).mob_entity
            }),
            final(self).mob_entity.goals@ == Seq::<GoalEntry>::empty(),
            final(effects)@ == old(effects)@ + seq![
                Effect::MoveLike(MoveControl::Flying { max_turn: 180, hovers: true }),
                still_sync(false),
                Effect::RemoveFreeWill,
            ],
    {
        effects.push(Effect::MoveLike(MoveControl::Flying { max_turn: 180, hovers: true }));
        self.set_server_still_timeout(0, effects);
        effects.push(Effect::RemoveFreeWill);
        self.mob_entity.goals = Vec::new();
    }

    /// Adapts to the age of the ghast, where that is not yet so.
    pub fn adapt_to_age(&mut self, effects: &mut Vec<Effect>)
        ensures
            final(self).mob_entity.goals@ == adapted_goals(*old(self)),
            *final(self) == adapted(*old(self), final(self).mob_entity.goals),
            final(effects)@ == old(effects)@ + growth_effects(*old(self)),
    {
        if self.mob_entity.is_baby() {
            if !self.baby_setup {
                self.baby_setup = true;
                self.setup_baby(effects);
            }
            effects.push(Effect::BecomeIdle);
        } else if self.baby_setup {
            self.baby_setup = false;
            self.setup_adult(effects);
        }
    }

    /// Heals a hurt ghast now and then.
    pub fn continuous_heal(&mut self, dead: bool, hurt: bool, effects: &mut Vec<Effect>)
        ensures
            *final(self) == heal_ticked(*old(self), dead, hurt),
            final(effects)@ == old(effects)@ + heal_effects(*old(self), dead, hurt),
    {
        if dead {
            return ;
        }
        if !hurt {
            self.heal_ticks = 0;
            return ;
        }
        self.heal_ticks = count_up(self.heal_ticks);
        if self.heal_ticks >= HEAL_INTERVAL_TICKS {
            self.heal_ticks = 0;
            effects.push(Effect::Heal(1));
        }
    }

    fn check_restriction(&self, seen: &GhastTick, effects: &mut Vec<Effect>)
        requires
            !seen.is_vehicle,
        ensures
            final(effects)@ == old(effects)@ + restriction_effects(*self, *seen),
    {
        if seen.leashed {
            return ;
        }
        let radius: i32 = restriction_radius(self.mob_entity.is_baby(), seen.wears_harness);
        effects.push(Effect::StayNear { pos: seen.pos, radius });
    }

    /// The part of a tick before the ghast ages.
    pub fn start_tick(&self, alive: bool, has_passengers: bool, effects: &mut Vec<Effect>)
        ensures
            final(effects)@ == old(effects)@ + (if !alive {
                seq![]
            } else {
                start_effects(*self, has_passengers)
            }),
    {
        if !alive {
            return ;
        }
        if has_passengers {
            effects.push(Effect::AlignHead);
        }
        effects.push(Effect::SendExactPosition(self.is_on_still_timeout()));
    }

    fn hold_leash(&mut self, effects: &mut Vec<Effect>)
        ensures
            *final(self) == leash_ticked(*old(self)),
            final(effects)@ == old(effects)@.push(
                leash_sync(leash_ticked(*old(self)).is_leash_holder),
            ),
    {
        let leash_time: i32 = self.leash_holder_time;
        self.leash_holder_time = count_down(leash_time);
        self.set_leash_holder(leash_time > 0, effects);
    }

    fn stand_still(&mut self, effects: &mut Vec<Effect>)
        ensures
            *final(self) == still_ticked(*old(self)),
            final(effects)@ == old(effects)@ + still_effects(*old(self)),
    {
        if self.server_still_timeout > 0 {
            if self.mob_entity.age > 60 {
                self.server_still_timeout = self.server_still_timeout - 1;
            }
            self.sync_stay_still_flag(effects);
        }
    }

    fn live_on(&mut self, seen: &GhastTick, effects: &mut Vec<Effect>)
        ensures
            ({
                let leashed = leash_ticked(*old(self));
                let warned = overhead_ticked(still_ticked(leashed), seen.player_above);
                let healed = heal_ticked(warned, seen.dead, seen.hurt);
                &&& *final(self) == healed
                &&& final(effects)@ == old(effects)@.push(leash_sync(leashed.is_leash_holder))
                    + still_effects(leashed) + overhead_effects(seen.player_above) + seq![
                    Effect::SendExactPosition(still(warned)),
                ] + heal_effects(warned, seen.dead, seen.hurt) + restriction_effects(healed, *seen)
            }),
    {
        self.hold_leash(effects);
        self.stand_still(effects);
        if seen.player_above {
            self.set_server_still_timeout(STILL_TICKS, effects);
        }
        effects.push(Effect::SendExactPosition(self.is_on_still_timeout()));
        self.continuous_heal(seen.dead, seen.hurt, effects);
        if !seen.is_vehicle {
            self.check_restriction(seen, effects);
        }
    }

    /// The part of a tick after the ghast has aged and adapted to its age.
    pub fn mob_tick(&mut self, seen: &GhastTick, effects: &mut Vec<Effect>)
        ensures
            !seen.alive ==> *final(self) == *old(self) && final(effects)@ == old(effects)@,
            seen.alive ==> {
                &&& *final(self) == rest_ticked(*old(self), *seen)
                &&& final(effects)@ == old(effects)@ + rest_effects(*old(self), *seen)
            },
    {
        if !seen.alive {
            return ;
        }
        let ghost leashed = leash_ticked(*self);
        let ghost warned = overhead_ticked(still_ticked(leashed), seen.player_above);
        let ghost first = seq![leash_sync(leashed.is_leash_holder)];
        self.live_on(seen, effects);
        proof {
            assert(old(effects)@ + first =~= old(effects)@.push(first[0]));
            lemma_appended(
                old(effects)@,
                first,
                still_effects(leashed),
                overhead_effects(seen.player_above),
                seq![Effect::SendExactPosition(still(warned))],
                heal_effects(warned, seen.dead, seen.hurt),
                restriction_effects(rest_ticked(*old(self), *seen), *seen),
            );
        }
    }

    /// A whole tick, in its order: the start, the ageing, which leaves the ghast at the age
    /// `aged`, the adapting to that age, and the rest. A ghast that is not alive does nothing.
    pub fn tick_aged(
        &mut self,
        has_passengers: bool,
        aged: i32,
        seen: &GhastTick,
        effects: &mut Vec<Effect>,
    )
        ensures
            !seen.alive ==> *final(self) == *old(self) && final(effects)@ == old(effects)@,
            seen.alive ==> {
                let older = of_age(*old(self), aged);
                let grown = adapted(older, final(self).mob_entity.goals);
                &&& final(self).mob_entity.goals@ == adapted_goals(older)
                &&& *final(self) == rest_ticked(grown, *seen)
                &&& final(effects)@ == old(effects)@ + start_effects(*old(self), has_passengers)
                    + growth_effects(older) + rest_effects(grown, *seen)
            },
    {
        if !seen.alive {
            return ;
        }
        self.start_tick(seen.alive, has_passengers, effects);
        self.mob_entity.age = aged;
        self.adapt_to_age(effects);
        self.mob_tick(seen, effects);
    }

    /// Whether a rider steers the ghast: a harnessed ghast that does not stay still obeys a
    /// player in front.
    pub fn is_steered(&self, wears_harness: bool, first_passenger_is_player: bool) -> (steered:
        bool)
        ensures
            steered == (!still(*self) && wears_harness && first_passenger_is_player),
    {
        !self.is_on_still_timeout() && wears_harness && first_passenger_is_player
    }

    /// How much of its speed a flying ghast keeps from tick to tick, in hundredths.
    pub fn kept_speed(in_water: bool, in_lava: bool) -> (percent: u32)
        ensures
            percent == (if in_water {
                80u32
            } else if in_lava {
                50u32
            } else {
                91u32
            }),
    {
        if in_water {
            80
        } else if in_lava {
            50
        } else {
            91
        }
    }

    /// Whether an item is food for the ghast: the snowball, and what is tagged as such.
    pub fn is_food(&self, stack: &ItemStack, tagged_food: bool) -> (food: bool)
        ensures
            food == (tagged_food || diet_items(Diet::HappyGhast).contains(stack.item)),
    {
        tagged_food || Diet::HappyGhast.contains(stack.item)
    }

    /// Whether an item is a harness that is put on by using it.
    pub fn is_harness(item: Option<&Equippable>) -> (is: bool)
        ensures
            is == harness(item),
    {
        match item {
            Some(worn) => match &worn.wearers {
                Wearers::Tagged { tag, .. } => worn.slot == EquipmentSlot::Body
                    && worn.equip_on_interact && same_text(tag.as_str(), "can_equip_harness"),
                _ => false,
            },
            None => false,
        }
    }

    fn try_equip_harness(
        &self,
        cx: &GhastContext,
        player: &Player,
        stack: &mut ItemStack,
        effects: &mut Vec<Effect>,
    ) -> (equipped: bool)
        ensures
            equipped == (cx.is_harness && !cx.wears_harness),
            *final(stack) == (if equipped {
                after_use(*old(stack), player.gamemode, 1)
            } else {
                *old(stack)
            }),
            final(effects)@ == old(effects)@ + (if equipped {
                harness_effects(*old(stack))
            } else {
                seq![]
            }),
    {
        if !cx.is_harness {
            return false;
        }
        if cx.wears_harness {
            return false;
        }
        let item = stack.item;
        let one = stack.split_unless_creative(player.gamemode, 1);
        effects.push(Effect::WearOnBody(one));
        effects.push(Effect::PlayEquipSound(item));
        true
    }

    fn try_mount(&self, cx: &GhastContext, player: &Player, effects: &mut Vec<Effect>) -> (mounted:
        bool)
        ensures
            mounted == mountable(*cx),
            final(effects)@ == old(effects)@ + (if mounted {
                mount_effects(*cx, *player)
            } else {
                seq![]
            }),
    {
        if !cx.wears_harness || !cx.can_start_riding {
            return false;
        }
        if cx.passengers >= MAX_PASSENGERS {
            return false;
        }
        if !cx.in_world {
            return false;
        }
        if cx.passengers == 0 {
            effects.push(Effect::Play(Sound::HappyGhastHarnessGogglesDown));
        }
        effects.push(Effect::Mount { player: player.id });
        true
    }

    /// Lets a player use an item on the ghast. A baby can be fed; a grown one puts a harness on
    /// or takes a rider.
    pub fn mob_interact(
        &mut self,
        cx: &GhastContext,
        player: &Player,
        stack: &mut ItemStack,
        effects: &mut Vec<Effect>,
    ) -> (outcome: Interaction)
        requires
            grows(
                old(self).mob_entity,
                ghast_feeding(
                    cx.tagged_food || diet_items(Diet::HappyGhast).contains(old(stack).item),
                    cx.breeding_ready,
                ),
            ) ==> old(self).mob_entity.age > i32::MIN,
        ensures
            ({
                let mob = old(self).mob_entity;
                let feeding = ghast_feeding(
                    cx.tagged_food || diet_items(Diet::HappyGhast).contains(old(stack).item),
                    cx.breeding_ready,
                );
                let baby = mob.age < 0;
                &&& outcome == ghast_outcome(mob, *cx, feeding, *old(stack))
                &&& *final(self) == (HappyGhastEntity {
                    mob_entity: if baby { fed(mob, feeding, *player) } else { mob },
                    ..*old(self)
                })
                &&& *final(stack) == stack_after_ghast(
                    mob,
                    *cx,
                    feeding,
                    *old(stack),
                    player.gamemode,
                )
                &&& final(effects)@ == old(effects)@ + ghast_answer_effects(
                    mob,
                    *cx,
                    feeding,
                    *old(stack),
                    *player,
                )
            }),
    {
        if self.mob_entity.is_baby() {
            let feeding = Feeding {
                food: self.is_food(stack, cx.tagged_food),
                breeding_ready: cx.breeding_ready,
                can_age_up: true,
                sound: Sound::GhastlingAmbient,
            };
            return animal_interact(&mut self.mob_entity, feeding, player, stack, effects);
        }
        if !stack.is_empty() && self.try_equip_harness(cx, player, stack, effects) {
            return Interaction::Handled;
        }
        if self.try_mount(cx, player, effects) {
            return Interaction::Handled;
        }
        Interaction::Shared
    }

    /// The size of a baby.
    pub fn baby_dimensions(&self) -> (size: Dimensions)
        ensures
            size == (Dimensions { width: 95000, height: 95000, eye_height: 46875 }),
    {
        Dimensions { width: 95000, height: 95000, eye_height: 46875 }
    }

    /// Tells clients about the ghast when they first see it.
    pub fn mob_init_data_tracker(&self, effects: &mut Vec<Effect>)
        ensures
            final(effects)@ == old(effects)@ + (if self.mob_entity.age < 0 {
                seq![Effect::Sync(SyncedValue::Baby(true))]
            } else {
                seq![]
            }) + seq![leash_sync(self.is_leash_holder), still_sync(self.stays_still)],
    {
        if self.mob_entity.is_baby() {
            effects.push(Effect::Sync(SyncedValue::Baby(true)));
        }
        effects.push(Effect::Sync(SyncedValue::HappyGhastLeashHolder(self.is_leash_holder)));
        effects.push(Effect::Sync(SyncedValue::HappyGhastStaysStill(self.stays_still)));
    }

    /// Saves the ghast.
    pub fn write_nbt(&self, nbt: &mut NbtCompound)
        ensures
            final(nbt)@ == happy_ghast_saved(old(nbt)@, *self),
    {
        write_animal_nbt(&self.mob_entity, nbt);
        nbt.put_int("still_timeout", self.server_still_timeout);
    }

    /// Restores the ghast.
    pub fn read_nbt(&mut self, nbt: &NbtCompound, effects: &mut Vec<Effect>)
        ensures
            *final(self) == happy_ghast_restored(*old(self), nbt@),
            final(effects)@ == old(effects)@ + (match int_at(nbt@, "still_timeout"@) {
                Some(timeout) => seq![still_sync(timeout > 0)],
                None => seq![],
            }),
    {
        read_animal_nbt(&mut self.mob_entity, nbt);
        if let Some(timeout) = nbt.get_int("still_timeout") {
            self.set_server_still_timeout(timeout, effects);
        }
    }
}

/// Whether an item is a harness that is put on by using it.
pub open spec fn harness(item: Option<&Equippable>) -> bool {
    match item {
        Some(worn) => {
            &&& worn.slot == EquipmentSlot::Body
            &&& worn.equip_on_interact
            &&& worn.wearers matches Wearers::Tagged { tag, .. } && tag@ == "can_equip_harness"@
        },
        None => false,
    }
}

/// How a young ghast takes food.
pub open spec fn ghast_feeding(food: bool, breeding_ready: bool) -> Feeding {
    Feeding { food, breeding_ready, can_age_up: true, sound: Sound::GhastlingAmbient }
}

/// What putting one item of a stack on asks of the host.
pub open spec fn harness_effects(stack: ItemStack) -> Seq<Effect> {
    seq![
        Effect::WearOnBody(
            (ItemStack {
                item: stack.item,
                count: if stack.count < 1 { stack.count } else { 1 },
            }),
        ),
        Effect::PlayEquipSound(stack.item),
    ]
}

/// Whether a player can mount the ghast.
pub open spec fn mountable(cx: GhastContext) -> bool {
    cx.wears_harness && cx.can_start_riding && cx.passengers < MAX_PASSENGERS && cx.in_world
}

/// What mounting the ghast asks of the host. The first rider pulls the goggles down.
pub open spec fn mount_effects(cx: GhastContext, player: Player) -> Seq<Effect> {
    if cx.passengers == 0 {
        seq![
            Effect::Play(Sound::HappyGhastHarnessGogglesDown),
            Effect::Mount { player: player.id },
        ]
    } else {
        seq![Effect::Mount { player: player.id }]
    }
}

/// What is saved of a ghast.
pub open spec fn happy_ghast_saved(nbt: Map<Seq<char>, NbtValue>, ghast: HappyGhastEntity) -> Map<
    Seq<char>,
    NbtValue,
> {
    animal_saved(nbt, ghast.mob_entity).insert(
        "still_timeout"@,
        NbtValue::Int(ghast.server_still_timeout),
    )
}

/// A ghast with its saved state restored.
pub open spec fn happy_ghast_restored(
    ghast: HappyGhastEntity,
    nbt: Map<Seq<char>, NbtValue>,
) -> HappyGhastEntity {
    let restored = HappyGhastEntity {
        mob_entity: animal_restored(ghast.mob_entity, nbt),
        ..ghast
    };
    match int_at(nbt, "still_timeout"@) {
        Some(timeout) => told_to_stay(restored, timeout),
        None => restored,
    }
}

/// A saved ghast is restored with the time for which it stays still, and clients see it still
/// just while that time runs.
pub proof fn law_happy_ghast_round_trip(
    nbt: Map<Seq<char>, NbtValue>,
    ghast: HappyGhastEntity,
    other: HappyGhastEntity,
)
    ensures
        ({
            let back = happy_ghast_restored(other, happy_ghast_saved(nbt, ghast));
            &&& back.server_still_timeout == ghast.server_still_timeout
            &&& back.stays_still == (ghast.server_still_timeout > 0)
        }),
{
}

/// A ghast with a player above stays still in that tick and, once grown, for the next ticks.
pub proof fn law_ghast_waits_for_the_player_above(ghast: HappyGhastEntity)
    ensures
        still(overhead_ticked(ghast, true)),
        still(still_ticked(overhead_ticked(ghast, true))),
        overhead_ticked(ghast, true).server_still_timeout == STILL_TICKS,
{
}

/// However many ride, there is never a fifth: a full ghast takes nobody.
pub proof fn law_full_ghast_takes_nobody(cx: GhastContext)
    requires
        cx.passengers >= MAX_PASSENGERS,
    ensures
        !mountable(cx),
{
}

/// The counter of healing stays below its interval.
pub proof fn law_heal_counter_stays_in_bounds(ghast: HappyGhastEntity, dead: bool, hurt: bool)
    requires
        0 <= ghast.heal_ticks < HEAL_INTERVAL_TICKS,
    ensures
        0 <= heal_ticked(ghast, dead, hurt).heal_ticks < HEAL_INTERVAL_TICKS,
{
}

/// Food makes a baby ghast grow and a grown one that is ready fall in love; nothing else does, and
/// it is heard.
pub proof fn law_what_feeding_a_happy_ghast_does(mob: MobEntity, food: bool, breeding_ready: bool)
    ensures
        grows(mob, ghast_feeding(food, breeding_ready)) <==> food && mob.age < 0,
        falls_in_love(mob, ghast_feeding(food, breeding_ready)) <==> food && breeding_ready && mob.age >= 0
            && mob.love_ticks <= 0,
        ghast_feeding(food, breeding_ready).sound == Sound::GhastlingAmbient,
{
}

/// Grown happy ghasts without a harness roam twice as far as all others.
pub proof fn law_how_far_ghasts_roam(is_baby: bool, has_body_armor: bool)
    ensures
        roaming_radius(is_baby, has_body_armor) == 64 <==> !is_baby && !has_body_armor,
        roaming_radius(is_baby, has_body_armor) != 64 <==> roaming_radius(is_baby, has_body_armor) == 32,
{
}

/// Opposite keys cancel out to the sides; going back wins over going on, and is half as fast; only
/// jumping lifts.
pub proof fn law_keys_steer_a_ghast(keys: RiderKeys)
    ensures
        steered_by(keys).strafe > 0 <==> keys.left && !keys.right,
        steered_by(keys).strafe < 0 <==> keys.right && !keys.left,
        steered_by(keys).strafe == 0 || steered_by(keys).strafe == 1000 || steered_by(keys).strafe == -1000,
        steered_by(keys).ahead < 0 <==> keys.backward,
        steered_by(keys).ahead > 0 <==> keys.forward && !keys.backward,
        steered_by(keys).ahead < 0 ==> steered_by(keys).ahead == -500,
        steered_by(keys).ahead > 0 ==> steered_by(keys).ahead == 1000,
        steered_by(keys).lift == 500 <==> keys.jump,
        steered_by(keys).lift == 0 <==> !keys.jump,
{
}

/// A box holds its lower faces and not its upper ones, in each direction alike.
pub proof fn law_box_is_half_open(space: BoundingBox, at: Point)
    requires
        in_box(space, at),
    ensures
        less(at.x, space.max.x) && !less(at.x, space.min.x),
        less(at.y, space.max.y) && !less(at.y, space.min.y),
        less(at.z, space.max.z) && !less(at.z, space.min.z),
{
}

/// A point no lower than a box's lower corner and below its upper one is in the box.
pub proof fn law_box_holds_what_is_between(space: BoundingBox, at: Point)
    requires
        is_number(space.min.x) && is_number(space.min.y) && is_number(space.min.z),
        less(at.x, space.max.x) && !less(at.x, space.min.x),
        less(at.y, space.max.y) && !less(at.y, space.min.y),
        less(at.z, space.max.z) && !less(at.z, space.min.z),
    ensures
        in_box(space, at),
{
}

/// Spectators and riders of happy ghasts do not count as standing above one; any other player in
/// the space does.
pub proof fn law_who_stands_above(player: OverheadPlayer, space: BoundingBox)
    ensures
        player.spectator ==> !stands_above(player, space),
        player.on_happy_ghast ==> !stands_above(player, space),
        !in_box(space, player.at) ==> !stands_above(player, space),
        in_box(space, player.at) && !player.spectator && !player.on_happy_ghast ==> stands_above(
            player,
            space,
        ),
{
}

/// A ghast stays put for as long as its timeout runs; the timeout runs only once the ghast is more
/// than sixty ticks old.
pub proof fn law_still_timeout_runs(ghast: HappyGhastEntity)
    ensures
        ghast.server_still_timeout <= 0 ==> still_ticked(ghast) == ghast,
        ghast.server_still_timeout > 0 && ghast.mob_entity.age > 60 ==> still_ticked(
            ghast,
        ).server_still_timeout == ghast.server_still_timeout - 1,
        ghast.server_still_timeout > 0 && ghast.mob_entity.age <= 60 ==> still_ticked(
            ghast,
        ).server_still_timeout == ghast.server_still_timeout,
        ghast.server_still_timeout > 0 ==> (still(still_ticked(ghast)) <==> still_ticked(
            ghast,
        ).server_still_timeout > 0),
        still_ticked(ghast).heal_ticks == ghast.heal_ticks,
        still_ticked(ghast).mob_entity == ghast.mob_entity,
        still_ticked(ghast).leash_holder_time == ghast.leash_holder_time,
        still(ghast) <==> ghast.stays_still || ghast.server_still_timeout > 0,
{
}

/// What a ghast tells of standing still is what it then does.
pub proof fn law_ghast_tells_whether_it_stands_still(ghast: HappyGhastEntity)
    ensures
        still_effects(ghast).len() == (if ghast.server_still_timeout > 0 { 1int } else { 0 }),
        ghast.server_still_timeout > 0 ==> still_effects(ghast)[0] == Effect::Sync(
            SyncedValue::HappyGhastStaysStill(still(still_ticked(ghast))),
        ),
{
}

/// A player above makes a ghast stay put for ten ticks; nobody above changes nothing.
pub proof fn law_player_above_holds_a_ghast(ghast: HappyGhastEntity, player_above: bool)
    ensures
        player_above ==> overhead_ticked(ghast, player_above).server_still_timeout == 10
            && overhead_ticked(ghast, player_above).stays_still,
        !player_above ==> overhead_ticked(ghast, player_above) == ghast,
        overhead_ticked(ghast, player_above).heal_ticks == ghast.heal_ticks,
        overhead_ticked(ghast, player_above).mob_entity == ghast.mob_entity,
        player_above <==> overhead_effects(player_above) == seq![
            Effect::Sync(SyncedValue::HappyGhastStaysStill(true)),
        ],
        !player_above <==> overhead_effects(player_above).len() == 0,
{
    if !player_above {
        assert(overhead_effects(player_above).len() == 0);
        assert(seq![Effect::Sync(SyncedValue::HappyGhastStaysStill(true))].len() == 1);
    }
}

/// A ghast counts as a leash holder on every tick it still has leash time, which runs down by one.
pub proof fn law_leash_time_runs_down(ghast: HappyGhastEntity)
    ensures
        leash_ticked(ghast).is_leash_holder <==> ghast.leash_holder_time > 0,
        ghast.leash_holder_time > 0 ==> leash_ticked(ghast).leash_holder_time == ghast.leash_holder_time
            - 1,
        ghast.leash_holder_time <= 0 ==> leash_ticked(ghast).leash_holder_time
            == ghast.leash_holder_time,
        leash_ticked(ghast).server_still_timeout == ghast.server_still_timeout,
        leash_ticked(ghast).stays_still == ghast.stays_still,
        leash_ticked(ghast).heal_ticks == ghast.heal_ticks,
        leash_ticked(ghast).mob_entity == ghast.mob_entity,
{
}

/// A hurt ghast gets back one point of health every six hundred ticks; an unhurt one starts its
/// count anew; a dead one does neither.
pub proof fn law_ghast_heals_slowly(ghast: HappyGhastEntity, dead: bool, hurt: bool)
    requires
        0 <= ghast.heal_ticks < 600,
    ensures
        heal_effects(ghast, dead, hurt).len() <= 1,
        heal_effects(ghast, dead, hurt).len() == 1 <==> !dead && hurt && ghast.heal_ticks == 599,
        heal_effects(ghast, dead, hurt).len() == 1 ==> heal_effects(ghast, dead, hurt)[0]
            == Effect::Heal(1),
        dead ==> heal_ticked(ghast, dead, hurt).heal_ticks == ghast.heal_ticks,
        !dead && !hurt ==> heal_ticked(ghast, dead, hurt).heal_ticks == 0,
        !dead && hurt && ghast.heal_ticks < 599 ==> heal_ticked(ghast, dead, hurt).heal_ticks
            == ghast.heal_ticks + 1,
        !dead && hurt && ghast.heal_ticks == 599 ==> heal_ticked(ghast, dead, hurt).heal_ticks == 0,
        heal_ticked(ghast, dead, hurt).mob_entity == ghast.mob_entity,
        heal_ticked(ghast, dead, hurt).server_still_timeout == ghast.server_still_timeout,
        heal_ticked(ghast, dead, hurt).stays_still == ghast.stays_still,
        heal_ticked(ghast, dead, hurt).leash_holder_time == ghast.leash_holder_time,
{
}

/// A ghast is tied to the place it is at unless it carries somebody or is on a leash.
pub proof fn law_free_ghast_stays_near(ghast: HappyGhastEntity, seen: GhastTick)
    ensures
        restriction_effects(ghast, seen).len() == 1 <==> !seen.is_vehicle && !seen.leashed,
        restriction_effects(ghast, seen).len() == 0 <==> seen.is_vehicle || seen.leashed,
        !seen.is_vehicle && !seen.leashed && ghast.mob_entity.age >= 0 && !seen.wears_harness
            ==> restriction_effects(ghast, seen)[0] == (Effect::StayNear { pos: seen.pos, radius: 64 }),
        !seen.is_vehicle && !seen.leashed && (ghast.mob_entity.age < 0 || seen.wears_harness)
            ==> restriction_effects(ghast, seen)[0] == (Effect::StayNear { pos: seen.pos, radius: 32 }),
{
}

/// A ghast changes its ways once when it turns into a baby and once when it grows up: a baby has no
/// goals and flies, and is free to move; a grown one has the goals of its kind.
pub proof fn law_ghast_changes_its_ways(ghast: HappyGhastEntity, goals: Vec<GoalEntry>)
    ensures
        must_adapt(ghast) <==> (ghast.mob_entity.age < 0 && !ghast.baby_setup)
            || (ghast.mob_entity.age >= 0 && ghast.baby_setup),
        !must_adapt(adapted(ghast, goals)),
        adapted(ghast, goals).baby_setup <==> ghast.mob_entity.age < 0,
        ghast.mob_entity.age < 0 && !ghast.baby_setup ==> adapted_goals(ghast).len() == 0 && !still(
            adapted(ghast, goals),
        ) && growth_effects(ghast).len() == 4 && growth_effects(ghast)[0] == Effect::MoveLike(
            MoveControl::Flying { max_turn: 180, hovers: true },
        ) && growth_effects(ghast)[1] == Effect::Sync(SyncedValue::HappyGhastStaysStill(false))
            && growth_effects(ghast)[2] == Effect::RemoveFreeWill && growth_effects(ghast)[3]
            == Effect::BecomeIdle,
        ghast.mob_entity.age >= 0 && ghast.baby_setup ==> adapted_goals(ghast) == happy_ghast_goals()
            && growth_effects(ghast).len() == 2 && growth_effects(ghast)[0] == Effect::MoveLike(
            MoveControl::Ghast,
        ) && growth_effects(ghast)[1] == Effect::RemoveFreeWill,
        ghast.mob_entity.age >= 0 && !ghast.baby_setup ==> growth_effects(ghast).len() == 0
            && adapted_goals(ghast) == ghast.mob_entity.goals@,
        ghast.mob_entity.age < 0 && ghast.baby_setup ==> growth_effects(ghast) == seq![
            Effect::BecomeIdle,
        ] && adapted_goals(ghast) == ghast.mob_entity.goals@,
        !(ghast.mob_entity.age < 0 && !ghast.baby_setup) ==> still(adapted(ghast, goals)) == still(
            ghast,
        ),
        adapted(ghast, goals).heal_ticks == ghast.heal_ticks,
        adapted(ghast, goals).leash_holder_time == ghast.leash_holder_time,
        adapted(ghast, goals).mob_entity.age == ghast.mob_entity.age,
{
}

/// A ghast with passengers turns its head along, and every ghast that moves freely says so.
pub proof fn law_ghast_starts_its_tick(ghast: HappyGhastEntity, has_passengers: bool)
    ensures
        start_effects(ghast, has_passengers).contains(Effect::AlignHead) <==> has_passengers,
        start_effects(ghast, has_passengers).last() == Effect::SendExactPosition(
            ghast.stays_still || ghast.server_still_timeout > 0,
        ),
        start_effects(ghast, has_passengers).len() == (if has_passengers { 2int } else { 1 }),
{
    if has_passengers {
        assert(start_effects(ghast, has_passengers)[0] == Effect::AlignHead);
    }
}

/// Over a tick of life the counters of a ghast each run on by their own rule: leash time runs
/// down, a player above renews the time of standing still, and only a living, hurt ghast heals.
pub proof fn law_ghast_tick_counters(ghast: HappyGhastEntity, seen: GhastTick)
    ensures
        rest_ticked(ghast, seen).is_leash_holder <==> ghast.leash_holder_time > 0,
        ghast.leash_holder_time > 0 ==> rest_ticked(ghast, seen).leash_holder_time
            == ghast.leash_holder_time - 1,
        seen.player_above ==> rest_ticked(ghast, seen).server_still_timeout == 10 && still(
            rest_ticked(ghast, seen),
        ),
        !seen.player_above && ghast.server_still_timeout > 0 && ghast.mob_entity.age > 60
            ==> rest_ticked(ghast, seen).server_still_timeout == ghast.server_still_timeout - 1,
        !seen.player_above && ghast.server_still_timeout > 0 && ghast.mob_entity.age <= 60
            ==> rest_ticked(ghast, seen).server_still_timeout == ghast.server_still_timeout,
        !seen.player_above && ghast.server_still_timeout <= 0 ==> still(rest_ticked(ghast, seen))
            == still(ghast),
        seen.dead ==> rest_ticked(ghast, seen).heal_ticks == ghast.heal_ticks,
        !seen.dead && !seen.hurt ==> rest_ticked(ghast, seen).heal_ticks == 0,
        !seen.dead && seen.hurt && 0 <= ghast.heal_ticks < 599 ==> rest_ticked(ghast, seen).heal_ticks
            == ghast.heal_ticks + 1,
        rest_ticked(ghast, seen).mob_entity == ghast.mob_entity,
        rest_ticked(ghast, seen).baby_setup == ghast.baby_setup,
{
}

/// What is told in one of six parts is told in the whole, and nothing else is.
proof fn lemma_in_six(
    a: Seq<Effect>,
    b: Seq<Effect>,
    c: Seq<Effect>,
    d: Seq<Effect>,
    e: Seq<Effect>,
    f: Seq<Effect>,
    effect: Effect,
)
    ensures
        (a + b + c + d + e + f).contains(effect) <==> a.contains(effect) || b.contains(effect)
            || c.contains(effect) || d.contains(effect) || e.contains(effect) || f.contains(effect),
{
    broadcast use group_effects;

}

/// What a ghast tells in a tick of life: whether it holds a leash, that it stands still as it then
/// does, that it heals, and where it is to stay.
pub proof fn law_ghast_tick_tells(ghast: HappyGhastEntity, seen: GhastTick)
    ensures
        rest_effects(ghast, seen).contains(
            Effect::Sync(SyncedValue::HappyGhastLeashHolder(true)),
        ) <==> ghast.leash_holder_time > 0,
        rest_effects(ghast, seen).contains(
            Effect::Sync(SyncedValue::HappyGhastLeashHolder(false)),
        ) <==> ghast.leash_holder_time <= 0,
        rest_effects(ghast, seen).contains(Effect::SendExactPosition(true)) <==> still(
            rest_ticked(ghast, seen),
        ),
        rest_effects(ghast, seen).contains(Effect::SendExactPosition(false)) <==> !still(
            rest_ticked(ghast, seen),
        ),
        rest_effects(ghast, seen).contains(Effect::Heal(1)) <==> !seen.dead && seen.hurt
            && counted_up(ghast.heal_ticks) >= 600,
        rest_effects(ghast, seen).contains(
            (Effect::StayNear { pos: seen.pos, radius: 64 }),
        ) <==> !seen.is_vehicle && !seen.leashed && !seen.wears_harness && ghast.mob_entity.age >= 0,
        rest_effects(ghast, seen).contains(
            (Effect::StayNear { pos: seen.pos, radius: 32 }),
        ) <==> !seen.is_vehicle && !seen.leashed && (seen.wears_harness || ghast.mob_entity.age < 0),
{
    let leashed = leash_ticked(ghast);
    let warned = overhead_ticked(still_ticked(leashed), seen.player_above);
    let a = seq![leash_sync(leashed.is_leash_holder)];
    let b = still_effects(leashed);
    let c = overhead_effects(seen.player_above);
    let d = seq![Effect::SendExactPosition(still(warned))];
    let e = heal_effects(warned, seen.dead, seen.hurt);
    let f = restriction_effects(rest_ticked(ghast, seen), seen);
    assert(a[0] == leash_sync(leashed.is_leash_holder));
    assert(d[0] == Effect::SendExactPosition(still(warned)));
    assert(e.len() == 1 ==> e[0] == Effect::Heal(1));
    assert(f.len() == 1 ==> f[0] is StayNear);
    lemma_in_six(a, b, c, d, e, f, Effect::Sync(SyncedValue::HappyGhastLeashHolder(true)));
    lemma_in_six(a, b, c, d, e, f, Effect::Sync(SyncedValue::HappyGhastLeashHolder(false)));
    lemma_in_six(a, b, c, d, e, f, Effect::SendExactPosition(true));
    lemma_in_six(a, b, c, d, e, f, Effect::SendExactPosition(false));
    lemma_in_six(a, b, c, d, e, f, Effect::Heal(1));
    lemma_in_six(a, b, c, d, e, f, Effect::StayNear { pos: seen.pos, radius: 64 });
    lemma_in_six(a, b, c, d, e, f, Effect::StayNear { pos: seen.pos, radius: 32 });
}

/// Only body gear that is put on by hand and that the animals of harnesses can wear is a harness.
pub proof fn law_what_a_harness_is(worn: &Equippable)
    ensures
        !harness(None),
        harness(Some(worn)) <==> worn.slot == EquipmentSlot::Body && worn.equip_on_interact
            && worn.wearers is Tagged && worn.wearers->tag@ == "can_equip_harness"@,
{
}

/// Putting a harness on takes one of the stack and is heard.
pub proof fn law_harness_is_one_piece(stack: ItemStack)
    ensures
        harness_effects(stack).len() == 2,
        harness_effects(stack)[0] is WearOnBody,
        stack.count >= 1 ==> harness_effects(stack)[0] == Effect::WearOnBody(
            (ItemStack { item: stack.item, count: 1 }),
        ),
        stack.count < 1 ==> harness_effects(stack)[0] == Effect::WearOnBody(stack),
        harness_effects(stack)[1] == Effect::PlayEquipSound(stack.item),
{
}

/// A harnessed ghast in the world takes up to four riders; the first puts the goggles down.
pub proof fn law_who_may_ride_a_ghast(cx: GhastContext, player: Player)
    ensures
        mountable(cx) <==> cx.wears_harness && cx.can_start_riding && cx.in_world && cx.passengers <= 3,
        mount_effects(cx, player).last() == (Effect::Mount { player: player.id }),
        mount_effects(cx, player).contains(Effect::Play(Sound::HappyGhastHarnessGogglesDown))
            <==> cx.passengers == 0,
        mount_effects(cx, player).len() <= 2,
{
    if cx.passengers == 0 {
        assert(mount_effects(cx, player)[0] == Effect::Play(Sound::HappyGhastHarnessGogglesDown));
    }
}

/// Boats, horses and their kin, and sniffers hang from a ghast at four points; nothing else does.
pub proof fn law_what_hangs_at_four_points(kind: EntityKind)
    ensures
        held_at_four_points(kind) <==> kind == EntityKind::Boat || kind == EntityKind::Horse || kind
            == EntityKind::Donkey || kind == EntityKind::Mule || kind == EntityKind::SkeletonHorse
            || kind == EntityKind::ZombieHorse || kind == EntityKind::Llama || kind
            == EntityKind::TraderLlama || kind == EntityKind::Sniffer,
{
}

/// A ghast that is read back keeps what is not in the tree.
pub proof fn law_ghast_without_saved_timeout(
    ghast: HappyGhastEntity,
    nbt: Map<Seq<char>, NbtValue>,
)
    ensures
        int_at(nbt, "still_timeout"@) is None ==> happy_ghast_restored(ghast, nbt).server_still_timeout
            == ghast.server_still_timeout && happy_ghast_restored(ghast, nbt).stays_still
            == ghast.stays_still,
        happy_ghast_restored(ghast, nbt).heal_ticks == ghast.heal_ticks,
        happy_ghast_saved(nbt, ghast)["still_timeout"@] == NbtValue::Int(ghast.server_still_timeout),
{
}

/// What grown happy ghasts pursue, and how urgently: this and nothing else.
pub proof fn law_what_grown_happy_ghasts_pursue(e: GoalEntry)
    ensures
        happy_ghast_goals().contains(e) <==> {
            ||| e.priority == 3 && e.goal == Goal::Swim
            ||| e.priority == 4 && e.goal == (Goal::TemptAtDistance { speed: 1000, items: Diet::HappyGhast, scared: false, stop_distance: 7000, })
            ||| e.priority == 5 && e.goal == Goal::GhastRandomFloat
        },
        happy_ghast_goals().len() == 3,
{
    let all = happy_ghast_goals();
    assert(all[0] == (GoalEntry { priority: 3, goal: Goal::Swim }));
    assert(all[1] == (GoalEntry { priority: 4, goal: Goal::TemptAtDistance { speed: 1000, items: Diet::HappyGhast, scared: false, stop_distance: 7000, } }));
    assert(all[2] == (GoalEntry { priority: 5, goal: Goal::GhastRandomFloat }));
}

/// What ghastlings always do: this and nothing else.
pub proof fn law_what_ghastlings_always_do(b: GhastBehavior)
    ensures
        ghast_core().contains(b) <==> {
            ||| b == (GhastBehavior::Swim { chance: 800 })
            ||| b == (GhastBehavior::Panic { speed: 2000 })
            ||| b == (GhastBehavior::LookAtTarget { min_ticks: 45, max_ticks: 90 })
            ||| b == GhastBehavior::MoveToTarget
        },
        ghast_core().len() == 4,
{
    let all = ghast_core();
    assert(all[0] == (GhastBehavior::Swim { chance: 800 }));
    assert(all[1] == (GhastBehavior::Panic { speed: 2000 }));
    assert(all[2] == (GhastBehavior::LookAtTarget { min_ticks: 45, max_ticks: 90 }));
    assert(all[3] == GhastBehavior::MoveToTarget);
}

/// What ghastlings do when nothing presses them: this and nothing else.
pub proof fn law_what_idle_ghastlings_do(b: GhastBehavior)
    ensures
        ghast_idle().contains(b) <==> {
            ||| b == (GhastBehavior::StrollOrFollowLook { stroll_speed: 1000, look_speed: 1000, distance: 3 })
        },
        ghast_idle().len() == 1,
{
    let all = ghast_idle();
    assert(all[0] == (GhastBehavior::StrollOrFollowLook { stroll_speed: 1000, look_speed: 1000, distance: 3 }));
}

/// A grown ghast without a harness is given the one in hand; else a player who can gets on it; a
/// baby is only fed. What is eaten or put on is gone from the hand, unless the player is creative.
pub proof fn law_how_ghasts_answer(
    mob: MobEntity,
    cx: GhastContext,
    feeding: Feeding,
    stack: ItemStack,
    player: Player,
)
    ensures
        is_harnessed(mob, cx, stack) <==> mob.age >= 0 && stack.holds_nothing() == false
            && cx.is_harness && !cx.wears_harness,
        is_harnessed(mob, cx, stack) ==> !is_mounted(mob, cx, stack),
        !is_harnessed(mob, cx, stack) && mob.age >= 0 ==> is_mounted(mob, cx, stack) == mountable(cx),
        mob.age < 0 ==> !is_harnessed(mob, cx, stack) && !is_mounted(mob, cx, stack),
        mob.age < 0 ==> (ghast_outcome(mob, cx, feeding, stack) == Interaction::Handled <==> feeding.food
            && feeding.can_age_up),
        mob.age >= 0 ==> (ghast_outcome(mob, cx, feeding, stack) == Interaction::Handled
            <==> is_harnessed(mob, cx, stack) || mountable(cx)),
        ghast_outcome(mob, cx, feeding, stack) != Interaction::Handled ==> ghast_outcome(
            mob,
            cx,
            feeding,
            stack,
        ) == Interaction::Shared && stack_after_ghast(mob, cx, feeding, stack, player.gamemode) == stack
            && ghast_answer_effects(mob, cx, feeding, stack, player).len() == 0,
        is_mounted(mob, cx, stack) ==> stack_after_ghast(mob, cx, feeding, stack, player.gamemode)
            == stack && ghast_answer_effects(mob, cx, feeding, stack, player).last() == (
        Effect::Mount { player: player.id }),
        is_harnessed(mob, cx, stack) ==> stack_after_ghast(mob, cx, feeding, stack, player.gamemode)
            == after_use(stack, player.gamemode, 1) && ghast_answer_effects(
            mob,
            cx,
            feeding,
            stack,
            player,
        )[0] is WearOnBody,
        mob.age < 0 && feeding.food && feeding.can_age_up ==> stack_after_ghast(
            mob,
            cx,
            feeding,
            stack,
            player.gamemode,
        ) == after_use(stack, player.gamemode, 1) && ghast_answer_effects(
            mob,
            cx,
            feeding,
            stack,
            player,
        ).last() == Effect::Play(feeding.sound),
{
}

} // verus!
