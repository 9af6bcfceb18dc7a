//! Allays: fetching items, dancing to music, and multiplying.

use vstd::prelude::*;

use crate::double::{is_less, less};
use crate::effect::{group_effects, Effect, Interaction, Sound};
use crate::item::{after_use, empty_stack, GameMode, Item, ItemStack, Player};
use crate::mob::MobEntity;
use crate::position::{abs, BlockPos};
use crate::random::{chance, roll};
use crate::ticks::is_multiple;

verus! {

pub const DUPLICATION_COOLDOWN_TICKS: i64 = 6000;

pub const TIME_TO_FORGET_NOTEBLOCK_TICKS: i32 = 600;

/// The square of the distance up to which an allay likes a player, 64 blocks, by its bits.
pub const LIKED_PLAYER_MAX_SQUARED: u64 = 0x40B0_0000_0000_0000;

/// The square of the distance up to which an allay dances to a jukebox, ten blocks, by its bits.
pub const JUKEBOX_DANCE_SQUARED: u64 = 0x4059_0000_0000_0000;

/// Within how many blocks an allay hears note blocks.
pub const LISTENER_RADIUS: i32 = 16;

/// Within how many blocks an allay hears jukeboxes.
pub const JUKEBOX_LISTENER_RADIUS: i32 = 10;

/// How far away a note block may be for the allay to bring items to it.
pub const MAX_NOTEBLOCK_DISTANCE: i32 = 1024;

/// What an allay can do. Speeds are in thousandths.
#[derive(Clone, Copy, PartialEq, Eq, Structural, Debug)]
pub enum Behavior {
    /// Swimming up with a chance in thousandths.
    Swim { chance: u32 },
    Panic { speed: u32 },
    LookAtTarget { min_ticks: i32, max_ticks: i32 },
    MoveToTarget,
    CountDownNoteblockCooldown,
    CountDownPickupCooldown,
    GoToWantedItem { speed: u32, ignore_walk_target: bool, max_distance: u32 },
    GoAndGiveItems { speed: u32, timeout: i32 },
    /// Staying close to where items go, unless there is an item to fetch.
    StayCloseToTarget { close_enough: i32, too_far: i32, speed: u32 },
    /// One of the three behaviours that follow, each with a weight.
    RunOne {
        stroll_speed: u32,
        stroll_weight: u32,
        look_speed: u32,
        look_distance: i32,
        look_weight: u32,
        min_wait: i32,
        max_wait: i32,
        wait_weight: u32,
    },
}

#[derive(Clone, Copy, PartialEq, Eq, Structural, Debug)]
pub enum Activity {
    Core,
    Idle,
}

/// What an allay does and what it remembers.
pub struct Brain {
    pub core: Vec<Behavior>,
    pub idle: Vec<Behavior>,
    pub core_active: bool,
    pub idle_active: bool,
    pub liked_player: Option<u128>,
    pub liked_noteblock_position: Option<BlockPos>,
    pub liked_noteblock_cooldown: Option<i32>,
    pub item_pickup_cooldown: Option<i32>,
    pub sees_wanted_item: bool,
}

/// What an allay does at all times.
pub open spec fn core_behaviors() -> Seq<Behavior> {
    seq![
        Behavior::Swim { chance: 800 },
        Behavior::Panic { speed: 2500 },
        Behavior::LookAtTarget { min_ticks: 45, max_ticks: 90 },
        Behavior::MoveToTarget,
        Behavior::CountDownNoteblockCooldown,
        Behavior::CountDownPickupCooldown,
    ]
}

/// What an allay does when nothing else is to be done.
pub open spec fn idle_behaviors() -> Seq<Behavior> {
    seq![
        Behavior::GoToWantedItem { speed: 1750, ignore_walk_target: true, max_distance: 32000 },
        Behavior::GoAndGiveItems { speed: 2250, timeout: 20 },
        Behavior::StayCloseToTarget { close_enough: 4, too_far: 16, speed: 2250 },
        Behavior::RunOne {
            stroll_speed: 1000,
            stroll_weight: 2,
            look_speed: 1000,
            look_distance: 3,
            look_weight: 2,
            min_wait: 30,
            max_wait: 60,
            wait_weight: 1,
        },
    ]
}

impl Brain {
    /// Whether an activity goes on.
    pub fn is_active(&self, activity: Activity) -> (active: bool)
        ensures
            active == (match activity {
                Activity::Core => self.core_active,
                Activity::Idle => self.idle_active,
            }),
    {
        match activity {
            Activity::Core => self.core_active,
            Activity::Idle => self.idle_active,
        }
    }
}

/// Where an allay brings what it fetched.
#[derive(Clone, Copy, PartialEq, Eq, Structural, Debug)]
pub enum DepositTarget {
    /// The block above a note block.
    Block(BlockPos),
    /// A player.
    Player(u128),
}

/// What an allay sees of the player whom it likes.
#[derive(Clone, Copy)]
pub struct LikedPlayer {
    pub gamemode: GameMode,
    /// The square of the player's distance, by its bits.
    pub distance_squared: u64,
}

/// Something that can be heard.
#[derive(Clone, Copy, PartialEq, Eq, Structural, Debug)]
pub enum GameEvent {
    NoteBlockPlay,
    JukeboxPlay,
    JukeboxStopPlay,
    Other,
}

/// An allay.
pub struct AllayEntity {
    pub mob_entity: MobEntity,
    pub brain: Brain,
    pub is_dancing: bool,
    pub jukebox_pos: Option<BlockPos>,
    /// What the allay has collected, in its only slot.
    pub inventory: ItemStack,
    /// What the allay holds, which is what it collects.
    pub item_in_hand: ItemStack,
    pub duplication_cooldown: i64,
    pub listener_registered: bool,
}

/// How far two positions are apart for a king on a chessboard of three dimensions.
pub open spec fn chessboard_distance(a: BlockPos, b: BlockPos) -> int {
    let dx = abs(a.x - b.x);
    let dy = abs(a.y - b.y);
    let dz = abs(a.z - b.z);
    if dx >= dy && dx >= dz {
        dx
    } else if dy >= dz {
        dy
    } else {
        dz
    }
}

/// How many items fit into a slot.
pub open spec fn items_taken(
    slot: ItemStack,
    stack: ItemStack,
    same_components: bool,
    max_size: u8,
) -> int {
    let room = if slot.holds_nothing() {
        max_size as int
    } else if slot.item == stack.item && same_components && slot.count < max_size {
        max_size - slot.count
    } else {
        0
    };
    if stack.count < room {
        stack.count as int
    } else {
        room
    }
}

/// The pitches at which thrown items sound, in ten-thousandths.
pub open spec fn throw_pitches() -> Seq<u32> {
    seq![
        5625u32,
        6250u32,
        7500u32,
        9375u32,
        10000u32,
        10000u32,
        11250u32,
        12500u32,
        15000u32,
        18750u32,
        20000u32,
        22500u32,
        25000u32,
        30000u32,
        37500u32,
        40000u32,
    ]
}

/// The pitch of a thrown item for a draw.
pub fn throw_sound_pitch(draw: i32) -> (pitch: u32)
    requires
        0 <= draw < 16,
    ensures
        pitch == throw_pitches()[draw as int],
{
    let pitches: Vec<u32> = vec![
        5625, 6250, 7500, 9375, 10000, 10000, 11250, 12500, 15000, 18750, 20000, 22500, 25000,
        30000, 37500, 40000,
    ];
    pitches[draw as usize]
}

/// What throwing an item sounds like: nothing but at every seventh tick, and even then not
/// always.
pub open spec fn throw_effects(game_time: int, silent: bool, draw: int) -> Seq<Effect> {
    if game_time % 7 != 0 || silent {
        seq![]
    } else {
        seq![
            Effect::PlayAt {
                sound: Sound::AllayItemThrown,
                volume: 10000,
                pitch: throw_pitches()[draw],
            },
        ]
    }
}

/// Sounds a thrown item, for draws.
pub fn throw_with_draws(game_time: i64, silent: bool, draw: i32, effects: &mut Vec<Effect>)
    requires
        0 <= draw < 16,
    ensures
        final(effects)@ == old(effects)@ + throw_effects(game_time as int, silent, draw as int),
{
    let seventh = match game_time.checked_rem_euclid(7) {
        Some(rest) => rest == 0,
        None => false,
    };
    if !seventh {
        return ;
    }
    if silent {
        return ;
    }
    effects.push(
        Effect::PlayAt {
            sound: Sound::AllayItemThrown,
            volume: 10000,
            pitch: throw_sound_pitch(draw),
        },
    );
}

/// Sounds a thrown item.
pub fn on_item_thrown(game_time: i64, effects: &mut Vec<Effect>)
    ensures
        exists|silent: bool, draw: int|
            0 <= draw < 16 && final(effects)@ == old(effects)@ + #[trigger] throw_effects(
                game_time as int,
                silent,
                draw,
            ),
{
    let silent = chance(1, 10);
    let draw: i32 = roll(0, 16);
    throw_with_draws(game_time, silent, draw, effects);
}

/// What a player and an allay do with an item.
pub enum AllayExchange {
    Duplicate,
    Give,
    Take,
    Nothing,
}

/// What a player and an allay do with an item.
pub open spec fn allay_exchange(
    allay: AllayEntity,
    stack: ItemStack,
    duplicates: bool,
) -> AllayExchange {
    if allay.is_dancing && duplicates && allay.duplication_cooldown <= 0 {
        AllayExchange::Duplicate
    } else if allay.item_in_hand.holds_nothing() && !stack.holds_nothing() {
        AllayExchange::Give
    } else if !allay.item_in_hand.holds_nothing() && stack.holds_nothing() {
        AllayExchange::Take
    } else {
        AllayExchange::Nothing
    }
}

/// One item of a stack.
pub open spec fn one_of(stack: ItemStack) -> ItemStack {
    ItemStack { item: stack.item, count: 1 }
}

/// An allay after an exchange.
pub open spec fn allay_exchanged(
    allay: AllayEntity,
    stack: ItemStack,
    duplicates: bool,
    player: u128,
) -> AllayEntity {
    match allay_exchange(allay, stack, duplicates) {
        AllayExchange::Duplicate => AllayEntity {
            duplication_cooldown: DUPLICATION_COOLDOWN_TICKS,
            ..allay
        },
        AllayExchange::Give => AllayEntity {
            item_in_hand: one_of(stack),
            brain: Brain { liked_player: Some(player), ..allay.brain },
            ..allay
        },
        AllayExchange::Take => AllayEntity {
            item_in_hand: empty_stack(),
            inventory: empty_stack(),
            brain: Brain { liked_player: None, ..allay.brain },
            ..allay
        },
        AllayExchange::Nothing => allay,
    }
}

/// What an exchange asks of the host.
pub open spec fn exchange_effects(allay: AllayEntity, stack: ItemStack, duplicates: bool) -> Seq<
    Effect,
> {
    match allay_exchange(allay, stack, duplicates) {
        AllayExchange::Duplicate => seq![Effect::Duplicate, Effect::Play(Sound::AmethystBlockChime)],
        AllayExchange::Give => seq![
            Effect::Hold(one_of(stack)),
            Effect::Play(Sound::AllayItemGiven),
        ],
        AllayExchange::Take => seq![
            Effect::Hold(empty_stack()),
            Effect::Play(Sound::AllayItemTaken),
        ] + (if allay.inventory.holds_nothing() {
            seq![]
        } else {
            seq![Effect::GiveToPlayer(allay.inventory)]
        }) + seq![Effect::GiveToPlayer(allay.item_in_hand)],
        AllayExchange::Nothing => seq![],
    }
}

/// Whether the music has gone.
pub open spec fn music_gone(allay: AllayEntity, jukebox_distance: u64) -> bool {
    allay.jukebox_pos is None || less(JUKEBOX_DANCE_SQUARED, jukebox_distance)
}

/// An allay after one tick.
pub open spec fn allay_ticked(allay: AllayEntity, jukebox_distance: u64) -> AllayEntity {
    let stops = allay.is_dancing && allay.mob_entity.age % 20 == 0 && music_gone(
        allay,
        jukebox_distance,
    );
    AllayEntity {
        listener_registered: true,
        brain: Brain { idle_active: true, ..allay.brain },
        is_dancing: allay.is_dancing && !stops,
        jukebox_pos: if stops { None } else { allay.jukebox_pos },
        duplication_cooldown: if allay.duplication_cooldown > 0 {
            (allay.duplication_cooldown - 1) as i64
        } else {
            allay.duplication_cooldown
        },
        ..allay
    }
}

/// What a tick of an allay asks of the host.
pub open spec fn allay_tick_effects(allay: AllayEntity, alive: bool) -> Seq<Effect> {
    let listening = if allay.listener_registered {
        seq![]
    } else {
        seq![Effect::RegisterListeners]
    };
    let healing = if allay.mob_entity.age % 10 == 0 && alive {
        seq![Effect::Heal(1)]
    } else {
        seq![]
    };
    listening + healing
}

/// An allay that hears a jukebox start or stop.
pub open spec fn heard_jukebox(allay: AllayEntity, jukebox: BlockPos, is_playing: bool) -> AllayEntity {
    if is_playing && !allay.is_dancing {
        AllayEntity { jukebox_pos: Some(jukebox), is_dancing: true, ..allay }
    } else if !is_playing && (allay.jukebox_pos == Some(jukebox) || allay.jukebox_pos is None) {
        AllayEntity { jukebox_pos: None, is_dancing: false, ..allay }
    } else {
        allay
    }
}

/// Whether an allay brings its things to the note block it likes.
pub open spec fn serves_noteblock(brain: Brain, at: BlockPos, is_noteblock: bool) -> bool {
    &&& brain.liked_noteblock_position is Some
    &&& chessboard_distance(brain.liked_noteblock_position->0, at) <= MAX_NOTEBLOCK_DISTANCE
    &&& is_noteblock
    &&& brain.liked_noteblock_cooldown is Some
}

/// Whether an allay has room for more of what it collects.
pub open spec fn has_room_for(
    allay: AllayEntity,
    item: Item,
    same_components: bool,
    max_size: u8,
) -> bool {
    allay.inventory.holds_nothing() || allay.inventory.item == item && same_components
        && allay.inventory.count < max_size
}

/// Whether an allay wants what lies before it.
pub open spec fn wants_item(
    allay: AllayEntity,
    item: Item,
    mob_griefing: bool,
    same_components: bool,
    max_size: u8,
) -> bool {
    !allay.item_in_hand.holds_nothing() && mob_griefing && has_room_for(
        allay,
        item,
        same_components,
        max_size,
    ) && allay.item_in_hand.item == item
}

/// What an allay carries once it has taken some more of a stack.
pub open spec fn carried_with(inventory: ItemStack, item: Item, taken: int) -> ItemStack {
    if inventory.holds_nothing() {
        ItemStack { item, count: taken as u8 }
    } else {
        ItemStack { item: inventory.item, count: (inventory.count + taken) as u8 }
    }
}

/// Whether an allay can take anything up.
pub open spec fn takes_things_up(allay: AllayEntity) -> bool {
    allay.brain.item_pickup_cooldown is None && !allay.item_in_hand.holds_nothing()
}

/// An allay that has chosen where to bring its things; it forgets a note block that does not count.
pub open spec fn chose_target(allay: AllayEntity, at: BlockPos, is_noteblock: bool) -> AllayEntity {
    if serves_noteblock(allay.brain, at, is_noteblock) {
        allay
    } else {
        AllayEntity {
            brain: Brain { liked_noteblock_position: None, ..allay.brain },
            ..allay
        }
    }
}

impl AllayEntity {
    /// Whether an allay of an age has done nothing yet, and has to wait for some ticks before it
    /// multiplies.
    pub open spec fn is_new(self, age: i32, cooldown: i64) -> bool {
        &&& self.mob_entity.fresh(age)
        &&& self.mob_entity.goals@.len() == 0
        &&& self.mob_entity.targets@.len() == 0
        &&& self.brain.is_new()
        &&& !self.is_dancing
        &&& self.jukebox_pos is None
        &&& self.inventory == empty_stack()
        &&& self.item_in_hand == empty_stack()
        &&& self.duplication_cooldown == cooldown
        &&& !self.listener_registered
    }

    /// A new allay.
    pub fn new(age: i32) -> (allay: Self)
        ensures
            allay.is_new(age, 0),
    {
        AllayEntity {
            mob_entity: MobEntity::new(age),
            brain: Self::make_brain(),
            is_dancing: false,
            jukebox_pos: None,
            inventory: ItemStack::empty(),
            item_in_hand: ItemStack::empty(),
            duplication_cooldown: 0,
            listener_registered: false,
        }
    }

    /// A brain that remembers nothing, with both activities going on.
    pub fn make_brain() -> (brain: Brain)
        ensures
            brain.is_new(),
    {
        Brain {
            core: Self::init_core_activity(),
            idle: Self::init_idle_activity(),
            core_active: true,
            idle_active: true,
            liked_player: None,
            liked_noteblock_position: None,
            liked_noteblock_cooldown: None,
            item_pickup_cooldown: None,
            sees_wanted_item: false,
        }
    }

    pub fn init_core_activity() -> (behaviors: Vec<Behavior>)
        ensures
            behaviors@ == core_behaviors(),
    {
        vec![
            Behavior::Swim { chance: 800 },
            Behavior::Panic { speed: 2500 },
            Behavior::LookAtTarget { min_ticks: 45, max_ticks: 90 },
            Behavior::MoveToTarget,
            Behavior::CountDownNoteblockCooldown,
            Behavior::CountDownPickupCooldown,
        ]
    }

    pub fn init_idle_activity() -> (behaviors: Vec<Behavior>)
        ensures
            behaviors@ == idle_behaviors(),
    {
        vec![
            Behavior::GoToWantedItem { speed: 1750, ignore_walk_target: true, max_distance: 32000 },
            Behavior::GoAndGiveItems { speed: 2250, timeout: 20 },
            Behavior::StayCloseToTarget { close_enough: 4, too_far: 16, speed: 2250 },
            Behavior::RunOne {
                stroll_speed: 1000,
                stroll_weight: 2,
                look_speed: 1000,
                look_distance: 3,
                look_weight: 2,
                min_wait: 30,
                max_wait: 60,
                wait_weight: 1,
            },
        ]
    }

    /// Within how many blocks an allay hears note blocks.
    pub fn listener_radius(&self) -> (radius: i32)
        ensures
            radius == LISTENER_RADIUS,
    {
        LISTENER_RADIUS
    }

    /// Within how many blocks an allay hears jukeboxes.
    pub fn jukebox_listener_radius(&self) -> (radius: i32)
        ensures
            radius == JUKEBOX_LISTENER_RADIUS,
    {
        JUKEBOX_LISTENER_RADIUS
    }

    /// Multiplies: a new allay appears where this one is. Both have to wait before they multiply
    /// again.
    pub fn duplicate(&mut self, effects: &mut Vec<Effect>) -> (clone: Self)
        ensures
            clone.is_new(0, DUPLICATION_COOLDOWN_TICKS),
            *final(self) == (AllayEntity {
                duplication_cooldown: DUPLICATION_COOLDOWN_TICKS,
                ..*old(self)
            }),
            final(effects)@ == old(effects)@.push(Effect::Duplicate),
    {
        let mut clone = AllayEntity::new(0);
        clone.reset_duplication_cooldown();
        self.reset_duplication_cooldown();
        effects.push(Effect::Duplicate);
        clone
    }

    /// An allay on a leash goes its own way.
    pub fn should_follow_leash(&self) -> (follows: bool)
        ensures
            !follows,
    {
        false
    }

    pub fn is_dancing(&self) -> (dancing: bool)
        ensures
            dancing == self.is_dancing,
    {
        self.is_dancing
    }

    /// A jukebox starts or stops to play. The allay dances to the first one it hears, until
    /// that one stops.
    pub fn set_jukebox_playing(&mut self, jukebox: BlockPos, is_playing: bool)
        ensures
            *final(self) == heard_jukebox(*old(self), jukebox, is_playing),
    {
        if is_playing {
            if !self.is_dancing() {
                self.jukebox_pos = Some(jukebox);
                self.is_dancing = true;
            }
        } else {
            let mine = match self.jukebox_pos {
                Some(pos) => pos == jukebox,
                None => true,
            };
            if mine {
                self.jukebox_pos = None;
                self.is_dancing = false;
            }
        }
    }

    pub fn should_stop_dancing(&self, jukebox_distance: u64) -> (stops: bool)
        ensures
            stops == music_gone(*self, jukebox_distance),
    {
        self.jukebox_pos.is_none() || is_less(JUKEBOX_DANCE_SQUARED, jukebox_distance)
    }

    /// A note block plays. The allay remembers the first one it hears, and for longer each time
    /// it hears that one again.
    pub fn hear_noteblock(&mut self, pos: BlockPos)
        ensures
            *final(self) == (AllayEntity {
                brain: noteblock_heard(old(self).brain, pos),
                ..*old(self)
            }),
    {
        match self.brain.liked_noteblock_position {
            None => {
                self.brain.liked_noteblock_position = Some(pos);
                self.brain.liked_noteblock_cooldown = Some(TIME_TO_FORGET_NOTEBLOCK_TICKS);
            },
            Some(existing) => {
                if existing == pos {
                    self.brain.liked_noteblock_cooldown = Some(TIME_TO_FORGET_NOTEBLOCK_TICKS);
                }
            },
        }
    }

    /// Something is heard where notes are listened for. Says whether it was of interest.
    pub fn on_vibration(&mut self, event: GameEvent, no_ai: bool, pos: BlockPos) -> (heard: bool)
        ensures
            heard == (event == GameEvent::NoteBlockPlay && !no_ai),
            *final(self) == (if heard {
                AllayEntity { brain: noteblock_heard(old(self).brain, pos), ..*old(self) }
            } else {
                *old(self)
            }),
    {
        match event {
            GameEvent::NoteBlockPlay => {
                if no_ai {
                    return false;
                }
                self.hear_noteblock(pos);
                true
            },
            _ => false,
        }
    }

    /// Something is heard where music is listened for. Says whether it was of interest.
    pub fn on_jukebox_event(&mut self, event: GameEvent, pos: BlockPos) -> (heard: bool)
        ensures
            heard == (event == GameEvent::JukeboxPlay || event == GameEvent::JukeboxStopPlay),
            event == GameEvent::JukeboxPlay ==> *final(self) == heard_jukebox(*old(self), pos, true),
            event == GameEvent::JukeboxStopPlay ==> *final(self) == heard_jukebox(
                *old(self),
                pos,
                false,
            ),
            !heard ==> *final(self) == *old(self),
    {
        match event {
            GameEvent::JukeboxPlay => {
                self.set_jukebox_playing(pos, true);
                true
            },
            GameEvent::JukeboxStopPlay => {
                self.set_jukebox_playing(pos, false);
                true
            },
            _ => false,
        }
    }

    pub fn is_on_duplication_cooldown(&self) -> (on: bool)
        ensures
            on == (self.duplication_cooldown > 0),
    {
        self.duplication_cooldown > 0
    }

    pub fn reset_duplication_cooldown(&mut self)
        ensures
            *final(self) == (AllayEntity {
                duplication_cooldown: DUPLICATION_COOLDOWN_TICKS,
                ..*old(self)
            }),
    {
        self.duplication_cooldown = DUPLICATION_COOLDOWN_TICKS;
    }

    pub fn has_item_in_hand(&self) -> (has: bool)
        ensures
            has == !self.item_in_hand.holds_nothing(),
    {
        !self.item_in_hand.is_empty()
    }

    pub fn is_on_pickup_cooldown(&self) -> (on: bool)
        ensures
            on == self.brain.item_pickup_cooldown is Some,
    {
        self.brain.item_pickup_cooldown.is_some()
    }

    /// Whether the slot has room for a stack of which `max_size` fit into a slot.
    pub fn inventory_can_add(&self, stack: &ItemStack, same_components: bool, max_size: u8) -> (can:
        bool)
        ensures
            can == has_room_for(*self, stack.item, same_components, max_size),
    {
        self.inventory.is_empty() || (self.inventory.item == stack.item && same_components
            && self.inventory.count < max_size)
    }

    /// Whether an allay takes two stacks for the same: it looks at the item alone.
    pub fn considers_item_equal(a: &ItemStack, b: &ItemStack) -> (equal: bool)
        ensures
            equal == (a.item == b.item),
    {
        a.item == b.item
    }

    pub fn can_pick_up_loot(&self) -> (can: bool)
        ensures
            can == takes_things_up(*self),
    {
        !self.is_on_pickup_cooldown() && self.has_item_in_hand()
    }

    /// Whether the allay picks a stack up: one like what it holds, for which there is room.
    pub fn wants_to_pick_up_item(
        &self,
        stack: &ItemStack,
        mob_griefing: bool,
        same_components: bool,
        max_size: u8,
    ) -> (wants: bool)
        ensures
            wants == wants_item(*self, stack.item, mob_griefing, same_components, max_size),
    {
        !self.item_in_hand.is_empty() && mob_griefing && self.inventory_can_add(
            stack,
            same_components,
            max_size,
        ) && Self::considers_item_equal(&self.item_in_hand, stack)
    }

    /// Puts as many items of a stack into the slot as fit, and says how many.
    pub fn on_item_pickup(&mut self, stack: &ItemStack, same_components: bool, max_size: u8) -> (
        taken: u8)
        ensures
            taken == items_taken(old(self).inventory, *stack, same_components, max_size),
            *final(self) == (AllayEntity {
                inventory: carried_with(old(self).inventory, stack.item, taken as int),
                ..*old(self)
            }),
            old(self).inventory.count <= max_size ==> final(self).inventory.count <= max_size,
    {
        if self.inventory.is_empty() {
            let taken: u8 = if stack.count < max_size { stack.count } else { max_size };
            self.inventory = ItemStack::new(taken, stack.item);
            return taken;
        }
        if !(self.inventory.item == stack.item && same_components) {
            return 0;
        }
        let room: u8 = max_size.saturating_sub(self.inventory.count);
        let taken: u8 = if stack.count < room { stack.count } else { room };
        self.inventory.count = self.inventory.count + taken;
        taken
    }

    pub fn carried_inventory_is_empty(&self) -> (empty: bool)
        ensures
            empty == self.inventory.holds_nothing(),
    {
        self.inventory.is_empty()
    }

    /// Takes one item out of the slot.
    pub fn remove_one_carried_item(&mut self) -> (one: ItemStack)
        ensures
            one.item == old(self).inventory.item,
            one.count == (if old(self).inventory.count < 1 { 0 } else { 1int }),
            *final(self) == (AllayEntity {
                inventory: after_use(old(self).inventory, GameMode::Survival, 1),
                ..*old(self)
            }),
    {
        self.inventory.split_unless_creative(GameMode::Survival, 1)
    }

    /// Whether the allay brings items to the note block it likes.
    pub fn should_deposit_items_at_liked_noteblock(
        &self,
        at: BlockPos,
        noteblock: BlockPos,
        is_noteblock: bool,
    ) -> (should: bool)
        ensures
            should == (chessboard_distance(noteblock, at) <= MAX_NOTEBLOCK_DISTANCE && is_noteblock
                && self.brain.liked_noteblock_cooldown is Some),
    {
        let dx: i64 = noteblock.x as i64 - at.x as i64;
        let dy: i64 = noteblock.y as i64 - at.y as i64;
        let dz: i64 = noteblock.z as i64 - at.z as i64;
        let max: i64 = MAX_NOTEBLOCK_DISTANCE as i64;
        if dx > max || dx < -max || dy > max || dy < -max || dz > max || dz < -max {
            return false;
        }
        if !is_noteblock {
            return false;
        }
        self.brain.liked_noteblock_cooldown.is_some()
    }

    /// Where the allay brings items if it likes a player who is around and plays.
    pub fn get_liked_player_target(&self, player: Option<&LikedPlayer>) -> (target: Option<
        DepositTarget,
    >)
        ensures
            target == player_target(self.brain, player),
    {
        match (self.brain.liked_player, player) {
            (Some(id), Some(seen)) => {
                let plays = match seen.gamemode {
                    GameMode::Survival | GameMode::Creative => true,
                    _ => false,
                };
                if !plays || is_less(LIKED_PLAYER_MAX_SQUARED, seen.distance_squared) {
                    None
                } else {
                    Some(DepositTarget::Player(id))
                }
            },
            _ => None,
        }
    }

    /// Where the allay brings items: to the note block it likes, which it forgets if that is no
    /// good any more, or else to the player it likes.
    pub fn get_item_deposit_position(
        &mut self,
        at: BlockPos,
        is_noteblock: bool,
        player: Option<&LikedPlayer>,
    ) -> (target: Option<DepositTarget>)
        requires
            old(self).brain.liked_noteblock_position matches Some(pos) ==> pos.y < i32::MAX,
        ensures
            ({
                let liked = old(self).brain.liked_noteblock_position;
                let good = serves_noteblock(old(self).brain, at, is_noteblock);
                &&& target == (if good {
                    Some(DepositTarget::Block(liked->0.at(0, 1, 0)))
                } else {
                    player_target(old(self).brain, player)
                })
                &&& *final(self) == chose_target(*old(self), at, is_noteblock)
            }),
    {
        if let Some(pos) = self.brain.liked_noteblock_position {
            if self.should_deposit_items_at_liked_noteblock(at, pos, is_noteblock) {
                return Some(DepositTarget::Block(BlockPos::new(pos.x, pos.y + 1, pos.z)));
            }
            self.brain.liked_noteblock_position = None;
        }
        self.get_liked_player_target(player)
    }

    /// One tick.
    pub fn mob_tick(&mut self, alive: bool, jukebox_distance: u64, effects: &mut Vec<Effect>)
        ensures
            *final(self) == allay_ticked(*old(self), jukebox_distance),
            final(effects)@ == old(effects)@ + allay_tick_effects(*old(self), alive),
    {
        if !self.listener_registered {
            self.listener_registered = true;
            effects.push(Effect::RegisterListeners);
        }
        self.brain.idle_active = true;
        let age: i32 = self.mob_entity.age;
        if is_multiple(age, 10) && alive {
            effects.push(Effect::Heal(1));
        }
        if self.is_dancing() && is_multiple(age, 20) {
            if self.should_stop_dancing(jukebox_distance) {
                self.is_dancing = false;
                self.jukebox_pos = None;
            }
        }
        if self.duplication_cooldown > 0 {
            self.duplication_cooldown = self.duplication_cooldown - 1;
        }
    }

    /// Lets a player use an item on the allay. `duplicates` says whether the item makes dancing
    /// allays multiply; the allay that comes of it is handed out, to be spawned.
    pub fn mob_interact(
        &mut self,
        player: &Player,
        stack: &mut ItemStack,
        duplicates: bool,
        effects: &mut Vec<Effect>,
    ) -> (reply: (Interaction, Option<AllayEntity>))
        ensures
            *final(self) == allay_exchanged(*old(self), *old(stack), duplicates, player.id),
            final(effects)@ == old(effects)@ + exchange_effects(
                *old(self),
                *old(stack),
                duplicates,
            ),
            ({
                let exchange = allay_exchange(*old(self), *old(stack), duplicates);
                &&& reply.0 == (if exchange is Nothing {
                    Interaction::Refused
                } else {
                    Interaction::Handled
                })
                &&& *final(stack) == (if exchange is Duplicate || exchange is Give {
                    after_use(*old(stack), GameMode::Survival, 1)
                } else {
                    *old(stack)
                })
                &&& reply.1 is Some <==> exchange is Duplicate
                &&& reply.1 is Some ==> reply.1->0.is_new(0, DUPLICATION_COOLDOWN_TICKS)
            }),
    {
        let held = self.item_in_hand;
        if self.is_dancing() && duplicates && !self.is_on_duplication_cooldown() {
            let clone = self.duplicate(effects);
            effects.push(Effect::Play(Sound::AmethystBlockChime));
            stack.decrement(1);
            return (Interaction::Handled, Some(clone));
        }
        if held.is_empty() && !stack.is_empty() {
            self.item_in_hand = ItemStack::new(1, stack.item);
            effects.push(Effect::Hold(self.item_in_hand));
            stack.decrement(1);
            effects.push(Effect::Play(Sound::AllayItemGiven));
            self.brain.liked_player = Some(player.id);
            return (Interaction::Handled, None);
        }
        if !held.is_empty() && stack.is_empty() {
            self.item_in_hand = ItemStack::empty();
            effects.push(Effect::Hold(self.item_in_hand));
            effects.push(Effect::Play(Sound::AllayItemTaken));
            self.brain.liked_player = None;
            let collected = self.inventory;
            self.inventory = ItemStack::empty();
            if !collected.is_empty() {
                effects.push(Effect::GiveToPlayer(collected));
            }
            effects.push(Effect::GiveToPlayer(held));
            return (Interaction::Handled, None);
        }
        (Interaction::Refused, None)
    }
}

impl Brain {
    /// Whether nothing is remembered and both activities go on.
    pub open spec fn is_new(self) -> bool {
        &&& self.core@ == core_behaviors()
        &&& self.idle@ == idle_behaviors()
        &&& self.core_active
        &&& self.idle_active
        &&& self.liked_player is None
        &&& self.liked_noteblock_position is None
        &&& self.liked_noteblock_cooldown is None
        &&& self.item_pickup_cooldown is None
        &&& !self.sees_wanted_item
    }
}

/// What an allay remembers once it heard a note block.
pub open spec fn noteblock_heard(brain: Brain, pos: BlockPos) -> Brain {
    if brain.liked_noteblock_position is None || brain.liked_noteblock_position == Some(pos) {
        Brain {
            liked_noteblock_position: Some(pos),
            liked_noteblock_cooldown: Some(TIME_TO_FORGET_NOTEBLOCK_TICKS),
            ..brain
        }
    } else {
        brain
    }
}

/// Where an allay brings items if it likes a player.
pub open spec fn player_target(brain: Brain, player: Option<&LikedPlayer>) -> Option<
    DepositTarget,
> {
    match (brain.liked_player, player) {
        (Some(id), Some(seen)) if !less(LIKED_PLAYER_MAX_SQUARED, seen.distance_squared) && (
        seen.gamemode == GameMode::Survival || seen.gamemode == GameMode::Creative) => Some(
            DepositTarget::Player(id),
        ),
        _ => None,
    }
}

/// Whether an allay follows those to whom it brings items: it does unless there is an item to
/// fetch.
pub fn does_not_have_wanted_item(brain: &Brain) -> (free: bool)
    ensures
        free == !brain.sees_wanted_item,
{
    !brain.sees_wanted_item
}

/// An allay that has just multiplied does not multiply again at once, however well it dances.
pub proof fn law_duplication_waits(
    allay: AllayEntity,
    stack: ItemStack,
    other: ItemStack,
    player: u128,
)
    requires
        allay_exchange(allay, stack, true) is Duplicate,
    ensures
        !(allay_exchange(allay_exchanged(allay, stack, true, player), other, true) is Duplicate),
{
}

/// An allay does not multiply before its cooldown is over, however well it dances.
pub proof fn law_cooldown_keeps_from_multiplying(
    allay: AllayEntity,
    stack: ItemStack,
    duplicates: bool,
)
    requires
        allay.duplication_cooldown > 0,
    ensures
        !(allay_exchange(allay, stack, duplicates) is Duplicate),
{
}

/// Giving an item to an allay and taking it back leaves the allay with nothing, and the player
/// with the item.
pub proof fn law_given_item_comes_back(allay: AllayEntity, stack: ItemStack, player: u128)
    requires
        allay_exchange(allay, stack, false) is Give,
    ensures
        ({
            let given = allay_exchanged(allay, stack, false, player);
            let back = allay_exchanged(given, empty_stack(), false, player);
            &&& allay_exchange(given, empty_stack(), false) is Take
            &&& back.item_in_hand == empty_stack()
            &&& back.inventory == empty_stack()
            &&& back.brain.liked_player is None
            &&& exchange_effects(given, empty_stack(), false).last() == Effect::GiveToPlayer(
                one_of(stack),
            )
        }),
{
}

/// How an allay answers a player with an item: a dancing one multiplies for an item that makes it,
/// once it has waited; otherwise an empty hand takes an item, and a full one gives it back to an
/// empty hand. In no other case does anything happen.
pub proof fn law_how_allays_answer(allay: AllayEntity, stack: ItemStack, duplicates: bool)
    ensures
        ({
            let answer = allay_exchange(allay, stack, duplicates);
            let multiplies = allay.is_dancing && duplicates && allay.duplication_cooldown <= 0;
            let holds = !allay.item_in_hand.holds_nothing();
            let offers = !stack.holds_nothing();
            &&& answer is Duplicate <==> multiplies
            &&& answer is Give <==> !multiplies && !holds && offers
            &&& answer is Take <==> !multiplies && holds && !offers
            &&& answer is Nothing <==> !multiplies && holds == offers
        }),
{
}

/// An allay that is given an item holds one of it, likes the player for it, and says so. One that
/// gives up what it holds gives all it has collected too, holds nothing then and likes nobody.
pub proof fn law_what_allays_exchange(
    allay: AllayEntity,
    stack: ItemStack,
    duplicates: bool,
    player: u128,
)
    ensures
        ({
            let answer = allay_exchange(allay, stack, duplicates);
            let after = allay_exchanged(allay, stack, duplicates, player);
            let effects = exchange_effects(allay, stack, duplicates);
            let one = ItemStack { item: stack.item, count: 1 };
            &&& answer is Give ==> after.item_in_hand == one && after.brain.liked_player == Some(
                player,
            ) && after.inventory == allay.inventory && effects.contains(Effect::Hold(one))
            &&& answer is Take ==> after.item_in_hand.holds_nothing()
                && after.inventory.holds_nothing() && after.brain.liked_player is None
                && effects.contains(Effect::GiveToPlayer(allay.item_in_hand))
            &&& answer is Take && !allay.inventory.holds_nothing() ==> effects.contains(
                Effect::GiveToPlayer(allay.inventory),
            )
            &&& answer is Duplicate ==> after.duplication_cooldown == 6000 && after.item_in_hand
                == allay.item_in_hand && effects.contains(Effect::Duplicate)
            &&& answer is Nothing ==> after == allay && effects.len() == 0
            &&& after.is_dancing == allay.is_dancing && after.mob_entity == allay.mob_entity
        }),
{
    broadcast use group_effects;

    let effects = exchange_effects(allay, stack, duplicates);
    let answer = allay_exchange(allay, stack, duplicates);
    if answer is Give {
        assert(effects[0] == Effect::Hold(one_of(stack)));
    }
    if answer is Duplicate {
        assert(effects[0] == Effect::Duplicate);
    }
}

/// An allay takes into its only slot what fits: as much as there is room for, nothing that differs
/// from what is there, and never more than it is offered.
pub proof fn law_what_fits_into_the_slot(
    slot: ItemStack,
    stack: ItemStack,
    same_components: bool,
    max_size: u8,
)
    ensures
        ({
            let taken = items_taken(slot, stack, same_components, max_size);
            let fits = slot.holds_nothing() || slot.item == stack.item && same_components;
            let room = if slot.holds_nothing() { max_size as int } else { max_size - slot.count };
            &&& 0 <= taken <= stack.count
            &&& !fits ==> taken == 0
            &&& fits && room >= stack.count ==> taken == stack.count
            &&& fits && 0 <= room < stack.count ==> taken == room
        }),
{
}

/// An allay stops dancing, once a second, when its jukebox is gone or more than ten blocks away;
/// otherwise it goes on. Each tick shortens its waiting, and it keeps what it has.
pub proof fn law_how_long_allays_dance(allay: AllayEntity, jukebox_distance: u64)
    ensures
        ({
            let after = allay_ticked(allay, jukebox_distance);
            let alone = allay.jukebox_pos is None || less(0x4059_0000_0000_0000, jukebox_distance);
            let due = allay.mob_entity.age % 20 == 0;
            &&& after.is_dancing <==> allay.is_dancing && !(due && alone)
            &&& allay.is_dancing && due && alone ==> after.jukebox_pos is None
            &&& !(allay.is_dancing && due && alone) ==> after.jukebox_pos == allay.jukebox_pos
            &&& allay.duplication_cooldown > 0 ==> after.duplication_cooldown
                == allay.duplication_cooldown - 1
            &&& allay.duplication_cooldown <= 0 ==> after.duplication_cooldown
                == allay.duplication_cooldown
            &&& after.item_in_hand == allay.item_in_hand && after.inventory == allay.inventory
            &&& after.brain.liked_player == allay.brain.liked_player
            &&& music_gone(allay, jukebox_distance) <==> alone
        }),
{
}

/// A living allay heals by one every half second, and listens from its first tick on.
pub proof fn law_allays_heal(allay: AllayEntity, alive: bool)
    ensures
        ({
            let effects = allay_tick_effects(allay, alive);
            &&& effects.contains(Effect::Heal(1)) <==> alive && allay.mob_entity.age % 10 == 0
            &&& effects.contains(Effect::RegisterListeners) <==> !allay.listener_registered
        }),
{
    broadcast use group_effects;

}

/// An allay takes a fancy to the first note block that it hears, and for thirty seconds after each
/// time it hears that one; other note blocks are nothing to it meanwhile.
pub proof fn law_first_noteblock_counts(brain: Brain, pos: BlockPos)
    ensures
        brain.liked_noteblock_position is None || brain.liked_noteblock_position == Some(pos)
            ==> noteblock_heard(brain, pos).liked_noteblock_position == Some(pos)
            && noteblock_heard(brain, pos).liked_noteblock_cooldown == Some(600i32),
        brain.liked_noteblock_position is Some && brain.liked_noteblock_position != Some(pos)
            ==> noteblock_heard(brain, pos) == brain,
        noteblock_heard(brain, pos).liked_player == brain.liked_player,
{
}

/// An allay brings its things to the player it likes, if that player plays and is within
/// sixty-four blocks.
pub proof fn law_whom_allays_serve(brain: Brain, player: LikedPlayer)
    ensures
        player_target(brain, None) is None,
        brain.liked_player is None ==> player_target(brain, Some(&player)) is None,
        brain.liked_player is Some ==> ({
            let plays = player.gamemode == GameMode::Survival || player.gamemode
                == GameMode::Creative;
            let near = !less(0x40B0_0000_0000_0000, player.distance_squared);
            &&& plays && near ==> player_target(brain, Some(&player)) == Some(
                DepositTarget::Player(brain.liked_player->0),
            )
            &&& !plays || !near ==> player_target(brain, Some(&player)) is None
        }),
{
}

/// The distance on the chessboard is that along the axis along which it is largest.
pub proof fn law_distance_on_the_chessboard(a: BlockPos, b: BlockPos)
    ensures
        ({
            let far = chessboard_distance(a, b);
            &&& -far <= a.x - b.x <= far && -far <= a.y - b.y <= far && -far <= a.z - b.z <= far
            &&& far == a.x - b.x || far == b.x - a.x || far == a.y - b.y || far == b.y - a.y || far
                == a.z - b.z || far == b.z - a.z
        }),
{
}

/// A throw is heard in every seventh tick unless it happens to be silent, at one of the pitches,
/// the lowest of which comes first.
pub proof fn law_throws_are_heard(game_time: int, silent: bool, draw: int, other: int)
    requires
        0 <= draw <= other < 16,
    ensures
        throw_pitches().len() == 16,
        5625 <= throw_pitches()[draw] <= throw_pitches()[other] <= 40000,
        throw_effects(game_time, silent, draw).len() == 0 <==> silent || game_time % 7 != 0,
        !silent && game_time % 7 == 0 ==> throw_effects(game_time, silent, draw)[0]
            == (Effect::PlayAt {
            sound: Sound::AllayItemThrown,
            volume: 10000,
            pitch: throw_pitches()[draw],
        }),
{
}

/// What allays always do, whatever else they are at: this and nothing else.
pub proof fn law_what_allays_always_do(b: Behavior)
    ensures
        core_behaviors().contains(b) <==> {
            ||| b == (Behavior::Swim { chance: 800 })
            ||| b == (Behavior::Panic { speed: 2500 })
            ||| b == (Behavior::LookAtTarget { min_ticks: 45, max_ticks: 90 })
            ||| b == Behavior::MoveToTarget
            ||| b == Behavior::CountDownNoteblockCooldown
            ||| b == Behavior::CountDownPickupCooldown
        },
        core_behaviors().len() == 6,
{
    let all = core_behaviors();
    assert(all[0] == (Behavior::Swim { chance: 800 }));
    assert(all[1] == (Behavior::Panic { speed: 2500 }));
    assert(all[2] == (Behavior::LookAtTarget { min_ticks: 45, max_ticks: 90 }));
    assert(all[3] == Behavior::MoveToTarget);
    assert(all[4] == Behavior::CountDownNoteblockCooldown);
    assert(all[5] == Behavior::CountDownPickupCooldown);
}

/// What allays do when nothing presses them: this and nothing else.
pub proof fn law_what_idle_allays_do(b: Behavior)
    ensures
        idle_behaviors().contains(b) <==> {
            ||| b == (Behavior::GoToWantedItem { speed: 1750, ignore_walk_target: true, max_distance: 32000 })
            ||| b == (Behavior::GoAndGiveItems { speed: 2250, timeout: 20 })
            ||| b == (Behavior::StayCloseToTarget { close_enough: 4, too_far: 16, speed: 2250 })
            ||| b == (Behavior::RunOne { stroll_speed: 1000, stroll_weight: 2, look_speed: 1000, look_distance: 3, look_weight: 2, min_wait: 30, max_wait: 60, wait_weight: 1 })
        },
        idle_behaviors().len() == 4,
{
    let all = idle_behaviors();
    assert(all[0] == (Behavior::GoToWantedItem { speed: 1750, ignore_walk_target: true, max_distance: 32000 }));
    assert(all[1] == (Behavior::GoAndGiveItems { speed: 2250, timeout: 20 }));
    assert(all[2] == (Behavior::StayCloseToTarget { close_enough: 4, too_far: 16, speed: 2250 }));
    assert(all[3] == (Behavior::RunOne { stroll_speed: 1000, stroll_weight: 2, look_speed: 1000, look_distance: 3, look_weight: 2, min_wait: 30, max_wait: 60, wait_weight: 1 }));
}

/// A jukebox that starts makes an allay dance to it unless it dances already; only the one it
/// dances to, or any if it knows of none, makes it stop.
pub proof fn law_which_jukebox_counts(allay: AllayEntity, jukebox: BlockPos, is_playing: bool)
    ensures
        ({
            let after = heard_jukebox(allay, jukebox, is_playing);
            &&& is_playing ==> after.is_dancing
            &&& is_playing && !allay.is_dancing ==> after.jukebox_pos == Some(jukebox)
            &&& is_playing && allay.is_dancing ==> after == allay
            &&& !is_playing && allay.jukebox_pos is Some && allay.jukebox_pos->0 != jukebox ==> after
                == allay
            &&& !is_playing && (allay.jukebox_pos is None || allay.jukebox_pos->0 == jukebox)
                ==> !after.is_dancing && after.jukebox_pos is None
            &&& after.inventory == allay.inventory
            &&& after.item_in_hand == allay.item_in_hand
            &&& after.brain == allay.brain
        }),
{
}

/// An allay that has started to dance to a jukebox stops when that one stops.
pub proof fn law_dance_ends_with_its_jukebox(allay: AllayEntity, jukebox: BlockPos)
    requires
        !allay.is_dancing,
    ensures
        !heard_jukebox(heard_jukebox(allay, jukebox, true), jukebox, false).is_dancing,
        heard_jukebox(heard_jukebox(allay, jukebox, true), jukebox, false).jukebox_pos is None,
{
}

/// A note block that an allay likes counts while it is still there, was heard lately and is within
/// a thousand and twenty-four blocks.
pub proof fn law_which_noteblock_counts(brain: Brain, at: BlockPos, is_noteblock: bool)
    ensures
        brain.liked_noteblock_position is None ==> !serves_noteblock(brain, at, is_noteblock),
        !is_noteblock ==> !serves_noteblock(brain, at, is_noteblock),
        brain.liked_noteblock_cooldown is None ==> !serves_noteblock(brain, at, is_noteblock),
        brain.liked_noteblock_position is Some && is_noteblock && brain.liked_noteblock_cooldown is Some
            ==> (serves_noteblock(brain, at, is_noteblock) <==> chessboard_distance(
            brain.liked_noteblock_position->0,
            at,
        ) <= 1024),
{
}

/// An allay wants more of what it holds, if it may take things and has room.
pub proof fn law_what_allays_want(
    allay: AllayEntity,
    item: Item,
    mob_griefing: bool,
    same_components: bool,
    max_size: u8,
)
    ensures
        wants_item(allay, item, mob_griefing, same_components, max_size) ==> mob_griefing
            && allay.item_in_hand.item == item && !allay.item_in_hand.holds_nothing(),
        mob_griefing && allay.item_in_hand.item == item && !allay.item_in_hand.holds_nothing() ==> (
        wants_item(allay, item, mob_griefing, same_components, max_size) <==> has_room_for(
            allay,
            item,
            same_components,
            max_size,
        )),
        allay.inventory.holds_nothing() ==> has_room_for(allay, item, same_components, max_size),
        !allay.inventory.holds_nothing() ==> (has_room_for(allay, item, same_components, max_size)
            <==> allay.inventory.item == item && same_components && allay.inventory.count < max_size),
{
}

/// An allay takes things up when it holds something and its pause is over.
pub proof fn law_when_allays_take_things_up(allay: AllayEntity)
    ensures
        takes_things_up(allay) ==> !allay.item_in_hand.holds_nothing(),
        !allay.item_in_hand.holds_nothing() ==> (takes_things_up(allay)
            <==> allay.brain.item_pickup_cooldown is None),
{
}

/// What an allay takes is added to what it carries.
pub proof fn law_taken_items_add_up(
    inventory: ItemStack,
    stack: ItemStack,
    same_components: bool,
    max_size: u8,
)
    ensures
        ({
            let taken = items_taken(inventory, stack, same_components, max_size);
            let after = carried_with(inventory, stack.item, taken);
            &&& inventory.holds_nothing() ==> after.item == stack.item && after.count == taken
            &&& !inventory.holds_nothing() ==> after.item == inventory.item && after.count
                == inventory.count + taken
        }),
{
}

/// An allay that has looked for a place for its things remembers a note block only if it serves it.
pub proof fn law_noteblocks_are_forgotten(allay: AllayEntity, at: BlockPos, is_noteblock: bool)
    ensures
        ({
            let after = chose_target(allay, at, is_noteblock);
            &&& !is_noteblock ==> after.brain.liked_noteblock_position is None
            &&& after.brain.liked_noteblock_position is Some <==> serves_noteblock(
                allay.brain,
                at,
                is_noteblock,
            )
            &&& after.brain.liked_noteblock_position is Some ==> after == allay
            &&& after.brain.liked_player == allay.brain.liked_player
            &&& after.inventory == allay.inventory
        }),
{
}

} // verus!
