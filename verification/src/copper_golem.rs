//! Copper golems: how they weather, and how they are waxed and scraped.

use vstd::prelude::*;

use crate::effect::{Effect, Interaction, Sound, StatuePose, SyncedValue};
use crate::goal::{entry, goal, look_at_player, watch_player, EntityKind, Goal, GoalEntry};
use crate::item::{after_use, GameMode, Item, ItemStack, Player};
use crate::mob::MobEntity;
use crate::nbt::{long_at, text_at, NbtCompound, NbtValue};
use crate::position::BlockPos;
use crate::random::{chance, roll};
use crate::text::same_text;

verus! {

/// How far copper has weathered.
#[derive(Clone, Copy, PartialEq, Eq, Structural, Debug)]
pub enum CopperWeatherState {
    Unaffected,
    Exposed,
    Weathered,
    Oxidized,
}

/// The number of a stage; a higher one is more weathered.
pub open spec fn weather_id(state: CopperWeatherState) -> i32 {
    match state {
        CopperWeatherState::Unaffected => 0,
        CopperWeatherState::Exposed => 1,
        CopperWeatherState::Weathered => 2,
        CopperWeatherState::Oxidized => 3,
    }
}

/// The stage of a number.
pub open spec fn weather_of_id(id: int) -> CopperWeatherState {
    if id == 1 {
        CopperWeatherState::Exposed
    } else if id == 2 {
        CopperWeatherState::Weathered
    } else if id == 3 {
        CopperWeatherState::Oxidized
    } else {
        CopperWeatherState::Unaffected
    }
}

/// The name of a stage.
pub open spec fn weather_name(state: CopperWeatherState) -> Seq<char> {
    match state {
        CopperWeatherState::Unaffected => "unaffected"@,
        CopperWeatherState::Exposed => "exposed"@,
        CopperWeatherState::Weathered => "weathered"@,
        CopperWeatherState::Oxidized => "oxidized"@,
    }
}

/// The stage of a name.
pub open spec fn weather_of_name(name: Seq<char>) -> CopperWeatherState {
    if name == "exposed"@ {
        CopperWeatherState::Exposed
    } else if name == "weathered"@ {
        CopperWeatherState::Weathered
    } else if name == "oxidized"@ {
        CopperWeatherState::Oxidized
    } else {
        CopperWeatherState::Unaffected
    }
}

/// The stage after a stage; the last one stays.
pub open spec fn next_stage(state: CopperWeatherState) -> CopperWeatherState {
    if state == CopperWeatherState::Oxidized {
        state
    } else {
        weather_of_id(weather_id(state) + 1)
    }
}

/// The stage before a stage; the first one stays.
pub open spec fn previous_stage(state: CopperWeatherState) -> CopperWeatherState {
    weather_of_id(weather_id(state) - 1)
}

/// The sound of a golem that is hurt.
pub open spec fn hurt_sound(state: CopperWeatherState) -> Sound {
    match state {
        CopperWeatherState::Weathered => Sound::CopperGolemWeatheredHurt,
        CopperWeatherState::Oxidized => Sound::CopperGolemOxidizedHurt,
        _ => Sound::CopperGolemHurt,
    }
}

/// The sound of the steps of a golem.
pub open spec fn step_sound(state: CopperWeatherState) -> Sound {
    match state {
        CopperWeatherState::Weathered => Sound::CopperGolemWeatheredStep,
        CopperWeatherState::Oxidized => Sound::CopperGolemOxidizedStep,
        _ => Sound::CopperGolemStep,
    }
}

impl CopperWeatherState {
    pub fn next(self) -> (state: Self)
        ensures
            state == next_stage(self),
    {
        match self {
            CopperWeatherState::Unaffected => CopperWeatherState::Exposed,
            CopperWeatherState::Exposed => CopperWeatherState::Weathered,
            CopperWeatherState::Weathered | CopperWeatherState::Oxidized => {
                CopperWeatherState::Oxidized
            },
        }
    }

    pub fn previous(self) -> (state: Self)
        ensures
            state == previous_stage(self),
    {
        match self {
            CopperWeatherState::Unaffected | CopperWeatherState::Exposed => {
                CopperWeatherState::Unaffected
            },
            CopperWeatherState::Weathered => CopperWeatherState::Exposed,
            CopperWeatherState::Oxidized => CopperWeatherState::Weathered,
        }
    }

    pub fn as_str(self) -> (name: &'static str)
        ensures
            name@ == weather_name(self),
    {
        match self {
            CopperWeatherState::Unaffected => "unaffected",
            CopperWeatherState::Exposed => "exposed",
            CopperWeatherState::Weathered => "weathered",
            CopperWeatherState::Oxidized => "oxidized",
        }
    }

    pub fn id(self) -> (id: i32)
        ensures
            id == weather_id(self),
    {
        match self {
            CopperWeatherState::Unaffected => 0,
            CopperWeatherState::Exposed => 1,
            CopperWeatherState::Weathered => 2,
            CopperWeatherState::Oxidized => 3,
        }
    }

    pub fn from_id(id: i32) -> (state: Self)
        ensures
            state == weather_of_id(id as int),
    {
        match id {
            1 => CopperWeatherState::Exposed,
            2 => CopperWeatherState::Weathered,
            3 => CopperWeatherState::Oxidized,
            _ => CopperWeatherState::Unaffected,
        }
    }

    pub fn from_name(name: &str) -> (state: Self)
        ensures
            state == weather_of_name(name@),
    {
        if same_text(name, "exposed") {
            CopperWeatherState::Exposed
        } else if same_text(name, "weathered") {
            CopperWeatherState::Weathered
        } else if same_text(name, "oxidized") {
            CopperWeatherState::Oxidized
        } else {
            CopperWeatherState::Unaffected
        }
    }

    pub fn oxidation_level_hurt_sound(self) -> (sound: Sound)
        ensures
            sound == hurt_sound(self),
    {
        match self {
            CopperWeatherState::Weathered => Sound::CopperGolemWeatheredHurt,
            CopperWeatherState::Oxidized => Sound::CopperGolemOxidizedHurt,
            CopperWeatherState::Unaffected | CopperWeatherState::Exposed => Sound::CopperGolemHurt,
        }
    }

    pub fn oxidation_level_step_sound(self) -> (sound: Sound)
        ensures
            sound == step_sound(self),
    {
        match self {
            CopperWeatherState::Weathered => Sound::CopperGolemWeatheredStep,
            CopperWeatherState::Oxidized => Sound::CopperGolemOxidizedStep,
            CopperWeatherState::Unaffected | CopperWeatherState::Exposed => Sound::CopperGolemStep,
        }
    }
}

/// The number and the name of a stage lead back to it.
pub proof fn law_weather_round_trip(state: CopperWeatherState)
    ensures
        weather_of_id(weather_id(state) as int) == state,
        weather_of_name(weather_name(state)) == state,
{
    reveal_strlit("unaffected");
    reveal_strlit("exposed");
    reveal_strlit("weathered");
    reveal_strlit("oxidized");
    assert("unaffected"@.len() == 10 && "exposed"@.len() == 7 && "weathered"@.len() == 9
        && "oxidized"@.len() == 8);
}

/// Weathering and scraping undo each other, but for the last stage and the first.
pub proof fn law_scraping_undoes_weathering(state: CopperWeatherState)
    ensures
        state != CopperWeatherState::Oxidized ==> previous_stage(next_stage(state)) == state,
        state != CopperWeatherState::Unaffected ==> next_stage(previous_stage(state)) == state,
        next_stage(CopperWeatherState::Oxidized) == CopperWeatherState::Oxidized,
        previous_stage(CopperWeatherState::Unaffected) == CopperWeatherState::Unaffected,
        weather_id(state) <= weather_id(next_stage(state)) <= weather_id(state) + 1,
        weather_id(state) - 1 <= weather_id(previous_stage(state)) <= weather_id(state),
{
}

/// What a golem is doing.
#[derive(Clone, Copy, PartialEq, Eq, Structural, Debug)]
pub enum CopperGolemState {
    Idle,
    GettingItem,
    GettingNoItem,
    DroppingItem,
    DroppingNoItem,
}

/// The number of an occupation.
pub open spec fn golem_state_id(state: CopperGolemState) -> i32 {
    match state {
        CopperGolemState::Idle => 0,
        CopperGolemState::GettingItem => 1,
        CopperGolemState::GettingNoItem => 2,
        CopperGolemState::DroppingItem => 3,
        CopperGolemState::DroppingNoItem => 4,
    }
}

/// The occupation of a number.
pub open spec fn golem_state_of_id(id: int) -> CopperGolemState {
    if id == 1 {
        CopperGolemState::GettingItem
    } else if id == 2 {
        CopperGolemState::GettingNoItem
    } else if id == 3 {
        CopperGolemState::DroppingItem
    } else if id == 4 {
        CopperGolemState::DroppingNoItem
    } else {
        CopperGolemState::Idle
    }
}

impl Default for CopperGolemState {
    fn default() -> (state: Self)
        ensures
            state == CopperGolemState::Idle,
    {
        CopperGolemState::Idle
    }
}

impl CopperGolemState {
    pub fn from_id(id: i32) -> (state: Self)
        ensures
            state == golem_state_of_id(id as int),
    {
        match id {
            1 => CopperGolemState::GettingItem,
            2 => CopperGolemState::GettingNoItem,
            3 => CopperGolemState::DroppingItem,
            4 => CopperGolemState::DroppingNoItem,
            _ => CopperGolemState::Idle,
        }
    }

    pub fn id(self) -> (id: i32)
        ensures
            id == golem_state_id(self),
    {
        match self {
            CopperGolemState::Idle => 0,
            CopperGolemState::GettingItem => 1,
            CopperGolemState::GettingNoItem => 2,
            CopperGolemState::DroppingItem => 3,
            CopperGolemState::DroppingNoItem => 4,
        }
    }
}

/// The number of an occupation leads back to it.
pub proof fn law_golem_state_round_trip(state: CopperGolemState)
    ensures
        golem_state_of_id(golem_state_id(state) as int) == state,
{
}

/// The golem does not know yet when it weathers next.
pub const UNSET_WEATHERING_TICK: i64 = -1;

/// The golem is waxed and does not weather.
pub const IGNORE_WEATHERING_TICK: i64 = -2;

pub const WEATHERING_TICK_FROM: i64 = 504_000;

pub const WEATHERING_TICK_TO: i64 = 552_000;

/// A direction on the map.
#[derive(Clone, Copy, PartialEq, Eq, Structural, Debug)]
pub enum Facing {
    North,
    East,
    South,
    West,
}

/// Which part of a chest a block is.
#[derive(Clone, Copy, PartialEq, Eq, Structural, Debug)]
pub enum ChestHalf {
    Single,
    Left,
    Right,
}

/// The steps along `x` and `z` towards a direction.
pub open spec fn facing_offset(facing: Facing) -> (int, int) {
    match facing {
        Facing::North => (0, -1),
        Facing::East => (1, 0),
        Facing::South => (0, 1),
        Facing::West => (-1, 0),
    }
}

/// The direction to the right of one.
pub open spec fn clockwise(facing: Facing) -> Facing {
    match facing {
        Facing::North => Facing::East,
        Facing::East => Facing::South,
        Facing::South => Facing::West,
        Facing::West => Facing::North,
    }
}

/// The direction to the left of one.
pub open spec fn counter_clockwise(facing: Facing) -> Facing {
    match facing {
        Facing::North => Facing::West,
        Facing::West => Facing::South,
        Facing::South => Facing::East,
        Facing::East => Facing::North,
    }
}

/// Turning right and then left leads back.
pub proof fn law_turns_cancel(facing: Facing)
    ensures
        counter_clockwise(clockwise(facing)) == facing,
        clockwise(counter_clockwise(facing)) == facing,
{
}

impl Facing {
    pub fn rotate_clockwise(self) -> (turned: Self)
        ensures
            turned == clockwise(self),
    {
        match self {
            Facing::North => Facing::East,
            Facing::East => Facing::South,
            Facing::South => Facing::West,
            Facing::West => Facing::North,
        }
    }

    pub fn rotate_counter_clockwise(self) -> (turned: Self)
        ensures
            turned == counter_clockwise(self),
    {
        match self {
            Facing::North => Facing::West,
            Facing::West => Facing::South,
            Facing::South => Facing::East,
            Facing::East => Facing::North,
        }
    }
}

/// Whether a position is the other half of a chest.
pub open spec fn is_other_half(
    opened: BlockPos,
    half: ChestHalf,
    facing: Facing,
    pos: BlockPos,
) -> bool {
    let towards = if half == ChestHalf::Left { clockwise(facing) } else {
        counter_clockwise(facing)
    };
    let (dx, dz) = facing_offset(towards);
    half != ChestHalf::Single && pos.x == opened.x + dx && pos.y == opened.y && pos.z == opened.z
        + dz
}

/// A copper golem.
pub struct CopperGolemEntity {
    pub mob_entity: MobEntity,
    pub weather_state: CopperWeatherState,
    pub state: i32,
    pub next_weathering_tick: i64,
    pub last_lightning_bolt: Option<u128>,
    pub opened_chest_pos: Option<BlockPos>,
}

/// What a golem pursues.
pub open spec fn golem_goals() -> Seq<GoalEntry> {
    seq![
        entry(1, Goal::InteractWithDoor { close: true }),
        entry(2, Goal::TransportItems { speed: 1000 }),
        entry(3, look_at_player(6000)),
        entry(4, Goal::Wander { speed: 1000 }),
    ]
}

/// The message that tells clients how far a golem has weathered.
pub open spec fn weather_sync(state: CopperWeatherState) -> Effect {
    Effect::Sync(SyncedValue::CopperGolemWeather(weather_id(state)))
}

/// The message that tells clients what a golem is doing.
pub open spec fn golem_state_sync(state: CopperGolemState) -> Effect {
    Effect::Sync(SyncedValue::CopperGolemState(golem_state_id(state)))
}

/// A golem after its weathering was looked after, where `delay` is how long the next stage
/// takes.
pub open spec fn weathered(golem: CopperGolemEntity, game_time: int, delay: int) -> CopperGolemEntity {
    let next = golem.next_weathering_tick;
    if next == IGNORE_WEATHERING_TICK {
        golem
    } else if next == UNSET_WEATHERING_TICK {
        CopperGolemEntity { next_weathering_tick: (game_time + delay) as i64, ..golem }
    } else if golem.weather_state != CopperWeatherState::Oxidized && game_time >= next {
        let stage = next_stage(golem.weather_state);
        CopperGolemEntity {
            weather_state: stage,
            next_weathering_tick: if stage == CopperWeatherState::Oxidized {
                0
            } else {
                (next + delay) as i64
            },
            ..golem
        }
    } else {
        golem
    }
}

/// Whether a golem becomes a statue: a fully weathered one with air around it that is not
/// waxed, if it so happens.
pub open spec fn becomes_statue(golem: CopperGolemEntity, in_air: bool, lucky: bool) -> bool {
    golem.next_weathering_tick != IGNORE_WEATHERING_TICK && golem.weather_state
        == CopperWeatherState::Oxidized && in_air && lucky
}

/// The pose of a statue for a draw.
pub open spec fn statue_pose(draw: int) -> StatuePose {
    if draw == 0 {
        StatuePose::Standing
    } else if draw == 1 {
        StatuePose::Sitting
    } else if draw == 2 {
        StatuePose::Running
    } else {
        StatuePose::Star
    }
}

/// What weathering asks of the host.
pub open spec fn weathering_effects(
    golem: CopperGolemEntity,
    game_time: int,
    delay: int,
    in_air: bool,
    lucky: bool,
    pose: int,
) -> Seq<Effect> {
    let after = weathered(golem, game_time, delay);
    let stage = if after.weather_state != golem.weather_state {
        seq![weather_sync(after.weather_state)]
    } else {
        seq![]
    };
    let statue = if becomes_statue(golem, in_air, lucky) {
        seq![Effect::BecomeStatue(statue_pose(pose)), Effect::Remove]
    } else {
        seq![]
    };
    stage + statue
}

/// What a player does to a golem with an item.
pub enum GolemTreatment {
    Wax,
    RemoveWax,
    Scrape,
    Nothing,
}

/// What a player does to a golem with an item.
pub open spec fn golem_treatment(
    golem: CopperGolemEntity,
    item: Item,
    is_axe: bool,
) -> GolemTreatment {
    let waxed = golem.next_weathering_tick == IGNORE_WEATHERING_TICK;
    if item == Item::Honeycomb && !waxed {
        GolemTreatment::Wax
    } else if is_axe && waxed {
        GolemTreatment::RemoveWax
    } else if is_axe && golem.weather_state != CopperWeatherState::Unaffected {
        GolemTreatment::Scrape
    } else {
        GolemTreatment::Nothing
    }
}

/// A golem after a treatment.
pub open spec fn golem_treated(
    golem: CopperGolemEntity,
    treatment: GolemTreatment,
) -> CopperGolemEntity {
    match treatment {
        GolemTreatment::Wax => CopperGolemEntity {
            next_weathering_tick: IGNORE_WEATHERING_TICK,
            ..golem
        },
        GolemTreatment::RemoveWax => CopperGolemEntity {
            next_weathering_tick: UNSET_WEATHERING_TICK,
            ..golem
        },
        GolemTreatment::Scrape => CopperGolemEntity {
            next_weathering_tick: UNSET_WEATHERING_TICK,
            weather_state: previous_stage(golem.weather_state),
            ..golem
        },
        GolemTreatment::Nothing => golem,
    }
}

/// What a treatment asks of the host.
pub open spec fn golem_treatment_effects(
    golem: CopperGolemEntity,
    treatment: GolemTreatment,
) -> Seq<Effect> {
    match treatment {
        GolemTreatment::Wax => seq![Effect::Play(Sound::HoneycombWaxOn)],
        GolemTreatment::RemoveWax => seq![Effect::DamageTool(1), Effect::Play(Sound::AxeScrape)],
        GolemTreatment::Scrape => seq![
            weather_sync(previous_stage(golem.weather_state)),
            Effect::DamageTool(1),
            Effect::Play(Sound::AxeScrape),
        ],
        GolemTreatment::Nothing => seq![],
    }
}

/// A golem that was struck by lightning: one stage cleaner, but only once by each bolt.
pub open spec fn struck(golem: CopperGolemEntity, bolt: u128) -> CopperGolemEntity {
    if golem.last_lightning_bolt == Some(bolt) {
        golem
    } else if golem.weather_state == CopperWeatherState::Unaffected {
        CopperGolemEntity { last_lightning_bolt: Some(bolt), ..golem }
    } else {
        CopperGolemEntity {
            last_lightning_bolt: Some(bolt),
            next_weathering_tick: UNSET_WEATHERING_TICK,
            weather_state: previous_stage(golem.weather_state),
            ..golem
        }
    }
}

/// What is left in the hand of a player who has treated a golem.
pub open spec fn stack_after_golem(
    treatment: GolemTreatment,
    stack: ItemStack,
    gamemode: GameMode,
) -> ItemStack {
    if treatment is Wax {
        after_use(stack, gamemode, 1)
    } else {
        stack
    }
}

/// Whether a golem has the chest at a place open, or the other half of it.
pub open spec fn has_open(
    golem: CopperGolemEntity,
    pos: BlockPos,
    half: ChestHalf,
    facing: Facing,
) -> bool {
    match golem.opened_chest_pos {
        Some(opened) => opened == pos || is_other_half(opened, half, facing, pos),
        None => false,
    }
}

/// What a bolt of lightning on a golem asks of the host.
pub open spec fn lightning_effects(golem: CopperGolemEntity, bolt: u128) -> Seq<Effect> {
    if struck(golem, bolt).weather_state != golem.weather_state {
        seq![weather_sync(previous_stage(golem.weather_state))]
    } else {
        seq![]
    }
}

impl CopperGolemEntity {
    /// A new golem, whose paths lead through doors.
    pub fn new(age: i32, effects: &mut Vec<Effect>) -> (golem: Self)
        ensures
            golem.mob_entity.fresh(age),
            golem.mob_entity.goals@ == golem_goals(),
            golem.mob_entity.targets@.len() == 0,
            golem.weather_state == CopperWeatherState::Unaffected,
            golem.state == golem_state_id(CopperGolemState::Idle),
            golem.next_weathering_tick == UNSET_WEATHERING_TICK,
            golem.last_lightning_bolt is None,
            golem.opened_chest_pos is None,
            final(effects)@ == old(effects)@.push(Effect::OpenDoorsOnPaths),
    {
        let goals = vec![
            goal(1, Goal::InteractWithDoor { close: true }),
            goal(2, Goal::TransportItems { speed: 1000 }),
            goal(3, watch_player(6000)),
            goal(4, Goal::Wander { speed: 1000 }),
        ];
        effects.push(Effect::OpenDoorsOnPaths);
        CopperGolemEntity {
            mob_entity: MobEntity::with_goals(age, goals, Vec::new()),
            weather_state: CopperWeatherState::Unaffected,
            state: CopperGolemState::Idle.id(),
            next_weathering_tick: UNSET_WEATHERING_TICK,
            last_lightning_bolt: None,
            opened_chest_pos: None,
        }
    }

    pub fn weather_state(&self) -> (state: CopperWeatherState)
        ensures
            state == self.weather_state,
    {
        self.weather_state
    }

    pub fn set_weather_state(&mut self, state: CopperWeatherState, effects: &mut Vec<Effect>)
        ensures
            *final(self) == (CopperGolemEntity { weather_state: state, ..*old(self) }),
            final(effects)@ == old(effects)@.push(weather_sync(state)),
    {
        self.weather_state = state;
        effects.push(Effect::Sync(SyncedValue::CopperGolemWeather(state.id())));
    }

    pub fn get_state(&self) -> (state: CopperGolemState)
        ensures
            state == golem_state_of_id(self.state as int),
    {
        CopperGolemState::from_id(self.state)
    }

    pub fn set_state(&mut self, state: CopperGolemState, effects: &mut Vec<Effect>)
        ensures
            *final(self) == (CopperGolemEntity { state: golem_state_id(state), ..*old(self) }),
            final(effects)@ == old(effects)@.push(golem_state_sync(state)),
    {
        self.state = state.id();
        effects.push(Effect::Sync(SyncedValue::CopperGolemState(state.id())));
    }

    pub fn set_opened_chest_pos(&mut self, pos: BlockPos)
        ensures
            *final(self) == (CopperGolemEntity { opened_chest_pos: Some(pos), ..*old(self) }),
    {
        self.opened_chest_pos = Some(pos);
    }

    pub fn clear_opened_chest_pos(&mut self)
        ensures
            *final(self) == (CopperGolemEntity { opened_chest_pos: None, ..*old(self) }),
    {
        self.opened_chest_pos = None;
    }

    /// Whether the golem has the chest at a position open. `half` and `facing` are those of the
    /// block that the golem opened; the other half of a double chest is open with it.
    pub fn has_container_open(&self, pos: &BlockPos, half: ChestHalf, facing: Facing) -> (open:
        bool)
        ensures
            open == has_open(*self, *pos, half, facing),
    {
        let opened = match self.opened_chest_pos {
            Some(opened) => opened,
            None => {
                return false;
            },
        };
        if opened == *pos {
            return true;
        }
        let towards = match half {
            ChestHalf::Single => {
                return false;
            },
            ChestHalf::Left => facing.rotate_clockwise(),
            ChestHalf::Right => facing.rotate_counter_clockwise(),
        };
        let dx: i64 = match towards {
            Facing::East => 1,
            Facing::West => -1,
            _ => 0,
        };
        let dz: i64 = match towards {
            Facing::North => -1,
            Facing::South => 1,
            _ => 0,
        };
        pos.x as i64 == opened.x as i64 + dx && pos.y == opened.y && pos.z as i64 == opened.z as i64
            + dz
    }

    /// Looks after the weathering, for draws: how long the next stage takes, whether the golem
    /// happens to become a statue, and in which pose.
    pub fn update_weathering_with(
        &mut self,
        game_time: i64,
        delay: i64,
        in_air: bool,
        lucky: bool,
        pose: i32,
        effects: &mut Vec<Effect>,
    )
        requires
            WEATHERING_TICK_FROM <= delay <= WEATHERING_TICK_TO,
            game_time <= i64::MAX - WEATHERING_TICK_TO,
        ensures
            *final(self) == weathered(*old(self), game_time as int, delay as int),
            final(effects)@ == old(effects)@ + weathering_effects(
                *old(self),
                game_time as int,
                delay as int,
                in_air,
                lucky,
                pose as int,
            ),
    {
        let next_tick: i64 = self.next_weathering_tick;
        if next_tick == IGNORE_WEATHERING_TICK {
            return ;
        }
        let state = self.weather_state();
        let is_fully_oxidized = state == CopperWeatherState::Oxidized;
        if next_tick == UNSET_WEATHERING_TICK {
            self.next_weathering_tick = game_time + delay;
        } else if !is_fully_oxidized {
            if game_time >= next_tick {
                let new_state = state.next();
                self.set_weather_state(new_state, effects);
                if new_state == CopperWeatherState::Oxidized {
                    self.next_weathering_tick = 0;
                } else {
                    self.next_weathering_tick = next_tick + delay;
                }
            }
        }
        if is_fully_oxidized && in_air && lucky {
            self.turn_to_statue(pose, effects);
        }
    }

    /// Looks after the weathering.
    pub fn update_weathering(&mut self, game_time: i64, in_air: bool, effects: &mut Vec<Effect>)
        requires
            game_time <= i64::MAX - WEATHERING_TICK_TO,
        ensures
            exists|delay: int, lucky: bool, pose: int|
                {
                    &&& WEATHERING_TICK_FROM <= delay <= WEATHERING_TICK_TO
                    &&& 0 <= pose < 4
                    &&& *final(self) == weathered(*old(self), game_time as int, delay)
                    &&& final(effects)@ == old(effects)@ + #[trigger] weathering_effects(
                        *old(self),
                        game_time as int,
                        delay,
                        in_air,
                        lucky,
                        pose,
                    )
                },
    {
        let delay: i32 = roll(504_000, 552_001);
        let lucky = chance(58, 10_000);
        let pose: i32 = roll(0, 4);
        self.update_weathering_with(game_time, delay as i64, in_air, lucky, pose, effects);
    }

    fn turn_to_statue(&self, pose: i32, effects: &mut Vec<Effect>)
        ensures
            final(effects)@ == old(effects)@ + seq![
                Effect::BecomeStatue(statue_pose(pose as int)),
                Effect::Remove,
            ],
    {
        let statue = match pose {
            0 => StatuePose::Standing,
            1 => StatuePose::Sitting,
            2 => StatuePose::Running,
            _ => StatuePose::Star,
        };
        effects.push(Effect::BecomeStatue(statue));
        effects.push(Effect::Remove);
    }

    /// Lets a player use an item on the golem: honeycomb waxes it, an axe takes the wax off or
    /// else scrapes one stage off. Says whether anything was done.
    pub fn golem_interact(
        &mut self,
        player: &Player,
        stack: &mut ItemStack,
        is_axe: bool,
        effects: &mut Vec<Effect>,
    ) -> (done: bool)
        ensures
            ({
                let treatment = golem_treatment(*old(self), old(stack).item, is_axe);
                &&& done == !(treatment is Nothing)
                &&& *final(self) == golem_treated(*old(self), treatment)
                &&& final(effects)@ == old(effects)@ + golem_treatment_effects(
                    *old(self),
                    treatment,
                )
                &&& *final(stack) == stack_after_golem(treatment, *old(stack), player.gamemode)
            }),
    {
        if stack.item == Item::Honeycomb && self.next_weathering_tick != IGNORE_WEATHERING_TICK {
            self.next_weathering_tick = IGNORE_WEATHERING_TICK;
            stack.decrement_unless_creative(player.gamemode, 1);
            effects.push(Effect::Play(Sound::HoneycombWaxOn));
            return true;
        }
        if is_axe {
            if self.next_weathering_tick == IGNORE_WEATHERING_TICK {
                self.next_weathering_tick = UNSET_WEATHERING_TICK;
                effects.push(Effect::DamageTool(1));
                effects.push(Effect::Play(Sound::AxeScrape));
                return true;
            }
            let state = self.weather_state();
            if state != CopperWeatherState::Unaffected {
                self.next_weathering_tick = UNSET_WEATHERING_TICK;
                self.set_weather_state(state.previous(), effects);
                effects.push(Effect::DamageTool(1));
                effects.push(Effect::Play(Sound::AxeScrape));
                return true;
            }
        }
        false
    }

    /// Lets a player use an item on the golem.
    pub fn mob_interact(
        &mut self,
        player: &Player,
        stack: &mut ItemStack,
        is_axe: bool,
        effects: &mut Vec<Effect>,
    ) -> (outcome: Interaction)
        ensures
            ({
                let treatment = golem_treatment(*old(self), old(stack).item, is_axe);
                &&& outcome == (if treatment is Nothing {
                    Interaction::Shared
                } else {
                    Interaction::Handled
                })
                &&& *final(self) == golem_treated(*old(self), treatment)
                &&& final(effects)@ == old(effects)@ + golem_treatment_effects(
                    *old(self),
                    treatment,
                )
                &&& *final(stack) == stack_after_golem(treatment, *old(stack), player.gamemode)
            }),
    {
        if self.golem_interact(player, stack, is_axe, effects) {
            Interaction::Handled
        } else {
            Interaction::Shared
        }
    }

    /// How far the golem reaches for containers, in thousandths of a block.
    pub fn get_container_interaction_range(&self) -> (range: u32)
        ensures
            range == 3000,
    {
        3000
    }

    pub fn get_hurt_sound(&self) -> (sound: Option<Sound>)
        ensures
            sound == Some(hurt_sound(self.weather_state)),
    {
        Some(self.weather_state().oxidation_level_hurt_sound())
    }

    pub fn get_step_sound(&self) -> (sound: Option<Sound>)
        ensures
            sound == Some(step_sound(self.weather_state)),
    {
        Some(self.weather_state().oxidation_level_step_sound())
    }

    /// A bolt of lightning strikes the golem.
    pub fn mob_on_lightning_strike(&mut self, bolt: u128, effects: &mut Vec<Effect>)
        ensures
            *final(self) == struck(*old(self), bolt),
            final(effects)@ == old(effects)@ + lightning_effects(*old(self), bolt),
    {
        let again = match self.last_lightning_bolt {
            Some(last) => last == bolt,
            None => false,
        };
        if again {
            return ;
        }
        self.last_lightning_bolt = Some(bolt);
        let state = self.weather_state();
        if state != CopperWeatherState::Unaffected {
            self.next_weathering_tick = UNSET_WEATHERING_TICK;
            self.set_weather_state(state.previous(), effects);
        }
    }

    /// Tells clients about the golem when they first see it.
    pub fn mob_init_data_tracker(&self, effects: &mut Vec<Effect>)
        ensures
            final(effects)@ == old(effects)@ + seq![
                weather_sync(self.weather_state),
                golem_state_sync(golem_state_of_id(self.state as int)),
            ],
    {
        effects.push(Effect::Sync(SyncedValue::CopperGolemWeather(self.weather_state().id())));
        effects.push(Effect::Sync(SyncedValue::CopperGolemState(self.get_state().id())));
    }

    /// Damage that landed makes the golem stop what it was doing.
    pub fn on_damage(&mut self, effects: &mut Vec<Effect>)
        ensures
            *final(self) == (CopperGolemEntity {
                state: golem_state_id(CopperGolemState::Idle),
                ..*old(self)
            }),
            final(effects)@ == old(effects)@.push(golem_state_sync(CopperGolemState::Idle)),
    {
        self.set_state(CopperGolemState::Idle, effects);
    }

    /// Saves the golem.
    pub fn write_nbt(&self, nbt: &mut NbtCompound)
        ensures
            final(nbt)@ == golem_saved(old(nbt)@, *self),
    {
        nbt.put_long("next_weather_age", self.next_weathering_tick);
        nbt.put_string("weather_state", self.weather_state().as_str());
    }

    /// Restores the golem.
    pub fn read_nbt(&mut self, nbt: &NbtCompound, effects: &mut Vec<Effect>)
        ensures
            *final(self) == golem_restored(*old(self), nbt@),
            final(effects)@ == old(effects)@.push(
                weather_sync(golem_restored(*old(self), nbt@).weather_state),
            ),
    {
        self.next_weathering_tick = nbt.get_long("next_weather_age").unwrap_or(
            UNSET_WEATHERING_TICK,
        );
        let state = match nbt.get_string("weather_state") {
            Some(name) => CopperWeatherState::from_name(name),
            None => CopperWeatherState::Unaffected,
        };
        self.set_weather_state(state, effects);
    }
}

/// What is saved of a golem.
pub open spec fn golem_saved(nbt: Map<Seq<char>, NbtValue>, golem: CopperGolemEntity) -> Map<
    Seq<char>,
    NbtValue,
> {
    nbt.insert("next_weather_age"@, NbtValue::Long(golem.next_weathering_tick)).insert(
        "weather_state"@,
        NbtValue::Text(weather_name(golem.weather_state)),
    )
}

/// A golem with its saved state restored.
pub open spec fn golem_restored(
    golem: CopperGolemEntity,
    nbt: Map<Seq<char>, NbtValue>,
) -> CopperGolemEntity {
    CopperGolemEntity {
        next_weathering_tick: match long_at(nbt, "next_weather_age"@) {
            Some(tick) => tick,
            None => UNSET_WEATHERING_TICK,
        },
        weather_state: match text_at(nbt, "weather_state"@) {
            Some(name) => weather_of_name(name),
            None => CopperWeatherState::Unaffected,
        },
        ..golem
    }
}

/// Restoring a saved golem gives back how far it has weathered and when it weathers next.
pub proof fn law_golem_round_trip(
    nbt: Map<Seq<char>, NbtValue>,
    golem: CopperGolemEntity,
    other: CopperGolemEntity,
)
    ensures
        golem_restored(other, golem_saved(nbt, golem)).next_weathering_tick
            == golem.next_weathering_tick,
        golem_restored(other, golem_saved(nbt, golem)).weather_state == golem.weather_state,
{
    reveal_strlit("next_weather_age");
    reveal_strlit("weather_state");
    assert("next_weather_age"@.len() != "weather_state"@.len());
    law_weather_round_trip(golem.weather_state);
}

/// A bolt that strikes a golem twice counts once.
pub proof fn law_bolt_counts_once(golem: CopperGolemEntity, bolt: u128)
    ensures
        struck(struck(golem, bolt), bolt) == struck(golem, bolt),
{
}

/// A waxed golem does not weather, whatever the time.
pub proof fn law_wax_stops_weathering(
    golem: CopperGolemEntity,
    game_time: int,
    delay: int,
    in_air: bool,
    lucky: bool,
    pose: int,
)
    ensures
        weathered(golem_treated(golem, GolemTreatment::Wax), game_time, delay) == golem_treated(
            golem,
            GolemTreatment::Wax,
        ),
        weathering_effects(
            golem_treated(golem, GolemTreatment::Wax),
            game_time,
            delay,
            in_air,
            lucky,
            pose,
        ) == Seq::<Effect>::empty(),
{
}

/// A golem weathers by at most one stage at a time, and never backwards.
pub proof fn law_weathering_goes_step_by_step(golem: CopperGolemEntity, game_time: int, delay: int)
    ensures
        weather_id(golem.weather_state) <= weather_id(
            weathered(golem, game_time, delay).weather_state,
        ) <= weather_id(golem.weather_state) + 1,
{
}

/// The stages of a golem are numbered in the order in which it weathers.
pub proof fn law_stages_are_in_order()
    ensures
        weather_id(CopperWeatherState::Unaffected) == 0,
        weather_id(CopperWeatherState::Exposed) == 1,
        weather_id(CopperWeatherState::Weathered) == 2,
        weather_id(CopperWeatherState::Oxidized) == 3,
{
}

/// A golem that is not waxed and not fully oxidized moves on by exactly one stage once its time
/// has come, and clients are told; its next time is set anew from the one that came, or to
/// nothing once it is fully oxidized.
pub proof fn law_weathering_moves_one_stage_on(
    golem: CopperGolemEntity,
    game_time: int,
    delay: int,
    in_air: bool,
    lucky: bool,
    pose: int,
)
    requires
        golem.next_weathering_tick != -2,
        golem.next_weathering_tick != -1,
        golem.weather_state != CopperWeatherState::Oxidized,
        golem.next_weathering_tick <= game_time,
        504_000 <= delay <= 552_000,
        game_time <= i64::MAX - 552_000,
    ensures
        ({
            let after = weathered(golem, game_time, delay);
            &&& weather_id(after.weather_state) == weather_id(golem.weather_state) + 1
            &&& after.weather_state != CopperWeatherState::Oxidized ==> after.next_weathering_tick
                == golem.next_weathering_tick + delay
            &&& after.weather_state == CopperWeatherState::Oxidized ==> after.next_weathering_tick
                == 0
            &&& after == (CopperGolemEntity {
                weather_state: after.weather_state,
                next_weathering_tick: after.next_weathering_tick,
                ..golem
            })
            &&& weathering_effects(golem, game_time, delay, in_air, lucky, pose).contains(
                Effect::Sync(
                    SyncedValue::CopperGolemWeather(
                        (weather_id(golem.weather_state) + 1) as i32,
                    ),
                ),
            )
        }),
{
    let effects = weathering_effects(golem, game_time, delay, in_air, lucky, pose);
    assert(effects[0] == weather_sync(weathered(golem, game_time, delay).weather_state));
}

/// Before its time has come a golem stays as it is. A golem with no time set gets one, counted
/// from now, and keeps its stage. A waxed golem never changes.
pub proof fn law_weathering_waits(golem: CopperGolemEntity, game_time: int, delay: int)
    requires
        504_000 <= delay <= 552_000,
        i64::MIN <= game_time <= i64::MAX - 552_000,
    ensures
        ({
            let after = weathered(golem, game_time, delay);
            &&& golem.next_weathering_tick > game_time && golem.next_weathering_tick >= 0
                ==> after == golem
            &&& golem.next_weathering_tick == -1 ==> after == (CopperGolemEntity {
                next_weathering_tick: (game_time + delay) as i64,
                ..golem
            })
            &&& golem.next_weathering_tick == -2 ==> after == golem
            &&& golem.weather_state == CopperWeatherState::Oxidized ==> after.weather_state
                == CopperWeatherState::Oxidized
        }),
{
}

/// A golem becomes a statue exactly if it is fully oxidized, not waxed, has room and is lucky; a
/// statue replaces the golem.
pub proof fn law_only_oxidized_golems_become_statues(
    golem: CopperGolemEntity,
    game_time: int,
    delay: int,
    in_air: bool,
    lucky: bool,
    pose: int,
)
    requires
        0 <= pose < 4,
    ensures
        ({
            let effects = weathering_effects(golem, game_time, delay, in_air, lucky, pose);
            effects.contains(Effect::Remove) <==> golem.weather_state
                == CopperWeatherState::Oxidized && golem.next_weathering_tick != -2 && in_air
                && lucky
        }),
        statue_pose(pose) == (if pose == 0 {
            StatuePose::Standing
        } else if pose == 1 {
            StatuePose::Sitting
        } else if pose == 2 {
            StatuePose::Running
        } else {
            StatuePose::Star
        }),
{
    let effects = weathering_effects(golem, game_time, delay, in_air, lucky, pose);
    if becomes_statue(golem, in_air, lucky) {
        assert(effects[effects.len() - 1] == Effect::Remove);
    }
}

/// Honeycomb waxes a golem that is not waxed; an axe takes wax off, and on a golem without wax
/// takes it back by one stage. Nothing else changes a golem, and each of these leaves the rest of
/// it alone.
pub proof fn law_treatments_of_golems(golem: CopperGolemEntity, item: Item, is_axe: bool)
    requires
        is_axe ==> item != Item::Honeycomb,
    ensures
        ({
            let treatment = golem_treatment(golem, item, is_axe);
            let after = golem_treated(golem, treatment);
            let waxed = golem.next_weathering_tick == -2;
            let bare = golem.weather_state == CopperWeatherState::Unaffected;
            let effects = golem_treatment_effects(golem, treatment);
            &&& item == Item::Honeycomb && !waxed ==> treatment is Wax
                && after.next_weathering_tick == -2 && after.weather_state == golem.weather_state
                && effects == seq![Effect::Play(Sound::HoneycombWaxOn)]
            &&& is_axe && waxed ==> treatment is RemoveWax && after.next_weathering_tick == -1
                && after.weather_state == golem.weather_state
            &&& is_axe && !waxed && !bare ==> treatment is Scrape && after.next_weathering_tick
                == -1 && weather_id(after.weather_state) == weather_id(golem.weather_state) - 1
            &&& is_axe && (waxed || !bare) ==> effects.contains(Effect::DamageTool(1))
                && effects.contains(Effect::Play(Sound::AxeScrape))
            &&& is_axe && !waxed && bare ==> treatment is Nothing
            &&& !is_axe && (item != Item::Honeycomb || waxed) ==> treatment is Nothing
            &&& treatment is Nothing ==> after == golem && effects.len() == 0
            &&& after == (CopperGolemEntity {
                weather_state: after.weather_state,
                next_weathering_tick: after.next_weathering_tick,
                ..golem
            })
        }),
{
    let treatment = golem_treatment(golem, item, is_axe);
    let effects = golem_treatment_effects(golem, treatment);
    if treatment is RemoveWax {
        assert(effects[0] == Effect::DamageTool(1) && effects[1] == Effect::Play(Sound::AxeScrape));
    }
    if treatment is Scrape {
        assert(effects[1] == Effect::DamageTool(1) && effects[2] == Effect::Play(Sound::AxeScrape));
    }
}

/// A bolt of lightning takes a golem back by one stage, and an unaffected one stays unaffected;
/// the golem remembers the bolt.
pub proof fn law_lightning_cleans_a_golem(golem: CopperGolemEntity, bolt: u128)
    requires
        golem.last_lightning_bolt != Some(bolt),
    ensures
        struck(golem, bolt).last_lightning_bolt == Some(bolt),
        golem.weather_state == CopperWeatherState::Unaffected ==> struck(golem, bolt)
            == (CopperGolemEntity { last_lightning_bolt: Some(bolt), ..golem }),
        golem.weather_state != CopperWeatherState::Unaffected ==> weather_id(
            struck(golem, bolt).weather_state,
        ) == weather_id(golem.weather_state) - 1 && struck(golem, bolt).next_weathering_tick == -1,
{
}

/// The other half of a chest lies beside the opened half: to the right of one that is the left
/// half, and to the left of one that is the right half, seen along the facing of the chest. A
/// single chest has no other half.
pub proof fn law_where_the_other_half_lies(
    opened: BlockPos,
    half: ChestHalf,
    facing: Facing,
    pos: BlockPos,
)
    ensures
        half == ChestHalf::Single ==> !is_other_half(opened, half, facing, pos),
        half == ChestHalf::Left && facing == Facing::North ==> (is_other_half(
            opened,
            half,
            facing,
            pos,
        ) <==> pos.x == opened.x + 1 && pos.y == opened.y && pos.z == opened.z),
        half == ChestHalf::Left && facing == Facing::East ==> (is_other_half(
            opened,
            half,
            facing,
            pos,
        ) <==> pos.x == opened.x && pos.y == opened.y && pos.z == opened.z + 1),
        half == ChestHalf::Left && facing == Facing::South ==> (is_other_half(
            opened,
            half,
            facing,
            pos,
        ) <==> pos.x == opened.x - 1 && pos.y == opened.y && pos.z == opened.z),
        half == ChestHalf::Left && facing == Facing::West ==> (is_other_half(
            opened,
            half,
            facing,
            pos,
        ) <==> pos.x == opened.x && pos.y == opened.y && pos.z == opened.z - 1),
        half == ChestHalf::Right ==> (is_other_half(opened, half, facing, pos) <==> is_other_half(
            pos,
            ChestHalf::Left,
            facing,
            opened,
        )),
{
}

/// What copper golems pursue, and how urgently: this and nothing else.
pub proof fn law_what_copper_golems_pursue(e: GoalEntry)
    ensures
        golem_goals().contains(e) <==> {
            ||| e.priority == 1 && e.goal == (Goal::InteractWithDoor { close: true })
            ||| e.priority == 2 && e.goal == (Goal::TransportItems { speed: 1000 })
            ||| e.priority == 3 && e.goal == (Goal::LookAt { kind: EntityKind::Player, range: 6000 })
            ||| e.priority == 4 && e.goal == (Goal::Wander { speed: 1000 })
        },
        golem_goals().len() == 4,
{
    let all = golem_goals();
    assert(all[0] == (GoalEntry { priority: 1, goal: Goal::InteractWithDoor { close: true } }));
    assert(all[1] == (GoalEntry { priority: 2, goal: Goal::TransportItems { speed: 1000 } }));
    assert(all[2] == (GoalEntry { priority: 3, goal: Goal::LookAt { kind: EntityKind::Player, range: 6000 } }));
    assert(all[3] == (GoalEntry { priority: 4, goal: Goal::Wander { speed: 1000 } }));
}

/// Golems that have weathered sound so, each stage in its own way; newer ones sound alike.
pub proof fn law_how_golems_sound(state: CopperWeatherState)
    ensures
        hurt_sound(state) == Sound::CopperGolemWeatheredHurt <==> state == CopperWeatherState::Weathered,
        hurt_sound(state) == Sound::CopperGolemOxidizedHurt <==> state == CopperWeatherState::Oxidized,
        hurt_sound(state) == Sound::CopperGolemHurt <==> state == CopperWeatherState::Unaffected || state
            == CopperWeatherState::Exposed,
        step_sound(state) == Sound::CopperGolemWeatheredStep <==> state == CopperWeatherState::Weathered,
        step_sound(state) == Sound::CopperGolemOxidizedStep <==> state == CopperWeatherState::Oxidized,
        step_sound(state) == Sound::CopperGolemStep <==> state == CopperWeatherState::Unaffected || state
            == CopperWeatherState::Exposed,
{
}

/// Only waxing uses up what the player holds, one piece of it, unless they are creative.
pub proof fn law_waxing_uses_up_honeycomb(
    treatment: GolemTreatment,
    stack: ItemStack,
    gamemode: GameMode,
)
    ensures
        !(treatment is Wax) || gamemode == GameMode::Creative ==> stack_after_golem(
            treatment,
            stack,
            gamemode,
        ) == stack,
        treatment is Wax && gamemode != GameMode::Creative && stack.count >= 1 ==> stack_after_golem(
            treatment,
            stack,
            gamemode,
        ).count == stack.count - 1,
{
}

/// A golem that has no chest open has none open anywhere; one that has a single chest open has it
/// open at its place alone.
pub proof fn law_where_golems_have_chests_open(
    golem: CopperGolemEntity,
    pos: BlockPos,
    half: ChestHalf,
    facing: Facing,
)
    ensures
        golem.opened_chest_pos is None ==> !has_open(golem, pos, half, facing),
        golem.opened_chest_pos == Some(pos) ==> has_open(golem, pos, half, facing),
        golem.opened_chest_pos is Some && golem.opened_chest_pos->0 != pos ==> has_open(
            golem,
            pos,
            half,
            facing,
        ) == is_other_half(golem.opened_chest_pos->0, half, facing, pos),
        half == ChestHalf::Single && golem.opened_chest_pos != Some(pos) ==> !has_open(
            golem,
            pos,
            half,
            facing,
        ),
{
}

/// Lightning is told where it has cleaned a golem: where the bolt is new and there was something
/// to clean.
pub proof fn law_lightning_is_told(golem: CopperGolemEntity, bolt: u128)
    ensures
        lightning_effects(golem, bolt).len() == 1 <==> golem.last_lightning_bolt != Some(bolt)
            && golem.weather_state != CopperWeatherState::Unaffected,
        lightning_effects(golem, bolt).len() == 0 <==> golem.last_lightning_bolt == Some(bolt)
            || golem.weather_state == CopperWeatherState::Unaffected,
        lightning_effects(golem, bolt).len() == 1 ==> lightning_effects(golem, bolt)[0] == weather_sync(
            struck(golem, bolt).weather_state,
        ),
{
}

} // verus!
