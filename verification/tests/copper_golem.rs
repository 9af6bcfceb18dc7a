use passive_mobs::copper_golem::{
    ChestHalf, CopperGolemEntity, CopperGolemState, CopperWeatherState, Facing,
    IGNORE_WEATHERING_TICK, UNSET_WEATHERING_TICK, WEATHERING_TICK_FROM, WEATHERING_TICK_TO,
};
use passive_mobs::effect::{Effect, Sound, StatuePose};
use passive_mobs::item::{GameMode, Item, ItemStack, Player};
use passive_mobs::nbt::NbtCompound;
use passive_mobs::position::BlockPos;

#[test]
fn weather_state_next_saturates_at_oxidized() {
    assert_eq!(CopperWeatherState::Unaffected.next(), CopperWeatherState::Exposed);
    assert_eq!(CopperWeatherState::Exposed.next(), CopperWeatherState::Weathered);
    assert_eq!(CopperWeatherState::Weathered.next(), CopperWeatherState::Oxidized);
    assert_eq!(CopperWeatherState::Oxidized.next(), CopperWeatherState::Oxidized);
}

#[test]
fn weather_state_previous_saturates_at_unaffected() {
    assert_eq!(CopperWeatherState::Oxidized.previous(), CopperWeatherState::Weathered);
    assert_eq!(CopperWeatherState::Weathered.previous(), CopperWeatherState::Exposed);
    assert_eq!(CopperWeatherState::Exposed.previous(), CopperWeatherState::Unaffected);
    assert_eq!(CopperWeatherState::Unaffected.previous(), CopperWeatherState::Unaffected);
}

#[test]
fn weather_state_name_round_trips() {
    for state in [
        CopperWeatherState::Unaffected,
        CopperWeatherState::Exposed,
        CopperWeatherState::Weathered,
        CopperWeatherState::Oxidized,
    ] {
        assert_eq!(CopperWeatherState::from_name(state.as_str()), state);
        assert_eq!(CopperWeatherState::from_id(state.id()), state);
    }
}

#[test]
fn weathering_sentinels_are_distinct_from_the_real_schedule_range() {
    assert!(UNSET_WEATHERING_TICK < 0);
    assert!(IGNORE_WEATHERING_TICK < 0);
    assert!(WEATHERING_TICK_FROM < WEATHERING_TICK_TO);
    assert!(WEATHERING_TICK_FROM > 0);
    assert_ne!(UNSET_WEATHERING_TICK, IGNORE_WEATHERING_TICK);
}

#[test]
fn oxidation_level_sounds_match_the_vanilla_table() {
    assert_eq!(CopperWeatherState::Unaffected.oxidation_level_hurt_sound(), Sound::CopperGolemHurt);
    assert_eq!(CopperWeatherState::Exposed.oxidation_level_hurt_sound(), Sound::CopperGolemHurt);
    assert_eq!(CopperWeatherState::Unaffected.oxidation_level_step_sound(), Sound::CopperGolemStep);
    assert_eq!(CopperWeatherState::Exposed.oxidation_level_step_sound(), Sound::CopperGolemStep);
    assert_eq!(
        CopperWeatherState::Weathered.oxidation_level_hurt_sound(),
        Sound::CopperGolemWeatheredHurt
    );
    assert_eq!(
        CopperWeatherState::Oxidized.oxidation_level_hurt_sound(),
        Sound::CopperGolemOxidizedHurt
    );
    assert_eq!(
        CopperWeatherState::Weathered.oxidation_level_step_sound(),
        Sound::CopperGolemWeatheredStep
    );
    assert_eq!(
        CopperWeatherState::Oxidized.oxidation_level_step_sound(),
        Sound::CopperGolemOxidizedStep
    );
}

#[test]
fn turns_to_both_sides_cancel() {
    for facing in [Facing::North, Facing::East, Facing::South, Facing::West] {
        assert_eq!(facing.rotate_clockwise().rotate_counter_clockwise(), facing);
    }
    assert_eq!(Facing::North.rotate_clockwise(), Facing::East);
}

#[test]
fn states_of_golems_have_numbers() {
    for id in 0..5 {
        assert_eq!(CopperGolemState::from_id(id).id(), id);
    }
}

#[test]
fn a_golem_weathers_when_its_time_has_come() {
    let mut effects = Vec::new();
    let mut golem = CopperGolemEntity::new(0, &mut Vec::new());
    golem.update_weathering_with(1000, 504_000, false, false, 0, &mut effects);
    assert_eq!(golem.weather_state(), CopperWeatherState::Unaffected);
    assert_eq!(golem.next_weathering_tick, 505_000);
    golem.update_weathering_with(504_999, 504_000, false, false, 0, &mut effects);
    assert_eq!(golem.weather_state(), CopperWeatherState::Unaffected);
    golem.update_weathering_with(505_000, 504_000, false, false, 0, &mut effects);
    assert_eq!(golem.weather_state(), CopperWeatherState::Exposed);
}

#[test]
fn an_oxidized_golem_may_become_a_statue() {
    let mut effects = Vec::new();
    let mut golem = CopperGolemEntity::new(0, &mut Vec::new());
    golem.set_weather_state(CopperWeatherState::Oxidized, &mut effects);
    golem.next_weathering_tick = 1;
    effects.clear();
    golem.update_weathering_with(2, 504_000, true, true, 3, &mut effects);
    assert_eq!(effects, vec![Effect::BecomeStatue(StatuePose::Star), Effect::Remove]);
}

#[test]
fn wax_keeps_a_golem_as_it_is() {
    let mut effects = Vec::new();
    let mut golem = CopperGolemEntity::new(0, &mut Vec::new());
    let player = Player { id: 1, gamemode: GameMode::Survival, sneaking: false };
    let mut stack = ItemStack::new(2, Item::Honeycomb);
    assert!(golem.golem_interact(&player, &mut stack, false, &mut effects));
    assert_eq!(stack.count, 1);
    assert_eq!(golem.next_weathering_tick, IGNORE_WEATHERING_TICK);
    golem.update_weathering(i64::MAX / 2, true, &mut effects);
    assert_eq!(golem.weather_state(), CopperWeatherState::Unaffected);
}

#[test]
fn an_axe_scrapes_a_golem() {
    let mut effects = Vec::new();
    let mut golem = CopperGolemEntity::new(0, &mut Vec::new());
    golem.set_weather_state(CopperWeatherState::Weathered, &mut effects);
    let player = Player { id: 1, gamemode: GameMode::Survival, sneaking: false };
    let mut stack = ItemStack::new(1, Item::Other(3));
    effects.clear();
    assert!(golem.golem_interact(&player, &mut stack, true, &mut effects));
    assert_eq!(golem.weather_state(), CopperWeatherState::Exposed);
    assert!(effects.contains(&Effect::DamageTool(1)));
}

#[test]
fn a_bolt_counts_once() {
    let mut effects = Vec::new();
    let mut golem = CopperGolemEntity::new(0, &mut Vec::new());
    golem.set_weather_state(CopperWeatherState::Oxidized, &mut effects);
    golem.mob_on_lightning_strike(42, &mut effects);
    let after = golem.weather_state();
    golem.mob_on_lightning_strike(42, &mut effects);
    assert_eq!(golem.weather_state(), after);
}

#[test]
fn a_golem_has_both_halves_of_a_chest_open() {
    let mut golem = CopperGolemEntity::new(0, &mut Vec::new());
    let pos = BlockPos::new(0, 0, 0);
    assert!(!golem.has_container_open(&pos, ChestHalf::Single, Facing::North));
    golem.set_opened_chest_pos(pos);
    assert!(golem.has_container_open(&pos, ChestHalf::Single, Facing::North));
    let beside = BlockPos::new(1, 0, 0);
    assert!(golem.has_container_open(&beside, ChestHalf::Left, Facing::North));
    assert!(!golem.has_container_open(&beside, ChestHalf::Single, Facing::North));
    golem.clear_opened_chest_pos();
    assert!(!golem.has_container_open(&pos, ChestHalf::Single, Facing::North));
    assert_eq!(golem.get_container_interaction_range(), 3000);
}

#[test]
fn a_saved_golem_of_copper_comes_back() {
    let mut effects = Vec::new();
    let mut golem = CopperGolemEntity::new(0, &mut Vec::new());
    golem.set_weather_state(CopperWeatherState::Weathered, &mut effects);
    golem.next_weathering_tick = 123;
    let mut nbt = NbtCompound::new();
    golem.write_nbt(&mut nbt);
    let mut other = CopperGolemEntity::new(0, &mut Vec::new());
    other.read_nbt(&nbt, &mut effects);
    assert_eq!(other.weather_state(), CopperWeatherState::Weathered);
    assert_eq!(other.next_weathering_tick, 123);
}

#[test]
fn a_new_golem_opens_doors() {
    let mut effects = Vec::new();
    let golem = CopperGolemEntity::new(0, &mut effects);
    assert_eq!(effects, vec![Effect::OpenDoorsOnPaths]);
    assert_eq!(golem.weather_state(), CopperWeatherState::Unaffected);
}
