use passive_mobs::bee::{
    attracts_bees, is_tired_of_looking_for_nectar, poison_duration, sting_death_roll_bound,
    BeeEntity, BeeTick, BeehiveBlockEntity, BlockEntity, Difficulty, FlowerBlock,
};
use passive_mobs::bee_goals::{
    bee_growable_max_age, BeeAttackGoal, BeeEnterHiveGoal, BeeGoToHiveGoal,
    BeeGoToKnownFlowerGoal, BeeGrowCropGoal, BeeLocateHiveGoal, BeePollinateGoal,
    BeeValidateHiveGoal, CropBlock,
};
use passive_mobs::bee_search::{
    distance_squared, find_nearby_flower, find_nearby_hives_with_space, sort_by_distance,
};
use passive_mobs::block::Block;
use passive_mobs::effect::Effect;
use passive_mobs::goal::{Controls, Goal};
use passive_mobs::nbt::NbtCompound;
use passive_mobs::position::BlockPos;

#[test]
fn bee_sting_poison_matches_vanilla_difficulty_durations() {
    assert_eq!(poison_duration(Difficulty::Peaceful), None);
    assert_eq!(poison_duration(Difficulty::Easy), None);
    assert_eq!(poison_duration(Difficulty::Normal), Some(200));
    assert_eq!(poison_duration(Difficulty::Hard), Some(360));
}

#[test]
fn bee_sting_death_roll_bound_shrinks_and_clamps() {
    assert_eq!(sting_death_roll_bound(0), 1200);
    assert_eq!(sting_death_roll_bound(600), 600);
    assert_eq!(sting_death_roll_bound(1199), 1);
    assert_eq!(sting_death_roll_bound(1200), 1);
    assert_eq!(sting_death_roll_bound(5000), 1);
}

fn flower(block: Block, bee_attractive: bool, upper_half: bool) -> FlowerBlock {
    FlowerBlock { block, bee_attractive, waterlogged: false, upper_half }
}

#[test]
fn bee_attracts_bees_matches_vanilla_predicate() {
    assert!(attracts_bees(&flower(Block::Dandelion, true, false)));
    assert!(!attracts_bees(&flower(Block::Stone, false, false)));
    assert!(!attracts_bees(&flower(Block::Sunflower, true, false)));
    assert!(attracts_bees(&flower(Block::Sunflower, true, true)));
}

#[test]
fn a_flooded_flower_attracts_no_bee() {
    let mut flooded = flower(Block::Dandelion, true, false);
    flooded.waterlogged = true;
    assert!(!attracts_bees(&flooded));
}

#[test]
fn bee_is_tired_of_looking_for_nectar_after_3600_ticks() {
    assert!(!is_tired_of_looking_for_nectar(3600));
    assert!(is_tired_of_looking_for_nectar(3601));
}

#[test]
fn bee_grows_a_crop_by_one_age_step_and_stops_when_ripe() {
    let grown = BeeGrowCropGoal::grown_state(Block::Wheat, Some(3)).expect("age 3 wheat is growable");
    assert_eq!(grown, 4);
    assert_eq!(
        BeeGrowCropGoal::grown_state(Block::Wheat, Some(7)),
        None,
        "fully grown wheat must not advance"
    );
}

#[test]
fn tabulated_max_ages_match_each_blocks_state_space() {
    for (block, ripe) in [
        (Block::Wheat, 7),
        (Block::Carrots, 7),
        (Block::Potatoes, 7),
        (Block::MelonStem, 7),
        (Block::PumpkinStem, 7),
        (Block::Beetroots, 3),
        (Block::SweetBerryBush, 3),
        (Block::TorchflowerCrop, 1),
    ] {
        let max = bee_growable_max_age(block).unwrap_or_else(|| panic!("{block:?} should be tabulated"));
        assert_eq!(max, ripe, "{block:?} ripens at another age");
        assert_eq!(
            BeeGrowCropGoal::grown_state(block, Some(max)),
            None,
            "{block:?} at max age must not grow"
        );
        assert_eq!(
            BeeGrowCropGoal::grown_state(block, Some(max - 1)),
            Some(max),
            "{block:?} one below max age must grow"
        );
    }
}

#[test]
fn cave_vines_are_not_tabulated() {
    assert_eq!(bee_growable_max_age(Block::CaveVines), None);
    assert_eq!(bee_growable_max_age(Block::CaveVinesPlant), None);
    assert_eq!(bee_growable_max_age(Block::PitcherCrop), None);
    assert_eq!(bee_growable_max_age(Block::Stone), None);
}

#[test]
fn a_saved_bee_comes_back() {
    let mut effects = Vec::new();
    let mut bee = BeeEntity::with_flower_cooldown(0, 20);
    bee.set_hive_pos(Some(BlockPos::new(1, -2, 3)));
    bee.flower_pos = Some(BlockPos::new(-4, 5, -6));
    bee.set_has_nectar(true, &mut effects);
    bee.set_has_stung(true, &mut effects);
    bee.ticks_without_nectar = 11;
    bee.set_stay_out_of_hive_countdown(12);
    bee.increment_crops_grown_since_pollination();
    let mut nbt = NbtCompound::new();
    bee.write_nbt(&mut nbt);
    let mut other = BeeEntity::new(0);
    other.read_nbt(&nbt);
    assert_eq!(other.hive_pos, Some(BlockPos::new(1, -2, 3)));
    assert_eq!(other.flower_pos, Some(BlockPos::new(-4, 5, -6)));
    assert!(other.has_nectar());
    assert!(other.has_stung());
    assert_eq!(other.ticks_without_nectar(), 11);
    assert_eq!(other.stay_out_of_hive_countdown, 12);
    assert_eq!(other.crops_grown_since_pollination(), 1);
}

#[test]
fn a_bee_remembers_three_hives_and_forgets_the_oldest() {
    let mut bee = BeeEntity::new(0);
    for x in 0..4 {
        bee.blacklist_hive(BlockPos::new(x, 0, 0));
    }
    assert!(!bee.is_hive_blacklisted(BlockPos::new(0, 0, 0)));
    for x in 1..4 {
        assert!(bee.is_hive_blacklisted(BlockPos::new(x, 0, 0)));
    }
    bee.clear_hive_blacklist();
    assert!(!bee.is_hive_blacklisted(BlockPos::new(3, 0, 0)));
}

#[test]
fn a_bee_that_has_stung_stays_out_of_its_hive() {
    let mut effects = Vec::new();
    let mut bee = BeeEntity::new(0);
    bee.set_has_nectar(true, &mut effects);
    assert!(bee.wants_to_enter_hive(false, false, false));
    assert!(!bee.wants_to_enter_hive(false, false, true));
    assert!(!bee.wants_to_enter_hive(true, false, false));
    bee.set_has_stung(true, &mut effects);
    assert!(!bee.wants_to_enter_hive(false, true, false));
}

#[test]
fn a_bee_that_has_stung_dies_in_the_end() {
    let mut effects = Vec::new();
    let mut bee = BeeEntity::new(0);
    bee.set_has_stung(true, &mut effects);
    effects.clear();
    let seen = BeeTick {
        dead: false,
        target: None,
        angry_at_target: false,
        hive_valid: true,
        in_water: false,
    };
    for _ in 0..1200 {
        bee.mob_tick(&seen, &mut effects);
    }
    assert!(effects.contains(&Effect::Die));
}

#[test]
fn a_bee_stings_and_loses_its_target() {
    let mut effects = Vec::new();
    let mut bee = BeeEntity::new(0);
    bee.on_successful_attack(true, Difficulty::Hard, &mut effects);
    assert!(bee.has_stung());
    assert!(effects.contains(&Effect::PoisonTarget(360)));
    assert!(effects.contains(&Effect::ForgetAnger));
    let goal = BeeAttackGoal::new();
    assert_eq!(goal.melee, Goal::MeleeAttack { speed: 1400, pause_when_idle: true });
    assert!(goal.can_start(&BeeEntity::new(0), true, true));
    assert!(!goal.can_start(&BeeEntity::new(0), true, false));
    assert!(!goal.should_continue(&bee, true, true));
    assert!(!goal.can_sting(&bee, true));
    assert!(goal.can_sting(&BeeEntity::new(0), true));
    assert!(!goal.can_sting(&BeeEntity::new(0), false));
}

#[test]
fn a_bee_pollinates_for_four_hundred_ticks() {
    let mut effects = Vec::new();
    let mut bee = BeeEntity::with_flower_cooldown(0, 0);
    let mut goal = BeePollinateGoal::new();
    assert!(goal.start_with_flower(&mut bee, false, Some(BlockPos::new(0, 0, 0)), 20, &mut effects));
    goal.start(&mut bee);
    assert!(bee.pollinating);
    for _ in 0..400 {
        goal.tick_with_luck(&mut bee, 1.0f64.to_bits(), false, false, &mut effects);
    }
    assert!(!goal.has_pollinated_long_enough());
    goal.tick_with_luck(&mut bee, 1.0f64.to_bits(), false, false, &mut effects);
    assert!(goal.has_pollinated_long_enough());
    goal.stop(&mut bee, &mut effects);
    assert!(bee.has_nectar());
    assert!(!bee.pollinating);
    assert_eq!(bee.flower_cooldown, 200);
}

#[test]
fn no_bee_pollinates_in_the_rain() {
    let mut effects = Vec::new();
    let mut bee = BeeEntity::with_flower_cooldown(0, 0);
    let goal = BeePollinateGoal::new();
    assert!(!goal.start_with_flower(&mut bee, true, Some(BlockPos::new(0, 0, 0)), 20, &mut effects));
    assert!(!goal.should_continue(&bee, true));
}

#[test]
fn a_bee_enters_a_hive_that_has_room() {
    let mut bee = BeeEntity::new(0);
    bee.set_hive_pos(Some(BlockPos::new(0, 0, 0)));
    let room = BeehiveBlockEntity { full: false, fire_nearby: false };
    let full = BeehiveBlockEntity { full: true, fire_nearby: false };
    let goal = BeeEnterHiveGoal;
    assert!(goal.can_start(&mut bee, true, 3.9f64.to_bits(), Some(&room)));
    assert!(!goal.can_start(&mut bee, false, 3.9f64.to_bits(), Some(&room)));
    assert!(!goal.can_start(&mut bee, true, 4.0f64.to_bits(), Some(&room)));
    assert!(bee.has_hive());
    assert!(!goal.can_start(&mut bee, true, 3.9f64.to_bits(), Some(&full)));
    assert!(!bee.has_hive());
    assert!(!bee.is_hive_valid(100.0f64.to_bits(), None));
    bee.set_hive_pos(Some(BlockPos::new(0, 0, 0)));
    assert!(bee.is_hive_valid(100.0f64.to_bits(), Some(&BlockEntity::Beehive(room))));
    assert!(!bee.is_hive_valid(100.0f64.to_bits(), Some(&BlockEntity::Other)));
    assert!(!bee.is_hive_valid(2304.0f64.to_bits(), Some(&BlockEntity::Beehive(room))));
}

#[test]
fn a_bee_takes_the_first_hive_that_is_not_blacklisted() {
    let mut bee = BeeEntity::new(0);
    let near = BlockPos::new(1, 0, 0);
    let far = BlockPos::new(9, 0, 0);
    bee.blacklist_hive(near);
    let goal = BeeLocateHiveGoal;
    goal.start(&mut bee, &vec![near, far]);
    assert_eq!(bee.hive_pos, Some(far));
    assert_eq!(bee.hive_cooldown, 200);
    bee.blacklist_hive(far);
    goal.start(&mut bee, &vec![near, far]);
    assert_eq!(bee.hive_pos, Some(near));
    assert!(!bee.is_hive_blacklisted(far));
}

#[test]
fn a_bee_on_a_long_way_gives_its_hive_up() {
    let mut effects = Vec::new();
    let mut bee = BeeEntity::new(0);
    let hive = BlockPos::new(3, 3, 3);
    bee.set_hive_pos(Some(hive));
    let mut goal = BeeGoToHiveGoal::new();
    goal.start();
    for ticks in 0..2401 {
        let distance = 900.0 - f64::from(ticks) / 10.0;
        goal.tick(&mut bee, distance.to_bits(), true, &mut effects);
    }
    assert!(!bee.has_hive());
    assert!(bee.is_hive_blacklisted(hive));
}

#[test]
fn a_bee_that_comes_no_closer_gives_its_hive_up() {
    let mut effects = Vec::new();
    let mut bee = BeeEntity::new(0);
    bee.set_hive_pos(Some(BlockPos::new(3, 3, 3)));
    let mut goal = BeeGoToHiveGoal::new();
    for _ in 0..61 {
        goal.tick(&mut bee, 9.0f64.to_bits(), true, &mut effects);
    }
    assert!(bee.has_hive());
    goal.tick(&mut bee, 9.0f64.to_bits(), true, &mut effects);
    assert!(!bee.has_hive());
}

#[test]
fn a_hive_that_is_gone_is_dropped_when_it_is_looked_at() {
    let mut bee = BeeEntity::new(0);
    bee.set_hive_pos(Some(BlockPos::new(3, 3, 3)));
    let mut goal = BeeValidateHiveGoal::new();
    goal.start(&mut bee, false, false, 100);
    assert!(bee.has_hive());
    goal.start(&mut bee, true, true, 100);
    assert!(bee.has_hive());
    goal.start(&mut bee, true, false, 100);
    assert!(!bee.has_hive());
    assert!(!goal.can_start(false, 101));
    assert!(goal.can_start(false, 200));
    assert!(!goal.can_start(true, 200));
}

#[test]
fn a_bee_with_nectar_lets_a_crop_grow() {
    let mut effects = Vec::new();
    let mut bee = BeeEntity::new(0);
    bee.set_has_nectar(true, &mut effects);
    effects.clear();
    let wheat = CropBlock { block: Block::Wheat, bee_growable: true, age: Some(6) };
    let stone = CropBlock { block: Block::Stone, bee_growable: false, age: None };
    let goal = BeeGrowCropGoal;
    goal.tick_with_draw(&mut bee, &wheat, &stone, 0, &mut effects);
    assert!(effects.contains(&Effect::GrowCrop { below: 1, age: 7 }));
    assert_eq!(bee.crops_grown_since_pollination(), 1);
    effects.clear();
    goal.tick_with_draw(&mut bee, &wheat, &stone, 1, &mut effects);
    assert!(effects.is_empty());
}

#[test]
fn the_nearest_flower_is_found_above_first() {
    let origin = BlockPos::new(10, 64, 10);
    let near = |pos: BlockPos| pos.x == 10 && pos.y == 64 && (pos.z == 8 || pos.z == 12);
    assert_eq!(find_nearby_flower(origin, near), Some(BlockPos::new(10, 64, 12)));
    let corner = |pos: BlockPos| pos == BlockPos::new(15, 69, 15);
    assert_eq!(find_nearby_flower(origin, corner), Some(BlockPos::new(15, 69, 15)));
    let outside = |pos: BlockPos| pos == BlockPos::new(16, 64, 10);
    assert_eq!(find_nearby_flower(origin, outside), None);
}

#[test]
fn eight_hives_are_compared() {
    let origin = BlockPos::new(0, 0, 0);
    let in_a_row = |pos: BlockPos| pos.y == 0 && pos.z == 0;
    let hives = find_nearby_hives_with_space(origin, in_a_row);
    assert_eq!(hives.len(), 8);
    assert_eq!(hives[0], BlockPos::new(-13, 0, 0));
    assert_eq!(hives[7], BlockPos::new(-20, 0, 0));
}

#[test]
fn hives_are_sorted_by_distance() {
    let origin = BlockPos::new(0, 0, 0);
    let list = vec![BlockPos::new(3, 0, 0), BlockPos::new(0, 1, 0), BlockPos::new(0, 0, -2)];
    assert_eq!(distance_squared(origin, BlockPos::new(3, 4, 12)), 169);
    assert_eq!(
        sort_by_distance(origin, &list),
        vec![BlockPos::new(0, 1, 0), BlockPos::new(0, 0, -2), BlockPos::new(3, 0, 0)]
    );
}

#[test]
fn young_bees_get_identifiers_of_their_own() {
    let mut bee = BeeEntity::new(0);
    bee.set_has_nectar(true, &mut Vec::new());
    let (first, young) = bee.create_offspring();
    let (second, _) = bee.create_offspring();
    assert_ne!(first, second);
    assert!(!young.has_nectar());
    assert_eq!(young.mob_entity.age, 0);
    assert_eq!((first >> 76) & 0xF, 4);
    assert_eq!((first >> 62) & 0x3, 2);
}

#[test]
fn goals_of_bees_that_travel_move_them() {
    assert_eq!(BeePollinateGoal::new().controls(), Controls::Move);
    assert_eq!(BeeGoToHiveGoal::new().controls(), Controls::Move);
    assert_eq!(BeeGoToKnownFlowerGoal::new().controls(), Controls::Move);
    assert_eq!(BeeGrowCropGoal.controls(), Controls::Nothing);
    assert!(BeePollinateGoal::new().should_run_every_tick());
    assert!(BeeGoToHiveGoal::new().should_run_every_tick());
    assert!(BeeGoToKnownFlowerGoal::new().should_run_every_tick());
    assert!(BeeGrowCropGoal.should_run_every_tick());
}
