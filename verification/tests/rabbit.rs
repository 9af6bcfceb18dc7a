use passive_mobs::effect::{Effect, MobName};
use passive_mobs::item::{Item, ItemStack};
use passive_mobs::nbt::NbtCompound;
use passive_mobs::rabbit::{
    decay_more_carrot_ticks, get_random_rabbit_variant, kit_variant, landing_delay_for_speed,
    rabbit_variant_for_draw, KitDraws, RabbitEntity, RabbitTick, RabbitVariant, FLEE_SPEED,
};

#[test]
fn landing_delay_is_ten_when_slow_and_one_at_flee_speed() {
    assert_eq!(landing_delay_for_speed(0.0f64.to_bits()), 10);
    assert_eq!(landing_delay_for_speed(0.6f64.to_bits()), 10);
    assert_eq!(landing_delay_for_speed(1.0f64.to_bits()), 10);
    assert_eq!(landing_delay_for_speed(2.2f64.to_bits()), 1);
    assert_eq!(landing_delay_for_speed(3.0f64.to_bits()), 1);
    assert_eq!(f64::from_bits(FLEE_SPEED), 2.2);
}

#[test]
fn more_carrot_ticks_decay_floors_at_zero_and_ignores_non_positive() {
    assert_eq!(decay_more_carrot_ticks(40, 2), 38);
    assert_eq!(decay_more_carrot_ticks(40, 0), 40);
    assert_eq!(decay_more_carrot_ticks(1, 2), 0);
    assert_eq!(decay_more_carrot_ticks(0, 2), 0);
}

#[test]
fn a_negative_roll_lengthens_the_carrot_delay() {
    assert_eq!(decay_more_carrot_ticks(40, -2), 42);
    assert_eq!(decay_more_carrot_ticks(0, i32::MIN), 0);
    assert_eq!(decay_more_carrot_ticks(-5, -2), -5);
}

#[test]
fn full_carrot_delay_takes_at_least_twenty_ticks_to_expire() {
    let mut ticks = 40;
    let mut elapsed = 0;
    while ticks > 0 {
        ticks = decay_more_carrot_ticks(ticks, 2);
        elapsed += 1;
    }
    assert_eq!(elapsed, 20);
}

#[test]
fn coats_of_rabbits_have_numbers() {
    for variant in [
        RabbitVariant::Brown,
        RabbitVariant::White,
        RabbitVariant::Black,
        RabbitVariant::WhiteSplotched,
        RabbitVariant::Gold,
        RabbitVariant::Salt,
        RabbitVariant::Evil,
    ] {
        assert_eq!(RabbitVariant::from(variant.id()), variant);
    }
    assert_eq!(RabbitVariant::Evil.id(), 99);
    assert_eq!(RabbitVariant::from(50), RabbitVariant::Brown);
}

#[test]
fn rabbits_match_the_ground() {
    assert_eq!(rabbit_variant_for_draw(true, false, 79), RabbitVariant::White);
    assert_eq!(rabbit_variant_for_draw(true, false, 80), RabbitVariant::WhiteSplotched);
    assert_eq!(rabbit_variant_for_draw(false, true, 99), RabbitVariant::Gold);
    assert_eq!(rabbit_variant_for_draw(false, false, 49), RabbitVariant::Brown);
    assert_eq!(rabbit_variant_for_draw(false, false, 90), RabbitVariant::Black);
    for _ in 0..300 {
        assert_ne!(get_random_rabbit_variant(false, false), RabbitVariant::Evil);
    }
}

#[test]
fn a_kit_has_the_coat_of_a_parent_but_for_one_in_twenty() {
    let draws = KitDraws { odd: 1, from_first: false, coat: 0 };
    assert_eq!(
        kit_variant(RabbitVariant::Gold, Some(RabbitVariant::Salt), false, false, &draws),
        RabbitVariant::Salt
    );
    let draws = KitDraws { odd: 1, from_first: true, coat: 0 };
    assert_eq!(
        kit_variant(RabbitVariant::Gold, Some(RabbitVariant::Salt), false, false, &draws),
        RabbitVariant::Gold
    );
    let draws = KitDraws { odd: 0, from_first: true, coat: 0 };
    assert_eq!(
        kit_variant(RabbitVariant::Gold, Some(RabbitVariant::Salt), false, false, &draws),
        RabbitVariant::Brown
    );
}

#[test]
fn an_evil_rabbit_hunts_and_gets_its_goals_once() {
    let mut effects = Vec::new();
    let mut rabbit = RabbitEntity::new(0);
    let goals = rabbit.mob_entity.goals.len();
    rabbit.set_variant(RabbitVariant::Evil, false, &mut effects);
    assert!(effects.contains(&Effect::SetName(MobName::KillerBunny)));
    assert!(rabbit.mob_entity.goals.len() > goals);
    let hunting = rabbit.mob_entity.goals.len();
    let targets = rabbit.mob_entity.targets.len();
    rabbit.set_variant(RabbitVariant::Evil, true, &mut effects);
    assert_eq!(rabbit.mob_entity.goals.len(), hunting);
    assert_eq!(rabbit.mob_entity.targets.len(), targets);
}

#[test]
fn a_saved_rabbit_comes_back() {
    let mut effects = Vec::new();
    let mut rabbit = RabbitEntity::new(0);
    rabbit.set_variant(RabbitVariant::Salt, true, &mut effects);
    rabbit.set_more_carrot_delay();
    let mut nbt = NbtCompound::new();
    rabbit.write_nbt(&mut nbt);
    let mut other = RabbitEntity::new(0);
    other.read_nbt(&nbt);
    assert_eq!(other.get_variant(), RabbitVariant::Salt);
    assert_eq!(other.more_carrot_ticks, 40);
    assert!(!other.wants_more_food());
}

#[test]
fn a_rabbit_rests_after_it_landed() {
    let mut effects = Vec::new();
    let mut rabbit = RabbitEntity::new(0);
    let landed =
        RabbitTick { on_ground: true, speed: 1.0f64.to_bits(), idle: false, target: None };
    rabbit.tick_with_draw(&RabbitTick { on_ground: false, ..landed }, 0, &mut effects);
    effects.clear();
    rabbit.tick_with_draw(&landed, 0, &mut effects);
    assert_eq!(rabbit.jump_delay_ticks, 10);
    assert!(!rabbit.jumping);
    rabbit.tick_with_draw(&landed, 0, &mut effects);
    assert_eq!(rabbit.jump_delay_ticks, 9);
    let mut killer = RabbitEntity::new(0);
    killer.set_variant(RabbitVariant::Evil, true, &mut effects);
    let near = RabbitTick { idle: true, target: Some(15.0f64.to_bits()), ..landed };
    killer.tick_with_draw(&near, 0, &mut effects);
    assert!(killer.jumping);
    assert!(rabbit.is_food(&ItemStack::new(1, Item::Dandelion)));
}
