use passive_mobs::animal::{animal_interact, read_animal_nbt, write_animal_nbt, Feeding};
use passive_mobs::axolotl::{
    axolotl_attackable, AxolotlEntity, AxolotlVariant, AxolotlVictim,
};
use passive_mobs::chicken::ChickenEntity;
use passive_mobs::climate::{full_name, select_spawn_variant, COLD, TEMPERATE, WARM};
use passive_mobs::cow::CowEntity;
use passive_mobs::effect::{Effect, Ground, Interaction, Sound};
use passive_mobs::frog::{FrogEntity, FrogVariant};
use passive_mobs::goal::{Candidate, EntityKind, RiddenKinds, TargetRule};
use passive_mobs::goat::{goat_baby_dimensions, goat_landing_sound, goat_long_jump_sound, GoatDraws, GoatEntity};
use passive_mobs::item::{GameMode, Item, ItemStack, Player};
use passive_mobs::mob::MobEntity;
use passive_mobs::nbt::NbtCompound;
use passive_mobs::parrot::{ParrotEntity, COOKIE_POISON_DURATION};
use passive_mobs::pig::PigEntity;
use passive_mobs::polar_bear::PolarBearEntity;
use passive_mobs::position::BlockPos;
use passive_mobs::saddle::{Rider, SaddleContext};
use passive_mobs::sniffer::{
    sniffer_ignores_water_malus, sniffer_state_can_mate, SnifferEntity, SnifferState,
};
use passive_mobs::strider::StriderEntity;
use passive_mobs::tamable::{feed_healing_amount, tame_flags_byte, TamableData};

fn player() -> Player {
    Player { id: 2, gamemode: GameMode::Survival, sneaking: false }
}

#[test]
fn poison_lasts_45_seconds() {
    assert_eq!(COOKIE_POISON_DURATION, 900);
}

#[test]
fn tame_flag_bits() {
    assert_eq!(tame_flags_byte(false, false), 0x00);
    assert_eq!(tame_flags_byte(true, false), 0x01);
    assert_eq!(tame_flags_byte(false, true), 0x04);
    assert_eq!(tame_flags_byte(true, true), 0x05);
}

#[test]
fn feed_healing_uses_component_nutrition_or_default() {
    assert_eq!(f64::from(feed_healing_amount(Some(3), 2, 2)), 6.0);
    assert_eq!(f64::from(feed_healing_amount(None, 2, 2)), 2.0);
}

#[test]
fn sniffer_ignores_water_malus_only_when_burning_or_submerged() {
    assert!(sniffer_ignores_water_malus(1, false));
    assert!(sniffer_ignores_water_malus(0, true));
    assert!(sniffer_ignores_water_malus(1, true));
    assert!(!sniffer_ignores_water_malus(0, false));
}

#[test]
fn sniffer_can_mate_matches_vanilla_state_allowlist() {
    for state in [SnifferState::Idling, SnifferState::Scenting, SnifferState::FeelingHappy] {
        assert!(sniffer_state_can_mate(state));
    }
    for state in [
        SnifferState::Sniffing,
        SnifferState::Searching,
        SnifferState::Digging,
        SnifferState::Rising,
    ] {
        assert!(!sniffer_state_can_mate(state));
    }
}

#[test]
fn baby_dimensions_match_vanilla_constants() {
    let dimensions = goat_baby_dimensions();
    assert_eq!(f64::from(dimensions.width) / 100_000.0, 0.45);
    assert_eq!(f64::from(dimensions.height) / 100_000.0, 0.65);
    assert_eq!(f64::from(dimensions.eye_height) / 100_000.0, 0.59375);
}

fn feeding(food: bool) -> Feeding {
    Feeding { food, breeding_ready: true, can_age_up: true, sound: Sound::CowAmbient }
}

#[test]
fn a_meal_puts_an_animal_in_love_once() {
    let mut effects = Vec::new();
    let mut mob = MobEntity::new(0);
    let mut stack = ItemStack::new(3, Item::Wheat);
    let outcome = animal_interact(&mut mob, feeding(true), &player(), &mut stack, &mut effects);
    assert_eq!(outcome, Interaction::Handled);
    assert_eq!(mob.love_ticks, 600);
    assert_eq!(mob.breeder, Some(2));
    assert_eq!(stack.count, 2);
    let love = mob.love_ticks;
    animal_interact(&mut mob, feeding(true), &player(), &mut stack, &mut effects);
    assert_eq!(mob.love_ticks, love);
    let mut nbt = NbtCompound::new();
    write_animal_nbt(&mob, &mut nbt);
    let mut other = MobEntity::new(0);
    read_animal_nbt(&mut other, &nbt);
    assert_eq!(other.love_ticks, 600);
    assert_eq!(other.breeder, Some(2));
}

#[test]
fn a_meal_lets_a_baby_grow() {
    let mut effects = Vec::new();
    let mut mob = MobEntity::new(-24000);
    let mut stack = ItemStack::new(1, Item::Wheat);
    animal_interact(&mut mob, feeding(true), &player(), &mut stack, &mut effects);
    assert!(mob.age > -24000 && mob.age < 0);
    let mut stack = ItemStack::new(1, Item::Bamboo);
    let before = mob.age;
    let outcome = animal_interact(&mut mob, feeding(false), &player(), &mut stack, &mut effects);
    assert_eq!(outcome, Interaction::Shared);
    assert_eq!(mob.age, before);
}

#[test]
fn axolotls_have_five_colours() {
    for variant in [
        AxolotlVariant::Lucy,
        AxolotlVariant::Wild,
        AxolotlVariant::Gold,
        AxolotlVariant::Cyan,
        AxolotlVariant::Blue,
    ] {
        assert_eq!(AxolotlVariant::by_id(variant.id()), variant);
    }
    assert_eq!(AxolotlVariant::by_id(40), AxolotlVariant::Lucy);
    assert!(axolotl_attackable(true));
    for _ in 0..300 {
        assert_ne!(AxolotlEntity::new(0).variant(), AxolotlVariant::Blue);
    }
    let axolotl = AxolotlEntity::with_variant(0, AxolotlVariant::Blue);
    let mut nbt = NbtCompound::new();
    axolotl.write_nbt(&mut nbt);
    let mut other = AxolotlEntity::with_variant(0, AxolotlVariant::Lucy);
    other.read_nbt(&nbt);
    assert_eq!(other.variant(), AxolotlVariant::Blue);
}

#[test]
fn an_axolotl_thanks_the_player_who_helped() {
    let mut effects = Vec::new();
    AxolotlEntity::apply_supporting_effects(None, &mut effects);
    assert_eq!(effects, vec![Effect::GiveRegeneration(100), Effect::CureMiningFatigue]);
    effects.clear();
    AxolotlEntity::apply_supporting_effects(Some(2350), &mut effects);
    assert_eq!(effects[0], Effect::GiveRegeneration(2400));
    effects.clear();
    let axolotl = AxolotlEntity::with_variant(0, AxolotlVariant::Lucy);
    let victim = AxolotlVictim {
        living: true,
        alive: true,
        hit_by_player: true,
        distance_squared: 400.0f64.to_bits(),
        regeneration: None,
    };
    axolotl.on_successful_attack(&victim, &mut effects);
    assert!(effects.is_empty());
    axolotl.on_successful_attack(&AxolotlVictim { alive: false, ..victim }, &mut effects);
    assert_eq!(effects.len(), 2);
    effects.clear();
    let far = AxolotlVictim { alive: false, distance_squared: 401.0f64.to_bits(), ..victim };
    axolotl.on_successful_attack(&far, &mut effects);
    assert!(effects.is_empty());
}

#[test]
fn farm_animals_suit_their_climate() {
    assert_eq!(select_spawn_variant(true, false), WARM);
    assert_eq!(select_spawn_variant(true, true), WARM);
    assert_eq!(select_spawn_variant(false, true), COLD);
    assert_eq!(select_spawn_variant(false, false), TEMPERATE);
    assert_eq!(full_name(COLD), "minecraft:cold");
    assert_eq!(CowEntity::select_spawn_variant(false, true), COLD);
}

#[test]
fn a_chicken_lays_in_time() {
    let mut effects = Vec::new();
    let mut chicken = ChickenEntity::with_egg_time(0, 3);
    chicken.tick_with_draw(false, false, 6000, &mut effects);
    chicken.tick_with_draw(false, false, 6000, &mut effects);
    assert!(effects.is_empty());
    chicken.tick_with_draw(false, false, 6000, &mut effects);
    assert!(effects.contains(&Effect::Lay(ItemStack::new(1, Item::Egg))));
    assert_eq!(chicken.egg_lay_time, 6000);
    effects.clear();
    chicken.tick_with_draw(false, true, 6000, &mut effects);
    assert_eq!(effects, vec![Effect::GlideDown]);
    let fresh = ChickenEntity::new(0);
    assert!((6000..12000).contains(&fresh.egg_lay_time));
}

#[test]
fn saved_farm_animals_come_back() {
    let mut effects = Vec::new();
    let mut chicken = ChickenEntity::with_egg_time(0, 77);
    chicken.mob_init_data_tracker(true, false, &mut effects);
    let mut nbt = NbtCompound::new();
    chicken.write_nbt(&mut nbt);
    let mut other = ChickenEntity::new(0);
    other.read_nbt(&nbt);
    assert_eq!((other.variant, other.egg_lay_time), (WARM, 77));
    let mut cow = CowEntity::new(0);
    cow.set_variant(COLD, &mut effects);
    let mut nbt = NbtCompound::new();
    cow.write_nbt(&mut nbt);
    let mut other = CowEntity::new(0);
    other.read_nbt(&nbt);
    assert_eq!(other.get_variant(), COLD);
    let mut calf = CowEntity::new(-1);
    let mut bull = CowEntity::new(0);
    bull.set_variant(WARM, &mut effects);
    calf.inherit(&cow, Some(&bull), false);
    assert_eq!(calf.variant, WARM);
    calf.inherit(&cow, Some(&bull), true);
    assert_eq!(calf.variant, COLD);
}

#[test]
fn frogs_suit_their_climate_and_fall_softly() {
    let mut effects = Vec::new();
    for variant in [FrogVariant::Temperate, FrogVariant::Warm, FrogVariant::Cold] {
        assert_eq!(FrogVariant::from_id(variant.id()), variant);
        assert_eq!(FrogVariant::from_name(variant.as_str()), variant);
    }
    let mut frog = FrogEntity::new(0);
    frog.set_variant(FrogVariant::Cold, &mut effects);
    assert!(frog.create_offspring().is_none());
    frog.spawn_breeding_result();
    assert_eq!(frog.mob_calculate_fall_damage(7), 2);
    let mut nbt = NbtCompound::new();
    frog.write_nbt(&mut nbt);
    let mut other = FrogEntity::new(0);
    other.read_nbt(&nbt, &mut effects);
    assert_eq!(other.get_variant(), FrogVariant::Cold);
    assert!(other.is_pregnant());
}

#[test]
fn goats_inherit_their_voice() {
    let mut effects = Vec::new();
    let loud = GoatEntity::with_draws(0, &GoatDraws { screams: true, unihorn: false, lacks_left: false });
    let quiet = GoatEntity::with_draws(0, &GoatDraws { screams: false, unihorn: true, lacks_left: true });
    assert!(loud.is_screaming_goat() && loud.has_left_horn() && loud.has_right_horn());
    assert!(!quiet.has_left_horn() && quiet.has_right_horn());
    for _ in 0..50 {
        let mut kid = GoatEntity::new(-1);
        kid.create_offspring(&loud, Some(&loud), &mut effects);
        assert!(kid.is_screaming_goat());
    }
    let mut kid = GoatEntity::new(-1);
    kid.inherit(&quiet, Some(&quiet), true, false, &mut effects);
    assert!(!kid.is_screaming_goat());
    kid.inherit(&quiet, Some(&quiet), true, true, &mut effects);
    assert!(kid.is_screaming_goat());
    let mut nbt = NbtCompound::new();
    quiet.write_nbt(&mut nbt);
    let mut other = GoatEntity::new(0);
    other.read_nbt(&nbt);
    assert!(!other.has_left_horn() && other.has_right_horn());
    assert_eq!(quiet.mob_calculate_fall_damage(12), 2);
}

#[test]
fn milking_a_goat_fills_one_bucket() {
    let mut effects = Vec::new();
    let mut goat = GoatEntity::with_draws(0, &GoatDraws { screams: false, unihorn: false, lacks_left: false });
    let mut stack = ItemStack::new(1, Item::Bucket);
    goat.mob_interact(false, true, &player(), false, &mut stack, &mut effects);
    assert_eq!(stack, ItemStack::new(1, Item::MilkBucket));
    let mut stack = ItemStack::new(5, Item::Bucket);
    effects.clear();
    goat.mob_interact(false, true, &player(), false, &mut stack, &mut effects);
    assert_eq!(stack, ItemStack::new(4, Item::Bucket));
    assert!(effects.contains(&Effect::PutIntoInventory(ItemStack::new(1, Item::MilkBucket)))
        || effects.contains(&Effect::GiveToPlayer(ItemStack::new(1, Item::MilkBucket))));
}

#[test]
fn a_parrot_is_tamed_sits_and_dies_of_cookies() {
    let mut effects = Vec::new();
    let mut parrot = ParrotEntity::new(0);
    let mut stack = ItemStack::new(3, Item::WheatSeeds);
    parrot.interact_with_draw(false, true, true, &player(), 1, &mut stack, &mut effects);
    assert!(!parrot.mob_entity.is_tamed());
    parrot.interact_with_draw(false, true, true, &player(), 0, &mut stack, &mut effects);
    assert_eq!(parrot.mob_entity.owner, Some(2));
    assert_eq!(stack.count, 1);
    let mut hand = ItemStack::empty();
    parrot.mob_interact(false, false, true, &player(), &mut hand, &mut effects);
    assert!(parrot.mob_entity.ordered_to_sit);
    assert_eq!(parrot.tame_flags(), 5);
    let mut nbt = NbtCompound::new();
    parrot.write_nbt(&mut nbt);
    let mut other = ParrotEntity::new(0);
    other.read_nbt(&nbt);
    assert_eq!(other.mob_entity.owner, Some(2));
    let mut cookie = ItemStack::new(1, Item::Cookie);
    effects.clear();
    parrot.mob_interact(true, false, true, &player(), &mut cookie, &mut effects);
    assert!(effects.contains(&Effect::PoisonSelf(900)));
    assert!(effects.contains(&Effect::DieBy { player: 2 }));
    assert_eq!(cookie.count, 0);
}

#[test]
fn a_polar_bear_warns_now_and_then() {
    let mut effects = Vec::new();
    let mut bear = PolarBearEntity::new(0);
    bear.play_warning_sound(&mut effects);
    bear.play_warning_sound(&mut effects);
    assert_eq!(effects, vec![Effect::Play(Sound::PolarBearWarning)]);
    for _ in 0..40 {
        bear.mob_tick(None, false, &mut effects);
    }
    effects.clear();
    bear.play_warning_sound(&mut effects);
    assert_eq!(effects.len(), 1);
    assert!(bear.hunts_foxes());
    assert!(!PolarBearEntity::new(-1).hunts_foxes());
    assert!(PolarBearEntity::attacks_player(false, true));
}

fn saddled() -> SaddleContext {
    SaddleContext {
        alive: true,
        wears_saddle: true,
        slot_empty: false,
        fits_saddle: false,
        has_passengers: false,
        breeding_ready: true,
    }
}

#[test]
fn a_saddled_pig_is_steered_with_a_carrot() {
    let mut effects = Vec::new();
    let mut pig = PigEntity::new(0);
    let mut hand = ItemStack::empty();
    pig.mob_interact(&saddled(), &player(), &mut hand, &mut effects);
    assert!(effects.contains(&Effect::Mount { player: 2 }));
    let rider = Rider { main_hand: Item::Air, off_hand: Item::CarrotOnAStick };
    assert!(pig.has_controlling_passenger(&saddled(), Some(rider), false));
    let rider = Rider { main_hand: Item::WarpedFungusOnAStick, off_hand: Item::Air };
    assert!(!pig.has_controlling_passenger(&saddled(), Some(rider), false));
    let mut piglet = PigEntity::new(-1);
    effects.clear();
    piglet.mob_interact(&saddled(), &player(), &mut hand, &mut effects);
    assert!(!effects.contains(&Effect::Mount { player: 2 }));
}

#[test]
fn a_strider_keeps_its_saddle() {
    let mut strider = StriderEntity::new(0, &mut Vec::new());
    strider.set_saddled(true);
    let mut nbt = NbtCompound::new();
    strider.write_nbt(&mut nbt);
    let mut other = StriderEntity::new(0, &mut Vec::new());
    other.read_nbt(&nbt);
    assert!(other.is_saddled());
    assert!(strider.mob_is_sensitive_to_water());
    let rider = Rider { main_hand: Item::WarpedFungusOnAStick, off_hand: Item::Air };
    assert!(strider.has_controlling_passenger(&saddled(), Some(rider), false));
}

#[test]
fn a_sniffer_remembers_where_it_dug() {
    let mut effects = Vec::new();
    let mut sniffer = SnifferEntity::new(0, &mut Vec::new());
    for x in 0..30 {
        sniffer.store_explored_position(BlockPos::new(x, 0, 0));
    }
    assert!(sniffer.has_explored(BlockPos::new(29, 0, 0)));
    assert!(!sniffer.has_explored(BlockPos::new(0, 0, 0)));
    assert!(sniffer.explored_positions.len() <= 21);
    sniffer.transition_to(SnifferState::Digging, &mut effects);
    let mut nbt = NbtCompound::new();
    sniffer.write_nbt("minecraft:overworld", &mut nbt);
    let mut other = SnifferEntity::new(0, &mut Vec::new());
    other.read_nbt(&nbt);
    assert_eq!(other.get_state(), SnifferState::Digging);
    assert!(other.has_explored(BlockPos::new(29, 0, 0)));
    assert_eq!(sniffer.get_baby_start_age(), -48000);
    assert!(sniffer.create_offspring().is_none());
    for id in 0..7 {
        assert_eq!(SnifferState::from_id(id).id(), id);
    }
}

#[test]
fn tame_animals_come_back_tame() {
    let mut effects = Vec::new();
    let mut data = TamableData::default();
    data.tame(9, &mut effects);
    data.set_ordered_to_sit(true, &mut effects);
    assert!(data.is_owned_by(9) && !data.is_owned_by(8));
    let mut nbt = NbtCompound::new();
    data.write_tamable_nbt(&mut nbt);
    let mut other = TamableData::default();
    other.read_tamable_nbt(&nbt, &mut effects);
    assert_eq!(other, data);
}

#[test]
fn targets_are_picked_by_rule() {
    let candidate = Candidate {
        angry_at: false,
        angry_at_all_players: false,
        mob_is_baby: false,
        age: -1,
        in_water: false,
        tamed: true,
    };
    assert!(TargetRule::AngryAt.admits(&Candidate { angry_at_all_players: true, ..candidate }));
    assert!(!TargetRule::AngryAt.admits(&candidate));
    assert!(TargetRule::MobIsAdult.admits(&candidate));
    assert!(TargetRule::BabyTurtleOnLand.admits(&candidate));
    assert!(!TargetRule::BabyTurtleOnLand.admits(&Candidate { in_water: true, ..candidate }));
    assert!(!TargetRule::UntamedWolf.admits(&candidate));
    assert!(RiddenKinds::Nautiluses.contains(EntityKind::ZombieNautilus));
    assert!(!RiddenKinds::Boats.contains(EntityKind::Nautilus));
}

#[test]
fn new_animals_choose_their_ground() {
    let mut effects = Vec::new();
    SnifferEntity::new(0, &mut effects);
    assert_eq!(
        effects,
        vec![
            Effect::FloatOnPaths,
            Effect::AvoidGround(Ground::Water),
            Effect::AvoidGround(Ground::PowderSnow),
            Effect::AvoidGround(Ground::NearDamage),
        ]
    );
    effects.clear();
    StriderEntity::new(0, &mut effects);
    assert_eq!(
        effects,
        vec![
            Effect::AvoidGround(Ground::Water),
            Effect::AllowGround(Ground::Lava),
            Effect::AllowGround(Ground::NearFire),
            Effect::AllowGround(Ground::Fire),
        ]
    );
}

#[test]
fn a_goat_is_heard_when_it_jumps_and_when_it_lands() {
    let draws = GoatDraws { screams: true, unihorn: false, lacks_left: false };
    let loud = GoatEntity::with_draws(0, &draws);
    assert_eq!(goat_long_jump_sound(Some(&loud)), Sound::GoatScreamingLongJump);
    assert_eq!(goat_long_jump_sound(None), Sound::GoatLongJump);
    assert_eq!(goat_landing_sound(), Sound::GoatStep);
}

#[test]
fn an_animal_that_is_not_fed_may_have_any_age() {
    let player = Player { id: 2, gamemode: GameMode::Survival, sneaking: false };
    let mut cow = CowEntity::new(i32::MIN);
    let mut stack = ItemStack::new(1, Item::Chest);
    let mut effects = Vec::new();
    let outcome = cow.mob_interact(false, true, &player, &mut stack, &mut effects);
    assert_eq!(outcome, Interaction::Shared);
    assert_eq!(cow.mob_entity.age, i32::MIN);
}
