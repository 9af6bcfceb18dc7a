use passive_mobs::camel::{CamelContext, CamelEntity, CamelTick};
use passive_mobs::donkey::DonkeyEntity;
use passive_mobs::effect::{Attribute, Effect, EquipmentSlot, Interaction, Sound};
use passive_mobs::equine::{
    generate_max_health, is_valid_body_armor_item, is_valid_saddle_item, max_health_from_rolls,
    meal_of, saddle_sound, set_max_health, AbstractHorseData, ChestedHorseData, Equippable,
    HorseAttributes, HorseContext, HorseRules, ParentAttributes, Wearers, FLAG_BRED, FLAG_EATING, FLAG_STANDING, MIN_HEALTH,
    MIN_JUMP_STRENGTH, MIN_MOVEMENT_SPEED,
};
use passive_mobs::goal::EntityKind;
use passive_mobs::horse::{is_compatible_mate, FoalDraws, HorseEntity};
use passive_mobs::item::{GameMode, Item, ItemStack, Player};
use passive_mobs::llama::{
    llama_data_of, set_random_strength, strength_bound, AnyMob, CriaDraws, LlamaData, LlamaEntity,
};
use passive_mobs::mob::MobEntity;
use passive_mobs::mule::MuleEntity;
use passive_mobs::nbt::NbtCompound;
use passive_mobs::skeleton_horse::SkeletonHorseEntity;

fn player() -> Player {
    Player { id: 3, gamemode: GameMode::Survival, sneaking: false }
}

fn default_attributes() -> HorseAttributes {
    HorseAttributes {
        max_health: Some(20.0f64.to_bits()),
        speed: Some(0.175f64.to_bits()),
        jump_strength: Some(0.5f64.to_bits()),
    }
}

fn calm() -> HorseContext {
    HorseContext {
        is_vehicle: false,
        alive: true,
        food: false,
        hurt: false,
        fits_body_armor: false,
        body_armor_empty: true,
        fits_saddle: false,
        wears_saddle: false,
    }
}

#[test]
fn generate_max_health_stays_within_vanilla_bounds() {
    for _ in 0..1000 {
        let health = generate_max_health();
        assert!((15..=30).contains(&health), "{health} out of range");
    }
}

#[test]
fn health_is_fifteen_and_two_draws() {
    assert_eq!(max_health_from_rolls(0, 0), 15);
    assert_eq!(max_health_from_rolls(7, 8), 30);
}

#[test]
fn set_random_strength_stays_within_vanilla_bounds() {
    let mut data = LlamaData::default();
    let mut saw_five = false;
    for _ in 0..5000 {
        set_random_strength(&mut data);
        let strength = data.strength;
        assert!((1..=5).contains(&strength), "{strength} out of range");
        if strength == 5 {
            saw_five = true;
        }
    }
    assert!(saw_five, "never rolled the rare 1-5 branch in 5000 tries");
}

#[test]
fn horse_meals_are_known() {
    let apple = meal_of(Item::GoldenApple).expect("horses eat golden apples");
    assert_eq!((apple.heal, apple.age_up_seconds, apple.temper), (10, 240, 10));
    assert!(apple.golden);
    assert!(meal_of(Item::Bamboo).is_none());
}

#[test]
fn temper_is_kept_between_its_bounds() {
    let rules = HorseRules::base();
    let mut data = AbstractHorseData::default();
    assert_eq!(data.modify_temper(&rules, 250), 100);
    assert_eq!(data.modify_temper(&rules, -30), 70);
    assert_eq!(data.modify_temper(&rules, -300), 0);
    assert_eq!(data.get_temper(), 0);
}

#[test]
fn a_meal_raises_the_temper_of_a_wild_horse() {
    let rules = HorseRules::base();
    let mut data = AbstractHorseData::default();
    let mut mob = MobEntity::new(0);
    let mut effects = Vec::new();
    assert!(data.handle_eating(&mut mob, &rules, Item::Sugar, 3, false, &mut effects));
    assert_eq!(data.get_temper(), 3);
    assert!(!data.handle_eating(&mut mob, &rules, Item::Bamboo, 3, false, &mut effects));
}

#[test]
fn a_content_horse_refuses_plain_food_but_not_gold() {
    let rules = HorseRules::base();
    let mut data = AbstractHorseData::default();
    data.modify_temper(&rules, 100);
    let mut mob = MobEntity::new(0);
    mob.set_owner(3);
    let mut effects = Vec::new();
    assert!(!data.handle_eating(&mut mob, &rules, Item::Wheat, 3, false, &mut effects));
    assert!(data.handle_eating(&mut mob, &rules, Item::GoldenCarrot, 3, false, &mut effects));
    assert!(mob.is_in_love());
    assert_eq!(mob.love_ticks, 600);
}

#[test]
fn a_rearing_horse_comes_down() {
    let rules = HorseRules::base();
    let mut data = AbstractHorseData::default();
    data.stand_if_possible(&rules);
    assert!(data.get_flag(FLAG_STANDING));
    for _ in 0..20 {
        data.tick_with_draw(&rules, false, false, 1);
    }
    assert!(!data.get_flag(FLAG_STANDING));
}

#[test]
fn a_horse_grazes_now_and_then() {
    let rules = HorseRules::base();
    let mut data = AbstractHorseData::default();
    data.tick_with_draw(&rules, false, false, 0);
    assert!(!data.get_flag(FLAG_EATING));
    data.tick_with_draw(&rules, false, true, 0);
    assert!(data.get_flag(FLAG_EATING));
    let mut grazed = false;
    for _ in 0..20000 {
        let mut data = AbstractHorseData::default();
        data.tick_horse_ai(&rules, false, true);
        grazed = grazed || data.get_flag(FLAG_EATING);
    }
    assert!(grazed);
}

#[test]
fn saddles_and_armour_fit_those_they_are_made_for() {
    let saddle = Equippable {
        slot: EquipmentSlot::Saddle,
        equip_on_interact: true,
        wearers: Wearers::Kinds(vec![EntityKind::Horse, EntityKind::Mule]),
    };
    assert!(is_valid_saddle_item(Some(&saddle), EntityKind::Horse));
    assert!(!is_valid_saddle_item(Some(&saddle), EntityKind::Llama));
    assert!(!is_valid_body_armor_item(Some(&saddle), EntityKind::Horse));
    assert!(!is_valid_saddle_item(None, EntityKind::Horse));
    assert_eq!(saddle_sound(), Sound::HorseSaddle);
}

#[test]
fn a_foal_takes_after_its_parents() {
    let first = HorseEntity::with_looks(0, default_attributes(), 1, 2);
    let second = HorseEntity::with_looks(0, default_attributes(), 4, 3);
    let mut foal = HorseEntity::with_looks(-24000, default_attributes(), 0, 0);
    let draws = FoalDraws { coat_from: 8, new_coat: 6, markings_from: 3, new_markings: 0 };
    foal.inherit(&first, &second, &draws);
    assert_eq!((foal.variant(), foal.markings()), (6, 3));
    for _ in 0..200 {
        let mut effects = Vec::new();
        let own = ParentAttributes { max_health: 1, jump_strength: 2, speed: 3 };
        foal.create_offspring(&first, Some(&second), &own, None, &mut effects);
        assert!(foal.variant() < 7 && foal.markings() < 5);
        assert_eq!(effects.len(), 3);
        assert_eq!(
            effects[1],
            Effect::InheritAttribute {
                attribute: Attribute::JumpStrength,
                first: 2,
                second: MIN_JUMP_STRENGTH,
                low: 0.4f64.to_bits(),
                high: 1.0f64.to_bits(),
            }
        );
    }
}

#[test]
fn the_bounds_of_horses_are_what_they_say() {
    assert_eq!(f64::from_bits(MIN_HEALTH), 15.0);
    assert_eq!(f64::from_bits(passive_mobs::equine::MAX_HEALTH), 30.0);
    assert_eq!(f64::from_bits(MIN_MOVEMENT_SPEED), 0.1125);
    assert_eq!(f64::from_bits(passive_mobs::equine::MAX_MOVEMENT_SPEED), 0.3375);
}

#[test]
fn horses_breed_with_horses_and_donkeys() {
    assert!(is_compatible_mate(EntityKind::Horse));
    assert!(is_compatible_mate(EntityKind::Donkey));
    assert!(!is_compatible_mate(EntityKind::Mule));
}

#[test]
fn a_saved_horse_comes_back() {
    let mut effects = Vec::new();
    let mut horse = HorseEntity::with_looks(0, default_attributes(), 5, 4);
    horse.horse_data.modify_temper(&HorseEntity::rules(), 42);
    horse.horse_data.set_flag(FLAG_BRED, true);
    let mut nbt = NbtCompound::new();
    horse.write_nbt(&mut nbt);
    let mut other = HorseEntity::new(0, default_attributes(), &mut Vec::new());
    other.read_nbt(&nbt, &mut effects);
    assert_eq!((other.variant(), other.markings()), (5, 4));
    assert_eq!(other.horse_data.get_temper(), 42);
    assert!(other.horse_data.is_bred());
}

#[test]
fn a_tame_horse_is_saddled_and_mounted() {
    let mut effects = Vec::new();
    let mut horse = HorseEntity::new(0, default_attributes(), &mut Vec::new());
    horse.mob_entity.set_owner(3);
    let mut stack = ItemStack::new(1, Item::Other(9));
    let mut cx = calm();
    cx.fits_saddle = true;
    let outcome = horse.mob_interact(&cx, &player(), &mut stack, &mut effects);
    assert_eq!(outcome, Interaction::Handled);
    assert!(effects.contains(&Effect::Equip {
        slot: EquipmentSlot::Saddle,
        stack: ItemStack::new(1, Item::Other(9)),
    }));
    assert_eq!(stack.count, 0);
    let mut effects = Vec::new();
    let mut hand = ItemStack::empty();
    let outcome = horse.mob_interact(&calm(), &player(), &mut hand, &mut effects);
    assert_eq!(outcome, Interaction::Handled);
    assert!(effects.contains(&Effect::Mount { player: 3 }));
}

#[test]
fn a_donkey_keeps_its_chest() {
    let mut effects = Vec::new();
    let mut donkey = DonkeyEntity::new(0, default_attributes(), &mut Vec::new());
    donkey.mob_entity.set_owner(3);
    let mut stack = ItemStack::new(1, Item::Chest);
    donkey.mob_interact(&calm(), &player(), &mut stack, &mut effects);
    assert!(donkey.chested_data.has_chest());
    assert!(effects.contains(&Effect::Play(Sound::DonkeyChest)));
    let mut nbt = NbtCompound::new();
    donkey.write_nbt(&mut nbt);
    let mut other = DonkeyEntity::new(0, default_attributes(), &mut Vec::new());
    other.read_nbt(&nbt, &mut effects);
    assert!(other.chested_data.has_chest());
    effects.clear();
    let own = ParentAttributes { max_health: 1, jump_strength: 2, speed: 3 };
    let (_, foal) = DonkeyEntity::create_offspring(default_attributes(), &own, Some(&own), &mut effects);
    assert_eq!(effects.len(), 5);
    assert_eq!(foal.horse_data.attributes.speed, default_attributes().speed);
    assert!(!foal.chested_data.has_chest());
    assert_eq!(foal.horse_data.get_temper(), 0);
}

#[test]
fn a_mule_keeps_its_temper() {
    let mut effects = Vec::new();
    let mut mule = MuleEntity::new(0, default_attributes(), &mut Vec::new());
    mule.horse_data.modify_temper(&MuleEntity::rules(), 12);
    let mut nbt = NbtCompound::new();
    mule.write_nbt(&mut nbt);
    let mut other = MuleEntity::new(0, default_attributes(), &mut Vec::new());
    other.read_nbt(&nbt, &mut effects);
    assert_eq!(other.horse_data.get_temper(), 12);
    assert!(!other.chested_data.has_chest());
}

#[test]
fn slots_that_both_sizes_have_survive() {
    let mut chest = ChestedHorseData::default();
    chest.set_chest_of(true, 5);
    let size = chest.inventory.len();
    chest.inventory[0] = ItemStack::new(3, Item::Wheat);
    chest.set_chest_of(true, 5);
    assert_eq!(chest.inventory.len(), size);
    assert_eq!(chest.inventory[0], ItemStack::new(3, Item::Wheat));
    chest.set_chest_of(false, 5);
    chest.set_chest_of(true, 5);
    assert!(chest.inventory[0].is_empty());
}

#[test]
fn a_young_llama_is_hardly_stronger_than_its_parents() {
    let mut first = LlamaData::default();
    first.strength = 3;
    first.variant = 1;
    let mut second = LlamaData::default();
    second.strength = 5;
    second.variant = 2;
    let mut cria = LlamaData::default();
    let draws = CriaDraws { strength: 4, bonus: true, first_coat: false };
    cria.inherit(&first, &second, &draws);
    assert_eq!((cria.strength, cria.variant), (5, 2));
    let mut llama = LlamaEntity::new(-1, default_attributes(), &mut Vec::new());
    let own = ParentAttributes { max_health: 1, jump_strength: 2, speed: 3 };
    let mut effects = Vec::new();
    for _ in 0..100 {
        llama.create_llama_offspring(&first, Some(&second), &own, &own, &mut effects);
        assert!((1..=5).contains(&llama.llama_data.strength));
        assert!(llama.llama_data.variant == 1 || llama.llama_data.variant == 2);
    }
    assert_eq!(effects.len(), 100);
    let before = llama.llama_data;
    llama.create_llama_offspring(&first, None, &own, &own, &mut effects);
    assert_eq!(llama.llama_data, before);
    assert_eq!(effects.len(), 100);
}

#[test]
fn a_saved_llama_comes_back_valid() {
    let mut effects = Vec::new();
    let mut llama = LlamaEntity::new(0, default_attributes(), &mut Vec::new());
    llama.llama_data.strength = 4;
    llama.llama_data.variant = 3;
    let mut nbt = NbtCompound::new();
    llama.write_nbt(&mut nbt);
    let mut other = LlamaEntity::new(0, default_attributes(), &mut Vec::new());
    other.read_nbt(&nbt, &mut effects);
    assert_eq!((other.llama_data.strength, other.llama_data.variant), (4, 3));
    let mut broken = NbtCompound::new();
    broken.put_int("Strength", 99);
    broken.put_int("Variant", 99);
    other.read_nbt(&broken, &mut effects);
    assert!((1..=5).contains(&other.llama_data.strength));
    assert!(other.llama_data.variant < 4);
}

#[test]
fn only_llamas_have_llama_data() {
    assert!(llama_data_of(&AnyMob::Llama(LlamaEntity::new(0, default_attributes(), &mut Vec::new()))).is_some());
    assert!(llama_data_of(&AnyMob::TraderLlama(LlamaData::default())).is_some());
    assert!(llama_data_of(&AnyMob::Other).is_none());
}

#[test]
fn a_trap_waits_fifteen_minutes() {
    let mut effects = Vec::new();
    let mut horse = SkeletonHorseEntity::new(0, default_attributes(), &mut Vec::new());
    horse.set_trap(true);
    for _ in 0..17999 {
        horse.mob_tick(&mut effects);
    }
    assert!(effects.is_empty());
    horse.mob_tick(&mut effects);
    assert_eq!(effects, vec![Effect::Remove]);
    let mut nbt = NbtCompound::new();
    horse.write_nbt(&mut nbt);
    let mut other = SkeletonHorseEntity::new(0, default_attributes(), &mut Vec::new());
    other.read_nbt(&nbt, &mut effects);
    assert!(other.is_trap());
    assert!(!other.can_age_up());
}

#[test]
fn a_camel_dashes_for_a_moment() {
    let mut effects = Vec::new();
    let mut camel = CamelEntity::new(0);
    camel.dash(&mut effects);
    assert!(camel.is_dashing());
    assert_eq!(camel.dash_cooldown, 55);
    let seen = CamelTick { on_ground: true, in_water: false, has_passengers: true };
    for _ in 0..6 {
        camel.mob_tick(&seen, &mut effects);
        assert!(camel.is_dashing());
    }
    camel.mob_tick(&seen, &mut effects);
    assert!(!camel.is_dashing());
}

#[test]
fn a_camel_carries_two() {
    let camel = CamelEntity::new(0);
    let mut cx =
        CamelContext { shared_handled: false, fits_saddle: false, wears_saddle: true, passengers: 1 };
    let mut effects = Vec::new();
    let mut hand = ItemStack::empty();
    camel.mob_interact(&cx, &player(), &mut hand, &mut effects);
    assert!(effects.contains(&Effect::Mount { player: 3 }));
    cx.passengers = 2;
    effects.clear();
    camel.mob_interact(&cx, &player(), &mut hand, &mut effects);
    assert!(effects.is_empty());
}

fn health_of(effects: &[Effect]) -> Vec<u32> {
    effects
        .iter()
        .filter_map(|effect| match effect {
            Effect::SetMaxHealth(health) => Some(*health),
            _ => None,
        })
        .collect()
}

#[test]
fn new_equines_draw_what_they_are_capable_of() {
    for _ in 0..50 {
        let mut horse = Vec::new();
        assert_eq!(HorseEntity::new(0, default_attributes(), &mut horse).horse_data.get_temper(), 0);
        let mut donkey = Vec::new();
        DonkeyEntity::new(0, default_attributes(), &mut donkey);
        let mut mule = Vec::new();
        MuleEntity::new(0, default_attributes(), &mut mule);
        let mut llama = Vec::new();
        LlamaEntity::new(0, default_attributes(), &mut llama);
        for effects in [&horse, &donkey, &mule, &llama] {
            let drawn = health_of(effects);
            assert_eq!(drawn.len(), 1);
            assert!((15..=30).contains(&drawn[0]));
        }
        assert_eq!(
            horse[1..],
            [Effect::RollSpeed, Effect::RollJumpStrength, Effect::FillHealth]
        );
        assert_eq!(donkey[1..], [Effect::FillHealth]);
    }
    let mut bones = Vec::new();
    SkeletonHorseEntity::new(0, default_attributes(), &mut bones);
    assert_eq!(bones, vec![Effect::RollJumpStrength]);
}

#[test]
fn a_strong_llama_is_rare() {
    assert_eq!(strength_bound(true), 5);
    assert_eq!(strength_bound(false), 3);
}

#[test]
fn a_drawn_health_is_recorded_by_its_bits() {
    for health in 15..=30u32 {
        let mut data = AbstractHorseData::with_attributes(default_attributes());
        let mut effects = Vec::new();
        set_max_health(&mut data, health, &mut effects);
        assert_eq!(effects, vec![Effect::SetMaxHealth(health)]);
        assert_eq!(data.attributes.max_health, Some(f64::from(health).to_bits()));
        assert_eq!(data.attributes.speed, default_attributes().speed);
    }
}

#[test]
fn attributes_are_recorded_where_there_are_any() {
    let bits = 0.25f64.to_bits();
    let mut data = AbstractHorseData::with_attributes(default_attributes());
    data.record_attribute(Attribute::MovementSpeed, bits);
    data.record_attribute(Attribute::JumpStrength, bits + 1);
    assert_eq!(data.attributes.speed, Some(bits));
    assert_eq!(data.attributes.jump_strength, Some(bits + 1));
    assert_eq!(data.attributes.max_health, default_attributes().max_health);
    let mut bare = AbstractHorseData::default();
    bare.record_attribute(Attribute::MovementSpeed, bits);
    assert_eq!(bare.attributes.speed, None);
}

#[test]
fn a_load_overwrites_what_was_drawn() {
    let mut horse = HorseEntity::new(0, default_attributes(), &mut Vec::new());
    horse.horse_data.record_attribute(Attribute::MovementSpeed, 0.3f64.to_bits());
    horse.horse_data.record_attribute(Attribute::JumpStrength, 0.9f64.to_bits());
    let mut nbt = NbtCompound::new();
    horse.write_nbt(&mut nbt);
    assert_eq!(nbt.get_double("PumpkinHorseMaxHealth"), horse.horse_data.attributes.max_health);
    assert_eq!(nbt.get_double("PumpkinHorseSpeed"), Some(0.3f64.to_bits()));
    assert_eq!(nbt.get_double("PumpkinHorseJumpStrength"), Some(0.9f64.to_bits()));
    let mut other = HorseEntity::new(0, default_attributes(), &mut Vec::new());
    let mut effects = Vec::new();
    other.read_nbt(&nbt, &mut effects);
    assert_eq!(other.horse_data.attributes, horse.horse_data.attributes);
    assert!(effects.contains(&Effect::SetAttribute {
        attribute: Attribute::MovementSpeed,
        bits: 0.3f64.to_bits(),
    }));
    assert_eq!(effects.len(), 4);
    assert_eq!(effects[3], Effect::CapHealth);
}

#[test]
fn an_attribute_that_a_kind_lacks_is_neither_drawn_nor_restored() {
    let lame = HorseAttributes { jump_strength: None, ..default_attributes() };
    let mut effects = Vec::new();
    let mut horse = HorseEntity::new(0, lame, &mut effects);
    assert!(!effects.contains(&Effect::RollJumpStrength));
    let mut bones = Vec::new();
    SkeletonHorseEntity::new(0, lame, &mut bones);
    assert!(bones.is_empty());
    let mut nbt = NbtCompound::new();
    HorseEntity::new(0, default_attributes(), &mut Vec::new()).write_nbt(&mut nbt);
    effects.clear();
    horse.read_nbt(&nbt, &mut effects);
    assert_eq!(horse.horse_data.attributes.jump_strength, None);
    assert_eq!(effects.len(), 3);
}
