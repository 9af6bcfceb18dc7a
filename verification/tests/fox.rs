use passive_mobs::effect::{Effect, Interaction};
use passive_mobs::fox::{
    fill_trust_slot, FoxEntity, FoxTick, FoxVariant, NearbyPlayer, FLAG_POUNCING,
};
use passive_mobs::item::{GameMode, Item, ItemStack, Player};
use passive_mobs::nbt::NbtCompound;
use uuid::Uuid;

#[test]
fn fills_first_empty_slot() {
    let a = Uuid::new_v4().as_u128();
    assert_eq!(fill_trust_slot([None, None], a), [Some(a), None]);
}

#[test]
fn fills_second_slot_once_first_is_taken() {
    let a = Uuid::new_v4().as_u128();
    let b = Uuid::new_v4().as_u128();
    assert_eq!(fill_trust_slot([Some(a), None], b), [Some(a), Some(b)]);
}

#[test]
fn third_trust_is_dropped_once_both_slots_are_full() {
    let a = Uuid::new_v4().as_u128();
    let b = Uuid::new_v4().as_u128();
    let c = Uuid::new_v4().as_u128();
    assert_eq!(fill_trust_slot([Some(a), Some(b)], c), [Some(a), Some(b)]);
}

#[test]
fn coats_of_foxes_have_numbers_and_names() {
    for variant in [FoxVariant::Red, FoxVariant::Snow] {
        assert_eq!(FoxVariant::from_id(variant.id()), variant);
        assert_eq!(FoxVariant::from_name(variant.name()), variant);
    }
    assert_eq!(FoxVariant::from_name("blue"), FoxVariant::Red);
}

#[test]
fn a_fox_flees_from_strangers_only() {
    let mut fox = FoxEntity::new(0);
    let stranger = NearbyPlayer { id: 4, sneaking: false, creative: false, spectator: false };
    assert!(fox.avoids_player(&stranger));
    assert!(!fox.avoids_player(&NearbyPlayer { sneaking: true, ..stranger }));
    assert!(!fox.avoids_player(&NearbyPlayer { spectator: true, ..stranger }));
    fox.add_trusted_entity(4);
    assert!(!fox.avoids_player(&stranger));
    assert_eq!(fox.trusted_uuids(), vec![4]);
    fox.clear_trusted();
    assert!(!fox.trusts(4));
}

#[test]
fn a_fox_forgets_all_but_its_pounce() {
    let mut effects = Vec::new();
    let mut fox = FoxEntity::new(0);
    fox.set_sitting(true, &mut effects);
    fox.set_is_crouching(true, &mut effects);
    fox.set_is_pouncing(true, &mut effects);
    fox.set_sleeping(true, &mut effects);
    fox.set_faceplanted(true, &mut effects);
    fox.clear_states(&mut effects);
    assert_eq!(fox.flags, FLAG_POUNCING);
    assert!(fox.is_pouncing());
}

#[test]
fn water_wakes_a_fox() {
    let mut effects = Vec::new();
    let mut fox = FoxEntity::new(0);
    fox.set_sleeping(true, &mut effects);
    let seen = FoxTick { has_target: false, target_alive: false, in_water: true, thundering: false };
    fox.mob_tick(&seen, &mut effects);
    assert!(!fox.is_sleeping());
}

#[test]
fn a_saved_fox_comes_back() {
    let mut effects = Vec::new();
    let mut fox = FoxEntity::new(0);
    fox.set_variant(FoxVariant::Snow, &mut effects);
    fox.set_sleeping(true, &mut effects);
    fox.add_trusted_entity(11);
    fox.add_trusted_entity(12);
    let mut nbt = NbtCompound::new();
    fox.write_nbt(&mut nbt);
    let mut other = FoxEntity::new(0);
    other.read_nbt(&nbt, &mut effects);
    assert_eq!(other.variant(), FoxVariant::Snow);
    assert!(other.is_sleeping());
    assert_eq!(other.trusted_uuids(), vec![11, 12]);
}

#[test]
fn a_kit_trusts_those_who_bred_its_parents() {
    let mut effects = Vec::new();
    let mut mother = FoxEntity::new(0);
    mother.set_variant(FoxVariant::Snow, &mut effects);
    mother.mob_entity.breeder = Some(21);
    let mut kit = FoxEntity::new(-24000);
    kit.inherit(&mother, Some(FoxVariant::Red), Some(22), true, &mut effects);
    assert_eq!(kit.variant(), FoxVariant::Snow);
    assert_eq!(kit.trusted_uuids(), vec![21, 22]);
    let mut coats = [0, 0];
    for _ in 0..200 {
        let mut kit = FoxEntity::new(-24000);
        kit.create_offspring(&mother, Some(FoxVariant::Red), Some(22), &mut effects);
        coats[kit.variant().id() as usize] += 1;
    }
    assert!(coats[0] > 0 && coats[1] > 0);
}

#[test]
fn a_fox_eats_berries() {
    let mut effects: Vec<Effect> = Vec::new();
    let mut fox = FoxEntity::new(0);
    let player = Player { id: 1, gamemode: GameMode::Survival, sneaking: false };
    let mut stack = ItemStack::new(2, Item::SweetBerries);
    assert!(fox.is_food(&stack));
    let outcome = fox.mob_interact(true, &player, &mut stack, &mut effects);
    assert_eq!(outcome, Interaction::Handled);
    assert_eq!(stack.count, 1);
    assert_eq!(fox.mob_entity.love_ticks, 600);
    assert_eq!(fox.baby_dimensions().eye_height, 34375);
}
