use passive_mobs::effect::{Effect, Interaction, Sound, SyncedValue};
use passive_mobs::goal::EntityKind;
use passive_mobs::iron_golem::{golem_crackiness, Crackiness, IronGolemEntity};
use passive_mobs::item::{GameMode, Item, ItemStack, Player};
use passive_mobs::nbt::NbtCompound;
use passive_mobs::snow_golem::SnowGolemEntity;

fn crackiness(health: f32, max_health: f32) -> Crackiness {
    golem_crackiness(f64::from(health / max_health).to_bits())
}

#[test]
fn crackiness_tiers_match_golem_thresholds() {
    assert_eq!(crackiness(100.0, 100.0), Crackiness::Intact);
    assert_eq!(crackiness(75.0, 100.0), Crackiness::Intact);
    assert_eq!(crackiness(74.0, 100.0), Crackiness::Low);
    assert_eq!(crackiness(50.0, 100.0), Crackiness::Low);
    assert_eq!(crackiness(49.0, 100.0), Crackiness::Medium);
    assert_eq!(crackiness(25.0, 100.0), Crackiness::Medium);
    assert_eq!(crackiness(24.0, 100.0), Crackiness::High);
}

#[test]
fn a_golem_cracks_when_a_hit_changes_its_cracks() {
    let mut effects = Vec::new();
    let mut golem = IronGolemEntity::new(0);
    assert!(golem.pre_damage(80.0f32.to_bits()));
    assert_eq!(f32::from_bits(golem.health_before_damage), 80.0);
    golem.on_damage(0.8f64.to_bits(), 0.78f64.to_bits(), &mut effects);
    assert!(effects.is_empty());
    golem.on_damage(0.8f64.to_bits(), 0.7f64.to_bits(), &mut effects);
    assert_eq!(effects, vec![Effect::Play(Sound::IronGolemDamage)]);
}

#[test]
fn golems_spare_creepers_and_their_makers() {
    let mut effects = Vec::new();
    let mut golem = IronGolemEntity::new(0);
    assert!(!golem.can_attack(EntityKind::Creeper));
    assert!(golem.can_attack(EntityKind::Player));
    golem.set_player_created(true, &mut effects);
    assert!(!golem.can_attack(EntityKind::Player));
    assert_eq!(effects, vec![Effect::Sync(SyncedValue::IronGolemFlags(1))]);
    let mut nbt = NbtCompound::new();
    golem.write_nbt(&mut nbt);
    let mut other = IronGolemEntity::new(0);
    other.read_nbt(&nbt);
    assert!(other.is_player_created());
}

#[test]
fn an_ingot_mends_a_golem() {
    let mut effects = Vec::new();
    let golem = IronGolemEntity::new(0);
    let player = Player { id: 1, gamemode: GameMode::Survival, sneaking: false };
    let mut stack = ItemStack::new(2, Item::IronIngot);
    let outcome = golem.mob_interact(false, true, &player, &mut stack, &mut effects);
    assert_eq!(outcome, Interaction::Handled);
    assert!(effects.contains(&Effect::Heal(25)));
    assert_eq!(stack.count, 1);
}

#[test]
fn a_golem_hits_with_a_bonus_below_its_whole_damage() {
    let golem = IronGolemEntity::new(0);
    for _ in 0..200 {
        let bonus = golem.draw_attack_bonus(15);
        assert!((0..15).contains(&bonus));
    }
    assert_eq!(golem.draw_attack_bonus(0), 0);
}

#[test]
fn a_snow_golem_takes_its_pumpkin_off() {
    let mut effects = Vec::new();
    let mut golem = SnowGolemEntity::new(0);
    assert!(golem.has_pumpkin());
    golem.set_pumpkin(false, &mut effects);
    assert!(!golem.has_pumpkin());
    assert_eq!(effects, vec![Effect::Sync(SyncedValue::SnowGolemPumpkin(0))]);
    assert!(golem.mob_is_sensitive_to_water());
}
