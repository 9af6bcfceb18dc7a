use passive_mobs::cod::CodEntity;
use passive_mobs::dolphin::{DolphinEntity, DolphinTick};
use passive_mobs::effect::{Effect, Interaction, Particle, Sound, SyncedValue};
use passive_mobs::glow_squid::GlowSquidEntity;
use passive_mobs::goal::Goal;
use passive_mobs::item::{GameMode, Item, ItemStack, Player};
use passive_mobs::nautilus::NautilusEntity;
use passive_mobs::nbt::NbtCompound;
use passive_mobs::pufferfish::{
    advance_puff_state, is_scary, sting_damage, sting_poison_duration, NearbyEntity,
    PufferfishEntity,
};
use passive_mobs::salmon::{SalmonEntity, SalmonVariant};
use passive_mobs::squid::{SquidEntity, SquidRandomMovementGoal, Stroke, StrokeStep, Tentacles};
use passive_mobs::tadpole::TadpoleEntity;

#[test]
fn no_threat_stays_deflated() {
    let (state, inflate, deflate, blow_up, blow_out) = advance_puff_state(false, 0, 0, 0);
    assert_eq!((state, inflate, deflate, blow_up, blow_out), (0, 0, 0, false, false));
}

#[test]
fn threat_inflates_to_half_immediately() {
    let (state, inflate, _deflate, blow_up, blow_out) = advance_puff_state(true, 0, 0, 0);
    assert_eq!(state, 1);
    assert_eq!(inflate, 2);
    assert!(blow_up);
    assert!(!blow_out);
}

#[test]
fn sustained_threat_reaches_full_puff_after_40_ticks() {
    let mut state = 0u8;
    let mut inflate = 0i32;
    let mut deflate = 0i32;
    let mut reached_full_at = None;
    for tick in 1..=45 {
        let (s, i, d, _, _) = advance_puff_state(true, state, inflate, deflate);
        state = s;
        inflate = i;
        deflate = d;
        if state == 2 && reached_full_at.is_none() {
            reached_full_at = Some(tick);
        }
    }
    assert_eq!(reached_full_at, Some(41));
}

#[test]
fn threat_removed_deflates_over_time() {
    let mut state = 2u8;
    let mut inflate = 0i32;
    let mut deflate = 0i32;
    let mut half_at = None;
    let mut deflated_at = None;
    for tick in 1..=105 {
        let (s, i, d, _, _) = advance_puff_state(false, state, inflate, deflate);
        state = s;
        inflate = i;
        deflate = d;
        if state == 1 && half_at.is_none() {
            half_at = Some(tick);
        }
        if state == 0 && deflated_at.is_none() {
            deflated_at = Some(tick);
        }
    }
    assert_eq!(half_at, Some(62));
    assert_eq!(deflated_at, Some(102));
}

#[test]
fn sting_damage_and_poison_scale_with_puff_state() {
    assert_eq!(f64::from(sting_damage(1)), 2.0);
    assert_eq!(f64::from(sting_damage(2)), 3.0);
    assert_eq!(sting_poison_duration(1), 60);
    assert_eq!(sting_poison_duration(2), 120);
}

fn mob(id: u128) -> NearbyEntity {
    NearbyEntity { id, living: true, alive: true, is_player: false, creative: false, harmless: false }
}

#[test]
fn a_pufferfish_is_scared_of_players_who_can_hurt_it() {
    let player = NearbyEntity { is_player: true, ..mob(1) };
    assert!(is_scary(&player));
    assert!(!is_scary(&NearbyEntity { creative: true, ..player }));
    assert!(!is_scary(&NearbyEntity { harmless: true, ..mob(2) }));
    let fish = PufferfishEntity::new(0);
    assert!(fish.threat_nearby(9, &vec![player]));
    assert!(!fish.threat_nearby(1, &vec![player]));
}

#[test]
fn a_blown_up_pufferfish_stings_the_mobs_around_it() {
    let mut fish = PufferfishEntity::new(0);
    assert!(fish.sting().is_none());
    let nearby = vec![mob(9), mob(2), NearbyEntity { is_player: true, ..mob(3) }];
    fish.puff_state = 2;
    assert_eq!(fish.sting_nearby_mobs(9, &nearby), vec![2]);
    assert_eq!(fish.sting(), Some(3));
    let mut effects = Vec::new();
    fish.finish_sting(true, true, &mut effects);
    assert_eq!(
        effects,
        vec![Effect::PoisonTarget(120), Effect::Play(Sound::PufferFishSting)]
    );
    effects.clear();
    fish.finish_sting(true, false, &mut effects);
    assert_eq!(effects, vec![Effect::Play(Sound::PufferFishSting)]);
    effects.clear();
    fish.finish_sting(false, true, &mut effects);
    assert!(effects.is_empty());
}

#[test]
fn a_pufferfish_blows_up_audibly() {
    let mut effects = Vec::new();
    let mut fish = PufferfishEntity::new(0);
    fish.mob_tick(false, true, &mut effects);
    assert_eq!(fish.puff_state, 1);
    assert!(effects.contains(&Effect::Play(Sound::PufferFishBlowUp)));
    assert!(effects.contains(&Effect::Sync(SyncedValue::PuffState(1))));
    let mut nbt = NbtCompound::new();
    fish.write_nbt(&mut nbt);
    let mut other = PufferfishEntity::new(0);
    other.read_nbt(&nbt);
    assert_eq!(other.puff_state, 1);
}

#[test]
fn salmon_come_in_three_sizes() {
    for variant in [SalmonVariant::Small, SalmonVariant::Medium, SalmonVariant::Large] {
        assert_eq!(SalmonVariant::from_id(variant.id()), variant);
        assert_eq!(SalmonVariant::from_name(variant.name()), variant);
    }
    assert_eq!(SalmonVariant::from_draw(29), SalmonVariant::Small);
    assert_eq!(SalmonVariant::from_draw(30), SalmonVariant::Medium);
    assert_eq!(SalmonVariant::from_draw(80), SalmonVariant::Large);
    assert_eq!(SalmonVariant::Small.bounding_box_scale(), 500);
    assert_eq!(SalmonVariant::Large.bounding_box_scale(), 1500);
    let mut effects = Vec::new();
    let salmon = SalmonEntity::with_variant(0, SalmonVariant::Large);
    let mut nbt = NbtCompound::new();
    salmon.write_nbt(&mut nbt);
    let mut other = SalmonEntity::with_variant(0, SalmonVariant::Small);
    other.read_nbt(&nbt, &mut effects);
    assert_eq!(other.variant(), SalmonVariant::Large);
}

#[test]
fn a_tadpole_becomes_a_frog() {
    let mut effects = Vec::new();
    let mut tadpole = TadpoleEntity::new(0);
    for _ in 0..23999 {
        tadpole.mob_tick(true, &mut effects);
    }
    assert!(effects.is_empty());
    tadpole.mob_tick(true, &mut effects);
    assert!(effects.contains(&Effect::Play(Sound::TadpoleGrowUp)));
    let mut nbt = NbtCompound::new();
    tadpole.write_nbt(&mut nbt);
    let mut other = TadpoleEntity::new(0);
    other.read_nbt(&nbt);
    assert_eq!(other.age, tadpole.age);
    let mut locked = TadpoleEntity::new(0);
    locked.age_locked = true;
    locked.mob_tick(true, &mut effects);
    assert_eq!(locked.age, 0);
}

#[test]
fn a_glow_squid_goes_dark_when_hurt() {
    let mut effects = Vec::new();
    let mut squid = GlowSquidEntity::new(0, 0.2f64.to_bits());
    squid.on_damage(true, &mut effects);
    assert_eq!(squid.dark_ticks_remaining, 100);
    let step = StrokeStep { advanced: 0, wrapped: 0, pace: 0 };
    for _ in 0..100 {
        squid.mob_tick(false, &step, &mut effects);
    }
    assert_eq!(squid.dark_ticks_remaining, 0);
    squid.dark_ticks_remaining = 7;
    let mut nbt = NbtCompound::new();
    squid.write_nbt(&mut nbt);
    let mut other = GlowSquidEntity::new(0, 0.2f64.to_bits());
    other.read_nbt(&nbt);
    assert_eq!(other.dark_ticks_remaining, 7);
}

#[test]
fn a_squid_sprays_ink_and_sets_off() {
    let mut effects = Vec::new();
    let squid = SquidEntity::new(0, 0.2f64.to_bits());
    squid.on_damage(true, &mut effects);
    assert!(effects.contains(&Effect::SprayInk(Particle::SquidInk)));
    effects.clear();
    squid.on_damage(false, &mut effects);
    assert!(effects.is_empty());
    let goal = SquidRandomMovementGoal;
    assert!(goal.can_start() && goal.should_run_every_tick());
    assert!(goal.tick_with_draw(true, 1.0e-5f64.to_bits(), 1));
    assert!(goal.tick_with_draw(true, 0.04f64.to_bits(), 0));
    assert!(!goal.tick_with_draw(true, 0.04f64.to_bits(), 1));
    assert!(!goal.tick(false, 0));
}

fn step(advanced: f64) -> StrokeStep {
    StrokeStep {
        advanced: advanced.to_bits(),
        wrapped: (advanced - std::f64::consts::TAU).to_bits(),
        pace: 0.1f64.to_bits(),
    }
}

#[test]
fn tentacles_go_round_in_circles() {
    let mut tentacles = Tentacles::new(0.2f64.to_bits());
    tentacles.tick_with_draw(&step(0.2), 0);
    assert_eq!(f64::from_bits(tentacles.tentacle_movement), 0.2);
    assert_eq!(f64::from_bits(tentacles.tentacle_speed), 0.2);
    tentacles.tick_with_draw(&step(6.5), 1);
    assert_eq!(f64::from_bits(tentacles.tentacle_movement), 6.5 - std::f64::consts::TAU);
    assert_eq!(f64::from_bits(tentacles.tentacle_speed), 0.2);
    tentacles.tick_with_draw(&step(6.5), 0);
    assert_eq!(f64::from_bits(tentacles.tentacle_speed), 0.1);
    tentacles.tentacle_movement = 3.0f64.to_bits();
    assert_eq!(tentacles.stroke(true, 0.9f64.to_bits()), Stroke::Push);
    assert_eq!(tentacles.stroke(true, 0.75f64.to_bits()), Stroke::Glide);
    assert_eq!(tentacles.stroke(false, 0.9f64.to_bits()), Stroke::Sink);
    tentacles.tentacle_movement = 4.0f64.to_bits();
    assert_eq!(tentacles.stroke(true, 1.2f64.to_bits()), Stroke::Slow);
    let mut paces = 0;
    for _ in 0..300 {
        let mut tentacles = Tentacles::new(0.2f64.to_bits());
        tentacles.tick(&step(6.5));
        if f64::from_bits(tentacles.tentacle_speed) == 0.1 {
            paces += 1;
        }
    }
    assert!(paces > 0 && paces < 300);
}

fn ashore() -> DolphinTick {
    DolphinTick {
        dead: false,
        no_ai: false,
        max_air: 4800,
        in_water: false,
        raining_here: false,
        raining_above: false,
        on_ground: false,
    }
}

#[test]
fn a_dolphin_dries_out_ashore() {
    let mut effects = Vec::new();
    let mut dolphin = DolphinEntity::new(0, 4800);
    for _ in 0..2399 {
        dolphin.tick_moistness(&ashore(), &mut effects);
    }
    assert!(!effects.iter().any(|e| matches!(e, Effect::DryOut(_))));
    dolphin.tick_moistness(&ashore(), &mut effects);
    assert!(effects.contains(&Effect::DryOut(1)));
    effects.clear();
    dolphin.tick_moistness(&DolphinTick { in_water: true, ..ashore() }, &mut effects);
    assert_eq!(dolphin.moistness_level, 2400);
    let mut nbt = NbtCompound::new();
    dolphin.set_got_fish(true, &mut effects);
    dolphin.moistness_level = 55;
    dolphin.write_nbt(&mut nbt);
    let mut other = DolphinEntity::new(0, 4800);
    other.read_nbt(&nbt);
    assert_eq!(other.moistness_level, 55);
    assert!(other.got_fish());
}

#[test]
fn a_dolphin_takes_fish() {
    let mut effects = Vec::new();
    let mut dolphin = DolphinEntity::new(0, 4800);
    let player = Player { id: 1, gamemode: GameMode::Survival, sneaking: false };
    let mut stack = ItemStack::new(2, Item::Cod);
    assert_eq!(dolphin.mob_interact(true, &player, &mut stack, &mut effects), Interaction::Handled);
    assert!(dolphin.got_fish());
    assert_eq!(stack.count, 1);
}

#[test]
fn cods_swim_in_schools_and_nautiluses_flee() {
    let cod = CodEntity::new(0);
    assert!(cod.mob_entity.goals.iter().any(|e| e.goal == Goal::FollowFlockLeader));
    let nautilus = NautilusEntity::new(0);
    assert_eq!(nautilus.mob_entity.goals.len(), 4);
}

#[test]
fn a_pufferfish_looks_farther_than_it_stings() {
    let mut fish = PufferfishEntity::new(0);
    assert_eq!(fish.threat_radius(), 2000);
    assert_eq!(fish.sting_radius(), None);
    fish.puff_state = 1;
    assert_eq!(fish.sting_radius(), Some(1000));
}
