use passive_mobs::effect::{Effect, Interaction, MoveControl, SyncedValue};
use passive_mobs::goal::EntityKind;
use passive_mobs::happy_ghast::{
    happy_ghast_detection_box_contains, happy_ghast_fall_damage, happy_ghast_voice_pitch,
    restriction_radius, scan_player_above_ghast, supports_quad_leash, BoundingBox, GhastContext,
    ridden_input, GhastTick, HappyGhastEntity, OverheadPlayer, RiderKeys, Steering,
};
use passive_mobs::item::{GameMode, ItemStack, Player};
use passive_mobs::nbt::NbtCompound;
use passive_mobs::position::{BlockPos, Point};

fn point(x: f64, y: f64, z: f64) -> Point {
    Point { x: x.to_bits(), y: y.to_bits(), z: z.to_bits() }
}

#[test]
fn restriction_radius_matches_vanilla() {
    assert_eq!(restriction_radius(false, false), 64);
    assert_eq!(restriction_radius(false, true), 32);
    assert_eq!(restriction_radius(true, false), 32);
    assert_eq!(restriction_radius(true, true), 32);
}

#[test]
fn fall_damage_and_voice_pitch_match_vanilla() {
    assert_eq!(happy_ghast_fall_damage(), 0);
    assert_eq!(f64::from(happy_ghast_voice_pitch()) / 10000.0, 1.0);
}

#[test]
fn brain_ticks_only_for_babies() {
    assert!(HappyGhastEntity::should_tick_brain_for_age(-1));
    assert!(!HappyGhastEntity::should_tick_brain_for_age(0));
}

#[test]
fn player_above_detection_uses_half_open_bounds() {
    let detection_box = BoundingBox { min: point(-1.0, 2.0, -1.0), max: point(1.0, 4.0, 1.0) };
    assert!(happy_ghast_detection_box_contains(&detection_box, point(-1.0, 2.0, 0.0)));
    assert!(!happy_ghast_detection_box_contains(&detection_box, point(1.0, 2.0, 0.0)));
    assert!(!happy_ghast_detection_box_contains(&detection_box, point(0.0, 4.0, 0.0)));
}

#[test]
fn players_that_ride_or_watch_do_not_count() {
    let space = BoundingBox { min: point(-1.0, 2.0, -1.0), max: point(1.0, 4.0, 1.0) };
    let above = OverheadPlayer { spectator: false, on_happy_ghast: false, at: point(0.0, 3.0, 0.0) };
    assert!(scan_player_above_ghast(&vec![above], &space));
    assert!(!scan_player_above_ghast(&vec![OverheadPlayer { spectator: true, ..above }], &space));
    assert!(!scan_player_above_ghast(
        &vec![OverheadPlayer { on_happy_ghast: true, ..above }],
        &space
    ));
    assert!(!scan_player_above_ghast(&vec![], &space));
}

fn quiet() -> GhastTick {
    GhastTick {
        alive: true,
        dead: false,
        hurt: true,
        player_above: false,
        is_vehicle: false,
        leashed: false,
        wears_harness: true,
        pos: BlockPos::new(0, 100, 0),
    }
}

#[test]
fn a_ghast_stays_still_below_a_player() {
    let mut effects = Vec::new();
    let mut ghast = HappyGhastEntity::new(0, &mut Vec::new());
    ghast.mob_tick(&GhastTick { player_above: true, ..quiet() }, &mut effects);
    assert!(ghast.is_on_still_timeout());
    assert!(effects.contains(&Effect::Sync(SyncedValue::HappyGhastStaysStill(true))));
    let mut nbt = NbtCompound::new();
    ghast.write_nbt(&mut nbt);
    let mut other = HappyGhastEntity::new(0, &mut Vec::new());
    other.read_nbt(&nbt, &mut effects);
    assert_eq!(other.server_still_timeout, ghast.server_still_timeout);
}

#[test]
fn a_ghast_heals_every_thirty_seconds() {
    let mut effects = Vec::new();
    let mut ghast = HappyGhastEntity::new(0, &mut Vec::new());
    for _ in 0..599 {
        ghast.continuous_heal(false, true, &mut effects);
    }
    assert!(effects.is_empty());
    ghast.continuous_heal(false, true, &mut effects);
    assert_eq!(effects, vec![Effect::Heal(1)]);
    assert_eq!(ghast.heal_ticks, 0);
}

#[test]
fn a_full_ghast_takes_nobody() {
    let mut effects = Vec::new();
    let mut ghast = HappyGhastEntity::new(0, &mut Vec::new());
    let player = Player { id: 8, gamemode: GameMode::Survival, sneaking: false };
    let mut cx = GhastContext {
        is_harness: false,
        wears_harness: true,
        can_start_riding: true,
        passengers: 3,
        in_world: true,
        breeding_ready: false,
        tagged_food: false,
    };
    let mut hand = ItemStack::empty();
    let outcome = ghast.mob_interact(&cx, &player, &mut hand, &mut effects);
    assert_eq!(outcome, Interaction::Handled);
    assert!(effects.contains(&Effect::Mount { player: 8 }));
    effects.clear();
    cx.passengers = 4;
    ghast.mob_interact(&cx, &player, &mut hand, &mut effects);
    assert!(!effects.contains(&Effect::Mount { player: 8 }));
}

#[test]
fn keys_steer_a_ghast() {
    let none =
        RiderKeys { forward: false, backward: false, left: false, right: false, jump: false };
    assert_eq!(ridden_input(&none), Steering { strafe: 0, ahead: 0, lift: 0 });
    let all = RiderKeys { forward: true, backward: true, left: true, right: true, jump: true };
    assert_eq!(ridden_input(&all), Steering { strafe: 0, ahead: -500, lift: 500 });
    let on = RiderKeys { forward: true, right: true, ..none };
    assert_eq!(ridden_input(&on), Steering { strafe: -1000, ahead: 1000, lift: 0 });
}

#[test]
fn large_animals_hang_on_four_leashes() {
    assert!(supports_quad_leash(EntityKind::Sniffer));
    assert!(supports_quad_leash(EntityKind::Boat));
    assert!(!supports_quad_leash(EntityKind::Chicken));
    assert_eq!(HappyGhastEntity::new(0, &mut Vec::new()).get_mob_gravity(), 0);
}

#[test]
fn a_new_ghast_moves_like_a_grown_one() {
    let mut effects = Vec::new();
    let ghast = HappyGhastEntity::new(-24000, &mut effects);
    assert_eq!(effects, vec![Effect::MoveLike(MoveControl::Ghast)]);
    let brain = HappyGhastEntity::make_brain();
    assert_eq!(ghast.brain.core, brain.core);
    assert_eq!(ghast.brain.idle, brain.idle);
}

#[test]
fn a_ghast_that_grows_up_in_a_tick_adapts_in_it() {
    let mut effects = Vec::new();
    let mut ghast = HappyGhastEntity::new(-1, &mut Vec::new());
    ghast.tick_aged(false, -1, &quiet(), &mut effects);
    assert!(ghast.baby_setup);
    assert!(ghast.mob_entity.goals.is_empty());
    effects.clear();
    ghast.tick_aged(true, 0, &quiet(), &mut effects);
    assert!(!ghast.baby_setup);
    assert_eq!(ghast.mob_entity.goals.len(), 3);
    assert_eq!(
        effects[..4],
        [
            Effect::AlignHead,
            Effect::SendExactPosition(false),
            Effect::MoveLike(MoveControl::Ghast),
            Effect::RemoveFreeWill,
        ]
    );
}
