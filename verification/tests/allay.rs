use passive_mobs::allay::{
    on_item_thrown, throw_with_draws, Activity, AllayEntity, DepositTarget, GameEvent, LikedPlayer,
    DUPLICATION_COOLDOWN_TICKS, TIME_TO_FORGET_NOTEBLOCK_TICKS,
};
use passive_mobs::effect::{Effect, Interaction, Sound};
use passive_mobs::item::{GameMode, Item, ItemStack, Player};
use passive_mobs::position::BlockPos;

const DIAMOND: Item = Item::Other(1);
const EMERALD: Item = Item::Other(2);

fn player() -> Player {
    Player { id: 7, gamemode: GameMode::Survival, sneaking: false }
}

#[test]
fn duplication_cooldown_constant_matches_vanilla() {
    assert_eq!(DUPLICATION_COOLDOWN_TICKS, 6000);
}

#[test]
fn time_to_forget_noteblock_constant_matches_vanilla() {
    assert_eq!(TIME_TO_FORGET_NOTEBLOCK_TICKS, 600);
}

#[test]
fn considers_item_equal_compares_by_item_id() {
    let a = ItemStack::new(1, DIAMOND);
    let b = ItemStack::new(3, DIAMOND);
    let c = ItemStack::new(1, EMERALD);
    assert!(AllayEntity::considers_item_equal(&a, &b));
    assert!(!AllayEntity::considers_item_equal(&a, &c));
}

#[test]
fn brain_starts_with_core_and_idle_active() {
    let brain = AllayEntity::make_brain();
    assert!(brain.is_active(Activity::Core));
    assert!(brain.is_active(Activity::Idle));
}

#[test]
fn noteblock_memories_are_registered_and_start_empty() {
    let mut brain = AllayEntity::make_brain();
    assert!(brain.liked_noteblock_position.is_none());
    assert!(brain.liked_noteblock_cooldown.is_none());
    brain.liked_noteblock_position = Some(BlockPos::new(1, 2, 3));
    assert_eq!(brain.liked_noteblock_position, Some(BlockPos::new(1, 2, 3)));
}

#[test]
fn an_allay_remembers_the_note_block_it_heard_first() {
    let mut allay = AllayEntity::new(0);
    let first = BlockPos::new(1, 2, 3);
    assert!(allay.on_vibration(GameEvent::NoteBlockPlay, false, first));
    assert_eq!(allay.brain.liked_noteblock_position, Some(first));
    assert_eq!(allay.brain.liked_noteblock_cooldown, Some(600));
    assert!(!allay.on_vibration(GameEvent::JukeboxPlay, false, first));
    assert!(!allay.on_vibration(GameEvent::NoteBlockPlay, true, first));
}

#[test]
fn an_allay_dances_to_the_jukebox_until_it_stops() {
    let mut allay = AllayEntity::new(0);
    let jukebox = BlockPos::new(4, 5, 6);
    assert!(allay.on_jukebox_event(GameEvent::JukeboxPlay, jukebox));
    assert!(allay.is_dancing());
    assert!(!allay.should_stop_dancing(100.0f64.to_bits()));
    assert!(allay.should_stop_dancing(100.5f64.to_bits()));
    assert!(allay.on_jukebox_event(GameEvent::JukeboxStopPlay, jukebox));
    assert!(!allay.is_dancing());
}

#[test]
fn a_dancing_allay_duplicates_and_rests() {
    let mut allay = AllayEntity::new(0);
    allay.set_jukebox_playing(BlockPos::new(0, 0, 0), true);
    let mut stack = ItemStack::new(2, EMERALD);
    let mut effects = Vec::new();
    let (outcome, clone) = allay.mob_interact(&player(), &mut stack, true, &mut effects);
    assert_eq!(outcome, Interaction::Handled);
    assert_eq!(stack.count, 1);
    assert_eq!(effects, vec![Effect::Duplicate, Effect::Play(Sound::AmethystBlockChime)]);
    assert!(allay.is_on_duplication_cooldown());
    assert_eq!(allay.duplication_cooldown, 6000);
    let mut clone = clone.expect("the allay multiplies");
    assert_eq!(clone.duplication_cooldown, 6000);
    assert!(!clone.is_dancing());
    assert!(!clone.has_item_in_hand());
    clone.set_jukebox_playing(BlockPos::new(0, 0, 0), true);
    for dancer in [&mut allay, &mut clone] {
        let mut again = ItemStack::new(1, EMERALD);
        let mut effects = Vec::new();
        let (_, other) = dancer.mob_interact(&player(), &mut again, true, &mut effects);
        assert!(other.is_none());
        assert!(!effects.contains(&Effect::Duplicate));
    }
}

#[test]
fn duplicating_leaves_two_allays_that_rest() {
    let mut allay = AllayEntity::new(0);
    let mut effects = Vec::new();
    let clone = allay.duplicate(&mut effects);
    assert_eq!(effects, vec![Effect::Duplicate]);
    assert_eq!(allay.duplication_cooldown, 6000);
    assert_eq!(clone.duplication_cooldown, 6000);
    assert_eq!(clone.mob_entity.age, 0);
}

#[test]
fn an_allay_takes_an_item_and_gives_it_back() {
    let mut allay = AllayEntity::new(0);
    let mut stack = ItemStack::new(3, DIAMOND);
    let mut effects = Vec::new();
    let (outcome, clone) = allay.mob_interact(&player(), &mut stack, false, &mut effects);
    assert_eq!(outcome, Interaction::Handled);
    assert!(clone.is_none());
    assert_eq!(stack, ItemStack::new(2, DIAMOND));
    assert!(allay.has_item_in_hand());
    assert_eq!(allay.brain.liked_player, Some(7));

    let mut hand = ItemStack::empty();
    let mut effects = Vec::new();
    let (outcome, _) = allay.mob_interact(&player(), &mut hand, false, &mut effects);
    assert_eq!(outcome, Interaction::Handled);
    assert!(!allay.has_item_in_hand());
    assert_eq!(allay.brain.liked_player, None);
    assert!(effects.contains(&Effect::GiveToPlayer(ItemStack::new(1, DIAMOND))));
}

fn liked(gamemode: GameMode, distance_squared: f64) -> LikedPlayer {
    LikedPlayer { gamemode, distance_squared: distance_squared.to_bits() }
}

#[test]
fn a_liked_player_must_play_and_be_near() {
    let mut allay = AllayEntity::new(0);
    allay.brain.liked_player = Some(9);
    let near = liked(GameMode::Creative, 4096.0);
    let far = liked(GameMode::Survival, 4096.5);
    let watching = liked(GameMode::Spectator, 1.0);
    assert_eq!(allay.get_liked_player_target(Some(&near)), Some(DepositTarget::Player(9)));
    assert_eq!(allay.get_liked_player_target(Some(&far)), None);
    assert_eq!(allay.get_liked_player_target(Some(&watching)), None);
    assert_eq!(allay.get_liked_player_target(None), None);
}

#[test]
fn a_forgotten_note_block_is_dropped() {
    let mut allay = AllayEntity::new(0);
    let block = BlockPos::new(10, 64, 10);
    allay.hear_noteblock(block);
    let at = BlockPos::new(12, 64, 10);
    assert_eq!(
        allay.get_item_deposit_position(at, true, None),
        Some(DepositTarget::Block(BlockPos::new(10, 65, 10)))
    );
    assert_eq!(allay.get_item_deposit_position(at, false, None), None);
    assert_eq!(allay.brain.liked_noteblock_position, None);
}

#[test]
fn a_throw_sounds_at_every_seventh_tick() {
    let mut effects = Vec::new();
    throw_with_draws(70, false, 0, &mut effects);
    assert_eq!(
        effects,
        vec![Effect::PlayAt { sound: Sound::AllayItemThrown, volume: 10000, pitch: 5625 }]
    );
    let mut effects = Vec::new();
    throw_with_draws(71, false, 0, &mut effects);
    throw_with_draws(70, true, 0, &mut effects);
    assert!(effects.is_empty());
    let mut sounded = 0;
    for _ in 0..200 {
        let mut effects = Vec::new();
        on_item_thrown(7, &mut effects);
        on_item_thrown(8, &mut effects);
        assert!(effects.len() <= 1);
        sounded += effects.len();
    }
    assert!(sounded > 0);
}

#[test]
fn an_allay_stays_away_from_the_leash_and_hears_sixteen_blocks() {
    let allay = AllayEntity::new(0);
    assert!(!allay.should_follow_leash());
    assert_eq!(allay.listener_radius(), 16);
    assert_eq!(allay.jukebox_listener_radius(), 10);
}
