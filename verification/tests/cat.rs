use passive_mobs::cat::{
    coat_from_name, coat_to_name, feline_pose_for, feline_pose_step, get_dye_color_from_item,
    moon_brightness_allows_all_black, natural_coat, select_natural_cat_variant, CatContext,
    CatEntity, CatReply, FELINE_CROUCH_SPEED, FELINE_SPRINT_SPEED,
};
use passive_mobs::effect::{Effect, Pose};
use passive_mobs::goal::Goal;
use passive_mobs::item::{GameMode, Item, ItemStack, Player};
use passive_mobs::nbt::NbtCompound;

fn pose_for(has_wanted: bool, speed: f64) -> (Pose, bool) {
    feline_pose_for(has_wanted, speed.to_bits())
}

#[test]
fn feline_pose_matches_vanilla_speed_branches() {
    let crouch = f64::from_bits(FELINE_CROUCH_SPEED);
    let sprint = f64::from_bits(FELINE_SPRINT_SPEED);
    assert_eq!(crouch, 0.6);
    assert_eq!(sprint, 1.33);
    assert_eq!(pose_for(true, crouch), (Pose::Crouching, false));
    assert_eq!(pose_for(true, sprint), (Pose::Standing, true));
    assert_eq!(pose_for(true, 1.0), (Pose::Standing, false));
    assert_eq!(pose_for(false, crouch), (Pose::Standing, false));
    assert_eq!(pose_for(false, sprint), (Pose::Standing, false));
}

#[test]
fn feline_pose_speed_comparison_is_exact() {
    assert_eq!(pose_for(true, 0.6001), (Pose::Standing, false));
    assert_eq!(pose_for(true, 1.3299), (Pose::Standing, false));
}

#[test]
fn a_feline_changes_its_pose_only_where_needed() {
    let mut effects = Vec::new();
    feline_pose_step(true, FELINE_SPRINT_SPEED, Pose::Crouching, false, &mut effects);
    assert_eq!(effects, vec![Effect::SetPose(Pose::Standing), Effect::SetSprinting(true)]);
    effects.clear();
    feline_pose_step(true, FELINE_SPRINT_SPEED, Pose::Standing, true, &mut effects);
    assert!(effects.is_empty());
}

#[test]
fn only_full_moon_allows_all_black() {
    for phase in 0..8 {
        let time_of_day = phase * 24000;
        let allowed = moon_brightness_allows_all_black(time_of_day);
        assert_eq!(allowed, phase == 0, "phase {phase} should only allow all_black on full moon");
    }
}

#[test]
fn phase_wraps_across_multiple_lunar_cycles() {
    assert!(moon_brightness_allows_all_black(8 * 24000));
    assert!(!moon_brightness_allows_all_black(9 * 24000));
}

#[test]
fn all_black_only_selectable_on_full_moon() {
    for _ in 0..200 {
        assert_ne!(select_natural_cat_variant(4 * 24000), "all_black");
    }
    let mut saw_all_black = false;
    for _ in 0..500 {
        if select_natural_cat_variant(0) == "all_black" {
            saw_all_black = true;
            break;
        }
    }
    assert!(saw_all_black);
}

#[test]
fn coat_names_lead_back_to_their_numbers() {
    for id in 0..11u8 {
        assert_eq!(coat_from_name(coat_to_name(id)), id);
    }
    assert_eq!(coat_to_name(200), "minecraft:tabby");
    assert_eq!(natural_coat(0), "tabby");
}

#[test]
fn dyes_are_told_by_the_names_of_their_items() {
    assert_eq!(get_dye_color_from_item("red_dye"), Some(14));
    assert_eq!(get_dye_color_from_item("light_blue_dye"), Some(3));
    assert_eq!(get_dye_color_from_item("bone"), None);
}

fn owner() -> Player {
    Player { id: 5, gamemode: GameMode::Survival, sneaking: false }
}

fn context(tagged_food: bool, is_dye: bool, hurt: bool) -> CatContext {
    CatContext { tagged_food, is_dye, hurt }
}

#[test]
fn a_third_of_all_meals_tame_a_cat() {
    let mut effects = Vec::new();
    let mut cat = CatEntity::new(0);
    let mut stack = ItemStack::new(4, Item::Cod);
    let cx = context(true, false, false);
    let reply = cat.interact_with_draw(&cx, "cod", &owner(), &mut stack, 1, &mut effects);
    assert_eq!(reply, CatReply::Handled);
    assert!(effects.contains(&Effect::TamingFailed));
    assert_eq!(cat.get_owner_uuid(), None);
    assert_eq!(stack.count, 3);
    effects.clear();
    cat.interact_with_draw(&cx, "cod", &owner(), &mut stack, 0, &mut effects);
    assert!(effects.contains(&Effect::TamingSucceeded));
    assert_eq!(cat.get_owner_uuid(), Some(5));
    assert!(!cat.mob_entity.goals.iter().any(|e| matches!(e.goal, Goal::Avoid { .. })));
}

#[test]
fn a_tame_cat_wears_a_dyed_collar() {
    let mut effects = Vec::new();
    let mut cat = CatEntity::new(0);
    cat.set_tame(true, Some(5), &mut effects);
    assert_eq!(cat.get_collar_color(), 14);
    let mut stack = ItemStack::new(1, Item::Other(8));
    let cx = context(false, true, false);
    let reply = cat.mob_interact(&cx, "lime_dye", &owner(), &mut stack, &mut effects);
    assert_eq!(reply, CatReply::Handled);
    assert_eq!(cat.get_collar_color(), 5);
    assert_eq!(stack.count, 0);
    let stranger = Player { id: 6, ..owner() };
    let mut stack = ItemStack::new(1, Item::Other(8));
    cat.mob_interact(&cx, "red_dye", &stranger, &mut stack, &mut effects);
    assert_eq!(cat.get_collar_color(), 5);
}

#[test]
fn a_saved_cat_comes_back() {
    let mut effects = Vec::new();
    let mut cat = CatEntity::new(0);
    cat.set_variant(3, &mut effects);
    cat.set_collar_color(9, &mut effects);
    cat.set_tame(true, Some(77), &mut effects);
    cat.set_sitting(true, &mut effects);
    let mut nbt = NbtCompound::new();
    cat.write_nbt(&mut nbt);
    let mut other = CatEntity::new(0);
    other.read_nbt(&nbt, None);
    assert_eq!(other.variant, 3);
    assert_eq!(other.get_collar_color(), 9);
    assert_eq!(other.get_owner_uuid(), Some(77));
    assert!(other.is_sitting());
}

#[test]
fn an_owner_may_be_saved_by_name() {
    let mut nbt = NbtCompound::new();
    nbt.put_string("Owner", "Steve");
    assert_eq!(CatEntity::legacy_owner_name(&nbt), Some("Steve"));
    let mut cat = CatEntity::new(0);
    cat.read_nbt(&nbt, Some(4));
    assert_eq!(cat.get_owner_uuid(), Some(4));
}
