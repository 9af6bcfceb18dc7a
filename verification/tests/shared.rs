use passive_mobs::double::{is_at_least, is_less};
use passive_mobs::flags::{get_flag, set_flag};
use passive_mobs::item::{Diet, GameMode, Item, ItemStack};
use passive_mobs::nbt::{NbtCompound, NbtTag};
use passive_mobs::position::{block_pos_from_nbt, block_pos_to_nbt, BlockPos};
use passive_mobs::text::{contains_text, same_text, starts_with, strip_namespace};
use passive_mobs::ticks::{count_down, count_up, is_multiple};

#[test]
fn bits_compare_as_numbers_do() {
    let numbers = [
        f64::NEG_INFINITY,
        -2.5,
        -1.0,
        -0.0,
        0.0,
        f64::MIN_POSITIVE,
        0.6,
        2.2,
        f64::MAX,
        f64::INFINITY,
        f64::NAN,
    ];
    for a in numbers {
        for b in numbers {
            assert_eq!(is_less(a.to_bits(), b.to_bits()), a < b, "{a} and {b}");
            assert_eq!(is_at_least(a.to_bits(), b.to_bits()), a >= b, "{a} and {b}");
        }
    }
}

#[test]
fn flags_read_back_and_leave_others_alone() {
    let flags = set_flag(0b1010, 0b0100, true);
    assert!(get_flag(flags, 0b0100));
    assert_eq!(flags, 0b1110);
    assert_eq!(set_flag(flags, 0b0100, false), 0b1010);
}

#[test]
fn positions_are_saved_as_three_numbers() {
    let pos = BlockPos::new(1, -2, i32::MAX);
    let mut nbt = NbtCompound::new();
    nbt.put("at", block_pos_to_nbt(pos));
    assert_eq!(nbt.get_int_array("at"), Some(&vec![1, -2, i32::MAX]));
    assert_eq!(block_pos_from_nbt(&nbt, "at"), Some(pos));
    assert_eq!(block_pos_from_nbt(&nbt, "elsewhere"), None);
    nbt.put("short", NbtTag::IntArray(vec![1, 2]));
    assert_eq!(block_pos_from_nbt(&nbt, "short"), None);
}

#[test]
fn a_compound_holds_the_last_value_of_a_name() {
    let mut nbt = NbtCompound::new();
    nbt.put_int("a", 1);
    nbt.put_int("a", 2);
    nbt.put_bool("b", true);
    nbt.put_double("c", 1.5f64.to_bits());
    nbt.put_id("d", 99);
    nbt.put_string("e", "text");
    nbt.put_long("f", 7);
    nbt.put_byte("g", -3);
    assert_eq!(nbt.get_int("a"), Some(2));
    assert_eq!(nbt.get_bool("b"), Some(true));
    assert_eq!(nbt.get_double("c"), Some(1.5f64.to_bits()));
    assert_eq!(nbt.get_id("d"), Some(99));
    assert_eq!(nbt.get_string("e"), Some("text"));
    assert_eq!(nbt.get_long("f"), Some(7));
    assert_eq!(nbt.get_byte("g"), Some(-3));
    assert_eq!(nbt.get_int("e"), None);
    assert!(nbt.get("h").is_none());
    assert!(nbt.get_list("a").is_none() && nbt.get_compound("a").is_none());
}

#[test]
fn names_lose_the_default_namespace() {
    assert_eq!(strip_namespace("minecraft:red"), "red");
    assert_eq!(strip_namespace("red"), "red");
    assert_eq!(strip_namespace("other:red"), "other:red");
    assert!(same_text("red", "red") && !same_text("red", "reds"));
    assert!(starts_with("redstone", "red") && !starts_with("red", "redstone"));
    assert!(contains_text("light_blue_dye", "blue") && !contains_text("blue", "light_blue"));
}

#[test]
fn counters_stop_at_their_ends() {
    assert_eq!(count_down(3), 2);
    assert_eq!(count_down(0), 0);
    assert_eq!(count_up(4), 5);
    assert!(is_multiple(40, 20) && !is_multiple(41, 20));
}

#[test]
fn stacks_shrink_unless_in_creative_mode() {
    let mut stack = ItemStack::new(3, Item::Wheat);
    stack.decrement_unless_creative(GameMode::Creative, 1);
    assert_eq!(stack.count, 3);
    stack.decrement_unless_creative(GameMode::Survival, 5);
    assert_eq!(stack.count, 0);
    assert!(stack.is_empty());
    let mut stack = ItemStack::new(3, Item::Wheat);
    assert_eq!(stack.split_unless_creative(GameMode::Survival, 1), ItemStack::new(1, Item::Wheat));
    assert_eq!(stack.count, 2);
    assert!(Diet::Horse.contains(Item::GoldenApple));
}
