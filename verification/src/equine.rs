//! Horses and their kin: temper, food, saddles and chests.

use vstd::prelude::*;

use crate::effect::{
    feeling, group_effects, show_feeling, Attribute, Effect, EquipmentSlot, Interaction, Particle,
    Sound,
};
use crate::flags::{has_flag, law_flag_leaves_others, law_flag_reads_back, with_flag};
use crate::goal::EntityKind;
use crate::item::{after_use, empty_stack, GameMode, Item, ItemStack, Player};
use crate::mob::MobEntity;
use crate::nbt::{bool_at, bool_value, double_at, int_at, NbtCompound, NbtValue};
use crate::random::roll;

verus! {

pub const FLAG_BRED: u8 = 8;

pub const FLAG_EATING: u8 = 16;

pub const FLAG_STANDING: u8 = 32;

pub const FLAG_OPEN_MOUTH: u8 = 64;

/// How long a horse rears.
pub const STAND_TICKS: i32 = 20;

/// How long a horse eats.
pub const EATING_TICKS: i32 = 50;

/// How rarely a horse starts to graze: once in so many ticks.
pub const GRAZE_ODDS: i32 = 300;

/// How long a fed horse stays in love.
pub const LOVE_TICKS: i32 = 600;

/// Which food a kind of horse takes.
#[derive(Clone, Copy, PartialEq, Eq, Structural, Debug)]
pub enum Menu {
    Horse,
    Llama,
}

/// In what the kinds of horses differ.
#[derive(Clone, Copy)]
pub struct HorseRules {
    pub max_temper: i32,
    pub can_rear: bool,
    pub can_eat_grass: bool,
    pub can_fall_in_love: bool,
    pub menu: Menu,
    pub eating_sound: Option<Sound>,
    pub angry_sound: Option<Sound>,
    pub chest_sound: Sound,
    pub jump_sound: Sound,
}

/// The rules that hold unless a kind of horse has its own.
pub open spec fn base_rules() -> HorseRules {
    HorseRules {
        max_temper: 100,
        can_rear: true,
        can_eat_grass: true,
        can_fall_in_love: true,
        menu: Menu::Horse,
        eating_sound: None,
        angry_sound: None,
        chest_sound: Sound::DonkeyChest,
        jump_sound: Sound::HorseJump,
    }
}

impl HorseRules {
    /// The rules that hold unless a kind of horse has its own.
    pub fn base() -> (rules: Self)
        ensures
            rules == base_rules(),
    {
        HorseRules {
            max_temper: 100,
            can_rear: true,
            can_eat_grass: true,
            can_fall_in_love: true,
            menu: Menu::Horse,
            eating_sound: None,
            angry_sound: None,
            chest_sound: Sound::DonkeyChest,
            jump_sound: Sound::HorseJump,
        }
    }
}

/// The sound of a horse that jumps with its rider.
pub open spec fn jump_effect(rules: HorseRules) -> Effect {
    Effect::PlayAt { sound: rules.jump_sound, volume: 4000, pitch: 10000 }
}

/// Plays the sound of a horse that jumps with its rider.
pub fn play_jump_sound(rules: &HorseRules, effects: &mut Vec<Effect>)
    ensures
        final(effects)@ == old(effects)@.push(jump_effect(*rules)),
{
    effects.push(Effect::PlayAt { sound: rules.jump_sound, volume: 4000, pitch: 10000 });
}

/// The flags of a horse share no bits.
pub proof fn lemma_horse_flags_disjoint()
    ensures
        FLAG_BRED & FLAG_EATING == 0,
        FLAG_EATING & FLAG_BRED == 0,
        FLAG_EATING & FLAG_STANDING == 0,
        FLAG_STANDING & FLAG_EATING == 0,
        FLAG_STANDING & FLAG_BRED == 0,
{
    assert(8u8 & 16u8 == 0 && 16u8 & 8u8 == 0 && 16u8 & 32u8 == 0 && 32u8 & 16u8 == 0 && 32u8 & 8u8
        == 0) by (bit_vector);
}

/// What a horse is capable of, each by the bits of a floating-point number; nothing where its
/// kind has no such attribute. A new horse gets what its kind is given by default.
#[derive(Clone, Copy, PartialEq, Eq, Structural, Debug)]
pub struct HorseAttributes {
    pub max_health: Option<u64>,
    pub speed: Option<u64>,
    pub jump_strength: Option<u64>,
}

/// The least health of a horse, fifteen, by its bits.
pub const MIN_HEALTH: u64 = 0x402E_0000_0000_0000;

/// The most health of a horse, thirty, by its bits.
pub const MAX_HEALTH: u64 = 0x403E_0000_0000_0000;

/// How high a horse jumps at least, four tenths, by its bits.
pub const MIN_JUMP_STRENGTH: u64 = 0x3FD9_9999_9999_999A;

/// How high a horse jumps at most, one, by its bits.
pub const MAX_JUMP_STRENGTH: u64 = 0x3FF0_0000_0000_0000;

/// How fast a horse is at least, nine eightieths, by its bits.
pub const MIN_MOVEMENT_SPEED: u64 = 0x3FBC_CCCC_CCCC_CCCD;

/// How fast a horse is at most, twenty-seven eightieths, by its bits.
pub const MAX_MOVEMENT_SPEED: u64 = 0x3FD5_9999_9999_999A;

/// What a parent is capable of, each by the bits of a floating-point number.
#[derive(Clone, Copy, PartialEq, Eq, Structural, Debug)]
pub struct ParentAttributes {
    pub max_health: u64,
    pub jump_strength: u64,
    pub speed: u64,
}

/// What a parent counts for of which nothing is known.
pub open spec fn poorest_parent() -> ParentAttributes {
    ParentAttributes {
        max_health: MIN_HEALTH,
        jump_strength: MIN_JUMP_STRENGTH,
        speed: MIN_MOVEMENT_SPEED,
    }
}

/// The parent that takes part in what a foal is capable of.
pub open spec fn known_parent(mate: Option<&ParentAttributes>) -> ParentAttributes {
    match mate {
        Some(known) => *known,
        None => poorest_parent(),
    }
}

/// Drawing the health of a foal.
pub open spec fn inherited_health(first: ParentAttributes, second: ParentAttributes) -> Effect {
    Effect::InheritAttribute {
        attribute: Attribute::MaxHealth,
        first: first.max_health,
        second: second.max_health,
        low: MIN_HEALTH,
        high: MAX_HEALTH,
    }
}

/// Drawing all that a foal is capable of.
pub open spec fn inherited_attributes(
    first: ParentAttributes,
    second: ParentAttributes,
) -> Seq<Effect> {
    seq![
        inherited_health(first, second),
        Effect::InheritAttribute {
            attribute: Attribute::JumpStrength,
            first: first.jump_strength,
            second: second.jump_strength,
            low: MIN_JUMP_STRENGTH,
            high: MAX_JUMP_STRENGTH,
        },
        Effect::InheritAttribute {
            attribute: Attribute::MovementSpeed,
            first: first.speed,
            second: second.speed,
            low: MIN_MOVEMENT_SPEED,
            high: MAX_MOVEMENT_SPEED,
        },
    ]
}

/// Draws the health of a foal.
pub fn inherit_health(
    first: &ParentAttributes,
    second: &ParentAttributes,
    effects: &mut Vec<Effect>,
)
    ensures
        final(effects)@ == old(effects)@ + seq![inherited_health(*first, *second)],
{
    effects.push(
        Effect::InheritAttribute {
            attribute: Attribute::MaxHealth,
            first: first.max_health,
            second: second.max_health,
            low: MIN_HEALTH,
            high: MAX_HEALTH,
        },
    );
}

/// Draws all that a foal is capable of. A mate of which nothing is known counts as the poorest
/// that there is.
pub fn inherit_attributes(
    first: &ParentAttributes,
    mate: Option<&ParentAttributes>,
    effects: &mut Vec<Effect>,
)
    ensures
        final(effects)@ == old(effects)@ + inherited_attributes(*first, known_parent(mate)),
{
    let second = match mate {
        Some(known) => *known,
        None => ParentAttributes {
            max_health: MIN_HEALTH,
            jump_strength: MIN_JUMP_STRENGTH,
            speed: MIN_MOVEMENT_SPEED,
        },
    };
    inherit_health(first, &second, effects);
    effects.push(
        Effect::InheritAttribute {
            attribute: Attribute::JumpStrength,
            first: first.jump_strength,
            second: second.jump_strength,
            low: MIN_JUMP_STRENGTH,
            high: MAX_JUMP_STRENGTH,
        },
    );
    effects.push(
        Effect::InheritAttribute {
            attribute: Attribute::MovementSpeed,
            first: first.speed,
            second: second.speed,
            low: MIN_MOVEMENT_SPEED,
            high: MAX_MOVEMENT_SPEED,
        },
    );
}

/// The sound of putting a saddle on a horse.
pub fn saddle_sound() -> (sound: Sound)
    ensures
        sound == Sound::HorseSaddle,
{
    Sound::HorseSaddle
}

/// A horse that has not done anything yet.
pub open spec fn new_horse_data(attributes: HorseAttributes) -> AbstractHorseData {
    AbstractHorseData { flags: 0, temper: 0, eating_counter: 0, stand_counter: 0, attributes }
}

/// What a horse is capable of whose kind has no attributes.
pub open spec fn no_attributes() -> HorseAttributes {
    HorseAttributes { max_health: None, speed: None, jump_strength: None }
}

/// An attribute with a new value, where there is such an attribute.
pub open spec fn replaced(current: Option<u64>, bits: u64) -> Option<u64> {
    if current is Some {
        Some(bits)
    } else {
        None
    }
}

/// What a horse is capable of once one attribute has a new value. An attribute that its kind
/// does not have stays away.
pub open spec fn recorded(
    attributes: HorseAttributes,
    attribute: Attribute,
    bits: u64,
) -> HorseAttributes {
    match attribute {
        Attribute::MaxHealth => HorseAttributes {
            max_health: replaced(attributes.max_health, bits),
            ..attributes
        },
        Attribute::MovementSpeed => HorseAttributes {
            speed: replaced(attributes.speed, bits),
            ..attributes
        },
        Attribute::JumpStrength => HorseAttributes {
            jump_strength: replaced(attributes.jump_strength, bits),
            ..attributes
        },
    }
}

/// The value of an attribute, if there is such an attribute.
pub open spec fn attribute_value(attributes: HorseAttributes, attribute: Attribute) -> Option<u64> {
    match attribute {
        Attribute::MaxHealth => attributes.max_health,
        Attribute::MovementSpeed => attributes.speed,
        Attribute::JumpStrength => attributes.jump_strength,
    }
}

/// Whether two horses have the same attributes, whatever their values.
pub open spec fn same_kind(first: HorseAttributes, second: HorseAttributes) -> bool {
    &&& first.max_health is Some == second.max_health is Some
    &&& first.speed is Some == second.speed is Some
    &&& first.jump_strength is Some == second.jump_strength is Some
}

/// A recorded attribute reads back, where the horse has it, and no other changes.
pub proof fn law_recorded_attribute_reads_back(
    attributes: HorseAttributes,
    attribute: Attribute,
    other: Attribute,
    bits: u64,
)
    ensures
        ({
            let after = recorded(attributes, attribute, bits);
            &&& same_kind(attributes, after)
            &&& attribute_value(attributes, attribute) is Some ==> attribute_value(after, attribute)
                == Some(bits)
            &&& other != attribute ==> attribute_value(after, other) == attribute_value(
                attributes,
                other,
            )
        }),
{
}

/// How a horse feels, what it is doing and what it is capable of.
#[derive(Clone, Copy, PartialEq, Eq, Structural, Debug)]
pub struct AbstractHorseData {
    pub flags: u8,
    pub temper: i32,
    pub eating_counter: i32,
    pub stand_counter: i32,
    pub attributes: HorseAttributes,
}

impl Default for AbstractHorseData {
    fn default() -> (data: Self)
        ensures
            data == new_horse_data(no_attributes()),
            data.wf(),
    {
        AbstractHorseData {
            flags: 0,
            temper: 0,
            eating_counter: 0,
            stand_counter: 0,
            attributes: HorseAttributes { max_health: None, speed: None, jump_strength: None },
        }
    }
}

/// The number closest to `value` between 0 and `max`.
pub open spec fn clamp_temper(value: int, max: int) -> int {
    if value < 0 {
        0
    } else if value > max {
        max
    } else {
        value
    }
}

/// What a meal does to a horse.
#[derive(Clone, Copy)]
pub struct Meal {
    pub heal: u32,
    pub age_up_seconds: i32,
    pub temper: i32,
    /// Whether the meal makes a tame horse fall in love.
    pub golden: bool,
}

/// The food of horses.
pub open spec fn horse_meal(item: Item) -> Option<Meal> {
    match item {
        Item::Wheat => Some(Meal { heal: 2, age_up_seconds: 20, temper: 3, golden: false }),
        Item::Sugar => Some(Meal { heal: 1, age_up_seconds: 30, temper: 3, golden: false }),
        Item::HayBlock => Some(Meal { heal: 20, age_up_seconds: 180, temper: 0, golden: false }),
        Item::Apple => Some(Meal { heal: 3, age_up_seconds: 60, temper: 3, golden: false }),
        Item::RedMushroom => Some(Meal { heal: 3, age_up_seconds: 0, temper: 3, golden: false }),
        Item::Carrot => Some(Meal { heal: 3, age_up_seconds: 60, temper: 3, golden: false }),
        Item::GoldenCarrot => Some(Meal { heal: 4, age_up_seconds: 60, temper: 5, golden: true }),
        Item::GoldenApple => Some(Meal { heal: 10, age_up_seconds: 240, temper: 10, golden: true }),
        Item::EnchantedGoldenApple => Some(
            Meal { heal: 10, age_up_seconds: 240, temper: 10, golden: true },
        ),
        _ => None,
    }
}

/// The food of llamas.
pub open spec fn llama_meal(item: Item) -> Option<Meal> {
    match item {
        Item::Wheat => Some(Meal { heal: 2, age_up_seconds: 10, temper: 3, golden: false }),
        Item::HayBlock => Some(Meal { heal: 10, age_up_seconds: 90, temper: 6, golden: true }),
        _ => None,
    }
}

/// The food of a kind of horse.
pub open spec fn menu_meal(menu: Menu, item: Item) -> Option<Meal> {
    match menu {
        Menu::Horse => horse_meal(item),
        Menu::Llama => llama_meal(item),
    }
}

/// The food of a kind of horse.
pub fn meal_on(menu: Menu, item: Item) -> (meal: Option<Meal>)
    ensures
        meal == menu_meal(menu, item),
{
    match menu {
        Menu::Horse => meal_of(item),
        Menu::Llama => match item {
            Item::Wheat => Some(Meal { heal: 2, age_up_seconds: 10, temper: 3, golden: false }),
            Item::HayBlock => Some(Meal { heal: 10, age_up_seconds: 90, temper: 6, golden: true }),
            _ => None,
        },
    }
}

/// The food of horses.
pub fn meal_of(item: Item) -> (meal: Option<Meal>)
    ensures
        meal == horse_meal(item),
{
    match item {
        Item::Wheat => Some(Meal { heal: 2, age_up_seconds: 20, temper: 3, golden: false }),
        Item::Sugar => Some(Meal { heal: 1, age_up_seconds: 30, temper: 3, golden: false }),
        Item::HayBlock => Some(Meal { heal: 20, age_up_seconds: 180, temper: 0, golden: false }),
        Item::Apple => Some(Meal { heal: 3, age_up_seconds: 60, temper: 3, golden: false }),
        Item::RedMushroom => Some(Meal { heal: 3, age_up_seconds: 0, temper: 3, golden: false }),
        Item::Carrot => Some(Meal { heal: 3, age_up_seconds: 60, temper: 3, golden: false }),
        Item::GoldenCarrot => Some(Meal { heal: 4, age_up_seconds: 60, temper: 5, golden: true }),
        Item::GoldenApple => Some(Meal { heal: 10, age_up_seconds: 240, temper: 10, golden: true }),
        Item::EnchantedGoldenApple => Some(
            Meal { heal: 10, age_up_seconds: 240, temper: 10, golden: true },
        ),
        _ => None,
    }
}

/// Whether a meal makes the horse fall in love.
pub open spec fn meal_starts_love(mob: MobEntity, rules: HorseRules, meal: Meal) -> bool {
    &&& meal.golden
    &&& rules.can_fall_in_love
    &&& mob.owner is Some
    &&& mob.age >= 0
    &&& mob.love_ticks <= 0
}

/// Whether a meal heals the horse.
pub open spec fn meal_heals(meal: Meal, hurt: bool) -> bool {
    hurt && meal.heal > 0
}

/// Whether a meal makes the horse grow.
pub open spec fn meal_grows(mob: MobEntity, meal: Meal) -> bool {
    mob.age < 0 && meal.age_up_seconds > 0
}

/// Whether a meal does anything but calm the horse.
pub open spec fn meal_works(mob: MobEntity, rules: HorseRules, meal: Meal, hurt: bool) -> bool {
    meal_starts_love(mob, rules, meal) || meal_heals(meal, hurt) || meal_grows(mob, meal)
}

/// Whether a meal changes the temper of the horse.
pub open spec fn meal_calms(
    mob: MobEntity,
    data: AbstractHorseData,
    rules: HorseRules,
    meal: Meal,
    hurt: bool,
) -> bool {
    &&& meal.temper > 0
    &&& meal_works(mob, rules, meal, hurt) || mob.owner is None
    &&& data.temper < rules.max_temper
}

/// Whether the horse eats the meal.
pub open spec fn meal_eaten(
    mob: MobEntity,
    data: AbstractHorseData,
    rules: HorseRules,
    meal: Meal,
    hurt: bool,
) -> bool {
    meal_works(mob, rules, meal, hurt) || meal_calms(mob, data, rules, meal, hurt)
}

/// The age of a baby after it was given some seconds; it does not grow up beyond zero.
pub open spec fn age_given_seconds(age: int, seconds: int) -> int {
    if age + seconds * 20 > 0 {
        0
    } else {
        age + seconds * 20
    }
}

/// The horse after a meal was offered.
pub open spec fn mob_after_meal(
    mob: MobEntity,
    rules: HorseRules,
    meal: Meal,
    player: u128,
) -> MobEntity {
    MobEntity {
        love_ticks: if meal_starts_love(mob, rules, meal) { LOVE_TICKS } else { mob.love_ticks },
        breeder: if meal_starts_love(mob, rules, meal) { Some(player) } else { mob.breeder },
        age: if meal_grows(mob, meal) {
            age_given_seconds(mob.age as int, meal.age_up_seconds as int) as i32
        } else {
            mob.age
        },
        ..mob
    }
}

/// How the horse feels after a meal was offered.
pub open spec fn data_after_meal(
    mob: MobEntity,
    data: AbstractHorseData,
    rules: HorseRules,
    meal: Meal,
    hurt: bool,
) -> AbstractHorseData {
    AbstractHorseData {
        temper: if meal_calms(mob, data, rules, meal, hurt) {
            clamp_temper(data.temper + meal.temper, rules.max_temper as int) as i32
        } else {
            data.temper
        },
        flags: if rules.menu == Menu::Horse && meal_eaten(mob, data, rules, meal, hurt) {
            with_flag(data.flags, FLAG_EATING, true)
        } else {
            data.flags
        },
        ..data
    }
}

/// Signs of growth at half the height of a baby.
pub open spec fn growth_effect() -> Effect {
    Effect::Particles { kind: Particle::HappyVillager, height: 500, speed: 1000, count: 7 }
}

/// What offering a meal asks of the host.
pub open spec fn meal_effects(mob: MobEntity, rules: HorseRules, meal: Meal, hurt: bool) -> Seq<
    Effect,
> {
    let love = if rules.menu == Menu::Horse && meal_starts_love(mob, rules, meal) {
        seq![Effect::LoveHearts]
    } else {
        seq![]
    };
    let heal = if meal_heals(meal, hurt) {
        seq![Effect::Heal(meal.heal)]
    } else {
        seq![]
    };
    let growth = if meal_grows(mob, meal) {
        seq![growth_effect()]
    } else {
        seq![]
    };
    love + heal + growth
}

/// A horse that grazes or starts to, after one tick.
pub open spec fn grazing_ticked(data: AbstractHorseData, starts: bool) -> AbstractHorseData {
    let flags = if starts { with_flag(data.flags, FLAG_EATING, true) } else { data.flags };
    if !has_flag(flags, FLAG_EATING) {
        AbstractHorseData { flags, ..data }
    } else if data.eating_counter + 1 > EATING_TICKS {
        AbstractHorseData { flags: with_flag(flags, FLAG_EATING, false), eating_counter: 0, ..data }
    } else {
        AbstractHorseData { flags, eating_counter: (data.eating_counter + 1) as i32, ..data }
    }
}

/// A horse that may be rearing, after one tick.
pub open spec fn rearing_ticked(data: AbstractHorseData) -> AbstractHorseData {
    if data.stand_counter == 1 {
        AbstractHorseData {
            flags: with_flag(data.flags, FLAG_STANDING, false),
            stand_counter: 0,
            ..data
        }
    } else if data.stand_counter > 1 {
        AbstractHorseData { stand_counter: (data.stand_counter - 1) as i32, ..data }
    } else {
        data
    }
}

/// A horse after one tick, where `draw` decides whether it grazes.
pub open spec fn horse_ticked(
    data: AbstractHorseData,
    rules: HorseRules,
    is_vehicle: bool,
    grass_below: bool,
    draw: int,
) -> AbstractHorseData {
    let rested = rearing_ticked(data);
    grazing_ticked(
        rested,
        rules.can_eat_grass && !has_flag(rested.flags, FLAG_EATING) && !is_vehicle && draw == 0
            && grass_below,
    )
}

/// A horse that rears.
pub open spec fn reared(data: AbstractHorseData) -> AbstractHorseData {
    AbstractHorseData {
        flags: with_flag(with_flag(data.flags, FLAG_EATING, false), FLAG_STANDING, true),
        stand_counter: STAND_TICKS,
        ..data
    }
}

/// A horse on all four hooves that does not eat.
pub open spec fn calmed(data: AbstractHorseData) -> AbstractHorseData {
    AbstractHorseData {
        flags: with_flag(with_flag(data.flags, FLAG_EATING, false), FLAG_STANDING, false),
        stand_counter: 0,
        ..data
    }
}

/// A horse that was made angry.
pub open spec fn maddened(data: AbstractHorseData, rules: HorseRules) -> AbstractHorseData {
    if has_flag(data.flags, FLAG_STANDING) || !rules.can_rear {
        data
    } else {
        reared(data)
    }
}

/// The sound of a horse that was made angry.
pub open spec fn mad_effects(data: AbstractHorseData, rules: HorseRules) -> Seq<Effect> {
    match rules.angry_sound {
        Some(sound) if !has_flag(data.flags, FLAG_STANDING) => seq![Effect::Play(sound)],
        _ => seq![],
    }
}

impl AbstractHorseData {
    /// A horse that has not done anything yet, of a kind with attributes.
    pub fn with_attributes(attributes: HorseAttributes) -> (data: Self)
        ensures
            data == new_horse_data(attributes),
            data.wf(),
    {
        AbstractHorseData { attributes, ..AbstractHorseData::default() }
    }

    /// Notes the value that the host gave an attribute: one that it drew, or one that it set.
    pub fn record_attribute(&mut self, attribute: Attribute, bits: u64)
        ensures
            *final(self) == (AbstractHorseData {
                attributes: recorded(old(self).attributes, attribute, bits),
                ..*old(self)
            }),
            old(self).wf() ==> final(self).wf(),
    {
        match attribute {
            Attribute::MaxHealth => {
                if self.attributes.max_health.is_some() {
                    self.attributes.max_health = Some(bits);
                }
            },
            Attribute::MovementSpeed => {
                if self.attributes.speed.is_some() {
                    self.attributes.speed = Some(bits);
                }
            },
            Attribute::JumpStrength => {
                if self.attributes.jump_strength.is_some() {
                    self.attributes.jump_strength = Some(bits);
                }
            },
        }
    }

    /// The counters stay within the times that they count.
    pub open spec fn wf(self) -> bool {
        &&& 0 <= self.eating_counter <= EATING_TICKS
        &&& 0 <= self.stand_counter <= STAND_TICKS
    }

    pub fn get_flag(&self, flag: u8) -> (set: bool)
        ensures
            set == has_flag(self.flags, flag),
    {
        self.flags & flag != 0
    }

    pub fn set_flag(&mut self, flag: u8, value: bool)
        ensures
            *final(self) == (AbstractHorseData {
                flags: with_flag(old(self).flags, flag, value),
                ..*old(self)
            }),
    {
        if value {
            self.flags = self.flags | flag;
        } else {
            self.flags = self.flags & !flag;
        }
    }

    pub fn get_temper(&self) -> (temper: i32)
        ensures
            temper == self.temper,
    {
        self.temper
    }

    /// Changes the temper by an amount and keeps it between zero and its maximum.
    pub fn modify_temper(&mut self, rules: &HorseRules, amount: i32) -> (temper: i32)
        requires
            rules.max_temper >= 0,
        ensures
            temper == clamp_temper(old(self).temper + amount, rules.max_temper as int),
            *final(self) == (AbstractHorseData { temper, ..*old(self) }),
    {
        let sum: i64 = self.temper as i64 + amount as i64;
        let temper: i32 = if sum < 0 {
            0
        } else if sum > rules.max_temper as i64 {
            rules.max_temper
        } else {
            sum as i32
        };
        self.temper = temper;
        temper
    }

    /// One tick, where `draw` decides whether the horse starts to graze.
    pub fn tick_with_draw(
        &mut self,
        rules: &HorseRules,
        is_vehicle: bool,
        grass_below: bool,
        draw: i32,
    )
        requires
            old(self).wf(),
        ensures
            *final(self) == horse_ticked(
                *old(self),
                *rules,
                is_vehicle,
                grass_below,
                draw as int,
            ),
            final(self).wf(),
    {
        if self.stand_counter > 0 {
            let before: i32 = self.stand_counter;
            self.stand_counter = before - 1;
            if before <= 1 {
                self.clear_standing();
            }
        }
        if rules.can_eat_grass && !self.get_flag(FLAG_EATING) && !is_vehicle && draw == 0
            && grass_below {
            self.set_flag(FLAG_EATING, true);
        }
        if self.get_flag(FLAG_EATING) {
            self.eating_counter = self.eating_counter + 1;
            if self.eating_counter > EATING_TICKS {
                self.eating_counter = 0;
                self.set_flag(FLAG_EATING, false);
            }
        }
    }

    /// One tick: a horse that rears comes down in time, and one that nobody rides may graze.
    pub fn tick_horse_ai(&mut self, rules: &HorseRules, is_vehicle: bool, grass_below: bool)
        requires
            old(self).wf(),
        ensures
            final(self).wf(),
            exists|draw: int|
                0 <= draw < GRAZE_ODDS && *final(self) == #[trigger] horse_ticked(
                    *old(self),
                    *rules,
                    is_vehicle,
                    grass_below,
                    draw,
                ),
    {
        let draw: i32 = roll(0, GRAZE_ODDS);
        self.tick_with_draw(rules, is_vehicle, grass_below, draw);
    }

    /// Whether the horse was bred.
    pub fn is_bred(&self) -> (bred: bool)
        ensures
            bred == has_flag(self.flags, FLAG_BRED),
    {
        self.get_flag(FLAG_BRED)
    }

    /// Whether the horse eats or rears and so stays where it is.
    pub fn is_immobile(&self) -> (immobile: bool)
        ensures
            immobile == (has_flag(self.flags, FLAG_EATING) || has_flag(self.flags, FLAG_STANDING)),
    {
        self.get_flag(FLAG_EATING) || self.get_flag(FLAG_STANDING)
    }

    /// Makes the horse rear and sound angry, unless it rears already.
    pub fn make_mad(&mut self, rules: &HorseRules, effects: &mut Vec<Effect>)
        ensures
            *final(self) == maddened(*old(self), *rules),
            final(effects)@ == old(effects)@ + mad_effects(*old(self), *rules),
            old(self).wf() ==> final(self).wf(),
    {
        if !self.get_flag(FLAG_STANDING) {
            self.stand_if_possible(rules);
            if let Some(sound) = rules.angry_sound {
                effects.push(Effect::Play(sound));
            }
        }
    }

    /// Makes the horse rear where its kind can.
    pub fn stand_if_possible(&mut self, rules: &HorseRules)
        ensures
            *final(self) == (if rules.can_rear { reared(*old(self)) } else { *old(self) }),
    {
        if rules.can_rear {
            self.set_flag(FLAG_EATING, false);
            self.set_flag(FLAG_STANDING, true);
            self.stand_counter = STAND_TICKS;
        }
    }

    /// Puts the horse back on all four hooves.
    pub fn clear_standing(&mut self)
        ensures
            *final(self) == (AbstractHorseData {
                flags: with_flag(old(self).flags, FLAG_STANDING, false),
                stand_counter: 0,
                ..*old(self)
            }),
    {
        self.set_flag(FLAG_STANDING, false);
        self.stand_counter = 0;
    }

    /// Lets a player ride the horse.
    pub fn do_player_ride(&mut self, player: &Player, effects: &mut Vec<Effect>)
        ensures
            *final(self) == calmed(*old(self)),
            final(effects)@ == old(effects)@.push(Effect::Mount { player: player.id }),
    {
        self.set_flag(FLAG_EATING, false);
        self.clear_standing();
        effects.push(Effect::Mount { player: player.id });
    }

    /// Offers a meal to the horse, and says whether it was eaten.
    pub fn eat_meal(
        &mut self,
        mob: &mut MobEntity,
        rules: &HorseRules,
        meal: Meal,
        player: u128,
        hurt: bool,
        effects: &mut Vec<Effect>,
    ) -> (eaten: bool)
        requires
            rules.max_temper >= 0,
            0 <= meal.age_up_seconds <= 1000,
            0 <= meal.temper <= 1000,
        ensures
            eaten == meal_eaten(*old(mob), *old(self), *rules, meal, hurt),
            *final(mob) == mob_after_meal(*old(mob), *rules, meal, player),
            *final(self) == data_after_meal(*old(mob), *old(self), *rules, meal, hurt),
            final(effects)@ == old(effects)@ + meal_effects(*old(mob), *rules, meal, hurt),
    {
        let mut eaten: bool = false;
        if meal.golden && rules.can_fall_in_love && mob.is_tamed() && !mob.is_baby()
            && !mob.is_in_love() {
            eaten = true;
            mob.set_love_ticks(LOVE_TICKS, Some(player));
            if rules.menu == Menu::Horse {
                effects.push(Effect::LoveHearts);
            }
        }
        if hurt && meal.heal > 0 {
            effects.push(Effect::Heal(meal.heal));
            eaten = true;
        }
        if mob.is_baby() && meal.age_up_seconds > 0 {
            effects.push(
                Effect::Particles {
                    kind: Particle::HappyVillager,
                    height: 500,
                    speed: 1000,
                    count: 7,
                },
            );
            let grown: i32 = mob.age + meal.age_up_seconds * 20;
            mob.age = if grown > 0 { 0 } else { grown };
            eaten = true;
        }
        if meal.temper > 0 && (eaten || !mob.is_tamed()) && self.temper < rules.max_temper {
            self.modify_temper(rules, meal.temper);
            eaten = true;
        }
        if eaten && rules.menu == Menu::Horse {
            self.set_flag(FLAG_EATING, true);
        }
        eaten
    }

    /// Offers an item to the horse, and says whether it was eaten. Nothing but the food of its
    /// kind is.
    pub fn handle_eating(
        &mut self,
        mob: &mut MobEntity,
        rules: &HorseRules,
        item: Item,
        player: u128,
        hurt: bool,
        effects: &mut Vec<Effect>,
    ) -> (eaten: bool)
        requires
            rules.max_temper >= 0,
        ensures
            match menu_meal(rules.menu, item) {
                Some(meal) => {
                    &&& eaten == meal_eaten(*old(mob), *old(self), *rules, meal, hurt)
                    &&& *final(mob) == mob_after_meal(*old(mob), *rules, meal, player)
                    &&& *final(self) == data_after_meal(*old(mob), *old(self), *rules, meal, hurt)
                    &&& final(effects)@ == old(effects)@ + meal_effects(
                        *old(mob),
                        *rules,
                        meal,
                        hurt,
                    )
                },
                None => {
                    &&& !eaten
                    &&& *final(mob) == *old(mob)
                    &&& *final(self) == *old(self)
                    &&& final(effects)@ == old(effects)@
                },
            },
            old(self).wf() ==> final(self).wf(),
    {
        match meal_on(rules.menu, item) {
            Some(meal) => self.eat_meal(mob, rules, meal, player, hurt, effects),
            None => false,
        }
    }

    /// Saves whether the horse eats, whether it was bred, its temper and what it is capable of.
    pub fn write_horse_nbt(&self, nbt: &mut NbtCompound)
        ensures
            final(nbt)@ == horse_saved(old(nbt)@, *self),
    {
        nbt.put_bool("EatingHaystack", self.get_flag(FLAG_EATING));
        nbt.put_bool("Bred", self.get_flag(FLAG_BRED));
        nbt.put_int("Temper", self.temper);
        if let Some(bits) = self.attributes.max_health {
            nbt.put_double("PumpkinHorseMaxHealth", bits);
        }
        if let Some(bits) = self.attributes.speed {
            nbt.put_double("PumpkinHorseSpeed", bits);
        }
        if let Some(bits) = self.attributes.jump_strength {
            nbt.put_double("PumpkinHorseJumpStrength", bits);
        }
    }

    /// Restores whether the horse eats, whether it was bred, its temper and what it is capable
    /// of. It has no more health than it can have then.
    pub fn read_horse_nbt(&mut self, nbt: &NbtCompound, effects: &mut Vec<Effect>)
        ensures
            *final(self) == horse_restored(*old(self), nbt@),
            final(effects)@ == old(effects)@ + horse_restore_effects(old(self).attributes, nbt@),
            old(self).wf() ==> final(self).wf(),
    {
        self.set_flag(FLAG_EATING, nbt.get_bool("EatingHaystack").unwrap_or(false));
        self.set_flag(FLAG_BRED, nbt.get_bool("Bred").unwrap_or(false));
        self.temper = nbt.get_int("Temper").unwrap_or(0);
        self.attributes.max_health = restore_attribute(
            Attribute::MaxHealth,
            self.attributes.max_health,
            nbt.get_double("PumpkinHorseMaxHealth"),
            effects,
        );
        self.attributes.speed = restore_attribute(
            Attribute::MovementSpeed,
            self.attributes.speed,
            nbt.get_double("PumpkinHorseSpeed"),
            effects,
        );
        self.attributes.jump_strength = restore_attribute(
            Attribute::JumpStrength,
            self.attributes.jump_strength,
            nbt.get_double("PumpkinHorseJumpStrength"),
            effects,
        );
        effects.push(Effect::CapHealth);
    }
}

/// An attribute as it was saved, where the horse has it and something was saved.
pub open spec fn attribute_restored(current: Option<u64>, saved: Option<u64>) -> Option<u64> {
    if current is Some && saved is Some {
        saved
    } else {
        current
    }
}

/// What restoring an attribute asks of the host.
pub open spec fn attribute_effects(
    attribute: Attribute,
    current: Option<u64>,
    saved: Option<u64>,
) -> Seq<Effect> {
    match (current, saved) {
        (Some(_), Some(bits)) => seq![Effect::SetAttribute { attribute, bits }],
        _ => seq![],
    }
}

fn restore_attribute(
    attribute: Attribute,
    current: Option<u64>,
    saved: Option<u64>,
    effects: &mut Vec<Effect>,
) -> (restored: Option<u64>)
    ensures
        restored == attribute_restored(current, saved),
        final(effects)@ == old(effects)@ + attribute_effects(attribute, current, saved),
{
    if let Some(bits) = saved {
        if current.is_some() {
            effects.push(Effect::SetAttribute { attribute, bits });
            return Some(bits);
        }
    }
    current
}

/// What restoring a horse asks of the host.
pub open spec fn horse_restore_effects(
    attributes: HorseAttributes,
    nbt: Map<Seq<char>, NbtValue>,
) -> Seq<Effect> {
    attribute_effects(
        Attribute::MaxHealth,
        attributes.max_health,
        double_at(nbt, "PumpkinHorseMaxHealth"@),
    ) + attribute_effects(
        Attribute::MovementSpeed,
        attributes.speed,
        double_at(nbt, "PumpkinHorseSpeed"@),
    ) + attribute_effects(
        Attribute::JumpStrength,
        attributes.jump_strength,
        double_at(nbt, "PumpkinHorseJumpStrength"@),
    ) + seq![Effect::CapHealth]
}

/// Saved values with an attribute, where there is one.
pub open spec fn with_attribute(
    nbt: Map<Seq<char>, NbtValue>,
    name: Seq<char>,
    value: Option<u64>,
) -> Map<Seq<char>, NbtValue> {
    match value {
        Some(bits) => nbt.insert(name, NbtValue::Double(bits)),
        None => nbt,
    }
}

/// What is saved of a horse.
pub open spec fn horse_saved(
    nbt: Map<Seq<char>, NbtValue>,
    data: AbstractHorseData,
) -> Map<Seq<char>, NbtValue> {
    let mood = nbt.insert("EatingHaystack"@, bool_value(has_flag(data.flags, FLAG_EATING))).insert(
        "Bred"@,
        bool_value(has_flag(data.flags, FLAG_BRED)),
    ).insert("Temper"@, NbtValue::Int(data.temper));
    let health = with_attribute(mood, "PumpkinHorseMaxHealth"@, data.attributes.max_health);
    let speed = with_attribute(health, "PumpkinHorseSpeed"@, data.attributes.speed);
    with_attribute(speed, "PumpkinHorseJumpStrength"@, data.attributes.jump_strength)
}

/// A horse with its saved state restored.
pub open spec fn horse_restored(
    data: AbstractHorseData,
    nbt: Map<Seq<char>, NbtValue>,
) -> AbstractHorseData {
    let eating = match bool_at(nbt, "EatingHaystack"@) {
        Some(value) => value,
        None => false,
    };
    let bred = match bool_at(nbt, "Bred"@) {
        Some(value) => value,
        None => false,
    };
    AbstractHorseData {
        flags: with_flag(with_flag(data.flags, FLAG_EATING, eating), FLAG_BRED, bred),
        temper: match int_at(nbt, "Temper"@) {
            Some(temper) => temper,
            None => 0,
        },
        attributes: HorseAttributes {
            max_health: attribute_restored(
                data.attributes.max_health,
                double_at(nbt, "PumpkinHorseMaxHealth"@),
            ),
            speed: attribute_restored(
                data.attributes.speed,
                double_at(nbt, "PumpkinHorseSpeed"@),
            ),
            jump_strength: attribute_restored(
                data.attributes.jump_strength,
                double_at(nbt, "PumpkinHorseJumpStrength"@),
            ),
        },
        ..data
    }
}

/// The names under which horses are saved are all different.
pub proof fn lemma_horse_names()
    ensures
        "EatingHaystack"@.len() == 14,
        "Bred"@.len() == 4,
        "Temper"@.len() == 6,
        "PumpkinHorseMaxHealth"@.len() == 21,
        "PumpkinHorseSpeed"@.len() == 17,
        "PumpkinHorseJumpStrength"@.len() == 24,
{
    reveal_strlit("EatingHaystack");
    reveal_strlit("Bred");
    reveal_strlit("Temper");
    reveal_strlit("PumpkinHorseMaxHealth");
    reveal_strlit("PumpkinHorseSpeed");
    reveal_strlit("PumpkinHorseJumpStrength");
}

/// Whether a restored horse has all that was saved of another one: whether it eats, whether it
/// was bred, its temper, and each attribute that both have.
pub open spec fn carries_over(back: AbstractHorseData, data: AbstractHorseData) -> bool {
    &&& has_flag(back.flags, FLAG_EATING) == has_flag(data.flags, FLAG_EATING)
    &&& has_flag(back.flags, FLAG_BRED) == has_flag(data.flags, FLAG_BRED)
    &&& back.temper == data.temper
    &&& data.attributes.max_health is Some && back.attributes.max_health is Some
        ==> back.attributes.max_health == data.attributes.max_health
    &&& data.attributes.speed is Some && back.attributes.speed is Some ==> back.attributes.speed
        == data.attributes.speed
    &&& data.attributes.jump_strength is Some && back.attributes.jump_strength is Some
        ==> back.attributes.jump_strength == data.attributes.jump_strength
}

/// Restoring a saved horse gives back whether it eats, whether it was bred, its temper, and
/// what it is capable of. Attributes that its kind has not are not added, and none is lost.
pub proof fn law_horse_round_trip(
    nbt: Map<Seq<char>, NbtValue>,
    data: AbstractHorseData,
    other: AbstractHorseData,
)
    ensures
        ({
            let back = horse_restored(other, horse_saved(nbt, data));
            &&& carries_over(back, data)
            &&& same_kind(back.attributes, other.attributes)
            &&& same_kind(data.attributes, other.attributes) ==> back.attributes == data.attributes
        }),
{
    lemma_horse_names();
    let saved = horse_saved(nbt, data);
    let eating = has_flag(data.flags, FLAG_EATING);
    let bred = has_flag(data.flags, FLAG_BRED);
    assert(bool_at(saved, "EatingHaystack"@) == Some(eating));
    assert(bool_at(saved, "Bred"@) == Some(bred));
    lemma_horse_flags_disjoint();
    let once = with_flag(other.flags, FLAG_EATING, eating);
    law_flag_reads_back(other.flags, FLAG_EATING, eating);
    law_flag_leaves_others(once, FLAG_BRED, FLAG_EATING, bred);
    law_flag_reads_back(once, FLAG_BRED, bred);
}

/// A saved horse that is loaded as a new one of its kind gets its own attributes back, whatever
/// was drawn for the new one, and the host is asked for each of them.
pub proof fn law_load_overwrites_what_was_drawn(
    nbt: Map<Seq<char>, NbtValue>,
    data: AbstractHorseData,
    drawn: HorseAttributes,
)
    requires
        same_kind(data.attributes, drawn),
    ensures
        ({
            let saved = horse_saved(nbt, data);
            let back = horse_restored(new_horse_data(drawn), saved);
            let effects = horse_restore_effects(drawn, saved);
            &&& carries_over(back, data)
            &&& back.attributes == data.attributes
            &&& data.attributes.max_health matches Some(bits) ==> effects.contains(
                Effect::SetAttribute { attribute: Attribute::MaxHealth, bits },
            )
            &&& data.attributes.speed matches Some(bits) ==> effects.contains(
                Effect::SetAttribute { attribute: Attribute::MovementSpeed, bits },
            )
            &&& data.attributes.jump_strength matches Some(bits) ==> effects.contains(
                Effect::SetAttribute { attribute: Attribute::JumpStrength, bits },
            )
        }),
{
    law_horse_round_trip(nbt, data, new_horse_data(drawn));
    lemma_horse_names();
    let saved = horse_saved(nbt, data);
    let effects = horse_restore_effects(drawn, saved);
    let health = attribute_effects(
        Attribute::MaxHealth,
        drawn.max_health,
        double_at(saved, "PumpkinHorseMaxHealth"@),
    );
    let speed = attribute_effects(
        Attribute::MovementSpeed,
        drawn.speed,
        double_at(saved, "PumpkinHorseSpeed"@),
    );
    if data.attributes.max_health is Some {
        assert(effects[0] == health[0]);
    }
    if data.attributes.speed is Some {
        assert(effects[health.len() as int] == speed[0]);
    }
    if data.attributes.jump_strength is Some {
        let at = (health.len() + speed.len()) as int;
        assert(effects[at] == (Effect::SetAttribute {
            attribute: Attribute::JumpStrength,
            bits: data.attributes.jump_strength->0,
        }));
    }
}

/// However often and by however much it is changed, the temper lies between zero and its
/// maximum.
pub proof fn law_temper_stays_in_bounds(value: int, max: int)
    requires
        max >= 0,
    ensures
        0 <= clamp_temper(value, max) <= max,
{
}

/// A meal never lowers a temper that is not negative, and never lifts it over the maximum.
pub proof fn law_meal_raises_temper(
    mob: MobEntity,
    data: AbstractHorseData,
    rules: HorseRules,
    item: Item,
    hurt: bool,
)
    requires
        menu_meal(rules.menu, item) is Some,
        0 <= data.temper <= rules.max_temper,
    ensures
        data.temper <= data_after_meal(mob, data, rules, menu_meal(rules.menu, item)->0, hurt).temper
            <= rules.max_temper,
{
}

/// A horse that is grown, tame and not hurt refuses all food but gold.
pub proof fn law_content_horse_refuses_plain_food(
    mob: MobEntity,
    data: AbstractHorseData,
    rules: HorseRules,
    item: Item,
)
    requires
        menu_meal(rules.menu, item) is Some,
        !menu_meal(rules.menu, item)->0.golden,
        mob.owner is Some,
        mob.age >= 0,
    ensures
        !meal_eaten(mob, data, rules, menu_meal(rules.menu, item)->0, false),
{
}

/// A horse that rears comes down after its time, counted in ticks.
pub proof fn law_rearing_ends(data: AbstractHorseData, ticks: nat)
    requires
        data.wf(),
        data.stand_counter == ticks,
        ticks > 0,
    ensures
        !has_flag(rearing_after(data, ticks).flags, FLAG_STANDING),
        rearing_after(data, ticks).stand_counter == 0,
    decreases ticks,
{
    law_flag_reads_back(data.flags, FLAG_STANDING, false);
    if ticks > 1 {
        law_rearing_ends(rearing_ticked(data), (ticks - 1) as nat);
    } else {
        assert(rearing_after(rearing_ticked(data), 0) == rearing_ticked(data));
    }
}

/// A horse that may be rearing, after some ticks.
pub open spec fn rearing_after(data: AbstractHorseData, ticks: nat) -> AbstractHorseData
    decreases ticks,
{
    if ticks == 0 {
        data
    } else {
        rearing_after(rearing_ticked(data), (ticks - 1) as nat)
    }
}

/// The health of a horse for two draws.
pub open spec fn max_health(first: int, second: int) -> int {
    15 + first + second
}

/// The health of a horse for two draws.
pub fn max_health_from_rolls(first: i32, second: i32) -> (health: i32)
    requires
        0 <= first < 8,
        0 <= second < 9,
    ensures
        health == max_health(first as int, second as int),
{
    15 + first + second
}

/// Draws the health of a new horse.
pub fn generate_max_health() -> (health: i32)
    ensures
        15 <= health <= 30,
{
    let first: i32 = roll(0, 8);
    let second: i32 = roll(0, 9);
    max_health_from_rolls(first, second)
}

/// The bits of the health of a horse, as a floating-point number.
pub open spec fn health_bits(health: int) -> u64 {
    if health == 15 {
        MIN_HEALTH
    } else {
        (0x4030_0000_0000_0000 + (health - 16) * 0x1_0000_0000_0000) as u64
    }
}

/// The bits of a health that can be drawn lie between those of the least and the most.
pub proof fn law_drawn_health_lies_in_range(health: int)
    requires
        15 <= health <= 30,
    ensures
        MIN_HEALTH <= health_bits(health) <= MAX_HEALTH,
        health_bits(15) == MIN_HEALTH,
        health_bits(30) == MAX_HEALTH,
{
}

/// What giving a horse a maximum of health asks of the host, where it has such an attribute.
pub open spec fn max_health_effects(attributes: HorseAttributes, health: u32) -> Seq<Effect> {
    if attributes.max_health is Some {
        seq![Effect::SetMaxHealth(health)]
    } else {
        seq![]
    }
}

/// What a horse is capable of with a drawn health.
pub open spec fn with_health(attributes: HorseAttributes, health: u32) -> HorseAttributes {
    recorded(attributes, Attribute::MaxHealth, health_bits(health as int))
}

/// Gives a horse a maximum of health.
pub fn set_max_health(data: &mut AbstractHorseData, health: u32, effects: &mut Vec<Effect>)
    requires
        15 <= health <= 30,
    ensures
        *final(data) == (AbstractHorseData {
            attributes: with_health(old(data).attributes, health),
            ..*old(data)
        }),
        final(effects)@ == old(effects)@ + max_health_effects(old(data).attributes, health),
{
    let bits: u64 = if health == 15 {
        MIN_HEALTH
    } else {
        0x4030_0000_0000_0000 + (health as u64 - 16) * 0x1_0000_0000_0000
    };
    if data.attributes.max_health.is_some() {
        effects.push(Effect::SetMaxHealth(health));
    }
    data.record_attribute(Attribute::MaxHealth, bits);
}

/// Giving a horse a new maximum of health, where it has one, and then all the health it can
/// have.
pub open spec fn health_effects(attributes: HorseAttributes, health: u32) -> Seq<Effect> {
    max_health_effects(attributes, health).push(Effect::FillHealth)
}

/// Draws the health of a new horse, and gives it all of it.
pub fn randomize_max_health(data: &mut AbstractHorseData, effects: &mut Vec<Effect>)
    ensures
        exists|health: u32|
            15 <= health <= 30 && *final(data) == (AbstractHorseData {
                attributes: with_health(old(data).attributes, health),
                ..*old(data)
            }) && final(effects)@ == old(effects)@ + #[trigger] health_effects(
                old(data).attributes,
                health,
            ),
{
    let health: i32 = generate_max_health();
    set_max_health(data, health as u32, effects);
    effects.push(Effect::FillHealth);
    assert(effects@ =~= old(effects)@ + health_effects(old(data).attributes, health as u32));
}

/// Who may wear an item.
pub enum Wearers {
    Anyone,
    /// Those under a tag; `included` says whether the mob in question is.
    Tagged { tag: String, included: bool },
    Kinds(Vec<EntityKind>),
}

/// How an item is worn.
pub struct Equippable {
    pub slot: EquipmentSlot,
    /// Whether it is put on by using it on a mob.
    pub equip_on_interact: bool,
    pub wearers: Wearers,
}

/// Whether a mob of a kind may wear an item.
pub open spec fn may_wear(wearers: Wearers, kind: EntityKind) -> bool {
    match wearers {
        Wearers::Anyone => true,
        Wearers::Tagged { included, .. } => included,
        Wearers::Kinds(kinds) => kinds@.contains(kind),
    }
}

/// Whether an item can be worn in a slot by a mob of a kind. Most items cannot be worn at all.
pub open spec fn fits(item: Option<&Equippable>, slot: EquipmentSlot, kind: EntityKind) -> bool {
    match item {
        Some(worn) => worn.slot == slot && may_wear(worn.wearers, kind),
        None => false,
    }
}

fn is_among(kinds: &Vec<EntityKind>, kind: EntityKind) -> (found: bool)
    ensures
        found == kinds@.contains(kind),
{
    let mut i: usize = 0;
    while i < kinds.len()
        invariant
            i <= kinds.len(),
            forall|j: int| 0 <= j < i ==> kinds@[j] != kind,
        decreases kinds.len() - i,
    {
        if kinds[i] == kind {
            return true;
        }
        i = i + 1;
    }
    false
}

fn allows(wearers: &Wearers, kind: EntityKind) -> (allowed: bool)
    ensures
        allowed == may_wear(*wearers, kind),
{
    match wearers {
        Wearers::Anyone => true,
        Wearers::Tagged { included, .. } => *included,
        Wearers::Kinds(kinds) => is_among(kinds, kind),
    }
}

/// Whether an item is a saddle for a mob of a kind.
pub fn is_valid_saddle_item(item: Option<&Equippable>, kind: EntityKind) -> (valid: bool)
    ensures
        valid == fits(item, EquipmentSlot::Saddle, kind),
{
    match item {
        Some(worn) => worn.slot == EquipmentSlot::Saddle && allows(&worn.wearers, kind),
        None => false,
    }
}

/// Whether an item is armour for a mob of a kind.
pub fn is_valid_body_armor_item(item: Option<&Equippable>, kind: EntityKind) -> (valid: bool)
    ensures
        valid == fits(item, EquipmentSlot::Body, kind),
{
    match item {
        Some(worn) => worn.slot == EquipmentSlot::Body && allows(&worn.wearers, kind),
        None => false,
    }
}

/// Whether an item is a saddle for a mob of a kind that is put on by using it.
pub fn saddle_equip_on_interact(item: Option<&Equippable>, kind: EntityKind) -> (equips: bool)
    ensures
        equips == (fits(item, EquipmentSlot::Saddle, kind) && item->0.equip_on_interact),
{
    match item {
        Some(worn) => worn.equip_on_interact && is_valid_saddle_item(item, kind),
        None => false,
    }
}

/// Makes a horse tame and gives it to a player, which shows in hearts.
pub fn set_tamed(mob: &mut MobEntity, owner: u128, effects: &mut Vec<Effect>)
    ensures
        *final(mob) == (MobEntity { owner: Some(owner), ..*old(mob) }),
        final(effects)@ == old(effects)@.push(feeling(Particle::Heart)),
{
    mob.set_owner(owner);
    effects.push(show_feeling(Particle::Heart));
}

/// What an interaction reads of a horse's surroundings and equipment.
#[derive(Clone, Copy)]
pub struct HorseContext {
    /// Whether someone rides the horse.
    pub is_vehicle: bool,
    /// Whether the horse is alive.
    pub alive: bool,
    /// Whether the item in hand is food for this kind of horse.
    pub food: bool,
    /// Whether the horse has less than its full health.
    pub hurt: bool,
    /// Whether the item in hand is armour for this kind of horse.
    pub fits_body_armor: bool,
    /// Whether the horse wears no armour.
    pub body_armor_empty: bool,
    /// Whether the item in hand is a saddle that is put on by using it.
    pub fits_saddle: bool,
    /// Whether a saddle for this kind of horse is in the saddle slot.
    pub wears_saddle: bool,
}

/// Whether the horse can wear a saddle.
pub open spec fn saddle_slot_usable(mob: MobEntity, alive: bool) -> bool {
    alive && mob.age >= 0 && mob.owner is Some
}

/// Whether the horse can wear a saddle.
pub fn can_use_saddle_slot(mob: &MobEntity, alive: bool) -> (usable: bool)
    ensures
        usable == saddle_slot_usable(*mob, alive),
{
    alive && !mob.is_baby() && mob.is_tamed()
}

/// Whether the horse is saddled.
pub fn is_saddled(mob: &MobEntity, alive: bool, wears_saddle: bool) -> (saddled: bool)
    ensures
        saddled == (saddle_slot_usable(*mob, alive) && wears_saddle),
{
    can_use_saddle_slot(mob, alive) && wears_saddle
}

/// Whether the horse obeys a rider: the first rider of a saddled horse controls it if it is a
/// player; `otherwise` is what holds of mobs in general.
pub fn has_saddled_player_passenger(
    saddled: bool,
    first_passenger_is_player: bool,
    otherwise: bool,
) -> (controlled: bool)
    ensures
        controlled == (saddled && first_passenger_is_player || otherwise),
{
    if !saddled {
        return otherwise;
    }
    if first_passenger_is_player {
        return true;
    }
    otherwise
}

/// What a horse does when a player uses an item on it.
pub enum HorseReaction {
    /// It leaves the interaction to what all mobs share.
    Shared,
    /// It shows what it carries.
    ShowInventory,
    /// It is offered the item as food.
    Feed,
    /// It becomes angry.
    Mad,
    /// It gets a chest.
    TakeChest,
    /// It puts armour on.
    WearArmor,
    /// It puts a saddle on.
    WearSaddle,
    /// It lets the player ride.
    Ride,
}

/// How a horse reacts to a player with an item.
pub open spec fn horse_reaction(
    mob: MobEntity,
    cx: HorseContext,
    player: Player,
    stack: ItemStack,
) -> HorseReaction {
    if cx.is_vehicle || mob.age < 0 {
        HorseReaction::Shared
    } else if mob.owner is Some && player.sneaking {
        HorseReaction::ShowInventory
    } else if stack.holds_nothing() {
        HorseReaction::Ride
    } else if cx.food {
        HorseReaction::Feed
    } else if mob.owner is None {
        HorseReaction::Mad
    } else if cx.fits_body_armor && cx.body_armor_empty {
        HorseReaction::WearArmor
    } else if cx.fits_saddle && cx.alive && !cx.wears_saddle {
        HorseReaction::WearSaddle
    } else {
        HorseReaction::Ride
    }
}

/// Everything that an interaction with a horse may change.
pub struct HorseScene {
    pub mob: MobEntity,
    pub data: AbstractHorseData,
    pub stack: ItemStack,
    pub effects: Seq<Effect>,
    pub outcome: Interaction,
}

/// A horse that puts on one item of the stack.
pub open spec fn equipped(scene: HorseScene, player: Player, slot: EquipmentSlot) -> HorseScene {
    let one = ItemStack {
        item: scene.stack.item,
        count: if scene.stack.count < 1 { scene.stack.count } else { 1 },
    };
    HorseScene {
        stack: after_use(scene.stack, player.gamemode, 1),
        effects: scene.effects + seq![
            Effect::Equip { slot, stack: one },
            Effect::PlayEquipSound(scene.stack.item),
        ],
        outcome: Interaction::Handled,
        ..scene
    }
}

/// A horse that was offered the item in hand as food.
pub open spec fn offered(
    scene: HorseScene,
    rules: HorseRules,
    hurt: bool,
    player: Player,
) -> HorseScene {
    match menu_meal(rules.menu, scene.stack.item) {
        Some(meal) => {
            let eaten = meal_eaten(scene.mob, scene.data, rules, meal, hurt);
            HorseScene {
                mob: mob_after_meal(scene.mob, rules, meal, player.id),
                data: data_after_meal(scene.mob, scene.data, rules, meal, hurt),
                stack: if eaten {
                    after_use(scene.stack, player.gamemode, 1)
                } else {
                    scene.stack
                },
                effects: scene.effects + meal_effects(scene.mob, rules, meal, hurt),
                outcome: if eaten { Interaction::Handled } else { Interaction::Refused },
            }
        },
        None => HorseScene { outcome: Interaction::Refused, ..scene },
    }
}

/// What comes of an interaction with a horse that has no chest.
pub open spec fn horse_interacted(
    scene: HorseScene,
    rules: HorseRules,
    cx: HorseContext,
    player: Player,
) -> HorseScene {
    match horse_reaction(scene.mob, cx, player, scene.stack) {
        HorseReaction::Shared => HorseScene { outcome: Interaction::Shared, ..scene },
        HorseReaction::ShowInventory => HorseScene { outcome: Interaction::Handled, ..scene },
        HorseReaction::Feed => offered(scene, rules, cx.hurt, player),
        HorseReaction::Mad => HorseScene {
            data: maddened(scene.data, rules),
            effects: scene.effects + mad_effects(scene.data, rules),
            outcome: Interaction::Handled,
            ..scene
        },
        HorseReaction::WearArmor => equipped(scene, player, EquipmentSlot::Body),
        HorseReaction::WearSaddle => equipped(scene, player, EquipmentSlot::Saddle),
        _ => HorseScene {
            data: calmed(scene.data),
            effects: scene.effects.push(Effect::Mount { player: player.id }),
            outcome: Interaction::Handled,
            ..scene
        },
    }
}

/// Puts one item of the stack into an equipment slot.
pub fn equip_item(
    slot: EquipmentSlot,
    player: &Player,
    stack: &mut ItemStack,
    effects: &mut Vec<Effect>,
)
    ensures
        *final(stack) == after_use(*old(stack), player.gamemode, 1),
        final(effects)@ == old(effects)@ + seq![
            Effect::Equip {
                slot,
                stack: (ItemStack {
                    item: old(stack).item,
                    count: if old(stack).count < 1 { old(stack).count } else { 1 },
                }),
            },
            Effect::PlayEquipSound(old(stack).item),
        ],
{
    let item = stack.item;
    let one = stack.split_unless_creative(player.gamemode, 1);
    effects.push(Effect::Equip { slot, stack: one });
    effects.push(Effect::PlayEquipSound(item));
}

/// Offers the item in hand to a horse, and uses it up if it is eaten.
pub fn fed_food(
    mob: &mut MobEntity,
    data: &mut AbstractHorseData,
    rules: &HorseRules,
    hurt: bool,
    player: &Player,
    stack: &mut ItemStack,
    effects: &mut Vec<Effect>,
) -> (outcome: Interaction)
    requires
        rules.max_temper >= 0,
    ensures
        (HorseScene {
            mob: *final(mob),
            data: *final(data),
            stack: *final(stack),
            effects: final(effects)@,
            outcome,
        }) == offered(
            (HorseScene {
                mob: *old(mob),
                data: *old(data),
                stack: *old(stack),
                effects: old(effects)@,
                outcome,
            }),
            *rules,
            hurt,
            *player,
        ),
        old(data).wf() ==> final(data).wf(),
{
    let ate = data.handle_eating(mob, rules, stack.item, player.id, hurt, effects);
    if ate {
        stack.decrement_unless_creative(player.gamemode, 1);
        Interaction::Handled
    } else {
        Interaction::Refused
    }
}

/// Lets a player use an item on a horse that has no chest.
pub fn abstract_horse_mob_interact(
    mob: &mut MobEntity,
    data: &mut AbstractHorseData,
    rules: &HorseRules,
    cx: &HorseContext,
    player: &Player,
    stack: &mut ItemStack,
    effects: &mut Vec<Effect>,
) -> (outcome: Interaction)
    requires
        rules.max_temper >= 0,
    ensures
        (HorseScene {
            mob: *final(mob),
            data: *final(data),
            stack: *final(stack),
            effects: final(effects)@,
            outcome,
        }) == horse_interacted(
            (HorseScene {
                mob: *old(mob),
                data: *old(data),
                stack: *old(stack),
                effects: old(effects)@,
                outcome,
            }),
            *rules,
            *cx,
            *player,
        ),
        old(data).wf() ==> final(data).wf(),
{
    if cx.is_vehicle || mob.is_baby() {
        return Interaction::Shared;
    }
    if mob.is_tamed() && player.sneaking {
        return Interaction::Handled;
    }
    if !stack.is_empty() {
        if cx.food {
            return fed_food(mob, data, rules, cx.hurt, player, stack, effects);
        }
        if !mob.is_tamed() {
            data.make_mad(rules, effects);
            return Interaction::Handled;
        }
        if cx.fits_body_armor && cx.body_armor_empty {
            equip_item(EquipmentSlot::Body, player, stack, effects);
            return Interaction::Handled;
        }
        if cx.fits_saddle && !is_saddled(mob, cx.alive, cx.wears_saddle) && can_use_saddle_slot(
            mob,
            cx.alive,
        ) {
            equip_item(EquipmentSlot::Saddle, player, stack, effects);
            return Interaction::Handled;
        }
    }
    data.do_player_ride(player, effects);
    Interaction::Handled
}

/// A chest on the back of a horse, and what is in it.
pub struct ChestedHorseData {
    pub has_chest: bool,
    pub inventory: Vec<ItemStack>,
}

impl Default for ChestedHorseData {
    fn default() -> (data: Self)
        ensures
            !data.has_chest,
            data.inventory@ == Seq::<ItemStack>::empty(),
    {
        ChestedHorseData { has_chest: false, inventory: Vec::new() }
    }
}

/// The slots of an inventory that was given a new size: what was in a slot that still exists
/// stays there.
pub open spec fn resized(slots: Seq<ItemStack>, size: nat) -> Seq<ItemStack> {
    Seq::new(
        size,
        |i: int|
            if i < slots.len() && !slots[i].holds_nothing() {
                slots[i]
            } else {
                empty_stack()
            },
    )
}

/// How many slots a chest of some columns has.
pub open spec fn chest_size(has_chest: bool, columns: u8) -> nat {
    if has_chest {
        columns as nat * 3
    } else {
        0
    }
}

impl ChestedHorseData {
    pub fn has_chest(&self) -> (has: bool)
        ensures
            has == self.has_chest,
    {
        self.has_chest
    }

    /// How many columns of slots the horse carries.
    pub fn get_inventory_columns(&self) -> (columns: u8)
        ensures
            columns == (if self.has_chest { 5u8 } else { 0u8 }),
    {
        if self.has_chest {
            5
        } else {
            0
        }
    }

    /// Gives the horse a chest of some columns, or takes it away. What was in a slot that
    /// still exists stays there.
    pub fn set_chest_of(&mut self, value: bool, columns: u8)
        ensures
            final(self).has_chest == value,
            final(self).inventory@ == resized(old(self).inventory@, chest_size(value, columns)),
    {
        self.has_chest = value;
        let size: usize = if value { columns as usize * 3 } else { 0 };
        let mut slots: Vec<ItemStack> = Vec::new();
        let mut i: usize = 0;
        while i < size
            invariant
                i <= size,
                slots@ == resized(self.inventory@, i as nat),
                self.has_chest == value,
                self.inventory == old(self).inventory,
            decreases size - i,
        {
            let stack = if i < self.inventory.len() && !self.inventory[i].is_empty() {
                self.inventory[i]
            } else {
                ItemStack::empty()
            };
            slots.push(stack);
            i = i + 1;
        }
        self.inventory = slots;
    }

    /// Gives the horse a chest of the usual size, or takes it away.
    pub fn set_chest(&mut self, value: bool)
        ensures
            final(self).has_chest == value,
            final(self).inventory@ == resized(old(self).inventory@, chest_size(value, 5)),
    {
        self.set_chest_of(value, 5);
    }

    /// Saves whether the horse has a chest.
    pub fn write_chested_horse_nbt(&self, nbt: &mut NbtCompound)
        ensures
            final(nbt)@ == old(nbt)@.insert("ChestedHorse"@, bool_value(self.has_chest)),
    {
        nbt.put_bool("ChestedHorse", self.has_chest);
    }

    /// Restores whether the horse has a chest, with as many slots.
    pub fn read_chested_horse_nbt(&mut self, nbt: &NbtCompound, columns: u8)
        ensures
            final(self).has_chest == (bool_at(nbt@, "ChestedHorse"@) == Some(true)),
            final(self).inventory@ == resized(
                old(self).inventory@,
                chest_size(final(self).has_chest, columns),
            ),
    {
        let has_chest: bool = nbt.get_bool("ChestedHorse").unwrap_or(false);
        self.set_chest_of(has_chest, columns);
    }
}

/// Whatever size an inventory is given, what is in the slots that both sizes have survives.
pub proof fn law_resizing_keeps_shared_slots(slots: Seq<ItemStack>, size: nat, i: int)
    requires
        0 <= i < size,
        i < slots.len(),
        !slots[i].holds_nothing(),
    ensures
        resized(slots, size)[i] == slots[i],
{
}

/// Giving an inventory the same size twice is the same as once.
pub proof fn law_resizing_is_idempotent(slots: Seq<ItemStack>, size: nat)
    ensures
        resized(resized(slots, size), size) == resized(slots, size),
{
    assert(resized(resized(slots, size), size) =~= resized(slots, size));
}

/// A horse that lost its chest lost what was in it.
pub proof fn law_taking_the_chest_empties_it(slots: Seq<ItemStack>, size: nat)
    ensures
        resized(resized(slots, 0), size) == Seq::new(size, |i: int| empty_stack()),
{
    assert(resized(resized(slots, 0), size) =~= Seq::new(size, |i: int| empty_stack()));
}

/// How a horse that can carry a chest reacts to a player with an item.
pub open spec fn chested_reaction(
    mob: MobEntity,
    has_chest: bool,
    cx: HorseContext,
    player: Player,
    stack: ItemStack,
) -> HorseReaction {
    let shows = mob.age >= 0 && mob.owner is Some && player.sneaking;
    if cx.is_vehicle || mob.age < 0 && stack.item == Item::GoldenDandelion {
        HorseReaction::Shared
    } else if shows {
        HorseReaction::ShowInventory
    } else if !stack.holds_nothing() && cx.food {
        HorseReaction::Feed
    } else if !stack.holds_nothing() && mob.owner is None {
        HorseReaction::Mad
    } else if !stack.holds_nothing() && !has_chest && stack.item == Item::Chest {
        HorseReaction::TakeChest
    } else {
        horse_reaction(mob, cx, player, stack)
    }
}

/// What comes of an interaction with a horse that can carry a chest, apart from the chest.
pub open spec fn chested_interacted(
    scene: HorseScene,
    has_chest: bool,
    rules: HorseRules,
    cx: HorseContext,
    player: Player,
) -> HorseScene {
    match chested_reaction(scene.mob, has_chest, cx, player, scene.stack) {
        HorseReaction::Shared => HorseScene { outcome: Interaction::Shared, ..scene },
        HorseReaction::ShowInventory => HorseScene {
            effects: scene.effects.push(Effect::OpenInventory { player: player.id }),
            outcome: Interaction::Handled,
            ..scene
        },
        HorseReaction::Feed => offered(scene, rules, cx.hurt, player),
        HorseReaction::Mad => HorseScene {
            data: maddened(scene.data, rules),
            effects: scene.effects + mad_effects(scene.data, rules),
            outcome: Interaction::Handled,
            ..scene
        },
        HorseReaction::TakeChest => HorseScene {
            stack: after_use(scene.stack, player.gamemode, 1),
            effects: scene.effects.push(Effect::Play(rules.chest_sound)),
            outcome: Interaction::Handled,
            ..scene
        },
        _ => horse_interacted(scene, rules, cx, player),
    }
}

/// Lets a player use an item on a horse that can carry a chest. The chest has `columns`
/// columns where the horse gets one.
pub fn chested_mob_interact(
    mob: &mut MobEntity,
    data: &mut AbstractHorseData,
    chest: &mut ChestedHorseData,
    columns: u8,
    rules: &HorseRules,
    cx: &HorseContext,
    player: &Player,
    stack: &mut ItemStack,
    effects: &mut Vec<Effect>,
) -> (outcome: Interaction)
    requires
        rules.max_temper >= 0,
    ensures
        (HorseScene {
            mob: *final(mob),
            data: *final(data),
            stack: *final(stack),
            effects: final(effects)@,
            outcome,
        }) == chested_interacted(
            (HorseScene {
                mob: *old(mob),
                data: *old(data),
                stack: *old(stack),
                effects: old(effects)@,
                outcome,
            }),
            old(chest).has_chest,
            *rules,
            *cx,
            *player,
        ),
        old(data).wf() ==> final(data).wf(),
        chested_reaction(*old(mob), old(chest).has_chest, *cx, *player, *old(stack))
            == HorseReaction::TakeChest ==> {
            &&& final(chest).has_chest
            &&& final(chest).inventory@ == resized(
                old(chest).inventory@,
                chest_size(true, columns),
            )
        },
        chested_reaction(*old(mob), old(chest).has_chest, *cx, *player, *old(stack))
            != HorseReaction::TakeChest ==> *final(chest) == *old(chest),
{
    let shows = !mob.is_baby() && mob.is_tamed() && player.sneaking;
    let baby_with_dandelion = mob.is_baby() && stack.item == Item::GoldenDandelion;
    if cx.is_vehicle || shows || baby_with_dandelion {
        if shows && !cx.is_vehicle {
            effects.push(Effect::OpenInventory { player: player.id });
            return Interaction::Handled;
        }
        return Interaction::Shared;
    }
    if !stack.is_empty() {
        if cx.food {
            return fed_food(mob, data, rules, cx.hurt, player, stack, effects);
        }
        if !mob.is_tamed() {
            data.make_mad(rules, effects);
            return Interaction::Handled;
        }
        if !chest.has_chest() && stack.item == Item::Chest {
            chest.set_chest_of(true, columns);
            effects.push(Effect::Play(rules.chest_sound));
            stack.decrement_unless_creative(player.gamemode, 1);
            return Interaction::Handled;
        }
    }
    abstract_horse_mob_interact(mob, data, rules, cx, player, stack, effects)
}

/// What each food does for a horse, a donkey or a mule, and that there is no other food.
pub proof fn law_menu_of_horses(item: Item)
    ensures
        item == Item::Wheat ==> menu_meal(Menu::Horse, item) == Some(
            Meal { heal: 2, age_up_seconds: 20, temper: 3, golden: false },
        ),
        item == Item::Sugar ==> menu_meal(Menu::Horse, item) == Some(
            Meal { heal: 1, age_up_seconds: 30, temper: 3, golden: false },
        ),
        item == Item::HayBlock ==> menu_meal(Menu::Horse, item) == Some(
            Meal { heal: 20, age_up_seconds: 180, temper: 0, golden: false },
        ),
        item == Item::Apple ==> menu_meal(Menu::Horse, item) == Some(
            Meal { heal: 3, age_up_seconds: 60, temper: 3, golden: false },
        ),
        item == Item::RedMushroom ==> menu_meal(Menu::Horse, item) == Some(
            Meal { heal: 3, age_up_seconds: 0, temper: 3, golden: false },
        ),
        item == Item::Carrot ==> menu_meal(Menu::Horse, item) == Some(
            Meal { heal: 3, age_up_seconds: 60, temper: 3, golden: false },
        ),
        item == Item::GoldenCarrot ==> menu_meal(Menu::Horse, item) == Some(
            Meal { heal: 4, age_up_seconds: 60, temper: 5, golden: true },
        ),
        item == Item::GoldenApple ==> menu_meal(Menu::Horse, item) == Some(
            Meal { heal: 10, age_up_seconds: 240, temper: 10, golden: true },
        ),
        item == Item::EnchantedGoldenApple ==> menu_meal(Menu::Horse, item) == Some(
            Meal { heal: 10, age_up_seconds: 240, temper: 10, golden: true },
        ),
        menu_meal(Menu::Horse, item) is Some <==> item == Item::Wheat || item == Item::Sugar || item == Item::HayBlock || item == Item::Apple || item == Item::RedMushroom || item == Item::Carrot || item == Item::GoldenCarrot || item == Item::GoldenApple || item == Item::EnchantedGoldenApple,
{
}

/// What each food does for a llama, and that there is no other food.
pub proof fn law_menu_of_llamas(item: Item)
    ensures
        item == Item::Wheat ==> menu_meal(Menu::Llama, item) == Some(
            Meal { heal: 2, age_up_seconds: 10, temper: 3, golden: false },
        ),
        item == Item::HayBlock ==> menu_meal(Menu::Llama, item) == Some(
            Meal { heal: 10, age_up_seconds: 90, temper: 6, golden: true },
        ),
        menu_meal(Menu::Llama, item) is Some <==> item == Item::Wheat || item == Item::HayBlock,
{
}

/// A hurt horse eats every food of its menu that heals, and is healed by exactly what that food
/// heals; a horse that is not hurt is not healed by anything.
pub proof fn law_hurt_horse_is_healed(
    mob: MobEntity,
    data: AbstractHorseData,
    rules: HorseRules,
    item: Item,
    amount: u32,
)
    requires
        menu_meal(rules.menu, item) is Some,
    ensures
        ({
            let meal = menu_meal(rules.menu, item)->0;
            &&& meal.heal > 0 ==> meal_eaten(mob, data, rules, meal, true)
            &&& meal_effects(mob, rules, meal, true).contains(Effect::Heal(amount)) <==> amount
                == meal.heal && amount > 0
            &&& !meal_effects(mob, rules, meal, false).contains(Effect::Heal(amount))
        }),
{
    broadcast use group_effects;

}

/// A foal eats every food of its menu that makes foals grow, and grows older by its seconds, each
/// of twenty ticks, but not past growing up. A grown horse does not change its age.
pub proof fn law_food_makes_foals_grow(
    mob: MobEntity,
    data: AbstractHorseData,
    rules: HorseRules,
    item: Item,
    hurt: bool,
    player: u128,
)
    requires
        menu_meal(rules.menu, item) is Some,
    ensures
        ({
            let meal = menu_meal(rules.menu, item)->0;
            let after = mob_after_meal(mob, rules, meal, player);
            let later = mob.age + 20 * meal.age_up_seconds;
            &&& mob.age < 0 && meal.age_up_seconds > 0 ==> meal_eaten(mob, data, rules, meal, hurt)
            &&& mob.age < 0 && later <= 0 ==> after.age == later
            &&& mob.age < 0 && later > 0 ==> after.age == 0
            &&& mob.age >= 0 ==> after.age == mob.age
        }),
{
}

/// Golden food makes a tame and grown horse that can fall in love and is not in love yet fall in
/// love for thirty seconds, by the player who fed it. No other food, and no other horse, does.
pub proof fn law_golden_food_makes_love(
    mob: MobEntity,
    data: AbstractHorseData,
    rules: HorseRules,
    item: Item,
    hurt: bool,
    player: u128,
)
    requires
        menu_meal(rules.menu, item) is Some,
    ensures
        ({
            let meal = menu_meal(rules.menu, item)->0;
            let after = mob_after_meal(mob, rules, meal, player);
            let loves = meal.golden && rules.can_fall_in_love && mob.owner is Some && mob.age >= 0
                && mob.love_ticks <= 0;
            &&& loves ==> after.love_ticks == 600 && after.breeder == Some(player) && meal_eaten(
                mob,
                data,
                rules,
                meal,
                hurt,
            )
            &&& !loves ==> after.love_ticks == mob.love_ticks && after.breeder == mob.breeder
            &&& after.owner == mob.owner && after.goals == mob.goals
            &&& meal_effects(mob, rules, meal, hurt).contains(Effect::LoveHearts) <==> loves
                && rules.menu == Menu::Horse
        }),
{
    broadcast use group_effects;

}

/// An untamed horse whose temper is not at its end eats whatever calms it, and its temper rises by
/// what the food is worth, up to its end. A tame one is calmed only by a meal that does something
/// else for it too. At the end of its temper nothing raises it.
pub proof fn law_food_raises_the_temper(
    mob: MobEntity,
    data: AbstractHorseData,
    rules: HorseRules,
    item: Item,
    hurt: bool,
)
    requires
        menu_meal(rules.menu, item) is Some,
        0 <= data.temper <= rules.max_temper,
    ensures
        ({
            let meal = menu_meal(rules.menu, item)->0;
            let after = data_after_meal(mob, data, rules, meal, hurt).temper;
            let room = rules.max_temper - data.temper;
            let useful = hurt && meal.heal > 0 || mob.age < 0 && meal.age_up_seconds > 0
                || meal.golden && rules.can_fall_in_love && mob.owner is Some && mob.age >= 0
                && mob.love_ticks <= 0;
            &&& mob.owner is None && meal.temper > 0 && room > 0 ==> meal_eaten(
                mob,
                data,
                rules,
                meal,
                hurt,
            )
            &&& (mob.owner is None || useful) && meal.temper <= room ==> after == data.temper
                + meal.temper
            &&& (mob.owner is None || useful) && meal.temper > room ==> after == rules.max_temper
            &&& mob.owner is Some && !useful ==> after == data.temper
            &&& mob.owner is Some && !useful || !useful && (meal.temper == 0 || room == 0)
                ==> !meal_eaten(mob, data, rules, meal, hurt)
        }),
{
}

/// A horse that eats shows it, and one that refuses does not change its flags; llamas do not show
/// it.
pub proof fn law_eating_is_shown(
    mob: MobEntity,
    data: AbstractHorseData,
    rules: HorseRules,
    meal: Meal,
    hurt: bool,
)
    ensures
        rules.menu == Menu::Horse && meal_eaten(mob, data, rules, meal, hurt) ==> has_flag(
            data_after_meal(mob, data, rules, meal, hurt).flags,
            16,
        ),
        rules.menu == Menu::Llama || !meal_eaten(mob, data, rules, meal, hurt)
            ==> data_after_meal(mob, data, rules, meal, hurt).flags == data.flags,
{
    law_flag_reads_back(data.flags, FLAG_EATING, true);
}

/// Food that is eaten is used up; food that is refused, and what is no food, stays in the hand and
/// asks for nothing new.
pub proof fn law_eaten_food_is_used_up(
    scene: HorseScene,
    rules: HorseRules,
    hurt: bool,
    player: Player,
)
    ensures
        ({
            let after = offered(scene, rules, hurt, player);
            &&& after.outcome == Interaction::Handled || after.outcome == Interaction::Refused
            &&& after.outcome == Interaction::Refused ==> after.stack == scene.stack
                && after.effects == scene.effects
            &&& after.outcome == Interaction::Handled && player.gamemode != GameMode::Creative
                && scene.stack.count >= 1 ==> after.stack.count + 1 == scene.stack.count
            &&& menu_meal(rules.menu, scene.stack.item) is None ==> after.outcome
                == Interaction::Refused && after.mob == scene.mob && after.data == scene.data
            &&& menu_meal(rules.menu, scene.stack.item) matches Some(meal) ==> (after.outcome
                == Interaction::Handled <==> meal_eaten(scene.mob, scene.data, rules, meal, hurt))
        }),
{
    if let Some(meal) = menu_meal(rules.menu, scene.stack.item) {
        if !meal_eaten(scene.mob, scene.data, rules, meal, hurt) {
            assert(meal_effects(scene.mob, rules, meal, hurt) =~= seq![]);
            assert(scene.effects + seq![] =~= scene.effects);
        }
    }
}

/// A horse that grazes goes on for two and a half seconds and then stops; one that does not graze
/// starts only when it is told to.
pub proof fn law_grazing_lasts(data: AbstractHorseData, starts: bool)
    requires
        data.wf(),
    ensures
        ({
            let after = grazing_ticked(data, starts);
            let grazes = starts || has_flag(data.flags, 16);
            &&& !grazes ==> after == data
            &&& grazes && data.eating_counter < 50 ==> has_flag(after.flags, 16)
                && after.eating_counter == data.eating_counter + 1
            &&& grazes && data.eating_counter >= 50 ==> !has_flag(after.flags, 16)
                && after.eating_counter == 0
            &&& after.temper == data.temper && after.stand_counter == data.stand_counter
        }),
{
    law_flag_reads_back(data.flags, FLAG_EATING, true);
    law_flag_reads_back(data.flags, FLAG_EATING, false);
    law_flag_reads_back(with_flag(data.flags, FLAG_EATING, true), FLAG_EATING, false);
}

/// A horse starts to graze only on grass, when it may, at the draw, and when it carries nobody.
pub proof fn law_when_horses_graze(
    data: AbstractHorseData,
    rules: HorseRules,
    is_vehicle: bool,
    grass_below: bool,
    draw: int,
)
    requires
        data.wf(),
        !has_flag(data.flags, 16),
        data.stand_counter == 0,
    ensures
        has_flag(horse_ticked(data, rules, is_vehicle, grass_below, draw).flags, 16) <==> (
        rules.can_eat_grass && !is_vehicle && grass_below && draw == 0 && data.eating_counter < 50),
{
    law_flag_reads_back(data.flags, FLAG_EATING, true);
    law_flag_reads_back(with_flag(data.flags, FLAG_EATING, true), FLAG_EATING, false);
}

/// A horse that rears stops eating and stands up for one second; each tick takes one off, and the
/// last one sets it down again.
pub proof fn law_rearing_counts_down(data: AbstractHorseData)
    ensures
        has_flag(reared(data).flags, 32),
        !has_flag(reared(data).flags, 16),
        reared(data).stand_counter == 20,
        data.stand_counter > 1 ==> rearing_ticked(data) == (AbstractHorseData {
            stand_counter: (data.stand_counter - 1) as i32,
            ..data
        }),
        data.stand_counter == 1 ==> !has_flag(rearing_ticked(data).flags, 32) && rearing_ticked(
            data,
        ).stand_counter == 0,
        data.stand_counter <= 0 ==> rearing_ticked(data) == data,
        !has_flag(calmed(data).flags, 32) && !has_flag(calmed(data).flags, 16) && calmed(
            data,
        ).stand_counter == 0,
        reared(data).temper == data.temper && calmed(data).temper == data.temper,
{
    lemma_horse_flags_disjoint();
    let still = with_flag(data.flags, FLAG_EATING, false);
    law_flag_reads_back(data.flags, FLAG_EATING, false);
    law_flag_reads_back(still, FLAG_STANDING, true);
    law_flag_reads_back(still, FLAG_STANDING, false);
    law_flag_reads_back(data.flags, FLAG_STANDING, false);
    law_flag_leaves_others(still, FLAG_STANDING, FLAG_EATING, true);
    law_flag_leaves_others(still, FLAG_STANDING, FLAG_EATING, false);
}

/// A horse that is made angry rears if it can, unless it rears already, and is then heard.
pub proof fn law_angry_horses_rear(data: AbstractHorseData, rules: HorseRules, sound: Sound)
    ensures
        has_flag(data.flags, 32) ==> maddened(data, rules) == data && mad_effects(
            data,
            rules,
        ).len() == 0,
        !has_flag(data.flags, 32) && rules.can_rear ==> has_flag(maddened(data, rules).flags, 32)
            && maddened(data, rules).stand_counter == 20,
        !rules.can_rear ==> maddened(data, rules) == data,
        !has_flag(data.flags, 32) && rules.angry_sound == Some(sound) ==> mad_effects(data, rules)
            == seq![Effect::Play(sound)],
{
    law_rearing_counts_down(data);
}

/// What a horse does when a player uses an item on it, in the order in which it decides.
pub proof fn law_how_horses_react(
    mob: MobEntity,
    cx: HorseContext,
    player: Player,
    stack: ItemStack,
)
    ensures
        ({
            let does = horse_reaction(mob, cx, player, stack);
            let free = !cx.is_vehicle && mob.age >= 0;
            let asks = free && !(mob.owner is Some && player.sneaking);
            let shows = asks && !stack.holds_nothing() && !cx.food;
            let armour = cx.fits_body_armor && cx.body_armor_empty;
            let saddle = cx.fits_saddle && cx.alive && !cx.wears_saddle;
            &&& cx.is_vehicle || mob.age < 0 ==> does is Shared
            &&& free && mob.owner is Some && player.sneaking ==> does is ShowInventory
            &&& asks && stack.holds_nothing() ==> does is Ride
            &&& asks && !stack.holds_nothing() && cx.food ==> does is Feed
            &&& shows && mob.owner is None ==> does is Mad
            &&& shows && mob.owner is Some && armour ==> does is WearArmor
            &&& shows && mob.owner is Some && !armour && saddle ==> does is WearSaddle
            &&& shows && mob.owner is Some && !armour && !saddle ==> does is Ride
        }),
{
}

/// A donkey, a mule or a llama reacts like a horse, but takes a chest where it has none, and a
/// foal can be fed or angered too.
pub proof fn law_how_chested_horses_react(
    mob: MobEntity,
    has_chest: bool,
    cx: HorseContext,
    player: Player,
    stack: ItemStack,
)
    ensures
        ({
            let does = chested_reaction(mob, has_chest, cx, player, stack);
            let dandelion = mob.age < 0 && stack.item == Item::GoldenDandelion;
            let asks = !cx.is_vehicle && !dandelion && !(mob.age >= 0 && mob.owner is Some
                && player.sneaking);
            let full = asks && !stack.holds_nothing();
            &&& cx.is_vehicle || dandelion ==> does is Shared
            &&& !cx.is_vehicle && mob.age >= 0 && mob.owner is Some && player.sneaking
                ==> does is ShowInventory
            &&& full && cx.food ==> does is Feed
            &&& full && !cx.food && mob.owner is None ==> does is Mad
            &&& full && !cx.food && mob.owner is Some && stack.item == Item::Chest && !has_chest
                ==> does is TakeChest
            &&& full && !cx.food && mob.owner is Some && (stack.item != Item::Chest || has_chest)
                ==> does == horse_reaction(mob, cx, player, stack)
            &&& asks && stack.holds_nothing() ==> does == horse_reaction(mob, cx, player, stack)
            &&& has_chest ==> !(does is TakeChest)
        }),
{
}

/// A player who rides is seated, and the horse stops eating and rearing. Armour and saddles go to
/// their places, one item of the stack. An angry horse rears. What is shared, or only shown,
/// changes nothing.
pub proof fn law_what_reactions_do(
    scene: HorseScene,
    rules: HorseRules,
    cx: HorseContext,
    player: Player,
)
    ensures
        ({
            let does = horse_reaction(scene.mob, cx, player, scene.stack);
            let after = horse_interacted(scene, rules, cx, player);
            let one = ItemStack { item: scene.stack.item, count: 1 };
            &&& does is Ride ==> after.effects == scene.effects.push(
                Effect::Mount { player: player.id },
            ) && !has_flag(after.data.flags, 16) && !has_flag(after.data.flags, 32)
                && after.outcome == Interaction::Handled && after.mob == scene.mob && after.stack
                == scene.stack
            &&& does is Shared ==> after == (HorseScene { outcome: Interaction::Shared, ..scene })
            &&& does is ShowInventory ==> after == (HorseScene {
                outcome: Interaction::Handled,
                ..scene
            })
            &&& does is Feed ==> after == offered(scene, rules, cx.hurt, player)
            &&& does is Mad ==> after.data == maddened(scene.data, rules) && after.stack
                == scene.stack && after.outcome == Interaction::Handled
            &&& does is WearArmor && scene.stack.count >= 1 ==> after.effects.contains(
                Effect::Equip { slot: EquipmentSlot::Body, stack: one },
            )
            &&& does is WearSaddle && scene.stack.count >= 1 ==> after.effects.contains(
                Effect::Equip { slot: EquipmentSlot::Saddle, stack: one },
            )
            &&& (does is WearArmor || does is WearSaddle) && player.gamemode != GameMode::Creative
                && scene.stack.count >= 1 ==> after.stack.count + 1 == scene.stack.count
            &&& does is WearArmor || does is WearSaddle ==> after.outcome == Interaction::Handled
                && after.mob == scene.mob && after.data == scene.data
        }),
{
    law_rearing_counts_down(scene.data);
    let after = horse_interacted(scene, rules, cx, player);
    let does = horse_reaction(scene.mob, cx, player, scene.stack);
    if does is WearArmor || does is WearSaddle {
        assert(after.effects[scene.effects.len() as int] is Equip);
        assert(after.effects.contains(after.effects[scene.effects.len() as int]));
    }
}

/// Where a chest is taken it is heard and used up; the inventory opens for a player who sneaks.
pub proof fn law_what_chested_reactions_do(
    scene: HorseScene,
    has_chest: bool,
    rules: HorseRules,
    cx: HorseContext,
    player: Player,
)
    ensures
        ({
            let does = chested_reaction(scene.mob, has_chest, cx, player, scene.stack);
            let after = chested_interacted(scene, has_chest, rules, cx, player);
            &&& does is TakeChest ==> after.effects == scene.effects.push(
                Effect::Play(rules.chest_sound),
            ) && after.outcome == Interaction::Handled
            &&& does is TakeChest && player.gamemode != GameMode::Creative && scene.stack.count
                >= 1 ==> after.stack.count + 1 == scene.stack.count
            &&& does is ShowInventory ==> after == (HorseScene {
                effects: scene.effects.push(Effect::OpenInventory { player: player.id }),
                outcome: Interaction::Handled,
                ..scene
            })
            &&& does is Feed ==> after == offered(scene, rules, cx.hurt, player)
            &&& does is Mad ==> after.data == maddened(scene.data, rules) && after.outcome
                == Interaction::Handled && after.stack == scene.stack
            &&& does is Shared ==> after == (HorseScene { outcome: Interaction::Shared, ..scene })
        }),
{
}

/// A foal gets each attribute from the same attribute of both parents, within the range that
/// horses have; a parent of which nothing is known counts as the poorest horse.
pub proof fn law_foals_inherit(first: ParentAttributes, mate: Option<&ParentAttributes>)
    ensures
        ({
            let second = known_parent(mate);
            let all = inherited_attributes(first, second);
            &&& all.len() == 3
            &&& all[0] == (Effect::InheritAttribute {
                attribute: Attribute::MaxHealth,
                first: first.max_health,
                second: second.max_health,
                low: 0x402E_0000_0000_0000,
                high: 0x403E_0000_0000_0000,
            })
            &&& all[1] == (Effect::InheritAttribute {
                attribute: Attribute::JumpStrength,
                first: first.jump_strength,
                second: second.jump_strength,
                low: 0x3FD9_9999_9999_999A,
                high: 0x3FF0_0000_0000_0000,
            })
            &&& all[2] == (Effect::InheritAttribute {
                attribute: Attribute::MovementSpeed,
                first: first.speed,
                second: second.speed,
                low: 0x3FBC_CCCC_CCCC_CCCD,
                high: 0x3FD5_9999_9999_999A,
            })
            &&& mate is Some ==> second == *mate->0
            &&& mate is None ==> second == (ParentAttributes {
                max_health: 0x402E_0000_0000_0000,
                jump_strength: 0x3FD9_9999_9999_999A,
                speed: 0x3FBC_CCCC_CCCC_CCCD,
            })
        }),
{
}

/// The health of a horse is fifteen and its two draws, and a chest has three slots in each column;
/// without a chest there are none.
pub proof fn law_measures_of_horses(first: int, second: int, columns: u8)
    ensures
        max_health(first, second) - first - second == 15,
        chest_size(true, columns) == 3 * columns,
        chest_size(false, columns) == 0,
{
}

/// An inventory of a new size has just that many slots; each holds what it held, if it held
/// something and was there before, and is empty otherwise.
pub proof fn law_resizing_empties_new_slots(slots: Seq<ItemStack>, size: nat, i: int)
    requires
        0 <= i < size,
    ensures
        resized(slots, size).len() == size,
        i >= slots.len() ==> resized(slots, size)[i].holds_nothing(),
        i < slots.len() ==> (resized(slots, size)[i].holds_nothing() <==> slots[i].holds_nothing()),
{
}

/// An item is worn only in its own slot, and only by those whom it is made for.
pub proof fn law_what_fits_whom(item: Equippable, slot: EquipmentSlot, kind: EntityKind)
    ensures
        !fits(None, slot, kind),
        item.slot != slot ==> !fits(Some(&item), slot, kind),
        item.slot == slot && item.wearers is Anyone ==> fits(Some(&item), slot, kind),
        item.wearers is Tagged && item.slot == slot ==> fits(
            Some(&item),
            slot,
            kind,
        ) == item.wearers->included,
        item.wearers is Kinds && item.slot == slot ==> fits(
            Some(&item),
            slot,
            kind,
        ) == item.wearers->Kinds_0@.contains(kind),
{
}

/// Only a living, grown and tame horse can wear a saddle.
pub proof fn law_who_can_wear_a_saddle(mob: MobEntity, alive: bool)
    ensures
        saddle_slot_usable(mob, alive) <==> alive && mob.age >= 0 && mob.owner is Some,
{
}

/// What every horse has in common unless its kind says otherwise.
pub proof fn law_common_rules_of_horses()
    ensures
        base_rules().max_temper == 100,
        base_rules().can_rear && base_rules().can_eat_grass && base_rules().can_fall_in_love,
        base_rules().menu == Menu::Horse,
        base_rules().eating_sound is None && base_rules().angry_sound is None,
        base_rules().chest_sound == Sound::DonkeyChest,
        base_rules().jump_sound == Sound::HorseJump,
{
}

/// An attribute that the host has takes what was saved of it; one that it lacks is not made up.
pub proof fn law_only_known_attributes_are_read(current: Option<u64>, saved: Option<u64>, bits: u64)
    ensures
        current is None ==> attribute_restored(current, saved) is None,
        saved is None ==> attribute_restored(current, saved) == current,
        current is Some && saved is Some ==> attribute_restored(current, saved) == saved,
        replaced(current, bits) is Some <==> current is Some,
        current is Some ==> replaced(current, bits) == Some(bits),
{
}

/// An attribute is saved if there is one, and nothing else changes.
pub proof fn law_attributes_are_saved(
    nbt: Map<Seq<char>, NbtValue>,
    name: Seq<char>,
    value: Option<u64>,
)
    ensures
        value is None ==> with_attribute(nbt, name, value) == nbt,
        value is Some ==> with_attribute(nbt, name, value) == nbt.insert(
            name,
            NbtValue::Double(value->0),
        ),
{
}

/// A horse with a measure of health takes the one drawn for it, and every horse starts unhurt.
pub proof fn law_drawn_health_is_filled(attributes: HorseAttributes, health: u32)
    ensures
        health_effects(attributes, health).last() == Effect::FillHealth,
        health_effects(attributes, health).len() == (if attributes.max_health is Some {
            2int
        } else {
            1
        }),
        attributes.max_health is Some ==> health_effects(attributes, health)[0]
            == Effect::SetMaxHealth(health),
{
}

/// Putting gear on takes one piece from the stack into the slot, heard, and leaves the horse as it
/// is.
pub proof fn law_gear_is_put_on(scene: HorseScene, player: Player, slot: EquipmentSlot)
    requires
        scene.stack.count >= 1,
    ensures
        ({
            let after = equipped(scene, player, slot);
            let n = scene.effects.len() as int;
            &&& after.outcome == Interaction::Handled
            &&& after.effects.len() == n + 2
            &&& after.effects[n] == (Effect::Equip {
                slot,
                stack: ItemStack { item: scene.stack.item, count: 1 },
            })
            &&& after.effects[n + 1] == Effect::PlayEquipSound(scene.stack.item)
            &&& player.gamemode != GameMode::Creative ==> after.stack.count == scene.stack.count - 1
            &&& player.gamemode == GameMode::Creative ==> after.stack == scene.stack
        }),
{
}

/// A leap of a horse is heard far and at its own pitch.
pub proof fn law_leaps_are_heard(rules: HorseRules)
    ensures
        jump_effect(rules) == (Effect::PlayAt {
            sound: rules.jump_sound,
            volume: 4000,
            pitch: 10000,
        }),
{
}

/// A new horse is at ease: it has no temper yet and neither eats nor rears.
pub proof fn law_new_horses_are_at_ease(attributes: HorseAttributes)
    ensures
        ({
            let horse = new_horse_data(attributes);
            &&& horse.flags == 0 && horse.temper == 0
            &&& horse.eating_counter == 0 && horse.stand_counter == 0
            &&& horse.attributes == attributes
            &&& !has_flag(horse.flags, FLAG_EATING) && !has_flag(horse.flags, FLAG_STANDING)
        }),
{
    assert(0u8 & 16u8 == 0 && 0u8 & 32u8 == 0) by (bit_vector);
}

/// A foal's growth is seen as that of a villager who is pleased.
pub proof fn law_growth_is_seen()
    ensures
        growth_effect() is Particles,
        growth_effect()->kind == Particle::HappyVillager,
        growth_effect()->Particles_height == 500,
        growth_effect()->Particles_speed == 1000,
        growth_effect()->Particles_count == 7,
{
}

} // verus!
