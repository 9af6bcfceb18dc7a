//! Cats: coats, collars, and how they are tamed.

use vstd::prelude::*;

use crate::animal::{animal_restored, animal_saved, read_animal_nbt, write_animal_nbt};
use crate::effect::{group_effects, Effect, Pose, Sound, SyncedValue};
use crate::goal::{
    entry, goal, look_at_player, watch_player, AvoidRule, EntityKind, Goal, GoalEntry, NonTameKinds,
};
use crate::item::{after_use, diet_items, Diet, GameMode, Item, ItemStack, Player};
use crate::mob::MobEntity;
use crate::nbt::{bool_at, byte_at, id_at, int_at, text_at, NbtCompound, NbtValue};
use crate::random::roll;
use crate::tamable::{flags_sync, tamable_saved, tame_flags, tame_flags_byte, TamableData};
use crate::text::{
    contains_text, lemma_local_name_of_qualified, local_name, mentions, same_text, strip_namespace,
};

verus! {

/// The collar of a cat that nobody has dyed: red.
pub const DEFAULT_COLLAR_COLOR: u8 = 14;

/// How bright the moon is in a phase, in hundredths; phase zero is the full moon.
pub open spec fn moon_brightness(phase: int) -> int {
    if phase <= 4 {
        100 - 25 * phase
    } else {
        25 * phase - 100
    }
}

/// The phase of the moon at a time.
pub open spec fn moon_phase(time_of_day: int) -> int {
    (time_of_day / 24000) % 8
}

/// Whether the moon is bright enough for all-black cats. Only the full moon is.
pub fn moon_brightness_allows_all_black(time_of_day: i64) -> (allows: bool)
    ensures
        allows == (moon_brightness(moon_phase(time_of_day as int)) >= 90),
        allows == (moon_phase(time_of_day as int) == 0),
{
    match time_of_day.checked_div_euclid(24000) {
        Some(day) => match day.checked_rem_euclid(8) {
            Some(phase) => phase == 0,
            None => false,
        },
        None => false,
    }
}

/// The moon runs through its phases in eight days: the same time eight days on finds the same
/// phase.
pub proof fn law_moon_repeats(time_of_day: int)
    ensures
        moon_phase(time_of_day + 8 * 24000) == moon_phase(time_of_day),
{
}

/// The coats that cats are born with in the wild, in the order in which they are drawn; the
/// last only under a full moon.
pub open spec fn natural_coats() -> Seq<Seq<char>> {
    seq![
        "tabby"@,
        "black"@,
        "red"@,
        "siamese"@,
        "british_shorthair"@,
        "calico"@,
        "persian"@,
        "ragdoll"@,
        "white"@,
        "jellie"@,
        "all_black"@,
    ]
}

/// How many coats there are to draw from.
pub open spec fn natural_coat_count(allows_all_black: bool) -> int {
    if allows_all_black {
        11
    } else {
        10
    }
}

/// The coat for a draw.
pub fn natural_coat(draw: i32) -> (coat: &'static str)
    requires
        0 <= draw < 11,
    ensures
        coat@ == natural_coats()[draw as int],
{
    match draw {
        0 => "tabby",
        1 => "black",
        2 => "red",
        3 => "siamese",
        4 => "british_shorthair",
        5 => "calico",
        6 => "persian",
        7 => "ragdoll",
        8 => "white",
        9 => "jellie",
        _ => "all_black",
    }
}

/// Draws the coat of a cat born in the wild. All-black cats are born only under a full moon.
pub fn select_natural_cat_variant(time_of_day: i64) -> (coat: &'static str)
    ensures
        exists|draw: int|
            0 <= draw < natural_coat_count(moon_phase(time_of_day as int) == 0) && coat@
                == #[trigger] natural_coats()[draw],
        moon_phase(time_of_day as int) != 0 ==> coat@ != "all_black"@,
{
    let count: i32 = if moon_brightness_allows_all_black(time_of_day) { 11 } else { 10 };
    let draw: i32 = roll(0, count);
    proof {
        lemma_plain_coats_differ(draw as int);
    }
    natural_coat(draw)
}

/// None of the ten usual coats is the all-black one.
proof fn lemma_plain_coats_differ(draw: int)
    requires
        0 <= draw < 11,
    ensures
        (natural_coats()[draw] == "all_black"@) == (draw == 10),
{
    reveal_strlit("tabby");
    reveal_strlit("black");
    reveal_strlit("red");
    reveal_strlit("siamese");
    reveal_strlit("british_shorthair");
    reveal_strlit("calico");
    reveal_strlit("persian");
    reveal_strlit("ragdoll");
    reveal_strlit("white");
    reveal_strlit("jellie");
    reveal_strlit("all_black");
    assert("all_black"@.len() == 9 && "tabby"@.len() == 5 && "black"@.len() == 5 && "red"@.len()
        == 3 && "siamese"@.len() == 7 && "british_shorthair"@.len() == 17 && "calico"@.len() == 6
        && "persian"@.len() == 7 && "ragdoll"@.len() == 7 && "white"@.len() == 5 && "jellie"@.len()
        == 6);
}

/// The number of a dye by the name of its item: the first colour that the name mentions, in
/// this order.
pub open spec fn dye_color(key: Seq<char>) -> Option<u8> {
    if mentions(key, "white"@) {
        Some(0)
    } else if mentions(key, "orange"@) {
        Some(1)
    } else if mentions(key, "magenta"@) {
        Some(2)
    } else if mentions(key, "light_blue"@) {
        Some(3)
    } else if mentions(key, "yellow"@) {
        Some(4)
    } else if mentions(key, "lime"@) {
        Some(5)
    } else if mentions(key, "pink"@) {
        Some(6)
    } else if mentions(key, "light_gray"@) {
        Some(8)
    } else if mentions(key, "gray"@) {
        Some(7)
    } else if mentions(key, "cyan"@) {
        Some(9)
    } else if mentions(key, "purple"@) {
        Some(10)
    } else if mentions(key, "blue"@) {
        Some(11)
    } else if mentions(key, "brown"@) {
        Some(12)
    } else if mentions(key, "green"@) {
        Some(13)
    } else if mentions(key, "red"@) {
        Some(14)
    } else if mentions(key, "black"@) {
        Some(15)
    } else {
        None
    }
}

/// The number of a dye by the name of its item.
pub fn get_dye_color_from_item(key: &str) -> (color: Option<u8>)
    ensures
        color == dye_color(key@),
{
    if contains_text(key, "white") {
        Some(0)
    } else if contains_text(key, "orange") {
        Some(1)
    } else if contains_text(key, "magenta") {
        Some(2)
    } else if contains_text(key, "light_blue") {
        Some(3)
    } else if contains_text(key, "yellow") {
        Some(4)
    } else if contains_text(key, "lime") {
        Some(5)
    } else if contains_text(key, "pink") {
        Some(6)
    } else if contains_text(key, "light_gray") {
        Some(8)
    } else if contains_text(key, "gray") {
        Some(7)
    } else if contains_text(key, "cyan") {
        Some(9)
    } else if contains_text(key, "purple") {
        Some(10)
    } else if contains_text(key, "blue") {
        Some(11)
    } else if contains_text(key, "brown") {
        Some(12)
    } else if contains_text(key, "green") {
        Some(13)
    } else if contains_text(key, "red") {
        Some(14)
    } else if contains_text(key, "black") {
        Some(15)
    } else {
        None
    }
}

/// The number of a coat by its name. What is no coat is tabby.
pub open spec fn coat_id(name: Seq<char>) -> u8 {
    let local = local_name(name);
    if local == "all_black"@ {
        0
    } else if local == "black"@ {
        1
    } else if local == "british_shorthair"@ {
        2
    } else if local == "calico"@ {
        3
    } else if local == "jellie"@ {
        4
    } else if local == "persian"@ {
        5
    } else if local == "ragdoll"@ {
        6
    } else if local == "red"@ {
        7
    } else if local == "siamese"@ {
        8
    } else if local == "white"@ {
        10
    } else {
        9
    }
}

/// The number of a coat by its name.
pub fn coat_from_name(name: &str) -> (id: u8)
    ensures
        id == coat_id(name@),
{
    let local = strip_namespace(name);
    if same_text(local, "all_black") {
        0
    } else if same_text(local, "black") {
        1
    } else if same_text(local, "british_shorthair") {
        2
    } else if same_text(local, "calico") {
        3
    } else if same_text(local, "jellie") {
        4
    } else if same_text(local, "persian") {
        5
    } else if same_text(local, "ragdoll") {
        6
    } else if same_text(local, "red") {
        7
    } else if same_text(local, "siamese") {
        8
    } else if same_text(local, "white") {
        10
    } else {
        9
    }
}

/// The name of a coat by its number.
pub open spec fn coat_name(id: u8) -> Seq<char> {
    match id {
        0 => "minecraft:all_black"@,
        1 => "minecraft:black"@,
        2 => "minecraft:british_shorthair"@,
        3 => "minecraft:calico"@,
        4 => "minecraft:jellie"@,
        5 => "minecraft:persian"@,
        6 => "minecraft:ragdoll"@,
        7 => "minecraft:red"@,
        8 => "minecraft:siamese"@,
        10 => "minecraft:white"@,
        _ => "minecraft:tabby"@,
    }
}

/// The name of a coat by its number.
pub fn coat_to_name(id: u8) -> (name: &'static str)
    ensures
        name@ == coat_name(id),
{
    match id {
        0 => "minecraft:all_black",
        1 => "minecraft:black",
        2 => "minecraft:british_shorthair",
        3 => "minecraft:calico",
        4 => "minecraft:jellie",
        5 => "minecraft:persian",
        6 => "minecraft:ragdoll",
        7 => "minecraft:red",
        8 => "minecraft:siamese",
        10 => "minecraft:white",
        _ => "minecraft:tabby",
    }
}

/// The name of a coat leads back to its number; a number without a coat becomes tabby.
pub proof fn law_coat_name_round_trip(id: u8)
    ensures
        coat_id(coat_name(id)) == (if id <= 10 { id } else { 9 }),
{
    reveal_strlit("minecraft:");
    reveal_strlit("tabby");
    reveal_strlit("black");
    reveal_strlit("red");
    reveal_strlit("siamese");
    reveal_strlit("british_shorthair");
    reveal_strlit("calico");
    reveal_strlit("persian");
    reveal_strlit("ragdoll");
    reveal_strlit("white");
    reveal_strlit("jellie");
    reveal_strlit("all_black");
    reveal_strlit("minecraft:tabby");
    reveal_strlit("minecraft:black");
    reveal_strlit("minecraft:red");
    reveal_strlit("minecraft:siamese");
    reveal_strlit("minecraft:british_shorthair");
    reveal_strlit("minecraft:calico");
    reveal_strlit("minecraft:persian");
    reveal_strlit("minecraft:ragdoll");
    reveal_strlit("minecraft:white");
    reveal_strlit("minecraft:jellie");
    reveal_strlit("minecraft:all_black");
    assert("all_black"@.len() == 9 && "tabby"@.len() == 5 && "black"@.len() == 5 && "red"@.len()
        == 3 && "siamese"@.len() == 7 && "british_shorthair"@.len() == 17 && "calico"@.len() == 6
        && "persian"@.len() == 7 && "ragdoll"@.len() == 7 && "white"@.len() == 5 && "jellie"@.len()
        == 6);
    assert("tabby"@[0] == 't' && "black"@[0] == 'b' && "white"@[0] == 'w' && "siamese"@[0] == 's'
        && "persian"@[0] == 'p' && "ragdoll"@[0] == 'r' && "calico"@[0] == 'c' && "jellie"@[0]
        == 'j');
    let local = match id {
        0 => "all_black"@,
        1 => "black"@,
        2 => "british_shorthair"@,
        3 => "calico"@,
        4 => "jellie"@,
        5 => "persian"@,
        6 => "ragdoll"@,
        7 => "red"@,
        8 => "siamese"@,
        10 => "white"@,
        _ => "tabby"@,
    };
    assert(coat_name(id) =~= "minecraft:"@ + local);
    lemma_local_name_of_qualified(local);
}

/// A cat.
pub struct CatEntity {
    pub mob_entity: MobEntity,
    pub variant: u8,
    pub sound_variant: u8,
    pub collar_color: u8,
    pub tamable_data: TamableData,
    pub is_lying: bool,
    pub relax_state_one: bool,
}

/// Fleeing from players, as untamed cats do.
pub open spec fn cat_avoids_players() -> Goal {
    Goal::Avoid {
        kind: EntityKind::Player,
        distance: 16000,
        slow_speed: 800,
        fast_speed: 1330,
        from: AvoidRule::Always,
    }
}

/// What a cat pursues.
pub open spec fn cat_goals() -> Seq<GoalEntry> {
    seq![
        entry(1, Goal::Swim),
        entry(1, Goal::EscapeDanger { speed: 1500 }),
        entry(2, Goal::Sit),
        entry(3, Goal::CatRelaxOnOwner),
        entry(4, Goal::Tempt { speed: 600, items: Diet::Cat, scared: true }),
        entry(4, cat_avoids_players()),
        entry(5, Goal::CatLieOnBed { speed: 1100 }),
        entry(6, Goal::FollowOwner { speed: 1000, start_distance: 10000, stop_distance: 5000 }),
        entry(7, Goal::CatSitOnBlock { speed: 800 }),
        entry(8, Goal::LeapAtTarget { height: 300 }),
        entry(9, Goal::OcelotAttack),
        entry(10, Goal::Breed { speed: 800 }),
        entry(11, Goal::WanderAvoidingWaterSometimes { speed: 800, probability: 10 }),
        entry(12, look_at_player(10000)),
    ]
}

/// Whom a cat hunts.
pub open spec fn cat_targets() -> Seq<GoalEntry> {
    seq![
        entry(1, Goal::NonTameTarget { prey: NonTameKinds::Rabbits, check_visibility: false }),
        entry(
            1,
            Goal::NonTameTarget {
                prey: NonTameKinds::BabyTurtlesOnLand,
                check_visibility: false,
            },
        ),
    ]
}

/// A list of goals without those that make a mob flee.
pub open spec fn without_avoiding(goals: Seq<GoalEntry>) -> Seq<GoalEntry>
    decreases goals.len(),
{
    if goals.len() == 0 {
        seq![]
    } else if goals.last().goal is Avoid {
        without_avoiding(goals.drop_last())
    } else {
        without_avoiding(goals.drop_last()).push(goals.last())
    }
}

/// How a cat took an interaction.
#[derive(Clone, Copy, PartialEq, Eq, Structural, Debug)]
pub enum CatReply {
    /// It did something.
    Handled,
    /// The interaction that all mobs share decides.
    Shared,
    /// The interaction that all mobs share decides, and if it does nothing the cat sits down or
    /// stands up.
    SharedOrSit,
}

/// What a cat reads of an interaction.
#[derive(Clone, Copy)]
pub struct CatContext {
    /// Whether the item in hand is on the list of food for cats.
    pub tagged_food: bool,
    /// Whether the item in hand is a dye.
    pub is_dye: bool,
    /// Whether the cat has less than its full health.
    pub hurt: bool,
}

/// What a player does to a cat with an item.
pub enum CatTreatment {
    DyeCollar(u8),
    Heal,
    AskToSit,
    TryToTame,
    Nothing,
}

/// What a player does to a cat with an item, by the number of the dye that the item is.
pub open spec fn cat_treatment(
    cat: CatEntity,
    cx: CatContext,
    dye: Option<u8>,
    player: Player,
    stack: ItemStack,
) -> CatTreatment {
    let food = cx.tagged_food || diet_items(Diet::Cat).contains(stack.item);
    if cat.tamable_data.is_tame {
        if cat.tamable_data.owner != Some(player.id) {
            CatTreatment::Nothing
        } else if cx.is_dye {
            match dye {
                Some(color) if color != cat.collar_color => CatTreatment::DyeCollar(color),
                _ => CatTreatment::AskToSit,
            }
        } else if food && cx.hurt {
            CatTreatment::Heal
        } else {
            CatTreatment::AskToSit
        }
    } else if food {
        CatTreatment::TryToTame
    } else {
        CatTreatment::Nothing
    }
}

/// What is left in the hand of a player who has treated a cat.
pub open spec fn stack_after_treatment(
    reply: CatReply,
    stack: ItemStack,
    gamemode: GameMode,
) -> ItemStack {
    if reply == CatReply::Handled {
        after_use(stack, gamemode, 1)
    } else {
        stack
    }
}

/// A cat whose owner wanted nothing else of it sits down or gets up.
pub open spec fn sat_or_rose(cat: CatEntity, shared_handled: bool) -> CatEntity {
    if shared_handled {
        cat
    } else {
        CatEntity {
            tamable_data: TamableData {
                ordered_to_sit: !cat.tamable_data.ordered_to_sit,
                ..cat.tamable_data
            },
            ..cat
        }
    }
}

impl CatEntity {
    /// A new cat.
    pub fn new(age: i32) -> (cat: Self)
        ensures
            cat.mob_entity.fresh(age),
            cat.mob_entity.goals@ == cat_goals(),
            cat.mob_entity.targets@ == cat_targets(),
            cat.variant == 1,
            cat.sound_variant == 0,
            cat.collar_color == DEFAULT_COLLAR_COLOR,
            cat.tamable_data == (TamableData {
                is_tame: false,
                ordered_to_sit: false,
                owner: None,
            }),
            !cat.is_lying,
            !cat.relax_state_one,
    {
        let goals = vec![
            goal(1, Goal::Swim),
            goal(1, Goal::EscapeDanger { speed: 1500 }),
            goal(2, Goal::Sit),
            goal(3, Goal::CatRelaxOnOwner),
            goal(4, Goal::Tempt { speed: 600, items: Diet::Cat, scared: true }),
            goal(
                4,
                Goal::Avoid {
                    kind: EntityKind::Player,
                    distance: 16000,
                    slow_speed: 800,
                    fast_speed: 1330,
                    from: AvoidRule::Always,
                },
            ),
            goal(5, Goal::CatLieOnBed { speed: 1100 }),
            goal(6, Goal::FollowOwner { speed: 1000, start_distance: 10000, stop_distance: 5000 }),
            goal(7, Goal::CatSitOnBlock { speed: 800 }),
            goal(8, Goal::LeapAtTarget { height: 300 }),
            goal(9, Goal::OcelotAttack),
            goal(10, Goal::Breed { speed: 800 }),
            goal(11, Goal::WanderAvoidingWaterSometimes { speed: 800, probability: 10 }),
            goal(12, watch_player(10000)),
        ];
        let targets = vec![
            goal(1, Goal::NonTameTarget { prey: NonTameKinds::Rabbits, check_visibility: false }),
            goal(
                1,
                Goal::NonTameTarget {
                    prey: NonTameKinds::BabyTurtlesOnLand,
                    check_visibility: false,
                },
            ),
        ];
        CatEntity {
            mob_entity: MobEntity::with_goals(age, goals, targets),
            variant: 1,
            sound_variant: 0,
            collar_color: DEFAULT_COLLAR_COLOR,
            tamable_data: TamableData::default(),
            is_lying: false,
            relax_state_one: false,
        }
    }

    pub fn get_tame_flags(&self) -> (flags: u8)
        ensures
            flags == tame_flags(self.tamable_data.ordered_to_sit, self.tamable_data.is_tame),
    {
        tame_flags_byte(self.tamable_data.ordered_to_sit, self.tamable_data.is_tame)
    }

    pub fn is_sitting(&self) -> (sitting: bool)
        ensures
            sitting == self.tamable_data.ordered_to_sit,
    {
        self.tamable_data.is_in_sitting_pose()
    }

    pub fn is_lying(&self) -> (lying: bool)
        ensures
            lying == self.is_lying,
    {
        self.is_lying
    }

    pub fn is_relax_state_one(&self) -> (relaxed: bool)
        ensures
            relaxed == self.relax_state_one,
    {
        self.relax_state_one
    }

    pub fn get_collar_color(&self) -> (color: u8)
        ensures
            color == self.collar_color,
    {
        self.collar_color
    }

    pub fn set_collar_color(&mut self, color: u8, effects: &mut Vec<Effect>)
        ensures
            *final(self) == (CatEntity { collar_color: color, ..*old(self) }),
            final(effects)@ == old(effects)@.push(
                Effect::Sync(SyncedValue::CatCollarColor(color as i32)),
            ),
    {
        self.collar_color = color;
        effects.push(Effect::Sync(SyncedValue::CatCollarColor(color as i32)));
    }

    /// Stops the cat from fleeing players, as it does once it is tame.
    pub fn reassess_tame_goals(&mut self)
        ensures
            final(self).mob_entity.goals@ == without_avoiding(old(self).mob_entity.goals@),
            *final(self) == (CatEntity {
                mob_entity: MobEntity {
                    goals: final(self).mob_entity.goals,
                    ..old(self).mob_entity
                },
                ..*old(self)
            }),
    {
        let mut kept: Vec<GoalEntry> = Vec::new();
        let mut i: usize = 0;
        while i < self.mob_entity.goals.len()
            invariant
                i <= self.mob_entity.goals.len(),
                kept@ == without_avoiding(self.mob_entity.goals@.take(i as int)),
                *self == *old(self),
            decreases self.mob_entity.goals.len() - i,
        {
            proof {
                let longer = self.mob_entity.goals@.take(i + 1);
                assert(longer.drop_last() =~= self.mob_entity.goals@.take(i as int));
                assert(longer.last() == self.mob_entity.goals@[i as int]);
            }
            let entry = self.mob_entity.goals[i];
            match entry.goal {
                Goal::Avoid { .. } => {},
                _ => {
                    kept.push(entry);
                },
            }
            i = i + 1;
        }
        assert(self.mob_entity.goals@.take(i as int) =~= self.mob_entity.goals@);
        self.mob_entity.goals = kept;
    }

    pub fn set_sitting(&mut self, sitting: bool, effects: &mut Vec<Effect>)
        ensures
            *final(self) == (CatEntity {
                tamable_data: TamableData { ordered_to_sit: sitting, ..old(self).tamable_data },
                ..*old(self)
            }),
            final(effects)@ == old(effects)@ + seq![
                flags_sync(sitting, old(self).tamable_data.is_tame),
                flags_sync(sitting, old(self).tamable_data.is_tame),
            ],
    {
        self.tamable_data.set_in_sitting_pose(sitting, effects);
        effects.push(Effect::Sync(SyncedValue::TamableFlags(self.get_tame_flags())));
    }

    pub fn set_tame(&mut self, tame: bool, owner: Option<u128>, effects: &mut Vec<Effect>)
        ensures
            *final(self) == (CatEntity {
                tamable_data: TamableData { is_tame: tame, owner, ..old(self).tamable_data },
                ..*old(self)
            }),
            final(effects)@ == old(effects)@ + set_tame_effects(
                old(self).tamable_data.ordered_to_sit,
                tame,
                owner,
            ),
    {
        self.tamable_data.is_tame = tame;
        self.tamable_data.set_owner(owner, effects);
        effects.push(Effect::Sync(SyncedValue::TamableFlags(self.get_tame_flags())));
        effects.push(Effect::Sync(SyncedValue::TamableOwner(owner)));
    }

    pub fn set_variant(&mut self, variant: u8, effects: &mut Vec<Effect>)
        ensures
            *final(self) == (CatEntity { variant, ..*old(self) }),
            final(effects)@ == old(effects)@.push(
                Effect::Sync(SyncedValue::CatVariant(variant as i32)),
            ),
    {
        self.variant = variant;
        effects.push(Effect::Sync(SyncedValue::CatVariant(variant as i32)));
    }

    /// Gives the cat the coat of a name.
    pub fn mob_set_variant_name(&mut self, name: &str)
        ensures
            *final(self) == (CatEntity { variant: coat_id(name@), ..*old(self) }),
    {
        self.variant = coat_from_name(name);
    }

    pub fn set_lying(&mut self, lying: bool, effects: &mut Vec<Effect>)
        ensures
            *final(self) == (CatEntity { is_lying: lying, ..*old(self) }),
            final(effects)@ == old(effects)@.push(Effect::Sync(SyncedValue::CatLying(lying))),
    {
        self.is_lying = lying;
        effects.push(Effect::Sync(SyncedValue::CatLying(lying)));
    }

    pub fn set_relax_state_one(&mut self, relax: bool, effects: &mut Vec<Effect>)
        ensures
            *final(self) == (CatEntity { relax_state_one: relax, ..*old(self) }),
            final(effects)@ == old(effects)@.push(
                Effect::Sync(SyncedValue::CatRelaxStateOne(relax)),
            ),
    {
        self.relax_state_one = relax;
        effects.push(Effect::Sync(SyncedValue::CatRelaxStateOne(relax)));
    }

    pub fn play_eating_sound(&self, effects: &mut Vec<Effect>)
        ensures
            final(effects)@ == old(effects)@.push(Effect::Play(Sound::CatEat)),
    {
        effects.push(Effect::Play(Sound::CatEat));
    }

    /// Whether an item is food for the cat.
    pub fn is_food(&self, item: Item, tagged_food: bool) -> (food: bool)
        ensures
            food == (tagged_food || diet_items(Diet::Cat).contains(item)),
    {
        tagged_food || Diet::Cat.contains(item)
    }

    pub fn get_owner_uuid(&self) -> (owner: Option<u128>)
        ensures
            owner == self.tamable_data.owner,
    {
        self.tamable_data.get_owner()
    }

    /// Lets a player use an item on the cat, where `draw` decides whether it is tamed. `key` is
    /// the name of the item.
    pub fn interact_with_draw(
        &mut self,
        cx: &CatContext,
        key: &str,
        player: &Player,
        stack: &mut ItemStack,
        draw: i32,
        effects: &mut Vec<Effect>,
    ) -> (reply: CatReply)
        ensures
            ({
                let treatment = cat_treatment(
                    *old(self),
                    *cx,
                    dye_color(key@),
                    *player,
                    *old(stack),
                );
                &&& cat_treated(*old(self), *final(self), treatment, *player, draw as int)
                &&& final(effects)@ == old(effects)@ + cat_effects(
                    *old(self),
                    treatment,
                    *player,
                    draw as int,
                )
                &&& reply == cat_reply(treatment)
                &&& *final(stack) == stack_after_treatment(reply, *old(stack), player.gamemode)
            }),
    {
        let food = self.is_food(stack.item, cx.tagged_food);
        if self.tamable_data.is_tame() {
            if self.tamable_data.is_owned_by(player.id) {
                if cx.is_dye {
                    if let Some(color) = get_dye_color_from_item(key) {
                        if color != self.get_collar_color() {
                            self.set_collar_color(color, effects);
                            stack.decrement_unless_creative(player.gamemode, 1);
                            return CatReply::Handled;
                        }
                    }
                } else if food && cx.hurt {
                    stack.decrement_unless_creative(player.gamemode, 1);
                    effects.push(Effect::Heal(2));
                    self.play_eating_sound(effects);
                    return CatReply::Handled;
                }
                return CatReply::SharedOrSit;
            }
        } else if food {
            stack.decrement_unless_creative(player.gamemode, 1);
            self.play_eating_sound(effects);
            if draw == 0 {
                self.set_tame(true, Some(player.id), effects);
                self.set_sitting(true, effects);
                self.reassess_tame_goals();
                effects.push(Effect::TamingSucceeded);
            } else {
                effects.push(Effect::TamingFailed);
            }
            return CatReply::Handled;
        }
        CatReply::Shared
    }

    /// Lets a player use an item on the cat. Feeding a wild one tames it once in three times.
    pub fn mob_interact(
        &mut self,
        cx: &CatContext,
        key: &str,
        player: &Player,
        stack: &mut ItemStack,
        effects: &mut Vec<Effect>,
    ) -> (reply: CatReply)
        ensures
            ({
                let treatment = cat_treatment(
                    *old(self),
                    *cx,
                    dye_color(key@),
                    *player,
                    *old(stack),
                );
                &&& reply == cat_reply(treatment)
                &&& *final(stack) == stack_after_treatment(reply, *old(stack), player.gamemode)
                &&& exists|draw: int|
                    0 <= draw < 3 && cat_treated(
                        *old(self),
                        *final(self),
                        treatment,
                        *player,
                        draw,
                    ) && final(effects)@ == old(effects)@ + #[trigger] cat_effects(
                        *old(self),
                        treatment,
                        *player,
                        draw,
                    )
            }),
    {
        let draw: i32 = roll(0, 3);
        self.interact_with_draw(cx, key, player, stack, draw, effects)
    }

    /// Sits down or stands up if the shared interaction did nothing. Says whether anything was
    /// done, which is always so.
    pub fn sit_if_refused(&mut self, shared_handled: bool, effects: &mut Vec<Effect>) -> (handled:
        bool)
        ensures
            handled,
            *final(self) == sat_or_rose(*old(self), shared_handled),
            final(effects)@ == old(effects)@ + (if shared_handled {
                seq![]
            } else {
                seq![
                    flags_sync(
                        !old(self).tamable_data.ordered_to_sit,
                        old(self).tamable_data.is_tame,
                    ),
                    flags_sync(
                        !old(self).tamable_data.ordered_to_sit,
                        old(self).tamable_data.is_tame,
                    ),
                ]
            }),
    {
        if !shared_handled {
            let sitting = !self.is_sitting();
            self.set_sitting(sitting, effects);
        }
        true
    }

    /// Tells clients about the cat when they first see it.
    pub fn mob_init_data_tracker(&self, effects: &mut Vec<Effect>)
        ensures
            final(effects)@ == old(effects)@ + (if self.mob_entity.age < 0 {
                seq![Effect::Sync(SyncedValue::Baby(true))]
            } else {
                seq![]
            }) + seq![
                flags_sync(self.tamable_data.ordered_to_sit, self.tamable_data.is_tame),
                Effect::Sync(SyncedValue::TamableOwner(self.tamable_data.owner)),
                Effect::Sync(SyncedValue::CatVariant(self.variant as i32)),
                Effect::Sync(SyncedValue::CatLying(self.is_lying)),
                Effect::Sync(SyncedValue::CatRelaxStateOne(self.relax_state_one)),
                Effect::Sync(SyncedValue::CatCollarColor(self.collar_color as i32)),
                Effect::Sync(SyncedValue::CatSoundVariant(self.sound_variant as i32)),
            ],
    {
        if self.mob_entity.is_baby() {
            effects.push(Effect::Sync(SyncedValue::Baby(true)));
        }
        effects.push(Effect::Sync(SyncedValue::TamableFlags(self.get_tame_flags())));
        effects.push(Effect::Sync(SyncedValue::TamableOwner(self.tamable_data.owner)));
        effects.push(Effect::Sync(SyncedValue::CatVariant(self.variant as i32)));
        effects.push(Effect::Sync(SyncedValue::CatLying(self.is_lying)));
        effects.push(Effect::Sync(SyncedValue::CatRelaxStateOne(self.relax_state_one)));
        effects.push(Effect::Sync(SyncedValue::CatCollarColor(self.collar_color as i32)));
        effects.push(Effect::Sync(SyncedValue::CatSoundVariant(self.sound_variant as i32)));
    }

    /// Saves the cat.
    pub fn write_nbt(&self, nbt: &mut NbtCompound)
        ensures
            final(nbt)@ == cat_saved(old(nbt)@, *self),
    {
        write_animal_nbt(&self.mob_entity, nbt);
        nbt.put_string("variant", coat_to_name(self.variant));
        nbt.put_byte("CollarColor", self.collar_color as i8);
        self.tamable_data.write_tamable_nbt(nbt);
    }

    /// The name of the owner in a compound that holds no identifier, to be looked up.
    pub fn legacy_owner_name(nbt: &NbtCompound) -> (name: Option<&str>)
        ensures
            name is Some == (id_at(nbt@, "Owner"@) is None && text_at(nbt@, "Owner"@) is Some),
            name is Some ==> name->0@ == text_at(nbt@, "Owner"@)->0,
    {
        if nbt.get_id("Owner").is_some() {
            None
        } else {
            nbt.get_string("Owner")
        }
    }

    /// Restores the cat. `named_owner` is the player whose name is saved in place of an
    /// identifier, as far as known.
    pub fn read_nbt(&mut self, nbt: &NbtCompound, named_owner: Option<u128>)
        ensures
            ({
                let owner = saved_owner(nbt@, named_owner);
                &&& final(self).mob_entity.goals@ == (if owner is Some {
                    without_avoiding(old(self).mob_entity.goals@)
                } else {
                    old(self).mob_entity.goals@
                })
                &&& *final(self) == (CatEntity {
                    mob_entity: MobEntity {
                        goals: final(self).mob_entity.goals,
                        owner,
                        ordered_to_sit: bool_at(nbt@, "Sitting"@) == Some(true),
                        ..animal_restored(old(self).mob_entity, nbt@)
                    },
                    variant: match text_at(nbt@, "variant"@) {
                        Some(name) => coat_id(name),
                        None => old(self).variant,
                    },
                    collar_color: saved_collar(nbt@, old(self).collar_color),
                    tamable_data: TamableData {
                        is_tame: owner is Some,
                        ordered_to_sit: bool_at(nbt@, "Sitting"@) == Some(true),
                        owner,
                    },
                    ..*old(self)
                })
            }),
    {
        read_animal_nbt(&mut self.mob_entity, nbt);
        if let Some(name) = nbt.get_string("variant") {
            self.variant = coat_from_name(name);
        }
        if let Some(collar) = nbt.get_byte("CollarColor") {
            self.collar_color = collar as u8;
        } else if let Some(collar) = nbt.get_int("CollarColor") {
            self.collar_color = #[verifier::truncate] (collar as u8);
        }
        let owner = if let Some(id) = nbt.get_id("Owner") {
            Some(id)
        } else if nbt.get_string("Owner").is_some() {
            named_owner
        } else {
            None
        };
        self.tamable_data.owner = owner;
        self.tamable_data.is_tame = owner.is_some();
        self.mob_entity.owner = owner;
        let sitting: bool = nbt.get_bool("Sitting").unwrap_or(false);
        self.tamable_data.ordered_to_sit = sitting;
        self.mob_entity.ordered_to_sit = sitting;
        if self.tamable_data.is_tame() {
            self.reassess_tame_goals();
        }
    }
}

/// What taming a cat tells the clients.
pub open spec fn set_tame_effects(sitting: bool, tame: bool, owner: Option<u128>) -> Seq<Effect> {
    seq![
        Effect::Sync(SyncedValue::TamableOwner(owner)),
        flags_sync(sitting, tame),
        Effect::Sync(SyncedValue::TamableOwner(owner)),
    ]
}

/// How a cat answers a treatment.
pub open spec fn cat_reply(treatment: CatTreatment) -> CatReply {
    match treatment {
        CatTreatment::AskToSit => CatReply::SharedOrSit,
        CatTreatment::Nothing => CatReply::Shared,
        _ => CatReply::Handled,
    }
}

/// What a treatment makes of a cat, for a draw.
pub open spec fn cat_treated(
    before: CatEntity,
    after: CatEntity,
    treatment: CatTreatment,
    player: Player,
    draw: int,
) -> bool {
    match treatment {
        CatTreatment::DyeCollar(color) => after == (CatEntity { collar_color: color, ..before }),
        CatTreatment::TryToTame if draw == 0 => {
            &&& after.mob_entity.goals@ == without_avoiding(before.mob_entity.goals@)
            &&& after == (CatEntity {
                mob_entity: MobEntity { goals: after.mob_entity.goals, ..before.mob_entity },
                tamable_data: TamableData {
                    is_tame: true,
                    ordered_to_sit: true,
                    owner: Some(player.id),
                },
                ..before
            })
        },
        _ => after == before,
    }
}

/// What a treatment asks of the host, for a draw.
pub open spec fn cat_effects(
    cat: CatEntity,
    treatment: CatTreatment,
    player: Player,
    draw: int,
) -> Seq<Effect> {
    match treatment {
        CatTreatment::DyeCollar(color) => seq![
            Effect::Sync(SyncedValue::CatCollarColor(color as i32)),
        ],
        CatTreatment::Heal => seq![Effect::Heal(2), Effect::Play(Sound::CatEat)],
        CatTreatment::TryToTame => if draw == 0 {
            seq![Effect::Play(Sound::CatEat)] + set_tame_effects(
                cat.tamable_data.ordered_to_sit,
                true,
                Some(player.id),
            ) + seq![flags_sync(true, true), flags_sync(true, true), Effect::TamingSucceeded]
        } else {
            seq![Effect::Play(Sound::CatEat), Effect::TamingFailed]
        },
        _ => seq![],
    }
}

/// What is saved of a cat.
pub open spec fn cat_saved(nbt: Map<Seq<char>, NbtValue>, cat: CatEntity) -> Map<
    Seq<char>,
    NbtValue,
> {
    tamable_saved(
        animal_saved(nbt, cat.mob_entity).insert(
            "variant"@,
            NbtValue::Text(coat_name(cat.variant)),
        ).insert("CollarColor"@, NbtValue::Byte(cat.collar_color as i8)),
        cat.tamable_data,
    )
}

/// The owner in a compound: the one whose identifier is saved, or else the one whose name is.
pub open spec fn saved_owner(
    nbt: Map<Seq<char>, NbtValue>,
    named_owner: Option<u128>,
) -> Option<u128> {
    match (id_at(nbt, "Owner"@), text_at(nbt, "Owner"@)) {
        (Some(id), _) => Some(id),
        (None, Some(_)) => named_owner,
        (None, None) => None,
    }
}

/// The colour of the collar in a compound.
pub open spec fn saved_collar(nbt: Map<Seq<char>, NbtValue>, before: u8) -> u8 {
    match (byte_at(nbt, "CollarColor"@), int_at(nbt, "CollarColor"@)) {
        (Some(color), _) => color as u8,
        (None, Some(color)) => color as u8,
        (None, None) => before,
    }
}

/// Restoring a cat that was saved to an empty compound gives back its coat, its collar, its
/// owner, and whether it was told to sit.
pub proof fn law_cat_round_trip(cat: CatEntity, collar_before: u8, named_owner: Option<u128>)
    requires
        cat.variant <= 10,
    ensures
        ({
            let nbt = cat_saved(Map::empty(), cat);
            &&& text_at(nbt, "variant"@) is Some
            &&& coat_id(text_at(nbt, "variant"@)->0) == cat.variant
            &&& saved_collar(nbt, collar_before) == cat.collar_color
            &&& saved_owner(nbt, named_owner) == cat.tamable_data.owner
            &&& (bool_at(nbt, "Sitting"@) == Some(true)) == cat.tamable_data.ordered_to_sit
        }),
{
    reveal_strlit("InLove");
    reveal_strlit("LoveCause");
    reveal_strlit("variant");
    reveal_strlit("CollarColor");
    reveal_strlit("Owner");
    reveal_strlit("Sitting");
    assert("InLove"@.len() == 6 && "LoveCause"@.len() == 9 && "variant"@.len() == 7
        && "CollarColor"@.len() == 11 && "Owner"@.len() == 5 && "Sitting"@.len() == 7);
    assert("variant"@[0] == 'v' && "Sitting"@[0] == 'S');
    law_coat_name_round_trip(cat.variant);
    let color = cat.collar_color;
    assert((color as i8) as u8 == color) by (bit_vector);
}

/// A cat that was just tamed flees from nobody any more.
pub proof fn law_tame_cat_flees_nobody(goals: Seq<GoalEntry>)
    ensures
        forall|i: int|
            0 <= i < without_avoiding(goals).len() ==> !(#[trigger] without_avoiding(
                goals,
            )[i].goal is Avoid),
    decreases goals.len(),
{
    if goals.len() > 0 {
        law_tame_cat_flees_nobody(goals.drop_last());
    }
}

/// The speed of a feline that creeps, six tenths, by its bits.
pub const FELINE_CROUCH_SPEED: u64 = 0x3FE3_3333_3333_3333;

/// The speed of a feline that flees, one and a third to two places, by its bits.
pub const FELINE_SPRINT_SPEED: u64 = 0x3FF5_47AE_147A_E148;

/// How a feline holds itself, for the bits of its speed.
pub open spec fn feline_pose(has_wanted: bool, speed: u64) -> Pose {
    if has_wanted && speed == FELINE_CROUCH_SPEED {
        Pose::Crouching
    } else {
        Pose::Standing
    }
}

/// Whether a feline sprints, for the bits of its speed.
pub open spec fn feline_sprints(has_wanted: bool, speed: u64) -> bool {
    has_wanted && speed == FELINE_SPRINT_SPEED
}

/// How a feline holds itself and whether it sprints: that depends on whether it is on its way
/// and has just the speed for creeping or fleeing, bit for bit.
pub fn feline_pose_for(has_wanted: bool, speed: u64) -> (pose: (Pose, bool))
    ensures
        pose.0 == feline_pose(has_wanted, speed),
        pose.1 == feline_sprints(has_wanted, speed),
{
    if !has_wanted {
        return (Pose::Standing, false);
    }
    if speed == FELINE_CROUCH_SPEED {
        (Pose::Crouching, false)
    } else {
        (Pose::Standing, speed == FELINE_SPRINT_SPEED)
    }
}

/// What a change of a feline's pose or pace asks of the host.
pub open spec fn pose_effects(
    has_wanted: bool,
    speed: u64,
    pose: Pose,
    sprinting: bool,
) -> Seq<Effect> {
    (if pose != feline_pose(has_wanted, speed) {
        seq![Effect::SetPose(feline_pose(has_wanted, speed))]
    } else {
        seq![]
    }) + (if sprinting != feline_sprints(has_wanted, speed) {
        seq![Effect::SetSprinting(feline_sprints(has_wanted, speed))]
    } else {
        seq![]
    })
}

/// Changes how a feline holds itself and whether it sprints, where that is not so already.
pub fn feline_pose_step(
    has_wanted: bool,
    speed: u64,
    pose: Pose,
    sprinting: bool,
    effects: &mut Vec<Effect>,
)
    ensures
        final(effects)@ == old(effects)@ + pose_effects(has_wanted, speed, pose, sprinting),
{
    let next = feline_pose_for(has_wanted, speed);
    if pose != next.0 {
        effects.push(Effect::SetPose(next.0));
    }
    if sprinting != next.1 {
        effects.push(Effect::SetSprinting(next.1));
    }
}

/// No feline creeps and sprints at once.
pub proof fn law_feline_creeps_or_sprints(has_wanted: bool, speed: u64)
    ensures
        !(feline_pose(has_wanted, speed) == Pose::Crouching && feline_sprints(has_wanted, speed)),
{
}

/// The moon is full at the start and dark half a month later; it wanes and waxes by a quarter a
/// day, over eight days.
pub proof fn law_moon_wanes_and_waxes(phase: int, time_of_day: int)
    requires
        0 <= phase < 8,
        time_of_day >= 0,
    ensures
        moon_brightness(0) == 100 && moon_brightness(4) == 0,
        phase < 4 ==> moon_brightness(phase) - moon_brightness(phase + 1) == 25,
        4 <= phase < 7 ==> moon_brightness(phase + 1) - moon_brightness(phase) == 25,
        0 <= moon_phase(time_of_day) < 8,
        time_of_day < 8 * 24000 ==> 24000 * moon_phase(time_of_day) <= time_of_day < 24000 * (
        moon_phase(time_of_day) + 1),
{
}

/// What a player does to a cat. A tame cat minds only its owner: a dye of another colour dyes its
/// collar, food heals it while it is hurt, and anything else asks it to sit or rise. A wild cat
/// may be tamed by food, and by nothing else.
pub proof fn law_how_cats_are_treated(
    cat: CatEntity,
    cx: CatContext,
    dye: Option<u8>,
    player: Player,
    stack: ItemStack,
)
    ensures
        ({
            let does = cat_treatment(cat, cx, dye, player, stack);
            let tame = cat.tamable_data.is_tame;
            let own = tame && cat.tamable_data.owner == Some(player.id);
            let food = cx.tagged_food || stack.item == Item::Cod || stack.item == Item::Salmon;
            let new_colour = cx.is_dye && dye is Some && dye != Some(cat.collar_color);
            &&& tame && !own ==> does is Nothing
            &&& own && new_colour ==> does == CatTreatment::DyeCollar(dye->0)
            &&& own && cx.is_dye && !new_colour ==> does is AskToSit
            &&& own && !cx.is_dye && food && cx.hurt ==> does is Heal
            &&& own && !cx.is_dye && !(food && cx.hurt) ==> does is AskToSit
            &&& !tame && food ==> does is TryToTame
            &&& !tame && !food ==> does is Nothing
        }),
{
    crate::item::law_diets(stack.item);
}

/// What comes of it: a dyed collar has the colour of the dye, and nothing else changes. A cat is
/// tamed at the draw: then it belongs to the player, sits, and no longer flees. A meal that does
/// not tame it, or heals it, changes nothing that is kept of it.
pub proof fn law_what_treating_a_cat_does(
    before: CatEntity,
    after: CatEntity,
    does: CatTreatment,
    player: Player,
    draw: int,
)
    requires
        cat_treated(before, after, does, player, draw),
    ensures
        does matches CatTreatment::DyeCollar(color) ==> after == (CatEntity {
            collar_color: color,
            ..before
        }),
        does is TryToTame && draw == 0 ==> after.tamable_data.is_tame
            && after.tamable_data.ordered_to_sit && after.tamable_data.owner == Some(player.id)
            && after.collar_color == before.collar_color && after.variant == before.variant,
        does is TryToTame && draw != 0 ==> after == before,
        does is Heal || does is AskToSit || does is Nothing ==> after == before,
{
}

/// What is seen and heard of it: food that is eaten is heard, a hurt cat is healed by two, and
/// taming either succeeds or fails.
pub proof fn law_what_treating_a_cat_asks_for(
    cat: CatEntity,
    does: CatTreatment,
    player: Player,
    draw: int,
)
    ensures
        ({
            let effects = cat_effects(cat, does, player, draw);
            &&& effects.contains(Effect::Play(Sound::CatEat)) <==> does is Heal || does is TryToTame
            &&& effects.contains(Effect::Heal(2)) <==> does is Heal
            &&& effects.contains(Effect::TamingSucceeded) <==> does is TryToTame && draw == 0
            &&& effects.contains(Effect::TamingFailed) <==> does is TryToTame && draw != 0
            &&& cat_reply(does) == CatReply::SharedOrSit <==> does is AskToSit
            &&& cat_reply(does) == CatReply::Shared <==> does is Nothing
        }),
{
    broadcast use group_effects;

    let effects = cat_effects(cat, does, player, draw);
    if does is Heal {
        assert(effects[0] == Effect::Heal(2) && effects[1] == Effect::Play(Sound::CatEat));
    }
    if does is TryToTame {
        assert(effects[0] == Effect::Play(Sound::CatEat));
        if draw == 0 {
            assert(effects[effects.len() - 1] == Effect::TamingSucceeded);
            assert(effects.contains(effects[effects.len() - 1]));
        } else {
            assert(effects[1] == Effect::TamingFailed);
        }
    }
}

/// A tame cat keeps every goal but that of fleeing.
pub proof fn law_tame_cat_keeps_its_other_goals(goals: Seq<GoalEntry>, kept: GoalEntry)
    requires
        !(kept.goal is Avoid),
    ensures
        without_avoiding(goals).contains(kept) <==> goals.contains(kept),
    decreases goals.len(),
{
    if goals.len() > 0 {
        let rest = goals.drop_last();
        let left = without_avoiding(rest);
        law_tame_cat_keeps_its_other_goals(rest, kept);
        assert(goals =~= rest.push(goals.last()));
        if goals.contains(kept) {
            let i = choose|i: int| 0 <= i < goals.len() && goals[i] == kept;
            if i < rest.len() {
                assert(rest[i] == kept);
                let j = choose|j: int| 0 <= j < left.len() && left[j] == kept;
                if !(goals.last().goal is Avoid) {
                    assert(without_avoiding(goals)[j] == kept);
                }
            } else {
                assert(without_avoiding(goals)[left.len() as int] == kept);
            }
        }
        if without_avoiding(goals).contains(kept) {
            let all = without_avoiding(goals);
            let j = choose|j: int| 0 <= j < all.len() && all[j] == kept;
            if j < left.len() {
                assert(left[j] == kept);
                let i = choose|i: int| 0 <= i < rest.len() && rest[i] == kept;
                assert(goals[i] == kept);
            } else {
                assert(goals[goals.len() - 1] == kept);
            }
        }
    }
}

/// Which word in the name of an item stands for which colour; a name with none of the words is no
/// dye.
pub proof fn law_words_for_colours(key: Seq<char>)
    ensures
        dye_color(key) == Some(0u8) ==> mentions(key, "white"@),
        dye_color(key) == Some(1u8) ==> mentions(key, "orange"@),
        dye_color(key) == Some(2u8) ==> mentions(key, "magenta"@),
        dye_color(key) == Some(3u8) ==> mentions(key, "light_blue"@),
        dye_color(key) == Some(4u8) ==> mentions(key, "yellow"@),
        dye_color(key) == Some(5u8) ==> mentions(key, "lime"@),
        dye_color(key) == Some(6u8) ==> mentions(key, "pink"@),
        dye_color(key) == Some(7u8) ==> mentions(key, "gray"@) && !mentions(key, "light_gray"@),
        dye_color(key) == Some(8u8) ==> mentions(key, "light_gray"@),
        dye_color(key) == Some(9u8) ==> mentions(key, "cyan"@),
        dye_color(key) == Some(10u8) ==> mentions(key, "purple"@),
        dye_color(key) == Some(11u8) ==> mentions(key, "blue"@) && !mentions(key, "light_blue"@),
        dye_color(key) == Some(12u8) ==> mentions(key, "brown"@),
        dye_color(key) == Some(13u8) ==> mentions(key, "green"@),
        dye_color(key) == Some(14u8) ==> mentions(key, "red"@),
        dye_color(key) == Some(15u8) ==> mentions(key, "black"@),
        dye_color(key) is None ==> !mentions(key, "white"@) && !mentions(key, "orange"@)
            && !mentions(key, "magenta"@) && !mentions(key, "light_blue"@) && !mentions(
            key,
            "yellow"@,
        ) && !mentions(key, "lime"@) && !mentions(key, "pink"@) && !mentions(key, "light_gray"@)
            && !mentions(key, "gray"@) && !mentions(key, "cyan"@) && !mentions(key, "purple"@)
            && !mentions(key, "blue"@) && !mentions(key, "brown"@) && !mentions(key, "green"@)
            && !mentions(key, "red"@) && !mentions(key, "black"@),
        dye_color(key) matches Some(color) ==> color < 16,
{
}

/// A cat creeps at six tenths of its speed and sprints at one and a third, and only towards
/// something that it wants.
pub proof fn law_speeds_of_felines(has_wanted: bool, speed: u64)
    ensures
        feline_pose(has_wanted, speed) == Pose::Crouching <==> has_wanted && speed
            == 0x3FE3_3333_3333_3333,
        feline_pose(has_wanted, speed) == Pose::Crouching || feline_pose(has_wanted, speed)
            == Pose::Standing,
        feline_sprints(has_wanted, speed) <==> has_wanted && speed == 0x3FF5_47AE_147A_E148,
{
}

/// An owner saved by number counts before one saved by name, and a collar saved as a small number
/// before one saved as a large one; what was not saved stays as it was.
pub proof fn law_what_is_read_of_a_cat(
    nbt: Map<Seq<char>, NbtValue>,
    named_owner: Option<u128>,
    before: u8,
)
    ensures
        id_at(nbt, "Owner"@) is Some ==> saved_owner(nbt, named_owner) == id_at(nbt, "Owner"@),
        id_at(nbt, "Owner"@) is None && text_at(nbt, "Owner"@) is Some ==> saved_owner(
            nbt,
            named_owner,
        ) == named_owner,
        id_at(nbt, "Owner"@) is None && text_at(nbt, "Owner"@) is None ==> saved_owner(
            nbt,
            named_owner,
        ) is None,
        byte_at(nbt, "CollarColor"@) is None && int_at(nbt, "CollarColor"@) is None
            ==> saved_collar(nbt, before) == before,
{
}

/// What cats pursue, and how urgently: this and nothing else.
pub proof fn law_what_cats_pursue(e: GoalEntry)
    ensures
        cat_goals().contains(e) <==> {
            ||| e.priority == 1 && e.goal == Goal::Swim
            ||| e.priority == 1 && e.goal == (Goal::EscapeDanger { speed: 1500 })
            ||| e.priority == 2 && e.goal == Goal::Sit
            ||| e.priority == 3 && e.goal == Goal::CatRelaxOnOwner
            ||| e.priority == 4 && e.goal == (Goal::Tempt { speed: 600, items: Diet::Cat, scared: true })
            ||| e.priority == 4 && e.goal == (Goal::Avoid { kind: EntityKind::Player, distance: 16000, slow_speed: 800, fast_speed: 1330, from: AvoidRule::Always, })
            ||| e.priority == 5 && e.goal == (Goal::CatLieOnBed { speed: 1100 })
            ||| e.priority == 6 && e.goal == (Goal::FollowOwner { speed: 1000, start_distance: 10000, stop_distance: 5000 })
            ||| e.priority == 7 && e.goal == (Goal::CatSitOnBlock { speed: 800 })
            ||| e.priority == 8 && e.goal == (Goal::LeapAtTarget { height: 300 })
            ||| e.priority == 9 && e.goal == Goal::OcelotAttack
            ||| e.priority == 10 && e.goal == (Goal::Breed { speed: 800 })
            ||| e.priority == 11 && e.goal == (Goal::WanderAvoidingWaterSometimes { speed: 800, probability: 10 })
            ||| e.priority == 12 && e.goal == (Goal::LookAt { kind: EntityKind::Player, range: 10000 })
        },
        cat_goals().len() == 14,
{
    let all = cat_goals();
    assert(all[0] == (GoalEntry { priority: 1, goal: Goal::Swim }));
    assert(all[1] == (GoalEntry { priority: 1, goal: Goal::EscapeDanger { speed: 1500 } }));
    assert(all[2] == (GoalEntry { priority: 2, goal: Goal::Sit }));
    assert(all[3] == (GoalEntry { priority: 3, goal: Goal::CatRelaxOnOwner }));
    assert(all[4] == (GoalEntry { priority: 4, goal: Goal::Tempt { speed: 600, items: Diet::Cat, scared: true } }));
    assert(all[5] == (GoalEntry { priority: 4, goal: Goal::Avoid { kind: EntityKind::Player, distance: 16000, slow_speed: 800, fast_speed: 1330, from: AvoidRule::Always, } }));
    assert(all[6] == (GoalEntry { priority: 5, goal: Goal::CatLieOnBed { speed: 1100 } }));
    assert(all[7] == (GoalEntry { priority: 6, goal: Goal::FollowOwner { speed: 1000, start_distance: 10000, stop_distance: 5000 } }));
    assert(all[8] == (GoalEntry { priority: 7, goal: Goal::CatSitOnBlock { speed: 800 } }));
    assert(all[9] == (GoalEntry { priority: 8, goal: Goal::LeapAtTarget { height: 300 } }));
    assert(all[10] == (GoalEntry { priority: 9, goal: Goal::OcelotAttack }));
    assert(all[11] == (GoalEntry { priority: 10, goal: Goal::Breed { speed: 800 } }));
    assert(all[12] == (GoalEntry { priority: 11, goal: Goal::WanderAvoidingWaterSometimes { speed: 800, probability: 10 } }));
    assert(all[13] == (GoalEntry { priority: 12, goal: Goal::LookAt { kind: EntityKind::Player, range: 10000 } }));
}

/// What cats go for, and how urgently: this and nothing else.
pub proof fn law_what_cats_go_for(e: GoalEntry)
    ensures
        cat_targets().contains(e) <==> {
            ||| e.priority == 1 && e.goal == (Goal::NonTameTarget { prey: NonTameKinds::Rabbits, check_visibility: false })
            ||| e.priority == 1 && e.goal == (Goal::NonTameTarget { prey: NonTameKinds::BabyTurtlesOnLand, check_visibility: false, })
        },
        cat_targets().len() == 2,
{
    let all = cat_targets();
    assert(all[0] == (GoalEntry { priority: 1, goal: Goal::NonTameTarget { prey: NonTameKinds::Rabbits, check_visibility: false } }));
    assert(all[1] == (GoalEntry { priority: 1, goal: Goal::NonTameTarget { prey: NonTameKinds::BabyTurtlesOnLand, check_visibility: false, } }));
}

/// Black cats come only where the moon lets them; ten other coats come anywhere.
pub proof fn law_wild_coats_of_cats(draw: int)
    requires
        0 <= draw < 11,
    ensures
        natural_coats().len() == 11,
        natural_coat_count(true) == natural_coat_count(false) + 1,
        natural_coat_count(true) == natural_coats().len(),
        draw == 0 ==> natural_coats()[draw] == "tabby"@,
        draw == 1 ==> natural_coats()[draw] == "black"@,
        draw == 2 ==> natural_coats()[draw] == "red"@,
        draw == 3 ==> natural_coats()[draw] == "siamese"@,
        draw == 4 ==> natural_coats()[draw] == "british_shorthair"@,
        draw == 5 ==> natural_coats()[draw] == "calico"@,
        draw == 6 ==> natural_coats()[draw] == "persian"@,
        draw == 7 ==> natural_coats()[draw] == "ragdoll"@,
        draw == 8 ==> natural_coats()[draw] == "white"@,
        draw == 9 ==> natural_coats()[draw] == "jellie"@,
        draw == 10 ==> natural_coats()[draw] == "all_black"@,
{
}

/// Being tame or not is told between two words of who the owner is.
pub proof fn law_what_taming_a_cat_tells(sitting: bool, tame: bool, owner: Option<u128>)
    ensures
        set_tame_effects(sitting, tame, owner).len() == 3,
        set_tame_effects(sitting, tame, owner)[0] == Effect::Sync(SyncedValue::TamableOwner(owner)),
        set_tame_effects(sitting, tame, owner)[2] == set_tame_effects(sitting, tame, owner)[0],
        set_tame_effects(sitting, tame, owner)[1] == flags_sync(sitting, tame),
{
}

/// Treating a cat uses up one piece of what the player holds, unless they are creative; what does
/// not treat it uses nothing.
pub proof fn law_treating_cats_uses_things_up(reply: CatReply, stack: ItemStack, gamemode: GameMode)
    ensures
        reply != CatReply::Handled || gamemode == GameMode::Creative ==> stack_after_treatment(
            reply,
            stack,
            gamemode,
        ) == stack,
        reply == CatReply::Handled && gamemode != GameMode::Creative && stack.count >= 1
            ==> stack_after_treatment(reply, stack, gamemode).count == stack.count - 1,
{
}

/// An owner who wants nothing else of a cat turns its sitting round, and twice is not at all.
pub proof fn law_cats_sit_down_and_rise(cat: CatEntity, shared_handled: bool)
    ensures
        shared_handled ==> sat_or_rose(cat, shared_handled) == cat,
        !shared_handled ==> sat_or_rose(cat, shared_handled).tamable_data.ordered_to_sit
            == !cat.tamable_data.ordered_to_sit,
        sat_or_rose(sat_or_rose(cat, shared_handled), shared_handled) == cat,
        sat_or_rose(cat, shared_handled).tamable_data.owner == cat.tamable_data.owner,
        sat_or_rose(cat, shared_handled).tamable_data.is_tame == cat.tamable_data.is_tame,
{
}

/// A pose or pace is asked for if and only if it is not there yet.
pub proof fn law_poses_are_asked_for(has_wanted: bool, speed: u64, pose: Pose, sprinting: bool)
    ensures
        pose == feline_pose(has_wanted, speed) && sprinting == feline_sprints(has_wanted, speed)
            <==> pose_effects(has_wanted, speed, pose, sprinting).len() == 0,
        pose != feline_pose(has_wanted, speed) ==> pose_effects(has_wanted, speed, pose, sprinting)[0]
            == Effect::SetPose(feline_pose(has_wanted, speed)),
        sprinting != feline_sprints(has_wanted, speed) ==> pose_effects(
            has_wanted,
            speed,
            pose,
            sprinting,
        ).last() == Effect::SetSprinting(feline_sprints(has_wanted, speed)),
{
}

} // verus!
