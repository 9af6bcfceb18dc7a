//! Llamas: strength, coats, caravans and spit.

use vstd::prelude::*;

use crate::animal::{animal_restored, animal_saved, read_animal_nbt, write_animal_nbt};
use crate::effect::{Effect, Interaction, Sound, SyncedValue};
use crate::equine::{
    base_rules, carries_over, chest_size, chested_interacted, chested_mob_interact,
    chested_reaction, data_after_meal, health_effects, horse_restore_effects, horse_restored,
    horse_saved, horse_ticked, inherit_health, inherited_health, law_horse_round_trip,
    lemma_horse_names, llama_meal, meal_eaten, meal_effects, mob_after_meal, new_horse_data,
    randomize_max_health, resized, same_kind, with_health, AbstractHorseData, ChestedHorseData,
    HorseAttributes, HorseContext, HorseReaction, HorseRules, HorseScene, Menu, ParentAttributes,
};
use crate::goal::{
    entry, goal, look_at_player, watch_player, EntityKind, Goal, GoalEntry, TargetRule,
};
use crate::item::{Diet, Item, ItemStack, Player};
use crate::mob::MobEntity;
use crate::nbt::{bool_at, bool_value, int_at, NbtCompound, NbtValue};
use crate::random::{chance, roll};

verus! {

pub const MAX_STRENGTH: u8 = 5;

pub const LLAMA_MAX_TEMPER: i32 = 30;

/// How many coats there are.
pub const LLAMA_VARIANT_COUNT: u8 = 4;

/// The number that stands for no llama in a caravan.
pub const NOBODY: i32 = -1;

/// What llamas have beyond other horses.
#[derive(Clone, Copy, PartialEq, Eq, Structural, Debug)]
pub struct LlamaData {
    pub strength: u8,
    pub variant: u8,
    /// Whether the llama has spat at someone.
    pub did_spit: bool,
    /// The llama that this one follows.
    pub caravan_head_id: i32,
    /// The llama that follows this one.
    pub caravan_tail_id: i32,
}

impl Default for LlamaData {
    fn default() -> (data: Self)
        ensures
            data == (LlamaData {
                strength: 1,
                variant: 0,
                did_spit: false,
                caravan_head_id: NOBODY,
                caravan_tail_id: NOBODY,
            }),
            data.wf(),
    {
        LlamaData {
            strength: 1,
            variant: 0,
            did_spit: false,
            caravan_head_id: NOBODY,
            caravan_tail_id: NOBODY,
        }
    }
}

/// The strength of a llama for a draw.
pub open spec fn drawn_strength(draw: int) -> u8 {
    (1 + draw) as u8
}

/// What chance decides about a young llama.
#[derive(Clone, Copy)]
pub struct CriaDraws {
    /// Up to the strength of the stronger parent.
    pub strength: u8,
    /// Whether the young one is stronger still.
    pub bonus: bool,
    /// Whether the coat is that of the first parent.
    pub first_coat: bool,
}

/// Whether draws are among the possible ones for two parents.
pub open spec fn cria_draws_valid(first: LlamaData, second: LlamaData, draws: CriaDraws) -> bool {
    draws.strength < first.strength || draws.strength < second.strength
}

/// A young llama with what its parents gave it.
pub open spec fn cria_of(
    young: LlamaData,
    first: LlamaData,
    second: LlamaData,
    draws: CriaDraws,
) -> LlamaData {
    let strength = 1 + draws.strength + (if draws.bonus { 1int } else { 0 });
    LlamaData {
        strength: if strength > MAX_STRENGTH { MAX_STRENGTH } else { strength as u8 },
        variant: if draws.first_coat { first.variant } else { second.variant },
        ..young
    }
}

impl LlamaData {
    /// Strength and coat are among those that exist.
    pub open spec fn wf(self) -> bool {
        &&& 1 <= self.strength <= MAX_STRENGTH
        &&& self.variant < LLAMA_VARIANT_COUNT
    }

    pub fn in_caravan(&self) -> (follows: bool)
        ensures
            follows == (self.caravan_head_id != NOBODY),
    {
        self.caravan_head_id != NOBODY
    }

    pub fn has_caravan_tail(&self) -> (followed: bool)
        ensures
            followed == (self.caravan_tail_id != NOBODY),
    {
        self.caravan_tail_id != NOBODY
    }

    /// Sets the strength for a draw.
    pub fn set_strength_with_draw(&mut self, draw: i32)
        requires
            0 <= draw < MAX_STRENGTH,
        ensures
            *final(self) == (LlamaData { strength: drawn_strength(draw as int), ..*old(self) }),
    {
        self.strength = 1 + draw as u8;
    }

    /// Gives a young llama strength and coat, for draws.
    pub fn inherit(&mut self, first: &LlamaData, second: &LlamaData, draws: &CriaDraws)
        requires
            first.wf(),
            second.wf(),
            cria_draws_valid(*first, *second, *draws),
        ensures
            *final(self) == cria_of(*old(self), *first, *second, *draws),
            final(self).wf(),
    {
        let mut strength: u8 = 1 + draws.strength;
        if draws.bonus {
            strength = strength + 1;
        }
        self.strength = if strength > MAX_STRENGTH { MAX_STRENGTH } else { strength };
        self.variant = if draws.first_coat { first.variant } else { second.variant };
    }

    /// Saves strength and coat.
    pub fn write_llama_nbt(&self, nbt: &mut NbtCompound)
        ensures
            final(nbt)@ == llama_data_saved(old(nbt)@, *self),
    {
        nbt.put_int("Variant", self.variant as i32);
        nbt.put_int("Strength", self.strength as i32);
    }

    /// Restores strength and coat.
    pub fn read_llama_strength_variant(&mut self, nbt: &NbtCompound)
        ensures
            *final(self) == llama_data_restored(*old(self), nbt@),
            final(self).wf(),
    {
        let strength: i32 = nbt.get_int("Strength").unwrap_or(0);
        self.strength = if strength < 1 {
            1
        } else if strength > MAX_STRENGTH as i32 {
            MAX_STRENGTH
        } else {
            strength as u8
        };
        let variant: i32 = nbt.get_int("Variant").unwrap_or(0);
        self.variant = if variant < 0 {
            0
        } else if variant > 3 {
            3
        } else {
            variant as u8
        };
    }

    /// Tells clients about strength and coat.
    pub fn send_llama_metadata(&self, effects: &mut Vec<Effect>)
        ensures
            final(effects)@ == old(effects)@ + llama_syncs(*self),
    {
        effects.push(Effect::Sync(SyncedValue::LlamaStrength(self.strength as i32)));
        effects.push(Effect::Sync(SyncedValue::LlamaVariant(self.variant as i32)));
    }
}

/// What clients are told about strength and coat.
pub open spec fn llama_syncs(data: LlamaData) -> Seq<Effect> {
    seq![
        Effect::Sync(SyncedValue::LlamaStrength(data.strength as i32)),
        Effect::Sync(SyncedValue::LlamaVariant(data.variant as i32)),
    ]
}

/// The number closest to `value` from `low` to `high`.
pub open spec fn clamped(value: int, low: int, high: int) -> int {
    if value < low {
        low
    } else if value > high {
        high
    } else {
        value
    }
}

/// What is saved of strength and coat.
pub open spec fn llama_data_saved(nbt: Map<Seq<char>, NbtValue>, data: LlamaData) -> Map<
    Seq<char>,
    NbtValue,
> {
    nbt.insert("Variant"@, NbtValue::Int(data.variant as i32)).insert(
        "Strength"@,
        NbtValue::Int(data.strength as i32),
    )
}

/// Strength and coat as they were saved, or the closest that exist.
pub open spec fn llama_data_restored(data: LlamaData, nbt: Map<Seq<char>, NbtValue>) -> LlamaData {
    let strength = match int_at(nbt, "Strength"@) {
        Some(n) => n,
        None => 0,
    };
    let variant = match int_at(nbt, "Variant"@) {
        Some(n) => n,
        None => 0,
    };
    LlamaData {
        strength: clamped(strength as int, 1, MAX_STRENGTH as int) as u8,
        variant: clamped(variant as int, 0, 3) as u8,
        ..data
    }
}

/// Restoring saved strength and coat gives them back.
pub proof fn law_llama_data_round_trip(
    nbt: Map<Seq<char>, NbtValue>,
    data: LlamaData,
    other: LlamaData,
)
    requires
        data.wf(),
    ensures
        llama_data_restored(other, llama_data_saved(nbt, data)).strength == data.strength,
        llama_data_restored(other, llama_data_saved(nbt, data)).variant == data.variant,
{
    reveal_strlit("Variant");
    reveal_strlit("Strength");
    assert("Variant"@.len() == 7 && "Strength"@.len() == 8);
}

/// Whatever was saved, a restored llama has a strength and a coat that exist.
pub proof fn law_restored_llama_is_valid(data: LlamaData, nbt: Map<Seq<char>, NbtValue>)
    ensures
        llama_data_restored(data, nbt).wf(),
{
}

/// A young llama is at most one stronger than its stronger parent, and its coat is that of one
/// of them.
pub proof fn law_cria_takes_after_its_parents(
    young: LlamaData,
    first: LlamaData,
    second: LlamaData,
    draws: CriaDraws,
)
    requires
        first.wf(),
        second.wf(),
        cria_draws_valid(first, second, draws),
    ensures
        ({
            let cria = cria_of(young, first, second, draws);
            &&& cria.wf()
            &&& cria.strength <= first.strength + 1 || cria.strength <= second.strength + 1
            &&& cria.variant == first.variant || cria.variant == second.variant
        }),
{
}

/// How strong a drawn llama is at most: three, rarely five.
pub fn strength_bound(rare: bool) -> (bound: i32)
    ensures
        bound == (if rare {
            5i32
        } else {
            3
        }),
{
    if rare {
        5
    } else {
        3
    }
}

/// Draws the strength of a llama, from one up to the bound for that draw.
pub fn set_random_strength(data: &mut LlamaData)
    ensures
        1 <= final(data).strength <= MAX_STRENGTH,
        *final(data) == (LlamaData { strength: final(data).strength, ..*old(data) }),
{
    let rare: bool = chance(1, 25);
    let draw: i32 = roll(0, strength_bound(rare));
    data.set_strength_with_draw(draw);
}

/// A mob that may be a llama.
pub enum AnyMob {
    Llama(LlamaEntity),
    TraderLlama(LlamaData),
    Other,
}

/// What a mob has of a llama, if it is one.
pub open spec fn llama_part(mob: AnyMob) -> Option<LlamaData> {
    match mob {
        AnyMob::Llama(llama) => Some(llama.llama_data),
        AnyMob::TraderLlama(data) => Some(data),
        AnyMob::Other => None,
    }
}

/// What a mob has of a llama, if it is one.
pub fn llama_data_of(mob: &AnyMob) -> (data: Option<&LlamaData>)
    ensures
        match data {
            Some(found) => llama_part(*mob) == Some(*found),
            None => llama_part(*mob) is None,
        },
{
    match mob {
        AnyMob::Llama(llama) => Some(&llama.llama_data),
        AnyMob::TraderLlama(data) => Some(data),
        AnyMob::Other => None,
    }
}

/// Draws the health of a new llama.
pub fn randomize_llama_max_health(data: &mut AbstractHorseData, effects: &mut Vec<Effect>)
    ensures
        exists|health: u32|
            15 <= health <= 30 && *final(data) == (AbstractHorseData {
                attributes: with_health(old(data).attributes, health),
                ..*old(data)
            }) && final(effects)@ == old(effects)@ + #[trigger] health_effects(
                old(data).attributes,
                health,
            ),
{
    randomize_max_health(data, effects);
}

/// What clients are told of the age of a mob that they first see.
pub open spec fn baby_syncs(age: i32) -> Seq<Effect> {
    if age < 0 {
        seq![Effect::Sync(SyncedValue::Baby(true))]
    } else {
        seq![]
    }
}

/// Tells clients that a mob is a baby, if it is one.
pub fn send_baby_id_if_baby(mob: &MobEntity, effects: &mut Vec<Effect>)
    ensures
        final(effects)@ == old(effects)@ + baby_syncs(mob.age),
{
    if mob.is_baby() {
        effects.push(Effect::Sync(SyncedValue::Baby(true)));
    }
}

/// What a llama pursues.
pub open spec fn llama_goals() -> Seq<GoalEntry> {
    seq![
        entry(0, Goal::Swim),
        entry(1, Goal::RunAroundLikeCrazy { speed: 1200 }),
        entry(2, Goal::LlamaFollowCaravan { speed: 2100 }),
        entry(3, Goal::LlamaSpit { speed: 1250, interval: 40, range: 20000 }),
        entry(3, Goal::EscapeDanger { speed: 1200 }),
        entry(4, Goal::Breed { speed: 1000 }),
        entry(5, Goal::Tempt { speed: 1250, items: Diet::Llama, scared: false }),
        entry(6, Goal::FollowParent { speed: 1000 }),
        entry(7, Goal::Wander { speed: 700 }),
        entry(8, look_at_player(6000)),
        entry(9, Goal::LookAround),
    ]
}

/// Whom a llama attacks.
pub open spec fn llama_targets() -> Seq<GoalEntry> {
    seq![
        entry(1, Goal::LlamaHurtByTarget),
        entry(
            2,
            Goal::ActiveTarget {
                kind: EntityKind::Wolf,
                interval: 16,
                check_visibility: false,
                check_navigable: true,
                only: TargetRule::UntamedWolf,
            },
        ),
    ]
}

/// Gives a mob the goals of a llama.
pub fn register_llama_goals(mob: &mut MobEntity)
    ensures
        *final(mob) == (MobEntity {
            goals: final(mob).goals,
            targets: final(mob).targets,
            ..*old(mob)
        }),
        final(mob).goals@ == old(mob).goals@ + llama_goals(),
        final(mob).targets@ == old(mob).targets@ + llama_targets(),
{
    let mut goals = vec![
        goal(0, Goal::Swim),
        goal(1, Goal::RunAroundLikeCrazy { speed: 1200 }),
        goal(2, Goal::LlamaFollowCaravan { speed: 2100 }),
        goal(3, Goal::LlamaSpit { speed: 1250, interval: 40, range: 20000 }),
        goal(3, Goal::EscapeDanger { speed: 1200 }),
        goal(4, Goal::Breed { speed: 1000 }),
        goal(5, Goal::Tempt { speed: 1250, items: Diet::Llama, scared: false }),
        goal(6, Goal::FollowParent { speed: 1000 }),
        goal(7, Goal::Wander { speed: 700 }),
        goal(8, watch_player(6000)),
        goal(9, Goal::LookAround),
    ];
    let mut targets = vec![
        goal(1, Goal::LlamaHurtByTarget),
        goal(
            2,
            Goal::ActiveTarget {
                kind: EntityKind::Wolf,
                interval: 16,
                check_visibility: false,
                check_navigable: true,
                only: TargetRule::UntamedWolf,
            },
        ),
    ];
    mob.goals.append(&mut goals);
    mob.targets.append(&mut targets);
}

/// The rules of llamas.
pub open spec fn llama_rules() -> HorseRules {
    HorseRules {
        max_temper: LLAMA_MAX_TEMPER,
        can_rear: false,
        can_eat_grass: false,
        menu: Menu::Llama,
        eating_sound: Some(Sound::LlamaEat),
        angry_sound: Some(Sound::LlamaAngry),
        chest_sound: Sound::LlamaChest,
        ..base_rules()
    }
}

/// A llama.
pub struct LlamaEntity {
    pub mob_entity: MobEntity,
    pub horse_data: AbstractHorseData,
    pub chested_data: ChestedHorseData,
    pub llama_data: LlamaData,
}

impl LlamaEntity {
    /// A new llama, whose health, strength and coat are drawn. `attributes` is what its kind is
    /// capable of by default.
    pub fn new(
        age: i32,
        attributes: HorseAttributes,
        effects: &mut Vec<Effect>,
    ) -> (llama: Self)
        ensures
            llama.mob_entity.fresh(age),
            llama.mob_entity.goals@ == llama_goals(),
            llama.mob_entity.targets@ == llama_targets(),
            !llama.chested_data.has_chest,
            llama.chested_data.inventory@ == Seq::<ItemStack>::empty(),
            llama.llama_data.wf(),
            !llama.llama_data.did_spit,
            llama.llama_data.caravan_head_id == NOBODY,
            llama.llama_data.caravan_tail_id == NOBODY,
            exists|health: u32|
                15 <= health <= 30 && llama.horse_data == new_horse_data(
                    with_health(attributes, health),
                ) && final(effects)@ == old(effects)@ + #[trigger] health_effects(
                    attributes,
                    health,
                ),
    {
        let mut mob_entity = MobEntity::new(age);
        register_llama_goals(&mut mob_entity);
        let mut llama_data = LlamaData::default();
        set_random_strength(&mut llama_data);
        let variant: i32 = roll(0, LLAMA_VARIANT_COUNT as i32);
        llama_data.variant = variant as u8;
        let mut llama = LlamaEntity {
            mob_entity,
            horse_data: AbstractHorseData::with_attributes(attributes),
            chested_data: ChestedHorseData::default(),
            llama_data,
        };
        assert(llama.mob_entity.goals@ =~= llama_goals());
        assert(llama.mob_entity.targets@ =~= llama_targets());
        llama.randomize_attributes(effects);
        llama
    }

    /// The rules of llamas.
    pub fn rules() -> (rules: HorseRules)
        ensures
            rules == llama_rules(),
    {
        HorseRules {
            max_temper: LLAMA_MAX_TEMPER,
            can_rear: false,
            can_eat_grass: false,
            menu: Menu::Llama,
            eating_sound: Some(Sound::LlamaEat),
            angry_sound: Some(Sound::LlamaAngry),
            chest_sound: Sound::LlamaChest,
            ..HorseRules::base()
        }
    }

    /// Draws the health of a new llama.
    pub fn randomize_attributes(&mut self, effects: &mut Vec<Effect>)
        ensures
            exists|health: u32|
                15 <= health <= 30 && *final(self) == (LlamaEntity {
                    horse_data: AbstractHorseData {
                        attributes: with_health(old(self).horse_data.attributes, health),
                        ..old(self).horse_data
                    },
                    ..*old(self)
                }) && final(effects)@ == old(effects)@ + #[trigger] health_effects(
                    old(self).horse_data.attributes,
                    health,
                ),
    {
        randomize_llama_max_health(&mut self.horse_data, effects);
    }

    /// How many columns of slots the llama carries: as many as it is strong, with a chest.
    pub fn get_inventory_columns(&self) -> (columns: u8)
        ensures
            columns == (if self.chested_data.has_chest { self.llama_data.strength } else { 0 }),
    {
        if self.chested_data.has_chest() {
            self.llama_data.strength
        } else {
            0
        }
    }

    /// Offers an item to the llama, and says whether it was eaten. It eats wheat and hay.
    pub fn handle_llama_eating(
        &mut self,
        item: Item,
        player: u128,
        hurt: bool,
        effects: &mut Vec<Effect>,
    ) -> (eaten: bool)
        ensures
            final(self).chested_data == old(self).chested_data,
            final(self).llama_data == old(self).llama_data,
            match llama_meal(item) {
                Some(meal) => {
                    let mob = old(self).mob_entity;
                    let data = old(self).horse_data;
                    &&& eaten == meal_eaten(mob, data, llama_rules(), meal, hurt)
                    &&& final(self).mob_entity == mob_after_meal(mob, llama_rules(), meal, player)
                    &&& final(self).horse_data == data_after_meal(
                        mob,
                        data,
                        llama_rules(),
                        meal,
                        hurt,
                    )
                    &&& final(effects)@ == old(effects)@ + meal_effects(
                        mob,
                        llama_rules(),
                        meal,
                        hurt,
                    )
                },
                None => {
                    &&& !eaten
                    &&& final(self).mob_entity == old(self).mob_entity
                    &&& final(self).horse_data == old(self).horse_data
                    &&& final(effects)@ == old(effects)@
                },
            },
    {
        let rules = Self::rules();
        self.horse_data.handle_eating(&mut self.mob_entity, &rules, item, player, hurt, effects)
    }

    /// One tick. A llama neither rears nor grazes, but may be eating.
    pub fn mob_tick(&mut self, is_vehicle: bool, grass_below: bool)
        requires
            old(self).horse_data.wf(),
        ensures
            *final(self) == (LlamaEntity { horse_data: final(self).horse_data, ..*old(self) }),
            final(self).horse_data == horse_ticked(
                old(self).horse_data,
                llama_rules(),
                is_vehicle,
                grass_below,
                0,
            ),
            final(self).horse_data.wf(),
    {
        let rules = Self::rules();
        self.horse_data.tick_horse_ai(&rules, is_vehicle, grass_below);
    }

    /// How fast the llama follows a lead, in thousandths.
    pub fn get_follow_leash_speed(&self) -> (speed: u32)
        ensures
            speed == 2000,
    {
        2000
    }

    /// Shows a player what a tame llama carries.
    pub fn open_custom_inventory_screen(&self, player: &Player, effects: &mut Vec<Effect>)
        ensures
            final(effects)@ == (if self.mob_entity.owner is Some {
                old(effects)@.push(Effect::OpenInventory { player: player.id })
            } else {
                old(effects)@
            }),
    {
        if self.mob_entity.is_tamed() {
            effects.push(Effect::OpenInventory { player: player.id });
        }
    }

    /// Lets a player use an item on the llama.
    pub fn mob_interact(
        &mut self,
        cx: &HorseContext,
        player: &Player,
        stack: &mut ItemStack,
        effects: &mut Vec<Effect>,
    ) -> (outcome: Interaction)
        ensures
            (HorseScene {
                mob: final(self).mob_entity,
                data: final(self).horse_data,
                stack: *final(stack),
                effects: final(effects)@,
                outcome,
            }) == chested_interacted(
                (HorseScene {
                    mob: old(self).mob_entity,
                    data: old(self).horse_data,
                    stack: *old(stack),
                    effects: old(effects)@,
                    outcome,
                }),
                old(self).chested_data.has_chest,
                llama_rules(),
                *cx,
                *player,
            ),
            final(self).llama_data == old(self).llama_data,
            old(self).horse_data.wf() ==> final(self).horse_data.wf(),
            ({
                let reaction = chested_reaction(
                    old(self).mob_entity,
                    old(self).chested_data.has_chest,
                    *cx,
                    *player,
                    *old(stack),
                );
                if reaction == HorseReaction::TakeChest {
                    &&& final(self).chested_data.has_chest
                    &&& final(self).chested_data.inventory@ == resized(
                        old(self).chested_data.inventory@,
                        chest_size(true, old(self).llama_data.strength),
                    )
                } else {
                    final(self).chested_data == old(self).chested_data
                }
            }),
    {
        let rules = Self::rules();
        let columns: u8 = self.llama_data.strength;
        chested_mob_interact(
            &mut self.mob_entity,
            &mut self.horse_data,
            &mut self.chested_data,
            columns,
            &rules,
            cx,
            player,
            stack,
            effects,
        )
    }

    /// Tells clients about the llama when they first see it.
    pub fn mob_init_data_tracker(&self, effects: &mut Vec<Effect>)
        ensures
            final(effects)@ == old(effects)@ + (baby_syncs(self.mob_entity.age) + llama_syncs(
                self.llama_data,
            )),
    {
        send_baby_id_if_baby(&self.mob_entity, effects);
        self.llama_data.send_llama_metadata(effects);
    }

    /// Gives a young llama strength and coat: the strength of its stronger parent at most,
    /// rarely one more, and the coat of either; and draws its health. Without a second llama it
    /// keeps its own.
    pub fn create_llama_offspring(
        &mut self,
        first: &LlamaData,
        mate: Option<&LlamaData>,
        own: &ParentAttributes,
        other: &ParentAttributes,
        effects: &mut Vec<Effect>,
    )
        requires
            first.wf(),
            mate is Some ==> mate->0.wf(),
        ensures
            match mate {
                Some(second) => exists|draws: CriaDraws|
                    cria_draws_valid(*first, *second, draws) && *final(self) == (LlamaEntity {
                        llama_data: #[trigger] cria_of(
                            old(self).llama_data,
                            *first,
                            *second,
                            draws,
                        ),
                        ..*old(self)
                    }),
                None => *final(self) == *old(self),
            },
            final(effects)@ == old(effects)@ + (if mate is Some {
                seq![inherited_health(*own, *other)]
            } else {
                seq![]
            }),
    {
        if let Some(second) = mate {
            inherit_health(own, other, effects);
            let stronger: u8 = if first.strength > second.strength {
                first.strength
            } else {
                second.strength
            };
            let strength: i32 = roll(0, stronger as i32);
            let draws = CriaDraws {
                strength: strength as u8,
                bonus: chance(3, 100),
                first_coat: chance(1, 2),
            };
            self.llama_data.inherit(first, second, &draws);
            assert(cria_draws_valid(*first, *second, draws));
        }
    }

    /// Saves the llama.
    pub fn write_nbt(&self, nbt: &mut NbtCompound)
        ensures
            final(nbt)@ == llama_saved(old(nbt)@, *self),
    {
        write_animal_nbt(&self.mob_entity, nbt);
        self.horse_data.write_horse_nbt(nbt);
        self.chested_data.write_chested_horse_nbt(nbt);
        self.llama_data.write_llama_nbt(nbt);
    }

    /// Restores the llama. The chest gets as many columns as the llama is strong.
    pub fn read_nbt(&mut self, nbt: &NbtCompound, effects: &mut Vec<Effect>)
        ensures
            final(effects)@ == old(effects)@ + horse_restore_effects(
                old(self).horse_data.attributes,
                nbt@,
            ),
            final(self).mob_entity == animal_restored(old(self).mob_entity, nbt@),
            final(self).horse_data == horse_restored(old(self).horse_data, nbt@),
            final(self).llama_data == llama_data_restored(old(self).llama_data, nbt@),
            final(self).chested_data.has_chest == (bool_at(nbt@, "ChestedHorse"@) == Some(true)),
            final(self).chested_data.inventory@ == resized(
                old(self).chested_data.inventory@,
                chest_size(
                    bool_at(nbt@, "ChestedHorse"@) == Some(true),
                    final(self).llama_data.strength,
                ),
            ),
    {
        read_animal_nbt(&mut self.mob_entity, nbt);
        self.llama_data.read_llama_strength_variant(nbt);
        self.horse_data.read_horse_nbt(nbt, effects);
        let columns: u8 = self.llama_data.strength;
        self.chested_data.read_chested_horse_nbt(nbt, columns);
    }
}

/// What is saved of a llama.
pub open spec fn llama_saved(nbt: Map<Seq<char>, NbtValue>, llama: LlamaEntity) -> Map<
    Seq<char>,
    NbtValue,
> {
    llama_data_saved(
        horse_saved(animal_saved(nbt, llama.mob_entity), llama.horse_data).insert(
            "ChestedHorse"@,
            bool_value(llama.chested_data.has_chest),
        ),
        llama.llama_data,
    )
}

/// Restoring a saved llama gives back its strength, its coat, whether it has a chest, whether it
/// eats, whether it was bred, its temper, and what it is capable of.
pub proof fn law_llama_round_trip(
    nbt: Map<Seq<char>, NbtValue>,
    llama: LlamaEntity,
    other: LlamaEntity,
)
    requires
        llama.llama_data.wf(),
    ensures
        ({
            let saved = llama_saved(nbt, llama);
            let data = llama_data_restored(other.llama_data, saved);
            &&& data.strength == llama.llama_data.strength
            &&& data.variant == llama.llama_data.variant
            &&& carries_over(horse_restored(other.horse_data, saved), llama.horse_data)
            &&& same_kind(llama.horse_data.attributes, other.horse_data.attributes)
                ==> horse_restored(other.horse_data, saved).attributes
                == llama.horse_data.attributes
            &&& (bool_at(saved, "ChestedHorse"@) == Some(true)) == llama.chested_data.has_chest
        }),
{
    reveal_strlit("ChestedHorse");
    lemma_horse_names();
    reveal_strlit("Variant");
    reveal_strlit("Strength");
    assert("ChestedHorse"@.len() == 12 && "Variant"@.len() == 7
        && "Strength"@.len() == 8);
    law_llama_data_round_trip(
        horse_saved(animal_saved(nbt, llama.mob_entity), llama.horse_data).insert(
            "ChestedHorse"@,
            bool_value(llama.chested_data.has_chest),
        ),
        llama.llama_data,
        other.llama_data,
    );
    let animal = animal_saved(nbt, llama.mob_entity);
    law_horse_round_trip(animal, llama.horse_data, other.horse_data);
    assert(horse_restored(other.horse_data, llama_saved(nbt, llama)) == horse_restored(
        other.horse_data,
        horse_saved(animal, llama.horse_data),
    ));
}

/// A llama is as strong as its draw and one more. A young one is as strong as its draw says, up to
/// its stronger parent, and by the bonus one more, but never stronger than five; its coat is that
/// of the parent that the draw names.
pub proof fn law_how_strong_llamas_are(
    young: LlamaData,
    first: LlamaData,
    second: LlamaData,
    draws: CriaDraws,
    draw: int,
)
    requires
        first.wf(),
        second.wf(),
        cria_draws_valid(first, second, draws),
        0 <= draw < 5,
    ensures
        ({
            let cria = cria_of(young, first, second, draws);
            let wanted = draws.strength + 1 + (if draws.bonus { 1int } else { 0 });
            &&& drawn_strength(draw) == draw + 1
            &&& wanted <= 5 ==> cria.strength == wanted
            &&& wanted > 5 ==> cria.strength == 5
            &&& draws.first_coat ==> cria.variant == first.variant
            &&& !draws.first_coat ==> cria.variant == second.variant
            &&& cria.did_spit == young.did_spit && cria.caravan_head_id == young.caravan_head_id
        }),
{
}

/// A saved strength or coat that no llama has is replaced by the nearest one that a llama can have.
pub proof fn law_what_is_read_of_a_llama(data: LlamaData, nbt: Map<Seq<char>, NbtValue>)
    ensures
        ({
            let back = llama_data_restored(data, nbt);
            let strength = int_at(nbt, "Strength"@);
            let coat = int_at(nbt, "Variant"@);
            &&& strength is None || strength->0 < 1 ==> back.strength == 1
            &&& strength is Some && strength->0 > 5 ==> back.strength == 5
            &&& strength is Some && 1 <= strength->0 <= 5 ==> back.strength == strength->0
            &&& coat is None || coat->0 < 0 ==> back.variant == 0
            &&& coat is Some && coat->0 > 3 ==> back.variant == 3
            &&& coat is Some && 0 <= coat->0 <= 3 ==> back.variant == coat->0
        }),
{
}

/// A llama is calmer than a horse, neither rears nor grazes, and has a menu and a voice of its own.
pub proof fn law_rules_of_llamas()
    ensures
        llama_rules().max_temper == 30,
        !llama_rules().can_rear && !llama_rules().can_eat_grass && llama_rules().can_fall_in_love,
        llama_rules().menu == Menu::Llama,
        llama_rules().eating_sound == Some(Sound::LlamaEat),
        llama_rules().angry_sound == Some(Sound::LlamaAngry),
        llama_rules().chest_sound == Sound::LlamaChest,
{
}

/// Llamas and trader llamas are llamas, and no other mob is.
pub proof fn law_who_is_a_llama(llama: LlamaEntity, data: LlamaData)
    ensures
        llama_part(AnyMob::Llama(llama)) == Some(llama.llama_data),
        llama_part(AnyMob::TraderLlama(data)) == Some(data),
        llama_part(AnyMob::Other) is None,
{
}

/// What llamas pursue, and how urgently: this and nothing else.
pub proof fn law_what_llamas_pursue(e: GoalEntry)
    ensures
        llama_goals().contains(e) <==> {
            ||| e.priority == 0 && e.goal == Goal::Swim
            ||| e.priority == 1 && e.goal == (Goal::RunAroundLikeCrazy { speed: 1200 })
            ||| e.priority == 2 && e.goal == (Goal::LlamaFollowCaravan { speed: 2100 })
            ||| e.priority == 3 && e.goal == (Goal::LlamaSpit { speed: 1250, interval: 40, range: 20000 })
            ||| e.priority == 3 && e.goal == (Goal::EscapeDanger { speed: 1200 })
            ||| e.priority == 4 && e.goal == (Goal::Breed { speed: 1000 })
            ||| e.priority == 5 && e.goal == (Goal::Tempt { speed: 1250, items: Diet::Llama, scared: false })
            ||| e.priority == 6 && e.goal == (Goal::FollowParent { speed: 1000 })
            ||| e.priority == 7 && e.goal == (Goal::Wander { speed: 700 })
            ||| e.priority == 8 && e.goal == (Goal::LookAt { kind: EntityKind::Player, range: 6000 })
            ||| e.priority == 9 && e.goal == Goal::LookAround
        },
        llama_goals().len() == 11,
{
    let all = llama_goals();
    assert(all[0] == (GoalEntry { priority: 0, goal: Goal::Swim }));
    assert(all[1] == (GoalEntry { priority: 1, goal: Goal::RunAroundLikeCrazy { speed: 1200 } }));
    assert(all[2] == (GoalEntry { priority: 2, goal: Goal::LlamaFollowCaravan { speed: 2100 } }));
    assert(all[3] == (GoalEntry { priority: 3, goal: Goal::LlamaSpit { speed: 1250, interval: 40, range: 20000 } }));
    assert(all[4] == (GoalEntry { priority: 3, goal: Goal::EscapeDanger { speed: 1200 } }));
    assert(all[5] == (GoalEntry { priority: 4, goal: Goal::Breed { speed: 1000 } }));
    assert(all[6] == (GoalEntry { priority: 5, goal: Goal::Tempt { speed: 1250, items: Diet::Llama, scared: false } }));
    assert(all[7] == (GoalEntry { priority: 6, goal: Goal::FollowParent { speed: 1000 } }));
    assert(all[8] == (GoalEntry { priority: 7, goal: Goal::Wander { speed: 700 } }));
    assert(all[9] == (GoalEntry { priority: 8, goal: Goal::LookAt { kind: EntityKind::Player, range: 6000 } }));
    assert(all[10] == (GoalEntry { priority: 9, goal: Goal::LookAround }));
}

/// What llamas go for, and how urgently: this and nothing else.
pub proof fn law_what_llamas_go_for(e: GoalEntry)
    ensures
        llama_targets().contains(e) <==> {
            ||| e.priority == 1 && e.goal == Goal::LlamaHurtByTarget
            ||| e.priority == 2 && e.goal == (Goal::ActiveTarget { kind: EntityKind::Wolf, interval: 16, check_visibility: false, check_navigable: true, only: TargetRule::UntamedWolf, })
        },
        llama_targets().len() == 2,
{
    let all = llama_targets();
    assert(all[0] == (GoalEntry { priority: 1, goal: Goal::LlamaHurtByTarget }));
    assert(all[1] == (GoalEntry { priority: 2, goal: Goal::ActiveTarget { kind: EntityKind::Wolf, interval: 16, check_visibility: false, check_navigable: true, only: TargetRule::UntamedWolf, } }));
}

/// A llama tells its strength and then its coat, as they are.
pub proof fn law_what_llamas_tell(data: LlamaData)
    ensures
        llama_syncs(data).len() == 2,
        llama_syncs(data)[0] == Effect::Sync(SyncedValue::LlamaStrength(data.strength as i32)),
        llama_syncs(data)[1] == Effect::Sync(SyncedValue::LlamaVariant(data.variant as i32)),
{
}

/// A baby is told as one, and a grown llama is not.
pub proof fn law_baby_llamas_are_told(age: i32)
    ensures
        baby_syncs(age).contains(Effect::Sync(SyncedValue::Baby(true))) <==> age < 0,
        age >= 0 ==> baby_syncs(age).len() == 0,
{
    if age < 0 {
        assert(baby_syncs(age)[0] == Effect::Sync(SyncedValue::Baby(true)));
    }
}

/// Clamping keeps what is in the range and moves all else to the nearer end.
pub proof fn law_clamping(value: int, low: int, high: int)
    requires
        low <= high,
    ensures
        low <= clamped(value, low, high) <= high,
        low <= value <= high ==> clamped(value, low, high) == value,
        value < low ==> clamped(value, low, high) == low,
        value > high ==> clamped(value, low, high) == high,
{
}

} // verus!
