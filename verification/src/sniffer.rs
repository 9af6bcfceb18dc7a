//! Sniffers: what they are doing, and where they have already dug.

use vstd::prelude::*;

use crate::animal::{
    animal_interact, animal_restored, animal_saved, falls_in_love, fed, feeding_effects, grows,
    meal_outcome, read_animal_nbt, stack_after_meal, write_animal_nbt, Feeding,
};
use crate::effect::{Effect, Ground, Interaction, Sound, SyncedValue};
use crate::goal::{entry, goal, look_at_player, watch_player, EntityKind, Goal, GoalEntry};
use crate::item::{Diet, Item, ItemStack, Player};
use crate::mob::MobEntity;
use crate::nbt::{compound_at, int_at, list_at, NbtCompound, NbtTag, NbtValue};
use crate::position::{block_pos_from_nbt, block_pos_to_nbt, pos_at, pos_value, BlockPos};

verus! {

/// The age of a new baby: sniffers take long to grow up.
pub const SNIFFER_BABY_START_AGE: i32 = -48000;

/// How many places a sniffer remembers when it digs in a new one.
pub const MAX_EXPLORED_POSITIONS: usize = 20;

/// Whether a sniffer walks through water: where it burns or is wet already.
pub fn sniffer_ignores_water_malus(fire_ticks: i32, touching_water: bool) -> (ignores: bool)
    ensures
        ignores == (fire_ticks > 0 || touching_water),
{
    fire_ticks > 0 || touching_water
}

/// What a sniffer is doing.
#[derive(Clone, Copy, PartialEq, Eq, Structural, Debug)]
pub enum SnifferState {
    Idling,
    FeelingHappy,
    Scenting,
    Sniffing,
    Searching,
    Digging,
    Rising,
}

impl Default for SnifferState {
    fn default() -> (state: Self)
        ensures
            state == SnifferState::Idling,
    {
        SnifferState::Idling
    }
}

/// The number of a state.
pub open spec fn state_id(state: SnifferState) -> i32 {
    match state {
        SnifferState::Idling => 0,
        SnifferState::FeelingHappy => 1,
        SnifferState::Scenting => 2,
        SnifferState::Sniffing => 3,
        SnifferState::Searching => 4,
        SnifferState::Digging => 5,
        SnifferState::Rising => 6,
    }
}

/// The state for a number. What is no state is idling.
pub open spec fn state_of_id(id: i32) -> SnifferState {
    match id {
        1 => SnifferState::FeelingHappy,
        2 => SnifferState::Scenting,
        3 => SnifferState::Sniffing,
        4 => SnifferState::Searching,
        5 => SnifferState::Digging,
        6 => SnifferState::Rising,
        _ => SnifferState::Idling,
    }
}

impl SnifferState {
    pub fn from_id(id: i32) -> (state: Self)
        ensures
            state == state_of_id(id),
    {
        match id {
            1 => SnifferState::FeelingHappy,
            2 => SnifferState::Scenting,
            3 => SnifferState::Sniffing,
            4 => SnifferState::Searching,
            5 => SnifferState::Digging,
            6 => SnifferState::Rising,
            _ => SnifferState::Idling,
        }
    }

    pub fn id(self) -> (id: i32)
        ensures
            id == state_id(self),
    {
        match self {
            SnifferState::Idling => 0,
            SnifferState::FeelingHappy => 1,
            SnifferState::Scenting => 2,
            SnifferState::Sniffing => 3,
            SnifferState::Searching => 4,
            SnifferState::Digging => 5,
            SnifferState::Rising => 6,
        }
    }
}

/// The number of a state leads back to it.
pub proof fn law_sniffer_state_round_trip(state: SnifferState)
    ensures
        state_of_id(state_id(state)) == state,
{
}

/// Whether a sniffer in a state breeds.
pub open spec fn breeds_in(state: SnifferState) -> bool {
    state == SnifferState::Idling || state == SnifferState::Scenting || state
        == SnifferState::FeelingHappy
}

/// Whether a sniffer in a state breeds.
pub fn sniffer_state_can_mate(state: SnifferState) -> (can: bool)
    ensures
        can == breeds_in(state),
{
    match state {
        SnifferState::Idling | SnifferState::Scenting | SnifferState::FeelingHappy => true,
        _ => false,
    }
}

/// Whether two mobs breed as sniffers do; a mob that is no sniffer does not.
pub fn sniffer_can_mate(
    sniffer: Option<&SnifferEntity>,
    partner: Option<&SnifferEntity>,
) -> (can: bool)
    ensures
        can == (sniffer is Some && partner is Some && breeds_in(state_of_id(sniffer->0.state))
            && breeds_in(state_of_id(partner->0.state))),
{
    match (sniffer, partner) {
        (Some(one), Some(other)) => sniffer_state_can_mate(one.get_state())
            && sniffer_state_can_mate(other.get_state()),
        _ => false,
    }
}

/// The sound of a sniffer that starts to do something.
pub open spec fn state_sound(state: SnifferState) -> Option<Sound> {
    match state {
        SnifferState::FeelingHappy => Some(Sound::SnifferHappy),
        SnifferState::Scenting => Some(Sound::SnifferScenting),
        SnifferState::Sniffing => Some(Sound::SnifferSniffing),
        _ => None,
    }
}

/// What a sniffer pursues.
pub open spec fn sniffer_goals() -> Seq<GoalEntry> {
    seq![
        entry(0, Goal::Swim),
        entry(1, Goal::SnifferDig { speed: 1000 }),
        entry(2, Goal::SnifferBreed { speed: 1000 }),
        entry(3, Goal::Tempt { speed: 1000, items: Diet::Sniffer, scared: false }),
        entry(4, Goal::FollowParent { speed: 1000 }),
        entry(5, Goal::Wander { speed: 1000 }),
        entry(6, look_at_player(6000)),
        entry(7, Goal::LookAround),
    ]
}

/// A sniffer.
pub struct SnifferEntity {
    pub mob_entity: MobEntity,
    pub state: i32,
    /// Where the sniffer has dug, the latest first.
    pub explored_positions: Vec<BlockPos>,
}

/// The places a sniffer remembers once it has dug in another.
pub open spec fn explored_with(explored: Seq<BlockPos>, pos: BlockPos) -> Seq<BlockPos> {
    seq![pos] + (if explored.len() > MAX_EXPLORED_POSITIONS {
        explored.take(MAX_EXPLORED_POSITIONS as int)
    } else {
        explored
    })
}

/// The sniffer remembers the place where it last dug, and so many places before that; it never
/// remembers more than one beyond its measure.
pub proof fn law_explored_positions_are_bounded(explored: Seq<BlockPos>, pos: BlockPos)
    ensures
        explored_with(explored, pos).len() <= MAX_EXPLORED_POSITIONS + 1,
        explored_with(explored, pos)[0] == pos,
        forall|i: int|
            0 <= i < explored.len() && i < MAX_EXPLORED_POSITIONS ==> explored_with(
                explored,
                pos,
            ).contains(#[trigger] explored[i]),
{
    assert forall|i: int| 0 <= i < explored.len() && i < MAX_EXPLORED_POSITIONS implies explored_with(
        explored,
        pos,
    ).contains(#[trigger] explored[i]) by {
        assert(explored_with(explored, pos)[i + 1] == explored[i]);
    }
}

/// The message that tells clients what a sniffer is doing.
pub open spec fn state_sync(state: SnifferState) -> Effect {
    Effect::Sync(SyncedValue::SnifferState(state_id(state)))
}

/// What starting to do something asks of the host.
pub open spec fn transition_effects(state: SnifferState) -> Seq<Effect> {
    match state_sound(state) {
        Some(sound) => seq![state_sync(state), Effect::Play(sound)],
        None => seq![state_sync(state)],
    }
}

/// The place that a saved entry names.
pub open spec fn entry_pos(tag: NbtTag) -> Option<BlockPos> {
    match tag {
        NbtTag::Compound(compound) => pos_at(compound@, "pos"@),
        _ => None,
    }
}

/// The places that saved entries name, in order. Entries that name none are passed over.
pub open spec fn entry_positions(list: Seq<NbtTag>) -> Seq<BlockPos>
    decreases list.len(),
{
    if list.len() == 0 {
        seq![]
    } else {
        let before = entry_positions(list.drop_last());
        match entry_pos(list.last()) {
            Some(pos) => before.push(pos),
            None => before,
        }
    }
}

/// The list of saved places.
pub open spec fn explored_list(nbt: Map<Seq<char>, NbtValue>) -> Option<Vec<NbtTag>> {
    match compound_at(nbt, "Brain"@) {
        Some(brain) => match compound_at(brain@, "memories"@) {
            Some(memories) => match compound_at(
                memories@,
                "minecraft:sniffer_explored_positions"@,
            ) {
                Some(memory) => list_at(memory@, "value"@),
                None => None,
            },
            None => None,
        },
        None => None,
    }
}

/// Whether the saved brain holds a list of places and nothing else.
pub open spec fn holds_only_explored(nbt: Map<Seq<char>, NbtValue>) -> bool {
    let brain = nbt["Brain"@]->Compound_0;
    let memories = brain@["memories"@]->Compound_0;
    let memory = memories@["minecraft:sniffer_explored_positions"@]->Compound_0;
    &&& explored_list(nbt) is Some
    &&& brain@.dom() == set!["memories"@]
    &&& memories@.dom() == set!["minecraft:sniffer_explored_positions"@]
    &&& memory@.dom() == set!["value"@]
}

/// How one place is saved.
pub open spec fn place_saved(pos: BlockPos, dimension: Seq<char>) -> Map<Seq<char>, NbtValue> {
    Map::<Seq<char>, NbtValue>::empty().insert("dimension"@, NbtValue::Text(dimension)).insert(
        "pos"@,
        pos_value(pos),
    )
}

/// Whether a list holds the places, each in a dimension, in order.
pub open spec fn lists_places(
    list: Seq<NbtTag>,
    places: Seq<BlockPos>,
    dimension: Seq<char>,
) -> bool {
    &&& list.len() == places.len()
    &&& forall|i: int|
        0 <= i < list.len() ==> (#[trigger] list[i]) is Compound && list[i]->Compound_0@
            == place_saved(places[i], dimension)
}

/// A list of places names just those places.
pub proof fn lemma_listed_places(list: Seq<NbtTag>, places: Seq<BlockPos>, dimension: Seq<char>)
    requires
        lists_places(list, places, dimension),
    ensures
        entry_positions(list) == places,
    decreases list.len(),
{
    if list.len() > 0 {
        let last = list.len() - 1;
        assert(list[last] is Compound);
        assert forall|i: int| 0 <= i < last implies (#[trigger] list.drop_last()[i]) is Compound
            && list.drop_last()[i]->Compound_0@ == place_saved(places.drop_last()[i], dimension) by {
            assert(list.drop_last()[i] == list[i]);
        }
        lemma_listed_places(list.drop_last(), places.drop_last(), dimension);
        assert(entry_pos(list.last()) == Some(places.last()));
        assert(places.drop_last().push(places.last()) =~= places);
    } else {
        assert(places =~= Seq::<BlockPos>::empty());
    }
}

/// What the paths of a sniffer ask of the host.
pub open spec fn sniffer_path_effects() -> Seq<Effect> {
    seq![
        Effect::FloatOnPaths,
        Effect::AvoidGround(Ground::Water),
        Effect::AvoidGround(Ground::PowderSnow),
        Effect::AvoidGround(Ground::NearDamage),
    ]
}

impl SnifferEntity {
    /// A new sniffer that has dug nowhere, with its paths prepared.
    pub fn new(age: i32, effects: &mut Vec<Effect>) -> (sniffer: Self)
        ensures
            sniffer.mob_entity.fresh(age),
            sniffer.mob_entity.goals@ == sniffer_goals(),
            sniffer.mob_entity.targets@ == Seq::<GoalEntry>::empty(),
            sniffer.state == state_id(SnifferState::Idling),
            sniffer.explored_positions@ == Seq::<BlockPos>::empty(),
            final(effects)@ == old(effects)@ + sniffer_path_effects(),
    {
        let goals = vec![
            goal(0, Goal::Swim),
            goal(1, Goal::SnifferDig { speed: 1000 }),
            goal(2, Goal::SnifferBreed { speed: 1000 }),
            goal(3, Goal::Tempt { speed: 1000, items: Diet::Sniffer, scared: false }),
            goal(4, Goal::FollowParent { speed: 1000 }),
            goal(5, Goal::Wander { speed: 1000 }),
            goal(6, watch_player(6000)),
            goal(7, Goal::LookAround),
        ];
        let sniffer = SnifferEntity {
            mob_entity: MobEntity::with_goals(age, goals, Vec::new()),
            state: SnifferState::Idling.id(),
            explored_positions: Vec::new(),
        };
        sniffer.prepare_paths(effects);
        sniffer
    }

    /// Prepares the paths of a new sniffer: it floats, and keeps off water, powder snow and
    /// harm.
    pub fn prepare_paths(&self, effects: &mut Vec<Effect>)
        ensures
            final(effects)@ == old(effects)@ + sniffer_path_effects(),
    {
        effects.push(Effect::FloatOnPaths);
        effects.push(Effect::AvoidGround(Ground::Water));
        effects.push(Effect::AvoidGround(Ground::PowderSnow));
        effects.push(Effect::AvoidGround(Ground::NearDamage));
    }

    /// Lets the sniffer walk through water, where it burns or is wet already, while it looks
    /// for a path.
    pub fn on_pathfinding_start(
        &self,
        fire_ticks: i32,
        touching_water: bool,
        effects: &mut Vec<Effect>,
    )
        ensures
            final(effects)@ == old(effects)@ + (if fire_ticks > 0 || touching_water {
                seq![Effect::AllowGround(Ground::Water)]
            } else {
                seq![]
            }),
    {
        if sniffer_ignores_water_malus(fire_ticks, touching_water) {
            effects.push(Effect::AllowGround(Ground::Water));
        }
    }

    /// Keeps the sniffer off water again.
    pub fn on_pathfinding_done(&self, effects: &mut Vec<Effect>)
        ensures
            final(effects)@ == old(effects)@.push(
                Effect::AvoidGround(Ground::Water),
            ),
    {
        effects.push(Effect::AvoidGround(Ground::Water));
    }

    /// Remembers a place where the sniffer has dug.
    pub fn store_explored_position(&mut self, pos: BlockPos)
        ensures
            *final(self) == (SnifferEntity {
                explored_positions: final(self).explored_positions,
                ..*old(self)
            }),
            final(self).explored_positions@ == explored_with(old(self).explored_positions@, pos),
    {
        self.explored_positions.truncate(MAX_EXPLORED_POSITIONS);
        self.explored_positions.insert(0, pos);
        assert(self.explored_positions@ =~= explored_with(old(self).explored_positions@, pos));
    }

    /// Whether the sniffer remembers having dug in a place.
    pub fn has_explored(&self, pos: BlockPos) -> (explored: bool)
        ensures
            explored == self.explored_positions@.contains(pos),
    {
        let mut i: usize = 0;
        while i < self.explored_positions.len()
            invariant
                i <= self.explored_positions.len(),
                forall|j: int| 0 <= j < i ==> self.explored_positions@[j] != pos,
            decreases self.explored_positions.len() - i,
        {
            if self.explored_positions[i] == pos {
                return true;
            }
            i = i + 1;
        }
        false
    }

    pub fn get_state(&self) -> (state: SnifferState)
        ensures
            state == state_of_id(self.state),
    {
        SnifferState::from_id(self.state)
    }

    pub fn set_state(&mut self, state: SnifferState, effects: &mut Vec<Effect>)
        ensures
            *final(self) == (SnifferEntity { state: state_id(state), ..*old(self) }),
            final(effects)@ == old(effects)@.push(state_sync(state)),
    {
        self.state = state.id();
        effects.push(Effect::Sync(SyncedValue::SnifferState(state.id())));
    }

    /// Starts to do something, some of which sounds.
    pub fn transition_to(&mut self, state: SnifferState, effects: &mut Vec<Effect>)
        ensures
            *final(self) == (SnifferEntity { state: state_id(state), ..*old(self) }),
            final(effects)@ == old(effects)@ + transition_effects(state),
    {
        self.set_state(state, effects);
        let sound = match state {
            SnifferState::FeelingHappy => Some(Sound::SnifferHappy),
            SnifferState::Scenting => Some(Sound::SnifferScenting),
            SnifferState::Sniffing => Some(Sound::SnifferSniffing),
            SnifferState::Idling
            | SnifferState::Searching
            | SnifferState::Digging
            | SnifferState::Rising => None,
        };
        if let Some(sound) = sound {
            effects.push(Effect::Play(sound));
        }
    }

    /// Whether the sniffer breeds with another mob.
    pub fn can_breed_with(&self, mate: Option<&SnifferEntity>) -> (can: bool)
        ensures
            can == (mate is Some && breeds_in(state_of_id(self.state)) && breeds_in(
                state_of_id(mate->0.state),
            )),
    {
        sniffer_can_mate(Some(self), mate)
    }

    /// Lets a player use an item on the sniffer.
    pub fn mob_interact(
        &mut self,
        food: bool,
        breeding_ready: bool,
        player: &Player,
        stack: &mut ItemStack,
        effects: &mut Vec<Effect>,
    ) -> (outcome: Interaction)
        requires
            grows(
                old(self).mob_entity,
                sniffer_feeding(food, breeding_ready),
            ) ==> old(self).mob_entity.age > i32::MIN,
        ensures
            ({
                let mob = old(self).mob_entity;
                let feeding = sniffer_feeding(food, breeding_ready);
                &&& outcome == meal_outcome(mob, feeding)
                &&& *final(self) == (SnifferEntity {
                    mob_entity: fed(mob, feeding, *player),
                    ..*old(self)
                })
                &&& *final(stack) == stack_after_meal(
                    mob,
                    feeding,
                    *old(stack),
                    player.gamemode,
                )
                &&& final(effects)@ == old(effects)@ + feeding_effects(mob, feeding)
            }),
    {
        let feeding = Feeding {
            food,
            breeding_ready,
            can_age_up: true,
            sound: Sound::SnifferEat,
        };
        animal_interact(&mut self.mob_entity, feeding, player, stack, effects)
    }

    /// The age of a newborn: sniffers grow up slowly.
    pub fn get_baby_start_age(&self) -> (age: i32)
        ensures
            age == SNIFFER_BABY_START_AGE,
    {
        SNIFFER_BABY_START_AGE
    }

    /// The baby of two sniffers: none, since they lay an egg.
    pub fn create_offspring(&self) -> (baby: Option<u128>)
        ensures
            baby is None,
    {
        None
    }

    /// Lays an egg in place of a baby.
    pub fn spawn_breeding_result(&self, effects: &mut Vec<Effect>)
        ensures
            final(effects)@ == old(effects)@ + seq![
                Effect::PlayVaried { sound: Sound::SnifferEggPlop, pitch: 5000 },
                Effect::Drop((ItemStack { item: Item::SnifferEgg, count: 1 })),
            ],
    {
        effects.push(Effect::PlayVaried { sound: Sound::SnifferEggPlop, pitch: 5000 });
        effects.push(Effect::Drop(ItemStack::new(1, Item::SnifferEgg)));
    }

    /// Tells clients about the sniffer when they first see it.
    pub fn mob_init_data_tracker(&self, effects: &mut Vec<Effect>)
        ensures
            final(effects)@ == old(effects)@ + (if self.mob_entity.age < 0 {
                seq![Effect::Sync(SyncedValue::Baby(true))]
            } else {
                seq![]
            }) + seq![state_sync(state_of_id(self.state))],
    {
        if self.mob_entity.is_baby() {
            effects.push(Effect::Sync(SyncedValue::Baby(true)));
        }
        effects.push(Effect::Sync(SyncedValue::SnifferState(self.get_state().id())));
    }

    /// Saves the places where the sniffer has dug, if there are any.
    fn write_explored_positions_nbt(&self, dimension: &str, nbt: &mut NbtCompound)
        ensures
            explored_saved(old(nbt)@, final(nbt)@, self.explored_positions@, dimension@),
    {
        if self.explored_positions.len() == 0 {
            return ;
        }
        let mut entries: Vec<NbtTag> = Vec::new();
        let mut i: usize = 0;
        while i < self.explored_positions.len()
            invariant
                i <= self.explored_positions.len(),
                lists_places(
                    entries@,
                    self.explored_positions@.take(i as int),
                    dimension@,
                ),
            decreases self.explored_positions.len() - i,
        {
            let mut place = NbtCompound::new();
            place.put_string("dimension", dimension);
            place.put("pos", block_pos_to_nbt(self.explored_positions[i]));
            let ghost before = entries@;
            entries.push(NbtTag::Compound(place));
            proof {
                let places = self.explored_positions@;
                assert forall|j: int| 0 <= j < entries@.len() implies (#[trigger] entries@[j])
                    is Compound && entries@[j]->Compound_0@ == place_saved(
                    places.take(i + 1)[j],
                    dimension@,
                ) by {
                    if j < i {
                        assert(entries@[j] == before[j]);
                        assert(places.take(i + 1)[j] == places.take(i as int)[j]);
                    }
                }
            }
            i = i + 1;
        }
        assert(self.explored_positions@.take(i as int) =~= self.explored_positions@);
        let mut memory = NbtCompound::new();
        memory.put("value", NbtTag::List(entries));
        let mut memories = NbtCompound::new();
        memories.put("minecraft:sniffer_explored_positions", NbtTag::Compound(memory));
        let mut brain = NbtCompound::new();
        brain.put("memories", NbtTag::Compound(memories));
        nbt.put("Brain", NbtTag::Compound(brain));
    }

    /// Restores the places where the sniffer has dug, if any were saved.
    fn read_explored_positions_nbt(&mut self, nbt: &NbtCompound)
        ensures
            *final(self) == (SnifferEntity {
                explored_positions: final(self).explored_positions,
                ..*old(self)
            }),
            final(self).explored_positions@ == explored_restored(
                old(self).explored_positions@,
                nbt@,
            ),
    {
        let brain = match nbt.get_compound("Brain") {
            Some(brain) => brain,
            None => return ,
        };
        let memories = match brain.get_compound("memories") {
            Some(memories) => memories,
            None => return ,
        };
        let memory = match memories.get_compound("minecraft:sniffer_explored_positions") {
            Some(memory) => memory,
            None => return ,
        };
        let entries = match memory.get_list("value") {
            Some(entries) => entries,
            None => return ,
        };
        let mut positions: Vec<BlockPos> = Vec::new();
        let mut i: usize = 0;
        while i < entries.len()
            invariant
                i <= entries.len(),
                positions@ == entry_positions(entries@.take(i as int)),
            decreases entries.len() - i,
        {
            assert(entries@.take(i + 1).drop_last() =~= entries@.take(i as int));
            assert(entries@.take(i + 1).last() == entries@[i as int]);
            if let NbtTag::Compound(place) = &entries[i] {
                if let Some(pos) = block_pos_from_nbt(place, "pos") {
                    positions.push(pos);
                }
            }
            i = i + 1;
        }
        assert(entries@.take(i as int) =~= entries@);
        self.explored_positions = positions;
    }

    /// Saves the sniffer, which is in a dimension.
    pub fn write_nbt(&self, dimension: &str, nbt: &mut NbtCompound)
        ensures
            explored_saved(
                sniffer_saved(old(nbt)@, *self),
                final(nbt)@,
                self.explored_positions@,
                dimension@,
            ),
    {
        write_animal_nbt(&self.mob_entity, nbt);
        nbt.put_int("State", self.get_state().id());
        self.write_explored_positions_nbt(dimension, nbt);
    }

    /// Restores the sniffer.
    pub fn read_nbt(&mut self, nbt: &NbtCompound)
        ensures
            *final(self) == (SnifferEntity {
                mob_entity: animal_restored(old(self).mob_entity, nbt@),
                state: match int_at(nbt@, "State"@) {
                    Some(id) => id,
                    None => old(self).state,
                },
                explored_positions: final(self).explored_positions,
            }),
            final(self).explored_positions@ == explored_restored(
                old(self).explored_positions@,
                nbt@,
            ),
    {
        read_animal_nbt(&mut self.mob_entity, nbt);
        if let Some(id) = nbt.get_int("State") {
            self.state = id;
        }
        self.read_explored_positions_nbt(nbt);
    }
}

/// How a sniffer takes food.
pub open spec fn sniffer_feeding(food: bool, breeding_ready: bool) -> Feeding {
    Feeding { food, breeding_ready, can_age_up: true, sound: Sound::SnifferEat }
}

/// What is saved of a sniffer, but for the places where it has dug.
pub open spec fn sniffer_saved(nbt: Map<Seq<char>, NbtValue>, sniffer: SnifferEntity) -> Map<
    Seq<char>,
    NbtValue,
> {
    animal_saved(nbt, sniffer.mob_entity).insert(
        "State"@,
        NbtValue::Int(state_id(state_of_id(sniffer.state))),
    )
}

/// Whether saving places has led from some saved values to others.
pub open spec fn explored_saved(
    before: Map<Seq<char>, NbtValue>,
    after: Map<Seq<char>, NbtValue>,
    places: Seq<BlockPos>,
    dimension: Seq<char>,
) -> bool {
    if places.len() == 0 {
        after == before
    } else {
        &&& after == before.insert("Brain"@, after["Brain"@])
        &&& holds_only_explored(after)
        &&& lists_places(explored_list(after)->0@, places, dimension)
    }
}

/// The places where a sniffer has dug, as they were saved, or else those it knew.
pub open spec fn explored_restored(
    places: Seq<BlockPos>,
    nbt: Map<Seq<char>, NbtValue>,
) -> Seq<BlockPos> {
    match explored_list(nbt) {
        Some(list) => entry_positions(list@),
        None => places,
    }
}

/// A sniffer that is restored to a new one knows again where it has dug, and what it was doing.
pub proof fn law_sniffer_round_trip(
    sniffer: SnifferEntity,
    dimension: Seq<char>,
    nbt: Map<Seq<char>, NbtValue>,
)
    requires
        explored_saved(
            sniffer_saved(Map::empty(), sniffer),
            nbt,
            sniffer.explored_positions@,
            dimension,
        ),
    ensures
        explored_restored(Seq::empty(), nbt) == sniffer.explored_positions@,
        int_at(nbt, "State"@) == Some(state_id(state_of_id(sniffer.state))),
{
    reveal_strlit("InLove");
    reveal_strlit("LoveCause");
    reveal_strlit("State");
    reveal_strlit("Brain");
    assert("InLove"@.len() == 6 && "LoveCause"@.len() == 9 && "State"@.len() == 5 && "Brain"@.len()
        == 5);
    assert("State"@[0] == 'S' && "Brain"@[0] == 'B');
    let places = sniffer.explored_positions@;
    if places.len() == 0 {
        assert(explored_list(nbt) is None);
        assert(places =~= Seq::<BlockPos>::empty());
    } else {
        lemma_listed_places(explored_list(nbt)->0@, places, dimension);
    }
}

/// Food makes a baby sniffer grow and a grown one that is ready fall in love; nothing else does, and
/// it is heard.
pub proof fn law_what_feeding_a_sniffer_does(mob: MobEntity, food: bool, breeding_ready: bool)
    ensures
        grows(mob, sniffer_feeding(food, breeding_ready)) <==> food && mob.age < 0,
        falls_in_love(mob, sniffer_feeding(food, breeding_ready)) <==> food && breeding_ready && mob.age >= 0
            && mob.love_ticks <= 0,
        sniffer_feeding(food, breeding_ready).sound == Sound::SnifferEat,
{
}

/// Sniffers mate while they idle, scent or are happy, and in no other state.
pub proof fn law_when_sniffers_mate(state: SnifferState)
    ensures
        !breeds_in(state) <==> state == SnifferState::Sniffing || state == SnifferState::Searching
            || state == SnifferState::Digging || state == SnifferState::Rising,
{
}

/// The states that are heard, each by its own sound.
pub proof fn law_states_that_are_heard(state: SnifferState)
    ensures
        state_sound(state) == Some(Sound::SnifferHappy) <==> state == SnifferState::FeelingHappy,
        state_sound(state) == Some(Sound::SnifferScenting) <==> state == SnifferState::Scenting,
        state_sound(state) == Some(Sound::SnifferSniffing) <==> state == SnifferState::Sniffing,
        state_sound(state) is None <==> state == SnifferState::Idling || state
            == SnifferState::Searching || state == SnifferState::Digging || state
            == SnifferState::Rising,
{
}

/// A new state is told before it is heard, if it is.
pub proof fn law_new_state_is_told(state: SnifferState)
    ensures
        transition_effects(state)[0] == Effect::Sync(SyncedValue::SnifferState(state_id(state))),
        transition_effects(state).len() == 1 <==> state_sound(state) is None,
        state_sound(state) is Some ==> transition_effects(state).len() == 2 && transition_effects(
            state,
        )[1] == Effect::Play(state_sound(state)->0),
{
}

/// The newest place is first, the twenty before it follow in their order, and older ones are
/// forgotten.
pub proof fn law_explored_places_by_age(explored: Seq<BlockPos>, pos: BlockPos, i: int)
    ensures
        explored_with(explored, pos)[0] == pos,
        0 <= i < explored.len() && i < 20 ==> explored_with(explored, pos)[i + 1] == explored[i],
        explored.len() <= 20 ==> explored_with(explored, pos).len() == explored.len() + 1,
        explored.len() > 20 ==> explored_with(explored, pos).len() == 21,
{
}

/// Sniffers float, and keep off water, powder snow and what hurts.
pub proof fn law_where_sniffers_walk()
    ensures
        sniffer_path_effects().len() == 4,
        sniffer_path_effects().contains(Effect::FloatOnPaths),
        sniffer_path_effects().contains(Effect::AvoidGround(Ground::Water)),
        sniffer_path_effects().contains(Effect::AvoidGround(Ground::PowderSnow)),
        sniffer_path_effects().contains(Effect::AvoidGround(Ground::NearDamage)),
{
    assert(sniffer_path_effects()[0] == Effect::FloatOnPaths);
    assert(sniffer_path_effects()[1] == Effect::AvoidGround(Ground::Water));
    assert(sniffer_path_effects()[2] == Effect::AvoidGround(Ground::PowderSnow));
    assert(sniffer_path_effects()[3] == Effect::AvoidGround(Ground::NearDamage));
}

/// The numbers of the states run from zero to six, and any other number means idling.
pub proof fn law_state_numbers(id: i32)
    ensures
        0 <= id <= 6 ==> state_id(state_of_id(id)) == id,
        id < 0 || id > 6 ==> state_of_id(id) == SnifferState::Idling,
        state_id(SnifferState::Idling) == 0,
        state_id(SnifferState::Digging) == 5,
{
}

/// What sniffers pursue, and how urgently: this and nothing else.
pub proof fn law_what_sniffers_pursue(e: GoalEntry)
    ensures
        sniffer_goals().contains(e) <==> {
            ||| e.priority == 0 && e.goal == Goal::Swim
            ||| e.priority == 1 && e.goal == (Goal::SnifferDig { speed: 1000 })
            ||| e.priority == 2 && e.goal == (Goal::SnifferBreed { speed: 1000 })
            ||| e.priority == 3 && e.goal == (Goal::Tempt { speed: 1000, items: Diet::Sniffer, scared: false })
            ||| e.priority == 4 && e.goal == (Goal::FollowParent { speed: 1000 })
            ||| e.priority == 5 && e.goal == (Goal::Wander { speed: 1000 })
            ||| e.priority == 6 && e.goal == (Goal::LookAt { kind: EntityKind::Player, range: 6000 })
            ||| e.priority == 7 && e.goal == Goal::LookAround
        },
        sniffer_goals().len() == 8,
{
    let all = sniffer_goals();
    assert(all[0] == (GoalEntry { priority: 0, goal: Goal::Swim }));
    assert(all[1] == (GoalEntry { priority: 1, goal: Goal::SnifferDig { speed: 1000 } }));
    assert(all[2] == (GoalEntry { priority: 2, goal: Goal::SnifferBreed { speed: 1000 } }));
    assert(all[3] == (GoalEntry { priority: 3, goal: Goal::Tempt { speed: 1000, items: Diet::Sniffer, scared: false } }));
    assert(all[4] == (GoalEntry { priority: 4, goal: Goal::FollowParent { speed: 1000 } }));
    assert(all[5] == (GoalEntry { priority: 5, goal: Goal::Wander { speed: 1000 } }));
    assert(all[6] == (GoalEntry { priority: 6, goal: Goal::LookAt { kind: EntityKind::Player, range: 6000 } }));
    assert(all[7] == (GoalEntry { priority: 7, goal: Goal::LookAround }));
}

} // verus!
