//! Animals that a player can tame and tell to sit.

use vstd::prelude::*;

use crate::effect::{Effect, Particle, Sound, SyncedValue};
use crate::item::{after_use, ItemStack, Player};
use crate::nbt::{bool_at, bool_value, id_at, NbtCompound, NbtValue};

verus! {

pub const SITTING_FLAG: u8 = 1;

pub const TAME_FLAG: u8 = 4;

/// The square of the distance from which on a tame animal appears beside its owner, twelve blocks,
/// by its bits.
pub const TELEPORT_WHEN_DISTANCE_IS_SQ: u64 = 0x4062_0000_0000_0000;

/// The byte that tells clients whether an animal sits and whether it is tame.
pub open spec fn tame_flags(sitting: bool, tame: bool) -> u8 {
    match (sitting, tame) {
        (false, false) => 0,
        (true, false) => 1,
        (false, true) => 4,
        (true, true) => 5,
    }
}

/// Packs sitting and tameness into one byte.
pub fn tame_flags_byte(sitting: bool, tamed: bool) -> (flags: u8)
    ensures
        flags == tame_flags(sitting, tamed),
        (flags & SITTING_FLAG != 0) == sitting,
        (flags & TAME_FLAG != 0) == tamed,
{
    let sitting_bit: u8 = if sitting { SITTING_FLAG } else { 0 };
    let tame_bit: u8 = if tamed { TAME_FLAG } else { 0 };
    assert(0u8 | 0u8 == 0u8 && 1u8 | 0u8 == 1u8 && 0u8 | 4u8 == 4u8 && 1u8 | 4u8 == 5u8)
        by (bit_vector);
    assert(0u8 & 1u8 == 0u8 && 1u8 & 1u8 == 1u8 && 4u8 & 1u8 == 0u8 && 5u8 & 1u8 == 1u8)
        by (bit_vector);
    assert(0u8 & 4u8 == 0u8 && 1u8 & 4u8 == 0u8 && 4u8 & 4u8 == 4u8 && 5u8 & 4u8 == 4u8)
        by (bit_vector);
    sitting_bit | tame_bit
}

/// How much a meal heals: the nutrition of the food times a factor, or a set amount for food
/// without nutrition.
pub open spec fn meal_healing(nutrition: Option<u32>, factor: u32, default_heal: u32) -> int {
    match nutrition {
        Some(n) => n * factor,
        None => default_heal as int,
    }
}

/// How much a meal heals.
pub fn feed_healing_amount(nutrition: Option<u32>, factor: u32, default_heal: u32) -> (heal: u32)
    requires
        meal_healing(nutrition, factor, default_heal) <= u32::MAX,
    ensures
        heal == meal_healing(nutrition, factor, default_heal),
{
    match nutrition {
        Some(n) => n * factor,
        None => default_heal,
    }
}

/// Uses up one item of food and heals with it.
pub fn feed(
    player: &Player,
    stack: &mut ItemStack,
    nutrition: Option<u32>,
    factor: u32,
    default_heal: u32,
    eating_sound: Option<Sound>,
    effects: &mut Vec<Effect>,
)
    requires
        meal_healing(nutrition, factor, default_heal) <= u32::MAX,
    ensures
        *final(stack) == after_use(*old(stack), player.gamemode, 1),
        final(effects)@ == old(effects)@ + feed_effects(
            nutrition,
            factor,
            default_heal,
            eating_sound,
        ),
{
    let healing: u32 = feed_healing_amount(nutrition, factor, default_heal);
    stack.decrement_unless_creative(player.gamemode, 1);
    effects.push(Effect::Heal(healing));
    if let Some(sound) = eating_sound {
        effects.push(Effect::Play(sound));
    }
}

/// What a meal asks of the host: the healing, and the sound of eating where there is one.
pub open spec fn feed_effects(
    nutrition: Option<u32>,
    factor: u32,
    default_heal: u32,
    eating_sound: Option<Sound>,
) -> Seq<Effect> {
    let heal = Effect::Heal(meal_healing(nutrition, factor, default_heal) as u32);
    match eating_sound {
        Some(sound) => seq![heal, Effect::Play(sound)],
        None => seq![heal],
    }
}

/// Whether an animal is tame, whose it is, and whether it was told to sit.
#[derive(Clone, Copy, PartialEq, Eq, Structural, Debug)]
pub struct TamableData {
    pub is_tame: bool,
    pub ordered_to_sit: bool,
    pub owner: Option<u128>,
}

impl Default for TamableData {
    fn default() -> (data: Self)
        ensures
            data == (TamableData { is_tame: false, ordered_to_sit: false, owner: None }),
    {
        TamableData { is_tame: false, ordered_to_sit: false, owner: None }
    }
}

/// The message that tells clients how an animal sits and whether it is tame.
pub open spec fn flags_sync(sitting: bool, tame: bool) -> Effect {
    Effect::Sync(SyncedValue::TamableFlags(tame_flags(sitting, tame)))
}

/// Where hearts or smoke show whether taming worked.
pub open spec fn taming_particles(success: bool) -> Effect {
    Effect::Particles {
        kind: if success { Particle::Heart } else { Particle::Smoke },
        height: 500,
        speed: 20,
        count: 7,
    }
}

impl TamableData {
    pub fn is_tame(&self) -> (tame: bool)
        ensures
            tame == self.is_tame,
    {
        self.is_tame
    }

    pub fn set_tame(&mut self, tame: bool, effects: &mut Vec<Effect>)
        ensures
            *final(self) == (TamableData { is_tame: tame, ..*old(self) }),
            final(effects)@ == old(effects)@.push(flags_sync(old(self).ordered_to_sit, tame)),
    {
        self.is_tame = tame;
        let flags: u8 = tame_flags_byte(self.ordered_to_sit, tame);
        effects.push(Effect::Sync(SyncedValue::TamableFlags(flags)));
    }

    pub fn is_in_sitting_pose(&self) -> (sitting: bool)
        ensures
            sitting == self.ordered_to_sit,
    {
        self.ordered_to_sit
    }

    pub fn set_in_sitting_pose(&mut self, sitting: bool, effects: &mut Vec<Effect>)
        ensures
            *final(self) == (TamableData { ordered_to_sit: sitting, ..*old(self) }),
            final(effects)@ == old(effects)@.push(flags_sync(sitting, old(self).is_tame)),
    {
        self.ordered_to_sit = sitting;
        let flags: u8 = tame_flags_byte(sitting, self.is_tame);
        effects.push(Effect::Sync(SyncedValue::TamableFlags(flags)));
    }

    pub fn is_ordered_to_sit(&self) -> (ordered: bool)
        ensures
            ordered == self.ordered_to_sit,
    {
        self.ordered_to_sit
    }

    pub fn set_ordered_to_sit(&mut self, ordered_to_sit: bool, effects: &mut Vec<Effect>)
        ensures
            *final(self) == (TamableData { ordered_to_sit, ..*old(self) }),
            final(effects)@ == old(effects)@.push(flags_sync(ordered_to_sit, old(self).is_tame)),
    {
        self.set_in_sitting_pose(ordered_to_sit, effects);
    }

    pub fn get_owner(&self) -> (owner: Option<u128>)
        ensures
            owner == self.owner,
    {
        self.owner
    }

    pub fn set_owner(&mut self, owner: Option<u128>, effects: &mut Vec<Effect>)
        ensures
            *final(self) == (TamableData { owner, ..*old(self) }),
            final(effects)@ == old(effects)@.push(Effect::Sync(SyncedValue::TamableOwner(owner))),
    {
        self.owner = owner;
        effects.push(Effect::Sync(SyncedValue::TamableOwner(owner)));
    }

    pub fn is_owned_by(&self, player: u128) -> (owned: bool)
        ensures
            owned == (self.owner == Some(player)),
    {
        match self.owner {
            Some(owner) => owner == player,
            None => false,
        }
    }

    /// Makes the animal tame and gives it to a player.
    pub fn tame(&mut self, player: u128, effects: &mut Vec<Effect>)
        ensures
            *final(self) == (TamableData { is_tame: true, owner: Some(player), ..*old(self) }),
            final(effects)@ == old(effects)@ + seq![
                flags_sync(old(self).ordered_to_sit, true),
                Effect::Sync(SyncedValue::TamableOwner(Some(player))),
            ],
    {
        self.set_tame(true, effects);
        self.set_owner(Some(player), effects);
    }

    /// Saves the owner and the order to sit.
    pub fn write_tamable_nbt(&self, nbt: &mut NbtCompound)
        ensures
            final(nbt)@ == tamable_saved(old(nbt)@, *self),
    {
        if let Some(owner) = self.owner {
            nbt.put_id("Owner", owner);
        }
        nbt.put_bool("Sitting", self.ordered_to_sit);
    }

    /// Restores the owner and the order to sit. An animal with an owner is tame.
    pub fn read_tamable_nbt(&mut self, nbt: &NbtCompound, effects: &mut Vec<Effect>)
        ensures
            *final(self) == tamable_restored(*old(self), nbt@),
            final(effects)@ == old(effects)@ + tamable_restore_effects(*old(self), nbt@),
    {
        if let Some(owner) = nbt.get_id("Owner") {
            self.set_owner(Some(owner), effects);
            self.set_tame(true, effects);
        } else if let Some(is_tame) = nbt.get_bool("IsTame") {
            self.set_tame(is_tame, effects);
        }
        let sitting: bool = nbt.get_bool("Sitting").unwrap_or(false);
        self.set_ordered_to_sit(sitting, effects);
    }
}

/// Shows whether an attempt to tame an animal worked.
pub fn spawn_taming_particles(success: bool, effects: &mut Vec<Effect>)
    ensures
        final(effects)@ == old(effects)@.push(taming_particles(success)),
{
    let kind = if success { Particle::Heart } else { Particle::Smoke };
    effects.push(Effect::Particles { kind, height: 500, speed: 20, count: 7 });
}

/// What is saved of a tamable animal.
pub open spec fn tamable_saved(
    nbt: Map<Seq<char>, NbtValue>,
    data: TamableData,
) -> Map<Seq<char>, NbtValue> {
    let with_owner = match data.owner {
        Some(owner) => nbt.insert("Owner"@, NbtValue::Id(owner)),
        None => nbt,
    };
    with_owner.insert("Sitting"@, bool_value(data.ordered_to_sit))
}

/// A tamable animal with its saved state restored.
pub open spec fn tamable_restored(data: TamableData, nbt: Map<Seq<char>, NbtValue>) -> TamableData {
    TamableData {
        is_tame: match (id_at(nbt, "Owner"@), bool_at(nbt, "IsTame"@)) {
            (Some(_), _) => true,
            (None, Some(tame)) => tame,
            (None, None) => data.is_tame,
        },
        ordered_to_sit: match bool_at(nbt, "Sitting"@) {
            Some(sitting) => sitting,
            None => false,
        },
        owner: match id_at(nbt, "Owner"@) {
            Some(owner) => Some(owner),
            None => data.owner,
        },
    }
}

/// What restoring a tamable animal tells the clients.
pub open spec fn tamable_restore_effects(
    data: TamableData,
    nbt: Map<Seq<char>, NbtValue>,
) -> Seq<Effect> {
    let after = tamable_restored(data, nbt);
    let first = match (id_at(nbt, "Owner"@), bool_at(nbt, "IsTame"@)) {
        (Some(owner), _) => seq![
            Effect::Sync(SyncedValue::TamableOwner(Some(owner))),
            flags_sync(data.ordered_to_sit, true),
        ],
        (None, Some(tame)) => seq![flags_sync(data.ordered_to_sit, tame)],
        (None, None) => seq![],
    };
    first.push(flags_sync(after.ordered_to_sit, after.is_tame))
}

/// Restoring what was saved of an owned tame animal, or of a wild one, to a new animal gives
/// the same animal back.
pub proof fn law_tamable_round_trip(data: TamableData)
    requires
        data.is_tame == data.owner is Some,
    ensures
        tamable_restored(
            (TamableData { is_tame: false, ordered_to_sit: false, owner: None }),
            tamable_saved(Map::empty(), data),
        ) == data,
{
    reveal_strlit("Owner");
    reveal_strlit("IsTame");
    reveal_strlit("Sitting");
    assert("Owner"@.len() == 5 && "IsTame"@.len() == 6 && "Sitting"@.len() == 7);
}

/// Sitting is the lowest bit of the flags and being tame the third; no other bit is ever set.
pub proof fn law_tame_flags_add_up(sitting: bool, tame: bool)
    ensures
        tame_flags(sitting, tame) == (if sitting { 1int } else { 0 }) + (if tame { 4int } else { 0 }),
{
}

/// A meal with a known nutrition heals by so many times that much; any other by a fixed amount.
pub proof fn law_meal_healing(nutrition: Option<u32>, factor: u32, default_heal: u32)
    ensures
        nutrition is Some ==> meal_healing(nutrition, factor, default_heal) == factor * nutrition->0,
        nutrition is None ==> meal_healing(nutrition, factor, default_heal) == default_heal,
{
    if nutrition is Some {
        let n = nutrition->0;
        assert(n * factor == factor * n) by (nonlinear_arith);
    }
}

/// A meal heals first and is then heard, if it makes a sound.
pub proof fn law_meal_is_heard(
    nutrition: Option<u32>,
    factor: u32,
    default_heal: u32,
    eating_sound: Option<Sound>,
)
    requires
        meal_healing(nutrition, factor, default_heal) <= u32::MAX,
    ensures
        ({
            let told = feed_effects(nutrition, factor, default_heal, eating_sound);
            &&& told[0] is Heal
            &&& told[0]->Heal_0 == meal_healing(nutrition, factor, default_heal)
            &&& told.len() == 1 <==> eating_sound is None
            &&& eating_sound is Some ==> told.len() == 2 && told[1] == Effect::Play(eating_sound->0)
        }),
{
    if nutrition is Some {
        let n = nutrition->0;
        assert(n * factor >= 0) by (nonlinear_arith);
    }
}

/// Hearts show that taming worked, and smoke that it did not.
pub proof fn law_taming_is_seen(success: bool)
    ensures
        taming_particles(success) is Particles,
        taming_particles(success)->kind == Particle::Heart <==> success,
        taming_particles(success)->kind == Particle::Smoke <==> !success,
        taming_particles(success)->Particles_count == 7,
{
}

/// A pet with a saved owner is tame and theirs; one that was not saved as sitting stands.
pub proof fn law_pets_read_back(data: TamableData, nbt: Map<Seq<char>, NbtValue>)
    ensures
        id_at(nbt, "Owner"@) is Some ==> tamable_restored(data, nbt).owner == id_at(nbt, "Owner"@)
            && tamable_restored(data, nbt).is_tame,
        id_at(nbt, "Owner"@) is None ==> tamable_restored(data, nbt).owner == data.owner,
        id_at(nbt, "Owner"@) is None && bool_at(nbt, "IsTame"@) is Some ==> tamable_restored(
            data,
            nbt,
        ).is_tame == bool_at(nbt, "IsTame"@)->0,
        id_at(nbt, "Owner"@) is None && bool_at(nbt, "IsTame"@) is None ==> tamable_restored(
            data,
            nbt,
        ).is_tame == data.is_tame,
        tamable_restored(data, nbt).ordered_to_sit <==> bool_at(nbt, "Sitting"@) == Some(true),
        tamable_restore_effects(data, nbt).last() == flags_sync(
            tamable_restored(data, nbt).ordered_to_sit,
            tamable_restored(data, nbt).is_tame,
        ),
        id_at(nbt, "Owner"@) is Some ==> tamable_restore_effects(data, nbt)[0] == Effect::Sync(
            SyncedValue::TamableOwner(id_at(nbt, "Owner"@)),
        ),
{
}

/// A pet is saved by its owner, if it has one, and by whether it sits; a wild one leaves what was
/// there of an owner.
pub proof fn law_pets_are_saved_by_name(nbt: Map<Seq<char>, NbtValue>, data: TamableData)
    ensures
        data.owner is Some ==> id_at(tamable_saved(nbt, data), "Owner"@) == data.owner,
        data.owner is None ==> id_at(tamable_saved(nbt, data), "Owner"@) == id_at(nbt, "Owner"@),
        bool_at(tamable_saved(nbt, data), "Sitting"@) == Some(data.ordered_to_sit),
{
    reveal_strlit("Owner");
    reveal_strlit("Sitting");
    assert("Owner"@.len() == 5 && "Sitting"@.len() == 7);
}

/// What is told of a pet that is read back: of an owner, if one was saved, and that it is tame;
/// else whether it is tame, if that was saved; and at last all its flags.
pub proof fn law_what_read_pets_tell(data: TamableData, nbt: Map<Seq<char>, NbtValue>)
    ensures
        ({
            let told = tamable_restore_effects(data, nbt);
            &&& id_at(nbt, "Owner"@) is Some ==> told.len() == 3 && told[1] == flags_sync(
                data.ordered_to_sit,
                true,
            )
            &&& id_at(nbt, "Owner"@) is None && bool_at(nbt, "IsTame"@) is Some ==> told.len() == 2
                && told[0] == flags_sync(data.ordered_to_sit, bool_at(nbt, "IsTame"@)->0)
            &&& id_at(nbt, "Owner"@) is None && bool_at(nbt, "IsTame"@) is None ==> told.len() == 1
        }),
{
}

} // verus!
