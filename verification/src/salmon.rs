//! Salmon of three sizes.

use vstd::prelude::*;

use crate::effect::{Effect, SyncedValue};
use crate::fish::{goals_in_school, schooling_fish_goals};
use crate::goal::GoalEntry;
use crate::mob::MobEntity;
use crate::nbt::{text_at, NbtCompound, NbtValue};
use crate::random::roll;
use crate::text::same_text;

verus! {

/// How often each size comes up: so many times of the sum of the three.
pub const SMALL_WEIGHT: i32 = 30;

pub const MEDIUM_WEIGHT: i32 = 50;

pub const LARGE_WEIGHT: i32 = 15;

/// The size of a salmon.
#[derive(Clone, Copy, PartialEq, Eq, Structural, Debug)]
pub enum SalmonVariant {
    Small,
    Medium,
    Large,
}

/// The number of a size.
pub open spec fn salmon_id(variant: SalmonVariant) -> u8 {
    match variant {
        SalmonVariant::Small => 0,
        SalmonVariant::Medium => 1,
        SalmonVariant::Large => 2,
    }
}

/// The size for a number. What is none is medium.
pub open spec fn salmon_of_id(id: u8) -> SalmonVariant {
    match id {
        0 => SalmonVariant::Small,
        2 => SalmonVariant::Large,
        _ => SalmonVariant::Medium,
    }
}

/// The name of a size.
pub open spec fn salmon_name(variant: SalmonVariant) -> Seq<char> {
    match variant {
        SalmonVariant::Small => "small"@,
        SalmonVariant::Medium => "medium"@,
        SalmonVariant::Large => "large"@,
    }
}

/// The size of a name. What is none is medium.
pub open spec fn salmon_of_name(name: Seq<char>) -> SalmonVariant {
    if name == "small"@ {
        SalmonVariant::Small
    } else if name == "large"@ {
        SalmonVariant::Large
    } else {
        SalmonVariant::Medium
    }
}

/// How large a salmon is, in thousandths of the usual size.
pub open spec fn salmon_scale(variant: SalmonVariant) -> u32 {
    match variant {
        SalmonVariant::Small => 500,
        SalmonVariant::Medium => 1000,
        SalmonVariant::Large => 1500,
    }
}

/// The size of a salmon for a draw among all weights.
pub open spec fn salmon_for_draw(draw: int) -> SalmonVariant {
    if draw < SMALL_WEIGHT {
        SalmonVariant::Small
    } else if draw < SMALL_WEIGHT + MEDIUM_WEIGHT {
        SalmonVariant::Medium
    } else {
        SalmonVariant::Large
    }
}

impl SalmonVariant {
    /// How large the salmon is, in thousandths of the usual size.
    pub fn bounding_box_scale(self) -> (scale: u32)
        ensures
            scale == salmon_scale(self),
    {
        match self {
            SalmonVariant::Small => 500,
            SalmonVariant::Medium => 1000,
            SalmonVariant::Large => 1500,
        }
    }

    pub fn name(self) -> (name: &'static str)
        ensures
            name@ == salmon_name(self),
    {
        match self {
            SalmonVariant::Small => "small",
            SalmonVariant::Medium => "medium",
            SalmonVariant::Large => "large",
        }
    }

    pub fn id(self) -> (id: u8)
        ensures
            id == salmon_id(self),
    {
        match self {
            SalmonVariant::Small => 0,
            SalmonVariant::Medium => 1,
            SalmonVariant::Large => 2,
        }
    }

    pub fn from_id(id: u8) -> (variant: Self)
        ensures
            variant == salmon_of_id(id),
    {
        match id {
            0 => SalmonVariant::Small,
            2 => SalmonVariant::Large,
            _ => SalmonVariant::Medium,
        }
    }

    pub fn from_name(name: &str) -> (variant: Self)
        ensures
            variant == salmon_of_name(name@),
    {
        if same_text(name, "small") {
            SalmonVariant::Small
        } else if same_text(name, "large") {
            SalmonVariant::Large
        } else {
            SalmonVariant::Medium
        }
    }

    /// The size for a draw among all weights.
    pub fn from_draw(draw: i32) -> (variant: Self)
        ensures
            variant == salmon_for_draw(draw as int),
    {
        if draw < SMALL_WEIGHT {
            SalmonVariant::Small
        } else if draw < SMALL_WEIGHT + MEDIUM_WEIGHT {
            SalmonVariant::Medium
        } else {
            SalmonVariant::Large
        }
    }
}

/// The number and the name of a size lead back to it.
pub proof fn law_salmon_variant_round_trip(variant: SalmonVariant)
    ensures
        salmon_of_id(salmon_id(variant)) == variant,
        salmon_of_name(salmon_name(variant)) == variant,
{
    reveal_strlit("small");
    reveal_strlit("medium");
    reveal_strlit("large");
    assert("small"@[0] == 's' && "medium"@[0] == 'm' && "large"@[0] == 'l');
}

/// A salmon.
pub struct SalmonEntity {
    pub mob_entity: MobEntity,
    pub variant: u8,
}

/// The message that tells clients the size of a salmon.
pub open spec fn salmon_sync(id: u8) -> Effect {
    Effect::Sync(SyncedValue::SalmonVariant(id as i32))
}

impl SalmonEntity {
    /// A salmon of a size.
    pub fn with_variant(age: i32, variant: SalmonVariant) -> (salmon: Self)
        ensures
            salmon.mob_entity.fresh(age),
            salmon.mob_entity.goals@ == schooling_fish_goals(),
            salmon.mob_entity.targets@ == Seq::<GoalEntry>::empty(),
            salmon.variant == salmon_id(variant),
    {
        SalmonEntity {
            mob_entity: MobEntity::with_goals(age, goals_in_school(), Vec::new()),
            variant: variant.id(),
        }
    }

    /// A new salmon, whose size is drawn; its body takes that size.
    pub fn new(age: i32, effects: &mut Vec<Effect>) -> (salmon: Self)
        ensures
            salmon.mob_entity.fresh(age),
            salmon.mob_entity.goals@ == schooling_fish_goals(),
            salmon.mob_entity.targets@ == Seq::<GoalEntry>::empty(),
            exists|draw: int|
                {
                    let variant = #[trigger] salmon_for_draw(draw);
                    &&& 0 <= draw < SMALL_WEIGHT + MEDIUM_WEIGHT + LARGE_WEIGHT
                    &&& salmon.variant == salmon_id(variant)
                    &&& final(effects)@ == old(effects)@.push(
                        Effect::ScaleBody(salmon_scale(variant)),
                    )
                },
    {
        let draw: i32 = roll(0, SMALL_WEIGHT + MEDIUM_WEIGHT + LARGE_WEIGHT);
        let variant = SalmonVariant::from_draw(draw);
        let salmon = Self::with_variant(age, variant);
        salmon.refresh_dimensions(variant, effects);
        salmon
    }

    pub fn variant(&self) -> (variant: SalmonVariant)
        ensures
            variant == salmon_of_id(self.variant),
    {
        SalmonVariant::from_id(self.variant)
    }

    fn refresh_dimensions(&self, variant: SalmonVariant, effects: &mut Vec<Effect>)
        ensures
            final(effects)@ == old(effects)@.push(Effect::ScaleBody(salmon_scale(variant))),
    {
        effects.push(Effect::ScaleBody(variant.bounding_box_scale()));
    }

    /// Gives the salmon a size.
    pub fn set_variant(&mut self, variant: SalmonVariant, effects: &mut Vec<Effect>)
        ensures
            *final(self) == (SalmonEntity { variant: salmon_id(variant), ..*old(self) }),
            final(effects)@ == old(effects)@ + seq![
                salmon_sync(salmon_id(variant)),
                Effect::ScaleBody(salmon_scale(variant)),
            ],
    {
        self.variant = variant.id();
        effects.push(Effect::Sync(SyncedValue::SalmonVariant(variant.id() as i32)));
        self.refresh_dimensions(variant, effects);
    }

    /// Tells clients about the salmon when they first see it.
    pub fn mob_init_data_tracker(&self, effects: &mut Vec<Effect>)
        ensures
            final(effects)@ == old(effects)@.push(salmon_sync(self.variant)),
    {
        effects.push(Effect::Sync(SyncedValue::SalmonVariant(self.variant as i32)));
    }

    /// Saves the salmon.
    pub fn write_nbt(&self, nbt: &mut NbtCompound)
        ensures
            final(nbt)@ == salmon_saved(old(nbt)@, *self),
    {
        nbt.put_string("type", self.variant().name());
    }

    /// Restores the salmon. Without a saved size it is medium.
    pub fn read_nbt(&mut self, nbt: &NbtCompound, effects: &mut Vec<Effect>)
        ensures
            *final(self) == (SalmonEntity {
                variant: salmon_id(restored_size(nbt@)),
                ..*old(self)
            }),
            final(effects)@ == old(effects)@ + seq![
                salmon_sync(salmon_id(restored_size(nbt@))),
                Effect::ScaleBody(salmon_scale(restored_size(nbt@))),
            ],
    {
        let variant = match nbt.get_string("type") {
            Some(name) => SalmonVariant::from_name(name),
            None => SalmonVariant::Medium,
        };
        self.set_variant(variant, effects);
    }
}

/// What is saved of a salmon.
pub open spec fn salmon_saved(nbt: Map<Seq<char>, NbtValue>, salmon: SalmonEntity) -> Map<
    Seq<char>,
    NbtValue,
> {
    nbt.insert("type"@, NbtValue::Text(salmon_name(salmon_of_id(salmon.variant))))
}

/// The size that was saved, or else the middle one.
pub open spec fn restored_size(nbt: Map<Seq<char>, NbtValue>) -> SalmonVariant {
    match text_at(nbt, "type"@) {
        Some(name) => salmon_of_name(name),
        None => SalmonVariant::Medium,
    }
}

/// Restoring a saved salmon gives back its size.
pub proof fn law_salmon_round_trip(nbt: Map<Seq<char>, NbtValue>, salmon: SalmonEntity)
    ensures
        restored_size(salmon_saved(nbt, salmon)) == salmon_of_id(salmon.variant),
{
    law_salmon_variant_round_trip(salmon_of_id(salmon.variant));
}

/// Of ninety-five draws thirty give a small salmon, fifty a medium and fifteen a large one.
pub proof fn law_salmon_sizes_by_draw(draw: int)
    ensures
        salmon_for_draw(draw) == SalmonVariant::Small <==> draw < 30,
        salmon_for_draw(draw) == SalmonVariant::Medium <==> 30 <= draw < 80,
        salmon_for_draw(draw) == SalmonVariant::Large <==> draw >= 80,
{
}

/// A large salmon is three times as big as a small one, and a medium one in the middle of the two.
pub proof fn law_salmon_scales()
    ensures
        salmon_scale(SalmonVariant::Large) == 3 * salmon_scale(SalmonVariant::Small),
        2 * salmon_scale(SalmonVariant::Medium) == salmon_scale(SalmonVariant::Small) + salmon_scale(
            SalmonVariant::Large,
        ),
        salmon_scale(SalmonVariant::Medium) == 1000,
{
}

/// What is no size of salmon counts as medium.
pub proof fn law_odd_salmon_is_medium(id: u8, name: Seq<char>)
    ensures
        id != 0 && id != 2 <==> salmon_of_id(id) == SalmonVariant::Medium,
        id == 0 <==> salmon_of_id(id) == SalmonVariant::Small,
        id == 2 <==> salmon_of_id(id) == SalmonVariant::Large,
        name == "small"@ ==> salmon_of_name(name) == SalmonVariant::Small,
        name == "large"@ ==> salmon_of_name(name) == SalmonVariant::Large,
        name != "small"@ && name != "large"@ ==> salmon_of_name(name) == SalmonVariant::Medium,
        text_at(Map::empty(), "type"@) is None,
        restored_size(Map::empty()) == SalmonVariant::Medium,
{
    reveal_strlit("small");
    reveal_strlit("large");
    assert("small"@[0] == 's' && "large"@[0] == 'l');
}

} // verus!
