//! Coats of farm animals, which depend on the climate.

use vstd::prelude::*;

verus! {

pub const COLD: u8 = 0;

pub const TEMPERATE: u8 = 1;

pub const WARM: u8 = 2;

/// The number of a coat that is not known yet.
pub const VARIANT_UNSET: u8 = 0xFF;

/// The coat of an animal that comes to life in a climate. Where the climate is not known it is
/// temperate.
pub open spec fn climate_coat(warm: bool, cold: bool) -> u8 {
    if warm {
        WARM
    } else if cold {
        COLD
    } else {
        TEMPERATE
    }
}

/// The coat of an animal that comes to life in a climate.
pub fn select_spawn_variant(warm: bool, cold: bool) -> (variant: u8)
    ensures
        variant == climate_coat(warm, cold),
{
    if warm {
        WARM
    } else if cold {
        COLD
    } else {
        TEMPERATE
    }
}

/// A coat that is known, or else that of the climate.
pub open spec fn settled_coat(variant: u8, warm: bool, cold: bool) -> u8 {
    if variant == VARIANT_UNSET {
        climate_coat(warm, cold)
    } else {
        variant
    }
}

/// The full name of a coat. Whatever is neither cold nor warm is temperate.
pub open spec fn climate_name(variant: u8) -> Seq<char> {
    if variant == COLD {
        "minecraft:cold"@
    } else if variant == WARM {
        "minecraft:warm"@
    } else {
        "minecraft:temperate"@
    }
}

/// The full name of a coat.
pub fn full_name(variant: u8) -> (name: &'static str)
    ensures
        name@ == climate_name(variant),
{
    match variant {
        COLD => "minecraft:cold",
        WARM => "minecraft:warm",
        _ => "minecraft:temperate",
    }
}

/// The names of coats without the default namespace are what they are with it.
pub proof fn lemma_climate_names()
    ensures
        crate::text::local_name("minecraft:cold"@) == "cold"@,
        crate::text::local_name("minecraft:warm"@) == "warm"@,
        crate::text::local_name("minecraft:temperate"@) == "temperate"@,
        "cold"@ != "warm"@ && "cold"@ != "temperate"@ && "warm"@ != "temperate"@,
{
    reveal_strlit("minecraft:");
    reveal_strlit("minecraft:cold");
    reveal_strlit("minecraft:warm");
    reveal_strlit("minecraft:temperate");
    reveal_strlit("cold");
    reveal_strlit("warm");
    reveal_strlit("temperate");
    assert("minecraft:cold"@ =~= "minecraft:"@ + "cold"@);
    assert("minecraft:warm"@ =~= "minecraft:"@ + "warm"@);
    assert("minecraft:temperate"@ =~= "minecraft:"@ + "temperate"@);
    crate::text::lemma_local_name_of_qualified("cold"@);
    crate::text::lemma_local_name_of_qualified("warm"@);
    crate::text::lemma_local_name_of_qualified("temperate"@);
    assert("cold"@[0] == 'c' && "warm"@[0] == 'w' && "temperate"@[0] == 't');
}

/// A coat that is not chosen yet is the warm one in a warm place, the cold one in a cold place
/// that is not warm, and the temperate one anywhere else; a chosen coat stays.
pub proof fn law_climate_chooses_the_coat(variant: u8, warm: bool, cold: bool)
    ensures
        warm ==> climate_coat(warm, cold) == 2,
        !warm && cold ==> climate_coat(warm, cold) == 0,
        !warm && !cold ==> climate_coat(warm, cold) == 1,
        variant == 255 ==> settled_coat(variant, warm, cold) == climate_coat(warm, cold),
        variant != 255 ==> settled_coat(variant, warm, cold) == variant,
{
}

} // verus!
