//! The blocks that rules of mobs name.

use vstd::prelude::*;

verus! {

#[derive(Clone, Copy, PartialEq, Eq, Structural, Debug)]
pub enum Block {
    Beetroots,
    Carrots,
    CaveVines,
    CaveVinesPlant,
    Dandelion,
    MelonStem,
    PitcherCrop,
    Potatoes,
    PumpkinStem,
    Stone,
    Sunflower,
    SweetBerryBush,
    TorchflowerCrop,
    Wheat,
    Other(u16),
}

} // verus!
