//! Behaviour of passive mobs: their state, the rules that change it, and the
//! effects that a host has to carry out for them.

pub mod allay;
pub mod animal;
pub mod axolotl;
pub mod bee;
pub mod bee_goals;
pub mod bee_search;
pub mod block;
pub mod camel;
pub mod cat;
pub mod chicken;
pub mod climate;
pub mod cod;
pub mod copper_golem;
pub mod cow;
pub mod dolphin;
pub mod donkey;
pub mod double;
pub mod effect;
pub mod equine;
pub mod fish;
pub mod flags;
pub mod fox;
pub mod frog;
pub mod glow_squid;
pub mod goal;
pub mod goat;
pub mod happy_ghast;
pub mod horse;
pub mod iron_golem;
pub mod item;
pub mod llama;
pub mod mob;
pub mod mule;
pub mod nautilus;
pub mod nbt;
pub mod panda;
pub mod parrot;
pub mod pig;
pub mod polar_bear;
pub mod position;
pub mod pufferfish;
pub mod rabbit;
pub mod random;
pub mod saddle;
pub mod salmon;
pub mod skeleton_horse;
pub mod sniffer;
pub mod snow_golem;
pub mod squid;
pub mod strider;
pub mod tadpole;
pub mod tamable;
pub mod text;
pub mod ticks;
