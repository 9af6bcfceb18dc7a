//! Pandas: genes, moods, and bamboo.

use vstd::prelude::*;

use crate::animal::{
    animal_interact, animal_restored, animal_saved, falls_in_love, fed, feeding_effects, grows,
    meal_outcome, read_animal_nbt, stack_after_meal, write_animal_nbt, Feeding,
};
use crate::effect::{group_effects, Effect, Interaction, Sound, SyncedValue};
use crate::flags::{get_flag, has_flag, law_flag_reads_back, set_flag, with_flag};
use crate::goal::{entry, goal, Goal, GoalEntry};
use crate::item::{after_use, diet_items, empty_stack, Diet, GameMode, Item, ItemStack, Player};
use crate::mob::{Dimensions, MobEntity};
use crate::nbt::{text_at, NbtCompound, NbtValue};
use crate::random::{chance, roll};
use crate::text::{local_name, same_text, strip_namespace};
use crate::ticks::{count_up, counted_up, is_multiple};

verus! {

pub const FLAG_SNEEZE: u8 = 2;

pub const FLAG_ROLL: u8 = 4;

pub const FLAG_SIT: u8 = 8;

pub const FLAG_ON_BACK: u8 = 16;

pub const TOTAL_ROLL_STEPS: i32 = 32;

pub const TOTAL_UNHAPPY_TIME: i32 = 32;

/// The number of a gene that is not known yet.
pub const GENE_UNSET: u8 = 0xFF;

/// A gene.
#[derive(Clone, Copy, PartialEq, Eq, Structural, Debug)]
pub enum PandaGene {
    Normal,
    Lazy,
    Worried,
    Playful,
    Brown,
    Weak,
    Aggressive,
}

/// The number of a gene.
pub open spec fn gene_id(gene: PandaGene) -> u8 {
    match gene {
        PandaGene::Normal => 0,
        PandaGene::Lazy => 1,
        PandaGene::Worried => 2,
        PandaGene::Playful => 3,
        PandaGene::Brown => 4,
        PandaGene::Weak => 5,
        PandaGene::Aggressive => 6,
    }
}

/// The gene of a number. What is no gene is normal.
pub open spec fn gene_of_id(id: u8) -> PandaGene {
    match id {
        1 => PandaGene::Lazy,
        2 => PandaGene::Worried,
        3 => PandaGene::Playful,
        4 => PandaGene::Brown,
        5 => PandaGene::Weak,
        6 => PandaGene::Aggressive,
        _ => PandaGene::Normal,
    }
}

/// The name of a gene.
pub open spec fn gene_name(gene: PandaGene) -> Seq<char> {
    match gene {
        PandaGene::Normal => "normal"@,
        PandaGene::Lazy => "lazy"@,
        PandaGene::Worried => "worried"@,
        PandaGene::Playful => "playful"@,
        PandaGene::Brown => "brown"@,
        PandaGene::Weak => "weak"@,
        PandaGene::Aggressive => "aggressive"@,
    }
}

/// The gene of a name, with or without the default namespace. What is no gene is normal.
pub open spec fn gene_of_name(name: Seq<char>) -> PandaGene {
    let local = local_name(name);
    if local == "lazy"@ {
        PandaGene::Lazy
    } else if local == "worried"@ {
        PandaGene::Worried
    } else if local == "playful"@ {
        PandaGene::Playful
    } else if local == "brown"@ {
        PandaGene::Brown
    } else if local == "weak"@ {
        PandaGene::Weak
    } else if local == "aggressive"@ {
        PandaGene::Aggressive
    } else {
        PandaGene::Normal
    }
}

/// Whether a gene shows only if a panda has it twice.
pub open spec fn recessive(gene: PandaGene) -> bool {
    gene == PandaGene::Brown || gene == PandaGene::Weak
}

/// What a panda with two genes is like.
pub open spec fn expressed(main: PandaGene, hidden: PandaGene) -> PandaGene {
    if recessive(main) && main != hidden {
        PandaGene::Normal
    } else {
        main
    }
}

/// The gene for a draw.
pub open spec fn gene_for_draw(draw: int) -> PandaGene {
    if draw == 0 {
        PandaGene::Lazy
    } else if draw == 1 {
        PandaGene::Worried
    } else if draw == 2 {
        PandaGene::Playful
    } else if draw == 4 {
        PandaGene::Aggressive
    } else if draw < 9 {
        PandaGene::Weak
    } else if draw < 11 {
        PandaGene::Brown
    } else {
        PandaGene::Normal
    }
}

impl PandaGene {
    pub fn from_id(id: u8) -> (gene: Self)
        ensures
            gene == gene_of_id(id),
    {
        match id {
            1 => PandaGene::Lazy,
            2 => PandaGene::Worried,
            3 => PandaGene::Playful,
            4 => PandaGene::Brown,
            5 => PandaGene::Weak,
            6 => PandaGene::Aggressive,
            _ => PandaGene::Normal,
        }
    }

    pub fn id(self) -> (id: u8)
        ensures
            id == gene_id(self),
    {
        match self {
            PandaGene::Normal => 0,
            PandaGene::Lazy => 1,
            PandaGene::Worried => 2,
            PandaGene::Playful => 3,
            PandaGene::Brown => 4,
            PandaGene::Weak => 5,
            PandaGene::Aggressive => 6,
        }
    }

    pub fn name(self) -> (name: &'static str)
        ensures
            name@ == gene_name(self),
    {
        match self {
            PandaGene::Normal => "normal",
            PandaGene::Lazy => "lazy",
            PandaGene::Worried => "worried",
            PandaGene::Playful => "playful",
            PandaGene::Brown => "brown",
            PandaGene::Weak => "weak",
            PandaGene::Aggressive => "aggressive",
        }
    }

    pub fn from_name(name: &str) -> (gene: Self)
        ensures
            gene == gene_of_name(name@),
    {
        let local = strip_namespace(name);
        if same_text(local, "lazy") {
            PandaGene::Lazy
        } else if same_text(local, "worried") {
            PandaGene::Worried
        } else if same_text(local, "playful") {
            PandaGene::Playful
        } else if same_text(local, "brown") {
            PandaGene::Brown
        } else if same_text(local, "weak") {
            PandaGene::Weak
        } else if same_text(local, "aggressive") {
            PandaGene::Aggressive
        } else {
            PandaGene::Normal
        }
    }

    pub fn is_recessive(self) -> (is: bool)
        ensures
            is == recessive(self),
    {
        match self {
            PandaGene::Brown | PandaGene::Weak => true,
            _ => false,
        }
    }

    pub fn variant_from_genes(main: Self, hidden: Self) -> (variant: Self)
        ensures
            variant == expressed(main, hidden),
    {
        if main.is_recessive() {
            if main == hidden {
                main
            } else {
                PandaGene::Normal
            }
        } else {
            main
        }
    }

    pub fn from_roll(roll: i32) -> (gene: Self)
        ensures
            gene == gene_for_draw(roll as int),
    {
        if roll == 0 {
            PandaGene::Lazy
        } else if roll == 1 {
            PandaGene::Worried
        } else if roll == 2 {
            PandaGene::Playful
        } else if roll == 4 {
            PandaGene::Aggressive
        } else if roll < 9 {
            PandaGene::Weak
        } else if roll < 11 {
            PandaGene::Brown
        } else {
            PandaGene::Normal
        }
    }
}

/// The number and the name of a gene lead back to it.
pub proof fn law_gene_round_trip(gene: PandaGene)
    ensures
        gene_of_id(gene_id(gene)) == gene,
        gene_of_name(gene_name(gene)) == gene,
{
    reveal_strlit("minecraft:");
    reveal_strlit("normal");
    reveal_strlit("lazy");
    reveal_strlit("worried");
    reveal_strlit("playful");
    reveal_strlit("brown");
    reveal_strlit("weak");
    reveal_strlit("aggressive");
    let name = gene_name(gene);
    assert("minecraft:"@.len() == 10 && "minecraft:"@[0] == 'm' && "aggressive"@[0] == 'a');
    assert("normal"@.len() == 6 && "lazy"@.len() == 4 && "worried"@.len() == 7 && "playful"@.len()
        == 7 && "brown"@.len() == 5 && "weak"@.len() == 4 && "aggressive"@.len() == 10);
    assert("lazy"@[0] == 'l' && "weak"@[0] == 'w' && "worried"@[0] == 'w' && "playful"@[0] == 'p');
    assert(!"minecraft:"@.is_prefix_of(name)) by {
        if "minecraft:"@.is_prefix_of(name) {
            assert(name[0] == name.subrange(0, 10)[0]);
        }
    }
}

/// A recessive gene shows just where the hidden gene matches it; every other gene always shows.
pub proof fn law_recessive_genes_need_a_match(main: PandaGene, hidden: PandaGene)
    ensures
        recessive(main) ==> (expressed(main, hidden) == main <==> hidden == main),
        !recessive(main) ==> expressed(main, hidden) == main,
        expressed(main, hidden) == main || expressed(main, hidden) == PandaGene::Normal,
{
}

/// Five of sixteen draws give a weak panda, and two a brown one.
pub proof fn law_weak_and_brown_draws(draw: int)
    requires
        0 <= draw < 16,
    ensures
        gene_for_draw(draw) == PandaGene::Weak <==> draw == 3 || 5 <= draw <= 8,
        gene_for_draw(draw) == PandaGene::Brown <==> draw == 9 || draw == 10,
{
}

/// A panda.
pub struct PandaEntity {
    pub mob_entity: MobEntity,
    pub flags: u8,
    pub main_gene: u8,
    pub hidden_gene: u8,
    pub unhappy_counter: i32,
    pub sneeze_counter: i32,
    pub eat_counter: i32,
    pub roll_counter: i32,
    pub held: ItemStack,
    /// Whether the hand is spoken for.
    pub hand_occupied: bool,
    pub got_bamboo: bool,
    pub did_bite: bool,
    pub forced_look_target: Option<u128>,
}

/// What a panda pursues.
pub open spec fn panda_goals() -> Seq<GoalEntry> {
    seq![
        entry(0, Goal::Swim),
        entry(2, Goal::PandaPanic { speed: 2000 }),
        entry(2, Goal::PandaBreed { speed: 1000 }),
        entry(3, Goal::PandaAttack { speed: 1200, pause_when_idle: true }),
        entry(4, Goal::Tempt { speed: 1000, items: Diet::Panda, scared: false }),
        entry(
            6,
            Goal::PandaAvoidPlayer { distance: 8000, slow_speed: 2000, fast_speed: 2000 },
        ),
        entry(
            6,
            Goal::PandaAvoidMonsters { distance: 4000, slow_speed: 2000, fast_speed: 2000 },
        ),
        entry(7, Goal::PandaSit),
        entry(8, Goal::PandaLieOnBack),
        entry(8, Goal::PandaSneeze),
        entry(9, Goal::PandaLookAtPlayer { range: 6000 }),
        entry(10, Goal::LookAround),
        entry(12, Goal::PandaRoll),
        entry(13, Goal::FollowParent { speed: 1250 }),
        entry(14, Goal::WanderAvoidingWater { speed: 1000 }),
    ]
}

/// Whether a panda eats an item that lies on the ground: bamboo or cake.
pub open spec fn eats_from_ground(item: Item) -> bool {
    item == Item::Bamboo || item == Item::Cake
}

/// The message that tells clients about the flags of a panda.
pub open spec fn panda_flags_sync(flags: u8) -> Effect {
    Effect::Sync(SyncedValue::PandaFlags(flags as i8))
}

/// The message that tells clients how far a panda is with eating.
pub open spec fn eat_sync(counter: i32) -> Effect {
    Effect::Sync(SyncedValue::PandaEatCounter(counter))
}

/// The message that tells clients how far a panda is with sneezing.
pub open spec fn sneeze_sync(counter: i32) -> Effect {
    Effect::Sync(SyncedValue::PandaSneezeCounter(counter))
}

/// The message that tells clients about the gene that shows.
pub open spec fn main_gene_sync(gene: PandaGene) -> Effect {
    Effect::Sync(SyncedValue::PandaMainGene(gene_id(gene) as i8))
}

/// The message that tells clients about the gene that is hidden.
pub open spec fn hidden_gene_sync(gene: PandaGene) -> Effect {
    Effect::Sync(SyncedValue::PandaHiddenGene(gene_id(gene) as i8))
}

/// What a panda sees of the world in one tick.
#[derive(Clone, Copy)]
pub struct PandaTick {
    pub thundering: bool,
    pub in_water: bool,
    pub has_target: bool,
    /// Whether mobs drop items in this world.
    pub mob_drops: bool,
}

/// What chance decides in one tick of a panda.
#[derive(Clone, Copy)]
pub struct PandaDraws {
    /// Among eighty: whether it starts to eat.
    pub start_eating: i32,
    /// Among twenty: whether it stops eating.
    pub stop_eating: i32,
    /// Among seven hundred: whether a sneeze brings something up.
    pub gift: i32,
}

/// A panda and what it asked of the host.
pub struct PandaStep {
    pub panda: PandaEntity,
    pub effects: Seq<Effect>,
}

impl PandaEntity {
    /// What the panda is like.
    pub open spec fn kind(self) -> PandaGene {
        expressed(gene_of_id(self.main_gene), gene_of_id(self.hidden_gene))
    }

    /// Whether the panda cowers.
    pub open spec fn scared(self, thundering: bool) -> bool {
        self.kind() == PandaGene::Worried && thundering
    }

    /// Whether the panda is free to do something.
    pub open spec fn free_to_act(self, thundering: bool) -> bool {
        &&& !has_flag(self.flags, FLAG_ON_BACK)
        &&& !self.scared(thundering)
        &&& self.eat_counter <= 0
        &&& !has_flag(self.flags, FLAG_ROLL)
        &&& !has_flag(self.flags, FLAG_SIT)
    }
}

/// A worried panda sits down in a thunderstorm and stands up after it.
pub open spec fn worry_step(p: PandaEntity, seen: PandaTick) -> PandaStep {
    if p.kind() != PandaGene::Worried {
        PandaStep { panda: p, effects: seq![] }
    } else if seen.thundering && !seen.in_water {
        let flags = with_flag(p.flags, FLAG_SIT, true);
        PandaStep {
            panda: PandaEntity { flags, eat_counter: 0, ..p },
            effects: seq![panda_flags_sync(flags), eat_sync(0)],
        }
    } else if p.eat_counter <= 0 {
        let flags = with_flag(p.flags, FLAG_SIT, false);
        PandaStep { panda: PandaEntity { flags, ..p }, effects: seq![panda_flags_sync(flags)] }
    } else {
        PandaStep { panda: p, effects: seq![] }
    }
}

/// A panda without a target forgets its grudge.
pub open spec fn relieved(p: PandaEntity, seen: PandaTick) -> PandaEntity {
    if seen.has_target {
        p
    } else {
        PandaEntity { got_bamboo: false, did_bite: false, ..p }
    }
}

/// An unhappy panda gets over it.
pub open spec fn unhappy_step(p: PandaEntity, seen: PandaTick) -> PandaStep {
    let n = p.unhappy_counter;
    if n <= 0 {
        PandaStep { panda: p, effects: seq![] }
    } else {
        let look = if seen.has_target {
            seq![Effect::LookAtTarget]
        } else {
            seq![]
        };
        let complaint = if n == 29 || n == 14 {
            seq![Effect::Play(Sound::PandaCantBreed)]
        } else {
            seq![]
        };
        PandaStep {
            panda: PandaEntity { unhappy_counter: (n - 1) as i32, ..p },
            effects: look + complaint + seq![
                Effect::Sync(SyncedValue::PandaUnhappyCounter((n - 1) as i32)),
            ],
        }
    }
}

/// How far a sneeze startles others beyond the body of a panda, in thousandths.
pub const SNEEZE_REACH: u32 = 10000;

/// What follows a sneeze.
pub open spec fn after_sneeze_effects(mob_drops: bool, gift: int) -> Seq<Effect> {
    let scare = seq![Effect::Play(Sound::PandaSneeze), Effect::StartleOthers { reach: SNEEZE_REACH }];
    if mob_drops && gift == 0 {
        scare.push(Effect::Drop(ItemStack { item: Item::SlimeBall, count: 1 }))
    } else {
        scare
    }
}

/// A panda that sneezes goes on with it.
pub open spec fn sneeze_step(p: PandaEntity, mob_drops: bool, gift: int) -> PandaStep {
    if !has_flag(p.flags, FLAG_SNEEZE) {
        PandaStep { panda: p, effects: seq![] }
    } else {
        let n = counted_up(p.sneeze_counter);
        if n > 20 {
            let flags = with_flag(p.flags, FLAG_SNEEZE, false);
            PandaStep {
                panda: PandaEntity { flags, sneeze_counter: 0, ..p },
                effects: seq![sneeze_sync(n), panda_flags_sync(flags), sneeze_sync(0)]
                    + after_sneeze_effects(mob_drops, gift),
            }
        } else {
            PandaStep {
                panda: PandaEntity { sneeze_counter: n, ..p },
                effects: if n == 1 {
                    seq![sneeze_sync(n), Effect::Play(Sound::PandaPreSneeze)]
                } else {
                    seq![sneeze_sync(n)]
                },
            }
        }
    }
}

/// A panda that rolls goes on with it.
pub open spec fn roll_step(p: PandaEntity) -> PandaStep {
    if !has_flag(p.flags, FLAG_ROLL) {
        PandaStep { panda: PandaEntity { roll_counter: 0, ..p }, effects: seq![] }
    } else {
        let n = counted_up(p.roll_counter);
        if n > TOTAL_ROLL_STEPS {
            let flags = with_flag(p.flags, FLAG_ROLL, false);
            PandaStep {
                panda: PandaEntity { roll_counter: n, flags, ..p },
                effects: seq![panda_flags_sync(flags)],
            }
        } else {
            PandaStep {
                panda: PandaEntity { roll_counter: n, ..p },
                effects: if n == 1 {
                    seq![Effect::RollStart { baby: p.mob_entity.age < 0 }]
                } else if n == 7 || n == 15 || n == 23 {
                    seq![Effect::RollBounce]
                } else {
                    seq![Effect::RollOn]
                },
            }
        }
    }
}

/// A sitting panda looks straight ahead.
pub open spec fn sit_step(p: PandaEntity) -> PandaStep {
    PandaStep {
        panda: p,
        effects: if has_flag(p.flags, FLAG_SIT) {
            seq![Effect::LevelHead]
        } else {
            seq![]
        },
    }
}

/// A panda starts to eat, or stops because it cannot.
pub open spec fn appetite_step(p: PandaEntity, thundering: bool, start: int) -> PandaStep {
    let sits = has_flag(p.flags, FLAG_SIT);
    if p.eat_counter <= 0 && sits && !p.scared(thundering) && !p.held.holds_nothing() && start == 1 {
        PandaStep { panda: PandaEntity { eat_counter: 1, ..p }, effects: seq![eat_sync(1)] }
    } else if p.held.holds_nothing() || !sits {
        PandaStep { panda: PandaEntity { eat_counter: 0, ..p }, effects: seq![eat_sync(0)] }
    } else {
        PandaStep { panda: p, effects: seq![] }
    }
}

/// A panda that eats goes on with it. After long enough it may be done, and after longer it has
/// finished what it holds.
pub open spec fn chew_step(p: PandaEntity, stop: int) -> PandaStep {
    let n = p.eat_counter;
    if n <= 0 {
        PandaStep { panda: p, effects: seq![] }
    } else {
        let sound = if n % 5 == 0 {
            seq![Effect::Play(Sound::PandaEat)]
        } else {
            seq![]
        };
        if n > 80 && stop == 1 {
            if n > 100 && eats_from_ground(p.held.item) {
                let flags = with_flag(p.flags, FLAG_SIT, false);
                PandaStep {
                    panda: PandaEntity {
                        held: empty_stack(),
                        hand_occupied: false,
                        flags,
                        eat_counter: 0,
                        ..p
                    },
                    effects: sound + seq![
                        Effect::Hold(empty_stack()),
                        panda_flags_sync(flags),
                        eat_sync(0),
                    ],
                }
            } else {
                PandaStep {
                    panda: PandaEntity { eat_counter: 0, ..p },
                    effects: sound + seq![eat_sync(0)],
                }
            }
        } else {
            PandaStep {
                panda: PandaEntity { eat_counter: counted_up(n), ..p },
                effects: sound + seq![eat_sync(counted_up(n))],
            }
        }
    }
}

/// A panda decides whether to eat, and eats.
pub open spec fn eating_step(
    p: PandaEntity,
    thundering: bool,
    start: int,
    stop: int,
) -> PandaStep {
    let first = appetite_step(p, thundering, start);
    let second = chew_step(first.panda, stop);
    PandaStep { panda: second.panda, effects: first.effects + second.effects }
}

/// What a panda does in one tick, one thing after the other.
pub open spec fn panda_steps(p: PandaEntity, seen: PandaTick, draws: PandaDraws) -> Seq<PandaStep> {
    let worried = worry_step(p, seen);
    let unhappy = unhappy_step(relieved(worried.panda, seen), seen);
    let sneezed = sneeze_step(unhappy.panda, seen.mob_drops, draws.gift as int);
    let rolled = roll_step(sneezed.panda);
    let sat = sit_step(rolled.panda);
    let eaten = eating_step(
        sat.panda,
        seen.thundering,
        draws.start_eating as int,
        draws.stop_eating as int,
    );
    seq![worried, unhappy, sneezed, rolled, sat, eaten]
}

/// A panda after one tick.
pub open spec fn panda_ticked(p: PandaEntity, seen: PandaTick, draws: PandaDraws) -> PandaStep {
    let all = panda_steps(p, seen, draws);
    PandaStep {
        panda: all[5].panda,
        effects: all[0].effects + all[1].effects + all[2].effects + all[3].effects + all[4].effects
            + all[5].effects,
    }
}

proof fn lemma_joined(before: Seq<Effect>, a: Seq<PandaStep>)
    ensures
        before + a[0].effects + a[1].effects + a[2].effects + a[3].effects + a[4].effects
            + a[5].effects == before + (a[0].effects + a[1].effects + a[2].effects + a[3].effects
            + a[4].effects + a[5].effects),
{
    assert(before + a[0].effects + a[1].effects + a[2].effects + a[3].effects + a[4].effects
        + a[5].effects =~= before + (a[0].effects + a[1].effects + a[2].effects + a[3].effects
        + a[4].effects + a[5].effects));
}

/// What chance decides about the genes of a cub.
#[derive(Clone, Copy)]
pub struct GeneDraws {
    /// Whether the gene that shows comes from the first parent.
    pub first_shows: bool,
    /// Whether the first parent passes on the gene that shows in it.
    pub first_main: bool,
    /// Whether the second parent passes on the gene that shows in it.
    pub second_main: bool,
    /// Among sixteen: the gene in place of a missing parent's.
    pub stranger: i32,
    /// Among thirty-two: whether the gene that shows mutates.
    pub mutate_main: i32,
    /// Among thirty-two: whether the hidden gene mutates.
    pub mutate_hidden: i32,
    /// Among sixteen: what the gene that shows mutates to.
    pub new_main: i32,
    /// Among sixteen: what the hidden gene mutates to.
    pub new_hidden: i32,
}

/// Whether the draws can come up.
pub open spec fn gene_draws_valid(draws: GeneDraws) -> bool {
    &&& 0 <= draws.stranger < 16 && 0 <= draws.new_main < 16 && 0 <= draws.new_hidden < 16
    &&& 0 <= draws.mutate_main < 32 && 0 <= draws.mutate_hidden < 32
}

/// One of the genes of a parent.
pub open spec fn passed_on(parent: PandaEntity, main: bool) -> PandaGene {
    if main {
        gene_of_id(parent.main_gene)
    } else {
        gene_of_id(parent.hidden_gene)
    }
}

/// The genes of a cub before they mutate.
pub open spec fn inherited_genes(
    first: PandaEntity,
    second: Option<&PandaEntity>,
    draws: GeneDraws,
) -> (PandaGene, PandaGene) {
    let one = passed_on(first, draws.first_main);
    let other = match second {
        Some(parent) => passed_on(*parent, draws.second_main),
        None => gene_for_draw(draws.stranger as int),
    };
    if draws.first_shows {
        (one, other)
    } else {
        (other, one)
    }
}

/// The genes of a cub.
pub open spec fn cub_genes(
    first: PandaEntity,
    second: Option<&PandaEntity>,
    draws: GeneDraws,
) -> (PandaGene, PandaGene) {
    let (main, hidden) = inherited_genes(first, second, draws);
    (
        if draws.mutate_main == 0 {
            gene_for_draw(draws.new_main as int)
        } else {
            main
        },
        if draws.mutate_hidden == 0 {
            gene_for_draw(draws.new_hidden as int)
        } else {
            hidden
        },
    )
}

/// What giving a cub its genes tells the clients.
pub open spec fn cub_effects(
    first: PandaEntity,
    second: Option<&PandaEntity>,
    draws: GeneDraws,
) -> Seq<Effect> {
    let (main, hidden) = inherited_genes(first, second, draws);
    let (new_main, new_hidden) = cub_genes(first, second, draws);
    seq![main_gene_sync(main), hidden_gene_sync(hidden)] + (if draws.mutate_main == 0 {
        seq![main_gene_sync(new_main)]
    } else {
        seq![]
    }) + (if draws.mutate_hidden == 0 {
        seq![hidden_gene_sync(new_hidden)]
    } else {
        seq![]
    })
}

/// What the genes of a panda mean for its body.
pub open spec fn body_effects(kind: PandaGene) -> Seq<Effect> {
    if kind == PandaGene::Weak {
        seq![Effect::SetMaxHealth(10)]
    } else if kind == PandaGene::Lazy {
        seq![Effect::SetMovementSpeed(70)]
    } else {
        seq![]
    }
}

/// Whether a panda does not let a player at it.
pub open spec fn keeps_away(p: PandaEntity, thundering: bool, food: bool) -> bool {
    p.scared(thundering) || !has_flag(p.flags, FLAG_ON_BACK) && !food
}

/// Whether a player turns a panda over that lies on its back.
pub open spec fn is_turned_over(p: PandaEntity, thundering: bool) -> bool {
    !p.scared(thundering) && has_flag(p.flags, FLAG_ON_BACK)
}

/// Whether a panda sits down to eat what it is given.
pub open spec fn sits_down_to_eat(p: PandaEntity, in_water: bool) -> bool {
    p.mob_entity.age >= 0 && !has_flag(p.flags, FLAG_SIT) && !in_water
}

/// A panda that has sat down with something to eat.
pub open spec fn sat_down_with(p: PandaEntity, item: Item) -> PandaEntity {
    let one = ItemStack { item, count: 1 };
    PandaEntity {
        flags: with_flag(p.flags, FLAG_SIT, true),
        eat_counter: 1,
        held: one,
        hand_occupied: !one.holds_nothing(),
        ..p
    }
}

/// What sitting down with something to eat asks of the host.
pub open spec fn sitting_down_effects(p: PandaEntity, item: Item, gamemode: GameMode) -> Seq<Effect> {
    seq![
        Effect::StopNavigation,
        panda_flags_sync(with_flag(p.flags, FLAG_SIT, true)),
        eat_sync(1),
    ] + (if !p.held.holds_nothing() && gamemode != GameMode::Creative {
        seq![Effect::Drop(p.held)]
    } else {
        seq![]
    }) + seq![Effect::Hold((ItemStack { item, count: 1 }))]
}

/// Whether a panda picks up what lies before it.
pub open spec fn picks_up(p: PandaEntity, item: Item, in_world: bool) -> bool {
    eats_from_ground(item) && !p.hand_occupied && in_world
}

/// Whether a sneeze startles a panda.
pub open spec fn jumps_at_sneeze(
    p: PandaEntity,
    on_ground: bool,
    in_water: bool,
    thundering: bool,
) -> bool {
    p.mob_entity.age >= 0 && on_ground && !in_water && p.free_to_act(thundering)
}

impl PandaEntity {
    /// A new panda whose genes are not known yet. A grown one picks food up.
    pub fn new(age: i32) -> (panda: Self)
        ensures
            panda.mob_entity.age == age,
            panda.mob_entity.love_ticks == 0,
            panda.mob_entity.breeder is None,
            panda.mob_entity.owner is None,
            !panda.mob_entity.ordered_to_sit,
            panda.mob_entity.can_pick_up_loot == (age >= 0),
            panda.mob_entity.goals@ == panda_goals(),
            panda.mob_entity.targets@ == seq![entry(1, Goal::PandaHurtByTarget)],
            panda.flags == 0,
            panda.main_gene == GENE_UNSET,
            panda.hidden_gene == GENE_UNSET,
            panda.unhappy_counter == 0,
            panda.sneeze_counter == 0,
            panda.eat_counter == 0,
            panda.roll_counter == 0,
            panda.held == empty_stack(),
            !panda.hand_occupied,
            !panda.got_bamboo,
            !panda.did_bite,
            panda.forced_look_target is None,
    {
        let goals = vec![
            goal(0, Goal::Swim),
            goal(2, Goal::PandaPanic { speed: 2000 }),
            goal(2, Goal::PandaBreed { speed: 1000 }),
            goal(3, Goal::PandaAttack { speed: 1200, pause_when_idle: true }),
            goal(4, Goal::Tempt { speed: 1000, items: Diet::Panda, scared: false }),
            goal(6, Goal::PandaAvoidPlayer { distance: 8000, slow_speed: 2000, fast_speed: 2000 }),
            goal(
                6,
                Goal::PandaAvoidMonsters { distance: 4000, slow_speed: 2000, fast_speed: 2000 },
            ),
            goal(7, Goal::PandaSit),
            goal(8, Goal::PandaLieOnBack),
            goal(8, Goal::PandaSneeze),
            goal(9, Goal::PandaLookAtPlayer { range: 6000 }),
            goal(10, Goal::LookAround),
            goal(12, Goal::PandaRoll),
            goal(13, Goal::FollowParent { speed: 1250 }),
            goal(14, Goal::WanderAvoidingWater { speed: 1000 }),
        ];
        let targets = vec![goal(1, Goal::PandaHurtByTarget)];
        let mut mob_entity = MobEntity::with_goals(age, goals, targets);
        if age >= 0 {
            mob_entity.can_pick_up_loot = true;
        }
        PandaEntity {
            mob_entity,
            flags: 0,
            main_gene: GENE_UNSET,
            hidden_gene: GENE_UNSET,
            unhappy_counter: 0,
            sneeze_counter: 0,
            eat_counter: 0,
            roll_counter: 0,
            held: ItemStack::empty(),
            hand_occupied: false,
            got_bamboo: false,
            did_bite: false,
            forced_look_target: None,
        }
    }

    fn set_flag(&mut self, flag: u8, value: bool, effects: &mut Vec<Effect>)
        ensures
            *final(self) == (PandaEntity {
                flags: with_flag(old(self).flags, flag, value),
                ..*old(self)
            }),
            final(effects)@ == old(effects)@.push(
                panda_flags_sync(with_flag(old(self).flags, flag, value)),
            ),
    {
        self.flags = set_flag(self.flags, flag, value);
        effects.push(Effect::Sync(SyncedValue::PandaFlags(self.flags as i8)));
    }

    pub fn is_sneezing(&self) -> (set: bool)
        ensures
            set == has_flag(self.flags, FLAG_SNEEZE),
    {
        get_flag(self.flags, FLAG_SNEEZE)
    }

    /// Starts or ends a sneeze.
    pub fn sneeze(&mut self, value: bool, effects: &mut Vec<Effect>)
        ensures
            *final(self) == (PandaEntity {
                flags: with_flag(old(self).flags, FLAG_SNEEZE, value),
                sneeze_counter: if value { old(self).sneeze_counter } else { 0 },
                ..*old(self)
            }),
            final(effects)@ == old(effects)@ + (if value {
                seq![panda_flags_sync(with_flag(old(self).flags, FLAG_SNEEZE, value))]
            } else {
                seq![
                    panda_flags_sync(with_flag(old(self).flags, FLAG_SNEEZE, value)),
                    sneeze_sync(0),
                ]
            }),
    {
        self.set_flag(FLAG_SNEEZE, value, effects);
        if !value {
            self.set_sneeze_counter(0, effects);
        }
    }

    pub fn is_sitting_panda(&self) -> (set: bool)
        ensures
            set == has_flag(self.flags, FLAG_SIT),
    {
        get_flag(self.flags, FLAG_SIT)
    }

    pub fn sit(&mut self, value: bool, effects: &mut Vec<Effect>)
        ensures
            *final(self) == (PandaEntity {
                flags: with_flag(old(self).flags, FLAG_SIT, value),
                ..*old(self)
            }),
            final(effects)@ == old(effects)@.push(
                panda_flags_sync(with_flag(old(self).flags, FLAG_SIT, value)),
            ),
    {
        self.set_flag(FLAG_SIT, value, effects);
    }

    pub fn is_on_back(&self) -> (set: bool)
        ensures
            set == has_flag(self.flags, FLAG_ON_BACK),
    {
        get_flag(self.flags, FLAG_ON_BACK)
    }

    pub fn set_on_back(&mut self, value: bool, effects: &mut Vec<Effect>)
        ensures
            *final(self) == (PandaEntity {
                flags: with_flag(old(self).flags, FLAG_ON_BACK, value),
                ..*old(self)
            }),
            final(effects)@ == old(effects)@.push(
                panda_flags_sync(with_flag(old(self).flags, FLAG_ON_BACK, value)),
            ),
    {
        self.set_flag(FLAG_ON_BACK, value, effects);
    }

    pub fn is_rolling(&self) -> (set: bool)
        ensures
            set == has_flag(self.flags, FLAG_ROLL),
    {
        get_flag(self.flags, FLAG_ROLL)
    }

    pub fn roll(&mut self, value: bool, effects: &mut Vec<Effect>)
        ensures
            *final(self) == (PandaEntity {
                flags: with_flag(old(self).flags, FLAG_ROLL, value),
                ..*old(self)
            }),
            final(effects)@ == old(effects)@.push(
                panda_flags_sync(with_flag(old(self).flags, FLAG_ROLL, value)),
            ),
    {
        self.set_flag(FLAG_ROLL, value, effects);
    }

    pub fn get_unhappy_counter(&self) -> (counter: i32)
        ensures
            counter == self.unhappy_counter,
    {
        self.unhappy_counter
    }

    pub fn set_unhappy_counter(&mut self, value: i32, effects: &mut Vec<Effect>)
        ensures
            *final(self) == (PandaEntity { unhappy_counter: value, ..*old(self) }),
            final(effects)@ == old(effects)@.push(
                Effect::Sync(SyncedValue::PandaUnhappyCounter(value)),
            ),
    {
        self.unhappy_counter = value;
        effects.push(Effect::Sync(SyncedValue::PandaUnhappyCounter(value)));
    }

    pub fn get_sneeze_counter(&self) -> (counter: i32)
        ensures
            counter == self.sneeze_counter,
    {
        self.sneeze_counter
    }

    fn set_sneeze_counter(&mut self, value: i32, effects: &mut Vec<Effect>)
        ensures
            *final(self) == (PandaEntity { sneeze_counter: value, ..*old(self) }),
            final(effects)@ == old(effects)@.push(sneeze_sync(value)),
    {
        self.sneeze_counter = value;
        effects.push(Effect::Sync(SyncedValue::PandaSneezeCounter(value)));
    }

    pub fn is_eating(&self) -> (eating: bool)
        ensures
            eating == (self.eat_counter > 0),
    {
        self.eat_counter > 0
    }

    pub fn eat(&mut self, value: bool, effects: &mut Vec<Effect>)
        ensures
            *final(self) == (PandaEntity { eat_counter: if value { 1 } else { 0 }, ..*old(self) }),
            final(effects)@ == old(effects)@.push(eat_sync(if value { 1 } else { 0 })),
    {
        self.set_eat_counter(if value { 1 } else { 0 }, effects);
    }

    fn set_eat_counter(&mut self, value: i32, effects: &mut Vec<Effect>)
        ensures
            *final(self) == (PandaEntity { eat_counter: value, ..*old(self) }),
            final(effects)@ == old(effects)@.push(eat_sync(value)),
    {
        self.eat_counter = value;
        effects.push(Effect::Sync(SyncedValue::PandaEatCounter(value)));
    }

    pub fn main_gene(&self) -> (gene: PandaGene)
        ensures
            gene == gene_of_id(self.main_gene),
    {
        PandaGene::from_id(self.main_gene)
    }

    pub fn set_main_gene(&mut self, gene: PandaGene, effects: &mut Vec<Effect>)
        ensures
            *final(self) == (PandaEntity { main_gene: gene_id(gene), ..*old(self) }),
            final(effects)@ == old(effects)@.push(main_gene_sync(gene)),
    {
        self.main_gene = gene.id();
        effects.push(Effect::Sync(SyncedValue::PandaMainGene(gene.id() as i8)));
    }

    pub fn hidden_gene(&self) -> (gene: PandaGene)
        ensures
            gene == gene_of_id(self.hidden_gene),
    {
        PandaGene::from_id(self.hidden_gene)
    }

    pub fn set_hidden_gene(&mut self, gene: PandaGene, effects: &mut Vec<Effect>)
        ensures
            *final(self) == (PandaEntity { hidden_gene: gene_id(gene), ..*old(self) }),
            final(effects)@ == old(effects)@.push(hidden_gene_sync(gene)),
    {
        self.hidden_gene = gene.id();
        effects.push(Effect::Sync(SyncedValue::PandaHiddenGene(gene.id() as i8)));
    }

    pub fn variant(&self) -> (gene: PandaGene)
        ensures
            gene == self.kind(),
    {
        PandaGene::variant_from_genes(self.main_gene(), self.hidden_gene())
    }

    pub fn is_lazy(&self) -> (is: bool)
        ensures
            is == (self.kind() == PandaGene::Lazy),
    {
        self.variant() == PandaGene::Lazy
    }

    pub fn is_worried(&self) -> (is: bool)
        ensures
            is == (self.kind() == PandaGene::Worried),
    {
        self.variant() == PandaGene::Worried
    }

    pub fn is_playful(&self) -> (is: bool)
        ensures
            is == (self.kind() == PandaGene::Playful),
    {
        self.variant() == PandaGene::Playful
    }

    pub fn is_brown(&self) -> (is: bool)
        ensures
            is == (self.kind() == PandaGene::Brown),
    {
        self.variant() == PandaGene::Brown
    }

    pub fn is_weak(&self) -> (is: bool)
        ensures
            is == (self.kind() == PandaGene::Weak),
    {
        self.variant() == PandaGene::Weak
    }

    pub fn is_aggressive_gene(&self) -> (is: bool)
        ensures
            is == (self.kind() == PandaGene::Aggressive),
    {
        self.variant() == PandaGene::Aggressive
    }

    pub fn is_scared_with(&self, thundering: bool) -> (scared: bool)
        ensures
            scared == self.scared(thundering),
    {
        self.is_worried() && thundering
    }

    pub fn can_perform_action_with(&self, thundering: bool) -> (can: bool)
        ensures
            can == self.free_to_act(thundering),
    {
        !self.is_on_back() && !self.is_scared_with(thundering) && !self.is_eating()
            && !self.is_rolling() && !self.is_sitting_panda()
    }

    pub fn got_bamboo(&self) -> (got: bool)
        ensures
            got == self.got_bamboo,
    {
        self.got_bamboo
    }

    pub fn did_bite(&self) -> (did: bool)
        ensures
            did == self.did_bite,
    {
        self.did_bite
    }

    pub fn set_did_bite(&mut self, value: bool)
        ensures
            *final(self) == (PandaEntity { did_bite: value, ..*old(self) }),
    {
        self.did_bite = value;
    }

    pub fn set_forced_look_target(&mut self, target: Option<u128>)
        ensures
            *final(self) == (PandaEntity { forced_look_target: target, ..*old(self) }),
    {
        self.forced_look_target = target;
    }

    /// Whom the panda was told to look at, which it then forgets.
    pub fn take_forced_look_target(&mut self) -> (target: Option<u128>)
        ensures
            target == old(self).forced_look_target,
            *final(self) == (PandaEntity { forced_look_target: None, ..*old(self) }),
    {
        let target = self.forced_look_target;
        self.forced_look_target = None;
        target
    }

    /// Sits down, unless in water.
    pub fn try_to_sit(&mut self, in_water: bool, effects: &mut Vec<Effect>)
        ensures
            *final(self) == (if in_water {
                *old(self)
            } else {
                PandaEntity { flags: with_flag(old(self).flags, FLAG_SIT, true), ..*old(self) }
            }),
            final(effects)@ == old(effects)@ + (if in_water {
                seq![]
            } else {
                seq![
                    Effect::StopNavigation,
                    panda_flags_sync(with_flag(old(self).flags, FLAG_SIT, true)),
                ]
            }),
    {
        if !in_water {
            effects.push(Effect::StopNavigation);
            self.sit(true, effects);
        }
    }

    pub fn held_stack(&self) -> (stack: ItemStack)
        ensures
            stack == self.held,
    {
        self.held
    }

    pub fn set_held_stack(&mut self, stack: ItemStack, effects: &mut Vec<Effect>)
        ensures
            *final(self) == (PandaEntity {
                held: stack,
                hand_occupied: !stack.holds_nothing(),
                ..*old(self)
            }),
            final(effects)@ == old(effects)@.push(Effect::Hold(stack)),
    {
        self.hand_occupied = !stack.is_empty();
        self.held = stack;
        effects.push(Effect::Hold(stack));
    }

    pub fn can_pick_up_and_eat(stack: &ItemStack) -> (can: bool)
        ensures
            can == eats_from_ground(stack.item),
    {
        stack.item == Item::Bamboo || stack.item == Item::Cake
    }

    /// Makes the body fit the genes: a weak panda has little health, a lazy one is slow.
    pub fn set_attributes(&self, effects: &mut Vec<Effect>)
        ensures
            final(effects)@ == old(effects)@ + body_effects(self.kind()),
    {
        if self.is_weak() {
            effects.push(Effect::SetMaxHealth(10));
        }
        if self.is_lazy() {
            effects.push(Effect::SetMovementSpeed(70));
        }
    }

    fn one_of_genes(&self, main: bool) -> (gene: PandaGene)
        ensures
            gene == passed_on(*self, main),
    {
        if main {
            self.main_gene()
        } else {
            self.hidden_gene()
        }
    }

    /// The genes that a cub gets before any of them mutates.
    fn inherited(
        first: &PandaEntity,
        second: Option<&PandaEntity>,
        draws: &GeneDraws,
    ) -> (genes: (PandaGene, PandaGene))
        ensures
            genes == inherited_genes(*first, second, *draws),
    {
        let one = first.one_of_genes(draws.first_main);
        let other = match second {
            Some(parent) => parent.one_of_genes(draws.second_main),
            None => PandaGene::from_roll(draws.stranger),
        };
        if draws.first_shows {
            (one, other)
        } else {
            (other, one)
        }
    }

    /// Gives a cub its genes, for draws.
    pub fn set_genes_with(
        &mut self,
        first: &PandaEntity,
        second: Option<&PandaEntity>,
        draws: &GeneDraws,
        effects: &mut Vec<Effect>,
    )
        ensures
            *final(self) == (PandaEntity {
                main_gene: gene_id(cub_genes(*first, second, *draws).0),
                hidden_gene: gene_id(cub_genes(*first, second, *draws).1),
                ..*old(self)
            }),
            final(effects)@ == old(effects)@ + cub_effects(*first, second, *draws),
    {
        let (main, hidden) = Self::inherited(first, second, draws);
        self.set_main_gene(main, effects);
        self.set_hidden_gene(hidden, effects);
        if draws.mutate_main == 0 {
            self.set_main_gene(PandaGene::from_roll(draws.new_main), effects);
        }
        if draws.mutate_hidden == 0 {
            self.set_hidden_gene(PandaGene::from_roll(draws.new_hidden), effects);
        }
    }

    /// Gives a cub its genes: one of each parent's, either of which may mutate.
    pub fn set_gene_from_parents(
        &mut self,
        first: &PandaEntity,
        second: Option<&PandaEntity>,
        effects: &mut Vec<Effect>,
    )
        ensures
            exists|draws: GeneDraws|
                {
                    &&& gene_draws_valid(draws)
                    &&& *final(self) == (PandaEntity {
                        main_gene: gene_id(cub_genes(*first, second, draws).0),
                        hidden_gene: gene_id(cub_genes(*first, second, draws).1),
                        ..*old(self)
                    })
                    &&& final(effects)@ == old(effects)@ + #[trigger] cub_effects(
                        *first,
                        second,
                        draws,
                    )
                },
    {
        let draws = GeneDraws {
            first_shows: chance(1, 2),
            first_main: chance(1, 2),
            second_main: chance(1, 2),
            stranger: roll(0, 16),
            mutate_main: roll(0, 32),
            mutate_hidden: roll(0, 32),
            new_main: roll(0, 16),
            new_hidden: roll(0, 16),
        };
        self.set_genes_with(first, second, &draws, effects);
    }

    /// Makes a cub of two pandas, or of one and a stranger: its genes, and the body that fits
    /// them.
    pub fn create_offspring(
        &mut self,
        first: &PandaEntity,
        second: Option<&PandaEntity>,
        effects: &mut Vec<Effect>,
    )
        ensures
            exists|draws: GeneDraws|
                {
                    &&& gene_draws_valid(draws)
                    &&& *final(self) == (PandaEntity {
                        main_gene: gene_id(cub_genes(*first, second, draws).0),
                        hidden_gene: gene_id(cub_genes(*first, second, draws).1),
                        ..*old(self)
                    })
                    &&& final(effects)@ == old(effects)@ + #[trigger] cub_effects(
                        *first,
                        second,
                        draws,
                    ) + body_effects(final(self).kind())
                },
    {
        self.set_gene_from_parents(first, second, effects);
        self.set_attributes(effects);
    }

    /// One tick of rolling.
    fn handle_roll(&mut self, effects: &mut Vec<Effect>)
        ensures
            *final(self) == roll_step(*old(self)).panda,
            final(effects)@ == old(effects)@ + roll_step(*old(self)).effects,
    {
        if !self.is_rolling() {
            self.roll_counter = 0;
            return ;
        }
        self.roll_counter = count_up(self.roll_counter);
        if self.roll_counter > TOTAL_ROLL_STEPS {
            self.roll(false, effects);
            return ;
        }
        if self.roll_counter == 1 {
            effects.push(Effect::RollStart { baby: self.mob_entity.is_baby() });
        } else if self.roll_counter == 7 || self.roll_counter == 15 || self.roll_counter == 23 {
            effects.push(Effect::RollBounce);
        } else {
            effects.push(Effect::RollOn);
        }
    }

    /// One tick of eating, for draws.
    pub fn handle_eating_with(
        &mut self,
        thundering: bool,
        start: i32,
        stop: i32,
        effects: &mut Vec<Effect>,
    )
        ensures
            *final(self) == eating_step(*old(self), thundering, start as int, stop as int).panda,
            final(effects)@ == old(effects)@ + eating_step(
                *old(self),
                thundering,
                start as int,
                stop as int,
            ).effects,
    {
        let held_empty = self.held.is_empty();
        if !self.is_eating() && self.is_sitting_panda() && !self.is_scared_with(thundering)
            && !held_empty && start == 1 {
            self.eat(true, effects);
        } else if held_empty || !self.is_sitting_panda() {
            self.eat(false, effects);
        }
        if !self.is_eating() {
            return ;
        }
        let counter: i32 = self.eat_counter;
        if is_multiple(counter, 5) {
            effects.push(Effect::Play(Sound::PandaEat));
        }
        if counter > 80 && stop == 1 {
            if counter > 100 && Self::can_pick_up_and_eat(&self.held) {
                self.set_held_stack(ItemStack::empty(), effects);
                self.sit(false, effects);
            }
            self.eat(false, effects);
            return ;
        }
        self.set_eat_counter(count_up(counter), effects);
    }

    /// What follows a sneeze, for a draw.
    fn after_sneeze(&self, mob_drops: bool, gift: i32, effects: &mut Vec<Effect>)
        ensures
            final(effects)@ == old(effects)@ + after_sneeze_effects(mob_drops, gift as int),
    {
        effects.push(Effect::Play(Sound::PandaSneeze));
        effects.push(Effect::StartleOthers { reach: SNEEZE_REACH });
        if mob_drops && gift == 0 {
            effects.push(Effect::Drop(ItemStack::new(1, Item::SlimeBall)));
        }
    }

    /// Whether the sneeze of another panda makes this one jump.
    pub fn is_startled(&self, on_ground: bool, in_water: bool, thundering: bool) -> (startled: bool)
        ensures
            startled == jumps_at_sneeze(*self, on_ground, in_water, thundering),
    {
        !self.mob_entity.is_baby() && on_ground && !in_water && self.can_perform_action_with(
            thundering,
        )
    }

    fn worry(&mut self, seen: &PandaTick, effects: &mut Vec<Effect>)
        ensures
            *final(self) == worry_step(*old(self), *seen).panda,
            final(effects)@ == old(effects)@ + worry_step(*old(self), *seen).effects,
    {
        if self.is_worried() {
            if seen.thundering && !seen.in_water {
                self.sit(true, effects);
                self.eat(false, effects);
            } else if !self.is_eating() {
                self.sit(false, effects);
            }
        }
    }

    fn get_over_it(&mut self, seen: &PandaTick, effects: &mut Vec<Effect>)
        ensures
            *final(self) == unhappy_step(relieved(*old(self), *seen), *seen).panda,
            final(effects)@ == old(effects)@ + unhappy_step(
                relieved(*old(self), *seen),
                *seen,
            ).effects,
    {
        if !seen.has_target {
            self.got_bamboo = false;
            self.did_bite = false;
        }
        let unhappy: i32 = self.get_unhappy_counter();
        if unhappy > 0 {
            if seen.has_target {
                effects.push(Effect::LookAtTarget);
            }
            if unhappy == 29 || unhappy == 14 {
                effects.push(Effect::Play(Sound::PandaCantBreed));
            }
            self.set_unhappy_counter(unhappy - 1, effects);
        }
    }

    fn handle_sneeze(&mut self, mob_drops: bool, gift: i32, effects: &mut Vec<Effect>)
        ensures
            *final(self) == sneeze_step(*old(self), mob_drops, gift as int).panda,
            final(effects)@ == old(effects)@ + sneeze_step(
                *old(self),
                mob_drops,
                gift as int,
            ).effects,
    {
        if self.is_sneezing() {
            let counter: i32 = count_up(self.get_sneeze_counter());
            self.set_sneeze_counter(counter, effects);
            if counter > 20 {
                self.sneeze(false, effects);
                self.after_sneeze(mob_drops, gift, effects);
            } else if counter == 1 {
                effects.push(Effect::Play(Sound::PandaPreSneeze));
            }
        }
    }

    /// One tick, for draws.
    pub fn tick_with_draws(
        &mut self,
        seen: &PandaTick,
        draws: &PandaDraws,
        effects: &mut Vec<Effect>,
    )
        ensures
            *final(self) == panda_ticked(*old(self), *seen, *draws).panda,
            final(effects)@ == old(effects)@ + panda_ticked(*old(self), *seen, *draws).effects,
    {
        let ghost before = effects@;
        self.worry(seen, effects);
        let ghost worried = effects@;
        self.get_over_it(seen, effects);
        let ghost unhappy = effects@;
        self.handle_sneeze(seen.mob_drops, draws.gift, effects);
        let ghost sneezed = effects@;
        self.handle_roll(effects);
        let ghost rolled = effects@;
        self.keep_head_level(effects);
        let ghost sat = effects@;
        self.handle_eating_with(seen.thundering, draws.start_eating, draws.stop_eating, effects);
        proof {
            let all = panda_steps(*old(self), *seen, *draws);
            assert(worried == before + all[0].effects);
            assert(unhappy == worried + all[1].effects);
            assert(sneezed == unhappy + all[2].effects);
            assert(rolled == sneezed + all[3].effects);
            assert(sat == rolled + all[4].effects);
            lemma_joined(before, all);
        }
    }

    fn keep_head_level(&self, effects: &mut Vec<Effect>)
        ensures
            final(effects)@ == old(effects)@ + sit_step(*self).effects,
    {
        if self.is_sitting_panda() {
            effects.push(Effect::LevelHead);
        }
    }

    /// One tick.
    pub fn mob_tick(&mut self, seen: &PandaTick, effects: &mut Vec<Effect>)
        ensures
            exists|draws: PandaDraws|
                {
                    &&& 0 <= draws.start_eating < 80 && 0 <= draws.stop_eating < 20 && 0
                        <= draws.gift < 700
                    &&& *final(self) == (#[trigger] panda_ticked(*old(self), *seen, draws)).panda
                    &&& final(effects)@ == old(effects)@ + panda_ticked(
                        *old(self),
                        *seen,
                        draws,
                    ).effects
                },
    {
        let draws = PandaDraws {
            start_eating: roll(0, 80),
            stop_eating: roll(0, 20),
            gift: roll(0, 700),
        };
        self.tick_with_draws(seen, &draws, effects);
    }

    /// The size of a baby.
    pub fn baby_dimensions(&self) -> (size: Dimensions)
        ensures
            size == (Dimensions { width: 65000, height: 62500, eye_height: 28125 }),
    {
        Dimensions { width: 65000, height: 62500, eye_height: 28125 }
    }

    /// Whether an item is food for the panda.
    pub fn is_food(&self, stack: &ItemStack) -> (food: bool)
        ensures
            food == diet_items(Diet::Panda).contains(stack.item),
    {
        Diet::Panda.contains(stack.item)
    }

    /// Lets a player use an item on the panda. Where the interaction that all mobs share
    /// decides and does nothing, `take_bamboo` follows.
    pub fn mob_interact(
        &mut self,
        thundering: bool,
        has_target: bool,
        breeding_ready: bool,
        player: &Player,
        stack: &mut ItemStack,
        effects: &mut Vec<Effect>,
    ) -> (outcome: Interaction)
        requires
            !old(self).scared(thundering) && !has_flag(old(self).flags, FLAG_ON_BACK)
                && diet_items(Diet::Panda).contains(old(stack).item) && grows(
                old(self).mob_entity,
                panda_feeding(breeding_ready),
            ) ==> old(self).mob_entity.age > i32::MIN,
        ensures
            ({
                let p = *old(self);
                let food = diet_items(Diet::Panda).contains(old(stack).item);
                let feeding = panda_feeding(breeding_ready);
                if keeps_away(p, thundering, food) {
                    &&& outcome == Interaction::Refused
                    &&& *final(self) == p
                    &&& final(effects)@ == old(effects)@
                    &&& *final(stack) == *old(stack)
                } else if is_turned_over(p, thundering) {
                    let flags = with_flag(p.flags, FLAG_ON_BACK, false);
                    &&& outcome == Interaction::Handled
                    &&& *final(self) == (PandaEntity { flags, ..p })
                    &&& final(effects)@ == old(effects)@.push(panda_flags_sync(flags))
                    &&& *final(stack) == *old(stack)
                } else {
                    &&& outcome == meal_outcome(p.mob_entity, feeding)
                    &&& *final(self) == (PandaEntity {
                        got_bamboo: p.got_bamboo || has_target,
                        mob_entity: fed(p.mob_entity, feeding, *player),
                        ..p
                    })
                    &&& final(effects)@ == old(effects)@ + feeding_effects(p.mob_entity, feeding)
                    &&& *final(stack) == stack_after_meal(
                        p.mob_entity,
                        feeding,
                        *old(stack),
                        player.gamemode,
                    )
                }
            }),
    {
        if self.is_scared_with(thundering) {
            return Interaction::Refused;
        }
        if self.is_on_back() {
            self.set_on_back(false, effects);
            return Interaction::Handled;
        }
        if !self.is_food(stack) {
            return Interaction::Refused;
        }
        if has_target {
            self.got_bamboo = true;
        }
        let feeding = Feeding {
            food: true,
            breeding_ready,
            can_age_up: true,
            sound: Sound::PandaAmbient,
        };
        animal_interact(&mut self.mob_entity, feeding, player, stack, effects)
    }

    /// A grown panda that neither sits nor swims sits down with offered bamboo and eats it,
    /// and drops what it held.
    pub fn take_bamboo(
        &mut self,
        in_water: bool,
        player: &Player,
        stack: &mut ItemStack,
        effects: &mut Vec<Effect>,
    ) -> (outcome: Interaction)
        ensures
            ({
                let p = *old(self);
                if !sits_down_to_eat(p, in_water) {
                    &&& outcome == Interaction::Refused
                    &&& *final(self) == p
                    &&& final(effects)@ == old(effects)@
                    &&& *final(stack) == *old(stack)
                } else {
                    &&& outcome == Interaction::Handled
                    &&& *final(self) == sat_down_with(p, old(stack).item)
                    &&& final(effects)@ == old(effects)@ + sitting_down_effects(
                        p,
                        old(stack).item,
                        player.gamemode,
                    )
                    &&& *final(stack) == after_use(*old(stack), player.gamemode, 1)
                }
            }),
    {
        if self.mob_entity.is_baby() || self.is_sitting_panda() || in_water {
            return Interaction::Refused;
        }
        self.try_to_sit(in_water, effects);
        self.eat(true, effects);
        let current = self.held_stack();
        if !current.is_empty() && player.gamemode != GameMode::Creative {
            effects.push(Effect::Drop(current));
        }
        self.set_held_stack(ItemStack::new(1, stack.item), effects);
        stack.decrement_unless_creative(player.gamemode, 1);
        Interaction::Handled
    }

    /// A bite that landed. A panda that is not aggressive by its genes has had enough after it.
    pub fn on_successful_attack(&mut self, effects: &mut Vec<Effect>)
        ensures
            *final(self) == (PandaEntity {
                did_bite: old(self).did_bite || old(self).kind() != PandaGene::Aggressive,
                ..*old(self)
            }),
            final(effects)@ == old(effects)@.push(Effect::Play(Sound::PandaBite)),
    {
        if !self.is_aggressive_gene() {
            self.set_did_bite(true);
        }
        effects.push(Effect::Play(Sound::PandaBite));
    }

    pub fn can_be_leashed(&self) -> (can: bool)
        ensures
            !can,
    {
        false
    }

    pub fn get_ambient_sound(&self) -> (sound: Option<Sound>)
        ensures
            sound == Some(
                if self.kind() == PandaGene::Aggressive {
                    Sound::PandaAggressiveAmbient
                } else if self.kind() == PandaGene::Worried {
                    Sound::PandaWorriedAmbient
                } else {
                    Sound::PandaAmbient
                },
            ),
    {
        Some(
            if self.is_aggressive_gene() {
                Sound::PandaAggressiveAmbient
            } else if self.is_worried() {
                Sound::PandaWorriedAmbient
            } else {
                Sound::PandaAmbient
            },
        )
    }

    pub fn wants_to_pick_up_item(&self, stack: &ItemStack) -> (wants: bool)
        ensures
            wants == (!self.hand_occupied && eats_from_ground(stack.item)),
    {
        !self.hand_occupied && Self::can_pick_up_and_eat(stack)
    }

    /// Takes a whole stack from the ground into a free hand, and says how many items that were.
    /// `in_world` says whether the panda can still be found in the world.
    pub fn on_item_pickup(
        &mut self,
        stack: &ItemStack,
        in_world: bool,
        effects: &mut Vec<Effect>,
    ) -> (taken: u8)
        ensures
            ({
                let takes = picks_up(*old(self), stack.item, in_world);
                &&& taken == (if takes { stack.count } else { 0 })
                &&& *final(self) == (if takes {
                    PandaEntity {
                        held: *stack,
                        hand_occupied: !stack.holds_nothing(),
                        ..*old(self)
                    }
                } else {
                    *old(self)
                })
                &&& final(effects)@ == old(effects)@ + (if takes {
                    seq![Effect::Hold(*stack)]
                } else {
                    seq![]
                })
            }),
    {
        if !Self::can_pick_up_and_eat(stack) {
            return 0;
        }
        if self.hand_occupied {
            return 0;
        }
        if !in_world {
            return 0;
        }
        self.set_held_stack(*stack, effects);
        stack.count
    }

    /// Tells clients about the panda when they first see it, for draws. Genes that are not
    /// known yet are drawn.
    pub fn init_with_draws(&mut self, main_draw: i32, hidden_draw: i32, effects: &mut Vec<Effect>)
        ensures
            ({
                let main = first_gene(old(self).main_gene, main_draw as int);
                let hidden = first_gene(old(self).hidden_gene, hidden_draw as int);
                &&& *final(self) == (PandaEntity {
                    main_gene: gene_id(main),
                    hidden_gene: gene_id(hidden),
                    hand_occupied: !old(self).held.holds_nothing(),
                    ..*old(self)
                })
                &&& final(effects)@ == old(effects)@ + init_effects(*old(self), main, hidden)
            }),
    {
        let main = known_or_drawn(self.main_gene, main_draw);
        self.set_main_gene(main, effects);
        let hidden = known_or_drawn(self.hidden_gene, hidden_draw);
        self.set_hidden_gene(hidden, effects);
        proof {
            law_gene_round_trip(main);
            law_gene_round_trip(hidden);
        }
        let ghost genes = effects@;
        assert(genes =~= old(effects)@ + seq![main_gene_sync(main), hidden_gene_sync(hidden)]);
        self.set_attributes(effects);
        let ghost body = body_effects(expressed(main, hidden));
        assert(effects@ == genes + body);
        self.hand_occupied = !self.held_stack().is_empty();
        if self.mob_entity.is_baby() {
            effects.push(Effect::Sync(SyncedValue::Baby(true)));
        }
        effects.push(Effect::Sync(SyncedValue::PandaFlags(self.flags as i8)));
    }

    /// Tells clients about the panda when they first see it.
    pub fn mob_init_data_tracker(&mut self, effects: &mut Vec<Effect>)
        ensures
            exists|main_draw: int, hidden_draw: int|
                {
                    let main = #[trigger] first_gene(old(self).main_gene, main_draw);
                    let hidden = #[trigger] first_gene(old(self).hidden_gene, hidden_draw);
                    &&& 0 <= main_draw < 16 && 0 <= hidden_draw < 16
                    &&& *final(self) == (PandaEntity {
                        main_gene: gene_id(main),
                        hidden_gene: gene_id(hidden),
                        hand_occupied: !old(self).held.holds_nothing(),
                        ..*old(self)
                    })
                    &&& final(effects)@ == old(effects)@ + init_effects(*old(self), main, hidden)
                },
    {
        let main_draw: i32 = roll(0, 16);
        let hidden_draw: i32 = roll(0, 16);
        self.init_with_draws(main_draw, hidden_draw, effects);
        proof {
            let main = first_gene(old(self).main_gene, main_draw as int);
            let hidden = first_gene(old(self).hidden_gene, hidden_draw as int);
            assert(self.hidden_gene == gene_id(hidden));
        }
    }

    /// Saves the panda.
    pub fn write_nbt(&self, nbt: &mut NbtCompound)
        ensures
            final(nbt)@ == panda_saved(old(nbt)@, *self),
    {
        write_animal_nbt(&self.mob_entity, nbt);
        nbt.put_string("MainGene", self.main_gene().name());
        nbt.put_string("HiddenGene", self.hidden_gene().name());
    }

    /// Restores the panda.
    pub fn read_nbt(&mut self, nbt: &NbtCompound, effects: &mut Vec<Effect>)
        ensures
            *final(self) == panda_restored(*old(self), nbt@),
            final(effects)@ == old(effects)@ + seq![
                main_gene_sync(restored_gene(nbt@, "MainGene"@)),
                hidden_gene_sync(restored_gene(nbt@, "HiddenGene"@)),
            ],
    {
        read_animal_nbt(&mut self.mob_entity, nbt);
        let main = match nbt.get_string("MainGene") {
            Some(name) => PandaGene::from_name(name),
            None => PandaGene::Normal,
        };
        let hidden = match nbt.get_string("HiddenGene") {
            Some(name) => PandaGene::from_name(name),
            None => PandaGene::Normal,
        };
        self.set_main_gene(main, effects);
        self.set_hidden_gene(hidden, effects);
    }
}

/// How a panda takes bamboo.
pub open spec fn panda_feeding(breeding_ready: bool) -> Feeding {
    Feeding { food: true, breeding_ready, can_age_up: true, sound: Sound::PandaAmbient }
}

/// A gene that is known, or else one for a draw.
pub open spec fn first_gene(id: u8, draw: int) -> PandaGene {
    if id == GENE_UNSET {
        gene_for_draw(draw)
    } else {
        gene_of_id(id)
    }
}

/// A gene that is known, or else one for a draw.
fn known_or_drawn(id: u8, draw: i32) -> (gene: PandaGene)
    ensures
        gene == first_gene(id, draw as int),
{
    if id == GENE_UNSET {
        PandaGene::from_roll(draw)
    } else {
        PandaGene::from_id(id)
    }
}

/// What clients are told about a panda that they first see.
pub open spec fn init_effects(p: PandaEntity, main: PandaGene, hidden: PandaGene) -> Seq<Effect> {
    seq![main_gene_sync(main), hidden_gene_sync(hidden)] + body_effects(expressed(main, hidden)) + (
    if p.mob_entity.age < 0 {
        seq![Effect::Sync(SyncedValue::Baby(true))]
    } else {
        seq![]
    }) + seq![panda_flags_sync(p.flags)]
}

/// What is saved of a panda.
pub open spec fn panda_saved(nbt: Map<Seq<char>, NbtValue>, p: PandaEntity) -> Map<
    Seq<char>,
    NbtValue,
> {
    animal_saved(nbt, p.mob_entity).insert(
        "MainGene"@,
        NbtValue::Text(gene_name(gene_of_id(p.main_gene))),
    ).insert("HiddenGene"@, NbtValue::Text(gene_name(gene_of_id(p.hidden_gene))))
}

/// The gene under a name.
pub open spec fn restored_gene(nbt: Map<Seq<char>, NbtValue>, name: Seq<char>) -> PandaGene {
    match text_at(nbt, name) {
        Some(gene) => gene_of_name(gene),
        None => PandaGene::Normal,
    }
}

/// A panda with its saved state restored.
pub open spec fn panda_restored(p: PandaEntity, nbt: Map<Seq<char>, NbtValue>) -> PandaEntity {
    PandaEntity {
        mob_entity: animal_restored(p.mob_entity, nbt),
        main_gene: gene_id(restored_gene(nbt, "MainGene"@)),
        hidden_gene: gene_id(restored_gene(nbt, "HiddenGene"@)),
        ..p
    }
}

/// Restoring a saved panda gives back both of its genes, and so what it is like.
pub proof fn law_panda_round_trip(
    nbt: Map<Seq<char>, NbtValue>,
    p: PandaEntity,
    other: PandaEntity,
)
    ensures
        ({
            let back = panda_restored(other, panda_saved(nbt, p));
            &&& gene_of_id(back.main_gene) == gene_of_id(p.main_gene)
            &&& gene_of_id(back.hidden_gene) == gene_of_id(p.hidden_gene)
            &&& back.kind() == p.kind()
        }),
{
    reveal_strlit("MainGene");
    reveal_strlit("HiddenGene");
    assert("MainGene"@.len() != "HiddenGene"@.len());
    law_gene_round_trip(gene_of_id(p.main_gene));
    law_gene_round_trip(gene_of_id(p.hidden_gene));
}

/// Without mutation a cub of two pandas has one gene of each.
pub proof fn law_genes_come_from_both_parents(
    first: PandaEntity,
    second: PandaEntity,
    draws: GeneDraws,
)
    requires
        draws.mutate_main != 0,
        draws.mutate_hidden != 0,
    ensures
        ({
            let (main, hidden) = cub_genes(first, Some(&second), draws);
            let one = passed_on(first, draws.first_main);
            let other = passed_on(second, draws.second_main);
            &&& main == one && hidden == other || main == other && hidden == one
            &&& one == gene_of_id(first.main_gene) || one == gene_of_id(first.hidden_gene)
            &&& other == gene_of_id(second.main_gene) || other == gene_of_id(second.hidden_gene)
        }),
{
}

/// A panda that is on its back, eats, rolls, sits or is scared does nothing else, and is not
/// startled either.
pub proof fn law_busy_pandas_do_nothing_else(p: PandaEntity, thundering: bool)
    ensures
        p.free_to_act(thundering) ==> p.eat_counter <= 0 && !has_flag(p.flags, FLAG_SIT),
        p.eat_counter > 0 ==> !p.free_to_act(thundering),
        p.scared(thundering) ==> !p.free_to_act(thundering),
{
}

/// A worried panda on land sits and does not eat throughout a thunderstorm.
pub proof fn law_worried_panda_cowers(p: PandaEntity, seen: PandaTick)
    requires
        p.kind() == PandaGene::Worried,
        seen.thundering,
        !seen.in_water,
    ensures
        has_flag(worry_step(p, seen).panda.flags, FLAG_SIT),
        worry_step(p, seen).panda.eat_counter == 0,
{
    law_flag_reads_back(p.flags, FLAG_SIT, true);
}

/// A panda that sits, is not scared and holds bamboo or cake finishes it when the draw that ends
/// the meal comes up, once it has eaten for more than five seconds: then its hand is empty and
/// free, it stands up and eats no more, and clients see the empty hand.
pub proof fn law_panda_finishes_its_meal(p: PandaEntity, thundering: bool, start: int)
    requires
        has_flag(p.flags, 8),
        !p.scared(thundering),
        p.held.item == Item::Bamboo || p.held.item == Item::Cake,
        p.held.count > 0,
        p.eat_counter > 100,
    ensures
        ({
            let step = eating_step(p, thundering, start, 1);
            &&& step.panda.held.holds_nothing()
            &&& !step.panda.hand_occupied
            &&& !has_flag(step.panda.flags, 8)
            &&& step.panda.eat_counter == 0
            &&& step.effects.contains(Effect::Hold(empty_stack()))
            &&& step.effects.contains(Effect::Sync(SyncedValue::PandaEatCounter(0)))
        }),
{
    broadcast use group_effects;

    law_flag_reads_back(p.flags, FLAG_SIT, false);
    let end = seq![
        Effect::Hold(empty_stack()),
        panda_flags_sync(with_flag(p.flags, FLAG_SIT, false)),
        eat_sync(0),
    ];
    assert(end[0] == Effect::Hold(empty_stack()) && end[2] == eat_sync(0));
}

/// What is neither bamboo nor cake, and what is not eaten for long enough, stays in the hand of a
/// panda; the draw that ends the meal then only ends the eating, and only after four seconds. At
/// any other time a panda that eats goes on.
pub proof fn law_panda_keeps_what_it_holds(p: PandaEntity, thundering: bool, start: int, stop: int)
    requires
        has_flag(p.flags, 8),
        !p.held.holds_nothing(),
        0 < p.eat_counter < i32::MAX,
    ensures
        ({
            let step = eating_step(p, thundering, start, stop);
            let food = p.held.item == Item::Bamboo || p.held.item == Item::Cake;
            &&& !food || p.eat_counter <= 100 || stop != 1 ==> step.panda.held == p.held
                && step.panda.hand_occupied == p.hand_occupied && step.panda.flags == p.flags
            &&& p.eat_counter > 80 && stop == 1 ==> step.panda.eat_counter == 0
            &&& p.eat_counter <= 80 || stop != 1 ==> step.panda.eat_counter == p.eat_counter + 1
            &&& step.effects.contains(Effect::Play(Sound::PandaEat)) <==> p.eat_counter % 5 == 0
        }),
{
    broadcast use group_effects;

}

/// A panda that sits, is not scared and holds something starts to eat at the draw. One that stands
/// or holds nothing does not eat.
pub proof fn law_when_pandas_eat(p: PandaEntity, thundering: bool, start: int, stop: int)
    requires
        p.eat_counter <= 0,
        stop != 1,
    ensures
        ({
            let after = eating_step(p, thundering, start, stop).panda;
            let sits = has_flag(p.flags, 8);
            &&& sits && !p.scared(thundering) && !p.held.holds_nothing() && start == 1
                ==> after.eat_counter == 2
            &&& !sits || p.held.holds_nothing() ==> after.eat_counter == 0
            &&& sits && !p.held.holds_nothing() && (p.scared(thundering) || start != 1)
                ==> after.eat_counter == p.eat_counter
            &&& after.held == p.held && after.flags == p.flags
        }),
{
}

/// A panda that stands, or whose hand is empty, stops eating at once, however far it has got.
pub proof fn law_standing_pandas_stop_eating(
    p: PandaEntity,
    thundering: bool,
    start: int,
    stop: int,
)
    requires
        !has_flag(p.flags, 8) || p.held.holds_nothing(),
    ensures
        eating_step(p, thundering, start, stop).panda.eat_counter == 0,
        eating_step(p, thundering, start, stop).panda.held == p.held,
{
}

/// A sneeze takes twenty ticks: it is announced at the first, and after the last it is heard,
/// startles others up to ten blocks away, and may leave a slime ball where mobs drop things.
pub proof fn law_how_pandas_sneeze(p: PandaEntity, mob_drops: bool, gift: int)
    requires
        0 <= p.sneeze_counter < i32::MAX,
    ensures
        ({
            let step = sneeze_step(p, mob_drops, gift);
            let sneezes = has_flag(p.flags, 2);
            let done = sneezes && p.sneeze_counter >= 20;
            let ball = Effect::Drop(ItemStack { item: Item::SlimeBall, count: 1 });
            &&& !sneezes ==> step.panda == p && step.effects.len() == 0
            &&& sneezes && !done ==> step.panda.sneeze_counter == p.sneeze_counter + 1
                && step.panda.flags == p.flags
            &&& done ==> !has_flag(step.panda.flags, 2) && step.panda.sneeze_counter == 0
            &&& step.effects.contains(Effect::Play(Sound::PandaPreSneeze)) <==> sneezes
                && p.sneeze_counter == 0
            &&& step.effects.contains(Effect::Play(Sound::PandaSneeze)) <==> done
            &&& step.effects.contains(Effect::StartleOthers { reach: 10000 }) <==> done
            &&& step.effects.contains(ball) <==> done && mob_drops && gift == 0
        }),
{
    broadcast use group_effects;

    law_flag_reads_back(p.flags, FLAG_SNEEZE, false);
    let step = sneeze_step(p, mob_drops, gift);
    let scare = after_sneeze_effects(mob_drops, gift);
    assert(scare[0] == Effect::Play(Sound::PandaSneeze));
    assert(scare[1] == Effect::StartleOthers { reach: 10000 });
    if has_flag(p.flags, 2) && p.sneeze_counter == 0 {
        assert(step.effects[1] == Effect::Play(Sound::PandaPreSneeze));
    }
}

/// A roll takes thirty-two ticks. It starts at the first, with half the force for a baby, bounces
/// three times, goes on otherwise, and then ends; a panda that does not roll has rolled for no
/// time.
pub proof fn law_how_pandas_roll(p: PandaEntity)
    requires
        0 <= p.roll_counter < i32::MAX,
    ensures
        ({
            let step = roll_step(p);
            let rolls = has_flag(p.flags, 4);
            let n = p.roll_counter + 1;
            &&& !rolls ==> step.panda == (PandaEntity { roll_counter: 0, ..p })
                && step.effects.len() == 0
            &&& rolls ==> step.panda.roll_counter == n
            &&& rolls && n > 32 ==> !has_flag(step.panda.flags, 4)
            &&& rolls && n <= 32 ==> step.panda.flags == p.flags
            &&& rolls && n == 1 ==> step.effects == seq![
                Effect::RollStart { baby: p.mob_entity.age < 0 },
            ]
            &&& rolls && (n == 7 || n == 15 || n == 23) ==> step.effects == seq![Effect::RollBounce]
            &&& rolls && 1 < n <= 32 && n != 7 && n != 15 && n != 23 ==> step.effects == seq![
                Effect::RollOn,
            ]
        }),
{
    law_flag_reads_back(p.flags, FLAG_ROLL, false);
}

/// A worried panda cowers in a thunderstorm outside the water and stands up again once it is over,
/// unless it eats; pandas of other kinds do not mind.
pub proof fn law_worry_passes(p: PandaEntity, seen: PandaTick)
    ensures
        ({
            let step = worry_step(p, seen);
            let storm = seen.thundering && !seen.in_water;
            let worried = p.kind() == PandaGene::Worried;
            &&& !worried ==> step.panda == p && step.effects.len() == 0
            &&& worried && storm ==> has_flag(step.panda.flags, 8) && step.panda.eat_counter == 0
            &&& worried && !storm && p.eat_counter <= 0 ==> !has_flag(step.panda.flags, 8)
            &&& worried && !storm && p.eat_counter > 0 ==> step.panda == p
            &&& step.panda.held == p.held
        }),
{
    law_flag_reads_back(p.flags, FLAG_SIT, true);
    law_flag_reads_back(p.flags, FLAG_SIT, false);
}

/// Unhappiness passes tick by tick, and is heard twice on the way; without a target a panda
/// forgets that it got bamboo and that it bit.
pub proof fn law_unhappiness_passes(p: PandaEntity, seen: PandaTick)
    ensures
        ({
            let step = unhappy_step(p, seen);
            let n = p.unhappy_counter;
            &&& n <= 0 ==> step.panda == p && step.effects.len() == 0
            &&& n > 0 ==> step.panda == (PandaEntity { unhappy_counter: (n - 1) as i32, ..p })
            &&& step.effects.contains(Effect::Play(Sound::PandaCantBreed)) <==> n == 29 || n == 14
            &&& step.effects.contains(Effect::LookAtTarget) <==> n > 0 && seen.has_target
            &&& seen.has_target ==> relieved(p, seen) == p
            &&& !seen.has_target ==> !relieved(p, seen).got_bamboo && !relieved(p, seen).did_bite
        }),
{
    broadcast use group_effects;

}

/// Which genes show: a brown or weak one only if both genes are the same, and any other one always.
/// Only a worried panda is scared, and only by thunder.
pub proof fn law_what_pandas_show(p: PandaEntity, thundering: bool)
    ensures
        ({
            let main = gene_of_id(p.main_gene);
            let hidden = gene_of_id(p.hidden_gene);
            let hides = (main == PandaGene::Brown || main == PandaGene::Weak) && main != hidden;
            &&& hides ==> p.kind() == PandaGene::Normal
            &&& !hides ==> p.kind() == main
            &&& p.scared(thundering) <==> main == PandaGene::Worried && thundering
        }),
{
}

/// A panda is free to act exactly if it neither lies on its back, nor rolls, sits or eats, and is
/// not scared.
pub proof fn law_which_pandas_are_free(p: PandaEntity, thundering: bool)
    ensures
        p.free_to_act(thundering) <==> !has_flag(p.flags, 16) && !has_flag(p.flags, 4) && !has_flag(
            p.flags,
            8,
        ) && p.eat_counter <= 0 && !p.scared(thundering),
{
}

/// Each gene that a cub gets is, for the draw that mutates it, the drawn gene, and otherwise that
/// of the parent that the draws name: which of its two genes each parent gives, and which of them
/// shows, are drawn apart. In the place of a missing parent a gene is drawn.
pub proof fn law_cubs_inherit(first: PandaEntity, second: Option<&PandaEntity>, draws: GeneDraws)
    ensures
        ({
            let cub = cub_genes(first, second, draws);
            let own = gene_of_id(if draws.first_main { first.main_gene } else { first.hidden_gene });
            &&& draws.mutate_main == 0 ==> cub.0 == gene_for_draw(draws.new_main as int)
            &&& draws.mutate_hidden == 0 ==> cub.1 == gene_for_draw(draws.new_hidden as int)
            &&& draws.mutate_main != 0 && draws.first_shows ==> cub.0 == own
            &&& draws.mutate_hidden != 0 && !draws.first_shows ==> cub.1 == own
            &&& second is None && draws.mutate_main != 0 && !draws.first_shows ==> cub.0
                == gene_for_draw(draws.stranger as int)
            &&& second is None && draws.mutate_hidden != 0 && draws.first_shows ==> cub.1
                == gene_for_draw(draws.stranger as int)
            &&& second matches Some(mate) ==> {
                let given = gene_of_id(
                    if draws.second_main {
                        mate.main_gene
                    } else {
                        mate.hidden_gene
                    },
                );
                &&& draws.mutate_main != 0 && !draws.first_shows ==> cub.0 == given
                &&& draws.mutate_hidden != 0 && draws.first_shows ==> cub.1 == given
            }
        }),
{
}

/// Of sixteen draws one each gives a lazy, a worried, a playful and an aggressive panda, five a
/// weak one, two a brown one and five a normal one.
pub proof fn law_how_genes_are_drawn(draw: int)
    requires
        0 <= draw < 16,
    ensures
        gene_for_draw(draw) == PandaGene::Lazy <==> draw == 0,
        gene_for_draw(draw) == PandaGene::Worried <==> draw == 1,
        gene_for_draw(draw) == PandaGene::Playful <==> draw == 2,
        gene_for_draw(draw) == PandaGene::Aggressive <==> draw == 4,
        gene_for_draw(draw) == PandaGene::Normal <==> draw >= 11,
{
}

/// A weak panda can have ten health, a lazy one is slow, and the others are as pandas are.
pub proof fn law_genes_shape_the_body(kind: PandaGene)
    ensures
        kind == PandaGene::Weak ==> body_effects(kind) == seq![Effect::SetMaxHealth(10)],
        kind == PandaGene::Lazy ==> body_effects(kind) == seq![Effect::SetMovementSpeed(70)],
        kind != PandaGene::Weak && kind != PandaGene::Lazy ==> body_effects(kind).len() == 0,
{
}

/// A gene that is not known yet is drawn, and a known one is kept.
pub proof fn law_known_genes_are_kept(id: u8, draw: int)
    ensures
        id == 255 ==> first_gene(id, draw) == gene_for_draw(draw),
        id != 255 ==> first_gene(id, draw) == gene_of_id(id),
{
}

/// In a tick a panda worries first, then gets over its unhappiness, sneezes, rolls, sits and eats,
/// each as the step before has left it; what the steps ask for is asked for in that order.
pub proof fn law_order_of_a_pandas_tick(p: PandaEntity, seen: PandaTick, draws: PandaDraws)
    ensures
        ({
            let a = worry_step(p, seen);
            let b = unhappy_step(relieved(a.panda, seen), seen);
            let c = sneeze_step(b.panda, seen.mob_drops, draws.gift as int);
            let d = roll_step(c.panda);
            let e = eating_step(
                d.panda,
                seen.thundering,
                draws.start_eating as int,
                draws.stop_eating as int,
            );
            &&& panda_ticked(p, seen, draws).panda == e.panda
            &&& panda_ticked(p, seen, draws).effects == a.effects + b.effects + c.effects
                + d.effects + sit_step(d.panda).effects + e.effects
            &&& has_flag(d.panda.flags, 8) ==> sit_step(d.panda).effects == seq![Effect::LevelHead]
            &&& !has_flag(d.panda.flags, 8) ==> sit_step(d.panda).effects.len() == 0
        }),
{
}

/// The numbers and names of genes.
pub proof fn law_names_of_genes(gene: PandaGene)
    ensures
        gene == PandaGene::Normal <==> gene_id(gene) == 0,
        gene == PandaGene::Lazy <==> gene_id(gene) == 1,
        gene == PandaGene::Worried <==> gene_id(gene) == 2,
        gene == PandaGene::Playful <==> gene_id(gene) == 3,
        gene == PandaGene::Brown <==> gene_id(gene) == 4,
        gene == PandaGene::Weak <==> gene_id(gene) == 5,
        gene == PandaGene::Aggressive <==> gene_id(gene) == 6,
        gene == PandaGene::Normal ==> gene_name(gene) == "normal"@,
        gene == PandaGene::Lazy ==> gene_name(gene) == "lazy"@,
        gene == PandaGene::Worried ==> gene_name(gene) == "worried"@,
        gene == PandaGene::Playful ==> gene_name(gene) == "playful"@,
        gene == PandaGene::Brown ==> gene_name(gene) == "brown"@,
        gene == PandaGene::Weak ==> gene_name(gene) == "weak"@,
        gene == PandaGene::Aggressive ==> gene_name(gene) == "aggressive"@,
{
}

/// Bamboo and cake are what pandas pick up, and nothing else.
pub proof fn law_what_pandas_pick_up(item: Item)
    ensures
        eats_from_ground(item) <==> item == Item::Bamboo || item == Item::Cake,
{
}

/// What pandas pursue, and how urgently: this and nothing else.
pub proof fn law_what_pandas_pursue(e: GoalEntry)
    ensures
        panda_goals().contains(e) <==> {
            ||| e.priority == 0 && e.goal == Goal::Swim
            ||| e.priority == 2 && e.goal == (Goal::PandaPanic { speed: 2000 })
            ||| e.priority == 2 && e.goal == (Goal::PandaBreed { speed: 1000 })
            ||| e.priority == 3 && e.goal == (Goal::PandaAttack { speed: 1200, pause_when_idle: true })
            ||| e.priority == 4 && e.goal == (Goal::Tempt { speed: 1000, items: Diet::Panda, scared: false })
            ||| e.priority == 6 && e.goal == (Goal::PandaAvoidPlayer { distance: 8000, slow_speed: 2000, fast_speed: 2000 })
            ||| e.priority == 6 && e.goal == (Goal::PandaAvoidMonsters { distance: 4000, slow_speed: 2000, fast_speed: 2000 })
            ||| e.priority == 7 && e.goal == Goal::PandaSit
            ||| e.priority == 8 && e.goal == Goal::PandaLieOnBack
            ||| e.priority == 8 && e.goal == Goal::PandaSneeze
            ||| e.priority == 9 && e.goal == (Goal::PandaLookAtPlayer { range: 6000 })
            ||| e.priority == 10 && e.goal == Goal::LookAround
            ||| e.priority == 12 && e.goal == Goal::PandaRoll
            ||| e.priority == 13 && e.goal == (Goal::FollowParent { speed: 1250 })
            ||| e.priority == 14 && e.goal == (Goal::WanderAvoidingWater { speed: 1000 })
        },
        panda_goals().len() == 15,
{
    let all = panda_goals();
    assert(all[0] == (GoalEntry { priority: 0, goal: Goal::Swim }));
    assert(all[1] == (GoalEntry { priority: 2, goal: Goal::PandaPanic { speed: 2000 } }));
    assert(all[2] == (GoalEntry { priority: 2, goal: Goal::PandaBreed { speed: 1000 } }));
    assert(all[3] == (GoalEntry { priority: 3, goal: Goal::PandaAttack { speed: 1200, pause_when_idle: true } }));
    assert(all[4] == (GoalEntry { priority: 4, goal: Goal::Tempt { speed: 1000, items: Diet::Panda, scared: false } }));
    assert(all[5] == (GoalEntry { priority: 6, goal: Goal::PandaAvoidPlayer { distance: 8000, slow_speed: 2000, fast_speed: 2000 } }));
    assert(all[6] == (GoalEntry { priority: 6, goal: Goal::PandaAvoidMonsters { distance: 4000, slow_speed: 2000, fast_speed: 2000 } }));
    assert(all[7] == (GoalEntry { priority: 7, goal: Goal::PandaSit }));
    assert(all[8] == (GoalEntry { priority: 8, goal: Goal::PandaLieOnBack }));
    assert(all[9] == (GoalEntry { priority: 8, goal: Goal::PandaSneeze }));
    assert(all[10] == (GoalEntry { priority: 9, goal: Goal::PandaLookAtPlayer { range: 6000 } }));
    assert(all[11] == (GoalEntry { priority: 10, goal: Goal::LookAround }));
    assert(all[12] == (GoalEntry { priority: 12, goal: Goal::PandaRoll }));
    assert(all[13] == (GoalEntry { priority: 13, goal: Goal::FollowParent { speed: 1250 } }));
    assert(all[14] == (GoalEntry { priority: 14, goal: Goal::WanderAvoidingWater { speed: 1000 } }));
}

/// A gene that was saved under no known name, or not at all, is the normal one.
pub proof fn law_unsaved_genes_are_normal(nbt: Map<Seq<char>, NbtValue>, name: Seq<char>)
    ensures
        text_at(nbt, name) is None ==> restored_gene(nbt, name) == PandaGene::Normal,
        text_at(nbt, name) is Some ==> restored_gene(nbt, name) == gene_of_name(text_at(nbt, name)->0),
{
}

/// A new panda tells its genes, the shown one first, then whether it is a cub, and at last its
/// flags.
pub proof fn law_what_new_pandas_tell(p: PandaEntity, main: PandaGene, hidden: PandaGene)
    ensures
        init_effects(p, main, hidden)[0] == Effect::Sync(
            SyncedValue::PandaMainGene(gene_id(main) as i8),
        ),
        init_effects(p, main, hidden)[1] == Effect::Sync(
            SyncedValue::PandaHiddenGene(gene_id(hidden) as i8),
        ),
        init_effects(p, main, hidden).last() == panda_flags_sync(p.flags),
        init_effects(p, main, hidden).len() == 3 + body_effects(expressed(main, hidden)).len() + (
        if p.mob_entity.age < 0 {
            1int
        } else {
            0
        }),
{
}

/// What is told of a cub's genes at last is what it has.
pub proof fn law_what_new_cubs_tell(
    first: PandaEntity,
    second: Option<&PandaEntity>,
    draws: GeneDraws,
)
    ensures
        ({
            let told = cub_effects(first, second, draws);
            let cub = cub_genes(first, second, draws);
            &&& draws.mutate_main == 0 ==> told[2] == Effect::Sync(
                SyncedValue::PandaMainGene(gene_id(cub.0) as i8),
            )
            &&& draws.mutate_main != 0 ==> told[0] == Effect::Sync(
                SyncedValue::PandaMainGene(gene_id(cub.0) as i8),
            )
            &&& draws.mutate_hidden == 0 ==> told.last() == Effect::Sync(
                SyncedValue::PandaHiddenGene(gene_id(cub.1) as i8),
            )
            &&& draws.mutate_hidden != 0 ==> told[1] == Effect::Sync(
                SyncedValue::PandaHiddenGene(gene_id(cub.1) as i8),
            )
            &&& told.len() == 2 + (if draws.mutate_main == 0 { 1int } else { 0 }) + (
            if draws.mutate_hidden == 0 {
                1int
            } else {
                0
            })
        }),
{
}

/// Bamboo makes a cub grow and a grown panda that is ready fall in love.
pub proof fn law_what_feeding_a_panda_does(mob: MobEntity, breeding_ready: bool)
    ensures
        grows(mob, panda_feeding(breeding_ready)) <==> mob.age < 0,
        falls_in_love(mob, panda_feeding(breeding_ready)) <==> breeding_ready && mob.age >= 0
            && mob.love_ticks <= 0,
        panda_feeding(breeding_ready).sound == Sound::PandaAmbient,
{
}

/// A player can turn a panda over or feed it unless it cowers; one on its back takes no food.
pub proof fn law_how_pandas_let_players_at_them(p: PandaEntity, thundering: bool, food: bool)
    ensures
        p.scared(thundering) ==> keeps_away(p, thundering, food) && !is_turned_over(p, thundering),
        !p.scared(thundering) && has_flag(p.flags, 16) ==> is_turned_over(p, thundering)
            && !keeps_away(p, thundering, food),
        !p.scared(thundering) && !has_flag(p.flags, 16) ==> !is_turned_over(p, thundering) && (
        keeps_away(p, thundering, food) <==> !food),
{
}

/// A grown panda on land that does not sit yet sits down to eat.
pub proof fn law_when_pandas_sit_down_to_eat(p: PandaEntity, in_water: bool)
    ensures
        !sits_down_to_eat(p, in_water) <==> p.mob_entity.age < 0 || has_flag(p.flags, 8) || in_water,
{
}

/// A panda that sits down to eat holds one piece, has begun its meal, and drops what it held,
/// unless the player is creative.
pub proof fn law_what_pandas_sit_down_with(p: PandaEntity, item: Item, gamemode: GameMode)
    ensures
        ({
            let after = sat_down_with(p, item);
            let told = sitting_down_effects(p, item, gamemode);
            &&& has_flag(after.flags, 8)
            &&& after.eat_counter == 1
            &&& after.held == (ItemStack { item, count: 1 })
            &&& after.hand_occupied == !after.held.holds_nothing()
            &&& after.mob_entity == p.mob_entity
            &&& after.got_bamboo == p.got_bamboo
            &&& told[0] == Effect::StopNavigation
            &&& told[1] == panda_flags_sync(after.flags)
            &&& told[2] == eat_sync(1)
            &&& told.last() == Effect::Hold(after.held)
            &&& told.len() == 5 <==> !p.held.holds_nothing() && gamemode != GameMode::Creative
            &&& told.len() == 4 <==> p.held.holds_nothing() || gamemode == GameMode::Creative
            &&& told.len() == 5 ==> told[3] == Effect::Drop(p.held)
        }),
{
    law_flag_reads_back(p.flags, 8, true);
}

/// A panda with a free hand picks up what pandas eat, and nothing else.
pub proof fn law_pandas_pick_up_with_free_hands(p: PandaEntity, item: Item, in_world: bool)
    ensures
        picks_up(p, item, in_world) ==> !p.hand_occupied && in_world && eats_from_ground(item),
        !p.hand_occupied && in_world && eats_from_ground(item) ==> picks_up(p, item, in_world),
{
}

/// A sneeze startles grown pandas on the ground, out of the water, that are free to act.
pub proof fn law_whom_sneezes_startle(
    p: PandaEntity,
    on_ground: bool,
    in_water: bool,
    thundering: bool,
)
    ensures
        !jumps_at_sneeze(p, on_ground, in_water, thundering) <==> p.mob_entity.age < 0 || !on_ground
            || in_water || !p.free_to_act(thundering),
{
}

/// What is drawn for a cub: each gene among sixteen, and each change once in thirty-two.
pub proof fn law_what_is_drawn_for_a_cub(draws: GeneDraws)
    ensures
        gene_draws_valid(draws) ==> draws.stranger <= 15 && draws.new_main <= 15 && draws.new_hidden <= 15
            && draws.mutate_main <= 31 && draws.mutate_hidden <= 31,
        0 <= draws.stranger <= 15 && 0 <= draws.new_main <= 15 && 0 <= draws.new_hidden <= 15 && 0
            <= draws.mutate_main <= 31 && 0 <= draws.mutate_hidden <= 31 ==> gene_draws_valid(draws),
{
}

} // verus!
