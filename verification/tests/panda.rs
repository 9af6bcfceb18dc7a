use passive_mobs::effect::{Effect, Interaction, Sound};
use passive_mobs::item::{GameMode, Item, ItemStack, Player};
use passive_mobs::nbt::NbtCompound;
use passive_mobs::panda::{GeneDraws, PandaEntity, PandaGene, PandaTick};

#[test]
fn get_random_bucket_layout() {
    let expected = [
        PandaGene::Lazy,
        PandaGene::Worried,
        PandaGene::Playful,
        PandaGene::Weak,
        PandaGene::Aggressive,
        PandaGene::Weak,
        PandaGene::Weak,
        PandaGene::Weak,
        PandaGene::Weak,
        PandaGene::Brown,
        PandaGene::Brown,
        PandaGene::Normal,
        PandaGene::Normal,
        PandaGene::Normal,
        PandaGene::Normal,
        PandaGene::Normal,
    ];
    for (roll, want) in expected.into_iter().enumerate() {
        assert_eq!(PandaGene::from_roll(roll as i32), want, "roll {roll} mapped wrong");
    }
}

#[test]
fn weak_is_five_sixteenths_and_brown_two() {
    let weak = (0..16).filter(|r| PandaGene::from_roll(*r) == PandaGene::Weak).count();
    let brown = (0..16).filter(|r| PandaGene::from_roll(*r) == PandaGene::Brown).count();
    assert_eq!(weak, 5);
    assert_eq!(brown, 2);
}

#[test]
fn only_brown_and_weak_are_recessive() {
    for gene in [
        PandaGene::Normal,
        PandaGene::Lazy,
        PandaGene::Worried,
        PandaGene::Playful,
        PandaGene::Aggressive,
    ] {
        assert!(!gene.is_recessive(), "{gene:?} should be dominant");
    }
    assert!(PandaGene::Brown.is_recessive());
    assert!(PandaGene::Weak.is_recessive());
}

#[test]
fn recessive_main_gene_needs_a_matching_hidden_gene() {
    assert_eq!(
        PandaGene::variant_from_genes(PandaGene::Brown, PandaGene::Brown),
        PandaGene::Brown
    );
    assert_eq!(
        PandaGene::variant_from_genes(PandaGene::Brown, PandaGene::Lazy),
        PandaGene::Normal
    );
    assert_eq!(
        PandaGene::variant_from_genes(PandaGene::Weak, PandaGene::Brown),
        PandaGene::Normal
    );
}

#[test]
fn dominant_main_gene_always_expresses() {
    assert_eq!(PandaGene::variant_from_genes(PandaGene::Lazy, PandaGene::Brown), PandaGene::Lazy);
    assert_eq!(
        PandaGene::variant_from_genes(PandaGene::Aggressive, PandaGene::Weak),
        PandaGene::Aggressive
    );
}

#[test]
fn id_and_name_round_trip_and_bad_input_falls_back_to_normal() {
    for gene in [
        PandaGene::Normal,
        PandaGene::Lazy,
        PandaGene::Worried,
        PandaGene::Playful,
        PandaGene::Brown,
        PandaGene::Weak,
        PandaGene::Aggressive,
    ] {
        assert_eq!(PandaGene::from_id(gene.id()), gene);
        assert_eq!(PandaGene::from_name(gene.name()), gene);
    }
    assert_eq!(PandaGene::from_id(7), PandaGene::Normal);
    assert_eq!(PandaGene::from_id(255), PandaGene::Normal);
    assert_eq!(PandaGene::from_name("nonsense"), PandaGene::Normal);
}

fn panda_of(main: PandaGene, hidden: PandaGene) -> PandaEntity {
    let mut effects = Vec::new();
    let mut panda = PandaEntity::new(0);
    panda.set_main_gene(main, &mut effects);
    panda.set_hidden_gene(hidden, &mut effects);
    panda
}

#[test]
fn a_cub_has_one_gene_of_each_parent() {
    let first = panda_of(PandaGene::Lazy, PandaGene::Brown);
    let second = panda_of(PandaGene::Playful, PandaGene::Weak);
    let mut cub = PandaEntity::new(-24000);
    let draws = GeneDraws {
        first_shows: true,
        first_main: false,
        second_main: true,
        stranger: 0,
        mutate_main: 1,
        mutate_hidden: 1,
        new_main: 0,
        new_hidden: 0,
    };
    let mut effects = Vec::new();
    cub.set_genes_with(&first, Some(&second), &draws, &mut effects);
    assert_eq!(cub.main_gene(), PandaGene::Brown);
    assert_eq!(cub.hidden_gene(), PandaGene::Playful);
    let genes = [PandaGene::Lazy, PandaGene::Brown, PandaGene::Playful, PandaGene::Weak];
    let mut of_parents = 0;
    for _ in 0..100 {
        cub.set_gene_from_parents(&first, Some(&second), &mut effects);
        if genes.contains(&cub.main_gene()) {
            of_parents += 1;
        }
    }
    assert!(of_parents > 50);
}

#[test]
fn a_saved_panda_comes_back() {
    let mut effects = Vec::new();
    let panda = panda_of(PandaGene::Worried, PandaGene::Brown);
    let mut nbt = NbtCompound::new();
    panda.write_nbt(&mut nbt);
    let mut other = PandaEntity::new(0);
    other.read_nbt(&nbt, &mut effects);
    assert_eq!(other.main_gene(), PandaGene::Worried);
    assert_eq!(other.hidden_gene(), PandaGene::Brown);
    assert!(other.is_worried());
}

#[test]
fn a_worried_panda_sits_through_a_thunderstorm() {
    let mut effects = Vec::new();
    let mut panda = panda_of(PandaGene::Worried, PandaGene::Normal);
    let seen = PandaTick { thundering: true, in_water: false, has_target: false, mob_drops: true };
    panda.mob_tick(&seen, &mut effects);
    assert!(panda.is_sitting_panda());
    assert!(!panda.is_eating());
    assert!(panda.is_scared_with(true));
    assert!(!panda.can_perform_action_with(false));
}

#[test]
fn busy_pandas_do_nothing_else() {
    let mut effects = Vec::new();
    let mut panda = panda_of(PandaGene::Normal, PandaGene::Normal);
    assert!(panda.can_perform_action_with(false));
    panda.set_on_back(true, &mut effects);
    assert!(!panda.can_perform_action_with(false));
    panda.set_on_back(false, &mut effects);
    panda.roll(true, &mut effects);
    assert!(!panda.can_perform_action_with(false));
    assert!(panda.is_rolling());
}

#[test]
fn a_panda_takes_bamboo() {
    let mut effects = Vec::new();
    let mut panda = panda_of(PandaGene::Normal, PandaGene::Normal);
    panda.mob_entity.set_love_ticks(10, None);
    let player = Player { id: 1, gamemode: GameMode::Survival, sneaking: false };
    let mut stack = ItemStack::new(3, Item::Bamboo);
    assert!(panda.is_food(&stack));
    let outcome = panda.take_bamboo(false, &player, &mut stack, &mut effects);
    assert_eq!(outcome, Interaction::Handled);
    assert_eq!(stack.count, 2);
    assert_eq!(panda.held_stack().item, Item::Bamboo);
    assert!(panda.is_sitting_panda());
}

#[test]
fn a_panda_that_bit_is_sated() {
    let mut effects = Vec::new();
    let mut panda = panda_of(PandaGene::Normal, PandaGene::Normal);
    assert!(!panda.did_bite());
    panda.on_successful_attack(&mut effects);
    assert!(effects.contains(&Effect::Play(Sound::PandaBite)));
    assert!(panda.did_bite());
    assert_eq!(panda.baby_dimensions().height, 62500);
}

#[test]
fn a_new_panda_draws_its_genes() {
    let mut effects = Vec::new();
    let mut panda = PandaEntity::new(0);
    panda.init_with_draws(0, 9, &mut effects);
    assert_eq!(panda.main_gene(), PandaGene::Lazy);
    assert_eq!(panda.hidden_gene(), PandaGene::Brown);
    panda.mob_init_data_tracker(&mut effects);
    assert_eq!(panda.main_gene(), PandaGene::Lazy);
}
