//! Items, stacks of them, and the lists of items that mobs eat or follow.

use vstd::prelude::*;

verus! {

/// The items that some rule of a mob names. Every other item is told apart by its number.
#[derive(Clone, Copy, PartialEq, Eq, Structural, Debug)]
pub enum Item {
    Air,
    Apple,
    Bamboo,
    Beetroot,
    BeetrootSeeds,
    Bucket,
    Cake,
    Carrot,
    CarrotOnAStick,
    Chest,
    Cod,
    Cookie,
    Dandelion,
    Egg,
    EnchantedGoldenApple,
    GlowBerries,
    GoldenApple,
    GoldenCarrot,
    GoldenDandelion,
    HayBlock,
    Honeycomb,
    IronIngot,
    MelonSeeds,
    MilkBucket,
    PitcherPod,
    Potato,
    PumpkinSeeds,
    RedMushroom,
    Salmon,
    SlimeBall,
    SnifferEgg,
    Snowball,
    Sugar,
    SweetBerries,
    TorchflowerSeeds,
    WarpedFungus,
    WarpedFungusOnAStick,
    Wheat,
    WheatSeeds,
    Other(u16),
}

/// A number of equal items.
#[derive(Clone, Copy, PartialEq, Eq, Structural, Debug)]
pub struct ItemStack {
    pub item: Item,
    pub count: u8,
}

/// The way a player plays.
#[derive(Clone, Copy, PartialEq, Eq, Structural, Debug)]
pub enum GameMode {
    Survival,
    Creative,
    Adventure,
    Spectator,
}

/// What an interaction reads of the player who starts it.
#[derive(Clone, Copy, PartialEq, Eq, Structural, Debug)]
pub struct Player {
    pub id: u128,
    pub gamemode: GameMode,
    pub sneaking: bool,
}

/// What is left of a stack once `amount` items were taken from it. Nothing is taken in
/// creative mode, and never more than there is.
pub open spec fn after_use(stack: ItemStack, gamemode: GameMode, amount: u8) -> ItemStack {
    if gamemode == GameMode::Creative {
        stack
    } else {
        ItemStack {
            item: stack.item,
            count: if stack.count < amount { 0 } else { (stack.count - amount) as u8 },
        }
    }
}

/// The stack without items.
pub open spec fn empty_stack() -> ItemStack {
    ItemStack { item: Item::Air, count: 0 }
}

impl ItemStack {
    pub fn new(count: u8, item: Item) -> (stack: Self)
        ensures
            stack == (ItemStack { item, count }),
    {
        ItemStack { item, count }
    }

    pub fn empty() -> (stack: Self)
        ensures
            stack == empty_stack(),
    {
        ItemStack { item: Item::Air, count: 0 }
    }

    /// Whether there is nothing in the stack.
    pub open spec fn holds_nothing(self) -> bool {
        self.count == 0 || self.item == Item::Air
    }

    pub fn is_empty(&self) -> (empty: bool)
        ensures
            empty == self.holds_nothing(),
    {
        self.count == 0 || self.item == Item::Air
    }

    /// Takes items from the stack unless the player is in creative mode.
    pub fn decrement_unless_creative(&mut self, gamemode: GameMode, amount: u8)
        ensures
            *final(self) == after_use(*old(self), gamemode, amount),
    {
        if gamemode != GameMode::Creative {
            self.count = if self.count < amount { 0 } else { self.count - amount };
        }
    }

    /// Takes items from the stack, never more than there are.
    pub fn decrement(&mut self, amount: u8)
        ensures
            *final(self) == after_use(*old(self), GameMode::Survival, amount),
    {
        self.count = if self.count < amount { 0 } else { self.count - amount };
    }

    /// Splits items off the stack; in creative mode they are copied instead.
    pub fn split_unless_creative(&mut self, gamemode: GameMode, amount: u8) -> (split: ItemStack)
        ensures
            *final(self) == after_use(*old(self), gamemode, amount),
            split == (ItemStack {
                item: old(self).item,
                count: if old(self).count < amount { old(self).count } else { amount },
            }),
    {
        let taken: u8 = if self.count < amount { self.count } else { amount };
        let split = ItemStack { item: self.item, count: taken };
        self.decrement_unless_creative(gamemode, amount);
        split
    }
}

/// A list of items that a mob follows, and for some mobs also eats.
#[derive(Clone, Copy, PartialEq, Eq, Structural, Debug)]
pub enum Diet {
    Cat,
    Chicken,
    Cow,
    Fox,
    Frog,
    Goat,
    HappyGhast,
    Horse,
    Llama,
    Panda,
    Pig,
    Rabbit,
    Sniffer,
    Strider,
}

/// The items of a list, in order.
pub open spec fn diet_items(diet: Diet) -> Seq<Item> {
    match diet {
        Diet::Cat => seq![Item::Cod, Item::Salmon],
        Diet::Chicken => seq![
            Item::WheatSeeds,
            Item::MelonSeeds,
            Item::PumpkinSeeds,
            Item::BeetrootSeeds,
            Item::TorchflowerSeeds,
            Item::PitcherPod,
        ],
        Diet::Cow => seq![Item::Wheat],
        Diet::Fox => seq![Item::SweetBerries, Item::GlowBerries],
        Diet::Frog => seq![Item::SlimeBall],
        Diet::Goat => seq![Item::Wheat],
        Diet::HappyGhast => seq![Item::Snowball],
        Diet::Horse => seq![Item::GoldenCarrot, Item::GoldenApple, Item::EnchantedGoldenApple],
        Diet::Llama => seq![Item::HayBlock],
        Diet::Panda => seq![Item::Bamboo],
        Diet::Pig => seq![Item::Carrot, Item::Potato, Item::Beetroot, Item::CarrotOnAStick],
        Diet::Rabbit => seq![Item::Carrot, Item::GoldenCarrot, Item::Dandelion],
        Diet::Sniffer => seq![Item::TorchflowerSeeds],
        Diet::Strider => seq![Item::WarpedFungus, Item::WarpedFungusOnAStick],
    }
}

impl Diet {
    /// The items of the list, in order.
    pub fn items(self) -> (items: Vec<Item>)
        ensures
            items@ == diet_items(self),
    {
        match self {
            Diet::Cat => vec![Item::Cod, Item::Salmon],
            Diet::Chicken => vec![
                Item::WheatSeeds,
                Item::MelonSeeds,
                Item::PumpkinSeeds,
                Item::BeetrootSeeds,
                Item::TorchflowerSeeds,
                Item::PitcherPod,
            ],
            Diet::Cow => vec![Item::Wheat],
            Diet::Fox => vec![Item::SweetBerries, Item::GlowBerries],
            Diet::Frog => vec![Item::SlimeBall],
            Diet::Goat => vec![Item::Wheat],
            Diet::HappyGhast => vec![Item::Snowball],
            Diet::Horse => vec![Item::GoldenCarrot, Item::GoldenApple, Item::EnchantedGoldenApple],
            Diet::Llama => vec![Item::HayBlock],
            Diet::Panda => vec![Item::Bamboo],
            Diet::Pig => vec![Item::Carrot, Item::Potato, Item::Beetroot, Item::CarrotOnAStick],
            Diet::Rabbit => vec![Item::Carrot, Item::GoldenCarrot, Item::Dandelion],
            Diet::Sniffer => vec![Item::TorchflowerSeeds],
            Diet::Strider => vec![Item::WarpedFungus, Item::WarpedFungusOnAStick],
        }
    }

    /// Whether an item is on the list.
    pub fn contains(self, item: Item) -> (found: bool)
        ensures
            found == diet_items(self).contains(item),
    {
        let items = self.items();
        let mut i: usize = 0;
        while i < items.len()
            invariant
                items@ == diet_items(self),
                i <= items.len(),
                forall|j: int| 0 <= j < i ==> items@[j] != item,
            decreases items.len() - i,
        {
            if items[i] == item {
                assert(diet_items(self)[i as int] == item);
                return true;
            }
            i = i + 1;
        }
        false
    }
}

/// What each animal is tempted by and bred with, and that it is nothing else.
pub proof fn law_diets(item: Item)
    ensures
        diet_items(Diet::Cat).contains(item) <==> item == Item::Cod || item == Item::Salmon,
        diet_items(Diet::Chicken).contains(item) <==> item == Item::WheatSeeds || item == Item::MelonSeeds || item == Item::PumpkinSeeds || item == Item::BeetrootSeeds || item == Item::TorchflowerSeeds || item == Item::PitcherPod,
        diet_items(Diet::Cow).contains(item) <==> item == Item::Wheat,
        diet_items(Diet::Fox).contains(item) <==> item == Item::SweetBerries || item == Item::GlowBerries,
        diet_items(Diet::Frog).contains(item) <==> item == Item::SlimeBall,
        diet_items(Diet::Goat).contains(item) <==> item == Item::Wheat,
        diet_items(Diet::HappyGhast).contains(item) <==> item == Item::Snowball,
        diet_items(Diet::Horse).contains(item) <==> item == Item::GoldenCarrot || item == Item::GoldenApple || item == Item::EnchantedGoldenApple,
        diet_items(Diet::Llama).contains(item) <==> item == Item::HayBlock,
        diet_items(Diet::Panda).contains(item) <==> item == Item::Bamboo,
        diet_items(Diet::Pig).contains(item) <==> item == Item::Carrot || item == Item::Potato || item == Item::Beetroot || item == Item::CarrotOnAStick,
        diet_items(Diet::Rabbit).contains(item) <==> item == Item::Carrot || item == Item::GoldenCarrot || item == Item::Dandelion,
        diet_items(Diet::Sniffer).contains(item) <==> item == Item::TorchflowerSeeds,
        diet_items(Diet::Strider).contains(item) <==> item == Item::WarpedFungus || item == Item::WarpedFungusOnAStick,
{
    assert(diet_items(Diet::Cat)[0] == Item::Cod);
    assert(diet_items(Diet::Cat)[1] == Item::Salmon);
    assert(diet_items(Diet::Chicken)[0] == Item::WheatSeeds);
    assert(diet_items(Diet::Chicken)[1] == Item::MelonSeeds);
    assert(diet_items(Diet::Chicken)[2] == Item::PumpkinSeeds);
    assert(diet_items(Diet::Chicken)[3] == Item::BeetrootSeeds);
    assert(diet_items(Diet::Chicken)[4] == Item::TorchflowerSeeds);
    assert(diet_items(Diet::Chicken)[5] == Item::PitcherPod);
    assert(diet_items(Diet::Cow)[0] == Item::Wheat);
    assert(diet_items(Diet::Fox)[0] == Item::SweetBerries);
    assert(diet_items(Diet::Fox)[1] == Item::GlowBerries);
    assert(diet_items(Diet::Frog)[0] == Item::SlimeBall);
    assert(diet_items(Diet::Goat)[0] == Item::Wheat);
    assert(diet_items(Diet::HappyGhast)[0] == Item::Snowball);
    assert(diet_items(Diet::Horse)[0] == Item::GoldenCarrot);
    assert(diet_items(Diet::Horse)[1] == Item::GoldenApple);
    assert(diet_items(Diet::Horse)[2] == Item::EnchantedGoldenApple);
    assert(diet_items(Diet::Llama)[0] == Item::HayBlock);
    assert(diet_items(Diet::Panda)[0] == Item::Bamboo);
    assert(diet_items(Diet::Pig)[0] == Item::Carrot);
    assert(diet_items(Diet::Pig)[1] == Item::Potato);
    assert(diet_items(Diet::Pig)[2] == Item::Beetroot);
    assert(diet_items(Diet::Pig)[3] == Item::CarrotOnAStick);
    assert(diet_items(Diet::Rabbit)[0] == Item::Carrot);
    assert(diet_items(Diet::Rabbit)[1] == Item::GoldenCarrot);
    assert(diet_items(Diet::Rabbit)[2] == Item::Dandelion);
    assert(diet_items(Diet::Sniffer)[0] == Item::TorchflowerSeeds);
    assert(diet_items(Diet::Strider)[0] == Item::WarpedFungus);
    assert(diet_items(Diet::Strider)[1] == Item::WarpedFungusOnAStick);
}

/// Using an item up takes as many as are used, but not more than there are; in creative mode it
/// takes none. The item itself stays what it is.
pub proof fn law_use_takes_what_is_used(stack: ItemStack, gamemode: GameMode, amount: u8)
    ensures
        after_use(stack, gamemode, amount).item == stack.item,
        gamemode == GameMode::Creative ==> after_use(stack, gamemode, amount).count == stack.count,
        gamemode != GameMode::Creative && amount <= stack.count ==> after_use(
            stack,
            gamemode,
            amount,
        ).count + amount == stack.count,
        gamemode != GameMode::Creative && amount > stack.count ==> after_use(
            stack,
            gamemode,
            amount,
        ).count == 0,
{
}

/// A stack holds something exactly if it has an item, and at least one of it.
pub proof fn law_stack_holds(stack: ItemStack)
    ensures
        stack.holds_nothing() <==> stack.count == 0 || stack.item == Item::Air,
        empty_stack().holds_nothing(),
{
}

} // verus!
