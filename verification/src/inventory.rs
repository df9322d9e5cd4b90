//! Inventory slots as they are stored and as they are sent.
//!
//! A stored slot carries a signed eight-bit position: the hotbar is `0..=8`,
//! the main inventory `9..=35`, the armor `100..=103` (feet first) and the
//! offhand `-106`. On the wire the same places are numbered by the player
//! window: armor `5..=8` (head first), main inventory `9..=35`, hotbar
//! `36..=44`, offhand `45`. [`InventorySlot::convert_index`] and
//! [`InventorySlot::from_network_index`] go from one numbering to the other
//! and are inverse to each other.
//!
//! A stored slot names its item by an identifier. Which identifiers name an
//! item is data: an [`ItemRegistry`] lists them, and an identifier that it
//! does not list is read as [`AIR`].

use vstd::prelude::*;

verus! {

/// Number of hotbar places.
pub const HOTBAR_SIZE: usize = 9;

/// Number of main inventory places.
pub const INVENTORY_SIZE: usize = 27;

/// First armor place of the player window (the head).
pub const SLOT_ARMOR_MIN: usize = 5;

/// Last armor place of the player window (the feet).
pub const SLOT_ARMOR_MAX: usize = 8;

pub const SLOT_ARMOR_HEAD: usize = 5;

pub const SLOT_ARMOR_CHEST: usize = 6;

pub const SLOT_ARMOR_LEGS: usize = 7;

pub const SLOT_ARMOR_FEET: usize = 8;

/// First main inventory place of the player window.
pub const SLOT_INVENTORY_OFFSET: usize = 9;

/// First hotbar place of the player window.
pub const SLOT_HOTBAR_OFFSET: usize = 36;

/// The offhand place of the player window.
pub const SLOT_OFFHAND: usize = 45;

/// Whether `slot` is a stored position: hotbar, main inventory, armor or
/// offhand.
pub open spec fn is_disk_slot(slot: int) -> bool {
    ||| 0 <= slot <= 8
    ||| 9 <= slot <= 35
    ||| 100 <= slot <= 103
    ||| slot == -106
}

/// Whether `index` is a place of the player window that is stored: armor,
/// main inventory, hotbar or offhand.
pub open spec fn is_network_slot(index: int) -> bool {
    ||| SLOT_ARMOR_MIN <= index <= SLOT_ARMOR_MAX
    ||| SLOT_INVENTORY_OFFSET <= index < SLOT_INVENTORY_OFFSET + INVENTORY_SIZE
    ||| SLOT_HOTBAR_OFFSET <= index < SLOT_HOTBAR_OFFSET + HOTBAR_SIZE
    ||| index == SLOT_OFFHAND
}

/// The place of the player window that the stored position `slot` stands for.
pub open spec fn disk_to_network(slot: int) -> Option<int> {
    if 0 <= slot <= 8 {
        Some(SLOT_HOTBAR_OFFSET + slot)
    } else if slot == -106 {
        Some(SLOT_OFFHAND as int)
    } else if 100 <= slot <= 103 {
        Some(108 - slot)
    } else if 9 <= slot <= 35 {
        Some(slot)
    } else {
        None
    }
}

/// The stored position of the place `index` of the player window.
pub open spec fn network_to_disk(index: int) -> Option<int> {
    if SLOT_HOTBAR_OFFSET <= index < SLOT_HOTBAR_OFFSET + HOTBAR_SIZE {
        Some(index - SLOT_HOTBAR_OFFSET)
    } else if index == SLOT_OFFHAND {
        Some(-106)
    } else if SLOT_ARMOR_MIN <= index <= SLOT_ARMOR_MAX {
        Some((SLOT_ARMOR_MAX - index) + 100)
    } else if SLOT_INVENTORY_OFFSET <= index < SLOT_INVENTORY_OFFSET + INVENTORY_SIZE {
        Some(index)
    } else {
        None
    }
}

/// The identifier of the item that stands for an empty place.
pub const AIR: &'static str = "minecraft:air";

/// The stack size that a stored count stands for: its eight bits read as
/// unsigned.
pub open spec fn amount_of_count(count: i8) -> u8 {
    if count >= 0 {
        count as u8
    } else {
        (count + 256) as u8
    }
}

/// The stored count of a stack size: its eight bits read as signed.
pub open spec fn count_of_amount(amount: u8) -> i8 {
    if amount < 128 {
        amount as i8
    } else {
        (amount - 256) as i8
    }
}

/// A kind of item, named by its namespaced identifier such as
/// `minecraft:feather`.
#[derive(Debug, Clone, PartialEq, Eq)]
pub struct Item {
    identifier: String,
}

impl View for Item {
    type V = Seq<char>;

    closed spec fn view(&self) -> Seq<char> {
        self.identifier@
    }
}

/// The identifiers that name an item. [`AIR`] always does.
#[derive(Debug, Clone)]
pub struct ItemRegistry {
    identifiers: Vec<String>,
}

impl View for ItemRegistry {
    type V = Set<Seq<char>>;

    closed spec fn view(&self) -> Set<Seq<char>> {
        Set::new(
            |name: Seq<char>|
                name == AIR@ || exists|i: int|
                    0 <= i < self.identifiers@.len() && (#[trigger] self.identifiers@[i])@ == name,
        )
    }
}

impl ItemRegistry {
    /// A registry that knows [`AIR`] alone.
    pub fn new() -> (registry: ItemRegistry)
        ensures
            registry@ == set![AIR@],
    {
        let registry = ItemRegistry { identifiers: Vec::new() };
        assert(registry@ =~= set![AIR@]);
        registry
    }

    /// Makes `identifier` the name of an item.
    pub fn register(&mut self, identifier: &str)
        ensures
            final(self)@ == old(self)@.insert(identifier@),
    {
        self.identifiers.push(identifier.to_owned());
        assert forall|name: Seq<char>| self@.contains(name) <==> old(self)@.insert(
            identifier@,
        ).contains(name) by {
            let n = old(self).identifiers@.len() as int;
            if old(self)@.contains(name) && name != AIR@ {
                let i = choose|i: int|
                    0 <= i < n && (#[trigger] old(self).identifiers@[i])@ == name;
                assert(self.identifiers@[i]@ == name);
            }
            if name == identifier@ {
                assert(self.identifiers@[n]@ == name);
            }
        }
        assert(self@ =~= old(self)@.insert(identifier@));
    }

    /// Whether `identifier` names an item.
    pub fn contains(&self, identifier: &str) -> (known: bool)
        ensures
            known == self@.contains(identifier@),
    {
        let wanted = identifier.to_owned();
        if wanted == AIR.to_owned() {
            return true;
        }
        let mut i: usize = 0;
        while i < self.identifiers.len()
            invariant
                i <= self.identifiers@.len(),
                wanted@ == identifier@,
                forall|j: int| 0 <= j < i ==> (#[trigger] self.identifiers@[j])@ != identifier@,
            decreases self.identifiers@.len() - i,
        {
            if self.identifiers[i] == wanted {
                return true;
            }
            i += 1;
        }
        false
    }
}

impl Item {
    /// The item that stands for an empty place.
    pub fn air() -> (item: Item)
        ensures
            item@ == AIR@,
    {
        Item { identifier: AIR.to_owned() }
    }

    /// The item that `identifier` names in `known`, if it names one.
    pub fn from_identifier(identifier: &str, known: &ItemRegistry) -> (item: Option<Item>)
        ensures
            item is Some <==> known@.contains(identifier@),
            item matches Some(found) ==> found@ == identifier@,
    {
        if known.contains(identifier) {
            Some(Item { identifier: identifier.to_owned() })
        } else {
            None
        }
    }

    /// The identifier that names this item.
    pub fn identifier(&self) -> (identifier: &str)
        ensures
            identifier@ == self@,
    {
        self.identifier.as_str()
    }
}

/// An item and how many of it.
#[derive(Debug, Clone, PartialEq, Eq)]
pub struct ItemStack {
    pub ty: Item,
    pub amount: u8,
}

/// What an [`ItemStack`] holds: the identifier of its item, and the amount.
pub struct ItemStackView {
    pub ty: Seq<char>,
    pub amount: u8,
}

impl View for ItemStack {
    type V = ItemStackView;

    open spec fn view(&self) -> ItemStackView {
        ItemStackView { ty: self.ty@, amount: self.amount }
    }
}

impl ItemStack {
    /// `amount` items of the kind `ty`.
    pub fn new(ty: Item, amount: u8) -> (stack: ItemStack)
        ensures
            stack.ty == ty,
            stack.amount == amount,
            stack@ == (ItemStackView { ty: ty@, amount }),
    {
        ItemStack { ty, amount }
    }
}

/// One place of a stored inventory: what lies there, and where.
#[derive(Debug, Clone, PartialEq, Eq)]
pub struct InventorySlot {
    pub count: i8,
    pub slot: i8,
    pub item: String,
}

/// What an [`InventorySlot`] holds.
pub struct InventorySlotView {
    pub count: i8,
    pub slot: i8,
    pub item: Seq<char>,
}

impl View for InventorySlot {
    type V = InventorySlotView;

    open spec fn view(&self) -> InventorySlotView {
        InventorySlotView { count: self.count, slot: self.slot, item: self.item@ }
    }
}

/// The stack that lies in `slot`, where `known` are the identifiers that
/// name an item: any other identifier is read as air, and the count is kept.
pub open spec fn stack_of(slot: InventorySlotView, known: Set<Seq<char>>) -> ItemStackView {
    ItemStackView {
        ty: if known.contains(slot.item) {
            slot.item
        } else {
            AIR@
        },
        amount: amount_of_count(slot.count),
    }
}

/// The stored place for `stack` at the place `index` of the player window,
/// if that place is stored.
pub open spec fn slot_of(index: int, stack: ItemStackView) -> Option<InventorySlotView> {
    match network_to_disk(index) {
        Some(slot) => Some(
            InventorySlotView {
                count: count_of_amount(stack.amount),
                slot: slot as i8,
                item: stack.ty,
            },
        ),
        None => None,
    }
}

impl Default for InventorySlot {
    fn default() -> (slot: InventorySlot)
        ensures
            slot.count == 0,
            slot.slot == 0,
            slot.item@ == Seq::<char>::empty(),
    {
        InventorySlot { count: 0, slot: 0, item: String::new() }
    }
}

impl InventorySlot {
    /// Whether the position is one of the four stored ranges.
    pub open spec fn well_placed(&self) -> bool {
        is_disk_slot(self.slot as int)
    }

    /// The stack that lies in this place. An identifier that names no item
    /// of `known` gives air; the count is kept.
    pub fn to_stack(&self, known: &ItemRegistry) -> (stack: ItemStack)
        ensures
            stack@ == stack_of(self@, known@),
    {
        let ty = match Item::from_identifier(self.item.as_str(), known) {
            Some(item) => item,
            None => Item::air(),
        };
        let count = self.count;
        assert(count as u8 == amount_of_count(count)) by (bit_vector);
        ItemStack { ty, amount: count as u8 }
    }

    /// The stored place for `stack` at the place `network` of the player
    /// window, or `None` where that place is not stored.
    pub fn from_network_index(network: usize, stack: ItemStack) -> (slot: Option<InventorySlot>)
        ensures
            slot is Some <==> is_network_slot(network as int),
            match slot {
                Some(s) => slot_of(network as int, stack@) == Some(s@) && s.well_placed(),
                None => slot_of(network as int, stack@) is None,
            },
    {
        let slot: i8 = if SLOT_HOTBAR_OFFSET <= network && network < SLOT_HOTBAR_OFFSET
            + HOTBAR_SIZE {
            (network - SLOT_HOTBAR_OFFSET) as i8
        } else if network == SLOT_OFFHAND {
            -106
        } else if SLOT_ARMOR_MIN <= network && network <= SLOT_ARMOR_MAX {
            ((SLOT_ARMOR_MAX - network) + 100) as i8
        } else if SLOT_INVENTORY_OFFSET <= network && network < SLOT_INVENTORY_OFFSET
            + INVENTORY_SIZE {
            network as i8
        } else {
            return None;
        };
        let amount = stack.amount;
        assert(amount as i8 == count_of_amount(amount)) by (bit_vector);
        Some(InventorySlot { count: amount as i8, slot, item: stack.ty.identifier().to_owned() })
    }

    /// The place of the player window that this stored place stands for,
    /// or `None` where its position is none of the four stored ranges.
    pub fn convert_index(&self) -> (index: Option<usize>)
        ensures
            index is Some <==> self.well_placed(),
            match index {
                Some(i) => disk_to_network(self.slot as int) == Some(i as int),
                None => disk_to_network(self.slot as int) is None,
            },
    {
        if 0 <= self.slot && self.slot <= 8 {
            Some(SLOT_HOTBAR_OFFSET + (self.slot as usize))
        } else if self.slot == -106 {
            Some(SLOT_OFFHAND)
        } else if 100 <= self.slot && self.slot <= 103 {
            Some((108 - self.slot) as usize)
        } else if 9 <= self.slot && self.slot <= 35 {
            Some(self.slot as usize)
        } else {
            None
        }
    }
}

/// A stored position that is sent and stored again is unchanged: every
/// stored position has a place in the player window, and that place leads
/// back to it.
pub proof fn lemma_disk_slot_round_trip(slot: int)
    requires
        is_disk_slot(slot),
    ensures
        disk_to_network(slot) is Some,
        is_network_slot(disk_to_network(slot).unwrap()),
        network_to_disk(disk_to_network(slot).unwrap()) == Some(slot),
{
}

/// A place of the player window that is stored and sent again is unchanged.
pub proof fn lemma_network_slot_round_trip(index: int)
    requires
        is_network_slot(index),
    ensures
        network_to_disk(index) is Some,
        is_disk_slot(network_to_disk(index).unwrap()),
        disk_to_network(network_to_disk(index).unwrap()) == Some(index),
{
}

/// A stored place that is sent and stored again is unchanged, where its
/// position is a stored position and its identifier names an item: the
/// place has a place in the player window, and the stack that lies in it,
/// put at that place, is the stored place again.
pub proof fn lemma_stored_slot_round_trip(slot: InventorySlotView, known: Set<Seq<char>>)
    requires
        is_disk_slot(slot.slot as int),
        known.contains(slot.item),
    ensures
        disk_to_network(slot.slot as int) matches Some(index) && slot_of(
            index,
            stack_of(slot, known),
        ) == Some(slot),
{
}

/// A stack that is stored and read again is unchanged, where its place in
/// the player window is stored and its item is known.
pub proof fn lemma_sent_stack_round_trip(index: int, stack: ItemStackView, known: Set<Seq<char>>)
    requires
        is_network_slot(index),
        known.contains(stack.ty),
    ensures
        slot_of(index, stack) matches Some(slot) && stack_of(slot, known) == stack
            && disk_to_network(slot.slot as int) == Some(index),
{
}

/// A count that is read as a stack size and stored again is unchanged, and
/// so is a stack size that is stored and read again.
pub proof fn lemma_count_round_trip(count: i8, amount: u8)
    ensures
        count_of_amount(amount_of_count(count)) == count,
        amount_of_count(count_of_amount(amount)) == amount,
{
}

/// Exactly the stored positions have a place in the player window, and
/// exactly its stored places have a stored position.
pub proof fn lemma_slot_domains(slot: int, index: int)
    ensures
        disk_to_network(slot) is Some <==> is_disk_slot(slot),
        network_to_disk(index) is Some <==> is_network_slot(index),
{
}

} // verus!
