use vstd::prelude::*;

use crate::model::Item;

verus! {

/// The index the game keeps for the item on X when nothing is equipped there.
pub const NO_X_ITEM: u8 = 255;

/// Maps the game's index of the item equipped on X to an index from 0 to 8.
///
/// The first four slots of the left page (indices 0 to 3) become 1 to 4, and
/// the four slots of the second row (7 to 10) become 5 to 8. Anything else,
/// including the empty equip slot, becomes 0.
pub open spec fn spec_adjust_left_index(index: u8) -> u8 {
    if index != NO_X_ITEM && index < 4 {
        (index + 1) as u8
    } else if index != NO_X_ITEM && 7 <= index && index < 11 {
        (index - 2) as u8
    } else {
        0
    }
}

/// Maps an index from 0 to 8 to an inventory slot on the right side of the
/// inventory: 0..=2 to 4..=6, 3..=5 to 11..=13, and 6.. to 18...
pub open spec fn spec_adjust_right_index(index: u8) -> int {
    if index < 3 {
        index + 4
    } else if index < 6 {
        index + 8
    } else {
        index + 12
    }
}

/// Adjusts the inventory index of the left side of the inventory so that it
/// ranges from 1 to 8, with 0 for every index that is not such an item.
pub fn adjust_left_index(index: u8) -> (adjusted: u8)
    ensures
        adjusted == spec_adjust_left_index(index),
        adjusted <= 8,
{
    let mut adjusted: u8 = 0;
    if index != NO_X_ITEM {
        if index < 4 {
            adjusted = index + 1;
        } else if index >= 7 && index < 11 {
            adjusted = index - 2;
        }
    }
    adjusted
}

/// Adjusts an index from 0 to 8 so that it names a slot on the right side of
/// the inventory.
pub fn adjust_right_index(index: u8) -> (slot: u8)
    requires
        index <= 243,
    ensures
        slot == spec_adjust_right_index(index),
{
    if index < 3 {
        index + 4
    } else if index < 6 {
        index + 8
    } else {
        index + 12
    }
}


/// Inventory slot of the telescope.
pub const SLOT_TELESCOPE: u8 = 0;
/// Inventory slot of the sail.
pub const SLOT_SAIL: u8 = 1;
/// Inventory slot of the Wind Waker.
pub const SLOT_WIND_WAKER: u8 = 2;
/// Inventory slot of the grappling hook.
pub const SLOT_GRAPPLING_HOOK: u8 = 3;
/// Inventory slot of the spoils bag.
pub const SLOT_SPOILS_BAG: u8 = 4;
/// Inventory slot of the boomerang.
pub const SLOT_BOOMERANG: u8 = 5;
/// Inventory slot of the Deku leaf.
pub const SLOT_DEKU_LEAF: u8 = 6;
/// Inventory slot of the Tingle tuner.
pub const SLOT_TINGLE_TUNER: u8 = 7;
/// Inventory slot of the picto box.
pub const SLOT_PICTO_BOX: u8 = 8;
/// Inventory slot of the iron boots.
pub const SLOT_IRON_BOOTS: u8 = 9;
/// Inventory slot of the magic armor.
pub const SLOT_MAGIC_ARMOR: u8 = 10;
/// Inventory slot of the bait bag.
pub const SLOT_BAIT_BAG: u8 = 11;
/// Inventory slot of the bow.
pub const SLOT_BOW: u8 = 12;
/// Inventory slot of the bombs.
pub const SLOT_BOMBS: u8 = 13;
/// Inventory slot of the delivery bag.
pub const SLOT_DELIVERY_BAG: u8 = 18;
/// Inventory slot of the hookshot.
pub const SLOT_HOOKSHOT: u8 = 19;
/// Inventory slot of the skull hammer.
pub const SLOT_SKULL_HAMMER: u8 = 20;

/// The item that belongs in an inventory slot on the right side of the
/// inventory; `Empty` for every other slot.
pub open spec fn spec_item_for_slot(index: u8) -> Item {
    if index == 4 {
        Item::SpoilsBag
    } else if index == 5 {
        Item::Boomerang
    } else if index == 6 {
        Item::DekuLeaf
    } else if index == 11 {
        Item::BaitBag
    } else if index == 12 {
        Item::Bow
    } else if index == 13 {
        Item::Bombs
    } else if index == 18 {
        Item::DeliveryBag
    } else if index == 19 {
        Item::Hookshot
    } else if index == 20 {
        Item::SkullHammer
    } else {
        Item::Empty
    }
}

/// The slots on the right side of the inventory that the item on X can be
/// mirrored into.
pub open spec fn is_right_side_slot(slot: int) -> bool {
    slot == 4 || slot == 5 || slot == 6 || slot == 11 || slot == 12 || slot == 13
        || slot == 18 || slot == 19 || slot == 20
}

/// The item that belongs in inventory slot `index`.
pub fn item_id_for_slot(index: u8) -> (item: Item)
    ensures
        item == spec_item_for_slot(index),
{
    match index {
        4 => Item::SpoilsBag,
        5 => Item::Boomerang,
        6 => Item::DekuLeaf,
        11 => Item::BaitBag,
        12 => Item::Bow,
        13 => Item::Bombs,
        18 => Item::DeliveryBag,
        19 => Item::Hookshot,
        20 => Item::SkullHammer,
        _ => Item::Empty,
    }
}

/// Whatever is equipped on X, the slot it is mirrored into is a slot on the
/// right side of the inventory, and the item that belongs there is a real
/// item: the challenge never mirrors X into an empty slot.
pub proof fn lemma_x_item_lands_on_right_side(x_index: u8)
    ensures
        is_right_side_slot(spec_adjust_right_index(spec_adjust_left_index(x_index))),
        spec_item_for_slot(spec_adjust_right_index(spec_adjust_left_index(x_index)) as u8)
            != Item::Empty,
{
}

/// Exactly the slots on the right side of the inventory hold an item of their own.
pub proof fn lemma_item_for_slot_exactly_right_side(slot: u8)
    ensures
        is_right_side_slot(slot as int) <==> spec_item_for_slot(slot) != Item::Empty,
{
}

/// Different left-side indices are mirrored into different right-side slots.
pub proof fn lemma_adjust_right_index_injective(a: u8, b: u8)
    requires
        a <= 8,
        b <= 8,
        spec_adjust_right_index(a) == spec_adjust_right_index(b),
    ensures
        a == b,
{
}

/// Every right-side slot is reached from some index from 0 to 8.
pub proof fn lemma_adjust_right_index_onto(slot: int)
    requires
        is_right_side_slot(slot),
    ensures
        exists|i: u8| i <= 8 && spec_adjust_right_index(i) == slot,
{
    if slot < 7 {
        assert(spec_adjust_right_index((slot - 4) as u8) == slot);
    } else if slot < 14 {
        assert(spec_adjust_right_index((slot - 8) as u8) == slot);
    } else {
        assert(spec_adjust_right_index((slot - 12) as u8) == slot);
    }
}

/// An equipped item on X in the first row or the second row of the left page
/// gets an index from 1 to 8; everything else gets 0.
pub proof fn lemma_adjust_left_index_nonzero(index: u8)
    ensures
        spec_adjust_left_index(index) != 0 <==> (index < 4 || (7 <= index && index < 11)),
{
}

/// The left page's first row keeps its order from 1 to 4 and its second row
/// from 5 to 8: consecutive slots get consecutive indices.
pub proof fn lemma_adjust_left_index_order(index: u8)
    ensures
        index < 3 ==> spec_adjust_left_index((index + 1) as u8) == spec_adjust_left_index(index) + 1,
        7 <= index < 10 ==> spec_adjust_left_index((index + 1) as u8) == spec_adjust_left_index(
            index,
        ) + 1,
        spec_adjust_left_index(0) == 1,
        spec_adjust_left_index(7) == 5,
{
}

/// The nine indices fill the right side row by row, three per row: 0..=2 the
/// slots 4..=6, 3..=5 the slots 11..=13 and 6..=8 the slots 18..=20.
pub proof fn lemma_adjust_right_index_rows(index: u8)
    requires
        index <= 8,
    ensures
        index < 3 ==> 4 <= spec_adjust_right_index(index) <= 6,
        3 <= index < 6 ==> 11 <= spec_adjust_right_index(index) <= 13,
        6 <= index ==> 18 <= spec_adjust_right_index(index) <= 20,
        index < 8 && index != 2 && index != 5 ==> spec_adjust_right_index((index + 1) as u8)
            == spec_adjust_right_index(index) + 1,
{
}

} // verus!
