use tww_challenge::inventory::{
    adjust_left_index, adjust_right_index, item_id_for_slot, NO_X_ITEM, SLOT_BOMBS,
    SLOT_DEKU_LEAF, SLOT_DELIVERY_BAG, SLOT_TELESCOPE,
};
use tww_challenge::model::Item;

#[test]
fn left_index_first_row() {
    assert_eq!(adjust_left_index(0), 1);
    assert_eq!(adjust_left_index(1), 2);
    assert_eq!(adjust_left_index(2), 3);
    assert_eq!(adjust_left_index(3), 4);
}

#[test]
fn left_index_second_row() {
    assert_eq!(adjust_left_index(7), 5);
    assert_eq!(adjust_left_index(8), 6);
    assert_eq!(adjust_left_index(9), 7);
    assert_eq!(adjust_left_index(10), 8);
}

#[test]
fn left_index_others_are_zero() {
    assert_eq!(adjust_left_index(4), 0);
    assert_eq!(adjust_left_index(5), 0);
    assert_eq!(adjust_left_index(6), 0);
    assert_eq!(adjust_left_index(11), 0);
    assert_eq!(adjust_left_index(200), 0);
    assert_eq!(adjust_left_index(NO_X_ITEM), 0);
}

#[test]
fn right_index_maps_into_right_side() {
    let expected = [4u8, 5, 6, 11, 12, 13, 18, 19, 20];
    for i in 0..9u8 {
        assert_eq!(adjust_right_index(i), expected[i as usize]);
    }
    assert_eq!(adjust_right_index(243), 255);
}

#[test]
fn item_for_right_side_slots() {
    assert_eq!(item_id_for_slot(4), Item::SpoilsBag);
    assert_eq!(item_id_for_slot(5), Item::Boomerang);
    assert_eq!(item_id_for_slot(SLOT_DEKU_LEAF), Item::DekuLeaf);
    assert_eq!(item_id_for_slot(11), Item::BaitBag);
    assert_eq!(item_id_for_slot(12), Item::Bow);
    assert_eq!(item_id_for_slot(SLOT_BOMBS), Item::Bombs);
    assert_eq!(item_id_for_slot(SLOT_DELIVERY_BAG), Item::DeliveryBag);
    assert_eq!(item_id_for_slot(19), Item::Hookshot);
    assert_eq!(item_id_for_slot(20), Item::SkullHammer);
}

#[test]
fn item_for_other_slots_is_empty() {
    assert_eq!(item_id_for_slot(SLOT_TELESCOPE), Item::Empty);
    assert_eq!(item_id_for_slot(7), Item::Empty);
    assert_eq!(item_id_for_slot(14), Item::Empty);
    assert_eq!(item_id_for_slot(21), Item::Empty);
    assert_eq!(item_id_for_slot(255), Item::Empty);
}

#[test]
fn every_x_item_mirrors_into_a_real_item() {
    for x in 0..=255u8 {
        let slot = adjust_right_index(adjust_left_index(x));
        assert!(matches!(slot, 4 | 5 | 6 | 11 | 12 | 13 | 18 | 19 | 20));
        assert_ne!(item_id_for_slot(slot), Item::Empty);
    }
}

#[test]
fn mirror_slots_are_distinct() {
    let mut seen = Vec::new();
    for i in 0..9u8 {
        let slot = adjust_right_index(i);
        assert!(!seen.contains(&slot));
        seen.push(slot);
    }
}
