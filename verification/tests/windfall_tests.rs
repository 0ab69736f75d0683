use tww_challenge::model::{Effect, FlowerSpot, Item};
use tww_challenge::windfall::{
    reset_flowers, rupees_from_flowers, set_rupees, set_rupees_from_flowers, Flowers, RupeeMeter,
};

fn no_flowers() -> Flowers {
    Flowers {
        shop_left: 0,
        bench_bush: 0,
        bench_tree: 0,
        bench_stone: 0,
        platform_right: 0,
        shop_right: 0,
        platform_left: 0,
        alley_tree: 0,
        gate_center_left: 0,
        gate_left_left: 0,
        gate_left_right: 0,
        gate_center_right: 0,
        gate_right_right: 0,
        gate_right_left: 0,
    }
}

fn all_flowers() -> Flowers {
    Flowers {
        shop_left: 1,
        bench_bush: 1,
        bench_tree: 1,
        bench_stone: 1,
        platform_right: 1,
        shop_right: 1,
        platform_left: 1,
        alley_tree: 1,
        gate_center_left: 1,
        gate_left_left: 1,
        gate_left_right: 1,
        gate_center_right: 1,
        gate_right_right: 1,
        gate_right_left: 1,
    }
}

#[test]
fn no_flowers_no_rupees() {
    assert_eq!(rupees_from_flowers(&no_flowers()), 0);
}

#[test]
fn all_flowers_are_worth_281() {
    assert_eq!(rupees_from_flowers(&all_flowers()), 281);
}

#[test]
fn each_spot_has_its_prime() {
    let spots: [(fn(&mut Flowers), u16); 14] = [
        (|f| f.bench_bush = 1, 2),
        (|f| f.bench_stone = 1, 3),
        (|f| f.bench_tree = 1, 5),
        (|f| f.shop_left = 1, 7),
        (|f| f.shop_right = 1, 11),
        (|f| f.platform_left = 1, 13),
        (|f| f.platform_right = 1, 17),
        (|f| f.alley_tree = 1, 19),
        (|f| f.gate_right_right = 1, 23),
        (|f| f.gate_right_left = 1, 29),
        (|f| f.gate_center_right = 1, 31),
        (|f| f.gate_center_left = 1, 37),
        (|f| f.gate_left_right = 1, 41),
        (|f| f.gate_left_left = 1, 43),
    ];
    for (place, worth) in spots.iter() {
        let mut f = no_flowers();
        place(&mut f);
        assert_eq!(rupees_from_flowers(&f), *worth);
    }
}

#[test]
fn many_flowers_on_one_spot_count_once() {
    let mut f = no_flowers();
    f.alley_tree = 5;
    assert_eq!(rupees_from_flowers(&f), 19);
}

#[test]
fn a_hundred_rupee_arrangement() {
    let mut f = no_flowers();
    f.gate_left_left = 1;
    f.gate_left_right = 1;
    f.platform_left = 1;
    f.bench_stone = 1;
    assert_eq!(rupees_from_flowers(&f), 100);
}

#[test]
fn set_rupees_moves_the_difference() {
    let mut meter = RupeeMeter { rupees: 50, rupees_left: 1000 };
    set_rupees(&mut meter, 80);
    assert_eq!(meter, RupeeMeter { rupees: 80, rupees_left: 1030 });
    set_rupees(&mut meter, 10);
    assert_eq!(meter, RupeeMeter { rupees: 10, rupees_left: 960 });
}

#[test]
fn set_rupees_keeps_left_minus_rupees() {
    let mut meter = RupeeMeter { rupees: 250, rupees_left: -7 };
    let before = meter.rupees_left as i64 - meter.rupees as i64;
    set_rupees(&mut meter, 3);
    assert_eq!(meter.rupees_left as i64 - meter.rupees as i64, before);
    assert_eq!(meter.rupees, 3);
}

#[test]
fn set_rupees_to_same_amount_changes_nothing() {
    let mut meter = RupeeMeter { rupees: 42, rupees_left: 12 };
    set_rupees(&mut meter, 42);
    assert_eq!(meter, RupeeMeter { rupees: 42, rupees_left: 12 });
}

#[test]
fn rupees_from_placed_flowers() {
    let mut f = no_flowers();
    f.bench_bush = 2;
    f.gate_left_left = 1;
    let mut meter = RupeeMeter { rupees: 0, rupees_left: 0 };
    set_rupees_from_flowers(&f, &mut meter);
    assert_eq!(meter, RupeeMeter { rupees: 45, rupees_left: 45 });
}

#[test]
fn reset_flowers_clears_spots_then_fills_bag() {
    let effects = reset_flowers();
    assert_eq!(effects.len(), 22);
    let spots = [
        FlowerSpot::ShopLeft,
        FlowerSpot::BenchBush,
        FlowerSpot::BenchTree,
        FlowerSpot::BenchStone,
        FlowerSpot::PlatformRight,
        FlowerSpot::ShopRight,
        FlowerSpot::PlatformLeft,
        FlowerSpot::AlleyTree,
        FlowerSpot::GateCenterLeft,
        FlowerSpot::GateLeftLeft,
        FlowerSpot::GateLeftRight,
        FlowerSpot::GateCenterRight,
        FlowerSpot::GateRightRight,
        FlowerSpot::GateRightLeft,
    ];
    for (k, spot) in spots.iter().enumerate() {
        assert_eq!(effects[k], Effect::SetFlower { spot: *spot, count: 0 });
    }
    for i in 0..8u8 {
        assert_eq!(
            effects[14 + i as usize],
            Effect::SetDeliveryBagItem { index: i, item: Item::TownFlower }
        );
    }
}
