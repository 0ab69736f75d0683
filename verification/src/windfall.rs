use vstd::prelude::*;

use crate::model::{Effect, FlowerSpot, Item};

verus! {

/// The number of town flowers on each spot of Windfall Island.
#[derive(Clone, Copy, Debug, PartialEq, Eq)]
pub struct Flowers {
    pub shop_left: u8,
    pub bench_bush: u8,
    pub bench_tree: u8,
    pub bench_stone: u8,
    pub platform_right: u8,
    pub shop_right: u8,
    pub platform_left: u8,
    pub alley_tree: u8,
    pub gate_center_left: u8,
    pub gate_left_left: u8,
    pub gate_left_right: u8,
    pub gate_center_right: u8,
    pub gate_right_right: u8,
    pub gate_right_left: u8,
}

/// What a spot is worth when it holds a flower.
pub open spec fn worth(count: u8, value: int) -> int {
    if count > 0 { value } else { 0 }
}

/// The rupees that the placed flowers are worth: every spot that holds a
/// flower adds its own prime, from 2 for the bench bush to 43 for the
/// left-left gate.
pub open spec fn spec_flower_rupees(f: Flowers) -> int {
    worth(f.bench_bush, 2) + worth(f.bench_stone, 3) + worth(f.bench_tree, 5)
        + worth(f.shop_left, 7) + worth(f.shop_right, 11) + worth(f.platform_left, 13)
        + worth(f.platform_right, 17) + worth(f.alley_tree, 19) + worth(f.gate_right_right, 23)
        + worth(f.gate_right_left, 29) + worth(f.gate_center_right, 31)
        + worth(f.gate_center_left, 37) + worth(f.gate_left_right, 41)
        + worth(f.gate_left_left, 43)
}

/// What a spot holding `count` flowers is worth, where a flower there is
/// worth `value` rupees.
fn flower_worth(count: u8, value: u16) -> (rupees: u16)
    ensures
        rupees == worth(count, value as int),
{
    if count > 0 {
        value
    } else {
        0
    }
}

/// The rupees that the flowers on Windfall Island are worth.
pub fn rupees_from_flowers(flowers: &Flowers) -> (rupees: u16)
    ensures
        rupees == spec_flower_rupees(*flowers),
        rupees <= 281,
{
    let mut rupee_count: u16 = 0;
    rupee_count += flower_worth(flowers.bench_bush, 2);
    rupee_count += flower_worth(flowers.bench_stone, 3);
    rupee_count += flower_worth(flowers.bench_tree, 5);
    rupee_count += flower_worth(flowers.shop_left, 7);
    rupee_count += flower_worth(flowers.shop_right, 11);
    rupee_count += flower_worth(flowers.platform_left, 13);
    rupee_count += flower_worth(flowers.platform_right, 17);
    rupee_count += flower_worth(flowers.alley_tree, 19);
    rupee_count += flower_worth(flowers.gate_right_right, 23);
    rupee_count += flower_worth(flowers.gate_right_left, 29);
    rupee_count += flower_worth(flowers.gate_center_right, 31);
    rupee_count += flower_worth(flowers.gate_center_left, 37);
    rupee_count += flower_worth(flowers.gate_left_right, 41);
    rupee_count += flower_worth(flowers.gate_left_left, 43);
    rupee_count
}

/// The two rupee counters of the game: the rupees Link holds, and the
/// "rupees left" counter that the rupee meter counts down from.
#[derive(Clone, Copy, Debug, PartialEq, Eq)]
pub struct RupeeMeter {
    pub rupees: u16,
    pub rupees_left: i32,
}

/// Whether setting the rupees to `rupees` keeps the "rupees left" counter
/// within an `i32` at every step of its update.
pub open spec fn can_set_rupees(meter: RupeeMeter, rupees: u16) -> bool {
    &&& meter.rupees_left + rupees <= i32::MAX
    &&& meter.rupees_left + rupees - meter.rupees >= i32::MIN
}

/// The counters after the rupees are set to `rupees`.
pub open spec fn spec_set_rupees(meter: RupeeMeter, rupees: u16) -> RupeeMeter {
    RupeeMeter { rupees, rupees_left: (meter.rupees_left + rupees - meter.rupees) as i32 }
}

/// Sets Link's rupees to `rupees`, and moves the difference into the
/// "rupees left" counter.
pub fn set_rupees(meter: &mut RupeeMeter, rupees: u16)
    requires
        can_set_rupees(*old(meter), rupees),
    ensures
        *final(meter) == spec_set_rupees(*old(meter), rupees),
{
    let previous_rupees_left = meter.rupees_left;
    meter.rupees_left = previous_rupees_left + rupees as i32 - meter.rupees as i32;
    meter.rupees = rupees;
}

/// Sets Link's rupees to what the flowers on Windfall Island are worth.
pub fn set_rupees_from_flowers(flowers: &Flowers, meter: &mut RupeeMeter)
    requires
        can_set_rupees(*old(meter), spec_flower_rupees(*flowers) as u16),
    ensures
        *final(meter) == spec_set_rupees(*old(meter), spec_flower_rupees(*flowers) as u16),
        final(meter).rupees == spec_flower_rupees(*flowers),
{
    let rupee_count = rupees_from_flowers(flowers);
    set_rupees(meter, rupee_count);
}

/// Setting the rupees moves the "rupees left" counter by the same amount:
/// the counter minus the rupees Link holds stays what it was.
pub proof fn lemma_set_rupees_keeps_difference(meter: RupeeMeter, rupees: u16)
    requires
        can_set_rupees(meter, rupees),
    ensures
        spec_set_rupees(meter, rupees).rupees_left - spec_set_rupees(meter, rupees).rupees
            == meter.rupees_left - meter.rupees,
{
}

/// Setting the rupees twice is the same as setting them once to the second
/// amount.
pub proof fn lemma_set_rupees_twice(meter: RupeeMeter, first: u16, second: u16)
    requires
        can_set_rupees(meter, first),
        can_set_rupees(spec_set_rupees(meter, first), second),
        can_set_rupees(meter, second),
    ensures
        spec_set_rupees(spec_set_rupees(meter, first), second) == spec_set_rupees(meter, second),
{
}

/// Setting the rupees to what Link already holds changes nothing.
pub proof fn lemma_set_rupees_same(meter: RupeeMeter)
    requires
        can_set_rupees(meter, meter.rupees),
    ensures
        spec_set_rupees(meter, meter.rupees) == meter,
{
}

/// The flowers are worth at most 281 rupees, and worth nothing when no spot
/// holds a flower.
pub proof fn lemma_flower_rupees_bounds(f: Flowers)
    ensures
        0 <= spec_flower_rupees(f) <= 281,
        (f.shop_left == 0 && f.bench_bush == 0 && f.bench_tree == 0 && f.bench_stone == 0
            && f.platform_right == 0 && f.shop_right == 0 && f.platform_left == 0
            && f.alley_tree == 0 && f.gate_center_left == 0 && f.gate_left_left == 0
            && f.gate_left_right == 0 && f.gate_center_right == 0 && f.gate_right_right == 0
            && f.gate_right_left == 0) ==> spec_flower_rupees(f) == 0,
{
}

/// The effects that clear every flower spot, in the order the spots are
/// cleared.
pub open spec fn spec_clear_flower_spots() -> Seq<Effect> {
    seq![
        Effect::SetFlower { spot: FlowerSpot::ShopLeft, count: 0 },
        Effect::SetFlower { spot: FlowerSpot::BenchBush, count: 0 },
        Effect::SetFlower { spot: FlowerSpot::BenchTree, count: 0 },
        Effect::SetFlower { spot: FlowerSpot::BenchStone, count: 0 },
        Effect::SetFlower { spot: FlowerSpot::PlatformRight, count: 0 },
        Effect::SetFlower { spot: FlowerSpot::ShopRight, count: 0 },
        Effect::SetFlower { spot: FlowerSpot::PlatformLeft, count: 0 },
        Effect::SetFlower { spot: FlowerSpot::AlleyTree, count: 0 },
        Effect::SetFlower { spot: FlowerSpot::GateCenterLeft, count: 0 },
        Effect::SetFlower { spot: FlowerSpot::GateLeftLeft, count: 0 },
        Effect::SetFlower { spot: FlowerSpot::GateLeftRight, count: 0 },
        Effect::SetFlower { spot: FlowerSpot::GateCenterRight, count: 0 },
        Effect::SetFlower { spot: FlowerSpot::GateRightRight, count: 0 },
        Effect::SetFlower { spot: FlowerSpot::GateRightLeft, count: 0 },
    ]
}

/// The effects that fill the eight slots of the delivery bag with town flowers.
pub open spec fn spec_fill_bag_with_flowers() -> Seq<Effect> {
    Seq::new(8, |i: int| Effect::SetDeliveryBagItem { index: i as u8, item: Item::TownFlower })
}

/// The effects of resetting the flower puzzle.
pub open spec fn spec_reset_flowers() -> Seq<Effect> {
    spec_clear_flower_spots() + spec_fill_bag_with_flowers()
}

/// Appends the effects that reset the flower puzzle: every flower spot on
/// Windfall Island is cleared, and the delivery bag is filled with town
/// flowers.
pub fn push_reset_flowers(effects: &mut Vec<Effect>)
    ensures
        final(effects)@ == old(effects)@ + spec_reset_flowers(),
{
    effects.push(Effect::SetFlower { spot: FlowerSpot::ShopLeft, count: 0 });
    effects.push(Effect::SetFlower { spot: FlowerSpot::BenchBush, count: 0 });
    effects.push(Effect::SetFlower { spot: FlowerSpot::BenchTree, count: 0 });
    effects.push(Effect::SetFlower { spot: FlowerSpot::BenchStone, count: 0 });
    effects.push(Effect::SetFlower { spot: FlowerSpot::PlatformRight, count: 0 });
    effects.push(Effect::SetFlower { spot: FlowerSpot::ShopRight, count: 0 });
    effects.push(Effect::SetFlower { spot: FlowerSpot::PlatformLeft, count: 0 });
    effects.push(Effect::SetFlower { spot: FlowerSpot::AlleyTree, count: 0 });
    effects.push(Effect::SetFlower { spot: FlowerSpot::GateCenterLeft, count: 0 });
    effects.push(Effect::SetFlower { spot: FlowerSpot::GateLeftLeft, count: 0 });
    effects.push(Effect::SetFlower { spot: FlowerSpot::GateLeftRight, count: 0 });
    effects.push(Effect::SetFlower { spot: FlowerSpot::GateCenterRight, count: 0 });
    effects.push(Effect::SetFlower { spot: FlowerSpot::GateRightRight, count: 0 });
    effects.push(Effect::SetFlower { spot: FlowerSpot::GateRightLeft, count: 0 });
    let ghost cleared = effects@;
    assert(cleared == old(effects)@ + spec_clear_flower_spots());
    for x in 0..8u8
        invariant
            effects@ == cleared + spec_fill_bag_with_flowers().take(x as int),
    {
        effects.push(Effect::SetDeliveryBagItem { index: x, item: Item::TownFlower });
        assert(spec_fill_bag_with_flowers().take(x + 1) == spec_fill_bag_with_flowers().take(
            x as int,
        ).push(Effect::SetDeliveryBagItem { index: x, item: Item::TownFlower }));
    }
    assert(spec_fill_bag_with_flowers().take(8) == spec_fill_bag_with_flowers());
}

/// The effects that reset the flower puzzle on Windfall Island.
pub fn reset_flowers() -> (effects: Vec<Effect>)
    ensures
        effects@ == spec_reset_flowers(),
{
    let mut effects: Vec<Effect> = Vec::new();
    push_reset_flowers(&mut effects);
    effects
}

/// Each spot adds its own prime, whatever the other spots hold: putting a
/// flower on a bare spot raises the worth by exactly that spot's prime.
pub proof fn lemma_each_spot_adds_its_prime(f: Flowers, n: u8)
    requires
        n > 0,
    ensures
        spec_flower_rupees(Flowers { bench_bush: n, ..f })
            == spec_flower_rupees(Flowers { bench_bush: 0, ..f }) + 2,
        spec_flower_rupees(Flowers { bench_stone: n, ..f })
            == spec_flower_rupees(Flowers { bench_stone: 0, ..f }) + 3,
        spec_flower_rupees(Flowers { bench_tree: n, ..f })
            == spec_flower_rupees(Flowers { bench_tree: 0, ..f }) + 5,
        spec_flower_rupees(Flowers { shop_left: n, ..f })
            == spec_flower_rupees(Flowers { shop_left: 0, ..f }) + 7,
        spec_flower_rupees(Flowers { shop_right: n, ..f })
            == spec_flower_rupees(Flowers { shop_right: 0, ..f }) + 11,
        spec_flower_rupees(Flowers { platform_left: n, ..f })
            == spec_flower_rupees(Flowers { platform_left: 0, ..f }) + 13,
        spec_flower_rupees(Flowers { platform_right: n, ..f })
            == spec_flower_rupees(Flowers { platform_right: 0, ..f }) + 17,
        spec_flower_rupees(Flowers { alley_tree: n, ..f })
            == spec_flower_rupees(Flowers { alley_tree: 0, ..f }) + 19,
        spec_flower_rupees(Flowers { gate_right_right: n, ..f })
            == spec_flower_rupees(Flowers { gate_right_right: 0, ..f }) + 23,
        spec_flower_rupees(Flowers { gate_right_left: n, ..f })
            == spec_flower_rupees(Flowers { gate_right_left: 0, ..f }) + 29,
        spec_flower_rupees(Flowers { gate_center_right: n, ..f })
            == spec_flower_rupees(Flowers { gate_center_right: 0, ..f }) + 31,
        spec_flower_rupees(Flowers { gate_center_left: n, ..f })
            == spec_flower_rupees(Flowers { gate_center_left: 0, ..f }) + 37,
        spec_flower_rupees(Flowers { gate_left_right: n, ..f })
            == spec_flower_rupees(Flowers { gate_left_right: 0, ..f }) + 41,
        spec_flower_rupees(Flowers { gate_left_left: n, ..f })
            == spec_flower_rupees(Flowers { gate_left_left: 0, ..f }) + 43,
{
}

} // verus!
