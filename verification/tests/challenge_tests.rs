use tww_challenge::challenge::{
    game_loop, init_rupees, ChallengeState, LoopInput, WINDFALL_INTRO_ADDR, WINDFALL_INTRO_SEEN,
    WIZZROBE_BEATEN,
};
use tww_challenge::inventory::{
    SLOT_BOMBS, SLOT_DEKU_LEAF, SLOT_DELIVERY_BAG, SLOT_GRAPPLING_HOOK, SLOT_IRON_BOOTS,
    SLOT_MAGIC_ARMOR, SLOT_PICTO_BOX, SLOT_SAIL, SLOT_TELESCOPE, SLOT_TINGLE_TUNER,
    SLOT_WIND_WAKER,
};
use tww_challenge::model::{
    banner_text, Banner, Collision, Effect, Entrance, Flag, Item, Stage, Sword, Warp,
};
use tww_challenge::windfall::Flowers;

fn no_flowers() -> Flowers {
    Flowers {
        shop_left: 0,
        bench_bush: 0,
        bench_tree: 0,
        bench_stone: 0,
        platform_right: 0,
        shop_right: 0,
        platform_left: 0,
        alley_tree: 0,
        gate_center_left: 0,
        gate_left_left: 0,
        gate_left_right: 0,
        gate_center_right: 0,
        gate_right_right: 0,
        gate_right_left: 0,
    }
}

fn frame(exit_stage: Stage, exit_room: u8, last_stage: Stage, last_room: u8) -> LoopInput {
    LoopInput {
        last_exit: Warp::new(exit_stage, 5, exit_room, 2, 7, false),
        last_entrance: Entrance { stage: last_stage, entrance: 0, room: last_room },
        has_seen_intro: true,
        grabbed_first_rope: true,
        link_room: 3,
        heart_quarters: 40,
        x_index: 255,
        wizzrobe_state: 0,
        flowers: no_flowers(),
    }
}

#[test]
fn new_state() {
    let s = ChallengeState::new();
    assert_eq!(s, ChallengeState { has_sword: true, adjusted_index: 0, rupees_left_addr: 0 });
}

#[test]
fn init_rupees_records_counter_address() {
    let mut s = ChallengeState::new();
    init_rupees(&mut s, 0x8040_0000);
    assert_eq!(s.rupees_left_addr, 0x8040_2FFC);
    assert!(s.has_sword);
    assert_eq!(s.adjusted_index, 0);
}

#[test]
fn banner_texts() {
    assert_eq!(banner_text(Banner::YouTried), "you tried :^)");
    assert_eq!(banner_text(Banner::BackwardsIsForwards), "- Backwards is Forwards -");
    assert_eq!(banner_text(Banner::HundredRupees), "- 100 Rupees -");
    assert_eq!(banner_text(Banner::XControlsTheItems), "- X Controls The Items -");
}

#[test]
fn new_file_skips_to_earth_temple() {
    let mut s = ChallengeState::new();
    let mut i = frame(Stage::Sea, 44, Stage::NameSelect, 0);
    i.has_seen_intro = false;
    i.last_exit.enabled = true;
    let effects = game_loop(&mut s, &i);
    assert_eq!(
        effects,
        vec![
            Effect::SetHeartPieces(40),
            Effect::SetHeartQuarters(40),
            Effect::SetSword(Sword::HerosSword),
            Effect::Warp(Warp::new(Stage::EarthTemple, 1, 1, 2, 7, true)),
        ]
    );
    assert_eq!(s, ChallengeState::new());
}

#[test]
fn game_over_goes_to_empty_room() {
    let mut s = ChallengeState::new();
    let i = frame(Stage::Sea, 44, Stage::Other, 0);
    assert_eq!(
        game_loop(&mut s, &i),
        vec![
            Effect::ShowBanner(Banner::YouTried),
            Effect::Warp(Warp::new(Stage::LargeEmptyRoom, 0, 0, 2, 7, true)),
        ]
    );
}

#[test]
fn earth_temple_first_room_takes_the_sword() {
    let mut s = ChallengeState::new();
    let mut i = frame(Stage::EarthTemple, 1, Stage::EarthTemple, 1);
    i.link_room = 0;
    let effects = game_loop(&mut s, &i);
    assert_eq!(
        effects,
        vec![
            Effect::ShowBanner(Banner::BackwardsIsForwards),
            Effect::ActivateFlag(Flag::HasSeenIntro),
            Effect::ShowBanner(Banner::DoNotPassGo),
            Effect::SetSword(Sword::Unarmed),
            Effect::Warp(Warp::new(Stage::EarthTemple, 1, 1, 2, 7, true)),
        ]
    );
    assert!(!s.has_sword);
    // The sword does not come back, and the first banner is gone.
    let effects = game_loop(&mut s, &i);
    assert_eq!(effects[0], Effect::ActivateFlag(Flag::HasSeenIntro));
    assert!(!s.has_sword);
}

#[test]
fn earth_temple_room_one_rewarps_disabled() {
    let mut s = ChallengeState { has_sword: false, adjusted_index: 0, rupees_left_addr: 0 };
    let mut i = frame(Stage::EarthTemple, 4, Stage::EarthTemple, 4);
    i.link_room = 1;
    assert_eq!(
        game_loop(&mut s, &i),
        vec![
            Effect::ActivateFlag(Flag::HasSeenIntro),
            Effect::Warp(Warp::new(Stage::EarthTemple, 5, 4, 2, 7, false)),
        ]
    );
}

#[test]
fn earth_temple_other_room_only_flags() {
    let mut s = ChallengeState::new();
    let i = frame(Stage::EarthTemple, 4, Stage::EarthTemple, 4);
    assert_eq!(
        game_loop(&mut s, &i),
        vec![Effect::ShowBanner(Banner::BackwardsIsForwards), Effect::ActivateFlag(Flag::HasSeenIntro)]
    );
    assert!(s.has_sword);
}

#[test]
fn earth_temple_different_rooms_is_elsewhere() {
    let mut s = ChallengeState::new();
    let i = frame(Stage::EarthTemple, 4, Stage::EarthTemple, 3);
    assert_eq!(game_loop(&mut s, &i), vec![Effect::ClearBanner]);
}

#[test]
fn fortress_interior_before_rope() {
    let mut s = ChallengeState::new();
    let mut i = frame(Stage::Other, 0, Stage::ForsakenFortressInterior, 0);
    i.grabbed_first_rope = false;
    assert_eq!(
        game_loop(&mut s, &i),
        vec![
            Effect::ShowBanner(Banner::OnTheRopes),
            Effect::SetHeartQuarters(40),
            Effect::SetCollision(Collision::DoorCancel),
        ]
    );
}

#[test]
fn fortress_interior_hurt_or_not() {
    let mut s = ChallengeState::new();
    let mut i = frame(Stage::Other, 0, Stage::ForsakenFortressInterior, 0);
    i.heart_quarters = 39;
    assert_eq!(
        game_loop(&mut s, &i),
        vec![Effect::ShowBanner(Banner::DoorsGetPaid), Effect::SetCollision(Collision::ChestStorage)]
    );
    i.heart_quarters = 40;
    assert_eq!(
        game_loop(&mut s, &i),
        vec![Effect::ShowBanner(Banner::NoPainNoGain), Effect::SetCollision(Collision::Default)]
    );
}

#[test]
fn forbidden_woods_boss_gear() {
    let mut s = ChallengeState::new();
    let i = frame(Stage::Other, 0, Stage::ForbiddenWoodsBoss, 0);
    assert_eq!(
        game_loop(&mut s, &i),
        vec![
            Effect::ShowBanner(Banner::UnconventionalMethods),
            Effect::SetCollision(Collision::ChestStorage),
            Effect::SetSlot { slot: SLOT_DEKU_LEAF, item: Item::DekuLeaf },
            Effect::SetMagic(16),
            Effect::SetMaxMagic(16),
            Effect::SetSword(Sword::UnchargedMasterSword),
        ]
    );
}

#[test]
fn under_links_house_gear() {
    let mut s = ChallengeState::new();
    let i = frame(Stage::Other, 0, Stage::UnderLinksHouse, 0);
    assert_eq!(
        game_loop(&mut s, &i),
        vec![
            Effect::ShowBanner(Banner::BombsAnswer),
            Effect::SetSword(Sword::Unarmed),
            Effect::SetSlot { slot: SLOT_DEKU_LEAF, item: Item::Empty },
            Effect::SetMagic(0),
            Effect::SetMaxMagic(0),
            Effect::SetSlot { slot: SLOT_BOMBS, item: Item::Bombs },
            Effect::SetSlot { slot: SLOT_TINGLE_TUNER, item: Item::TingleTuner },
        ]
    );
}

#[test]
fn wizzrobe_cave_and_its_end() {
    let mut s = ChallengeState::new();
    let mut i = frame(Stage::Other, 0, Stage::PawprintIsleWizzrobe, 0);
    let fight = vec![
        Effect::ShowBanner(Banner::NoBowNeeded),
        Effect::SetSlot { slot: SLOT_BOMBS, item: Item::Empty },
        Effect::SetSlot { slot: SLOT_TINGLE_TUNER, item: Item::Empty },
        Effect::SetCollision(Collision::ChestStorage),
        Effect::SetSword(Sword::UnchargedMasterSword),
        Effect::SetSlot { slot: SLOT_DEKU_LEAF, item: Item::DekuLeaf },
        Effect::SetMagic(16),
        Effect::SetMaxMagic(16),
    ];
    assert_eq!(game_loop(&mut s, &i), fight);
    i.wizzrobe_state = WIZZROBE_BEATEN;
    let mut beaten = fight.clone();
    beaten.push(Effect::SetSlot { slot: SLOT_DEKU_LEAF, item: Item::Empty });
    beaten.push(Effect::Warp(Warp::new(Stage::DragonRoostPond, 1, 0, 2, 7, true)));
    assert_eq!(game_loop(&mut s, &i), beaten);
}

fn pond_fixed() -> Vec<Effect> {
    vec![
        Effect::ShowBanner(Banner::XControlsTheItems),
        Effect::SetSword(Sword::Unarmed),
        Effect::SetMagic(0),
        Effect::SetMaxMagic(0),
        Effect::SetMagic(16),
        Effect::SetMaxMagic(16),
        Effect::SetBombCount(99),
        Effect::SetSlot { slot: SLOT_TELESCOPE, item: Item::Telescope },
        Effect::SetSlot { slot: SLOT_SAIL, item: Item::Sail },
        Effect::SetSlot { slot: SLOT_WIND_WAKER, item: Item::WindWaker },
        Effect::SetSlot { slot: SLOT_GRAPPLING_HOOK, item: Item::GrapplingHook },
        Effect::SetSlot { slot: SLOT_TINGLE_TUNER, item: Item::TingleTuner },
        Effect::SetSlot { slot: SLOT_PICTO_BOX, item: Item::PictoBox },
        Effect::SetSlot { slot: SLOT_IRON_BOOTS, item: Item::IronBoots },
        Effect::SetSlot { slot: SLOT_MAGIC_ARMOR, item: Item::MagicArmor },
    ]
}

#[test]
fn pond_mirrors_x_item() {
    let mut s = ChallengeState::new();
    let mut i = frame(Stage::Other, 0, Stage::DragonRoostPond, 0);
    // Grappling hook (index 3) on X: adjusted to 4, mirrored into slot 12.
    i.x_index = 3;
    let mut expected = pond_fixed();
    expected.push(Effect::SetSlot { slot: 0, item: Item::Empty });
    expected.push(Effect::SetSlot { slot: 12, item: Item::Bow });
    assert_eq!(game_loop(&mut s, &i), expected);
    assert_eq!(s.adjusted_index, 12);
    // Same item next frame: nothing moves.
    assert_eq!(game_loop(&mut s, &i), pond_fixed());
    assert_eq!(s.adjusted_index, 12);
    // Magic armor (index 10) on X: adjusted to 8, mirrored into slot 20.
    i.x_index = 10;
    let mut expected = pond_fixed();
    expected.push(Effect::SetSlot { slot: 12, item: Item::Empty });
    expected.push(Effect::SetSlot { slot: 20, item: Item::SkullHammer });
    assert_eq!(game_loop(&mut s, &i), expected);
    assert_eq!(s.adjusted_index, 20);
}

#[test]
fn pond_with_nothing_on_x_mirrors_spoils_bag() {
    let mut s = ChallengeState::new();
    let i = frame(Stage::Other, 0, Stage::DragonRoostPond, 0);
    let mut expected = pond_fixed();
    expected.push(Effect::SetSlot { slot: 0, item: Item::Empty });
    expected.push(Effect::SetSlot { slot: 4, item: Item::SpoilsBag });
    assert_eq!(game_loop(&mut s, &i), expected);
    assert_eq!(s.adjusted_index, 4);
}

fn windfall_effects(rupees: u16) -> Vec<Effect> {
    let mut v = vec![Effect::ShowBanner(Banner::HundredRupees)];
    for x in 0..19u8 {
        v.push(Effect::SetSlot { slot: x, item: Item::Empty });
    }
    v.push(Effect::ActivatePedestals);
    v.push(Effect::SetSlot { slot: SLOT_DELIVERY_BAG, item: Item::DeliveryBag });
    v.push(Effect::WriteU8 { addr: WINDFALL_INTRO_ADDR, byte: WINDFALL_INTRO_SEEN });
    v.push(Effect::SetRupees(rupees));
    v
}

#[test]
fn windfall_without_hundred() {
    let mut s = ChallengeState::new();
    let mut i = frame(Stage::Other, 0, Stage::Sea, 11);
    i.flowers.bench_bush = 1;
    assert_eq!(game_loop(&mut s, &i), windfall_effects(2));
}

#[test]
fn windfall_with_hundred_ends_the_game() {
    let mut s = ChallengeState::new();
    let mut i = frame(Stage::Other, 0, Stage::Sea, 11);
    i.flowers.gate_left_left = 1;
    i.flowers.gate_left_right = 1;
    i.flowers.platform_left = 1;
    i.flowers.bench_stone = 1;
    let mut expected = windfall_effects(100);
    expected.push(Effect::Warp(Warp::new(Stage::Ending, 0, 0, 2, 7, true)));
    assert_eq!(game_loop(&mut s, &i), expected);
}

#[test]
fn windfall_on_the_way_to_ending_is_elsewhere() {
    let mut s = ChallengeState::new();
    let i = frame(Stage::Ending, 0, Stage::Sea, 11);
    assert_eq!(game_loop(&mut s, &i), vec![Effect::ClearBanner]);
}

#[test]
fn elsewhere_clears_banner() {
    let mut s = ChallengeState { has_sword: false, adjusted_index: 12, rupees_left_addr: 9 };
    let i = frame(Stage::Other, 0, Stage::Other, 0);
    assert_eq!(game_loop(&mut s, &i), vec![Effect::ClearBanner]);
    assert_eq!(s, ChallengeState { has_sword: false, adjusted_index: 12, rupees_left_addr: 9 });
}
