use vstd::prelude::*;

use crate::controls::spec_warp_like;
use crate::inventory::{
    lemma_x_item_lands_on_right_side,
    adjust_left_index, adjust_right_index, is_right_side_slot, item_id_for_slot,
    spec_adjust_left_index, spec_adjust_right_index, spec_item_for_slot, SLOT_BOMBS,
    SLOT_DEKU_LEAF, SLOT_DELIVERY_BAG, SLOT_GRAPPLING_HOOK, SLOT_IRON_BOOTS, SLOT_MAGIC_ARMOR,
    SLOT_PICTO_BOX, SLOT_SAIL, SLOT_TELESCOPE, SLOT_TINGLE_TUNER, SLOT_WIND_WAKER,
};
use crate::model::{Banner, Collision, Effect, Entrance, Flag, Item, Stage, Sword, Warp};
use crate::windfall::{rupees_from_flowers, spec_flower_rupees, Flowers};

verus! {

/// Address of the byte that records whether the Windfall intro cutscene was seen.
pub const WINDFALL_INTRO_ADDR: u32 = 0x803B8888;
/// The value that marks the Windfall intro cutscene as seen.
pub const WINDFALL_INTRO_SEEN: u8 = 0x80;
/// Address of the byte that holds the state of the Wizzrobe fight on Pawprint Isle.
pub const WIZZROBE_STATE_ADDR: u32 = 0x803B88B7;
/// The state of the Wizzrobe fight once the Wizzrobe is beaten.
pub const WIZZROBE_BEATEN: u8 = 0x3F;
/// Offset from the address handed to the rupee meter's init to its "rupees
/// left" counter.
pub const RUPEES_LEFT_OFFSET: u32 = 0x2FFC;

/// What the challenge remembers from one frame to the next.
#[derive(Clone, Copy, Debug, PartialEq, Eq)]
pub struct ChallengeState {
    /// Whether Link still holds the Hero's Sword from the start of the run.
    pub has_sword: bool,
    /// The inventory slot that currently mirrors the item on X (0 before the
    /// first mirror).
    pub adjusted_index: u8,
    /// Address of the "rupees left" counter of the rupee meter.
    pub rupees_left_addr: u32,
}

impl ChallengeState {
    /// The state at power-on.
    pub fn new() -> (state: ChallengeState)
        ensures
            state == (ChallengeState { has_sword: true, adjusted_index: 0, rupees_left_addr: 0 }),
    {
        ChallengeState { has_sword: true, adjusted_index: 0, rupees_left_addr: 0 }
    }

    /// The remembered slot is 0 or one of the right-side slots.
    pub open spec fn wf(self) -> bool {
        self.adjusted_index == 0 || is_right_side_slot(self.adjusted_index as int)
    }
}

/// Records where the rupee meter keeps its "rupees left" counter, given the
/// address that the game hands to the meter's init.
pub fn init_rupees(state: &mut ChallengeState, addr: u32)
    requires
        addr + RUPEES_LEFT_OFFSET <= u32::MAX,
    ensures
        *final(state) == (ChallengeState {
            rupees_left_addr: (addr + RUPEES_LEFT_OFFSET) as u32,
            ..*old(state)
        }),
{
    state.rupees_left_addr = addr + RUPEES_LEFT_OFFSET;
}

/// What the frame hook reads from the game.
#[derive(Clone, Copy, Debug, PartialEq, Eq)]
pub struct LoopInput {
    /// The last exit taken (`Warp::last_exit`).
    pub last_exit: Warp,
    /// The entrance Link last came through (`Entrance::last_entrance`).
    pub last_entrance: Entrance,
    /// Whether the intro flag is set.
    pub has_seen_intro: bool,
    /// Whether Link has grabbed the first rope in the Forsaken Fortress.
    pub grabbed_first_rope: bool,
    /// The room Link is in.
    pub link_room: u8,
    /// Link's current health in quarter hearts.
    pub heart_quarters: u8,
    /// The game's index of the item equipped on X.
    pub x_index: u8,
    /// The byte at `WIZZROBE_STATE_ADDR`.
    pub wizzrobe_state: u8,
    /// The flowers on Windfall Island.
    pub flowers: Flowers,
}

/// The part of the challenge that a frame falls into.
#[derive(Clone, Copy, Debug, PartialEq, Eq, Structural)]
pub enum LoopCase {
    /// A new file goes to the sea for the first time: straight to the Earth Temple.
    IntroSkip,
    /// A game over or a save warp to the sea.
    GameOver,
    /// Link is in the Earth Temple, in the room he entered.
    EarthTemple,
    /// Link is inside the Forsaken Fortress.
    FortressInterior,
    /// Link is in the boss room of the Forbidden Woods.
    ForbiddenWoodsBoss,
    /// Link is under his house on Outset Island.
    UnderLinksHouse,
    /// Link is in the Wizzrobe cave of Pawprint Isle.
    Wizzrobe,
    /// Link is at the pond of Dragon Roost Island.
    Pond,
    /// Link is on Windfall Island, not on his way to the ending.
    HundredRupees,
    /// None of the above.
    Elsewhere,
}

/// The part of the challenge that the frame with input `i` falls into.
pub open spec fn spec_loop_case(i: LoopInput) -> LoopCase {
    let exit = i.last_exit.entrance;
    let stage_name = i.last_entrance.stage;
    if exit.stage == Stage::Sea && stage_name == Stage::NameSelect && !i.has_seen_intro {
        LoopCase::IntroSkip
    } else if exit.stage == Stage::Sea && exit.room == 44 {
        LoopCase::GameOver
    } else if stage_name == Stage::EarthTemple && exit.room == i.last_entrance.room {
        LoopCase::EarthTemple
    } else if stage_name == Stage::ForsakenFortressInterior {
        LoopCase::FortressInterior
    } else if stage_name == Stage::ForbiddenWoodsBoss {
        LoopCase::ForbiddenWoodsBoss
    } else if stage_name == Stage::UnderLinksHouse {
        LoopCase::UnderLinksHouse
    } else if stage_name == Stage::PawprintIsleWizzrobe {
        LoopCase::Wizzrobe
    } else if stage_name == Stage::DragonRoostPond {
        LoopCase::Pond
    } else if stage_name == Stage::Sea && i.last_entrance.room == 11 && exit.stage != Stage::Ending {
        LoopCase::HundredRupees
    } else {
        LoopCase::Elsewhere
    }
}

/// Effects of a new file reaching the sea: full hearts, the Hero's Sword, and
/// a warp into the Earth Temple.
pub open spec fn spec_intro_skip(i: LoopInput) -> Seq<Effect> {
    seq![
        Effect::SetHeartPieces(40),
        Effect::SetHeartQuarters(40),
        Effect::SetSword(Sword::HerosSword),
        Effect::Warp(spec_warp_like(i.last_exit, Stage::EarthTemple, 1, 1, i.last_exit.enabled)),
    ]
}

/// Effects of a game over or a save warp: off to an empty room.
pub open spec fn spec_game_over(i: LoopInput) -> Seq<Effect> {
    seq![
        Effect::ShowBanner(Banner::YouTried),
        Effect::Warp(spec_warp_like(i.last_exit, Stage::LargeEmptyRoom, 0, 0, true)),
    ]
}

/// Effects in the Earth Temple.
pub open spec fn spec_earth_temple(s: ChallengeState, i: LoopInput) -> Seq<Effect> {
    let exit = i.last_exit;
    (if s.has_sword { seq![Effect::ShowBanner(Banner::BackwardsIsForwards)] } else { seq![] })
        + seq![Effect::ActivateFlag(Flag::HasSeenIntro)] + (if i.link_room == 0 {
        seq![
            Effect::ShowBanner(Banner::DoNotPassGo),
            Effect::SetSword(Sword::Unarmed),
            Effect::Warp(spec_warp_like(exit, Stage::EarthTemple, 1, 1, true)),
        ]
    } else if i.link_room == 1 {
        seq![
            Effect::Warp(
                spec_warp_like(exit, Stage::EarthTemple, exit.entrance.entrance, exit.entrance.room, false),
            ),
        ]
    } else {
        seq![]
    })
}

/// Effects inside the Forsaken Fortress.
pub open spec fn spec_fortress_interior(i: LoopInput) -> Seq<Effect> {
    if !i.grabbed_first_rope {
        seq![
            Effect::ShowBanner(Banner::OnTheRopes),
            Effect::SetHeartQuarters(40),
            Effect::SetCollision(Collision::DoorCancel),
        ]
    } else if i.heart_quarters < 40 {
        seq![Effect::ShowBanner(Banner::DoorsGetPaid), Effect::SetCollision(Collision::ChestStorage)]
    } else {
        seq![Effect::ShowBanner(Banner::NoPainNoGain), Effect::SetCollision(Collision::Default)]
    }
}

/// Effects in the boss room of the Forbidden Woods.
pub open spec fn spec_forbidden_woods_boss() -> Seq<Effect> {
    seq![
        Effect::ShowBanner(Banner::UnconventionalMethods),
        Effect::SetCollision(Collision::ChestStorage),
        Effect::SetSlot { slot: SLOT_DEKU_LEAF, item: Item::DekuLeaf },
        Effect::SetMagic(16),
        Effect::SetMaxMagic(16),
        Effect::SetSword(Sword::UnchargedMasterSword),
    ]
}

/// Effects under Link's house.
pub open spec fn spec_under_links_house() -> Seq<Effect> {
    seq![
        Effect::ShowBanner(Banner::BombsAnswer),
        Effect::SetSword(Sword::Unarmed),
        Effect::SetSlot { slot: SLOT_DEKU_LEAF, item: Item::Empty },
        Effect::SetMagic(0),
        Effect::SetMaxMagic(0),
        Effect::SetSlot { slot: SLOT_BOMBS, item: Item::Bombs },
        Effect::SetSlot { slot: SLOT_TINGLE_TUNER, item: Item::TingleTuner },
    ]
}

/// Effects in the Wizzrobe cave.
pub open spec fn spec_wizzrobe(i: LoopInput) -> Seq<Effect> {
    seq![
        Effect::ShowBanner(Banner::NoBowNeeded),
        Effect::SetSlot { slot: SLOT_BOMBS, item: Item::Empty },
        Effect::SetSlot { slot: SLOT_TINGLE_TUNER, item: Item::Empty },
        Effect::SetCollision(Collision::ChestStorage),
        Effect::SetSword(Sword::UnchargedMasterSword),
        Effect::SetSlot { slot: SLOT_DEKU_LEAF, item: Item::DekuLeaf },
        Effect::SetMagic(16),
        Effect::SetMaxMagic(16),
    ] + (if i.wizzrobe_state == WIZZROBE_BEATEN {
        seq![
            Effect::SetSlot { slot: SLOT_DEKU_LEAF, item: Item::Empty },
            Effect::Warp(spec_warp_like(i.last_exit, Stage::DragonRoostPond, 1, 0, true)),
        ]
    } else {
        seq![]
    })
}

/// The slot that mirrors the item equipped on X.
pub open spec fn spec_mirror_slot(x_index: u8) -> u8 {
    spec_adjust_right_index(spec_adjust_left_index(x_index)) as u8
}

/// The fixed part of the effects at the Dragon Roost pond.
pub open spec fn spec_pond_fixed() -> Seq<Effect> {
    seq![
        Effect::ShowBanner(Banner::XControlsTheItems),
        Effect::SetSword(Sword::Unarmed),
        Effect::SetMagic(0),
        Effect::SetMaxMagic(0),
        Effect::SetMagic(16),
        Effect::SetMaxMagic(16),
        Effect::SetBombCount(99),
        Effect::SetSlot { slot: SLOT_TELESCOPE, item: Item::Telescope },
        Effect::SetSlot { slot: SLOT_SAIL, item: Item::Sail },
        Effect::SetSlot { slot: SLOT_WIND_WAKER, item: Item::WindWaker },
        Effect::SetSlot { slot: SLOT_GRAPPLING_HOOK, item: Item::GrapplingHook },
        Effect::SetSlot { slot: SLOT_TINGLE_TUNER, item: Item::TingleTuner },
        Effect::SetSlot { slot: SLOT_PICTO_BOX, item: Item::PictoBox },
        Effect::SetSlot { slot: SLOT_IRON_BOOTS, item: Item::IronBoots },
        Effect::SetSlot { slot: SLOT_MAGIC_ARMOR, item: Item::MagicArmor },
    ]
}

/// Effects at the Dragon Roost pond: the left page of the inventory is given
/// back, and the item on X is mirrored into its slot on the right side.
pub open spec fn spec_pond(s: ChallengeState, i: LoopInput) -> Seq<Effect> {
    let new_index = spec_mirror_slot(i.x_index);
    spec_pond_fixed() + (if new_index != s.adjusted_index {
        seq![
            Effect::SetSlot { slot: s.adjusted_index, item: Item::Empty },
            Effect::SetSlot { slot: new_index, item: spec_item_for_slot(new_index) },
        ]
    } else {
        seq![]
    })
}

/// The effects that empty the inventory slots from 0 to 18.
pub open spec fn spec_empty_slots() -> Seq<Effect> {
    Seq::new(19, |x: int| Effect::SetSlot { slot: x as u8, item: Item::Empty })
}

/// Effects on Windfall Island: the inventory is emptied but for the
/// delivery bag, and the rupees become what the flowers are worth; at 100
/// rupees the game ends.
pub open spec fn spec_hundred_rupees(i: LoopInput) -> Seq<Effect> {
    let rupees = spec_flower_rupees(i.flowers);
    seq![Effect::ShowBanner(Banner::HundredRupees)] + spec_empty_slots() + seq![
        Effect::ActivatePedestals,
        Effect::SetSlot { slot: SLOT_DELIVERY_BAG, item: Item::DeliveryBag },
        Effect::WriteU8 { addr: WINDFALL_INTRO_ADDR, byte: WINDFALL_INTRO_SEEN },
        Effect::SetRupees(rupees as u16),
    ] + (if rupees == 100 {
        seq![Effect::Warp(spec_warp_like(i.last_exit, Stage::Ending, 0, 0, true))]
    } else {
        seq![]
    })
}

/// The effects of one frame.
pub open spec fn spec_loop_effects(s: ChallengeState, i: LoopInput) -> Seq<Effect> {
    match spec_loop_case(i) {
        LoopCase::IntroSkip => spec_intro_skip(i),
        LoopCase::GameOver => spec_game_over(i),
        LoopCase::EarthTemple => spec_earth_temple(s, i),
        LoopCase::FortressInterior => spec_fortress_interior(i),
        LoopCase::ForbiddenWoodsBoss => spec_forbidden_woods_boss(),
        LoopCase::UnderLinksHouse => spec_under_links_house(),
        LoopCase::Wizzrobe => spec_wizzrobe(i),
        LoopCase::Pond => spec_pond(s, i),
        LoopCase::HundredRupees => spec_hundred_rupees(i),
        LoopCase::Elsewhere => seq![Effect::ClearBanner],
    }
}

/// What the challenge remembers after one frame.
pub open spec fn spec_loop_state(s: ChallengeState, i: LoopInput) -> ChallengeState {
    match spec_loop_case(i) {
        LoopCase::EarthTemple => if i.link_room == 0 {
            ChallengeState { has_sword: false, ..s }
        } else {
            s
        },
        LoopCase::Pond => ChallengeState { adjusted_index: spec_mirror_slot(i.x_index), ..s },
        _ => s,
    }
}

/// A warp with the layer and fade of the last exit.
fn warp_like(exit: &Warp, stage: Stage, entrance: u16, room: u8, enabled: bool) -> (w: Warp)
    ensures
        w == spec_warp_like(*exit, stage, entrance, room, enabled),
{
    Warp::new(stage, entrance, room, exit.layer_override, exit.fadeout, enabled)
}

fn push_earth_temple(state: &mut ChallengeState, input: &LoopInput, effects: &mut Vec<Effect>)
    requires
        input.last_exit.entrance.room == input.last_entrance.room,
    ensures
        final(effects)@ == old(effects)@ + spec_earth_temple(*old(state), *input),
        *final(state) == (if input.link_room == 0 {
            ChallengeState { has_sword: false, ..*old(state) }
        } else {
            *old(state)
        }),
{
    let exit = &input.last_exit;
    if state.has_sword {
        effects.push(Effect::ShowBanner(Banner::BackwardsIsForwards));
    }
    effects.push(Effect::ActivateFlag(Flag::HasSeenIntro));
    if input.link_room == 0 && exit.entrance.room == input.last_entrance.room {
        state.has_sword = false;
        effects.push(Effect::ShowBanner(Banner::DoNotPassGo));
        effects.push(Effect::SetSword(Sword::Unarmed));
        effects.push(Effect::Warp(warp_like(exit, Stage::EarthTemple, 1, 1, true)));
    } else if input.link_room == 1 {
        effects.push(
            Effect::Warp(
                warp_like(exit, Stage::EarthTemple, exit.entrance.entrance, exit.entrance.room, false),
            ),
        );
    }
}

fn push_fortress_interior(input: &LoopInput, effects: &mut Vec<Effect>)
    ensures
        final(effects)@ == old(effects)@ + spec_fortress_interior(*input),
{
    if !input.grabbed_first_rope {
        effects.push(Effect::ShowBanner(Banner::OnTheRopes));
        effects.push(Effect::SetHeartQuarters(40));
        effects.push(Effect::SetCollision(Collision::DoorCancel));
    } else {
        if input.heart_quarters < 40 {
            effects.push(Effect::ShowBanner(Banner::DoorsGetPaid));
            effects.push(Effect::SetCollision(Collision::ChestStorage));
        } else {
            effects.push(Effect::ShowBanner(Banner::NoPainNoGain));
            effects.push(Effect::SetCollision(Collision::Default));
        }
    }
}

fn push_wizzrobe(input: &LoopInput, effects: &mut Vec<Effect>)
    ensures
        final(effects)@ == old(effects)@ + spec_wizzrobe(*input),
{
    effects.push(Effect::ShowBanner(Banner::NoBowNeeded));
    effects.push(Effect::SetSlot { slot: SLOT_BOMBS, item: Item::Empty });
    effects.push(Effect::SetSlot { slot: SLOT_TINGLE_TUNER, item: Item::Empty });
    effects.push(Effect::SetCollision(Collision::ChestStorage));
    effects.push(Effect::SetSword(Sword::UnchargedMasterSword));
    effects.push(Effect::SetSlot { slot: SLOT_DEKU_LEAF, item: Item::DekuLeaf });
    effects.push(Effect::SetMagic(16));
    effects.push(Effect::SetMaxMagic(16));
    if input.wizzrobe_state == WIZZROBE_BEATEN {
        effects.push(Effect::SetSlot { slot: SLOT_DEKU_LEAF, item: Item::Empty });
        effects.push(
            Effect::Warp(warp_like(&input.last_exit, Stage::DragonRoostPond, 1, 0, true)),
        );
    }
}

fn push_pond(state: &mut ChallengeState, input: &LoopInput, effects: &mut Vec<Effect>)
    ensures
        final(effects)@ == old(effects)@ + spec_pond(*old(state), *input),
        *final(state) == (ChallengeState {
            adjusted_index: spec_mirror_slot(input.x_index),
            ..*old(state)
        }),
{
    effects.push(Effect::ShowBanner(Banner::XControlsTheItems));
    effects.push(Effect::SetSword(Sword::Unarmed));
    effects.push(Effect::SetMagic(0));
    effects.push(Effect::SetMaxMagic(0));
    effects.push(Effect::SetMagic(16));
    effects.push(Effect::SetMaxMagic(16));
    effects.push(Effect::SetBombCount(99));
    effects.push(Effect::SetSlot { slot: SLOT_TELESCOPE, item: Item::Telescope });
    effects.push(Effect::SetSlot { slot: SLOT_SAIL, item: Item::Sail });
    effects.push(Effect::SetSlot { slot: SLOT_WIND_WAKER, item: Item::WindWaker });
    effects.push(Effect::SetSlot { slot: SLOT_GRAPPLING_HOOK, item: Item::GrapplingHook });
    effects.push(Effect::SetSlot { slot: SLOT_TINGLE_TUNER, item: Item::TingleTuner });
    effects.push(Effect::SetSlot { slot: SLOT_PICTO_BOX, item: Item::PictoBox });
    effects.push(Effect::SetSlot { slot: SLOT_IRON_BOOTS, item: Item::IronBoots });
    effects.push(Effect::SetSlot { slot: SLOT_MAGIC_ARMOR, item: Item::MagicArmor });

    let new_adjusted_index = adjust_right_index(adjust_left_index(input.x_index));
    if new_adjusted_index != state.adjusted_index {
        effects.push(Effect::SetSlot { slot: state.adjusted_index, item: Item::Empty });
        effects.push(
            Effect::SetSlot { slot: new_adjusted_index, item: item_id_for_slot(new_adjusted_index) },
        );
        state.adjusted_index = new_adjusted_index;
    }
}

fn push_hundred_rupees(input: &LoopInput, effects: &mut Vec<Effect>)
    ensures
        final(effects)@ == old(effects)@ + spec_hundred_rupees(*input),
{
    effects.push(Effect::ShowBanner(Banner::HundredRupees));
    let ghost start = effects@;
    for x in 0..19u8
        invariant
            effects@ == start + spec_empty_slots().take(x as int),
    {
        effects.push(Effect::SetSlot { slot: x, item: Item::Empty });
        assert(spec_empty_slots().take(x + 1) == spec_empty_slots().take(x as int).push(
            Effect::SetSlot { slot: x, item: Item::Empty },
        ));
    }
    assert(spec_empty_slots().take(19) == spec_empty_slots());
    effects.push(Effect::ActivatePedestals);
    effects.push(Effect::SetSlot { slot: SLOT_DELIVERY_BAG, item: Item::DeliveryBag });
    effects.push(Effect::WriteU8 { addr: WINDFALL_INTRO_ADDR, byte: WINDFALL_INTRO_SEEN });
    let rupees = rupees_from_flowers(&input.flowers);
    effects.push(Effect::SetRupees(rupees));
    if rupees == 100 {
        effects.push(Effect::Warp(warp_like(&input.last_exit, Stage::Ending, 0, 0, true)));
    }
}

/// The frame hook of the challenge: decides, from what the game shows this
/// frame, what to change in it, and updates what the challenge remembers.
pub fn game_loop(state: &mut ChallengeState, input: &LoopInput) -> (effects: Vec<Effect>)
    ensures
        effects@ == spec_loop_effects(*old(state), *input),
        *final(state) == spec_loop_state(*old(state), *input),
{
    let mut effects: Vec<Effect> = Vec::new();
    let exit = &input.last_exit;
    let stage_name = input.last_entrance.stage;

    if exit.entrance.stage == Stage::Sea && input.last_entrance.stage == Stage::NameSelect
        && !input.has_seen_intro {
        effects.push(Effect::SetHeartPieces(40));
        effects.push(Effect::SetHeartQuarters(40));
        effects.push(Effect::SetSword(Sword::HerosSword));
        effects.push(Effect::Warp(warp_like(exit, Stage::EarthTemple, 1, 1, exit.enabled)));
    } else if exit.entrance.stage == Stage::Sea && exit.entrance.room == 44 {
        // game over or save warp
        effects.push(Effect::ShowBanner(Banner::YouTried));
        effects.push(Effect::Warp(warp_like(exit, Stage::LargeEmptyRoom, 0, 0, true)));
    } else if stage_name == Stage::EarthTemple && exit.entrance.room == input.last_entrance.room {
        push_earth_temple(state, input, &mut effects);
    } else if stage_name == Stage::ForsakenFortressInterior {
        push_fortress_interior(input, &mut effects);
    } else if stage_name == Stage::ForbiddenWoodsBoss {
        effects.push(Effect::ShowBanner(Banner::UnconventionalMethods));
        effects.push(Effect::SetCollision(Collision::ChestStorage));
        effects.push(Effect::SetSlot { slot: SLOT_DEKU_LEAF, item: Item::DekuLeaf });
        effects.push(Effect::SetMagic(16));
        effects.push(Effect::SetMaxMagic(16));
        effects.push(Effect::SetSword(Sword::UnchargedMasterSword));
    } else if stage_name == Stage::UnderLinksHouse {
        effects.push(Effect::ShowBanner(Banner::BombsAnswer));
        effects.push(Effect::SetSword(Sword::Unarmed));
        effects.push(Effect::SetSlot { slot: SLOT_DEKU_LEAF, item: Item::Empty });
        effects.push(Effect::SetMagic(0));
        effects.push(Effect::SetMaxMagic(0));
        effects.push(Effect::SetSlot { slot: SLOT_BOMBS, item: Item::Bombs });
        effects.push(Effect::SetSlot { slot: SLOT_TINGLE_TUNER, item: Item::TingleTuner });
    } else if stage_name == Stage::PawprintIsleWizzrobe {
        push_wizzrobe(input, &mut effects);
    } else if stage_name == Stage::DragonRoostPond {
        push_pond(state, input, &mut effects);
    } else if stage_name == Stage::Sea && input.last_entrance.room == 11
        && exit.entrance.stage != Stage::Ending {
        push_hundred_rupees(input, &mut effects);
    } else {
        effects.push(Effect::ClearBanner);
    }
    effects
}

/// Every frame keeps the remembered mirror slot at 0 or on the right side of
/// the inventory, and never moves the rupee meter's address.
pub proof fn lemma_frame_keeps_wf(s: ChallengeState, i: LoopInput)
    requires
        s.wf(),
    ensures
        spec_loop_state(s, i).wf(),
        spec_loop_state(s, i).rupees_left_addr == s.rupees_left_addr,
{
    lemma_x_item_lands_on_right_side(i.x_index);
}

/// Once the Hero's Sword is gone it never comes back, and it is only lost in
/// the first room of the Earth Temple.
pub proof fn lemma_sword_lost_for_good(s: ChallengeState, i: LoopInput)
    ensures
        !s.has_sword ==> !spec_loop_state(s, i).has_sword,
        (s.has_sword && !spec_loop_state(s, i).has_sword) ==> (spec_loop_case(i)
            == LoopCase::EarthTemple && i.link_room == 0),
{
}

/// At the pond, the slot that mirrors X ends up holding its own item: when
/// the mirror moves, the old slot is emptied and the new one filled, and the
/// challenge remembers the new slot.
pub proof fn lemma_pond_mirrors_x(s: ChallengeState, i: LoopInput)
    requires
        spec_loop_case(i) == LoopCase::Pond,
    ensures
        spec_loop_state(s, i).adjusted_index == spec_mirror_slot(i.x_index),
        spec_mirror_slot(i.x_index) != s.adjusted_index ==> {
            let e = spec_loop_effects(s, i);
            &&& e.last() == Effect::SetSlot {
                slot: spec_mirror_slot(i.x_index),
                item: spec_item_for_slot(spec_mirror_slot(i.x_index)),
            }
            &&& spec_item_for_slot(spec_mirror_slot(i.x_index)) != Item::Empty
        },
{
    lemma_x_item_lands_on_right_side(i.x_index);
}

/// A second frame at the pond with the same item on X moves nothing: only
/// the fixed part of the pond's effects is repeated.
pub proof fn lemma_pond_settles(s: ChallengeState, i: LoopInput)
    requires
        spec_loop_case(i) == LoopCase::Pond,
    ensures
        spec_loop_effects(spec_loop_state(s, i), i) == spec_pond_fixed(),
        spec_loop_state(spec_loop_state(s, i), i) == spec_loop_state(s, i),
{
    assert(spec_pond_fixed() + seq![] == spec_pond_fixed());
}

/// On Windfall Island the game warps to the ending exactly when the flowers
/// are worth 100 rupees.
pub proof fn lemma_ending_exactly_at_hundred(s: ChallengeState, i: LoopInput)
    requires
        spec_loop_case(i) == LoopCase::HundredRupees,
    ensures
        spec_loop_effects(s, i).last() == Effect::Warp(
            spec_warp_like(i.last_exit, Stage::Ending, 0, 0, true),
        ) <==> spec_flower_rupees(i.flowers) == 100,
{
    crate::windfall::lemma_flower_rupees_bounds(i.flowers);
}

/// A frame outside the challenge's stages clears the banner and nothing else.
pub proof fn lemma_elsewhere_only_clears(s: ChallengeState, i: LoopInput)
    requires
        spec_loop_case(i) == LoopCase::Elsewhere,
    ensures
        spec_loop_effects(s, i) == seq![Effect::ClearBanner],
        spec_loop_state(s, i) == s,
{
}

/// No effect but the last of a frame is a warp: a frame warps at most once,
/// and only after every other change is made.
pub proof fn lemma_frame_warps_last(s: ChallengeState, i: LoopInput)
    ensures
        forall|k: int|
            0 <= k < spec_loop_effects(s, i).len() - 1 ==> !(#[trigger] spec_loop_effects(s, i)[k] is Warp),
{
    let e = spec_loop_effects(s, i);
    if spec_loop_case(i) == LoopCase::HundredRupees {
        assert forall|k: int| 0 <= k < e.len() - 1 implies !(#[trigger] e[k] is Warp) by {
            if 1 <= k < 20 {
                assert(e[k] == spec_empty_slots()[k - 1]);
            }
        }
    }
}

/// A new file reaching the sea for the first time skips the intro: full
/// hearts, the Hero's Sword, and a warp into room 1 of the Earth Temple with
/// the look of the pending exit; nothing is remembered.
pub proof fn lemma_new_file_skips_to_earth_temple(s: ChallengeState, i: LoopInput)
    requires
        i.last_exit.entrance.stage == Stage::Sea,
        i.last_entrance.stage == Stage::NameSelect,
        !i.has_seen_intro,
    ensures
        spec_loop_effects(s, i) == seq![
            Effect::SetHeartPieces(40),
            Effect::SetHeartQuarters(40),
            Effect::SetSword(Sword::HerosSword),
            Effect::Warp(Warp {
                entrance: Entrance { stage: Stage::EarthTemple, entrance: 1, room: 1 },
                layer_override: i.last_exit.layer_override,
                fadeout: i.last_exit.fadeout,
                enabled: i.last_exit.enabled,
            }),
        ],
        spec_loop_state(s, i) == s,
{
}

/// Once the intro has been seen, no frame hands out the Hero's Sword or heart
/// pieces again.
pub proof fn lemma_seen_intro_gives_no_start_gear(s: ChallengeState, i: LoopInput)
    requires
        i.has_seen_intro,
    ensures
        forall|k: int|
            0 <= k < spec_loop_effects(s, i).len() ==> {
                &&& #[trigger] spec_loop_effects(s, i)[k] != Effect::SetSword(Sword::HerosSword)
                &&& !(spec_loop_effects(s, i)[k] is SetHeartPieces)
            },
{
    let e = spec_loop_effects(s, i);
    if spec_loop_case(i) == LoopCase::HundredRupees {
        assert forall|k: int| 0 <= k < e.len() implies {
            &&& #[trigger] e[k] != Effect::SetSword(Sword::HerosSword)
            &&& !(e[k] is SetHeartPieces)
        } by {
            if 1 <= k < 20 {
                assert(e[k] == spec_empty_slots()[k - 1]);
            }
        }
    }
}

/// A game over, a save warp or a reload (an exit to room 44 of the sea) that
/// is not a new file's first trip shows "you tried" and warps to the large
/// empty room, and does nothing else.
pub proof fn lemma_sea_room_44_is_you_tried(s: ChallengeState, i: LoopInput)
    requires
        i.last_exit.entrance.stage == Stage::Sea,
        i.last_exit.entrance.room == 44,
        i.has_seen_intro || i.last_entrance.stage != Stage::NameSelect,
    ensures
        spec_loop_effects(s, i) == seq![
            Effect::ShowBanner(Banner::YouTried),
            Effect::Warp(Warp {
                entrance: Entrance { stage: Stage::LargeEmptyRoom, entrance: 0, room: 0 },
                layer_override: i.last_exit.layer_override,
                fadeout: i.last_exit.fadeout,
                enabled: true,
            }),
        ],
        spec_loop_state(s, i) == s,
{
}

/// On Windfall Island the rupees are set exactly once per frame, to the
/// flowers' worth (however much that is, above 100 too), right after the
/// inventory is emptied and the delivery bag given back.
pub proof fn lemma_windfall_rupees_are_flower_worth(s: ChallengeState, i: LoopInput)
    requires
        spec_loop_case(i) == LoopCase::HundredRupees,
    ensures
        spec_loop_effects(s, i)[23] == Effect::SetRupees(spec_flower_rupees(i.flowers) as u16),
        spec_flower_rupees(i.flowers) as u16 == spec_flower_rupees(i.flowers),
        forall|k: int|
            0 <= k < spec_loop_effects(s, i).len() && k != 23 ==> !(
            #[trigger] spec_loop_effects(s, i)[k] is SetRupees),
{
    crate::windfall::lemma_flower_rupees_bounds(i.flowers);
    let e = spec_loop_effects(s, i);
    assert forall|k: int| 0 <= k < e.len() && k != 23 implies !(#[trigger] e[k] is SetRupees) by {
        if 1 <= k < 20 {
            assert(e[k] == spec_empty_slots()[k - 1]);
        }
    }
}

/// In the Earth Temple room Link entered, the intro flag is set; the
/// "Backwards is Forwards" banner shows while he still has the sword. In
/// room 0 the sword is taken for good and Link is warped to room 1; in room 1
/// he is warped, disabled, to the Earth Temple at the entrance and room of the
/// last exit.
pub proof fn lemma_earth_temple(s: ChallengeState, i: LoopInput)
    requires
        spec_loop_case(i) == LoopCase::EarthTemple,
    ensures
        ({
            let e = spec_loop_effects(s, i);
            let rest = if s.has_sword { e.drop_first() } else { e };
            &&& s.has_sword ==> e[0] == Effect::ShowBanner(Banner::BackwardsIsForwards)
            &&& rest[0] == Effect::ActivateFlag(Flag::HasSeenIntro)
            &&& i.link_room == 0 ==> rest.drop_first() == seq![
                Effect::ShowBanner(Banner::DoNotPassGo),
                Effect::SetSword(Sword::Unarmed),
                Effect::Warp(Warp {
                    entrance: Entrance { stage: Stage::EarthTemple, entrance: 1, room: 1 },
                    layer_override: i.last_exit.layer_override,
                    fadeout: i.last_exit.fadeout,
                    enabled: true,
                }),
            ]
            &&& i.link_room == 1 ==> rest.drop_first() == seq![
                Effect::Warp(Warp {
                    entrance: Entrance { stage: Stage::EarthTemple, ..i.last_exit.entrance },
                    layer_override: i.last_exit.layer_override,
                    fadeout: i.last_exit.fadeout,
                    enabled: false,
                }),
            ]
            &&& (i.link_room != 0 && i.link_room != 1) ==> rest.len() == 1
        }),
        spec_loop_state(s, i).has_sword == (s.has_sword && i.link_room != 0),
        spec_loop_state(s, i).adjusted_index == s.adjusted_index,
{
    let e = spec_loop_effects(s, i);
    let exit = i.last_exit;
    let tail = if i.link_room == 0 {
        seq![
            Effect::ShowBanner(Banner::DoNotPassGo),
            Effect::SetSword(Sword::Unarmed),
            Effect::Warp(spec_warp_like(exit, Stage::EarthTemple, 1, 1, true)),
        ]
    } else if i.link_room == 1 {
        seq![
            Effect::Warp(
                spec_warp_like(exit, Stage::EarthTemple, exit.entrance.entrance, exit.entrance.room, false),
            ),
        ]
    } else {
        seq![]
    };
    let rest = if s.has_sword { e.drop_first() } else { e };
    assert(rest =~= seq![Effect::ActivateFlag(Flag::HasSeenIntro)] + tail);
    assert(rest.drop_first() =~= tail);
}

/// Inside the Forsaken Fortress: before the first rope, full health and
/// door-cancel collision; after it, chest-storage collision while hurt and
/// normal collision at full health.
pub proof fn lemma_fortress_interior(s: ChallengeState, i: LoopInput)
    requires
        i.last_entrance.stage == Stage::ForsakenFortressInterior,
        !(i.last_exit.entrance.stage == Stage::Sea && i.last_exit.entrance.room == 44),
    ensures
        !i.grabbed_first_rope ==> spec_loop_effects(s, i) == seq![
            Effect::ShowBanner(Banner::OnTheRopes),
            Effect::SetHeartQuarters(40),
            Effect::SetCollision(Collision::DoorCancel),
        ],
        (i.grabbed_first_rope && i.heart_quarters < 40) ==> spec_loop_effects(s, i) == seq![
            Effect::ShowBanner(Banner::DoorsGetPaid),
            Effect::SetCollision(Collision::ChestStorage),
        ],
        (i.grabbed_first_rope && i.heart_quarters >= 40) ==> spec_loop_effects(s, i) == seq![
            Effect::ShowBanner(Banner::NoPainNoGain),
            Effect::SetCollision(Collision::Default),
        ],
        spec_loop_state(s, i) == s,
{
}

/// In the Forbidden Woods boss room Link gets the Deku leaf, 16 magic and the
/// uncharged Master Sword, with chest-storage collision.
pub proof fn lemma_forbidden_woods_boss(s: ChallengeState, i: LoopInput)
    requires
        i.last_entrance.stage == Stage::ForbiddenWoodsBoss,
        !(i.last_exit.entrance.stage == Stage::Sea && i.last_exit.entrance.room == 44),
    ensures
        spec_loop_effects(s, i) == seq![
            Effect::ShowBanner(Banner::UnconventionalMethods),
            Effect::SetCollision(Collision::ChestStorage),
            Effect::SetSlot { slot: 6, item: Item::DekuLeaf },
            Effect::SetMagic(16),
            Effect::SetMaxMagic(16),
            Effect::SetSword(Sword::UnchargedMasterSword),
        ],
        spec_loop_state(s, i) == s,
{
}

/// Under Link's house: no sword, no Deku leaf and no magic, but bombs and the
/// Tingle tuner.
pub proof fn lemma_under_links_house(s: ChallengeState, i: LoopInput)
    requires
        i.last_entrance.stage == Stage::UnderLinksHouse,
        !(i.last_exit.entrance.stage == Stage::Sea && i.last_exit.entrance.room == 44),
    ensures
        spec_loop_effects(s, i) == seq![
            Effect::ShowBanner(Banner::BombsAnswer),
            Effect::SetSword(Sword::Unarmed),
            Effect::SetSlot { slot: 6, item: Item::Empty },
            Effect::SetMagic(0),
            Effect::SetMaxMagic(0),
            Effect::SetSlot { slot: 13, item: Item::Bombs },
            Effect::SetSlot { slot: 7, item: Item::TingleTuner },
        ],
        spec_loop_state(s, i) == s,
{
}

/// In the Wizzrobe cave Link loses bombs and the Tingle tuner and gets the
/// Deku leaf, magic and the uncharged Master Sword; once the Wizzrobe is
/// beaten, the Deku leaf is taken again and Link warps to the Dragon Roost
/// pond.
pub proof fn lemma_wizzrobe(s: ChallengeState, i: LoopInput)
    requires
        i.last_entrance.stage == Stage::PawprintIsleWizzrobe,
        !(i.last_exit.entrance.stage == Stage::Sea && i.last_exit.entrance.room == 44),
    ensures
        spec_loop_effects(s, i).subrange(0, 8) == seq![
            Effect::ShowBanner(Banner::NoBowNeeded),
            Effect::SetSlot { slot: 13, item: Item::Empty },
            Effect::SetSlot { slot: 7, item: Item::Empty },
            Effect::SetCollision(Collision::ChestStorage),
            Effect::SetSword(Sword::UnchargedMasterSword),
            Effect::SetSlot { slot: 6, item: Item::DekuLeaf },
            Effect::SetMagic(16),
            Effect::SetMaxMagic(16),
        ],
        i.wizzrobe_state == 0x3F ==> spec_loop_effects(s, i).subrange(8, spec_loop_effects(s, i).len() as int)
            == seq![
            Effect::SetSlot { slot: 6, item: Item::Empty },
            Effect::Warp(Warp {
                entrance: Entrance { stage: Stage::DragonRoostPond, entrance: 1, room: 0 },
                layer_override: i.last_exit.layer_override,
                fadeout: i.last_exit.fadeout,
                enabled: true,
            }),
        ],
        i.wizzrobe_state != 0x3F ==> spec_loop_effects(s, i).len() == 8,
        spec_loop_state(s, i) == s,
{
}

/// At the Dragon Roost pond the left page of the inventory is given back,
/// with 16 magic, 99 bombs and no sword, before the item on X is mirrored.
pub proof fn lemma_pond_gear(s: ChallengeState, i: LoopInput)
    requires
        i.last_entrance.stage == Stage::DragonRoostPond,
        !(i.last_exit.entrance.stage == Stage::Sea && i.last_exit.entrance.room == 44),
    ensures
        spec_loop_effects(s, i).subrange(0, 15) == seq![
            Effect::ShowBanner(Banner::XControlsTheItems),
            Effect::SetSword(Sword::Unarmed),
            Effect::SetMagic(0),
            Effect::SetMaxMagic(0),
            Effect::SetMagic(16),
            Effect::SetMaxMagic(16),
            Effect::SetBombCount(99),
            Effect::SetSlot { slot: 0, item: Item::Telescope },
            Effect::SetSlot { slot: 1, item: Item::Sail },
            Effect::SetSlot { slot: 2, item: Item::WindWaker },
            Effect::SetSlot { slot: 3, item: Item::GrapplingHook },
            Effect::SetSlot { slot: 7, item: Item::TingleTuner },
            Effect::SetSlot { slot: 8, item: Item::PictoBox },
            Effect::SetSlot { slot: 9, item: Item::IronBoots },
            Effect::SetSlot { slot: 10, item: Item::MagicArmor },
        ],
        spec_loop_effects(s, i).len() == 15 <==> spec_mirror_slot(i.x_index) == s.adjusted_index,
        spec_mirror_slot(i.x_index) != s.adjusted_index ==> spec_loop_effects(s, i)[15]
            == (Effect::SetSlot { slot: s.adjusted_index, item: Item::Empty }),
        spec_loop_state(s, i).has_sword == s.has_sword,
{
}

/// On Windfall Island the banner shows, slots 0 to 18 are emptied in order,
/// the pedestals are activated, the delivery bag is given back and the
/// Windfall intro is marked as seen, before the rupees are set.
pub proof fn lemma_windfall_setup(s: ChallengeState, i: LoopInput)
    requires
        spec_loop_case(i) == LoopCase::HundredRupees,
    ensures
        spec_loop_effects(s, i)[0] == Effect::ShowBanner(Banner::HundredRupees),
        forall|x: int|
            1 <= x < 20 ==> #[trigger] spec_loop_effects(s, i)[x] == (Effect::SetSlot {
                slot: (x - 1) as u8,
                item: Item::Empty,
            }),
        spec_loop_effects(s, i)[20] == Effect::ActivatePedestals,
        spec_loop_effects(s, i)[21] == (Effect::SetSlot { slot: 18, item: Item::DeliveryBag }),
        spec_loop_effects(s, i)[22] == (Effect::WriteU8 { addr: 0x803B8888, byte: 0x80 }),
        spec_loop_state(s, i) == s,
{
    let e = spec_loop_effects(s, i);
    assert forall|x: int| 1 <= x < 20 implies #[trigger] e[x] == Effect::SetSlot {
        slot: (x - 1) as u8,
        item: Item::Empty,
    } by {
        assert(e[x] == spec_empty_slots()[x - 1]);
    }
}

} // verus!
