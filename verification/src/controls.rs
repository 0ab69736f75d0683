use vstd::prelude::*;

use crate::model::{Effect, Entrance, Stage, Warp};
use crate::windfall::{push_reset_flowers, spec_reset_flowers};

verus! {

/// The game's bit for the A button in a button word.
pub const BUTTON_A: u16 = 0x0100;

/// Address of the first button word of the controller state.
pub const BUTTON_WORD_0: u32 = 0x803E0D2A;
/// Address of the second button word of the controller state.
pub const BUTTON_WORD_1: u32 = 0x803E0D2E;
/// Address of the third button word of the controller state.
pub const BUTTON_WORD_2: u32 = 0x803E0CF8;
/// Address of the fourth button word of the controller state.
pub const BUTTON_WORD_3: u32 = 0x803E0D42;

/// The writes that mask the four button words `words` (read from
/// `BUTTON_WORD_0` to `BUTTON_WORD_3`, in that order) with `mask`.
pub open spec fn spec_mask_all_buttons(mask: u16, words: [u16; 4]) -> Seq<Effect> {
    seq![
        Effect::WriteU16 { addr: BUTTON_WORD_0, halfword: words[0] & mask },
        Effect::WriteU16 { addr: BUTTON_WORD_1, halfword: words[1] & mask },
        Effect::WriteU16 { addr: BUTTON_WORD_2, halfword: words[2] & mask },
        Effect::WriteU16 { addr: BUTTON_WORD_3, halfword: words[3] & mask },
    ]
}

/// Appends the writes that keep only the buttons of `mask` in the four button
/// words of the controller state, whose current values are `words`.
pub fn push_mask_all_buttons(effects: &mut Vec<Effect>, mask: u16, words: [u16; 4])
    ensures
        final(effects)@ == old(effects)@ + spec_mask_all_buttons(mask, words),
{
    let m1 = words[0];
    let m2 = words[1];
    let m3 = words[2];
    let m4 = words[3];
    effects.push(Effect::WriteU16 { addr: BUTTON_WORD_0, halfword: m1 & mask });
    effects.push(Effect::WriteU16 { addr: BUTTON_WORD_1, halfword: m2 & mask });
    effects.push(Effect::WriteU16 { addr: BUTTON_WORD_2, halfword: m3 & mask });
    effects.push(Effect::WriteU16 { addr: BUTTON_WORD_3, halfword: m4 & mask });
}

/// The writes that keep only the buttons of `mask` in the four button words
/// of the controller state, whose current values are `words`.
pub fn mask_all_buttons(mask: u16, words: [u16; 4]) -> (effects: Vec<Effect>)
    ensures
        effects@ == spec_mask_all_buttons(mask, words),
{
    let mut effects: Vec<Effect> = Vec::new();
    push_mask_all_buttons(&mut effects, mask, words);
    effects
}

/// Masking a button word twice with the same mask is the same as masking it
/// once.
pub proof fn lemma_mask_idempotent(word: u16, mask: u16)
    ensures
        (word & mask) & mask == word & mask,
{
    assert((word & mask) & mask == word & mask) by (bit_vector);
}

/// Masking a button word with everything but A releases A and keeps every
/// other button as it was.
pub proof fn lemma_mask_releases_only_a(word: u16)
    ensures
        (word & !BUTTON_A) & BUTTON_A == 0,
        (word & !BUTTON_A) | (word & BUTTON_A) == word,
{
    assert((word & !0x0100u16) & 0x0100u16 == 0) by (bit_vector);
    assert((word & !0x0100u16) | (word & 0x0100u16) == word) by (bit_vector);
}

/// The entrance on the sea by which Link leaves a building of Windfall
/// Island; 0 for every other stage.
pub open spec fn spec_windfall_entrance(exit: Entrance) -> u16 {
    match exit.stage {
        Stage::BombShop => 1,
        Stage::HouseOfWealth => if exit.entrance == 0 { 3 } else { 4 },
        Stage::CafeBar => 6,
        Stage::ChuJellyJuiceShop => 7,
        Stage::GameRoom => if exit.entrance == 1 { 8 } else { 9 },
        Stage::LenzosHouse => 10,
        Stage::SchoolOfJoy => 12,
        Stage::Jail => 13,
        _ => 0,
    }
}

/// The entrance on the sea by which Link leaves the Windfall building that
/// `exit` leads into, or 0 when it does not lead into one.
pub fn windfall_entrance(exit: &Entrance) -> (entrance_num: u16)
    ensures
        entrance_num == spec_windfall_entrance(*exit),
{
    let mut entrance_num: u16 = 0;
    if exit.stage == Stage::BombShop {
        entrance_num = 1;
    } else if exit.stage == Stage::HouseOfWealth {
        if exit.entrance == 0 {
            entrance_num = 3;
        } else {
            entrance_num = 4;
        }
    } else if exit.stage == Stage::CafeBar {
        entrance_num = 6;
    } else if exit.stage == Stage::ChuJellyJuiceShop {
        entrance_num = 7;
    } else if exit.stage == Stage::GameRoom {
        if exit.entrance == 1 {
            entrance_num = 8;
        } else {
            entrance_num = 9;
        }
    } else if exit.stage == Stage::LenzosHouse {
        entrance_num = 10;
    } else if exit.stage == Stage::SchoolOfJoy {
        entrance_num = 12;
    } else if exit.stage == Stage::Jail {
        entrance_num = 13;
    }
    entrance_num
}

/// What the controller hook reads from the game.
#[derive(Clone, Copy, Debug, PartialEq, Eq)]
pub struct ControlInput {
    /// The warp the game is about to take (`Warp::last_exit`).
    pub last_exit: Warp,
    /// The entrance Link last came through (`Entrance::last_entrance`).
    pub last_entrance: Entrance,
    /// The number of bombs in the inventory.
    pub bomb_count: u8,
    /// The four button words, from `BUTTON_WORD_0` to `BUTTON_WORD_3`.
    pub button_words: [u16; 4],
}

/// A warp with the look (layer and fade) of the pending exit.
pub open spec fn spec_warp_like(
    exit: Warp,
    stage: Stage,
    entrance: u16,
    room: u8,
    enabled: bool,
) -> Warp {
    Warp {
        entrance: Entrance { stage, entrance, room },
        layer_override: exit.layer_override,
        fadeout: exit.fadeout,
        enabled,
    }
}

/// A warp to the sea, at room 11 (Windfall Island) on layer 6.
pub open spec fn spec_warp_to_windfall(exit: Warp, entrance: u16) -> Warp {
    Warp {
        entrance: Entrance { stage: Stage::Sea, entrance, room: 11 },
        layer_override: 6,
        fadeout: exit.fadeout,
        enabled: true,
    }
}

/// The effects of the controller hook after the buttons are masked: the
/// pending exit is replaced by the next stage of the challenge.
pub open spec fn spec_replace_warps(input: ControlInput) -> Seq<Effect> {
    let exit = input.last_exit;
    let stage = exit.entrance.stage;
    if stage == Stage::ForsakenFortress {
        seq![Effect::Warp(spec_warp_like(exit, Stage::ForbiddenWoodsBoss, 0, 0, true))]
    } else if stage == Stage::ForestHaven {
        seq![
            Effect::SetBombCount(45),
            Effect::SetBombCapacity(99),
            Effect::Warp(spec_warp_like(exit, Stage::UnderLinksHouse, 0, 0, true)),
        ]
    } else if stage == Stage::Sea && input.last_entrance.stage == Stage::UnderLinksHouse {
        if input.bomb_count == 42 {
            seq![Effect::Warp(spec_warp_like(exit, Stage::PawprintIsleWizzrobe, 0, 0, exit.enabled))]
        } else {
            seq![
                Effect::SetBombCount(45),
                Effect::Warp(spec_warp_like(exit, Stage::UnderLinksHouse, 0, 0, true)),
            ]
        }
    } else if stage == Stage::Sea && exit.entrance.room == 12 {
        seq![Effect::Warp(spec_warp_like(exit, Stage::PawprintIsleWizzrobe, 0, 0, exit.enabled))]
    } else if stage == Stage::DragonRoostPostalService {
        if exit.entrance.entrance == 3 {
            seq![Effect::Warp(spec_warp_like(exit, Stage::DragonRoostPond, 1, 0, true))]
        } else {
            seq![Effect::Warp(spec_warp_like(exit, Stage::DragonRoostPond, 0, 0, true))]
        }
    } else if stage == Stage::DragonRoostCavern {
        spec_reset_flowers().push(Effect::Warp(spec_warp_to_windfall(exit, 0)))
    } else if spec_windfall_entrance(exit.entrance) > 0 {
        spec_reset_flowers().push(
            Effect::Warp(spec_warp_to_windfall(exit, spec_windfall_entrance(exit.entrance))),
        )
    } else {
        seq![]
    }
}

/// The effects of the controller hook.
pub open spec fn spec_set_control_stuff(input: ControlInput) -> Seq<Effect> {
    (if input.last_entrance.stage == Stage::ForsakenFortressInterior {
        spec_mask_all_buttons(!BUTTON_A, input.button_words)
    } else {
        seq![]
    }) + spec_replace_warps(input)
}

/// The controller hook of the challenge: in the Forsaken Fortress interior
/// the A button does nothing, and the exits of the story are rerouted into
/// the next stage of the challenge.
pub fn set_control_stuff(input: &ControlInput) -> (effects: Vec<Effect>)
    ensures
        effects@ == spec_set_control_stuff(*input),
{
    let mut effects: Vec<Effect> = Vec::new();
    // modify controller inputs
    if input.last_entrance.stage == Stage::ForsakenFortressInterior {
        push_mask_all_buttons(&mut effects, !BUTTON_A, input.button_words);
    }
    let ghost masked = effects@;
    // replace warps
    let exit = input.last_exit;
    let stage_name = exit.entrance.stage;
    if stage_name == Stage::ForsakenFortress {
        let warp = Warp::new(Stage::ForbiddenWoodsBoss, 0, 0, exit.layer_override, exit.fadeout, true);
        effects.push(Effect::Warp(warp));
    } else if stage_name == Stage::ForestHaven {
        effects.push(Effect::SetBombCount(45));
        effects.push(Effect::SetBombCapacity(99));
        let warp = Warp::new(Stage::UnderLinksHouse, 0, 0, exit.layer_override, exit.fadeout, true);
        effects.push(Effect::Warp(warp));
    } else if stage_name == Stage::Sea && input.last_entrance.stage == Stage::UnderLinksHouse {
        if input.bomb_count == 42 {
            let warp = Warp::new(
                Stage::PawprintIsleWizzrobe,
                0,
                0,
                exit.layer_override,
                exit.fadeout,
                exit.enabled,
            );
            effects.push(Effect::Warp(warp));
        } else {
            effects.push(Effect::SetBombCount(45));
            let warp = Warp::new(Stage::UnderLinksHouse, 0, 0, exit.layer_override, exit.fadeout, true);
            effects.push(Effect::Warp(warp));
        }
    } else if stage_name == Stage::Sea && exit.entrance.room == 12 {
        let warp = Warp::new(
            Stage::PawprintIsleWizzrobe,
            0,
            0,
            exit.layer_override,
            exit.fadeout,
            exit.enabled,
        );
        effects.push(Effect::Warp(warp));
    } else if stage_name == Stage::DragonRoostPostalService {
        if exit.entrance.entrance == 3 {
            let warp = Warp::new(Stage::DragonRoostPond, 1, 0, exit.layer_override, exit.fadeout, true);
            effects.push(Effect::Warp(warp));
        } else {
            let warp = Warp::new(Stage::DragonRoostPond, 0, 0, exit.layer_override, exit.fadeout, true);
            effects.push(Effect::Warp(warp));
        }
    } else if stage_name == Stage::DragonRoostCavern {
        push_reset_flowers(&mut effects);
        let warp = Warp::new(Stage::Sea, 0, 11, 6, exit.fadeout, true);
        effects.push(Effect::Warp(warp));
    } else {
        let entrance_num = windfall_entrance(&exit.entrance);
        if entrance_num > 0 {
            push_reset_flowers(&mut effects);
            let warp = Warp::new(Stage::Sea, entrance_num, 11, 6, exit.fadeout, true);
            effects.push(Effect::Warp(warp));
        }
    }
    assert(effects@ == masked + spec_replace_warps(*input));
    effects
}

/// The Windfall buildings are exactly the stages with an entrance on the sea.
pub proof fn lemma_windfall_entrance_exactly_buildings(exit: Entrance)
    ensures
        spec_windfall_entrance(exit) > 0 <==> (exit.stage == Stage::BombShop
            || exit.stage == Stage::HouseOfWealth || exit.stage == Stage::CafeBar
            || exit.stage == Stage::ChuJellyJuiceShop || exit.stage == Stage::GameRoom
            || exit.stage == Stage::LenzosHouse || exit.stage == Stage::SchoolOfJoy
            || exit.stage == Stage::Jail),
{
}

/// The controller hook replaces the pending exit by at most one warp, and
/// when it does, the warp is its last effect.
pub proof fn lemma_reroute_ends_in_one_warp(input: ControlInput)
    ensures
        ({
            let r = spec_replace_warps(input);
            r.len() == 0 || (r.last() is Warp && forall|i: int| 0 <= i < r.len() - 1 ==> !(r[i] is Warp))
        }),
{
    let r = spec_replace_warps(input);
    assert forall|i: int| 0 <= i < spec_reset_flowers().len() implies !(spec_reset_flowers()[i] is Warp) by {
        if i >= 14 {
            assert(spec_reset_flowers()[i] == crate::windfall::spec_fill_bag_with_flowers()[i - 14]);
        }
    }
}

/// Whenever the controller hook sends Link back to Windfall Island (room 11 of
/// the sea), it resets the flower puzzle first, and nothing else.
pub proof fn lemma_windfall_warp_resets_flowers(input: ControlInput)
    ensures
        ({
            let r = spec_replace_warps(input);
            r.len() > 0 ==> ((r.last() matches Effect::Warp(w) && w.entrance.stage == Stage::Sea
                && w.entrance.room == 11) ==> r == spec_reset_flowers().push(r.last()))
        }),
{
}

/// `e` writes `word` masked with `mask` to `addr`: the written halfword has
/// no bit outside `mask`, and inside `mask` it agrees with `word`.
pub open spec fn writes_masked(e: Effect, addr: u32, word: u16, mask: u16) -> bool {
    e matches Effect::WriteU16 { addr: a, halfword: h } && a == addr && h & !mask == 0 && h & mask
        == word & mask
}

proof fn lemma_and_is_masked(word: u16, mask: u16)
    ensures
        (word & mask) & !mask == 0,
        (word & mask) & mask == word & mask,
{
    assert((word & mask) & !mask == 0) by (bit_vector);
    assert((word & mask) & mask == word & mask) by (bit_vector);
}

/// Masking writes each of the four button words, in order, back to its own
/// address, keeping exactly the bits of the mask.
pub proof fn lemma_mask_writes_each_word(mask: u16, words: [u16; 4])
    ensures
        spec_mask_all_buttons(mask, words).len() == 4,
        writes_masked(spec_mask_all_buttons(mask, words)[0], BUTTON_WORD_0, words[0], mask),
        writes_masked(spec_mask_all_buttons(mask, words)[1], BUTTON_WORD_1, words[1], mask),
        writes_masked(spec_mask_all_buttons(mask, words)[2], BUTTON_WORD_2, words[2], mask),
        writes_masked(spec_mask_all_buttons(mask, words)[3], BUTTON_WORD_3, words[3], mask),
{
    lemma_and_is_masked(words[0], mask);
    lemma_and_is_masked(words[1], mask);
    lemma_and_is_masked(words[2], mask);
    lemma_and_is_masked(words[3], mask);
}

/// Inside the Forsaken Fortress the controller hook first rewrites the four
/// button words with A released in every one of them and every other button
/// kept as it was.
pub proof fn lemma_fortress_releases_a_everywhere(input: ControlInput)
    requires
        input.last_entrance.stage == Stage::ForsakenFortressInterior,
    ensures
        spec_set_control_stuff(input).len() >= 4,
        forall|k: int|
            0 <= k < 4 ==> (#[trigger] spec_set_control_stuff(input)[k] matches Effect::WriteU16 {
                halfword,
                ..
            } && halfword & BUTTON_A == 0 && halfword | (input.button_words[k] & BUTTON_A)
                == input.button_words[k]),
{
    let e = spec_set_control_stuff(input);
    assert forall|k: int| 0 <= k < 4 implies (#[trigger] e[k] matches Effect::WriteU16 {
        halfword,
        ..
    } && halfword & BUTTON_A == 0 && halfword | (input.button_words[k] & BUTTON_A)
        == input.button_words[k]) by {
        let w = input.button_words[k];
        assert(e[k] == spec_mask_all_buttons(!BUTTON_A, input.button_words)[k]);
        lemma_mask_releases_only_a(w);
    }
}

/// Leaving under Link's house for the sea leads on to the Wizzrobe cave if
/// and only if Link carries exactly 42 bombs; with any other count he gets 45
/// bombs and is sent back under the house.
pub proof fn lemma_leaving_links_house(input: ControlInput)
    requires
        input.last_exit.entrance.stage == Stage::Sea,
        input.last_entrance.stage == Stage::UnderLinksHouse,
    ensures
        input.bomb_count == 42 ==> spec_set_control_stuff(input) == seq![
            Effect::Warp(Warp {
                entrance: Entrance { stage: Stage::PawprintIsleWizzrobe, entrance: 0, room: 0 },
                layer_override: input.last_exit.layer_override,
                fadeout: input.last_exit.fadeout,
                enabled: input.last_exit.enabled,
            }),
        ],
        input.bomb_count != 42 ==> spec_set_control_stuff(input) == seq![
            Effect::SetBombCount(45),
            Effect::Warp(Warp {
                entrance: Entrance { stage: Stage::UnderLinksHouse, entrance: 0, room: 0 },
                layer_override: input.last_exit.layer_override,
                fadeout: input.last_exit.fadeout,
                enabled: true,
            }),
        ],
{
    assert(seq![] + spec_replace_warps(input) == spec_replace_warps(input));
}

/// The House of Wealth has two doors to the sea: entrance 0 leads back to sea
/// entrance 3, every other entrance to sea entrance 4. Likewise the game room:
/// entrance 1 leads back to 8, every other entrance to 9.
pub proof fn lemma_two_door_buildings(exit: Entrance)
    ensures
        exit.stage == Stage::HouseOfWealth ==> (spec_windfall_entrance(exit) == 3 <==> exit.entrance
            == 0),
        exit.stage == Stage::HouseOfWealth ==> (spec_windfall_entrance(exit) == 4 <==> exit.entrance
            != 0),
        exit.stage == Stage::GameRoom ==> (spec_windfall_entrance(exit) == 8 <==> exit.entrance
            == 1),
        exit.stage == Stage::GameRoom ==> (spec_windfall_entrance(exit) == 9 <==> exit.entrance
            != 1),
{
}

/// Leaving the House of Wealth resets the flower puzzle and warps to room 11
/// of the sea at entrance 3 through door 0 and at entrance 4 through any
/// other door.
pub proof fn lemma_leaving_house_of_wealth(input: ControlInput)
    requires
        input.last_exit.entrance.stage == Stage::HouseOfWealth,
        input.last_entrance.stage != Stage::ForsakenFortressInterior,
    ensures
        spec_set_control_stuff(input) == spec_reset_flowers().push(
            Effect::Warp(Warp {
                entrance: Entrance {
                    stage: Stage::Sea,
                    entrance: if input.last_exit.entrance.entrance == 0 { 3 } else { 4 },
                    room: 11,
                },
                layer_override: 6,
                fadeout: input.last_exit.fadeout,
                enabled: true,
            }),
        ),
{
    assert(seq![] + spec_replace_warps(input) == spec_replace_warps(input));
}

/// Each Windfall building leads back to its own entrance on the sea.
pub proof fn lemma_windfall_entrance_table(exit: Entrance)
    ensures
        exit.stage == Stage::BombShop ==> spec_windfall_entrance(exit) == 1,
        exit.stage == Stage::CafeBar ==> spec_windfall_entrance(exit) == 6,
        exit.stage == Stage::ChuJellyJuiceShop ==> spec_windfall_entrance(exit) == 7,
        exit.stage == Stage::LenzosHouse ==> spec_windfall_entrance(exit) == 10,
        exit.stage == Stage::SchoolOfJoy ==> spec_windfall_entrance(exit) == 12,
        exit.stage == Stage::Jail ==> spec_windfall_entrance(exit) == 13,
{
}

/// Where the controller hook sends the exits of the story, and what else it
/// changes on the way, when Link is not inside the Forsaken Fortress.
pub proof fn lemma_story_reroutes(input: ControlInput)
    requires
        input.last_entrance.stage != Stage::ForsakenFortressInterior,
    ensures
        ({
            let exit = input.last_exit;
            let e = spec_set_control_stuff(input);
            &&& exit.entrance.stage == Stage::ForsakenFortress ==> e == seq![
                Effect::Warp(Warp {
                    entrance: Entrance { stage: Stage::ForbiddenWoodsBoss, entrance: 0, room: 0 },
                    layer_override: exit.layer_override,
                    fadeout: exit.fadeout,
                    enabled: true,
                }),
            ]
            &&& exit.entrance.stage == Stage::ForestHaven ==> e == seq![
                Effect::SetBombCount(45),
                Effect::SetBombCapacity(99),
                Effect::Warp(Warp {
                    entrance: Entrance { stage: Stage::UnderLinksHouse, entrance: 0, room: 0 },
                    layer_override: exit.layer_override,
                    fadeout: exit.fadeout,
                    enabled: true,
                }),
            ]
            &&& (exit.entrance.stage == Stage::Sea && exit.entrance.room == 12
                && input.last_entrance.stage != Stage::UnderLinksHouse) ==> e == seq![
                Effect::Warp(Warp {
                    entrance: Entrance { stage: Stage::PawprintIsleWizzrobe, entrance: 0, room: 0 },
                    layer_override: exit.layer_override,
                    fadeout: exit.fadeout,
                    enabled: exit.enabled,
                }),
            ]
            &&& exit.entrance.stage == Stage::DragonRoostPostalService ==> e == seq![
                Effect::Warp(Warp {
                    entrance: Entrance {
                        stage: Stage::DragonRoostPond,
                        entrance: if exit.entrance.entrance == 3 { 1 } else { 0 },
                        room: 0,
                    },
                    layer_override: exit.layer_override,
                    fadeout: exit.fadeout,
                    enabled: true,
                }),
            ]
            &&& exit.entrance.stage == Stage::DragonRoostCavern ==> e == spec_reset_flowers().push(
                Effect::Warp(Warp {
                    entrance: Entrance { stage: Stage::Sea, entrance: 0, room: 11 },
                    layer_override: 6,
                    fadeout: exit.fadeout,
                    enabled: true,
                }),
            )
            &&& (exit.entrance.stage == Stage::Other || exit.entrance.stage == Stage::Ending
                || exit.entrance.stage == Stage::EarthTemple) ==> e.len() == 0
        }),
{
    assert(seq![] + spec_replace_warps(input) == spec_replace_warps(input));
}

} // verus!
