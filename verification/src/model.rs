use vstd::prelude::*;

verus! {

/// The stages the challenge tells apart. Every other stage is `Other`.
#[derive(Clone, Copy, Debug, PartialEq, Eq, Structural)]
pub enum Stage {
    Sea,
    NameSelect,
    Ending,
    LargeEmptyRoom,
    EarthTemple,
    ForsakenFortressInterior,
    ForsakenFortress,
    ForbiddenWoodsBoss,
    ForestHaven,
    UnderLinksHouse,
    PawprintIsleWizzrobe,
    DragonRoostPond,
    DragonRoostPostalService,
    DragonRoostCavern,
    BombShop,
    HouseOfWealth,
    CafeBar,
    ChuJellyJuiceShop,
    GameRoom,
    LenzosHouse,
    SchoolOfJoy,
    Jail,
    Other,
}

/// A place to enter: a stage, the entrance number within it, and a room.
#[derive(Clone, Copy, Debug, PartialEq, Eq, Structural)]
pub struct Entrance {
    pub stage: Stage,
    pub entrance: u16,
    pub room: u8,
}

/// A warp as the game describes it: where it leads and how it looks.
#[derive(Clone, Copy, Debug, PartialEq, Eq, Structural)]
pub struct Warp {
    pub entrance: Entrance,
    pub layer_override: i8,
    pub fadeout: u8,
    pub enabled: bool,
}

impl Warp {
    /// A warp to `stage`, at entrance `entrance` in room `room`.
    pub fn new(stage: Stage, entrance: u16, room: u8, layer_override: i8, fadeout: u8, enabled: bool) -> (w: Warp)
        ensures
            w == (Warp {
                entrance: Entrance { stage, entrance, room },
                layer_override,
                fadeout,
                enabled,
            }),
    {
        Warp { entrance: Entrance { stage, entrance, room }, layer_override, fadeout, enabled }
    }
}

/// The items the challenge puts into or takes out of the inventory.
#[derive(Clone, Copy, Debug, PartialEq, Eq, Structural)]
pub enum Item {
    Empty,
    Telescope,
    Sail,
    WindWaker,
    GrapplingHook,
    SpoilsBag,
    Boomerang,
    DekuLeaf,
    TingleTuner,
    PictoBox,
    IronBoots,
    MagicArmor,
    BaitBag,
    Bow,
    Bombs,
    DeliveryBag,
    Hookshot,
    SkullHammer,
    TownFlower,
}

/// The sword Link carries.
#[derive(Clone, Copy, Debug, PartialEq, Eq, Structural)]
pub enum Sword {
    Unarmed,
    HerosSword,
    UnchargedMasterSword,
}

/// How Link collides with the world.
#[derive(Clone, Copy, Debug, PartialEq, Eq, Structural)]
pub enum Collision {
    Default,
    ChestStorage,
    DoorCancel,
}

/// The event flags the challenge reads or sets.
#[derive(Clone, Copy, Debug, PartialEq, Eq, Structural)]
pub enum Flag {
    HasSeenIntro,
}

/// The spots on Windfall Island where a town flower can be placed.
#[derive(Clone, Copy, Debug, PartialEq, Eq, Structural)]
pub enum FlowerSpot {
    ShopLeft,
    BenchBush,
    BenchTree,
    BenchStone,
    PlatformRight,
    ShopRight,
    PlatformLeft,
    AlleyTree,
    GateCenterLeft,
    GateLeftLeft,
    GateLeftRight,
    GateCenterRight,
    GateRightRight,
    GateRightLeft,
}

/// The banners that the challenge writes on the first console line.
#[derive(Clone, Copy, Debug, PartialEq, Eq, Structural)]
pub enum Banner {
    YouTried,
    BackwardsIsForwards,
    DoNotPassGo,
    OnTheRopes,
    DoorsGetPaid,
    NoPainNoGain,
    UnconventionalMethods,
    BombsAnswer,
    NoBowNeeded,
    XControlsTheItems,
    HundredRupees,
}

/// The text of a banner.
pub open spec fn spec_banner_text(banner: Banner) -> Seq<char> {
    match banner {
        Banner::YouTried => "you tried :^)"@,
        Banner::BackwardsIsForwards => "- Backwards is Forwards -"@,
        Banner::DoNotPassGo => "- Do Not Pass Go, Do Not Collect 200 Rupees -"@,
        Banner::OnTheRopes => "- On the Ropes Without That Button -"@,
        Banner::DoorsGetPaid => "- Fuck Doors, Get Paid -"@,
        Banner::NoPainNoGain => "- No Pain, No Gain -"@,
        Banner::UnconventionalMethods => "- Unconventional Methods -"@,
        Banner::BombsAnswer => "- Bombs = The Answer to Life -"@,
        Banner::NoBowNeeded => "- You Don't Need a Bow For This -"@,
        Banner::XControlsTheItems => "- X Controls The Items -"@,
        Banner::HundredRupees => "- 100 Rupees -"@,
    }
}

/// The text that a banner shows on screen.
pub fn banner_text(banner: Banner) -> (text: &'static str)
    ensures
        text@ == spec_banner_text(banner),
{
    match banner {
        Banner::YouTried => "you tried :^)",
        Banner::BackwardsIsForwards => "- Backwards is Forwards -",
        Banner::DoNotPassGo => "- Do Not Pass Go, Do Not Collect 200 Rupees -",
        Banner::OnTheRopes => "- On the Ropes Without That Button -",
        Banner::DoorsGetPaid => "- Fuck Doors, Get Paid -",
        Banner::NoPainNoGain => "- No Pain, No Gain -",
        Banner::UnconventionalMethods => "- Unconventional Methods -",
        Banner::BombsAnswer => "- Bombs = The Answer to Life -",
        Banner::NoBowNeeded => "- You Don't Need a Bow For This -",
        Banner::XControlsTheItems => "- X Controls The Items -",
        Banner::HundredRupees => "- 100 Rupees -",
    }
}

/// One change that the challenge makes to the game, in the order given.
#[derive(Clone, Copy, Debug, PartialEq, Eq)]
pub enum Effect {
    /// Write a banner on the first console line.
    ShowBanner(Banner),
    /// Clear the first console line.
    ClearBanner,
    /// Execute a warp.
    Warp(Warp),
    /// Give Link a sword (or take it away).
    SetSword(Sword),
    /// Set Link's heart pieces.
    SetHeartPieces(u8),
    /// Set Link's heart quarters (his current health).
    SetHeartQuarters(u8),
    /// Set Link's magic.
    SetMagic(u8),
    /// Set Link's magic capacity.
    SetMaxMagic(u8),
    /// Set Link's collision type.
    SetCollision(Collision),
    /// Activate an event flag.
    ActivateFlag(Flag),
    /// Put an item into an inventory slot.
    SetSlot { slot: u8, item: Item },
    /// Set the number of bombs.
    SetBombCount(u8),
    /// Set the bomb capacity.
    SetBombCapacity(u8),
    /// Set the number of flowers on a Windfall flower spot.
    SetFlower { spot: FlowerSpot, count: u8 },
    /// Put an item into a slot of the delivery bag.
    SetDeliveryBagItem { index: u8, item: Item },
    /// Activate the flower pedestals on Windfall Island.
    ActivatePedestals,
    /// Set the rupees to the given amount, moving the difference into the
    /// "rupees left" counter.
    SetRupees(u16),
    /// Write a byte of game memory.
    WriteU8 { addr: u32, byte: u8 },
    /// Write a halfword of game memory.
    WriteU16 { addr: u32, halfword: u16 },
}

} // verus!
