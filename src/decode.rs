//! Decoding of the raw values read from the game into enumerated states.
use vstd::prelude::*;

verus! {

/// What the game's scene-category tag says the game is showing.
#[derive(Clone, Copy, Debug, PartialEq, Eq, Structural)]
pub enum ZoneIndicator {
    MainMenu,
    Zones,
    Ending,
    SaveSelect,
    /// Any tag that is none of the recognised ones.
    Default,
}

/// Tag (four ASCII bytes read little-endian) of the main menu: "Main".
pub const TAG_MAIN_MENU: u32 = 0x6E69614D;
/// Tag of the playable zones: "Zone".
pub const TAG_ZONES: u32 = 0x656E6F5A;
/// Tag of the ending sequence: "Endi".
pub const TAG_ENDING: u32 = 0x69646E45;
/// Tag of the save-select screen: "Save".
pub const TAG_SAVE_SELECT: u32 = 0x65766153;

/// The fixed tag table.
pub open spec fn zone_of_tag(tag: u32) -> ZoneIndicator {
    if tag == TAG_MAIN_MENU {
        ZoneIndicator::MainMenu
    } else if tag == TAG_ZONES {
        ZoneIndicator::Zones
    } else if tag == TAG_ENDING {
        ZoneIndicator::Ending
    } else if tag == TAG_SAVE_SELECT {
        ZoneIndicator::SaveSelect
    } else {
        ZoneIndicator::Default
    }
}

/// Decodes a zone-indicator tag; an unrecognised tag gives `Default`.
pub fn decode_zone_indicator(tag: u32) -> (r: ZoneIndicator)
    ensures
        r == zone_of_tag(tag),
{
    if tag == TAG_MAIN_MENU {
        ZoneIndicator::MainMenu
    } else if tag == TAG_ZONES {
        ZoneIndicator::Zones
    } else if tag == TAG_ENDING {
        ZoneIndicator::Ending
    } else if tag == TAG_SAVE_SELECT {
        ZoneIndicator::SaveSelect
    } else {
        ZoneIndicator::Default
    }
}

/// The four recognised tags decode one to one onto the four named zone
/// indicators, and every other tag decodes to `Default`.
pub proof fn lemma_zone_tags_one_to_one(tag: u32)
    ensures
        zone_of_tag(tag) == ZoneIndicator::MainMenu <==> tag == TAG_MAIN_MENU,
        zone_of_tag(tag) == ZoneIndicator::Zones <==> tag == TAG_ZONES,
        zone_of_tag(tag) == ZoneIndicator::Ending <==> tag == TAG_ENDING,
        zone_of_tag(tag) == ZoneIndicator::SaveSelect <==> tag == TAG_SAVE_SELECT,
        zone_of_tag(tag) == ZoneIndicator::Default <==> (tag != TAG_MAIN_MENU && tag != TAG_ZONES
            && tag != TAG_ENDING && tag != TAG_SAVE_SELECT),
{
}

/// The acts of the game in the order in which a run plays them, and
/// `Default`, which stands for "unknown" and for the ending sequence.
#[derive(Clone, Copy, Debug, PartialEq, Eq, Structural)]
pub enum Act {
    EmeraldHill1,
    EmeraldHill2,
    ChemicalPlant1,
    ChemicalPlant2,
    AquaticRuin1,
    AquaticRuin2,
    CasinoNight1,
    CasinoNight2,
    HillTop1,
    HillTop2,
    MysticCave1,
    MysticCave2,
    OilOcean1,
    OilOcean2,
    Metropolis1,
    Metropolis2,
    Metropolis3,
    SkyChase,
    WingFortress,
    DeathEgg,
    Default,
}

/// Number of named acts; raw level indices below it name an act.
pub const NUM_ACTS: u8 = 20;

/// Position of an act in the order of play; `Default` comes after all of them.
pub open spec fn act_index(a: Act) -> int {
    match a {
        Act::EmeraldHill1 => 0,
        Act::EmeraldHill2 => 1,
        Act::ChemicalPlant1 => 2,
        Act::ChemicalPlant2 => 3,
        Act::AquaticRuin1 => 4,
        Act::AquaticRuin2 => 5,
        Act::CasinoNight1 => 6,
        Act::CasinoNight2 => 7,
        Act::HillTop1 => 8,
        Act::HillTop2 => 9,
        Act::MysticCave1 => 10,
        Act::MysticCave2 => 11,
        Act::OilOcean1 => 12,
        Act::OilOcean2 => 13,
        Act::Metropolis1 => 14,
        Act::Metropolis2 => 15,
        Act::Metropolis3 => 16,
        Act::SkyChase => 17,
        Act::WingFortress => 18,
        Act::DeathEgg => 19,
        Act::Default => 20,
    }
}

/// The act that a raw level index names: index `i < 20` is the act at
/// position `i` of the order of play, anything else is `Default`.
pub open spec fn act_of_index(raw: u8) -> Act {
    match raw {
        0 => Act::EmeraldHill1,
        1 => Act::EmeraldHill2,
        2 => Act::ChemicalPlant1,
        3 => Act::ChemicalPlant2,
        4 => Act::AquaticRuin1,
        5 => Act::AquaticRuin2,
        6 => Act::CasinoNight1,
        7 => Act::CasinoNight2,
        8 => Act::HillTop1,
        9 => Act::HillTop2,
        10 => Act::MysticCave1,
        11 => Act::MysticCave2,
        12 => Act::OilOcean1,
        13 => Act::OilOcean2,
        14 => Act::Metropolis1,
        15 => Act::Metropolis2,
        16 => Act::Metropolis3,
        17 => Act::SkyChase,
        18 => Act::WingFortress,
        19 => Act::DeathEgg,
        _ => Act::Default,
    }
}

/// Two acts are equal exactly when they stand at the same position.
pub proof fn lemma_act_index_injective(a: Act, b: Act)
    ensures
        act_index(a) == act_index(b) <==> a == b,
        0 <= act_index(a) <= 20,
{
}

/// Decodes a raw level index.
pub fn decode_act(raw: u8) -> (r: Act)
    ensures
        r == act_of_index(raw),
        raw < NUM_ACTS ==> act_index(r) == raw as int,
        raw >= NUM_ACTS ==> r == Act::Default,
{
    match raw {
        0 => Act::EmeraldHill1,
        1 => Act::EmeraldHill2,
        2 => Act::ChemicalPlant1,
        3 => Act::ChemicalPlant2,
        4 => Act::AquaticRuin1,
        5 => Act::AquaticRuin2,
        6 => Act::CasinoNight1,
        7 => Act::CasinoNight2,
        8 => Act::HillTop1,
        9 => Act::HillTop2,
        10 => Act::MysticCave1,
        11 => Act::MysticCave2,
        12 => Act::OilOcean1,
        13 => Act::OilOcean2,
        14 => Act::Metropolis1,
        15 => Act::Metropolis2,
        16 => Act::Metropolis3,
        17 => Act::SkyChase,
        18 => Act::WingFortress,
        19 => Act::DeathEgg,
        _ => Act::Default,
    }
}

} // verus!
