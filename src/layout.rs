//! The resolved layout and the fixed facts of its discovery: where the
//! signature matches point, the pointer chains of the four chained fields, and
//! the assembly of the five addresses into a complete layout.
use vstd::prelude::*;

verus! {

/// Size assumed for the game's main module when scanning it.
pub const MAIN_MODULE_SIZE: u64 = 0x4475000;

/// Distance from the primary signature's match to the 32-bit pointer to the
/// game-state structure.
pub const STATE_SITE_OFFSET: u64 = 14;

/// Distance from the zone-indicator signature's match to the 32-bit address of
/// the zone indicator.
pub const ZONE_SITE_OFFSET: u64 = 7;

/// The absolute addresses of the five tracked fields.
#[derive(Clone, Copy, Debug, PartialEq, Eq, Structural)]
pub struct Layout {
    pub state: u64,
    pub levelid: u64,
    pub startindicator: u64,
    pub zoneselectongamecomplete: u64,
    pub zoneindicator: u64,
}

/// The four fields reached through the game-state structure.
#[derive(Clone, Copy, Debug, PartialEq, Eq, Structural)]
pub enum ChainedField {
    State,
    LevelId,
    StartIndicator,
    ZoneSelectOnGameComplete,
}

/// A two-level pointer chain: the 32-bit pointer at `base + first` is
/// followed, the 32-bit value at that pointer plus `second` is read, and
/// `add` is added to it to give the field's address.
#[derive(Clone, Copy, Debug, PartialEq, Eq, Structural)]
pub struct PointerChain {
    pub first: u32,
    pub second: u32,
    pub add: u32,
}

pub open spec fn chain_spec(f: ChainedField) -> PointerChain {
    match f {
        ChainedField::State => PointerChain { first: (4 * 89) as u32, second: 8, add: 0x9D8 },
        ChainedField::LevelId => PointerChain { first: (4 * 123) as u32, second: 1, add: 0 },
        ChainedField::StartIndicator => PointerChain { first: (4 * 30) as u32, second: 8, add: 0x9D8 },
        ChainedField::ZoneSelectOnGameComplete => PointerChain {
            first: (4 * 91) as u32,
            second: 8,
            add: 0x9D8,
        },
    }
}

/// The pointer chain of a field.
pub fn chain_of(f: ChainedField) -> (r: PointerChain)
    ensures
        r == chain_spec(f),
{
    match f {
        ChainedField::State => PointerChain { first: 4 * 89, second: 8, add: 0x9D8 },
        ChainedField::LevelId => PointerChain { first: 4 * 123, second: 1, add: 0 },
        ChainedField::StartIndicator => PointerChain { first: 4 * 30, second: 8, add: 0x9D8 },
        ChainedField::ZoneSelectOnGameComplete => PointerChain {
            first: 4 * 91,
            second: 8,
            add: 0x9D8,
        },
    }
}

/// `base + offset`, or `None` past the end of the address space.
pub fn offset_address(base: u64, offset: u64) -> (r: Option<u64>)
    ensures
        base + offset <= u64::MAX ==> r == Some((base + offset) as u64),
        base + offset > u64::MAX ==> r is None,
{
    base.checked_add(offset)
}

impl Layout {
    /// A layout from the five resolved addresses, or `None` as soon as one
    /// of them is missing: never a partial layout.
    pub fn assemble(
        state: Option<u64>,
        levelid: Option<u64>,
        startindicator: Option<u64>,
        zoneselectongamecomplete: Option<u64>,
        zoneindicator: Option<u64>,
    ) -> (r: Option<Layout>)
        ensures
            r is Some <==> (state is Some && levelid is Some && startindicator is Some
                && zoneselectongamecomplete is Some && zoneindicator is Some),
            r is Some ==> r.unwrap() == (Layout {
                state: state.unwrap(),
                levelid: levelid.unwrap(),
                startindicator: startindicator.unwrap(),
                zoneselectongamecomplete: zoneselectongamecomplete.unwrap(),
                zoneindicator: zoneindicator.unwrap(),
            }),
    {
        match (state, levelid, startindicator, zoneselectongamecomplete, zoneindicator) {
            (Some(a), Some(b), Some(c), Some(d), Some(e)) => Some(
                Layout {
                    state: a,
                    levelid: b,
                    startindicator: c,
                    zoneselectongamecomplete: d,
                    zoneindicator: e,
                },
            ),
            _ => None,
        }
    }
}

} // verus!
