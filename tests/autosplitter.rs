use sonic2_autosplitter::classify::{decide, reset, split, start, RunState, TimerAction};
use sonic2_autosplitter::decode::{
    decode_act, decode_zone_indicator, Act, ZoneIndicator, TAG_ENDING, TAG_MAIN_MENU,
    TAG_SAVE_SELECT, TAG_ZONES,
};
use sonic2_autosplitter::layout::{
    chain_of, offset_address, ChainedField, Layout, PointerChain, MAIN_MODULE_SIZE,
};
use sonic2_autosplitter::resolver::{Probe, Resolver};
use sonic2_autosplitter::snapshot::{Pair, Snapshot};
use sonic2_autosplitter::tracker::{Phase, Tracker};
use sonic2_autosplitter::watchers::{level_id_needed, Readings, Watchers};

const ACTS_IN_ORDER: [Act; 20] = [
    Act::EmeraldHill1,
    Act::EmeraldHill2,
    Act::ChemicalPlant1,
    Act::ChemicalPlant2,
    Act::AquaticRuin1,
    Act::AquaticRuin2,
    Act::CasinoNight1,
    Act::CasinoNight2,
    Act::HillTop1,
    Act::HillTop2,
    Act::MysticCave1,
    Act::MysticCave2,
    Act::OilOcean1,
    Act::OilOcean2,
    Act::Metropolis1,
    Act::Metropolis2,
    Act::Metropolis3,
    Act::SkyChase,
    Act::WingFortress,
    Act::DeathEgg,
];

fn pair<T: Copy>(old: T, current: T) -> Snapshot<T> {
    Snapshot { pair: Some(Pair { old, current }) }
}

fn filled(state: (u8, u8), start: (u8, u8), zsel: (u8, u8), level: (Act, Act)) -> Watchers {
    Watchers {
        state: pair(state.0, state.1),
        levelid: pair(level.0, level.1),
        startindicator: pair(start.0, start.1),
        zoneselectongamecomplete: pair(zsel.0, zsel.1),
        zoneindicator: pair(ZoneIndicator::Zones, ZoneIndicator::Zones),
    }
}

fn levels(old: Act, current: Act) -> Watchers {
    filled((8, 8), (0, 0), (0, 0), (old, current))
}

fn states(old: u8, current: u8) -> Watchers {
    filled((old, current), (0, 0), (0, 0), (Act::EmeraldHill1, Act::EmeraldHill1))
}

fn readings(state: u8, start: u8, zsel: u8, tag: u32, level: u8) -> Readings {
    Readings {
        state: Some(state),
        startindicator: Some(start),
        zoneselectongamecomplete: Some(zsel),
        zoneindicator: Some(tag),
        levelid: Some(level),
    }
}

fn ready_tracker() -> Tracker<u32> {
    let mut t: Tracker<u32> = Tracker::new();
    t.attach(7, 0x40_0000);
    t.resolve_layout(Some(Layout {
        state: 1,
        levelid: 2,
        startindicator: 3,
        zoneselectongamecomplete: 4,
        zoneindicator: 5,
    }));
    t
}

#[test]
fn level_index_decodes_in_order_of_play() {
    for (i, act) in ACTS_IN_ORDER.iter().enumerate() {
        assert_eq!(decode_act(i as u8), *act);
    }
    assert_eq!(decode_act(0), Act::EmeraldHill1);
    assert_eq!(decode_act(19), Act::DeathEgg);
}

#[test]
fn level_index_out_of_range_decodes_default() {
    for raw in 20..=255u8 {
        assert_eq!(decode_act(raw), Act::Default);
    }
}

#[test]
fn zone_tags_decode() {
    assert_eq!(decode_zone_indicator(TAG_MAIN_MENU), ZoneIndicator::MainMenu);
    assert_eq!(decode_zone_indicator(TAG_ZONES), ZoneIndicator::Zones);
    assert_eq!(decode_zone_indicator(TAG_ENDING), ZoneIndicator::Ending);
    assert_eq!(decode_zone_indicator(TAG_SAVE_SELECT), ZoneIndicator::SaveSelect);
    assert_eq!(decode_zone_indicator(u32::from_le_bytes(*b"Zone")), ZoneIndicator::Zones);
    assert_eq!(decode_zone_indicator(0), ZoneIndicator::Default);
    assert_eq!(decode_zone_indicator(0x6E69614E), ZoneIndicator::Default);
    assert_eq!(decode_zone_indicator(u32::MAX), ZoneIndicator::Default);
}

#[test]
fn ending_forces_default_level() {
    assert!(!level_id_needed(TAG_ENDING));
    assert!(level_id_needed(TAG_ZONES));
    let mut w = Watchers::new();
    assert!(w.refresh(&readings(8, 0, 0, TAG_ZONES, 3)));
    assert!(w.refresh(&readings(8, 0, 0, TAG_ENDING, 3)));
    assert_eq!(w.zoneindicator.pair.unwrap().current, ZoneIndicator::Ending);
    assert_eq!(w.levelid.pair.unwrap().old, Act::ChemicalPlant2);
    assert_eq!(w.levelid.pair.unwrap().current, Act::Default);
    // No level index is needed during the ending.
    let mut r = readings(8, 0, 0, TAG_ENDING, 0);
    r.levelid = None;
    assert!(w.refresh(&r));
    assert_eq!(w.levelid.pair.unwrap().current, Act::Default);
}

#[test]
fn split_follows_order_of_play() {
    assert!(split(&levels(Act::EmeraldHill1, Act::EmeraldHill2)));
    assert!(!split(&levels(Act::ChemicalPlant1, Act::EmeraldHill2)));
    for i in 1..20 {
        for j in 0..20 {
            let expected = j + 1 == i;
            assert_eq!(split(&levels(ACTS_IN_ORDER[j], ACTS_IN_ORDER[i])), expected);
        }
    }
    for j in 0..20 {
        assert!(!split(&levels(ACTS_IN_ORDER[j], Act::EmeraldHill1)));
    }
}

#[test]
fn split_into_default_from_any_other_act() {
    assert!(split(&levels(Act::DeathEgg, Act::Default)));
    assert!(split(&levels(Act::HillTop1, Act::Default)));
    assert!(!split(&levels(Act::Default, Act::Default)));
}

#[test]
fn split_does_not_fire_when_leaving_default() {
    assert!(!split(&levels(Act::Default, Act::EmeraldHill1)));
    assert!(!split(&levels(Act::Default, Act::EmeraldHill2)));
}

#[test]
fn reset_from_boot_state() {
    assert!(reset(&states(0, 4)));
    assert!(reset(&states(0, 5)));
    assert!(!reset(&states(0, 6)));
    assert!(!reset(&states(4, 5)));
    assert!(!reset(&states(0, 0)));
}

#[test]
fn start_conditions() {
    assert!(start(&filled((5, 7), (3, 3), (9, 9), (Act::Default, Act::Default))));
    assert!(start(&filled((4, 4), (0, 1), (1, 1), (Act::Default, Act::Default))));
    assert!(!start(&filled((4, 4), (1, 1), (0, 0), (Act::Default, Act::Default))));
    assert!(start(&filled((6, 6), (0, 1), (0, 0), (Act::Default, Act::Default))));
    assert!(!start(&filled((6, 6), (0, 1), (0, 1), (Act::Default, Act::Default))));
    assert!(!start(&filled((4, 4), (0, 2), (0, 0), (Act::Default, Act::Default))));
}

#[test]
fn empty_snapshots_fire_nothing() {
    let w = Watchers::new();
    assert!(!start(&w));
    assert!(!split(&w));
    assert!(!reset(&w));
    assert_eq!(decide(&w, RunState::Running), None);
    assert_eq!(decide(&w, RunState::NotRunning), None);
}

#[test]
fn first_value_fills_both_slots() {
    let mut s: Snapshot<u8> = Snapshot::new();
    assert!(s.pair.is_none());
    s.update(3);
    assert_eq!((s.pair.unwrap().old, s.pair.unwrap().current), (3, 3));
    s.update(9);
    assert_eq!((s.pair.unwrap().old, s.pair.unwrap().current), (3, 9));
}

#[test]
fn failed_read_changes_no_snapshot() {
    let mut w = Watchers::new();
    assert!(w.refresh(&readings(0, 0, 0, TAG_ZONES, 1)));
    assert!(w.refresh(&readings(4, 1, 0, TAG_ZONES, 2)));
    for k in 0..5 {
        let mut r = readings(5, 0, 1, TAG_MAIN_MENU, 3);
        match k {
            0 => r.state = None,
            1 => r.startindicator = None,
            2 => r.zoneselectongamecomplete = None,
            3 => r.zoneindicator = None,
            _ => r.levelid = None,
        }
        assert!(!w.refresh(&r));
        assert_eq!((w.state.pair.unwrap().old, w.state.pair.unwrap().current), (0, 4));
        assert_eq!(w.startindicator.pair.unwrap().current, 1);
        assert_eq!(w.zoneselectongamecomplete.pair.unwrap().current, 0);
        assert_eq!(w.zoneindicator.pair.unwrap().current, ZoneIndicator::Zones);
        assert_eq!(w.levelid.pair.unwrap().old, Act::EmeraldHill2);
        assert_eq!(w.levelid.pair.unwrap().current, Act::ChemicalPlant1);
    }
}

#[test]
fn reset_then_start_scenario() {
    let mut t = ready_tracker();
    assert_eq!(t.poll(&readings(0, 0, 2, TAG_ZONES, 0), RunState::Running), None);
    assert_eq!(t.poll(&readings(0, 0, 2, TAG_ZONES, 0), RunState::Running), None);
    assert_eq!(
        t.poll(&readings(4, 0, 2, TAG_ZONES, 0), RunState::Running),
        Some(TimerAction::Reset)
    );
    assert_eq!(
        t.poll(&readings(6, 1, 0, TAG_ZONES, 0), RunState::NotRunning),
        Some(TimerAction::Start)
    );
}

#[test]
fn split_only_on_entering_next_act() {
    let mut t = ready_tracker();
    assert_eq!(t.poll(&readings(8, 0, 0, TAG_ZONES, 0), RunState::Running), None);
    assert_eq!(t.poll(&readings(8, 0, 0, TAG_ZONES, 0), RunState::Running), None);
    assert_eq!(
        t.poll(&readings(8, 0, 0, TAG_ZONES, 1), RunState::Running),
        Some(TimerAction::Split)
    );
}

#[test]
fn reset_takes_precedence_over_split() {
    let w = filled((0, 4), (0, 0), (0, 0), (Act::EmeraldHill1, Act::EmeraldHill2));
    assert_eq!(decide(&w, RunState::Running), Some(TimerAction::Reset));
    assert_eq!(decide(&w, RunState::Paused), Some(TimerAction::Reset));
    assert_eq!(decide(&w, RunState::NotRunning), None);
    let w = levels(Act::EmeraldHill1, Act::EmeraldHill2);
    assert_eq!(decide(&w, RunState::Paused), Some(TimerAction::Split));
}

#[test]
fn detaching_discards_layout_and_snapshots() {
    let mut t = ready_tracker();
    assert_eq!(t.phase(), Phase::Ready);
    t.poll(&readings(0, 0, 0, TAG_ZONES, 0), RunState::Running);
    assert!(t.observe_open(true));
    assert_eq!(t.phase(), Phase::Ready);
    assert!(!t.observe_open(false));
    assert_eq!(t.phase(), Phase::Detached);
    assert!(t.watchers.state.pair.is_none());
    t.attach(8, 0x50_0000);
    assert_eq!(t.phase(), Phase::AttachedNoLayout);
    let g = t.game.as_ref().unwrap();
    assert_eq!((g.process, g.module_base, g.module_size), (8, 0x50_0000, MAIN_MODULE_SIZE));
    assert!(g.layout.is_none());
    // No poll is classified before the layout is resolved again.
    assert_eq!(t.poll(&readings(0, 0, 0, TAG_ZONES, 0), RunState::Running), None);
    assert!(t.watchers.state.pair.is_none());
}

#[test]
fn layout_resolved_once_per_attach() {
    let mut t: Tracker<u32> = Tracker::new();
    assert_eq!(t.phase(), Phase::Detached);
    t.resolve_layout(None);
    assert_eq!(t.phase(), Phase::Detached);
    t.attach(1, 0x1000);
    t.attach(2, 0x2000);
    assert_eq!(t.game.as_ref().unwrap().process, 1);
    t.resolve_layout(None);
    assert_eq!(t.phase(), Phase::AttachedNoLayout);
    let first = Layout::assemble(Some(1), Some(2), Some(3), Some(4), Some(5)).unwrap();
    t.resolve_layout(Some(first));
    let second = Layout::assemble(Some(9), Some(9), Some(9), Some(9), Some(9)).unwrap();
    t.resolve_layout(Some(second));
    assert_eq!(t.game.as_ref().unwrap().layout, Some(first));
}

#[test]
fn chains_of_the_fields() {
    assert_eq!(
        chain_of(ChainedField::State),
        PointerChain { first: 356, second: 8, add: 0x9D8 }
    );
    assert_eq!(
        chain_of(ChainedField::LevelId),
        PointerChain { first: 492, second: 1, add: 0 }
    );
    assert_eq!(
        chain_of(ChainedField::StartIndicator),
        PointerChain { first: 120, second: 8, add: 0x9D8 }
    );
    assert_eq!(
        chain_of(ChainedField::ZoneSelectOnGameComplete),
        PointerChain { first: 364, second: 8, add: 0x9D8 }
    );
    assert_eq!(offset_address(0x1000, 14), Some(0x100E));
    assert_eq!(offset_address(u64::MAX - 3, 14), None);
}

#[test]
fn resolver_walks_scans_and_chains() {
    let mut r = Resolver::new(0x40_0000, MAIN_MODULE_SIZE);
    assert_eq!(r.probe(), Probe::ScanPrimary { start: 0x40_0000, len: MAIN_MODULE_SIZE });
    assert_eq!(r.feed(Some(0x40_1000)), Probe::ReadU32 { address: 0x40_100E });
    // The game-state structure.
    assert_eq!(r.feed(Some(0x10_0000)), Probe::ReadU32 { address: 0x10_0000 + 356 });
    assert_eq!(r.feed(Some(0x20_0000)), Probe::ReadU32 { address: 0x20_0008 });
    assert_eq!(r.feed(Some(0x30_0000)), Probe::ReadU32 { address: 0x10_0000 + 492 });
    assert_eq!(r.feed(Some(0x21_0000)), Probe::ReadU32 { address: 0x21_0001 });
    assert_eq!(r.feed(Some(0x31_0000)), Probe::ReadU32 { address: 0x10_0000 + 120 });
    assert_eq!(r.feed(Some(0x22_0000)), Probe::ReadU32 { address: 0x22_0008 });
    assert_eq!(r.feed(Some(0x32_0000)), Probe::ReadU32 { address: 0x10_0000 + 364 });
    assert_eq!(r.feed(Some(0x23_0000)), Probe::ReadU32 { address: 0x23_0008 });
    assert_eq!(
        r.feed(Some(0x33_0000)),
        Probe::ScanZoneIndicator { start: 0x40_0000, len: MAIN_MODULE_SIZE }
    );
    assert_eq!(r.feed(Some(0x40_2000)), Probe::ReadU32 { address: 0x40_2007 });
    assert_eq!(
        r.feed(Some(0x50_0000)),
        Probe::Finished(Layout {
            state: 0x30_09D8,
            levelid: 0x31_0000,
            startindicator: 0x32_09D8,
            zoneselectongamecomplete: 0x33_09D8,
            zoneindicator: 0x50_0000,
        })
    );
}

#[test]
fn resolver_fails_on_any_failed_step() {
    for fail_at in 0..12 {
        let mut r = Resolver::new(0x40_0000, 0x1000);
        let mut p = r.probe();
        for k in 0..fail_at {
            p = r.feed(Some(0x1000 + k as u64));
        }
        assert!(!matches!(p, Probe::Failed | Probe::Finished(_)));
        assert_eq!(r.feed(None), Probe::Failed);
        assert_eq!(r.probe(), Probe::Failed);
    }
}

#[test]
fn resolver_fails_past_address_space() {
    let mut r = Resolver::new(0, 0x1000);
    assert_eq!(r.feed(Some(u64::MAX - 3)), Probe::Failed);
}

#[test]
fn layout_is_never_partial() {
    assert_eq!(Layout::assemble(Some(1), Some(2), Some(3), Some(4), None), None);
    assert_eq!(Layout::assemble(None, Some(2), Some(3), Some(4), Some(5)), None);
    assert_eq!(
        Layout::assemble(Some(1), Some(2), Some(3), Some(4), Some(5)),
        Some(Layout {
            state: 1,
            levelid: 2,
            startindicator: 3,
            zoneselectongamecomplete: 4,
            zoneindicator: 5
        })
    );
}
