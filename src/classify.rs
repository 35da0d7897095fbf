//! The start / split / reset classifier over committed snapshots, and the
//! choice of the timer signal for a poll.
use vstd::prelude::*;
use crate::decode::{Act, act_index, lemma_act_index_injective};
use crate::watchers::Watchers;

verus! {

/// A run starts: the primary state goes from 5 to 7 (a save file is
/// continued); or it is 4 while the start indicator changes to 1 (a new game
/// without a save file); or it is 6 while the start indicator changes to 1 and
/// zone select on game complete is off (new game plus).
pub open spec fn start_spec(w: Watchers) -> bool {
    match (w.state.pair, w.startindicator.pair, w.zoneselectongamecomplete.pair) {
        (Some(s), Some(si), Some(z)) => {
            ||| (s.old == 5 && s.current == 7)
            ||| (s.current == 4 && si.old != si.current && si.current == 1)
            ||| (s.current == 6 && si.old != si.current && si.current == 1 && z.current == 0)
        },
        _ => false,
    }
}

/// The move from `old` to `cur` ends a segment: into a named act only from
/// the act just before it in the order of play, into `Default` from any other
/// act.
pub open spec fn is_split(old: Act, cur: Act) -> bool {
    if cur == Act::Default {
        old != cur
    } else {
        act_index(old) + 1 == act_index(cur)
    }
}

pub open spec fn split_spec(w: Watchers) -> bool {
    match w.levelid.pair {
        Some(p) => is_split(p.old, p.current),
        None => false,
    }
}

/// The game leaves its boot / menu state 0 for a new run (4) or a continued
/// one (5).
pub open spec fn reset_spec(w: Watchers) -> bool {
    match w.state.pair {
        Some(s) => s.old == 0 && (s.current == 4 || s.current == 5),
        None => false,
    }
}

/// Whether a run starts at this poll.
pub fn start(w: &Watchers) -> (r: bool)
    ensures
        r == start_spec(*w),
{
    let (s, si, z) = match (w.state.pair, w.startindicator.pair, w.zoneselectongamecomplete.pair) {
        (Some(s), Some(si), Some(z)) => (s, si, z),
        _ => {
            return false;
        },
    };
    let startindicator_changed = si.old != si.current;
    let started_from_save_file = s.old == 5 && s.current == 7;
    let started_without_save_file = s.current == 4 && startindicator_changed && si.current == 1;
    let started_new_game_plus = s.current == 6 && startindicator_changed && si.current == 1
        && z.current == 0;
    started_from_save_file || started_without_save_file || started_new_game_plus
}

/// Whether a segment ends at this poll.
pub fn split(w: &Watchers) -> (r: bool)
    ensures
        r == split_spec(*w),
{
    let p = match w.levelid.pair {
        Some(p) => p,
        None => {
            return false;
        },
    };
    proof {
        lemma_act_index_injective(p.old, p.current);
    }
    match p.current {
        Act::EmeraldHill2 => matches!(p.old, Act::EmeraldHill1),
        Act::ChemicalPlant1 => matches!(p.old, Act::EmeraldHill2),
        Act::ChemicalPlant2 => matches!(p.old, Act::ChemicalPlant1),
        Act::AquaticRuin1 => matches!(p.old, Act::ChemicalPlant2),
        Act::AquaticRuin2 => matches!(p.old, Act::AquaticRuin1),
        Act::CasinoNight1 => matches!(p.old, Act::AquaticRuin2),
        Act::CasinoNight2 => matches!(p.old, Act::CasinoNight1),
        Act::HillTop1 => matches!(p.old, Act::CasinoNight2),
        Act::HillTop2 => matches!(p.old, Act::HillTop1),
        Act::MysticCave1 => matches!(p.old, Act::HillTop2),
        Act::MysticCave2 => matches!(p.old, Act::MysticCave1),
        Act::OilOcean1 => matches!(p.old, Act::MysticCave2),
        Act::OilOcean2 => matches!(p.old, Act::OilOcean1),
        Act::Metropolis1 => matches!(p.old, Act::OilOcean2),
        Act::Metropolis2 => matches!(p.old, Act::Metropolis1),
        Act::Metropolis3 => matches!(p.old, Act::Metropolis2),
        Act::SkyChase => matches!(p.old, Act::Metropolis3),
        Act::WingFortress => matches!(p.old, Act::SkyChase),
        Act::DeathEgg => matches!(p.old, Act::WingFortress),
        Act::Default => !matches!(p.old, Act::Default),
        Act::EmeraldHill1 => false,
    }
}

/// Whether the run resets at this poll.
pub fn reset(w: &Watchers) -> (r: bool)
    ensures
        r == reset_spec(*w),
{
    match w.state.pair {
        Some(s) => s.old == 0 && (s.current == 4 || s.current == 5),
        None => false,
    }
}

/// The run state that the timer reports.
#[derive(Clone, Copy, Debug, PartialEq, Eq, Structural)]
pub enum RunState {
    NotRunning,
    Running,
    Paused,
}

/// A signal for the timer.
#[derive(Clone, Copy, Debug, PartialEq, Eq, Structural)]
pub enum TimerAction {
    Start,
    Split,
    Reset,
}

/// The signal of a poll: a running or paused run is reset, or else split; a
/// run that is not running is started.
pub open spec fn decision(w: Watchers, run: RunState) -> Option<TimerAction> {
    if run == RunState::NotRunning {
        if start_spec(w) { Some(TimerAction::Start) } else { None }
    } else if reset_spec(w) {
        Some(TimerAction::Reset)
    } else if split_spec(w) {
        Some(TimerAction::Split)
    } else {
        None
    }
}

/// Chooses the signal for the timer once the snapshots are refreshed.
pub fn decide(w: &Watchers, run: RunState) -> (r: Option<TimerAction>)
    ensures
        r == decision(*w, run),
{
    match run {
        RunState::NotRunning => {
            if start(w) {
                Some(TimerAction::Start)
            } else {
                None
            }
        },
        RunState::Running | RunState::Paused => {
            if reset(w) {
                Some(TimerAction::Reset)
            } else if split(w) {
                Some(TimerAction::Split)
            } else {
                None
            }
        },
    }
}

/// Every act but `Default` and the first one has exactly one act from which
/// moving into it splits, the act before it in the order of play; the first
/// act has none.
pub proof fn lemma_split_single_predecessor(cur: Act, o1: Act, o2: Act)
    requires
        cur != Act::Default,
    ensures
        is_split(o1, cur) && is_split(o2, cur) ==> o1 == o2,
        cur != Act::EmeraldHill1 ==> exists|o: Act| is_split(o, cur),
        cur == Act::EmeraldHill1 ==> !is_split(o1, cur),
{
    lemma_act_index_injective(o1, o2);
    if cur != Act::EmeraldHill1 {
        let o = match cur {
            Act::EmeraldHill2 => Act::EmeraldHill1,
            Act::ChemicalPlant1 => Act::EmeraldHill2,
            Act::ChemicalPlant2 => Act::ChemicalPlant1,
            Act::AquaticRuin1 => Act::ChemicalPlant2,
            Act::AquaticRuin2 => Act::AquaticRuin1,
            Act::CasinoNight1 => Act::AquaticRuin2,
            Act::CasinoNight2 => Act::CasinoNight1,
            Act::HillTop1 => Act::CasinoNight2,
            Act::HillTop2 => Act::HillTop1,
            Act::MysticCave1 => Act::HillTop2,
            Act::MysticCave2 => Act::MysticCave1,
            Act::OilOcean1 => Act::MysticCave2,
            Act::OilOcean2 => Act::OilOcean1,
            Act::Metropolis1 => Act::OilOcean2,
            Act::Metropolis2 => Act::Metropolis1,
            Act::Metropolis3 => Act::Metropolis2,
            Act::SkyChase => Act::Metropolis3,
            Act::WingFortress => Act::SkyChase,
            _ => Act::WingFortress,
        };
        assert(is_split(o, cur));
    }
}

/// Continuing a save file (primary state 5 then 7) starts a run whatever the
/// other snapshots hold.
pub proof fn lemma_start_on_continue(w: Watchers)
    requires
        w.wf(),
        w.state.pair is Some,
        w.state.pair.unwrap().old == 5,
        w.state.pair.unwrap().current == 7,
    ensures
        start_spec(w),
{
}

/// With primary state 4, a run starts exactly when the start indicator has
/// just changed to 1.
pub proof fn lemma_start_on_new_game(w: Watchers)
    requires
        w.wf(),
        w.state.pair is Some,
        w.state.pair.unwrap().current == 4,
    ensures
        start_spec(w) <==> (w.startindicator.pair.unwrap().old != w.startindicator.pair.unwrap().current
            && w.startindicator.pair.unwrap().current == 1),
{
}

/// While some snapshot has never received a value, no predicate fires.
pub proof fn lemma_empty_snapshot_fires_nothing(w: Watchers)
    requires
        w.wf(),
        !w.all_filled(),
    ensures
        !start_spec(w),
        !split_spec(w),
        !reset_spec(w),
{
}

} // verus!
