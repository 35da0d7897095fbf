//! The attach lifecycle of the poll loop: which stage a poll is at, what each
//! outside observation does to the state, and the timer signal of a poll.
//! The caller performs the attach, the open check, the scans and the reads,
//! and hands their results in.
use vstd::prelude::*;
use crate::classify::{RunState, TimerAction, decide, decision};
use crate::layout::{Layout, MAIN_MODULE_SIZE};
use crate::watchers::{Readings, Watchers};

verus! {

/// An attached game process, its main module, and the layout once resolved.
#[derive(Debug)]
pub struct GameInfo<H> {
    pub process: H,
    pub module_base: u64,
    pub module_size: u64,
    pub layout: Option<Layout>,
}

/// The stage of the poll loop.
#[derive(Clone, Copy, Debug, PartialEq, Eq, Structural)]
pub enum Phase {
    /// No process attached: a poll tries to attach.
    Detached,
    /// Attached, layout not yet resolved: a poll scans for it.
    AttachedNoLayout,
    /// Attached with a layout: a poll reads the fields and classifies.
    Ready,
}

/// All state of the autosplitter, over a process handle of type `H`.
#[derive(Debug)]
pub struct Tracker<H> {
    pub game: Option<GameInfo<H>>,
    pub watchers: Watchers,
}

impl<H> Tracker<H> {
    pub open spec fn phase_spec(self) -> Phase {
        match self.game {
            None => Phase::Detached,
            Some(g) => if g.layout is None {
                Phase::AttachedNoLayout
            } else {
                Phase::Ready
            },
        }
    }

    /// Snapshots advance together, and they are empty while no layout is
    /// resolved.
    pub open spec fn wf(self) -> bool {
        &&& self.watchers.wf()
        &&& (self.phase_spec() != Phase::Ready ==> self.watchers.all_empty())
    }

    /// The state after attaching `process`, whose main module starts at
    /// `module_base`; attaching while attached changes nothing.
    pub open spec fn attached(self, process: H, module_base: u64) -> Self {
        if self.game is None {
            Tracker {
                game: Some(
                    GameInfo { process, module_base, module_size: MAIN_MODULE_SIZE, layout: None },
                ),
                watchers: self.watchers,
            }
        } else {
            self
        }
    }

    /// The state after the process was found closed: nothing of it is kept.
    pub open spec fn closed(self) -> Self {
        Tracker {
            game: None,
            watchers: Watchers {
                state: crate::snapshot::Snapshot { pair: None },
                levelid: crate::snapshot::Snapshot { pair: None },
                startindicator: crate::snapshot::Snapshot { pair: None },
                zoneselectongamecomplete: crate::snapshot::Snapshot { pair: None },
                zoneindicator: crate::snapshot::Snapshot { pair: None },
            },
        }
    }

    /// A detached tracker with empty snapshots.
    pub fn new() -> (r: Self)
        ensures
            r.phase_spec() == Phase::Detached,
            r.watchers.all_empty(),
            r.wf(),
    {
        Tracker { game: None, watchers: Watchers::new() }
    }

    /// The stage of the poll loop.
    pub fn phase(&self) -> (r: Phase)
        ensures
            r == self.phase_spec(),
    {
        match &self.game {
            None => Phase::Detached,
            Some(g) => if g.layout.is_none() {
                Phase::AttachedNoLayout
            } else {
                Phase::Ready
            },
        }
    }

    /// Records a successful attach.
    pub fn attach(&mut self, process: H, module_base: u64)
        ensures
            *final(self) == old(self).attached(process, module_base),
            old(self).wf() ==> final(self).wf(),
    {
        if self.game.is_none() {
            self.game = Some(
                GameInfo { process, module_base, module_size: MAIN_MODULE_SIZE, layout: None },
            );
        }
    }

    /// Records the result of the open check; a closed process is dropped
    /// with its layout and all snapshots. Returns whether a process is still
    /// attached.
    pub fn observe_open(&mut self, open: bool) -> (attached: bool)
        ensures
            open ==> *final(self) == *old(self),
            !open ==> *final(self) == old(self).closed(),
            attached == final(self).game is Some,
            old(self).wf() ==> final(self).wf(),
    {
        if !open {
            self.game = None;
            self.watchers = Watchers::new();
        }
        self.game.is_some()
    }

    /// Records the outcome of a layout resolution: a resolved layout is kept
    /// for as long as the process stays attached; one is resolved at most once
    /// per attach.
    pub fn resolve_layout(&mut self, layout: Option<Layout>)
        ensures
            old(self).phase_spec() == Phase::AttachedNoLayout ==> *final(self) == (Tracker {
                game: Some(GameInfo { layout, ..old(self).game.unwrap() }),
                watchers: old(self).watchers,
            }),
            old(self).phase_spec() != Phase::AttachedNoLayout ==> *final(self) == *old(self),
            old(self).wf() ==> final(self).wf(),
    {
        if let Some(g) = &mut self.game {
            if g.layout.is_none() {
                g.layout = layout;
            }
        }
    }

    /// One poll once the layout is resolved: commits the readings (all or
    /// nothing), then picks the signal for the timer from the snapshots as
    /// they then stand. Before a layout is resolved nothing changes and no
    /// signal is given.
    pub fn poll(&mut self, readings: &Readings, run: RunState) -> (r: Option<TimerAction>)
        ensures
            old(self).phase_spec() == Phase::Ready ==> {
                &&& final(self).game == old(self).game
                &&& final(self).watchers == old(self).watchers.refreshed(*readings)
                &&& r == decision(final(self).watchers, run)
            },
            old(self).phase_spec() != Phase::Ready ==> *final(self) == *old(self) && r is None,
            old(self).wf() ==> final(self).wf(),
    {
        let ready = match &self.game {
            Some(g) => g.layout.is_some(),
            None => false,
        };
        if !ready {
            return None;
        }
        self.watchers.refresh(readings);
        decide(&self.watchers, run)
    }
}

/// The state that survives a trap of the autosplitter: none of it. The host
/// tears the instance down, so the next tick starts detached with empty
/// snapshots, as after the process closing.
pub fn panic<H>(t: Tracker<H>) -> (r: Tracker<H>)
    ensures
        r == t.closed(),
        r.phase_spec() == Phase::Detached,
        r.wf(),
{
    Tracker::new()
}

/// A process found closed loses its layout: the next attach starts without
/// one, so the following polls scan for both signatures again rather than
/// reuse the addresses of the earlier process.
pub proof fn lemma_reattach_rescans<H>(t: Tracker<H>, process: H, module_base: u64)
    ensures
        t.closed().phase_spec() == Phase::Detached,
        t.closed().attached(process, module_base).phase_spec() == Phase::AttachedNoLayout,
        t.closed().attached(process, module_base).game.unwrap().layout is None,
        t.closed().attached(process, module_base).watchers.all_empty(),
{
}

} // verus!
