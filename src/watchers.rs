//! The set of snapshots over the five tracked fields, refreshed once per poll.
use vstd::prelude::*;
use crate::decode::{Act, ZoneIndicator, act_of_index, zone_of_tag, decode_act, decode_zone_indicator};
use crate::snapshot::Snapshot;

verus! {

/// One snapshot per tracked field of the game.
#[derive(Clone, Copy, Debug)]
pub struct Watchers {
    pub state: Snapshot<u8>,
    pub levelid: Snapshot<Act>,
    pub startindicator: Snapshot<u8>,
    pub zoneselectongamecomplete: Snapshot<u8>,
    pub zoneindicator: Snapshot<ZoneIndicator>,
}

/// What one poll read from the game, field by field; `None` where the read
/// failed or was not made.
#[derive(Clone, Copy, Debug)]
pub struct Readings {
    pub state: Option<u8>,
    pub startindicator: Option<u8>,
    pub zoneselectongamecomplete: Option<u8>,
    /// The raw zone-indicator tag.
    pub zoneindicator: Option<u32>,
    /// The raw level index; not needed while the tag says `Ending`.
    pub levelid: Option<u8>,
}

/// Whether a poll that read `tag` as zone indicator goes on to read the level
/// index: not while the game shows its ending.
pub open spec fn level_id_read_needed(tag: u32) -> bool {
    zone_of_tag(tag) != ZoneIndicator::Ending
}

/// Whether a poll's readings hold every value that a refresh commits.
pub open spec fn readings_complete(r: Readings) -> bool {
    &&& r.state is Some
    &&& r.startindicator is Some
    &&& r.zoneselectongamecomplete is Some
    &&& r.zoneindicator is Some
    &&& (level_id_read_needed(r.zoneindicator.unwrap()) ==> r.levelid is Some)
}

/// The act a complete poll commits: `Default` during the ending, whatever the
/// raw index, else the act that the raw index names.
pub open spec fn committed_act(r: Readings) -> Act {
    if level_id_read_needed(r.zoneindicator.unwrap()) {
        act_of_index(r.levelid.unwrap())
    } else {
        Act::Default
    }
}

/// Whether the game shows its ending sequence.
pub fn level_id_needed(tag: u32) -> (r: bool)
    ensures
        r == level_id_read_needed(tag),
{
    !matches!(decode_zone_indicator(tag), ZoneIndicator::Ending)
}

impl Watchers {
    /// All five snapshots empty.
    pub fn new() -> (r: Self)
        ensures
            r.all_empty(),
            r.wf(),
    {
        Watchers {
            state: Snapshot::new(),
            levelid: Snapshot::new(),
            startindicator: Snapshot::new(),
            zoneselectongamecomplete: Snapshot::new(),
            zoneindicator: Snapshot::new(),
        }
    }

    pub open spec fn all_empty(self) -> bool {
        &&& self.state.pair is None
        &&& self.levelid.pair is None
        &&& self.startindicator.pair is None
        &&& self.zoneselectongamecomplete.pair is None
        &&& self.zoneindicator.pair is None
    }

    pub open spec fn all_filled(self) -> bool {
        &&& self.state.pair is Some
        &&& self.levelid.pair is Some
        &&& self.startindicator.pair is Some
        &&& self.zoneselectongamecomplete.pair is Some
        &&& self.zoneindicator.pair is Some
    }

    /// The snapshots advance together, and the level id reads `Default`
    /// whenever the zone indicator reads `Ending`.
    pub open spec fn wf(self) -> bool {
        ||| self.all_empty()
        ||| {
            &&& self.all_filled()
            &&& (self.zoneindicator.pair.unwrap().current == ZoneIndicator::Ending
                ==> self.levelid.pair.unwrap().current == Act::Default)
        }
    }

    /// The snapshots after a poll with readings `r`: every field advances
    /// when the readings are complete, none otherwise.
    pub open spec fn refreshed(self, r: Readings) -> Self {
        if readings_complete(r) {
            Watchers {
                state: self.state.shifted(r.state.unwrap()),
                startindicator: self.startindicator.shifted(r.startindicator.unwrap()),
                zoneselectongamecomplete: self.zoneselectongamecomplete.shifted(
                    r.zoneselectongamecomplete.unwrap(),
                ),
                zoneindicator: self.zoneindicator.shifted(zone_of_tag(r.zoneindicator.unwrap())),
                levelid: self.levelid.shifted(committed_act(r)),
            }
        } else {
            self
        }
    }

    /// Commits one poll's readings, all of them or none; returns whether
    /// they were committed.
    pub fn refresh(&mut self, r: &Readings) -> (committed: bool)
        ensures
            committed == readings_complete(*r),
            *final(self) == old(self).refreshed(*r),
            old(self).wf() ==> final(self).wf(),
    {
        let (state, start, zsel, tag) = match (
            r.state,
            r.startindicator,
            r.zoneselectongamecomplete,
            r.zoneindicator,
        ) {
            (Some(a), Some(b), Some(c), Some(d)) => (a, b, c, d),
            _ => {
                return false;
            },
        };
        let zone = decode_zone_indicator(tag);
        let act = if matches!(zone, ZoneIndicator::Ending) {
            Act::Default
        } else {
            match r.levelid {
                Some(raw) => decode_act(raw),
                None => {
                    return false;
                },
            }
        };
        self.state.update(state);
        self.startindicator.update(start);
        self.zoneselectongamecomplete.update(zsel);
        self.zoneindicator.update(zone);
        self.levelid.update(act);
        true
    }
}

/// While the zone indicator reads `Ending`, the level id reads `Default`: a
/// poll whose tag says `Ending` commits `Default` whatever raw index it read,
/// and every sequence of polls from empty snapshots keeps the rule.
pub proof fn lemma_ending_forces_default(w: Watchers, r: Readings)
    requires
        w.wf(),
    ensures
        w.refreshed(r).wf(),
        w.refreshed(r).zoneindicator.pair is Some
            && w.refreshed(r).zoneindicator.pair.unwrap().current == ZoneIndicator::Ending
            ==> w.refreshed(r).levelid.pair.unwrap().current == Act::Default,
        readings_complete(r) && zone_of_tag(r.zoneindicator.unwrap()) == ZoneIndicator::Ending
            ==> w.refreshed(r).levelid.pair.unwrap().current == Act::Default,
{
}

/// A poll in which any needed read failed leaves every snapshot as it was.
pub proof fn lemma_failed_read_changes_nothing(w: Watchers, r: Readings)
    requires
        r.state is None || r.startindicator is None || r.zoneselectongamecomplete is None
            || r.zoneindicator is None || (level_id_read_needed(r.zoneindicator.unwrap())
            && r.levelid is None),
    ensures
        w.refreshed(r) == w,
{
}

} // verus!
