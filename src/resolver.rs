//! Layout discovery as a step machine: it names the next scan or read to
//! perform, takes its outcome, and ends with a complete layout or a failure.
//! The order is: the primary signature, the pointer to the game-state
//! structure next to it, the two links of each chained field in turn, the
//! zone-indicator signature, and the zone indicator's address next to it.
use vstd::prelude::*;
use crate::layout::{
    ChainedField, Layout, PointerChain, STATE_SITE_OFFSET, ZONE_SITE_OFFSET, chain_of,
    chain_spec, offset_address,
};

verus! {

/// What the resolver needs next, or how it ended.
#[derive(Clone, Copy, Debug, PartialEq, Eq, Structural)]
pub enum Probe {
    /// Scan `[start, start + len)` for the primary signature; answer with the
    /// match's address.
    ScanPrimary { start: u64, len: u64 },
    /// Scan `[start, start + len)` for the zone-indicator signature; answer
    /// with the match's address.
    ScanZoneIndicator { start: u64, len: u64 },
    /// Read the 32-bit value at `address`; answer with it.
    ReadU32 { address: u64 },
    /// All five addresses are resolved.
    Finished(Layout),
    /// A scan or a read failed, or an address fell outside the address
    /// space: nothing of this attempt is kept.
    Failed,
}

/// Number of answers a complete resolution takes: the primary scan, the
/// structure pointer, two links for each of the four chained fields, the
/// zone-indicator scan and its address.
pub const NUM_ANSWERS: usize = 12;

/// The chained field whose links are read at positions `2 + 2k` and `3 + 2k`.
pub open spec fn chained_field(k: int) -> ChainedField {
    if k == 0 {
        ChainedField::State
    } else if k == 1 {
        ChainedField::LevelId
    } else if k == 2 {
        ChainedField::StartIndicator
    } else {
        ChainedField::ZoneSelectOnGameComplete
    }
}

pub open spec fn read_at(address: int) -> Probe {
    if address <= u64::MAX {
        Probe::ReadU32 { address: address as u64 }
    } else {
        Probe::Failed
    }
}

/// The address of the `k`th chained field: the value its second link read
/// plus the chain's final offset.
pub open spec fn chained_address(a: Seq<u64>, k: int) -> int {
    a[3 + 2 * k] + chain_spec(chained_field(k)).add
}

/// The layout that twelve answers give, if every address fits.
pub open spec fn layout_of(a: Seq<u64>) -> Probe {
    if chained_address(a, 0) <= u64::MAX && chained_address(a, 1) <= u64::MAX
        && chained_address(a, 2) <= u64::MAX && chained_address(a, 3) <= u64::MAX {
        Probe::Finished(
            Layout {
                state: chained_address(a, 0) as u64,
                levelid: chained_address(a, 1) as u64,
                startindicator: chained_address(a, 2) as u64,
                zoneselectongamecomplete: chained_address(a, 3) as u64,
                zoneindicator: a[11],
            },
        )
    } else {
        Probe::Failed
    }
}

/// The step after the answers `a`, in a module at `base` of `size` bytes.
pub open spec fn probe_after(base: u64, size: u64, a: Seq<u64>) -> Probe {
    let n = a.len() as int;
    if n == 0 {
        Probe::ScanPrimary { start: base, len: size }
    } else if n == 1 {
        read_at(a[0] + STATE_SITE_OFFSET)
    } else if n < 10 {
        let c = chain_spec(chained_field((n - 2) / 2));
        if n % 2 == 0 {
            read_at(a[1] + c.first)
        } else {
            read_at(a[n - 1] + c.second)
        }
    } else if n == 10 {
        Probe::ScanZoneIndicator { start: base, len: size }
    } else if n == 11 {
        read_at(a[10] + ZONE_SITE_OFFSET)
    } else {
        layout_of(a)
    }
}

pub open spec fn is_pending(p: Probe) -> bool {
    p is ScanPrimary || p is ScanZoneIndicator || p is ReadU32
}

/// One attempt at resolving the layout of the attached process.
pub struct Resolver {
    pub module_base: u64,
    pub module_size: u64,
    /// The outcomes received so far, in order.
    pub answers: Vec<u64>,
    pub failed: bool,
}

impl Resolver {
    pub open spec fn wf(self) -> bool {
        self.answers@.len() <= NUM_ANSWERS
    }

    pub open spec fn probe_spec(self) -> Probe {
        if self.failed {
            Probe::Failed
        } else {
            probe_after(self.module_base, self.module_size, self.answers@)
        }
    }

    /// A fresh attempt over the main module at `module_base`.
    pub fn new(module_base: u64, module_size: u64) -> (r: Self)
        ensures
            r.wf(),
            r.answers@.len() == 0,
            r.probe_spec() == (Probe::ScanPrimary { start: module_base, len: module_size }),
    {
        Resolver { module_base, module_size, answers: Vec::new(), failed: false }
    }

    /// What is needed next, or how the attempt ended.
    pub fn probe(&self) -> (r: Probe)
        requires
            self.wf(),
        ensures
            r == self.probe_spec(),
    {
        if self.failed {
            return Probe::Failed;
        }
        let a = &self.answers;
        let n = a.len();
        if n == 0 {
            Probe::ScanPrimary { start: self.module_base, len: self.module_size }
        } else if n == 1 {
            read_probe(offset_address(a[0], STATE_SITE_OFFSET))
        } else if n < 10 {
            let c = chain_of(field_of_pair((n - 2) / 2));
            if n % 2 == 0 {
                read_probe(offset_address(a[1], c.first as u64))
            } else {
                read_probe(offset_address(a[n - 1], c.second as u64))
            }
        } else if n == 10 {
            Probe::ScanZoneIndicator { start: self.module_base, len: self.module_size }
        } else if n == 11 {
            read_probe(offset_address(a[10], ZONE_SITE_OFFSET))
        } else {
            let state = field_address(a, 0);
            let levelid = field_address(a, 1);
            let startindicator = field_address(a, 2);
            let zoneselect = field_address(a, 3);
            match Layout::assemble(state, levelid, startindicator, zoneselect, Some(a[11])) {
                Some(layout) => Probe::Finished(layout),
                None => Probe::Failed,
            }
        }
    }

    /// Takes the outcome of the pending scan or read (`None` where it failed)
    /// and names the next step.
    pub fn feed(&mut self, answer: Option<u64>) -> (r: Probe)
        requires
            old(self).wf(),
            is_pending(old(self).probe_spec()),
        ensures
            final(self).wf(),
            final(self).module_base == old(self).module_base,
            final(self).module_size == old(self).module_size,
            answer is None ==> r == Probe::Failed && final(self).failed,
            answer is Some ==> final(self).answers@ == old(self).answers@.push(answer.unwrap())
                && !final(self).failed,
            r == final(self).probe_spec(),
    {
        match answer {
            None => {
                self.failed = true;
            },
            Some(v) => {
                self.answers.push(v);
            },
        }
        self.probe()
    }
}

/// The chained field whose links are read at positions `2 + 2k` and `3 + 2k`.
fn field_of_pair(k: usize) -> (r: ChainedField)
    ensures
        r == chained_field(k as int),
{
    if k == 0 {
        ChainedField::State
    } else if k == 1 {
        ChainedField::LevelId
    } else if k == 2 {
        ChainedField::StartIndicator
    } else {
        ChainedField::ZoneSelectOnGameComplete
    }
}

fn read_probe(address: Option<u64>) -> (r: Probe)
    ensures
        address is Some ==> r == (Probe::ReadU32 { address: address.unwrap() }),
        address is None ==> r == Probe::Failed,
{
    match address {
        Some(address) => Probe::ReadU32 { address },
        None => Probe::Failed,
    }
}

fn field_address(a: &Vec<u64>, k: usize) -> (r: Option<u64>)
    requires
        a@.len() == NUM_ANSWERS,
        k < 4,
    ensures
        chained_address(a@, k as int) <= u64::MAX ==> r == Some(chained_address(a@, k as int) as u64),
        chained_address(a@, k as int) > u64::MAX ==> r is None,
{
    let c: PointerChain = chain_of(field_of_pair(k));
    offset_address(a[3 + 2 * k], c.add as u64)
}

/// The resolver never hands out a partial layout: it finishes only after
/// every one of its scans and reads has answered.
pub proof fn lemma_finished_only_when_complete(r: Resolver)
    requires
        r.wf(),
        r.probe_spec() is Finished,
    ensures
        !r.failed,
        r.answers@.len() == NUM_ANSWERS,
        r.probe_spec() == layout_of(r.answers@),
{
}

} // verus!
