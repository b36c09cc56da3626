//! Wall-time profiling registrations: which worker processes the sidecar
//! signals, on whose behalf, and how often.
use vstd::prelude::*;
use std::collections::HashMap;

verus! {

broadcast use vstd::std_specs::hash::group_hash_axioms;

/// Size in bytes of the shared region a worker registers.
pub const WALL_TIME_REGION_SIZE: usize = 12;

/// Base pause of the signalling loop, per registered worker.
pub const WALL_TIME_TICK_MS: u64 = 10;

/// Why a shared region cannot be registered.
#[derive(Debug, Clone, Copy, PartialEq, Eq, Structural)]
pub enum RegionProblem {
    /// The mapping is smaller than the region.
    TooSmall,
    /// The mapping is not aligned for the region.
    Misaligned,
    /// The region names no valid process.
    InvalidPid,
}

impl RegionProblem {
    /// The error's text.
    pub fn message(&self) -> (res: &'static str)
        ensures
            res@ == (match *self {
                RegionProblem::TooSmall => "wall-time profiling shared region is too small"@,
                RegionProblem::Misaligned => "wall-time profiling shared region is misaligned"@,
                RegionProblem::InvalidPid => "invalid wall-time profiling pid"@,
            }),
    {
        match self {
            RegionProblem::TooSmall => "wall-time profiling shared region is too small",
            RegionProblem::Misaligned => "wall-time profiling shared region is misaligned",
            RegionProblem::InvalidPid => "invalid wall-time profiling pid",
        }
    }
}

/// The verdict on a mapped region of `size` bytes, aligned or not, whose
/// pid field reads `pid`.
pub open spec fn region_verdict(size: usize, aligned: bool, pid: i32) -> Result<i32, RegionProblem> {
    if size < WALL_TIME_REGION_SIZE {
        Err(RegionProblem::TooSmall)
    } else if !aligned {
        Err(RegionProblem::Misaligned)
    } else if pid <= 0 {
        Err(RegionProblem::InvalidPid)
    } else {
        Ok(pid)
    }
}

/// Checks a mapped region before it is registered: large enough, aligned,
/// and naming a positive pid, which is returned.
pub fn check_region(size: usize, aligned: bool, pid: i32) -> (res: Result<i32, RegionProblem>)
    ensures
        res == region_verdict(size, aligned, pid),
{
    if size < WALL_TIME_REGION_SIZE {
        Err(RegionProblem::TooSmall)
    } else if !aligned {
        Err(RegionProblem::Misaligned)
    } else if pid <= 0 {
        Err(RegionProblem::InvalidPid)
    } else {
        Ok(pid)
    }
}

/// The pause of the signalling loop with `count` workers registered: one
/// tick per worker (at least one, and at most `u32::MAX` of them).
pub open spec fn interval_ms(count: usize) -> u64 {
    let n: int = if count == 0 {
        1
    } else if count > u32::MAX {
        u32::MAX as int
    } else {
        count as int
    };
    (WALL_TIME_TICK_MS * n) as u64
}

/// The pause of the signalling loop with `count` workers registered.
pub fn scheduler_interval_ms(count: usize) -> (res: u64)
    ensures
        res == interval_ms(count),
{
    let n: u64 = if count == 0 {
        1
    } else if count > 0xffff_ffffusize {
        0xffff_ffff
    } else {
        count as u64
    };
    WALL_TIME_TICK_MS * n
}

/// The registered workers: each pid with the connection that owns it.
pub struct WallTimeTable {
    owners: HashMap<i32, u64>,
}

impl View for WallTimeTable {
    type V = Map<i32, u64>;

    closed spec fn view(&self) -> Map<i32, u64> {
        self.owners@
    }
}

impl WallTimeTable {
    /// No worker registered.
    pub fn new() -> (res: Self)
        ensures
            res@ == Map::<i32, u64>::empty(),
    {
        WallTimeTable { owners: HashMap::new() }
    }

    /// How many workers are registered.
    pub fn len(&self) -> (res: usize)
        ensures
            res == self@.len(),
    {
        self.owners.len()
    }

    /// Whether no worker is registered.
    pub fn is_empty(&self) -> (res: bool)
        ensures
            res == (self@.len() == 0),
    {
        self.owners.len() == 0
    }

    /// The owner of `pid`'s registration, if it is registered.
    pub fn owner(&self, pid: i32) -> (res: Option<u64>)
        ensures
            res == (if self@.contains_key(pid) {
                Some(self@[pid])
            } else {
                None
            }),
    {
        match self.owners.get(&pid) {
            Some(o) => Some(*o),
            None => None,
        }
    }

    /// Registers the worker whose mapped region (`size` bytes, `aligned` or
    /// not) names `pid`, for `owner`. A region that [`check_region`] refuses
    /// is refused and nothing changes; otherwise any registration of the
    /// same pid is replaced. Returns the pid and whether one was replaced.
    pub fn register(&mut self, size: usize, aligned: bool, pid: i32, owner: u64) -> (res: Result<(i32, bool), RegionProblem>)
        ensures
            match region_verdict(size, aligned, pid) {
                Err(e) => res == Err::<(i32, bool), RegionProblem>(e) && final(self)@ == old(self)@,
                Ok(p) => res == Ok::<(i32, bool), RegionProblem>((p, old(self)@.contains_key(p)))
                    && final(self)@ == old(self)@.insert(p, owner),
            },
    {
        let pid = match check_region(size, aligned, pid) {
            Ok(p) => p,
            Err(e) => return Err(e),
        };
        let replaced = match self.owners.insert(pid, owner) {
            Some(_) => true,
            None => false,
        };
        Ok((pid, replaced))
    }

    /// Forgets `pid`, whoever registered it.
    pub fn unregister(&mut self, pid: i32)
        ensures
            final(self)@ == old(self)@.remove(pid),
    {
        self.owners.remove(&pid);
    }

    /// Forgets `pid` only when `owner` registered it: a connection that
    /// goes away leaves a later registration of the same pid alone. Returns
    /// how many remain when it removed one.
    pub fn unregister_owned(&mut self, pid: i32, owner: u64) -> (res: Option<usize>)
        ensures
            old(self)@.contains_key(pid) && old(self)@[pid] == owner ==> final(self)@ == old(
                self,
            )@.remove(pid) && res == Some(final(self)@.len() as usize),
            !(old(self)@.contains_key(pid) && old(self)@[pid] == owner) ==> final(self)@ == old(
                self,
            )@ && res is None,
    {
        let owned = match self.owners.get(&pid) {
            Some(o) => *o == owner,
            None => false,
        };
        if owned {
            self.owners.remove(&pid);
            Some(self.owners.len())
        } else {
            None
        }
    }
}

/// A stale owner cannot take away a newer registration: once `pid` is
/// registered again by another owner, the first owner's cleanup (which acts
/// only on a registration it owns) finds nothing of its own to remove.
pub proof fn lemma_replayed_registration_survives(m: Map<i32, u64>, pid: i32, first: u64, second: u64)
    requires
        first != second,
    ensures
        ({
            let replayed = m.insert(pid, first).insert(pid, second);
            &&& replayed.contains_key(pid)
            &&& !(replayed.contains_key(pid) && replayed[pid] == first)
        }),
{
}

} // verus!
