//! The store change monitor: a running flag, the last image taken, and what
//! each tick of the polling loop does with a fresh image.
use vstd::prelude::*;
use crate::snapshot::{diff_of, diff_snapshots, DataDiff, EntryView, Snapshot};

verus! {

/// Time between two ticks of the polling loop.
pub const MONITOR_INTERVAL_MS: u64 = 3000;

/// What is announced when the store changed between two ticks.
pub struct ChangeEvent {
    pub new_data: Snapshot,
    pub old_data: Snapshot,
    pub diff: DataDiff,
}

/// The result of one tick.
pub enum TickOutcome {
    /// The monitor was stopped: the loop ends.
    Stopped,
    /// The store could not be read; the last image is kept.
    ReadFailed(String),
    /// The first image was taken; there is nothing to compare it with.
    Baseline,
    /// The store holds what it held at the last tick.
    Unchanged,
    /// The store changed: announce this.
    Changed(ChangeEvent),
}

/// Polls the store: `Stopped -> Running -> Stopped`. Each start hands its loop
/// a new generation; a loop whose generation is not the current one is over,
/// so a stop followed at once by a start never leaves two loops running.
pub struct DatabaseMonitor {
    running: bool,
    generation: u64,
    last: Option<Snapshot>,
}

impl DatabaseMonitor {
    pub closed spec fn is_running_spec(&self) -> bool {
        self.running
    }

    /// The generation of the loop that is current.
    pub closed spec fn generation_spec(&self) -> u64 {
        self.generation
    }

    /// The image of the last tick that read the store.
    pub closed spec fn last_image(&self) -> Option<Seq<EntryView>> {
        match self.last {
            Some(s) => Some(s@),
            None => None,
        }
    }

    pub closed spec fn wf(&self) -> bool {
        match self.last {
            Some(s) => s.wf(),
            None => true,
        }
    }

    /// A stopped monitor that has taken no image yet.
    pub fn new() -> (r: DatabaseMonitor)
        ensures
            r.wf(),
            !r.is_running_spec(),
            r.last_image().is_none(),
    {
        DatabaseMonitor { running: false, generation: 0, last: None }
    }

    /// Marks the monitor running. Where it was stopped, returns the generation
    /// of the polling loop to start, a new one; where it runs already, `None`.
    pub fn start_monitoring(&mut self) -> (spawn: Option<u64>)
        requires
            old(self).wf(),
        ensures
            final(self).wf(),
            final(self).is_running_spec(),
            final(self).last_image() == old(self).last_image(),
            old(self).is_running_spec() ==> spawn.is_none() && final(self).generation_spec()
                == old(self).generation_spec(),
            !old(self).is_running_spec() ==> spawn == Some(final(self).generation_spec())
                && final(self).generation_spec() != old(self).generation_spec(),
    {
        if self.running {
            return None;
        }
        self.running = true;
        self.generation = self.generation.wrapping_add(1);
        Some(self.generation)
    }

    /// Marks the monitor stopped; the loop ends at its next tick.
    pub fn stop_monitoring(&mut self)
        requires
            old(self).wf(),
        ensures
            final(self).wf(),
            !final(self).is_running_spec(),
            final(self).generation_spec() == old(self).generation_spec(),
            final(self).last_image() == old(self).last_image(),
    {
        self.running = false;
    }

    pub fn is_running(&self) -> (r: bool)
        ensures
            r == self.is_running_spec(),
    {
        self.running
    }

    /// One tick of the polling loop of generation `generation`, given what
    /// reading the store gave. A loop that is stopped or superseded ends. A
    /// fresh image always becomes the last one, changed or not.
    pub fn on_tick(&mut self, generation: u64, read: Result<Snapshot, String>) -> (r: TickOutcome)
        requires
            old(self).wf(),
            read matches Ok(s) ==> s.wf(),
        ensures
            final(self).wf(),
            final(self).is_running_spec() == old(self).is_running_spec(),
            final(self).generation_spec() == old(self).generation_spec(),
            !(old(self).is_running_spec() && generation == old(self).generation_spec()) ==> r is Stopped
                && final(self).last_image() == old(self).last_image(),
            old(self).is_running_spec() && generation == old(self).generation_spec() ==> match read {
                Err(e) => r == TickOutcome::ReadFailed(e) && final(self).last_image()
                    == old(self).last_image(),
                Ok(s) => final(self).last_image() == Some(s@) && match old(self).last_image() {
                    None => r is Baseline,
                    Some(p) => if diff_of(p, s@).len() == 0 {
                        r is Unchanged
                    } else {
                        match r {
                            TickOutcome::Changed(ev) => ev.new_data@ == s@ && ev.old_data@ == p
                                && ev.diff.reports(p, s@),
                            _ => false,
                        }
                    },
                },
            },
    {
        if !self.running || generation != self.generation {
            return TickOutcome::Stopped;
        }
        match read {
            Err(e) => TickOutcome::ReadFailed(e),
            Ok(s) => {
                let outcome = match &self.last {
                    None => TickOutcome::Baseline,
                    Some(p) => {
                        let d = diff_snapshots(p, &s);
                        if d.has_changes {
                            TickOutcome::Changed(
                                ChangeEvent { new_data: s.duplicate(), old_data: p.duplicate(), diff: d },
                            )
                        } else {
                            TickOutcome::Unchanged
                        }
                    },
                };
                self.last = Some(s);
                outcome
            },
        }
    }
}

} // verus!
