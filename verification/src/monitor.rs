//! The monitor's state: the latest snapshot and the peak of resident memory.
use crate::fraction::{machine_share, normalize_process_cpu, Percent};
use vstd::prelude::*;

verus! {

/// What the metrics source reports of the monitored process and of the
/// machine in one sampling cycle.
#[derive(Clone, Copy, Debug)]
pub struct ProcessReading {
    /// Physical memory of the process, in bytes.
    pub process_rss: u64,
    /// Virtual memory of the process, in bytes.
    pub process_virtual: u64,
    /// Memory in use on the whole machine, in bytes.
    pub system_used_memory: u64,
    /// Memory of the whole machine, in bytes.
    pub system_total_memory: u64,
    /// CPU use of the process in thousandths of a percent of one core.
    pub raw_cpu_millipercent: u64,
}

/// The measurements of one sampling cycle, with the CPU use already given as
/// a percentage of the whole machine.
#[derive(Clone, Copy, Debug)]
pub struct MetricsSnapshot {
    /// Physical memory of the process, in bytes.
    pub process_rss: u64,
    /// Virtual memory of the process, in bytes.
    pub process_virtual: u64,
    /// Memory in use on the whole machine, in bytes.
    pub system_used_memory: u64,
    /// Memory of the whole machine, in bytes.
    pub system_total_memory: u64,
    /// CPU use of the process, as a percentage of the whole machine.
    pub process_cpu_percent: Percent,
}

impl MetricsSnapshot {
    /// The CPU percentage lies between 0 and 100.
    pub open spec fn wf(self) -> bool {
        self.process_cpu_percent.wf()
    }
}

impl Default for MetricsSnapshot {
    fn default() -> (s: MetricsSnapshot)
        ensures
            s.process_rss == 0,
            s.process_virtual == 0,
            s.system_used_memory == 0,
            s.system_total_memory == 0,
            s.process_cpu_percent.is_value(0, 1),
            s.wf(),
    {
        MetricsSnapshot {
            process_rss: 0,
            process_virtual: 0,
            system_used_memory: 0,
            system_total_memory: 0,
            process_cpu_percent: Percent::zero(),
        }
    }
}

/// The snapshot that a reading gives on a machine with `cpu_count` cores.
pub open spec fn snapshot_of(reading: ProcessReading, cpu_count: u32) -> MetricsSnapshot {
    MetricsSnapshot {
        process_rss: reading.process_rss,
        process_virtual: reading.process_virtual,
        system_used_memory: reading.system_used_memory,
        system_total_memory: reading.system_total_memory,
        process_cpu_percent: Percent {
            share: machine_share(reading.raw_cpu_millipercent, cpu_count),
        },
    }
}

/// Builds the snapshot of a cycle: the memory counters as read, the CPU
/// reading divided by the number of cores and limited to 100 percent.
pub fn take_snapshot(reading: &ProcessReading, cpu_count: u32) -> (s: MetricsSnapshot)
    ensures
        s == snapshot_of(*reading, cpu_count),
        s.wf(),
{
    MetricsSnapshot {
        process_rss: reading.process_rss,
        process_virtual: reading.process_virtual,
        system_used_memory: reading.system_used_memory,
        system_total_memory: reading.system_total_memory,
        process_cpu_percent: normalize_process_cpu(reading.raw_cpu_millipercent, cpu_count),
    }
}

/// The outcome of looking the monitored process up in one cycle.
#[derive(Clone, Copy, Debug)]
pub enum Lookup {
    /// The process was found and read.
    Found(ProcessReading),
    /// The process is not in the process table.
    Missing,
}

/// What a monitor holds: the latest snapshot, if any cycle has succeeded, and
/// the largest resident memory ever observed.
pub struct MonitorState {
    pub latest: Option<MetricsSnapshot>,
    pub peak_resident_bytes: u64,
}

impl MonitorState {
    /// The state of a monitor before its first sample.
    pub open spec fn initial() -> MonitorState {
        MonitorState { latest: None, peak_resident_bytes: 0 }
    }

    /// The state after a snapshot was published: the snapshot replaces the
    /// latest one and the peak rises to its resident memory if that is larger.
    pub open spec fn publish(self, snapshot: MetricsSnapshot) -> MonitorState {
        MonitorState {
            latest: Some(snapshot),
            peak_resident_bytes: if snapshot.process_rss > self.peak_resident_bytes {
                snapshot.process_rss
            } else {
                self.peak_resident_bytes
            },
        }
    }

    /// The state after one cycle: a reading is published, a miss changes
    /// nothing.
    pub open spec fn observe(self, lookup: Lookup, cpu_count: u32) -> MonitorState {
        match lookup {
            Lookup::Found(reading) => self.publish(snapshot_of(reading, cpu_count)),
            Lookup::Missing => self,
        }
    }

    /// The state after a sequence of snapshots was published in order.
    pub open spec fn publish_all(self, snapshots: Seq<MetricsSnapshot>) -> MonitorState
        decreases snapshots.len(),
    {
        if snapshots.len() == 0 {
            self
        } else {
            self.publish_all(snapshots.drop_last()).publish(snapshots.last())
        }
    }

    /// The state after a sequence of cycles.
    pub open spec fn observe_all(self, lookups: Seq<Lookup>, cpu_count: u32) -> MonitorState
        decreases lookups.len(),
    {
        if lookups.len() == 0 {
            self
        } else {
            self.observe_all(lookups.drop_last(), cpu_count).observe(lookups.last(), cpu_count)
        }
    }

    /// The latest snapshot, if there is one, holds a CPU percentage between 0
    /// and 100, and the peak is at least its resident memory.
    pub open spec fn wf(self) -> bool {
        match self.latest {
            Some(snapshot) => snapshot.wf() && snapshot.process_rss <= self.peak_resident_bytes,
            None => true,
        }
    }
}

/// The largest resident memory among the snapshots, and zero if there are none.
pub open spec fn max_resident(snapshots: Seq<MetricsSnapshot>) -> u64
    decreases snapshots.len(),
{
    if snapshots.len() == 0 {
        0
    } else {
        let rest = max_resident(snapshots.drop_last());
        if snapshots.last().process_rss > rest {
            snapshots.last().process_rss
        } else {
            rest
        }
    }
}

/// The largest resident memory among the snapshots is at least that of each
/// of them, and is that of one of them unless there are none.
pub proof fn lemma_max_resident_is_maximum(snapshots: Seq<MetricsSnapshot>)
    ensures
        forall|i: int|
            0 <= i < snapshots.len() ==> (#[trigger] snapshots[i]).process_rss <= max_resident(
                snapshots,
            ),
        snapshots.len() > 0 ==> exists|i: int|
            0 <= i < snapshots.len() && (#[trigger] snapshots[i]).process_rss == max_resident(
                snapshots,
            ),
        snapshots.len() == 0 ==> max_resident(snapshots) == 0,
    decreases snapshots.len(),
{
    if snapshots.len() > 0 {
        let rest = snapshots.drop_last();
        lemma_max_resident_is_maximum(rest);
        assert forall|i: int| 0 <= i < snapshots.len() implies (#[trigger] snapshots[i]).process_rss
            <= max_resident(snapshots) by {
            if i < rest.len() {
                assert(snapshots[i] == rest[i]);
            }
        }
        if snapshots.last().process_rss > max_resident(rest) || rest.len() == 0 {
            assert(snapshots[snapshots.len() - 1].process_rss == max_resident(snapshots));
        } else {
            let j = choose|j: int|
                0 <= j < rest.len() && (#[trigger] rest[j]).process_rss == max_resident(rest);
            assert(snapshots[j] == rest[j]);
        }
    }
}

/// After any sequence of published snapshots the peak is the larger of the
/// peak before and the largest resident memory among them; the latest
/// snapshot is the last one published.
pub proof fn lemma_peak_after_publishing(state: MonitorState, snapshots: Seq<MetricsSnapshot>)
    ensures
        state.publish_all(snapshots).peak_resident_bytes == if max_resident(snapshots)
            > state.peak_resident_bytes {
            max_resident(snapshots)
        } else {
            state.peak_resident_bytes
        },
        state.publish_all(snapshots).latest == if snapshots.len() == 0 {
            state.latest
        } else {
            Some(snapshots.last())
        },
    decreases snapshots.len(),
{
    if snapshots.len() > 0 {
        lemma_peak_after_publishing(state, snapshots.drop_last());
    }
}

/// A monitor is well formed at its start and stays so: through every
/// published snapshot whose CPU percentage lies between 0 and 100, and through
/// every sequence of cycles.
pub proof fn lemma_state_stays_well_formed(
    state: MonitorState,
    snapshot: MetricsSnapshot,
    lookups: Seq<Lookup>,
    cpu_count: u32,
)
    ensures
        MonitorState::initial().wf(),
        snapshot.wf() ==> state.publish(snapshot).wf(),
        state.wf() ==> state.observe_all(lookups, cpu_count).wf(),
    decreases lookups.len(),
{
    if lookups.len() > 0 {
        lemma_state_stays_well_formed(state, snapshot, lookups.drop_last(), cpu_count);
    }
}

/// A monitor that starts empty and has published the snapshots holds their
/// largest resident memory as its peak: the peak is at least the resident
/// memory of each of them and is that of one of them, and it is zero if
/// nothing was published.
pub proof fn lemma_peak_is_maximum(snapshots: Seq<MetricsSnapshot>)
    ensures
        MonitorState::initial().publish_all(snapshots).peak_resident_bytes == max_resident(
            snapshots,
        ),
        forall|i: int|
            0 <= i < snapshots.len() ==> (#[trigger] snapshots[i]).process_rss
                <= MonitorState::initial().publish_all(snapshots).peak_resident_bytes,
        snapshots.len() > 0 ==> exists|i: int|
            0 <= i < snapshots.len() && (#[trigger] snapshots[i]).process_rss
                == MonitorState::initial().publish_all(snapshots).peak_resident_bytes,
        snapshots.len() == 0 ==> MonitorState::initial().publish_all(snapshots).peak_resident_bytes
            == 0,
{
    lemma_peak_after_publishing(MonitorState::initial(), snapshots);
    lemma_max_resident_is_maximum(snapshots);
}

/// The peak never decreases: not by a published snapshot, whatever its
/// resident memory, nor by any sequence of cycles.
pub proof fn lemma_peak_never_decreases(
    state: MonitorState,
    snapshot: MetricsSnapshot,
    lookups: Seq<Lookup>,
    cpu_count: u32,
)
    ensures
        state.publish(snapshot).peak_resident_bytes >= state.peak_resident_bytes,
        state.publish(snapshot).peak_resident_bytes >= snapshot.process_rss,
        state.observe_all(lookups, cpu_count).peak_resident_bytes >= state.peak_resident_bytes,
    decreases lookups.len(),
{
    if lookups.len() > 0 {
        lemma_peak_never_decreases(state, snapshot, lookups.drop_last(), cpu_count);
    }
}

/// A cycle in which the process is not found changes nothing: neither the
/// latest snapshot nor the peak.
pub proof fn lemma_miss_changes_nothing(state: MonitorState, cpu_count: u32)
    ensures
        state.observe(Lookup::Missing, cpu_count) == state,
{
}

/// Cycles in which the process is not found can be left out of any sequence
/// of cycles without changing the state that results.
pub proof fn lemma_misses_are_no_ops(
    state: MonitorState,
    before: Seq<Lookup>,
    after: Seq<Lookup>,
    cpu_count: u32,
)
    ensures
        state.observe_all(before.push(Lookup::Missing) + after, cpu_count) == state.observe_all(
            before + after,
            cpu_count,
        ),
    decreases after.len(),
{
    let with_miss = before.push(Lookup::Missing) + after;
    let without = before + after;
    if after.len() == 0 {
        assert(with_miss =~= before.push(Lookup::Missing));
        assert(without =~= before);
        assert(with_miss.drop_last() =~= before);
    } else {
        lemma_misses_are_no_ops(state, before, after.drop_last(), cpu_count);
        assert(with_miss.drop_last() =~= before.push(Lookup::Missing) + after.drop_last());
        assert(without.drop_last() =~= before + after.drop_last());
        assert(with_miss.last() == after.last());
        assert(without.last() == after.last());
    }
}

/// The monitor: the latest snapshot and the peak of resident memory. Only
/// [`PerformanceMonitor::publish`] and [`PerformanceMonitor::observe`] change
/// it, each in one step.
#[derive(Debug)]
pub struct PerformanceMonitor {
    snapshot: Option<MetricsSnapshot>,
    peak_rss: u64,
}

impl View for PerformanceMonitor {
    type V = MonitorState;

    closed spec fn view(&self) -> MonitorState {
        MonitorState { latest: self.snapshot, peak_resident_bytes: self.peak_rss }
    }
}

impl PerformanceMonitor {
    /// A monitor before its first sample: no snapshot, a peak of zero.
    pub fn new() -> (monitor: PerformanceMonitor)
        ensures
            monitor@ == MonitorState::initial(),
    {
        PerformanceMonitor { snapshot: None, peak_rss: 0 }
    }

    /// The latest snapshot, whole; none before the first successful cycle.
    pub fn snapshot(&self) -> (latest: Option<MetricsSnapshot>)
        ensures
            latest == self@.latest,
    {
        self.snapshot
    }

    /// The largest resident memory observed so far.
    pub fn peak_rss(&self) -> (peak: u64)
        ensures
            peak == self@.peak_resident_bytes,
    {
        self.peak_rss
    }

    /// Publishes a snapshot: it replaces the latest one, and the peak rises to
    /// its resident memory if that is larger.
    pub fn publish(&mut self, snapshot: MetricsSnapshot)
        ensures
            final(self)@ == old(self)@.publish(snapshot),
    {
        if snapshot.process_rss > self.peak_rss {
            self.peak_rss = snapshot.process_rss;
        }
        self.snapshot = Some(snapshot);
    }

    /// Takes in the outcome of one cycle: a reading is turned into a snapshot
    /// and published, a miss leaves the monitor as it is. Returns whether a
    /// snapshot was published.
    pub fn observe(&mut self, lookup: &Lookup, cpu_count: u32) -> (published: bool)
        ensures
            final(self)@ == old(self)@.observe(*lookup, cpu_count),
            published == (*lookup is Found),
    {
        match lookup {
            Lookup::Found(reading) => {
                let snapshot = take_snapshot(reading, cpu_count);
                self.publish(snapshot);
                true
            },
            Lookup::Missing => false,
        }
    }
}

impl Default for PerformanceMonitor {
    fn default() -> (monitor: PerformanceMonitor)
        ensures
            monitor@ == MonitorState::initial(),
    {
        PerformanceMonitor::new()
    }
}

} // verus!
