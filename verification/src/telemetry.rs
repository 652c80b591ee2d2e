//! The telemetry sampler: shapes one refresh cycle of host metrics into a
//! point-in-time snapshot — aggregate CPU and memory counters, the wall
//! clock rendered as `HH:MM`, and the busiest processes ranked by CPU use.
//!
//! The raw counters come from the boundary layer that performs the OS
//! queries; CPU figures are carried in basis points (hundredths of one
//! percent), so the shaping logic works on plain integers.
use vstd::multiset::Multiset;
use vstd::prelude::*;

use crate::errors::IslandError;
use crate::render::{clock_chars, format_hh_mm, is_clock_render};

verus! {

/// One process row of a snapshot. `cpu_bp` is the process's CPU usage in
/// basis points: 10 basis points are 0.1 percent.
#[derive(Debug)]
pub struct ProcessSample {
    pub name: String,
    pub cpu_bp: u64,
    pub memory_bytes: u64,
}

/// Every counter of one full refresh cycle, as the metrics boundary hands
/// it over. `cpu_bp` is the aggregate CPU usage across all cores.
#[derive(Debug)]
pub struct HostReading {
    pub cpu_bp: u64,
    pub memory_used: u64,
    pub memory_total: u64,
    pub processes: Vec<ProcessSample>,
}

impl HostReading {
    /// What the metrics source guarantees of a refresh cycle: the aggregate
    /// CPU figure is at most 100 percent, and used memory never exceeds the
    /// total.
    pub open spec fn wf(&self) -> bool {
        &&& self.cpu_bp <= 10000
        &&& self.memory_used <= self.memory_total
    }
}

/// One internally consistent snapshot of host telemetry: every field read
/// from the same refresh cycle.
#[derive(Debug)]
pub struct HostSnapshot {
    pub cpu_bp: u64,
    pub memory_used: u64,
    pub memory_total: u64,
    pub sample_time: String,
    pub top_processes: Vec<ProcessSample>,
}

/// Processes at or below this CPU usage are dropped from a snapshot:
/// 10 basis points, that is 0.1 percent.
pub const CPU_NOISE_FLOOR_BP: u64 = 10;

/// At most this many processes appear in a snapshot.
pub const TOP_PROCESS_LIMIT: usize = 5;

/// The rows are ordered by CPU usage, highest first.
pub open spec fn sorted_cpu_desc(s: Seq<ProcessSample>) -> bool {
    forall|i: int, j: int|
        0 <= i < j < s.len() ==> #[trigger] s[i].cpu_bp >= #[trigger] s[j].cpu_bp
}

/// The rows are ordered by CPU usage, highest first, with no ties.
pub open spec fn strictly_cpu_desc(s: Seq<ProcessSample>) -> bool {
    forall|i: int, j: int|
        0 <= i < j < s.len() ==> #[trigger] s[i].cpu_bp > #[trigger] s[j].cpu_bp
}

/// No two rows report the same CPU usage.
pub open spec fn distinct_cpu(s: Seq<ProcessSample>) -> bool {
    forall|i: int, j: int|
        0 <= i < j < s.len() ==> #[trigger] s[i].cpu_bp != #[trigger] s[j].cpu_bp
}

/// The row is busy enough to be shown.
pub open spec fn above_floor(p: ProcessSample) -> bool {
    p.cpu_bp > CPU_NOISE_FLOOR_BP
}

/// The noise-floor test as a value, so that the same function stands in
/// every `filter`.
pub open spec fn floor_pred() -> spec_fn(ProcessSample) -> bool {
    |p: ProcessSample| above_floor(p)
}

/// The first rows of a ranking, at most `TOP_PROCESS_LIMIT` of them.
pub open spec fn capped(s: Seq<ProcessSample>) -> Seq<ProcessSample> {
    if s.len() <= TOP_PROCESS_LIMIT {
        s
    } else {
        s.take(TOP_PROCESS_LIMIT as int)
    }
}

/// What a snapshot shows of a ranking `s` (ordered by CPU usage, highest
/// first): the first five rows, those above the noise floor.
pub open spec fn top_shape(s: Seq<ProcessSample>) -> Seq<ProcessSample> {
    capped(s).filter(floor_pred())
}

/// Index of a row with maximal CPU usage.
fn index_of_max_cpu(v: &Vec<ProcessSample>) -> (m: usize)
    requires
        v@.len() > 0,
    ensures
        m < v@.len(),
        forall|t: int| 0 <= t < v@.len() ==> v@[m as int].cpu_bp >= #[trigger] v@[t].cpu_bp,
{
    let mut m: usize = 0;
    let mut k: usize = 1;
    while k < v.len()
        invariant
            m < k <= v@.len(),
            forall|t: int| 0 <= t < k ==> v@[m as int].cpu_bp >= #[trigger] v@[t].cpu_bp,
        decreases v@.len() - k,
    {
        if v[k].cpu_bp > v[m].cpu_bp {
            m = k;
        }
        k = k + 1;
    }
    m
}

/// Where row `idx` stood before one selection step that moved row
/// `olen + m` to position `olen`: the first `olen` rows are unchanged and
/// the rows after the gap shift by one.
spec fn sel_source(olen: int, m: int, idx: int) -> int {
    if idx < olen {
        idx
    } else if idx == olen {
        olen + m
    } else if idx - olen - 1 < m {
        idx - 1
    } else {
        idx
    }
}

/// Ranks process rows by CPU usage, highest first. The result is a
/// permutation of the input; rows with pairwise distinct CPU figures stay
/// pairwise distinct.
pub fn sort_by_cpu_desc(v: Vec<ProcessSample>) -> (r: Vec<ProcessSample>)
    ensures
        sorted_cpu_desc(r@),
        r@.to_multiset() == v@.to_multiset(),
        r@.len() == v@.len(),
        distinct_cpu(v@) ==> distinct_cpu(r@),
{
    broadcast use vstd::seq_lib::group_to_multiset_ensures;

    let mut rest = v;
    let mut out: Vec<ProcessSample> = Vec::new();
    proof {
        assert(out@.to_multiset().add(rest@.to_multiset()) =~= rest@.to_multiset());
        assert(out@ + rest@ =~= rest@);
    }
    let ghost whole = rest@;
    while rest.len() > 0
        invariant
            out@.len() + rest@.len() == whole.len(),
            out@.to_multiset().add(rest@.to_multiset()) == whole.to_multiset(),
            sorted_cpu_desc(out@),
            forall|i: int, k: int|
                0 <= i < out@.len() && 0 <= k < rest@.len() ==> #[trigger] out@[i].cpu_bp
                    >= #[trigger] rest@[k].cpu_bp,
            distinct_cpu(whole) ==> distinct_cpu(out@ + rest@),
        decreases rest@.len(),
    {
        let ghost prev_out = out@;
        let ghost prev_rest = rest@;
        let m = index_of_max_cpu(&rest);
        let x = rest.remove(m);
        out.push(x);
        proof {
            broadcast use vstd::multiset::group_multiset_axioms;

            prev_rest.remove_ensures(m as int);
            vstd::seq_lib::to_multiset_build(prev_out, x);
            vstd::seq_lib::to_multiset_remove(prev_rest, m as int);
            prev_rest.to_multiset_ensures();
            assert(prev_rest.contains(prev_rest[m as int]));
            assert(out@ == prev_out.push(x));
            assert(prev_out.push(x).to_multiset() =~= prev_out.to_multiset().insert(x));
            assert(rest@ == prev_rest.remove(m as int));
            assert(prev_rest.remove(m as int).to_multiset() =~= prev_rest.to_multiset().remove(
                x,
            ));
            assert(prev_rest.to_multiset().count(x) >= 1);
            assert(out@.to_multiset().add(rest@.to_multiset()) =~= whole.to_multiset());
            assert forall|i: int, j: int| 0 <= i < j < out@.len() implies out@[i].cpu_bp
                >= out@[j].cpu_bp by {
                if j == out@.len() - 1 {
                    assert(out@[i] == prev_out[i]);
                    assert(out@[j] == prev_rest[m as int]);
                }
            }
            assert forall|i: int, k: int|
                0 <= i < out@.len() && 0 <= k < rest@.len() implies out@[i].cpu_bp
                >= rest@[k].cpu_bp by {
                assert(rest@[k] == if k < m { prev_rest[k] } else { prev_rest[k + 1] });
                assert(prev_rest[m as int].cpu_bp >= rest@[k].cpu_bp);
            }
            if distinct_cpu(whole) {
                let olen = prev_out.len() as int;
                assert(distinct_cpu(prev_out + prev_rest));
                assert forall|i: int, j: int|
                    0 <= i < j < (out@ + rest@).len() implies #[trigger] (out@ + rest@)[i].cpu_bp
                    != #[trigger] (out@ + rest@)[j].cpu_bp by {
                    let a = sel_source(olen, m as int, i);
                    let b = sel_source(olen, m as int, j);
                    assert((out@ + rest@)[i] == (prev_out + prev_rest)[a]);
                    assert((out@ + rest@)[j] == (prev_out + prev_rest)[b]);
                    assert(a != b);
                    assert(0 <= a < (prev_out + prev_rest).len());
                    assert(0 <= b < (prev_out + prev_rest).len());
                }
            }
        }
    }
    proof {
        assert(out@ + rest@ =~= out@);
        assert(rest@.to_multiset() =~= Multiset::<ProcessSample>::empty());
        assert(out@.to_multiset() =~= whole.to_multiset());
    }
    out
}

/// Shapes a ranking into the rows a snapshot shows: the first five, those
/// above the noise floor.
fn shape_top(sorted: Vec<ProcessSample>) -> (r: Vec<ProcessSample>)
    requires
        sorted_cpu_desc(sorted@),
    ensures
        r@ == top_shape(sorted@),
        r@.len() <= TOP_PROCESS_LIMIT,
        forall|i: int| 0 <= i < r@.len() ==> above_floor(#[trigger] r@[i]),
        sorted_cpu_desc(r@),
        distinct_cpu(sorted@) ==> strictly_cpu_desc(r@),
{
    let mut s = sorted;
    if s.len() > TOP_PROCESS_LIMIT {
        s.truncate(TOP_PROCESS_LIMIT);
    }
    let ghost cap = s@;
    proof {
        assert(cap =~= capped(sorted@));
        assert(sorted_cpu_desc(cap));
        assert(distinct_cpu(sorted@) ==> distinct_cpu(cap));
    }
    let mut out: Vec<ProcessSample> = Vec::new();
    let ghost mut done: int = 0;
    let ghost mut src: Seq<int> = Seq::empty();
    proof {
        assert(out@ =~= cap.take(0).filter(floor_pred()));
    }
    while s.len() > 0
        invariant
            0 <= done <= cap.len(),
            cap.len() <= TOP_PROCESS_LIMIT,
            sorted_cpu_desc(cap),
            s@ == cap.skip(done),
            out@ == cap.take(done).filter(floor_pred()),
            src.len() == out@.len(),
            forall|k: int| 0 <= k < src.len() ==> 0 <= #[trigger] src[k] < done,
            forall|k1: int, k2: int| 0 <= k1 < k2 < src.len() ==> src[k1] < src[k2],
            forall|k: int| 0 <= k < src.len() ==> out@[k] == cap[#[trigger] src[k]],
            forall|k: int| 0 <= k < out@.len() ==> above_floor(#[trigger] out@[k]),
        decreases s@.len(),
    {
        let ghost prev_s = s@;
        let ghost prev_out = out@;
        let p = s.remove(0);
        proof {
            assert(p == cap[done]);
            prev_s.remove_ensures(0);
            assert(s@ =~= cap.skip(done + 1));
        }
        if p.cpu_bp > CPU_NOISE_FLOOR_BP {
            out.push(p);
            proof {
                src = src.push(done);
            }
        }
        proof {
            reveal_with_fuel(Seq::filter, 2);
            assert(cap.take(done + 1).drop_last() =~= cap.take(done));
            assert(cap.take(done + 1).last() == cap[done]);
            assert(floor_pred()(cap[done]) == above_floor(cap[done]));
            if above_floor(cap[done]) {
                assert(cap.take(done + 1).filter(floor_pred()) == cap.take(done).filter(
                    floor_pred(),
                ).push(cap[done]));
            } else {
                assert(cap.take(done + 1).filter(floor_pred()) == cap.take(done).filter(
                    floor_pred(),
                ));
            }
            assert(out@ == cap.take(done + 1).filter(floor_pred()));
            done = done + 1;
        }
    }
    proof {
        assert(cap.take(done) =~= cap);
        assert(out@ == top_shape(sorted@));
        assert forall|a: int, b: int| 0 <= a < b < out@.len() implies out@[a].cpu_bp
            >= out@[b].cpu_bp by {
            assert(out@[a] == cap[src[a]]);
            assert(out@[b] == cap[src[b]]);
            assert(src[a] < src[b]);
        }
        if distinct_cpu(sorted@) {
            assert forall|a: int, b: int| 0 <= a < b < out@.len() implies out@[a].cpu_bp
                > out@[b].cpu_bp by {
                assert(out@[a] == cap[src[a]]);
                assert(out@[b] == cap[src[b]]);
                assert(src[a] < src[b]);
                assert(distinct_cpu(cap));
            }
        }
    }
    out
}

/// The shaped rows a completed sampling call must show for a reading: the
/// input's processes stand in some ranking ordered by CPU usage, highest
/// first, and the snapshot shows its first five rows above the noise floor.
pub open spec fn top_of_reading(top: Seq<ProcessSample>, processes: Seq<ProcessSample>) -> bool {
    exists|s: Seq<ProcessSample>|
        #![trigger sorted_cpu_desc(s)]
        sorted_cpu_desc(s) && s.to_multiset() == processes.to_multiset() && top == top_shape(s)
}

/// Relies on chrono::Local::now and chrono::Timelike::{hour, minute}: the
/// local wall-clock hour is 0 to 23 and the minute 0 to 59.
#[verifier::external_body]
fn local_hour_minute() -> (r: (u8, u8))
    ensures
        r.0 < 24,
        r.1 < 60,
{
    let now = chrono::Local::now();
    (chrono::Timelike::hour(&now) as u8, chrono::Timelike::minute(&now) as u8)
}

/// Everything a completed sampling call promises of its snapshot, apart
/// from the clock field: the aggregate counters are the reading's, taken
/// from the one refresh cycle, and the process rows are the reading's top
/// rows — at most five, ordered by CPU usage highest first, all above the
/// noise floor, and strictly ordered whenever the reading's CPU figures
/// are pairwise distinct.
pub open spec fn snapshot_of_reading(snap: HostSnapshot, reading: HostReading) -> bool {
    &&& snap.cpu_bp == reading.cpu_bp
    &&& snap.memory_used == reading.memory_used
    &&& snap.memory_total == reading.memory_total
    &&& snap.top_processes@.len() <= TOP_PROCESS_LIMIT
    &&& sorted_cpu_desc(snap.top_processes@)
    &&& forall|i: int|
        0 <= i < snap.top_processes@.len() ==> above_floor(#[trigger] snap.top_processes@[i])
    &&& (distinct_cpu(reading.processes@) ==> strictly_cpu_desc(snap.top_processes@))
    &&& top_of_reading(snap.top_processes@, reading.processes@)
}

/// The telemetry sampler: the core's view of the shared host-metrics
/// handle. It carries the poisoning status of the guard around that
/// handle: once a holder has terminated abnormally, every later sampling
/// call fails fast with `LockFailure` instead of deadlocking.
pub struct TelemetrySampler {
    poisoned: bool,
}

impl TelemetrySampler {
    /// Whether the guard is poisoned: a prior holder terminated abnormally.
    pub closed spec fn spec_poisoned(&self) -> bool {
        self.poisoned
    }

    /// A fresh sampler whose guard is healthy.
    pub fn new() -> (s: TelemetrySampler)
        ensures
            !s.spec_poisoned(),
    {
        TelemetrySampler { poisoned: false }
    }

    /// Models a holder of the metrics guard terminating abnormally while
    /// holding it: from here on, sampling fails fast with `LockFailure`.
    pub fn poison(&mut self)
        ensures
            final(self).spec_poisoned(),
    {
        self.poisoned = true;
    }

    /// Shapes one refresh cycle into a snapshot stamped with the given
    /// wall-clock time. Succeeds exactly when the guard is healthy, and
    /// never changes the guard's status: repeating the call cannot make it
    /// start failing.
    pub fn sample(&mut self, reading: HostReading, hour: u8, minute: u8) -> (r: Result<
        HostSnapshot,
        IslandError,
    >)
        requires
            reading.wf(),
            hour < 24,
            minute < 60,
        ensures
            final(self).spec_poisoned() == old(self).spec_poisoned(),
            r is Ok <==> !old(self).spec_poisoned(),
            r is Err ==> r->Err_0 == IslandError::LockFailure,
            r is Ok ==> snapshot_of_reading(r->Ok_0, reading),
            r is Ok ==> r->Ok_0.sample_time@ == clock_chars(hour as int, minute as int),
            r is Ok ==> r->Ok_0.memory_used <= r->Ok_0.memory_total,
    {
        if self.poisoned {
            return Err(IslandError::LockFailure);
        }
        let HostReading { cpu_bp, memory_used, memory_total, processes } = reading;
        let ranked = sort_by_cpu_desc(processes);
        let ghost ranking = ranked@;
        let top = shape_top(ranked);
        let sample_time = format_hh_mm(hour, minute);
        let snap = HostSnapshot { cpu_bp, memory_used, memory_total, sample_time, top_processes: top };
        proof {
            assert(sorted_cpu_desc(ranking));
            assert(snap.top_processes@ == top_shape(ranking));
            assert(top_of_reading(snap.top_processes@, reading.processes@));
        }
        Ok(snap)
    }

    /// Samples against the live local clock: as `sample`, with the
    /// snapshot stamped `HH:MM` from the wall clock at the time of the
    /// call.
    pub fn sample_local(&mut self, reading: HostReading) -> (r: Result<
        HostSnapshot,
        IslandError,
    >)
        requires
            reading.wf(),
        ensures
            final(self).spec_poisoned() == old(self).spec_poisoned(),
            r is Ok <==> !old(self).spec_poisoned(),
            r is Err ==> r->Err_0 == IslandError::LockFailure,
            r is Ok ==> snapshot_of_reading(r->Ok_0, reading),
            r is Ok ==> is_clock_render(r->Ok_0.sample_time@),
            r is Ok ==> r->Ok_0.memory_used <= r->Ok_0.memory_total,
    {
        let (hour, minute) = local_hour_minute();
        let r = self.sample(reading, hour, minute);
        proof {
            if r is Ok {
                assert(r->Ok_0.sample_time@ == clock_chars(hour as int, minute as int));
            }
        }
        r
    }
}

} // verus!
