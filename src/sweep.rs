use vstd::prelude::*;
use crate::timing::{
    clamp_size, clamp_spec, throughput_bytes_per_sec, throughput_spec, MAX_BUFFER_SIZE, WARMUP_SIZE,
};

verus! {

/// How a sweep turns a measured duration into a figure.
#[derive(Clone, Copy, Debug, PartialEq, Eq, Structural)]
pub enum Style {
    /// Each size is processed `iterations` times in one timed batch and the
    /// figure is bytes per second.
    Throughput { iterations: u64 },
    /// Each size is processed once and the figure is the raw duration.
    Latency,
}

/// The figure reported for one size.
#[derive(Clone, Copy, Debug, PartialEq, Eq, Structural)]
pub enum Metric {
    /// Bytes per second, rounded down.
    BytesPerSecond(u64),
    /// No throughput exists: no time elapsed, or it does not fit in a `u64`.
    Unmeasured,
    /// Elapsed microseconds of a single operation, not averaged.
    Micros(u64),
}

/// One line of a sweep's output.
#[derive(Clone, Copy, Debug, PartialEq, Eq, Structural)]
pub struct Report {
    /// The size as configured.
    pub data_size: usize,
    /// The size actually handed to the engine.
    pub processed: usize,
    pub metric: Metric,
}

/// What the engine has to do next.
#[derive(Clone, Copy, Debug, PartialEq, Eq, Structural)]
pub enum Action {
    /// Run the discarded warm-up: `iterations` operations of `size` bytes.
    Warmup { size: usize, iterations: u64 },
    /// Run the timed batch for the configured size at `index`.
    Measure { index: usize, size: usize, iterations: u64 },
    /// Every configured size has been reported.
    Finished,
}

/// Abstract state of a sweep.
pub ghost struct SweepState {
    pub sizes: Seq<usize>,
    pub style: Style,
    pub warmed: bool,
    pub next: nat,
}

/// A warm-up followed by one timed batch per configured size, in order.
/// The engine is driven from outside: ask for the next action, perform it,
/// and hand back the elapsed time.
pub struct Sweep {
    sizes: Vec<usize>,
    style: Style,
    warmed: bool,
    next: usize,
}

/// Operations in one timed batch.
pub open spec fn iterations_spec(style: Style) -> u64 {
    match style {
        Style::Throughput { iterations } => iterations,
        Style::Latency => 1,
    }
}

/// The figure for a batch on the configured `size` that took `elapsed_us`.
pub open spec fn metric_spec(style: Style, size: usize, elapsed_us: u64) -> Metric {
    match style {
        Style::Throughput { iterations } => {
            let t = throughput_spec(iterations as int, clamp_spec(size as int), elapsed_us as int);
            if elapsed_us == 0 || t > u64::MAX as int {
                Metric::Unmeasured
            } else {
                Metric::BytesPerSecond(t as u64)
            }
        },
        Style::Latency => Metric::Micros(elapsed_us),
    }
}

pub open spec fn report_spec(style: Style, size: usize, elapsed_us: u64) -> Report {
    Report {
        data_size: size,
        processed: clamp_spec(size as int) as usize,
        metric: metric_spec(style, size, elapsed_us),
    }
}

pub open spec fn initial_spec(sizes: Seq<usize>, style: Style) -> SweepState {
    SweepState { sizes, style, warmed: false, next: 0 }
}

pub open spec fn action_spec(s: SweepState) -> Action {
    if !s.warmed {
        Action::Warmup { size: WARMUP_SIZE, iterations: iterations_spec(s.style) }
    } else if s.next < s.sizes.len() {
        Action::Measure {
            index: s.next as usize,
            size: clamp_spec(s.sizes[s.next as int] as int) as usize,
            iterations: iterations_spec(s.style),
        }
    } else {
        Action::Finished
    }
}

/// The state and report after the engine took `elapsed_us` on the current action.
pub open spec fn step_spec(s: SweepState, elapsed_us: u64) -> (SweepState, Option<Report>) {
    if !s.warmed {
        (SweepState { warmed: true, ..s }, None)
    } else if s.next < s.sizes.len() {
        (
            SweepState { next: s.next + 1, ..s },
            Some(report_spec(s.style, s.sizes[s.next as int], elapsed_us)),
        )
    } else {
        (s, None)
    }
}

/// The state and the reports after a run of samples, one per action.
pub open spec fn feed_spec(s: SweepState, samples: Seq<u64>) -> (SweepState, Seq<Report>)
    decreases samples.len(),
{
    if samples.len() == 0 {
        (s, Seq::empty())
    } else {
        let (mid, reports) = feed_spec(s, samples.drop_last());
        let (last, r) = step_spec(mid, samples.last());
        match r {
            Some(rep) => (last, reports.push(rep)),
            None => (last, reports),
        }
    }
}

/// Number of sizes reported after `k` samples of a sweep over `n` sizes.
pub open spec fn reported_count(n: nat, k: nat) -> nat {
    if k == 0 {
        0
    } else if k - 1 <= n {
        (k - 1) as nat
    } else {
        n
    }
}

impl View for Sweep {
    type V = SweepState;

    closed spec fn view(&self) -> SweepState {
        SweepState {
            sizes: self.sizes@,
            style: self.style,
            warmed: self.warmed,
            next: self.next as nat,
        }
    }
}

impl Sweep {
    pub closed spec fn wf(&self) -> bool {
        &&& self.next <= self.sizes@.len()
        &&& (!self.warmed ==> self.next == 0)
    }

    /// A sweep over `sizes`, in their order, that has not yet warmed up.
    pub fn new(sizes: Vec<usize>, style: Style) -> (r: Sweep)
        ensures
            r.wf(),
            r@ == initial_spec(sizes@, style),
    {
        Sweep { sizes, style, warmed: false, next: 0 }
    }

    /// The warm-up first, then each configured size, clamped, in order.
    pub fn next_action(&self) -> (r: Action)
        requires
            self.wf(),
        ensures
            r == action_spec(self@),
            r matches Action::Measure { size, .. } ==> size <= MAX_BUFFER_SIZE,
    {
        let iterations = iterations_of(self.style);
        if !self.warmed {
            Action::Warmup { size: WARMUP_SIZE, iterations }
        } else if self.next < self.sizes.len() {
            Action::Measure {
                index: self.next,
                size: clamp_size(self.sizes[self.next]),
                iterations,
            }
        } else {
            Action::Finished
        }
    }

    /// Takes the elapsed time of the action last handed out. The warm-up's
    /// time is dropped; a measured size yields its report.
    pub fn record(&mut self, elapsed_us: u64) -> (r: Option<Report>)
        requires
            old(self).wf(),
        ensures
            final(self).wf(),
            (final(self)@, r) == step_spec(old(self)@, elapsed_us),
    {
        if !self.warmed {
            self.warmed = true;
            None
        } else if self.next < self.sizes.len() {
            let size = self.sizes[self.next];
            let rep = Report {
                data_size: size,
                processed: clamp_size(size),
                metric: measure_metric(self.style, size, elapsed_us),
            };
            self.next = self.next + 1;
            Some(rep)
        } else {
            None
        }
    }

    pub fn is_finished(&self) -> (r: bool)
        requires
            self.wf(),
        ensures
            r == (action_spec(self@) == Action::Finished),
    {
        self.warmed && self.next >= self.sizes.len()
    }
}

/// Operations in one timed batch of a sweep in this style.
pub fn iterations_of(style: Style) -> (r: u64)
    ensures
        r == iterations_spec(style),
{
    match style {
        Style::Throughput { iterations } => iterations,
        Style::Latency => 1,
    }
}

/// The figure for a batch on the configured `size` that took `elapsed_us`:
/// throughput over the clamped size, or the duration itself for a latency
/// sweep.
pub fn measure_metric(style: Style, size: usize, elapsed_us: u64) -> (r: Metric)
    ensures
        r == metric_spec(style, size, elapsed_us),
        style == Style::Latency ==> r == Metric::Micros(elapsed_us),
{
    match style {
        Style::Throughput { iterations } => {
            match throughput_bytes_per_sec(iterations, clamp_size(size), elapsed_us) {
                Some(t) => Metric::BytesPerSecond(t),
                None => Metric::Unmeasured,
            }
        },
        Style::Latency => Metric::Micros(elapsed_us),
    }
}

/// Closed form of a sweep fed `samples` from its start.
proof fn lemma_feed_from_start(sizes: Seq<usize>, style: Style, samples: Seq<u64>)
    ensures
        ({
            let (st, reports) = feed_spec(initial_spec(sizes, style), samples);
            let n = reported_count(sizes.len(), samples.len());
            &&& st == SweepState { sizes, style, warmed: samples.len() > 0, next: n }
            &&& reports.len() == n
            &&& forall|i: int|
                0 <= i < n ==> #[trigger] reports[i] == report_spec(style, sizes[i], samples[i + 1])
        }),
    decreases samples.len(),
{
    if samples.len() > 0 {
        let prev = samples.drop_last();
        lemma_feed_from_start(sizes, style, prev);
        let (mid, reports) = feed_spec(initial_spec(sizes, style), prev);
        assert forall|i: int| 0 <= i < reported_count(sizes.len(), prev.len()) implies
            reports[i] == report_spec(style, sizes[i], samples[i + 1]) by {
            assert(prev[i + 1] == samples[i + 1]);
        }
    }
}

/// The warm-up is the first action and never comes again; the time it took
/// never reaches a report: two runs whose samples differ only in the
/// warm-up's sample report the same.
pub proof fn lemma_warmup_once_and_discarded(
    sizes: Seq<usize>,
    style: Style,
    samples: Seq<u64>,
    other: Seq<u64>,
)
    requires
        samples.len() == other.len(),
        forall|i: int| 1 <= i < samples.len() ==> samples[i] == other[i],
    ensures
        action_spec(initial_spec(sizes, style)) is Warmup,
        samples.len() > 0 ==> !(action_spec(feed_spec(initial_spec(sizes, style), samples).0) is Warmup),
        feed_spec(initial_spec(sizes, style), samples).1 == feed_spec(initial_spec(sizes, style), other).1,
{
    lemma_feed_from_start(sizes, style, samples);
    lemma_feed_from_start(sizes, style, other);
    let a = feed_spec(initial_spec(sizes, style), samples).1;
    let b = feed_spec(initial_spec(sizes, style), other).1;
    assert(a =~= b);
}

/// The sizes are measured in their configured order, each once: after the
/// warm-up and one sample per size, there is one report per size, the i-th
/// for the i-th size and the (i+1)-th sample, and the sweep is finished.
pub proof fn lemma_sweep_in_order(sizes: Seq<usize>, style: Style, samples: Seq<u64>)
    requires
        samples.len() == sizes.len() + 1,
    ensures
        ({
            let (st, reports) = feed_spec(initial_spec(sizes, style), samples);
            &&& reports.len() == sizes.len()
            &&& forall|i: int|
                0 <= i < sizes.len() ==> #[trigger] reports[i] == report_spec(style, sizes[i], samples[i + 1])
            &&& action_spec(st) == Action::Finished
        }),
{
    lemma_feed_from_start(sizes, style, samples);
}

/// Every size handed to the engine is within the largest buffer.
pub proof fn lemma_sizes_clamped(sizes: Seq<usize>, style: Style, samples: Seq<u64>)
    requires
        sizes.len() <= usize::MAX,
    ensures
        ({
            let a = action_spec(feed_spec(initial_spec(sizes, style), samples).0);
            a matches Action::Measure { index, size, .. } ==> size == clamp_spec(sizes[index as int] as int)
                && size <= MAX_BUFFER_SIZE
        }),
{
    lemma_feed_from_start(sizes, style, samples);
    let st = feed_spec(initial_spec(sizes, style), samples).0;
    if st.warmed && st.next < st.sizes.len() {
        assert(st.next < sizes.len());
        assert((st.next as usize) as int == st.next);
        assert(0 <= clamp_spec(sizes[st.next as int] as int) <= MAX_BUFFER_SIZE);
    }
}

/// A latency sweep reports each duration as measured: the figure for the
/// i-th size is the (i+1)-th sample itself, with no averaging.
pub proof fn lemma_latency_is_raw(sizes: Seq<usize>, samples: Seq<u64>)
    ensures
        ({
            let reports = feed_spec(initial_spec(sizes, Style::Latency), samples).1;
            forall|i: int|
                0 <= i < reports.len() ==> #[trigger] reports[i].metric == Metric::Micros(samples[i + 1])
        }),
{
    lemma_feed_from_start(sizes, Style::Latency, samples);
}

} // verus!
