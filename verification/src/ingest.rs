//! The row-ingestion state machine.
//!
//! Classified rows are folded, one at a time and in file order, into a
//! mapping from calendar date to that date's samples. The machine has two
//! modes: `Waiting`, outside any data block, and `Parsing`, inside one. A
//! blank row always resets to `Waiting`; a header row seen while waiting
//! opens a block; a malformed row inside a block closes it without losing
//! any already-collected samples. Accepted data rows pass a two-phase date
//! window: the first `skip_days` calendar days after the first date seen
//! are discarded, then `window_days` days are retained, and the first
//! sample beyond the retained span stops the whole run for good.
//!
//! The executable machine is verified against [`step_spec`], a purely
//! mathematical transition function, and a run over a row sequence against
//! its fold [`run_spec`].

use crate::date::Date;
use crate::errors::ConfigError;
use crate::rows::{classify_row, spec_classify, Cell, RowKind, Sample};
use vstd::prelude::*;

verus! {

/// The two modes of the ingestion machine.
#[derive(Clone, Copy, Debug, PartialEq, Eq, Structural)]
pub enum Mode {
    /// Outside a data block; only a header row is of interest.
    Waiting,
    /// Inside a data block; data rows are consumed.
    Parsing,
}

/// The date-window configuration: how many initial calendar days to
/// discard, and how many subsequent days to retain.
#[derive(Clone, Copy, Debug, PartialEq, Eq, Structural)]
pub struct WindowConfig {
    /// Days discarded from the start of the recording.
    pub skip_days: u32,
    /// Days retained after the skipped span; always positive.
    pub window_days: u32,
}

impl WindowConfig {
    /// A valid window retains at least one day.
    pub open spec fn wf(self) -> bool {
        self.window_days >= 1
    }

    /// Builds a window configuration, rejecting an empty retained window.
    pub fn new(skip_days: u32, window_days: u32) -> (r: Result<WindowConfig, ConfigError>)
        ensures
            match r {
                Ok(c) => window_days >= 1 && c.skip_days == skip_days && c.window_days
                    == window_days && c.wf(),
                Err(e) => window_days == 0 && e == ConfigError::EmptyWindow,
            },
    {
        if window_days == 0 {
            Err(ConfigError::EmptyWindow)
        } else {
            Ok(WindowConfig { skip_days, window_days })
        }
    }
}

/// The mathematical state of an ingestion run: the machine mode, the two
/// run-level date counters, whether the window has been exhausted, and the
/// per-date buckets in first-arrival order.
pub struct IngestModel {
    pub mode: Mode,
    /// Earliest date encountered, skipped days included.
    pub first_seen: Option<Date>,
    /// First date actually retained.
    pub first_parsed: Option<Date>,
    /// Whether a sample beyond the retained span has stopped the run.
    pub stopped: bool,
    /// One entry per date, in the order the dates first arrived; each
    /// entry pairs the date with its samples in arrival order.
    pub buckets: Seq<(Date, Seq<Sample>)>,
}

/// The state every run starts from: waiting, nothing seen, nothing
/// collected.
pub open spec fn init_model() -> IngestModel {
    IngestModel {
        mode: Mode::Waiting,
        first_seen: None,
        first_parsed: None,
        stopped: false,
        buckets: Seq::empty(),
    }
}

/// Whether some bucket carries the given date.
pub open spec fn has_date(buckets: Seq<(Date, Seq<Sample>)>, d: Date) -> bool {
    exists|i: int| 0 <= i < buckets.len() && buckets[i].0 == d
}

/// No two buckets share a date.
pub open spec fn dates_distinct(buckets: Seq<(Date, Seq<Sample>)>) -> bool {
    forall|i: int, j: int| 0 <= i < j < buckets.len() ==> buckets[i].0 != buckets[j].0
}

/// Well-formed buckets: dates pairwise distinct, no bucket empty, and
/// every sample filed under its own date.
pub open spec fn buckets_wf(buckets: Seq<(Date, Seq<Sample>)>) -> bool {
    &&& dates_distinct(buckets)
    &&& forall|i: int| 0 <= i < buckets.len() ==> #[trigger] buckets[i].1.len() > 0
    &&& forall|i: int, k: int|
        0 <= i < buckets.len() && 0 <= k < buckets[i].1.len() ==> (#[trigger] buckets[i].1[k]).date
            == buckets[i].0
}

/// The samples filed under the given date: those of the first bucket
/// carrying it, or the empty sequence when no bucket does.
pub open spec fn samples_of_date(buckets: Seq<(Date, Seq<Sample>)>, d: Date) -> Seq<Sample>
    decreases buckets.len(),
{
    if buckets.len() == 0 {
        Seq::empty()
    } else if buckets[0].0 == d {
        buckets[0].1
    } else {
        samples_of_date(buckets.drop_first(), d)
    }
}

/// `samples_of_date` yields exactly the samples of the first bucket
/// carrying the date.
proof fn lemma_samples_of_date_at(buckets: Seq<(Date, Seq<Sample>)>, d: Date, i: int)
    requires
        0 <= i < buckets.len(),
        buckets[i].0 == d,
        forall|j: int| 0 <= j < i ==> buckets[j].0 != d,
    ensures
        samples_of_date(buckets, d) == buckets[i].1,
    decreases i,
{
    if i > 0 {
        lemma_samples_of_date_at(buckets.drop_first(), d, i - 1);
    }
}

/// Files one sample: appended to the first bucket carrying its date, or
/// into a fresh bucket at the end when no bucket carries it yet.
pub open spec fn append_sample(buckets: Seq<(Date, Seq<Sample>)>, s: Sample) -> Seq<
    (Date, Seq<Sample>),
>
    decreases buckets.len(),
{
    if buckets.len() == 0 {
        seq![(s.date, seq![s])]
    } else if buckets[0].0 == s.date {
        seq![(buckets[0].0, buckets[0].1.push(s))] + buckets.drop_first()
    } else {
        seq![buckets[0]] + append_sample(buckets.drop_first(), s)
    }
}

/// The windowing filter of one accepted data row, exactly as the machine
/// applies it: record the first date seen; discard while within the
/// skipped span; record the first retained date; stop for good once the
/// sample lies at or beyond the end of the retained span; otherwise file
/// the sample under its date.
pub open spec fn accept_spec(cfg: WindowConfig, s: IngestModel, sample: Sample) -> IngestModel {
    let first_seen = match s.first_seen {
        Some(d) => d,
        None => sample.date,
    };
    if sample.date.days - first_seen.days < cfg.skip_days {
        IngestModel {
            mode: s.mode,
            first_seen: Some(first_seen),
            first_parsed: s.first_parsed,
            stopped: s.stopped,
            buckets: s.buckets,
        }
    } else {
        let first_parsed = match s.first_parsed {
            Some(d) => d,
            None => sample.date,
        };
        if sample.date.days - first_parsed.days >= cfg.window_days {
            IngestModel {
                mode: s.mode,
                first_seen: Some(first_seen),
                first_parsed: Some(first_parsed),
                stopped: true,
                buckets: s.buckets,
            }
        } else {
            IngestModel {
                mode: s.mode,
                first_seen: Some(first_seen),
                first_parsed: Some(first_parsed),
                stopped: s.stopped,
                buckets: append_sample(s.buckets, sample),
            }
        }
    }
}

/// One transition of the machine on one classified row. A stopped run
/// ignores everything. A blank row resets to `Waiting`. A header row
/// opens a block only from `Waiting`; inside a block it is malformed data
/// and closes the block, as any unparseable row does. A data row is
/// ignored while waiting and filtered through the date window while
/// parsing.
pub open spec fn step_spec(cfg: WindowConfig, s: IngestModel, k: RowKind) -> IngestModel {
    if s.stopped {
        s
    } else {
        match k {
            RowKind::Blank => IngestModel {
                mode: Mode::Waiting,
                first_seen: s.first_seen,
                first_parsed: s.first_parsed,
                stopped: s.stopped,
                buckets: s.buckets,
            },
            RowKind::Header => if s.mode == Mode::Waiting {
                IngestModel {
                    mode: Mode::Parsing,
                    first_seen: s.first_seen,
                    first_parsed: s.first_parsed,
                    stopped: s.stopped,
                    buckets: s.buckets,
                }
            } else {
                IngestModel {
                    mode: Mode::Waiting,
                    first_seen: s.first_seen,
                    first_parsed: s.first_parsed,
                    stopped: s.stopped,
                    buckets: s.buckets,
                }
            },
            RowKind::Unparseable => if s.mode == Mode::Waiting {
                s
            } else {
                IngestModel {
                    mode: Mode::Waiting,
                    first_seen: s.first_seen,
                    first_parsed: s.first_parsed,
                    stopped: s.stopped,
                    buckets: s.buckets,
                }
            },
            RowKind::Data(sample) => if s.mode == Mode::Waiting {
                s
            } else {
                accept_spec(cfg, s, sample)
            },
        }
    }
}

/// The whole run: the fold of [`step_spec`] over a sequence of classified
/// rows, starting from [`init_model`].
pub open spec fn run_spec(cfg: WindowConfig, kinds: Seq<RowKind>) -> IngestModel
    decreases kinds.len(),
{
    if kinds.len() == 0 {
        init_model()
    } else {
        step_spec(cfg, run_spec(cfg, kinds.drop_last()), kinds.last())
    }
}

/// The classification of every row of a sheet.
pub open spec fn row_kinds(rows: Seq<Vec<Cell>>) -> Seq<RowKind> {
    rows.map_values(|r: Vec<Cell>| spec_classify(r@))
}

/// Filing a sample whose date the buckets already carry, first at index
/// `i`, appends it to that bucket and touches nothing else.
proof fn lemma_append_sample_found(buckets: Seq<(Date, Seq<Sample>)>, s: Sample, i: int)
    requires
        0 <= i < buckets.len(),
        buckets[i].0 == s.date,
        forall|j: int| 0 <= j < i ==> buckets[j].0 != s.date,
    ensures
        append_sample(buckets, s) == buckets.update(i, (s.date, buckets[i].1.push(s))),
    decreases i,
{
    if i == 0 {
        assert(append_sample(buckets, s) =~= buckets.update(0, (s.date, buckets[0].1.push(s))));
    } else {
        lemma_append_sample_found(buckets.drop_first(), s, i - 1);
        assert(append_sample(buckets, s) =~= buckets.update(i, (s.date, buckets[i].1.push(s))));
    }
}

/// Filing a sample whose date no bucket carries opens a fresh bucket at
/// the end.
proof fn lemma_append_sample_new(buckets: Seq<(Date, Seq<Sample>)>, s: Sample)
    requires
        forall|j: int| 0 <= j < buckets.len() ==> buckets[j].0 != s.date,
    ensures
        append_sample(buckets, s) == buckets.push((s.date, seq![s])),
    decreases buckets.len(),
{
    if buckets.len() == 0 {
        assert(append_sample(buckets, s) =~= buckets.push((s.date, seq![s])));
    } else {
        lemma_append_sample_new(buckets.drop_first(), s);
        assert(append_sample(buckets, s) =~= buckets.push((s.date, seq![s])));
    }
}

/// Once a run has stopped, the remaining rows change nothing: the fold
/// over any extension equals the fold at the stopping point.
proof fn lemma_run_spec_stopped(cfg: WindowConfig, kinds: Seq<RowKind>, i: int)
    requires
        0 <= i <= kinds.len(),
        run_spec(cfg, kinds.take(i)).stopped,
    ensures
        run_spec(cfg, kinds) == run_spec(cfg, kinds.take(i)),
    decreases kinds.len() - i,
{
    if i == kinds.len() {
        assert(kinds.take(i) =~= kinds);
    } else {
        assert(kinds.take(i + 1).drop_last() =~= kinds.take(i));
        assert(kinds.take(i + 1).last() == kinds[i]);
        lemma_run_spec_stopped(cfg, kinds, i + 1);
    }
}

/// A blank row immediately followed by a header row always re-enters
/// `Parsing`, and the interruption neither loses nor duplicates anything:
/// the buckets and both date counters are exactly those before the reset.
pub proof fn lemma_blank_then_header_resumes(cfg: WindowConfig, s: IngestModel)
    requires
        !s.stopped,
    ensures
        ({
            let after = step_spec(cfg, step_spec(cfg, s, RowKind::Blank), RowKind::Header);
            &&& after.mode == Mode::Parsing
            &&& after.buckets == s.buckets
            &&& after.first_seen == s.first_seen
            &&& after.first_parsed == s.first_parsed
            &&& !after.stopped
        }),
{
}

/// An unparseable row met while parsing ends the block on its own — no
/// blank separator is needed — and discards nothing already collected.
pub proof fn lemma_unparseable_ends_block(cfg: WindowConfig, s: IngestModel)
    requires
        !s.stopped,
        s.mode == Mode::Parsing,
    ensures
        ({
            let after = step_spec(cfg, s, RowKind::Unparseable);
            &&& after.mode == Mode::Waiting
            &&& after.buckets == s.buckets
            &&& after.first_seen == s.first_seen
            &&& after.first_parsed == s.first_parsed
            &&& !after.stopped
        }),
{
}

/// The first bucket carrying the given date, if any: the index of the
/// first element of `days` whose date equals `d`.
fn find_bucket_index(days: &Vec<DayBucket>, d: Date) -> (r: Option<usize>)
    ensures
        match r {
            Some(i) => 0 <= i < days@.len() && days@[i as int].date == d && (forall|j: int|
                0 <= j < i ==> days@[j].date != d),
            None => forall|j: int| 0 <= j < days@.len() ==> days@[j].date != d,
        },
{
    let mut i: usize = 0;
    while i < days.len()
        invariant
            i <= days@.len(),
            forall|j: int| 0 <= j < i ==> days@[j].date != d,
        decreases days@.len() - i,
    {
        if days[i].date == d {
            return Some(i);
        }
        i += 1;
    }
    None
}

/// One calendar day's samples, in arrival order.
#[derive(Clone, Debug)]
pub struct DayBucket {
    /// The date all samples of this bucket share.
    pub date: Date,
    /// The samples, in the order they arrived.
    pub samples: Vec<Sample>,
}

impl View for DayBucket {
    type V = (Date, Seq<Sample>);

    open spec fn view(&self) -> (Date, Seq<Sample>) {
        (self.date, self.samples@)
    }
}

/// The mapping from calendar date to that date's samples, as produced by
/// one ingestion run: one bucket per date, in first-arrival order.
#[derive(Clone, Debug)]
pub struct SeriesWindow {
    /// The buckets, one per date.
    pub days: Vec<DayBucket>,
}

impl View for SeriesWindow {
    type V = Seq<(Date, Seq<Sample>)>;

    open spec fn view(&self) -> Seq<(Date, Seq<Sample>)> {
        self.days@.map_values(|b: DayBucket| (b.date, b.samples@))
    }
}

impl SeriesWindow {
    /// An empty window.
    pub fn new() -> (w: SeriesWindow)
        ensures
            w@ == Seq::<(Date, Seq<Sample>)>::empty(),
            buckets_wf(w@),
    {
        let w = SeriesWindow { days: Vec::new() };
        proof {
            assert(w@ =~= Seq::<(Date, Seq<Sample>)>::empty());
        }
        w
    }

    /// Files one sample under its date, exactly as [`append_sample`]
    /// describes.
    pub fn append(&mut self, sample: Sample)
        requires
            buckets_wf(old(self)@),
        ensures
            final(self)@ == append_sample(old(self)@, sample),
            buckets_wf(final(self)@),
    {
        let ghost prev = self@;
        proof {
            assert(forall|j: int|
                0 <= j < prev.len() ==> prev[j] == ((#[trigger] self.days@[j]).date,
                self.days@[j].samples@));
        }
        match find_bucket_index(&self.days, sample.date) {
            Some(i) => {
                let ghost old_days = self.days@;
                self.days[i].samples.push(sample);
                proof {
                    let updated = prev.update(i as int, (sample.date, prev[i as int].1.push(
                        sample,
                    )));
                    assert(prev[i as int].0 == sample.date);
                    lemma_append_sample_found(prev, sample, i as int);
                    assert(self.days@[i as int].date == sample.date);
                    assert(self.days@[i as int].samples@ == old_days[i as int].samples@.push(
                        sample,
                    ));
                    assert(self@ =~= updated);
                    assert(forall|q: int|
                        0 <= q < self@.len() ==> (#[trigger] self@[q]).0 == prev[q].0);
                    assert(dates_distinct(self@));
                    assert(forall|q: int|
                        0 <= q < self@.len() ==> (#[trigger] self@[q]).1.len() > 0);
                    assert(forall|q: int, k: int|
                        0 <= q < self@.len() && 0 <= k < self@[q].1.len() ==> (
                        #[trigger] self@[q].1[k]).date == self@[q].0);
                }
            },
            None => {
                let mut fresh: Vec<Sample> = Vec::new();
                fresh.push(sample);
                self.days.push(DayBucket { date: sample.date, samples: fresh });
                proof {
                    lemma_append_sample_new(prev, sample);
                    assert(self@ =~= prev.push((sample.date, seq![sample])));
                    assert(dates_distinct(self@));
                    assert(forall|q: int|
                        0 <= q < self@.len() ==> (#[trigger] self@[q]).1.len() > 0);
                    assert(forall|q: int, k: int|
                        0 <= q < self@.len() && 0 <= k < self@[q].1.len() ==> (
                        #[trigger] self@[q].1[k]).date == self@[q].0);
                }
            },
        }
    }

    /// The number of distinct dates collected.
    pub fn day_count(&self) -> (n: usize)
        ensures
            n == self@.len(),
    {
        self.days.len()
    }

    /// The bucket of the given date, if the window carries one: the
    /// first bucket carrying it, so its samples are exactly
    /// [`samples_of_date`].
    pub fn get_bucket(&self, d: &Date) -> (r: Option<&DayBucket>)
        ensures
            match r {
                Some(b) => b.date == *d && has_date(self@, *d) && b.samples@ == samples_of_date(
                    self@,
                    *d,
                ) && (exists|q: int| 0 <= q < self@.len() && self@[q] == b@),
                None => !has_date(self@, *d),
            },
    {
        proof {
            assert(forall|j: int|
                0 <= j < self@.len() ==> self@[j] == ((#[trigger] self.days@[j]).date,
                self.days@[j].samples@));
        }
        match find_bucket_index(&self.days, *d) {
            Some(i) => {
                proof {
                    assert(self@[i as int].0 == *d);
                    lemma_samples_of_date_at(self@, *d, i as int);
                }
                Some(&self.days[i])
            },
            None => {
                proof {
                    assert(forall|q: int|
                        0 <= q < self@.len() ==> (#[trigger] self@[q]).0 != *d);
                }
                None
            },
        }
    }

    /// Every collected date, in ascending calendar order: one entry per
    /// bucket, strictly sorted, covering exactly the window's dates.
    pub fn sorted_dates(&self) -> (r: Vec<Date>)
        requires
            buckets_wf(self@),
        ensures
            r@.len() == self@.len(),
            forall|i: int, j: int| 0 <= i < j < r@.len() ==> r@[i].days < r@[j].days,
            forall|i: int| 0 <= i < r@.len() ==> has_date(self@, r@[i]),
            forall|q: int| 0 <= q < self@.len() ==> r@.contains((#[trigger] self@[q]).0),
    {
        proof {
            assert(forall|j: int|
                0 <= j < self@.len() ==> self@[j] == ((#[trigger] self.days@[j]).date,
                self.days@[j].samples@));
        }
        let mut r: Vec<Date> = Vec::new();
        let n: usize = self.days.len();
        let mut i: usize = 0;
        while i < n
            invariant
                buckets_wf(self@),
                n == self@.len(),
                n == self.days@.len(),
                i <= n,
                forall|j: int|
                    0 <= j < self@.len() ==> self@[j] == ((#[trigger] self.days@[j]).date,
                    self.days@[j].samples@),
                r@.len() == i,
                forall|p: int, q: int| 0 <= p < q < r@.len() ==> r@[p].days < r@[q].days,
                forall|k: int|
                    #![trigger r@[k]]
                    0 <= k < r@.len() ==> exists|q: int|
                        0 <= q < i && (#[trigger] self@[q]).0 == r@[k],
                forall|q: int| 0 <= q < i ==> r@.contains((#[trigger] self@[q]).0),
            decreases n - i,
        {
            let d = self.days[i].date;
            proof {
                assert(self@[i as int].0 == d);
                // The date of bucket i never occurs among the dates already
                // collected, which all come from earlier buckets.
                assert forall|k: int| 0 <= k < r@.len() implies (#[trigger] r@[k]) != d by {
                    let q = choose|q: int| 0 <= q < i && (#[trigger] self@[q]).0 == r@[k];
                    assert(self@[q].0 != self@[i as int].0);
                }
            }
            let mut pos: usize = 0;
            while pos < r.len() && r[pos].days < d.days
                invariant
                    pos <= r@.len(),
                    forall|k: int| 0 <= k < pos ==> (#[trigger] r@[k]).days < d.days,
                decreases r@.len() - pos,
            {
                pos += 1;
            }
            proof {
                if pos < r@.len() {
                    assert(r@[pos as int].days >= d.days);
                    assert(r@[pos as int] != d);
                    assert(r@[pos as int].days > d.days);
                }
            }
            let ghost old_r = r@;
            r.insert(pos, d);
            proof {
                assert(r@ =~= old_r.insert(pos as int, d));
                assert(forall|k: int| 0 <= k < pos ==> r@[k] == old_r[k]);
                assert(r@[pos as int] == d);
                assert(forall|k: int| pos < k < r@.len() ==> r@[k] == old_r[k - 1]);
                assert(forall|p: int, q: int| 0 <= p < q < r@.len() ==> r@[p].days < r@[q].days);
                assert forall|q: int| 0 <= q <= i implies r@.contains((#[trigger] self@[q]).0) by {
                    if q < i {
                        let k = choose|k: int| 0 <= k < old_r.len() && old_r[k] == self@[q].0;
                        if k < pos {
                            assert(r@[k] == old_r[k]);
                        } else {
                            assert(r@[k + 1] == old_r[k]);
                        }
                    } else {
                        assert(r@[pos as int] == self@[i as int].0);
                    }
                }
            }
            i += 1;
        }
        r
    }
}

/// One ingestion run in progress: the configuration, the machine state,
/// and the buckets collected so far.
pub struct Ingestion {
    /// The date-window configuration of this run.
    pub config: WindowConfig,
    /// The machine mode.
    pub mode: Mode,
    /// Earliest date encountered, skipped days included.
    pub first_seen: Option<Date>,
    /// First date actually retained.
    pub first_parsed: Option<Date>,
    /// Whether the window has been exhausted.
    pub stopped: bool,
    /// The buckets collected so far.
    pub window: SeriesWindow,
}

impl View for Ingestion {
    type V = IngestModel;

    open spec fn view(&self) -> IngestModel {
        IngestModel {
            mode: self.mode,
            first_seen: self.first_seen,
            first_parsed: self.first_parsed,
            stopped: self.stopped,
            buckets: self.window@,
        }
    }
}

impl Ingestion {
    /// A well-formed run has a valid window configuration and well-formed
    /// buckets.
    pub open spec fn wf(self) -> bool {
        self.config.wf() && buckets_wf(self@.buckets)
    }

    /// Starts a run in the initial state.
    pub fn new(config: WindowConfig) -> (r: Ingestion)
        requires
            config.wf(),
        ensures
            r@ == init_model(),
            r.config == config,
            r.wf(),
    {
        let r = Ingestion {
            config,
            mode: Mode::Waiting,
            first_seen: None,
            first_parsed: None,
            stopped: false,
            window: SeriesWindow::new(),
        };
        r
    }

    /// The windowing filter on one accepted data row.
    fn accept(&mut self, sample: Sample)
        requires
            old(self).wf(),
        ensures
            final(self)@ == accept_spec(old(self).config, old(self)@, sample),
            final(self).config == old(self).config,
            final(self).wf(),
    {
        let first_seen = match &self.first_seen {
            Some(d) => *d,
            None => sample.date,
        };
        self.first_seen = Some(first_seen);
        if sample.date.days_since(&first_seen) < self.config.skip_days as i64 {
            return ;
        }
        let first_parsed = match &self.first_parsed {
            Some(d) => *d,
            None => sample.date,
        };
        self.first_parsed = Some(first_parsed);
        if sample.date.days_since(&first_parsed) >= self.config.window_days as i64 {
            self.stopped = true;
            return ;
        }
        self.window.append(sample);
    }

    /// One transition on one raw row, exactly as [`step_spec`] describes
    /// it on the row's classification.
    pub fn step(&mut self, row: &Vec<Cell>)
        requires
            old(self).wf(),
        ensures
            final(self)@ == step_spec(old(self).config, old(self)@, spec_classify(row@)),
            final(self).config == old(self).config,
            final(self).wf(),
    {
        if self.stopped {
            return ;
        }
        let kind = classify_row(row);
        match kind {
            RowKind::Blank => {
                self.mode = Mode::Waiting;
            },
            RowKind::Header => {
                if self.mode == Mode::Waiting {
                    self.mode = Mode::Parsing;
                } else {
                    self.mode = Mode::Waiting;
                }
            },
            RowKind::Unparseable => {
                if self.mode != Mode::Waiting {
                    self.mode = Mode::Waiting;
                }
            },
            RowKind::Data(sample) => {
                if self.mode != Mode::Waiting {
                    self.accept(sample);
                }
            },
        }
    }

    /// Whether the window has been exhausted and the run stopped.
    pub fn is_stopped(&self) -> (b: bool)
        ensures
            b == self@.stopped,
    {
        self.stopped
    }

    /// Hands the collected window out, ending the run.
    pub fn into_window(self) -> (w: SeriesWindow)
        ensures
            w@ == self@.buckets,
    {
        self.window
    }
}

/// Runs the whole ingestion pass: classifies each row in file order, folds
/// it into the machine, and stops examining rows for good as soon as the
/// window is exhausted. The result is exactly the bucket mapping of
/// [`run_spec`] over the rows' classifications.
pub fn run(config: WindowConfig, rows: &Vec<Vec<Cell>>) -> (w: SeriesWindow)
    requires
        config.wf(),
    ensures
        w@ == run_spec(config, row_kinds(rows@)).buckets,
        buckets_wf(w@),
{
    let mut ing = Ingestion::new(config);
    let ghost kinds = row_kinds(rows@);
    proof {
        assert(kinds.take(0) =~= Seq::<RowKind>::empty());
    }
    let mut i: usize = 0;
    loop
        invariant_except_break
            i <= rows@.len(),
            ing.wf(),
            ing.config == config,
            config.wf(),
            kinds == row_kinds(rows@),
            ing@ == run_spec(config, kinds.take(i as int)),
        ensures
            ing.wf(),
            ing@ == run_spec(config, row_kinds(rows@)),
        decreases rows@.len() - i,
    {
        if i >= rows.len() {
            proof {
                assert(kinds.take(i as int) =~= kinds);
            }
            break ;
        }
        if ing.is_stopped() {
            proof {
                lemma_run_spec_stopped(config, kinds, i as int);
            }
            break ;
        }
        ing.step(&rows[i]);
        proof {
            assert(kinds.take(i + 1).drop_last() =~= kinds.take(i as int));
            assert(kinds.take(i + 1).last() == kinds[i as int]);
            assert(kinds[i as int] == spec_classify(rows@[i as int]@));
        }
        i += 1;
    }
    ing.into_window()
}

} // verus!
