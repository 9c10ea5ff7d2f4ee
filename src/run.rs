use vstd::prelude::*;
use crate::filter::{matches_any, PatternSet};
use crate::paths::{join, opt_view, parent_dir_of, resolve_destination, Destination};
use crate::report::{skip_record, RunReporter, RunStats, SkipReason, SkipRecord};

verus! {

/// How the candidates of a run are found.
pub enum Mode {
    /// The backend enumerates its entries; each one exists.
    Enumeration,
    /// Names come from a list and are probed one by one; a name the backend
    /// does not know is left out of the run without a record.
    Listfile,
}

/// Where a run stands between two calls.
pub enum Phase {
    /// Ready for the next candidate.
    Idle,
    /// The caller is to open the named entry and report the outcome.
    Opening(String),
    /// The caller is to write the named entry and report the outcome.
    Writing(String),
}

/// What the backend said when the entry was opened.
pub enum OpenOutcome {
    Opened,
    NotFound,
    Failed(String),
}

/// What came of streaming an opened entry into its destination file.
pub enum StreamOutcome {
    Written(u64),
    Failed(String),
}

/// The decisions of one extraction run, fed with what the archive and the
/// file system report. Every candidate is offered once; a matched candidate
/// ends either extracted or with exactly one skip record.
pub struct Extraction {
    mode: Mode,
    filter: PatternSet,
    root: String,
    total: u64,
    offered: u64,
    phase: Phase,
    reporter: RunReporter,
    /// The names counted as scanned, in order.
    history: Ghost<Seq<Seq<char>>>,
}

pub open spec fn is_listfile(m: Mode) -> bool {
    m is Listfile
}

/// No record says "not found".
pub open spec fn no_not_found(skipped: Seq<SkipRecord>) -> bool {
    forall|i: int| 0 <= i < skipped.len() ==> !((#[trigger] skipped[i]).reason is NotFound)
}

/// `d` is the destination of the entry `name` under `root`.
pub open spec fn is_destination(d: Destination, root: Seq<char>, name: Seq<char>) -> bool {
    d.file@ == join(root, name) && opt_view(d.dir) == parent_dir_of(root, name)
}

/// How many of `names` match one of `patterns`.
pub open spec fn count_matching(patterns: Seq<Seq<char>>, names: Seq<Seq<char>>) -> nat
    decreases names.len(),
{
    if names.len() == 0 {
        0
    } else {
        count_matching(patterns, names.drop_last()) + if matches_any(patterns, names.last()) {
            1nat
        } else {
            0nat
        }
    }
}

proof fn lemma_count_push(patterns: Seq<Seq<char>>, names: Seq<Seq<char>>, n: Seq<char>)
    ensures
        count_matching(patterns, names.push(n)) == count_matching(patterns, names) + if matches_any(
            patterns,
            n,
        ) {
            1nat
        } else {
            0nat
        },
{
    assert(names.push(n).drop_last() =~= names);
}

impl Extraction {
    pub closed spec fn scanned_names(&self) -> Seq<Seq<char>> {
        self.history@
    }

    pub closed spec fn mode(&self) -> Mode {
        self.mode
    }

    pub closed spec fn patterns(&self) -> Seq<Seq<char>> {
        self.filter@
    }

    pub closed spec fn root(&self) -> Seq<char> {
        self.root@
    }

    pub closed spec fn total(&self) -> u64 {
        self.total
    }

    pub closed spec fn offered(&self) -> u64 {
        self.offered
    }

    pub closed spec fn phase(&self) -> Phase {
        self.phase
    }

    pub closed spec fn scanned(&self) -> u64 {
        self.reporter.scanned()
    }

    pub closed spec fn matched(&self) -> u64 {
        self.reporter.matched()
    }

    pub closed spec fn extracted(&self) -> u64 {
        self.reporter.extracted()
    }

    pub closed spec fn skipped(&self) -> Seq<SkipRecord> {
        self.reporter.skipped()
    }

    /// How many matched candidates are still in flight: one while an entry
    /// counted as matched is being opened or written, none otherwise.
    pub open spec fn in_flight(&self) -> int {
        match self.phase() {
            Phase::Idle => 0,
            Phase::Opening(_) => if is_listfile(self.mode()) { 0 } else { 1 },
            Phase::Writing(_) => 1,
        }
    }

    /// The run's invariant: counters stay ordered, every matched candidate
    /// that is not in flight is either extracted or skipped, a listfile run
    /// holds no "not found" record, and only a name that passes the filter is
    /// ever opened or written.
    pub open spec fn wf(&self) -> bool {
        &&& self.scanned() <= self.offered()
        &&& self.scanned() == self.scanned_names().len()
        &&& self.matched() == count_matching(self.patterns(), self.scanned_names())
        &&& self.matched() <= self.scanned()
        &&& self.matched() == self.extracted() + self.skipped().len() + self.in_flight()
        &&& (is_listfile(self.mode()) && self.phase() is Opening) ==> self.scanned()
            < self.offered()
        &&& is_listfile(self.mode()) ==> no_not_found(self.skipped())
        &&& self.phase() is Opening ==> matches_any(self.patterns(), self.phase()->Opening_0@)
        &&& self.phase() is Writing ==> matches_any(self.patterns(), self.phase()->Writing_0@)
    }

    /// Starts a run writing under `root`; `total` is the number of candidates
    /// announced up front, for progress display.
    pub fn new(mode: Mode, filter: PatternSet, root: String, total: u64) -> (r: Extraction)
        ensures
            r.wf(),
            r.mode() == mode,
            r.patterns() == filter@,
            r.root() == root@,
            r.total() == total,
            r.offered() == 0,
            r.phase() is Idle,
            r.scanned() == 0,
            r.scanned_names().len() == 0,
            r.matched() == 0,
            r.extracted() == 0,
            r.skipped().len() == 0,
    {
        Extraction { mode, filter, root, total, offered: 0, phase: Phase::Idle, reporter: RunReporter::new(), history: Ghost(Seq::empty()) }
    }

    pub fn is_idle(&self) -> (r: bool)
        ensures
            r == self.phase() is Idle,
    {
        match self.phase {
            Phase::Idle => true,
            _ => false,
        }
    }

    pub fn is_opening(&self) -> (r: bool)
        ensures
            r == self.phase() is Opening,
    {
        match self.phase {
            Phase::Opening(_) => true,
            _ => false,
        }
    }

    pub fn is_writing(&self) -> (r: bool)
        ensures
            r == self.phase() is Writing,
    {
        match self.phase {
            Phase::Writing(_) => true,
            _ => false,
        }
    }

    /// Whether another candidate can be offered: the count of offered
    /// candidates has room to grow.
    pub fn has_room(&self) -> (r: bool)
        ensures
            r == (self.offered() < u64::MAX),
    {
        self.offered < u64::MAX
    }

    pub fn total_count(&self) -> (r: u64)
        ensures
            r == self.total(),
    {
        self.total
    }

    /// Offers the next candidate. Returns whether the caller is to open it,
    /// which is exactly when it passes the filter. A candidate that does not
    /// pass is counted as scanned now, in both modes. One that passes is
    /// counted now by enumeration; from a list it is counted when opening it
    /// finds it, and a listed name the archive lacks is never counted.
    pub fn offer(&mut self, name: String) -> (r: bool)
        requires
            old(self).wf(),
            old(self).phase() is Idle,
            old(self).offered() < u64::MAX,
        ensures
            final(self).wf(),
            final(self).mode() == old(self).mode(),
            final(self).patterns() == old(self).patterns(),
            final(self).root() == old(self).root(),
            final(self).total() == old(self).total(),
            final(self).offered() == old(self).offered() + 1,
            final(self).extracted() == old(self).extracted(),
            final(self).skipped() == old(self).skipped(),
            r == matches_any(old(self).patterns(), name@),
            r ==> final(self).phase() == Phase::Opening(name),
            !r ==> final(self).phase() is Idle,
            !r ==> final(self).scanned() == old(self).scanned() + 1 && final(self).matched()
                == old(self).matched(),
            (r && is_listfile(old(self).mode())) ==> final(self).scanned() == old(self).scanned()
                && final(self).matched() == old(self).matched(),
            (r && !is_listfile(old(self).mode())) ==> final(self).scanned() == old(self).scanned()
                + 1 && final(self).matched() == old(self).matched() + 1,
            (r && is_listfile(old(self).mode()))
                ==> final(self).scanned_names() == old(self).scanned_names(),
            !(r && is_listfile(old(self).mode()))
                ==> final(self).scanned_names() == old(self).scanned_names().push(name@),
    {
        self.offered = self.offered + 1;
        if !self.filter.matches(name.as_str()) {
            self.reporter.record_scanned();
            proof {
                lemma_count_push(self.filter@, self.history@, name@);
            }
            self.history = Ghost(self.history@.push(name@));
            return false;
        }
        match self.mode {
            Mode::Listfile => {},
            Mode::Enumeration => {
                self.reporter.record_scanned();
                self.reporter.record_matched();
                proof {
                    lemma_count_push(self.filter@, self.history@, name@);
                }
                self.history = Ghost(self.history@.push(name@));
            },
        }
        self.phase = Phase::Opening(name);
        true
    }

    /// Reports how opening the entry of the current candidate went. Returns
    /// where to write it when the caller is to stream it next.
    pub fn opened(&mut self, outcome: OpenOutcome) -> (r: Option<Destination>)
        requires
            old(self).wf(),
            old(self).phase() is Opening,
        ensures
            final(self).wf(),
            final(self).mode() == old(self).mode(),
            final(self).patterns() == old(self).patterns(),
            final(self).root() == old(self).root(),
            final(self).total() == old(self).total(),
            final(self).offered() == old(self).offered(),
            final(self).extracted() == old(self).extracted(),
            r.is_some() <==> final(self).phase() is Writing,
            r.is_none() <==> final(self).phase() is Idle,
            r matches Some(d) ==> is_destination(d, old(self).root(), old(self).phase()->Opening_0@)
                && final(self).phase() == Phase::Writing(old(self).phase()->Opening_0),
            !is_listfile(old(self).mode()) ==> {
                &&& final(self).scanned() == old(self).scanned()
                &&& final(self).matched() == old(self).matched()
                &&& match outcome {
                    OpenOutcome::Opened => r.is_some() && final(self).skipped() == old(self).skipped(),
                    OpenOutcome::NotFound => r.is_none() && final(self).skipped() == old(self).skipped().push(
                        skip_record(old(self).phase()->Opening_0, SkipReason::NotFound),
                    ),
                    OpenOutcome::Failed(e) => r.is_none() && final(self).skipped() == old(self).skipped().push(
                        skip_record(old(self).phase()->Opening_0, SkipReason::OpenFailed(e)),
                    ),
                }
            },
            (is_listfile(old(self).mode()) && !(outcome is NotFound))
                ==> final(self).scanned_names()
                == old(self).scanned_names().push(old(self).phase()->Opening_0@),
            !(is_listfile(old(self).mode()) && !(outcome is NotFound))
                ==> final(self).scanned_names() == old(self).scanned_names(),
            (is_listfile(old(self).mode()) && outcome is NotFound) ==> {
                &&& r.is_none()
                &&& final(self).scanned() == old(self).scanned()
                &&& final(self).matched() == old(self).matched()
                &&& final(self).skipped() == old(self).skipped()
            },
            (is_listfile(old(self).mode()) && !(outcome is NotFound)) ==> {
                &&& final(self).scanned() == old(self).scanned() + 1
                &&& final(self).matched() == old(self).matched() + 1
                &&& match outcome {
                    OpenOutcome::Failed(e) => r.is_none() && final(self).skipped() == old(self).skipped().push(
                        skip_record(old(self).phase()->Opening_0, SkipReason::OpenFailed(e)),
                    ),
                    _ => r.is_some() && final(self).skipped() == old(self).skipped(),
                }
            },
    {
        let name = match &self.phase {
            Phase::Opening(n) => n.clone(),
            _ => String::new(),
        };
        let listfile = match self.mode {
            Mode::Listfile => true,
            Mode::Enumeration => false,
        };
        if listfile {
            if matches!(outcome, OpenOutcome::NotFound) {
                self.phase = Phase::Idle;
                return None;
            }
            self.reporter.record_scanned();
            self.reporter.record_matched();
            proof {
                lemma_count_push(self.filter@, self.history@, name@);
            }
            self.history = Ghost(self.history@.push(name@));
        }
        match outcome {
            OpenOutcome::Opened => {
                let d = resolve_destination(self.root.as_str(), name.as_str());
                self.phase = Phase::Writing(name);
                Some(d)
            },
            OpenOutcome::NotFound => {
                self.phase = Phase::Idle;
                self.reporter.record_skipped(name, SkipReason::NotFound);
                None
            },
            OpenOutcome::Failed(e) => {
                self.phase = Phase::Idle;
                self.reporter.record_skipped(name, SkipReason::OpenFailed(e));
                None
            },
        }
    }

    /// Reports how streaming the current entry went: written in full, it
    /// counts as extracted; otherwise it gets one skip record with the
    /// failure's description. Either way the run is ready for the next
    /// candidate.
    pub fn streamed(&mut self, outcome: StreamOutcome)
        requires
            old(self).wf(),
            old(self).phase() is Writing,
        ensures
            final(self).wf(),
            final(self).phase() is Idle,
            final(self).mode() == old(self).mode(),
            final(self).patterns() == old(self).patterns(),
            final(self).root() == old(self).root(),
            final(self).total() == old(self).total(),
            final(self).offered() == old(self).offered(),
            final(self).scanned() == old(self).scanned(),
            final(self).matched() == old(self).matched(),
            final(self).scanned_names() == old(self).scanned_names(),
            match outcome {
                StreamOutcome::Written(_) => final(self).extracted() == old(self).extracted() + 1
                    && final(self).skipped() == old(self).skipped(),
                StreamOutcome::Failed(e) => final(self).extracted() == old(self).extracted()
                    && final(self).skipped() == old(self).skipped().push(
                    skip_record(old(self).phase()->Writing_0, SkipReason::StreamFailed(e)),
                ),
            },
    {
        let name = match &self.phase {
            Phase::Writing(n) => n.clone(),
            _ => String::new(),
        };
        self.phase = Phase::Idle;
        match outcome {
            StreamOutcome::Written(_) => {
                self.reporter.record_extracted();
            },
            StreamOutcome::Failed(e) => {
                self.reporter.record_skipped(name, SkipReason::StreamFailed(e));
            },
        }
    }

    /// Ends the run and hands over its statistics.
    pub fn finish(self) -> (r: RunStats)
        requires
            self.wf(),
            self.phase() is Idle,
        ensures
            r.scanned == self.scanned(),
            r.matched == self.matched(),
            r.extracted == self.extracted(),
            r.skipped@ == self.skipped(),
            r.matched == r.extracted + r.skipped@.len(),
            r.matched <= r.scanned <= self.offered(),
            is_listfile(self.mode()) ==> no_not_found(r.skipped@),
    {
        self.reporter.finish()
    }
}

/// Accounting law: in any well-formed run between two candidates, every
/// matched candidate is either extracted or has one skip record, and
/// unmatched candidates are counted as scanned only.
pub proof fn run_accounting(run: Extraction)
    requires
        run.wf(),
        run.phase() is Idle,
    ensures
        run.matched() == run.extracted() + run.skipped().len(),
        run.extracted() + run.skipped().len() <= run.scanned(),
{
}

/// A listfile run never records an entry as "not found": the names the
/// backend does not know are left out silently.
pub proof fn listfile_skips_are_not_not_found(run: Extraction, i: int)
    requires
        run.wf(),
        is_listfile(run.mode()),
        0 <= i < run.skipped().len(),
    ensures
        !(run.skipped()[i].reason is NotFound),
{
}

/// Filtering law for a whole run: whichever the mode, the entry the caller
/// is asked to open or to write is one whose name matches a pattern.
pub proof fn opened_names_pass_the_filter(run: Extraction)
    requires
        run.wf(),
    ensures
        run.phase() is Opening ==> matches_any(run.patterns(), run.phase()->Opening_0@),
        run.phase() is Writing ==> matches_any(run.patterns(), run.phase()->Writing_0@),
{
}

/// Counting law for a whole run: between two candidates, `scanned` counts
/// the names considered so far, and the extracted entries and the skip
/// records together number exactly those of them that match a pattern.
pub proof fn run_counts(run: Extraction)
    requires
        run.wf(),
        run.phase() is Idle,
    ensures
        run.scanned() == run.scanned_names().len(),
        run.extracted() + run.skipped().len() == count_matching(run.patterns(), run.scanned_names()),
{
}

} // verus!
