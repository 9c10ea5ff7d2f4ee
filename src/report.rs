use vstd::prelude::*;

verus! {

/// Why a matched entry was not extracted.
pub enum SkipReason {
    /// The backend reported that the entry does not exist when it was opened.
    NotFound,
    /// Opening the entry failed for another reason, with its description.
    OpenFailed(String),
    /// Streaming the entry's content failed, with its description.
    StreamFailed(String),
}

impl SkipReason {
    /// The text shown for this reason in the final report.
    pub fn text(&self) -> (r: String)
        ensures
            match self {
                SkipReason::NotFound => r@ == "file not found"@,
                SkipReason::OpenFailed(e) => r@ == e@,
                SkipReason::StreamFailed(e) => r@ == e@,
            },
    {
        match self {
            SkipReason::NotFound => String::from_str("file not found"),
            SkipReason::OpenFailed(e) => e.clone(),
            SkipReason::StreamFailed(e) => e.clone(),
        }
    }
}

/// One entry that was matched but not extracted.
pub struct SkipRecord {
    pub identifier: String,
    pub reason: SkipReason,
}

pub open spec fn skip_record(identifier: String, reason: SkipReason) -> SkipRecord {
    SkipRecord { identifier, reason }
}

/// The counters of a run and its skip records, in the order recorded.
pub struct RunStats {
    /// Candidates considered, matched or not.
    pub scanned: u64,
    /// Candidates that passed the filter.
    pub matched: u64,
    /// Entries whose content was written in full.
    pub extracted: u64,
    pub skipped: Vec<SkipRecord>,
}

/// Accumulates the outcome of every candidate of a run.
pub struct RunReporter {
    stats: RunStats,
}

impl RunReporter {
    pub closed spec fn scanned(&self) -> u64 {
        self.stats.scanned
    }

    pub closed spec fn matched(&self) -> u64 {
        self.stats.matched
    }

    pub closed spec fn extracted(&self) -> u64 {
        self.stats.extracted
    }

    pub closed spec fn skipped(&self) -> Seq<SkipRecord> {
        self.stats.skipped@
    }

    pub fn new() -> (r: RunReporter)
        ensures
            r.scanned() == 0,
            r.matched() == 0,
            r.extracted() == 0,
            r.skipped().len() == 0,
    {
        RunReporter { stats: RunStats { scanned: 0, matched: 0, extracted: 0, skipped: Vec::new() } }
    }

    pub fn record_scanned(&mut self)
        requires
            old(self).scanned() < u64::MAX,
        ensures
            final(self).scanned() == old(self).scanned() + 1,
            final(self).matched() == old(self).matched(),
            final(self).extracted() == old(self).extracted(),
            final(self).skipped() == old(self).skipped(),
    {
        self.stats.scanned = self.stats.scanned + 1;
    }

    pub fn record_matched(&mut self)
        requires
            old(self).matched() < u64::MAX,
        ensures
            final(self).scanned() == old(self).scanned(),
            final(self).matched() == old(self).matched() + 1,
            final(self).extracted() == old(self).extracted(),
            final(self).skipped() == old(self).skipped(),
    {
        self.stats.matched = self.stats.matched + 1;
    }

    pub fn record_extracted(&mut self)
        requires
            old(self).extracted() < u64::MAX,
        ensures
            final(self).scanned() == old(self).scanned(),
            final(self).matched() == old(self).matched(),
            final(self).extracted() == old(self).extracted() + 1,
            final(self).skipped() == old(self).skipped(),
    {
        self.stats.extracted = self.stats.extracted + 1;
    }

    pub fn record_skipped(&mut self, identifier: String, reason: SkipReason)
        ensures
            final(self).scanned() == old(self).scanned(),
            final(self).matched() == old(self).matched(),
            final(self).extracted() == old(self).extracted(),
            final(self).skipped() == old(self).skipped().push(skip_record(identifier, reason)),
    {
        self.stats.skipped.push(SkipRecord { identifier, reason });
    }

    pub fn finish(self) -> (r: RunStats)
        ensures
            r.scanned == self.scanned(),
            r.matched == self.matched(),
            r.extracted == self.extracted(),
            r.skipped@ == self.skipped(),
    {
        self.stats
    }
}

} // verus!
