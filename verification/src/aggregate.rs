//! Accounting for completed workers: the running counter that observes one
//! outcome per submitted URL, and the report emitted for each outcome.

use vstd::prelude::*;

use crate::feed::{opt_str_view, resolved_pub_date_of};
use crate::outcome::{FailureKind, FailureKindModel, Outcome, OutcomeModel};

verus! {

/// What is reported for one outcome: for a success, the feed's title, its
/// resolved publish date (if any) and its episode count; for a failure, the
/// URL and the kind of failure. Rendering these as text is the caller's
/// concern.
#[derive(Clone, Debug, PartialEq, Eq)]
pub enum Report {
    FeedSummary { title: String, pub_date: Option<String>, episode_count: usize },
    FailureNote { url: String, kind: FailureKind },
}

/// Mathematical model of a `Report`.
pub enum ReportModel {
    FeedSummary { title: Seq<char>, pub_date: Option<Seq<char>>, episode_count: nat },
    FailureNote { url: Seq<char>, kind: FailureKindModel },
}

impl View for Report {
    type V = ReportModel;

    open spec fn view(&self) -> ReportModel {
        match self {
            Report::FeedSummary { title, pub_date, episode_count } => (ReportModel::FeedSummary {
                title: title@,
                pub_date: opt_str_view(*pub_date),
                episode_count: *episode_count as nat,
            }),
            Report::FailureNote { url, kind } => (ReportModel::FailureNote {
                url: url@,
                kind: kind@,
            }),
        }
    }
}

/// The report owed for a given outcome: a success is summarized by its
/// title, resolved publish date and episode count; a failure by its URL and
/// failure kind.
pub open spec fn report_for(o: OutcomeModel) -> ReportModel {
    match o {
        OutcomeModel::Success { url: _, doc } => ReportModel::FeedSummary {
            title: doc.title,
            pub_date: resolved_pub_date_of(doc),
            episode_count: doc.episodes.len(),
        },
        OutcomeModel::Failure { url, kind } => ReportModel::FailureNote { url, kind },
    }
}

/// Builds the report for one outcome.
pub fn report_of(o: &Outcome) -> (r: Report)
    ensures
        r@ == report_for(o@),
{
    match o {
        Outcome::Success { url: _, doc } => Report::FeedSummary {
            title: doc.title.clone(),
            pub_date: doc.resolved_pub_date(),
            episode_count: doc.episodes.len(),
        },
        Outcome::Failure { url, kind } => Report::FailureNote {
            url: url.clone(),
            kind: kind.dup(),
        },
    }
}

/// How many of the outcomes are successes.
pub open spec fn success_count(s: Seq<OutcomeModel>) -> int
    decreases s.len(),
{
    if s.len() == 0 {
        0
    } else {
        success_count(s.drop_last()) + if s.last() is Success {
            1int
        } else {
            0int
        }
    }
}

/// How many of the outcomes are failures.
pub open spec fn failure_count(s: Seq<OutcomeModel>) -> int
    decreases s.len(),
{
    if s.len() == 0 {
        0
    } else {
        failure_count(s.drop_last()) + if s.last() is Failure {
            1int
        } else {
            0int
        }
    }
}

/// Every outcome is either a success or a failure, so over any sequence of
/// outcomes the success count and the failure count sum to its length.
pub proof fn lemma_outcome_accounting(s: Seq<OutcomeModel>)
    ensures
        success_count(s) + failure_count(s) == s.len(),
        0 <= success_count(s),
        0 <= failure_count(s),
    decreases s.len(),
{
    if s.len() > 0 {
        lemma_outcome_accounting(s.drop_last());
    }
}

/// The running completed/total counter. Each observed outcome bumps the
/// completed count and exactly one of the success and failure counts, so the
/// two always sum to the completed count, which never exceeds the total.
#[derive(Clone, Copy, Debug, PartialEq, Eq, Structural)]
pub struct RunCounter {
    pub total: usize,
    pub completed: usize,
    pub successes: usize,
    pub failures: usize,
}

impl RunCounter {
    /// The counter's invariant: every completed outcome is accounted for as
    /// exactly one success or failure, and no more than `total` outcomes
    /// have been observed.
    pub open spec fn wf(self) -> bool {
        self.completed == self.successes + self.failures && self.completed <= self.total
    }

    /// A fresh counter for a run over `total` submitted URLs: nothing
    /// completed yet.
    pub fn new(total: usize) -> (c: RunCounter)
        ensures
            c.wf(),
            c.total == total,
            c.completed == 0,
            c.successes == 0,
            c.failures == 0,
    {
        RunCounter { total, completed: 0, successes: 0, failures: 0 }
    }

    /// Observes one more completed outcome. Success and failure are treated
    /// symmetrically: either way the outcome is one more accounted-for
    /// completion.
    pub fn record(&mut self, o: &Outcome)
        requires
            old(self).wf(),
            old(self).completed < old(self).total,
        ensures
            final(self).wf(),
            final(self).total == old(self).total,
            final(self).completed == old(self).completed + 1,
            o@ is Success ==> final(self).successes == old(self).successes + 1
                && final(self).failures == old(self).failures,
            o@ is Failure ==> final(self).failures == old(self).failures + 1
                && final(self).successes == old(self).successes,
    {
        self.completed = self.completed + 1;
        match o {
            Outcome::Success { .. } => {
                self.successes = self.successes + 1;
            },
            Outcome::Failure { .. } => {
                self.failures = self.failures + 1;
            },
        }
    }
}

/// Drains a completed run: given the outcomes of all submitted URLs, in
/// whatever order they finished, emits one report per outcome (in that same
/// order) and the final counter, in which every outcome is accounted for:
/// completed equals the total, and successes plus failures equals completed.
pub fn drain_outcomes(outcomes: &Vec<Outcome>) -> (r: (Vec<Report>, RunCounter))
    ensures
        r.0@.len() == outcomes@.len(),
        forall|i: int|
            0 <= i < outcomes@.len() ==> r.0@[i]@ == report_for(outcomes@[i]@),
        r.1.wf(),
        r.1.total == outcomes@.len(),
        r.1.completed == outcomes@.len(),
        r.1.successes == success_count(outcomes@.map_values(|o: Outcome| o@)),
        r.1.failures == failure_count(outcomes@.map_values(|o: Outcome| o@)),
{
    let ghost models = outcomes@.map_values(|o: Outcome| o@);
    let total = outcomes.len();
    let mut counter = RunCounter::new(total);
    let mut reports: Vec<Report> = Vec::new();
    let mut i: usize = 0;
    while i < total
        invariant
            total == outcomes@.len(),
            models == outcomes@.map_values(|o: Outcome| o@),
            0 <= i <= total,
            reports@.len() == i as int,
            forall|j: int| 0 <= j < i as int ==> reports@[j]@ == report_for(outcomes@[j]@),
            counter.wf(),
            counter.total == total,
            counter.completed == i as int,
            counter.successes == success_count(models.take(i as int)),
            counter.failures == failure_count(models.take(i as int)),
        decreases total - i,
    {
        let o = &outcomes[i];
        counter.record(o);
        reports.push(report_of(o));
        proof {
            assert(models.take(i + 1).drop_last() == models.take(i as int));
            assert(models.take(i + 1).last() == o@);
        }
        i = i + 1;
    }
    proof {
        assert(models.take(total as int) == models);
    }
    (reports, counter)
}

} // verus!
