//! The recap of a run: every finished result, filed under passed, failed or
//! panicked, each of the three in the order the results came in.

use vstd::prelude::*;
use crate::result::{
    FailedResult,
    FailedView,
    KrarkResult,
    KrarkResultStatus,
    PanickedResult,
    PanickedView,
    PassedResult,
    PassedView,
    ResultView,
    StatusView,
};

verus! {

pub struct KrarkRecap {
    pub passed: Vec<PassedResult>,
    pub failed: Vec<FailedResult>,
    pub panicked: Vec<PanickedResult>,
}

pub struct RecapView {
    pub passed: Seq<PassedView>,
    pub failed: Seq<FailedView>,
    pub panicked: Seq<PanickedView>,
}

/// The passed results among `results`, in order.
pub open spec fn passed_among(results: Seq<ResultView>) -> Seq<PassedView> {
    results.filter(|r: ResultView| r.status is Passed).map_values(
        |r: ResultView| r.status->Passed_0,
    )
}

/// The failed results among `results`, in order.
pub open spec fn failed_among(results: Seq<ResultView>) -> Seq<FailedView> {
    results.filter(|r: ResultView| r.status is Failed).map_values(
        |r: ResultView| r.status->Failed_0,
    )
}

/// The panicked results among `results`, in order.
pub open spec fn panicked_among(results: Seq<ResultView>) -> Seq<PanickedView> {
    results.filter(|r: ResultView| r.status is Panicked).map_values(
        |r: ResultView| r.status->Panicked_0,
    )
}

impl RecapView {
    /// The recap of a run in which nothing was checked yet.
    pub open spec fn empty() -> RecapView {
        RecapView { passed: Seq::empty(), failed: Seq::empty(), panicked: Seq::empty() }
    }

    /// The recap after one more result: it goes to the end of the
    /// sequence that its status names, and the other two stay as they are.
    pub open spec fn add(self, result: ResultView) -> RecapView {
        match result.status {
            StatusView::Passed(p) => RecapView { passed: self.passed.push(p), ..self },
            StatusView::Failed(f) => RecapView { failed: self.failed.push(f), ..self },
            StatusView::Panicked(c) => RecapView { panicked: self.panicked.push(c), ..self },
        }
    }

    /// The recap of a run that finished with `results`, in this order.
    pub open spec fn of(results: Seq<ResultView>) -> RecapView
        decreases results.len(),
    {
        if results.len() == 0 {
            RecapView::empty()
        } else {
            RecapView::of(results.drop_last()).add(results.last())
        }
    }

    /// The number of results in the recap.
    pub open spec fn total(self) -> nat {
        self.passed.len() + self.failed.len() + self.panicked.len()
    }
}

impl View for KrarkRecap {
    type V = RecapView;

    open spec fn view(&self) -> RecapView {
        RecapView {
            passed: self.passed@.map_values(|p: PassedResult| p@),
            failed: self.failed@.map_values(|f: FailedResult| f@),
            panicked: self.panicked@.map_values(|c: PanickedResult| c@),
        }
    }
}

/// The recap of a run grows by one result at a time.
pub proof fn lemma_recap_of_push(results: Seq<ResultView>, result: ResultView)
    ensures
        RecapView::of(results.push(result)) == RecapView::of(results).add(result),
{
    assert(results.push(result).drop_last() =~= results);
}

/// The three sequences of a recap partition the results of the run: each
/// result stands in the one sequence that its status names and in no
/// other, none is missing, and each sequence keeps the order of the run.
pub proof fn lemma_recap_partitions(results: Seq<ResultView>)
    ensures
        RecapView::of(results).passed == passed_among(results),
        RecapView::of(results).failed == failed_among(results),
        RecapView::of(results).panicked == panicked_among(results),
        RecapView::of(results).total() == results.len(),
    decreases results.len(),
{
    if results.len() == 0 {
        reveal(Seq::filter);
        assert(passed_among(results) =~= Seq::empty());
        assert(failed_among(results) =~= Seq::empty());
        assert(panicked_among(results) =~= Seq::empty());
    } else {
        let before = results.drop_last();
        let last = results.last();
        lemma_recap_partitions(before);
        assert(before.push(last) =~= results);
        before.lemma_filter_push(last, |r: ResultView| r.status is Passed);
        before.lemma_filter_push(last, |r: ResultView| r.status is Failed);
        before.lemma_filter_push(last, |r: ResultView| r.status is Panicked);
        assert(passed_among(results) =~= RecapView::of(results).passed);
        assert(failed_among(results) =~= RecapView::of(results).failed);
        assert(panicked_among(results) =~= RecapView::of(results).panicked);
    }
}

impl KrarkRecap {
    /// An empty recap with room for `capacity` results of each kind.
    pub fn new(capacity: usize) -> (r: KrarkRecap)
        ensures
            r@ == RecapView::empty(),
    {
        let r = KrarkRecap {
            passed: Vec::with_capacity(capacity),
            failed: Vec::with_capacity(capacity),
            panicked: Vec::with_capacity(capacity),
        };
        assert(r@.passed =~= Seq::empty());
        assert(r@.failed =~= Seq::empty());
        assert(r@.panicked =~= Seq::empty());
        r
    }

    /// Files a finished result under its status.
    pub fn add_result(&mut self, result: KrarkResult)
        ensures
            final(self)@ == old(self)@.add(result@),
    {
        match result.status {
            KrarkResultStatus::Passed(passed) => {
                self.passed.push(passed);
                assert(self@.passed =~= old(self)@.passed.push(passed@));
            },
            KrarkResultStatus::Failed(failed) => {
                self.failed.push(failed);
                assert(self@.failed =~= old(self)@.failed.push(failed@));
            },
            KrarkResultStatus::Panicked(panicked) => {
                self.panicked.push(panicked);
                assert(self@.panicked =~= old(self)@.panicked.push(panicked@));
            },
        }
    }

    /// The number of results in the recap.
    pub fn total(&self) -> (r: u128)
        ensures
            r == self@.total(),
    {
        let passed: u128 = self.passed.len() as u128;
        let failed: u128 = self.failed.len() as u128;
        let panicked: u128 = self.panicked.len() as u128;
        passed + failed + panicked
    }
}

} // verus!
