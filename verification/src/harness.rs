//! The harness: it runs a check function once per selected item of a dataset
//! and files what each check returned in a recap.

use vstd::prelude::*;
use crate::args::{ColorSetting, KrarkArgs, TestArgs};
use crate::recap::{lemma_recap_of_push, lemma_recap_partitions, KrarkRecap, RecapView};
use crate::recap_display::{output_recap, recap_text};
use crate::result::{KrarkResult, PanicPayload, ResultView};

verus! {

pub struct KrarkHarness {
    test_args: TestArgs,
    krark_args: KrarkArgs,
    name: String,
}

/// An item of a dataset, with the name that it is reported under.
pub struct NamedItem<C> {
    pub name: &'static str,
    pub item: C,
}

/// What a run hands back: the recap, and its rendering for the harness.
pub struct KrarkReport {
    pub recap: KrarkRecap,
    pub text: String,
}

pub struct HarnessView {
    pub name: Seq<char>,
    pub logfile: Option<Seq<char>>,
    pub color: Option<ColorSetting>,
    pub max_failed_shown: nat,
    pub max_panicked_shown: nat,
}

impl HarnessView {
    /// Whether the recap of this harness is written with colour.
    pub open spec fn colored(self) -> bool {
        TestArgs::colored(self.color, self.logfile is Some)
    }
}

impl View for KrarkHarness {
    type V = HarnessView;

    closed spec fn view(&self) -> HarnessView {
        HarnessView {
            name: self.name@,
            logfile: match self.test_args.logfile {
                Some(path) => Some(path@),
                None => None,
            },
            color: self.test_args.color,
            max_failed_shown: self.krark_args.max_failed_shown as nat,
            max_panicked_shown: self.krark_args.max_panicked_shown as nat,
        }
    }
}

impl KrarkHarness {
    /// A harness of this display name, with the default caps on the details shown.
    pub fn new(name: String, test_args: TestArgs) -> (r: KrarkHarness)
        ensures
            r@.name == name@,
            r@.logfile == match test_args.logfile {
                Some(path) => Some(path@),
                None => None,
            },
            r@.color == test_args.color,
            r@.max_failed_shown == 10,
            r@.max_panicked_shown == 3,
    {
        KrarkHarness { test_args, krark_args: KrarkArgs::default(), name }
    }

    /// The caps on the details shown, to read or to change.
    pub fn args(&mut self) -> (r: &mut KrarkArgs)
        ensures
            r.max_failed_shown == old(self)@.max_failed_shown,
            r.max_panicked_shown == old(self)@.max_panicked_shown,
            final(self)@ == (HarnessView {
                max_failed_shown: final(r).max_failed_shown as nat,
                max_panicked_shown: final(r).max_panicked_shown as nat,
                ..old(self)@
            }),
    {
        &mut self.krark_args
    }

    /// The display name of the harness.
    pub fn name(&self) -> (r: &str)
        ensures
            r@ == self@.name,
    {
        self.name.as_str()
    }

    /// The file that the recap is to be written to, if any.
    pub fn logfile(&self) -> (r: Option<&str>)
        ensures
            r is Some == self@.logfile is Some,
            r matches Some(path) ==> self@.logfile == Some(path@),
    {
        match &self.test_args.logfile {
            Some(path) => Some(path.as_str()),
            None => None,
        }
    }

    /// Whether the recap is written with colour.
    pub fn use_color(&self) -> (r: bool)
        ensures
            r == self@.colored(),
    {
        self.test_args.use_color()
    }

    /// The number of failed items whose details the recap lists.
    pub fn max_failed_shown(&self) -> (r: usize)
        ensures
            r == self@.max_failed_shown,
    {
        self.krark_args.max_failed_shown
    }

    /// The number of panicked items whose details the recap lists.
    pub fn max_panicked_shown(&self) -> (r: usize)
        ensures
            r == self@.max_panicked_shown,
    {
        self.krark_args.max_panicked_shown
    }
}

/// What the harness files for an item whose check returned `ret`: the
/// result that the check handed back, or a panicked result of that item
/// with the trace of the payload where the check aborted.
pub open spec fn settled(name: Seq<char>, ret: Result<KrarkResult, PanicPayload>) -> ResultView {
    match ret {
        Ok(result) => result@,
        Err(payload) => ResultView::panicked(name, payload.trace()),
    }
}

/// The check of `item` was started from the fresh result `start` and returned `ret`.
pub open spec fn checked<C, R: Fn(&C, KrarkResult) -> Result<KrarkResult, PanicPayload>>(
    test_func: R,
    item: NamedItem<C>,
    start: KrarkResult,
    ret: Result<KrarkResult, PanicPayload>,
) -> bool {
    &&& start@ == ResultView::fresh(item.name@)
    &&& call_ensures(test_func, (&item.item, start), ret)
}

/// What the harness files for the items at `positions`, in this order,
/// when their checks returned `rets`.
pub open spec fn settled_at<C>(
    dataset: Seq<NamedItem<C>>,
    positions: Seq<int>,
    rets: Seq<Result<KrarkResult, PanicPayload>>,
) -> Seq<ResultView> {
    Seq::new(rets.len(), |i: int| settled(dataset[positions[i]].name@, rets[i]))
}

/// The items at `positions` were checked in this order, from the fresh
/// results `starts` and with the returns `rets`, and `recap` holds what was
/// filed for them.
pub open spec fn visited<C, R: Fn(&C, KrarkResult) -> Result<KrarkResult, PanicPayload>>(
    test_func: R,
    dataset: Seq<NamedItem<C>>,
    positions: Seq<int>,
    starts: Seq<KrarkResult>,
    rets: Seq<Result<KrarkResult, PanicPayload>>,
    recap: RecapView,
) -> bool {
    &&& starts.len() == positions.len()
    &&& rets.len() == positions.len()
    &&& forall|i: int|
        #![trigger positions[i]]
        0 <= i < positions.len() ==> 0 <= positions[i] < dataset.len() && checked(
            test_func,
            dataset[positions[i]],
            starts[i],
            rets[i],
        )
    &&& recap == RecapView::of(settled_at(dataset, positions, rets))
}

/// `recap` is the recap of a run of `test_func` over the items at
/// `positions`, one check per position, in this order.
pub open spec fn run_of<C, R: Fn(&C, KrarkResult) -> Result<KrarkResult, PanicPayload>>(
    test_func: R,
    dataset: Seq<NamedItem<C>>,
    positions: Seq<int>,
    recap: RecapView,
) -> bool {
    exists|starts: Seq<KrarkResult>, rets: Seq<Result<KrarkResult, PanicPayload>>|
        #[trigger] visited(test_func, dataset, positions, starts, rets, recap)
}

/// Every position of a dataset of `len` items, in order.
pub open spec fn all_positions(len: nat) -> Seq<int> {
    Seq::new(len, |i: int| i)
}

/// The distance between two sampled positions: the whole part of the
/// dataset's size over the sample's, and at least one.
pub open spec fn sample_stride(len: nat, sample_size: nat) -> nat {
    if sample_size == 0 || len / sample_size == 0 {
        1
    } else {
        len / sample_size
    }
}

/// The number of sampled positions.
pub open spec fn sample_count(len: nat, sample_size: nat) -> nat {
    if sample_size < len {
        sample_size
    } else {
        len
    }
}

/// The sampled positions: the first item and every stride-th after it,
/// as many as the sample asks for and the dataset has.
pub open spec fn sample_positions(len: nat, sample_size: nat) -> Seq<int> {
    Seq::new(sample_count(len, sample_size), |i: int| i * sample_stride(len, sample_size))
}

/// The positions that a filter keeps, given its verdict on every item.
pub open spec fn kept(verdicts: Seq<bool>) -> Seq<int>
    decreases verdicts.len(),
{
    if verdicts.len() == 0 {
        Seq::empty()
    } else if verdicts.last() {
        kept(verdicts.drop_last()).push(verdicts.len() - 1)
    } else {
        kept(verdicts.drop_last())
    }
}

/// `positions` are the positions of the items that `filter` accepted,
/// in dataset order.
pub open spec fn filtered<C, F: Fn(&C) -> bool>(
    filter: F,
    dataset: Seq<NamedItem<C>>,
    positions: Seq<int>,
) -> bool {
    exists|verdicts: Seq<bool>| #[trigger] judged(filter, dataset, verdicts) && positions == kept(verdicts)
}

/// `verdicts` holds what `filter` said of every item of the dataset.
pub open spec fn judged<C, F: Fn(&C) -> bool>(
    filter: F,
    dataset: Seq<NamedItem<C>>,
    verdicts: Seq<bool>,
) -> bool {
    &&& verdicts.len() == dataset.len()
    &&& forall|i: int|
        0 <= i < dataset.len() ==> call_ensures(filter, (&dataset[i].item,), #[trigger] verdicts[i])
}

/// One more checked item extends a run by what was filed for it.
pub proof fn lemma_visited_push<C, R: Fn(&C, KrarkResult) -> Result<KrarkResult, PanicPayload>>(
    test_func: R,
    dataset: Seq<NamedItem<C>>,
    positions: Seq<int>,
    starts: Seq<KrarkResult>,
    rets: Seq<Result<KrarkResult, PanicPayload>>,
    recap: RecapView,
    position: int,
    start: KrarkResult,
    ret: Result<KrarkResult, PanicPayload>,
)
    requires
        visited(test_func, dataset, positions, starts, rets, recap),
        0 <= position < dataset.len(),
        checked(test_func, dataset[position], start, ret),
    ensures
        visited(
            test_func,
            dataset,
            positions.push(position),
            starts.push(start),
            rets.push(ret),
            recap.add(settled(dataset[position].name@, ret)),
        ),
{
    let before = settled_at(dataset, positions, rets);
    let after = settled_at(dataset, positions.push(position), rets.push(ret));
    assert(after =~= before.push(settled(dataset[position].name@, ret)));
    lemma_recap_of_push(before, settled(dataset[position].name@, ret));
}

/// Every sampled position lies in the dataset, and a sample that the
/// dataset cannot fill stops where the dataset is exhausted.
pub proof fn lemma_sample_in_range(len: nat, sample_size: nat, i: int)
    requires
        0 <= i < sample_count(len, sample_size),
    ensures
        0 <= i * sample_stride(len, sample_size) < len,
{
    let stride = sample_stride(len, sample_size) as int;
    if sample_size == 0 || len / sample_size == 0 {
        assert(i * stride == i) by (nonlinear_arith)
            requires
                stride == 1,
        ;
        if sample_size != 0 {
            assert(len < sample_size) by (nonlinear_arith)
                requires
                    sample_size > 0,
                    len / sample_size == 0,
            ;
        }
    } else {
        let l = len as int;
        let k = sample_size as int;
        assert(0 <= i * (l / k) < l) by (nonlinear_arith)
            requires
                k > 0,
                l / k >= 1,
                0 <= i < k,
                0 <= l,
        ;
    }
}

/// A sample starts at the first item and is evenly spaced by the stride;
/// it holds as many items as asked for, or the whole dataset where the
/// dataset has fewer.
pub proof fn lemma_sample_is_even(len: nat, sample_size: nat)
    ensures
        sample_positions(len, sample_size).len() == sample_count(len, sample_size),
        sample_count(len, sample_size) <= sample_size,
        sample_count(len, sample_size) <= len,
        sample_count(len, sample_size) == sample_size || sample_count(len, sample_size) == len,
        sample_stride(len, sample_size) >= 1,
        sample_count(len, sample_size) > 0 ==> sample_positions(len, sample_size)[0] == 0,
        forall|i: int|
            0 <= i < sample_count(len, sample_size) ==> 0 <= #[trigger] sample_positions(
                len,
                sample_size,
            )[i] < len,
        forall|i: int|
            0 < i < sample_count(len, sample_size) ==> #[trigger] sample_positions(
                len,
                sample_size,
            )[i] == sample_positions(len, sample_size)[i - 1] + sample_stride(len, sample_size),
{
    let stride = sample_stride(len, sample_size) as int;
    assert forall|i: int| 0 <= i < sample_count(len, sample_size) implies 0
        <= #[trigger] sample_positions(len, sample_size)[i] < len by {
        lemma_sample_in_range(len, sample_size, i);
    }
    assert forall|i: int| 0 < i < sample_count(len, sample_size) implies #[trigger] sample_positions(
        len,
        sample_size,
    )[i] == sample_positions(len, sample_size)[i - 1] + stride by {
        assert(i * stride == (i - 1) * stride + stride) by (nonlinear_arith);
    }
    if sample_count(len, sample_size) > 0 {
        assert(0 * stride == 0) by (nonlinear_arith);
    }
}

/// A sample of size zero holds no position, and a run over no position
/// leaves the recap empty.
pub proof fn lemma_empty_sample<C, R: Fn(&C, KrarkResult) -> Result<KrarkResult, PanicPayload>>(
    test_func: R,
    dataset: Seq<NamedItem<C>>,
    recap: RecapView,
)
    requires
        run_of(test_func, dataset, sample_positions(dataset.len(), 0), recap),
    ensures
        sample_positions(dataset.len(), 0).len() == 0,
        recap == RecapView::empty(),
        recap.total() == 0,
{
    let positions = sample_positions(dataset.len(), 0);
    let (starts, rets) = choose|
        starts: Seq<KrarkResult>,
        rets: Seq<Result<KrarkResult, PanicPayload>>,
    | #[trigger] visited(test_func, dataset, positions, starts, rets, recap);
    assert(settled_at(dataset, positions, rets) =~= Seq::empty());
}

/// The recap of a run holds one result for each position visited: every
/// item stands in one of the three sequences, and none is missing.
pub proof fn lemma_run_files_every_item<
    C,
    R: Fn(&C, KrarkResult) -> Result<KrarkResult, PanicPayload>,
>(test_func: R, dataset: Seq<NamedItem<C>>, positions: Seq<int>, recap: RecapView)
    requires
        run_of(test_func, dataset, positions, recap),
    ensures
        recap.total() == positions.len(),
{
    let (starts, rets) = choose|
        starts: Seq<KrarkResult>,
        rets: Seq<Result<KrarkResult, PanicPayload>>,
    | #[trigger] visited(test_func, dataset, positions, starts, rets, recap);
    lemma_recap_partitions(settled_at(dataset, positions, rets));
}

/// An aborted check yields a panicked result of its own item, and what is
/// filed for any other item of the run is the same whatever that check did.
pub proof fn lemma_abort_is_isolated<C>(
    dataset: Seq<NamedItem<C>>,
    positions: Seq<int>,
    rets: Seq<Result<KrarkResult, PanicPayload>>,
    others: Seq<Result<KrarkResult, PanicPayload>>,
    x: int,
)
    requires
        0 <= x < rets.len(),
        rets[x] is Err,
        others.len() == rets.len(),
        forall|j: int| 0 <= j < rets.len() && j != x ==> others[j] == rets[j],
    ensures
        settled_at(dataset, positions, rets)[x] == ResultView::panicked(
            dataset[positions[x]].name@,
            rets[x]->Err_0.trace(),
        ),
        settled_at(dataset, positions, rets)[x].status is Panicked,
        forall|j: int|
            0 <= j < rets.len() && j != x ==> settled_at(dataset, positions, others)[j]
                == settled_at(dataset, positions, rets)[j],
{
}

/// Checks one item and files what its check returned. The ghost pair
/// holds the fresh result that the check was started from and its return.
fn check_item<C, R: Fn(&C, KrarkResult) -> Result<KrarkResult, PanicPayload>>(
    item: &NamedItem<C>,
    test_func: &R,
    recap: &mut KrarkRecap,
) -> (seen: Ghost<(KrarkResult, Result<KrarkResult, PanicPayload>)>)
    requires
        forall|start: KrarkResult|
            start@ == ResultView::fresh(item.name@) ==> call_requires(
                *test_func,
                (&item.item, start),
            ),
    ensures
        checked(*test_func, *item, seen@.0, seen@.1),
        final(recap)@ == old(recap)@.add(settled(item.name@, seen@.1)),
{
    let start = KrarkResult::new(item.name);
    let ghost started = start;
    let ret = test_func(&item.item, start);
    let ghost returned = ret;
    let result = match ret {
        Ok(result) => result,
        Err(payload) => KrarkResult::from_panic_payload(item.name, payload),
    };
    recap.add_result(result);
    Ghost((started, returned))
}

impl KrarkHarness {
    /// Runs `test_func` once on every item of the dataset, in dataset order,
    /// each time from a fresh result of that item, and files what each check
    /// returned: its result, or a panicked result where it aborted.
    pub fn run<C, R: Fn(&C, KrarkResult) -> Result<KrarkResult, PanicPayload>>(
        &mut self,
        dataset: &[NamedItem<C>],
        test_func: R,
    ) -> (report: KrarkReport)
        requires
            forall|i: int, start: KrarkResult|
                0 <= i < dataset@.len() && start@ == ResultView::fresh(dataset@[i].name@)
                    ==> call_requires(test_func, (&dataset@[i].item, start)),
        ensures
            run_of(test_func, dataset@, all_positions(dataset@.len()), report.recap@),
            report.text@ == recap_text(old(self)@, report.recap@),
            *final(self) == *old(self),
    {
        let mut recap = KrarkRecap::new(dataset.len());
        let ghost mut positions: Seq<int> = Seq::empty();
        let ghost mut starts: Seq<KrarkResult> = Seq::empty();
        let ghost mut rets: Seq<Result<KrarkResult, PanicPayload>> = Seq::empty();
        assert(settled_at(dataset@, positions, rets) =~= Seq::empty());

        for i in 0..dataset.len()
            invariant
                forall|i: int, start: KrarkResult|
                    0 <= i < dataset@.len() && start@ == ResultView::fresh(dataset@[i].name@)
                        ==> call_requires(test_func, (&dataset@[i].item, start)),
                positions == all_positions(i as nat),
                visited(test_func, dataset@, positions, starts, rets, recap@),
        {
            let ghost before = recap@;
            let seen = check_item(&dataset[i], &test_func, &mut recap);
            proof {
                lemma_visited_push(
                    test_func,
                    dataset@,
                    positions,
                    starts,
                    rets,
                    before,
                    i as int,
                    seen@.0,
                    seen@.1,
                );
                positions = positions.push(i as int);
                starts = starts.push(seen@.0);
                rets = rets.push(seen@.1);
                assert(positions =~= all_positions((i + 1) as nat));
            }
        }

        let text = output_recap(&*self, &recap);
        KrarkReport { recap, text }
    }

    /// Runs `test_func` once on every item that `filter` accepts, in dataset
    /// order, and files what each check returned.
    pub fn run_filter<
        C,
        F: Fn(&C) -> bool,
        R: Fn(&C, KrarkResult) -> Result<KrarkResult, PanicPayload>,
    >(&mut self, dataset: &[NamedItem<C>], filter: F, test_func: R) -> (report: KrarkReport)
        requires
            forall|i: int| 0 <= i < dataset@.len() ==> call_requires(filter, (&dataset@[i].item,)),
            forall|i: int, start: KrarkResult|
                0 <= i < dataset@.len() && start@ == ResultView::fresh(dataset@[i].name@)
                    ==> call_requires(test_func, (&dataset@[i].item, start)),
        ensures
            exists|positions: Seq<int>|
                filtered(filter, dataset@, positions) && #[trigger] run_of(
                    test_func,
                    dataset@,
                    positions,
                    report.recap@,
                ),
            report.text@ == recap_text(old(self)@, report.recap@),
            *final(self) == *old(self),
    {
        let mut recap = KrarkRecap::new(dataset.len());
        let ghost mut verdicts: Seq<bool> = Seq::empty();
        let ghost mut positions: Seq<int> = Seq::empty();
        let ghost mut starts: Seq<KrarkResult> = Seq::empty();
        let ghost mut rets: Seq<Result<KrarkResult, PanicPayload>> = Seq::empty();
        assert(settled_at(dataset@, positions, rets) =~= Seq::empty());

        for i in 0..dataset.len()
            invariant
                forall|i: int|
                    0 <= i < dataset@.len() ==> call_requires(filter, (&dataset@[i].item,)),
                forall|i: int, start: KrarkResult|
                    0 <= i < dataset@.len() && start@ == ResultView::fresh(dataset@[i].name@)
                        ==> call_requires(test_func, (&dataset@[i].item, start)),
                verdicts.len() == i,
                forall|j: int|
                    0 <= j < i ==> call_ensures(filter, (&dataset@[j].item,), #[trigger] verdicts[j]),
                positions == kept(verdicts),
                visited(test_func, dataset@, positions, starts, rets, recap@),
        {
            let card = &dataset[i];
            let accepted = filter(&card.item);
            proof {
                assert(verdicts.push(accepted).drop_last() =~= verdicts);
                verdicts = verdicts.push(accepted);
            }
            if accepted {
                let ghost before = recap@;
                let seen = check_item(card, &test_func, &mut recap);
                proof {
                    lemma_visited_push(
                        test_func,
                        dataset@,
                        positions,
                        starts,
                        rets,
                        before,
                        i as int,
                        seen@.0,
                        seen@.1,
                    );
                    positions = positions.push(i as int);
                    starts = starts.push(seen@.0);
                    rets = rets.push(seen@.1);
                }
            }
        }

        let text = output_recap(&*self, &recap);
        let report = KrarkReport { recap, text };
        proof {
            assert(judged(filter, dataset@, verdicts));
            assert(filtered(filter, dataset@, positions));
            assert(visited(test_func, dataset@, positions, starts, rets, report.recap@));
            assert(run_of(test_func, dataset@, positions, report.recap@));
        }
        report
    }

    /// Runs `test_func` once on each item of an evenly spaced sample of the
    /// dataset: the first item and every stride-th after it, the stride
    /// being the whole part of the dataset's size over `sample_size` and at
    /// least one, until `sample_size` items are checked or the dataset is
    /// exhausted. A sample of size zero checks nothing.
    pub fn run_on_sample<C, R: Fn(&C, KrarkResult) -> Result<KrarkResult, PanicPayload>>(
        &mut self,
        dataset: &[NamedItem<C>],
        sample_size: usize,
        test_func: R,
    ) -> (report: KrarkReport)
        requires
            forall|i: int, start: KrarkResult|
                0 <= i < dataset@.len() && start@ == ResultView::fresh(dataset@[i].name@)
                    ==> call_requires(test_func, (&dataset@[i].item, start)),
        ensures
            run_of(
                test_func,
                dataset@,
                sample_positions(dataset@.len(), sample_size as nat),
                report.recap@,
            ),
            report.text@ == recap_text(old(self)@, report.recap@),
            *final(self) == *old(self),
    {
        let len = dataset.len();
        let count: usize = if sample_size < len {
            sample_size
        } else {
            len
        };
        let jump_size: usize = if sample_size == 0 || len / sample_size == 0 {
            1
        } else {
            len / sample_size
        };
        let mut recap = KrarkRecap::new(count);
        let ghost target = sample_positions(len as nat, sample_size as nat);
        let ghost mut positions: Seq<int> = Seq::empty();
        let ghost mut starts: Seq<KrarkResult> = Seq::empty();
        let ghost mut rets: Seq<Result<KrarkResult, PanicPayload>> = Seq::empty();
        assert(settled_at(dataset@, positions, rets) =~= Seq::empty());
        assert(positions =~= target.take(0));

        for i in 0..count
            invariant
                forall|i: int, start: KrarkResult|
                    0 <= i < dataset@.len() && start@ == ResultView::fresh(dataset@[i].name@)
                        ==> call_requires(test_func, (&dataset@[i].item, start)),
                len == dataset@.len(),
                count == sample_count(len as nat, sample_size as nat),
                jump_size == sample_stride(len as nat, sample_size as nat),
                target == sample_positions(len as nat, sample_size as nat),
                positions == target.take(i as int),
                visited(test_func, dataset@, positions, starts, rets, recap@),
        {
            proof {
                lemma_sample_in_range(len as nat, sample_size as nat, i as int);
            }
            let position: usize = i * jump_size;
            let ghost before = recap@;
            let seen = check_item(&dataset[position], &test_func, &mut recap);
            proof {
                lemma_visited_push(
                    test_func,
                    dataset@,
                    positions,
                    starts,
                    rets,
                    before,
                    position as int,
                    seen@.0,
                    seen@.1,
                );
                positions = positions.push(position as int);
                starts = starts.push(seen@.0);
                rets = rets.push(seen@.1);
                assert(positions =~= target.take(i + 1));
            }
        }
        assert(target.take(count as int) =~= target);

        let text = output_recap(&*self, &recap);
        KrarkReport { recap, text }
    }
}

} // verus!
