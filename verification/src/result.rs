//! The result of checking one item: a state machine that accumulates named
//! assertion outcomes. A result starts as passed, becomes failed at its first
//! failing assertion and stays failed, and is panicked only when the harness
//! builds it from an aborted check; a panicked result absorbs every assertion.

use vstd::prelude::*;
use vstd::std_specs::cmp::PartialEqSpec;
use vstd::string::*;

verus! {

/// One failed assertion: its name and a description of what went wrong.
pub struct FailedTc {
    pub check_name: String,
    pub failure: String,
}

/// An item all of whose assertions held so far, in the order they were made.
pub struct PassedResult {
    pub card_name: &'static str,
    pub passed: Vec<String>,
}

/// An item with at least one failed assertion.
pub struct FailedResult {
    pub card_name: &'static str,
    pub passed: Vec<String>,
    pub failed: Vec<FailedTc>,
}

/// An item whose check aborted, with the text of the fault.
pub struct PanickedResult {
    pub card_name: &'static str,
    pub trace: String,
}

pub enum KrarkResultStatus {
    Passed(PassedResult),
    Failed(FailedResult),
    Panicked(PanickedResult),
}

pub struct KrarkResult {
    pub card_name: &'static str,
    pub status: KrarkResultStatus,
}

/// A named assertion result, as handed to [`KrarkResult::record`].
/// `detail` describes the failure and is ignored when `passed` holds.
pub struct CheckOutcome {
    pub check_name: String,
    pub passed: bool,
    pub detail: Option<String>,
}

/// What was carried by an aborted check.
pub enum PanicPayload {
    /// The fault carried a string literal.
    Literal(&'static str),
    /// The fault carried an owned string.
    Message(String),
    /// The fault carried something that is not text.
    Opaque,
}

pub struct FailedTcView {
    pub check_name: Seq<char>,
    pub failure: Seq<char>,
}

pub struct PassedView {
    pub card_name: Seq<char>,
    pub passed: Seq<Seq<char>>,
}

pub struct FailedView {
    pub card_name: Seq<char>,
    pub passed: Seq<Seq<char>>,
    pub failed: Seq<FailedTcView>,
}

pub struct PanickedView {
    pub card_name: Seq<char>,
    pub trace: Seq<char>,
}

pub enum StatusView {
    Passed(PassedView),
    Failed(FailedView),
    Panicked(PanickedView),
}

pub struct ResultView {
    pub card_name: Seq<char>,
    pub status: StatusView,
}

pub struct OutcomeView {
    pub check_name: Seq<char>,
    pub passed: bool,
    pub detail: Option<Seq<char>>,
}

/// The texts of a sequence of strings, in order.
pub open spec fn texts(names: Seq<String>) -> Seq<Seq<char>> {
    names.map_values(|s: String| s@)
}

/// The models of a sequence of failed assertions, in order.
pub open spec fn failures(entries: Seq<FailedTc>) -> Seq<FailedTcView> {
    entries.map_values(|e: FailedTc| e@)
}

/// The trace text that the harness records when a check aborts without a message.
pub open spec fn unknown_payload_text() -> Seq<char> {
    "Unknown panic payload"@
}

/// The failure text of an equality assertion, given the renderings of the
/// expected and of the obtained value.
pub open spec fn mismatch_detail(expected: Seq<char>, obtained: Seq<char>) -> Seq<char> {
    "expected "@ + expected + ", obtained "@ + obtained
}

/// The failure text of a success assertion, given the rendering of the error.
pub open spec fn error_detail(error: Seq<char>) -> Seq<char> {
    "expected Ok(_), obtained Err: "@ + error
}

/// The outcome of an equality assertion.
pub open spec fn equality_outcome(
    check_name: Seq<char>,
    equal: bool,
    expected: Seq<char>,
    obtained: Seq<char>,
) -> OutcomeView {
    OutcomeView {
        check_name,
        passed: equal,
        detail: if equal {
            None
        } else {
            Some(mismatch_detail(expected, obtained))
        },
    }
}

/// The outcome of a success assertion.
pub open spec fn success_outcome(check_name: Seq<char>, ok: bool, error: Seq<char>) -> OutcomeView {
    OutcomeView {
        check_name,
        passed: ok,
        detail: if ok {
            None
        } else {
            Some(error_detail(error))
        },
    }
}

impl View for FailedTc {
    type V = FailedTcView;

    open spec fn view(&self) -> FailedTcView {
        FailedTcView { check_name: self.check_name@, failure: self.failure@ }
    }
}

impl View for PassedResult {
    type V = PassedView;

    open spec fn view(&self) -> PassedView {
        PassedView { card_name: self.card_name@, passed: texts(self.passed@) }
    }
}

impl View for FailedResult {
    type V = FailedView;

    open spec fn view(&self) -> FailedView {
        FailedView {
            card_name: self.card_name@,
            passed: texts(self.passed@),
            failed: failures(self.failed@),
        }
    }
}

impl View for PanickedResult {
    type V = PanickedView;

    open spec fn view(&self) -> PanickedView {
        PanickedView { card_name: self.card_name@, trace: self.trace@ }
    }
}

impl View for KrarkResultStatus {
    type V = StatusView;

    open spec fn view(&self) -> StatusView {
        match self {
            KrarkResultStatus::Passed(p) => StatusView::Passed(p@),
            KrarkResultStatus::Failed(f) => StatusView::Failed(f@),
            KrarkResultStatus::Panicked(c) => StatusView::Panicked(c@),
        }
    }
}

impl View for KrarkResult {
    type V = ResultView;

    open spec fn view(&self) -> ResultView {
        ResultView { card_name: self.card_name@, status: self.status@ }
    }
}

impl View for CheckOutcome {
    type V = OutcomeView;

    open spec fn view(&self) -> OutcomeView {
        OutcomeView {
            check_name: self.check_name@,
            passed: self.passed,
            detail: match self.detail {
                Some(d) => Some(d@),
                None => None,
            },
        }
    }
}

impl PanicPayload {
    /// The trace recorded for this payload: its message, or a fixed text
    /// when it carries none.
    pub open spec fn trace(self) -> Seq<char> {
        match self {
            PanicPayload::Literal(s) => s@,
            PanicPayload::Message(s) => s@,
            PanicPayload::Opaque => unknown_payload_text(),
        }
    }
}

impl OutcomeView {
    /// The entry that a failing outcome adds to the failed checks.
    pub open spec fn failure_entry(self) -> FailedTcView {
        FailedTcView {
            check_name: self.check_name,
            failure: match self.detail {
                Some(d) => d,
                None => Seq::empty(),
            },
        }
    }
}

impl StatusView {
    /// The name that the status itself carries.
    pub open spec fn card_name(self) -> Seq<char> {
        match self {
            StatusView::Passed(p) => p.card_name,
            StatusView::Failed(f) => f.card_name,
            StatusView::Panicked(c) => c.card_name,
        }
    }
}

impl ResultView {
    /// The result that every check starts from: passed, with no assertion yet.
    pub open spec fn fresh(card_name: Seq<char>) -> ResultView {
        ResultView {
            card_name,
            status: StatusView::Passed(PassedView { card_name, passed: Seq::empty() }),
        }
    }

    /// The result of an aborted check.
    pub open spec fn panicked(card_name: Seq<char>, trace: Seq<char>) -> ResultView {
        ResultView { card_name, status: StatusView::Panicked(PanickedView { card_name, trace }) }
    }

    /// The item's name is the same on the result and inside its status.
    pub open spec fn wf(self) -> bool {
        self.status.card_name() == self.card_name
    }

    /// The transition of the state machine for one assertion outcome.
    pub open spec fn record(self, outcome: OutcomeView) -> ResultView {
        match self.status {
            StatusView::Panicked(_) => self,
            StatusView::Passed(p) => if outcome.passed {
                ResultView {
                    status: StatusView::Passed(
                        PassedView { passed: p.passed.push(outcome.check_name), ..p },
                    ),
                    ..self
                }
            } else {
                ResultView {
                    status: StatusView::Failed(
                        FailedView {
                            card_name: self.card_name,
                            passed: p.passed,
                            failed: seq![outcome.failure_entry()],
                        },
                    ),
                    ..self
                }
            },
            StatusView::Failed(f) => if outcome.passed {
                ResultView {
                    status: StatusView::Failed(
                        FailedView { passed: f.passed.push(outcome.check_name), ..f },
                    ),
                    ..self
                }
            } else {
                ResultView {
                    status: StatusView::Failed(
                        FailedView { failed: f.failed.push(outcome.failure_entry()), ..f },
                    ),
                    ..self
                }
            },
        }
    }
}

/// A passing assertion on a passed result leaves it passed, with the
/// check's name after the names recorded before, which keep their order.
pub proof fn lemma_pass_keeps_passed(result: ResultView, outcome: OutcomeView)
    requires
        result.status is Passed,
        outcome.passed,
    ensures
        result.record(outcome).status is Passed,
        result.record(outcome).status->Passed_0.passed == result.status->Passed_0.passed.push(
            outcome.check_name,
        ),
        result.record(outcome).status->Passed_0.card_name == result.status->Passed_0.card_name,
        result.record(outcome).card_name == result.card_name,
{
}

/// A failing assertion turns a passed result into a failed one, which
/// keeps the passed checks as they were and holds exactly one failed check.
pub proof fn lemma_first_failure(result: ResultView, outcome: OutcomeView)
    requires
        result.status is Passed,
        !outcome.passed,
    ensures
        result.record(outcome).status is Failed,
        result.record(outcome).status->Failed_0.passed == result.status->Passed_0.passed,
        result.record(outcome).status->Failed_0.failed == seq![outcome.failure_entry()],
        result.record(outcome).status->Failed_0.failed.len() == 1,
        result.record(outcome).card_name == result.card_name,
{
}

/// A failed result stays failed: an assertion adds one entry at the end
/// of the list that its outcome names, and changes nothing else.
pub proof fn lemma_failed_stays_failed(result: ResultView, outcome: OutcomeView)
    requires
        result.status is Failed,
    ensures
        result.record(outcome).status is Failed,
        outcome.passed ==> {
            &&& result.record(outcome).status->Failed_0.passed
                == result.status->Failed_0.passed.push(outcome.check_name)
            &&& result.record(outcome).status->Failed_0.failed == result.status->Failed_0.failed
        },
        !outcome.passed ==> {
            &&& result.record(outcome).status->Failed_0.passed == result.status->Failed_0.passed
            &&& result.record(outcome).status->Failed_0.failed
                == result.status->Failed_0.failed.push(outcome.failure_entry())
        },
        result.record(outcome).card_name == result.card_name,
{
}

/// A panicked result absorbs every assertion: its state and its trace
/// stay as they are.
pub proof fn lemma_panicked_absorbs(result: ResultView, outcome: OutcomeView)
    requires
        result.status is Panicked,
    ensures
        result.record(outcome) == result,
{
}

/// No assertion makes a result panicked, and none changes the name
/// that a well-formed result carries in both places.
pub proof fn lemma_record_keeps_shape(result: ResultView, outcome: OutcomeView)
    ensures
        result.record(outcome).status is Panicked <==> result.status is Panicked,
        result.wf() ==> result.record(outcome).wf(),
{
}

impl KrarkResult {
    /// See [`ResultView::wf`].
    pub open spec fn wf(&self) -> bool {
        self@.wf()
    }

    /// A passed result for the item of this name, with no assertion recorded.
    pub fn new(card_name: &'static str) -> (r: KrarkResult)
        ensures
            r@ == ResultView::fresh(card_name@),
            r.wf(),
    {
        let r = KrarkResult {
            card_name,
            status: KrarkResultStatus::Passed(PassedResult { card_name, passed: Vec::new() }),
        };
        assert(texts(Seq::<String>::empty()) =~= Seq::<Seq<char>>::empty());
        r
    }

    /// The result of an item whose check aborted: panicked, with the message
    /// of the payload as its trace, or a fixed text if it has none.
    pub fn from_panic_payload(card_name: &'static str, payload: PanicPayload) -> (r: KrarkResult)
        ensures
            r@ == ResultView::panicked(card_name@, payload.trace()),
            r.wf(),
    {
        /* Most panic payloads are strings with panic info */
        let trace = match payload {
            PanicPayload::Literal(s) => String::from_str(s),
            PanicPayload::Message(s) => s,
            PanicPayload::Opaque => String::from_str("Unknown panic payload"),
        };
        KrarkResult {
            card_name,
            status: KrarkResultStatus::Panicked(PanickedResult { card_name, trace }),
        }
    }

    /// Records one assertion outcome. A passing outcome appends its name to
    /// the passed checks. A failing one appends an entry to the failed checks,
    /// turning a passed result into a failed one that keeps its passed checks.
    /// A panicked result is left as it is.
    pub fn record(&mut self, outcome: CheckOutcome)
        ensures
            final(self)@ == old(self)@.record(outcome@),
            final(self).card_name == old(self).card_name,
            old(self).status is Panicked ==> *final(self) == *old(self),
            old(self).wf() ==> final(self).wf(),
    {
        let CheckOutcome { check_name, passed, detail } = outcome;
        match &mut self.status {
            KrarkResultStatus::Panicked(_) => {},
            KrarkResultStatus::Passed(p) => {
                if passed {
                    let ghost before = p.passed@;
                    p.passed.push(check_name);
                    assert(texts(before.push(check_name)) =~= texts(before).push(check_name@));
                } else {
                    let mut carried: Vec<String> = Vec::new();
                    std::mem::swap(&mut carried, &mut p.passed);
                    let failure = match detail {
                        Some(d) => d,
                        None => String::new(),
                    };
                    let entry = FailedTc { check_name, failure };
                    let mut failed: Vec<FailedTc> = Vec::new();
                    failed.push(entry);
                    assert(failures(failed@) =~= seq![outcome@.failure_entry()]);
                    self.status = KrarkResultStatus::Failed(
                        FailedResult { card_name: self.card_name, passed: carried, failed },
                    );
                }
            },
            KrarkResultStatus::Failed(f) => {
                if passed {
                    let ghost before = f.passed@;
                    f.passed.push(check_name);
                    assert(texts(before.push(check_name)) =~= texts(before).push(check_name@));
                } else {
                    let failure = match detail {
                        Some(d) => d,
                        None => String::new(),
                    };
                    let entry = FailedTc { check_name, failure };
                    let ghost before = f.failed@;
                    f.failed.push(entry);
                    assert(failures(before.push(entry)) =~= failures(before).push(entry@));
                }
            },
        }
    }

    /// Whether the check of this item aborted.
    pub fn is_panicked(&self) -> (r: bool)
        ensures
            r == (self.status is Panicked),
    {
        match &self.status {
            KrarkResultStatus::Panicked(_) => true,
            _ => false,
        }
    }

    /// Asserts that two values are equal, as `==` decides it, and records the
    /// outcome under `name`. A failure is described by the debug renderings
    /// of both values.
    pub fn assert_eq<T: PartialEq + std::fmt::Debug>(
        &mut self,
        expected: T,
        obtained: T,
        name: String,
    )
        ensures
            exists|equal: bool, e: Seq<char>, o: Seq<char>|
                {
                    &&& final(self)@ == old(self)@.record(
                        #[trigger] equality_outcome(name@, equal, e, o),
                    )
                    &&& T::obeys_eq_spec() ==> equal == expected.eq_spec(&obtained)
                },
            final(self).card_name == old(self).card_name,
            old(self).status is Panicked ==> *final(self) == *old(self),
            old(self).wf() ==> final(self).wf(),
    {
        let equal = expected == obtained;
        if equal || self.is_panicked() {
            let ghost before = self@;
            self.record(CheckOutcome { check_name: name, passed: equal, detail: None });
            assert(self@ == before.record(
                equality_outcome(name@, equal, Seq::empty(), Seq::empty()),
            ));
        } else {
            let e = debug_text(&expected);
            let o = debug_text(&obtained);
            let mut failure = String::from_str("expected ");
            failure.append(e.as_str());
            failure.append(", obtained ");
            failure.append(o.as_str());
            let ghost before = self@;
            self.record(CheckOutcome { check_name: name, passed: false, detail: Some(failure) });
            assert(self@ == before.record(equality_outcome(name@, false, e@, o@)));
        }
    }

    /// Asserts that a fallible computation succeeded, and records the outcome
    /// under `name`. A failure is described by the debug rendering of the error.
    pub fn assert_ok<T, E: std::fmt::Debug>(&mut self, result: Result<T, E>, name: String)
        ensures
            exists|e: Seq<char>|
                final(self)@ == old(self)@.record(
                    #[trigger] success_outcome(name@, result is Ok, e),
                ),
            final(self).card_name == old(self).card_name,
            old(self).status is Panicked ==> *final(self) == *old(self),
            old(self).wf() ==> final(self).wf(),
    {
        let ghost before = self@;
        match result {
            Ok(_) => {
                self.record(CheckOutcome { check_name: name, passed: true, detail: None });
                assert(self@ == before.record(success_outcome(name@, true, Seq::empty())));
            },
            Err(err) => {
                if self.is_panicked() {
                    self.record(CheckOutcome { check_name: name, passed: false, detail: None });
                    assert(self@ == before.record(success_outcome(name@, false, Seq::empty())));
                } else {
                    let e = debug_text(&err);
                    let mut failure = String::from_str("expected Ok(_), obtained Err: ");
                    failure.append(e.as_str());
                    self.record(
                        CheckOutcome { check_name: name, passed: false, detail: Some(failure) },
                    );
                    assert(self@ == before.record(success_outcome(name@, false, e@)));
                }
            },
        }
    }
}

/// Renders a value with its `Debug` implementation, through `format!`.
/// Nothing is claimed of the text: it is whatever the implementation writes.
#[verifier::external_body]
fn debug_text<T: std::fmt::Debug>(value: &T) -> String {
    format!("{:?}", value)
}

} // verus!
