//! The report as the stream of events that test runners print: the suite
//! starts, each test starts and ends, the suite ends.

use crate::harness::generate::{full_test_name_text, TestHarness};
use crate::report::{concluded, FullReport, TestConclusion, TestReport};
use vstd::prelude::*;
use vstd::string::*;

verus! {

/// One event of the stream.
#[derive(Debug)]
pub enum RustcEvent {
    /// The suite starts; `test_count` tests will be run.
    SuiteStarted { test_count: u64 },
    /// The test `name` starts.
    TestStarted { name: String },
    /// The test `name` ends, well or not, with what it has to say.
    TestFinished { name: String, ok: bool, stdout: Option<String> },
    /// The suite ends, well or not, with the counts of its tests.
    SuiteFinished { ok: bool, passed: u64, failed: u64, ignored: u64, measured: u64, filtered_out: u64 },
}

/// A [`RustcEvent`] with its texts as sequences of characters.
pub ghost enum RustcEventView {
    SuiteStarted { test_count: u64 },
    TestStarted { name: Seq<char> },
    TestFinished { name: Seq<char>, ok: bool, stdout: Option<Seq<char>> },
    SuiteFinished { ok: bool, passed: u64, failed: u64, ignored: u64, measured: u64, filtered_out: u64 },
}

impl View for RustcEvent {
    type V = RustcEventView;

    open spec fn view(&self) -> RustcEventView {
        match self {
            RustcEvent::SuiteStarted { test_count } => RustcEventView::SuiteStarted {
                test_count: *test_count,
            },
            RustcEvent::TestStarted { name } => RustcEventView::TestStarted { name: name@ },
            RustcEvent::TestFinished { name, ok, stdout } => RustcEventView::TestFinished {
                name: name@,
                ok: *ok,
                stdout: match stdout {
                    Some(text) => Some(text@),
                    None => None,
                },
            },
            RustcEvent::SuiteFinished {
                ok,
                passed,
                failed,
                ignored,
                measured,
                filtered_out,
            } => RustcEventView::SuiteFinished {
                ok: *ok,
                passed: *passed,
                failed: *failed,
                ignored: *ignored,
                measured: *measured,
                filtered_out: *filtered_out,
            },
        }
    }
}

impl RustcEvent {
    /// What the event is about: `suite` or `test`.
    pub fn kind(&self) -> (kind: &'static str)
        ensures
            kind@ == (match self {
                RustcEvent::SuiteStarted { .. } | RustcEvent::SuiteFinished { .. } => "suite"@,
                RustcEvent::TestStarted { .. } | RustcEvent::TestFinished { .. } => "test"@,
            }),
    {
        match self {
            RustcEvent::SuiteStarted { .. } => "suite",
            RustcEvent::SuiteFinished { .. } => "suite",
            RustcEvent::TestStarted { .. } => "test",
            RustcEvent::TestFinished { .. } => "test",
        }
    }

    /// What happened: `started`, `ok` or `failed`.
    pub fn event(&self) -> (event: &'static str)
        ensures
            event@ == (match self {
                RustcEvent::SuiteStarted { .. } | RustcEvent::TestStarted { .. } => "started"@,
                RustcEvent::TestFinished { ok, .. } | RustcEvent::SuiteFinished { ok, .. } => if *ok {
                    "ok"@
                } else {
                    "failed"@
                },
            }),
    {
        match self {
            RustcEvent::SuiteStarted { .. } => "started",
            RustcEvent::TestStarted { .. } => "started",
            RustcEvent::TestFinished { ok, .. } => if *ok {
                "ok"
            } else {
                "failed"
            },
            RustcEvent::SuiteFinished { ok, .. } => if *ok {
                "ok"
            } else {
                "failed"
            },
        }
    }
}

/// The events of a sequence of events, as plain values.
pub open spec fn events_of(events: Seq<RustcEvent>) -> Seq<RustcEventView> {
    Seq::new(events.len(), |i: int| events[i]@)
}

/// What a failed test has to say.
pub open spec fn failure_stdout_text() -> Seq<char> {
    "FIXME fill this message in"@
}

/// The events of one test: none for a skipped test, else its start and its
/// end. A busted test ends well: its failure is known.
pub open spec fn test_events(test: TestReport) -> Seq<RustcEventView> {
    let name = full_test_name_text(test.key);
    match test.conclusion {
        TestConclusion::Skipped => Seq::empty(),
        TestConclusion::Passed | TestConclusion::Busted => seq![
            RustcEventView::TestStarted { name },
            RustcEventView::TestFinished { name, ok: true, stdout: None },
        ],
        TestConclusion::Failed => seq![
            RustcEventView::TestStarted { name },
            RustcEventView::TestFinished { name, ok: false, stdout: Some(failure_stdout_text()) },
        ],
    }
}

/// The events of the first `count` tests, in their order.
pub open spec fn tests_events(tests: Seq<TestReport>, count: nat) -> Seq<RustcEventView>
    decreases count,
{
    if count == 0 {
        Seq::empty()
    } else {
        tests_events(tests, (count - 1) as nat) + test_events(tests[count - 1])
    }
}

/// The events of a report: the suite starts with the number of tests that
/// were not skipped, the tests follow in their order, and the suite ends.
///
/// The suite ends well unless a test failed. Busted tests count as passed and
/// skipped tests as filtered out; none is ignored or measured.
pub open spec fn report_events(report: FullReport) -> Seq<RustcEventView> {
    seq![
        RustcEventView::SuiteStarted {
            test_count: (report.summary.num_tests - report.summary.num_skipped) as u64,
        },
    ] + tests_events(report.tests@, report.tests@.len()) + seq![
        RustcEventView::SuiteFinished {
            ok: report.summary.num_failed == 0,
            passed: (report.summary.num_passed + report.summary.num_busted) as u64,
            failed: report.summary.num_failed,
            ignored: 0,
            measured: 0,
            filtered_out: report.summary.num_skipped,
        },
    ]
}

/// As many tests end as start, each right after its start and under the name
/// it started with; a skipped test does neither.
pub proof fn lemma_tests_start_and_end(test: TestReport)
    ensures
        test.conclusion == TestConclusion::Skipped <==> test_events(test).len() == 0,
        test.conclusion != TestConclusion::Skipped ==> {
            &&& test_events(test).len() == 2
            &&& test_events(test)[0] == (RustcEventView::TestStarted {
                name: full_test_name_text(test.key),
            })
            &&& test_events(test)[1] is TestFinished
            &&& test_events(test)[1]->TestFinished_name == full_test_name_text(test.key)
            &&& test_events(test)[1]->TestFinished_ok == (test.conclusion != TestConclusion::Failed)
        },
{
}

/// The suite announces as many tests as start and end in it: where the counts
/// are those of the report, each test that was not skipped has its two events
/// between the two of the suite.
pub proof fn lemma_suite_announces_its_tests(report: FullReport)
    requires
        report.summary.counts(report.tests@),
    ensures
        report_events(report).len() == 2 + 2 * (report.summary.num_tests
            - report.summary.num_skipped),
        report_events(report)[0] == (RustcEventView::SuiteStarted {
            test_count: (report.summary.num_tests - report.summary.num_skipped) as u64,
        }),
        report.summary.num_skipped <= report.summary.num_tests,
{
    lemma_tests_events_len(report.tests@, report.tests@.len());
}

/// The first `count` tests have two events for each of them that was not
/// skipped.
pub proof fn lemma_tests_events_len(tests: Seq<TestReport>, count: nat)
    ensures
        concluded(tests, TestConclusion::Skipped, count) <= count,
        tests_events(tests, count).len() == 2 * (count - concluded(
            tests,
            TestConclusion::Skipped,
            count,
        )),
    decreases count,
{
    if count > 0 {
        lemma_tests_events_len(tests, (count - 1) as nat);
    }
}

fn push_event(out: &mut Vec<RustcEvent>, event: RustcEvent)
    ensures
        events_of(final(out)@) == events_of(old(out)@).push(event@),
{
    out.push(event);
    assert(events_of(out@) =~= events_of(old(out)@).push(event@));
}

impl FullReport {
    /// The report as a stream of events, to be printed one to a line.
    ///
    /// The counts must be such that the two sums of the stream can be taken:
    /// no more tests skipped than there are, and passed and busted tests
    /// together within the range of their count.
    pub fn print_rustc_json(&self, harness: &TestHarness) -> (events: Vec<RustcEvent>)
        requires
            self.summary.num_skipped <= self.summary.num_tests,
            self.summary.num_passed + self.summary.num_busted <= u64::MAX,
        ensures
            events_of(events@) == report_events(*self),
    {
        let mut events: Vec<RustcEvent> = Vec::new();
        push_event(
            &mut events,
            RustcEvent::SuiteStarted {
                test_count: self.summary.num_tests - self.summary.num_skipped,
            },
        );
        let ghost head = events_of(events@);
        let mut i: usize = 0;
        while i < self.tests.len()
            invariant
                i <= self.tests.len(),
                events_of(events@) == head + tests_events(self.tests@, i as nat),
            decreases self.tests.len() - i,
        {
            let test = &self.tests[i];
            let ghost before = events_of(events@);
            i = i + 1;
            let (ok, stdout) = match test.conclusion {
                TestConclusion::Skipped => {
                    assert(before + test_events(*test) =~= before);
                    continue ;
                },
                TestConclusion::Passed => (true, None),
                TestConclusion::Failed => (false, Some(String::from_str("FIXME fill this message in"))),
                TestConclusion::Busted => (true, None),
            };
            let test_name = harness.full_test_name(&test.key);
            push_event(&mut events, RustcEvent::TestStarted { name: test_name.clone() });
            push_event(&mut events, RustcEvent::TestFinished { name: test_name, ok, stdout });
            assert(events_of(events@) =~= head + tests_events(self.tests@, i as nat));
        }
        push_event(
            &mut events,
            RustcEvent::SuiteFinished {
                ok: !self.failed(),
                passed: self.summary.num_passed + self.summary.num_busted,
                failed: self.summary.num_failed,
                ignored: 0,
                measured: 0,
                filtered_out: self.summary.num_skipped,
            },
        );
        assert(events_of(events@) =~= report_events(*self));
        events
    }
}

} // verus!
