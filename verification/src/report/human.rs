//! The report as text for a reader at a terminal: one line for each test that
//! was run, the passed first and the failed last, with the details of what
//! failed, and the counts at the end.

use crate::error::CheckFailure;
use crate::harness::generate::{full_test_name_text, TestHarness};
use crate::report::{
    CheckOutput, FullReport, TestCheckMode, TestConclusion, TestReport, TestRunMode,
    TestRunResults, TestSummary,
};
use crate::text::{
    decimal, pad_left, pad_right, push_decimal, push_padded_left, push_padded_right,
};
use vstd::prelude::*;
use vstd::string::*;
use vstd::utf8::encode_utf8;

verus! {

/// The colour a piece of the report is shown in.
#[derive(Debug, Clone, Copy, PartialEq, Eq, Structural, Hash)]
pub enum Paint {
    Plain,
    Red,
    Green,
    Blue,
}

/// A piece of the report: a text and the colour it is shown in.
#[derive(Debug, Clone)]
pub struct Span {
    pub paint: Paint,
    pub text: String,
}

/// A [`Span`] with its text as a sequence of characters.
pub ghost struct SpanView {
    pub paint: Paint,
    pub text: Seq<char>,
}

impl View for Span {
    type V = SpanView;

    open spec fn view(&self) -> SpanView {
        SpanView { paint: self.paint, text: self.text@ }
    }
}

/// The pieces of a sequence of spans, as plain values.
pub open spec fn spans_of(spans: Seq<Span>) -> Seq<SpanView> {
    Seq::new(spans.len(), |i: int| spans[i]@)
}

/// A piece in the terminal's own colour.
pub open spec fn plain(text: Seq<char>) -> SpanView {
    SpanView { paint: Paint::Plain, text }
}

/// A piece in colour.
pub open spec fn painted(paint: Paint, text: Seq<char>) -> SpanView {
    SpanView { paint, text }
}

/// What a test was about to do in the phase `phase`, for the report of its
/// failure.
pub open spec fn attempt_text(phase: TestRunMode) -> Seq<char> {
    match phase {
        TestRunMode::Generate => "generate source code"@,
        TestRunMode::Build => "compile source code"@,
        TestRunMode::Link => "link both sides together"@,
        TestRunMode::Run => "run the program"@,
        TestRunMode::Skip | TestRunMode::Check => Seq::empty(),
    }
}

/// The error of the last phase that the test attempted, as it is reported;
/// empty where that phase did not fail.
pub open spec fn error_text(results: TestRunResults) -> Seq<char> {
    match results.ran_to {
        TestRunMode::Generate => match results.source {
            Some(Err(error)) => error@.message(),
            _ => Seq::empty(),
        },
        TestRunMode::Build => match results.build {
            Some(Err(error)) => error.message@,
            _ => Seq::empty(),
        },
        TestRunMode::Link => match results.link {
            Some(Err(error)) => error.message@,
            _ => Seq::empty(),
        },
        TestRunMode::Run => match results.run {
            Some(Err(error)) => error.message@,
            _ => Seq::empty(),
        },
        TestRunMode::Skip | TestRunMode::Check => Seq::empty(),
    }
}

/// What became of the test, in words.
///
/// A test that should have passed and failed before its checks is followed by
/// what it was about to do and, on a line of its own, by the error.
pub open spec fn status_spans(test: TestReport) -> Seq<SpanView> {
    match test.conclusion {
        TestConclusion::Skipped => Seq::empty(),
        TestConclusion::Passed => match test.rules.check {
            TestCheckMode::Pass(_) => seq![plain("passed"@)],
            TestCheckMode::Random => seq![plain("passed (random, result ignored)"@)],
            TestCheckMode::Fail(_) => seq![plain("passed (failed as expected)"@)],
            TestCheckMode::Busted(_) => seq![
                painted(Paint::Blue, "busted (known failure, ignored)"@),
            ],
        },
        TestConclusion::Failed => match test.rules.check {
            TestCheckMode::Pass(_) => if test.results.ran_to != TestRunMode::Check {
                seq![
                    painted(Paint::Red, "failed"@),
                    painted(Paint::Red, " to "@),
                    painted(Paint::Red, attempt_text(test.results.ran_to)),
                    plain("\n  "@),
                    painted(Paint::Red, error_text(test.results)),
                    plain("\n"@),
                ]
            } else {
                seq![painted(Paint::Red, "failed"@)]
            },
            TestCheckMode::Random => seq![painted(Paint::Red, "failed!? (failed but random!?)"@)],
            TestCheckMode::Fail(_) => seq![painted(Paint::Red, "failed (passed unexpectedly!)"@)],
            TestCheckMode::Busted(_) => seq![
                painted(Paint::Green, "fixed (test was busted, congrats!)"@),
            ],
        },
        TestConclusion::Busted => seq![painted(Paint::Blue, "busted (known failure, ignored)"@)],
    }
}

/// How many of the first `count` subtests passed.
pub open spec fn passed_count(checks: Seq<Result<(), CheckFailure>>, count: nat) -> nat
    decreases count,
{
    if count == 0 {
        0
    } else {
        passed_count(checks, (count - 1) as nat) + if checks[count - 1] is Ok {
            1nat
        } else {
            0nat
        }
    }
}

/// The length in bytes of the longest of the first `count` names.
pub open spec fn widest_name(names: Seq<String>, count: nat) -> nat
    decreases count,
{
    if count == 0 {
        0
    } else {
        let before = widest_name(names, (count - 1) as nat);
        let this = encode_utf8(names[count - 1]@).len();
        if this > before {
            this
        } else {
            before
        }
    }
}

/// The line of one subtest: its name, padded to `width`, and for a subtest
/// that failed what went wrong.
pub open spec fn subtest_spans(name: Seq<char>, check: Result<(), CheckFailure>, width: nat) -> Seq<
    SpanView,
> {
    match check {
        Ok(_) => seq![plain("  "@ + pad_right(name, width) + " \n"@)],
        Err(failure) => seq![
            plain("  "@ + pad_right(name, width) + " "@),
            painted(Paint::Red, "failed!"@),
            plain("\n"@),
            painted(Paint::Red, failure.message@),
            plain("\n"@),
        ],
    }
}

/// The lines of the first `count` subtests.
pub open spec fn subtests_spans(output: CheckOutput, width: nat, count: nat) -> Seq<SpanView>
    decreases count,
{
    if count == 0 {
        Seq::empty()
    } else {
        subtests_spans(output, width, (count - 1) as nat) + subtest_spans(
            output.subtest_names@[count - 1]@,
            output.subtest_checks@[count - 1],
            width,
        )
    }
}

/// How many subtests have both a name and a result.
pub open spec fn subtest_count(output: CheckOutput) -> nat {
    if output.subtest_names@.len() <= output.subtest_checks@.len() {
        output.subtest_names@.len()
    } else {
        output.subtest_checks@.len()
    }
}

/// How many subtests passed, of how many.
pub open spec fn tally_text(output: CheckOutput) -> Seq<char> {
    " ("@ + pad_left(
        decimal(passed_count(output.subtest_checks@, output.subtest_checks@.len())),
        3,
    ) + "/"@ + pad_right(decimal(output.subtest_checks@.len()), 3) + " passed)\n"@
}

/// What follows the status of a test: for a test whose checks were made, how
/// many subtests passed and, unless all did, a line for each subtest; for any
/// other test, the end of the line.
pub open spec fn detail_spans(results: TestRunResults) -> Seq<SpanView> {
    if results.ran_to == TestRunMode::Check && results.check is Some {
        let output = results.check->0;
        if output.all_passed {
            seq![plain(tally_text(output))]
        } else {
            seq![plain(tally_text(output))] + subtests_spans(
                output,
                widest_name(output.subtest_names@, output.subtest_names@.len()),
                subtest_count(output),
            ) + seq![plain("\n"@)]
        }
    } else {
        seq![plain("\n"@)]
    }
}

/// The lines of one test: its name, what became of it, and the details.
pub open spec fn test_spans(test: TestReport) -> Seq<SpanView> {
    seq![plain(pad_right(full_test_name_text(test.key), 64) + " "@)] + status_spans(test)
        + detail_spans(test.results)
}

/// The lines of those of the first `count` tests that came to `conclusion`,
/// in their order.
pub open spec fn concluded_spans(tests: Seq<TestReport>, conclusion: TestConclusion, count: nat)
    -> Seq<SpanView>
    decreases count,
{
    if count == 0 {
        Seq::empty()
    } else if tests[count - 1].conclusion == conclusion {
        concluded_spans(tests, conclusion, (count - 1) as nat) + test_spans(tests[count - 1])
    } else {
        concluded_spans(tests, conclusion, (count - 1) as nat)
    }
}

/// The counts of the report, in words.
pub open spec fn summary_text(summary: TestSummary) -> Seq<char> {
    decimal(summary.num_tests as nat) + " test sets run - "@ + decimal(summary.num_passed as nat)
        + " passed, "@ + decimal(summary.num_busted as nat) + " busted, "@ + decimal(
        summary.num_failed as nat,
    ) + " failed, "@ + decimal(summary.num_skipped as nat) + " skipped"@
}

/// The colour of the counts: red where a test failed, else blue where one is
/// busted, else green.
pub open spec fn summary_paint(summary: TestSummary) -> Paint {
    if summary.num_failed > 0 {
        Paint::Red
    } else if summary.num_busted > 0 {
        Paint::Blue
    } else {
        Paint::Green
    }
}

/// The whole report: a heading, the tests that passed, those that are busted
/// and those that failed, each group in the order of the report, and the
/// counts. Skipped tests are counted and not listed.
pub open spec fn human_spans(report: FullReport) -> Seq<SpanView> {
    seq![plain("Final Results:\n"@)] + concluded_spans(
        report.tests@,
        TestConclusion::Passed,
        report.tests@.len(),
    ) + concluded_spans(report.tests@, TestConclusion::Busted, report.tests@.len())
        + concluded_spans(report.tests@, TestConclusion::Failed, report.tests@.len()) + seq![
        plain("\n"@),
        painted(summary_paint(report.summary), summary_text(report.summary)),
        plain("\n"@),
    ]
}

/// The escape sequence that starts the colour `paint`.
pub open spec fn colour_start_text(paint: Paint) -> Seq<char> {
    match paint {
        Paint::Plain => Seq::empty(),
        Paint::Red => "\x1b[31m"@,
        Paint::Green => "\x1b[32m"@,
        Paint::Blue => "\x1b[34m"@,
    }
}

/// The escape sequence that ends a colour.
pub open spec fn colour_end_text() -> Seq<char> {
    "\x1b[0m"@
}

/// Whether `text` shows the piece `span`: its text as it is or, for a piece in
/// colour, between the escape sequences of its colour.
pub open spec fn shows(span: SpanView, text: Seq<char>) -> bool {
    text == span.text || (span.paint != Paint::Plain && text == colour_start_text(span.paint)
        + span.text + colour_end_text())
}

/// The first `count` texts, one after the other.
pub open spec fn joined(texts: Seq<Seq<char>>, count: nat) -> Seq<char>
    decreases count,
{
    if count == 0 {
        Seq::empty()
    } else {
        joined(texts, (count - 1) as nat) + texts[count - 1]
    }
}

/// Whether `text` shows the pieces `spans` in their order.
pub open spec fn shows_all(spans: Seq<SpanView>, text: Seq<char>) -> bool {
    exists|texts: Seq<Seq<char>>|
        {
            &&& texts.len() == spans.len()
            &&& forall|i: int| 0 <= i < spans.len() ==> shows(spans[i], #[trigger] texts[i])
            &&& text == joined(texts, texts.len())
        }
}

/// `Style::red` and `Style::apply_to` of console: `text` as it is where the
/// terminal takes no colours, else between the escape sequences for red and
/// for the end of a colour.
#[verifier::external_body]
fn paint_red(text: &str) -> (shown: String)
    ensures
        shows(painted(Paint::Red, text@), shown@),
{
    format!("{}", console::Style::new().red().apply_to(text))
}

/// `Style::green` and `Style::apply_to` of console: `text` as it is where the
/// terminal takes no colours, else between the escape sequences for green and
/// for the end of a colour.
#[verifier::external_body]
fn paint_green(text: &str) -> (shown: String)
    ensures
        shows(painted(Paint::Green, text@), shown@),
{
    format!("{}", console::Style::new().green().apply_to(text))
}

/// `Style::blue` and `Style::apply_to` of console: `text` as it is where the
/// terminal takes no colours, else between the escape sequences for blue and
/// for the end of a colour.
#[verifier::external_body]
fn paint_blue(text: &str) -> (shown: String)
    ensures
        shows(painted(Paint::Blue, text@), shown@),
{
    format!("{}", console::Style::new().blue().apply_to(text))
}

/// The pieces as one text, each in its colour where the terminal takes
/// colours.
pub fn paint_spans(spans: &Vec<Span>) -> (text: String)
    ensures
        shows_all(spans_of(spans@), text@),
{
    let mut text = String::new();
    let ghost mut texts: Seq<Seq<char>> = Seq::empty();
    let mut i: usize = 0;
    while i < spans.len()
        invariant
            i <= spans.len(),
            texts.len() == i,
            forall|j: int| 0 <= j < i ==> shows(spans_of(spans@)[j], #[trigger] texts[j]),
            text@ == joined(texts, i as nat),
        decreases spans.len() - i,
    {
        let span = &spans[i];
        let shown = match span.paint {
            Paint::Plain => span.text.clone(),
            Paint::Red => paint_red(span.text.as_str()),
            Paint::Green => paint_green(span.text.as_str()),
            Paint::Blue => paint_blue(span.text.as_str()),
        };
        text.append(shown.as_str());
        proof {
            let before = texts;
            texts = texts.push(shown@);
            assert forall|k: nat| k <= i implies joined(texts, k) == joined(before, k) by {
                lemma_joined_prefix(before, shown@, k);
            }
        }
        i = i + 1;
    }
    text
}

proof fn lemma_joined_prefix(texts: Seq<Seq<char>>, more: Seq<char>, count: nat)
    requires
        count <= texts.len(),
    ensures
        joined(texts.push(more), count) == joined(texts, count),
    decreases count,
{
    if count > 0 {
        lemma_joined_prefix(texts, more, (count - 1) as nat);
    }
}

fn push_span(out: &mut Vec<Span>, paint: Paint, text: String)
    ensures
        spans_of(final(out)@) == spans_of(old(out)@).push(painted(paint, text@)),
{
    out.push(Span { paint, text });
    assert(spans_of(out@) =~= spans_of(old(out)@).push(painted(paint, text@)));
}

fn push_text(out: &mut Vec<Span>, paint: Paint, text: &str)
    ensures
        spans_of(final(out)@) == spans_of(old(out)@).push(painted(paint, text@)),
{
    push_span(out, paint, String::from_str(text));
}

fn attempt(phase: TestRunMode) -> (text: String)
    ensures
        text@ == attempt_text(phase),
{
    match phase {
        TestRunMode::Generate => String::from_str("generate source code"),
        TestRunMode::Build => String::from_str("compile source code"),
        TestRunMode::Link => String::from_str("link both sides together"),
        TestRunMode::Run => String::from_str("run the program"),
        TestRunMode::Skip => String::new(),
        TestRunMode::Check => String::new(),
    }
}

fn last_error(results: &TestRunResults) -> (text: String)
    ensures
        text@ == error_text(*results),
{
    match results.ran_to {
        TestRunMode::Generate => match &results.source {
            Some(Err(error)) => error.message(),
            _ => String::new(),
        },
        TestRunMode::Build => match &results.build {
            Some(Err(error)) => error.message.clone(),
            _ => String::new(),
        },
        TestRunMode::Link => match &results.link {
            Some(Err(error)) => error.message.clone(),
            _ => String::new(),
        },
        TestRunMode::Run => match &results.run {
            Some(Err(error)) => error.message.clone(),
            _ => String::new(),
        },
        TestRunMode::Skip => String::new(),
        TestRunMode::Check => String::new(),
    }
}

fn push_status(out: &mut Vec<Span>, test: &TestReport)
    ensures
        spans_of(final(out)@) == spans_of(old(out)@) + status_spans(*test),
{
    let ghost before = spans_of(out@);
    match test.conclusion {
        TestConclusion::Skipped => {
            // Don't mention these, too many
        },
        TestConclusion::Passed => match test.rules.check {
            TestCheckMode::Pass(_) => {
                push_text(out, Paint::Plain, "passed");
            },
            TestCheckMode::Random => {
                push_text(out, Paint::Plain, "passed (random, result ignored)");
            },
            TestCheckMode::Fail(_) => {
                push_text(out, Paint::Plain, "passed (failed as expected)");
            },
            TestCheckMode::Busted(_) => {
                push_text(out, Paint::Blue, "busted (known failure, ignored)");
            },
        },
        TestConclusion::Failed => match test.rules.check {
            TestCheckMode::Pass(_) => {
                push_text(out, Paint::Red, "failed");
                let before_checks = match test.results.ran_to {
                    TestRunMode::Check => false,
                    _ => true,
                };
                if before_checks {
                    push_text(out, Paint::Red, " to ");
                    push_span(out, Paint::Red, attempt(test.results.ran_to));
                    push_text(out, Paint::Plain, "\n  ");
                    push_span(out, Paint::Red, last_error(&test.results));
                    push_text(out, Paint::Plain, "\n");
                }
            },
            TestCheckMode::Random => {
                push_text(out, Paint::Red, "failed!? (failed but random!?)");
            },
            TestCheckMode::Fail(_) => {
                push_text(out, Paint::Red, "failed (passed unexpectedly!)");
            },
            TestCheckMode::Busted(_) => {
                push_text(out, Paint::Green, "fixed (test was busted, congrats!)");
            },
        },
        TestConclusion::Busted => {
            push_text(out, Paint::Blue, "busted (known failure, ignored)");
        },
    }
    assert(spans_of(out@) =~= before + status_spans(*test));
}

fn count_passed(checks: &Vec<Result<(), CheckFailure>>) -> (passed: usize)
    ensures
        passed == passed_count(checks@, checks@.len()),
{
    let mut passed: usize = 0;
    let mut i: usize = 0;
    while i < checks.len()
        invariant
            i <= checks.len(),
            passed <= i,
            passed == passed_count(checks@, i as nat),
        decreases checks.len() - i,
    {
        let ok = match &checks[i] {
            Ok(_) => true,
            Err(_) => false,
        };
        if ok {
            passed = passed + 1;
        }
        i = i + 1;
    }
    passed
}

fn widest(names: &Vec<String>) -> (width: usize)
    ensures
        width == widest_name(names@, names@.len()),
{
    let mut width: usize = 0;
    let mut i: usize = 0;
    while i < names.len()
        invariant
            i <= names.len(),
            width == widest_name(names@, i as nat),
        decreases names.len() - i,
    {
        let this: usize = names[i].as_str().as_bytes().len();
        if this > width {
            width = this;
        }
        i = i + 1;
    }
    width
}

fn tally(output: &CheckOutput) -> (text: String)
    ensures
        text@ == tally_text(*output),
{
    let passed = count_passed(&output.subtest_checks);
    let total: usize = output.subtest_checks.len();
    let mut passed_text = String::new();
    push_decimal(&mut passed_text, passed as u64);
    let mut total_text = String::new();
    push_decimal(&mut total_text, total as u64);
    let mut text = String::from_str(" (");
    push_padded_left(&mut text, passed_text.as_str(), 3);
    text.append("/");
    push_padded_right(&mut text, total_text.as_str(), 3);
    text.append(" passed)\n");
    proof {
        assert(passed_text@ =~= decimal(passed as nat));
        assert(total_text@ =~= decimal(total as nat));
    }
    text
}

fn push_subtest(out: &mut Vec<Span>, name: &str, check: &Result<(), CheckFailure>, width: usize)
    ensures
        spans_of(final(out)@) == spans_of(old(out)@) + subtest_spans(name@, *check, width as nat),
{
    let ghost before = spans_of(out@);
    let mut line = String::from_str("  ");
    push_padded_right(&mut line, name, width);
    match check {
        Err(failure) => {
            line.append(" ");
            push_span(out, Paint::Plain, line);
            push_text(out, Paint::Red, "failed!");
            push_text(out, Paint::Plain, "\n");
            push_span(out, Paint::Red, failure.message.clone());
            push_text(out, Paint::Plain, "\n");
        },
        Ok(_) => {
            line.append(" \n");
            push_span(out, Paint::Plain, line);
        },
    }
    assert(spans_of(out@) =~= before + subtest_spans(name@, *check, width as nat));
}

fn push_details(out: &mut Vec<Span>, results: &TestRunResults)
    ensures
        spans_of(final(out)@) == spans_of(old(out)@) + detail_spans(*results),
{
    let ghost before = spans_of(out@);
    let output = match (results.ran_to, &results.check) {
        (TestRunMode::Check, Some(output)) => output,
        _ => {
            push_text(out, Paint::Plain, "\n");
            assert(spans_of(out@) =~= before + detail_spans(*results));
            return ;
        },
    };
    push_span(out, Paint::Plain, tally(output));
    // If all the subtests pass, don't bother with a breakdown.
    if output.all_passed {
        assert(spans_of(out@) =~= before + detail_spans(*results));
        return ;
    }
    let width = widest(&output.subtest_names);
    let count: usize = if output.subtest_names.len() <= output.subtest_checks.len() {
        output.subtest_names.len()
    } else {
        output.subtest_checks.len()
    };
    let ghost head = spans_of(out@);
    let mut i: usize = 0;
    while i < count
        invariant
            i <= count,
            count == subtest_count(*output),
            spans_of(out@) == head + subtests_spans(*output, width as nat, i as nat),
        decreases count - i,
    {
        push_subtest(out, output.subtest_names[i].as_str(), &output.subtest_checks[i], width);
        i = i + 1;
        assert(spans_of(out@) =~= head + subtests_spans(*output, width as nat, i as nat));
    }
    push_text(out, Paint::Plain, "\n");
    assert(spans_of(out@) =~= before + detail_spans(*results));
}

fn push_test(out: &mut Vec<Span>, harness: &TestHarness, test: &TestReport)
    ensures
        spans_of(final(out)@) == spans_of(old(out)@) + test_spans(*test),
{
    let ghost before = spans_of(out@);
    let pretty_test_name = harness.full_test_name(&test.key);
    let mut heading = String::new();
    push_padded_right(&mut heading, pretty_test_name.as_str(), 64);
    heading.append(" ");
    assert(heading@ =~= pad_right(full_test_name_text(test.key), 64) + " "@);
    push_span(out, Paint::Plain, heading);
    push_status(out, test);
    push_details(out, &test.results);
    assert(spans_of(out@) =~= before + test_spans(*test));
}

fn push_concluded(
    out: &mut Vec<Span>,
    harness: &TestHarness,
    tests: &Vec<TestReport>,
    conclusion: TestConclusion,
)
    ensures
        spans_of(final(out)@) == spans_of(old(out)@) + concluded_spans(
            tests@,
            conclusion,
            tests@.len(),
        ),
{
    let ghost before = spans_of(out@);
    assert(spans_of(out@) =~= before + concluded_spans(tests@, conclusion, 0));
    let mut i: usize = 0;
    while i < tests.len()
        invariant
            i <= tests.len(),
            spans_of(out@) == before + concluded_spans(tests@, conclusion, i as nat),
        decreases tests.len() - i,
    {
        if tests[i].conclusion == conclusion {
            push_test(out, harness, &tests[i]);
        }
        i = i + 1;
        assert(spans_of(out@) =~= before + concluded_spans(tests@, conclusion, i as nat));
    }
}

fn summary_line(summary: &TestSummary) -> (text: String)
    ensures
        text@ == summary_text(*summary),
{
    let mut text = String::new();
    push_decimal(&mut text, summary.num_tests);
    text.append(" test sets run - ");
    push_decimal(&mut text, summary.num_passed);
    text.append(" passed, ");
    push_decimal(&mut text, summary.num_busted);
    text.append(" busted, ");
    push_decimal(&mut text, summary.num_failed);
    text.append(" failed, ");
    push_decimal(&mut text, summary.num_skipped);
    text.append(" skipped");
    assert(text@ =~= summary_text(*summary));
    text
}

impl FullReport {
    /// The report as pieces of text with their colours.
    pub fn human_report(&self, harness: &TestHarness) -> (spans: Vec<Span>)
        ensures
            spans_of(spans@) == human_spans(*self),
    {
        let mut spans: Vec<Span> = Vec::new();
        push_text(&mut spans, Paint::Plain, "Final Results:\n");
        push_concluded(&mut spans, harness, &self.tests, TestConclusion::Passed);
        push_concluded(&mut spans, harness, &self.tests, TestConclusion::Busted);
        push_concluded(&mut spans, harness, &self.tests, TestConclusion::Failed);
        push_text(&mut spans, Paint::Plain, "\n");
        let summary_style = if self.summary.num_failed > 0 {
            Paint::Red
        } else if self.summary.num_busted > 0 {
            Paint::Blue
        } else {
            Paint::Green
        };
        push_span(&mut spans, summary_style, summary_line(&self.summary));
        push_text(&mut spans, Paint::Plain, "\n");
        assert(spans_of(spans@) =~= human_spans(*self));
        spans
    }

    /// The report as text for a terminal.
    pub fn print_human(&self, harness: &TestHarness) -> (text: String)
        ensures
            shows_all(human_spans(*self), text@),
    {
        let spans = self.human_report(harness);
        paint_spans(&spans)
    }
}

} // verus!
