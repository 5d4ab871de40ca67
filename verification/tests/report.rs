use abi_cafe::abis::{Arch, CallingConvention, Host, Platform};
use abi_cafe::error::{BuildError, CheckFailure, GenerateError, LinkError, RunError};
use abi_cafe::harness::generate::TestHarness;
use abi_cafe::harness::test::{CallSide, TestOptions, ValueGeneratorKind};
use abi_cafe::report::events::RustcEvent;
use abi_cafe::report::human::{paint_spans, Paint, Span};
use abi_cafe::report::{
    apply_rules, builtin_rules, get_test_rules, report_test, BuildOutput, CheckOutput, FullReport,
    GenerateOutput, LinkOutput, RuleOverride, RunOutput, TestBuffer, TestCheckMode,
    TestConclusion, TestConfig, TestKey, TestReport, TestRules, TestRunMode, TestRunResults,
    TestSummary,
};
use abi_cafe::toolchains::Toolchain;

const PHASES: [TestRunMode; 6] = [
    TestRunMode::Skip,
    TestRunMode::Generate,
    TestRunMode::Build,
    TestRunMode::Link,
    TestRunMode::Run,
    TestRunMode::Check,
];

fn key(test: &str) -> TestKey {
    TestKey {
        test: test.to_string(),
        caller: "rustc".to_string(),
        callee: "cc".to_string(),
        options: TestOptions {
            convention: CallingConvention::C,
            val_generator: ValueGeneratorKind::Graffiti,
        },
    }
}

fn toolchain(lang: &str) -> Toolchain {
    Toolchain { lang: lang.to_string(), src_ext: lang.to_string() }
}

fn host(platform: Platform, arch: Arch) -> Host {
    Host { platform, arch }
}

fn default_rules() -> TestRules {
    TestRules { run: TestRunMode::Check, check: TestCheckMode::Pass(TestRunMode::Check) }
}

fn rules_of(test: &str, caller: &str, callee: &str, host: Host) -> TestRules {
    get_test_rules(&key(test), &toolchain(caller), &toolchain(callee), &host)
}

fn sources() -> GenerateOutput {
    GenerateOutput { caller_src: "caller.rs".to_string(), callee_src: "callee.c".to_string() }
}

fn libs() -> BuildOutput {
    BuildOutput { caller_lib: "caller".to_string(), callee_lib: "callee".to_string() }
}

fn bin() -> LinkOutput {
    LinkOutput { test_bin: "test.exe".to_string() }
}

fn ran() -> RunOutput {
    RunOutput {
        caller_funcs: TestBuffer { funcs: vec![vec![vec![1, 2]]] },
        callee_funcs: TestBuffer { funcs: vec![vec![vec![1, 2]]] },
    }
}

fn checks(outcomes: &[(&str, Option<&str>)]) -> CheckOutput {
    CheckOutput {
        all_passed: outcomes.iter().all(|(_, failure)| failure.is_none()),
        subtest_names: outcomes.iter().map(|(name, _)| name.to_string()).collect(),
        subtest_checks: outcomes
            .iter()
            .map(|(_, failure)| match failure {
                Some(message) => Err(CheckFailure { message: message.to_string() }),
                None => Ok(()),
            })
            .collect(),
    }
}

/// The results of a run that went well up to `stop` and failed there, or went
/// well through all phases where `stop` is `Skip`.
fn run_until(test: &str, rules: TestRules, stop: TestRunMode, output: CheckOutput) -> TestRunResults {
    let mut results = TestRunResults::new(key(test), rules);
    while let Some(phase) = results.next() {
        let fail = phase == stop;
        match phase {
            TestRunMode::Generate => results.record_generate(if fail {
                Err(GenerateError::Io("disk full".to_string()))
            } else {
                Ok(sources())
            }),
            TestRunMode::Build => results.record_build(if fail {
                Err(BuildError { message: "syntax error".to_string() })
            } else {
                Ok(libs())
            }),
            TestRunMode::Link => results.record_link(if fail {
                Err(LinkError { message: "undefined symbol".to_string() })
            } else {
                Ok(bin())
            }),
            TestRunMode::Run => results.record_run(if fail {
                Err(RunError { message: "segfault".to_string() })
            } else {
                Ok(ran())
            }),
            TestRunMode::Check => results.record_check(output.clone()),
            TestRunMode::Skip => unreachable!("skipping is no phase to attempt"),
        }
    }
    results
}

fn all_pass() -> CheckOutput {
    checks(&[("arg0", None), ("arg1", None)])
}

fn some_fail() -> CheckOutput {
    checks(&[("first", None), ("second_longer", Some("expected 1, got 2")), ("third", None)])
}

fn conclude(rules: TestRules, stop: TestRunMode, output: CheckOutput) -> TestConclusion {
    report_test(run_until("t", rules, stop, output)).conclusion
}

#[test]
fn the_default_is_to_run_everything_and_pass() {
    for platform in [Platform::Windows, Platform::Linux, Platform::MacOS, Platform::Other] {
        for arch in [Arch::X86_64, Arch::Aarch64, Arch::Other] {
            assert_eq!(rules_of("structs", "rustc", "cc", host(platform, arch)), default_rules());
            assert_eq!(rules_of("i128", "rust", "rust", host(Platform::Linux, arch)), default_rules());
        }
    }
}

#[test]
fn default_rules_and_passing_checks_pass() {
    let rules = get_test_rules(
        &TestKey { caller: "cc".to_string(), ..key("u128") },
        &toolchain("c"),
        &toolchain("c"),
        &host(Platform::Linux, Arch::X86_64),
    );
    assert_eq!(rules, default_rules());
    let report = report_test(run_until("u128", rules, TestRunMode::Skip, all_pass()));
    assert_eq!(report.conclusion, TestConclusion::Passed);
    assert_eq!(report.results.ran_to, TestRunMode::Check);
    assert_eq!(report.rules, rules);
    assert_eq!(report.key.test, "u128");
}

#[test]
fn wide_integers_on_windows_are_never_graded() {
    let windows = host(Platform::Windows, Arch::X86_64);
    for test in ["i128", "u128"] {
        for lang in ["c", "rust"] {
            let rules = rules_of(test, lang, lang, windows);
            assert_eq!(rules, TestRules { run: TestRunMode::Check, check: TestCheckMode::Random });
            for stop in PHASES {
                for output in [all_pass(), some_fail()] {
                    assert_eq!(conclude(rules, stop, output), TestConclusion::Passed);
                }
            }
        }
    }
}

#[test]
fn half_floats_with_c_on_x64_linux_are_never_graded() {
    let random = TestRules { run: TestRunMode::Check, check: TestCheckMode::Random };
    let linux = host(Platform::Linux, Arch::X86_64);
    assert_eq!(rules_of("f16", "c", "rust", linux), random);
    assert_eq!(rules_of("f16", "rust", "c", linux), random);
    assert_eq!(rules_of("f16", "rust", "rust", linux), default_rules());
    assert_eq!(rules_of("f16", "c", "c", host(Platform::Linux, Arch::Aarch64)), default_rules());
    assert_eq!(rules_of("f16", "c", "c", host(Platform::MacOS, Arch::X86_64)), default_rules());
    assert_eq!(rules_of("f32", "c", "c", linux), default_rules());
}

#[test]
fn empty_structs_with_c_on_windows_are_busted() {
    let busted =
        TestRules { run: TestRunMode::Check, check: TestCheckMode::Busted(TestRunMode::Build) };
    let windows = host(Platform::Windows, Arch::Other);
    for test in ["EmptyStruct", "EmptyStructInside"] {
        assert_eq!(rules_of(test, "c", "rust", windows), busted);
        assert_eq!(rules_of(test, "rust", "c", windows), busted);
        assert_eq!(rules_of(test, "rust", "rust", windows), default_rules());
        assert_eq!(rules_of(test, "c", "c", host(Platform::Linux, Arch::X86_64)), default_rules());
    }
    assert_eq!(rules_of("EmptyStructs", "c", "c", windows), default_rules());
    assert_eq!(rules_of("emptystruct", "c", "c", windows), default_rules());
}

#[test]
fn the_builtin_table_has_three_entries() {
    let table = builtin_rules();
    assert_eq!(table.len(), 3);
    assert_eq!(table[0].platform, Some(Platform::Windows));
    assert_eq!(table[0].arch, None);
    assert!(!table[0].only_with_c);
    assert_eq!(table[0].tests, ["i128", "u128"]);
    assert_eq!(table[0].check, TestCheckMode::Random);
    assert_eq!(table[1].platform, Some(Platform::Linux));
    assert_eq!(table[1].arch, Some(Arch::X86_64));
    assert!(table[1].only_with_c);
    assert_eq!(table[1].tests, ["f16"]);
    assert_eq!(table[1].check, TestCheckMode::Random);
    assert_eq!(table[2].platform, Some(Platform::Windows));
    assert_eq!(table[2].arch, None);
    assert!(table[2].only_with_c);
    assert_eq!(table[2].tests, ["EmptyStruct", "EmptyStructInside"]);
    assert_eq!(table[2].check, TestCheckMode::Busted(TestRunMode::Build));
}

fn entry(platform: Option<Platform>, arch: Option<Arch>, only_with_c: bool, tests: &[&str], check: TestCheckMode) -> RuleOverride {
    RuleOverride {
        platform,
        arch,
        only_with_c,
        tests: tests.iter().map(|test| test.to_string()).collect(),
        check,
    }
}

#[test]
fn an_entry_applies_where_all_its_conditions_hold() {
    let linux = host(Platform::Linux, Arch::Aarch64);
    let everywhere = entry(None, None, false, &["a", "b"], TestCheckMode::Random);
    assert!(everywhere.applies_to("a", false, &linux));
    assert!(everywhere.applies_to("b", true, &host(Platform::Other, Arch::Other)));
    assert!(!everywhere.applies_to("c", true, &linux));
    assert!(!everywhere.applies_to("", true, &linux));
    let nowhere = entry(None, None, false, &[], TestCheckMode::Random);
    assert!(!nowhere.applies_to("a", true, &linux));
    let arm = entry(None, Some(Arch::Aarch64), false, &["a"], TestCheckMode::Random);
    assert!(arm.applies_to("a", false, &linux));
    assert!(arm.applies_to("a", false, &host(Platform::MacOS, Arch::Aarch64)));
    assert!(!arm.applies_to("a", false, &host(Platform::Linux, Arch::X86_64)));
    let mac = entry(Some(Platform::MacOS), None, true, &["a"], TestCheckMode::Random);
    assert!(mac.applies_to("a", true, &host(Platform::MacOS, Arch::Aarch64)));
    assert!(!mac.applies_to("a", false, &host(Platform::MacOS, Arch::Aarch64)));
    assert!(!mac.applies_to("a", true, &linux));
}

#[test]
fn a_later_entry_overrides_an_earlier_one() {
    let linux = host(Platform::Linux, Arch::X86_64);
    let fail = TestCheckMode::Fail(TestRunMode::Link);
    let busted = TestCheckMode::Busted(TestRunMode::Run);
    let table = vec![
        entry(None, None, false, &["a", "b"], fail),
        entry(Some(Platform::Linux), None, false, &["b", "c"], busted),
        entry(Some(Platform::Windows), None, false, &["a", "b", "c", "d"], TestCheckMode::Random),
    ];
    let rules = |test: &str, host: Host| {
        let rules = apply_rules(&table, &key(test), &toolchain("rust"), &toolchain("rust"), &host);
        assert_eq!(rules.run, TestRunMode::Check);
        rules.check
    };
    assert_eq!(rules("a", linux), fail);
    assert_eq!(rules("b", linux), busted);
    assert_eq!(rules("c", linux), busted);
    assert_eq!(rules("d", linux), TestCheckMode::Pass(TestRunMode::Check));
    for test in ["a", "b", "c", "d"] {
        assert_eq!(rules(test, host(Platform::Windows, Arch::X86_64)), TestCheckMode::Random);
    }
    assert_eq!(rules("b", host(Platform::MacOS, Arch::X86_64)), fail);
    let none = apply_rules(&vec![], &key("a"), &toolchain("c"), &toolchain("c"), &linux);
    assert_eq!(none, default_rules());
}

#[test]
fn the_builtin_table_is_what_is_built_in() {
    let table = builtin_rules();
    for platform in [Platform::Windows, Platform::Linux, Platform::MacOS, Platform::Other] {
        for arch in [Arch::X86_64, Arch::Aarch64, Arch::Other] {
            for test in ["i128", "u128", "f16", "EmptyStruct", "EmptyStructInside", "structs", ""] {
                for (caller, callee) in [("c", "c"), ("c", "rust"), ("rust", "c"), ("rust", "rust")] {
                    let host = host(platform, arch);
                    assert_eq!(
                        apply_rules(&table, &key(test), &toolchain(caller), &toolchain(callee), &host),
                        rules_of(test, caller, callee, host)
                    );
                }
            }
        }
    }
}

#[test]
fn a_busted_build_that_fails_is_busted_and_is_never_checked() {
    let rules =
        TestRules { run: TestRunMode::Check, check: TestCheckMode::Busted(TestRunMode::Build) };
    let results = run_until("EmptyStruct", rules, TestRunMode::Build, all_pass());
    assert_eq!(results.ran_to, TestRunMode::Build);
    assert!(results.build.as_ref().unwrap().is_err());
    assert!(results.link.is_none());
    assert!(results.run.is_none());
    assert!(results.check.is_none());
    assert_eq!(results.next(), None);
    assert_eq!(report_test(results).conclusion, TestConclusion::Busted);
}

#[test]
fn a_busted_test_that_builds_has_failed() {
    let rules =
        TestRules { run: TestRunMode::Check, check: TestCheckMode::Busted(TestRunMode::Build) };
    assert_eq!(conclude(rules, TestRunMode::Skip, all_pass()), TestConclusion::Failed);
    assert_eq!(conclude(rules, TestRunMode::Link, all_pass()), TestConclusion::Failed);
    // it must fail at that phase, not before it
    assert_eq!(conclude(rules, TestRunMode::Generate, all_pass()), TestConclusion::Failed);
}

#[test]
fn checks_that_do_not_all_pass_fail_the_test() {
    assert_eq!(conclude(default_rules(), TestRunMode::Skip, some_fail()), TestConclusion::Failed);
    assert_eq!(conclude(default_rules(), TestRunMode::Skip, all_pass()), TestConclusion::Passed);
    // the flag decides, not the list
    let flagged = CheckOutput { all_passed: false, ..all_pass() };
    assert_eq!(conclude(default_rules(), TestRunMode::Skip, flagged), TestConclusion::Failed);
}

#[test]
fn passing_up_to_a_phase_asks_nothing_of_later_phases() {
    for (at, must_pass) in PHASES.into_iter().enumerate() {
        for (stop_at, stop) in PHASES.into_iter().enumerate() {
            let rules = TestRules { run: TestRunMode::Check, check: TestCheckMode::Pass(must_pass) };
            // a failure at `stop` lets the phases before it succeed
            let expected = if stop == TestRunMode::Skip || at < stop_at {
                TestConclusion::Passed
            } else {
                TestConclusion::Failed
            };
            if stop == TestRunMode::Check {
                assert_eq!(
                    conclude(rules, TestRunMode::Skip, some_fail()),
                    if must_pass == TestRunMode::Check {
                        TestConclusion::Failed
                    } else {
                        TestConclusion::Passed
                    }
                );
            } else {
                assert_eq!(conclude(rules, stop, all_pass()), expected, "{must_pass:?} {stop:?}");
            }
        }
    }
}

#[test]
fn failing_at_a_phase_means_failing_there() {
    for must_fail in PHASES {
        for stop in PHASES {
            for (mode, met) in [
                (TestCheckMode::Fail(must_fail), TestConclusion::Passed),
                (TestCheckMode::Busted(must_fail), TestConclusion::Busted),
            ] {
                let rules = TestRules { run: TestRunMode::Check, check: mode };
                let output = if stop == TestRunMode::Check { some_fail() } else { all_pass() };
                // skipping is no phase to fail at
                let expected = if must_fail != TestRunMode::Skip && must_fail == stop {
                    met
                } else {
                    TestConclusion::Failed
                };
                assert_eq!(conclude(rules, stop, output), expected, "{mode:?} {stop:?}");
            }
        }
    }
}

#[test]
fn a_test_that_is_not_to_be_run_is_skipped() {
    for check in [
        TestCheckMode::Pass(TestRunMode::Check),
        TestCheckMode::Fail(TestRunMode::Build),
        TestCheckMode::Busted(TestRunMode::Run),
        TestCheckMode::Random,
    ] {
        let rules = TestRules { run: TestRunMode::Skip, check };
        let results = run_until("t", rules, TestRunMode::Skip, all_pass());
        assert_eq!(results.ran_to, TestRunMode::Skip);
        assert!(results.source.is_none());
        assert_eq!(report_test(results).conclusion, TestConclusion::Skipped);
    }
}

#[test]
fn a_generation_that_skips_is_no_failure() {
    for check in [
        TestCheckMode::Pass(TestRunMode::Check),
        TestCheckMode::Pass(TestRunMode::Generate),
        TestCheckMode::Fail(TestRunMode::Generate),
        TestCheckMode::Busted(TestRunMode::Generate),
        TestCheckMode::Random,
    ] {
        let mut results = TestRunResults::new(key("t"), TestRules { run: TestRunMode::Check, check });
        assert_eq!(results.next(), Some(TestRunMode::Generate));
        results.record_generate(Err(GenerateError::Skipped));
        assert_eq!(results.next(), None);
        assert_eq!(report_test(results).conclusion, TestConclusion::Skipped);
    }
}

#[test]
fn the_run_stops_at_the_ceiling() {
    for (at, ceiling) in PHASES.into_iter().enumerate() {
        let rules = TestRules { run: ceiling, check: TestCheckMode::Pass(ceiling) };
        let results = run_until("t", rules, TestRunMode::Skip, all_pass());
        assert_eq!(results.ran_to, ceiling);
        assert_eq!(results.source.is_some(), at >= 1);
        assert_eq!(results.build.is_some(), at >= 2);
        assert_eq!(results.link.is_some(), at >= 3);
        assert_eq!(results.run.is_some(), at >= 4);
        assert_eq!(results.check.is_some(), at >= 5);
        let expected =
            if ceiling == TestRunMode::Skip { TestConclusion::Skipped } else { TestConclusion::Passed };
        assert_eq!(report_test(results).conclusion, expected);
    }
}

#[test]
fn a_ceiling_below_the_expectation_fails_the_test() {
    let rules = TestRules { run: TestRunMode::Build, check: TestCheckMode::Pass(TestRunMode::Check) };
    assert_eq!(conclude(rules, TestRunMode::Skip, all_pass()), TestConclusion::Failed);
}

#[test]
fn the_run_stops_at_the_first_failure() {
    for (at, stop) in PHASES.into_iter().enumerate().skip(1).take(4) {
        let results = run_until("t", default_rules(), stop, all_pass());
        assert_eq!(results.ran_to, stop);
        assert_eq!(results.next(), None);
        assert_eq!(results.source.as_ref().map(|r| r.is_ok()), Some(at > 1));
        assert_eq!(results.build.as_ref().map(|r| r.is_ok()), (at >= 2).then_some(at > 2));
        assert_eq!(results.link.as_ref().map(|r| r.is_ok()), (at >= 3).then_some(at > 3));
        assert_eq!(results.run.as_ref().map(|r| r.is_ok()), (at >= 4).then_some(at > 4));
        assert!(results.check.is_none());
    }
}

#[test]
fn phases_are_ranked_in_their_order() {
    for (at, phase) in PHASES.into_iter().enumerate() {
        assert_eq!(phase.level() as usize, at);
    }
    assert!(TestRunMode::Skip < TestRunMode::Generate);
    assert!(TestRunMode::Run < TestRunMode::Check);
    assert!(TestConclusion::Skipped < TestConclusion::Passed);
    assert!(TestConclusion::Passed < TestConclusion::Busted);
    assert!(TestConclusion::Busted < TestConclusion::Failed);
}

#[test]
fn the_key_knows_the_toolchain_of_each_side() {
    let key = key("t");
    assert_eq!(key.toolchain_id(CallSide::Caller), "rustc");
    assert_eq!(key.toolchain_id(CallSide::Callee), "cc");
    let copy = key.duplicate();
    assert_eq!((copy.test, copy.caller, copy.callee, copy.options), (key.test, key.caller, key.callee, key.options));
}

fn report_with(conclusion: TestConclusion, test: &str) -> TestReport {
    let (rules, stop, output) = match conclusion {
        TestConclusion::Skipped => {
            (TestRules { run: TestRunMode::Skip, ..default_rules() }, TestRunMode::Skip, all_pass())
        }
        TestConclusion::Passed => (default_rules(), TestRunMode::Skip, all_pass()),
        TestConclusion::Busted => (
            TestRules { run: TestRunMode::Check, check: TestCheckMode::Busted(TestRunMode::Link) },
            TestRunMode::Link,
            all_pass(),
        ),
        TestConclusion::Failed => (default_rules(), TestRunMode::Skip, some_fail()),
    };
    let report = report_test(run_until(test, rules, stop, output));
    assert_eq!(report.conclusion, conclusion);
    report
}

fn mixed_report() -> FullReport {
    FullReport::new(
        TestConfig {},
        vec![
            report_with(TestConclusion::Failed, "f1"),
            report_with(TestConclusion::Passed, "p1"),
            report_with(TestConclusion::Skipped, "s1"),
            report_with(TestConclusion::Busted, "b1"),
            report_with(TestConclusion::Passed, "p2"),
            report_with(TestConclusion::Skipped, "s2"),
            report_with(TestConclusion::Skipped, "s3"),
        ],
    )
}

#[test]
fn the_summary_counts_each_conclusion() {
    let report = mixed_report();
    assert_eq!(
        report.summary,
        TestSummary { num_tests: 7, num_passed: 2, num_busted: 1, num_failed: 1, num_skipped: 3 }
    );
    assert!(report.failed());
    assert_eq!(report.tests.len(), 7);
    let empty = FullReport::new(TestConfig {}, vec![]);
    assert_eq!(
        empty.summary,
        TestSummary { num_tests: 0, num_passed: 0, num_busted: 0, num_failed: 0, num_skipped: 0 }
    );
    assert!(!empty.failed());
    let fine = FullReport::new(TestConfig {}, vec![report_with(TestConclusion::Busted, "b")]);
    assert!(!fine.failed());
    assert_eq!(TestSummary::of(&fine.tests), fine.summary);
}

fn harness() -> TestHarness {
    TestHarness::new("generated".to_string())
}

fn name(test: &str) -> String {
    format!("{test}::conv_c::graffiti::rustc_calls_cc")
}

#[derive(Debug, PartialEq)]
enum Event {
    SuiteStarted(u64),
    TestStarted(String),
    TestFinished(String, bool, Option<String>),
    SuiteFinished(bool, [u64; 5]),
}

fn events(report: &FullReport) -> Vec<Event> {
    report
        .print_rustc_json(&harness())
        .into_iter()
        .map(|event| {
            let (kind, what) = (event.kind(), event.event());
            match event {
                RustcEvent::SuiteStarted { test_count } => {
                    assert_eq!((kind, what), ("suite", "started"));
                    Event::SuiteStarted(test_count)
                }
                RustcEvent::TestStarted { name } => {
                    assert_eq!((kind, what), ("test", "started"));
                    Event::TestStarted(name)
                }
                RustcEvent::TestFinished { name, ok, stdout } => {
                    assert_eq!((kind, what), ("test", if ok { "ok" } else { "failed" }));
                    Event::TestFinished(name, ok, stdout)
                }
                RustcEvent::SuiteFinished { ok, passed, failed, ignored, measured, filtered_out } => {
                    assert_eq!((kind, what), ("suite", if ok { "ok" } else { "failed" }));
                    Event::SuiteFinished(ok, [passed, failed, ignored, measured, filtered_out])
                }
            }
        })
        .collect()
}

#[test]
fn the_event_stream_brackets_each_test_that_ran() {
    let started = |test: &str| Event::TestStarted(name(test));
    let ok = |test: &str| Event::TestFinished(name(test), true, None);
    assert_eq!(
        events(&mixed_report()),
        vec![
            Event::SuiteStarted(4),
            started("f1"),
            Event::TestFinished(name("f1"), false, Some("FIXME fill this message in".to_string())),
            started("p1"),
            ok("p1"),
            started("b1"),
            ok("b1"),
            started("p2"),
            ok("p2"),
            Event::SuiteFinished(false, [3, 1, 0, 0, 3]),
        ]
    );
}

#[test]
fn the_event_stream_takes_the_counts_as_they_are() {
    // counts that do not add up, as long as the two sums can be taken
    let mut report = mixed_report();
    report.summary =
        TestSummary { num_tests: 10, num_passed: 4, num_busted: u64::MAX - 4, num_failed: 0, num_skipped: 10 };
    let all = events(&report);
    assert_eq!(all[0], Event::SuiteStarted(0));
    assert_eq!(all.len(), 10);
    assert_eq!(all[9], Event::SuiteFinished(true, [u64::MAX, 0, 0, 0, 10]));
}

#[test]
fn the_event_stream_of_no_tests_is_a_suite_that_went_well() {
    let empty = FullReport::new(TestConfig {}, vec![]);
    assert_eq!(
        events(&empty),
        vec![Event::SuiteStarted(0), Event::SuiteFinished(true, [0, 0, 0, 0, 0])]
    );
    let skipped = FullReport::new(TestConfig {}, vec![report_with(TestConclusion::Skipped, "s")]);
    assert_eq!(
        events(&skipped),
        vec![Event::SuiteStarted(0), Event::SuiteFinished(true, [0, 0, 0, 0, 1])]
    );
}

fn pieces(report: &FullReport) -> Vec<(Paint, String)> {
    report.human_report(&harness()).into_iter().map(|span| (span.paint, span.text)).collect()
}

fn plain(text: &str) -> (Paint, String) {
    (Paint::Plain, text.to_string())
}

fn heading(test: &str) -> (Paint, String) {
    (Paint::Plain, format!("{:<64} ", name(test)))
}

#[test]
fn the_report_lists_passed_then_busted_then_failed() {
    let report = mixed_report();
    assert_eq!(
        pieces(&report),
        vec![
            plain("Final Results:\n"),
            heading("p1"),
            plain("passed"),
            plain(" (  2/2   passed)\n"),
            heading("p2"),
            plain("passed"),
            plain(" (  2/2   passed)\n"),
            heading("b1"),
            (Paint::Blue, "busted (known failure, ignored)".to_string()),
            plain("\n"),
            heading("f1"),
            (Paint::Red, "failed".to_string()),
            plain(" (  2/3   passed)\n"),
            plain("  first         \n"),
            plain("  second_longer "),
            (Paint::Red, "failed!".to_string()),
            plain("\n"),
            (Paint::Red, "expected 1, got 2".to_string()),
            plain("\n"),
            plain("  third         \n"),
            plain("\n"),
            plain("\n"),
            (
                Paint::Red,
                "7 test sets run - 2 passed, 1 busted, 1 failed, 3 skipped".to_string()
            ),
            plain("\n"),
        ]
    );
}

#[test]
fn the_report_as_text_is_coloured_where_colours_are_on() {
    let report = FullReport::new(
        TestConfig {},
        vec![report_with(TestConclusion::Busted, "b1"), report_with(TestConclusion::Passed, "p1")],
    );
    let spans = vec![
        Span { paint: Paint::Plain, text: "a".to_string() },
        Span { paint: Paint::Red, text: "b".to_string() },
        Span { paint: Paint::Green, text: "c".to_string() },
        Span { paint: Paint::Blue, text: "d".to_string() },
        Span { paint: Paint::Red, text: String::new() },
    ];

    console::set_colors_enabled(false);
    assert_eq!(
        report.print_human(&harness()),
        format!(
            "Final Results:\n{:<64} passed (  2/2   passed)\n{:<64} busted (known failure, ignored)\n\n2 test sets run - 1 passed, 1 busted, 0 failed, 0 skipped\n",
            name("p1"),
            name("b1")
        )
    );
    assert_eq!(paint_spans(&spans), "abcd");
    assert_eq!(paint_spans(&Vec::new()), "");

    console::set_colors_enabled(true);
    assert_eq!(
        report.print_human(&harness()),
        format!(
            "Final Results:\n{:<64} passed (  2/2   passed)\n{:<64} \x1b[34mbusted (known failure, ignored)\x1b[0m\n\n\x1b[34m2 test sets run - 1 passed, 1 busted, 0 failed, 0 skipped\x1b[0m\n",
            name("p1"),
            name("b1")
        )
    );
    assert_eq!(
        paint_spans(&spans),
        "a\x1b[31mb\x1b[0m\x1b[32mc\x1b[0m\x1b[34md\x1b[0m\x1b[31m\x1b[0m"
    );
    console::set_colors_enabled(false);
}

#[test]
fn the_summary_is_green_when_all_went_well() {
    let report = FullReport::new(TestConfig {}, vec![report_with(TestConclusion::Passed, "p")]);
    let last = pieces(&report);
    assert_eq!(
        last[last.len() - 2],
        (Paint::Green, "1 test sets run - 1 passed, 0 busted, 0 failed, 0 skipped".to_string())
    );
    let report = FullReport::new(TestConfig {}, vec![report_with(TestConclusion::Busted, "b")]);
    let last = pieces(&report);
    assert_eq!(
        last[last.len() - 2],
        (Paint::Blue, "1 test sets run - 0 passed, 1 busted, 0 failed, 0 skipped".to_string())
    );
    let empty = FullReport::new(TestConfig {}, vec![]);
    assert_eq!(
        pieces(&empty),
        vec![
            plain("Final Results:\n"),
            plain("\n"),
            (Paint::Green, "0 test sets run - 0 passed, 0 busted, 0 failed, 0 skipped".to_string()),
            plain("\n"),
        ]
    );
}

fn status_of(rules: TestRules, stop: TestRunMode, output: CheckOutput) -> Vec<(Paint, String)> {
    let report = FullReport::new(TestConfig {}, vec![report_test(run_until("t", rules, stop, output))]);
    let all = pieces(&report);
    if report.tests[0].conclusion == TestConclusion::Skipped {
        assert_eq!(all.len(), 4);
        return vec![];
    }
    assert_eq!(all[0], plain("Final Results:\n"));
    assert_eq!(all[1], heading("t"));
    all[2..all.len() - 3].to_vec()
}

#[test]
fn a_failure_before_the_checks_names_the_phase_and_the_error() {
    let red = |text: &str| (Paint::Red, text.to_string());
    let cases = [
        (TestRunMode::Generate, "generate source code", "io error\ndisk full"),
        (TestRunMode::Build, "compile source code", "syntax error"),
        (TestRunMode::Link, "link both sides together", "undefined symbol"),
        (TestRunMode::Run, "run the program", "segfault"),
    ];
    for (stop, attempt, error) in cases {
        assert_eq!(
            status_of(default_rules(), stop, all_pass()),
            vec![
                red("failed"),
                red(" to "),
                red(attempt),
                plain("\n  "),
                red(error),
                plain("\n"),
                plain("\n"),
            ]
        );
    }
}

#[test]
fn a_failure_without_an_error_reports_an_empty_one() {
    // the rules cut the run short of what they expect
    let rules = TestRules { run: TestRunMode::Build, check: TestCheckMode::Pass(TestRunMode::Check) };
    assert_eq!(
        status_of(rules, TestRunMode::Skip, all_pass()),
        vec![
            (Paint::Red, "failed".to_string()),
            (Paint::Red, " to ".to_string()),
            (Paint::Red, "compile source code".to_string()),
            plain("\n  "),
            (Paint::Red, String::new()),
            plain("\n"),
            plain("\n"),
        ]
    );
}

#[test]
fn each_outcome_has_its_words() {
    let pass = |phase| TestRules { run: TestRunMode::Check, check: TestCheckMode::Pass(phase) };
    let fail = |phase| TestRules { run: TestRunMode::Check, check: TestCheckMode::Fail(phase) };
    let busted = |phase| TestRules { run: TestRunMode::Check, check: TestCheckMode::Busted(phase) };
    let random = TestRules { run: TestRunMode::Check, check: TestCheckMode::Random };
    let tally = plain(" (  2/2   passed)\n");
    let text = |paint, text: &str| (paint, text.to_string());
    assert_eq!(
        status_of(pass(TestRunMode::Check), TestRunMode::Skip, all_pass()),
        vec![plain("passed"), tally.clone()]
    );
    assert_eq!(
        status_of(random, TestRunMode::Skip, all_pass()),
        vec![plain("passed (random, result ignored)"), tally.clone()]
    );
    assert_eq!(
        status_of(random, TestRunMode::Link, all_pass()),
        vec![plain("passed (random, result ignored)"), plain("\n")]
    );
    assert_eq!(
        status_of(fail(TestRunMode::Run), TestRunMode::Run, all_pass()),
        vec![plain("passed (failed as expected)"), plain("\n")]
    );
    assert_eq!(
        status_of(fail(TestRunMode::Run), TestRunMode::Skip, all_pass()),
        vec![text(Paint::Red, "failed (passed unexpectedly!)"), tally.clone()]
    );
    assert_eq!(
        status_of(busted(TestRunMode::Run), TestRunMode::Skip, all_pass()),
        vec![text(Paint::Green, "fixed (test was busted, congrats!)"), tally.clone()]
    );
    assert_eq!(
        status_of(busted(TestRunMode::Generate), TestRunMode::Generate, all_pass()),
        vec![text(Paint::Blue, "busted (known failure, ignored)"), plain("\n")]
    );
    assert_eq!(
        status_of(TestRules { run: TestRunMode::Skip, check: TestCheckMode::Random }, TestRunMode::Skip, all_pass()),
        vec![]
    );
}

#[test]
fn results_made_by_hand_are_graded_and_reported_too() {
    // a conclusion and rules that grading never pairs
    let mut report = report_with(TestConclusion::Passed, "t");
    report.rules.check = TestCheckMode::Busted(TestRunMode::Build);
    let mut odd = report_with(TestConclusion::Failed, "t");
    odd.rules.check = TestCheckMode::Random;
    // checks that were made and not kept
    let mut lost = run_until("t", default_rules(), TestRunMode::Skip, all_pass());
    lost.check = None;
    let lost = report_test(lost);
    assert_eq!(lost.conclusion, TestConclusion::Failed);
    let full = FullReport::new(TestConfig {}, vec![report, odd, lost]);
    let all = pieces(&full);
    assert_eq!(all[2], (Paint::Blue, "busted (known failure, ignored)".to_string()));
    assert_eq!(all[5], (Paint::Red, "failed!? (failed but random!?)".to_string()));
    assert_eq!(all[all.len() - 5], (Paint::Red, "failed".to_string()));
    assert_eq!(all[all.len() - 4], plain("\n"));
}

#[test]
fn names_wider_than_the_column_are_not_cut() {
    let long = "x".repeat(70);
    let report = FullReport::new(TestConfig {}, vec![report_with(TestConclusion::Passed, &long)]);
    assert_eq!(pieces(&report)[1], plain(&format!("{} ", name(&long))));
}

#[test]
fn subtests_are_counted_in_three_columns() {
    let many: Vec<(String, Option<&str>)> =
        (0..1234).map(|i| (format!("s{i}"), if i % 2 == 0 { None } else { Some("odd") })).collect();
    let many: Vec<(&str, Option<&str>)> = many.iter().map(|(n, f)| (n.as_str(), *f)).collect();
    let all = status_of(default_rules(), TestRunMode::Skip, checks(&many));
    assert_eq!(all[1], plain(" (617/1234 passed)\n"));
    let none = status_of(default_rules(), TestRunMode::Skip, checks(&[]));
    assert_eq!(none, vec![plain("passed"), plain(" (  0/0   passed)\n")]);
    // names are padded to the longest name's length in bytes
    let wide = status_of(default_rules(), TestRunMode::Skip, checks(&[("é", Some("no")), ("ab", None)]));
    assert_eq!(wide[2], plain("  é  "));
    assert_eq!(wide[7], plain("  ab \n"));
}

#[test]
fn subtests_without_a_result_are_not_listed() {
    let mut output = some_fail();
    output.subtest_checks.truncate(1);
    let all = status_of(default_rules(), TestRunMode::Skip, output);
    assert_eq!(
        all,
        vec![
            (Paint::Red, "failed".to_string()),
            plain(" (  1/1   passed)\n"),
            plain("  first         \n"),
            plain("\n"),
        ]
    );
}
