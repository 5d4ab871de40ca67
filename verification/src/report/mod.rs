//! What is expected of a test, what was seen of it, and what to conclude.

pub mod events;
pub mod human;

use crate::abis::{Arch, Host, Platform};
use crate::error::{
    BuildError, CheckFailure, GenerateError, GenerateErrorView, LinkError, RunError,
};
use crate::harness::test::{CallSide, TestOptions};
use crate::text::{str_eq, texts_of};
use crate::toolchains::Toolchain;
use vstd::prelude::*;
use vstd::string::*;

verus! {

/// The name of a test.
pub type TestId = String;

/// The name of a toolchain.
pub type ToolchainId = String;

/// One test as it is run: which test, built by which toolchain on either side
/// of the call, with which options.
#[derive(Debug, Clone)]
pub struct TestKey {
    pub test: TestId,
    pub caller: ToolchainId,
    pub callee: ToolchainId,
    pub options: TestOptions,
}

impl TestKey {
    /// The toolchain that builds the given side of the call.
    pub fn toolchain_id(&self, call_side: CallSide) -> (id: &str)
        ensures
            id@ == (match call_side {
                CallSide::Caller => self.caller@,
                CallSide::Callee => self.callee@,
            }),
    {
        match call_side {
            CallSide::Caller => self.caller.as_str(),
            CallSide::Callee => self.callee.as_str(),
        }
    }

    /// A copy of this key.
    pub fn duplicate(&self) -> (copy: TestKey)
        ensures
            copy == *self,
    {
        TestKey {
            test: self.test.clone(),
            caller: self.caller.clone(),
            callee: self.callee.clone(),
            options: self.options,
        }
    }
}

/// How far the test should be executed.
///
/// Each case implies all the previous cases.
#[derive(Debug, Clone, Copy, PartialEq, Eq, Structural, PartialOrd, Ord, Hash)]
pub enum TestRunMode {
    /// Don't run the test at all (marked as skipped)
    Skip,
    /// Just generate the source
    Generate,
    /// Just build the source
    Build,
    /// Just link the source
    Link,
    /// Run the tests, but don't check the results
    Run,
    /// Run the tests, and check the results
    Check,
}

impl TestRunMode {
    /// The place of the phase in the pipeline, counted from `Skip` as zero.
    pub open spec fn rank(self) -> nat {
        match self {
            TestRunMode::Skip => 0,
            TestRunMode::Generate => 1,
            TestRunMode::Build => 2,
            TestRunMode::Link => 3,
            TestRunMode::Run => 4,
            TestRunMode::Check => 5,
        }
    }

    /// The place of the phase in the pipeline, counted from `Skip` as zero.
    pub fn level(&self) -> (level: u8)
        ensures
            level == self.rank(),
    {
        match self {
            TestRunMode::Skip => 0,
            TestRunMode::Generate => 1,
            TestRunMode::Build => 2,
            TestRunMode::Link => 3,
            TestRunMode::Run => 4,
            TestRunMode::Check => 5,
        }
    }
}

/// To what level of correctness should the test be graded?
///
/// Tests that are Skipped ignore this.
#[derive(Debug, Clone, Copy, PartialEq, Eq, Structural, PartialOrd, Ord, Hash)]
pub enum TestCheckMode {
    /// The test must successfully complete this phase,
    /// whatever happens after that is gravy.
    Pass(TestRunMode),
    /// The test must fail at this exact phase.
    Fail(TestRunMode),
    /// Same as Fail, but indicates this is a bug/flaw that should eventually
    /// be fixed, and not the desired result.
    Busted(TestRunMode),
    /// The test is flakey and random but we want to run it anyway,
    /// so accept whatever result we get as ok.
    Random,
}

/// What is expected of a test: how far to run it and what must come of it.
#[derive(Debug, Clone, Copy, PartialEq, Eq, Structural, Hash)]
pub struct TestRules {
    pub run: TestRunMode,
    pub check: TestCheckMode,
}

/// One entry of the table of expectations: where it applies, and what is
/// expected there.
#[derive(Debug, Clone)]
pub struct RuleOverride {
    /// The platform it is for; any, if none is given.
    pub platform: Option<Platform>,
    /// The architecture it is for; any, if none is given.
    pub arch: Option<Arch>,
    /// Whether it is for tests with a side written in C only.
    pub only_with_c: bool,
    /// The tests it is for.
    pub tests: Vec<String>,
    /// What is expected of these tests.
    pub check: TestCheckMode,
}

impl RuleOverride {
    /// Whether the entry is for the test named `test`.
    pub open spec fn names(&self, test: Seq<char>) -> bool {
        exists|i: int| 0 <= i < self.tests@.len() && (#[trigger] self.tests@[i])@ == test
    }

    /// Whether the entry applies to the test named `test` on `host`, where
    /// `is_c` says whether one of its sides is written in C.
    pub open spec fn applies(&self, test: Seq<char>, is_c: bool, host: Host) -> bool {
        &&& self.platform is Some ==> self.platform == Some(host.platform)
        &&& self.arch is Some ==> self.arch == Some(host.arch)
        &&& self.only_with_c ==> is_c
        &&& self.names(test)
    }

    /// Whether the entry applies to the test named `test` on `host`.
    pub fn applies_to(&self, test: &str, is_c: bool, host: &Host) -> (yes: bool)
        ensures
            yes == self.applies(test@, is_c, *host),
    {
        let platform = match self.platform {
            Some(platform) => platform == host.platform,
            None => true,
        };
        let arch = match self.arch {
            Some(arch) => arch == host.arch,
            None => true,
        };
        if !platform || !arch || (self.only_with_c && !is_c) {
            return false;
        }
        let mut i: usize = 0;
        while i < self.tests.len()
            invariant
                i <= self.tests.len(),
                self.platform is Some ==> self.platform == Some(host.platform),
                self.arch is Some ==> self.arch == Some(host.arch),
                self.only_with_c ==> is_c,
                forall|j: int| 0 <= j < i ==> (#[trigger] self.tests@[j])@ != test@,
            decreases self.tests.len() - i,
        {
            if str_eq(self.tests[i].as_str(), test) {
                assert(self.tests@[i as int]@ == test@);
                return true;
            }
            i = i + 1;
        }
        false
    }
}

/// What the first `count` entries of `table` expect of the test named `test`:
/// what the last of them that applies expects, and where none applies, that
/// the test passes its checks.
pub open spec fn expected(
    table: Seq<RuleOverride>,
    test: Seq<char>,
    is_c: bool,
    host: Host,
    count: nat,
) -> TestCheckMode
    decreases count,
{
    if count == 0 {
        TestCheckMode::Pass(TestRunMode::Check)
    } else if table[count - 1].applies(test, is_c, host) {
        table[count - 1].check
    } else {
        expected(table, test, is_c, host, (count - 1) as nat)
    }
}

/// A later entry overrides the earlier ones: where the last entry applies,
/// the table expects what it expects.
pub proof fn lemma_last_entry_wins(
    table: Seq<RuleOverride>,
    test: Seq<char>,
    is_c: bool,
    host: Host,
)
    requires
        table.len() > 0,
        table.last().applies(test, is_c, host),
    ensures
        expected(table, test, is_c, host, table.len()) == table.last().check,
{
}

/// Where no entry applies, the test is expected to pass its checks.
pub proof fn lemma_default_expectation(
    table: Seq<RuleOverride>,
    test: Seq<char>,
    is_c: bool,
    host: Host,
    count: nat,
)
    requires
        count <= table.len(),
        forall|i: int| 0 <= i < count ==> !(#[trigger] table[i]).applies(test, is_c, host),
    ensures
        expected(table, test, is_c, host, count) == TestCheckMode::Pass(TestRunMode::Check),
    decreases count,
{
    if count > 0 {
        lemma_default_expectation(table, test, is_c, host, (count - 1) as nat);
    }
}

/// The expectations that `table` holds for a test: every test is run through
/// all its phases, and graded as the table says.
pub fn apply_rules(
    table: &Vec<RuleOverride>,
    test: &TestKey,
    caller: &Toolchain,
    callee: &Toolchain,
    host: &Host,
) -> (rules: TestRules)
    ensures
        rules.run == TestRunMode::Check,
        rules.check == expected(
            table@,
            test.test@,
            caller.lang@ == "c"@ || callee.lang@ == "c"@,
            *host,
            table@.len(),
        ),
{
    // By default, require tests to run completely and pass
    let mut result = TestRules {
        run: TestRunMode::Check,
        check: TestCheckMode::Pass(TestRunMode::Check),
    };
    let is_c = str_eq(caller.lang(), "c") || str_eq(callee.lang(), "c");
    // Now apply specific custom expectations for platforms/suites
    let mut i: usize = 0;
    while i < table.len()
        invariant
            i <= table.len(),
            is_c == (caller.lang@ == "c"@ || callee.lang@ == "c"@),
            result.run == TestRunMode::Check,
            result.check == expected(table@, test.test@, is_c, *host, i as nat),
        decreases table.len() - i,
    {
        if table[i].applies_to(test.test.as_str(), is_c, host) {
            result.check = table[i].check;
        }
        i = i + 1;
    }
    result
}

/// Whether `table` is the table of the expectations that are built in.
///
/// 128-bit integers have no settled layout on Windows, so their result is
/// taken as it comes. So is that of `f16` with C on x86-64 Linux, whose
/// compilers may lack the type. The empty structs are known not to build with
/// C on Windows.
pub open spec fn is_builtin_table(table: Seq<RuleOverride>) -> bool {
    &&& table.len() == 3
    &&& table[0].platform == Some(Platform::Windows)
    &&& table[0].arch is None
    &&& !table[0].only_with_c
    &&& texts_of(table[0].tests@) == seq!["i128"@, "u128"@]
    &&& table[0].check == TestCheckMode::Random
    &&& table[1].platform == Some(Platform::Linux)
    &&& table[1].arch == Some(Arch::X86_64)
    &&& table[1].only_with_c
    &&& texts_of(table[1].tests@) == seq!["f16"@]
    &&& table[1].check == TestCheckMode::Random
    &&& table[2].platform == Some(Platform::Windows)
    &&& table[2].arch is None
    &&& table[2].only_with_c
    &&& texts_of(table[2].tests@) == seq!["EmptyStruct"@, "EmptyStructInside"@]
    &&& table[2].check == TestCheckMode::Busted(TestRunMode::Build)
}

/// The table of the expectations that are built in. New expectations go
/// here, behind the ones they are to override.
pub fn builtin_rules() -> (table: Vec<RuleOverride>)
    ensures
        is_builtin_table(table@),
{
    let mut table: Vec<RuleOverride> = Vec::new();

    // i128 types are fake on windows so this is all random garbage that might
    // not even compile, but that datapoint is a little interesting/useful
    // so let's keep running them and just ignore the result for now.
    let mut wide: Vec<String> = Vec::new();
    wide.push(String::from_str("i128"));
    wide.push(String::from_str("u128"));
    assert(texts_of(wide@) =~= seq!["i128"@, "u128"@]);
    table.push(
        RuleOverride {
            platform: Some(Platform::Windows),
            arch: None,
            only_with_c: false,
            tests: wide,
            check: TestCheckMode::Random,
        },
    );

    // Older GCC releases have no `_Float16`.
    let mut half: Vec<String> = Vec::new();
    half.push(String::from_str("f16"));
    assert(texts_of(half@) =~= seq!["f16"@]);
    table.push(
        RuleOverride {
            platform: Some(Platform::Linux),
            arch: Some(Arch::X86_64),
            only_with_c: true,
            tests: half,
            check: TestCheckMode::Random,
        },
    );

    // The empty structs are known not to build here.
    let mut empty: Vec<String> = Vec::new();
    empty.push(String::from_str("EmptyStruct"));
    empty.push(String::from_str("EmptyStructInside"));
    assert(texts_of(empty@) =~= seq!["EmptyStruct"@, "EmptyStructInside"@]);
    table.push(
        RuleOverride {
            platform: Some(Platform::Windows),
            arch: None,
            only_with_c: true,
            tests: empty,
            check: TestCheckMode::Busted(TestRunMode::Build),
        },
    );
    table
}

/// The expectations for the test named `test`, where `is_c` says whether one
/// of the two sides is written in C.
///
/// By default a test runs through all phases and must pass its checks. Known
/// special cases follow, each in force where it applies, a later one over an
/// earlier one: the result of 128-bit integers on Windows is taken as it
/// comes; so is that of `f16` with C on x86-64 Linux; the empty structs are
/// expected not to build with C on Windows.
pub open spec fn test_rules(test: Seq<char>, is_c: bool, host: Host) -> TestRules {
    let windows = host.platform == Platform::Windows;
    let x64_linux = host.arch == Arch::X86_64 && host.platform == Platform::Linux;
    let first = TestCheckMode::Pass(TestRunMode::Check);
    let second = if windows && (test == "i128"@ || test == "u128"@) {
        TestCheckMode::Random
    } else {
        first
    };
    let third = if x64_linux && is_c && test == "f16"@ {
        TestCheckMode::Random
    } else {
        second
    };
    let fourth = if windows && is_c && (test == "EmptyStruct"@ || test == "EmptyStructInside"@) {
        TestCheckMode::Busted(TestRunMode::Build)
    } else {
        third
    };
    TestRules { run: TestRunMode::Check, check: fourth }
}

/// Whether one of the texts `names` is `test`.
proof fn lemma_names(entry: RuleOverride, test: Seq<char>)
    ensures
        entry.names(test) <==> texts_of(entry.tests@).contains(test),
{
    let texts = texts_of(entry.tests@);
    if entry.names(test) {
        let i = choose|i: int| 0 <= i < entry.tests@.len() && (#[trigger] entry.tests@[i])@ == test;
        assert(texts[i] == test);
    }
    if texts.contains(test) {
        let i = choose|i: int| 0 <= i < texts.len() && texts[i] == test;
        assert(entry.tests@[i]@ == test);
    }
}

/// The table that is built in expects what [`test_rules`] says.
pub proof fn lemma_builtin_table(table: Seq<RuleOverride>, test: Seq<char>, is_c: bool, host: Host)
    requires
        is_builtin_table(table),
    ensures
        expected(table, test, is_c, host, table.len()) == test_rules(test, is_c, host).check,
{
    reveal_with_fuel(expected, 4);
    lemma_names(table[0], test);
    lemma_names(table[1], test);
    lemma_names(table[2], test);
    let wide = seq!["i128"@, "u128"@];
    let half = seq!["f16"@];
    let empty = seq!["EmptyStruct"@, "EmptyStructInside"@];
    assert(wide.contains(test) <==> test == "i128"@ || test == "u128"@) by {
        assert(wide[0] == "i128"@);
        assert(wide[1] == "u128"@);
    }
    assert(half.contains(test) <==> test == "f16"@) by {
        assert(half[0] == "f16"@);
    }
    assert(empty.contains(test) <==> test == "EmptyStruct"@ || test == "EmptyStructInside"@) by {
        assert(empty[0] == "EmptyStruct"@);
        assert(empty[1] == "EmptyStructInside"@);
    }
}

/// These are the builtin test-expectations, edit these if there are new rules!
pub fn get_test_rules(test: &TestKey, caller: &Toolchain, callee: &Toolchain, host: &Host) -> (rules:
    TestRules)
    ensures
        rules == test_rules(test.test@, caller.lang@ == "c"@ || callee.lang@ == "c"@, *host),
{
    let table = builtin_rules();
    proof {
        lemma_builtin_table(
            table@,
            test.test@,
            caller.lang@ == "c"@ || callee.lang@ == "c"@,
            *host,
        );
    }
    apply_rules(&table, test, caller, callee, host)
}

/// The bytes that one side of a test saw: for each function, for each of its
/// values, the value's bytes.
#[derive(Debug, Clone)]
pub struct TestBuffer {
    pub funcs: Vec<Vec<Vec<u8>>>,
}

/// The two source files of a test.
#[derive(Debug, Clone)]
pub struct GenerateOutput {
    pub caller_src: String,
    pub callee_src: String,
}

/// The two libraries built from the sources.
#[derive(Debug, Clone)]
pub struct BuildOutput {
    pub caller_lib: String,
    pub callee_lib: String,
}

/// The program linked from the two libraries.
#[derive(Debug, Clone)]
pub struct LinkOutput {
    pub test_bin: String,
}

/// What the two sides reported when the program ran.
#[derive(Debug, Clone)]
pub struct RunOutput {
    pub caller_funcs: TestBuffer,
    pub callee_funcs: TestBuffer,
}

/// The comparison of what the two sides reported, subtest by subtest.
#[derive(Debug, Clone)]
pub struct CheckOutput {
    pub all_passed: bool,
    pub subtest_names: Vec<String>,
    pub subtest_checks: Vec<Result<(), CheckFailure>>,
}

/// What became of a test.
#[derive(Debug, Copy, Clone, PartialEq, Eq, Structural, PartialOrd, Ord, Hash)]
pub enum TestConclusion {
    Skipped,
    Passed,
    Busted,
    Failed,
}

/// What was seen of one test: the outcome of each phase that was attempted.
#[derive(Debug, Clone)]
pub struct TestRunResults {
    pub key: TestKey,
    pub rules: TestRules,
    /// The last phase that was attempted.
    pub ran_to: TestRunMode,
    pub source: Option<Result<GenerateOutput, GenerateError>>,
    pub build: Option<Result<BuildOutput, BuildError>>,
    pub link: Option<Result<LinkOutput, LinkError>>,
    pub run: Option<Result<RunOutput, RunError>>,
    pub check: Option<CheckOutput>,
}

impl TestRunResults {
    /// The results of a test of which no phase has been attempted.
    pub fn new(key: TestKey, rules: TestRules) -> (results: TestRunResults)
        ensures
            results.key == key,
            results.rules == rules,
            results.ran_to == TestRunMode::Skip,
            results.source is None,
            results.build is None,
            results.link is None,
            results.run is None,
            results.check is None,
            results.wf(),
            results.next_phase() == (if rules.run == TestRunMode::Skip {
                None
            } else {
                Some(TestRunMode::Generate)
            }),
    {
        TestRunResults {
            key,
            rules,
            ran_to: TestRunMode::Skip,
            source: None,
            build: None,
            link: None,
            run: None,
            check: None,
        }
    }

    /// Whether generation gave the signal that the test does not apply.
    pub open spec fn generation_skipped(&self) -> bool {
        self.source matches Some(Err(error)) && error@ == GenerateErrorView::Skipped
    }

    /// Whether the phase was attempted and succeeded. The checks succeed where
    /// every subtest passed; nothing is asked of `Skip`.
    pub open spec fn succeeded(&self, phase: TestRunMode) -> bool {
        match phase {
            TestRunMode::Skip => true,
            TestRunMode::Generate => self.source matches Some(Ok(_)),
            TestRunMode::Build => self.build matches Some(Ok(_)),
            TestRunMode::Link => self.link matches Some(Ok(_)),
            TestRunMode::Run => self.run matches Some(Ok(_)),
            TestRunMode::Check => self.check matches Some(output) && output.all_passed,
        }
    }

    /// Whether the phase was attempted and failed. `Skip` is no phase to fail
    /// at.
    pub open spec fn failed(&self, phase: TestRunMode) -> bool {
        match phase {
            TestRunMode::Skip => false,
            TestRunMode::Generate => self.source matches Some(Err(_)),
            TestRunMode::Build => self.build matches Some(Err(_)),
            TestRunMode::Link => self.link matches Some(Err(_)),
            TestRunMode::Run => self.run matches Some(Err(_)),
            TestRunMode::Check => self.check matches Some(output) && !output.all_passed,
        }
    }

    /// Whether the phase has an outcome. `Skip` has one from the start.
    pub open spec fn attempted(&self, phase: TestRunMode) -> bool {
        match phase {
            TestRunMode::Skip => true,
            TestRunMode::Generate => self.source is Some,
            TestRunMode::Build => self.build is Some,
            TestRunMode::Link => self.link is Some,
            TestRunMode::Run => self.run is Some,
            TestRunMode::Check => self.check is Some,
        }
    }

    /// Whether the test met its expectation: it got through the phase it must
    /// pass, or it failed at the phase it must fail at. A phase that was not
    /// attempted is neither passed nor failed at. Where the result is taken as
    /// it comes, every result meets the expectation.
    pub open spec fn met_expectation(&self) -> bool {
        match self.rules.check {
            TestCheckMode::Pass(must_pass) => self.succeeded(must_pass),
            TestCheckMode::Fail(must_fail) | TestCheckMode::Busted(must_fail) => self.failed(
                must_fail,
            ),
            TestCheckMode::Random => true,
        }
    }

    /// What became of the test.
    ///
    /// A test that was not to be run, or whose generation said that it does
    /// not apply, was skipped, whatever its rules expect. Any other test is
    /// held to its expectation. One that met it has passed, or is busted where
    /// the expectation was a known defect; one that did not has failed.
    pub open spec fn conclusion(&self) -> TestConclusion {
        if self.rules.run == TestRunMode::Skip {
            TestConclusion::Skipped
        } else if self.generation_skipped() {
            TestConclusion::Skipped
        } else if !self.met_expectation() {
            TestConclusion::Failed
        } else if self.rules.check is Busted {
            TestConclusion::Busted
        } else {
            TestConclusion::Passed
        }
    }

    fn phase_succeeded(&self, phase: TestRunMode) -> (yes: bool)
        ensures
            yes == self.succeeded(phase),
    {
        match phase {
            TestRunMode::Skip => true,
            TestRunMode::Generate => match &self.source {
                Some(Ok(_)) => true,
                _ => false,
            },
            TestRunMode::Build => match &self.build {
                Some(Ok(_)) => true,
                _ => false,
            },
            TestRunMode::Link => match &self.link {
                Some(Ok(_)) => true,
                _ => false,
            },
            TestRunMode::Run => match &self.run {
                Some(Ok(_)) => true,
                _ => false,
            },
            TestRunMode::Check => match &self.check {
                Some(output) => output.all_passed,
                None => false,
            },
        }
    }

    fn phase_failed(&self, phase: TestRunMode) -> (yes: bool)
        ensures
            yes == self.failed(phase),
    {
        match phase {
            TestRunMode::Skip => false,
            TestRunMode::Generate => match &self.source {
                Some(Err(_)) => true,
                _ => false,
            },
            TestRunMode::Build => match &self.build {
                Some(Err(_)) => true,
                _ => false,
            },
            TestRunMode::Link => match &self.link {
                Some(Err(_)) => true,
                _ => false,
            },
            TestRunMode::Run => match &self.run {
                Some(Err(_)) => true,
                _ => false,
            },
            TestRunMode::Check => match &self.check {
                Some(output) => !output.all_passed,
                None => false,
            },
        }
    }

    /// What became of the test.
    pub fn conclude(&self) -> (conclusion: TestConclusion)
        ensures
            conclusion == self.conclusion(),
    {
        let skip = match self.rules.run {
            TestRunMode::Skip => true,
            _ => false,
        };
        if skip {
            // If we were told to skip, we skipped
            return TestConclusion::Skipped;
        }
        let unilateral_skip = match &self.source {
            Some(Err(error)) => error.is_skip(),
            _ => false,
        };
        if unilateral_skip {
            // The generate step is allowed to unilaterally skip things
            // to avoid different configs having to explicitly disable
            // a million unsupported combinations
            return TestConclusion::Skipped;
        }
        let (passed, busted) = match self.rules.check {
            TestCheckMode::Pass(must_pass) => (self.phase_succeeded(must_pass), false),
            TestCheckMode::Fail(must_fail) => (self.phase_failed(must_fail), false),
            TestCheckMode::Busted(must_fail) => (self.phase_failed(must_fail), true),
            TestCheckMode::Random => (true, false),
        };
        if !passed {
            TestConclusion::Failed
        } else if busted {
            TestConclusion::Busted
        } else {
            TestConclusion::Passed
        }
    }
}

/// Of a phase that has an outcome, failing is the reverse of succeeding: a
/// test that must fail at such a phase meets its expectation where a test that
/// must pass it would not, and the other way round.
pub proof fn lemma_fail_reverses_pass(results: TestRunResults, phase: TestRunMode)
    requires
        results.attempted(phase),
    ensures
        results.failed(phase) == !results.succeeded(phase),
{
}

/// A phase without an outcome meets no expectation: the test has neither
/// passed it nor failed at it.
pub proof fn lemma_unattempted_meets_nothing(results: TestRunResults, phase: TestRunMode)
    requires
        !results.attempted(phase),
    ensures
        !results.succeeded(phase),
        !results.failed(phase),
{
}

/// A test that is expected to fail to build, and does, is busted.
pub proof fn lemma_busted_build(results: TestRunResults)
    requires
        results.rules.run != TestRunMode::Skip,
        !results.generation_skipped(),
        results.rules.check == TestCheckMode::Busted(TestRunMode::Build),
        results.build matches Some(Err(_)),
    ensures
        results.conclusion() == TestConclusion::Busted,
{
}

/// A test that must pass its checks, and whose checks did not all pass, has
/// failed.
pub proof fn lemma_failed_checks(results: TestRunResults)
    requires
        results.rules.run != TestRunMode::Skip,
        !results.generation_skipped(),
        results.rules.check == TestCheckMode::Pass(TestRunMode::Check),
        results.check matches Some(output) && !output.all_passed,
    ensures
        results.conclusion() == TestConclusion::Failed,
{
}

/// A test whose result is taken as it comes has passed, whatever its phases
/// came to.
pub proof fn lemma_random_passes(results: TestRunResults)
    requires
        results.rules.run != TestRunMode::Skip,
        !results.generation_skipped(),
        results.rules.check == TestCheckMode::Random,
    ensures
        results.conclusion() == TestConclusion::Passed,
{
}

/// A skipped test is skipped whatever its rules expect, and only a test that
/// was not skipped is ever graded.
pub proof fn lemma_skip_is_not_graded(results: TestRunResults)
    ensures
        results.rules.run == TestRunMode::Skip || results.generation_skipped()
            <==> results.conclusion() == TestConclusion::Skipped,
{
}

/// Only a test with a known defect is ever busted, and a test that was graded
/// and did not meet its expectation has failed.
pub proof fn lemma_conclusion_by_expectation(results: TestRunResults)
    requires
        results.conclusion() != TestConclusion::Skipped,
    ensures
        results.conclusion() == TestConclusion::Failed <==> !results.met_expectation(),
        results.conclusion() == TestConclusion::Busted <==> results.met_expectation()
            && results.rules.check is Busted,
        results.conclusion() == TestConclusion::Passed <==> results.met_expectation()
            && !(results.rules.check is Busted),
{
}

/// One test with what was expected of it, what was seen and what to conclude.
#[derive(Debug, Clone)]
pub struct TestReport {
    pub key: TestKey,
    pub rules: TestRules,
    pub results: TestRunResults,
    pub conclusion: TestConclusion,
}

/// Grades the results of a test against its rules.
pub fn report_test(results: TestRunResults) -> (report: TestReport)
    ensures
        report.key == results.key,
        report.rules == results.rules,
        report.results == results,
        report.conclusion == results.conclusion(),
{
    // Ok now check if it matched our expectation
    let conclusion = results.conclude();
    TestReport { key: results.key.duplicate(), rules: results.rules, conclusion, results }
}

/// The configuration that a report was made under.
#[derive(Debug, Clone)]
pub struct TestConfig {}

/// How many tests came to each conclusion.
#[derive(Debug, Clone, Copy, PartialEq, Eq, Structural, Hash)]
pub struct TestSummary {
    pub num_tests: u64,
    pub num_passed: u64,
    pub num_busted: u64,
    pub num_failed: u64,
    pub num_skipped: u64,
}

/// How many of the first `count` reports came to `conclusion`.
pub open spec fn concluded(tests: Seq<TestReport>, conclusion: TestConclusion, count: nat) -> nat
    decreases count,
{
    if count == 0 {
        0
    } else {
        concluded(tests, conclusion, (count - 1) as nat) + if tests[count - 1].conclusion
            == conclusion {
            1nat
        } else {
            0nat
        }
    }
}

/// Every report came to one of the four conclusions.
pub proof fn lemma_conclusions_add_up(tests: Seq<TestReport>, count: nat)
    ensures
        concluded(tests, TestConclusion::Passed, count) + concluded(
            tests,
            TestConclusion::Busted,
            count,
        ) + concluded(tests, TestConclusion::Failed, count) + concluded(
            tests,
            TestConclusion::Skipped,
            count,
        ) == count,
    decreases count,
{
    if count > 0 {
        lemma_conclusions_add_up(tests, (count - 1) as nat);
    }
}

impl TestSummary {
    /// Every test is counted under one conclusion.
    pub open spec fn wf(&self) -> bool {
        self.num_tests == self.num_passed + self.num_busted + self.num_failed + self.num_skipped
    }

    /// The counts are those of the reports `tests`.
    pub open spec fn counts(&self, tests: Seq<TestReport>) -> bool {
        &&& self.num_tests == tests.len()
        &&& self.num_passed == concluded(tests, TestConclusion::Passed, tests.len())
        &&& self.num_busted == concluded(tests, TestConclusion::Busted, tests.len())
        &&& self.num_failed == concluded(tests, TestConclusion::Failed, tests.len())
        &&& self.num_skipped == concluded(tests, TestConclusion::Skipped, tests.len())
    }

    /// Counts the reports by their conclusion.
    pub fn of(tests: &Vec<TestReport>) -> (summary: TestSummary)
        ensures
            summary.counts(tests@),
            summary.wf(),
    {
        let mut summary = TestSummary {
            num_tests: 0,
            num_passed: 0,
            num_busted: 0,
            num_failed: 0,
            num_skipped: 0,
        };
        let mut i: usize = 0;
        while i < tests.len()
            invariant
                i <= tests.len(),
                summary.num_tests == i,
                summary.num_passed == concluded(tests@, TestConclusion::Passed, i as nat),
                summary.num_busted == concluded(tests@, TestConclusion::Busted, i as nat),
                summary.num_failed == concluded(tests@, TestConclusion::Failed, i as nat),
                summary.num_skipped == concluded(tests@, TestConclusion::Skipped, i as nat),
            decreases tests.len() - i,
        {
            proof {
                lemma_conclusions_add_up(tests@, i as nat);
            }
            summary.num_tests = summary.num_tests + 1;
            match tests[i].conclusion {
                TestConclusion::Skipped => {
                    summary.num_skipped = summary.num_skipped + 1;
                },
                TestConclusion::Passed => {
                    summary.num_passed = summary.num_passed + 1;
                },
                TestConclusion::Busted => {
                    summary.num_busted = summary.num_busted + 1;
                },
                TestConclusion::Failed => {
                    summary.num_failed = summary.num_failed + 1;
                },
            }
            i = i + 1;
        }
        proof {
            lemma_conclusions_add_up(tests@, tests@.len());
        }
        summary
    }
}

/// The reports of all tests of a run, with their counts.
#[derive(Debug, Clone)]
pub struct FullReport {
    pub summary: TestSummary,
    pub config: TestConfig,
    pub tests: Vec<TestReport>,
}

impl FullReport {
    /// The report of the tests `tests`, counted.
    pub fn new(config: TestConfig, tests: Vec<TestReport>) -> (report: FullReport)
        ensures
            report.tests == tests,
            report.config == config,
            report.summary.counts(tests@),
            report.summary.wf(),
    {
        let summary = TestSummary::of(&tests);
        FullReport { summary, config, tests }
    }

    /// Whether any test failed.
    pub fn failed(&self) -> (failed: bool)
        ensures
            failed == (self.summary.num_failed > 0),
    {
        self.summary.num_failed > 0
    }
}

} // verus!
