//! The order of a test's phases: which one comes next, and what is kept of
//! each.
//!
//! The phases themselves are run by the caller, who asks for the next phase,
//! runs it and records its outcome, until no phase is left.

use crate::error::{BuildError, GenerateError, LinkError, RunError};
use crate::report::{
    BuildOutput, CheckOutput, GenerateOutput, LinkOutput, RunOutput, TestRunMode, TestRunResults,
};
use vstd::prelude::*;

verus! {

/// The phase that follows `phase`; the checks are the last.
pub open spec fn phase_after(phase: TestRunMode) -> TestRunMode {
    match phase {
        TestRunMode::Skip => TestRunMode::Generate,
        TestRunMode::Generate => TestRunMode::Build,
        TestRunMode::Build => TestRunMode::Link,
        TestRunMode::Link => TestRunMode::Run,
        TestRunMode::Run => TestRunMode::Check,
        TestRunMode::Check => TestRunMode::Check,
    }
}

impl TestRunResults {
    /// The results are those of a run in the pipeline's order: the phases up
    /// to `ran_to`, and no others, have an outcome; every phase before the
    /// last one attempted succeeded; and none lies beyond what the rules
    /// allow.
    pub open spec fn wf(&self) -> bool {
        &&& self.ran_to.rank() <= self.rules.run.rank()
        &&& self.source is Some <==> self.ran_to.rank() >= 1
        &&& self.build is Some <==> self.ran_to.rank() >= 2
        &&& self.link is Some <==> self.ran_to.rank() >= 3
        &&& self.run is Some <==> self.ran_to.rank() >= 4
        &&& self.check is Some <==> self.ran_to.rank() >= 5
        &&& self.ran_to.rank() >= 2 ==> self.succeeded(TestRunMode::Generate)
        &&& self.ran_to.rank() >= 3 ==> self.succeeded(TestRunMode::Build)
        &&& self.ran_to.rank() >= 4 ==> self.succeeded(TestRunMode::Link)
        &&& self.ran_to.rank() >= 5 ==> self.succeeded(TestRunMode::Run)
    }

    /// Whether the last phase that was attempted produced what the next one
    /// works on. Before the first phase nothing is needed.
    pub open spec fn can_go_on(&self) -> bool {
        self.ran_to != TestRunMode::Check && self.succeeded(self.ran_to)
    }

    /// The phase to attempt next, or `None` where the run is over: the rules
    /// allow no further phase, or the last one failed.
    pub open spec fn next_phase(&self) -> Option<TestRunMode> {
        if self.ran_to.rank() < self.rules.run.rank() && self.can_go_on() {
            Some(phase_after(self.ran_to))
        } else {
            None
        }
    }

    /// Whether these results differ from `before` in the last phase and its
    /// outcome at most.
    pub open spec fn same_run(&self, before: &TestRunResults) -> bool {
        &&& self.key == before.key
        &&& self.rules == before.rules
    }

    /// The phase to attempt next, or `None` where the run is over.
    pub fn next(&self) -> (phase: Option<TestRunMode>)
        ensures
            phase == self.next_phase(),
    {
        if self.ran_to.level() >= self.rules.run.level() {
            return None;
        }
        match self.ran_to {
            TestRunMode::Skip => Some(TestRunMode::Generate),
            TestRunMode::Generate => match &self.source {
                Some(Ok(_)) => Some(TestRunMode::Build),
                _ => None,
            },
            TestRunMode::Build => match &self.build {
                Some(Ok(_)) => Some(TestRunMode::Link),
                _ => None,
            },
            TestRunMode::Link => match &self.link {
                Some(Ok(_)) => Some(TestRunMode::Run),
                _ => None,
            },
            TestRunMode::Run => match &self.run {
                Some(Ok(_)) => Some(TestRunMode::Check),
                _ => None,
            },
            TestRunMode::Check => None,
        }
    }

    /// Records that the sources were generated, or why they were not.
    pub fn record_generate(&mut self, outcome: Result<GenerateOutput, GenerateError>)
        requires
            old(self).wf(),
            old(self).next_phase() == Some(TestRunMode::Generate),
        ensures
            final(self).wf(),
            final(self).same_run(old(self)),
            final(self).ran_to == TestRunMode::Generate,
            final(self).source == Some(outcome),
    {
        self.ran_to = TestRunMode::Generate;
        self.source = Some(outcome);
    }

    /// Records that the sources were built, or why they were not.
    pub fn record_build(&mut self, outcome: Result<BuildOutput, BuildError>)
        requires
            old(self).wf(),
            old(self).next_phase() == Some(TestRunMode::Build),
        ensures
            final(self).wf(),
            final(self).same_run(old(self)),
            final(self).ran_to == TestRunMode::Build,
            final(self).source == old(self).source,
            final(self).build == Some(outcome),
    {
        self.ran_to = TestRunMode::Build;
        self.build = Some(outcome);
    }

    /// Records that the two sides were linked, or why they were not.
    pub fn record_link(&mut self, outcome: Result<LinkOutput, LinkError>)
        requires
            old(self).wf(),
            old(self).next_phase() == Some(TestRunMode::Link),
        ensures
            final(self).wf(),
            final(self).same_run(old(self)),
            final(self).ran_to == TestRunMode::Link,
            final(self).source == old(self).source,
            final(self).build == old(self).build,
            final(self).link == Some(outcome),
    {
        self.ran_to = TestRunMode::Link;
        self.link = Some(outcome);
    }

    /// Records what the program reported when it ran, or why it did not run.
    pub fn record_run(&mut self, outcome: Result<RunOutput, RunError>)
        requires
            old(self).wf(),
            old(self).next_phase() == Some(TestRunMode::Run),
        ensures
            final(self).wf(),
            final(self).same_run(old(self)),
            final(self).ran_to == TestRunMode::Run,
            final(self).source == old(self).source,
            final(self).build == old(self).build,
            final(self).link == old(self).link,
            final(self).run == Some(outcome),
    {
        self.ran_to = TestRunMode::Run;
        self.run = Some(outcome);
    }

    /// Records the comparison of what the two sides reported.
    pub fn record_check(&mut self, outcome: CheckOutput)
        requires
            old(self).wf(),
            old(self).next_phase() == Some(TestRunMode::Check),
        ensures
            final(self).wf(),
            final(self).same_run(old(self)),
            final(self).ran_to == TestRunMode::Check,
            final(self).source == old(self).source,
            final(self).build == old(self).build,
            final(self).link == old(self).link,
            final(self).run == old(self).run,
            final(self).check == Some(outcome),
            final(self).next_phase() is None,
    {
        self.ran_to = TestRunMode::Check;
        self.check = Some(outcome);
    }
}

/// The phases run in their order, one step at a time: the next phase is the
/// one after the last, it lies within what the rules allow, and every phase
/// before it succeeded.
pub proof fn lemma_next_phase_in_order(results: TestRunResults, next: TestRunMode)
    requires
        results.wf(),
        results.next_phase() == Some(next),
    ensures
        next.rank() == results.ran_to.rank() + 1,
        next.rank() <= results.rules.run.rank(),
        forall|phase: TestRunMode| phase.rank() < next.rank() ==> results.succeeded(phase),
        !results.succeeded(next) && !results.failed(next),
{
}

/// A failed phase ends the run: no later phase has an outcome, and none is
/// attempted.
pub proof fn lemma_failure_stops_run(results: TestRunResults, phase: TestRunMode)
    requires
        results.wf(),
        phase != TestRunMode::Skip,
        phase != TestRunMode::Check,
        results.failed(phase),
    ensures
        results.ran_to == phase,
        results.next_phase() is None,
        forall|later: TestRunMode|
            later.rank() > phase.rank() ==> !results.succeeded(later) && !results.failed(later),
        results.check is None,
{
}

} // verus!
