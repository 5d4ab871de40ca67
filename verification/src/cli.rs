//! The configuration of a run, from what was asked for on the command line.

use crate::abis::{all_conventions, all_conventions_list, CallingConvention};
use crate::harness::test::ValueGeneratorKind;
use crate::text::{str_eq, texts_of};
use vstd::prelude::*;
use vstd::string::*;

verus! {

/// The name of the Rust toolchain.
pub const ABI_IMPL_RUSTC: &'static str = "rustc";

/// The name of the system's C toolchain.
pub const ABI_IMPL_CC: &'static str = "cc";

/// The name of the GCC toolchain.
pub const ABI_IMPL_GCC: &'static str = "gcc";

/// The name of the Clang toolchain.
pub const ABI_IMPL_CLANG: &'static str = "clang";

/// The name of the MSVC toolchain.
pub const ABI_IMPL_MSVC: &'static str = "msvc";

/// The form in which the report is printed.
#[derive(Debug, Clone, Copy, PartialEq, Eq, Structural, Hash)]
pub enum OutputFormat {
    Human,
    Json,
    RustcJson,
}

/// What was asked for on the command line, as it was written.
#[derive(Debug, Clone)]
pub struct Cli {
    pub procgen_tests: bool,
    pub conventions: Vec<CallingConvention>,
    pub impls: Vec<String>,
    /// Pairs of toolchains, each written `caller_calls_callee`.
    pub pairs: Vec<String>,
    pub tests: Vec<String>,
    /// Code generators for the Rust toolchain, each written `name:path`.
    pub add_rustc_codegen_backend: Vec<String>,
    pub output_format: OutputFormat,
}

/// The configuration of a run.
#[derive(Debug, Clone)]
pub struct Config {
    pub output_format: OutputFormat,
    pub procgen_tests: bool,
    pub run_conventions: Vec<CallingConvention>,
    pub run_impls: Vec<String>,
    pub run_tests: Vec<String>,
    /// The pairs of toolchains to test; the first of a pair calls the second.
    pub run_pairs: Vec<(String, String)>,
    /// The code generators for the Rust toolchain, by name, with their paths.
    pub rustc_codegen_backends: Vec<(String, String)>,
    pub val_generator: ValueGeneratorKind,
}

/// What on the command line could not be understood.
#[derive(Debug, Clone)]
pub enum ConfigError {
    /// A pair that is not written `caller_calls_callee`.
    InvalidPair(String),
    /// A code generator that is not written `name:path`.
    InvalidBackend(String),
}

/// Whether `pattern` stands in `text` at the position `at`.
pub open spec fn occurs_at(text: Seq<char>, pattern: Seq<char>, at: int) -> bool {
    0 <= at && at + pattern.len() <= text.len() && text.subrange(at, at + pattern.len())
        == pattern
}

/// Whether `at` is the first position at which `pattern` stands in `text`.
pub open spec fn first_at(text: Seq<char>, pattern: Seq<char>, at: int) -> bool {
    occurs_at(text, pattern, at) && forall|earlier: int|
        0 <= earlier < at ==> !occurs_at(text, pattern, earlier)
}

/// The parts of `text` before and behind the first `delimiter` in it, or
/// `None` where there is none.
pub open spec fn split_text(text: Seq<char>, delimiter: Seq<char>) -> Option<
    (Seq<char>, Seq<char>),
> {
    if exists|at: int| first_at(text, delimiter, at) {
        let at = choose|at: int| first_at(text, delimiter, at);
        Some((text.subrange(0, at), text.subrange(at + delimiter.len(), text.len() as int)))
    } else {
        None
    }
}

/// `str::split_once` of the standard library: the parts of `text` before and
/// behind the first `delimiter` in it, or `None` where there is none.
#[verifier::external_body]
fn split_once<'a>(text: &'a str, delimiter: &str) -> (parts: Option<(&'a str, &'a str)>)
    ensures
        match parts {
            Some((head, tail)) => text@ == head@ + delimiter@ + tail@ && first_at(
                text@,
                delimiter@,
                head@.len() as int,
            ),
            None => forall|at: int| !occurs_at(text@, delimiter@, at),
        },
{
    text.split_once(delimiter)
}

/// The first occurrence is one position: two positions that are both first
/// are the same.
proof fn lemma_first_at_unique(text: Seq<char>, pattern: Seq<char>, at: int, other: int)
    requires
        first_at(text, pattern, at),
        first_at(text, pattern, other),
    ensures
        at == other,
{
}

/// The two parts of `text` around its first `delimiter`, as strings of their
/// own, or `None` where there is none.
pub fn split_pair(text: &str, delimiter: &str) -> (parts: Option<(String, String)>)
    ensures
        match parts {
            Some((head, tail)) => split_text(text@, delimiter@) == Some((head@, tail@)),
            None => split_text(text@, delimiter@) is None,
        },
{
    match split_once(text, delimiter) {
        Some((head, tail)) => {
            proof {
                let at = head@.len() as int;
                let chosen = choose|at: int| first_at(text@, delimiter@, at);
                lemma_first_at_unique(text@, delimiter@, at, chosen);
                assert(text@.subrange(0, at) =~= head@);
                assert(text@.subrange(at + delimiter@.len(), text@.len() as int) =~= tail@);
            }
            Some((String::from_str(head), String::from_str(tail)))
        },
        None => {
            proof {
                assert forall|at: int| !first_at(text@, delimiter@, at) by {
                    assert(!occurs_at(text@, delimiter@, at));
                }
            }
            None
        },
    }
}

/// The texts of a sequence of pairs of strings.
pub open spec fn pairs_of(pairs: Seq<(String, String)>) -> Seq<(Seq<char>, Seq<char>)> {
    Seq::new(pairs.len(), |i: int| (pairs[i].0@, pairs[i].1@))
}

/// Whether each of the first `count` texts has a `delimiter`.
pub open spec fn all_split(texts: Seq<String>, delimiter: Seq<char>, count: nat) -> bool {
    forall|i: int| 0 <= i < count ==> split_text((#[trigger] texts[i])@, delimiter) is Some
}

/// The texts split at their first `delimiter`, each.
pub open spec fn split_all(texts: Seq<String>, delimiter: Seq<char>) -> Seq<
    (Seq<char>, Seq<char>),
> {
    Seq::new(texts.len(), |i: int| split_text(texts[i]@, delimiter)->0)
}

/// Splits each text at its first `delimiter`. Fails with the index of the
/// first text that has none.
fn split_each(texts: &Vec<String>, delimiter: &str) -> (res: Result<Vec<(String, String)>, usize>)
    ensures
        match res {
            Ok(pairs) => all_split(texts@, delimiter@, texts@.len()) && pairs_of(pairs@)
                == split_all(texts@, delimiter@),
            Err(at) => at < texts@.len() && all_split(texts@, delimiter@, at as nat)
                && split_text(texts@[at as int]@, delimiter@) is None,
        },
{
    let mut pairs: Vec<(String, String)> = Vec::new();
    let mut i: usize = 0;
    while i < texts.len()
        invariant
            i <= texts.len(),
            all_split(texts@, delimiter@, i as nat),
            pairs@.len() == i,
            forall|j: int|
                0 <= j < i ==> Some(((#[trigger] pairs@[j]).0@, pairs@[j].1@)) == split_text(
                    texts@[j]@,
                    delimiter@,
                ),
        decreases texts.len() - i,
    {
        match split_pair(texts[i].as_str(), delimiter) {
            Some(pair) => {
                pairs.push(pair);
            },
            None => {
                return Err(i);
            },
        }
        i = i + 1;
    }
    assert(pairs_of(pairs@) =~= split_all(texts@, delimiter@));
    Ok(pairs)
}

/// The pairs that are tested where none is asked for: Rust calls Rust.
pub open spec fn default_pairs() -> Seq<(Seq<char>, Seq<char>)> {
    seq![("rustc"@, "rustc"@)]
}

/// Whether the toolchain `name` stands on either side of one of the pairs.
pub open spec fn is_tested(pairs: Seq<(Seq<char>, Seq<char>)>, name: Seq<char>) -> bool {
    exists|i: int| 0 <= i < pairs.len() && ((#[trigger] pairs[i]).0 == name || pairs[i].1 == name)
}

/// The configuration of the run that `cli` asks for.
///
/// Where no convention is named, all are run; where no pair is named, Rust
/// calls Rust. The values are Graffiti. Fails on the first pair that is not
/// written `caller_calls_callee` or, if all are, on the first code generator
/// that is not written `name:path`.
pub fn make_app(cli: Cli) -> (res: Result<Config, ConfigError>)
    ensures
        match res {
            Ok(config) => {
                &&& all_split(cli.pairs@, "_calls_"@, cli.pairs@.len())
                &&& all_split(
                    cli.add_rustc_codegen_backend@,
                    ":"@,
                    cli.add_rustc_codegen_backend@.len(),
                )
                &&& config.output_format == cli.output_format
                &&& config.procgen_tests == cli.procgen_tests
                &&& config.run_impls == cli.impls
                &&& config.run_tests == cli.tests
                &&& config.val_generator == ValueGeneratorKind::Graffiti
                &&& config.run_conventions@ == if cli.conventions@.len() == 0 {
                    all_conventions_list()
                } else {
                    cli.conventions@
                }
                &&& pairs_of(config.run_pairs@) == if cli.pairs@.len() == 0 {
                    default_pairs()
                } else {
                    split_all(cli.pairs@, "_calls_"@)
                }
                &&& pairs_of(config.rustc_codegen_backends@) == split_all(
                    cli.add_rustc_codegen_backend@,
                    ":"@,
                )
            },
            Err(ConfigError::InvalidPair(pair)) => exists|at: int|
                0 <= at < cli.pairs@.len() && all_split(cli.pairs@, "_calls_"@, at as nat)
                    && split_text((#[trigger] cli.pairs@[at])@, "_calls_"@) is None && pair
                    == cli.pairs@[at],
            Err(ConfigError::InvalidBackend(backend)) => all_split(
                cli.pairs@,
                "_calls_"@,
                cli.pairs@.len(),
            ) && exists|at: int|
                0 <= at < cli.add_rustc_codegen_backend@.len() && all_split(
                    cli.add_rustc_codegen_backend@,
                    ":"@,
                    at as nat,
                ) && split_text((#[trigger] cli.add_rustc_codegen_backend@[at])@, ":"@) is None
                    && backend == cli.add_rustc_codegen_backend@[at],
        },
{
    let run_conventions = if cli.conventions.len() == 0 {
        all_conventions()
    } else {
        cli.conventions
    };
    let mut run_pairs = match split_each(&cli.pairs, "_calls_") {
        Ok(pairs) => pairs,
        Err(at) => {
            return Err(ConfigError::InvalidPair(cli.pairs[at].clone()));
        },
    };
    if run_pairs.len() == 0 {
        run_pairs.push((String::from_str(ABI_IMPL_RUSTC), String::from_str(ABI_IMPL_RUSTC)));
        assert(pairs_of(run_pairs@) =~= default_pairs());
    }
    let rustc_codegen_backends = match split_each(&cli.add_rustc_codegen_backend, ":") {
        Ok(backends) => backends,
        Err(at) => {
            return Err(ConfigError::InvalidBackend(cli.add_rustc_codegen_backend[at].clone()));
        },
    };
    Ok(
        Config {
            output_format: cli.output_format,
            procgen_tests: cli.procgen_tests,
            run_conventions,
            run_impls: cli.impls,
            run_tests: cli.tests,
            run_pairs,
            rustc_codegen_backends,
            val_generator: ValueGeneratorKind::Graffiti,
        },
    )
}

/// The names of the first `count` code generators that no pair tests.
pub open spec fn untested_text(
    backends: Seq<(Seq<char>, Seq<char>)>,
    pairs: Seq<(Seq<char>, Seq<char>)>,
    count: nat,
) -> Seq<Seq<char>>
    decreases count,
{
    if count == 0 {
        Seq::empty()
    } else if is_tested(pairs, backends[count - 1].0) {
        untested_text(backends, pairs, (count - 1) as nat)
    } else {
        untested_text(backends, pairs, (count - 1) as nat).push(backends[count - 1].0)
    }
}

fn tested(pairs: &Vec<(String, String)>, name: &str) -> (yes: bool)
    ensures
        yes == is_tested(pairs_of(pairs@), name@),
{
    let mut i: usize = 0;
    while i < pairs.len()
        invariant
            i <= pairs.len(),
            forall|j: int|
                0 <= j < i ==> (#[trigger] pairs_of(pairs@)[j]).0 != name@ && pairs_of(pairs@)[j].1
                    != name@,
        decreases pairs.len() - i,
    {
        if str_eq(pairs[i].0.as_str(), name) || str_eq(pairs[i].1.as_str(), name) {
            assert(pairs_of(pairs@)[i as int].0 == name@ || pairs_of(pairs@)[i as int].1 == name@);
            return true;
        }
        assert(pairs_of(pairs@)[i as int].0 == pairs@[i as int].0@);
        i = i + 1;
    }
    false
}

impl Config {
    /// The code generators that were added and that no pair tests, by name,
    /// in the order in which they were added. Each deserves a warning: it
    /// will not be run.
    pub fn untested_backends(&self) -> (names: Vec<String>)
        ensures
            texts_of(names@) == untested_text(
                pairs_of(self.rustc_codegen_backends@),
                pairs_of(self.run_pairs@),
                self.rustc_codegen_backends@.len(),
            ),
    {
        let ghost backends = pairs_of(self.rustc_codegen_backends@);
        let ghost pairs = pairs_of(self.run_pairs@);
        let mut names: Vec<String> = Vec::new();
        let mut i: usize = 0;
        assert(texts_of(names@) =~= untested_text(backends, pairs, 0));
        while i < self.rustc_codegen_backends.len()
            invariant
                i <= self.rustc_codegen_backends.len(),
                backends == pairs_of(self.rustc_codegen_backends@),
                pairs == pairs_of(self.run_pairs@),
                texts_of(names@) == untested_text(backends, pairs, i as nat),
            decreases self.rustc_codegen_backends.len() - i,
        {
            let name = &self.rustc_codegen_backends[i].0;
            if !tested(&self.run_pairs, name.as_str()) {
                names.push(name.clone());
            }
            i = i + 1;
            assert(texts_of(names@) =~= untested_text(backends, pairs, i as nat));
        }
        names
    }
}

} // verus!
