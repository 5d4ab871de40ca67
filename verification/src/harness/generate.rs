//! Where the sources of a test are written, and the cache that has each of
//! them generated once.
//!
//! Many tests share their sources: the same test built by the same toolchain
//! for the same side with the same options is the same file, whatever stands
//! on the other side of the call. The file's path is all that tells two
//! requests apart. The first request for a path is told to generate; every
//! other one is told to wait for that generation or is handed its outcome. An
//! outcome, once recorded, stays: a failure is not tried again.

use crate::abis::lemma_convention_names;
use crate::error::{GenerateError, GenerateErrorView};
use crate::harness::test::{CallSide, ValueGeneratorKind};
use crate::report::{GenerateOutput, TestKey};
use crate::text::{
    decimal, lemma_cancel_suffix, lemma_decimal_digits, lemma_decimal_injective,
    lemma_split_at_last, push_decimal, str_eq,
};
use crate::toolchains::Toolchain;
use vstd::prelude::*;
use vstd::string::*;

verus! {

/// The path of `part` below `base`, as the platform that the library is built
/// for writes it: what `Utf8Path::join` of camino makes of the two paths.
///
/// The join works on the two texts alone. It reads no file system and no
/// setting of the process or the machine, so the same two texts are always
/// joined to the same path. Which separator stands between them, and which
/// parts count as absolute and replace the base, is the platform's affair and
/// is not said here.
pub uninterp spec fn joined_path(base: Seq<char>, part: Seq<char>) -> Seq<char>;

/// `Utf8Path::join` of camino, on the paths that `base` and `part` spell: the
/// result is [`joined_path`] of the two texts.
#[verifier::external_body]
fn join_path(base: &str, part: &str) -> (joined: String)
    ensures
        joined@ == joined_path(base@, part@),
{
    camino::Utf8Path::new(base).join(part).into_string()
}

/// The name of a value generator in the names of tests and files.
pub open spec fn val_generator_text(kind: ValueGeneratorKind) -> Seq<char> {
    match kind {
        ValueGeneratorKind::Graffiti => "graffiti"@,
        ValueGeneratorKind::Random { seed } => "random"@ + decimal(seed as nat),
    }
}

/// The name that tells a test from all others: the test, its convention and
/// its value generator, then the side of the call where one is given, else
/// the pair of toolchains, with `separator` between the parts.
pub open spec fn base_id_text(key: TestKey, call_side: Option<CallSide>, separator: Seq<char>)
    -> Seq<char> {
    key.test@ + separator + "conv_"@ + key.options.convention.name_text() + separator
        + val_generator_text(key.options.val_generator) + separator + (match call_side {
        Some(side) => side.name_text(),
        None => key.caller@ + "_calls_"@ + key.callee@,
    })
}

/// The name a test is reported under.
pub open spec fn full_test_name_text(key: TestKey) -> Seq<char> {
    base_id_text(key, None, "::"@)
}

/// The name of the source file of one side of a test, for a toolchain whose
/// sources end in `ext`.
pub open spec fn src_file_name_text(key: TestKey, call_side: CallSide, ext: Seq<char>) -> Seq<
    char,
> {
    base_id_text(key, Some(call_side), "_"@) + "."@ + ext
}

/// The path of the source file of one side of a test: below the directory
/// `dir` of the generated sources, in the directory named after the side's
/// toolchain, the file named by [`src_file_name_text`].
pub open spec fn src_path_text(dir: Seq<char>, key: TestKey, call_side: CallSide, ext: Seq<char>)
    -> Seq<char> {
    joined_path(
        joined_path(
            dir,
            match call_side {
                CallSide::Caller => key.caller@,
                CallSide::Callee => key.callee@,
            },
        ),
        src_file_name_text(key, call_side, ext),
    )
}

/// The path of a source is decided by the test, the options, the side and
/// that side's toolchain: two requests that agree in these have the same
/// path, whatever stands on the other side of the call.
pub proof fn lemma_equal_requests_share_a_path(
    dir: Seq<char>,
    first: TestKey,
    second: TestKey,
    call_side: CallSide,
    ext: Seq<char>,
)
    requires
        first.test@ == second.test@,
        first.options == second.options,
        call_side == CallSide::Caller ==> first.caller@ == second.caller@,
        call_side == CallSide::Callee ==> first.callee@ == second.callee@,
    ensures
        src_path_text(dir, first, call_side, ext) == src_path_text(dir, second, call_side, ext),
{
}

/// The two sides of a test never share a file name.
pub proof fn lemma_sides_have_distinct_files(key: TestKey, ext: Seq<char>)
    ensures
        src_file_name_text(key, CallSide::Caller, ext) != src_file_name_text(
            key,
            CallSide::Callee,
            ext,
        ),
{
    let head = key.test@ + "_"@ + "conv_"@ + key.options.convention.name_text() + "_"@
        + val_generator_text(key.options.val_generator) + "_"@;
    let caller = src_file_name_text(key, CallSide::Caller, ext);
    let callee = src_file_name_text(key, CallSide::Callee, ext);
    reveal_strlit("caller");
    reveal_strlit("callee");
    assert(caller =~= head + "caller"@ + "."@ + ext);
    assert(callee =~= head + "callee"@ + "."@ + ext);
    assert(caller[head.len() as int + 5] == 'r');
    assert(callee[head.len() as int + 5] == 'e');
}

/// No two value generators go by the same name, and no name holds an
/// underscore.
pub proof fn lemma_val_generator_names(first: ValueGeneratorKind, second: ValueGeneratorKind)
    ensures
        val_generator_text(first) == val_generator_text(second) ==> first == second,
        !val_generator_text(first).contains('_'),
{
    reveal_strlit("graffiti");
    reveal_strlit("random");
    assert("graffiti"@[0] == 'g');
    assert("random"@[0] == 'r');
    assert(!"graffiti"@.contains('_'));
    assert(!"random"@.contains('_'));
    match first {
        ValueGeneratorKind::Graffiti => {},
        ValueGeneratorKind::Random { seed } => {
            lemma_decimal_digits(seed as nat);
            let text = "random"@ + decimal(seed as nat);
            assert(text[0] == 'r');
            assert forall|i: int| 0 <= i < text.len() implies text[i] != '_' by {
                if i < 6 {
                    assert(text[i] == "random"@[i]);
                } else {
                    assert(text[i] == decimal(seed as nat)[i - 6]);
                }
            }
        },
    }
    match second {
        ValueGeneratorKind::Graffiti => {},
        ValueGeneratorKind::Random { seed } => {
            let text = "random"@ + decimal(seed as nat);
            assert(text[0] == 'r');
        },
    }
    if val_generator_text(first) == val_generator_text(second) {
        match (first, second) {
            (
                ValueGeneratorKind::Random { seed: first_seed },
                ValueGeneratorKind::Random { seed: second_seed },
            ) => {
                let first_text = "random"@ + decimal(first_seed as nat);
                let second_text = "random"@ + decimal(second_seed as nat);
                assert(decimal(first_seed as nat) =~= first_text.subrange(
                    6,
                    first_text.len() as int,
                ));
                assert(decimal(second_seed as nat) =~= second_text.subrange(
                    6,
                    second_text.len() as int,
                ));
                lemma_decimal_injective(first_seed as nat, second_seed as nat);
            },
            _ => {},
        }
    }
}

/// The two sides go by different names, and neither name holds an
/// underscore.
pub proof fn lemma_side_names(first: CallSide, second: CallSide)
    ensures
        first.name_text() == second.name_text() ==> first == second,
        !first.name_text().contains('_'),
{
    reveal_strlit("caller");
    reveal_strlit("callee");
    assert("caller"@[5] == 'r');
    assert("callee"@[5] == 'e');
}

/// The file name tells the requests apart: two requests whose sources have
/// the same name, for toolchains with the same extension, are for the same
/// test with the same options on the same side.
pub proof fn lemma_file_name_tells_requests_apart(
    first: TestKey,
    first_side: CallSide,
    second: TestKey,
    second_side: CallSide,
    ext: Seq<char>,
)
    requires
        src_file_name_text(first, first_side, ext) == src_file_name_text(second, second_side, ext),
    ensures
        first.test@ == second.test@,
        first.options == second.options,
        first_side == second_side,
{
    reveal_strlit("_");
    reveal_strlit("conv_");
    let part = seq!['_', 'c', 'o', 'n', 'v'];
    let first_named = first.test@ + part;
    let second_named = second.test@ + part;
    let first_conv = first.options.convention.name_text();
    let second_conv = second.options.convention.name_text();
    let first_vals = val_generator_text(first.options.val_generator);
    let second_vals = val_generator_text(second.options.val_generator);
    let first_to_conv = first_named.push('_') + first_conv;
    let second_to_conv = second_named.push('_') + second_conv;
    let first_to_vals = first_to_conv.push('_') + first_vals;
    let second_to_vals = second_to_conv.push('_') + second_vals;
    let first_id = first_to_vals.push('_') + first_side.name_text();
    let second_id = second_to_vals.push('_') + second_side.name_text();
    assert(base_id_text(first, Some(first_side), "_"@) =~= first_id);
    assert(base_id_text(second, Some(second_side), "_"@) =~= second_id);
    lemma_cancel_suffix(first_id + "."@, second_id + "."@, ext);
    lemma_cancel_suffix(first_id, second_id, "."@);
    lemma_side_names(first_side, second_side);
    lemma_side_names(second_side, first_side);
    lemma_split_at_last(
        first_to_vals,
        first_side.name_text(),
        second_to_vals,
        second_side.name_text(),
        '_',
    );
    lemma_val_generator_names(first.options.val_generator, second.options.val_generator);
    lemma_val_generator_names(second.options.val_generator, first.options.val_generator);
    lemma_split_at_last(first_to_conv, first_vals, second_to_conv, second_vals, '_');
    lemma_convention_names(first.options.convention, second.options.convention);
    lemma_convention_names(second.options.convention, first.options.convention);
    lemma_split_at_last(first_named, first_conv, second_named, second_conv, '_');
    lemma_cancel_suffix(first.test@, second.test@, part);
}

/// The file name of a side depends on that side's toolchain through its
/// extension only: the toolchain on the other side plays no part.
pub proof fn lemma_file_name_ignores_other_side(first: TestKey, second: TestKey, ext: Seq<char>)
    requires
        first.test@ == second.test@,
        first.options == second.options,
    ensures
        src_file_name_text(first, CallSide::Caller, ext) == src_file_name_text(
            second,
            CallSide::Caller,
            ext,
        ),
        src_file_name_text(first, CallSide::Callee, ext) == src_file_name_text(
            second,
            CallSide::Callee,
            ext,
        ),
{
}

/// What the cache holds for a path.
#[derive(Debug)]
pub enum Slot {
    /// The file is being generated.
    Running,
    /// The file was generated, or could not be.
    Done(Result<(), GenerateError>),
}

/// A [`Slot`] with its error as plain values.
pub ghost enum SlotView {
    Running,
    Done(Result<(), GenerateErrorView>),
}

/// The outcome of a generation with its error as plain values.
pub open spec fn outcome_view(outcome: Result<(), GenerateError>) -> Result<
    (),
    GenerateErrorView,
> {
    match outcome {
        Ok(_) => Ok(()),
        Err(error) => Err(error@),
    }
}

impl View for Slot {
    type V = SlotView;

    open spec fn view(&self) -> SlotView {
        match self {
            Slot::Running => SlotView::Running,
            Slot::Done(outcome) => SlotView::Done(outcome_view(*outcome)),
        }
    }
}

/// What a request for a path is told.
#[derive(Debug)]
pub enum Claim {
    /// Nobody has asked for this path before: generate the file, then record
    /// the outcome.
    Generate,
    /// The file is being generated: wait for its outcome.
    Wait,
    /// The outcome of the file's generation.
    Ready(Result<(), GenerateError>),
}

/// A [`Claim`] with its error as plain values.
pub ghost enum ClaimView {
    Generate,
    Wait,
    Ready(Result<(), GenerateErrorView>),
}

impl View for Claim {
    type V = ClaimView;

    open spec fn view(&self) -> ClaimView {
        match self {
            Claim::Generate => ClaimView::Generate,
            Claim::Wait => ClaimView::Wait,
            Claim::Ready(outcome) => ClaimView::Ready(outcome_view(*outcome)),
        }
    }
}

/// The cache after a request for `path`, and what the request is told.
pub open spec fn claimed(cache: Map<Seq<char>, SlotView>, path: Seq<char>) -> (
    Map<Seq<char>, SlotView>,
    ClaimView,
) {
    if !cache.dom().contains(path) {
        (cache.insert(path, SlotView::Running), ClaimView::Generate)
    } else {
        match cache[path] {
            SlotView::Running => (cache, ClaimView::Wait),
            SlotView::Done(outcome) => (cache, ClaimView::Ready(outcome)),
        }
    }
}

/// Whether an outcome for `path` is awaited.
pub open spec fn awaited(cache: Map<Seq<char>, SlotView>, path: Seq<char>) -> bool {
    cache.dom().contains(path) && cache[path] is Running
}

/// The cache after `outcome` was reported for `path`. It is recorded where an
/// outcome is awaited, and dropped otherwise: what was recorded stays.
pub open spec fn completed(
    cache: Map<Seq<char>, SlotView>,
    path: Seq<char>,
    outcome: Result<(), GenerateErrorView>,
) -> Map<Seq<char>, SlotView> {
    if awaited(cache, path) {
        cache.insert(path, SlotView::Done(outcome))
    } else {
        cache
    }
}

/// Of all requests for a path, one at most is told to generate: whoever asks
/// after another request is told to wait or is handed the outcome.
pub proof fn lemma_one_generation(cache: Map<Seq<char>, SlotView>, path: Seq<char>)
    ensures
        claimed(cache, path).0.dom().contains(path),
        claimed(claimed(cache, path).0, path).1 != ClaimView::Generate,
        claimed(cache, path).1 == ClaimView::Generate <==> !cache.dom().contains(path),
{
}

/// A path that the cache knows stays known, whatever is requested or reported
/// afterwards, so that no later request for it is told to generate.
pub proof fn lemma_known_stays_known(
    cache: Map<Seq<char>, SlotView>,
    path: Seq<char>,
    other: Seq<char>,
    outcome: Result<(), GenerateErrorView>,
)
    requires
        cache.dom().contains(path),
    ensures
        claimed(cache, other).0.dom().contains(path),
        completed(cache, other, outcome).dom().contains(path),
{
}

/// A recorded outcome stays as it is, a failure too: no request and no later
/// report changes it, and every request for the path is handed it.
pub proof fn lemma_outcome_is_kept(
    cache: Map<Seq<char>, SlotView>,
    path: Seq<char>,
    recorded: Result<(), GenerateErrorView>,
    other: Seq<char>,
    outcome: Result<(), GenerateErrorView>,
)
    requires
        cache.dom().contains(path),
        cache[path] == SlotView::Done(recorded),
    ensures
        claimed(cache, path).1 == ClaimView::Ready(recorded),
        claimed(cache, other).0[path] == SlotView::Done(recorded),
        completed(cache, other, outcome)[path] == SlotView::Done(recorded),
{
}

/// The outcome that the generating request reports is the one that every
/// later request for the path is handed.
pub proof fn lemma_all_see_the_outcome(
    cache: Map<Seq<char>, SlotView>,
    path: Seq<char>,
    outcome: Result<(), GenerateErrorView>,
)
    requires
        claimed(cache, path).1 == ClaimView::Generate,
    ensures
        claimed(completed(claimed(cache, path).0, path, outcome), path).1 == ClaimView::Ready(
            outcome,
        ),
{
}

/// What happens to one path touches no other: a request or a report for
/// `other` leaves what the cache holds for `path` as it was.
pub proof fn lemma_paths_are_independent(
    cache: Map<Seq<char>, SlotView>,
    path: Seq<char>,
    other: Seq<char>,
    outcome: Result<(), GenerateErrorView>,
)
    requires
        path != other,
    ensures
        claimed(cache, other).0.dom().contains(path) == cache.dom().contains(path),
        completed(cache, other, outcome).dom().contains(path) == cache.dom().contains(path),
        cache.dom().contains(path) ==> claimed(cache, other).0[path] == cache[path]
            && completed(cache, other, outcome)[path] == cache[path],
{
}

/// What is asked of the cache: the file at a path, or that the outcome of a
/// path's generation be recorded.
pub ghost enum CacheOp {
    Claim(Seq<char>),
    Complete(Seq<char>, Result<(), GenerateErrorView>),
}

/// The cache after `op`.
pub open spec fn after_op(cache: Map<Seq<char>, SlotView>, op: CacheOp) -> Map<
    Seq<char>,
    SlotView,
> {
    match op {
        CacheOp::Claim(path) => claimed(cache, path).0,
        CacheOp::Complete(path, outcome) => completed(cache, path, outcome),
    }
}

/// The cache after the first `count` of `ops`, starting from `cache`.
pub open spec fn after_ops(cache: Map<Seq<char>, SlotView>, ops: Seq<CacheOp>, count: nat) -> Map<
    Seq<char>,
    SlotView,
>
    decreases count,
{
    if count == 0 {
        cache
    } else {
        after_op(after_ops(cache, ops, (count - 1) as nat), ops[count - 1])
    }
}

/// What the request at position `at` of `ops` is told, for a request for
/// `path`; `None` for anything else.
pub open spec fn told(cache: Map<Seq<char>, SlotView>, ops: Seq<CacheOp>, path: Seq<char>, at: int)
    -> Option<ClaimView> {
    if ops[at] == CacheOp::Claim(path) {
        Some(claimed(after_ops(cache, ops, at as nat), path).1)
    } else {
        None
    }
}

/// How many of the first `count` of `ops` are requests for `path` that are
/// told to generate.
pub open spec fn generations(
    cache: Map<Seq<char>, SlotView>,
    ops: Seq<CacheOp>,
    path: Seq<char>,
    count: nat,
) -> nat
    decreases count,
{
    if count == 0 {
        0
    } else {
        generations(cache, ops, path, (count - 1) as nat) + if told(cache, ops, path, count - 1)
            == Some(ClaimView::Generate) {
            1nat
        } else {
            0nat
        }
    }
}

/// Whether one of the first `count` of `ops` is a request for `path`.
pub open spec fn requested(ops: Seq<CacheOp>, path: Seq<char>, count: nat) -> bool {
    exists|at: int| 0 <= at < count && #[trigger] ops[at] == CacheOp::Claim(path)
}

/// However requests and reports follow each other, a file that is asked for
/// is generated once: of all the requests for a path that an empty cache
/// gets, the first is told to generate and no other.
pub proof fn lemma_generated_once(ops: Seq<CacheOp>, path: Seq<char>, count: nat)
    requires
        count <= ops.len(),
    ensures
        generations(Map::empty(), ops, path, count) == (if requested(ops, path, count) {
            1nat
        } else {
            0nat
        }),
        after_ops(Map::empty(), ops, count).dom().contains(path) == requested(ops, path, count),
    decreases count,
{
    if count > 0 {
        lemma_generated_once(ops, path, (count - 1) as nat);
        let before = after_ops(Map::<Seq<char>, SlotView>::empty(), ops, (count - 1) as nat);
        if requested(ops, path, (count - 1) as nat) {
            let at = choose|at: int| 0 <= at < count - 1 && #[trigger] ops[at] == CacheOp::Claim(path);
            assert(ops[at] == CacheOp::Claim(path));
        } else if ops[count - 1] == CacheOp::Claim(path) {
        } else {
            assert forall|at: int| 0 <= at < count implies #[trigger] ops[at] != CacheOp::Claim(
                path,
            ) by {
                if at < count - 1 {
                    assert(!requested(ops, path, (count - 1) as nat));
                }
            }
        }
    }
}

/// However requests and reports follow each other, an outcome that the cache
/// holds for a path is the one it holds ever after.
pub proof fn lemma_outcome_forever(
    cache: Map<Seq<char>, SlotView>,
    ops: Seq<CacheOp>,
    path: Seq<char>,
    outcome: Result<(), GenerateErrorView>,
    count: nat,
)
    requires
        cache.dom().contains(path),
        cache[path] == SlotView::Done(outcome),
    ensures
        after_ops(cache, ops, count).dom().contains(path),
        after_ops(cache, ops, count)[path] == SlotView::Done(outcome),
    decreases count,
{
    if count > 0 {
        lemma_outcome_forever(cache, ops, path, outcome, (count - 1) as nat);
    }
}

/// The steps of a sequence can be taken in two parts.
pub proof fn lemma_after_ops_split(
    cache: Map<Seq<char>, SlotView>,
    ops: Seq<CacheOp>,
    first: nat,
    count: nat,
)
    requires
        first <= count <= ops.len(),
    ensures
        after_ops(cache, ops, count) == after_ops(
            after_ops(cache, ops, first),
            ops.subrange(first as int, ops.len() as int),
            (count - first) as nat,
        ),
    decreases count,
{
    if first < count {
        lemma_after_ops_split(cache, ops, first, (count - 1) as nat);
    }
}

/// However requests and reports follow each other, all who are handed the
/// outcome of a path are handed the same one.
pub proof fn lemma_all_are_told_the_same(
    cache: Map<Seq<char>, SlotView>,
    ops: Seq<CacheOp>,
    path: Seq<char>,
    earlier: int,
    later: int,
)
    requires
        0 <= earlier <= later < ops.len(),
        told(cache, ops, path, earlier) matches Some(ClaimView::Ready(_)),
        told(cache, ops, path, later) is Some,
    ensures
        told(cache, ops, path, later) == told(cache, ops, path, earlier),
{
    let at_earlier = after_ops(cache, ops, earlier as nat);
    let outcome = at_earlier[path]->Done_0;
    lemma_after_ops_split(cache, ops, earlier as nat, later as nat);
    lemma_outcome_forever(
        at_earlier,
        ops.subrange(earlier, ops.len() as int),
        path,
        outcome,
        (later - earlier) as nat,
    );
}

/// Two paths are two files: where the source at one path was generated, the
/// first request for another path is told to generate all the same, and the
/// cache then knows both.
pub proof fn lemma_other_path_is_generated_too(
    cache: Map<Seq<char>, SlotView>,
    path: Seq<char>,
    other: Seq<char>,
    outcome: Result<(), GenerateErrorView>,
)
    requires
        path != other,
        !cache.dom().contains(other),
    ensures
        claimed(completed(claimed(cache, path).0, path, outcome), other).1 == ClaimView::Generate,
        claimed(completed(claimed(cache, path).0, path, outcome), other).0.dom().contains(path),
        claimed(completed(claimed(cache, path).0, path, outcome), other).0.dom().contains(other),
{
}

struct CacheEntry {
    path: String,
    slot: Slot,
}

/// What the entries hold, the later over the earlier.
spec fn entries_map(entries: Seq<CacheEntry>) -> Map<Seq<char>, SlotView>
    decreases entries.len(),
{
    if entries.len() == 0 {
        Map::empty()
    } else {
        entries_map(entries.drop_last()).insert(entries.last().path@, entries.last().slot@)
    }
}

/// No path has two entries.
spec fn distinct_paths(entries: Seq<CacheEntry>) -> bool {
    forall|i: int, j: int|
        0 <= i < j < entries.len() ==> (#[trigger] entries[i]).path@ != (#[trigger] entries[j]).path@
}

proof fn lemma_entries_map_absent(entries: Seq<CacheEntry>, path: Seq<char>)
    requires
        forall|i: int| 0 <= i < entries.len() ==> (#[trigger] entries[i]).path@ != path,
    ensures
        !entries_map(entries).dom().contains(path),
    decreases entries.len(),
{
    if entries.len() > 0 {
        lemma_entries_map_absent(entries.drop_last(), path);
    }
}

proof fn lemma_entries_map_present(entries: Seq<CacheEntry>, at: int)
    requires
        0 <= at < entries.len(),
        distinct_paths(entries),
    ensures
        entries_map(entries).dom().contains(entries[at].path@),
        entries_map(entries)[entries[at].path@] == entries[at].slot@,
    decreases entries.len(),
{
    if at < entries.len() - 1 {
        lemma_entries_map_present(entries.drop_last(), at);
        assert(entries.drop_last()[at] == entries[at]);
        assert(entries[at].path@ != entries[entries.len() - 1].path@);
    }
}

proof fn lemma_entries_map_update(entries: Seq<CacheEntry>, at: int, entry: CacheEntry)
    requires
        0 <= at < entries.len(),
        distinct_paths(entries),
        entry.path@ == entries[at].path@,
    ensures
        distinct_paths(entries.update(at, entry)),
        entries_map(entries.update(at, entry)) == entries_map(entries).insert(
            entry.path@,
            entry.slot@,
        ),
    decreases entries.len(),
{
    let updated = entries.update(at, entry);
    if at == entries.len() - 1 {
        assert(updated.drop_last() =~= entries.drop_last());
        assert(entries_map(updated) =~= entries_map(entries).insert(entry.path@, entry.slot@));
    } else {
        lemma_entries_map_update(entries.drop_last(), at, entry);
        assert(updated.drop_last() =~= entries.drop_last().update(at, entry));
        assert(entries[at].path@ != entries[entries.len() - 1].path@);
        assert(entries_map(updated) =~= entries_map(entries).insert(entry.path@, entry.slot@));
    }
}

/// The cache of generated sources, by path.
pub struct GenerationCache {
    entries: Vec<CacheEntry>,
}

impl View for GenerationCache {
    type V = Map<Seq<char>, SlotView>;

    closed spec fn view(&self) -> Map<Seq<char>, SlotView> {
        entries_map(self.entries@)
    }
}

impl GenerationCache {
    /// The cache holds one slot for a path at most.
    pub closed spec fn wf(&self) -> bool {
        distinct_paths(self.entries@)
    }

    /// A cache that knows no path.
    pub fn new() -> (cache: GenerationCache)
        ensures
            cache.wf(),
            cache@ == Map::<Seq<char>, SlotView>::empty(),
    {
        GenerationCache { entries: Vec::new() }
    }

    fn find(&self, path: &str) -> (found: Option<usize>)
        requires
            self.wf(),
        ensures
            match found {
                Some(at) => at < self.entries@.len() && self.entries@[at as int].path@ == path@
                    && self@.dom().contains(path@) && self@[path@]
                    == self.entries@[at as int].slot@,
                None => !self@.dom().contains(path@) && forall|i: int|
                    0 <= i < self.entries@.len() ==> (#[trigger] self.entries@[i]).path@ != path@,
            },
    {
        let mut i: usize = 0;
        while i < self.entries.len()
            invariant
                i <= self.entries.len(),
                self.wf(),
                forall|j: int| 0 <= j < i ==> (#[trigger] self.entries@[j]).path@ != path@,
            decreases self.entries.len() - i,
        {
            if str_eq(self.entries[i].path.as_str(), path) {
                proof {
                    lemma_entries_map_present(self.entries@, i as int);
                }
                return Some(i);
            }
            i = i + 1;
        }
        proof {
            lemma_entries_map_absent(self.entries@, path@);
        }
        None
    }

    /// Asks for the file at `path`.
    ///
    /// The first request for a path is told to generate the file; until its
    /// outcome is reported every other request is told to wait, and from then
    /// on every request is handed that outcome.
    pub fn claim(&mut self, path: &str) -> (claim: Claim)
        requires
            old(self).wf(),
        ensures
            final(self).wf(),
            final(self)@ == claimed(old(self)@, path@).0,
            claim@ == claimed(old(self)@, path@).1,
    {
        match self.find(path) {
            Some(at) => match &self.entries[at].slot {
                Slot::Running => Claim::Wait,
                Slot::Done(outcome) => Claim::Ready(
                    match outcome {
                        Ok(_) => Ok(()),
                        Err(error) => Err(error.duplicate()),
                    },
                ),
            },
            None => {
                let ghost before = self.entries@;
                let entry = CacheEntry { path: String::from_str(path), slot: Slot::Running };
                self.entries.push(entry);
                proof {
                    assert(self.entries@.drop_last() =~= before);
                    assert forall|i: int, j: int| 0 <= i < j < self.entries@.len() implies (
                    #[trigger] self.entries@[i]).path@ != (#[trigger] self.entries@[j]).path@ by {
                        if j < before.len() {
                            assert(self.entries@[i] == before[i]);
                            assert(self.entries@[j] == before[j]);
                        } else {
                            assert(self.entries@[i] == before[i]);
                        }
                    }
                }
                Claim::Generate
            },
        }
    }

    /// Reports the outcome of the generation of the file at `path`.
    ///
    /// The outcome is recorded if one is awaited for the path, and dropped if
    /// not; the result says which.
    pub fn complete(&mut self, path: &str, outcome: Result<(), GenerateError>) -> (recorded: bool)
        requires
            old(self).wf(),
        ensures
            final(self).wf(),
            final(self)@ == completed(old(self)@, path@, outcome_view(outcome)),
            recorded == awaited(old(self)@, path@),
    {
        match self.find(path) {
            Some(at) => {
                let running = match &self.entries[at].slot {
                    Slot::Running => true,
                    Slot::Done(_) => false,
                };
                if running {
                    let entry = CacheEntry { path: String::from_str(path), slot: Slot::Done(outcome) };
                    proof {
                        lemma_entries_map_update(self.entries@, at as int, entry);
                    }
                    self.entries.set(at, entry);
                    true
                } else {
                    false
                }
            },
            None => false,
        }
    }
}

/// What drives the tests: where their sources go, and which of them have
/// been generated.
pub struct TestHarness {
    /// The directory below which the sources are written.
    pub generated_src_dir: String,
    /// The sources that were asked for, by path.
    pub generated_sources: GenerationCache,
}

/// What is to be done for the source of one side of a test.
#[derive(Debug)]
pub struct SrcRequest {
    /// Where the source goes.
    pub path: String,
    /// Whether to generate it, to wait for it, or what came of it.
    pub claim: Claim,
}

fn push_val_generator(out: &mut String, kind: ValueGeneratorKind)
    ensures
        final(out)@ == old(out)@ + val_generator_text(kind),
{
    match kind {
        ValueGeneratorKind::Graffiti => {
            out.append("graffiti");
        },
        ValueGeneratorKind::Random { seed } => {
            let mut name = String::from_str("random");
            push_decimal(&mut name, seed);
            out.append(name.as_str());
        },
    }
}

impl TestHarness {
    /// The cache knows each path once.
    pub open spec fn wf(&self) -> bool {
        self.generated_sources.wf()
    }

    /// A harness that writes below `generated_src_dir` and has generated
    /// nothing yet.
    pub fn new(generated_src_dir: String) -> (harness: TestHarness)
        ensures
            harness.wf(),
            harness.generated_src_dir == generated_src_dir,
            harness.generated_sources@ == Map::<Seq<char>, SlotView>::empty(),
    {
        TestHarness { generated_src_dir, generated_sources: GenerationCache::new() }
    }

    /// The name that tells a test from all others, with `separator` between
    /// its parts. With a side, the name is that of the side's source;
    /// without, it names the pair of toolchains.
    pub fn base_id(&self, key: &TestKey, call_side: Option<CallSide>, separator: &str) -> (id:
        String)
        ensures
            id@ == base_id_text(*key, call_side, separator@),
    {
        let mut id = key.test.clone();
        id.append(separator);
        id.append("conv_");
        id.append(key.options.convention.name());
        id.append(separator);
        push_val_generator(&mut id, key.options.val_generator);
        id.append(separator);
        match call_side {
            Some(side) => {
                id.append(side.name());
            },
            None => {
                let mut pair = key.caller.clone();
                pair.append("_calls_");
                pair.append(key.callee.as_str());
                id.append(pair.as_str());
            },
        }
        id
    }

    /// The name a test is reported under.
    pub fn full_test_name(&self, key: &TestKey) -> (name: String)
        ensures
            name@ == full_test_name_text(*key),
    {
        self.base_id(key, None, "::")
    }

    /// The name of the source file of one side of a test.
    pub fn src_file_name(&self, key: &TestKey, call_side: CallSide, toolchain: &Toolchain) -> (name:
        String)
        ensures
            name@ == src_file_name_text(*key, call_side, toolchain.src_ext@),
    {
        let mut name = self.base_id(key, Some(call_side), "_");
        name.append(".");
        name.append(toolchain.src_ext());
        name
    }

    /// The path of the source file of one side of a test: below the directory
    /// of the generated sources, in the directory of the side's toolchain, the
    /// file named by [`src_file_name_text`].
    pub fn src_path(&self, key: &TestKey, call_side: CallSide, toolchain: &Toolchain) -> (path:
        String)
        ensures
            path@ == src_path_text(self.generated_src_dir@, *key, call_side, toolchain.src_ext@),
    {
        let toolchain_id = key.toolchain_id(call_side);
        let file_name = self.src_file_name(key, call_side, toolchain);
        let dir = join_path(self.generated_src_dir.as_str(), toolchain_id);
        join_path(dir.as_str(), file_name.as_str())
    }

    /// Asks for the source of one side of a test: where it goes, and whether
    /// it is for this request to generate it.
    pub fn generate_src(&mut self, key: &TestKey, call_side: CallSide, toolchain: &Toolchain) -> (request:
        SrcRequest)
        requires
            old(self).wf(),
        ensures
            final(self).wf(),
            final(self).generated_src_dir == old(self).generated_src_dir,
            request.path@ == src_path_text(
                old(self).generated_src_dir@,
                *key,
                call_side,
                toolchain.src_ext@,
            ),
            final(self).generated_sources@ == claimed(
                old(self).generated_sources@,
                request.path@,
            ).0,
            request.claim@ == claimed(old(self).generated_sources@, request.path@).1,
    {
        let path = self.src_path(key, call_side, toolchain);
        // Get or insert the slot; generation itself happens outside
        let claim = self.generated_sources.claim(path.as_str());
        SrcRequest { path, claim }
    }

    /// Reports what came of generating the source at `path`.
    pub fn generated_src(&mut self, path: &str, outcome: Result<(), GenerateError>) -> (recorded:
        bool)
        requires
            old(self).wf(),
        ensures
            final(self).wf(),
            final(self).generated_src_dir == old(self).generated_src_dir,
            final(self).generated_sources@ == completed(
                old(self).generated_sources@,
                path@,
                outcome_view(outcome),
            ),
            recorded == awaited(old(self).generated_sources@, path@),
    {
        self.generated_sources.complete(path, outcome)
    }

    /// The sources of a test from what came of generating its two sides: both
    /// paths where both were generated, else the error of the caller's side
    /// or, if that side was generated, of the callee's.
    pub fn generate_test(
        &self,
        caller_src: Result<String, GenerateError>,
        callee_src: Result<String, GenerateError>,
    ) -> (res: Result<GenerateOutput, GenerateError>)
        ensures
            match (caller_src, callee_src) {
                (Ok(caller), Ok(callee)) => res matches Ok(output) && output.caller_src == caller
                    && output.callee_src == callee,
                (Err(error), _) => res matches Err(e) && e == error,
                (Ok(_), Err(error)) => res matches Err(e) && e == error,
            },
    {
        let caller_src = match caller_src {
            Ok(path) => path,
            Err(error) => {
                return Err(error);
            },
        };
        let callee_src = match callee_src {
            Ok(path) => path,
            Err(error) => {
                return Err(error);
            },
        };
        Ok(GenerateOutput { caller_src, callee_src })
    }
}

} // verus!
