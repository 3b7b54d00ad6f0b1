//! What holds of every run of the encoder.

use vstd::prelude::*;
use crate::codec::{
    container_bytes, container_size, has_transparency, png_decoded, png_depth, png_record,
    reported_depth, EntryRecord, MAX_CONTAINER_SIZE,
};
use crate::encoder::{
    contents, encoded, encoding, icon_dir, lemma_stopped_stays, progress, verdict, Candidate,
    EncodeError, EncodeFailure, IcoFile, Progress, SizeInput, SizeOutcome, Verdict,
};
use crate::naming::{entry_name, size_name};
use crate::naming_laws::{lemma_canonical_entry_is_found_again, lemma_entry_names_differ};
use crate::sizes::{is_icon_size, lemma_sizes_ascend, ICON_SIZES, SIZE_COUNT};

verus! {

/// How many of the outcomes in `report` are `Added`.
pub open spec fn added_count(report: Seq<SizeOutcome>) -> nat
    decreases report.len(),
{
    if report.len() == 0 {
        0
    } else if report.last() == SizeOutcome::Added {
        added_count(report.drop_last()) + 1
    } else {
        added_count(report.drop_last())
    }
}

/// What the report says of a candidate after which the run goes on.
pub open spec fn outcome_of(verdict: Verdict) -> SizeOutcome {
    match verdict {
        Verdict::Skip(outcome) => outcome,
        _ => SizeOutcome::Added,
    }
}

/// Whether `entry` is a square icon of a canonical size.
pub open spec fn is_canonical_icon(entry: EntryRecord) -> bool {
    &&& !entry.cursor
    &&& entry.width == entry.height
    &&& is_icon_size(entry.width)
}

/// Whether `entries` come in strictly ascending order of width.
pub open spec fn widths_ascend(entries: Seq<EntryRecord>) -> bool {
    forall|i: int, j: int|
        0 <= i < j < entries.len() ==> (#[trigger] entries[i]).width < (
        #[trigger] entries[j]).width
}

/// An image is added as an icon of the width and the height of its size, at
/// 32 bits per pixel where it has transparency and at 24 where it has none.
/// So the image of a canonical size would be extracted again under the name
/// under which it was looked for exactly if it has transparency.
pub proof fn lemma_added_entry(size: u32, bytes: Seq<u8>)
    requires
        verdict(size, Candidate::Png(bytes)) is Add,
    ensures
        ({
            let entry = verdict(size, Candidate::Png(bytes))->Add_0;
            let image = png_decoded(bytes)->0;
            &&& png_decoded(bytes) is Some
            &&& image.width == size
            &&& image.height == size
            &&& png_record(image) == Some(entry)
            &&& !entry.cursor
            &&& entry.width == size
            &&& entry.height == size
            &&& entry.bits_per_pixel == png_depth(image.pixels)
            &&& is_icon_size(size) ==> (has_transparency(image.pixels) <==> entry_name(
                entry.width,
                entry.height,
                reported_depth(entry),
            ) == size_name(size))
        }),
{
    let entry = verdict(size, Candidate::Png(bytes))->Add_0;
    if is_icon_size(size) {
        lemma_canonical_entry_is_found_again(size);
        if entry_name(entry.width, entry.height, reported_depth(entry)) == size_name(size) {
            lemma_entry_names_differ(size, size, reported_depth(entry), size, size, 32);
        }
    }
}

/// What holds of the run after `n` candidates, and the bound by which the
/// order of the entries is kept: none of them is wider than the last size
/// examined.
spec fn run_invariant(run: Progress, n: nat) -> bool {
    &&& run.entries.len() <= n
    &&& container_size(run.entries) <= MAX_CONTAINER_SIZE
    &&& run.stopped is None ==> run.report.len() == n
    &&& run.stopped is Some ==> run.report.len() < n
    &&& added_count(run.report) == run.entries.len()
    &&& forall|j: int| 0 <= j < run.entries.len() ==> is_canonical_icon(#[trigger] run.entries[j])
    &&& widths_ascend(run.entries)
    &&& forall|j: int|
        0 <= j < run.entries.len() ==> 0 < n && (#[trigger] run.entries[j]).width <= ICON_SIZES[n
            - 1]
}

proof fn lemma_run_invariant(candidates: Seq<Candidate>, n: nat)
    requires
        n <= SIZE_COUNT,
    ensures
        run_invariant(progress(candidates, n), n),
    decreases n,
{
    if n > 0 {
        let before = progress(candidates, (n - 1) as nat);
        let run = progress(candidates, n);
        lemma_run_invariant(candidates, (n - 1) as nat);
        if n > 1 {
            lemma_sizes_ascend(n - 2, n - 1);
        }
        if before.stopped is None && run.stopped is None {
            assert(run.report.drop_last() =~= before.report);
        }
    }
}

/// The entries of a run are square icons, each of a canonical size, in
/// strictly ascending order of size. There are as many as the report has
/// `Added`, at most one for each size examined, and together they stay
/// within what the container format addresses. The report has one outcome
/// for each size examined, as long as no error has ended the run.
pub proof fn lemma_run_entries(candidates: Seq<Candidate>, n: nat)
    requires
        n <= SIZE_COUNT,
    ensures
        progress(candidates, n).entries.len() <= n,
        progress(candidates, n).entries.len() == added_count(progress(candidates, n).report),
        container_size(progress(candidates, n).entries) <= MAX_CONTAINER_SIZE,
        forall|j: int|
            0 <= j < progress(candidates, n).entries.len() ==> is_canonical_icon(
                #[trigger] progress(candidates, n).entries[j],
            ),
        widths_ascend(progress(candidates, n).entries),
        progress(candidates, n).stopped is None ==> progress(candidates, n).report.len() == n,
        progress(candidates, n).stopped is Some ==> progress(candidates, n).report.len() < n,
{
    lemma_run_invariant(candidates, n);
}

/// A container that was made holds at least one image and at most one for
/// each canonical size, and its report speaks of every canonical size.
pub proof fn lemma_container_is_not_empty(candidates: Seq<Candidate>)
    ensures
        encoding(candidates) matches Ok(file) ==> ({
            &&& 1 <= file.images <= SIZE_COUNT
            &&& file.images == added_count(file.report)
            &&& file.report.len() == SIZE_COUNT
        }),
{
    lemma_run_entries(candidates, SIZE_COUNT as nat);
}

/// The report of a run grows by at most one outcome with each candidate, and
/// what it says of the earlier ones stays.
proof fn lemma_report_grows(candidates: Seq<Candidate>, n: nat)
    requires
        0 < n <= SIZE_COUNT,
    ensures
        progress(candidates, (n - 1) as nat).report.len() <= progress(candidates, n).report.len(),
        forall|i: int|
            0 <= i < progress(candidates, (n - 1) as nat).report.len() ==> progress(
                candidates,
                n,
            ).report[i] == progress(candidates, (n - 1) as nat).report[i],
{
}

/// The outcome that the report holds for a size is the one that the verdict
/// on the candidate of that size gives: an error ends the run before
/// anything is reported.
pub proof fn lemma_report_follows_verdicts(candidates: Seq<Candidate>, n: nat, i: int)
    requires
        n <= SIZE_COUNT,
        0 <= i < progress(candidates, n).report.len(),
    ensures
        i < n,
        !(verdict(ICON_SIZES[i], candidates[i]) is Stop),
        progress(candidates, n).report[i] == outcome_of(verdict(ICON_SIZES[i], candidates[i])),
    decreases n,
{
    if n > 0 {
        let before = progress(candidates, (n - 1) as nat);
        lemma_run_invariant(candidates, n);
        lemma_run_invariant(candidates, (n - 1) as nat);
        lemma_report_grows(candidates, n);
        if i < before.report.len() {
            lemma_report_follows_verdicts(candidates, (n - 1) as nat, i);
        }
    }
}

/// Each entry of a run is the one that the verdict on some candidate adds:
/// a candidate of which the report speaks.
pub proof fn lemma_entries_follow_verdicts(candidates: Seq<Candidate>, n: nat, j: int)
    requires
        n <= SIZE_COUNT,
        0 <= j < progress(candidates, n).entries.len(),
    ensures
        exists|i: int|
            0 <= i < progress(candidates, n).report.len() && #[trigger] verdict(
                ICON_SIZES[i],
                candidates[i],
            ) == Verdict::Add(progress(candidates, n).entries[j]),
    decreases n,
{
    if n > 0 {
        let before = progress(candidates, (n - 1) as nat);
        let run = progress(candidates, n);
        lemma_run_invariant(candidates, (n - 1) as nat);
        lemma_report_grows(candidates, n);
        if j < before.entries.len() {
            lemma_entries_follow_verdicts(candidates, (n - 1) as nat, j);
            let i = choose|i: int|
                0 <= i < before.report.len() && #[trigger] verdict(ICON_SIZES[i], candidates[i])
                    == Verdict::Add(before.entries[j]);
            assert(verdict(ICON_SIZES[i], candidates[i]) == Verdict::Add(run.entries[j]));
        } else {
            assert(verdict(ICON_SIZES[n - 1], candidates[n - 1]) == Verdict::Add(run.entries[j]));
        }
    }
}

/// Each entry that a verdict adds, on a candidate of which the report
/// speaks, is an entry of the run.
pub proof fn lemma_added_entries_are_kept(candidates: Seq<Candidate>, n: nat, i: int)
    requires
        n <= SIZE_COUNT,
        0 <= i < progress(candidates, n).report.len(),
        verdict(ICON_SIZES[i], candidates[i]) is Add,
    ensures
        progress(candidates, n).entries.contains(verdict(ICON_SIZES[i], candidates[i])->Add_0),
    decreases n,
{
    if n > 0 {
        let before = progress(candidates, (n - 1) as nat);
        let run = progress(candidates, n);
        let entry = verdict(ICON_SIZES[i], candidates[i])->Add_0;
        lemma_run_invariant(candidates, n);
        lemma_run_invariant(candidates, (n - 1) as nat);
        if i < before.report.len() {
            lemma_added_entries_are_kept(candidates, (n - 1) as nat, i);
            let j = choose|j: int| 0 <= j < before.entries.len() && before.entries[j] == entry;
            assert(run.entries[j] == entry);
        } else {
            assert(run.entries.last() == entry);
        }
    }
}

/// A run ends early only at a candidate that is no PNG image or that the
/// codec fails to encode, or where the container would grow beyond what the
/// format addresses; that candidate is the first of which the report does
/// not speak.
pub proof fn lemma_stop_follows_verdict(candidates: Seq<Candidate>, n: nat)
    requires
        n <= SIZE_COUNT,
        progress(candidates, n).stopped is Some,
    ensures
        ({
            let run = progress(candidates, n);
            let at = run.report.len() as int;
            let size = ICON_SIZES[at];
            &&& at < n
            &&& match verdict(size, candidates[at]) {
                Verdict::Skip(_) => false,
                Verdict::Stop(error) => run.stopped == Some(error),
                Verdict::Add(entry) => {
                    &&& run.stopped == Some(EncodeError::TooLarge { size })
                    &&& container_size(run.entries.push(entry)) > MAX_CONTAINER_SIZE
                },
            }
        }),
    decreases n,
{
    if n > 0 {
        let before = progress(candidates, (n - 1) as nat);
        lemma_run_invariant(candidates, (n - 1) as nat);
        if before.stopped is Some {
            lemma_stop_follows_verdict(candidates, (n - 1) as nat);
        }
    }
}

/// An image of other dimensions than those of its size is left out: the
/// report gives the dimensions it has, and the run goes on with the entries
/// it had.
pub proof fn lemma_mismatch_is_skipped(candidates: Seq<Candidate>, at: nat, bytes: Seq<u8>)
    requires
        at < SIZE_COUNT,
        progress(candidates, at).stopped is None,
        candidates[at as int] == Candidate::Png(bytes),
        png_decoded(bytes) matches Some(image) && (image.width != ICON_SIZES[at as int]
            || image.height != ICON_SIZES[at as int]),
    ensures
        progress(candidates, at + 1).stopped is None,
        progress(candidates, at + 1).entries == progress(candidates, at).entries,
        progress(candidates, at + 1).report == progress(candidates, at).report.push(
            SizeOutcome::Mismatch {
                width: png_decoded(bytes)->0.width,
                height: png_decoded(bytes)->0.height,
            },
        ),
{
}

/// Where no candidate is suitable (each is absent, unreadable or of other
/// dimensions than those of its size), and only there, the run ends with
/// `NoInput`. Its report then speaks of every canonical size.
pub proof fn lemma_no_suitable_input(candidates: Seq<Candidate>)
    ensures
        (encoding(candidates) matches Err(failure) && failure.error == EncodeError::NoInput) <==> (
        forall|i: int|
            0 <= i < SIZE_COUNT ==> #[trigger] verdict(ICON_SIZES[i], candidates[i]) is Skip),
        (encoding(candidates) matches Err(failure) && failure.error == EncodeError::NoInput)
            ==> encoding(candidates)->Err_0.report.len() == SIZE_COUNT,
{
    let run = progress(candidates, SIZE_COUNT as nat);
    lemma_run_invariant(candidates, SIZE_COUNT as nat);
    if forall|i: int|
        0 <= i < SIZE_COUNT ==> #[trigger] verdict(ICON_SIZES[i], candidates[i]) is Skip {
        lemma_all_skipped(candidates, SIZE_COUNT as nat);
    }
    if encoding(candidates) matches Err(failure) && failure.error == EncodeError::NoInput {
        if run.stopped is Some {
            lemma_stop_follows_verdict(candidates, SIZE_COUNT as nat);
        }
        assert forall|i: int| 0 <= i < SIZE_COUNT implies #[trigger] verdict(
            ICON_SIZES[i],
            candidates[i],
        ) is Skip by {
            lemma_report_follows_verdicts(candidates, SIZE_COUNT as nat, i);
            lemma_no_entry_no_added(candidates, SIZE_COUNT as nat, i);
        }
    }
}

/// As long as every candidate is passed over, the run has no entry and goes
/// on.
proof fn lemma_all_skipped(candidates: Seq<Candidate>, n: nat)
    requires
        n <= SIZE_COUNT,
        forall|i: int| 0 <= i < n ==> #[trigger] verdict(ICON_SIZES[i], candidates[i]) is Skip,
    ensures
        progress(candidates, n).stopped is None,
        progress(candidates, n).entries.len() == 0,
    decreases n,
{
    if n > 0 {
        lemma_all_skipped(candidates, (n - 1) as nat);
    }
}

/// A run that goes on without an entry has passed over every candidate.
proof fn lemma_no_entry_no_added(candidates: Seq<Candidate>, n: nat, i: int)
    requires
        n <= SIZE_COUNT,
        0 <= i < n,
        progress(candidates, n).stopped is None,
        progress(candidates, n).entries.len() == 0,
    ensures
        verdict(ICON_SIZES[i], candidates[i]) is Skip,
    decreases n,
{
    if i < n - 1 {
        lemma_no_entry_no_added(candidates, (n - 1) as nat, i);
    }
}

/// The report of a folder in which only the size at `at` is there, after
/// `n` candidates.
pub open spec fn single_report(at: int, n: nat) -> Seq<SizeOutcome> {
    Seq::new(
        n,
        |i: int|
            if i == at {
                SizeOutcome::Added
            } else {
                SizeOutcome::Missing
            },
    )
}

/// The run over a folder in which only the size at `at` is there, with an
/// image that the codec makes `entry` of.
proof fn lemma_single_size_run(
    candidates: Seq<Candidate>,
    at: int,
    bytes: Seq<u8>,
    entry: EntryRecord,
    n: nat,
)
    requires
        n <= SIZE_COUNT,
        0 <= at < SIZE_COUNT,
        forall|i: int| 0 <= i < SIZE_COUNT && i != at ==> candidates[i] == Candidate::Missing,
        candidates[at] == Candidate::Png(bytes),
        verdict(ICON_SIZES[at], candidates[at]) == Verdict::Add(entry),
        container_size(seq![entry]) <= MAX_CONTAINER_SIZE,
    ensures
        progress(candidates, n).stopped is None,
        progress(candidates, n).report == single_report(at, n),
        progress(candidates, n).entries == if n <= at {
            Seq::<EntryRecord>::empty()
        } else {
            seq![entry]
        },
    decreases n,
{
    if n > 0 {
        lemma_single_size_run(candidates, at, bytes, entry, (n - 1) as nat);
    }
}

/// A folder that holds the image of one canonical size and nothing else, in
/// the dimensions of that size, gives a container of exactly one entry, which
/// records the size as its width and as its height. No container is made only
/// where the codec fails to encode the image or to write the container, or
/// where the image is too large for the format.
pub proof fn lemma_single_size(candidates: Seq<Candidate>, at: int, bytes: Seq<u8>)
    requires
        0 <= at < SIZE_COUNT,
        forall|i: int| 0 <= i < SIZE_COUNT && i != at ==> candidates[i] == Candidate::Missing,
        candidates[at] == Candidate::Png(bytes),
        png_decoded(bytes) matches Some(image) && image.width == ICON_SIZES[at] && image.height
            == ICON_SIZES[at],
    ensures
        encoding(candidates) matches Ok(file) ==> ({
            &&& file.images == 1
            &&& file.report == single_report(at, SIZE_COUNT as nat)
            &&& png_record(png_decoded(bytes)->0) matches Some(entry)
            &&& entry.width == ICON_SIZES[at]
            &&& entry.height == ICON_SIZES[at]
            &&& container_bytes(icon_dir(seq![entry])) == Some(file.bytes)
        }),
        encoding(candidates) matches Err(failure) ==> ({
            ||| failure.error == (EncodeError::Unencodable { size: ICON_SIZES[at] })
            ||| failure.error == (EncodeError::TooLarge { size: ICON_SIZES[at] })
            ||| failure.error == EncodeError::Unwritable
        }),
        (png_record(png_decoded(bytes)->0) matches Some(entry) && container_size(seq![entry])
            <= MAX_CONTAINER_SIZE && container_bytes(icon_dir(seq![entry])) is Some) ==> encoding(
            candidates,
        ) is Ok,
{
    lemma_missing_prefix(candidates, at as nat);
    match png_record(png_decoded(bytes)->0) {
        Some(entry) if container_size(seq![entry]) <= MAX_CONTAINER_SIZE => {
            lemma_single_size_run(candidates, at, bytes, entry, SIZE_COUNT as nat);
        },
        _ => {
            // The run ends at the one image.
            lemma_stopped_stays(candidates, (at + 1) as nat, SIZE_COUNT as nat);
        },
    }
}

/// As long as every candidate is absent, the run has no entry and goes on.
proof fn lemma_missing_prefix(candidates: Seq<Candidate>, n: nat)
    requires
        n <= SIZE_COUNT,
        forall|i: int| 0 <= i < n ==> candidates[i] == Candidate::Missing,
    ensures
        progress(candidates, n).stopped is None,
        progress(candidates, n).entries =~= Seq::<EntryRecord>::empty(),
    decreases n,
{
    if n > 0 {
        lemma_missing_prefix(candidates, (n - 1) as nat);
    }
}

/// Two runs on folders of equal content end alike: with the same container,
/// byte for byte, and the same report, or with the same error.
pub proof fn lemma_same_folder_same_container(
    first: [SizeInput; SIZE_COUNT],
    second: [SizeInput; SIZE_COUNT],
    first_result: Result<IcoFile, EncodeFailure>,
    second_result: Result<IcoFile, EncodeFailure>,
)
    requires
        contents(first@) == contents(second@),
        encoded(first_result) == encoding(contents(first@)),
        encoded(second_result) == encoding(contents(second@)),
    ensures
        encoded(first_result) == encoded(second_result),
        first_result matches Ok(file) ==> second_result is Ok && second_result->Ok_0.bytes@
            == file.bytes@,
        first_result matches Err(failure) ==> second_result is Err && second_result->Err_0.error
            == failure.error,
{
}

} // verus!
