//! What holds of every run of the decoder.

use vstd::prelude::*;
use crate::codec::{parsed_container, reported_depth, EntryRecord};
use crate::decoder::{
    decoded, decoding, extracted_file, extraction, file_views, tally_of, DecodeError,
    DecodeFailure, ExtractedPng, ExtractedPngView, FileOutcome,
};
use crate::naming::entry_name;

verus! {

/// The files of a run are those of the first entries, one for each and in
/// their order. A run ends early only at an entry that yields no file: the
/// first one, and with the error of that entry.
pub proof fn lemma_files_follow_entries(entries: Seq<EntryRecord>, n: nat)
    requires
        n <= entries.len() <= usize::MAX,
    ensures
        extraction(entries, n).stopped is None ==> extraction(entries, n).files.len() == n,
        forall|i: int|
            0 <= i < extraction(entries, n).files.len() ==> extracted_file(
                i as usize,
                #[trigger] entries[i],
            ) == Ok::<_, DecodeError>(extraction(entries, n).files[i]),
        extraction(entries, n).stopped matches Some(error) ==> ({
            let at = extraction(entries, n).files.len() as int;
            &&& at < n
            &&& extracted_file(at as usize, entries[at]) == Err::<ExtractedPngView, _>(error)
        }),
    decreases n,
{
    if n > 0 {
        lemma_files_follow_entries(entries, (n - 1) as nat);
        let before = extraction(entries, (n - 1) as nat);
        let run = extraction(entries, n);
        if before.stopped is None {
            assert forall|i: int| 0 <= i < run.files.len() implies extracted_file(
                i as usize,
                #[trigger] entries[i],
            ) == Ok::<_, DecodeError>(run.files[i]) by {
                if i < before.files.len() {
                    assert(run.files[i] == before.files[i]);
                }
            }
        }
    }
}

/// Where every entry yields a file, the container yields one file for each
/// entry, in the stored order, each under the name that its entry's width,
/// height and colour depth give.
pub proof fn lemma_one_file_for_each_entry(bytes: Seq<u8>)
    requires
        parsed_container(bytes) matches Some(dir) && dir.entries.len() <= usize::MAX,
    ensures
        decoding(bytes) matches Ok(files) ==> ({
            let entries = parsed_container(bytes)->0.entries;
            &&& files.len() == entries.len()
            &&& forall|i: int|
                0 <= i < files.len() ==> (#[trigger] files[i]).name == entry_name(
                    entries[i].width,
                    entries[i].height,
                    reported_depth(entries[i]),
                )
        }),
{
    let entries = parsed_container(bytes)->0.entries;
    lemma_files_follow_entries(entries, entries.len());
    let run = extraction(entries, entries.len());
    assert forall|i: int| 0 <= i < run.files.len() implies (#[trigger] run.files[i]).name
        == entry_name(entries[i].width, entries[i].height, reported_depth(entries[i])) by {
        assert(extracted_file(i as usize, entries[i]) == Ok::<_, DecodeError>(run.files[i]));
    }
}

/// Two runs on the same container end alike: with the same files, byte for
/// byte and under the same names, or with the same error after the same
/// files.
pub proof fn lemma_same_container_same_files(
    first: Seq<u8>,
    second: Seq<u8>,
    first_result: Result<Vec<ExtractedPng>, DecodeFailure>,
    second_result: Result<Vec<ExtractedPng>, DecodeFailure>,
)
    requires
        first == second,
        decoded(first_result) == decoding(first),
        decoded(second_result) == decoding(second),
    ensures
        decoded(first_result) == decoded(second_result),
        first_result matches Ok(files) ==> second_result is Ok && file_views(
            second_result->Ok_0@,
        ) == file_views(files@),
        first_result matches Err(failure) ==> second_result is Err && second_result->Err_0.error
            == failure.error,
{
}

/// How many of `outcomes` are `Written`.
pub open spec fn written_count(outcomes: Seq<FileOutcome>) -> nat
    decreases outcomes.len(),
{
    if outcomes.len() == 0 {
        0
    } else if outcomes.last() == FileOutcome::Written {
        written_count(outcomes.drop_last()) + 1
    } else {
        written_count(outcomes.drop_last())
    }
}

/// Whether some file of `outcomes` could not be written.
pub open spec fn some_not_written(outcomes: Seq<FileOutcome>) -> bool {
    exists|i: int| 0 <= i < outcomes.len() && #[trigger] outcomes[i] == FileOutcome::NotWritten
}

/// The tally counts the files that were written, however many could not be
/// created, as long as none could not be written; and it has ended exactly
/// if one could not.
pub proof fn lemma_tally_counts_written(outcomes: Seq<FileOutcome>)
    requires
        outcomes.len() <= usize::MAX,
    ensures
        tally_of(outcomes).ended <==> some_not_written(outcomes),
        tally_of(outcomes).written <= written_count(outcomes) <= outcomes.len(),
        !some_not_written(outcomes) ==> tally_of(outcomes).written == written_count(outcomes),
    decreases outcomes.len(),
{
    if outcomes.len() > 0 {
        let before = outcomes.drop_last();
        lemma_tally_counts_written(before);
        if some_not_written(before) {
            let i = choose|i: int|
                0 <= i < before.len() && #[trigger] before[i] == FileOutcome::NotWritten;
            assert(outcomes[i] == FileOutcome::NotWritten);
        }
        if outcomes.last() == FileOutcome::NotWritten {
            assert(outcomes[outcomes.len() - 1] == FileOutcome::NotWritten);
        }
        if some_not_written(outcomes) && !some_not_written(before) {
            let i = choose|i: int|
                0 <= i < outcomes.len() && #[trigger] outcomes[i] == FileOutcome::NotWritten;
            if i < before.len() {
                assert(before[i] == FileOutcome::NotWritten);
            }
        }
    }
}

} // verus!
