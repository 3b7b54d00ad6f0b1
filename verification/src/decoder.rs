//! Extracting the images of an icon container as PNG files.
//!
//! The entries are taken in their stored order. Each has to carry a PNG
//! payload that the codec decodes; the first that does not ends the run, and
//! what was extracted before it is handed out with the error.

use vstd::prelude::*;
use crate::codec::{
    dir_view, entry_image, entry_record, has_png_signature, parsed_container, png_file,
    read_container, records, reported_depth, write_png, EntryRecord,
};
use crate::naming::{construct_entry_name, entry_name};

verus! {

/// A PNG file extracted from a container.
#[derive(Debug)]
pub struct ExtractedPng {
    /// The name of the file.
    pub name: String,
    /// The content of the file.
    pub png: Vec<u8>,
}

/// An extracted file as the contracts see it.
pub struct ExtractedPngView {
    /// The name of the file.
    pub name: Seq<char>,
    /// The content of the file.
    pub png: Seq<u8>,
}

impl View for ExtractedPng {
    type V = ExtractedPngView;

    open spec fn view(&self) -> ExtractedPngView {
        ExtractedPngView { name: self.name@, png: self.png@ }
    }
}

/// Extracted files as the contracts see them.
pub open spec fn file_views(files: Seq<ExtractedPng>) -> Seq<ExtractedPngView> {
    files.map_values(|file: ExtractedPng| file@)
}

/// Why a run ended before the last entry.
#[derive(Clone, Copy, Debug, PartialEq, Eq, Structural)]
pub enum DecodeError {
    /// The file is not a container that the codec parses.
    Container,
    /// The payload of the entry at this index is not PNG data.
    NotPng { index: usize },
    /// The codec failed to decode the entry at this index.
    Undecodable { index: usize },
    /// The codec failed to encode the image of the entry at this index as a
    /// PNG file.
    Unencodable { index: usize },
}

impl DecodeError {
    /// Whether the error is one that the codec reported.
    pub open spec fn from_codec(self) -> bool {
        self is Container || self is Undecodable || self is Unencodable
    }
}

/// A run that ended before the last entry.
#[derive(Debug)]
pub struct DecodeFailure {
    /// Why the run ended.
    pub error: DecodeError,
    /// What the codec reported, where the error is one of the codec.
    pub cause: Option<std::io::Error>,
    /// The files of the entries before the one that ended the run, in the
    /// stored order of the entries.
    pub extracted: Vec<ExtractedPng>,
}

/// A failed run as the contracts see it: without what the codec reported.
pub struct DecodeFailureView {
    /// Why the run ended.
    pub error: DecodeError,
    /// The files of the entries before the one that ended the run.
    pub extracted: Seq<ExtractedPngView>,
}

impl View for DecodeFailure {
    type V = DecodeFailureView;

    open spec fn view(&self) -> DecodeFailureView {
        DecodeFailureView { error: self.error, extracted: file_views(self.extracted@) }
    }
}

/// The result of a run as the contracts see it.
pub open spec fn decoded(r: Result<Vec<ExtractedPng>, DecodeFailure>) -> Result<
    Seq<ExtractedPngView>,
    DecodeFailureView,
> {
    match r {
        Ok(files) => Ok(file_views(files@)),
        Err(failure) => Err(failure@),
    }
}

/// The file that the entry at `index` is extracted into, or the error with
/// which it ends the run: its payload has to be PNG data, the codec has to
/// decode it, and the codec has to encode the image as a PNG file. The file
/// is named after what the entry records.
pub open spec fn extracted_file(index: usize, entry: EntryRecord) -> Result<
    ExtractedPngView,
    DecodeError,
> {
    if !has_png_signature(entry.data) {
        Err(DecodeError::NotPng { index })
    } else {
        match entry_image(entry) {
            None => Err(DecodeError::Undecodable { index }),
            Some(image) => match png_file(image.width, image.height, image.pixels) {
                None => Err(DecodeError::Unencodable { index }),
                Some(png) => Ok(
                    ExtractedPngView {
                        name: entry_name(entry.width, entry.height, reported_depth(entry)),
                        png,
                    },
                ),
            },
        }
    }
}

/// How far a run has come.
pub struct Extraction {
    /// The files extracted so far, in the stored order of their entries.
    pub files: Seq<ExtractedPngView>,
    /// The error that ended the run, if one did.
    pub stopped: Option<DecodeError>,
}

/// The run after the first `n` of `entries`. Once an error has ended the
/// run, nothing more is extracted.
pub open spec fn extraction(entries: Seq<EntryRecord>, n: nat) -> Extraction
    decreases n,
{
    if n == 0 {
        Extraction { files: Seq::empty(), stopped: None }
    } else {
        let before = extraction(entries, (n - 1) as nat);
        if before.stopped is Some {
            before
        } else {
            match extracted_file((n - 1) as usize, entries[n - 1]) {
                Ok(file) => Extraction { files: before.files.push(file), stopped: None },
                Err(error) => Extraction { stopped: Some(error), ..before },
            }
        }
    }
}

/// What a run over the container file `bytes` yields: one PNG file for each
/// entry, in the stored order of the entries, or the error that ended the
/// run and the files of the entries before it.
pub open spec fn decoding(bytes: Seq<u8>) -> Result<Seq<ExtractedPngView>, DecodeFailureView> {
    match parsed_container(bytes) {
        None => Err(DecodeFailureView { error: DecodeError::Container, extracted: Seq::empty() }),
        Some(dir) => {
            let run = extraction(dir.entries, dir.entries.len());
            match run.stopped {
                Some(error) => Err(DecodeFailureView { error, extracted: run.files }),
                None => Ok(run.files),
            }
        },
    }
}

/// A run that an error has ended stays as it is.
pub proof fn lemma_stopped_stays(entries: Seq<EntryRecord>, n: nat, m: nat)
    requires
        n <= m,
        extraction(entries, n).stopped is Some,
    ensures
        extraction(entries, m) == extraction(entries, n),
    decreases m,
{
    if n < m {
        lemma_stopped_stays(entries, n, (m - 1) as nat);
    }
}

/// Extracts the images of the container file `container` as PNG files.
///
/// The result is `Ok` exactly if the codec parses the container and every
/// entry yields a file; what it holds, and the error otherwise, is what
/// `decoding` says.
pub fn extract_pngs(container: &[u8]) -> (r: Result<Vec<ExtractedPng>, DecodeFailure>)
    ensures
        decoded(r) == decoding(container@),
        r matches Err(failure) ==> (failure.cause is Some <==> failure.error.from_codec()),
{
    let dir = match read_container(container) {
        Ok(dir) => dir,
        Err(cause) => {
            let extracted: Vec<ExtractedPng> = Vec::new();
            assert(file_views(extracted@) =~= Seq::empty());
            return Err(
                DecodeFailure { error: DecodeError::Container, cause: Some(cause), extracted },
            );
        },
    };
    let entries = dir.entries();
    let mut files: Vec<ExtractedPng> = Vec::new();
    let mut i: usize = 0;
    while i < entries.len()
        invariant
            i <= entries.len(),
            parsed_container(container@) == Some(dir_view(dir)),
            records(entries@) == dir_view(dir).entries,
            extraction(dir_view(dir).entries, i as nat).stopped is None,
            extraction(dir_view(dir).entries, i as nat).files == file_views(files@),
        decreases entries.len() - i,
    {
        let entry = &entries[i];
        if !entry.is_png() {
            proof {
                lemma_stopped_stays(dir_view(dir).entries, (i + 1) as nat, entries@.len());
            }
            return Err(
                DecodeFailure {
                    error: DecodeError::NotPng { index: i },
                    cause: None,
                    extracted: files,
                },
            );
        }
        let image = match entry.decode() {
            Ok(image) => image,
            Err(cause) => {
                proof {
                    lemma_stopped_stays(dir_view(dir).entries, (i + 1) as nat, entries@.len());
                }
                return Err(
                    DecodeFailure {
                        error: DecodeError::Undecodable { index: i },
                        cause: Some(cause),
                        extracted: files,
                    },
                );
            },
        };
        let name = construct_entry_name(entry);
        let png = match write_png(&image) {
            Ok(png) => png,
            Err(cause) => {
                proof {
                    lemma_stopped_stays(dir_view(dir).entries, (i + 1) as nat, entries@.len());
                }
                return Err(
                    DecodeFailure {
                        error: DecodeError::Unencodable { index: i },
                        cause: Some(cause),
                        extracted: files,
                    },
                );
            },
        };
        let file = ExtractedPng { name, png };
        files.push(file);
        i += 1;
    }
    Ok(files)
}

/// How the writing of an extracted file went.
#[derive(Clone, Copy, Debug, PartialEq, Eq, Structural)]
pub enum FileOutcome {
    /// The file was created and written.
    Written,
    /// The file could not be created: it is passed over.
    NotCreated,
    /// The file was created and could not be written: the run ends.
    NotWritten,
}

/// The count of the files that a run has written, and whether it has ended.
#[derive(Clone, Copy, Debug, PartialEq, Eq, Structural)]
pub struct Tally {
    /// How many files were written.
    pub written: usize,
    /// Whether a file that could not be written has ended the run.
    pub ended: bool,
}

impl Tally {
    /// The tally after one more file: a file that was written counts, one
    /// that could not be created does not, and one that could not be
    /// written ends the run. After the end nothing counts.
    pub open spec fn after(self, outcome: FileOutcome) -> Tally {
        if self.ended {
            self
        } else {
            match outcome {
                FileOutcome::Written => Tally { written: (self.written + 1) as usize, ..self },
                FileOutcome::NotCreated => self,
                FileOutcome::NotWritten => Tally { ended: true, ..self },
            }
        }
    }

    /// The tally of a run before its first file.
    pub fn new() -> (tally: Tally)
        ensures
            tally == (Tally { written: 0, ended: false }),
    {
        Tally { written: 0, ended: false }
    }

    /// The tally after one more file.
    pub fn record(self, outcome: FileOutcome) -> (tally: Tally)
        requires
            self.written < usize::MAX,
        ensures
            tally == self.after(outcome),
    {
        if self.ended {
            return self;
        }
        match outcome {
            FileOutcome::Written => Tally { written: self.written + 1, ended: false },
            FileOutcome::NotCreated => self,
            FileOutcome::NotWritten => Tally { written: self.written, ended: true },
        }
    }
}

/// The tally after the files of `outcomes`, from an empty one.
pub open spec fn tally_of(outcomes: Seq<FileOutcome>) -> Tally
    decreases outcomes.len(),
{
    if outcomes.len() == 0 {
        Tally { written: 0, ended: false }
    } else {
        tally_of(outcomes.drop_last()).after(outcomes.last())
    }
}

} // verus!
