//! Building an icon container from the PNG files of a folder.
//!
//! The folder is looked at through one candidate per canonical size: what the
//! caller found under the name that `naming::size_file_name` gives for that
//! size. Candidates are examined in ascending order of size. A candidate
//! that is absent, unreadable or of the wrong dimensions is passed over; one
//! that is no PNG image at all ends the run.

use vstd::prelude::*;
use crate::codec::{
    container_bytes, container_size, dir_view, entry_record, new_icon_dir, payload_size,
    png_decoded, png_record, read_png, write_container, DirView, EntryRecord,
    MAX_CONTAINER_SIZE,
};
use crate::sizes::{ICON_SIZES, SIZE_COUNT};

verus! {

/// What the caller found where the PNG file of one canonical size is looked
/// for.
#[derive(Debug)]
pub enum SizeInput {
    /// There is no such file.
    Missing,
    /// There is such a file, and it cannot be opened.
    Unreadable,
    /// The content of the file.
    Png(Vec<u8>),
}

/// A candidate as the contracts see it.
pub enum Candidate {
    /// There is no such file.
    Missing,
    /// There is such a file, and it cannot be opened.
    Unreadable,
    /// The content of the file.
    Png(Seq<u8>),
}

impl View for SizeInput {
    type V = Candidate;

    open spec fn view(&self) -> Candidate {
        match *self {
            SizeInput::Missing => Candidate::Missing,
            SizeInput::Unreadable => Candidate::Unreadable,
            SizeInput::Png(bytes) => Candidate::Png(bytes@),
        }
    }
}

/// The candidates of a folder as the contracts see them.
pub open spec fn contents(inputs: Seq<SizeInput>) -> Seq<Candidate> {
    inputs.map_values(|input: SizeInput| input@)
}

/// What became of the candidate of one canonical size.
#[derive(Clone, Copy, Debug, PartialEq, Eq, Structural)]
pub enum SizeOutcome {
    /// There was no file: the size is left out.
    Missing,
    /// The file could not be opened: the size is left out.
    Unreadable,
    /// The image has the dimensions given here and not those of the size:
    /// the size is left out.
    Mismatch { width: u32, height: u32 },
    /// The image was added to the container.
    Added,
}

/// Why no container was made.
#[derive(Clone, Copy, Debug, PartialEq, Eq, Structural)]
pub enum EncodeError {
    /// The file of this size is not a PNG image that the codec decodes.
    Undecodable { size: u32 },
    /// The codec failed to encode the image of this size.
    Unencodable { size: u32 },
    /// With the image of this size the container would exceed what the
    /// format can address.
    TooLarge { size: u32 },
    /// No candidate was added.
    NoInput,
    /// The codec failed to write the container.
    Unwritable,
}

impl EncodeError {
    /// Whether the error is one that the codec reported.
    pub open spec fn from_codec(self) -> bool {
        self is Undecodable || self is Unencodable || self is Unwritable
    }
}

/// A container file and how it came about.
#[derive(Debug)]
pub struct IcoFile {
    /// The content of the container file.
    pub bytes: Vec<u8>,
    /// The number of images in the container.
    pub images: usize,
    /// What became of each canonical size, in ascending order of size.
    pub report: Vec<SizeOutcome>,
}

/// A container file as the contracts see it.
pub struct IcoFileView {
    /// The content of the container file.
    pub bytes: Seq<u8>,
    /// The number of images in the container.
    pub images: nat,
    /// What became of each canonical size, in ascending order of size.
    pub report: Seq<SizeOutcome>,
}

impl View for IcoFile {
    type V = IcoFileView;

    open spec fn view(&self) -> IcoFileView {
        IcoFileView { bytes: self.bytes@, images: self.images as nat, report: self.report@ }
    }
}

/// A run that made no container.
#[derive(Debug)]
pub struct EncodeFailure {
    /// Why no container was made.
    pub error: EncodeError,
    /// What the codec reported, where the error is one of the codec.
    pub cause: Option<std::io::Error>,
    /// What became of the canonical sizes that were examined before the run
    /// ended, in ascending order of size.
    pub report: Vec<SizeOutcome>,
}

/// A failed run as the contracts see it: without what the codec reported.
pub struct EncodeFailureView {
    /// Why no container was made.
    pub error: EncodeError,
    /// What became of the canonical sizes that were examined before the run
    /// ended.
    pub report: Seq<SizeOutcome>,
}

impl View for EncodeFailure {
    type V = EncodeFailureView;

    open spec fn view(&self) -> EncodeFailureView {
        EncodeFailureView { error: self.error, report: self.report@ }
    }
}

/// The result of a run as the contracts see it.
pub open spec fn encoded(r: Result<IcoFile, EncodeFailure>) -> Result<
    IcoFileView,
    EncodeFailureView,
> {
    match r {
        Ok(file) => Ok(file@),
        Err(failure) => Err(failure@),
    }
}

/// What examining one candidate leads to.
pub enum Verdict {
    /// The size is left out, for the reason given.
    Skip(SizeOutcome),
    /// The entry is to be added to the container.
    Add(EntryRecord),
    /// The run ends with the error given.
    Stop(EncodeError),
}

/// The verdict on the candidate of `size`: a file that is there has to
/// decode as a PNG image, the image has to be `size` pixels wide and high,
/// and the codec has to encode it.
pub open spec fn verdict(size: u32, candidate: Candidate) -> Verdict {
    match candidate {
        Candidate::Missing => Verdict::Skip(SizeOutcome::Missing),
        Candidate::Unreadable => Verdict::Skip(SizeOutcome::Unreadable),
        Candidate::Png(bytes) => match png_decoded(bytes) {
            None => Verdict::Stop(EncodeError::Undecodable { size }),
            Some(image) => if image.width != size || image.height != size {
                Verdict::Skip(SizeOutcome::Mismatch { width: image.width, height: image.height })
            } else {
                match png_record(image) {
                    None => Verdict::Stop(EncodeError::Unencodable { size }),
                    Some(entry) => Verdict::Add(entry),
                }
            },
        },
    }
}

/// How far a run has come.
pub struct Progress {
    /// The entries added so far, in the order in which they were added.
    pub entries: Seq<EntryRecord>,
    /// What became of the sizes examined so far.
    pub report: Seq<SizeOutcome>,
    /// The error that ended the run, if one did.
    pub stopped: Option<EncodeError>,
}

/// The run after the candidates of the first `n` canonical sizes. Once an
/// error has ended the run, nothing more is examined.
pub open spec fn progress(candidates: Seq<Candidate>, n: nat) -> Progress
    decreases n,
{
    if n == 0 {
        Progress { entries: Seq::empty(), report: Seq::empty(), stopped: None }
    } else {
        let before = progress(candidates, (n - 1) as nat);
        let size = ICON_SIZES[n - 1];
        if before.stopped is Some {
            before
        } else {
            match verdict(size, candidates[n - 1]) {
                Verdict::Skip(outcome) => Progress {
                    report: before.report.push(outcome),
                    ..before
                },
                Verdict::Add(entry) => if container_size(before.entries.push(entry))
                    > MAX_CONTAINER_SIZE {
                    Progress { stopped: Some(EncodeError::TooLarge { size }), ..before }
                } else {
                    Progress {
                        entries: before.entries.push(entry),
                        report: before.report.push(SizeOutcome::Added),
                        stopped: None,
                    }
                },
                Verdict::Stop(error) => Progress { stopped: Some(error), ..before },
            }
        }
    }
}

/// The directory of icons that holds `entries`.
pub open spec fn icon_dir(entries: Seq<EntryRecord>) -> DirView {
    DirView { cursor: false, entries }
}

/// What a run over `candidates` yields: the container of the entries that
/// were added, in ascending order of size, or the reason why there is none.
pub open spec fn encoding(candidates: Seq<Candidate>) -> Result<IcoFileView, EncodeFailureView> {
    let run = progress(candidates, SIZE_COUNT as nat);
    match run.stopped {
        Some(error) => Err(EncodeFailureView { error, report: run.report }),
        None => if run.entries.len() == 0 {
            Err(EncodeFailureView { error: EncodeError::NoInput, report: run.report })
        } else {
            match container_bytes(icon_dir(run.entries)) {
                Some(bytes) => Ok(
                    IcoFileView { bytes, images: run.entries.len(), report: run.report },
                ),
                None => Err(
                    EncodeFailureView { error: EncodeError::Unwritable, report: run.report },
                ),
            }
        },
    }
}

/// A run that an error has ended stays as it is.
pub proof fn lemma_stopped_stays(candidates: Seq<Candidate>, n: nat, m: nat)
    requires
        n <= m,
        progress(candidates, n).stopped is Some,
    ensures
        progress(candidates, m) == progress(candidates, n),
    decreases m,
{
    if n < m {
        lemma_stopped_stays(candidates, n, (m - 1) as nat);
    }
}

/// With one more entry the payloads grow by that entry's payload.
proof fn lemma_payload_size_push(entries: Seq<EntryRecord>, entry: EntryRecord)
    ensures
        payload_size(entries.push(entry)) == payload_size(entries) + entry.data.len(),
{
    assert(entries.push(entry).drop_last() =~= entries);
}

/// Builds the icon container of a folder from the candidates of the
/// canonical sizes, `inputs[i]` being the one of `ICON_SIZES[i]`.
///
/// The result is `Ok` exactly if no candidate ends the run and at least one
/// is added; what it holds, and the error otherwise, is what `encoding`
/// says.
pub fn create_ico(inputs: &[SizeInput; SIZE_COUNT]) -> (r: Result<IcoFile, EncodeFailure>)
    ensures
        encoded(r) == encoding(contents(inputs@)),
        r matches Err(failure) ==> (failure.cause is Some <==> failure.error.from_codec()),
{
    let ghost candidates = contents(inputs@);
    let mut dir = new_icon_dir();
    let mut report: Vec<SizeOutcome> = Vec::new();
    let mut total: u64 = 6;
    let mut i: usize = 0;
    while i < SIZE_COUNT
        invariant
            i <= SIZE_COUNT,
            candidates == contents(inputs@),
            progress(candidates, i as nat).stopped is None,
            dir_view(dir) == icon_dir(progress(candidates, i as nat).entries),
            progress(candidates, i as nat).report == report@,
            total == container_size(dir_view(dir).entries),
            total <= MAX_CONTAINER_SIZE,
        decreases SIZE_COUNT - i,
    {
        let size = ICON_SIZES[i];
        match &inputs[i] {
            SizeInput::Missing => {
                report.push(SizeOutcome::Missing);
            },
            SizeInput::Unreadable => {
                report.push(SizeOutcome::Unreadable);
            },
            SizeInput::Png(bytes) => {
                let image = match read_png(bytes.as_slice()) {
                    Ok(image) => image,
                    Err(cause) => {
                        proof {
                            lemma_stopped_stays(
                                candidates,
                                (i + 1) as nat,
                                SIZE_COUNT as nat,
                            );
                        }
                        return Err(
                            EncodeFailure {
                                error: EncodeError::Undecodable { size },
                                cause: Some(cause),
                                report,
                            },
                        );
                    },
                };
                if image.width() != size || image.height() != size {
                    report.push(
                        SizeOutcome::Mismatch { width: image.width(), height: image.height() },
                    );
                } else {
                    let entry = match ico::IconDirEntry::encode_as_png(&image) {
                        Ok(entry) => entry,
                        Err(cause) => {
                            proof {
                                lemma_stopped_stays(
                                    candidates,
                                    (i + 1) as nat,
                                    SIZE_COUNT as nat,
                                );
                            }
                            return Err(
                                EncodeFailure {
                                    error: EncodeError::Unencodable { size },
                                    cause: Some(cause),
                                    report,
                                },
                            );
                        },
                    };
                    let payload = entry.data().len() as u64;
                    proof {
                        lemma_payload_size_push(dir_view(dir).entries, entry_record(entry));
                    }
                    if payload > MAX_CONTAINER_SIZE - total || MAX_CONTAINER_SIZE - total - payload
                        < 16 {
                        proof {
                            lemma_stopped_stays(
                                candidates,
                                (i + 1) as nat,
                                SIZE_COUNT as nat,
                            );
                        }
                        return Err(
                            EncodeFailure {
                                error: EncodeError::TooLarge { size },
                                cause: None,
                                report,
                            },
                        );
                    }
                    total = total + 16 + payload;
                    dir.add_entry(entry);
                    report.push(SizeOutcome::Added);
                }
            },
        }
        i += 1;
    }
    let images = dir.entries().len();
    if images == 0 {
        return Err(EncodeFailure { error: EncodeError::NoInput, cause: None, report });
    }
    match write_container(&dir) {
        Ok(bytes) => Ok(IcoFile { bytes, images, report }),
        Err(cause) => Err(
            EncodeFailure { error: EncodeError::Unwritable, cause: Some(cause), report },
        ),
    }
}

} // verus!
