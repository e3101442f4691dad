//! The content fetcher: one download, as a machine that is told what the
//! network and the disk did and answers with what to do next.

use vstd::prelude::*;
use crate::error::ErrorKind;
use crate::text::join3;
use crate::trusted::format_byte_size;

verus! {

/// Where every resource is fetched from.
pub const BASE_URL: &'static str = "https://sb.base10.org/starbound/modpack/";

/// Why a download ended without its file.
#[derive(Clone, Copy, Debug, PartialEq, Eq, Structural)]
pub enum FetchError {
    /// The request could not be made, or the body broke off.
    TransportError,
    /// The server answered with a status outside 200..=299.
    ServerError,
    /// The server did not say how long the body is.
    LengthUnknown,
    /// The destination could not be created or written.
    IoError,
}

impl FetchError {
    /// The kind of this failure among all kinds.
    pub open spec fn kind_of(self) -> ErrorKind {
        match self {
            FetchError::TransportError => ErrorKind::TransportError,
            FetchError::ServerError => ErrorKind::ServerError,
            FetchError::LengthUnknown => ErrorKind::LengthUnknown,
            FetchError::IoError => ErrorKind::IoError,
        }
    }

    /// The kind of this failure among all kinds.
    pub fn kind(&self) -> (kind: ErrorKind)
        ensures
            kind == self.kind_of(),
    {
        match self {
            FetchError::TransportError => ErrorKind::TransportError,
            FetchError::ServerError => ErrorKind::ServerError,
            FetchError::LengthUnknown => ErrorKind::LengthUnknown,
            FetchError::IoError => ErrorKind::IoError,
        }
    }
}

/// How far a download has come.
#[derive(Clone, Copy, Debug, PartialEq, Eq, Structural)]
pub enum FetchStage {
    /// The request is out; no answer yet.
    Requesting,
    /// The answer was accepted; the destination is being created.
    Creating,
    /// The destination exists; chunks are being written.
    Streaming,
    /// The whole body was written.
    Finished,
    /// The download was given up.
    Failed(FetchError),
}

/// What happened outside since the last step.
#[derive(Clone, Copy, Debug, PartialEq, Eq, Structural)]
pub enum FetchEvent {
    /// The request failed before any answer came.
    Unreachable,
    /// The server answered.
    Response { status: u16, length: Option<u64> },
    /// The destination was created empty.
    Created,
    /// The destination could not be created.
    CreateFailed,
    /// A chunk of `len` bytes arrived and was written.
    ChunkWritten { len: u64 },
    /// The body broke off.
    ChunkFailed,
    /// A chunk arrived and could not be written.
    WriteFailed,
    /// The body ended.
    End,
}

/// What was written of a download so far, and what the whole is.
#[derive(Clone, Copy, Debug, PartialEq, Eq, Structural)]
pub struct Progress {
    pub written: u64,
    pub total: u64,
}

/// What to do next.
#[derive(Clone, Debug, PartialEq, Eq)]
#[allow(inconsistent_fields)]
pub enum FetchAction {
    /// Create the destination afresh, dropping what it held.
    CreateFile,
    /// Report `progress`, if any, then read and write the next chunk.
    ReadChunk { progress: Option<Progress> },
    /// Log `log`; the download succeeded.
    Complete { log: String },
    /// Log `log`, if any; the download failed with `message`.
    Abort { error: FetchError, log: Option<String>, message: String },
    /// The event does not belong to the stage; nothing changed.
    Nothing,
}

/// One download: what is fetched, where to, and how far it has come.
#[derive(Clone, Debug, PartialEq, Eq)]
pub struct Fetch {
    pub url: String,
    pub filename: String,
    pub path: String,
    pub stage: FetchStage,
    pub written: u64,
    pub total: u64,
}

/// A `Fetch` with its texts as sequences of characters.
pub struct FetchView {
    pub url: Seq<char>,
    pub filename: Seq<char>,
    pub path: Seq<char>,
    pub stage: FetchStage,
    pub written: u64,
    pub total: u64,
}

/// A `FetchAction` with its texts as sequences of characters.
#[allow(inconsistent_fields)]
pub enum FetchActionView {
    CreateFile,
    ReadChunk { progress: Option<Progress> },
    Complete { log: Seq<char> },
    Abort { error: FetchError, log: Option<Seq<char>>, message: Seq<char> },
    Nothing,
}

impl View for Fetch {
    type V = FetchView;

    open spec fn view(&self) -> FetchView {
        FetchView {
            url: self.url@,
            filename: self.filename@,
            path: self.path@,
            stage: self.stage,
            written: self.written,
            total: self.total,
        }
    }
}

impl View for FetchAction {
    type V = FetchActionView;

    open spec fn view(&self) -> FetchActionView {
        match *self {
            FetchAction::CreateFile => FetchActionView::CreateFile,
            FetchAction::ReadChunk { progress } => FetchActionView::ReadChunk { progress },
            FetchAction::Complete { log } => FetchActionView::Complete { log: log@ },
            FetchAction::Abort { error, log, message } => FetchActionView::Abort {
                error,
                log: crate::text::opt_text(log),
                message: message@,
            },
            FetchAction::Nothing => FetchActionView::Nothing,
        }
    }
}

/// Whether a status says the request succeeded.
pub open spec fn is_success(status: u16) -> bool {
    200 <= status < 300
}

/// The bytes written after a chunk of `len` more, never beyond `total`.
pub open spec fn advanced(written: u64, len: u64, total: u64) -> u64 {
    if written + len <= total {
        (written + len) as u64
    } else {
        total
    }
}

/// The status line for a download of `filename`, given the two sizes as
/// they are to be shown.
pub open spec fn progress_text(filename: Seq<char>, written: Seq<char>, total: Seq<char>) -> Seq<
    char,
> {
    "Downloading "@ + filename + ": "@ + written + " of "@ + total + " bytes"@
}

impl FetchView {
    /// This download, given up for `error`.
    pub open spec fn failed(self, error: FetchError) -> FetchView {
        FetchView { stage: FetchStage::Failed(error), ..self }
    }

    /// The download and the action after `event`.
    pub open spec fn step(self, event: FetchEvent) -> (FetchView, FetchActionView) {
        match (self.stage, event) {
            (FetchStage::Requesting, FetchEvent::Unreachable) => (
                self.failed(FetchError::TransportError),
                FetchActionView::Abort {
                    error: FetchError::TransportError,
                    log: None,
                    message: "Failed to GET from '"@ + self.url + "'"@,
                },
            ),
            (FetchStage::Requesting, FetchEvent::Response { status, length }) => {
                if !is_success(status) {
                    (
                        self.failed(FetchError::ServerError),
                        FetchActionView::Abort {
                            error: FetchError::ServerError,
                            log: Some("Failed to download "@ + self.filename + "!"@),
                            message: "Error downloading file!"@,
                        },
                    )
                } else {
                    match length {
                        None => (
                            self.failed(FetchError::LengthUnknown),
                            FetchActionView::Abort {
                                error: FetchError::LengthUnknown,
                                log: None,
                                message: "Failed to get content length from '"@ + self.url + "'"@,
                            },
                        ),
                        Some(total) => (
                            FetchView { stage: FetchStage::Creating, written: 0, total, ..self },
                            FetchActionView::CreateFile,
                        ),
                    }
                }
            },
            (FetchStage::Creating, FetchEvent::Created) => (
                FetchView { stage: FetchStage::Streaming, ..self },
                FetchActionView::ReadChunk { progress: None },
            ),
            (FetchStage::Creating, FetchEvent::CreateFailed) => (
                self.failed(FetchError::IoError),
                FetchActionView::Abort {
                    error: FetchError::IoError,
                    log: None,
                    message: "Failed to create file '"@ + self.path + "'"@,
                },
            ),
            (FetchStage::Streaming, FetchEvent::ChunkWritten { len }) => {
                let written = advanced(self.written, len, self.total);
                (
                    FetchView { written, ..self },
                    FetchActionView::ReadChunk {
                        progress: Some(Progress { written, total: self.total }),
                    },
                )
            },
            (FetchStage::Streaming, FetchEvent::ChunkFailed) => (
                self.failed(FetchError::TransportError),
                FetchActionView::Abort {
                    error: FetchError::TransportError,
                    log: None,
                    message: "Error while downloading file"@,
                },
            ),
            (FetchStage::Streaming, FetchEvent::WriteFailed) => (
                self.failed(FetchError::IoError),
                FetchActionView::Abort {
                    error: FetchError::IoError,
                    log: None,
                    message: "Error while writing to file"@,
                },
            ),
            (FetchStage::Streaming, FetchEvent::End) => (
                FetchView { stage: FetchStage::Finished, ..self },
                FetchActionView::Complete { log: "Finished Downloading "@ + self.filename },
            ),
            _ => (self, FetchActionView::Nothing),
        }
    }
}

/// The address of a resource: the base address, then the relative one.
pub fn resource_url(relative_url: &str) -> (url: String)
    ensures
        url@ == BASE_URL@ + relative_url@,
{
    let mut url = BASE_URL.to_owned();
    url.append(relative_url);
    url
}

/// The status line for a download of `filename`, given the two sizes as
/// they are to be shown.
pub fn progress_line(filename: &str, written: &str, total: &str) -> (line: String)
    ensures
        line@ == progress_text(filename@, written@, total@),
{
    let mut line = join3("Downloading ", filename, ": ");
    line.append(written);
    line.append(" of ");
    line.append(total);
    line.append(" bytes");
    line
}

/// The status line for a download of `filename` that has come as far as
/// `progress`. The two sizes are shown as `bytesize` words them; the line
/// around them is `progress_text`.
pub fn progress_message(filename: &str, progress: Progress) -> (line: String)
    ensures
        exists|written: Seq<char>, total: Seq<char>|
            line@ == #[trigger] progress_text(filename@, written, total),
{
    let written = format_byte_size(progress.written);
    let total = format_byte_size(progress.total);
    let line = progress_line(filename, written.as_str(), total.as_str());
    assert(line@ == progress_text(filename@, written@, total@));
    line
}

impl Fetch {
    /// A download of `relative_url` into `filename`, which lies at `path`;
    /// the request is yet to be answered.
    pub fn start(relative_url: &str, filename: &str, path: &str) -> (fetch: Fetch)
        ensures
            fetch@ == (FetchView {
                url: BASE_URL@ + relative_url@,
                filename: filename@,
                path: path@,
                stage: FetchStage::Requesting,
                written: 0,
                total: 0,
            }),
    {
        Fetch {
            url: resource_url(relative_url),
            filename: filename.to_owned(),
            path: path.to_owned(),
            stage: FetchStage::Requesting,
            written: 0,
            total: 0,
        }
    }

    fn fail(&mut self, error: FetchError, log: Option<String>, message: String) -> (action:
        FetchAction)
        ensures
            final(self)@ == old(self)@.failed(error),
            action == (FetchAction::Abort { error, log, message }),
    {
        self.stage = FetchStage::Failed(error);
        FetchAction::Abort { error, log, message }
    }

    /// Takes in what happened and says what to do next.
    pub fn step(&mut self, event: FetchEvent) -> (action: FetchAction)
        ensures
            final(self)@ == old(self)@.step(event).0,
            action@ == old(self)@.step(event).1,
    {
        match (self.stage, event) {
            (FetchStage::Requesting, FetchEvent::Unreachable) => {
                let message = join3("Failed to GET from '", self.url.as_str(), "'");
                self.fail(FetchError::TransportError, None, message)
            },
            (FetchStage::Requesting, FetchEvent::Response { status, length }) => {
                if !(200 <= status && status < 300) {
                    let log = join3("Failed to download ", self.filename.as_str(), "!");
                    self.fail(
                        FetchError::ServerError,
                        Some(log),
                        "Error downloading file!".to_owned(),
                    )
                } else {
                    match length {
                        None => {
                            let message = join3(
                                "Failed to get content length from '",
                                self.url.as_str(),
                                "'",
                            );
                            self.fail(FetchError::LengthUnknown, None, message)
                        },
                        Some(total) => {
                            self.stage = FetchStage::Creating;
                            self.written = 0;
                            self.total = total;
                            FetchAction::CreateFile
                        },
                    }
                }
            },
            (FetchStage::Creating, FetchEvent::Created) => {
                self.stage = FetchStage::Streaming;
                FetchAction::ReadChunk { progress: None }
            },
            (FetchStage::Creating, FetchEvent::CreateFailed) => {
                let message = join3("Failed to create file '", self.path.as_str(), "'");
                self.fail(FetchError::IoError, None, message)
            },
            (FetchStage::Streaming, FetchEvent::ChunkWritten { len }) => {
                let written: u64 = if self.written <= self.total && len <= self.total
                    - self.written {
                    self.written + len
                } else {
                    self.total
                };
                self.written = written;
                FetchAction::ReadChunk { progress: Some(Progress { written, total: self.total }) }
            },
            (FetchStage::Streaming, FetchEvent::ChunkFailed) => self.fail(
                FetchError::TransportError,
                None,
                "Error while downloading file".to_owned(),
            ),
            (FetchStage::Streaming, FetchEvent::WriteFailed) => self.fail(
                FetchError::IoError,
                None,
                "Error while writing to file".to_owned(),
            ),
            (FetchStage::Streaming, FetchEvent::End) => {
                self.stage = FetchStage::Finished;
                let mut log = "Finished Downloading ".to_owned();
                log.append(self.filename.as_str());
                FetchAction::Complete { log }
            },
            _ => FetchAction::Nothing,
        }
    }
}

/// The count of bytes written never passes the length that the server
/// announced.
pub proof fn lemma_written_stays_within_total(fetch: FetchView, event: FetchEvent)
    requires
        fetch.written <= fetch.total,
    ensures
        fetch.step(event).0.written <= fetch.step(event).0.total,
        fetch.step(event).0.written >= fetch.written || fetch.stage is Requesting,
{
}

/// A download goes on past the answer only if the status is a success and
/// the length is known; a status that is no success is a server error, and
/// a success without a length is an unknown length.
pub proof fn lemma_response_is_accepted_iff(fetch: FetchView, status: u16, length: Option<u64>)
    requires
        fetch.stage is Requesting,
    ensures
        fetch.step(FetchEvent::Response { status, length }).0.stage is Creating <==> is_success(
            status,
        ) && length is Some,
        !is_success(status) ==> fetch.step(FetchEvent::Response { status, length }).0.stage
            == FetchStage::Failed(FetchError::ServerError),
        is_success(status) && length is None ==> fetch.step(
            FetchEvent::Response { status, length },
        ).0.stage == FetchStage::Failed(FetchError::LengthUnknown),
        is_success(status) && length is Some ==> fetch.step(
            FetchEvent::Response { status, length },
        ).0.total == length->0 && fetch.step(FetchEvent::Response { status, length }).0.written
            == 0,
{
}

/// The destination is created before any chunk is read: a chunk is asked
/// for only while streaming, and streaming begins only once the destination
/// was created. Progress is reported after every chunk that was written,
/// and only then: what is written by now, and the whole.
pub proof fn lemma_chunks_follow_creation(fetch: FetchView, event: FetchEvent)
    ensures
        fetch.step(event).1 is ReadChunk ==> fetch.step(event).0.stage is Streaming && (
        fetch.stage is Streaming || (fetch.stage is Creating && event is Created)),
        fetch.step(event).1 is CreateFile ==> fetch.stage is Requesting && fetch.step(
            event,
        ).0.stage is Creating,
        fetch.step(event).1 is ReadChunk && fetch.step(event).1->progress is Some ==> event
            is ChunkWritten,
        fetch.stage is Streaming && event is ChunkWritten ==> fetch.step(event).1 == (
        FetchActionView::ReadChunk {
            progress: Some(
                Progress { written: fetch.step(event).0.written, total: fetch.step(event).0.total },
            ),
        }),
{
}

/// A download that has finished or failed stays as it is, whatever is
/// reported to it, and nothing is retried.
pub proof fn lemma_ended_fetch_is_final(fetch: FetchView, event: FetchEvent)
    requires
        fetch.stage is Finished || fetch.stage is Failed,
    ensures
        fetch.step(event).0 == fetch,
        fetch.step(event).1 is Nothing,
{
}

/// A download under way fails exactly with the action that aborts it, with
/// the error of that action, and finishes exactly with the action that
/// completes it.
pub proof fn lemma_end_is_announced(fetch: FetchView, event: FetchEvent)
    requires
        !(fetch.stage is Failed),
        !(fetch.stage is Finished),
    ensures
        fetch.step(event).1 is Abort <==> fetch.step(event).0.stage is Failed,
        fetch.step(event).1 is Abort ==> fetch.step(event).0.stage == FetchStage::Failed(
            fetch.step(event).1->error,
        ),
        fetch.step(event).1 is Complete <==> fetch.step(event).0.stage is Finished,
{
}

} // verus!
