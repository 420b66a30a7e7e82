//! What the server answers: the listing of shared files, the headers of a
//! download, and the course of a download that is streamed in bounded chunks.

use crate::registry::{FileEntryView, FileRegistry};
use crate::text::{basename, basename_of, decimal_of, to_decimal};
use vstd::prelude::*;
use vstd::string::StringExecFns;

verus! {

/// The most bytes that are read from a file, and sent, in one piece.
pub const BUFFER_SIZE: usize = 8 * 1024 * 1024;

/// One line of the listing.
#[derive(Debug, PartialEq, Eq)]
pub struct IndexEntry {
    /// The name under which the file is shown.
    pub name: String,
    /// The size of the file in bytes.
    pub size: u64,
    /// Where the file is downloaded from.
    pub href: String,
}

/// An [`IndexEntry`] as contracts see it.
pub struct IndexEntryView {
    pub name: Seq<char>,
    pub size: u64,
    pub href: Seq<char>,
}

impl View for IndexEntry {
    type V = IndexEntryView;

    open spec fn view(&self) -> IndexEntryView {
        IndexEntryView { name: self.name@, size: self.size, href: self.href@ }
    }
}

/// The line that lists `entry`: the last component of its path, its size, and
/// a link made of `/` and its identifier.
pub open spec fn index_entry_of(entry: FileEntryView) -> IndexEntryView {
    IndexEntryView {
        name: basename_of(entry.path),
        size: entry.size,
        href: seq!['/'] + entry.id,
    }
}

/// Lists every registered file, in the order of the registry.
pub fn index(registry: &FileRegistry) -> (lines: Vec<IndexEntry>)
    ensures
        lines@.len() == registry.entries().len(),
        forall|i: int|
            0 <= i < lines@.len() ==> (#[trigger] lines@[i])@ == index_entry_of(
                registry.entries()[i],
            ),
{
    let mut lines: Vec<IndexEntry> = Vec::new();
    let mut i: usize = 0;
    while i < registry.len()
        invariant
            i <= registry.entries().len(),
            lines@.len() == i,
            forall|k: int|
                0 <= k < i ==> (#[trigger] lines@[k])@ == index_entry_of(registry.entries()[k]),
        decreases registry.entries().len() - i,
    {
        let entry = registry.at(i);
        let mut href = String::new();
        href.push('/');
        href.append(entry.id.as_str());
        lines.push(IndexEntry { name: basename(entry.path.as_str()), size: entry.size, href });
        i = i + 1;
    }
    lines
}

/// The headers and the source of a download.
#[derive(Debug, PartialEq, Eq)]
pub struct Download {
    /// The file whose bytes are the body.
    pub path: String,
    /// The number of bytes of the body.
    pub size: u64,
    /// The value of `Content-Type`.
    pub content_type: String,
    /// The value of `Content-Disposition`.
    pub content_disposition: String,
    /// The value of `Content-Length`.
    pub content_length: String,
}

/// A [`Download`] as contracts see it.
pub struct DownloadView {
    pub path: Seq<char>,
    pub size: u64,
    pub content_type: Seq<char>,
    pub content_disposition: Seq<char>,
    pub content_length: Seq<char>,
}

impl View for Download {
    type V = DownloadView;

    open spec fn view(&self) -> DownloadView {
        DownloadView {
            path: self.path@,
            size: self.size,
            content_type: self.content_type@,
            content_disposition: self.content_disposition@,
            content_length: self.content_length@,
        }
    }
}

/// The answer to a request for one file.
#[derive(Debug, PartialEq, Eq)]
pub enum FileResponse {
    /// `200 OK`, with the file as the body.
    Found(Download),
    /// `404 Not Found`, with a line of text as the body.
    NotFound { body: String },
}

/// The download of `entry`: an attachment named after the last component of
/// its path, as long as the size that was registered.
pub open spec fn download_of(entry: FileEntryView) -> DownloadView {
    DownloadView {
        path: entry.path,
        size: entry.size,
        content_type: "application/octet-stream"@,
        content_disposition: ("attachment; filename="@ + seq!['"'] + basename_of(entry.path)).push(
            '"',
        ),
        content_length: decimal_of(entry.size as nat),
    }
}

/// The text that answers a request for an identifier that is not registered.
pub open spec fn not_found_body_of(id: Seq<char>) -> Seq<char> {
    "File not found: "@ + id
}

impl FileResponse {
    /// The status code of the answer.
    pub open spec fn status_of(self) -> int {
        match self {
            FileResponse::Found(_) => 200,
            FileResponse::NotFound { .. } => 404,
        }
    }

    /// The status code of the answer.
    pub fn status(&self) -> (code: u16)
        ensures
            code == self.status_of(),
    {
        match self {
            FileResponse::Found(_) => 200,
            FileResponse::NotFound { .. } => 404,
        }
    }
}

/// Answers a request for the file `file_id`: a download where the registry
/// holds it, `404` where it does not.
pub fn get_file(registry: &FileRegistry, file_id: &str) -> (response: FileResponse)
    ensures
        match response {
            FileResponse::Found(download) => registry@.contains_key(file_id@) && download@
                == download_of(registry@[file_id@]),
            FileResponse::NotFound { body } => !registry@.contains_key(file_id@) && body@
                == not_found_body_of(file_id@),
        },
        response.status_of() == 404 <==> !registry@.contains_key(file_id@),
{
    match registry.get(file_id) {
        Some(entry) => {
            let mut content_disposition = "attachment; filename=".to_owned();
            content_disposition.push('"');
            content_disposition.append(basename(entry.path.as_str()).as_str());
            content_disposition.push('"');
            assert(content_disposition@ =~= download_of(entry@).content_disposition);
            FileResponse::Found(
                Download {
                    path: entry.path.clone(),
                    size: entry.size,
                    content_type: "application/octet-stream".to_owned(),
                    content_disposition,
                    content_length: to_decimal(entry.size),
                },
            )
        },
        None => {
            let mut body = "File not found: ".to_owned();
            body.append(file_id);
            FileResponse::NotFound { body }
        },
    }
}

/// How far a streamed download has come.
#[derive(Clone, Copy, Debug, PartialEq, Eq, Structural)]
pub enum StreamState {
    /// Bytes are still owed to the peer.
    Streaming,
    /// Every byte has been sent.
    Complete,
    /// The download was given up; it is not taken up again.
    Aborted,
}

/// What came of one read from the file.
#[derive(Clone, Copy, Debug, PartialEq, Eq, Structural)]
pub enum ReadOutcome {
    /// So many bytes were read and handed to the peer; none at the end of the
    /// file.
    Read(usize),
    /// The disk or the peer failed.
    Failed,
}

/// What a download does next.
#[derive(Clone, Copy, Debug, PartialEq, Eq, Structural)]
pub enum StreamStep {
    /// Read at most so many bytes from the file and send them.
    Read(usize),
    /// End the body.
    Finish,
    /// Drop the connection.
    Abort,
}

/// A download in progress: `sent` of `size` bytes have gone to the peer.
#[derive(Clone, Copy, Debug, PartialEq, Eq, Structural)]
pub struct FileStream {
    pub size: u64,
    pub sent: u64,
    pub state: StreamState,
}

impl FileStream {
    /// Whether the stream is one that [`FileStream::new`] and
    /// [`FileStream::record`] can give.
    pub open spec fn wf(self) -> bool {
        match self.state {
            StreamState::Streaming => self.sent < self.size,
            StreamState::Complete => self.sent == self.size,
            StreamState::Aborted => self.sent <= self.size,
        }
    }

    /// A download of `size` bytes of which nothing has been sent.
    pub open spec fn start_of(size: u64) -> FileStream {
        FileStream {
            size,
            sent: 0,
            state: if size == 0 {
                StreamState::Complete
            } else {
                StreamState::Streaming
            },
        }
    }

    /// The most bytes that the next read may bring: what is still owed, and no
    /// more than [`BUFFER_SIZE`].
    pub open spec fn wanted(self) -> int {
        if self.state is Streaming && self.sent < self.size {
            if self.size - self.sent < BUFFER_SIZE {
                self.size - self.sent
            } else {
                BUFFER_SIZE as int
            }
        } else {
            0
        }
    }

    /// What the download does next.
    pub open spec fn step_of(self) -> StreamStep {
        match self.state {
            StreamState::Streaming => StreamStep::Read(self.wanted() as usize),
            StreamState::Complete => StreamStep::Finish,
            StreamState::Aborted => StreamStep::Abort,
        }
    }

    /// Whether `outcome` is a read that the download can take: it brought at
    /// least one byte and no more than were wanted.
    pub open spec fn takes(self, outcome: ReadOutcome) -> bool {
        outcome matches ReadOutcome::Read(n) && 0 < n <= self.wanted()
    }

    /// The download after `outcome`. A read that it can take moves it on, and
    /// completes it when nothing is owed any more. Anything else aborts it:
    /// a failure, the end of a file that has become shorter, a read of more
    /// than was wanted. A download that is complete or aborted stays as it is.
    pub open spec fn after(self, outcome: ReadOutcome) -> FileStream {
        if !(self.state is Streaming) {
            self
        } else if self.takes(outcome) {
            let sent = (self.sent + outcome->Read_0) as u64;
            FileStream {
                size: self.size,
                sent,
                state: if sent == self.size {
                    StreamState::Complete
                } else {
                    StreamState::Streaming
                },
            }
        } else {
            FileStream { size: self.size, sent: self.sent, state: StreamState::Aborted }
        }
    }

    /// Starts the download of a file of `size` bytes.
    pub fn new(size: u64) -> (stream: FileStream)
        ensures
            stream == FileStream::start_of(size),
            stream.wf(),
    {
        FileStream {
            size,
            sent: 0,
            state: if size == 0 {
                StreamState::Complete
            } else {
                StreamState::Streaming
            },
        }
    }

    /// Says what to do next.
    pub fn next(&self) -> (step: StreamStep)
        ensures
            step == self.step_of(),
            step matches StreamStep::Read(n) ==> n <= BUFFER_SIZE && (self.wf() ==> 0 < n),
    {
        match self.state {
            StreamState::Streaming => {
                let owed = if self.sent < self.size {
                    self.size - self.sent
                } else {
                    0
                };
                if owed < BUFFER_SIZE as u64 {
                    StreamStep::Read(owed as usize)
                } else {
                    StreamStep::Read(BUFFER_SIZE)
                }
            },
            StreamState::Complete => StreamStep::Finish,
            StreamState::Aborted => StreamStep::Abort,
        }
    }

    /// Takes note of what came of the read that [`FileStream::next`] asked
    /// for.
    pub fn record(&mut self, outcome: ReadOutcome)
        ensures
            *final(self) == old(self).after(outcome),
            old(self).wf() ==> final(self).wf(),
    {
        if let StreamState::Streaming = self.state {
            let owed = if self.sent < self.size {
                self.size - self.sent
            } else {
                0
            };
            match outcome {
                ReadOutcome::Read(n) => {
                    if 0 < n && n <= BUFFER_SIZE && n as u64 <= owed {
                        self.sent = self.sent + n as u64;
                        if self.sent == self.size {
                            self.state = StreamState::Complete;
                        }
                    } else {
                        self.state = StreamState::Aborted;
                    }
                },
                ReadOutcome::Failed => {
                    self.state = StreamState::Aborted;
                },
            }
        }
    }
}

impl Download {
    /// Starts the body of the download: a stream of as many bytes as were
    /// registered for the file.
    pub fn stream(&self) -> (stream: FileStream)
        ensures
            stream == FileStream::start_of(self.size),
            stream.wf(),
    {
        FileStream::new(self.size)
    }
}

/// The download of a file of `size` bytes after `outcomes`, one after the
/// other.
pub open spec fn stream_after(size: u64, outcomes: Seq<ReadOutcome>) -> FileStream
    decreases outcomes.len(),
{
    if outcomes.len() == 0 {
        FileStream::start_of(size)
    } else {
        stream_after(size, outcomes.drop_last()).after(outcomes.last())
    }
}

/// The body that has gone to the peer after `outcomes`, where each read
/// brings the bytes of `file` that follow those already sent.
pub open spec fn body_after(file: Seq<u8>, outcomes: Seq<ReadOutcome>) -> Seq<u8>
    decreases outcomes.len(),
{
    if outcomes.len() == 0 {
        Seq::empty()
    } else {
        let stream = stream_after(file.len() as u64, outcomes.drop_last());
        let body = body_after(file, outcomes.drop_last());
        if stream.state is Streaming && stream.takes(outcomes.last()) {
            body + file.subrange(stream.sent as int, stream.sent + outcomes.last()->Read_0)
        } else {
            body
        }
    }
}

/// Whatever the reads bring, the body is the beginning of the file, as far as
/// the download has come; the body of a complete download is the file.
pub proof fn lemma_body_is_file(file: Seq<u8>, outcomes: Seq<ReadOutcome>)
    requires
        file.len() <= u64::MAX,
    ensures
        stream_after(file.len() as u64, outcomes).wf(),
        stream_after(file.len() as u64, outcomes).size == file.len(),
        body_after(file, outcomes) == file.take(stream_after(file.len() as u64, outcomes).sent as int),
        stream_after(file.len() as u64, outcomes).state is Complete ==> body_after(file, outcomes)
            == file,
    decreases outcomes.len(),
{
    if outcomes.len() > 0 {
        lemma_body_is_file(file, outcomes.drop_last());
    }
    let stream = stream_after(file.len() as u64, outcomes);
    if stream.state is Complete {
    }
}

} // verus!
