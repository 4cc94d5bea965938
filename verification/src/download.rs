//! The download of one file, as a state machine: the caller performs the
//! requests and the writes and reports what happened; the task decides what
//! comes next.

use vstd::prelude::*;
use crate::error::Error;
use crate::failure::{status_error, status_text, Failure};
use crate::location::{optional_texts, parsed_url, spec_file_name, Location};
use crate::progress::{clamp, saturating_sum, ProgressIndicator};
use crate::size::{expected_size, spec_expected_size};
use crate::status::{is_success, spec_is_success};

verus! {

/// Where a download stands.
#[derive(Debug, Clone, Copy, PartialEq, Eq, Structural)]
pub enum Phase {
    /// The metadata probe is under way.
    Probing,
    /// The output file is being created.
    Creating,
    /// The request for the body is under way.
    Requesting,
    /// The next chunk of the body is awaited.
    Streaming,
    /// A chunk of this many bytes is being written to the output file.
    Writing(u64),
    /// The output file is being flushed.
    Flushing,
    /// The file is complete.
    Done,
    /// The download failed.
    Failed(Failure),
}

/// What the caller reports to a download task.
#[derive(Debug, Clone)]
pub enum Event {
    /// The probe was answered with this status and, where the answer had a
    /// length header, its bytes.
    Probed { status: u16, content_length: Option<Vec<u8>> },
    /// The output file was created empty.
    SinkCreated,
    /// The request for the body was answered.
    BodyStarted,
    /// A chunk of this many bytes arrived.
    Chunk(u64),
    /// The chunk was written to the output file.
    ChunkWritten,
    /// The body ended.
    BodyEnded,
    /// The output file was flushed.
    Flushed,
    /// The HTTP collaborator failed.
    TransportFailed,
    /// The output file could not be created, written or flushed.
    IoFailed,
}

/// What a download task asks of the caller.
#[derive(Debug, Clone, Copy, PartialEq, Eq, Structural)]
pub enum Action {
    /// Send the metadata probe.
    Probe,
    /// Create the output file, truncating one that exists, and show the
    /// task's indicator.
    CreateSink,
    /// Request the body.
    Request,
    /// Read the next chunk.
    ReadChunk,
    /// Write the chunk just reported.
    WriteChunk,
    /// Flush the output file.
    Flush,
    /// Stop: the download succeeded.
    Succeed,
    /// Stop: the download failed.
    Fail(Failure),
    /// Nothing: the event did not fit the task's phase and was dropped.
    Ignore,
}

/// The bytes of an optional length header.
pub open spec fn header_bytes(header: Option<Vec<u8>>) -> Option<Seq<u8>> {
    match header {
        Some(v) => Some(v@),
        None => None,
    }
}

/// The sum of the lengths of a run of chunks.
pub open spec fn total_length(chunks: Seq<u64>) -> nat
    decreases chunks.len(),
{
    if chunks.len() == 0 {
        0
    } else {
        total_length(chunks.drop_last()) + chunks.last() as nat
    }
}

/// One file's download.
#[derive(Debug, Clone)]
pub struct DownloadTask {
    /// Where the file comes from.
    pub location: Location,
    /// The name of the file it is written to.
    pub destination: String,
    /// The size that the probe declared; 0 while unknown.
    pub expected_size: u64,
    /// The bytes received so far.
    pub transferred: u64,
    /// The bytes written to the output file so far.
    pub written: u64,
    /// Where the download stands.
    pub phase: Phase,
    /// The task's progress indicator.
    pub indicator: ProgressIndicator,
}

impl Phase {
    /// What the caller has to do in this phase.
    pub open spec fn spec_pending(self) -> Action {
        match self {
            Phase::Probing => Action::Probe,
            Phase::Creating => Action::CreateSink,
            Phase::Requesting => Action::Request,
            Phase::Streaming => Action::ReadChunk,
            Phase::Writing(_) => Action::WriteChunk,
            Phase::Flushing => Action::Flush,
            Phase::Done => Action::Succeed,
            Phase::Failed(failure) => Action::Fail(failure),
        }
    }

    /// What the caller has to do in this phase.
    pub fn pending(self) -> (action: Action)
        ensures
            action == self.spec_pending(),
    {
        match self {
            Phase::Probing => Action::Probe,
            Phase::Creating => Action::CreateSink,
            Phase::Requesting => Action::Request,
            Phase::Streaming => Action::ReadChunk,
            Phase::Writing(_) => Action::WriteChunk,
            Phase::Flushing => Action::Flush,
            Phase::Done => Action::Succeed,
            Phase::Failed(failure) => Action::Fail(failure),
        }
    }

    /// Whether an event of this kind is expected in this phase.
    pub open spec fn expects(self, event: Event) -> bool {
        match self {
            Phase::Probing => event is Probed || event is TransportFailed,
            Phase::Creating => event is SinkCreated || event is IoFailed,
            Phase::Requesting => event is BodyStarted || event is TransportFailed,
            Phase::Streaming => event is Chunk || event is BodyEnded || event is TransportFailed,
            Phase::Writing(_) => event is ChunkWritten || event is IoFailed,
            Phase::Flushing => event is Flushed || event is IoFailed,
            Phase::Done => false,
            Phase::Failed(_) => false,
        }
    }
}

impl DownloadTask {
    /// The same download, standing in `phase`.
    pub open spec fn moved_to(self, phase: Phase) -> DownloadTask {
        DownloadTask { phase, ..self }
    }

    /// The task after `event`. An event that the phase does not expect
    /// changes nothing; a failure ends the task; a probe answered with a
    /// success status fixes the expected size; a chunk advances the count of
    /// bytes received and the indicator, and its write the count of bytes
    /// written; the end of the body finishes the indicator.
    pub open spec fn spec_step(self, event: Event) -> DownloadTask {
        if !self.phase.expects(event) {
            self
        } else {
            match event {
                Event::Probed { status, content_length } => if spec_is_success(status) {
                    let size = spec_expected_size(header_bytes(content_length));
                    DownloadTask {
                        expected_size: size,
                        indicator: self.indicator.resized(size),
                        phase: Phase::Creating,
                        ..self
                    }
                } else {
                    self.moved_to(Phase::Failed(Failure::Status(status)))
                },
                Event::SinkCreated => self.moved_to(Phase::Requesting),
                Event::BodyStarted => self.moved_to(Phase::Streaming),
                Event::Chunk(n) => DownloadTask {
                    transferred: clamp(self.transferred + n),
                    indicator: self.indicator.advanced(n),
                    phase: Phase::Writing(n),
                    ..self
                },
                Event::ChunkWritten => DownloadTask {
                    written: clamp(self.written + self.phase->Writing_0),
                    phase: Phase::Streaming,
                    ..self
                },
                Event::BodyEnded => DownloadTask {
                    indicator: self.indicator.completed(),
                    phase: Phase::Flushing,
                    ..self
                },
                Event::Flushed => self.moved_to(Phase::Done),
                Event::TransportFailed => self.moved_to(Phase::Failed(Failure::Transport)),
                Event::IoFailed => self.moved_to(Phase::Failed(Failure::Io)),
            }
        }
    }

    /// What the task asks of the caller after `event`: what its new phase
    /// calls for, or nothing where the event was dropped.
    pub open spec fn spec_action(self, event: Event) -> Action {
        if self.phase.expects(event) {
            self.spec_step(event).phase.spec_pending()
        } else {
            Action::Ignore
        }
    }

    /// Whether the task is about to probe its location and nothing has been
    /// received or written.
    pub open spec fn fresh(self) -> bool {
        self.phase == Phase::Probing && self.transferred == 0 && self.written == 0
    }

    /// The task after these chunks arrived in turn and each was written.
    pub open spec fn streamed(self, chunks: Seq<u64>) -> DownloadTask
        decreases chunks.len(),
    {
        if chunks.len() == 0 {
            self
        } else {
            self.streamed(chunks.drop_last()).spec_step(Event::Chunk(chunks.last())).spec_step(
                Event::ChunkWritten,
            )
        }
    }

    /// The task after a download without failure: the probe, the creation of
    /// the file, the start of the body, the chunks, the end of the body, the
    /// flush.
    pub open spec fn downloaded(
        self,
        status: u16,
        content_length: Option<Vec<u8>>,
        chunks: Seq<u64>,
    ) -> DownloadTask {
        self.spec_step(Event::Probed { status, content_length }).spec_step(
            Event::SinkCreated,
        ).spec_step(Event::BodyStarted).streamed(chunks).spec_step(Event::BodyEnded).spec_step(
            Event::Flushed,
        )
    }

    /// A task for `location` that is about to probe it: nothing received or
    /// written, the size unknown, the destination and the indicator's label
    /// the file name derived from the location.
    pub fn new(location: Location) -> (task: DownloadTask)
        ensures
            task.location == location,
            task.destination@ == spec_file_name(optional_texts(location.segments)),
            task.expected_size == 0,
            task.transferred == 0,
            task.written == 0,
            task.phase == Phase::Probing,
            task.indicator == (ProgressIndicator {
                position: 0,
                length: 0,
                label: task.destination,
                finished: false,
            }),
    {
        let destination = location.file_name();
        let indicator = ProgressIndicator::new(0, destination.clone());
        DownloadTask {
            location,
            destination,
            expected_size: 0,
            transferred: 0,
            written: 0,
            phase: Phase::Probing,
            indicator,
        }
    }

    /// A task for the location that `input` spells. It fails with
    /// `Failure::Location` exactly where `input` is no absolute URL; else the
    /// task is fresh, for the parsed location, with the file name derived
    /// from its path segments as destination.
    pub fn open(input: &str) -> (r: Result<DownloadTask, Failure>)
        ensures
            match r {
                Ok(task) => {
                    &&& parsed_url(input@) == Some(
                        (task.location.href@, optional_texts(task.location.segments)),
                    )
                    &&& task.destination@ == spec_file_name(optional_texts(task.location.segments))
                    &&& task.fresh()
                    &&& task.expected_size == 0
                    &&& task.indicator == (ProgressIndicator {
                        position: 0,
                        length: 0,
                        label: task.destination,
                        finished: false,
                    })
                },
                Err(e) => e == Failure::Location && parsed_url(input@).is_none(),
            },
    {
        match Location::parse(input) {
            Ok(location) => Ok(DownloadTask::new(location)),
            Err(e) => Err(e),
        }
    }

    /// Takes in what the caller reports and says what to do next.
    pub fn step(&mut self, event: Event) -> (action: Action)
        ensures
            *final(self) == old(self).spec_step(event),
            action == old(self).spec_action(event),
    {
        let phase = self.phase;
        match event {
            Event::Probed { status, content_length } => {
                if let Phase::Probing = phase {
                    if is_success(status) {
                        let size = match &content_length {
                            Some(bytes) => expected_size(Some(bytes.as_slice())),
                            None => expected_size(None),
                        };
                        self.expected_size = size;
                        self.indicator.set_length(size);
                        self.phase = Phase::Creating;
                    } else {
                        self.phase = Phase::Failed(Failure::Status(status));
                    }
                } else {
                    return Action::Ignore;
                }
            },
            Event::SinkCreated => {
                if let Phase::Creating = phase {
                    self.phase = Phase::Requesting;
                } else {
                    return Action::Ignore;
                }
            },
            Event::BodyStarted => {
                if let Phase::Requesting = phase {
                    self.phase = Phase::Streaming;
                } else {
                    return Action::Ignore;
                }
            },
            Event::Chunk(n) => {
                if let Phase::Streaming = phase {
                    self.transferred = saturating_sum(self.transferred, n);
                    self.indicator.inc(n);
                    self.phase = Phase::Writing(n);
                } else {
                    return Action::Ignore;
                }
            },
            Event::ChunkWritten => {
                if let Phase::Writing(n) = phase {
                    self.written = saturating_sum(self.written, n);
                    self.phase = Phase::Streaming;
                } else {
                    return Action::Ignore;
                }
            },
            Event::BodyEnded => {
                if let Phase::Streaming = phase {
                    self.indicator.finish();
                    self.phase = Phase::Flushing;
                } else {
                    return Action::Ignore;
                }
            },
            Event::Flushed => {
                if let Phase::Flushing = phase {
                    self.phase = Phase::Done;
                } else {
                    return Action::Ignore;
                }
            },
            Event::TransportFailed => {
                match phase {
                    Phase::Probing | Phase::Requesting | Phase::Streaming => {
                        self.phase = Phase::Failed(Failure::Transport);
                    },
                    _ => {
                        return Action::Ignore;
                    },
                }
            },
            Event::IoFailed => {
                match phase {
                    Phase::Creating | Phase::Writing(_) | Phase::Flushing => {
                        self.phase = Phase::Failed(Failure::Io);
                    },
                    _ => {
                        return Action::Ignore;
                    },
                }
            },
        }
        self.phase.pending()
    }

    /// Whether the task has ended, in success or in failure.
    pub fn is_over(&self) -> (over: bool)
        ensures
            over == (self.phase is Done || self.phase is Failed),
    {
        match self.phase {
            Phase::Done => true,
            Phase::Failed(_) => true,
            _ => false,
        }
    }

    /// The report of a failed probe: for a task that failed on the status of
    /// its probe, the error that names its URL and that status; `None` for
    /// every other task.
    pub fn status_report(&self) -> (r: Option<Error>)
        ensures
            match r {
                Some(e) => {
                    &&& self.phase matches Phase::Failed(Failure::Status(status))
                    &&& e.what@ == status_text(self.location.href@, status)
                    &&& e.source.is_none()
                },
                None => !(self.phase matches Phase::Failed(Failure::Status(_))),
            },
    {
        match self.phase {
            Phase::Failed(Failure::Status(status)) => Some(
                status_error(self.location.href.as_str(), status),
            ),
            _ => None,
        }
    }

    /// How the task ended: `None` while it is still under way.
    pub fn outcome(&self) -> (r: Option<Result<(), Failure>>)
        ensures
            r == match self.phase {
                Phase::Done => Some(Ok::<(), Failure>(())),
                Phase::Failed(failure) => Some(Err::<(), Failure>(failure)),
                _ => None,
            },
    {
        match self.phase {
            Phase::Done => Some(Ok(())),
            Phase::Failed(failure) => Some(Err(failure)),
            _ => None,
        }
    }
}

/// While chunks arrive and are written, the bytes written, the bytes received
/// and the indicator's position all grow by the chunks' total length, and
/// nothing else changes.
pub proof fn lemma_streamed(task: DownloadTask, chunks: Seq<u64>)
    requires
        task.phase == Phase::Streaming,
    ensures
        task.streamed(chunks) == (DownloadTask {
            transferred: clamp(task.transferred + total_length(chunks)),
            written: clamp(task.written + total_length(chunks)),
            indicator: ProgressIndicator {
                position: clamp(task.indicator.position + total_length(chunks)),
                ..task.indicator
            },
            ..task
        }),
    decreases chunks.len(),
{
    if chunks.len() > 0 {
        lemma_streamed(task, chunks.drop_last());
    }
}

/// A download without failure ends done, with as many bytes written as were
/// streamed, whatever size the probe declared; so where the body has the
/// declared size, the file has it too. The indicator ends finished, at the
/// declared size.
pub proof fn lemma_download_writes_what_is_streamed(
    task: DownloadTask,
    status: u16,
    content_length: Option<Vec<u8>>,
    chunks: Seq<u64>,
)
    requires
        task.fresh(),
        spec_is_success(status),
    ensures
        task.downloaded(status, content_length, chunks).phase == Phase::Done,
        task.downloaded(status, content_length, chunks).written == clamp(total_length(chunks) as int),
        task.downloaded(status, content_length, chunks).transferred == clamp(
            total_length(chunks) as int,
        ),
        task.downloaded(status, content_length, chunks).expected_size == spec_expected_size(
            header_bytes(content_length),
        ),
        total_length(chunks) == spec_expected_size(header_bytes(content_length)) ==> task.downloaded(
            status,
            content_length,
            chunks,
        ).written == spec_expected_size(header_bytes(content_length)),
        task.downloaded(status, content_length, chunks).indicator.finished,
        task.downloaded(status, content_length, chunks).indicator.position == spec_expected_size(
            header_bytes(content_length),
        ),
        task.downloaded(status, content_length, chunks).destination == task.destination,
{
    let ready = task.spec_step(Event::Probed { status, content_length }).spec_step(
        Event::SinkCreated,
    ).spec_step(Event::BodyStarted);
    lemma_streamed(ready, chunks);
}

/// A probe that is answered with a status outside the success range fails
/// the task with that status, and the task then stays failed whatever is
/// reported to it.
pub proof fn lemma_failed_probe_fails_task(
    task: DownloadTask,
    status: u16,
    content_length: Option<Vec<u8>>,
    later: Event,
)
    requires
        task.phase == Phase::Probing,
        !spec_is_success(status),
    ensures
        task.spec_step(Event::Probed { status, content_length }) == task.moved_to(
            Phase::Failed(Failure::Status(status)),
        ),
        task.spec_action(Event::Probed { status, content_length }) == Action::Fail(
            Failure::Status(status),
        ),
        task.spec_step(Event::Probed { status, content_length }).spec_step(later)
            == task.spec_step(Event::Probed { status, content_length }),
{
}

/// A task that has ended, in success or in failure, takes no more events.
pub proof fn lemma_over_is_final(task: DownloadTask, event: Event)
    requires
        task.phase is Done || task.phase is Failed,
    ensures
        task.spec_step(event) == task,
        task.spec_action(event) == Action::Ignore,
{
}

/// How the bytes received stand to the bytes written: equal, but while a
/// chunk is being written, when that chunk has been received and not yet
/// written; after a failure, no more bytes are written than were received.
pub open spec fn in_step(task: DownloadTask) -> bool {
    match task.phase {
        Phase::Writing(n) => task.transferred == clamp(task.written + n),
        Phase::Failed(_) => task.written <= task.transferred,
        _ => task.transferred == task.written,
    }
}

/// Every step keeps the bytes received in step with the bytes written.
pub proof fn lemma_step_keeps_in_step(task: DownloadTask, event: Event)
    requires
        in_step(task),
    ensures
        in_step(task.spec_step(event)),
{
}

} // verus!
