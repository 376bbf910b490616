//! The streaming downloader.
//!
//! A transfer fetches a URL's response body into a local file chunk by
//! chunk, without ever holding the whole payload in memory, and keeps a
//! running total of bytes received for progress reporting.
//!
//! The transfer is a state machine over plain values. [`Download::next_action`]
//! names the outside work the embedding shell must perform next (issue the
//! request, create the destination file, await or append a chunk, or stop),
//! and the `on_*` methods consume the outcomes. The shell performs the
//! network and file I/O; the sequencing, the error causes and the progress
//! arithmetic are verified here.
//!
//! A response without a declared content length fails the transfer before
//! the destination file is ever asked for, and the running total is clamped
//! to the declared total on every chunk, so it never overshoots even when a
//! miscounted length header would let it.

use vstd::prelude::*;

verus! {

/// Why a transfer failed: the transport, the missing content-length header,
/// the destination file's creation, the body stream, or a file write.
#[derive(Clone, Copy, PartialEq, Eq, Structural, Debug)]
pub enum DownloadError {
    RequestFailed,
    MissingContentLength,
    FileCreateFailed,
    ChunkReadFailed,
    FileWriteFailed,
}

/// The stage a transfer is at.
#[derive(Clone, Copy, PartialEq, Eq, Structural, Debug)]
pub enum DownloadPhase {
    /// Waiting for the GET request to be issued.
    Request,
    /// The response is in; waiting for the destination file to be created.
    OpenFile,
    /// Waiting for the next body chunk, or the end of the stream.
    Streaming,
    /// A chunk is in hand; waiting for it to be appended to the file.
    WritingChunk,
    /// The transfer ended: `None` on success, or the failure cause.
    Finished(Option<DownloadError>),
}

/// The outside work the transfer asks the embedding shell to perform next.
#[derive(Clone, Copy, PartialEq, Eq, Structural, Debug)]
pub enum DownloadAction {
    /// Issue the GET request and read the content-length header.
    IssueRequest,
    /// Create (or truncate) the destination file.
    CreateFile,
    /// Await the next chunk of the response body.
    AwaitChunk,
    /// Append the chunk just received to the destination file.
    AppendChunk,
    /// Stop: `None` on success, or the failure cause to report.
    Conclude(Option<DownloadError>),
}

/// The outcome of the outside work, as the specification sees it. The body
/// chunk is carried as its byte sequence; the executable entry points take
/// real byte slices and relate to these events through their views.
pub enum DownloadEvent {
    /// The GET request could not be sent, or the transport failed.
    RequestFailed,
    /// The response arrived, with the declared content length, if any.
    ResponseReceived(Option<u64>),
    /// Destination-file creation finished; `true` on success.
    FileCreated(bool),
    /// A body chunk arrived.
    ChunkReceived(Seq<u8>),
    /// Reading the next body chunk failed.
    ChunkReadFailed,
    /// The body stream ended.
    StreamEnded,
    /// Appending the pending chunk finished; `true` on success.
    ChunkWritten(bool),
}

/// Whether an event could come from the executable entry points: a real
/// chunk's length always fits in a byte counter.
pub open spec fn event_fits(event: DownloadEvent) -> bool {
    event matches DownloadEvent::ChunkReceived(bytes) ==> bytes.len() <= u64::MAX
}

/// One streaming transfer: the declared total, the running total of bytes
/// received so far, the pending chunk, and the stage reached. `written` is
/// the ghost record of every byte appended to the destination file so far,
/// in order.
pub struct Download {
    /// The declared content length of the response; 0 until the response
    /// arrives.
    pub total: u64,
    /// Bytes received and appended so far, clamped to `total`.
    pub downloaded: u64,
    /// The length of the chunk currently being written; 0 otherwise.
    pub chunk_len: u64,
    /// The stage the transfer is at.
    pub phase: DownloadPhase,
    /// Every byte appended to the destination file so far, in order.
    pub written: Ghost<Seq<u8>>,
    /// The bytes of the chunk currently being written.
    pub pending: Ghost<Seq<u8>>,
}

impl Download {
    /// The state a fresh transfer starts in.
    pub open spec fn spec_new() -> Download {
        Download {
            total: 0,
            downloaded: 0,
            chunk_len: 0,
            phase: DownloadPhase::Request,
            written: Ghost(Seq::empty()),
            pending: Ghost(Seq::empty()),
        }
    }

    /// Begins a transfer: nothing received, nothing written, request not
    /// yet issued.
    pub fn new() -> (r: Download)
        ensures
            r == Download::spec_new(),
            r.wf(),
    {
        Download {
            total: 0,
            downloaded: 0,
            chunk_len: 0,
            phase: DownloadPhase::Request,
            written: Ghost(Seq::empty()),
            pending: Ghost(Seq::empty()),
        }
    }

    /// The well-formedness every reachable state satisfies: the running
    /// total never exceeds the declared total, nothing is counted or
    /// written before the destination file exists, and the pending chunk's
    /// recorded length is the pending bytes' length.
    pub open spec fn wf(self) -> bool {
        &&& self.downloaded <= self.total
        &&& (self.phase is Request ==> self.downloaded == 0 && self.written@.len() == 0)
        &&& (self.phase is OpenFile ==> self.downloaded == 0 && self.written@.len() == 0)
        &&& (self.phase is WritingChunk ==> self.pending@.len() == self.chunk_len)
    }

    /// The outside work to perform in each stage.
    pub open spec fn spec_next_action(self) -> DownloadAction {
        match self.phase {
            DownloadPhase::Request => DownloadAction::IssueRequest,
            DownloadPhase::OpenFile => DownloadAction::CreateFile,
            DownloadPhase::Streaming => DownloadAction::AwaitChunk,
            DownloadPhase::WritingChunk => DownloadAction::AppendChunk,
            DownloadPhase::Finished(outcome) => DownloadAction::Conclude(outcome),
        }
    }

    /// Names the outside work the shell must perform next.
    pub fn next_action(&self) -> (a: DownloadAction)
        ensures
            a == self.spec_next_action(),
    {
        match &self.phase {
            DownloadPhase::Request => DownloadAction::IssueRequest,
            DownloadPhase::OpenFile => DownloadAction::CreateFile,
            DownloadPhase::Streaming => DownloadAction::AwaitChunk,
            DownloadPhase::WritingChunk => DownloadAction::AppendChunk,
            DownloadPhase::Finished(outcome) => DownloadAction::Conclude(*outcome),
        }
    }

    /// The same state with another phase.
    pub open spec fn with_phase(self, phase: DownloadPhase) -> Download {
        Download {
            total: self.total,
            downloaded: self.downloaded,
            chunk_len: self.chunk_len,
            phase,
            written: self.written,
            pending: self.pending,
        }
    }

    /// The transition relation. A transport failure or a missing
    /// content-length header ends the transfer while still in the request
    /// stage — in particular, before the destination file is ever asked
    /// for. Each successfully appended chunk advances the running total by
    /// its length, clamped to the declared total, and extends the record of
    /// written bytes. An event that does not belong to the current stage
    /// changes nothing; a finished transfer never changes.
    pub open spec fn spec_step(self, event: DownloadEvent) -> Download {
        match self.phase {
            DownloadPhase::Request => match event {
                DownloadEvent::RequestFailed => self.with_phase(
                    DownloadPhase::Finished(Some(DownloadError::RequestFailed)),
                ),
                DownloadEvent::ResponseReceived(length) => match length {
                    None => self.with_phase(
                        DownloadPhase::Finished(Some(DownloadError::MissingContentLength)),
                    ),
                    Some(l) => Download {
                        total: l,
                        downloaded: 0,
                        chunk_len: 0,
                        phase: DownloadPhase::OpenFile,
                        written: self.written,
                        pending: self.pending,
                    },
                },
                _ => self,
            },
            DownloadPhase::OpenFile => match event {
                DownloadEvent::FileCreated(ok) => self.with_phase(
                    if ok {
                        DownloadPhase::Streaming
                    } else {
                        DownloadPhase::Finished(Some(DownloadError::FileCreateFailed))
                    },
                ),
                _ => self,
            },
            DownloadPhase::Streaming => match event {
                DownloadEvent::ChunkReceived(bytes) => Download {
                    total: self.total,
                    downloaded: self.downloaded,
                    chunk_len: bytes.len() as u64,
                    phase: DownloadPhase::WritingChunk,
                    written: self.written,
                    pending: Ghost(bytes),
                },
                DownloadEvent::ChunkReadFailed => self.with_phase(
                    DownloadPhase::Finished(Some(DownloadError::ChunkReadFailed)),
                ),
                DownloadEvent::StreamEnded => self.with_phase(DownloadPhase::Finished(None)),
                _ => self,
            },
            DownloadPhase::WritingChunk => match event {
                DownloadEvent::ChunkWritten(ok) => if ok {
                    Download {
                        total: self.total,
                        downloaded: if self.downloaded + self.chunk_len <= self.total {
                            (self.downloaded + self.chunk_len) as u64
                        } else {
                            self.total
                        },
                        chunk_len: 0,
                        phase: DownloadPhase::Streaming,
                        written: Ghost(self.written@ + self.pending@),
                        pending: Ghost(Seq::empty()),
                    }
                } else {
                    self.with_phase(DownloadPhase::Finished(Some(DownloadError::FileWriteFailed)))
                },
                _ => self,
            },
            DownloadPhase::Finished(_) => self,
        }
    }

    /// The GET request could not be sent.
    pub fn on_request_failed(self) -> (r: Download)
        ensures
            r == self.spec_step(DownloadEvent::RequestFailed),
    {
        let Download { total, downloaded, chunk_len, phase, written, pending } = self;
        match phase {
            DownloadPhase::Request => Download {
                total,
                downloaded,
                chunk_len,
                phase: DownloadPhase::Finished(Some(DownloadError::RequestFailed)),
                written,
                pending,
            },
            _ => Download { total, downloaded, chunk_len, phase, written, pending },
        }
    }

    /// The response arrived, carrying the declared content length, if any.
    /// A response without one fails the transfer here, before the
    /// destination file is asked for.
    pub fn on_response(self, content_length: Option<u64>) -> (r: Download)
        ensures
            r == self.spec_step(DownloadEvent::ResponseReceived(content_length)),
    {
        let Download { total, downloaded, chunk_len, phase, written, pending } = self;
        match phase {
            DownloadPhase::Request => match content_length {
                None => Download {
                    total,
                    downloaded,
                    chunk_len,
                    phase: DownloadPhase::Finished(Some(DownloadError::MissingContentLength)),
                    written,
                    pending,
                },
                Some(l) => Download {
                    total: l,
                    downloaded: 0,
                    chunk_len: 0,
                    phase: DownloadPhase::OpenFile,
                    written,
                    pending,
                },
            },
            _ => Download { total, downloaded, chunk_len, phase, written, pending },
        }
    }

    /// Destination-file creation finished.
    pub fn on_file_created(self, ok: bool) -> (r: Download)
        ensures
            r == self.spec_step(DownloadEvent::FileCreated(ok)),
    {
        let Download { total, downloaded, chunk_len, phase, written, pending } = self;
        match phase {
            DownloadPhase::OpenFile => Download {
                total,
                downloaded,
                chunk_len,
                phase: if ok {
                    DownloadPhase::Streaming
                } else {
                    DownloadPhase::Finished(Some(DownloadError::FileCreateFailed))
                },
                written,
                pending,
            },
            _ => Download { total, downloaded, chunk_len, phase, written, pending },
        }
    }

    /// A body chunk arrived; the shell must append exactly these bytes next.
    pub fn on_chunk(self, chunk: &[u8]) -> (r: Download)
        ensures
            r == self.spec_step(DownloadEvent::ChunkReceived(chunk@)),
    {
        let Download { total, downloaded, chunk_len, phase, written, pending } = self;
        match phase {
            DownloadPhase::Streaming => Download {
                total,
                downloaded,
                chunk_len: chunk.len() as u64,
                phase: DownloadPhase::WritingChunk,
                written,
                pending: Ghost(chunk@),
            },
            _ => Download { total, downloaded, chunk_len, phase, written, pending },
        }
    }

    /// Reading the next body chunk failed.
    pub fn on_chunk_read_failed(self) -> (r: Download)
        ensures
            r == self.spec_step(DownloadEvent::ChunkReadFailed),
    {
        let Download { total, downloaded, chunk_len, phase, written, pending } = self;
        match phase {
            DownloadPhase::Streaming => Download {
                total,
                downloaded,
                chunk_len,
                phase: DownloadPhase::Finished(Some(DownloadError::ChunkReadFailed)),
                written,
                pending,
            },
            _ => Download { total, downloaded, chunk_len, phase, written, pending },
        }
    }

    /// The body stream ended: the transfer succeeded.
    pub fn on_stream_end(self) -> (r: Download)
        ensures
            r == self.spec_step(DownloadEvent::StreamEnded),
    {
        let Download { total, downloaded, chunk_len, phase, written, pending } = self;
        match phase {
            DownloadPhase::Streaming => Download {
                total,
                downloaded,
                chunk_len,
                phase: DownloadPhase::Finished(None),
                written,
                pending,
            },
            _ => Download { total, downloaded, chunk_len, phase, written, pending },
        }
    }

    /// Appending the pending chunk finished. On success the running total
    /// advances by the chunk's length, clamped to the declared total.
    pub fn on_chunk_written(self, ok: bool) -> (r: Download)
        requires
            self.wf(),
        ensures
            r == self.spec_step(DownloadEvent::ChunkWritten(ok)),
    {
        let Download { total, downloaded, chunk_len, phase, written, pending } = self;
        match phase {
            DownloadPhase::WritingChunk => {
                if ok {
                    let room = total - downloaded;
                    let advance = if chunk_len < room {
                        chunk_len
                    } else {
                        room
                    };
                    Download {
                        total,
                        downloaded: downloaded + advance,
                        chunk_len: 0,
                        phase: DownloadPhase::Streaming,
                        written: Ghost(written@ + pending@),
                        pending: Ghost(Seq::empty()),
                    }
                } else {
                    Download {
                        total,
                        downloaded,
                        chunk_len,
                        phase: DownloadPhase::Finished(Some(DownloadError::FileWriteFailed)),
                        written,
                        pending,
                    }
                }
            },
            _ => Download { total, downloaded, chunk_len, phase, written, pending },
        }
    }

    /// The state after a whole sequence of events, applied in order.
    pub open spec fn spec_run(self, events: Seq<DownloadEvent>) -> Download
        decreases events.len(),
    {
        if events.len() == 0 {
            self
        } else {
            self.spec_step(events[0]).spec_run(events.drop_first())
        }
    }
}

/// Every transition preserves well-formedness; with
/// [`lemma_run_preserves_wf`], the running total of every reachable state —
/// after each and every chunk — never exceeds the declared total, even when
/// a chunk would overshoot it.
pub proof fn lemma_step_preserves_wf(d: Download, event: DownloadEvent)
    requires
        d.wf(),
        event_fits(event),
    ensures
        d.spec_step(event).wf(),
{
}

/// Well-formedness holds along any whole sequence of events.
pub proof fn lemma_run_preserves_wf(d: Download, events: Seq<DownloadEvent>)
    requires
        d.wf(),
        forall|i: int| 0 <= i < events.len() ==> event_fits(#[trigger] events[i]),
    ensures
        d.spec_run(events).wf(),
    decreases events.len(),
{
    if events.len() > 0 {
        lemma_step_preserves_wf(d, events[0]);
        lemma_run_preserves_wf(d.spec_step(events[0]), events.drop_first());
    }
}

/// Acknowledging a chunk advances the running total by the chunk's length,
/// min-clamped to the declared total: the cumulative downloaded count never
/// exceeds the declared total, not even transiently.
pub proof fn lemma_chunk_update_clamped(d: Download)
    requires
        d.wf(),
        d.phase is WritingChunk,
    ensures
        ({
            let r = d.spec_step(DownloadEvent::ChunkWritten(true));
            &&& r.downloaded <= r.total
            &&& r.downloaded == if d.downloaded + d.chunk_len <= d.total {
                d.downloaded + d.chunk_len
            } else {
                d.total as int
            }
        }),
{
}

/// A finished transfer is terminal: no event changes it, and its only
/// remaining action is to report the outcome — it asks for no further
/// network or file work.
pub proof fn lemma_finished_is_terminal(d: Download, event: DownloadEvent)
    requires
        d.phase is Finished,
    ensures
        d.spec_step(event) == d,
        d.spec_next_action() == DownloadAction::Conclude(d.phase->0),
{
}

/// A finished transfer stays unchanged under any whole sequence of events.
pub proof fn lemma_run_from_finished(d: Download, events: Seq<DownloadEvent>)
    requires
        d.phase is Finished,
    ensures
        d.spec_run(events) == d,
    decreases events.len(),
{
    if events.len() > 0 {
        lemma_finished_is_terminal(d, events[0]);
        lemma_run_from_finished(d, events.drop_first());
    }
}

/// A response without a content-length header fails the transfer at once:
/// it finishes with `MissingContentLength` while still in the request
/// stage, its record of written bytes stays exactly what it was before the
/// call — nothing was or will be appended — and the destination file is
/// never asked for, whatever happens afterwards.
pub proof fn lemma_missing_content_length(d: Download, events: Seq<DownloadEvent>)
    requires
        d.wf(),
        d.phase is Request,
    ensures
        ({
            let failed = d.spec_step(DownloadEvent::ResponseReceived(None));
            &&& failed.phase == DownloadPhase::Finished(Some(DownloadError::MissingContentLength))
            &&& failed.written@.len() == 0
            &&& failed.spec_next_action() == DownloadAction::Conclude(
                Some(DownloadError::MissingContentLength),
            )
            &&& failed.spec_run(events) == failed
        }),
{
    lemma_run_from_finished(d.spec_step(DownloadEvent::ResponseReceived(None)), events);
}

/// An event sequence in which chunks arrive and each is appended
/// successfully, with no failure and no end of stream in between.
pub open spec fn is_chunk_script(events: Seq<DownloadEvent>) -> bool
    decreases events.len(),
{
    if events.len() == 0 {
        true
    } else {
        &&& events.len() >= 2
        &&& (events[0] matches DownloadEvent::ChunkReceived(bytes) && bytes.len() <= u64::MAX)
        &&& events[1] == DownloadEvent::ChunkWritten(true)
        &&& is_chunk_script(events.skip(2))
    }
}

/// The concatenation of the chunks a script carries.
pub open spec fn script_bytes(events: Seq<DownloadEvent>) -> Seq<u8>
    decreases events.len(),
{
    if events.len() < 2 {
        Seq::empty()
    } else {
        (match events[0] {
            DownloadEvent::ChunkReceived(bytes) => bytes,
            _ => Seq::empty(),
        }) + script_bytes(events.skip(2))
    }
}

/// The summed length of the chunks a script carries.
pub open spec fn script_len_sum(events: Seq<DownloadEvent>) -> int
    decreases events.len(),
{
    if events.len() < 2 {
        0
    } else {
        (match events[0] {
            DownloadEvent::ChunkReceived(bytes) => bytes.len() as int,
            _ => 0,
        }) + script_len_sum(events.skip(2))
    }
}

pub proof fn lemma_script_len_sum_nonneg(events: Seq<DownloadEvent>)
    ensures
        script_len_sum(events) >= 0,
    decreases events.len(),
{
    if events.len() >= 2 {
        lemma_script_len_sum_nonneg(events.skip(2));
    }
}

/// Streaming a script of chunks whose lengths fit within the remaining
/// room advances the running total by exactly their sum — no clamping
/// occurs — and appends exactly their concatenation, in order, to the
/// record of written bytes.
pub proof fn lemma_chunk_script_totals(d: Download, events: Seq<DownloadEvent>)
    requires
        d.wf(),
        d.phase is Streaming,
        is_chunk_script(events),
        d.downloaded + script_len_sum(events) <= d.total,
    ensures
        ({
            let r = d.spec_run(events);
            &&& r.phase is Streaming
            &&& r.total == d.total
            &&& r.downloaded == d.downloaded + script_len_sum(events)
            &&& r.written@ == d.written@ + script_bytes(events)
        }),
    decreases events.len(),
{
    if events.len() == 0 {
        assert(d.written@ + script_bytes(events) =~= d.written@);
    } else {
        let bytes = events[0]->ChunkReceived_0;
        lemma_script_len_sum_nonneg(events.skip(2));
        let d1 = d.spec_step(events[0]);
        let d2 = d1.spec_step(events[1]);
        assert(d2.phase is Streaming);
        assert(d2.downloaded == d.downloaded + bytes.len());
        assert(d2.written@ == d.written@ + bytes);
        assert(events.drop_first().drop_first() =~= events.skip(2));
        assert(events.drop_first()[0] == events[1]);
        assert(events.drop_first().len() > 0);
        assert(d.spec_run(events) == d1.spec_run(events.drop_first()));
        assert(d1.spec_run(events.drop_first()) == d2.spec_run(events.drop_first().drop_first()));
        assert(d.spec_run(events) == d2.spec_run(events.skip(2)));
        lemma_chunk_script_totals(d2, events.skip(2));
        assert((d.written@ + bytes) + script_bytes(events.skip(2)) =~= d.written@ + (bytes
            + script_bytes(events.skip(2))));
    }
}

/// A whole successful transfer: for a response with declared content length
/// `l` and a body split at arbitrary chunk boundaries summing to `l` bytes,
/// the transfer finishes successfully, the final reported downloaded total
/// equals `l`, and the bytes appended to the destination file are exactly
/// the concatenated body.
pub proof fn lemma_exact_transfer(l: u64, events: Seq<DownloadEvent>)
    requires
        is_chunk_script(events),
        script_len_sum(events) == l,
    ensures
        ({
            let opened = Download::spec_new().spec_step(
                DownloadEvent::ResponseReceived(Some(l)),
            ).spec_step(DownloadEvent::FileCreated(true));
            let done = opened.spec_run(events).spec_step(DownloadEvent::StreamEnded);
            &&& done.phase == DownloadPhase::Finished(None)
            &&& done.downloaded == l
            &&& done.total == l
            &&& done.written@ == script_bytes(events)
        }),
{
    let opened = Download::spec_new().spec_step(
        DownloadEvent::ResponseReceived(Some(l)),
    ).spec_step(DownloadEvent::FileCreated(true));
    lemma_chunk_script_totals(opened, events);
    assert(opened.written@ + script_bytes(events) =~= script_bytes(events));
}

} // verus!
