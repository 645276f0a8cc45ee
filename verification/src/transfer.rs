use vstd::prelude::*;

use crate::enums::HttpVersion;
use crate::error::{headed, NgetError};
use crate::text::{contains, decimal, decimal_text, occurs_in};

verus! {

/// What one attempt knows of the bytes of its file.
#[derive(Debug, Clone, Copy)]
pub struct TransferState {
    /// The size of the destination file when the attempt probed it.
    pub existing_bytes: u64,
    /// The expected size of the whole file, once the remote has declared one.
    pub total_bytes: Option<u64>,
    /// The bytes this attempt has appended so far.
    pub written_bytes: u64,
}

/// Where an attempt stands.
#[derive(Debug, Clone, Copy, PartialEq, Eq, Structural)]
pub enum TransferPhase {
    /// Waiting for the lookup of the host.
    Resolving,
    /// Waiting for the size of the destination file.
    Probing,
    /// Waiting for the remote's answer.
    Requesting,
    /// Waiting for the destination file to be opened for appending.
    Opening,
    /// Receiving the body.
    Streaming,
    /// The body ended cleanly.
    Succeeded,
    /// The attempt failed.
    Failed,
}

/// Why an attempt failed.
#[derive(Debug, Clone, Copy)]
pub enum Failure {
    /// The host has no address, or the resolver could not be reached.
    Resolve,
    /// The request could not be sent or was not answered.
    Send,
    /// The remote refused the forced HTTP/2 connection.
    Http2Unsupported,
    /// The remote answered 404.
    NotFound,
    /// The remote answered with another status than 200, 206 or 404.
    Status(u16),
    /// The destination file could not be opened.
    Open,
    /// The body could not be read to its end.
    Read,
    /// A chunk could not be written to the destination file.
    Write,
}

/// What the outside world reports to an attempt.
#[derive(Debug, Clone, Copy)]
pub enum TransferEvent {
    /// The host has an address.
    HostResolved,
    /// The lookup failed.
    HostUnresolved,
    /// The destination file holds this many bytes (0 where there is none).
    Probed { existing_bytes: u64 },
    /// The request failed; `http2_unsupported` tells whether the remote
    /// refused the protocol version.
    SendFailed { http2_unsupported: bool },
    /// The remote answered.
    Responded { status: u16, content_length: Option<u64> },
    /// The destination file is open for appending.
    Opened,
    /// The destination file could not be opened.
    OpenFailed,
    /// A chunk of this length was read and appended to the file.
    ChunkWritten { len: u64 },
    /// Reading the body failed.
    ReadFailed,
    /// Writing a chunk failed.
    WriteFailed,
    /// The body ended.
    EndOfStream,
}

/// What an attempt asks of the outside world next.
#[derive(Debug, Clone, Copy)]
pub enum TransferAction {
    /// Look the host up.
    Resolve,
    /// Label the progress sink with the name of the destination file and
    /// read the size of that file.
    Probe,
    /// Send the GET request, with a range that starts at `range_from` where
    /// one is given, and over HTTP/2 where `http2` is set.
    Send { range_from: Option<u64>, http2: bool },
    /// Tell the progress sink the expected total (none: indeterminate) and
    /// open the destination file for appending.
    Open { total: Option<u64> },
    /// Read the next chunk and append it to the file.
    Receive,
    /// Advance the progress sink by `by` bytes, then read the next chunk and
    /// append it.
    Advance { by: u64 },
    /// Finish the progress sink with the message of success.
    Finish,
    /// Give the attempt up for this reason.
    Fail(Failure),
    /// The event does not belong to the attempt's phase; nothing changed.
    Refuse,
}

/// What a status code means for an attempt: `None` where the body may be
/// streamed (200 and 206), the failure otherwise, with 404 set apart.
pub open spec fn status_failure(status: u16) -> Option<Failure> {
    if status == 200 || status == 206 {
        None
    } else if status == 404 {
        Some(Failure::NotFound)
    } else {
        Some(Failure::Status(status))
    }
}

/// What a status code means for an attempt.
pub fn classify_status(status: u16) -> (verdict: Option<Failure>)
    ensures
        verdict == status_failure(status),
        verdict is None <==> (status == 200 || status == 206),
{
    if status == 200 || status == 206 {
        None
    } else if status == 404 {
        Some(Failure::NotFound)
    } else {
        Some(Failure::Status(status))
    }
}

/// The offset a request asks the remote to start from: the size of the
/// destination file where it holds anything, none for a fresh download.
pub open spec fn resume_offset(existing_bytes: u64) -> Option<u64> {
    if existing_bytes > 0 {
        Some(existing_bytes)
    } else {
        None
    }
}

/// One attempt at a download: its phase, its byte counts and, once it has
/// failed, the reason.
#[derive(Debug, Clone, Copy)]
pub struct Transfer {
    pub phase: TransferPhase,
    /// Whether the request goes out over forced HTTP/2.
    pub http2: bool,
    pub state: TransferState,
    pub failure: Option<Failure>,
}

impl Transfer {
    /// What holds of every attempt that began with `begin`.
    pub open spec fn wf(self) -> bool {
        &&& self.state.existing_bytes + self.state.written_bytes <= u64::MAX
        &&& (self.failure is Some <==> self.phase == TransferPhase::Failed)
        &&& (self.phase == TransferPhase::Resolving || self.phase == TransferPhase::Probing
            ==> self.state.existing_bytes == 0)
        &&& (self.phase == TransferPhase::Resolving || self.phase == TransferPhase::Probing
            || self.phase == TransferPhase::Requesting || self.phase == TransferPhase::Opening
            ==> self.state.written_bytes == 0)
        &&& (self.phase == TransferPhase::Resolving || self.phase == TransferPhase::Probing
            || self.phase == TransferPhase::Requesting ==> self.state.total_bytes is None)
        &&& (self.state.total_bytes is Some ==> self.state.total_bytes->0
            >= self.state.existing_bytes)
    }

    /// The attempt before anything has happened.
    pub open spec fn fresh(version: HttpVersion) -> Transfer {
        Transfer {
            phase: TransferPhase::Resolving,
            http2: version.spec_forces_http2(),
            state: TransferState { existing_bytes: 0, total_bytes: None, written_bytes: 0 },
            failure: None,
        }
    }

    /// Whether the attempt has ended, well or badly.
    pub open spec fn spec_is_terminal(self) -> bool {
        self.phase == TransferPhase::Succeeded || self.phase == TransferPhase::Failed
    }

    /// The size of the destination file as the attempt has left it.
    pub open spec fn spec_file_size(self) -> int {
        self.state.existing_bytes + self.state.written_bytes
    }

    /// Whether the byte counts stay within 64 bits when `event` is taken.
    pub open spec fn spec_admits(self, event: TransferEvent) -> bool {
        match event {
            TransferEvent::Responded { status, content_length: Some(declared) } => {
                self.phase == TransferPhase::Requesting && status_failure(status) is None
                    ==> self.state.existing_bytes + declared <= u64::MAX
            },
            TransferEvent::ChunkWritten { len } => {
                self.phase == TransferPhase::Streaming ==> self.state.existing_bytes
                    + self.state.written_bytes + len <= u64::MAX
            },
            _ => true,
        }
    }

    /// The attempt after `event` has ended with `failure`.
    pub open spec fn failed(self, failure: Failure) -> (Transfer, TransferAction) {
        (
            Transfer { phase: TransferPhase::Failed, failure: Some(failure), ..self },
            TransferAction::Fail(failure),
        )
    }

    /// The attempt in a new phase, with nothing else changed.
    pub open spec fn moved(self, phase: TransferPhase) -> Transfer {
        Transfer { phase, ..self }
    }

    /// The attempt after `event`, and what it asks for next. An event that
    /// does not belong to the phase changes nothing and is refused.
    pub open spec fn next(self, event: TransferEvent) -> (Transfer, TransferAction) {
        match (self.phase, event) {
            (TransferPhase::Resolving, TransferEvent::HostResolved) => (
                self.moved(TransferPhase::Probing),
                TransferAction::Probe,
            ),
            (TransferPhase::Resolving, TransferEvent::HostUnresolved) => self.failed(
                Failure::Resolve,
            ),
            (TransferPhase::Probing, TransferEvent::Probed { existing_bytes }) => (
                Transfer {
                    phase: TransferPhase::Requesting,
                    state: TransferState { existing_bytes, ..self.state },
                    ..self
                },
                TransferAction::Send {
                    range_from: resume_offset(existing_bytes),
                    http2: self.http2,
                },
            ),
            (TransferPhase::Requesting, TransferEvent::SendFailed { http2_unsupported }) => {
                if self.http2 && http2_unsupported {
                    self.failed(Failure::Http2Unsupported)
                } else {
                    self.failed(Failure::Send)
                }
            },
            (TransferPhase::Requesting, TransferEvent::Responded { status, content_length }) => {
                match status_failure(status) {
                    Some(failure) => self.failed(failure),
                    None => {
                        let total = match content_length {
                            Some(declared) => Some(
                                (self.state.existing_bytes + declared) as u64,
                            ),
                            None => None,
                        };
                        (
                            Transfer {
                                phase: TransferPhase::Opening,
                                state: TransferState { total_bytes: total, ..self.state },
                                ..self
                            },
                            TransferAction::Open { total },
                        )
                    },
                }
            },
            (TransferPhase::Opening, TransferEvent::Opened) => (
                self.moved(TransferPhase::Streaming),
                TransferAction::Receive,
            ),
            (TransferPhase::Opening, TransferEvent::OpenFailed) => self.failed(Failure::Open),
            (TransferPhase::Streaming, TransferEvent::ChunkWritten { len }) => (
                Transfer {
                    state: TransferState {
                        written_bytes: (self.state.written_bytes + len) as u64,
                        ..self.state
                    },
                    ..self
                },
                TransferAction::Advance { by: len },
            ),
            (TransferPhase::Streaming, TransferEvent::ReadFailed) => self.failed(Failure::Read),
            (TransferPhase::Streaming, TransferEvent::WriteFailed) => self.failed(
                Failure::Write,
            ),
            (TransferPhase::Streaming, TransferEvent::EndOfStream) => (
                self.moved(TransferPhase::Succeeded),
                TransferAction::Finish,
            ),
            _ => (self, TransferAction::Refuse),
        }
    }

    /// Begins an attempt: nothing is known of the file yet, and the first
    /// thing asked for is the lookup of the host.
    pub fn begin(version: HttpVersion) -> (started: (Transfer, TransferAction))
        ensures
            started.0 == Transfer::fresh(version),
            started.0.wf(),
            started.1 is Resolve,
    {
        (
            Transfer {
                phase: TransferPhase::Resolving,
                http2: version.forces_http2(),
                state: TransferState { existing_bytes: 0, total_bytes: None, written_bytes: 0 },
                failure: None,
            },
            TransferAction::Resolve,
        )
    }

    /// Whether the attempt is one that `begin` and `step` can have made.
    pub fn is_well_formed(&self) -> (well: bool)
        ensures
            well == self.wf(),
    {
        let early = match self.phase {
            TransferPhase::Resolving => true,
            TransferPhase::Probing => true,
            _ => false,
        };
        let unanswered = match self.phase {
            TransferPhase::Requesting => true,
            _ => early,
        };
        let unopened = match self.phase {
            TransferPhase::Opening => true,
            _ => unanswered,
        };
        let failed = match self.phase {
            TransferPhase::Failed => true,
            _ => false,
        };
        self.state.written_bytes <= u64::MAX - self.state.existing_bytes && self.failure.is_some()
            == failed && (!early || self.state.existing_bytes == 0) && (!unopened
            || self.state.written_bytes == 0) && (!unanswered || self.state.total_bytes.is_none())
            && match self.state.total_bytes {
            Some(total) => total >= self.state.existing_bytes,
            None => true,
        }
    }

    /// Whether the attempt has ended, well or badly.
    pub fn is_terminal(&self) -> (ended: bool)
        ensures
            ended == self.spec_is_terminal(),
    {
        match self.phase {
            TransferPhase::Succeeded => true,
            TransferPhase::Failed => true,
            _ => false,
        }
    }

    /// Whether the byte counts stay within 64 bits when `event` is taken.
    /// `step` asks for this.
    pub fn admits(&self, event: &TransferEvent) -> (fits: bool)
        requires
            self.wf(),
        ensures
            fits == self.spec_admits(*event),
    {
        match event {
            TransferEvent::Responded { status, content_length: Some(declared) } => {
                match self.phase {
                    TransferPhase::Requesting => {
                        classify_status(*status).is_some() || *declared <= u64::MAX
                            - self.state.existing_bytes
                    },
                    _ => true,
                }
            },
            TransferEvent::ChunkWritten { len } => {
                match self.phase {
                    TransferPhase::Streaming => {
                        *len <= u64::MAX - self.state.existing_bytes - self.state.written_bytes
                    },
                    _ => true,
                }
            },
            _ => true,
        }
    }

    /// Takes one event: moves the attempt on and says what to do next.
    pub fn step(&mut self, event: TransferEvent) -> (action: TransferAction)
        requires
            old(self).wf(),
            old(self).spec_admits(event),
        ensures
            (*final(self), action) == old(self).next(event),
            final(self).wf(),
    {
        let (after, action) = self.successor(event);
        *self = after;
        action
    }

    /// The attempt after `event` and the action it asks for.
    fn successor(&self, event: TransferEvent) -> (r: (Transfer, TransferAction))
        requires
            self.wf(),
            self.spec_admits(event),
        ensures
            r == self.next(event),
            r.0.wf(),
    {
        match (self.phase, event) {
            (TransferPhase::Resolving, TransferEvent::HostResolved) => (
                self.enter(TransferPhase::Probing),
                TransferAction::Probe,
            ),
            (TransferPhase::Resolving, TransferEvent::HostUnresolved) => self.fail(
                Failure::Resolve,
            ),
            (TransferPhase::Probing, TransferEvent::Probed { existing_bytes }) => {
                let range_from = if existing_bytes > 0 {
                    Some(existing_bytes)
                } else {
                    None
                };
                (
                    Transfer {
                        phase: TransferPhase::Requesting,
                        http2: self.http2,
                        state: TransferState {
                            existing_bytes,
                            total_bytes: self.state.total_bytes,
                            written_bytes: self.state.written_bytes,
                        },
                        failure: self.failure,
                    },
                    TransferAction::Send { range_from, http2: self.http2 },
                )
            },
            (TransferPhase::Requesting, TransferEvent::SendFailed { http2_unsupported }) => {
                if self.http2 && http2_unsupported {
                    self.fail(Failure::Http2Unsupported)
                } else {
                    self.fail(Failure::Send)
                }
            },
            (TransferPhase::Requesting, TransferEvent::Responded { status, content_length }) => {
                match classify_status(status) {
                    Some(failure) => self.fail(failure),
                    None => {
                        let total = match content_length {
                            Some(declared) => Some(self.state.existing_bytes + declared),
                            None => None,
                        };
                        (
                            Transfer {
                                phase: TransferPhase::Opening,
                                http2: self.http2,
                                state: TransferState {
                                    existing_bytes: self.state.existing_bytes,
                                    total_bytes: total,
                                    written_bytes: self.state.written_bytes,
                                },
                                failure: self.failure,
                            },
                            TransferAction::Open { total },
                        )
                    },
                }
            },
            (TransferPhase::Opening, TransferEvent::Opened) => (
                self.enter(TransferPhase::Streaming),
                TransferAction::Receive,
            ),
            (TransferPhase::Opening, TransferEvent::OpenFailed) => self.fail(Failure::Open),
            (TransferPhase::Streaming, TransferEvent::ChunkWritten { len }) => (
                Transfer {
                    phase: self.phase,
                    http2: self.http2,
                    state: TransferState {
                        existing_bytes: self.state.existing_bytes,
                        total_bytes: self.state.total_bytes,
                        written_bytes: self.state.written_bytes + len,
                    },
                    failure: self.failure,
                },
                TransferAction::Advance { by: len },
            ),
            (TransferPhase::Streaming, TransferEvent::ReadFailed) => self.fail(Failure::Read),
            (TransferPhase::Streaming, TransferEvent::WriteFailed) => self.fail(Failure::Write),
            (TransferPhase::Streaming, TransferEvent::EndOfStream) => (
                self.enter(TransferPhase::Succeeded),
                TransferAction::Finish,
            ),
            _ => (*self, TransferAction::Refuse),
        }
    }

    /// The attempt in a new phase that is not `Failed`.
    fn enter(&self, phase: TransferPhase) -> (t: Transfer)
        ensures
            t == self.moved(phase),
    {
        Transfer { phase, http2: self.http2, state: self.state, failure: self.failure }
    }

    /// The attempt given up for `failure`.
    fn fail(&self, failure: Failure) -> (r: (Transfer, TransferAction))
        ensures
            r == self.failed(failure),
    {
        (
            Transfer {
                phase: TransferPhase::Failed,
                http2: self.http2,
                state: self.state,
                failure: Some(failure),
            },
            TransferAction::Fail(failure),
        )
    }
}

impl Failure {
    /// Whether `error` is the error that stands for this failure, given the
    /// text `detail` that the outside world gave for it.
    pub open spec fn explains(self, detail: Seq<char>, error: NgetError) -> bool {
        match self {
            Failure::Resolve => error matches NgetError::ResolveAddressError(m) && m@ == detail,
            Failure::Send => error matches NgetError::HttpRequest(m) && m@ == "Request failed: "@
                + detail,
            Failure::Http2Unsupported => error matches NgetError::UnsupportedHTTPVersion(m) && m@
                == detail,
            Failure::NotFound => error matches NgetError::InvalidUrl(m) && m@
                == "URL is Invalid. Please make sure the URL is correct."@,
            Failure::Status(code) => error matches NgetError::HttpRequest(m) && m@
                == "Unexpected status: "@ + decimal(code as nat),
            Failure::Open => error matches NgetError::FileError(m) && m@
                == "Failed to open file: "@ + detail,
            Failure::Read => error matches NgetError::HttpRequest(m) && m@
                == "Failed to read chunk: "@ + detail,
            Failure::Write => error matches NgetError::FileError(m) && m@
                == "Failed to write file: "@ + detail,
        }
    }

    /// The error that stands for this failure. A status other than 200, 206
    /// and 404 is carried in the message as a decimal number; 404 and a
    /// refused protocol version have variants of their own.
    pub fn into_error(self, detail: &str) -> (error: NgetError)
        ensures
            self.explains(detail@, error),
    {
        match self {
            Failure::Resolve => NgetError::ResolveAddressError(detail.to_owned()),
            Failure::Send => NgetError::HttpRequest(headed("Request failed: ", detail)),
            Failure::Http2Unsupported => NgetError::UnsupportedHTTPVersion(detail.to_owned()),
            Failure::NotFound => NgetError::InvalidUrl(
                "URL is Invalid. Please make sure the URL is correct.".to_owned(),
            ),
            Failure::Status(code) => {
                let number = decimal_text(code as u64);
                NgetError::HttpRequest(headed("Unexpected status: ", number.as_str()))
            },
            Failure::Open => NgetError::FileError(headed("Failed to open file: ", detail)),
            Failure::Read => NgetError::HttpRequest(headed("Failed to read chunk: ", detail)),
            Failure::Write => NgetError::FileError(headed("Failed to write file: ", detail)),
        }
    }
}

/// The value of the `Range` header that asks for a resource from `offset`
/// to its end.
pub open spec fn range_from(offset: u64) -> Seq<char> {
    "bytes="@ + decimal(offset as nat) + "-"@
}

/// The value of the `Range` header that asks for a resource from `offset`
/// to its end.
pub fn range_header_value(offset: u64) -> (value: String)
    ensures
        value@ == range_from(offset),
{
    let number = decimal_text(offset);
    let mut value = headed("bytes=", number.as_str());
    value.append("-");
    value
}

/// The message with which the progress sink is finished after a success.
pub fn saved_message(destination: &str) -> (message: String)
    ensures
        message@ == "Saved to: "@ + destination@,
{
    headed("Saved to: ", destination)
}

/// Whether the text of a send failure's cause says that the remote refused
/// the protocol version.
pub fn refuses_http2(cause: &str) -> (refused: bool)
    ensures
        refused == occurs_in(cause@, "UserUnsupportedVersion"@),
{
    contains(cause, "UserUnsupportedVersion")
}

/// The events of a body that arrives in chunks of the given lengths, each
/// appended to the file as it comes.
pub open spec fn chunk_events(lens: Seq<u64>) -> Seq<TransferEvent> {
    Seq::new(lens.len(), |i: int| TransferEvent::ChunkWritten { len: lens[i] })
}

/// The sum of the lengths of some chunks.
pub open spec fn total_len(lens: Seq<u64>) -> nat
    decreases lens.len(),
{
    if lens.len() == 0 {
        0
    } else {
        total_len(lens.drop_last()) + lens.last() as nat
    }
}

impl Transfer {
    /// The attempt after a run of events, taken in order.
    pub open spec fn after(self, events: Seq<TransferEvent>) -> Transfer
        decreases events.len(),
    {
        if events.len() == 0 {
            self
        } else {
            self.after(events.drop_last()).next(events.last()).0
        }
    }

    /// The attempt with its count of written bytes raised by `more`.
    pub open spec fn advanced(self, more: nat) -> Transfer {
        Transfer {
            state: TransferState {
                written_bytes: (self.state.written_bytes + more) as u64,
                ..self.state
            },
            ..self
        }
    }

    /// While streaming, a run of chunks changes the count of written bytes
    /// by the sum of their lengths, and nothing else.
    pub proof fn lemma_chunks_add_up(self, lens: Seq<u64>)
        requires
            self.phase == TransferPhase::Streaming,
            self.spec_file_size() + total_len(lens) <= u64::MAX,
        ensures
            self.after(chunk_events(lens)) == self.advanced(total_len(lens)),
        decreases lens.len(),
    {
        if lens.len() > 0 {
            let head = lens.drop_last();
            self.lemma_chunks_add_up(head);
            assert(chunk_events(lens).drop_last() =~= chunk_events(head));
            assert(chunk_events(lens).last() == TransferEvent::ChunkWritten { len: lens.last() });
        }
    }

    /// An attempt that is well formed stays so over every run of events
    /// that keeps the byte counts within 64 bits.
    pub proof fn lemma_run_keeps_wf(self, events: Seq<TransferEvent>)
        requires
            self.wf(),
            forall|k: int|
                0 <= k < events.len() ==> (#[trigger] self.after(events.take(k))).spec_admits(
                    events[k],
                ),
        ensures
            self.after(events).wf(),
        decreases events.len(),
    {
        if events.len() > 0 {
            let head = events.drop_last();
            assert forall|k: int| 0 <= k < head.len() implies (#[trigger] self.after(
                head.take(k),
            )).spec_admits(head[k]) by {
                assert(head.take(k) =~= events.take(k));
            }
            self.lemma_run_keeps_wf(head);
            assert(events.take(events.len() - 1) =~= head);
        }
    }

    /// Resuming: where the file holds `existing` bytes of a resource of
    /// `total` bytes and the remote answers the request with the rest, in
    /// chunks of any lengths, the attempt asks for the range that starts at
    /// `existing`, appends exactly `total - existing` bytes, and ends in
    /// success with a file of `total` bytes.
    pub proof fn lemma_resume_completes(
        version: HttpVersion,
        existing: u64,
        total: u64,
        status: u16,
        lens: Seq<u64>,
    )
        requires
            existing < total,
            status == 200 || status == 206,
            total_len(lens) == total - existing,
        ensures
            ({
                let probing = Transfer::fresh(version).next(TransferEvent::HostResolved).0;
                let asked = probing.next(TransferEvent::Probed { existing_bytes: existing });
                let answered = asked.0.next(
                    TransferEvent::Responded {
                        status,
                        content_length: Some((total - existing) as u64),
                    },
                );
                let streaming = answered.0.next(TransferEvent::Opened).0;
                let ended = streaming.after(chunk_events(lens)).next(TransferEvent::EndOfStream);
                &&& asked.1 == TransferAction::Send {
                    range_from: resume_offset(existing),
                    http2: version.spec_forces_http2(),
                }
                &&& answered.1 == TransferAction::Open { total: Some(total) }
                &&& ended.1 == TransferAction::Finish
                &&& ended.0.phase == TransferPhase::Succeeded
                &&& ended.0.state.existing_bytes == existing
                &&& ended.0.state.written_bytes == total - existing
                &&& ended.0.state.total_bytes == Some(total)
                &&& ended.0.spec_file_size() == total
            }),
    {
        let probing = Transfer::fresh(version).next(TransferEvent::HostResolved).0;
        let asked = probing.next(TransferEvent::Probed { existing_bytes: existing });
        let answered = asked.0.next(
            TransferEvent::Responded { status, content_length: Some((total - existing) as u64) },
        );
        let streaming = answered.0.next(TransferEvent::Opened).0;
        streaming.lemma_chunks_add_up(lens);
    }

    /// Running again on a file that is already whole: the attempt asks for
    /// the range that starts where the resource ends, and whatever the
    /// remote then answers, as long as it sends no further bytes, the file
    /// keeps its size; where the remote answers with an empty body, the
    /// attempt ends in success with nothing written.
    pub proof fn lemma_rerun_keeps_file(
        version: HttpVersion,
        total: u64,
        status: u16,
        events: Seq<TransferEvent>,
    )
        requires
            status == 200 || status == 206,
            forall|k: int|
                0 <= k < events.len() ==> (#[trigger] events[k] matches TransferEvent::ChunkWritten {
                    len,
                } ==> len == 0),
        ensures
            ({
                let probing = Transfer::fresh(version).next(TransferEvent::HostResolved).0;
                let asked = probing.next(TransferEvent::Probed { existing_bytes: total });
                let streaming = asked.0.next(
                    TransferEvent::Responded { status, content_length: Some(0) },
                ).0.next(TransferEvent::Opened).0;
                let ended = streaming.next(TransferEvent::EndOfStream).0;
                &&& asked.1 == TransferAction::Send {
                    range_from: resume_offset(total),
                    http2: version.spec_forces_http2(),
                }
                &&& asked.0.after(events).state.written_bytes == 0
                &&& asked.0.after(events).spec_file_size() == total
                &&& ended.phase == TransferPhase::Succeeded
                &&& ended.state.written_bytes == 0
                &&& ended.spec_file_size() == total
            }),
    {
        let probing = Transfer::fresh(version).next(TransferEvent::HostResolved).0;
        let asked = probing.next(TransferEvent::Probed { existing_bytes: total }).0;
        asked.lemma_idle_run_writes_nothing(events);
    }

    /// A failed attempt keeps what it wrote: where the body breaks off
    /// after some chunks, by a failed read or a failed write, the attempt
    /// ends as failed and the file holds what it held before and the chunks
    /// that arrived, so that the next attempt, probing the file, goes on
    /// from there.
    pub proof fn lemma_broken_stream_keeps_bytes(self, lens: Seq<u64>, read_failed: bool)
        requires
            self.phase == TransferPhase::Streaming,
            self.spec_file_size() + total_len(lens) <= u64::MAX,
        ensures
            ({
                let broke = if read_failed {
                    TransferEvent::ReadFailed
                } else {
                    TransferEvent::WriteFailed
                };
                let ended = self.after(chunk_events(lens)).next(broke).0;
                &&& ended.phase == TransferPhase::Failed
                &&& ended.spec_file_size() == self.spec_file_size() + total_len(lens)
                &&& Transfer::fresh(HttpVersion::Http11).next(TransferEvent::HostResolved).0.next(
                    TransferEvent::Probed { existing_bytes: ended.spec_file_size() as u64 },
                ).1 == TransferAction::Send {
                    range_from: resume_offset(ended.spec_file_size() as u64),
                    http2: false,
                }
            }),
    {
        self.lemma_chunks_add_up(lens);
    }

    /// How a status is answered: 200 and 206 open the file and go on to
    /// the body; 404 fails as not found; every other status fails with the
    /// status itself, under forced HTTP/2 as under any other version. No
    /// status but 200 and 206 leads to a success.
    pub proof fn lemma_status_mapping(self, status: u16, content_length: Option<u64>)
        requires
            self.phase == TransferPhase::Requesting,
        ensures
            ({
                let answered = self.next(TransferEvent::Responded { status, content_length });
                &&& status == 200 || status == 206 ==> answered.0.phase == TransferPhase::Opening
                    && answered.1 is Open
                &&& status == 404 ==> answered.1 == TransferAction::Fail(Failure::NotFound)
                &&& status != 200 && status != 206 && status != 404 ==> answered.1
                    == TransferAction::Fail(Failure::Status(status))
                &&& status != 200 && status != 206 ==> answered.0.phase == TransferPhase::Failed
                    && forall|events: Seq<TransferEvent>| #[trigger]
                    answered.0.after(events).phase == TransferPhase::Failed
            }),
    {
        let answered = self.next(TransferEvent::Responded { status, content_length });
        if status != 200 && status != 206 {
            assert forall|events: Seq<TransferEvent>| #[trigger]
                answered.0.after(events).phase == TransferPhase::Failed by {
                answered.0.lemma_failed_stays_failed(events);
            }
        }
    }

    /// A failed attempt stays failed whatever is reported to it.
    pub proof fn lemma_failed_stays_failed(self, events: Seq<TransferEvent>)
        requires
            self.phase == TransferPhase::Failed,
        ensures
            self.after(events) == self,
        decreases events.len(),
    {
        if events.len() > 0 {
            self.lemma_failed_stays_failed(events.drop_last());
        }
    }

    /// After the probe, a run in which no chunk holds a byte leaves the byte
    /// counts of what is on disk as they were.
    pub proof fn lemma_idle_run_writes_nothing(self, events: Seq<TransferEvent>)
        requires
            self.phase != TransferPhase::Resolving,
            self.phase != TransferPhase::Probing,
            forall|k: int|
                0 <= k < events.len() ==> (#[trigger] events[k] matches TransferEvent::ChunkWritten {
                    len,
                } ==> len == 0),
        ensures
            self.after(events).state.written_bytes == self.state.written_bytes,
            self.after(events).state.existing_bytes == self.state.existing_bytes,
        decreases events.len(),
    {
        if events.len() > 0 {
            let head = events.drop_last();
            assert forall|k: int| 0 <= k < head.len() implies (#[trigger] head[k] matches TransferEvent::ChunkWritten {
                len,
            } ==> len == 0) by {
                assert(head[k] == events[k]);
            }
            self.lemma_idle_run_writes_nothing(head);
            self.lemma_phase_never_returns(head);
            assert(events[events.len() - 1] == events.last());
        }
    }

    /// Once the file has been probed, no run of events brings the attempt
    /// back to a phase before the request.
    pub proof fn lemma_phase_never_returns(self, events: Seq<TransferEvent>)
        requires
            self.phase != TransferPhase::Resolving,
            self.phase != TransferPhase::Probing,
        ensures
            self.after(events).phase != TransferPhase::Resolving,
            self.after(events).phase != TransferPhase::Probing,
        decreases events.len(),
    {
        if events.len() > 0 {
            self.lemma_phase_never_returns(events.drop_last());
        }
    }
}

} // verus!
