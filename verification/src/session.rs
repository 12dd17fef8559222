use vstd::prelude::*;

verus! {

/// Number of consecutive failed reads a session tolerates before it gives up.
pub const MAX_READ_RETRIES: u32 = 3;

/// Lifecycle of one accepted connection.
#[derive(Clone, Copy, Debug, PartialEq, Eq, Structural)]
pub enum SessionState {
    /// Waiting for the next chunk from the peer.
    Reading,
    /// A chunk has been read and its echo write is in flight.
    Echoing,
    /// The peer closed its write side; orderly end, not an error.
    ClosedClean,
    /// Unrecoverable I/O failure, or the read retry budget ran out.
    ClosedError,
}

/// What one read attempt on the connection produced, as the I/O layer hands
/// it to the session: the bytes read (zero bytes meaning the peer closed its
/// write side), or a failed read.
pub enum ReadOutcome {
    Chunk(Vec<u8>),
    Failed,
}

/// Spec-level image of a `ReadOutcome`.
pub enum ReadOutcomeV {
    Chunk(Seq<u8>),
    Failed,
}

impl View for ReadOutcome {
    type V = ReadOutcomeV;

    open spec fn view(&self) -> ReadOutcomeV {
        match self {
            ReadOutcome::Chunk(data) => ReadOutcomeV::Chunk(data@),
            ReadOutcome::Failed => ReadOutcomeV::Failed,
        }
    }
}

/// What the I/O layer must do next on behalf of the session.
pub enum SessionAction {
    /// Write exactly these bytes back to the peer, as one logical write.
    Echo(Vec<u8>),
    /// Attempt the next read.
    ReadAgain,
    /// The session is over: close the connection and give the permit back.
    Finish,
}

/// Spec-level image of a `SessionAction`.
pub enum SessionActionV {
    Echo(Seq<u8>),
    ReadAgain,
    Finish,
}

impl View for SessionAction {
    type V = SessionActionV;

    open spec fn view(&self) -> SessionActionV {
        match self {
            SessionAction::Echo(data) => SessionActionV::Echo(data@),
            SessionAction::ReadAgain => SessionActionV::ReadAgain,
            SessionAction::Finish => SessionActionV::Finish,
        }
    }
}

/// The per-connection echo loop as a state machine. `retries` counts the
/// consecutive failed reads in the current attempt batch; it is reset by
/// every successful read, so the budget never accumulates across successful
/// traffic.
pub struct EchoSession {
    pub state: SessionState,
    pub retries: u32,
}

/// One `Reading` step of the machine: zero bytes close the session cleanly;
/// a nonempty chunk moves to `Echoing` with exactly those bytes to write and
/// resets the retry budget; a failed read retries while budget remains and
/// otherwise ends the session in error.
pub open spec fn spec_on_read(s: EchoSession, outcome: ReadOutcomeV) -> (EchoSession, SessionActionV) {
    match outcome {
        ReadOutcomeV::Chunk(data) => {
            if data.len() == 0 {
                (EchoSession { state: SessionState::ClosedClean, ..s }, SessionActionV::Finish)
            } else {
                (
                    EchoSession { state: SessionState::Echoing, retries: 0 },
                    SessionActionV::Echo(data),
                )
            }
        },
        ReadOutcomeV::Failed => {
            if s.retries < MAX_READ_RETRIES {
                (
                    EchoSession { state: SessionState::Reading, retries: (s.retries + 1) as u32 },
                    SessionActionV::ReadAgain,
                )
            } else {
                (EchoSession { state: SessionState::ClosedError, ..s }, SessionActionV::Finish)
            }
        },
    }
}

/// One `Echoing` step: a completed write returns to `Reading`; a failed
/// write ends the session in error at once, with no retry.
pub open spec fn spec_on_write(s: EchoSession, ok: bool) -> (EchoSession, SessionActionV) {
    if ok {
        (EchoSession { state: SessionState::Reading, ..s }, SessionActionV::ReadAgain)
    } else {
        (EchoSession { state: SessionState::ClosedError, ..s }, SessionActionV::Finish)
    }
}

impl EchoSession {
    /// The retry counter never passes its budget.
    pub open spec fn wf(self) -> bool {
        self.retries <= MAX_READ_RETRIES
    }

    /// The session has ended and takes no further step.
    pub open spec fn is_terminal(self) -> bool {
        self.state == SessionState::ClosedClean || self.state == SessionState::ClosedError
    }

    /// A fresh session for a just-accepted connection.
    pub fn new() -> (s: EchoSession)
        ensures
            s.state == SessionState::Reading,
            s.retries == 0,
            s.wf(),
    {
        EchoSession { state: SessionState::Reading, retries: 0 }
    }

    /// Feed the outcome of one read attempt to the session. The returned
    /// action is `Finish` exactly when the session has reached a terminal
    /// state, so the caller closes the connection and releases its permit
    /// exactly once.
    pub fn on_read(&mut self, outcome: ReadOutcome) -> (a: SessionAction)
        requires
            old(self).state == SessionState::Reading,
            old(self).wf(),
        ensures
            (*final(self), a@) == spec_on_read(*old(self), outcome@),
            final(self).wf(),
            a@ == SessionActionV::Finish <==> final(self).is_terminal(),
    {
        match outcome {
            ReadOutcome::Chunk(data) => {
                if data.len() == 0 {
                    self.state = SessionState::ClosedClean;
                    SessionAction::Finish
                } else {
                    self.state = SessionState::Echoing;
                    self.retries = 0;
                    SessionAction::Echo(data)
                }
            },
            ReadOutcome::Failed => {
                if self.retries < MAX_READ_RETRIES {
                    self.retries = self.retries + 1;
                    SessionAction::ReadAgain
                } else {
                    self.state = SessionState::ClosedError;
                    SessionAction::Finish
                }
            },
        }
    }

    /// Feed the outcome of the echo write to the session. As with `on_read`,
    /// the action is `Finish` exactly when the session has ended.
    pub fn on_write(&mut self, ok: bool) -> (a: SessionAction)
        requires
            old(self).state == SessionState::Echoing,
            old(self).wf(),
        ensures
            (*final(self), a@) == spec_on_write(*old(self), ok),
            final(self).wf(),
            final(self).retries == old(self).retries,
            a@ == SessionActionV::Finish <==> final(self).is_terminal(),
    {
        if ok {
            self.state = SessionState::Reading;
            SessionAction::ReadAgain
        } else {
            self.state = SessionState::ClosedError;
            SessionAction::Finish
        }
    }
}

/// Echo fidelity: a session that reads a nonempty chunk answers with exactly
/// those bytes, unchanged and in order, as one logical write.
pub proof fn lemma_echo_fidelity(s: EchoSession, data: Seq<u8>)
    requires
        s.wf(),
        s.state == SessionState::Reading,
        data.len() > 0,
    ensures
        spec_on_read(s, ReadOutcomeV::Chunk(data)).1 == SessionActionV::Echo(data),
        spec_on_read(s, ReadOutcomeV::Chunk(data)).0.state == SessionState::Echoing,
        spec_on_read(s, ReadOutcomeV::Chunk(data)).0.retries == 0,
{
}

/// The chunks a session echoes when it reads the given chunks in order, each
/// read followed by its completed echo write.
pub open spec fn spec_echoes(s: EchoSession, chunks: Seq<Seq<u8>>) -> Seq<Seq<u8>>
    decreases chunks.len(),
{
    if chunks.len() == 0 {
        Seq::empty()
    } else {
        let step = spec_on_read(s, ReadOutcomeV::Chunk(chunks.first()));
        let echoed = match step.1 {
            SessionActionV::Echo(b) => seq![b],
            _ => Seq::empty(),
        };
        echoed + spec_echoes(spec_on_write(step.0, true).0, chunks.drop_first())
    }
}

/// Echo fidelity over a whole conversation: a session that reads a sequence
/// of nonempty chunks, each echo write completing, sends back exactly those
/// chunks, in order — nothing reordered, coalesced, dropped or altered.
pub proof fn lemma_echo_stream(s: EchoSession, chunks: Seq<Seq<u8>>)
    requires
        s.state == SessionState::Reading,
        forall|i: int| 0 <= i < chunks.len() ==> chunks[i].len() > 0,
    ensures
        spec_echoes(s, chunks) == chunks,
    decreases chunks.len(),
{
    if chunks.len() > 0 {
        let step = spec_on_read(s, ReadOutcomeV::Chunk(chunks.first()));
        let next = spec_on_write(step.0, true).0;
        assert(forall|i: int|
            0 <= i < chunks.drop_first().len() ==> #[trigger] chunks.drop_first()[i].len() > 0);
        lemma_echo_stream(next, chunks.drop_first());
        assert(spec_echoes(s, chunks) =~= chunks);
    }
}

/// Retry bound: from a fresh attempt batch, three consecutive failed reads
/// leave the session still reading with the budget used up; a fourth failure
/// ends it as `ClosedError`. Two failures followed by a successful read
/// continue normally, with the retry budget reset by that read.
pub proof fn lemma_retry_bound(s: EchoSession, data: Seq<u8>)
    requires
        s.state == SessionState::Reading,
        s.retries == 0,
        data.len() > 0,
    ensures
        ({
            let s1 = spec_on_read(s, ReadOutcomeV::Failed).0;
            let s2 = spec_on_read(s1, ReadOutcomeV::Failed).0;
            let s3 = spec_on_read(s2, ReadOutcomeV::Failed).0;
            let s4 = spec_on_read(s3, ReadOutcomeV::Failed).0;
            &&& s3.state == SessionState::Reading
            &&& s3.retries == MAX_READ_RETRIES
            &&& s4.state == SessionState::ClosedError
            &&& spec_on_read(s2, ReadOutcomeV::Chunk(data)).0.state == SessionState::Echoing
            &&& spec_on_read(s2, ReadOutcomeV::Chunk(data)).0.retries == 0
        }),
{
}

/// Disconnect detection: a zero-length read — the peer closed its write
/// side — ends the session cleanly on that very read, with no error state.
pub proof fn lemma_disconnect_detection(s: EchoSession)
    requires
        s.wf(),
        s.state == SessionState::Reading,
    ensures
        spec_on_read(s, ReadOutcomeV::Chunk(Seq::empty())).0.state == SessionState::ClosedClean,
        spec_on_read(s, ReadOutcomeV::Chunk(Seq::empty())).1 == SessionActionV::Finish,
{
}

} // verus!
