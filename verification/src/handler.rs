//! The per-connection echo state machine.
//!
//! A [`ConnectionHandler`] owns the life of one accepted connection.  It
//! moves through `Reading -> Writing -> Reading -> ... -> Closing ->
//! Terminated`, with a direct edge to `Failed` on any unrecoverable I/O
//! error.  The handler itself performs no I/O: it tells its environment
//! what to do next ([`ConnectionHandler::next_action`]) and is told what
//! happened (`on_read`, `on_write`, `on_shutdown`).  Two ghost sequences —
//! the bytes received so far and the bytes echoed back so far — let the
//! crate state and prove that the echo is byte-exact and order-preserving.

use vstd::prelude::*;

verus! {

/// Size of the read buffer the environment should use for one read.
pub const READ_BUFFER_LEN: usize = 1024;

/// The states of the echo state machine.
#[derive(Clone, Copy, Debug, PartialEq, Eq, Structural)]
pub enum HandlerState {
    /// Waiting for the next chunk of bytes from the peer.
    Reading,
    /// Holding a non-empty chunk that must be written back verbatim.
    Writing,
    /// The peer closed its write side; the connection is to be shut down.
    Closing,
    /// The handler finished cleanly: everything received was echoed.
    Terminated,
    /// An unrecoverable I/O error ended the handler.
    Failed,
}

/// What the handler asks its environment to do next.
#[derive(Clone, Copy, Debug, PartialEq, Eq, Structural)]
pub enum HandlerAction {
    /// Read up to [`READ_BUFFER_LEN`] bytes from the connection.
    Read,
    /// Write the pending chunk back to the connection, in full.
    Write,
    /// Shut down both directions of the connection.
    Shutdown,
    /// The handler is done; perform no further I/O.
    Stop,
}

/// The outcome of one read attempt, as the environment observed it.
pub enum ReadOutcome {
    /// The read returned these bytes; an empty chunk means end of file.
    Bytes(Vec<u8>),
    /// The read failed with a transient condition (interrupted system
    /// call, would-block): retry immediately.
    Transient,
    /// The read failed with any other error: fatal for this handler.
    Fatal,
}

/// Spec-level image of a [`ReadOutcome`].
pub ghost enum ReadOutcomeModel {
    Bytes(Seq<u8>),
    Transient,
    Fatal,
}

impl View for ReadOutcome {
    type V = ReadOutcomeModel;

    open spec fn view(&self) -> ReadOutcomeModel {
        match self {
            ReadOutcome::Bytes(data) => ReadOutcomeModel::Bytes(data@),
            ReadOutcome::Transient => ReadOutcomeModel::Transient,
            ReadOutcome::Fatal => ReadOutcomeModel::Fatal,
        }
    }
}

/// Spec-level image of a [`ConnectionHandler`]: its state, the chunk it
/// still has to write, and the two byte histories of the connection.
#[verifier::ext_equal]
pub ghost struct HandlerModel {
    pub state: HandlerState,
    /// The chunk read but not yet written back (meaningful in `Writing`).
    pub pending: Seq<u8>,
    /// All bytes received from the peer so far, in order.
    pub received: Seq<u8>,
    /// All bytes written back to the peer so far, in order.
    pub echoed: Seq<u8>,
}

/// Well-formedness of a handler: the echoed bytes always form a prefix of
/// the received bytes; while a chunk is pending, it is exactly the part of
/// the received bytes not yet echoed; everywhere else the echo is caught
/// up, except after a failure, where the last chunk may be lost.
pub open spec fn handler_wf(m: HandlerModel) -> bool {
    &&& m.state is Writing ==> m.pending.len() > 0 && m.received == m.echoed + m.pending
    &&& (m.state is Reading || m.state is Closing || m.state is Terminated)
        ==> m.pending.len() == 0 && m.echoed == m.received
    &&& m.state is Failed ==> (m.received == m.echoed || m.received == m.echoed + m.pending)
}

/// The action each state calls for.
pub open spec fn action_of(s: HandlerState) -> HandlerAction {
    match s {
        HandlerState::Reading => HandlerAction::Read,
        HandlerState::Writing => HandlerAction::Write,
        HandlerState::Closing => HandlerAction::Shutdown,
        HandlerState::Terminated => HandlerAction::Stop,
        HandlerState::Failed => HandlerAction::Stop,
    }
}

/// A fresh handler: reading, with empty histories.
pub open spec fn handler_init() -> HandlerModel {
    HandlerModel {
        state: HandlerState::Reading,
        pending: Seq::empty(),
        received: Seq::empty(),
        echoed: Seq::empty(),
    }
}

/// The transition taken in `Reading` on a read outcome: end of file moves
/// to `Closing`; a non-empty chunk is recorded and moves to `Writing`; a
/// transient failure leaves the state unchanged (immediate retry); any
/// other failure is fatal.
pub open spec fn read_transition(m: HandlerModel, r: ReadOutcomeModel) -> HandlerModel {
    match r {
        ReadOutcomeModel::Bytes(data) => if data.len() == 0 {
            HandlerModel { state: HandlerState::Closing, ..m }
        } else {
            HandlerModel {
                state: HandlerState::Writing,
                pending: data,
                received: m.received + data,
                echoed: m.echoed,
            }
        },
        ReadOutcomeModel::Transient => m,
        ReadOutcomeModel::Fatal => HandlerModel { state: HandlerState::Failed, ..m },
    }
}

/// The transition taken in `Writing`: on success the whole pending chunk
/// was written back and the handler returns to `Reading`; on failure the
/// handler ends in `Failed`.
pub open spec fn write_transition(m: HandlerModel, ok: bool) -> HandlerModel {
    if ok {
        HandlerModel {
            state: HandlerState::Reading,
            pending: Seq::empty(),
            echoed: m.echoed + m.pending,
            received: m.received,
        }
    } else {
        HandlerModel { state: HandlerState::Failed, ..m }
    }
}

/// The transition taken in `Closing`: a clean shutdown terminates the
/// handler; a failed shutdown is fatal.
pub open spec fn shutdown_transition(m: HandlerModel, ok: bool) -> HandlerModel {
    if ok {
        HandlerModel { state: HandlerState::Terminated, ..m }
    } else {
        HandlerModel { state: HandlerState::Failed, ..m }
    }
}

/// The echo state machine for one connection.
pub struct ConnectionHandler {
    state: HandlerState,
    pending: Vec<u8>,
    received: Ghost<Seq<u8>>,
    echoed: Ghost<Seq<u8>>,
}

impl View for ConnectionHandler {
    type V = HandlerModel;

    closed spec fn view(&self) -> HandlerModel {
        HandlerModel {
            state: self.state,
            pending: self.pending@,
            received: self.received@,
            echoed: self.echoed@,
        }
    }
}

impl ConnectionHandler {
    /// A handler for a freshly accepted connection.
    pub fn new() -> (h: Self)
        ensures
            h@ == handler_init(),
            handler_wf(h@),
    {
        let h = ConnectionHandler {
            state: HandlerState::Reading,
            pending: Vec::new(),
            received: Ghost(Seq::empty()),
            echoed: Ghost(Seq::empty()),
        };
        proof {
            assert(h@ =~= handler_init());
        }
        h
    }

    /// The handler's current state.
    pub fn phase(&self) -> (s: HandlerState)
        ensures
            s == self@.state,
    {
        self.state
    }

    /// What the environment should do next for this handler.
    pub fn next_action(&self) -> (a: HandlerAction)
        ensures
            a == action_of(self@.state),
    {
        match self.state {
            HandlerState::Reading => HandlerAction::Read,
            HandlerState::Writing => HandlerAction::Write,
            HandlerState::Closing => HandlerAction::Shutdown,
            HandlerState::Terminated => HandlerAction::Stop,
            HandlerState::Failed => HandlerAction::Stop,
        }
    }

    /// The chunk that must be written back next (non-empty exactly while
    /// the handler is in `Writing`).
    pub fn pending_bytes(&self) -> (b: &Vec<u8>)
        ensures
            b@ == self@.pending,
    {
        &self.pending
    }

    /// Record the outcome of one read attempt.
    pub fn on_read(&mut self, r: ReadOutcome)
        requires
            old(self)@.state is Reading,
            handler_wf(old(self)@),
        ensures
            final(self)@ == read_transition(old(self)@, r@),
            handler_wf(final(self)@),
    {
        match r {
            ReadOutcome::Bytes(data) => {
                if data.len() == 0 {
                    self.state = HandlerState::Closing;
                } else {
                    proof {
                        self.received@ = self.received@ + data@;
                    }
                    self.pending = data;
                    self.state = HandlerState::Writing;
                }
            }
            ReadOutcome::Transient => {}
            ReadOutcome::Fatal => {
                self.state = HandlerState::Failed;
            }
        }
        proof {
            assert(self@ =~= read_transition(old(self)@, r@));
        }
    }

    /// Record whether the pending chunk was written back in full.
    pub fn on_write(&mut self, ok: bool)
        requires
            old(self)@.state is Writing,
            handler_wf(old(self)@),
        ensures
            final(self)@ == write_transition(old(self)@, ok),
            handler_wf(final(self)@),
    {
        if ok {
            proof {
                self.echoed@ = self.echoed@ + self.pending@;
            }
            self.pending = Vec::new();
            self.state = HandlerState::Reading;
        } else {
            self.state = HandlerState::Failed;
        }
        proof {
            assert(self@ =~= write_transition(old(self)@, ok));
        }
    }

    /// Record whether the shutdown of the connection succeeded.
    pub fn on_shutdown(&mut self, ok: bool)
        requires
            old(self)@.state is Closing,
            handler_wf(old(self)@),
        ensures
            final(self)@ == shutdown_transition(old(self)@, ok),
            handler_wf(final(self)@),
    {
        if ok {
            self.state = HandlerState::Terminated;
        } else {
            self.state = HandlerState::Failed;
        }
        proof {
            assert(self@ =~= shutdown_transition(old(self)@, ok));
        }
    }
}

/// Echo correctness: a handler that terminated cleanly echoed back
/// exactly the bytes it received, byte for byte and in order.
pub proof fn lemma_echo_correctness(m: HandlerModel)
    requires
        handler_wf(m),
        m.state is Terminated,
    ensures
        m.echoed == m.received,
{
}

/// The echo never runs ahead: at every well-formed state, the bytes
/// echoed so far form a prefix of the bytes received so far.
pub proof fn lemma_echo_is_prefix(m: HandlerModel)
    requires
        handler_wf(m),
    ensures
        m.echoed.is_prefix_of(m.received),
{
    assert(m.echoed =~= m.received.subrange(0, m.echoed.len() as int));
}

/// Every transition of the echo state machine, taken from the state that
/// calls for it, preserves well-formedness.
pub proof fn lemma_transitions_preserve_wf(m: HandlerModel, r: ReadOutcomeModel, ok: bool)
    requires
        handler_wf(m),
    ensures
        m.state is Reading ==> handler_wf(read_transition(m, r)),
        m.state is Writing ==> handler_wf(write_transition(m, ok)),
        m.state is Closing ==> handler_wf(shutdown_transition(m, ok)),
{
}

/// End-of-file terminates the handler: in the reading state, an empty
/// read moves straight to `Closing`, whose one action is to shut the
/// connection down, and a clean shutdown ends in `Terminated` with the
/// echo complete — no write ever intervenes.
pub proof fn lemma_eof_terminates(m: HandlerModel)
    requires
        handler_wf(m),
        m.state is Reading,
    ensures
        ({
            let closing = read_transition(m, ReadOutcomeModel::Bytes(Seq::empty()));
            &&& closing.state is Closing
            &&& action_of(closing.state) is Shutdown
            &&& shutdown_transition(closing, true).state is Terminated
            &&& shutdown_transition(closing, true).echoed == m.received
        }),
{
}

} // verus!
