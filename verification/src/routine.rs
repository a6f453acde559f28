//! The local-data-supply routine as a linear state machine.
//!
//! One exchange: send the bulk-load command, read the server's decision
//! packet, stream the chunks of an external source onto the wire in receipt
//! order, terminate the transfer with one zero-length write, read one
//! acknowledgement packet, and record an empty pending result.
//!
//! The machine owns no I/O. [`LoadDataMachine::start`] yields the first
//! [`Action`]; the driver performs each action against its connection (or
//! chunk source) and feeds the outcome back through
//! [`LoadDataMachine::step`], which yields the next action, until the action
//! is [`Action::Succeed`] or [`Action::Fail`]. The driver must treat either
//! failure kind as fatal to the connection: partially sent protocol state
//! cannot be rolled back.

use vstd::prelude::*;

verus! {

/// Command code of the bulk-load command packet (the text-protocol query
/// command).
pub const COM_QUERY: u8 = 3;

/// First byte of the server packet that requests externally supplied file
/// content. Any other first byte is unsupported by this routine.
pub const FILE_REQUEST_SENTINEL: u8 = 0xFB;

/// The pending-result marker recorded on the connection once the exchange
/// completes: the number of columns and rows the finished command produced.
#[derive(Clone, Copy, Debug, PartialEq, Eq, Structural)]
pub struct ResultSummary {
    pub column_count: u64,
    pub row_count: u64,
}

impl ResultSummary {
    /// The marker denotes a result set with zero columns and zero rows.
    pub open spec fn denotes_empty_set(self) -> bool {
        self.column_count == 0 && self.row_count == 0
    }

    /// The marker of an empty result set.
    pub fn empty() -> (r: ResultSummary)
        ensures
            r.denotes_empty_set(),
            r == (ResultSummary { column_count: 0, row_count: 0 }),
    {
        ResultSummary { column_count: 0, row_count: 0 }
    }
}

/// Why the routine failed. Either kind is fatal: the connection is in an
/// undefined protocol state and must be discarded by the caller.
#[derive(Debug, PartialEq, Eq)]
pub enum RoutineError<E> {
    /// A connection operation failed; the underlying error is carried
    /// through unchanged.
    Connection(E),
    /// The server's first response byte was not [`FILE_REQUEST_SENTINEL`]:
    /// the server did not ask for file content, and no other response is
    /// supported by this routine.
    UnsupportedResponse,
}

/// The outcome of one performed [`Action`], fed back into the machine.
/// `E` is the driver's connection-error type.
#[derive(Debug)]
pub enum Event<E> {
    /// The write or registration completed.
    Completed,
    /// The packet read returned this payload.
    Packet(Vec<u8>),
    /// The chunk source yielded one more chunk.
    Chunk(Vec<u8>),
    /// The chunk source was closed by its producer: end of data, not an
    /// error.
    Closed,
    /// The connection operation failed with this error.
    Failed(E),
}

/// What the driver must do next. Every variant but the last two suspends the
/// exchange on one connection or source operation whose outcome comes back
/// as an [`Event`].
#[derive(Debug)]
pub enum Action<E> {
    /// Send a framed command packet with this code and payload.
    WriteCommand { code: u8, payload: Vec<u8> },
    /// Read the next framed packet.
    ReadPacket,
    /// Receive the next chunk from the source, or learn that it closed.
    RecvChunk,
    /// Write these bytes directly to the output stream, outside normal
    /// framing. A zero-length write signals end-of-data.
    WriteRaw { bytes: Vec<u8> },
    /// Record this marker as the connection's pending result.
    Register { result: ResultSummary },
    /// The exchange is complete.
    Succeed,
    /// The exchange failed; the connection must be treated as unusable.
    Fail { error: RoutineError<E> },
}

/// Mathematical image of an [`Event`]: packet and chunk payloads as byte
/// sequences.
pub enum EventView<E> {
    Completed,
    Packet(Seq<u8>),
    Chunk(Seq<u8>),
    Closed,
    Failed(E),
}

/// Mathematical image of an [`Action`].
pub enum ActionView<E> {
    WriteCommand(u8, Seq<u8>),
    ReadPacket,
    RecvChunk,
    WriteRaw(Seq<u8>),
    Register(ResultSummary),
    Succeed,
    Fail(RoutineError<E>),
}

impl<E> View for Event<E> {
    type V = EventView<E>;

    open spec fn view(&self) -> EventView<E> {
        match *self {
            Event::Completed => EventView::Completed,
            Event::Packet(p) => EventView::Packet(p@),
            Event::Chunk(c) => EventView::Chunk(c@),
            Event::Closed => EventView::Closed,
            Event::Failed(e) => EventView::Failed(e),
        }
    }
}

impl<E> View for Action<E> {
    type V = ActionView<E>;

    open spec fn view(&self) -> ActionView<E> {
        match *self {
            Action::WriteCommand { code, payload } => ActionView::WriteCommand(code, payload@),
            Action::ReadPacket => ActionView::ReadPacket,
            Action::RecvChunk => ActionView::RecvChunk,
            Action::WriteRaw { bytes } => ActionView::WriteRaw(bytes@),
            Action::Register { result } => ActionView::Register(result),
            Action::Succeed => ActionView::Succeed,
            Action::Fail { error } => ActionView::Fail(error),
        }
    }
}

/// Where the exchange stands: each non-final state names the action whose
/// outcome the machine is waiting for.
#[derive(Clone, Copy, Debug, PartialEq, Eq, Structural)]
pub enum State {
    /// The command packet write is in flight.
    AwaitCommandSent,
    /// The read of the server's decision packet is in flight.
    AwaitDecision,
    /// A receive on the chunk source is in flight.
    AwaitChunk,
    /// The raw write of one chunk is in flight.
    AwaitChunkWritten,
    /// The terminating zero-length raw write is in flight.
    AwaitTerminatorWritten,
    /// The read of the acknowledgement packet is in flight.
    AwaitAck,
    /// The registration of the pending result is in flight.
    AwaitRegistered,
    /// The exchange ended, in success or failure.
    Finished,
}

/// The packet requests externally supplied file content: it is non-empty and
/// its first byte is the sentinel.
pub open spec fn file_request(packet: Seq<u8>) -> bool {
    packet.len() > 0 && packet[0] == FILE_REQUEST_SENTINEL
}

/// Which events may answer the action pending in state `s`. Writes and the
/// registration report completion or a connection error; reads report a
/// packet or a connection error; the source yields a chunk or closes and
/// cannot fail. A finished machine takes no further event.
pub open spec fn admits<E>(s: State, ev: EventView<E>) -> bool {
    match s {
        State::AwaitCommandSent => ev is Completed || ev is Failed,
        State::AwaitDecision => ev is Packet || ev is Failed,
        State::AwaitChunk => ev is Chunk || ev is Closed,
        State::AwaitChunkWritten => ev is Completed || ev is Failed,
        State::AwaitTerminatorWritten => ev is Completed || ev is Failed,
        State::AwaitAck => ev is Packet || ev is Failed,
        State::AwaitRegistered => ev is Completed || ev is Failed,
        State::Finished => false,
    }
}

/// The transition relation: from the current state and the incoming event to
/// the next state and the action the driver must perform.
pub open spec fn next<E>(s: State, ev: EventView<E>) -> (State, ActionView<E>)
    recommends
        admits(s, ev),
{
    match (s, ev) {
        (State::AwaitCommandSent, EventView::Completed) => (
            State::AwaitDecision,
            ActionView::ReadPacket,
        ),
        (State::AwaitDecision, EventView::Packet(p)) => if file_request(p) {
            (State::AwaitChunk, ActionView::RecvChunk)
        } else {
            (State::Finished, ActionView::Fail(RoutineError::UnsupportedResponse))
        },
        (State::AwaitChunk, EventView::Chunk(c)) => (
            State::AwaitChunkWritten,
            ActionView::WriteRaw(c),
        ),
        (State::AwaitChunk, EventView::Closed) => (
            State::AwaitTerminatorWritten,
            ActionView::WriteRaw(Seq::empty()),
        ),
        (State::AwaitChunkWritten, EventView::Completed) => (
            State::AwaitChunk,
            ActionView::RecvChunk,
        ),
        (State::AwaitTerminatorWritten, EventView::Completed) => (
            State::AwaitAck,
            ActionView::ReadPacket,
        ),
        (State::AwaitAck, EventView::Packet(_)) => (
            State::AwaitRegistered,
            ActionView::Register(ResultSummary { column_count: 0, row_count: 0 }),
        ),
        (State::AwaitRegistered, EventView::Completed) => (State::Finished, ActionView::Succeed),
        (_, EventView::Failed(e)) => (
            State::Finished,
            ActionView::Fail(RoutineError::Connection(e)),
        ),
        _ => (State::Finished, ActionView::Fail(RoutineError::UnsupportedResponse)),
    }
}

/// The packet requests externally supplied file content.
pub fn is_file_request(packet: &Vec<u8>) -> (r: bool)
    ensures
        r == file_request(packet@),
{
    packet.len() > 0 && packet[0] == FILE_REQUEST_SENTINEL
}

/// One local-data-supply exchange. Holds only where the exchange stands; the
/// command payload travels out in the first action and each chunk travels
/// through untouched, so the machine copies no data.
pub struct LoadDataMachine {
    state: State,
}

impl View for LoadDataMachine {
    type V = State;

    closed spec fn view(&self) -> State {
        self.state
    }
}

impl LoadDataMachine {
    /// Begin an exchange for a bulk-load command with this payload. The
    /// first action sends the command packet; everything after comes from
    /// [`LoadDataMachine::step`].
    pub fn start<E>(payload: Vec<u8>) -> (r: (LoadDataMachine, Action<E>))
        ensures
            r.0@ == State::AwaitCommandSent,
            r.1@ == ActionView::<E>::WriteCommand(COM_QUERY, payload@),
    {
        (
            LoadDataMachine { state: State::AwaitCommandSent },
            Action::WriteCommand { code: COM_QUERY, payload },
        )
    }

    /// The machine reached its final state and emits no further action.
    pub fn is_finished(&self) -> (r: bool)
        ensures
            r == (self@ is Finished),
    {
        match self.state {
            State::Finished => true,
            _ => false,
        }
    }

    /// The event is an admissible outcome of the pending action: the guard a
    /// driver tests before calling [`LoadDataMachine::step`].
    pub fn admits_event<E>(&self, ev: &Event<E>) -> (r: bool)
        ensures
            r == admits::<E>(self@, ev@),
    {
        match self.state {
            State::AwaitCommandSent
            | State::AwaitChunkWritten
            | State::AwaitTerminatorWritten
            | State::AwaitRegistered => match ev {
                Event::Completed => true,
                Event::Failed(_) => true,
                _ => false,
            },
            State::AwaitDecision | State::AwaitAck => match ev {
                Event::Packet(_) => true,
                Event::Failed(_) => true,
                _ => false,
            },
            State::AwaitChunk => match ev {
                Event::Chunk(_) => true,
                Event::Closed => true,
                _ => false,
            },
            State::Finished => false,
        }
    }

    /// Feed back the outcome of the pending action; the machine moves as
    /// [`next`] says and returns the action to perform next.
    pub fn step<E>(&mut self, ev: Event<E>) -> (a: Action<E>)
        requires
            admits::<E>(old(self)@, ev@),
        ensures
            final(self)@ == next::<E>(old(self)@, ev@).0,
            a@ == next::<E>(old(self)@, ev@).1,
    {
        match (self.state, ev) {
            (State::AwaitCommandSent, Event::Completed) => {
                self.state = State::AwaitDecision;
                Action::ReadPacket
            },
            (State::AwaitDecision, Event::Packet(p)) => {
                if is_file_request(&p) {
                    self.state = State::AwaitChunk;
                    Action::RecvChunk
                } else {
                    self.state = State::Finished;
                    Action::Fail { error: RoutineError::UnsupportedResponse }
                }
            },
            (State::AwaitChunk, Event::Chunk(c)) => {
                self.state = State::AwaitChunkWritten;
                Action::WriteRaw { bytes: c }
            },
            (State::AwaitChunk, Event::Closed) => {
                self.state = State::AwaitTerminatorWritten;
                Action::WriteRaw { bytes: Vec::new() }
            },
            (State::AwaitChunkWritten, Event::Completed) => {
                self.state = State::AwaitChunk;
                Action::RecvChunk
            },
            (State::AwaitTerminatorWritten, Event::Completed) => {
                self.state = State::AwaitAck;
                Action::ReadPacket
            },
            (State::AwaitAck, Event::Packet(_)) => {
                self.state = State::AwaitRegistered;
                Action::Register { result: ResultSummary::empty() }
            },
            (State::AwaitRegistered, Event::Completed) => {
                self.state = State::Finished;
                Action::Succeed
            },
            (_, Event::Failed(e)) => {
                self.state = State::Finished;
                Action::Fail { error: RoutineError::Connection(e) }
            },
            _ => vstd::pervasive::unreached(),
        }
    }
}

} // verus!
