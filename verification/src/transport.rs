//! The way a record takes to journald.
//!
//! The record is first sent as the body of one datagram. Only where the system refuses
//! that datagram as too long is the record written to a memory file, which is sealed
//! and then handed to journald as a file descriptor in ancillary data.
//!
//! Nothing here touches a socket or a file. [`Transport::step`] says what to do next;
//! the caller does it and reports how it went.

use vstd::prelude::*;

verus! {

/// The error code with which the system refuses a message that is too long for its
/// socket (`EMSGSIZE`).
pub const EMSGSIZE: i32 = 90;

/// Whether `code`, the error code of a failed send if the system gave one, says that
/// the message was too long for the socket.
pub open spec fn oversized(code: Option<i32>) -> bool {
    code == Some(EMSGSIZE)
}

/// Tells whether a send that failed with `code` failed because the message was too
/// long for the socket.
pub fn is_oversized_payload_error(code: Option<i32>) -> (b: bool)
    ensures
        b == oversized(code),
{
    match code {
        Some(c) => c == EMSGSIZE,
        None => false,
    }
}

/// The operations that a send is made of.
#[derive(Clone, Copy, Debug, PartialEq, Eq, Structural)]
pub enum Operation {
    /// Open an unbound datagram socket.
    OpenSocket,
    /// Send the whole record as the body of one datagram.
    SendDatagram,
    /// Create an anonymous memory file that can be sealed.
    CreateMemory,
    /// Write what is left of the record to the memory file.
    Write,
    /// Seal the memory file against shrinking, growing, writing and further sealing.
    Seal,
    /// Send the descriptor of the memory file as ancillary data of an empty datagram.
    SendDescriptor,
}

impl Operation {
    /// Whether the operation belongs to the slow path, which goes through a memory
    /// file.
    pub open spec fn slow(self) -> bool {
        self is CreateMemory || self is Write || self is Seal || self is SendDescriptor
    }
}

/// How a send ended.
#[derive(Clone, Copy, Debug, PartialEq, Eq, Structural)]
pub enum Outcome {
    /// The record was handed to the system, whole.
    Sent,
    /// Journald is not to be reached from this process; nothing was tried.
    NotAvailable,
    /// The operation failed; `code` is the error code of the system, if it gave one.
    Failed { operation: Operation, code: Option<i32> },
    /// The memory file took no more bytes before the record was written whole.
    WriteStalled,
    /// The caller reported something that the send was not waiting for.
    Unexpected,
}

/// What the caller reports to a send.
#[derive(Clone, Copy, Debug, PartialEq, Eq, Structural)]
pub enum Event {
    /// The send is to begin; `available` says whether journald can be reached.
    Start { available: bool },
    /// The operation that was asked for went well.
    Completed,
    /// The write that was asked for wrote the first `count` bytes of what was left.
    Wrote { count: usize },
    /// The operation that was asked for failed; `code` is the error code of the
    /// system, if it gave one.
    Failed { code: Option<i32> },
}

/// What the caller is to do next for a send.
#[derive(Clone, Copy, Debug, PartialEq, Eq, Structural)]
pub enum Action {
    /// Open an unbound datagram socket.
    OpenSocket,
    /// Send the whole record as the body of one datagram to journald's socket.
    SendDatagram,
    /// Create an anonymous memory file that can be sealed.
    CreateMemory,
    /// Write the record from byte `from` on to the memory file.
    Write { from: usize },
    /// Seal the memory file against shrinking, growing, writing and further sealing.
    Seal,
    /// Send the descriptor of the memory file to journald's socket, as ancillary data
    /// of a datagram with an empty body.
    SendDescriptor,
    /// Return `outcome`, after closing the descriptor of the memory file if `close`
    /// says so: the send ends while the caller holds that descriptor.
    Finish { outcome: Outcome, close: bool },
}

impl Action {
    /// Whether the action is an operation of the slow path.
    pub open spec fn slow(self) -> bool {
        self is CreateMemory || self is Write || self is Seal || self is SendDescriptor
    }
}

/// Where a send stands.
#[derive(Clone, Copy, Debug, PartialEq, Eq, Structural)]
pub enum State {
    /// Nothing was done yet.
    Idle,
    /// The socket is being opened.
    OpeningSocket,
    /// The record is being sent as a datagram.
    SendingFast,
    /// The memory file is being created.
    CreatingMemory,
    /// The record is being written to the memory file; its first `written` bytes are
    /// there.
    Writing { written: usize },
    /// The memory file is being sealed.
    Sealing,
    /// The descriptor of the memory file is being sent.
    SendingDescriptor,
    /// The send has ended.
    Ended { outcome: Outcome },
}

impl State {
    /// Whether the memory file exists and its descriptor is still the caller's.
    pub open spec fn owns_descriptor(self) -> bool {
        self is Writing || self is Sealing || self is SendingDescriptor
    }

    /// Whether the state belongs to the slow path.
    pub open spec fn slow(self) -> bool {
        self is CreatingMemory || self.owns_descriptor()
    }
}

/// Where a send of a record of `len` bytes goes from `state` on `event`, and what is
/// to be done next.
pub open spec fn transition(len: usize, state: State, event: Event) -> (State, Action) {
    match (state, event) {
        (State::Idle, Event::Start { available }) => if available {
            (State::OpeningSocket, Action::OpenSocket)
        } else {
            ended(state, Outcome::NotAvailable)
        },
        (State::OpeningSocket, Event::Completed) => (State::SendingFast, Action::SendDatagram),
        (State::OpeningSocket, Event::Failed { code }) => failed(
            state,
            Operation::OpenSocket,
            code,
        ),
        (State::SendingFast, Event::Completed) => ended(state, Outcome::Sent),
        (State::SendingFast, Event::Failed { code }) => if oversized(code) {
            (State::CreatingMemory, Action::CreateMemory)
        } else {
            failed(state, Operation::SendDatagram, code)
        },
        (State::CreatingMemory, Event::Completed) => after_write(len, 0),
        (State::CreatingMemory, Event::Failed { code }) => failed(
            state,
            Operation::CreateMemory,
            code,
        ),
        (State::Writing { written }, Event::Wrote { count }) => if count == 0 || count > len
            - written {
            ended(state, Outcome::WriteStalled)
        } else {
            after_write(len, (written + count) as usize)
        },
        (State::Writing { written }, Event::Failed { code }) => failed(
            state,
            Operation::Write,
            code,
        ),
        (State::Sealing, Event::Completed) => (State::SendingDescriptor, Action::SendDescriptor),
        (State::Sealing, Event::Failed { code }) => failed(state, Operation::Seal, code),
        (State::SendingDescriptor, Event::Completed) => ended(state, Outcome::Sent),
        (State::SendingDescriptor, Event::Failed { code }) => failed(
            state,
            Operation::SendDescriptor,
            code,
        ),
        (State::Ended { outcome }, _) => ended(state, outcome),
        _ => ended(state, Outcome::Unexpected),
    }
}

/// The end, with `outcome`, of a send that stood at `state`: the descriptor of the
/// memory file is to be closed if the caller holds it.
pub open spec fn ended(state: State, outcome: Outcome) -> (State, Action) {
    (State::Ended { outcome }, Action::Finish { outcome, close: state.owns_descriptor() })
}

/// The end of a send that stood at `state`, at an operation that failed.
pub open spec fn failed(state: State, operation: Operation, code: Option<i32>) -> (
    State,
    Action,
) {
    ended(state, Outcome::Failed { operation, code })
}

/// What follows when the first `written` bytes of a record of `len` bytes are in the
/// memory file: the rest is written, or, where nothing is left, the file is sealed.
pub open spec fn after_write(len: usize, written: usize) -> (State, Action) {
    if written < len {
        (State::Writing { written }, Action::Write { from: written })
    } else {
        (State::Sealing, Action::Seal)
    }
}

/// Where a send of a record of `len` bytes stands when it was at `state` and the caller
/// has reported `events`, one after the other.
pub open spec fn run(len: usize, state: State, events: Seq<Event>) -> State
    decreases events.len(),
{
    if events.len() == 0 {
        state
    } else {
        run(len, transition(len, state, events[0]).0, events.drop_first())
    }
}

/// What the caller was asked to do after each of `events`.
pub open spec fn responses(len: usize, state: State, events: Seq<Event>) -> Seq<Action>
    decreases events.len(),
{
    if events.len() == 0 {
        Seq::empty()
    } else {
        let (next, action) = transition(len, state, events[0]);
        seq![action] + responses(len, next, events.drop_first())
    }
}

/// Whether, as the caller reports `events` from `state` on, the datagram is at some
/// point refused as too long.
pub open spec fn datagram_refused_as_too_long(len: usize, state: State, events: Seq<Event>) -> bool
    decreases events.len(),
{
    if events.len() == 0 {
        false
    } else {
        ||| state is SendingFast && (events[0] matches Event::Failed { code } && oversized(code))
        ||| datagram_refused_as_too_long(
            len,
            transition(len, state, events[0]).0,
            events.drop_first(),
        )
    }
}

/// The reports of writes that wrote `counts` bytes, one after the other.
pub open spec fn writes(counts: Seq<usize>) -> Seq<Event> {
    Seq::new(counts.len(), |i: int| Event::Wrote { count: counts[i] })
}

/// The sum of `counts`.
pub open spec fn total(counts: Seq<usize>) -> nat
    decreases counts.len(),
{
    if counts.len() == 0 {
        0
    } else {
        counts[0] as nat + total(counts.drop_first())
    }
}

/// The slow path is taken only where the datagram was refused as too long: whatever
/// the caller reports to a send that is not on the slow path, as long as no datagram is
/// refused as too long, no operation of the slow path is asked for, and the send does
/// not get onto the slow path.
pub proof fn lemma_slow_path_only_after_refusal(len: usize, state: State, events: Seq<Event>)
    requires
        !state.slow(),
        !datagram_refused_as_too_long(len, state, events),
    ensures
        !run(len, state, events).slow(),
        forall|i: int|
            0 <= i < events.len() ==> !(#[trigger] responses(len, state, events)[i]).slow(),
        responses(len, state, events).len() == events.len(),
    decreases events.len(),
{
    if events.len() > 0 {
        let (next, action) = transition(len, state, events[0]);
        lemma_slow_path_only_after_refusal(len, next, events.drop_first());
    }
}

/// A record that the system takes as a datagram is sent on the fast path alone: the
/// socket is opened, the datagram is sent, and the send ends well.
pub proof fn lemma_fast_path(len: usize)
    ensures
        run(len, State::Idle, fast_reports()) == (State::Ended { outcome: Outcome::Sent }),
        responses(len, State::Idle, fast_reports()) == seq![
            Action::OpenSocket,
            Action::SendDatagram,
            Action::Finish { outcome: Outcome::Sent, close: false },
        ],
{
    reveal_with_fuel(run, 4);
    reveal_with_fuel(responses, 4);
    assert(responses(len, State::Idle, fast_reports()) =~= seq![
        Action::OpenSocket,
        Action::SendDatagram,
        Action::Finish { outcome: Outcome::Sent, close: false },
    ]);
}

/// What the caller reports when journald can be reached and the system takes the
/// datagram.
pub open spec fn fast_reports() -> Seq<Event> {
    seq![Event::Start { available: true }, Event::Completed, Event::Completed]
}

/// Where journald cannot be reached, the send ends at once and nothing is tried.
pub proof fn lemma_not_available(len: usize)
    ensures
        transition(len, State::Idle, Event::Start { available: false }) == (
            State::Ended { outcome: Outcome::NotAvailable },
            Action::Finish { outcome: Outcome::NotAvailable, close: false },
        ),
{
}

/// The descriptor of the memory file is closed once, when the send ends: a step asks
/// to close it exactly where the send ends while the caller holds it, and the caller
/// holds it until then.
pub proof fn lemma_descriptor_is_closed_once(len: usize, state: State, event: Event)
    ensures
        ({
            let (next, action) = transition(len, state, event);
            &&& action matches Action::Finish { close, .. } ==> close == state.owns_descriptor()
            &&& action is Finish <==> next is Ended
            &&& state.owns_descriptor() ==> next.owns_descriptor() || next is Ended
            &&& state is Ended ==> next == state
        }),
{
}

/// Writes that each write a part of what is left, and together all that is left, lead
/// to the sealing of the memory file.
pub proof fn lemma_writes_lead_to_seal(len: usize, written: usize, counts: Seq<usize>)
    requires
        written < len,
        forall|i: int| 0 <= i < counts.len() ==> #[trigger] counts[i] > 0,
        written + total(counts) == len,
    ensures
        run(len, State::Writing { written }, writes(counts)) == State::Sealing,
    decreases counts.len(),
{
    if counts.len() > 0 {
        let first = counts[0];
        let rest = counts.drop_first();
        assert(writes(counts).drop_first() =~= writes(rest));
        let reached = (written + first) as usize;
        assert(run(len, State::Writing { written }, writes(counts)) == run(
            len,
            after_write(len, reached).0,
            writes(rest),
        ));
        if reached < len {
            lemma_writes_lead_to_seal(len, reached, rest);
        }
    }
}

/// The fallback: where the datagram of a record that is not empty is refused as too
/// long, and creating the memory file, writing the record to it in whatever parts,
/// sealing it and sending its descriptor all go well, the record is sent. The file is
/// sealed before its descriptor is sent.
pub proof fn lemma_fallback_sends(len: usize, counts: Seq<usize>)
    requires
        forall|i: int| 0 <= i < counts.len() ==> #[trigger] counts[i] > 0,
        total(counts) == len,
        len > 0,
    ensures
        transition(len, State::SendingFast, Event::Failed { code: Some(EMSGSIZE) }) == (
            State::CreatingMemory,
            Action::CreateMemory,
        ),
        transition(len, State::CreatingMemory, Event::Completed) == (
            State::Writing { written: 0 },
            Action::Write { from: 0 },
        ),
        run(len, State::Writing { written: 0 }, writes(counts)) == State::Sealing,
        transition(len, State::Sealing, Event::Completed) == (
            State::SendingDescriptor,
            Action::SendDescriptor,
        ),
        transition(len, State::SendingDescriptor, Event::Completed) == (
            State::Ended { outcome: Outcome::Sent },
            Action::Finish { outcome: Outcome::Sent, close: true },
        ),
{
    lemma_writes_lead_to_seal(len, 0, counts);
}

/// The send of one record.
pub struct Transport {
    len: usize,
    state: State,
}

impl Transport {
    /// The length of the record in bytes.
    pub closed spec fn len(&self) -> usize {
        self.len
    }

    /// Where the send stands.
    pub closed spec fn state(&self) -> State {
        self.state
    }

    /// While the record is being written, a part of it is still to be written.
    #[verifier::type_invariant]
    spec fn wf(&self) -> bool {
        self.state matches State::Writing { written } ==> written < self.len
    }

    /// Makes the send of a record of `len` bytes, with nothing done yet.
    pub fn new(len: usize) -> (t: Self)
        ensures
            t.len() == len,
            t.state() == State::Idle,
    {
        Transport { len, state: State::Idle }
    }

    /// Returns where the send stands.
    pub fn current(&self) -> (s: State)
        ensures
            s == self.state(),
    {
        self.state
    }

    /// Returns how the send ended, if it has.
    pub fn outcome(&self) -> (o: Option<Outcome>)
        ensures
            o == (match self.state() {
                State::Ended { outcome } => Some(outcome),
                _ => None,
            }),
    {
        match self.state {
            State::Ended { outcome } => Some(outcome),
            _ => None,
        }
    }

    /// Tells whether the caller holds a descriptor of the memory file that is to be
    /// closed when the send ends.
    pub fn owns_descriptor(&self) -> (b: bool)
        ensures
            b == self.state().owns_descriptor(),
    {
        match self.state {
            State::Writing { .. } | State::Sealing | State::SendingDescriptor => true,
            _ => false,
        }
    }

    /// Takes what the caller reports and returns what is to be done next.
    pub fn step(&mut self, event: Event) -> (action: Action)
        ensures
            final(self).len() == old(self).len(),
            (final(self).state(), action) == transition(
                old(self).len(),
                old(self).state(),
                event,
            ),
    {
        proof {
            use_type_invariant(&*self);
        }
        let (next, action) = match (self.state, event) {
            (State::Idle, Event::Start { available }) => {
                if available {
                    (State::OpeningSocket, Action::OpenSocket)
                } else {
                    self.end(Outcome::NotAvailable)
                }
            },
            (State::OpeningSocket, Event::Completed) => (State::SendingFast, Action::SendDatagram),
            (State::OpeningSocket, Event::Failed { code }) => self.fail(
                Operation::OpenSocket,
                code,
            ),
            (State::SendingFast, Event::Completed) => self.end(Outcome::Sent),
            (State::SendingFast, Event::Failed { code }) => {
                if is_oversized_payload_error(code) {
                    (State::CreatingMemory, Action::CreateMemory)
                } else {
                    self.fail(Operation::SendDatagram, code)
                }
            },
            (State::CreatingMemory, Event::Completed) => Self::write_or_seal(self.len, 0),
            (State::CreatingMemory, Event::Failed { code }) => self.fail(
                Operation::CreateMemory,
                code,
            ),
            (State::Writing { written }, Event::Wrote { count }) => {
                if count == 0 || count > self.len - written {
                    self.end(Outcome::WriteStalled)
                } else {
                    Self::write_or_seal(self.len, written + count)
                }
            },
            (State::Writing { written }, Event::Failed { code }) => self.fail(
                Operation::Write,
                code,
            ),
            (State::Sealing, Event::Completed) => (
                State::SendingDescriptor,
                Action::SendDescriptor,
            ),
            (State::Sealing, Event::Failed { code }) => self.fail(Operation::Seal, code),
            (State::SendingDescriptor, Event::Completed) => self.end(Outcome::Sent),
            (State::SendingDescriptor, Event::Failed { code }) => self.fail(
                Operation::SendDescriptor,
                code,
            ),
            (State::Ended { outcome }, _) => self.end(outcome),
            _ => self.end(Outcome::Unexpected),
        };
        self.state = next;
        action
    }

    fn end(&self, outcome: Outcome) -> (r: (State, Action))
        ensures
            r == ended(self.state(), outcome),
    {
        (State::Ended { outcome }, Action::Finish { outcome, close: self.owns_descriptor() })
    }

    fn fail(&self, operation: Operation, code: Option<i32>) -> (r: (State, Action))
        ensures
            r == failed(self.state(), operation, code),
    {
        self.end(Outcome::Failed { operation, code })
    }

    fn write_or_seal(len: usize, written: usize) -> (r: (State, Action))
        ensures
            r == after_write(len, written),
    {
        if written < len {
            (State::Writing { written }, Action::Write { from: written })
        } else {
            (State::Sealing, Action::Seal)
        }
    }
}

} // verus!
