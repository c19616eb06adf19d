//! The timing policy: in which order a query is written, given time to settle and read back.
//!
//! An exchange is a sequence of steps. Each step names what the caller has to do on the bus
//! and holds the state to which the caller reports how that went; the report gives the next
//! step. The exchange itself touches no bus and no clock.

use crate::command::{Frame, Query};
use crate::response::REPLY_LEN;
use vstd::prelude::*;

verus! {

/// The time that the trigger is given between the write of a query and the read of its reply,
/// in milliseconds.
pub const SETTLE_MILLIS: u64 = 300;

/// The state of an exchange whose frame is being written.
#[derive(Debug, Clone, Copy, PartialEq, Eq, Structural)]
pub struct Writing;

/// The state of an exchange whose frame is written and whose reply is not yet due.
#[derive(Debug, Clone, Copy, PartialEq, Eq, Structural)]
pub struct Settling;

/// The state of an exchange whose reply is being read.
#[derive(Debug, Clone, Copy, PartialEq, Eq, Structural)]
pub struct Reading;

/// One step of an exchange: what the caller does next, or how the exchange ended.
#[derive(Debug, PartialEq, Eq)]
pub enum Step<E> {
    /// Write the frame to the bus, then report the outcome to the state.
    Write(Frame, Writing),
    /// Wait for so many milliseconds, then tell the state.
    Settle(u64, Settling),
    /// Read eight bytes from the bus, then report them, or the failure, to the state.
    Read(Reading),
    /// The exchange is over: with the reply, or with the failure of the bus.
    Done(Result<[u8; REPLY_LEN], E>),
}

impl<E> Step<E> {
    /// The first step of the exchange for `query`: its frame is to be written.
    pub open spec fn spec_begin(query: Query) -> Step<E> {
        Step::Write(query.spec_frame(), Writing)
    }

    /// The first step of the exchange for `query`: its frame is to be written.
    #[verifier::when_used_as_spec(spec_begin)]
    pub fn begin(query: Query) -> (step: Step<E>)
        ensures
            step == Step::<E>::spec_begin(query),
    {
        Step::Write(query.frame(), Writing)
    }

    /// How many steps are still to come after this one, at most.
    pub open spec fn steps_ahead(self) -> nat {
        match self {
            Step::Write(_, _) => 3,
            Step::Settle(_, _) => 2,
            Step::Read(_) => 1,
            Step::Done(_) => 0,
        }
    }
}

impl Writing {
    /// The step after the write. A failed write ends the exchange with its failure; after a
    /// write that went well the trigger is given time to settle.
    pub open spec fn spec_written<E>(self, outcome: Result<(), E>) -> Step<E> {
        match outcome {
            Ok(_) => Step::Settle(SETTLE_MILLIS, Settling),
            Err(failure) => Step::Done(Err(failure)),
        }
    }

    /// The step after the write. A failed write ends the exchange with its failure; after a
    /// write that went well the trigger is given time to settle.
    #[verifier::when_used_as_spec(spec_written)]
    pub fn written<E>(self, outcome: Result<(), E>) -> (step: Step<E>)
        ensures
            step == self.spec_written(outcome),
    {
        match outcome {
            Ok(_) => Step::Settle(SETTLE_MILLIS, Settling),
            Err(failure) => Step::Done(Err(failure)),
        }
    }
}

impl Settling {
    /// The step after the wait: the reply is to be read.
    pub open spec fn spec_settled<E>(self) -> Step<E> {
        Step::Read(Reading)
    }

    /// The step after the wait: the reply is to be read.
    #[verifier::when_used_as_spec(spec_settled)]
    pub fn settled<E>(self) -> (step: Step<E>)
        ensures
            step == self.spec_settled::<E>(),
    {
        Step::Read(Reading)
    }
}

impl Reading {
    /// The step after the read: the exchange is over, with the eight bytes that were read or
    /// with the failure of the read, neither of them changed.
    pub open spec fn spec_received<E>(self, outcome: Result<[u8; REPLY_LEN], E>) -> Step<E> {
        Step::Done(outcome)
    }

    /// The step after the read: the exchange is over, with the eight bytes that were read or
    /// with the failure of the read, neither of them changed.
    #[verifier::when_used_as_spec(spec_received)]
    pub fn received<E>(self, outcome: Result<[u8; REPLY_LEN], E>) -> (step: Step<E>)
        ensures
            step == self.spec_received(outcome),
    {
        Step::Done(outcome)
    }
}

/// The steps of an exchange from `step` to its end, on a bus that answers the write with
/// `write` and the read with `read`.
pub open spec fn run<E>(
    step: Step<E>,
    write: Result<(), E>,
    read: Result<[u8; REPLY_LEN], E>,
) -> Seq<Step<E>>
    decreases step.steps_ahead(),
{
    match step {
        Step::Write(_, writing) => seq![step] + run(writing.written(write), write, read),
        Step::Settle(_, settling) => seq![step] + run(settling.settled(), write, read),
        Step::Read(reading) => seq![step] + run(reading.received(read), write, read),
        Step::Done(_) => seq![step],
    }
}

/// Every query runs in one order: its frame is written, then the trigger is given 300
/// milliseconds, then the reply is read, and what the read gave, be it the eight bytes or a
/// failure, is the result.
pub proof fn write_then_settle_then_read<E>(query: Query, read: Result<[u8; REPLY_LEN], E>)
    ensures
        run(Step::<E>::begin(query), Ok(()), read) == seq![
            Step::Write(query.frame(), Writing),
            Step::Settle(300, Settling),
            Step::Read(Reading),
            Step::Done(read),
        ],
{
    reveal_with_fuel(run, 4);
}

/// When the write fails, the exchange ends with that failure at once: no time is waited and
/// nothing is read.
pub proof fn failed_write_ends_exchange<E>(
    query: Query,
    failure: E,
    read: Result<[u8; REPLY_LEN], E>,
)
    ensures
        run(Step::<E>::begin(query), Err(failure), read) == seq![
            Step::Write(query.frame(), Writing),
            Step::Done(Err(failure)),
        ],
{
    reveal_with_fuel(run, 4);
}

} // verus!
