//! The order of operations of one read: select the chip, exchange four
//! bytes, deselect the chip, and hand back the frame or the error.
//!
//! The caller performs each action on its own bus and pin and reports the
//! outcome as the next event. The chip is deselected after every exchange,
//! whether or not it succeeded.
use vstd::prelude::*;
use crate::driver::Error;

verus! {

/// Where a read stands.
pub enum Phase<E> {
    /// Nothing done yet.
    Idle,
    /// Waiting for the chip-select pin to be driven low.
    Selecting,
    /// Waiting for the four-byte exchange.
    Transferring,
    /// Waiting for the chip-select pin to be driven high; holds what the
    /// exchange gave.
    Deselecting(Result<[u8; 4], E>),
    /// The read is over.
    Done,
}

/// The outcome of the last action, reported by the caller.
pub enum Event<E, P> {
    /// The caller asks for a read.
    Start,
    /// Outcome of driving the chip-select pin low.
    Selected(Result<(), P>),
    /// Outcome of the four-byte exchange.
    Exchanged(Result<[u8; 4], E>),
    /// Outcome of driving the chip-select pin high.
    Deselected(Result<(), P>),
}

/// What the caller is to do next.
pub enum Action<E, P> {
    /// Drive the chip-select pin low.
    Select,
    /// Exchange four bytes over the bus.
    Exchange,
    /// Drive the chip-select pin high.
    Deselect,
    /// The read is over with this frame or error.
    Finish(Result<[u8; 4], Error<E, P>>),
    /// The event does not belong to the phase; nothing to do.
    Ignore,
}

/// Result of a read once the chip is deselected: the exchange's error comes
/// first, then the pin's, else the frame.
pub open spec fn read_outcome<E, P>(exchanged: Result<[u8; 4], E>, deselected: Result<(), P>) -> Result<[u8; 4], Error<E, P>> {
    match exchanged {
        Err(e) => Err(Error::SPIError(e)),
        Ok(b) => match deselected {
            Err(p) => Err(Error::PinError(p)),
            Ok(_) => Ok(b),
        },
    }
}

/// Whether an event belongs to a phase.
pub open spec fn expected<E, P>(phase: Phase<E>, event: Event<E, P>) -> bool {
    ||| phase is Idle && event is Start
    ||| phase is Selecting && event is Selected
    ||| phase is Transferring && event is Exchanged
    ||| phase is Deselecting && event is Deselected
}

/// Pure function from the phase and an event to the next phase and action.
pub fn step<E, P>(phase: Phase<E>, event: Event<E, P>) -> (r: (Phase<E>, Action<E, P>))
    ensures
        phase is Idle && event is Start ==> r == (Phase::<E>::Selecting, Action::<E, P>::Select),
        phase is Selecting && event is Selected ==> r == (match event->Selected_0 {
            Ok(_) => (Phase::<E>::Transferring, Action::<E, P>::Exchange),
            Err(p) => (Phase::<E>::Done, Action::Finish(Err(Error::PinError(p)))),
        }),
        phase is Transferring && event is Exchanged ==> r == (
            Phase::Deselecting(event->Exchanged_0),
            Action::<E, P>::Deselect,
        ),
        phase is Deselecting && event is Deselected ==> r == (
            Phase::<E>::Done,
            Action::Finish(read_outcome(phase->Deselecting_0, event->Deselected_0)),
        ),
        !expected(phase, event) ==> r == (phase, Action::<E, P>::Ignore),
{
    match (phase, event) {
        (Phase::Idle, Event::Start) => (Phase::Selecting, Action::Select),
        (Phase::Selecting, Event::Selected(Ok(()))) => (Phase::Transferring, Action::Exchange),
        (Phase::Selecting, Event::Selected(Err(p))) => (Phase::Done, Action::Finish(Err(Error::PinError(p)))),
        (Phase::Transferring, Event::Exchanged(x)) => (Phase::Deselecting(x), Action::Deselect),
        (Phase::Deselecting(x), Event::Deselected(d)) => {
            let outcome = match x {
                Err(e) => Err(Error::SPIError(e)),
                Ok(b) => match d {
                    Err(p) => Err(Error::PinError(p)),
                    Ok(()) => Ok(b),
                },
            };
            (Phase::Done, Action::Finish(outcome))
        },
        (phase, _) => (phase, Action::Ignore),
    }
}

/// A failed exchange ends the read with that transport error, whether or not
/// the chip-select pin could be driven high afterwards.
pub proof fn lemma_transport_error_reported<E, P>(e: E, deselected: Result<(), P>)
    ensures
        read_outcome::<E, P>(Err(e), deselected) == Err::<[u8; 4], Error<E, P>>(Error::SPIError(e)),
{
}

} // verus!
