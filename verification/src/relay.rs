//! Copying packets between the stack and another carrier, one direction at a time.
use core::time::Duration;
use vstd::prelude::*;

verus! {

/// What an error does to a copying direction.
pub enum OnError {
    /// The copying ends with the error.
    Stop,
    /// The error is passed over, after a rest where one is given.
    Continue(Option<Duration>),
}

/// What happened to a copying direction.
pub enum CopyEvent<P, E> {
    /// The copying begins.
    Started,
    /// The source gave a packet, or an error.
    Received(Result<P, E>),
    /// The source has nothing more to give.
    Ended,
    /// The destination took the packet, or not.
    Sent(Result<(), E>),
    /// The rest is over.
    Rested,
}

/// What to do next in a copying direction.
pub enum CopyAction<P, E> {
    /// Wait for the source.
    Receive,
    /// Hand the packet to the destination.
    Send(P),
    /// Rest.
    Rest(Duration),
    /// Stop copying, with this result. The other direction stops as well.
    Finish(Result<(), E>),
}

/// The error in an event, where there is one.
pub open spec fn error_in<P, E>(event: CopyEvent<P, E>) -> Option<E> {
    match event {
        CopyEvent::Received(Err(error)) => Some(error),
        CopyEvent::Sent(Err(error)) => Some(error),
        _ => None,
    }
}

/// What an event leads to.
pub open spec fn copy_step<P, E>(on_error: OnError, event: CopyEvent<P, E>) -> CopyAction<P, E> {
    match error_in(event) {
        Some(error) => match on_error {
            OnError::Stop => CopyAction::Finish(Err(error)),
            OnError::Continue(Some(rest)) => CopyAction::Rest(rest),
            OnError::Continue(None) => CopyAction::Receive,
        },
        None => match event {
            CopyEvent::Received(Ok(packet)) => CopyAction::Send(packet),
            CopyEvent::Ended => CopyAction::Finish(Ok(())),
            _ => CopyAction::Receive,
        },
    }
}

impl OnError {
    /// Decides what comes after an event.
    pub fn next<P, E>(&self, event: CopyEvent<P, E>) -> (action: CopyAction<P, E>)
        ensures
            action == copy_step(*self, event),
    {
        let error = match event {
            CopyEvent::Received(Ok(packet)) => return CopyAction::Send(packet),
            CopyEvent::Ended => return CopyAction::Finish(Ok(())),
            CopyEvent::Started | CopyEvent::Rested | CopyEvent::Sent(
                Ok(()),
            ) => return CopyAction::Receive,
            CopyEvent::Received(Err(error)) => error,
            CopyEvent::Sent(Err(error)) => error,
        };
        match self {
            OnError::Stop => CopyAction::Finish(Err(error)),
            OnError::Continue(Some(rest)) => CopyAction::Rest(*rest),
            OnError::Continue(None) => CopyAction::Receive,
        }
    }
}

/// What a direction sends after a run of events, in order.
pub open spec fn sent<P, E>(on_error: OnError, events: Seq<CopyEvent<P, E>>) -> Seq<P>
    decreases events.len(),
{
    if events.len() == 0 {
        Seq::empty()
    } else {
        let before = sent(on_error, events.drop_last());
        match copy_step(on_error, events.last()) {
            CopyAction::Send(packet) => before.push(packet),
            _ => before,
        }
    }
}

/// What the source gave in a run of events, in order.
pub open spec fn received<P, E>(events: Seq<CopyEvent<P, E>>) -> Seq<P>
    decreases events.len(),
{
    if events.len() == 0 {
        Seq::empty()
    } else {
        let before = received(events.drop_last());
        match events.last() {
            CopyEvent::Received(Ok(packet)) => before.push(packet),
            _ => before,
        }
    }
}

/// Copying hands on every packet once, unchanged and in order, whatever is done
/// about errors.
pub proof fn law_copying_keeps_packets_in_order<P, E>(
    on_error: OnError,
    events: Seq<CopyEvent<P, E>>,
)
    ensures
        sent(on_error, events) == received(events),
    decreases events.len(),
{
    if events.len() > 0 {
        law_copying_keeps_packets_in_order(on_error, events.drop_last());
    }
}

/// Where errors stop the copying, it ends exactly at the first error, with that
/// error, or at the end of the source, with success.
pub proof fn law_copying_stops_at_errors<P, E>(event: CopyEvent<P, E>)
    ensures
        copy_step(OnError::Stop, event) is Finish <==> event is Ended || error_in(event) is Some,
        error_in(event) matches Some(error) ==> copy_step(OnError::Stop, event)
            == CopyAction::<P, E>::Finish(Err(error)),
{
}

/// Where errors are passed over, the copying ends at the end of the source only,
/// with success, and every error is followed by the rest that was asked for.
pub proof fn law_copying_outlives_errors<P, E>(rest: Option<Duration>, event: CopyEvent<P, E>)
    ensures
        copy_step(OnError::Continue(rest), event) is Finish <==> event is Ended,
        event is Ended ==> copy_step(OnError::Continue(rest), event)
            == CopyAction::<P, E>::Finish(Ok(())),
        error_in(event) is Some ==> copy_step(OnError::Continue(rest), event) == match rest {
            Some(duration) => CopyAction::<P, E>::Rest(duration),
            None => CopyAction::<P, E>::Receive,
        },
{
}

} // verus!
