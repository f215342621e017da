//! Laws on copying packets between the stack and another carrier.
use crate::relay::{CopyAction, CopyEvent, OnError};
use vstd::prelude::*;

verus! {

/// Whether an event tells of an error of the source.
pub open spec fn source_failed<P, E>(event: CopyEvent<P, E>) -> bool {
    event matches CopyEvent::Received(given) && given is Err
}

/// Whether an event tells of an error of the destination.
pub open spec fn destination_failed<P, E>(event: CopyEvent<P, E>) -> bool {
    event matches CopyEvent::Sent(taken) && taken is Err
}

/// Whether an event tells that the destination took a packet.
pub open spec fn packet_taken<P, E>(event: CopyEvent<P, E>) -> bool {
    event matches CopyEvent::Sent(taken) && taken is Ok
}

/// A rest follows errors only: there is one exactly where an error came and a rest
/// was asked for, and it is the rest that was asked for.
pub proof fn law_rest_follows_errors_only<P, E>(
    on_error: OnError,
    event: CopyEvent<P, E>,
    action: CopyAction<P, E>,
)
    requires
        call_ensures(OnError::next::<P, E>, (&on_error, event), action),
    ensures
        action is Rest <==> (source_failed(event) || destination_failed(event)) && (
        on_error matches OnError::Continue(Some(_))),
        action matches CopyAction::Rest(rest) ==> on_error == OnError::Continue(Some(rest)),
{
}

/// A packet is handed on exactly where the source gave one, and it is that packet,
/// whatever is done about errors.
pub proof fn law_packet_is_handed_on<P, E>(
    on_error: OnError,
    event: CopyEvent<P, E>,
    action: CopyAction<P, E>,
    packet: P,
)
    requires
        call_ensures(OnError::next::<P, E>, (&on_error, event), action),
    ensures
        action == CopyAction::<P, E>::Send(packet) <==> event == CopyEvent::<P, E>::Received(
            Ok(packet),
        ),
{
}

/// The next packet is waited for at the start, after a rest and after a packet was
/// taken, for every way of handling errors; after an error only where errors are
/// passed over without a rest.
pub proof fn law_next_packet_is_waited_for<P, E>(
    on_error: OnError,
    event: CopyEvent<P, E>,
    action: CopyAction<P, E>,
)
    requires
        call_ensures(OnError::next::<P, E>, (&on_error, event), action),
    ensures
        action is Receive <==> {
            ||| event is Started
            ||| event is Rested
            ||| packet_taken(event)
            ||| (source_failed(event) || destination_failed(event)) && on_error
                == OnError::Continue(None)
        },
{
}

/// The copying ends with success exactly where the source has nothing more, and with
/// an error exactly where that came and errors stop it.
pub proof fn law_copying_ends<P, E>(
    on_error: OnError,
    event: CopyEvent<P, E>,
    action: CopyAction<P, E>,
    error: E,
)
    requires
        call_ensures(OnError::next::<P, E>, (&on_error, event), action),
    ensures
        action == CopyAction::<P, E>::Finish(Ok(())) <==> event is Ended,
        action == CopyAction::<P, E>::Finish(Err(error)) <==> on_error is Stop && (event
            == CopyEvent::<P, E>::Received(Err(error)) || event == CopyEvent::<P, E>::Sent(
            Err(error),
        )),
{
}

} // verus!
