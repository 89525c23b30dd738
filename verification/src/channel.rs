//! How waiting on a backend's channel is answered.
use std::time::Duration;

use vstd::prelude::*;

use crate::error::{PinrayError, Result};

verus! {

/// What waiting on a channel came to.
#[derive(Debug)]
pub enum Delivery<T> {
    /// Something arrived.
    Received(T),
    /// The caller's timeout ran out first.
    TimedOut,
    /// The sending side is gone, and nothing is left to receive.
    Disconnected,
}

/// The answer to the caller: what arrived, the timeout that ran out, or
/// `lost` as the description of a sender that is gone. A caller without a
/// timeout waits for as long as there is a sender.
pub fn delivered<T>(delivery: Delivery<T>, timeout: Option<Duration>, lost: &str) -> (reply: Result<
    T,
>)
    requires
        delivery is TimedOut ==> timeout is Some,
    ensures
        match delivery {
            Delivery::Received(item) => reply == Ok::<T, PinrayError>(item),
            Delivery::TimedOut => reply == Err::<T, PinrayError>(PinrayError::Timeout(timeout->0)),
            Delivery::Disconnected => crate::error::is_platform(reply, lost@),
        },
{
    match (delivery, timeout) {
        (Delivery::Received(item), _) => Ok(item),
        (Delivery::TimedOut, Some(limit)) => Err(PinrayError::Timeout(limit)),
        _ => Err(PinrayError::Platform(lost.to_owned())),
    }
}

/// A caller gets what arrived, untouched; the timeout that it gave, if that ran
/// out; and an error of the platform that tells of a sender that is gone.
pub proof fn deliveries_are_passed_on<T>(
    delivery: Delivery<T>,
    timeout: Option<Duration>,
    lost: &str,
    reply: Result<T>,
)
    requires
        call_ensures(delivered::<T>, (delivery, timeout, lost), reply),
    ensures
        delivery matches Delivery::Received(item) ==> reply == Ok::<T, PinrayError>(item),
        delivery is TimedOut ==> (timeout matches Some(limit) ==> reply == Err::<T, PinrayError>(
            PinrayError::Timeout(limit),
        )),
        delivery is Disconnected ==> (reply matches Err(PinrayError::Platform(message)) && message@
            == lost@),
{
}

} // verus!
