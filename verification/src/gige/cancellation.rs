//! The channel by which a streaming loop is asked to stop.

use futures_channel::oneshot;
use vstd::prelude::*;

verus! {

/// The sending half of a one-shot channel of `futures_channel`.
#[verifier::external_type_specification]
#[verifier::external_body]
#[verifier::reject_recursive_types(T)]
pub struct ExSender<T>(oneshot::Sender<T>);

/// The receiving half of a one-shot channel of `futures_channel`.
#[verifier::external_type_specification]
#[verifier::external_body]
#[verifier::reject_recursive_types(T)]
pub struct ExReceiver<T>(oneshot::Receiver<T>);

/// What the receiving half of a one-shot channel gives when the sending half is gone.
#[verifier::external_type_specification]
#[verifier::external_body]
pub struct ExCanceled(oneshot::Canceled);

/// `futures_channel::oneshot::channel` makes the two halves of a fresh channel. Both are opaque,
/// so nothing is stated of them.
pub assume_specification<T>[ oneshot::channel::<T> ]() -> (halves: (
    oneshot::Sender<T>,
    oneshot::Receiver<T>,
));

/// `futures_channel::oneshot::Sender::send` hands a value to the receiving half. Whether that
/// still exists depends on another thread; if it does not, the value comes back.
pub assume_specification<T>[ oneshot::Sender::<T>::send ](sender: oneshot::Sender<T>, t: T) -> (r:
    Result<(), T>)
    ensures
        r matches Err(back) ==> back == t,
;

/// `futures_channel::oneshot::Receiver::try_recv` looks what the sending half has done so far in
/// another thread, so nothing is stated of its result. It leaves the receiving half as it is.
pub assume_specification<T>[ oneshot::Receiver::<T>::try_recv ](
    receiver: &mut oneshot::Receiver<T>,
) -> (r: Result<Option<T>, oneshot::Canceled>)
    ensures
        *final(receiver) == *old(receiver),
;

/// Whether a loop that found `polled` in its channel has been asked to stop, which a sending
/// half that is gone also means.
pub fn asks_to_stop(polled: &Result<Option<()>, oneshot::Canceled>) -> (r: bool)
    ensures
        r == !(*polled matches Ok(None)),
{
    match polled {
        Ok(None) => false,
        _ => true,
    }
}

} // verus!
