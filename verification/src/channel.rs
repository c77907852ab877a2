//! The receiving end of the channel on which step tokens arrive.

use vstd::prelude::*;
use std::sync::mpsc::Receiver;

verus! {

/// The receiving end of a channel of the standard library,
/// `std::sync::mpsc::Receiver`, taken as it is.
#[verifier::external_type_specification]
#[verifier::external_body]
#[verifier::reject_recursive_types(T)]
pub struct ExReceiver<T>(std::sync::mpsc::Receiver<T>);

/// `Receiver::try_recv`: takes the next token if one is waiting and returns at
/// once if none is, or if every sender is gone.  Nothing is promised of the
/// result: it depends on what the senders have done so far.
#[verifier::external_body]
pub(crate) fn try_receive(receiver: &Receiver<usize>) -> (token: Option<usize>) {
    receiver.try_recv().ok()
}

} // verus!
