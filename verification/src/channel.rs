use vstd::prelude::*;

verus! {

/// The sending end of a standard channel.
#[verifier::external_type_specification]
#[verifier::external_body]
#[verifier::reject_recursive_types(T)]
pub struct ExMpscSender<T>(std::sync::mpsc::Sender<T>);

/// Calls `std::sync::mpsc::Sender::send` and reports whether it succeeded.
/// Success depends on whether the receiving end is still alive, so nothing
/// is claimed of the result.
#[verifier::external_body]
pub(crate) fn channel_send<T>(sender: &std::sync::mpsc::Sender<T>, value: T) -> bool {
    sender.send(value).is_ok()
}

} // verus!
