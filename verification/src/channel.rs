//! The one-way, non-blocking advisory channel toward the external
//! file-persistence collaborator.

use vstd::prelude::*;

verus! {

#[verifier::external_type_specification]
#[verifier::external_body]
#[verifier::reject_recursive_types(T)]
pub struct ExUnboundedSender<T>(tokio::sync::mpsc::UnboundedSender<T>);

/// Relies on tokio::sync::mpsc::UnboundedSender::send: the channel has no
/// capacity bound, so the call never blocks; it fails exactly when the
/// receiving half has been closed or dropped, and the error then hands the
/// unsent message back.
#[verifier::external_body]
fn send_line(tx: &tokio::sync::mpsc::UnboundedSender<String>, msg: &str) -> (r: Result<(), String>)
    ensures
        r matches Err(m) ==> m@ == msg@,
{
    match tx.send(msg.to_string()) {
        Ok(()) => Ok(()),
        Err(e) => Err(e.0),
    }
}

/// Forwards `msg` toward the file-persistence collaborator when
/// `save_output` is set; a no-op otherwise.
///
/// This call never blocks and never fails its caller. The returned value
/// only reports what happened — a send was attempted exactly when
/// `save_output` is set, and a dropped send (the receiving half already
/// gone in a shutdown race) hands the undelivered message back — so a
/// caller may log the loss at a diagnostic level, or ignore it.
pub fn try_send_message_to_file(
    msg: &str,
    tx_file: tokio::sync::mpsc::UnboundedSender<String>,
    save_output: bool,
) -> (r: Option<Result<(), String>>)
    ensures
        r is Some <==> save_output,
        r matches Some(Err(m)) ==> m@ == msg@,
{
    if save_output {
        Some(send_line(&tx_file, msg))
    } else {
        None
    }
}

} // verus!
