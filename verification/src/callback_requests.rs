//! The callback channel: how a host function running on a synchronous call
//! path asks the embedder's asynchronous world for work, and waits for the
//! answer.
//!
//! A request carries an opaque operation descriptor together with a fresh
//! one-shot reply destination; the consumer of the channel performs the work
//! and delivers exactly one reply per request.

use vstd::prelude::*;

use tokio::sync::mpsc;
use tokio::sync::oneshot;

verus! {

/// The reply to one callback request: the computed payload, or an error
/// message from the collaborator that performed the work.
pub type CallbackReply = Result<CallbackResponse, String>;

/// The payload computed for one callback request.
#[derive(Debug, Clone)]
pub struct CallbackResponse {
    pub payload: Vec<u8>,
}

/// One request travelling from the synchronous world into the asynchronous
/// one: an opaque operation descriptor plus the one-shot destination the
/// reply must be sent to.
#[derive(Debug)]
pub struct CallbackRequest {
    pub request: Vec<u8>,
    pub response_channel: oneshot::Sender<CallbackReply>,
}

#[verifier::external_type_specification]
#[verifier::external_body]
#[verifier::reject_recursive_types(T)]
pub struct ExMpscSender<T>(mpsc::Sender<T>);

#[verifier::external_type_specification]
#[verifier::external_body]
#[verifier::reject_recursive_types(T)]
pub struct ExOneshotSender<T>(oneshot::Sender<T>);

#[verifier::external_type_specification]
#[verifier::external_body]
#[verifier::reject_recursive_types(T)]
pub struct ExOneshotReceiver<T>(oneshot::Receiver<T>);

#[verifier::external_type_specification]
#[verifier::external_body]
pub struct ExOneshotRecvError(oneshot::error::RecvError);

/// Relies on `tokio::sync::mpsc::Sender::clone`: the clone is another
/// sending handle of the same channel.
#[verifier::external_body]
pub(crate) fn clone_sender(sender: &mpsc::Sender<CallbackRequest>) -> mpsc::Sender<CallbackRequest> {
    sender.clone()
}

/// Relies on `tokio::sync::oneshot::channel`: a connected one-shot pair for
/// carrying a single reply.
#[verifier::external_body]
pub(crate) fn oneshot_reply_pair() -> (oneshot::Sender<CallbackReply>, oneshot::Receiver<CallbackReply>) {
    oneshot::channel()
}

/// Relies on `tokio::sync::mpsc::Sender::blocking_send`: blocks the calling
/// thread until the bounded channel has capacity, and hands the value back
/// when the receiver is gone. Tokio panics if this is called from inside an
/// asynchronous runtime; the bridge is for call paths without one.
#[verifier::external_body]
pub(crate) fn blocking_send_request(
    sender: &mpsc::Sender<CallbackRequest>,
    request: CallbackRequest,
) -> (r: Result<(), CallbackRequest>)
{
    match sender.blocking_send(request) {
        Ok(()) => Ok(()),
        Err(e) => Err(e.0),
    }
}

/// Relies on `tokio::sync::oneshot::Receiver::blocking_recv`: blocks the
/// calling thread until the reply arrives, and fails when the sender is
/// dropped without replying. Tokio panics if this is called from inside an
/// asynchronous runtime; the bridge is for call paths without one.
#[verifier::external_body]
pub(crate) fn blocking_recv_reply(receiver: oneshot::Receiver<CallbackReply>) -> (r: Option<CallbackReply>)
{
    match receiver.blocking_recv() {
        Ok(reply) => Some(reply),
        Err(_) => None,
    }
}

} // verus!
