//! The per-instance evaluation context consulted by host functions, and the
//! synchronous side of the callback bridge.

use vstd::prelude::*;

use tokio::sync::mpsc;

use crate::callback_requests::blocking_recv_reply;
use crate::callback_requests::blocking_send_request;
use crate::callback_requests::oneshot_reply_pair;
use crate::callback_requests::CallbackReply;
use crate::callback_requests::CallbackRequest;
use crate::errors::CallbackError;
use crate::policy_metadata::ContextAwareResource;
use crate::policy_metadata::ContextAwareResourceSet;

verus! {

/// Everything a host function needs to know about the policy instance that
/// invoked it: the policy's identifier, the channel into the asynchronous
/// world (if one was configured), and the external resources the policy may
/// consult.
///
/// One context is shared by all host-function invocations of one running
/// instance; it lives from instantiation until the instance is removed from
/// the registry.
#[derive(Debug)]
pub struct EvaluationContext {
    pub policy_id: String,
    pub callback_channel: Option<mpsc::Sender<CallbackRequest>>,
    pub ctx_aware_resources_allow_list: ContextAwareResourceSet,
}

impl EvaluationContext {
    /// Whether the policy behind this context may consult `resource`.
    pub fn is_resource_allowed(&self, resource: &ContextAwareResource) -> (r: bool)
        ensures
            r == self.ctx_aware_resources_allow_list@.contains(resource@),
    {
        self.ctx_aware_resources_allow_list.contains(resource)
    }

    /// Sends `request` over the callback channel and blocks until the
    /// asynchronous collaborator replies, or until the channel reports
    /// closure.
    ///
    /// With no channel configured the capability is unavailable and the
    /// call fails immediately; the caller surfaces that to the guest as a
    /// policy-evaluation error, never as a crash. A closed channel — the
    /// consumer is gone before the request is delivered, or it dropped the
    /// reply destination without answering — is reported, never waited out.
    pub fn send_request(&self, request: Vec<u8>) -> (r: Result<CallbackReply, CallbackError>)
        ensures
            self.callback_channel is None ==> r == Err::<CallbackReply, CallbackError>(
                CallbackError::CapabilityUnavailable,
            ),
            self.callback_channel is Some ==> r != Err::<CallbackReply, CallbackError>(
                CallbackError::CapabilityUnavailable,
            ),
            r is Err ==> (r == Err::<CallbackReply, CallbackError>(
                CallbackError::CapabilityUnavailable,
            ) || r == Err::<CallbackReply, CallbackError>(CallbackError::ChannelClosed)),
    {
        match &self.callback_channel {
            None => Err(CallbackError::CapabilityUnavailable),
            Some(sender) => {
                let (reply_tx, reply_rx) = oneshot_reply_pair();
                let req = CallbackRequest { request, response_channel: reply_tx };
                match blocking_send_request(sender, req) {
                    Err(_) => Err(CallbackError::ChannelClosed),
                    Ok(()) => match blocking_recv_reply(reply_rx) {
                        None => Err(CallbackError::ChannelClosed),
                        Some(reply) => Ok(reply),
                    },
                }
            },
        }
    }

}

} // verus!
