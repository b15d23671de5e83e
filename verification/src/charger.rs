//! The verbs that relay OCPP messages between a charger and the backend: a
//! request is forwarded to the backend, and the response that comes back is
//! handed to the caller.

use vstd::prelude::*;
use crate::backend::HeartbeatCtxData;
use crate::v106;

verus! {

/// What is handed back to the caller of a relay verb.
#[derive(Clone, Copy, Debug, PartialEq, Eq, Structural)]
pub enum RelayReply {
    /// The message that the verb received.
    Message,
    /// An answer without a message.
    NoData,
}

/// What a relay verb does with a message: whether it forwards the message to
/// the backend, and what it answers its caller, if anything.
#[derive(Clone, Copy, Debug, PartialEq, Eq, Structural)]
pub struct Relay {
    pub forward: bool,
    pub reply: Option<RelayReply>,
}

impl Relay {
    /// A request goes on to the backend; the caller is answered once the
    /// response is back.
    pub open spec fn forwarded() -> Relay {
        Relay { forward: true, reply: None }
    }

    /// A response goes back to the caller as it is.
    pub open spec fn returned() -> Relay {
        Relay { forward: false, reply: Some(RelayReply::Message) }
    }
}

/// Relays a heartbeat: a request is counted and forwarded, a response is
/// returned. The count must have room for one more.
pub fn heartbeat_cb(ctx: &mut HeartbeatCtxData, data: &v106::Heartbeat) -> (relay: Relay)
    requires
        data is Request ==> old(ctx).count < u32::MAX,
    ensures
        data is Request ==> relay == Relay::forwarded() && final(ctx).count == old(ctx).count + 1,
        data is Response ==> relay == Relay::returned() && *final(ctx) == *old(ctx),
{
    match data {
        v106::Heartbeat::Response(_) => Relay { forward: false, reply: Some(RelayReply::Message) },
        v106::Heartbeat::Request(_) => {
            ctx.count = ctx.count + 1;
            Relay { forward: true, reply: None }
        },
    }
}

/// Relays a boot notification: a request is forwarded, a response returned.
pub fn boot_notification_cb(data: &v106::BootNotification) -> (relay: Relay)
    ensures
        data is Request ==> relay == Relay::forwarded(),
        data is Response ==> relay == Relay::returned(),
{
    match data {
        v106::BootNotification::Request(_) => Relay { forward: true, reply: None },
        v106::BootNotification::Response(_) => Relay {
            forward: false,
            reply: Some(RelayReply::Message),
        },
    }
}

/// Relays an authorization: a request is forwarded, a response returned.
pub fn authorize_cb(data: &v106::Authorize) -> (relay: Relay)
    ensures
        data is Request ==> relay == Relay::forwarded(),
        data is Response ==> relay == Relay::returned(),
{
    match data {
        v106::Authorize::Request(_) => Relay { forward: true, reply: None },
        v106::Authorize::Response(_) => Relay { forward: false, reply: Some(RelayReply::Message) },
    }
}

/// Relays a status notification: a request is forwarded, and the caller is
/// answered at once, without a message; a response is answered the same way.
pub fn status_notification(data: &v106::StatusNotification) -> (relay: Relay)
    ensures
        relay.forward == (data is Request),
        relay.reply == Some(RelayReply::NoData),
{
    match data {
        v106::StatusNotification::Request(_) => Relay {
            forward: true,
            reply: Some(RelayReply::NoData),
        },
        v106::StatusNotification::Response(_) => Relay {
            forward: false,
            reply: Some(RelayReply::NoData),
        },
    }
}

/// Relays a remote start: a request is forwarded, a response returned.
pub fn start_transaction_cb(data: &v106::RemoteStartTransaction) -> (relay: Relay)
    ensures
        data is Request ==> relay == Relay::forwarded(),
        data is Response ==> relay == Relay::returned(),
{
    match data {
        v106::RemoteStartTransaction::Request(_) => Relay { forward: true, reply: None },
        v106::RemoteStartTransaction::Response(_) => Relay {
            forward: false,
            reply: Some(RelayReply::Message),
        },
    }
}

/// Relays a remote stop: a request is forwarded, a response returned.
pub fn stop_transaction_cb(data: &v106::RemoteStopTransaction) -> (relay: Relay)
    ensures
        data is Request ==> relay == Relay::forwarded(),
        data is Response ==> relay == Relay::returned(),
{
    match data {
        v106::RemoteStopTransaction::Request(_) => Relay { forward: true, reply: None },
        v106::RemoteStopTransaction::Response(_) => Relay {
            forward: false,
            reply: Some(RelayReply::Message),
        },
    }
}

} // verus!
