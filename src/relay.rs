use vstd::prelude::*;

use crate::codec::{decoded, encode, from_json, wire_text, DecodeError};
use crate::delivery::DeliveryError;
use crate::json::Json;
use crate::message::{origin_of, stamped, CacheMessage};
use crate::subject::{rewrite, rewritten, subscription_subject, wildcard_under};

verus! {

/// Where a relay listens, where it republishes, and the origin it stamps.
#[derive(Debug)]
pub struct RelayConfig {
    pub inbound_prefix: String,
    pub outbound_prefix: String,
    pub origin: String,
}

/// What to do with an inbound payload.
#[derive(Debug)]
pub enum InboundAction {
    /// The payload is not a cache message: drop it, deliver nothing.
    Drop(DecodeError),
    /// Deliver `body`, the wire text of `message`, to the webhook.
    Deliver { message: CacheMessage, body: String },
}

/// What to do once the webhook has answered.
#[derive(Debug)]
pub enum DeliveredAction {
    /// The delivery failed: publish nothing.
    Skip(DeliveryError),
    /// Publish `body` under `subject`.
    Publish { subject: String, body: String },
}

/// The message that an inbound payload holds, or why it holds none.
pub open spec fn decoded_input(parsed: Result<Json, DecodeError>) -> Result<CacheMessage, DecodeError> {
    match parsed {
        Ok(j) => decoded(j),
        Err(e) => Err(e),
    }
}

impl RelayConfig {
    pub fn new(inbound_prefix: String, outbound_prefix: String, origin: String) -> (r: Self)
        ensures
            r.inbound_prefix == inbound_prefix,
            r.outbound_prefix == outbound_prefix,
            r.origin == origin,
    {
        RelayConfig { inbound_prefix, outbound_prefix, origin }
    }

    /// The pattern to subscribe to: every subject under the inbound prefix.
    pub fn subscription(&self) -> (r: String)
        ensures
            r@ == wildcard_under(self.inbound_prefix@),
    {
        subscription_subject(self.inbound_prefix.as_str())
    }

    /// The first step for one inbound payload, handed over as the JSON document
    /// it parsed to or the reason it did not parse. A payload that holds no
    /// cache message is dropped; any other is stamped with this relay's origin
    /// and goes to delivery as wire text.
    pub fn on_inbound(&self, parsed: Result<Json, DecodeError>) -> (r: InboundAction)
        ensures
            decoded_input(parsed) is Err ==> r == InboundAction::Drop(
                decoded_input(parsed)->Err_0,
            ),
            decoded_input(parsed) is Ok ==> r is Deliver,
            r matches InboundAction::Deliver { message, body } ==> {
                &&& message == stamped(decoded_input(parsed)->Ok_0, self.origin)
                &&& origin_of(message) == Some(self.origin)
                &&& body@ == wire_text(message)
            },
    {
        let m = match parsed {
            Ok(j) => from_json(&j),
            Err(e) => Err(e),
        };
        match m {
            Err(e) => InboundAction::Drop(e),
            Ok(m) => {
                let message = m.with_origin(self.origin.clone());
                let body = encode(&message);
                InboundAction::Deliver { message, body }
            },
        }
    }

    /// The second step: given the webhook's outcome for `body`, which came in
    /// under `subject`. Publishes if and only if the delivery succeeded, under
    /// the subject with the inbound prefix replaced by the outbound one.
    pub fn on_delivered(
        &self,
        subject: &str,
        body: String,
        outcome: Result<(), DeliveryError>,
    ) -> (r: DeliveredAction)
        ensures
            outcome is Err ==> r == DeliveredAction::Skip(outcome->Err_0),
            outcome is Ok ==> r is Publish,
            r matches DeliveredAction::Publish { subject: s, body: b } ==> {
                &&& s@ == rewritten(subject@, self.inbound_prefix@, self.outbound_prefix@)
                &&& b == body
            },
    {
        match outcome {
            Err(e) => DeliveredAction::Skip(e),
            Ok(()) => DeliveredAction::Publish {
                subject: rewrite(subject, self.inbound_prefix.as_str(), self.outbound_prefix.as_str()),
                body,
            },
        }
    }
}

} // verus!
