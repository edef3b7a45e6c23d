use vstd::prelude::*;
use crate::notification::{decoded_event, source_spec, source_of};
use crate::outbound::{OutboundEnvelope, envelope_bytes, translate_notification};

verus! {

/// What one device's notification translator holds: the bridge's host
/// identifier and the device's identity, as they appear on the wire.
#[derive(Clone, Copy, Debug, PartialEq, Eq, Structural)]
pub struct Session {
    pub host_id: i32,
    pub identity: i32,
}

impl Session {
    /// The session of the device with identity `identity`, where that
    /// identity fits in an OSC integer.
    pub fn new(host_id: i32, identity: usize) -> (r: Option<Session>)
        ensures
            identity <= i32::MAX ==> r == Some(Session { host_id, identity: identity as i32 }),
            identity > i32::MAX ==> r.is_none(),
    {
        if identity <= i32::MAX as usize {
            Some(Session { host_id, identity: identity as i32 })
        } else {
            None
        }
    }

    /// The datagram to send for a notification from the characteristic
    /// `uuid`, if it holds an event.
    pub fn notification(&self, uuid: u128, payload: &Vec<u8>) -> (r: Option<Vec<u8>>)
        ensures
            match decoded_event(source_spec(uuid), payload@) {
                Some(event) => r matches Some(b) && b@ == envelope_bytes(
                    OutboundEnvelope { host_id: self.host_id, identity: self.identity, event },
                ),
                None => r.is_none(),
            },
    {
        translate_notification(self.host_id, self.identity, source_of(uuid), payload)
    }
}

} // verus!
