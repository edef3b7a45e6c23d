use vstd::prelude::*;
use crate::notification::{NotificationEvent, NotificationSource, decoded_event, decode_notification};
use crate::osc::{osc_message_bytes, encode_message};

verus! {

/// What one outbound message carries: the bridge's host identifier, the
/// identity of the device, and the event it reported.
#[derive(Clone, Copy, Debug, PartialEq, Eq, Structural)]
pub struct OutboundEnvelope {
    pub host_id: i32,
    pub identity: i32,
    pub event: NotificationEvent,
}

/// The OSC address of the message for an event.
pub open spec fn event_pattern(event: NotificationEvent) -> Seq<char> {
    match event {
        NotificationEvent::Position { .. } => "/position"@,
        NotificationEvent::Button { .. } => "/button"@,
        NotificationEvent::Motion { .. } => "/motion"@,
    }
}

/// The integer arguments of the message for an envelope: the host
/// identifier, the device identity, then the event's fields in order.
pub open spec fn envelope_args(e: OutboundEnvelope) -> Seq<i32> {
    let head = seq![e.host_id, e.identity];
    match e.event {
        NotificationEvent::Position { x, y, angle, real_x, real_y } => head + seq![
            x as i32,
            y as i32,
            angle as i32,
            real_x as i32,
            real_y as i32,
        ],
        NotificationEvent::Button { pressed } => head + seq![pressed as i32],
        NotificationEvent::Motion { flatness, hit, double_tap, face_up, shake_level } => head
            + seq![
            flatness as i32,
            hit as i32,
            double_tap as i32,
            face_up as i32,
            shake_level as i32,
        ],
    }
}

/// The datagram that carries an envelope.
pub open spec fn envelope_bytes(e: OutboundEnvelope) -> Seq<u8> {
    osc_message_bytes(event_pattern(e.event), envelope_args(e))
}

impl OutboundEnvelope {
    /// The integer arguments of the outbound message.
    pub fn args(&self) -> (r: Vec<i32>)
        ensures
            r@ == envelope_args(*self),
    {
        let r = match self.event {
            NotificationEvent::Position { x, y, angle, real_x, real_y } => vec![
                self.host_id,
                self.identity,
                x as i32,
                y as i32,
                angle as i32,
                real_x as i32,
                real_y as i32,
            ],
            NotificationEvent::Button { pressed } => vec![
                self.host_id,
                self.identity,
                pressed as i32,
            ],
            NotificationEvent::Motion { flatness, hit, double_tap, face_up, shake_level } => vec![
                self.host_id,
                self.identity,
                flatness as i32,
                hit as i32,
                double_tap as i32,
                face_up as i32,
                shake_level as i32,
            ],
        };
        assert(r@ =~= envelope_args(*self));
        r
    }

    /// The outbound datagram: one complete OSC message.
    pub fn encode(&self) -> (r: Vec<u8>)
        ensures
            r@ == envelope_bytes(*self),
    {
        let args = self.args();
        match self.event {
            NotificationEvent::Position { .. } => encode_message("/position", &args),
            NotificationEvent::Button { .. } => encode_message("/button", &args),
            NotificationEvent::Motion { .. } => encode_message("/motion", &args),
        }
    }
}

/// The datagram to send for a notification payload from `source` on the
/// device with identity `identity`, if the payload holds an event.
pub fn translate_notification(
    host_id: i32,
    identity: i32,
    source: NotificationSource,
    payload: &Vec<u8>,
) -> (r: Option<Vec<u8>>)
    ensures
        match decoded_event(source, payload@) {
            Some(event) => r matches Some(b) && b@ == envelope_bytes(
                OutboundEnvelope { host_id, identity, event },
            ),
            None => r.is_none(),
        },
{
    match decode_notification(source, payload) {
        Some(event) => Some(OutboundEnvelope { host_id, identity, event }.encode()),
        None => None,
    }
}

} // verus!
