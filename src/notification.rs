use vstd::prelude::*;

verus! {

/// The device characteristic that a notification came from.
#[derive(Clone, Copy, Debug, PartialEq, Eq, Structural)]
pub enum NotificationSource {
    Position,
    Button,
    Motion,
    Other,
}

/// A decoded device notification.
#[derive(Clone, Copy, Debug, PartialEq, Eq, Structural)]
pub enum NotificationEvent {
    Position { x: u16, y: u16, angle: u16, real_x: u16, real_y: u16 },
    Button { pressed: u8 },
    Motion { flatness: u8, hit: u8, double_tap: u8, face_up: u8, shake_level: u8 },
}

/// The characteristic that reports the cube's position on the mat.
pub const POSITION_CHARACTERISTIC: u128 = 0x10B20101_5B3B_4571_9508_CF3EFCD7BBAE;
/// The characteristic that reports the cube's button.
pub const BUTTON_CHARACTERISTIC: u128 = 0x10B20107_5B3B_4571_9508_CF3EFCD7BBAE;
/// The characteristic that reports the cube's motion sensor.
pub const MOTION_CHARACTERISTIC: u128 = 0x10B20106_5B3B_4571_9508_CF3EFCD7BBAE;

/// The source that a characteristic identifier names.
pub open spec fn source_spec(uuid: u128) -> NotificationSource {
    if uuid == POSITION_CHARACTERISTIC {
        NotificationSource::Position
    } else if uuid == BUTTON_CHARACTERISTIC {
        NotificationSource::Button
    } else if uuid == MOTION_CHARACTERISTIC {
        NotificationSource::Motion
    } else {
        NotificationSource::Other
    }
}

/// The source of a notification, from the identifier of its characteristic.
pub fn source_of(uuid: u128) -> (r: NotificationSource)
    ensures
        r == source_spec(uuid),
{
    if uuid == POSITION_CHARACTERISTIC {
        NotificationSource::Position
    } else if uuid == BUTTON_CHARACTERISTIC {
        NotificationSource::Button
    } else if uuid == MOTION_CHARACTERISTIC {
        NotificationSource::Motion
    } else {
        NotificationSource::Other
    }
}

/// The first byte of a position payload that carries a reading; any other
/// value (3: the cube is off the mat) carries none.
pub const POSITION_READ: u8 = 1;

/// The unsigned 16-bit value of two bytes in little-endian order.
pub open spec fn le16(lo: u8, hi: u8) -> u16 {
    (lo as int + 256 * hi as int) as u16
}

/// The event that a payload from `source` holds, if any: a position only
/// where the first byte marks a reading, and none where the payload is too
/// short for its fields.
pub open spec fn decoded_event(source: NotificationSource, p: Seq<u8>) -> Option<NotificationEvent> {
    match source {
        NotificationSource::Position => if p.len() >= 11 && p[0] == POSITION_READ {
            Some(
                NotificationEvent::Position {
                    x: le16(p[1], p[2]),
                    y: le16(p[3], p[4]),
                    angle: le16(p[5], p[6]),
                    real_x: le16(p[7], p[8]),
                    real_y: le16(p[9], p[10]),
                },
            )
        } else {
            None
        },
        NotificationSource::Button => if p.len() >= 2 {
            Some(NotificationEvent::Button { pressed: p[1] })
        } else {
            None
        },
        NotificationSource::Motion => if p.len() >= 6 {
            Some(
                NotificationEvent::Motion {
                    flatness: p[1],
                    hit: p[2],
                    double_tap: p[3],
                    face_up: p[4],
                    shake_level: p[5],
                },
            )
        } else {
            None
        },
        NotificationSource::Other => None,
    }
}

/// The little-endian 16-bit value at `p[at]`, `p[at + 1]`.
pub fn read_le16(p: &Vec<u8>, at: usize) -> (r: u16)
    requires
        at + 1 < p@.len(),
    ensures
        r == le16(p@[at as int], p@[at + 1]),
{
    assert(p@.len() == p.len());
    let lo = p[at] as u16;
    let hi = p[at + 1] as u16;
    lo + 256 * hi
}

/// Decodes a notification payload from `source`.
pub fn decode_notification(source: NotificationSource, payload: &Vec<u8>) -> (r: Option<
    NotificationEvent,
>)
    ensures
        r == decoded_event(source, payload@),
{
    match source {
        NotificationSource::Position => {
            if payload.len() >= 11 && payload[0] == POSITION_READ {
                Some(
                    NotificationEvent::Position {
                        x: read_le16(payload, 1),
                        y: read_le16(payload, 3),
                        angle: read_le16(payload, 5),
                        real_x: read_le16(payload, 7),
                        real_y: read_le16(payload, 9),
                    },
                )
            } else {
                None
            }
        },
        NotificationSource::Button => {
            if payload.len() >= 2 {
                Some(NotificationEvent::Button { pressed: payload[1] })
            } else {
                None
            }
        },
        NotificationSource::Motion => {
            if payload.len() >= 6 {
                Some(
                    NotificationEvent::Motion {
                        flatness: payload[1],
                        hit: payload[2],
                        double_tap: payload[3],
                        face_up: payload[4],
                        shake_level: payload[5],
                    },
                )
            } else {
                None
            }
        },
        NotificationSource::Other => None,
    }
}

} // verus!
