use vstd::prelude::*;
use crate::command::{Arg, CommandMessage};

verus! {

/// The bytes of the OSC message with address `addr` and the 32-bit integer
/// arguments `args`, as rosc encodes it.
pub uninterp spec fn osc_message_bytes(addr: Seq<char>, args: Seq<i32>) -> Seq<u8>;

/// What rosc decodes a datagram into: `None` where it is not a well-formed
/// OSC packet or is a bundle, else the message's address and its arguments,
/// each an integer or something else.
pub uninterp spec fn osc_decoded(datagram: Seq<u8>) -> Option<(Seq<char>, Seq<Arg>)>;

/// Relies on rosc::encoder::encode, which writes a message into a `Vec` and
/// never fails on one.
#[verifier::external_body]
pub(crate) fn encode_message(addr: &str, args: &Vec<i32>) -> (r: Vec<u8>)
    ensures
        r@ == osc_message_bytes(addr@, args@),
{
    let msg = rosc::OscMessage {
        addr: addr.to_string(),
        args: args.iter().map(|&i| rosc::OscType::Int(i)).collect(),
    };
    rosc::encoder::encode(&rosc::OscPacket::Message(msg)).unwrap()
}

/// Relies on rosc::decoder::decode_udp, which reads one packet from a
/// datagram or reports an error.
#[verifier::external_body]
pub(crate) fn decode_datagram(datagram: &[u8]) -> (r: Option<CommandMessage>)
    ensures
        match osc_decoded(datagram@) {
            Some((p, a)) => r matches Some(m) && m.pattern@ == p && m.args@ == a,
            None => r.is_none(),
        },
{
    match rosc::decoder::decode_udp(datagram) {
        Ok((_, rosc::OscPacket::Message(m))) => Some(CommandMessage {
            pattern: m.addr,
            args: m.args.into_iter().map(|a| match a {
                rosc::OscType::Int(i) => Arg::Int(i),
                _ => Arg::Other,
            }).collect(),
        }),
        _ => None,
    }
}

} // verus!
