use vstd::prelude::*;
use crate::command::{Arg, CommandMessage};
use crate::osc::{osc_decoded, decode_datagram};
use crate::registry::{Registry, after_resolve_queues, resolved_identity, DeviceAddress, distinct};

verus! {

/// The identity that a message is addressed to: its first argument, where
/// that is a non-negative integer.
pub open spec fn target_of(args: Seq<Arg>) -> Option<int> {
    if args.len() > 0 {
        match args[0] {
            Arg::Int(i) => if i >= 0 {
                Some(i as int)
            } else {
                None
            },
            Arg::Other => None,
        }
    } else {
        None
    }
}

/// The queue handle that a message with these arguments is delivered to, if
/// any: that of its target, where the target is a known identity with a
/// queue installed.
pub open spec fn routed_queue<H>(queues: Seq<Option<H>>, args: Seq<Arg>) -> Option<H> {
    match target_of(args) {
        Some(i) => if i < queues.len() {
            queues[i]
        } else {
            None
        },
        None => None,
    }
}

/// Once a device is registered with a queue handle, a message addressed to
/// the identity it was given is delivered to that handle.
pub proof fn lemma_registered_device_is_routable<H>(
    s: Seq<DeviceAddress>,
    q: Seq<Option<H>>,
    a: DeviceAddress,
    h: H,
    rest: Seq<Arg>,
)
    requires
        distinct(s),
        q.len() == s.len(),
        resolved_identity(s, a) <= i32::MAX,
    ensures
        routed_queue(
            after_resolve_queues(s, q, a).update(resolved_identity(s, a), Some(h)),
            seq![Arg::Int(resolved_identity(s, a) as i32)] + rest,
        ) == Some(h),
{
    let i = resolved_identity(s, a);
    let args = seq![Arg::Int(i as i32)] + rest;
    assert(args[0] == Arg::Int(i as i32));
    assert(0 <= i < after_resolve_queues(s, q, a).len()) by {
        if s.contains(a) {
            let k = choose|k: int| 0 <= k < s.len() && s[k] == a;
            crate::registry::lemma_first_index_distinct(s, k);
        }
    }
}

/// The target identity of a message, if it names one.
pub fn target_identity(msg: &CommandMessage) -> (r: Option<usize>)
    ensures
        match target_of(msg.args@) {
            Some(i) => r == Some(i as usize),
            None => r.is_none(),
        },
{
    if msg.args.len() == 0 {
        return None;
    }
    match msg.args[0] {
        Arg::Int(i) => if i >= 0 {
            Some(i as usize)
        } else {
            None
        },
        Arg::Other => None,
    }
}

/// The command queue that `msg` goes to. A message without a target, with
/// a target beyond the known identities, or whose device has no queue yet,
/// goes nowhere.
pub fn route<'a, H>(reg: &'a Registry<H>, msg: &CommandMessage) -> (r: Option<&'a H>)
    requires
        reg.wf(),
    ensures
        match routed_queue(reg.queues(), msg.args@) {
            Some(h) => r == Some(&h),
            None => r.is_none(),
        },
{
    match target_identity(msg) {
        Some(i) => reg.queue_of_identity(i),
        None => None,
    }
}

/// Decodes an inbound datagram and finds the command queue that it goes to.
/// A datagram that does not decode to a message goes nowhere.
pub fn route_datagram<'a, H>(reg: &'a Registry<H>, datagram: &[u8]) -> (r: Option<
    (&'a H, CommandMessage),
>)
    requires
        reg.wf(),
    ensures
        match osc_decoded(datagram@) {
            Some((p, a)) => match routed_queue(reg.queues(), a) {
                Some(h) => r matches Some((q, m)) && *q == h && m.pattern@ == p && m.args@ == a,
                None => r.is_none(),
            },
            None => r.is_none(),
        },
{
    match decode_datagram(datagram) {
        Some(msg) => match route(reg, &msg) {
            Some(q) => Some((q, msg)),
            None => None,
        },
        None => None,
    }
}

} // verus!
