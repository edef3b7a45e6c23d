use vstd::prelude::*;
use crate::notification::{POSITION_CHARACTERISTIC, BUTTON_CHARACTERISTIC, MOTION_CHARACTERISTIC};

verus! {

/// The service that marks a device as a cube.
pub const CUBE_SERVICE: u128 = 0x10B20100_5B3B_4571_9508_CF3EFCD7BBAE;

/// Where the handling of one discovery event stands.
#[derive(Clone, Copy, Debug, PartialEq, Eq, Structural)]
pub enum Phase {
    Discovered,
    Connecting,
    Connected,
    CharacteristicsDiscovered,
    SubscriptionsActive,
    Running,
    Abandoned,
}

/// What the transport reports back to the lifecycle.
#[derive(Clone, Copy, Debug, PartialEq, Eq, Structural)]
pub enum LifecycleEvent {
    /// The discovered device was inspected: whether it offers the cube
    /// service, and whether it is already connected.
    Inspected { has_service: bool, connected: bool },
    /// A connection attempt ended.
    ConnectDone { ok: bool },
    /// Characteristic discovery ended.
    CharacteristicsDone { ok: bool },
    /// The subscriptions ended.
    SubscribeDone { ok: bool },
    /// The notification stream was opened, or could not be.
    NotificationsOpened { ok: bool },
}

/// What the lifecycle asks of the transport next.
#[derive(Clone, Copy, Debug, PartialEq, Eq, Structural)]
pub enum LifecycleAction {
    /// Nothing: the event does not concern a cube, or does not fit the phase.
    Ignore,
    Connect,
    /// Resolve the identity, install the command queue, start the command
    /// session, then discover the characteristics.
    RegisterAndDiscover,
    Subscribe,
    /// Start the notification session.
    StartNotifications,
    /// Give up on this discovery event; a later one retries.
    Abandon,
}

/// The phase and action that follow `event` in `phase`.
pub open spec fn transition(phase: Phase, event: LifecycleEvent) -> (Phase, LifecycleAction) {
    match (phase, event) {
        (Phase::Discovered, LifecycleEvent::Inspected { has_service, connected }) => {
            if !has_service {
                (Phase::Abandoned, LifecycleAction::Ignore)
            } else if connected {
                (Phase::Connected, LifecycleAction::RegisterAndDiscover)
            } else {
                (Phase::Connecting, LifecycleAction::Connect)
            }
        },
        (Phase::Connecting, LifecycleEvent::ConnectDone { ok }) => if ok {
            (Phase::Connected, LifecycleAction::RegisterAndDiscover)
        } else {
            (Phase::Abandoned, LifecycleAction::Abandon)
        },
        (Phase::Connected, LifecycleEvent::CharacteristicsDone { ok }) => if ok {
            (Phase::CharacteristicsDiscovered, LifecycleAction::Subscribe)
        } else {
            (Phase::Abandoned, LifecycleAction::Abandon)
        },
        (Phase::CharacteristicsDiscovered, LifecycleEvent::SubscribeDone { ok }) => if ok {
            (Phase::SubscriptionsActive, LifecycleAction::StartNotifications)
        } else {
            (Phase::Abandoned, LifecycleAction::Abandon)
        },
        (Phase::SubscriptionsActive, LifecycleEvent::NotificationsOpened { ok }) => if ok {
            (Phase::Running, LifecycleAction::Ignore)
        } else {
            (Phase::Abandoned, LifecycleAction::Abandon)
        },
        _ => (phase, LifecycleAction::Ignore),
    }
}

/// Takes one step of the lifecycle of a discovery event.
pub fn step(phase: Phase, event: LifecycleEvent) -> (r: (Phase, LifecycleAction))
    ensures
        r == transition(phase, event),
{
    match (phase, event) {
        (Phase::Discovered, LifecycleEvent::Inspected { has_service, connected }) => {
            if !has_service {
                (Phase::Abandoned, LifecycleAction::Ignore)
            } else if connected {
                (Phase::Connected, LifecycleAction::RegisterAndDiscover)
            } else {
                (Phase::Connecting, LifecycleAction::Connect)
            }
        },
        (Phase::Connecting, LifecycleEvent::ConnectDone { ok }) => if ok {
            (Phase::Connected, LifecycleAction::RegisterAndDiscover)
        } else {
            (Phase::Abandoned, LifecycleAction::Abandon)
        },
        (Phase::Connected, LifecycleEvent::CharacteristicsDone { ok }) => if ok {
            (Phase::CharacteristicsDiscovered, LifecycleAction::Subscribe)
        } else {
            (Phase::Abandoned, LifecycleAction::Abandon)
        },
        (Phase::CharacteristicsDiscovered, LifecycleEvent::SubscribeDone { ok }) => if ok {
            (Phase::SubscriptionsActive, LifecycleAction::StartNotifications)
        } else {
            (Phase::Abandoned, LifecycleAction::Abandon)
        },
        (Phase::SubscriptionsActive, LifecycleEvent::NotificationsOpened { ok }) => if ok {
            (Phase::Running, LifecycleAction::Ignore)
        } else {
            (Phase::Abandoned, LifecycleAction::Abandon)
        },
        _ => (phase, LifecycleAction::Ignore),
    }
}

/// Whether a discovered device's services mark it as a cube.
pub fn is_cube(services: &Vec<u128>) -> (r: bool)
    ensures
        r == services@.contains(CUBE_SERVICE),
{
    let mut i: usize = 0;
    while i < services.len()
        invariant
            i <= services@.len(),
            forall|j: int| 0 <= j < i ==> services@[j] != CUBE_SERVICE,
        decreases services@.len() - i,
    {
        if services[i] == CUBE_SERVICE {
            assert(services@[i as int] == CUBE_SERVICE);
            return true;
        }
        i = i + 1;
    }
    false
}

/// A characteristic that a device offers: its identifier, and whether it
/// can notify.
#[derive(Clone, Copy, Debug, PartialEq, Eq, Structural)]
pub struct CharacteristicInfo {
    pub uuid: u128,
    pub notify: bool,
}

/// Whether the bridge subscribes to a characteristic: position and button
/// always, motion only where `with_motion` is set, and each only where it
/// can notify.
pub open spec fn wanted(c: CharacteristicInfo, with_motion: bool) -> bool {
    c.notify && (c.uuid == POSITION_CHARACTERISTIC || c.uuid == BUTTON_CHARACTERISTIC || (
    with_motion && c.uuid == MOTION_CHARACTERISTIC))
}

/// The characteristics to subscribe to, in the order in which they were
/// discovered.
pub fn subscriptions(chars: &Vec<CharacteristicInfo>, with_motion: bool) -> (r: Vec<
    CharacteristicInfo,
>)
    ensures
        r@ == chars@.filter(|c: CharacteristicInfo| wanted(c, with_motion)),
{
    let mut out: Vec<CharacteristicInfo> = Vec::new();
    let mut i: usize = 0;
    while i < chars.len()
        invariant
            i <= chars@.len(),
            out@ == chars@.take(i as int).filter(|c: CharacteristicInfo| wanted(c, with_motion)),
        decreases chars@.len() - i,
    {
        let c = chars[i];
        let keep = c.notify && (c.uuid == POSITION_CHARACTERISTIC || c.uuid == BUTTON_CHARACTERISTIC
            || (with_motion && c.uuid == MOTION_CHARACTERISTIC));
        let ghost next = chars@.take(i + 1);
        proof {
            assert(next.drop_last() =~= chars@.take(i as int));
            assert(next.last() == c);
            assert(wanted(c, with_motion) == keep);
            let pred = |c: CharacteristicInfo| wanted(c, with_motion);
            reveal(Seq::filter);
            assert(next.filter(pred) == if keep {
                chars@.take(i as int).filter(pred).push(c)
            } else {
                chars@.take(i as int).filter(pred)
            });
        }
        if keep {
            out.push(c);
        }
        i = i + 1;
    }
    assert(chars@.take(chars@.len() as int) =~= chars@);
    out
}

} // verus!
