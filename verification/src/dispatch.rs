//! Per-connection attribute dispatch: one readable/writable/notifiable
//! 16-bit value, a notification-enabled flag owned by the peer's protocol
//! messages, and the event loop that reacts to each protocol event in turn.
//!
//! On a peer write of `v` the value is stored and a reply of `v + 1`
//! (saturating at the top of the range) is offered as a notification; the
//! notification is delivered exactly when the peer has notifications
//! enabled — a failed send is non-fatal and the loop continues.

use vstd::prelude::*;

verus! {

/// One protocol event on the attribute, as the link layer hands them over.
/// The event stream of a connection is finite: it ends when the link
/// closes or the protocol layer reports an error.
#[derive(Clone, Copy, PartialEq, Eq, Structural, Debug)]
pub enum AttributeEvent {
    /// The peer wrote this payload to the attribute.
    Write(u16),
    /// The peer enabled notifications; no immediate value push.
    NotificationsEnabled,
    /// The peer disabled notifications.
    NotificationsDisabled,
}

/// The attribute's state for the one active connection: current value and
/// whether the peer has subscribed to notifications.
#[derive(Clone, Copy, PartialEq, Eq, Structural, Debug)]
pub struct AttributeState {
    /// Current value of the attribute.
    pub value: u16,
    /// Whether the peer has notifications enabled. Set and cleared only by
    /// peer protocol messages, never by local logic.
    pub notify_enabled: bool,
}

/// The reply to a peer write of `v`: `v + 1`, saturating at the top of the
/// representable range.
pub open spec fn reply_of(v: u16) -> u16 {
    if v == u16::MAX {
        u16::MAX
    } else {
        (v + 1) as u16
    }
}

/// The attribute state after one event.
pub open spec fn state_after_event(s: AttributeState, e: AttributeEvent) -> AttributeState {
    match e {
        AttributeEvent::Write(v) => AttributeState { value: v, ..s },
        AttributeEvent::NotificationsEnabled => AttributeState { notify_enabled: true, ..s },
        AttributeEvent::NotificationsDisabled => AttributeState { notify_enabled: false, ..s },
    }
}

/// The notification delivered in reaction to one event, if any: only a
/// write triggers a send, and the send reaches the peer only while
/// notifications are enabled.
pub open spec fn notification_of(s: AttributeState, e: AttributeEvent) -> Option<u16> {
    match e {
        AttributeEvent::Write(v) => if s.notify_enabled {
            Some(reply_of(v))
        } else {
            None
        },
        _ => None,
    }
}

/// The attribute state after a whole event sequence, in order.
pub open spec fn state_after(s: AttributeState, events: Seq<AttributeEvent>) -> AttributeState
    decreases events.len(),
{
    if events.len() == 0 {
        s
    } else {
        state_after_event(state_after(s, events.drop_last()), events.last())
    }
}

/// All notifications delivered over a whole event sequence, in order.
pub open spec fn notifications_of(s: AttributeState, events: Seq<AttributeEvent>) -> Seq<u16>
    decreases events.len(),
{
    if events.len() == 0 {
        Seq::empty()
    } else {
        let prefix = notifications_of(s, events.drop_last());
        match notification_of(state_after(s, events.drop_last()), events.last()) {
            Some(n) => prefix.push(n),
            None => prefix,
        }
    }
}

impl AttributeState {
    /// A fresh attribute: the given initial value, notifications disabled
    /// until the peer subscribes.
    pub fn new(value: u16) -> (r: AttributeState)
        ensures
            r.value == value,
            !r.notify_enabled,
    {
        AttributeState { value, notify_enabled: false }
    }

    /// Applies exactly one reaction to one protocol event and returns the
    /// notification delivered to the peer, if any. Dispatch is serialized:
    /// the caller hands events over one at a time, so no two reactions
    /// interleave.
    pub fn handle_event(&mut self, e: AttributeEvent) -> (delivered: Option<u16>)
        ensures
            *final(self) == state_after_event(*old(self), e),
            delivered == notification_of(*old(self), e),
    {
        match e {
            AttributeEvent::Write(v) => {
                self.value = v;
                let reply: u16 = if v == u16::MAX {
                    u16::MAX
                } else {
                    v + 1
                };
                if self.notify_enabled {
                    Some(reply)
                } else {
                    None
                }
            },
            AttributeEvent::NotificationsEnabled => {
                self.notify_enabled = true;
                None
            },
            AttributeEvent::NotificationsDisabled => {
                self.notify_enabled = false;
                None
            },
        }
    }

    /// Runs the dispatch loop over one connection's finite event stream and
    /// returns every notification delivered, in order. The loop terminates
    /// when the stream ends, i.e. when the link closed; control then
    /// returns to the state machine.
    pub fn run_session(&mut self, events: &Vec<AttributeEvent>) -> (delivered: Vec<u16>)
        ensures
            *final(self) == state_after(*old(self), events@),
            delivered@ == notifications_of(*old(self), events@),
    {
        let mut delivered: Vec<u16> = Vec::new();
        let mut i: usize = 0;
        while i < events.len()
            invariant
                i <= events.len(),
                *self == state_after(*old(self), events@.take(i as int)),
                delivered@ == notifications_of(*old(self), events@.take(i as int)),
            decreases events.len() - i,
        {
            assert(events@.take(i + 1).drop_last() == events@.take(i as int));
            assert(events@.take(i + 1).last() == events@[i as int]);
            match self.handle_event(events[i]) {
                Some(n) => delivered.push(n),
                None => (),
            }
            i = i + 1;
        }
        assert(events@.take(events@.len() as int) == events@);
        delivered
    }
}

/// Value echo within a session: a peer write of `v` arriving while
/// notifications are enabled extends the session's deliveries by exactly
/// one notification, and it carries the reply to `v`; the write delivers
/// nothing when the peer is not subscribed.
pub proof fn lemma_session_echo(s: AttributeState, events: Seq<AttributeEvent>, v: u16)
    ensures
        state_after(s, events).notify_enabled ==> notifications_of(
            s,
            events.push(AttributeEvent::Write(v)),
        ) =~= notifications_of(s, events).push(reply_of(v)),
        !state_after(s, events).notify_enabled ==> notifications_of(
            s,
            events.push(AttributeEvent::Write(v)),
        ) =~= notifications_of(s, events),
{
    let extended = events.push(AttributeEvent::Write(v));
    assert(extended.drop_last() =~= events);
    assert(extended.last() == AttributeEvent::Write(v));
}

/// Value echo: while notifications are enabled, a peer write of `v` below
/// the top of the representable range delivers exactly one notification,
/// and it carries `v + 1`.
pub proof fn lemma_value_echo(s: AttributeState, v: u16)
    requires
        s.notify_enabled,
        v < u16::MAX,
    ensures
        notifications_of(s, seq![AttributeEvent::Write(v)]) =~= seq![(v + 1) as u16],
{
    let events = seq![AttributeEvent::Write(v)];
    assert(events.drop_last() =~= Seq::<AttributeEvent>::empty());
    assert(notifications_of(s, events.drop_last()) =~= Seq::<u16>::empty());
    assert(notification_of(s, events.last()) == Some(reply_of(v)));
}

} // verus!
