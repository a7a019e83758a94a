//! The advertising/connection lifecycle state machine: advertise, accept
//! one central, and while the link reports connected, request one
//! notification of a free-running counter per timer interval; when the link
//! drops, return to advertising. The machine decides; the surrounding task
//! performs the blocking work (advertise, accept, wait, send) and hands the
//! observed event back.

use vstd::prelude::*;

verus! {

/// Seconds between two notification attempts while connected.
pub const NOTIFY_INTERVAL_SECS: u64 = 2;

/// Where the lifecycle stands.
#[derive(Clone, Copy, Debug, PartialEq, Eq, Structural)]
pub enum LinkState {
    /// No central is connected; an advertisement is (to be) running.
    Advertising,
    /// A central is connected; `tick` is the last notified counter value.
    Connected { tick: u8 },
}

/// What the surrounding task observed since the last step.
#[derive(Clone, Copy, Debug, PartialEq, Eq, Structural)]
pub enum LinkEvent {
    /// A central completed the accept handshake.
    Accepted,
    /// The link's liveness was queried; `connected` is what it reported.
    Polled { connected: bool },
    /// The notification requested by the last step was sent; `delivered`
    /// is false on a failed send (for example, nobody subscribed).
    NotifySent { delivered: bool },
}

/// What the surrounding task must do next.
#[derive(Clone, Copy, Debug, PartialEq, Eq, Structural)]
pub enum LinkAction {
    /// Start a connectable advertisement and wait for an accept.
    StartAdvertising,
    /// Query the connection's liveness and report it back.
    Poll,
    /// Wait one notify interval, then send `value` on the battery-level
    /// characteristic and report the send's outcome back.
    WaitThenNotify { value: u8 },
}

/// The counter value after one tick: wraps from 255 to 0, never fails.
pub open spec fn next_tick(t: u8) -> u8 {
    if t == 255 {
        0
    } else {
        (t + 1) as u8
    }
}

/// One decision of the lifecycle machine. While connected, a live poll
/// advances the counter and requests exactly one notification; a dead poll
/// returns to advertising; a notify outcome — delivered or not — changes
/// nothing and the loop polls again. An event that does not belong to the
/// current state changes no state and re-requests the state's own action.
pub open spec fn step_spec(s: LinkState, e: LinkEvent) -> (LinkState, LinkAction) {
    match (s, e) {
        (LinkState::Advertising, LinkEvent::Accepted) => (
            LinkState::Connected { tick: 0 },
            LinkAction::Poll,
        ),
        (LinkState::Advertising, _) => (LinkState::Advertising, LinkAction::StartAdvertising),
        (LinkState::Connected { tick }, LinkEvent::Polled { connected }) => if connected {
            (
                LinkState::Connected { tick: next_tick(tick) },
                LinkAction::WaitThenNotify { value: next_tick(tick) },
            )
        } else {
            (LinkState::Advertising, LinkAction::StartAdvertising)
        },
        (LinkState::Connected { tick }, LinkEvent::NotifySent { .. }) => (
            LinkState::Connected { tick },
            LinkAction::Poll,
        ),
        (LinkState::Connected { tick }, LinkEvent::Accepted) => (
            LinkState::Connected { tick },
            LinkAction::Poll,
        ),
    }
}

/// The state and action the lifecycle starts from.
pub fn initial() -> (r: (LinkState, LinkAction))
    ensures
        r == (LinkState::Advertising, LinkAction::StartAdvertising),
{
    (LinkState::Advertising, LinkAction::StartAdvertising)
}

/// Take one decision: exactly `step_spec`.
pub fn step(s: LinkState, e: LinkEvent) -> (r: (LinkState, LinkAction))
    ensures
        r == step_spec(s, e),
{
    match (s, e) {
        (LinkState::Advertising, LinkEvent::Accepted) => (
            LinkState::Connected { tick: 0 },
            LinkAction::Poll,
        ),
        (LinkState::Advertising, _) => (LinkState::Advertising, LinkAction::StartAdvertising),
        (LinkState::Connected { tick }, LinkEvent::Polled { connected }) => {
            if connected {
                let next = tick.wrapping_add(1);
                (
                    LinkState::Connected { tick: next },
                    LinkAction::WaitThenNotify { value: next },
                )
            } else {
                (LinkState::Advertising, LinkAction::StartAdvertising)
            }
        },
        (LinkState::Connected { tick }, _) => (LinkState::Connected { tick }, LinkAction::Poll),
    }
}

/// The counter wraps from 255 to 0 without error and goes on counting: the
/// tick at 255 requests a notification of 0, and the one after it of 1, so
/// no interval's notification is skipped at the wrap.
pub proof fn lemma_counter_wraps()
    ensures
        step_spec(LinkState::Connected { tick: 255 }, LinkEvent::Polled { connected: true }) == (
            LinkState::Connected { tick: 0 },
            LinkAction::WaitThenNotify { value: 0 },
        ),
        step_spec(LinkState::Connected { tick: 0 }, LinkEvent::Polled { connected: true }) == (
            LinkState::Connected { tick: 1 },
            LinkAction::WaitThenNotify { value: 1 },
        ),
{
}

/// A notification is requested exactly when a poll of a connected state
/// reports the link alive — never while disconnected or advertising — and
/// each such poll requests exactly one notification, of the next counter
/// value.
pub proof fn lemma_notify_exactly_on_live_poll(s: LinkState, e: LinkEvent)
    ensures
        (step_spec(s, e).1 is WaitThenNotify) <==> (s is Connected && e == (LinkEvent::Polled {
            connected: true,
        })),
        s matches LinkState::Connected { tick } ==> (e == (LinkEvent::Polled { connected: true })
            ==> step_spec(s, e).1 == (LinkAction::WaitThenNotify { value: next_tick(tick) })),
{
}

/// One full interval cycle while connected — a live poll followed by the
/// notification's outcome — requests exactly one notification, of the next
/// counter value, and leaves the machine connected at that value, whether
/// or not the send was delivered.
pub proof fn lemma_one_notification_per_interval(t: u8, delivered: bool)
    ensures
        ({
            let (s1, a1) = step_spec(LinkState::Connected { tick: t }, LinkEvent::Polled {
                connected: true,
            });
            let (s2, a2) = step_spec(s1, LinkEvent::NotifySent { delivered });
            &&& a1 == (LinkAction::WaitThenNotify { value: next_tick(t) })
            &&& !(a2 is WaitThenNotify)
            &&& s2 == (LinkState::Connected { tick: next_tick(t) })
        }),
{
}

/// A failed notification send is not fatal: the machine stays connected
/// with its counter intact, exactly as after a delivered send, and the next
/// live poll still requests a notification.
pub proof fn lemma_failed_notify_keeps_serving(tick: u8)
    ensures
        step_spec(LinkState::Connected { tick }, LinkEvent::NotifySent { delivered: false })
            == step_spec(LinkState::Connected { tick }, LinkEvent::NotifySent {
            delivered: true,
        }),
        step_spec(LinkState::Connected { tick }, LinkEvent::NotifySent { delivered: false }).0
            == (LinkState::Connected { tick }),
        step_spec(
            step_spec(LinkState::Connected { tick }, LinkEvent::NotifySent {
                delivered: false,
            }).0,
            LinkEvent::Polled { connected: true },
        ).1 is WaitThenNotify,
{
}

/// A poll that finds the link down leaves the connected loop and restarts
/// advertising, whatever the counter held.
pub proof fn lemma_disconnect_restarts_advertising(tick: u8)
    ensures
        step_spec(LinkState::Connected { tick }, LinkEvent::Polled { connected: false }) == (
            LinkState::Advertising,
            LinkAction::StartAdvertising,
        ),
{
}

} // verus!
