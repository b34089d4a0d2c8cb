use vstd::prelude::*;

verus! {

/// The settle delay between a window being presented and the first embedding
/// attempt: realization and OS-side layout are asynchronous relative to the
/// show call, and an attempt before they finish fails silently.
pub const SETTLE_DELAY_MS: u64 = 500;

/// The interval of the recurring repaint request that counteracts compositor
/// side effects of being pinned below other surfaces.
pub const REFRESH_INTERVAL_MS: u64 = 16;

/// Where one window stands in its embedding lifetime. `Failed` is the one
/// terminal phase: it covers an embedding error as well as the window being
/// torn down, and is left only by starting a fresh lifecycle — never by a
/// retry from inside.
#[derive(Clone, Copy, Debug, PartialEq, Eq)]
pub enum EmbedPhase {
    /// The window object exists; nothing has been scheduled.
    Created,
    /// The window was presented; the one-shot settle timer is pending.
    SettleWait,
    /// The embedding attempt succeeded; the repaint loop is starting.
    Embedded,
    /// The recurring repaint request is running.
    RefreshLoop,
    /// The attempt was abandoned: an embedding error, or the window is gone.
    Failed,
}

/// What the surrounding event loop reports to the lifecycle.
#[derive(Clone, Copy, Debug, PartialEq, Eq)]
pub enum EmbedEvent {
    /// The window was created and shown.
    Presented,
    /// The settle timer fired and the embedding attempt ran, with this
    /// outcome.
    SettleElapsed { embed_ok: bool },
    /// A repaint tick fired; the window may have been destroyed since the
    /// last one.
    RefreshTick { window_alive: bool },
    /// The window was destroyed.
    Destroyed,
}

/// What the surrounding event loop must do next.
#[derive(Clone, Copy, Debug, PartialEq, Eq)]
pub enum EmbedAction {
    /// Schedule the one-shot settle timer for `SETTLE_DELAY_MS`.
    ScheduleSettle,
    /// Start the recurring repaint timer at `REFRESH_INTERVAL_MS`.
    StartRefresh,
    /// Ask the window to repaint itself, at low priority.
    Repaint,
    /// Cancel any pending settle or repaint timer.
    CancelTimers,
    /// Do nothing: the event is stale for this phase.
    Ignore,
}

/// The whole transition table. A destroyed window cancels its timers and ends
/// the lifecycle from any phase; a tick against a dead or failed window is a
/// no-op, never a repaint; every pairing not named is stale and ignored.
pub open spec fn spec_step(phase: EmbedPhase, event: EmbedEvent) -> (EmbedPhase, EmbedAction) {
    match (phase, event) {
        (EmbedPhase::Created, EmbedEvent::Presented) => (
            EmbedPhase::SettleWait,
            EmbedAction::ScheduleSettle,
        ),
        (EmbedPhase::SettleWait, EmbedEvent::SettleElapsed { embed_ok }) => if embed_ok {
            (EmbedPhase::Embedded, EmbedAction::StartRefresh)
        } else {
            (EmbedPhase::Failed, EmbedAction::Ignore)
        },
        (EmbedPhase::Embedded, EmbedEvent::RefreshTick { window_alive }) => if window_alive {
            (EmbedPhase::RefreshLoop, EmbedAction::Repaint)
        } else {
            (EmbedPhase::Failed, EmbedAction::CancelTimers)
        },
        (EmbedPhase::RefreshLoop, EmbedEvent::RefreshTick { window_alive }) => if window_alive {
            (EmbedPhase::RefreshLoop, EmbedAction::Repaint)
        } else {
            (EmbedPhase::Failed, EmbedAction::CancelTimers)
        },
        (EmbedPhase::Failed, EmbedEvent::Destroyed) => (EmbedPhase::Failed, EmbedAction::Ignore),
        (_, EmbedEvent::Destroyed) => (EmbedPhase::Failed, EmbedAction::CancelTimers),
        (p, _) => (p, EmbedAction::Ignore),
    }
}

/// The lifecycle of one window's embedding, driven by the surrounding event
/// loop: it reports each event and performs the action handed back.
#[derive(Clone, Copy, Debug, PartialEq, Eq)]
pub struct EmbedLifecycle {
    pub phase: EmbedPhase,
}

impl EmbedLifecycle {
    /// A fresh lifecycle for a newly created window.
    pub fn new() -> (lc: EmbedLifecycle)
        ensures
            lc.phase == EmbedPhase::Created,
    {
        EmbedLifecycle { phase: EmbedPhase::Created }
    }

    /// Takes one event, moves to the next phase, and says what to do.
    pub fn handle(&mut self, event: EmbedEvent) -> (action: EmbedAction)
        ensures
            (final(self).phase, action) == spec_step(old(self).phase, event),
    {
        let (next, action): (EmbedPhase, EmbedAction) = match (self.phase, event) {
            (EmbedPhase::Created, EmbedEvent::Presented) => (
                EmbedPhase::SettleWait,
                EmbedAction::ScheduleSettle,
            ),
            (EmbedPhase::SettleWait, EmbedEvent::SettleElapsed { embed_ok }) => {
                if embed_ok {
                    (EmbedPhase::Embedded, EmbedAction::StartRefresh)
                } else {
                    (EmbedPhase::Failed, EmbedAction::Ignore)
                }
            },
            (EmbedPhase::Embedded, EmbedEvent::RefreshTick { window_alive }) => {
                if window_alive {
                    (EmbedPhase::RefreshLoop, EmbedAction::Repaint)
                } else {
                    (EmbedPhase::Failed, EmbedAction::CancelTimers)
                }
            },
            (EmbedPhase::RefreshLoop, EmbedEvent::RefreshTick { window_alive }) => {
                if window_alive {
                    (EmbedPhase::RefreshLoop, EmbedAction::Repaint)
                } else {
                    (EmbedPhase::Failed, EmbedAction::CancelTimers)
                }
            },
            (EmbedPhase::Failed, EmbedEvent::Destroyed) => (
                EmbedPhase::Failed,
                EmbedAction::Ignore,
            ),
            (_, EmbedEvent::Destroyed) => (EmbedPhase::Failed, EmbedAction::CancelTimers),
            (p, _) => (p, EmbedAction::Ignore),
        };
        self.phase = next;
        action
    }
}

/// A failed lifecycle is terminal: no event leaves it. Re-embedding takes a
/// fresh lifecycle, never an internal retry.
pub proof fn lemma_failed_is_terminal(event: EmbedEvent)
    ensures
        spec_step(EmbedPhase::Failed, event).0 == EmbedPhase::Failed,
{
}

/// A tick against a dead window never requests a repaint, in any phase: the
/// repaint loop cannot fire into a destroyed window.
pub proof fn lemma_dead_window_never_repainted(phase: EmbedPhase)
    ensures
        spec_step(phase, EmbedEvent::RefreshTick { window_alive: false }).1 != EmbedAction::Repaint,
{
}

/// A repaint is requested only while the window is alive and its embedding
/// stands: in the embedded or refresh-loop phase, on a live tick.
pub proof fn lemma_repaint_only_while_embedded_and_alive(phase: EmbedPhase, event: EmbedEvent)
    ensures
        spec_step(phase, event).1 == EmbedAction::Repaint ==> (event == (EmbedEvent::RefreshTick {
            window_alive: true,
        }) && (phase == EmbedPhase::Embedded || phase == EmbedPhase::RefreshLoop)),
{
}

} // verus!
