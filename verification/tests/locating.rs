use desktop_embed::handles::NativeWindowHandle;
use desktop_embed::lifecycle::{
    EmbedAction, EmbedEvent, EmbedLifecycle, EmbedPhase, REFRESH_INTERVAL_MS, SETTLE_DELAY_MS,
};
use desktop_embed::locator::{
    icon_view_class_name, locate_worker, provoke_wait_outcome, shell_host_class_name,
    worker_surface_class_name, CandidateWindow, LocatorError, ShellHandles, PROVOKE_TIMEOUT_MS,
    WORKER_PROVOKE_MESSAGE, WORKER_PROVOKE_PAYLOAD,
};

fn candidate(raw: u64, class_name: &str, has_icon_view_child: bool) -> CandidateWindow {
    CandidateWindow {
        handle: NativeWindowHandle { raw },
        class_name: class_name.to_string(),
        has_icon_view_child,
    }
}

#[test]
fn class_names_are_fixed() {
    assert_eq!(shell_host_class_name(), "Progman");
    assert_eq!(worker_surface_class_name(), "WorkerW");
    assert_eq!(icon_view_class_name(), "SHELLDLL_DefView");
}

#[test]
fn protocol_constants() {
    assert_eq!(WORKER_PROVOKE_MESSAGE, 0x052C);
    assert_eq!(WORKER_PROVOKE_PAYLOAD, 0);
    assert_eq!(PROVOKE_TIMEOUT_MS, 1000);
    assert_eq!(SETTLE_DELAY_MS, 500);
    assert_eq!(REFRESH_INTERVAL_MS, 16);
}

#[test]
fn provoke_completion_ok() {
    assert_eq!(provoke_wait_outcome(true), Ok(()));
}

#[test]
fn provoke_timeout_reported() {
    assert_eq!(provoke_wait_outcome(false), Err(LocatorError::Timeout));
}

#[test]
fn absent_host_is_fatal() {
    let cands = vec![candidate(2, "WorkerW", true)];
    assert_eq!(locate_worker(0, &cands), Err(LocatorError::HostNotFound));
}

#[test]
fn no_candidates_falls_back_to_host() {
    let cands: Vec<CandidateWindow> = Vec::new();
    assert_eq!(
        locate_worker(1, &cands),
        Ok(ShellHandles {
            host: NativeWindowHandle { raw: 1 },
            worker: Some(NativeWindowHandle { raw: 1 }),
        })
    );
}

#[test]
fn no_match_falls_back_to_host() {
    // A worker-class window without the icon-view child, and an icon-view
    // child on a window of another class: neither matches, so the host
    // itself serves as the worker — degraded mode, never an error.
    let cands = vec![
        candidate(2, "WorkerW", false),
        candidate(3, "SomeOtherClass", true),
    ];
    assert_eq!(
        locate_worker(1, &cands),
        Ok(ShellHandles {
            host: NativeWindowHandle { raw: 1 },
            worker: Some(NativeWindowHandle { raw: 1 }),
        })
    );
}

#[test]
fn match_captures_previous_window() {
    let cands = vec![
        candidate(10, "SomeOtherClass", false),
        candidate(11, "WorkerW", false),
        candidate(12, "WorkerW", true),
        candidate(13, "WorkerW", false),
    ];
    assert_eq!(
        locate_worker(1, &cands),
        Ok(ShellHandles {
            host: NativeWindowHandle { raw: 1 },
            worker: Some(NativeWindowHandle { raw: 11 }),
        })
    );
}

#[test]
fn match_on_first_candidate_captures_itself() {
    let cands = vec![candidate(12, "WorkerW", true), candidate(13, "WorkerW", false)];
    assert_eq!(
        locate_worker(1, &cands),
        Ok(ShellHandles {
            host: NativeWindowHandle { raw: 1 },
            worker: Some(NativeWindowHandle { raw: 12 }),
        })
    );
}

#[test]
fn enumeration_stops_at_first_match() {
    let cands = vec![
        candidate(10, "A", false),
        candidate(12, "WorkerW", true),
        candidate(20, "B", false),
        candidate(21, "WorkerW", true),
    ];
    assert_eq!(
        locate_worker(1, &cands),
        Ok(ShellHandles {
            host: NativeWindowHandle { raw: 1 },
            worker: Some(NativeWindowHandle { raw: 10 }),
        })
    );
}

#[test]
fn worker_class_match_is_exact() {
    // The class must match exactly — a prefix does not count.
    let cands = vec![candidate(2, "WorkerWExtra", true), candidate(3, "workerw", true)];
    assert_eq!(
        locate_worker(1, &cands),
        Ok(ShellHandles {
            host: NativeWindowHandle { raw: 1 },
            worker: Some(NativeWindowHandle { raw: 1 }),
        })
    );
}

#[test]
fn lifecycle_happy_path() {
    let mut lc = EmbedLifecycle::new();
    assert_eq!(lc.phase, EmbedPhase::Created);
    assert_eq!(lc.handle(EmbedEvent::Presented), EmbedAction::ScheduleSettle);
    assert_eq!(lc.phase, EmbedPhase::SettleWait);
    assert_eq!(
        lc.handle(EmbedEvent::SettleElapsed { embed_ok: true }),
        EmbedAction::StartRefresh
    );
    assert_eq!(lc.phase, EmbedPhase::Embedded);
    assert_eq!(lc.handle(EmbedEvent::RefreshTick { window_alive: true }), EmbedAction::Repaint);
    assert_eq!(lc.phase, EmbedPhase::RefreshLoop);
    assert_eq!(lc.handle(EmbedEvent::RefreshTick { window_alive: true }), EmbedAction::Repaint);
    assert_eq!(lc.phase, EmbedPhase::RefreshLoop);
}

#[test]
fn lifecycle_failed_embedding() {
    let mut lc = EmbedLifecycle::new();
    lc.handle(EmbedEvent::Presented);
    assert_eq!(lc.handle(EmbedEvent::SettleElapsed { embed_ok: false }), EmbedAction::Ignore);
    assert_eq!(lc.phase, EmbedPhase::Failed);
    // Failed is terminal: later events change nothing and never repaint.
    assert_eq!(lc.handle(EmbedEvent::RefreshTick { window_alive: true }), EmbedAction::Ignore);
    assert_eq!(lc.phase, EmbedPhase::Failed);
}

#[test]
fn lifecycle_dead_window_tick_stops_refresh() {
    let mut lc = EmbedLifecycle::new();
    lc.handle(EmbedEvent::Presented);
    lc.handle(EmbedEvent::SettleElapsed { embed_ok: true });
    lc.handle(EmbedEvent::RefreshTick { window_alive: true });
    assert_eq!(
        lc.handle(EmbedEvent::RefreshTick { window_alive: false }),
        EmbedAction::CancelTimers
    );
    assert_eq!(lc.phase, EmbedPhase::Failed);
    assert_eq!(lc.handle(EmbedEvent::RefreshTick { window_alive: false }), EmbedAction::Ignore);
}

#[test]
fn lifecycle_destroyed_before_settle() {
    let mut lc = EmbedLifecycle::new();
    lc.handle(EmbedEvent::Presented);
    assert_eq!(lc.handle(EmbedEvent::Destroyed), EmbedAction::CancelTimers);
    assert_eq!(lc.phase, EmbedPhase::Failed);
    assert_eq!(lc.handle(EmbedEvent::SettleElapsed { embed_ok: true }), EmbedAction::Ignore);
    assert_eq!(lc.phase, EmbedPhase::Failed);
}

#[test]
fn lifecycle_stale_events_ignored() {
    let mut lc = EmbedLifecycle::new();
    assert_eq!(lc.handle(EmbedEvent::RefreshTick { window_alive: true }), EmbedAction::Ignore);
    assert_eq!(lc.phase, EmbedPhase::Created);
    assert_eq!(lc.handle(EmbedEvent::SettleElapsed { embed_ok: true }), EmbedAction::Ignore);
    assert_eq!(lc.phase, EmbedPhase::Created);
}
