use smp_core::registry::{
    create_event, event_registered, query_event, spawn_render_thread, wait_event, EventRegistry,
};

#[test]
fn created_events_answer_queries() {
    let mut reg = EventRegistry::new();
    create_event(&mut reg, true, false, "resourcesFlushedEvent");
    assert!(!query_event(&reg, "resourcesFlushedEvent"));
    create_event(&mut reg, true, true, "rendererRunningEvent");
    assert!(query_event(&reg, "rendererRunningEvent"));
}

#[test]
fn creating_an_existing_name_overwrites_it() {
    let mut reg = EventRegistry::new();
    create_event(&mut reg, true, false, "deviceOKEvent");
    assert!(!query_event(&reg, "deviceOKEvent"));
    create_event(&mut reg, false, true, "deviceOKEvent");
    assert!(query_event(&reg, "deviceOKEvent"));
    // The overwritten entry is now auto-reset: one consuming wait clears it.
    assert!(wait_event(&mut reg, "deviceOKEvent", 0));
    assert!(!query_event(&reg, "deviceOKEvent"));
}

#[test]
fn wait_consumes_auto_reset_but_not_manual_reset() {
    let mut reg = EventRegistry::new();
    create_event(&mut reg, true, true, "renderCompletedEvent");
    create_event(&mut reg, false, true, "backendEvent1");

    assert!(wait_event(&mut reg, "renderCompletedEvent", 0));
    assert!(query_event(&reg, "renderCompletedEvent"));

    assert!(wait_event(&mut reg, "backendEvent1", 0));
    assert!(!query_event(&reg, "backendEvent1"));
    assert!(!wait_event(&mut reg, "backendEvent1", 0));
}

#[test]
fn queries_do_not_consume() {
    let mut reg = EventRegistry::new();
    create_event(&mut reg, false, true, "osQuitEvent");
    assert!(query_event(&reg, "osQuitEvent"));
    assert!(query_event(&reg, "osQuitEvent"));
}

/// An unregistered name is detectable before any query or wait; the shell
/// turns a failed test into a fatal abort instead of a silent `false`.
#[test]
fn unregistered_names_are_detected() {
    let mut reg = EventRegistry::new();
    assert!(!event_registered(&reg, "renderEvent"));
    create_event(&mut reg, true, false, "renderEvent");
    assert!(event_registered(&reg, "renderEvent"));
    assert!(!event_registered(&reg, "neverRegisteredEvent"));
}

#[test]
fn spawn_render_thread_seeds_the_rendezvous_signals() {
    let mut reg = EventRegistry::new();
    assert!(spawn_render_thread(&mut reg, true));

    let expected = [
        ("renderPausedEvent", false),
        ("renderCompletedEvent", true),
        ("resourcesFlushedEvent", false),
        ("resourcesQueuedEvent", false),
        ("rendererRunningEvent", true),
        ("backendEvent", false),
        ("backendEvent1", false),
        ("updateSpotLightEffectEvent", true),
        ("updateEffectsEvent", true),
        ("deviceOKEvent", true),
        ("deviceHardStartEvent", false),
        ("renderShutdownEvent", false),
        ("deviceMessageEvent", true),
        ("osQuitEvent", false),
        ("osScriptDebuggerDrawEvent", false),
        ("rgRegisteredEvent", false),
        ("renderEvent", false),
    ];
    for (name, fired) in expected {
        assert!(event_registered(&reg, name), "{} missing", name);
        assert_eq!(query_event(&reg, name), fired, "{} state", name);
    }
}

#[test]
fn spawn_render_thread_reports_a_failed_spawn() {
    let mut reg = EventRegistry::new();
    assert!(!spawn_render_thread(&mut reg, false));
    // The rendezvous signals exist regardless: they are created before the
    // OS spawn is attempted.
    assert!(event_registered(&reg, "renderPausedEvent"));
}

#[test]
fn seeded_manual_reset_signals_survive_waits() {
    let mut reg = EventRegistry::new();
    spawn_render_thread(&mut reg, true);
    // rendererRunningEvent is manual-reset and starts fired: every waiter
    // sees it.
    assert!(wait_event(&mut reg, "rendererRunningEvent", 0));
    assert!(wait_event(&mut reg, "rendererRunningEvent", 0));
    // renderPausedEvent is auto-reset and starts clear: a bounded wait with
    // nobody sending reports that it never fired.
    assert!(!wait_event(&mut reg, "renderPausedEvent", 0));
}
