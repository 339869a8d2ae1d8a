//! The process-wide table of named rendezvous signals.

use vstd::prelude::*;

use crate::signal::Signal;

verus! {

/// What a registry scan finds for `name` in `entries`: the signal of the
/// most recently added entry carrying that name, if any.  Scanning from the
/// newest entry backwards makes re-registering a name shadow the prior
/// entry, which is the required overwrite-on-create behaviour.
spec fn lookup_entries(entries: Seq<(String, Signal<()>)>, name: Seq<char>) -> Option<Signal<()>>
    decreases entries.len(),
{
    if entries.len() == 0 {
        None
    } else if entries.last().0@ == name {
        Some(entries.last().1)
    } else {
        lookup_entries(entries.drop_last(), name)
    }
}

/// A name that appears nowhere in `entries` is not found.
proof fn lemma_lookup_none(entries: Seq<(String, Signal<()>)>, name: Seq<char>)
    requires
        forall|j: int| 0 <= j < entries.len() ==> entries[j].0@ != name,
    ensures
        lookup_entries(entries, name) is None,
    decreases entries.len(),
{
    if entries.len() > 0 {
        lemma_lookup_none(entries.drop_last(), name);
    }
}

/// If index `i` holds the newest entry named `entries[i].0@`, the scan finds
/// exactly that entry.
proof fn lemma_lookup_at_last_match(entries: Seq<(String, Signal<()>)>, i: int)
    requires
        0 <= i < entries.len(),
        forall|j: int| i < j < entries.len() ==> entries[j].0@ != entries[i].0@,
    ensures
        lookup_entries(entries, entries[i].0@) == Some(entries[i].1),
    decreases entries.len(),
{
    if i == entries.len() - 1 {
        assert(entries.last() == entries[i]);
    } else {
        assert(entries.last().0@ != entries[i].0@);
        assert(entries.drop_last()[i] == entries[i]);
        lemma_lookup_at_last_match(entries.drop_last(), i);
    }
}

/// Replacing the signal of the newest entry named `entries[i].0@` changes
/// what the scan finds for that name and for no other name.
proof fn lemma_lookup_update_last_match(
    entries: Seq<(String, Signal<()>)>,
    i: int,
    v: Signal<()>,
)
    requires
        0 <= i < entries.len(),
        forall|j: int| i < j < entries.len() ==> entries[j].0@ != entries[i].0@,
        entries[i].0@ == entries.update(i, (entries[i].0, v))[i].0@,
    ensures
        lookup_entries(entries.update(i, (entries[i].0, v)), entries[i].0@) == Some(v),
        forall|other: Seq<char>| other != entries[i].0@ ==> lookup_entries(
            entries.update(i, (entries[i].0, v)),
            other,
        ) == lookup_entries(entries, other),
    decreases entries.len(),
{
    let updated = entries.update(i, (entries[i].0, v));
    let k = entries[i].0@;
    if i == entries.len() - 1 {
        assert(updated.last() == (entries[i].0, v));
        assert(updated.drop_last() =~= entries.drop_last());
        assert(entries.last() == entries[i]);
        assert forall|other: Seq<char>| other != k implies lookup_entries(updated, other)
            == lookup_entries(entries, other) by {
            assert(lookup_entries(updated, other) == lookup_entries(updated.drop_last(), other));
            assert(lookup_entries(entries, other) == lookup_entries(entries.drop_last(), other));
        }
    } else {
        assert(updated.last() == entries.last());
        assert(entries.last().0@ != k);
        assert(updated.drop_last() =~= entries.drop_last().update(i, (entries[i].0, v)));
        assert(entries.drop_last()[i] == entries[i]);
        lemma_lookup_update_last_match(entries.drop_last(), i, v);
        assert(lookup_entries(updated, k) == lookup_entries(updated.drop_last(), k));
        assert forall|other: Seq<char>| other != k implies lookup_entries(updated, other)
            == lookup_entries(entries, other) by {
            if entries.last().0@ == other {
                assert(lookup_entries(updated, other) == Some(updated.last().1));
                assert(lookup_entries(entries, other) == Some(entries.last().1));
            } else {
                assert(lookup_entries(updated, other) == lookup_entries(
                    updated.drop_last(),
                    other,
                ));
                assert(lookup_entries(entries, other) == lookup_entries(
                    entries.drop_last(),
                    other,
                ));
            }
        }
    }
}

/// The process-wide, string-keyed table of rendezvous signals.
///
/// Unrelated subsystems meet at named signals without plumbing typed
/// references to each other.  Entries are created at subsystem startup,
/// queried and waited on for the rest of the process's life, and never
/// individually removed; creating a name again shadows the prior entry.
/// Looking up a name that was never created is a usage error — a bug in the
/// caller, not a runtime condition — so [`query_event`] and [`wait_event`]
/// require the name to be registered, [`event_registered`] gives callers the
/// test, and the unverified shell turns a failed test into a fatal abort
/// with a descriptive message rather than a silent `false`.
pub struct EventRegistry {
    entries: Vec<(String, Signal<()>)>,
}

impl EventRegistry {
    /// The signal registered under `name`, if any.
    pub closed spec fn spec_lookup(self, name: Seq<char>) -> Option<Signal<()>> {
        lookup_entries(self.entries@, name)
    }

    /// Whether `name` is registered.
    pub open spec fn contains_event(self, name: Seq<char>) -> bool {
        self.spec_lookup(name) is Some
    }

    /// The signal registered under `name` (meaningful only when
    /// [`EventRegistry::contains_event`] holds).
    pub open spec fn event_at(self, name: Seq<char>) -> Signal<()> {
        self.spec_lookup(name)->0
    }

    /// An empty registry: no name is registered.
    pub fn new() -> (reg: EventRegistry)
        ensures
            forall|name: Seq<char>| !reg.contains_event(name),
    {
        let reg = EventRegistry { entries: Vec::new() };
        proof {
            assert forall|name: Seq<char>| !reg.contains_event(name) by {
                assert(lookup_entries(reg.entries@, name) is None);
            }
        }
        reg
    }

    /// The index of the newest entry named `name`, if any.
    fn find_index(&self, name: &str) -> (r: Option<usize>)
        ensures
            match r {
                Some(i) => {
                    &&& i < self.entries@.len()
                    &&& self.entries@[i as int].0@ == name@
                    &&& forall|j: int|
                        i < j < self.entries@.len() ==> self.entries@[j].0@ != name@
                },
                None => forall|j: int| 0 <= j < self.entries@.len() ==> self.entries@[j].0@ != name@,
            },
    {
        let key: String = name.to_owned();
        let mut i: usize = self.entries.len();
        while i > 0
            invariant
                i <= self.entries@.len(),
                key@ == name@,
                forall|j: int| i <= j < self.entries@.len() ==> self.entries@[j].0@ != name@,
            decreases i,
        {
            i = i - 1;
            if self.entries[i].0 == key {
                return Some(i);
            }
        }
        None
    }
}

/// Registers a new unit signal under `name` with the given reset mode; when
/// `initial_state` is set the signal is created already fired, as if one
/// `send` had happened immediately.  A `name` that already exists is
/// shadowed whole (no merge) — callers are responsible for not
/// re-registering.
pub fn create_event(reg: &mut EventRegistry, manual_reset: bool, initial_state: bool, name: &str)
    ensures
        final(reg).contains_event(name@),
        final(reg).event_at(name@) == (Signal {
            signaled: initial_state,
            manual_reset,
            payload: (),
        }),
        forall|other: Seq<char>| other != name@ ==> final(reg).spec_lookup(other) == old(
            reg,
        ).spec_lookup(other),
{
    let mut sig: Signal<()> = Signal::new((), false, manual_reset);
    if initial_state {
        sig.send(());
    } else {
        sig.send_cleared(());
    }
    let ghost s0 = reg.entries@;
    let ghost pushed = sig;
    reg.entries.push((name.to_owned(), sig));
    proof {
        let s1 = reg.entries@;
        assert(s1.last().0@ == name@);
        assert(s1.last().1 == pushed);
        assert(s1.drop_last() =~= s0);
        assert(lookup_entries(s1, name@) == Some(pushed));
        assert forall|other: Seq<char>| other != name@ implies lookup_entries(s1, other)
            == lookup_entries(s0, other) by {
            assert(lookup_entries(s1, other) == lookup_entries(s1.drop_last(), other));
        }
    }
}

/// Whether `name` is registered; the test the shell makes before touching a
/// named signal, turning a missing name into a fatal abort.
pub fn event_registered(reg: &EventRegistry, name: &str) -> (r: bool)
    ensures
        r == reg.contains_event(name@),
{
    match reg.find_index(name) {
        Some(i) => {
            proof {
                lemma_lookup_at_last_match(reg.entries@, i as int);
            }
            true
        },
        None => {
            proof {
                lemma_lookup_none(reg.entries@, name@);
            }
            false
        },
    }
}

/// A zero-timeout poll of the named signal: reports whether it is currently
/// fired, without consuming it.  Calling with an unregistered name is a
/// usage error, excluded by precondition.
pub fn query_event(reg: &EventRegistry, name: &str) -> (r: bool)
    requires
        reg.contains_event(name@),
    ensures
        r == reg.event_at(name@).signaled,
{
    match reg.find_index(name) {
        Some(i) => {
            proof {
                lemma_lookup_at_last_match(reg.entries@, i as int);
            }
            reg.entries[i].1.signaled
        },
        None => {
            proof {
                lemma_lookup_none(reg.entries@, name@);
            }
            unreached()
        },
    }
}

/// The completing step of a bounded wait on the named signal: reports
/// whether the signal had fired, consuming it (if auto-reset) in the same
/// transition.  The suspension up to `timeout_ms` milliseconds happens in
/// the unverified shell before this step runs; the shell treats the maximum
/// `usize` value as the unbounded-wait sentinel.
fn wait_for_event_timeout(reg: &mut EventRegistry, name: &str, timeout_ms: usize) -> (fired: bool)
    requires
        old(reg).contains_event(name@),
    ensures
        fired == old(reg).event_at(name@).signaled,
        final(reg).contains_event(name@),
        final(reg).event_at(name@) == old(reg).event_at(name@).spec_try_acknowledge().0,
        forall|other: Seq<char>| other != name@ ==> final(reg).spec_lookup(other) == old(
            reg,
        ).spec_lookup(other),
{
    let ghost s0 = reg.entries@;
    match reg.find_index(name) {
        Some(i) => {
            proof {
                lemma_lookup_at_last_match(s0, i as int);
            }
            let entry = &mut reg.entries[i];
            let fired = entry.1.signaled;
            let _ = entry.1.acknowledge_timeout(timeout_ms);
            proof {
                let s1 = reg.entries@;
                assert(s1 =~= s0.update(i as int, (s0[i as int].0, s1[i as int].1)));
                lemma_lookup_update_last_match(s0, i as int, s1[i as int].1);
            }
            fired
        },
        None => {
            proof {
                lemma_lookup_none(s0, name@);
            }
            unreached()
        },
    }
}

/// Blocks up to `timeout_ms` milliseconds (the maximum `usize` value is the
/// unbounded-wait sentinel) for the named signal and reports whether it
/// fired, consuming an auto-reset signal that did.  The blocking itself is
/// the shell's; this is the state transition it completes with.  Calling
/// with an unregistered name is a usage error, excluded by precondition.
pub fn wait_event(reg: &mut EventRegistry, name: &str, timeout_ms: usize) -> (fired: bool)
    requires
        old(reg).contains_event(name@),
    ensures
        fired == old(reg).event_at(name@).signaled,
        final(reg).contains_event(name@),
        final(reg).event_at(name@) == old(reg).event_at(name@).spec_try_acknowledge().0,
        forall|other: Seq<char>| other != name@ ==> final(reg).spec_lookup(other) == old(
            reg,
        ).spec_lookup(other),
{
    wait_for_event_timeout(reg, name, timeout_ms)
}

/// The seventeen render-thread signal names are pairwise distinct, so a
/// fact established about one of them survives the registration of the
/// others.  Each pair is told apart by its first differing character, or by
/// length where one name is a prefix of the other.
proof fn lemma_render_event_names_distinct()
    ensures
        "renderPausedEvent"@ != "renderCompletedEvent"@,
        "renderPausedEvent"@ != "resourcesFlushedEvent"@,
        "renderPausedEvent"@ != "resourcesQueuedEvent"@,
        "renderPausedEvent"@ != "rendererRunningEvent"@,
        "renderPausedEvent"@ != "backendEvent"@,
        "renderPausedEvent"@ != "backendEvent1"@,
        "renderPausedEvent"@ != "updateSpotLightEffectEvent"@,
        "renderPausedEvent"@ != "updateEffectsEvent"@,
        "renderPausedEvent"@ != "deviceOKEvent"@,
        "renderPausedEvent"@ != "deviceHardStartEvent"@,
        "renderPausedEvent"@ != "renderShutdownEvent"@,
        "renderPausedEvent"@ != "deviceMessageEvent"@,
        "renderPausedEvent"@ != "osQuitEvent"@,
        "renderPausedEvent"@ != "osScriptDebuggerDrawEvent"@,
        "renderPausedEvent"@ != "rgRegisteredEvent"@,
        "renderPausedEvent"@ != "renderEvent"@,
        "renderCompletedEvent"@ != "resourcesFlushedEvent"@,
        "renderCompletedEvent"@ != "resourcesQueuedEvent"@,
        "renderCompletedEvent"@ != "rendererRunningEvent"@,
        "renderCompletedEvent"@ != "backendEvent"@,
        "renderCompletedEvent"@ != "backendEvent1"@,
        "renderCompletedEvent"@ != "updateSpotLightEffectEvent"@,
        "renderCompletedEvent"@ != "updateEffectsEvent"@,
        "renderCompletedEvent"@ != "deviceOKEvent"@,
        "renderCompletedEvent"@ != "deviceHardStartEvent"@,
        "renderCompletedEvent"@ != "renderShutdownEvent"@,
        "renderCompletedEvent"@ != "deviceMessageEvent"@,
        "renderCompletedEvent"@ != "osQuitEvent"@,
        "renderCompletedEvent"@ != "osScriptDebuggerDrawEvent"@,
        "renderCompletedEvent"@ != "rgRegisteredEvent"@,
        "renderCompletedEvent"@ != "renderEvent"@,
        "resourcesFlushedEvent"@ != "resourcesQueuedEvent"@,
        "resourcesFlushedEvent"@ != "rendererRunningEvent"@,
        "resourcesFlushedEvent"@ != "backendEvent"@,
        "resourcesFlushedEvent"@ != "backendEvent1"@,
        "resourcesFlushedEvent"@ != "updateSpotLightEffectEvent"@,
        "resourcesFlushedEvent"@ != "updateEffectsEvent"@,
        "resourcesFlushedEvent"@ != "deviceOKEvent"@,
        "resourcesFlushedEvent"@ != "deviceHardStartEvent"@,
        "resourcesFlushedEvent"@ != "renderShutdownEvent"@,
        "resourcesFlushedEvent"@ != "deviceMessageEvent"@,
        "resourcesFlushedEvent"@ != "osQuitEvent"@,
        "resourcesFlushedEvent"@ != "osScriptDebuggerDrawEvent"@,
        "resourcesFlushedEvent"@ != "rgRegisteredEvent"@,
        "resourcesFlushedEvent"@ != "renderEvent"@,
        "resourcesQueuedEvent"@ != "rendererRunningEvent"@,
        "resourcesQueuedEvent"@ != "backendEvent"@,
        "resourcesQueuedEvent"@ != "backendEvent1"@,
        "resourcesQueuedEvent"@ != "updateSpotLightEffectEvent"@,
        "resourcesQueuedEvent"@ != "updateEffectsEvent"@,
        "resourcesQueuedEvent"@ != "deviceOKEvent"@,
        "resourcesQueuedEvent"@ != "deviceHardStartEvent"@,
        "resourcesQueuedEvent"@ != "renderShutdownEvent"@,
        "resourcesQueuedEvent"@ != "deviceMessageEvent"@,
        "resourcesQueuedEvent"@ != "osQuitEvent"@,
        "resourcesQueuedEvent"@ != "osScriptDebuggerDrawEvent"@,
        "resourcesQueuedEvent"@ != "rgRegisteredEvent"@,
        "resourcesQueuedEvent"@ != "renderEvent"@,
        "rendererRunningEvent"@ != "backendEvent"@,
        "rendererRunningEvent"@ != "backendEvent1"@,
        "rendererRunningEvent"@ != "updateSpotLightEffectEvent"@,
        "rendererRunningEvent"@ != "updateEffectsEvent"@,
        "rendererRunningEvent"@ != "deviceOKEvent"@,
        "rendererRunningEvent"@ != "deviceHardStartEvent"@,
        "rendererRunningEvent"@ != "renderShutdownEvent"@,
        "rendererRunningEvent"@ != "deviceMessageEvent"@,
        "rendererRunningEvent"@ != "osQuitEvent"@,
        "rendererRunningEvent"@ != "osScriptDebuggerDrawEvent"@,
        "rendererRunningEvent"@ != "rgRegisteredEvent"@,
        "rendererRunningEvent"@ != "renderEvent"@,
        "backendEvent"@ != "backendEvent1"@,
        "backendEvent"@ != "updateSpotLightEffectEvent"@,
        "backendEvent"@ != "updateEffectsEvent"@,
        "backendEvent"@ != "deviceOKEvent"@,
        "backendEvent"@ != "deviceHardStartEvent"@,
        "backendEvent"@ != "renderShutdownEvent"@,
        "backendEvent"@ != "deviceMessageEvent"@,
        "backendEvent"@ != "osQuitEvent"@,
        "backendEvent"@ != "osScriptDebuggerDrawEvent"@,
        "backendEvent"@ != "rgRegisteredEvent"@,
        "backendEvent"@ != "renderEvent"@,
        "backendEvent1"@ != "updateSpotLightEffectEvent"@,
        "backendEvent1"@ != "updateEffectsEvent"@,
        "backendEvent1"@ != "deviceOKEvent"@,
        "backendEvent1"@ != "deviceHardStartEvent"@,
        "backendEvent1"@ != "renderShutdownEvent"@,
        "backendEvent1"@ != "deviceMessageEvent"@,
        "backendEvent1"@ != "osQuitEvent"@,
        "backendEvent1"@ != "osScriptDebuggerDrawEvent"@,
        "backendEvent1"@ != "rgRegisteredEvent"@,
        "backendEvent1"@ != "renderEvent"@,
        "updateSpotLightEffectEvent"@ != "updateEffectsEvent"@,
        "updateSpotLightEffectEvent"@ != "deviceOKEvent"@,
        "updateSpotLightEffectEvent"@ != "deviceHardStartEvent"@,
        "updateSpotLightEffectEvent"@ != "renderShutdownEvent"@,
        "updateSpotLightEffectEvent"@ != "deviceMessageEvent"@,
        "updateSpotLightEffectEvent"@ != "osQuitEvent"@,
        "updateSpotLightEffectEvent"@ != "osScriptDebuggerDrawEvent"@,
        "updateSpotLightEffectEvent"@ != "rgRegisteredEvent"@,
        "updateSpotLightEffectEvent"@ != "renderEvent"@,
        "updateEffectsEvent"@ != "deviceOKEvent"@,
        "updateEffectsEvent"@ != "deviceHardStartEvent"@,
        "updateEffectsEvent"@ != "renderShutdownEvent"@,
        "updateEffectsEvent"@ != "deviceMessageEvent"@,
        "updateEffectsEvent"@ != "osQuitEvent"@,
        "updateEffectsEvent"@ != "osScriptDebuggerDrawEvent"@,
        "updateEffectsEvent"@ != "rgRegisteredEvent"@,
        "updateEffectsEvent"@ != "renderEvent"@,
        "deviceOKEvent"@ != "deviceHardStartEvent"@,
        "deviceOKEvent"@ != "renderShutdownEvent"@,
        "deviceOKEvent"@ != "deviceMessageEvent"@,
        "deviceOKEvent"@ != "osQuitEvent"@,
        "deviceOKEvent"@ != "osScriptDebuggerDrawEvent"@,
        "deviceOKEvent"@ != "rgRegisteredEvent"@,
        "deviceOKEvent"@ != "renderEvent"@,
        "deviceHardStartEvent"@ != "renderShutdownEvent"@,
        "deviceHardStartEvent"@ != "deviceMessageEvent"@,
        "deviceHardStartEvent"@ != "osQuitEvent"@,
        "deviceHardStartEvent"@ != "osScriptDebuggerDrawEvent"@,
        "deviceHardStartEvent"@ != "rgRegisteredEvent"@,
        "deviceHardStartEvent"@ != "renderEvent"@,
        "renderShutdownEvent"@ != "deviceMessageEvent"@,
        "renderShutdownEvent"@ != "osQuitEvent"@,
        "renderShutdownEvent"@ != "osScriptDebuggerDrawEvent"@,
        "renderShutdownEvent"@ != "rgRegisteredEvent"@,
        "renderShutdownEvent"@ != "renderEvent"@,
        "deviceMessageEvent"@ != "osQuitEvent"@,
        "deviceMessageEvent"@ != "osScriptDebuggerDrawEvent"@,
        "deviceMessageEvent"@ != "rgRegisteredEvent"@,
        "deviceMessageEvent"@ != "renderEvent"@,
        "osQuitEvent"@ != "osScriptDebuggerDrawEvent"@,
        "osQuitEvent"@ != "rgRegisteredEvent"@,
        "osQuitEvent"@ != "renderEvent"@,
        "osScriptDebuggerDrawEvent"@ != "rgRegisteredEvent"@,
        "osScriptDebuggerDrawEvent"@ != "renderEvent"@,
        "rgRegisteredEvent"@ != "renderEvent"@,
{
    reveal_strlit("renderPausedEvent");
    reveal_strlit("renderCompletedEvent");
    reveal_strlit("resourcesFlushedEvent");
    reveal_strlit("resourcesQueuedEvent");
    reveal_strlit("rendererRunningEvent");
    reveal_strlit("backendEvent");
    reveal_strlit("backendEvent1");
    reveal_strlit("updateSpotLightEffectEvent");
    reveal_strlit("updateEffectsEvent");
    reveal_strlit("deviceOKEvent");
    reveal_strlit("deviceHardStartEvent");
    reveal_strlit("renderShutdownEvent");
    reveal_strlit("deviceMessageEvent");
    reveal_strlit("osQuitEvent");
    reveal_strlit("osScriptDebuggerDrawEvent");
    reveal_strlit("rgRegisteredEvent");
    reveal_strlit("renderEvent");
    assert("renderPausedEvent"@[6] != "renderCompletedEvent"@[6]);
    assert("renderPausedEvent"@[2] != "resourcesFlushedEvent"@[2]);
    assert("renderPausedEvent"@[2] != "resourcesQueuedEvent"@[2]);
    assert("renderPausedEvent"@[6] != "rendererRunningEvent"@[6]);
    assert("renderPausedEvent"@[0] != "backendEvent"@[0]);
    assert("renderPausedEvent"@[0] != "backendEvent1"@[0]);
    assert("renderPausedEvent"@[0] != "updateSpotLightEffectEvent"@[0]);
    assert("renderPausedEvent"@[0] != "updateEffectsEvent"@[0]);
    assert("renderPausedEvent"@[0] != "deviceOKEvent"@[0]);
    assert("renderPausedEvent"@[0] != "deviceHardStartEvent"@[0]);
    assert("renderPausedEvent"@[6] != "renderShutdownEvent"@[6]);
    assert("renderPausedEvent"@[0] != "deviceMessageEvent"@[0]);
    assert("renderPausedEvent"@[0] != "osQuitEvent"@[0]);
    assert("renderPausedEvent"@[0] != "osScriptDebuggerDrawEvent"@[0]);
    assert("renderPausedEvent"@[1] != "rgRegisteredEvent"@[1]);
    assert("renderPausedEvent"@[6] != "renderEvent"@[6]);
    assert("renderCompletedEvent"@[2] != "resourcesFlushedEvent"@[2]);
    assert("renderCompletedEvent"@[2] != "resourcesQueuedEvent"@[2]);
    assert("renderCompletedEvent"@[6] != "rendererRunningEvent"@[6]);
    assert("renderCompletedEvent"@[0] != "backendEvent"@[0]);
    assert("renderCompletedEvent"@[0] != "backendEvent1"@[0]);
    assert("renderCompletedEvent"@[0] != "updateSpotLightEffectEvent"@[0]);
    assert("renderCompletedEvent"@[0] != "updateEffectsEvent"@[0]);
    assert("renderCompletedEvent"@[0] != "deviceOKEvent"@[0]);
    assert("renderCompletedEvent"@[0] != "deviceHardStartEvent"@[0]);
    assert("renderCompletedEvent"@[6] != "renderShutdownEvent"@[6]);
    assert("renderCompletedEvent"@[0] != "deviceMessageEvent"@[0]);
    assert("renderCompletedEvent"@[0] != "osQuitEvent"@[0]);
    assert("renderCompletedEvent"@[0] != "osScriptDebuggerDrawEvent"@[0]);
    assert("renderCompletedEvent"@[1] != "rgRegisteredEvent"@[1]);
    assert("renderCompletedEvent"@[6] != "renderEvent"@[6]);
    assert("resourcesFlushedEvent"@[9] != "resourcesQueuedEvent"@[9]);
    assert("resourcesFlushedEvent"@[2] != "rendererRunningEvent"@[2]);
    assert("resourcesFlushedEvent"@[0] != "backendEvent"@[0]);
    assert("resourcesFlushedEvent"@[0] != "backendEvent1"@[0]);
    assert("resourcesFlushedEvent"@[0] != "updateSpotLightEffectEvent"@[0]);
    assert("resourcesFlushedEvent"@[0] != "updateEffectsEvent"@[0]);
    assert("resourcesFlushedEvent"@[0] != "deviceOKEvent"@[0]);
    assert("resourcesFlushedEvent"@[0] != "deviceHardStartEvent"@[0]);
    assert("resourcesFlushedEvent"@[2] != "renderShutdownEvent"@[2]);
    assert("resourcesFlushedEvent"@[0] != "deviceMessageEvent"@[0]);
    assert("resourcesFlushedEvent"@[0] != "osQuitEvent"@[0]);
    assert("resourcesFlushedEvent"@[0] != "osScriptDebuggerDrawEvent"@[0]);
    assert("resourcesFlushedEvent"@[1] != "rgRegisteredEvent"@[1]);
    assert("resourcesFlushedEvent"@[2] != "renderEvent"@[2]);
    assert("resourcesQueuedEvent"@[2] != "rendererRunningEvent"@[2]);
    assert("resourcesQueuedEvent"@[0] != "backendEvent"@[0]);
    assert("resourcesQueuedEvent"@[0] != "backendEvent1"@[0]);
    assert("resourcesQueuedEvent"@[0] != "updateSpotLightEffectEvent"@[0]);
    assert("resourcesQueuedEvent"@[0] != "updateEffectsEvent"@[0]);
    assert("resourcesQueuedEvent"@[0] != "deviceOKEvent"@[0]);
    assert("resourcesQueuedEvent"@[0] != "deviceHardStartEvent"@[0]);
    assert("resourcesQueuedEvent"@[2] != "renderShutdownEvent"@[2]);
    assert("resourcesQueuedEvent"@[0] != "deviceMessageEvent"@[0]);
    assert("resourcesQueuedEvent"@[0] != "osQuitEvent"@[0]);
    assert("resourcesQueuedEvent"@[0] != "osScriptDebuggerDrawEvent"@[0]);
    assert("resourcesQueuedEvent"@[1] != "rgRegisteredEvent"@[1]);
    assert("resourcesQueuedEvent"@[2] != "renderEvent"@[2]);
    assert("rendererRunningEvent"@[0] != "backendEvent"@[0]);
    assert("rendererRunningEvent"@[0] != "backendEvent1"@[0]);
    assert("rendererRunningEvent"@[0] != "updateSpotLightEffectEvent"@[0]);
    assert("rendererRunningEvent"@[0] != "updateEffectsEvent"@[0]);
    assert("rendererRunningEvent"@[0] != "deviceOKEvent"@[0]);
    assert("rendererRunningEvent"@[0] != "deviceHardStartEvent"@[0]);
    assert("rendererRunningEvent"@[6] != "renderShutdownEvent"@[6]);
    assert("rendererRunningEvent"@[0] != "deviceMessageEvent"@[0]);
    assert("rendererRunningEvent"@[0] != "osQuitEvent"@[0]);
    assert("rendererRunningEvent"@[0] != "osScriptDebuggerDrawEvent"@[0]);
    assert("rendererRunningEvent"@[1] != "rgRegisteredEvent"@[1]);
    assert("rendererRunningEvent"@[6] != "renderEvent"@[6]);
    assert("backendEvent"@.len() != "backendEvent1"@.len());
    assert("backendEvent"@[0] != "updateSpotLightEffectEvent"@[0]);
    assert("backendEvent"@[0] != "updateEffectsEvent"@[0]);
    assert("backendEvent"@[0] != "deviceOKEvent"@[0]);
    assert("backendEvent"@[0] != "deviceHardStartEvent"@[0]);
    assert("backendEvent"@[0] != "renderShutdownEvent"@[0]);
    assert("backendEvent"@[0] != "deviceMessageEvent"@[0]);
    assert("backendEvent"@[0] != "osQuitEvent"@[0]);
    assert("backendEvent"@[0] != "osScriptDebuggerDrawEvent"@[0]);
    assert("backendEvent"@[0] != "rgRegisteredEvent"@[0]);
    assert("backendEvent"@[0] != "renderEvent"@[0]);
    assert("backendEvent1"@[0] != "updateSpotLightEffectEvent"@[0]);
    assert("backendEvent1"@[0] != "updateEffectsEvent"@[0]);
    assert("backendEvent1"@[0] != "deviceOKEvent"@[0]);
    assert("backendEvent1"@[0] != "deviceHardStartEvent"@[0]);
    assert("backendEvent1"@[0] != "renderShutdownEvent"@[0]);
    assert("backendEvent1"@[0] != "deviceMessageEvent"@[0]);
    assert("backendEvent1"@[0] != "osQuitEvent"@[0]);
    assert("backendEvent1"@[0] != "osScriptDebuggerDrawEvent"@[0]);
    assert("backendEvent1"@[0] != "rgRegisteredEvent"@[0]);
    assert("backendEvent1"@[0] != "renderEvent"@[0]);
    assert("updateSpotLightEffectEvent"@[6] != "updateEffectsEvent"@[6]);
    assert("updateSpotLightEffectEvent"@[0] != "deviceOKEvent"@[0]);
    assert("updateSpotLightEffectEvent"@[0] != "deviceHardStartEvent"@[0]);
    assert("updateSpotLightEffectEvent"@[0] != "renderShutdownEvent"@[0]);
    assert("updateSpotLightEffectEvent"@[0] != "deviceMessageEvent"@[0]);
    assert("updateSpotLightEffectEvent"@[0] != "osQuitEvent"@[0]);
    assert("updateSpotLightEffectEvent"@[0] != "osScriptDebuggerDrawEvent"@[0]);
    assert("updateSpotLightEffectEvent"@[0] != "rgRegisteredEvent"@[0]);
    assert("updateSpotLightEffectEvent"@[0] != "renderEvent"@[0]);
    assert("updateEffectsEvent"@[0] != "deviceOKEvent"@[0]);
    assert("updateEffectsEvent"@[0] != "deviceHardStartEvent"@[0]);
    assert("updateEffectsEvent"@[0] != "renderShutdownEvent"@[0]);
    assert("updateEffectsEvent"@[0] != "deviceMessageEvent"@[0]);
    assert("updateEffectsEvent"@[0] != "osQuitEvent"@[0]);
    assert("updateEffectsEvent"@[0] != "osScriptDebuggerDrawEvent"@[0]);
    assert("updateEffectsEvent"@[0] != "rgRegisteredEvent"@[0]);
    assert("updateEffectsEvent"@[0] != "renderEvent"@[0]);
    assert("deviceOKEvent"@[6] != "deviceHardStartEvent"@[6]);
    assert("deviceOKEvent"@[0] != "renderShutdownEvent"@[0]);
    assert("deviceOKEvent"@[6] != "deviceMessageEvent"@[6]);
    assert("deviceOKEvent"@[0] != "osQuitEvent"@[0]);
    assert("deviceOKEvent"@[0] != "osScriptDebuggerDrawEvent"@[0]);
    assert("deviceOKEvent"@[0] != "rgRegisteredEvent"@[0]);
    assert("deviceOKEvent"@[0] != "renderEvent"@[0]);
    assert("deviceHardStartEvent"@[0] != "renderShutdownEvent"@[0]);
    assert("deviceHardStartEvent"@[6] != "deviceMessageEvent"@[6]);
    assert("deviceHardStartEvent"@[0] != "osQuitEvent"@[0]);
    assert("deviceHardStartEvent"@[0] != "osScriptDebuggerDrawEvent"@[0]);
    assert("deviceHardStartEvent"@[0] != "rgRegisteredEvent"@[0]);
    assert("deviceHardStartEvent"@[0] != "renderEvent"@[0]);
    assert("renderShutdownEvent"@[0] != "deviceMessageEvent"@[0]);
    assert("renderShutdownEvent"@[0] != "osQuitEvent"@[0]);
    assert("renderShutdownEvent"@[0] != "osScriptDebuggerDrawEvent"@[0]);
    assert("renderShutdownEvent"@[1] != "rgRegisteredEvent"@[1]);
    assert("renderShutdownEvent"@[6] != "renderEvent"@[6]);
    assert("deviceMessageEvent"@[0] != "osQuitEvent"@[0]);
    assert("deviceMessageEvent"@[0] != "osScriptDebuggerDrawEvent"@[0]);
    assert("deviceMessageEvent"@[0] != "rgRegisteredEvent"@[0]);
    assert("deviceMessageEvent"@[0] != "renderEvent"@[0]);
    assert("osQuitEvent"@[2] != "osScriptDebuggerDrawEvent"@[2]);
    assert("osQuitEvent"@[0] != "rgRegisteredEvent"@[0]);
    assert("osQuitEvent"@[0] != "renderEvent"@[0]);
    assert("osScriptDebuggerDrawEvent"@[0] != "rgRegisteredEvent"@[0]);
    assert("osScriptDebuggerDrawEvent"@[0] != "renderEvent"@[0]);
    assert("rgRegisteredEvent"@[1] != "renderEvent"@[1]);
}

/// Registers the rendezvous signals of the render backend thread and
/// reports whether that thread could be started.  The OS spawn itself is the
/// unverified shell's step: the shell parks the new thread, calls this
/// function with the spawn's outcome, and unparks the thread only on
/// success, so the signals exist before the backend runs.
///
/// The reset mode of each signal is a deliberate choice: the pulse-like
/// pairings (`renderPausedEvent`, `backendEvent1`) are auto-reset so exactly
/// one waiter consumes each pulse, while the level-like conditions (device
/// and renderer lifecycle states, resource states) are manual-reset so every
/// interested subsystem observes them until they are explicitly cleared.
pub fn spawn_render_thread(reg: &mut EventRegistry, thread_spawned: bool) -> (r: bool)
    ensures
        r == thread_spawned,
        final(reg).contains_event("renderPausedEvent"@),
        final(reg).event_at("renderPausedEvent"@) == (Signal {
            signaled: false,
            manual_reset: false,
            payload: (),
        }),
        final(reg).contains_event("renderCompletedEvent"@),
        final(reg).event_at("renderCompletedEvent"@) == (Signal {
            signaled: true,
            manual_reset: true,
            payload: (),
        }),
        final(reg).contains_event("resourcesFlushedEvent"@),
        final(reg).event_at("resourcesFlushedEvent"@) == (Signal {
            signaled: false,
            manual_reset: true,
            payload: (),
        }),
        final(reg).contains_event("resourcesQueuedEvent"@),
        final(reg).event_at("resourcesQueuedEvent"@) == (Signal {
            signaled: false,
            manual_reset: true,
            payload: (),
        }),
        final(reg).contains_event("rendererRunningEvent"@),
        final(reg).event_at("rendererRunningEvent"@) == (Signal {
            signaled: true,
            manual_reset: true,
            payload: (),
        }),
        final(reg).contains_event("backendEvent"@),
        final(reg).event_at("backendEvent"@) == (Signal {
            signaled: false,
            manual_reset: true,
            payload: (),
        }),
        final(reg).contains_event("backendEvent1"@),
        final(reg).event_at("backendEvent1"@) == (Signal {
            signaled: false,
            manual_reset: false,
            payload: (),
        }),
        final(reg).contains_event("updateSpotLightEffectEvent"@),
        final(reg).event_at("updateSpotLightEffectEvent"@) == (Signal {
            signaled: true,
            manual_reset: true,
            payload: (),
        }),
        final(reg).contains_event("updateEffectsEvent"@),
        final(reg).event_at("updateEffectsEvent"@) == (Signal {
            signaled: true,
            manual_reset: true,
            payload: (),
        }),
        final(reg).contains_event("deviceOKEvent"@),
        final(reg).event_at("deviceOKEvent"@) == (Signal {
            signaled: true,
            manual_reset: true,
            payload: (),
        }),
        final(reg).contains_event("deviceHardStartEvent"@),
        final(reg).event_at("deviceHardStartEvent"@) == (Signal {
            signaled: false,
            manual_reset: true,
            payload: (),
        }),
        final(reg).contains_event("renderShutdownEvent"@),
        final(reg).event_at("renderShutdownEvent"@) == (Signal {
            signaled: false,
            manual_reset: true,
            payload: (),
        }),
        final(reg).contains_event("deviceMessageEvent"@),
        final(reg).event_at("deviceMessageEvent"@) == (Signal {
            signaled: true,
            manual_reset: true,
            payload: (),
        }),
        final(reg).contains_event("osQuitEvent"@),
        final(reg).event_at("osQuitEvent"@) == (Signal {
            signaled: false,
            manual_reset: true,
            payload: (),
        }),
        final(reg).contains_event("osScriptDebuggerDrawEvent"@),
        final(reg).event_at("osScriptDebuggerDrawEvent"@) == (Signal {
            signaled: false,
            manual_reset: true,
            payload: (),
        }),
        final(reg).contains_event("rgRegisteredEvent"@),
        final(reg).event_at("rgRegisteredEvent"@) == (Signal {
            signaled: false,
            manual_reset: true,
            payload: (),
        }),
        final(reg).contains_event("renderEvent"@),
        final(reg).event_at("renderEvent"@) == (Signal {
            signaled: false,
            manual_reset: true,
            payload: (),
        }),
        forall|other: Seq<char>|
            other != "renderPausedEvent"@ && other != "renderCompletedEvent"@ && other
                != "resourcesFlushedEvent"@ && other != "resourcesQueuedEvent"@ && other
                != "rendererRunningEvent"@ && other != "backendEvent"@ && other
                != "backendEvent1"@ && other != "updateSpotLightEffectEvent"@ && other
                != "updateEffectsEvent"@ && other != "deviceOKEvent"@ && other
                != "deviceHardStartEvent"@ && other != "renderShutdownEvent"@ && other
                != "deviceMessageEvent"@ && other != "osQuitEvent"@ && other
                != "osScriptDebuggerDrawEvent"@ && other != "rgRegisteredEvent"@ && other
                != "renderEvent"@ ==> final(reg).spec_lookup(other) == old(reg).spec_lookup(other),
{
    proof {
        lemma_render_event_names_distinct();
    }
    create_event(reg, false, false, "renderPausedEvent");
    create_event(reg, true, true, "renderCompletedEvent");
    create_event(reg, true, false, "resourcesFlushedEvent");
    create_event(reg, true, false, "resourcesQueuedEvent");
    create_event(reg, true, true, "rendererRunningEvent");
    create_event(reg, true, false, "backendEvent");
    create_event(reg, false, false, "backendEvent1");
    create_event(reg, true, true, "updateSpotLightEffectEvent");
    create_event(reg, true, true, "updateEffectsEvent");
    create_event(reg, true, true, "deviceOKEvent");
    create_event(reg, true, false, "deviceHardStartEvent");
    create_event(reg, true, false, "renderShutdownEvent");
    create_event(reg, true, true, "deviceMessageEvent");
    create_event(reg, true, false, "osQuitEvent");
    create_event(reg, true, false, "osScriptDebuggerDrawEvent");
    create_event(reg, true, false, "rgRegisteredEvent");
    create_event(reg, true, false, "renderEvent");
    thread_spawned
}

} // verus!
