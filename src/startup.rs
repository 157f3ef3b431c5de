//! The startup sequence as a state machine: load the configuration, open the
//! connection pool, apply the migrations, and only then accept traffic. The
//! caller performs each action and reports what came of it as an event.

use vstd::prelude::*;

verus! {

/// Where startup stands.
#[derive(Clone, Copy, Debug, PartialEq, Eq, Structural)]
pub enum Phase {
    LoadingConfig,
    Connecting,
    Migrating,
    Serving,
    Aborted,
}

/// How applying the migrations went.
#[derive(Clone, Copy, Debug, PartialEq, Eq, Structural)]
pub enum MigrationOutcome {
    /// Pending migrations were applied.
    Applied,
    /// Nothing was pending: every migration had been applied before.
    AlreadyApplied,
    /// A migration could not be applied.
    ApplyFailed,
}

/// What the caller reports back.
#[derive(Clone, Copy, Debug, PartialEq, Eq, Structural)]
pub enum Event {
    /// The configuration was loaded.
    ConfigLoaded,
    /// The configuration is missing or invalid.
    ConfigFailed,
    /// The pool was opened.
    PoolOpened,
    /// The store could not be reached.
    PoolFailed,
    /// The migrations ran.
    Migrated(MigrationOutcome),
}

/// The startup step that failed.
#[derive(Clone, Copy, Debug, PartialEq, Eq, Structural)]
pub enum StartupFailure {
    Config,
    Connection,
    Migration,
    /// An event came that the phase does not expect.
    OutOfOrder,
}

/// What the caller is to do next.
#[derive(Clone, Copy, Debug, PartialEq, Eq, Structural)]
pub enum Action {
    /// Load the configuration.
    LoadConfig,
    /// Open the connection pool.
    OpenPool,
    /// Apply the pending migrations.
    ApplyMigrations,
    /// Bind the listener and serve requests.
    Serve,
    /// Stop without binding a listener.
    Exit(StartupFailure),
    /// Nothing more to do.
    Idle,
}

/// The phase in which startup begins.
pub open spec fn initial_phase() -> Phase {
    Phase::LoadingConfig
}

/// The phase and action that follow `event` in `phase`.
pub open spec fn transition(phase: Phase, event: Event) -> (Phase, Action) {
    match (phase, event) {
        (Phase::LoadingConfig, Event::ConfigLoaded) => (Phase::Connecting, Action::OpenPool),
        (Phase::LoadingConfig, Event::ConfigFailed) => (
            Phase::Aborted,
            Action::Exit(StartupFailure::Config),
        ),
        (Phase::Connecting, Event::PoolOpened) => (Phase::Migrating, Action::ApplyMigrations),
        (Phase::Connecting, Event::PoolFailed) => (
            Phase::Aborted,
            Action::Exit(StartupFailure::Connection),
        ),
        (Phase::Migrating, Event::Migrated(MigrationOutcome::ApplyFailed)) => (
            Phase::Aborted,
            Action::Exit(StartupFailure::Migration),
        ),
        (Phase::Migrating, Event::Migrated(_)) => (Phase::Serving, Action::Serve),
        (Phase::Serving, _) => (Phase::Serving, Action::Idle),
        (Phase::Aborted, _) => (Phase::Aborted, Action::Idle),
        (_, _) => (Phase::Aborted, Action::Exit(StartupFailure::OutOfOrder)),
    }
}

/// The phase reached after the events, one after the other.
pub open spec fn run_phase(phase: Phase, events: Seq<Event>) -> Phase
    decreases events.len(),
{
    if events.len() == 0 {
        phase
    } else {
        run_phase(transition(phase, events[0]).0, events.drop_first())
    }
}

/// The actions asked for along the events, one per event.
pub open spec fn run_actions(phase: Phase, events: Seq<Event>) -> Seq<Action>
    decreases events.len(),
{
    if events.len() == 0 {
        Seq::empty()
    } else {
        let (next, action) = transition(phase, events[0]);
        seq![action].add(run_actions(next, events.drop_first()))
    }
}

/// The first action of startup, before any event.
pub fn start() -> (r: (Phase, Action))
    ensures
        r == (initial_phase(), Action::LoadConfig),
{
    (Phase::LoadingConfig, Action::LoadConfig)
}

/// One step of startup.
pub fn step(phase: Phase, event: Event) -> (r: (Phase, Action))
    ensures
        r == transition(phase, event),
{
    match (phase, event) {
        (Phase::LoadingConfig, Event::ConfigLoaded) => (Phase::Connecting, Action::OpenPool),
        (Phase::LoadingConfig, Event::ConfigFailed) => (
            Phase::Aborted,
            Action::Exit(StartupFailure::Config),
        ),
        (Phase::Connecting, Event::PoolOpened) => (Phase::Migrating, Action::ApplyMigrations),
        (Phase::Connecting, Event::PoolFailed) => (
            Phase::Aborted,
            Action::Exit(StartupFailure::Connection),
        ),
        (Phase::Migrating, Event::Migrated(MigrationOutcome::ApplyFailed)) => (
            Phase::Aborted,
            Action::Exit(StartupFailure::Migration),
        ),
        (Phase::Migrating, Event::Migrated(_)) => (Phase::Serving, Action::Serve),
        (Phase::Serving, _) => (Phase::Serving, Action::Idle),
        (Phase::Aborted, _) => (Phase::Aborted, Action::Idle),
        (_, _) => (Phase::Aborted, Action::Exit(StartupFailure::OutOfOrder)),
    }
}

/// One action per event.
pub proof fn lemma_run_actions_len(phase: Phase, events: Seq<Event>)
    ensures
        run_actions(phase, events).len() == events.len(),
    decreases events.len(),
{
    if events.len() > 0 {
        lemma_run_actions_len(transition(phase, events[0]).0, events.drop_first());
    }
}

/// Once startup has aborted or is serving, it stays where it is and asks for
/// nothing more, whatever events come.
pub proof fn lemma_settled_stays(phase: Phase, events: Seq<Event>)
    requires
        phase == Phase::Aborted || phase == Phase::Serving,
    ensures
        run_phase(phase, events) == phase,
        forall|i: int|
            0 <= i < events.len() ==> #[trigger] run_actions(phase, events)[i] == Action::Idle,
    decreases events.len(),
{
    if events.len() > 0 {
        lemma_settled_stays(phase, events.drop_first());
        lemma_run_actions_len(phase, events.drop_first());
        assert forall|i: int| 0 <= i < events.len() implies #[trigger] run_actions(
            phase,
            events,
        )[i] == Action::Idle by {
            if i > 0 {
                assert(run_actions(phase, events)[i] == run_actions(phase, events.drop_first())[i
                    - 1]);
            }
        }
    }
}

/// A migration outcome that lets startup go on.
pub open spec fn migration_succeeded(outcome: MigrationOutcome) -> bool {
    outcome == MigrationOutcome::Applied || outcome == MigrationOutcome::AlreadyApplied
}

/// Startup asks to serve only as the answer to migrations that succeeded,
/// after the configuration was loaded and the pool was opened, in that
/// order; at no other point does it ask to serve.
pub proof fn lemma_serves_only_after_migration(events: Seq<Event>, i: int)
    requires
        0 <= i < events.len(),
        run_actions(initial_phase(), events)[i] == Action::Serve,
    ensures
        i == 2,
        events[0] == Event::ConfigLoaded,
        events[1] == Event::PoolOpened,
        events[2] matches Event::Migrated(outcome) && migration_succeeded(outcome),
{
    let e1 = events.drop_first();
    let p1 = transition(initial_phase(), events[0]).0;
    lemma_run_actions_len(p1, e1);
    if i > 0 {
        assert(run_actions(initial_phase(), events)[i] == run_actions(p1, e1)[i - 1]);
    }
    if p1 != Phase::Connecting {
        lemma_settled_stays(p1, e1);
    } else {
        let e2 = e1.drop_first();
        let p2 = transition(p1, e1[0]).0;
        lemma_run_actions_len(p2, e2);
        if i > 1 {
            assert(run_actions(p1, e1)[i - 1] == run_actions(p2, e2)[i - 2]);
        }
        if p2 != Phase::Migrating {
            lemma_settled_stays(p2, e2);
        } else {
            let e3 = e2.drop_first();
            let p3 = transition(p2, e2[0]).0;
            lemma_run_actions_len(p3, e3);
            if i > 2 {
                assert(run_actions(p2, e2)[i - 2] == run_actions(p3, e3)[i - 3]);
            }
            lemma_settled_stays(p3, e3);
        }
    }
}

/// Missing configuration: when loading the configuration fails, startup
/// exits with a configuration failure, and whatever events come after, it
/// never asks to bind a listener and serve.
pub proof fn lemma_missing_config_never_serves(later: Seq<Event>)
    ensures
        run_actions(initial_phase(), seq![Event::ConfigFailed] + later)[0] == Action::Exit(
            StartupFailure::Config,
        ),
        run_phase(initial_phase(), seq![Event::ConfigFailed] + later) == Phase::Aborted,
        forall|i: int|
            0 <= i < later.len() + 1 ==> #[trigger] run_actions(
                initial_phase(),
                seq![Event::ConfigFailed] + later,
            )[i] != Action::Serve,
{
    let events = seq![Event::ConfigFailed] + later;
    assert(events.drop_first() =~= later);
    lemma_settled_stays(Phase::Aborted, later);
    lemma_run_actions_len(Phase::Aborted, later);
    assert(transition(initial_phase(), Event::ConfigFailed) == (
        Phase::Aborted,
        Action::Exit(StartupFailure::Config),
    ));
    assert forall|i: int| 0 <= i < later.len() + 1 implies #[trigger] run_actions(
        initial_phase(),
        events,
    )[i] != Action::Serve by {
        if i > 0 {
            assert(run_actions(initial_phase(), events)[i] == run_actions(Phase::Aborted, later)[i
                - 1]);
        }
    }
}

} // verus!
