//! Watch mode: when the daemon runs a cycle.
//!
//! Two things set a cycle off: the timer and an event from the container
//! engine. Both end up here, so that one cycle runs at a time. What arrives
//! while a cycle runs is dropped.

use vstd::prelude::*;
use crate::config::Config;

verus! {

/// Seconds between a failed first cycle and the next attempt.
pub const INITIAL_RETRY_DELAY: u64 = 10;

/// Seconds that a container is given to come up or go down before the
/// cycle that its event set off.
pub const SETTLE_DELAY: u64 = 2;

/// Seconds before the event stream is asked for again after it broke.
pub const RECONNECT_DELAY: u64 = 5;

/// What the daemon is doing.
#[derive(Debug, Clone, Copy, PartialEq, Eq, Structural)]
pub enum WatchPhase {
    /// Waiting for the dashboard to come up.
    Starting,
    /// Connecting to the container engine.
    Connecting,
    /// Running the first cycle.
    InitialSync,
    /// Waiting before the first cycle is tried again.
    InitialRetry,
    /// Waiting for the timer or an event.
    Idle,
    /// Waiting for a container to settle.
    Settling,
    /// Running a cycle.
    Syncing,
    /// Waiting before the event stream is asked for again.
    Reconnecting,
    /// The daemon has given up.
    Stopped,
}

/// What happened.
#[derive(Debug, Clone, Copy, PartialEq, Eq, Structural)]
pub enum WatchEvent {
    /// The container engine answered, or did not.
    Connected(bool),
    /// A container started, stopped, died or was destroyed.
    ContainerChanged,
    /// The event stream broke.
    StreamFailed,
    /// The timer fired.
    Tick,
    /// The time asked for has passed.
    Slept,
    /// The cycle ended, well or not.
    SyncEnded(bool),
}

/// What the daemon is to do next.
#[derive(Debug, Clone, Copy, PartialEq, Eq, Structural)]
pub enum WatchAction {
    /// Wait this many seconds, then report `Slept`.
    Sleep(u64),
    /// Connect to the container engine and report `Connected`.
    Connect,
    /// Run a cycle and report `SyncEnded`.
    Sync,
    /// Wait for an event or for the timer, which fires every so many
    /// seconds, whichever comes first.
    Wait(u64),
    /// Drop what was reported and go on as before.
    Ignore,
    /// End the daemon: the container engine cannot be reached.
    Exit,
}

/// The daemon's phase after `event`, and what it is to do.
pub open spec fn watch_step(phase: WatchPhase, event: WatchEvent, interval: u64) -> (
    WatchPhase,
    WatchAction,
) {
    match (phase, event) {
        (WatchPhase::Starting, WatchEvent::Slept) => (WatchPhase::Connecting, WatchAction::Connect),
        (WatchPhase::Connecting, WatchEvent::Connected(true)) => (
            WatchPhase::InitialSync,
            WatchAction::Sync,
        ),
        (WatchPhase::Connecting, WatchEvent::Connected(false)) => (
            WatchPhase::Stopped,
            WatchAction::Exit,
        ),
        (WatchPhase::InitialSync, WatchEvent::SyncEnded(true)) => (
            WatchPhase::Idle,
            WatchAction::Wait(interval),
        ),
        (WatchPhase::InitialSync, WatchEvent::SyncEnded(false)) => (
            WatchPhase::InitialRetry,
            WatchAction::Sleep(INITIAL_RETRY_DELAY),
        ),
        (WatchPhase::InitialRetry, WatchEvent::Slept) => (
            WatchPhase::InitialSync,
            WatchAction::Sync,
        ),
        (WatchPhase::Idle, WatchEvent::ContainerChanged) => (
            WatchPhase::Settling,
            WatchAction::Sleep(SETTLE_DELAY),
        ),
        (WatchPhase::Idle, WatchEvent::StreamFailed) => (
            WatchPhase::Reconnecting,
            WatchAction::Sleep(RECONNECT_DELAY),
        ),
        (WatchPhase::Idle, WatchEvent::Tick) => (WatchPhase::Syncing, WatchAction::Sync),
        (WatchPhase::Settling, WatchEvent::Slept) => (WatchPhase::Syncing, WatchAction::Sync),
        (WatchPhase::Syncing, WatchEvent::SyncEnded(_)) => (
            WatchPhase::Idle,
            WatchAction::Wait(interval),
        ),
        (WatchPhase::Reconnecting, WatchEvent::Slept) => (
            WatchPhase::Idle,
            WatchAction::Wait(interval),
        ),
        (WatchPhase::Stopped, _) => (WatchPhase::Stopped, WatchAction::Exit),
        (other, _) => (other, WatchAction::Ignore),
    }
}

/// The daemon of watch mode.
#[derive(Debug, Clone, Copy, PartialEq, Eq, Structural)]
pub struct Watcher {
    pub phase: WatchPhase,
    /// Seconds between two cycles that the timer sets off.
    pub sync_interval: u64,
}

/// Watch mode: begins the daemon.
///
/// With a startup delay the daemon waits that long for the dashboard to
/// start; without, it connects to the container engine at once.
pub fn run_watch(config: &Config) -> (r: (Watcher, WatchAction))
    ensures
        r.0.sync_interval == config.sync_interval,
        config.startup_delay > 0 ==> r.0.phase == WatchPhase::Starting && r.1 == WatchAction::Sleep(
            config.startup_delay,
        ),
        config.startup_delay == 0 ==> r.0.phase == WatchPhase::Connecting && r.1
            == WatchAction::Connect,
{
    let sync_interval = config.sync_interval;
    if config.startup_delay > 0 {
        (
            Watcher { phase: WatchPhase::Starting, sync_interval },
            WatchAction::Sleep(config.startup_delay),
        )
    } else {
        (Watcher { phase: WatchPhase::Connecting, sync_interval }, WatchAction::Connect)
    }
}

impl Watcher {
    /// Main watch loop: takes what happened and says what to do.
    ///
    /// A first cycle that fails is tried again after ten seconds, until one
    /// goes through. After that a cycle runs when the timer fires, and two
    /// seconds after a container changed. A later cycle that fails is not
    /// tried again: the next trigger sets off the next cycle. When the event
    /// stream breaks, the daemon waits five seconds before it listens
    /// again.
    pub fn watch_loop(&mut self, event: WatchEvent) -> (action: WatchAction)
        ensures
            (final(self).phase, action) == watch_step(
                old(self).phase,
                event,
                old(self).sync_interval,
            ),
            final(self).sync_interval == old(self).sync_interval,
    {
        let interval = self.sync_interval;
        let (phase, action) = match (self.phase, event) {
            (WatchPhase::Starting, WatchEvent::Slept) => (
                WatchPhase::Connecting,
                WatchAction::Connect,
            ),
            (WatchPhase::Connecting, WatchEvent::Connected(true)) => (
                WatchPhase::InitialSync,
                WatchAction::Sync,
            ),
            (WatchPhase::Connecting, WatchEvent::Connected(false)) => (
                WatchPhase::Stopped,
                WatchAction::Exit,
            ),
            (WatchPhase::InitialSync, WatchEvent::SyncEnded(true)) => (
                WatchPhase::Idle,
                WatchAction::Wait(interval),
            ),
            (WatchPhase::InitialSync, WatchEvent::SyncEnded(false)) => (
                WatchPhase::InitialRetry,
                WatchAction::Sleep(INITIAL_RETRY_DELAY),
            ),
            (WatchPhase::InitialRetry, WatchEvent::Slept) => (
                WatchPhase::InitialSync,
                WatchAction::Sync,
            ),
            (WatchPhase::Idle, WatchEvent::ContainerChanged) => (
                WatchPhase::Settling,
                WatchAction::Sleep(SETTLE_DELAY),
            ),
            (WatchPhase::Idle, WatchEvent::StreamFailed) => (
                WatchPhase::Reconnecting,
                WatchAction::Sleep(RECONNECT_DELAY),
            ),
            (WatchPhase::Idle, WatchEvent::Tick) => (WatchPhase::Syncing, WatchAction::Sync),
            (WatchPhase::Settling, WatchEvent::Slept) => (WatchPhase::Syncing, WatchAction::Sync),
            (WatchPhase::Syncing, WatchEvent::SyncEnded(_)) => (
                WatchPhase::Idle,
                WatchAction::Wait(interval),
            ),
            (WatchPhase::Reconnecting, WatchEvent::Slept) => (
            WatchPhase::Idle,
            WatchAction::Wait(interval),
        ),
            (WatchPhase::Stopped, _) => (WatchPhase::Stopped, WatchAction::Exit),
            (other, _) => (other, WatchAction::Ignore),
        };
        self.phase = phase;
        action
    }
}

/// Whether a cycle is running in `phase`.
pub open spec fn cycle_running(phase: WatchPhase) -> bool {
    phase == WatchPhase::InitialSync || phase == WatchPhase::Syncing
}

/// One cycle runs at a time: while a cycle runs, nothing that happens sets
/// off another, and a trigger that arrives meanwhile is dropped. A cycle
/// is running exactly from the action `Sync` to the end of that cycle.
pub proof fn law_one_cycle_at_a_time(phase: WatchPhase, event: WatchEvent, interval: u64)
    ensures
        cycle_running(phase) ==> watch_step(phase, event, interval).1 != WatchAction::Sync,
        cycle_running(phase) && !(event is SyncEnded) ==> watch_step(phase, event, interval) == (
            phase,
            WatchAction::Ignore,
        ),
        watch_step(phase, event, interval).1 == WatchAction::Sync ==> cycle_running(
            watch_step(phase, event, interval).0,
        ) && !cycle_running(phase),
        cycle_running(watch_step(phase, event, interval).0) && !cycle_running(phase)
            ==> watch_step(phase, event, interval).1 == WatchAction::Sync,
{
}

} // verus!
