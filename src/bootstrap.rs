//! The steps that bring a server up: check the address, look for a server
//! already answering there, find the runtime, start it, and wait for it.
//! The host performs each action and reports back with an event.

use vstd::prelude::*;
use crate::config::{url_parts, validate_base_url};
use crate::error::LauncherError;
use crate::launch::{LauncherConfig, STARTUP_TIMEOUT_SECS};

verus! {

/// Where a bootstrap stands.
#[derive(Debug)]
pub enum BootstrapState {
    /// No address yet.
    Unchecked,
    /// Asking whether a server already answers at the address.
    Checking(String),
    /// Looking for the interpreter and the payload.
    Discovering(String),
    /// Starting the server from the configuration.
    Spawning(LauncherConfig),
    /// Waiting for the started server to answer healthy.
    WaitingHealthy(LauncherConfig),
    /// A server answers healthy at the address.
    Ready(String),
    /// The bootstrap failed for good.
    Failed(LauncherError),
}

/// What the host reports after doing an action.
#[derive(Debug)]
pub enum BootstrapEvent {
    /// The base address was resolved.
    BaseUrlResolved(String),
    /// One health check was made at the address.
    HealthChecked(bool),
    /// The runtime search ended.
    RuntimeFound(Result<LauncherConfig, LauncherError>),
    /// The server process was started, or the reason it was not.
    SpawnFinished(Result<(), String>),
    /// The startup wait ended: healthy in time or not.
    StartupWaitFinished(bool),
}

/// What the host does next.
#[derive(Debug, Clone, Copy, PartialEq, Eq, Structural)]
pub enum BootstrapAction {
    /// Check health once at the address of the state.
    CheckHealth,
    /// Search the runtime roots.
    Discover,
    /// Start the server from the configuration of the state.
    Spawn,
    /// Poll the address of the configuration until the startup deadline.
    WaitHealthy,
    /// Hand the started child to the supervisor slot; the bootstrap is done.
    TrackChild,
    /// Kill the started child, which never answered; the bootstrap is done.
    KillChild,
    /// Nothing more to do: the state is final.
    Finish,
}

pub open spec fn bootstrap_next(state: BootstrapState, event: BootstrapEvent) -> (BootstrapState, BootstrapAction) {
    match (state, event) {
        (BootstrapState::Unchecked, BootstrapEvent::BaseUrlResolved(u)) => if url_parts(u@) is Some {
            (BootstrapState::Checking(u), BootstrapAction::CheckHealth)
        } else {
            (BootstrapState::Failed(LauncherError::InvalidBaseUrl(u)), BootstrapAction::Finish)
        },
        (BootstrapState::Checking(u), BootstrapEvent::HealthChecked(healthy)) => if healthy {
            (BootstrapState::Ready(u), BootstrapAction::Finish)
        } else {
            (BootstrapState::Discovering(u), BootstrapAction::Discover)
        },
        (BootstrapState::Discovering(_), BootstrapEvent::RuntimeFound(found)) => match found {
            Ok(c) => (BootstrapState::Spawning(c), BootstrapAction::Spawn),
            Err(e) => (BootstrapState::Failed(e), BootstrapAction::Finish),
        },
        (BootstrapState::Spawning(c), BootstrapEvent::SpawnFinished(started)) => match started {
            Ok(_) => (BootstrapState::WaitingHealthy(c), BootstrapAction::WaitHealthy),
            Err(reason) => (
                BootstrapState::Failed(LauncherError::SpawnServer(reason)),
                BootstrapAction::Finish,
            ),
        },
        (BootstrapState::WaitingHealthy(c), BootstrapEvent::StartupWaitFinished(healthy)) => if healthy {
            (BootstrapState::Ready(c.base_url), BootstrapAction::TrackChild)
        } else {
            (
                BootstrapState::Failed(
                    LauncherError::StartupTimeout { base_url: c.base_url, timeout_secs: STARTUP_TIMEOUT_SECS },
                ),
                BootstrapAction::KillChild,
            )
        },
        (s, _) => (s, BootstrapAction::Finish),
    }
}

/// One step of a bootstrap: the next state and the action the host takes.
/// An address that is no URL fails at once; a server already healthy makes
/// the bootstrap ready with no search or start; a failed search or start
/// fails; after the startup wait the child is tracked when healthy and
/// killed otherwise. An event that does not belong to the state leaves the
/// state as it is.
pub fn bootstrap_step(state: BootstrapState, event: BootstrapEvent) -> (r: (BootstrapState, BootstrapAction))
    ensures
        r == bootstrap_next(state, event),
{
    match (state, event) {
        (BootstrapState::Unchecked, BootstrapEvent::BaseUrlResolved(u)) => match validate_base_url(u) {
            Ok(u) => (BootstrapState::Checking(u), BootstrapAction::CheckHealth),
            Err(e) => (BootstrapState::Failed(e), BootstrapAction::Finish),
        },
        (BootstrapState::Checking(u), BootstrapEvent::HealthChecked(healthy)) => if healthy {
            (BootstrapState::Ready(u), BootstrapAction::Finish)
        } else {
            (BootstrapState::Discovering(u), BootstrapAction::Discover)
        },
        (BootstrapState::Discovering(_), BootstrapEvent::RuntimeFound(found)) => match found {
            Ok(c) => (BootstrapState::Spawning(c), BootstrapAction::Spawn),
            Err(e) => (BootstrapState::Failed(e), BootstrapAction::Finish),
        },
        (BootstrapState::Spawning(c), BootstrapEvent::SpawnFinished(started)) => match started {
            Ok(_) => (BootstrapState::WaitingHealthy(c), BootstrapAction::WaitHealthy),
            Err(reason) => (
                BootstrapState::Failed(LauncherError::SpawnServer(reason)),
                BootstrapAction::Finish,
            ),
        },
        (BootstrapState::WaitingHealthy(c), BootstrapEvent::StartupWaitFinished(healthy)) => if healthy {
            (BootstrapState::Ready(c.base_url), BootstrapAction::TrackChild)
        } else {
            (
                BootstrapState::Failed(
                    LauncherError::StartupTimeout { base_url: c.base_url, timeout_secs: STARTUP_TIMEOUT_SECS },
                ),
                BootstrapAction::KillChild,
            )
        },
        (s, _) => (s, BootstrapAction::Finish),
    }
}

/// A child enters the supervisor slot only after it answered healthy in
/// the startup wait, and a child that did not is always killed.
pub proof fn child_tracked_only_when_healthy(state: BootstrapState, event: BootstrapEvent)
    ensures
        bootstrap_next(state, event).1 == BootstrapAction::TrackChild ==> state is WaitingHealthy
            && event == BootstrapEvent::StartupWaitFinished(true),
        state is WaitingHealthy && event == BootstrapEvent::StartupWaitFinished(false) ==> bootstrap_next(
            state,
            event,
        ).1 == BootstrapAction::KillChild,
{
}

/// An address that is no URL fails the bootstrap before any health check,
/// search or start.
pub proof fn invalid_address_fails_first(base_url: String)
    requires
        url_parts(base_url@) is None,
    ensures
        bootstrap_next(BootstrapState::Unchecked, BootstrapEvent::BaseUrlResolved(base_url)) == (
            BootstrapState::Failed(LauncherError::InvalidBaseUrl(base_url)),
            BootstrapAction::Finish,
        ),
{
}

} // verus!
