use vstd::prelude::*;
use crate::updater::{
    ManifestEntry, Phase, UpdateAgent, UpdateHandle, UpdaterError, begin_check_step,
};

verus! {

/// What the unattended start-up flow does next.
#[derive(Clone, Debug, PartialEq, Eq)]
pub enum StartupAction {
    /// Ask the provider for an update.
    Check,
    /// Download and install the update behind this handle.
    Install { handle: UpdateHandle },
    /// The update is installed: restart the application.
    Restart,
    /// Nothing more to do; the reason, if any, is only logged.
    Stop { reason: Option<UpdaterError> },
}

/// After the start-up delay: check, unless an update is already running.
pub fn startup_begin(agent: &mut UpdateAgent) -> (r: StartupAction)
    requires
        old(agent).wf(),
    ensures
        final(agent).wf(),
        final(agent).keeps_consumed(*old(agent)),
        begin_check_step(
            *old(agent),
            *final(agent),
            if r is Check {
                Ok(())
            } else {
                Err(UpdaterError::UpdateInProgress)
            },
        ),
        r is Check || r == (StartupAction::Stop { reason: Some(UpdaterError::UpdateInProgress) }),
{
    match agent.begin_check() {
        Ok(()) => StartupAction::Check,
        Err(e) => StartupAction::Stop { reason: Some(e) },
    }
}

/// After the provider answered: install what it offers, or stop.
/// A provider failure stops the flow and leaves the agent idle.
pub fn startup_after_check(
    agent: &mut UpdateAgent,
    provider: Result<Option<ManifestEntry>, String>,
) -> (r: StartupAction)
    requires
        old(agent).wf(),
        old(agent).phase() == Phase::Checking,
    ensures
        final(agent).wf(),
        final(agent).keeps_consumed(*old(agent)),
        match provider {
            Err(d) => r == (StartupAction::Stop {
                reason: Some(UpdaterError::CheckFailed { detail: d }),
            }) && final(agent).phase() == Phase::Idle,
            Ok(None) => r == (StartupAction::Stop { reason: None }) && final(agent).phase()
                == Phase::Idle,
            Ok(Some(_)) => r == (StartupAction::Install {
                handle: UpdateHandle { id: old(agent).consumed().len() as usize },
            }) && final(agent).phase() == Phase::Downloading && final(agent).consumed()
                == old(agent).consumed().push(true) && final(agent).emitted().len() == 0,
        },
{
    match agent.finish_check(provider) {
        Ok(Some((_, handle))) => {
            match agent.begin_install(&handle) {
                Ok(()) => StartupAction::Install { handle },
                Err(e) => StartupAction::Stop { reason: Some(e) },
            }
        },
        Ok(None) => StartupAction::Stop { reason: None },
        Err(e) => StartupAction::Stop { reason: Some(e) },
    }
}

/// After the installer's result: restart on success, else stop.
pub fn startup_after_install(agent: &mut UpdateAgent, installer: Result<(), String>) -> (r:
    StartupAction)
    requires
        old(agent).wf(),
        old(agent).phase() == Phase::Downloading,
    ensures
        final(agent).wf(),
        final(agent).keeps_consumed(*old(agent)),
        !final(agent).in_flight(),
        match installer {
            Ok(()) => r is Restart && final(agent).phase() == Phase::RestartPending,
            Err(d) => final(agent).phase() == Phase::Idle && r == (StartupAction::Stop {
                reason: Some(
                    if old(agent).stream() == crate::updater::Stream::Done {
                        UpdaterError::InstallFailed { detail: d }
                    } else {
                        UpdaterError::DownloadFailed { detail: d }
                    },
                ),
            }),
        },
{
    match agent.finish_install(installer) {
        Ok(()) => StartupAction::Restart,
        Err(e) => StartupAction::Stop { reason: Some(e) },
    }
}

} // verus!
