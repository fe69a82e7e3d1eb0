use nobullfit::startup::{startup_after_check, startup_after_install, startup_begin, StartupAction};
use nobullfit::updater::{
    DownloadEvent, ManifestEntry, Phase, UpdateAgent, UpdateHandle, UpdateMetadata, UpdaterError,
    STARTUP_DELAY_SECS,
};

fn entry(version: &str, current: &str) -> ManifestEntry {
    ManifestEntry {
        version: version.to_string(),
        current_version: current.to_string(),
        download_url: "https://example.invalid/app.tar.gz".to_string(),
    }
}

fn found(agent: &mut UpdateAgent) -> (UpdateMetadata, UpdateHandle) {
    agent.begin_check().unwrap();
    agent
        .finish_check(Ok(Some(entry("2.0.0", "1.0.0"))))
        .unwrap()
        .unwrap()
}

#[test]
fn no_update_means_no_events() {
    let mut agent = UpdateAgent::new();
    assert_eq!(agent.begin_check(), Ok(()));
    assert!(agent.is_in_flight());
    assert_eq!(agent.finish_check(Ok(None)), Ok(None));
    assert!(!agent.is_in_flight());
    assert_eq!(agent.current_phase(), Phase::Idle);
    assert_eq!(agent.start_download(Some(10)), None);
    assert_eq!(agent.chunk_received(10), None);
    assert_eq!(agent.download_finished(), None);
}

#[test]
fn three_chunks_then_success() {
    let mut agent = UpdateAgent::new();
    let (meta, handle) = found(&mut agent);
    assert_eq!(meta.version, "2.0.0");
    assert_eq!(meta.current_version, "1.0.0");
    assert_eq!(agent.begin_install(&handle), Ok(()));
    let mut events = Vec::new();
    events.push(agent.start_download(Some(3500)).unwrap());
    for len in [1000u64, 2000, 500] {
        events.push(agent.chunk_received(len).unwrap());
    }
    events.push(agent.download_finished().unwrap());
    assert_eq!(agent.finish_install(Ok(())), Ok(()));
    assert_eq!(
        events,
        vec![
            DownloadEvent::Started { content_length: Some(3500) },
            DownloadEvent::Progress { chunk_length: 1000 },
            DownloadEvent::Progress { chunk_length: 2000 },
            DownloadEvent::Progress { chunk_length: 500 },
            DownloadEvent::Finished,
        ]
    );
    assert_eq!(agent.current_phase(), Phase::RestartPending);
    assert!(!agent.is_in_flight());
    // nothing more is sent for this download
    assert_eq!(agent.chunk_received(1), None);
    assert_eq!(agent.download_finished(), None);
}

#[test]
fn failure_before_any_chunk() {
    let mut agent = UpdateAgent::new();
    let (_, handle) = found(&mut agent);
    agent.begin_install(&handle).unwrap();
    let started = agent.start_download(None);
    assert_eq!(started, Some(DownloadEvent::Started { content_length: None }));
    let r = agent.finish_install(Err("connection reset".to_string()));
    assert_eq!(r, Err(UpdaterError::DownloadFailed { detail: "connection reset".to_string() }));
    assert!(!agent.is_in_flight());
    assert_eq!(agent.current_phase(), Phase::Idle);
    assert_eq!(agent.chunk_received(5), None);
}

#[test]
fn failure_after_finished_is_install_failure() {
    let mut agent = UpdateAgent::new();
    let (_, handle) = found(&mut agent);
    agent.begin_install(&handle).unwrap();
    agent.start_download(Some(4)).unwrap();
    agent.chunk_received(4).unwrap();
    agent.download_finished().unwrap();
    let r = agent.finish_install(Err("bad signature".to_string()));
    assert_eq!(r, Err(UpdaterError::InstallFailed { detail: "bad signature".to_string() }));
    assert_eq!(agent.current_phase(), Phase::Idle);
}

#[test]
fn finished_needs_started() {
    let mut agent = UpdateAgent::new();
    let (_, handle) = found(&mut agent);
    agent.begin_install(&handle).unwrap();
    assert_eq!(agent.download_finished(), None);
    assert_eq!(agent.chunk_received(7), None);
    assert!(agent.start_download(Some(7)).is_some());
    assert_eq!(agent.start_download(Some(7)), None);
    assert_eq!(agent.download_finished(), Some(DownloadEvent::Finished));
}

#[test]
fn check_twice_reports_the_same() {
    let mut agent = UpdateAgent::new();
    let (m1, h1) = found(&mut agent);
    let (m2, h2) = found(&mut agent);
    assert_eq!(m1, m2);
    assert_ne!(h1, h2);
    agent.begin_check().unwrap();
    assert_eq!(agent.finish_check(Ok(None)), Ok(None));
    agent.begin_check().unwrap();
    assert_eq!(agent.finish_check(Ok(None)), Ok(None));
}

#[test]
fn check_failure_is_reported() {
    let mut agent = UpdateAgent::new();
    agent.begin_check().unwrap();
    let r = agent.finish_check(Err("offline".to_string()));
    assert_eq!(r, Err(UpdaterError::CheckFailed { detail: "offline".to_string() }));
    assert!(!agent.is_in_flight());
}

#[test]
fn handle_is_single_use() {
    let mut agent = UpdateAgent::new();
    let (_, handle) = found(&mut agent);
    assert_eq!(agent.begin_install(&handle), Ok(()));
    agent.start_download(Some(10)).unwrap();
    // a second attempt while the first runs
    assert_eq!(agent.begin_install(&handle), Err(UpdaterError::HandleAlreadyConsumed));
    assert_eq!(agent.chunk_received(10), Some(DownloadEvent::Progress { chunk_length: 10 }));
    assert_eq!(agent.download_finished(), Some(DownloadEvent::Finished));
    assert_eq!(agent.finish_install(Ok(())), Ok(()));
    // and after it completed
    assert_eq!(agent.begin_install(&handle), Err(UpdaterError::HandleAlreadyConsumed));
    assert_eq!(agent.current_phase(), Phase::RestartPending);
}

#[test]
fn busy_agent_refuses_second_attempt() {
    let mut agent = UpdateAgent::new();
    let (_, first) = found(&mut agent);
    let (_, second) = found(&mut agent);
    agent.begin_install(&first).unwrap();
    agent.start_download(Some(3)).unwrap();
    assert_eq!(agent.begin_check(), Err(UpdaterError::UpdateInProgress));
    assert_eq!(agent.begin_install(&second), Err(UpdaterError::UpdateInProgress));
    assert_eq!(agent.chunk_received(3), Some(DownloadEvent::Progress { chunk_length: 3 }));
    assert_eq!(agent.download_finished(), Some(DownloadEvent::Finished));
    assert_eq!(agent.finish_install(Ok(())), Ok(()));
    // the refused handle is still good
    assert_eq!(agent.begin_install(&second), Ok(()));
}

#[test]
fn busy_while_checking() {
    let mut agent = UpdateAgent::new();
    agent.begin_check().unwrap();
    assert_eq!(agent.begin_check(), Err(UpdaterError::UpdateInProgress));
    assert_eq!(agent.current_phase(), Phase::Checking);
}

#[test]
fn unknown_handle_has_no_pending_update() {
    let mut agent = UpdateAgent::new();
    assert_eq!(agent.begin_install(&UpdateHandle::from_id(0)), Err(UpdaterError::NoPendingUpdate));
    let (_, h) = found(&mut agent);
    assert_eq!(h.id, 0);
    assert_eq!(agent.begin_install(&UpdateHandle::from_id(1)), Err(UpdaterError::NoPendingUpdate));
}

#[test]
fn error_messages() {
    assert_eq!(UpdaterError::NoPendingUpdate.message(), "there is no pending update");
    assert_eq!(UpdaterError::UpdateInProgress.message(), "an update is already in progress");
    assert_eq!(
        UpdaterError::HandleAlreadyConsumed.message(),
        "this update was already installed or attempted"
    );
    assert_eq!(UpdaterError::CheckFailed { detail: "dns".to_string() }.message(), "dns");
    assert_eq!(UpdaterError::DownloadFailed { detail: "eof".to_string() }.message(), "eof");
    assert_eq!(UpdaterError::InstallFailed { detail: "sig".to_string() }.message(), "sig");
}

#[test]
fn startup_with_provider_failure_stops_quietly() {
    let mut agent = UpdateAgent::new();
    assert_eq!(STARTUP_DELAY_SECS, 2);
    assert_eq!(startup_begin(&mut agent), StartupAction::Check);
    let action = startup_after_check(&mut agent, Err("manifest signature invalid".to_string()));
    assert_eq!(
        action,
        StartupAction::Stop {
            reason: Some(UpdaterError::CheckFailed {
                detail: "manifest signature invalid".to_string()
            })
        }
    );
    assert!(!agent.is_in_flight());
    // the application goes on: a later check works
    assert_eq!(agent.begin_check(), Ok(()));
}

#[test]
fn startup_installs_and_restarts() {
    let mut agent = UpdateAgent::new();
    assert_eq!(startup_begin(&mut agent), StartupAction::Check);
    let action = startup_after_check(&mut agent, Ok(Some(entry("2.0.0", "1.0.0"))));
    assert_eq!(action, StartupAction::Install { handle: UpdateHandle::from_id(0) });
    assert!(agent.start_download(Some(2)).is_some());
    assert!(agent.chunk_received(2).is_some());
    assert!(agent.download_finished().is_some());
    assert_eq!(startup_after_install(&mut agent, Ok(())), StartupAction::Restart);
    assert_eq!(agent.current_phase(), Phase::RestartPending);
}

#[test]
fn startup_without_update_stops() {
    let mut agent = UpdateAgent::new();
    startup_begin(&mut agent);
    assert_eq!(startup_after_check(&mut agent, Ok(None)), StartupAction::Stop { reason: None });
    assert_eq!(agent.current_phase(), Phase::Idle);
}

#[test]
fn startup_while_busy_stops() {
    let mut agent = UpdateAgent::new();
    agent.begin_check().unwrap();
    assert_eq!(
        startup_begin(&mut agent),
        StartupAction::Stop { reason: Some(UpdaterError::UpdateInProgress) }
    );
    assert_eq!(agent.current_phase(), Phase::Checking);
}

#[test]
fn startup_install_failure_stops() {
    let mut agent = UpdateAgent::new();
    startup_begin(&mut agent);
    startup_after_check(&mut agent, Ok(Some(entry("3.1.0", "3.0.0"))));
    agent.start_download(None).unwrap();
    let action = startup_after_install(&mut agent, Err("timeout".to_string()));
    assert_eq!(
        action,
        StartupAction::Stop {
            reason: Some(UpdaterError::DownloadFailed { detail: "timeout".to_string() })
        }
    );
    assert!(!agent.is_in_flight());
}
