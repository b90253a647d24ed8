use crixata::sidecar::{
    SidecarManager, SidecarStatus, StartAction, StartError, StartEvent, StartPhase,
};

fn mgr() -> SidecarManager {
    SidecarManager::new("/bin/llama-server".into(), "/models/m.gguf".into(), 4344)
}

fn files_ok() -> StartEvent {
    StartEvent::FilesChecked { server_bin_exists: true, model_exists: true }
}

#[test]
fn new_manager_is_stopped() {
    let m = mgr();
    assert_eq!(m.status(), SidecarStatus::Stopped);
    assert_eq!(m.start_phase(), StartPhase::Idle);
    assert!(!m.is_ready());
    assert_eq!(m.port(), 4344);
    assert_eq!(m.health_url(), "http://127.0.0.1:4344/health");
}

#[test]
fn spawn_arguments() {
    let m = mgr();
    assert_eq!(
        m.spawn_args(),
        vec!["-m", "/models/m.gguf", "--port", "4344", "-c", "4096", "--host", "127.0.0.1"]
            .into_iter()
            .map(String::from)
            .collect::<Vec<String>>()
    );
}

#[test]
fn update_paths_and_stop() {
    let mut m = mgr();
    m.update_paths("/b2".into(), "/m2".into());
    assert_eq!(m.server_bin(), "/b2");
    assert_eq!(m.model_path(), "/m2");
    assert_eq!(m.begin_start(), StartAction::CheckFiles);
    assert!(m.stop().is_ok());
    assert_eq!(m.status(), SidecarStatus::Stopped);
    assert_eq!(m.start_phase(), StartPhase::Idle);
}

#[test]
fn missing_files_end_in_error() {
    let mut m = mgr();
    assert_eq!(m.begin_start(), StartAction::CheckFiles);
    assert_eq!(m.start_phase(), StartPhase::CheckingFiles);
    let a = m.start_step(StartEvent::FilesChecked { server_bin_exists: false, model_exists: true });
    assert_eq!(a, StartAction::Finish(Err(StartError::ServerBinMissing)));
    assert_eq!(m.start_phase(), StartPhase::Done);
    assert_eq!(m.status(), SidecarStatus::Error);
    let mut m = mgr();
    m.begin_start();
    let a = m.start_step(StartEvent::FilesChecked { server_bin_exists: true, model_exists: false });
    assert_eq!(a, StartAction::Finish(Err(StartError::ModelMissing)));
    assert_eq!(m.status(), SidecarStatus::Error);
}

#[test]
fn healthy_after_a_few_polls_is_ready() {
    let mut m = mgr();
    m.begin_start();
    assert_eq!(m.start_step(files_ok()), StartAction::StopAndSpawn);
    assert_eq!(m.status(), SidecarStatus::Starting);
    assert_eq!(m.start_step(StartEvent::Spawned(Ok(()))), StartAction::SleepThenCheckExit { millis: 300 });
    assert_eq!(m.start_step(StartEvent::ExitChecked(false)), StartAction::CheckHealth);
    assert_eq!(m.start_step(StartEvent::HealthChecked(false)), StartAction::SleepThenCheckExit { millis: 300 });
    m.start_step(StartEvent::ExitChecked(false));
    assert_eq!(m.start_step(StartEvent::HealthChecked(true)), StartAction::Finish(Ok(())));
    assert_eq!(m.start_phase(), StartPhase::Done);
    assert!(m.is_ready());
}

#[test]
fn ready_and_healthy_engine_is_left_alone() {
    let mut m = mgr();
    m.begin_start();
    m.start_step(files_ok());
    m.start_step(StartEvent::Spawned(Ok(())));
    m.start_step(StartEvent::ExitChecked(false));
    m.start_step(StartEvent::HealthChecked(true));
    assert!(m.is_ready());
    assert_eq!(m.begin_start(), StartAction::CheckHealth);
    assert_eq!(m.start_phase(), StartPhase::CheckingHealth);
    assert_eq!(m.start_step(StartEvent::HealthChecked(true)), StartAction::Finish(Ok(())));
    assert!(m.is_ready());
}

#[test]
fn ready_but_unhealthy_engine_is_restarted() {
    let mut m = mgr();
    m.begin_start();
    m.start_step(files_ok());
    m.start_step(StartEvent::Spawned(Ok(())));
    m.start_step(StartEvent::ExitChecked(false));
    m.start_step(StartEvent::HealthChecked(true));
    assert_eq!(m.begin_start(), StartAction::CheckHealth);
    assert_eq!(m.start_step(StartEvent::HealthChecked(false)), StartAction::CheckFiles);
    assert_eq!(m.start_step(files_ok()), StartAction::StopAndSpawn);
    assert_eq!(m.status(), SidecarStatus::Starting);
}

#[test]
fn spawn_failures_retry_then_fail() {
    let mut m = mgr();
    m.begin_start();
    m.start_step(files_ok());
    for attempt in 1..=3u32 {
        assert_eq!(m.start_phase(), StartPhase::Spawning { attempt });
        let a = m.start_step(StartEvent::Spawned(Err("no such file".into())));
        if attempt < 3 {
            assert_eq!(a, StartAction::Sleep { millis: 500 });
            assert_eq!(m.start_step(StartEvent::Slept), StartAction::StopAndSpawn);
        } else {
            assert_eq!(a, StartAction::Finish(Err(StartError::SpawnFailed("no such file".into()))));
            assert_eq!(m.start_phase(), StartPhase::Done);
            assert_eq!(m.status(), SidecarStatus::Error);
        }
    }
}

#[test]
fn never_healthy_gives_up_after_all_attempts() {
    let mut m = mgr();
    m.begin_start();
    m.start_step(files_ok());
    let mut spawns = 0;
    let mut polls = 0;
    loop {
        let a = match m.start_phase() {
            StartPhase::Spawning { .. } => {
                spawns += 1;
                m.start_step(StartEvent::Spawned(Ok(())))
            }
            StartPhase::CheckingExit { .. } => m.start_step(StartEvent::ExitChecked(false)),
            StartPhase::CheckingReady { .. } => {
                polls += 1;
                m.start_step(StartEvent::HealthChecked(false))
            }
            p => panic!("unexpected phase {:?}", p),
        };
        if m.start_phase() == StartPhase::Done {
            assert_eq!(a, StartAction::StopAndFinish(Err(StartError::NeverReady(3))));
            break;
        }
    }
    assert_eq!(spawns, 3);
    assert_eq!(polls, 90);
    assert_eq!(m.status(), SidecarStatus::Error);
}

#[test]
fn early_exit_moves_to_next_attempt() {
    let mut m = mgr();
    m.begin_start();
    m.start_step(files_ok());
    m.start_step(StartEvent::Spawned(Ok(())));
    assert_eq!(m.start_step(StartEvent::ExitChecked(true)), StartAction::StopAndSpawn);
    assert_eq!(m.start_phase(), StartPhase::Spawning { attempt: 2 });
}

#[test]
fn start_ignores_unexpected_event() {
    let mut m = mgr();
    assert_eq!(m.start_step(StartEvent::Slept), StartAction::Ignore);
    assert_eq!(m.start_phase(), StartPhase::Idle);
    assert_eq!(m.status(), SidecarStatus::Stopped);
    m.begin_start();
    assert_eq!(m.start_step(StartEvent::ExitChecked(true)), StartAction::Ignore);
    assert_eq!(m.start_phase(), StartPhase::CheckingFiles);
}
