use speedy_stt::controller::{Action, Phase, RecordingController};
use speedy_stt::tray::TrayState;

fn synthetic_samples(n: usize) -> Vec<i32> {
    let mut v = Vec::new();
    for i in 0..n {
        v.push((i % 101) as i32 - 50);
    }
    v
}

#[test]
fn press_from_idle_spawns_load_and_capture() {
    let mut c = RecordingController::new(30_000);
    let acts = c.on_press();
    assert_eq!(
        acts,
        vec![
            Action::SetTray(TrayState::Recording),
            Action::PlayStart,
            Action::SpawnLoad,
            Action::ResetStopFlag,
            Action::SpawnCapture,
        ]
    );
    assert_eq!(c.phase, Phase::Recording);
    assert!(c.load_pending);
    assert!(c.capture_running);
}

#[test]
fn press_with_engine_loaded_spawns_no_load() {
    let mut c = RecordingController::new(30_000);
    c.engine_loaded = true;
    let acts = c.on_press();
    assert_eq!(
        acts,
        vec![
            Action::SetTray(TrayState::Recording),
            Action::PlayStart,
            Action::ResetStopFlag,
            Action::SpawnCapture,
        ]
    );
    assert!(!c.load_pending);
}

#[test]
fn press_while_recording_is_ignored() {
    let mut c = RecordingController::new(30_000);
    c.on_press();
    let acts = c.on_press();
    assert!(acts.is_empty());
    assert_eq!(c.phase, Phase::Recording);
    assert!(c.capture_running);
}

#[test]
fn release_while_idle_is_ignored() {
    let mut c = RecordingController::new(30_000);
    let acts = c.on_release();
    assert!(acts.is_empty());
    assert_eq!(c.phase, Phase::Idle);
}

// Full cycle with the engine already loaded: two seconds of synthetic
// audio, transcription returns "hello world", the injector receives it
// exactly once, and the tray goes Idle -> Recording -> Idle.
#[test]
fn end_to_end_preloaded_engine() {
    let mut c = RecordingController::new(30_000);
    c.engine_loaded = true;

    let mut tray_states = Vec::new();
    let mut injected: Vec<String> = Vec::new();

    let mut all_acts = Vec::new();
    all_acts.extend(c.on_press());
    let samples = synthetic_samples(32_000);
    all_acts.extend(c.on_release());
    assert_eq!(
        all_acts[all_acts.len() - 2..],
        [Action::SetStopFlag, Action::JoinCapture]
    );
    all_acts.extend(c.on_capture_joined(Some(samples.clone()), 2_000));
    // The Transcribe action carries exactly the captured samples.
    assert!(all_acts.contains(&Action::Transcribe(samples.clone())));
    all_acts.extend(c.on_transcription_done(Some("hello world".to_string()), 2_100));

    for a in &all_acts {
        match a {
            Action::SetTray(s) => tray_states.push(*s),
            Action::Inject(t) => injected.push(t.clone()),
            _ => {}
        }
    }
    assert_eq!(tray_states, vec![TrayState::Recording, TrayState::Idle]);
    assert_eq!(injected, vec!["hello world".to_string()]);
    assert_eq!(c.phase, Phase::Idle);
    assert_eq!(c.last_use, Some(2_100));
    assert!(c.engine_loaded);
}

// Press with the engine not yet loaded, immediate release: the load is
// joined after release, transcription still runs against the near-empty
// buffer, and the injector is called with the non-empty text returned.
#[test]
fn end_to_end_load_after_release() {
    let mut c = RecordingController::new(30_000);
    let press_acts = c.on_press();
    assert!(press_acts.contains(&Action::SpawnLoad));
    let release_acts = c.on_release();
    assert_eq!(release_acts, vec![Action::SetStopFlag, Action::JoinLoad]);
    assert_eq!(c.phase, Phase::AwaitLoad);

    let load_acts = c.on_load_joined(true);
    assert_eq!(load_acts, vec![Action::JoinCapture]);
    assert!(c.engine_loaded);

    let tiny = synthetic_samples(3);
    let cap_acts = c.on_capture_joined(Some(tiny.clone()), 50);
    assert_eq!(
        cap_acts,
        vec![
            Action::PlayFinish,
            Action::SetTray(TrayState::Idle),
            Action::Transcribe(tiny),
        ]
    );

    let done_acts = c.on_transcription_done(Some("ok".to_string()), 60);
    assert_eq!(done_acts, vec![Action::Inject("ok".to_string())]);
    assert_eq!(c.phase, Phase::Idle);
    assert_eq!(c.last_use, Some(60));
}

#[test]
fn empty_transcription_injects_nothing() {
    let mut c = RecordingController::new(30_000);
    c.on_press();
    c.on_release();
    c.on_load_joined(true);
    c.on_capture_joined(Some(Vec::new()), 10);
    let acts = c.on_transcription_done(Some(String::new()), 20);
    assert!(acts.is_empty());
    assert_eq!(c.last_use, Some(20));
    assert_eq!(c.phase, Phase::Idle);
}

#[test]
fn failed_transcription_injects_nothing() {
    let mut c = RecordingController::new(30_000);
    c.on_press();
    c.on_release();
    c.on_load_joined(true);
    c.on_capture_joined(Some(synthetic_samples(10)), 10);
    let acts = c.on_transcription_done(None, 20);
    assert!(acts.is_empty());
    assert_eq!(c.last_use, Some(20));
}

// Engine absent and the load fails: no injection call occurs and the tray
// is idle afterward; the capture thread is still joined and discarded.
#[test]
fn load_failure_aborts_without_injection() {
    let mut c = RecordingController::new(30_000);
    let mut all_acts = Vec::new();
    all_acts.extend(c.on_press());
    all_acts.extend(c.on_release());
    let load_acts = c.on_load_joined(false);
    assert_eq!(
        load_acts,
        vec![Action::SetTray(TrayState::Idle), Action::JoinCapture]
    );
    all_acts.extend(load_acts);
    let cap_acts = c.on_capture_joined(Some(synthetic_samples(100)), 500);
    assert!(cap_acts.is_empty());
    all_acts.extend(cap_acts);

    for a in &all_acts {
        assert!(!matches!(a, Action::Inject(_)));
        assert!(!matches!(a, Action::Transcribe(_)));
    }
    assert_eq!(c.phase, Phase::Idle);
    assert!(!c.engine_loaded);
    assert_eq!(c.last_use, None);
    assert!(!c.capture_running);
    assert!(!c.load_pending);
}

#[test]
fn capture_failure_still_stamps_cooldown() {
    let mut c = RecordingController::new(30_000);
    c.engine_loaded = true;
    c.on_press();
    c.on_release();
    let acts = c.on_capture_joined(None, 777);
    assert_eq!(acts, vec![Action::SetTray(TrayState::Idle)]);
    assert_eq!(c.phase, Phase::Idle);
    assert_eq!(c.last_use, Some(777));
    assert!(c.engine_loaded);
}

// Cooldown boundary: the engine stays loaded on every idle tick before
// last_use + unload_delay and is unloaded at the first tick at or past it.
#[test]
fn cooldown_boundary_is_inclusive() {
    let mut c = RecordingController::new(500);
    c.engine_loaded = true;
    c.last_use = Some(1_000);

    let acts = c.on_tick(1_000);
    assert!(acts.is_empty());
    assert!(c.engine_loaded);

    let acts = c.on_tick(1_499);
    assert!(acts.is_empty());
    assert!(c.engine_loaded);

    let acts = c.on_tick(1_500);
    assert_eq!(acts, vec![Action::UnloadEngine]);
    assert!(!c.engine_loaded);
    assert_eq!(c.last_use, None);
}

#[test]
fn cooldown_never_fires_mid_recording() {
    let mut c = RecordingController::new(500);
    c.engine_loaded = true;
    c.last_use = Some(0);
    c.on_press();
    let acts = c.on_tick(10_000);
    assert!(acts.is_empty());
    assert!(c.engine_loaded);
}

#[test]
fn cooldown_needs_a_stamp() {
    let mut c = RecordingController::new(0);
    c.engine_loaded = true;
    let acts = c.on_tick(99_999);
    assert!(acts.is_empty());
    assert!(c.engine_loaded);
}
