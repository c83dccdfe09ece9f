use speedy_stt::volume::{
    fade_step_count, fade_target, select_sessions, session_passes_filter, ComInit, DuckedSession,
    FadeDirection, SessionInfo, VolumeDucker,
};

fn info(expired: bool, pid: u32, system_sounds: bool, volume: u32) -> SessionInfo {
    SessionInfo { expired, pid, system_sounds, volume }
}

const OWN_PID: u32 = 4242;

// A session with process id 0 and non-expired state is NOT skipped;
// sandboxed renderers legitimately report pid 0.
#[test]
fn filter_keeps_pid_zero() {
    assert!(session_passes_filter(&info(false, 0, false, 800), OWN_PID));
}

#[test]
fn filter_skips_own_process() {
    assert!(!session_passes_filter(&info(false, OWN_PID, false, 800), OWN_PID));
}

#[test]
fn filter_skips_already_silent() {
    assert!(!session_passes_filter(&info(false, 7, false, 0), OWN_PID));
}

#[test]
fn filter_skips_expired() {
    assert!(!session_passes_filter(&info(true, 7, false, 800), OWN_PID));
}

#[test]
fn filter_skips_system_sounds() {
    assert!(!session_passes_filter(&info(false, 7, true, 800), OWN_PID));
}

#[test]
fn selection_keeps_order_and_volumes() {
    let infos = vec![
        info(false, 1, false, 900),
        info(true, 2, false, 800),
        info(false, OWN_PID, false, 700),
        info(false, 0, false, 600),
        info(false, 3, true, 500),
        info(false, 4, false, 0),
        info(false, 5, false, 400),
    ];
    let picked = select_sessions(&infos, OWN_PID);
    assert_eq!(
        picked,
        vec![
            DuckedSession { original_volume: 900, current_volume: 900 },
            DuckedSession { original_volume: 600, current_volume: 600 },
            DuckedSession { original_volume: 400, current_volume: 400 },
        ]
    );
}

#[test]
fn fade_has_fifty_steps() {
    assert_eq!(fade_step_count(), 50);
}

#[test]
fn fade_target_values_are_exact() {
    assert_eq!(fade_target(1000, 25, 50, FadeDirection::Out), 500);
    assert_eq!(fade_target(1000, 25, 50, FadeDirection::In), 500);
    assert_eq!(fade_target(1000, 50, 50, FadeDirection::Out), 0);
    assert_eq!(fade_target(1000, 50, 50, FadeDirection::In), 1000);
    // Truncation: 900 * 49 / 50 = 882, 333 * 1 / 50 = 6.
    assert_eq!(fade_target(900, 1, 50, FadeDirection::Out), 882);
    assert_eq!(fade_target(333, 1, 50, FadeDirection::In), 6);
}

#[test]
fn duck_fades_selected_sessions_to_silence() {
    let infos = vec![info(false, 1, false, 1000), info(false, 2, false, 640)];
    let (ducker, frames) = VolumeDucker::duck(&infos, OWN_PID, ComInit::FreshInit);
    assert!(ducker.owns_com_teardown);
    assert_eq!(ducker.sessions.len(), 2);
    for s in &ducker.sessions {
        assert_eq!(s.current_volume, 0);
    }
    assert_eq!(frames.len(), 50);
    for frame in &frames {
        assert_eq!(frame.len(), 2);
    }
    // First step of the fade-out: original * 49 / 50.
    assert_eq!(frames[0], vec![980, 627]);
    // Last frame is silence.
    assert_eq!(frames[49], vec![0, 0]);
}

// Fade monotonicity on concrete frames: non-increasing out, non-decreasing in.
#[test]
fn fade_frames_are_monotone() {
    let infos = vec![info(false, 1, false, 997)];
    let (mut ducker, out_frames) = VolumeDucker::duck(&infos, OWN_PID, ComInit::FreshInit);
    for k in 1..out_frames.len() {
        assert!(out_frames[k][0] <= out_frames[k - 1][0]);
    }
    let in_frames = ducker.restore();
    for k in 1..in_frames.len() {
        assert!(in_frames[k][0] >= in_frames[k - 1][0]);
    }
}

// Ducking round-trip: after duck() then restore(), each session's volume
// equals its original exactly.
#[test]
fn duck_then_restore_round_trips() {
    let infos = vec![
        info(false, 1, false, 1000),
        info(false, 2, false, 333),
        info(false, 3, false, 1),
    ];
    let (mut ducker, _) = VolumeDucker::duck(&infos, OWN_PID, ComInit::FreshInit);
    let frames = ducker.restore();
    assert_eq!(frames.len(), 50);
    let volumes: Vec<u32> = ducker.sessions.iter().map(|s| s.current_volume).collect();
    assert_eq!(volumes, vec![1000, 333, 1]);
    for s in &ducker.sessions {
        assert_eq!(s.current_volume, s.original_volume);
    }
}

#[test]
fn repeated_restore_is_harmless() {
    let infos = vec![info(false, 1, false, 750)];
    let (mut ducker, _) = VolumeDucker::duck(&infos, OWN_PID, ComInit::FreshInit);
    ducker.restore();
    ducker.restore();
    assert_eq!(ducker.sessions[0].current_volume, 750);
}

#[test]
fn teardown_owed_only_after_fresh_init() {
    let infos: Vec<SessionInfo> = Vec::new();
    let (a, _) = VolumeDucker::duck(&infos, OWN_PID, ComInit::FreshInit);
    assert!(a.owns_teardown());
    let (b, _) = VolumeDucker::duck(&infos, OWN_PID, ComInit::AlreadyCompatible);
    assert!(!b.owns_teardown());
    let (c, _) = VolumeDucker::duck(&infos, OWN_PID, ComInit::AlreadyIncompatible);
    assert!(!c.owns_teardown());
}

#[test]
fn duck_with_no_sessions_is_empty() {
    let infos: Vec<SessionInfo> = Vec::new();
    let (ducker, frames) = VolumeDucker::duck(&infos, OWN_PID, ComInit::FreshInit);
    assert!(ducker.sessions.is_empty());
    assert_eq!(frames.len(), 50);
    assert!(frames.iter().all(|f| f.is_empty()));
}
