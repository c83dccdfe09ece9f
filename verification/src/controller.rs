//! Recording/transcription lifecycle controller.
//!
//! The controller is a state machine driven by the surrounding event loop.
//! Each event handler returns the actions the loop must perform, in order:
//! spawning and joining the capture and model-load threads, tray updates,
//! feedback sounds, transcription, and text injection all happen outside,
//! and their results come back as the next event. The handlers are total:
//! an event that does not apply in the current phase changes nothing and
//! asks for nothing.

use crate::tray::TrayState;
use vstd::prelude::*;

verus! {

/// Where the controller stands in the press/release cycle.
#[derive(Debug, Clone, Copy, PartialEq, Eq, Structural)]
pub enum Phase {
    /// No cycle in progress; cooldown eviction may run.
    Idle,
    /// Between press and release: the capture thread runs, and a model
    /// load may run concurrently.
    Recording,
    /// Release observed with the engine absent: waiting for the load
    /// thread to be joined.
    AwaitLoad,
    /// Engine present after release: waiting for the capture thread to be
    /// joined.
    AwaitCapture,
    /// The load failed after release: the capture thread is still joined,
    /// but its samples are discarded and the cycle aborts.
    Draining,
    /// Capture joined successfully: waiting for the transcription result.
    Transcribing,
}

/// One action the event loop must perform on the controller's behalf.
#[derive(Debug, Clone, PartialEq)]
pub enum Action {
    /// Set the tray icon to the given state.
    SetTray(TrayState),
    /// Best-effort: play the start-of-recording feedback sound.
    PlayStart,
    /// Best-effort: play the end-of-recording feedback sound.
    PlayFinish,
    /// Spawn the background model-load thread.
    SpawnLoad,
    /// Reset the shared stop flag to false for a fresh capture session.
    ResetStopFlag,
    /// Spawn the capture thread bound to the fresh stop flag.
    SpawnCapture,
    /// Set the shared stop flag to true so the capture thread exits.
    SetStopFlag,
    /// Join the model-load thread and report back whether it succeeded.
    JoinLoad,
    /// Join the capture thread and report back its samples, if any.
    JoinCapture,
    /// Run transcription on exactly these captured samples.
    Transcribe(Vec<i32>),
    /// Best-effort: inject exactly this text into the active window.
    Inject(String),
    /// Drop the loaded engine after the cooldown expired.
    UnloadEngine,
}

/// The recording/transcription lifecycle controller.
///
/// `engine_loaded` and `load_pending` stand for the loaded speech engine
/// and the background load thread; `capture_running` for the capture
/// thread. Timestamps are milliseconds on whatever monotone clock the
/// event loop uses.
pub struct RecordingController {
    /// Where the controller stands in the press/release cycle.
    pub phase: Phase,
    /// Whether the transcription engine is currently loaded.
    pub engine_loaded: bool,
    /// Whether a background model load is outstanding.
    pub load_pending: bool,
    /// Whether a capture thread is running (spawned, not yet joined).
    pub capture_running: bool,
    /// When the last recording/transcription cycle completed, if the
    /// engine has been used since it was loaded.
    pub last_use: Option<u64>,
    /// Cooldown: how long after `last_use` the engine stays loaded.
    pub unload_delay: u64,
}

impl RecordingController {
    /// Well-formedness: at most one capture thread and at most one
    /// pending load exist, and each phase agrees with the thread flags.
    pub open spec fn wf(self) -> bool {
        &&& !(self.engine_loaded && self.load_pending)
        &&& match self.phase {
            Phase::Idle => !self.capture_running && !self.load_pending,
            Phase::Recording => self.capture_running && (self.engine_loaded || self.load_pending),
            Phase::AwaitLoad => self.capture_running && self.load_pending && !self.engine_loaded,
            Phase::AwaitCapture => self.capture_running && self.engine_loaded,
            Phase::Draining => self.capture_running && !self.load_pending && !self.engine_loaded,
            Phase::Transcribing => !self.capture_running && self.engine_loaded,
        }
    }

    /// A fresh controller: idle, nothing loaded, no threads.
    pub fn new(unload_delay: u64) -> (r: RecordingController)
        ensures
            r == initial_controller(unload_delay),
            r.wf(),
    {
        RecordingController {
            phase: Phase::Idle,
            engine_loaded: false,
            load_pending: false,
            capture_running: false,
            last_use: None,
            unload_delay,
        }
    }

    /// Handle a hotkey press: in `Idle`, start a recording cycle; in any
    /// other phase the press is ignored.
    pub fn on_press(&mut self) -> (actions: Vec<Action>)
        ensures
            *final(self) == press_post(*old(self)),
            actions@ == press_actions(*old(self)),
    {
        match self.phase {
            Phase::Idle => {
                let spawn_load = !self.engine_loaded && !self.load_pending;
                self.phase = Phase::Recording;
                self.capture_running = true;
                let mut actions: Vec<Action> = Vec::new();
                actions.push(Action::SetTray(TrayState::Recording));
                actions.push(Action::PlayStart);
                if spawn_load {
                    self.load_pending = true;
                    actions.push(Action::SpawnLoad);
                }
                actions.push(Action::ResetStopFlag);
                actions.push(Action::SpawnCapture);
                proof {
                    assert(actions@ =~= press_actions(*old(self)));
                }
                actions
            },
            _ => Vec::new(),
        }
    }

    /// Handle a hotkey release: in `Recording`, signal the capture thread
    /// to stop and move to joining the load (engine absent) or the capture
    /// (engine present); otherwise the release is ignored.
    pub fn on_release(&mut self) -> (actions: Vec<Action>)
        ensures
            *final(self) == release_post(*old(self)),
            actions@ == release_actions(*old(self)),
    {
        match self.phase {
            Phase::Recording => {
                let mut actions: Vec<Action> = Vec::new();
                actions.push(Action::SetStopFlag);
                if self.engine_loaded {
                    self.phase = Phase::AwaitCapture;
                    actions.push(Action::JoinCapture);
                } else {
                    self.phase = Phase::AwaitLoad;
                    actions.push(Action::JoinLoad);
                }
                proof {
                    assert(actions@ =~= release_actions(*old(self)));
                }
                actions
            },
            _ => Vec::new(),
        }
    }

    /// Handle the result of joining the model-load thread. On success the
    /// engine is installed and the capture thread is joined next; on
    /// failure (load error or thread panic) the tray returns to idle, the
    /// capture thread is still joined but its samples will be discarded,
    /// and no cooldown timestamp is stamped.
    pub fn on_load_joined(&mut self, ok: bool) -> (actions: Vec<Action>)
        ensures
            *final(self) == load_joined_post(*old(self), ok),
            actions@ == load_joined_actions(*old(self), ok),
    {
        match self.phase {
            Phase::AwaitLoad => {
                self.load_pending = false;
                let mut actions: Vec<Action> = Vec::new();
                if ok {
                    self.engine_loaded = true;
                    self.phase = Phase::AwaitCapture;
                    actions.push(Action::JoinCapture);
                } else {
                    self.phase = Phase::Draining;
                    actions.push(Action::SetTray(TrayState::Idle));
                    actions.push(Action::JoinCapture);
                }
                proof {
                    assert(actions@ =~= load_joined_actions(*old(self), ok));
                }
                actions
            },
            _ => Vec::new(),
        }
    }

    /// Handle the result of joining the capture thread, `Some(samples)` on
    /// success and `None` on failure or panic. In `AwaitCapture`, success
    /// hands exactly the joined samples to transcription; failure stamps
    /// the cooldown and aborts. In `Draining` (the load had failed) the
    /// result is discarded and the cycle aborts without a stamp.
    pub fn on_capture_joined(&mut self, result: Option<Vec<i32>>, now: u64) -> (actions: Vec<
        Action,
    >)
        ensures
            *final(self) == capture_joined_post(*old(self), result, now),
            actions@ == capture_joined_actions(*old(self), result),
    {
        match self.phase {
            Phase::AwaitCapture => {
                self.capture_running = false;
                let mut actions: Vec<Action> = Vec::new();
                match result {
                    Some(samples) => {
                        self.phase = Phase::Transcribing;
                        actions.push(Action::PlayFinish);
                        actions.push(Action::SetTray(TrayState::Idle));
                        actions.push(Action::Transcribe(samples));
                    },
                    None => {
                        self.phase = Phase::Idle;
                        self.last_use = Some(now);
                        actions.push(Action::SetTray(TrayState::Idle));
                    },
                }
                proof {
                    assert(actions@ =~= capture_joined_actions(*old(self), result));
                }
                actions
            },
            Phase::Draining => {
                self.capture_running = false;
                self.phase = Phase::Idle;
                Vec::new()
            },
            _ => Vec::new(),
        }
    }

    /// Handle the transcription result, `Some(text)` on success and `None`
    /// on failure. Non-empty text is injected exactly once; empty text and
    /// failures inject nothing. Either way the cycle completes and the
    /// cooldown timestamp is stamped.
    pub fn on_transcription_done(&mut self, result: Option<String>, now: u64) -> (actions: Vec<
        Action,
    >)
        ensures
            *final(self) == transcription_done_post(*old(self), now),
            actions@ == transcription_done_actions(*old(self), result),
    {
        match self.phase {
            Phase::Transcribing => {
                self.phase = Phase::Idle;
                self.last_use = Some(now);
                let mut actions: Vec<Action> = Vec::new();
                match result {
                    Some(text) => {
                        if !text.as_str().is_empty() {
                            actions.push(Action::Inject(text));
                        }
                    },
                    None => {},
                }
                proof {
                    assert(actions@ =~= transcription_done_actions(*old(self), result));
                }
                actions
            },
            _ => Vec::new(),
        }
    }

    /// One event-loop tick: if the engine is loaded, no cycle is in
    /// progress, and the cooldown has expired, drop the engine. This is
    /// the only path that frees the engine, and it never runs mid-cycle.
    pub fn on_tick(&mut self, now: u64) -> (actions: Vec<Action>)
        ensures
            *final(self) == tick_post(*old(self), now),
            actions@ == tick_actions(*old(self), now),
    {
        let expired = match self.last_use {
            Some(t) => now >= t && now - t >= self.unload_delay,
            None => false,
        };
        if matches!(self.phase, Phase::Idle) && self.engine_loaded && expired {
            self.engine_loaded = false;
            self.last_use = None;
            let mut actions: Vec<Action> = Vec::new();
            actions.push(Action::UnloadEngine);
            proof {
                assert(actions@ =~= tick_actions(*old(self), now));
            }
            actions
        } else {
            Vec::new()
        }
    }
}

/// The state `RecordingController::new` returns.
pub open spec fn initial_controller(unload_delay: u64) -> RecordingController {
    RecordingController {
        phase: Phase::Idle,
        engine_loaded: false,
        load_pending: false,
        capture_running: false,
        last_use: None,
        unload_delay,
    }
}

/// Whether a press in `Idle` spawns a background model load.
pub open spec fn press_spawns_load(s: RecordingController) -> bool {
    !s.engine_loaded && !s.load_pending
}

/// State after a press event.
pub open spec fn press_post(s: RecordingController) -> RecordingController {
    if s.phase is Idle {
        RecordingController {
            phase: Phase::Recording,
            load_pending: s.load_pending || press_spawns_load(s),
            capture_running: true,
            ..s
        }
    } else {
        s
    }
}

/// Actions requested by a press event.
pub open spec fn press_actions(s: RecordingController) -> Seq<Action> {
    if s.phase is Idle {
        if press_spawns_load(s) {
            seq![
                Action::SetTray(TrayState::Recording),
                Action::PlayStart,
                Action::SpawnLoad,
                Action::ResetStopFlag,
                Action::SpawnCapture,
            ]
        } else {
            seq![
                Action::SetTray(TrayState::Recording),
                Action::PlayStart,
                Action::ResetStopFlag,
                Action::SpawnCapture,
            ]
        }
    } else {
        Seq::empty()
    }
}

/// State after a release event.
pub open spec fn release_post(s: RecordingController) -> RecordingController {
    if s.phase is Recording {
        if s.engine_loaded {
            RecordingController { phase: Phase::AwaitCapture, ..s }
        } else {
            RecordingController { phase: Phase::AwaitLoad, ..s }
        }
    } else {
        s
    }
}

/// Actions requested by a release event.
pub open spec fn release_actions(s: RecordingController) -> Seq<Action> {
    if s.phase is Recording {
        if s.engine_loaded {
            seq![Action::SetStopFlag, Action::JoinCapture]
        } else {
            seq![Action::SetStopFlag, Action::JoinLoad]
        }
    } else {
        Seq::empty()
    }
}

/// State after the model-load thread is joined.
pub open spec fn load_joined_post(s: RecordingController, ok: bool) -> RecordingController {
    if s.phase is AwaitLoad {
        if ok {
            RecordingController {
                phase: Phase::AwaitCapture,
                engine_loaded: true,
                load_pending: false,
                ..s
            }
        } else {
            RecordingController { phase: Phase::Draining, load_pending: false, ..s }
        }
    } else {
        s
    }
}

/// Actions requested after the model-load thread is joined.
pub open spec fn load_joined_actions(s: RecordingController, ok: bool) -> Seq<Action> {
    if s.phase is AwaitLoad {
        if ok {
            seq![Action::JoinCapture]
        } else {
            seq![Action::SetTray(TrayState::Idle), Action::JoinCapture]
        }
    } else {
        Seq::empty()
    }
}

/// State after the capture thread is joined.
pub open spec fn capture_joined_post(
    s: RecordingController,
    result: Option<Vec<i32>>,
    now: u64,
) -> RecordingController {
    if s.phase is AwaitCapture {
        if result is Some {
            RecordingController { phase: Phase::Transcribing, capture_running: false, ..s }
        } else {
            RecordingController {
                phase: Phase::Idle,
                capture_running: false,
                last_use: Some(now),
                ..s
            }
        }
    } else if s.phase is Draining {
        RecordingController { phase: Phase::Idle, capture_running: false, ..s }
    } else {
        s
    }
}

/// Actions requested after the capture thread is joined. On success the
/// `Transcribe` action carries exactly the samples the join returned.
pub open spec fn capture_joined_actions(s: RecordingController, result: Option<Vec<i32>>) -> Seq<
    Action,
> {
    if s.phase is AwaitCapture {
        match result {
            Some(samples) => seq![
                Action::PlayFinish,
                Action::SetTray(TrayState::Idle),
                Action::Transcribe(samples),
            ],
            None => seq![Action::SetTray(TrayState::Idle)],
        }
    } else {
        Seq::empty()
    }
}

/// State after the transcription result arrives.
pub open spec fn transcription_done_post(s: RecordingController, now: u64) -> RecordingController {
    if s.phase is Transcribing {
        RecordingController { phase: Phase::Idle, last_use: Some(now), ..s }
    } else {
        s
    }
}

/// Actions requested after the transcription result arrives: inject the
/// text exactly once if it is non-empty, nothing otherwise.
pub open spec fn transcription_done_actions(s: RecordingController, result: Option<String>) -> Seq<
    Action,
> {
    if s.phase is Transcribing {
        match result {
            Some(text) => if text@.len() > 0 {
                seq![Action::Inject(text)]
            } else {
                Seq::empty()
            },
            None => Seq::empty(),
        }
    } else {
        Seq::empty()
    }
}

/// Whether the cooldown has expired at time `now`.
pub open spec fn cooldown_expired(s: RecordingController, now: u64) -> bool {
    match s.last_use {
        Some(t) => now - t >= s.unload_delay,
        None => false,
    }
}

/// State after an event-loop tick at time `now`.
pub open spec fn tick_post(s: RecordingController, now: u64) -> RecordingController {
    if s.phase is Idle && s.engine_loaded && cooldown_expired(s, now) {
        RecordingController { engine_loaded: false, last_use: None, ..s }
    } else {
        s
    }
}

/// Actions requested by an event-loop tick at time `now`.
pub open spec fn tick_actions(s: RecordingController, now: u64) -> Seq<Action> {
    if s.phase is Idle && s.engine_loaded && cooldown_expired(s, now) {
        seq![Action::UnloadEngine]
    } else {
        Seq::empty()
    }
}

/// At most one capture thread and at most one pending model load exist at
/// any instant: a spawn is only requested when the corresponding thread is
/// absent, and every event preserves well-formedness, so the flags never
/// count two of either.
pub proof fn lemma_at_most_one_thread(
    s: RecordingController,
    ok: bool,
    result: Option<Vec<i32>>,
    now: u64,
)
    requires
        s.wf(),
    ensures
        press_actions(s).contains(Action::SpawnCapture) ==> !s.capture_running,
        press_actions(s).contains(Action::SpawnLoad) ==> !s.load_pending,
        press_post(s).wf(),
        release_post(s).wf(),
        load_joined_post(s, ok).wf(),
        capture_joined_post(s, result, now).wf(),
        transcription_done_post(s, now).wf(),
        tick_post(s, now).wf(),
{
}

/// Transcription and injection have exactly one source each: only a
/// successful capture join requests `Transcribe`, and only a transcription
/// result requests `Inject`. No other event can slip samples or text in.
pub proof fn lemma_transcribe_and_inject_sources(
    s: RecordingController,
    ok: bool,
    result: Option<Vec<i32>>,
    tresult: Option<String>,
    now: u64,
)
    ensures
        forall|i: int|
            0 <= i < press_actions(s).len() ==> !((#[trigger] press_actions(s)[i]) is Transcribe)
                && !(press_actions(s)[i] is Inject),
        forall|i: int|
            0 <= i < release_actions(s).len() ==> !((#[trigger] release_actions(
                s,
            )[i]) is Transcribe) && !(release_actions(s)[i] is Inject),
        forall|i: int|
            0 <= i < load_joined_actions(s, ok).len() ==> !((#[trigger] load_joined_actions(
                s,
                ok,
            )[i]) is Transcribe) && !(load_joined_actions(s, ok)[i] is Inject),
        forall|i: int|
            0 <= i < capture_joined_actions(s, result).len() ==> !((
            #[trigger] capture_joined_actions(s, result)[i]) is Inject),
        forall|i: int|
            0 <= i < transcription_done_actions(s, tresult).len() ==> !((
            #[trigger] transcription_done_actions(s, tresult)[i]) is Transcribe),
        forall|i: int|
            0 <= i < tick_actions(s, now).len() ==> !((#[trigger] tick_actions(
                s,
                now,
            )[i]) is Transcribe) && !(tick_actions(s, now)[i] is Inject),
{
}

/// If the release finds the engine absent and the model load fails, the
/// rest of the cycle requests no transcription and no injection, the tray
/// returns to idle, and once the capture thread has been joined (and its
/// samples discarded) the controller is idle again with no engine loaded
/// and no cooldown stamp added.
pub proof fn lemma_load_failure_no_injection(
    s: RecordingController,
    result: Option<Vec<i32>>,
    now: u64,
)
    requires
        s.wf(),
        s.phase is AwaitLoad,
    ensures
        ({
            let failed = load_joined_post(s, false);
            let acts = load_joined_actions(s, false) + capture_joined_actions(failed, result);
            &&& forall|i: int|
                0 <= i < acts.len() ==> !((#[trigger] acts[i]) is Inject) && !(acts[i] is Transcribe)
            &&& acts.contains(Action::SetTray(TrayState::Idle))
            &&& capture_joined_post(failed, result, now).phase is Idle
            &&& !capture_joined_post(failed, result, now).engine_loaded
            &&& capture_joined_post(failed, result, now).last_use == s.last_use
        }),
{
    let failed = load_joined_post(s, false);
    let acts = load_joined_actions(s, false) + capture_joined_actions(failed, result);
    assert(acts =~= seq![Action::SetTray(TrayState::Idle), Action::JoinCapture]);
    assert(acts[0] == Action::SetTray(TrayState::Idle));
}

/// Cooldown boundary: with `last_use == Some(t0)` and the engine loaded,
/// an idle tick strictly before `t0 + unload_delay` changes nothing, and
/// any tick at or past `t0 + unload_delay` unloads the engine and clears
/// the stamp.
pub proof fn lemma_cooldown_boundary(s: RecordingController, t0: u64, now: u64)
    requires
        s.phase is Idle,
        s.engine_loaded,
        s.last_use == Some(t0),
    ensures
        now - t0 < s.unload_delay ==> tick_post(s, now) == s && tick_actions(s, now)
            == Seq::<Action>::empty(),
        now - t0 >= s.unload_delay ==> !tick_post(s, now).engine_loaded && tick_post(
            s,
            now,
        ).last_use is None && tick_actions(s, now) == seq![Action::UnloadEngine],
{
}

/// Cooldown eviction is the only path that frees the loaded engine: no
/// press, release, join or transcription result unloads it, and a tick
/// leaves it loaded unless the controller is idle and the cooldown has
/// expired — so eviction can never fire mid-cycle.
pub proof fn lemma_engine_freed_only_by_cooldown(
    s: RecordingController,
    ok: bool,
    result: Option<Vec<i32>>,
    now: u64,
)
    requires
        s.engine_loaded,
    ensures
        press_post(s).engine_loaded,
        release_post(s).engine_loaded,
        load_joined_post(s, ok).engine_loaded,
        capture_joined_post(s, result, now).engine_loaded,
        transcription_done_post(s, now).engine_loaded,
        !(s.phase is Idle && cooldown_expired(s, now)) ==> tick_post(s, now).engine_loaded,
{
}

/// The state after a whole sequence of event-loop ticks, in order.
pub open spec fn ticks_post(s: RecordingController, times: Seq<u64>) -> RecordingController
    decreases times.len(),
{
    if times.len() == 0 {
        s
    } else {
        tick_post(ticks_post(s, times.drop_last()), times.last())
    }
}

/// While idle with `last_use == Some(t0)`, the engine stays loaded across
/// every sequence of ticks that all fall before `t0 + unload_delay`: the
/// controller is unchanged, so the engine is present at each of them.
pub proof fn lemma_cooldown_keeps_engine_across_ticks(
    s: RecordingController,
    t0: u64,
    times: Seq<u64>,
)
    requires
        s.phase is Idle,
        s.engine_loaded,
        s.last_use == Some(t0),
        forall|i: int| 0 <= i < times.len() ==> #[trigger] times[i] - t0 < s.unload_delay,
    ensures
        ticks_post(s, times) == s,
    decreases times.len(),
{
    if times.len() > 0 {
        assert forall|i: int| 0 <= i < times.drop_last().len() implies #[trigger] times.drop_last(
        )[i] - t0 < s.unload_delay by {
            assert(times.drop_last()[i] == times[i]);
        }
        lemma_cooldown_keeps_engine_across_ticks(s, t0, times.drop_last());
        lemma_cooldown_boundary(s, t0, times.last());
    }
}

/// The samples handed to transcription are exactly and only those the
/// capture thread returned for this session: over a full cycle from `Idle`
/// (press, release, a successful load join when the engine was absent,
/// then the capture join), the one `Transcribe` action carries the joined
/// samples unchanged.
pub proof fn lemma_transcribed_samples_exact(s: RecordingController, samples: Vec<i32>)
    requires
        s.wf(),
        s.phase is Idle,
    ensures
        ({
            let released = release_post(press_post(s));
            &&& s.engine_loaded ==> capture_joined_actions(released, Some(samples)) == seq![
                Action::PlayFinish,
                Action::SetTray(TrayState::Idle),
                Action::Transcribe(samples),
            ]
            &&& !s.engine_loaded ==> capture_joined_actions(
                load_joined_post(released, true),
                Some(samples),
            ) == seq![
                Action::PlayFinish,
                Action::SetTray(TrayState::Idle),
                Action::Transcribe(samples),
            ]
        }),
{
}

} // verus!
