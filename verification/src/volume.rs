//! Audio ducking: session selection and timed volume fades.
//!
//! The operating system's audio sessions are enumerated by the surrounding
//! program, which hands the library one `SessionInfo` per session, as plain
//! values. The library decides which sessions to duck, computes every step
//! of the linear fades, and keeps the volumes needed to restore each ducked
//! session exactly. Volumes are fixed-point: `VOLUME_UNIT` is full volume.
//! The surrounding program writes each frame of a fade to the sessions and
//! sleeps `FADE_STEP_INTERVAL_MS` between frames.

use vstd::arithmetic::div_mod::{
    lemma_div_is_ordered, lemma_div_multiples_vanish, lemma_div_of0, lemma_div_pos_is_pos,
};
use vstd::arithmetic::mul::{
    lemma_mul_inequality, lemma_mul_is_commutative, lemma_mul_nonnegative, lemma_mul_upper_bound,
};
use vstd::prelude::*;

verus! {

/// Full volume, in fixed-point volume units.
pub const VOLUME_UNIT: u32 = 1000;

/// Duration of the fade-out and fade-in transitions, in milliseconds.
pub const FADE_DURATION_MS: u64 = 500;

/// Interval between volume steps during a fade, in milliseconds.
pub const FADE_STEP_INTERVAL_MS: u64 = 10;

/// Outcome of the one-time platform audio-subsystem initialization that a
/// ducking session attempts before enumerating sessions.
#[derive(Debug, Clone, Copy, PartialEq, Eq, Structural)]
pub enum ComInit {
    /// This caller performed the initialization; it owes the teardown.
    FreshInit,
    /// The subsystem was already initialized in a compatible mode.
    AlreadyCompatible,
    /// The subsystem was already initialized in an incompatible mode; it
    /// can still be used, but must not be torn down by this caller.
    AlreadyIncompatible,
}

/// Direction of a volume fade.
#[derive(Debug, Clone, Copy, PartialEq, Eq, Structural)]
pub enum FadeDirection {
    /// Fade volume from the original level down to silence.
    Out,
    /// Fade volume from silence back up to the original level.
    In,
}

/// What the surrounding program observed about one OS audio session.
#[derive(Debug, Clone, Copy, PartialEq, Eq, Structural)]
pub struct SessionInfo {
    /// Whether the session reported the expired state.
    pub expired: bool,
    /// Process id owning the session; 0 is a legitimate value reported by
    /// sandboxed processes and is not treated as expired.
    pub pid: u32,
    /// Whether the session is the system-sounds session.
    pub system_sounds: bool,
    /// Current volume, in fixed-point units of `VOLUME_UNIT`.
    pub volume: u32,
}

/// Stored state of a single ducked audio session.
#[derive(Debug, Clone, Copy, PartialEq, Eq, Structural)]
pub struct DuckedSession {
    /// Volume recorded before ducking began; restoration target.
    pub original_volume: u32,
    /// Volume most recently computed for this session.
    pub current_volume: u32,
}

/// Whether a session is ducked: expired sessions, the caller's own
/// process, system sounds, and already-silent sessions are skipped.
pub open spec fn should_duck(info: SessionInfo, own_pid: u32) -> bool {
    &&& !info.expired
    &&& info.pid != own_pid
    &&& !info.system_sounds
    &&& info.volume != 0
}

/// The ducked-session record made from one observed session.
pub open spec fn ducked_from(info: SessionInfo) -> DuckedSession {
    DuckedSession { original_volume: info.volume, current_volume: info.volume }
}

/// The ducked-session records selected from a list of observed sessions,
/// in order of observation.
pub open spec fn selected(infos: Seq<SessionInfo>, own_pid: u32) -> Seq<DuckedSession>
    decreases infos.len(),
{
    if infos.len() == 0 {
        Seq::empty()
    } else {
        let rest = selected(infos.drop_last(), own_pid);
        if should_duck(infos.last(), own_pid) {
            rest.push(ducked_from(infos.last()))
        } else {
            rest
        }
    }
}

/// The number of steps in a fade.
pub open spec fn spec_fade_steps() -> int {
    if FADE_DURATION_MS as int / FADE_STEP_INTERVAL_MS as int >= 1 {
        FADE_DURATION_MS as int / FADE_STEP_INTERVAL_MS as int
    } else {
        1
    }
}

/// The volume of a session with the given original volume at step `step`
/// of `steps` of a fade: linear interpolation, downward for a fade-out
/// and upward for a fade-in.
pub open spec fn fade_level(original: u32, step: int, steps: int, direction: FadeDirection) -> int {
    match direction {
        FadeDirection::Out => original as int * (steps - step) / steps,
        FadeDirection::In => original as int * step / steps,
    }
}

/// Fade levels never rise above the original volume.
pub proof fn lemma_fade_level_bounded(original: u32, step: int, steps: int, dir: FadeDirection)
    requires
        1 <= steps,
        0 <= step <= steps,
    ensures
        0 <= fade_level(original, step, steps, dir) <= original,
{
    let w = match dir {
        FadeDirection::Out => steps - step,
        FadeDirection::In => step,
    };
    lemma_mul_nonnegative(original as int, w);
    lemma_div_pos_is_pos(original as int * w, steps);
    lemma_mul_inequality(w, steps, original as int);
    lemma_mul_is_commutative(original as int, w);
    lemma_mul_is_commutative(original as int, steps);
    lemma_div_is_ordered(original as int * w, original as int * steps, steps);
    lemma_div_multiples_vanish(original as int, steps);
    lemma_mul_is_commutative(steps, original as int);
}

/// During a fade-out the level is non-increasing step over step.
pub proof fn lemma_fade_out_monotone(original: u32, k1: int, k2: int, steps: int)
    requires
        1 <= steps,
        0 <= k1 <= k2 <= steps,
    ensures
        fade_level(original, k2, steps, FadeDirection::Out) <= fade_level(
            original,
            k1,
            steps,
            FadeDirection::Out,
        ),
{
    lemma_mul_inequality(steps - k2, steps - k1, original as int);
    lemma_mul_is_commutative(original as int, steps - k2);
    lemma_mul_is_commutative(original as int, steps - k1);
    lemma_div_is_ordered(
        original as int * (steps - k2),
        original as int * (steps - k1),
        steps,
    );
}

/// During a fade-in the level is non-decreasing step over step.
pub proof fn lemma_fade_in_monotone(original: u32, k1: int, k2: int, steps: int)
    requires
        1 <= steps,
        0 <= k1 <= k2 <= steps,
    ensures
        fade_level(original, k1, steps, FadeDirection::In) <= fade_level(
            original,
            k2,
            steps,
            FadeDirection::In,
        ),
{
    lemma_mul_inequality(k1, k2, original as int);
    lemma_mul_is_commutative(original as int, k1);
    lemma_mul_is_commutative(original as int, k2);
    lemma_div_is_ordered(original as int * k1, original as int * k2, steps);
}

/// The last step of a fade-in restores the original volume exactly.
pub proof fn lemma_fade_in_restores(original: u32, steps: int)
    requires
        1 <= steps,
    ensures
        fade_level(original, steps, steps, FadeDirection::In) == original,
{
    lemma_div_multiples_vanish(original as int, steps);
    lemma_mul_is_commutative(original as int, steps);
}

/// The last step of a fade-out reaches silence exactly.
pub proof fn lemma_fade_out_silences(original: u32, steps: int)
    requires
        1 <= steps,
    ensures
        fade_level(original, steps, steps, FadeDirection::Out) == 0,
{
    lemma_div_of0(steps);
}

/// The frames of a fade are monotone for every session: non-increasing
/// step over step for a fade-out, non-decreasing for a fade-in.
pub proof fn lemma_fade_frames_monotone(
    frames: Seq<Vec<u32>>,
    sessions: Seq<DuckedSession>,
    direction: FadeDirection,
    k1: int,
    k2: int,
    i: int,
)
    requires
        fade_frames_spec(frames, sessions, direction),
        0 <= k1 <= k2 < frames.len(),
        0 <= i < sessions.len(),
    ensures
        direction is Out ==> frames[k2]@[i] <= frames[k1]@[i],
        direction is In ==> frames[k1]@[i] <= frames[k2]@[i],
{
    let steps = spec_fade_steps();
    match direction {
        FadeDirection::Out => lemma_fade_out_monotone(
            sessions[i].original_volume,
            k1 + 1,
            k2 + 1,
            steps,
        ),
        FadeDirection::In => lemma_fade_in_monotone(
            sessions[i].original_volume,
            k1 + 1,
            k2 + 1,
            steps,
        ),
    }
}

/// Whether the given observed session is ducked rather than skipped.
pub fn session_passes_filter(info: &SessionInfo, own_pid: u32) -> (r: bool)
    ensures
        r == should_duck(*info, own_pid),
{
    !info.expired && info.pid != own_pid && !info.system_sounds && info.volume != 0
}

/// Select the sessions to duck from the observed sessions, keeping each
/// selected session's volume as the restoration target.
pub fn select_sessions(infos: &Vec<SessionInfo>, own_pid: u32) -> (r: Vec<DuckedSession>)
    ensures
        r@ == selected(infos@, own_pid),
{
    let mut r: Vec<DuckedSession> = Vec::new();
    let mut i: usize = 0;
    while i < infos.len()
        invariant
            i <= infos.len(),
            r@ == selected(infos@.subrange(0, i as int), own_pid),
        decreases infos.len() - i,
    {
        let info = infos[i];
        proof {
            assert(infos@.subrange(0, i + 1).drop_last() =~= infos@.subrange(0, i as int));
            assert(infos@.subrange(0, i + 1).last() == infos@[i as int]);
        }
        if session_passes_filter(&info, own_pid) {
            r.push(
                DuckedSession { original_volume: info.volume, current_volume: info.volume },
            );
        }
        i = i + 1;
    }
    proof {
        assert(infos@.subrange(0, infos@.len() as int) =~= infos@);
    }
    r
}

/// Number of steps in a fade: the fade duration divided into fixed-size
/// intervals, and at least one step.
pub fn fade_step_count() -> (n: u32)
    ensures
        n as int == spec_fade_steps(),
        1 <= n,
{
    let s: u64 = FADE_DURATION_MS / FADE_STEP_INTERVAL_MS;
    if s < 1 {
        1
    } else {
        s as u32
    }
}

/// The volume to write for one session at one step of a fade.
pub fn fade_target(original: u32, step: u32, steps: u32, direction: FadeDirection) -> (v: u32)
    requires
        1 <= steps,
        step <= steps,
    ensures
        v as int == fade_level(original, step as int, steps as int, direction),
        v <= original,
{
    let weight: u32 = match direction {
        FadeDirection::Out => steps - step,
        FadeDirection::In => step,
    };
    proof {
        lemma_mul_upper_bound(original as int, u32::MAX as int, weight as int, u32::MAX as int);
    }
    let num: u64 = (original as u64) * (weight as u64);
    let v64: u64 = num / (steps as u64);
    proof {
        lemma_fade_level_bounded(original, step as int, steps as int, direction);
    }
    v64 as u32
}

/// Manages fading other applications' audio during recording.
///
/// Built by [`VolumeDucker::duck`], which selects the sessions to duck and
/// computes their fade-out; restored by [`VolumeDucker::restore`]. The
/// surrounding program owns the scope-exit discipline: it must run the
/// restore exactly once, also on abnormal unwind, before the ducker is
/// reclaimed, and tear the platform audio subsystem down only when
/// [`VolumeDucker::owns_teardown`] says this ducker initialized it.
pub struct VolumeDucker {
    /// Sessions that were ducked and need to be restored.
    pub sessions: Vec<DuckedSession>,
    /// Whether this ducker performed the platform audio-subsystem
    /// initialization and therefore owes the matching teardown.
    pub owns_com_teardown: bool,
}

impl VolumeDucker {
    /// No ducked session is ever above its restoration target.
    pub open spec fn wf(self) -> bool {
        forall|i: int|
            0 <= i < self.sessions@.len() ==> #[trigger] self.sessions@[i].current_volume
                <= self.sessions@[i].original_volume
    }

    /// Select every other audio session worth ducking and compute their
    /// fade to silence.
    ///
    /// Returns the ducker holding the original volumes for restoration,
    /// and the fade-out frames: one volume per step and selected session,
    /// for the surrounding program to write with a fixed sleep between
    /// frames. When the frames have been applied, every selected session
    /// is silent. Teardown of the platform audio subsystem is owed only
    /// when this call freshly initialized it.
    pub fn duck(infos: &Vec<SessionInfo>, own_pid: u32, init: ComInit) -> (r: (
        VolumeDucker,
        Vec<Vec<u32>>,
    ))
        ensures
            r.0.wf(),
            r.0.owns_com_teardown == (init is FreshInit),
            r.0.sessions@.len() == selected(infos@, own_pid).len(),
            forall|i: int|
                0 <= i < r.0.sessions@.len() ==> #[trigger] r.0.sessions@[i].original_volume
                    == selected(infos@, own_pid)[i].original_volume,
            forall|i: int|
                0 <= i < r.0.sessions@.len() ==> #[trigger] r.0.sessions@[i].current_volume == 0,
            fade_frames_spec(r.1@, selected(infos@, own_pid), FadeDirection::Out),
    {
        let mut ducker = VolumeDucker {
            sessions: select_sessions(infos, own_pid),
            owns_com_teardown: matches!(init, ComInit::FreshInit),
        };
        let frames = ducker.fade(FadeDirection::Out);
        proof {
            assert forall|i: int|
                0 <= i < ducker.sessions@.len() implies #[trigger] ducker.sessions@[i].current_volume
                == 0 by {
                lemma_fade_out_silences(ducker.sessions@[i].original_volume, spec_fade_steps());
            }
        }
        (ducker, frames)
    }

    /// Compute the fade-in that restores every ducked session to its
    /// original volume, exactly.
    ///
    /// Returns the fade-in frames for the surrounding program to write.
    /// When the frames have been applied, every session's volume equals
    /// the volume recorded before ducking. Repeating the restore is
    /// harmless: it fades from the already-restored volume back to the
    /// same target.
    pub fn restore(&mut self) -> (frames: Vec<Vec<u32>>)
        ensures
            final(self).sessions@.len() == old(self).sessions@.len(),
            final(self).owns_com_teardown == old(self).owns_com_teardown,
            forall|i: int|
                0 <= i < old(self).sessions@.len() ==> #[trigger] final(self).sessions@[i]
                    == (DuckedSession {
                    original_volume: old(self).sessions@[i].original_volume,
                    current_volume: old(self).sessions@[i].original_volume,
                }),
            final(self).wf(),
            fade_frames_spec(frames@, old(self).sessions@, FadeDirection::In),
    {
        let frames = self.fade(FadeDirection::In);
        proof {
            let n = spec_fade_steps();
            assert forall|i: int|
                0 <= i < old(self).sessions@.len() implies #[trigger] self.sessions@[i]
                == (DuckedSession {
                original_volume: old(self).sessions@[i].original_volume,
                current_volume: old(self).sessions@[i].original_volume,
            }) by {
                assert(self.sessions@[i].original_volume == old(
                    self,
                ).sessions@[i].original_volume);
                assert(self.sessions@[i].current_volume as int == fade_level(
                    old(self).sessions@[i].original_volume,
                    n,
                    n,
                    FadeDirection::In,
                ));
                lemma_fade_in_restores(old(self).sessions@[i].original_volume, n);
            }
        }
        frames
    }

    /// Whether this ducker must tear the platform audio subsystem down.
    pub fn owns_teardown(&self) -> (r: bool)
        ensures
            r == self.owns_com_teardown,
    {
        self.owns_com_teardown
    }

    /// Apply a linear fade in the given direction across all ducked
    /// sessions: all sessions advance in lock-step, one frame per step.
    ///
    /// Returns the frames of volumes to write; each session's record is
    /// advanced to its last frame.
    pub fn fade(&mut self, direction: FadeDirection) -> (frames: Vec<Vec<u32>>)
        ensures
            final(self).sessions@.len() == old(self).sessions@.len(),
            final(self).owns_com_teardown == old(self).owns_com_teardown,
            forall|i: int|
                0 <= i < old(self).sessions@.len()
                    ==> #[trigger] final(self).sessions@[i].original_volume
                    == old(self).sessions@[i].original_volume,
            forall|i: int|
                0 <= i < old(self).sessions@.len()
                    ==> #[trigger] final(self).sessions@[i].current_volume as int == fade_level(
                    old(self).sessions@[i].original_volume,
                    spec_fade_steps(),
                    spec_fade_steps(),
                    direction,
                ),
            final(self).wf(),
            fade_frames_spec(frames@, old(self).sessions@, direction),
    {
        let steps = fade_step_count();
        let mut frames: Vec<Vec<u32>> = Vec::new();
        let mut step: u32 = 1;
        while step <= steps
            invariant
                1 <= step <= steps + 1,
                steps as int == spec_fade_steps(),
                self.sessions@.len() == old(self).sessions@.len(),
                self.owns_com_teardown == old(self).owns_com_teardown,
                forall|i: int|
                    0 <= i < old(self).sessions@.len() ==> #[trigger] self.sessions@[i].original_volume
                        == old(self).sessions@[i].original_volume,
                frames@.len() == step - 1,
                forall|k: int|
                    0 <= k < frames@.len() ==> #[trigger] frames@[k]@.len() == old(
                        self,
                    ).sessions@.len(),
                forall|k: int, i: int|
                    0 <= k < frames@.len() && 0 <= i < old(self).sessions@.len()
                        ==> #[trigger] frames@[k]@[i] as int == fade_level(
                        old(self).sessions@[i].original_volume,
                        k + 1,
                        steps as int,
                        direction,
                    ),
                step > 1 ==> forall|i: int|
                    0 <= i < old(self).sessions@.len() ==> #[trigger] self.sessions@[i].current_volume
                        as int == fade_level(
                        old(self).sessions@[i].original_volume,
                        step - 1,
                        steps as int,
                        direction,
                    ),
                step == 1 ==> self.sessions@ == old(self).sessions@,
            decreases steps + 1 - step,
        {
            let mut frame: Vec<u32> = Vec::new();
            let mut i: usize = 0;
            while i < self.sessions.len()
                invariant
                    i <= self.sessions@.len(),
                    1 <= step <= steps,
                    steps as int == spec_fade_steps(),
                    self.sessions@.len() == old(self).sessions@.len(),
                    self.owns_com_teardown == old(self).owns_com_teardown,
                    forall|j: int|
                        0 <= j < old(self).sessions@.len()
                            ==> #[trigger] self.sessions@[j].original_volume == old(
                            self,
                        ).sessions@[j].original_volume,
                    frame@.len() == i,
                    forall|j: int|
                        0 <= j < i ==> #[trigger] frame@[j] as int == fade_level(
                            old(self).sessions@[j].original_volume,
                            step as int,
                            steps as int,
                            direction,
                        ),
                    forall|j: int|
                        0 <= j < i ==> #[trigger] self.sessions@[j].current_volume == frame@[j],
                decreases self.sessions@.len() - i,
            {
                let target = fade_target(
                    self.sessions[i].original_volume,
                    step,
                    steps,
                    direction,
                );
                frame.push(target);
                self.sessions[i].current_volume = target;
                i = i + 1;
            }
            frames.push(frame);
            step = step + 1;
        }
        proof {
            assert forall|i: int|
                0 <= i < old(self).sessions@.len() implies #[trigger] self.sessions@[i].current_volume
                <= self.sessions@[i].original_volume by {
                lemma_fade_level_bounded(
                    old(self).sessions@[i].original_volume,
                    spec_fade_steps(),
                    spec_fade_steps(),
                    direction,
                );
            }
        }
        frames
    }
}

/// The frames of a fade over the given sessions: one frame per step, one
/// volume per session, each the linear interpolation for that step.
pub open spec fn fade_frames_spec(
    frames: Seq<Vec<u32>>,
    sessions: Seq<DuckedSession>,
    direction: FadeDirection,
) -> bool {
    &&& frames.len() == spec_fade_steps()
    &&& forall|k: int| 0 <= k < frames.len() ==> #[trigger] frames[k]@.len() == sessions.len()
    &&& forall|k: int, i: int|
        0 <= k < frames.len() && 0 <= i < sessions.len() ==> #[trigger] frames[k]@[i] as int
            == fade_level(sessions[i].original_volume, k + 1, spec_fade_steps(), direction)
}

} // verus!
