//! Captured audio samples and volume boost.
//!
//! The microphone stream is a platform service; the capture thread owns a
//! `SampleBuffer` for the session's duration, appends each chunk the
//! device delivers with the configured boost applied, and hands the
//! buffer over when it is joined. Samples are fixed-point amplitudes and
//! the boost is a count of thousandths (1000 is unity gain); boosted
//! values are clamped to the sample range.

use vstd::arithmetic::mul::lemma_mul_upper_bound;
use vstd::prelude::*;

verus! {

/// A sample scaled by a boost of `boost_milli` thousandths, truncated
/// toward zero and clamped to the `i32` range.
pub open spec fn scaled_sample(s: i32, boost_milli: u32) -> int {
    if s >= 0 {
        let v = s as int * boost_milli as int / 1000;
        if v > i32::MAX as int {
            i32::MAX as int
        } else {
            v
        }
    } else {
        let v = (-(s as int)) * boost_milli as int / 1000;
        if v > -(i32::MIN as int) {
            i32::MIN as int
        } else {
            -v
        }
    }
}

/// `scaled_sample`, as an `i32` (its value always fits).
pub open spec fn scaled_sample_i32(s: i32, boost_milli: u32) -> i32 {
    scaled_sample(s, boost_milli) as i32
}

/// Scale one sample by the boost, clamping to the sample range.
pub fn scale_sample(s: i32, boost_milli: u32) -> (r: i32)
    ensures
        r as int == scaled_sample(s, boost_milli),
        r == scaled_sample_i32(s, boost_milli),
{
    if s >= 0 {
        proof {
            lemma_mul_upper_bound(s as int, i32::MAX as int, boost_milli as int, u32::MAX as int);
        }
        let mag: u64 = (s as u64) * (boost_milli as u64) / 1000;
        if mag > i32::MAX as u64 {
            i32::MAX
        } else {
            mag as i32
        }
    } else {
        let neg: i64 = s as i64;
        let mag0: u64 = (-neg) as u64;
        proof {
            lemma_mul_upper_bound(
                mag0 as int,
                0x8000_0000,
                boost_milli as int,
                u32::MAX as int,
            );
        }
        let mag: u64 = mag0 * (boost_milli as u64) / 1000;
        if mag > 0x8000_0000u64 {
            i32::MIN
        } else {
            (-(mag as i64)) as i32
        }
    }
}

/// Audio recorder settings: the boost applied to every captured sample.
///
/// The microphone stream itself is opened and polled by the surrounding
/// program; the recorder owns the one piece of capture logic, scaling
/// each delivered chunk into the session's buffer.
pub struct AudioRecorder {
    boost_milli: u32,
}

impl AudioRecorder {
    /// The configured boost, in thousandths.
    pub closed spec fn spec_boost(&self) -> u32 {
        self.boost_milli
    }

    /// Create a new audio recorder with the given boost.
    pub fn new(boost_milli: u32) -> (r: AudioRecorder)
        ensures
            r.spec_boost() == boost_milli,
    {
        AudioRecorder { boost_milli }
    }

    /// Append one chunk from the device to the session's buffer, scaled
    /// by the configured boost.
    pub fn record_chunk(&self, buffer: &mut SampleBuffer, chunk: &Vec<i32>)
        ensures
            final(buffer)@ == old(buffer)@ + chunk@.map_values(
                |c: i32| scaled_sample_i32(c, self.spec_boost()),
            ),
    {
        buffer.push_chunk(chunk, self.boost_milli);
    }
}

/// The sample buffer of one recording session.
///
/// Created at press, appended to exclusively by the capture thread while
/// the session lasts, and consumed exactly once, by `take`, after the
/// thread is joined.
pub struct SampleBuffer {
    samples: Vec<i32>,
}

impl View for SampleBuffer {
    type V = Seq<i32>;

    closed spec fn view(&self) -> Seq<i32> {
        self.samples@
    }
}

impl SampleBuffer {
    /// An empty buffer for a fresh session.
    pub fn new() -> (r: SampleBuffer)
        ensures
            r@ == Seq::<i32>::empty(),
    {
        SampleBuffer { samples: Vec::new() }
    }

    /// How many samples have been captured.
    pub fn len(&self) -> (n: usize)
        ensures
            n == self@.len(),
    {
        self.samples.len()
    }

    /// Append one chunk from the device, each sample scaled by the boost.
    /// The buffer is append-only: everything already captured stays.
    pub fn push_chunk(&mut self, chunk: &Vec<i32>, boost_milli: u32)
        ensures
            final(self)@ == old(self)@ + chunk@.map_values(
                |c: i32| scaled_sample_i32(c, boost_milli),
            ),
    {
        let mut i: usize = 0;
        while i < chunk.len()
            invariant
                i <= chunk@.len(),
                self@ == old(self)@ + chunk@.subrange(0, i as int).map_values(
                    |c: i32| scaled_sample_i32(c, boost_milli),
                ),
            decreases chunk@.len() - i,
        {
            let scaled = scale_sample(chunk[i], boost_milli);
            self.samples.push(scaled);
            proof {
                assert(chunk@.subrange(0, i + 1).map_values(
                    |c: i32| scaled_sample_i32(c, boost_milli),
                ) =~= chunk@.subrange(0, i as int).map_values(
                    |c: i32| scaled_sample_i32(c, boost_milli),
                ).push(scaled_sample_i32(chunk@[i as int], boost_milli)));
            }
            i = i + 1;
        }
        proof {
            assert(chunk@.subrange(0, chunk@.len() as int) =~= chunk@);
        }
    }

    /// Hand the captured samples over, consuming the buffer: ownership
    /// moves to the caller, so no later session can touch them.
    pub fn take(self) -> (r: Vec<i32>)
        ensures
            r@ == self@,
    {
        self.samples
    }
}

} // verus!
