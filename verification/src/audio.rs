//! Bounds of the sample buffers that feed the spectrum analyser.
use vstd::prelude::*;
use crate::text::{contains_str, has_infix, str_eq};

verus! {

/// Samples per FFT frame.
pub const FFT_SIZE: usize = 8192;

/// Bands of the spectrum display.
pub const NUM_BINS: usize = 64;

/// Keeps only the newest `keep` items of `buf` (all of them if there are fewer).
pub fn keep_latest<T>(buf: &mut Vec<T>, keep: usize)
    ensures
        final(buf)@ == (if old(buf)@.len() > keep {
            old(buf)@.skip(old(buf)@.len() - keep)
        } else {
            old(buf)@
        }),
{
    if buf.len() > keep {
        let at = buf.len() - keep;
        let tail = buf.split_off(at);
        *buf = tail;
    }
}

/// Bounds the capture buffer: once it holds more than two frames of
/// samples, only the newest frame is kept.
pub fn bound_capture_buffer<T>(buf: &mut Vec<T>)
    ensures
        final(buf)@ == (if old(buf)@.len() > 2 * FFT_SIZE {
            old(buf)@.skip(old(buf)@.len() - FFT_SIZE)
        } else {
            old(buf)@
        }),
        final(buf)@.len() <= 2 * FFT_SIZE,
{
    if buf.len() > 2 * FFT_SIZE {
        keep_latest(buf, FFT_SIZE);
    }
}


/// Whether an audio input device is one to capture the system's output
/// from: a monitor source (its name holds `.monitor`) or the default sink.
pub open spec fn spec_is_capture_device(name: Seq<char>) -> bool {
    has_infix(name, ".monitor"@) || name == "sink_default"@
}

/// Whether the input device called `name` captures the system's output
/// (see `spec_is_capture_device`).
pub fn is_capture_device(name: &str) -> (r: bool)
    ensures
        r == spec_is_capture_device(name@),
{
    contains_str(name, ".monitor") || str_eq(name, "sink_default")
}

} // verus!
