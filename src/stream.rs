use vstd::prelude::*;

verus! {

/// What one run of the output callback does with the decoded buffer.
#[derive(Clone, Copy, Debug, PartialEq, Eq, Structural)]
pub struct CallbackStep {
    /// How many samples to copy from the cursor on.
    pub copy_len: usize,
    /// The cursor after the copy.
    pub next_cursor: usize,
    /// Whether this run reached the end of the buffer and must report it.
    pub ended: bool,
}

/// One run of the output callback over a buffer of `buffer_len` samples with
/// the cursor at `cursor` and `out_len` samples asked for: it copies what is
/// left, up to `out_len`, and reports the end once, on the run that reaches it.
pub fn callback_step(cursor: usize, buffer_len: usize, out_len: usize) -> (r: CallbackStep)
    ensures
        cursor >= buffer_len ==> r == (CallbackStep { copy_len: 0, next_cursor: buffer_len, ended: false }),
        cursor < buffer_len ==> r.copy_len as int == (if out_len < buffer_len - cursor {
            out_len as int
        } else {
            buffer_len - cursor
        }) && r.next_cursor == cursor + r.copy_len && r.ended == (r.next_cursor == buffer_len),
{
    if cursor >= buffer_len {
        return CallbackStep { copy_len: 0, next_cursor: buffer_len, ended: false };
    }
    let left = buffer_len - cursor;
    let copy_len = if out_len < left {
        out_len
    } else {
        left
    };
    let next_cursor = cursor + copy_len;
    CallbackStep { copy_len, next_cursor, ended: next_cursor == buffer_len }
}

/// Samples in one second: `sample_rate` frames of `channels` samples.
fn samples_per_sec(sample_rate: u32, channels: u16) -> (r: u64)
    ensures
        r as int == sample_rate as int * channels as int,
        r as int <= 0xffff_ffff_ffff,
{
    assert(sample_rate as int * channels as int <= 0xffff_ffff * 0xffff) by (nonlinear_arith)
        requires
            sample_rate <= 0xffff_ffffu32,
            channels <= 0xffffu16,
    ;
    sample_rate as u64 * channels as u64
}

/// The whole milliseconds played when the cursor stands at `cursor` in a
/// buffer of interleaved samples, `channels` per frame, at `sample_rate`
/// frames a second (held to what a `u64` can count).
pub fn elapsed_ms(cursor: usize, sample_rate: u32, channels: u16) -> (r: u64)
    requires
        sample_rate > 0,
        channels > 0,
    ensures
        ({
            let q = (cursor as int * 1000) / (sample_rate as int * channels as int);
            r as int == if q > u64::MAX { u64::MAX as int } else { q }
        }),
{
    let per_sec = samples_per_sec(sample_rate, channels);
    assert(per_sec > 0) by (nonlinear_arith)
        requires
            per_sec as int == sample_rate as int * channels as int,
            sample_rate > 0,
            channels > 0,
    ;
    let q: u128 = cursor as u128 * 1000 / per_sec as u128;
    if q > u64::MAX as u128 {
        u64::MAX
    } else {
        q as u64
    }
}

/// The cursor after seeking by `delta_ms` milliseconds (forward when `forward`)
/// from `cursor` held to the buffer: it stays inside `[0, buffer_len]` and is
/// moved back to the start of its frame.
pub fn seek_cursor(
    cursor: usize,
    buffer_len: usize,
    sample_rate: u32,
    channels: u16,
    delta_ms: u64,
    forward: bool,
) -> (r: usize)
    requires
        channels > 0,
    ensures
        ({
            let c = if cursor > buffer_len { buffer_len as int } else { cursor as int };
            let step = (delta_ms as int * (sample_rate as int * channels as int)) / 1000;
            let target = if forward {
                if c + step > buffer_len { buffer_len as int } else { c + step }
            } else {
                if c - step < 0 { 0 } else { c - step }
            };
            r as int == target - target % (channels as int)
        }),
{
    let per_sec = samples_per_sec(sample_rate, channels);
    assert(delta_ms as int * per_sec as int <= 0xffff_ffff_ffff_ffff * 0xffff_ffff_ffff) by (nonlinear_arith)
        requires
            delta_ms <= 0xffff_ffff_ffff_ffffu64,
            per_sec as int <= 0xffff_ffff_ffff,
    ;
    let step: u128 = delta_ms as u128 * per_sec as u128 / 1000;
    let c: usize = if cursor > buffer_len {
        buffer_len
    } else {
        cursor
    };
    let target: usize = if forward {
        if step > (buffer_len - c) as u128 {
            buffer_len
        } else {
            c + step as usize
        }
    } else {
        if step > c as u128 {
            0
        } else {
            c - step as usize
        }
    };
    let frame = channels as usize;
    let rem = target % frame;
    assert(rem <= target) by (nonlinear_arith)
        requires
            rem == target % frame,
            frame > 0,
    ;
    target - rem
}

} // verus!
