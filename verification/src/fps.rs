use vstd::prelude::*;

verus! {

/// One second, on the millisecond clock that drives the guest.
pub const MS_PER_SECOND: u64 = 1000;

/// Rolling frame-rate accounting: an anchor at the start of the current
/// second, the frames counted since that anchor, and the last computed rate.
///
/// When more than one whole second has passed since the anchor, the anchor
/// advances in whole-second steps and the accumulated frames are divided by
/// the number of seconds skipped, so a stall reads as a proportionally lower
/// rate rather than a burst.
#[derive(Clone, Copy, Debug, PartialEq, Eq, Structural)]
pub struct FpsCounter {
    /// Milliseconds since process start at which the current second began.
    pub last_second_ms: u64,
    /// Frames recorded since `last_second_ms`.
    pub frames_since_last_second: u16,
    /// The last computed rate, in frames per second.
    pub fps: u16,
}

/// The counter after one frame arrives at `now_ms`.
///
/// The arriving frame is counted first; if at least one whole second has
/// passed since the anchor, the rate becomes the counted frames divided by
/// the whole seconds passed, the anchor advances by exactly those seconds,
/// and the count restarts at zero.
pub open spec fn spec_record(c: FpsCounter, now_ms: u64) -> FpsCounter
    recommends
        now_ms >= c.last_second_ms,
{
    let counted = if c.frames_since_last_second == u16::MAX {
        u16::MAX as int
    } else {
        c.frames_since_last_second + 1
    };
    let elapsed = now_ms - c.last_second_ms;
    if elapsed < MS_PER_SECOND {
        FpsCounter {
            last_second_ms: c.last_second_ms,
            frames_since_last_second: counted as u16,
            fps: c.fps,
        }
    } else {
        let seconds = elapsed / (MS_PER_SECOND as int);
        FpsCounter {
            last_second_ms: (c.last_second_ms + seconds * (MS_PER_SECOND as int)) as u64,
            frames_since_last_second: 0,
            fps: (counted / seconds) as u16,
        }
    }
}

impl FpsCounter {
    /// The counter at process start: anchor at zero, nothing counted yet.
    pub fn new() -> (r: FpsCounter)
        ensures
            r == (FpsCounter { last_second_ms: 0u64, frames_since_last_second: 0u16, fps: 0u16 }),
    {
        FpsCounter { last_second_ms: 0, frames_since_last_second: 0, fps: 0 }
    }

    /// Records one frame arriving at `now_ms` milliseconds since start.
    pub fn record_frame(&mut self, now_ms: u64)
        requires
            now_ms >= old(self).last_second_ms,
        ensures
            *final(self) == spec_record(*old(self), now_ms),
    {
        let counted: u16 = self.frames_since_last_second.saturating_add(1);
        let elapsed: u64 = now_ms - self.last_second_ms;
        if elapsed < MS_PER_SECOND {
            self.frames_since_last_second = counted;
        } else {
            let seconds: u64 = elapsed / MS_PER_SECOND;
            proof {
                vstd::arithmetic::div_mod::lemma_fundamental_div_mod(
                    elapsed as int,
                    MS_PER_SECOND as int,
                );
                vstd::arithmetic::div_mod::lemma_mod_bound(elapsed as int, MS_PER_SECOND as int);
                assert(seconds * (MS_PER_SECOND as int) <= elapsed);
                assert(seconds >= 1);
                vstd::arithmetic::div_mod::lemma_div_nonincreasing(
                    counted as int,
                    seconds as int,
                );
            }
            self.last_second_ms = self.last_second_ms + seconds * MS_PER_SECOND;
            self.fps = ((counted as u64) / seconds) as u16;
            self.frames_since_last_second = 0;
        }
    }
}

/// One frame arriving exactly one second after the anchor, with nothing yet
/// counted in the current second, reports a rate of exactly one and moves the
/// anchor forward one second with nothing counted — so a steady one-frame-per-
/// second cadence reports a stable rate of one from the first full second on.
pub proof fn lemma_fps_steady_at_one(c: FpsCounter, now_ms: u64)
    requires
        c.frames_since_last_second == 0,
        now_ms == c.last_second_ms + MS_PER_SECOND,
    ensures
        spec_record(c, now_ms).fps == 1,
        spec_record(c, now_ms).frames_since_last_second == 0,
        spec_record(c, now_ms).last_second_ms == c.last_second_ms + MS_PER_SECOND,
{
    vstd::arithmetic::div_mod::lemma_div_basics(MS_PER_SECOND as int);
    vstd::arithmetic::div_mod::lemma_div_basics(1);
}

/// The counter after a whole run of frames, arriving in the given order.
pub open spec fn spec_record_seq(c: FpsCounter, times: Seq<u64>) -> FpsCounter
    decreases times.len(),
{
    if times.len() == 0 {
        c
    } else {
        spec_record_seq(spec_record(c, times[0]), times.drop_first())
    }
}

/// If exactly one frame arrives every exactly one second, the reported rate
/// is one after every arrival from the first full second on, however long
/// the run.
pub proof fn lemma_fps_stabilizes_at_one(c: FpsCounter, times: Seq<u64>)
    requires
        c.frames_since_last_second == 0,
        times.len() >= 1,
        forall|i: int|
            0 <= i < times.len() ==> times[i] == c.last_second_ms + (i + 1) * MS_PER_SECOND,
    ensures
        spec_record_seq(c, times).fps == 1,
        spec_record_seq(c, times).frames_since_last_second == 0,
        spec_record_seq(c, times).last_second_ms == c.last_second_ms + times.len()
            * MS_PER_SECOND,
    decreases times.len(),
{
    assert(times[0] == c.last_second_ms + MS_PER_SECOND);
    lemma_fps_steady_at_one(c, times[0]);
    let c1 = spec_record(c, times[0]);
    assert(spec_record_seq(c, times) == spec_record_seq(c1, times.drop_first()));
    if times.len() == 1 {
        assert(times.drop_first().len() == 0);
        assert(spec_record_seq(c1, times.drop_first()) == c1);
    }
    if times.len() > 1 {
        let rest = times.drop_first();
        assert forall|i: int| 0 <= i < rest.len() implies rest[i] == c1.last_second_ms + (i + 1)
            * MS_PER_SECOND by {
            assert(rest[i] == times[i + 1]);
        }
        lemma_fps_stabilizes_at_one(c1, rest);
    }
}

/// After a stall, the anchor advances by exactly the whole seconds that
/// passed, and the reported rate is the counted frames (the accumulated ones
/// plus the arriving one) divided by those seconds.
pub proof fn lemma_fps_catch_up(c: FpsCounter, now_ms: u64, seconds: u64)
    requires
        c.frames_since_last_second < u16::MAX,
        seconds >= 1,
        now_ms == c.last_second_ms + seconds * MS_PER_SECOND,
    ensures
        spec_record(c, now_ms).last_second_ms == c.last_second_ms + seconds * MS_PER_SECOND,
        spec_record(c, now_ms).fps == (c.frames_since_last_second + 1) / (seconds as int),
        spec_record(c, now_ms).frames_since_last_second == 0,
{
    let elapsed = now_ms - c.last_second_ms;
    assert(elapsed == seconds * (MS_PER_SECOND as int));
    vstd::arithmetic::div_mod::lemma_div_multiples_vanish(
        seconds as int,
        MS_PER_SECOND as int,
    );
    assert(elapsed / (MS_PER_SECOND as int) == seconds as int);
    assert((c.frames_since_last_second + 1) / (seconds as int) <= u16::MAX) by {
        vstd::arithmetic::div_mod::lemma_div_nonincreasing(
            c.frames_since_last_second + 1,
            seconds as int,
        );
    }
}

} // verus!
