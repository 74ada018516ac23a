use vstd::prelude::*;

verus! {

/// Number of frames in one measurement window.
pub const RATE_WINDOW: u32 = 10;

/// Frames in a window times the milliseconds in a second, scaled so that the
/// quotient by an elapsed time in fixed-point milliseconds is a fixed-point
/// rate: `1000 * RATE_WINDOW * UNIT * UNIT`.
pub const RATE_NUMERATOR: i64 = 10_000_000_000_000_000;

/// The frame counter after one more frame. It starts again at zero after
/// `u32::MAX`.
pub open spec fn next_count(counter: u32) -> u32 {
    if counter == u32::MAX {
        0
    } else {
        (counter + 1) as u32
    }
}

/// Frames per second, in fixed point, when one window took `elapsed`
/// fixed-point milliseconds: `1000 * RATE_WINDOW / elapsed`, rounded towards
/// zero. A window that took no time at all gives the largest rate there is.
pub open spec fn rate_over(elapsed: int) -> i64 {
    if elapsed > 0 {
        (RATE_NUMERATOR as int / elapsed) as i64
    } else if elapsed < 0 {
        (-(RATE_NUMERATOR as int / (-elapsed))) as i64
    } else {
        i64::MAX
    }
}

/// Measures the frame rate over windows of `RATE_WINDOW` frames.
#[derive(Clone, Copy, Debug, PartialEq, Eq, Structural)]
pub struct FrameClock {
    /// Frames seen so far.
    pub counter: u32,
    /// Timestamp at which the last window closed; zero before the first.
    pub last_timestamp: i64,
    /// Rate measured over the last window; zero before the first.
    pub current_rate: i64,
}

impl FrameClock {
    /// Whether the next frame closes a window.
    pub open spec fn closes_window(self) -> bool {
        next_count(self.counter) % RATE_WINDOW == 0
    }

    /// The clock after a frame at `timestamp`.
    pub open spec fn ticked(self, timestamp: i64) -> FrameClock {
        if self.closes_window() {
            FrameClock {
                counter: next_count(self.counter),
                last_timestamp: timestamp,
                current_rate: rate_over(timestamp - self.last_timestamp),
            }
        } else {
            FrameClock {
                counter: next_count(self.counter),
                last_timestamp: self.last_timestamp,
                current_rate: self.current_rate,
            }
        }
    }

    /// A clock that has seen no frame: the first window is measured from
    /// timestamp zero.
    pub fn new() -> (clock: FrameClock)
        ensures
            clock == (FrameClock { counter: 0, last_timestamp: 0, current_rate: 0 }),
    {
        FrameClock { counter: 0, last_timestamp: 0, current_rate: 0 }
    }

    /// Counts one frame seen at `timestamp`. Every `RATE_WINDOW`-th frame
    /// closes a window: the rate is measured anew over the time since the
    /// window before, and `true` is returned. On every other frame the rate
    /// stays as it was.
    pub fn tick(&mut self, timestamp: i64) -> (refreshed: bool)
        ensures
            *final(self) == old(self).ticked(timestamp),
            refreshed == old(self).closes_window(),
    {
        self.counter = if self.counter == u32::MAX {
            0
        } else {
            self.counter + 1
        };
        if self.counter % RATE_WINDOW == 0 {
            self.current_rate = window_rate(timestamp, self.last_timestamp);
            self.last_timestamp = timestamp;
            true
        } else {
            false
        }
    }
}

/// The rate over a window that began at `since` and closed at `timestamp`.
pub fn window_rate(timestamp: i64, since: i64) -> (rate: i64)
    ensures
        rate == rate_over(timestamp - since),
{
    let elapsed: i128 = timestamp as i128 - since as i128;
    if elapsed > 0 {
        let quotient: u128 = RATE_NUMERATOR as u128 / (elapsed as u128);
        assert(quotient <= RATE_NUMERATOR) by (nonlinear_arith)
            requires
                quotient == RATE_NUMERATOR as int / elapsed as int,
                elapsed > 0,
        ;
        quotient as i64
    } else if elapsed < 0 {
        let quotient: u128 = RATE_NUMERATOR as u128 / ((-elapsed) as u128);
        assert(quotient <= RATE_NUMERATOR) by (nonlinear_arith)
            requires
                quotient == RATE_NUMERATOR as int / (-elapsed) as int,
                elapsed < 0,
        ;
        -(quotient as i64)
    } else {
        i64::MAX
    }
}

} // verus!
