mod clock;
pub mod outcome;
pub mod report;

use vstd::prelude::*;

verus! {

/// The timing interval around one run of a child process: a monotonic-clock
/// reading taken when the interval begins, and the span the clock measured,
/// in whole milliseconds, once the interval has finished. A fresh or
/// restarted interval reports zero elapsed time until it is finished.
pub struct ResourceUse {
    start: std::time::Instant,
    elapsed_ms: u128,
}

impl ResourceUse {
    /// The elapsed time this interval reports, in milliseconds.
    pub closed spec fn elapsed_millis(&self) -> u128 {
        self.elapsed_ms
    }

    /// The clock reading at which the interval begins.
    pub closed spec fn start_reading(&self) -> std::time::Instant {
        self.start
    }

    /// A fresh interval: it begins at the clock's current reading and
    /// reports zero elapsed time until `finish` closes it.
    pub fn new() -> (r: Self)
        ensures
            r.elapsed_millis() == 0,
    {
        let now = std::time::Instant::now();
        ResourceUse { start: now, elapsed_ms: 0 }
    }

    /// Restart the interval at the clock's current reading; the elapsed
    /// time goes back to zero until the next `finish`.
    pub fn begin(&mut self)
        ensures
            final(self).elapsed_millis() == 0,
    {
        self.start = std::time::Instant::now();
        self.elapsed_ms = 0;
    }

    /// Close the interval: the elapsed time becomes the span the monotonic
    /// clock measured since the interval began. The clock alone decides
    /// that value; the start of the interval is untouched.
    pub fn finish(&mut self)
        ensures
            final(self).start_reading() == old(self).start_reading(),
    {
        self.elapsed_ms = self.start.elapsed().as_millis();
    }

    /// The measured elapsed time in milliseconds: zero unless `finish`
    /// has closed the interval.
    pub fn elapsed(&self) -> (r: u128)
        ensures
            r == self.elapsed_millis(),
    {
        self.elapsed_ms
    }
}

} // verus!
