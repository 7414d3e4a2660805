use vstd::prelude::*;

verus! {

/// A clock that reads the time its user sets.
pub trait Timer {
    /// Current time, in seconds.
    fn timestamp(&self) -> u32;
}

/// A clock whose time can be set and advanced.
pub trait SetableTimer: Timer {
    fn set(&mut self, time: u32);

    fn add_seconds(&mut self, seconds: u32);
}

/// A clock for tests: it stands still until it is set or advanced.
pub struct MockSystemTimer {
    pub current_time: u32,
}

impl MockSystemTimer {
    pub fn new() -> (r: Self)
        ensures
            r.current_time == 0,
    {
        MockSystemTimer { current_time: 0 }
    }
}

impl Default for MockSystemTimer {
    fn default() -> (r: Self)
        ensures
            r.current_time == 0,
    {
        Self::new()
    }
}

impl Timer for MockSystemTimer {
    fn timestamp(&self) -> (r: u32)
        ensures
            r == self.current_time,
    {
        self.current_time
    }
}

impl SetableTimer for MockSystemTimer {
    fn set(&mut self, time: u32)
        ensures
            final(self).current_time == time,
    {
        self.current_time = time;
    }

    /// Advances the clock; like an atomic `fetch_add` it wraps around.
    fn add_seconds(&mut self, seconds: u32)
        ensures
            final(self).current_time == old(self).current_time.wrapping_add(seconds),
    {
        self.current_time = self.current_time.wrapping_add(seconds);
    }
}

} // verus!
