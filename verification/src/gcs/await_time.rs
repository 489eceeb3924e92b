use vstd::prelude::*;

use std::time::Duration;

use crate::time::seconds;

verus! {

/// Max await time between each audio package.
///
/// While usually all AudioSocket clients should provide data near real-time, sometimes you might be
/// stuck in a situation when there are no audio packages incoming.
///
/// For this reason, GCS client checks for time between each package and automatically sends empty
/// audio bytes if we don't have any actual payload to send.
#[derive(Debug)]
pub struct AwaitTime(Duration);

impl AwaitTime {
    /// The span of time.
    pub closed spec fn duration(self) -> Duration {
        self.0
    }

    /// GCS gives up after ten seconds without audio.
    #[verifier::type_invariant]
    spec fn at_most_ten_seconds(self) -> bool {
        exists|secs: u64| secs <= 10 && self.0 == #[trigger] seconds(secs)
    }

    /// Create new AwaitTime from provided seconds.
    ///
    /// Returns [`None`] if `secs > 10`.
    pub fn new(secs: u64) -> (time: Option<Self>)
        ensures
            match time {
                Some(time) => secs <= 10 && time.duration() == seconds(secs),
                None => secs > 10,
            },
    {
        if secs <= 10 {
            Some(AwaitTime(Duration::from_secs(secs)))
        } else {
            None
        }
    }

    /// Unwrap [`Duration`] from [`AwaitTime`].
    pub fn inner(&self) -> (duration: &Duration)
        ensures
            *duration == self.duration(),
            exists|secs: u64| secs <= 10 && *duration == #[trigger] seconds(secs),
    {
        proof {
            use_type_invariant(self);
        }
        &self.0
    }
}

impl Default for AwaitTime {
    fn default() -> (time: Self)
        ensures
            time.duration() == seconds(5),
    {
        // We can give ourselves some time to send empty audio package to GCS by using 5 instead of 10.
        AwaitTime(Duration::from_secs(5))
    }
}

/// The await time that a configured number of seconds makes. Without a valid one it is five seconds.
pub open spec fn configured_await_time(max_await_time: Option<u64>) -> Duration {
    match max_await_time {
        Some(secs) => if secs <= 10 {
            seconds(secs)
        } else {
            seconds(5)
        },
        None => seconds(5),
    }
}

} // verus!
