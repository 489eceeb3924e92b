use vstd::prelude::*;

verus! {

/// The span of time that `Duration::from_secs` makes of a number of seconds.
pub uninterp spec fn seconds(secs: u64) -> std::time::Duration;

/// Specifies `Duration::from_secs`: the span of that many whole seconds, which no other number of
/// seconds makes.
pub assume_specification[ std::time::Duration::from_secs ](secs: u64) -> (span: std::time::Duration)
    ensures
        span == seconds(secs),
        forall|other: u64| span == seconds(other) ==> other == secs,
;

} // verus!
