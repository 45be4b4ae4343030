//! Instants and delays as plain integers.

use vstd::prelude::*;

verus! {

/// Nanoseconds in one second.
pub const NANOS_PER_SECOND: u32 = 1_000_000_000;

/// An instant in UTC: whole seconds since the Unix epoch, and the nanoseconds
/// that have passed of the second after it.
#[derive(Clone, Copy, Debug)]
pub struct Timestamp {
    seconds: i64,
    nanoseconds: u32,
}

/// A length of time that is not negative.
#[derive(Clone, Copy, Debug)]
pub struct Delay {
    /// Whole seconds.
    pub seconds: u64,
    /// Nanoseconds beyond the whole seconds, fewer than a second's worth.
    pub nanoseconds: u32,
}

impl Delay {
    /// The delay in nanoseconds.
    pub open spec fn as_nanos(self) -> int {
        self.seconds * NANOS_PER_SECOND + self.nanoseconds
    }
}

impl Timestamp {
    /// The nanosecond part stays below one second.
    #[verifier::type_invariant]
    pub closed spec fn wf(self) -> bool {
        self.nanoseconds < NANOS_PER_SECOND
    }

    /// Whole seconds since the Unix epoch, rounded towards the past.
    pub closed spec fn spec_seconds(&self) -> i64 {
        self.seconds
    }

    /// Nanoseconds past the whole second.
    pub closed spec fn spec_nanoseconds(&self) -> u32 {
        self.nanoseconds
    }

    /// Nanoseconds since the Unix epoch.
    pub open spec fn as_nanos(self) -> int {
        self.seconds() * NANOS_PER_SECOND + self.nanoseconds()
    }

    /// The instant `nanoseconds` after the whole second `seconds`, if
    /// `nanoseconds` is less than a second.
    pub fn new(seconds: i64, nanoseconds: u32) -> (made: Option<Timestamp>)
        ensures
            made is Some <==> nanoseconds < NANOS_PER_SECOND,
            made matches Some(t) ==> t.wf() && t.seconds() == seconds && t.nanoseconds()
                == nanoseconds,
    {
        if nanoseconds < NANOS_PER_SECOND {
            Some(Timestamp { seconds, nanoseconds })
        } else {
            None
        }
    }

    #[verifier::when_used_as_spec(spec_seconds)]
    pub fn seconds(&self) -> (s: i64)
        ensures
            s == self.seconds(),
    {
        self.seconds
    }

    #[verifier::when_used_as_spec(spec_nanoseconds)]
    pub fn nanoseconds(&self) -> (n: u32)
        ensures
            n == self.nanoseconds(),
            n < NANOS_PER_SECOND,
    {
        proof {
            use_type_invariant(self);
        }
        self.nanoseconds
    }

    /// The instant a number of whole seconds after `self`, where its seconds
    /// fit in 64 bits.
    pub closed spec fn plus_seconds(self, seconds: int) -> Timestamp {
        Timestamp { seconds: (self.seconds + seconds) as i64, nanoseconds: self.nanoseconds }
    }

    /// Two instants with the same parts are the same instant.
    pub proof fn lemma_same_parts(self, other: Timestamp)
        requires
            self.seconds() == other.seconds(),
            self.nanoseconds() == other.nanoseconds(),
        ensures
            self == other,
    {
    }

    /// Adding whole seconds moves the seconds and leaves the nanoseconds.
    pub proof fn lemma_plus_seconds(self, seconds: int)
        requires
            i64::MIN <= self.seconds() + seconds <= i64::MAX,
        ensures
            self.plus_seconds(seconds).seconds() == self.seconds() + seconds,
            self.plus_seconds(seconds).nanoseconds() == self.nanoseconds(),
            self.plus_seconds(seconds).as_nanos() == self.as_nanos() + seconds * NANOS_PER_SECOND,
            self.wf() ==> self.plus_seconds(seconds).wf(),
    {
    }

    /// Adding no seconds leaves the instant where it is.
    pub proof fn lemma_plus_no_seconds(self)
        ensures
            self.plus_seconds(0) == self,
    {
    }

    /// Adding seconds in two goes is adding their sum.
    pub proof fn lemma_plus_seconds_twice(self, first: int, second: int)
        requires
            i64::MIN <= self.seconds() + first <= i64::MAX,
            i64::MIN <= self.seconds() + first + second <= i64::MAX,
        ensures
            self.plus_seconds(first).plus_seconds(second) == self.plus_seconds(first + second),
    {
    }

    /// Nanoseconds from `earlier` to `self`; negative when `self` comes first.
    pub fn nanos_since(&self, earlier: &Timestamp) -> (elapsed: i128)
        ensures
            elapsed == self.as_nanos() - earlier.as_nanos(),
    {
        let later: i128 = self.seconds as i128 * 1_000_000_000i128 + self.nanoseconds as i128;
        let sooner: i128 = earlier.seconds as i128 * 1_000_000_000i128
            + earlier.nanoseconds as i128;
        later - sooner
    }

    /// The instant `seconds` whole seconds after `self`, if its seconds still
    /// fit in 64 bits.
    pub fn checked_add_seconds(&self, seconds: u64) -> (later: Option<Timestamp>)
        ensures
            later is Some <==> self.seconds() + seconds <= i64::MAX,
            later matches Some(t) ==> t == self.plus_seconds(seconds as int),
    {
        proof {
            use_type_invariant(self);
        }
        let sum: i128 = self.seconds as i128 + seconds as i128;
        if sum <= i64::MAX as i128 {
            Some(Timestamp { seconds: sum as i64, nanoseconds: self.nanoseconds })
        } else {
            None
        }
    }

    /// How long to wait at `now` until `self`: nothing when `self` is not in
    /// the future.
    pub fn delay_from(&self, now: &Timestamp) -> (wait: Option<Delay>)
        ensures
            wait is Some <==> self.as_nanos() > now.as_nanos(),
            wait matches Some(d) ==> d.as_nanos() == self.as_nanos() - now.as_nanos()
                && d.nanoseconds < NANOS_PER_SECOND,
    {
        proof {
            use_type_invariant(self);
            use_type_invariant(now);
        }
        let gap: i128 = self.nanos_since(now);
        if gap > 0 {
            let gap: u128 = gap as u128;
            let seconds: u128 = gap / 1_000_000_000u128;
            let nanoseconds: u128 = gap % 1_000_000_000u128;
            Some(Delay { seconds: seconds as u64, nanoseconds: nanoseconds as u32 })
        } else {
            None
        }
    }
}

} // verus!
