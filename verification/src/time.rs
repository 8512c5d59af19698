//! Time as plain numbers: a point in time, a length of it, and the clock on the wall.

use vstd::prelude::*;

verus! {

/// Nanoseconds in a second.
pub const NANOS_PER_SEC: i128 = 1_000_000_000;

/// The earliest point in time a Unix clock can show, in nanoseconds since the epoch.
pub const EARLIEST: i128 = -9_223_372_036_854_775_808_000_000_000;

/// The latest point in time a Unix clock can show, in nanoseconds since the epoch.
pub const LATEST: i128 = 9_223_372_036_854_775_807_999_999_999;

/// A length of time, to the nanosecond.
#[derive(Debug, Clone, Copy, PartialEq, Eq, Structural)]
pub struct Span {
    /// Whole seconds.
    pub secs: u64,
    /// What is left of the last second, in nanoseconds.
    pub nanos: u32,
}

impl Span {
    /// How long it is, in nanoseconds.
    pub open spec fn in_nanos(self) -> int {
        self.secs * NANOS_PER_SEC + self.nanos
    }

    /// A whole number of seconds.
    pub fn from_secs(secs: u64) -> (r: Span)
        ensures
            r == (Span { secs, nanos: 0 }),
    {
        Span { secs, nanos: 0 }
    }
}

/// A point in time, as a Unix clock shows it. Its view is nanoseconds since the clock's epoch.
#[derive(Debug, Clone, Copy, PartialEq, Eq)]
pub struct Moment {
    nanos: i128,
}

impl View for Moment {
    type V = int;

    closed spec fn view(&self) -> int {
        self.nanos as int
    }
}

/// Whether a clock can still show the point `secs` seconds after `from`.
pub open spec fn reaches(from: int, secs: u64) -> bool {
    from + secs * NANOS_PER_SEC <= LATEST
}

/// Whole seconds since the epoch, or `0` on a clock that predates it.
pub open spec fn secs_at(at: int) -> int {
    if at < 0 {
        0
    } else {
        at / (NANOS_PER_SEC as int)
    }
}

/// Whole seconds from `from` until `until`, where that has not passed.
pub open spec fn secs_left(from: int, until: int) -> Option<int> {
    if until < from {
        None
    } else {
        Some((until - from) / (NANOS_PER_SEC as int))
    }
}

/// What a clock shows that stands `secs` seconds and `nanos` nanoseconds away from the epoch, past
/// it or before it, held to what a Unix clock can show.
pub open spec fn clock_at(past: bool, secs: u64, nanos: u32) -> int {
    let away = secs * NANOS_PER_SEC + nanos;
    if past {
        if away < LATEST {
            away
        } else {
            LATEST as int
        }
    } else {
        if -away > EARLIEST {
            -away
        } else {
            EARLIEST as int
        }
    }
}

impl Moment {
    #[verifier::type_invariant]
    spec fn inv(self) -> bool {
        EARLIEST <= self.nanos <= LATEST
    }

    /// The point `secs` seconds and `nanos` nanoseconds after the epoch.
    pub fn at(secs: i64, nanos: u32) -> (r: Moment)
        requires
            nanos < NANOS_PER_SEC,
        ensures
            r@ == secs * NANOS_PER_SEC + nanos,
    {
        Moment { nanos: secs as i128 * NANOS_PER_SEC + nanos as i128 }
    }

    /// What a clock shows that stands `secs` seconds and `nanos` nanoseconds away from the epoch,
    /// past it or before it.
    pub fn from_epoch(past: bool, secs: u64, nanos: u32) -> (r: Moment)
        ensures
            r@ == clock_at(past, secs, nanos),
    {
        let away: i128 = secs as i128 * NANOS_PER_SEC + nanos as i128;
        if past {
            Moment { nanos: if away < LATEST { away } else { LATEST } }
        } else {
            Moment { nanos: if -away > EARLIEST { -away } else { EARLIEST } }
        }
    }

    /// What the system's clock shows now: [`Moment::from_epoch`], of wherever the clock stands.
    pub fn now() -> (r: Moment)
        ensures
            EARLIEST <= r@ <= LATEST,
            exists|past: bool, secs: u64, nanos: u32|
                nanos < NANOS_PER_SEC && r@ == #[trigger] clock_at(past, secs, nanos),
    {
        let reading = clock_reading();
        Moment::from_epoch(reading.0, reading.1, reading.2)
    }

    /// Whether the point `secs` seconds from here is one a clock can show.
    pub fn reaches(&self, secs: u64) -> (r: bool)
        ensures
            r == reaches(self@, secs),
    {
        proof {
            use_type_invariant(self);
        }
        self.nanos + secs as i128 * NANOS_PER_SEC <= LATEST
    }

    /// The point `secs` seconds from here.
    pub fn plus(&self, secs: u64) -> (r: Moment)
        requires
            reaches(self@, secs),
        ensures
            r@ == self@ + secs * NANOS_PER_SEC,
    {
        proof {
            use_type_invariant(self);
        }
        Moment { nanos: self.nanos + secs as i128 * NANOS_PER_SEC }
    }

    /// Whether this point comes after `other`.
    pub fn is_after(&self, other: &Moment) -> (r: bool)
        ensures
            r == (self@ > other@),
    {
        self.nanos > other.nanos
    }

    /// Whole seconds since the epoch, or `0` on a clock that predates it.
    ///
    /// `0` rather than a failure: a board whose clock has not been set yet reads as "everything
    /// expired" — see [`Stored::expires_in_at`](crate::Stored::expires_in_at) — which makes a robot
    /// ask for a login it may not need. Annoying, and better than a daemon that will not start
    /// because the clock is wrong.
    pub fn unix_secs(&self) -> (r: i64)
        ensures
            r == secs_at(self@),
            r >= 0,
    {
        proof {
            use_type_invariant(self);
        }
        if self.nanos < 0 {
            0
        } else {
            (self.nanos / NANOS_PER_SEC) as i64
        }
    }

    /// Whole seconds from here until `deadline`, or `None` once that has passed.
    pub fn secs_until(&self, deadline: &Moment) -> (r: Option<u64>)
        ensures
            r is Some <==> secs_left(self@, deadline@) is Some,
            r is Some ==> r->0 == secs_left(self@, deadline@)->0,
    {
        proof {
            use_type_invariant(self);
            use_type_invariant(deadline);
        }
        if deadline.nanos < self.nanos {
            None
        } else {
            Some(((deadline.nanos - self.nanos) / NANOS_PER_SEC) as u64)
        }
    }
}

/// `std::time::SystemTime::now`, as plain numbers: whether the clock is at `UNIX_EPOCH` or past
/// it, and how far from it, in whole seconds and the nanoseconds left over.
///
/// Nothing is claimed of what the clock shows. The nanoseconds left over are less than a second,
/// as `Duration::subsec_nanos` promises.
#[verifier::external_body]
fn clock_reading() -> (r: (bool, u64, u32))
    ensures
        r.2 < NANOS_PER_SEC,
{
    match std::time::SystemTime::now().duration_since(std::time::UNIX_EPOCH) {
        Ok(past) => (true, past.as_secs(), past.subsec_nanos()),
        Err(before) => (false, before.duration().as_secs(), before.duration().subsec_nanos()),
    }
}

/// Seconds since the Unix epoch, or `0` on a clock that predates it: [`Moment::unix_secs`], of
/// wherever the clock stands.
pub fn now_secs() -> (r: i64)
    ensures
        r >= 0,
        exists|past: bool, secs: u64, nanos: u32|
            nanos < NANOS_PER_SEC && r == secs_at(#[trigger] clock_at(past, secs, nanos)),
{
    Moment::now().unix_secs()
}

} // verus!
