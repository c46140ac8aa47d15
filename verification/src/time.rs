//! Spans of time and points in time, counted in nanoseconds.

use vstd::prelude::*;

verus! {

pub const NANOS_PER_SEC: u128 = 1_000_000_000;

pub const NANOS_PER_MILLI: u128 = 1_000_000;

/// The longest duration: `u64::MAX` seconds and 999,999,999 nanoseconds.
pub const MAX_NANOS: u128 = 18_446_744_073_709_551_615_999_999_999;

/// A span of time, of at most [`MAX_NANOS`] nanoseconds.
#[derive(Clone, Copy, Debug)]
pub struct Duration {
    nanos: u128,
}

impl View for Duration {
    type V = int;

    /// The nanoseconds of the span.
    closed spec fn view(&self) -> int {
        self.nanos as int
    }
}

impl Duration {
    #[verifier::type_invariant]
    spec fn in_range(self) -> bool {
        self.nanos <= MAX_NANOS
    }

    /// The whole seconds of the span.
    pub open spec fn spec_secs(self) -> int {
        self@ / NANOS_PER_SEC as int
    }

    /// A span of `secs` seconds and `nanos` nanoseconds.
    pub fn new(secs: u64, nanos: u32) -> (res: Duration)
        requires
            nanos < NANOS_PER_SEC,
        ensures
            res@ == secs * NANOS_PER_SEC + nanos,
    {
        Duration { nanos: secs as u128 * NANOS_PER_SEC + nanos as u128 }
    }

    pub fn from_secs(secs: u64) -> (res: Duration)
        ensures
            res@ == secs * NANOS_PER_SEC,
    {
        Duration { nanos: secs as u128 * NANOS_PER_SEC }
    }

    pub fn from_millis(millis: u64) -> (res: Duration)
        ensures
            res@ == millis * NANOS_PER_MILLI,
    {
        Duration { nanos: millis as u128 * NANOS_PER_MILLI }
    }

    /// The whole seconds of the span.
    pub fn as_secs(&self) -> (res: u64)
        ensures
            res == self.spec_secs(),
            0 <= self@ <= MAX_NANOS,
    {
        proof {
            use_type_invariant(self);
        }
        (self.nanos / NANOS_PER_SEC) as u64
    }

    /// The nanoseconds beyond the whole seconds.
    pub fn subsec_nanos(&self) -> (res: u32)
        ensures
            res == self@ % NANOS_PER_SEC as int,
    {
        (self.nanos % NANOS_PER_SEC) as u32
    }

    pub fn is_zero(&self) -> (res: bool)
        ensures
            res == (self@ == 0),
    {
        self.nanos == 0
    }

    /// `self` less `other`, or nothing where `other` is longer.
    pub fn saturating_sub(self, other: Duration) -> (res: Duration)
        ensures
            res@ == (if self@ > other@ {
                self@ - other@
            } else {
                0
            }),
    {
        proof {
            use_type_invariant(&self);
        }
        if self.nanos > other.nanos {
            Duration { nanos: self.nanos - other.nanos }
        } else {
            Duration { nanos: 0 }
        }
    }

    /// The shorter of the two.
    pub fn min(self, other: Duration) -> (res: Duration)
        ensures
            res@ == (if self@ <= other@ {
                self@
            } else {
                other@
            }),
    {
        if self.nanos <= other.nanos {
            self
        } else {
            other
        }
    }

    /// Whether `self` is longer than `other`.
    pub fn exceeds(&self, other: &Duration) -> (res: bool)
        ensures
            res == (self@ > other@),
    {
        self.nanos > other.nanos
    }
}

/// A point in time, less than [`MAX_NANOS`] nanoseconds from the Unix epoch or
/// exactly that far.
#[derive(Clone, Copy, Debug)]
pub struct SystemTime {
    nanos: i128,
}

impl View for SystemTime {
    type V = int;

    /// The nanoseconds since the Unix epoch, negative for a time before it.
    closed spec fn view(&self) -> int {
        self.nanos as int
    }
}

impl SystemTime {
    #[verifier::type_invariant]
    spec fn in_range(self) -> bool {
        -(MAX_NANOS as int) <= self.nanos <= MAX_NANOS
    }

    /// The whole seconds since the Unix epoch, of a time that is not before it.
    pub open spec fn spec_secs(self) -> int {
        self@ / NANOS_PER_SEC as int
    }

    /// The point that lies `since` after the Unix epoch.
    pub fn after_epoch(since: Duration) -> (res: SystemTime)
        ensures
            res@ == since@,
    {
        proof {
            use_type_invariant(&since);
        }
        SystemTime { nanos: since.nanos as i128 }
    }

    /// The point that lies `until` before the Unix epoch.
    pub fn before_epoch(until: Duration) -> (res: SystemTime)
        ensures
            res@ == -until@,
    {
        proof {
            use_type_invariant(&until);
        }
        SystemTime { nanos: -(until.nanos as i128) }
    }

    /// The time since the Unix epoch, unless the point lies before it.
    pub fn since_epoch(&self) -> (res: Option<Duration>)
        ensures
            match res {
                Some(d) => self@ >= 0 && d@ == self@,
                None => self@ < 0,
            },
    {
        proof {
            use_type_invariant(self);
        }
        if self.nanos >= 0 {
            Some(Duration { nanos: self.nanos as u128 })
        } else {
            None
        }
    }

    /// The point `span` later, unless that is out of range.
    pub fn checked_add(&self, span: Duration) -> (res: Option<SystemTime>)
        ensures
            match res {
                Some(t) => t@ == self@ + span@ <= MAX_NANOS,
                None => self@ + span@ > MAX_NANOS,
            },
    {
        proof {
            use_type_invariant(self);
            use_type_invariant(&span);
        }
        let nanos: i128 = self.nanos + span.nanos as i128;
        if nanos <= MAX_NANOS as i128 {
            Some(SystemTime { nanos })
        } else {
            None
        }
    }

    /// Whether `self` is later than `other`.
    pub fn later_than(&self, other: &SystemTime) -> (res: bool)
        ensures
            res == (self@ > other@),
    {
        self.nanos > other.nanos
    }

    /// The point that the clock shows where it is `secs` seconds and `nanos`
    /// nanoseconds away from the Unix epoch, on the side that `since` tells.
    pub fn at_reading(since: bool, secs: u64, nanos: u32) -> (res: SystemTime)
        requires
            nanos < NANOS_PER_SEC,
        ensures
            res@ == reading_nanos(since, secs, nanos),
    {
        let span = Duration::new(secs, nanos);
        if since {
            SystemTime::after_epoch(span)
        } else {
            SystemTime::before_epoch(span)
        }
    }

    /// The current time: the point that the clock shows, whichever that is.
    pub fn now() -> (res: SystemTime)
        ensures
            exists|since: bool, secs: u64, nanos: u32|
                clock_showed(since, secs, nanos) && nanos < NANOS_PER_SEC && res@
                    == #[trigger] reading_nanos(since, secs, nanos),
            -MAX_NANOS <= res@ <= MAX_NANOS,
    {
        let (since, secs, nanos) = clock();
        SystemTime::at_reading(since, secs, nanos)
    }
}

/// Whether the system clock was read and found that far from the Unix epoch.
pub closed spec fn clock_showed(since: bool, secs: u64, nanos: u32) -> bool {
    call_ensures(clock, (), (since, secs, nanos))
}

/// Whether `at` was the current time when it was asked for.
pub open spec fn was_now(at: int) -> bool {
    exists|t: SystemTime| #[trigger] call_ensures(SystemTime::now, (), t) && t@ == at
}

/// The nanoseconds since the Unix epoch of a clock that is `secs` seconds and
/// `nanos` nanoseconds away from it: after the epoch where `since` holds,
/// before it where not.
pub open spec fn reading_nanos(since: bool, secs: u64, nanos: u32) -> int {
    if since {
        secs * NANOS_PER_SEC + nanos
    } else {
        -(secs * NANOS_PER_SEC + nanos)
    }
}

/// The system clock, `std::time::SystemTime::now`, as its distance from the
/// Unix epoch in seconds and nanoseconds. The flag says that the clock is not
/// before the epoch. Nothing is claimed of the reading but that its
/// nanoseconds are fewer than a second, which `Duration::subsec_nanos`
/// documents.
#[verifier::external_body]
fn clock() -> (res: (bool, u64, u32))
    ensures
        res.2 < NANOS_PER_SEC,
{
    match std::time::SystemTime::now().duration_since(std::time::UNIX_EPOCH) {
        Ok(d) => (true, d.as_secs(), d.subsec_nanos()),
        Err(e) => (false, e.duration().as_secs(), e.duration().subsec_nanos()),
    }
}

/// The whole seconds of a span, and the nanoseconds beyond them, make up the
/// span; a span of seconds, or of thousandths, is that many of them.
pub proof fn law_seconds(secs: u64, nanos: u32, d: Duration, whole: u64, beyond: u32)
    requires
        call_ensures(Duration::as_secs, (&d,), whole),
        call_ensures(Duration::subsec_nanos, (&d,), beyond),
    ensures
        whole * 1_000_000_000 + beyond == d@,
        beyond < 1_000_000_000,
        d.spec_secs() == whole,
        call_ensures(Duration::from_secs, (secs,), d) ==> whole == secs && beyond == 0,
        call_ensures(Duration::from_millis, (secs,), d) ==> d@ == secs * 1_000_000,
        call_ensures(Duration::new, (secs, nanos), d) ==> d@ == secs * 1_000_000_000 + nanos,
{
}

/// Of two spans the shorter one is taken; what is left of a span is what it is
/// longer by; and a span exceeds only what is shorter.
pub proof fn law_spans(
    a: Duration,
    b: Duration,
    shorter: Duration,
    left: Duration,
    exceeds: bool,
    zero: bool,
)
    requires
        call_ensures(Duration::min, (a, b), shorter),
        call_ensures(Duration::saturating_sub, (a, b), left),
        call_ensures(Duration::exceeds, (&a, &b), exceeds),
        call_ensures(Duration::is_zero, (&a,), zero),
    ensures
        shorter@ <= a@ && shorter@ <= b@ && (shorter@ == a@ || shorter@ == b@),
        a@ >= b@ ==> left@ == a@ - b@,
        a@ < b@ ==> left@ == 0,
        exceeds <==> a@ > b@,
        zero <==> a@ == 0,
{
}

/// A point in time lies as far from the epoch as was asked, on the side that
/// was asked; a point that is later by a span lies that much further on, unless
/// that is out of range.
pub proof fn law_points(
    t: SystemTime,
    other: SystemTime,
    span: Duration,
    since: Option<Duration>,
    sum: Option<SystemTime>,
    later: bool,
)
    requires
        call_ensures(SystemTime::since_epoch, (&t,), since),
        call_ensures(SystemTime::checked_add, (&t, span), sum),
        call_ensures(SystemTime::later_than, (&t, &other), later),
    ensures
        call_ensures(SystemTime::after_epoch, (span,), t) ==> t@ == span@,
        call_ensures(SystemTime::before_epoch, (span,), t) ==> t@ == -span@,
        since is Some <==> t@ >= 0,
        since matches Some(d) ==> d@ == t@,
        sum is Some <==> t@ + span@ <= MAX_NANOS,
        sum matches Some(s) ==> s@ == t@ + span@,
        later <==> t@ > other@,
{
}

} // verus!
