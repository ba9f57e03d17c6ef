use chrono::Timelike;
use vstd::prelude::*;

verus! {

/// Nanoseconds in one second.
pub const NANOS_PER_SEC: u64 = 1_000_000_000;

/// Nanoseconds in one (leap-free) day.
pub const NANOS_PER_DAY: u64 = 86_400_000_000_000;

/// A time of day as chrono's `NaiveTime` keeps it: whole seconds since
/// midnight and the nanoseconds past that second. A leap second is kept as a
/// fraction of `1_000_000_000` or more on the last second of a minute.
#[derive(Clone, Copy)]
pub struct TimeOfDay {
    secs: u32,
    frac: u32,
}

/// The seconds and fraction that make a valid time of day.
pub open spec fn valid_time(secs: u32, frac: u32) -> bool {
    &&& secs < 86_400
    &&& frac < 2_000_000_000
    &&& frac >= 1_000_000_000 ==> secs % 60 == 59
}

/// What chrono's `NaiveTime::signed_duration_since(a, b)` returns, in
/// nanoseconds: the plain difference, with a leap second counted once when
/// one of the two times sits on it and the other lies on its far side.
pub open spec fn time_diff(a: TimeOfDay, b: TimeOfDay) -> int {
    let adj: int = if a.secs_spec() > b.secs_spec() && b.frac_spec() >= 1_000_000_000 {
        1
    } else if a.secs_spec() < b.secs_spec() && a.frac_spec() >= 1_000_000_000 {
        -1
    } else {
        0
    };
    (a.secs_spec() - b.secs_spec() + adj) * 1_000_000_000 + (a.frac_spec() - b.frac_spec())
}

/// Nanoseconds since midnight.
pub open spec fn nanos_of_day(t: TimeOfDay) -> int {
    t.secs_spec() * 1_000_000_000 + t.frac_spec()
}

impl TimeOfDay {
    #[verifier::type_invariant]
    spec fn valid(self) -> bool {
        valid_time(self.secs, self.frac)
    }

    /// Whole seconds since midnight.
    pub closed spec fn secs_spec(self) -> u32 {
        self.secs
    }

    /// Nanoseconds past the whole second (`1_000_000_000` or more on a leap second).
    pub closed spec fn frac_spec(self) -> u32 {
        self.frac
    }

    /// The seconds and fraction held are valid (every executable value is).
    pub open spec fn is_valid(self) -> bool {
        valid_time(self.secs_spec(), self.frac_spec())
    }

    /// The time of day `secs` seconds and `nano` nanoseconds past midnight,
    /// or `None` where chrono's `NaiveTime::from_num_seconds_from_midnight_opt`
    /// refuses the pair.
    pub fn from_num_seconds_from_midnight_opt(secs: u32, nano: u32) -> (r: Option<TimeOfDay>)
        ensures
            r is Some <==> valid_time(secs, nano),
            r matches Some(t) ==> t.secs_spec() == secs && t.frac_spec() == nano,
    {
        if secs >= 86_400 || nano >= 2_000_000_000 || (nano >= 1_000_000_000 && secs % 60 != 59) {
            None
        } else {
            Some(TimeOfDay { secs, frac: nano })
        }
    }

    /// The current time of day on the local clock; never a leap second.
    pub fn now_local() -> (t: TimeOfDay)
        ensures
            t.is_valid(),
            t.frac_spec() < 1_000_000_000,
    {
        let (secs, nano) = local_time_now();
        TimeOfDay::from_num_seconds_from_midnight_opt(secs, nano).unwrap()
    }

    /// Whole seconds since midnight.
    pub fn num_seconds_from_midnight(&self) -> (s: u32)
        ensures
            s == self.secs_spec(),
    {
        self.secs
    }

    /// Nanoseconds past the whole second.
    pub fn nanosecond(&self) -> (n: u32)
        ensures
            n == self.frac_spec(),
    {
        self.frac
    }
}

/// Calls chrono's `NaiveTime::signed_duration_since` (the `-` of two
/// `NaiveTime`s) and reads the difference in nanoseconds. Claimed: the
/// difference is `time_diff(a, b)`, which is the arithmetic of chrono's
/// source for that function; the result lies within two days, so
/// `num_nanoseconds` does not overflow.
#[verifier::external_body]
fn signed_duration_since(a: TimeOfDay, b: TimeOfDay) -> (d: i64)
    requires
        a.is_valid(),
        b.is_valid(),
    ensures
        d == time_diff(a, b),
{
    let x = chrono::NaiveTime::from_num_seconds_from_midnight_opt(a.secs, a.frac).unwrap();
    let y = chrono::NaiveTime::from_num_seconds_from_midnight_opt(b.secs, b.frac).unwrap();
    (x - y).num_nanoseconds().unwrap()
}

/// Reads the local wall-clock time of day with chrono's `Local::now().time()`,
/// as seconds since midnight and nanoseconds past that second. Claimed: the
/// pair is a valid time of day that is not a leap second; chrono builds
/// `Local::now` from the system clock through `DateTime::from_timestamp`,
/// whose fraction is below one second. What the time is depends on the clock
/// and is not stated.
#[verifier::external_body]
fn local_time_now() -> (t: (u32, u32))
    ensures
        valid_time(t.0, t.1),
        t.1 < 1_000_000_000,
{
    let now = chrono::Local::now().time();
    (now.num_seconds_from_midnight(), now.nanosecond())
}

/// The inputs on which the delay computation stays within its ranges: either
/// `target` is not before `now`, or `now` is at most a day past `target`.
pub open spec fn delay_defined(target: TimeOfDay, now: TimeOfDay) -> bool {
    time_diff(target, now) >= 0 || 0 <= time_diff(now, target) <= NANOS_PER_DAY
}

/// The wait from `now` until `target`, in nanoseconds: the difference when
/// `target` is still ahead today, otherwise a day less the time since `target`.
pub open spec fn delay_nanos(target: TimeOfDay, now: TimeOfDay) -> int {
    if time_diff(target, now) >= 0 {
        time_diff(target, now)
    } else {
        NANOS_PER_DAY - time_diff(now, target)
    }
}

/// When neither time sits on a leap second, chrono's difference is the
/// difference of the nanoseconds since midnight.
pub proof fn law_diff_without_leap_seconds(a: TimeOfDay, b: TimeOfDay)
    requires
        a.frac_spec() < 1_000_000_000,
        b.frac_spec() < 1_000_000_000,
    ensures
        time_diff(a, b) == nanos_of_day(a) - nanos_of_day(b),
{
}

/// Against a clock reading that is not a leap second, the delay is always
/// computable, and swapping the two times negates the difference.
pub proof fn law_delay_defined_for_clock_readings(target: TimeOfDay, now: TimeOfDay)
    requires
        target.is_valid(),
        now.is_valid(),
        now.frac_spec() < 1_000_000_000,
    ensures
        delay_defined(target, now),
        time_diff(target, now) < 0 ==> time_diff(now, target) == -time_diff(target, now),
        0 <= delay_nanos(target, now) < NANOS_PER_DAY + NANOS_PER_SEC,
{
}

/// The time of day at which a task runs, each day.
#[derive(Clone, Copy)]
pub struct ExecuteTime {
    time: TimeOfDay,
}

impl ExecuteTime {
    /// The time of day held.
    pub closed spec fn time_spec(self) -> TimeOfDay {
        self.time
    }

    /// An execute time at `time` each day.
    pub fn from(time: TimeOfDay) -> (e: ExecuteTime)
        ensures
            e.time_spec() == time,
    {
        ExecuteTime { time }
    }

    /// The time of day held.
    pub fn time(&self) -> (t: TimeOfDay)
        ensures
            t == self.time_spec(),
            t.is_valid(),
    {
        proof {
            use_type_invariant(&self.time);
        }
        self.time
    }

    /// The wait from the clock reading `now` until this time of day, in
    /// nanoseconds: until later today when it is still ahead, otherwise until
    /// the same time tomorrow.
    pub fn duration_from(&self, now: TimeOfDay) -> (d: u64)
        requires
            delay_defined(self.time_spec(), now),
        ensures
            d == delay_nanos(self.time_spec(), now),
    {
        proof {
            use_type_invariant(&self.time);
            use_type_invariant(&now);
        }
        let ahead = signed_duration_since(self.time, now);
        // chrono's `TimeDelta::to_std` succeeds exactly on non-negative deltas
        if ahead >= 0 {
            ahead as u64
        } else {
            let since = signed_duration_since(now, self.time);
            NANOS_PER_DAY - (since as u64)
        }
    }

    /// The wait from the current local time of day until this time of day, in
    /// nanoseconds (see `duration_from`).
    pub fn duration(&self) -> (d: u64)
        ensures
            exists|now: TimeOfDay|
                #![trigger delay_nanos(self.time_spec(), now)]
                now.is_valid() && now.frac_spec() < 1_000_000_000 && d == delay_nanos(self.time_spec(), now),
    {
        let now = TimeOfDay::now_local();
        proof {
            use_type_invariant(&self.time);
            law_delay_defined_for_clock_readings(self.time, now);
        }
        self.duration_from(now)
    }
}

/// The wait always ends on the execute time: for a target that is not a leap
/// second and a clock reading that is not one either, the delay is under a
/// day and the clock reading plus the delay is the target time of day
/// (modulo a day).
pub proof fn law_delay_lands_on_target(target: TimeOfDay, now: TimeOfDay)
    requires
        target.is_valid(),
        now.is_valid(),
        target.frac_spec() < 1_000_000_000,
        now.frac_spec() < 1_000_000_000,
    ensures
        0 <= delay_nanos(target, now) < NANOS_PER_DAY,
        (nanos_of_day(now) + delay_nanos(target, now)) % (NANOS_PER_DAY as int) == nanos_of_day(target),
        delay_nanos(target, now) == 0 <==> nanos_of_day(now) == nanos_of_day(target),
{
    let n = nanos_of_day(now);
    let t = nanos_of_day(target);
    let day = NANOS_PER_DAY as int;
    assert(0 <= t < day);
    assert(0 <= n < day);
    if t >= n {
        assert((n + (t - n)) % day == t) by {
            vstd::arithmetic::div_mod::lemma_small_mod(t as nat, day as nat);
        }
    } else {
        assert((n + (day - (n - t))) % day == t) by {
            vstd::arithmetic::div_mod::lemma_mod_add_multiples_vanish(t, day);
            vstd::arithmetic::div_mod::lemma_small_mod(t as nat, day as nat);
        }
    }
}

} // verus!

verus! {

/// Delays measured from one clock reading all point back to that reading:
/// for any target off a leap second, the target less its delay is the clock
/// reading (modulo a day). So two runs planned from the same reading agree
/// on the time they were planned at.
pub proof fn law_delays_share_the_reading(a: TimeOfDay, b: TimeOfDay, now: TimeOfDay)
    requires
        a.is_valid(),
        b.is_valid(),
        now.is_valid(),
        a.frac_spec() < 1_000_000_000,
        b.frac_spec() < 1_000_000_000,
        now.frac_spec() < 1_000_000_000,
    ensures
        (nanos_of_day(a) - delay_nanos(a, now)) % (NANOS_PER_DAY as int) == nanos_of_day(now),
        (nanos_of_day(a) - delay_nanos(a, now)) % (NANOS_PER_DAY as int) == (nanos_of_day(b)
            - delay_nanos(b, now)) % (NANOS_PER_DAY as int),
{
    lemma_target_less_delay(a, now);
    lemma_target_less_delay(b, now);
}

proof fn lemma_target_less_delay(t: TimeOfDay, now: TimeOfDay)
    requires
        t.is_valid(),
        now.is_valid(),
        t.frac_spec() < 1_000_000_000,
        now.frac_spec() < 1_000_000_000,
    ensures
        (nanos_of_day(t) - delay_nanos(t, now)) % (NANOS_PER_DAY as int) == nanos_of_day(now),
{
    let n = nanos_of_day(now);
    let x = nanos_of_day(t);
    let day = NANOS_PER_DAY as int;
    assert(0 <= n < day);
    assert(0 <= x < day);
    if x >= n {
        assert(x - delay_nanos(t, now) == n);
        vstd::arithmetic::div_mod::lemma_small_mod(n as nat, day as nat);
    } else {
        assert(x - delay_nanos(t, now) == n - day);
        vstd::arithmetic::div_mod::lemma_mod_sub_multiples_vanish(n, day);
        vstd::arithmetic::div_mod::lemma_small_mod(n as nat, day as nat);
    }
}

} // verus!
