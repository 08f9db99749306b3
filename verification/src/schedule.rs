//! From the answers about a deadline to the moment it names.

use vstd::prelude::*;
use crate::error::TrackerError;
use crate::moment::{Moment, EARLIEST, LATEST, NANOS_PER_DAY, NANOS_PER_HOUR, NANOS_PER_MINUTE};

verus! {

/// A deadline as the user gives it: so many days from today, at an hour and
/// a minute of that day.
#[derive(Clone, Copy, Debug, PartialEq, Eq, Structural)]
pub struct Schedule {
    pub days: i32,
    pub hour: i32,
    pub minute: i32,
}

/// Midnight at the start of the day in which `now` lies.
pub open spec fn start_of_day(now: int) -> int {
    now - now % (NANOS_PER_DAY as int)
}

/// The deadline that `schedule` names on the day of `now`: today's midnight,
/// moved by the days, plus the hour and the minute.
pub open spec fn due_nanos(now: int, schedule: Schedule) -> int {
    start_of_day(now) + schedule.days * NANOS_PER_DAY + schedule.hour * NANOS_PER_HOUR
        + schedule.minute * NANOS_PER_MINUTE
}

/// Whether `schedule` names a deadline: its hour is one of 0 to 23, its
/// minute one of 0 to 59, and the moment it leads to is one that a moment
/// can hold.
pub open spec fn names_deadline(now: int, schedule: Schedule) -> bool {
    &&& 0 <= schedule.hour < 24
    &&& 0 <= schedule.minute < 60
    &&& EARLIEST <= due_nanos(now, schedule) <= LATEST
}

/// Works out the deadline that `schedule` names, seen from `now`. A
/// schedule that names none is no valid input.
pub fn due_date(now: Moment, schedule: Schedule) -> (due: Result<Moment, TrackerError>)
    ensures
        due is Ok <==> names_deadline(now@, schedule),
        due matches Ok(moment) ==> moment@ == due_nanos(now@, schedule),
        due matches Err(e) ==> e == TrackerError::InvalidInput,
{
    if schedule.hour < 0 || schedule.hour >= 24 || schedule.minute < 0 || schedule.minute >= 60 {
        return Err(TrackerError::InvalidInput);
    }
    let nanos = now.unix_nanos();
    let into_day: i128 = match nanos.checked_rem_euclid(NANOS_PER_DAY) {
        Some(r) => r,
        None => 0,
    };
    let midnight: i128 = nanos - into_day;
    let due: i128 = midnight + (schedule.days as i128) * NANOS_PER_DAY + (schedule.hour as i128)
        * NANOS_PER_HOUR + (schedule.minute as i128) * NANOS_PER_MINUTE;
    match Moment::from_unix_nanos(due) {
        Some(moment) => Ok(moment),
        None => Err(TrackerError::InvalidInput),
    }
}

/// A deadline lies on the day that is `days` days from today, and as far
/// into that day as its hour and minute say.
pub proof fn lemma_deadline_is_on_its_day(now: int, schedule: Schedule)
    requires
        0 <= schedule.hour < 24,
        0 <= schedule.minute < 60,
    ensures
        start_of_day(due_nanos(now, schedule)) == start_of_day(now) + schedule.days * NANOS_PER_DAY,
        due_nanos(now, schedule) - start_of_day(due_nanos(now, schedule)) == schedule.hour
            * NANOS_PER_HOUR + schedule.minute * NANOS_PER_MINUTE,
{
    let day = NANOS_PER_DAY as int;
    let whole_days = now / day + schedule.days;
    let into_day = schedule.hour * NANOS_PER_HOUR + schedule.minute * NANOS_PER_MINUTE;
    assert(0 <= into_day < day);
    assert(due_nanos(now, schedule) == day * whole_days + into_day) by {
        vstd::arithmetic::div_mod::lemma_fundamental_div_mod(now, day);
        assert(day * whole_days == day * (now / day) + schedule.days * day) by (nonlinear_arith)
            requires
                whole_days == now / day + schedule.days,
        ;
    }
    assert((day * whole_days + into_day) % day == into_day) by {
        vstd::arithmetic::div_mod::lemma_mod_multiples_vanish(whole_days, into_day, day);
        vstd::arithmetic::div_mod::lemma_small_mod(into_day as nat, day as nat);
    }
}

} // verus!
