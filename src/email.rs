//! The e-mail alert schedule.
use vstd::prelude::*;
use vstd::string::StringExecFns;

verus! {

/// One day of an alert schedule, with its hours.
#[derive(Clone, Debug, PartialEq, Eq)]
pub struct TimeBlock {
    pub enable: u8,
    pub week_day: String,
    pub begin_hour: u8,
    pub end_hour: u8,
}

/// The name of day `i` of the week, Sunday first.
pub open spec fn day_name(i: int) -> Seq<char> {
    if i == 0 {
        "Sunday"@
    } else if i == 1 {
        "Monday"@
    } else if i == 2 {
        "Tuesday"@
    } else if i == 3 {
        "Wednesday"@
    } else if i == 4 {
        "Thursday"@
    } else if i == 5 {
        "Friday"@
    } else {
        "Saturday"@
    }
}

fn day_name_exec(i: usize) -> (r: String)
    requires
        i < 7,
    ensures
        r@ == day_name(i as int),
{
    if i == 0 {
        String::from_str("Sunday")
    } else if i == 1 {
        String::from_str("Monday")
    } else if i == 2 {
        String::from_str("Tuesday")
    } else if i == 3 {
        String::from_str("Wednesday")
    } else if i == 4 {
        String::from_str("Thursday")
    } else if i == 5 {
        String::from_str("Friday")
    } else {
        String::from_str("Saturday")
    }
}

/// The schedule that sends alerts on motion at every hour of every day: each
/// day of the week, Sunday first, enabled from hour 0 to hour 23.
pub fn always_on_schedule() -> (r: Vec<TimeBlock>)
    ensures
        r@.len() == 7,
        forall|i: int|
            0 <= i < 7 ==> {
                &&& #[trigger] r@[i].enable == 1
                &&& r@[i].week_day@ == day_name(i)
                &&& r@[i].begin_hour == 0
                &&& r@[i].end_hour == 23
            },
{
    let mut out: Vec<TimeBlock> = Vec::new();
    let mut i: usize = 0;
    while i < 7
        invariant
            i <= 7,
            out@.len() == i,
            forall|j: int|
                0 <= j < i ==> {
                    &&& #[trigger] out@[j].enable == 1
                    &&& out@[j].week_day@ == day_name(j)
                    &&& out@[j].begin_hour == 0
                    &&& out@[j].end_hour == 23
                },
        decreases 7 - i,
    {
        out.push(TimeBlock { enable: 1, week_day: day_name_exec(i), begin_hour: 0, end_hour: 23 });
        i += 1;
    }
    out
}

} // verus!
