//! The availability schedule that every stored asset gets.

use vstd::prelude::*;
use vstd::string::StringExecFns;

verus! {

/// The recurrence that the gateway attaches to vertiports, vertipads and
/// aircraft: from 2022-10-20 18:00 UTC on, 24 hours long, every day of every
/// week. The two lines are those of an RFC 5545 recurrence, with a line feed
/// between them and no blank anywhere.
pub open spec fn weekly_schedule_text() -> Seq<char> {
    "DTSTART:20221020T180000Z;DURATION:PT24H\nRRULE:FREQ=WEEKLY;BYDAY=MO,TU,WE,TH,FR,SA,SU"@
}

/// The schedule of an asset that is open around the clock, all week.
pub fn weekly_schedule() -> (schedule: String)
    ensures
        schedule@ == weekly_schedule_text(),
{
    String::from_str(
        "DTSTART:20221020T180000Z;DURATION:PT24H\nRRULE:FREQ=WEEKLY;BYDAY=MO,TU,WE,TH,FR,SA,SU",
    )
}

} // verus!
