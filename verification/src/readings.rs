//! What was read off the machine.
//!
//! A time that was read and a number that was drawn look like any other. The
//! predicates here tell them apart: their definitions stay in this module, so
//! nothing outside can establish them but the calls that read and draw.

use vstd::prelude::*;

use crate::clock::on_calendar;
use crate::session::{all_hex, is_random_uuid};

verus! {

/// `nanos` was read off the clock. All that is known of a reading is that it
/// lies on the calendar.
pub closed spec fn is_clock_reading(nanos: int) -> bool {
    on_calendar(nanos)
}

/// `bytes` were drawn by chance. All that is known of them is their number.
pub closed spec fn are_drawn_bytes(bytes: Seq<u8>) -> bool {
    bytes.len() == 32
}

/// `index` was drawn by chance from the numbers below `n`. All that is known
/// of it is that it is one of them.
pub closed spec fn is_drawn_index(index: usize, n: usize) -> bool {
    index < n
}

/// `digits` are those of a UUID that was drawn by chance. All that is known of
/// them is their form.
pub closed spec fn are_drawn_digits(digits: Seq<char>) -> bool {
    digits.len() == 32 && all_hex(digits) && is_random_uuid(digits)
}

} // verus!
