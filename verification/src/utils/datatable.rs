//! Paged tables: a page of rows with the total count, and how the page is
//! picked from the request.

use vstd::prelude::*;

use crate::utils::text::{parse_u64, same_text, spec_parse_u64};

verus! {

/// A page of `data` out of `records_total` rows (no filter narrows them).
#[derive(Clone, Debug)]
pub struct Datatable<T> {
    pub records_total: u64,
    pub records_filtered: u64,
    pub data: T,
}

impl<T> Datatable<T> {
    pub fn new(total: u64, data: T) -> (table: Self)
        ensures
            table.records_total == total,
            table.records_filtered == total,
            table.data == data,
    {
        Datatable { records_total: total, records_filtered: total, data }
    }
}

/// Pages hold at least this many rows ...
pub const MIN_PAGE_LENGTH: u64 = 5;

/// ... and at most this many.
pub const MAX_PAGE_LENGTH: u64 = 1000;

/// A number given as text, or `default` when it is missing or not a
/// number.
pub open spec fn number_or(text: Option<Seq<char>>, default: u64) -> u64 {
    match text {
        Some(t) => match spec_parse_u64(t) {
            Some(v) => v,
            None => default,
        },
        None => default,
    }
}

/// `v` brought into `low..=high`.
pub open spec fn clamp(v: u64, low: u64, high: u64) -> u64 {
    if v < low {
        low
    } else if v > high {
        high
    } else {
        v
    }
}

fn number_or_default(text: Option<&str>, default: u64) -> (v: u64)
    ensures
        v == number_or(
            match text {
                Some(t) => Some(t@),
                None => None,
            },
            default,
        ),
{
    match text {
        Some(t) => match parse_u64(t) {
            Some(v) => v,
            None => default,
        },
        None => default,
    }
}

/// The first row and the number of rows of the requested page: `start`
/// defaults to 0; `length` defaults to 5 and is kept within 5 to 1000.
pub fn page_window(start: Option<&str>, length: Option<&str>) -> (window: (u64, u64))
    ensures
        window.0 == number_or(
            match start {
                Some(t) => Some(t@),
                None => None,
            },
            0,
        ),
        window.1 == clamp(
            number_or(
                match length {
                    Some(t) => Some(t@),
                    None => None,
                },
                MIN_PAGE_LENGTH,
            ),
            MIN_PAGE_LENGTH,
            MAX_PAGE_LENGTH,
        ),
        MIN_PAGE_LENGTH <= window.1 <= MAX_PAGE_LENGTH,
{
    let first = number_or_default(start, 0);
    let wanted = number_or_default(length, MIN_PAGE_LENGTH);
    let rows = if wanted < MIN_PAGE_LENGTH {
        MIN_PAGE_LENGTH
    } else if wanted > MAX_PAGE_LENGTH {
        MAX_PAGE_LENGTH
    } else {
        wanted
    };
    (first, rows)
}

/// Whether rows are sorted ascending: when the direction is `asc` or not
/// given; any other direction sorts descending.
pub fn sort_ascending(direction: Option<&str>) -> (ascending: bool)
    ensures
        ascending == match direction {
            Some(d) => d@ == "asc"@,
            None => true,
        },
{
    match direction {
        Some(d) => same_text(d, "asc"),
        None => true,
    }
}

} // verus!
