//! Dates of which only a part may be known.

use vstd::prelude::*;

use crate::format::{decimal, signed_decimal, signed_to_string, unsigned_to_string};

verus! {

/// A date of which the day, or the day and the month, or all of it, may be
/// unknown.
pub struct Date {
    pub year: Option<isize>,
    pub month: Option<u8>,
    pub day: Option<u8>,
}

/// The English name of a month, counted from one; `Invalid` for a number
/// that is no month.
pub open spec fn month_name(m: u8) -> Seq<char> {
    if m == 1 {
        "January"@
    } else if m == 2 {
        "February"@
    } else if m == 3 {
        "March"@
    } else if m == 4 {
        "April"@
    } else if m == 5 {
        "May"@
    } else if m == 6 {
        "June"@
    } else if m == 7 {
        "July"@
    } else if m == 8 {
        "August"@
    } else if m == 9 {
        "September"@
    } else if m == 10 {
        "October"@
    } else if m == 11 {
        "November"@
    } else if m == 12 {
        "December"@
    } else {
        "Invalid"@
    }
}

/// The date in words: day, month and year as far as they are known, and
/// `Unknown` without a year. A day without a month is left out.
pub open spec fn date_text(year: Option<isize>, month: Option<u8>, day: Option<u8>) -> Seq<char> {
    match year {
        Some(y) => match month {
            Some(m) => match day {
                Some(d) => decimal(d as nat) + " "@ + month_name(m) + " "@ + signed_decimal(
                    y as int,
                ),
                None => month_name(m) + " "@ + signed_decimal(y as int),
            },
            None => signed_decimal(y as int),
        },
        None => "Unknown"@,
    }
}

fn month_text(m: u8) -> (r: String)
    ensures
        r@ == month_name(m),
{
    let name = if m == 1 {
        "January"
    } else if m == 2 {
        "February"
    } else if m == 3 {
        "March"
    } else if m == 4 {
        "April"
    } else if m == 5 {
        "May"
    } else if m == 6 {
        "June"
    } else if m == 7 {
        "July"
    } else if m == 8 {
        "August"
    } else if m == 9 {
        "September"
    } else if m == 10 {
        "October"
    } else if m == 11 {
        "November"
    } else if m == 12 {
        "December"
    } else {
        "Invalid"
    };
    name.to_owned()
}

impl Date {
    /// A date from what is known of it.
    pub fn new(year: Option<isize>, month: Option<u8>, day: Option<u8>) -> (r: Self)
        ensures
            r.year == year,
            r.month == month,
            r.day == day,
    {
        Date { year, month, day }
    }

    /// The date in words.
    pub fn to_string(&self) -> (r: String)
        ensures
            r@ == date_text(self.year, self.month, self.day),
    {
        match self.year {
            Some(y) => {
                let year = signed_to_string(y as i64);
                match self.month {
                    Some(m) => {
                        let month = month_text(m);
                        match self.day {
                            Some(d) => unsigned_to_string(d as u64).concat(" ").concat(
                                month.as_str(),
                            ).concat(" ").concat(year.as_str()),
                            None => month.concat(" ").concat(year.as_str()),
                        }
                    },
                    None => year,
                }
            },
            None => "Unknown".to_owned(),
        }
    }
}

} // verus!
