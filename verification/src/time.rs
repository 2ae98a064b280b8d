use vstd::prelude::*;
use vstd::string::StringExecFns;
use crate::decimal::{append_padded_decimal, padded_decimal};

verus! {

/// A calendar date with the time of day, as the mathematical value of a [`Time`].
pub ghost struct Moment {
    pub year: nat,
    pub month: nat,
    pub day: nat,
    pub hour: nat,
    pub minute: nat,
    pub second: nat,
}

/// Whether `year` has a 29th of February.
pub open spec fn is_leap(year: nat) -> bool {
    (year % 4 == 0 && year % 100 != 0) || year % 400 == 0
}

/// The number of days of a month; the months are counted from 1.
pub open spec fn month_length(year: nat, month: nat) -> nat {
    if month == 2 {
        if is_leap(year) {
            29
        } else {
            28
        }
    } else if month == 4 || month == 6 || month == 9 || month == 11 {
        30
    } else {
        31
    }
}

impl Moment {
    /// The moment at which every simulation starts.
    pub open spec fn start() -> Moment {
        Moment { year: 1, month: 1, day: 1, hour: 0, minute: 0, second: 0 }
    }

    /// Every field lies in its calendar range. The day after the last
    /// day of a month is numbered 0 in the next month, so 0 is a valid day.
    pub open spec fn valid(self) -> bool {
        &&& 1 <= self.month <= 12
        &&& self.day <= month_length(self.year, self.month)
        &&& self.hour < 24
        &&& self.minute < 60
        &&& self.second < 60
    }

    /// Seconds, minutes, hours and days that have piled up once `seconds` are added.
    pub open spec fn total_seconds(self, seconds: nat) -> nat {
        self.second + seconds
    }

    pub open spec fn total_minutes(self, seconds: nat) -> nat {
        self.minute + self.total_seconds(seconds) / 60
    }

    pub open spec fn total_hours(self, seconds: nat) -> nat {
        self.hour + self.total_minutes(seconds) / 60
    }

    pub open spec fn total_days(self, seconds: nat) -> nat {
        self.day + self.total_hours(seconds) / 24
    }

    /// Whether adding `seconds` leaves the current month.
    pub open spec fn leaves_month(self, seconds: nat) -> bool {
        self.total_days(seconds) > month_length(self.year, self.month)
    }

    /// The moment `seconds` later. One call moves at most into the
    /// following month, whose first day is then numbered 0.
    pub open spec fn after_seconds(self, seconds: nat) -> Moment {
        let leaves = self.leaves_month(seconds);
        Moment {
            year: if leaves && self.month == 12 {
                self.year + 1
            } else {
                self.year
            },
            month: if !leaves {
                self.month
            } else if self.month < 12 {
                self.month + 1
            } else {
                1
            },
            day: if leaves {
                0
            } else {
                self.total_days(seconds)
            },
            hour: self.total_hours(seconds) % 24,
            minute: self.total_minutes(seconds) % 60,
            second: self.total_seconds(seconds) % 60,
        }
    }

    /// The moment as text: day, month and year separated by dots, a space,
    /// then hour, minute and second separated by colons.
    pub open spec fn text(self) -> Seq<char> {
        padded_decimal(self.day, 2) + seq!['.'] + padded_decimal(self.month, 2) + seq!['.']
            + padded_decimal(self.year, 4) + seq![' '] + padded_decimal(self.hour, 2) + seq![':']
            + padded_decimal(self.minute, 2) + seq![':'] + padded_decimal(self.second, 2)
    }
}

/// The simulation's clock.
pub struct Time {
    year: u16,
    month: u8,
    day: u8,
    hour: u8,
    minute: u8,
    second: u8,
}

impl View for Time {
    type V = Moment;

    closed spec fn view(&self) -> Moment {
        Moment {
            year: self.year as nat,
            month: self.month as nat,
            day: self.day as nat,
            hour: self.hour as nat,
            minute: self.minute as nat,
            second: self.second as nat,
        }
    }
}

impl Time {
    /// The clock shows a valid moment.
    pub open spec fn wf(&self) -> bool {
        self@.valid() && self@.year <= u16::MAX
    }

    pub fn new() -> (time: Self)
        ensures
            time@ == Moment::start(),
            time.wf(),
    {
        Time { year: 1, month: 1, day: 1, hour: 0, minute: 0, second: 0 }
    }

    pub fn year(&self) -> (year: u16)
        ensures
            year == self@.year,
    {
        self.year
    }

    pub fn month(&self) -> (month: u8)
        ensures
            month == self@.month,
    {
        self.month
    }

    pub fn day(&self) -> (day: u8)
        ensures
            day == self@.day,
    {
        self.day
    }

    pub fn hour(&self) -> (hour: u8)
        ensures
            hour == self@.hour,
    {
        self.hour
    }

    pub fn minute(&self) -> (minute: u8)
        ensures
            minute == self@.minute,
    {
        self.minute
    }

    pub fn second(&self) -> (second: u8)
        ensures
            second == self@.second,
    {
        self.second
    }

    /// Whether the current year is a leap year.
    pub fn is_year_leap(&self) -> (leap: bool)
        ensures
            leap == is_leap(self@.year),
    {
        (self.year % 4 == 0 && self.year % 100 != 0) || self.year % 400 == 0
    }

    /// The number of days of the current month.
    pub fn days_in_month(&self) -> (days: u8)
        requires
            1 <= self@.month <= 12,
        ensures
            days == month_length(self@.year, self@.month),
    {
        if self.month == 2 {
            if self.is_year_leap() {
                29
            } else {
                28
            }
        } else if self.month == 4 || self.month == 6 || self.month == 9 || self.month == 11 {
            30
        } else {
            31
        }
    }

    /// Whether `seconds` can be added without the year leaving its range.
    pub fn can_add_seconds(&self, seconds: u16) -> (fits: bool)
        requires
            self.wf(),
        ensures
            fits == (self@.after_seconds(seconds as nat).year <= u16::MAX),
    {
        if self.year < u16::MAX || self.month != 12 {
            return true;
        }
        let total_seconds: u32 = seconds as u32 + self.second as u32;
        let total_minutes: u32 = self.minute as u32 + total_seconds / 60;
        let total_hours: u32 = self.hour as u32 + total_minutes / 60;
        let total_days: u32 = self.day as u32 + total_hours / 24;
        total_days <= self.days_in_month() as u32
    }

    /// Moves the clock forward by `seconds`.
    pub fn add_seconds(&mut self, seconds: u16)
        requires
            old(self).wf(),
            old(self)@.after_seconds(seconds as nat).year <= u16::MAX,
        ensures
            final(self)@ == old(self)@.after_seconds(seconds as nat),
            final(self).wf(),
    {
        let total_seconds: u32 = seconds as u32 + self.second as u32;
        let total_minutes: u32 = self.minute as u32 + total_seconds / 60;
        let total_hours: u32 = self.hour as u32 + total_minutes / 60;
        let total_days: u32 = self.day as u32 + total_hours / 24;
        let days_in_month: u32 = self.days_in_month() as u32;
        assert(total_hours / 24 <= 1);
        let modulus: u32 = days_in_month + 1;
        assert(total_days > days_in_month ==> total_days % modulus == 0) by {
            if total_days > days_in_month {
                assert(total_days == modulus);
                assert(modulus % modulus == 0) by (nonlinear_arith)
                    requires
                        modulus > 0,
                ;
            }
        }
        assert(total_days <= days_in_month ==> total_days % modulus == total_days) by {
            if total_days <= days_in_month {
                vstd::arithmetic::div_mod::lemma_small_mod(total_days as nat, modulus as nat);
            }
        }

        self.second = (total_seconds % 60) as u8;
        self.minute = (total_minutes % 60) as u8;
        self.hour = (total_hours % 24) as u8;
        self.day = (total_days % modulus) as u8;

        if total_days <= days_in_month {
            return;
        }
        if self.month < 12 {
            self.month = self.month + 1;
            return;
        }
        self.month = 1;
        self.year = self.year + 1;
    }

    /// Puts the clock back to the start.
    pub fn restart(&mut self)
        ensures
            final(self)@ == Moment::start(),
            final(self).wf(),
    {
        self.year = 1;
        self.month = 1;
        self.day = 1;
        self.hour = 0;
        self.minute = 0;
        self.second = 0;
    }

    /// The clock's reading as text.
    pub fn to_string(&self) -> (text: String)
        requires
            self.wf(),
        ensures
            text@ == self@.text(),
    {
        proof {
            reveal_strlit(".");
            reveal_strlit(" ");
            reveal_strlit(":");
        }
        let mut text = String::new();
        append_padded_decimal(&mut text, self.day as u32, 2);
        text.append(".");
        append_padded_decimal(&mut text, self.month as u32, 2);
        text.append(".");
        append_padded_decimal(&mut text, self.year as u32, 4);
        text.append(" ");
        append_padded_decimal(&mut text, self.hour as u32, 2);
        text.append(":");
        append_padded_decimal(&mut text, self.minute as u32, 2);
        text.append(":");
        append_padded_decimal(&mut text, self.second as u32, 2);
        assert("."@ =~= seq!['.']);
        assert(" "@ =~= seq![' ']);
        assert(":"@ =~= seq![':']);
        assert(text@ =~= self@.text());
        text
    }
}

} // verus!
