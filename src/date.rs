use vstd::prelude::*;

verus! {

/// Whether `y` is a leap year of the proleptic Gregorian calendar.
pub open spec fn is_leap_year(y: int) -> bool {
    (y % 4 == 0 && y % 100 != 0) || y % 400 == 0
}

/// The number of days in month `m` of year `y`.
pub open spec fn days_in_month(y: int, m: int) -> int {
    if m == 2 {
        if is_leap_year(y) { 29 } else { 28 }
    } else if m == 4 || m == 6 || m == 9 || m == 11 {
        30
    } else {
        31
    }
}

/// A calendar day that can be written with a four-digit year.
pub open spec fn is_valid_date(y: int, m: int, d: int) -> bool {
    0 <= y <= 9999 && 1 <= m <= 12 && 1 <= d <= days_in_month(y, m)
}

/// The decimal digit for `n`, which lies in `0..10`.
pub open spec fn digit_char(n: int) -> char {
    ((n + 48) as u8) as char
}

/// `n` written with exactly two decimal digits.
pub open spec fn pad2(n: int) -> Seq<char> {
    seq![digit_char(n / 10), digit_char(n % 10)]
}

/// `n` written with exactly four decimal digits.
pub open spec fn pad4(n: int) -> Seq<char> {
    seq![digit_char(n / 1000), digit_char((n / 100) % 10), digit_char((n / 10) % 10), digit_char(n % 10)]
}

/// Year, month and day, zero-padded to 4, 2 and 2 digits and joined by `sep`.
pub open spec fn date_text(d: (int, int, int), sep: char) -> Seq<char> {
    pad4(d.0) + seq![sep] + pad2(d.1) + seq![sep] + pad2(d.2)
}

/// A key that tells dates apart and orders them as the calendar does.
pub open spec fn date_key(d: (int, int, int)) -> int {
    d.0 * 65536 + d.1 * 256 + d.2
}

/// A day of the calendar, such as the one a work item stands for.
#[derive(Clone, Copy, Debug, PartialEq, Eq, Structural, Hash)]
pub struct Date {
    year: u16,
    month: u8,
    day: u8,
}

impl View for Date {
    type V = (int, int, int);

    closed spec fn view(&self) -> (int, int, int) {
        (self.year as int, self.month as int, self.day as int)
    }
}

impl Date {
    #[verifier::type_invariant]
    closed spec fn inv(self) -> bool {
        is_valid_date(self.year as int, self.month as int, self.day as int)
    }

    /// The date with the given year, month and day, if that day exists and
    /// its year has four digits.
    pub fn new(year: i32, month: u32, day: u32) -> (r: Option<Date>)
        ensures
            r is Some <==> is_valid_date(year as int, month as int, day as int),
            r matches Some(d) ==> d@ == (year as int, month as int, day as int),
    {
        if year < 0 || year > 9999 || month < 1 || month > 12 || day < 1 {
            return None;
        }
        let leap = (year % 4 == 0 && year % 100 != 0) || year % 400 == 0;
        let last: u32 = if month == 2 {
            if leap { 29 } else { 28 }
        } else if month == 4 || month == 6 || month == 9 || month == 11 {
            30
        } else {
            31
        };
        if day > last {
            return None;
        }
        Some(Date { year: year as u16, month: month as u8, day: day as u8 })
    }

    pub fn year(&self) -> (r: i32)
        ensures
            r as int == self@.0,
    {
        self.year as i32
    }

    pub fn month(&self) -> (r: u32)
        ensures
            r as int == self@.1,
    {
        self.month as u32
    }

    pub fn day(&self) -> (r: u32)
        ensures
            r as int == self@.2,
    {
        self.day as u32
    }

    /// A number that is equal for two dates exactly when they are the same day.
    pub fn key(&self) -> (r: u64)
        ensures
            r as int == date_key(self@),
    {
        (self.year as u64) * 65536 + (self.month as u64) * 256 + (self.day as u64)
    }

    /// Whether this day comes before `other`.
    pub fn is_before(&self, other: &Date) -> (r: bool)
        ensures
            r == (date_key(self@) < date_key(other@)),
    {
        self.key() < other.key()
    }

    /// The date written as year, month and day joined by `sep`
    /// (`2000-01-02` for `-`).
    pub fn text(&self, sep: char) -> (r: Vec<char>)
        ensures
            r@ == date_text(self@, sep),
    {
        proof {
            use_type_invariant(self);
        }
        let y = self.year;
        let mut r: Vec<char> = Vec::new();
        r.push(((y / 1000) as u8 + 48) as char);
        r.push((((y / 100) % 10) as u8 + 48) as char);
        r.push((((y / 10) % 10) as u8 + 48) as char);
        r.push(((y % 10) as u8 + 48) as char);
        r.push(sep);
        r.push((self.month / 10 + 48) as char);
        r.push((self.month % 10 + 48) as char);
        r.push(sep);
        r.push((self.day / 10 + 48) as char);
        r.push((self.day % 10 + 48) as char);
        assert(r@ =~= date_text(self@, sep));
        r
    }
}

/// Why a run's first date was refused.
#[derive(Clone, Copy, Debug, PartialEq, Eq, Structural)]
pub enum DateRangeError {
    /// The start is before the first image.
    BeforeFirst,
    /// The start is after the latest image.
    AfterLatest,
}

/// The day of the first image.
pub fn first_date() -> (r: Date)
    ensures
        r@ == (1978int, 6int, 19int),
{
    Date { year: 1978, month: 6, day: 19 }
}

/// Checks that a run may start at `start`: not before the first image and not
/// after `latest`, the day of the latest image.
pub fn check_start_date(start: &Date, latest: &Date) -> (r: Result<(), DateRangeError>)
    ensures
        date_key(start@) < date_key((1978int, 6int, 19int)) ==> r == Err::<(), DateRangeError>(
            DateRangeError::BeforeFirst,
        ),
        date_key(start@) >= date_key((1978int, 6int, 19int)) && date_key(start@) > date_key(latest@)
            ==> r == Err::<(), DateRangeError>(DateRangeError::AfterLatest),
        date_key(start@) >= date_key((1978int, 6int, 19int)) && date_key(start@) <= date_key(latest@)
            ==> r is Ok,
{
    if start.is_before(&first_date()) {
        Err(DateRangeError::BeforeFirst)
    } else if latest.is_before(start) {
        Err(DateRangeError::AfterLatest)
    } else {
        Ok(())
    }
}

/// Two dates have the same key exactly when they are the same day, and a key
/// fits in 32 bits.
pub proof fn lemma_date_key_injective(a: Date, b: Date)
    ensures
        date_key(a@) == date_key(b@) <==> a@ == b@,
        0 <= date_key(a@) < 0x1_0000_0000,
{
}

} // verus!
