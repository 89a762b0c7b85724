use vstd::prelude::*;

verus! {

/// Day of the week as carried in the current-time attribute: 0 means
/// unknown, 1 through 7 mean Monday through Sunday.
#[derive(Clone, Copy, PartialEq, Eq, Structural, Debug)]
pub enum DayOfWeek {
    Unknown,
    Monday,
    Tuesday,
    Wednesday,
    Thursday,
    Friday,
    Saturday,
    Sunday,
}

impl DayOfWeek {
    /// Wire byte for this day (0 for unknown, 1..=7 for Monday..Sunday).
    pub open spec fn spec_byte(self) -> u8 {
        match self {
            DayOfWeek::Unknown => 0,
            DayOfWeek::Monday => 1,
            DayOfWeek::Tuesday => 2,
            DayOfWeek::Wednesday => 3,
            DayOfWeek::Thursday => 4,
            DayOfWeek::Friday => 5,
            DayOfWeek::Saturday => 6,
            DayOfWeek::Sunday => 7,
        }
    }

    /// Day decoded from a wire byte; anything outside 1..=7 is unknown.
    pub open spec fn spec_from_byte(b: u8) -> DayOfWeek {
        if b == 1 {
            DayOfWeek::Monday
        } else if b == 2 {
            DayOfWeek::Tuesday
        } else if b == 3 {
            DayOfWeek::Wednesday
        } else if b == 4 {
            DayOfWeek::Thursday
        } else if b == 5 {
            DayOfWeek::Friday
        } else if b == 6 {
            DayOfWeek::Saturday
        } else if b == 7 {
            DayOfWeek::Sunday
        } else {
            DayOfWeek::Unknown
        }
    }

    pub fn to_byte(self) -> (r: u8)
        ensures
            r == self.spec_byte(),
    {
        match self {
            DayOfWeek::Unknown => 0,
            DayOfWeek::Monday => 1,
            DayOfWeek::Tuesday => 2,
            DayOfWeek::Wednesday => 3,
            DayOfWeek::Thursday => 4,
            DayOfWeek::Friday => 5,
            DayOfWeek::Saturday => 6,
            DayOfWeek::Sunday => 7,
        }
    }

    pub fn from_byte(b: u8) -> (r: Self)
        ensures
            r == Self::spec_from_byte(b),
    {
        match b {
            1 => DayOfWeek::Monday,
            2 => DayOfWeek::Tuesday,
            3 => DayOfWeek::Wednesday,
            4 => DayOfWeek::Thursday,
            5 => DayOfWeek::Friday,
            6 => DayOfWeek::Saturday,
            7 => DayOfWeek::Sunday,
            _ => DayOfWeek::Unknown,
        }
    }
}

/// Reasons for a clock adjustment, a set drawn from four flags packed
/// into the low bits of one byte.
#[derive(Clone, Copy, PartialEq, Eq, Structural, Debug)]
pub struct AdjustReason(pub u8);

/// Bit for a manual time update.
pub const ADJUST_MANUAL_TIME_UPDATE: u8 = 0x01;

/// Bit for synchronization against an external reference.
pub const ADJUST_EXTERNAL_REFERENCE: u8 = 0x02;

/// Bit for a change of time zone.
pub const ADJUST_TIMEZONE_CHANGE: u8 = 0x04;

/// Bit for a change of daylight saving time.
pub const ADJUST_DST_CHANGE: u8 = 0x08;

/// Mask of the four defined adjust-reason bits; the rest are reserved.
pub const ADJUST_KNOWN_BITS: u8 = 0x0F;

impl AdjustReason {
    /// True when no reserved bit is set, so the value is a subset of the
    /// four defined flags.
    pub open spec fn spec_well_formed(self) -> bool {
        self.0 < 16
    }

    /// The set with no flag at all.
    pub fn empty() -> (r: Self)
        ensures
            r.0 == 0,
    {
        AdjustReason(0)
    }

    pub fn manual_time_update() -> (r: Self)
        ensures
            r.0 == ADJUST_MANUAL_TIME_UPDATE,
    {
        AdjustReason(ADJUST_MANUAL_TIME_UPDATE)
    }

    pub fn external_reference() -> (r: Self)
        ensures
            r.0 == ADJUST_EXTERNAL_REFERENCE,
    {
        AdjustReason(ADJUST_EXTERNAL_REFERENCE)
    }

    pub fn timezone_change() -> (r: Self)
        ensures
            r.0 == ADJUST_TIMEZONE_CHANGE,
    {
        AdjustReason(ADJUST_TIMEZONE_CHANGE)
    }

    pub fn dst_change() -> (r: Self)
        ensures
            r.0 == ADJUST_DST_CHANGE,
    {
        AdjustReason(ADJUST_DST_CHANGE)
    }

    /// The raw flag byte.
    pub fn bits(self) -> (r: u8)
        ensures
            r == self.0,
    {
        self.0
    }

    /// Keeps the four defined bits and silently drops the reserved ones.
    pub fn from_bits_truncate(bits: u8) -> (r: Self)
        ensures
            r.0 == bits & ADJUST_KNOWN_BITS,
            r.spec_well_formed(),
    {
        let masked: u8 = bits & ADJUST_KNOWN_BITS;
        proof {
            assert(bits & 0x0F < 16) by (bit_vector);
        }
        AdjustReason(masked)
    }

    /// The union of two flag sets.
    pub fn union(self, other: Self) -> (r: Self)
        ensures
            r.0 == self.0 | other.0,
    {
        AdjustReason(self.0 | other.0)
    }

    /// True when every flag of `other` is set in `self`.
    pub fn contains(self, other: Self) -> (r: bool)
        ensures
            r == (self.0 & other.0 == other.0),
    {
        self.0 & other.0 == other.0
    }
}

/// A wall-clock instant as exchanged over the current-time attribute:
/// Gregorian date, time of day, day of week, 1/256-second fraction and
/// the reason for the last adjustment.
#[derive(Clone, Copy, PartialEq, Eq, Structural, Debug)]
pub struct CurrentTime {
    pub year: u16,
    pub month: u8,
    pub day: u8,
    pub hour: u8,
    pub minute: u8,
    pub second: u8,
    pub day_of_week: DayOfWeek,
    pub fractions256: u8,
    pub adjust_reason: AdjustReason,
}

/// Nanoseconds in one 1/256 step of a second.
pub const NANOS_PER_FRACTION256: u32 = 3906250;

pub open spec fn spec_is_leap_year(year: int) -> bool {
    (year % 4 == 0 && year % 100 != 0) || year % 400 == 0
}

pub open spec fn spec_days_in_year(year: int) -> int {
    if spec_is_leap_year(year) {
        366
    } else {
        365
    }
}

pub open spec fn spec_days_in_month(year: int, month: int) -> int {
    if month == 2 {
        if spec_is_leap_year(year) {
            29
        } else {
            28
        }
    } else if month == 4 || month == 6 || month == 9 || month == 11 {
        30
    } else {
        31
    }
}

/// Days from the Unix epoch to the first day of `year`.
pub open spec fn spec_days_before_year(year: int) -> int
    decreases year - 1970,
{
    if year <= 1970 {
        0
    } else {
        spec_days_before_year(year - 1) + spec_days_in_year(year - 1)
    }
}

/// Days from the first day of `year` to the first day of `month`.
pub open spec fn spec_days_before_month(year: int, month: int) -> int
    decreases month,
{
    if month <= 1 {
        0
    } else {
        spec_days_before_month(year, month - 1) + spec_days_in_month(year, month - 1)
    }
}

/// Days from the Unix epoch to the given date.
pub open spec fn spec_days_since_epoch(year: int, month: int, day: int) -> int {
    spec_days_before_year(year) + spec_days_before_month(year, month) + day - 1
}

/// A date the clock format can carry: on or after 1970, with a real
/// month and day.
pub open spec fn spec_valid_date(year: int, month: int, day: int) -> bool {
    1970 <= year && 1 <= month <= 12 && 1 <= day <= spec_days_in_month(year, month)
}

/// 1970-01-01 was a Thursday; the week then cycles with the day count.
pub open spec fn spec_weekday_from_days(days: int) -> DayOfWeek {
    let r = days % 7;
    if r == 0 {
        DayOfWeek::Thursday
    } else if r == 1 {
        DayOfWeek::Friday
    } else if r == 2 {
        DayOfWeek::Saturday
    } else if r == 3 {
        DayOfWeek::Sunday
    } else if r == 4 {
        DayOfWeek::Monday
    } else if r == 5 {
        DayOfWeek::Tuesday
    } else {
        DayOfWeek::Wednesday
    }
}

/// Days from the Unix epoch to the first day of year 65536, the first
/// year that no longer fits the format's 16-bit year.
pub open spec fn spec_day_limit() -> int {
    spec_days_before_year(65536)
}

/// Every year contributes at least 365 and at most 366 days.
pub proof fn lemma_days_before_year_bounds(year: int)
    requires
        1970 <= year,
    ensures
        365 * (year - 1970) <= spec_days_before_year(year) <= 366 * (year - 1970),
    decreases year - 1970,
{
    if year > 1970 {
        lemma_days_before_year_bounds(year - 1);
    }
}

/// The day count to a year's first day never shrinks as years go on.
pub proof fn lemma_days_before_year_monotone(y1: int, y2: int)
    requires
        y1 <= y2,
    ensures
        spec_days_before_year(y1) <= spec_days_before_year(y2),
    decreases y2 - y1,
{
    if y1 < y2 {
        lemma_days_before_year_monotone(y1, y2 - 1);
    }
}

/// Months of one year sum to that year's day count.
pub proof fn lemma_days_before_month_full_year(year: int)
    ensures
        spec_days_before_month(year, 13) == spec_days_in_year(year),
{
    reveal_with_fuel(spec_days_before_month, 14);
}

/// The day count to a month's first day never shrinks within a year.
pub proof fn lemma_days_before_month_monotone(year: int, m1: int, m2: int)
    requires
        m1 <= m2,
    ensures
        spec_days_before_month(year, m1) <= spec_days_before_month(year, m2),
    decreases m2 - m1,
{
    if m1 < m2 {
        lemma_days_before_month_monotone(year, m1, m2 - 1);
    }
}

/// Splitting seconds into days, hours, minutes and seconds of the day
/// and summing the parts back gives the seconds again.
pub proof fn lemma_time_of_day_recompose(secs: int)
    requires
        0 <= secs,
    ensures
        (secs / 86400) * 86400 + ((secs % 86400) / 3600) * 3600 + (((secs % 86400) % 3600) / 60)
            * 60 + (secs % 86400) % 60 == secs,
{
    let x = secs % 86400;
    vstd::arithmetic::div_mod::lemma_fundamental_div_mod(secs, 86400);
    vstd::arithmetic::div_mod::lemma_fundamental_div_mod(x, 3600);
    vstd::arithmetic::div_mod::lemma_fundamental_div_mod(x % 3600, 60);
    vstd::arithmetic::div_mod::lemma_mod_mod(x, 60, 60);
}

/// A clock value with a real date and a sane time of day has
/// non-negative seconds, its day count is exactly its date's, and it
/// stays below the format's day limit.
pub proof fn lemma_unix_seconds_in_range(ct: CurrentTime)
    requires
        spec_valid_date(ct.year as int, ct.month as int, ct.day as int),
        ct.hour < 24,
        ct.minute < 60,
        ct.second < 60,
    ensures
        0 <= spec_unix_seconds(ct),
        spec_unix_seconds(ct) % 86400 == ct.hour as int * 3600 + ct.minute as int * 60
            + ct.second as int,
        spec_unix_seconds(ct) / 86400 == spec_days_since_epoch(
            ct.year as int,
            ct.month as int,
            ct.day as int,
        ),
        spec_unix_seconds(ct) / 86400 < spec_day_limit(),
{
    let y = ct.year as int;
    let mo = ct.month as int;
    let d = ct.day as int;
    let days = spec_days_since_epoch(y, mo, d);
    lemma_days_before_year_bounds(y);
    lemma_days_before_month_monotone(y, 1, mo);
    lemma_days_before_month_monotone(y, mo + 1, 13);
    lemma_days_before_month_full_year(y);
    assert(spec_days_before_month(y, mo + 1) == spec_days_before_month(y, mo)
        + spec_days_in_month(y, mo));
    assert(spec_days_before_year(y + 1) == spec_days_before_year(y) + spec_days_in_year(y));
    lemma_days_before_year_monotone(y + 1, 65536);
    vstd::arithmetic::div_mod::lemma_fundamental_div_mod_converse(
        spec_unix_seconds(ct),
        86400,
        days,
        ct.hour as int * 3600 + ct.minute as int * 60 + ct.second as int,
    );
}

/// Returns true for Gregorian leap years.
pub fn is_leap_year(year: u16) -> (r: bool)
    ensures
        r == spec_is_leap_year(year as int),
{
    (year % 4 == 0 && year % 100 != 0) || year % 400 == 0
}

/// Days in the given month, with February answered for the given year.
pub fn days_in_month(year: u16, month: u8) -> (r: u8)
    ensures
        r == spec_days_in_month(year as int, month as int),
{
    if month == 2 {
        if is_leap_year(year) {
            29
        } else {
            28
        }
    } else if month == 4 || month == 6 || month == 9 || month == 11 {
        30
    } else {
        31
    }
}

/// Converts a date to the number of days since the Unix epoch.  The day
/// is only checked against 31, not against the month's own length:
/// callers that need a real date check that first.
pub fn date_to_days_since_epoch(year: u16, month: u8, day: u8) -> (r: Option<u32>)
    ensures
        r is Some <==> (1970 <= year && 1 <= month <= 12 && 1 <= day <= 31),
        r matches Some(days) ==> days == spec_days_since_epoch(
            year as int,
            month as int,
            day as int,
        ),
{
    if year < 1970 || month < 1 || month > 12 || day < 1 || day > 31 {
        return None;
    }
    let mut days: u32 = 0;
    let mut y: u16 = 1970;
    while y < year
        invariant
            1970 <= y <= year,
            days == spec_days_before_year(y as int),
            days <= 366 * (y - 1970),
        decreases year - y,
    {
        proof {
            lemma_days_before_year_bounds(y as int + 1);
        }
        if is_leap_year(y) {
            days += 366;
        } else {
            days += 365;
        }
        y += 1;
    }
    let mut m: u8 = 1;
    while m < month
        invariant
            1 <= m <= month,
            month <= 12,
            days == spec_days_before_year(year as int) + spec_days_before_month(
                year as int,
                m as int,
            ),
            days <= 366 * (year - 1970) + 31 * (m - 1),
        decreases month - m,
    {
        days += days_in_month(year, m) as u32;
        m += 1;
    }
    Some(days + (day - 1) as u32)
}

/// The ten wire bytes of a clock value: year little-endian, then month,
/// day, hour, minute, second, day of week, fraction and adjust flags.
pub open spec fn spec_current_time_bytes(ct: CurrentTime) -> Seq<u8> {
    seq![
        (ct.year % 256) as u8,
        (ct.year / 256) as u8,
        ct.month,
        ct.day,
        ct.hour,
        ct.minute,
        ct.second,
        ct.day_of_week.spec_byte(),
        ct.fractions256,
        ct.adjust_reason.0,
    ]
}

/// The clock value read from ten wire bytes; total on any buffer.
pub open spec fn spec_decode_current_time(b: Seq<u8>) -> CurrentTime
    recommends
        b.len() >= 10,
{
    CurrentTime {
        year: (b[0] + 256 * b[1]) as u16,
        month: b[2],
        day: b[3],
        hour: b[4],
        minute: b[5],
        second: b[6],
        day_of_week: DayOfWeek::spec_from_byte(b[7]),
        fractions256: b[8],
        adjust_reason: AdjustReason((b[9] & ADJUST_KNOWN_BITS) as u8),
    }
}

/// Seconds since the Unix epoch of a clock value's date and time of
/// day, ignoring the sub-second fraction.
pub open spec fn spec_unix_seconds(ct: CurrentTime) -> int {
    spec_days_since_epoch(ct.year as int, ct.month as int, ct.day as int) * 86400
        + ct.hour as int * 3600 + ct.minute as int * 60 + ct.second as int
}

impl CurrentTime {
    /// The Unix epoch itself: 1970-01-01T00:00:00, a Thursday.
    pub fn unix_epoch() -> (r: Self)
        ensures
            r == (CurrentTime {
                year: 1970,
                month: 1,
                day: 1,
                hour: 0,
                minute: 0,
                second: 0,
                day_of_week: DayOfWeek::Thursday,
                fractions256: 0,
                adjust_reason: AdjustReason(0),
            }),
    {
        CurrentTime {
            year: 1970,
            month: 1,
            day: 1,
            hour: 0,
            minute: 0,
            second: 0,
            day_of_week: DayOfWeek::Thursday,
            fractions256: 0,
            adjust_reason: AdjustReason(0),
        }
    }

    /// Encodes the clock value into its ten wire bytes.
    pub fn to_bytes(&self) -> (r: [u8; 10])
        ensures
            r@ == spec_current_time_bytes(*self),
    {
        let r: [u8; 10] = [
            (self.year % 256) as u8,
            (self.year / 256) as u8,
            self.month,
            self.day,
            self.hour,
            self.minute,
            self.second,
            self.day_of_week.to_byte(),
            self.fractions256,
            self.adjust_reason.bits(),
        ];
        proof {
            assert(r@ =~= spec_current_time_bytes(*self));
        }
        r
    }

    /// Decodes ten wire bytes into a clock value.  This never fails:
    /// a day-of-week byte outside 1..=7 becomes unknown and reserved
    /// adjust-reason bits are dropped silently.
    pub fn from_bytes(bytes: &[u8]) -> (r: Self)
        requires
            bytes@.len() >= 10,
        ensures
            r == spec_decode_current_time(bytes@),
    {
        let year: u16 = bytes[0] as u16 + 256 * bytes[1] as u16;
        CurrentTime {
            year,
            month: bytes[2],
            day: bytes[3],
            hour: bytes[4],
            minute: bytes[5],
            second: bytes[6],
            day_of_week: DayOfWeek::from_byte(bytes[7]),
            fractions256: bytes[8],
            adjust_reason: AdjustReason::from_bits_truncate(bytes[9]),
        }
    }

    /// Seconds and nanoseconds since the Unix epoch, or `None` when the
    /// date fields do not name a real day on or after 1970.  The time
    /// of day is taken as it stands, so the result is exact for every
    /// well-formed clock value.
    pub fn to_unix_timestamp(&self) -> (r: Option<(i64, u32)>)
        ensures
            r is Some <==> spec_valid_date(self.year as int, self.month as int, self.day as int),
            r matches Some((secs, nanos)) ==> secs == spec_unix_seconds(*self) && nanos
                == self.fractions256 as u32 * NANOS_PER_FRACTION256,
    {
        if self.month < 1 || self.month > 12 || self.day < 1 || self.day > 31 {
            return None;
        }
        if self.day > days_in_month(self.year, self.month) {
            return None;
        }
        let days = match date_to_days_since_epoch(self.year, self.month, self.day) {
            Some(d) => d,
            None => {
                return None;
            },
        };
        let secs: i64 = days as i64 * 86400 + self.hour as i64 * 3600 + self.minute as i64 * 60
            + self.second as i64;
        let nanos: u32 = self.fractions256 as u32 * NANOS_PER_FRACTION256;
        Some((secs, nanos))
    }

    /// Splits seconds since the Unix epoch into a calendar date and
    /// time of day, with the day of week derived from the day count,
    /// no fraction and an empty adjust reason.  `None` when the value
    /// is negative or the year would no longer fit sixteen bits.
    pub fn from_unix_timestamp(secs: i64) -> (r: Option<Self>)
        ensures
            r is Some <==> 0 <= secs && secs / 86400 < spec_day_limit(),
            r matches Some(ct) ==> {
                &&& spec_valid_date(ct.year as int, ct.month as int, ct.day as int)
                &&& spec_days_since_epoch(ct.year as int, ct.month as int, ct.day as int) == secs
                    / 86400
                &&& ct.hour == (secs % 86400) / 3600
                &&& ct.minute == ((secs % 86400) % 3600) / 60
                &&& ct.second == (secs % 86400) % 60
                &&& ct.day_of_week == spec_weekday_from_days(secs / 86400)
                &&& ct.fractions256 == 0
                &&& ct.adjust_reason.0 == 0
            },
    {
        if secs < 0 {
            return None;
        }
        let days: i64 = secs / 86400;
        let seconds_in_day: i64 = secs % 86400;
        let hour: u8 = (seconds_in_day / 3600) as u8;
        let minute: u8 = ((seconds_in_day % 3600) / 60) as u8;
        let second: u8 = (seconds_in_day % 60) as u8;

        let mut year: u16 = 1970;
        let mut days_remaining: i64 = days;
        loop
            invariant
                1970 <= year <= 65535,
                0 <= days_remaining,
                spec_days_before_year(year as int) + days_remaining == days,
                days == secs / 86400,
                0 <= secs,
            ensures
                1970 <= year <= 65535,
                0 <= days_remaining,
                days_remaining < spec_days_in_year(year as int),
                spec_days_before_year(year as int) + days_remaining == days,
            decreases days_remaining,
        {
            let days_in_year: i64 = if is_leap_year(year) {
                366
            } else {
                365
            };
            if days_remaining < days_in_year {
                break ;
            }
            if year == 65535 {
                proof {
                    assert(spec_days_before_year(65536) == spec_days_before_year(65535)
                        + spec_days_in_year(65535));
                }
                return None;
            }
            days_remaining -= days_in_year;
            year += 1;
        }
        proof {
            assert(spec_days_before_year(year as int + 1) == spec_days_before_year(year as int)
                + spec_days_in_year(year as int));
            lemma_days_before_year_monotone(year as int + 1, 65536);
        }

        let mut month: u8 = 1;
        let mut rem: i64 = days_remaining;
        while rem >= days_in_month(year, month) as i64
            invariant
                1 <= month <= 12,
                0 <= rem,
                spec_days_before_month(year as int, month as int) + rem == days_remaining,
                days_remaining < spec_days_in_year(year as int),
            decreases 12 - month,
        {
            proof {
                lemma_days_before_month_full_year(year as int);
            }
            rem -= days_in_month(year, month) as i64;
            month += 1;
        }
        let day: u8 = (rem + 1) as u8;

        let weekday_index: u8 = (days % 7) as u8;
        let day_of_week = match weekday_index {
            0 => DayOfWeek::Thursday,
            1 => DayOfWeek::Friday,
            2 => DayOfWeek::Saturday,
            3 => DayOfWeek::Sunday,
            4 => DayOfWeek::Monday,
            5 => DayOfWeek::Tuesday,
            _ => DayOfWeek::Wednesday,
        };

        Some(
            CurrentTime {
                year,
                month,
                day,
                hour,
                minute,
                second,
                day_of_week,
                fractions256: 0,
                adjust_reason: AdjustReason(0),
            },
        )
    }
}

/// Encode then decode gives the value back, for every clock value
/// whose day of week is one of the eight defined codes and whose
/// adjust reason stays within the four defined flags.
pub proof fn lemma_current_time_roundtrip(ct: CurrentTime)
    requires
        ct.adjust_reason.spec_well_formed(),
    ensures
        spec_decode_current_time(spec_current_time_bytes(ct)) == ct,
{
    let b = spec_current_time_bytes(ct);
    assert(b[0] + 256 * b[1] == ct.year as int);
    assert(DayOfWeek::spec_from_byte(ct.day_of_week.spec_byte()) == ct.day_of_week);
    let bits = ct.adjust_reason.0;
    assert(bits < 16 ==> bits & 0x0F == bits) by (bit_vector);
    assert(spec_decode_current_time(b) == ct);
}

/// Decoding is total and masks an unknown day of week to the unknown
/// code: any byte outside 1..=7 in the day-of-week position decodes to
/// unknown, on every ten-byte buffer.
pub proof fn lemma_decode_unknown_day_of_week(b: Seq<u8>)
    requires
        b.len() >= 10,
        !(1 <= b[7] <= 7),
    ensures
        spec_decode_current_time(b).day_of_week == DayOfWeek::Unknown,
{
}

} // verus!
