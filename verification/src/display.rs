//! The texts the dashboard draws: date, time and sensor readings.
use vstd::prelude::*;
use crate::dashboard::Missing;

verus! {

/// Day of the week.
#[derive(Clone, Copy, Debug, PartialEq, Eq, Structural)]
pub enum Weekday {
    Mon,
    Tue,
    Wed,
    Thu,
    Fri,
    Sat,
    Sun,
}

/// The character of decimal digit `d`.
pub open spec fn digit_char(d: nat) -> char {
    if d == 0 {
        '0'
    } else if d == 1 {
        '1'
    } else if d == 2 {
        '2'
    } else if d == 3 {
        '3'
    } else if d == 4 {
        '4'
    } else if d == 5 {
        '5'
    } else if d == 6 {
        '6'
    } else if d == 7 {
        '7'
    } else if d == 8 {
        '8'
    } else {
        '9'
    }
}

/// `n` written in decimal, without leading zeros.
pub open spec fn spec_decimal(n: nat) -> Seq<char>
    decreases n,
{
    if n < 10 {
        seq![digit_char(n)]
    } else {
        spec_decimal(n / 10).push(digit_char(n % 10))
    }
}

/// `n` written in decimal, padded with a zero to at least two digits.
pub open spec fn spec_two_digits(n: nat) -> Seq<char> {
    if n < 10 {
        seq!['0'] + spec_decimal(n)
    } else {
        spec_decimal(n)
    }
}

/// The text of one decimal digit.
fn digit_str(d: u32) -> (s: &'static str)
    requires
        d < 10,
    ensures
        s@ == seq![digit_char(d as nat)],
{
    proof {
        reveal_strlit("0");
        reveal_strlit("1");
        reveal_strlit("2");
        reveal_strlit("3");
        reveal_strlit("4");
        reveal_strlit("5");
        reveal_strlit("6");
        reveal_strlit("7");
        reveal_strlit("8");
        reveal_strlit("9");
    }
    if d == 0 {
        "0"
    } else if d == 1 {
        "1"
    } else if d == 2 {
        "2"
    } else if d == 3 {
        "3"
    } else if d == 4 {
        "4"
    } else if d == 5 {
        "5"
    } else if d == 6 {
        "6"
    } else if d == 7 {
        "7"
    } else if d == 8 {
        "8"
    } else {
        "9"
    }
}

/// Appends `n` in decimal to `out`.
fn append_decimal(out: &mut String, n: u32)
    ensures
        final(out)@ == old(out)@ + spec_decimal(n as nat),
    decreases n,
{
    if n >= 10 {
        append_decimal(out, n / 10);
    }
    let ghost before = out@;
    out.append(digit_str(n % 10));
    proof {
        if n >= 10 {
            assert(spec_decimal(n as nat) == spec_decimal((n / 10) as nat).push(digit_char((n % 10) as nat)));
            assert(out@ =~= old(out)@ + spec_decimal(n as nat));
        } else {
            assert(out@ =~= old(out)@ + spec_decimal(n as nat));
        }
    }
}

/// `n` in decimal, as `format!("{}", n)` writes it.
pub fn decimal(n: u32) -> (s: String)
    ensures
        s@ == spec_decimal(n as nat),
{
    let mut s = String::new();
    append_decimal(&mut s, n);
    assert(s@ =~= spec_decimal(n as nat));
    s
}

/// Appends `n` padded to two digits, as `format!("{:02}", n)` writes it.
fn append_two_digits(out: &mut String, n: u32)
    ensures
        final(out)@ == old(out)@ + spec_two_digits(n as nat),
{
    proof {
        reveal_strlit("0");
    }
    if n < 10 {
        out.append("0");
    }
    append_decimal(out, n);
    assert(out@ =~= old(out)@ + spec_two_digits(n as nat));
}

/// The English abbreviation of a weekday.
pub open spec fn spec_weekday_name(day: Weekday) -> Seq<char> {
    match day {
        Weekday::Mon => "Mon"@,
        Weekday::Tue => "Tue"@,
        Weekday::Wed => "Wed"@,
        Weekday::Thu => "Thu"@,
        Weekday::Fri => "Fri"@,
        Weekday::Sat => "Sat"@,
        Weekday::Sun => "Sun"@,
    }
}

/// The English abbreviation of a weekday.
pub fn weekday_name(day: Weekday) -> (s: &'static str)
    ensures
        s@ == spec_weekday_name(day),
{
    match day {
        Weekday::Mon => "Mon",
        Weekday::Tue => "Tue",
        Weekday::Wed => "Wed",
        Weekday::Thu => "Thu",
        Weekday::Fri => "Fri",
        Weekday::Sat => "Sat",
        Weekday::Sun => "Sun",
    }
}

/// The English name of month `month` (1 to 12), or `Unknown`.
pub open spec fn spec_month_name(month: u32) -> Seq<char> {
    if month == 1 {
        "January"@
    } else if month == 2 {
        "February"@
    } else if month == 3 {
        "March"@
    } else if month == 4 {
        "April"@
    } else if month == 5 {
        "May"@
    } else if month == 6 {
        "June"@
    } else if month == 7 {
        "July"@
    } else if month == 8 {
        "August"@
    } else if month == 9 {
        "September"@
    } else if month == 10 {
        "October"@
    } else if month == 11 {
        "November"@
    } else if month == 12 {
        "December"@
    } else {
        "Unknown"@
    }
}

/// The English name of month `month` (1 to 12), or `Unknown`.
pub fn month_name(month: u32) -> (s: &'static str)
    ensures
        s@ == spec_month_name(month),
{
    if month == 1 {
        "January"
    } else if month == 2 {
        "February"
    } else if month == 3 {
        "March"
    } else if month == 4 {
        "April"
    } else if month == 5 {
        "May"
    } else if month == 6 {
        "June"
    } else if month == 7 {
        "July"
    } else if month == 8 {
        "August"
    } else if month == 9 {
        "September"
    } else if month == 10 {
        "October"
    } else if month == 11 {
        "November"
    } else if month == 12 {
        "December"
    } else {
        "Unknown"
    }
}

/// The date line, `"{weekday}, {day:02}. {month}"`, e.g. `Mon, 05. May`.
pub fn date_text(weekday: Weekday, day: u32, month: u32) -> (s: String)
    ensures
        s@ == spec_weekday_name(weekday) + ", "@ + spec_two_digits(day as nat) + ". "@ + spec_month_name(month),
{
    let mut s = String::from_str(weekday_name(weekday));
    s.append(", ");
    append_two_digits(&mut s, day);
    s.append(". ");
    s.append(month_name(month));
    s
}

/// The clock line, `"{hour:02}:{minute:02}"`.
pub fn time_text(hour: u32, minute: u32) -> (s: String)
    ensures
        s@ == spec_two_digits(hour as nat) + ":"@ + spec_two_digits(minute as nat),
{
    let mut s = String::new();
    append_two_digits(&mut s, hour);
    s.append(":");
    append_two_digits(&mut s, minute);
    assert(s@ =~= spec_two_digits(hour as nat) + ":"@ + spec_two_digits(minute as nat));
    s
}

/// The text for a reading: the reading's own text when there is one, `--`
/// before the first measurement and `Err` after a failed one.
pub open spec fn spec_reading_text(reading: Result<Seq<char>, Missing>) -> Seq<char> {
    match reading {
        Ok(text) => text,
        Err(Missing::NotMeasured) => "--"@,
        Err(_) => "Err"@,
    }
}

/// The text for a reading that `text` renders when present.
pub fn reading_text(reading: &Result<String, Missing>) -> (s: String)
    ensures
        s@ == spec_reading_text(match reading {
            Ok(text) => Ok(text@),
            Err(m) => Err(*m),
        }),
{
    match reading {
        Ok(text) => text.clone(),
        Err(Missing::NotMeasured) => String::from_str("--"),
        Err(_) => String::from_str("Err"),
    }
}

/// The CO2 concentration text: the ppm value in decimal.
pub fn co2_text(reading: &Result<u16, Missing>) -> (s: String)
    ensures
        s@ == spec_reading_text(match reading {
            Ok(ppm) => Ok(spec_decimal(*ppm as nat)),
            Err(m) => Err(*m),
        }),
{
    match reading {
        Ok(ppm) => decimal(*ppm as u32),
        Err(Missing::NotMeasured) => String::from_str("--"),
        Err(_) => String::from_str("Err"),
    }
}

/// How healthy the air is, as the PM10 air quality index classifies it.
#[derive(Clone, Copy, Debug, PartialEq, Eq, Structural)]
pub enum AirQualityLevel {
    Good,
    Moderate,
    UnhealthySensitive,
    Unhealthy,
    VeryUnhealthy,
    Hazardous,
}

/// The PM10 air quality of a particulate reading.
#[derive(Clone, Copy, Debug, PartialEq, Eq, Structural)]
pub enum AirQuality {
    /// The index (0 to 500) and its level.
    Index { aqi: u32, level: AirQualityLevel },
    /// The concentration is outside the range the index covers.
    OutOfRange,
}

/// The caption under the index: both unhealthy levels read `Unhealthy`.
pub open spec fn spec_level_text(level: AirQualityLevel) -> Seq<char> {
    match level {
        AirQualityLevel::Good => "Good"@,
        AirQualityLevel::Moderate => "Moderate"@,
        AirQualityLevel::UnhealthySensitive => "Unhealthy"@,
        AirQualityLevel::Unhealthy => "Unhealthy"@,
        AirQualityLevel::VeryUnhealthy => "Very Unhealthy"@,
        AirQualityLevel::Hazardous => "Hazardous"@,
    }
}

/// The value and caption drawn for the air quality.
pub open spec fn spec_air_quality_text(reading: Result<AirQuality, Missing>) -> (Seq<char>, Seq<char>) {
    match reading {
        Ok(AirQuality::Index { aqi, level }) => (spec_decimal(aqi as nat), spec_level_text(level)),
        Ok(AirQuality::OutOfRange) => ("N/A"@, "Out of Range"@),
        Err(Missing::NotMeasured) => ("--"@, "Pending..."@),
        Err(_) => ("N/A"@, "Error"@),
    }
}

/// The caption under the index.
pub fn level_text(level: AirQualityLevel) -> (s: &'static str)
    ensures
        s@ == spec_level_text(level),
{
    match level {
        AirQualityLevel::Good => "Good",
        AirQualityLevel::Moderate => "Moderate",
        AirQualityLevel::UnhealthySensitive | AirQualityLevel::Unhealthy => "Unhealthy",
        AirQualityLevel::VeryUnhealthy => "Very Unhealthy",
        AirQualityLevel::Hazardous => "Hazardous",
    }
}

/// The value and caption drawn for the air quality: the index and its level,
/// `N/A`/`Out of Range` beyond the index, `--`/`Pending...` before the first
/// reading and `N/A`/`Error` after a failed one.
pub fn air_quality_text(reading: &Result<AirQuality, Missing>) -> (t: (String, String))
    ensures
        (t.0@, t.1@) == spec_air_quality_text(*reading),
{
    match reading {
        Ok(AirQuality::Index { aqi, level }) => (decimal(*aqi), String::from_str(level_text(*level))),
        Ok(AirQuality::OutOfRange) => (String::from_str("N/A"), String::from_str("Out of Range")),
        Err(Missing::NotMeasured) => (String::from_str("--"), String::from_str("Pending...")),
        Err(_) => (String::from_str("N/A"), String::from_str("Error")),
    }
}

/// The English month names: month `m` for `m` from 1 to 12 is the `m`-th
/// month of the year, and any other number reads `Unknown`.
pub proof fn lemma_month_names(month: u32)
    ensures
        spec_month_name(1) == "January"@,
        spec_month_name(2) == "February"@,
        spec_month_name(3) == "March"@,
        spec_month_name(4) == "April"@,
        spec_month_name(5) == "May"@,
        spec_month_name(6) == "June"@,
        spec_month_name(7) == "July"@,
        spec_month_name(8) == "August"@,
        spec_month_name(9) == "September"@,
        spec_month_name(10) == "October"@,
        spec_month_name(11) == "November"@,
        spec_month_name(12) == "December"@,
        month == 0 || month > 12 ==> spec_month_name(month) == "Unknown"@,
{
}

/// The weekday abbreviations, Monday to Sunday.
pub proof fn lemma_weekday_names()
    ensures
        spec_weekday_name(Weekday::Mon) == "Mon"@,
        spec_weekday_name(Weekday::Tue) == "Tue"@,
        spec_weekday_name(Weekday::Wed) == "Wed"@,
        spec_weekday_name(Weekday::Thu) == "Thu"@,
        spec_weekday_name(Weekday::Fri) == "Fri"@,
        spec_weekday_name(Weekday::Sat) == "Sat"@,
        spec_weekday_name(Weekday::Sun) == "Sun"@,
{
}

/// The number that a string of decimal digits denotes.
pub open spec fn digits_value(s: Seq<char>) -> int
    decreases s.len(),
{
    if s.len() == 0 {
        0
    } else {
        digits_value(s.drop_last()) * 10 + (s.last() as int - '0' as int)
    }
}

/// Whether every character is a decimal digit.
pub open spec fn all_digits(s: Seq<char>) -> bool {
    forall|i: int| 0 <= i < s.len() ==> '0' <= #[trigger] s[i] <= '9'
}

/// The digit character of `d` denotes `d`.
proof fn lemma_digit_char_value(d: nat)
    requires
        d < 10,
    ensures
        digit_char(d) as int - '0' as int == d,
        '0' <= digit_char(d) <= '9',
{
}

/// `decimal` writes `n` in decimal: only digits, denoting `n`, with no
/// leading zero (but for `0` itself).
pub proof fn lemma_decimal_denotes(n: nat)
    ensures
        all_digits(spec_decimal(n)),
        digits_value(spec_decimal(n)) == n,
        spec_decimal(n).len() >= 1,
        n > 0 ==> spec_decimal(n)[0] != '0',
        n == 0 ==> spec_decimal(n) == seq!['0'],
    decreases n,
{
    lemma_digit_char_value(n % 10);
    if n >= 10 {
        lemma_decimal_denotes(n / 10);
        let s = spec_decimal(n);
        assert(s.drop_last() =~= spec_decimal(n / 10));
        assert(s[0] == spec_decimal(n / 10)[0]);
        assert(s.last() == digit_char(n % 10));
        assert(digits_value(s) == digits_value(s.drop_last()) * 10 + (s.last() as int - '0' as int));
        assert((n / 10) * 10 + n % 10 == n);
    } else {
        reveal_with_fuel(digits_value, 2);
        assert(spec_decimal(n).drop_last() =~= Seq::<char>::empty());
    }
}

/// The two-digit form writes `n` with at least two digits: a leading zero
/// before a single digit, otherwise `n` in decimal.
pub proof fn lemma_two_digits_denote(n: nat)
    ensures
        all_digits(spec_two_digits(n)),
        digits_value(spec_two_digits(n)) == n,
        spec_two_digits(n).len() >= 2,
        n < 10 ==> spec_two_digits(n).len() == 2 && spec_two_digits(n)[0] == '0',
        n >= 10 ==> spec_two_digits(n) == spec_decimal(n),
{
    lemma_decimal_denotes(n);
    if n < 10 {
        let s = spec_two_digits(n);
        assert(s.drop_last() =~= seq!['0']);
        assert(digits_value(seq!['0']) == 0) by {
            reveal_with_fuel(digits_value, 2);
            assert(seq!['0'].drop_last() =~= Seq::<char>::empty());
        }
    } else {
        lemma_decimal_denotes(n / 10);
    }
}

/// Reading texts: a present reading shows its own text, a reading not yet
/// taken shows `--`, a failed one `Err`; a CO2 reading shows its ppm in decimal.
pub proof fn lemma_reading_texts(text: Seq<char>, fault: Missing, ppm: u16)
    ensures
        spec_reading_text(Ok(text)) == text,
        spec_reading_text(Err(Missing::NotMeasured)) == "--"@,
        !(fault is NotMeasured) ==> spec_reading_text(Err(fault)) == "Err"@,
{
}

/// Air-quality texts: the index in decimal above its level's caption, both
/// unhealthy levels captioned `Unhealthy`; `N/A` over `Out of Range` beyond the
/// index, `--` over `Pending...` before the first reading, `N/A` over `Error`
/// after a failed one.
pub proof fn lemma_air_quality_texts(aqi: u32, fault: Missing)
    ensures
        spec_air_quality_text(Ok(AirQuality::Index { aqi, level: AirQualityLevel::Good })) == (spec_decimal(aqi as nat), "Good"@),
        spec_air_quality_text(Ok(AirQuality::Index { aqi, level: AirQualityLevel::Moderate })) == (spec_decimal(aqi as nat), "Moderate"@),
        spec_air_quality_text(Ok(AirQuality::Index { aqi, level: AirQualityLevel::UnhealthySensitive })) == (spec_decimal(aqi as nat), "Unhealthy"@),
        spec_air_quality_text(Ok(AirQuality::Index { aqi, level: AirQualityLevel::Unhealthy })) == (spec_decimal(aqi as nat), "Unhealthy"@),
        spec_air_quality_text(Ok(AirQuality::Index { aqi, level: AirQualityLevel::VeryUnhealthy })) == (spec_decimal(aqi as nat), "Very Unhealthy"@),
        spec_air_quality_text(Ok(AirQuality::Index { aqi, level: AirQualityLevel::Hazardous })) == (spec_decimal(aqi as nat), "Hazardous"@),
        spec_air_quality_text(Ok(AirQuality::OutOfRange)) == ("N/A"@, "Out of Range"@),
        spec_air_quality_text(Err(Missing::NotMeasured)) == ("--"@, "Pending..."@),
        !(fault is NotMeasured) ==> spec_air_quality_text(Err(fault)) == ("N/A"@, "Error"@),
{
}

} // verus!
