//! Google Calendar events: the event payload that Pointiv's backend proxy
//! receives, and the calendar arithmetic behind its defaults (an all-day
//! event ends on the next day; a timed event without an end lasts one hour).

use vstd::prelude::*;

verus! {

use crate::json::{
    empty_object, json_object_value, json_serialized, json_string_value, object_insert,
    object_value, result_view, string_value, value_to_json,
};
use crate::text::{
    chars_of, lemma_digits_lack, lemma_pad_digits, lemma_parse_pad, lemma_split_three, lemma_split_two, pad_spec,
    pad_string, parse_u32, parse_u32_spec, split_chars, split_spec, views,
};

// ---------------------------------------------------------------------
// Calendar arithmetic
// ---------------------------------------------------------------------

/// Gregorian leap years.
pub open spec fn is_leap(y: int) -> bool {
    y % 4 == 0 && (y % 100 != 0 || y % 400 == 0)
}

/// The number of days of month `m` of year `y`; `None` for a month
/// outside 1 to 12.
pub open spec fn days_in_month(y: int, m: int) -> Option<int> {
    if m == 1 || m == 3 || m == 5 || m == 7 || m == 8 || m == 10 || m == 12 {
        Some(31)
    } else if m == 4 || m == 6 || m == 9 || m == 11 {
        Some(30)
    } else if m == 2 {
        if is_leap(y) {
            Some(29)
        } else {
            Some(28)
        }
    } else {
        None
    }
}

/// The date that follows day `d` of a month of `dim` days: the next day of
/// the month, else the first of the next month, else the first of January
/// of the next year.
pub open spec fn successor(y: int, m: int, d: int, dim: int) -> (int, int, int) {
    if d < dim {
        (y, m, d + 1)
    } else if m < 12 {
        (y, m + 1, 1)
    } else {
        (y + 1, 1, 1)
    }
}

/// A real calendar date.
pub open spec fn date_valid(y: int, m: int, d: int) -> bool {
    &&& y >= 0
    &&& days_in_month(y, m) matches Some(dim)
    &&& 1 <= d <= dim
}

/// Date `a` comes strictly before date `b`.
pub open spec fn date_before(a: (int, int, int), b: (int, int, int)) -> bool {
    ||| a.0 < b.0
    ||| a.0 == b.0 && a.1 < b.1
    ||| a.0 == b.0 && a.1 == b.1 && a.2 < b.2
}

/// `YYYY-MM-DD`: each field zero-padded, the year to four digits.
pub open spec fn date_text(y: int, m: int, d: int) -> Seq<char> {
    pad_spec(y as nat, 4) + seq!['-'] + pad_spec(m as nat, 2) + seq!['-'] + pad_spec(d as nat, 2)
}

/// The year, month and day that a date text holds: three pieces between
/// `-` signs, each read as `str::parse::<u32>` reads it.
pub open spec fn date_fields(date: Seq<char>) -> Option<(u32, u32, u32)> {
    let parts = split_spec(date, '-');
    if parts.len() != 3 {
        None
    } else {
        match (parse_u32_spec(parts[0]), parse_u32_spec(parts[1]), parse_u32_spec(parts[2])) {
            (Some(y), Some(m), Some(d)) => Some((y, m, d)),
            _ => None,
        }
    }
}

/// The text of the day after `date`: `None` when `date` is not three
/// numbers or names no month from 1 to 12. A day past the end of its month
/// moves to the next month, as the last day does.
pub open spec fn next_day_spec(date: Seq<char>) -> Option<Seq<char>> {
    match date_fields(date) {
        Some((y, m, d)) => match days_in_month(y as int, m as int) {
            Some(dim) => {
                let n = successor(y as int, m as int, d as int, dim);
                Some(date_text(n.0, n.1, n.2))
            },
            None => None,
        },
        None => None,
    }
}

/// The inputs on which the year would pass `u32::MAX`.
pub open spec fn next_day_overflows(date: Seq<char>) -> bool {
    date_fields(date) matches Some((y, m, d)) && y == u32::MAX && m == 12 && d >= 31
}

/// Law: the successor of a valid date is a valid date, comes after it, and
/// no valid date lies strictly between the two.
pub proof fn lemma_successor_is_next(y: int, m: int, d: int)
    requires
        date_valid(y, m, d),
    ensures
        ({
            let n = successor(y, m, d, days_in_month(y, m)->0);
            &&& date_valid(n.0, n.1, n.2)
            &&& date_before((y, m, d), n)
            &&& forall|a: int, b: int, c: int|
                date_valid(a, b, c) && date_before((y, m, d), (a, b, c)) ==> !date_before(
                    (a, b, c),
                    n,
                )
        }),
{
    let dim = days_in_month(y, m)->0;
    let n = successor(y, m, d, dim);
    assert forall|a: int, b: int, c: int|
        date_valid(a, b, c) && date_before((y, m, d), (a, b, c)) implies !date_before(
        (a, b, c),
        n,
    ) by {
        if d < dim {
        } else if m < 12 {
        } else {
        }
    }
}

/// Law: `next_day` reads back the dates it writes. On the text of a valid
/// date whose year does not overflow, it gives the text of the next date;
/// that text is again a valid date, so the result can be fed to it again.
pub proof fn lemma_next_day_of_date_text(y: u32, m: u32, d: u32)
    requires
        date_valid(y as int, m as int, d as int),
        !(y == u32::MAX && m == 12 && d == 31),
    ensures
        ({
            let n = successor(y as int, m as int, d as int, days_in_month(y as int, m as int)->0);
            &&& next_day_spec(date_text(y as int, m as int, d as int)) == Some(
                date_text(n.0, n.1, n.2),
            )
            &&& !next_day_overflows(date_text(y as int, m as int, d as int))
            &&& date_valid(n.0, n.1, n.2)
            &&& n.0 <= u32::MAX
        }),
{
    lemma_date_fields(y, m, d);
    lemma_successor_is_next(y as int, m as int, d as int);
}

/// Law: the months have their Gregorian lengths. January, March, May, July,
/// August, October and December have 31 days; April, June, September and
/// November 30; February 29 in a year divisible by 4 but not by 100 unless
/// by 400, else 28; there is no month outside 1 to 12; and a year has 366
/// days when it is a leap year, else 365.
pub proof fn lemma_gregorian_month_lengths(y: int)
    ensures
        days_in_month(y, 1) == Some(31int),
        days_in_month(y, 2) == Some(
            if y % 4 == 0 && (y % 100 != 0 || y % 400 == 0) { 29int } else { 28int },
        ),
        days_in_month(y, 3) == Some(31int),
        days_in_month(y, 4) == Some(30int),
        days_in_month(y, 5) == Some(31int),
        days_in_month(y, 6) == Some(30int),
        days_in_month(y, 7) == Some(31int),
        days_in_month(y, 8) == Some(31int),
        days_in_month(y, 9) == Some(30int),
        days_in_month(y, 10) == Some(31int),
        days_in_month(y, 11) == Some(30int),
        days_in_month(y, 12) == Some(31int),
        forall|m: int| !(1 <= m <= 12) ==> days_in_month(y, m) is None,
        days_in_month(y, 1)->0 + days_in_month(y, 2)->0 + days_in_month(y, 3)->0 + days_in_month(
            y,
            4,
        )->0 + days_in_month(y, 5)->0 + days_in_month(y, 6)->0 + days_in_month(y, 7)->0
            + days_in_month(y, 8)->0 + days_in_month(y, 9)->0 + days_in_month(y, 10)->0
            + days_in_month(y, 11)->0 + days_in_month(y, 12)->0 == if y % 4 == 0 && (y % 100
            != 0 || y % 400 == 0) {
            366int
        } else {
            365int
        },
{
}

/// Law: the day after the last day of a month is the first of the next
/// month, and the day after 31 December is 1 January of the next year; the
/// day before the last day of a month moves on within that month.
pub proof fn lemma_month_end_rolls_over(y: u32)
    requires
        y < u32::MAX,
    ensures
        next_day_spec(date_text(y as int, 1, 31)) == Some(date_text(y as int, 2, 1)),
        is_leap(y as int) ==> next_day_spec(date_text(y as int, 2, 28)) == Some(
            date_text(y as int, 2, 29),
        ),
        is_leap(y as int) ==> next_day_spec(date_text(y as int, 2, 29)) == Some(
            date_text(y as int, 3, 1),
        ),
        !is_leap(y as int) ==> next_day_spec(date_text(y as int, 2, 28)) == Some(
            date_text(y as int, 3, 1),
        ),
        next_day_spec(date_text(y as int, 3, 31)) == Some(date_text(y as int, 4, 1)),
        next_day_spec(date_text(y as int, 4, 29)) == Some(date_text(y as int, 4, 30)),
        next_day_spec(date_text(y as int, 4, 30)) == Some(date_text(y as int, 5, 1)),
        next_day_spec(date_text(y as int, 5, 31)) == Some(date_text(y as int, 6, 1)),
        next_day_spec(date_text(y as int, 6, 30)) == Some(date_text(y as int, 7, 1)),
        next_day_spec(date_text(y as int, 7, 31)) == Some(date_text(y as int, 8, 1)),
        next_day_spec(date_text(y as int, 8, 31)) == Some(date_text(y as int, 9, 1)),
        next_day_spec(date_text(y as int, 9, 30)) == Some(date_text(y as int, 10, 1)),
        next_day_spec(date_text(y as int, 10, 31)) == Some(date_text(y as int, 11, 1)),
        next_day_spec(date_text(y as int, 11, 30)) == Some(date_text(y as int, 12, 1)),
        next_day_spec(date_text(y as int, 12, 31)) == Some(date_text(y as int + 1, 1, 1)),
{
    lemma_next_day_of_date_text(y, 1, 31);
    lemma_next_day_of_date_text(y, 2, 28);
    if is_leap(y as int) {
        lemma_next_day_of_date_text(y, 2, 29);
    }
    lemma_next_day_of_date_text(y, 3, 31);
    lemma_next_day_of_date_text(y, 4, 29);
    lemma_next_day_of_date_text(y, 4, 30);
    lemma_next_day_of_date_text(y, 5, 31);
    lemma_next_day_of_date_text(y, 6, 30);
    lemma_next_day_of_date_text(y, 7, 31);
    lemma_next_day_of_date_text(y, 8, 31);
    lemma_next_day_of_date_text(y, 9, 30);
    lemma_next_day_of_date_text(y, 10, 31);
    lemma_next_day_of_date_text(y, 11, 30);
    lemma_next_day_of_date_text(y, 12, 31);
}

/// The fields of a date text are the numbers it was written from.
pub proof fn lemma_date_fields(y: u32, m: u32, d: u32)
    ensures
        date_fields(date_text(y as int, m as int, d as int)) == Some((y, m, d)),
{
    let a = pad_spec(y as nat, 4);
    let b = pad_spec(m as nat, 2);
    let c = pad_spec(d as nat, 2);
    lemma_pad_digits(y as nat, 4);
    lemma_pad_digits(m as nat, 2);
    lemma_pad_digits(d as nat, 2);
    lemma_digits_lack(a, '-');
    lemma_digits_lack(b, '-');
    lemma_digits_lack(c, '-');
    lemma_split_three(a, b, c, '-');
    lemma_parse_pad(y, 4);
    lemma_parse_pad(m, 2);
    lemma_parse_pad(d, 2);
}

/// The year, month and day that `date` holds (see `date_fields`).
pub fn date_fields_of(date: &str) -> (r: Option<(u32, u32, u32)>)
    ensures
        r == date_fields(date@),
{
    let chars = chars_of(date);
    let parts = split_chars(&chars, '-');
    if parts.len() != 3 {
        return None;
    }
    assert(views(parts@)[0] == parts@[0]@);
    assert(views(parts@)[1] == parts@[1]@);
    assert(views(parts@)[2] == parts@[2]@);
    let y = match parse_u32(&parts[0]) {
        Some(v) => v,
        None => return None,
    };
    let m = match parse_u32(&parts[1]) {
        Some(v) => v,
        None => return None,
    };
    let d = match parse_u32(&parts[2]) {
        Some(v) => v,
        None => return None,
    };
    Some((y, m, d))
}

/// The text of the day after `date` (`YYYY-MM-DD`), or `None` when `date`
/// is not a year, a month from 1 to 12 and a day.
pub fn next_day(date: &str) -> (r: Option<String>)
    requires
        !next_day_overflows(date@),
    ensures
        match r {
            Some(s) => next_day_spec(date@) == Some(s@),
            None => next_day_spec(date@) is None,
        },
{
    let (y, m, d) = match date_fields_of(date) {
        Some(f) => f,
        None => return None,
    };
    let dim: u32 = if m == 1 || m == 3 || m == 5 || m == 7 || m == 8 || m == 10 || m == 12 {
        31
    } else if m == 4 || m == 6 || m == 9 || m == 11 {
        30
    } else if m == 2 {
        if y % 4 == 0 && (y % 100 != 0 || y % 400 == 0) {
            29
        } else {
            28
        }
    } else {
        return None;
    };
    let (ny, nm, nd) = if d < dim {
        (y, m, d + 1)
    } else if m < 12 {
        (y, m + 1, 1)
    } else {
        (y + 1, 1, 1)
    };
    proof {
        reveal_strlit("-");
    }
    let mut s = pad_string(ny, 4);
    s.append("-");
    s.append(pad_string(nm, 2).as_str());
    s.append("-");
    s.append(pad_string(nd, 2).as_str());
    Some(s)
}

// ---------------------------------------------------------------------
// Clock arithmetic
// ---------------------------------------------------------------------

/// A number read from text, `0` where the text is not one.
pub open spec fn number_or_zero(s: Seq<char>) -> u32 {
    match parse_u32_spec(s) {
        Some(v) => v,
        None => 0,
    }
}

/// `HH:MM`: hour and minute, each zero-padded to two digits.
pub open spec fn time_text(h: int, m: int) -> Seq<char> {
    pad_spec(h as nat, 2) + seq![':'] + pad_spec(m as nat, 2)
}

/// The time one hour after `hm`. A text that is not two pieces around one
/// `:` comes back unchanged; a piece that is not a number counts as `0`;
/// the hour wraps past 23 to 0.
pub open spec fn add_one_hour_spec(hm: Seq<char>) -> Seq<char> {
    let parts = split_spec(hm, ':');
    if parts.len() != 2 {
        hm
    } else {
        time_text((number_or_zero(parts[0]) + 1) % 24, number_or_zero(parts[1]) as int)
    }
}

/// The inputs on which adding one to the hour would pass `u32::MAX`.
pub open spec fn add_one_hour_overflows(hm: Seq<char>) -> bool {
    let parts = split_spec(hm, ':');
    parts.len() == 2 && parse_u32_spec(parts[0]) == Some(u32::MAX)
}

/// The time `k` hours after `hm`.
pub open spec fn hours_later(hm: Seq<char>, k: nat) -> Seq<char>
    decreases k,
{
    if k == 0 {
        hm
    } else {
        add_one_hour_spec(hours_later(hm, (k - 1) as nat))
    }
}

/// The hour and minute of a time text are the numbers it was written from.
pub proof fn lemma_time_fields(h: u32, m: u32)
    ensures
        split_spec(time_text(h as int, m as int), ':') == seq![
            pad_spec(h as nat, 2),
            pad_spec(m as nat, 2),
        ],
        number_or_zero(pad_spec(h as nat, 2)) == h,
        number_or_zero(pad_spec(m as nat, 2)) == m,
{
    lemma_pad_digits(h as nat, 2);
    lemma_pad_digits(m as nat, 2);
    lemma_digits_lack(pad_spec(h as nat, 2), ':');
    lemma_digits_lack(pad_spec(m as nat, 2), ':');
    lemma_split_two(pad_spec(h as nat, 2), pad_spec(m as nat, 2), ':');
    lemma_parse_pad(h, 2);
    lemma_parse_pad(m, 2);
}

/// Law: on a time `HH:MM` with an hour below 24, one hour later is the next
/// hour on the 24-hour clock, with the same minute.
pub proof fn lemma_add_one_hour_of_time_text(h: u32, m: u32)
    requires
        h < 24,
    ensures
        add_one_hour_spec(time_text(h as int, m as int)) == time_text((h + 1) % 24, m as int),
        !add_one_hour_overflows(time_text(h as int, m as int)),
{
    lemma_time_fields(h, m);
}

/// Law: `k` hours after `HH:MM` is the hour `k` later on the 24-hour clock;
/// in particular 24 hours later is the same time.
pub proof fn lemma_hours_later(h: u32, m: u32, k: nat)
    requires
        h < 24,
    ensures
        hours_later(time_text(h as int, m as int), k) == time_text((h + k) % 24, m as int),
    decreases k,
{
    if k > 0 {
        lemma_hours_later(h, m, (k - 1) as nat);
        let h1 = ((h + k - 1) % 24) as u32;
        lemma_add_one_hour_of_time_text(h1, m);
        let x: int = h + k - 1;
        assert((x % 24 + 1) % 24 == (x + 1) % 24) by (nonlinear_arith);
        assert(hours_later(time_text(h as int, m as int), k) == add_one_hour_spec(
            time_text(h1 as int, m as int),
        ));
    }
}

/// The time one hour after `hm` (`HH:MM`, 24-hour clock).
pub fn add_one_hour(hm: &str) -> (r: String)
    requires
        !add_one_hour_overflows(hm@),
    ensures
        r@ == add_one_hour_spec(hm@),
{
    let chars = chars_of(hm);
    let parts = split_chars(&chars, ':');
    if parts.len() != 2 {
        return hm.to_string();
    }
    assert(views(parts@)[0] == parts@[0]@);
    assert(views(parts@)[1] == parts@[1]@);
    let h: u32 = match parse_u32(&parts[0]) {
        Some(v) => v,
        None => 0,
    };
    let m: u32 = match parse_u32(&parts[1]) {
        Some(v) => v,
        None => 0,
    };
    proof {
        reveal_strlit(":");
    }
    let mut s = pad_string((h + 1) % 24, 2);
    s.append(":");
    s.append(pad_string(m, 2).as_str());
    s
}

// ---------------------------------------------------------------------
// Event payload
// ---------------------------------------------------------------------

/// The character sequence of an optional string slice.
pub open spec fn opt_str_view(o: Option<&str>) -> Option<Seq<char>> {
    match o {
        Some(s) => Some(s@),
        None => None,
    }
}

/// `{"date": date}`: the start or end of an all-day event.
pub open spec fn date_value(date: Seq<char>) -> serde_json::Value {
    json_object_value(
        Map::<Seq<char>, serde_json::Value>::empty().insert("date"@, json_string_value(date)),
    )
}

/// `{"dateTime": "<date>T<hm>:00", "timeZone": "UTC"}`: the start or end
/// of a timed event.
pub open spec fn date_time_value(date: Seq<char>, hm: Seq<char>) -> serde_json::Value {
    json_object_value(
        Map::<Seq<char>, serde_json::Value>::empty().insert(
            "dateTime"@,
            json_string_value(date + "T"@ + hm + ":00"@),
        ).insert("timeZone"@, json_string_value("UTC"@)),
    )
}

/// No end time is given (or an empty one): the event lasts one hour.
pub open spec fn uses_default_end(end: Option<Seq<char>>) -> bool {
    match end {
        Some(e) => e.len() == 0,
        None => true,
    }
}

/// One hour after `hm` falls on the next day: the hour read from `hm` is
/// 23, so the end hour passes midnight. (An hour of 24 or more is no hour
/// of the day; its end keeps the date, as the end time just wraps.)
pub open spec fn add_one_hour_wraps(hm: Seq<char>) -> bool {
    let parts = split_spec(hm, ':');
    parts.len() == 2 && number_or_zero(parts[0]) == 23
}

/// The day after `date`, or `date` itself when it is no date.
pub open spec fn next_day_or_same(date: Seq<char>) -> Seq<char> {
    match next_day_spec(date) {
        Some(n) => n,
        None => date,
    }
}

/// The end time of a timed event: the given one, or one hour after the
/// start.
pub open spec fn end_time_spec(start: Seq<char>, end: Option<Seq<char>>) -> Seq<char> {
    if uses_default_end(end) {
        add_one_hour_spec(start)
    } else {
        end->0
    }
}

/// The end date of a timed event on `date`: the next day when the default
/// end (start plus one hour) passes midnight, else `date`.
pub open spec fn end_date_spec(date: Seq<char>, start: Seq<char>, end: Option<Seq<char>>) -> Seq<
    char,
> {
    if uses_default_end(end) && add_one_hour_wraps(start) {
        next_day_or_same(date)
    } else {
        date
    }
}

/// The `start` and `end` objects of an event: all-day, ending on the next
/// day (or on `date` itself when it is no date), if there is no start
/// time; else timed, in UTC.
pub open spec fn event_bounds(
    date: Seq<char>,
    start: Option<Seq<char>>,
    end: Option<Seq<char>>,
) -> (serde_json::Value, serde_json::Value) {
    match start {
        None => (date_value(date), date_value(next_day_or_same(date))),
        Some(s) => (
            date_time_value(date, s),
            date_time_value(end_date_spec(date, s, end), end_time_spec(s, end)),
        ),
    }
}

/// The event object that `schedule` creates: `summary`, `description`
/// (empty when none is given), `start` and `end`.
pub open spec fn schedule_event(
    title: Seq<char>,
    date: Seq<char>,
    start: Option<Seq<char>>,
    end: Option<Seq<char>>,
    description: Option<Seq<char>>,
) -> serde_json::Value {
    let bounds = event_bounds(date, start, end);
    let desc = match description {
        Some(d) => d,
        None => Seq::<char>::empty(),
    };
    json_object_value(
        Map::<Seq<char>, serde_json::Value>::empty().insert(
            "summary"@,
            json_string_value(title),
        ).insert("description"@, json_string_value(desc)).insert("start"@, bounds.0).insert(
            "end"@,
            bounds.1,
        ),
    )
}

/// The request text that `create_event_raw` sends for an event object:
/// the outcome of serialising it, which is always its JSON text.
pub open spec fn raw_event_request(payload: serde_json::Value) -> Result<Seq<char>, Seq<char>> {
    json_serialized(payload)
}

/// The request text that `schedule` sends.
pub open spec fn schedule_request(
    title: Seq<char>,
    date: Seq<char>,
    start: Option<Seq<char>>,
    end: Option<Seq<char>>,
    description: Option<Seq<char>>,
) -> Result<Seq<char>, Seq<char>> {
    json_serialized(schedule_event(title, date, start, end, description))
}

/// The inputs on which the default end date or end time is computed
/// without overflow.
pub open spec fn schedule_defined(
    date: Seq<char>,
    start: Option<Seq<char>>,
    end: Option<Seq<char>>,
) -> bool {
    match start {
        None => !next_day_overflows(date),
        Some(s) => uses_default_end(end) ==> !add_one_hour_overflows(s) && (add_one_hour_wraps(s)
            ==> !next_day_overflows(date)),
    }
}

/// Law: `schedule` sends what `create_event_raw` sends for the event object
/// that `schedule` builds; both then read the reply the same way.
pub proof fn lemma_schedule_is_raw_event(
    title: Seq<char>,
    date: Seq<char>,
    start: Option<Seq<char>>,
    end: Option<Seq<char>>,
    description: Option<Seq<char>>,
)
    ensures
        schedule_request(title, date, start, end, description) == raw_event_request(
            schedule_event(title, date, start, end, description),
        ),
{
}

/// Law: the event object holds exactly four members: the whole title under
/// `summary`, the description given (or the empty text) under
/// `description`, and the bounds under `start` and `end`. An all-day start
/// is the one member `date` holding the date; a timed start is `dateTime`,
/// holding the date, `T`, the start time and `:00`, with `timeZone` `UTC`.
pub proof fn lemma_event_members(
    title: Seq<char>,
    date: Seq<char>,
    start: Option<Seq<char>>,
    end: Option<Seq<char>>,
    description: Option<Seq<char>>,
)
    ensures
        schedule_event(title, date, start, end, description) == json_object_value(
            map![
                "description"@ => json_string_value(
                    if description is Some { description->0 } else { Seq::<char>::empty() },
                ),
                "end"@ => event_bounds(date, start, end).1,
                "start"@ => event_bounds(date, start, end).0,
                "summary"@ => json_string_value(title),
            ],
        ),
        start is None ==> event_bounds(date, start, end).0 == json_object_value(
            map!["date"@ => json_string_value(date)],
        ),
        start is Some ==> event_bounds(date, start, end).0 == json_object_value(
            map![
                "dateTime"@ => json_string_value(date + seq!['T'] + start->0 + seq![':', '0', '0']),
                "timeZone"@ => json_string_value(seq!['U', 'T', 'C']),
            ],
        ),
{
    reveal_strlit("summary");
    reveal_strlit("description");
    reveal_strlit("start");
    reveal_strlit("end");
    reveal_strlit("date");
    reveal_strlit("dateTime");
    reveal_strlit("timeZone");
    reveal_strlit("T");
    reveal_strlit(":00");
    reveal_strlit("UTC");
    assert("summary"@.len() == 7 && "description"@.len() == 11 && "start"@.len() == 5
        && "end"@.len() == 3);
    assert("dateTime"@.len() == 8 && "timeZone"@.len() == 8 && "dateTime"@[0] != "timeZone"@[0]);
    assert("T"@ =~= seq!['T']);
    assert(":00"@ =~= seq![':', '0', '0']);
    assert("UTC"@ =~= seq!['U', 'T', 'C']);
    let desc = if description is Some { description->0 } else { Seq::<char>::empty() };
    let b = event_bounds(date, start, end);
    assert(Map::<Seq<char>, serde_json::Value>::empty().insert("summary"@, json_string_value(title)).insert(
        "description"@,
        json_string_value(desc),
    ).insert("start"@, b.0).insert("end"@, b.1) =~= map![
        "description"@ => json_string_value(desc),
        "end"@ => b.1,
        "start"@ => b.0,
        "summary"@ => json_string_value(title),
    ]);
    if start is None {
        assert(Map::<Seq<char>, serde_json::Value>::empty().insert("date"@, json_string_value(date))
            =~= map!["date"@ => json_string_value(date)]);
    } else {
        let s = start->0;
        assert(Map::<Seq<char>, serde_json::Value>::empty().insert(
            "dateTime"@,
            json_string_value(date + "T"@ + s + ":00"@),
        ).insert("timeZone"@, json_string_value("UTC"@)) =~= map![
            "dateTime"@ => json_string_value(date + seq!['T'] + s + seq![':', '0', '0']),
            "timeZone"@ => json_string_value(seq!['U', 'T', 'C']),
        ]);
    }
}

/// Law: an all-day event on a valid date (whose year does not overflow)
/// ends on the next date.
pub proof fn lemma_all_day_ends_next_day(y: u32, m: u32, d: u32, end: Option<Seq<char>>)
    requires
        date_valid(y as int, m as int, d as int),
        !(y == u32::MAX && m == 12 && d == 31),
    ensures
        ({
            let n = successor(y as int, m as int, d as int, days_in_month(y as int, m as int)->0);
            let date = date_text(y as int, m as int, d as int);
            event_bounds(date, None, end) == (date_value(date), date_value(date_text(n.0, n.1, n.2)))
        }),
{
    lemma_next_day_of_date_text(y, m, d);
}

/// Law: a timed event on a valid date, starting at `HH:MM` (hour below 24),
/// with no end, ends one hour later: at the next hour the same day, or, from
/// 23:00 on, past midnight on the next date.
pub proof fn lemma_timed_default_one_hour(y: u32, mo: u32, d: u32, h: u32, m: u32)
    requires
        date_valid(y as int, mo as int, d as int),
        !(y == u32::MAX && mo == 12 && d == 31),
        h < 24,
    ensures
        ({
            let n = successor(y as int, mo as int, d as int, days_in_month(y as int, mo as int)->0);
            let date = date_text(y as int, mo as int, d as int);
            let end_date = if h == 23 {
                date_text(n.0, n.1, n.2)
            } else {
                date
            };
            &&& event_bounds(date, Some(time_text(h as int, m as int)), None) == (
                date_time_value(date, time_text(h as int, m as int)),
                date_time_value(end_date, time_text((h + 1) % 24, m as int)),
            )
            &&& schedule_defined(date, Some(time_text(h as int, m as int)), None)
        }),
{
    lemma_add_one_hour_of_time_text(h, m);
    lemma_time_fields(h, m);
    lemma_next_day_of_date_text(y, mo, d);
}

/// Whether reading `date` as a date would carry the year past `u32::MAX`.
pub fn next_day_would_overflow(date: &str) -> (b: bool)
    ensures
        b == next_day_overflows(date@),
{
    match date_fields_of(date) {
        Some((y, m, d)) => y == 0xffff_ffffu32 && m == 12 && d >= 31,
        None => false,
    }
}

/// The hour field of `hm`, when `hm` is two pieces around one `:` and the
/// first is a number.
fn hour_field(hm: &str) -> (r: Option<Option<u32>>)
    ensures
        match r {
            None => split_spec(hm@, ':').len() != 2,
            Some(h) => split_spec(hm@, ':').len() == 2 && h == parse_u32_spec(
                split_spec(hm@, ':')[0],
            ),
        },
{
    let chars = chars_of(hm);
    let parts = split_chars(&chars, ':');
    if parts.len() != 2 {
        return None;
    }
    assert(views(parts@)[0] == parts@[0]@);
    Some(parse_u32(&parts[0]))
}

/// Whether adding one hour to `hm` would carry the hour past `u32::MAX`.
pub fn add_one_hour_would_overflow(hm: &str) -> (b: bool)
    ensures
        b == add_one_hour_overflows(hm@),
{
    match hour_field(hm) {
        Some(Some(h)) => h == 0xffff_ffffu32,
        _ => false,
    }
}

/// Whether one hour after `hm` falls on the next day.
pub fn add_one_hour_would_wrap(hm: &str) -> (b: bool)
    ensures
        b == add_one_hour_wraps(hm@),
{
    match hour_field(hm) {
        Some(Some(h)) => h == 23,
        Some(None) => false,
        None => false,
    }
}

fn is_default_end(end_time: Option<&str>) -> (b: bool)
    ensures
        b == uses_default_end(opt_str_view(end_time)),
{
    match end_time {
        Some(e) => e.is_empty(),
        None => true,
    }
}

/// Whether `schedule` can compute the default end of the event: its
/// `requires`, decided.
pub fn can_schedule(date: &str, start_time: Option<&str>, end_time: Option<&str>) -> (b: bool)
    ensures
        b == schedule_defined(date@, opt_str_view(start_time), opt_str_view(end_time)),
{
    match start_time {
        None => !next_day_would_overflow(date),
        Some(s) => {
            !is_default_end(end_time) || (!add_one_hour_would_overflow(s) && (
            !add_one_hour_would_wrap(s) || !next_day_would_overflow(date)))
        },
    }
}

fn next_day_or_same_text(date: &str) -> (r: String)
    requires
        !next_day_overflows(date@),
    ensures
        r@ == next_day_or_same(date@),
{
    match next_day(date) {
        Some(n) => n,
        None => String::from_str(date),
    }
}

fn date_value_of(date: &str) -> (v: serde_json::Value)
    ensures
        v == date_value(date@),
{
    let mut m = empty_object();
    object_insert(&mut m, String::from_str("date"), string_value(date));
    object_value(m)
}

fn date_time_value_of(date: &str, hm: &str) -> (v: serde_json::Value)
    ensures
        v == date_time_value(date@, hm@),
{
    let mut stamp = String::from_str(date);
    stamp.append("T");
    stamp.append(hm);
    stamp.append(":00");
    let mut m = empty_object();
    object_insert(&mut m, String::from_str("dateTime"), string_value(stamp.as_str()));
    object_insert(&mut m, String::from_str("timeZone"), string_value("UTC"));
    object_value(m)
}

/// The event object for a calendar event titled `title` on `date`
/// (`YYYY-MM-DD`). Without `start_time` it is an all-day event that ends on
/// the next day; with it, a timed event from `start_time` to `end_time`
/// (`HH:MM`, 24h, UTC), which ends one hour after the start when
/// `end_time` is `None` or empty, on the next day when that passes midnight.
pub fn event(
    title: &str,
    date: &str,
    start_time: Option<&str>,
    end_time: Option<&str>,
    description: Option<&str>,
) -> (payload: serde_json::Value)
    requires
        schedule_defined(date@, opt_str_view(start_time), opt_str_view(end_time)),
    ensures
        payload == schedule_event(
            title@,
            date@,
            opt_str_view(start_time),
            opt_str_view(end_time),
            opt_str_view(description),
        ),
{
    let (start_obj, end_obj) = match start_time {
        None => {
            let end_date = next_day_or_same_text(date);
            (date_value_of(date), date_value_of(end_date.as_str()))
        },
        Some(s) => {
            let (end_date, end_hm) = if is_default_end(end_time) {
                let end_date = if add_one_hour_would_wrap(s) {
                    next_day_or_same_text(date)
                } else {
                    String::from_str(date)
                };
                (end_date, add_one_hour(s))
            } else {
                (String::from_str(date), String::from_str(end_time.unwrap()))
            };
            (date_time_value_of(date, s), date_time_value_of(end_date.as_str(), end_hm.as_str()))
        },
    };
    assert(start_obj == event_bounds(date@, opt_str_view(start_time), opt_str_view(end_time)).0);
    assert(end_obj == event_bounds(date@, opt_str_view(start_time), opt_str_view(end_time)).1);
    let desc: &str = match description {
        Some(d) => d,
        None => "",
    };
    proof {
        reveal_strlit("");
    }
    let mut m = empty_object();
    object_insert(&mut m, String::from_str("summary"), string_value(title));
    object_insert(&mut m, String::from_str("description"), string_value(desc));
    object_insert(&mut m, String::from_str("start"), start_obj);
    object_insert(&mut m, String::from_str("end"), end_obj);
    assert(desc@ == match opt_str_view(description) {
        Some(d) => d,
        None => Seq::<char>::empty(),
    });
    object_value(m)
}

/// The request text for a raw Google Calendar event object: its JSON text.
/// Serialising a document never fails, so the result is always `Ok`.
pub fn create_event_request(payload: &serde_json::Value) -> (r: Result<String, String>)
    ensures
        r is Ok,
        result_view(r) == raw_event_request(*payload),
{
    value_to_json(payload)
}

/// The request text that creates a calendar event (see [`event`]): the JSON
/// text of the event object, as `create_event_raw` would send it.
pub fn schedule(
    title: &str,
    date: &str,
    start_time: Option<&str>,
    end_time: Option<&str>,
    description: Option<&str>,
) -> (r: Result<String, String>)
    requires
        schedule_defined(date@, opt_str_view(start_time), opt_str_view(end_time)),
    ensures
        r is Ok,
        result_view(r) == schedule_request(
            title@,
            date@,
            opt_str_view(start_time),
            opt_str_view(end_time),
            opt_str_view(description),
        ),
{
    let payload = event(title, date, start_time, end_time, description);
    create_event_request(&payload)
}

} // verus!
