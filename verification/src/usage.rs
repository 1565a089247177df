//! Usage records of ordinary accounts: what `auth.json` and the usage service
//! provide, and how remaining quota is rendered.

use vstd::prelude::*;
use crate::text;

verus! {

/// The characters of an optional string.
pub open spec fn opt_chars(o: Option<String>) -> Option<Seq<char>> {
    match o {
        Some(s) => Some(s@),
        None => None,
    }
}

/// `o`'s characters when it is present and not blank.
pub open spec fn non_blank(o: Option<Seq<char>>) -> Option<Seq<char>> {
    match o {
        Some(s) => if text::blank(s) { None } else { Some(s) },
        None => None,
    }
}

/// `o`'s characters trimmed, when it is present and not blank.
pub open spec fn trimmed_non_blank(o: Option<Seq<char>>) -> Option<Seq<char>> {
    match o {
        Some(s) => if text::blank(s) { None } else { Some(text::trimmed(s)) },
        None => None,
    }
}

/// The tokens section of `auth.json`.
pub struct AuthTokens {
    pub access_token: Option<String>,
    pub account_id: Option<String>,
    pub id_token: Option<String>,
}

/// The fields of `auth.json` that profiles are told apart by.
pub struct AuthJson {
    pub email: Option<String>,
    pub tokens: Option<AuthTokens>,
    /// The `OPENAI_API_KEY` field.
    pub openai_api_key: Option<String>,
}

/// The `tokens.account_id` field of an `auth.json`, if there is one.
pub open spec fn auth_account_id_field(auth: AuthJson) -> Option<Seq<char>> {
    match auth.tokens {
        Some(t) => opt_chars(t.account_id),
        None => None,
    }
}

/// The trimmed `tokens.account_id` of `auth`, when it is present and not blank.
pub fn auth_account_id_from_json(auth: &AuthJson) -> (r: Option<String>)
    ensures
        opt_chars(r) == trimmed_non_blank(auth_account_id_field(*auth)),
{
    match &auth.tokens {
        Some(tokens) => match &tokens.account_id {
            Some(id) => {
                let t = text::trim(id.as_str());
                if t.as_str().unicode_len() == 0 {
                    None
                } else {
                    Some(t)
                }
            },
            None => None,
        },
        None => None,
    }
}

/// The trimmed `OPENAI_API_KEY` of `auth`, when it is present and not blank.
pub fn auth_api_key_from_json(auth: &AuthJson) -> (r: Option<String>)
    ensures
        opt_chars(r) == trimmed_non_blank(opt_chars(auth.openai_api_key)),
{
    match &auth.openai_api_key {
        Some(key) => {
            let t = text::trim(key.as_str());
            if t.as_str().unicode_len() == 0 {
                None
            } else {
                Some(t)
            }
        },
        None => None,
    }
}

/// The account id of a profile whose `auth.json` was read as `auth` (`None`
/// where it could not be read or parsed).
pub fn auth_account_id(auth: Option<&AuthJson>) -> (r: Option<String>)
    ensures
        opt_chars(r) == match auth {
            Some(a) => trimmed_non_blank(auth_account_id_field(*a)),
            None => None,
        },
{
    match auth {
        Some(a) => auth_account_id_from_json(a),
        None => None,
    }
}

/// The API key of a profile whose `auth.json` was read as `auth` (`None`
/// where it could not be read or parsed).
pub fn auth_api_key(auth: Option<&AuthJson>) -> (r: Option<String>)
    ensures
        opt_chars(r) == match auth {
            Some(a) => trimmed_non_blank(opt_chars(a.openai_api_key)),
            None => None,
        },
{
    match auth {
        Some(a) => auth_api_key_from_json(a),
        None => None,
    }
}

/// Whether a profile's `auth.json`, read as `auth`, carries a non-blank API key.
pub fn auth_uses_api_key(auth: Option<&AuthJson>) -> (r: bool)
    ensures
        r == match auth {
            Some(a) => trimmed_non_blank(opt_chars(a.openai_api_key)) is Some,
            None => false,
        },
{
    auth_api_key(auth).is_some()
}

/// Why the usage of an account could not be fetched.
pub enum UsageError {
    /// `auth.json` has no `tokens` section.
    MissingTokens,
    /// A required field of `auth.json` is absent; it holds the field's name.
    MissingField(String),
    /// A required field of `auth.json` is blank; it holds the field's name.
    EmptyField(String),
    /// The usage service answered with a status outside 200..=299; it holds the status.
    Status(u16),
    /// The usage response has no `rate_limit` section.
    MissingRateLimit,
}

/// The message of a usage error; `status_text` is how the response status reads
/// (such as `401 Unauthorized`).
pub open spec fn usage_error_text(e: UsageError, status_text: Seq<char>) -> Seq<char> {
    match e {
        UsageError::MissingTokens => "auth.json 缺少 tokens"@,
        UsageError::MissingField(n) => "auth.json 缺少 "@ + n@,
        UsageError::EmptyField(n) => "auth.json 中 "@ + n@ + " 为空"@,
        UsageError::Status(_) => "usage 请求失败: "@ + status_text,
        UsageError::MissingRateLimit => "usage 响应缺少 rate_limit"@,
    }
}

impl UsageError {
    /// The message of the error; `status_text` renders a response status.
    pub fn message(&self, status_text: &str) -> (r: String)
        ensures
            r@ == usage_error_text(*self, status_text@),
    {
        match self {
            UsageError::MissingTokens => "auth.json 缺少 tokens".to_owned(),
            UsageError::MissingField(n) => {
                let mut r = "auth.json 缺少 ".to_owned();
                r.append(n.as_str());
                r
            },
            UsageError::EmptyField(n) => {
                let mut r = "auth.json 中 ".to_owned();
                r.append(n.as_str());
                r.append(" 为空");
                r
            },
            UsageError::Status(_) => {
                let mut r = "usage 请求失败: ".to_owned();
                r.append(status_text);
                r
            },
            UsageError::MissingRateLimit => "usage 响应缺少 rate_limit".to_owned(),
        }
    }
}

/// A required field of `auth.json`: present and not blank, else an error naming it.
pub fn required_field(value: Option<String>, name: &str) -> (r: Result<String, UsageError>)
    ensures
        match value {
            None => r matches Err(UsageError::MissingField(n)) && n@ == name@,
            Some(v) => if text::blank(v@) {
                r matches Err(UsageError::EmptyField(n)) && n@ == name@
            } else {
                r matches Ok(s) && s@ == v@
            },
        },
{
    match value {
        None => Err(UsageError::MissingField(name.to_owned())),
        Some(v) => {
            if text::is_blank(v.as_str()) {
                Err(UsageError::EmptyField(name.to_owned()))
            } else {
                Ok(v)
            }
        },
    }
}

/// The label of a quota window of `seconds` length: whole days, hours or minutes
/// where the length divides evenly, else seconds; `fallback` where it is unknown.
pub open spec fn window_label_text(seconds: Option<u64>, fallback: Seq<char>) -> Seq<char> {
    match seconds {
        None => fallback,
        Some(s) => if s % 86_400 == 0 {
            text::decimal((s / 86_400) as nat) + seq!['d']
        } else if s % 3_600 == 0 {
            text::decimal((s / 3_600) as nat) + seq!['h']
        } else if s % 60 == 0 {
            text::decimal((s / 60) as nat) + seq!['m']
        } else {
            text::decimal(s as nat) + seq!['s']
        },
    }
}

/// The label of a quota window, such as `5h` or `7d`.
pub fn window_label(seconds: Option<u64>, fallback: &str) -> (r: String)
    ensures
        r@ == window_label_text(seconds, fallback@),
{
    match seconds {
        None => fallback.to_owned(),
        Some(s) => {
            let mut r = String::new();
            if s % 86_400 == 0 {
                text::push_decimal(&mut r, s / 86_400);
                text::push_char(&mut r, 'd');
            } else if s % 3_600 == 0 {
                text::push_decimal(&mut r, s / 3_600);
                text::push_char(&mut r, 'h');
            } else if s % 60 == 0 {
                text::push_decimal(&mut r, s / 60);
                text::push_char(&mut r, 'm');
            } else {
                text::push_decimal(&mut r, s);
                text::push_char(&mut r, 's');
            }
            r
        },
    }
}

/// One line of the account list's right column: each label right-aligned in two
/// columns and followed by its percentage, all separated by single spaces.
pub open spec fn usage_line(pl: Seq<char>, pp: Seq<char>, sl: Seq<char>, sp: Seq<char>) -> Seq<char> {
    text::padded_left(pl, 2) + seq![' '] + pp + seq![' '] + text::padded_left(sl, 2) + seq![' '] + sp
}

/// Lays out two labelled percentages, as `5h 100% 7d 84%`.
pub fn format_usage(
    primary_label: &str,
    primary_percent: &str,
    secondary_label: &str,
    secondary_percent: &str,
) -> (r: String)
    ensures
        r@ == usage_line(primary_label@, primary_percent@, secondary_label@, secondary_percent@),
{
    let mut r = text::pad_left(primary_label, 2);
    text::push_char(&mut r, ' ');
    r.append(primary_percent);
    text::push_char(&mut r, ' ');
    let b = text::pad_left(secondary_label, 2);
    r.append(b.as_str());
    text::push_char(&mut r, ' ');
    r.append(secondary_percent);
    r
}

/// A remaining-quota percentage: the IEEE-754 bit pattern of the value, and
/// its rendering (`84%`, `0.5%`) made where the value was computed.
pub struct Percent {
    pub bits: u64,
    pub text: String,
}

/// Whether `bits` encodes a NaN.
pub open spec fn f64_bits_nan(bits: u64) -> bool {
    bits % 0x8000_0000_0000_0000 > 0x7FF0_0000_0000_0000
}

/// Whether the value that `bits` encodes compares below `1.0` (never for a NaN).
pub open spec fn f64_bits_below_one(bits: u64) -> bool {
    !f64_bits_nan(bits) && (bits >= 0x8000_0000_0000_0000 || bits < 0x3FF0_0000_0000_0000)
}

/// An integer whose order on bit patterns is the total order of `f64::total_cmp`
/// on the values they encode.
pub open spec fn total_order_key(bits: u64) -> u64 {
    if bits >= 0x8000_0000_0000_0000 {
        (0xFFFF_FFFF_FFFF_FFFF - bits) as u64
    } else {
        (bits + 0x8000_0000_0000_0000) as u64
    }
}

impl Percent {
    /// Whether the percentage is below one percent.
    pub fn below_one(&self) -> (r: bool)
        ensures
            r == f64_bits_below_one(self.bits),
    {
        let magnitude = self.bits % 0x8000_0000_0000_0000;
        magnitude <= 0x7FF0_0000_0000_0000 && (self.bits >= 0x8000_0000_0000_0000 || self.bits
            < 0x3FF0_0000_0000_0000)
    }

    /// The key by which percentages are ordered.
    pub fn order_key(&self) -> (r: u64)
        ensures
            r == total_order_key(self.bits),
    {
        if self.bits >= 0x8000_0000_0000_0000 {
            0xFFFF_FFFF_FFFF_FFFF - self.bits
        } else {
            self.bits + 0x8000_0000_0000_0000
        }
    }
}

/// The rendering of an optional percentage: `--%` where it is unknown.
pub open spec fn percent_text(p: Option<Percent>) -> Seq<char> {
    match p {
        Some(p) => p.text@,
        None => "--%"@,
    }
}

/// Renders an optional percentage.
pub fn format_percent(value: &Option<Percent>) -> (r: String)
    ensures
        r@ == percent_text(*value),
{
    match value {
        Some(p) => p.text.clone(),
        None => "--%".to_owned(),
    }
}

/// The reset part of a window's detail line. `stamp` is the local
/// `month.day hour:minute` rendering of the reset time, where one could be made.
pub open spec fn reset_line(after: Option<u64>, stamp: Option<Seq<char>>) -> Seq<char> {
    match after {
        None => "reset --"@,
        Some(a) => if a <= 86_400 {
            "reset in "@ + text::decimal((a / 3_600) as nat) + "h "@ + text::decimal(
                ((a % 3_600) / 60) as nat,
            ) + "min"@
        } else {
            match stamp {
                Some(t) => "reset at "@ + t,
                None => "reset --"@,
            }
        },
    }
}

/// Whether `y` is a leap year of the proleptic Gregorian calendar.
pub open spec fn is_leap_year(y: int) -> bool {
    y % 4 == 0 && (y % 100 != 0 || y % 400 == 0)
}

/// The number of days of month `m` of year `y`.
pub open spec fn days_in_month(y: int, m: int) -> int {
    if m == 2 {
        if is_leap_year(y) { 29 } else { 28 }
    } else if m == 4 || m == 6 || m == 9 || m == 11 {
        30
    } else {
        31
    }
}

/// Whether year `y`, month `m`, day `d` is a date.
pub open spec fn is_date(y: int, m: int, d: int) -> bool {
    1 <= m <= 12 && 1 <= d <= days_in_month(y, m)
}

/// The number of leap years from year 1 up to, not including, year `y` (counted
/// negatively below year 1).
pub open spec fn leap_years_before(y: int) -> int {
    (y - 1) / 4 - (y - 1) / 100 + (y - 1) / 400
}

/// The days of year `y` before month `m`.
pub open spec fn days_before_month(y: int, m: int) -> int {
    let common = if m == 1 {
        0int
    } else if m == 2 {
        31
    } else if m == 3 {
        59
    } else if m == 4 {
        90
    } else if m == 5 {
        120
    } else if m == 6 {
        151
    } else if m == 7 {
        181
    } else if m == 8 {
        212
    } else if m == 9 {
        243
    } else if m == 10 {
        273
    } else if m == 11 {
        304
    } else {
        334
    };
    if m > 2 && is_leap_year(y) { common + 1 } else { common }
}

/// The number of days from 1970-01-01 to the date `y`-`m`-`d`.
pub open spec fn day_number(y: int, m: int, d: int) -> int {
    365 * (y - 1970) + leap_years_before(y) - leap_years_before(1970) + days_before_month(y, m) + d
        - 1
}

/// The month and day of the date `z` days after 1970-01-01.
pub open spec fn month_and_day(z: int) -> (int, int) {
    let (y, m, d) = choose|y: int, m: int, d: int| is_date(y, m, d) && day_number(y, m, d) == z;
    (m, d)
}

/// `n` in two decimal digits.
pub open spec fn two_digits(n: int) -> Seq<char> {
    seq![text::digit_char((n / 10) as nat), text::digit_char((n % 10) as nat)]
}

/// The `MM.DD hh:mm` rendering of the time `t` seconds after 1970-01-01 00:00.
pub open spec fn minute_stamp(t: int) -> Seq<char> {
    let (m, d) = month_and_day(t / 86_400);
    let s = t % 86_400;
    two_digits(m) + seq!['.'] + two_digits(d) + seq![' '] + two_digits(s / 3_600) + seq![':']
        + two_digits((s % 3_600) / 60)
}

/// The `MM.DD hh:mm` rendering of the UNIX time `at` in a zone `offset` seconds
/// east of UTC: none where the offset is a day or more, or `at` is outside the
/// times chrono represents (`DateTime::<Utc>::MIN_UTC..=MAX_UTC`).
pub open spec fn stamp_of(at: i64, offset: i32) -> Option<Seq<char>> {
    if -8_334_601_228_800 <= at <= 8_210_266_876_799 && -86_400 < offset < 86_400 {
        Some(minute_stamp(at + offset))
    } else {
        None
    }
}

/// Renders the UNIX time `at` as `MM.DD hh:mm` in the zone `offset_seconds` east
/// of UTC, with chrono's `FixedOffset::east_opt`, `DateTime::<Utc>::from_timestamp`,
/// `DateTime::with_timezone` and `DateTime::format("%m.%d %H:%M")`. Claimed: the
/// result is `stamp_of(at, offset_seconds)`: `None` exactly where `east_opt` refuses
/// the offset (a day or more) or `from_timestamp` the time (outside `MIN_UTC..=MAX_UTC`),
/// else the proleptic Gregorian month, day, hour and minute of `at + offset_seconds`.
#[verifier::external_body]
fn render_minute_stamp(at: i64, offset_seconds: i32) -> (r: Option<String>)
    ensures
        opt_chars(r) == stamp_of(at, offset_seconds),
{
    let offset = chrono::FixedOffset::east_opt(offset_seconds)?;
    let utc = chrono::DateTime::<chrono::Utc>::from_timestamp(at, 0)?;
    Some(utc.with_timezone(&offset).format("%m.%d %H:%M").to_string())
}

/// The reset part of a detail line, given the rendering of the reset time.
pub fn reset_text(after: Option<u64>, stamp: Option<String>) -> (r: String)
    ensures
        r@ == reset_line(after, opt_chars(stamp)),
{
    match after {
        None => "reset --".to_owned(),
        Some(a) => {
            if a <= 86_400 {
                let mut r = "reset in ".to_owned();
                text::push_decimal(&mut r, a / 3_600);
                r.append("h ");
                text::push_decimal(&mut r, (a % 3_600) / 60);
                r.append("min");
                r
            } else {
                match stamp {
                    Some(t) => {
                        let mut r = "reset at ".to_owned();
                        r.append(t.as_str());
                        r
                    },
                    None => "reset --".to_owned(),
                }
            }
        },
    }
}

/// The reset part of a window's detail line: the time left when it is at most a
/// day, else the reset time `at` rendered in the zone `offset` seconds east of UTC.
pub open spec fn reset_line_at(after: Option<u64>, at: Option<i64>, offset: Option<i32>) -> Seq<char> {
    reset_line(
        after,
        match (at, offset) {
            (Some(t), Some(o)) => stamp_of(t, o),
            _ => None,
        },
    )
}

/// The reset part of a window's detail line. `utc_offset` is the local zone's
/// offset east of UTC, in seconds, at `reset_at`.
pub fn format_reset(reset_after_seconds: Option<u64>, reset_at: Option<i64>, utc_offset: Option<
    i32,
>) -> (r: String)
    ensures
        r@ == reset_line_at(reset_after_seconds, reset_at, utc_offset),
{
    let stamp = match (reset_after_seconds, reset_at, utc_offset) {
        (Some(a), Some(t), Some(o)) => if a > 86_400 {
            render_minute_stamp(t, o)
        } else {
            None
        },
        _ => None,
    };
    reset_text(reset_after_seconds, stamp)
}

/// The prefix of a window's detail line: label and percentage.
pub open spec fn window_detail_prefix(label: Seq<char>, remaining: Option<Percent>) -> Seq<char> {
    label + seq![' '] + percent_text(remaining) + seq![' ']
}

/// A window's detail line, such as `5h 100% reset in 5h 0min`.
pub fn format_window_detail(
    label: &str,
    remaining_percent: &Option<Percent>,
    reset_after_seconds: Option<u64>,
    reset_at: Option<i64>,
    utc_offset: Option<i32>,
) -> (r: String)
    ensures
        r@ == window_detail_text(
            label@,
            *remaining_percent,
            reset_after_seconds,
            reset_at,
            utc_offset,
        ),
{
    let mut r = label.to_owned();
    text::push_char(&mut r, ' ');
    let p = format_percent(remaining_percent);
    r.append(p.as_str());
    text::push_char(&mut r, ' ');
    let ghost prefix = r@;
    let reset = format_reset(reset_after_seconds, reset_at, utc_offset);
    r.append(reset.as_str());
    proof {
        assert(prefix =~= window_detail_prefix(label@, *remaining_percent));
    }
    r
}

/// The quota record of an ordinary account.
pub struct ApiUsage {
    pub email: Option<String>,
    pub plan_type: Option<String>,
    pub primary_label: String,
    pub primary_remaining: Option<Percent>,
    pub primary_reset_after_seconds: Option<u64>,
    pub primary_reset_at: Option<i64>,
    /// The local zone's offset east of UTC, in seconds, at `primary_reset_at`.
    pub primary_reset_utc_offset: Option<i32>,
    pub secondary_label: String,
    pub secondary_remaining: Option<Percent>,
    pub secondary_reset_after_seconds: Option<u64>,
    pub secondary_reset_at: Option<i64>,
    /// The local zone's offset east of UTC, in seconds, at `secondary_reset_at`.
    pub secondary_reset_utc_offset: Option<i32>,
}

/// Whether a record lacks none of its two percentages.
pub open spec fn has_both_percents(u: ApiUsage) -> bool {
    u.primary_remaining is Some && u.secondary_remaining is Some
}

/// Whether some known percentage of a record is below one percent.
pub open spec fn low_remaining(u: ApiUsage) -> bool {
    ||| u.primary_remaining matches Some(p) && f64_bits_below_one(p.bits)
    ||| u.secondary_remaining matches Some(p) && f64_bits_below_one(p.bits)
}

/// The list text of a record.
pub open spec fn usage_display(u: ApiUsage) -> Seq<char> {
    usage_line(
        u.primary_label@,
        percent_text(u.primary_remaining),
        u.secondary_label@,
        percent_text(u.secondary_remaining),
    )
}

/// The characters of an optional string, `--` where it is absent.
pub open spec fn or_dashes(o: Option<String>) -> Seq<char> {
    match o {
        Some(s) => s@,
        None => "--"@,
    }
}

fn text_or_dashes(o: &Option<String>) -> (r: String)
    ensures
        r@ == or_dashes(*o),
{
    match o {
        Some(s) => s.clone(),
        None => "--".to_owned(),
    }
}

/// The characters of each line.
pub open spec fn lines_of(v: Seq<String>) -> Seq<Seq<char>> {
    v.map_values(|s: String| s@)
}

/// The detail line of a window: label, percentage and reset part.
pub open spec fn window_detail_text(
    label: Seq<char>,
    remaining: Option<Percent>,
    after: Option<u64>,
    at: Option<i64>,
    offset: Option<i32>,
) -> Seq<char> {
    window_detail_prefix(label, remaining) + reset_line_at(after, at, offset)
}

/// Whether `lines` is the detail panel of the record `u`.
pub open spec fn usage_details(u: ApiUsage, lines: Seq<Seq<char>>) -> bool {
    &&& lines.len() == 4
    &&& lines[0] == "email: "@ + or_dashes(u.email)
    &&& lines[1] == "plan_type: "@ + or_dashes(u.plan_type)
    &&& lines[2] == window_detail_text(
        u.primary_label@,
        u.primary_remaining,
        u.primary_reset_after_seconds,
        u.primary_reset_at,
        u.primary_reset_utc_offset,
    )
    &&& lines[3] == window_detail_text(
        u.secondary_label@,
        u.secondary_remaining,
        u.secondary_reset_after_seconds,
        u.secondary_reset_at,
        u.secondary_reset_utc_offset,
    )
}

impl ApiUsage {
    /// The list text, such as `5h 100% 7d 84%`.
    pub fn display_text(&self) -> (r: String)
        ensures
            r@ == usage_display(*self),
    {
        let p = format_percent(&self.primary_remaining);
        let s = format_percent(&self.secondary_remaining);
        format_usage(self.primary_label.as_str(), p.as_str(), self.secondary_label.as_str(), s.as_str())
    }

    /// The remaining percentage of the primary window.
    pub fn primary_remaining_percent(&self) -> (r: &Option<Percent>)
        ensures
            *r == self.primary_remaining,
    {
        &self.primary_remaining
    }

    /// The remaining percentage of the secondary window.
    pub fn secondary_remaining_percent(&self) -> (r: &Option<Percent>)
        ensures
            *r == self.secondary_remaining,
    {
        &self.secondary_remaining
    }

    /// Whether both windows report a percentage.
    pub fn has_remaining_percents(&self) -> (r: bool)
        ensures
            r == has_both_percents(*self),
    {
        self.primary_remaining.is_some() && self.secondary_remaining.is_some()
    }

    /// Whether some window has less than one percent left.
    pub fn is_low_remaining(&self) -> (r: bool)
        ensures
            r == low_remaining(*self),
    {
        let primary_low = match &self.primary_remaining {
            Some(p) => p.below_one(),
            None => false,
        };
        let secondary_low = match &self.secondary_remaining {
            Some(p) => p.below_one(),
            None => false,
        };
        primary_low || secondary_low
    }

    /// The detail panel: email, plan type and one line per window.
    pub fn detail_lines(&self) -> (r: Vec<String>)
        ensures
            usage_details(*self, lines_of(r@)),
    {
        let mut email = "email: ".to_owned();
        let e = text_or_dashes(&self.email);
        email.append(e.as_str());
        let mut plan = "plan_type: ".to_owned();
        let p = text_or_dashes(&self.plan_type);
        plan.append(p.as_str());
        let primary = format_window_detail(
            self.primary_label.as_str(),
            &self.primary_remaining,
            self.primary_reset_after_seconds,
            self.primary_reset_at,
            self.primary_reset_utc_offset,
        );
        let secondary = format_window_detail(
            self.secondary_label.as_str(),
            &self.secondary_remaining,
            self.secondary_reset_after_seconds,
            self.secondary_reset_at,
            self.secondary_reset_utc_offset,
        );
        let mut r = Vec::new();
        r.push(email);
        r.push(plan);
        r.push(primary);
        r.push(secondary);
        proof {
            assert(lines_of(r@).len() == 4);
            assert(lines_of(r@)[2] == r@[2]@);
            assert(lines_of(r@)[3] == r@[3]@);
        }
        r
    }
}

/// Where an account's usage stands.
pub enum ApiUsageState {
    /// Still being fetched.
    Loading,
    /// Fetched.
    Loaded(ApiUsage),
    /// An API-key profile, which has no quota windows.
    Api(crate::profile::ApiProfile),
    /// Could not be fetched; it holds the account's email where one is known.
    Unavailable(Option<String>),
}

/// The outcome of fetching one account's usage.
pub struct ApiUsageUpdate {
    pub account_name: String,
    pub usage: Option<ApiUsage>,
    pub email: Option<String>,
}

/// The number of characters before the first `.` of `s` (its length when it has none).
pub open spec fn dot_index(s: Seq<char>) -> nat
    decreases s.len(),
{
    if s.len() == 0 || s[0] == '.' {
        0
    } else {
        1 + dot_index(s.drop_first())
    }
}

/// The second `.`-separated segment of `s`, as `s.split('.').nth(1)` gives it.
pub open spec fn second_segment(s: Seq<char>) -> Option<Seq<char>> {
    let i = dot_index(s);
    if i < s.len() {
        let rest = s.skip(i + 1 as int);
        Some(rest.take(dot_index(rest) as int))
    } else {
        None
    }
}

proof fn lemma_dot_index(t: Seq<char>, j: int)
    requires
        0 <= j <= t.len(),
        forall|k: int| 0 <= k < j ==> #[trigger] t[k] != '.',
        j == t.len() || t[j] == '.',
    ensures
        dot_index(t) == j,
    decreases j,
{
    if j > 0 {
        let u = t.drop_first();
        assert forall|k: int| 0 <= k < j - 1 implies #[trigger] u[k] != '.' by {
            assert(u[k] == t[k + 1]);
        }
        lemma_dot_index(u, j - 1);
    }
}

/// The position of the first `.` of `s` at or after `from` (the length when none).
fn find_dot(s: &str, from: usize) -> (r: usize)
    requires
        from <= s@.len(),
    ensures
        r == from + dot_index(s@.skip(from as int)),
        r <= s@.len(),
{
    let n = s.unicode_len();
    let mut i = from;
    while i < n && s.get_char(i) != '.'
        invariant
            n == s@.len(),
            from <= i <= n,
            forall|k: int| from <= k < i ==> #[trigger] s@[k] != '.',
        decreases n - i,
    {
        i = i + 1;
    }
    proof {
        let t = s@.skip(from as int);
        assert forall|k: int| 0 <= k < i - from implies #[trigger] t[k] != '.' by {
            assert(t[k] == s@[k + from]);
        }
        if i < n {
            assert(t[i - from] == s@[i as int]);
        }
        lemma_dot_index(t, i - from);
    }
    i
}

/// The second `.`-separated segment of `s`: the payload of a JSON web token.
pub fn second_segment_of(s: &str) -> (r: Option<String>)
    ensures
        opt_chars(r) == second_segment(s@),
{
    let n = s.unicode_len();
    let i = find_dot(s, 0);
    proof {
        assert(s@.skip(0) =~= s@);
    }
    if i >= n {
        return None;
    }
    let j = find_dot(s, i + 1);
    let segment = s.substring_char(i + 1, j).to_owned();
    proof {
        let rest = s@.skip(i + 1 as int);
        assert(rest.take(j - (i + 1)) =~= s@.subrange(i + 1, j as int));
    }
    Some(segment)
}

/// Name for what base64's `URL_SAFE_NO_PAD.decode` gives for the UTF-8 bytes of
/// `text`: the decoded bytes, or `None` where it reports an error.
pub uninterp spec fn base64_url_decoded(text: Seq<char>) -> Option<Seq<u8>>;

/// Decodes unpadded URL-safe base64 with base64's `Engine::decode` on
/// `URL_SAFE_NO_PAD`. Claimed: the result is `base64_url_decoded` of the input;
/// what that is on given text is not stated.
#[verifier::external_body]
fn decode_base64_url(text: &str) -> (r: Option<Vec<u8>>)
    ensures
        match r {
            Some(v) => base64_url_decoded(text@) == Some(v@),
            None => base64_url_decoded(text@) is None,
        },
{
    base64::Engine::decode(&base64::engine::general_purpose::URL_SAFE_NO_PAD, text).ok()
}

/// Name for the string member `key` of the JSON document in `document`, as
/// serde_json's `from_slice::<Value>` then `Value::get` and `Value::as_str` give
/// it: `None` where the bytes are not JSON, the document has no member `key`,
/// or that member is not a string.
pub uninterp spec fn json_string_member_of(document: Seq<u8>, key: Seq<char>) -> Option<Seq<char>>;

/// Reads the string member `key` of a JSON document with serde_json
/// (`from_slice::<Value>`, `Value::get`, `Value::as_str`). Claimed: the result is
/// `json_string_member_of` of the arguments; what that is is not stated.
#[verifier::external_body]
fn json_string_member(document: &[u8], key: &str) -> (r: Option<String>)
    ensures
        opt_chars(r) == json_string_member_of(document@, key@),
{
    match serde_json::from_slice::<serde_json::Value>(document) {
        Ok(v) => v.get(key).and_then(serde_json::Value::as_str).map(str::to_string),
        Err(_) => None,
    }
}

/// `value` where it is present and not blank.
pub fn keep_non_blank(value: Option<String>) -> (r: Option<String>)
    ensures
        opt_chars(r) == non_blank(opt_chars(value)),
{
    match value {
        Some(v) => if text::is_blank(v.as_str()) {
            None
        } else {
            Some(v)
        },
        None => None,
    }
}

/// The email claim of a JSON web token: its payload segment, base64-decoded,
/// read as JSON, its `email` member when that is a non-blank string.
pub open spec fn id_token_email(token: Seq<char>) -> Option<Seq<char>> {
    match second_segment(token) {
        None => None,
        Some(payload) => match base64_url_decoded(payload) {
            None => None,
            Some(bytes) => non_blank(json_string_member_of(bytes, "email"@)),
        },
    }
}

/// The email claim of an ID token.
pub fn email_from_id_token(id_token: &str) -> (r: Option<String>)
    ensures
        opt_chars(r) == id_token_email(id_token@),
{
    let payload = match second_segment_of(id_token) {
        Some(p) => p,
        None => return None,
    };
    let decoded = match decode_base64_url(payload.as_str()) {
        Some(d) => d,
        None => return None,
    };
    let email = json_string_member(decoded.as_slice(), "email");
    keep_non_blank(email)
}

/// The email of a profile: the `email` field of `auth.json` where it is not
/// blank, else the email claim of its ID token.
pub open spec fn auth_email_of(auth: AuthJson) -> Option<Seq<char>> {
    match non_blank(opt_chars(auth.email)) {
        Some(e) => Some(e),
        None => match auth.tokens {
            Some(t) => match t.id_token {
                Some(token) => id_token_email(token@),
                None => None,
            },
            None => None,
        },
    }
}

/// The email of a profile whose `auth.json` was read as `auth`.
pub fn auth_email(auth: &AuthJson) -> (r: Option<String>)
    ensures
        opt_chars(r) == auth_email_of(*auth),
{
    let direct = match &auth.email {
        Some(e) => keep_non_blank(Some(e.clone())),
        None => None,
    };
    if direct.is_some() {
        return direct;
    }
    match &auth.tokens {
        Some(t) => match &t.id_token {
            Some(token) => email_from_id_token(token.as_str()),
            None => None,
        },
        None => None,
    }
}

/// The credentials a usage request sends: the access token and the account id.
pub fn usage_credentials(auth: AuthJson) -> (r: Result<(String, String), UsageError>)
    ensures
        match auth.tokens {
            None => r matches Err(UsageError::MissingTokens),
            Some(t) => match t.access_token {
                None => r matches Err(UsageError::MissingField(n)) && n@ == "tokens.access_token"@,
                Some(a) => if text::blank(a@) {
                    r matches Err(UsageError::EmptyField(n)) && n@ == "tokens.access_token"@
                } else {
                    match t.account_id {
                        None => r matches Err(UsageError::MissingField(n)) && n@
                            == "tokens.account_id"@,
                        Some(i) => if text::blank(i@) {
                            r matches Err(UsageError::EmptyField(n)) && n@ == "tokens.account_id"@
                        } else {
                            r matches Ok((x, y)) && x@ == a@ && y@ == i@
                        },
                    }
                },
            },
        },
{
    let tokens = match auth.tokens {
        Some(t) => t,
        None => return Err(UsageError::MissingTokens),
    };
    let access_token = match required_field(tokens.access_token, "tokens.access_token") {
        Ok(v) => v,
        Err(e) => return Err(e),
    };
    let account_id = match required_field(tokens.account_id, "tokens.account_id") {
        Ok(v) => v,
        Err(e) => return Err(e),
    };
    Ok((access_token, account_id))
}

/// Accepts a usage response status in the success range 200..=299.
pub fn check_usage_status(status: u16) -> (r: Result<(), UsageError>)
    ensures
        200 <= status < 300 <==> r is Ok,
        r matches Err(e) ==> e == UsageError::Status(status),
{
    if 200 <= status && status < 300 {
        Ok(())
    } else {
        Err(UsageError::Status(status))
    }
}

/// One quota window of a usage response; `remaining` stands for the service's
/// `used_percent`, turned into the percentage left.
pub struct RateLimitWindow {
    pub remaining: Option<Percent>,
    pub limit_window_seconds: Option<u64>,
    pub reset_after_seconds: Option<u64>,
    pub reset_at: Option<i64>,
    /// Not part of the response: the local zone's offset east of UTC, in seconds,
    /// at `reset_at`, where the machine's time zone gives one.
    pub reset_at_utc_offset: Option<i32>,
}

/// The quota section of a usage response.
pub struct RateLimit {
    pub primary_window: Option<RateLimitWindow>,
    pub secondary_window: Option<RateLimitWindow>,
}

/// A usage response.
pub struct UsageResponse {
    pub email: Option<String>,
    pub plan_type: Option<String>,
    pub rate_limit: Option<RateLimit>,
}

/// The parts of an optional window a record keeps.
pub open spec fn window_remaining(w: Option<RateLimitWindow>) -> Option<Percent> {
    match w {
        Some(w) => w.remaining,
        None => None,
    }
}

pub open spec fn window_seconds(w: Option<RateLimitWindow>) -> Option<u64> {
    match w {
        Some(w) => w.limit_window_seconds,
        None => None,
    }
}

pub open spec fn window_reset_after(w: Option<RateLimitWindow>) -> Option<u64> {
    match w {
        Some(w) => w.reset_after_seconds,
        None => None,
    }
}

pub open spec fn window_reset_at(w: Option<RateLimitWindow>) -> Option<i64> {
    match w {
        Some(w) => w.reset_at,
        None => None,
    }
}

pub open spec fn window_reset_offset(w: Option<RateLimitWindow>) -> Option<i32> {
    match w {
        Some(w) => w.reset_at_utc_offset,
        None => None,
    }
}

/// Whether `u` is the record a response with quota section `rl` gives.
pub open spec fn usage_record_of(
    rl: RateLimit,
    email: Option<Seq<char>>,
    plan_type: Option<String>,
    u: ApiUsage,
) -> bool {
    &&& opt_chars(u.email) == email
    &&& u.plan_type == plan_type
    &&& u.primary_label@ == window_label_text(window_seconds(rl.primary_window), "5h"@)
    &&& u.primary_remaining == window_remaining(rl.primary_window)
    &&& u.primary_reset_after_seconds == window_reset_after(rl.primary_window)
    &&& u.primary_reset_at == window_reset_at(rl.primary_window)
    &&& u.primary_reset_utc_offset == window_reset_offset(rl.primary_window)
    &&& u.secondary_label@ == window_label_text(window_seconds(rl.secondary_window), "7d"@)
    &&& u.secondary_remaining == window_remaining(rl.secondary_window)
    &&& u.secondary_reset_after_seconds == window_reset_after(rl.secondary_window)
    &&& u.secondary_reset_at == window_reset_at(rl.secondary_window)
    &&& u.secondary_reset_utc_offset == window_reset_offset(rl.secondary_window)
}

/// The email a record keeps: the response's, else the one from `auth.json`.
pub open spec fn response_email(resp: Option<String>, fallback: Option<String>) -> Option<Seq<char>> {
    match resp {
        Some(e) => Some(e@),
        None => opt_chars(fallback),
    }
}

struct WindowParts {
    remaining: Option<Percent>,
    seconds: Option<u64>,
    reset_after: Option<u64>,
    reset_at: Option<i64>,
    reset_offset: Option<i32>,
}

fn window_parts(w: Option<RateLimitWindow>) -> (r: WindowParts)
    ensures
        r.remaining == window_remaining(w),
        r.seconds == window_seconds(w),
        r.reset_after == window_reset_after(w),
        r.reset_at == window_reset_at(w),
        r.reset_offset == window_reset_offset(w),
{
    match w {
        Some(w) => WindowParts {
            remaining: w.remaining,
            seconds: w.limit_window_seconds,
            reset_after: w.reset_after_seconds,
            reset_at: w.reset_at,
            reset_offset: w.reset_at_utc_offset,
        },
        None => WindowParts {
            remaining: None,
            seconds: None,
            reset_after: None,
            reset_at: None,
            reset_offset: None,
        },
    }
}

/// The record of a usage response; `fallback_email` is the email of `auth.json`.
pub fn usage_from_response(resp: UsageResponse, fallback_email: Option<String>) -> (r: Result<
    ApiUsage,
    UsageError,
>)
    ensures
        match resp.rate_limit {
            None => r matches Err(UsageError::MissingRateLimit),
            Some(rl) => r matches Ok(u) && usage_record_of(
                rl,
                response_email(resp.email, fallback_email),
                resp.plan_type,
                u,
            ),
        },
{
    let rate_limit = match resp.rate_limit {
        Some(rl) => rl,
        None => return Err(UsageError::MissingRateLimit),
    };
    let email = match resp.email {
        Some(e) => Some(e),
        None => fallback_email,
    };
    let primary = window_parts(rate_limit.primary_window);
    let secondary = window_parts(rate_limit.secondary_window);
    let primary_label = window_label(primary.seconds, "5h");
    let secondary_label = window_label(secondary.seconds, "7d");
    Ok(
        ApiUsage {
            email,
            plan_type: resp.plan_type,
            primary_label,
            primary_remaining: primary.remaining,
            primary_reset_after_seconds: primary.reset_after,
            primary_reset_at: primary.reset_at,
            primary_reset_utc_offset: primary.reset_offset,
            secondary_label,
            secondary_remaining: secondary.remaining,
            secondary_reset_after_seconds: secondary.reset_after,
            secondary_reset_at: secondary.reset_at,
            secondary_reset_utc_offset: secondary.reset_offset,
        },
    )
}

/// A reset at most a day away reads as the whole hours and the whole minutes left:
/// `reset in {h}h {m}min` with `3600 h + 60 m <= a < 3600 h + 60 m + 60` and `m < 60`.
pub proof fn lemma_reset_in_hours_and_minutes(a: u64, stamp: Option<Seq<char>>)
    requires
        a <= 86_400,
    ensures
        exists|h: nat, m: nat|
            m < 60 && 3_600 * h + 60 * m <= a < 3_600 * h + 60 * m + 60 && #[trigger] reset_line(
                Some(a),
                stamp,
            ) == "reset in "@ + text::decimal(h) + "h "@ + text::decimal(m) + "min"@,
{
    let h = (a / 3_600) as nat;
    let r = (a % 3_600) as nat;
    let m = (r / 60) as nat;
    assert(a == 3_600 * h + r && r < 3_600) by {
        vstd::arithmetic::div_mod::lemma_fundamental_div_mod(a as int, 3_600);
    }
    assert(r == 60 * m + r % 60 && r % 60 < 60) by {
        vstd::arithmetic::div_mod::lemma_fundamental_div_mod(r as int, 60);
    }
    assert(m < 60);
    assert(reset_line(Some(a), stamp) == "reset in "@ + text::decimal(h) + "h "@ + text::decimal(m)
        + "min"@);
}

/// The email of a profile: the `email` field where it is present and not blank;
/// otherwise, whether the field is absent or blank, the email claim of the ID token.
pub proof fn lemma_auth_email_falls_back_to_id_token(auth: AuthJson)
    ensures
        auth.email matches Some(e) ==> (!text::blank(e@) ==> auth_email_of(auth) == Some(e@)),
        (auth.email is None || (auth.email matches Some(e) && text::blank(e@))) ==> auth_email_of(
            auth,
        ) == match auth.tokens {
            Some(t) => match t.id_token {
                Some(token) => id_token_email(token@),
                None => None,
            },
            None => None,
        },
{
}

/// An absent and a blank `email` field give the same email.
pub proof fn lemma_auth_email_absent_like_blank(auth: AuthJson, blank_email: String)
    requires
        auth.email is None,
        text::blank(blank_email@),
    ensures
        auth_email_of(auth) == auth_email_of(AuthJson { email: Some(blank_email), ..auth }),
{
}

/// Each field of a record built from a usage response comes from the window it
/// belongs to: the primary window's fields from `primary_window`, the secondary
/// window's from `secondary_window`.
pub proof fn lemma_record_fields_from_own_window(
    rl: RateLimit,
    email: Option<Seq<char>>,
    plan_type: Option<String>,
    u: ApiUsage,
)
    requires
        usage_record_of(rl, email, plan_type, u),
    ensures
        rl.primary_window is None ==> u.primary_remaining is None && u.primary_reset_after_seconds is None
            && u.primary_reset_at is None && u.primary_reset_utc_offset is None && u.primary_label@
            == "5h"@,
        rl.secondary_window is None ==> u.secondary_remaining is None
            && u.secondary_reset_after_seconds is None && u.secondary_reset_at is None
            && u.secondary_reset_utc_offset is None && u.secondary_label@ == "7d"@,
        rl.primary_window matches Some(w) ==> u.primary_label@ == window_label_text(
            w.limit_window_seconds,
            "5h"@,
        ),
        rl.secondary_window matches Some(w) ==> u.secondary_label@ == window_label_text(
            w.limit_window_seconds,
            "7d"@,
        ),
        rl.primary_window matches Some(w) ==> u.primary_remaining == w.remaining
            && u.primary_reset_after_seconds == w.reset_after_seconds && u.primary_reset_at
            == w.reset_at && u.primary_reset_utc_offset == w.reset_at_utc_offset,
        rl.secondary_window matches Some(w) ==> u.secondary_remaining == w.remaining
            && u.secondary_reset_after_seconds == w.reset_after_seconds && u.secondary_reset_at
            == w.reset_at && u.secondary_reset_utc_offset == w.reset_at_utc_offset,
        opt_chars(u.email) == email,
        u.plan_type == plan_type,
{
}

/// A reset more than a day away reads as `reset at` and the rendered reset time
/// where there is one, else `reset --`; an unknown reset reads `reset --`.
pub proof fn lemma_reset_beyond_a_day(after: Option<u64>, stamp: Option<Seq<char>>)
    ensures
        after is None ==> reset_line(after, stamp) == "reset --"@,
        after matches Some(a) ==> (a > 86_400 ==> reset_line(after, stamp) == match stamp {
            Some(t) => "reset at "@ + t,
            None => "reset --"@,
        }),
{
}

} // verus!
