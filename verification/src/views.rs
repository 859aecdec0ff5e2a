use vstd::prelude::*;
use chrono::Datelike;
use crate::error::WikiError;
use crate::json::Json;
use crate::query::{get_query, spec_get_query};
use crate::text::{digit_char, digit_str};

verus! {

/// A Gregorian leap year.
pub open spec fn is_leap_year(y: int) -> bool {
    y % 4 == 0 && (y % 100 != 0 || y % 400 == 0)
}

/// How many days month `m` of year `y` has.
pub open spec fn days_in_month(y: int, m: int) -> int {
    if m == 2 {
        if is_leap_year(y) {
            29
        } else {
            28
        }
    } else if m == 4 || m == 6 || m == 9 || m == 11 {
        30
    } else {
        31
    }
}

/// A real calendar date.
pub open spec fn valid_date(y: int, m: int, d: int) -> bool {
    1 <= m <= 12 && 1 <= d <= days_in_month(y, m)
}

/// A calendar date, held as plain year, month and day numbers.
#[derive(Clone, Copy, Debug, PartialEq, Eq, Hash, Structural)]
pub struct Date {
    pub year: u32,
    pub month: u32,
    pub day: u32,
}

impl Date {
    /// The date names a real day of the calendar.
    pub open spec fn valid(self) -> bool {
        valid_date(self.year as int, self.month as int, self.day as int)
    }
}

/// The day after `(y, m, d)`.
pub open spec fn next_date(y: int, m: int, d: int) -> (int, int, int) {
    if d < days_in_month(y, m) {
        (y, m, d + 1)
    } else if m < 12 {
        (y, m + 1, 1)
    } else {
        (y + 1, 1, 1)
    }
}

/// The date `n` days after `(y, m, d)`.
pub open spec fn plus_days(y: int, m: int, d: int, n: nat) -> (int, int, int)
    decreases n,
{
    if n == 0 {
        (y, m, d)
    } else {
        let t = next_date(y, m, d);
        plus_days(t.0, t.1, t.2, (n - 1) as nat)
    }
}

/// Relies on chrono's `NaiveDate` — `from_ymd_opt`, `checked_add_days` and
/// the `Datelike` accessors: proleptic Gregorian day arithmetic, defined up
/// to (at least) year 262000, `None` beyond its supported range.
#[verifier::external_body]
fn chrono_add_days(y: u32, m: u32, d: u32, n: u64) -> (r: Option<(u32, u32, u32)>)
    requires
        valid_date(y as int, m as int, d as int),
        y <= 9999,
    ensures
        r matches Some(t) ==> {
            &&& (t.0 as int, t.1 as int, t.2 as int) == plus_days(
                y as int,
                m as int,
                d as int,
                n as nat,
            )
            &&& valid_date(t.0 as int, t.1 as int, t.2 as int)
        },
        plus_days(y as int, m as int, d as int, n as nat).0 <= 262000 ==> r is Some,
{
    let start = chrono::NaiveDate::from_ymd_opt(y as i32, m, d)?;
    let end = start.checked_add_days(chrono::Days::new(n))?;
    Some((end.year() as u32, end.month(), end.day()))
}

/// A decimal digit character.
pub open spec fn is_digit(c: char) -> bool {
    48 <= c as int <= 57
}

/// The value of a decimal digit character.
pub open spec fn digit_val(c: char) -> int {
    c as int - 48
}

/// The two-digit number at position `i` of `s`.
pub open spec fn num2(s: Seq<char>, i: int) -> int {
    digit_val(s[i]) * 10 + digit_val(s[i + 1])
}

/// The four-digit number at position `i` of `s`.
pub open spec fn num4(s: Seq<char>, i: int) -> int {
    digit_val(s[i]) * 1000 + digit_val(s[i + 1]) * 100 + digit_val(s[i + 2]) * 10 + digit_val(
        s[i + 3],
    )
}

/// An 8-digit `YYYYMMDD` string naming a real calendar date.
pub open spec fn valid_ymd8(s: Seq<char>) -> bool {
    &&& s.len() == 8
    &&& forall|i: int| 0 <= i < 8 ==> is_digit(#[trigger] s[i])
    &&& valid_date(num4(s, 0), num2(s, 4), num2(s, 6))
}

fn days_in_month_exec(y: u32, m: u32) -> (r: u32)
    ensures
        r as int == days_in_month(y as int, m as int),
{
    if m == 2 {
        if y % 4 == 0 && (y % 100 != 0 || y % 400 == 0) {
            29
        } else {
            28
        }
    } else if m == 4 || m == 6 || m == 9 || m == 11 {
        30
    } else {
        31
    }
}

/// Parses an 8-digit `YYYYMMDD` string into a date, `None` unless the
/// string has exactly that shape and names a real calendar date.
pub fn parse_ymd8(s: &str) -> (r: Option<Date>)
    ensures
        match r {
            Some(dt) => {
                &&& valid_ymd8(s@)
                &&& dt.year as int == num4(s@, 0)
                &&& dt.month as int == num2(s@, 4)
                &&& dt.day as int == num2(s@, 6)
                &&& dt.valid()
            },
            None => !valid_ymd8(s@),
        },
{
    if s.unicode_len() != 8 {
        return None;
    }
    let mut digits: [u32; 8] = [0, 0, 0, 0, 0, 0, 0, 0];
    let mut i: usize = 0;
    while i < 8
        invariant
            i <= 8,
            s@.len() == 8,
            forall|j: int| 0 <= j < i ==> is_digit(#[trigger] s@[j]),
            forall|j: int| 0 <= j < i ==> digits@[j] as int == digit_val(#[trigger] s@[j]),
        decreases 8 - i,
    {
        let c = s.get_char(i);
        let u = c as u32;
        if u < 48 || u > 57 {
            return None;
        }
        digits[i] = u - 48;
        i = i + 1;
    }
    proof {
        assert forall|j: int| 0 <= j < 8 implies digits@[j] <= 9 by {
            assert(is_digit(s@[j]));
            assert(digits@[j] as int == digit_val(s@[j]));
        }
    }
    let y = digits[0] * 1000 + digits[1] * 100 + digits[2] * 10 + digits[3];
    let m = digits[4] * 10 + digits[5];
    let d = digits[6] * 10 + digits[7];
    if m < 1 || m > 12 {
        return None;
    }
    if d < 1 || d > days_in_month_exec(y, m) {
        return None;
    }
    Some(Date { year: y, month: m, day: d })
}

/// The 8-character `YYYYMMDD` rendering of `(y, m, d)`, zero-padded.
pub open spec fn ymd8_of(y: int, m: int, d: int) -> Seq<char> {
    seq![
        digit_char(y / 1000 % 10),
        digit_char(y / 100 % 10),
        digit_char(y / 10 % 10),
        digit_char(y % 10),
        digit_char(m / 10 % 10),
        digit_char(m % 10),
        digit_char(d / 10 % 10),
        digit_char(d % 10),
    ]
}

/// Renders a date as its 8-character `YYYYMMDD` form.
pub fn format_ymd8(dt: Date) -> (r: String)
    requires
        dt.year <= 9999,
        dt.month <= 99,
        dt.day <= 99,
    ensures
        r@ == ymd8_of(dt.year as int, dt.month as int, dt.day as int),
{
    let mut s = String::new();
    s.append(digit_str((dt.year / 1000 % 10) as u8));
    s.append(digit_str((dt.year / 100 % 10) as u8));
    s.append(digit_str((dt.year / 10 % 10) as u8));
    s.append(digit_str((dt.year % 10) as u8));
    s.append(digit_str((dt.month / 10 % 10) as u8));
    s.append(digit_str((dt.month % 10) as u8));
    s.append(digit_str((dt.day / 10 % 10) as u8));
    s.append(digit_str((dt.day % 10) as u8));
    proof {
        assert(s@ =~= ymd8_of(dt.year as int, dt.month as int, dt.day as int));
    }
    s
}

/// The requests `get_views` may make: a start date in real `YYYYMMDD` form,
/// at least one day, and an end date still within four-digit years.
pub open spec fn views_range_ok(start: Seq<char>, nb_days: int) -> bool {
    &&& valid_ymd8(start)
    &&& nb_days >= 1
    &&& plus_days(num4(start, 0), num2(start, 4), num2(start, 6), (nb_days - 1) as nat).0 <= 9999
}

/// The pageviews URL: daily per-article counts from `start` through the day
/// `nb_days - 1` days later, both bounds carrying the `00` hour suffix.
pub open spec fn spec_views_url(
    query: Seq<char>,
    start: Seq<char>,
    nb_days: int,
    capitalize: bool,
) -> Seq<char>
    recommends
        views_range_ok(start, nb_days),
{
    let end = plus_days(num4(start, 0), num2(start, 4), num2(start, 6), (nb_days - 1) as nat);
    "https://wikimedia.org/api/rest_v1/metrics/pageviews/per-article/en.wikipedia/all-access/all-agents/"@
        + spec_get_query(query, capitalize) + "/daily/"@ + start + "00/"@ + ymd8_of(
        end.0,
        end.1,
        end.2,
    ) + "00"@
}

/// Validates the start date and builds the pageviews request URL.
///
/// `DateFormat` is the single caller-fatal input failure: it is returned —
/// before any URL exists to fetch — exactly when the start date is not a
/// real `YYYYMMDD` calendar date, the day count is less than one, or the
/// range runs past year 9999.
pub fn get_views_request(query: &str, start_date: &str, nb_days: i64, capitalize: bool) -> (r:
    Result<String, WikiError>)
    ensures
        match r {
            Ok(url) => views_range_ok(start_date@, nb_days as int) && url@ == spec_views_url(
                query@,
                start_date@,
                nb_days as int,
                capitalize,
            ),
            Err(e) => !views_range_ok(start_date@, nb_days as int) && e matches
                WikiError::DateFormat,
        },
{
    let dt = match parse_ymd8(start_date) {
        Some(d) => d,
        None => {
            return Err(WikiError::DateFormat);
        },
    };
    if nb_days < 1 {
        return Err(WikiError::DateFormat);
    }
    let end = match chrono_add_days(dt.year, dt.month, dt.day, (nb_days - 1) as u64) {
        Some(t) => t,
        None => {
            return Err(WikiError::DateFormat);
        },
    };
    let (ey, em, ed) = end;
    if ey > 9999 {
        return Err(WikiError::DateFormat);
    }
    let mut url = String::from_str(
        "https://wikimedia.org/api/rest_v1/metrics/pageviews/per-article/en.wikipedia/all-access/all-agents/",
    );
    let q = get_query(query, capitalize);
    url.append(q.as_str());
    url.append("/daily/");
    url.append(start_date);
    url.append("00/");
    let endstr = format_ymd8(Date { year: ey, month: em, day: ed });
    url.append(endstr.as_str());
    url.append("00");
    Ok(url)
}

/// Where mapping one pageviews item fails, in the model.
pub enum ViewsFail {
    /// `items` is absent from the envelope.
    MissingItems,
    /// `items` exists but is not an array.
    ItemsNotArray,
    /// An item has no `timestamp` member.
    MissingTimestamp,
    /// An item's `timestamp` is not a string.
    TimestampNotString,
    /// An item's timestamp does not begin with a real `YYYYMMDD` date.
    BadTimestamp,
    /// An item has no `views` member.
    MissingViews,
    /// An item's `views` is not an integer.
    ViewsNotInt,
}

/// The calendar date and view count of one raw item: the first 8 characters
/// of its timestamp, and its integral `views` field.
pub open spec fn spec_view_item(elem: Json) -> Result<((int, int, int), int), ViewsFail> {
    match elem.spec_get("timestamp"@) {
        None => Err(ViewsFail::MissingTimestamp),
        Some(tv) => match tv {
            Json::Str(ts) => if !(ts@.len() >= 8 && valid_ymd8(ts@.subrange(0, 8))) {
                Err(ViewsFail::BadTimestamp)
            } else {
                match elem.spec_get("views"@) {
                    None => Err(ViewsFail::MissingViews),
                    Some(vv) => match vv {
                        Json::Int(n) => Ok(
                            (
                                (
                                    num4(ts@.subrange(0, 8), 0),
                                    num2(ts@.subrange(0, 8), 4),
                                    num2(ts@.subrange(0, 8), 6),
                                ),
                                n as int,
                            ),
                        ),
                        _ => Err(ViewsFail::ViewsNotInt),
                    },
                }
            },
            _ => Err(ViewsFail::TimestampNotString),
        },
    }
}

/// The mappings of all raw items, fail-fast.
pub open spec fn spec_view_items(elems: Seq<Json>) -> Result<Seq<((int, int, int), int)>, ViewsFail>
    decreases elems.len(),
{
    if elems.len() == 0 {
        Ok(Seq::empty())
    } else {
        match spec_view_item(elems[0]) {
            Err(f) => Err(f),
            Ok(p) => match spec_view_items(elems.drop_first()) {
                Err(f) => Err(f),
                Ok(rest) => Ok(seq![p] + rest),
            },
        }
    }
}

/// `pre` prepended to a fail-fast tail result.
pub open spec fn prepend_views(
    pre: Seq<((int, int, int), int)>,
    r: Result<Seq<((int, int, int), int)>, ViewsFail>,
) -> Result<Seq<((int, int, int), int)>, ViewsFail> {
    match r {
        Ok(rest) => Ok(pre + rest),
        Err(f) => Err(f),
    }
}

/// The error one model failure is reported as.
pub open spec fn views_fail_error(fail: ViewsFail, e: WikiError) -> bool {
    match fail {
        ViewsFail::MissingItems => e matches WikiError::MissingField(f) && f@ == "items"@,
        ViewsFail::ItemsNotArray => e matches WikiError::TypeMismatch(f, t) && f@ == "items"@ && t@
            == "array"@,
        ViewsFail::MissingTimestamp => e matches WikiError::MissingField(f) && f@ == "timestamp"@,
        ViewsFail::TimestampNotString => e matches WikiError::TypeMismatch(f, t) && f@
            == "timestamp"@ && t@ == "string"@,
        ViewsFail::BadTimestamp => e matches WikiError::DateFormat,
        ViewsFail::MissingViews => e matches WikiError::MissingField(f) && f@ == "views"@,
        ViewsFail::ViewsNotInt => e matches WikiError::TypeMismatch(f, t) && f@ == "views"@ && t@
            == "integer"@,
    }
}

/// Whether the pair `(dt, n)` carries exactly the model pair `p`.
pub open spec fn view_pair_matches(dt: Date, n: i64, p: ((int, int, int), int)) -> bool {
    &&& (dt.year as int, dt.month as int, dt.day as int) == p.0
    &&& n as int == p.1
}

/// What pageviews extraction returns for a metrics envelope `env`.
pub open spec fn views_post(env: Json, r: Result<Vec<(Date, i64)>, WikiError>) -> bool {
    match env.spec_get("items"@) {
        None => r matches Err(e) && views_fail_error(ViewsFail::MissingItems, e),
        Some(iv) => match iv {
            Json::Arr(elems) => match spec_view_items(elems@) {
                Ok(pairs) => r matches Ok(v) && v@.len() == pairs.len() && (forall|i: int|
                    0 <= i < pairs.len() ==> view_pair_matches(
                        (#[trigger] v@[i]).0,
                        v@[i].1,
                        pairs[i],
                    )),
                Err(fail) => r matches Err(e) && views_fail_error(fail, e),
            },
            _ => r matches Err(e) && views_fail_error(ViewsFail::ItemsNotArray, e),
        },
    }
}

/// Maps one raw pageviews item to its date and count.
fn project_view_item(elem: &Json) -> (r: Result<(Date, i64), WikiError>)
    ensures
        match r {
            Ok(p) => spec_view_item(*elem) matches Ok(sp) && view_pair_matches(p.0, p.1, sp),
            Err(e) => spec_view_item(*elem) matches Err(fail) && views_fail_error(fail, e),
        },
{
    let ts = match elem.get("timestamp") {
        None => {
            return Err(WikiError::MissingField(String::from_str("timestamp")));
        },
        Some(tv) => match tv.as_str() {
            Some(s) => s,
            None => {
                return Err(
                    WikiError::TypeMismatch(
                        String::from_str("timestamp"),
                        String::from_str("string"),
                    ),
                );
            },
        },
    };
    if ts.as_str().unicode_len() < 8 {
        return Err(WikiError::DateFormat);
    }
    let first8 = ts.as_str().substring_char(0, 8);
    let dt = match parse_ymd8(first8) {
        Some(d) => d,
        None => {
            return Err(WikiError::DateFormat);
        },
    };
    match elem.get("views") {
        None => Err(WikiError::MissingField(String::from_str("views"))),
        Some(vv) => match vv.as_i64() {
            Some(n) => Ok((dt, n)),
            None => Err(
                WikiError::TypeMismatch(String::from_str("views"), String::from_str("integer")),
            ),
        },
    }
}

/// Extracts the daily `(date, views)` pairs from a metrics envelope.
///
/// The pairs mirror the response: if the service answers with fewer or more
/// days than requested, that many pairs come back — no reconciliation
/// against the requested range is attempted.
pub fn extract_views(env: &Json) -> (r: Result<Vec<(Date, i64)>, WikiError>)
    ensures
        views_post(*env, r),
{
    let list = match env.get("items") {
        Some(l) => l,
        None => {
            return Err(WikiError::MissingField(String::from_str("items")));
        },
    };
    let elems = match list.as_array() {
        Some(v) => v,
        None => {
            return Err(
                WikiError::TypeMismatch(String::from_str("items"), String::from_str("array")),
            );
        },
    };
    let ghost all = elems@;
    let n = elems.len();
    let mut out: Vec<(Date, i64)> = Vec::new();
    let mut i: usize = 0;
    let ghost mut done: Seq<((int, int, int), int)> = Seq::empty();
    proof {
        assert(all.skip(0) =~= all);
        match spec_view_items(all) {
            Ok(rest) => {
                assert(Seq::<((int, int, int), int)>::empty() + rest =~= rest);
            },
            Err(_) => {},
        }
    }
    while i < n
        invariant
            i <= n,
            n == all.len(),
            elems@ == all,
            env.spec_get("items"@) == Some(Json::Arr(*elems)),
            done.len() == i,
            out@.len() == i,
            forall|j: int| 0 <= j < i ==> view_pair_matches(
                (#[trigger] out@[j]).0,
                out@[j].1,
                done[j],
            ),
            spec_view_items(all) == prepend_views(done, spec_view_items(all.skip(i as int))),
        decreases n - i,
    {
        proof {
            assert(all.skip(i as int).drop_first() =~= all.skip(i as int + 1));
            assert(all.skip(i as int)[0] == all[i as int]);
        }
        match project_view_item(&elems[i]) {
            Ok(p) => {
                let ghost sp = spec_view_item(all[i as int])->Ok_0;
                proof {
                    match spec_view_items(all.skip(i as int + 1)) {
                        Ok(rest) => {
                            assert(done + (seq![sp] + rest) =~= (done + seq![sp]) + rest);
                        },
                        Err(_) => {},
                    }
                }
                out.push(p);
                proof {
                    done = done + seq![sp];
                }
            },
            Err(e) => {
                return Err(e);
            },
        }
        i = i + 1;
    }
    proof {
        assert(all.skip(n as int) =~= Seq::<Json>::empty());
        assert(done + Seq::<((int, int, int), int)>::empty() =~= done);
    }
    Ok(out)
}

} // verus!
