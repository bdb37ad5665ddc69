//! ISO-8601 timestamps with explicit offset, as the registry reports them.
//!
//! The accepted form is a calendar date and time of day,
//! `YYYY-MM-DDThh:mm:ss`, an optional fraction `.d...` of one or more
//! digits, and an offset: `Z`, or a sign followed by `hh` or `hh:mm`.
//! Parsing yields whole Unix seconds; fraction digits are validated and
//! then discarded, so a sub-second instant truncates toward the preceding
//! second rather than rounding.

use vstd::prelude::*;

verus! {

/// Whether a character is a decimal digit.
pub open spec fn is_digit(c: char) -> bool {
    48 <= c as int && c as int <= 57
}

/// The value of a decimal digit character.
pub open spec fn dval(c: char) -> int {
    c as int - 48
}

/// The value of the two digits at positions `i` and `i + 1`.
pub open spec fn two_digits(t: Seq<char>, i: int) -> int {
    10 * dval(t[i]) + dval(t[i + 1])
}

/// The value of the four digits starting at position `i`.
pub open spec fn four_digits(t: Seq<char>, i: int) -> int {
    100 * two_digits(t, i) + two_digits(t, i + 2)
}

/// Whether every position in `[i, j)` holds a decimal digit.
pub open spec fn digits_in(t: Seq<char>, i: int, j: int) -> bool {
    forall|k: int| i <= k < j ==> is_digit(#[trigger] t[k])
}

/// The first position at or after `i` that does not hold a digit.
pub open spec fn skip_digits(t: Seq<char>, i: int) -> int
    decreases t.len() - i when 0 <= i <= t.len()
{
    if i < t.len() && is_digit(t[i]) {
        skip_digits(t, i + 1)
    } else {
        i
    }
}

pub proof fn lemma_skip_digits(t: Seq<char>, i: int)
    requires
        0 <= i <= t.len(),
    ensures
        i <= skip_digits(t, i) <= t.len(),
        digits_in(t, i, skip_digits(t, i)),
        skip_digits(t, i) < t.len() ==> !is_digit(t[skip_digits(t, i)]),
    decreases t.len() - i,
{
    if i < t.len() && is_digit(t[i]) {
        lemma_skip_digits(t, i + 1);
    }
}

/// Whether a year has a 29th of February.
pub open spec fn is_leap_year(y: int) -> bool {
    y % 4 == 0 && (y % 100 != 0 || y % 400 == 0)
}

/// How many days the given month of the given year has.
pub open spec fn days_in_month(y: int, m: int) -> int {
    if m == 2 {
        if is_leap_year(y) {
            29
        } else {
            28
        }
    } else if m == 4 || m == 6 || m == 9 || m == 11 {
        30
    } else {
        31
    }
}

/// Days from the Unix epoch to the given civil date, negative before it.
/// The year is shifted so that every intermediate value stays nonnegative.
pub open spec fn days_from_civil(y: int, m: int, d: int) -> int
    recommends
        0 <= y <= 9999,
        1 <= m <= 12,
        1 <= d <= 31,
{
    let yy = if m <= 2 {
        y + 399
    } else {
        y + 400
    };
    let mp = if m <= 2 {
        m + 9
    } else {
        m - 3
    };
    let era = yy / 400;
    let yoe = yy - era * 400;
    let doy = (153 * mp + 2) / 5 + d - 1;
    let doe = yoe * 365 + yoe / 4 - yoe / 100 + doy;
    era * 146097 + doe - 865565
}

/// Whether the date-time part `YYYY-MM-DDThh:mm:ss` is in place.
pub open spec fn base_shape(t: Seq<char>) -> bool {
    &&& t.len() >= 19
    &&& digits_in(t, 0, 4)
    &&& t[4] == '-'
    &&& digits_in(t, 5, 7)
    &&& t[7] == '-'
    &&& digits_in(t, 8, 10)
    &&& t[10] == 'T'
    &&& digits_in(t, 11, 13)
    &&& t[13] == ':'
    &&& digits_in(t, 14, 16)
    &&& t[16] == ':'
    &&& digits_in(t, 17, 19)
}

/// Where the offset part starts: after the fraction digits, if any.
pub open spec fn frac_end(t: Seq<char>) -> int {
    if t.len() > 19 && t[19] == '.' {
        skip_digits(t, 20)
    } else {
        19
    }
}

/// A fraction point must be followed by at least one digit.
pub open spec fn frac_ok(t: Seq<char>) -> bool {
    t.len() > 19 && t[19] == '.' ==> frac_end(t) > 20
}

/// Whether a valid offset stands at position `p` and ends the text.
pub open spec fn offset_shape(t: Seq<char>, p: int) -> bool
    recommends
        0 <= p < t.len(),
{
    ||| (t[p] == 'Z' && t.len() == p + 1)
    ||| ((t[p] == '+' || t[p] == '-') && t.len() == p + 3 && digits_in(t, p + 1, p + 3)
        && two_digits(t, p + 1) <= 23)
    ||| ((t[p] == '+' || t[p] == '-') && t.len() == p + 6 && digits_in(t, p + 1, p + 3)
        && two_digits(t, p + 1) <= 23 && t[p + 3] == ':' && digits_in(t, p + 4, p + 6)
        && two_digits(t, p + 4) <= 59)
}

/// The offset at position `p`, in seconds east of UTC.
pub open spec fn offset_secs(t: Seq<char>, p: int) -> int
    recommends
        0 <= p < t.len(),
        offset_shape(t, p),
{
    if t[p] == 'Z' {
        0
    } else {
        let mag = if t.len() == p + 3 {
            two_digits(t, p + 1) * 3600
        } else {
            two_digits(t, p + 1) * 3600 + two_digits(t, p + 4) * 60
        };
        if t[p] == '-' {
            -mag
        } else {
            mag
        }
    }
}

/// Whether the date and time-of-day fields are within range.
pub open spec fn fields_ok(t: Seq<char>) -> bool
    recommends
        base_shape(t),
{
    &&& 1 <= two_digits(t, 5) <= 12
    &&& 1 <= two_digits(t, 8) <= days_in_month(four_digits(t, 0), two_digits(t, 5))
    &&& two_digits(t, 11) <= 23
    &&& two_digits(t, 14) <= 59
    &&& two_digits(t, 17) <= 59
}

/// Whether the whole text is a well-formed timestamp.
pub open spec fn iso_well_formed(t: Seq<char>) -> bool {
    &&& base_shape(t)
    &&& fields_ok(t)
    &&& frac_ok(t)
    &&& frac_end(t) < t.len()
    &&& offset_shape(t, frac_end(t))
}

/// The Unix second of a well-formed timestamp, fraction digits discarded.
pub open spec fn iso_instant(t: Seq<char>) -> int
    recommends
        iso_well_formed(t),
{
    days_from_civil(four_digits(t, 0), two_digits(t, 5), two_digits(t, 8)) * 86400 + two_digits(
        t,
        11,
    ) * 3600 + two_digits(t, 14) * 60 + two_digits(t, 17) - offset_secs(t, frac_end(t))
}

/// What parsing returns: the Unix second of a well-formed timestamp,
/// nothing otherwise.
pub open spec fn spec_parse_iso8601(t: Seq<char>) -> Option<i64> {
    if iso_well_formed(t) {
        Some(iso_instant(t) as i64)
    } else {
        None
    }
}

/// A sub-second timestamp parses to the same whole second as the same
/// text with its fraction removed: the fraction digits are validated and
/// truncated, never rounded into the second.
pub proof fn lemma_subsecond_truncated(t: Seq<char>)
    requires
        iso_well_formed(t),
        t.len() > 19,
        t[19] == '.',
    ensures
        ({
            let u = t.subrange(0, 19) + t.subrange(frac_end(t), t.len() as int);
            &&& iso_well_formed(u)
            &&& spec_parse_iso8601(u) == spec_parse_iso8601(t)
        }),
{
    let e = frac_end(t);
    let u = t.subrange(0, 19) + t.subrange(e, t.len() as int);
    lemma_skip_digits(t, 20);
    assert(20 < e <= t.len());
    assert(u.len() == 19 + t.len() - e);
    assert forall|k: int| 0 <= k < 19 implies #[trigger] u[k] == t[k] by {}
    assert forall|k: int| 19 <= k < u.len() implies #[trigger] u[k] == t[k + e - 19] by {}
    assert(base_shape(u));
    assert(u[19] == t[e]);
    assert(t[e] != '.');
    assert(frac_end(u) == 19);
    assert(four_digits(u, 0) == four_digits(t, 0));
    assert(two_digits(u, 5) == two_digits(t, 5));
    assert(two_digits(u, 8) == two_digits(t, 8));
    assert(two_digits(u, 11) == two_digits(t, 11));
    assert(two_digits(u, 14) == two_digits(t, 14));
    assert(two_digits(u, 17) == two_digits(t, 17));
    assert(fields_ok(u));
    if t[e] == 'Z' {
        assert(offset_shape(u, 19));
        assert(offset_secs(u, 19) == offset_secs(t, e));
    } else if t.len() == e + 3 {
        assert(u[20] == t[e + 1] && u[21] == t[e + 2]);
        assert(two_digits(u, 20) == two_digits(t, e + 1));
        assert(offset_shape(u, 19));
        assert(offset_secs(u, 19) == offset_secs(t, e));
    } else {
        assert(t.len() == e + 6);
        assert(u[20] == t[e + 1] && u[21] == t[e + 2] && u[22] == t[e + 3]);
        assert(u[23] == t[e + 4] && u[24] == t[e + 5]);
        assert(two_digits(u, 20) == two_digits(t, e + 1));
        assert(two_digits(u, 23) == two_digits(t, e + 4));
        assert(offset_shape(u, 19));
        assert(offset_secs(u, 19) == offset_secs(t, e));
    }
    assert(iso_well_formed(u));
    assert(iso_instant(u) == iso_instant(t));
}

/// The digit value at position `i`, if a digit stands there.
fn digit_at(s: &str, i: usize) -> (r: Option<u64>)
    requires
        i < s@.len(),
    ensures
        match r {
            Some(v) => is_digit(s@[i as int]) && v == dval(s@[i as int]) && v <= 9,
            None => !is_digit(s@[i as int]),
        },
{
    let c = s.get_char(i);
    let u = c as u32;
    if 48 <= u && u <= 57 {
        Some((u - 48) as u64)
    } else {
        None
    }
}

/// The value of the two digits at `i`, if digits stand there.
fn two_at(s: &str, i: usize) -> (r: Option<u64>)
    requires
        i + 2 <= s@.len(),
        s@.len() <= usize::MAX as int,
    ensures
        match r {
            Some(v) => digits_in(s@, i as int, i as int + 2) && v == two_digits(s@, i as int)
                && v <= 99,
            None => !digits_in(s@, i as int, i as int + 2),
        },
{
    match digit_at(s, i) {
        None => None,
        Some(d0) => match digit_at(s, i + 1) {
            None => None,
            Some(d1) => {
                proof {
                    assert forall|k: int| i <= k < i + 2 implies is_digit(#[trigger] s@[k]) by {
                        if k == i {
                        } else {
                            assert(k == i + 1);
                        }
                    }
                }
                Some(10 * d0 + d1)
            },
        },
    }
}

/// The value of the four digits at `i`, if digits stand there.
fn four_at(s: &str, i: usize) -> (r: Option<u64>)
    requires
        i + 4 <= s@.len(),
        s@.len() <= usize::MAX as int,
    ensures
        match r {
            Some(v) => digits_in(s@, i as int, i as int + 4) && v == four_digits(s@, i as int)
                && v <= 9999,
            None => !digits_in(s@, i as int, i as int + 4),
        },
{
    match two_at(s, i) {
        None => {
            proof {
                assert(!is_digit(s@[i as int]) || !is_digit(s@[i as int + 1]));
            }
            None
        },
        Some(hi) => match two_at(s, i + 2) {
            None => {
                proof {
                    assert(!is_digit(s@[i as int + 2]) || !is_digit(s@[i as int + 3]));
                }
                None
            },
            Some(lo) => {
                proof {
                    assert forall|k: int| i <= k < i + 4 implies is_digit(#[trigger] s@[k]) by {
                        if k < i + 2 {
                        } else {
                        }
                    }
                }
                Some(100 * hi + lo)
            },
        },
    }
}

fn is_leap_year_exec(y: u64) -> (r: bool)
    ensures
        r == is_leap_year(y as int),
{
    y % 4 == 0 && (y % 100 != 0 || y % 400 == 0)
}

fn days_in_month_exec(y: u64, m: u64) -> (r: u64)
    requires
        1 <= m <= 12,
    ensures
        r as int == days_in_month(y as int, m as int),
{
    if m == 2 {
        if is_leap_year_exec(y) {
            29
        } else {
            28
        }
    } else if m == 4 || m == 6 || m == 9 || m == 11 {
        30
    } else {
        31
    }
}

/// Days from the Unix epoch to the given civil date.
fn days_from_civil_exec(y: u64, m: u64, d: u64) -> (r: i64)
    requires
        y <= 9999,
        1 <= m <= 12,
        1 <= d <= 31,
    ensures
        r as int == days_from_civil(y as int, m as int, d as int),
        -865565 <= r <= 4000000,
{
    let yy: u64 = if m <= 2 {
        y + 399
    } else {
        y + 400
    };
    let mp: u64 = if m <= 2 {
        m + 9
    } else {
        m - 3
    };
    let era: u64 = yy / 400;
    assert(era <= 25);
    let yoe: u64 = yy - era * 400;
    assert(yoe <= 399);
    let doy: u64 = (153 * mp + 2) / 5 + d - 1;
    let doe: u64 = yoe * 365 + yoe / 4 + doy - yoe / 100;
    assert(doe as int == yoe * 365 + yoe / 4 - yoe / 100 + (doy as int));
    (era * 146097 + doe) as i64 - 865565
}

/// The first position at or after `from` that does not hold a digit.
fn scan_digits(s: &str, from: usize, n: usize) -> (e: usize)
    requires
        n as nat == s@.len(),
        from <= n,
    ensures
        from <= e <= n,
        e as int == skip_digits(s@, from as int),
{
    let mut j: usize = from;
    loop
        invariant_except_break
            from <= j <= n,
            n as nat == s@.len(),
            skip_digits(s@, from as int) == skip_digits(s@, j as int),
        ensures
            from <= j <= n,
            skip_digits(s@, from as int) == j,
        decreases n - j,
    {
        if j == n {
            assert(skip_digits(s@, j as int) == j);
            break;
        }
        if digit_at(s, j).is_none() {
            assert(skip_digits(s@, j as int) == j);
            break;
        }
        j = j + 1;
    }
    j
}

/// Parses a timestamp to whole Unix seconds; reports nothing on any
/// malformed text.
pub fn parse_iso8601(s: &str) -> (r: Option<i64>)
    ensures
        r == spec_parse_iso8601(s@),
{
    let ghost t = s@;
    let n = s.unicode_len();
    if n < 19 {
        return None;
    }
    let y = match four_at(s, 0) {
        Some(v) => v,
        None => {
            return None;
        },
    };
    if s.get_char(4) != '-' {
        return None;
    }
    let mo = match two_at(s, 5) {
        Some(v) => v,
        None => {
            return None;
        },
    };
    if s.get_char(7) != '-' {
        return None;
    }
    let d = match two_at(s, 8) {
        Some(v) => v,
        None => {
            return None;
        },
    };
    if s.get_char(10) != 'T' {
        return None;
    }
    let h = match two_at(s, 11) {
        Some(v) => v,
        None => {
            return None;
        },
    };
    if s.get_char(13) != ':' {
        return None;
    }
    let mi = match two_at(s, 14) {
        Some(v) => v,
        None => {
            return None;
        },
    };
    if s.get_char(16) != ':' {
        return None;
    }
    let sec = match two_at(s, 17) {
        Some(v) => v,
        None => {
            return None;
        },
    };
    assert(base_shape(t));
    if mo < 1 || mo > 12 {
        return None;
    }
    if d < 1 || d > days_in_month_exec(y, mo) {
        return None;
    }
    if h > 23 || mi > 59 || sec > 59 {
        return None;
    }
    assert(fields_ok(t));

    // The optional fraction: a point and one or more digits.
    let mut p: usize = 19;
    if n > 19 && s.get_char(19) == '.' {
        let j = scan_digits(s, 20, n);
        if j == 20 {
            assert(!frac_ok(t));
            return None;
        }
        p = j;
        assert(p as int == frac_end(t));
    } else {
        assert(p as int == frac_end(t));
    }

    // The offset: `Z`, or a sign and `hh` or `hh:mm`.
    if p >= n {
        return None;
    }
    let c = s.get_char(p);
    let off: i64 = if c == 'Z' {
        if p + 1 != n {
            return None;
        }
        0
    } else if c == '+' || c == '-' {
        let rem = n - p;
        let mag: u64 = if rem == 3 {
            let oh = match two_at(s, p + 1) {
                Some(v) => v,
                None => {
                    return None;
                },
            };
            if oh > 23 {
                return None;
            }
            oh * 3600
        } else if rem == 6 {
            let oh = match two_at(s, p + 1) {
                Some(v) => v,
                None => {
                    return None;
                },
            };
            if oh > 23 {
                return None;
            }
            if s.get_char(p + 3) != ':' {
                return None;
            }
            let om = match two_at(s, p + 4) {
                Some(v) => v,
                None => {
                    return None;
                },
            };
            if om > 59 {
                return None;
            }
            oh * 3600 + om * 60
        } else {
            return None;
        };
        if c == '-' {
            -(mag as i64)
        } else {
            mag as i64
        }
    } else {
        return None;
    };
    assert(iso_well_formed(t));
    assert(off == offset_secs(t, frac_end(t)));

    let days = days_from_civil_exec(y, mo, d);
    let v: i64 = days * 86400 + (h as i64) * 3600 + (mi as i64) * 60 + (sec as i64) - off;
    assert(v == iso_instant(t));
    Some(v)
}

} // verus!
