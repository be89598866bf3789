use crate::err::Error;
use vstd::prelude::*;

verus! {

/// Whether `c` is one of the ten ASCII digits.
pub open spec fn is_digit(c: char) -> bool {
    '0' <= c <= '9'
}

/// The value of an ASCII digit.
pub open spec fn digit_value(c: char) -> int {
    c as int - '0' as int
}

/// The seconds in the unit that `c` stands for, if it stands for one.
pub open spec fn unit_seconds(c: char) -> Option<int> {
    if c == 'd' {
        Some(86400)
    } else if c == 'h' {
        Some(3600)
    } else if c == 'm' {
        Some(60)
    } else if c == 's' {
        Some(1)
    } else {
        None
    }
}

/// The number that the digits at the end of `s` spell, 0 where `s` does
/// not end in a digit.
pub open spec fn pending_number(s: Seq<char>) -> int
    decreases s.len(),
{
    if s.len() == 0 {
        0
    } else if is_digit(s.last()) {
        pending_number(s.drop_last()) * 10 + digit_value(s.last())
    } else {
        0
    }
}

/// The seconds in the terms of `s` that a unit closes.
pub open spec fn closed_seconds(s: Seq<char>) -> int
    decreases s.len(),
{
    if s.len() == 0 {
        0
    } else {
        match unit_seconds(s.last()) {
            Some(unit) => closed_seconds(s.drop_last()) + pending_number(s.drop_last()) * unit,
            None => closed_seconds(s.drop_last()),
        }
    }
}

/// The seconds that a duration such as `3h10m` spells: each number counts
/// in the unit that follows it (`d`, `h`, `m`, `s`), a number at the end
/// in seconds. `None` where another character occurs.
pub open spec fn duration_seconds(s: Seq<char>) -> Option<int> {
    if forall|i: int|
        0 <= i < s.len() ==> is_digit(#[trigger] s[i]) || unit_seconds(s[i]).is_some() {
        Some(closed_seconds(s) + pending_number(s))
    } else {
        None
    }
}

/// The message for a text that is no duration.
pub open spec fn invalid_duration_message(s: Seq<char>) -> Seq<char> {
    "Invalid duration definition: "@ + s
}

proof fn seconds_not_negative(s: Seq<char>)
    ensures
        pending_number(s) >= 0,
        closed_seconds(s) >= 0,
    decreases s.len(),
{
    if s.len() > 0 {
        seconds_not_negative(s.drop_last());
    }
}

/// The seconds of a prefix of a duration never exceed those of the whole.
proof fn seconds_grow(s: Seq<char>, k: int)
    requires
        0 <= k <= s.len(),
        duration_seconds(s).is_some(),
    ensures
        closed_seconds(s.take(k)) + pending_number(s.take(k)) <= closed_seconds(s)
            + pending_number(s),
    decreases s.len() - k,
{
    if k == s.len() {
        assert(s.take(k) == s);
    } else {
        seconds_grow(s, k + 1);
        let longer = s.take(k + 1);
        assert(longer.drop_last() == s.take(k));
        assert(longer.last() == s[k]);
        seconds_not_negative(s.take(k));
        let number = pending_number(s.take(k));
        assert(is_digit(s[k]) || unit_seconds(s[k]).is_some());
        if is_digit(s[k]) {
            assert(unit_seconds(s[k]).is_none());
            assert(pending_number(longer) == number * 10 + digit_value(s[k]));
        } else {
            let unit = unit_seconds(s[k]).unwrap();
            assert(unit == 86400 || unit == 3600 || unit == 60 || unit == 1);
            assert(closed_seconds(longer) == closed_seconds(s.take(k)) + number * unit);
            assert(number * unit >= number) by (nonlinear_arith)
                requires
                    number >= 0,
                    unit >= 1,
            ;
            assert(pending_number(longer) == 0);
        }
    }
}

fn invalid_duration(duration: &str) -> (message: String)
    ensures
        message@ == invalid_duration_message(duration@),
{
    let mut message = String::from_str("Invalid duration definition: ");
    message.append(duration);
    message
}

/// Reads a duration such as `3h10m` and gives its length in seconds.
///
/// Fails where a character is neither a digit nor a unit, and where the
/// length does not fit in a `u64`.
pub fn parse_duration(duration: &str) -> (parsed: Result<u64, String>)
    ensures
        match parsed {
            Ok(seconds) => duration_seconds(duration@) == Some(seconds as int),
            Err(message) => message@ == invalid_duration_message(duration@) && (duration_seconds(
                duration@,
            ) matches Some(seconds) ==> seconds > u64::MAX),
        },
{
    let ghost s = duration@;
    let count: usize = duration.unicode_len();
    let mut closed: u64 = 0;
    let mut pending: u64 = 0;
    let mut i: usize = 0;
    while i < count
        invariant
            s == duration@,
            i <= count == s.len(),
            duration_seconds(s.take(i as int)).is_some(),
            closed == closed_seconds(s.take(i as int)),
            pending == pending_number(s.take(i as int)),
        decreases count - i,
    {
        let c = duration.get_char(i);
        let ghost longer = s.take(i + 1);
        proof {
            assert(longer.drop_last() == s.take(i as int));
            assert forall|j: int| 0 <= j < i implies is_digit(#[trigger] longer[j]) || unit_seconds(
                longer[j],
            ).is_some() by {
                assert(longer[j] == s.take(i as int)[j]);
            }
            if duration_seconds(s).is_some() {
                seconds_grow(s, i + 1);
                assert(is_digit(s[i as int]) || unit_seconds(s[i as int]).is_some());
            }
            seconds_not_negative(s.take(i as int));
        }
        if c >= '0' && c <= '9' {
            let digit: u64 = (c as u32 - '0' as u32) as u64;
            let number = match pending.checked_mul(10) {
                Some(tens) => tens.checked_add(digit),
                None => None,
            };
            match number {
                Some(number) => {
                    pending = number;
                },
                None => {
                    return Err(invalid_duration(duration));
                },
            }
        } else {
            let unit: u64 = if c == 'd' {
                86400
            } else if c == 'h' {
                3600
            } else if c == 'm' {
                60
            } else if c == 's' {
                1
            } else {
                return Err(invalid_duration(duration));
            };
            let sum = match pending.checked_mul(unit) {
                Some(term) => closed.checked_add(term),
                None => None,
            };
            match sum {
                Some(sum) => {
                    closed = sum;
                    pending = 0;
                },
                None => {
                    return Err(invalid_duration(duration));
                },
            }
        }
        i += 1;
    }
    proof {
        assert(s.take(i as int) == s);
    }
    match closed.checked_add(pending) {
        Some(seconds) => Ok(seconds),
        None => Err(invalid_duration(duration)),
    }
}

/// Whether `char::is_numeric` holds of `c`: whether Unicode counts the
/// character among the numbers.
pub uninterp spec fn char_is_numeric(c: char) -> bool;

/// The URL that `url::Url::parse` reads from `input`, written out again,
/// or `None` where it reads none.
pub uninterp spec fn url_serialization(input: Seq<char>) -> Option<Seq<char>>;

/// Calls `char::is_numeric` of std. The contract only names the answer.
#[verifier::external_body]
fn is_numeric(c: char) -> (numeric: bool)
    ensures
        numeric == char_is_numeric(c),
{
    c.is_numeric()
}

/// Calls `url::Url::parse` and writes the URL out as text. The contract
/// only names the outcome: the text of the URL where the input is one,
/// nothing where the parser refuses it.
#[verifier::external_body]
fn url_text(urlarg: &str) -> (url: Option<String>)
    ensures
        match url {
            Some(text) => url_serialization(urlarg@) == Some(text@),
            None => url_serialization(urlarg@).is_none(),
        },
{
    match url::Url::parse(urlarg) {
        Ok(url) => Some(url.to_string()),
        Err(_) => None,
    }
}

/// Reads a URL and gives it as the URL parser writes it out; the error
/// holds the text in which the parser found no URL.
pub fn parse_url(urlarg: &str) -> (parsed: Result<String, Error>)
    ensures
        match parsed {
            Ok(text) => url_serialization(urlarg@) == Some(text@),
            Err(Error::InvalidUrl(text)) => url_serialization(urlarg@).is_none() && text@
                == urlarg@,
            Err(_) => false,
        },
{
    match url_text(urlarg) {
        Some(text) => Ok(text),
        None => Err(Error::InvalidUrl(String::from_str(urlarg))),
    }
}

/// The bytes that UTF-8 takes for `c`.
pub open spec fn utf8_width(c: char) -> int {
    if (c as u32) < 0x80 {
        1
    } else if (c as u32) < 0x800 {
        2
    } else if (c as u32) < 0x10000 {
        3
    } else {
        4
    }
}

/// The bytes that UTF-8 takes for the first `count` characters of `s`.
pub open spec fn byte_offset(s: Seq<char>, count: int) -> int
    decreases count,
{
    if count <= 0 {
        0
    } else {
        byte_offset(s, count - 1) + utf8_width(s[count - 1])
    }
}

/// Whether `at` is the place of the last colon in `s`.
pub open spec fn is_last_colon(s: Seq<char>, at: int) -> bool {
    &&& 0 <= at < s.len()
    &&& s[at] == ':'
    &&& forall|j: int| at < j < s.len() ==> #[trigger] s[j] != ':'
}

/// Whether every character of `s` from place `from` on is numeric.
pub open spec fn numeric_from(s: Seq<char>, from: int) -> bool {
    forall|j: int| from <= j < s.len() && 0 <= j ==> char_is_numeric(#[trigger] s[j])
}

/// Whether `s` names a host with a port: it holds a colon, and the port is
/// numeric. The port is taken to start as many characters into the text
/// as the last colon lies bytes into it, and one more: in ASCII text,
/// right behind that colon. A port may be empty.
pub open spec fn valid_tcp(s: Seq<char>) -> bool {
    exists|at: int| is_last_colon(s, at) && numeric_from(s, byte_offset(s, at) + 1)
}

proof fn byte_offset_bounds(s: Seq<char>, count: int)
    requires
        0 <= count,
    ensures
        count <= byte_offset(s, count) <= 4 * count,
    decreases count,
{
    if count > 0 {
        byte_offset_bounds(s, count - 1);
    }
}

fn width(c: char) -> (bytes: u128)
    ensures
        bytes == utf8_width(c),
{
    let code: u32 = c as u32;
    if code < 0x80 {
        1
    } else if code < 0x800 {
        2
    } else if code < 0x10000 {
        3
    } else {
        4
    }
}

/// Verifies that the host or address ends in a colon and a numeric port.
pub fn validate_tcp(hostarg: &str) -> (valid: bool)
    ensures
        valid == valid_tcp(hostarg@),
{
    let ghost s = hostarg@;
    let count: usize = hostarg.unicode_len();
    // The place of the last colon in bytes, and whether there is one.
    let mut found: bool = false;
    let mut colon: u128 = 0;
    let mut bytes: u128 = 0;
    let ghost mut at: int = 0;
    let mut i: usize = 0;
    while i < count
        invariant
            s == hostarg@,
            i <= count == s.len(),
            bytes == byte_offset(s, i as int),
            found ==> 0 <= at < i && s[at] == ':' && colon == byte_offset(s, at) && (forall|j: int|
                at < j < i ==> #[trigger] s[j] != ':'),
            !found ==> forall|j: int| 0 <= j < i ==> #[trigger] s[j] != ':',
        decreases count - i,
    {
        let c = hostarg.get_char(i);
        proof {
            byte_offset_bounds(s, i as int);
        }
        if c == ':' {
            found = true;
            colon = bytes;
            proof {
                at = i as int;
            }
        }
        bytes = bytes + width(c);
        i += 1;
    }
    if !found {
        assert(!valid_tcp(s)) by {
            if valid_tcp(s) {
                let k = choose|k: int|
                    is_last_colon(s, k) && numeric_from(s, byte_offset(s, k) + 1);
                assert(s[k] == ':');
            }
        }
        return false;
    }
    assert(is_last_colon(s, at));
    assert forall|k: int| is_last_colon(s, k) implies k == at by {
        if k < at {
            assert(s[at] != ':');
        } else if at < k {
            assert(s[k] != ':');
        }
    }
    let mut j: usize = 0;
    while j < count
        invariant
            s == hostarg@,
            j <= count == s.len(),
            colon == byte_offset(s, at),
            is_last_colon(s, at),
            forall|k: int| is_last_colon(s, k) ==> k == at,
            forall|k: int| colon + 1 <= k < j ==> char_is_numeric(#[trigger] s[k]),
        decreases count - j,
    {
        if j as u128 > colon {
            if !is_numeric(hostarg.get_char(j)) {
                assert(!numeric_from(s, byte_offset(s, at) + 1)) by {
                    assert(!char_is_numeric(s[j as int]));
                }
                return false;
            }
        }
        j += 1;
    }
    assert(numeric_from(s, byte_offset(s, at) + 1));
    true
}

/// Whether `s` starts with a status: three digits and a comma, with
/// something behind them.
pub open spec fn has_status(s: Seq<char>) -> bool {
    s.len() > 4 && is_digit(s[0]) && is_digit(s[1]) && is_digit(s[2]) && s[3] == ','
}

/// The status that a response is to have: the one that `s` starts with,
/// 200 where it starts with none.
pub open spec fn http_status(s: Seq<char>) -> int {
    if has_status(s) {
        100 * digit_value(s[0]) + 10 * digit_value(s[1]) + digit_value(s[2])
    } else {
        200
    }
}

/// The address in `s`: what stands behind the status, all of `s` where it
/// starts with none.
pub open spec fn http_target(s: Seq<char>) -> Seq<char> {
    if has_status(s) {
        s.subrange(4, s.len() as int)
    } else {
        s
    }
}

fn digit(c: char) -> (value: Option<u16>)
    ensures
        match value {
            Some(d) => is_digit(c) && d == digit_value(c),
            None => !is_digit(c),
        },
{
    if c >= '0' && c <= '9' {
        Some((c as u32 - '0' as u32) as u16)
    } else {
        None
    }
}

/// Splits the argument of an HTTP condition, such as `404,http://host/`,
/// into the expected status and the address as it was written.
pub fn split_http_get(urlarg: &str) -> (parts: (u16, &str))
    ensures
        parts.0 == http_status(urlarg@),
        parts.1@ == http_target(urlarg@),
{
    let count: usize = urlarg.unicode_len();
    if count > 4 && urlarg.get_char(3) == ',' {
        match (digit(urlarg.get_char(0)), digit(urlarg.get_char(1)), digit(urlarg.get_char(2))) {
            (Some(hundreds), Some(tens), Some(ones)) => {
                return (100 * hundreds + 10 * tens + ones, urlarg.substring_char(4, count));
            },
            _ => {},
        }
    }
    (200, urlarg)
}

/// The address to probe: the URL as the parser writes it out, or the
/// text as it stands where the parser reads no URL from it.
pub fn normalized_or_raw(parsed: Result<String, Error>, raw: &str) -> (url: String)
    ensures
        url@ == match parsed {
            Ok(text) => text@,
            Err(_) => raw@,
        },
{
    match parsed {
        Ok(text) => text,
        Err(_) => String::from_str(raw),
    }
}

/// The address that an HTTP condition on `s` probes.
pub open spec fn http_url(s: Seq<char>) -> Seq<char> {
    match url_serialization(http_target(s)) {
        Some(text) => text,
        None => http_target(s),
    }
}

/// Reads the argument of an HTTP condition into the expected status and
/// the URL to probe. The URL is written as the URL parser normalizes it;
/// where the parser refuses the text, the text is used as it stands.
pub fn parse_http_get(urlarg: &str) -> (parts: (u16, String))
    ensures
        parts.0 == http_status(urlarg@),
        parts.1@ == http_url(urlarg@),
{
    let (status, target) = split_http_get(urlarg);
    (status, normalized_or_raw(parse_url(target), target))
}

} // verus!
