//! Command-line options. The issuer takes named flags, each followed by its
//! value, with defaults for the flags not given. The validator takes the
//! license file and the host to check by position.

use crate::args::{arg_texts, arg_value, get_arg};
use crate::issuer::{IssueParams, IssueRequest};
use crate::tier::LicenseType;
use vstd::prelude::*;
use vstd::string::StrSliceExecFns;

verus! {

/// The number of days that a license runs for where none is asked for.
pub const DEFAULT_DAYS: i64 = 30;

/// Whether a character is white space, as Unicode defines it.
pub open spec fn is_space(c: char) -> bool {
    c == ' ' || ('\u{9}' <= c && c <= '\u{d}') || c == '\u{85}' || c == '\u{a0}' || c == '\u{1680}' || (
    '\u{2000}' <= c && c <= '\u{200a}') || c == '\u{2028}' || c == '\u{2029}' || c == '\u{202f}' || c
        == '\u{205f}' || c == '\u{3000}'
}

/// A text without the white space that it begins with.
pub open spec fn without_leading_space(text: Seq<char>) -> Seq<char>
    decreases text.len(),
{
    if text.len() > 0 && is_space(text[0]) {
        without_leading_space(text.drop_first())
    } else {
        text
    }
}

/// A text without the white space that it ends with.
pub open spec fn without_trailing_space(text: Seq<char>) -> Seq<char>
    decreases text.len(),
{
    if text.len() > 0 && is_space(text.last()) {
        without_trailing_space(text.drop_last())
    } else {
        text
    }
}

/// A text without the white space around it.
pub open spec fn trimmed(text: Seq<char>) -> Seq<char> {
    without_trailing_space(without_leading_space(text))
}

/// The fields of a text that separates them by commas, read from the left:
/// every comma ends a field and begins the next, so a text with `n` commas
/// has `n + 1` fields, of which any may be empty.
pub open spec fn comma_fields(text: Seq<char>) -> Seq<Seq<char>>
    decreases text.len(),
{
    if text.len() == 0 {
        seq![Seq::<char>::empty()]
    } else {
        let before = comma_fields(text.drop_last());
        if text.last() == ',' {
            before.push(Seq::<char>::empty())
        } else {
            before.update(before.len() - 1, before.last().push(text.last()))
        }
    }
}

/// The host names of a comma-separated list, each without the white space around it.
pub open spec fn domain_list(text: Seq<char>) -> Seq<Seq<char>> {
    Seq::new(comma_fields(text).len(), |i: int| trimmed(comma_fields(text)[i]))
}

/// The value of a decimal digit; `None` for any other character.
pub open spec fn digit_value(c: char) -> Option<int> {
    if '0' <= c && c <= '9' {
        Some(c as int - '0' as int)
    } else {
        None
    }
}

/// The number that a text of decimal digits writes; `None` for the empty
/// text and for a text with any other character in it.
pub open spec fn digits_value(text: Seq<char>) -> Option<int>
    decreases text.len(),
{
    if text.len() == 0 {
        None
    } else if text.len() == 1 {
        digit_value(text[0])
    } else {
        match (digits_value(text.drop_last()), digit_value(text.last())) {
            (Some(high), Some(low)) => Some(high * 10 + low),
            _ => None,
        }
    }
}

/// The integer that a text writes in decimal, with `+`, `-` or nothing
/// before the digits; `None` where the text is not of that form or the
/// integer does not fit 64 bits.
pub open spec fn integer_value(text: Seq<char>) -> Option<i64> {
    let negative = text.len() > 0 && text[0] == '-';
    let signed = text.len() > 0 && (text[0] == '-' || text[0] == '+');
    let digits = if signed {
        text.drop_first()
    } else {
        text
    };
    signed_value(negative, digits)
}

/// The integer that digits write after a sign; `None` where they write
/// none or it does not fit 64 bits.
pub open spec fn signed_value(negative: bool, digits: Seq<char>) -> Option<i64> {
    match digits_value(digits) {
        Some(value) => {
            let number = if negative {
                -value
            } else {
                value
            };
            if i64::MIN <= number <= i64::MAX {
                Some(number as i64)
            } else {
                None
            }
        },
        None => None,
    }
}

/// The value of a named option, or a default where the option is not given.
pub open spec fn option_or(args: Seq<Seq<char>>, flag: Seq<char>, default: Seq<char>) -> Seq<char> {
    match arg_value(args, flag) {
        Some(value) => value,
        None => default,
    }
}

/// The number of days that the arguments ask for: the integer after
/// `--days`, and 30 where there is none or it is no integer.
pub open spec fn days_option(args: Seq<Seq<char>>) -> i64 {
    match arg_value(args, "--days"@) {
        Some(text) => match integer_value(text) {
            Some(days) => days,
            None => DEFAULT_DAYS,
        },
        None => DEFAULT_DAYS,
    }
}

/// The license that the arguments ask for. Each of `--licensee`, `--email`,
/// `--type`, `--domains` and `--days` has a default. A type that names no
/// tier asks for the most restrictive tier.
pub open spec fn issue_request(args: Seq<Seq<char>>) -> IssueRequest {
    IssueRequest {
        licensee: option_or(args, "--licensee"@, "Demo User"@),
        email: option_or(args, "--email"@, "demo@example.com"@),
        license_type: LicenseType::spec_from_name_or_trial(option_or(args, "--type"@, "trial"@)),
        domains: domain_list(option_or(args, "--domains"@, "localhost"@)),
        days: days_option(args),
    }
}

/// The license file that the validator's arguments name: the first argument
/// after the program's name, and `license.key` where there is none.
pub open spec fn license_path(args: Seq<Seq<char>>) -> Seq<char> {
    if args.len() > 1 {
        args[1]
    } else {
        "license.key"@
    }
}

/// The host that the validator's arguments ask about: the second argument
/// after the program's name, if there is one.
pub open spec fn domain_asked(args: Seq<Seq<char>>) -> Option<Seq<char>> {
    if args.len() > 2 {
        Some(args[2])
    } else {
        None
    }
}

/// One more digit after digits that write a number.
proof fn lemma_next_digit(text: Seq<char>, at: int, value: int)
    requires
        0 <= at < text.len(),
        at == 0 ==> value == 0,
        at > 0 ==> digits_value(text.take(at)) == Some(value),
        digit_value(text[at]) is Some,
    ensures
        digits_value(text.take(at + 1)) == Some(value * 10 + digit_value(text[at])->Some_0),
{
    assert(text.take(at + 1).drop_last() =~= text.take(at));
    assert(text.take(at + 1).last() == text[at]);
}

/// A text with a character that is no digit writes no number.
proof fn lemma_bad_digit_spoils(text: Seq<char>, at: int)
    requires
        0 <= at < text.len(),
        digit_value(text[at]) is None,
    ensures
        digits_value(text) is None,
    decreases text.len(),
{
    if text.len() > 1 && at < text.len() - 1 {
        lemma_bad_digit_spoils(text.drop_last(), at);
    }
}

/// The number that a text of digits writes is no less than the number that
/// any of its beginnings writes.
proof fn lemma_digits_only_grow(text: Seq<char>, len: int)
    requires
        0 < len <= text.len(),
    ensures
        digits_value(text) matches Some(value) ==> digits_value(text.take(len)) matches Some(part) && 0
            <= part <= value,
    decreases text.len(),
{
    if len == text.len() {
        assert(text.take(len) =~= text);
        lemma_digits_are_natural(text);
    } else if digits_value(text) is Some {
        assert(text.drop_last().take(len) =~= text.take(len));
        lemma_digits_only_grow(text.drop_last(), len);
        lemma_digits_are_natural(text.drop_last());
    }
}

/// A text of digits writes a number that is not negative.
proof fn lemma_digits_are_natural(text: Seq<char>)
    ensures
        digits_value(text) matches Some(value) ==> value >= 0,
    decreases text.len(),
{
    if text.len() > 1 {
        lemma_digits_are_natural(text.drop_last());
    }
}

/// Whether a character is white space.
pub fn is_white_space(c: char) -> (space: bool)
    ensures
        space == is_space(c),
{
    c == ' ' || ('\u{9}' <= c && c <= '\u{d}') || c == '\u{85}' || c == '\u{a0}' || c == '\u{1680}' || (
    '\u{2000}' <= c && c <= '\u{200a}') || c == '\u{2028}' || c == '\u{2029}' || c == '\u{202f}' || c
        == '\u{205f}' || c == '\u{3000}'
}

/// The part of a text from `from` up to `to`, counted in characters, without
/// the white space around it.
fn trimmed_part(text: &str, from: usize, to: usize) -> (part: String)
    requires
        from <= to <= text@.len(),
    ensures
        part@ == trimmed(text@.subrange(from as int, to as int)),
{
    let ghost whole = text@.subrange(from as int, to as int);
    let mut first: usize = from;
    while first < to && is_white_space(text.get_char(first))
        invariant
            from <= first <= to <= text@.len(),
            without_leading_space(whole) == without_leading_space(
                text@.subrange(first as int, to as int),
            ),
        decreases to - first,
    {
        assert(text@.subrange(first as int, to as int).drop_first() =~= text@.subrange(
            first + 1,
            to as int,
        ));
        first += 1;
    }
    let ghost inner = text@.subrange(first as int, to as int);
    assert(without_leading_space(whole) == inner);
    let mut last: usize = to;
    while last > first && is_white_space(text.get_char(last - 1))
        invariant
            first <= last <= to <= text@.len(),
            without_trailing_space(inner) == without_trailing_space(
                text@.subrange(first as int, last as int),
            ),
        decreases last - first,
    {
        assert(text@.subrange(first as int, last as int).drop_last() =~= text@.subrange(
            first as int,
            last - 1,
        ));
        last -= 1;
    }
    text.substring_char(first, last).to_owned()
}

/// Splits a comma-separated list of host names and takes the white space
/// off each name. The list of an empty text holds one empty name.
pub fn split_domains(list: &str) -> (domains: Vec<String>)
    ensures
        domains.deep_view() == domain_list(list@),
{
    let len = list.unicode_len();
    let mut domains: Vec<String> = Vec::new();
    let mut start: usize = 0;
    let mut i: usize = 0;
    assert(list@.take(0) =~= Seq::<char>::empty());
    while i < len
        invariant
            start <= i <= len,
            len == list@.len(),
            comma_fields(list@.take(i as int)).len() == domains.len() + 1,
            comma_fields(list@.take(i as int)).last() == list@.subrange(start as int, i as int),
            forall|k: int|
                0 <= k < domains.len() ==> (#[trigger] domains@[k])@ == trimmed(
                    comma_fields(list@.take(i as int))[k],
                ),
        decreases len - i,
    {
        assert(list@.take(i + 1).drop_last() =~= list@.take(i as int));
        assert(list@.take(i + 1).last() == list@[i as int]);
        if list.get_char(i) == ',' {
            domains.push(trimmed_part(list, start, i));
            start = i + 1;
            assert(list@.subrange(start as int, start as int) =~= Seq::<char>::empty());
        } else {
            assert(list@.subrange(start as int, i as int).push(list@[i as int]) =~= list@.subrange(
                start as int,
                i + 1,
            ));
        }
        i += 1;
    }
    assert(list@.take(len as int) =~= list@);
    domains.push(trimmed_part(list, start, len));
    assert(domains.deep_view() =~= domain_list(list@));
    domains
}

/// Reads an integer written in decimal, with `+`, `-` or nothing before the
/// digits. `None` where the text is not of that form, white space included,
/// or the integer does not fit 64 bits.
pub fn parse_integer(text: &str) -> (number: Option<i64>)
    ensures
        number == integer_value(text@),
{
    let len = text.unicode_len();
    if len == 0 {
        return None;
    }
    let sign = text.get_char(0);
    let negative = sign == '-';
    let start: usize = if sign == '-' || sign == '+' { 1 } else { 0 };
    let ghost digits = text@.subrange(start as int, len as int);
    assert(start == 1 ==> digits =~= text@.drop_first());
    assert(start == 0 ==> digits =~= text@);
    if start == len {
        return None;
    }
    let mut value: i128 = 0;
    let mut i: usize = start;
    while i < len
        invariant
            start <= i <= len,
            len == text@.len(),
            len > 0,
            start <= 1,
            digits == text@.subrange(start as int, len as int),
            integer_value(text@) == signed_value(text@[0] == '-', digits),
            0 <= value <= 0x8000_0000_0000_0000,
            i == start ==> value == 0,
            i > start ==> digits_value(digits.take(i - start)) == Some(value as int),
        decreases len - i,
    {
        let c = text.get_char(i);
        assert(digits[i - start] == c);
        if !('0' <= c && c <= '9') {
            proof {
                lemma_bad_digit_spoils(digits, i - start);
            }
            return None;
        }
        let low: u8 = c as u8 - 48u8;
        proof {
            lemma_next_digit(digits, i - start, value as int);
        }
        value = value * 10 + low as i128;
        if value > 0x8000_0000_0000_0000 {
            proof {
                lemma_digits_only_grow(digits, i - start + 1);
            }
            return None;
        }
        i += 1;
    }
    assert(digits.take(len - start) =~= digits);
    if negative {
        Some((-value) as i64)
    } else if value > 0x7fff_ffff_ffff_ffff {
        None
    } else {
        Some(value as i64)
    }
}

/// The value of the option named `flag`, or `default` where it is not given.
pub fn arg_or(args: &[String], flag: &str, default: &str) -> (value: String)
    ensures
        value@ == option_or(arg_texts(args@), flag@, default@),
{
    match get_arg(args, flag) {
        Some(value) => value,
        None => default.to_owned(),
    }
}

/// Reads from the issuer's arguments what license is asked for.
pub fn issue_params_from_args(args: &[String]) -> (params: IssueParams)
    ensures
        params@ == issue_request(arg_texts(args@)),
{
    let days = match get_arg(args, "--days") {
        Some(text) => match parse_integer(text.as_str()) {
            Some(days) => days,
            None => DEFAULT_DAYS,
        },
        None => DEFAULT_DAYS,
    };
    let tier = arg_or(args, "--type", "trial");
    let domains = arg_or(args, "--domains", "localhost");
    IssueParams {
        licensee: arg_or(args, "--licensee", "Demo User"),
        email: arg_or(args, "--email", "demo@example.com"),
        license_type: LicenseType::from_name_or_trial(tier.as_str()),
        domains: split_domains(domains.as_str()),
        days,
    }
}

/// Reads from the issuer's arguments where the license file is to go:
/// the value of `--output`, and `license.key` where it is not given.
pub fn output_from_args(args: &[String]) -> (output: String)
    ensures
        output@ == option_or(arg_texts(args@), "--output"@, "license.key"@),
{
    arg_or(args, "--output", "license.key")
}

/// Reads from the validator's arguments which license file to validate.
pub fn license_path_from_args(args: &[String]) -> (path: String)
    ensures
        path@ == license_path(arg_texts(args@)),
{
    if args.len() > 1 {
        args[1].clone()
    } else {
        "license.key".to_owned()
    }
}

/// Reads from the validator's arguments which host to validate the license for.
pub fn domain_from_args(args: &[String]) -> (domain: Option<String>)
    ensures
        domain is Some ==> domain_asked(arg_texts(args@)) == Some(domain->Some_0@),
        domain is None ==> domain_asked(arg_texts(args@)).is_none(),
{
    if args.len() > 2 {
        Some(args[2].clone())
    } else {
        None
    }
}

} // verus!
