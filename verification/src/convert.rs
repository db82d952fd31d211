//! From an attribute's text to a typed value.
use vstd::prelude::*;
use crate::chars::{chars_of, ends_with, has_suffix, is_word, without_last};
use crate::error::{fails_with, invalid, ParseError};
use crate::number::{is_decimal, read_number, Number};
use crate::style::{measure_of, Color, FlexDirection, FlexWrap, Unit, Val, ValModel};

verus! {

/// A boolean is one of the words `true`, `1`, `false`, `0`.
pub open spec fn bool_of(s: Seq<char>) -> Result<bool, Seq<char>> {
    if s == "true"@ || s == "1"@ {
        Ok(true)
    } else if s == "false"@ || s == "0"@ {
        Ok(false)
    } else {
        Err("Invalid boolean value: "@ + s)
    }
}

/// A flex direction is one of four keywords.
pub open spec fn direction_of(s: Seq<char>) -> Result<FlexDirection, Seq<char>> {
    if s == "row"@ {
        Ok(FlexDirection::Row)
    } else if s == "column"@ {
        Ok(FlexDirection::Column)
    } else if s == "row-reverse"@ {
        Ok(FlexDirection::RowReverse)
    } else if s == "column-reverse"@ {
        Ok(FlexDirection::ColumnReverse)
    } else {
        Err("Invalid flex direction: "@ + s)
    }
}

/// A flex wrap is one of three keywords.
pub open spec fn wrap_of(s: Seq<char>) -> Result<FlexWrap, Seq<char>> {
    if s == "nowrap"@ {
        Ok(FlexWrap::NoWrap)
    } else if s == "wrap"@ {
        Ok(FlexWrap::Wrap)
    } else if s == "wrap-reverse"@ {
        Ok(FlexWrap::WrapReverse)
    } else {
        Err("Invalid flex wrap: "@ + s)
    }
}

/// A number is kept as it is spelled, where that spells a decimal number.
pub open spec fn number_of(s: Seq<char>) -> Result<Seq<char>, Seq<char>> {
    if is_decimal(s) {
        Ok(s)
    } else {
        Err("Invalid float value: "@ + s)
    }
}

/// `s` without `suffix` must spell a number, which is then in `unit`;
/// otherwise the message is `complaint` followed by all of `s`.
pub open spec fn measured(s: Seq<char>, suffix: Seq<char>, unit: Unit, complaint: Seq<char>) -> Result<
    ValModel,
    Seq<char>,
> {
    let n = without_last(s, suffix.len() as int);
    if is_decimal(n) {
        Ok(measure_of(unit, n))
    } else {
        Err(complaint + s)
    }
}

/// A dimension goes by its ending: `%`, `px`, `vmin`, `vmax`, `vh`, `vw`,
/// tried in this order; then the word `auto`; then a bare number of pixels.
pub open spec fn val_of(s: Seq<char>) -> Result<ValModel, Seq<char>> {
    if has_suffix(s, "%"@) {
        measured(s, "%"@, Unit::Percent, "Invalid percentage value: "@)
    } else if has_suffix(s, "px"@) {
        measured(s, "px"@, Unit::Px, "Invalid pixel value: "@)
    } else if has_suffix(s, "vmin"@) {
        measured(s, "vmin"@, Unit::VMin, "Invalid percentage value: "@)
    } else if has_suffix(s, "vmax"@) {
        measured(s, "vmax"@, Unit::VMax, "Invalid percentage value: "@)
    } else if has_suffix(s, "vh"@) {
        measured(s, "vh"@, Unit::Vh, "Invalid percentage value: "@)
    } else if has_suffix(s, "vw"@) {
        measured(s, "vw"@, Unit::Vw, "Invalid percentage value: "@)
    } else if s == "auto"@ {
        Ok(ValModel::Auto)
    } else {
        measured(s, Seq::<char>::empty(), Unit::Px, "Invalid pixel value: "@)
    }
}

/// The value of one hexadecimal digit.
pub open spec fn hex_digit(c: char) -> Option<u8> {
    if '0' <= c && c <= '9' {
        Some((c as u8 - '0' as u8) as u8)
    } else if 'a' <= c && c <= 'f' {
        Some((c as u8 - 'a' as u8 + 10) as u8)
    } else if 'A' <= c && c <= 'F' {
        Some((c as u8 - 'A' as u8 + 10) as u8)
    } else {
        None
    }
}

/// The byte that two hexadecimal digits spell.
pub open spec fn hex_byte(high: char, low: char) -> Option<u8> {
    match (hex_digit(high), hex_digit(low)) {
        (Some(h), Some(l)) => Some((h * 16 + l) as u8),
        _ => None,
    }
}

/// A colour is `#` and six or eight hexadecimal digits; six leave the
/// colour opaque.
pub open spec fn color_of(s: Seq<char>) -> Result<Color, Seq<char>> {
    if s.len() == 7 && s[0] == '#' {
        match (hex_byte(s[1], s[2]), hex_byte(s[3], s[4]), hex_byte(s[5], s[6])) {
            (Some(r), Some(g), Some(b)) => Ok(Color { red: r, green: g, blue: b, alpha: 255 }),
            _ => Err("Invalid color: "@ + s),
        }
    } else if s.len() == 9 && s[0] == '#' {
        match (
            hex_byte(s[1], s[2]),
            hex_byte(s[3], s[4]),
            hex_byte(s[5], s[6]),
            hex_byte(s[7], s[8]),
        ) {
            (Some(r), Some(g), Some(b), Some(a)) => Ok(
                Color { red: r, green: g, blue: b, alpha: a },
            ),
            _ => Err("Invalid color: "@ + s),
        }
    } else {
        Err("Invalid color format: "@ + s)
    }
}

/// Each conversion returns the value that its rule gives, or the
/// invalid-format error with the message that its rule gives.
pub fn convert_bool(s: &str) -> (res: Result<bool, ParseError>)
    ensures
        match bool_of(s@) {
            Ok(b) => res == Ok::<bool, ParseError>(b),
            Err(e) => fails_with(res, e),
        },
{
    let v = chars_of(s);
    if is_word(&v, "true") || is_word(&v, "1") {
        Ok(true)
    } else if is_word(&v, "false") || is_word(&v, "0") {
        Ok(false)
    } else {
        invalid("Invalid boolean value: ", s)
    }
}

pub fn convert_flex_direction(s: &str) -> (res: Result<FlexDirection, ParseError>)
    ensures
        match direction_of(s@) {
            Ok(d) => res == Ok::<FlexDirection, ParseError>(d),
            Err(e) => fails_with(res, e),
        },
{
    let v = chars_of(s);
    if is_word(&v, "row") {
        Ok(FlexDirection::Row)
    } else if is_word(&v, "column") {
        Ok(FlexDirection::Column)
    } else if is_word(&v, "row-reverse") {
        Ok(FlexDirection::RowReverse)
    } else if is_word(&v, "column-reverse") {
        Ok(FlexDirection::ColumnReverse)
    } else {
        invalid("Invalid flex direction: ", s)
    }
}

pub fn convert_flex_wrap(s: &str) -> (res: Result<FlexWrap, ParseError>)
    ensures
        match wrap_of(s@) {
            Ok(w) => res == Ok::<FlexWrap, ParseError>(w),
            Err(e) => fails_with(res, e),
        },
{
    let v = chars_of(s);
    if is_word(&v, "nowrap") {
        Ok(FlexWrap::NoWrap)
    } else if is_word(&v, "wrap") {
        Ok(FlexWrap::Wrap)
    } else if is_word(&v, "wrap-reverse") {
        Ok(FlexWrap::WrapReverse)
    } else {
        invalid("Invalid flex wrap: ", s)
    }
}

pub fn convert_number(s: &str) -> (res: Result<Number, ParseError>)
    ensures
        match number_of(s@) {
            Ok(m) => res matches Ok(n) && n@ == m,
            Err(e) => fails_with(res, e),
        },
{
    let v = chars_of(s);
    assert(v@.take(v@.len() as int) =~= v@);
    match read_number(&v, v.len()) {
        Some(n) => Ok(n),
        None => invalid("Invalid float value: ", s),
    }
}

fn convert_measure(s: &str, v: &Vec<char>, suffix: &str, unit: Unit, complaint: &str) -> (res: Result<
    Val,
    ParseError,
>)
    requires
        v@ == s@,
        suffix@.len() <= s@.len(),
    ensures
        match measured(s@, suffix@, unit, complaint@) {
            Ok(m) => res matches Ok(val) && val@ == m,
            Err(e) => fails_with(res, e),
        },
{
    let cut: usize = suffix.unicode_len();
    match read_number(v, v.len() - cut) {
        Some(n) => Ok(Val::measure(unit, n)),
        None => invalid(complaint, s),
    }
}

pub fn convert_val(s: &str) -> (res: Result<Val, ParseError>)
    ensures
        match val_of(s@) {
            Ok(m) => res matches Ok(val) && val@ == m,
            Err(e) => fails_with(res, e),
        },
{
    let v = chars_of(s);
    if ends_with(&v, "%") {
        convert_measure(s, &v, "%", Unit::Percent, "Invalid percentage value: ")
    } else if ends_with(&v, "px") {
        convert_measure(s, &v, "px", Unit::Px, "Invalid pixel value: ")
    } else if ends_with(&v, "vmin") {
        convert_measure(s, &v, "vmin", Unit::VMin, "Invalid percentage value: ")
    } else if ends_with(&v, "vmax") {
        convert_measure(s, &v, "vmax", Unit::VMax, "Invalid percentage value: ")
    } else if ends_with(&v, "vh") {
        convert_measure(s, &v, "vh", Unit::Vh, "Invalid percentage value: ")
    } else if ends_with(&v, "vw") {
        convert_measure(s, &v, "vw", Unit::Vw, "Invalid percentage value: ")
    } else if is_word(&v, "auto") {
        Ok(Val::Auto)
    } else {
        proof {
            reveal_strlit("");
        }
        convert_measure(s, &v, "", Unit::Px, "Invalid pixel value: ")
    }
}

fn read_hex_digit(c: char) -> (res: Option<u8>)
    ensures
        res == hex_digit(c),
{
    if '0' <= c && c <= '9' {
        Some(c as u8 - '0' as u8)
    } else if 'a' <= c && c <= 'f' {
        Some(c as u8 - 'a' as u8 + 10)
    } else if 'A' <= c && c <= 'F' {
        Some(c as u8 - 'A' as u8 + 10)
    } else {
        None
    }
}

fn read_hex_byte(high: char, low: char) -> (res: Option<u8>)
    ensures
        res == hex_byte(high, low),
{
    match (read_hex_digit(high), read_hex_digit(low)) {
        (Some(h), Some(l)) => Some(h * 16 + l),
        _ => None,
    }
}

pub fn convert_color(s: &str) -> (res: Result<Color, ParseError>)
    ensures
        match color_of(s@) {
            Ok(c) => res == Ok::<Color, ParseError>(c),
            Err(e) => fails_with(res, e),
        },
{
    let v = chars_of(s);
    if v.len() == 7 && v[0] == '#' {
        match (read_hex_byte(v[1], v[2]), read_hex_byte(v[3], v[4]), read_hex_byte(v[5], v[6])) {
            (Some(r), Some(g), Some(b)) => Ok(Color { red: r, green: g, blue: b, alpha: 255 }),
            _ => invalid("Invalid color: ", s),
        }
    } else if v.len() == 9 && v[0] == '#' {
        match (
            read_hex_byte(v[1], v[2]),
            read_hex_byte(v[3], v[4]),
            read_hex_byte(v[5], v[6]),
            read_hex_byte(v[7], v[8]),
        ) {
            (Some(r), Some(g), Some(b), Some(a)) => Ok(
                Color { red: r, green: g, blue: b, alpha: a },
            ),
            _ => invalid("Invalid color: ", s),
        }
    } else {
        invalid("Invalid color format: ", s)
    }
}

} // verus!
