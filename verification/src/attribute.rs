//! Reading one attribute of an element into one field.
use vstd::prelude::*;
use crate::convert::{
    bool_of, color_of, convert_bool, convert_color, convert_flex_direction, convert_flex_wrap,
    convert_number, convert_val, direction_of, number_of, val_of, wrap_of,
};
use crate::error::{fails_with, ParseError};
use crate::number::Number;
use crate::style::{Color, FlexDirection, FlexWrap, Val, ValModel};
use crate::xml::{attribute_value, XmlNode};

verus! {

/// What a field holds after the attribute `name` was looked at: what the
/// attribute's text converts to where the element has the attribute, and
/// what the field held before where it has not. The same holds of each kind
/// of field below.
pub open spec fn bool_attribute(x: XmlNode, name: Seq<char>, current: bool) -> Result<
    bool,
    Seq<char>,
> {
    match attribute_value(x, name) {
        Some(v) => bool_of(v),
        None => Ok(current),
    }
}

pub open spec fn direction_attribute(x: XmlNode, name: Seq<char>, current: FlexDirection) -> Result<
    FlexDirection,
    Seq<char>,
> {
    match attribute_value(x, name) {
        Some(v) => direction_of(v),
        None => Ok(current),
    }
}

pub open spec fn wrap_attribute(x: XmlNode, name: Seq<char>, current: FlexWrap) -> Result<
    FlexWrap,
    Seq<char>,
> {
    match attribute_value(x, name) {
        Some(v) => wrap_of(v),
        None => Ok(current),
    }
}

pub open spec fn number_attribute(x: XmlNode, name: Seq<char>, current: Seq<char>) -> Result<
    Seq<char>,
    Seq<char>,
> {
    match attribute_value(x, name) {
        Some(v) => number_of(v),
        None => Ok(current),
    }
}

pub open spec fn val_attribute(x: XmlNode, name: Seq<char>, current: ValModel) -> Result<
    ValModel,
    Seq<char>,
> {
    match attribute_value(x, name) {
        Some(v) => val_of(v),
        None => Ok(current),
    }
}

pub open spec fn color_attribute(x: XmlNode, name: Seq<char>, current: Color) -> Result<
    Color,
    Seq<char>,
> {
    match attribute_value(x, name) {
        Some(v) => color_of(v),
        None => Ok(current),
    }
}

/// A colour that may be missing: a present attribute always gives `Some`.
pub open spec fn optional_color_attribute(
    x: XmlNode,
    name: Seq<char>,
    current: Option<Color>,
) -> Result<Option<Color>, Seq<char>> {
    match attribute_value(x, name) {
        Some(v) => match color_of(v) {
            Ok(c) => Ok(Some(c)),
            Err(e) => Err(e),
        },
        None => Ok(current),
    }
}

pub fn parse_bool_attribute(x: &XmlNode, name: &str, field: &mut bool) -> (res: Result<
    (),
    ParseError,
>)
    ensures
        match bool_attribute(*x, name@, *old(field)) {
            Ok(b) => res is Ok && *final(field) == b,
            Err(e) => fails_with(res, e) && *final(field) == *old(field),
        },
        attribute_value(*x, name@) is None ==> res is Ok && *final(field) == *old(field),
{
    match x.attribute(name) {
        Some(text) => match convert_bool(text) {
            Ok(b) => {
                *field = b;
                Ok(())
            },
            Err(e) => Err(e),
        },
        None => Ok(()),
    }
}

pub fn parse_direction_attribute(x: &XmlNode, name: &str, field: &mut FlexDirection) -> (res:
    Result<(), ParseError>)
    ensures
        match direction_attribute(*x, name@, *old(field)) {
            Ok(d) => res is Ok && *final(field) == d,
            Err(e) => fails_with(res, e) && *final(field) == *old(field),
        },
        attribute_value(*x, name@) is None ==> res is Ok && *final(field) == *old(field),
{
    match x.attribute(name) {
        Some(text) => match convert_flex_direction(text) {
            Ok(d) => {
                *field = d;
                Ok(())
            },
            Err(e) => Err(e),
        },
        None => Ok(()),
    }
}

pub fn parse_wrap_attribute(x: &XmlNode, name: &str, field: &mut FlexWrap) -> (res: Result<
    (),
    ParseError,
>)
    ensures
        match wrap_attribute(*x, name@, *old(field)) {
            Ok(w) => res is Ok && *final(field) == w,
            Err(e) => fails_with(res, e) && *final(field) == *old(field),
        },
        attribute_value(*x, name@) is None ==> res is Ok && *final(field) == *old(field),
{
    match x.attribute(name) {
        Some(text) => match convert_flex_wrap(text) {
            Ok(w) => {
                *field = w;
                Ok(())
            },
            Err(e) => Err(e),
        },
        None => Ok(()),
    }
}

pub fn parse_number_attribute(x: &XmlNode, name: &str, field: &mut Number) -> (res: Result<
    (),
    ParseError,
>)
    ensures
        match number_attribute(*x, name@, old(field)@) {
            Ok(n) => res is Ok && final(field)@ == n,
            Err(e) => fails_with(res, e) && *final(field) == *old(field),
        },
        attribute_value(*x, name@) is None ==> res is Ok && *final(field) == *old(field),
{
    match x.attribute(name) {
        Some(text) => match convert_number(text) {
            Ok(n) => {
                *field = n;
                Ok(())
            },
            Err(e) => Err(e),
        },
        None => Ok(()),
    }
}

pub fn parse_val_attribute(x: &XmlNode, name: &str, field: &mut Val) -> (res: Result<
    (),
    ParseError,
>)
    ensures
        match val_attribute(*x, name@, old(field)@) {
            Ok(v) => res is Ok && final(field)@ == v,
            Err(e) => fails_with(res, e) && *final(field) == *old(field),
        },
        attribute_value(*x, name@) is None ==> res is Ok && *final(field) == *old(field),
{
    match x.attribute(name) {
        Some(text) => match convert_val(text) {
            Ok(v) => {
                *field = v;
                Ok(())
            },
            Err(e) => Err(e),
        },
        None => Ok(()),
    }
}

pub fn parse_color_attribute(x: &XmlNode, name: &str, field: &mut Color) -> (res: Result<
    (),
    ParseError,
>)
    ensures
        match color_attribute(*x, name@, *old(field)) {
            Ok(c) => res is Ok && *final(field) == c,
            Err(e) => fails_with(res, e) && *final(field) == *old(field),
        },
        attribute_value(*x, name@) is None ==> res is Ok && *final(field) == *old(field),
{
    match x.attribute(name) {
        Some(text) => match convert_color(text) {
            Ok(c) => {
                *field = c;
                Ok(())
            },
            Err(e) => Err(e),
        },
        None => Ok(()),
    }
}

pub fn parse_optional_color_attribute(x: &XmlNode, name: &str, field: &mut Option<Color>) -> (res:
    Result<(), ParseError>)
    ensures
        match optional_color_attribute(*x, name@, *old(field)) {
            Ok(c) => res is Ok && *final(field) == c,
            Err(e) => fails_with(res, e) && *final(field) == *old(field),
        },
        attribute_value(*x, name@) is None ==> res is Ok && *final(field) == *old(field),
{
    match x.attribute(name) {
        Some(text) => match convert_color(text) {
            Ok(c) => {
                *field = Some(c);
                Ok(())
            },
            Err(e) => Err(e),
        },
        None => Ok(()),
    }
}

} // verus!
