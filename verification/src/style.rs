//! The layout and colour values that attributes decode to.
use vstd::prelude::*;
use crate::number::Number;

verus! {

/// How a node lays out what it holds.
#[derive(Clone, Copy, Debug, PartialEq, Eq, Structural)]
pub enum Display {
    Flex,
    Grid,
    Block,
    /// Not shown, and taking no room.
    Hidden,
}

/// The main axis of a flex container.
#[derive(Clone, Copy, Debug, PartialEq, Eq, Structural)]
pub enum FlexDirection {
    Row,
    Column,
    RowReverse,
    ColumnReverse,
}

/// Whether a flex container breaks its items into lines.
#[derive(Clone, Copy, Debug, PartialEq, Eq, Structural)]
pub enum FlexWrap {
    NoWrap,
    Wrap,
    WrapReverse,
}

/// A colour as four bytes; a channel byte `b` stands for the level `b / 255`.
#[derive(Clone, Copy, Debug, PartialEq, Eq, Structural)]
pub struct Color {
    pub red: u8,
    pub green: u8,
    pub blue: u8,
    pub alpha: u8,
}

impl Color {
    /// Opaque black.
    pub open spec fn spec_black() -> Color {
        Color { red: 0, green: 0, blue: 0, alpha: 255 }
    }

    #[verifier::when_used_as_spec(spec_black)]
    pub fn black() -> (c: Color)
        ensures
            c == Self::spec_black(),
    {
        Color { red: 0, green: 0, blue: 0, alpha: 255 }
    }
}

/// The units a dimension can be given in.
#[derive(Clone, Copy, Debug, PartialEq, Eq, Structural)]
pub enum Unit {
    Px,
    Percent,
    Vw,
    Vh,
    VMin,
    VMax,
}

/// A size or an offset.
#[derive(Clone, Debug, PartialEq, Eq)]
pub enum Val {
    Auto,
    Px(Number),
    Percent(Number),
    Vw(Number),
    Vh(Number),
    VMin(Number),
    VMax(Number),
}

/// A `Val` with its number as a sequence of characters.
pub enum ValModel {
    Auto,
    Px(Seq<char>),
    Percent(Seq<char>),
    Vw(Seq<char>),
    Vh(Seq<char>),
    VMin(Seq<char>),
    VMax(Seq<char>),
}

impl View for Val {
    type V = ValModel;

    open spec fn view(&self) -> ValModel {
        match self {
            Val::Auto => ValModel::Auto,
            Val::Px(n) => ValModel::Px(n@),
            Val::Percent(n) => ValModel::Percent(n@),
            Val::Vw(n) => ValModel::Vw(n@),
            Val::Vh(n) => ValModel::Vh(n@),
            Val::VMin(n) => ValModel::VMin(n@),
            Val::VMax(n) => ValModel::VMax(n@),
        }
    }
}

/// The number `n` in the unit `unit`.
pub open spec fn measure_of(unit: Unit, n: Seq<char>) -> ValModel {
    match unit {
        Unit::Px => ValModel::Px(n),
        Unit::Percent => ValModel::Percent(n),
        Unit::Vw => ValModel::Vw(n),
        Unit::Vh => ValModel::Vh(n),
        Unit::VMin => ValModel::VMin(n),
        Unit::VMax => ValModel::VMax(n),
    }
}

impl Val {
    /// The number `n` in the unit `unit`.
    pub fn measure(unit: Unit, n: Number) -> (v: Val)
        ensures
            v@ == measure_of(unit, n@),
    {
        match unit {
            Unit::Px => Val::Px(n),
            Unit::Percent => Val::Percent(n),
            Unit::Vw => Val::Vw(n),
            Unit::Vh => Val::Vh(n),
            Unit::VMin => Val::VMin(n),
            Unit::VMax => Val::VMax(n),
        }
    }
}

/// Four dimensions, one for each side of a box.
#[derive(Clone, Debug, PartialEq, Eq)]
pub struct UiRect {
    pub left: Val,
    pub right: Val,
    pub top: Val,
    pub bottom: Val,
}

/// A `UiRect` of `ValModel`s.
pub struct UiRectModel {
    pub left: ValModel,
    pub right: ValModel,
    pub top: ValModel,
    pub bottom: ValModel,
}

impl View for UiRect {
    type V = UiRectModel;

    open spec fn view(&self) -> UiRectModel {
        UiRectModel {
            left: self.left@,
            right: self.right@,
            top: self.top@,
            bottom: self.bottom@,
        }
    }
}

} // verus!
