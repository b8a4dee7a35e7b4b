//! Typed per-property computed values, decoded from the `(type tag,
//! value, unit)` triples the engine's computed-style queries report.
//!
//! Each decoder follows the engine's documented tag table exactly: every
//! listed tag maps to precisely one variant, and a tag outside the table
//! is surfaced as an error naming the property kind and the tag — never
//! silently coerced.  The tag constants here are also the discriminants
//! the hint codec writes, since the engine reuses the same per-property
//! enumerations for both.

use vstd::prelude::*;
use crate::types::CssColor;
use crate::types::CssUnit;
use crate::types::spec_color_from_ll;
use crate::types::spec_unit_from_ll;
use crate::types::ll_color_to_hl_color;
use crate::types::ll_unit_to_hl_unit;

verus! {

pub const CSS_COLOR_INHERIT: u8 = 0x0;
pub const CSS_COLOR_COLOR: u8 = 0x1;

pub const CSS_MARGIN_INHERIT: u8 = 0x0;
pub const CSS_MARGIN_SET: u8 = 0x1;
pub const CSS_MARGIN_AUTO: u8 = 0x2;

pub const CSS_BORDER_WIDTH_INHERIT: u8 = 0x0;
pub const CSS_BORDER_WIDTH_THIN: u8 = 0x1;
pub const CSS_BORDER_WIDTH_MEDIUM: u8 = 0x2;
pub const CSS_BORDER_WIDTH_THICK: u8 = 0x3;
pub const CSS_BORDER_WIDTH_WIDTH: u8 = 0x4;

pub const CSS_DISPLAY_INHERIT: u8 = 0x0;
pub const CSS_POSITION_INHERIT: u8 = 0x0;
pub const CSS_FLOAT_INHERIT: u8 = 0x0;

pub const CSS_WIDTH_INHERIT: u8 = 0x0;
pub const CSS_WIDTH_SET: u8 = 0x1;
pub const CSS_WIDTH_AUTO: u8 = 0x2;

pub const CSS_HEIGHT_INHERIT: u8 = 0x0;
pub const CSS_HEIGHT_SET: u8 = 0x1;
pub const CSS_HEIGHT_AUTO: u8 = 0x2;

pub const CSS_FONT_FAMILY_INHERIT: u8 = 0x0;
pub const CSS_FONT_FAMILY_SERIF: u8 = 0x1;
pub const CSS_FONT_FAMILY_SANS_SERIF: u8 = 0x2;
pub const CSS_FONT_FAMILY_CURSIVE: u8 = 0x3;
pub const CSS_FONT_FAMILY_FANTASY: u8 = 0x4;
pub const CSS_FONT_FAMILY_MONOSPACE: u8 = 0x5;

pub const CSS_FONT_SIZE_INHERIT: u8 = 0x0;
pub const CSS_FONT_SIZE_DIMENSION: u8 = 0xa;

pub const CSS_FONT_STYLE_INHERIT: u8 = 0x0;
pub const CSS_FONT_WEIGHT_INHERIT: u8 = 0x0;
pub const CSS_TEXT_ALIGN_INHERIT: u8 = 0x0;

pub const CSS_QUOTES_INHERIT: u8 = 0x0;
pub const CSS_QUOTES_STRING: u8 = 0x1;
pub const CSS_QUOTES_NONE: u8 = 0x2;

pub const CSS_LINE_HEIGHT_INHERIT: u8 = 0x0;
pub const CSS_LINE_HEIGHT_NUMBER: u8 = 0x1;
pub const CSS_LINE_HEIGHT_DIMENSION: u8 = 0x2;
pub const CSS_LINE_HEIGHT_NORMAL: u8 = 0x3;

/// The property families a computed-value decoder can report an error
/// for.
#[derive(Clone, Copy, PartialEq, Eq, Structural, Debug)]
pub enum CssValueKind {
    Color,
    Margin,
    BorderWidth,
    Display,
    Position,
    Width,
    Height,
    Float,
    FontFamily,
    FontSize,
    FontStyle,
    FontWeight,
    TextAlign,
    LineHeight,
}

/// A computed-value triple that the documented tag table does not cover.
/// The decoders refuse such input rather than guessing a variant.
#[derive(Clone, Copy, PartialEq, Eq, Structural, Debug)]
pub enum CssValueError {
    UnimplementedValue { kind: CssValueKind, tag: u8 },
    UnknownUnit { kind: CssValueKind, unit: u32 },
}

/// A computed colour: inherited, or a concrete colour.
#[derive(Clone, Copy, PartialEq, Eq, Structural, Debug)]
pub enum CssColorValue {
    CssColorInherit,
    CssColorColor(CssColor),
}

pub open spec fn spec_color_value(tag: u8, color: u32) -> Result<CssColorValue, CssValueError> {
    if tag == CSS_COLOR_INHERIT {
        Ok(CssColorValue::CssColorInherit)
    } else if tag == CSS_COLOR_COLOR {
        Ok(CssColorValue::CssColorColor(spec_color_from_ll(color)))
    } else {
        Err(CssValueError::UnimplementedValue { kind: CssValueKind::Color, tag })
    }
}

impl CssColorValue {
    pub fn new(type_: u8, color: u32) -> (r: Result<CssColorValue, CssValueError>)
        ensures
            r == spec_color_value(type_, color),
    {
        if type_ == CSS_COLOR_INHERIT {
            Ok(CssColorValue::CssColorInherit)
        } else if type_ == CSS_COLOR_COLOR {
            Ok(CssColorValue::CssColorColor(ll_color_to_hl_color(color)))
        } else {
            Err(CssValueError::UnimplementedValue { kind: CssValueKind::Color, tag: type_ })
        }
    }
}

/// A computed margin: inherited, a set dimension, or `auto`.
#[derive(Clone, Copy, PartialEq, Eq, Structural, Debug)]
pub enum CssMarginValue {
    CssMarginInherit,
    CssMarginSet(CssUnit),
    CssMarginAuto,
}

pub open spec fn spec_margin_value(tag: u8, length: i32, unit: u32) -> Result<
    CssMarginValue,
    CssValueError,
> {
    if tag == CSS_MARGIN_INHERIT {
        Ok(CssMarginValue::CssMarginInherit)
    } else if tag == CSS_MARGIN_SET {
        match spec_unit_from_ll(unit, length) {
            Some(u) => Ok(CssMarginValue::CssMarginSet(u)),
            None => Err(CssValueError::UnknownUnit { kind: CssValueKind::Margin, unit }),
        }
    } else if tag == CSS_MARGIN_AUTO {
        Ok(CssMarginValue::CssMarginAuto)
    } else {
        Err(CssValueError::UnimplementedValue { kind: CssValueKind::Margin, tag })
    }
}

impl CssMarginValue {
    pub fn new(type_: u8, length: i32, unit: u32) -> (r: Result<CssMarginValue, CssValueError>)
        ensures
            r == spec_margin_value(type_, length, unit),
    {
        if type_ == CSS_MARGIN_INHERIT {
            Ok(CssMarginValue::CssMarginInherit)
        } else if type_ == CSS_MARGIN_SET {
            match ll_unit_to_hl_unit(unit, length) {
                Some(u) => Ok(CssMarginValue::CssMarginSet(u)),
                None => Err(CssValueError::UnknownUnit { kind: CssValueKind::Margin, unit }),
            }
        } else if type_ == CSS_MARGIN_AUTO {
            Ok(CssMarginValue::CssMarginAuto)
        } else {
            Err(CssValueError::UnimplementedValue { kind: CssValueKind::Margin, tag: type_ })
        }
    }
}

/// A computed border width: inherited, a keyword, or a set dimension.
#[derive(Clone, Copy, PartialEq, Eq, Structural, Debug)]
pub enum CssBorderWidthValue {
    CssBorderWidthInherit,
    CssBorderWidthThin,
    CssBorderWidthMedium,
    CssBorderWidthThick,
    CssBorderWidthWidth(CssUnit),
}

pub open spec fn spec_border_width_value(tag: u8, length: i32, unit: u32) -> Result<
    CssBorderWidthValue,
    CssValueError,
> {
    if tag == CSS_BORDER_WIDTH_INHERIT {
        Ok(CssBorderWidthValue::CssBorderWidthInherit)
    } else if tag == CSS_BORDER_WIDTH_THIN {
        Ok(CssBorderWidthValue::CssBorderWidthThin)
    } else if tag == CSS_BORDER_WIDTH_MEDIUM {
        Ok(CssBorderWidthValue::CssBorderWidthMedium)
    } else if tag == CSS_BORDER_WIDTH_THICK {
        Ok(CssBorderWidthValue::CssBorderWidthThick)
    } else if tag == CSS_BORDER_WIDTH_WIDTH {
        match spec_unit_from_ll(unit, length) {
            Some(u) => Ok(CssBorderWidthValue::CssBorderWidthWidth(u)),
            None => Err(CssValueError::UnknownUnit { kind: CssValueKind::BorderWidth, unit }),
        }
    } else {
        Err(CssValueError::UnimplementedValue { kind: CssValueKind::BorderWidth, tag })
    }
}

impl CssBorderWidthValue {
    pub fn new(type_: u8, length: i32, unit: u32) -> (r: Result<
        CssBorderWidthValue,
        CssValueError,
    >)
        ensures
            r == spec_border_width_value(type_, length, unit),
    {
        if type_ == CSS_BORDER_WIDTH_INHERIT {
            Ok(CssBorderWidthValue::CssBorderWidthInherit)
        } else if type_ == CSS_BORDER_WIDTH_THIN {
            Ok(CssBorderWidthValue::CssBorderWidthThin)
        } else if type_ == CSS_BORDER_WIDTH_MEDIUM {
            Ok(CssBorderWidthValue::CssBorderWidthMedium)
        } else if type_ == CSS_BORDER_WIDTH_THICK {
            Ok(CssBorderWidthValue::CssBorderWidthThick)
        } else if type_ == CSS_BORDER_WIDTH_WIDTH {
            match ll_unit_to_hl_unit(unit, length) {
                Some(u) => Ok(CssBorderWidthValue::CssBorderWidthWidth(u)),
                None => Err(CssValueError::UnknownUnit { kind: CssValueKind::BorderWidth, unit }),
            }
        } else {
            Err(CssValueError::UnimplementedValue { kind: CssValueKind::BorderWidth, tag: type_ })
        }
    }
}

/// A computed display keyword, in the engine's numbering order.
#[derive(Clone, Copy, PartialEq, Eq, Structural, Debug)]
pub enum CssDisplayValue {
    CssDisplayInherit,
    CssDisplayInline,
    CssDisplayBlock,
    CssDisplayListItem,
    CssDisplayRunIn,
    CssDisplayInlineBlock,
    CssDisplayTable,
    CssDisplayInlineTable,
    CssDisplayTableRowGroup,
    CssDisplayTableHeaderGroup,
    CssDisplayTableFooterGroup,
    CssDisplayTableRow,
    CssDisplayTableColumnGroup,
    CssDisplayTableColumn,
    CssDisplayTableCell,
    CssDisplayTableCaption,
    CssDisplayNone,
}

pub open spec fn spec_display_value(tag: u8) -> Result<CssDisplayValue, CssValueError> {
    if tag == 0x00 {
        Ok(CssDisplayValue::CssDisplayInherit)
    } else if tag == 0x01 {
        Ok(CssDisplayValue::CssDisplayInline)
    } else if tag == 0x02 {
        Ok(CssDisplayValue::CssDisplayBlock)
    } else if tag == 0x03 {
        Ok(CssDisplayValue::CssDisplayListItem)
    } else if tag == 0x04 {
        Ok(CssDisplayValue::CssDisplayRunIn)
    } else if tag == 0x05 {
        Ok(CssDisplayValue::CssDisplayInlineBlock)
    } else if tag == 0x06 {
        Ok(CssDisplayValue::CssDisplayTable)
    } else if tag == 0x07 {
        Ok(CssDisplayValue::CssDisplayInlineTable)
    } else if tag == 0x08 {
        Ok(CssDisplayValue::CssDisplayTableRowGroup)
    } else if tag == 0x09 {
        Ok(CssDisplayValue::CssDisplayTableHeaderGroup)
    } else if tag == 0x0a {
        Ok(CssDisplayValue::CssDisplayTableFooterGroup)
    } else if tag == 0x0b {
        Ok(CssDisplayValue::CssDisplayTableRow)
    } else if tag == 0x0c {
        Ok(CssDisplayValue::CssDisplayTableColumnGroup)
    } else if tag == 0x0d {
        Ok(CssDisplayValue::CssDisplayTableColumn)
    } else if tag == 0x0e {
        Ok(CssDisplayValue::CssDisplayTableCell)
    } else if tag == 0x0f {
        Ok(CssDisplayValue::CssDisplayTableCaption)
    } else if tag == 0x10 {
        Ok(CssDisplayValue::CssDisplayNone)
    } else {
        Err(CssValueError::UnimplementedValue { kind: CssValueKind::Display, tag })
    }
}

impl CssDisplayValue {
    pub fn new(type_: u8) -> (r: Result<CssDisplayValue, CssValueError>)
        ensures
            r == spec_display_value(type_),
    {
        if type_ == 0x00 {
            Ok(CssDisplayValue::CssDisplayInherit)
        } else if type_ == 0x01 {
            Ok(CssDisplayValue::CssDisplayInline)
        } else if type_ == 0x02 {
            Ok(CssDisplayValue::CssDisplayBlock)
        } else if type_ == 0x03 {
            Ok(CssDisplayValue::CssDisplayListItem)
        } else if type_ == 0x04 {
            Ok(CssDisplayValue::CssDisplayRunIn)
        } else if type_ == 0x05 {
            Ok(CssDisplayValue::CssDisplayInlineBlock)
        } else if type_ == 0x06 {
            Ok(CssDisplayValue::CssDisplayTable)
        } else if type_ == 0x07 {
            Ok(CssDisplayValue::CssDisplayInlineTable)
        } else if type_ == 0x08 {
            Ok(CssDisplayValue::CssDisplayTableRowGroup)
        } else if type_ == 0x09 {
            Ok(CssDisplayValue::CssDisplayTableHeaderGroup)
        } else if type_ == 0x0a {
            Ok(CssDisplayValue::CssDisplayTableFooterGroup)
        } else if type_ == 0x0b {
            Ok(CssDisplayValue::CssDisplayTableRow)
        } else if type_ == 0x0c {
            Ok(CssDisplayValue::CssDisplayTableColumnGroup)
        } else if type_ == 0x0d {
            Ok(CssDisplayValue::CssDisplayTableColumn)
        } else if type_ == 0x0e {
            Ok(CssDisplayValue::CssDisplayTableCell)
        } else if type_ == 0x0f {
            Ok(CssDisplayValue::CssDisplayTableCaption)
        } else if type_ == 0x10 {
            Ok(CssDisplayValue::CssDisplayNone)
        } else {
            Err(CssValueError::UnimplementedValue { kind: CssValueKind::Display, tag: type_ })
        }
    }
}

/// A computed position keyword.
#[derive(Clone, Copy, PartialEq, Eq, Structural, Debug)]
pub enum CssPositionValue {
    CssPositionInherit,
    CssPositionStatic,
    CssPositionRelative,
    CssPositionAbsolute,
    CssPositionFixed,
}

pub open spec fn spec_position_value(tag: u8) -> Result<CssPositionValue, CssValueError> {
    if tag == 0x0 {
        Ok(CssPositionValue::CssPositionInherit)
    } else if tag == 0x1 {
        Ok(CssPositionValue::CssPositionStatic)
    } else if tag == 0x2 {
        Ok(CssPositionValue::CssPositionRelative)
    } else if tag == 0x3 {
        Ok(CssPositionValue::CssPositionAbsolute)
    } else if tag == 0x4 {
        Ok(CssPositionValue::CssPositionFixed)
    } else {
        Err(CssValueError::UnimplementedValue { kind: CssValueKind::Position, tag })
    }
}

impl CssPositionValue {
    pub fn new(type_: u8) -> (r: Result<CssPositionValue, CssValueError>)
        ensures
            r == spec_position_value(type_),
    {
        if type_ == 0x0 {
            Ok(CssPositionValue::CssPositionInherit)
        } else if type_ == 0x1 {
            Ok(CssPositionValue::CssPositionStatic)
        } else if type_ == 0x2 {
            Ok(CssPositionValue::CssPositionRelative)
        } else if type_ == 0x3 {
            Ok(CssPositionValue::CssPositionAbsolute)
        } else if type_ == 0x4 {
            Ok(CssPositionValue::CssPositionFixed)
        } else {
            Err(CssValueError::UnimplementedValue { kind: CssValueKind::Position, tag: type_ })
        }
    }
}

/// A computed width: inherited, a set dimension, or `auto`.
#[derive(Clone, Copy, PartialEq, Eq, Structural, Debug)]
pub enum CssWidthValue {
    CssWidthInherit,
    CssWidthSet(CssUnit),
    CssWidthAuto,
}

pub open spec fn spec_width_value(tag: u8, length: i32, unit: u32) -> Result<
    CssWidthValue,
    CssValueError,
> {
    if tag == CSS_WIDTH_INHERIT {
        Ok(CssWidthValue::CssWidthInherit)
    } else if tag == CSS_WIDTH_SET {
        match spec_unit_from_ll(unit, length) {
            Some(u) => Ok(CssWidthValue::CssWidthSet(u)),
            None => Err(CssValueError::UnknownUnit { kind: CssValueKind::Width, unit }),
        }
    } else if tag == CSS_WIDTH_AUTO {
        Ok(CssWidthValue::CssWidthAuto)
    } else {
        Err(CssValueError::UnimplementedValue { kind: CssValueKind::Width, tag })
    }
}

impl CssWidthValue {
    pub fn new(type_: u8, length: i32, unit: u32) -> (r: Result<CssWidthValue, CssValueError>)
        ensures
            r == spec_width_value(type_, length, unit),
    {
        if type_ == CSS_WIDTH_INHERIT {
            Ok(CssWidthValue::CssWidthInherit)
        } else if type_ == CSS_WIDTH_SET {
            match ll_unit_to_hl_unit(unit, length) {
                Some(u) => Ok(CssWidthValue::CssWidthSet(u)),
                None => Err(CssValueError::UnknownUnit { kind: CssValueKind::Width, unit }),
            }
        } else if type_ == CSS_WIDTH_AUTO {
            Ok(CssWidthValue::CssWidthAuto)
        } else {
            Err(CssValueError::UnimplementedValue { kind: CssValueKind::Width, tag: type_ })
        }
    }
}

/// A computed height: inherited, a set dimension, or `auto`.
#[derive(Clone, Copy, PartialEq, Eq, Structural, Debug)]
pub enum CssHeightValue {
    CssHeightInherit,
    CssHeightSet(CssUnit),
    CssHeightAuto,
}

pub open spec fn spec_height_value(tag: u8, length: i32, unit: u32) -> Result<
    CssHeightValue,
    CssValueError,
> {
    if tag == CSS_HEIGHT_INHERIT {
        Ok(CssHeightValue::CssHeightInherit)
    } else if tag == CSS_HEIGHT_SET {
        match spec_unit_from_ll(unit, length) {
            Some(u) => Ok(CssHeightValue::CssHeightSet(u)),
            None => Err(CssValueError::UnknownUnit { kind: CssValueKind::Height, unit }),
        }
    } else if tag == CSS_HEIGHT_AUTO {
        Ok(CssHeightValue::CssHeightAuto)
    } else {
        Err(CssValueError::UnimplementedValue { kind: CssValueKind::Height, tag })
    }
}

impl CssHeightValue {
    pub fn new(type_: u8, length: i32, unit: u32) -> (r: Result<CssHeightValue, CssValueError>)
        ensures
            r == spec_height_value(type_, length, unit),
    {
        if type_ == CSS_HEIGHT_INHERIT {
            Ok(CssHeightValue::CssHeightInherit)
        } else if type_ == CSS_HEIGHT_SET {
            match ll_unit_to_hl_unit(unit, length) {
                Some(u) => Ok(CssHeightValue::CssHeightSet(u)),
                None => Err(CssValueError::UnknownUnit { kind: CssValueKind::Height, unit }),
            }
        } else if type_ == CSS_HEIGHT_AUTO {
            Ok(CssHeightValue::CssHeightAuto)
        } else {
            Err(CssValueError::UnimplementedValue { kind: CssValueKind::Height, tag: type_ })
        }
    }
}

/// A computed float keyword.
#[derive(Clone, Copy, PartialEq, Eq, Structural, Debug)]
pub enum CssFloatValue {
    CssFloatInherit,
    CssFloatLeft,
    CssFloatRight,
    CssFloatNone,
}

pub open spec fn spec_float_value(tag: u8) -> Result<CssFloatValue, CssValueError> {
    if tag == 0x0 {
        Ok(CssFloatValue::CssFloatInherit)
    } else if tag == 0x1 {
        Ok(CssFloatValue::CssFloatLeft)
    } else if tag == 0x2 {
        Ok(CssFloatValue::CssFloatRight)
    } else if tag == 0x3 {
        Ok(CssFloatValue::CssFloatNone)
    } else {
        Err(CssValueError::UnimplementedValue { kind: CssValueKind::Float, tag })
    }
}

impl CssFloatValue {
    pub fn new(type_: u8) -> (r: Result<CssFloatValue, CssValueError>)
        ensures
            r == spec_float_value(type_),
    {
        if type_ == 0x0 {
            Ok(CssFloatValue::CssFloatInherit)
        } else if type_ == 0x1 {
            Ok(CssFloatValue::CssFloatLeft)
        } else if type_ == 0x2 {
            Ok(CssFloatValue::CssFloatRight)
        } else if type_ == 0x3 {
            Ok(CssFloatValue::CssFloatNone)
        } else {
            Err(CssValueError::UnimplementedValue { kind: CssValueKind::Float, tag: type_ })
        }
    }
}

/// A computed font family: inherited, a generic family, or the list of
/// family names a rule supplied.
#[derive(Clone, PartialEq, Eq, Debug)]
pub enum CssFontFamilyValue {
    CssFontFamilyInherit,
    CssFontFamilySerif,
    CssFontFamilySansSerif,
    CssFontFamilyCursive,
    CssFontFamilyFantasy,
    CssFontFamilyMonospace,
    CssFontFamilyValue(Vec<String>),
}

pub open spec fn spec_font_family_value(tag: u8, names: Option<Vec<String>>) -> Result<
    CssFontFamilyValue,
    CssValueError,
> {
    match names {
        Some(list) => Ok(CssFontFamilyValue::CssFontFamilyValue(list)),
        None => if tag == CSS_FONT_FAMILY_INHERIT {
            Ok(CssFontFamilyValue::CssFontFamilyInherit)
        } else if tag == CSS_FONT_FAMILY_SERIF {
            Ok(CssFontFamilyValue::CssFontFamilySerif)
        } else if tag == CSS_FONT_FAMILY_SANS_SERIF {
            Ok(CssFontFamilyValue::CssFontFamilySansSerif)
        } else if tag == CSS_FONT_FAMILY_CURSIVE {
            Ok(CssFontFamilyValue::CssFontFamilyCursive)
        } else if tag == CSS_FONT_FAMILY_FANTASY {
            Ok(CssFontFamilyValue::CssFontFamilyFantasy)
        } else if tag == CSS_FONT_FAMILY_MONOSPACE {
            Ok(CssFontFamilyValue::CssFontFamilyMonospace)
        } else {
            Err(CssValueError::UnimplementedValue { kind: CssValueKind::FontFamily, tag })
        },
    }
}

impl CssFontFamilyValue {
    pub fn new(type_: u8, names: Option<Vec<String>>) -> (r: Result<
        CssFontFamilyValue,
        CssValueError,
    >)
        ensures
            r == spec_font_family_value(type_, names),
    {
        match names {
            Some(list) => Ok(CssFontFamilyValue::CssFontFamilyValue(list)),
            None => if type_ == CSS_FONT_FAMILY_INHERIT {
                Ok(CssFontFamilyValue::CssFontFamilyInherit)
            } else if type_ == CSS_FONT_FAMILY_SERIF {
                Ok(CssFontFamilyValue::CssFontFamilySerif)
            } else if type_ == CSS_FONT_FAMILY_SANS_SERIF {
                Ok(CssFontFamilyValue::CssFontFamilySansSerif)
            } else if type_ == CSS_FONT_FAMILY_CURSIVE {
                Ok(CssFontFamilyValue::CssFontFamilyCursive)
            } else if type_ == CSS_FONT_FAMILY_FANTASY {
                Ok(CssFontFamilyValue::CssFontFamilyFantasy)
            } else if type_ == CSS_FONT_FAMILY_MONOSPACE {
                Ok(CssFontFamilyValue::CssFontFamilyMonospace)
            } else {
                Err(CssValueError::UnimplementedValue { kind: CssValueKind::FontFamily, tag: type_ })
            },
        }
    }
}

/// A computed font size: inherited, a keyword, or a set dimension.
#[derive(Clone, Copy, PartialEq, Eq, Structural, Debug)]
pub enum CssFontSizeValue {
    CssFontSizeInherit,
    CssFontSizeXXSmall,
    CssFontSizeXSmall,
    CssFontSizeSmall,
    CssFontSizeMedium,
    CssFontSizeLarge,
    CssFontSizeXLarge,
    CssFontSizeXXLarge,
    CssFontSizeLarger,
    CssFontSizeSmaller,
    CssFontSizeDimension(CssUnit),
}

pub open spec fn spec_font_size_value(tag: u8, length: i32, unit: u32) -> Result<
    CssFontSizeValue,
    CssValueError,
> {
    if tag == 0x0 {
        Ok(CssFontSizeValue::CssFontSizeInherit)
    } else if tag == 0x1 {
        Ok(CssFontSizeValue::CssFontSizeXXSmall)
    } else if tag == 0x2 {
        Ok(CssFontSizeValue::CssFontSizeXSmall)
    } else if tag == 0x3 {
        Ok(CssFontSizeValue::CssFontSizeSmall)
    } else if tag == 0x4 {
        Ok(CssFontSizeValue::CssFontSizeMedium)
    } else if tag == 0x5 {
        Ok(CssFontSizeValue::CssFontSizeLarge)
    } else if tag == 0x6 {
        Ok(CssFontSizeValue::CssFontSizeXLarge)
    } else if tag == 0x7 {
        Ok(CssFontSizeValue::CssFontSizeXXLarge)
    } else if tag == 0x8 {
        Ok(CssFontSizeValue::CssFontSizeLarger)
    } else if tag == 0x9 {
        Ok(CssFontSizeValue::CssFontSizeSmaller)
    } else if tag == CSS_FONT_SIZE_DIMENSION {
        match spec_unit_from_ll(unit, length) {
            Some(u) => Ok(CssFontSizeValue::CssFontSizeDimension(u)),
            None => Err(CssValueError::UnknownUnit { kind: CssValueKind::FontSize, unit }),
        }
    } else {
        Err(CssValueError::UnimplementedValue { kind: CssValueKind::FontSize, tag })
    }
}

impl CssFontSizeValue {
    pub fn new(type_: u8, length: i32, unit: u32) -> (r: Result<CssFontSizeValue, CssValueError>)
        ensures
            r == spec_font_size_value(type_, length, unit),
    {
        if type_ == 0x0 {
            Ok(CssFontSizeValue::CssFontSizeInherit)
        } else if type_ == 0x1 {
            Ok(CssFontSizeValue::CssFontSizeXXSmall)
        } else if type_ == 0x2 {
            Ok(CssFontSizeValue::CssFontSizeXSmall)
        } else if type_ == 0x3 {
            Ok(CssFontSizeValue::CssFontSizeSmall)
        } else if type_ == 0x4 {
            Ok(CssFontSizeValue::CssFontSizeMedium)
        } else if type_ == 0x5 {
            Ok(CssFontSizeValue::CssFontSizeLarge)
        } else if type_ == 0x6 {
            Ok(CssFontSizeValue::CssFontSizeXLarge)
        } else if type_ == 0x7 {
            Ok(CssFontSizeValue::CssFontSizeXXLarge)
        } else if type_ == 0x8 {
            Ok(CssFontSizeValue::CssFontSizeLarger)
        } else if type_ == 0x9 {
            Ok(CssFontSizeValue::CssFontSizeSmaller)
        } else if type_ == CSS_FONT_SIZE_DIMENSION {
            match ll_unit_to_hl_unit(unit, length) {
                Some(u) => Ok(CssFontSizeValue::CssFontSizeDimension(u)),
                None => Err(CssValueError::UnknownUnit { kind: CssValueKind::FontSize, unit }),
            }
        } else {
            Err(CssValueError::UnimplementedValue { kind: CssValueKind::FontSize, tag: type_ })
        }
    }
}

/// A computed font style keyword.
#[derive(Clone, Copy, PartialEq, Eq, Structural, Debug)]
pub enum CssFontStyleValue {
    CssFontStyleInherit,
    CssFontStyleNormal,
    CssFontStyleItalic,
    CssFontStyleOblique,
}

pub open spec fn spec_font_style_value(tag: u8) -> Result<CssFontStyleValue, CssValueError> {
    if tag == 0x0 {
        Ok(CssFontStyleValue::CssFontStyleInherit)
    } else if tag == 0x1 {
        Ok(CssFontStyleValue::CssFontStyleNormal)
    } else if tag == 0x2 {
        Ok(CssFontStyleValue::CssFontStyleItalic)
    } else if tag == 0x3 {
        Ok(CssFontStyleValue::CssFontStyleOblique)
    } else {
        Err(CssValueError::UnimplementedValue { kind: CssValueKind::FontStyle, tag })
    }
}

impl CssFontStyleValue {
    pub fn new(type_: u8) -> (r: Result<CssFontStyleValue, CssValueError>)
        ensures
            r == spec_font_style_value(type_),
    {
        if type_ == 0x0 {
            Ok(CssFontStyleValue::CssFontStyleInherit)
        } else if type_ == 0x1 {
            Ok(CssFontStyleValue::CssFontStyleNormal)
        } else if type_ == 0x2 {
            Ok(CssFontStyleValue::CssFontStyleItalic)
        } else if type_ == 0x3 {
            Ok(CssFontStyleValue::CssFontStyleOblique)
        } else {
            Err(CssValueError::UnimplementedValue { kind: CssValueKind::FontStyle, tag: type_ })
        }
    }
}

/// A computed font weight keyword.
#[derive(Clone, Copy, PartialEq, Eq, Structural, Debug)]
pub enum CssFontWeightValue {
    CssFontWeightInherit,
    CssFontWeightNormal,
    CssFontWeightBold,
    CssFontWeightBolder,
    CssFontWeightLighter,
    CssFontWeight100,
    CssFontWeight200,
    CssFontWeight300,
    CssFontWeight400,
    CssFontWeight500,
    CssFontWeight600,
    CssFontWeight700,
    CssFontWeight800,
    CssFontWeight900,
}

pub open spec fn spec_font_weight_value(tag: u8) -> Result<CssFontWeightValue, CssValueError> {
    if tag == 0x0 {
        Ok(CssFontWeightValue::CssFontWeightInherit)
    } else if tag == 0x1 {
        Ok(CssFontWeightValue::CssFontWeightNormal)
    } else if tag == 0x2 {
        Ok(CssFontWeightValue::CssFontWeightBold)
    } else if tag == 0x3 {
        Ok(CssFontWeightValue::CssFontWeightBolder)
    } else if tag == 0x4 {
        Ok(CssFontWeightValue::CssFontWeightLighter)
    } else if tag == 0x5 {
        Ok(CssFontWeightValue::CssFontWeight100)
    } else if tag == 0x6 {
        Ok(CssFontWeightValue::CssFontWeight200)
    } else if tag == 0x7 {
        Ok(CssFontWeightValue::CssFontWeight300)
    } else if tag == 0x8 {
        Ok(CssFontWeightValue::CssFontWeight400)
    } else if tag == 0x9 {
        Ok(CssFontWeightValue::CssFontWeight500)
    } else if tag == 0xa {
        Ok(CssFontWeightValue::CssFontWeight600)
    } else if tag == 0xb {
        Ok(CssFontWeightValue::CssFontWeight700)
    } else if tag == 0xc {
        Ok(CssFontWeightValue::CssFontWeight800)
    } else if tag == 0xd {
        Ok(CssFontWeightValue::CssFontWeight900)
    } else {
        Err(CssValueError::UnimplementedValue { kind: CssValueKind::FontWeight, tag })
    }
}

impl CssFontWeightValue {
    pub fn new(type_: u8) -> (r: Result<CssFontWeightValue, CssValueError>)
        ensures
            r == spec_font_weight_value(type_),
    {
        if type_ == 0x0 {
            Ok(CssFontWeightValue::CssFontWeightInherit)
        } else if type_ == 0x1 {
            Ok(CssFontWeightValue::CssFontWeightNormal)
        } else if type_ == 0x2 {
            Ok(CssFontWeightValue::CssFontWeightBold)
        } else if type_ == 0x3 {
            Ok(CssFontWeightValue::CssFontWeightBolder)
        } else if type_ == 0x4 {
            Ok(CssFontWeightValue::CssFontWeightLighter)
        } else if type_ == 0x5 {
            Ok(CssFontWeightValue::CssFontWeight100)
        } else if type_ == 0x6 {
            Ok(CssFontWeightValue::CssFontWeight200)
        } else if type_ == 0x7 {
            Ok(CssFontWeightValue::CssFontWeight300)
        } else if type_ == 0x8 {
            Ok(CssFontWeightValue::CssFontWeight400)
        } else if type_ == 0x9 {
            Ok(CssFontWeightValue::CssFontWeight500)
        } else if type_ == 0xa {
            Ok(CssFontWeightValue::CssFontWeight600)
        } else if type_ == 0xb {
            Ok(CssFontWeightValue::CssFontWeight700)
        } else if type_ == 0xc {
            Ok(CssFontWeightValue::CssFontWeight800)
        } else if type_ == 0xd {
            Ok(CssFontWeightValue::CssFontWeight900)
        } else {
            Err(CssValueError::UnimplementedValue { kind: CssValueKind::FontWeight, tag: type_ })
        }
    }
}

/// A computed text-align keyword, including the engine's internal
/// "magic" variants used for quirky alignment inheritance.
#[derive(Clone, Copy, PartialEq, Eq, Structural, Debug)]
pub enum CssTextAlignValue {
    CssTextAlignInherit,
    CssTextAlignInheritIfNonMagic,
    CssTextAlignLeft,
    CssTextAlignRight,
    CssTextAlignCenter,
    CssTextAlignJustify,
    CssTextAlignDefault,
    CssTextAlignLibcssLeft,
    CssTextAlignLibcssCenter,
    CssTextAlignLibcssRight,
}

pub open spec fn spec_text_align_value(tag: u8) -> Result<CssTextAlignValue, CssValueError> {
    if tag == 0x0 {
        Ok(CssTextAlignValue::CssTextAlignInherit)
    } else if tag == 0x1 {
        Ok(CssTextAlignValue::CssTextAlignInheritIfNonMagic)
    } else if tag == 0x2 {
        Ok(CssTextAlignValue::CssTextAlignLeft)
    } else if tag == 0x3 {
        Ok(CssTextAlignValue::CssTextAlignRight)
    } else if tag == 0x4 {
        Ok(CssTextAlignValue::CssTextAlignCenter)
    } else if tag == 0x5 {
        Ok(CssTextAlignValue::CssTextAlignJustify)
    } else if tag == 0x6 {
        Ok(CssTextAlignValue::CssTextAlignDefault)
    } else if tag == 0x7 {
        Ok(CssTextAlignValue::CssTextAlignLibcssLeft)
    } else if tag == 0x8 {
        Ok(CssTextAlignValue::CssTextAlignLibcssCenter)
    } else if tag == 0x9 {
        Ok(CssTextAlignValue::CssTextAlignLibcssRight)
    } else {
        Err(CssValueError::UnimplementedValue { kind: CssValueKind::TextAlign, tag })
    }
}

impl CssTextAlignValue {
    pub fn new(type_: u8) -> (r: Result<CssTextAlignValue, CssValueError>)
        ensures
            r == spec_text_align_value(type_),
    {
        if type_ == 0x0 {
            Ok(CssTextAlignValue::CssTextAlignInherit)
        } else if type_ == 0x1 {
            Ok(CssTextAlignValue::CssTextAlignInheritIfNonMagic)
        } else if type_ == 0x2 {
            Ok(CssTextAlignValue::CssTextAlignLeft)
        } else if type_ == 0x3 {
            Ok(CssTextAlignValue::CssTextAlignRight)
        } else if type_ == 0x4 {
            Ok(CssTextAlignValue::CssTextAlignCenter)
        } else if type_ == 0x5 {
            Ok(CssTextAlignValue::CssTextAlignJustify)
        } else if type_ == 0x6 {
            Ok(CssTextAlignValue::CssTextAlignDefault)
        } else if type_ == 0x7 {
            Ok(CssTextAlignValue::CssTextAlignLibcssLeft)
        } else if type_ == 0x8 {
            Ok(CssTextAlignValue::CssTextAlignLibcssCenter)
        } else if type_ == 0x9 {
            Ok(CssTextAlignValue::CssTextAlignLibcssRight)
        } else {
            Err(CssValueError::UnimplementedValue { kind: CssValueKind::TextAlign, tag: type_ })
        }
    }
}

/// A computed line height: inherited, a pure number, a dimension, or
/// `normal`.
#[derive(Clone, Copy, PartialEq, Eq, Structural, Debug)]
pub enum CssLineHeightValue {
    CssLineHeightInherit,
    CssLineHeightNumber(i32),
    CssLineHeightDimension(CssUnit),
    CssLineHeightNormal,
}

pub open spec fn spec_line_height_value(tag: u8, length: i32, unit: u32) -> Result<
    CssLineHeightValue,
    CssValueError,
> {
    if tag == CSS_LINE_HEIGHT_INHERIT {
        Ok(CssLineHeightValue::CssLineHeightInherit)
    } else if tag == CSS_LINE_HEIGHT_NUMBER {
        Ok(CssLineHeightValue::CssLineHeightNumber(length))
    } else if tag == CSS_LINE_HEIGHT_DIMENSION {
        match spec_unit_from_ll(unit, length) {
            Some(u) => Ok(CssLineHeightValue::CssLineHeightDimension(u)),
            None => Err(CssValueError::UnknownUnit { kind: CssValueKind::LineHeight, unit }),
        }
    } else if tag == CSS_LINE_HEIGHT_NORMAL {
        Ok(CssLineHeightValue::CssLineHeightNormal)
    } else {
        Err(CssValueError::UnimplementedValue { kind: CssValueKind::LineHeight, tag })
    }
}

impl CssLineHeightValue {
    pub fn new(type_: u8, length: i32, unit: u32) -> (r: Result<CssLineHeightValue, CssValueError>)
        ensures
            r == spec_line_height_value(type_, length, unit),
    {
        if type_ == CSS_LINE_HEIGHT_INHERIT {
            Ok(CssLineHeightValue::CssLineHeightInherit)
        } else if type_ == CSS_LINE_HEIGHT_NUMBER {
            Ok(CssLineHeightValue::CssLineHeightNumber(length))
        } else if type_ == CSS_LINE_HEIGHT_DIMENSION {
            match ll_unit_to_hl_unit(unit, length) {
                Some(u) => Ok(CssLineHeightValue::CssLineHeightDimension(u)),
                None => Err(CssValueError::UnknownUnit { kind: CssValueKind::LineHeight, unit }),
            }
        } else if type_ == CSS_LINE_HEIGHT_NORMAL {
            Ok(CssLineHeightValue::CssLineHeightNormal)
        } else {
            Err(CssValueError::UnimplementedValue { kind: CssValueKind::LineHeight, tag: type_ })
        }
    }
}

} // verus!
