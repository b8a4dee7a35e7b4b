//! Computed styles: a read-only view over what the engine's per-property
//! queries reported for one pseudo-element, and the composition step that
//! merges a parent's and a child's computed style.
//!
//! Each accessor converts one property's raw `(type tag, value, unit)`
//! triple into its typed variant via the decoders in [`crate::values`].
//! Composition takes the child's value for every property unless the
//! child's tag says "inherit", in which case the parent's value is
//! taken — except font size, which is recomputed through a host-supplied
//! resolver because a relative child size is only meaningful against the
//! parent's already-resolved absolute size.

use vstd::prelude::*;
use crate::hint::CssHint;
use crate::hint::CssHintError;
use crate::hint::CssHintRecord;
use crate::hint::spec_hint_new;
use crate::hint::spec_hint_write;
use crate::properties::CssProperty;
use crate::values::CSS_COLOR_INHERIT;
use crate::values::CSS_FONT_FAMILY_INHERIT;
use crate::values::CSS_FONT_SIZE_DIMENSION;
use crate::values::CssColorValue;
use crate::values::CssMarginValue;
use crate::values::CssBorderWidthValue;
use crate::values::CssDisplayValue;
use crate::values::CssPositionValue;
use crate::values::CssWidthValue;
use crate::values::CssHeightValue;
use crate::values::CssFloatValue;
use crate::values::CssFontFamilyValue;
use crate::values::CssFontSizeValue;
use crate::values::CssFontStyleValue;
use crate::values::CssFontWeightValue;
use crate::values::CssTextAlignValue;
use crate::values::CssLineHeightValue;
use crate::values::CssValueError;
use crate::values::spec_color_value;
use crate::values::spec_margin_value;
use crate::values::spec_border_width_value;
use crate::values::spec_display_value;
use crate::values::spec_position_value;
use crate::values::spec_width_value;
use crate::values::spec_height_value;
use crate::values::spec_float_value;
use crate::values::spec_font_family_value;
use crate::values::spec_font_size_value;
use crate::values::spec_font_style_value;
use crate::values::spec_font_weight_value;
use crate::values::spec_text_align_value;
use crate::values::spec_line_height_value;
use crate::types::spec_unit_from_ll;
use crate::types::ll_unit_to_hl_unit;

verus! {

/// What one engine colour query reported: the type tag and the packed
/// colour value.
#[derive(Clone, Copy, PartialEq, Eq, Structural, Debug)]
pub struct CssRawColor {
    pub tag: u8,
    pub color: u32,
}

/// What one engine dimension query reported: the type tag, the
/// fixed-point length, and the unit code.
#[derive(Clone, Copy, PartialEq, Eq, Structural, Debug)]
pub struct CssRawDimension {
    pub tag: u8,
    pub length: i32,
    pub unit: u32,
}

/// What the engine font-family query reported: the type tag, plus the
/// family-name list whenever a rule supplied one.
#[derive(Clone, Debug)]
pub struct CssRawFontFamily {
    pub tag: u8,
    pub names: Option<Vec<String>>,
}

/// One pseudo-element's resolved properties, exactly as the engine
/// reported them.  The typed accessors below decode each field on
/// demand.
#[derive(Clone, Debug)]
pub struct CssComputedStyle {
    pub color: CssRawColor,
    pub background_color: CssRawColor,
    pub border_top_width: CssRawDimension,
    pub border_right_width: CssRawDimension,
    pub border_bottom_width: CssRawDimension,
    pub border_left_width: CssRawDimension,
    pub border_top_color: CssRawColor,
    pub border_right_color: CssRawColor,
    pub border_bottom_color: CssRawColor,
    pub border_left_color: CssRawColor,
    pub margin_top: CssRawDimension,
    pub margin_right: CssRawDimension,
    pub margin_bottom: CssRawDimension,
    pub margin_left: CssRawDimension,
    pub display: u8,
    pub display_root: u8,
    pub position: u8,
    pub width: CssRawDimension,
    pub height: CssRawDimension,
    pub float: u8,
    pub font_family: CssRawFontFamily,
    pub font_size: CssRawDimension,
    pub font_style: u8,
    pub font_weight: u8,
    pub text_align: u8,
    pub line_height: CssRawDimension,
}

/// An exact copy of a string list.
fn clone_string_vec(v: &Vec<String>) -> (r: Vec<String>)
    ensures
        r@ == v@,
{
    let mut r: Vec<String> = Vec::new();
    let mut i: usize = 0;
    while i < v.len()
        invariant
            i <= v.len(),
            r@ =~= v@.subrange(0, i as int),
        decreases v.len() - i,
    {
        r.push(v[i].clone());
        i = i + 1;
        proof {
            assert(r@ =~= v@.subrange(0, i as int));
        }
    }
    proof {
        assert(r@ =~= v@);
    }
    r
}

/// Two raw font-family entries carry the same information: same tag,
/// and name lists with the same contents.
pub open spec fn spec_raw_font_family_like(a: CssRawFontFamily, b: CssRawFontFamily) -> bool {
    &&& a.tag == b.tag
    &&& match (a.names, b.names) {
        (Some(x), Some(y)) => x@ == y@,
        (None, None) => true,
        _ => false,
    }
}

/// An exact copy of a raw font-family entry.
fn clone_raw_font_family(x: &CssRawFontFamily) -> (r: CssRawFontFamily)
    ensures
        spec_raw_font_family_like(r, *x),
{
    let names = match &x.names {
        Some(v) => Some(clone_string_vec(v)),
        None => None,
    };
    CssRawFontFamily { tag: x.tag, names }
}

impl CssComputedStyle {
    pub fn color(&self) -> (r: Result<CssColorValue, CssValueError>)
        ensures
            r == spec_color_value(self.color.tag, self.color.color),
    {
        CssColorValue::new(self.color.tag, self.color.color)
    }

    pub fn background_color(&self) -> (r: Result<CssColorValue, CssValueError>)
        ensures
            r == spec_color_value(self.background_color.tag, self.background_color.color),
    {
        CssColorValue::new(self.background_color.tag, self.background_color.color)
    }

    pub fn border_top_width(&self) -> (r: Result<CssBorderWidthValue, CssValueError>)
        ensures
            r == spec_border_width_value(
                self.border_top_width.tag,
                self.border_top_width.length,
                self.border_top_width.unit,
            ),
    {
        CssBorderWidthValue::new(
            self.border_top_width.tag,
            self.border_top_width.length,
            self.border_top_width.unit,
        )
    }

    pub fn border_right_width(&self) -> (r: Result<CssBorderWidthValue, CssValueError>)
        ensures
            r == spec_border_width_value(
                self.border_right_width.tag,
                self.border_right_width.length,
                self.border_right_width.unit,
            ),
    {
        CssBorderWidthValue::new(
            self.border_right_width.tag,
            self.border_right_width.length,
            self.border_right_width.unit,
        )
    }

    pub fn border_bottom_width(&self) -> (r: Result<CssBorderWidthValue, CssValueError>)
        ensures
            r == spec_border_width_value(
                self.border_bottom_width.tag,
                self.border_bottom_width.length,
                self.border_bottom_width.unit,
            ),
    {
        CssBorderWidthValue::new(
            self.border_bottom_width.tag,
            self.border_bottom_width.length,
            self.border_bottom_width.unit,
        )
    }

    pub fn border_left_width(&self) -> (r: Result<CssBorderWidthValue, CssValueError>)
        ensures
            r == spec_border_width_value(
                self.border_left_width.tag,
                self.border_left_width.length,
                self.border_left_width.unit,
            ),
    {
        CssBorderWidthValue::new(
            self.border_left_width.tag,
            self.border_left_width.length,
            self.border_left_width.unit,
        )
    }

    pub fn border_top_color(&self) -> (r: Result<CssColorValue, CssValueError>)
        ensures
            r == spec_color_value(self.border_top_color.tag, self.border_top_color.color),
    {
        CssColorValue::new(self.border_top_color.tag, self.border_top_color.color)
    }

    pub fn border_right_color(&self) -> (r: Result<CssColorValue, CssValueError>)
        ensures
            r == spec_color_value(self.border_right_color.tag, self.border_right_color.color),
    {
        CssColorValue::new(self.border_right_color.tag, self.border_right_color.color)
    }

    pub fn border_bottom_color(&self) -> (r: Result<CssColorValue, CssValueError>)
        ensures
            r == spec_color_value(self.border_bottom_color.tag, self.border_bottom_color.color),
    {
        CssColorValue::new(self.border_bottom_color.tag, self.border_bottom_color.color)
    }

    pub fn border_left_color(&self) -> (r: Result<CssColorValue, CssValueError>)
        ensures
            r == spec_color_value(self.border_left_color.tag, self.border_left_color.color),
    {
        CssColorValue::new(self.border_left_color.tag, self.border_left_color.color)
    }

    pub fn margin_top(&self) -> (r: Result<CssMarginValue, CssValueError>)
        ensures
            r == spec_margin_value(
                self.margin_top.tag,
                self.margin_top.length,
                self.margin_top.unit,
            ),
    {
        CssMarginValue::new(self.margin_top.tag, self.margin_top.length, self.margin_top.unit)
    }

    pub fn margin_right(&self) -> (r: Result<CssMarginValue, CssValueError>)
        ensures
            r == spec_margin_value(
                self.margin_right.tag,
                self.margin_right.length,
                self.margin_right.unit,
            ),
    {
        CssMarginValue::new(self.margin_right.tag, self.margin_right.length, self.margin_right.unit)
    }

    pub fn margin_bottom(&self) -> (r: Result<CssMarginValue, CssValueError>)
        ensures
            r == spec_margin_value(
                self.margin_bottom.tag,
                self.margin_bottom.length,
                self.margin_bottom.unit,
            ),
    {
        CssMarginValue::new(
            self.margin_bottom.tag,
            self.margin_bottom.length,
            self.margin_bottom.unit,
        )
    }

    pub fn margin_left(&self) -> (r: Result<CssMarginValue, CssValueError>)
        ensures
            r == spec_margin_value(
                self.margin_left.tag,
                self.margin_left.length,
                self.margin_left.unit,
            ),
    {
        CssMarginValue::new(self.margin_left.tag, self.margin_left.length, self.margin_left.unit)
    }

    pub fn display(&self, root: bool) -> (r: Result<CssDisplayValue, CssValueError>)
        ensures
            !root ==> r == spec_display_value(self.display),
            root ==> r == spec_display_value(self.display_root),
    {
        if root {
            CssDisplayValue::new(self.display_root)
        } else {
            CssDisplayValue::new(self.display)
        }
    }

    pub fn position(&self) -> (r: Result<CssPositionValue, CssValueError>)
        ensures
            r == spec_position_value(self.position),
    {
        CssPositionValue::new(self.position)
    }

    pub fn width(&self) -> (r: Result<CssWidthValue, CssValueError>)
        ensures
            r == spec_width_value(self.width.tag, self.width.length, self.width.unit),
    {
        CssWidthValue::new(self.width.tag, self.width.length, self.width.unit)
    }

    pub fn height(&self) -> (r: Result<CssHeightValue, CssValueError>)
        ensures
            r == spec_height_value(self.height.tag, self.height.length, self.height.unit),
    {
        CssHeightValue::new(self.height.tag, self.height.length, self.height.unit)
    }

    pub fn float(&self) -> (r: Result<CssFloatValue, CssValueError>)
        ensures
            r == spec_float_value(self.float),
    {
        CssFloatValue::new(self.float)
    }

    pub fn font_family(&self) -> (r: Result<CssFontFamilyValue, CssValueError>)
        ensures
            self.font_family.names is None ==> r == spec_font_family_value(
                self.font_family.tag,
                None,
            ),
            self.font_family.names matches Some(v) ==> (r matches Ok(fam) && (
            fam matches CssFontFamilyValue::CssFontFamilyValue(list) && list@ == v@)),
    {
        match &self.font_family.names {
            Some(v) => Ok(CssFontFamilyValue::CssFontFamilyValue(clone_string_vec(v))),
            None => CssFontFamilyValue::new(self.font_family.tag, None),
        }
    }

    pub fn font_size(&self) -> (r: Result<CssFontSizeValue, CssValueError>)
        ensures
            r == spec_font_size_value(
                self.font_size.tag,
                self.font_size.length,
                self.font_size.unit,
            ),
    {
        CssFontSizeValue::new(self.font_size.tag, self.font_size.length, self.font_size.unit)
    }

    pub fn font_style(&self) -> (r: Result<CssFontStyleValue, CssValueError>)
        ensures
            r == spec_font_style_value(self.font_style),
    {
        CssFontStyleValue::new(self.font_style)
    }

    pub fn font_weight(&self) -> (r: Result<CssFontWeightValue, CssValueError>)
        ensures
            r == spec_font_weight_value(self.font_weight),
    {
        CssFontWeightValue::new(self.font_weight)
    }

    pub fn text_align(&self) -> (r: Result<CssTextAlignValue, CssValueError>)
        ensures
            r == spec_text_align_value(self.text_align),
    {
        CssTextAlignValue::new(self.text_align)
    }

    pub fn line_height(&self) -> (r: Result<CssLineHeightValue, CssValueError>)
        ensures
            r == spec_line_height_value(
                self.line_height.tag,
                self.line_height.length,
                self.line_height.unit,
            ),
    {
        CssLineHeightValue::new(
            self.line_height.tag,
            self.line_height.length,
            self.line_height.unit,
        )
    }
}

/// Composition of one colour entry: the child's unless it inherits.
pub open spec fn spec_compose_raw_color(p: CssRawColor, c: CssRawColor) -> CssRawColor {
    if c.tag == CSS_COLOR_INHERIT {
        p
    } else {
        c
    }
}

/// Composition of one dimension entry: the child's unless its tag is
/// the property's "inherit" tag (tag zero for every dimensioned
/// property).
pub open spec fn spec_compose_raw_dimension(p: CssRawDimension, c: CssRawDimension) -> CssRawDimension {
    if c.tag == 0 {
        p
    } else {
        c
    }
}

/// Composition of one keyword entry: the child's unless its tag is the
/// property's "inherit" tag (tag zero for every keyword property).
pub open spec fn spec_compose_keyword(p: u8, c: u8) -> u8 {
    if c == 0 {
        p
    } else {
        c
    }
}

/// A child font-family entry inherits when its tag says so and no name
/// list was set.
pub open spec fn spec_font_family_inherits(c: CssRawFontFamily) -> bool {
    c.tag == CSS_FONT_FAMILY_INHERIT && c.names is None
}

/// Composition of the font-family entry: the composed entry carries the
/// child's information, or the parent's when the child inherits.
pub open spec fn spec_compose_font_family_ok(
    p: CssRawFontFamily,
    c: CssRawFontFamily,
    s: CssRawFontFamily,
) -> bool {
    if spec_font_family_inherits(c) {
        spec_raw_font_family_like(s, p)
    } else {
        spec_raw_font_family_like(s, c)
    }
}

/// Every property of the composed style except font size follows the
/// plain inherit rule.
pub open spec fn spec_compose_plain(
    parent: CssComputedStyle,
    child: CssComputedStyle,
    s: CssComputedStyle,
) -> bool {
    &&& s.color == spec_compose_raw_color(parent.color, child.color)
    &&& s.background_color == spec_compose_raw_color(parent.background_color, child.background_color)
    &&& s.border_top_width == spec_compose_raw_dimension(
        parent.border_top_width,
        child.border_top_width,
    )
    &&& s.border_right_width == spec_compose_raw_dimension(
        parent.border_right_width,
        child.border_right_width,
    )
    &&& s.border_bottom_width == spec_compose_raw_dimension(
        parent.border_bottom_width,
        child.border_bottom_width,
    )
    &&& s.border_left_width == spec_compose_raw_dimension(
        parent.border_left_width,
        child.border_left_width,
    )
    &&& s.border_top_color == spec_compose_raw_color(
        parent.border_top_color,
        child.border_top_color,
    )
    &&& s.border_right_color == spec_compose_raw_color(
        parent.border_right_color,
        child.border_right_color,
    )
    &&& s.border_bottom_color == spec_compose_raw_color(
        parent.border_bottom_color,
        child.border_bottom_color,
    )
    &&& s.border_left_color == spec_compose_raw_color(
        parent.border_left_color,
        child.border_left_color,
    )
    &&& s.margin_top == spec_compose_raw_dimension(parent.margin_top, child.margin_top)
    &&& s.margin_right == spec_compose_raw_dimension(parent.margin_right, child.margin_right)
    &&& s.margin_bottom == spec_compose_raw_dimension(parent.margin_bottom, child.margin_bottom)
    &&& s.margin_left == spec_compose_raw_dimension(parent.margin_left, child.margin_left)
    &&& s.display == spec_compose_keyword(parent.display, child.display)
    &&& s.display_root == spec_compose_keyword(parent.display_root, child.display_root)
    &&& s.position == spec_compose_keyword(parent.position, child.position)
    &&& s.width == spec_compose_raw_dimension(parent.width, child.width)
    &&& s.height == spec_compose_raw_dimension(parent.height, child.height)
    &&& s.float == spec_compose_keyword(parent.float, child.float)
    &&& spec_compose_font_family_ok(parent.font_family, child.font_family, s.font_family)
    &&& s.font_style == spec_compose_keyword(parent.font_style, child.font_style)
    &&& s.font_weight == spec_compose_keyword(parent.font_weight, child.font_weight)
    &&& s.text_align == spec_compose_keyword(parent.text_align, child.text_align)
    &&& s.line_height == spec_compose_raw_dimension(parent.line_height, child.line_height)
}

/// A font-size entry is decodable when a dimension tag carries a known
/// unit code.
pub open spec fn spec_dimension_decodable(d: CssRawDimension) -> bool {
    d.tag == CSS_FONT_SIZE_DIMENSION ==> spec_unit_from_ll(d.unit, d.length) is Some
}

/// The parent-side hint the font-size resolver is invoked with: the
/// parent's resolved dimension, or absent when the parent has none.
pub open spec fn spec_fs_parent_arg(d: CssRawDimension) -> Option<CssHint> {
    if d.tag == CSS_FONT_SIZE_DIMENSION {
        match spec_unit_from_ll(d.unit, d.length) {
            Some(u) => Some(CssHint::CssHintLength(u)),
            None => None,
        }
    } else {
        None
    }
}

/// The child-side hint the font-size resolver is invoked with: the
/// child's dimension, or the unrecognized marker when the child's entry
/// is no dimension.
pub open spec fn spec_fs_child_arg(d: CssRawDimension) -> CssHint {
    if d.tag == CSS_FONT_SIZE_DIMENSION {
        match spec_unit_from_ll(d.unit, d.length) {
            Some(u) => CssHint::CssHintLength(u),
            None => CssHint::CssHintUnknown,
        }
    } else {
        CssHint::CssHintUnknown
    }
}

/// How a resolver's answer fails to be a usable font size, if it does.
pub open spec fn spec_fs_result_error(ret: CssHint) -> Option<CssHintError> {
    match ret {
        CssHint::CssHintLength(u) => None,
        CssHint::CssHintUnknown => Some(
            CssHintError::UnknownHint(CssProperty::CssPropFontSize),
        ),
        _ => Some(CssHintError::HintShapeMismatch(CssProperty::CssPropFontSize)),
    }
}

/// Why a composition failed: a dimension entry carried an unknown unit
/// code, or the font-size resolver answered with something that is not
/// a dimensioned hint.
#[derive(Clone, Copy, PartialEq, Eq, Structural, Debug)]
pub enum CssComposeError {
    UnknownUnit { unit: u32 },
    Hint(CssHintError),
}

/// Merges a parent and a child computed style.  Every property takes
/// the child's entry unless the child inherits, in which case it takes
/// the parent's — except font size, which is recomputed by the
/// host-supplied resolver, invoked once with the parent's resolved
/// dimension (absent for a root) and the child's own hint; the composed
/// font size is the resolver's answer verbatim.
pub fn compose<F: Fn(Option<CssHint>, CssHint) -> CssHint>(
    parent: &CssComputedStyle,
    child: &CssComputedStyle,
    compute_font_size: F,
) -> (r: Result<CssComputedStyle, CssComposeError>)
    requires
        forall|p: Option<CssHint>, c: CssHint| #[trigger] call_requires(compute_font_size, (p, c)),
    ensures
        match r {
            Ok(s) => spec_dimension_decodable(parent.font_size) && spec_dimension_decodable(
                child.font_size,
            ) && spec_compose_plain(*parent, *child, s) && (exists|ret: CssHint|
                #[trigger] call_ensures(
                    compute_font_size,
                    (spec_fs_parent_arg(parent.font_size), spec_fs_child_arg(child.font_size)),
                    ret,
                ) && (ret matches CssHint::CssHintLength(u) && s.font_size == (CssRawDimension {
                    tag: CSS_FONT_SIZE_DIMENSION,
                    length: u.spec_to_ll().1,
                    unit: u.spec_to_ll().0,
                }))),
            Err(e) => match e {
                CssComposeError::UnknownUnit { unit } => if !spec_dimension_decodable(
                    parent.font_size,
                ) {
                    unit == parent.font_size.unit
                } else {
                    !spec_dimension_decodable(child.font_size) && unit == child.font_size.unit
                },
                CssComposeError::Hint(he) => spec_dimension_decodable(parent.font_size)
                    && spec_dimension_decodable(child.font_size) && (exists|ret: CssHint|
                    #[trigger] call_ensures(
                        compute_font_size,
                        (spec_fs_parent_arg(parent.font_size), spec_fs_child_arg(child.font_size)),
                        ret,
                    ) && spec_fs_result_error(ret) == Some(he)),
            },
        },
{
    let parent_arg: Option<CssHint> = if parent.font_size.tag == CSS_FONT_SIZE_DIMENSION {
        match ll_unit_to_hl_unit(parent.font_size.unit, parent.font_size.length) {
            Some(u) => Some(CssHint::CssHintLength(u)),
            None => {
                return Err(CssComposeError::UnknownUnit { unit: parent.font_size.unit });
            },
        }
    } else {
        None
    };
    let child_arg: CssHint = if child.font_size.tag == CSS_FONT_SIZE_DIMENSION {
        match ll_unit_to_hl_unit(child.font_size.unit, child.font_size.length) {
            Some(u) => CssHint::CssHintLength(u),
            None => {
                return Err(CssComposeError::UnknownUnit { unit: child.font_size.unit });
            },
        }
    } else {
        CssHint::CssHintUnknown
    };
    let ret = compute_font_size(parent_arg, child_arg);
    let font_size: CssRawDimension = match &ret {
        CssHint::CssHintLength(u) => {
            let (unit, length) = u.to_ll();
            CssRawDimension { tag: CSS_FONT_SIZE_DIMENSION, length, unit }
        },
        CssHint::CssHintUnknown => {
            return Err(
                CssComposeError::Hint(CssHintError::UnknownHint(CssProperty::CssPropFontSize)),
            );
        },
        _ => {
            return Err(
                CssComposeError::Hint(
                    CssHintError::HintShapeMismatch(CssProperty::CssPropFontSize),
                ),
            );
        },
    };
    let font_family = if child.font_family.tag == CSS_FONT_FAMILY_INHERIT
        && child.font_family.names.is_none() {
        clone_raw_font_family(&parent.font_family)
    } else {
        clone_raw_font_family(&child.font_family)
    };
    Ok(
        CssComputedStyle {
            color: if child.color.tag == CSS_COLOR_INHERIT {
                parent.color
            } else {
                child.color
            },
            background_color: if child.background_color.tag == CSS_COLOR_INHERIT {
                parent.background_color
            } else {
                child.background_color
            },
            border_top_width: if child.border_top_width.tag == 0 {
                parent.border_top_width
            } else {
                child.border_top_width
            },
            border_right_width: if child.border_right_width.tag == 0 {
                parent.border_right_width
            } else {
                child.border_right_width
            },
            border_bottom_width: if child.border_bottom_width.tag == 0 {
                parent.border_bottom_width
            } else {
                child.border_bottom_width
            },
            border_left_width: if child.border_left_width.tag == 0 {
                parent.border_left_width
            } else {
                child.border_left_width
            },
            border_top_color: if child.border_top_color.tag == CSS_COLOR_INHERIT {
                parent.border_top_color
            } else {
                child.border_top_color
            },
            border_right_color: if child.border_right_color.tag == CSS_COLOR_INHERIT {
                parent.border_right_color
            } else {
                child.border_right_color
            },
            border_bottom_color: if child.border_bottom_color.tag == CSS_COLOR_INHERIT {
                parent.border_bottom_color
            } else {
                child.border_bottom_color
            },
            border_left_color: if child.border_left_color.tag == CSS_COLOR_INHERIT {
                parent.border_left_color
            } else {
                child.border_left_color
            },
            margin_top: if child.margin_top.tag == 0 {
                parent.margin_top
            } else {
                child.margin_top
            },
            margin_right: if child.margin_right.tag == 0 {
                parent.margin_right
            } else {
                child.margin_right
            },
            margin_bottom: if child.margin_bottom.tag == 0 {
                parent.margin_bottom
            } else {
                child.margin_bottom
            },
            margin_left: if child.margin_left.tag == 0 {
                parent.margin_left
            } else {
                child.margin_left
            },
            display: if child.display == 0 {
                parent.display
            } else {
                child.display
            },
            display_root: if child.display_root == 0 {
                parent.display_root
            } else {
                child.display_root
            },
            position: if child.position == 0 {
                parent.position
            } else {
                child.position
            },
            width: if child.width.tag == 0 {
                parent.width
            } else {
                child.width
            },
            height: if child.height.tag == 0 {
                parent.height
            } else {
                child.height
            },
            float: if child.float == 0 {
                parent.float
            } else {
                child.float
            },
            font_family,
            font_size,
            font_style: if child.font_style == 0 {
                parent.font_style
            } else {
                child.font_style
            },
            font_weight: if child.font_weight == 0 {
                parent.font_weight
            } else {
                child.font_weight
            },
            text_align: if child.text_align == 0 {
                parent.text_align
            } else {
                child.text_align
            },
            line_height: if child.line_height.tag == 0 {
                parent.line_height
            } else {
                child.line_height
            },
        },
    )
}

/// What the composition-time font-size router guarantees: the resolver
/// was invoked once with the decoded parent and child hints, and the
/// record holds its answer encoded (or, when the answer could not be
/// encoded, the record is untouched and the codec's refusal is
/// reported).
pub open spec fn spec_compute_font_size_cb_post<F: Fn(Option<CssHint>, CssHint) -> CssHint>(
    f: F,
    parent_hint: Option<CssHint>,
    child_hint: CssHint,
    pre: CssHintRecord,
    post: CssHintRecord,
    r: Result<(), CssHintError>,
) -> bool {
    match r {
        Ok(u) => exists|ret: CssHint|
            #[trigger] call_ensures(f, (parent_hint, child_hint), ret) && spec_hint_write(
                CssProperty::CssPropFontSize,
                ret,
                pre.spec_bytes(),
            ) == Ok::<Seq<u8>, CssHintError>(post.spec_bytes()),
        Err(e) => exists|ret: CssHint|
            #[trigger] call_ensures(f, (parent_hint, child_hint), ret) && spec_hint_write(
                CssProperty::CssPropFontSize,
                ret,
                pre.spec_bytes(),
            ) == Err::<Seq<u8>, CssHintError>(e) && post == pre,
    }
}

/// The parent-side hint the composition router hands the resolver: the
/// decoding of the parent's record, absent for a root.
pub open spec fn spec_cb_parent_hint(parent: Option<&CssHintRecord>) -> Option<CssHint> {
    match parent {
        Some(p) => Some(spec_hint_new(CssProperty::CssPropFontSize, p.spec_bytes())->Ok_0),
        None => None,
    }
}

/// The composition-time font-size router: decodes the parent's hint
/// record (absent for a root) and the child's, hands both to the
/// host-supplied resolver, and writes the resolver's answer back into
/// the child's record.  A resolver answer that is no dimensioned hint
/// leaves the record untouched and reports the codec's refusal.
pub fn compute_font_size_cb<F: Fn(Option<CssHint>, CssHint) -> CssHint>(
    parent: Option<&CssHintRecord>,
    size: &mut CssHintRecord,
    compute_font_size: F,
) -> (r: Result<(), CssHintError>)
    requires
        old(size).wf(),
        parent matches Some(p) ==> p.wf(),
        forall|p: Option<CssHint>, c: CssHint| #[trigger] call_requires(compute_font_size, (p, c)),
    ensures
        final(size).wf(),
        spec_compute_font_size_cb_post(
            compute_font_size,
            spec_cb_parent_hint(parent),
            spec_hint_new(CssProperty::CssPropFontSize, old(size).spec_bytes())->Ok_0,
            *old(size),
            *final(size),
            r,
        ),
{
    let ghost pre_rec = *size;
    let parent_hint: Option<CssHint> = match parent {
        Some(p) => match CssHint::new(CssProperty::CssPropFontSize, p) {
            Ok(h) => Some(h),
            Err(e) => Some(CssHint::CssHintUnknown),
        },
        None => None,
    };
    let child_hint = match CssHint::new(CssProperty::CssPropFontSize, size) {
        Ok(h) => h,
        Err(e) => CssHint::CssHintUnknown,
    };
    let ghost pa = parent_hint;
    let ghost ca = child_hint;
    proof {
        let spa: Option<CssHint> = match parent {
            Some(p) => Some(spec_hint_new(CssProperty::CssPropFontSize, p.spec_bytes())->Ok_0),
            None => None,
        };
        let sca = spec_hint_new(CssProperty::CssPropFontSize, pre_rec.spec_bytes())->Ok_0;
        assert(pa == spa);
        assert(ca == sca);
    }
    let new_hint = compute_font_size(parent_hint, child_hint);
    let r = new_hint.write_to_ll(CssProperty::CssPropFontSize, size);
    proof {
        assert(call_ensures(compute_font_size, (pa, ca), new_hint));
        assert(spec_compute_font_size_cb_post(compute_font_size, pa, ca, pre_rec, *size, r));
    }
    r
}

} // verus!
