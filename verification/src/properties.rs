//! The engine's closed property enumeration and the small keyword
//! enumerations used by hints and system fonts.
//!
//! Property identifiers cross the boundary as integers; the numbering is
//! fixed by the engine, so the two conversion functions below are the only
//! place it appears, and decoding is specified exactly: every code up to
//! the last property decodes to precisely one variant, everything beyond
//! it to none.

use vstd::prelude::*;

verus! {

/// One variant per property the engine knows, in the engine's numbering
/// order (`property_from_uint` assigns the codes).
#[derive(Clone, Copy, PartialEq, Eq, Structural, Debug)]
pub enum CssProperty {
    CssPropAzimuth,
    CssPropBackgroundAttachment,
    CssPropBackgroundColor,
    CssPropBackgroundImage,
    CssPropBackgroundPosition,
    CssPropBackgroundRepeat,
    CssPropBorderCollapse,
    CssPropBorderSpacing,
    CssPropBorderTopColor,
    CssPropBorderRightColor,
    CssPropBorderBottomColor,
    CssPropBorderLeftColor,
    CssPropBorderTopStyle,
    CssPropBorderRightStyle,
    CssPropBorderBottomStyle,
    CssPropBorderLeftStyle,
    CssPropBorderTopWidth,
    CssPropBorderRightWidth,
    CssPropBorderBottomWidth,
    CssPropBorderLeftWidth,
    CssPropBottom,
    CssPropCaptionSide,
    CssPropClear,
    CssPropClip,
    CssPropColor,
    CssPropContent,
    CssPropCounterIncrement,
    CssPropCounterReset,
    CssPropCueAfter,
    CssPropCueBefore,
    CssPropCursor,
    CssPropDirection,
    CssPropDisplay,
    CssPropElevation,
    CssPropEmptyCells,
    CssPropFloat,
    CssPropFontFamily,
    CssPropFontSize,
    CssPropFontStyle,
    CssPropFontVariant,
    CssPropFontWeight,
    CssPropHeight,
    CssPropLeft,
    CssPropLetterSpacing,
    CssPropLineHeight,
    CssPropListStyleImage,
    CssPropListStylePosition,
    CssPropListStyleType,
    CssPropMarginTop,
    CssPropMarginRight,
    CssPropMarginBottom,
    CssPropMarginLeft,
    CssPropMaxHeight,
    CssPropMaxWidth,
    CssPropMinHeight,
    CssPropMinWidth,
    CssPropOrphans,
    CssPropOutlineColor,
    CssPropOutlineStyle,
    CssPropOutlineWidth,
    CssPropOverflow,
    CssPropPaddingTop,
    CssPropPaddingRight,
    CssPropPaddingBottom,
    CssPropPaddingLeft,
    CssPropPageBreakAfter,
    CssPropPageBreakBefore,
    CssPropPageBreakInside,
    CssPropPauseAfter,
    CssPropPauseBefore,
    CssPropPitchRange,
    CssPropPitch,
    CssPropPlayDuring,
    CssPropPosition,
    CssPropQuotes,
    CssPropRichness,
    CssPropRight,
    CssPropSpeakHeader,
    CssPropSpeakNumeral,
    CssPropSpeakPunctuation,
    CssPropSpeak,
    CssPropSpeechRate,
    CssPropStress,
    CssPropTableLayout,
    CssPropTextAlign,
    CssPropTextDecoration,
    CssPropTextIndent,
    CssPropTextTransform,
    CssPropTop,
    CssPropUnicodeBidi,
    CssPropVerticalAlign,
    CssPropVisibility,
    CssPropVoiceFamily,
    CssPropVolume,
    CssPropWhiteSpace,
    CssPropWidows,
    CssPropWidth,
    CssPropWordSpacing,
    CssPropZIndex,
    CssPropOpacity,
    CssPropBreakAfter,
    CssPropBreakBefore,
    CssPropBreakInside,
    CssPropColumnCount,
    CssPropColumnFill,
    CssPropColumnGap,
    CssPropColumnRuleColor,
    CssPropColumnRuleStyle,
    CssPropColumnRuleWidth,
    CssPropColumnSpan,
    CssPropClomumnWidth,
}

/// The property named by an engine code, if any.
pub open spec fn spec_property_from_uint(property: u32) -> Option<CssProperty> {
    if property == 0 {
        Some(CssProperty::CssPropAzimuth)
    } else if property == 1 {
        Some(CssProperty::CssPropBackgroundAttachment)
    } else if property == 2 {
        Some(CssProperty::CssPropBackgroundColor)
    } else if property == 3 {
        Some(CssProperty::CssPropBackgroundImage)
    } else if property == 4 {
        Some(CssProperty::CssPropBackgroundPosition)
    } else if property == 5 {
        Some(CssProperty::CssPropBackgroundRepeat)
    } else if property == 6 {
        Some(CssProperty::CssPropBorderCollapse)
    } else if property == 7 {
        Some(CssProperty::CssPropBorderSpacing)
    } else if property == 8 {
        Some(CssProperty::CssPropBorderTopColor)
    } else if property == 9 {
        Some(CssProperty::CssPropBorderRightColor)
    } else if property == 10 {
        Some(CssProperty::CssPropBorderBottomColor)
    } else if property == 11 {
        Some(CssProperty::CssPropBorderLeftColor)
    } else if property == 12 {
        Some(CssProperty::CssPropBorderTopStyle)
    } else if property == 13 {
        Some(CssProperty::CssPropBorderRightStyle)
    } else if property == 14 {
        Some(CssProperty::CssPropBorderBottomStyle)
    } else if property == 15 {
        Some(CssProperty::CssPropBorderLeftStyle)
    } else if property == 16 {
        Some(CssProperty::CssPropBorderTopWidth)
    } else if property == 17 {
        Some(CssProperty::CssPropBorderRightWidth)
    } else if property == 18 {
        Some(CssProperty::CssPropBorderBottomWidth)
    } else if property == 19 {
        Some(CssProperty::CssPropBorderLeftWidth)
    } else if property == 20 {
        Some(CssProperty::CssPropBottom)
    } else if property == 21 {
        Some(CssProperty::CssPropCaptionSide)
    } else if property == 22 {
        Some(CssProperty::CssPropClear)
    } else if property == 23 {
        Some(CssProperty::CssPropClip)
    } else if property == 24 {
        Some(CssProperty::CssPropColor)
    } else if property == 25 {
        Some(CssProperty::CssPropContent)
    } else if property == 26 {
        Some(CssProperty::CssPropCounterIncrement)
    } else if property == 27 {
        Some(CssProperty::CssPropCounterReset)
    } else if property == 28 {
        Some(CssProperty::CssPropCueAfter)
    } else if property == 29 {
        Some(CssProperty::CssPropCueBefore)
    } else if property == 30 {
        Some(CssProperty::CssPropCursor)
    } else if property == 31 {
        Some(CssProperty::CssPropDirection)
    } else if property == 32 {
        Some(CssProperty::CssPropDisplay)
    } else if property == 33 {
        Some(CssProperty::CssPropElevation)
    } else if property == 34 {
        Some(CssProperty::CssPropEmptyCells)
    } else if property == 35 {
        Some(CssProperty::CssPropFloat)
    } else if property == 36 {
        Some(CssProperty::CssPropFontFamily)
    } else if property == 37 {
        Some(CssProperty::CssPropFontSize)
    } else if property == 38 {
        Some(CssProperty::CssPropFontStyle)
    } else if property == 39 {
        Some(CssProperty::CssPropFontVariant)
    } else if property == 40 {
        Some(CssProperty::CssPropFontWeight)
    } else if property == 41 {
        Some(CssProperty::CssPropHeight)
    } else if property == 42 {
        Some(CssProperty::CssPropLeft)
    } else if property == 43 {
        Some(CssProperty::CssPropLetterSpacing)
    } else if property == 44 {
        Some(CssProperty::CssPropLineHeight)
    } else if property == 45 {
        Some(CssProperty::CssPropListStyleImage)
    } else if property == 46 {
        Some(CssProperty::CssPropListStylePosition)
    } else if property == 47 {
        Some(CssProperty::CssPropListStyleType)
    } else if property == 48 {
        Some(CssProperty::CssPropMarginTop)
    } else if property == 49 {
        Some(CssProperty::CssPropMarginRight)
    } else if property == 50 {
        Some(CssProperty::CssPropMarginBottom)
    } else if property == 51 {
        Some(CssProperty::CssPropMarginLeft)
    } else if property == 52 {
        Some(CssProperty::CssPropMaxHeight)
    } else if property == 53 {
        Some(CssProperty::CssPropMaxWidth)
    } else if property == 54 {
        Some(CssProperty::CssPropMinHeight)
    } else if property == 55 {
        Some(CssProperty::CssPropMinWidth)
    } else if property == 56 {
        Some(CssProperty::CssPropOrphans)
    } else if property == 57 {
        Some(CssProperty::CssPropOutlineColor)
    } else if property == 58 {
        Some(CssProperty::CssPropOutlineStyle)
    } else if property == 59 {
        Some(CssProperty::CssPropOutlineWidth)
    } else if property == 60 {
        Some(CssProperty::CssPropOverflow)
    } else if property == 61 {
        Some(CssProperty::CssPropPaddingTop)
    } else if property == 62 {
        Some(CssProperty::CssPropPaddingRight)
    } else if property == 63 {
        Some(CssProperty::CssPropPaddingBottom)
    } else if property == 64 {
        Some(CssProperty::CssPropPaddingLeft)
    } else if property == 65 {
        Some(CssProperty::CssPropPageBreakAfter)
    } else if property == 66 {
        Some(CssProperty::CssPropPageBreakBefore)
    } else if property == 67 {
        Some(CssProperty::CssPropPageBreakInside)
    } else if property == 68 {
        Some(CssProperty::CssPropPauseAfter)
    } else if property == 69 {
        Some(CssProperty::CssPropPauseBefore)
    } else if property == 70 {
        Some(CssProperty::CssPropPitchRange)
    } else if property == 71 {
        Some(CssProperty::CssPropPitch)
    } else if property == 72 {
        Some(CssProperty::CssPropPlayDuring)
    } else if property == 73 {
        Some(CssProperty::CssPropPosition)
    } else if property == 74 {
        Some(CssProperty::CssPropQuotes)
    } else if property == 75 {
        Some(CssProperty::CssPropRichness)
    } else if property == 76 {
        Some(CssProperty::CssPropRight)
    } else if property == 77 {
        Some(CssProperty::CssPropSpeakHeader)
    } else if property == 78 {
        Some(CssProperty::CssPropSpeakNumeral)
    } else if property == 79 {
        Some(CssProperty::CssPropSpeakPunctuation)
    } else if property == 80 {
        Some(CssProperty::CssPropSpeak)
    } else if property == 81 {
        Some(CssProperty::CssPropSpeechRate)
    } else if property == 82 {
        Some(CssProperty::CssPropStress)
    } else if property == 83 {
        Some(CssProperty::CssPropTableLayout)
    } else if property == 84 {
        Some(CssProperty::CssPropTextAlign)
    } else if property == 85 {
        Some(CssProperty::CssPropTextDecoration)
    } else if property == 86 {
        Some(CssProperty::CssPropTextIndent)
    } else if property == 87 {
        Some(CssProperty::CssPropTextTransform)
    } else if property == 88 {
        Some(CssProperty::CssPropTop)
    } else if property == 89 {
        Some(CssProperty::CssPropUnicodeBidi)
    } else if property == 90 {
        Some(CssProperty::CssPropVerticalAlign)
    } else if property == 91 {
        Some(CssProperty::CssPropVisibility)
    } else if property == 92 {
        Some(CssProperty::CssPropVoiceFamily)
    } else if property == 93 {
        Some(CssProperty::CssPropVolume)
    } else if property == 94 {
        Some(CssProperty::CssPropWhiteSpace)
    } else if property == 95 {
        Some(CssProperty::CssPropWidows)
    } else if property == 96 {
        Some(CssProperty::CssPropWidth)
    } else if property == 97 {
        Some(CssProperty::CssPropWordSpacing)
    } else if property == 98 {
        Some(CssProperty::CssPropZIndex)
    } else if property == 99 {
        Some(CssProperty::CssPropOpacity)
    } else if property == 100 {
        Some(CssProperty::CssPropBreakAfter)
    } else if property == 101 {
        Some(CssProperty::CssPropBreakBefore)
    } else if property == 102 {
        Some(CssProperty::CssPropBreakInside)
    } else if property == 103 {
        Some(CssProperty::CssPropColumnCount)
    } else if property == 104 {
        Some(CssProperty::CssPropColumnFill)
    } else if property == 105 {
        Some(CssProperty::CssPropColumnGap)
    } else if property == 106 {
        Some(CssProperty::CssPropColumnRuleColor)
    } else if property == 107 {
        Some(CssProperty::CssPropColumnRuleStyle)
    } else if property == 108 {
        Some(CssProperty::CssPropColumnRuleWidth)
    } else if property == 109 {
        Some(CssProperty::CssPropColumnSpan)
    } else if property == 110 {
        Some(CssProperty::CssPropClomumnWidth)
    } else {
        None
    }
}

/// Decodes an engine property code.
pub fn property_from_uint(property: u32) -> (r: Option<CssProperty>)
    ensures
        r == spec_property_from_uint(property),
{
    if property == 0 {
        Some(CssProperty::CssPropAzimuth)
    } else if property == 1 {
        Some(CssProperty::CssPropBackgroundAttachment)
    } else if property == 2 {
        Some(CssProperty::CssPropBackgroundColor)
    } else if property == 3 {
        Some(CssProperty::CssPropBackgroundImage)
    } else if property == 4 {
        Some(CssProperty::CssPropBackgroundPosition)
    } else if property == 5 {
        Some(CssProperty::CssPropBackgroundRepeat)
    } else if property == 6 {
        Some(CssProperty::CssPropBorderCollapse)
    } else if property == 7 {
        Some(CssProperty::CssPropBorderSpacing)
    } else if property == 8 {
        Some(CssProperty::CssPropBorderTopColor)
    } else if property == 9 {
        Some(CssProperty::CssPropBorderRightColor)
    } else if property == 10 {
        Some(CssProperty::CssPropBorderBottomColor)
    } else if property == 11 {
        Some(CssProperty::CssPropBorderLeftColor)
    } else if property == 12 {
        Some(CssProperty::CssPropBorderTopStyle)
    } else if property == 13 {
        Some(CssProperty::CssPropBorderRightStyle)
    } else if property == 14 {
        Some(CssProperty::CssPropBorderBottomStyle)
    } else if property == 15 {
        Some(CssProperty::CssPropBorderLeftStyle)
    } else if property == 16 {
        Some(CssProperty::CssPropBorderTopWidth)
    } else if property == 17 {
        Some(CssProperty::CssPropBorderRightWidth)
    } else if property == 18 {
        Some(CssProperty::CssPropBorderBottomWidth)
    } else if property == 19 {
        Some(CssProperty::CssPropBorderLeftWidth)
    } else if property == 20 {
        Some(CssProperty::CssPropBottom)
    } else if property == 21 {
        Some(CssProperty::CssPropCaptionSide)
    } else if property == 22 {
        Some(CssProperty::CssPropClear)
    } else if property == 23 {
        Some(CssProperty::CssPropClip)
    } else if property == 24 {
        Some(CssProperty::CssPropColor)
    } else if property == 25 {
        Some(CssProperty::CssPropContent)
    } else if property == 26 {
        Some(CssProperty::CssPropCounterIncrement)
    } else if property == 27 {
        Some(CssProperty::CssPropCounterReset)
    } else if property == 28 {
        Some(CssProperty::CssPropCueAfter)
    } else if property == 29 {
        Some(CssProperty::CssPropCueBefore)
    } else if property == 30 {
        Some(CssProperty::CssPropCursor)
    } else if property == 31 {
        Some(CssProperty::CssPropDirection)
    } else if property == 32 {
        Some(CssProperty::CssPropDisplay)
    } else if property == 33 {
        Some(CssProperty::CssPropElevation)
    } else if property == 34 {
        Some(CssProperty::CssPropEmptyCells)
    } else if property == 35 {
        Some(CssProperty::CssPropFloat)
    } else if property == 36 {
        Some(CssProperty::CssPropFontFamily)
    } else if property == 37 {
        Some(CssProperty::CssPropFontSize)
    } else if property == 38 {
        Some(CssProperty::CssPropFontStyle)
    } else if property == 39 {
        Some(CssProperty::CssPropFontVariant)
    } else if property == 40 {
        Some(CssProperty::CssPropFontWeight)
    } else if property == 41 {
        Some(CssProperty::CssPropHeight)
    } else if property == 42 {
        Some(CssProperty::CssPropLeft)
    } else if property == 43 {
        Some(CssProperty::CssPropLetterSpacing)
    } else if property == 44 {
        Some(CssProperty::CssPropLineHeight)
    } else if property == 45 {
        Some(CssProperty::CssPropListStyleImage)
    } else if property == 46 {
        Some(CssProperty::CssPropListStylePosition)
    } else if property == 47 {
        Some(CssProperty::CssPropListStyleType)
    } else if property == 48 {
        Some(CssProperty::CssPropMarginTop)
    } else if property == 49 {
        Some(CssProperty::CssPropMarginRight)
    } else if property == 50 {
        Some(CssProperty::CssPropMarginBottom)
    } else if property == 51 {
        Some(CssProperty::CssPropMarginLeft)
    } else if property == 52 {
        Some(CssProperty::CssPropMaxHeight)
    } else if property == 53 {
        Some(CssProperty::CssPropMaxWidth)
    } else if property == 54 {
        Some(CssProperty::CssPropMinHeight)
    } else if property == 55 {
        Some(CssProperty::CssPropMinWidth)
    } else if property == 56 {
        Some(CssProperty::CssPropOrphans)
    } else if property == 57 {
        Some(CssProperty::CssPropOutlineColor)
    } else if property == 58 {
        Some(CssProperty::CssPropOutlineStyle)
    } else if property == 59 {
        Some(CssProperty::CssPropOutlineWidth)
    } else if property == 60 {
        Some(CssProperty::CssPropOverflow)
    } else if property == 61 {
        Some(CssProperty::CssPropPaddingTop)
    } else if property == 62 {
        Some(CssProperty::CssPropPaddingRight)
    } else if property == 63 {
        Some(CssProperty::CssPropPaddingBottom)
    } else if property == 64 {
        Some(CssProperty::CssPropPaddingLeft)
    } else if property == 65 {
        Some(CssProperty::CssPropPageBreakAfter)
    } else if property == 66 {
        Some(CssProperty::CssPropPageBreakBefore)
    } else if property == 67 {
        Some(CssProperty::CssPropPageBreakInside)
    } else if property == 68 {
        Some(CssProperty::CssPropPauseAfter)
    } else if property == 69 {
        Some(CssProperty::CssPropPauseBefore)
    } else if property == 70 {
        Some(CssProperty::CssPropPitchRange)
    } else if property == 71 {
        Some(CssProperty::CssPropPitch)
    } else if property == 72 {
        Some(CssProperty::CssPropPlayDuring)
    } else if property == 73 {
        Some(CssProperty::CssPropPosition)
    } else if property == 74 {
        Some(CssProperty::CssPropQuotes)
    } else if property == 75 {
        Some(CssProperty::CssPropRichness)
    } else if property == 76 {
        Some(CssProperty::CssPropRight)
    } else if property == 77 {
        Some(CssProperty::CssPropSpeakHeader)
    } else if property == 78 {
        Some(CssProperty::CssPropSpeakNumeral)
    } else if property == 79 {
        Some(CssProperty::CssPropSpeakPunctuation)
    } else if property == 80 {
        Some(CssProperty::CssPropSpeak)
    } else if property == 81 {
        Some(CssProperty::CssPropSpeechRate)
    } else if property == 82 {
        Some(CssProperty::CssPropStress)
    } else if property == 83 {
        Some(CssProperty::CssPropTableLayout)
    } else if property == 84 {
        Some(CssProperty::CssPropTextAlign)
    } else if property == 85 {
        Some(CssProperty::CssPropTextDecoration)
    } else if property == 86 {
        Some(CssProperty::CssPropTextIndent)
    } else if property == 87 {
        Some(CssProperty::CssPropTextTransform)
    } else if property == 88 {
        Some(CssProperty::CssPropTop)
    } else if property == 89 {
        Some(CssProperty::CssPropUnicodeBidi)
    } else if property == 90 {
        Some(CssProperty::CssPropVerticalAlign)
    } else if property == 91 {
        Some(CssProperty::CssPropVisibility)
    } else if property == 92 {
        Some(CssProperty::CssPropVoiceFamily)
    } else if property == 93 {
        Some(CssProperty::CssPropVolume)
    } else if property == 94 {
        Some(CssProperty::CssPropWhiteSpace)
    } else if property == 95 {
        Some(CssProperty::CssPropWidows)
    } else if property == 96 {
        Some(CssProperty::CssPropWidth)
    } else if property == 97 {
        Some(CssProperty::CssPropWordSpacing)
    } else if property == 98 {
        Some(CssProperty::CssPropZIndex)
    } else if property == 99 {
        Some(CssProperty::CssPropOpacity)
    } else if property == 100 {
        Some(CssProperty::CssPropBreakAfter)
    } else if property == 101 {
        Some(CssProperty::CssPropBreakBefore)
    } else if property == 102 {
        Some(CssProperty::CssPropBreakInside)
    } else if property == 103 {
        Some(CssProperty::CssPropColumnCount)
    } else if property == 104 {
        Some(CssProperty::CssPropColumnFill)
    } else if property == 105 {
        Some(CssProperty::CssPropColumnGap)
    } else if property == 106 {
        Some(CssProperty::CssPropColumnRuleColor)
    } else if property == 107 {
        Some(CssProperty::CssPropColumnRuleStyle)
    } else if property == 108 {
        Some(CssProperty::CssPropColumnRuleWidth)
    } else if property == 109 {
        Some(CssProperty::CssPropColumnSpan)
    } else if property == 110 {
        Some(CssProperty::CssPropClomumnWidth)
    } else {
        None
    }
}

impl CssProperty {
    /// The engine's numeric code for this property.
    pub open spec fn spec_to_uint(self) -> u32 {
        match self {
            CssProperty::CssPropAzimuth => 0,
            CssProperty::CssPropBackgroundAttachment => 1,
            CssProperty::CssPropBackgroundColor => 2,
            CssProperty::CssPropBackgroundImage => 3,
            CssProperty::CssPropBackgroundPosition => 4,
            CssProperty::CssPropBackgroundRepeat => 5,
            CssProperty::CssPropBorderCollapse => 6,
            CssProperty::CssPropBorderSpacing => 7,
            CssProperty::CssPropBorderTopColor => 8,
            CssProperty::CssPropBorderRightColor => 9,
            CssProperty::CssPropBorderBottomColor => 10,
            CssProperty::CssPropBorderLeftColor => 11,
            CssProperty::CssPropBorderTopStyle => 12,
            CssProperty::CssPropBorderRightStyle => 13,
            CssProperty::CssPropBorderBottomStyle => 14,
            CssProperty::CssPropBorderLeftStyle => 15,
            CssProperty::CssPropBorderTopWidth => 16,
            CssProperty::CssPropBorderRightWidth => 17,
            CssProperty::CssPropBorderBottomWidth => 18,
            CssProperty::CssPropBorderLeftWidth => 19,
            CssProperty::CssPropBottom => 20,
            CssProperty::CssPropCaptionSide => 21,
            CssProperty::CssPropClear => 22,
            CssProperty::CssPropClip => 23,
            CssProperty::CssPropColor => 24,
            CssProperty::CssPropContent => 25,
            CssProperty::CssPropCounterIncrement => 26,
            CssProperty::CssPropCounterReset => 27,
            CssProperty::CssPropCueAfter => 28,
            CssProperty::CssPropCueBefore => 29,
            CssProperty::CssPropCursor => 30,
            CssProperty::CssPropDirection => 31,
            CssProperty::CssPropDisplay => 32,
            CssProperty::CssPropElevation => 33,
            CssProperty::CssPropEmptyCells => 34,
            CssProperty::CssPropFloat => 35,
            CssProperty::CssPropFontFamily => 36,
            CssProperty::CssPropFontSize => 37,
            CssProperty::CssPropFontStyle => 38,
            CssProperty::CssPropFontVariant => 39,
            CssProperty::CssPropFontWeight => 40,
            CssProperty::CssPropHeight => 41,
            CssProperty::CssPropLeft => 42,
            CssProperty::CssPropLetterSpacing => 43,
            CssProperty::CssPropLineHeight => 44,
            CssProperty::CssPropListStyleImage => 45,
            CssProperty::CssPropListStylePosition => 46,
            CssProperty::CssPropListStyleType => 47,
            CssProperty::CssPropMarginTop => 48,
            CssProperty::CssPropMarginRight => 49,
            CssProperty::CssPropMarginBottom => 50,
            CssProperty::CssPropMarginLeft => 51,
            CssProperty::CssPropMaxHeight => 52,
            CssProperty::CssPropMaxWidth => 53,
            CssProperty::CssPropMinHeight => 54,
            CssProperty::CssPropMinWidth => 55,
            CssProperty::CssPropOrphans => 56,
            CssProperty::CssPropOutlineColor => 57,
            CssProperty::CssPropOutlineStyle => 58,
            CssProperty::CssPropOutlineWidth => 59,
            CssProperty::CssPropOverflow => 60,
            CssProperty::CssPropPaddingTop => 61,
            CssProperty::CssPropPaddingRight => 62,
            CssProperty::CssPropPaddingBottom => 63,
            CssProperty::CssPropPaddingLeft => 64,
            CssProperty::CssPropPageBreakAfter => 65,
            CssProperty::CssPropPageBreakBefore => 66,
            CssProperty::CssPropPageBreakInside => 67,
            CssProperty::CssPropPauseAfter => 68,
            CssProperty::CssPropPauseBefore => 69,
            CssProperty::CssPropPitchRange => 70,
            CssProperty::CssPropPitch => 71,
            CssProperty::CssPropPlayDuring => 72,
            CssProperty::CssPropPosition => 73,
            CssProperty::CssPropQuotes => 74,
            CssProperty::CssPropRichness => 75,
            CssProperty::CssPropRight => 76,
            CssProperty::CssPropSpeakHeader => 77,
            CssProperty::CssPropSpeakNumeral => 78,
            CssProperty::CssPropSpeakPunctuation => 79,
            CssProperty::CssPropSpeak => 80,
            CssProperty::CssPropSpeechRate => 81,
            CssProperty::CssPropStress => 82,
            CssProperty::CssPropTableLayout => 83,
            CssProperty::CssPropTextAlign => 84,
            CssProperty::CssPropTextDecoration => 85,
            CssProperty::CssPropTextIndent => 86,
            CssProperty::CssPropTextTransform => 87,
            CssProperty::CssPropTop => 88,
            CssProperty::CssPropUnicodeBidi => 89,
            CssProperty::CssPropVerticalAlign => 90,
            CssProperty::CssPropVisibility => 91,
            CssProperty::CssPropVoiceFamily => 92,
            CssProperty::CssPropVolume => 93,
            CssProperty::CssPropWhiteSpace => 94,
            CssProperty::CssPropWidows => 95,
            CssProperty::CssPropWidth => 96,
            CssProperty::CssPropWordSpacing => 97,
            CssProperty::CssPropZIndex => 98,
            CssProperty::CssPropOpacity => 99,
            CssProperty::CssPropBreakAfter => 100,
            CssProperty::CssPropBreakBefore => 101,
            CssProperty::CssPropBreakInside => 102,
            CssProperty::CssPropColumnCount => 103,
            CssProperty::CssPropColumnFill => 104,
            CssProperty::CssPropColumnGap => 105,
            CssProperty::CssPropColumnRuleColor => 106,
            CssProperty::CssPropColumnRuleStyle => 107,
            CssProperty::CssPropColumnRuleWidth => 108,
            CssProperty::CssPropColumnSpan => 109,
            CssProperty::CssPropClomumnWidth => 110,
        }
    }

    pub fn to_uint(self) -> (c: u32)
        ensures
            c == self.spec_to_uint(),
    {
        match self {
            CssProperty::CssPropAzimuth => 0,
            CssProperty::CssPropBackgroundAttachment => 1,
            CssProperty::CssPropBackgroundColor => 2,
            CssProperty::CssPropBackgroundImage => 3,
            CssProperty::CssPropBackgroundPosition => 4,
            CssProperty::CssPropBackgroundRepeat => 5,
            CssProperty::CssPropBorderCollapse => 6,
            CssProperty::CssPropBorderSpacing => 7,
            CssProperty::CssPropBorderTopColor => 8,
            CssProperty::CssPropBorderRightColor => 9,
            CssProperty::CssPropBorderBottomColor => 10,
            CssProperty::CssPropBorderLeftColor => 11,
            CssProperty::CssPropBorderTopStyle => 12,
            CssProperty::CssPropBorderRightStyle => 13,
            CssProperty::CssPropBorderBottomStyle => 14,
            CssProperty::CssPropBorderLeftStyle => 15,
            CssProperty::CssPropBorderTopWidth => 16,
            CssProperty::CssPropBorderRightWidth => 17,
            CssProperty::CssPropBorderBottomWidth => 18,
            CssProperty::CssPropBorderLeftWidth => 19,
            CssProperty::CssPropBottom => 20,
            CssProperty::CssPropCaptionSide => 21,
            CssProperty::CssPropClear => 22,
            CssProperty::CssPropClip => 23,
            CssProperty::CssPropColor => 24,
            CssProperty::CssPropContent => 25,
            CssProperty::CssPropCounterIncrement => 26,
            CssProperty::CssPropCounterReset => 27,
            CssProperty::CssPropCueAfter => 28,
            CssProperty::CssPropCueBefore => 29,
            CssProperty::CssPropCursor => 30,
            CssProperty::CssPropDirection => 31,
            CssProperty::CssPropDisplay => 32,
            CssProperty::CssPropElevation => 33,
            CssProperty::CssPropEmptyCells => 34,
            CssProperty::CssPropFloat => 35,
            CssProperty::CssPropFontFamily => 36,
            CssProperty::CssPropFontSize => 37,
            CssProperty::CssPropFontStyle => 38,
            CssProperty::CssPropFontVariant => 39,
            CssProperty::CssPropFontWeight => 40,
            CssProperty::CssPropHeight => 41,
            CssProperty::CssPropLeft => 42,
            CssProperty::CssPropLetterSpacing => 43,
            CssProperty::CssPropLineHeight => 44,
            CssProperty::CssPropListStyleImage => 45,
            CssProperty::CssPropListStylePosition => 46,
            CssProperty::CssPropListStyleType => 47,
            CssProperty::CssPropMarginTop => 48,
            CssProperty::CssPropMarginRight => 49,
            CssProperty::CssPropMarginBottom => 50,
            CssProperty::CssPropMarginLeft => 51,
            CssProperty::CssPropMaxHeight => 52,
            CssProperty::CssPropMaxWidth => 53,
            CssProperty::CssPropMinHeight => 54,
            CssProperty::CssPropMinWidth => 55,
            CssProperty::CssPropOrphans => 56,
            CssProperty::CssPropOutlineColor => 57,
            CssProperty::CssPropOutlineStyle => 58,
            CssProperty::CssPropOutlineWidth => 59,
            CssProperty::CssPropOverflow => 60,
            CssProperty::CssPropPaddingTop => 61,
            CssProperty::CssPropPaddingRight => 62,
            CssProperty::CssPropPaddingBottom => 63,
            CssProperty::CssPropPaddingLeft => 64,
            CssProperty::CssPropPageBreakAfter => 65,
            CssProperty::CssPropPageBreakBefore => 66,
            CssProperty::CssPropPageBreakInside => 67,
            CssProperty::CssPropPauseAfter => 68,
            CssProperty::CssPropPauseBefore => 69,
            CssProperty::CssPropPitchRange => 70,
            CssProperty::CssPropPitch => 71,
            CssProperty::CssPropPlayDuring => 72,
            CssProperty::CssPropPosition => 73,
            CssProperty::CssPropQuotes => 74,
            CssProperty::CssPropRichness => 75,
            CssProperty::CssPropRight => 76,
            CssProperty::CssPropSpeakHeader => 77,
            CssProperty::CssPropSpeakNumeral => 78,
            CssProperty::CssPropSpeakPunctuation => 79,
            CssProperty::CssPropSpeak => 80,
            CssProperty::CssPropSpeechRate => 81,
            CssProperty::CssPropStress => 82,
            CssProperty::CssPropTableLayout => 83,
            CssProperty::CssPropTextAlign => 84,
            CssProperty::CssPropTextDecoration => 85,
            CssProperty::CssPropTextIndent => 86,
            CssProperty::CssPropTextTransform => 87,
            CssProperty::CssPropTop => 88,
            CssProperty::CssPropUnicodeBidi => 89,
            CssProperty::CssPropVerticalAlign => 90,
            CssProperty::CssPropVisibility => 91,
            CssProperty::CssPropVoiceFamily => 92,
            CssProperty::CssPropVolume => 93,
            CssProperty::CssPropWhiteSpace => 94,
            CssProperty::CssPropWidows => 95,
            CssProperty::CssPropWidth => 96,
            CssProperty::CssPropWordSpacing => 97,
            CssProperty::CssPropZIndex => 98,
            CssProperty::CssPropOpacity => 99,
            CssProperty::CssPropBreakAfter => 100,
            CssProperty::CssPropBreakBefore => 101,
            CssProperty::CssPropBreakInside => 102,
            CssProperty::CssPropColumnCount => 103,
            CssProperty::CssPropColumnFill => 104,
            CssProperty::CssPropColumnGap => 105,
            CssProperty::CssPropColumnRuleColor => 106,
            CssProperty::CssPropColumnRuleStyle => 107,
            CssProperty::CssPropColumnRuleWidth => 108,
            CssProperty::CssPropColumnSpan => 109,
            CssProperty::CssPropClomumnWidth => 110,
        }
    }
}

/// Decoding the code of any property yields that property again.
pub proof fn lemma_property_code_roundtrip(p: CssProperty)
    ensures
        spec_property_from_uint(p.spec_to_uint()) == Some(p),
{
}

/// A font style keyword, as carried by a system font description.
#[derive(Clone, Copy, PartialEq, Eq, Structural, Debug)]
pub enum CssFontStyle {
    CssFontStyleInherit,
    CssFontStyleNormal,
    CssFontStyleItalic,
    CssFontStyleOblique,
}

/// A generic font family, as carried by a font-family hint.
#[derive(Clone, Copy, PartialEq, Eq, Structural, Debug)]
pub enum CssFontFamily {
    CssFontFamilyInherit,
    CssFontFamilySerif,
    CssFontFamilySansSerif,
    CssFontFamilyCursive,
    CssFontFamilyFantasy,
    CssFontFamilyMonospace,
}

/// A font variant keyword, as carried by a system font description.
#[derive(Clone, Copy, PartialEq, Eq, Structural, Debug)]
pub enum CssFontVariant {
    CssFontVariantInherit,
    CssFontVariantNormal,
    CssFontVariantSmallCaps,
}

/// A font weight keyword, as carried by a system font description.
#[derive(Clone, Copy, PartialEq, Eq, Structural, Debug)]
pub enum CssFontWeight {
    CssFontWeightInherit,
    CssFontWeightNormal,
    CssFontWeightBold,
    CssFontWeightBolder,
    CssFontWeightLighter,
    CssFontWeight100,
    CssFontWeight200,
    CssFontWeight300,
    CssFontWeight400,
    CssFontWeight500,
    CssFontWeight600,
    CssFontWeight700,
    CssFontWeight800,
    CssFontWeight900,
}

/// A quotes-property keyword.
#[derive(Clone, Copy, PartialEq, Eq, Structural, Debug)]
pub enum CssQuotes {
    CssQuotesInherit,
    CssQuotesString,
    CssQuotesNone,
}

} // verus!
