use netsurfcss::errors::CssError;
use netsurfcss::hint::CssHint;
use netsurfcss::hint::CssHintError;
use netsurfcss::hint::CssHintRecord;
use netsurfcss::hint::get_css_hint_status;
use netsurfcss::properties::CssProperty;
use netsurfcss::properties::property_from_uint;
use netsurfcss::types::CssColor;
use netsurfcss::types::CssLanguageLevel;
use netsurfcss::types::CssUnit;
use netsurfcss::types::ll_color_to_hl_color;
use netsurfcss::types::ll_unit_to_hl_unit;
use netsurfcss::values::CssBorderWidthValue;
use netsurfcss::values::CssColorValue;
use netsurfcss::values::CssDisplayValue;
use netsurfcss::values::CssFontFamilyValue;
use netsurfcss::values::CssFontSizeValue;
use netsurfcss::values::CssFontWeightValue;
use netsurfcss::values::CssHeightValue;
use netsurfcss::values::CssLineHeightValue;
use netsurfcss::values::CssMarginValue;
use netsurfcss::values::CssPositionValue;
use netsurfcss::values::CssTextAlignValue;
use netsurfcss::values::CssValueError;
use netsurfcss::values::CssValueKind;
use netsurfcss::values::CssWidthValue;
use netsurfcss::values::CssFloatValue;

fn all_units() -> Vec<CssUnit> {
    vec![
        CssUnit::CssUnitPx(5),
        CssUnit::CssUnitEx(-3),
        CssUnit::CssUnitEm(1536),
        CssUnit::CssUnitIn(72),
        CssUnit::CssUnitCm(254),
        CssUnit::CssUnitMm(10),
        CssUnit::CssUnitPt(12),
        CssUnit::CssUnitPc(6),
        CssUnit::CssUnitPct(50),
        CssUnit::CssUnitDeg(90),
        CssUnit::CssUnitGrad(100),
        CssUnit::CssUnitRad(3),
        CssUnit::CssUnitMs(250),
        CssUnit::CssUnitS(2),
        CssUnit::CssUnitHz(440),
        CssUnit::CssUnitKHz(44),
    ]
}

#[test]
fn unit_roundtrip_every_variant() {
    for u in all_units() {
        let (code, value) = u.to_ll();
        assert_eq!(ll_unit_to_hl_unit(code, value), Some(u));
    }
}

#[test]
fn unit_wire_roundtrip_every_code() {
    for code in 0u32..16 {
        let u = ll_unit_to_hl_unit(code, 7).expect("every code below 16 names a unit");
        assert_eq!(u.to_ll(), (code, 7));
    }
    assert_eq!(ll_unit_to_hl_unit(16, 7), None);
    assert_eq!(ll_unit_to_hl_unit(99, 7), None);
}

#[test]
fn unit_wire_codes_are_fixed() {
    assert_eq!(CssUnit::CssUnitPx(1).to_ll(), (0x0, 1));
    assert_eq!(CssUnit::CssUnitEm(2).to_ll(), (0x2, 2));
    assert_eq!(CssUnit::CssUnitPct(50).to_ll(), (0x8, 50));
    assert_eq!(CssUnit::CssUnitKHz(44).to_ll(), (0xf, 44));
}

#[test]
fn unit_modify_keeps_the_unit() {
    let u = CssUnit::CssUnitEm(1536);
    assert_eq!(u.modify(2048), CssUnit::CssUnitEm(2048));
    assert_eq!(u.to_css_fixed(), 1536);
    let l = u.to_ll_css_hint_length();
    assert_eq!((l.unit, l.value), (0x2, 1536));
}

#[test]
fn color_unpacks_packed_bytes() {
    let red = ll_color_to_hl_color(0xFFFF0000);
    assert_eq!(red, CssColor { b: 0, g: 0, r: 255, a: 255 });
    let c = ll_color_to_hl_color(0xFF123456);
    assert_eq!(c, CssColor { b: 0x56, g: 0x34, r: 0x12, a: 0xFF });
}

#[test]
fn color_roundtrips_both_ways() {
    let c = CssColor { b: 9, g: 8, r: 7, a: 6 };
    assert_eq!(ll_color_to_hl_color(c.to_ll()), c);
    assert_eq!(ll_color_to_hl_color(0xDEADBEEF).to_ll(), 0xDEADBEEF);
}

#[test]
fn language_level_codes() {
    assert_eq!(CssLanguageLevel::CssLevel1.to_ll(), 0);
    assert_eq!(CssLanguageLevel::CssLevel21.to_ll(), 2);
    assert_eq!(CssLanguageLevel::CssLevel3.to_ll(), 3);
    assert_eq!(CssLanguageLevel::CssLevelDefault.to_ll(), 2);
}

#[test]
fn error_codes_roundtrip() {
    let all = vec![
        CssError::CssOk,
        CssError::CssNoMem,
        CssError::CssBadParm,
        CssError::CssInvalid,
        CssError::CssFileNotFound,
        CssError::CssNeedData,
        CssError::CssBadCharset,
        CssError::CssEof,
        CssError::CssImportsPending,
        CssError::CssPropertyNotSet,
    ];
    for (i, e) in all.iter().enumerate() {
        assert_eq!(e.to_code(), i as u32);
        assert_eq!(CssError::from_code(i as u32), Some(*e));
    }
    assert_eq!(CssError::from_code(10), None);
}

#[test]
fn property_codes_are_the_engine_numbering() {
    assert_eq!(property_from_uint(0x018), Some(CssProperty::CssPropColor));
    assert_eq!(property_from_uint(0x024), Some(CssProperty::CssPropFontFamily));
    assert_eq!(property_from_uint(0x025), Some(CssProperty::CssPropFontSize));
    assert_eq!(property_from_uint(0x04a), Some(CssProperty::CssPropQuotes));
    assert_eq!(CssProperty::CssPropAzimuth.to_uint(), 0);
    assert_eq!(CssProperty::CssPropClomumnWidth.to_uint(), 0x06e);
}

#[test]
fn property_codes_roundtrip() {
    for code in 0u32..=0x06e {
        let p = property_from_uint(code).expect("every code up to the last property decodes");
        assert_eq!(p.to_uint(), code);
    }
    assert_eq!(property_from_uint(0x06f), None);
    assert_eq!(property_from_uint(9999), None);
}

#[test]
fn font_size_hint_roundtrips_through_the_record() {
    let mut rec = CssHintRecord::new();
    let hint = CssHint::CssHintLength(CssUnit::CssUnitEm(1536));
    hint.write_to_ll(CssProperty::CssPropFontSize, &mut rec)
        .expect("a dimensioned hint encodes for font-size");
    assert_eq!(get_css_hint_status(&rec), 0x0a);
    match CssHint::new(CssProperty::CssPropFontSize, &rec).unwrap() {
        CssHint::CssHintLength(u) => assert_eq!(u, CssUnit::CssUnitEm(1536)),
        other => panic!("expected the encoded dimension back, got {:?}", other),
    }
}

#[test]
fn discriminant_and_payload_agree_after_encode() {
    let mut rec = CssHintRecord::new();
    CssHint::CssHintLength(CssUnit::CssUnitPx(16384))
        .write_to_ll(CssProperty::CssPropFontSize, &mut rec)
        .unwrap();
    assert_eq!(get_css_hint_status(&rec), 0x0a);
    match CssHint::new(CssProperty::CssPropFontSize, &rec).unwrap() {
        CssHint::CssHintLength(u) => assert_eq!(u.to_ll(), (0x0, 16384)),
        other => panic!("discriminant says dimension but payload reads {:?}", other),
    }
}

#[test]
fn decoding_a_record_without_a_dimension_gives_unknown() {
    let rec = CssHintRecord::new();
    match CssHint::new(CssProperty::CssPropFontSize, &rec).unwrap() {
        CssHint::CssHintUnknown => {}
        other => panic!("expected the unrecognized marker, got {:?}", other),
    }
}

#[test]
fn decoding_an_unsupported_property_is_refused() {
    let rec = CssHintRecord::new();
    match CssHint::new(CssProperty::CssPropColor, &rec) {
        Err(CssHintError::UnsupportedHint(p)) => assert_eq!(p, CssProperty::CssPropColor),
        other => panic!("expected the unsupported-hint refusal, got {:?}", other),
    }
    match CssHint::new(CssProperty::CssPropDisplay, &rec) {
        Err(CssHintError::UnsupportedHint(p)) => assert_eq!(p, CssProperty::CssPropDisplay),
        other => panic!("expected the unsupported-hint refusal, got {:?}", other),
    }
}

#[test]
fn default_hints_write_their_discriminants() {
    let mut rec = CssHintRecord::new();
    CssHint::CssHintDefault.write_to_ll(CssProperty::CssPropColor, &mut rec).unwrap();
    assert_eq!(get_css_hint_status(&rec), 0x1);

    let mut rec = CssHintRecord::new();
    CssHint::CssHintDefault.write_to_ll(CssProperty::CssPropFontFamily, &mut rec).unwrap();
    assert_eq!(get_css_hint_status(&rec), 0x2);

    let mut rec = CssHintRecord::new();
    CssHint::CssHintDefault.write_to_ll(CssProperty::CssPropQuotes, &mut rec).unwrap();
    assert_eq!(get_css_hint_status(&rec), 0x2);
}

#[test]
fn encoding_an_unknown_hint_is_refused_and_writes_nothing() {
    let mut rec = CssHintRecord::new();
    let r = CssHint::CssHintUnknown.write_to_ll(CssProperty::CssPropFontSize, &mut rec);
    assert_eq!(r, Err(CssHintError::UnknownHint(CssProperty::CssPropFontSize)));
    assert_eq!(get_css_hint_status(&rec), 0);
}

#[test]
fn encoding_a_mismatched_shape_is_refused() {
    let mut rec = CssHintRecord::new();
    let r = CssHint::CssHintLength(CssUnit::CssUnitPx(1024))
        .write_to_ll(CssProperty::CssPropColor, &mut rec);
    assert_eq!(r, Err(CssHintError::HintShapeMismatch(CssProperty::CssPropColor)));
    let r = CssHint::CssHintDefault.write_to_ll(CssProperty::CssPropFontSize, &mut rec);
    assert_eq!(r, Err(CssHintError::HintShapeMismatch(CssProperty::CssPropFontSize)));
}

#[test]
fn color_value_follows_the_tag_table() {
    assert_eq!(CssColorValue::new(0x0, 123), Ok(CssColorValue::CssColorInherit));
    assert_eq!(
        CssColorValue::new(0x1, 0xFFFF0000),
        Ok(CssColorValue::CssColorColor(CssColor { b: 0, g: 0, r: 255, a: 255 }))
    );
    assert_eq!(
        CssColorValue::new(0x7, 0),
        Err(CssValueError::UnimplementedValue { kind: CssValueKind::Color, tag: 0x7 })
    );
}

#[test]
fn margin_value_follows_the_tag_table() {
    assert_eq!(CssMarginValue::new(0x0, 0, 0), Ok(CssMarginValue::CssMarginInherit));
    assert_eq!(
        CssMarginValue::new(0x1, 2048, 0x0),
        Ok(CssMarginValue::CssMarginSet(CssUnit::CssUnitPx(2048)))
    );
    assert_eq!(CssMarginValue::new(0x2, 0, 0), Ok(CssMarginValue::CssMarginAuto));
    assert_eq!(
        CssMarginValue::new(0x1, 5, 99),
        Err(CssValueError::UnknownUnit { kind: CssValueKind::Margin, unit: 99 })
    );
    assert_eq!(
        CssMarginValue::new(0x9, 0, 0),
        Err(CssValueError::UnimplementedValue { kind: CssValueKind::Margin, tag: 0x9 })
    );
}

#[test]
fn border_width_value_follows_the_tag_table() {
    assert_eq!(
        CssBorderWidthValue::new(0x1, 0, 0),
        Ok(CssBorderWidthValue::CssBorderWidthThin)
    );
    assert_eq!(
        CssBorderWidthValue::new(0x4, 12, 0x6),
        Ok(CssBorderWidthValue::CssBorderWidthWidth(CssUnit::CssUnitPt(12)))
    );
    assert_eq!(
        CssBorderWidthValue::new(0x5, 0, 0),
        Err(CssValueError::UnimplementedValue { kind: CssValueKind::BorderWidth, tag: 0x5 })
    );
}

#[test]
fn keyword_values_follow_their_tag_tables() {
    assert_eq!(CssDisplayValue::new(0x02), Ok(CssDisplayValue::CssDisplayBlock));
    assert_eq!(CssDisplayValue::new(0x10), Ok(CssDisplayValue::CssDisplayNone));
    assert_eq!(
        CssDisplayValue::new(0x11),
        Err(CssValueError::UnimplementedValue { kind: CssValueKind::Display, tag: 0x11 })
    );
    assert_eq!(CssPositionValue::new(0x2), Ok(CssPositionValue::CssPositionRelative));
    assert_eq!(CssFloatValue::new(0x1), Ok(CssFloatValue::CssFloatLeft));
    assert_eq!(CssFontWeightValue::new(0xb), Ok(CssFontWeightValue::CssFontWeight700));
    assert_eq!(CssTextAlignValue::new(0x4), Ok(CssTextAlignValue::CssTextAlignCenter));
}

#[test]
fn width_and_height_values_follow_their_tag_tables() {
    assert_eq!(
        CssWidthValue::new(0x1, 50, 0x8),
        Ok(CssWidthValue::CssWidthSet(CssUnit::CssUnitPct(50)))
    );
    assert_eq!(CssWidthValue::new(0x2, 0, 0), Ok(CssWidthValue::CssWidthAuto));
    assert_eq!(
        CssHeightValue::new(0x1, 100, 0x0),
        Ok(CssHeightValue::CssHeightSet(CssUnit::CssUnitPx(100)))
    );
    assert_eq!(
        CssHeightValue::new(0x3, 0, 0),
        Err(CssValueError::UnimplementedValue { kind: CssValueKind::Height, tag: 0x3 })
    );
}

#[test]
fn font_size_value_follows_the_tag_table() {
    assert_eq!(CssFontSizeValue::new(0x4, 0, 0), Ok(CssFontSizeValue::CssFontSizeMedium));
    assert_eq!(
        CssFontSizeValue::new(0xa, 1536, 0x2),
        Ok(CssFontSizeValue::CssFontSizeDimension(CssUnit::CssUnitEm(1536)))
    );
    assert_eq!(
        CssFontSizeValue::new(0xb, 0, 0),
        Err(CssValueError::UnimplementedValue { kind: CssValueKind::FontSize, tag: 0xb })
    );
}

#[test]
fn line_height_value_follows_the_tag_table() {
    assert_eq!(
        CssLineHeightValue::new(0x1, 1536, 0),
        Ok(CssLineHeightValue::CssLineHeightNumber(1536))
    );
    assert_eq!(
        CssLineHeightValue::new(0x2, 12, 0x6),
        Ok(CssLineHeightValue::CssLineHeightDimension(CssUnit::CssUnitPt(12)))
    );
    assert_eq!(CssLineHeightValue::new(0x3, 0, 0), Ok(CssLineHeightValue::CssLineHeightNormal));
}

#[test]
fn font_family_value_prefers_the_name_list() {
    let names = vec!["Helvetica".to_string(), "Arial".to_string()];
    assert_eq!(
        CssFontFamilyValue::new(0x2, Some(names.clone())),
        Ok(CssFontFamilyValue::CssFontFamilyValue(names))
    );
    assert_eq!(
        CssFontFamilyValue::new(0x2, None),
        Ok(CssFontFamilyValue::CssFontFamilySansSerif)
    );
    assert_eq!(
        CssFontFamilyValue::new(0x9, None),
        Err(CssValueError::UnimplementedValue { kind: CssValueKind::FontFamily, tag: 0x9 })
    );
}
