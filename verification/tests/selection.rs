use std::cell::Cell;

use netsurfcss::computed::CssComputedStyle;
use netsurfcss::computed::CssRawColor;
use netsurfcss::computed::CssRawDimension;
use netsurfcss::computed::CssRawFontFamily;
use netsurfcss::computed::compose;
use netsurfcss::computed::compute_font_size_cb;
use netsurfcss::computed::CssComposeError;
use netsurfcss::errors::CssError;
use netsurfcss::errors::CssFailure;
use netsurfcss::errors::CssOperation;
use netsurfcss::handle::OpaqueHandle;
use netsurfcss::handle::VoidPtrLike;
use netsurfcss::handle::handle_roundtrip;
use netsurfcss::handle::option_to_void_ptr;
use netsurfcss::host::ChainHandler;
use netsurfcss::host::ChainNode;
use netsurfcss::hint::CssHint;
use netsurfcss::hint::CssHintError;
use netsurfcss::hint::CssHintRecord;
use netsurfcss::hint::get_css_hint_status;
use netsurfcss::properties::CssProperty;
use netsurfcss::select::CSS_MEDIA_ALL;
use netsurfcss::select::CssCallbackError;
use netsurfcss::select::CssCallbackKind;
use netsurfcss::select::CssOrigin;
use netsurfcss::select::CssPseudoElement;
use netsurfcss::select::CssSelectResults;
use netsurfcss::select::compute_font_size;
use netsurfcss::select::css_select_ctx_create;
use netsurfcss::select::named_generic_sibling_node;
use netsurfcss::select::named_parent_node;
use netsurfcss::select::named_sibling_node;
use netsurfcss::select::node_classes;
use netsurfcss::select::node_count_siblings;
use netsurfcss::select::node_has_attribute;
use netsurfcss::select::node_has_attribute_equal;
use netsurfcss::select::node_has_class;
use netsurfcss::select::node_has_id;
use netsurfcss::select::node_has_name;
use netsurfcss::select::node_id;
use netsurfcss::select::node_is_checked;
use netsurfcss::select::node_is_disabled;
use netsurfcss::select::node_is_empty;
use netsurfcss::select::node_is_enabled;
use netsurfcss::select::node_is_link;
use netsurfcss::select::node_is_root;
use netsurfcss::select::node_is_target;
use netsurfcss::select::node_is_visited;
use netsurfcss::select::node_name;
use netsurfcss::select::node_presentational_hint;
use netsurfcss::select::parent_node;
use netsurfcss::select::sheet_count_accounting;
use netsurfcss::select::sibling_node;
use netsurfcss::select::ua_default_for_property;
use netsurfcss::stylesheet::CssStylesheet;
use netsurfcss::stylesheet::CssStylesheetParams;
use netsurfcss::stylesheet::CssStylesheetParamsVersion;
use netsurfcss::types::CssLanguageLevel;
use netsurfcss::types::CssQName;
use netsurfcss::types::CssUnit;
use netsurfcss::values::CssColorValue;
use netsurfcss::values::CssDisplayValue;
use netsurfcss::values::CssMarginValue;
use netsurfcss::stylesheet::css_stylesheet_create;

fn chain_handler() -> ChainHandler {
    ChainHandler {
        names: (1..7).map(|i| format!("h{}", i)).collect(),
        root_id: "main".to_string(),
        fallback: "anonymous".to_string(),
    }
}

fn fresh_sheet() -> CssStylesheet {
    let params = CssStylesheetParams {
        params_version: CssStylesheetParamsVersion::CssStylesheetParamsVersion1,
        level: CssLanguageLevel::CssLevel21,
        charset: "UTF-8".to_string(),
        url: "foo".to_string(),
        title: "foo".to_string(),
        allow_quirks: false,
        inline_style: false,
        resolve: None,
        import: None,
        color: None,
        font: None,
    };
    let mut sheet = css_stylesheet_create(&params, CssError::CssOk).unwrap();
    sheet.data_done(CssError::CssOk).unwrap();
    sheet
}

fn dimension(tag: u8, length: i32, unit: u32) -> CssRawDimension {
    CssRawDimension { tag, length, unit }
}

fn style_fixture() -> CssComputedStyle {
    CssComputedStyle {
        color: CssRawColor { tag: 0x1, color: 0xFFFF0000 },
        background_color: CssRawColor { tag: 0x0, color: 0 },
        border_top_width: dimension(0x4, 12, 0x6),
        border_right_width: dimension(0x2, 0, 0),
        border_bottom_width: dimension(0x2, 0, 0),
        border_left_width: dimension(0x2, 0, 0),
        border_top_color: CssRawColor { tag: 0x1, color: 0xFF000000 },
        border_right_color: CssRawColor { tag: 0x1, color: 0xFF000000 },
        border_bottom_color: CssRawColor { tag: 0x1, color: 0xFF000000 },
        border_left_color: CssRawColor { tag: 0x1, color: 0xFF000000 },
        margin_top: dimension(0x1, 2048, 0x0),
        margin_right: dimension(0x2, 0, 0),
        margin_bottom: dimension(0x1, 2048, 0x0),
        margin_left: dimension(0x2, 0, 0),
        display: 0x02,
        display_root: 0x02,
        position: 0x1,
        width: dimension(0x2, 0, 0),
        height: dimension(0x2, 0, 0),
        float: 0x3,
        font_family: CssRawFontFamily { tag: 0x2, names: None },
        font_size: dimension(0xa, 16384, 0x0),
        font_style: 0x1,
        font_weight: 0x1,
        text_align: 0x2,
        line_height: dimension(0x3, 0, 0),
    }
}

#[test]
fn handle_identity() {
    let n = ChainNode::new(42);
    assert_eq!(handle_roundtrip(&n), n);
    assert_eq!(ChainNode::from_void_ptr(n.to_void_ptr()), n);
}

#[test]
fn option_handles_use_the_null_sentinel() {
    assert_eq!(option_to_void_ptr::<ChainNode>(&None).addr, 0);
    assert_eq!(option_to_void_ptr(&Some(ChainNode::new(7))).addr, 7);
}

#[test]
fn trampoline_node_name_consults_the_handler() {
    let handler = chain_handler();
    let q = node_name::<ChainNode, ChainHandler>(&handler, OpaqueHandle { addr: 3 }).unwrap();
    assert_eq!(q.name, "h3");
    assert!(q.ns.is_none());
}

#[test]
fn trampoline_node_id_consults_the_handler() {
    let handler = chain_handler();
    let id = node_id::<ChainNode, ChainHandler>(&handler, OpaqueHandle { addr: 1 }).unwrap();
    assert_eq!(id, Some("main".to_string()));
    let id = node_id::<ChainNode, ChainHandler>(&handler, OpaqueHandle { addr: 2 }).unwrap();
    assert_eq!(id, None);
}

#[test]
fn trampoline_parent_node_encodes_the_sentinel() {
    let handler = chain_handler();
    let h = parent_node::<ChainNode, ChainHandler>(&handler, OpaqueHandle { addr: 3 }).unwrap();
    assert_eq!(h.addr, 2);
    let h = parent_node::<ChainNode, ChainHandler>(&handler, OpaqueHandle { addr: 1 }).unwrap();
    assert_eq!(h.addr, 0);
}

#[test]
fn trampoline_named_parent_checks_the_name() {
    let handler = chain_handler();
    let q = CssQName { ns: None, name: "h2".to_string() };
    let h = named_parent_node::<ChainNode, ChainHandler>(&handler, OpaqueHandle { addr: 3 }, &q)
        .unwrap();
    assert_eq!(h.addr, 2);
    let q = CssQName { ns: None, name: "div".to_string() };
    let h = named_parent_node::<ChainNode, ChainHandler>(&handler, OpaqueHandle { addr: 3 }, &q)
        .unwrap();
    assert_eq!(h.addr, 0);
}

#[test]
fn trampoline_predicates_consult_the_handler() {
    let handler = chain_handler();
    assert_eq!(
        node_is_root::<ChainNode, ChainHandler>(&handler, OpaqueHandle { addr: 1 }).unwrap(),
        true
    );
    assert_eq!(
        node_is_root::<ChainNode, ChainHandler>(&handler, OpaqueHandle { addr: 4 }).unwrap(),
        false
    );
    assert_eq!(
        node_is_link::<ChainNode, ChainHandler>(&handler, OpaqueHandle { addr: 4 }).unwrap(),
        false
    );
    assert_eq!(
        node_has_id::<ChainNode, ChainHandler>(
            &handler,
            OpaqueHandle { addr: 1 },
            "main".to_string()
        )
        .unwrap(),
        true
    );
    assert_eq!(
        node_has_id::<ChainNode, ChainHandler>(
            &handler,
            OpaqueHandle { addr: 2 },
            "main".to_string()
        )
        .unwrap(),
        false
    );
}

#[test]
fn unwired_slots_answer_their_documented_defaults() {
    let h = OpaqueHandle { addr: 5 };
    let q = CssQName { ns: None, name: "h1".to_string() };
    assert!(node_classes(h).unwrap().is_empty());
    assert_eq!(named_sibling_node(h, &q).unwrap().addr, 0);
    assert_eq!(sibling_node(h).unwrap().addr, 0);
    assert_eq!(node_has_class(h, "big").unwrap(), false);
    assert_eq!(node_has_attribute_equal(h, &q, "x").unwrap(), false);
    assert_eq!(node_count_siblings(h, false, false).unwrap(), 0);
    assert_eq!(node_is_empty(h).unwrap(), false);
    assert_eq!(node_is_visited(h).unwrap(), false);
    assert_eq!(node_presentational_hint(h, 0x018), CssError::CssPropertyNotSet);
}

#[test]
fn slots_with_no_safe_default_refuse_loudly() {
    let h = OpaqueHandle { addr: 5 };
    let q = CssQName { ns: None, name: "h1".to_string() };
    assert_eq!(
        named_generic_sibling_node(h, &q),
        Err(CssCallbackError::Unimplemented(CssCallbackKind::NamedGenericSiblingNode))
    );
    assert_eq!(
        node_has_name(h, &q),
        Err(CssCallbackError::Unimplemented(CssCallbackKind::NodeHasName))
    );
    assert_eq!(
        node_has_attribute(h, &q),
        Err(CssCallbackError::Unimplemented(CssCallbackKind::NodeHasAttribute))
    );
    assert_eq!(
        node_is_enabled(h),
        Err(CssCallbackError::Unimplemented(CssCallbackKind::NodeIsEnabled))
    );
    assert_eq!(
        node_is_disabled(h),
        Err(CssCallbackError::Unimplemented(CssCallbackKind::NodeIsDisabled))
    );
    assert_eq!(
        node_is_checked(h),
        Err(CssCallbackError::Unimplemented(CssCallbackKind::NodeIsChecked))
    );
    assert_eq!(
        node_is_target(h),
        Err(CssCallbackError::Unimplemented(CssCallbackKind::NodeIsTarget))
    );
}

#[test]
fn ua_default_encodes_the_handler_hint() {
    let handler = chain_handler();
    let rec = ua_default_for_property::<ChainNode, ChainHandler>(&handler, 0x018).unwrap();
    assert_eq!(get_css_hint_status(&rec), 0x1);
    let rec = ua_default_for_property::<ChainNode, ChainHandler>(&handler, 0x024).unwrap();
    assert_eq!(get_css_hint_status(&rec), 0x2);
    let rec = ua_default_for_property::<ChainNode, ChainHandler>(&handler, 0x04a).unwrap();
    assert_eq!(get_css_hint_status(&rec), 0x2);
}

#[test]
fn ua_default_refuses_bad_properties_and_bad_hints() {
    let handler = chain_handler();
    assert_eq!(
        ua_default_for_property::<ChainNode, ChainHandler>(&handler, 9999).unwrap_err(),
        CssCallbackError::UnknownProperty(9999)
    );
    assert_eq!(
        ua_default_for_property::<ChainNode, ChainHandler>(&handler, 0x025).unwrap_err(),
        CssCallbackError::Hint(CssHintError::HintShapeMismatch(CssProperty::CssPropFontSize))
    );
}

#[test]
fn select_time_font_size_defaults_to_16px() {
    let mut size = CssHintRecord::new();
    compute_font_size(None, &mut size).unwrap();
    match CssHint::new(CssProperty::CssPropFontSize, &size).unwrap() {
        CssHint::CssHintLength(u) => assert_eq!(u, CssUnit::CssUnitPx(16384)),
        other => panic!("expected the 16px root default, got {:?}", other),
    }
}

#[test]
fn select_time_font_size_copies_the_parent() {
    let mut parent = CssHintRecord::new();
    CssHint::CssHintLength(CssUnit::CssUnitEm(1536))
        .write_to_ll(CssProperty::CssPropFontSize, &mut parent)
        .unwrap();
    let mut size = CssHintRecord::new();
    compute_font_size(Some(&parent), &mut size).unwrap();
    match CssHint::new(CssProperty::CssPropFontSize, &size).unwrap() {
        CssHint::CssHintLength(u) => assert_eq!(u, CssUnit::CssUnitEm(1536)),
        other => panic!("expected the parent hint copied over, got {:?}", other),
    }
}

#[test]
fn select_time_font_size_refuses_an_unreadable_parent() {
    let parent = CssHintRecord::new();
    let mut size = CssHintRecord::new();
    assert_eq!(
        compute_font_size(Some(&parent), &mut size),
        Err(CssHintError::UnknownHint(CssProperty::CssPropFontSize))
    );
}

#[test]
fn ownership_accounting_counts_transferred_sheets() {
    let mut ctx = css_select_ctx_create(CssError::CssOk).unwrap();
    assert_eq!(ctx.count_sheets(), 0);
    for k in 1..=3usize {
        ctx.append_sheet(fresh_sheet(), CssOrigin::CssOriginAuthor, CSS_MEDIA_ALL, CssError::CssOk)
            .unwrap();
        assert_eq!(ctx.count_sheets(), k);
    }
    let sheets = vec![fresh_sheet(), fresh_sheet()];
    assert_eq!(sheet_count_accounting(sheets, CssOrigin::CssOriginAuthor, CSS_MEDIA_ALL), 2);
}

#[test]
fn append_sheet_failure_names_the_operation() {
    let mut ctx = css_select_ctx_create(CssError::CssOk).unwrap();
    let err = ctx
        .append_sheet(
            fresh_sheet(),
            CssOrigin::CssOriginAuthor,
            CSS_MEDIA_ALL,
            CssError::CssBadParm,
        )
        .unwrap_err();
    assert_eq!(err, CssFailure { op: CssOperation::AppendSheet, code: CssError::CssBadParm });
    assert_eq!(ctx.count_sheets(), 0);
}

#[test]
fn select_results_hold_one_slot_per_pseudo_element() {
    let styles = vec![Some(style_fixture()), None, None, None, None];
    let results = CssSelectResults::from_select(styles, CssError::CssOk).unwrap();
    assert!(results.has_style(CssPseudoElement::CssPseudoElementNone));
    assert!(!results.has_style(CssPseudoElement::CssPseudoElementBefore));
    let style = results.computed_style(CssPseudoElement::CssPseudoElementNone);
    match style.color().unwrap() {
        CssColorValue::CssColorColor(c) => {
            assert_eq!((c.r, c.g, c.b, c.a), (255, 0, 0, 255));
        }
        other => panic!("expected the fixture colour, got {:?}", other),
    }
    assert_eq!(
        style.margin_top().unwrap(),
        CssMarginValue::CssMarginSet(CssUnit::CssUnitPx(2048))
    );
}

#[test]
fn select_results_failure_names_the_operation() {
    let styles = vec![None, None, None, None, None];
    let err = match CssSelectResults::from_select(styles, CssError::CssNoMem) {
        Err(f) => f,
        Ok(_) => panic!("a non-ok status must not produce results"),
    };
    assert_eq!(err, CssFailure { op: CssOperation::SelectStyle, code: CssError::CssNoMem });
}

#[test]
fn composition_resolves_font_size_through_the_resolver() {
    let parent = style_fixture();
    let mut child = style_fixture();
    child.color = CssRawColor { tag: 0x0, color: 0 };
    child.margin_top = dimension(0x0, 0, 0);
    child.font_size = dimension(0xa, 1536, 0x2);
    let calls = Cell::new(0u32);
    let composed = compose(&parent, &child, |p: Option<CssHint>, c: CssHint| {
        calls.set(calls.get() + 1);
        match (p, c) {
            (
                Some(CssHint::CssHintLength(CssUnit::CssUnitPx(16384))),
                CssHint::CssHintLength(CssUnit::CssUnitEm(1536)),
            ) => CssHint::CssHintLength(CssUnit::CssUnitPx(24576)),
            other => panic!("resolver saw unexpected hints: {:?}", other),
        }
    })
    .unwrap();
    assert_eq!(calls.get(), 1);
    assert_eq!(composed.font_size, dimension(0xa, 24576, 0x0));
    assert_eq!(composed.color, parent.color);
    assert_eq!(composed.margin_top, parent.margin_top);
    assert_eq!(composed.display, child.display);
    assert_eq!(composed.border_top_width, child.border_top_width);
}

#[test]
fn composition_keeps_explicit_child_values() {
    let parent = style_fixture();
    let mut child = style_fixture();
    child.color = CssRawColor { tag: 0x1, color: 0xFF123456 };
    let composed = compose(&parent, &child, |_p: Option<CssHint>, _c: CssHint| {
        CssHint::CssHintLength(CssUnit::CssUnitPx(16384))
    })
    .unwrap();
    assert_eq!(composed.color, CssRawColor { tag: 0x1, color: 0xFF123456 });
}

#[test]
fn composition_refuses_a_non_dimension_resolver_answer() {
    let parent = style_fixture();
    let child = style_fixture();
    let err = compose(&parent, &child, |_p: Option<CssHint>, _c: CssHint| CssHint::CssHintDefault)
        .unwrap_err();
    assert_eq!(
        err,
        CssComposeError::Hint(CssHintError::HintShapeMismatch(CssProperty::CssPropFontSize))
    );
    let err = compose(&parent, &child, |_p: Option<CssHint>, _c: CssHint| CssHint::CssHintUnknown)
        .unwrap_err();
    assert_eq!(
        err,
        CssComposeError::Hint(CssHintError::UnknownHint(CssProperty::CssPropFontSize))
    );
}

#[test]
fn composition_refuses_an_unknown_unit() {
    let parent = style_fixture();
    let mut child = style_fixture();
    child.font_size = dimension(0xa, 10, 77);
    let err = compose(&parent, &child, |_p: Option<CssHint>, _c: CssHint| {
        CssHint::CssHintLength(CssUnit::CssUnitPx(16384))
    })
    .unwrap_err();
    assert_eq!(err, CssComposeError::UnknownUnit { unit: 77 });
}

#[test]
fn composition_font_family_inherits_names() {
    let mut parent = style_fixture();
    parent.font_family = CssRawFontFamily {
        tag: 0x0,
        names: Some(vec!["Helvetica".to_string()]),
    };
    let mut child = style_fixture();
    child.font_family = CssRawFontFamily { tag: 0x0, names: None };
    let composed = compose(&parent, &child, |_p: Option<CssHint>, _c: CssHint| {
        CssHint::CssHintLength(CssUnit::CssUnitPx(16384))
    })
    .unwrap();
    assert_eq!(composed.font_family.names, Some(vec!["Helvetica".to_string()]));
}

#[test]
fn composition_router_feeds_the_resolver_records() {
    let mut parent = CssHintRecord::new();
    CssHint::CssHintLength(CssUnit::CssUnitPx(16384))
        .write_to_ll(CssProperty::CssPropFontSize, &mut parent)
        .unwrap();
    let mut size = CssHintRecord::new();
    CssHint::CssHintLength(CssUnit::CssUnitEm(1536))
        .write_to_ll(CssProperty::CssPropFontSize, &mut size)
        .unwrap();
    compute_font_size_cb(Some(&parent), &mut size, |p: Option<CssHint>, c: CssHint| {
        match (p, c) {
            (
                Some(CssHint::CssHintLength(CssUnit::CssUnitPx(16384))),
                CssHint::CssHintLength(CssUnit::CssUnitEm(1536)),
            ) => CssHint::CssHintLength(CssUnit::CssUnitPx(24576)),
            other => panic!("resolver saw unexpected hints: {:?}", other),
        }
    })
    .unwrap();
    match CssHint::new(CssProperty::CssPropFontSize, &size).unwrap() {
        CssHint::CssHintLength(u) => assert_eq!(u, CssUnit::CssUnitPx(24576)),
        other => panic!("expected the resolver answer written back, got {:?}", other),
    }
}

#[test]
fn composition_fully_inheriting_child_takes_the_parent() {
    let parent = style_fixture();
    let mut child = style_fixture();
    child.color = CssRawColor { tag: 0x0, color: 0 };
    child.background_color = CssRawColor { tag: 0x0, color: 0 };
    child.border_top_width = dimension(0x0, 0, 0);
    child.border_right_width = dimension(0x0, 0, 0);
    child.border_bottom_width = dimension(0x0, 0, 0);
    child.border_left_width = dimension(0x0, 0, 0);
    child.border_top_color = CssRawColor { tag: 0x0, color: 0 };
    child.border_right_color = CssRawColor { tag: 0x0, color: 0 };
    child.border_bottom_color = CssRawColor { tag: 0x0, color: 0 };
    child.border_left_color = CssRawColor { tag: 0x0, color: 0 };
    child.margin_top = dimension(0x0, 0, 0);
    child.margin_right = dimension(0x0, 0, 0);
    child.margin_bottom = dimension(0x0, 0, 0);
    child.margin_left = dimension(0x0, 0, 0);
    child.display = 0x0;
    child.display_root = 0x0;
    child.position = 0x0;
    child.width = dimension(0x0, 0, 0);
    child.height = dimension(0x0, 0, 0);
    child.float = 0x0;
    child.font_family = CssRawFontFamily { tag: 0x0, names: None };
    child.font_size = dimension(0x0, 0, 0);
    child.font_style = 0x0;
    child.font_weight = 0x0;
    child.text_align = 0x0;
    child.line_height = dimension(0x0, 0, 0);
    let composed = compose(&parent, &child, |p: Option<CssHint>, c: CssHint| {
        match (p, c) {
            (Some(CssHint::CssHintLength(u)), CssHint::CssHintUnknown) => {
                CssHint::CssHintLength(u)
            }
            other => panic!("resolver saw unexpected hints: {:?}", other),
        }
    })
    .unwrap();
    assert_eq!(composed.color, parent.color);
    assert_eq!(composed.background_color, parent.background_color);
    assert_eq!(composed.border_top_width, parent.border_top_width);
    assert_eq!(composed.margin_left, parent.margin_left);
    assert_eq!(composed.display, parent.display);
    assert_eq!(composed.display_root, parent.display_root);
    assert_eq!(composed.position, parent.position);
    assert_eq!(composed.width, parent.width);
    assert_eq!(composed.height, parent.height);
    assert_eq!(composed.float, parent.float);
    assert_eq!(composed.font_family.tag, parent.font_family.tag);
    assert_eq!(composed.font_size, parent.font_size);
    assert_eq!(composed.font_style, parent.font_style);
    assert_eq!(composed.font_weight, parent.font_weight);
    assert_eq!(composed.text_align, parent.text_align);
    assert_eq!(composed.line_height, parent.line_height);
}

#[test]
fn display_accessor_serves_both_root_answers() {
    let mut style = style_fixture();
    style.display = 0x01;
    style.display_root = 0x02;
    assert_eq!(style.display(false).unwrap(), CssDisplayValue::CssDisplayInline);
    assert_eq!(style.display(true).unwrap(), CssDisplayValue::CssDisplayBlock);
}
