use netsurfcss::errors::CssError;
use netsurfcss::errors::CssFailure;
use netsurfcss::errors::CssOperation;
use netsurfcss::errors::css_result;
use netsurfcss::errors::require_ok;
use netsurfcss::hint::get_css_hint_status;
use netsurfcss::select::CSS_MEDIA_ALL;
use netsurfcss::select::CssOrigin;
use netsurfcss::select::css_select_ctx_create;
use netsurfcss::select::ua_default_for_property;
use netsurfcss::host::ChainHandler;
use netsurfcss::host::ChainNode;
use netsurfcss::select::CssSelectHandler;
use netsurfcss::stylesheet::CssStylesheetParams;
use netsurfcss::stylesheet::CssStylesheetParamsVersion;
use netsurfcss::stylesheet::CssStylesheetRef;
use netsurfcss::stylesheet::CssUrlResolutionFn;
use netsurfcss::stylesheet::css_stylesheet_create;
use netsurfcss::types::CssLanguageLevel;
use netsurfcss::types::ll_color_to_hl_color;
use netsurfcss::values::CssColorValue;

fn chain_handler() -> ChainHandler {
    ChainHandler {
        names: (1..7).map(|i| format!("h{}", i)).collect(),
        root_id: "main".to_string(),
        fallback: "anonymous".to_string(),
    }
}

#[test]
fn run() {
    let data = "h1 { color: red; }h4 { color: #321; }h4, h5 { color: #123456; }";

    let params: CssStylesheetParams = CssStylesheetParams {
        params_version: CssStylesheetParamsVersion::CssStylesheetParamsVersion1,
        level: CssLanguageLevel::CssLevel21,
        charset: "UTF-8".to_string(),
        url: "foo".to_string(),
        title: "foo".to_string(),
        allow_quirks: false,
        inline_style: false,
        resolve: Some(CssUrlResolutionFn),
        import: None,
        color: None,
        font: None,
    };

    let mut sheet: CssStylesheetRef = css_stylesheet_create(&params, CssError::CssOk).unwrap();
    let _ = sheet.size(0, CssError::CssOk).unwrap();

    sheet.append_data(data.as_bytes(), CssError::CssNeedData).unwrap();
    sheet.data_done(CssError::CssOk).unwrap();
    let _ = sheet.size(data.len(), CssError::CssOk).unwrap();

    let mut select_ctx = css_select_ctx_create(CssError::CssOk).unwrap();
    assert!(select_ctx.count_sheets() == 0);
    select_ctx
        .append_sheet(sheet, CssOrigin::CssOriginAuthor, CSS_MEDIA_ALL, CssError::CssOk)
        .unwrap();
    assert!(select_ctx.count_sheets() == 1);

    for hh in 1usize..7 {
        let element = format!("h{}", hh);
        let element_node = ChainNode::new(hh);
        let select_handler = chain_handler();
        assert_eq!(select_handler.node_name(&element_node).name, element);
    }
}

#[test]
fn selection_scenario_colors_decode_exactly() {
    // The engine resolves `h1` to the rule colour `red`, and `h4` to the
    // last matching rule's `#123456`; each arrives as a (tag, packed
    // colour) pair and must decode to exactly those channel values.
    match CssColorValue::new(0x1, 0xFFFF0000).unwrap() {
        CssColorValue::CssColorColor(c) => assert_eq!((c.r, c.g, c.b, c.a), (255, 0, 0, 255)),
        other => panic!("expected a concrete colour, got {:?}", other),
    }
    let deep = ll_color_to_hl_color(0xFF123456);
    assert_eq!((deep.r, deep.g, deep.b), (0x12, 0x34, 0x56));
    assert_ne!((deep.r, deep.g, deep.b), (0x33, 0x22, 0x11));

    // A node no rule matches falls back to the handler's user-agent
    // default hint for the colour property: the opaque-black default.
    let handler = chain_handler();
    let rec =
        ua_default_for_property::<ChainNode, ChainHandler>(&handler, 0x018).unwrap();
    assert_eq!(get_css_hint_status(&rec), 0x1);
}

#[test]
fn stylesheet_creation_failure_names_the_operation() {
    let params = CssStylesheetParams {
        params_version: CssStylesheetParamsVersion::CssStylesheetParamsVersion1,
        level: CssLanguageLevel::CssLevel21,
        charset: "UTF-8".to_string(),
        url: "foo".to_string(),
        title: "foo".to_string(),
        allow_quirks: false,
        inline_style: false,
        resolve: None,
        import: None,
        color: None,
        font: None,
    };
    let err = match css_stylesheet_create(&params, CssError::CssNoMem) {
        Err(f) => f,
        Ok(_) => panic!("a non-ok status must not produce a stylesheet"),
    };
    assert_eq!(err, CssFailure { op: CssOperation::CreateStylesheet, code: CssError::CssNoMem });
}

#[test]
fn append_data_treats_need_data_as_expected() {
    let params = CssStylesheetParams {
        params_version: CssStylesheetParamsVersion::CssStylesheetParamsVersion1,
        level: CssLanguageLevel::CssLevel21,
        charset: "UTF-8".to_string(),
        url: "foo".to_string(),
        title: "foo".to_string(),
        allow_quirks: false,
        inline_style: false,
        resolve: None,
        import: None,
        color: None,
        font: None,
    };
    let mut sheet = css_stylesheet_create(&params, CssError::CssOk).unwrap();
    sheet.append_data(b"h1 {", CssError::CssNeedData).unwrap();
    sheet.append_data(b" color: red; }", CssError::CssOk).unwrap();
    let err = sheet.append_data(b"h2", CssError::CssBadParm).unwrap_err();
    assert_eq!(
        err,
        CssFailure { op: CssOperation::AppendStylesheetData, code: CssError::CssBadParm }
    );
    let err = sheet.data_done(CssError::CssInvalid).unwrap_err();
    assert_eq!(
        err,
        CssFailure { op: CssOperation::FinishStylesheetData, code: CssError::CssInvalid }
    );
    sheet.data_done(CssError::CssOk).unwrap();
}

#[test]
fn stylesheet_size_reports_the_engine_value() {
    let params = CssStylesheetParams {
        params_version: CssStylesheetParamsVersion::CssStylesheetParamsVersion1,
        level: CssLanguageLevel::CssLevel21,
        charset: "UTF-8".to_string(),
        url: "foo".to_string(),
        title: "foo".to_string(),
        allow_quirks: false,
        inline_style: false,
        resolve: None,
        import: None,
        color: None,
        font: None,
    };
    let sheet = css_stylesheet_create(&params, CssError::CssOk).unwrap();
    assert_eq!(sheet.size(1234, CssError::CssOk).unwrap(), 1234);
    let err = sheet.size(0, CssError::CssBadParm).unwrap_err();
    assert_eq!(err, CssFailure { op: CssOperation::StylesheetSize, code: CssError::CssBadParm });
}

#[test]
fn select_ctx_creation_failure_names_the_operation() {
    let err = match css_select_ctx_create(CssError::CssNoMem) {
        Err(f) => f,
        Ok(_) => panic!("a non-ok status must not produce a context"),
    };
    assert_eq!(err, CssFailure { op: CssOperation::CreateSelectCtx, code: CssError::CssNoMem });
}

#[test]
fn status_helpers_split_on_ok() {
    assert!(require_ok(CssError::CssOk, CssOperation::StylesheetSize).is_ok());
    assert_eq!(
        require_ok(CssError::CssEof, CssOperation::StylesheetSize),
        Err(CssFailure { op: CssOperation::StylesheetSize, code: CssError::CssEof })
    );
    assert_eq!(css_result(CssError::CssOk, 7u32), Ok(7u32));
    assert_eq!(css_result(CssError::CssNoMem, 7u32), Err(CssError::CssNoMem));
}

#[test]
fn append_data_accepts_an_empty_chunk() {
    let params = CssStylesheetParams {
        params_version: CssStylesheetParamsVersion::CssStylesheetParamsVersion1,
        level: CssLanguageLevel::CssLevel21,
        charset: "UTF-8".to_string(),
        url: "foo".to_string(),
        title: "foo".to_string(),
        allow_quirks: false,
        inline_style: false,
        resolve: None,
        import: None,
        color: None,
        font: None,
    };
    let mut sheet = css_stylesheet_create(&params, CssError::CssOk).unwrap();
    sheet.append_data(b"", CssError::CssNeedData).unwrap();
    sheet.data_done(CssError::CssOk).unwrap();
}
