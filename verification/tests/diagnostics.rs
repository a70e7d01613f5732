use vrk::diagnostics::{
    category_tag, decode_message, report, severity_tag, CATEGORY_GENERAL, CATEGORY_PERFORMANCE,
    CATEGORY_VALIDATION, CONTINUE_SENTINEL, MAX_MESSAGE_BYTES, SEVERITY_ERROR, SEVERITY_INFO,
    SEVERITY_VERBOSE, SEVERITY_WARNING,
};

#[test]
fn report_always_returns_continue_sentinel() {
    let severities = [
        0u32,
        SEVERITY_VERBOSE,
        SEVERITY_INFO,
        SEVERITY_WARNING,
        SEVERITY_ERROR,
        SEVERITY_VERBOSE | SEVERITY_ERROR,
        SEVERITY_VERBOSE | SEVERITY_INFO | SEVERITY_WARNING | SEVERITY_ERROR,
        0x8000_0000,
        u32::MAX,
    ];
    for &sev in severities.iter() {
        let (_, verdict) = report(sev, CATEGORY_GENERAL, "msg");
        assert_eq!(verdict, CONTINUE_SENTINEL);
        assert_eq!(verdict, 0);
    }
}

#[test]
fn category_tag_names_each_set_bit_exactly_once() {
    assert_eq!(category_tag(CATEGORY_GENERAL), "general");
    assert_eq!(category_tag(CATEGORY_VALIDATION), "validation");
    assert_eq!(category_tag(CATEGORY_PERFORMANCE), "performance");
    assert_eq!(
        category_tag(CATEGORY_VALIDATION | CATEGORY_PERFORMANCE),
        "validation, performance"
    );
    assert_eq!(
        category_tag(CATEGORY_GENERAL | CATEGORY_VALIDATION | CATEGORY_PERFORMANCE),
        "general, validation, performance"
    );
    // Deterministic: the same bits give the same tag again.
    assert_eq!(
        category_tag(CATEGORY_VALIDATION | CATEGORY_PERFORMANCE),
        category_tag(CATEGORY_VALIDATION | CATEGORY_PERFORMANCE)
    );
}

#[test]
fn category_tag_with_no_known_bit_is_unknown() {
    assert_eq!(category_tag(0), "unknown");
    assert_eq!(category_tag(0x80), "unknown");
}

#[test]
fn severity_tag_names_each_set_bit() {
    assert_eq!(severity_tag(SEVERITY_VERBOSE), "verbose");
    assert_eq!(severity_tag(SEVERITY_INFO), "info");
    assert_eq!(severity_tag(SEVERITY_WARNING), "warning");
    assert_eq!(severity_tag(SEVERITY_ERROR), "error");
    assert_eq!(severity_tag(SEVERITY_INFO | SEVERITY_ERROR), "info, error");
    assert_eq!(
        severity_tag(SEVERITY_VERBOSE | SEVERITY_INFO | SEVERITY_WARNING | SEVERITY_ERROR),
        "verbose, info, warning, error"
    );
    assert_eq!(severity_tag(0), "unknown");
}

#[test]
fn null_message_decodes_to_empty_without_crash() {
    let decoded = decode_message(None);
    assert!(decoded.is_empty());
    let text = String::from_utf8(decoded).unwrap();
    let (line, verdict) = report(SEVERITY_ERROR, CATEGORY_VALIDATION, &text);
    assert_eq!(line, "[Debug][error][validation] \"\"");
    assert_eq!(verdict, CONTINUE_SENTINEL);
}

#[test]
fn decode_message_stops_at_the_nul_terminator() {
    let raw = b"leak detected\0garbage after the terminator".to_vec();
    let decoded = decode_message(Some(&raw));
    assert_eq!(decoded, b"leak detected".to_vec());
}

#[test]
fn decode_message_without_terminator_is_capped() {
    let raw = vec![b'a'; MAX_MESSAGE_BYTES + 1000];
    let decoded = decode_message(Some(&raw));
    assert_eq!(decoded.len(), MAX_MESSAGE_BYTES);
    assert!(decoded.iter().all(|&b| b == b'a'));
}

#[test]
fn decode_message_keeps_a_short_unterminated_payload() {
    let raw = b"short".to_vec();
    let decoded = decode_message(Some(&raw));
    assert_eq!(decoded, b"short".to_vec());
}

#[test]
fn warning_validation_performance_scenario() {
    let raw = b"leak detected\0".to_vec();
    let decoded = decode_message(Some(&raw));
    let text = String::from_utf8(decoded).unwrap();
    let (line, verdict) = report(
        SEVERITY_WARNING,
        CATEGORY_VALIDATION | CATEGORY_PERFORMANCE,
        &text,
    );
    assert_eq!(
        line,
        "[Debug][warning][validation, performance] \"leak detected\""
    );
    assert_eq!(verdict, CONTINUE_SENTINEL);
}

#[test]
fn report_line_has_the_structured_shape() {
    let (line, _) = report(SEVERITY_INFO, CATEGORY_GENERAL, "hello");
    assert_eq!(line, "[Debug][info][general] \"hello\"");
    let (line2, _) = report(0, 0, "");
    assert_eq!(line2, "[Debug][unknown][unknown] \"\"");
}
