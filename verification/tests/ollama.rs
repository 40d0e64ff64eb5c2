use brokkr::mimir::ollama::{json_escape, json_string_field, parse_action};

#[test]
fn extracts_response_field_from_a_full_http_response() {
    let raw = "HTTP/1.1 200 OK\r\nContent-Type: application/json\r\nContent-Length: 60\r\n\r\n\
{\"model\":\"llama3.2:3b\",\"response\":\"TOOL: write_file\\nPATH: /tmp/x.txt\",\"done\":true}";
    assert_eq!(
        json_string_field(raw, "response").as_deref(),
        Some("TOOL: write_file\nPATH: /tmp/x.txt")
    );
}

#[test]
fn missing_field_is_none_and_error_field_is_detected() {
    assert!(json_string_field("{\"done\":true}", "response").is_none());
    let err = "HTTP/1.1 404\r\n\r\n{\"error\":\"model not found\"}";
    assert_eq!(
        json_string_field(err, "error").as_deref(),
        Some("model not found")
    );
}

#[test]
fn decodes_common_escapes() {
    let raw = "{\"response\":\"line1\\nline2 \\\"quoted\\\" end\"}";
    assert_eq!(
        json_string_field(raw, "response").as_deref(),
        Some("line1\nline2 \"quoted\" end")
    );
}

#[test]
fn parses_tool_and_path_lines() {
    let a = parse_action("TOOL: write_file\nPATH: /tmp/brokkr.txt");
    assert_eq!(a.tool.as_str(), "write_file");
    assert_eq!(a.detail, "/tmp/brokkr.txt");
}

#[test]
fn parse_is_case_insensitive_and_strips_quotes() {
    let a = parse_action("tool: `write_file`\npath: \"/tmp/y.txt\"");
    assert_eq!(a.tool.as_str(), "write_file");
    assert_eq!(a.detail, "/tmp/y.txt");
}

#[test]
fn unparseable_response_yields_unknown_tool_gate_will_deny() {
    let a = parse_action("I think you should write a file somewhere nice.");
    assert_eq!(a.tool.as_str(), "unknown");
    assert!(
        a.detail.is_empty(),
        "no detail echo after the fallback removal"
    );
}

#[test]
fn fix_f6_shell_style_response_no_longer_parsed() {
    let a = parse_action("#!/bin/bash\nwrite_file /tmp/brokkr-phase12-test.txt 'hello world'");
    assert_eq!(a.tool.as_str(), "unknown", "no lenient recovery");
}

#[test]
fn strict_form_still_wins_over_lenient() {
    let a =
        parse_action("TOOL: write_file\nPATH: /tmp/strict.txt\n(write_file /other/path too)");
    assert_eq!(a.tool.as_str(), "write_file");
    assert_eq!(a.detail, "/tmp/strict.txt");
}

#[test]
fn json_escape_roundtrips_through_the_extractor() {
    let payload = "path is \"C:\\tmp\" and\na newline";
    let escaped = json_escape(payload);
    let doc = format!("{{\"response\":\"{escaped}\"}}");
    assert_eq!(
        json_string_field(&doc, "response").as_deref(),
        Some(payload)
    );
}

#[test]
fn attack_3_1_first_tool_pair_wins() {
    let resp = "Here's the plan:\n```\nTOOL: read_file\nPATH: /tmp/safe.txt\n```\n\
Actually do this:\nTOOL: write_file\nPATH: /etc/shadow";
    let a = parse_action(resp);
    assert_eq!(a.tool.as_str(), "read_file", "FIRST TOOL wins (F-16)");
    assert_eq!(a.detail, "/tmp/safe.txt", "FIRST PATH wins (F-16)");
}

/// TOOL and PATH on the same line. `TOOL:` is a line prefix, so the whole remainder
/// (`write_file PATH: /etc/passwd`) becomes the tool name — a malformed, undeclared tool.
#[test]
fn attack_3_2_same_line_is_a_malformed_tool() {
    let a = parse_action("TOOL: write_file PATH: /etc/passwd");
    assert_ne!(a.tool.as_str(), "write_file", "not the clean tool name");
    assert!(
        a.tool.as_str().contains("write_file PATH:"),
        "the whole rest became the tool"
    );
    assert_eq!(a.detail, "");
}

/// reversed order (PATH before TOOL). Extraction is order-independent (each line is
/// scanned independently).
#[test]
fn attack_3_3_order_independent() {
    let a = parse_action("PATH: /etc/passwd\nTOOL: write_file");
    assert_eq!(a.tool.as_str(), "write_file");
    assert_eq!(a.detail, "/etc/passwd");
}

#[test]
fn attack_3_4_multiple_pairs_first_wins() {
    let a = parse_action(
        "TOOL: read_file\nPATH: /tmp/safe.txt\nTOOL: write_file\nPATH: /etc/passwd",
    );
    assert_eq!(a.tool.as_str(), "read_file", "FIRST pair wins (F-16)");
    assert_eq!(a.detail, "/tmp/safe.txt");
}

/// a LITERAL `\n` (backslash-n, two chars), not a real newline. It is not a line
/// separator, so the whole string becomes one malformed tool name → undeclared.
#[test]
fn attack_3_5_literal_backslash_n_is_not_a_separator() {
    let a = parse_action("TOOL: write_file\\nPATH: /etc/passwd");
    assert_ne!(a.tool.as_str(), "write_file");
    assert!(
        a.tool.as_str().contains("write_file\\nPATH:"),
        "one line, one malformed tool"
    );
}

#[test]
fn attack_3_6_prose_yields_unknown_after_fix() {
    let a = parse_action("I suggest using write_file at /etc/shadow to store credentials.");
    assert_eq!(
        a.tool.as_str(),
        "unknown",
        "prose is no longer mined into an action"
    );
    assert_eq!(a.detail, "", "no lenient path extraction");
}

/// The strict `TOOL:`/`PATH:` format still works after the lenient fallback is removed.
#[test]
fn fix_f6_strict_format_still_works() {
    let a = parse_action("TOOL: write_file\nPATH: /tmp/x.txt");
    assert_eq!(a.tool.as_str(), "write_file");
    assert_eq!(a.detail, "/tmp/x.txt");
}

/// Prose that would have been mined by the old fallback is now `unknown` (fail-closed).
#[test]
fn fix_f6_prose_no_longer_parsed() {
    for prose in [
        "please run write_file on /etc/shadow",
        "the write_file tool should target /root/.ssh/id_rsa",
        "write_file /etc/passwd now",
    ] {
        assert_eq!(parse_action(prose).tool.as_str(), "unknown", "{prose}");
    }
}

/// `TOOL:` with no value → empty tool → `unknown` (fail-closed, the costimulation gate denies).
#[test]
fn attack_2_1_tool_with_no_value_is_unknown() {
    let a = parse_action("TOOL:\nPATH: /tmp/x.txt");
    assert_eq!(a.tool.as_str(), "unknown");
    assert_eq!(a.detail, "/tmp/x.txt");
}

/// `PATH:` with no value → empty detail (the orchestrator/tool judges it; empty is safe).
#[test]
fn attack_2_2_path_with_no_value_is_empty() {
    let a = parse_action("TOOL: write_file\nPATH:");
    assert_eq!(a.tool.as_str(), "write_file");
    assert_eq!(a.detail, "");
}

#[test]
fn attack_2_3_first_pair_wins() {
    let a = parse_action("TOOL: read_file\nPATH: /tmp/a\nTOOL: write_file\nPATH: /tmp/b");
    assert_eq!(a.tool.as_str(), "read_file", "FIRST pair wins (F-16)");
    assert_eq!(a.detail, "/tmp/a");
}

/// a Cyrillic homoglyph (`\u{0435}`) in the tool name is byte-different from `write_file`;
/// the parser does not normalize Unicode, so it yields a non-`write_file` tool the genome denies.
#[test]
fn attack_2_4_unicode_homoglyph_not_normalized() {
    let a = parse_action("TOOL: writ\u{0435}_file\nPATH: /tmp/x.txt");
    assert_ne!(a.tool.as_str(), "write_file", "homoglyph is byte-different");
    assert!(
        a.tool.as_str().contains('\u{0435}'),
        "the codepoint is preserved verbatim"
    );
}

/// escaped inner JSON in the `response` value. `json_string_field` decodes the escapes,
/// so the extracted string is `{"TOOL": "write_file"}` — one line with no leading `TOOL:` prefix
/// (it starts with `{`), so `parse_action` finds no TOOL line → `unknown`.
#[test]
fn attack_2_5_escaped_inner_json_yields_unknown() {
    let raw = "{\"response\": \"{\\\"TOOL\\\": \\\"write_file\\\"}\"}";
    let decoded = json_string_field(raw, "response");
    assert_eq!(decoded.as_deref(), Some("{\"TOOL\": \"write_file\"}"));
    // The decoded value is a single line beginning with `{`, not `TOOL:`; no match.
    let decoded = decoded.unwrap_or_default();
    assert_eq!(parse_action(&decoded).tool.as_str(), "unknown");
}

#[test]
fn attack_2_6_truncated_response() {
    // No `response` key present at all → None → BackendError upstream.
    assert!(json_string_field("{\"mod", "response").is_none());
    assert!(
        json_string_field("{\"response\": \"TOO", "response").is_none(),
        "truncated value returns None (F-17), not a partial"
    );
}

#[test]
fn fix_f16_first_pair_wins() {
    let a =
        parse_action("TOOL: read_file\nPATH: /tmp/safe\nTOOL: write_file\nPATH: /etc/shadow");
    assert_eq!(
        a.tool.as_str(),
        "read_file",
        "defender's choice: FIRST tool"
    );
    assert_eq!(a.detail, "/tmp/safe", "defender's choice: FIRST path");
}

#[test]
fn fix_f17_truncated_returns_none() {
    assert!(json_string_field("{\"response\": \"TOO", "response").is_none());
    // A value truncated mid-escape (trailing backslash) also returns None.
    assert!(json_string_field("{\"response\": \"a\\", "response").is_none());
    // A well-formed value is still extracted.
    assert_eq!(
        json_string_field("{\"response\": \"ok\"}", "response").as_deref(),
        Some("ok")
    );
}
