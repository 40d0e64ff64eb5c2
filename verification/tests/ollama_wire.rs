use brokkr::mimir::ollama::{DEFAULT_SYSTEM, OllamaBackend, interpret_reply, json_escape, read_reply};

#[test]
fn request_bytes_exact_with_custom_system() {
    let b = OllamaBackend::new("llama3.2:3b".to_string(), "localhost".to_string())
        .with_system("Be terse.".to_string());
    let req = b.request_bytes("write \"a\"\nnow");
    let body = "{\"model\":\"llama3.2:3b\",\"system\":\"Be terse.\",\"prompt\":\"write \\\"a\\\"\\nnow\",\"stream\":false,\"options\":{\"temperature\":0}}";
    let expected = format!(
        "POST /api/generate HTTP/1.1\r\nHost: localhost\r\nContent-Type: application/json\r\nContent-Length: {}\r\nConnection: close\r\n\r\n{}",
        body.len(),
        body
    );
    assert_eq!(String::from_utf8(req).unwrap(), expected);
}

#[test]
fn request_bytes_default_system_and_byte_length() {
    let b = OllamaBackend::new("m".to_string(), "gw".to_string());
    // A multi-byte prompt: Content-Length counts bytes, not characters.
    let req = String::from_utf8(b.request_bytes("héllo ✓")).unwrap();
    let body = format!(
        "{{\"model\":\"m\",\"system\":\"{}\",\"prompt\":\"héllo ✓\",\"stream\":false,\"options\":{{\"temperature\":0}}}}",
        json_escape(DEFAULT_SYSTEM)
    );
    assert!(req.contains(&format!("Content-Length: {}\r\n", body.len())));
    assert!(req.ends_with(&body));
    assert!(req.starts_with("POST /api/generate HTTP/1.1\r\nHost: gw\r\n"));
    assert_ne!(body.len(), body.chars().count());
}

#[test]
fn reply_with_response_field_proposes_parsed_action() {
    let raw = "HTTP/1.1 200 OK\r\n\r\n{\"model\":\"m\",\"response\":\"TOOL: write_file\\nPATH: /tmp/x.txt\",\"done\":true}";
    let p = interpret_reply(raw).unwrap();
    assert_eq!(p.rationale, "TOOL: write_file\nPATH: /tmp/x.txt");
    assert_eq!(p.action.tool.as_str(), "write_file");
    assert_eq!(p.action.detail, "/tmp/x.txt");
}

#[test]
fn reply_error_field_wins() {
    let e = interpret_reply("{\"error\":\"model not found\",\"response\":\"TOOL: x\"}").unwrap_err();
    assert_eq!(e.detail, "ollama error: model not found");
}

#[test]
fn reply_without_response_is_error() {
    let e = interpret_reply("{\"done\":true}").unwrap_err();
    assert_eq!(e.detail, "ollama response missing a `response` field");
}

#[test]
fn raw_reply_bytes_are_decoded_lossily() {
    let mut bytes = b"{\"response\":\"TOOL: write_file\\nPATH: /tmp/".to_vec();
    bytes.push(0xff);
    bytes.extend_from_slice(b"\"}");
    let p = read_reply(&bytes).unwrap();
    assert_eq!(p.rationale, "TOOL: write_file\nPATH: /tmp/\u{fffd}");
    assert_eq!(p.action.detail, "/tmp/\u{fffd}");
}
