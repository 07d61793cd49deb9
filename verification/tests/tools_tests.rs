use fizz::tools::{
    BuiltinRunner, ToolCall, ToolRunner, format_tool_result_user_message, parse_tool_call,
    usage_instructions,
};

#[test]
fn parse_tool_call_reads_name() {
    let call =
        parse_tool_call(r#"{"tool_call":{"name":"time.now"}}"#).expect("tool call should parse");
    assert_eq!(call.name, "time.now");
}

#[test]
fn parse_tool_call_rejects_other_text() {
    assert!(parse_tool_call("hello").is_none());
}

#[test]
fn parse_tool_call_rejects_legacy_format() {
    assert!(parse_tool_call("TOOL_CALL:time.now").is_none());
}

#[test]
fn parse_tool_call_rejects_invalid_json() {
    assert!(parse_tool_call(r#"{"tool_call":{"name":}}"#).is_none());
}

#[test]
fn parse_tool_call_rejects_unknown_shape() {
    assert!(parse_tool_call(r#"{"name":"time.now"}"#).is_none());
}

#[test]
fn parse_tool_call_rejects_empty_name() {
    assert!(parse_tool_call(r#"{"tool_call":{"name":"   "}}"#).is_none());
}

#[test]
fn parse_tool_call_accepts_surrounding_whitespace() {
    let call = parse_tool_call("  \n\t{ \"tool_call\" : { \"name\" : \" time.now \" } }  \n")
        .expect("tool call should parse");
    assert_eq!(call.name, "time.now");
}

#[test]
fn parse_tool_call_decodes_string_escapes() {
    let call = parse_tool_call(r#"{"tool_call":{"name":"time.now"}}"#)
        .expect("tool call should parse");
    assert_eq!(call.name, "time.now");

    let call =
        parse_tool_call(r#"{"tool_call":{"name":"a\"b\\c\/d\te"}}"#).expect("escapes should parse");
    assert_eq!(call.name, "a\"b\\c/d\te");
}

#[test]
fn parse_tool_call_decodes_surrogate_pairs() {
    let call = parse_tool_call("{\"tool_call\":{\"name\":\"\\uD83D\\uDE00\"}}")
        .expect("surrogate pair should parse");
    assert_eq!(call.name, "\u{1F600}");

    let call = parse_tool_call("{\"tool_call\":{\"name\":\"\\u0041\\u002E\"}}")
        .expect("plain unicode escapes should parse");
    assert_eq!(call.name, "A.");
}

#[test]
fn parse_tool_call_rejects_lone_surrogates_and_bad_escapes() {
    assert!(parse_tool_call(r#"{"tool_call":{"name":"\uD83D"}}"#).is_none());
    assert!(parse_tool_call(r#"{"tool_call":{"name":"\uDE00"}}"#).is_none());
    assert!(parse_tool_call(r#"{"tool_call":{"name":"\q"}}"#).is_none());
    assert!(parse_tool_call(r#"{"tool_call":{"name":"\uZZZZ"}}"#).is_none());
}

#[test]
fn parse_tool_call_rejects_extra_members() {
    assert!(parse_tool_call(r#"{"tool_call":{"name":"a","x":"y"}}"#).is_none());
    assert!(parse_tool_call(r#"{"tool_call":{"name":"a"},"x":"y"}"#).is_none());
    assert!(parse_tool_call(r#"{"tool_call":{"name":"a"}} extra"#).is_none());
}

#[test]
fn parse_tool_call_rejects_wrong_value_types() {
    assert!(parse_tool_call(r#"{"tool_call":{"name":7}}"#).is_none());
    assert!(parse_tool_call(r#"{"tool_call":"time.now"}"#).is_none());
    assert!(parse_tool_call(r#"{"tool_call":{}}"#).is_none());
    assert!(parse_tool_call("{}").is_none());
}

#[test]
fn parse_tool_call_agrees_with_reference_json_parser() {
    let inputs = [
        r#"{"tool_call":{"name":"time.now"}}"#,
        " { \"tool_call\" : { \"name\" : \"x\" } } ",
        "{\"tool_call\":\n{\"name\":\"a b\"}}",
        r#"{"tool_call":{"name":"A"}}"#,
        r#"{"tool_call":{"name":"𝄞"}}"#,
        r#"{"tool_call":{"name":""}}"#,
        r#"{"tool_call":{"name":"a}"}}"#,
        r#"{"tool_call":{"name":"a{"}}"#,
        r#"{"tool_call":{"nome":"a"}}"#,
        r#"{"tool_call":{"name":"a"}"#,
        r#"{"tool_call":{"name":"a"}}}"#,
        r#"["tool_call"]"#,
        "null",
        "{\"tool_call\":{\"name\":\"tab\there\"}}",
    ];
    for input in inputs {
        let reference = reference_parse(input);
        let mine = parse_tool_call(input).map(|c| c.name);
        assert_eq!(mine, reference, "disagreement on input: {input:?}");
    }
}

/// The shape the wire format allows, read with the reference JSON parser:
/// one `tool_call` member holding one `name` member holding a string, with
/// the name trimmed and required non-empty.
fn reference_parse(input: &str) -> Option<String> {
    let value: serde_json::Value = serde_json::from_str(input.trim()).ok()?;
    let outer = value.as_object()?;
    if outer.len() != 1 {
        return None;
    }
    let payload = outer.get("tool_call")?.as_object()?;
    if payload.len() != 1 {
        return None;
    }
    let name = payload.get("name")?.as_str()?.trim();
    if name.is_empty() {
        return None;
    }
    Some(name.to_string())
}

#[test]
fn execute_time_now_returns_readable_and_unix() {
    let mut runner = BuiltinRunner;
    let output = runner
        .execute(&ToolCall {
            name: "time.now".to_string(),
        })
        .expect("time.now should work")
        .content;
    assert!(output.contains("T"));
    assert!(output.contains("Z"));
    assert!(output.contains("(unix: "));
    assert!(output.ends_with(')'));
}

#[test]
fn execute_unknown_tool_returns_error() {
    let mut runner = BuiltinRunner;
    let result = runner.execute(&ToolCall {
        name: "missing.tool".to_string(),
    });
    assert!(result.is_err());
}

#[test]
fn unknown_tool_error_names_the_tool() {
    let runner = BuiltinRunner;
    let err = runner
        .run(&ToolCall {
            name: "missing.tool".to_string(),
        })
        .expect_err("unknown tool should fail");
    assert_eq!(err.message(), "unknown tool 'missing.tool'");
}

#[test]
fn tool_result_message_has_exact_wording() {
    assert_eq!(
        format_tool_result_user_message("time.now", "12:00 (unix: 0)"),
        "Tool 'time.now' result: 12:00 (unix: 0)"
    );
}

#[test]
fn usage_instructions_describe_the_envelope() {
    let text = usage_instructions();
    assert!(text.contains(r#"{"tool_call":{"name":"time.now"}}"#));
    assert!(text.contains("time.now"));
}
