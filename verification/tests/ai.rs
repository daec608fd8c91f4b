use workbench::ai::{
    assistant_args, build_prompt, response_of_run, describe_context, describe_fields, fit_values, parse_response,
    values_from_array, values_from_member, values_from_result, wait_step, AiError, WaitStep, CONTEXT_CHARS,
    POLL_MILLIS, TIMEOUT_SECS,
};

fn strings(v: &[&str]) -> Vec<String> {
    v.iter().map(|s| s.to_string()).collect()
}

fn pairs(v: &[(&str, &str)]) -> Vec<(String, String)> {
    v.iter().map(|(a, b)| (a.to_string(), b.to_string())).collect()
}

#[test]
fn short_answer_is_filled_up() {
    assert_eq!(fit_values(strings(&["a", "b"]), 3), strings(&["a", "b", ""]));
}

#[test]
fn long_answer_is_cut() {
    assert_eq!(fit_values(strings(&["a", "b", "c", "d"]), 3), strings(&["a", "b", "c"]));
}

#[test]
fn fit_values_edge_cases() {
    assert_eq!(fit_values(strings(&[]), 0), strings(&[]));
    assert_eq!(fit_values(strings(&[]), 2), strings(&["", ""]));
    assert_eq!(fit_values(strings(&["x"]), 0), strings(&[]));
    assert_eq!(fit_values(strings(&["x", "y"]), 2), strings(&["x", "y"]));
}

#[test]
fn fields_are_numbered_from_one() {
    let f = pairs(&[("Ticket", "the ticket id"), ("Notes", ""), ("Owner", "who")]);
    assert_eq!(describe_fields(&f), "1. Ticket (the ticket id)\n2. Notes\n3. Owner (who)");
    assert_eq!(describe_fields(&Vec::new()), "");
    assert_eq!(describe_fields(&pairs(&[("Only", "")])), "1. Only");
}

#[test]
fn fields_past_nine_get_two_digits() {
    let f: Vec<(String, String)> = (0..11).map(|i| (format!("n{}", i), String::new())).collect();
    let text = describe_fields(&f);
    assert!(text.starts_with("1. n0\n2. n1\n"));
    assert!(text.ends_with("\n10. n9\n11. n10"));
}

#[test]
fn context_holds_the_last_characters() {
    assert_eq!(describe_context(&None), "");
    assert_eq!(describe_context(&Some("abc".to_string())), "\n\nTerminal content:\nabc");
    let long: String = "x".repeat(10) + &"é".repeat(CONTEXT_CHARS);
    let expected = format!("\n\nTerminal content:\n{}", "é".repeat(CONTEXT_CHARS));
    assert_eq!(describe_context(&Some(long)), expected);
    let exact: String = "y".repeat(CONTEXT_CHARS);
    assert_eq!(
        describe_context(&Some(exact.clone())),
        format!("\n\nTerminal content:\n{}", exact)
    );
}

#[test]
fn context_limit_is_two_thousand() {
    assert_eq!(CONTEXT_CHARS, 2000);
    assert_eq!(TIMEOUT_SECS, 30);
    assert_eq!(POLL_MILLIS, 100);
}

#[test]
fn prompt_has_input_fields_and_context_in_place() {
    let f = pairs(&[("Ticket", "id"), ("Notes", "")]);
    let p = build_prompt("ABC-123 login bug", &f, &Some("$ cargo test".to_string()));
    let expected = "You are a simple JSON generator. Do NOT use any tools, search, or external lookups.\n\nThe user has provided this input:\n---\nABC-123 login bug\n---\n\nMatch this input to the following fields. The input might be:\n- A value that belongs in one of the fields (put it there)\n- Contains multiple pieces of info (extract and place in appropriate fields)\n- A ticket ID like \"ABC-123\" (put in ticket/ID fields)\n- A description or details (put in description fields)\n\nFields to fill:\n1. Ticket (id)\n2. Notes\n\n\nTerminal content:\n$ cargo test\nRespond with ONLY a JSON array of strings, one value per field in order. Use empty string \"\" for fields that don't match. Example: [\"value1\", \"\", \"value3\"]";
    assert_eq!(p, expected);
}

#[test]
fn prompt_without_pane_has_no_terminal_section() {
    let p = build_prompt("x", &pairs(&[("A", "")]), &None);
    assert!(!p.contains("Terminal content"));
    assert!(p.contains("Fields to fill:\n1. A\n\nRespond with ONLY"));
}

#[test]
fn wait_goes_on_until_the_time_is_up() {
    assert_eq!(wait_step(true, 0), WaitStep::Finished);
    assert_eq!(wait_step(true, 99_000_000_000), WaitStep::Finished);
    assert_eq!(wait_step(false, 0), WaitStep::Sleep);
    assert_eq!(wait_step(false, 30_000_000_000), WaitStep::Sleep);
    assert_eq!(wait_step(false, 30_000_000_001), WaitStep::GiveUp);
}

fn ok(r: Result<Vec<String>, AiError>) -> Vec<String> {
    match r {
        Ok(v) => v,
        Err(e) => panic!("unexpected error: {:?}", e),
    }
}

#[test]
fn response_with_array_gives_values() {
    let out = r#"{"type":"result","result":"[\"ABC-123\", \"\", \"fix login\"]"}"#;
    assert_eq!(ok(parse_response(out, 3)), strings(&["ABC-123", "", "fix login"]));
}

#[test]
fn response_is_fitted_to_the_field_count() {
    let short = r#"{"result":"[\"a\",\"b\"]"}"#;
    assert_eq!(ok(parse_response(short, 3)), strings(&["a", "b", ""]));
    let long = r#"{"result":"[\"a\",\"b\",\"c\",\"d\"]"}"#;
    assert_eq!(ok(parse_response(long, 3)), strings(&["a", "b", "c"]));
}

#[test]
fn response_text_is_trimmed_before_it_is_read() {
    let out = "{\"result\":\"\\n  [\\\"a\\\"]  \\n\"}";
    assert_eq!(ok(parse_response(out, 1)), strings(&["a"]));
    assert_eq!(ok(values_from_result("\u{a0}[\"a\"]\u{3000}", 1)), strings(&["a"]));
}

#[test]
fn output_that_is_no_json_is_refused() {
    assert!(matches!(parse_response("not json", 2), Err(AiError::OutputNotJson)));
    assert!(matches!(parse_response("", 2), Err(AiError::OutputNotJson)));
}

#[test]
fn output_without_result_text_is_refused() {
    assert!(matches!(parse_response("{}", 2), Err(AiError::NoResult)));
    assert!(matches!(parse_response(r#"{"result": 5}"#, 2), Err(AiError::NoResult)));
    assert!(matches!(parse_response(r#"{"result": null}"#, 2), Err(AiError::NoResult)));
    assert!(matches!(parse_response("[1,2]", 2), Err(AiError::NoResult)));
    assert!(matches!(parse_response("\"text\"", 2), Err(AiError::NoResult)));
}

#[test]
fn result_that_is_no_array_of_strings_is_refused() {
    assert!(matches!(
        parse_response(r#"{"result":"here you go"}"#, 2),
        Err(AiError::ResponseNotArray)
    ));
    assert!(matches!(
        parse_response(r#"{"result":"{\"a\":1}"}"#, 2),
        Err(AiError::ResponseNotArray)
    ));
    assert!(matches!(parse_response(r#"{"result":"[1, 2]"}"#, 2), Err(AiError::ResponseNotArray)));
    assert!(matches!(values_from_result("", 2), Err(AiError::ResponseNotArray)));
}

#[test]
fn values_from_array_decides_on_the_array() {
    assert!(matches!(values_from_array(None, 3), Err(AiError::ResponseNotArray)));
    assert_eq!(ok(values_from_array(Some(strings(&["a", "b"])), 3)), strings(&["a", "b", ""]));
    assert_eq!(
        ok(values_from_array(Some(strings(&["a", "b", "c", "d"])), 3)),
        strings(&["a", "b", "c"])
    );
}

#[test]
fn error_messages_name_the_command() {
    assert_eq!(AiError::Spawn("no such file".to_string()).message("helper"), "Failed to run helper: no such file");
    assert_eq!(AiError::TimedOut.message("helper"), "helper command timed out");
    assert_eq!(AiError::Wait("gone".to_string()).message("helper"), "Error waiting for helper: gone");
    assert_eq!(AiError::Unsuccessful.message("helper"), "helper ended without success");
    assert_eq!(AiError::OutputNotJson.message("helper"), "Failed to parse helper output as JSON");
    assert_eq!(AiError::NoResult.message("helper"), "No result in helper output");
    assert_eq!(
        AiError::ResponseNotArray.message("helper"),
        "Failed to parse AI response as JSON array"
    );
}

#[test]
fn assistant_is_asked_for_json_in_one_turn() {
    assert_eq!(
        assistant_args("the prompt"),
        vec!["-p", "the prompt", "--output-format", "json", "--model", "haiku", "--max-turns", "1"]
    );
}

#[test]
fn values_from_member_decides_on_what_was_found() {
    assert!(matches!(values_from_member(None, 2), Err(AiError::OutputNotJson)));
    assert!(matches!(values_from_member(Some(None), 2), Err(AiError::NoResult)));
    assert!(matches!(
        values_from_member(Some(Some("no array".to_string())), 2),
        Err(AiError::ResponseNotArray)
    ));
    assert_eq!(
        ok(values_from_member(Some(Some(" [\"x\"] ".to_string())), 2)),
        strings(&["x", ""])
    );
}

#[test]
fn a_run_that_ended_without_success_gives_no_values() {
    let readable = r#"{"result":"[\"a\",\"b\"]"}"#;
    assert!(matches!(response_of_run(false, readable, 2), Err(AiError::Unsuccessful)));
    assert!(matches!(response_of_run(false, "", 2), Err(AiError::Unsuccessful)));
    assert!(matches!(response_of_run(false, "not json", 0), Err(AiError::Unsuccessful)));
}

#[test]
fn a_run_that_ended_with_success_is_read() {
    let readable = r#"{"result":"[\"a\",\"b\"]"}"#;
    assert_eq!(ok(response_of_run(true, readable, 3)), strings(&["a", "b", ""]));
    assert!(matches!(response_of_run(true, "not json", 2), Err(AiError::OutputNotJson)));
    assert!(matches!(response_of_run(true, "{}", 2), Err(AiError::NoResult)));
    assert!(matches!(
        response_of_run(true, r#"{"result":"{}"}"#, 2),
        Err(AiError::ResponseNotArray)
    ));
    assert!(matches!(
        response_of_run(true, r#"{"result":"[1]"}"#, 2),
        Err(AiError::ResponseNotArray)
    ));
}
