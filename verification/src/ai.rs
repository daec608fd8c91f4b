//! Filling fields with the help of an assistant: the request that is sent
//! and the reading of what comes back.

use crate::db::opt_text;
use crate::text::{
    chars_of, decimal_u64, int_decimal, push_text, string_of, string_of_range, trim, trimmed,
};
use vstd::prelude::*;
use vstd::string::*;

verus! {

/// How many characters of a pane's text go into the request, at most.
pub const CONTEXT_CHARS: usize = 2000;

/// After how many seconds the assistant is given up on.
pub const TIMEOUT_SECS: u64 = 30;

/// How long to sleep between two looks at the assistant, in milliseconds.
pub const POLL_MILLIS: u64 = 100;

/// The request before the user's input.
pub const PROMPT_HEAD: &'static str =
    "You are a simple JSON generator. Do NOT use any tools, search, or external lookups.\n\nThe user has provided this input:\n---\n";

/// The request between the user's input and the fields.
pub const PROMPT_MIDDLE: &'static str =
    "\n---\n\nMatch this input to the following fields. The input might be:\n- A value that belongs in one of the fields (put it there)\n- Contains multiple pieces of info (extract and place in appropriate fields)\n- A ticket ID like \"ABC-123\" (put in ticket/ID fields)\n- A description or details (put in description fields)\n\nFields to fill:\n";

/// The request after the fields and the terminal's text.
pub const PROMPT_TAIL: &'static str =
    "\nRespond with ONLY a JSON array of strings, one value per field in order. Use empty string \"\" for fields that don't match. Example: [\"value1\", \"\", \"value3\"]";

/// The heading above the terminal's text in the request.
pub const CONTEXT_HEADING: &'static str = "\n\nTerminal content:\n";

/// The line that describes field number `i` (from 0): its number from 1, its
/// name and, where there is one, its description in parentheses.
pub open spec fn field_line(i: int, name: Seq<char>, description: Seq<char>) -> Seq<char> {
    let head = int_decimal(i + 1) + ". "@ + name;
    if description.len() == 0 {
        head
    } else {
        head + " ("@ + description + ")"@
    }
}

/// The lines of the first `n` fields, with a line feed between two lines.
pub open spec fn fields_text(fields: Seq<(String, String)>, n: int) -> Seq<char>
    decreases n,
{
    if n <= 0 {
        Seq::empty()
    } else if n == 1 {
        field_line(0, fields[0].0@, fields[0].1@)
    } else {
        fields_text(fields, n - 1) + "\n"@ + field_line(n - 1, fields[n - 1].0@, fields[n - 1].1@)
    }
}

/// The last `n` characters of a text, or all of it if it has fewer.
pub open spec fn last_chars(s: Seq<char>, n: int) -> Seq<char> {
    if s.len() > n {
        s.subrange(s.len() - n, s.len() as int)
    } else {
        s
    }
}

/// What the request says of the terminal: nothing without a pane's text,
/// else a heading and the last characters of the text.
pub open spec fn context_text(pane: Option<String>) -> Seq<char> {
    match pane {
        Some(content) => CONTEXT_HEADING@ + last_chars(content@, CONTEXT_CHARS as int),
        None => Seq::empty(),
    }
}

/// The whole request: the input, the fields and the terminal's text in
/// their places.
pub open spec fn prompt_text(
    input: Seq<char>,
    fields: Seq<(String, String)>,
    pane: Option<String>,
) -> Seq<char> {
    PROMPT_HEAD@ + input + PROMPT_MIDDLE@ + fields_text(fields, fields.len() as int) + "\n"@
        + context_text(pane) + PROMPT_TAIL@
}

/// Describes the fields, one per line: `1. name` or `1. name (description)`.
pub fn describe_fields(fields: &Vec<(String, String)>) -> (r: String)
    ensures
        r@ == fields_text(fields@, fields.len() as int),
{
    let mut out = String::new();
    let mut i: usize = 0;
    while i < fields.len()
        invariant
            i <= fields.len(),
            out@ == fields_text(fields@, i as int),
        decreases fields.len() - i,
    {
        if i > 0 {
            out.append("\n");
        }
        let number = decimal_u64((i + 1) as u64);
        out.append(number.as_str());
        out.append(". ");
        out.append(fields[i].0.as_str());
        if !fields[i].1.as_str().is_empty() {
            out.append(" (");
            out.append(fields[i].1.as_str());
            out.append(")");
        }
        assert(out@ =~= fields_text(fields@, i + 1));
        i += 1;
    }
    out
}

/// What the request says of the terminal.
pub fn describe_context(pane: &Option<String>) -> (r: String)
    ensures
        r@ == context_text(*pane),
{
    match pane {
        Some(content) => {
            let chars = chars_of(content.as_str());
            let mut out = String::from_str(CONTEXT_HEADING);
            if chars.len() > CONTEXT_CHARS {
                let tail = string_of_range(&chars, chars.len() - CONTEXT_CHARS, chars.len());
                out.append(tail.as_str());
            } else {
                out.append(content.as_str());
            }
            out
        },
        None => String::new(),
    }
}

/// The request sent to the assistant for an input, the fields to fill and,
/// where there is one, the text of the session's pane.
pub fn build_prompt(input: &str, fields: &Vec<(String, String)>, pane: &Option<String>) -> (r:
    String)
    ensures
        r@ == prompt_text(input@, fields@, *pane),
{
    let mut out = String::from_str(PROMPT_HEAD);
    out.append(input);
    out.append(PROMPT_MIDDLE);
    let described = describe_fields(fields);
    out.append(described.as_str());
    out.append("\n");
    let context = describe_context(pane);
    out.append(context.as_str());
    out.append(PROMPT_TAIL);
    out
}

/// What to do next while waiting for the assistant.
#[derive(Debug, Clone, Copy, PartialEq, Eq, Structural)]
pub enum WaitStep {
    /// It has ended: read what it printed.
    Finished,
    /// It still runs: sleep for `POLL_MILLIS` and look again.
    Sleep,
    /// It still runs after more than `TIMEOUT_SECS`: end it and report
    /// `AiError::TimedOut`.
    GiveUp,
}

/// Decides the next step of the wait from whether the assistant has ended
/// and from the time since it was started, in nanoseconds.
pub fn wait_step(ended: bool, elapsed_nanos: u128) -> (r: WaitStep)
    ensures
        r == if ended {
            WaitStep::Finished
        } else if elapsed_nanos > TIMEOUT_SECS * 1_000_000_000 {
            WaitStep::GiveUp
        } else {
            WaitStep::Sleep
        },
{
    if ended {
        WaitStep::Finished
    } else if elapsed_nanos > 30_000_000_000u128 {
        WaitStep::GiveUp
    } else {
        WaitStep::Sleep
    }
}

/// Why no values came back from the assistant.
#[derive(Debug, Clone)]
pub enum AiError {
    /// The assistant could not be started; holds the reason.
    Spawn(String),
    /// The assistant did not end in time.
    TimedOut,
    /// Waiting for the assistant failed; holds the reason.
    Wait(String),
    /// The assistant ended without success.
    Unsuccessful,
    /// What the assistant printed is no JSON.
    OutputNotJson,
    /// What the assistant printed holds no text under `result`.
    NoResult,
    /// The text under `result` is no JSON array of strings.
    ResponseNotArray,
}

/// The kind of an `AiError`, without the reason it may hold.
#[derive(Debug, Clone, Copy, PartialEq, Eq, Structural)]
pub enum AiErrorKind {
    Spawn,
    TimedOut,
    Wait,
    Unsuccessful,
    OutputNotJson,
    NoResult,
    ResponseNotArray,
}

impl AiError {
    /// The kind of the error.
    pub open spec fn kind(self) -> AiErrorKind {
        match self {
            AiError::Spawn(_) => AiErrorKind::Spawn,
            AiError::TimedOut => AiErrorKind::TimedOut,
            AiError::Wait(_) => AiErrorKind::Wait,
            AiError::Unsuccessful => AiErrorKind::Unsuccessful,
            AiError::OutputNotJson => AiErrorKind::OutputNotJson,
            AiError::NoResult => AiErrorKind::NoResult,
            AiError::ResponseNotArray => AiErrorKind::ResponseNotArray,
        }
    }

    /// The message shown for the error, where `command` is the name of the
    /// assistant's command.
    pub open spec fn message_text(self, command: Seq<char>) -> Seq<char> {
        match self {
            AiError::Spawn(e) => "Failed to run "@ + command + ": "@ + e@,
            AiError::TimedOut => command + " command timed out"@,
            AiError::Wait(e) => "Error waiting for "@ + command + ": "@ + e@,
            AiError::Unsuccessful => command + " ended without success"@,
            AiError::OutputNotJson => "Failed to parse "@ + command + " output as JSON"@,
            AiError::NoResult => "No result in "@ + command + " output"@,
            AiError::ResponseNotArray => "Failed to parse AI response as JSON array"@,
        }
    }

    /// The message shown for the error, where `command` is the name of the
    /// assistant's command.
    pub fn message(&self, command: &str) -> (r: String)
        ensures
            r@ == self.message_text(command@),
    {
        match self {
            AiError::Spawn(e) => {
                let mut r = String::from_str("Failed to run ");
                r.append(command);
                r.append(": ");
                r.append(e.as_str());
                r
            },
            AiError::TimedOut => {
                let mut r = String::from_str(command);
                r.append(" command timed out");
                r
            },
            AiError::Wait(e) => {
                let mut r = String::from_str("Error waiting for ");
                r.append(command);
                r.append(": ");
                r.append(e.as_str());
                r
            },
            AiError::Unsuccessful => {
                let mut r = String::from_str(command);
                r.append(" ended without success");
                r
            },
            AiError::OutputNotJson => {
                let mut r = String::from_str("Failed to parse ");
                r.append(command);
                r.append(" output as JSON");
                r
            },
            AiError::NoResult => {
                let mut r = String::from_str("No result in ");
                r.append(command);
                r.append(" output");
                r
            },
            AiError::ResponseNotArray => String::from_str(
                "Failed to parse AI response as JSON array",
            ),
        }
    }
}

/// The values cut or filled up with empty texts to exactly `n`.
pub open spec fn fitted(values: Seq<Seq<char>>, n: int) -> Seq<Seq<char>> {
    Seq::new(
        n as nat,
        |i: int|
            if i < values.len() {
                values[i]
            } else {
                Seq::empty()
            },
    )
}

/// Cuts the values, or fills them up with empty texts, to exactly `n`.
pub fn fit_values(values: Vec<String>, n: usize) -> (r: Vec<String>)
    ensures
        r.deep_view() == fitted(values.deep_view(), n as int),
        r.len() == n,
{
    let mut out = values;
    let ghost given = out.deep_view();
    if out.len() > n {
        out.truncate(n);
    }
    assert(out.deep_view() =~= fitted(given, out.len() as int));
    while out.len() < n
        invariant
            out.len() <= n,
            given.len() <= out.len() || out.len() >= n,
            out.deep_view() == fitted(given, out.len() as int),
        decreases n - out.len(),
    {
        let ghost before = out.deep_view();
        out.push(String::new());
        assert(out.deep_view() =~= before.push(Seq::empty()));
        assert(out.deep_view() =~= fitted(given, out.len() as int));
    }
    out
}

/// `serde_json::Error`: why a text could not be read as JSON.
#[verifier::external_type_specification]
#[verifier::external_body]
pub struct ExJsonError(serde_json::Error);

/// Name for what `serde_json` finds under a key of a JSON text: `None` if
/// the text is no JSON; `Some(None)` if it is JSON but no object that holds
/// a string under the key; else the string.
pub uninterp spec fn json_member_text(text: Seq<char>, key: Seq<char>) -> Option<Option<Seq<char>>>;

/// `serde_json::from_str` at `serde_json::Value`, then the value indexed by
/// the key and `Value::as_str`: the string under a key of a JSON text. The
/// result depends on the text and the key alone.
#[verifier::external_body]
fn member_text(text: &str, key: &str) -> (r: Result<Option<String>, serde_json::Error>)
    ensures
        match r {
            Ok(found) => json_member_text(text@, key@) == Some(opt_text(found)),
            Err(_) => json_member_text(text@, key@) is None,
        },
{
    let value: serde_json::Value = serde_json::from_str(text)?;
    Ok(value[key].as_str().map(|s| s.to_owned()))
}

/// Name for the result of `serde_json::from_str` at `Vec<String>`: the
/// strings of the JSON array that the text holds, or `None` if the text is
/// no JSON array of strings.
pub uninterp spec fn json_string_array(text: Seq<char>) -> Option<Seq<Seq<char>>>;

/// `serde_json::from_str` at `Vec<String>`: the result depends on the text
/// alone.
#[verifier::external_body]
fn json_strings(text: &str) -> (r: Result<Vec<String>, serde_json::Error>)
    ensures
        match r {
            Ok(v) => json_string_array(text@) == Some(v.deep_view()),
            Err(_) => json_string_array(text@) is None,
        },
{
    serde_json::from_str::<Vec<String>>(text)
}

/// What becomes of the array read from the assistant's answer, for `n`
/// fields: without an array the answer is refused, else the values are cut
/// or filled up to `n`.
pub fn values_from_array(array: Option<Vec<String>>, n: usize) -> (r: Result<Vec<String>, AiError>)
    ensures
        match array {
            Some(a) => r is Ok && r->Ok_0.deep_view() == fitted(a.deep_view(), n as int),
            None => r is Err && r->Err_0 is ResponseNotArray,
        },
{
    match array {
        Some(a) => Ok(fit_values(a, n)),
        None => Err(AiError::ResponseNotArray),
    }
}

/// The values for `n` fields in the text that the assistant gave as its
/// result: the text without the whitespace around it is read as a JSON array
/// of strings, which is cut or filled up to `n`.
pub fn values_from_result(text: &str, n: usize) -> (r: Result<Vec<String>, AiError>)
    ensures
        match json_string_array(trimmed(text@)) {
            Some(a) => r is Ok && r->Ok_0.deep_view() == fitted(a, n as int),
            None => r is Err && r->Err_0 is ResponseNotArray,
        },
{
    let chars = chars_of(text);
    let t = trim(&chars);
    let inner = string_of(&t);
    let array = match json_strings(inner.as_str()) {
        Ok(a) => Some(a),
        Err(_) => None,
    };
    values_from_array(array, n)
}

/// What becomes of the text found under `result` in what the assistant
/// printed.
pub open spec fn response_of(found: Option<Option<Seq<char>>>, n: int) -> Result<
    Seq<Seq<char>>,
    AiErrorKind,
> {
    match found {
        None => Err(AiErrorKind::OutputNotJson),
        Some(None) => Err(AiErrorKind::NoResult),
        Some(Some(text)) => match json_string_array(trimmed(text)) {
            Some(a) => Ok(fitted(a, n)),
            None => Err(AiErrorKind::ResponseNotArray),
        },
    }
}

/// View of what was found under `result`.
pub open spec fn member_view(found: Option<Option<String>>) -> Option<Option<Seq<char>>> {
    match found {
        Some(t) => Some(opt_text(t)),
        None => None,
    }
}

/// View of the values or the kind of the error.
pub open spec fn outcome_view(r: Result<Vec<String>, AiError>) -> Result<
    Seq<Seq<char>>,
    AiErrorKind,
> {
    match r {
        Ok(values) => Ok(values.deep_view()),
        Err(e) => Err(e.kind()),
    }
}

/// The values for `n` fields, given what was found under `result` in what
/// the assistant printed: `None` where that was no JSON, `Some(None)` where
/// it held no text under `result`, else the text.
pub fn values_from_member(found: Option<Option<String>>, n: usize) -> (r: Result<
    Vec<String>,
    AiError,
>)
    ensures
        outcome_view(r) == response_of(member_view(found), n as int),
        r is Ok ==> r->Ok_0.len() == n,
{
    match found {
        None => Err(AiError::OutputNotJson),
        Some(None) => Err(AiError::NoResult),
        Some(Some(text)) => {
            let r = values_from_result(text.as_str(), n);
            proof {
                if r is Ok {
                    assert(r->Ok_0.deep_view().len() == n);
                }
            }
            r
        },
    }
}

/// The values for `n` fields in what the assistant printed: a JSON value
/// whose member `result` is a text that holds a JSON array of strings.
/// Values that come back are exactly `n`: the array cut or filled up with
/// empty texts.
pub fn parse_response(output: &str, n: usize) -> (r: Result<Vec<String>, AiError>)
    ensures
        outcome_view(r) == response_of(json_member_text(output@, "result"@), n as int),
        r is Ok ==> r->Ok_0.len() == n,
{
    let found = match member_text(output, "result") {
        Ok(t) => Some(t),
        Err(_) => None,
    };
    values_from_member(found, n)
}

/// What a run of the assistant that has ended comes to: an error where it
/// ended without success, whatever it printed; else what its output holds.
pub open spec fn run_response_of(success: bool, found: Option<Option<Seq<char>>>, n: int) -> Result<
    Seq<Seq<char>>,
    AiErrorKind,
> {
    if success {
        response_of(found, n)
    } else {
        Err(AiErrorKind::Unsuccessful)
    }
}

/// The values for `n` fields from a run of the assistant that has ended,
/// given whether it ended with success and what it printed. A run that ended
/// without success gives no values, whatever it printed; of a run that
/// ended with success the output is read as by `parse_response`. Either all
/// `n` values come back or an error does.
pub fn response_of_run(success: bool, output: &str, n: usize) -> (r: Result<Vec<String>, AiError>)
    ensures
        outcome_view(r) == run_response_of(
            success,
            json_member_text(output@, "result"@),
            n as int,
        ),
        !success ==> r is Err && r->Err_0 is Unsuccessful,
        success ==> outcome_view(r) == response_of(json_member_text(output@, "result"@), n as int),
        r is Ok ==> r->Ok_0.len() == n,
{
    if !success {
        return Err(AiError::Unsuccessful);
    }
    parse_response(output, n)
}

/// Arguments that make the assistant answer one request in JSON, with its
/// small model and in one turn.
pub fn assistant_args(prompt: &str) -> (r: Vec<String>)
    ensures
        r.deep_view() == seq![
            "-p"@,
            prompt@,
            "--output-format"@,
            "json"@,
            "--model"@,
            "haiku"@,
            "--max-turns"@,
            "1"@,
        ],
{
    let mut v: Vec<String> = Vec::new();
    push_text(&mut v, "-p");
    push_text(&mut v, prompt);
    push_text(&mut v, "--output-format");
    push_text(&mut v, "json");
    push_text(&mut v, "--model");
    push_text(&mut v, "haiku");
    push_text(&mut v, "--max-turns");
    push_text(&mut v, "1");
    assert(v.deep_view() =~= seq![
        "-p"@,
        prompt@,
        "--output-format"@,
        "json"@,
        "--model"@,
        "haiku"@,
        "--max-turns"@,
        "1"@,
    ]);
    v
}

} // verus!
