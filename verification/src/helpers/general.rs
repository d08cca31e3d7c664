use vstd::prelude::*;
use crate::models::base_agent::{Message, MessageView};

verus! {

/// The instruction that turns the model into a "function printer": it is
/// shown the text of a function and the input, and must answer with what the
/// function would return.
pub open spec fn function_printer_text(ai_func_str: Seq<char>, func_input: Seq<char>) -> Seq<char> {
    "FUNCTION: "@ + ai_func_str
        + "\n        INSTRUCTION: You are a function printer. You ONLY print the results of functions.\n        Nothing else. No commentary. Here is the input to the function: "@
        + func_input
        + ".\n        Print out what the function will return."@
}

/// The function printer's message holds the function text and the whole
/// input, each as one contiguous part at a fixed place: after "FUNCTION: "
/// comes the function text, then the instruction, then the input, then the
/// closing sentence; its length is the sum of those parts.
pub proof fn lemma_function_printer_text_parts(ai_func_str: Seq<char>, func_input: Seq<char>)
    ensures
        ({
            let text = function_printer_text(ai_func_str, func_input);
            let head = "FUNCTION: "@;
            let instruction = "\n        INSTRUCTION: You are a function printer. You ONLY print the results of functions.\n        Nothing else. No commentary. Here is the input to the function: "@;
            let closing = ".\n        Print out what the function will return."@;
            let f: int = head.len() as int + ai_func_str.len() as int;
            let at: int = f + instruction.len() as int;
            let end: int = at + func_input.len() as int;
            &&& text.len() == end + closing.len() as int
            &&& text.subrange(0, head.len() as int) == head
            &&& text.subrange(head.len() as int, f) == ai_func_str
            &&& text.subrange(f, at) == instruction
            &&& text.subrange(at, end) == func_input
            &&& text.subrange(end, text.len() as int) == closing
        }),
{
    let text = function_printer_text(ai_func_str, func_input);
    let head = "FUNCTION: "@;
    let instruction = "\n        INSTRUCTION: You are a function printer. You ONLY print the results of functions.\n        Nothing else. No commentary. Here is the input to the function: "@;
    let closing = ".\n        Print out what the function will return."@;
    let f: int = head.len() as int + ai_func_str.len() as int;
    let at: int = f + instruction.len() as int;
    let end: int = at + func_input.len() as int;
    assert(text =~= head + ai_func_str + instruction + func_input + closing);
    assert(text.subrange(0, head.len() as int) =~= head);
    assert(text.subrange(head.len() as int, f) =~= ai_func_str);
    assert(text.subrange(f, at) =~= instruction);
    assert(text.subrange(at, end) =~= func_input);
    assert(text.subrange(end, text.len() as int) =~= closing);
}

/// The system message that asks the model to print the result of the
/// function whose text is `ai_func_str` applied to `func_input`: the
/// function text and the whole input, between the fixed sentences of the
/// instruction.
pub fn function_printer_message(ai_func_str: &str, func_input: &str) -> (msg: Message)
    ensures
        msg@ == (MessageView {
            role: "system"@,
            content: function_printer_text(ai_func_str@, func_input@),
        }),
        msg@.role == "system"@,
        msg@.content == "FUNCTION: "@ + ai_func_str@
            + "\n        INSTRUCTION: You are a function printer. You ONLY print the results of functions.\n        Nothing else. No commentary. Here is the input to the function: "@
            + func_input@ + ".\n        Print out what the function will return."@,
{
    let mut content = String::from_str("FUNCTION: ");
    content.append(ai_func_str);
    content.append(
        "\n        INSTRUCTION: You are a function printer. You ONLY print the results of functions.\n        Nothing else. No commentary. Here is the input to the function: ",
    );
    content.append(func_input);
    content.append(".\n        Print out what the function will return.");
    Message { role: String::from_str("system"), content }
}

/// Extends the text of an AI function (what `ai_func` returns for
/// `func_input`) into the system message sent to the model.
pub fn extend_ai_function<F: Fn(&str) -> &'static str>(ai_func: F, func_input: &str) -> (msg: Message)
    requires
        call_requires(ai_func, (func_input,)),
    ensures
        exists|ai_func_str: &'static str|
            call_ensures(ai_func, (func_input,), ai_func_str) && msg@ == (MessageView {
                role: "system"@,
                content: function_printer_text(ai_func_str@, func_input@),
            }),
        exists|ai_func_str: &'static str|
            call_ensures(ai_func, (func_input,), ai_func_str) && msg@.content == "FUNCTION: "@
                + ai_func_str@
                + "\n        INSTRUCTION: You are a function printer. You ONLY print the results of functions.\n        Nothing else. No commentary. Here is the input to the function: "@
                + func_input@ + ".\n        Print out what the function will return."@,
        msg@.role == "system"@,
{
    let ai_func_str = ai_func(func_input);
    function_printer_message(ai_func_str, func_input)
}

/// Which call to the model a reply answers: the first one, or the single
/// retry made after the first one failed.
#[derive(PartialEq, Eq, Structural, Clone, Copy, Debug)]
pub enum LlmAttempt {
    First,
    Retry,
}

/// What to do once a call to the model has come back.
pub enum LlmStep {
    /// The call succeeded: this is the model's answer.
    Answer(String),
    /// The first call failed: send the same message once more.
    CallAgain,
    /// The retry failed too: the request is given up.
    GiveUp,
}

/// Decides what follows a reply of the model (`None` when the call failed).
/// A failed first call is retried once; a failed retry is given up, so a
/// request never costs more than two calls.
pub fn settle_llm_reply(attempt: LlmAttempt, reply: Option<String>) -> (step: LlmStep)
    ensures
        match reply {
            Some(answer) => step matches LlmStep::Answer(a) && a@ == answer@,
            None => match attempt {
                LlmAttempt::First => step is CallAgain,
                LlmAttempt::Retry => step is GiveUp,
            },
        },
{
    match reply {
        Some(answer) => LlmStep::Answer(answer),
        None => match attempt {
            LlmAttempt::First => LlmStep::CallAgain,
            LlmAttempt::Retry => LlmStep::GiveUp,
        },
    }
}

/// The value of the `authorization` header sent to the model's API.
pub fn authorization_value(api_key: &str) -> (value: String)
    ensures
        value@ == "Bearer "@ + api_key@,
{
    let mut value = String::from_str("Bearer ");
    value.append(api_key);
    value
}

/// What `serde_json::from_str::<Vec<String>>` makes of a text: the list of
/// strings it holds when it is a JSON array of strings, `None` otherwise.
pub uninterp spec fn json_string_list(text: Seq<char>) -> Option<Seq<Seq<char>>>;

/// Calls `serde_json::from_str::<Vec<String>>`; a decoding error becomes
/// `None`. The contract claims only that the result is the named value
/// `json_string_list` of the text.
#[verifier::external_body]
fn parse_json_string_list(text: &str) -> (list: Option<Vec<String>>)
    ensures
        list.deep_view() == json_string_list(text@),
{
    serde_json::from_str::<Vec<String>>(text).ok()
}

/// Decodes the model's answer when it should be a JSON list of strings
/// (such as the external URLs a project needs); `None` when it is not.
pub fn decode_string_list(reply: &str) -> (list: Option<Vec<String>>)
    ensures
        list.deep_view() == json_string_list(reply@),
{
    parse_json_string_list(reply)
}

} // verus!
