use vstd::prelude::*;

verus! {

/// The kinds of message an agent prints on the terminal.
#[derive(PartialEq, Eq, Structural, Clone, Copy, Debug)]
pub enum PrintCommand {
    AICall,
    UnitTest,
    Issue,
}

/// The terminal colours the agents' messages use.
#[derive(PartialEq, Eq, Structural, Clone, Copy, Debug)]
pub enum TextColor {
    Green,
    Cyan,
    Magenta,
    Red,
    Blue,
}

/// The colour in which a statement of the given kind is printed
/// (the agent's position is always printed in green).
pub open spec fn statement_color_of(command: PrintCommand) -> TextColor {
    match command {
        PrintCommand::AICall => TextColor::Cyan,
        PrintCommand::UnitTest => TextColor::Magenta,
        PrintCommand::Issue => TextColor::Red,
    }
}

impl PrintCommand {
    /// The colour of the statement part of an agent message of this kind.
    pub fn statement_color(&self) -> (color: TextColor)
        ensures
            color == statement_color_of(*self),
            *self == PrintCommand::AICall ==> color == TextColor::Cyan,
            *self == PrintCommand::UnitTest ==> color == TextColor::Magenta,
            *self == PrintCommand::Issue ==> color == TextColor::Red,
    {
        match self {
            PrintCommand::AICall => TextColor::Cyan,
            PrintCommand::UnitTest => TextColor::Magenta,
            PrintCommand::Issue => TextColor::Red,
        }
    }
}

/// Whether `c` has the Unicode `White_Space` property, the white space that
/// `str::trim` removes.
pub open spec fn is_white_space(c: char) -> bool {
    let n = c as u32;
    ||| 0x9 <= n <= 0xD
    ||| n == 0x20
    ||| n == 0x85
    ||| n == 0xA0
    ||| n == 0x1680
    ||| 0x2000 <= n <= 0x200A
    ||| n == 0x2028
    ||| n == 0x2029
    ||| n == 0x202F
    ||| n == 0x205F
    ||| n == 0x3000
}

/// `s` without its leading white space.
pub open spec fn trim_start_white_space(s: Seq<char>) -> Seq<char>
    decreases s.len(),
{
    if s.len() > 0 && is_white_space(s[0]) {
        trim_start_white_space(s.drop_first())
    } else {
        s
    }
}

/// `s` without its trailing white space.
pub open spec fn trim_end_white_space(s: Seq<char>) -> Seq<char>
    decreases s.len(),
{
    if s.len() > 0 && is_white_space(s.last()) {
        trim_end_white_space(s.drop_last())
    } else {
        s
    }
}

/// `s` without its leading and trailing white space, as `str::trim`
/// returns it.
pub open spec fn trim_white_space(s: Seq<char>) -> Seq<char> {
    trim_end_white_space(trim_start_white_space(s))
}

/// What `str::to_lowercase` returns for a string: its Unicode lowercase
/// mapping (independent of any locale).
pub uninterp spec fn unicode_lowercase(s: Seq<char>) -> Seq<char>;

/// Calls `str::trim`. The contract claims that the result is the argument
/// without its leading and trailing characters of the Unicode `White_Space`
/// property, as the documentation of `str::trim` defines it.
#[verifier::external_body]
fn trim_str(s: &str) -> (trimmed: &str)
    ensures
        trimmed@ == trim_white_space(s@),
{
    s.trim()
}

/// Calls `str::to_lowercase`. The contract claims only that the result is
/// the named value `unicode_lowercase` of the argument's characters.
#[verifier::external_body]
fn lowercase_str(s: &str) -> (lower: String)
    ensures
        lower@ == unicode_lowercase(s@),
{
    s.to_lowercase()
}

/// Equality of two string slices, by their characters.
pub fn str_equal(a: &str, b: &str) -> (eq: bool)
    ensures
        eq == (a@ == b@),
{
    String::from_str(a) == String::from_str(b)
}

/// A line typed by the user, without surrounding white space.
pub fn clean_input(raw: &str) -> (line: String)
    ensures
        line@ == trim_white_space(raw@),
{
    String::from_str(trim_str(raw))
}

/// The meaning of a normalised answer to the "run AI-written code?"
/// question: `Some(true)` to go on, `Some(false)` to stop, `None` when the
/// answer is not understood.
pub open spec fn confirmation_of(answer: Seq<char>) -> Option<bool> {
    if answer == "1"@ || answer == "go"@ || answer == "ok"@ || answer == "y"@ {
        Some(true)
    } else if answer == "2"@ || answer == "no go"@ || answer == "no"@ || answer == "n"@ {
        Some(false)
    } else {
        None
    }
}

/// The answers to go on are exactly "1", "go", "ok" and "y"; the answers
/// to stop are exactly "2", "no go", "no" and "n"; every other text is not
/// understood.
pub proof fn lemma_confirmation_answers(answer: Seq<char>)
    ensures
        confirmation_of(answer) == Some(true) <==> (answer == "1"@ || answer == "go"@ || answer
            == "ok"@ || answer == "y"@),
        confirmation_of(answer) == Some(false) <==> (answer == "2"@ || answer == "no go"@
            || answer == "no"@ || answer == "n"@),
        confirmation_of(answer) is None <==> !(answer == "1"@ || answer == "go"@ || answer
            == "ok"@ || answer == "y"@ || answer == "2"@ || answer == "no go"@ || answer == "no"@
            || answer == "n"@),
{
    reveal_strlit("1");
    reveal_strlit("go");
    reveal_strlit("ok");
    reveal_strlit("y");
    reveal_strlit("2");
    reveal_strlit("no go");
    reveal_strlit("no");
    reveal_strlit("n");
    assert("1"@.len() == 1 && "1"@[0] == '1');
    assert("go"@.len() == 2 && "go"@[0] == 'g');
    assert("ok"@.len() == 2 && "ok"@[0] == 'o');
    assert("y"@.len() == 1 && "y"@[0] == 'y');
    assert("2"@.len() == 1 && "2"@[0] == '2');
    assert("no go"@.len() == 5 && "no go"@[0] == 'n');
    assert("no"@.len() == 2 && "no"@[0] == 'n');
    assert("n"@.len() == 1 && "n"@[0] == 'n');
}

/// Classifies an answer that is already trimmed and lowercased: go on for
/// "1", "go", "ok" or "y", stop for "2", "no go", "no" or "n", and not
/// understood for anything else.
pub fn classify_confirmation(answer: &str) -> (decision: Option<bool>)
    ensures
        decision == confirmation_of(answer@),
        decision == Some(true) <==> (answer@ == "1"@ || answer@ == "go"@ || answer@ == "ok"@
            || answer@ == "y"@),
        decision == Some(false) <==> (answer@ == "2"@ || answer@ == "no go"@ || answer@
            == "no"@ || answer@ == "n"@),
        decision is None <==> !(answer@ == "1"@ || answer@ == "go"@ || answer@ == "ok"@
            || answer@ == "y"@ || answer@ == "2"@ || answer@ == "no go"@ || answer@ == "no"@
            || answer@ == "n"@),
{
    proof {
        lemma_confirmation_answers(answer@);
    }
    if str_equal(answer, "1") || str_equal(answer, "go") || str_equal(answer, "ok") || str_equal(
        answer,
        "y",
    ) {
        Some(true)
    } else if str_equal(answer, "2") || str_equal(answer, "no go") || str_equal(answer, "no")
        || str_equal(answer, "n") {
        Some(false)
    } else {
        None
    }
}

/// Reads the user's raw answer to the "run AI-written code?" question:
/// surrounding white space is ignored and letters are compared without
/// regard to case.
pub fn parse_confirmation(response: &str) -> (decision: Option<bool>)
    ensures
        decision == confirmation_of(unicode_lowercase(trim_white_space(response@))),
        ({
            let answer = unicode_lowercase(trim_white_space(response@));
            &&& decision == Some(true) <==> (answer == "1"@ || answer == "go"@ || answer == "ok"@
                || answer == "y"@)
            &&& decision == Some(false) <==> (answer == "2"@ || answer == "no go"@ || answer
                == "no"@ || answer == "n"@)
        }),
{
    proof {
        lemma_confirmation_answers(unicode_lowercase(trim_white_space(response@)));
    }
    let trimmed = trim_str(response);
    let lower = lowercase_str(trimmed);
    classify_confirmation(lower.as_str())
}

} // verus!
