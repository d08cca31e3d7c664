use auto_gippity::helpers::cli::{
    classify_confirmation, clean_input, parse_confirmation, str_equal, PrintCommand, TextColor,
};

#[test]
fn statement_colors() {
    assert_eq!(PrintCommand::AICall.statement_color(), TextColor::Cyan);
    assert_eq!(PrintCommand::UnitTest.statement_color(), TextColor::Magenta);
    assert_eq!(PrintCommand::Issue.statement_color(), TextColor::Red);
}

#[test]
fn go_answers() {
    for answer in ["1", "go", "ok", "y"] {
        assert_eq!(classify_confirmation(answer), Some(true));
    }
}

#[test]
fn no_go_answers() {
    for answer in ["2", "no go", "no", "n"] {
        assert_eq!(classify_confirmation(answer), Some(false));
    }
}

#[test]
fn other_answers_are_not_understood() {
    for answer in ["", "3", "yes", "GO", " go", "nope"] {
        assert_eq!(classify_confirmation(answer), None);
    }
}

#[test]
fn raw_answers_are_trimmed_and_lowercased() {
    assert_eq!(parse_confirmation("  GO \n"), Some(true));
    assert_eq!(parse_confirmation("Ok\r\n"), Some(true));
    assert_eq!(parse_confirmation("\tNo Go\n"), Some(false));
    assert_eq!(parse_confirmation("N\n"), Some(false));
    assert_eq!(parse_confirmation("maybe\n"), None);
}

#[test]
fn user_input_is_trimmed() {
    assert_eq!(clean_input("  build me a site \n"), "build me a site");
    assert_eq!(clean_input("\n"), "");
}

#[test]
fn string_equality() {
    assert!(str_equal("abc", "abc"));
    assert!(!str_equal("abc", "abd"));
    assert!(!str_equal("abc", "ab"));
}

#[test]
fn unicode_white_space_is_trimmed_too() {
    assert_eq!(clean_input("\u{3000}\u{85}x y\u{2028}\u{A0}"), "x y");
    assert_eq!(clean_input("\u{200B}x\u{200B}"), "\u{200B}x\u{200B}");
    assert_eq!(clean_input("\u{1680}\u{2000}\u{200A}\u{202F}\u{205F}\u{2029}z\u{B}\u{C}\r"), "z");
}
