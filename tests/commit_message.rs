use cargo_push::commit_type::ConventionalCommitType;
use cargo_push::ticket::strip_leading_separators;
use cargo_push::{format_commit_message, infer_commit_type, infer_ticket_name};

fn ticket_of(message: &str) -> (String, Option<String>) {
    infer_ticket_name(message.to_string())
}

#[test]
fn keywords_parse_to_their_types() {
    assert_eq!(ConventionalCommitType::parse("fix"), ConventionalCommitType::Fix);
    assert_eq!(ConventionalCommitType::parse("breaking"), ConventionalCommitType::Breaking);
    assert_eq!(ConventionalCommitType::parse("chore"), ConventionalCommitType::Chore);
    assert_eq!(ConventionalCommitType::parse("ci"), ConventionalCommitType::ContinuousIntegration);
    assert_eq!(ConventionalCommitType::parse("docs"), ConventionalCommitType::Docs);
    assert_eq!(ConventionalCommitType::parse("refactor"), ConventionalCommitType::Refactor);
    assert_eq!(ConventionalCommitType::parse("test"), ConventionalCommitType::Test);
}

#[test]
fn other_strings_parse_to_feature() {
    for s in ["", "feat", "feature", "Fix", "fix ", "tests", "c", "docs\n", "refactoring"] {
        assert_eq!(ConventionalCommitType::parse(s), ConventionalCommitType::Feature, "{:?}", s);
    }
}

#[test]
fn from_str_never_fails() {
    assert_eq!("ci".parse::<ConventionalCommitType>(), Ok(ConventionalCommitType::ContinuousIntegration));
    assert_eq!("whatever".parse::<ConventionalCommitType>(), Ok(ConventionalCommitType::Feature));
}

#[test]
fn tokens_of_each_type() {
    assert_eq!(ConventionalCommitType::Fix.as_str(), "fix");
    assert_eq!(ConventionalCommitType::Feature.as_str(), "feat");
    assert_eq!(ConventionalCommitType::Breaking.as_str(), "breaking");
    assert_eq!(ConventionalCommitType::Chore.as_str(), "chore");
    assert_eq!(ConventionalCommitType::ContinuousIntegration.as_str(), "ci");
    assert_eq!(ConventionalCommitType::Docs.as_str(), "docs");
    assert_eq!(ConventionalCommitType::Refactor.as_str(), "refactor");
    assert_eq!(ConventionalCommitType::Test.as_str(), "test");
}

#[test]
fn inferred_type_is_feature() {
    assert_eq!(infer_commit_type("fix the bug"), ConventionalCommitType::Feature);
    assert_eq!(infer_commit_type(""), ConventionalCommitType::Feature);
}

#[test]
fn message_without_ticket_is_unchanged() {
    for m in ["hello world", "svc-42 lower case key", "A-1 key too short", "AB- no digits", "AB1 no dash", ""] {
        assert_eq!(ticket_of(m), (m.to_string(), None));
        assert_eq!(format_commit_message(m.to_string(), None, None), format!("feat: {}", m));
    }
}

#[test]
fn ticket_with_colon_and_space_is_removed() {
    assert_eq!(
        ticket_of("add retry logic SVC-42: fix timeout"),
        ("add retry logic fix timeout".to_string(), Some("SVC-42".to_string()))
    );
    assert_eq!(
        format_commit_message("add retry logic SVC-42: fix timeout".to_string(), None, None),
        "feat: add retry logic fix timeout (SVC-42)"
    );
}

#[test]
fn explicit_type_is_used() {
    assert_eq!(
        format_commit_message("improve docs".to_string(), Some(ConventionalCommitType::Docs), None),
        "docs: improve docs"
    );
}

#[test]
fn explicit_ticket_is_appended() {
    assert_eq!(
        format_commit_message("tweak config".to_string(), None, Some("OPS-9".to_string())),
        "feat: tweak config (OPS-9)"
    );
}

#[test]
fn explicit_ticket_wins_and_nothing_is_stripped() {
    assert_eq!(
        format_commit_message("fix SVC-1: now".to_string(), Some(ConventionalCommitType::Fix), Some("OPS-2".to_string())),
        "fix: fix SVC-1: now (OPS-2)"
    );
}

#[test]
fn ticket_at_start_is_taken() {
    assert_eq!(ticket_of("SVC-1111 hello"), ("hello".to_string(), Some("SVC-1111".to_string())));
}

#[test]
fn ticket_at_end_leaves_the_rest() {
    assert_eq!(ticket_of("do it XY-7"), ("do it ".to_string(), Some("XY-7".to_string())));
}

#[test]
fn only_first_ticket_is_taken() {
    assert_eq!(ticket_of("AB-1 CD-2 rest"), ("CD-2 rest".to_string(), Some("AB-1".to_string())));
    assert_eq!(
        format_commit_message("AB-1 CD-2 rest".to_string(), None, None),
        "feat: CD-2 rest (AB-1)"
    );
}

#[test]
fn separator_run_is_removed() {
    assert_eq!(ticket_of("x ABC-12 :\t\n: y"), ("x y".to_string(), Some("ABC-12".to_string())));
}

#[test]
fn ticket_inside_a_word() {
    assert_eq!(ticket_of("xxSVC-12yy"), ("xxyy".to_string(), Some("SVC-12".to_string())));
    assert_eq!(ticket_of("abcDE-3"), ("abc".to_string(), Some("DE-3".to_string())));
}

#[test]
fn key_may_hold_digits_and_takes_the_longest_number() {
    assert_eq!(ticket_of("A1B-30405 go"), ("go".to_string(), Some("A1B-30405".to_string())));
}

#[test]
fn key_starting_with_digit_starts_later() {
    assert_eq!(ticket_of("1AB-2 go"), ("1go".to_string(), Some("AB-2".to_string())));
}

#[test]
fn non_ascii_decimal_digits_count() {
    assert_eq!(ticket_of("AB-\u{0661}\u{0662} ok"), ("ok".to_string(), Some("AB-\u{0661}\u{0662}".to_string())));
}

#[test]
fn newlines_pass_through() {
    assert_eq!(
        format_commit_message("line one\nline two".to_string(), Some(ConventionalCommitType::Chore), None),
        "chore: line one\nline two"
    );
}

#[test]
fn formatting_twice_gives_the_same_line() {
    let a = format_commit_message("add RS-5 parser".to_string(), Some(ConventionalCommitType::Refactor), None);
    let b = format_commit_message("add RS-5 parser".to_string(), Some(ConventionalCommitType::Refactor), None);
    assert_eq!(a, b);
    assert_eq!(a, "refactor: add parser (RS-5)");
}

#[test]
fn leading_separators_are_stripped() {
    assert_eq!(strip_leading_separators(" :\u{00a0}\tx y"), "x y");
    assert_eq!(strip_leading_separators("x :"), "x :");
    assert_eq!(strip_leading_separators(" : "), "");
}

#[test]
fn token_of_each_type_parses_back() {
    for v in [
        ConventionalCommitType::Fix,
        ConventionalCommitType::Feature,
        ConventionalCommitType::Breaking,
        ConventionalCommitType::Chore,
        ConventionalCommitType::ContinuousIntegration,
        ConventionalCommitType::Docs,
        ConventionalCommitType::Refactor,
        ConventionalCommitType::Test,
    ] {
        assert_eq!(v.as_str().parse::<ConventionalCommitType>(), Ok(v));
        assert_eq!(ConventionalCommitType::parse(v.as_str()), v);
    }
}

#[test]
fn from_str_is_case_sensitive() {
    assert_eq!("Fix".parse::<ConventionalCommitType>(), Ok(ConventionalCommitType::Feature));
    assert_eq!("feat".parse::<ConventionalCommitType>(), Ok(ConventionalCommitType::Feature));
    assert_eq!("docs".parse::<ConventionalCommitType>(), Ok(ConventionalCommitType::Docs));
}
