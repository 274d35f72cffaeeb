use remote_uci::options::UciOption;
use remote_uci::options::UciOptionName;
use remote_uci::text::contains_ci;
use remote_uci::text::parse_int;
use remote_uci::text::str_eq;

fn some(v: &str) -> Option<String> {
    Some(v.to_string())
}

#[test]
fn boolean_values_are_exactly_true_and_false() {
    let opt = UciOption::Boolean { default: false };
    assert!(opt.validate(&some("true")));
    assert!(opt.validate(&some("false")));
    assert!(!opt.validate(&some("True")));
    assert!(!opt.validate(&some("1")));
    assert!(!opt.validate(&None));
}

#[test]
fn integer_values_respect_declared_bounds() {
    let opt = UciOption::Integer { default: 0, min: -3, max: 10 };
    assert!(opt.validate(&some("-3")));
    assert!(opt.validate(&some("0")));
    assert!(opt.validate(&some("10")));
    assert!(opt.validate(&some("007")));
    assert!(!opt.validate(&some("-4")));
    assert!(!opt.validate(&some("11")));
    assert!(!opt.validate(&some("")));
    assert!(!opt.validate(&some("3.5")));
    assert!(!opt.validate(&None));
}

#[test]
fn enumerated_values_must_be_listed() {
    let opt = UciOption::Enumerated {
        default: "a".to_string(),
        allowed: vec!["a".to_string(), "b".to_string()],
    };
    assert!(opt.validate(&some("a")));
    assert!(opt.validate(&some("b")));
    assert!(!opt.validate(&some("c")));
    assert!(!opt.validate(&some("A")));
    assert!(!opt.validate(&None));
}

#[test]
fn action_takes_no_value_and_text_takes_any() {
    assert!(UciOption::Action.validate(&None));
    assert!(!UciOption::Action.validate(&some("go")));
    let text = UciOption::Text { default: String::new() };
    assert!(text.validate(&some("anything at all")));
    assert!(text.validate(&None));
}

#[test]
fn limit_max_lowers_but_never_raises() {
    let opt = UciOption::Integer { default: 1, min: 1, max: 512 };
    assert_eq!(
        opt.clone().limit_max(8),
        UciOption::Integer { default: 1, min: 1, max: 8 }
    );
    assert_eq!(
        opt.clone().limit_max(4096),
        UciOption::Integer { default: 1, min: 1, max: 512 }
    );
    let text = UciOption::Text { default: "x".to_string() };
    assert_eq!(text.clone().limit_max(1), text);
}

#[test]
fn max_and_var_read_the_declared_shape() {
    assert_eq!(UciOption::Integer { default: 1, min: 1, max: 9 }.max(), Some(9));
    assert_eq!(UciOption::Action.max(), None);
    let opt = UciOption::Enumerated {
        default: "a".to_string(),
        allowed: vec!["a".to_string()],
    };
    assert_eq!(opt.var(), Some(&vec!["a".to_string()]));
    assert_eq!(UciOption::Action.var(), None);
}

#[test]
fn safety_screen_matches_file_and_path_in_any_case() {
    assert!(!UciOptionName("SyzygyPath".to_string()).is_safe());
    assert!(!UciOptionName("EvalFile".to_string()).is_safe());
    assert!(!UciOptionName("Debug Log FILE".to_string()).is_safe());
    assert!(!UciOptionName("weightsfile".to_string()).is_safe());
    assert!(UciOptionName("Threads".to_string()).is_safe());
    assert!(UciOptionName("Hash".to_string()).is_safe());
    assert!(UciOptionName("Ponder".to_string()).is_safe());
}

#[test]
fn parse_int_reads_exact_values() {
    assert_eq!(parse_int("0"), Some(0));
    assert_eq!(parse_int("42"), Some(42));
    assert_eq!(parse_int("-5"), Some(-5));
    assert_eq!(parse_int("007"), Some(7));
    assert_eq!(parse_int("123456789012345678"), Some(123456789012345678));
    assert_eq!(parse_int("-123456789012345678"), Some(-123456789012345678));
}

#[test]
fn parse_int_rejects_malformed_and_oversized_input() {
    assert_eq!(parse_int(""), None);
    assert_eq!(parse_int("-"), None);
    assert_eq!(parse_int("+5"), None);
    assert_eq!(parse_int("12a"), None);
    assert_eq!(parse_int("1 2"), None);
    assert_eq!(parse_int("--3"), None);
    // Nineteen digits exceed the accepted literal length.
    assert_eq!(parse_int("1234567890123456789"), None);
}

#[test]
fn text_helpers_compare_exactly_and_search_case_insensitively() {
    assert!(str_eq("Threads", "Threads"));
    assert!(!str_eq("Threads", "threads"));
    assert!(!str_eq("Thread", "Threads"));
    assert!(contains_ci("SyzygyPath", "path"));
    assert!(contains_ci("NNUE weights FILE name", "file"));
    assert!(contains_ci("abc", ""));
    assert!(!contains_ci("Threads", "file"));
    assert!(!contains_ci("pat", "path"));
}
