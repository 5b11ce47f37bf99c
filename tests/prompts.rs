use dialoguer::prompts::decide;
use dialoguer::{Confirmation, Input, PasswordInput, Validator, Verdict};

struct HasAt;

impl Validator for HasAt {
    fn validate(&self, input: &str) -> Result<(), String> {
        if input.contains('@') {
            Ok(())
        } else {
            Err("This is not a mail address".to_string())
        }
    }
}

struct Short;

impl Validator for Short {
    fn validate(&self, input: &str) -> Result<(), String> {
        if input.len() < 6 {
            Ok(())
        } else {
            Err("too long".to_string())
        }
    }
}

#[test]
fn confirmation_answers() {
    let mut c = Confirmation::new();
    assert_eq!(c.answer('y'), Some(true));
    assert_eq!(c.answer('N'), Some(false));
    assert_eq!(c.answer('\n'), Some(true));
    assert_eq!(c.answer('x'), None);
    c.default(false).with_prompt("Go?");
    assert_eq!(c.answer('\r'), Some(false));
    assert_eq!(c.prompt, "Go?");
    assert_eq!(c.shown_default(), Some(false));
    c.show_default(false).with_text("Sure?");
    assert_eq!(c.shown_default(), None);
    assert_eq!(c.prompt, "Sure?");
}

#[test]
fn input_empty_line_uses_default_or_retries() {
    let mut i: Input<u32> = Input::new();
    assert_eq!(i.judge("", Some("empty".to_string())), Verdict::Retry);
    i.allow_empty(true);
    assert_eq!(
        i.judge("", Some("cannot parse".to_string())),
        Verdict::Reject("cannot parse".to_string())
    );
    i.default(5);
    assert_eq!(i.judge("", None), Verdict::UseDefault);
}

#[test]
fn input_checks_run_in_order() {
    let mut i: Input<String> = Input::new();
    i.with_prompt("Mail").validate_with(Box::new(HasAt)).validate_with(Box::new(Short));
    assert_eq!(i.judge("a@b", None), Verdict::Accept);
    assert_eq!(i.judge("ab", None), Verdict::Reject("This is not a mail address".to_string()));
    assert_eq!(i.judge("abcdef", None), Verdict::Reject("This is not a mail address".to_string()));
    assert_eq!(i.judge("abc@def", None), Verdict::Reject("too long".to_string()));
    assert_eq!(i.first_error("x@y"), None);
}

#[test]
fn input_parse_error_wins_over_checks() {
    let mut i: Input<u8> = Input::new();
    i.validate_with(Box::new(HasAt));
    assert_eq!(i.judge("300", Some("bad".to_string())), Verdict::Reject("bad".to_string()));
}

#[test]
fn decide_covers_each_verdict() {
    assert_eq!(decide(true, true, false, None, None), Verdict::UseDefault);
    assert_eq!(decide(true, false, false, None, None), Verdict::Retry);
    assert_eq!(decide(true, false, true, None, None), Verdict::Accept);
    assert_eq!(decide(false, false, false, None, None), Verdict::Accept);
    assert_eq!(
        decide(false, true, false, None, Some("no".to_string())),
        Verdict::Reject("no".to_string())
    );
}

#[test]
fn input_builder_settings() {
    let mut i: Input<String> = Input::new();
    i.with_initial_text("abc").show_default(false);
    assert_eq!(i.initial_text.as_deref(), Some("abc"));
    assert!(!i.show_default);
}

#[test]
fn password_rules() {
    let mut p = PasswordInput::new();
    assert!(!p.prompt_password(""));
    assert!(p.prompt_password("pw"));
    p.allow_empty_password(true);
    assert!(p.prompt_password(""));
    let a = "one".to_string();
    let b = "two".to_string();
    assert_eq!(p.mismatch(&a, &b), None);
    p.with_prompt("Password").with_confirmation("Again", "Passwords mismatching");
    assert_eq!(p.mismatch(&a, &a), None);
    assert_eq!(p.mismatch(&a, &b), Some("Passwords mismatching".to_string()));
    assert_eq!(p.prompt, "Password");
}
