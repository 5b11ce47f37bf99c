use vstd::prelude::*;
use vstd::string::StringExecFns;
use crate::theme::{SimpleTheme, Theme};

verus! {

/// A yes/no question.
pub struct Confirmation<'a> {
    pub prompt: String,
    /// The answer given by Enter alone.
    pub default: bool,
    /// Whether the prompt shows which answer Enter gives.
    pub show_default: bool,
    pub theme: &'a dyn Theme,
}

/// The answer a typed character gives to a yes/no question, if any.
pub open spec fn answer_for(c: char, default: bool) -> Option<bool> {
    if c == 'y' || c == 'Y' {
        Some(true)
    } else if c == 'n' || c == 'N' {
        Some(false)
    } else if c == '\n' || c == '\r' {
        Some(default)
    } else {
        None
    }
}

impl<'a> Confirmation<'a> {
    /// A question drawn with the plain theme: empty prompt, Enter answers yes, the default
    /// is shown.
    pub fn new() -> (r: Confirmation<'static>)
        ensures
            r.prompt@.len() == 0,
            r.default,
            r.show_default,
    {
        Confirmation::with_theme(&SimpleTheme)
    }

    /// A question drawn with `theme`.
    pub fn with_theme(theme: &'a dyn Theme) -> (r: Confirmation<'a>)
        ensures
            r.prompt@.len() == 0,
            r.default,
            r.show_default,
    {
        Confirmation { prompt: String::new(), default: true, show_default: true, theme }
    }

    /// Sets the question.
    pub fn with_prompt(&mut self, prompt: &str) -> (r: &mut Confirmation<'a>)
        ensures
            r.prompt@ == prompt@,
            *r == (Confirmation { prompt: r.prompt, ..*old(self) }),
            *final(self) == *final(r),
    {
        self.prompt = String::from_str(prompt);
        self
    }

    /// Sets the question; the older name of `with_prompt`.
    pub fn with_text(&mut self, text: &str) -> (r: &mut Confirmation<'a>)
        ensures
            r.prompt@ == text@,
            *r == (Confirmation { prompt: r.prompt, ..*old(self) }),
            *final(self) == *final(r),
    {
        self.with_prompt(text)
    }

    /// Sets the answer given by Enter alone.
    pub fn default(&mut self, val: bool) -> (r: &mut Confirmation<'a>)
        ensures
            *r == (Confirmation { default: val, ..*old(self) }),
            *final(self) == *final(r),
    {
        self.default = val;
        self
    }

    /// Sets whether the prompt shows which answer Enter gives.
    pub fn show_default(&mut self, val: bool) -> (r: &mut Confirmation<'a>)
        ensures
            *r == (Confirmation { show_default: val, ..*old(self) }),
            *final(self) == *final(r),
    {
        self.show_default = val;
        self
    }

    /// The answer a typed character gives: `y` or `Y` yes, `n` or `N` no, Enter the default;
    /// any other character none, and the question waits for another.
    pub fn answer(&self, c: char) -> (r: Option<bool>)
        ensures
            r == answer_for(c, self.default),
    {
        if c == 'y' || c == 'Y' {
            Some(true)
        } else if c == 'n' || c == 'N' {
            Some(false)
        } else if c == '\n' || c == '\r' {
            Some(self.default)
        } else {
            None
        }
    }

    /// The default shown with the prompt, if it is shown.
    pub fn shown_default(&self) -> (r: Option<bool>)
        ensures
            r == (if self.show_default {
                Some(self.default)
            } else {
                None
            }),
    {
        if self.show_default {
            Some(self.default)
        } else {
            None
        }
    }
}

/// A check on a line of input before it is accepted.
pub trait Validator {
    /// `Ok` accepts the line; `Err` rejects it with the message to show.
    fn validate(&self, input: &str) -> Result<(), String>;
}

/// What to do with a line typed at an input prompt.
#[derive(Debug, PartialEq, Eq)]
pub enum Verdict {
    /// Return the default.
    UseDefault,
    /// Ask again, with no message.
    Retry,
    /// Show this message and ask again.
    Reject(String),
    /// Return the value read from the line.
    Accept,
}

/// A prompt for one line of text, read as a `T`.
pub struct Input<'a, T> {
    pub prompt: String,
    /// The value given by an empty line.
    pub default: Option<T>,
    /// Whether the prompt shows the default.
    pub show_default: bool,
    /// Text the line starts with, to be edited.
    pub initial_text: Option<String>,
    pub theme: &'a dyn Theme,
    /// Whether an empty line is read as a value when there is no default.
    pub permit_empty: bool,
    /// The checks a line must pass, in the order they were added.
    pub validators: Vec<Box<dyn Validator>>,
}

/// `v` is the verdict on a line, given whether it is empty, the prompt's settings, the
/// error met reading it as a value, if any, and the message of the first check it failed, if
/// any. An empty line gives the default where there is one, and is asked again unless empty
/// lines are allowed; otherwise a reading error rejects it, then a failed check, and a line
/// that passes both is accepted.
pub open spec fn verdict_is(
    v: Verdict,
    empty: bool,
    has_default: bool,
    permit_empty: bool,
    parse_error: Option<Seq<char>>,
    check_error: Option<Seq<char>>,
) -> bool {
    let read = !(empty && (has_default || !permit_empty));
    match v {
        Verdict::UseDefault => empty && has_default,
        Verdict::Retry => empty && !has_default && !permit_empty,
        Verdict::Reject(m) => read && (parse_error == Some(m@) || (parse_error is None
            && check_error == Some(m@))),
        Verdict::Accept => read && parse_error is None && check_error is None,
    }
}

/// `v` is the verdict on the line `input`.
pub open spec fn verdict_on(
    v: Verdict,
    input: Seq<char>,
    has_default: bool,
    permit_empty: bool,
    parse_error: Option<Seq<char>>,
    check_error: Option<Seq<char>>,
) -> bool {
    verdict_is(v, input.len() == 0, has_default, permit_empty, parse_error, check_error)
}

/// The text of a message, if there is one.
pub open spec fn opt_view(m: Option<String>) -> Option<Seq<char>> {
    match m {
        Some(e) => Some(e@),
        None => None,
    }
}

/// The verdict on a line from plain facts about it.
pub fn decide(
    empty: bool,
    has_default: bool,
    permit_empty: bool,
    parse_error: Option<String>,
    check_error: Option<String>,
) -> (r: Verdict)
    ensures
        verdict_is(
            r,
            empty,
            has_default,
            permit_empty,
            match parse_error {
                Some(e) => Some(e@),
                None => None,
            },
            match check_error {
                Some(e) => Some(e@),
                None => None,
            },
        ),
{
    if empty && has_default {
        Verdict::UseDefault
    } else if empty && !permit_empty {
        Verdict::Retry
    } else {
        match parse_error {
            Some(e) => Verdict::Reject(e),
            None => match check_error {
                Some(e) => Verdict::Reject(e),
                None => Verdict::Accept,
            },
        }
    }
}

impl<'a, T> Input<'a, T> {
    /// A prompt drawn with the plain theme.
    pub fn new() -> (r: Input<'static, T>)
        ensures
            r.prompt@.len() == 0,
            r.default is None,
            r.show_default,
            r.initial_text is None,
            !r.permit_empty,
            r.validators@.len() == 0,
    {
        Input::with_theme(&SimpleTheme)
    }

    /// A prompt drawn with `theme`.
    pub fn with_theme(theme: &'a dyn Theme) -> (r: Input<'a, T>)
        ensures
            r.prompt@.len() == 0,
            r.default is None,
            r.show_default,
            r.initial_text is None,
            !r.permit_empty,
            r.validators@.len() == 0,
    {
        Input {
            prompt: String::new(),
            default: None,
            show_default: true,
            initial_text: None,
            theme,
            permit_empty: false,
            validators: Vec::new(),
        }
    }

    /// Sets the prompt.
    pub fn with_prompt(&mut self, prompt: &str) -> (r: &mut Input<'a, T>)
        ensures
            r.prompt@ == prompt@,
            r.default == old(self).default,
            r.show_default == old(self).show_default,
            r.initial_text == old(self).initial_text,
            r.permit_empty == old(self).permit_empty,
            r.validators@ == old(self).validators@,
            *final(self) == *final(r),
    {
        self.prompt = String::from_str(prompt);
        self
    }

    /// Sets text the line starts with.
    pub fn with_initial_text(&mut self, val: &str) -> (r: &mut Input<'a, T>)
        ensures
            r.initial_text matches Some(t) && t@ == val@,
            r.prompt == old(self).prompt,
            r.default == old(self).default,
            r.show_default == old(self).show_default,
            r.permit_empty == old(self).permit_empty,
            r.validators@ == old(self).validators@,
            *final(self) == *final(r),
    {
        self.initial_text = Some(String::from_str(val));
        self
    }

    /// Sets the value an empty line gives.
    pub fn default(&mut self, value: T) -> (r: &mut Input<'a, T>)
        ensures
            r.default == Some(value),
            r.prompt == old(self).prompt,
            r.show_default == old(self).show_default,
            r.initial_text == old(self).initial_text,
            r.permit_empty == old(self).permit_empty,
            r.validators@ == old(self).validators@,
            *final(self) == *final(r),
    {
        self.default = Some(value);
        self
    }

    /// Sets whether an empty line is read as a value when there is no default.
    pub fn allow_empty(&mut self, val: bool) -> (r: &mut Input<'a, T>)
        ensures
            r.permit_empty == val,
            r.prompt == old(self).prompt,
            r.default == old(self).default,
            r.show_default == old(self).show_default,
            r.initial_text == old(self).initial_text,
            r.validators@ == old(self).validators@,
            *final(self) == *final(r),
    {
        self.permit_empty = val;
        self
    }

    /// Sets whether the prompt shows the default.
    pub fn show_default(&mut self, val: bool) -> (r: &mut Input<'a, T>)
        ensures
            r.show_default == val,
            r.prompt == old(self).prompt,
            r.default == old(self).default,
            r.initial_text == old(self).initial_text,
            r.permit_empty == old(self).permit_empty,
            r.validators@ == old(self).validators@,
            *final(self) == *final(r),
    {
        self.show_default = val;
        self
    }

    /// Adds a check, run after those added before.
    pub fn validate_with(&mut self, validator: Box<dyn Validator>) -> (r: &mut Input<'a, T>)
        ensures
            r.validators@ == old(self).validators@.push(validator),
            r.prompt == old(self).prompt,
            r.default == old(self).default,
            r.show_default == old(self).show_default,
            r.initial_text == old(self).initial_text,
            r.permit_empty == old(self).permit_empty,
            *final(self) == *final(r),
    {
        self.validators.push(validator);
        self
    }

    /// Runs the checks in order and gives the message of the first that rejects `input`.
    pub fn first_error(&self, input: &str) -> (r: Option<String>)
        ensures
            self.validators@.len() == 0 ==> r is None,
    {
        let mut i: usize = 0;
        while i < self.validators.len()
            invariant
                i <= self.validators@.len(),
            decreases self.validators@.len() - i,
        {
            match self.validators[i].validate(input) {
                Ok(()) => {},
                Err(e) => {
                    return Some(e);
                },
            }
            i += 1;
        }
        None
    }

    /// What to do with the line `input`, given the error met reading it as a `T`, if any.
    /// An empty line gives the default where there is one, and is asked again unless empty
    /// lines are allowed; a line that does not read as a `T` is rejected with that error;
    /// any other line is accepted or rejected by the checks.
    pub fn judge(&self, input: &str, parse_error: Option<String>) -> (r: Verdict)
        ensures
            exists|check: Option<Seq<char>>|
                #[trigger] verdict_on(
                    r,
                    input@,
                    self.default is Some,
                    self.permit_empty,
                    opt_view(parse_error),
                    check,
                ),
            (input@.len() == 0 && (self.default is Some || !self.permit_empty))
                || parse_error is Some ==> verdict_on(
                r,
                input@,
                self.default is Some,
                self.permit_empty,
                opt_view(parse_error),
                None,
            ),
    {
        let empty = input.is_empty();
        let has_default = self.default.is_some();
        if empty && (has_default || !self.permit_empty) || parse_error.is_some() {
            let ghost parsed = opt_view(parse_error);
            let r = decide(empty, has_default, self.permit_empty, parse_error, None);
            assert(verdict_on(r, input@, has_default, self.permit_empty, parsed, None));
            r
        } else {
            let check = self.first_error(input);
            let r = decide(empty, has_default, self.permit_empty, None, check);
            assert(verdict_on(r, input@, has_default, self.permit_empty, None, opt_view(check)));
            r
        }
    }
}

/// A prompt for a password, typed without echo.
pub struct PasswordInput<'a> {
    pub prompt: String,
    pub theme: &'a dyn Theme,
    pub allow_empty_password: bool,
    /// The prompt asking for the password again, and the message shown when the two differ.
    pub confirmation_prompt: Option<(String, String)>,
}

impl<'a> Default for PasswordInput<'a> {
    fn default() -> (r: PasswordInput<'a>)
        ensures
            r.prompt@.len() == 0,
            !r.allow_empty_password,
            r.confirmation_prompt is None,
    {
        PasswordInput::new()
    }
}

impl<'a> PasswordInput<'a> {
    /// A prompt drawn with the plain theme.
    pub fn new() -> (r: PasswordInput<'static>)
        ensures
            r.prompt@.len() == 0,
            !r.allow_empty_password,
            r.confirmation_prompt is None,
    {
        PasswordInput::with_theme(&SimpleTheme)
    }

    /// A prompt drawn with `theme`.
    pub fn with_theme(theme: &'a dyn Theme) -> (r: PasswordInput<'a>)
        ensures
            r.prompt@.len() == 0,
            !r.allow_empty_password,
            r.confirmation_prompt is None,
    {
        PasswordInput {
            prompt: String::new(),
            theme,
            allow_empty_password: false,
            confirmation_prompt: None,
        }
    }

    /// Sets the prompt.
    pub fn with_prompt(&mut self, prompt: &str) -> (r: &mut PasswordInput<'a>)
        ensures
            r.prompt@ == prompt@,
            *r == (PasswordInput { prompt: r.prompt, ..*old(self) }),
            *final(self) == *final(r),
    {
        self.prompt = String::from_str(prompt);
        self
    }

    /// Asks for the password twice, with `prompt` the second time, showing `mismatch_err`
    /// when the two differ.
    pub fn with_confirmation(&mut self, prompt: &str, mismatch_err: &str) -> (r:
        &mut PasswordInput<'a>)
        ensures
            r.confirmation_prompt matches Some(c) && c.0@ == prompt@ && c.1@ == mismatch_err@,
            *r == (PasswordInput { confirmation_prompt: r.confirmation_prompt, ..*old(self) }),
            *final(self) == *final(r),
    {
        self.confirmation_prompt = Some((String::from_str(prompt), String::from_str(mismatch_err)));
        self
    }

    /// Sets whether an empty password is accepted.
    pub fn allow_empty_password(&mut self, allow_empty_password: bool) -> (r:
        &mut PasswordInput<'a>)
        ensures
            *r == (PasswordInput { allow_empty_password, ..*old(self) }),
            *final(self) == *final(r),
    {
        self.allow_empty_password = allow_empty_password;
        self
    }

    /// Whether a typed password is taken: a non-empty one always, an empty one only where
    /// allowed; otherwise it is asked for again.
    pub fn prompt_password(&self, input: &str) -> (r: bool)
        ensures
            r == (input@.len() != 0 || self.allow_empty_password),
    {
        !input.is_empty() || self.allow_empty_password
    }

    /// The message to show when the second password typed differs from the first, or none
    /// when they agree or no second one is asked for.
    pub fn mismatch(&self, first: &String, second: &String) -> (r: Option<String>)
        ensures
            match self.confirmation_prompt {
                None => r is None,
                Some(c) => if first@ == second@ {
                    r is None
                } else {
                    r matches Some(m) && m@ == c.1@
                },
            },
    {
        match &self.confirmation_prompt {
            None => None,
            Some(c) => if *first == *second {
                None
            } else {
                Some(c.1.clone())
            },
        }
    }
}

} // verus!
