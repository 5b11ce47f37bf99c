use vstd::prelude::*;
use vstd::string::StringExecFns;

verus! {

/// How prompts are drawn: each method gives the text of one line for one phase of a prompt.
/// Users may supply their own; `SimpleTheme` is the default.
pub trait Theme {
    /// The line that opens a prompt.
    fn prompt(&self, prompt: &str) -> String;

    /// The row of a single-choice item.
    fn select_item(&self, text: &str, active: bool) -> String;

    /// The row of a checkbox item.
    fn multiselect_item(&self, text: &str, checked: bool, active: bool) -> String;

    /// The row of an item in a list being ordered.
    fn sort_item(&self, text: &str, picked: bool, active: bool) -> String;

    /// The line that closes a prompt with what was chosen.
    fn selection(&self, prompt: &str, chosen: &str) -> String;

    /// The line that reports an error.
    fn error(&self, err: &str) -> String;
}

/// The plain theme: no colours, a `>` before the active row, `[x]` for a checked box.
pub struct SimpleTheme;

/// `a` followed by `b`.
fn joined(a: &str, b: &str) -> (r: String)
    ensures
        r@ == a@ + b@,
{
    let mut s = String::from_str(a);
    s.append(b);
    s
}

/// The active-row marker and the blank of the same width.
pub open spec fn marker(active: bool) -> Seq<char> {
    if active {
        seq!['>', ' ']
    } else {
        seq![' ', ' ']
    }
}

/// A box, ticked or empty, and a blank after it.
pub open spec fn checkbox(checked: bool) -> Seq<char> {
    if checked {
        seq!['[', 'x', ']', ' ']
    } else {
        seq!['[', ' ', ']', ' ']
    }
}

fn marker_text(active: bool) -> (r: &'static str)
    ensures
        r@ == marker(active),
{
    if active {
        proof {
            reveal_strlit("> ");
        }
        "> "
    } else {
        proof {
            reveal_strlit("  ");
        }
        "  "
    }
}

fn checkbox_text(checked: bool) -> (r: &'static str)
    ensures
        r@ == checkbox(checked),
{
    if checked {
        proof {
            reveal_strlit("[x] ");
        }
        "[x] "
    } else {
        proof {
            reveal_strlit("[ ] ");
        }
        "[ ] "
    }
}

/// The opening line: the prompt and a colon.
pub fn plain_prompt(prompt: &str) -> (r: String)
    ensures
        r@ == prompt@ + seq![':'],
{
    proof {
        reveal_strlit(":");
    }
    joined(prompt, ":")
}

/// A single-choice row: the marker, then the text.
pub fn plain_select_item(text: &str, active: bool) -> (r: String)
    ensures
        r@ == marker(active) + text@,
{
    joined(marker_text(active), text)
}

/// A checkbox row: the marker, the box, then the text.
pub fn plain_multiselect_item(text: &str, checked: bool, active: bool) -> (r: String)
    ensures
        r@ == marker(active) + checkbox(checked) + text@,
{
    let mut s = joined(marker_text(active), checkbox_text(checked));
    s.append(text);
    s
}

/// A row of a list being ordered: the marker, a box ticked while the row is being dragged,
/// then the text.
pub fn plain_sort_item(text: &str, picked: bool, active: bool) -> (r: String)
    ensures
        r@ == marker(active) + checkbox(picked && active) + text@,
{
    plain_multiselect_item(text, picked && active, active)
}

/// The closing line: the prompt, a colon, then what was chosen.
pub fn plain_selection(prompt: &str, chosen: &str) -> (r: String)
    ensures
        r@ == prompt@ + seq![':', ' '] + chosen@,
{
    proof {
        reveal_strlit(": ");
    }
    let mut s = joined(prompt, ": ");
    s.append(chosen);
    s
}

/// An error line.
pub fn plain_error(err: &str) -> (r: String)
    ensures
        r@ == seq!['e', 'r', 'r', 'o', 'r', ':', ' '] + err@,
{
    proof {
        reveal_strlit("error: ");
    }
    joined("error: ", err)
}

impl Theme for SimpleTheme {
    fn prompt(&self, prompt: &str) -> String {
        plain_prompt(prompt)
    }

    fn select_item(&self, text: &str, active: bool) -> String {
        plain_select_item(text, active)
    }

    fn multiselect_item(&self, text: &str, checked: bool, active: bool) -> String {
        plain_multiselect_item(text, checked, active)
    }

    fn sort_item(&self, text: &str, picked: bool, active: bool) -> String {
        plain_sort_item(text, picked, active)
    }

    fn selection(&self, prompt: &str, chosen: &str) -> String {
        plain_selection(prompt, chosen)
    }

    fn error(&self, err: &str) -> String {
        plain_error(err)
    }
}

} // verus!
