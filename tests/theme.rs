use dialoguer::theme::{plain_error, plain_multiselect_item, plain_prompt, plain_select_item};
use dialoguer::{SimpleTheme, Theme};

#[test]
fn simple_theme_lines() {
    let t = SimpleTheme;
    assert_eq!(t.prompt("Pick"), "Pick:");
    assert_eq!(t.select_item("a", true), "> a");
    assert_eq!(t.select_item("a", false), "  a");
    assert_eq!(t.multiselect_item("b", true, false), "  [x] b");
    assert_eq!(t.multiselect_item("b", false, true), "> [ ] b");
    assert_eq!(t.sort_item("c", true, true), "> [x] c");
    assert_eq!(t.sort_item("c", true, false), "  [ ] c");
    assert_eq!(t.selection("Pick", "a"), "Pick: a");
    assert_eq!(t.error("bad"), "error: bad");
}

struct Arrow;

impl Theme for Arrow {
    fn prompt(&self, prompt: &str) -> String {
        format!("? {}", prompt)
    }

    fn select_item(&self, text: &str, active: bool) -> String {
        format!("{} {}", if active { "->" } else { "  " }, text)
    }

    fn multiselect_item(&self, text: &str, checked: bool, _active: bool) -> String {
        format!("{} {}", if checked { "(*)" } else { "( )" }, text)
    }

    fn sort_item(&self, text: &str, _picked: bool, _active: bool) -> String {
        text.to_string()
    }

    fn selection(&self, prompt: &str, chosen: &str) -> String {
        format!("{} = {}", prompt, chosen)
    }

    fn error(&self, err: &str) -> String {
        format!("! {}", err)
    }
}

#[test]
fn custom_theme_can_be_substituted() {
    let theme = Arrow;
    let mut menu = dialoguer::Select::with_theme(&theme);
    menu.items(&["a", "b"]);
    assert_eq!(menu.theme.select_item(&menu.items[1], true), "-> b");
    assert_eq!(menu.theme.selection("Pick", "b"), "Pick = b");
}

#[test]
fn plain_lines_match_simple_theme() {
    assert_eq!(plain_prompt("Q"), SimpleTheme.prompt("Q"));
    assert_eq!(plain_select_item("row", false), "  row");
    assert_eq!(plain_multiselect_item("row", true, true), "> [x] row");
    assert_eq!(plain_error(""), "error: ");
}
