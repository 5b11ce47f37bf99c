use vstd::prelude::*;
use vstd::string::StringExecFns;
use crate::nav::{Key, Nav, Step, is_space, nav_after};
use crate::theme::{SimpleTheme, Theme};

verus! {

/// A single-choice menu: its items and how it is shown.
pub struct Select<'a> {
    /// Row highlighted at the start; none when unset or off the list.
    pub default: Option<usize>,
    pub items: Vec<String>,
    pub prompt: Option<String>,
    /// Whether the menu is erased once answered.
    pub clear: bool,
    pub theme: &'a dyn Theme,
    pub paged: bool,
}

/// `after` holds the rows of `before` followed by the text of each of `added`.
pub open spec fn appended<T: std::fmt::Display>(
    before: Seq<String>,
    added: Seq<T>,
    after: Seq<String>,
) -> bool {
    &&& after.len() == before.len() + added.len()
    &&& forall|i: int| 0 <= i < before.len() ==> after[i] == before[i]
    &&& forall|j: int|
        0 <= j < added.len() ==> vstd::string::to_string_from_display_ensures::<T>(
            &added[j],
            #[trigger] after[before.len() + j],
        )
}

/// Pushes the text of each of `items` onto `rows`.
pub fn push_texts<T: std::fmt::Display>(rows: &mut Vec<String>, items: &[T])
    ensures
        appended(old(rows)@, items@, final(rows)@),
{
    let ghost start = rows@;
    let mut i: usize = 0;
    while i < items.len()
        invariant
            i <= items@.len(),
            appended(start, items@.subrange(0, i as int), rows@),
        decreases items@.len() - i,
    {
        let s = items[i].to_string();
        rows.push(s);
        i += 1;
        proof {
            let added = items@.subrange(0, i as int);
            assert forall|j: int| 0 <= j < added.len() implies
                vstd::string::to_string_from_display_ensures::<T>(
                &added[j],
                #[trigger] rows@[start.len() + j],
            ) by {
                assert(added[j] == items@[j]);
                if j < i - 1 {
                    assert(items@.subrange(0, i - 1)[j] == items@[j]);
                }
            }
        }
    }
    proof {
        assert(items@.subrange(0, items@.len() as int) =~= items@);
    }
}

impl<'a> Select<'a> {
    /// A menu drawn with the plain theme.
    pub fn new() -> (r: Select<'static>)
        ensures
            r.default is None,
            r.items@.len() == 0,
            r.prompt is None,
            r.clear,
            !r.paged,
    {
        Select::with_theme(&SimpleTheme)
    }

    /// A menu drawn with `theme`.
    pub fn with_theme(theme: &'a dyn Theme) -> (r: Select<'a>)
        ensures
            r.default is None,
            r.items@.len() == 0,
            r.prompt is None,
            r.clear,
            !r.paged,
    {
        Select { default: None, items: Vec::new(), prompt: None, clear: true, theme, paged: false }
    }

    /// Turns paging on or off.
    pub fn paged(&mut self, val: bool) -> (r: &mut Select<'a>)
        ensures
            *r == (Select { paged: val, ..*old(self) }),
            *final(self) == *final(r),
    {
        self.paged = val;
        self
    }

    /// Sets whether the menu is erased once answered.
    pub fn clear(&mut self, val: bool) -> (r: &mut Select<'a>)
        ensures
            *r == (Select { clear: val, ..*old(self) }),
            *final(self) == *final(r),
    {
        self.clear = val;
        self
    }

    /// Sets the row highlighted at the start.
    pub fn default(&mut self, val: usize) -> (r: &mut Select<'a>)
        ensures
            *r == (Select { default: Some(val), ..*old(self) }),
            *final(self) == *final(r),
    {
        self.default = Some(val);
        self
    }

    /// Adds one item.
    pub fn item<T: std::fmt::Display>(&mut self, item: T) -> (r: &mut Select<'a>)
        ensures
            appended(old(self).items@, seq![item], r.items@),
            *r == (Select { items: r.items, ..*old(self) }),
            *final(self) == *final(r),
    {
        let s = item.to_string();
        self.items.push(s);
        proof {
            assert(seq![item][0] == item);
        }
        self
    }

    /// Adds several items.
    pub fn items<T: std::fmt::Display>(&mut self, items: &[T]) -> (r: &mut Select<'a>)
        ensures
            appended(old(self).items@, items@, r.items@),
            *r == (Select { items: r.items, ..*old(self) }),
            *final(self) == *final(r),
    {
        push_texts(&mut self.items, items);
        self
    }

    /// Opens the menu with a prompt, and closes it with the prompt and the choice.
    pub fn with_prompt(&mut self, prompt: &str) -> (r: &mut Select<'a>)
        ensures
            r.prompt matches Some(p) && p@ == prompt@,
            *r == (Select { prompt: r.prompt, ..*old(self) }),
            *final(self) == *final(r),
    {
        self.prompt = Some(String::from_str(prompt));
        self
    }
}

/// Keys that pick the highlighted row.
pub open spec fn is_pick(k: Key) -> bool {
    k == Key::Enter || is_space(k)
}

/// Keys that cancel the menu.
pub open spec fn is_quit(k: Key) -> bool {
    k == Key::Escape || k == Key::Char('q')
}

/// A single-choice menu while it is answered.
#[derive(Clone, Copy, Debug, PartialEq, Eq, Structural)]
pub struct SelectState {
    pub nav: Nav,
    /// Whether Escape or `q` may cancel it.
    pub allow_quit: bool,
}

impl SelectState {
    pub open spec fn wf(&self) -> bool {
        self.nav.wf()
    }

    /// `k` ends the interaction: a cancel where cancelling is allowed, or a pick while a row
    /// is highlighted.
    pub open spec fn finishes(&self, k: Key) -> bool {
        (is_quit(k) && self.allow_quit) || (is_pick(k) && self.nav.cursor is Some)
    }

    /// What a finishing key returns: nothing for a cancel, else the highlighted row.
    pub open spec fn result(&self, k: Key) -> Option<usize> {
        if is_quit(k) {
            None
        } else {
            self.nav.cursor
        }
    }

    /// The state after a key that does not finish.
    pub open spec fn next(&self, k: Key) -> SelectState {
        SelectState { nav: nav_after(self.nav, k), ..*self }
    }

    /// The state at the start over `n` items, with `default` highlighted if it is one of them.
    pub fn new(n: usize, paged: bool, rows: usize, default: Option<usize>, allow_quit: bool) -> (r:
        SelectState)
        requires
            n >= 1,
        ensures
            r.wf(),
            r.allow_quit == allow_quit,
            r.nav.n == n,
            r.nav.paged == paged,
            r.nav.capacity == (if !paged {
                n
            } else if rows >= 2 {
                (rows - 1) as usize
            } else {
                1
            }),
            r.nav.cursor == (match default {
                Some(c) => if c < n {
                    Some(c)
                } else {
                    None
                },
                None => None,
            }),
    {
        SelectState { nav: Nav::new(n, paged, rows, default), allow_quit }
    }

    /// Handles one key.
    pub fn step(&mut self, k: Key) -> (r: Step<Option<usize>>)
        requires
            old(self).wf(),
        ensures
            final(self).wf(),
            match r {
                Step::Finish(res) => old(self).finishes(k) && res == old(self).result(k)
                    && *final(self) == *old(self),
                Step::Continue => !old(self).finishes(k) && *final(self) == old(self).next(k),
            },
    {
        if (k == Key::Escape || k == Key::Char('q')) && self.allow_quit {
            return Step::Finish(None);
        }
        if k == Key::Enter || k == Key::Space || k == Key::Char(' ') {
            if let Some(c) = self.nav.cursor {
                return Step::Finish(Some(c));
            }
        }
        self.nav.apply(k);
        Step::Continue
    }
}

} // verus!
