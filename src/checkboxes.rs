use vstd::prelude::*;
use vstd::string::StringExecFns;
use crate::nav::{Key, Nav, Step, is_space, nav_after};
use crate::select::{appended, push_texts};
use crate::theme::{SimpleTheme, Theme};

verus! {

/// A multi-choice menu of checkboxes: its items, which start checked, and how it is shown.
pub struct Checkboxes<'a> {
    /// Whether each item starts checked; one flag per item.
    pub defaults: Vec<bool>,
    pub items: Vec<String>,
    pub prompt: Option<String>,
    /// Whether the menu is erased once answered.
    pub clear: bool,
    pub theme: &'a dyn Theme,
    pub paged: bool,
}

/// `flags` cut or padded with `false` to `n` entries.
pub open spec fn flags_for(flags: Seq<bool>, n: nat) -> Seq<bool> {
    Seq::new(n, |i: int| if i < flags.len() { flags[i] } else { false })
}

/// The indices, in increasing order, of the entries of `flags` that are set.
pub open spec fn checked_indices(flags: Seq<bool>) -> Seq<usize>
    decreases flags.len(),
{
    if flags.len() == 0 {
        seq![]
    } else {
        let rest = checked_indices(flags.drop_last());
        if flags.last() {
            rest.push((flags.len() - 1) as usize)
        } else {
            rest
        }
    }
}

/// The indices of the entries of `flags` that are set, in increasing order.
pub fn indices_of_checked(flags: &Vec<bool>) -> (r: Vec<usize>)
    ensures
        r@ == checked_indices(flags@),
{
    let mut r: Vec<usize> = Vec::new();
    let mut i: usize = 0;
    while i < flags.len()
        invariant
            i <= flags@.len(),
            r@ == checked_indices(flags@.subrange(0, i as int)),
        decreases flags@.len() - i,
    {
        proof {
            assert(flags@.subrange(0, i + 1).drop_last() =~= flags@.subrange(0, i as int));
        }
        if flags[i] {
            r.push(i);
        }
        i += 1;
    }
    proof {
        assert(flags@.subrange(0, flags@.len() as int) =~= flags@);
    }
    r
}

/// Pushes `count` unset flags onto `flags`.
fn push_unchecked(flags: &mut Vec<bool>, count: usize)
    ensures
        final(flags)@ == old(flags)@ + Seq::new(count as nat, |i: int| false),
{
    let ghost start = flags@;
    let mut i: usize = 0;
    while i < count
        invariant
            i <= count,
            flags@ =~= start + Seq::new(i as nat, |j: int| false),
        decreases count - i,
    {
        flags.push(false);
        i += 1;
    }
}

/// Pushes the text of each item onto `rows` and its flag onto `flags`.
fn push_checked_items<T: std::fmt::Display>(
    rows: &mut Vec<String>,
    flags: &mut Vec<bool>,
    items: &[(T, bool)],
)
    ensures
        final(rows)@.len() == old(rows)@.len() + items@.len(),
        forall|i: int| 0 <= i < old(rows)@.len() ==> final(rows)@[i] == old(rows)@[i],
        forall|j: int|
            0 <= j < items@.len() ==> vstd::string::to_string_from_display_ensures::<T>(
                &items@[j].0,
                #[trigger] final(rows)@[old(rows)@.len() + j],
            ),
        final(flags)@ == old(flags)@ + Seq::new(items@.len(), |j: int| items@[j].1),
{
    let ghost start = rows@;
    let ghost before = flags@;
    let mut i: usize = 0;
    while i < items.len()
        invariant
            i <= items@.len(),
            rows@.len() == start.len() + i,
            forall|m: int| 0 <= m < start.len() ==> rows@[m] == start[m],
            forall|j: int|
                0 <= j < i ==> vstd::string::to_string_from_display_ensures::<T>(
                    &items@[j].0,
                    #[trigger] rows@[start.len() + j],
                ),
            flags@ =~= before + Seq::new(i as nat, |j: int| items@[j].1),
        decreases items@.len() - i,
    {
        let s = items[i].0.to_string();
        rows.push(s);
        flags.push(items[i].1);
        i += 1;
    }
}

impl<'a> Default for Checkboxes<'a> {
    fn default() -> (r: Checkboxes<'a>)
        ensures
            r.wf(),
            r.items@.len() == 0,
            r.prompt is None,
            r.clear,
            !r.paged,
    {
        Checkboxes::new()
    }
}

impl<'a> Checkboxes<'a> {
    /// One flag per item.
    pub open spec fn wf(&self) -> bool {
        self.defaults@.len() == self.items@.len()
    }

    /// A menu drawn with the plain theme.
    pub fn new() -> (r: Checkboxes<'static>)
        ensures
            r.wf(),
            r.items@.len() == 0,
            r.prompt is None,
            r.clear,
            !r.paged,
    {
        Checkboxes::with_theme(&SimpleTheme)
    }

    /// A menu drawn with `theme`.
    pub fn with_theme(theme: &'a dyn Theme) -> (r: Checkboxes<'a>)
        ensures
            r.wf(),
            r.items@.len() == 0,
            r.prompt is None,
            r.clear,
            !r.paged,
    {
        Checkboxes {
            defaults: Vec::new(),
            items: Vec::new(),
            prompt: None,
            clear: true,
            theme,
            paged: false,
        }
    }

    /// Turns paging on or off.
    pub fn paged(&mut self, val: bool) -> (r: &mut Checkboxes<'a>)
        ensures
            *r == (Checkboxes { paged: val, ..*old(self) }),
            *final(self) == *final(r),
    {
        self.paged = val;
        self
    }

    /// Sets whether the menu is erased once answered.
    pub fn clear(&mut self, val: bool) -> (r: &mut Checkboxes<'a>)
        ensures
            *r == (Checkboxes { clear: val, ..*old(self) }),
            *final(self) == *final(r),
    {
        self.clear = val;
        self
    }

    /// Sets which of the items added so far start checked: `val` in order, cut to the items,
    /// and unchecked past its end.
    pub fn defaults(&mut self, val: &[bool]) -> (r: &mut Checkboxes<'a>)
        ensures
            r.defaults@ == flags_for(val@, old(self).items@.len()),
            *r == (Checkboxes { defaults: r.defaults, ..*old(self) }),
            *final(self) == *final(r),
    {
        let n = self.items.len();
        let mut d: Vec<bool> = Vec::with_capacity(n);
        let mut i: usize = 0;
        while i < n
            invariant
                n == self.items@.len(),
                i <= n,
                d@ =~= flags_for(val@, i as nat),
            decreases n - i,
        {
            if i < val.len() {
                d.push(val[i]);
            } else {
                d.push(false);
            }
            i += 1;
        }
        self.defaults = d;
        self
    }

    /// Adds one unchecked item.
    pub fn item<T: std::fmt::Display>(&mut self, item: T) -> (r: &mut Checkboxes<'a>)
        ensures
            appended(old(self).items@, seq![item], r.items@),
            r.defaults@ == old(self).defaults@.push(false),
            *r == (Checkboxes { items: r.items, defaults: r.defaults, ..*old(self) }),
            *final(self) == *final(r),
    {
        self.item_checked(item, false)
    }

    /// Adds one item, checked at the start or not.
    pub fn item_checked<T: std::fmt::Display>(&mut self, item: T, checked: bool) -> (r:
        &mut Checkboxes<'a>)
        ensures
            appended(old(self).items@, seq![item], r.items@),
            r.defaults@ == old(self).defaults@.push(checked),
            *r == (Checkboxes { items: r.items, defaults: r.defaults, ..*old(self) }),
            *final(self) == *final(r),
    {
        let s = item.to_string();
        self.items.push(s);
        self.defaults.push(checked);
        proof {
            assert(seq![item][0] == item);
        }
        self
    }

    /// Adds several unchecked items.
    pub fn items<T: std::fmt::Display>(&mut self, items: &[T]) -> (r: &mut Checkboxes<'a>)
        ensures
            appended(old(self).items@, items@, r.items@),
            r.defaults@ == old(self).defaults@ + Seq::new(items@.len(), |i: int| false),
            *r == (Checkboxes { items: r.items, defaults: r.defaults, ..*old(self) }),
            *final(self) == *final(r),
    {
        push_texts(&mut self.items, items);
        push_unchecked(&mut self.defaults, items.len());
        self
    }

    /// Adds several items, each with whether it starts checked.
    pub fn items_checked<T: std::fmt::Display>(&mut self, items: &[(T, bool)]) -> (r:
        &mut Checkboxes<'a>)
        ensures
            r.items@.len() == old(self).items@.len() + items@.len(),
            forall|i: int| 0 <= i < old(self).items@.len() ==> r.items@[i] == old(self).items@[i],
            forall|j: int|
                0 <= j < items@.len() ==> vstd::string::to_string_from_display_ensures::<T>(
                    &items@[j].0,
                    #[trigger] r.items@[old(self).items@.len() + j],
                ),
            r.defaults@ == old(self).defaults@ + Seq::new(items@.len(), |j: int| items@[j].1),
            *r == (Checkboxes { items: r.items, defaults: r.defaults, ..*old(self) }),
            *final(self) == *final(r),
    {
        push_checked_items(&mut self.items, &mut self.defaults, items);
        self
    }

    /// Opens the menu with a prompt, and closes it with the prompt and the choices.
    pub fn with_prompt(&mut self, prompt: &str) -> (r: &mut Checkboxes<'a>)
        ensures
            r.prompt matches Some(p) && p@ == prompt@,
            *r == (Checkboxes { prompt: r.prompt, ..*old(self) }),
            *final(self) == *final(r),
    {
        self.prompt = Some(String::from_str(prompt));
        self
    }
}

/// What a checkbox menu being answered holds.
pub ghost struct CheckModel {
    pub nav: Nav,
    pub checked: Seq<bool>,
    pub defaults: Seq<bool>,
}

impl CheckModel {
    /// The cursor is always on a row, and there is one flag per row.
    pub open spec fn wf(&self) -> bool {
        &&& self.nav.wf()
        &&& self.nav.cursor is Some
        &&& self.checked.len() == self.nav.n
        &&& self.defaults.len() == self.nav.n
    }

    /// Enter confirms and Escape cancels.
    pub open spec fn finishes(&self, k: Key) -> bool {
        k == Key::Enter || k == Key::Escape
    }

    /// A cancel gives back the items checked at the start; a confirm those checked now.
    pub open spec fn result(&self, k: Key) -> Seq<usize> {
        if k == Key::Escape {
            checked_indices(self.defaults)
        } else {
            checked_indices(self.checked)
        }
    }

    /// After a key that does not finish: space flips the current row, moves move.
    pub open spec fn next(&self, k: Key) -> CheckModel {
        if is_space(k) {
            let c = self.nav.cursor->Some_0 as int;
            CheckModel { checked: self.checked.update(c, !self.checked[c]), ..*self }
        } else {
            CheckModel { nav: nav_after(self.nav, k), ..*self }
        }
    }

    /// The state after each of `keys` in turn, none of them taken as finishing.
    pub open spec fn after(&self, keys: Seq<Key>) -> CheckModel
        decreases keys.len(),
    {
        if keys.len() == 0 {
            *self
        } else {
            self.next(keys[0]).after(keys.drop_first())
        }
    }
}

/// Any keys keep the model well formed and the flags of the start untouched.
pub proof fn lemma_keys_keep_defaults(m: CheckModel, keys: Seq<Key>)
    requires
        m.wf(),
    ensures
        m.after(keys).wf(),
        m.after(keys).defaults == m.defaults,
    decreases keys.len(),
{
    if keys.len() > 0 {
        m.nav.lemma_moves_keep_wf();
        lemma_keys_keep_defaults(m.next(keys[0]), keys.drop_first());
    }
}

/// Cancelling gives back exactly the items checked at the start, whatever was toggled
/// before.
pub proof fn lemma_cancel_restores_defaults(m: CheckModel, keys: Seq<Key>)
    requires
        m.wf(),
    ensures
        m.after(keys).finishes(Key::Escape),
        m.after(keys).result(Key::Escape) == checked_indices(m.defaults),
{
    lemma_keys_keep_defaults(m, keys);
}

/// A checkbox menu while it is answered.
pub struct CheckState {
    pub nav: Nav,
    pub checked: Vec<bool>,
    pub defaults: Vec<bool>,
}

impl View for CheckState {
    type V = CheckModel;

    open spec fn view(&self) -> CheckModel {
        CheckModel { nav: self.nav, checked: self.checked@, defaults: self.defaults@ }
    }
}

impl CheckState {
    /// The state at the start: cursor on the first row, each row checked as `defaults` says.
    pub fn new(paged: bool, rows: usize, defaults: &Vec<bool>) -> (r: CheckState)
        requires
            defaults@.len() >= 1,
        ensures
            r@.wf(),
            r.nav.n == defaults@.len(),
            r.nav.paged == paged,
            r.nav.capacity == (if !paged {
                defaults@.len() as usize
            } else if rows >= 2 {
                (rows - 1) as usize
            } else {
                1
            }),
            r.nav.cursor == Some(0usize),
            r.checked@ == defaults@,
            r.defaults@ == defaults@,
    {
        let n = defaults.len();
        CheckState {
            nav: Nav::new(n, paged, rows, Some(0)),
            checked: defaults.clone(),
            defaults: defaults.clone(),
        }
    }

    /// Handles one key.
    pub fn step(&mut self, k: Key) -> (r: Step<Vec<usize>>)
        requires
            old(self)@.wf(),
        ensures
            final(self)@.wf(),
            match r {
                Step::Finish(res) => old(self)@.finishes(k) && res@ == old(self)@.result(k)
                    && final(self)@ == old(self)@,
                Step::Continue => !old(self)@.finishes(k) && final(self)@ == old(self)@.next(k),
            },
    {
        if k == Key::Escape {
            return Step::Finish(indices_of_checked(&self.defaults));
        }
        if k == Key::Enter {
            return Step::Finish(indices_of_checked(&self.checked));
        }
        proof {
            self.nav.lemma_moves_keep_wf();
        }
        if k == Key::Space || k == Key::Char(' ') {
            let c = match self.nav.cursor {
                Some(c) => c,
                None => 0,
            };
            let v = self.checked[c];
            self.checked.set(c, !v);
        } else {
            self.nav.apply(k);
        }
        Step::Continue
    }
}

} // verus!
