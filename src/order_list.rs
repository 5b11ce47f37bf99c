use vstd::prelude::*;
use vstd::string::StringExecFns;
use crate::nav::{Key, Nav, Step, is_down, is_left, is_right, is_space, is_up, nav_after};
use crate::order::{
    carried,
    carry,
    distance,
    identity,
    identity_order,
    is_permutation,
    lemma_carry_keeps_permutation,
    lemma_identity_is_permutation,
    lemma_swap_keeps_permutation,
    swap_rows,
    swapped,
};
use crate::select::{appended, push_texts};
use crate::theme::{SimpleTheme, Theme};

verus! {

/// A list to put in order: its items and how it is shown.
pub struct OrderList<'a> {
    pub items: Vec<String>,
    pub prompt: Option<String>,
    /// Whether the list is erased once answered.
    pub clear: bool,
    pub theme: &'a dyn Theme,
    pub paged: bool,
}

impl<'a> Default for OrderList<'a> {
    fn default() -> (r: OrderList<'a>)
        ensures
            r.items@.len() == 0,
            r.prompt is None,
            r.clear,
            !r.paged,
    {
        OrderList::new()
    }
}

impl<'a> OrderList<'a> {
    /// A list drawn with the plain theme.
    pub fn new() -> (r: OrderList<'static>)
        ensures
            r.items@.len() == 0,
            r.prompt is None,
            r.clear,
            !r.paged,
    {
        OrderList::with_theme(&SimpleTheme)
    }

    /// A list drawn with `theme`.
    pub fn with_theme(theme: &'a dyn Theme) -> (r: OrderList<'a>)
        ensures
            r.items@.len() == 0,
            r.prompt is None,
            r.clear,
            !r.paged,
    {
        OrderList { items: Vec::new(), prompt: None, clear: true, theme, paged: false }
    }

    /// Turns paging on or off.
    pub fn paged(&mut self, val: bool) -> (r: &mut OrderList<'a>)
        ensures
            *r == (OrderList { paged: val, ..*old(self) }),
            *final(self) == *final(r),
    {
        self.paged = val;
        self
    }

    /// Sets whether the list is erased once answered.
    pub fn clear(&mut self, val: bool) -> (r: &mut OrderList<'a>)
        ensures
            *r == (OrderList { clear: val, ..*old(self) }),
            *final(self) == *final(r),
    {
        self.clear = val;
        self
    }

    /// Adds one item.
    pub fn item<T: std::fmt::Display>(&mut self, item: T) -> (r: &mut OrderList<'a>)
        ensures
            appended(old(self).items@, seq![item], r.items@),
            *r == (OrderList { items: r.items, ..*old(self) }),
            *final(self) == *final(r),
    {
        let s = item.to_string();
        self.items.push(s);
        proof {
            assert(seq![item][0] == item);
        }
        self
    }

    /// Adds several items.
    pub fn items<T: std::fmt::Display>(&mut self, items: &[T]) -> (r: &mut OrderList<'a>)
        ensures
            appended(old(self).items@, items@, r.items@),
            *r == (OrderList { items: r.items, ..*old(self) }),
            *final(self) == *final(r),
    {
        push_texts(&mut self.items, items);
        self
    }

    /// Opens the list with a prompt, and closes it with the prompt and the final order.
    pub fn with_prompt(&mut self, prompt: &str) -> (r: &mut OrderList<'a>)
        ensures
            r.prompt matches Some(p) && p@ == prompt@,
            *r == (OrderList { prompt: r.prompt, ..*old(self) }),
            *final(self) == *final(r),
    {
        self.prompt = Some(String::from_str(prompt));
        self
    }
}

/// What a list being ordered holds: the display order of the items (item indices, top row
/// first) and whether the item under the cursor is being dragged.
pub ghost struct OrderModel {
    pub nav: Nav,
    pub order: Seq<usize>,
    pub dragging: bool,
}

impl OrderModel {
    /// The cursor is always on a row, and the order is a permutation of the items.
    pub open spec fn wf(&self) -> bool {
        &&& self.nav.wf()
        &&& self.nav.cursor is Some
        &&& is_permutation(self.order, self.nav.n as nat)
    }

    /// Enter confirms; there is no cancel.
    pub open spec fn finishes(&self, k: Key) -> bool {
        k == Key::Enter
    }

    /// The row under the cursor.
    pub open spec fn row(&self) -> int {
        self.nav.cursor->Some_0 as int
    }

    /// After a key that does not finish. Space starts or ends a drag. A move down or up
    /// carries a dragged item one row, exchanging it with its neighbour; a page move carries
    /// it to the first row of the new page, each row it passes moving one row back.
    pub open spec fn next(&self, k: Key) -> OrderModel {
        let nav = nav_after(self.nav, k);
        let to = nav.cursor->Some_0 as int;
        if is_space(k) {
            OrderModel { dragging: !self.dragging, ..*self }
        } else if is_down(k) || is_up(k) {
            OrderModel {
                nav,
                order: if self.dragging && self.row() != to {
                    swapped(self.order, self.row(), to)
                } else {
                    self.order
                },
                ..*self
            }
        } else if is_left(k) || is_right(k) {
            OrderModel {
                nav,
                order: if self.dragging && self.nav.paged {
                    carried(
                        self.order,
                        self.row(),
                        distance(self.row(), to, self.nav.n as int, is_right(k)),
                        is_right(k),
                    )
                } else {
                    self.order
                },
                ..*self
            }
        } else {
            *self
        }
    }

    /// The state after each of `keys` in turn, none of them taken as finishing.
    pub open spec fn after(&self, keys: Seq<Key>) -> OrderModel
        decreases keys.len(),
    {
        if keys.len() == 0 {
            *self
        } else {
            self.next(keys[0]).after(keys.drop_first())
        }
    }

    /// One key keeps the model well formed.
    pub proof fn lemma_next_keeps_wf(&self, k: Key)
        requires
            self.wf(),
        ensures
            self.next(k).wf(),
    {
        self.nav.lemma_moves_keep_wf();
        let nav = nav_after(self.nav, k);
        let n = self.nav.n as nat;
        if is_space(k) {
        } else if is_down(k) || is_up(k) {
            if self.dragging && self.row() != nav.cursor->Some_0 as int {
                lemma_swap_keeps_permutation(self.order, n, self.row(), nav.cursor->Some_0 as int);
            }
        } else if is_left(k) || is_right(k) {
            if self.dragging && self.nav.paged {
                let to = nav.cursor->Some_0 as int;
                lemma_carry_keeps_permutation(
                    self.order,
                    n,
                    self.row(),
                    distance(self.row(), to, n as int, is_right(k)),
                    is_right(k),
                );
            }
        }
    }
}

/// Whatever keys are pressed, drags across pages and wrapping moves included, the order
/// stays a permutation of the items: none is lost and none doubled.
pub proof fn lemma_order_stays_permutation(m: OrderModel, keys: Seq<Key>)
    requires
        m.wf(),
    ensures
        m.after(keys).wf(),
        is_permutation(m.after(keys).order, m.nav.n as nat),
        m.after(keys).nav.n == m.nav.n,
    decreases keys.len(),
{
    if keys.len() > 0 {
        m.lemma_next_keeps_wf(keys[0]);
        lemma_order_stays_permutation(m.next(keys[0]), keys.drop_first());
    }
}

/// A list being ordered.
pub struct OrderState {
    pub nav: Nav,
    pub order: Vec<usize>,
    pub dragging: bool,
}

impl View for OrderState {
    type V = OrderModel;

    open spec fn view(&self) -> OrderModel {
        OrderModel { nav: self.nav, order: self.order@, dragging: self.dragging }
    }
}

impl OrderState {
    /// The state at the start over `n` items: display order `0..n`, cursor on the first row,
    /// nothing dragged.
    pub fn new(n: usize, paged: bool, rows: usize) -> (r: OrderState)
        requires
            n >= 1,
        ensures
            r@.wf(),
            r.nav.n == n,
            r.nav.paged == paged,
            r.nav.capacity == (if !paged {
                n
            } else if rows >= 2 {
                (rows - 1) as usize
            } else {
                1
            }),
            r.nav.cursor == Some(0usize),
            r.order@ == identity(n as nat),
            !r.dragging,
    {
        proof {
            lemma_identity_is_permutation(n as nat);
        }
        OrderState { nav: Nav::new(n, paged, rows, Some(0)), order: identity_order(n), dragging: false }
    }

    /// Handles one key.
    pub fn step(&mut self, k: Key) -> (r: Step<Vec<usize>>)
        requires
            old(self)@.wf(),
        ensures
            final(self)@.wf(),
            match r {
                Step::Finish(res) => old(self)@.finishes(k) && res@ == old(self)@.order
                    && final(self)@ == old(self)@,
                Step::Continue => !old(self)@.finishes(k) && final(self)@ == old(self)@.next(k),
            },
    {
        proof {
            self@.lemma_next_keeps_wf(k);
            self.nav.lemma_moves_keep_wf();
        }
        if k == Key::Enter {
            return Step::Finish(self.order.clone());
        }
        let from = match self.nav.cursor {
            Some(c) => c,
            None => 0,
        };
        if k == Key::Space || k == Key::Char(' ') {
            self.dragging = !self.dragging;
        } else if k == Key::Down || k == Key::Char('j') || k == Key::Up || k == Key::Char('k') {
            self.nav.apply(k);
            let to = match self.nav.cursor {
                Some(c) => c,
                None => 0,
            };
            if self.dragging && from != to {
                swap_rows(&mut self.order, from, to);
            }
        } else if k == Key::Left || k == Key::Char('h') || k == Key::Right || k == Key::Char('l') {
            let forward = k == Key::Right || k == Key::Char('l');
            self.nav.apply(k);
            let to = match self.nav.cursor {
                Some(c) => c,
                None => 0,
            };
            if self.dragging && self.nav.paged {
                carry(&mut self.order, from, to, forward);
            }
        }
        Step::Continue
    }
}

} // verus!
