use vstd::prelude::*;
use vstd::arithmetic::div_mod::{
    lemma_fundamental_div_mod,
    lemma_fundamental_div_mod_converse_div,
    lemma_small_mod,
};

verus! {

/// Abstract key event handed to the prompt controllers.
#[derive(Clone, Copy, Debug, PartialEq, Eq, Structural)]
pub enum Key {
    Up,
    Down,
    Left,
    Right,
    Enter,
    Space,
    Escape,
    Char(char),
}

/// What a controller reports after handling one key.
#[derive(Debug, PartialEq, Eq)]
pub enum Step<T> {
    /// Keep reading keys.
    Continue,
    /// The interaction is over with this result.
    Finish(T),
}

/// Keys that move the cursor down.
pub open spec fn is_down(k: Key) -> bool {
    k == Key::Down || k == Key::Char('j')
}

/// Keys that move the cursor up.
pub open spec fn is_up(k: Key) -> bool {
    k == Key::Up || k == Key::Char('k')
}

/// Keys that move to the previous page.
pub open spec fn is_left(k: Key) -> bool {
    k == Key::Left || k == Key::Char('h')
}

/// Keys that move to the next page.
pub open spec fn is_right(k: Key) -> bool {
    k == Key::Right || k == Key::Char('l')
}

/// Keys that toggle the current row.
pub open spec fn is_space(k: Key) -> bool {
    k == Key::Space || k == Key::Char(' ')
}

/// The navigation after a key: vertical and page moves change it, other keys leave it.
pub open spec fn nav_after(nav: Nav, k: Key) -> Nav {
    if is_down(k) {
        nav.moved_down()
    } else if is_up(k) {
        nav.moved_up()
    } else if is_left(k) {
        nav.paged_left()
    } else if is_right(k) {
        nav.paged_right()
    } else {
        nav
    }
}

/// A set cursor lies on a row of the list.
pub open spec fn cursor_ok(cursor: Option<usize>, n: nat) -> bool {
    match cursor {
        Some(c) => c < n,
        None => true,
    }
}

/// Row reached by moving one row down; an unset cursor enters at the first row.
pub open spec fn next_index(cursor: Option<usize>, n: nat) -> nat
    recommends
        n >= 1,
{
    match cursor {
        Some(c) => ((c + 1) as nat) % n,
        None => 0,
    }
}

/// Row reached by moving one row up; an unset cursor enters at the last row.
pub open spec fn prev_index(cursor: Option<usize>, n: nat) -> nat
    recommends
        n >= 1,
{
    match cursor {
        Some(c) => ((c + n - 1) as nat) % n,
        None => (n - 1) as nat,
    }
}

/// Number of pages needed to show `n` rows, `capacity` at a time: `ceil(n / capacity)`.
pub open spec fn page_count(n: nat, capacity: nat) -> nat
    recommends
        capacity >= 1,
{
    ((n + capacity - 1) as nat) / capacity
}

/// Page holding row `i`.
pub open spec fn page_of(i: nat, capacity: nat) -> nat
    recommends
        capacity >= 1,
{
    i / capacity
}

/// Page after `page`, wrapping from the last page to the first.
pub open spec fn next_page(page: nat, pages: nat) -> nat
    recommends
        pages >= 1,
{
    ((page + 1) as nat) % pages
}

/// Page before `page`, wrapping from the first page to the last.
pub open spec fn prev_page(page: nat, pages: nat) -> nat
    recommends
        pages >= 1,
{
    ((page + pages - 1) as nat) % pages
}

/// `q <= x / d` exactly when `q * d <= x`.
pub proof fn lemma_le_div(q: int, x: int, d: int)
    requires
        d >= 1,
        x >= 0,
        q >= 0,
    ensures
        q <= x / d <==> q * d <= x,
{
    lemma_fundamental_div_mod(x, d);
    let k = x / d;
    let r = x % d;
    assert(x == d * k + r);
    assert(0 <= r < d);
    if q <= k {
        assert(q * d <= k * d) by (nonlinear_arith)
            requires
                q <= k,
                d >= 1,
        ;
        assert(k * d == d * k) by (nonlinear_arith);
    } else {
        assert(q * d >= (k + 1) * d) by (nonlinear_arith)
            requires
                q >= k + 1,
                d >= 1,
        ;
        assert((k + 1) * d == d * k + d) by (nonlinear_arith);
    }
}

/// A page exists exactly when its first row is a row of the list.
pub proof fn lemma_page_exists(page: nat, n: nat, capacity: nat)
    requires
        capacity >= 1,
    ensures
        page < page_count(n, capacity) <==> page * capacity < n,
{
    lemma_le_div(page + 1 as int, (n + capacity - 1) as int, capacity as int);
    assert((page + 1) * capacity == page * capacity + capacity) by (nonlinear_arith);
}

/// A row between the first row of `page` and the first row of the next page lies on `page`.
pub proof fn lemma_row_on_page(i: nat, page: nat, capacity: nat)
    requires
        capacity >= 1,
        page * capacity <= i < page * capacity + capacity,
    ensures
        page_of(i, capacity) == page,
{
    assert(page * capacity == capacity * page) by (nonlinear_arith);
    lemma_fundamental_div_mod_converse_div(
        i as int,
        capacity as int,
        page as int,
        i - page * capacity,
    );
}

/// The rows of `page_of(i)` are those from `page_of(i) * capacity` up to the next page.
pub proof fn lemma_page_bounds(i: nat, capacity: nat)
    requires
        capacity >= 1,
    ensures
        page_of(i, capacity) * capacity <= i < page_of(i, capacity) * capacity + capacity,
{
    lemma_fundamental_div_mod(i as int, capacity as int);
    assert(page_of(i, capacity) * capacity == capacity * (i as int / capacity as int))
        by (nonlinear_arith);
}

/// `x % m` for `x` in `0..2m`, without the division.
proof fn lemma_mod_once(x: nat, m: nat)
    requires
        m >= 1,
        x < 2 * m,
    ensures
        x % m == (if x < m { x } else { (x - m) as nat }),
{
    if x < m {
        lemma_small_mod(x, m);
    } else {
        lemma_fundamental_div_mod_converse_div(x as int, m as int, 1, x - m);
        lemma_fundamental_div_mod(x as int, m as int);
    }
}

/// Moves the cursor one row down, wrapping from the last row to the first.
pub fn move_next(cursor: Option<usize>, n: usize) -> (r: usize)
    requires
        n >= 1,
        cursor_ok(cursor, n as nat),
    ensures
        r == next_index(cursor, n as nat),
        r < n,
{
    match cursor {
        Some(c) => {
            proof {
                lemma_mod_once((c + 1) as nat, n as nat);
            }
            if c + 1 == n {
                0
            } else {
                c + 1
            }
        },
        None => 0,
    }
}

/// Moves the cursor one row up, wrapping from the first row to the last.
pub fn move_prev(cursor: Option<usize>, n: usize) -> (r: usize)
    requires
        n >= 1,
        cursor_ok(cursor, n as nat),
    ensures
        r == prev_index(cursor, n as nat),
        r < n,
{
    match cursor {
        Some(c) => {
            proof {
                lemma_mod_once((c + n - 1) as nat, n as nat);
            }
            if c == 0 {
                n - 1
            } else {
                c - 1
            }
        },
        None => n - 1,
    }
}

/// Number of pages for `n` rows shown `capacity` at a time.
pub fn pages_for(n: usize, capacity: usize) -> (r: usize)
    requires
        capacity >= 1,
    ensures
        r == page_count(n as nat, capacity as nat),
{
    let full = n / capacity;
    let rest = n % capacity;
    proof {
        lemma_fundamental_div_mod(n as int, capacity as int);
        let m = (n + capacity - 1) as int;
        if rest == 0 {
            lemma_fundamental_div_mod_converse_div(m, capacity as int, full as int, capacity - 1);
        } else {
            assert(capacity * (full + 1) == capacity * full + capacity) by (nonlinear_arith);
            lemma_fundamental_div_mod_converse_div(m, capacity as int, full + 1, rest - 1);
            assert(full * 2 <= capacity * full) by (nonlinear_arith)
                requires
                    capacity >= 2,
            ;
        }
    }
    if rest == 0 {
        full
    } else {
        full + 1
    }
}

/// The page after `page`, wrapping around.
pub fn page_next(page: usize, pages: usize) -> (r: usize)
    requires
        page < pages,
    ensures
        r == next_page(page as nat, pages as nat),
        r < pages,
{
    proof {
        lemma_mod_once((page + 1) as nat, pages as nat);
    }
    if page + 1 == pages {
        0
    } else {
        page + 1
    }
}

/// The page before `page`, wrapping around.
pub fn page_prev(page: usize, pages: usize) -> (r: usize)
    requires
        page < pages,
    ensures
        r == prev_page(page as nat, pages as nat),
        r < pages,
{
    proof {
        lemma_mod_once((page + pages - 1) as nat, pages as nat);
    }
    if page == 0 {
        pages - 1
    } else {
        page - 1
    }
}

/// The page to show once the cursor sits on `cursor`: the current page while it holds the
/// cursor, else the page of the cursor.
pub fn recompute_page(cursor: usize, page: usize, capacity: usize) -> (r: usize)
    requires
        capacity >= 1,
    ensures
        r == page_of(cursor as nat, capacity as nat),
{
    let holding = cursor / capacity;
    if holding != page {
        holding
    } else {
        page
    }
}

/// Rows shown at once: all of them without paging, else the terminal's height less the
/// prompt line (and at least one).
pub fn capacity_for(paged: bool, rows: usize, n: usize) -> (r: usize)
    ensures
        r == (if !paged {
            n
        } else if rows >= 2 {
            (rows - 1) as usize
        } else {
            1
        }),
{
    if !paged {
        n
    } else if rows >= 2 {
        rows - 1
    } else {
        1
    }
}

/// Cursor and page of a list of `n` rows shown `capacity` rows at a time.
#[derive(Clone, Copy, Debug, PartialEq, Eq, Structural)]
pub struct Nav {
    pub n: usize,
    pub capacity: usize,
    pub pages: usize,
    pub paged: bool,
    pub cursor: Option<usize>,
    pub page: usize,
}

/// The page shown for a cursor: the cursor's page, or the first page while it is unset.
pub open spec fn page_shown(cursor: Option<usize>, capacity: nat) -> nat {
    match cursor {
        Some(c) => page_of(c as nat, capacity),
        None => 0,
    }
}

impl Nav {
    /// The page always holds the cursor, and the cursor lies on the list.
    pub open spec fn wf(&self) -> bool {
        &&& self.n >= 1
        &&& self.capacity >= 1
        &&& (!self.paged ==> self.capacity == self.n)
        &&& self.pages == page_count(self.n as nat, self.capacity as nat)
        &&& cursor_ok(self.cursor, self.n as nat)
        &&& self.page == page_shown(self.cursor, self.capacity as nat)
    }

    /// The same navigation with the cursor on `c` and the page that holds it.
    pub open spec fn at(&self, c: nat) -> Nav {
        Nav {
            cursor: Some(c as usize),
            page: page_of(c, self.capacity as nat) as usize,
            ..*self
        }
    }

    /// The same navigation showing page `p` with the cursor on its first row.
    pub open spec fn on_page(&self, p: nat) -> Nav {
        Nav { cursor: Some((p * self.capacity) as usize), page: p as usize, ..*self }
    }

    /// After a move one row down.
    pub open spec fn moved_down(&self) -> Nav {
        self.at(next_index(self.cursor, self.n as nat))
    }

    /// After a move one row up.
    pub open spec fn moved_up(&self) -> Nav {
        self.at(prev_index(self.cursor, self.n as nat))
    }

    /// After a move to the previous page: only with paging.
    pub open spec fn paged_left(&self) -> Nav {
        if self.paged {
            self.on_page(prev_page(self.page as nat, self.pages as nat))
        } else {
            *self
        }
    }

    /// After a move to the next page: only with paging.
    pub open spec fn paged_right(&self) -> Nav {
        if self.paged {
            self.on_page(next_page(self.page as nat, self.pages as nat))
        } else {
            *self
        }
    }

    /// Navigation over `n` rows; `rows` is the terminal's height, used when `paged`. A start
    /// outside the list leaves the cursor unset.
    pub fn new(n: usize, paged: bool, rows: usize, start: Option<usize>) -> (r: Nav)
        requires
            n >= 1,
        ensures
            r.wf(),
            r.n == n,
            r.paged == paged,
            r.capacity == (if !paged {
                n
            } else if rows >= 2 {
                (rows - 1) as usize
            } else {
                1
            }),
            r.cursor == (match start {
                Some(c) => if c < n {
                    Some(c)
                } else {
                    None
                },
                None => None,
            }),
    {
        let capacity = capacity_for(paged, rows, n);
        let pages = pages_for(n, capacity);
        let cursor = match start {
            Some(c) => if c < n {
                Some(c)
            } else {
                None
            },
            None => None,
        };
        let page = match cursor {
            Some(c) => c / capacity,
            None => 0,
        };
        Nav { n, capacity, pages, paged, cursor, page }
    }

    /// Page `p` exists: its first row is a row of the list.
    proof fn lemma_first_row(&self, p: nat)
        requires
            self.wf(),
            p < self.pages,
        ensures
            p * self.capacity < self.n,
            page_of(p * (self.capacity as nat), self.capacity as nat) == p,
    {
        lemma_page_exists(p, self.n as nat, self.capacity as nat);
        lemma_row_on_page(p * (self.capacity as nat), p, self.capacity as nat);
    }

    /// The page shown lies among the pages.
    pub proof fn lemma_page_in_range(&self)
        requires
            self.wf(),
        ensures
            self.page < self.pages,
    {
        let cap = self.capacity as nat;
        match self.cursor {
            Some(c) => {
                lemma_page_bounds(c as nat, cap);
                lemma_page_exists(page_of(c as nat, cap), self.n as nat, cap);
            },
            None => {
                lemma_page_exists(0, self.n as nat, cap);
            },
        }
    }

    /// Every move keeps the navigation well formed, and a set cursor set.
    pub proof fn lemma_moves_keep_wf(&self)
        requires
            self.wf(),
        ensures
            self.moved_down().wf(),
            self.moved_up().wf(),
            self.paged_left().wf(),
            self.paged_right().wf(),
            self.moved_down().cursor is Some,
            self.moved_up().cursor is Some,
            self.cursor is Some ==> self.paged_left().cursor is Some,
            self.cursor is Some ==> self.paged_right().cursor is Some,
    {
        let n = self.n as nat;
        match self.cursor {
            Some(x) => {
                lemma_mod_once((x + 1) as nat, n);
                lemma_mod_once((x + n - 1) as nat, n);
            },
            None => {},
        }
        self.lemma_page_in_range();
        if self.paged {
            let pages = self.pages as nat;
            lemma_mod_once((self.page + 1) as nat, pages);
            lemma_mod_once((self.page + pages - 1) as nat, pages);
            self.lemma_first_row(prev_page(self.page as nat, pages));
            self.lemma_first_row(next_page(self.page as nat, pages));
        }
    }

    /// Moves the cursor one row down, wrapping, and shows its page.
    pub fn down(&mut self)
        requires
            old(self).wf(),
        ensures
            *final(self) == old(self).moved_down(),
            final(self).wf(),
    {
        let c = move_next(self.cursor, self.n);
        self.page = recompute_page(c, self.page, self.capacity);
        self.cursor = Some(c);
    }

    /// Moves the cursor one row up, wrapping, and shows its page.
    pub fn up(&mut self)
        requires
            old(self).wf(),
        ensures
            *final(self) == old(self).moved_up(),
            final(self).wf(),
    {
        let c = move_prev(self.cursor, self.n);
        self.page = recompute_page(c, self.page, self.capacity);
        self.cursor = Some(c);
    }

    /// With paging, shows the previous page (wrapping) and puts the cursor on its first row;
    /// without paging, does nothing.
    pub fn left(&mut self)
        requires
            old(self).wf(),
        ensures
            *final(self) == old(self).paged_left(),
            final(self).wf(),
    {
        if self.paged {
            proof {
                self.lemma_page_in_range();
            }
            let p = page_prev(self.page, self.pages);
            proof {
                self.lemma_first_row(p as nat);
            }
            self.page = p;
            self.cursor = Some(p * self.capacity);
        }
    }

    /// With paging, shows the next page (wrapping) and puts the cursor on its first row;
    /// without paging, does nothing.
    pub fn right(&mut self)
        requires
            old(self).wf(),
        ensures
            *final(self) == old(self).paged_right(),
            final(self).wf(),
    {
        if self.paged {
            proof {
                self.lemma_page_in_range();
            }
            let p = page_next(self.page, self.pages);
            proof {
                self.lemma_first_row(p as nat);
            }
            self.page = p;
            self.cursor = Some(p * self.capacity);
        }
    }

    /// Applies the move that `k` asks for, if any.
    pub fn apply(&mut self, k: Key)
        requires
            old(self).wf(),
        ensures
            *final(self) == nav_after(*old(self), k),
            final(self).wf(),
    {
        if k == Key::Down || k == Key::Char('j') {
            self.down();
        } else if k == Key::Up || k == Key::Char('k') {
            self.up();
        } else if k == Key::Left || k == Key::Char('h') {
            self.left();
        } else if k == Key::Right || k == Key::Char('l') {
            self.right();
        }
    }

    /// The rows on the page shown: from `r.0` up to, not including, `r.1`.
    pub fn visible(&self) -> (r: (usize, usize))
        requires
            self.wf(),
        ensures
            r.0 == self.page * self.capacity,
            r.1 == (if self.page * self.capacity + self.capacity <= self.n {
                self.page * self.capacity + self.capacity
            } else {
                self.n as int
            }),
            r.0 < r.1 <= self.n,
    {
        proof {
            self.lemma_page_in_range();
            lemma_page_exists(self.page as nat, self.n as nat, self.capacity as nat);
        }
        let start = self.page * self.capacity;
        let end = if self.capacity <= self.n - start {
            start + self.capacity
        } else {
            self.n
        };
        (start, end)
    }
}

/// The cursor after a sequence of vertical moves, `Key::Up` moving up and any other key down.
pub open spec fn cursor_after(cursor: Option<usize>, n: nat, keys: Seq<Key>) -> Option<usize>
    decreases keys.len(),
{
    if keys.len() == 0 {
        cursor
    } else {
        let c = if keys[0] == Key::Up {
            prev_index(cursor, n)
        } else {
            next_index(cursor, n)
        };
        cursor_after(Some(c as usize), n, keys.drop_first())
    }
}

/// Vertical moves keep the cursor on the list: after at least one move it is set and below `n`.
pub proof fn lemma_moves_stay_on_list(cursor: Option<usize>, n: usize, keys: Seq<Key>)
    requires
        n >= 1,
        cursor_ok(cursor, n as nat),
        forall|i: int| 0 <= i < keys.len() ==> keys[i] == Key::Up || keys[i] == Key::Down,
    ensures
        cursor_ok(cursor_after(cursor, n as nat, keys), n as nat),
        keys.len() >= 1 ==> cursor_after(cursor, n as nat, keys) is Some,
    decreases keys.len(),
{
    if keys.len() > 0 {
        let c = if keys[0] == Key::Up {
            prev_index(cursor, n as nat)
        } else {
            next_index(cursor, n as nat)
        };
        assert(c < n) by {
            match cursor {
                Some(x) => {
                    lemma_mod_once((x + 1) as nat, n as nat);
                    lemma_mod_once((x + n - 1) as nat, n as nat);
                },
                None => {},
            }
        }
        let rest = keys.drop_first();
        assert forall|i: int| 0 <= i < rest.len() implies rest[i] == Key::Up || rest[i]
            == Key::Down by {
            assert(rest[i] == keys[i + 1]);
        }
        lemma_moves_stay_on_list(Some(c as usize), n, rest);
    }
}

/// A move down followed by a move up, or the reverse, returns a set cursor to its row.
pub proof fn lemma_next_prev_inverse(c: usize, n: usize)
    requires
        n >= 1,
        c < n,
    ensures
        prev_index(Some(next_index(Some(c), n as nat) as usize), n as nat) == c,
        next_index(Some(prev_index(Some(c), n as nat) as usize), n as nat) == c,
{
    lemma_mod_once((c + 1) as nat, n as nat);
    lemma_mod_once((c + n - 1) as nat, n as nat);
    let d = next_index(Some(c), n as nat);
    let u = prev_index(Some(c), n as nat);
    lemma_mod_once((d + n - 1) as nat, n as nat);
    lemma_mod_once((u + 1) as nat, n as nat);
}

/// Row `i` lies among the `capacity` rows of page `p`.
pub open spec fn row_on_page(i: nat, p: nat, capacity: nat) -> bool {
    p * capacity <= i < p * capacity + capacity
}

/// Every row lies on exactly one page, and that page exists.
pub proof fn lemma_rows_on_one_page(n: nat, capacity: nat, i: nat)
    requires
        capacity >= 1,
        i < n,
    ensures
        page_of(i, capacity) < page_count(n, capacity),
        forall|p: nat| #[trigger] row_on_page(i, p, capacity) <==> p == page_of(i, capacity),
{
    lemma_page_bounds(i, capacity);
    lemma_page_exists(page_of(i, capacity), n, capacity);
    assert forall|p: nat| #[trigger] row_on_page(i, p, capacity) implies p == page_of(i, capacity)
        by {
        lemma_row_on_page(i, p, capacity);
    }
}

/// The page reached after `k` moves to the next page.
pub open spec fn pages_forward(page: nat, pages: nat, k: nat) -> nat
    decreases k,
{
    if k == 0 {
        page
    } else {
        next_page(pages_forward(page, pages, (k - 1) as nat), pages)
    }
}

/// `k` moves forward from `page` land `k` pages on, modulo the page count.
proof fn lemma_pages_forward(page: nat, pages: nat, k: nat)
    requires
        page < pages,
        k <= pages,
    ensures
        pages_forward(page, pages, k) == (if page + k < pages {
            page + k
        } else {
            (page + k - pages) as nat
        }),
    decreases k,
{
    if k > 0 {
        lemma_pages_forward(page, pages, (k - 1) as nat);
        let q = pages_forward(page, pages, (k - 1) as nat);
        lemma_mod_once((q + 1) as nat, pages);
    }
}

/// Moving to the next page as many times as there are pages returns to the starting page.
pub proof fn lemma_pages_cycle(page: nat, pages: nat)
    requires
        page < pages,
    ensures
        pages_forward(page, pages, pages) == page,
{
    lemma_pages_forward(page, pages, pages);
}

} // verus!
