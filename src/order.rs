use vstd::prelude::*;

verus! {

/// `s` is a bijection on `0..n`: each of `0..n` occurs in it exactly once.
pub open spec fn is_permutation(s: Seq<usize>, n: nat) -> bool {
    &&& s.len() == n
    &&& forall|i: int| 0 <= i < s.len() ==> #[trigger] s[i] < n
    &&& forall|i: int, j: int| 0 <= i < s.len() && 0 <= j < s.len() && i != j ==> s[i] != s[j]
    &&& forall|v: usize| v < n ==> #[trigger] occurs(s, v)
}

/// `v` stands somewhere in `s`.
pub open spec fn occurs(s: Seq<usize>, v: usize) -> bool {
    exists|i: int| 0 <= i < s.len() && s[i] == v
}

/// The identity order `0, 1, .., n - 1`.
pub open spec fn identity(n: nat) -> Seq<usize> {
    Seq::new(n, |i: int| i as usize)
}

/// The row next to `i` in a list of `n` rows, moving down (`forward`) or up, wrapping.
pub open spec fn neighbour(i: int, n: int, forward: bool) -> int {
    if forward {
        if i + 1 == n {
            0
        } else {
            i + 1
        }
    } else {
        if i == 0 {
            n - 1
        } else {
            i - 1
        }
    }
}

/// Rows passed from `from` to `i` moving down (`forward`) or up, wrapping.
pub open spec fn distance(from: int, i: int, n: int, forward: bool) -> int {
    if forward {
        if i >= from {
            i - from
        } else {
            i + n - from
        }
    } else {
        if i <= from {
            from - i
        } else {
            from + n - i
        }
    }
}

/// `order` after its entry at `from` has been carried `k` rows down (`forward`) or up,
/// wrapping: it lands `k` rows on, and each entry it passes moves one row back towards
/// `from`. Every other entry stays.
pub open spec fn carried(order: Seq<usize>, from: int, k: int, forward: bool) -> Seq<usize> {
    Seq::new(
        order.len(),
        |i: int|
            {
                let d = distance(from, i, order.len() as int, forward);
                if d < k {
                    order[neighbour(i, order.len() as int, forward)]
                } else if d == k {
                    order[from]
                } else {
                    order[i]
                }
            },
    )
}

/// `s` with the entries at `a` and `b` exchanged.
pub open spec fn swapped(s: Seq<usize>, a: int, b: int) -> Seq<usize> {
    s.update(a, s[b]).update(b, s[a])
}

/// Exchanging two entries keeps a permutation a permutation.
pub proof fn lemma_swap_keeps_permutation(s: Seq<usize>, n: nat, a: int, b: int)
    requires
        is_permutation(s, n),
        0 <= a < n,
        0 <= b < n,
    ensures
        is_permutation(swapped(s, a, b), n),
{
    let t = swapped(s, a, b);
    assert forall|v: usize| v < n implies #[trigger] occurs(t, v) by {
        assert(occurs(s, v));
        let i = choose|i: int| 0 <= i < s.len() && s[i] == v;
        if i == a {
            assert(t[b] == v);
        } else if i == b {
            assert(t[a] == v);
        } else {
            assert(t[i] == v);
        }
    }
}

/// One more row carried is one more exchange, between the entry's row and the next.
proof fn lemma_carry_one_more(order: Seq<usize>, from: int, k: int, forward: bool)
    requires
        0 <= from < order.len(),
        0 <= k,
        k + 1 < order.len(),
    ensures
        ({
            let n = order.len() as int;
            let at = if forward {
                if from + k < n {
                    from + k
                } else {
                    from + k - n
                }
            } else {
                if k <= from {
                    from - k
                } else {
                    from - k + n
                }
            };
            &&& 0 <= at < n
            &&& distance(from, at, n, forward) == k
            &&& distance(from, neighbour(at, n, forward), n, forward) == k + 1
            &&& carried(order, from, k + 1, forward) =~= swapped(
                carried(order, from, k, forward),
                at,
                neighbour(at, n, forward),
            )
        }),
{
}

/// Carrying an entry keeps a permutation a permutation.
pub proof fn lemma_carry_keeps_permutation(order: Seq<usize>, n: nat, from: int, k: int, forward: bool)
    requires
        is_permutation(order, n),
        0 <= from < n,
        0 <= k < n,
    ensures
        is_permutation(carried(order, from, k, forward), n),
    decreases k,
{
    if k == 0 {
        assert(carried(order, from, 0, forward) =~= order);
    } else {
        lemma_carry_keeps_permutation(order, n, from, k - 1, forward);
        lemma_carry_one_more(order, from, k - 1, forward);
        let n_ = order.len() as int;
        let at = if forward {
            if from + k - 1 < n_ {
                from + k - 1
            } else {
                from + k - 1 - n_
            }
        } else {
            if k - 1 <= from {
                from - (k - 1)
            } else {
                from - (k - 1) + n_
            }
        };
        lemma_swap_keeps_permutation(
            carried(order, from, k - 1, forward),
            n,
            at,
            neighbour(at, n_, forward),
        );
    }
}

/// The identity order is a permutation.
pub proof fn lemma_identity_is_permutation(n: nat)
    requires
        n <= usize::MAX,
    ensures
        is_permutation(identity(n), n),
{
    let s = identity(n);
    assert forall|v: usize| v < n implies #[trigger] occurs(s, v) by {
        assert(s[v as int] == v);
    }
}

/// Exchanges the entries at rows `a` and `b`.
pub fn swap_rows(order: &mut Vec<usize>, a: usize, b: usize)
    requires
        a < old(order)@.len(),
        b < old(order)@.len(),
    ensures
        final(order)@ == swapped(old(order)@, a as int, b as int),
{
    let x = order[a];
    let y = order[b];
    order.set(a, y);
    order.set(b, x);
}

/// The order `0, 1, .., n - 1`.
pub fn identity_order(n: usize) -> (r: Vec<usize>)
    ensures
        r@ == identity(n as nat),
{
    let mut r: Vec<usize> = Vec::with_capacity(n);
    let mut i: usize = 0;
    while i < n
        invariant
            i <= n,
            r@ == identity(i as nat),
        decreases n - i,
    {
        r.push(i);
        i += 1;
        proof {
            assert(r@ =~= identity(i as nat));
        }
    }
    r
}

/// Carries the entry at row `from` to row `to`, moving down (`forward`) or up and wrapping
/// past the end of the list, by a chain of exchanges of neighbouring rows: each entry it
/// passes moves one row back towards `from`.
pub fn carry(order: &mut Vec<usize>, from: usize, to: usize, forward: bool)
    requires
        from < old(order)@.len(),
        to < old(order)@.len(),
    ensures
        final(order)@ == carried(
            old(order)@,
            from as int,
            distance(from as int, to as int, old(order)@.len() as int, forward),
            forward,
        ),
{
    let n = order.len();
    let ghost start = order@;
    let ghost k = distance(from as int, to as int, n as int, forward);
    let mut at = from;
    let ghost mut j: int = 0;
    proof {
        assert(carried(start, from as int, 0, forward) =~= start);
    }
    while at != to
        invariant
            n == start.len(),
            order@.len() == n,
            at < n,
            to < n,
            from < n,
            k == distance(from as int, to as int, n as int, forward),
            0 <= j <= k,
            at == (if forward {
                if from + j < n {
                    from + j
                } else {
                    from + j - n
                }
            } else {
                if j <= from {
                    from - j
                } else {
                    from - j + n
                }
            }),
            order@ == carried(start, from as int, j, forward),
        decreases k - j,
    {
        proof {
            lemma_carry_one_more(start, from as int, j, forward);
        }
        let next = if forward {
            if at + 1 == n {
                0
            } else {
                at + 1
            }
        } else {
            if at == 0 {
                n - 1
            } else {
                at - 1
            }
        };
        swap_rows(order, at, next);
        at = next;
        proof {
            j = j + 1;
        }
    }
}

} // verus!
