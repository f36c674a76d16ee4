//! Hyperliquid answers list a user's orders and fills for every coin: the
//! ones a query asks for are picked out here, in the order given, up to the
//! query's limit.
use crate::fill::Fill;
use crate::order::Order;
use crate::text::{opt_view, text_eq};
use vstd::prelude::*;

verus! {

/// The elements of `s` that `keep` accepts, in order.
pub open spec fn selected<T>(s: Seq<T>, keep: spec_fn(T) -> bool) -> Seq<T>
    decreases s.len(),
{
    if s.len() == 0 {
        Seq::empty()
    } else {
        let before = selected(s.drop_last(), keep);
        if keep(s.last()) {
            before.push(s.last())
        } else {
            before
        }
    }
}

/// The first `n` elements of `s` (all of them when it has fewer).
pub open spec fn first_n<T>(s: Seq<T>, n: nat) -> Seq<T> {
    if n < s.len() {
        s.take(n as int)
    } else {
        s
    }
}

/// How many items a query with `limit` gets at most: the limit, but at
/// least one, and `u32::MAX` without a limit.
pub open spec fn item_cap(limit: Option<u32>) -> nat {
    match limit {
        Some(l) => if l == 0 {
            1
        } else {
            l as nat
        },
        None => u32::MAX as nat,
    }
}

/// The selection from a prefix of `s` is a prefix of the selection from a
/// longer prefix.
pub proof fn lemma_selected_prefix<T>(s: Seq<T>, keep: spec_fn(T) -> bool, k: int, j: int)
    requires
        0 <= k <= j <= s.len(),
    ensures
        selected(s.take(k), keep).len() <= selected(s.take(j), keep).len(),
        selected(s.take(j), keep).take(selected(s.take(k), keep).len() as int) == selected(
            s.take(k),
            keep,
        ),
    decreases j - k,
{
    if k < j {
        lemma_selected_prefix(s, keep, k, j - 1);
        assert(s.take(j).drop_last() =~= s.take(j - 1));
        let a = selected(s.take(k), keep);
        let b = selected(s.take(j - 1), keep);
        let c = selected(s.take(j), keep);
        if keep(s.take(j).last()) {
            assert(c == b.push(s.take(j).last()));
            assert(c.take(a.len() as int) =~= b.take(a.len() as int));
        } else {
            assert(c == b);
        }
    } else {
        assert(selected(s.take(j), keep).take(selected(s.take(k), keep).len() as int) =~= selected(
            s.take(k),
            keep,
        ));
    }
}

/// The selection from `s` never grows longer than `s`.
pub proof fn lemma_selected_len<T>(s: Seq<T>, keep: spec_fn(T) -> bool)
    ensures
        selected(s, keep).len() <= s.len(),
    decreases s.len(),
{
    if s.len() > 0 {
        lemma_selected_len(s.drop_last(), keep);
    }
}

/// Whether an order is of the coin asked for (any coin without a filter).
pub open spec fn order_of_coin(coin: Option<Seq<char>>) -> spec_fn(Order) -> bool {
    |o: Order| match coin {
        Some(c) => o.exchange_symbol@ == c,
        None => true,
    }
}

/// The orders of an answer that a query asks for: those of its coin, in the
/// order given, at most `item_cap(limit)` of them.
pub fn hyperliquid_select_orders(orders: Vec<Order>, coin: Option<String>, limit: Option<u32>) -> (r:
    Vec<Order>)
    ensures
        r@ == first_n(selected(orders@, order_of_coin(opt_view(coin))), item_cap(limit)),
{
    let cap: usize = match limit {
        Some(l) => if l == 0 {
            1
        } else {
            l as usize
        },
        None => 4294967295,
    };
    let ghost keep = order_of_coin(opt_view(coin));
    let ghost all = orders@;
    let mut rest = orders;
    let mut out: Vec<Order> = Vec::new();
    let ghost mut k: int = 0;
    proof {
        assert(all.take(0) =~= Seq::<Order>::empty());
    }
    while rest.len() > 0 && out.len() < cap
        invariant
            0 <= k <= all.len(),
            rest@ =~= all.skip(k),
            out@ == selected(all.take(k), keep),
            out.len() <= cap,
            cap as nat == item_cap(limit),
            keep == order_of_coin(opt_view(coin)),
        decreases rest.len(),
    {
        let item = rest.remove(0);
        proof {
            assert(all.take(k + 1).drop_last() =~= all.take(k));
            assert(all.take(k + 1).last() == item);
        }
        let wanted = match &coin {
            Some(c) => text_eq(item.exchange_symbol.as_str(), c.as_str()),
            None => true,
        };
        assert(wanted == keep(item));
        if wanted {
            out.push(item);
        }
        proof {
            k = k + 1;
            assert(rest@ =~= all.skip(k));
        }
    }
    proof {
        let sel = selected(all, keep);
        assert(all.take(all.len() as int) =~= all);
        lemma_selected_prefix(all, keep, k, all.len() as int);
        lemma_selected_len(all, keep);
        if rest@.len() == 0 {
            assert(k == all.len());
        } else {
            assert(out.len() == cap);
            assert(sel.take(cap as int) == out@);
        }
    }
    out
}

/// Whether a fill is of the coin and the order asked for (any coin or order
/// without the filter).
pub open spec fn fill_wanted(coin: Option<Seq<char>>, order_id: Option<Seq<char>>) -> spec_fn(Fill) -> bool {
    |f: Fill|
        (match coin {
            Some(c) => f.exchange_symbol@ == c,
            None => true,
        }) && (match order_id {
            Some(id) => opt_view(f.order_id) == Some(id),
            None => true,
        })
}

fn fill_matches(fill: &Fill, coin: &Option<String>, order_id: &Option<String>) -> (r: bool)
    ensures
        r == fill_wanted(opt_view(*coin), opt_view(*order_id))(*fill),
{
    let coin_ok = match coin {
        Some(c) => text_eq(fill.exchange_symbol.as_str(), c.as_str()),
        None => true,
    };
    let order_ok = match order_id {
        Some(id) => match &fill.order_id {
            Some(o) => text_eq(o.as_str(), id.as_str()),
            None => false,
        },
        None => true,
    };
    coin_ok && order_ok
}

/// The fills of an answer that a query asks for: those of its coin and its
/// order, in the order given, at most `item_cap(limit)` of them.
pub fn hyperliquid_select_fills(
    fills: Vec<Fill>,
    coin: Option<String>,
    order_id: Option<String>,
    limit: Option<u32>,
) -> (r: Vec<Fill>)
    ensures
        r@ == first_n(selected(fills@, fill_wanted(opt_view(coin), opt_view(order_id))), item_cap(limit)),
{
    let cap: usize = match limit {
        Some(l) => if l == 0 {
            1
        } else {
            l as usize
        },
        None => 4294967295,
    };
    let ghost keep = fill_wanted(opt_view(coin), opt_view(order_id));
    let ghost all = fills@;
    let mut rest = fills;
    let mut out: Vec<Fill> = Vec::new();
    let ghost mut k: int = 0;
    proof {
        assert(all.take(0) =~= Seq::<Fill>::empty());
    }
    while rest.len() > 0 && out.len() < cap
        invariant
            0 <= k <= all.len(),
            rest@ =~= all.skip(k),
            out@ == selected(all.take(k), keep),
            out.len() <= cap,
            cap as nat == item_cap(limit),
            keep == fill_wanted(opt_view(coin), opt_view(order_id)),
        decreases rest.len(),
    {
        let item = rest.remove(0);
        proof {
            assert(all.take(k + 1).drop_last() =~= all.take(k));
            assert(all.take(k + 1).last() == item);
        }
        let wanted = fill_matches(&item, &coin, &order_id);
        if wanted {
            out.push(item);
        }
        proof {
            k = k + 1;
            assert(rest@ =~= all.skip(k));
        }
    }
    proof {
        let sel = selected(all, keep);
        assert(all.take(all.len() as int) =~= all);
        lemma_selected_prefix(all, keep, k, all.len() as int);
        lemma_selected_len(all, keep);
        if rest@.len() == 0 {
            assert(k == all.len());
        } else {
            assert(out.len() == cap);
            assert(sel.take(cap as int) == out@);
        }
    }
    out
}

} // verus!
