//! The choice among the listings of one token: the cheapest ones that are
//! not noise.
//!
//! The marketplace holds listings with prices so small that they cannot be
//! meant. A listing is eligible if its base price is above the dust
//! threshold. The eligible listings are put in the order of their current
//! price, listings of one price in the order in which they came, and the
//! first few are taken.

use crate::constants::DUST_THRESHOLD;
use crate::types::Order;
use vstd::prelude::*;

verus! {

/// Whether a listing's base price is above the dust threshold.
pub open spec fn is_eligible(order: Order) -> bool {
    order.base_price@ > DUST_THRESHOLD
}

/// The eligible listings among `orders`, in their order.
pub open spec fn eligible(orders: Seq<Order>) -> Seq<Order>
    decreases orders.len(),
{
    if orders.len() == 0 {
        Seq::empty()
    } else if is_eligible(orders.last()) {
        eligible(orders.drop_last()).push(orders.last())
    } else {
        eligible(orders.drop_last())
    }
}

/// `sorted` with `order` put in behind the last listing that costs no more.
pub open spec fn insert_by_price(sorted: Seq<Order>, order: Order) -> Seq<Order>
    decreases sorted.len(),
{
    if sorted.len() == 0 {
        seq![order]
    } else if sorted.last().current_price@ <= order.current_price@ {
        sorted.push(order)
    } else {
        insert_by_price(sorted.drop_last(), order).push(sorted.last())
    }
}

/// `orders` in the order of their current price, cheapest first; listings of
/// one price keep the order in which they stand in `orders`.
pub open spec fn sort_by_price(orders: Seq<Order>) -> Seq<Order>
    decreases orders.len(),
{
    if orders.len() == 0 {
        Seq::empty()
    } else {
        insert_by_price(sort_by_price(orders.drop_last()), orders.last())
    }
}

/// The `num` cheapest eligible listings among `orders`, cheapest first, or
/// all eligible ones if there are fewer.
pub open spec fn cheapest(orders: Seq<Order>, num: nat) -> Seq<Order> {
    let sorted = sort_by_price(eligible(orders));
    if num <= sorted.len() {
        sorted.take(num as int)
    } else {
        sorted
    }
}

/// Whether the prices of `orders` never fall from one listing to the next.
pub open spec fn is_sorted_by_price(orders: Seq<Order>) -> bool {
    forall|i: int, j: int|
        0 <= i <= j < orders.len() ==> (#[trigger] orders[i]).current_price@ <= (
        #[trigger] orders[j]).current_price@
}

/// Putting a listing in at the place where the dearer ones begin is
/// [`insert_by_price`].
proof fn lemma_insert_at(sorted: Seq<Order>, order: Order, pos: int)
    requires
        0 <= pos <= sorted.len(),
        forall|i: int|
            pos <= i < sorted.len() ==> (#[trigger] sorted[i]).current_price@
                > order.current_price@,
        pos > 0 ==> sorted[pos - 1].current_price@ <= order.current_price@,
    ensures
        insert_by_price(sorted, order) == sorted.insert(pos, order),
    decreases sorted.len(),
{
    if pos < sorted.len() {
        lemma_insert_at(sorted.drop_last(), order, pos);
    }
}

/// Putting a listing into a sorted list leaves it sorted, with the same
/// listings and the new one.
pub proof fn lemma_insert_by_price(sorted: Seq<Order>, order: Order)
    requires
        is_sorted_by_price(sorted),
    ensures
        is_sorted_by_price(insert_by_price(sorted, order)),
        insert_by_price(sorted, order).to_multiset() == sorted.to_multiset().insert(order),
        insert_by_price(sorted, order).len() == sorted.len() + 1,
    decreases sorted.len(),
{
    broadcast use vstd::seq_lib::group_to_multiset_ensures;

    let r = insert_by_price(sorted, order);
    if sorted.len() == 0 {
        assert(sorted =~= Seq::empty());
        assert(r =~= Seq::<Order>::empty().push(order));
    } else if sorted.last().current_price@ <= order.current_price@ {
        assert forall|i: int, j: int| 0 <= i <= j < r.len() implies (#[trigger] r[i]).current_price@
            <= (#[trigger] r[j]).current_price@ by {
            if j == sorted.len() {
                if i < sorted.len() {
                    assert(sorted[i].current_price@ <= sorted[sorted.len() - 1].current_price@);
                }
            } else {
                assert(sorted[i].current_price@ <= sorted[j].current_price@);
            }
        }
    } else {
        let front = sorted.drop_last();
        assert(is_sorted_by_price(front)) by {
            assert forall|i: int, j: int| 0 <= i <= j < front.len() implies (
            #[trigger] front[i]).current_price@ <= (#[trigger] front[j]).current_price@ by {
                assert(sorted[i].current_price@ <= sorted[j].current_price@);
            }
        }
        lemma_insert_by_price(front, order);
        let inner = insert_by_price(front, order);
        assert(sorted =~= front.push(sorted.last()));
        assert(sorted.to_multiset() == front.to_multiset().insert(sorted.last()));
        assert(r.to_multiset() =~= sorted.to_multiset().insert(order));
        assert forall|i: int, j: int| 0 <= i <= j < r.len() implies (#[trigger] r[i]).current_price@
            <= (#[trigger] r[j]).current_price@ by {
            if j == inner.len() {
                if i < inner.len() {
                    // every listing of `inner` is `order` or a listing of `front`
                    assert(inner.to_multiset().count(inner[i]) > 0);
                    if inner[i] != order {
                        assert(front.to_multiset().count(inner[i]) > 0);
                        let k = choose|k: int| 0 <= k < front.len() && front[k] == inner[i];
                        assert(sorted[k].current_price@ <= sorted[sorted.len() - 1].current_price@);
                    }
                }
            } else {
                assert(inner[i].current_price@ <= inner[j].current_price@);
            }
        }
    }
}

/// Sorting gives a sorted list of the same listings.
pub proof fn lemma_sort_by_price(orders: Seq<Order>)
    ensures
        is_sorted_by_price(sort_by_price(orders)),
        sort_by_price(orders).to_multiset() == orders.to_multiset(),
        sort_by_price(orders).len() == orders.len(),
    decreases orders.len(),
{
    broadcast use vstd::seq_lib::group_to_multiset_ensures;

    if orders.len() > 0 {
        lemma_sort_by_price(orders.drop_last());
        lemma_insert_by_price(sort_by_price(orders.drop_last()), orders.last());
        assert(orders =~= orders.drop_last().push(orders.last()));
    }
}

/// Every listing among the eligible ones is eligible and is one of `orders`.
pub proof fn lemma_eligible(orders: Seq<Order>)
    ensures
        forall|i: int|
            0 <= i < eligible(orders).len() ==> is_eligible(#[trigger] eligible(orders)[i])
                && orders.contains(eligible(orders)[i]),
        forall|i: int|
            0 <= i < orders.len() && is_eligible(orders[i]) ==> eligible(orders).contains(
                #[trigger] orders[i],
            ),
        eligible(orders).len() <= orders.len(),
    decreases orders.len(),
{
    if orders.len() > 0 {
        let front = orders.drop_last();
        lemma_eligible(front);
        let e = eligible(orders);
        let ef = eligible(front);
        assert forall|i: int| 0 <= i < orders.len() && is_eligible(orders[i]) implies e.contains(
            #[trigger] orders[i],
        ) by {
            if i < front.len() {
                let k = choose|k: int| 0 <= k < ef.len() && ef[k] == front[i];
                assert(e[k] == orders[i]);
            } else {
                assert(e[e.len() - 1] == orders[i]);
            }
        }
    }
}

/// No listing at or below the dust threshold is among the cheapest, however
/// cheap it is. The chosen listings are listings of `orders`, their prices
/// never fall, and there are `num` of them unless fewer are eligible.
pub proof fn lemma_cheapest_excludes_dust(orders: Seq<Order>, num: nat)
    ensures
        forall|i: int|
            0 <= i < cheapest(orders, num).len() ==> (#[trigger] cheapest(
                orders,
                num,
            )[i]).base_price@ > DUST_THRESHOLD,
        forall|i: int|
            0 <= i < cheapest(orders, num).len() ==> orders.contains(
                #[trigger] cheapest(orders, num)[i],
            ),
        is_sorted_by_price(cheapest(orders, num)),
        cheapest(orders, num).len() == if num <= eligible(orders).len() {
            num
        } else {
            eligible(orders).len()
        },
{
    broadcast use vstd::seq_lib::group_to_multiset_ensures;

    let e = eligible(orders);
    let s = sort_by_price(e);
    let c = cheapest(orders, num);
    lemma_eligible(orders);
    lemma_sort_by_price(e);
    assert forall|i: int| 0 <= i < c.len() implies is_eligible(#[trigger] c[i]) && orders.contains(
        c[i],
    ) by {
        assert(s.to_multiset().count(s[i]) > 0);
        let k = choose|k: int| 0 <= k < e.len() && e[k] == s[i];
    }
}

/// Every eligible listing that is not among the cheapest costs at least as
/// much as each of the chosen ones.
pub proof fn lemma_cheapest_are_cheapest(orders: Seq<Order>, num: nat, i: int, j: int)
    requires
        0 <= i < cheapest(orders, num).len(),
        cheapest(orders, num).len() <= j < sort_by_price(eligible(orders)).len(),
    ensures
        cheapest(orders, num)[i].current_price@ <= sort_by_price(
            eligible(orders),
        )[j].current_price@,
{
    lemma_sort_by_price(eligible(orders));
}

/// The eligible listings among `orders`, in their order.
pub fn eligible_orders(orders: Vec<Order>) -> (kept: Vec<Order>)
    ensures
        kept@ == eligible(orders@),
{
    let threshold = crate::constants::dust_threshold();
    let ghost all = orders@;
    let mut kept: Vec<Order> = Vec::new();
    for order in it: orders
        invariant
            it.seq() == all,
            threshold@ == DUST_THRESHOLD,
            kept@ == eligible(all.take(it.index() as int)),
    {
        proof {
            let k = it.index() as int;
            assert(all.take(k + 1).drop_last() =~= all.take(k));
        }
        if threshold.lt(&order.base_price) {
            kept.push(order);
        }
    }
    assert(all.take(all.len() as int) =~= all);
    kept
}

/// `orders` in the order of their current price, cheapest first; listings of
/// one price keep their order.
pub fn sort_orders_by_price(orders: Vec<Order>) -> (sorted: Vec<Order>)
    ensures
        sorted@ == sort_by_price(orders@),
{
    let ghost all = orders@;
    let mut sorted: Vec<Order> = Vec::new();
    for order in it: orders
        invariant
            it.seq() == all,
            sorted@ == sort_by_price(all.take(it.index() as int)),
    {
        proof {
            let k = it.index() as int;
            assert(all.take(k + 1).drop_last() =~= all.take(k));
        }
        let mut pos: usize = sorted.len();
        while pos > 0 && order.current_price.lt(&sorted[pos - 1].current_price)
            invariant
                pos <= sorted@.len(),
                forall|i: int|
                    pos <= i < sorted@.len() ==> (#[trigger] sorted@[i]).current_price@
                        > order.current_price@,
            decreases pos,
        {
            pos -= 1;
        }
        proof {
            lemma_insert_at(sorted@, order, pos as int);
        }
        sorted.insert(pos, order);
    }
    assert(all.take(all.len() as int) =~= all);
    sorted
}

/// The `num` cheapest eligible listings among `orders`, cheapest first, or
/// all eligible ones if there are fewer.
pub fn get_n_cheapest_orders(orders: Vec<Order>, num: usize) -> (chosen: Vec<Order>)
    ensures
        chosen@ == cheapest(orders@, num as nat),
{
    let kept = eligible_orders(orders);
    let mut sorted = sort_orders_by_price(kept);
    sorted.truncate(num);
    sorted
}

} // verus!
