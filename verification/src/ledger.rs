//! Balances kept as maps from addresses to amounts, and moves between them.
use vstd::prelude::*;
use crate::host::Addr;
use crate::table::value_or;

verus! {

/// `bal` after `amount` is taken from `from` and then added to `to`, an
/// absent balance counting as zero. The second balance is read after the
/// first is written, so a move to oneself leaves the balance as it was.
pub open spec fn moved(bal: Map<Addr, i128>, from: Addr, to: Addr, amount: i128) -> Map<Addr, i128> {
    let b1 = bal.insert(from, (value_or(bal, from, 0i128) - amount) as i128);
    b1.insert(to, (value_or(b1, to, 0i128) + amount) as i128)
}

/// Whether both steps of `moved` stay within `i128`.
pub open spec fn move_fits(bal: Map<Addr, i128>, from: Addr, to: Addr, amount: i128) -> bool {
    let b1 = bal.insert(from, (value_or(bal, from, 0i128) - amount) as i128);
    &&& i128::MIN <= value_or(bal, from, 0i128) - amount <= i128::MAX
    &&& i128::MIN <= value_or(b1, to, 0i128) + amount <= i128::MAX
}

/// A move conserves value: the sender loses `amount`, a distinct receiver
/// gains it, so the two hold together what they held before; a move to
/// oneself changes no balance; every other balance is untouched.
pub proof fn law_move_conserves(bal: Map<Addr, i128>, from: Addr, to: Addr, amount: i128, other: Addr)
    requires
        move_fits(bal, from, to, amount),
    ensures
        from != to ==> value_or(moved(bal, from, to, amount), from, 0i128) == value_or(bal, from, 0i128) - amount,
        from != to ==> value_or(moved(bal, from, to, amount), to, 0i128) == value_or(bal, to, 0i128) + amount,
        value_or(moved(bal, from, to, amount), from, 0i128) + value_or(moved(bal, from, to, amount), to, 0i128)
            == value_or(bal, from, 0i128) + value_or(bal, to, 0i128) || from == to,
        from == to ==> value_or(moved(bal, from, to, amount), from, 0i128) == value_or(bal, from, 0i128),
        other != from && other != to ==> value_or(moved(bal, from, to, amount), other, 0i128) == value_or(bal, other, 0i128),
{
}

/// The sum of the balances of `accounts` in `bal`, an absent balance
/// counting as zero.
pub open spec fn sum_of(bal: Map<Addr, i128>, accounts: Set<Addr>) -> int
    decreases accounts.len(),
    when accounts.finite()
{
    if accounts.len() == 0 {
        0
    } else {
        let a = accounts.choose();
        value_or(bal, a, 0i128) + sum_of(bal, accounts.remove(a))
    }
}

/// Any one account can be taken out of a sum first.
proof fn lemma_sum_take(bal: Map<Addr, i128>, accounts: Set<Addr>, a: Addr)
    requires
        accounts.finite(),
        accounts.contains(a),
    ensures
        sum_of(bal, accounts) == value_or(bal, a, 0i128) + sum_of(bal, accounts.remove(a)),
    decreases accounts.len(),
{
    let c = accounts.choose();
    if c != a {
        lemma_sum_take(bal, accounts.remove(c), a);
        lemma_sum_take(bal, accounts.remove(a), c);
        assert(accounts.remove(c).remove(a) =~= accounts.remove(a).remove(c));
    }
}

/// A sum depends only on the balances of the accounts summed.
proof fn lemma_sum_frame(b1: Map<Addr, i128>, b2: Map<Addr, i128>, accounts: Set<Addr>)
    requires
        accounts.finite(),
        forall|k: Addr| accounts.contains(k) ==> value_or(b1, k, 0i128) == value_or(b2, k, 0i128),
    ensures
        sum_of(b1, accounts) == sum_of(b2, accounts),
    decreases accounts.len(),
{
    if accounts.len() > 0 {
        let a = accounts.choose();
        lemma_sum_frame(b1, b2, accounts.remove(a));
    }
}

/// No move creates or destroys value in any group of accounts that holds
/// both its sender and its receiver: the group's total is what it was.
pub proof fn law_move_conserves_group(bal: Map<Addr, i128>, from: Addr, to: Addr, amount: i128, group: Set<Addr>)
    requires
        move_fits(bal, from, to, amount),
        group.finite(),
        group.contains(from),
        group.contains(to),
    ensures
        sum_of(moved(bal, from, to, amount), group) == sum_of(bal, group),
{
    let m = moved(bal, from, to, amount);
    assert forall|k: Addr| k != from && k != to implies value_or(m, k, 0i128) == value_or(bal, k, 0i128) by {
        law_move_conserves(bal, from, to, amount, k);
    }
    law_move_conserves(bal, from, to, amount, from);
    if from == to {
        lemma_sum_frame(m, bal, group);
    } else {
        let rest = group.remove(from).remove(to);
        lemma_sum_take(m, group, from);
        lemma_sum_take(m, group.remove(from), to);
        lemma_sum_take(bal, group, from);
        lemma_sum_take(bal, group.remove(from), to);
        lemma_sum_frame(m, bal, rest);
    }
}

/// The sum of every balance `bal` holds.
pub open spec fn total_of(bal: Map<Addr, i128>) -> int {
    sum_of(bal, bal.dom())
}

/// Writing `x` as the balance of `a` changes the total by the difference
/// between `x` and what `a` held.
pub proof fn lemma_total_insert(bal: Map<Addr, i128>, a: Addr, x: i128)
    requires
        bal.dom().finite(),
    ensures
        bal.insert(a, x).dom().finite(),
        total_of(bal.insert(a, x)) == total_of(bal) - value_or(bal, a, 0i128) + x,
{
    let nb = bal.insert(a, x);
    let d = bal.dom();
    assert(nb.dom() =~= d.insert(a));
    lemma_sum_take(nb, d.insert(a), a);
    assert(d.insert(a).remove(a) =~= d.remove(a));
    lemma_sum_frame(nb, bal, d.remove(a));
    if d.contains(a) {
        lemma_sum_take(bal, d, a);
    } else {
        assert(d.remove(a) =~= d);
    }
}

} // verus!
