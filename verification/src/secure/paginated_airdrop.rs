//! An airdrop credited to registered users in bounded batches.
use vstd::prelude::*;
use crate::host::Addr;
use crate::table::{Table, value_or};

verus! {

/// The most users one batch credits.
pub const MAX_BATCH: u32 = 50;

/// `bal` after crediting `amount` to each of `users` in turn.
pub open spec fn credited(bal: Map<Addr, i128>, users: Seq<Addr>, amount: i128) -> Map<Addr, i128>
    decreases users.len(),
{
    if users.len() == 0 {
        bal
    } else {
        let b = credited(bal, users.drop_last(), amount);
        b.insert(users.last(), (value_or(b, users.last(), 0i128) + amount) as i128)
    }
}

/// Whether crediting `amount` to each of `users` in turn keeps every
/// balance within the range of `i128`.
pub open spec fn credit_fits(bal: Map<Addr, i128>, users: Seq<Addr>, amount: i128) -> bool
    decreases users.len(),
{
    if users.len() == 0 {
        true
    } else {
        let b = credited(bal, users.drop_last(), amount);
        &&& credit_fits(bal, users.drop_last(), amount)
        &&& i128::MIN <= value_or(b, users.last(), 0i128) + amount <= i128::MAX
    }
}

/// Crediting one list of users and then another is crediting both lists in
/// one go.
proof fn lemma_credited_append(bal: Map<Addr, i128>, first: Seq<Addr>, second: Seq<Addr>, amount: i128)
    ensures
        credited(credited(bal, first, amount), second, amount) == credited(bal, first + second, amount),
    decreases second.len(),
{
    if second.len() == 0 {
        assert(first + second =~= first);
    } else {
        lemma_credited_append(bal, first, second.drop_last(), amount);
        assert((first + second).drop_last() =~= first + second.drop_last());
        assert((first + second).last() == second.last());
    }
}

/// Paging credits exactly what one pass credits: crediting the users from
/// `a` to `b` and then those from `b` to `c` (what two `distribute_batch`
/// calls do when the second resumes where the first ended) is crediting
/// the users from `a` to `c` once each.
pub proof fn law_batches_compose(bal: Map<Addr, i128>, users: Seq<Addr>, amount: i128, a: int, b: int, c: int)
    requires
        0 <= a <= b <= c <= users.len(),
    ensures
        credited(credited(bal, users.subrange(a, b), amount), users.subrange(b, c), amount)
            == credited(bal, users.subrange(a, c), amount),
{
    lemma_credited_append(bal, users.subrange(a, b), users.subrange(b, c), amount);
    assert(users.subrange(a, b) + users.subrange(b, c) =~= users.subrange(a, c));
}

/// The registered users, in order, and the balance credited to each.
pub struct PaginatedAirdrop {
    users: Vec<Addr>,
    balances: Table<Addr, i128>,
}

impl PaginatedAirdrop {
    pub closed spec fn users(&self) -> Seq<Addr> {
        self.users@
    }

    pub closed spec fn balances(&self) -> Map<Addr, i128> {
        self.balances@
    }

    /// The end of the batch that starts at `start` and asks for `count`
    /// users: at most `MAX_BATCH` users on, and no further than the last user.
    pub open spec fn batch_end(&self, start: u32, count: u32) -> int {
        let batch = if count < MAX_BATCH { count } else { MAX_BATCH };
        if start + batch < self.users().len() { start + batch } else { self.users().len() as int }
    }

    /// An airdrop with no users.
    pub fn new() -> (c: Self)
        ensures
            c.users() == Seq::<Addr>::empty(),
            c.balances() == Map::<Addr, i128>::empty(),
    {
        PaginatedAirdrop { users: Vec::new(), balances: Table::new() }
    }

    /// Appends `user` to the registered users.
    pub fn register(&mut self, user: Addr)
        requires
            old(self).users().len() < u32::MAX,
        ensures
            final(self).users() == old(self).users().push(user),
            final(self).balances() == old(self).balances(),
    {
        self.users.push(user);
    }

    /// Credits `amount_per_user` to each registered user from index `start`
    /// up to the batch end, and returns that end, where the next batch starts.
    pub fn distribute_batch(&mut self, start: u32, count: u32, amount_per_user: i128) -> (end: u32)
        requires
            start + (if count < MAX_BATCH { count } else { MAX_BATCH }) <= u32::MAX,
            old(self).users().len() <= u32::MAX,
            start <= old(self).batch_end(start, count) ==> credit_fits(
                old(self).balances(),
                old(self).users().subrange(start as int, old(self).batch_end(start, count)),
                amount_per_user,
            ),
        ensures
            end == old(self).batch_end(start, count),
            final(self).users() == old(self).users(),
            final(self).balances() == if start <= end {
                credited(
                    old(self).balances(),
                    old(self).users().subrange(start as int, end as int),
                    amount_per_user,
                )
            } else {
                old(self).balances()
            },
    {
        let batch = if count < MAX_BATCH { count } else { MAX_BATCH };
        let total = self.users.len() as u32;
        let end = if start + batch < total { start + batch } else { total };
        let mut i = start;
        while i < end
            invariant
                start <= i <= end || end < start,
                end < start ==> i == start,
                end as int == old(self).batch_end(start, count),
                end <= self.users@.len(),
                self.users@ == old(self).users(),
                start <= end ==> credit_fits(
                    old(self).balances(),
                    old(self).users().subrange(start as int, end as int),
                    amount_per_user,
                ),
                start <= end ==> self.balances@ == credited(
                    old(self).balances(),
                    old(self).users().subrange(start as int, i as int),
                    amount_per_user,
                ),
                end < start ==> self.balances@ == old(self).balances(),
            decreases end - i,
        {
            let ghost done = old(self).users().subrange(start as int, i as int);
            let ghost next = old(self).users().subrange(start as int, i + 1);
            proof {
                assert(next.drop_last() =~= done);
                lemma_credit_fits_prefix(
                    old(self).balances(),
                    old(self).users().subrange(start as int, end as int),
                    amount_per_user,
                    (i + 1 - start) as nat,
                );
                assert(old(self).users().subrange(start as int, end as int).take(i + 1 - start) =~= next);
            }
            let user = self.users[i as usize];
            let bal = self.balances.amount(&user);
            self.balances.set(user, bal + amount_per_user);
            i = i + 1;
        }
        proof {
            if start <= end {
                assert(old(self).users().subrange(start as int, i as int)
                    =~= old(self).users().subrange(start as int, end as int));
            }
        }
        end
    }

    /// The balance credited to `user`, zero if none.
    pub fn balance(&self, user: Addr) -> (r: i128)
        ensures
            r == value_or(self.balances(), user, 0i128),
    {
        self.balances.amount(&user)
    }

    /// The number of registered users.
    pub fn user_count(&self) -> (r: u32)
        requires
            self.users().len() <= u32::MAX,
        ensures
            r == self.users().len(),
    {
        self.users.len() as u32
    }
}

/// Crediting fits for every prefix of a sequence for which it fits.
proof fn lemma_credit_fits_prefix(bal: Map<Addr, i128>, users: Seq<Addr>, amount: i128, n: nat)
    requires
        credit_fits(bal, users, amount),
        n <= users.len(),
    ensures
        credit_fits(bal, users.take(n as int), amount),
    decreases users.len(),
{
    if n < users.len() {
        assert(users.drop_last().take(n as int) =~= users.take(n as int));
        lemma_credit_fits_prefix(bal, users.drop_last(), amount, n);
    } else {
        assert(users.take(n as int) =~= users);
    }
}

} // verus!
