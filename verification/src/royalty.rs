//! The royalty payout engine: splitting a sale amount across a series'
//! royalty table and the current owner, with no rounding leak.

use vstd::prelude::*;

use crate::account::{is_valid_account_id, valid_account_id};
use crate::types::{ContractError, Payout};

verus! {

/// No account appears twice in a royalty table.
pub open spec fn royalty_keys_unique(r: Seq<(String, u32)>) -> bool {
    forall|i: int, j: int| 0 <= i < j < r.len() ==> r[i].0@ != r[j].0@
}

/// The sum of all shares in a royalty table.
pub open spec fn royalty_sum(r: Seq<(String, u32)>) -> int
    decreases r.len(),
{
    if r.len() == 0 {
        0
    } else {
        royalty_sum(r.drop_last()) + r.last().1
    }
}

/// The table's entries whose account is not `owner`, in table order: the
/// parties that receive a fractional share of a sale.
pub open spec fn non_owner_entries(r: Seq<(String, u32)>, owner: Seq<char>) -> Seq<(String, u32)>
    decreases r.len(),
{
    if r.len() == 0 {
        Seq::empty()
    } else {
        let rest = non_owner_entries(r.drop_last(), owner);
        if r.last().0@ != owner {
            rest.push(r.last())
        } else {
            rest
        }
    }
}

/// One share of a sale: `share` parts in 10000, rounded down.
pub open spec fn share_of(share: u32, amount: u128) -> int {
    (share as int) * (amount as int) / 10000
}

/// The total allocated to the entries of `r` out of a sale of `amount`.
pub open spec fn allocated_sum(r: Seq<(String, u32)>, amount: u128) -> int
    decreases r.len(),
{
    if r.len() == 0 {
        0
    } else {
        allocated_sum(r.drop_last(), amount) + share_of(r.last().1, amount)
    }
}

/// The sum of all amounts in a payout.
pub open spec fn payout_sum(p: Seq<(String, u128)>) -> int
    decreases p.len(),
{
    if p.len() == 0 {
        0
    } else {
        payout_sum(p.drop_last()) + p.last().1
    }
}

/// Every share in a royalty table is nonnegative, so the sum over a prefix
/// never exceeds the sum over the whole table.
pub proof fn lemma_royalty_sum_take(r: Seq<(String, u32)>, i: int)
    requires
        0 <= i <= r.len(),
    ensures
        royalty_sum(r.take(i)) <= royalty_sum(r),
        royalty_sum(r.take(i)) >= 0,
    decreases r.len(),
{
    if r.len() == 0 {
        assert(r.take(i) =~= r);
    } else if i == r.len() {
        assert(r.take(i) =~= r);
        lemma_royalty_sum_take(r.drop_last(), r.len() - 1);
        assert(r.drop_last().take(r.len() - 1) =~= r.drop_last());
    } else {
        assert(r.take(i) =~= r.drop_last().take(i));
        lemma_royalty_sum_take(r.drop_last(), i);
    }
}

/// Dropping the owner's entry from a table never increases the sum of shares.
pub proof fn lemma_non_owner_sum(r: Seq<(String, u32)>, owner: Seq<char>)
    ensures
        royalty_sum(non_owner_entries(r, owner)) <= royalty_sum(r),
        royalty_sum(non_owner_entries(r, owner)) >= 0,
    decreases r.len(),
{
    if r.len() > 0 {
        lemma_non_owner_sum(r.drop_last(), owner);
        if r.last().0@ != owner {
            let rest = non_owner_entries(r.drop_last(), owner);
            assert(rest.push(r.last()).drop_last() =~= rest);
        }
    }
}

/// What each entry is allocated stays within its share of the sale:
/// scaled by 10000, the allocation never exceeds `share * amount`.
pub proof fn lemma_allocated_bound(r: Seq<(String, u32)>, amount: u128)
    ensures
        0 <= allocated_sum(r, amount),
        allocated_sum(r, amount) * 10000 <= royalty_sum(r) * (amount as int),
    decreases r.len(),
{
    if r.len() > 0 {
        lemma_allocated_bound(r.drop_last(), amount);
        let v = r.last().1;
        lemma_div_mul_bound((v as int) * (amount as int), 10000);
        assert(share_of(v, amount) * 10000 <= (v as int) * (amount as int));
        assert((allocated_sum(r.drop_last(), amount) + share_of(v, amount)) * 10000
            == allocated_sum(r.drop_last(), amount) * 10000 + share_of(v, amount) * 10000)
            by (nonlinear_arith);
        assert((royalty_sum(r.drop_last()) + v) * (amount as int)
            == royalty_sum(r.drop_last()) * (amount as int) + (v as int) * (amount as int))
            by (nonlinear_arith);
    }
}

/// Integer division rounds down: `(x / d) * d <= x`.
pub proof fn lemma_div_mul_bound(x: int, d: int)
    by (nonlinear_arith)
    requires
        x >= 0,
        d > 0,
    ensures
        (x / d) * d <= x,
        0 <= x / d <= x,
{
}

/// If a total scaled by 10000 stays within `10000 * amount`, the total
/// itself stays within `amount`.
pub proof fn lemma_scaled_le(total: int, amount: int)
    by (nonlinear_arith)
    requires
        0 <= total,
        0 <= amount,
        total * 10000 <= 10000 * amount,
    ensures
        total <= amount,
{
}

/// No share exceeds the sum of all shares.
pub proof fn lemma_royalty_entry_le_sum(r: Seq<(String, u32)>, i: int)
    requires
        0 <= i < r.len(),
    ensures
        r[i].1 <= royalty_sum(r),
    decreases r.len(),
{
    if i == r.len() - 1 {
        lemma_royalty_sum_take(r.drop_last(), r.len() - 1);
        assert(r.drop_last().take(r.len() - 1) =~= r.drop_last());
    } else {
        lemma_royalty_entry_le_sum(r.drop_last(), i);
    }
}

/// A party allocated by a royalty table is one of the table's non-owner
/// entries, and keeps its table order; spelled out index-wise so callers can
/// relate a payout back to the table it came from.
pub open spec fn payout_matches_table(
    p: Seq<(String, u128)>,
    r: Seq<(String, u32)>,
    owner: Seq<char>,
    amount: u128,
) -> bool {
    let f = non_owner_entries(r, owner);
    &&& p.len() == f.len() + 1
    &&& forall|i: int|
        0 <= i < f.len() ==> #[trigger] p[i].0@ == f[i].0@ && p[i].1 == share_of(f[i].1, amount)
    &&& p.last().0@ == owner
    &&& p.last().1 == amount - allocated_sum(f, amount)
}

/// Every entry of a royalty table names a well-formed account.
pub open spec fn royalty_accounts_valid(r: Seq<(String, u32)>) -> bool {
    forall|i: int| 0 <= i < r.len() ==> valid_account_id((#[trigger] r[i]).0@)
}

/// A royalty table passes all of the registry's bounds: well-formed unique
/// accounts, at most 10 entries, shares summing to at most 5000.
pub open spec fn royalty_table_ok(r: Seq<(String, u32)>) -> bool {
    &&& royalty_accounts_valid(r)
    &&& royalty_keys_unique(r)
    &&& r.len() <= 10
    &&& royalty_sum(r) <= 5000
}

/// Checks a proposed royalty table against the registry's bounds.
pub fn validate_royalty(royalty: &Vec<(String, u32)>) -> (r: Result<(), ContractError>)
    ensures
        r is Ok <==> royalty_table_ok(royalty@),
        r == Err::<(), ContractError>(ContractError::InvalidRoyaltyAccount) ==> !royalty_accounts_valid(royalty@),
        r == Err::<(), ContractError>(ContractError::DuplicateRoyaltyAccount) ==> !royalty_keys_unique(royalty@),
        royalty_accounts_valid(royalty@) && royalty_keys_unique(royalty@) && royalty@.len() > 10
            ==> r == Err::<(), ContractError>(ContractError::RoyaltyAccountsExceeded),
        royalty_accounts_valid(royalty@) && royalty_keys_unique(royalty@) && royalty@.len() <= 10
            && royalty_sum(royalty@) > 5000 ==> r == Err::<(), ContractError>(
            ContractError::RoyaltyTotalExceeded,
        ),
{
    let n: usize = royalty.len();
    let mut i: usize = 0;
    while i < n
        invariant
            0 <= i <= n,
            n == royalty@.len(),
            forall|k: int| 0 <= k < i ==> valid_account_id((#[trigger] royalty@[k]).0@),
            forall|k: int, l: int| 0 <= k < l < i ==> royalty@[k].0@ != royalty@[l].0@,
        decreases n - i,
    {
        if !is_valid_account_id(royalty[i].0.as_str()) {
            return Err(ContractError::InvalidRoyaltyAccount);
        }
        let mut j: usize = 0;
        while j < i
            invariant
                0 <= j <= i < n,
                n == royalty@.len(),
                forall|k: int| 0 <= k < j ==> royalty@[k].0@ != royalty@[i as int].0@,
            decreases i - j,
        {
            if royalty[j].0.eq(&royalty[i].0) {
                return Err(ContractError::DuplicateRoyaltyAccount);
            }
            j += 1;
        }
        i += 1;
    }
    if n > 10 {
        return Err(ContractError::RoyaltyAccountsExceeded);
    }
    let mut total: u64 = 0;
    i = 0;
    while i < n
        invariant
            0 <= i <= n,
            n == royalty@.len(),
            n <= 10,
            total == royalty_sum(royalty@.take(i as int)),
            total <= (i as int) * 0xffff_ffff,
        decreases n - i,
    {
        proof {
            assert(royalty@.take(i as int + 1).drop_last() =~= royalty@.take(i as int));
        }
        total = total + royalty[i].1 as u64;
        i += 1;
    }
    proof {
        assert(royalty@.take(n as int) =~= royalty@);
    }
    if total > 5000 {
        return Err(ContractError::RoyaltyTotalExceeded);
    }
    Ok(())
}

/// One share of a sale amount, in units of 1/10000 rounded down.
pub fn royalty_to_payout(share: u32, amount: u128) -> (r: u128)
    requires
        share <= 10000,
        amount <= u128::MAX / 10000,
    ensures
        r == share_of(share, amount),
{
    proof {
        lemma_div_mul_bound(u128::MAX as int, 10000);
        assert((share as int) * (amount as int) <= 10000 * ((u128::MAX / 10000) as int))
            by (nonlinear_arith)
            requires
                share <= 10000,
                amount <= u128::MAX / 10000,
        ;
    }
    (share as u128) * amount / 10_000
}

/// Splits a sale of `amount` across a royalty table and the owner: every
/// entry other than the owner receives its share rounded down, in table
/// order, and the owner receives the exact remainder, so the split sums to
/// `amount` with no rounding leak.
pub fn compute_payout(royalty: &Vec<(String, u32)>, owner_id: &String, amount: u128) -> (p: Payout)
    requires
        royalty_sum(royalty@) <= 5000,
        amount <= u128::MAX / 10000,
    ensures
        payout_matches_table(p.payout@, royalty@, owner_id@, amount),
        payout_sum(p.payout@) == amount,
{
    let ghost owner = owner_id@;
    let mut entries: Vec<(String, u128)> = Vec::new();
    let mut total_allocated: u128 = 0;
    let mut i: usize = 0;
    let n: usize = royalty.len();
    while i < n
        invariant
            0 <= i <= n,
            n == royalty@.len(),
            owner == owner_id@,
            royalty_sum(royalty@) <= 5000,
            amount <= u128::MAX / 10000,
            entries@.len() == non_owner_entries(royalty@.take(i as int), owner).len(),
            forall|k: int|
                0 <= k < entries@.len() ==> {
                    let f = non_owner_entries(royalty@.take(i as int), owner);
                    (#[trigger] entries@[k]).0@ == f[k].0@ && entries@[k].1 == share_of(
                        f[k].1,
                        amount,
                    )
                },
            total_allocated == allocated_sum(
                non_owner_entries(royalty@.take(i as int), owner),
                amount,
            ),
            total_allocated <= amount,
            payout_sum(entries@) == total_allocated,
        decreases n - i,
    {
        let ghost f_pre = non_owner_entries(royalty@.take(i as int), owner);
        proof {
            assert(royalty@.take(i as int + 1).drop_last() =~= royalty@.take(i as int));
            lemma_royalty_entry_le_sum(royalty@, i as int);
        }
        let entry: &(String, u32) = &royalty[i];
        if !entry.0.eq(owner_id) {
            let ghost f_post = non_owner_entries(royalty@.take(i as int + 1), owner);
            proof {
                assert(f_post =~= f_pre.push(royalty@[i as int]));
                assert(f_post.drop_last() =~= f_pre);
                lemma_allocated_bound(f_post, amount);
                lemma_non_owner_sum(royalty@.take(i as int + 1), owner);
                lemma_royalty_sum_take(royalty@, i as int + 1);
                assert(allocated_sum(f_post, amount) * 10000 <= 5000 * (amount as int))
                    by (nonlinear_arith)
                    requires
                        allocated_sum(f_post, amount) * 10000 <= royalty_sum(f_post) * (
                        amount as int),
                        royalty_sum(f_post) <= 5000,
                        amount >= 0,
                ;
                lemma_scaled_le(allocated_sum(f_post, amount), amount as int);
            }
            let share_amount: u128 = royalty_to_payout(entry.1, amount);
            let ghost entries_pre = entries@;
            entries.push((entry.0.clone(), share_amount));
            proof {
                assert(entries@.drop_last() =~= entries_pre);
            }
            total_allocated = total_allocated + share_amount;
        } else {
            proof {
                assert(non_owner_entries(royalty@.take(i as int + 1), owner) =~= f_pre);
            }
        }
        i += 1;
    }
    proof {
        assert(royalty@.take(n as int) =~= royalty@);
    }
    let owner_amount: u128 = amount - total_allocated;
    let ghost entries_pre = entries@;
    entries.push((owner_id.clone(), owner_amount));
    proof {
        assert(entries@.drop_last() =~= entries_pre);
    }
    Payout { payout: entries }
}

} // verus!
