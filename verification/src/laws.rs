//! The library's laws: invariants and cross-operation properties, proved
//! once and for all over the state predicates the operations' contracts use.

use vstd::prelude::*;

use crate::ledger::{composed_metadata, rollback_post, transfer_post};
use crate::royalty::royalty_sum;
use crate::series::mint_post;
use crate::types::{Contract, Token, TokenId, TokenSeriesId};

verus! {

/// Every well-formed state keeps every series' royalty table within the
/// registry's bounds: at most 10 entries, shares summing to at most 5000.
pub proof fn lemma_royalty_bounds(c: Contract, sid: TokenSeriesId)
    requires
        c.wf(),
        c.valid_series_id(sid),
    ensures
        c.series_at(sid).royalty@.len() <= 10,
        royalty_sum(c.series_at(sid).royalty@) <= 5000,
{
    assert(c.token_series_by_id@[sid as int - 1].wf());
}

/// A capped series never oversells: in every well-formed state the issued
/// count stays within the cap, and a capped series standing at its cap is
/// closed to minting.
pub proof fn lemma_supply_cap(c: Contract, sid: TokenSeriesId)
    requires
        c.wf(),
        c.valid_series_id(sid),
        c.series_at(sid).metadata.copies is Some,
    ensures
        c.series_at(sid).tokens_count <= c.series_at(sid).metadata.copies->0,
        c.series_at(sid).tokens_count == c.series_at(sid).metadata.copies->0 ==> !c.series_at(
            sid,
        ).is_mintable,
{
    assert(c.token_series_by_id@[sid as int - 1].wf());
}

/// Round trip: right after a mint, the new edition exists, belongs to the
/// receiver, and any faithful read of it carries exactly the parent
/// series' current template fields with the mint time — though the mint
/// duplicated none of them.
pub proof fn lemma_mint_read_round_trip(
    c0: Contract,
    c1: Contract,
    sid: TokenSeriesId,
    receiver: Seq<char>,
    now: u64,
    tid: TokenId,
)
    requires
        c0.wf(),
        c1.wf(),
        c0.valid_series_id(sid),
        mint_post(c0, c1, sid, receiver, now, tid),
    ensures
        c1.has_token(tid),
        c1.token_at(tid).owner_id@ == receiver,
        c1.series_at(sid).metadata == c0.series_at(sid).metadata,
        forall|t: Token|
            c1.token_view_matches(t, c1.token_at(tid)) ==> t.owner_id@ == receiver && t.metadata
                == Some(composed_metadata(c0.series_at(sid).metadata, now)),
{
    let n = c1.tokens@.len() - 1;
    assert(c1.tokens@[n] == c1.tokens@.last());
    c1.lemma_token_index_is(n);
    assert(c1.token_at(tid) == c1.tokens@.last());
}

/// Rollback: an acknowledged transfer that is rejected and resolved with no
/// intervening transfer leaves the edition with its pre-transfer owner and
/// its original approval table.
pub proof fn lemma_transfer_rollback(
    c0: Contract,
    c1: Contract,
    c2: Contract,
    tid: TokenId,
    receiver: Seq<char>,
    prev_owner: String,
    restored: Vec<(String, u64)>,
)
    requires
        c0.wf(),
        c1.wf(),
        c2.wf(),
        c0.has_token(tid),
        transfer_post(c0, c1, tid, receiver),
        prev_owner == c0.token_at(tid).owner_id,
        restored@ == c0.token_at(tid).approved_account_ids@,
        rollback_post(c1, c2, tid, prev_owner, Some(restored)),
    ensures
        c2.has_token(tid),
        c2.token_at(tid).owner_id == c0.token_at(tid).owner_id,
        c2.token_at(tid).approved_account_ids@ == c0.token_at(tid).approved_account_ids@,
{
    let i = c0.token_index(tid);
    assert(0 <= i < c0.tokens@.len() && c0.tokens@[i].token_id == tid);
    assert(c1.tokens@[i].token_id == tid);
    c1.lemma_token_index_is(i);
    assert(c1.token_index(tid) == i);
    assert(c2.tokens@[i].token_id == tid);
    c2.lemma_token_index_is(i);
}

} // verus!
