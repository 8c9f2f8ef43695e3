//! The ownership ledger and transfer protocol: reading editions as a
//! join with their parent series' template, single-phase transfers, the
//! two-phase acknowledged transfer with rollback, burning, enumeration and
//! the payout entry points.

use vstd::prelude::*;

use crate::royalty::{
    payout_matches_table, payout_sum, compute_payout,
};
use crate::types::{
    approvals_unique, clone_opt_string, clone_pairs, Contract, ContractError, Payout,
    PendingTransfer, Token, TokenId, TokenMetadata, TokenRecord,
};

verus! {

/// The ledger records owned by `who`, in ledger order.
pub open spec fn owned_records(ts: Seq<TokenRecord>, who: Seq<char>) -> Seq<TokenRecord>
    decreases ts.len(),
{
    if ts.len() == 0 {
        Seq::empty()
    } else {
        let rest = owned_records(ts.drop_last(), who);
        if ts.last().owner_id@ == who {
            rest.push(ts.last())
        } else {
            rest
        }
    }
}

/// Whether `who` holds an approval in the table.
pub open spec fn has_approval(a: Seq<(String, u64)>, who: Seq<char>) -> bool {
    exists|i: int| 0 <= i < a.len() && a[i].0@ == who
}

/// The approval id registered for `who`.
pub open spec fn approval_id_of(a: Seq<(String, u64)>, who: Seq<char>) -> u64 {
    a[choose|i: int| 0 <= i < a.len() && a[i].0@ == who].1
}

/// Who may move an edition: its owner, or an approved party that supplies
/// its registered approval id. A sender supplying no approval id is only
/// authorized as the owner.
pub open spec fn transfer_authorized(
    rec: TokenRecord,
    sender: Seq<char>,
    approval_id: Option<u64>,
) -> bool {
    ||| rec.owner_id@ == sender
    ||| {
        &&& has_approval(rec.approved_account_ids@, sender)
        &&& approval_id is Some
        &&& approval_id->0 == approval_id_of(rec.approved_account_ids@, sender)
    }
}

/// The metadata a read composes for an edition: the display fields come
/// from the parent series' template at read time, the mint timestamp from
/// the edition's own record, and nothing else is stored per edition.
pub open spec fn composed_metadata(tpl: TokenMetadata, issued_at: u64) -> TokenMetadata {
    TokenMetadata {
        title: tpl.title,
        description: tpl.description,
        media: tpl.media,
        media_hash: None,
        copies: tpl.copies,
        issued_at: Some(issued_at),
        expires_at: None,
        starts_at: None,
        updated_at: None,
        extra: tpl.extra,
        reference: tpl.reference,
        reference_hash: None,
    }
}

impl Contract {
    /// The caller-facing view `t` renders ledger record `rec` faithfully:
    /// stored ownership state joined with the parent template.
    pub open spec fn token_view_matches(self, t: Token, rec: TokenRecord) -> bool {
        &&& t.token_id == rec.token_id
        &&& t.owner_id == rec.owner_id
        &&& t.approved_account_ids@ == rec.approved_account_ids@
        &&& t.metadata == Some(
            composed_metadata(self.series_at(rec.token_id.token_series_id).metadata, rec.issued_at),
        )
    }
}

/// How a successful transfer changes the state: the one record moves to the
/// receiver with its approval table cleared, and nothing else moves.
pub open spec fn transfer_post(c0: Contract, c1: Contract, tid: TokenId, receiver: Seq<char>) -> bool {
    let i = c0.token_index(tid);
    let rec0 = c0.tokens@[i];
    let rec1 = c1.tokens@[i];
    &&& c1.tokens@ == c0.tokens@.update(i, rec1)
    &&& rec1.token_id == rec0.token_id
    &&& rec1.owner_id@ == receiver
    &&& rec1.issued_at == rec0.issued_at
    &&& rec1.next_approval_id == rec0.next_approval_id
    &&& rec1.approved_account_ids@.len() == 0
    &&& c1.token_series_by_id == c0.token_series_by_id
    &&& c1.owner_id == c0.owner_id
    &&& c1.treasury_id == c0.treasury_id
    &&& c1.transaction_fee == c0.transaction_fee
    &&& c1.market_data_transaction_fee.transaction_fee
        == c0.market_data_transaction_fee.transaction_fee
}

/// How a rollback changes the state: ownership returns to the prior owner
/// and the prior approval table (when it was captured) is restored; nothing
/// else moves.
pub open spec fn rollback_post(
    c0: Contract,
    c1: Contract,
    tid: TokenId,
    prev_owner: String,
    restored: Option<Vec<(String, u64)>>,
) -> bool {
    let i = c0.token_index(tid);
    let rec0 = c0.tokens@[i];
    let rec1 = c1.tokens@[i];
    &&& c1.tokens@ == c0.tokens@.update(i, rec1)
    &&& rec1.token_id == rec0.token_id
    &&& rec1.owner_id == prev_owner
    &&& rec1.issued_at == rec0.issued_at
    &&& rec1.next_approval_id == rec0.next_approval_id
    &&& rec1.approved_account_ids@ == (if restored is Some {
        restored->0@
    } else {
        rec0.approved_account_ids@
    })
    &&& c1.token_series_by_id == c0.token_series_by_id
    &&& c1.owner_id == c0.owner_id
    &&& c1.treasury_id == c0.treasury_id
    &&& c1.transaction_fee == c0.transaction_fee
    &&& c1.market_data_transaction_fee.transaction_fee
        == c0.market_data_transaction_fee.transaction_fee
}

impl Contract {
    /// In a well-formed ledger, an index holding `tid` is the index
    /// `token_index` denotes.
    pub proof fn lemma_token_index_is(self, i: int)
        requires
            self.wf(),
            0 <= i < self.tokens@.len(),
        ensures
            self.has_token(self.tokens@[i].token_id),
            self.token_index(self.tokens@[i].token_id) == i,
    {
        let tid = self.tokens@[i].token_id;
        assert(self.has_token(tid));
        let j = self.token_index(tid);
        if j != i {
            if i < j {
                assert(self.tokens@[i].token_id != self.tokens@[j].token_id);
            } else {
                assert(self.tokens@[j].token_id != self.tokens@[i].token_id);
            }
        }
    }

    /// The ledger position of `token_id`'s record, if it exists.
    fn find_token(&self, token_id: TokenId) -> (r: Option<usize>)
        requires
            self.wf(),
        ensures
            r is Some <==> self.has_token(token_id),
            r is Some ==> {
                &&& r->0 < self.tokens@.len()
                &&& self.tokens@[r->0 as int].token_id == token_id
                &&& self.token_index(token_id) == r->0 as int
            },
    {
        let n: usize = self.tokens.len();
        let mut i: usize = 0;
        while i < n
            invariant
                self.wf(),
                0 <= i <= n,
                n == self.tokens@.len(),
                forall|k: int| 0 <= k < i ==> (#[trigger] self.tokens@[k]).token_id != token_id,
            decreases n - i,
        {
            if self.tokens[i].token_id == token_id {
                proof {
                    self.lemma_token_index_is(i as int);
                }
                return Some(i);
            }
            i += 1;
        }
        None
    }

    /// The approval id the table registers for `who`, if any.
    fn find_approval(a: &Vec<(String, u64)>, who: &String) -> (r: Option<u64>)
        requires
            approvals_unique(a@),
        ensures
            r is Some <==> has_approval(a@, who@),
            r is Some ==> r->0 == approval_id_of(a@, who@),
    {
        let n: usize = a.len();
        let mut i: usize = 0;
        while i < n
            invariant
                approvals_unique(a@),
                0 <= i <= n,
                n == a@.len(),
                forall|k: int| 0 <= k < i ==> (#[trigger] a@[k]).0@ != who@,
            decreases n - i,
        {
            if a[i].0.eq(who) {
                proof {
                    let j = choose|k: int| 0 <= k < a@.len() && a@[k].0@ == who@;
                    if j != i as int {
                        assert(a@[j].0@ == a@[i as int].0@);
                    }
                }
                return Some(a[i].1);
            }
            i += 1;
        }
        None
    }

    /// The view of one edition: the stored owner, approval table and mint
    /// time, joined at read time with the parent series' current template.
    pub fn nft_token(&self, token_id: TokenId) -> (r: Option<Token>)
        requires
            self.wf(),
        ensures
            r is Some <==> self.has_token(token_id),
            r is Some ==> self.token_view_matches(r->0, self.token_at(token_id)),
    {
        let idx: usize = match self.find_token(token_id) {
            Some(i) => i,
            None => {
                return None;
            },
        };
        proof {
            assert(self.record_wf(self.tokens@[idx as int]));
            assert(1 <= self.tokens@[idx as int].token_id.token_series_id
                <= self.token_series_by_id@.len());
        }
        let rec: &TokenRecord = &self.tokens[idx];
        let n_series: usize = self.token_series_by_id.len();
        let sidx: usize = (rec.token_id.token_series_id - 1) as usize;
        assert(sidx < n_series);
        let tpl: &TokenMetadata = &self.token_series_by_id[sidx].metadata;
        let metadata = TokenMetadata {
            title: clone_opt_string(&tpl.title),
            description: clone_opt_string(&tpl.description),
            media: clone_opt_string(&tpl.media),
            media_hash: None,
            copies: tpl.copies,
            issued_at: Some(rec.issued_at),
            expires_at: None,
            starts_at: None,
            updated_at: None,
            extra: clone_opt_string(&tpl.extra),
            reference: clone_opt_string(&tpl.reference),
            reference_hash: None,
        };
        Some(
            Token {
                token_id,
                owner_id: rec.owner_id.clone(),
                metadata: Some(metadata),
                approved_account_ids: clone_pairs(&rec.approved_account_ids),
            },
        )
    }

    /// Moves an edition to `receiver_id` on behalf of `sender_id`, clearing
    /// its approval table, and hands back the prior owner and the prior
    /// approvals for the caller's further use. The sender must be the owner,
    /// or an approved party supplying its registered approval id; the
    /// receiver must not already own it.
    pub(crate) fn internal_transfer(
        &mut self,
        sender_id: &String,
        receiver_id: &String,
        token_id: TokenId,
        approval_id: Option<u64>,
    ) -> (r: Result<(String, Vec<(String, u64)>), ContractError>)
        requires
            old(self).wf(),
        ensures
            final(self).wf(),
            r is Ok <==> {
                &&& old(self).has_token(token_id)
                &&& transfer_authorized(old(self).token_at(token_id), sender_id@, approval_id)
                &&& old(self).token_at(token_id).owner_id@ != receiver_id@
            },
            r is Err ==> *final(self) == *old(self),
            !old(self).has_token(token_id) ==> r == Err::<(String, Vec<(String, u64)>), ContractError>(
                ContractError::TokenNotFound,
            ),
            old(self).has_token(token_id) && old(self).token_at(token_id).owner_id@ != sender_id@
                && (!has_approval(old(self).token_at(token_id).approved_account_ids@, sender_id@)
                || approval_id is None) ==> r == Err::<(String, Vec<(String, u64)>), ContractError>(
                ContractError::Unauthorized,
            ),
            old(self).has_token(token_id) && old(self).token_at(token_id).owner_id@ != sender_id@
                && has_approval(old(self).token_at(token_id).approved_account_ids@, sender_id@)
                && approval_id is Some && approval_id->0 != approval_id_of(
                old(self).token_at(token_id).approved_account_ids@,
                sender_id@,
            ) ==> r == Err::<(String, Vec<(String, u64)>), ContractError>(
                ContractError::ApprovalMismatch,
            ),
            old(self).has_token(token_id) && transfer_authorized(
                old(self).token_at(token_id),
                sender_id@,
                approval_id,
            ) && old(self).token_at(token_id).owner_id@ == receiver_id@ ==> r == Err::<
                (String, Vec<(String, u64)>),
                ContractError,
            >(ContractError::ReceiverIsOwner),
            r is Ok ==> {
                &&& r->Ok_0.0 == old(self).token_at(token_id).owner_id
                &&& r->Ok_0.1@ == old(self).token_at(token_id).approved_account_ids@
                &&& transfer_post(*old(self), *final(self), token_id, receiver_id@)
            },
    {
        let idx: usize = match self.find_token(token_id) {
            Some(i) => i,
            None => {
                return Err(ContractError::TokenNotFound);
            },
        };
        proof {
            assert(self.record_wf(self.tokens@[idx as int]));
        }
        if !self.tokens[idx].owner_id.eq(sender_id) {
            let actual: u64 = match Self::find_approval(
                &self.tokens[idx].approved_account_ids,
                sender_id,
            ) {
                Some(a) => a,
                None => {
                    return Err(ContractError::Unauthorized);
                },
            };
            match approval_id {
                None => {
                    return Err(ContractError::Unauthorized);
                },
                Some(enforced) => {
                    if enforced != actual {
                        return Err(ContractError::ApprovalMismatch);
                    }
                },
            }
        }
        if self.tokens[idx].owner_id.eq(receiver_id) {
            return Err(ContractError::ReceiverIsOwner);
        }
        let ghost c0 = *self;
        let mut rec: TokenRecord = self.tokens.remove(idx);
        let previous_owner: String = rec.owner_id;
        let old_approvals: Vec<(String, u64)> = rec.approved_account_ids;
        rec.owner_id = receiver_id.clone();
        rec.approved_account_ids = Vec::new();
        self.tokens.insert(idx, rec);
        proof {
            assert(self.tokens@ =~= c0.tokens@.update(idx as int, self.tokens@[idx as int]));
            assert forall|i: int|
                0 <= i < self.tokens@.len() implies self.record_wf(
                #[trigger] self.tokens@[i],
            ) by {
                assert(c0.record_wf(c0.tokens@[i]));
            }
            assert forall|i: int, j: int|
                0 <= i < j < self.tokens@.len() implies self.tokens@[i].token_id
                != self.tokens@[j].token_id by {
                assert(c0.tokens@[i].token_id != c0.tokens@[j].token_id);
            }
        }
        Ok((previous_owner, old_approvals))
    }

    /// Single-phase transfer without a deposit guard: validates the sender's
    /// authority, moves ownership and clears the approval table.
    pub fn nft_transfer_unsafe(
        &mut self,
        sender_id: &String,
        receiver_id: &String,
        token_id: TokenId,
        approval_id: Option<u64>,
        memo: Option<String>,
    ) -> (r: Result<(), ContractError>)
        requires
            old(self).wf(),
        ensures
            final(self).wf(),
            r is Ok <==> {
                &&& old(self).has_token(token_id)
                &&& transfer_authorized(old(self).token_at(token_id), sender_id@, approval_id)
                &&& old(self).token_at(token_id).owner_id@ != receiver_id@
            },
            r is Err ==> *final(self) == *old(self),
            r is Ok ==> transfer_post(*old(self), *final(self), token_id, receiver_id@),
    {
        let _ = memo;
        match self.internal_transfer(sender_id, receiver_id, token_id, approval_id) {
            Ok(_) => Ok(()),
            Err(e) => Err(e),
        }
    }

    /// Single-phase transfer: validates the sender's authority, moves
    /// ownership and clears the approval table.
    pub fn nft_transfer(
        &mut self,
        sender_id: &String,
        receiver_id: &String,
        token_id: TokenId,
        approval_id: Option<u64>,
        memo: Option<String>,
    ) -> (r: Result<(), ContractError>)
        requires
            old(self).wf(),
        ensures
            final(self).wf(),
            r is Ok <==> {
                &&& old(self).has_token(token_id)
                &&& transfer_authorized(old(self).token_at(token_id), sender_id@, approval_id)
                &&& old(self).token_at(token_id).owner_id@ != receiver_id@
            },
            r is Err ==> *final(self) == *old(self),
            !old(self).has_token(token_id) ==> r == Err::<(), ContractError>(
                ContractError::TokenNotFound,
            ),
            r is Ok ==> transfer_post(*old(self), *final(self), token_id, receiver_id@),
    {
        let _ = memo;
        match self.internal_transfer(sender_id, receiver_id, token_id, approval_id) {
            Ok(_) => Ok(()),
            Err(e) => Err(e),
        }
    }

    /// Phase 1 of the acknowledged transfer: moves ownership exactly as
    /// `nft_transfer` does, but additionally captures the prior owner and
    /// prior approval table in the returned record. The caller must invoke
    /// the receiver's acceptance hook with the record's `msg` and feed the
    /// answer into `nft_resolve_transfer` exactly once.
    pub fn nft_transfer_call(
        &mut self,
        sender_id: &String,
        receiver_id: &String,
        token_id: TokenId,
        approval_id: Option<u64>,
        memo: Option<String>,
        msg: String,
    ) -> (r: Result<PendingTransfer, ContractError>)
        requires
            old(self).wf(),
        ensures
            final(self).wf(),
            r is Ok <==> {
                &&& old(self).has_token(token_id)
                &&& transfer_authorized(old(self).token_at(token_id), sender_id@, approval_id)
                &&& old(self).token_at(token_id).owner_id@ != receiver_id@
            },
            r is Err ==> *final(self) == *old(self),
            !old(self).has_token(token_id) ==> r == Err::<PendingTransfer, ContractError>(
                ContractError::TokenNotFound,
            ),
            r is Ok ==> {
                let pending = r->Ok_0;
                &&& transfer_post(*old(self), *final(self), token_id, receiver_id@)
                &&& pending.sender_id@ == sender_id@
                &&& pending.previous_owner_id == old(self).token_at(token_id).owner_id
                &&& pending.receiver_id@ == receiver_id@
                &&& pending.token_id == token_id
                &&& pending.approved_account_ids@ == old(self).token_at(
                    token_id,
                ).approved_account_ids@
                &&& pending.msg == msg
            },
    {
        let _ = memo;
        match self.internal_transfer(sender_id, receiver_id, token_id, approval_id) {
            Ok((previous_owner_id, old_approvals)) => Ok(
                PendingTransfer {
                    sender_id: sender_id.clone(),
                    previous_owner_id,
                    receiver_id: receiver_id.clone(),
                    token_id,
                    approved_account_ids: old_approvals,
                    msg,
                },
            ),
            Err(e) => Err(e),
        }
    }

    /// Phase 2 of the acknowledged transfer, run by the protocol itself
    /// after the receiver's hook settles. `hook_result` is the hook's
    /// answer: `Some(true)` asks for the edition back, `Some(false)` keeps
    /// it, `None` means the hook failed and counts as a rejection. Returns
    /// whether the transfer stands. A rejection rolls ownership back to
    /// `previous_owner_id` and restores the captured approval table — unless
    /// the edition was burned or moved on during the suspension, in which
    /// case the state is left exactly as found.
    pub fn nft_resolve_transfer(
        &mut self,
        previous_owner_id: String,
        receiver_id: &String,
        token_id: TokenId,
        approved_account_ids: Option<Vec<(String, u64)>>,
        hook_result: Option<bool>,
    ) -> (r: bool)
        requires
            old(self).wf(),
            approved_account_ids is Some ==> approvals_unique(approved_account_ids->0@),
        ensures
            final(self).wf(),
            hook_result == Some(false) ==> r == true && *final(self) == *old(self),
            hook_result != Some(false) && !old(self).has_token(token_id) ==> r == true
                && *final(self) == *old(self),
            hook_result != Some(false) && old(self).has_token(token_id) && old(self).token_at(
                token_id,
            ).owner_id@ != receiver_id@ ==> r == true && *final(self) == *old(self),
            hook_result != Some(false) && old(self).has_token(token_id) && old(self).token_at(
                token_id,
            ).owner_id@ == receiver_id@ ==> r == false && rollback_post(
                *old(self),
                *final(self),
                token_id,
                previous_owner_id,
                approved_account_ids,
            ),
    {
        if let Some(returned) = hook_result {
            if !returned {
                // The receiver keeps the edition: the transfer stands.
                return true;
            }
        }
        let idx: usize = match self.find_token(token_id) {
            Some(i) => i,
            None => {
                // Burned during the suspension: nothing to restore.
                return true;
            },
        };
        if !self.tokens[idx].owner_id.eq(receiver_id) {
            // Moved on during the suspension: rolling back would seize it
            // from an unrelated owner, so the state is left as found.
            return true;
        }
        let ghost c0 = *self;
        let mut rec: TokenRecord = self.tokens.remove(idx);
        rec.owner_id = previous_owner_id;
        if let Some(approvals) = approved_account_ids {
            rec.approved_account_ids = approvals;
        }
        self.tokens.insert(idx, rec);
        proof {
            assert(self.tokens@ =~= c0.tokens@.update(idx as int, self.tokens@[idx as int]));
            assert forall|i: int|
                0 <= i < self.tokens@.len() implies self.record_wf(
                #[trigger] self.tokens@[i],
            ) by {
                assert(c0.record_wf(c0.tokens@[i]));
            }
            assert forall|i: int, j: int|
                0 <= i < j < self.tokens@.len() implies self.tokens@[i].token_id
                != self.tokens@[j].token_id by {
                assert(c0.tokens@[i].token_id != c0.tokens@[j].token_id);
            }
        }
        false
    }

    /// Burns an edition: removes its ledger record entirely. Owner only.
    /// The parent series' minted count is unaffected, so the edition number
    /// is never reissued.
    pub fn nft_burn(&mut self, caller_id: &String, token_id: TokenId) -> (r: Result<
        (),
        ContractError,
    >)
        requires
            old(self).wf(),
        ensures
            final(self).wf(),
            r is Ok <==> old(self).has_token(token_id) && old(self).token_at(token_id).owner_id@
                == caller_id@,
            r is Err ==> *final(self) == *old(self),
            !old(self).has_token(token_id) ==> r == Err::<(), ContractError>(
                ContractError::TokenNotFound,
            ),
            old(self).has_token(token_id) && old(self).token_at(token_id).owner_id@ != caller_id@
                ==> r == Err::<(), ContractError>(ContractError::Unauthorized),
            r is Ok ==> {
                &&& final(self).tokens@ == old(self).tokens@.remove(
                    old(self).token_index(token_id),
                )
                &&& final(self).token_series_by_id == old(self).token_series_by_id
                &&& final(self).owner_id == old(self).owner_id
                &&& final(self).treasury_id == old(self).treasury_id
                &&& final(self).transaction_fee == old(self).transaction_fee
                &&& final(self).market_data_transaction_fee.transaction_fee == old(
                    self,
                ).market_data_transaction_fee.transaction_fee
            },
    {
        let idx: usize = match self.find_token(token_id) {
            Some(i) => i,
            None => {
                return Err(ContractError::TokenNotFound);
            },
        };
        if !self.tokens[idx].owner_id.eq(caller_id) {
            return Err(ContractError::Unauthorized);
        }
        let ghost c0 = *self;
        let _removed = self.tokens.remove(idx);
        proof {
            assert forall|i: int|
                0 <= i < self.tokens@.len() implies self.record_wf(
                #[trigger] self.tokens@[i],
            ) by {
                if i < idx as int {
                    assert(c0.record_wf(c0.tokens@[i]));
                } else {
                    assert(c0.record_wf(c0.tokens@[i + 1]));
                }
            }
            assert forall|i: int, j: int|
                0 <= i < j < self.tokens@.len() implies self.tokens@[i].token_id
                != self.tokens@[j].token_id by {
                let i0 = if i < idx as int {
                    i
                } else {
                    i + 1
                };
                let j0 = if j < idx as int {
                    j
                } else {
                    j + 1
                };
                assert(c0.tokens@[i0].token_id != c0.tokens@[j0].token_id);
            }
        }
        Ok(())
    }

    /// How many editions exist, over all series, burned ones excluded.
    pub fn nft_total_supply(&self) -> (r: u128)
        ensures
            r == self.tokens@.len(),
    {
        self.tokens.len() as u128
    }

    /// A page of edition views, in ledger order. Fails when `from_index`
    /// points past the ledger or the limit is zero.
    pub fn nft_tokens(&self, from_index: Option<u128>, limit: Option<u64>) -> (r: Result<
        Vec<Token>,
        ContractError,
    >)
        requires
            self.wf(),
        ensures
            r is Ok <==> {
                &&& (if from_index is Some {
                    from_index->0 as int
                } else {
                    0
                }) < self.tokens@.len()
                &&& limit != Some(0u64)
            },
            (if from_index is Some {
                from_index->0 as int
            } else {
                0
            }) >= self.tokens@.len() ==> r == Err::<Vec<Token>, ContractError>(
                ContractError::OutOfBounds,
            ),
            (if from_index is Some {
                from_index->0 as int
            } else {
                0
            }) < self.tokens@.len() && limit == Some(0u64) ==> r == Err::<Vec<Token>, ContractError>(
                ContractError::ZeroLimit,
            ),
            r is Ok ==> {
                let start = if from_index is Some {
                    from_index->0 as int
                } else {
                    0
                };
                let lim = if limit is Some {
                    limit->0 as int
                } else {
                    u64::MAX as int
                };
                let page = r->Ok_0;
                &&& page@.len() == (if lim <= self.tokens@.len() - start {
                    lim
                } else {
                    self.tokens@.len() - start
                })
                &&& forall|k: int|
                    0 <= k < page@.len() ==> self.token_view_matches(
                        #[trigger] page@[k],
                        self.tokens@[start + k],
                    )
            },
    {
        let start_index: u128 = match from_index {
            Some(v) => v,
            None => 0,
        };
        if start_index >= self.tokens.len() as u128 {
            return Err(ContractError::OutOfBounds);
        }
        let limit_val: u64 = match limit {
            Some(v) => v,
            None => u64::MAX,
        };
        if limit_val == 0 {
            return Err(ContractError::ZeroLimit);
        }
        let start: usize = start_index as usize;
        let n: usize = self.tokens.len();
        let remaining: usize = n - start;
        let count: usize = if limit_val < remaining as u64 {
            limit_val as usize
        } else {
            remaining
        };
        let mut page: Vec<Token> = Vec::new();
        let mut k: usize = 0;
        while k < count
            invariant
                self.wf(),
                0 <= k <= count,
                n == self.tokens@.len(),
                start + count <= n,
                page@.len() == k,
                forall|j: int|
                    0 <= j < k ==> self.token_view_matches(
                        #[trigger] page@[j],
                        self.tokens@[start + j],
                    ),
            decreases count - k,
        {
            proof {
                self.lemma_token_index_is((start + k) as int);
            }
            let t: Token = match self.nft_token(self.tokens[start + k].token_id) {
                Some(t) => t,
                None => {
                    proof {
                        assert(false);
                    }
                    return Err(ContractError::TokenNotFound);
                },
            };
            page.push(t);
            k += 1;
        }
        Ok(page)
    }

    /// How many editions `account_id` owns.
    pub fn nft_supply_for_owner(&self, account_id: &String) -> (r: u128)
        requires
            self.wf(),
        ensures
            r == owned_records(self.tokens@, account_id@).len(),
    {
        let n: usize = self.tokens.len();
        let mut count: u128 = 0;
        let mut i: usize = 0;
        while i < n
            invariant
                0 <= i <= n,
                n == self.tokens@.len(),
                count == owned_records(self.tokens@.take(i as int), account_id@).len(),
                count <= i,
            decreases n - i,
        {
            proof {
                assert(self.tokens@.take(i as int + 1).drop_last() =~= self.tokens@.take(i as int));
            }
            if self.tokens[i].owner_id.eq(account_id) {
                count = count + 1;
            }
            i += 1;
        }
        proof {
            assert(self.tokens@.take(n as int) =~= self.tokens@);
        }
        count
    }

    /// A page of the edition views `account_id` owns, in ledger order,
    /// under the query surface's shared bounds contract: `from_index` must
    /// point into the owned collection (so an owner of nothing always gets
    /// the out-of-bounds condition) and a limit of 0 is rejected.
    pub fn nft_tokens_for_owner(
        &self,
        account_id: &String,
        from_index: Option<u128>,
        limit: Option<u64>,
    ) -> (r: Result<Vec<Token>, ContractError>)
        requires
            self.wf(),
        ensures
            ({
                let owned = owned_records(self.tokens@, account_id@);
                let start = if from_index is Some {
                    from_index->0 as int
                } else {
                    0
                };
                let lim = if limit is Some {
                    limit->0 as int
                } else {
                    u64::MAX as int
                };
                &&& (r is Ok <==> start < owned.len() && lim > 0)
                &&& (start >= owned.len() ==> r == Err::<Vec<Token>, ContractError>(
                    ContractError::OutOfBounds,
                ))
                &&& (start < owned.len() && lim == 0 ==> r == Err::<Vec<Token>, ContractError>(
                    ContractError::ZeroLimit,
                ))
                &&& (r is Ok ==> {
                    let page = r->Ok_0;
                    &&& page@.len() == (if lim <= owned.len() - start {
                        lim
                    } else {
                        owned.len() - start
                    })
                    &&& forall|k: int|
                        0 <= k < page@.len() ==> self.token_view_matches(
                            #[trigger] page@[k],
                            owned[start + k],
                        )
                })
            }),
    {
        let n: usize = self.tokens.len();
        let mut all: Vec<Token> = Vec::new();
        let mut i: usize = 0;
        while i < n
            invariant
                self.wf(),
                0 <= i <= n,
                n == self.tokens@.len(),
                all@.len() == owned_records(self.tokens@.take(i as int), account_id@).len(),
                forall|j: int|
                    0 <= j < all@.len() ==> self.token_view_matches(
                        #[trigger] all@[j],
                        owned_records(self.tokens@.take(i as int), account_id@)[j],
                    ),
            decreases n - i,
        {
            proof {
                assert(self.tokens@.take(i as int + 1).drop_last() =~= self.tokens@.take(i as int));
                self.lemma_token_index_is(i as int);
            }
            if self.tokens[i].owner_id.eq(account_id) {
                let t: Token = match self.nft_token(self.tokens[i].token_id) {
                    Some(t) => t,
                    None => {
                        proof {
                            assert(false);
                        }
                        return Err(ContractError::TokenNotFound);
                    },
                };
                all.push(t);
            }
            i += 1;
        }
        proof {
            assert(self.tokens@.take(n as int) =~= self.tokens@);
        }
        let start_index: u128 = match from_index {
            Some(v) => v,
            None => 0,
        };
        if start_index >= all.len() as u128 {
            return Err(ContractError::OutOfBounds);
        }
        let limit_val: u64 = match limit {
            Some(v) => v,
            None => u64::MAX,
        };
        if limit_val == 0 {
            return Err(ContractError::ZeroLimit);
        }
        let start: usize = start_index as usize;
        let m: usize = all.len();
        let remaining: usize = m - start;
        let count: usize = if limit_val < remaining as u64 {
            limit_val as usize
        } else {
            remaining
        };
        let ghost owned = owned_records(self.tokens@, account_id@);
        let mut page: Vec<Token> = Vec::new();
        let mut k: usize = 0;
        while k < count
            invariant
                self.wf(),
                owned == owned_records(self.tokens@, account_id@),
                0 <= k <= count,
                m == all@.len(),
                m == owned.len(),
                forall|j: int|
                    0 <= j < m ==> self.token_view_matches(#[trigger] all@[j], owned[j]),
                start + count <= m,
                page@.len() == k,
                forall|j: int|
                    0 <= j < k ==> self.token_view_matches(#[trigger] page@[j], owned[start + j]),
            decreases count - k,
        {
            let idx: usize = start + k;
            let rec: &Token = &all[idx];
            page.push(
                Token {
                    token_id: rec.token_id,
                    owner_id: rec.owner_id.clone(),
                    metadata: match &rec.metadata {
                        Some(m0) => Some(m0.duplicate()),
                        None => None,
                    },
                    approved_account_ids: clone_pairs(&rec.approved_account_ids),
                },
            );
            k += 1;
        }
        Ok(page)
    }

    /// A page of one series' edition views, numbered from `from_index + 1`
    /// upward. Fails when the series is unknown, the bounds are bad, or an
    /// edition in the window has been burned.
    pub fn nft_tokens_by_series(
        &self,
        token_series_id: u64,
        from_index: Option<u128>,
        limit: Option<u64>,
    ) -> (r: Result<Vec<Token>, ContractError>)
        requires
            self.wf(),
        ensures
            ({
                let start = if from_index is Some {
                    from_index->0 as int
                } else {
                    0
                };
                let lim = if limit is Some {
                    limit->0 as int
                } else {
                    u64::MAX as int
                };
                let minted = self.series_at(token_series_id).tokens_count as int;
                let cnt = if lim <= minted - start {
                    lim
                } else {
                    minted - start
                };
                &&& (!self.valid_series_id(token_series_id) ==> r == Err::<
                    Vec<Token>,
                    ContractError,
                >(ContractError::SeriesNotFound))
                &&& (self.valid_series_id(token_series_id) && start >= minted ==> r == Err::<
                    Vec<Token>,
                    ContractError,
                >(ContractError::OutOfBounds))
                &&& (self.valid_series_id(token_series_id) && start < minted && lim == 0 ==> r
                    == Err::<Vec<Token>, ContractError>(ContractError::ZeroLimit))
                &&& (r is Ok <==> {
                    &&& self.valid_series_id(token_series_id)
                    &&& start < minted
                    &&& lim > 0
                    &&& forall|e: int|
                        start < e <= start + cnt ==> #[trigger] self.has_token(
                            (TokenId { token_series_id, edition: e as u64 }),
                        )
                })
                &&& (r is Ok ==> {
                    let page = r->Ok_0;
                    &&& page@.len() == cnt
                    &&& forall|k: int|
                        0 <= k < cnt ==> self.token_view_matches(
                            #[trigger] page@[k],
                            self.token_at(
                                (TokenId {
                                    token_series_id,
                                    edition: (start + k + 1) as u64,
                                }),
                            ),
                        )
                })
            }),
    {
        if !(1 <= token_series_id && token_series_id <= self.token_series_by_id.len() as u64) {
            return Err(ContractError::SeriesNotFound);
        }
        let sidx: usize = (token_series_id - 1) as usize;
        let minted: u64 = self.token_series_by_id[sidx].tokens_count;
        let start_index: u128 = match from_index {
            Some(v) => v,
            None => 0,
        };
        if start_index >= minted as u128 {
            return Err(ContractError::OutOfBounds);
        }
        let limit_val: u64 = match limit {
            Some(v) => v,
            None => u64::MAX,
        };
        if limit_val == 0 {
            return Err(ContractError::ZeroLimit);
        }
        let start: u64 = start_index as u64;
        let remaining: u64 = minted - start;
        let count: u64 = if limit_val < remaining {
            limit_val
        } else {
            remaining
        };
        let mut page: Vec<Token> = Vec::new();
        let mut k: u64 = 0;
        while k < count
            invariant
                self.wf(),
                0 <= k <= count,
                start + count <= minted,
                self.valid_series_id(token_series_id),
                minted == self.series_at(token_series_id).tokens_count,
                start == (if from_index is Some {
                    from_index->0 as int
                } else {
                    0
                }),
                limit_val == (if limit is Some {
                    limit->0
                } else {
                    u64::MAX
                }),
                limit_val > 0,
                start < minted,
                count == (if limit_val as int <= minted - start {
                    limit_val as int
                } else {
                    minted as int - start
                }),
                page@.len() == k,
                forall|e: int|
                    start < e <= start + k ==> #[trigger] self.has_token(
                        (TokenId { token_series_id, edition: e as u64 }),
                    ),
                forall|j: int|
                    0 <= j < k ==> self.token_view_matches(
                        #[trigger] page@[j],
                        self.token_at(
                            (TokenId { token_series_id, edition: (start + j + 1) as u64 }),
                        ),
                    ),
            decreases count - k,
        {
            let tid = TokenId { token_series_id, edition: start + k + 1 };
            let t: Token = match self.nft_token(tid) {
                Some(t) => t,
                None => {
                    proof {
                        let e = start as int + k as int + 1;
                        assert(!self.has_token(
                            (TokenId { token_series_id, edition: e as u64 }),
                        ));
                    }
                    return Err(ContractError::TokenNotFound);
                },
            };
            page.push(t);
            k += 1;
        }
        Ok(page)
    }

    /// The payout split a sale of `balance` would owe if this edition were
    /// sold now: each royalty party other than the current owner gets its
    /// share rounded down, and the owner gets the exact remainder. Pure:
    /// mutates nothing. Fails if the edition is unknown, the royalty table
    /// names more parties than `max_len_payout`, or the balance is too
    /// large to split without overflow.
    pub fn nft_payout(&self, token_id: TokenId, balance: u128, max_len_payout: u32) -> (r: Result<
        Payout,
        ContractError,
    >)
        requires
            self.wf(),
        ensures
            r is Ok <==> {
                &&& self.has_token(token_id)
                &&& self.series_at(token_id.token_series_id).royalty@.len() <= max_len_payout
                &&& balance <= u128::MAX / 10000
            },
            !self.has_token(token_id) ==> r == Err::<Payout, ContractError>(
                ContractError::TokenNotFound,
            ),
            self.has_token(token_id) && self.series_at(token_id.token_series_id).royalty@.len()
                > max_len_payout ==> r == Err::<Payout, ContractError>(
                ContractError::TooManyRecipients,
            ),
            self.has_token(token_id) && self.series_at(token_id.token_series_id).royalty@.len()
                <= max_len_payout && balance > u128::MAX / 10000 ==> r == Err::<
                Payout,
                ContractError,
            >(ContractError::BalanceTooLarge),
            r is Ok ==> {
                &&& payout_matches_table(
                    r->Ok_0.payout@,
                    self.series_at(token_id.token_series_id).royalty@,
                    self.token_at(token_id).owner_id@,
                    balance,
                )
                &&& payout_sum(r->Ok_0.payout@) == balance
            },
    {
        let idx: usize = match self.find_token(token_id) {
            Some(i) => i,
            None => {
                return Err(ContractError::TokenNotFound);
            },
        };
        proof {
            assert(self.record_wf(self.tokens@[idx as int]));
        }
        let n_series: usize = self.token_series_by_id.len();
        let sidx: usize = (token_id.token_series_id - 1) as usize;
        assert(sidx < n_series);
        let royalty: &Vec<(String, u32)> = &self.token_series_by_id[sidx].royalty;
        if royalty.len() > max_len_payout as usize {
            return Err(ContractError::TooManyRecipients);
        }
        if balance > u128::MAX / 10_000 {
            return Err(ContractError::BalanceTooLarge);
        }
        Ok(compute_payout(royalty, &self.tokens[idx].owner_id, balance))
    }

    /// Single-phase transfer composed with the payout split: moves the
    /// edition to `receiver_id` and, when a sale amount is supplied,
    /// returns the split computed against the owner the edition had before
    /// the move. Moving value is the caller's step. A supplied amount
    /// requires a recipient bound.
    pub fn nft_transfer_payout(
        &mut self,
        sender_id: &String,
        receiver_id: &String,
        token_id: TokenId,
        approval_id: Option<u64>,
        balance: Option<u128>,
        max_len_payout: Option<u32>,
    ) -> (r: Result<Option<Payout>, ContractError>)
        requires
            old(self).wf(),
        ensures
            final(self).wf(),
            r is Ok <==> {
                &&& old(self).has_token(token_id)
                &&& (balance is Some ==> {
                    &&& max_len_payout is Some
                    &&& old(self).series_at(token_id.token_series_id).royalty@.len()
                        <= max_len_payout->0
                    &&& balance->0 <= u128::MAX / 10000
                })
                &&& transfer_authorized(old(self).token_at(token_id), sender_id@, approval_id)
                &&& old(self).token_at(token_id).owner_id@ != receiver_id@
            },
            r is Err ==> *final(self) == *old(self),
            !old(self).has_token(token_id) ==> r == Err::<Option<Payout>, ContractError>(
                ContractError::TokenNotFound,
            ),
            old(self).has_token(token_id) && balance is Some && max_len_payout is None ==> r
                == Err::<Option<Payout>, ContractError>(ContractError::MaxRecipientsRequired),
            old(self).has_token(token_id) && balance is Some && max_len_payout is Some && old(
                self,
            ).series_at(token_id.token_series_id).royalty@.len() > max_len_payout->0 ==> r == Err::<
                Option<Payout>,
                ContractError,
            >(ContractError::TooManyRecipients),
            old(self).has_token(token_id) && balance is Some && max_len_payout is Some && old(
                self,
            ).series_at(token_id.token_series_id).royalty@.len() <= max_len_payout->0 && balance->0
                > u128::MAX / 10000 ==> r == Err::<Option<Payout>, ContractError>(
                ContractError::BalanceTooLarge,
            ),
            r is Ok ==> {
                &&& transfer_post(*old(self), *final(self), token_id, receiver_id@)
                &&& (balance is None ==> r->Ok_0 is None)
                &&& (balance is Some ==> {
                    &&& r->Ok_0 is Some
                    &&& payout_matches_table(
                        r->Ok_0->0.payout@,
                        old(self).series_at(token_id.token_series_id).royalty@,
                        old(self).token_at(token_id).owner_id@,
                        balance->0,
                    )
                    &&& payout_sum(r->Ok_0->0.payout@) == balance->0
                })
            },
    {
        let idx: usize = match self.find_token(token_id) {
            Some(i) => i,
            None => {
                return Err(ContractError::TokenNotFound);
            },
        };
        proof {
            assert(self.record_wf(self.tokens@[idx as int]));
        }
        let n_series: usize = self.token_series_by_id.len();
        let sidx: usize = (token_id.token_series_id - 1) as usize;
        assert(sidx < n_series);
        let balance_val: Option<u128> = balance;
        if let Some(b) = balance_val {
            let max_len: u32 = match max_len_payout {
                Some(m) => m,
                None => {
                    return Err(ContractError::MaxRecipientsRequired);
                },
            };
            if self.token_series_by_id[sidx].royalty.len() > max_len as usize {
                return Err(ContractError::TooManyRecipients);
            }
            if b > u128::MAX / 10_000 {
                return Err(ContractError::BalanceTooLarge);
            }
        }
        let previous_owner: String = match self.internal_transfer(
            sender_id,
            receiver_id,
            token_id,
            approval_id,
        ) {
            Ok((prev, _old_approvals)) => prev,
            Err(e) => {
                return Err(e);
            },
        };
        match balance_val {
            Some(b) => {
                let payout: Payout = compute_payout(
                    &self.token_series_by_id[sidx].royalty,
                    &previous_owner,
                    b,
                );
                Ok(Some(payout))
            },
            None => Ok(None),
        }
    }
}

} // verus!
