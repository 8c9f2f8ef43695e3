//! The series registry and minting engine: creating series, minting
//! editions under the supply-cap discipline, and the creator-only
//! maintenance operations.

use vstd::prelude::*;

use crate::fee::advanced_fee;
use crate::fee::nanos_to_sec;
use crate::royalty::royalty_accounts_valid;
use crate::royalty::royalty_keys_unique;
use crate::royalty::royalty_sum;
use crate::royalty::royalty_table_ok;
use crate::royalty::validate_royalty;
use crate::royalty::lemma_div_mul_bound;
use crate::types::clone_pairs;
use crate::types::set_at;
use crate::types::BuyReceipt;
use crate::types::Contract;
use crate::types::ContractError;
use crate::types::TokenId;
use crate::types::TokenMetadata;
use crate::types::TokenSeries;
use crate::types::TokenSeriesId;
use crate::types::TokenSeriesJson;
use crate::types::MAX_PRICE;

verus! {

/// The supply cap a mint is held to: the template's copies field, or the
/// largest representable count when the series is uncapped.
pub open spec fn copies_cap(s: TokenSeries) -> u64 {
    if s.metadata.copies is Some {
        s.metadata.copies->0
    } else {
        u64::MAX
    }
}

/// A series accepts another mint: it is open and below its cap.
pub open spec fn can_mint(s: TokenSeries) -> bool {
    s.is_mintable && s.tokens_count < copies_cap(s)
}

/// The series record after one mint: the count advances, and reaching the
/// cap closes the series in the same mutation.
pub open spec fn series_after_mint(s: TokenSeries) -> TokenSeries {
    TokenSeries {
        tokens_count: (s.tokens_count + 1) as u64,
        is_mintable: if s.tokens_count + 1 >= copies_cap(s) {
            false
        } else {
            s.is_mintable
        },
        ..s
    }
}

/// How a successful mint changes the state: the parent series advances by
/// one edition, and the ledger gains exactly one record, owned by the
/// receiver, stamped with the mint time, with a fresh approval table.
/// Nothing else moves.
pub open spec fn mint_post(
    c0: Contract,
    c1: Contract,
    sid: TokenSeriesId,
    receiver: Seq<char>,
    now: u64,
    tid: TokenId,
) -> bool {
    let s = c0.series_at(sid);
    let rec = c1.tokens@.last();
    &&& tid == (TokenId { token_series_id: sid, edition: (s.tokens_count + 1) as u64 })
    &&& c1.token_series_by_id@ == c0.token_series_by_id@.update(
        sid as int - 1,
        series_after_mint(s),
    )
    &&& c1.tokens@.len() == c0.tokens@.len() + 1
    &&& c1.tokens@.drop_last() == c0.tokens@
    &&& rec.token_id == tid
    &&& rec.owner_id@ == receiver
    &&& rec.issued_at == now
    &&& rec.approved_account_ids@.len() == 0
    &&& rec.next_approval_id == 1
    &&& c1.owner_id == c0.owner_id
    &&& c1.treasury_id == c0.treasury_id
    &&& c1.transaction_fee == c0.transaction_fee
    &&& c1.market_data_transaction_fee.transaction_fee
        == c0.market_data_transaction_fee.transaction_fee
}

/// The template carries a non-empty title, as series registration demands.
pub open spec fn title_present(md: TokenMetadata) -> bool {
    md.title is Some && md.title->0@.len() > 0
}

/// The proposed royalty table, or an empty one when none was proposed.
pub open spec fn royalty_or_empty(r: Option<Vec<(String, u32)>>) -> Seq<(String, u32)> {
    if r is Some {
        r->0@
    } else {
        Seq::empty()
    }
}

/// A series view carries the series' own fields and the given fee.
pub open spec fn series_json_matches(
    j: TokenSeriesJson,
    sid: TokenSeriesId,
    s: TokenSeries,
    fee: Option<u128>,
) -> bool {
    &&& j.token_series_id == sid
    &&& j.metadata == s.metadata
    &&& j.creator_id == s.creator_id
    &&& j.royalty@ == s.royalty@
    &&& j.transaction_fee == fee
}

impl Contract {
    /// Mints the next edition of a series to `receiver_id`. Fails if the
    /// series is unknown, closed, or out of editions; reaching the cap
    /// closes the series as part of the same mutation.
    pub(crate) fn mint_edition(
        &mut self,
        token_series_id: TokenSeriesId,
        receiver_id: String,
        now: u64,
    ) -> (r: Result<TokenId, ContractError>)
        requires
            old(self).wf(),
        ensures
            final(self).wf(),
            r is Ok <==> old(self).valid_series_id(token_series_id) && can_mint(
                old(self).series_at(token_series_id),
            ),
            r is Err ==> *final(self) == *old(self),
            !old(self).valid_series_id(token_series_id) ==> r == Err::<TokenId, ContractError>(
                ContractError::SeriesNotFound,
            ),
            old(self).valid_series_id(token_series_id) && !old(self).series_at(
                token_series_id,
            ).is_mintable ==> r == Err::<TokenId, ContractError>(ContractError::NotMintable),
            old(self).valid_series_id(token_series_id) && old(self).series_at(
                token_series_id,
            ).is_mintable && !can_mint(old(self).series_at(token_series_id)) ==> r == Err::<
                TokenId,
                ContractError,
            >(ContractError::SupplyMaxed),
            r is Ok ==> mint_post(
                *old(self),
                *final(self),
                token_series_id,
                receiver_id@,
                now,
                r->Ok_0,
            ),
    {
        if !(1 <= token_series_id && token_series_id <= self.token_series_by_id.len() as u64) {
            return Err(ContractError::SeriesNotFound);
        }
        let idx: usize = (token_series_id - 1) as usize;
        if !self.token_series_by_id[idx].is_mintable {
            return Err(ContractError::NotMintable);
        }
        let num_tokens: u64 = self.token_series_by_id[idx].tokens_count;
        let max_copies: u64 = match self.token_series_by_id[idx].metadata.copies {
            Some(c) => c,
            None => u64::MAX,
        };
        if num_tokens >= max_copies {
            return Err(ContractError::SupplyMaxed);
        }
        let ghost c0 = *self;
        let mut s: TokenSeries = self.token_series_by_id.remove(idx);
        s.tokens_count = num_tokens + 1;
        if num_tokens + 1 >= max_copies {
            s.is_mintable = false;
        }
        self.token_series_by_id.insert(idx, s);
        proof {
            assert(self.token_series_by_id@ =~= c0.token_series_by_id@.update(
                idx as int,
                series_after_mint(c0.series_at(token_series_id)),
            ));
        }
        let token_id = TokenId { token_series_id, edition: num_tokens + 1 };
        self.tokens.push(
            crate::types::TokenRecord {
                token_id,
                owner_id: receiver_id,
                issued_at: now,
                approved_account_ids: Vec::new(),
                next_approval_id: 1,
            },
        );
        proof {
            assert(self.tokens@.drop_last() =~= c0.tokens@);
            assert forall|i: int| 0 <= i < c0.tokens@.len() implies c0.tokens@[i].token_id
                != token_id by {
                assert(c0.record_wf(c0.tokens@[i]));
            }
            assert forall|i: int|
                0 <= i < self.tokens@.len() implies self.record_wf(
                #[trigger] self.tokens@[i],
            ) by {
                if i < c0.tokens@.len() {
                    assert(c0.record_wf(c0.tokens@[i]));
                }
            }
        }
        Ok(token_id)
    }

    /// Registers a new series under the next sequential identifier. The
    /// caller becomes the creator (an explicit creator must equal the
    /// caller); the template needs a title; the royalty table and the price
    /// must pass the registry's bounds. The effective fee is snapshotted for
    /// the new series, and the returned view carries it.
    pub fn nft_create_series(
        &mut self,
        caller_id: &String,
        creator_id: Option<String>,
        token_metadata: TokenMetadata,
        price: Option<u128>,
        royalty: Option<Vec<(String, u32)>>,
        now: u64,
    ) -> (r: Result<TokenSeriesJson, ContractError>)
        requires
            old(self).wf(),
            old(self).series_count() < u64::MAX,
        ensures
            final(self).wf(),
            r is Ok <==> {
                &&& (creator_id is Some ==> creator_id->0@ == caller_id@)
                &&& title_present(token_metadata)
                &&& royalty_table_ok(royalty_or_empty(royalty))
                &&& (price is Some ==> price->0 < MAX_PRICE)
            },
            r is Err ==> *final(self) == *old(self),
            creator_id is Some && creator_id->0@ != caller_id@ ==> r == Err::<
                TokenSeriesJson,
                ContractError,
            >(ContractError::CreatorMismatch),
            (creator_id is Some ==> creator_id->0@ == caller_id@) && !title_present(
                token_metadata,
            ) ==> r == Err::<TokenSeriesJson, ContractError>(ContractError::TitleRequired),
            (creator_id is Some ==> creator_id->0@ == caller_id@) && title_present(token_metadata)
                && !royalty_table_ok(royalty_or_empty(royalty)) ==> r is Err,
            r == Err::<TokenSeriesJson, ContractError>(ContractError::InvalidRoyaltyAccount)
                ==> !royalty_accounts_valid(royalty_or_empty(royalty)),
            r == Err::<TokenSeriesJson, ContractError>(ContractError::DuplicateRoyaltyAccount)
                ==> !royalty_keys_unique(royalty_or_empty(royalty)),
            (creator_id is Some ==> creator_id->0@ == caller_id@) && title_present(token_metadata)
                && royalty_accounts_valid(royalty_or_empty(royalty)) && royalty_keys_unique(
                royalty_or_empty(royalty),
            ) && royalty_or_empty(royalty).len() > 10 ==> r == Err::<TokenSeriesJson, ContractError>(
                ContractError::RoyaltyAccountsExceeded,
            ),
            (creator_id is Some ==> creator_id->0@ == caller_id@) && title_present(token_metadata)
                && royalty_accounts_valid(royalty_or_empty(royalty)) && royalty_keys_unique(
                royalty_or_empty(royalty),
            ) && royalty_or_empty(royalty).len() <= 10 && royalty_sum(royalty_or_empty(royalty))
                > 5000 ==> r == Err::<TokenSeriesJson, ContractError>(
                ContractError::RoyaltyTotalExceeded,
            ),
            (creator_id is Some ==> creator_id->0@ == caller_id@) && title_present(token_metadata)
                && royalty_table_ok(royalty_or_empty(royalty)) && price is Some && price->0
                >= MAX_PRICE ==> r == Err::<TokenSeriesJson, ContractError>(
                ContractError::PriceTooHigh,
            ),
            r is Ok ==> {
                let fee = advanced_fee(old(self).transaction_fee, nanos_to_sec(now));
                let s = final(self).token_series_by_id@.last();
                &&& final(self).transaction_fee == fee
                &&& final(self).token_series_by_id@.len() == old(self).series_count() + 1
                &&& final(self).token_series_by_id@.drop_last() == old(self).token_series_by_id@
                &&& s.metadata == token_metadata
                &&& s.creator_id@ == caller_id@
                &&& s.tokens_count == 0
                &&& s.price == price
                &&& s.is_mintable == (token_metadata.copies != Some(0u64))
                &&& s.royalty@ == royalty_or_empty(royalty)
                &&& final(self).market_data_transaction_fee.transaction_fee@ == old(
                    self,
                ).market_data_transaction_fee.transaction_fee@.push(fee.current_fee as u128)
                &&& final(self).tokens == old(self).tokens
                &&& final(self).owner_id == old(self).owner_id
                &&& final(self).treasury_id == old(self).treasury_id
                &&& series_json_matches(
                    r->Ok_0,
                    (old(self).series_count() + 1) as u64,
                    s,
                    Some(fee.current_fee as u128),
                )
            },
    {
        if let Some(c) = &creator_id {
            if !c.eq(caller_id) {
                return Err(ContractError::CreatorMismatch);
            }
        }
        let title_ok: bool = match &token_metadata.title {
            Some(t) => !t.as_str().is_empty(),
            None => false,
        };
        if !title_ok {
            return Err(ContractError::TitleRequired);
        }
        let royalty_res: Vec<(String, u32)> = match royalty {
            Some(v) => v,
            None => Vec::new(),
        };
        if let Err(e) = validate_royalty(&royalty_res) {
            return Err(e);
        }
        if let Some(p) = price {
            if p >= MAX_PRICE {
                return Err(ContractError::PriceTooHigh);
            }
        }
        let token_series_id: u64 = self.token_series_by_id.len() as u64 + 1;
        // A cap of 0 admits no edition, so such a series is born closed.
        let born_mintable: bool = match token_metadata.copies {
            Some(c) => c > 0,
            None => true,
        };
        let current_transaction_fee: u128 = self.calculate_current_transaction_fee(now);
        let royalty_out: Vec<(String, u32)> = clone_pairs(&royalty_res);
        let ghost mid = *self;
        self.token_series_by_id.push(
            TokenSeries {
                metadata: token_metadata.duplicate(),
                creator_id: caller_id.clone(),
                tokens_count: 0,
                price,
                is_mintable: born_mintable,
                royalty: royalty_res,
            },
        );
        self.market_data_transaction_fee.transaction_fee.push(current_transaction_fee);
        proof {
            assert(self.token_series_by_id@.drop_last() =~= mid.token_series_by_id@);
            assert forall|i: int|
                0 <= i < self.series_count() implies (#[trigger] self.token_series_by_id@[i]).wf()
            by {
                if i < mid.series_count() {
                    assert(self.token_series_by_id@[i] == mid.token_series_by_id@[i]);
                    assert(mid.token_series_by_id@[i].wf());
                }
            }
            assert forall|i: int|
                0 <= i < self.tokens@.len() implies self.record_wf(
                #[trigger] self.tokens@[i],
            ) by {
                assert(mid.record_wf(mid.tokens@[i]));
                assert(self.tokens@[i] == mid.tokens@[i]);
                assert(self.series_at(self.tokens@[i].token_id.token_series_id) == mid.series_at(
                    mid.tokens@[i].token_id.token_series_id,
                ));
            }
        }
        Ok(
            TokenSeriesJson {
                token_series_id,
                metadata: token_metadata,
                creator_id: caller_id.clone(),
                royalty: royalty_out,
                transaction_fee: Some(current_transaction_fee),
            },
        )
    }

    /// Mints the next edition of a series to `receiver_id`, on behalf of
    /// the series' creator only.
    pub fn nft_mint(
        &mut self,
        caller_id: &String,
        token_series_id: TokenSeriesId,
        receiver_id: String,
        now: u64,
    ) -> (r: Result<TokenId, ContractError>)
        requires
            old(self).wf(),
        ensures
            final(self).wf(),
            r is Ok <==> {
                &&& old(self).valid_series_id(token_series_id)
                &&& old(self).series_at(token_series_id).creator_id@ == caller_id@
                &&& can_mint(old(self).series_at(token_series_id))
            },
            r is Err ==> *final(self) == *old(self),
            !old(self).valid_series_id(token_series_id) ==> r == Err::<TokenId, ContractError>(
                ContractError::SeriesNotFound,
            ),
            old(self).valid_series_id(token_series_id) && old(self).series_at(
                token_series_id,
            ).creator_id@ != caller_id@ ==> r == Err::<TokenId, ContractError>(
                ContractError::CreatorOnly,
            ),
            old(self).valid_series_id(token_series_id) && old(self).series_at(
                token_series_id,
            ).creator_id@ == caller_id@ && !old(self).series_at(token_series_id).is_mintable ==> r
                == Err::<TokenId, ContractError>(ContractError::NotMintable),
            old(self).valid_series_id(token_series_id) && old(self).series_at(
                token_series_id,
            ).creator_id@ == caller_id@ && old(self).series_at(token_series_id).is_mintable
                && !can_mint(old(self).series_at(token_series_id)) ==> r == Err::<
                TokenId,
                ContractError,
            >(ContractError::SupplyMaxed),
            r is Ok ==> mint_post(
                *old(self),
                *final(self),
                token_series_id,
                receiver_id@,
                now,
                r->Ok_0,
            ),
    {
        if !(1 <= token_series_id && token_series_id <= self.token_series_by_id.len() as u64) {
            return Err(ContractError::SeriesNotFound);
        }
        let idx: usize = (token_series_id - 1) as usize;
        if !self.token_series_by_id[idx].creator_id.eq(caller_id) {
            return Err(ContractError::CreatorOnly);
        }
        self.mint_edition(token_series_id, receiver_id, now)
    }

    /// Buys one edition of a priced series: mints it to `receiver_id` and
    /// returns what the buyer's deposit owes whom — the snapshot fee's cut
    /// of the price to the treasury and the rest to the creator. The two
    /// amounts sum exactly to the price; performing the payments is the
    /// caller's step.
    pub fn nft_buy(
        &mut self,
        token_series_id: TokenSeriesId,
        receiver_id: String,
        attached_deposit: u128,
        now: u64,
    ) -> (r: Result<BuyReceipt, ContractError>)
        requires
            old(self).wf(),
        ensures
            final(self).wf(),
            r is Ok <==> {
                &&& old(self).valid_series_id(token_series_id)
                &&& old(self).series_at(token_series_id).price is Some
                &&& attached_deposit >= old(self).series_at(token_series_id).price->0
                &&& can_mint(old(self).series_at(token_series_id))
            },
            r is Err ==> *final(self) == *old(self),
            !old(self).valid_series_id(token_series_id) ==> r == Err::<BuyReceipt, ContractError>(
                ContractError::SeriesNotFound,
            ),
            old(self).valid_series_id(token_series_id) && old(self).series_at(
                token_series_id,
            ).price is None ==> r == Err::<BuyReceipt, ContractError>(ContractError::NotForSale),
            old(self).valid_series_id(token_series_id) && old(self).series_at(
                token_series_id,
            ).price is Some && attached_deposit < old(self).series_at(token_series_id).price->0
                ==> r == Err::<BuyReceipt, ContractError>(ContractError::DepositTooLow),
            r is Ok ==> {
                let price = old(self).series_at(token_series_id).price->0;
                let fee = old(self).market_data_transaction_fee.transaction_fee@[token_series_id
                    as int - 1];
                let receipt = r->Ok_0;
                &&& mint_post(
                    *old(self),
                    *final(self),
                    token_series_id,
                    receiver_id@,
                    now,
                    receipt.token_id,
                )
                &&& receipt.creator_id@ == old(self).series_at(token_series_id).creator_id@
                &&& receipt.treasury_amount == (price as int) * (fee as int) / 10000
                &&& receipt.creator_amount == price - (price as int) * (fee as int) / 10000
                &&& receipt.creator_amount + receipt.treasury_amount == price
            },
    {
        if !(1 <= token_series_id && token_series_id <= self.token_series_by_id.len() as u64) {
            return Err(ContractError::SeriesNotFound);
        }
        let idx: usize = (token_series_id - 1) as usize;
        let price: u128 = match self.token_series_by_id[idx].price {
            Some(p) => p,
            None => {
                return Err(ContractError::NotForSale);
            },
        };
        if attached_deposit < price {
            return Err(ContractError::DepositTooLow);
        }
        let creator_id: String = self.token_series_by_id[idx].creator_id.clone();
        let token_id: TokenId = match self.mint_edition(token_series_id, receiver_id, now) {
            Ok(t) => t,
            Err(e) => {
                return Err(e);
            },
        };
        let fee: u128 = self.calculate_market_data_transaction_fee(token_series_id, now);
        proof {
            assert((price as int) * (fee as int) <= (MAX_PRICE as int) * 10000
                && 0 <= (price as int) * (fee as int)) by (nonlinear_arith)
                requires
                    0 <= price < MAX_PRICE,
                    0 <= fee < 10000,
            ;
            lemma_div_mul_bound((price as int) * (fee as int), 10000);
            assert((price as int) * (fee as int) / 10000 <= (price as int) * (fee as int));
        }
        let for_treasury: u128 = price * fee / 10_000;
        proof {
            assert((price as int) * (fee as int) / 10000 <= (price as int) * 10000 / 10000)
                by (nonlinear_arith)
                requires
                    0 <= price,
                    0 <= fee < 10000,
            ;
        }
        let price_deducted: u128 = price - for_treasury;
        Ok(
            BuyReceipt {
                token_id,
                creator_id,
                creator_amount: price_deducted,
                treasury_amount: for_treasury,
            },
        )
    }

    /// Mints the next edition of a series to the creator and immediately
    /// registers an approval for `account_id` under a fresh approval id.
    /// Creator only. Returns the new edition and the approval id the
    /// caller may hand to the approved party's acceptance hook.
    pub fn nft_mint_and_approve(
        &mut self,
        caller_id: &String,
        token_series_id: TokenSeriesId,
        account_id: String,
        now: u64,
    ) -> (r: Result<(TokenId, u64), ContractError>)
        requires
            old(self).wf(),
        ensures
            final(self).wf(),
            r is Ok <==> {
                &&& old(self).valid_series_id(token_series_id)
                &&& old(self).series_at(token_series_id).creator_id@ == caller_id@
                &&& can_mint(old(self).series_at(token_series_id))
            },
            r is Err ==> *final(self) == *old(self),
            !old(self).valid_series_id(token_series_id) ==> r == Err::<
                (TokenId, u64),
                ContractError,
            >(ContractError::SeriesNotFound),
            old(self).valid_series_id(token_series_id) && old(self).series_at(
                token_series_id,
            ).creator_id@ != caller_id@ ==> r == Err::<(TokenId, u64), ContractError>(
                ContractError::CreatorOnly,
            ),
            r is Ok ==> {
                let s = old(self).series_at(token_series_id);
                let rec = final(self).tokens@.last();
                let tid = r->Ok_0.0;
                &&& r->Ok_0.1 == 1
                &&& tid == (TokenId { token_series_id, edition: (s.tokens_count + 1) as u64 })
                &&& final(self).token_series_by_id@ == old(self).token_series_by_id@.update(
                    token_series_id as int - 1,
                    series_after_mint(s),
                )
                &&& final(self).tokens@.len() == old(self).tokens@.len() + 1
                &&& final(self).tokens@.drop_last() == old(self).tokens@
                &&& rec.token_id == tid
                &&& rec.owner_id@ == s.creator_id@
                &&& rec.issued_at == now
                &&& rec.approved_account_ids@.len() == 1
                &&& rec.approved_account_ids@[0].0@ == account_id@
                &&& rec.approved_account_ids@[0].1 == 1
                &&& rec.next_approval_id == 2
                &&& final(self).owner_id == old(self).owner_id
                &&& final(self).treasury_id == old(self).treasury_id
                &&& final(self).transaction_fee == old(self).transaction_fee
                &&& final(self).market_data_transaction_fee.transaction_fee == old(
                    self,
                ).market_data_transaction_fee.transaction_fee
            },
    {
        if !(1 <= token_series_id && token_series_id <= self.token_series_by_id.len() as u64) {
            return Err(ContractError::SeriesNotFound);
        }
        let idx: usize = (token_series_id - 1) as usize;
        if !self.token_series_by_id[idx].creator_id.eq(caller_id) {
            return Err(ContractError::CreatorOnly);
        }
        let creator: String = self.token_series_by_id[idx].creator_id.clone();
        let token_id: TokenId = match self.mint_edition(token_series_id, creator, now) {
            Ok(t) => t,
            Err(e) => {
                return Err(e);
            },
        };
        let ghost mid = *self;
        let mut rec = self.tokens.pop().unwrap();
        rec.approved_account_ids.push((account_id, 1));
        rec.next_approval_id = 2;
        self.tokens.push(rec);
        proof {
            assert(self.tokens@.drop_last() =~= mid.tokens@.drop_last());
            assert(self.tokens@.len() == mid.tokens@.len());
            assert forall|i: int|
                0 <= i < self.tokens@.len() implies self.record_wf(
                #[trigger] self.tokens@[i],
            ) by {
                assert(mid.record_wf(mid.tokens@[i]));
                if i < self.tokens@.len() - 1 {
                    assert(self.tokens@[i] == mid.tokens@[i]);
                }
            }
            assert forall|i: int, j: int|
                0 <= i < j < self.tokens@.len() implies self.tokens@[i].token_id
                != self.tokens@[j].token_id by {
                assert(mid.tokens@[i].token_id != mid.tokens@[j].token_id);
                if i < self.tokens@.len() - 1 {
                    assert(self.tokens@[i] == mid.tokens@[i]);
                }
                if j < self.tokens@.len() - 1 {
                    assert(self.tokens@[j] == mid.tokens@[j]);
                }
                assert(self.tokens@.last().token_id == mid.tokens@.last().token_id);
            }
        }
        Ok((token_id, 1))
    }

    /// Irreversibly closes an uncapped series to further minting. Creator
    /// only; a capped series can only close by exhaustion or cap decrease.
    pub fn nft_set_series_non_mintable(&mut self, caller_id: &String, token_series_id: TokenSeriesId)
        -> (r: Result<(), ContractError>)
        requires
            old(self).wf(),
        ensures
            final(self).wf(),
            r is Ok <==> {
                &&& old(self).valid_series_id(token_series_id)
                &&& old(self).series_at(token_series_id).creator_id@ == caller_id@
                &&& old(self).series_at(token_series_id).is_mintable
                &&& old(self).series_at(token_series_id).metadata.copies is None
            },
            r is Err ==> *final(self) == *old(self),
            !old(self).valid_series_id(token_series_id) ==> r == Err::<(), ContractError>(
                ContractError::SeriesNotFound,
            ),
            old(self).valid_series_id(token_series_id) && old(self).series_at(
                token_series_id,
            ).creator_id@ != caller_id@ ==> r == Err::<(), ContractError>(
                ContractError::CreatorOnly,
            ),
            old(self).valid_series_id(token_series_id) && old(self).series_at(
                token_series_id,
            ).creator_id@ == caller_id@ && !old(self).series_at(token_series_id).is_mintable ==> r
                == Err::<(), ContractError>(ContractError::AlreadyNonMintable),
            old(self).valid_series_id(token_series_id) && old(self).series_at(
                token_series_id,
            ).creator_id@ == caller_id@ && old(self).series_at(token_series_id).is_mintable && old(
                self,
            ).series_at(token_series_id).metadata.copies is Some ==> r == Err::<(), ContractError>(
                ContractError::HasCopiesCap,
            ),
            r is Ok ==> {
                &&& final(self).token_series_by_id@ == old(self).token_series_by_id@.update(
                    token_series_id as int - 1,
                    (TokenSeries { is_mintable: false, ..old(self).series_at(token_series_id) }),
                )
                &&& final(self).tokens == old(self).tokens
                &&& final(self).owner_id == old(self).owner_id
                &&& final(self).treasury_id == old(self).treasury_id
                &&& final(self).transaction_fee == old(self).transaction_fee
                &&& final(self).market_data_transaction_fee.transaction_fee == old(
                    self,
                ).market_data_transaction_fee.transaction_fee
            },
    {
        if !(1 <= token_series_id && token_series_id <= self.token_series_by_id.len() as u64) {
            return Err(ContractError::SeriesNotFound);
        }
        let idx: usize = (token_series_id - 1) as usize;
        if !self.token_series_by_id[idx].creator_id.eq(caller_id) {
            return Err(ContractError::CreatorOnly);
        }
        if !self.token_series_by_id[idx].is_mintable {
            return Err(ContractError::AlreadyNonMintable);
        }
        if self.token_series_by_id[idx].metadata.copies.is_some() {
            return Err(ContractError::HasCopiesCap);
        }
        let ghost c0 = *self;
        let mut s: TokenSeries = self.token_series_by_id.remove(idx);
        s.is_mintable = false;
        self.token_series_by_id.insert(idx, s);
        proof {
            assert(self.token_series_by_id@ =~= c0.token_series_by_id@.update(
                idx as int,
                (TokenSeries { is_mintable: false, ..c0.series_at(token_series_id) }),
            ));
            assert forall|i: int|
                0 <= i < self.tokens@.len() implies self.record_wf(
                #[trigger] self.tokens@[i],
            ) by {
                assert(c0.record_wf(c0.tokens@[i]));
            }
        }
        Ok(())
    }

    /// Lowers a capped series' supply cap by `decrease_copies`, never below
    /// the already-minted count; hitting the count exactly closes the
    /// series. Creator only. Returns the new cap.
    pub fn nft_decrease_series_copies(
        &mut self,
        caller_id: &String,
        token_series_id: TokenSeriesId,
        decrease_copies: u64,
    ) -> (r: Result<u64, ContractError>)
        requires
            old(self).wf(),
        ensures
            final(self).wf(),
            r is Ok <==> {
                &&& old(self).valid_series_id(token_series_id)
                &&& old(self).series_at(token_series_id).creator_id@ == caller_id@
                &&& old(self).series_at(token_series_id).metadata.copies is Some
                &&& old(self).series_at(token_series_id).metadata.copies->0 - decrease_copies
                    >= old(self).series_at(token_series_id).tokens_count
            },
            r is Err ==> *final(self) == *old(self),
            !old(self).valid_series_id(token_series_id) ==> r == Err::<u64, ContractError>(
                ContractError::SeriesNotFound,
            ),
            old(self).valid_series_id(token_series_id) && old(self).series_at(
                token_series_id,
            ).creator_id@ != caller_id@ ==> r == Err::<u64, ContractError>(
                ContractError::CreatorOnly,
            ),
            old(self).valid_series_id(token_series_id) && old(self).series_at(
                token_series_id,
            ).creator_id@ == caller_id@ && old(self).series_at(
                token_series_id,
            ).metadata.copies is None ==> r == Err::<u64, ContractError>(
                ContractError::CopiesNotSet,
            ),
            old(self).valid_series_id(token_series_id) && old(self).series_at(
                token_series_id,
            ).creator_id@ == caller_id@ && old(self).series_at(
                token_series_id,
            ).metadata.copies is Some && old(self).series_at(token_series_id).metadata.copies->0
                - decrease_copies < old(self).series_at(token_series_id).tokens_count ==> r == Err::<
                u64,
                ContractError,
            >(ContractError::CannotDecreaseBelowMinted),
            r is Ok ==> {
                let s = old(self).series_at(token_series_id);
                let new_copies = (s.metadata.copies->0 - decrease_copies) as u64;
                &&& r->Ok_0 == new_copies
                &&& final(self).token_series_by_id@ == old(self).token_series_by_id@.update(
                    token_series_id as int - 1,
                    (TokenSeries {
                        metadata: TokenMetadata { copies: Some(new_copies), ..s.metadata },
                        is_mintable: if new_copies == s.tokens_count {
                            false
                        } else {
                            s.is_mintable
                        },
                        ..s
                    }),
                )
                &&& final(self).tokens == old(self).tokens
                &&& final(self).owner_id == old(self).owner_id
                &&& final(self).treasury_id == old(self).treasury_id
                &&& final(self).transaction_fee == old(self).transaction_fee
                &&& final(self).market_data_transaction_fee.transaction_fee == old(
                    self,
                ).market_data_transaction_fee.transaction_fee
            },
    {
        if !(1 <= token_series_id && token_series_id <= self.token_series_by_id.len() as u64) {
            return Err(ContractError::SeriesNotFound);
        }
        let idx: usize = (token_series_id - 1) as usize;
        if !self.token_series_by_id[idx].creator_id.eq(caller_id) {
            return Err(ContractError::CreatorOnly);
        }
        let copies: u64 = match self.token_series_by_id[idx].metadata.copies {
            Some(c) => c,
            None => {
                return Err(ContractError::CopiesNotSet);
            },
        };
        let minted: u64 = self.token_series_by_id[idx].tokens_count;
        if decrease_copies > copies || copies - decrease_copies < minted {
            return Err(ContractError::CannotDecreaseBelowMinted);
        }
        let new_copies: u64 = copies - decrease_copies;
        let ghost c0 = *self;
        let mut s: TokenSeries = self.token_series_by_id.remove(idx);
        s.metadata.copies = Some(new_copies);
        if new_copies == minted {
            s.is_mintable = false;
        }
        self.token_series_by_id.insert(idx, s);
        proof {
            let s0 = c0.series_at(token_series_id);
            assert(self.token_series_by_id@ =~= c0.token_series_by_id@.update(
                idx as int,
                (TokenSeries {
                    metadata: TokenMetadata { copies: Some(new_copies), ..s0.metadata },
                    is_mintable: if new_copies == s0.tokens_count {
                        false
                    } else {
                        s0.is_mintable
                    },
                    ..s0
                }),
            ));
            assert forall|i: int|
                0 <= i < self.tokens@.len() implies self.record_wf(
                #[trigger] self.tokens@[i],
            ) by {
                assert(c0.record_wf(c0.tokens@[i]));
            }
        }
        Ok(new_copies)
    }

    /// Sets or clears a series' price (below the ceiling) while it is still
    /// mintable, and re-snapshots the effective fee for the series. Creator
    /// only. Returns the price as given.
    pub fn nft_set_series_price(
        &mut self,
        caller_id: &String,
        token_series_id: TokenSeriesId,
        price: Option<u128>,
        now: u64,
    ) -> (r: Result<Option<u128>, ContractError>)
        requires
            old(self).wf(),
        ensures
            final(self).wf(),
            r is Ok <==> {
                &&& old(self).valid_series_id(token_series_id)
                &&& old(self).series_at(token_series_id).creator_id@ == caller_id@
                &&& old(self).series_at(token_series_id).is_mintable
                &&& (price is Some ==> price->0 < MAX_PRICE)
            },
            r is Err ==> *final(self) == *old(self),
            !old(self).valid_series_id(token_series_id) ==> r == Err::<
                Option<u128>,
                ContractError,
            >(ContractError::SeriesNotFound),
            old(self).valid_series_id(token_series_id) && old(self).series_at(
                token_series_id,
            ).creator_id@ != caller_id@ ==> r == Err::<Option<u128>, ContractError>(
                ContractError::CreatorOnly,
            ),
            old(self).valid_series_id(token_series_id) && old(self).series_at(
                token_series_id,
            ).creator_id@ == caller_id@ && !old(self).series_at(token_series_id).is_mintable ==> r
                == Err::<Option<u128>, ContractError>(ContractError::NotMintable),
            old(self).valid_series_id(token_series_id) && old(self).series_at(
                token_series_id,
            ).creator_id@ == caller_id@ && old(self).series_at(token_series_id).is_mintable
                && price is Some && price->0 >= MAX_PRICE ==> r == Err::<
                Option<u128>,
                ContractError,
            >(ContractError::PriceTooHigh),
            r is Ok ==> {
                let fee = advanced_fee(old(self).transaction_fee, nanos_to_sec(now));
                &&& r->Ok_0 == price
                &&& final(self).transaction_fee == fee
                &&& final(self).token_series_by_id@ == old(self).token_series_by_id@.update(
                    token_series_id as int - 1,
                    (TokenSeries { price, ..old(self).series_at(token_series_id) }),
                )
                &&& final(self).market_data_transaction_fee.transaction_fee@ == old(
                    self,
                ).market_data_transaction_fee.transaction_fee@.update(
                    token_series_id as int - 1,
                    fee.current_fee as u128,
                )
                &&& final(self).tokens == old(self).tokens
                &&& final(self).owner_id == old(self).owner_id
                &&& final(self).treasury_id == old(self).treasury_id
            },
    {
        if !(1 <= token_series_id && token_series_id <= self.token_series_by_id.len() as u64) {
            return Err(ContractError::SeriesNotFound);
        }
        let idx: usize = (token_series_id - 1) as usize;
        if !self.token_series_by_id[idx].creator_id.eq(caller_id) {
            return Err(ContractError::CreatorOnly);
        }
        if !self.token_series_by_id[idx].is_mintable {
            return Err(ContractError::NotMintable);
        }
        if let Some(p) = price {
            if p >= MAX_PRICE {
                return Err(ContractError::PriceTooHigh);
            }
        }
        let ghost c0 = *self;
        let mut s: TokenSeries = self.token_series_by_id.remove(idx);
        s.price = price;
        self.token_series_by_id.insert(idx, s);
        proof {
            assert(self.token_series_by_id@ =~= c0.token_series_by_id@.update(
                idx as int,
                (TokenSeries { price, ..c0.series_at(token_series_id) }),
            ));
        }
        let current_transaction_fee: u128 = self.calculate_current_transaction_fee(now);
        set_at(&mut self.market_data_transaction_fee.transaction_fee, idx, current_transaction_fee);
        proof {
            assert forall|i: int|
                0 <= i < self.tokens@.len() implies self.record_wf(
                #[trigger] self.tokens@[i],
            ) by {
                assert(c0.record_wf(c0.tokens@[i]));
            }
        }
        Ok(price)
    }

    /// Builds the caller-facing view of the series at vector index `idx`,
    /// carrying `fee` as its transaction-fee field.
    fn series_json(&self, idx: usize, fee: Option<u128>) -> (j: TokenSeriesJson)
        requires
            idx < self.token_series_by_id@.len(),
        ensures
            series_json_matches(j, (idx + 1) as u64, self.token_series_by_id@[idx as int], fee),
    {
        let n: usize = self.token_series_by_id.len();
        assert(idx < n);
        let s: &TokenSeries = &self.token_series_by_id[idx];
        TokenSeriesJson {
            token_series_id: idx as u64 + 1,
            metadata: s.metadata.duplicate(),
            creator_id: s.creator_id.clone(),
            royalty: clone_pairs(&s.royalty),
            transaction_fee: fee,
        }
    }

    /// The view of one series, carrying its snapshot fee.
    pub fn nft_get_series_single(&self, token_series_id: TokenSeriesId) -> (r: Result<
        TokenSeriesJson,
        ContractError,
    >)
        requires
            self.wf(),
        ensures
            r is Ok <==> self.valid_series_id(token_series_id),
            r is Err ==> r == Err::<TokenSeriesJson, ContractError>(ContractError::SeriesNotFound),
            r is Ok ==> series_json_matches(
                r->Ok_0,
                token_series_id,
                self.series_at(token_series_id),
                Some(self.market_data_transaction_fee.transaction_fee@[token_series_id as int - 1]),
            ),
    {
        if !(1 <= token_series_id && token_series_id <= self.token_series_by_id.len() as u64) {
            return Err(ContractError::SeriesNotFound);
        }
        let idx: usize = (token_series_id - 1) as usize;
        let fee: u128 = self.get_market_data_transaction_fee(token_series_id);
        Ok(self.series_json(idx, Some(fee)))
    }

    /// The delimiters a renderer uses to format edition identifiers and
    /// titles.
    pub fn nft_get_series_format(&self) -> (r: (char, &'static str, &'static str))
        ensures
            r.0 == crate::types::TOKEN_DELIMETER,
            r.1@ == crate::types::TITLE_DELIMETER@,
            r.2@ == crate::types::EDITION_DELIMETER@,
    {
        (crate::types::TOKEN_DELIMETER, crate::types::TITLE_DELIMETER, crate::types::EDITION_DELIMETER)
    }

    /// A series' listed price, if any.
    pub fn nft_get_series_price(&self, token_series_id: TokenSeriesId) -> (r: Result<
        Option<u128>,
        ContractError,
    >)
        requires
            self.wf(),
        ensures
            r is Ok <==> self.valid_series_id(token_series_id),
            r is Err ==> r == Err::<Option<u128>, ContractError>(ContractError::SeriesNotFound),
            r is Ok ==> r->Ok_0 == self.series_at(token_series_id).price,
    {
        if !(1 <= token_series_id && token_series_id <= self.token_series_by_id.len() as u64) {
            return Err(ContractError::SeriesNotFound);
        }
        let idx: usize = (token_series_id - 1) as usize;
        Ok(self.token_series_by_id[idx].price)
    }

    /// A page of series views, in registration order, without fees. Fails
    /// when `from_index` points past the registry or the limit is zero.
    pub fn nft_get_series(&self, from_index: Option<u128>, limit: Option<u64>) -> (r: Result<
        Vec<TokenSeriesJson>,
        ContractError,
    >)
        requires
            self.wf(),
        ensures
            r is Ok <==> {
                &&& (if from_index is Some {
                    from_index->0 as int
                } else {
                    0
                }) < self.series_count()
                &&& limit != Some(0u64)
            },
            (if from_index is Some {
                from_index->0 as int
            } else {
                0
            }) >= self.series_count() ==> r == Err::<Vec<TokenSeriesJson>, ContractError>(
                ContractError::OutOfBounds,
            ),
            (if from_index is Some {
                from_index->0 as int
            } else {
                0
            }) < self.series_count() && limit == Some(0u64) ==> r == Err::<
                Vec<TokenSeriesJson>,
                ContractError,
            >(ContractError::ZeroLimit),
            r is Ok ==> {
                let start = if from_index is Some {
                    from_index->0 as int
                } else {
                    0
                };
                let lim = if limit is Some {
                    limit->0 as int
                } else {
                    u64::MAX as int
                };
                let page = r->Ok_0;
                &&& page@.len() == (if lim <= self.series_count() - start {
                    lim
                } else {
                    self.series_count() - start
                })
                &&& forall|k: int|
                    0 <= k < page@.len() ==> series_json_matches(
                        #[trigger] page@[k],
                        (start + k + 1) as u64,
                        self.token_series_by_id@[start + k],
                        None,
                    )
            },
    {
        let start_index: u128 = match from_index {
            Some(v) => v,
            None => 0,
        };
        if start_index >= self.token_series_by_id.len() as u128 {
            return Err(ContractError::OutOfBounds);
        }
        let limit_val: u64 = match limit {
            Some(v) => v,
            None => u64::MAX,
        };
        if limit_val == 0 {
            return Err(ContractError::ZeroLimit);
        }
        let start: usize = start_index as usize;
        let remaining: usize = self.token_series_by_id.len() - start;
        let count: usize = if limit_val < remaining as u64 {
            limit_val as usize
        } else {
            remaining
        };
        let n: usize = self.token_series_by_id.len();
        let mut page: Vec<TokenSeriesJson> = Vec::new();
        let mut k: usize = 0;
        while k < count
            invariant
                self.wf(),
                0 <= k <= count,
                n == self.token_series_by_id@.len(),
                start + count <= n,
                page@.len() == k,
                forall|j: int|
                    0 <= j < k ==> series_json_matches(
                        #[trigger] page@[j],
                        (start + j + 1) as u64,
                        self.token_series_by_id@[start as int + j],
                        None,
                    ),
            decreases count - k,
        {
            page.push(self.series_json(start + k, None));
            k += 1;
        }
        Ok(page)
    }

    /// How many editions a series has minted.
    pub fn nft_supply_for_series(&self, token_series_id: TokenSeriesId) -> (r: Result<
        u64,
        ContractError,
    >)
        requires
            self.wf(),
        ensures
            r is Ok <==> self.valid_series_id(token_series_id),
            r is Err ==> r == Err::<u64, ContractError>(ContractError::SeriesNotFound),
            r is Ok ==> r->Ok_0 == self.series_at(token_series_id).tokens_count,
    {
        if !(1 <= token_series_id && token_series_id <= self.token_series_by_id.len() as u64) {
            return Err(ContractError::SeriesNotFound);
        }
        let idx: usize = (token_series_id - 1) as usize;
        Ok(self.token_series_by_id[idx].tokens_count)
    }
}

} // verus!
