//! The marketplace's data model: the contract state, its record types and the
//! well-formedness invariant that every operation preserves.

use vstd::prelude::*;

use crate::royalty::{royalty_keys_unique, royalty_sum};

verus! {

/// Series identifiers are assigned sequentially starting at 1.
pub type TokenSeriesId = u64;

/// Wall-clock time in whole seconds.
pub type TimestampSec = u32;

/// An amount of the ledger's currency.
pub type Balance = u128;

/// Prices must stay strictly below this ceiling.
pub const MAX_PRICE: Balance = 1_000_000_000_000_000_000_000_000_000_000_000;

/// Separates the series component from the edition number in a rendered
/// token identifier, e.g. "42:2" for the second edition of series 42.
pub const TOKEN_DELIMETER: char = ':';

/// Separates a rendered title from the edition number, e.g. "Title #2/10".
pub const TITLE_DELIMETER: &'static str = " #";

/// Separates the edition number from the cap, e.g. "Title #2/10".
pub const EDITION_DELIMETER: &'static str = "/";

/// Identifies one minted edition: the parent series and the 1-based
/// sequence number of the edition within it.
#[derive(Clone, Copy, PartialEq, Eq, Structural, Debug)]
pub struct TokenId {
    pub token_series_id: TokenSeriesId,
    pub edition: u64,
}

/// An edition template. A series stores one; every edition minted from the
/// series inherits the display fields at read time.
#[derive(Debug, PartialEq, Eq)]
pub struct TokenMetadata {
    pub title: Option<String>,
    pub description: Option<String>,
    pub media: Option<String>,
    pub media_hash: Option<String>,
    pub copies: Option<u64>,
    pub issued_at: Option<u64>,
    pub expires_at: Option<u64>,
    pub starts_at: Option<u64>,
    pub updated_at: Option<u64>,
    pub extra: Option<String>,
    pub reference: Option<String>,
    pub reference_hash: Option<String>,
}

/// The global fee schedule: the fee in force now, and an optional staged
/// fee that becomes effective at `start_time`.
#[derive(Clone, Copy, PartialEq, Eq, Structural, Debug)]
pub struct TransactionFee {
    pub next_fee: Option<u16>,
    pub start_time: Option<TimestampSec>,
    pub current_fee: u16,
}

/// Per-series snapshots of the fee schedule, taken at series creation and at
/// each price change. Entry `i` belongs to series `i + 1`.
pub struct MarketDataTransactionFee {
    pub transaction_fee: Vec<u128>,
}

/// One registered series.
pub struct TokenSeries {
    pub metadata: TokenMetadata,
    pub creator_id: String,
    /// How many editions have been minted. Editions are numbered 1 upward
    /// and never leave the series, so the count determines the set.
    pub tokens_count: u64,
    pub price: Option<Balance>,
    pub is_mintable: bool,
    /// Royalty table: each entry maps a party to its share in units of
    /// 1/10000 of a sale. Keys are unique.
    pub royalty: Vec<(String, u32)>,
}

/// The view of a series handed to callers.
#[derive(Debug, PartialEq, Eq)]
pub struct TokenSeriesJson {
    pub token_series_id: TokenSeriesId,
    pub metadata: TokenMetadata,
    pub creator_id: String,
    pub royalty: Vec<(String, u32)>,
    pub transaction_fee: Option<u128>,
}

/// What the ledger stores per minted edition: the owner, the mint time and
/// the approval table. Display fields live on the parent series.
pub struct TokenRecord {
    pub token_id: TokenId,
    pub owner_id: String,
    /// Mint time in nanoseconds.
    pub issued_at: u64,
    /// Approved parties and their approval ids. Keys are unique.
    pub approved_account_ids: Vec<(String, u64)>,
    /// The next approval id to hand out; ids start at 1 and are never reused.
    pub next_approval_id: u64,
}

/// The view of one edition handed to callers: stored ownership state joined
/// with the parent series' template fields.
#[derive(Debug)]
pub struct Token {
    pub token_id: TokenId,
    pub owner_id: String,
    pub metadata: Option<TokenMetadata>,
    pub approved_account_ids: Vec<(String, u64)>,
}

/// A payout split: each party and the amount it is owed. Amounts sum to the
/// sale amount that produced the split.
#[derive(Debug, PartialEq, Eq)]
pub struct Payout {
    pub payout: Vec<(String, u128)>,
}

/// What a purchase owes the outside world: the minted edition, and the two
/// payments the caller must execute through the value-transfer service.
#[derive(Debug, PartialEq, Eq)]
pub struct BuyReceipt {
    pub token_id: TokenId,
    /// The series' creator, owed `creator_amount`.
    pub creator_id: String,
    pub creator_amount: Balance,
    /// The platform's cut, owed to the treasury when nonzero.
    pub treasury_amount: Balance,
}

/// Phase 1 of an acknowledged transfer has run; the caller must now invoke
/// the receiver's acceptance hook with `msg` and feed its answer back into
/// `Contract::nft_resolve_transfer` together with the captured state below.
pub struct PendingTransfer {
    pub sender_id: String,
    pub previous_owner_id: String,
    pub receiver_id: String,
    pub token_id: TokenId,
    /// The approval table as it stood before phase 1, for rollback.
    pub approved_account_ids: Vec<(String, u64)>,
    pub msg: String,
}

/// Why an operation was rejected. Every rejection leaves the state exactly
/// as it was.
#[derive(Clone, Copy, PartialEq, Eq, Structural, Debug)]
pub enum ContractError {
    /// The caller is not the contract owner.
    OwnerOnly,
    /// The caller is not the series' creator.
    CreatorOnly,
    /// An explicit creator was supplied and differs from the caller.
    CreatorMismatch,
    /// A fee of 10000 or more was proposed.
    FeeTooHigh,
    /// A staged fee's activation time is not in the future.
    StartTimeNotFuture,
    /// No series has the given identifier.
    SeriesNotFound,
    /// No edition has the given identifier.
    TokenNotFound,
    /// The template has no title.
    TitleRequired,
    /// A royalty entry names a malformed account.
    InvalidRoyaltyAccount,
    /// A royalty entry repeats an account.
    DuplicateRoyaltyAccount,
    /// The royalty table has more than 10 entries.
    RoyaltyAccountsExceeded,
    /// The royalty shares sum to more than 5000 (50%).
    RoyaltyTotalExceeded,
    /// The price is at or above the ceiling.
    PriceTooHigh,
    /// The series has no price set.
    NotForSale,
    /// The attached deposit does not cover the price.
    DepositTooLow,
    /// The series has been closed to minting.
    NotMintable,
    /// The series has reached its supply cap.
    SupplyMaxed,
    /// The series has no supply cap to decrease.
    CopiesNotSet,
    /// The cap cannot drop below the already-minted count.
    CannotDecreaseBelowMinted,
    /// The series is already non-mintable.
    AlreadyNonMintable,
    /// A capped series can only stop minting by exhaustion or cap decrease.
    HasCopiesCap,
    /// The caller is neither the owner nor an approved party.
    Unauthorized,
    /// The supplied approval id differs from the registered one.
    ApprovalMismatch,
    /// The receiver already owns the edition.
    ReceiverIsOwner,
    /// The royalty table has more entries than the payout may name.
    TooManyRecipients,
    /// A sale amount was supplied without a recipient bound.
    MaxRecipientsRequired,
    /// The sale amount is too large to split without overflow.
    BalanceTooLarge,
    /// `from_index` points past the end of the collection.
    OutOfBounds,
    /// A limit of 0 was supplied.
    ZeroLimit,
}

/// The whole marketplace state.
pub struct Contract {
    /// The contract owner: the only party allowed to reschedule fees.
    pub owner_id: String,
    /// Receives the platform's cut of each sale.
    pub treasury_id: String,
    /// Series records; entry `i` is series `i + 1`.
    pub token_series_by_id: Vec<TokenSeries>,
    pub transaction_fee: TransactionFee,
    pub market_data_transaction_fee: MarketDataTransactionFee,
    /// The ownership ledger: one record per minted, unburned edition.
    pub tokens: Vec<TokenRecord>,
}

/// Replaces the element at `i`.
pub fn set_at<T>(v: &mut Vec<T>, i: usize, x: T)
    requires
        i < old(v)@.len(),
    ensures
        final(v)@ == old(v)@.update(i as int, x),
{
    let ghost pre = v@;
    let _removed = v.remove(i);
    v.insert(i, x);
    proof {
        assert(v@ =~= pre.update(i as int, x));
    }
}

/// Copies an optional string.
pub fn clone_opt_string(o: &Option<String>) -> (r: Option<String>)
    ensures
        r == *o,
{
    match o {
        Some(s) => Some(s.clone()),
        None => None,
    }
}

/// Copies a table of (party, value) entries, such as a royalty or an
/// approval table.
pub fn clone_pairs<T: Copy>(v: &Vec<(String, T)>) -> (r: Vec<(String, T)>)
    ensures
        r@ == v@,
{
    let mut r: Vec<(String, T)> = Vec::new();
    let mut i: usize = 0;
    while i < v.len()
        invariant
            0 <= i <= v@.len(),
            r@ =~= v@.take(i as int),
        decreases v@.len() - i,
    {
        let entry: &(String, T) = &v[i];
        r.push((entry.0.clone(), entry.1));
        assert(v@.take(i as int).push(v@[i as int]) =~= v@.take(i as int + 1));
        i += 1;
    }
    assert(v@.take(v@.len() as int) =~= v@);
    r
}

impl TokenMetadata {
    /// Copies a template.
    pub fn duplicate(&self) -> (r: TokenMetadata)
        ensures
            r == *self,
    {
        TokenMetadata {
            title: clone_opt_string(&self.title),
            description: clone_opt_string(&self.description),
            media: clone_opt_string(&self.media),
            media_hash: clone_opt_string(&self.media_hash),
            copies: self.copies,
            issued_at: self.issued_at,
            expires_at: self.expires_at,
            starts_at: self.starts_at,
            updated_at: self.updated_at,
            extra: clone_opt_string(&self.extra),
            reference: clone_opt_string(&self.reference),
            reference_hash: clone_opt_string(&self.reference_hash),
        }
    }
}

/// The fee schedule's invariant: fees stay below 10000, and a staged fee
/// and its activation time are present or absent together.
pub open spec fn fee_wf(f: TransactionFee) -> bool {
    &&& f.current_fee < 10000
    &&& (f.next_fee is Some <==> f.start_time is Some)
    &&& (f.next_fee is Some ==> f.next_fee->0 < 10000)
}

/// The approval table's invariant: no party appears twice.
pub open spec fn approvals_unique(a: Seq<(String, u64)>) -> bool {
    forall|i: int, j: int| 0 <= i < j < a.len() ==> a[i].0@ != a[j].0@
}

impl TokenSeries {
    /// The per-series invariant: royalty bounds, the price ceiling, and the
    /// supply-cap discipline (never over the cap; non-mintable at the cap).
    pub open spec fn wf(self) -> bool {
        &&& royalty_keys_unique(self.royalty@)
        &&& self.royalty@.len() <= 10
        &&& royalty_sum(self.royalty@) <= 5000
        &&& (self.price is Some ==> self.price->0 < MAX_PRICE)
        &&& (self.metadata.copies is Some ==> {
            &&& self.tokens_count <= self.metadata.copies->0
            &&& (self.tokens_count == self.metadata.copies->0 ==> !self.is_mintable)
        })
    }
}

impl Contract {
    /// How many series exist.
    pub open spec fn series_count(self) -> int {
        self.token_series_by_id@.len() as int
    }

    /// Whether `sid` names a registered series.
    pub open spec fn valid_series_id(self, sid: TokenSeriesId) -> bool {
        1 <= sid <= self.series_count()
    }

    /// The record of series `sid`.
    pub open spec fn series_at(self, sid: TokenSeriesId) -> TokenSeries {
        self.token_series_by_id@[sid as int - 1]
    }

    /// A ledger record is internally consistent with the registry: it points
    /// at a registered series, within that series' minted range, and its
    /// approval table has unique keys.
    pub open spec fn record_wf(self, r: TokenRecord) -> bool {
        &&& self.valid_series_id(r.token_id.token_series_id)
        &&& 1 <= r.token_id.edition
        &&& r.token_id.edition <= self.series_at(r.token_id.token_series_id).tokens_count
        &&& approvals_unique(r.approved_account_ids@)
    }

    /// The ledger's invariant: edition identifiers are unique and every
    /// record is consistent with the registry.
    pub open spec fn tokens_wf(self) -> bool {
        &&& forall|i: int, j: int|
            0 <= i < j < self.tokens@.len() ==> self.tokens@[i].token_id != self.tokens@[j].token_id
        &&& forall|i: int| 0 <= i < self.tokens@.len() ==> self.record_wf(#[trigger] self.tokens@[i])
    }

    /// The contract invariant: every operation requires and re-establishes it.
    pub open spec fn wf(self) -> bool {
        &&& fee_wf(self.transaction_fee)
        &&& self.market_data_transaction_fee.transaction_fee@.len() == self.series_count()
        &&& forall|i: int|
            0 <= i < self.series_count()
                ==> self.market_data_transaction_fee.transaction_fee@[i] < 10000
        &&& forall|i: int|
            0 <= i < self.series_count() ==> (#[trigger] self.token_series_by_id@[i]).wf()
        &&& self.tokens_wf()
    }

    /// Creates an empty marketplace with the given owner, treasury and
    /// initial transaction fee.
    pub fn new(owner_id: String, treasury_id: String, current_fee: u16) -> (c: Contract)
        requires
            current_fee < 10000,
        ensures
            c.wf(),
            c.owner_id == owner_id,
            c.treasury_id == treasury_id,
            c.transaction_fee == (TransactionFee {
                next_fee: None,
                start_time: None,
                current_fee,
            }),
            c.token_series_by_id@.len() == 0,
            c.market_data_transaction_fee.transaction_fee@.len() == 0,
            c.tokens@.len() == 0,
    {
        Contract {
            owner_id,
            treasury_id,
            token_series_by_id: Vec::new(),
            transaction_fee: TransactionFee { next_fee: None, start_time: None, current_fee },
            market_data_transaction_fee: MarketDataTransactionFee { transaction_fee: Vec::new() },
            tokens: Vec::new(),
        }
    }

    /// Creates an empty marketplace with the default 3% transaction fee.
    pub fn new_default_meta(owner_id: String, treasury_id: String) -> (c: Contract)
        ensures
            c.wf(),
            c.owner_id == owner_id,
            c.treasury_id == treasury_id,
            c.transaction_fee == (TransactionFee {
                next_fee: None,
                start_time: None,
                current_fee: 300,
            }),
            c.token_series_by_id@.len() == 0,
            c.market_data_transaction_fee.transaction_fee@.len() == 0,
            c.tokens@.len() == 0,
    {
        Contract::new(owner_id, treasury_id, 300)
    }

    /// The contract owner's identifier.
    pub fn get_owner(&self) -> (r: String)
        ensures
            r == self.owner_id,
    {
        self.owner_id.clone()
    }

    /// Points the platform's cut at a new treasury. Owner only.
    pub fn set_treasury(&mut self, caller_id: &String, treasury_id: String) -> (r: Result<
        (),
        ContractError,
    >)
        requires
            old(self).wf(),
        ensures
            final(self).wf(),
            r is Ok <==> caller_id@ == old(self).owner_id@,
            r is Err ==> r == Err::<(), ContractError>(ContractError::OwnerOnly) && *final(self)
                == *old(self),
            r is Ok ==> *final(self) == (Contract { treasury_id, ..*old(self) }),
    {
        if !caller_id.eq(&self.owner_id) {
            return Err(ContractError::OwnerOnly);
        }
        self.treasury_id = treasury_id;
        Ok(())
    }

    /// Whether the ledger holds a record for `tid`.
    pub open spec fn has_token(self, tid: TokenId) -> bool {
        exists|i: int| 0 <= i < self.tokens@.len() && self.tokens@[i].token_id == tid
    }

    /// The ledger index of `tid`'s record.
    pub open spec fn token_index(self, tid: TokenId) -> int {
        choose|i: int| 0 <= i < self.tokens@.len() && self.tokens@[i].token_id == tid
    }

    /// The record of `tid`.
    pub open spec fn token_at(self, tid: TokenId) -> TokenRecord {
        self.tokens@[self.token_index(tid)]
    }
}

} // verus!
