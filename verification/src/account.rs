//! Accounts and the balance-mutation engine.
//!
//! An account is one balance row per (user, asset type) pair.  Balances are
//! fixed-point decimals kept as micro units (see [`crate::amount`]).  All
//! mutations go through [`Account::action`], which applies an ordered batch
//! of requests inside one atomic unit of work: either every request commits,
//! or the store is left exactly as it was.

use vstd::prelude::*;
use vstd::string::StrSliceExecFns;
use crate::action_type::{
    action_active, signed_delta, ActionType, Change, fetch_one_spec,
};
use crate::amount::RawAmount;
use crate::asset_type::{asset_active, AssetType};
use crate::error::AccountError;
use crate::ledger::{commit_spec, Ledger, LedgerV, Tx, TxV};

verus! {

/// Largest balance magnitude the store's numeric columns can hold, in micro
/// units: eighteen decimal digits.
pub const BALANCE_LIMIT: i64 = 999999999999999999;

/// Whether a balance value, in micro units, fits the store's numeric range.
pub open spec fn balance_ok(b: int) -> bool {
    -(BALANCE_LIMIT as int) <= b <= BALANCE_LIMIT as int
}

/// One balance row.  Exactly one row exists per (user_id, asset_type_id)
/// pair; rows are never deleted, only deactivated.
#[derive(Clone, Copy, Debug, PartialEq, Eq, Structural)]
pub struct Account {
    pub id: i32,
    pub user_id: i32,
    pub asset_type_id: i32,
    pub available_balance: i64,
    pub frozen_balance: i64,
    pub total_income: i64,
    pub total_expense: i64,
    pub is_active: bool,
}

/// Whether all four balances of a row fit the store's numeric range.
pub open spec fn account_in_range(a: Account) -> bool {
    &&& balance_ok(a.available_balance as int)
    &&& balance_ok(a.frozen_balance as int)
    &&& balance_ok(a.total_income as int)
    &&& balance_ok(a.total_expense as int)
}

/// One append-only audit entry: the four signed deltas a mutation applied and
/// the four resulting balances, in micro units.
#[derive(Debug)]
pub struct AccountLog {
    pub account_id: i32,
    pub action_type_id: i32,
    pub amount_available_balance: i64,
    pub amount_frozen_balance: i64,
    pub amount_total_income: i64,
    pub amount_total_expense: i64,
    pub available_balance_after: i64,
    pub frozen_balance_after: i64,
    pub total_income_after: i64,
    pub total_expense_after: i64,
    pub order_number: Option<String>,
    pub description: Option<String>,
}

/// A transient request record.  Which fields must be present depends on the
/// operation that consumes it (create, query or mutate).
#[derive(Debug)]
pub struct AccountRequest {
    pub user_id: i32,
    pub asset_type_id: Option<i32>,
    pub action_type_id: Option<i32>,
    pub amount: Option<RawAmount>,
    pub order_number: Option<String>,
    pub description: Option<String>,
}

impl AccountRequest {
    /// The amount, when present, is a well-formed decimal input.
    pub open spec fn wf(self) -> bool {
        self.amount is Some ==> self.amount.unwrap().wf()
    }
}

/// Index of the first row with the given (user, asset type) pair, scanning
/// from position `i`.
pub open spec fn acct_lookup_from(s: Seq<Account>, user_id: i32, asset_type_id: i32, i: int) -> Option<int>
    decreases s.len() - i,
{
    if i < 0 || i >= s.len() {
        None
    } else if s[i].user_id == user_id && s[i].asset_type_id == asset_type_id {
        Some(i)
    } else {
        acct_lookup_from(s, user_id, asset_type_id, i + 1)
    }
}

/// Index of the first row with the given pair, if any.  Pairs are unique in a
/// well-formed store, so this is the row the durable store would return.
pub open spec fn acct_lookup(s: Seq<Account>, user_id: i32, asset_type_id: i32) -> Option<int> {
    acct_lookup_from(s, user_id, asset_type_id, 0)
}

/// Whether an account for the pair exists.
pub open spec fn account_exists_spec(s: Seq<Account>, user_id: i32, asset_type_id: i32) -> bool {
    acct_lookup(s, user_id, asset_type_id) is Some
}

/// Whether an account for the pair exists and is active.
pub open spec fn account_active_spec(s: Seq<Account>, user_id: i32, asset_type_id: i32) -> bool {
    match acct_lookup(s, user_id, asset_type_id) {
        Some(k) => s[k].is_active,
        None => false,
    }
}

pub proof fn lemma_acct_lookup_some(s: Seq<Account>, user_id: i32, asset_type_id: i32, i: int)
    requires
        0 <= i,
        acct_lookup_from(s, user_id, asset_type_id, i) is Some,
    ensures
        ({
            let k = acct_lookup_from(s, user_id, asset_type_id, i).unwrap();
            i <= k < s.len() && s[k].user_id == user_id && s[k].asset_type_id == asset_type_id
        }),
    decreases s.len() - i,
{
    if 0 <= i < s.len() && !(s[i].user_id == user_id && s[i].asset_type_id == asset_type_id) {
        lemma_acct_lookup_some(s, user_id, asset_type_id, i + 1);
    }
}

pub proof fn lemma_acct_lookup_none(s: Seq<Account>, user_id: i32, asset_type_id: i32, i: int)
    requires
        0 <= i,
        acct_lookup_from(s, user_id, asset_type_id, i) is None,
    ensures
        forall|j: int|
            i <= j < s.len() ==> !(s[j].user_id == user_id && s[j].asset_type_id
                == asset_type_id),
    decreases s.len() - i,
{
    if 0 <= i < s.len() {
        lemma_acct_lookup_none(s, user_id, asset_type_id, i + 1);
    }
}

/// The rows among the first `n` that belong to the user and to one of the
/// listed asset types, in store order.
pub open spec fn accounts_matching_upto(s: Seq<Account>, user_id: i32, ids: Seq<i32>, n: int) -> Seq<
    Account,
>
    decreases n,
{
    if n <= 0 {
        Seq::<Account>::empty()
    } else {
        let rest = accounts_matching_upto(s, user_id, ids, n - 1);
        if s[n - 1].user_id == user_id && ids.contains(s[n - 1].asset_type_id) {
            rest.push(s[n - 1])
        } else {
            rest
        }
    }
}

/// The rows that belong to the user and to one of the listed asset types.
pub open spec fn accounts_matching(s: Seq<Account>, user_id: i32, ids: Seq<i32>) -> Seq<Account> {
    accounts_matching_upto(s, user_id, ids, s.len() as int)
}

/// What shape validation returns: the first failing field rule, in field
/// order, or success.  Optional fields are only checked when present.
pub open spec fn validate_shape_spec(req: AccountRequest) -> Result<(), AccountError> {
    if req.user_id < 1 {
        Err(AccountError::InvalidUserId)
    } else if req.asset_type_id is Some && req.asset_type_id.unwrap() < 1 {
        Err(AccountError::InvalidAssetTypeId)
    } else if req.action_type_id is Some && req.action_type_id.unwrap() < 1 {
        Err(AccountError::InvalidActionTypeId)
    } else if req.amount is Some && !req.amount.unwrap().at_least_min() {
        Err(AccountError::AmountTooSmall)
    } else if req.order_number is Some && req.order_number.unwrap()@.len() < 32 {
        Err(AccountError::InvalidOrderNumber)
    } else if req.description is Some && req.description.unwrap()@.len() < 1 {
        Err(AccountError::InvalidDescription)
    } else {
        Ok(())
    }
}

/// `asset_type_id` must be present and name an active asset type.
pub open spec fn validate_asset_type_id_spec(req: AccountRequest, l: LedgerV) -> Result<
    (),
    AccountError,
> {
    if req.asset_type_id is Some && asset_active(l.asset_types, req.asset_type_id.unwrap()) {
        Ok(())
    } else {
        Err(AccountError::InvalidAssetTypeId)
    }
}

/// `action_type_id` must be present and name an active action type.
pub open spec fn validate_action_type_id_spec(req: AccountRequest, l: LedgerV) -> Result<
    (),
    AccountError,
> {
    if req.action_type_id is Some && action_active(l.action_types, req.action_type_id.unwrap()) {
        Ok(())
    } else {
        Err(AccountError::InvalidActionTypeId)
    }
}

/// `amount` must be present and carry at most six fractional digits: finer
/// amounts are rejected, never truncated.
pub open spec fn validate_amount_spec(req: AccountRequest) -> Result<(), AccountError> {
    if req.amount is Some && req.amount.unwrap().fits_storage_scale() {
        Ok(())
    } else {
        Err(AccountError::InvalidAmount)
    }
}

/// The mutation-path validation: asset type, then action type, then amount;
/// the first failing rule is reported.
pub open spec fn validate_spec(req: AccountRequest, l: LedgerV) -> Result<(), AccountError> {
    if validate_asset_type_id_spec(req, l) is Err {
        validate_asset_type_id_spec(req, l)
    } else if validate_action_type_id_spec(req, l) is Err {
        validate_action_type_id_spec(req, l)
    } else {
        validate_amount_spec(req)
    }
}

impl AccountRequest {
    /// Shape validation: field presence and per-field constraints that need
    /// no catalog access.
    pub fn validate_shape(&self) -> (r: Result<(), AccountError>)
        requires
            self.wf(),
        ensures
            r == validate_shape_spec(*self),
    {
        if self.user_id < 1 {
            return Err(AccountError::InvalidUserId);
        }
        match self.asset_type_id {
            Some(id) => if id < 1 {
                return Err(AccountError::InvalidAssetTypeId);
            },
            None => {},
        }
        match self.action_type_id {
            Some(id) => if id < 1 {
                return Err(AccountError::InvalidActionTypeId);
            },
            None => {},
        }
        match self.amount {
            Some(a) => if !crate::amount::at_least_min_i128(a) {
                return Err(AccountError::AmountTooSmall);
            },
            None => {},
        }
        match &self.order_number {
            Some(s) => if s.as_str().unicode_len() < 32 {
                return Err(AccountError::InvalidOrderNumber);
            },
            None => {},
        }
        match &self.description {
            Some(s) => if s.as_str().unicode_len() < 1 {
                return Err(AccountError::InvalidDescription);
            },
            None => {},
        }
        Ok(())
    }

    /// Catalog validation of `asset_type_id`, against the durable store.
    pub fn validate_asset_type_id(&self, store: &Ledger) -> (r: Result<(), AccountError>)
        ensures
            r == validate_asset_type_id_spec(*self, store@),
    {
        match self.asset_type_id {
            Some(id) => if AssetType::is_active(store, id) {
                Ok(())
            } else {
                Err(AccountError::InvalidAssetTypeId)
            },
            None => Err(AccountError::InvalidAssetTypeId),
        }
    }

    /// Catalog validation of `action_type_id`, against the durable store.
    pub fn validate_action_type_id(&self, store: &Ledger) -> (r: Result<(), AccountError>)
        ensures
            r == validate_action_type_id_spec(*self, store@),
    {
        match self.action_type_id {
            Some(id) => if ActionType::is_active(store, id) {
                Ok(())
            } else {
                Err(AccountError::InvalidActionTypeId)
            },
            None => Err(AccountError::InvalidActionTypeId),
        }
    }

    /// `amount` must be present and fit the store's six-digit grid, so no
    /// precision is lost on the way to storage.
    pub fn validate_amount(&self) -> (r: Result<(), AccountError>)
        ensures
            r == validate_amount_spec(*self),
    {
        match self.amount {
            Some(a) => if a.scale <= crate::amount::STORAGE_SCALE {
                Ok(())
            } else {
                Err(AccountError::InvalidAmount)
            },
            None => Err(AccountError::InvalidAmount),
        }
    }

    /// The mutation-path validation: asset type, action type, amount.
    pub fn validate(&self, store: &Ledger) -> (r: Result<(), AccountError>)
        ensures
            r == validate_spec(*self, store@),
    {
        match self.validate_asset_type_id(store) {
            Err(e) => return Err(e),
            Ok(()) => {},
        }
        match self.validate_action_type_id(store) {
            Err(e) => return Err(e),
            Ok(()) => {},
        }
        self.validate_amount()
    }
}

/// What creating an account does to the store: reject an invalid asset type
/// or a duplicate pair, otherwise append a fresh all-zero active row.
pub open spec fn create_spec(l: LedgerV, req: AccountRequest) -> Result<LedgerV, AccountError> {
    if validate_asset_type_id_spec(req, l) is Err {
        Err(AccountError::InvalidAssetTypeId)
    } else if account_exists_spec(l.accounts, req.user_id, req.asset_type_id.unwrap()) {
        Err(AccountError::Conflict)
    } else if l.next_account_id == i32::MAX {
        Err(AccountError::Internal)
    } else {
        Ok(
            LedgerV {
                accounts: l.accounts.push(
                    new_account_row(l.next_account_id, req.user_id, req.asset_type_id.unwrap()),
                ),
                next_account_id: (l.next_account_id + 1) as i32,
                ..l
            },
        )
    }
}

/// A freshly opened account row: all balances zero, active.
pub open spec fn new_account_row(id: i32, user_id: i32, asset_type_id: i32) -> Account {
    Account {
        id,
        user_id,
        asset_type_id,
        available_balance: 0,
        frozen_balance: 0,
        total_income: 0,
        total_expense: 0,
        is_active: true,
    }
}

/// What an account query returns: with an asset type given, the single
/// matching row; without one, the user's rows across all active asset types.
/// An empty result is a not-found failure.
pub open spec fn info_spec(l: LedgerV, req: AccountRequest) -> Result<Seq<Account>, AccountError> {
    if req.asset_type_id is Some {
        if validate_asset_type_id_spec(req, l) is Err {
            Err(AccountError::InvalidAssetTypeId)
        } else {
            let matched = accounts_matching(
                l.accounts,
                req.user_id,
                seq![req.asset_type_id.unwrap()],
            );
            if matched.len() > 0 {
                Ok(matched)
            } else {
                Err(AccountError::NotFound)
            }
        }
    } else {
        let ids = crate::asset_type::active_asset_ids(l.asset_types);
        if ids.len() == 0 {
            Err(AccountError::NotFound)
        } else {
            let matched = accounts_matching(l.accounts, req.user_id, ids);
            if matched.len() > 0 {
                Ok(matched)
            } else {
                Err(AccountError::NotFound)
            }
        }
    }
}

fn contains_id(ids: &Vec<i32>, id: i32) -> (r: bool)
    ensures
        r == ids@.contains(id),
{
    let n = ids.len();
    let mut i: usize = 0;
    while i < n
        invariant
            n == ids.len(),
            i <= n,
            forall|k: int| 0 <= k < i ==> ids@[k] != id,
        decreases n - i,
    {
        if ids[i] == id {
            return true;
        }
        i = i + 1;
    }
    false
}

fn find_account(accounts: &Vec<Account>, user_id: i32, asset_type_id: i32) -> (r: Option<usize>)
    ensures
        match r {
            Some(k) => k < accounts@.len() && accounts@[k as int].user_id == user_id
                && accounts@[k as int].asset_type_id == asset_type_id && acct_lookup(
                accounts@,
                user_id,
                asset_type_id,
            ) == Some(k as int),
            None => acct_lookup(accounts@, user_id, asset_type_id) is None,
        },
{
    let n = accounts.len();
    let mut i: usize = 0;
    while i < n
        invariant
            n == accounts.len(),
            i <= n,
            acct_lookup(accounts@, user_id, asset_type_id) == acct_lookup_from(
                accounts@,
                user_id,
                asset_type_id,
                i as int,
            ),
        decreases n - i,
    {
        if accounts[i].user_id == user_id && accounts[i].asset_type_id == asset_type_id {
            return Some(i);
        }
        i = i + 1;
    }
    None
}

fn clone_opt_string(s: &Option<String>) -> (r: Option<String>)
    ensures
        r == *s,
{
    match s {
        Some(x) => Some(x.clone()),
        None => None,
    }
}

/// What applying a resolved action type to the account at position `j` of
/// the working rows does: add the four signed deltas in one update, reject a
/// result outside the store's numeric range, trip the guard when a decrement
/// drove its balance negative, and otherwise record one audit entry.  An
/// increment may drive a balance negative: out-of-band administrative
/// corrections rely on that asymmetry.
pub open spec fn apply_spec(tx: TxV, req: AccountRequest, at: ActionType, j: int) -> Result<
    TxV,
    AccountError,
> {
    let acc = tx.accounts[j];
    let m: int = req.amount.unwrap().magnitude_micro();
    let da: int = signed_delta(at.available_balance_change, m);
    let df: int = signed_delta(at.frozen_balance_change, m);
    let di: int = signed_delta(at.total_income_change, m);
    let de: int = signed_delta(at.total_expense_change, m);
    let na: int = acc.available_balance + da;
    let nf: int = acc.frozen_balance + df;
    let ni: int = acc.total_income + di;
    let ne: int = acc.total_expense + de;
    if !(balance_ok(na) && balance_ok(nf) && balance_ok(ni) && balance_ok(ne)) {
        Err(AccountError::Internal)
    } else if (at.available_balance_change == Change::DEC && na < 0) || (at.frozen_balance_change
        == Change::DEC && nf < 0) {
        Err(AccountError::InsufficientBalance)
    } else {
        let updated = Account {
            available_balance: na as i64,
            frozen_balance: nf as i64,
            total_income: ni as i64,
            total_expense: ne as i64,
            ..acc
        };
        let entry = AccountLog {
            account_id: acc.id,
            action_type_id: req.action_type_id.unwrap(),
            amount_available_balance: da as i64,
            amount_frozen_balance: df as i64,
            amount_total_income: di as i64,
            amount_total_expense: de as i64,
            available_balance_after: na as i64,
            frozen_balance_after: nf as i64,
            total_income_after: ni as i64,
            total_expense_after: ne as i64,
            order_number: req.order_number,
            description: req.description,
        };
        Ok(TxV { accounts: tx.accounts.update(j, updated), new_logs: tx.new_logs.push(entry) })
    }
}

/// What one mutation request does to a unit of work: validate against the
/// durable store, demand an active account, resolve the action type from the
/// durable store (never the cache), then apply it to the working rows.
pub open spec fn update_balance_spec(l: LedgerV, tx: TxV, req: AccountRequest) -> Result<
    TxV,
    AccountError,
> {
    match validate_spec(req, l) {
        Err(e) => Err(e),
        Ok(()) => {
            if !account_active_spec(l.accounts, req.user_id, req.asset_type_id.unwrap()) {
                Err(AccountError::Forbidden)
            } else {
                match fetch_one_spec(l.action_types, req.action_type_id.unwrap()) {
                    Err(e) => Err(e),
                    Ok(at) => {
                        match acct_lookup(tx.accounts, req.user_id, req.asset_type_id.unwrap()) {
                            None => Err(AccountError::Internal),
                            Some(j) => apply_spec(tx, req, at, j),
                        }
                    },
                }
            }
        },
    }
}

/// The first shape error among the requests, checking in order from
/// position `i`.
pub open spec fn shape_check_from(reqs: Seq<AccountRequest>, i: int) -> Result<(), AccountError>
    decreases reqs.len() - i,
{
    if i < 0 || i >= reqs.len() {
        Ok(())
    } else {
        match validate_shape_spec(reqs[i]) {
            Err(e) => Err(e),
            Ok(()) => shape_check_from(reqs, i + 1),
        }
    }
}

/// The unit of work after applying the requests from position `i` on, in
/// order, or the first failure.
pub open spec fn batch_loop_spec(
    l: LedgerV,
    tx: TxV,
    reqs: Seq<AccountRequest>,
    i: int,
) -> Result<TxV, AccountError>
    decreases reqs.len() - i,
{
    if i < 0 || i >= reqs.len() {
        Ok(tx)
    } else {
        match update_balance_spec(l, tx, reqs[i]) {
            Err(e) => Err(e),
            Ok(t2) => batch_loop_spec(l, t2, reqs, i + 1),
        }
    }
}

/// What a whole batch does to the store: shape-check every request, then
/// apply them in order inside one unit of work.  The first failure rejects
/// the whole batch; only a fully successful batch commits.
pub open spec fn action_spec(l: LedgerV, reqs: Seq<AccountRequest>) -> Result<
    LedgerV,
    AccountError,
> {
    match shape_check_from(reqs, 0) {
        Err(e) => Err(e),
        Ok(()) => {
            let tx0 = TxV { accounts: l.accounts, new_logs: Seq::<AccountLog>::empty() };
            match batch_loop_spec(l, tx0, reqs, 0) {
                Err(e) => Err(e),
                Ok(t) => Ok(commit_spec(l, t)),
            }
        },
    }
}

/// Working rows agree with the base rows on everything but balances: same
/// length, and identity and activation of every row unchanged.
pub open spec fn accounts_shape_eq(a: Seq<Account>, b: Seq<Account>) -> bool {
    &&& a.len() == b.len()
    &&& forall|i: int|
        0 <= i < a.len() ==> ((#[trigger] b[i]).id == a[i].id && b[i].user_id == a[i].user_id
            && b[i].asset_type_id == a[i].asset_type_id && b[i].is_active == a[i].is_active)
}

/// A successful request keeps the shape of the working rows and keeps every
/// balance inside the store's numeric range.
pub proof fn lemma_apply_preserves(l: LedgerV, tx: TxV, req: AccountRequest)
    requires
        update_balance_spec(l, tx, req) is Ok,
    ensures
        accounts_shape_eq(tx.accounts, update_balance_spec(l, tx, req).unwrap().accounts),
        forall|i: int|
            0 <= i < tx.accounts.len() && account_in_range(#[trigger] tx.accounts[i])
                ==> account_in_range(update_balance_spec(l, tx, req).unwrap().accounts[i]),
{
    let r = update_balance_spec(l, tx, req);
    if validate_spec(req, l) is Ok && account_active_spec(
        l.accounts,
        req.user_id,
        req.asset_type_id.unwrap(),
    ) {
        match fetch_one_spec(l.action_types, req.action_type_id.unwrap()) {
            Ok(at) => {
                match acct_lookup(tx.accounts, req.user_id, req.asset_type_id.unwrap()) {
                    Some(j) => {
                        lemma_acct_lookup_some(tx.accounts, req.user_id, req.asset_type_id.unwrap(), 0);
                        assert(0 <= j < tx.accounts.len());
                        assert(r == apply_spec(tx, req, at, j));
                        assert(accounts_shape_eq(tx.accounts, r.unwrap().accounts));
                    },
                    None => {},
                }
            },
            Err(_) => {},
        }
    }
}

impl Account {
    /// Whether an account for the pair exists, read from the durable store.
    pub fn is_exists(store: &Ledger, user_id: i32, asset_type_id: i32) -> (r: bool)
        ensures
            r == account_exists_spec(store@.accounts, user_id, asset_type_id),
    {
        match find_account(&store.accounts, user_id, asset_type_id) {
            Some(_) => true,
            None => false,
        }
    }

    /// Whether an account for the pair exists and is active, read from the
    /// durable store.
    pub fn is_active(store: &Ledger, user_id: i32, asset_type_id: i32) -> (r: bool)
        ensures
            r == account_active_spec(store@.accounts, user_id, asset_type_id),
    {
        match find_account(&store.accounts, user_id, asset_type_id) {
            Some(k) => store.accounts[k].is_active,
            None => false,
        }
    }

    /// Open an account for the requested (user, asset type) pair: rejected
    /// when the asset type is unknown or inactive, or when the pair already
    /// has a row; otherwise one fresh all-zero active row is inserted.
    pub fn create(store: &mut Ledger, req: &AccountRequest) -> (res: Result<(), AccountError>)
        requires
            old(store)@.wf(),
        ensures
            final(store)@.wf(),
            match create_spec(old(store)@, *req) {
                Ok(l2) => res is Ok && final(store)@ == l2,
                Err(e) => res == Err::<(), AccountError>(e) && final(store)@ == old(store)@,
            },
    {
        match req.validate_asset_type_id(store) {
            Err(e) => return Err(e),
            Ok(()) => {},
        }
        let asset_type_id = match req.asset_type_id {
            Some(id) => id,
            None => {
                // unreachable: successful validation implies presence
                proof {
                    assert(false);
                }
                return Err(AccountError::Internal);
            },
        };
        if Account::is_exists(store, req.user_id, asset_type_id) {
            return Err(AccountError::Conflict);
        }
        if store.next_account_id == i32::MAX {
            return Err(AccountError::Internal);
        }
        let row = Account {
            id: store.next_account_id,
            user_id: req.user_id,
            asset_type_id,
            available_balance: 0,
            frozen_balance: 0,
            total_income: 0,
            total_expense: 0,
            is_active: true,
        };
        proof {
            lemma_acct_lookup_none(store@.accounts, req.user_id, asset_type_id, 0);
        }
        store.accounts.push(row);
        store.next_account_id = store.next_account_id + 1;
        Ok(())
    }

    /// Query accounts: with an asset type given, the single matching row
    /// (after validating the asset type); without one, the user's rows across
    /// all active asset types.  An empty result is a not-found failure.
    pub fn info(store: &Ledger, req: &AccountRequest) -> (res: Result<Vec<Account>, AccountError>)
        ensures
            match info_spec(store@, *req) {
                Ok(s) => res is Ok && res.unwrap()@ == s,
                Err(e) => res == Err::<Vec<Account>, AccountError>(e),
            },
    {
        let ids: Vec<i32> = match req.asset_type_id {
            Some(asset_type_id) => {
                match req.validate_asset_type_id(store) {
                    Err(e) => return Err(e),
                    Ok(()) => {},
                }
                let mut v: Vec<i32> = Vec::new();
                v.push(asset_type_id);
                proof {
                    assert(v@ =~= seq![asset_type_id]);
                }
                v
            },
            None => AssetType::get_active_ids(store),
        };
        if ids.len() == 0 {
            return Err(AccountError::NotFound);
        }
        let n = store.accounts.len();
        let mut matched: Vec<Account> = Vec::new();
        let mut i: usize = 0;
        while i < n
            invariant
                n == store.accounts.len(),
                i <= n,
                matched@ == accounts_matching_upto(store@.accounts, req.user_id, ids@, i as int),
            decreases n - i,
        {
            if store.accounts[i].user_id == req.user_id && contains_id(
                &ids,
                store.accounts[i].asset_type_id,
            ) {
                matched.push(store.accounts[i]);
            }
            i = i + 1;
        }
        if matched.len() == 0 {
            return Err(AccountError::NotFound);
        }
        Ok(matched)
    }

    /// Apply one mutation request inside a unit of work.  The catalogs and
    /// the activity checks are read from the durable store; the balances are
    /// read from and written to the working rows, so earlier requests of the
    /// same batch are visible.
    pub fn update_balance(store: &Ledger, tx: &mut Tx, req: &AccountRequest) -> (res: Result<
        (),
        AccountError,
    >)
        requires
            req.wf(),
        ensures
            match update_balance_spec(store@, old(tx)@, *req) {
                Ok(t2) => res is Ok && final(tx)@ == t2,
                Err(e) => res == Err::<(), AccountError>(e) && final(tx)@ == old(tx)@,
            },
    {
        match req.validate(store) {
            Err(e) => return Err(e),
            Ok(()) => {},
        }
        let asset_type_id = match req.asset_type_id {
            Some(id) => id,
            None => {
                // unreachable: successful validation implies presence
                proof {
                    assert(false);
                }
                return Err(AccountError::Internal);
            },
        };
        let action_type_id = match req.action_type_id {
            Some(id) => id,
            None => {
                // unreachable: successful validation implies presence
                proof {
                    assert(false);
                }
                return Err(AccountError::Internal);
            },
        };
        let amount = match req.amount {
            Some(a) => a,
            None => {
                // unreachable: successful validation implies presence
                proof {
                    assert(false);
                }
                return Err(AccountError::Internal);
            },
        };
        if !Account::is_active(store, req.user_id, asset_type_id) {
            return Err(AccountError::Forbidden);
        }
        let at = match ActionType::fetch_one(store, action_type_id) {
            Ok(at) => at,
            Err(e) => return Err(e),
        };
        let j = match find_account(&tx.accounts, req.user_id, asset_type_id) {
            Some(j) => j,
            None => return Err(AccountError::Internal),
        };
        let acc = tx.accounts[j];
        let da = at.available_balance_change.calculate_change(amount);
        let df = at.frozen_balance_change.calculate_change(amount);
        let di = at.total_income_change.calculate_change(amount);
        let de = at.total_expense_change.calculate_change(amount);
        let na: i128 = acc.available_balance as i128 + da;
        let nf: i128 = acc.frozen_balance as i128 + df;
        let ni: i128 = acc.total_income as i128 + di;
        let ne: i128 = acc.total_expense as i128 + de;
        let limit: i128 = BALANCE_LIMIT as i128;
        if na < -limit || na > limit || nf < -limit || nf > limit || ni < -limit || ni > limit
            || ne < -limit || ne > limit {
            return Err(AccountError::Internal);
        }
        if (at.available_balance_change == Change::DEC && na < 0) || (at.frozen_balance_change
            == Change::DEC && nf < 0) {
            return Err(AccountError::InsufficientBalance);
        }
        let updated = Account {
            available_balance: na as i64,
            frozen_balance: nf as i64,
            total_income: ni as i64,
            total_expense: ne as i64,
            ..acc
        };
        tx.accounts[j] = updated;
        let entry = AccountLog {
            account_id: acc.id,
            action_type_id,
            amount_available_balance: da as i64,
            amount_frozen_balance: df as i64,
            amount_total_income: di as i64,
            amount_total_expense: de as i64,
            available_balance_after: na as i64,
            frozen_balance_after: nf as i64,
            total_income_after: ni as i64,
            total_expense_after: ne as i64,
            order_number: clone_opt_string(&req.order_number),
            description: clone_opt_string(&req.description),
        };
        tx.new_logs.push(entry);
        Ok(())
    }

    /// Apply an ordered batch of mutation requests as one all-or-nothing unit
    /// of work: every request is shape-checked, then applied in order; the
    /// first failure rolls the whole batch back, and only a fully successful
    /// batch commits its balance updates and audit entries.
    pub fn action(store: &mut Ledger, requests: &Vec<AccountRequest>) -> (res: Result<
        (),
        AccountError,
    >)
        requires
            old(store)@.wf(),
            forall|k: int| 0 <= k < requests@.len() ==> (#[trigger] requests@[k]).wf(),
        ensures
            final(store)@.wf(),
            match action_spec(old(store)@, requests@) {
                Ok(l2) => res is Ok && final(store)@ == l2,
                Err(e) => res == Err::<(), AccountError>(e) && final(store)@ == old(store)@,
            },
    {
        let n = requests.len();
        let mut i: usize = 0;
        while i < n
            invariant
                n == requests.len(),
                i <= n,
                *store == *old(store),
                old(store)@.wf(),
                forall|k: int| 0 <= k < requests@.len() ==> (#[trigger] requests@[k]).wf(),
                shape_check_from(requests@, 0) == shape_check_from(requests@, i as int),
            decreases n - i,
        {
            match requests[i].validate_shape() {
                Err(e) => return Err(e),
                Ok(()) => {},
            }
            i = i + 1;
        }
        let mut tx = store.begin();
        let ghost tx0 = tx@;
        let mut i: usize = 0;
        while i < n
            invariant
                n == requests.len(),
                i <= n,
                *store == *old(store),
                old(store)@.wf(),
                shape_check_from(requests@, 0) is Ok,
                tx0 == (TxV {
                    accounts: old(store)@.accounts,
                    new_logs: Seq::<AccountLog>::empty(),
                }),
                forall|k: int| 0 <= k < requests@.len() ==> (#[trigger] requests@[k]).wf(),
                batch_loop_spec(store@, tx0, requests@, 0) == batch_loop_spec(
                    store@,
                    tx@,
                    requests@,
                    i as int,
                ),
                accounts_shape_eq(store@.accounts, tx@.accounts),
                forall|k: int|
                    0 <= k < tx@.accounts.len() ==> account_in_range(#[trigger] tx@.accounts[k]),
            decreases n - i,
        {
            let ghost tx_before = tx@;
            match Account::update_balance(store, &mut tx, &requests[i]) {
                Err(e) => return Err(e),
                Ok(()) => {},
            }
            proof {
                lemma_apply_preserves(store@, tx_before, requests@[i as int]);
            }
            i = i + 1;
        }
        let ghost tx_final = tx@;
        store.commit(tx);
        proof {
            let ov = old(store)@;
            let lv = store@;
            assert(lv == commit_spec(ov, tx_final));
            assert(accounts_shape_eq(ov.accounts, lv.accounts));
            assert forall|a: int, b: int| 0 <= a < b < lv.accounts.len() implies !(
            lv.accounts[a].user_id == lv.accounts[b].user_id && lv.accounts[a].asset_type_id
                == lv.accounts[b].asset_type_id) by {
                assert(lv.accounts[a].user_id == ov.accounts[a].user_id);
                assert(lv.accounts[b].user_id == ov.accounts[b].user_id);
                assert(lv.accounts[a].asset_type_id == ov.accounts[a].asset_type_id);
                assert(lv.accounts[b].asset_type_id == ov.accounts[b].asset_type_id);
            };
            assert forall|a: int, b: int| 0 <= a < b < lv.accounts.len() implies lv.accounts[a].id
                != lv.accounts[b].id by {
                assert(lv.accounts[a].id == ov.accounts[a].id);
                assert(lv.accounts[b].id == ov.accounts[b].id);
            };
            assert forall|a: int| 0 <= a < lv.accounts.len() implies (#[trigger] lv.accounts[a]).id
                < lv.next_account_id by {
                assert(lv.accounts[a].id == ov.accounts[a].id);
            };
            assert(lv.wf());
        }
        Ok(())
    }
}

} // verus!
