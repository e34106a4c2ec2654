//! Guarantees of the mutation engine, stated and proved once and for all
//! over the specification functions that the executable contracts use.

use vstd::prelude::*;
use crate::account::{
    account_active_spec, accounts_matching_upto, acct_lookup, action_spec, apply_spec,
    batch_loop_spec, create_spec, info_spec, lemma_acct_lookup_none, lemma_acct_lookup_some,
    new_account_row, shape_check_from, update_balance_spec, validate_asset_type_id_spec,
    validate_shape_spec, validate_spec, Account, AccountRequest, balance_ok,
};
use crate::action_type::{action_active, fetch_one_spec, signed_delta, Change};
use crate::asset_type::asset_active;
use crate::cache::CatalogCache;
use crate::error::AccountError;
use crate::ledger::{LedgerV, TxV};

verus! {

proof fn lemma_matching_empty(s: Seq<Account>, user_id: i32, ids: Seq<i32>, n: int)
    requires
        forall|j: int|
            0 <= j < n ==> !((#[trigger] s[j]).user_id == user_id && ids.contains(
                s[j].asset_type_id,
            )),
    ensures
        accounts_matching_upto(s, user_id, ids, n).len() == 0,
    decreases n,
{
    if n > 0 {
        lemma_matching_empty(s, user_id, ids, n - 1);
    }
}

/// Opening an account for a (user, asset type) pair not yet present and
/// querying that pair right away returns exactly one account, with all four
/// balances zero.
pub proof fn lemma_create_then_info(l: LedgerV, req: AccountRequest)
    requires
        l.wf(),
        req.asset_type_id is Some,
        asset_active(l.asset_types, req.asset_type_id.unwrap()),
        acct_lookup(l.accounts, req.user_id, req.asset_type_id.unwrap()) is None,
        l.next_account_id != i32::MAX,
    ensures
        create_spec(l, req) is Ok,
        ({
            let l2 = create_spec(l, req).unwrap();
            info_spec(l2, req) == Ok::<Seq<Account>, AccountError>(
                seq![new_account_row(l.next_account_id, req.user_id, req.asset_type_id.unwrap())],
            )
        }),
{
    let atid = req.asset_type_id.unwrap();
    let row = new_account_row(l.next_account_id, req.user_id, atid);
    let l2 = create_spec(l, req).unwrap();
    let s2 = l.accounts.push(row);
    assert(l2.accounts == s2);
    lemma_acct_lookup_none(l.accounts, req.user_id, atid, 0);
    let ids = seq![atid];
    assert forall|x: i32| ids.contains(x) implies x == atid by {
        let k = choose|k: int| 0 <= k < ids.len() && ids[k] == x;
        assert(k == 0);
    };
    assert forall|j: int|
        0 <= j < l.accounts.len() implies !((#[trigger] s2[j]).user_id == req.user_id
        && ids.contains(s2[j].asset_type_id)) by {
        assert(s2[j] == l.accounts[j]);
    };
    lemma_matching_empty(s2, req.user_id, ids, l.accounts.len() as int);
    assert(s2[s2.len() - 1] == row);
    assert(ids.contains(atid)) by {
        assert(ids[0] == atid);
    };
    assert(accounts_matching_upto(s2, req.user_id, ids, s2.len() as int)
        == accounts_matching_upto(s2, req.user_id, ids, s2.len() - 1).push(row));
    assert(accounts_matching_upto(s2, req.user_id, ids, s2.len() as int) =~= seq![row]);
}

/// Applying an action type that decrements the available balance with an
/// amount larger than that balance fails with the insufficient-balance
/// error; by the contract of the batch entry point, the store is then left
/// exactly as it was.  The amount must still keep every balance within the
/// store's numeric range, or the store-level range failure wins instead.
pub proof fn lemma_decrement_insufficient(l: LedgerV, req: AccountRequest)
    requires
        req.wf(),
        validate_shape_spec(req) is Ok,
        validate_spec(req, l) is Ok,
        account_active_spec(l.accounts, req.user_id, req.asset_type_id.unwrap()),
        fetch_one_spec(
            l.action_types,
            req.action_type_id.unwrap(),
        ).unwrap().available_balance_change == Change::DEC,
        ({
            let acc = l.accounts[acct_lookup(
                l.accounts,
                req.user_id,
                req.asset_type_id.unwrap(),
            ).unwrap()];
            let at = fetch_one_spec(l.action_types, req.action_type_id.unwrap()).unwrap();
            let m: int = req.amount.unwrap().magnitude_micro();
            m > acc.available_balance
            && balance_ok(acc.available_balance - m)
            && balance_ok(acc.frozen_balance + signed_delta(at.frozen_balance_change, m))
            && balance_ok(acc.total_income + signed_delta(at.total_income_change, m))
            && balance_ok(acc.total_expense + signed_delta(at.total_expense_change, m))
        }),
    ensures
        action_spec(l, seq![req]) == Err::<LedgerV, AccountError>(
            AccountError::InsufficientBalance,
        ),
{
    let reqs = seq![req];
    assert(shape_check_from(reqs, 1) is Ok);
    assert(shape_check_from(reqs, 0) is Ok);
    let tx0 = TxV { accounts: l.accounts, new_logs: Seq::<crate::account::AccountLog>::empty() };
    let j = acct_lookup(l.accounts, req.user_id, req.asset_type_id.unwrap()).unwrap();
    let at = fetch_one_spec(l.action_types, req.action_type_id.unwrap()).unwrap();
    assert(update_balance_spec(l, tx0, req) == apply_spec(tx0, req, at, j));
    assert(apply_spec(tx0, req, at, j) == Err::<TxV, AccountError>(
        AccountError::InsufficientBalance,
    ));
    assert(batch_loop_spec(l, tx0, reqs, 0) is Err);
}

/// Applying an action type that increments the available balance succeeds
/// whatever the starting balance, negative included, provided the action
/// decrements no other guarded balance and every resulting balance still
/// fits the store's numeric range.  The available balance grows by exactly
/// the amount, and exactly one audit entry is appended.
pub proof fn lemma_increment_succeeds(l: LedgerV, req: AccountRequest)
    requires
        req.wf(),
        validate_shape_spec(req) is Ok,
        validate_spec(req, l) is Ok,
        account_active_spec(l.accounts, req.user_id, req.asset_type_id.unwrap()),
        fetch_one_spec(
            l.action_types,
            req.action_type_id.unwrap(),
        ).unwrap().available_balance_change == Change::INC,
        fetch_one_spec(
            l.action_types,
            req.action_type_id.unwrap(),
        ).unwrap().frozen_balance_change != Change::DEC,
        ({
            let acc = l.accounts[acct_lookup(
                l.accounts,
                req.user_id,
                req.asset_type_id.unwrap(),
            ).unwrap()];
            let at = fetch_one_spec(l.action_types, req.action_type_id.unwrap()).unwrap();
            let m: int = req.amount.unwrap().magnitude_micro();
            balance_ok(acc.available_balance + m)
            && balance_ok(acc.frozen_balance + signed_delta(at.frozen_balance_change, m))
            && balance_ok(acc.total_income + signed_delta(at.total_income_change, m))
            && balance_ok(acc.total_expense + signed_delta(at.total_expense_change, m))
        }),
    ensures
        action_spec(l, seq![req]) is Ok,
        ({
            let l2 = action_spec(l, seq![req]).unwrap();
            let j = acct_lookup(l.accounts, req.user_id, req.asset_type_id.unwrap()).unwrap();
            l2.accounts[j].available_balance == l.accounts[j].available_balance
                + req.amount.unwrap().magnitude_micro()
            && l2.logs.len() == l.logs.len() + 1
        }),
{
    let reqs = seq![req];
    assert(shape_check_from(reqs, 1) is Ok);
    assert(shape_check_from(reqs, 0) is Ok);
    let tx0 = TxV { accounts: l.accounts, new_logs: Seq::<crate::account::AccountLog>::empty() };
    let j = acct_lookup(l.accounts, req.user_id, req.asset_type_id.unwrap()).unwrap();
    lemma_acct_lookup_some(l.accounts, req.user_id, req.asset_type_id.unwrap(), 0);
    let at = fetch_one_spec(l.action_types, req.action_type_id.unwrap()).unwrap();
    assert(update_balance_spec(l, tx0, req) == apply_spec(tx0, req, at, j));
    assert(apply_spec(tx0, req, at, j) is Ok);
    let t1 = apply_spec(tx0, req, at, j).unwrap();
    assert(batch_loop_spec(l, t1, reqs, 1) == Ok::<TxV, AccountError>(t1));
    assert(batch_loop_spec(l, tx0, reqs, 0) == Ok::<TxV, AccountError>(t1));
}

proof fn lemma_batch_loop_err(l: LedgerV, tx: TxV, reqs: Seq<AccountRequest>, i: int, k: int)
    requires
        0 <= i <= k < reqs.len(),
        validate_spec(reqs[k], l) is Err,
    ensures
        batch_loop_spec(l, tx, reqs, i) is Err,
    decreases k - i,
{
    if i == k {
    } else {
        match update_balance_spec(l, tx, reqs[i]) {
            Err(_) => {},
            Ok(t2) => {
                lemma_batch_loop_err(l, t2, reqs, i + 1, k);
            },
        }
    }
}

/// If any request of a batch fails validation — its shape, or its catalog
/// checks against the durable store — the whole batch is rejected; by the
/// contract of the batch entry point, no balance moves and no audit entry is
/// written for any request of the batch.
pub proof fn lemma_batch_validation_failure(l: LedgerV, reqs: Seq<AccountRequest>, k: int)
    requires
        0 <= k < reqs.len(),
        validate_shape_spec(reqs[k]) is Err || validate_spec(reqs[k], l) is Err,
    ensures
        action_spec(l, reqs) is Err,
{
    if shape_check_from(reqs, 0) is Err {
    } else {
        lemma_shape_check_ok(reqs, 0, k);
        let tx0 = TxV {
            accounts: l.accounts,
            new_logs: Seq::<crate::account::AccountLog>::empty(),
        };
        lemma_batch_loop_err(l, tx0, reqs, 0, k);
    }
}

proof fn lemma_shape_check_ok(reqs: Seq<AccountRequest>, i: int, k: int)
    requires
        0 <= i <= k < reqs.len(),
        shape_check_from(reqs, i) is Ok,
    ensures
        validate_shape_spec(reqs[k]) is Ok,
    decreases k - i,
{
    if i < k {
        lemma_shape_check_ok(reqs, i + 1, k);
    }
}

/// Deactivating an action type takes effect on the very next mutation
/// attempt, whatever the catalog cache holds: the mutation path validates
/// against the durable store alone, so the outcome below holds for every
/// cache state, expired or fresh.
#[allow(unused_variables)]
pub proof fn lemma_cache_bypass(l: LedgerV, cache: CatalogCache, tx: TxV, req: AccountRequest)
    requires
        req.action_type_id is Some,
        !action_active(l.action_types, req.action_type_id.unwrap()),
        validate_asset_type_id_spec(req, l) is Ok,
    ensures
        update_balance_spec(l, tx, req) == Err::<TxV, AccountError>(
            AccountError::InvalidActionTypeId,
        ),
{
}

} // verus!
