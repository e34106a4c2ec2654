use asset_ledger::account::{Account, AccountRequest, BALANCE_LIMIT};
use asset_ledger::action_type::{ActionType, Change};
use asset_ledger::amount::RawAmount;
use asset_ledger::asset_type::AssetType;
use asset_ledger::error::AccountError;
use asset_ledger::ledger::Ledger;

fn engine_asset(id: i32, name: &str, active: bool) -> AssetType {
    AssetType {
        id,
        name: name.to_string(),
        description: format!("{} asset", name),
        is_active: active,
    }
}

fn engine_action(
    id: i32,
    name: &str,
    available: Change,
    frozen: Change,
    income: Change,
    expense: Change,
    active: bool,
) -> ActionType {
    ActionType {
        id,
        name: name.to_string(),
        description: format!("{} action", name),
        available_balance_change: available,
        frozen_balance_change: frozen,
        total_income_change: income,
        total_expense_change: expense,
        is_active: active,
    }
}

fn engine_store() -> Ledger {
    let mut store = Ledger::new();
    store.add_asset_type(engine_asset(1, "cash", true));
    store.add_asset_type(engine_asset(2, "points", true));
    store.add_asset_type(engine_asset(3, "legacy", false));
    store.add_action_type(engine_action(
        1,
        "deposit",
        Change::INC,
        Change::NONE,
        Change::INC,
        Change::NONE,
        true,
    ));
    store.add_action_type(engine_action(
        2,
        "withdraw",
        Change::DEC,
        Change::NONE,
        Change::NONE,
        Change::INC,
        true,
    ));
    store.add_action_type(engine_action(
        3,
        "freeze",
        Change::DEC,
        Change::INC,
        Change::NONE,
        Change::NONE,
        true,
    ));
    store
}

fn engine_open(store: &mut Ledger, user_id: i32, asset_type_id: i32) {
    let req = AccountRequest {
        user_id,
        asset_type_id: Some(asset_type_id),
        action_type_id: None,
        amount: None,
        order_number: None,
        description: None,
    };
    Account::create(store, &req).unwrap();
}

fn engine_mutation(
    user_id: i32,
    asset_type_id: i32,
    action_type_id: i32,
    mantissa: i64,
    scale: u32,
) -> AccountRequest {
    AccountRequest {
        user_id,
        asset_type_id: Some(asset_type_id),
        action_type_id: Some(action_type_id),
        amount: Some(RawAmount { mantissa, scale }),
        order_number: None,
        description: None,
    }
}

fn engine_account(store: &Ledger, user_id: i32, asset_type_id: i32) -> Account {
    let req = AccountRequest {
        user_id,
        asset_type_id: Some(asset_type_id),
        action_type_id: None,
        amount: None,
        order_number: None,
        description: None,
    };
    Account::info(store, &req).unwrap()[0]
}

#[test]
fn create_then_info_returns_single_zero_account() {
    let mut store = engine_store();
    engine_open(&mut store, 1, 1);
    let req = AccountRequest {
        user_id: 1,
        asset_type_id: Some(1),
        action_type_id: None,
        amount: None,
        order_number: None,
        description: None,
    };
    let rows = Account::info(&store, &req).unwrap();
    assert_eq!(rows.len(), 1);
    assert_eq!(rows[0].user_id, 1);
    assert_eq!(rows[0].asset_type_id, 1);
    assert_eq!(rows[0].available_balance, 0);
    assert_eq!(rows[0].frozen_balance, 0);
    assert_eq!(rows[0].total_income, 0);
    assert_eq!(rows[0].total_expense, 0);
    assert!(rows[0].is_active);
}

#[test]
fn create_duplicate_is_conflict() {
    let mut store = engine_store();
    engine_open(&mut store, 1, 1);
    let req = AccountRequest {
        user_id: 1,
        asset_type_id: Some(1),
        action_type_id: None,
        amount: None,
        order_number: None,
        description: None,
    };
    assert_eq!(Account::create(&mut store, &req), Err(AccountError::Conflict));
}

#[test]
fn create_unknown_or_inactive_asset_rejected() {
    let mut store = engine_store();
    let unknown = AccountRequest {
        user_id: 1,
        asset_type_id: Some(99),
        action_type_id: None,
        amount: None,
        order_number: None,
        description: None,
    };
    assert_eq!(
        Account::create(&mut store, &unknown),
        Err(AccountError::InvalidAssetTypeId)
    );
    let inactive = AccountRequest {
        user_id: 1,
        asset_type_id: Some(3),
        action_type_id: None,
        amount: None,
        order_number: None,
        description: None,
    };
    assert_eq!(
        Account::create(&mut store, &inactive),
        Err(AccountError::InvalidAssetTypeId)
    );
}

#[test]
fn info_unknown_user_is_not_found() {
    let store = engine_store();
    let req = AccountRequest {
        user_id: 7,
        asset_type_id: None,
        action_type_id: None,
        amount: None,
        order_number: None,
        description: None,
    };
    assert_eq!(Account::info(&store, &req), Err(AccountError::NotFound));
}

#[test]
fn info_without_asset_type_lists_all_accounts_of_user() {
    let mut store = engine_store();
    engine_open(&mut store, 1, 1);
    engine_open(&mut store, 1, 2);
    engine_open(&mut store, 2, 1);
    let req = AccountRequest {
        user_id: 1,
        asset_type_id: None,
        action_type_id: None,
        amount: None,
        order_number: None,
        description: None,
    };
    let rows = Account::info(&store, &req).unwrap();
    assert_eq!(rows.len(), 2);
    assert!(rows.iter().all(|r| r.user_id == 1));
}

#[test]
fn withdraw_scenario_guards_available_balance() {
    let mut store = engine_store();
    engine_open(&mut store, 1, 1);
    Account::action(&mut store, &vec![engine_mutation(1, 1, 1, 10, 0)]).unwrap();
    assert_eq!(engine_account(&store, 1, 1).available_balance, 10_000_000);

    let res = Account::action(&mut store, &vec![engine_mutation(1, 1, 2, 15, 0)]);
    assert_eq!(res, Err(AccountError::InsufficientBalance));
    assert_eq!(engine_account(&store, 1, 1).available_balance, 10_000_000);
    assert_eq!(store.log_count(), 1);

    Account::action(&mut store, &vec![engine_mutation(1, 1, 2, 5, 0)]).unwrap();
    assert_eq!(engine_account(&store, 1, 1).available_balance, 5_000_000);
    assert_eq!(store.log_count(), 2);
    let entry = store.log_at(1);
    assert_eq!(entry.action_type_id, 2);
    assert_eq!(entry.amount_available_balance, -5_000_000);
    assert_eq!(entry.available_balance_after, 5_000_000);
    assert_eq!(entry.amount_total_expense, 5_000_000);
    assert_eq!(entry.total_expense_after, 5_000_000);
}

#[test]
fn amount_precision_round_trip() {
    let mut store = engine_store();
    engine_open(&mut store, 1, 1);
    Account::action(&mut store, &vec![engine_mutation(1, 1, 1, 1_123_456, 6)]).unwrap();
    assert_eq!(engine_account(&store, 1, 1).available_balance, 1_123_456);

    let res = Account::action(&mut store, &vec![engine_mutation(1, 1, 1, 11_234_567, 7)]);
    assert_eq!(res, Err(AccountError::InvalidAmount));
    assert_eq!(engine_account(&store, 1, 1).available_balance, 1_123_456);
    assert_eq!(store.log_count(), 1);
}

#[test]
fn batch_is_all_or_nothing() {
    let mut store = engine_store();
    engine_open(&mut store, 1, 1);
    engine_open(&mut store, 2, 1);
    let batch = vec![
        engine_mutation(1, 1, 1, 5, 0),
        engine_mutation(2, 1, 2, 1, 0),
    ];
    assert_eq!(
        Account::action(&mut store, &batch),
        Err(AccountError::InsufficientBalance)
    );
    assert_eq!(engine_account(&store, 1, 1).available_balance, 0);
    assert_eq!(engine_account(&store, 2, 1).available_balance, 0);
    assert_eq!(store.log_count(), 0);
}

#[test]
fn batch_validation_failure_rolls_back_everything() {
    let mut store = engine_store();
    engine_open(&mut store, 1, 1);
    let batch = vec![
        engine_mutation(1, 1, 1, 5, 0),
        engine_mutation(1, 1, 99, 5, 0),
    ];
    assert_eq!(
        Account::action(&mut store, &batch),
        Err(AccountError::InvalidActionTypeId)
    );
    assert_eq!(engine_account(&store, 1, 1).available_balance, 0);
    assert_eq!(store.log_count(), 0);
}

#[test]
fn increment_succeeds_from_negative_balance() {
    let mut store = engine_store();
    engine_open(&mut store, 1, 1);
    store.admin_set_balances(1, 1, -5_000_000, 0, 0, 0);
    Account::action(&mut store, &vec![engine_mutation(1, 1, 1, 1_000_000, 0)]).unwrap();
    assert_eq!(
        engine_account(&store, 1, 1).available_balance,
        1_000_000_000_000 - 5_000_000
    );
}

#[test]
fn decrement_to_exact_zero_is_allowed() {
    let mut store = engine_store();
    engine_open(&mut store, 1, 1);
    Account::action(&mut store, &vec![engine_mutation(1, 1, 1, 10, 0)]).unwrap();
    Account::action(&mut store, &vec![engine_mutation(1, 1, 2, 10, 0)]).unwrap();
    assert_eq!(engine_account(&store, 1, 1).available_balance, 0);
    let res = Account::action(&mut store, &vec![engine_mutation(1, 1, 2, 1, 6)]);
    assert_eq!(res, Err(AccountError::InsufficientBalance));
}

#[test]
fn freeze_moves_value_between_fields() {
    let mut store = engine_store();
    engine_open(&mut store, 1, 1);
    Account::action(&mut store, &vec![engine_mutation(1, 1, 1, 10, 0)]).unwrap();
    Account::action(&mut store, &vec![engine_mutation(1, 1, 3, 4, 0)]).unwrap();
    let acc = engine_account(&store, 1, 1);
    assert_eq!(acc.available_balance, 6_000_000);
    assert_eq!(acc.frozen_balance, 4_000_000);
    assert_eq!(acc.total_income, 10_000_000);
    assert_eq!(acc.total_expense, 0);
}

#[test]
fn inactive_account_is_forbidden() {
    let mut store = engine_store();
    engine_open(&mut store, 1, 1);
    store.set_account_active(1, 1, false);
    let res = Account::action(&mut store, &vec![engine_mutation(1, 1, 1, 1, 0)]);
    assert_eq!(res, Err(AccountError::Forbidden));
}

#[test]
fn balance_outside_numeric_range_is_internal() {
    let mut store = engine_store();
    engine_open(&mut store, 1, 1);
    store.admin_set_balances(1, 1, BALANCE_LIMIT, 0, 0, 0);
    let res = Account::action(&mut store, &vec![engine_mutation(1, 1, 1, 1, 6)]);
    assert_eq!(res, Err(AccountError::Internal));
    assert_eq!(engine_account(&store, 1, 1).available_balance, BALANCE_LIMIT);
}

#[test]
fn dropped_unit_of_work_discards_effects() {
    let mut store = engine_store();
    engine_open(&mut store, 1, 1);
    {
        let mut tx = store.begin();
        Account::update_balance(&store, &mut tx, &engine_mutation(1, 1, 1, 7, 0)).unwrap();
        // tx dropped here without commit
    }
    assert_eq!(engine_account(&store, 1, 1).available_balance, 0);
    assert_eq!(store.log_count(), 0);

    let mut tx = store.begin();
    Account::update_balance(&store, &mut tx, &engine_mutation(1, 1, 1, 7, 0)).unwrap();
    store.commit(tx);
    assert_eq!(engine_account(&store, 1, 1).available_balance, 7_000_000);
    assert_eq!(store.log_count(), 1);
}

#[test]
fn existence_and_activity_checks_read_the_store() {
    let mut store = engine_store();
    assert!(!Account::is_exists(&store, 1, 1));
    assert!(!Account::is_active(&store, 1, 1));
    engine_open(&mut store, 1, 1);
    assert!(Account::is_exists(&store, 1, 1));
    assert!(Account::is_active(&store, 1, 1));
    store.set_account_active(1, 1, false);
    assert!(Account::is_exists(&store, 1, 1));
    assert!(!Account::is_active(&store, 1, 1));
}

#[test]
fn mutation_validation_reports_first_failing_rule() {
    let store = engine_store();
    let bad_asset = engine_mutation(1, 99, 99, 1, 0);
    assert_eq!(
        bad_asset.validate(&store),
        Err(AccountError::InvalidAssetTypeId)
    );
    let bad_action = engine_mutation(1, 1, 99, 1, 0);
    assert_eq!(
        bad_action.validate(&store),
        Err(AccountError::InvalidActionTypeId)
    );
    let bad_amount = engine_mutation(1, 1, 1, 11_234_567, 7);
    assert_eq!(bad_amount.validate(&store), Err(AccountError::InvalidAmount));
    assert_eq!(engine_mutation(1, 1, 1, 1, 0).validate(&store), Ok(()));
}

#[test]
fn audit_entry_keeps_order_number_and_description() {
    let mut store = engine_store();
    engine_open(&mut store, 1, 1);
    let order = "abcdefghijklmnopqrstuvwxyz123456".to_string();
    let req = AccountRequest {
        user_id: 1,
        asset_type_id: Some(1),
        action_type_id: Some(1),
        amount: Some(RawAmount { mantissa: 1, scale: 0 }),
        order_number: Some(order.clone()),
        description: Some("top up".to_string()),
    };
    Account::action(&mut store, &vec![req]).unwrap();
    let entry = store.log_at(0);
    assert_eq!(entry.order_number.as_deref(), Some(order.as_str()));
    assert_eq!(entry.description.as_deref(), Some("top up"));
}
