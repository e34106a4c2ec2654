use asset_ledger::account::{Account, AccountRequest};
use asset_ledger::action_type::{ActionType, Change};
use asset_ledger::amount::RawAmount;
use asset_ledger::asset_type::AssetType;
use asset_ledger::cache::CatalogCache;
use asset_ledger::error::AccountError;
use asset_ledger::ledger::Ledger;

fn catalog_asset(id: i32, name: &str, active: bool) -> AssetType {
    AssetType {
        id,
        name: name.to_string(),
        description: format!("{} asset", name),
        is_active: active,
    }
}

fn catalog_action(id: i32, name: &str, available: Change, active: bool) -> ActionType {
    ActionType {
        id,
        name: name.to_string(),
        description: format!("{} action", name),
        available_balance_change: available,
        frozen_balance_change: Change::NONE,
        total_income_change: Change::NONE,
        total_expense_change: Change::NONE,
        is_active: active,
    }
}

fn catalog_store() -> Ledger {
    let mut store = Ledger::new();
    store.add_asset_type(catalog_asset(1, "cash", true));
    store.add_asset_type(catalog_asset(2, "legacy", false));
    store.add_action_type(catalog_action(1, "deposit", Change::INC, true));
    store.add_action_type(catalog_action(2, "retired", Change::DEC, false));
    store
}

#[test]
fn fetch_all_returns_active_subset() {
    let store = catalog_store();
    let mut cache = CatalogCache::new();
    let assets = AssetType::fetch_all(&store, &mut cache, 0);
    assert_eq!(assets.len(), 1);
    assert_eq!(assets[0].id, 1);
    assert_eq!(assets[0].name, "cash");
    let actions = ActionType::fetch_all(&store, &mut cache, 0);
    assert_eq!(actions.len(), 1);
    assert_eq!(actions[0].id, 1);
}

#[test]
fn fetch_all_prefers_fresh_cache_and_refreshes_after_ttl() {
    let mut store = catalog_store();
    let mut cache = CatalogCache::new();
    assert_eq!(AssetType::fetch_all(&store, &mut cache, 0).len(), 1);
    store.add_asset_type(catalog_asset(3, "metal", true));
    // within the TTL the stale snapshot is served
    assert_eq!(AssetType::fetch_all(&store, &mut cache, 9).len(), 1);
    // once expired, the store is read again and the cache refreshed
    assert_eq!(AssetType::fetch_all(&store, &mut cache, 10).len(), 2);
    assert_eq!(AssetType::fetch_all(&store, &mut cache, 11).len(), 2);
}

#[test]
fn get_active_ids_lists_active_assets() {
    let store = catalog_store();
    assert_eq!(AssetType::get_active_ids(&store), vec![1]);
}

#[test]
fn is_active_consults_the_store() {
    let mut store = catalog_store();
    assert!(AssetType::is_active(&store, 1));
    assert!(!AssetType::is_active(&store, 2));
    assert!(!AssetType::is_active(&store, 42));
    assert!(ActionType::is_active(&store, 1));
    assert!(!ActionType::is_active(&store, 2));
    store.set_asset_type_active(1, false);
    assert!(!AssetType::is_active(&store, 1));
}

#[test]
fn deactivation_bypasses_a_fresh_cache() {
    let mut store = catalog_store();
    let mut cache = CatalogCache::new();
    let req = AccountRequest {
        user_id: 1,
        asset_type_id: Some(1),
        action_type_id: None,
        amount: None,
        order_number: None,
        description: None,
    };
    Account::create(&mut store, &req).unwrap();
    // warm the cache, then deactivate the action type in the store
    assert_eq!(ActionType::fetch_all(&store, &mut cache, 0).len(), 1);
    store.set_action_type_active(1, false);
    // the cache still serves the stale snapshot within the TTL ...
    assert_eq!(ActionType::fetch_all(&store, &mut cache, 1).len(), 1);
    // ... but the mutation path reads the store and rejects the action
    let mutation = AccountRequest {
        user_id: 1,
        asset_type_id: Some(1),
        action_type_id: Some(1),
        amount: Some(RawAmount { mantissa: 1, scale: 0 }),
        order_number: None,
        description: None,
    };
    assert_eq!(
        Account::action(&mut store, &vec![mutation]),
        Err(AccountError::InvalidActionTypeId)
    );
}

#[test]
fn shape_validation_reports_first_failing_field() {
    let base = AccountRequest {
        user_id: 1,
        asset_type_id: Some(1),
        action_type_id: Some(1),
        amount: Some(RawAmount { mantissa: 1, scale: 0 }),
        order_number: None,
        description: None,
    };
    let bad_user = AccountRequest { user_id: 0, ..base };
    assert_eq!(bad_user.validate_shape(), Err(AccountError::InvalidUserId));

    let bad_asset = AccountRequest {
        user_id: 1,
        asset_type_id: Some(0),
        action_type_id: Some(1),
        amount: Some(RawAmount { mantissa: 1, scale: 0 }),
        order_number: None,
        description: None,
    };
    assert_eq!(bad_asset.validate_shape(), Err(AccountError::InvalidAssetTypeId));

    let bad_action = AccountRequest {
        user_id: 1,
        asset_type_id: Some(1),
        action_type_id: Some(-2),
        amount: Some(RawAmount { mantissa: 1, scale: 0 }),
        order_number: None,
        description: None,
    };
    assert_eq!(bad_action.validate_shape(), Err(AccountError::InvalidActionTypeId));

    let tiny = AccountRequest {
        user_id: 1,
        asset_type_id: Some(1),
        action_type_id: Some(1),
        amount: Some(RawAmount { mantissa: 1, scale: 7 }),
        order_number: None,
        description: None,
    };
    assert_eq!(tiny.validate_shape(), Err(AccountError::AmountTooSmall));

    let short_order = AccountRequest {
        user_id: 1,
        asset_type_id: Some(1),
        action_type_id: Some(1),
        amount: Some(RawAmount { mantissa: 1, scale: 0 }),
        order_number: Some("short".to_string()),
        description: None,
    };
    assert_eq!(short_order.validate_shape(), Err(AccountError::InvalidOrderNumber));

    let empty_description = AccountRequest {
        user_id: 1,
        asset_type_id: Some(1),
        action_type_id: Some(1),
        amount: Some(RawAmount { mantissa: 1, scale: 0 }),
        order_number: Some("abcdefghijklmnopqrstuvwxyz123456".to_string()),
        description: Some(String::new()),
    };
    assert_eq!(
        empty_description.validate_shape(),
        Err(AccountError::InvalidDescription)
    );

    let ok = AccountRequest {
        user_id: 1,
        asset_type_id: Some(1),
        action_type_id: Some(1),
        amount: Some(RawAmount { mantissa: 1, scale: 0 }),
        order_number: Some("abcdefghijklmnopqrstuvwxyz123456".to_string()),
        description: Some("fine".to_string()),
    };
    assert_eq!(ok.validate_shape(), Ok(()));
}

#[test]
fn amount_validation_rejects_fine_precision() {
    let missing = AccountRequest {
        user_id: 1,
        asset_type_id: Some(1),
        action_type_id: Some(1),
        amount: None,
        order_number: None,
        description: None,
    };
    assert_eq!(missing.validate_amount(), Err(AccountError::InvalidAmount));

    let seven_digits = AccountRequest {
        amount: Some(RawAmount { mantissa: 11_234_567, scale: 7 }),
        ..missing
    };
    assert_eq!(seven_digits.validate_amount(), Err(AccountError::InvalidAmount));

    let six_digits = AccountRequest {
        user_id: 1,
        asset_type_id: Some(1),
        action_type_id: Some(1),
        amount: Some(RawAmount { mantissa: 1_123_456, scale: 6 }),
        order_number: None,
        description: None,
    };
    assert_eq!(six_digits.validate_amount(), Ok(()));
}

#[test]
fn calculate_change_gives_exact_signed_deltas() {
    let one_and_a_half = RawAmount { mantissa: 15, scale: 1 };
    assert_eq!(Change::INC.calculate_change(one_and_a_half), 1_500_000);
    assert_eq!(Change::DEC.calculate_change(one_and_a_half), -1_500_000);
    assert_eq!(Change::NONE.calculate_change(one_and_a_half), 0);
    // magnitude is the absolute value, truncated toward zero past six digits
    let negative = RawAmount { mantissa: -15, scale: 1 };
    assert_eq!(Change::INC.calculate_change(negative), 1_500_000);
    let fine = RawAmount { mantissa: 123_456_789, scale: 8 };
    assert_eq!(Change::INC.calculate_change(fine), 1_234_567);
}

#[test]
fn error_status_codes_match_the_surface() {
    assert_eq!(AccountError::InvalidAmount.status_code(), 422);
    assert_eq!(AccountError::Conflict.status_code(), 409);
    assert_eq!(AccountError::NotFound.status_code(), 404);
    assert_eq!(AccountError::Forbidden.status_code(), 403);
    assert_eq!(AccountError::InsufficientBalance.status_code(), 500);
    assert_eq!(AccountError::Internal.status_code(), 500);
}
