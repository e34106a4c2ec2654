//! The durable store, modelled in memory.
//!
//! One `Ledger` value stands for the relational store: the two reference
//! catalogs, the account rows and the append-only audit log.  A `Tx` is one
//! atomic unit of work: a working copy of the account rows plus the audit
//! entries written so far; committing installs both at once, dropping it
//! discards every effect.

use vstd::prelude::*;
use crate::account::{account_in_range, Account, AccountLog};
use crate::action_type::ActionType;
use crate::asset_type::AssetType;

verus! {

/// The durable store: catalogs, accounts, audit log, and the id the next
/// account row will receive.
pub struct Ledger {
    pub asset_types: Vec<AssetType>,
    pub action_types: Vec<ActionType>,
    pub accounts: Vec<Account>,
    pub logs: Vec<AccountLog>,
    pub next_account_id: i32,
}

/// The mathematical value of a [`Ledger`].
pub ghost struct LedgerV {
    pub asset_types: Seq<AssetType>,
    pub action_types: Seq<ActionType>,
    pub accounts: Seq<Account>,
    pub logs: Seq<AccountLog>,
    pub next_account_id: i32,
}

impl View for Ledger {
    type V = LedgerV;

    open spec fn view(&self) -> LedgerV {
        LedgerV {
            asset_types: self.asset_types@,
            action_types: self.action_types@,
            accounts: self.accounts@,
            logs: self.logs@,
            next_account_id: self.next_account_id,
        }
    }
}

impl LedgerV {
    /// Catalog ids are unique, as the store's primary keys enforce.
    pub open spec fn catalog_ids_unique(self) -> bool {
        &&& forall|i: int, j: int|
            0 <= i < j < self.asset_types.len() ==> self.asset_types[i].id != self.asset_types[j].id
        &&& forall|i: int, j: int|
            0 <= i < j < self.action_types.len() ==> self.action_types[i].id
                != self.action_types[j].id
    }

    /// (user_id, asset_type_id) identifies at most one account, and account
    /// ids are unique: the store's unique constraints.
    pub open spec fn accounts_unique(self) -> bool {
        &&& forall|i: int, j: int|
            0 <= i < j < self.accounts.len() ==> !(self.accounts[i].user_id
                == self.accounts[j].user_id && self.accounts[i].asset_type_id
                == self.accounts[j].asset_type_id)
        &&& forall|i: int, j: int|
            0 <= i < j < self.accounts.len() ==> self.accounts[i].id != self.accounts[j].id
    }

    /// Every stored balance fits the store's numeric range, and every account
    /// id lies below the id the next row will receive.
    pub open spec fn accounts_bounded(self) -> bool {
        &&& forall|i: int|
            0 <= i < self.accounts.len() ==> account_in_range(#[trigger] self.accounts[i])
        &&& forall|i: int|
            0 <= i < self.accounts.len() ==> (#[trigger] self.accounts[i]).id
                < self.next_account_id
    }

    /// The store's integrity invariant.
    pub open spec fn wf(self) -> bool {
        &&& self.catalog_ids_unique()
        &&& self.accounts_unique()
        &&& self.accounts_bounded()
        &&& 1 <= self.next_account_id
    }
}

/// A unit of work in flight: the working copy of the account rows and the
/// audit entries this batch has produced so far.
pub struct Tx {
    pub accounts: Vec<Account>,
    pub new_logs: Vec<AccountLog>,
}

/// The mathematical value of a [`Tx`].
pub ghost struct TxV {
    pub accounts: Seq<Account>,
    pub new_logs: Seq<AccountLog>,
}

impl View for Tx {
    type V = TxV;

    open spec fn view(&self) -> TxV {
        TxV { accounts: self.accounts@, new_logs: self.new_logs@ }
    }
}

/// The store after a unit of work commits: the working rows replace the
/// account rows, the new audit entries are appended, nothing else moves.
pub open spec fn commit_spec(l: LedgerV, t: TxV) -> LedgerV {
    LedgerV { accounts: t.accounts, logs: l.logs + t.new_logs, ..l }
}

impl Ledger {
    /// An empty store.
    pub fn new() -> (r: Self)
        ensures
            r@.asset_types == Seq::<AssetType>::empty(),
            r@.action_types == Seq::<ActionType>::empty(),
            r@.accounts == Seq::<Account>::empty(),
            r@.logs == Seq::<AccountLog>::empty(),
            r@.next_account_id == 1,
            r@.wf(),
    {
        Ledger {
            asset_types: Vec::new(),
            action_types: Vec::new(),
            accounts: Vec::new(),
            logs: Vec::new(),
            next_account_id: 1,
        }
    }

    /// Administrative: append a catalog row for a new asset type.  The id
    /// must be fresh, as the store's primary key enforces.
    pub fn add_asset_type(&mut self, row: AssetType)
        requires
            old(self)@.wf(),
            crate::asset_type::asset_id_lookup(old(self)@.asset_types, row.id) is None,
        ensures
            final(self)@ == (LedgerV { asset_types: old(self)@.asset_types.push(row), ..old(self)@ }),
            final(self)@.wf(),
    {
        proof {
            crate::asset_type::lemma_asset_id_lookup_none(self@.asset_types, row.id, 0);
        }
        self.asset_types.push(row);
    }

    /// Administrative: append a catalog row for a new action type.  The id
    /// must be fresh, as the store's primary key enforces.
    pub fn add_action_type(&mut self, row: ActionType)
        requires
            old(self)@.wf(),
            crate::action_type::action_id_lookup(old(self)@.action_types, row.id) is None,
        ensures
            final(self)@ == (LedgerV {
                action_types: old(self)@.action_types.push(row),
                ..old(self)@
            }),
            final(self)@.wf(),
    {
        proof {
            crate::action_type::lemma_action_id_lookup_none(self@.action_types, row.id, 0);
        }
        self.action_types.push(row);
    }

    /// Administrative: toggle activation of the asset type with this id.
    pub fn set_asset_type_active(&mut self, id: i32, active: bool)
        requires
            old(self)@.wf(),
        ensures
            final(self)@.asset_types.len() == old(self)@.asset_types.len(),
            forall|j: int|
                0 <= j < old(self)@.asset_types.len() ==> final(self)@.asset_types[j] == (
                if old(self)@.asset_types[j].id == id {
                    AssetType { is_active: active, ..old(self)@.asset_types[j] }
                } else {
                    old(self)@.asset_types[j]
                }),
            final(self)@ == (LedgerV { asset_types: final(self)@.asset_types, ..old(self)@ }),
            final(self)@.wf(),
    {
        let n = self.asset_types.len();
        let mut j: usize = 0;
        while j < n
            invariant
                n == self.asset_types.len(),
                j <= n,
                self@ == (LedgerV { asset_types: self@.asset_types, ..old(self)@ }),
                forall|k: int|
                    0 <= k < j ==> self@.asset_types[k] == (if old(self)@.asset_types[k].id == id {
                        AssetType { is_active: active, ..old(self)@.asset_types[k] }
                    } else {
                        old(self)@.asset_types[k]
                    }),
                forall|k: int|
                    j <= k < n ==> self@.asset_types[k] == old(self)@.asset_types[k],
            decreases n - j,
        {
            if self.asset_types[j].id == id {
                let name = self.asset_types[j].name.clone();
                let description = self.asset_types[j].description.clone();
                let row_id = self.asset_types[j].id;
                self.asset_types[j] = AssetType { id: row_id, name, description, is_active: active };
            }
            j = j + 1;
        }
    }

    /// Administrative: toggle activation of the action type with this id.
    pub fn set_action_type_active(&mut self, id: i32, active: bool)
        requires
            old(self)@.wf(),
        ensures
            final(self)@.action_types.len() == old(self)@.action_types.len(),
            forall|j: int|
                0 <= j < old(self)@.action_types.len() ==> final(self)@.action_types[j] == (
                if old(self)@.action_types[j].id == id {
                    ActionType { is_active: active, ..old(self)@.action_types[j] }
                } else {
                    old(self)@.action_types[j]
                }),
            final(self)@ == (LedgerV { action_types: final(self)@.action_types, ..old(self)@ }),
            final(self)@.wf(),
    {
        let n = self.action_types.len();
        let mut j: usize = 0;
        while j < n
            invariant
                n == self.action_types.len(),
                j <= n,
                self@ == (LedgerV { action_types: self@.action_types, ..old(self)@ }),
                forall|k: int|
                    0 <= k < j ==> self@.action_types[k] == (if old(self)@.action_types[k].id == id {
                        ActionType { is_active: active, ..old(self)@.action_types[k] }
                    } else {
                        old(self)@.action_types[k]
                    }),
                forall|k: int|
                    j <= k < n ==> self@.action_types[k] == old(self)@.action_types[k],
            decreases n - j,
        {
            if self.action_types[j].id == id {
                let name = self.action_types[j].name.clone();
                let description = self.action_types[j].description.clone();
                let row = &self.action_types[j];
                let new_row = ActionType {
                    id: row.id,
                    name,
                    description,
                    available_balance_change: row.available_balance_change,
                    frozen_balance_change: row.frozen_balance_change,
                    total_income_change: row.total_income_change,
                    total_expense_change: row.total_expense_change,
                    is_active: active,
                };
                self.action_types[j] = new_row;
            }
            j = j + 1;
        }
    }

    /// Administrative: overwrite the four balances of the account with this
    /// pair by direct store access, bypassing the mutation engine and its
    /// guard.  Supports out-of-band corrections.
    pub fn admin_set_balances(
        &mut self,
        user_id: i32,
        asset_type_id: i32,
        available_balance: i64,
        frozen_balance: i64,
        total_income: i64,
        total_expense: i64,
    )
        requires
            old(self)@.wf(),
            balance_ok_exec_args(available_balance, frozen_balance, total_income, total_expense),
        ensures
            final(self)@.accounts.len() == old(self)@.accounts.len(),
            forall|j: int|
                0 <= j < old(self)@.accounts.len() ==> final(self)@.accounts[j] == (if old(
                    self,
                )@.accounts[j].user_id == user_id && old(self)@.accounts[j].asset_type_id
                    == asset_type_id {
                    Account {
                        available_balance,
                        frozen_balance,
                        total_income,
                        total_expense,
                        ..old(self)@.accounts[j]
                    }
                } else {
                    old(self)@.accounts[j]
                }),
            final(self)@ == (LedgerV { accounts: final(self)@.accounts, ..old(self)@ }),
            final(self)@.wf(),
    {
        let n = self.accounts.len();
        let mut j: usize = 0;
        while j < n
            invariant
                n == self.accounts.len(),
                j <= n,
                self@ == (LedgerV { accounts: self@.accounts, ..old(self)@ }),
                forall|k: int|
                    0 <= k < j ==> self@.accounts[k] == (if old(self)@.accounts[k].user_id
                        == user_id && old(self)@.accounts[k].asset_type_id == asset_type_id {
                        Account {
                            available_balance,
                            frozen_balance,
                            total_income,
                            total_expense,
                            ..old(self)@.accounts[k]
                        }
                    } else {
                        old(self)@.accounts[k]
                    }),
                forall|k: int| j <= k < n ==> self@.accounts[k] == old(self)@.accounts[k],
                balance_ok_exec_args(available_balance, frozen_balance, total_income, total_expense),
            decreases n - j,
        {
            if self.accounts[j].user_id == user_id && self.accounts[j].asset_type_id
                == asset_type_id {
                let row = self.accounts[j];
                self.accounts[j] = Account {
                    available_balance,
                    frozen_balance,
                    total_income,
                    total_expense,
                    ..row
                };
            }
            j = j + 1;
        }
    }

    /// Administrative: toggle activation of the account with this pair by
    /// direct store access.  Accounts are never deleted, only deactivated.
    pub fn set_account_active(&mut self, user_id: i32, asset_type_id: i32, active: bool)
        requires
            old(self)@.wf(),
        ensures
            final(self)@.accounts.len() == old(self)@.accounts.len(),
            forall|j: int|
                0 <= j < old(self)@.accounts.len() ==> final(self)@.accounts[j] == (if old(
                    self,
                )@.accounts[j].user_id == user_id && old(self)@.accounts[j].asset_type_id
                    == asset_type_id {
                    Account { is_active: active, ..old(self)@.accounts[j] }
                } else {
                    old(self)@.accounts[j]
                }),
            final(self)@ == (LedgerV { accounts: final(self)@.accounts, ..old(self)@ }),
            final(self)@.wf(),
    {
        let n = self.accounts.len();
        let mut j: usize = 0;
        while j < n
            invariant
                n == self.accounts.len(),
                j <= n,
                self@ == (LedgerV { accounts: self@.accounts, ..old(self)@ }),
                forall|k: int|
                    0 <= k < j ==> self@.accounts[k] == (if old(self)@.accounts[k].user_id
                        == user_id && old(self)@.accounts[k].asset_type_id == asset_type_id {
                        Account { is_active: active, ..old(self)@.accounts[k] }
                    } else {
                        old(self)@.accounts[k]
                    }),
                forall|k: int| j <= k < n ==> self@.accounts[k] == old(self)@.accounts[k],
            decreases n - j,
        {
            if self.accounts[j].user_id == user_id && self.accounts[j].asset_type_id
                == asset_type_id {
                let row = self.accounts[j];
                self.accounts[j] = Account { is_active: active, ..row };
            }
            j = j + 1;
        }
    }

    /// Open a unit of work: a working copy of the account rows with no audit
    /// entries yet.
    pub fn begin(&self) -> (tx: Tx)
        ensures
            tx@.accounts == self@.accounts,
            tx@.new_logs == Seq::<AccountLog>::empty(),
    {
        let n = self.accounts.len();
        let mut accounts: Vec<Account> = Vec::new();
        let mut i: usize = 0;
        while i < n
            invariant
                n == self.accounts.len(),
                i <= n,
                accounts@ == self@.accounts.take(i as int),
            decreases n - i,
        {
            accounts.push(self.accounts[i]);
            proof {
                assert(self@.accounts.take(i as int + 1) =~= self@.accounts.take(i as int).push(
                    self@.accounts[i as int],
                ));
            }
            i = i + 1;
        }
        proof {
            assert(self@.accounts.take(n as int) =~= self@.accounts);
        }
        Tx { accounts, new_logs: Vec::new() }
    }

    /// Commit a unit of work: install the working rows and append the audit
    /// entries, all at once.
    pub fn commit(&mut self, tx: Tx)
        ensures
            final(self)@ == commit_spec(old(self)@, tx@),
    {
        let Tx { accounts, mut new_logs } = tx;
        self.accounts = accounts;
        self.logs.append(&mut new_logs);
    }

    /// Number of audit entries in the store.
    pub fn log_count(&self) -> (n: usize)
        ensures
            n == self@.logs.len(),
    {
        self.logs.len()
    }

    /// The audit entry at a position, oldest first.
    pub fn log_at(&self, i: usize) -> (r: &AccountLog)
        requires
            i < self@.logs.len(),
        ensures
            *r == self@.logs[i as int],
    {
        &self.logs[i]
    }
}

/// Whether four balance values all fit the store's numeric range.
pub open spec fn balance_ok_exec_args(a: i64, f: i64, i: i64, e: i64) -> bool {
    &&& crate::account::balance_ok(a as int)
    &&& crate::account::balance_ok(f as int)
    &&& crate::account::balance_ok(i as int)
    &&& crate::account::balance_ok(e as int)
}

} // verus!
