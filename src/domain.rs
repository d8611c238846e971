use vstd::prelude::*;

verus! {

/// The identifier that no generated identifier takes.
pub const NIL_ID: u128 = 0;

/// The most records that one collection of a budget can hold. Every record
/// that a balance reads takes at least 32 bytes, and no allocation exceeds
/// `isize::MAX` bytes, so a collection never grows past this.
pub const MAX_RECORDS: u64 = 0x0400_0000_0000_0000;

/// Relies on uuid::Uuid::new_v4 and Uuid::as_u128: a random version-4 UUID,
/// whose version and variant bits are set, so it is never the nil UUID.
/// (It panics only where the operating system gives no random bytes.)
#[verifier::external_body]
fn fresh_id() -> (r: u128)
    ensures
        r != NIL_ID,
{
    uuid::Uuid::new_v4().as_u128()
}

/// A bank account; `starting_balance` seeds its running total.
pub struct Account {
    pub id: u128,
    pub name: String,
    /// In hundredths of the currency unit.
    pub starting_balance: i64,
}

/// A spending envelope.
pub struct Category {
    pub id: u128,
    pub name: String,
}

/// Money entering (`inflow`) or leaving (`outflow`) one account, optionally
/// assigned to a category; its net effect is `inflow - outflow`.
pub struct Transaction {
    pub id: u128,
    pub date: String,
    pub payee: Option<String>,
    pub memo: Option<String>,
    pub account_id: u128,
    /// `None` means uncategorized.
    pub category_id: Option<u128>,
    /// In hundredths of the currency unit.
    pub inflow: u64,
    /// In hundredths of the currency unit.
    pub outflow: u64,
    pub status: String,
}

/// Budgeted money moved from one category to another.
pub struct CategoryTransfer {
    pub id: u128,
    pub date: String,
    pub from_category_id: u128,
    pub to_category_id: u128,
    /// In hundredths of the currency unit.
    pub amount: i64,
    pub memo: Option<String>,
}

/// Money moved from one account to another.
pub struct AccountTransfer {
    pub id: u128,
    pub date: String,
    pub from_account_id: u128,
    pub to_account_id: u128,
    /// In hundredths of the currency unit.
    pub amount: i64,
    pub memo: Option<String>,
}

impl Clone for Account {
    fn clone(&self) -> (r: Self)
        ensures
            r == *self,
    {
        Account { id: self.id, name: self.name.clone(), starting_balance: self.starting_balance }
    }
}

impl Clone for Category {
    fn clone(&self) -> (r: Self)
        ensures
            r == *self,
    {
        Category { id: self.id, name: self.name.clone() }
    }
}

impl Clone for Transaction {
    fn clone(&self) -> (r: Self)
        ensures
            r == *self,
    {
        Transaction {
            id: self.id,
            date: self.date.clone(),
            payee: self.payee.clone(),
            memo: self.memo.clone(),
            account_id: self.account_id,
            category_id: self.category_id,
            inflow: self.inflow,
            outflow: self.outflow,
            status: self.status.clone(),
        }
    }
}

impl Clone for CategoryTransfer {
    fn clone(&self) -> (r: Self)
        ensures
            r == *self,
    {
        CategoryTransfer {
            id: self.id,
            date: self.date.clone(),
            from_category_id: self.from_category_id,
            to_category_id: self.to_category_id,
            amount: self.amount,
            memo: self.memo.clone(),
        }
    }
}

impl Clone for AccountTransfer {
    fn clone(&self) -> (r: Self)
        ensures
            r == *self,
    {
        AccountTransfer {
            id: self.id,
            date: self.date.clone(),
            from_account_id: self.from_account_id,
            to_account_id: self.to_account_id,
            amount: self.amount,
            memo: self.memo.clone(),
        }
    }
}

/// All the records of one budget, in the order they were added.
pub struct Budget {
    /// Special category holding unallocated funds
    pub system_available_category_id: u128,
    pub accounts: Vec<Account>,
    pub categories: Vec<Category>,
    pub transactions: Vec<Transaction>,
    pub category_transfers: Vec<CategoryTransfer>,
    pub account_transfers: Vec<AccountTransfer>,
}

impl Default for Budget {
    /// A budget under the nil identifier whose only record is its available
    /// category, named "Available".
    fn default() -> (r: Self)
        ensures
            r.system_available_category_id == NIL_ID,
            r.categories@.len() == 1,
            r.categories@[0].id == NIL_ID,
            r.categories@[0].name@ == "Available"@,
            r.accounts@.len() == 0,
            r.transactions@.len() == 0,
            r.category_transfers@.len() == 0,
            r.account_transfers@.len() == 0,
    {
        let mut categories: Vec<Category> = Vec::new();
        categories.push(Category { id: NIL_ID, name: "Available".to_string() });
        Budget {
            system_available_category_id: NIL_ID,
            accounts: Vec::new(),
            categories,
            transactions: Vec::new(),
            category_transfers: Vec::new(),
            account_transfers: Vec::new(),
        }
    }
}

impl Budget {
    /// The collections that balances read are within what memory allows.
    pub open spec fn within_limits(&self) -> bool {
        &&& self.accounts@.len() <= MAX_RECORDS
        &&& self.transactions@.len() <= MAX_RECORDS
        &&& self.category_transfers@.len() <= MAX_RECORDS
    }

    /// A budget whose only record is its available category, named
    /// "Available", under a freshly generated identifier.
    pub fn new() -> (r: Self)
        ensures
            r.system_available_category_id != NIL_ID,
            r.categories@.len() == 1,
            r.categories@[0].id == r.system_available_category_id,
            r.categories@[0].name@ == "Available"@,
            r.accounts@.len() == 0,
            r.transactions@.len() == 0,
            r.category_transfers@.len() == 0,
            r.account_transfers@.len() == 0,
    {
        let id = fresh_id();
        let mut categories: Vec<Category> = Vec::new();
        categories.push(Category { id, name: "Available".to_string() });
        Budget {
            system_available_category_id: id,
            accounts: Vec::new(),
            categories,
            transactions: Vec::new(),
            category_transfers: Vec::new(),
            account_transfers: Vec::new(),
        }
    }

    /// Appends `a` to the accounts; nothing else changes.
    pub fn add_account(&mut self, a: Account)
        ensures
            final(self).accounts@ == old(self).accounts@.push(a),
            final(self).categories == old(self).categories,
            final(self).transactions == old(self).transactions,
            final(self).category_transfers == old(self).category_transfers,
            final(self).account_transfers == old(self).account_transfers,
            final(self).system_available_category_id == old(self).system_available_category_id,
    {
        self.accounts.push(a);
    }

    /// A copy of the accounts, in the order they were added.
    pub fn list_accounts(&self) -> (r: Vec<Account>)
        ensures
            r@ == self.accounts@,
    {
        let r = self.accounts.clone();
        assert(r@ =~= self.accounts@);
        r
    }

    /// Appends `c` to the categories; nothing else changes.
    pub fn add_category(&mut self, c: Category)
        ensures
            final(self).categories@ == old(self).categories@.push(c),
            final(self).accounts == old(self).accounts,
            final(self).transactions == old(self).transactions,
            final(self).category_transfers == old(self).category_transfers,
            final(self).account_transfers == old(self).account_transfers,
            final(self).system_available_category_id == old(self).system_available_category_id,
    {
        self.categories.push(c);
    }

    /// A copy of the categories, in the order they were added.
    pub fn list_categories(&self) -> (r: Vec<Category>)
        ensures
            r@ == self.categories@,
    {
        let r = self.categories.clone();
        assert(r@ =~= self.categories@);
        r
    }

    /// Appends `t` to the transactions; nothing else changes.
    pub fn add_transaction(&mut self, t: Transaction)
        ensures
            final(self).transactions@ == old(self).transactions@.push(t),
            final(self).accounts == old(self).accounts,
            final(self).categories == old(self).categories,
            final(self).category_transfers == old(self).category_transfers,
            final(self).account_transfers == old(self).account_transfers,
            final(self).system_available_category_id == old(self).system_available_category_id,
    {
        self.transactions.push(t);
    }

    /// A copy of the transactions, in the order they were added.
    pub fn list_transactions(&self) -> (r: Vec<Transaction>)
        ensures
            r@ == self.transactions@,
    {
        let r = self.transactions.clone();
        assert(r@ =~= self.transactions@);
        r
    }

    /// Appends `t` to the category transfers; nothing else changes.
    pub fn add_category_transfer(&mut self, t: CategoryTransfer)
        ensures
            final(self).category_transfers@ == old(self).category_transfers@.push(t),
            final(self).accounts == old(self).accounts,
            final(self).categories == old(self).categories,
            final(self).transactions == old(self).transactions,
            final(self).account_transfers == old(self).account_transfers,
            final(self).system_available_category_id == old(self).system_available_category_id,
    {
        self.category_transfers.push(t);
    }

    /// A copy of the category transfers, in the order they were added.
    pub fn list_category_transfers(&self) -> (r: Vec<CategoryTransfer>)
        ensures
            r@ == self.category_transfers@,
    {
        let r = self.category_transfers.clone();
        assert(r@ =~= self.category_transfers@);
        r
    }

    /// Appends `t` to the account transfers; nothing else changes.
    pub fn add_account_transfer(&mut self, t: AccountTransfer)
        ensures
            final(self).account_transfers@ == old(self).account_transfers@.push(t),
            final(self).accounts == old(self).accounts,
            final(self).categories == old(self).categories,
            final(self).transactions == old(self).transactions,
            final(self).category_transfers == old(self).category_transfers,
            final(self).system_available_category_id == old(self).system_available_category_id,
    {
        self.account_transfers.push(t);
    }

    /// A copy of the account transfers, in the order they were added.
    pub fn list_account_transfers(&self) -> (r: Vec<AccountTransfer>)
        ensures
            r@ == self.account_transfers@,
    {
        let r = self.account_transfers.clone();
        assert(r@ =~= self.account_transfers@);
        r
    }
}

} // verus!
