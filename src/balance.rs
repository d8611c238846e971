use vstd::prelude::*;
use crate::domain::{Account, Budget, CategoryTransfer, Transaction, MAX_RECORDS};

verus! {

/// What a transaction adds to its account, and to its category if it has one.
pub open spec fn net(t: Transaction) -> int {
    t.inflow as int - t.outflow as int
}

/// The net of the transactions assigned to `cat`.
pub open spec fn category_tx_total(txs: Seq<Transaction>, cat: u128) -> int
    decreases txs.len(),
{
    if txs.len() == 0 {
        0
    } else {
        category_tx_total(txs.drop_last(), cat) + if txs.last().category_id == Some(cat) {
            net(txs.last())
        } else {
            0
        }
    }
}

/// What one category transfer does to the balance of `cat`: it gains the
/// amount as destination and loses it as source.
pub open spec fn transfer_effect(tr: CategoryTransfer, cat: u128) -> int {
    (if tr.to_category_id == cat { tr.amount as int } else { 0 }) - (if tr.from_category_id
        == cat {
        tr.amount as int
    } else {
        0
    })
}

/// The combined effect of the category transfers on `cat`.
pub open spec fn category_transfer_total(trs: Seq<CategoryTransfer>, cat: u128) -> int
    decreases trs.len(),
{
    if trs.len() == 0 {
        0
    } else {
        category_transfer_total(trs.drop_last(), cat) + transfer_effect(trs.last(), cat)
    }
}

/// The net of the transactions against account `acc`.
pub open spec fn account_tx_total(txs: Seq<Transaction>, acc: u128) -> int
    decreases txs.len(),
{
    if txs.len() == 0 {
        0
    } else {
        account_tx_total(txs.drop_last(), acc) + if txs.last().account_id == acc {
            net(txs.last())
        } else {
            0
        }
    }
}

/// The starting balance of the first account with id `acc`, or 0 if none has it.
pub open spec fn starting_balance_of(accounts: Seq<Account>, acc: u128) -> int
    decreases accounts.len(),
{
    if accounts.len() == 0 {
        0
    } else if accounts[0].id == acc {
        accounts[0].starting_balance as int
    } else {
        starting_balance_of(accounts.drop_first(), acc)
    }
}

/// 2^64: every transaction's net lies strictly between its negation and it.
pub open spec fn net_bound() -> int {
    0x1_0000_0000_0000_0000
}

proof fn lemma_category_tx_total_bound(txs: Seq<Transaction>, cat: u128)
    ensures
        -(txs.len() * net_bound()) <= category_tx_total(txs, cat) <= txs.len() * net_bound(),
    decreases txs.len(),
{
    if txs.len() > 0 {
        lemma_category_tx_total_bound(txs.drop_last(), cat);
    }
}

proof fn lemma_account_tx_total_bound(txs: Seq<Transaction>, acc: u128)
    ensures
        -(txs.len() * net_bound()) <= account_tx_total(txs, acc) <= txs.len() * net_bound(),
    decreases txs.len(),
{
    if txs.len() > 0 {
        lemma_account_tx_total_bound(txs.drop_last(), acc);
    }
}

proof fn lemma_category_transfer_total_bound(trs: Seq<CategoryTransfer>, cat: u128)
    ensures
        -(trs.len() * net_bound()) <= category_transfer_total(trs, cat) <= trs.len()
            * net_bound(),
    decreases trs.len(),
{
    if trs.len() > 0 {
        lemma_category_transfer_total_bound(trs.drop_last(), cat);
    }
}

proof fn lemma_scaled_bound(n: nat)
    requires
        n <= MAX_RECORDS,
    ensures
        n * net_bound() <= MAX_RECORDS * net_bound(),
{
    assert(n * net_bound() <= MAX_RECORDS * net_bound()) by (nonlinear_arith)
        requires
            n <= MAX_RECORDS,
            net_bound() > 0,
    ;
}

impl Budget {
    /// The balance of category `cat`: the net of its transactions, plus what
    /// transfers brought in, minus what they took out.
    pub open spec fn category_balance_spec(&self, cat: u128) -> int {
        category_tx_total(self.transactions@, cat) + category_transfer_total(
            self.category_transfers@,
            cat,
        )
    }

    /// The balance of account `acc`: its starting balance plus the net of its
    /// transactions. Account transfers are not counted.
    pub open spec fn account_balance_spec(&self, acc: u128) -> int {
        starting_balance_of(self.accounts@, acc) + account_tx_total(self.transactions@, acc)
    }

    /// The balance of the system available category.
    pub open spec fn available_to_budget_spec(&self) -> int {
        self.category_balance_spec(self.system_available_category_id)
    }

    /// The balance of category `cat`, zero where nothing names it.
    pub fn category_balance(&self, cat: u128) -> (r: i128)
        requires
            self.within_limits(),
        ensures
            r == self.category_balance_spec(cat),
    {
        let txs = &self.transactions;
        let mut balance: i128 = 0;
        let mut i: usize = 0;
        while i < txs.len()
            invariant
                i <= txs@.len() <= MAX_RECORDS,
                balance == category_tx_total(txs@.subrange(0, i as int), cat),
            decreases txs@.len() - i,
        {
            let tx = &txs[i];
            proof {
                lemma_category_tx_total_bound(txs@.subrange(0, i as int), cat);
                assert(txs@.subrange(0, i + 1).drop_last() =~= txs@.subrange(0, i as int));
            }
            let matches = match tx.category_id {
                Some(c) => c == cat,
                None => false,
            };
            if matches {
                balance = balance + (tx.inflow as i128 - tx.outflow as i128);
            }
            i = i + 1;
        }
        assert(txs@.subrange(0, txs@.len() as int) =~= txs@);
        proof {
            lemma_category_tx_total_bound(txs@, cat);
            lemma_scaled_bound(txs@.len());
        }
        let ghost tx_total = balance as int;
        let trs = &self.category_transfers;
        let mut j: usize = 0;
        while j < trs.len()
            invariant
                j <= trs@.len() <= MAX_RECORDS,
                tx_total == category_tx_total(txs@, cat),
                -(MAX_RECORDS * net_bound()) <= tx_total <= MAX_RECORDS * net_bound(),
                balance == tx_total + category_transfer_total(trs@.subrange(0, j as int), cat),
            decreases trs@.len() - j,
        {
            let tr = &trs[j];
            proof {
                lemma_category_transfer_total_bound(trs@.subrange(0, j as int), cat);
                assert(trs@.subrange(0, j + 1).drop_last() =~= trs@.subrange(0, j as int));
            }
            if tr.to_category_id == cat {
                balance = balance + tr.amount as i128;
            }
            if tr.from_category_id == cat {
                balance = balance - tr.amount as i128;
            }
            j = j + 1;
        }
        assert(trs@.subrange(0, trs@.len() as int) =~= trs@);
        balance
    }

    /// Unallocated funds: the balance of the system available category.
    pub fn available_to_budget(&self) -> (r: i128)
        requires
            self.within_limits(),
        ensures
            r == self.available_to_budget_spec(),
    {
        self.category_balance(self.system_available_category_id)
    }

    /// The balance of account `acc`, zero where nothing names it.
    pub fn account_balance(&self, acc: u128) -> (r: i128)
        requires
            self.within_limits(),
        ensures
            r == self.account_balance_spec(acc),
    {
        let accounts = &self.accounts;
        let mut starting: i64 = 0;
        let mut k: usize = 0;
        assert(accounts@.subrange(0, accounts@.len() as int) =~= accounts@);
        while k < accounts.len()
            invariant_except_break
                k <= accounts@.len(),
                starting == 0,
                starting_balance_of(accounts@, acc) == starting_balance_of(
                    accounts@.subrange(k as int, accounts@.len() as int),
                    acc,
                ),
            ensures
                starting == starting_balance_of(accounts@, acc),
            decreases accounts@.len() - k,
        {
            assert(accounts@.subrange(k as int, accounts@.len() as int).drop_first()
                =~= accounts@.subrange(k + 1, accounts@.len() as int));
            if accounts[k].id == acc {
                starting = accounts[k].starting_balance;
                break;
            }
            k = k + 1;
        }
        let txs = &self.transactions;
        let mut balance: i128 = starting as i128;
        let mut i: usize = 0;
        while i < txs.len()
            invariant
                i <= txs@.len() <= MAX_RECORDS,
                i64::MIN <= starting <= i64::MAX,
                balance == starting + account_tx_total(txs@.subrange(0, i as int), acc),
            decreases txs@.len() - i,
        {
            let tx = &txs[i];
            proof {
                lemma_account_tx_total_bound(txs@.subrange(0, i as int), acc);
                lemma_scaled_bound(i as nat);
                assert(txs@.subrange(0, i + 1).drop_last() =~= txs@.subrange(0, i as int));
            }
            if tx.account_id == acc {
                balance = balance + (tx.inflow as i128 - tx.outflow as i128);
            }
            i = i + 1;
        }
        assert(txs@.subrange(0, txs@.len() as int) =~= txs@);
        balance
    }
}

} // verus!
