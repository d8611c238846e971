use vstd::prelude::*;
use crate::domain::{Account, Budget, CategoryTransfer, Transaction};
use crate::balance::{
    account_tx_total, category_transfer_total, category_tx_total, net, starting_balance_of,
    transfer_effect,
};

verus! {

proof fn lemma_starting_balance_of_first(accounts: Seq<Account>, i: int)
    requires
        0 <= i < accounts.len(),
        forall|j: int| 0 <= j < i ==> accounts[j].id != accounts[i].id,
    ensures
        starting_balance_of(accounts, accounts[i].id) == accounts[i].starting_balance,
    decreases i,
{
    if i > 0 {
        let rest = accounts.drop_first();
        assert forall|j: int| 0 <= j < i - 1 implies #[trigger] rest[j].id != rest[i - 1].id by {
            assert(rest[j] == accounts[j + 1]);
        }
        lemma_starting_balance_of_first(rest, i - 1);
    }
}

proof fn lemma_starting_balance_of_absent(accounts: Seq<Account>, acc: u128)
    requires
        forall|j: int| 0 <= j < accounts.len() ==> accounts[j].id != acc,
    ensures
        starting_balance_of(accounts, acc) == 0,
    decreases accounts.len(),
{
    if accounts.len() > 0 {
        let rest = accounts.drop_first();
        assert forall|j: int| 0 <= j < rest.len() implies #[trigger] rest[j].id != acc by {
            assert(rest[j] == accounts[j + 1]);
        }
        lemma_starting_balance_of_absent(rest, acc);
    }
}

proof fn lemma_category_tx_total_unused(txs: Seq<Transaction>, cat: u128)
    requires
        forall|j: int| 0 <= j < txs.len() ==> txs[j].category_id != Some(cat),
    ensures
        category_tx_total(txs, cat) == 0,
    decreases txs.len(),
{
    if txs.len() > 0 {
        lemma_category_tx_total_unused(txs.drop_last(), cat);
    }
}

proof fn lemma_account_tx_total_unused(txs: Seq<Transaction>, acc: u128)
    requires
        forall|j: int| 0 <= j < txs.len() ==> txs[j].account_id != acc,
    ensures
        account_tx_total(txs, acc) == 0,
    decreases txs.len(),
{
    if txs.len() > 0 {
        lemma_account_tx_total_unused(txs.drop_last(), acc);
    }
}

proof fn lemma_category_transfer_total_unused(trs: Seq<CategoryTransfer>, cat: u128)
    requires
        forall|j: int|
            0 <= j < trs.len() ==> trs[j].from_category_id != cat && trs[j].to_category_id
                != cat,
    ensures
        category_transfer_total(trs, cat) == 0,
    decreases trs.len(),
{
    if trs.len() > 0 {
        lemma_category_transfer_total_unused(trs.drop_last(), cat);
    }
}

/// A budget with no transactions and no transfers has nothing available to
/// budget, every category stands at zero, and an account's balance is its
/// starting balance (that of the first account under its id).
pub proof fn lemma_unused_budget_balances(b: Budget, i: int)
    requires
        b.transactions@.len() == 0,
        b.category_transfers@.len() == 0,
        b.account_transfers@.len() == 0,
        0 <= i < b.accounts@.len(),
        forall|j: int| 0 <= j < i ==> b.accounts@[j].id != b.accounts@[i].id,
    ensures
        b.available_to_budget_spec() == 0,
        forall|c: u128| #[trigger] b.category_balance_spec(c) == 0,
        b.account_balance_spec(b.accounts@[i].id) == b.accounts@[i].starting_balance,
{
    lemma_starting_balance_of_first(b.accounts@, i);
}

/// Adding a transaction changes the balance of its category by exactly its
/// inflow minus its outflow, and that of its account likewise; every other
/// category and account keeps its balance.
pub proof fn lemma_transaction_additivity(before: Budget, after: Budget, t: Transaction)
    requires
        after.transactions@ == before.transactions@.push(t),
        after.accounts@ == before.accounts@,
        after.category_transfers@ == before.category_transfers@,
    ensures
        forall|c: u128| #[trigger]
            after.category_balance_spec(c) == before.category_balance_spec(c) + if t.category_id
                == Some(c) {
                t.inflow - t.outflow
            } else {
                0
            },
        forall|a: u128| #[trigger]
            after.account_balance_spec(a) == before.account_balance_spec(a) + if t.account_id
                == a {
                t.inflow - t.outflow
            } else {
                0
            },
{
    assert(after.transactions@.drop_last() =~= before.transactions@);
}

/// A category transfer takes its amount from the source category and gives it
/// to the destination: the two balances together are unchanged, each moves by
/// the amount when they differ, and a transfer from a category to itself
/// changes nothing. Every other category keeps its balance.
pub proof fn lemma_category_transfer_conservation(
    before: Budget,
    after: Budget,
    tr: CategoryTransfer,
)
    requires
        after.category_transfers@ == before.category_transfers@.push(tr),
        after.transactions@ == before.transactions@,
    ensures
        after.category_balance_spec(tr.from_category_id) + after.category_balance_spec(
            tr.to_category_id,
        ) == before.category_balance_spec(tr.from_category_id) + before.category_balance_spec(
            tr.to_category_id,
        ),
        tr.from_category_id != tr.to_category_id ==> after.category_balance_spec(
            tr.from_category_id,
        ) == before.category_balance_spec(tr.from_category_id) - tr.amount,
        tr.from_category_id != tr.to_category_id ==> after.category_balance_spec(
            tr.to_category_id,
        ) == before.category_balance_spec(tr.to_category_id) + tr.amount,
        tr.from_category_id == tr.to_category_id ==> after.category_balance_spec(
            tr.from_category_id,
        ) == before.category_balance_spec(tr.from_category_id),
        forall|c: u128|
            c != tr.from_category_id && c != tr.to_category_id ==> #[trigger]
                after.category_balance_spec(c) == before.category_balance_spec(c),
{
    assert(after.category_transfers@.drop_last() =~= before.category_transfers@);
    assert forall|c: u128| #[trigger]
        after.category_balance_spec(c) == before.category_balance_spec(c) + transfer_effect(
            tr,
            c,
        ) by {}
}

/// Balances depend on nothing but the records they read: two budgets with the
/// same accounts, transactions, category transfers and available category
/// give the same figures, so asking twice with no write between gives the
/// same answer.
pub proof fn lemma_balances_depend_on_records(b1: Budget, b2: Budget)
    requires
        b1.accounts@ == b2.accounts@,
        b1.transactions@ == b2.transactions@,
        b1.category_transfers@ == b2.category_transfers@,
        b1.system_available_category_id == b2.system_available_category_id,
    ensures
        b1.available_to_budget_spec() == b2.available_to_budget_spec(),
        forall|c: u128| #[trigger] b1.category_balance_spec(c) == b2.category_balance_spec(c),
        forall|a: u128| #[trigger] b1.account_balance_spec(a) == b2.account_balance_spec(a),
{
}

/// A category that no transaction and no transfer names has balance zero.
pub proof fn lemma_unused_category_balance(b: Budget, cat: u128)
    requires
        forall|j: int|
            0 <= j < b.transactions@.len() ==> #[trigger] b.transactions@[j].category_id != Some(
                cat,
            ),
        forall|j: int|
            0 <= j < b.category_transfers@.len() ==> #[trigger] b.category_transfers@[j].from_category_id
                != cat && b.category_transfers@[j].to_category_id != cat,
    ensures
        b.category_balance_spec(cat) == 0,
{
    lemma_category_tx_total_unused(b.transactions@, cat);
    lemma_category_transfer_total_unused(b.category_transfers@, cat);
}

/// An account id that no account and no transaction carries has balance zero.
pub proof fn lemma_unused_account_balance(b: Budget, acc: u128)
    requires
        forall|j: int| 0 <= j < b.accounts@.len() ==> #[trigger] b.accounts@[j].id != acc,
        forall|j: int|
            0 <= j < b.transactions@.len() ==> #[trigger] b.transactions@[j].account_id != acc,
    ensures
        b.account_balance_spec(acc) == 0,
{
    lemma_starting_balance_of_absent(b.accounts@, acc);
    lemma_account_tx_total_unused(b.transactions@, acc);
}

/// The collection that `n` appends leave behind, one record at a time.
pub open spec fn appended<T>(start: Seq<T>, items: Seq<T>) -> Seq<T>
    decreases items.len(),
{
    if items.len() == 0 {
        start
    } else {
        appended(start, items.drop_last()).push(items.last())
    }
}

/// Appending records one by one, as each `add_*` of a budget does, and then
/// listing, as each `list_*` does, gives the old records followed by the new
/// ones in the order they were added; from an empty collection, exactly the
/// records added.
pub proof fn lemma_list_after_adds<T>(start: Seq<T>, items: Seq<T>)
    ensures
        appended(start, items) == start + items,
        appended(start, items).len() == start.len() + items.len(),
        start.len() == 0 ==> appended(start, items) == items,
    decreases items.len(),
{
    if items.len() > 0 {
        lemma_list_after_adds(start, items.drop_last());
        assert(start + items =~= (start + items.drop_last()).push(items.last()));
    } else {
        assert(start + items =~= start);
    }
    if start.len() == 0 {
        assert(start + items =~= items);
    }
}

} // verus!
