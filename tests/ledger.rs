use dojo_backend::domain::{
    Account, AccountTransfer, Budget, Category, CategoryTransfer, Transaction, NIL_ID,
};
use dojo_backend::money::format_amount;

fn account(id: u128, starting_balance: i64) -> Account {
    Account { id, name: format!("account {}", id), starting_balance }
}

fn tx(id: u128, account_id: u128, category_id: Option<u128>, inflow: u64, outflow: u64) -> Transaction {
    Transaction {
        id,
        date: "2025-06-20".into(),
        payee: Some("Shop".into()),
        memo: None,
        account_id,
        category_id,
        inflow,
        outflow,
        status: "pending".into(),
    }
}

fn category_transfer(id: u128, from: u128, to: u128, amount: i64) -> CategoryTransfer {
    CategoryTransfer {
        id,
        date: "2025-06-21".into(),
        from_category_id: from,
        to_category_id: to,
        amount,
        memo: Some("move".into()),
    }
}

#[test]
fn default_budget_holds_only_its_available_category() {
    let b = Budget::default();
    assert_eq!(b.system_available_category_id, NIL_ID);
    let cats = b.list_categories();
    assert_eq!(cats.len(), 1);
    assert_eq!(cats[0].id, NIL_ID);
    assert_eq!(cats[0].name, "Available");
    assert!(b.list_accounts().is_empty());
    assert!(b.list_transactions().is_empty());
    assert!(b.list_category_transfers().is_empty());
    assert!(b.list_account_transfers().is_empty());
    assert_eq!(b.available_to_budget(), 0);
}

#[test]
fn new_budget_holds_its_available_category() {
    let b = Budget::new();
    assert_ne!(b.system_available_category_id, NIL_ID);
    let cats = b.list_categories();
    assert_eq!(cats.len(), 1);
    assert_eq!(cats[0].id, b.system_available_category_id);
    assert_eq!(cats[0].name, "Available");
    assert_eq!(b.available_to_budget(), 0);
    let other = Budget::new();
    assert_ne!(other.system_available_category_id, b.system_available_category_id);
}

#[test]
fn no_records_leave_starting_balances() {
    let mut b = Budget::new();
    b.add_account(account(1, 12345));
    b.add_account(account(2, -500));
    assert_eq!(b.available_to_budget(), 0);
    assert_eq!(b.account_balance(1), 12345);
    assert_eq!(b.account_balance(2), -500);
}

#[test]
fn first_account_of_an_id_gives_the_starting_balance() {
    let mut b = Budget::default();
    b.add_account(account(7, 100));
    b.add_account(account(7, 900));
    assert_eq!(b.account_balance(7), 100);
}

#[test]
fn transaction_adds_its_net_to_its_category() {
    let mut b = Budget::default();
    b.add_account(account(1, 0));
    b.add_transaction(tx(10, 1, Some(5), 4000, 0));
    let before = b.category_balance(5);
    let other_before = b.category_balance(6);
    b.add_transaction(tx(11, 1, Some(5), 250, 1000));
    assert_eq!(b.category_balance(5), before + 250 - 1000);
    assert_eq!(b.category_balance(5), 3250);
    assert_eq!(b.category_balance(6), other_before);
}

#[test]
fn inflow_and_outflow_on_one_transaction_combine() {
    let mut b = Budget::default();
    b.add_account(account(1, 1000));
    b.add_transaction(tx(10, 1, Some(5), 3000, 1000));
    assert_eq!(b.category_balance(5), 2000);
    assert_eq!(b.account_balance(1), 3000);
    // 0.10 + 0.20 is exactly 0.30 in hundredths
    b.add_transaction(tx(11, 1, Some(6), 10, 0));
    b.add_transaction(tx(12, 1, Some(6), 20, 0));
    assert_eq!(b.category_balance(6), 30);
}

#[test]
fn uncategorized_transaction_moves_only_the_account() {
    let mut b = Budget::default();
    b.system_available_category_id = 3;
    b.add_account(account(1, 500));
    b.add_transaction(tx(10, 1, None, 0, 200));
    assert_eq!(b.account_balance(1), 300);
    assert_eq!(b.available_to_budget(), 0);
    assert_eq!(b.category_balance(0), 0);
}

#[test]
fn category_transfer_conserves_the_pair() {
    let mut b = Budget::default();
    b.add_account(account(1, 0));
    b.add_transaction(tx(10, 1, Some(1), 10000, 0));
    b.add_transaction(tx(11, 1, Some(2), 0, 700));
    let a0 = b.category_balance(1);
    let b0 = b.category_balance(2);
    b.add_category_transfer(category_transfer(20, 1, 2, 2500));
    assert_eq!(b.category_balance(1), a0 - 2500);
    assert_eq!(b.category_balance(2), b0 + 2500);
    assert_eq!(b.category_balance(1) + b.category_balance(2), a0 + b0);
}

#[test]
fn transfer_to_the_same_category_nets_to_zero() {
    let mut b = Budget::default();
    b.add_category_transfer(category_transfer(20, 4, 4, 999));
    assert_eq!(b.category_balance(4), 0);
}

#[test]
fn account_transfers_do_not_move_account_balances() {
    let mut b = Budget::default();
    b.add_account(account(1, 1000));
    b.add_account(account(2, 0));
    b.add_account_transfer(AccountTransfer {
        id: 30,
        date: "2025-06-22".into(),
        from_account_id: 1,
        to_account_id: 2,
        amount: 400,
        memo: None,
    });
    assert_eq!(b.account_balance(1), 1000);
    assert_eq!(b.account_balance(2), 0);
    assert_eq!(b.list_account_transfers().len(), 1);
}

#[test]
fn unknown_ids_have_zero_balance() {
    let mut b = Budget::default();
    b.add_account(account(1, 1000));
    b.add_transaction(tx(10, 1, Some(5), 100, 0));
    b.add_category_transfer(category_transfer(20, 5, 6, 50));
    assert_eq!(b.category_balance(99), 0);
    assert_eq!(b.account_balance(99), 0);
}

#[test]
fn queries_repeat_without_writes() {
    let mut b = Budget::default();
    b.add_account(account(1, 1000));
    b.add_transaction(tx(10, 1, Some(5), 100, 300));
    b.add_category_transfer(category_transfer(20, 6, 5, 50));
    assert_eq!(b.category_balance(5), b.category_balance(5));
    assert_eq!(b.account_balance(1), b.account_balance(1));
    assert_eq!(b.category_balance(5), -150);
}

#[test]
fn list_returns_records_in_insertion_order() {
    let mut b = Budget::default();
    for i in 0..5u128 {
        b.add_category(Category { id: 10 + i, name: format!("c{}", i) });
        b.add_transaction(tx(100 + i, 1, Some(i), i as u64, 0));
        b.add_category_transfer(category_transfer(200 + i, i, i + 1, i as i64));
    }
    let cats = b.list_categories();
    let txs = b.list_transactions();
    let trs = b.list_category_transfers();
    // the available category comes first, then the added ones
    assert_eq!(cats.len(), 6);
    assert_eq!(cats[0].name, "Available");
    assert_eq!(txs.len(), 5);
    assert_eq!(trs.len(), 5);
    for i in 0..5usize {
        assert_eq!(cats[i + 1].id, 10 + i as u128);
        assert_eq!(cats[i + 1].name, format!("c{}", i));
        assert_eq!(txs[i].id, 100 + i as u128);
        assert_eq!(txs[i].inflow, i as u64);
        assert_eq!(txs[i].payee, Some("Shop".to_string()));
        assert_eq!(txs[i].status, "pending");
        assert_eq!(trs[i].id, 200 + i as u128);
        assert_eq!(trs[i].memo, Some("move".to_string()));
    }
    let accounts_before = b.list_accounts();
    b.add_account(account(9, 1));
    assert!(accounts_before.is_empty());
    assert_eq!(b.list_accounts()[0].starting_balance, 1);
}

#[test]
fn amounts_print_with_two_decimals() {
    assert_eq!(format_amount(-5000), "-50.00");
    assert_eq!(format_amount(0), "0.00");
    assert_eq!(format_amount(5), "0.05");
    assert_eq!(format_amount(-7), "-0.07");
    assert_eq!(format_amount(123405), "1234.05");
    assert_eq!(format_amount(1999), "19.99");
    assert_eq!(format_amount(i128::MIN), "-1701411834604692317316873037158841057.28");
    assert_eq!(format_amount(i128::MAX), "1701411834604692317316873037158841057.27");
}
