use ans::{
    bytes_eq, Balances, Config, Currency, Error, Event, GenesisConfig, Pallet, Registry, Table,
    TransferError,
};

const ALICE: u64 = 1;
const BOB: u64 = 2;
const CAROL: u64 = 3;
const TREASURY: u64 = 100;

fn config() -> Config {
    Config { min_length: 3, max_length: 8 }
}

fn paid_pallet(fee: u128) -> Pallet {
    GenesisConfig { reservation_fee: fee, reservation_account: Some(TREASURY) }.build(config())
}

fn funded(amounts: &[(u64, u128)]) -> Balances {
    let mut b = Balances::new();
    for (who, amount) in amounts {
        b.set_balance(*who, *amount);
    }
    b
}

#[test]
fn genesis_sets_fee_and_account() {
    let p = paid_pallet(10);
    assert_eq!(p.get_reservation_fee(), 10);
    assert_eq!(p.get_reservation_account(), Some(TREASURY));
    assert!(p.events().is_empty());
    assert_eq!(p.get_owner(b"alice"), None);
}

#[test]
fn reserve_free_name_succeeds() {
    let mut p = paid_pallet(10);
    let mut b = funded(&[(ALICE, 50)]);
    assert_eq!(p.reserve(&mut b, ALICE, b"alice".to_vec()), Ok(()));
    assert_eq!(p.get_owner(b"alice"), Some(ALICE));
    assert_eq!(p.get_owner(b"alicf"), None);
    assert_eq!(
        p.events(),
        &vec![Event::Reserved { who: ALICE, name: b"alice".to_vec() }]
    );
    assert_eq!(b.free_balance(ALICE), 40);
    assert_eq!(b.free_balance(TREASURY), 10);
}

#[test]
fn reserve_too_short_leaves_registry_unchanged() {
    let mut p = paid_pallet(10);
    let mut b = funded(&[(ALICE, 50)]);
    assert_eq!(p.reserve(&mut b, ALICE, b"ab".to_vec()), Err(Error::TooShort));
    assert_eq!(p.reserve(&mut b, ALICE, Vec::new()), Err(Error::TooShort));
    assert_eq!(p.get_owner(b"ab"), None);
    assert!(p.events().is_empty());
    assert_eq!(b.free_balance(ALICE), 50);
    assert_eq!(b.free_balance(TREASURY), 0);
}

#[test]
fn reserve_too_long_fails() {
    let mut p = paid_pallet(10);
    let mut b = funded(&[(ALICE, 50)]);
    assert_eq!(p.reserve(&mut b, ALICE, b"abcdefghi".to_vec()), Err(Error::TooLong));
    assert_eq!(b.free_balance(ALICE), 50);
}

#[test]
fn reserve_checks_too_long_before_too_short() {
    let mut p = GenesisConfig { reservation_fee: 0, reservation_account: Some(TREASURY) }
        .build(Config { min_length: 10, max_length: 4 });
    let mut b = Balances::new();
    assert_eq!(p.reserve(&mut b, ALICE, b"abcdef".to_vec()), Err(Error::TooLong));
    assert_eq!(p.reserve(&mut b, ALICE, b"abc".to_vec()), Err(Error::TooShort));
}

#[test]
fn reserve_accepts_both_length_bounds() {
    let mut p = paid_pallet(0);
    let mut b = Balances::new();
    assert_eq!(p.reserve(&mut b, ALICE, b"abc".to_vec()), Ok(()));
    assert_eq!(p.reserve(&mut b, BOB, b"abcdefgh".to_vec()), Ok(()));
    assert_eq!(p.get_owner(b"abc"), Some(ALICE));
    assert_eq!(p.get_owner(b"abcdefgh"), Some(BOB));
}

#[test]
fn reserve_taken_name_fails_for_every_caller() {
    let mut p = paid_pallet(10);
    let mut b = funded(&[(ALICE, 50), (BOB, 50)]);
    assert_eq!(p.reserve(&mut b, ALICE, b"alice".to_vec()), Ok(()));
    assert_eq!(p.reserve(&mut b, BOB, b"alice".to_vec()), Err(Error::AlreadyReserved));
    assert_eq!(p.reserve(&mut b, ALICE, b"alice".to_vec()), Err(Error::AlreadyReserved));
    assert_eq!(p.get_owner(b"alice"), Some(ALICE));
    assert_eq!(b.free_balance(BOB), 50);
    assert_eq!(b.free_balance(ALICE), 40);
    assert_eq!(p.events().len(), 1);
}

#[test]
fn names_compare_byte_for_byte() {
    let mut p = paid_pallet(0);
    let mut b = Balances::new();
    assert_eq!(p.reserve(&mut b, ALICE, b"alice".to_vec()), Ok(()));
    assert_eq!(p.reserve(&mut b, BOB, b"Alice".to_vec()), Ok(()));
    assert_eq!(p.reserve(&mut b, CAROL, b"alice ".to_vec()), Ok(()));
    assert_eq!(p.get_owner(b"alice"), Some(ALICE));
    assert_eq!(p.get_owner(b"Alice"), Some(BOB));
    assert_eq!(p.get_owner(b"alice "), Some(CAROL));
}

#[test]
fn transfer_by_owner_moves_name() {
    let mut p = paid_pallet(10);
    let mut b = funded(&[(ALICE, 50)]);
    assert_eq!(p.reserve(&mut b, ALICE, b"alice".to_vec()), Ok(()));
    assert_eq!(p.transfer_to(ALICE, b"alice".to_vec(), BOB), Ok(()));
    assert_eq!(p.get_owner(b"alice"), Some(BOB));
    assert_eq!(
        p.events()[1],
        Event::Transferred { from: ALICE, to: BOB, name: b"alice".to_vec() }
    );
    assert_eq!(p.transfer_to(ALICE, b"alice".to_vec(), CAROL), Err(Error::NotOwner));
    assert_eq!(p.get_owner(b"alice"), Some(BOB));
    assert_eq!(p.events().len(), 2);
    assert_eq!(p.transfer_to(BOB, b"alice".to_vec(), CAROL), Ok(()));
    assert_eq!(p.get_owner(b"alice"), Some(CAROL));
}

#[test]
fn transfer_to_self_keeps_owner() {
    let mut p = paid_pallet(0);
    let mut b = Balances::new();
    assert_eq!(p.reserve(&mut b, ALICE, b"alice".to_vec()), Ok(()));
    assert_eq!(p.transfer_to(ALICE, b"alice".to_vec(), ALICE), Ok(()));
    assert_eq!(p.get_owner(b"alice"), Some(ALICE));
    assert_eq!(p.events().len(), 2);
}

#[test]
fn transfer_by_stranger_fails() {
    let mut p = paid_pallet(0);
    let mut b = Balances::new();
    assert_eq!(p.reserve(&mut b, ALICE, b"alice".to_vec()), Ok(()));
    assert_eq!(p.transfer_to(BOB, b"alice".to_vec(), BOB), Err(Error::NotOwner));
    assert_eq!(p.get_owner(b"alice"), Some(ALICE));
}

#[test]
fn transfer_of_free_name_not_found() {
    let mut p = paid_pallet(0);
    for caller in [ALICE, BOB, TREASURY] {
        assert_eq!(p.transfer_to(caller, b"nobody".to_vec(), BOB), Err(Error::NotFound));
    }
    assert_eq!(p.transfer_to(ALICE, b"ab".to_vec(), BOB), Err(Error::NotFound));
    assert!(p.events().is_empty());
}

#[test]
fn transfer_of_too_long_name_fails() {
    let mut p = paid_pallet(0);
    assert_eq!(p.transfer_to(ALICE, b"abcdefghi".to_vec(), BOB), Err(Error::TooLong));
}

#[test]
fn reserve_without_fee_account_fails() {
    let mut p = GenesisConfig { reservation_fee: 10, reservation_account: None }.build(config());
    let mut b = funded(&[(ALICE, 50)]);
    assert_eq!(p.get_reservation_account(), None);
    assert_eq!(
        p.reserve(&mut b, ALICE, b"alice".to_vec()),
        Err(Error::ReserveAccountNotConfigured)
    );
    assert_eq!(p.get_owner(b"alice"), None);
    assert_eq!(b.free_balance(ALICE), 50);
    assert!(p.events().is_empty());
}

#[test]
fn reserve_with_insufficient_balance_fails() {
    let mut p = paid_pallet(10);
    let mut b = funded(&[(ALICE, 9)]);
    assert_eq!(
        p.reserve(&mut b, ALICE, b"alice".to_vec()),
        Err(Error::Transfer(TransferError::InsufficientBalance))
    );
    assert_eq!(p.get_owner(b"alice"), None);
    assert_eq!(b.free_balance(ALICE), 9);
    assert_eq!(b.free_balance(TREASURY), 0);
    assert!(p.events().is_empty());
}

#[test]
fn reserve_may_spend_whole_balance() {
    let mut p = paid_pallet(10);
    let mut b = funded(&[(ALICE, 10)]);
    assert_eq!(p.reserve(&mut b, ALICE, b"alice".to_vec()), Ok(()));
    assert_eq!(b.free_balance(ALICE), 0);
    assert_eq!(b.free_balance(TREASURY), 10);
}

#[test]
fn reserve_with_zero_fee_needs_no_funds() {
    let mut p = paid_pallet(0);
    let mut b = Balances::new();
    assert_eq!(p.reserve(&mut b, ALICE, b"alice".to_vec()), Ok(()));
    assert_eq!(b.free_balance(ALICE), 0);
}

#[test]
fn reserve_fails_when_fee_account_would_overflow() {
    let mut p = paid_pallet(10);
    let mut b = funded(&[(ALICE, 50), (TREASURY, u128::MAX - 5)]);
    assert_eq!(
        p.reserve(&mut b, ALICE, b"alice".to_vec()),
        Err(Error::Transfer(TransferError::Overflow))
    );
    assert_eq!(p.get_owner(b"alice"), None);
    assert_eq!(b.free_balance(ALICE), 50);
}

#[test]
fn reserve_by_fee_account_itself() {
    let mut p = paid_pallet(10);
    let mut b = funded(&[(TREASURY, 10)]);
    assert_eq!(p.reserve(&mut b, TREASURY, b"vault".to_vec()), Ok(()));
    assert_eq!(b.free_balance(TREASURY), 10);
    assert_eq!(p.get_owner(b"vault"), Some(TREASURY));
}

#[test]
fn get_owner_twice_gives_same_answer() {
    let mut p = paid_pallet(0);
    let mut b = Balances::new();
    assert_eq!(p.reserve(&mut b, ALICE, b"alice".to_vec()), Ok(()));
    assert_eq!(p.get_owner(b"alice"), p.get_owner(b"alice"));
    assert_eq!(p.get_owner(b"bob"), p.get_owner(b"bob"));
}

#[test]
fn ledger_transfer_moves_value() {
    let mut b = funded(&[(ALICE, 30)]);
    assert_eq!(b.transfer(ALICE, BOB, 12), Ok(()));
    assert_eq!(b.free_balance(ALICE), 18);
    assert_eq!(b.free_balance(BOB), 12);
    assert_eq!(b.transfer(BOB, ALICE, 13), Err(TransferError::InsufficientBalance));
    assert_eq!(b.free_balance(BOB), 12);
    assert_eq!(b.transfer(ALICE, ALICE, 18), Ok(()));
    assert_eq!(b.free_balance(ALICE), 18);
    assert_eq!(b.transfer(ALICE, ALICE, 19), Err(TransferError::InsufficientBalance));
}

#[test]
fn registry_store_puts_and_overwrites() {
    let mut r = Registry::new();
    assert!(!r.contains(b"name"));
    r.put(b"name".to_vec(), ALICE);
    assert!(r.contains(b"name"));
    assert_eq!(r.get_owner(b"name"), Some(ALICE));
    r.put(b"name".to_vec(), BOB);
    assert_eq!(r.get_owner(b"name"), Some(BOB));
    assert_eq!(r.get_owner(b"nam"), None);
}

#[test]
fn bytes_eq_compares_every_byte() {
    assert!(bytes_eq(b"abc", b"abc"));
    assert!(bytes_eq(b"", b""));
    assert!(!bytes_eq(b"abc", b"abd"));
    assert!(!bytes_eq(b"abc", b"ab"));
}

#[test]
fn complete_reserve_registers_after_payment() {
    let mut p = paid_pallet(10);
    assert_eq!(p.complete_reserve(ALICE, b"alice".to_vec(), Ok(())), Ok(()));
    assert_eq!(p.get_owner(b"alice"), Some(ALICE));
    assert_eq!(
        p.events(),
        &vec![Event::Reserved { who: ALICE, name: b"alice".to_vec() }]
    );
}

#[test]
fn complete_reserve_passes_payment_error_on() {
    let mut p = paid_pallet(10);
    assert_eq!(
        p.complete_reserve(ALICE, b"alice".to_vec(), Err(TransferError::Overflow)),
        Err(Error::Transfer(TransferError::Overflow))
    );
    assert_eq!(
        p.complete_reserve(ALICE, b"alice".to_vec(), Err(TransferError::InsufficientBalance)),
        Err(Error::Transfer(TransferError::InsufficientBalance))
    );
    assert_eq!(p.get_owner(b"alice"), None);
    assert!(p.events().is_empty());
}

#[test]
fn table_insert_get_and_replace() {
    let mut t: Table<u64, u128> = Table::new();
    assert_eq!(t.get(&7), None);
    t.insert(7, 70);
    t.insert(8, 80);
    assert_eq!(t.get(&7), Some(70));
    t.insert(7, 71);
    assert_eq!(t.get(&7), Some(71));
    assert_eq!(t.get(&8), Some(80));
    let mut names: Table<Vec<u8>, u64> = Table::new();
    names.insert(b"ab".to_vec(), 1);
    assert_eq!(names.get(&b"ab"[..]), Some(1));
    assert_eq!(names.get(&b"abc"[..]), None);
}
