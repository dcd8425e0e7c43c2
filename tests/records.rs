use anchor_lang::solana_program::pubkey::Pubkey;
use safe_transfer::{
    activate, authorize_transfer, base_account_seed, check_initialize, create_base_account,
    deactivate, initialize, safe_transfer, Activate, BaseAccount, Deactivate, Errors, Initialize,
    Key, SafeTransfer, TokenAccountInfo, WHITELIST_CAPACITY,
};

fn key(n: u8) -> Key {
    let mut bytes = [0u8; 32];
    bytes[0] = n;
    bytes[31] = 200;
    Key::new(bytes)
}

const OWNER: u8 = 1;
const TRANSFER: u8 = 2;
const DEACTIVATE: u8 = 3;
const STRANGER: u8 = 4;
const MINT: u8 = 5;
const OTHER_MINT: u8 = 6;
const FROM: u8 = 7;

fn program() -> Key {
    key(99)
}

fn create(candidates: Vec<Key>) -> (Key, BaseAccount) {
    let ctx = Initialize { owner: key(OWNER), program_id: program(), remaining_accounts: candidates };
    initialize(&ctx, key(TRANSFER), key(DEACTIVATE)).expect("valid creation request")
}

fn request(address: Key, account: BaseAccount, to: Key) -> SafeTransfer {
    SafeTransfer {
        program_id: program(),
        transfer_authority: key(TRANSFER),
        base_account_key: address,
        base_account: account,
        from: TokenAccountInfo { key: key(FROM), mint: key(MINT) },
        to: TokenAccountInfo { key: to, mint: key(MINT) },
    }
}

fn switched_off(account: BaseAccount, by: Key) -> Result<BaseAccount, Errors> {
    let mut ctx = Deactivate { signer: by, base_account: account };
    deactivate(&mut ctx).map(|_| ctx.base_account)
}

fn switched_on(account: BaseAccount, by: Key) -> Result<BaseAccount, Errors> {
    let mut ctx = Activate { signer: by, base_account: account };
    activate(&mut ctx).map(|_| ctx.base_account)
}

#[test]
fn creation_fills_whitelist_in_order() {
    let (_, account) = create(vec![key(20), key(21), key(22)]);
    assert!(account.active);
    assert_eq!(account.owner, key(OWNER));
    assert_eq!(account.transfer_authority, key(TRANSFER));
    assert_eq!(account.deactivation_authority, key(DEACTIVATE));
    assert_eq!(account.whitelist_len, 3);
    assert_eq!(account.whitelisted_targets[0], key(20));
    assert_eq!(account.whitelisted_targets[1], key(21));
    assert_eq!(account.whitelisted_targets[2], key(22));
    for slot in 3..WHITELIST_CAPACITY {
        assert_eq!(account.whitelisted_targets[slot], Key::default());
    }
}

#[test]
fn creation_accepts_one_and_ten_candidates() {
    let (_, one) = create(vec![key(20)]);
    assert_eq!(one.whitelisted_targets[0], key(20));
    assert_eq!(one.whitelisted_targets[1], Key::default());
    let ten: Vec<Key> = (0..10).map(|i| key(30 + i)).collect();
    let (_, full) = create(ten.clone());
    assert_eq!(full.whitelisted_targets.to_vec(), ten);
}

#[test]
fn creation_address_is_the_program_derived_address() {
    let (address, account) = create(vec![key(20)]);
    let program_id = Pubkey::new_from_array(program().to_bytes());
    let ta = key(TRANSFER).to_bytes();
    let (expected, bump) = Pubkey::find_program_address(&[b"base-account", &ta], &program_id);
    assert_eq!(address.to_bytes(), expected.to_bytes());
    assert_eq!(account.bump, bump);
    assert_ne!(address, key(TRANSFER));
}

#[test]
fn creation_without_candidates_is_empty_whitelist() {
    let ctx = Initialize { owner: key(OWNER), program_id: program(), remaining_accounts: vec![] };
    assert_eq!(initialize(&ctx, key(TRANSFER), key(DEACTIVATE)).unwrap_err(), Errors::EmptyWhiteList);
}

#[test]
fn creation_with_eleven_candidates_is_too_long() {
    let eleven: Vec<Key> = (0..11).map(|i| key(30 + i)).collect();
    let ctx = Initialize { owner: key(OWNER), program_id: program(), remaining_accounts: eleven };
    assert_eq!(initialize(&ctx, key(TRANSFER), key(DEACTIVATE)).unwrap_err(), Errors::WhiteListTooLong);
}

#[test]
fn creation_with_shared_identities_is_same_accounts() {
    let ctx = Initialize { owner: key(OWNER), program_id: program(), remaining_accounts: vec![key(20)] };
    assert_eq!(initialize(&ctx, key(OWNER), key(DEACTIVATE)).unwrap_err(), Errors::SameAccounts);
    assert_eq!(initialize(&ctx, key(TRANSFER), key(TRANSFER)).unwrap_err(), Errors::SameAccounts);
    assert_eq!(initialize(&ctx, key(TRANSFER), key(OWNER)).unwrap_err(), Errors::SameAccounts);
}

#[test]
fn same_accounts_comes_before_whitelist_length() {
    assert_eq!(check_initialize(&key(OWNER), &key(OWNER), &key(DEACTIVATE), 0), Err(Errors::SameAccounts));
    assert_eq!(check_initialize(&key(OWNER), &key(TRANSFER), &key(DEACTIVATE), 10), Ok(()));
}

#[test]
fn create_base_account_uses_given_bump() {
    let account = create_base_account(&key(OWNER), &key(TRANSFER), &key(DEACTIVATE), &vec![key(20), key(21)], 254).unwrap();
    assert_eq!(account.bump, 254);
    assert!(account.active);
    assert_eq!(account.whitelisted_targets[1], key(21));
    assert_eq!(
        create_base_account(&key(OWNER), &key(TRANSFER), &key(DEACTIVATE), &vec![], 254).unwrap_err(),
        Errors::EmptyWhiteList
    );
}

#[test]
fn transfer_to_whitelisted_destination_is_ordered() {
    let (address, account) = create(vec![key(20), key(21)]);
    let order = safe_transfer(&request(address, account, key(21)), 500).unwrap();
    assert_eq!(order.from, key(FROM));
    assert_eq!(order.to, key(21));
    assert_eq!(order.authority, address);
    assert_eq!(order.amount, 500);
    assert_eq!(
        order.signer_seeds,
        vec![base_account_seed(), key(TRANSFER).to_bytes().to_vec(), vec![account.bump]]
    );
    assert_eq!(base_account_seed(), b"base-account".to_vec());
}

#[test]
fn transfer_to_unlisted_destination_is_unknown_account() {
    let (address, account) = create(vec![key(20), key(21)]);
    assert_eq!(safe_transfer(&request(address, account, key(40)), 1).unwrap_err(), Errors::UnknownAccount);
}

#[test]
fn transfer_to_empty_slot_key_is_unknown_account() {
    let (address, account) = create(vec![key(20), key(21)]);
    assert_eq!(
        safe_transfer(&request(address, account, Key::default()), 1).unwrap_err(),
        Errors::UnknownAccount
    );
}

#[test]
fn all_zero_key_supplied_as_candidate_is_whitelisted() {
    let (address, account) = create(vec![Key::default(), key(21)]);
    assert!(safe_transfer(&request(address, account, Key::default()), 1).is_ok());
}

#[test]
fn transfer_signed_by_another_authority_is_unknown_account() {
    let (address, account) = create(vec![key(20)]);
    let mut req = request(address, account, key(20));
    req.transfer_authority = key(STRANGER);
    assert_eq!(safe_transfer(&req, 1).unwrap_err(), Errors::UnknownAccount);
}

#[test]
fn transfer_from_wrong_record_address_is_unknown_account() {
    let (_, account) = create(vec![key(20)]);
    assert_eq!(safe_transfer(&request(key(77), account, key(20)), 1).unwrap_err(), Errors::UnknownAccount);
    let mut other_program = request(key(77), account, key(20));
    other_program.program_id = key(98);
    assert_eq!(safe_transfer(&other_program, 1).unwrap_err(), Errors::UnknownAccount);
}

#[test]
fn transfer_between_mints_is_mints_mismatch() {
    let (address, account) = create(vec![key(20)]);
    let mut req = request(address, account, key(20));
    req.to.mint = key(OTHER_MINT);
    assert_eq!(safe_transfer(&req, 1).unwrap_err(), Errors::MintsMismatch);
}

#[test]
fn authorize_transfer_decides_on_given_address() {
    let (address, account) = create(vec![key(20)]);
    let req = request(address, account, key(20));
    assert!(authorize_transfer(&req, Some(address), 3).is_ok());
    assert_eq!(authorize_transfer(&req, Some(key(78)), 3).unwrap_err(), Errors::UnknownAccount);
    assert_eq!(authorize_transfer(&req, None, 3).unwrap_err(), Errors::UnknownAccount);
}

#[test]
fn deactivation_blocks_and_activation_restores_transfers() {
    let (address, account) = create(vec![key(20)]);
    for by in [key(OWNER), key(DEACTIVATE)] {
        let off = switched_off(account, by).unwrap();
        assert!(!off.active);
        assert_eq!(safe_transfer(&request(address, off, key(20)), 9).unwrap_err(), Errors::DeactivatedAccount);
        let off_again = switched_off(off, by).unwrap();
        assert!(!off_again.active);
        let on = switched_on(off_again, key(OWNER)).unwrap();
        assert!(on.active);
        let on_again = switched_on(on, key(OWNER)).unwrap();
        assert!(safe_transfer(&request(address, on_again, key(20)), 9).is_ok());
    }
}

#[test]
fn deactivation_by_third_party_is_refused() {
    let (_, account) = create(vec![key(20)]);
    let mut ctx = Deactivate { signer: key(STRANGER), base_account: account };
    assert_eq!(deactivate(&mut ctx), Err(Errors::WrongDeactivateAccount));
    assert!(ctx.base_account.active);
    let mut by_transfer = Deactivate { signer: key(TRANSFER), base_account: account };
    assert_eq!(deactivate(&mut by_transfer), Err(Errors::WrongDeactivateAccount));
}

#[test]
fn activation_by_non_owner_is_refused() {
    let (_, account) = create(vec![key(20)]);
    let off = switched_off(account, key(OWNER)).unwrap();
    let mut ctx = Activate { signer: key(DEACTIVATE), base_account: off };
    assert_eq!(activate(&mut ctx), Err(Errors::WrongOwnerAccount));
    assert!(!ctx.base_account.active);
}

#[test]
fn round_trip_on_one_record() {
    let (a, b, c) = (key(20), key(21), key(22));
    let (address, account) = create(vec![a, b]);
    assert!(safe_transfer(&request(address, account, a), 10).is_ok());
    assert_eq!(safe_transfer(&request(address, account, c), 10).unwrap_err(), Errors::UnknownAccount);
    let off = switched_off(account, key(OWNER)).unwrap();
    assert_eq!(safe_transfer(&request(address, off, a), 10).unwrap_err(), Errors::DeactivatedAccount);
    let on = switched_on(off, key(OWNER)).unwrap();
    assert!(safe_transfer(&request(address, on, a), 10).is_ok());
}

#[test]
fn transfers_on_distinct_records_are_independent() {
    let first_ctx = Initialize { owner: key(OWNER), program_id: program(), remaining_accounts: vec![key(20)] };
    let (first_address, first) = initialize(&first_ctx, key(TRANSFER), key(DEACTIVATE)).unwrap();
    let second_ctx = Initialize { owner: key(OWNER), program_id: program(), remaining_accounts: vec![key(20)] };
    let (second_address, second) = initialize(&second_ctx, key(50), key(DEACTIVATE)).unwrap();
    assert_ne!(first_address, second_address);
    let second_off = switched_off(second, key(OWNER)).unwrap();
    let mut second_req = request(second_address, second_off, key(20));
    second_req.transfer_authority = key(50);
    let first_req = request(first_address, first, key(20));
    assert!(safe_transfer(&first_req, 5).is_ok());
    assert_eq!(safe_transfer(&second_req, 5).unwrap_err(), Errors::DeactivatedAccount);
    assert!(safe_transfer(&first_req, 5).is_ok());
    let mut second_on = request(second_address, switched_on(second_off, key(OWNER)).unwrap(), key(20));
    second_on.transfer_authority = key(50);
    let first_order = safe_transfer(&first_req, 5).unwrap();
    let second_order = safe_transfer(&second_on, 6).unwrap();
    assert_eq!(first_order.authority, first_address);
    assert_eq!(second_order.authority, second_address);
    assert_ne!(first_order.signer_seeds, second_order.signer_seeds);
    assert_eq!(second_order.amount, 6);
}

#[test]
fn error_messages_and_record_size() {
    assert_eq!(Errors::EmptyWhiteList.message(), "Whitelist is empty");
    assert_eq!(Errors::WrongOwnerAccount.message(), "Only owner can activate transfers");
    assert_eq!(BaseAccount::LEN, 427);
}
