use nft_swap::address::Address;
use nft_swap::error::{ProgramError, SwapError};
use nft_swap::utils::{
    check_derived_address, check_holding, check_mint_properties, create_and_initialize_account,
    create_associated_token_account_if_needed, find_program_address, get_program_config_address,
    get_trade_loop_address, get_trade_loop_address_legacy, transfer_nft, verify_account_owner,
    verify_basic_mint_properties, verify_metaplex_metadata, verify_mint_authority_safety, verify_nft_metadata,
    verify_nft_metadata_with_mode, verify_nft_supply_constraints, verify_ownership, verify_source,
    verify_sysvar_account_owner, verify_system_account_owner, verify_token_account_address,
    verify_token_account_owner, AccountSnapshot, Action, Mint, NftVerificationMode, TokenAccount,
};
use solana_program::program_option::COption;
use solana_program::program_pack::Pack;
use solana_program::pubkey::Pubkey;
use spl_associated_token_account::get_associated_token_address;

fn key(tag: u8) -> Pubkey {
    Pubkey::new_from_array([tag; 32])
}

fn addr(key: &Pubkey) -> Address {
    Address::new(key.to_bytes())
}

fn custom(error: SwapError) -> ProgramError {
    ProgramError::Custom(error)
}

fn owned_by(owner: Pubkey) -> AccountSnapshot {
    AccountSnapshot { key: addr(&key(1)), owner: addr(&owner), is_signer: false, data: vec![] }
}

fn mint_account(mint: Pubkey, supply: u64, decimals: u8, with_authorities: bool) -> AccountSnapshot {
    let authority = if with_authorities { COption::Some(key(60)) } else { COption::None };
    let state = spl_token::state::Mint {
        mint_authority: authority,
        supply,
        decimals,
        is_initialized: true,
        freeze_authority: authority,
    };
    let mut data = vec![0u8; spl_token::state::Mint::LEN];
    spl_token::state::Mint::pack(state, &mut data).unwrap();
    AccountSnapshot { key: addr(&mint), owner: addr(&spl_token::id()), is_signer: false, data }
}

fn token_account(holder: Pubkey, mint: Pubkey, amount: u64) -> AccountSnapshot {
    let state = spl_token::state::Account {
        mint,
        owner: holder,
        amount,
        delegate: COption::None,
        state: spl_token::state::AccountState::Initialized,
        is_native: COption::None,
        delegated_amount: 0,
        close_authority: COption::None,
    };
    let mut data = vec![0u8; spl_token::state::Account::LEN];
    spl_token::state::Account::pack(state, &mut data).unwrap();
    AccountSnapshot {
        key: addr(&get_associated_token_address(&holder, &mint)),
        owner: addr(&spl_token::id()),
        is_signer: false,
        data,
    }
}

#[test]
fn addresses_compare_by_their_bytes() {
    assert_eq!(Address::new([3; 32]), Address { bytes: [3; 32] });
    let mut other = [3u8; 32];
    other[31] = 4;
    assert_ne!(Address::new([3; 32]), Address::new(other));
    let mut first = [3u8; 32];
    first[0] = 4;
    assert_ne!(Address::new([3; 32]), Address::new(first));
}

#[test]
fn addresses_are_read_and_written() {
    let bytes: Vec<u8> = (0..40u8).collect();
    let read = Address::from_bytes_at(&bytes, 5);
    let expected: Vec<u8> = (5..37u8).collect();
    assert_eq!(read.bytes.to_vec(), expected);
    let mut out = vec![9u8];
    read.append_to(&mut out);
    assert_eq!(out.len(), 33);
    assert_eq!(out[0], 9);
    assert_eq!(&out[1..], &expected[..]);
}

#[test]
fn derived_addresses_are_those_of_the_ledger() {
    let program = key(200);
    let program_id = addr(&program);
    let (config, bump) = Pubkey::find_program_address(&[b"config"], &program);
    assert_eq!(get_program_config_address(&program_id), Some((addr(&config), bump)));
    let trade_id = [7u8; 32];
    let creator = key(3);
    let (record, bump) = Pubkey::find_program_address(&[b"trade_loop", &trade_id, creator.as_ref()], &program);
    assert_eq!(get_trade_loop_address(&trade_id, &addr(&creator), &program_id), Some((addr(&record), bump)));
    let (legacy, bump) = Pubkey::find_program_address(&[b"trade_loop", &trade_id], &program);
    assert_eq!(get_trade_loop_address_legacy(&trade_id, &program_id), Some((addr(&legacy), bump)));
    assert_ne!(record, legacy);
    let seeds: [&[u8]; 2] = [b"any", b"seeds"];
    let (other, bump) = Pubkey::find_program_address(&seeds, &program);
    assert_eq!(find_program_address(&seeds, &program_id), Some((addr(&other), bump)));
    assert_ne!(addr(&other), program_id);
    let too_long: [&[u8]; 1] = [&[0u8; 33]];
    assert_eq!(find_program_address(&too_long, &program_id), None);
}

#[test]
fn owners_are_checked() {
    let refused = Err(custom(SwapError::InvalidAccountOwner));
    assert_eq!(verify_account_owner(&owned_by(key(5)), &addr(&key(5))), Ok(()));
    assert_eq!(verify_account_owner(&owned_by(key(5)), &addr(&key(6))), refused);
    assert_eq!(verify_token_account_owner(&owned_by(spl_token::id())), Ok(()));
    assert_eq!(verify_token_account_owner(&owned_by(key(5))), refused);
    assert_eq!(verify_token_account_owner(&owned_by(spl_associated_token_account::id())), refused);
    assert_eq!(verify_system_account_owner(&owned_by(solana_program::system_program::id())), Ok(()));
    assert_eq!(verify_system_account_owner(&owned_by(spl_token::id())), refused);
    assert_eq!(verify_sysvar_account_owner(&owned_by(solana_program::sysvar::id())), Ok(()));
    assert_eq!(verify_sysvar_account_owner(&owned_by(solana_program::system_program::id())), refused);
}

#[test]
fn token_accounts_stand_at_their_derived_address() {
    let holder = key(1);
    let mint = key(11);
    let account = token_account(holder, mint, 1);
    assert_eq!(verify_token_account_address(&account, &addr(&holder), &addr(&mint)), Ok(()));
    let refused = Err(custom(SwapError::InvalidAccountData));
    assert_eq!(verify_token_account_address(&account, &addr(&mint), &addr(&holder)), refused);
    assert_eq!(verify_token_account_address(&account, &addr(&key(2)), &addr(&mint)), refused);
    assert_eq!(verify_token_account_address(&owned_by(spl_token::id()), &addr(&holder), &addr(&mint)), refused);
}

#[test]
fn mints_are_examined() {
    let refused = Err(custom(SwapError::InvalidMetadataAccount));
    let genuine = mint_account(key(11), 1, 0, false);
    assert_eq!(verify_nft_metadata(&genuine), Ok(()));
    assert_eq!(verify_nft_metadata(&mint_account(key(11), 1, 0, true)), Ok(()));
    assert_eq!(
        verify_basic_mint_properties(&genuine),
        Ok(Mint { supply: 1, decimals: 0, is_initialized: true })
    );
    assert_eq!(
        verify_basic_mint_properties(&mint_account(key(11), 7, 0, true)),
        Ok(Mint { supply: 7, decimals: 0, is_initialized: true })
    );
    assert_eq!(verify_nft_metadata(&mint_account(key(11), 2, 0, false)), refused);
    assert_eq!(verify_nft_metadata(&mint_account(key(11), 0, 0, false)), refused);
    assert_eq!(verify_nft_metadata(&mint_account(key(11), 1, 9, false)), refused);
    assert_eq!(verify_basic_mint_properties(&mint_account(key(11), 1, 9, false)), Err(custom(SwapError::InvalidMetadataAccount)));
    let mut foreign = mint_account(key(11), 1, 0, false);
    foreign.owner = addr(&key(9));
    assert_eq!(verify_nft_metadata(&foreign), refused);
    let mut blank = mint_account(key(11), 1, 0, false);
    blank.data = vec![0; 82];
    assert_eq!(verify_nft_metadata(&blank), refused);
    let mut short = mint_account(key(11), 1, 0, false);
    short.data.truncate(81);
    assert_eq!(verify_nft_metadata(&short), refused);
}

#[test]
fn the_modes_ask_for_more_and_more() {
    let refused = Err(custom(SwapError::InvalidMetadataAccount));
    let many = mint_account(key(11), 5, 0, false);
    let one = mint_account(key(11), 1, 0, false);
    let metadata = |len: usize| AccountSnapshot { data: vec![1; len], ..owned_by(key(70)) };
    assert_eq!(verify_nft_metadata_with_mode(&many, None, NftVerificationMode::Basic), Ok(()));
    assert_eq!(verify_nft_metadata_with_mode(&many, None, NftVerificationMode::Standard), refused);
    assert_eq!(verify_nft_metadata_with_mode(&one, None, NftVerificationMode::Standard), Ok(()));
    assert_eq!(verify_nft_metadata_with_mode(&one, None, NftVerificationMode::Strict), refused);
    assert_eq!(verify_nft_metadata_with_mode(&one, Some(&metadata(0)), NftVerificationMode::Strict), refused);
    assert_eq!(verify_nft_metadata_with_mode(&one, Some(&metadata(31)), NftVerificationMode::Strict), refused);
    assert_eq!(verify_nft_metadata_with_mode(&one, Some(&metadata(32)), NftVerificationMode::Strict), Ok(()));
    assert_eq!(verify_nft_metadata_with_mode(&many, Some(&metadata(32)), NftVerificationMode::Strict), refused);
    assert_eq!(verify_nft_metadata_with_mode(&one, Some(&metadata(0)), NftVerificationMode::Standard), Ok(()));
    assert_eq!(verify_metaplex_metadata(&one, &metadata(32)), Ok(()));
    assert_eq!(verify_metaplex_metadata(&one, &metadata(31)), refused);
    assert_eq!(verify_metaplex_metadata(&one, &metadata(0)), refused);
}

#[test]
fn the_checks_on_a_mint_that_was_read() {
    let refused = Err(custom(SwapError::InvalidMetadataAccount));
    let mint = Mint { supply: 1, decimals: 0, is_initialized: true };
    assert_eq!(check_mint_properties(Some(mint)), Ok(mint));
    assert_eq!(check_mint_properties(None), refused);
    assert_eq!(check_mint_properties(Some(Mint { decimals: 1, ..mint })), refused);
    assert_eq!(check_mint_properties(Some(Mint { is_initialized: false, ..mint })), refused);
    assert_eq!(check_mint_properties(Some(Mint { supply: 9, ..mint })), Ok(Mint { supply: 9, ..mint }));
    assert_eq!(verify_nft_supply_constraints(&mint, &addr(&key(11))), Ok(()));
    assert_eq!(verify_nft_supply_constraints(&Mint { supply: 0, ..mint }, &addr(&key(11))), Err(custom(SwapError::InvalidMetadataAccount)));
    assert_eq!(verify_nft_supply_constraints(&Mint { supply: 2, ..mint }, &addr(&key(11))), Err(custom(SwapError::InvalidMetadataAccount)));
    assert_eq!(verify_mint_authority_safety(&mint, &addr(&key(11))), Ok(()));
}

#[test]
fn the_checks_on_a_token_account_that_was_read() {
    let holder = addr(&key(1));
    let mint = addr(&key(11));
    let account = TokenAccount { mint, owner: holder, amount: 1 };
    assert_eq!(check_holding(Ok(account), &holder, &mint), Ok(()));
    assert_eq!(check_holding(Ok(TokenAccount { amount: u64::MAX, ..account }), &holder, &mint), Ok(()));
    assert_eq!(check_holding(Ok(TokenAccount { amount: 0, ..account }), &holder, &mint), Err(custom(SwapError::InsufficientFunds)));
    assert_eq!(check_holding(Ok(account), &mint, &mint), Err(custom(SwapError::InvalidAccountOwner)));
    assert_eq!(check_holding(Ok(account), &holder, &holder), Err(custom(SwapError::InvalidAccountData)));
    assert_eq!(
        check_holding(Ok(TokenAccount { amount: 0, ..account }), &mint, &holder),
        Err(custom(SwapError::InvalidAccountOwner))
    );
    assert_eq!(check_holding(Err(ProgramError::UninitializedAccount), &holder, &mint), Err(ProgramError::UninitializedAccount));
    assert_eq!(check_holding(Err(ProgramError::InvalidAccountData), &holder, &mint), Err(ProgramError::InvalidAccountData));
}

#[test]
fn ownership_is_verified_on_real_accounts() {
    let holder = key(1);
    let mint = key(11);
    let mint_info = mint_account(mint, 1, 0, false);
    let source = token_account(holder, mint, 1);
    assert_eq!(verify_source(&mint_info, &source, &addr(&holder), &addr(&mint)), Ok(()));
    assert_eq!(verify_ownership(&mint_info, &source, &addr(&holder), &addr(&mint)), Ok(()));
    assert_eq!(
        verify_ownership(&mint_info, &token_account(holder, mint, 0), &addr(&holder), &addr(&mint)),
        Err(custom(SwapError::InsufficientFunds))
    );
    assert_eq!(
        verify_ownership(&mint_info, &source, &addr(&holder), &addr(&key(12))),
        Err(custom(SwapError::InvalidAccountData))
    );
    assert_eq!(
        verify_ownership(&mint_info, &source, &addr(&key(2)), &addr(&mint)),
        Err(custom(SwapError::InvalidAccountData))
    );
    let mut swapped = token_account(holder, mint, 1);
    swapped.data = token_account(key(2), mint, 1).data;
    assert_eq!(
        verify_ownership(&mint_info, &swapped, &addr(&holder), &addr(&mint)),
        Err(custom(SwapError::InvalidAccountOwner))
    );
    assert_eq!(verify_source(&mint_info, &swapped, &addr(&holder), &addr(&mint)), Ok(()));
    let mut other = token_account(holder, mint, 1);
    other.data = token_account(holder, key(12), 1).data;
    assert_eq!(
        verify_ownership(&mint_info, &other, &addr(&holder), &addr(&mint)),
        Err(custom(SwapError::InvalidAccountData))
    );
    let mut frozen = token_account(holder, mint, 1);
    frozen.data[108] = 7;
    assert_eq!(
        verify_ownership(&mint_info, &frozen, &addr(&holder), &addr(&mint)),
        Err(ProgramError::InvalidAccountData)
    );
    let mut blank = token_account(holder, mint, 1);
    blank.data = vec![0; 165];
    assert_eq!(
        verify_ownership(&mint_info, &blank, &addr(&holder), &addr(&mint)),
        Err(ProgramError::UninitializedAccount)
    );
}

#[test]
fn actions_are_built() {
    let a = addr(&key(1));
    let b = addr(&key(2));
    let c = addr(&key(3));
    assert_eq!(
        create_and_initialize_account(&a, &b, 676, &c),
        Action::CreateAccount { payer: a, new_account: b, space: 676, owner: c }
    );
    assert_eq!(transfer_nft(&a, &b, &c), Action::TransferNft { source: a, destination: b, authority: c });
    let missing = AccountSnapshot { key: addr(&key(4)), owner: a, is_signer: false, data: vec![] };
    assert_eq!(
        create_associated_token_account_if_needed(&a, &b, &c, &missing),
        Some(Action::CreateAssociatedTokenAccount { payer: a, wallet: b, mint: c, token_account: addr(&key(4)) })
    );
    let present = AccountSnapshot { data: vec![0], ..missing };
    assert_eq!(create_associated_token_account_if_needed(&a, &b, &c, &present), None);
}

#[test]
fn an_account_stands_at_the_derived_address_or_is_refused() {
    let account = owned_by(key(5));
    let refused = Err(custom(SwapError::InvalidAccountData));
    assert_eq!(check_derived_address(&account, Some((addr(&key(1)), 254))), Ok(254));
    assert_eq!(check_derived_address(&account, Some((addr(&key(1)), 0))), Ok(0));
    assert_eq!(check_derived_address(&account, Some((addr(&key(2)), 254))), refused);
    assert_eq!(check_derived_address(&account, None), refused);
}
