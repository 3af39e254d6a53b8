use nft_swap::address::Address;
use nft_swap::error::{ProgramError, SwapError};
use nft_swap::instruction::SwapInstruction;
use nft_swap::processor::{
    check_program_not_paused, locate_program_config, locate_record, process_instruction, process_instruction_data,
    Processor,
    CONFIG_SPACE,
};
use nft_swap::state::{ProgramConfig, StepStatus, TradeLoop, TradeStep};
use nft_swap::utils::{AccountSnapshot, Action};
use solana_program::program_option::COption;
use solana_program::program_pack::Pack;
use solana_program::pubkey::Pubkey;
use spl_associated_token_account::get_associated_token_address;
use spl_token::state::{Account, AccountState, Mint};

const NOW: u64 = 1_000;

fn key(tag: u8) -> Pubkey {
    Pubkey::new_from_array([tag; 32])
}

fn addr(key: &Pubkey) -> Address {
    Address::new(key.to_bytes())
}

fn program() -> Pubkey {
    key(200)
}

fn custom(error: SwapError) -> ProgramError {
    ProgramError::Custom(error)
}

fn wallet(owner: Pubkey, signer: bool) -> AccountSnapshot {
    AccountSnapshot {
        key: addr(&owner),
        owner: addr(&solana_program::system_program::id()),
        is_signer: signer,
        data: vec![],
    }
}

fn named(id: Pubkey) -> AccountSnapshot {
    AccountSnapshot { key: addr(&id), owner: addr(&key(250)), is_signer: false, data: vec![] }
}

fn record_account() -> AccountSnapshot {
    AccountSnapshot { key: addr(&key(201)), owner: addr(&program()), is_signer: false, data: vec![1; 676] }
}

fn mint_account(mint: Pubkey, supply: u64, decimals: u8) -> AccountSnapshot {
    let state = Mint {
        mint_authority: COption::None,
        supply,
        decimals,
        is_initialized: true,
        freeze_authority: COption::None,
    };
    let mut data = vec![0u8; Mint::LEN];
    Mint::pack(state, &mut data).unwrap();
    AccountSnapshot { key: addr(&mint), owner: addr(&spl_token::id()), is_signer: false, data }
}

fn token_account(holder: Pubkey, mint: Pubkey, amount: u64) -> AccountSnapshot {
    let state = Account {
        mint,
        owner: holder,
        amount,
        delegate: COption::None,
        state: AccountState::Initialized,
        is_native: COption::None,
        delegated_amount: 0,
        close_authority: COption::None,
    };
    let mut data = vec![0u8; Account::LEN];
    Account::pack(state, &mut data).unwrap();
    AccountSnapshot {
        key: addr(&get_associated_token_address(&holder, &mint)),
        owner: addr(&spl_token::id()),
        is_signer: false,
        data,
    }
}

fn missing_token_account(holder: Pubkey, mint: Pubkey) -> AccountSnapshot {
    AccountSnapshot {
        key: addr(&get_associated_token_address(&holder, &mint)),
        owner: addr(&solana_program::system_program::id()),
        is_signer: false,
        data: vec![],
    }
}

fn config_account() -> AccountSnapshot {
    let (config_key, _) = Pubkey::find_program_address(&[b"config"], &program());
    AccountSnapshot { key: addr(&config_key), owner: addr(&program()), is_signer: false, data: vec![1; CONFIG_SPACE] }
}

fn config(paused: bool) -> ProgramConfig {
    ProgramConfig {
        is_initialized: true,
        version: 1,
        upgrade_authority: addr(&key(90)),
        governance: Some(addr(&key(91))),
        paused,
    }
}

fn add_accounts(from: Pubkey, mint: Pubkey) -> Vec<AccountSnapshot> {
    vec![
        wallet(from, true),
        record_account(),
        named(spl_token::id()),
        mint_account(mint, 1, 0),
        token_account(from, mint, 1),
    ]
}

/// The ring 1 -> 2 -> 3 -> 1 with the assets 11, 12 and 13, every step approved.
fn approved_ring() -> Option<TradeLoop> {
    let program_id = addr(&program());
    let mut record = None;
    let accounts =
        vec![wallet(key(1), true), AccountSnapshot { data: vec![], ..record_account() }, named(key(0)), named(key(0))];
    Processor::process_initialize_trade_loop(&program_id, &accounts, &None, &mut record, NOW, [5; 32], 3, 86_400)
        .unwrap();
    for step in 0..3u8 {
        let from = key(step + 1);
        let to = key((step + 1) % 3 + 1);
        let mint = key(11 + step);
        let added = Processor::process_add_trade_step(
            &program_id,
            &add_accounts(from, mint),
            &None,
            &mut record,
            step,
            addr(&to),
            vec![addr(&mint)],
        );
        assert_eq!(added, Ok(vec![]));
    }
    for step in 0..3u8 {
        let accounts = vec![wallet(key(step + 1), true), record_account(), named(key(0))];
        let approved =
            Processor::process_approve_trade_step(&program_id, &accounts, &None, &mut record, NOW + 1, step);
        assert_eq!(approved, Ok(vec![]));
    }
    record
}

fn full_accounts() -> Vec<AccountSnapshot> {
    let mut accounts = vec![
        wallet(key(77), true),
        record_account(),
        named(spl_token::id()),
        named(spl_associated_token_account::id()),
        named(solana_program::system_program::id()),
        named(solana_program::sysvar::rent::id()),
        named(solana_program::sysvar::clock::id()),
    ];
    for step in 0..3u8 {
        let from = key(step + 1);
        let to = key((step + 1) % 3 + 1);
        let mint = key(11 + step);
        accounts.push(wallet(from, false));
        accounts.push(wallet(to, false));
        accounts.push(mint_account(mint, 1, 0));
        accounts.push(token_account(from, mint, 1));
        accounts.push(missing_token_account(to, mint));
    }
    accounts
}

fn step_accounts(step: u8) -> Vec<AccountSnapshot> {
    let from = key(step + 1);
    let to = key((step + 1) % 3 + 1);
    let mint = key(11 + step);
    vec![
        wallet(key(77), true),
        record_account(),
        wallet(from, false),
        wallet(to, false),
        named(spl_token::id()),
        named(spl_associated_token_account::id()),
        named(solana_program::system_program::id()),
        named(solana_program::sysvar::rent::id()),
        mint_account(mint, 1, 0),
        token_account(from, mint, 1),
        token_account(to, mint, 0),
    ]
}

#[test]
fn initialization_creates_the_record() {
    let program_id = addr(&program());
    let mut record = None;
    let accounts =
        vec![wallet(key(1), true), AccountSnapshot { data: vec![], ..record_account() }, named(key(0)), named(key(0))];
    let created =
        Processor::process_initialize_trade_loop(&program_id, &accounts, &None, &mut record, NOW, [5; 32], 3, 86_400);
    assert_eq!(
        created,
        Ok(vec![Action::CreateAccount {
            payer: addr(&key(1)),
            new_account: addr(&key(201)),
            space: 676,
            owner: program_id,
        }])
    );
    assert_eq!(record, Some(TradeLoop::initialize([5; 32], 3, 86_400, NOW, addr(&key(1))).unwrap()));
}

#[test]
fn initialization_is_refused() {
    let program_id = addr(&program());
    let good =
        vec![wallet(key(1), true), AccountSnapshot { data: vec![], ..record_account() }, named(key(0)), named(key(0))];
    let run = |accounts: &Vec<AccountSnapshot>, step_count: u8, timeout: u64, now: u64| {
        let mut record = None;
        let done =
            Processor::process_initialize_trade_loop(&program_id, accounts, &None, &mut record, now, [5; 32], step_count, timeout);
        assert!(done.is_ok() || record.is_none());
        done
    };
    assert_eq!(run(&good, 0, 10, NOW), Err(custom(SwapError::InvalidInstructionData)));
    assert_eq!(run(&good, 12, 10, NOW), Err(custom(SwapError::TooManyParticipants)));
    assert_eq!(run(&good, 200, u64::MAX, NOW), Err(custom(SwapError::TooManyParticipants)));
    assert_eq!(run(&good, 3, 2_592_001, NOW), Err(custom(SwapError::InvalidInstructionData)));
    assert_eq!(run(&good, 3, 10, u64::MAX), Err(custom(SwapError::InvalidInstructionData)));
    assert_eq!(run(&good[..3].to_vec(), 3, 10, NOW), Err(ProgramError::NotEnoughAccountKeys));
    let mut taken = good.to_vec();
    taken[1].data = vec![0; 8];
    assert_eq!(run(&taken, 3, 10, NOW), Err(custom(SwapError::InvalidAccountData)));
    let mut unsigned = good.to_vec();
    unsigned[0].is_signer = false;
    assert_eq!(run(&unsigned, 3, 10, NOW), Err(ProgramError::MissingRequiredSignature));
    assert_eq!(run(&vec![], 0, 10, NOW), Err(custom(SwapError::InvalidInstructionData)));
}

#[test]
fn three_participants_settle_a_ring_on_the_ledger() {
    let program_id = addr(&program());
    let mut record = approved_ring();
    let before = record.clone();
    let executed = Processor::process_execute_full_trade_loop(&program_id, &full_accounts(), &None, &mut record, NOW + 2);
    let mut expected = Vec::new();
    for step in 0..3u8 {
        let from = key(step + 1);
        let to = key((step + 1) % 3 + 1);
        let mint = key(11 + step);
        expected.push(Action::CreateAssociatedTokenAccount {
            payer: addr(&key(77)),
            wallet: addr(&to),
            mint: addr(&mint),
            token_account: addr(&get_associated_token_address(&to, &mint)),
        });
        expected.push(Action::TransferNft {
            source: addr(&get_associated_token_address(&from, &mint)),
            destination: addr(&get_associated_token_address(&to, &mint)),
            authority: addr(&from),
        });
    }
    assert_eq!(executed, Ok(expected));
    let after = record.unwrap();
    let before = before.unwrap();
    assert_eq!(after.steps.len(), 3);
    for (step, old) in after.steps.iter().zip(before.steps.iter()) {
        assert_eq!(step.status, StepStatus::Executed);
        assert_eq!(old.status, StepStatus::Approved);
        assert_eq!(step.from, old.from);
        assert_eq!(step.to, old.to);
        assert_eq!(step.nft_mints, old.nft_mints);
    }
}

#[test]
fn a_failing_transfer_leaves_the_whole_loop_untouched() {
    let program_id = addr(&program());
    let mut record = approved_ring();
    let before = record.clone();
    let mut accounts = full_accounts();
    // the third step's sender no longer holds the asset
    accounts[7 + 2 * 5 + 3] = token_account(key(3), key(13), 0);
    let executed = Processor::process_execute_full_trade_loop(&program_id, &accounts, &None, &mut record, NOW + 2);
    assert_eq!(executed, Err(custom(SwapError::InsufficientFunds)));
    assert_eq!(record, before);
    let mut accounts = full_accounts();
    accounts.truncate(7 + 2 * 5 + 4);
    let executed = Processor::process_execute_full_trade_loop(&program_id, &accounts, &None, &mut record, NOW + 2);
    assert_eq!(executed, Err(ProgramError::NotEnoughAccountKeys));
    assert_eq!(record, before);
    let mut accounts = full_accounts();
    accounts[7 + 5] = wallet(key(9), false);
    let executed = Processor::process_execute_full_trade_loop(&program_id, &accounts, &None, &mut record, NOW + 2);
    assert_eq!(executed, Err(custom(SwapError::InvalidAccountData)));
    assert_eq!(record, before);
}

#[test]
fn the_whole_loop_is_refused() {
    let program_id = addr(&program());
    let ring = approved_ring();
    let run = |accounts: Vec<AccountSnapshot>, record: &Option<TradeLoop>, now: u64| {
        let mut record = record.clone();
        let before = record.clone();
        let done = Processor::process_execute_full_trade_loop(&program_id, &accounts, &None, &mut record, now);
        if done.is_err() {
            assert_eq!(record, before);
        }
        done
    };
    assert_eq!(run(full_accounts()[..6].to_vec(), &ring, NOW), Err(ProgramError::NotEnoughAccountKeys));
    let mut accounts = full_accounts();
    accounts[0].is_signer = false;
    assert_eq!(run(accounts, &ring, NOW), Err(ProgramError::MissingRequiredSignature));
    let mut accounts = full_accounts();
    accounts[1].owner = addr(&key(9));
    assert_eq!(run(accounts, &ring, NOW), Err(custom(SwapError::InvalidAccountOwner)));
    for program_account in 2..5 {
        let mut accounts = full_accounts();
        accounts[program_account] = named(key(9));
        assert_eq!(run(accounts, &ring, NOW), Err(custom(SwapError::IncorrectProgramId)));
    }
    assert_eq!(run(full_accounts(), &None, NOW), Err(ProgramError::BorshIoError));
    assert_eq!(run(full_accounts(), &Some(TradeLoop::erased()), NOW), Err(custom(SwapError::UninitializedAccount)));
    assert_eq!(run(full_accounts(), &ring, NOW + 86_400), Err(custom(SwapError::TradeTimeoutExceeded)));
    let mut unapproved = ring.clone();
    unapproved.as_mut().unwrap().steps[1].status = StepStatus::Created;
    assert_eq!(run(full_accounts(), &unapproved, NOW), Err(custom(SwapError::MissingApprovals)));
    let mut open = ring.clone();
    open.as_mut().unwrap().steps[2].to = addr(&key(9));
    assert_eq!(run(full_accounts(), &open, NOW), Err(custom(SwapError::TradeLoopVerificationFailed)));
    let mut fake = full_accounts();
    fake[7 + 2] = mint_account(key(11), 2, 0);
    assert_eq!(run(fake, &ring, NOW), Err(custom(SwapError::InvalidMetadataAccount)));
    assert!(run(full_accounts(), &ring, NOW).is_ok());
}

#[test]
fn one_step_is_executed() {
    let program_id = addr(&program());
    let mut record = approved_ring();
    let executed =
        Processor::process_execute_trade_step(&program_id, &step_accounts(1), &None, &mut record, NOW + 2, 1);
    assert_eq!(
        executed,
        Ok(vec![Action::TransferNft {
            source: addr(&get_associated_token_address(&key(2), &key(12))),
            destination: addr(&get_associated_token_address(&key(3), &key(12))),
            authority: addr(&key(2)),
        }])
    );
    let after = record.clone().unwrap();
    assert_eq!(
        after.steps.iter().map(|s| s.status).collect::<Vec<_>>(),
        vec![StepStatus::Approved, StepStatus::Executed, StepStatus::Approved]
    );
    let again =
        Processor::process_execute_trade_step(&program_id, &step_accounts(1), &None, &mut record, NOW + 2, 1);
    assert_eq!(again, Err(custom(SwapError::StepAlreadyExecuted)));
    assert_eq!(record, Some(after));
}

#[test]
fn one_step_is_refused() {
    let program_id = addr(&program());
    let ring = approved_ring();
    let run = |accounts: Vec<AccountSnapshot>, record: &Option<TradeLoop>, now: u64, step: u8| {
        let mut record = record.clone();
        let before = record.clone();
        let done = Processor::process_execute_trade_step(&program_id, &accounts, &None, &mut record, now, step);
        if done.is_err() {
            assert_eq!(record, before);
        }
        done
    };
    assert_eq!(run(step_accounts(0)[..7].to_vec(), &ring, NOW, 0), Err(ProgramError::NotEnoughAccountKeys));
    assert_eq!(run(step_accounts(0)[..10].to_vec(), &ring, NOW, 0), Err(ProgramError::NotEnoughAccountKeys));
    for program_account in 4..7 {
        let mut accounts = step_accounts(0);
        accounts[program_account] = named(key(9));
        assert_eq!(run(accounts, &ring, NOW, 0), Err(custom(SwapError::IncorrectProgramId)));
    }
    assert_eq!(run(step_accounts(0), &ring, NOW, 3), Err(custom(SwapError::InvalidInstructionData)));
    assert_eq!(run(step_accounts(0), &ring, NOW, 1), Err(custom(SwapError::InvalidAccountData)));
    assert_eq!(run(step_accounts(0), &ring, NOW + 86_400, 0), Err(custom(SwapError::TradeTimeoutExceeded)));
    let mut created = ring.clone();
    created.as_mut().unwrap().steps[0].status = StepStatus::Created;
    assert_eq!(run(step_accounts(0), &created, NOW, 0), Err(custom(SwapError::MissingApprovals)));
    let mut accounts = step_accounts(0);
    accounts[8] = mint_account(key(12), 1, 0);
    assert_eq!(run(accounts, &ring, NOW, 0), Err(custom(SwapError::InvalidAccountData)));
    let mut accounts = step_accounts(0);
    accounts[8] = mint_account(key(11), 1, 2);
    assert_eq!(run(accounts, &ring, NOW, 0), Err(custom(SwapError::InvalidMetadataAccount)));
    let mut accounts = step_accounts(0);
    accounts[9].owner = addr(&key(9));
    assert_eq!(run(accounts, &ring, NOW, 0), Err(custom(SwapError::InvalidAccountOwner)));
    let mut accounts = step_accounts(0);
    accounts[9] = token_account(key(2), key(11), 1);
    assert_eq!(run(accounts, &ring, NOW, 0), Err(custom(SwapError::InvalidAccountData)));
    let mut accounts = step_accounts(0);
    accounts[10] = token_account(key(3), key(11), 0);
    assert_eq!(run(accounts, &ring, NOW, 0), Err(custom(SwapError::InvalidAccountData)));
    let mut accounts = step_accounts(0);
    accounts[9].data = vec![0; 165];
    assert_eq!(run(accounts, &ring, NOW, 0), Err(ProgramError::UninitializedAccount));
    let mut accounts = step_accounts(0);
    accounts[9].data = vec![0; 10];
    assert_eq!(run(accounts, &ring, NOW, 0), Err(ProgramError::InvalidAccountData));
    let mut accounts = step_accounts(0);
    accounts[9].data = token_account(key(2), key(11), 1).data;
    assert_eq!(run(accounts, &ring, NOW, 0), Err(custom(SwapError::InvalidAccountOwner)));
    let mut accounts = step_accounts(0);
    accounts[9].data = token_account(key(1), key(12), 1).data;
    assert_eq!(run(accounts, &ring, NOW, 0), Err(custom(SwapError::InvalidAccountData)));
    let mut accounts = step_accounts(0);
    accounts[9] = token_account(key(1), key(11), 0);
    assert_eq!(run(accounts, &ring, NOW, 0), Err(custom(SwapError::InsufficientFunds)));
    assert!(run(step_accounts(0), &ring, NOW, 0).is_ok());
}

#[test]
fn a_step_is_added_only_with_assets_that_the_signer_holds() {
    let program_id = addr(&program());
    let start = Some(TradeLoop::initialize([5; 32], 3, 86_400, NOW, addr(&key(1))).unwrap());
    let run = |accounts: Vec<AccountSnapshot>, record: &Option<TradeLoop>, step: u8, mints: Vec<Address>| {
        let mut record = record.clone();
        let before = record.clone();
        let done =
            Processor::process_add_trade_step(&program_id, &accounts, &None, &mut record, step, addr(&key(2)), mints);
        if done.is_err() {
            assert_eq!(record, before);
        }
        (done, record)
    };
    let mint = addr(&key(11));
    let good = || add_accounts(key(1), key(11));
    let (done, record) = run(good(), &start, 0, vec![mint]);
    assert_eq!(done, Ok(vec![]));
    assert_eq!(
        record.unwrap().steps,
        vec![TradeStep { from: addr(&key(1)), to: addr(&key(2)), nft_mints: vec![mint], status: StepStatus::Created }]
    );
    assert_eq!(run(good()[..2].to_vec(), &start, 0, vec![mint]).0, Err(ProgramError::NotEnoughAccountKeys));
    assert_eq!(run(good()[..4].to_vec(), &start, 0, vec![mint]).0, Err(ProgramError::NotEnoughAccountKeys));
    let mut accounts = good();
    accounts[0].is_signer = false;
    assert_eq!(run(accounts, &start, 0, vec![mint]).0, Err(ProgramError::MissingRequiredSignature));
    let mut accounts = good();
    accounts[2] = named(key(9));
    assert_eq!(run(accounts, &start, 0, vec![mint]).0, Err(custom(SwapError::IncorrectProgramId)));
    let mut accounts = good();
    accounts[1].owner = addr(&key(9));
    assert_eq!(run(accounts, &start, 0, vec![mint]).0, Err(custom(SwapError::InvalidAccountOwner)));
    assert_eq!(run(good(), &None, 0, vec![mint]).0, Err(ProgramError::BorshIoError));
    assert_eq!(
        run(good(), &Some(TradeLoop::erased()), 0, vec![mint]).0,
        Err(custom(SwapError::UninitializedAccount))
    );
    assert_eq!(run(good(), &start, 3, vec![mint]).0, Err(custom(SwapError::InvalidInstructionData)));
    assert_eq!(run(good(), &start, 0, vec![]).0, Err(custom(SwapError::InvalidInstructionData)));
    assert_eq!(run(good(), &start, 0, vec![mint, mint]).0, Err(custom(SwapError::InvalidInstructionData)));
    assert_eq!(run(good(), &start, 0, vec![addr(&key(12))]).0, Err(custom(SwapError::InvalidAccountData)));
    let mut accounts = good();
    accounts[4] = token_account(key(1), key(11), 0);
    assert_eq!(run(accounts, &start, 0, vec![mint]).0, Err(custom(SwapError::InsufficientFunds)));
    let mut accounts = good();
    accounts[3] = mint_account(key(11), 5, 0);
    assert_eq!(run(accounts, &start, 0, vec![mint]).0, Err(custom(SwapError::InvalidMetadataAccount)));
    let mut accounts = good();
    accounts[3].owner = addr(&key(9));
    assert_eq!(run(accounts, &start, 0, vec![mint]).0, Err(custom(SwapError::InvalidMetadataAccount)));
    let mut accounts = good();
    accounts[3].data = vec![0; 82];
    assert_eq!(run(accounts, &start, 0, vec![mint]).0, Err(custom(SwapError::InvalidMetadataAccount)));
    let mut accounts = good();
    accounts.push(mint_account(key(12), 1, 0));
    accounts.push(token_account(key(1), key(12), 1));
    let (done, record) = run(accounts, &start, 0, vec![mint, addr(&key(12))]);
    assert_eq!(done, Ok(vec![]));
    assert_eq!(record.unwrap().steps[0].nft_mints, vec![mint, addr(&key(12))]);
}

#[test]
fn the_step_that_completes_the_loop_must_close_it() {
    let program_id = addr(&program());
    let mut record = Some(TradeLoop::initialize([5; 32], 2, 86_400, NOW, addr(&key(1))).unwrap());
    let first = Processor::process_add_trade_step(
        &program_id,
        &add_accounts(key(1), key(11)),
        &None,
        &mut record,
        0,
        addr(&key(2)),
        vec![addr(&key(11))],
    );
    assert_eq!(first, Ok(vec![]));
    let before = record.clone();
    let open = Processor::process_add_trade_step(
        &program_id,
        &add_accounts(key(2), key(12)),
        &None,
        &mut record,
        1,
        addr(&key(3)),
        vec![addr(&key(12))],
    );
    assert_eq!(open, Err(custom(SwapError::TradeLoopVerificationFailed)));
    assert_eq!(record, before);
    let closed = Processor::process_add_trade_step(
        &program_id,
        &add_accounts(key(2), key(12)),
        &None,
        &mut record,
        1,
        addr(&key(1)),
        vec![addr(&key(12))],
    );
    assert_eq!(closed, Ok(vec![]));
    assert!(record.unwrap().verify_loop());
}

#[test]
fn approval_on_the_ledger() {
    let program_id = addr(&program());
    let start = {
        let mut trade_loop = TradeLoop::initialize([5; 32], 3, 86_400, NOW, addr(&key(1))).unwrap();
        trade_loop.add_step(0, addr(&key(1)), addr(&key(2)), vec![addr(&key(11))]).unwrap();
        Some(trade_loop)
    };
    let run = |accounts: Vec<AccountSnapshot>, record: &Option<TradeLoop>, now: u64, step: u8| {
        let mut record = record.clone();
        let before = record.clone();
        let done = Processor::process_approve_trade_step(&program_id, &accounts, &None, &mut record, now, step);
        if done.is_err() {
            assert_eq!(record, before);
        }
        (done, record)
    };
    let good = || vec![wallet(key(1), true), record_account(), named(solana_program::sysvar::clock::id())];
    let (done, record) = run(good(), &start, NOW, 0);
    assert_eq!(done, Ok(vec![]));
    assert_eq!(record.as_ref().unwrap().steps[0].status, StepStatus::Approved);
    let (again, same) = run(good(), &record, NOW + 5, 0);
    assert_eq!(again, Ok(vec![]));
    assert_eq!(same, record);
    assert_eq!(run(good()[..2].to_vec(), &start, NOW, 0).0, Err(ProgramError::NotEnoughAccountKeys));
    let mut accounts = good();
    accounts[0].is_signer = false;
    assert_eq!(run(accounts, &start, NOW, 0).0, Err(ProgramError::MissingRequiredSignature));
    let mut accounts = good();
    accounts[1].owner = addr(&key(9));
    assert_eq!(run(accounts, &start, NOW, 0).0, Err(custom(SwapError::InvalidAccountOwner)));
    assert_eq!(run(good(), &None, NOW, 0).0, Err(ProgramError::BorshIoError));
    assert_eq!(run(good(), &Some(TradeLoop::erased()), NOW, 0).0, Err(custom(SwapError::UninitializedAccount)));
    assert_eq!(run(good(), &start, NOW + 86_400, 0).0, Err(custom(SwapError::TradeTimeoutExceeded)));
    assert_eq!(run(good(), &start, NOW, 1).0, Err(custom(SwapError::InvalidInstructionData)));
    let mut accounts = good();
    accounts[0] = wallet(key(2), true);
    assert_eq!(run(accounts, &start, NOW, 0).0, Err(custom(SwapError::InvalidAccountOwner)));
}

#[test]
fn cancellation_on_the_ledger() {
    let program_id = addr(&program());
    let start = {
        let mut trade_loop = TradeLoop::initialize([5; 32], 3, 86_400, NOW, addr(&key(1))).unwrap();
        trade_loop.add_step(0, addr(&key(1)), addr(&key(2)), vec![addr(&key(11))]).unwrap();
        trade_loop.add_step(1, addr(&key(2)), addr(&key(3)), vec![addr(&key(12))]).unwrap();
        Some(trade_loop)
    };
    let run = |accounts: Vec<AccountSnapshot>, record: &Option<TradeLoop>| {
        let mut record = record.clone();
        let before = record.clone();
        let done = Processor::process_cancel_trade_loop(&program_id, &accounts, &None, &mut record);
        if done.is_err() {
            assert_eq!(record, before);
        }
        (done, record)
    };
    let by = |who: u8| vec![wallet(key(who), true), record_account()];
    let (done, record) = run(by(1), &start);
    assert_eq!(done, Ok(vec![]));
    assert_eq!(record, Some(TradeLoop::erased()));
    assert_eq!(run(by(9), &start).0, Err(custom(SwapError::InvalidAccountOwner)));
    let mut approved = start.clone();
    approved.as_mut().unwrap().steps[1].status = StepStatus::Approved;
    assert_eq!(run(by(1), &approved).0, Err(custom(SwapError::CancellationDenied)));
    assert_eq!(run(by(2), &approved).0, Err(custom(SwapError::CancellationDenied)));
    assert_eq!(run(by(9), &approved).0, Err(custom(SwapError::CancellationDenied)));
    assert_eq!(run(by(1)[..1].to_vec(), &start).0, Err(ProgramError::NotEnoughAccountKeys));
    let mut accounts = by(1);
    accounts[0].is_signer = false;
    assert_eq!(run(accounts, &start).0, Err(ProgramError::MissingRequiredSignature));
    let mut accounts = by(1);
    accounts[1].owner = addr(&key(9));
    assert_eq!(run(accounts, &start).0, Err(custom(SwapError::InvalidAccountOwner)));
    assert_eq!(run(by(1), &None).0, Err(ProgramError::BorshIoError));
    assert_eq!(run(by(1), &Some(TradeLoop::erased())).0, Err(custom(SwapError::UninitializedAccount)));
}

#[test]
fn a_paused_program_refuses_participants() {
    let program_id = addr(&program());
    let mut accounts = vec![wallet(key(1), true), record_account(), named(key(0))];
    assert_eq!(locate_program_config(&program_id, &accounts), None);
    assert_eq!(check_program_not_paused(&program_id, &accounts, &Some(config(true))), Ok(()));
    accounts.push(config_account());
    assert_eq!(locate_program_config(&program_id, &accounts), Some(3));
    assert_eq!(check_program_not_paused(&program_id, &accounts, &Some(config(false))), Ok(()));
    assert_eq!(
        check_program_not_paused(&program_id, &accounts, &Some(config(true))),
        Err(custom(SwapError::InvalidInstructionData))
    );
    assert_eq!(
        check_program_not_paused(&program_id, &accounts, &None),
        Err(custom(SwapError::InvalidAccountData))
    );
    let mut record = approved_ring();
    let before = record.clone();
    let paused = Some(config(true));
    assert_eq!(
        Processor::process_approve_trade_step(&program_id, &accounts, &paused, &mut record, NOW, 0),
        Err(custom(SwapError::InvalidInstructionData))
    );
    assert_eq!(
        Processor::process_cancel_trade_loop(&program_id, &accounts, &paused, &mut record),
        Err(custom(SwapError::InvalidInstructionData))
    );
    let mut full = full_accounts();
    full.push(config_account());
    assert_eq!(
        Processor::process_execute_full_trade_loop(&program_id, &full, &paused, &mut record, NOW),
        Err(custom(SwapError::InvalidInstructionData))
    );
    assert_eq!(
        Processor::process_initialize_trade_loop(&program_id, &accounts, &paused, &mut record, NOW, [1; 32], 0, 1),
        Err(custom(SwapError::InvalidInstructionData))
    );
    assert_eq!(record, before);
    // an account at the right address that another program owns, or that is empty, is no configuration
    let mut foreign = config_account();
    foreign.owner = addr(&key(9));
    let mut empty = config_account();
    empty.data = vec![];
    let others = vec![foreign, empty, config_account()];
    assert_eq!(locate_program_config(&program_id, &others), Some(2));
    assert_eq!(locate_program_config(&program_id, &others[..2].to_vec()), None);
    assert_eq!(check_program_not_paused(&program_id, &others[..2].to_vec(), &Some(config(true))), Ok(()));
}

#[test]
fn the_configuration_is_created() {
    let program_id = addr(&program());
    let (config_key, bump) = Pubkey::find_program_address(&[b"config"], &program());
    let good = || {
        vec![
            wallet(key(90), true),
            AccountSnapshot { data: vec![], ..config_account() },
            named(solana_program::sysvar::rent::id()),
            named(solana_program::system_program::id()),
        ]
    };
    let mut stored = None;
    let created =
        Processor::process_initialize_program_config(&program_id, &good(), &mut stored, Some(addr(&key(91))));
    assert_eq!(
        created,
        Ok(vec![Action::CreateConfigAccount {
            payer: addr(&key(90)),
            config: addr(&config_key),
            space: 96,
            owner: program_id,
            bump_seed: bump,
        }])
    );
    assert_eq!(stored, Some(config(false)));
    let run = |accounts: Vec<AccountSnapshot>| {
        let mut stored = None;
        let done = Processor::process_initialize_program_config(&program_id, &accounts, &mut stored, None);
        assert!(done.is_ok() || stored.is_none());
        done
    };
    assert!(run(good()).is_ok());
    assert_eq!(run(good()[..3].to_vec()), Err(ProgramError::NotEnoughAccountKeys));
    let mut accounts = good();
    accounts[0].is_signer = false;
    assert_eq!(run(accounts), Err(ProgramError::MissingRequiredSignature));
    let mut accounts = good();
    accounts[3] = named(key(9));
    assert_eq!(run(accounts), Err(custom(SwapError::IncorrectProgramId)));
    let mut accounts = good();
    accounts[1].key = addr(&key(9));
    assert_eq!(run(accounts), Err(custom(SwapError::InvalidAccountData)));
    let mut accounts = good();
    accounts[1].data = vec![1];
    assert_eq!(run(accounts), Err(custom(SwapError::InvalidAccountData)));
}

#[test]
fn the_configuration_is_changed_by_its_authorities_only() {
    let program_id = addr(&program());
    let by = |who: u8| vec![wallet(key(who), true), config_account()];
    let run = |accounts: Vec<AccountSnapshot>,
               stored: Option<ProgramConfig>,
               authority: Option<Address>,
               governance: Option<Address>,
               paused: Option<bool>| {
        let mut after = stored;
        let done = Processor::process_update_program_config(
            &program_id,
            &accounts,
            &mut after,
            authority,
            governance,
            paused,
        );
        if done.is_err() {
            assert_eq!(after, stored);
        }
        (done, after)
    };
    let (done, after) = run(by(90), Some(config(false)), None, None, Some(true));
    assert_eq!(done, Ok(vec![]));
    assert_eq!(after, Some(config(true)));
    let (done, after) = run(by(91), Some(config(false)), Some(addr(&key(92))), Some(addr(&key(93))), None);
    assert_eq!(done, Ok(vec![]));
    assert_eq!(
        after,
        Some(ProgramConfig {
            is_initialized: true,
            version: 1,
            upgrade_authority: addr(&key(92)),
            governance: Some(addr(&key(93))),
            paused: false,
        })
    );
    let (done, after) = run(by(90), Some(config(true)), None, None, None);
    assert_eq!(done, Ok(vec![]));
    assert_eq!(after, Some(config(true)));
    assert_eq!(
        run(by(92), Some(config(false)), None, None, Some(true)).0,
        Err(custom(SwapError::UpgradeAuthorityMismatch))
    );
    let alone = ProgramConfig { governance: None, ..config(false) };
    assert_eq!(run(by(91), Some(alone), None, None, Some(true)).0, Err(custom(SwapError::UpgradeAuthorityMismatch)));
    assert_eq!(run(by(90)[..1].to_vec(), Some(config(false)), None, None, None).0, Err(ProgramError::NotEnoughAccountKeys));
    let mut accounts = by(90);
    accounts[0].is_signer = false;
    assert_eq!(run(accounts, Some(config(false)), None, None, None).0, Err(ProgramError::MissingRequiredSignature));
    let mut accounts = by(90);
    accounts[1].owner = addr(&key(9));
    assert_eq!(run(accounts, Some(config(false)), None, None, None).0, Err(custom(SwapError::InvalidAccountOwner)));
    let mut accounts = by(90);
    accounts[1].key = addr(&key(9));
    assert_eq!(run(accounts, Some(config(false)), None, None, None).0, Err(custom(SwapError::InvalidAccountData)));
    assert_eq!(run(by(90), None, None, None, None).0, Err(ProgramError::BorshIoError));
    let blank = ProgramConfig { is_initialized: false, ..config(false) };
    assert_eq!(run(by(90), Some(blank), None, None, None).0, Err(custom(SwapError::UninitializedAccount)));
}

#[test]
fn the_program_is_upgraded_to_greater_versions_only() {
    let program_id = addr(&program());
    let by = |who: u8| {
        vec![
            wallet(key(who), true),
            named(key(30)),
            named(key(31)),
            named(key(32)),
            named(solana_program::sysvar::rent::id()),
            named(solana_program::sysvar::clock::id()),
            named(solana_program::bpf_loader_upgradeable::id()),
            config_account(),
        ]
    };
    let run = |accounts: Vec<AccountSnapshot>, stored: Option<ProgramConfig>, version: u32| {
        let mut after = stored;
        let done = Processor::process_upgrade_program(&program_id, &accounts, &mut after, version);
        if done.is_err() {
            assert_eq!(after, stored);
        }
        (done, after)
    };
    let (done, after) = run(by(90), Some(config(false)), 2);
    assert_eq!(
        done,
        Ok(vec![Action::UpgradeProgram {
            program: addr(&key(31)),
            buffer: addr(&key(32)),
            authority: addr(&key(90)),
            spill: addr(&solana_program::sysvar::rent::id()),
        }])
    );
    assert_eq!(after, Some(ProgramConfig { version: 2, ..config(false) }));
    assert!(run(by(91), Some(config(true)), u32::MAX).0.is_ok());
    assert_eq!(run(by(90), Some(config(false)), 1).0, Err(custom(SwapError::InvalidProgramVersion)));
    assert_eq!(run(by(90), Some(config(false)), 0).0, Err(custom(SwapError::InvalidProgramVersion)));
    assert_eq!(run(by(92), Some(config(false)), 2).0, Err(custom(SwapError::UpgradeAuthorityMismatch)));
    assert_eq!(run(by(90)[..7].to_vec(), Some(config(false)), 2).0, Err(ProgramError::NotEnoughAccountKeys));
    let mut accounts = by(90);
    accounts[0].is_signer = false;
    assert_eq!(run(accounts, Some(config(false)), 2).0, Err(ProgramError::MissingRequiredSignature));
    let mut accounts = by(90);
    accounts[7].key = addr(&key(9));
    assert_eq!(run(accounts, Some(config(false)), 2).0, Err(custom(SwapError::InvalidAccountData)));
    let mut accounts = by(90);
    accounts[7].owner = addr(&key(9));
    assert_eq!(run(accounts, Some(config(false)), 2).0, Err(custom(SwapError::InvalidAccountOwner)));
    assert_eq!(run(by(90), None, 2).0, Err(ProgramError::BorshIoError));
    let blank = ProgramConfig { is_initialized: false, ..config(false) };
    assert_eq!(run(by(90), Some(blank), 2).0, Err(custom(SwapError::UninitializedAccount)));
    let mut accounts = by(90);
    accounts[6] = named(key(9));
    assert_eq!(run(accounts, Some(config(false)), 2).0, Err(custom(SwapError::IncorrectProgramId)));
}

#[test]
fn an_instruction_runs_its_operation() {
    let program_id = addr(&program());
    let mut record = approved_ring();
    let mut stored = Some(config(false));
    let done = process_instruction(
        &program_id,
        &full_accounts(),
        &None,
        &mut record,
        &mut stored,
        NOW + 2,
        SwapInstruction::ExecuteFullTradeLoop {},
    );
    assert_eq!(done.unwrap().len(), 6);
    assert!(record.as_ref().unwrap().steps.iter().all(|s| s.status == StepStatus::Executed));
    assert_eq!(stored, Some(config(false)));

    let before = record.clone();
    let accounts = vec![wallet(key(90), true), config_account()];
    let bytes = SwapInstruction::UpdateProgramConfig {
        new_upgrade_authority: None,
        new_governance: None,
        new_paused_state: Some(true),
    }
    .pack_versioned();
    let done = process_instruction_data(&program_id, &accounts, &None, &mut record, &mut stored, NOW, &bytes);
    assert_eq!(done, Ok(vec![]));
    assert_eq!(stored, Some(config(true)));
    assert_eq!(record, before);

    let gate = Some(config(false));
    let done = process_instruction_data(&program_id, &accounts, &gate, &mut record, &mut stored, NOW, &[2, 0]);
    assert_eq!(done, Err(ProgramError::NotEnoughAccountKeys));
    let done = process_instruction_data(&program_id, &accounts, &None, &mut record, &mut stored, NOW, &[2, 0]);
    assert_eq!(done, Err(custom(SwapError::InvalidAccountData)));
    let done = process_instruction_data(&program_id, &accounts, &None, &mut record, &mut stored, NOW, &[9]);
    assert_eq!(done, Err(custom(SwapError::InvalidInstructionData)));
    let done = process_instruction_data(&program_id, &accounts, &None, &mut record, &mut stored, NOW, &[]);
    assert_eq!(done, Err(custom(SwapError::InvalidInstructionData)));
    assert_eq!(stored, Some(config(true)));
    assert_eq!(record, before);

    let mut fresh = None;
    let accounts =
        vec![wallet(key(1), true), AccountSnapshot { data: vec![], ..record_account() }, named(key(0)), named(key(0))];
    let bytes = SwapInstruction::InitializeTradeLoop { trade_id: [5; 32], step_count: 3, timeout_seconds: 86_400 }
        .pack_legacy();
    let done = process_instruction_data(&program_id, &accounts, &None, &mut fresh, &mut stored, NOW, &bytes);
    assert_eq!(done.unwrap().len(), 1);
    assert_eq!(fresh, Some(TradeLoop::initialize([5; 32], 3, 86_400, NOW, addr(&key(1))).unwrap()));
}

#[test]
fn a_record_is_located_at_its_address() {
    let program_id = addr(&program());
    let at = |tag: u8, owner: Pubkey, len: usize| AccountSnapshot {
        key: addr(&key(tag)),
        owner: addr(&owner),
        is_signer: false,
        data: vec![0; len],
    };
    let accounts = vec![
        at(1, program(), 8),
        at(2, key(9), 8),
        at(2, program(), 0),
        at(2, program(), 1),
        at(2, program(), 8),
    ];
    assert_eq!(locate_record(Some((addr(&key(2)), 255)), &program_id, &accounts), Some(3));
    assert_eq!(locate_record(Some((addr(&key(1)), 255)), &program_id, &accounts), Some(0));
    assert_eq!(locate_record(Some((addr(&key(3)), 255)), &program_id, &accounts), None);
    assert_eq!(locate_record(None, &program_id, &accounts), None);
    assert_eq!(locate_record(Some((addr(&key(2)), 255)), &addr(&key(9)), &accounts), Some(1));
    assert_eq!(locate_record(Some((addr(&key(2)), 255)), &addr(&key(8)), &accounts), None);
    assert_eq!(locate_record(Some((addr(&key(2)), 255)), &program_id, &vec![]), None);
}
