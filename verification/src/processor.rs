//! The operations of the program on the accounts of one transaction.
//!
//! An operation reads the accounts in the order in which the instruction
//! names them, together with what was read from them beforehand, and
//! decides: it fails, or it changes the record and says which transfers and
//! account creations the ledger has to carry out, in which order. A failed
//! operation changes nothing and asks for nothing.
//!
//! Beside the accounts an operation takes the records as values: `config`
//! is the configuration as read from the account that
//! `locate_program_config` designates, `trade_loop` the trade loop as read
//! from the second account, and `program_config` the configuration on which
//! an instruction on the configuration works. Each is `None` where the bytes
//! of the account are no such record. `now` is the time of the ledger's
//! clock, in seconds.

use crate::address::{derived_address, Address};
use crate::error::{ProgramError, SwapError};
use crate::instruction::{decode, SwapInstruction};
use crate::state::{
    addresses_view, record_space, ProgramConfig, StepStatus, TradeLoop, TradeLoopView, TradeStepView,
    MAX_NFTS_PER_STEP, MAX_PARTICIPANTS_PER_TRANSACTION, MAX_TIMEOUT_SECONDS, PROGRAM_VERSION,
};
use crate::lifecycle::{new_loop, step_arguments_fault};
use crate::utils::{
    associated_token_address, associated_token_program_bytes, associated_token_program_id, check_derived_address,
    check_holding,
    config_address, get_program_config_address, holding_fault, ownership_fault, source_fault, system_program_bytes,
    system_program_id, token_program_bytes, token_program_id, unpack_token_account, unpacked_token_account,
    upgradeable_loader_bytes, upgradeable_loader_id, verify_account_owner, verify_ownership, verify_source,
    verify_token_account_address, AccountSnapshot, Action,
};
use crate::utils::config_seed;
use crate::utils::{create_and_initialize_account, create_associated_token_account_if_needed, transfer_nft};
use vstd::prelude::*;

verus! {

/// Number of bytes that the configuration record reserves.
pub const CONFIG_SPACE: usize = 96;

/// The operations of the program.
pub struct Processor {}

/// What an operation on a trade loop brings about: the next content of the
/// record and what the ledger has to carry out, in this order.
pub struct LoopEffect {
    pub record: TradeLoopView,
    pub actions: Seq<Action>,
}

/// What an operation on the configuration brings about.
pub struct ConfigEffect {
    pub config: ProgramConfig,
    pub actions: Seq<Action>,
}

/// An operation on a trade loop did what `outcome` says: it succeeded with
/// the record and the actions of the effect, or it failed with the failure
/// and left the record as it was.
pub open spec fn loop_post(
    outcome: Result<LoopEffect, ProgramError>,
    before: Option<TradeLoop>,
    after: Option<TradeLoop>,
    result: Result<Vec<Action>, ProgramError>,
) -> bool {
    match outcome {
        Ok(effect) => result is Ok && result->Ok_0@ == effect.actions && loop_view(after) == Some(effect.record),
        Err(e) => result is Err && result->Err_0 == e && loop_view(after) == loop_view(before),
    }
}

/// An operation on the configuration did what `outcome` says.
pub open spec fn config_post(
    outcome: Result<ConfigEffect, ProgramError>,
    before: Option<ProgramConfig>,
    after: Option<ProgramConfig>,
    result: Result<Vec<Action>, ProgramError>,
) -> bool {
    match outcome {
        Ok(effect) => result is Ok && result->Ok_0@ == effect.actions && after == Some(effect.config),
        Err(e) => result is Err && result->Err_0 == e && after == before,
    }
}

/// The effect of an operation that only changes the record.
pub open spec fn record_only(outcome: Result<TradeLoopView, SwapError>) -> Result<LoopEffect, ProgramError> {
    match outcome {
        Ok(record) => Ok(LoopEffect { record, actions: Seq::empty() }),
        Err(e) => Err(ProgramError::Custom(e)),
    }
}

/// The content of a record that was read, if it could be read.
pub open spec fn loop_view(record: Option<TradeLoop>) -> Option<TradeLoopView> {
    match record {
        Some(trade_loop) => Some(trade_loop@),
        None => None,
    }
}

/// The account holds the configuration of `program_id`: it stands at the
/// address of the configuration, belongs to the program and is not empty.
pub open spec fn is_config_account(account: AccountSnapshot, program_id: Seq<u8>) -> bool {
    &&& config_address(program_id) == Some(account.key@)
    &&& account.owner@ == program_id
    &&& account.data@.len() > 0
}

/// One of the accounts holds the configuration of `program_id`.
pub open spec fn config_present(accounts: Seq<AccountSnapshot>, program_id: Seq<u8>) -> bool {
    exists|i: int| 0 <= i < accounts.len() && is_config_account(#[trigger] accounts[i], program_id)
}

/// Why the configuration stops the operations of participants, if it does:
/// where a configuration is among the accounts, it must be readable and not
/// paused. Without a configuration nothing is stopped.
pub open spec fn pause_fault(accounts: Seq<AccountSnapshot>, program_id: Seq<u8>, config: Option<ProgramConfig>) -> Option<
    ProgramError,
> {
    if !config_present(accounts, program_id) {
        None
    } else {
        match config {
            None => Some(ProgramError::Custom(SwapError::InvalidAccountData)),
            Some(c) => if c.paused {
                Some(ProgramError::Custom(SwapError::InvalidInstructionData))
            } else {
                None
            },
        }
    }
}

/// The account holds a record of `program_id` at `address`: it stands
/// there, belongs to the program and is not empty.
pub open spec fn is_record_at(account: AccountSnapshot, address: Seq<u8>, program_id: Seq<u8>) -> bool {
    &&& account.key@ == address
    &&& account.owner@ == program_id
    &&& account.data@.len() > 0
}

/// The index of the first account that holds a record of `program_id` at
/// the address that was derived, if an address was derived and there is
/// such an account.
pub fn locate_record(derived: Option<(Address, u8)>, program_id: &Address, accounts: &Vec<AccountSnapshot>) -> (found:
    Option<usize>)
    ensures
        match found {
            Some(i) => {
                &&& derived is Some
                &&& i < accounts@.len()
                &&& is_record_at(accounts@[i as int], derived->Some_0.0@, program_id@)
                &&& forall|k: int|
                    0 <= k < i ==> !is_record_at(#[trigger] accounts@[k], derived->Some_0.0@, program_id@)
            },
            None => derived is Some ==> forall|k: int|
                0 <= k < accounts@.len() ==> !is_record_at(#[trigger] accounts@[k], derived->Some_0.0@, program_id@),
        },
{
    let address = match derived {
        Some((address, _)) => address,
        None => {
            return None;
        },
    };
    let mut i: usize = 0;
    while i < accounts.len()
        invariant
            i <= accounts@.len(),
            derived is Some,
            derived->Some_0.0 == address,
            forall|k: int| 0 <= k < i ==> !is_record_at(#[trigger] accounts@[k], address@, program_id@),
        decreases accounts.len() - i,
    {
        if accounts[i].key == address && accounts[i].owner == *program_id && accounts[i].data.len() > 0 {
            return Some(i);
        }
        i += 1;
    }
    None
}

/// The index of the first account that holds the configuration of
/// `program_id`, if there is one.
pub fn locate_program_config(program_id: &Address, accounts: &Vec<AccountSnapshot>) -> (found: Option<usize>)
    ensures
        match found {
            Some(i) => {
                &&& i < accounts@.len()
                &&& is_config_account(accounts@[i as int], program_id@)
                &&& forall|k: int| 0 <= k < i ==> !is_config_account(#[trigger] accounts@[k], program_id@)
            },
            None => !config_present(accounts@, program_id@),
        },
{
    let derived = get_program_config_address(program_id);
    let found = locate_record(derived, program_id, accounts);
    proof {
        if derived is Some {
            assert forall|k: int| 0 <= k < accounts@.len() implies is_config_account(
                #[trigger] accounts@[k],
                program_id@,
            ) == is_record_at(accounts@[k], derived->Some_0.0@, program_id@) by {}
        }
    }
    found
}

/// Refuses the operation while the program is paused. `config` is the
/// configuration as read from the account that `locate_program_config`
/// designates, or nothing if its bytes are no configuration.
pub fn check_program_not_paused(
    program_id: &Address,
    accounts: &Vec<AccountSnapshot>,
    config: &Option<ProgramConfig>,
) -> (checked: Result<(), ProgramError>)
    ensures
        match pause_fault(accounts@, program_id@, *config) {
            Some(e) => checked == Err::<(), ProgramError>(e),
            None => checked is Ok,
        },
{
    match locate_program_config(program_id, accounts) {
        None => Ok(()),
        Some(_) => {
            match config {
                None => Err(ProgramError::Custom(SwapError::InvalidAccountData)),
                Some(c) => {
                    if c.paused {
                        Err(ProgramError::Custom(SwapError::InvalidInstructionData))
                    } else {
                        Ok(())
                    }
                },
            }
        },
    }
}

/// Why the record in the second account cannot be worked on, if it cannot:
/// the account must belong to the program, and the record must be readable
/// and initialized.
pub open spec fn record_fault(accounts: Seq<AccountSnapshot>, program_id: Seq<u8>, record: Option<TradeLoopView>) -> Option<
    ProgramError,
> {
    if accounts[1].owner@ != program_id {
        Some(ProgramError::Custom(SwapError::InvalidAccountOwner))
    } else if record is None {
        Some(ProgramError::BorshIoError)
    } else if !record->Some_0.is_initialized {
        Some(ProgramError::Custom(SwapError::UninitializedAccount))
    } else {
        None
    }
}

/// What the approval of a step yields: the next content of the record, or
/// the failure.
pub open spec fn approve_outcome(
    program_id: Seq<u8>,
    accounts: Seq<AccountSnapshot>,
    config: Option<ProgramConfig>,
    record: Option<TradeLoopView>,
    now: u64,
    step_index: u8,
) -> Result<LoopEffect, ProgramError> {
    if pause_fault(accounts, program_id, config) is Some {
        Err(pause_fault(accounts, program_id, config)->Some_0)
    } else if accounts.len() < 3 {
        Err(ProgramError::NotEnoughAccountKeys)
    } else if !accounts[0].is_signer {
        Err(ProgramError::MissingRequiredSignature)
    } else if record_fault(accounts, program_id, record) is Some {
        Err(record_fault(accounts, program_id, record)->Some_0)
    } else {
        record_only(record->Some_0.approve_step(step_index, accounts[0].key@, now))
    }
}

/// What a cancellation yields: the content of the erased record, or the
/// failure.
pub open spec fn cancel_outcome(
    program_id: Seq<u8>,
    accounts: Seq<AccountSnapshot>,
    config: Option<ProgramConfig>,
    record: Option<TradeLoopView>,
) -> Result<LoopEffect, ProgramError> {
    if pause_fault(accounts, program_id, config) is Some {
        Err(pause_fault(accounts, program_id, config)->Some_0)
    } else if accounts.len() < 2 {
        Err(ProgramError::NotEnoughAccountKeys)
    } else if !accounts[0].is_signer {
        Err(ProgramError::MissingRequiredSignature)
    } else if record_fault(accounts, program_id, record) is Some {
        Err(record_fault(accounts, program_id, record)->Some_0)
    } else {
        record_only(record->Some_0.cancel(accounts[0].key@))
    }
}

/// Why the accounts from `base` on, two for each asset, do not show that
/// `holder` holds a genuine unit of each of the assets from the `k`-th on,
/// if they do not.
pub open spec fn ownership_faults(
    accounts: Seq<AccountSnapshot>,
    base: int,
    holder: Seq<u8>,
    mints: Seq<Seq<u8>>,
    k: int,
) -> Option<ProgramError>
    decreases mints.len() - k,
{
    if k >= mints.len() || k < 0 {
        None
    } else if base + 2 * k + 1 >= accounts.len() {
        Some(ProgramError::NotEnoughAccountKeys)
    } else {
        match ownership_fault(accounts[base + 2 * k], accounts[base + 2 * k + 1], holder, mints[k]) {
            Some(e) => Some(e),
            None => ownership_faults(accounts, base, holder, mints, k + 1),
        }
    }
}

/// What adding a step yields: the next content of the record, or the
/// failure.
pub open spec fn add_step_outcome(
    program_id: Seq<u8>,
    accounts: Seq<AccountSnapshot>,
    config: Option<ProgramConfig>,
    record: Option<TradeLoopView>,
    step_index: u8,
    to: Seq<u8>,
    nft_mints: Seq<Seq<u8>>,
) -> Result<LoopEffect, ProgramError> {
    if pause_fault(accounts, program_id, config) is Some {
        Err(pause_fault(accounts, program_id, config)->Some_0)
    } else if accounts.len() < 3 {
        Err(ProgramError::NotEnoughAccountKeys)
    } else if !accounts[0].is_signer {
        Err(ProgramError::MissingRequiredSignature)
    } else if accounts[2].key@ != token_program_bytes() {
        Err(ProgramError::Custom(SwapError::IncorrectProgramId))
    } else if record_fault(accounts, program_id, record) is Some {
        Err(record_fault(accounts, program_id, record)->Some_0)
    } else if step_arguments_fault(record->Some_0.step_count, step_index, nft_mints) is Some {
        Err(ProgramError::Custom(step_arguments_fault(record->Some_0.step_count, step_index, nft_mints)->Some_0))
    } else if ownership_faults(accounts, 3, accounts[0].key@, nft_mints, 0) is Some {
        Err(ownership_faults(accounts, 3, accounts[0].key@, nft_mints, 0)->Some_0)
    } else {
        record_only(record->Some_0.add_step(step_index, accounts[0].key@, to, nft_mints))
    }
}

/// Checks, for each asset in turn, that `holder` holds a genuine unit of
/// it. The accounts from `base` on are read two for each asset: the mint and
/// the holder's token account.
pub fn verify_ownerships(accounts: &Vec<AccountSnapshot>, base: usize, holder: &Address, nft_mints: &Vec<Address>) -> (verified:
    Result<(), ProgramError>)
    requires
        base <= accounts@.len(),
    ensures
        match ownership_faults(accounts@, base as int, holder@, addresses_view(nft_mints@), 0) {
            Some(e) => verified == Err::<(), ProgramError>(e),
            None => verified is Ok,
        },
{
    let ghost mints = addresses_view(nft_mints@);
    let mut cursor: usize = base;
    let mut k: usize = 0;
    while k < nft_mints.len()
        invariant
            k <= nft_mints@.len(),
            mints == addresses_view(nft_mints@),
            cursor == base + 2 * k,
            cursor <= accounts@.len(),
            ownership_faults(accounts@, base as int, holder@, mints, 0) == ownership_faults(
                accounts@,
                base as int,
                holder@,
                mints,
                k as int,
            ),
        decreases nft_mints@.len() - k,
    {
        if accounts.len() - cursor < 2 {
            return Err(ProgramError::NotEnoughAccountKeys);
        }
        match verify_ownership(&accounts[cursor], &accounts[cursor + 1], holder, &nft_mints[k]) {
            Err(e) => {
                return Err(e);
            },
            Ok(_) => {},
        }
        cursor += 2;
        k += 1;
    }
    Ok(())
}

impl Processor {
    /// Adds the step in which the signer hands `nft_mints` to `to`. The
    /// accounts are the signer, the record, the token program and, for each
    /// asset, its mint and the signer's token account. Every asset must be
    /// genuine and held by the signer.
    pub fn process_add_trade_step(
        program_id: &Address,
        accounts: &Vec<AccountSnapshot>,
        config: &Option<ProgramConfig>,
        trade_loop: &mut Option<TradeLoop>,
        step_index: u8,
        to: Address,
        nft_mints: Vec<Address>,
    ) -> (added: Result<Vec<Action>, ProgramError>)
        ensures
            loop_post(
                add_step_outcome(
                    program_id@,
                    accounts@,
                    *config,
                    loop_view(*old(trade_loop)),
                    step_index,
                    to@,
                    addresses_view(nft_mints@),
                ),
                *old(trade_loop),
                *final(trade_loop),
                added,
            ),
    {
        match check_program_not_paused(program_id, accounts, config) {
            Err(e) => {
                return Err(e);
            },
            Ok(_) => {},
        }
        if accounts.len() < 3 {
            return Err(ProgramError::NotEnoughAccountKeys);
        }
        if !accounts[0].is_signer {
            return Err(ProgramError::MissingRequiredSignature);
        }
        if accounts[2].key != token_program_id() {
            return Err(ProgramError::Custom(SwapError::IncorrectProgramId));
        }
        match verify_account_owner(&accounts[1], program_id) {
            Err(e) => {
                return Err(e);
            },
            Ok(_) => {},
        }
        match trade_loop {
            None => Err(ProgramError::BorshIoError),
            Some(record) => {
                if !record.is_initialized {
                    return Err(ProgramError::Custom(SwapError::UninitializedAccount));
                }
                match record.check_step_arguments(step_index, &nft_mints) {
                    Err(e) => {
                        return Err(ProgramError::Custom(e));
                    },
                    Ok(_) => {},
                }
                match verify_ownerships(accounts, 3, &accounts[0].key, &nft_mints) {
                    Err(e) => {
                        return Err(e);
                    },
                    Ok(_) => {},
                }
                match record.add_step(step_index, accounts[0].key, to, nft_mints) {
                    Ok(_) => Ok(Vec::new()),
                    Err(e) => Err(ProgramError::Custom(e)),
                }
            },
        }
    }

    /// Records the approval of a step by its sender. The accounts are the
    /// signer, the record and the clock.
    pub fn process_approve_trade_step(
        program_id: &Address,
        accounts: &Vec<AccountSnapshot>,
        config: &Option<ProgramConfig>,
        trade_loop: &mut Option<TradeLoop>,
        now: u64,
        step_index: u8,
    ) -> (approved: Result<Vec<Action>, ProgramError>)
        ensures
            loop_post(
                approve_outcome(program_id@, accounts@, *config, loop_view(*old(trade_loop)), now, step_index),
                *old(trade_loop),
                *final(trade_loop),
                approved,
            ),
    {
        match check_program_not_paused(program_id, accounts, config) {
            Err(e) => {
                return Err(e);
            },
            Ok(_) => {},
        }
        if accounts.len() < 3 {
            return Err(ProgramError::NotEnoughAccountKeys);
        }
        if !accounts[0].is_signer {
            return Err(ProgramError::MissingRequiredSignature);
        }
        match verify_account_owner(&accounts[1], program_id) {
            Err(e) => {
                return Err(e);
            },
            Ok(_) => {},
        }
        match trade_loop {
            None => Err(ProgramError::BorshIoError),
            Some(record) => {
                if !record.is_initialized {
                    return Err(ProgramError::Custom(SwapError::UninitializedAccount));
                }
                match record.approve_step(step_index, &accounts[0].key, now) {
                    Ok(_) => Ok(Vec::new()),
                    Err(e) => Err(ProgramError::Custom(e)),
                }
            },
        }
    }

    /// Cancels the trade loop on behalf of the signer and erases the record.
    /// The accounts are the signer and the record.
    pub fn process_cancel_trade_loop(
        program_id: &Address,
        accounts: &Vec<AccountSnapshot>,
        config: &Option<ProgramConfig>,
        trade_loop: &mut Option<TradeLoop>,
    ) -> (cancelled: Result<Vec<Action>, ProgramError>)
        ensures
            loop_post(
                cancel_outcome(program_id@, accounts@, *config, loop_view(*old(trade_loop))),
                *old(trade_loop),
                *final(trade_loop),
                cancelled,
            ),
    {
        match check_program_not_paused(program_id, accounts, config) {
            Err(e) => {
                return Err(e);
            },
            Ok(_) => {},
        }
        if accounts.len() < 2 {
            return Err(ProgramError::NotEnoughAccountKeys);
        }
        if !accounts[0].is_signer {
            return Err(ProgramError::MissingRequiredSignature);
        }
        match verify_account_owner(&accounts[1], program_id) {
            Err(e) => {
                return Err(e);
            },
            Ok(_) => {},
        }
        match trade_loop {
            None => Err(ProgramError::BorshIoError),
            Some(record) => {
                if !record.is_initialized {
                    return Err(ProgramError::Custom(SwapError::UninitializedAccount));
                }
                match record.cancel_loop(&accounts[0].key) {
                    Ok(_) => Ok(Vec::new()),
                    Err(e) => Err(ProgramError::Custom(e)),
                }
            },
        }
    }
}

/// The transfer of one asset from `sender` to `recipient`, as the three
/// accounts allow it: the mint must be that of the asset and genuine, the
/// source the sender's own token account for it with at least one unit, and
/// the destination, where it exists already, the recipient's own token
/// account for it. A destination that does not exist yet is created first,
/// paid by `payer`.
pub open spec fn asset_transfer(
    mint_info: AccountSnapshot,
    source: AccountSnapshot,
    destination: AccountSnapshot,
    payer: Address,
    sender: Address,
    recipient: Address,
    expected_mint: Seq<u8>,
) -> Result<Seq<Action>, ProgramError> {
    let transfer = Action::TransferNft { source: source.key, destination: destination.key, authority: sender };
    if source_fault(mint_info, source, sender@, expected_mint) is Some {
        Err(source_fault(mint_info, source, sender@, expected_mint)->Some_0)
    } else if destination.data@.len() > 0 && associated_token_address(recipient@, mint_info.key@) != Some(
        destination.key@,
    ) {
        Err(ProgramError::Custom(SwapError::InvalidAccountData))
    } else if holding_fault(unpacked_token_account(source.data@), sender@, mint_info.key@) is Some {
        Err(holding_fault(unpacked_token_account(source.data@), sender@, mint_info.key@)->Some_0)
    } else if destination.data@.len() == 0 {
        Ok(
            seq![
                Action::CreateAssociatedTokenAccount {
                    payer,
                    wallet: recipient,
                    mint: mint_info.key,
                    token_account: destination.key,
                },
                transfer,
            ],
        )
    } else {
        Ok(seq![transfer])
    }
}

/// The actions after which a planning succeeded, or its failure.
pub open spec fn after_actions(first: Seq<Action>, rest: Result<Seq<Action>, ProgramError>) -> Result<
    Seq<Action>,
    ProgramError,
> {
    match rest {
        Ok(actions) => Ok(first + actions),
        Err(e) => Err(e),
    }
}

/// The transfers of the assets of one step from the `k`-th on. The accounts
/// from `base` on are read three for each asset: the mint, the sender's
/// token account and the recipient's.
pub open spec fn step_transfers(
    accounts: Seq<AccountSnapshot>,
    base: int,
    payer: Address,
    sender: Address,
    recipient: Address,
    mints: Seq<Seq<u8>>,
    k: int,
) -> Result<Seq<Action>, ProgramError>
    decreases mints.len() - k,
{
    if k >= mints.len() || k < 0 {
        Ok(Seq::empty())
    } else if base + 3 * k + 2 >= accounts.len() {
        Err(ProgramError::NotEnoughAccountKeys)
    } else {
        match asset_transfer(
            accounts[base + 3 * k],
            accounts[base + 3 * k + 1],
            accounts[base + 3 * k + 2],
            payer,
            sender,
            recipient,
            mints[k],
        ) {
            Err(e) => Err(e),
            Ok(first) => after_actions(first, step_transfers(accounts, base, payer, sender, recipient, mints, k + 1)),
        }
    }
}

/// The transfers of the steps from the `i`-th on. The accounts from
/// `cursor` on are read step by step: the sender, the recipient, and three
/// accounts for each asset of the step.
pub open spec fn loop_transfers(
    accounts: Seq<AccountSnapshot>,
    cursor: int,
    payer: Address,
    steps: Seq<TradeStepView>,
    i: int,
) -> Result<Seq<Action>, ProgramError>
    decreases steps.len() - i,
{
    if i >= steps.len() || i < 0 {
        Ok(Seq::empty())
    } else if steps[i].status == StepStatus::Executed {
        Err(ProgramError::Custom(SwapError::StepAlreadyExecuted))
    } else if cursor + 1 >= accounts.len() {
        Err(ProgramError::NotEnoughAccountKeys)
    } else if steps[i].from != accounts[cursor].key@ {
        Err(ProgramError::Custom(SwapError::InvalidAccountData))
    } else if steps[i].to != accounts[cursor + 1].key@ {
        Err(ProgramError::Custom(SwapError::InvalidAccountData))
    } else {
        match step_transfers(
            accounts,
            cursor + 2,
            payer,
            accounts[cursor].key,
            accounts[cursor + 1].key,
            steps[i].nft_mints,
            0,
        ) {
            Err(e) => Err(e),
            Ok(first) => after_actions(
                first,
                loop_transfers(accounts, cursor + 2 + 3 * steps[i].nft_mints.len(), payer, steps, i + 1),
            ),
        }
    }
}

/// What the execution of one step yields.
pub open spec fn execute_step_outcome(
    program_id: Seq<u8>,
    accounts: Seq<AccountSnapshot>,
    config: Option<ProgramConfig>,
    record: Option<TradeLoopView>,
    now: u64,
    step_index: u8,
) -> Result<LoopEffect, ProgramError> {
    if pause_fault(accounts, program_id, config) is Some {
        Err(pause_fault(accounts, program_id, config)->Some_0)
    } else if accounts.len() < 8 {
        Err(ProgramError::NotEnoughAccountKeys)
    } else if !accounts[0].is_signer {
        Err(ProgramError::MissingRequiredSignature)
    } else if accounts[1].owner@ != program_id {
        Err(ProgramError::Custom(SwapError::InvalidAccountOwner))
    } else if accounts[4].key@ != token_program_bytes() {
        Err(ProgramError::Custom(SwapError::IncorrectProgramId))
    } else if accounts[5].key@ != associated_token_program_bytes() {
        Err(ProgramError::Custom(SwapError::IncorrectProgramId))
    } else if accounts[6].key@ != system_program_bytes() {
        Err(ProgramError::Custom(SwapError::IncorrectProgramId))
    } else if record is None {
        Err(ProgramError::BorshIoError)
    } else if !record->Some_0.is_initialized {
        Err(ProgramError::Custom(SwapError::UninitializedAccount))
    } else if record->Some_0.execute_step_fault(step_index, accounts[2].key@, accounts[3].key@, now) is Some {
        Err(
            ProgramError::Custom(
                record->Some_0.execute_step_fault(step_index, accounts[2].key@, accounts[3].key@, now)->Some_0,
            ),
        )
    } else {
        match step_transfers(
            accounts,
            8,
            accounts[0].key,
            accounts[2].key,
            accounts[3].key,
            record->Some_0.steps[step_index as int].nft_mints,
            0,
        ) {
            Err(e) => Err(e),
            Ok(actions) => Ok(
                LoopEffect { record: record->Some_0.with_status(step_index as int, StepStatus::Executed), actions },
            ),
        }
    }
}

/// What the execution of the whole loop yields.
pub open spec fn execute_full_outcome(
    program_id: Seq<u8>,
    accounts: Seq<AccountSnapshot>,
    config: Option<ProgramConfig>,
    record: Option<TradeLoopView>,
    now: u64,
) -> Result<LoopEffect, ProgramError> {
    if pause_fault(accounts, program_id, config) is Some {
        Err(pause_fault(accounts, program_id, config)->Some_0)
    } else if accounts.len() < 7 {
        Err(ProgramError::NotEnoughAccountKeys)
    } else if !accounts[0].is_signer {
        Err(ProgramError::MissingRequiredSignature)
    } else if accounts[1].owner@ != program_id {
        Err(ProgramError::Custom(SwapError::InvalidAccountOwner))
    } else if accounts[2].key@ != token_program_bytes() {
        Err(ProgramError::Custom(SwapError::IncorrectProgramId))
    } else if accounts[3].key@ != associated_token_program_bytes() {
        Err(ProgramError::Custom(SwapError::IncorrectProgramId))
    } else if accounts[4].key@ != system_program_bytes() {
        Err(ProgramError::Custom(SwapError::IncorrectProgramId))
    } else if record is None {
        Err(ProgramError::BorshIoError)
    } else if !record->Some_0.is_initialized {
        Err(ProgramError::Custom(SwapError::UninitializedAccount))
    } else if record->Some_0.execute_full_loop_fault(now) is Some {
        Err(ProgramError::Custom(record->Some_0.execute_full_loop_fault(now)->Some_0))
    } else {
        match loop_transfers(accounts, 7, accounts[0].key, record->Some_0.steps, 0) {
            Err(e) => Err(e),
            Ok(actions) => Ok(LoopEffect { record: record->Some_0.all_executed(), actions }),
        }
    }
}

/// What the initialization of a trade loop yields.
pub open spec fn initialize_outcome(
    program_id: Address,
    accounts: Seq<AccountSnapshot>,
    config: Option<ProgramConfig>,
    now: u64,
    trade_id: Seq<u8>,
    step_count: u8,
    timeout_seconds: u64,
) -> Result<LoopEffect, ProgramError> {
    if pause_fault(accounts, program_id@, config) is Some {
        Err(pause_fault(accounts, program_id@, config)->Some_0)
    } else if new_loop(trade_id, step_count, timeout_seconds, 0, trade_id) is Err {
        Err(ProgramError::Custom(new_loop(trade_id, step_count, timeout_seconds, 0, trade_id)->Err_0))
    } else if accounts.len() < 4 {
        Err(ProgramError::NotEnoughAccountKeys)
    } else if accounts[1].data@.len() > 0 {
        Err(ProgramError::Custom(SwapError::InvalidAccountData))
    } else if !accounts[0].is_signer {
        Err(ProgramError::MissingRequiredSignature)
    } else {
        match new_loop(trade_id, step_count, timeout_seconds, now, accounts[0].key@) {
            Err(e) => Err(ProgramError::Custom(e)),
            Ok(record) => Ok(
                LoopEffect {
                    record,
                    actions: seq![
                        Action::CreateAccount {
                            payer: accounts[0].key,
                            new_account: accounts[1].key,
                            space: record_space(step_count, MAX_NFTS_PER_STEP) as usize,
                            owner: program_id,
                        },
                    ],
                },
            ),
        }
    }
}

/// The signer may change the configuration: it is the upgrade authority or
/// the governance.
pub open spec fn is_authorized(config: ProgramConfig, signer: Seq<u8>) -> bool {
    config.upgrade_authority@ == signer || (config.governance is Some && config.governance->Some_0@ == signer)
}

/// What the initialization of the configuration yields.
pub open spec fn initialize_config_outcome(
    program_id: Address,
    accounts: Seq<AccountSnapshot>,
    governance: Option<Address>,
) -> Result<ConfigEffect, ProgramError> {
    let derived = derived_address(seq![config_seed()], program_id@);
    if accounts.len() < 4 {
        Err(ProgramError::NotEnoughAccountKeys)
    } else if !accounts[0].is_signer {
        Err(ProgramError::MissingRequiredSignature)
    } else if accounts[3].key@ != system_program_bytes() {
        Err(ProgramError::Custom(SwapError::IncorrectProgramId))
    } else if config_address(program_id@) != Some(accounts[1].key@) {
        Err(ProgramError::Custom(SwapError::InvalidAccountData))
    } else if accounts[1].data@.len() > 0 {
        Err(ProgramError::Custom(SwapError::InvalidAccountData))
    } else {
        Ok(
            ConfigEffect {
                config: ProgramConfig {
                    is_initialized: true,
                    version: PROGRAM_VERSION,
                    upgrade_authority: accounts[0].key,
                    governance,
                    paused: false,
                },
                actions: seq![
                    Action::CreateConfigAccount {
                        payer: accounts[0].key,
                        config: accounts[1].key,
                        space: CONFIG_SPACE,
                        owner: program_id,
                        bump_seed: derived->Some_0.1,
                    },
                ],
            },
        )
    }
}

/// The configuration with the given changes.
pub open spec fn updated_config(
    config: ProgramConfig,
    new_upgrade_authority: Option<Address>,
    new_governance: Option<Address>,
    new_paused_state: Option<bool>,
) -> ProgramConfig {
    ProgramConfig {
        upgrade_authority: match new_upgrade_authority {
            Some(authority) => authority,
            None => config.upgrade_authority,
        },
        governance: match new_governance {
            Some(governance) => Some(governance),
            None => config.governance,
        },
        paused: match new_paused_state {
            Some(paused) => paused,
            None => config.paused,
        },
        ..config
    }
}

/// What a change of the configuration yields.
pub open spec fn update_config_outcome(
    program_id: Seq<u8>,
    accounts: Seq<AccountSnapshot>,
    config: Option<ProgramConfig>,
    new_upgrade_authority: Option<Address>,
    new_governance: Option<Address>,
    new_paused_state: Option<bool>,
) -> Result<ConfigEffect, ProgramError> {
    if accounts.len() < 2 {
        Err(ProgramError::NotEnoughAccountKeys)
    } else if !accounts[0].is_signer {
        Err(ProgramError::MissingRequiredSignature)
    } else if accounts[1].owner@ != program_id {
        Err(ProgramError::Custom(SwapError::InvalidAccountOwner))
    } else if config_address(program_id) != Some(accounts[1].key@) {
        Err(ProgramError::Custom(SwapError::InvalidAccountData))
    } else if config is None {
        Err(ProgramError::BorshIoError)
    } else if !config->Some_0.is_initialized {
        Err(ProgramError::Custom(SwapError::UninitializedAccount))
    } else if !is_authorized(config->Some_0, accounts[0].key@) {
        Err(ProgramError::Custom(SwapError::UpgradeAuthorityMismatch))
    } else {
        Ok(
            ConfigEffect {
                config: updated_config(config->Some_0, new_upgrade_authority, new_governance, new_paused_state),
                actions: Seq::empty(),
            },
        )
    }
}

/// What an upgrade of the program yields.
pub open spec fn upgrade_outcome(
    program_id: Seq<u8>,
    accounts: Seq<AccountSnapshot>,
    config: Option<ProgramConfig>,
    new_program_version: u32,
) -> Result<ConfigEffect, ProgramError> {
    if accounts.len() < 8 {
        Err(ProgramError::NotEnoughAccountKeys)
    } else if !accounts[0].is_signer {
        Err(ProgramError::MissingRequiredSignature)
    } else if config_address(program_id) != Some(accounts[7].key@) {
        Err(ProgramError::Custom(SwapError::InvalidAccountData))
    } else if accounts[7].owner@ != program_id {
        Err(ProgramError::Custom(SwapError::InvalidAccountOwner))
    } else if config is None {
        Err(ProgramError::BorshIoError)
    } else if !config->Some_0.is_initialized {
        Err(ProgramError::Custom(SwapError::UninitializedAccount))
    } else if !is_authorized(config->Some_0, accounts[0].key@) {
        Err(ProgramError::Custom(SwapError::UpgradeAuthorityMismatch))
    } else if new_program_version <= config->Some_0.version {
        Err(ProgramError::Custom(SwapError::InvalidProgramVersion))
    } else if accounts[6].key@ != upgradeable_loader_bytes() {
        Err(ProgramError::Custom(SwapError::IncorrectProgramId))
    } else {
        Ok(
            ConfigEffect {
                config: ProgramConfig { version: new_program_version, ..config->Some_0 },
                actions: seq![
                    Action::UpgradeProgram {
                        program: accounts[2].key,
                        buffer: accounts[3].key,
                        authority: accounts[0].key,
                        spill: accounts[4].key,
                    },
                ],
            },
        )
    }
}

/// Plans the transfer of one asset and appends its actions to `actions`,
/// which stay as they were where the transfer is refused.
pub fn plan_asset_transfer(
    mint_info: &AccountSnapshot,
    source: &AccountSnapshot,
    destination: &AccountSnapshot,
    payer: &Address,
    sender: &Address,
    recipient: &Address,
    expected_mint: &Address,
    actions: &mut Vec<Action>,
) -> (planned: Result<(), ProgramError>)
    ensures
        match asset_transfer(*mint_info, *source, *destination, *payer, *sender, *recipient, expected_mint@) {
            Ok(added) => planned is Ok && final(actions)@ == old(actions)@ + added,
            Err(e) => planned == Err::<(), ProgramError>(e) && final(actions)@ == old(actions)@,
        },
{
    match verify_source(mint_info, source, sender, expected_mint) {
        Err(e) => {
            return Err(e);
        },
        Ok(_) => {},
    }
    if destination.data.len() > 0 {
        match verify_token_account_address(destination, recipient, &mint_info.key) {
            Err(e) => {
                return Err(e);
            },
            Ok(_) => {},
        }
    }
    match check_holding(unpack_token_account(source.data.as_slice()), sender, &mint_info.key) {
        Err(e) => {
            return Err(e);
        },
        Ok(_) => {},
    }
    match create_associated_token_account_if_needed(payer, recipient, &mint_info.key, destination) {
        Some(creation) => {
            actions.push(creation);
        },
        None => {},
    }
    actions.push(transfer_nft(&source.key, &destination.key, sender));
    Ok(())
}

/// Plans the transfers of the assets of one step and appends their actions
/// to `actions`. On success the result is the index of the account after
/// the last one that was read.
pub fn plan_step_transfers(
    accounts: &Vec<AccountSnapshot>,
    base: usize,
    payer: &Address,
    sender: &Address,
    recipient: &Address,
    nft_mints: &Vec<Address>,
    actions: &mut Vec<Action>,
) -> (planned: Result<usize, ProgramError>)
    requires
        base <= accounts@.len(),
    ensures
        match step_transfers(accounts@, base as int, *payer, *sender, *recipient, addresses_view(nft_mints@), 0) {
            Ok(added) => {
                &&& planned is Ok
                &&& planned->Ok_0 == base + 3 * nft_mints@.len()
                &&& planned->Ok_0 <= accounts@.len()
                &&& final(actions)@ == old(actions)@ + added
            },
            Err(e) => planned is Err && planned->Err_0 == e && old(actions)@.is_prefix_of(final(actions)@),
        },
{
    let ghost mints = addresses_view(nft_mints@);
    let ghost mut done: Seq<Action> = Seq::empty();
    let mut cursor: usize = base;
    let mut k: usize = 0;
    while k < nft_mints.len()
        invariant
            k <= nft_mints@.len(),
            mints == addresses_view(nft_mints@),
            cursor == base + 3 * k,
            cursor <= accounts@.len(),
            actions@ == old(actions)@ + done,
            step_transfers(accounts@, base as int, *payer, *sender, *recipient, mints, 0) == after_actions(
                done,
                step_transfers(accounts@, base as int, *payer, *sender, *recipient, mints, k as int),
            ),
        decreases nft_mints@.len() - k,
    {
        if accounts.len() - cursor < 3 {
            return Err(ProgramError::NotEnoughAccountKeys);
        }
        match plan_asset_transfer(
            &accounts[cursor],
            &accounts[cursor + 1],
            &accounts[cursor + 2],
            payer,
            sender,
            recipient,
            &nft_mints[k],
            actions,
        ) {
            Err(e) => {
                return Err(e);
            },
            Ok(_) => {},
        }
        proof {
            let first = asset_transfer(
                accounts@[cursor as int],
                accounts@[cursor + 1],
                accounts@[cursor + 2],
                *payer,
                *sender,
                *recipient,
                mints[k as int],
            )->Ok_0;
            let rest = step_transfers(accounts@, base as int, *payer, *sender, *recipient, mints, k + 1);
            if rest is Ok {
                assert(done + (first + rest->Ok_0) =~= (done + first) + rest->Ok_0);
            }
            done = done + first;
        }
        cursor += 3;
        k += 1;
    }
    Ok(cursor)
}

/// Plans the transfers of all the steps, in their order. The accounts from
/// `base` on are read step by step.
pub fn plan_loop_transfers(accounts: &Vec<AccountSnapshot>, base: usize, payer: &Address, trade_loop: &TradeLoop) -> (planned:
    Result<Vec<Action>, ProgramError>)
    requires
        base <= accounts@.len(),
    ensures
        match loop_transfers(accounts@, base as int, *payer, trade_loop@.steps, 0) {
            Ok(actions) => planned is Ok && planned->Ok_0@ == actions,
            Err(e) => planned is Err && planned->Err_0 == e,
        },
{
    let ghost steps = trade_loop@.steps;
    let mut actions: Vec<Action> = Vec::new();
    let mut cursor: usize = base;
    let mut i: usize = 0;
    proof {
        assert(Seq::<Action>::empty() + loop_transfers(accounts@, base as int, *payer, steps, 0)->Ok_0 =~= loop_transfers(
            accounts@,
            base as int,
            *payer,
            steps,
            0,
        )->Ok_0);
    }
    while i < trade_loop.steps.len()
        invariant
            i <= trade_loop.steps@.len(),
            steps == trade_loop@.steps,
            cursor <= accounts@.len(),
            loop_transfers(accounts@, base as int, *payer, steps, 0) == after_actions(
                actions@,
                loop_transfers(accounts@, cursor as int, *payer, steps, i as int),
            ),
        decreases trade_loop.steps@.len() - i,
    {
        if trade_loop.steps[i].status == StepStatus::Executed {
            return Err(ProgramError::Custom(SwapError::StepAlreadyExecuted));
        }
        if accounts.len() - cursor < 2 {
            return Err(ProgramError::NotEnoughAccountKeys);
        }
        if trade_loop.steps[i].from != accounts[cursor].key {
            return Err(ProgramError::Custom(SwapError::InvalidAccountData));
        }
        if trade_loop.steps[i].to != accounts[cursor + 1].key {
            return Err(ProgramError::Custom(SwapError::InvalidAccountData));
        }
        let ghost before = actions@;
        let next = match plan_step_transfers(
            accounts,
            cursor + 2,
            payer,
            &accounts[cursor].key,
            &accounts[cursor + 1].key,
            &trade_loop.steps[i].nft_mints,
            &mut actions,
        ) {
            Err(e) => {
                return Err(e);
            },
            Ok(next) => next,
        };
        proof {
            let first = step_transfers(
                accounts@,
                cursor + 2,
                *payer,
                accounts@[cursor as int].key,
                accounts@[cursor + 1].key,
                steps[i as int].nft_mints,
                0,
            )->Ok_0;
            let rest = loop_transfers(accounts@, next as int, *payer, steps, i + 1);
            if rest is Ok {
                assert(before + (first + rest->Ok_0) =~= (before + first) + rest->Ok_0);
            }
        }
        cursor = next;
        i += 1;
    }
    Ok(actions)
}

impl Processor {
    /// Creates the record of a trade loop for `step_count` steps that
    /// expires `timeout_seconds` after `now`. The accounts are the signer,
    /// who pays and becomes the authority of the loop, the account of the
    /// record, which must not exist yet, the rent and the system program.
    pub fn process_initialize_trade_loop(
        program_id: &Address,
        accounts: &Vec<AccountSnapshot>,
        config: &Option<ProgramConfig>,
        trade_loop: &mut Option<TradeLoop>,
        now: u64,
        trade_id: [u8; 32],
        step_count: u8,
        timeout_seconds: u64,
    ) -> (initialized: Result<Vec<Action>, ProgramError>)
        ensures
            loop_post(
                initialize_outcome(*program_id, accounts@, *config, now, trade_id@, step_count, timeout_seconds),
                *old(trade_loop),
                *final(trade_loop),
                initialized,
            ),
    {
        match check_program_not_paused(program_id, accounts, config) {
            Err(e) => {
                return Err(e);
            },
            Ok(_) => {},
        }
        if step_count == 0 {
            return Err(ProgramError::Custom(SwapError::InvalidInstructionData));
        }
        if step_count > MAX_PARTICIPANTS_PER_TRANSACTION {
            return Err(ProgramError::Custom(SwapError::TooManyParticipants));
        }
        if timeout_seconds > MAX_TIMEOUT_SECONDS {
            return Err(ProgramError::Custom(SwapError::InvalidInstructionData));
        }
        if accounts.len() < 4 {
            return Err(ProgramError::NotEnoughAccountKeys);
        }
        if accounts[1].data.len() > 0 {
            return Err(ProgramError::Custom(SwapError::InvalidAccountData));
        }
        if !accounts[0].is_signer {
            return Err(ProgramError::MissingRequiredSignature);
        }
        let space: usize = TradeLoop::get_space(step_count, MAX_NFTS_PER_STEP);
        match TradeLoop::initialize(trade_id, step_count, timeout_seconds, now, accounts[0].key) {
            Err(e) => Err(ProgramError::Custom(e)),
            Ok(record) => {
                let mut actions: Vec<Action> = Vec::new();
                actions.push(create_and_initialize_account(&accounts[0].key, &accounts[1].key, space, program_id));
                *trade_loop = Some(record);
                Ok(actions)
            },
        }
    }

    /// Executes one approved step: plans the transfer of each of its assets
    /// from the sender to the recipient and marks the step as executed. The
    /// accounts are the signer, the record, the sender, the recipient, the
    /// token program, the associated token account program, the system
    /// program and the rent, then for each asset its mint, the sender's
    /// token account and the recipient's.
    pub fn process_execute_trade_step(
        program_id: &Address,
        accounts: &Vec<AccountSnapshot>,
        config: &Option<ProgramConfig>,
        trade_loop: &mut Option<TradeLoop>,
        now: u64,
        step_index: u8,
    ) -> (executed: Result<Vec<Action>, ProgramError>)
        ensures
            loop_post(
                execute_step_outcome(program_id@, accounts@, *config, loop_view(*old(trade_loop)), now, step_index),
                *old(trade_loop),
                *final(trade_loop),
                executed,
            ),
    {
        match check_program_not_paused(program_id, accounts, config) {
            Err(e) => {
                return Err(e);
            },
            Ok(_) => {},
        }
        if accounts.len() < 8 {
            return Err(ProgramError::NotEnoughAccountKeys);
        }
        if !accounts[0].is_signer {
            return Err(ProgramError::MissingRequiredSignature);
        }
        match verify_account_owner(&accounts[1], program_id) {
            Err(e) => {
                return Err(e);
            },
            Ok(_) => {},
        }
        if accounts[4].key != token_program_id() {
            return Err(ProgramError::Custom(SwapError::IncorrectProgramId));
        }
        if accounts[5].key != associated_token_program_id() {
            return Err(ProgramError::Custom(SwapError::IncorrectProgramId));
        }
        if accounts[6].key != system_program_id() {
            return Err(ProgramError::Custom(SwapError::IncorrectProgramId));
        }
        match trade_loop {
            None => Err(ProgramError::BorshIoError),
            Some(record) => {
                if !record.is_initialized {
                    return Err(ProgramError::Custom(SwapError::UninitializedAccount));
                }
                match record.check_step_execution(step_index, &accounts[2].key, &accounts[3].key, now) {
                    Err(e) => {
                        return Err(ProgramError::Custom(e));
                    },
                    Ok(_) => {},
                }
                let index: usize = step_index as usize;
                let mut actions: Vec<Action> = Vec::new();
                match plan_step_transfers(
                    accounts,
                    8,
                    &accounts[0].key,
                    &accounts[2].key,
                    &accounts[3].key,
                    &record.steps[index].nft_mints,
                    &mut actions,
                ) {
                    Err(e) => {
                        return Err(e);
                    },
                    Ok(_) => {},
                }
                match record.execute_step(step_index, &accounts[2].key, &accounts[3].key, now) {
                    Ok(_) => Ok(actions),
                    Err(e) => Err(ProgramError::Custom(e)),
                }
            },
        }
    }

    /// Settles the whole loop: plans the transfers of every step, in ring
    /// order, and marks every step as executed. The accounts are the signer,
    /// the record, the token program, the associated token account program,
    /// the system program, the rent and the clock, then for each step the
    /// sender, the recipient and, for each asset, its mint, the sender's
    /// token account and the recipient's. If anything fails, no step changes
    /// its status and no transfer is asked for.
    pub fn process_execute_full_trade_loop(
        program_id: &Address,
        accounts: &Vec<AccountSnapshot>,
        config: &Option<ProgramConfig>,
        trade_loop: &mut Option<TradeLoop>,
        now: u64,
    ) -> (executed: Result<Vec<Action>, ProgramError>)
        ensures
            loop_post(
                execute_full_outcome(program_id@, accounts@, *config, loop_view(*old(trade_loop)), now),
                *old(trade_loop),
                *final(trade_loop),
                executed,
            ),
            executed is Err ==> loop_view(*final(trade_loop)) == loop_view(*old(trade_loop)),
            executed is Ok ==> loop_view(*final(trade_loop)) == Some(loop_view(*old(trade_loop))->Some_0.all_executed()),
    {
        match check_program_not_paused(program_id, accounts, config) {
            Err(e) => {
                return Err(e);
            },
            Ok(_) => {},
        }
        if accounts.len() < 7 {
            return Err(ProgramError::NotEnoughAccountKeys);
        }
        if !accounts[0].is_signer {
            return Err(ProgramError::MissingRequiredSignature);
        }
        match verify_account_owner(&accounts[1], program_id) {
            Err(e) => {
                return Err(e);
            },
            Ok(_) => {},
        }
        if accounts[2].key != token_program_id() {
            return Err(ProgramError::Custom(SwapError::IncorrectProgramId));
        }
        if accounts[3].key != associated_token_program_id() {
            return Err(ProgramError::Custom(SwapError::IncorrectProgramId));
        }
        if accounts[4].key != system_program_id() {
            return Err(ProgramError::Custom(SwapError::IncorrectProgramId));
        }
        match trade_loop {
            None => Err(ProgramError::BorshIoError),
            Some(record) => {
                if !record.is_initialized {
                    return Err(ProgramError::Custom(SwapError::UninitializedAccount));
                }
                match record.check_full_execution(now) {
                    Err(e) => {
                        return Err(ProgramError::Custom(e));
                    },
                    Ok(_) => {},
                }
                let actions = match plan_loop_transfers(accounts, 7, &accounts[0].key, record) {
                    Err(e) => {
                        return Err(e);
                    },
                    Ok(actions) => actions,
                };
                record.mark_all_executed();
                Ok(actions)
            },
        }
    }

    /// Creates the configuration of the program with the signer as upgrade
    /// authority. The accounts are the signer, the account of the
    /// configuration at its derived address, which must not exist yet, the
    /// rent and the system program.
    pub fn process_initialize_program_config(
        program_id: &Address,
        accounts: &Vec<AccountSnapshot>,
        program_config: &mut Option<ProgramConfig>,
        governance: Option<Address>,
    ) -> (initialized: Result<Vec<Action>, ProgramError>)
        ensures
            config_post(
                initialize_config_outcome(*program_id, accounts@, governance),
                *old(program_config),
                *final(program_config),
                initialized,
            ),
    {
        if accounts.len() < 4 {
            return Err(ProgramError::NotEnoughAccountKeys);
        }
        if !accounts[0].is_signer {
            return Err(ProgramError::MissingRequiredSignature);
        }
        if accounts[3].key != system_program_id() {
            return Err(ProgramError::Custom(SwapError::IncorrectProgramId));
        }
        let bump_seed: u8 = match check_derived_address(&accounts[1], get_program_config_address(program_id)) {
            Ok(bump) => bump,
            Err(e) => {
                return Err(e);
            },
        };
        if accounts[1].data.len() > 0 {
            return Err(ProgramError::Custom(SwapError::InvalidAccountData));
        }
        let mut actions: Vec<Action> = Vec::new();
        actions.push(
            Action::CreateConfigAccount {
                payer: accounts[0].key,
                config: accounts[1].key,
                space: CONFIG_SPACE,
                owner: *program_id,
                bump_seed,
            },
        );
        let config = ProgramConfig {
            is_initialized: true,
            version: PROGRAM_VERSION,
            upgrade_authority: accounts[0].key,
            governance,
            paused: false,
        };
        *program_config = Some(config);
        Ok(actions)
    }

    /// Changes the upgrade authority, the governance and the pause of the
    /// program, each where a new value is given. The accounts are the
    /// signer, who must be the upgrade authority or the governance, and the
    /// account of the configuration.
    pub fn process_update_program_config(
        program_id: &Address,
        accounts: &Vec<AccountSnapshot>,
        program_config: &mut Option<ProgramConfig>,
        new_upgrade_authority: Option<Address>,
        new_governance: Option<Address>,
        new_paused_state: Option<bool>,
    ) -> (updated: Result<Vec<Action>, ProgramError>)
        ensures
            config_post(
                update_config_outcome(
                    program_id@,
                    accounts@,
                    *old(program_config),
                    new_upgrade_authority,
                    new_governance,
                    new_paused_state,
                ),
                *old(program_config),
                *final(program_config),
                updated,
            ),
    {
        if accounts.len() < 2 {
            return Err(ProgramError::NotEnoughAccountKeys);
        }
        if !accounts[0].is_signer {
            return Err(ProgramError::MissingRequiredSignature);
        }
        match verify_account_owner(&accounts[1], program_id) {
            Err(e) => {
                return Err(e);
            },
            Ok(_) => {},
        }
        match check_derived_address(&accounts[1], get_program_config_address(program_id)) {
            Err(e) => {
                return Err(e);
            },
            Ok(_) => {},
        }
        let mut config: ProgramConfig = match program_config {
            Some(config) => *config,
            None => {
                return Err(ProgramError::BorshIoError);
            },
        };
        if !config.is_initialized {
            return Err(ProgramError::Custom(SwapError::UninitializedAccount));
        }
        if !Self::signer_is_authorized(&config, &accounts[0].key) {
            return Err(ProgramError::Custom(SwapError::UpgradeAuthorityMismatch));
        }
        match new_upgrade_authority {
            Some(new_authority) => {
                config.upgrade_authority = new_authority;
            },
            None => {},
        }
        match new_governance {
            Some(new_gov) => {
                config.governance = Some(new_gov);
            },
            None => {},
        }
        match new_paused_state {
            Some(paused) => {
                config.paused = paused;
            },
            None => {},
        }
        *program_config = Some(config);
        Ok(Vec::new())
    }

    /// Whether `signer` may change the configuration: it is the upgrade
    /// authority or the governance.
    pub fn signer_is_authorized(config: &ProgramConfig, signer: &Address) -> (authorized: bool)
        ensures
            authorized == is_authorized(*config, signer@),
    {
        if config.upgrade_authority == *signer {
            return true;
        }
        match config.governance {
            Some(governance) => governance == *signer,
            None => false,
        }
    }

    /// Replaces the program by a new version, which must be greater than
    /// the current one. The accounts are the signer, who must be the upgrade
    /// authority or the governance, the program data, the program, the
    /// buffer with the new program, the rent, the clock, the upgradeable
    /// loader and the account of the configuration.
    pub fn process_upgrade_program(
        program_id: &Address,
        accounts: &Vec<AccountSnapshot>,
        program_config: &mut Option<ProgramConfig>,
        new_program_version: u32,
    ) -> (upgraded: Result<Vec<Action>, ProgramError>)
        ensures
            config_post(
                upgrade_outcome(program_id@, accounts@, *old(program_config), new_program_version),
                *old(program_config),
                *final(program_config),
                upgraded,
            ),
    {
        if accounts.len() < 8 {
            return Err(ProgramError::NotEnoughAccountKeys);
        }
        if !accounts[0].is_signer {
            return Err(ProgramError::MissingRequiredSignature);
        }
        match check_derived_address(&accounts[7], get_program_config_address(program_id)) {
            Err(e) => {
                return Err(e);
            },
            Ok(_) => {},
        }
        match verify_account_owner(&accounts[7], program_id) {
            Err(e) => {
                return Err(e);
            },
            Ok(_) => {},
        }
        let mut config: ProgramConfig = match program_config {
            Some(config) => *config,
            None => {
                return Err(ProgramError::BorshIoError);
            },
        };
        if !config.is_initialized {
            return Err(ProgramError::Custom(SwapError::UninitializedAccount));
        }
        if !Self::signer_is_authorized(&config, &accounts[0].key) {
            return Err(ProgramError::Custom(SwapError::UpgradeAuthorityMismatch));
        }
        if new_program_version <= config.version {
            return Err(ProgramError::Custom(SwapError::InvalidProgramVersion));
        }
        if accounts[6].key != upgradeable_loader_id() {
            return Err(ProgramError::Custom(SwapError::IncorrectProgramId));
        }
        let mut actions: Vec<Action> = Vec::new();
        actions.push(
            Action::UpgradeProgram {
                program: accounts[2].key,
                buffer: accounts[3].key,
                authority: accounts[0].key,
                spill: accounts[4].key,
            },
        );
        config.version = new_program_version;
        *program_config = Some(config);
        Ok(actions)
    }
}

/// The instruction did what its operation yields: an operation on a trade
/// loop leaves the configuration alone, and an operation on the
/// configuration the trade loop.
pub open spec fn instruction_post(
    program_id: Address,
    accounts: Seq<AccountSnapshot>,
    gate: Option<ProgramConfig>,
    loop_before: Option<TradeLoop>,
    loop_after: Option<TradeLoop>,
    config_before: Option<ProgramConfig>,
    config_after: Option<ProgramConfig>,
    now: u64,
    instruction: SwapInstruction,
    result: Result<Vec<Action>, ProgramError>,
) -> bool {
    match instruction {
        SwapInstruction::InitializeTradeLoop { trade_id, step_count, timeout_seconds } => {
            &&& config_after == config_before
            &&& loop_post(
                initialize_outcome(program_id, accounts, gate, now, trade_id@, step_count, timeout_seconds),
                loop_before,
                loop_after,
                result,
            )
        },
        SwapInstruction::AddTradeStep { step_index, to, nft_mints } => {
            &&& config_after == config_before
            &&& loop_post(
                add_step_outcome(
                    program_id@,
                    accounts,
                    gate,
                    loop_view(loop_before),
                    step_index,
                    to@,
                    addresses_view(nft_mints@),
                ),
                loop_before,
                loop_after,
                result,
            )
        },
        SwapInstruction::ApproveTradeStep { step_index } => {
            &&& config_after == config_before
            &&& loop_post(
                approve_outcome(program_id@, accounts, gate, loop_view(loop_before), now, step_index),
                loop_before,
                loop_after,
                result,
            )
        },
        SwapInstruction::ExecuteTradeStep { step_index } => {
            &&& config_after == config_before
            &&& loop_post(
                execute_step_outcome(program_id@, accounts, gate, loop_view(loop_before), now, step_index),
                loop_before,
                loop_after,
                result,
            )
        },
        SwapInstruction::ExecuteFullTradeLoop {  } => {
            &&& config_after == config_before
            &&& loop_post(
                execute_full_outcome(program_id@, accounts, gate, loop_view(loop_before), now),
                loop_before,
                loop_after,
                result,
            )
        },
        SwapInstruction::CancelTradeLoop {  } => {
            &&& config_after == config_before
            &&& loop_post(
                cancel_outcome(program_id@, accounts, gate, loop_view(loop_before)),
                loop_before,
                loop_after,
                result,
            )
        },
        SwapInstruction::UpgradeProgram { new_program_version } => {
            &&& loop_view(loop_after) == loop_view(loop_before)
            &&& config_post(
                upgrade_outcome(program_id@, accounts, config_before, new_program_version),
                config_before,
                config_after,
                result,
            )
        },
        SwapInstruction::InitializeProgramConfig { governance } => {
            &&& loop_view(loop_after) == loop_view(loop_before)
            &&& config_post(
                initialize_config_outcome(program_id, accounts, governance),
                config_before,
                config_after,
                result,
            )
        },
        SwapInstruction::UpdateProgramConfig { new_upgrade_authority, new_governance, new_paused_state } => {
            &&& loop_view(loop_after) == loop_view(loop_before)
            &&& config_post(
                update_config_outcome(
                    program_id@,
                    accounts,
                    config_before,
                    new_upgrade_authority,
                    new_governance,
                    new_paused_state,
                ),
                config_before,
                config_after,
                result,
            )
        },
    }
}

/// Carries out one instruction: the operation that it names, on the
/// accounts and the records that were read from them. `gate` is the
/// configuration that may pause the program, `trade_loop` the record in the
/// second account, and `program_config` the configuration that an
/// instruction on the configuration works on.
pub fn process_instruction(
    program_id: &Address,
    accounts: &Vec<AccountSnapshot>,
    gate: &Option<ProgramConfig>,
    trade_loop: &mut Option<TradeLoop>,
    program_config: &mut Option<ProgramConfig>,
    now: u64,
    instruction: SwapInstruction,
) -> (done: Result<Vec<Action>, ProgramError>)
    ensures
        instruction_post(
            *program_id,
            accounts@,
            *gate,
            *old(trade_loop),
            *final(trade_loop),
            *old(program_config),
            *final(program_config),
            now,
            instruction,
            done,
        ),
{
    match instruction {
        SwapInstruction::InitializeTradeLoop { trade_id, step_count, timeout_seconds } => {
            Processor::process_initialize_trade_loop(
                program_id,
                accounts,
                gate,
                trade_loop,
                now,
                trade_id,
                step_count,
                timeout_seconds,
            )
        },
        SwapInstruction::AddTradeStep { step_index, to, nft_mints } => {
            Processor::process_add_trade_step(program_id, accounts, gate, trade_loop, step_index, to, nft_mints)
        },
        SwapInstruction::ApproveTradeStep { step_index } => {
            Processor::process_approve_trade_step(program_id, accounts, gate, trade_loop, now, step_index)
        },
        SwapInstruction::ExecuteTradeStep { step_index } => {
            Processor::process_execute_trade_step(program_id, accounts, gate, trade_loop, now, step_index)
        },
        SwapInstruction::ExecuteFullTradeLoop {  } => {
            Processor::process_execute_full_trade_loop(program_id, accounts, gate, trade_loop, now)
        },
        SwapInstruction::CancelTradeLoop {  } => {
            Processor::process_cancel_trade_loop(program_id, accounts, gate, trade_loop)
        },
        SwapInstruction::UpgradeProgram { new_program_version } => {
            Processor::process_upgrade_program(program_id, accounts, program_config, new_program_version)
        },
        SwapInstruction::InitializeProgramConfig { governance } => {
            Processor::process_initialize_program_config(program_id, accounts, program_config, governance)
        },
        SwapInstruction::UpdateProgramConfig { new_upgrade_authority, new_governance, new_paused_state } => {
            Processor::process_update_program_config(
                program_id,
                accounts,
                program_config,
                new_upgrade_authority,
                new_governance,
                new_paused_state,
            )
        },
    }
}

/// Reads the instruction from its bytes and carries it out. Bytes that are
/// no instruction are refused and change nothing.
pub fn process_instruction_data(
    program_id: &Address,
    accounts: &Vec<AccountSnapshot>,
    gate: &Option<ProgramConfig>,
    trade_loop: &mut Option<TradeLoop>,
    program_config: &mut Option<ProgramConfig>,
    now: u64,
    instruction_data: &[u8],
) -> (done: Result<Vec<Action>, ProgramError>)
    ensures
        match decode(instruction_data@) {
            None => {
                &&& done is Err
                &&& done->Err_0 == ProgramError::Custom(SwapError::InvalidInstructionData)
                &&& *final(trade_loop) == *old(trade_loop)
                &&& *final(program_config) == *old(program_config)
            },
            Some(command) => exists|instruction: SwapInstruction|
                instruction@ == command && #[trigger] instruction_post(
                    *program_id,
                    accounts@,
                    *gate,
                    *old(trade_loop),
                    *final(trade_loop),
                    *old(program_config),
                    *final(program_config),
                    now,
                    instruction,
                    done,
                ),
        },
{
    match SwapInstruction::unpack(instruction_data) {
        Err(e) => Err(e),
        Ok(instruction) => {
            let ghost read = instruction;
            let done = process_instruction(program_id, accounts, gate, trade_loop, program_config, now, instruction);
            proof {
                assert(instruction_post(
                    *program_id,
                    accounts@,
                    *gate,
                    *old(trade_loop),
                    *trade_loop,
                    *old(program_config),
                    *program_config,
                    now,
                    read,
                    done,
                ));
            }
            done
        },
    }
}

} // verus!
