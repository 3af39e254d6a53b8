//! Accounts as the processor sees them, the addresses of the program's
//! records, and the checks on assets and their holders.

use crate::address::{derivation_view, derive_program_address, derived_address, seeds_view, Address};
use crate::error::{ProgramError, SwapError};
use solana_program::program_error::ProgramError as OutsideError;
use solana_program::program_pack::Pack;
use vstd::prelude::*;

verus! {

/// What the processor reads of an account of the ledger.
#[derive(Debug, PartialEq, Eq)]
pub struct AccountSnapshot {
    /// The address of the account.
    pub key: Address,
    /// The program that owns the account.
    pub owner: Address,
    /// Whether the account signed the transaction.
    pub is_signer: bool,
    /// The bytes that the account holds.
    pub data: Vec<u8>,
}

impl Clone for AccountSnapshot {
    fn clone(&self) -> (copy: AccountSnapshot)
        ensures
            copy.key == self.key,
            copy.owner == self.owner,
            copy.is_signer == self.is_signer,
            copy.data@ == self.data@,
    {
        AccountSnapshot { key: self.key, owner: self.owner, is_signer: self.is_signer, data: self.data.clone() }
    }
}

/// What the checks read of an account of the token program.
#[derive(Clone, Copy, Debug, PartialEq, Eq)]
pub struct TokenAccount {
    /// The asset that the account holds.
    pub mint: Address,
    /// The participant to whom the account belongs.
    pub owner: Address,
    /// How many units the account holds.
    pub amount: u64,
}

/// What the checks read of the mint of an asset.
#[derive(Clone, Copy, Debug, PartialEq, Eq)]
pub struct Mint {
    /// How many units exist.
    pub supply: u64,
    /// Number of decimal places of a unit.
    pub decimals: u8,
    /// Whether the mint has been initialized.
    pub is_initialized: bool,
}

/// How thoroughly an asset is examined.
#[derive(Clone, Copy, Debug, PartialEq, Eq, Structural)]
pub enum NftVerificationMode {
    /// The mint is initialized and its units are indivisible.
    Basic,
    /// As `Basic`, and exactly one unit exists.
    Standard,
    /// As `Standard`, and a metadata account of at least 32 bytes is given.
    Strict,
}

/// The address of the token program.
pub open spec fn token_program_bytes() -> Seq<u8> {
    seq![
        6u8, 221, 246, 225, 215, 101, 161, 147, 217, 203, 225, 70, 206, 235, 121, 172, 28, 180, 133, 237, 95, 91, 55,
        145, 58, 140, 245, 133, 126, 255, 0, 169,
    ]
}

/// The address of the associated token account program.
pub open spec fn associated_token_program_bytes() -> Seq<u8> {
    seq![
        140u8, 151, 37, 143, 78, 36, 137, 241, 187, 61, 16, 41, 20, 142, 13, 131, 11, 90, 19, 153, 218, 255, 16, 132, 4,
        142, 123, 216, 219, 233, 248, 89,
    ]
}

/// The address of the system program.
pub open spec fn system_program_bytes() -> Seq<u8> {
    Seq::new(32, |i: int| 0u8)
}

/// The address of the program that owns the system variables.
pub open spec fn sysvar_program_bytes() -> Seq<u8> {
    seq![
        6u8, 167, 213, 23, 24, 117, 247, 41, 199, 61, 147, 64, 143, 33, 97, 32, 6, 126, 216, 140, 118, 224, 140, 40,
        127, 193, 148, 96, 0, 0, 0, 0,
    ]
}

/// The address of the upgradeable loader.
pub open spec fn upgradeable_loader_bytes() -> Seq<u8> {
    seq![
        2u8, 168, 246, 145, 78, 136, 161, 176, 226, 16, 21, 62, 247, 99, 174, 43, 0, 194, 185, 61, 22, 193, 36, 210,
        192, 83, 122, 16, 4, 128, 0, 0,
    ]
}

/// Calls `spl_token::id`, the constant address of the token program.
#[verifier::external_body]
pub(crate) fn token_program_id() -> (id: Address)
    ensures
        id@ == token_program_bytes(),
{
    Address { bytes: spl_token::id().to_bytes() }
}

/// Calls `spl_associated_token_account::id`, the constant address of the
/// associated token account program.
#[verifier::external_body]
pub(crate) fn associated_token_program_id() -> (id: Address)
    ensures
        id@ == associated_token_program_bytes(),
{
    Address { bytes: spl_associated_token_account::id().to_bytes() }
}

/// Calls `solana_program::system_program::id`, the constant address of the
/// system program: thirty-two zero bytes.
#[verifier::external_body]
pub(crate) fn system_program_id() -> (id: Address)
    ensures
        id@ == system_program_bytes(),
{
    Address { bytes: solana_program::system_program::id().to_bytes() }
}

/// Calls `solana_program::sysvar::id`, the constant address of the owner of
/// the system variables.
#[verifier::external_body]
pub(crate) fn sysvar_program_id() -> (id: Address)
    ensures
        id@ == sysvar_program_bytes(),
{
    Address { bytes: solana_program::sysvar::id().to_bytes() }
}

/// Calls `solana_program::bpf_loader_upgradeable::id`, the constant address
/// of the upgradeable loader.
#[verifier::external_body]
pub(crate) fn upgradeable_loader_id() -> (id: Address)
    ensures
        id@ == upgradeable_loader_bytes(),
{
    Address { bytes: solana_program::bpf_loader_upgradeable::id().to_bytes() }
}

/// What `spl_token::state::Account::unpack` makes of the bytes: the asset,
/// the owner and the amount of an initialized token account, or the failure.
pub uninterp spec fn unpacked_token_account(data: Seq<u8>) -> Result<TokenAccount, ProgramError>;

/// What `spl_token::state::Mint::unpack` makes of the bytes: the supply, the
/// decimals and the initialization of an initialized mint, or nothing.
pub uninterp spec fn unpacked_mint(data: Seq<u8>) -> Option<Mint>;

/// Calls `spl_token::state::Account::unpack`, which reads the 165 bytes of an
/// initialized token account and fails on any other input; the result depends
/// on the bytes alone and is named `unpacked_token_account`. An account that
/// is not initialized comes back as `UninitializedAccount`, every other
/// failure as `InvalidAccountData`.
#[verifier::external_body]
pub(crate) fn unpack_token_account(data: &[u8]) -> (unpacked: Result<TokenAccount, ProgramError>)
    ensures
        unpacked == unpacked_token_account(data@),
{
    match spl_token::state::Account::unpack(data) {
        Ok(account) => Ok(
            TokenAccount {
                mint: Address { bytes: account.mint.to_bytes() },
                owner: Address { bytes: account.owner.to_bytes() },
                amount: account.amount,
            },
        ),
        Err(OutsideError::UninitializedAccount) => Err(ProgramError::UninitializedAccount),
        Err(_) => Err(ProgramError::InvalidAccountData),
    }
}

/// Calls `spl_token::state::Mint::unpack`, which reads the 82 bytes of an
/// initialized mint and fails on any other input; the result depends on the
/// bytes alone and is named `unpacked_mint`.
#[verifier::external_body]
pub(crate) fn unpack_mint(data: &[u8]) -> (unpacked: Option<Mint>)
    ensures
        unpacked == unpacked_mint(data@),
{
    match spl_token::state::Mint::unpack(data) {
        Ok(mint) => Some(Mint { supply: mint.supply, decimals: mint.decimals, is_initialized: mint.is_initialized }),
        Err(_) => None,
    }
}

/// The seed of the addresses of trade loops: the bytes of `trade_loop`.
pub open spec fn trade_loop_seed() -> Seq<u8> {
    seq![116u8, 114, 97, 100, 101, 95, 108, 111, 111, 112]
}

/// The seed of the address of the configuration: the bytes of `config`.
pub open spec fn config_seed() -> Seq<u8> {
    seq![99u8, 111, 110, 102, 105, 103]
}

/// The address of the configuration record of `program_id`, if one can be
/// derived.
pub open spec fn config_address(program_id: Seq<u8>) -> Option<Seq<u8>> {
    match derived_address(seq![config_seed()], program_id) {
        Some((address, _)) => Some(address),
        None => None,
    }
}

/// The address of the token account that the associated token account
/// program keeps for `wallet` and `mint`, if one can be derived.
pub open spec fn associated_token_address(wallet: Seq<u8>, mint: Seq<u8>) -> Option<Seq<u8>> {
    match derived_address(seq![wallet, token_program_bytes(), mint], associated_token_program_bytes()) {
        Some((address, _)) => Some(address),
        None => None,
    }
}

/// The address that `program_id` derives from the seeds, with its bump
/// seed, if there is one.
pub fn find_program_address(seeds: &[&[u8]], program_id: &Address) -> (found: Option<(Address, u8)>)
    ensures
        derivation_view(found) == derived_address(seeds_view(seeds), program_id@),
{
    derive_program_address(seeds, program_id)
}

/// The address of the record of the trade loop `trade_id` that `creator`
/// made, with its bump seed.
pub fn get_trade_loop_address(trade_id: &[u8; 32], creator: &Address, program_id: &Address) -> (found: Option<
    (Address, u8),
>)
    ensures
        derivation_view(found) == derived_address(seq![trade_loop_seed(), trade_id@, creator@], program_id@),
{
    let label: [u8; 10] = [116, 114, 97, 100, 101, 95, 108, 111, 111, 112];
    let parts: [&[u8]; 3] = [label.as_slice(), trade_id.as_slice(), creator.bytes.as_slice()];
    let seeds: &[&[u8]] = parts.as_slice();
    proof {
        assert(seeds_view(seeds) =~= seq![trade_loop_seed(), trade_id@, creator@]);
    }
    derive_program_address(seeds, program_id)
}

/// The address of the record of the trade loop `trade_id` as derived
/// without its creator, with its bump seed.
pub fn get_trade_loop_address_legacy(trade_id: &[u8; 32], program_id: &Address) -> (found: Option<(Address, u8)>)
    ensures
        derivation_view(found) == derived_address(seq![trade_loop_seed(), trade_id@], program_id@),
{
    let label: [u8; 10] = [116, 114, 97, 100, 101, 95, 108, 111, 111, 112];
    let parts: [&[u8]; 2] = [label.as_slice(), trade_id.as_slice()];
    let seeds: &[&[u8]] = parts.as_slice();
    proof {
        assert(seeds_view(seeds) =~= seq![trade_loop_seed(), trade_id@]);
    }
    derive_program_address(seeds, program_id)
}

/// The address of the configuration record, with its bump seed.
pub fn get_program_config_address(program_id: &Address) -> (found: Option<(Address, u8)>)
    ensures
        derivation_view(found) == derived_address(seq![config_seed()], program_id@),
        match found {
            Some((address, _)) => config_address(program_id@) == Some(address@),
            None => config_address(program_id@) is None,
        },
{
    let label: [u8; 6] = [99, 111, 110, 102, 105, 103];
    let parts: [&[u8]; 1] = [label.as_slice()];
    let seeds: &[&[u8]] = parts.as_slice();
    proof {
        assert(seeds_view(seeds) =~= seq![config_seed()]);
    }
    derive_program_address(seeds, program_id)
}

/// The account must be owned by `program_id`.
pub fn verify_account_owner(account: &AccountSnapshot, program_id: &Address) -> (verified: Result<(), ProgramError>)
    ensures
        verified == if account.owner@ == program_id@ {
            Ok::<(), ProgramError>(())
        } else {
            Err(ProgramError::Custom(SwapError::InvalidAccountOwner))
        },
{
    if account.owner != *program_id {
        return Err(ProgramError::Custom(SwapError::InvalidAccountOwner));
    }
    Ok(())
}

/// The account must be owned by the token program.
pub fn verify_token_account_owner(account: &AccountSnapshot) -> (verified: Result<(), ProgramError>)
    ensures
        verified == if account.owner@ == token_program_bytes() {
            Ok::<(), ProgramError>(())
        } else {
            Err(ProgramError::Custom(SwapError::InvalidAccountOwner))
        },
{
    verify_account_owner(account, &token_program_id())
}

/// The account must be owned by the system program.
pub fn verify_system_account_owner(account: &AccountSnapshot) -> (verified: Result<(), ProgramError>)
    ensures
        verified == if account.owner@ == system_program_bytes() {
            Ok::<(), ProgramError>(())
        } else {
            Err(ProgramError::Custom(SwapError::InvalidAccountOwner))
        },
{
    verify_account_owner(account, &system_program_id())
}

/// The account must be owned by the owner of the system variables.
pub fn verify_sysvar_account_owner(account: &AccountSnapshot) -> (verified: Result<(), ProgramError>)
    ensures
        verified == if account.owner@ == sysvar_program_bytes() {
            Ok::<(), ProgramError>(())
        } else {
            Err(ProgramError::Custom(SwapError::InvalidAccountOwner))
        },
{
    verify_account_owner(account, &sysvar_program_id())
}

/// The account must stand at the address that was derived for it. The
/// result is the bump seed of the derivation.
pub fn check_derived_address(account: &AccountSnapshot, derived: Option<(Address, u8)>) -> (checked: Result<
    u8,
    ProgramError,
>)
    ensures
        checked == match derived {
            Some((address, bump)) => if account.key@ == address@ {
                Ok::<u8, ProgramError>(bump)
            } else {
                Err(ProgramError::Custom(SwapError::InvalidAccountData))
            },
            None => Err(ProgramError::Custom(SwapError::InvalidAccountData)),
        },
{
    match derived {
        Some((address, bump)) => {
            if account.key != address {
                return Err(ProgramError::Custom(SwapError::InvalidAccountData));
            }
            Ok(bump)
        },
        None => Err(ProgramError::Custom(SwapError::InvalidAccountData)),
    }
}

/// The account must stand at the address that the associated token account
/// program derives for `wallet` and `mint`.
pub fn verify_token_account_address(token_account: &AccountSnapshot, wallet: &Address, mint: &Address) -> (verified:
    Result<(), ProgramError>)
    ensures
        verified == if associated_token_address(wallet@, mint@) == Some(token_account.key@) {
            Ok::<(), ProgramError>(())
        } else {
            Err(ProgramError::Custom(SwapError::InvalidAccountData))
        },
{
    let token_program = token_program_id();
    let parts: [&[u8]; 3] = [wallet.bytes.as_slice(), token_program.bytes.as_slice(), mint.bytes.as_slice()];
    let seeds: &[&[u8]] = parts.as_slice();
    proof {
        assert(seeds_view(seeds) =~= seq![wallet@, token_program_bytes(), mint@]);
    }
    match check_derived_address(token_account, derive_program_address(seeds, &associated_token_program_id())) {
        Ok(_) => Ok(()),
        Err(e) => Err(e),
    }
}

/// The mint is that of an indivisible asset: it could be read, its units
/// have no decimal places and it is initialized.
pub open spec fn basic_mint(unpacked: Option<Mint>) -> bool {
    match unpacked {
        Some(mint) => mint.decimals == 0 && mint.is_initialized,
        None => false,
    }
}

/// The account is the mint of a genuine asset, as far as `mode` asks.
pub open spec fn genuine_asset(
    mint_owner: Seq<u8>,
    unpacked: Option<Mint>,
    metadata_len: Option<nat>,
    mode: NftVerificationMode,
) -> bool {
    &&& mint_owner == token_program_bytes()
    &&& basic_mint(unpacked)
    &&& mode != NftVerificationMode::Basic ==> unpacked->Some_0.supply == 1
    &&& mode == NftVerificationMode::Strict ==> metadata_len is Some && metadata_len->Some_0 >= 32
}

/// The length of the data of the metadata account, if one is given.
pub open spec fn metadata_len(metadata: Option<&AccountSnapshot>) -> Option<nat> {
    match metadata {
        Some(account) => Some(account.data@.len()),
        None => None,
    }
}

/// What the checks on a mint that was read yield: the mint itself where it
/// is that of an indivisible, initialized asset.
pub fn check_mint_properties(unpacked: Option<Mint>) -> (checked: Result<Mint, ProgramError>)
    ensures
        match checked {
            Ok(mint) => basic_mint(unpacked) && unpacked == Some(mint),
            Err(e) => !basic_mint(unpacked) && e == ProgramError::Custom(SwapError::InvalidMetadataAccount),
        },
{
    let mint = match unpacked {
        Some(mint) => mint,
        None => {
            return Err(ProgramError::Custom(SwapError::InvalidMetadataAccount));
        },
    };
    if mint.decimals != 0 {
        return Err(ProgramError::Custom(SwapError::InvalidMetadataAccount));
    }
    if !mint.is_initialized {
        return Err(ProgramError::Custom(SwapError::InvalidMetadataAccount));
    }
    Ok(mint)
}

/// Reads the mint from an account of the token program and checks that it
/// is that of an indivisible, initialized asset.
pub fn verify_basic_mint_properties(mint_info: &AccountSnapshot) -> (verified: Result<Mint, ProgramError>)
    ensures
        match verified {
            Ok(mint) => {
                &&& mint_info.owner@ == token_program_bytes()
                &&& basic_mint(unpacked_mint(mint_info.data@))
                &&& unpacked_mint(mint_info.data@) == Some(mint)
            },
            Err(e) => {
                &&& !(mint_info.owner@ == token_program_bytes() && basic_mint(unpacked_mint(mint_info.data@)))
                &&& e == ProgramError::Custom(SwapError::InvalidMetadataAccount)
            },
        },
{
    if mint_info.owner != token_program_id() {
        return Err(ProgramError::Custom(SwapError::InvalidMetadataAccount));
    }
    check_mint_properties(unpack_mint(mint_info.data.as_slice()))
}

/// Exactly one unit of the asset must exist.
pub fn verify_nft_supply_constraints(mint_data: &Mint, mint_key: &Address) -> (verified: Result<(), ProgramError>)
    ensures
        verified == if mint_data.supply == 1 {
            Ok::<(), ProgramError>(())
        } else {
            Err(ProgramError::Custom(SwapError::InvalidMetadataAccount))
        },
{
    if mint_data.supply != 1 {
        return Err(ProgramError::Custom(SwapError::InvalidMetadataAccount));
    }
    Ok(())
}

/// A mint is accepted whoever may mint further units or freeze accounts:
/// neither authority decides.
pub fn verify_mint_authority_safety(mint_data: &Mint, mint_key: &Address) -> (verified: Result<(), ProgramError>)
    ensures
        verified is Ok,
{
    Ok(())
}

/// The metadata account must hold at least 32 bytes.
pub fn verify_metaplex_metadata(mint_info: &AccountSnapshot, metadata_info: &AccountSnapshot) -> (verified: Result<
    (),
    ProgramError,
>)
    ensures
        verified == if metadata_info.data@.len() >= 32 {
            Ok::<(), ProgramError>(())
        } else {
            Err(ProgramError::Custom(SwapError::InvalidMetadataAccount))
        },
{
    if metadata_info.data.len() == 0 {
        return Err(ProgramError::Custom(SwapError::InvalidMetadataAccount));
    }
    if metadata_info.data.len() < 32 {
        return Err(ProgramError::Custom(SwapError::InvalidMetadataAccount));
    }
    Ok(())
}

/// Examines the mint of an asset as far as `mode` asks. `Strict` needs the
/// metadata account.
pub fn verify_nft_metadata_with_mode(
    mint_info: &AccountSnapshot,
    metadata_info: Option<&AccountSnapshot>,
    mode: NftVerificationMode,
) -> (verified: Result<(), ProgramError>)
    ensures
        verified == if genuine_asset(
            mint_info.owner@,
            unpacked_mint(mint_info.data@),
            metadata_len(metadata_info),
            mode,
        ) {
            Ok::<(), ProgramError>(())
        } else {
            Err(ProgramError::Custom(SwapError::InvalidMetadataAccount))
        },
{
    let mint_data = match verify_basic_mint_properties(mint_info) {
        Ok(mint) => mint,
        Err(e) => {
            return Err(e);
        },
    };
    if mode != NftVerificationMode::Basic {
        match verify_nft_supply_constraints(&mint_data, &mint_info.key) {
            Err(e) => {
                return Err(e);
            },
            Ok(_) => {},
        }
        match verify_mint_authority_safety(&mint_data, &mint_info.key) {
            Err(e) => {
                return Err(e);
            },
            Ok(_) => {},
        }
    }
    if mode == NftVerificationMode::Strict {
        match metadata_info {
            Some(metadata_account) => {
                match verify_metaplex_metadata(mint_info, metadata_account) {
                    Err(e) => {
                        return Err(e);
                    },
                    Ok(_) => {},
                }
            },
            None => {
                return Err(ProgramError::Custom(SwapError::InvalidMetadataAccount));
            },
        }
    }
    Ok(())
}

/// Examines the mint of an asset in the `Standard` mode: an initialized mint
/// of the token program with indivisible units, of which exactly one exists.
pub fn verify_nft_metadata(mint_info: &AccountSnapshot) -> (verified: Result<(), ProgramError>)
    ensures
        verified == if genuine_asset(
            mint_info.owner@,
            unpacked_mint(mint_info.data@),
            None,
            NftVerificationMode::Standard,
        ) {
            Ok::<(), ProgramError>(())
        } else {
            Err(ProgramError::Custom(SwapError::InvalidMetadataAccount))
        },
{
    verify_nft_metadata_with_mode(mint_info, None, NftVerificationMode::Standard)
}

/// Why the token account, as it was read, does not show that `holder` holds
/// a unit of `mint`, if it does not.
pub open spec fn holding_fault(unpacked: Result<TokenAccount, ProgramError>, holder: Seq<u8>, mint: Seq<u8>) -> Option<
    ProgramError,
> {
    match unpacked {
        Err(e) => Some(e),
        Ok(account) => if account.owner@ != holder {
            Some(ProgramError::Custom(SwapError::InvalidAccountOwner))
        } else if account.mint@ != mint {
            Some(ProgramError::Custom(SwapError::InvalidAccountData))
        } else if account.amount < 1 {
            Some(ProgramError::Custom(SwapError::InsufficientFunds))
        } else {
            None
        },
    }
}

/// The token account, as it was read, must belong to `holder`, be one of
/// `mint` and hold at least one unit. A token account that could not be read
/// fails with the failure of the reading.
pub fn check_holding(unpacked: Result<TokenAccount, ProgramError>, holder: &Address, mint: &Address) -> (checked:
    Result<(), ProgramError>)
    ensures
        match holding_fault(unpacked, holder@, mint@) {
            Some(e) => checked == Err::<(), ProgramError>(e),
            None => checked is Ok,
        },
{
    let account = match unpacked {
        Ok(account) => account,
        Err(e) => {
            return Err(e);
        },
    };
    if account.owner != *holder {
        return Err(ProgramError::Custom(SwapError::InvalidAccountOwner));
    }
    if account.mint != *mint {
        return Err(ProgramError::Custom(SwapError::InvalidAccountData));
    }
    if account.amount < 1 {
        return Err(ProgramError::Custom(SwapError::InsufficientFunds));
    }
    Ok(())
}

/// Why the two accounts do not show that `holder` holds a genuine unit of
/// the asset `expected_mint`, if they do not: the first must be the mint of
/// that asset and genuine, the second the token account that the associated
/// token account program keeps for the holder and the asset, owned by the
/// token program.
pub open spec fn source_fault(
    mint_info: AccountSnapshot,
    source: AccountSnapshot,
    holder: Seq<u8>,
    expected_mint: Seq<u8>,
) -> Option<ProgramError> {
    if mint_info.key@ != expected_mint {
        Some(ProgramError::Custom(SwapError::InvalidAccountData))
    } else if !genuine_asset(
        mint_info.owner@,
        unpacked_mint(mint_info.data@),
        None,
        NftVerificationMode::Standard,
    ) {
        Some(ProgramError::Custom(SwapError::InvalidMetadataAccount))
    } else if source.owner@ != token_program_bytes() {
        Some(ProgramError::Custom(SwapError::InvalidAccountOwner))
    } else if associated_token_address(holder, mint_info.key@) != Some(source.key@) {
        Some(ProgramError::Custom(SwapError::InvalidAccountData))
    } else {
        None
    }
}

/// The checks on the mint and on the address of the token account of the
/// holder of an asset.
pub fn verify_source(mint_info: &AccountSnapshot, source: &AccountSnapshot, holder: &Address, expected_mint: &Address) -> (verified:
    Result<(), ProgramError>)
    ensures
        match source_fault(*mint_info, *source, holder@, expected_mint@) {
            Some(e) => verified == Err::<(), ProgramError>(e),
            None => verified is Ok,
        },
{
    if mint_info.key != *expected_mint {
        return Err(ProgramError::Custom(SwapError::InvalidAccountData));
    }
    match verify_nft_metadata(mint_info) {
        Err(e) => {
            return Err(e);
        },
        Ok(_) => {},
    }
    match verify_token_account_owner(source) {
        Err(e) => {
            return Err(e);
        },
        Ok(_) => {},
    }
    verify_token_account_address(source, holder, &mint_info.key)
}

/// Why the accounts do not show that `holder` holds a genuine unit of the
/// asset `expected_mint`, if they do not.
pub open spec fn ownership_fault(
    mint_info: AccountSnapshot,
    source: AccountSnapshot,
    holder: Seq<u8>,
    expected_mint: Seq<u8>,
) -> Option<ProgramError> {
    match source_fault(mint_info, source, holder, expected_mint) {
        Some(e) => Some(e),
        None => holding_fault(unpacked_token_account(source.data@), holder, mint_info.key@),
    }
}

/// Checks that `holder` holds a genuine unit of the asset `expected_mint`:
/// the mint is genuine, and the token account is the holder's own for this
/// asset and holds at least one unit.
pub fn verify_ownership(
    mint_info: &AccountSnapshot,
    source: &AccountSnapshot,
    holder: &Address,
    expected_mint: &Address,
) -> (verified: Result<(), ProgramError>)
    ensures
        match ownership_fault(*mint_info, *source, holder@, expected_mint@) {
            Some(e) => verified == Err::<(), ProgramError>(e),
            None => verified is Ok,
        },
{
    match verify_source(mint_info, source, holder, expected_mint) {
        Err(e) => {
            return Err(e);
        },
        Ok(_) => {},
    }
    check_holding(unpack_token_account(source.data.as_slice()), holder, &mint_info.key)
}

/// What the ledger has to carry out for an operation that succeeded.
#[derive(Clone, Copy, Debug, PartialEq, Eq)]
pub enum Action {
    /// Create the account `new_account` with `space` bytes, paid by `payer`
    /// and owned by `owner`.
    CreateAccount { payer: Address, new_account: Address, space: usize, owner: Address },
    /// Create the configuration record at its derived address, which the
    /// program signs for with the seed of the configuration and `bump_seed`.
    CreateConfigAccount { payer: Address, config: Address, space: usize, owner: Address, bump_seed: u8 },
    /// Create the token account that the associated token account program
    /// keeps for `wallet` and `mint`, paid by `payer`.
    CreateAssociatedTokenAccount { payer: Address, wallet: Address, mint: Address, token_account: Address },
    /// Move one unit from the token account `source` to the token account
    /// `destination`, on the authority of `authority`.
    TransferNft { source: Address, destination: Address, authority: Address },
    /// Replace the program by the content of `buffer`, on the authority of
    /// `authority`; what remains of the buffer's funds goes to `spill`.
    UpgradeProgram { program: Address, buffer: Address, authority: Address, spill: Address },
}

/// The creation of the account `new_account` with `space` bytes, paid by
/// `payer` and owned by `owner`.
pub fn create_and_initialize_account(payer: &Address, new_account: &Address, space: usize, owner: &Address) -> (action:
    Action)
    ensures
        action == (Action::CreateAccount { payer: *payer, new_account: *new_account, space, owner: *owner }),
{
    Action::CreateAccount { payer: *payer, new_account: *new_account, space, owner: *owner }
}

/// The creation of the token account of `wallet` for `mint`, paid by
/// `payer`, where the account does not exist yet; nothing where it does.
pub fn create_associated_token_account_if_needed(
    payer: &Address,
    wallet: &Address,
    mint: &Address,
    token_account: &AccountSnapshot,
) -> (action: Option<Action>)
    ensures
        action == if token_account.data@.len() > 0 {
            None::<Action>
        } else {
            Some(
                Action::CreateAssociatedTokenAccount {
                    payer: *payer,
                    wallet: *wallet,
                    mint: *mint,
                    token_account: token_account.key,
                },
            )
        },
{
    if token_account.data.len() > 0 {
        return None;
    }
    Some(
        Action::CreateAssociatedTokenAccount {
            payer: *payer,
            wallet: *wallet,
            mint: *mint,
            token_account: token_account.key,
        },
    )
}

/// The transfer of one unit from `source` to `destination` on the
/// authority of `authority`.
pub fn transfer_nft(source: &Address, destination: &Address, authority: &Address) -> (action: Action)
    ensures
        action == (Action::TransferNft { source: *source, destination: *destination, authority: *authority }),
{
    Action::TransferNft { source: *source, destination: *destination, authority: *authority }
}

} // verus!
