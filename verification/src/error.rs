//! The failures that an operation of the program reports.

use vstd::prelude::*;
use vstd::std_specs::convert::FromSpecImpl;

verus! {

/// Failures of the swap program itself.
#[derive(Clone, Copy, Debug, PartialEq, Eq, Structural)]
pub enum SwapError {
    /// Malformed, truncated or unrecognised instruction, or an invalid parameter.
    InvalidInstructionData,
    /// The account would not be rent exempt.
    NotRentExempt,
    /// The account is not owned by the expected program or participant.
    InvalidAccountOwner,
    /// The record has not been initialized.
    UninitializedAccount,
    /// An account that should be a well-known program is another one.
    IncorrectProgramId,
    /// The account's address or content is not what the operation expects.
    InvalidAccountData,
    /// The steps do not form a valid cycle.
    TradeLoopVerificationFailed,
    /// Execution was attempted before the required approvals exist.
    MissingApprovals,
    /// The step has already been executed.
    StepAlreadyExecuted,
    /// The signer is neither the upgrade authority nor the governance.
    UpgradeAuthorityMismatch,
    /// The new version is not greater than the current one.
    InvalidProgramVersion,
    /// The holder does not possess the asset.
    InsufficientFunds,
    /// The asset fails the authenticity checks.
    InvalidMetadataAccount,
    /// The trade loop has expired.
    TradeTimeoutExceeded,
    /// The trade loop has more steps than one transaction can settle.
    TooManyParticipants,
    /// Cancellation after an approval.
    CancellationDenied,
}

impl SwapError {
    /// The number under which the ledger reports this failure.
    pub open spec fn spec_code(self) -> u32 {
        match self {
            SwapError::InvalidInstructionData => 0,
            SwapError::NotRentExempt => 1,
            SwapError::InvalidAccountOwner => 2,
            SwapError::UninitializedAccount => 3,
            SwapError::IncorrectProgramId => 4,
            SwapError::InvalidAccountData => 5,
            SwapError::TradeLoopVerificationFailed => 6,
            SwapError::MissingApprovals => 7,
            SwapError::StepAlreadyExecuted => 8,
            SwapError::UpgradeAuthorityMismatch => 9,
            SwapError::InvalidProgramVersion => 10,
            SwapError::InsufficientFunds => 11,
            SwapError::InvalidMetadataAccount => 12,
            SwapError::TradeTimeoutExceeded => 13,
            SwapError::TooManyParticipants => 14,
            SwapError::CancellationDenied => 15,
        }
    }

    /// The description of this failure.
    pub open spec fn spec_message(self) -> Seq<char> {
        match self {
            SwapError::InvalidInstructionData => "Invalid instruction data"@,
            SwapError::NotRentExempt => "Account not rent exempt"@,
            SwapError::InvalidAccountOwner => "Account not owned by program"@,
            SwapError::UninitializedAccount => "Account not initialized"@,
            SwapError::IncorrectProgramId => "Account does not have correct program owner"@,
            SwapError::InvalidAccountData => "Invalid account data"@,
            SwapError::TradeLoopVerificationFailed => "Trade loop verification failed"@,
            SwapError::MissingApprovals => "Not all participants have approved the trade"@,
            SwapError::StepAlreadyExecuted => "Trade step already executed"@,
            SwapError::UpgradeAuthorityMismatch => "Upgrade authority does not match expected authority"@,
            SwapError::InvalidProgramVersion => "Invalid program version for upgrade"@,
            SwapError::InsufficientFunds => "Insufficient funds for transaction"@,
            SwapError::InvalidMetadataAccount => "Invalid metadata account"@,
            SwapError::TradeTimeoutExceeded => "Trade timeout exceeded"@,
            SwapError::TooManyParticipants => "Too many participants for a single transaction"@,
            SwapError::CancellationDenied => "Cancellation denied - trade already in progress"@,
        }
    }

    /// The number under which the ledger reports this failure: the position
    /// of the variant, counted from zero.
    pub fn code(&self) -> (code: u32)
        ensures
            code == self.spec_code(),
            code < 16,
    {
        match self {
            SwapError::InvalidInstructionData => 0,
            SwapError::NotRentExempt => 1,
            SwapError::InvalidAccountOwner => 2,
            SwapError::UninitializedAccount => 3,
            SwapError::IncorrectProgramId => 4,
            SwapError::InvalidAccountData => 5,
            SwapError::TradeLoopVerificationFailed => 6,
            SwapError::MissingApprovals => 7,
            SwapError::StepAlreadyExecuted => 8,
            SwapError::UpgradeAuthorityMismatch => 9,
            SwapError::InvalidProgramVersion => 10,
            SwapError::InsufficientFunds => 11,
            SwapError::InvalidMetadataAccount => 12,
            SwapError::TradeTimeoutExceeded => 13,
            SwapError::TooManyParticipants => 14,
            SwapError::CancellationDenied => 15,
        }
    }

    /// The description of this failure.
    pub fn message(&self) -> (text: String)
        ensures
            text@ == self.spec_message(),
    {
        let text: &str = match self {
            SwapError::InvalidInstructionData => "Invalid instruction data",
            SwapError::NotRentExempt => "Account not rent exempt",
            SwapError::InvalidAccountOwner => "Account not owned by program",
            SwapError::UninitializedAccount => "Account not initialized",
            SwapError::IncorrectProgramId => "Account does not have correct program owner",
            SwapError::InvalidAccountData => "Invalid account data",
            SwapError::TradeLoopVerificationFailed => "Trade loop verification failed",
            SwapError::MissingApprovals => "Not all participants have approved the trade",
            SwapError::StepAlreadyExecuted => "Trade step already executed",
            SwapError::UpgradeAuthorityMismatch => "Upgrade authority does not match expected authority",
            SwapError::InvalidProgramVersion => "Invalid program version for upgrade",
            SwapError::InsufficientFunds => "Insufficient funds for transaction",
            SwapError::InvalidMetadataAccount => "Invalid metadata account",
            SwapError::TradeTimeoutExceeded => "Trade timeout exceeded",
            SwapError::TooManyParticipants => "Too many participants for a single transaction",
            SwapError::CancellationDenied => "Cancellation denied - trade already in progress",
        };
        String::from_str(text)
    }

    /// The name of this family of failures.
    pub fn type_of() -> (name: &'static str)
        ensures
            name@ == "Swap Error"@,
    {
        "Swap Error"
    }
}

/// Failures that an operation of the processor reports: those of the swap
/// program itself and those of the ledger around it.
#[derive(Clone, Copy, Debug, PartialEq, Eq, Structural)]
pub enum ProgramError {
    /// A failure of the swap program, reported under its number.
    Custom(SwapError),
    /// An account that has to sign the transaction did not.
    MissingRequiredSignature,
    /// The instruction names fewer accounts than the operation reads.
    NotEnoughAccountKeys,
    /// The bytes of a token account do not have the token program's layout.
    InvalidAccountData,
    /// The token account has not been initialized.
    UninitializedAccount,
    /// The bytes of a record could not be read as that record.
    BorshIoError,
}

impl From<SwapError> for ProgramError {
    fn from(e: SwapError) -> (r: ProgramError) {
        ProgramError::Custom(e)
    }
}

impl FromSpecImpl<SwapError> for ProgramError {
    open spec fn obeys_from_spec() -> bool {
        true
    }

    open spec fn from_spec(e: SwapError) -> ProgramError {
        ProgramError::Custom(e)
    }
}

} // verus!
