//! The instructions of the program and their two encodings: the legacy
//! layout of a tag and fixed fields, and the versioned layout behind the
//! marker byte 255.

use crate::address::{append_array, read_array, Address};
use crate::error::{ProgramError, SwapError};
use crate::state::{addresses_view, clone_addresses};
use vstd::bytes::{
    spec_u32_from_le_bytes, spec_u32_to_le_bytes, spec_u64_from_le_bytes, spec_u64_to_le_bytes, u32_from_le_bytes,
    u32_to_le_bytes, u64_from_le_bytes, u64_to_le_bytes,
};
use vstd::prelude::*;
use vstd::slice::slice_subrange;

verus! {

/// The first byte of a versioned instruction.
pub const VERSION_MARKER: u8 = 255;

/// An instruction of the program.
#[derive(Debug, PartialEq, Eq)]
pub enum SwapInstruction {
    /// Creates a trade loop.
    InitializeTradeLoop {
        /// The identifier of the trade loop.
        trade_id: [u8; 32],
        /// The number of steps of the loop.
        step_count: u8,
        /// The lifetime of the loop, in seconds.
        timeout_seconds: u64,
    },
    /// Adds a step to a trade loop.
    AddTradeStep {
        /// The index of the step.
        step_index: u8,
        /// The participant who receives.
        to: Address,
        /// The assets that change hands.
        nft_mints: Vec<Address>,
    },
    /// Approves a step on behalf of its sender.
    ApproveTradeStep {
        /// The index of the step.
        step_index: u8,
    },
    /// Executes one approved step.
    ExecuteTradeStep {
        /// The index of the step.
        step_index: u8,
    },
    /// Executes the whole loop.
    ExecuteFullTradeLoop {  },
    /// Cancels the loop.
    CancelTradeLoop {  },
    /// Creates the configuration of the program.
    InitializeProgramConfig {
        /// Who may change the configuration beside the upgrade authority.
        governance: Option<Address>,
    },
    /// Changes the configuration of the program.
    UpdateProgramConfig {
        /// The new upgrade authority, if it changes.
        new_upgrade_authority: Option<Address>,
        /// The new governance, if it changes.
        new_governance: Option<Address>,
        /// Whether the program is paused from now on, if that changes.
        new_paused_state: Option<bool>,
    },
    /// Replaces the program by a new version.
    UpgradeProgram {
        /// The new version.
        new_program_version: u32,
    },
}

/// The mathematical content of an instruction.
pub enum Command {
    InitializeTradeLoop { trade_id: Seq<u8>, step_count: u8, timeout_seconds: u64 },
    AddTradeStep { step_index: u8, to: Seq<u8>, nft_mints: Seq<Seq<u8>> },
    ApproveTradeStep { step_index: u8 },
    ExecuteTradeStep { step_index: u8 },
    ExecuteFullTradeLoop,
    CancelTradeLoop,
    InitializeProgramConfig { governance: Option<Seq<u8>> },
    UpdateProgramConfig {
        new_upgrade_authority: Option<Seq<u8>>,
        new_governance: Option<Seq<u8>>,
        new_paused_state: Option<bool>,
    },
    UpgradeProgram { new_program_version: u32 },
}

/// The bytes of an address that may be absent.
pub open spec fn optional_view(address: Option<Address>) -> Option<Seq<u8>> {
    match address {
        Some(a) => Some(a@),
        None => None,
    }
}

impl View for SwapInstruction {
    type V = Command;

    open spec fn view(&self) -> Command {
        match *self {
            SwapInstruction::InitializeTradeLoop { trade_id, step_count, timeout_seconds } => {
                Command::InitializeTradeLoop { trade_id: trade_id@, step_count, timeout_seconds }
            },
            SwapInstruction::AddTradeStep { step_index, to, nft_mints } => Command::AddTradeStep {
                step_index,
                to: to@,
                nft_mints: addresses_view(nft_mints@),
            },
            SwapInstruction::ApproveTradeStep { step_index } => Command::ApproveTradeStep { step_index },
            SwapInstruction::ExecuteTradeStep { step_index } => Command::ExecuteTradeStep { step_index },
            SwapInstruction::ExecuteFullTradeLoop {  } => Command::ExecuteFullTradeLoop,
            SwapInstruction::CancelTradeLoop {  } => Command::CancelTradeLoop,
            SwapInstruction::InitializeProgramConfig { governance } => Command::InitializeProgramConfig {
                governance: optional_view(governance),
            },
            SwapInstruction::UpdateProgramConfig { new_upgrade_authority, new_governance, new_paused_state } => {
                Command::UpdateProgramConfig {
                    new_upgrade_authority: optional_view(new_upgrade_authority),
                    new_governance: optional_view(new_governance),
                    new_paused_state,
                }
            },
            SwapInstruction::UpgradeProgram { new_program_version } => Command::UpgradeProgram { new_program_version },
        }
    }
}

/// The format in which an instruction is written.
#[derive(Clone, Copy, Debug, PartialEq, Eq, Structural)]
pub enum InstructionVersion {
    /// The layout of a tag and fixed fields.
    Legacy,
    /// The first versioned layout.
    V1,
}

/// An instruction together with the version of its format.
#[derive(Debug, PartialEq, Eq)]
pub struct VersionedInstruction {
    pub version: InstructionVersion,
    pub instruction: SwapInstruction,
}

/// The mathematical content of a versioned instruction.
pub struct VersionedCommand {
    pub version: InstructionVersion,
    pub command: Command,
}

impl View for VersionedInstruction {
    type V = VersionedCommand;

    open spec fn view(&self) -> VersionedCommand {
        VersionedCommand { version: self.version, command: self.instruction@ }
    }
}

/// Every address has 32 bytes.
pub open spec fn all_addresses(list: Seq<Seq<u8>>) -> bool {
    forall|i: int| 0 <= i < list.len() ==> (#[trigger] list[i]).len() == 32
}

/// The address, where there is one, has 32 bytes.
pub open spec fn optional_address(address: Option<Seq<u8>>) -> bool {
    address is Some ==> address->Some_0.len() == 32
}

impl Command {
    /// Every identifier and address of the command has 32 bytes.
    pub open spec fn well_formed(self) -> bool {
        match self {
            Command::InitializeTradeLoop { trade_id, .. } => trade_id.len() == 32,
            Command::AddTradeStep { to, nft_mints, .. } => to.len() == 32 && all_addresses(nft_mints),
            Command::InitializeProgramConfig { governance } => optional_address(governance),
            Command::UpdateProgramConfig { new_upgrade_authority, new_governance, .. } => optional_address(
                new_upgrade_authority,
            ) && optional_address(new_governance),
            _ => true,
        }
    }

    /// The number of assets of an added step, zero for other commands.
    pub open spec fn asset_count(self) -> nat {
        match self {
            Command::AddTradeStep { nft_mints, .. } => nft_mints.len(),
            _ => 0,
        }
    }
}

/// The byte that stands for a truth value.
pub open spec fn flag_byte(flag: bool) -> u8 {
    if flag {
        1
    } else {
        0
    }
}

/// An address that may be absent: a zero byte, or a one and the address.
pub open spec fn optional_address_bytes(address: Option<Seq<u8>>) -> Seq<u8> {
    match address {
        Some(a) => seq![1u8] + a,
        None => seq![0u8],
    }
}

/// A truth value that may be absent: a zero byte, or a one and its byte.
pub open spec fn optional_flag_bytes(flag: Option<bool>) -> Seq<u8> {
    match flag {
        Some(f) => seq![1u8, flag_byte(f)],
        None => seq![0u8],
    }
}

/// The addresses one after the other.
pub open spec fn concat_addresses(list: Seq<Seq<u8>>) -> Seq<u8> {
    Seq::new(32 * list.len(), |j: int| list[j / 32][j % 32])
}

/// The `count` addresses that stand in `bytes` from `start` on.
pub open spec fn addresses_at(bytes: Seq<u8>, start: int, count: int) -> Seq<Seq<u8>> {
    Seq::new(count as nat, |i: int| bytes.subrange(start + 32 * i, start + 32 * i + 32))
}

/// The legacy encoding of a command: the tag and the fields at fixed
/// offsets, integers in little-endian order. The number of assets is
/// written in one byte.
pub open spec fn legacy_bytes(command: Command) -> Seq<u8> {
    match command {
        Command::InitializeTradeLoop { trade_id, step_count, timeout_seconds } => seq![0u8] + trade_id
            + seq![step_count] + spec_u64_to_le_bytes(timeout_seconds),
        Command::AddTradeStep { step_index, to, nft_mints } => seq![1u8, step_index] + to + seq![
            (nft_mints.len() % 256) as u8,
        ] + concat_addresses(nft_mints),
        Command::ApproveTradeStep { step_index } => seq![2u8, step_index],
        Command::ExecuteTradeStep { step_index } => seq![3u8, step_index],
        Command::ExecuteFullTradeLoop => seq![4u8],
        Command::CancelTradeLoop => seq![5u8],
        Command::UpgradeProgram { new_program_version } => seq![6u8] + spec_u32_to_le_bytes(new_program_version),
        Command::InitializeProgramConfig { governance } => seq![7u8] + optional_address_bytes(governance),
        Command::UpdateProgramConfig { new_upgrade_authority, new_governance, new_paused_state } => seq![8u8]
            + optional_address_bytes(new_upgrade_authority) + optional_address_bytes(new_governance)
            + optional_flag_bytes(new_paused_state),
    }
}

/// The self-describing encoding of a command: the position of the variant
/// in one byte, then its fields in their order, integers in little-endian
/// order, a list as its length in four bytes and its items.
pub open spec fn command_bytes(command: Command) -> Seq<u8> {
    match command {
        Command::InitializeTradeLoop { trade_id, step_count, timeout_seconds } => seq![0u8] + trade_id
            + seq![step_count] + spec_u64_to_le_bytes(timeout_seconds),
        Command::AddTradeStep { step_index, to, nft_mints } => seq![1u8, step_index] + to + spec_u32_to_le_bytes(
            nft_mints.len() as u32,
        ) + concat_addresses(nft_mints),
        Command::ApproveTradeStep { step_index } => seq![2u8, step_index],
        Command::ExecuteTradeStep { step_index } => seq![3u8, step_index],
        Command::ExecuteFullTradeLoop => seq![4u8],
        Command::CancelTradeLoop => seq![5u8],
        Command::InitializeProgramConfig { governance } => seq![6u8] + optional_address_bytes(governance),
        Command::UpdateProgramConfig { new_upgrade_authority, new_governance, new_paused_state } => seq![7u8]
            + optional_address_bytes(new_upgrade_authority) + optional_address_bytes(new_governance)
            + optional_flag_bytes(new_paused_state),
        Command::UpgradeProgram { new_program_version } => seq![8u8] + spec_u32_to_le_bytes(new_program_version),
    }
}

/// The byte that stands for a version.
pub open spec fn version_byte(version: InstructionVersion) -> u8 {
    match version {
        InstructionVersion::Legacy => 0,
        InstructionVersion::V1 => 1,
    }
}

/// The encoding of a versioned instruction: the version, then the command.
pub open spec fn payload_bytes(versioned: VersionedCommand) -> Seq<u8> {
    seq![version_byte(versioned.version)] + command_bytes(versioned.command)
}

/// The versioned encoding of a command: the marker, the first version, and
/// the command.
pub open spec fn versioned_bytes(command: Command) -> Seq<u8> {
    seq![VERSION_MARKER] + payload_bytes(VersionedCommand { version: InstructionVersion::V1, command })
}

/// Reads at `at` an address that may be absent, and says where the reading
/// ended. A strict reading accepts only zero and one for the mark of
/// presence, a lenient one takes every byte but zero for presence.
pub open spec fn optional_address_at(bytes: Seq<u8>, at: int, strict: bool) -> Option<(Option<Seq<u8>>, int)> {
    if at >= bytes.len() {
        None
    } else if bytes[at] == 0 {
        Some((None, at + 1))
    } else if strict && bytes[at] != 1 {
        None
    } else if at + 33 > bytes.len() {
        None
    } else {
        Some((Some(bytes.subrange(at + 1, at + 33)), at + 33))
    }
}

/// Reads at `at` a truth value that may be absent, and says where the
/// reading ended. A strict reading accepts only zero and one for the mark
/// of presence and for the value, a lenient one takes every byte but zero
/// for presence and for truth.
pub open spec fn optional_flag_at(bytes: Seq<u8>, at: int, strict: bool) -> Option<(Option<bool>, int)> {
    if at >= bytes.len() {
        None
    } else if bytes[at] == 0 {
        Some((None, at + 1))
    } else if strict && bytes[at] != 1 {
        None
    } else if at + 1 >= bytes.len() {
        None
    } else if strict && bytes[at + 1] > 1 {
        None
    } else {
        Some((Some(bytes[at + 1] != 0), at + 2))
    }
}

/// Reads from `at` on the three optional fields of a change of the
/// configuration, and says where the reading ended.
pub open spec fn update_fields_at(bytes: Seq<u8>, at: int, strict: bool) -> Option<(Command, int)> {
    match optional_address_at(bytes, at, strict) {
        None => None,
        Some((new_upgrade_authority, second)) => match optional_address_at(bytes, second, strict) {
            None => None,
            Some((new_governance, third)) => match optional_flag_at(bytes, third, strict) {
                None => None,
                Some((new_paused_state, end)) => Some(
                    (Command::UpdateProgramConfig { new_upgrade_authority, new_governance, new_paused_state }, end),
                ),
            },
        },
    }
}

/// The list of addresses that the legacy layout holds: their number in one
/// byte, then the addresses. Bytes after them are ignored.
pub open spec fn parse_address_list(bytes: Seq<u8>) -> Option<Seq<Seq<u8>>> {
    if bytes.len() == 0 {
        None
    } else if bytes.len() < 1 + 32 * bytes[0] {
        None
    } else {
        Some(addresses_at(bytes, 1, bytes[0] as int))
    }
}

/// The command that the bytes hold in the legacy layout, if they hold one.
/// The bytes must reach to the end of the last field; what follows it is
/// ignored.
pub open spec fn parse_legacy(bytes: Seq<u8>) -> Option<Command> {
    if bytes.len() == 0 {
        None
    } else if bytes[0] == 0 {
        if bytes.len() < 42 {
            None
        } else {
            Some(
                Command::InitializeTradeLoop {
                    trade_id: bytes.subrange(1, 33),
                    step_count: bytes[33],
                    timeout_seconds: spec_u64_from_le_bytes(bytes.subrange(34, 42)),
                },
            )
        }
    } else if bytes[0] == 1 {
        if bytes.len() < 34 {
            None
        } else {
            match parse_address_list(bytes.subrange(34, bytes.len() as int)) {
                None => None,
                Some(nft_mints) => Some(
                    Command::AddTradeStep { step_index: bytes[1], to: bytes.subrange(2, 34), nft_mints },
                ),
            }
        }
    } else if bytes[0] == 2 {
        if bytes.len() < 2 {
            None
        } else {
            Some(Command::ApproveTradeStep { step_index: bytes[1] })
        }
    } else if bytes[0] == 3 {
        if bytes.len() < 2 {
            None
        } else {
            Some(Command::ExecuteTradeStep { step_index: bytes[1] })
        }
    } else if bytes[0] == 4 {
        Some(Command::ExecuteFullTradeLoop)
    } else if bytes[0] == 5 {
        Some(Command::CancelTradeLoop)
    } else if bytes[0] == 6 {
        if bytes.len() < 5 {
            None
        } else {
            Some(Command::UpgradeProgram { new_program_version: spec_u32_from_le_bytes(bytes.subrange(1, 5)) })
        }
    } else if bytes[0] == 7 {
        match optional_address_at(bytes, 1, false) {
            None => None,
            Some((governance, _)) => Some(Command::InitializeProgramConfig { governance }),
        }
    } else if bytes[0] == 8 {
        match update_fields_at(bytes, 1, false) {
            None => None,
            Some((command, _)) => Some(command),
        }
    } else {
        None
    }
}

/// The versioned instruction that the bytes hold, if they hold one: the
/// version, then the command that begins with the position of its variant.
/// The bytes must end with the last field.
pub open spec fn parse_payload(bytes: Seq<u8>) -> Option<VersionedCommand> {
    if bytes.len() < 2 || bytes[0] > 1 {
        None
    } else {
        let version = if bytes[0] == 0 {
            InstructionVersion::Legacy
        } else {
            InstructionVersion::V1
        };
        let tag = bytes[1];
        let command: Option<Command> = if tag == 0 {
            if bytes.len() != 43 {
                None
            } else {
                Some(
                    Command::InitializeTradeLoop {
                        trade_id: bytes.subrange(2, 34),
                        step_count: bytes[34],
                        timeout_seconds: spec_u64_from_le_bytes(bytes.subrange(35, 43)),
                    },
                )
            }
        } else if tag == 1 {
            if bytes.len() < 39 {
                None
            } else if bytes.len() != 39 + 32 * spec_u32_from_le_bytes(bytes.subrange(35, 39)) {
                None
            } else {
                Some(
                    Command::AddTradeStep {
                        step_index: bytes[2],
                        to: bytes.subrange(3, 35),
                        nft_mints: addresses_at(bytes, 39, spec_u32_from_le_bytes(bytes.subrange(35, 39)) as int),
                    },
                )
            }
        } else if tag == 2 {
            if bytes.len() != 3 {
                None
            } else {
                Some(Command::ApproveTradeStep { step_index: bytes[2] })
            }
        } else if tag == 3 {
            if bytes.len() != 3 {
                None
            } else {
                Some(Command::ExecuteTradeStep { step_index: bytes[2] })
            }
        } else if tag == 4 {
            if bytes.len() != 2 {
                None
            } else {
                Some(Command::ExecuteFullTradeLoop)
            }
        } else if tag == 5 {
            if bytes.len() != 2 {
                None
            } else {
                Some(Command::CancelTradeLoop)
            }
        } else if tag == 6 {
            match optional_address_at(bytes, 2, true) {
                None => None,
                Some((governance, end)) => if end != bytes.len() {
                    None
                } else {
                    Some(Command::InitializeProgramConfig { governance })
                },
            }
        } else if tag == 7 {
            match update_fields_at(bytes, 2, true) {
                None => None,
                Some((command, end)) => if end != bytes.len() {
                    None
                } else {
                    Some(command)
                },
            }
        } else if tag == 8 {
            if bytes.len() != 6 {
                None
            } else {
                Some(Command::UpgradeProgram { new_program_version: spec_u32_from_le_bytes(bytes.subrange(2, 6)) })
            }
        } else {
            None
        };
        match command {
            Some(command) => Some(VersionedCommand { version, command }),
            None => None,
        }
    }
}

/// The command that the bytes hold, in either layout: bytes that begin
/// with the marker and go on are read as a versioned instruction, all
/// others in the legacy layout.
pub open spec fn decode(bytes: Seq<u8>) -> Option<Command> {
    if bytes.len() >= 2 && bytes[0] == VERSION_MARKER {
        match parse_payload(bytes.subrange(1, bytes.len() as int)) {
            Some(versioned) => Some(versioned.command),
            None => None,
        }
    } else {
        parse_legacy(bytes)
    }
}

/// The failure of every reading: the bytes are no instruction.
pub open spec fn malformed() -> ProgramError {
    ProgramError::Custom(SwapError::InvalidInstructionData)
}

/// Reads `count` addresses from `start` on.
pub fn read_addresses(input: &[u8], start: usize, count: usize) -> (list: Vec<Address>)
    requires
        start + 32 * count <= input@.len(),
    ensures
        addresses_view(list@) == addresses_at(input@, start as int, count as int),
{
    let n: usize = input.len();
    let mut list: Vec<Address> = Vec::new();
    let mut i: usize = 0;
    while i < count
        invariant
            i <= count,
            n == input@.len(),
            start + 32 * count <= n,
            list@.len() == i,
            forall|k: int| 0 <= k < i ==> (#[trigger] list@[k])@ == input@.subrange(start + 32 * k, start + 32 * k + 32),
        decreases count - i,
    {
        list.push(Address::from_bytes_at(input, start + 32 * i));
        i += 1;
    }
    list
}

/// Reads at `at` an address that may be absent.
pub fn read_optional_address(input: &[u8], at: usize, strict: bool) -> (read: Option<(Option<Address>, usize)>)
    ensures
        match optional_address_at(input@, at as int, strict) {
            Some((address, end)) => read is Some && optional_view(read->Some_0.0) == address && read->Some_0.1 == end
                && end <= input@.len(),
            None => read is None,
        },
{
    if at >= input.len() {
        return None;
    }
    if input[at] == 0 {
        return Some((None, at + 1));
    }
    if strict && input[at] != 1 {
        return None;
    }
    if input.len() - at < 33 {
        return None;
    }
    Some((Some(Address::from_bytes_at(input, at + 1)), at + 33))
}

/// Reads at `at` a truth value that may be absent.
pub fn read_optional_flag(input: &[u8], at: usize, strict: bool) -> (read: Option<(Option<bool>, usize)>)
    ensures
        match optional_flag_at(input@, at as int, strict) {
            Some((flag, end)) => read is Some && read->Some_0.0 == flag && read->Some_0.1 == end && end
                <= input@.len(),
            None => read is None,
        },
{
    if at >= input.len() {
        return None;
    }
    if input[at] == 0 {
        return Some((None, at + 1));
    }
    if strict && input[at] != 1 {
        return None;
    }
    if input.len() - at < 2 {
        return None;
    }
    if strict && input[at + 1] > 1 {
        return None;
    }
    Some((Some(input[at + 1] != 0), at + 2))
}

/// Reads from `at` on the three optional fields of a change of the
/// configuration.
pub fn read_update_fields(input: &[u8], at: usize, strict: bool) -> (read: Option<(SwapInstruction, usize)>)
    ensures
        match update_fields_at(input@, at as int, strict) {
            Some((command, end)) => read is Some && read->Some_0.0@ == command && read->Some_0.1 == end && end
                <= input@.len(),
            None => read is None,
        },
{
    let (new_upgrade_authority, second) = match read_optional_address(input, at, strict) {
        Some(read) => read,
        None => {
            return None;
        },
    };
    let (new_governance, third) = match read_optional_address(input, second, strict) {
        Some(read) => read,
        None => {
            return None;
        },
    };
    let (new_paused_state, end) = match read_optional_flag(input, third, strict) {
        Some(read) => read,
        None => {
            return None;
        },
    };
    let instruction = SwapInstruction::UpdateProgramConfig { new_upgrade_authority, new_governance, new_paused_state };
    proof {
        let first = optional_address_at(input@, at as int, strict)->Some_0;
        let next = optional_address_at(input@, second as int, strict)->Some_0;
        let last = optional_flag_at(input@, third as int, strict)->Some_0;
        assert(instruction@ == Command::UpdateProgramConfig {
            new_upgrade_authority: first.0,
            new_governance: next.0,
            new_paused_state: last.0,
        });
    }
    Some((instruction, end))
}

/// Appends an address that may be absent.
pub fn append_optional_address(out: &mut Vec<u8>, address: &Option<Address>)
    ensures
        final(out)@ == old(out)@ + optional_address_bytes(optional_view(*address)),
{
    match address {
        Some(a) => {
            out.push(1);
            a.append_to(out);
        },
        None => {
            out.push(0);
        },
    }
}

/// Appends a truth value that may be absent.
pub fn append_optional_flag(out: &mut Vec<u8>, flag: &Option<bool>)
    ensures
        final(out)@ == old(out)@ + optional_flag_bytes(*flag),
{
    match flag {
        Some(f) => {
            out.push(1);
            out.push(if *f { 1 } else { 0 });
        },
        None => {
            out.push(0);
        },
    }
}

/// Appends the addresses one after the other.
pub fn append_addresses(out: &mut Vec<u8>, list: &Vec<Address>)
    ensures
        final(out)@ == old(out)@ + concat_addresses(addresses_view(list@)),
{
    let ghost view = addresses_view(list@);
    let mut i: usize = 0;
    while i < list.len()
        invariant
            i <= list@.len(),
            view == addresses_view(list@),
            out@ == old(out)@ + concat_addresses(view.subrange(0, i as int)),
        decreases list@.len() - i,
    {
        list[i].append_to(out);
        proof {
            let shorter = concat_addresses(view.subrange(0, i as int));
            let longer = concat_addresses(view.subrange(0, i + 1));
            assert(longer =~= shorter + view[i as int]);
        }
        i += 1;
    }
}

impl Clone for SwapInstruction {
    fn clone(&self) -> (copy: SwapInstruction)
        ensures
            copy@ == self@,
    {
        match self {
            SwapInstruction::InitializeTradeLoop { trade_id, step_count, timeout_seconds } => {
                SwapInstruction::InitializeTradeLoop {
                    trade_id: *trade_id,
                    step_count: *step_count,
                    timeout_seconds: *timeout_seconds,
                }
            },
            SwapInstruction::AddTradeStep { step_index, to, nft_mints } => SwapInstruction::AddTradeStep {
                step_index: *step_index,
                to: *to,
                nft_mints: clone_addresses(nft_mints),
            },
            SwapInstruction::ApproveTradeStep { step_index } => SwapInstruction::ApproveTradeStep {
                step_index: *step_index,
            },
            SwapInstruction::ExecuteTradeStep { step_index } => SwapInstruction::ExecuteTradeStep {
                step_index: *step_index,
            },
            SwapInstruction::ExecuteFullTradeLoop {  } => SwapInstruction::ExecuteFullTradeLoop {  },
            SwapInstruction::CancelTradeLoop {  } => SwapInstruction::CancelTradeLoop {  },
            SwapInstruction::InitializeProgramConfig { governance } => SwapInstruction::InitializeProgramConfig {
                governance: *governance,
            },
            SwapInstruction::UpdateProgramConfig { new_upgrade_authority, new_governance, new_paused_state } => {
                SwapInstruction::UpdateProgramConfig {
                    new_upgrade_authority: *new_upgrade_authority,
                    new_governance: *new_governance,
                    new_paused_state: *new_paused_state,
                }
            },
            SwapInstruction::UpgradeProgram { new_program_version } => SwapInstruction::UpgradeProgram {
                new_program_version: *new_program_version,
            },
        }
    }
}

impl Clone for VersionedInstruction {
    fn clone(&self) -> (copy: VersionedInstruction)
        ensures
            copy@ == self@,
    {
        VersionedInstruction { version: self.version, instruction: self.instruction.clone() }
    }
}

impl VersionedInstruction {
    /// Reads a versioned instruction: the version, then the command. The
    /// bytes must end with the last field of the command.
    pub fn try_from_slice(input: &[u8]) -> (read: Result<VersionedInstruction, ProgramError>)
        ensures
            match parse_payload(input@) {
                Some(versioned) => read is Ok && read->Ok_0@ == versioned,
                None => read is Err && read->Err_0 == malformed(),
            },
    {
        let n: usize = input.len();
        if n < 2 || input[0] > 1 {
            return Err(ProgramError::Custom(SwapError::InvalidInstructionData));
        }
        let version = if input[0] == 0 {
            InstructionVersion::Legacy
        } else {
            InstructionVersion::V1
        };
        let tag: u8 = input[1];
        let instruction = if tag == 0 {
            if n != 43 {
                return Err(ProgramError::Custom(SwapError::InvalidInstructionData));
            }
            SwapInstruction::InitializeTradeLoop {
                trade_id: read_array(input, 2),
                step_count: input[34],
                timeout_seconds: u64_from_le_bytes(slice_subrange(input, 35, 43)),
            }
        } else if tag == 1 {
            if n < 39 {
                return Err(ProgramError::Custom(SwapError::InvalidInstructionData));
            }
            let count: u32 = u32_from_le_bytes(slice_subrange(input, 35, 39));
            let wanted: u64 = 39 + 32 * (count as u64);
            if n as u64 != wanted {
                return Err(ProgramError::Custom(SwapError::InvalidInstructionData));
            }
            SwapInstruction::AddTradeStep {
                step_index: input[2],
                to: Address::from_bytes_at(input, 3),
                nft_mints: read_addresses(input, 39, count as usize),
            }
        } else if tag == 2 {
            if n != 3 {
                return Err(ProgramError::Custom(SwapError::InvalidInstructionData));
            }
            SwapInstruction::ApproveTradeStep { step_index: input[2] }
        } else if tag == 3 {
            if n != 3 {
                return Err(ProgramError::Custom(SwapError::InvalidInstructionData));
            }
            SwapInstruction::ExecuteTradeStep { step_index: input[2] }
        } else if tag == 4 {
            if n != 2 {
                return Err(ProgramError::Custom(SwapError::InvalidInstructionData));
            }
            SwapInstruction::ExecuteFullTradeLoop {  }
        } else if tag == 5 {
            if n != 2 {
                return Err(ProgramError::Custom(SwapError::InvalidInstructionData));
            }
            SwapInstruction::CancelTradeLoop {  }
        } else if tag == 6 {
            match read_optional_address(input, 2, true) {
                Some((governance, end)) => {
                    if end != n {
                        return Err(ProgramError::Custom(SwapError::InvalidInstructionData));
                    }
                    SwapInstruction::InitializeProgramConfig { governance }
                },
                None => {
                    return Err(ProgramError::Custom(SwapError::InvalidInstructionData));
                },
            }
        } else if tag == 7 {
            match read_update_fields(input, 2, true) {
                Some((instruction, end)) => {
                    if end != n {
                        return Err(ProgramError::Custom(SwapError::InvalidInstructionData));
                    }
                    instruction
                },
                None => {
                    return Err(ProgramError::Custom(SwapError::InvalidInstructionData));
                },
            }
        } else if tag == 8 {
            if n != 6 {
                return Err(ProgramError::Custom(SwapError::InvalidInstructionData));
            }
            SwapInstruction::UpgradeProgram { new_program_version: u32_from_le_bytes(slice_subrange(input, 2, 6)) }
        } else {
            return Err(ProgramError::Custom(SwapError::InvalidInstructionData));
        };
        Ok(VersionedInstruction { version, instruction })
    }

    /// Writes the versioned instruction: the version, then the command. A
    /// step may not have more assets than four bytes can count.
    pub fn try_to_vec(&self) -> (bytes: Vec<u8>)
        requires
            self@.command.asset_count() <= u32::MAX,
        ensures
            bytes@ == payload_bytes(self@),
    {
        let mut bytes: Vec<u8> = Vec::new();
        bytes.push(
            match self.version {
                InstructionVersion::Legacy => 0,
                InstructionVersion::V1 => 1,
            },
        );
        self.instruction.append_command(&mut bytes);
        bytes
    }
}

impl SwapInstruction {
    /// Reads an instruction in either layout. Bytes that begin with the
    /// marker 255 and go on are a versioned instruction; all others are read
    /// in the legacy layout. Empty, truncated or unrecognised bytes are
    /// refused.
    pub fn unpack(input: &[u8]) -> (read: Result<SwapInstruction, ProgramError>)
        ensures
            match decode(input@) {
                Some(command) => read is Ok && read->Ok_0@ == command,
                None => read is Err && read->Err_0 == malformed(),
            },
    {
        if input.len() == 0 {
            return Err(ProgramError::Custom(SwapError::InvalidInstructionData));
        }
        if input.len() >= 2 && input[0] == VERSION_MARKER {
            return Self::unpack_versioned(slice_subrange(input, 1, input.len()));
        }
        Self::unpack_legacy(input)
    }

    /// Reads the instruction of a versioned instruction, which stands
    /// behind the marker.
    pub fn unpack_versioned(input: &[u8]) -> (read: Result<SwapInstruction, ProgramError>)
        ensures
            match parse_payload(input@) {
                Some(versioned) => read is Ok && read->Ok_0@ == versioned.command,
                None => read is Err && read->Err_0 == malformed(),
            },
    {
        match VersionedInstruction::try_from_slice(input) {
            Ok(versioned) => Ok(versioned.instruction),
            Err(_) => Err(ProgramError::Custom(SwapError::InvalidInstructionData)),
        }
    }

    /// Reads an instruction in the legacy layout. The bytes must reach to
    /// the end of the last field; what follows it is ignored.
    pub fn unpack_legacy(input: &[u8]) -> (read: Result<SwapInstruction, ProgramError>)
        ensures
            match parse_legacy(input@) {
                Some(command) => read is Ok && read->Ok_0@ == command,
                None => read is Err && read->Err_0 == malformed(),
            },
    {
        let n: usize = input.len();
        if n == 0 {
            return Err(ProgramError::Custom(SwapError::InvalidInstructionData));
        }
        let tag: u8 = input[0];
        if tag == 0 {
            if n < 42 {
                return Err(ProgramError::Custom(SwapError::InvalidInstructionData));
            }
            Ok(
                SwapInstruction::InitializeTradeLoop {
                    trade_id: read_array(input, 1),
                    step_count: input[33],
                    timeout_seconds: u64_from_le_bytes(slice_subrange(input, 34, 42)),
                },
            )
        } else if tag == 1 {
            if n < 34 {
                return Err(ProgramError::Custom(SwapError::InvalidInstructionData));
            }
            match Self::unpack_pubkey_vector(slice_subrange(input, 34, n)) {
                Ok(nft_mints) => Ok(
                    SwapInstruction::AddTradeStep {
                        step_index: input[1],
                        to: Address::from_bytes_at(input, 2),
                        nft_mints,
                    },
                ),
                Err(e) => Err(e),
            }
        } else if tag == 2 {
            if n < 2 {
                return Err(ProgramError::Custom(SwapError::InvalidInstructionData));
            }
            Ok(SwapInstruction::ApproveTradeStep { step_index: input[1] })
        } else if tag == 3 {
            if n < 2 {
                return Err(ProgramError::Custom(SwapError::InvalidInstructionData));
            }
            Ok(SwapInstruction::ExecuteTradeStep { step_index: input[1] })
        } else if tag == 4 {
            Ok(SwapInstruction::ExecuteFullTradeLoop {  })
        } else if tag == 5 {
            Ok(SwapInstruction::CancelTradeLoop {  })
        } else if tag == 6 {
            if n < 5 {
                return Err(ProgramError::Custom(SwapError::InvalidInstructionData));
            }
            Ok(SwapInstruction::UpgradeProgram { new_program_version: u32_from_le_bytes(slice_subrange(input, 1, 5)) })
        } else if tag == 7 {
            match read_optional_address(input, 1, false) {
                Some((governance, _)) => Ok(SwapInstruction::InitializeProgramConfig { governance }),
                None => Err(ProgramError::Custom(SwapError::InvalidInstructionData)),
            }
        } else if tag == 8 {
            match read_update_fields(input, 1, false) {
                Some((instruction, _)) => Ok(instruction),
                None => Err(ProgramError::Custom(SwapError::InvalidInstructionData)),
            }
        } else {
            Err(ProgramError::Custom(SwapError::InvalidInstructionData))
        }
    }

    /// Reads a list of addresses in the legacy layout: their number in one
    /// byte, then the addresses.
    pub fn unpack_pubkey_vector(input: &[u8]) -> (read: Result<Vec<Address>, ProgramError>)
        ensures
            match parse_address_list(input@) {
                Some(list) => read is Ok && addresses_view(read->Ok_0@) == list,
                None => read is Err && read->Err_0 == malformed(),
            },
    {
        if input.len() == 0 {
            return Err(ProgramError::Custom(SwapError::InvalidInstructionData));
        }
        let count: usize = input[0] as usize;
        if input.len() < 1 + count * 32 {
            return Err(ProgramError::Custom(SwapError::InvalidInstructionData));
        }
        Ok(read_addresses(input, 1, count))
    }

    /// Appends the self-describing encoding of the instruction.
    pub fn append_command(&self, out: &mut Vec<u8>)
        requires
            self@.asset_count() <= u32::MAX,
        ensures
            final(out)@ == old(out)@ + command_bytes(self@),
    {
        match self {
            SwapInstruction::InitializeTradeLoop { trade_id, step_count, timeout_seconds } => {
                out.push(0);
                append_array(out, trade_id);
                out.push(*step_count);
                let mut le = u64_to_le_bytes(*timeout_seconds);
                out.append(&mut le);
            },
            SwapInstruction::AddTradeStep { step_index, to, nft_mints } => {
                out.push(1);
                out.push(*step_index);
                to.append_to(out);
                let mut le = u32_to_le_bytes(nft_mints.len() as u32);
                out.append(&mut le);
                append_addresses(out, nft_mints);
            },
            SwapInstruction::ApproveTradeStep { step_index } => {
                out.push(2);
                out.push(*step_index);
            },
            SwapInstruction::ExecuteTradeStep { step_index } => {
                out.push(3);
                out.push(*step_index);
            },
            SwapInstruction::ExecuteFullTradeLoop {  } => {
                out.push(4);
            },
            SwapInstruction::CancelTradeLoop {  } => {
                out.push(5);
            },
            SwapInstruction::InitializeProgramConfig { governance } => {
                out.push(6);
                append_optional_address(out, governance);
            },
            SwapInstruction::UpdateProgramConfig { new_upgrade_authority, new_governance, new_paused_state } => {
                out.push(7);
                append_optional_address(out, new_upgrade_authority);
                append_optional_address(out, new_governance);
                append_optional_flag(out, new_paused_state);
            },
            SwapInstruction::UpgradeProgram { new_program_version } => {
                out.push(8);
                let mut le = u32_to_le_bytes(*new_program_version);
                out.append(&mut le);
            },
        }
    }

    /// Writes the instruction in the versioned layout: the marker 255, the
    /// first version, and the self-describing encoding of the instruction. A
    /// step may not have more assets than four bytes can count.
    pub fn pack_versioned(&self) -> (packed: Vec<u8>)
        requires
            self@.asset_count() <= u32::MAX,
        ensures
            packed@ == versioned_bytes(self@),
    {
        let mut packed: Vec<u8> = Vec::new();
        packed.push(VERSION_MARKER);
        packed.push(1);
        self.append_command(&mut packed);
        packed
    }

    /// Writes the instruction in the legacy layout. The number of assets
    /// of a step is written in one byte, as its remainder by 256.
    pub fn pack_legacy(&self) -> (packed: Vec<u8>)
        ensures
            packed@ == legacy_bytes(self@),
    {
        let mut packed: Vec<u8> = Vec::new();
        match self {
            SwapInstruction::InitializeTradeLoop { trade_id, step_count, timeout_seconds } => {
                packed.push(0);
                append_array(&mut packed, trade_id);
                packed.push(*step_count);
                let mut le = u64_to_le_bytes(*timeout_seconds);
                packed.append(&mut le);
            },
            SwapInstruction::AddTradeStep { step_index, to, nft_mints } => {
                packed.push(1);
                packed.push(*step_index);
                to.append_to(&mut packed);
                packed.push((nft_mints.len() % 256) as u8);
                append_addresses(&mut packed, nft_mints);
            },
            SwapInstruction::ApproveTradeStep { step_index } => {
                packed.push(2);
                packed.push(*step_index);
            },
            SwapInstruction::ExecuteTradeStep { step_index } => {
                packed.push(3);
                packed.push(*step_index);
            },
            SwapInstruction::ExecuteFullTradeLoop {  } => {
                packed.push(4);
            },
            SwapInstruction::CancelTradeLoop {  } => {
                packed.push(5);
            },
            SwapInstruction::UpgradeProgram { new_program_version } => {
                packed.push(6);
                let mut le = u32_to_le_bytes(*new_program_version);
                packed.append(&mut le);
            },
            SwapInstruction::InitializeProgramConfig { governance } => {
                packed.push(7);
                append_optional_address(&mut packed, governance);
            },
            SwapInstruction::UpdateProgramConfig { new_upgrade_authority, new_governance, new_paused_state } => {
                packed.push(8);
                append_optional_address(&mut packed, new_upgrade_authority);
                append_optional_address(&mut packed, new_governance);
                append_optional_flag(&mut packed, new_paused_state);
            },
        }
        packed
    }
}

} // verus!
