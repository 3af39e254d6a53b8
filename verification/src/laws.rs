//! What holds of the codec and of the state machine as a whole.

use crate::error::SwapError;
use crate::instruction::{
    addresses_at, all_addresses, concat_addresses, decode, flag_byte, legacy_bytes,
    optional_address, optional_address_at, optional_address_bytes, optional_flag_at, optional_flag_bytes,
    parse_address_list, parse_payload, payload_bytes, update_fields_at, version_byte, versioned_bytes, Command,
    InstructionVersion, SwapInstruction, VersionedCommand,
};
use crate::error::ProgramError;
use crate::lifecycle::{erased_loop, new_loop};
use crate::processor::{
    cancel_outcome, config_post, initialize_outcome, loop_post, loop_view, pause_fault, record_fault, ConfigEffect,
    LoopEffect,
};
use crate::address::Address;
use crate::state::{ProgramConfig, TradeLoop};
use crate::utils::{AccountSnapshot, Action};
use crate::state::{
    addresses_view, hands_over, senders, StepStatus, TradeLoopView, TradeStepView,
    MAX_PARTICIPANTS_PER_TRANSACTION,
};
use vstd::bytes::{
    lemma_auto_spec_u32_to_from_le_bytes, lemma_auto_spec_u64_to_from_le_bytes, spec_u32_from_le_bytes,
    spec_u32_to_le_bytes, spec_u64_to_le_bytes,
};
use vstd::prelude::*;

verus! {

/// The addresses that were written one after the other behind `before` are
/// read back from there.
pub proof fn lemma_addresses_read_back(before: Seq<u8>, list: Seq<Seq<u8>>, after: Seq<u8>)
    requires
        all_addresses(list),
    ensures
        addresses_at(before + concat_addresses(list) + after, before.len() as int, list.len() as int) == list,
{
    let whole = before + concat_addresses(list) + after;
    let read = addresses_at(whole, before.len() as int, list.len() as int);
    assert(read.len() == list.len());
    assert forall|i: int| 0 <= i < list.len() implies read[i] == list[i] by {
        let piece = whole.subrange(before.len() + 32 * i, before.len() + 32 * i + 32);
        assert(read[i] == piece);
        assert(list[i].len() == 32);
        assert forall|t: int| 0 <= t < 32 implies piece[t] == list[i][t] by {
            let j = 32 * i + t;
            assert(j / 32 == i);
            assert(j % 32 == t);
            assert(whole[before.len() + j] == concat_addresses(list)[j]);
        }
        assert(piece =~= list[i]);
    }
    assert(read =~= list);
}

/// The content of an instruction is well formed: every identifier and
/// address in it has 32 bytes.
pub proof fn lemma_instruction_well_formed(instruction: SwapInstruction)
    ensures
        instruction@.well_formed(),
{
    match instruction {
        SwapInstruction::AddTradeStep { step_index, to, nft_mints } => {
            assert forall|i: int| 0 <= i < addresses_view(nft_mints@).len() implies (#[trigger] addresses_view(
                nft_mints@,
            )[i]).len() == 32 by {
                assert(addresses_view(nft_mints@)[i] == nft_mints@[i]@);
            }
        },
        _ => {},
    }
}

/// Reading gives back what was written in the legacy layout: for every
/// well-formed command whose number of assets fits in one byte, decoding its
/// legacy encoding yields the command.
pub proof fn legacy_round_trip(command: Command)
    requires
        command.well_formed(),
        command.asset_count() <= 255,
    ensures
        decode(legacy_bytes(command)) == Some(command),
{
    lemma_auto_spec_u32_to_from_le_bytes();
    lemma_auto_spec_u64_to_from_le_bytes();
    let bytes = legacy_bytes(command);
    match command {
        Command::InitializeTradeLoop { trade_id, step_count, timeout_seconds } => {
            assert(bytes.len() == 42);
            assert(bytes[0] == 0);
            assert(bytes.subrange(1, 33) =~= trade_id);
            assert(bytes[33] == step_count);
            assert(bytes.subrange(34, 42) =~= spec_u64_to_le_bytes(timeout_seconds));
        },
        Command::AddTradeStep { step_index, to, nft_mints } => {
            let n = nft_mints.len();
            let count = (n % 256) as u8;
            assert(count == n);
            let head = seq![1u8, step_index] + to + seq![count];
            assert(bytes =~= head + concat_addresses(nft_mints) + Seq::<u8>::empty());
            assert(bytes.len() == 35 + 32 * n);
            assert(bytes[0] == 1);
            assert(bytes[1] == step_index);
            assert(bytes.subrange(2, 34) =~= to);
            let tail = bytes.subrange(34, bytes.len() as int);
            assert(tail[0] == count);
            assert(tail.len() == 1 + 32 * n);
            lemma_addresses_read_back(head, nft_mints, Seq::<u8>::empty());
            assert(addresses_at(tail, 1, n as int) =~= addresses_at(bytes, 35, n as int)) by {
                assert forall|i: int| 0 <= i < n implies addresses_at(tail, 1, n as int)[i] == addresses_at(
                    bytes,
                    35,
                    n as int,
                )[i] by {
                    assert(tail.subrange(1 + 32 * i, 1 + 32 * i + 32) =~= bytes.subrange(
                        35 + 32 * i,
                        35 + 32 * i + 32,
                    ));
                }
            }
            assert(parse_address_list(tail) == Some(nft_mints));
        },
        Command::ApproveTradeStep { step_index } => {
            assert(bytes[0] == 2 && bytes[1] == step_index);
        },
        Command::ExecuteTradeStep { step_index } => {
            assert(bytes[0] == 3 && bytes[1] == step_index);
        },
        Command::ExecuteFullTradeLoop => {
            assert(bytes[0] == 4);
        },
        Command::CancelTradeLoop => {
            assert(bytes[0] == 5);
        },
        Command::UpgradeProgram { new_program_version } => {
            assert(bytes.len() == 5);
            assert(bytes[0] == 6);
            assert(bytes.subrange(1, 5) =~= spec_u32_to_le_bytes(new_program_version));
        },
        Command::InitializeProgramConfig { governance } => {
            assert(bytes[0] == 7);
            lemma_optional_address_read_back(seq![7u8], governance, Seq::empty(), false);
            assert(bytes =~= seq![7u8] + optional_address_bytes(governance) + Seq::<u8>::empty());
        },
        Command::UpdateProgramConfig { new_upgrade_authority, new_governance, new_paused_state } => {
            assert(bytes[0] == 8);
            lemma_update_fields_read_back(seq![8u8], new_upgrade_authority, new_governance, new_paused_state, false);
        },
    }
}

/// An optional address that was written behind `before` is read back from
/// there, strictly or leniently.
pub proof fn lemma_optional_address_read_back(before: Seq<u8>, address: Option<Seq<u8>>, after: Seq<u8>, strict: bool)
    requires
        optional_address(address),
    ensures
        optional_address_at(
            before + optional_address_bytes(address) + after,
            before.len() as int,
            strict,
        ) == Some(
            (address, (before.len() + optional_address_bytes(address).len()) as int),
        ),
{
    let whole = before + optional_address_bytes(address) + after;
    let at = before.len() as int;
    match address {
        Some(a) => {
            assert(whole[at] == 1);
            assert(whole.subrange(at + 1, at + 33) =~= a);
        },
        None => {
            assert(whole[at] == 0);
        },
    }
}

/// An optional truth value that was written behind `before` is read back
/// from there, strictly or leniently.
pub proof fn lemma_optional_flag_read_back(before: Seq<u8>, flag: Option<bool>, after: Seq<u8>, strict: bool)
    ensures
        optional_flag_at(before + optional_flag_bytes(flag) + after, before.len() as int, strict)
            == Some((flag, (before.len() + optional_flag_bytes(flag).len()) as int)),
{
    let whole = before + optional_flag_bytes(flag) + after;
    let at = before.len() as int;
    match flag {
        Some(f) => {
            assert(whole[at] == 1);
            assert(whole[at + 1] == flag_byte(f));
        },
        None => {
            assert(whole[at] == 0);
        },
    }
}

/// The three optional fields of a change of the configuration that were
/// written behind `before` are read back from there, to the end.
pub proof fn lemma_update_fields_read_back(
    before: Seq<u8>,
    new_upgrade_authority: Option<Seq<u8>>,
    new_governance: Option<Seq<u8>>,
    new_paused_state: Option<bool>,
    strict: bool,
)
    requires
        optional_address(new_upgrade_authority),
        optional_address(new_governance),
    ensures
        ({
            let whole = before + optional_address_bytes(new_upgrade_authority)
                + optional_address_bytes(new_governance)
                + optional_flag_bytes(new_paused_state);
            update_fields_at(whole, before.len() as int, strict) == Some(
                (
                    Command::UpdateProgramConfig { new_upgrade_authority, new_governance, new_paused_state },
                    whole.len() as int,
                ),
            )
        }),
{
    let first = optional_address_bytes(new_upgrade_authority);
    let second = optional_address_bytes(new_governance);
    let third = optional_flag_bytes(new_paused_state);
    let whole = before + first + second + third;
    lemma_optional_address_read_back(before, new_upgrade_authority, second + third, strict);
    assert(whole =~= before + first + (second + third));
    lemma_optional_address_read_back(before + first, new_governance, third, strict);
    assert(whole =~= (before + first) + second + third);
    lemma_optional_flag_read_back(before + first + second, new_paused_state, Seq::empty(), strict);
    assert(whole =~= (before + first + second) + third + Seq::<u8>::empty());
}

/// The version byte of a versioned instruction is read back.
pub open spec fn version_mark(version: InstructionVersion) -> Seq<u8> {
    seq![version_byte(version)]
}

/// An initialization that was written as a versioned instruction is read
/// back.
pub proof fn lemma_payload_initialize(
    version: InstructionVersion,
    trade_id: Seq<u8>,
    step_count: u8,
    timeout_seconds: u64,
)
    requires
        trade_id.len() == 32,
    ensures
        ({
            let command = Command::InitializeTradeLoop { trade_id, step_count, timeout_seconds };
            parse_payload(payload_bytes(VersionedCommand { version, command })) == Some(
                VersionedCommand { version, command },
            )
        }),
{
    lemma_auto_spec_u64_to_from_le_bytes();
    let command = Command::InitializeTradeLoop { trade_id, step_count, timeout_seconds };
    let bytes = payload_bytes(VersionedCommand { version, command });
    assert(bytes =~= version_mark(version) + seq![0u8] + trade_id + seq![step_count] + spec_u64_to_le_bytes(
        timeout_seconds,
    ));
    assert(bytes.len() == 43);
    assert(bytes[0] == version_byte(version));
    assert(bytes[1] == 0);
    assert(bytes.subrange(2, 34) =~= trade_id);
    assert(bytes[34] == step_count);
    assert(bytes.subrange(35, 43) =~= spec_u64_to_le_bytes(timeout_seconds));
}

/// An added step that was written as a versioned instruction is read back.
pub proof fn lemma_payload_add_step(version: InstructionVersion, step_index: u8, to: Seq<u8>, nft_mints: Seq<Seq<u8>>)
    requires
        to.len() == 32,
        all_addresses(nft_mints),
        nft_mints.len() <= u32::MAX,
    ensures
        ({
            let command = Command::AddTradeStep { step_index, to, nft_mints };
            parse_payload(payload_bytes(VersionedCommand { version, command })) == Some(
                VersionedCommand { version, command },
            )
        }),
{
    lemma_auto_spec_u32_to_from_le_bytes();
    let command = Command::AddTradeStep { step_index, to, nft_mints };
    let bytes = payload_bytes(VersionedCommand { version, command });
    let n = nft_mints.len();
    let count = n as u32;
    assert(count == n);
    let head = version_mark(version) + seq![1u8, step_index] + to + spec_u32_to_le_bytes(count);
    assert(head.len() == 39);
    assert(bytes =~= head + concat_addresses(nft_mints) + Seq::<u8>::empty());
    assert(bytes.len() == 39 + 32 * n);
    assert(bytes[0] == version_byte(version));
    assert(bytes[1] == 1);
    assert(bytes[2] == step_index);
    assert(bytes.subrange(3, 35) =~= to);
    assert(bytes.subrange(35, 39) =~= spec_u32_to_le_bytes(count));
    assert(spec_u32_from_le_bytes(bytes.subrange(35, 39)) == count);
    lemma_addresses_read_back(head, nft_mints, Seq::<u8>::empty());
}

/// An upgrade that was written as a versioned instruction is read back.
pub proof fn lemma_payload_upgrade(version: InstructionVersion, new_program_version: u32)
    ensures
        ({
            let command = Command::UpgradeProgram { new_program_version };
            parse_payload(payload_bytes(VersionedCommand { version, command })) == Some(
                VersionedCommand { version, command },
            )
        }),
{
    lemma_auto_spec_u32_to_from_le_bytes();
    let command = Command::UpgradeProgram { new_program_version };
    let bytes = payload_bytes(VersionedCommand { version, command });
    assert(bytes =~= version_mark(version) + seq![8u8] + spec_u32_to_le_bytes(new_program_version));
    assert(bytes.len() == 6);
    assert(bytes[0] == version_byte(version));
    assert(bytes[1] == 8);
    assert(bytes.subrange(2, 6) =~= spec_u32_to_le_bytes(new_program_version));
}

/// Joining sequences does not depend on the grouping.
pub proof fn lemma_join_regroups(a: Seq<u8>, b: Seq<u8>, c: Seq<u8>)
    ensures
        a + (b + c) == (a + b) + c,
{
    assert(a + (b + c) =~= (a + b) + c);
}

/// An initialization of the configuration that was written as a versioned
/// instruction is read back.
pub proof fn lemma_payload_initialize_config(version: InstructionVersion, governance: Option<Seq<u8>>)
    requires
        optional_address(governance),
    ensures
        ({
            let command = Command::InitializeProgramConfig { governance };
            parse_payload(payload_bytes(VersionedCommand { version, command })) == Some(
                VersionedCommand { version, command },
            )
        }),
{
    let command = Command::InitializeProgramConfig { governance };
    let bytes = payload_bytes(VersionedCommand { version, command });
    let mark = version_mark(version);
    let field = optional_address_bytes(governance);
    let head = mark + seq![6u8];
    let whole = head + field + Seq::<u8>::empty();
    lemma_optional_address_read_back(head, governance, Seq::empty(), true);
    lemma_join_regroups(mark, seq![6u8], field);
    assert(head + field + Seq::<u8>::empty() =~= head + field);
    assert(bytes == whole);
    assert(head.len() == 2);
    assert(whole.len() == 2 + field.len());
    assert(whole[0] == version_byte(version));
    assert(whole[1] == 6);
}

/// A change of the configuration that was written as a versioned
/// instruction is read back.
pub proof fn lemma_payload_update_config(
    version: InstructionVersion,
    new_upgrade_authority: Option<Seq<u8>>,
    new_governance: Option<Seq<u8>>,
    new_paused_state: Option<bool>,
)
    requires
        optional_address(new_upgrade_authority),
        optional_address(new_governance),
    ensures
        ({
            let command = Command::UpdateProgramConfig { new_upgrade_authority, new_governance, new_paused_state };
            parse_payload(payload_bytes(VersionedCommand { version, command })) == Some(
                VersionedCommand { version, command },
            )
        }),
{
    let command = Command::UpdateProgramConfig { new_upgrade_authority, new_governance, new_paused_state };
    let bytes = payload_bytes(VersionedCommand { version, command });
    let mark = version_mark(version);
    let first = optional_address_bytes(new_upgrade_authority);
    let second = optional_address_bytes(new_governance);
    let third = optional_flag_bytes(new_paused_state);
    let head = mark + seq![7u8];
    let whole = head + first + second + third;
    lemma_update_fields_read_back(head, new_upgrade_authority, new_governance, new_paused_state, true);
    lemma_join_regroups(mark, seq![7u8] + first + second, third);
    lemma_join_regroups(mark, seq![7u8] + first, second);
    lemma_join_regroups(mark, seq![7u8], first);
    assert(bytes == whole);
    assert(head.len() == 2);
    assert(whole[0] == head[0]);
    assert(whole[1] == head[1]);
}

/// Reading gives back what was written as a versioned instruction: for
/// every well-formed command whose number of assets fits in four bytes, and
/// either version, parsing the encoding yields the version and the command.
pub proof fn payload_round_trip(versioned: VersionedCommand)
    requires
        versioned.command.well_formed(),
        versioned.command.asset_count() <= u32::MAX,
    ensures
        parse_payload(payload_bytes(versioned)) == Some(versioned),
{
    let version = versioned.version;
    match versioned.command {
        Command::InitializeTradeLoop { trade_id, step_count, timeout_seconds } => {
            lemma_payload_initialize(version, trade_id, step_count, timeout_seconds);
        },
        Command::AddTradeStep { step_index, to, nft_mints } => {
            lemma_payload_add_step(version, step_index, to, nft_mints);
        },
        Command::UpgradeProgram { new_program_version } => {
            lemma_payload_upgrade(version, new_program_version);
        },
        Command::InitializeProgramConfig { governance } => {
            lemma_payload_initialize_config(version, governance);
        },
        Command::UpdateProgramConfig { new_upgrade_authority, new_governance, new_paused_state } => {
            lemma_payload_update_config(version, new_upgrade_authority, new_governance, new_paused_state);
        },
        Command::ApproveTradeStep { step_index } => {
            let bytes = payload_bytes(versioned);
            assert(bytes.len() == 3 && bytes[1] == 2 && bytes[2] == step_index);
            assert(bytes[0] == version_byte(version));
        },
        Command::ExecuteTradeStep { step_index } => {
            let bytes = payload_bytes(versioned);
            assert(bytes.len() == 3 && bytes[1] == 3 && bytes[2] == step_index);
            assert(bytes[0] == version_byte(version));
        },
        Command::ExecuteFullTradeLoop => {
            let bytes = payload_bytes(versioned);
            assert(bytes.len() == 2 && bytes[1] == 4);
            assert(bytes[0] == version_byte(version));
        },
        Command::CancelTradeLoop => {
            let bytes = payload_bytes(versioned);
            assert(bytes.len() == 2 && bytes[1] == 5);
            assert(bytes[0] == version_byte(version));
        },
    }
}

/// Reading gives back what was written in the versioned layout: for every
/// well-formed command whose number of assets fits in four bytes, decoding
/// its versioned encoding yields the command.
pub proof fn versioned_round_trip(command: Command)
    requires
        command.well_formed(),
        command.asset_count() <= u32::MAX,
    ensures
        decode(versioned_bytes(command)) == Some(command),
{
    let versioned = VersionedCommand { version: InstructionVersion::V1, command };
    let bytes = versioned_bytes(command);
    payload_round_trip(versioned);
    assert(bytes.len() >= 2);
    assert(bytes[0] == 255);
    assert(bytes.subrange(1, bytes.len() as int) =~= payload_bytes(versioned));
}

/// For every instruction, unpacking what `pack_legacy` writes yields the
/// instruction, provided that a step has at most 255 assets, and unpacking
/// what `pack_versioned` writes yields it, provided that a step has no more
/// assets than four bytes can count.
pub proof fn instruction_round_trip(instruction: SwapInstruction)
    ensures
        instruction@.asset_count() <= 255 ==> decode(legacy_bytes(instruction@)) == Some(instruction@),
        instruction@.asset_count() <= u32::MAX ==> decode(versioned_bytes(instruction@)) == Some(instruction@),
{
    lemma_instruction_well_formed(instruction);
    if instruction@.asset_count() <= 255 {
        legacy_round_trip(instruction@);
    }
    if instruction@.asset_count() <= u32::MAX {
        versioned_round_trip(instruction@);
    }
}

/// No loop is created for no steps or for more steps than one transaction
/// can settle: the first is refused as invalid instruction data, the second
/// as too many participants, whatever the other arguments are.
pub proof fn initialize_refuses_step_counts(
    trade_id: Seq<u8>,
    step_count: u8,
    timeout_seconds: u64,
    now: u64,
    authority: Seq<u8>,
)
    ensures
        step_count > MAX_PARTICIPANTS_PER_TRANSACTION ==> new_loop(
            trade_id,
            step_count,
            timeout_seconds,
            now,
            authority,
        ) == Err::<TradeLoopView, SwapError>(SwapError::TooManyParticipants),
        step_count == 0 ==> new_loop(trade_id, step_count, timeout_seconds, now, authority) == Err::<
            TradeLoopView,
            SwapError,
        >(SwapError::InvalidInstructionData),
{
}

/// Step `i` hands over to the sender of the step after it in the ring,
/// which for the last step is the first.
pub open spec fn links_around(steps: Seq<TradeStepView>, i: int) -> bool {
    steps[i].to == steps[(i + 1) % (steps.len() as int)].from
}

/// A valid cycle is a ring: the loop is a valid cycle exactly when it has a
/// step, every step hands over to the sender of the step after it, counted
/// around the ring, and at least two different participants give.
pub proof fn a_valid_cycle_is_a_ring(trade_loop: TradeLoopView)
    ensures
        trade_loop.is_valid_cycle() <==> {
            &&& trade_loop.steps.len() > 0
            &&& forall|i: int| 0 <= i < trade_loop.steps.len() ==> #[trigger] links_around(trade_loop.steps, i)
            &&& senders(trade_loop.steps).len() >= 2
        },
{
    let steps = trade_loop.steps;
    let n = steps.len() as int;
    if n > 0 {
        if trade_loop.chain_closes() {
            assert forall|i: int| 0 <= i < n implies #[trigger] links_around(steps, i) by {
                if i < n - 1 {
                    assert(hands_over(steps, i));
                    vstd::arithmetic::div_mod::lemma_small_mod((i + 1) as nat, n as nat);
                } else {
                    vstd::arithmetic::div_mod::lemma_mod_self_0(n);
                }
            }
        }
        if forall|i: int| 0 <= i < n ==> #[trigger] links_around(steps, i) {
            assert(links_around(steps, n - 1));
            vstd::arithmetic::div_mod::lemma_mod_self_0(n);
            assert forall|i: int| 0 <= i < n - 1 implies #[trigger] hands_over(steps, i) by {
                assert(links_around(steps, i));
                vstd::arithmetic::div_mod::lemma_small_mod((i + 1) as nat, n as nat);
            }
        }
    }
}

/// Approval is idempotent: where an approval succeeds, approving the same
/// step again, by the same caller at the same time, succeeds too and
/// changes nothing; and the approval of a step that is approved already
/// leaves the loop as it is.
pub proof fn approval_is_idempotent(trade_loop: TradeLoopView, step_index: u8, caller: Seq<u8>, now: u64)
    requires
        trade_loop.approve_step(step_index, caller, now) is Ok,
    ensures
        ({
            let approved = trade_loop.approve_step(step_index, caller, now)->Ok_0;
            approved.approve_step(step_index, caller, now) == Ok::<TradeLoopView, SwapError>(approved)
        }),
        trade_loop.steps[step_index as int].status == StepStatus::Approved ==> trade_loop.approve_step(
            step_index,
            caller,
            now,
        ) == Ok::<TradeLoopView, SwapError>(trade_loop),
{
}

/// Cancellation safety: as soon as any step of a loop is approved, a
/// cancellation is denied, whoever asks for it.
pub proof fn cancellation_is_denied_after_approval(trade_loop: TradeLoopView, caller: Seq<u8>)
    requires
        trade_loop.some_approved(),
    ensures
        trade_loop.cancel(caller) == Err::<TradeLoopView, SwapError>(SwapError::CancellationDenied),
{
}

/// One request to a trade loop.
pub enum Operation {
    AddStep { step_index: u8, from: Seq<u8>, to: Seq<u8>, nft_mints: Seq<Seq<u8>> },
    ApproveStep { step_index: u8, caller: Seq<u8>, now: u64 },
    ExecuteStep { step_index: u8, sender: Seq<u8>, recipient: Seq<u8>, now: u64 },
    ExecuteFullLoop { now: u64 },
    Cancel { caller: Seq<u8> },
}

/// The loop after a request: the next content where the request succeeds,
/// the same content where it fails.
pub open spec fn after(trade_loop: TradeLoopView, operation: Operation) -> TradeLoopView {
    let outcome = match operation {
        Operation::AddStep { step_index, from, to, nft_mints } => trade_loop.add_step(step_index, from, to, nft_mints),
        Operation::ApproveStep { step_index, caller, now } => trade_loop.approve_step(step_index, caller, now),
        Operation::ExecuteStep { step_index, sender, recipient, now } => trade_loop.execute_step(
            step_index,
            sender,
            recipient,
            now,
        ),
        Operation::ExecuteFullLoop { now } => trade_loop.execute_full_loop(now),
        Operation::Cancel { caller } => trade_loop.cancel(caller),
    };
    match outcome {
        Ok(next) => next,
        Err(_) => trade_loop,
    }
}

/// The loop after a sequence of requests.
pub open spec fn after_all(trade_loop: TradeLoopView, operations: Seq<Operation>) -> TradeLoopView
    decreases operations.len(),
{
    if operations.len() == 0 {
        trade_loop
    } else {
        after_all(after(trade_loop, operations[0]), operations.skip(1))
    }
}

/// The request puts a new step in the place of one that the loop holds.
pub open spec fn replaces_step(trade_loop: TradeLoopView, operation: Operation) -> bool {
    operation is AddStep && operation->AddStep_step_index < trade_loop.steps.len()
}

/// None of the requests, each taken at its turn, puts a new step in the
/// place of one that the loop holds.
pub open spec fn replaces_no_step(trade_loop: TradeLoopView, operations: Seq<Operation>) -> bool
    decreases operations.len(),
{
    if operations.len() == 0 {
        true
    } else {
        !replaces_step(trade_loop, operations[0]) && replaces_no_step(
            after(trade_loop, operations[0]),
            operations.skip(1),
        )
    }
}

/// Every step that both loops hold has come at least as far in the second
/// as in the first.
pub open spec fn no_step_regressed(before: TradeLoopView, later: TradeLoopView) -> bool {
    forall|i: int|
        0 <= i < before.steps.len() && i < later.steps.len() ==> (#[trigger] later.steps[i]).status.rank()
            >= before.steps[i].status.rank()
}

/// One request that replaces no step keeps every step and lets none
/// regress, unless it is a cancellation that succeeds and erases the record.
pub proof fn lemma_one_request_is_monotonic(trade_loop: TradeLoopView, operation: Operation)
    requires
        !replaces_step(trade_loop, operation),
    ensures
        no_step_regressed(trade_loop, after(trade_loop, operation)),
        after(trade_loop, operation) == erased_loop() || after(trade_loop, operation).steps.len()
            >= trade_loop.steps.len(),
{
    let next = after(trade_loop, operation);
    match operation {
        Operation::AddStep { step_index, from, to, nft_mints } => {},
        Operation::ApproveStep { step_index, caller, now } => {},
        Operation::ExecuteStep { step_index, sender, recipient, now } => {},
        Operation::ExecuteFullLoop { now } => {},
        Operation::Cancel { caller } => {},
    }
}

/// An erased record stays without steps, whatever is requested of it.
pub proof fn lemma_erased_stays_empty(trade_loop: TradeLoopView, operations: Seq<Operation>)
    requires
        trade_loop.steps.len() == 0,
        trade_loop.step_count == 0,
    ensures
        after_all(trade_loop, operations).steps.len() == 0,
    decreases operations.len(),
{
    if operations.len() > 0 {
        let next = after(trade_loop, operations[0]);
        match operations[0] {
            Operation::AddStep { step_index, from, to, nft_mints } => {},
            Operation::ApproveStep { step_index, caller, now } => {},
            Operation::ExecuteStep { step_index, sender, recipient, now } => {},
            Operation::ExecuteFullLoop { now } => {},
            Operation::Cancel { caller } => {},
        }
        assert(next.steps.len() == 0 && next.step_count == 0);
        lemma_erased_stays_empty(next, operations.skip(1));
    }
}

/// Monotonicity: no sequence of requests moves the status of a step back.
/// Whatever is asked of a loop, in whatever order, and whether it succeeds
/// or fails, every step that the loop still holds afterwards has come at
/// least as far as before, as long as no request puts a new step in the
/// place of an old one.
pub proof fn status_never_regresses(trade_loop: TradeLoopView, operations: Seq<Operation>)
    requires
        replaces_no_step(trade_loop, operations),
    ensures
        no_step_regressed(trade_loop, after_all(trade_loop, operations)),
    decreases operations.len(),
{
    if operations.len() > 0 {
        let next = after(trade_loop, operations[0]);
        let last = after_all(trade_loop, operations);
        lemma_one_request_is_monotonic(trade_loop, operations[0]);
        status_never_regresses(next, operations.skip(1));
        if next.steps.len() >= trade_loop.steps.len() {
            assert forall|i: int| 0 <= i < trade_loop.steps.len() && i < last.steps.len() implies (
            #[trigger] last.steps[i]).status.rank() >= trade_loop.steps[i].status.rank() by {
                assert(next.steps[i].status.rank() >= trade_loop.steps[i].status.rank());
            }
        } else {
            lemma_erased_stays_empty(next, operations.skip(1));
        }
    }
}

/// One request keeps a well-formed loop well formed.
pub proof fn lemma_one_request_keeps_well_formed(trade_loop: TradeLoopView, operation: Operation)
    requires
        trade_loop.well_formed(),
    ensures
        after(trade_loop, operation).well_formed(),
{
    let next = after(trade_loop, operation);
    match operation {
        Operation::AddStep { step_index, from, to, nft_mints } => {
            if trade_loop.add_step(step_index, from, to, nft_mints) is Ok {
                assert forall|i: int| 0 <= i < next.steps.len() implies (#[trigger] next.steps[i]).nft_mints.len() > 0
                    && next.steps[i].nft_mints.no_duplicates() by {
                    if i < trade_loop.steps.len() && i != step_index {
                        assert(next.steps[i] == trade_loop.steps[i]);
                    }
                }
            }
        },
        Operation::ApproveStep { step_index, caller, now } => {
            if trade_loop.approve_step(step_index, caller, now) is Ok {
                assert forall|i: int| 0 <= i < next.steps.len() implies (#[trigger] next.steps[i]).nft_mints.len() > 0
                    && next.steps[i].nft_mints.no_duplicates() by {
                    assert(next.steps[i].nft_mints == trade_loop.steps[i].nft_mints);
                }
            }
        },
        Operation::ExecuteStep { step_index, sender, recipient, now } => {
            if trade_loop.execute_step(step_index, sender, recipient, now) is Ok {
                assert forall|i: int| 0 <= i < next.steps.len() implies (#[trigger] next.steps[i]).nft_mints.len() > 0
                    && next.steps[i].nft_mints.no_duplicates() by {
                    assert(next.steps[i].nft_mints == trade_loop.steps[i].nft_mints);
                }
            }
        },
        Operation::ExecuteFullLoop { now } => {
            if trade_loop.execute_full_loop(now) is Ok {
                assert forall|i: int| 0 <= i < next.steps.len() implies (#[trigger] next.steps[i]).nft_mints.len() > 0
                    && next.steps[i].nft_mints.no_duplicates() by {
                    assert(next.steps[i].nft_mints == trade_loop.steps[i].nft_mints);
                }
            }
        },
        Operation::Cancel { caller } => {},
    }
}

/// The invariant of a loop: a loop that `initialize` created holds at no
/// time more steps than it was created for, whatever is requested of it, and
/// each of its steps moves at least one asset and none twice.
pub proof fn requests_keep_the_loop_well_formed(trade_loop: TradeLoopView, operations: Seq<Operation>)
    requires
        trade_loop.well_formed(),
    ensures
        after_all(trade_loop, operations).well_formed(),
    decreases operations.len(),
{
    if operations.len() > 0 {
        lemma_one_request_keeps_well_formed(trade_loop, operations[0]);
        requests_keep_the_loop_well_formed(after(trade_loop, operations[0]), operations.skip(1));
    }
}

/// A loop that was just created is well formed.
pub proof fn a_new_loop_is_well_formed(
    trade_id: Seq<u8>,
    step_count: u8,
    timeout_seconds: u64,
    now: u64,
    authority: Seq<u8>,
)
    requires
        new_loop(trade_id, step_count, timeout_seconds, now, authority) is Ok,
    ensures
        new_loop(trade_id, step_count, timeout_seconds, now, authority)->Ok_0.well_formed(),
        new_loop(trade_id, step_count, timeout_seconds, now, authority)->Ok_0.steps.len() == 0,
        1 <= step_count <= MAX_PARTICIPANTS_PER_TRANSACTION,
{
}

/// Atomicity: an operation on a trade loop that fails leaves the record as
/// it was and asks the ledger for nothing, and one that succeeds yields
/// the whole effect. This holds of every operation of the processor, the
/// execution of the whole loop among them: each of them ensures `loop_post`.
pub proof fn a_failed_operation_changes_nothing(
    outcome: Result<LoopEffect, ProgramError>,
    before: Option<TradeLoop>,
    after: Option<TradeLoop>,
    result: Result<Vec<Action>, ProgramError>,
)
    requires
        loop_post(outcome, before, after, result),
    ensures
        result is Err <==> outcome is Err,
        result is Err ==> loop_view(after) == loop_view(before),
        result is Ok ==> loop_view(after) == Some(outcome->Ok_0.record) && result->Ok_0@ == outcome->Ok_0.actions,
{
}

/// An operation on the configuration that fails leaves the configuration
/// as it was.
pub proof fn a_failed_change_keeps_the_configuration(
    outcome: Result<ConfigEffect, ProgramError>,
    before: Option<ProgramConfig>,
    after: Option<ProgramConfig>,
    result: Result<Vec<Action>, ProgramError>,
)
    requires
        config_post(outcome, before, after, result),
    ensures
        result is Err <==> outcome is Err,
        result is Err ==> after == before,
{
}

/// While the program is not paused, the processor refuses to create a loop
/// for no steps, as invalid instruction data, and for more steps than one
/// transaction can settle, as too many participants, whatever the accounts
/// and the other arguments are.
pub proof fn the_processor_refuses_step_counts(
    program_id: Address,
    accounts: Seq<AccountSnapshot>,
    config: Option<ProgramConfig>,
    now: u64,
    trade_id: Seq<u8>,
    step_count: u8,
    timeout_seconds: u64,
)
    requires
        pause_fault(accounts, program_id@, config) is None,
    ensures
        step_count > MAX_PARTICIPANTS_PER_TRANSACTION ==> initialize_outcome(
            program_id,
            accounts,
            config,
            now,
            trade_id,
            step_count,
            timeout_seconds,
        ) == Err::<LoopEffect, ProgramError>(ProgramError::Custom(SwapError::TooManyParticipants)),
        step_count == 0 ==> initialize_outcome(
            program_id,
            accounts,
            config,
            now,
            trade_id,
            step_count,
            timeout_seconds,
        ) == Err::<LoopEffect, ProgramError>(ProgramError::Custom(SwapError::InvalidInstructionData)),
{
}

/// Once any step of a loop is approved, the processor denies every
/// cancellation that reaches the record, whoever signs it.
pub proof fn the_processor_denies_cancellation_after_approval(
    program_id: Seq<u8>,
    accounts: Seq<AccountSnapshot>,
    config: Option<ProgramConfig>,
    record: TradeLoopView,
)
    requires
        pause_fault(accounts, program_id, config) is None,
        accounts.len() >= 2,
        accounts[0].is_signer,
        record_fault(accounts, program_id, Some(record)) is None,
        record.some_approved(),
    ensures
        cancel_outcome(program_id, accounts, config, Some(record)) == Err::<LoopEffect, ProgramError>(
            ProgramError::Custom(SwapError::CancellationDenied),
        ),
{
}

} // verus!
