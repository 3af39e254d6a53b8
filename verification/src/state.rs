//! The persisted records: the trade loop with its steps, and the program
//! configuration.

use crate::address::Address;
use vstd::prelude::*;

verus! {

/// Version that a freshly initialized configuration carries.
pub const PROGRAM_VERSION: u32 = 1;

/// Largest number of steps that one transaction can settle.
pub const MAX_PARTICIPANTS_PER_TRANSACTION: u8 = 11;

/// Number of assets per step for which a record reserves room.
pub const MAX_NFTS_PER_STEP: u8 = 4;

/// Longest lifetime of a trade loop, in seconds: thirty days.
pub const MAX_TIMEOUT_SECONDS: u64 = 2_592_000;

/// How far a step has come. A status never goes back.
#[derive(Clone, Copy, Debug, PartialEq, Eq, Structural)]
pub enum StepStatus {
    /// The step has been added and awaits the approval of its sender.
    Created,
    /// The sender has committed to the step.
    Approved,
    /// The assets of the step have been handed over.
    Executed,
}

impl StepStatus {
    /// The position of the status in the order `Created`, `Approved`, `Executed`.
    pub open spec fn rank(self) -> nat {
        match self {
            StepStatus::Created => 0,
            StepStatus::Approved => 1,
            StepStatus::Executed => 2,
        }
    }
}

/// One directed transfer of a loop: `from` hands the assets to `to`.
#[derive(Debug, PartialEq, Eq)]
pub struct TradeStep {
    /// The participant who gives.
    pub from: Address,
    /// The participant who receives.
    pub to: Address,
    /// The assets that change hands.
    pub nft_mints: Vec<Address>,
    /// How far the step has come.
    pub status: StepStatus,
}

/// The mathematical content of a step.
pub struct TradeStepView {
    pub from: Seq<u8>,
    pub to: Seq<u8>,
    pub nft_mints: Seq<Seq<u8>>,
    pub status: StepStatus,
}

/// The byte contents of a list of addresses.
pub open spec fn addresses_view(list: Seq<Address>) -> Seq<Seq<u8>> {
    list.map_values(|a: Address| a@)
}

/// The contents of a list of steps.
pub open spec fn steps_view(steps: Seq<TradeStep>) -> Seq<TradeStepView> {
    steps.map_values(|s: TradeStep| s@)
}

impl View for TradeStep {
    type V = TradeStepView;

    open spec fn view(&self) -> TradeStepView {
        TradeStepView {
            from: self.from@,
            to: self.to@,
            nft_mints: addresses_view(self.nft_mints@),
            status: self.status,
        }
    }
}

impl TradeStepView {
    /// The same step with another status.
    pub open spec fn with_status(self, status: StepStatus) -> TradeStepView {
        TradeStepView { status, ..self }
    }
}

/// A copy of the list with the same contents.
pub fn clone_addresses(list: &Vec<Address>) -> (copy: Vec<Address>)
    ensures
        copy@ == list@,
{
    let mut copy: Vec<Address> = Vec::new();
    let mut i: usize = 0;
    while i < list.len()
        invariant
            i <= list.len(),
            copy@ == list@.subrange(0, i as int),
        decreases list.len() - i,
    {
        copy.push(list[i]);
        i += 1;
    }
    copy
}

impl Clone for TradeStep {
    fn clone(&self) -> (copy: TradeStep)
        ensures
            copy@ == self@,
    {
        TradeStep {
            from: self.from,
            to: self.to,
            nft_mints: clone_addresses(&self.nft_mints),
            status: self.status,
        }
    }
}

/// A trade loop: the ring of steps that is settled as a whole.
#[derive(Debug, PartialEq, Eq)]
pub struct TradeLoop {
    /// Whether the record holds a trade loop.
    pub is_initialized: bool,
    /// The identifier that the creator chose.
    pub trade_id: [u8; 32],
    /// When the loop was created, in seconds.
    pub created_at: u64,
    /// When the loop expires, in seconds.
    pub expires_at: u64,
    /// The number of steps that the loop was created for.
    pub step_count: u8,
    /// The steps added so far, in ring order.
    pub steps: Vec<TradeStep>,
    /// The participant who created the loop.
    pub authority: Address,
}

/// The mathematical content of a trade loop.
pub struct TradeLoopView {
    pub is_initialized: bool,
    pub trade_id: Seq<u8>,
    pub created_at: u64,
    pub expires_at: u64,
    pub step_count: u8,
    pub steps: Seq<TradeStepView>,
    pub authority: Seq<u8>,
}

impl View for TradeLoop {
    type V = TradeLoopView;

    open spec fn view(&self) -> TradeLoopView {
        TradeLoopView {
            is_initialized: self.is_initialized,
            trade_id: self.trade_id@,
            created_at: self.created_at,
            expires_at: self.expires_at,
            step_count: self.step_count,
            steps: steps_view(self.steps@),
            authority: self.authority@,
        }
    }
}

/// A copy of the steps with the same contents.
pub fn clone_steps(steps: &Vec<TradeStep>) -> (copy: Vec<TradeStep>)
    ensures
        steps_view(copy@) == steps_view(steps@),
{
    let mut copy: Vec<TradeStep> = Vec::new();
    let mut i: usize = 0;
    while i < steps.len()
        invariant
            i <= steps.len(),
            copy@.len() == i,
            forall|k: int| 0 <= k < i ==> copy@[k]@ == steps@[k]@,
        decreases steps.len() - i,
    {
        copy.push(steps[i].clone());
        i += 1;
    }
    copy
}

impl Clone for TradeLoop {
    fn clone(&self) -> (copy: TradeLoop)
        ensures
            copy@ == self@,
    {
        TradeLoop {
            is_initialized: self.is_initialized,
            trade_id: self.trade_id,
            created_at: self.created_at,
            expires_at: self.expires_at,
            step_count: self.step_count,
            steps: clone_steps(&self.steps),
            authority: self.authority,
        }
    }
}

/// The senders that occur in the steps.
pub open spec fn senders(steps: Seq<TradeStepView>) -> Set<Seq<u8>> {
    steps.map_values(|s: TradeStepView| s.from).to_set()
}

/// Step `i` hands over to the sender of step `i + 1`.
pub open spec fn hands_over(steps: Seq<TradeStepView>, i: int) -> bool {
    steps[i].to == steps[i + 1].from
}

impl TradeLoopView {
    /// Each step hands over to the sender of the next one, and the last step
    /// to the sender of the first.
    pub open spec fn chain_closes(self) -> bool {
        &&& self.steps.len() > 0
        &&& self.steps.last().to == self.steps.first().from
        &&& forall|i: int| 0 <= i < self.steps.len() - 1 ==> #[trigger] hands_over(self.steps, i)
    }

    /// The steps form a ring among at least two different senders.
    pub open spec fn is_valid_cycle(self) -> bool {
        self.chain_closes() && senders(self.steps).len() >= 2
    }

    /// Every step has been approved and none executed yet.
    pub open spec fn all_approved(self) -> bool {
        forall|i: int| 0 <= i < self.steps.len() ==> (#[trigger] self.steps[i]).status == StepStatus::Approved
    }

    /// Some step has been approved and not executed yet.
    pub open spec fn some_approved(self) -> bool {
        exists|i: int| 0 <= i < self.steps.len() && (#[trigger] self.steps[i]).status == StepStatus::Approved
    }

    /// The loop has expired at the given time.
    pub open spec fn expired_at(self, now: u64) -> bool {
        now >= self.expires_at
    }

    /// The loop holds no more steps than it was created for and does not
    /// expire before it was created, and every step moves at least one
    /// asset and none twice.
    pub open spec fn well_formed(self) -> bool {
        &&& self.steps.len() <= self.step_count
        &&& self.created_at <= self.expires_at
        &&& forall|i: int|
            0 <= i < self.steps.len() ==> (#[trigger] self.steps[i]).nft_mints.len() > 0
                && self.steps[i].nft_mints.no_duplicates()
    }
}

/// Number of bytes that a record reserves for a loop of `step_count` steps
/// with up to `max_nfts_per_step` assets each, both limited by the program's
/// maxima.
pub open spec fn record_space(step_count: u8, max_nfts_per_step: u8) -> int {
    let steps: int = if step_count <= MAX_PARTICIPANTS_PER_TRANSACTION {
        step_count as int
    } else {
        MAX_PARTICIPANTS_PER_TRANSACTION as int
    };
    let nfts: int = if max_nfts_per_step <= MAX_NFTS_PER_STEP {
        max_nfts_per_step as int
    } else {
        MAX_NFTS_PER_STEP as int
    };
    81 + 4 + steps * (69 + nfts * 32)
}

/// The senders of a non-empty list of steps number at least two exactly when
/// one of them differs from the first.
pub proof fn lemma_two_senders(steps: Seq<TradeStepView>)
    requires
        steps.len() > 0,
    ensures
        senders(steps).len() >= 2 <==> exists|i: int| 0 <= i < steps.len() && (#[trigger] steps[i]).from != steps[0].from,
{
    let froms = steps.map_values(|s: TradeStepView| s.from);
    let all = senders(steps);
    vstd::seq_lib::seq_to_set_is_finite(froms);
    assert(froms[0] == steps[0].from);
    if exists|i: int| 0 <= i < steps.len() && (#[trigger] steps[i]).from != steps[0].from {
        let i = choose|i: int| 0 <= i < steps.len() && (#[trigger] steps[i]).from != steps[0].from;
        assert(froms[i] == steps[i].from);
        let rest = all.remove(steps[0].from);
        assert(rest.contains(steps[i].from));
        assert(rest.len() >= 1);
    } else {
        assert forall|x: Seq<u8>| all.contains(x) implies x == steps[0].from by {
            let k = choose|k: int| 0 <= k < froms.len() && froms[k] == x;
        }
        assert(all =~= set![steps[0].from]);
    }
}

impl TradeLoop {
    /// Whether the record holds a trade loop.
    pub fn is_initialized(&self) -> (initialized: bool)
        ensures
            initialized == self@.is_initialized,
    {
        self.is_initialized
    }

    /// Number of bytes that a record reserves for a loop of `step_count`
    /// steps with up to `max_nfts_per_step` assets each.
    pub fn get_space(step_count: u8, max_nfts_per_step: u8) -> (space: usize)
        ensures
            space == record_space(step_count, max_nfts_per_step),
            85 <= space <= 2252,
    {
        let base_size: usize = 1 + 32 + 8 + 8 + 32;
        let steps_header_size: usize = 4;
        let step_base_size: usize = 32 + 32 + 1 + 4;
        let nft_mint_size: usize = 32;
        let actual_step_count: u8 = if step_count <= MAX_PARTICIPANTS_PER_TRANSACTION {
            step_count
        } else {
            MAX_PARTICIPANTS_PER_TRANSACTION
        };
        let actual_max_nfts: u8 = if max_nfts_per_step <= MAX_NFTS_PER_STEP {
            max_nfts_per_step
        } else {
            MAX_NFTS_PER_STEP
        };
        let per_step: usize = step_base_size + (actual_max_nfts as usize) * nft_mint_size;
        assert((actual_step_count as usize) * per_step <= 2167) by (nonlinear_arith)
            requires
                actual_step_count <= 11,
                per_step <= 197,
        ;
        base_size + steps_header_size + (actual_step_count as usize) * per_step
    }

    /// Whether the steps form a valid cycle: the ring closes, every step
    /// hands over to the sender of the next, and at least two different
    /// participants give.
    pub fn verify_loop(&self) -> (valid: bool)
        ensures
            valid == self@.is_valid_cycle(),
    {
        let n: usize = self.steps.len();
        if n == 0 {
            return false;
        }
        if self.steps[n - 1].to != self.steps[0].from {
            return false;
        }
        let mut i: usize = 0;
        while i + 1 < n
            invariant
                n == self.steps@.len(),
                n > 0,
                i < n,
                forall|k: int| 0 <= k < i ==> #[trigger] hands_over(self@.steps, k),
            decreases n - i,
        {
            if self.steps[i].to != self.steps[i + 1].from {
                proof {
                    assert(!hands_over(self@.steps, i as int));
                }
                return false;
            }
            i += 1;
        }
        let mut two: bool = false;
        let mut j: usize = 1;
        while j < n
            invariant
                n == self.steps@.len(),
                1 <= j <= n,
                two <==> exists|k: int| 0 <= k < j && (#[trigger] self@.steps[k]).from != self@.steps[0].from,
            decreases n - j,
        {
            proof {
                assert(self@.steps[j as int] == self.steps@[j as int]@);
            }
            if self.steps[j].from != self.steps[0].from {
                two = true;
            }
            j += 1;
        }
        proof {
            lemma_two_senders(self@.steps);
        }
        two
    }

    /// Whether every step has been approved and awaits execution.
    pub fn is_ready_for_execution(&self) -> (ready: bool)
        ensures
            ready == self@.all_approved(),
    {
        let mut i: usize = 0;
        while i < self.steps.len()
            invariant
                i <= self.steps@.len(),
                forall|k: int| 0 <= k < i ==> (#[trigger] self@.steps[k]).status == StepStatus::Approved,
            decreases self.steps.len() - i,
        {
            proof {
                assert(self@.steps[i as int] == self.steps@[i as int]@);
            }
            if self.steps[i].status != StepStatus::Approved {
                return false;
            }
            i += 1;
        }
        true
    }

    /// Whether the loop has expired at `current_time`.
    pub fn is_expired(&self, current_time: u64) -> (expired: bool)
        ensures
            expired == self@.expired_at(current_time),
    {
        current_time >= self.expires_at
    }
}

/// The configuration of the program: one record per deployment.
#[derive(Clone, Copy, Debug, PartialEq, Eq)]
pub struct ProgramConfig {
    /// Whether the record holds a configuration.
    pub is_initialized: bool,
    /// The version of the deployed program.
    pub version: u32,
    /// Who may upgrade the program and change the configuration.
    pub upgrade_authority: Address,
    /// Who else may do so, if anyone.
    pub governance: Option<Address>,
    /// Whether the operations of participants are suspended.
    pub paused: bool,
}

impl ProgramConfig {
    /// Whether the record holds a configuration.
    pub fn is_initialized(&self) -> (initialized: bool)
        ensures
            initialized == self.is_initialized,
    {
        self.is_initialized
    }
}

} // verus!
