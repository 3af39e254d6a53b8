//! The state machine of a trade loop: construction, adding steps, approval,
//! execution and cancellation.
//!
//! Every transition is defined on the mathematical content of a loop, as a
//! function that yields the next content or the failure. The executable
//! operations change the record in place and leave it untouched when they
//! fail.

use crate::address::Address;
use crate::error::SwapError;
use crate::state::{
    addresses_view, steps_view, StepStatus, TradeLoop, TradeLoopView, TradeStep, TradeStepView,
    MAX_PARTICIPANTS_PER_TRANSACTION, MAX_TIMEOUT_SECONDS,
};
use vstd::prelude::*;

verus! {

/// Thirty-two zero bytes.
pub open spec fn zero_bytes() -> Seq<u8> {
    Seq::new(32, |i: int| 0u8)
}

/// The content of an erased record.
pub open spec fn erased_loop() -> TradeLoopView {
    TradeLoopView {
        is_initialized: false,
        trade_id: zero_bytes(),
        created_at: 0,
        expires_at: 0,
        step_count: 0,
        steps: Seq::empty(),
        authority: zero_bytes(),
    }
}

/// The loop that `initialize` creates, or the reason why it creates none.
pub open spec fn new_loop(
    trade_id: Seq<u8>,
    step_count: u8,
    timeout_seconds: u64,
    now: u64,
    authority: Seq<u8>,
) -> Result<TradeLoopView, SwapError> {
    if step_count == 0 {
        Err(SwapError::InvalidInstructionData)
    } else if step_count > MAX_PARTICIPANTS_PER_TRANSACTION {
        Err(SwapError::TooManyParticipants)
    } else if timeout_seconds > MAX_TIMEOUT_SECONDS {
        Err(SwapError::InvalidInstructionData)
    } else if now + timeout_seconds > u64::MAX {
        Err(SwapError::InvalidInstructionData)
    } else {
        Ok(
            TradeLoopView {
                is_initialized: true,
                trade_id,
                created_at: now,
                expires_at: (now + timeout_seconds) as u64,
                step_count,
                steps: Seq::empty(),
                authority,
            },
        )
    }
}

/// Why a step with these assets cannot be added at `step_index`, if it cannot.
pub open spec fn step_arguments_fault(step_count: u8, step_index: u8, nft_mints: Seq<Seq<u8>>) -> Option<SwapError> {
    if step_index >= step_count {
        Some(SwapError::InvalidInstructionData)
    } else if nft_mints.len() == 0 {
        Some(SwapError::InvalidInstructionData)
    } else if !nft_mints.no_duplicates() {
        Some(SwapError::InvalidInstructionData)
    } else {
        None
    }
}

impl TradeLoopView {
    /// The loop with `step` at `index`: appended where the loop has no step
    /// at that index yet, in place of the step there otherwise.
    pub open spec fn with_step(self, index: int, step: TradeStepView) -> TradeLoopView {
        if index >= self.steps.len() {
            TradeLoopView { steps: self.steps.push(step), ..self }
        } else {
            TradeLoopView { steps: self.steps.update(index, step), ..self }
        }
    }

    /// The loop with another status for step `index`.
    pub open spec fn with_status(self, index: int, status: StepStatus) -> TradeLoopView {
        TradeLoopView { steps: self.steps.update(index, self.steps[index].with_status(status)), ..self }
    }

    /// The loop with every step executed.
    pub open spec fn all_executed(self) -> TradeLoopView {
        TradeLoopView { steps: self.steps.map_values(|s: TradeStepView| s.with_status(StepStatus::Executed)), ..self }
    }

    /// Adding a step: the index must lie below the number of steps that the
    /// loop was created for, the assets must be at least one and all
    /// different. The step that completes the loop is only accepted if the
    /// loop then is a valid cycle.
    pub open spec fn add_step(self, step_index: u8, from: Seq<u8>, to: Seq<u8>, nft_mints: Seq<Seq<u8>>) -> Result<
        TradeLoopView,
        SwapError,
    > {
        match step_arguments_fault(self.step_count, step_index, nft_mints) {
            Some(e) => Err(e),
            None => {
                let next = self.with_step(
                    step_index as int,
                    TradeStepView { from, to, nft_mints, status: StepStatus::Created },
                );
                if next.steps.len() == self.step_count && !next.is_valid_cycle() {
                    Err(SwapError::TradeLoopVerificationFailed)
                } else {
                    Ok(next)
                }
            },
        }
    }

    /// Approval of step `step_index` by `caller` at time `now`.
    pub open spec fn approve_step(self, step_index: u8, caller: Seq<u8>, now: u64) -> Result<TradeLoopView, SwapError> {
        if self.expired_at(now) {
            Err(SwapError::TradeTimeoutExceeded)
        } else if step_index >= self.steps.len() {
            Err(SwapError::InvalidInstructionData)
        } else if self.steps[step_index as int].from != caller {
            Err(SwapError::InvalidAccountOwner)
        } else if self.steps[step_index as int].status == StepStatus::Approved {
            Ok(self)
        } else if self.steps[step_index as int].status == StepStatus::Executed {
            Err(SwapError::StepAlreadyExecuted)
        } else {
            Ok(self.with_status(step_index as int, StepStatus::Approved))
        }
    }

    /// Why step `step_index` cannot be executed between `sender` and
    /// `recipient` at time `now`, if it cannot.
    pub open spec fn execute_step_fault(self, step_index: u8, sender: Seq<u8>, recipient: Seq<u8>, now: u64) -> Option<
        SwapError,
    > {
        if self.expired_at(now) {
            Some(SwapError::TradeTimeoutExceeded)
        } else if step_index >= self.steps.len() {
            Some(SwapError::InvalidInstructionData)
        } else if self.steps[step_index as int].status == StepStatus::Executed {
            Some(SwapError::StepAlreadyExecuted)
        } else if self.steps[step_index as int].status != StepStatus::Approved {
            Some(SwapError::MissingApprovals)
        } else if self.steps[step_index as int].from != sender {
            Some(SwapError::InvalidAccountData)
        } else if self.steps[step_index as int].to != recipient {
            Some(SwapError::InvalidAccountData)
        } else {
            None
        }
    }

    /// Execution of step `step_index` between `sender` and `recipient`.
    pub open spec fn execute_step(self, step_index: u8, sender: Seq<u8>, recipient: Seq<u8>, now: u64) -> Result<
        TradeLoopView,
        SwapError,
    > {
        match self.execute_step_fault(step_index, sender, recipient, now) {
            Some(e) => Err(e),
            None => Ok(self.with_status(step_index as int, StepStatus::Executed)),
        }
    }

    /// Why the loop cannot be executed as a whole at time `now`, if it cannot.
    pub open spec fn execute_full_loop_fault(self, now: u64) -> Option<SwapError> {
        if self.expired_at(now) {
            Some(SwapError::TradeTimeoutExceeded)
        } else if !self.is_valid_cycle() {
            Some(SwapError::TradeLoopVerificationFailed)
        } else if !self.all_approved() {
            Some(SwapError::MissingApprovals)
        } else if self.steps.len() > MAX_PARTICIPANTS_PER_TRANSACTION {
            Some(SwapError::TooManyParticipants)
        } else {
            None
        }
    }

    /// Execution of the whole loop.
    pub open spec fn execute_full_loop(self, now: u64) -> Result<TradeLoopView, SwapError> {
        match self.execute_full_loop_fault(now) {
            Some(e) => Err(e),
            None => Ok(self.all_executed()),
        }
    }

    /// `caller` gives in some step of the loop.
    pub open spec fn takes_part(self, caller: Seq<u8>) -> bool {
        exists|i: int| 0 <= i < self.steps.len() && (#[trigger] self.steps[i]).from == caller
    }

    /// The first step in which `caller` gives.
    pub open spec fn first_step_of(self, caller: Seq<u8>) -> int {
        choose|i: int|
            0 <= i < self.steps.len() && (#[trigger] self.steps[i]).from == caller && forall|k: int|
                0 <= k < i ==> (#[trigger] self.steps[k]).from != caller
    }

    /// Cancellation by `caller`: refused as soon as any step has been
    /// approved, open only to a participant, and only while the first step
    /// of that participant has not gone beyond `Created`. A cancelled record
    /// is erased.
    pub open spec fn cancel(self, caller: Seq<u8>) -> Result<TradeLoopView, SwapError> {
        if self.some_approved() {
            Err(SwapError::CancellationDenied)
        } else if !self.takes_part(caller) {
            Err(SwapError::InvalidAccountOwner)
        } else if self.steps[self.first_step_of(caller)].status != StepStatus::Created {
            Err(SwapError::CancellationDenied)
        } else {
            Ok(erased_loop())
        }
    }
}

/// Whether some address occurs twice in the list.
pub fn has_duplicates(list: &Vec<Address>) -> (dup: bool)
    ensures
        dup == !addresses_view(list@).no_duplicates(),
{
    let ghost view = addresses_view(list@);
    let n: usize = list.len();
    let mut i: usize = 0;
    while i < n
        invariant
            n == list@.len(),
            view == addresses_view(list@),
            i <= n,
            forall|a: int, b: int| 0 <= a < i && a < b < n ==> view[a] != view[b],
        decreases n - i,
    {
        let mut j: usize = i + 1;
        while j < n
            invariant
                n == list@.len(),
                view == addresses_view(list@),
                i < j <= n,
                forall|b: int| i < b < j ==> view[i as int] != view[b],
            decreases n - j,
        {
            if list[i] == list[j] {
                proof {
                    assert(view[i as int] == view[j as int]);
                }
                return true;
            }
            j += 1;
        }
        i += 1;
    }
    false
}

impl TradeLoop {
    /// An erased record.
    pub fn erased() -> (blank: TradeLoop)
        ensures
            blank@ == erased_loop(),
    {
        let blank = TradeLoop {
            is_initialized: false,
            trade_id: [0u8; 32],
            created_at: 0,
            expires_at: 0,
            step_count: 0,
            steps: Vec::new(),
            authority: Address { bytes: [0u8; 32] },
        };
        proof {
            assert(blank.trade_id@ =~= zero_bytes());
            assert(steps_view(blank.steps@) =~= Seq::empty());
        }
        blank
    }

    /// Creates a loop for `step_count` steps that expires `timeout_seconds`
    /// after `now`. There must be between one and eleven steps, the timeout
    /// may not exceed thirty days, and the time of expiry must be
    /// representable.
    pub fn initialize(trade_id: [u8; 32], step_count: u8, timeout_seconds: u64, now: u64, authority: Address) -> (created:
        Result<TradeLoop, SwapError>)
        ensures
            match new_loop(trade_id@, step_count, timeout_seconds, now, authority@) {
                Ok(content) => created is Ok && created->Ok_0@ == content,
                Err(e) => created is Err && created->Err_0 == e,
            },
            created is Ok ==> created->Ok_0@.well_formed(),
    {
        if step_count == 0 {
            return Err(SwapError::InvalidInstructionData);
        }
        if step_count > MAX_PARTICIPANTS_PER_TRANSACTION {
            return Err(SwapError::TooManyParticipants);
        }
        if timeout_seconds > MAX_TIMEOUT_SECONDS {
            return Err(SwapError::InvalidInstructionData);
        }
        let expires_at: u64 = match now.checked_add(timeout_seconds) {
            Some(t) => t,
            None => {
                return Err(SwapError::InvalidInstructionData);
            },
        };
        let created = TradeLoop {
            is_initialized: true,
            trade_id,
            created_at: now,
            expires_at,
            step_count,
            steps: Vec::new(),
            authority,
        };
        proof {
            assert(steps_view(created.steps@) =~= Seq::empty());
        }
        Ok(created)
    }

    /// Why a step with these assets cannot be added at `step_index`, if it
    /// cannot: the index lies beyond the steps that the loop was created
    /// for, or the assets are none, or one of them occurs twice.
    pub fn check_step_arguments(&self, step_index: u8, nft_mints: &Vec<Address>) -> (checked: Result<(), SwapError>)
        ensures
            match step_arguments_fault(self@.step_count, step_index, addresses_view(nft_mints@)) {
                Some(e) => checked == Err::<(), SwapError>(e),
                None => checked is Ok,
            },
    {
        if step_index >= self.step_count {
            return Err(SwapError::InvalidInstructionData);
        }
        if nft_mints.len() == 0 {
            return Err(SwapError::InvalidInstructionData);
        }
        if has_duplicates(nft_mints) {
            return Err(SwapError::InvalidInstructionData);
        }
        Ok(())
    }

    /// Adds the step in which `from` hands `nft_mints` to `to`, at
    /// `step_index`: appended where the loop has no step there yet, in place
    /// of the step there otherwise. The new step is `Created`. When the loop
    /// thereby holds all its steps, it must be a valid cycle. A refused step
    /// leaves the loop as it was.
    pub fn add_step(&mut self, step_index: u8, from: Address, to: Address, nft_mints: Vec<Address>) -> (added: Result<
        (),
        SwapError,
    >)
        ensures
            match old(self)@.add_step(step_index, from@, to@, addresses_view(nft_mints@)) {
                Ok(next) => added is Ok && final(self)@ == next,
                Err(e) => added == Err::<(), SwapError>(e) && final(self)@ == old(self)@,
            },
    {
        match self.check_step_arguments(step_index, &nft_mints) {
            Err(e) => {
                return Err(e);
            },
            Ok(_) => {},
        }
        let ghost step_view = TradeStepView {
            from: from@,
            to: to@,
            nft_mints: addresses_view(nft_mints@),
            status: StepStatus::Created,
        };
        let step = TradeStep { from, to, nft_mints, status: StepStatus::Created };
        let mut candidate = self.clone();
        let index: usize = step_index as usize;
        if index >= candidate.steps.len() {
            candidate.steps.push(step);
            proof {
                assert(steps_view(candidate.steps@) =~= old(self)@.steps.push(step_view));
            }
        } else {
            candidate.steps[index] = step;
            proof {
                assert(steps_view(candidate.steps@) =~= old(self)@.steps.update(index as int, step_view));
            }
        }
        if candidate.steps.len() == self.step_count as usize && !candidate.verify_loop() {
            return Err(SwapError::TradeLoopVerificationFailed);
        }
        *self = candidate;
        Ok(())
    }

    /// Records the approval of step `step_index` by `caller`. Only the
    /// sender of the step may approve it, and only before the loop expires.
    /// Approving an approved step again changes nothing and succeeds; an
    /// executed step cannot be approved. A refused approval leaves the loop
    /// as it was.
    pub fn approve_step(&mut self, step_index: u8, caller: &Address, now: u64) -> (approved: Result<(), SwapError>)
        ensures
            match old(self)@.approve_step(step_index, caller@, now) {
                Ok(next) => approved is Ok && final(self)@ == next,
                Err(e) => approved == Err::<(), SwapError>(e) && final(self)@ == old(self)@,
            },
    {
        if self.is_expired(now) {
            return Err(SwapError::TradeTimeoutExceeded);
        }
        let index: usize = step_index as usize;
        if index >= self.steps.len() {
            return Err(SwapError::InvalidInstructionData);
        }
        if self.steps[index].from != *caller {
            return Err(SwapError::InvalidAccountOwner);
        }
        if self.steps[index].status == StepStatus::Approved {
            return Ok(());
        }
        if self.steps[index].status == StepStatus::Executed {
            return Err(SwapError::StepAlreadyExecuted);
        }
        self.steps[index].status = StepStatus::Approved;
        proof {
            assert(self@.steps =~= old(self)@.with_status(index as int, StepStatus::Approved).steps);
        }
        Ok(())
    }

    /// Why step `step_index` cannot be executed between `sender` and
    /// `recipient` at time `now`, if it cannot.
    pub fn check_step_execution(&self, step_index: u8, sender: &Address, recipient: &Address, now: u64) -> (checked:
        Result<(), SwapError>)
        ensures
            match self@.execute_step_fault(step_index, sender@, recipient@, now) {
                Some(e) => checked == Err::<(), SwapError>(e),
                None => checked is Ok,
            },
    {
        if self.is_expired(now) {
            return Err(SwapError::TradeTimeoutExceeded);
        }
        let index: usize = step_index as usize;
        if index >= self.steps.len() {
            return Err(SwapError::InvalidInstructionData);
        }
        if self.steps[index].status == StepStatus::Executed {
            return Err(SwapError::StepAlreadyExecuted);
        }
        if self.steps[index].status != StepStatus::Approved {
            return Err(SwapError::MissingApprovals);
        }
        if self.steps[index].from != *sender {
            return Err(SwapError::InvalidAccountData);
        }
        if self.steps[index].to != *recipient {
            return Err(SwapError::InvalidAccountData);
        }
        Ok(())
    }

    /// Marks step `step_index` as executed between `sender` and
    /// `recipient`. The step must be approved and not yet executed, the two
    /// participants must be those of the step, and the loop must not have
    /// expired. A refused execution leaves the loop as it was.
    pub fn execute_step(&mut self, step_index: u8, sender: &Address, recipient: &Address, now: u64) -> (executed:
        Result<(), SwapError>)
        ensures
            match old(self)@.execute_step(step_index, sender@, recipient@, now) {
                Ok(next) => executed is Ok && final(self)@ == next,
                Err(e) => executed == Err::<(), SwapError>(e) && final(self)@ == old(self)@,
            },
    {
        match self.check_step_execution(step_index, sender, recipient, now) {
            Err(e) => {
                return Err(e);
            },
            Ok(_) => {},
        }
        let index: usize = step_index as usize;
        self.steps[index].status = StepStatus::Executed;
        proof {
            assert(self@.steps =~= old(self)@.with_status(index as int, StepStatus::Executed).steps);
        }
        Ok(())
    }

    /// Why the loop cannot be executed as a whole at time `now`, if it
    /// cannot: it has expired, is no valid cycle, lacks an approval, or has
    /// more steps than one transaction can settle.
    pub fn check_full_execution(&self, now: u64) -> (checked: Result<(), SwapError>)
        ensures
            match self@.execute_full_loop_fault(now) {
                Some(e) => checked == Err::<(), SwapError>(e),
                None => checked is Ok,
            },
    {
        if self.is_expired(now) {
            return Err(SwapError::TradeTimeoutExceeded);
        }
        if !self.verify_loop() {
            return Err(SwapError::TradeLoopVerificationFailed);
        }
        if !self.is_ready_for_execution() {
            return Err(SwapError::MissingApprovals);
        }
        if self.steps.len() > MAX_PARTICIPANTS_PER_TRANSACTION as usize {
            return Err(SwapError::TooManyParticipants);
        }
        Ok(())
    }

    /// Marks every step as executed.
    pub fn mark_all_executed(&mut self)
        ensures
            final(self)@ == old(self)@.all_executed(),
    {
        let n: usize = self.steps.len();
        let mut i: usize = 0;
        while i < n
            invariant
                n == self.steps@.len(),
                n == old(self).steps@.len(),
                i <= n,
                self.is_initialized == old(self).is_initialized,
                self.trade_id == old(self).trade_id,
                self.created_at == old(self).created_at,
                self.expires_at == old(self).expires_at,
                self.step_count == old(self).step_count,
                self.authority == old(self).authority,
                forall|k: int| 0 <= k < i ==> self.steps@[k]@ == old(self).steps@[k]@.with_status(StepStatus::Executed),
                forall|k: int| i <= k < n ==> self.steps@[k]@ == old(self).steps@[k]@,
            decreases n - i,
        {
            self.steps[i].status = StepStatus::Executed;
            i += 1;
        }
        proof {
            assert(self@.steps =~= old(self)@.all_executed().steps);
        }
    }

    /// Settles the whole loop: every step becomes executed. The loop must be
    /// a valid cycle with every step approved, must not have expired and
    /// must not exceed what one transaction can settle. A refused execution
    /// leaves the loop as it was.
    pub fn execute_full_loop(&mut self, now: u64) -> (executed: Result<(), SwapError>)
        ensures
            match old(self)@.execute_full_loop(now) {
                Ok(next) => executed is Ok && final(self)@ == next,
                Err(e) => executed == Err::<(), SwapError>(e) && final(self)@ == old(self)@,
            },
    {
        match self.check_full_execution(now) {
            Err(e) => {
                return Err(e);
            },
            Ok(_) => {},
        }
        self.mark_all_executed();
        Ok(())
    }

    /// Whether some step has been approved and not executed yet.
    pub fn has_approved_step(&self) -> (found: bool)
        ensures
            found == self@.some_approved(),
    {
        let mut i: usize = 0;
        while i < self.steps.len()
            invariant
                i <= self.steps@.len(),
                forall|k: int| 0 <= k < i ==> (#[trigger] self@.steps[k]).status != StepStatus::Approved,
            decreases self.steps.len() - i,
        {
            proof {
                assert(self@.steps[i as int] == self.steps@[i as int]@);
            }
            if self.steps[i].status == StepStatus::Approved {
                return true;
            }
            i += 1;
        }
        false
    }

    /// The index of the first step in which `caller` gives, if there is one.
    pub fn position_of(&self, caller: &Address) -> (found: Option<usize>)
        ensures
            match found {
                Some(i) => self@.takes_part(caller@) && i == self@.first_step_of(caller@) && i < self@.steps.len(),
                None => !self@.takes_part(caller@),
            },
    {
        let mut i: usize = 0;
        while i < self.steps.len()
            invariant
                i <= self.steps@.len(),
                forall|k: int| 0 <= k < i ==> (#[trigger] self@.steps[k]).from != caller@,
            decreases self.steps.len() - i,
        {
            proof {
                assert(self@.steps[i as int] == self.steps@[i as int]@);
            }
            if self.steps[i].from == *caller {
                proof {
                    let first = self@.first_step_of(caller@);
                    assert(first == i);
                }
                return Some(i);
            }
            i += 1;
        }
        None
    }

    /// Cancels the loop on behalf of `caller` and erases the record. No step
    /// may have been approved, `caller` must give in some step, and the
    /// first such step must still be `Created`. A refused cancellation
    /// leaves the loop as it was.
    pub fn cancel_loop(&mut self, caller: &Address) -> (cancelled: Result<(), SwapError>)
        ensures
            match old(self)@.cancel(caller@) {
                Ok(next) => cancelled is Ok && final(self)@ == next,
                Err(e) => cancelled == Err::<(), SwapError>(e) && final(self)@ == old(self)@,
            },
    {
        if self.has_approved_step() {
            return Err(SwapError::CancellationDenied);
        }
        let own: usize = match self.position_of(caller) {
            Some(i) => i,
            None => {
                return Err(SwapError::InvalidAccountOwner);
            },
        };
        if self.steps[own].status != StepStatus::Created {
            return Err(SwapError::CancellationDenied);
        }
        *self = TradeLoop::erased();
        Ok(())
    }
}

} // verus!
