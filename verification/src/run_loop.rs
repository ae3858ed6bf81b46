//! The decision core of the node's tenure run loop.
//!
//! The loop itself talks to a burnchain controller and a relayer and so
//! cannot stand in the verified library; what stands here is every decision
//! it makes, as functions from plain observations to the next action, so
//! the driver around it holds no logic of its own.

use vstd::prelude::*;

verus! {

/// Which boot sequence a fresh node runs.
#[derive(Debug, Clone, Copy, PartialEq, Eq, Structural)]
pub enum BootMode {
    /// Nothing burnt yet: initialize a chain state from scratch.
    Genesis,
    /// A chain already exists; syncing from the network is not implemented.
    Unsupported,
}

/// What one round of the loop does next.
#[derive(Debug, Clone, Copy, PartialEq, Eq, Structural)]
pub enum RoundAction {
    /// The expected number of rounds was reached: return normally.
    Finish,
    /// The relayer hung up: abort.
    ExitRelayerHungUp,
    /// Sync the burnchain, process its state, and start the next round.
    AdvanceRound,
}

/// What the genesis boot sequence does after one of its steps.
#[derive(Debug, Clone, Copy, PartialEq, Eq, Structural)]
pub enum BootAction {
    /// The key registration is not included yet: sync another block.
    WaitForAnotherBlock,
    /// The step succeeded: go on with the sequence.
    Proceed,
    /// The step failed: the chain cannot be bootstrapped.
    Abort,
}

/// The decision of one loop round, from the counters and the relayer's two
/// answers.
pub open spec fn spec_round_action(
    round_index: u64,
    expected_num_rounds: u64,
    sortition_notified: bool,
    tenure_issued: bool,
) -> RoundAction {
    if round_index == expected_num_rounds {
        RoundAction::Finish
    } else if !sortition_notified {
        RoundAction::ExitRelayerHungUp
    } else if !tenure_issued {
        RoundAction::ExitRelayerHungUp
    } else {
        RoundAction::AdvanceRound
    }
}

/// The decision state of the run loop: how many rounds to run, and which
/// round is in flight.
#[derive(Debug, PartialEq, Eq)]
pub struct RunLoop {
    pub expected_num_rounds: u64,
    pub round_index: u64,
}

impl RunLoop {
    /// Sets up the decision state of a run loop; rounds are counted from
    /// one, the genesis boot standing for round zero.
    pub fn new(expected_num_rounds: u64) -> (r: RunLoop)
        ensures
            r == (RunLoop { expected_num_rounds, round_index: 1 }),
    {
        RunLoop { expected_num_rounds, round_index: 1 }
    }

    /// Which boot sequence a fresh node runs: genesis exactly when the
    /// burnchain tip shows nothing burnt yet.
    pub fn boot_mode(total_burn: u64) -> (r: BootMode)
        ensures
            r == (if total_burn == 0 {
                BootMode::Genesis
            } else {
                BootMode::Unsupported
            }),
    {
        if total_burn == 0 {
            BootMode::Genesis
        } else {
            BootMode::Unsupported
        }
    }

    /// During genesis boot, whether the key registration was included in the
    /// synced block, or another block must be awaited.
    pub fn vrf_wait_action(accepted_ops: usize) -> (r: BootAction)
        ensures
            r == (if accepted_ops == 0 {
                BootAction::WaitForAnotherBlock
            } else {
                BootAction::Proceed
            }),
    {
        if accepted_ops == 0 {
            BootAction::WaitForAnotherBlock
        } else {
            BootAction::Proceed
        }
    }

    /// Whether a fallible boot step (initiating the first tenure, running
    /// it, winning the first sortition) lets the sequence go on.
    pub fn boot_step_action(succeeded: bool) -> (r: BootAction)
        ensures
            r == (if succeeded {
                BootAction::Proceed
            } else {
                BootAction::Abort
            }),
    {
        if succeeded {
            BootAction::Proceed
        } else {
            BootAction::Abort
        }
    }

    /// Decides one round of the loop from the relayer's two answers, and
    /// advances the round counter exactly when the round proceeds.
    pub fn next_round_action(&mut self, sortition_notified: bool, tenure_issued: bool) -> (r:
        RoundAction)
        requires
            old(self).round_index < u64::MAX,
        ensures
            r == spec_round_action(
                old(self).round_index,
                old(self).expected_num_rounds,
                sortition_notified,
                tenure_issued,
            ),
            final(self).expected_num_rounds == old(self).expected_num_rounds,
            final(self).round_index == (if r == RoundAction::AdvanceRound {
                old(self).round_index + 1
            } else {
                old(self).round_index as int
            }),
    {
        if self.round_index == self.expected_num_rounds {
            RoundAction::Finish
        } else if !sortition_notified {
            RoundAction::ExitRelayerHungUp
        } else if !tenure_issued {
            RoundAction::ExitRelayerHungUp
        } else {
            self.round_index = self.round_index + 1;
            RoundAction::AdvanceRound
        }
    }
}

} // verus!
