//! Market state and contract configuration, with the invariant that every
//! market keeps.

use vstd::prelude::*;
use crate::sdk::{amounts, holds_amount};

verus! {

/// Lifecycle state of a prediction market.
#[derive(Clone, Copy, Debug, PartialEq, Eq, Structural)]
pub enum MarketStatus {
    /// Accepting stakes; outcome not yet known.
    Open,
    /// Resolved: `winning_outcome` is set.
    Resolved,
    /// Voided: stakes are refundable.
    Voided,
}

/// Full state of a single prediction market.
#[derive(Clone, Debug)]
pub struct MarketState {
    /// Unique market identifier (assigned at creation).
    pub market_id: u64,
    /// Human-readable description / question.
    pub description: soroban_sdk::String,
    /// Token contract used for stakes and payouts.
    pub token: soroban_sdk::Address,
    /// Ledger timestamp after which no more stakes are accepted.
    pub close_time: u64,
    /// Current lifecycle status.
    pub status: MarketStatus,
    /// Number of distinct outcome buckets.
    pub outcome_count: u32,
    /// Winning outcome index, set on resolution.
    pub winning_outcome: Option<u32>,
    /// Total tokens staked per outcome (index = outcome id).
    pub outcome_stakes: soroban_sdk::Vec<i128>,
    /// Total tokens staked across all outcomes.
    pub total_stake: i128,
    /// Ledger sequence at which the market was resolved or voided.
    pub resolved_at: Option<u32>,
}

/// The contract-wide configuration: the oracle authority and the id that the
/// next market will get. `None` stands for an entry that was never written.
#[derive(Clone, Debug)]
pub struct OracleConfig {
    pub admin: Option<soroban_sdk::Address>,
    pub next_id: Option<u64>,
}

/// A participant's stake record in one market: the stake on each outcome and
/// their total. A record that was never written stands for no stake at all.
#[derive(Clone, Debug)]
pub struct ParticipantStake {
    /// Total staked by the participant across all outcomes.
    pub total: i128,
    /// Amount staked by the participant per outcome (index = outcome id).
    pub by_outcome: soroban_sdk::Vec<i128>,
}

/// Every item of the vector is an `i128`.
pub open spec fn amounts_typed(v: soroban_sdk::Vec<i128>) -> bool {
    forall|i: int| 0 <= i < amounts(v).len() ==> #[trigger] holds_amount(v, i)
}

/// Every amount is non-negative.
pub open spec fn all_nonneg(s: Seq<i128>) -> bool {
    forall|i: int| 0 <= i < s.len() ==> s[i] >= 0
}

/// The record invariant in a market with `outcome_count` outcomes: one entry
/// per outcome, all `i128` and non-negative, summing to the total.
pub open spec fn record_wf(r: ParticipantStake, outcome_count: u32) -> bool {
    &&& amounts(r.by_outcome).len() == outcome_count
    &&& amounts_typed(r.by_outcome)
    &&& all_nonneg(amounts(r.by_outcome))
    &&& r.total == seq_sum(amounts(r.by_outcome))
}

/// A participant's total stake; no record reads as zero.
pub open spec fn record_total(r: Option<ParticipantStake>) -> i128 {
    match r {
        Some(r) => r.total,
        None => 0,
    }
}

/// A participant's stake per outcome; no record reads as zero on each of the
/// `outcome_count` outcomes.
pub open spec fn record_amounts(r: Option<ParticipantStake>, outcome_count: u32) -> Seq<i128> {
    match r {
        Some(r) => amounts(r.by_outcome),
        None => zeros(outcome_count as nat),
    }
}

/// Sum of a sequence of amounts.
pub open spec fn seq_sum(s: Seq<i128>) -> int
    decreases s.len(),
{
    if s.len() == 0 {
        0
    } else {
        seq_sum(s.drop_last()) + s.last()
    }
}

/// `n` zero amounts.
pub open spec fn zeros(n: nat) -> Seq<i128> {
    Seq::new(n, |i: int| 0i128)
}

impl MarketState {
    /// The per-outcome stake pools.
    pub open spec fn pools(self) -> Seq<i128> {
        amounts(self.outcome_stakes)
    }

    /// The market invariant: one `i128` pool per outcome, no negative pool, the
    /// total is the sum of the pools, and the status agrees with the
    /// resolution fields.
    pub open spec fn wf(self) -> bool {
        &&& self.outcome_count >= 2
        &&& self.pools().len() == self.outcome_count
        &&& amounts_typed(self.outcome_stakes)
        &&& all_nonneg(self.pools())
        &&& self.total_stake == seq_sum(self.pools())
        &&& match self.status {
            MarketStatus::Open => self.winning_outcome is None && self.resolved_at is None,
            MarketStatus::Resolved => self.winning_outcome matches Some(w) && w < self.outcome_count
                && self.resolved_at is Some,
            MarketStatus::Voided => self.winning_outcome is None && self.resolved_at is Some,
        }
    }
}

/// Replacing one amount changes the sum by the difference.
pub proof fn lemma_sum_update(s: Seq<i128>, i: int, v: i128)
    requires
        0 <= i < s.len(),
    ensures
        seq_sum(s.update(i, v)) == seq_sum(s) - s[i] + v,
    decreases s.len(),
{
    let t = s.update(i, v);
    if i == s.len() - 1 {
        assert(t.drop_last() =~= s.drop_last());
    } else {
        lemma_sum_update(s.drop_last(), i, v);
        assert(t.drop_last() =~= s.drop_last().update(i, v));
    }
}

/// Zero amounts sum to zero.
pub proof fn lemma_sum_zeros(n: nat)
    ensures
        seq_sum(zeros(n)) == 0,
    decreases n,
{
    if n > 0 {
        lemma_sum_zeros((n - 1) as nat);
        assert(zeros(n).drop_last() =~= zeros((n - 1) as nat));
    }
}

/// A sum of non-negative amounts is at least each of them.
pub proof fn lemma_sum_bounds_each(s: Seq<i128>, i: int)
    requires
        0 <= i < s.len(),
        forall|j: int| 0 <= j < s.len() ==> s[j] >= 0,
    ensures
        0 <= s[i] <= seq_sum(s),
    decreases s.len(),
{
    lemma_sum_nonneg(s.drop_last());
    if i < s.len() - 1 {
        lemma_sum_bounds_each(s.drop_last(), i);
    }
}

/// A sum of non-negative amounts is non-negative.
pub proof fn lemma_sum_nonneg(s: Seq<i128>)
    requires
        forall|j: int| 0 <= j < s.len() ==> s[j] >= 0,
    ensures
        seq_sum(s) >= 0,
    decreases s.len(),
{
    if s.len() > 0 {
        lemma_sum_nonneg(s.drop_last());
    }
}

} // verus!
