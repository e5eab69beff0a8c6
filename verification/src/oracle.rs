//! The oracle's operations: each takes the stored entries that the contract
//! entry point reads (configuration, market, participant stake) and the ledger
//! values it consults, and gives back the entries to write, or the refusal.

use vstd::prelude::*;
use crate::error::OracleError;
use crate::sdk::{amounts, holds_amount, amounts_new, amounts_push_back, amounts_len, amounts_try_get, amounts_set};
use crate::state::{
    MarketState, MarketStatus, OracleConfig, ParticipantStake, amounts_typed, all_nonneg, record_wf,
    record_total, record_amounts, seq_sum, zeros, lemma_sum_update, lemma_sum_zeros,
};

verus! {

/// Number of ledgers for which a market or stake entry's lifetime is extended after
/// each write (about one year of ledger closings).
pub const MARKET_TTL_LEDGERS: u32 = 6_307_200;

/// The admin, or the refusal when the contract was never initialized.
pub open spec fn admin_of(config: OracleConfig) -> Result<soroban_sdk::Address, OracleError> {
    match config.admin {
        Some(a) => Ok(a),
        None => Err(OracleError::NotInitialized),
    }
}

/// The id that the next market gets; an unwritten counter reads as zero.
pub open spec fn next_id_of(config: OracleConfig) -> u64 {
    match config.next_id {
        Some(n) => n,
        None => 0,
    }
}

/// The stored market, or the refusal when there is none.
pub open spec fn found(stored: Option<MarketState>) -> Result<MarketState, OracleError> {
    match stored {
        Some(m) => Ok(m),
        None => Err(OracleError::MarketNotFound),
    }
}

/// The configuration after `initialize`, or its refusal.
pub open spec fn initialize_result(config: OracleConfig, admin: soroban_sdk::Address) -> Result<OracleConfig, OracleError> {
    if config.admin is Some {
        Err(OracleError::AlreadyInitialized)
    } else {
        Ok(OracleConfig { admin: Some(admin), next_id: Some(0) })
    }
}

/// The configuration after `set_admin`, or its refusal.
pub open spec fn set_admin_result(config: OracleConfig, new_admin: soroban_sdk::Address) -> Result<OracleConfig, OracleError> {
    if config.admin is None {
        Err(OracleError::NotInitialized)
    } else {
        Ok(OracleConfig { admin: Some(new_admin), ..config })
    }
}

/// The configuration after a market id has been handed out.
pub open spec fn advanced(config: OracleConfig) -> OracleConfig {
    OracleConfig { next_id: Some((next_id_of(config) + 1) as u64), ..config }
}

/// Why `create_market` refuses, checked in the contract's order.
pub open spec fn create_refusal(config: OracleConfig, close_time: u64, outcome_count: u32, now: u64) -> Option<OracleError> {
    if config.admin is None {
        Some(OracleError::NotInitialized)
    } else if outcome_count < 2 {
        Some(OracleError::TooFewOutcomes)
    } else if close_time <= now {
        Some(OracleError::CloseTimeNotInFuture)
    } else if next_id_of(config) == u64::MAX {
        Some(OracleError::ArithmeticOverflow)
    } else {
        None
    }
}

/// `m` is a freshly opened market with the given parameters: no stakes, no
/// resolution.
pub open spec fn is_new_market(
    m: MarketState,
    id: u64,
    description: soroban_sdk::String,
    token: soroban_sdk::Address,
    close_time: u64,
    outcome_count: u32,
) -> bool {
    &&& m.market_id == id
    &&& m.description == description
    &&& m.token == token
    &&& m.close_time == close_time
    &&& m.status == MarketStatus::Open
    &&& m.outcome_count == outcome_count
    &&& m.winning_outcome is None
    &&& m.pools() == zeros(outcome_count as nat)
    &&& m.total_stake == 0
    &&& m.resolved_at is None
}

/// Reading position `i` of an amounts vector the way the oracle does: zero
/// past the end, the refusal `NotAnAmount` where the item is not an `i128`.
pub open spec fn amount_read(v: soroban_sdk::Vec<i128>, i: u32) -> Result<i128, OracleError> {
    if i < amounts(v).len() {
        if holds_amount(v, i as int) {
            Ok(amounts(v)[i as int])
        } else {
            Err(OracleError::NotAnAmount)
        }
    } else {
        Ok(0)
    }
}

/// Why `stake` refuses, checked in the contract's order: the amount, the
/// market and its state, then the market's pool and total, then the
/// participant's record.
pub open spec fn stake_refusal(
    market: Option<MarketState>,
    record: Option<ParticipantStake>,
    outcome: u32,
    amount: i128,
    now: u64,
) -> Option<OracleError> {
    if amount <= 0 {
        Some(OracleError::AmountNotPositive)
    } else {
        match market {
            None => Some(OracleError::MarketNotFound),
            Some(m) => if m.status != MarketStatus::Open {
                Some(OracleError::MarketNotOpen)
            } else if now > m.close_time {
                Some(OracleError::StakingClosed)
            } else if outcome >= m.outcome_count {
                Some(OracleError::InvalidOutcome)
            } else {
                match amount_read(m.outcome_stakes, outcome) {
                    Err(e) => Some(e),
                    Ok(current) => if current + amount > i128::MAX {
                        Some(OracleError::ArithmeticOverflow)
                    } else if outcome >= m.pools().len() {
                        Some(OracleError::PoolOutOfBounds)
                    } else if m.total_stake + amount > i128::MAX {
                        Some(OracleError::ArithmeticOverflow)
                    } else {
                        match record {
                            None => None,
                            Some(r) => match amount_read(r.by_outcome, outcome) {
                                Err(e) => Some(e),
                                Ok(held) => if r.total + amount > i128::MAX || held + amount > i128::MAX {
                                    Some(OracleError::ArithmeticOverflow)
                                } else if outcome >= amounts(r.by_outcome).len() {
                                    Some(OracleError::PoolOutOfBounds)
                                } else {
                                    None
                                },
                            },
                        }
                    },
                }
            },
        }
    }
}

/// `after` is `before` with `amount` added to the pool of `outcome` and to the
/// total, all else unchanged.
pub open spec fn staked(before: MarketState, after: MarketState, outcome: u32, amount: i128) -> bool {
    &&& after.pools() == before.pools().update(outcome as int, (before.pools()[outcome as int] + amount) as i128)
    &&& amounts_typed(before.outcome_stakes) ==> amounts_typed(after.outcome_stakes)
    &&& after.total_stake == before.total_stake + amount
    &&& after.market_id == before.market_id
    &&& after.description == before.description
    &&& after.token == before.token
    &&& after.close_time == before.close_time
    &&& after.status == before.status
    &&& after.outcome_count == before.outcome_count
    &&& after.winning_outcome == before.winning_outcome
    &&& after.resolved_at == before.resolved_at
}

/// `after` is the participant's record `before` (none: zero on each of the
/// `outcome_count` outcomes) with `amount` added on `outcome` and to the total.
pub open spec fn staked_record(before: Option<ParticipantStake>, after: ParticipantStake, outcome_count: u32, outcome: u32, amount: i128) -> bool {
    let held = record_amounts(before, outcome_count);
    &&& amounts(after.by_outcome) == held.update(outcome as int, (held[outcome as int] + amount) as i128)
    &&& after.total == record_total(before) + amount
    &&& (before matches Some(r) ==> amounts_typed(r.by_outcome)) ==> amounts_typed(after.by_outcome)
}

/// The configuration's admin must authorize: the result of an admin
/// operation carries it, or the refusal.
pub open spec fn with_admin<T>(config: OracleConfig, r: Result<T, OracleError>) -> Result<(T, soroban_sdk::Address), OracleError> {
    match config.admin {
        None => Err(OracleError::NotInitialized),
        Some(a) => match r {
            Ok(v) => Ok((v, a)),
            Err(e) => Err(e),
        },
    }
}

/// The market after resolution, or the refusal.
pub open spec fn resolved(market: Option<MarketState>, outcome: u32, sequence: u32) -> Result<MarketState, OracleError> {
    match market {
        None => Err(OracleError::MarketNotFound),
        Some(m) => if m.status != MarketStatus::Open {
            Err(OracleError::AlreadySettled)
        } else if outcome >= m.outcome_count {
            Err(OracleError::InvalidOutcome)
        } else {
            Ok(MarketState {
                status: MarketStatus::Resolved,
                winning_outcome: Some(outcome),
                resolved_at: Some(sequence),
                ..m
            })
        },
    }
}

/// The market after voiding, or the refusal.
pub open spec fn voided(market: Option<MarketState>, sequence: u32) -> Result<MarketState, OracleError> {
    match market {
        None => Err(OracleError::MarketNotFound),
        Some(m) => if m.status != MarketStatus::Open {
            Err(OracleError::AlreadySettled)
        } else {
            Ok(MarketState { status: MarketStatus::Voided, resolved_at: Some(sequence), ..m })
        },
    }
}

/// What `resolve_market` gives back: the resolved market and the admin who
/// must authorize it.
pub open spec fn resolve_result(config: OracleConfig, market: Option<MarketState>, outcome: u32, sequence: u32)
    -> Result<(MarketState, soroban_sdk::Address), OracleError> {
    with_admin(config, resolved(market, outcome, sequence))
}

/// What `void_market` gives back: the voided market and the admin who must
/// authorize it.
pub open spec fn void_result(config: OracleConfig, market: Option<MarketState>, sequence: u32)
    -> Result<(MarketState, soroban_sdk::Address), OracleError> {
    with_admin(config, voided(market, sequence))
}

/// Integer quotient rounded toward zero, as Rust's `/` on integers computes it.
pub open spec fn trunc_div(x: int, d: int) -> int {
    if x == 0 {
        0
    } else if x > 0 && d > 0 {
        x / d
    } else if x < 0 && d < 0 {
        (x * -1) / (d * -1)
    } else if x < 0 {
        ((x * -1) / d) * -1
    } else {
        (x / (d * -1)) * -1
    }
}

/// The pro-rata payout `stake * total / pool`, with the product and the
/// quotient each required to fit in an `i128`.
pub open spec fn pro_rata(stake: i128, total: i128, pool: i128) -> Result<i128, OracleError> {
    let product = stake * total;
    if product > i128::MAX || product < i128::MIN {
        Err(OracleError::PayoutOverflow)
    } else {
        let q = trunc_div(product, pool as int);
        if q > i128::MAX || q < i128::MIN {
            Err(OracleError::PayoutDivision)
        } else {
            Ok(q as i128)
        }
    }
}

/// What `claim_winnings` pays out, or why it refuses. A voided market
/// refunds the participant's total stake; a resolved one pays the
/// participant's stake on the winning outcome times the total stake, divided
/// by the winning pool.
pub open spec fn claim_result(market: Option<MarketState>, record: Option<ParticipantStake>) -> Result<i128, OracleError> {
    match market {
        None => Err(OracleError::MarketNotFound),
        Some(m) => if m.status == MarketStatus::Open {
            Err(OracleError::NotYetResolved)
        } else if record_total(record) == 0 {
            Err(OracleError::NoStake)
        } else if m.status == MarketStatus::Voided {
            Ok(record_total(record))
        } else {
            match m.winning_outcome {
                None => Err(OracleError::MissingWinningOutcome),
                Some(w) => match amount_read(m.outcome_stakes, w) {
                    Err(e) => Err(e),
                    Ok(pool) => if pool == 0 {
                        Err(OracleError::NoWinningStake)
                    } else {
                        match amount_read(record.unwrap().by_outcome, w) {
                            Err(e) => Err(e),
                            Ok(held) => if held == 0 {
                                Err(OracleError::NoWinningStakeHeld)
                            } else {
                                pro_rata(held, m.total_stake, pool)
                            },
                        }
                    },
                },
            }
        },
    }
}

/// `after` is the record `before` once claimed: total and every per-outcome
/// entry zero.
pub open spec fn cleared(before: ParticipantStake, after: ParticipantStake) -> bool {
    &&& after.total == 0
    &&& amounts(after.by_outcome) == zeros(amounts(before.by_outcome).len())
    &&& amounts_typed(after.by_outcome)
}

/// The prediction-market oracle.
pub struct VeridexOracle;

impl VeridexOracle {
    /// Initialize the configuration: `admin` becomes the sole oracle authority
    /// and the market counter starts at zero. Refused when an admin is set.
    pub fn initialize(config: &mut OracleConfig, admin: soroban_sdk::Address) -> (r: Result<(), OracleError>)
        ensures
            r is Ok <==> initialize_result(*old(config), admin) is Ok,
            r is Ok ==> *final(config) == initialize_result(*old(config), admin).unwrap(),
            r matches Err(e) ==> initialize_result(*old(config), admin) == Err::<OracleConfig, OracleError>(e)
                && *final(config) == *old(config),
    {
        if config.admin.is_some() {
            return Err(OracleError::AlreadyInitialized);
        }
        config.admin = Some(admin);
        config.next_id = Some(0);
        Ok(())
    }

    /// The current admin (oracle authority).
    pub fn admin(config: &OracleConfig) -> (r: Result<soroban_sdk::Address, OracleError>)
        ensures
            r == admin_of(*config),
    {
        Self::get_admin(config)
    }

    /// Transfer oracle authority to `new_admin`. Refused when the contract has
    /// no admin; otherwise gives back the current admin, who must authorize
    /// the transfer.
    pub fn set_admin(config: &mut OracleConfig, new_admin: soroban_sdk::Address) -> (r: Result<soroban_sdk::Address, OracleError>)
        ensures
            r == admin_of(*old(config)),
            r is Ok ==> *final(config) == set_admin_result(*old(config), new_admin).unwrap(),
            r is Err ==> set_admin_result(*old(config), new_admin) == Err::<OracleConfig, OracleError>(OracleError::NotInitialized)
                && *final(config) == *old(config),
    {
        match Self::get_admin(config) {
            Err(e) => Err(e),
            Ok(current) => {
                config.admin = Some(new_admin);
                Ok(current)
            },
        }
    }

    /// Create a market that closes at `close_time` with `outcome_count`
    /// outcomes, all pools empty, and give it the next id; `now` is the
    /// ledger timestamp. Refused without an admin, with fewer than two
    /// outcomes, or when `close_time` is not after `now`. Gives back the new
    /// market and the admin, who must authorize the creation.
    pub fn create_market(
        config: &mut OracleConfig,
        env: &soroban_sdk::Env,
        description: soroban_sdk::String,
        token: soroban_sdk::Address,
        close_time: u64,
        outcome_count: u32,
        now: u64,
    ) -> (r: Result<(MarketState, soroban_sdk::Address), OracleError>)
        ensures
            r is Err <==> create_refusal(*old(config), close_time, outcome_count, now) is Some,
            r matches Err(e) ==> Some(e) == create_refusal(*old(config), close_time, outcome_count, now)
                && *final(config) == *old(config),
            r matches Ok((m, who)) ==> is_new_market(m, next_id_of(*old(config)), description, token, close_time, outcome_count)
                && m.wf()
                && old(config).admin == Some(who),
            r is Ok ==> *final(config) == advanced(*old(config)),
    {
        let admin = match Self::get_admin(config) {
            Ok(a) => a,
            Err(e) => return Err(e),
        };
        if outcome_count < 2 {
            return Err(OracleError::TooFewOutcomes);
        }
        if close_time <= now {
            return Err(OracleError::CloseTimeNotInFuture);
        }
        let market_id = match Self::next_market_id(config) {
            Ok(id) => id,
            Err(e) => return Err(e),
        };
        let outcome_stakes = Self::zero_amounts(env, outcome_count);
        proof {
            lemma_sum_zeros(outcome_count as nat);
        }
        Ok((MarketState {
            market_id,
            description,
            token,
            close_time,
            status: MarketStatus::Open,
            outcome_count,
            winning_outcome: None,
            outcome_stakes,
            total_stake: 0,
            resolved_at: None,
        }, admin))
    }

    /// Place a stake of `amount` on `outcome`. Takes the stored market and the
    /// participant's stored record; gives back the updated market and record.
    /// `now` is the ledger timestamp; `env` makes the record of a participant
    /// who had none. The caller moves the tokens and checks the participant's
    /// authorization.
    pub fn stake(
        env: &soroban_sdk::Env,
        market: Option<MarketState>,
        record: Option<ParticipantStake>,
        outcome: u32,
        amount: i128,
        now: u64,
    ) -> (r: Result<(MarketState, ParticipantStake), OracleError>)
        ensures
            r is Err <==> stake_refusal(market, record, outcome, amount, now) is Some,
            r matches Err(e) ==> Some(e) == stake_refusal(market, record, outcome, amount, now),
            r matches Ok((after, rec)) ==> market is Some
                && staked(market.unwrap(), after, outcome, amount)
                && staked_record(record, rec, market.unwrap().outcome_count, outcome, amount)
                && (market.unwrap().wf() ==> after.wf())
                && ((record is Some ==> record_wf(record.unwrap(), market.unwrap().outcome_count))
                    ==> record_wf(rec, market.unwrap().outcome_count)),
    {
        if amount <= 0 {
            return Err(OracleError::AmountNotPositive);
        }
        let mut state = match Self::get_market(market) {
            Ok(m) => m,
            Err(e) => return Err(e),
        };
        if state.status != MarketStatus::Open {
            return Err(OracleError::MarketNotOpen);
        }
        if now > state.close_time {
            return Err(OracleError::StakingClosed);
        }
        if outcome >= state.outcome_count {
            return Err(OracleError::InvalidOutcome);
        }
        let ghost before = state;
        let current = match Self::read_amount(&state.outcome_stakes, outcome) {
            Ok(v) => v,
            Err(e) => return Err(e),
        };
        let pool = match current.checked_add(amount) {
            Some(v) => v,
            None => return Err(OracleError::ArithmeticOverflow),
        };
        if outcome >= amounts_len(&state.outcome_stakes) {
            return Err(OracleError::PoolOutOfBounds);
        }
        let total = match state.total_stake.checked_add(amount) {
            Some(v) => v,
            None => return Err(OracleError::ArithmeticOverflow),
        };
        let rec = match record {
            Some(r) => {
                let mut r = r;
                let held = match Self::read_amount(&r.by_outcome, outcome) {
                    Ok(v) => v,
                    Err(e) => return Err(e),
                };
                let new_total = match r.total.checked_add(amount) {
                    Some(v) => v,
                    None => return Err(OracleError::ArithmeticOverflow),
                };
                let new_held = match held.checked_add(amount) {
                    Some(v) => v,
                    None => return Err(OracleError::ArithmeticOverflow),
                };
                if outcome >= amounts_len(&r.by_outcome) {
                    return Err(OracleError::PoolOutOfBounds);
                }
                let ghost r0 = r;
                amounts_set(&mut r.by_outcome, outcome, new_held);
                r.total = new_total;
                proof {
                    if record_wf(r0, before.outcome_count) {
                        lemma_sum_update(amounts(r0.by_outcome), outcome as int, new_held);
                    }
                }
                r
            },
            None => {
                let mut by_outcome = Self::zero_amounts(env, state.outcome_count);
                amounts_set(&mut by_outcome, outcome, amount);
                proof {
                    lemma_sum_zeros(state.outcome_count as nat);
                    lemma_sum_update(zeros(state.outcome_count as nat), outcome as int, amount);
                }
                ParticipantStake { total: amount, by_outcome }
            },
        };
        amounts_set(&mut state.outcome_stakes, outcome, pool);
        state.total_stake = total;
        proof {
            if before.wf() {
                lemma_sum_update(before.pools(), outcome as int, pool);
            }
        }
        Ok((state, rec))
    }

    /// Resolve an open market by declaring the winning `outcome`; `sequence`
    /// is the ledger sequence, kept as the resolution time. Gives back the
    /// resolved market and the admin, who must authorize the resolution.
    pub fn resolve_market(config: &OracleConfig, market: Option<MarketState>, outcome: u32, sequence: u32)
        -> (r: Result<(MarketState, soroban_sdk::Address), OracleError>)
        ensures
            r == resolve_result(*config, market, outcome, sequence),
            r matches Ok((after, _)) ==> (market.unwrap().wf() ==> after.wf()),
    {
        let admin = match Self::get_admin(config) {
            Ok(a) => a,
            Err(e) => return Err(e),
        };
        let mut state = match Self::get_market(market) {
            Ok(m) => m,
            Err(e) => return Err(e),
        };
        if state.status != MarketStatus::Open {
            return Err(OracleError::AlreadySettled);
        }
        if outcome >= state.outcome_count {
            return Err(OracleError::InvalidOutcome);
        }
        state.status = MarketStatus::Resolved;
        state.winning_outcome = Some(outcome);
        state.resolved_at = Some(sequence);
        Ok((state, admin))
    }

    /// Void an open market so that every participant can reclaim the stake;
    /// `sequence` is the ledger sequence. Gives back the voided market and the
    /// admin, who must authorize the voiding.
    pub fn void_market(config: &OracleConfig, market: Option<MarketState>, sequence: u32)
        -> (r: Result<(MarketState, soroban_sdk::Address), OracleError>)
        ensures
            r == void_result(*config, market, sequence),
            r matches Ok((after, _)) ==> (market.unwrap().wf() ==> after.wf()),
    {
        let admin = match Self::get_admin(config) {
            Ok(a) => a,
            Err(e) => return Err(e),
        };
        let mut state = match Self::get_market(market) {
            Ok(m) => m,
            Err(e) => return Err(e),
        };
        if state.status != MarketStatus::Open {
            return Err(OracleError::AlreadySettled);
        }
        state.status = MarketStatus::Voided;
        state.resolved_at = Some(sequence);
        Ok((state, admin))
    }

    /// Claim for a participant in a settled market: the total stake back in a
    /// voided market; in a resolved one the pro-rata share
    /// `stake_on_winner * total_stake / winning_pool`. Gives back the payout
    /// and the participant's record cleared to zero, so that the claim cannot
    /// be repeated; the caller pays out and checks the participant's
    /// authorization.
    pub fn claim_winnings(market: &Option<MarketState>, record: Option<ParticipantStake>)
        -> (r: Result<(i128, ParticipantStake), OracleError>)
        ensures
            r is Ok <==> claim_result(*market, record) is Ok,
            r matches Err(e) ==> claim_result(*market, record) == Err::<i128, OracleError>(e),
            r matches Ok((payout, after)) ==> claim_result(*market, record) == Ok::<i128, OracleError>(payout)
                && record is Some && cleared(record.unwrap(), after),
    {
        let state = match market {
            Some(m) => m,
            None => return Err(OracleError::MarketNotFound),
        };
        if state.status == MarketStatus::Open {
            return Err(OracleError::NotYetResolved);
        }
        let stake = Self::get_stake(&record);
        if stake == 0 {
            return Err(OracleError::NoStake);
        }
        let mut rec = match record {
            Some(r) => r,
            None => return Err(OracleError::NoStake),
        };
        let payout = match state.status {
            MarketStatus::Voided => stake,
            MarketStatus::Resolved => {
                let winning = match state.winning_outcome {
                    Some(w) => w,
                    None => return Err(OracleError::MissingWinningOutcome),
                };
                let pool = match Self::read_amount(&state.outcome_stakes, winning) {
                    Ok(v) => v,
                    Err(e) => return Err(e),
                };
                if pool == 0 {
                    return Err(OracleError::NoWinningStake);
                }
                let held = match Self::read_amount(&rec.by_outcome, winning) {
                    Ok(v) => v,
                    Err(e) => return Err(e),
                };
                if held == 0 {
                    return Err(OracleError::NoWinningStakeHeld);
                }
                let product = match held.checked_mul(state.total_stake) {
                    Some(p) => p,
                    None => return Err(OracleError::PayoutOverflow),
                };
                match product.checked_div(pool) {
                    Some(q) => q,
                    None => return Err(OracleError::PayoutDivision),
                }
            },
            MarketStatus::Open => return Err(OracleError::NotYetResolved),
        };
        rec.total = 0;
        Self::clear_amounts(&mut rec.by_outcome);
        Ok((payout, rec))
    }

    /// The stored market, or `MarketNotFound`.
    pub fn get_market_state(market: Option<MarketState>) -> (r: Result<MarketState, OracleError>)
        ensures
            r == found(market),
    {
        Self::get_market(market)
    }

    /// A participant's total stake from its stored record; none reads as zero.
    pub fn get_stake(record: &Option<ParticipantStake>) -> (r: i128)
        ensures
            r == record_total(*record),
    {
        match record {
            Some(r) => r.total,
            None => 0,
        }
    }

    /// The id that the next created market will get.
    pub fn next_id(config: &OracleConfig) -> (r: u64)
        ensures
            r == next_id_of(*config),
    {
        match config.next_id {
            Some(n) => n,
            None => 0,
        }
    }

    fn get_admin(config: &OracleConfig) -> (r: Result<soroban_sdk::Address, OracleError>)
        ensures
            r == admin_of(*config),
    {
        match &config.admin {
            Some(a) => Ok(a.clone()),
            None => Err(OracleError::NotInitialized),
        }
    }

    fn get_market(stored: Option<MarketState>) -> (r: Result<MarketState, OracleError>)
        ensures
            r == found(stored),
    {
        match stored {
            Some(m) => Ok(m),
            None => Err(OracleError::MarketNotFound),
        }
    }

    /// Hand out the next market id and advance the counter.
    fn next_market_id(config: &mut OracleConfig) -> (r: Result<u64, OracleError>)
        ensures
            r is Ok <==> next_id_of(*old(config)) < u64::MAX,
            r is Err ==> r == Err::<u64, OracleError>(OracleError::ArithmeticOverflow)
                && *final(config) == *old(config),
            r matches Ok(id) ==> id == next_id_of(*old(config)) && *final(config) == advanced(*old(config)),
    {
        let id = Self::next_id(config);
        if id == u64::MAX {
            return Err(OracleError::ArithmeticOverflow);
        }
        config.next_id = Some(id + 1);
        Ok(id)
    }

    /// `n` zero amounts in a new host vector.
    fn zero_amounts(env: &soroban_sdk::Env, n: u32) -> (r: soroban_sdk::Vec<i128>)
        ensures
            amounts(r) == zeros(n as nat),
            amounts_typed(r),
    {
        let mut v = amounts_new(env);
        let mut i: u32 = 0;
        while i < n
            invariant
                i <= n,
                amounts(v) == zeros(i as nat),
                amounts_typed(v),
            decreases n - i,
        {
            amounts_push_back(&mut v, 0i128);
            i = i + 1;
            assert(amounts(v) =~= zeros(i as nat));
        }
        v
    }

    /// Set every amount of the vector to zero.
    fn clear_amounts(v: &mut soroban_sdk::Vec<i128>)
        ensures
            amounts(*final(v)) == zeros(amounts(*old(v)).len()),
            amounts_typed(*final(v)),
    {
        let n = amounts_len(v);
        let mut i: u32 = 0;
        while i < n
            invariant
                i <= n,
                n == amounts(*old(v)).len(),
                amounts(*v).len() == n,
                forall|j: int| 0 <= j < i ==> #[trigger] amounts(*v)[j] == 0i128,
                forall|j: int| 0 <= j < i ==> #[trigger] holds_amount(*v, j),
            decreases n - i,
        {
            let ghost prev = *v;
            amounts_set(v, i, 0i128);
            assert forall|j: int| 0 <= j < i + 1 implies #[trigger] holds_amount(*v, j) by {
                if j < i {
                    assert(holds_amount(prev, j));
                }
            }
            i = i + 1;
        }
        assert(amounts(*v) =~= zeros(n as nat));
    }

    /// Position `i` of an amounts vector: zero past the end, `NotAnAmount`
    /// where the item is not an `i128`.
    fn read_amount(v: &soroban_sdk::Vec<i128>, i: u32) -> (r: Result<i128, OracleError>)
        ensures
            r == amount_read(*v, i),
    {
        match amounts_try_get(v, i) {
            Ok(Some(x)) => Ok(x),
            Ok(None) => Ok(0i128),
            Err(_) => Err(OracleError::NotAnAmount),
        }
    }
}

} // verus!
