//! Properties of the oracle that span several operations or calls.

use vstd::prelude::*;
use crate::error::OracleError;
use crate::sdk::{amounts, holds_amount};
use crate::state::{
    MarketState, MarketStatus, OracleConfig, ParticipantStake, record_wf, record_amounts, record_total,
    seq_sum, lemma_sum_bounds_each, lemma_sum_nonneg, lemma_sum_update,
};
use crate::oracle::{
    admin_of, next_id_of, initialize_result, set_admin_result, advanced, create_refusal, resolved, voided,
    resolve_result, void_result, stake_refusal, staked, staked_record, claim_result, cleared, found,
    is_new_market,
};

verus! {

/// Initialization happens once: on a fresh configuration it makes `admin` the
/// admin and starts the market counter at zero, and a second initialization,
/// with any address, is refused with `AlreadyInitialized`.
pub proof fn law_initialize_once(config: OracleConfig, admin: soroban_sdk::Address, other: soroban_sdk::Address)
    requires
        config.admin is None,
    ensures
        initialize_result(config, admin) is Ok,
        admin_of(initialize_result(config, admin).unwrap()) == Ok::<soroban_sdk::Address, OracleError>(admin),
        next_id_of(initialize_result(config, admin).unwrap()) == 0,
        initialize_result(initialize_result(config, admin).unwrap(), other)
            == Err::<OracleConfig, OracleError>(OracleError::AlreadyInitialized),
{
}

/// Reading the admin after transferring authority gives the new admin, and
/// the transfer leaves the market counter as it was.
pub proof fn law_set_admin_reads_back(config: OracleConfig, new_admin: soroban_sdk::Address)
    requires
        config.admin is Some,
    ensures
        set_admin_result(config, new_admin) is Ok,
        admin_of(set_admin_result(config, new_admin).unwrap()) == Ok::<soroban_sdk::Address, OracleError>(new_admin),
        next_id_of(set_admin_result(config, new_admin).unwrap()) == next_id_of(config),
{
}

/// Market ids are handed out consecutively: a successful creation gets the
/// counter's id (`create_market`'s contract) and leaves the counter one
/// higher with the same admin, so that the same request succeeds again, with
/// the next id, unless the counter has reached its end.
pub proof fn law_market_ids_consecutive(config: OracleConfig, close_time: u64, outcome_count: u32, now: u64)
    requires
        create_refusal(config, close_time, outcome_count, now) is None,
    ensures
        next_id_of(advanced(config)) == next_id_of(config) + 1,
        admin_of(advanced(config)) == admin_of(config),
        next_id_of(advanced(config)) < u64::MAX ==> create_refusal(advanced(config), close_time, outcome_count, now) is None,
{
}

/// Only the admin settles a market: a resolution or voiding that goes
/// through names the configured admin as the address that must authorize it,
/// and without an admin both are refused with `NotInitialized`.
pub proof fn law_only_admin_settles(
    config: OracleConfig,
    market: Option<MarketState>,
    outcome: u32,
    sequence: u32,
)
    ensures
        resolve_result(config, market, outcome, sequence) matches Ok((_, who)) ==> config.admin == Some(who),
        void_result(config, market, sequence) matches Ok((_, who)) ==> config.admin == Some(who),
        config.admin is None ==> resolve_result(config, market, outcome, sequence)
            == Err::<(MarketState, soroban_sdk::Address), OracleError>(OracleError::NotInitialized),
        config.admin is None ==> void_result(config, market, sequence)
            == Err::<(MarketState, soroban_sdk::Address), OracleError>(OracleError::NotInitialized),
{
}

/// A market is settled once: the market that resolving or voiding gives back
/// refuses any further resolution or voiding with `AlreadySettled`, and any
/// further stake with `MarketNotOpen`.
pub proof fn law_settlement_is_final(
    market: Option<MarketState>,
    settled: MarketState,
    outcome: u32,
    sequence: u32,
    outcome2: u32,
    sequence2: u32,
    record: Option<ParticipantStake>,
    amount: i128,
    now: u64,
)
    requires
        resolved(market, outcome, sequence) == Ok::<MarketState, OracleError>(settled)
            || voided(market, sequence) == Ok::<MarketState, OracleError>(settled),
        amount > 0,
    ensures
        resolved(Some(settled), outcome2, sequence2) == Err::<MarketState, OracleError>(OracleError::AlreadySettled),
        voided(Some(settled), sequence2) == Err::<MarketState, OracleError>(OracleError::AlreadySettled),
        stake_refusal(Some(settled), record, outcome2, amount, now) == Some(OracleError::MarketNotOpen),
{
}

/// A claim cannot be repeated: the record that a successful claim leaves
/// behind is refused with `NoStake` on the same market.
pub proof fn law_claim_once(market: Option<MarketState>, record: Option<ParticipantStake>, after: ParticipantStake)
    requires
        claim_result(market, record) is Ok,
        record is Some,
        cleared(record.unwrap(), after),
    ensures
        claim_result(market, Some(after)) == Err::<i128, OracleError>(OracleError::NoStake),
{
}

/// In a voided market a participant gets exactly the total stake back.
pub proof fn law_void_refunds_stake(market: MarketState, record: ParticipantStake)
    requires
        market.status == MarketStatus::Voided,
        record.total != 0,
    ensures
        claim_result(Some(market), Some(record)) == Ok::<i128, OracleError>(record.total),
{
}

/// In a well-formed resolved market whose winning pool is not empty, a
/// participant with stakes only on losing outcomes is refused with
/// `NoWinningStakeHeld`.
pub proof fn law_losing_stake_not_paid(market: MarketState, record: ParticipantStake)
    requires
        market.wf(),
        market.status == MarketStatus::Resolved,
        market.pools()[market.winning_outcome.unwrap() as int] != 0,
        record_wf(record, market.outcome_count),
        record.total != 0,
        amounts(record.by_outcome)[market.winning_outcome.unwrap() as int] == 0,
    ensures
        claim_result(Some(market), Some(record)) == Err::<i128, OracleError>(OracleError::NoWinningStakeHeld),
{
}

/// Every pool of a well-formed market lies between zero and the total stake.
pub proof fn law_pools_within_total(market: MarketState, outcome: int)
    requires
        market.wf(),
        0 <= outcome < market.outcome_count,
    ensures
        0 <= market.pools()[outcome] <= market.total_stake,
{
    lemma_sum_bounds_each(market.pools(), outcome);
}

/// A participant who holds the whole winning pool of a well-formed resolved
/// market takes the whole total stake.
pub proof fn law_sole_winner_takes_total(market: MarketState, record: ParticipantStake)
    requires
        market.wf(),
        market.status == MarketStatus::Resolved,
        record_wf(record, market.outcome_count),
        amounts(record.by_outcome)[market.winning_outcome.unwrap() as int] == market.pools()[market.winning_outcome.unwrap() as int],
        market.pools()[market.winning_outcome.unwrap() as int] > 0,
        market.pools()[market.winning_outcome.unwrap() as int] * market.total_stake <= i128::MAX,
    ensures
        claim_result(Some(market), Some(record)) == Ok::<i128, OracleError>(market.total_stake),
{
    let w = market.winning_outcome.unwrap() as int;
    lemma_sum_nonneg(market.pools());
    lemma_sum_bounds_each(amounts(record.by_outcome), w);
    let t = market.total_stake as int;
    let s = market.pools()[w] as int;
    assert((s * t) / s == t) by (nonlinear_arith)
        requires
            s > 0,
            t >= 0,
    ;
    assert(s * t >= 0) by (nonlinear_arith)
        requires
            s > 0,
            t >= 0,
    ;
}

/// Two stakes by one participant on one outcome leave the market and the
/// record as one stake of their sum does.
pub proof fn law_stakes_combine(
    market: MarketState,
    m1: MarketState,
    m2: MarketState,
    m3: MarketState,
    record: Option<ParticipantStake>,
    r1: ParticipantStake,
    r2: ParticipantStake,
    r3: ParticipantStake,
    outcome: u32,
    a: i128,
    b: i128,
)
    requires
        outcome < market.pools().len(),
        outcome < record_amounts(record, market.outcome_count).len(),
        a > 0,
        b > 0,
        a + b <= i128::MAX,
        market.pools()[outcome as int] + a + b <= i128::MAX,
        record_amounts(record, market.outcome_count)[outcome as int] + a + b <= i128::MAX,
        staked(market, m1, outcome, a),
        staked(m1, m2, outcome, b),
        staked(market, m3, outcome, (a + b) as i128),
        staked_record(record, r1, market.outcome_count, outcome, a),
        staked_record(Some(r1), r2, market.outcome_count, outcome, b),
        staked_record(record, r3, market.outcome_count, outcome, (a + b) as i128),
    ensures
        m2.pools() == m3.pools(),
        m2.total_stake == m3.total_stake,
        amounts(r2.by_outcome) == amounts(r3.by_outcome),
        r2.total == r3.total,
{
    let o = outcome as int;
    assert(m1.pools()[o] == market.pools()[o] + a);
    assert(m2.pools() =~= m3.pools());
    let held = record_amounts(record, market.outcome_count);
    assert(amounts(r1.by_outcome)[o] == held[o] + a);
    assert(record_amounts(Some(r1), market.outcome_count) == amounts(r1.by_outcome));
    assert(amounts(r2.by_outcome) =~= amounts(r3.by_outcome));
}

/// Sum over participants of the amount each holds on outcome `o`.
pub open spec fn column(rows: Seq<Seq<i128>>, o: int) -> int
    decreases rows.len(),
{
    if rows.len() == 0 {
        0
    } else {
        column(rows.drop_last(), o) + rows.last()[o]
    }
}

proof fn lemma_column_update(rows: Seq<Seq<i128>>, j: int, row: Seq<i128>, o: int)
    requires
        0 <= j < rows.len(),
    ensures
        column(rows.update(j, row), o) == column(rows, o) - rows[j][o] + row[o],
    decreases rows.len(),
{
    let u = rows.update(j, row);
    if j == rows.len() - 1 {
        assert(u.drop_last() =~= rows.drop_last());
    } else {
        lemma_column_update(rows.drop_last(), j, row, o);
        assert(u.drop_last() =~= rows.drop_last().update(j, row));
    }
}

/// The market's books match the participants' records: when every pool is
/// the sum of what the participants (`rows`, one per participant, a
/// participant without a record holding zero on each outcome) hold on that
/// outcome and the total is the sum of their totals, a successful stake by
/// participant `j` keeps both equalities, with `j`'s row and total replaced by
/// its new record.
pub proof fn law_stake_keeps_books(
    before: MarketState,
    after: MarketState,
    record: Option<ParticipantStake>,
    rec: ParticipantStake,
    outcome: u32,
    amount: i128,
    now: u64,
    rows: Seq<Seq<i128>>,
    totals: Seq<i128>,
    j: int,
)
    requires
        before.wf(),
        record is Some ==> record_wf(record.unwrap(), before.outcome_count),
        stake_refusal(Some(before), record, outcome, amount, now) is None,
        staked(before, after, outcome, amount),
        staked_record(record, rec, before.outcome_count, outcome, amount),
        0 <= j < rows.len(),
        rows.len() == totals.len(),
        rows[j] == record_amounts(record, before.outcome_count),
        totals[j] == record_total(record),
        forall|o: int| 0 <= o < before.outcome_count ==> before.pools()[o] == #[trigger] column(rows, o),
        before.total_stake == seq_sum(totals),
    ensures
        forall|o: int| 0 <= o < before.outcome_count
            ==> after.pools()[o] == #[trigger] column(rows.update(j, amounts(rec.by_outcome)), o),
        after.total_stake == seq_sum(totals.update(j, rec.total)),
{
    assert forall|o: int| 0 <= o < before.outcome_count implies after.pools()[o]
        == #[trigger] column(rows.update(j, amounts(rec.by_outcome)), o) by {
        lemma_column_update(rows, j, amounts(rec.by_outcome), o);
        assert(before.pools()[o] == column(rows, o));
        let held = record_amounts(record, before.outcome_count);
        if o == outcome as int {
            assert(amounts(rec.by_outcome)[o] == held[o] + amount);
            assert(after.pools()[o] == before.pools()[o] + amount);
        } else {
            assert(amounts(rec.by_outcome)[o] == held[o]);
            assert(after.pools()[o] == before.pools()[o]);
        }
    }
    lemma_sum_update(totals, j, rec.total);
}

/// What a claim pays a participant in `market`: the payout, or nothing when
/// the claim is refused.
pub open spec fn claimed(market: MarketState, record: ParticipantStake) -> int {
    match claim_result(Some(market), Some(record)) {
        Ok(p) => p as int,
        Err(_) => 0,
    }
}

/// What claims pay all of `records` together.
pub open spec fn total_claimed(market: MarketState, records: Seq<ParticipantStake>) -> int
    decreases records.len(),
{
    if records.len() == 0 {
        0
    } else {
        total_claimed(market, records.drop_last()) + claimed(market, records.last())
    }
}

/// The per-outcome amounts of `records`, one row per participant.
pub open spec fn rows_of(records: Seq<ParticipantStake>) -> Seq<Seq<i128>> {
    Seq::new(records.len(), |k: int| amounts(records[k].by_outcome))
}

proof fn lemma_claim_scaled(market: MarketState, record: ParticipantStake)
    requires
        market.wf(),
        market.status == MarketStatus::Resolved,
        record_wf(record, market.outcome_count),
    ensures
        claimed(market, record) >= 0,
        claimed(market, record) * market.pools()[market.winning_outcome.unwrap() as int]
            <= amounts(record.by_outcome)[market.winning_outcome.unwrap() as int] * market.total_stake,
        market.pools()[market.winning_outcome.unwrap() as int] == 0 ==> claimed(market, record) == 0,
{
    let w = market.winning_outcome.unwrap() as int;
    lemma_sum_nonneg(market.pools());
    let t = market.total_stake as int;
    let s = amounts(record.by_outcome)[w] as int;
    let p = market.pools()[w] as int;
    assert(s >= 0);
    assert(s * t >= 0) by (nonlinear_arith)
        requires
            s >= 0,
            t >= 0,
    ;
    if record.total != 0 && p != 0 && s != 0 {
        assert(0 <= (s * t) / p && ((s * t) / p) * p <= s * t) by (nonlinear_arith)
            requires
                s * t >= 0,
                p > 0,
        ;
        assert((s * t) / p <= s * t) by (nonlinear_arith)
            requires
                s * t >= 0,
                p > 0,
        ;
    }
}

proof fn lemma_total_claimed_scaled(market: MarketState, records: Seq<ParticipantStake>)
    requires
        market.wf(),
        market.status == MarketStatus::Resolved,
        forall|k: int| 0 <= k < records.len() ==> record_wf(#[trigger] records[k], market.outcome_count),
    ensures
        total_claimed(market, records) >= 0,
        total_claimed(market, records) * market.pools()[market.winning_outcome.unwrap() as int]
            <= column(rows_of(records), market.winning_outcome.unwrap() as int) * market.total_stake,
        market.pools()[market.winning_outcome.unwrap() as int] == 0 ==> total_claimed(market, records) == 0,
    decreases records.len(),
{
    if records.len() > 0 {
        let w = market.winning_outcome.unwrap() as int;
        let init = records.drop_last();
        let last = records.last();
        lemma_total_claimed_scaled(market, init);
        assert(record_wf(records[records.len() - 1], market.outcome_count));
        lemma_claim_scaled(market, last);
        assert(rows_of(records).drop_last() =~= rows_of(init));
        let a = total_claimed(market, init);
        let c = claimed(market, last);
        let p = market.pools()[w] as int;
        let t = market.total_stake as int;
        let h = column(rows_of(init), w);
        let s = amounts(last.by_outcome)[w] as int;
        assert((a + c) * p <= (h + s) * t) by (nonlinear_arith)
            requires
                a * p <= h * t,
                c * p <= s * t,
        ;
    }
}

/// Claims never pay out more than was staked: in a well-formed resolved
/// market whose winning pool is what the participants' records hold on the
/// winning outcome, all their claims together pay at most the total stake
/// (each claim rounds its share down; a refused claim pays nothing).
pub proof fn law_payouts_within_total(market: MarketState, records: Seq<ParticipantStake>)
    requires
        market.wf(),
        market.status == MarketStatus::Resolved,
        forall|k: int| 0 <= k < records.len() ==> record_wf(#[trigger] records[k], market.outcome_count),
        column(rows_of(records), market.winning_outcome.unwrap() as int)
            == market.pools()[market.winning_outcome.unwrap() as int],
    ensures
        total_claimed(market, records) <= market.total_stake,
{
    let w = market.winning_outcome.unwrap() as int;
    lemma_total_claimed_scaled(market, records);
    lemma_sum_nonneg(market.pools());
    let p = market.pools()[w] as int;
    let t = market.total_stake as int;
    let c = total_claimed(market, records);
    if p != 0 {
        assert(p >= 0);
        assert(c <= t) by (nonlinear_arith)
            requires
                c * p <= p * t,
                p > 0,
        ;
    }
}

/// The participants' totals, one per record.
pub open spec fn totals_of(records: Seq<ParticipantStake>) -> Seq<i128> {
    Seq::new(records.len(), |k: int| records[k].total)
}

proof fn lemma_refunds_are_totals(market: MarketState, records: Seq<ParticipantStake>)
    requires
        market.status == MarketStatus::Voided,
    ensures
        total_claimed(market, records) == seq_sum(totals_of(records)),
    decreases records.len(),
{
    if records.len() > 0 {
        lemma_refunds_are_totals(market, records.drop_last());
        assert(totals_of(records).drop_last() =~= totals_of(records.drop_last()));
    }
}

/// In a voided market the refunds give back exactly what was staked: when the
/// total stake is the sum of the participants' totals, all their claims
/// together pay exactly the total stake.
pub proof fn law_refunds_return_total(market: MarketState, records: Seq<ParticipantStake>)
    requires
        market.status == MarketStatus::Voided,
        seq_sum(totals_of(records)) == market.total_stake,
    ensures
        total_claimed(market, records) == market.total_stake,
{
    lemma_refunds_are_totals(market, records);
}

/// The stored market under `id`, if any.
pub open spec fn lookup(markets: Map<u64, MarketState>, id: u64) -> Option<MarketState> {
    if markets.dom().contains(id) {
        Some(markets[id])
    } else {
        None
    }
}

/// The stored markets are exactly the ids below the counter.
pub open spec fn ids_below_counter(markets: Map<u64, MarketState>, config: OracleConfig) -> bool {
    forall|k: u64| #[trigger] markets.dom().contains(k) <==> k < next_id_of(config)
}

/// A fresh contract has no markets and a counter at zero, so the stored
/// markets are exactly the ids below the counter.
pub proof fn law_no_markets_after_initialize(config: OracleConfig, admin: soroban_sdk::Address)
    requires
        config.admin is None,
    ensures
        ids_below_counter(Map::<u64, MarketState>::empty(), initialize_result(config, admin).unwrap()),
{
}

/// Market ids name exactly the created markets: when the stored markets are
/// the ids below the counter, a lookup finds a market exactly for an id below
/// the counter; a successful creation gets an id under which nothing is
/// stored (so it overwrites no market), and storing the new market under it
/// keeps the stored markets exactly the ids below the advanced counter.
pub proof fn law_ids_name_created_markets(
    markets: Map<u64, MarketState>,
    config: OracleConfig,
    id: u64,
    market: MarketState,
    close_time: u64,
    outcome_count: u32,
    now: u64,
)
    requires
        ids_below_counter(markets, config),
    ensures
        found(lookup(markets, id)) is Ok <==> id < next_id_of(config),
        create_refusal(config, close_time, outcome_count, now) is None ==> {
            &&& !markets.dom().contains(next_id_of(config))
            &&& ids_below_counter(markets.insert(next_id_of(config), market), advanced(config))
        },
{
    if create_refusal(config, close_time, outcome_count, now) is None {
        let n = next_id_of(config);
        assert(!markets.dom().contains(n));
        assert forall|k: u64| #[trigger] markets.insert(n, market).dom().contains(k) <==> k < next_id_of(advanced(config)) by {
            if k < n {
                assert(markets.dom().contains(k));
            }
        }
    }
}

/// Status moves only forward: resolving or voiding succeeds only from `Open`,
/// resolving sets the winning outcome and the resolution time, voiding sets
/// the resolution time and keeps the winning outcome, and a market that is
/// no longer open can be neither resolved nor voided. (A stake keeps status,
/// winning outcome and resolution time, by `staked`; a claim does not change
/// the market.)
pub proof fn law_status_transitions(market: MarketState, outcome: u32, sequence: u32)
    ensures
        resolved(Some(market), outcome, sequence) matches Ok(m) ==> market.status == MarketStatus::Open
            && m.status == MarketStatus::Resolved && m.winning_outcome == Some(outcome)
            && m.resolved_at == Some(sequence),
        voided(Some(market), sequence) matches Ok(m) ==> market.status == MarketStatus::Open
            && m.status == MarketStatus::Voided && m.winning_outcome == market.winning_outcome
            && m.resolved_at == Some(sequence),
        market.status != MarketStatus::Open ==> resolved(Some(market), outcome, sequence) is Err
            && voided(Some(market), sequence) is Err,
{
}

/// In every market the operations produce (they create and keep `wf`), a
/// winning outcome is recorded exactly when the market is resolved, and a
/// resolution time exactly when it is no longer open.
pub proof fn law_settlement_fields(market: MarketState)
    requires
        market.wf(),
    ensures
        market.winning_outcome is Some <==> market.status == MarketStatus::Resolved,
        market.resolved_at is Some <==> market.status != MarketStatus::Open,
{
}

/// A claim in a resolved market pays the pro-rata share: for a participant
/// holding `h > 0` on the winning outcome, whose winning pool `p` is positive,
/// the payout is `h * total_stake / p` rounded down whenever that product fits
/// in an `i128`, and the claim is refused with `PayoutOverflow` exactly when
/// it does not.
pub proof fn law_claim_pays_pro_rata(market: MarketState, record: ParticipantStake)
    requires
        market.status == MarketStatus::Resolved,
        market.winning_outcome is Some,
        market.winning_outcome.unwrap() < market.pools().len(),
        holds_amount(market.outcome_stakes, market.winning_outcome.unwrap() as int),
        market.pools()[market.winning_outcome.unwrap() as int] > 0,
        market.total_stake >= 0,
        record.total != 0,
        market.winning_outcome.unwrap() < amounts(record.by_outcome).len(),
        holds_amount(record.by_outcome, market.winning_outcome.unwrap() as int),
        amounts(record.by_outcome)[market.winning_outcome.unwrap() as int] > 0,
    ensures
        ({
            let w = market.winning_outcome.unwrap() as int;
            let h = amounts(record.by_outcome)[w] as int;
            let p = market.pools()[w] as int;
            let t = market.total_stake as int;
            &&& h * t <= i128::MAX ==> claim_result(Some(market), Some(record))
                == Ok::<i128, OracleError>(((h * t) / p) as i128)
            &&& h * t > i128::MAX ==> claim_result(Some(market), Some(record))
                == Err::<i128, OracleError>(OracleError::PayoutOverflow)
        }),
{
    let w = market.winning_outcome.unwrap() as int;
    let h = amounts(record.by_outcome)[w] as int;
    let p = market.pools()[w] as int;
    let t = market.total_stake as int;
    assert(h * t >= 0) by (nonlinear_arith)
        requires
            h > 0,
            t >= 0,
    ;
    if h * t <= i128::MAX {
        assert(0 <= (h * t) / p <= h * t) by (nonlinear_arith)
            requires
                h * t >= 0,
                p > 0,
        ;
    }
}

/// A stake goes through whenever the contract's conditions hold: a positive
/// amount on an outcome of an open market before its close time, with the
/// pool and the participant's entry for that outcome present and holding an
/// `i128`, and the new pool, market total, participant total and participant
/// amount on the outcome all within `i128`.
pub proof fn law_stake_succeeds(
    market: MarketState,
    record: Option<ParticipantStake>,
    outcome: u32,
    amount: i128,
    now: u64,
)
    requires
        amount > 0,
        market.status == MarketStatus::Open,
        now <= market.close_time,
        outcome < market.outcome_count,
        outcome < market.pools().len(),
        holds_amount(market.outcome_stakes, outcome as int),
        market.pools()[outcome as int] + amount <= i128::MAX,
        market.total_stake + amount <= i128::MAX,
        record matches Some(r) ==> {
            &&& outcome < amounts(r.by_outcome).len()
            &&& holds_amount(r.by_outcome, outcome as int)
            &&& r.total + amount <= i128::MAX
            &&& amounts(r.by_outcome)[outcome as int] + amount <= i128::MAX
        },
    ensures
        stake_refusal(Some(market), record, outcome, amount, now) is None,
{
}

/// Creating a market goes through whenever an admin is set, the market has
/// at least two outcomes, it closes after the current ledger time and the
/// counter has room for another id.
pub proof fn law_create_succeeds(config: OracleConfig, close_time: u64, outcome_count: u32, now: u64)
    requires
        config.admin is Some,
        outcome_count >= 2,
        close_time > now,
        next_id_of(config) < u64::MAX,
    ensures
        create_refusal(config, close_time, outcome_count, now) is None,
{
}

/// Resolving goes through whenever an admin is set, the market is open and
/// the outcome is one of its outcomes: the market becomes resolved with that
/// winning outcome and the resolution time, its stakes untouched, and the
/// admin is the one to authorize.
pub proof fn law_resolve_succeeds(config: OracleConfig, market: MarketState, outcome: u32, sequence: u32)
    requires
        config.admin is Some,
        market.status == MarketStatus::Open,
        outcome < market.outcome_count,
    ensures
        resolve_result(config, Some(market), outcome, sequence) matches Ok((m, who)) && {
            &&& who == config.admin.unwrap()
            &&& m.status == MarketStatus::Resolved
            &&& m.winning_outcome == Some(outcome)
            &&& m.resolved_at == Some(sequence)
            &&& m.pools() == market.pools()
            &&& m.total_stake == market.total_stake
            &&& m.market_id == market.market_id
            &&& m.outcome_count == market.outcome_count
            &&& m.close_time == market.close_time
        },
{
}

/// Voiding goes through whenever an admin is set and the market is open: the
/// market becomes voided with the resolution time, its stakes untouched, and
/// the admin is the one to authorize.
pub proof fn law_void_succeeds(config: OracleConfig, market: MarketState, sequence: u32)
    requires
        config.admin is Some,
        market.status == MarketStatus::Open,
    ensures
        void_result(config, Some(market), sequence) matches Ok((m, who)) && {
            &&& who == config.admin.unwrap()
            &&& m.status == MarketStatus::Voided
            &&& m.resolved_at == Some(sequence)
            &&& m.winning_outcome == market.winning_outcome
            &&& m.pools() == market.pools()
            &&& m.total_stake == market.total_stake
            &&& m.market_id == market.market_id
            &&& m.outcome_count == market.outcome_count
            &&& m.close_time == market.close_time
        },
{
}

/// A new market is open, unresolved, with one empty pool per outcome and no
/// stake, under the counter's id and with the given parameters.
pub proof fn law_new_market_is_empty(
    m: MarketState,
    id: u64,
    description: soroban_sdk::String,
    token: soroban_sdk::Address,
    close_time: u64,
    outcome_count: u32,
)
    requires
        is_new_market(m, id, description, token, close_time, outcome_count),
    ensures
        m.market_id == id,
        m.description == description,
        m.token == token,
        m.close_time == close_time,
        m.outcome_count == outcome_count,
        m.status == MarketStatus::Open,
        m.winning_outcome is None,
        m.resolved_at is None,
        m.total_stake == 0,
        m.pools().len() == outcome_count,
        forall|i: int| 0 <= i < outcome_count ==> m.pools()[i] == 0,
{
}

/// A stake adds its amount to the pool of its outcome and to the market
/// total, leaves every other pool and the market's other fields as they
/// were, and adds the amount to the participant's total and to the
/// participant's amount on that outcome (a participant without a record
/// starting from zero on every outcome).
pub proof fn law_stake_adds_amount(
    before: MarketState,
    after: MarketState,
    record: Option<ParticipantStake>,
    rec: ParticipantStake,
    outcome: u32,
    amount: i128,
)
    requires
        outcome < before.outcome_count,
        before.outcome_count <= before.pools().len(),
        record matches Some(r) ==> outcome < amounts(r.by_outcome).len(),
        before.pools()[outcome as int] + amount <= i128::MAX,
        amount > 0,
        record matches Some(r) ==> amounts(r.by_outcome)[outcome as int] + amount <= i128::MAX,
        staked(before, after, outcome, amount),
        staked_record(record, rec, before.outcome_count, outcome, amount),
    ensures
        after.pools().len() == before.pools().len(),
        after.pools()[outcome as int] == before.pools()[outcome as int] + amount,
        forall|i: int| 0 <= i < before.pools().len() && i != outcome ==> after.pools()[i] == before.pools()[i],
        after.total_stake == before.total_stake + amount,
        after.status == before.status,
        after.winning_outcome == before.winning_outcome,
        after.resolved_at == before.resolved_at,
        after.close_time == before.close_time,
        after.outcome_count == before.outcome_count,
        after.market_id == before.market_id,
        rec.total == (match record { Some(r) => r.total as int, None => 0int }) + amount,
        record matches Some(r) ==> amounts(rec.by_outcome) == amounts(r.by_outcome).update(
            outcome as int, (amounts(r.by_outcome)[outcome as int] + amount) as i128),
        record is None ==> amounts(rec.by_outcome).len() == before.outcome_count
            && amounts(rec.by_outcome)[outcome as int] == amount
            && forall|i: int| 0 <= i < before.outcome_count && i != outcome ==> amounts(rec.by_outcome)[i] == 0,
{
}

/// The refusals of a stake, in the contract's order: a non-positive amount,
/// a missing market, a market that is not open, a stake after the close
/// time, an outcome that is not one of the market's.
pub proof fn law_stake_refusals(
    market: Option<MarketState>,
    record: Option<ParticipantStake>,
    outcome: u32,
    amount: i128,
    now: u64,
)
    ensures
        amount <= 0 ==> stake_refusal(market, record, outcome, amount, now) == Some(OracleError::AmountNotPositive),
        amount > 0 && market is None ==> stake_refusal(market, record, outcome, amount, now) == Some(OracleError::MarketNotFound),
        amount > 0 && market is Some && market.unwrap().status != MarketStatus::Open
            ==> stake_refusal(market, record, outcome, amount, now) == Some(OracleError::MarketNotOpen),
        amount > 0 && market is Some && market.unwrap().status == MarketStatus::Open && now > market.unwrap().close_time
            ==> stake_refusal(market, record, outcome, amount, now) == Some(OracleError::StakingClosed),
        amount > 0 && market is Some && market.unwrap().status == MarketStatus::Open && now <= market.unwrap().close_time
            && outcome >= market.unwrap().outcome_count
            ==> stake_refusal(market, record, outcome, amount, now) == Some(OracleError::InvalidOutcome),
{
}

/// The refusals of a market creation, in the contract's order: no admin, fewer
/// than two outcomes, a close time not after the current ledger time, a
/// counter at its end.
pub proof fn law_create_refusals(config: OracleConfig, close_time: u64, outcome_count: u32, now: u64)
    ensures
        config.admin is None ==> create_refusal(config, close_time, outcome_count, now) == Some(OracleError::NotInitialized),
        config.admin is Some && outcome_count < 2
            ==> create_refusal(config, close_time, outcome_count, now) == Some(OracleError::TooFewOutcomes),
        config.admin is Some && outcome_count >= 2 && close_time <= now
            ==> create_refusal(config, close_time, outcome_count, now) == Some(OracleError::CloseTimeNotInFuture),
        config.admin is Some && outcome_count >= 2 && close_time > now && next_id_of(config) == u64::MAX
            ==> create_refusal(config, close_time, outcome_count, now) == Some(OracleError::ArithmeticOverflow),
{
}

/// The refusals of resolving and voiding: no admin, a missing market, a
/// market no longer open, and for resolving an outcome that is not one of
/// the market's.
pub proof fn law_settle_refusals(config: OracleConfig, market: Option<MarketState>, outcome: u32, sequence: u32)
    ensures
        config.admin is Some && market is None ==> resolve_result(config, market, outcome, sequence)
            == Err::<(MarketState, soroban_sdk::Address), OracleError>(OracleError::MarketNotFound)
            && void_result(config, market, sequence)
            == Err::<(MarketState, soroban_sdk::Address), OracleError>(OracleError::MarketNotFound),
        config.admin is Some && market is Some && market.unwrap().status != MarketStatus::Open
            ==> resolve_result(config, market, outcome, sequence)
            == Err::<(MarketState, soroban_sdk::Address), OracleError>(OracleError::AlreadySettled)
            && void_result(config, market, sequence)
            == Err::<(MarketState, soroban_sdk::Address), OracleError>(OracleError::AlreadySettled),
        config.admin is Some && market is Some && market.unwrap().status == MarketStatus::Open && outcome >= market.unwrap().outcome_count
            ==> resolve_result(config, market, outcome, sequence)
            == Err::<(MarketState, soroban_sdk::Address), OracleError>(OracleError::InvalidOutcome),
{
}

/// The refusals of a claim: a missing market, an open market, a participant
/// without stake; in a resolved market an empty winning pool, and a
/// participant without a stake on the winning outcome.
pub proof fn law_claim_refusals(market: Option<MarketState>, record: Option<ParticipantStake>)
    ensures
        market is None ==> claim_result(market, record) == Err::<i128, OracleError>(OracleError::MarketNotFound),
        market is Some && market.unwrap().status == MarketStatus::Open
            ==> claim_result(market, record) == Err::<i128, OracleError>(OracleError::NotYetResolved),
        market is Some && market.unwrap().status != MarketStatus::Open && (record is None || record.unwrap().total == 0)
            ==> claim_result(market, record) == Err::<i128, OracleError>(OracleError::NoStake),
        market is Some && market.unwrap().status == MarketStatus::Resolved && record is Some && record.unwrap().total != 0
            && market.unwrap().winning_outcome is Some && market.unwrap().winning_outcome.unwrap() < market.unwrap().pools().len()
            && holds_amount(market.unwrap().outcome_stakes, market.unwrap().winning_outcome.unwrap() as int) && market.unwrap().pools()[market.unwrap().winning_outcome.unwrap() as int] == 0
            ==> claim_result(market, record) == Err::<i128, OracleError>(OracleError::NoWinningStake),
        market is Some && market.unwrap().status == MarketStatus::Resolved && record is Some && record.unwrap().total != 0
            && market.unwrap().winning_outcome is Some && market.unwrap().winning_outcome.unwrap() < market.unwrap().pools().len()
            && holds_amount(market.unwrap().outcome_stakes, market.unwrap().winning_outcome.unwrap() as int) && market.unwrap().pools()[market.unwrap().winning_outcome.unwrap() as int] != 0
            && market.unwrap().winning_outcome.unwrap() < amounts(record.unwrap().by_outcome).len() && holds_amount(record.unwrap().by_outcome, market.unwrap().winning_outcome.unwrap() as int)
            && amounts(record.unwrap().by_outcome)[market.unwrap().winning_outcome.unwrap() as int] == 0
            ==> claim_result(market, record) == Err::<i128, OracleError>(OracleError::NoWinningStakeHeld),
{
}

/// A claimed record holds nothing: its total and every per-outcome amount are
/// zero, with as many entries as before.
pub proof fn law_cleared_record_is_zero(before: ParticipantStake, after: ParticipantStake)
    requires
        cleared(before, after),
    ensures
        after.total == 0,
        amounts(after.by_outcome).len() == amounts(before.by_outcome).len(),
        forall|i: int| 0 <= i < amounts(after.by_outcome).len() ==> amounts(after.by_outcome)[i] == 0,
{
}

} // verus!
