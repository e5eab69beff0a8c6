use soroban_sdk::{Address, Env, String as SdkString};
use soroban_sdk::{IntoVal, TryFromVal, Val};
use veridex_oracle::{MarketState, MarketStatus, OracleConfig, OracleError, ParticipantStake, VeridexOracle};

const ACCOUNTS: [&str; 6] = [
    "GAAAAAAAAAAAAAAAAAAAAAAAAAAAAAAAAAAAAAAAAAAAAAAAAAAAAWHF",
    "GAAQCAIBAEAQCAIBAEAQCAIBAEAQCAIBAEAQCAIBAEAQCAIBAEAQDZ7H",
    "GABAEAQCAIBAEAQCAIBAEAQCAIBAEAQCAIBAEAQCAIBAEAQCAIBAEJXA",
    "GABQGAYDAMBQGAYDAMBQGAYDAMBQGAYDAMBQGAYDAMBQGAYDAMBQHGPC",
    "GACAIBAEAQCAIBAEAQCAIBAEAQCAIBAEAQCAIBAEAQCAIBAEAQCAJJHP",
    "GACQKBIFAUCQKBIFAUCQKBIFAUCQKBIFAUCQKBIFAUCQKBIFAUCQKG7N",
];
const TOKEN: &str = "CADQOBYHA4DQOBYHA4DQOBYHA4DQOBYHA4DQOBYHA4DQOBYHA4DQP5KR";

/// Unwraps an oracle result, panicking with the contract's message.
fn ok<T>(r: Result<T, OracleError>) -> T {
    match r {
        Ok(v) => v,
        Err(e) => panic!("{}", e.message()),
    }
}

fn copy_market(m: &MarketState) -> MarketState {
    MarketState {
        market_id: m.market_id,
        description: m.description.clone(),
        token: m.token.clone(),
        close_time: m.close_time,
        status: m.status,
        outcome_count: m.outcome_count,
        winning_outcome: m.winning_outcome,
        outcome_stakes: m.outcome_stakes.clone(),
        total_stake: m.total_stake,
        resolved_at: m.resolved_at,
    }
}

/// The contract's storage and ledger, driven through the library the way the
/// contract entry points drive it.
struct TestEnv {
    env: Env,
    admin: Address,
    token: Address,
    config: OracleConfig,
    markets: Vec<(u64, MarketState)>,
    stakes: Vec<(u64, Address, ParticipantStake)>,
    timestamp: u64,
    sequence: u32,
    accounts_used: usize,
}

impl TestEnv {
    fn generate(&mut self) -> Address {
        self.accounts_used += 1;
        Address::from_string(&SdkString::from_str(&self.env, ACCOUNTS[self.accounts_used]))
    }

    fn initialize(&mut self, admin: &Address) {
        ok(VeridexOracle::initialize(&mut self.config, admin.clone()));
    }

    fn admin(&self) -> Address {
        ok(VeridexOracle::admin(&self.config))
    }

    fn set_admin(&mut self, new_admin: &Address) {
        let current = ok(VeridexOracle::set_admin(&mut self.config, new_admin.clone()));
        assert_eq!(current, self.admin);
    }

    fn stored_market(&self, id: u64) -> Option<MarketState> {
        self.markets.iter().find(|(k, _)| *k == id).map(|(_, m)| copy_market(m))
    }

    fn put_market(&mut self, m: MarketState) {
        let id = m.market_id;
        self.markets.retain(|(k, _)| *k != id);
        self.markets.push((id, m));
    }

    fn stored_stake(&self, id: u64, p: &Address) -> Option<ParticipantStake> {
        self.stakes.iter().find(|(k, a, _)| *k == id && a == p).map(|(_, _, s)| s.clone())
    }

    fn put_stake(&mut self, id: u64, p: &Address, s: ParticipantStake) {
        self.stakes.retain(|(k, a, _)| !(*k == id && a == p));
        self.stakes.push((id, p.clone(), s));
    }

    fn create_market(&mut self, description: &str, close_time: u64, outcome_count: u32) -> u64 {
        let (m, who) = ok(VeridexOracle::create_market(
            &mut self.config,
            &self.env,
            SdkString::from_str(&self.env, description),
            self.token.clone(),
            close_time,
            outcome_count,
            self.timestamp,
        ));
        assert_eq!(who, ok(VeridexOracle::admin(&self.config)));
        let id = m.market_id;
        self.put_market(m);
        id
    }

    fn stake(&mut self, id: u64, p: &Address, outcome: u32, amount: i128) {
        let (m, s) = ok(VeridexOracle::stake(
            &self.env,
            self.stored_market(id),
            self.stored_stake(id, p),
            outcome,
            amount,
            self.timestamp,
        ));
        self.put_market(m);
        self.put_stake(id, p, s);
    }

    fn resolve_market(&mut self, id: u64, outcome: u32) {
        let (m, who) = ok(VeridexOracle::resolve_market(&self.config, self.stored_market(id), outcome, self.sequence));
        assert_eq!(who, ok(VeridexOracle::admin(&self.config)));
        self.put_market(m);
    }

    fn void_market(&mut self, id: u64) {
        let (m, who) = ok(VeridexOracle::void_market(&self.config, self.stored_market(id), self.sequence));
        assert_eq!(who, ok(VeridexOracle::admin(&self.config)));
        self.put_market(m);
    }

    fn claim_winnings(&mut self, id: u64, p: &Address) -> i128 {
        let market = self.stored_market(id);
        let (payout, record) = ok(VeridexOracle::claim_winnings(&market, self.stored_stake(id, p)));
        self.put_stake(id, p, record);
        payout
    }

    fn get_market_state(&self, id: u64) -> MarketState {
        ok(VeridexOracle::get_market_state(self.stored_market(id)))
    }

    fn get_stake(&self, id: u64, p: &Address) -> i128 {
        VeridexOracle::get_stake(&self.stored_stake(id, p))
    }

    fn next_id(&self) -> u64 {
        VeridexOracle::next_id(&self.config)
    }
}

fn setup() -> TestEnv {
    let env = Env::default();
    let admin = Address::from_string(&SdkString::from_str(&env, ACCOUNTS[0]));
    let token = Address::from_string(&SdkString::from_str(&env, TOKEN));
    let mut t = TestEnv {
        env,
        admin: admin.clone(),
        token,
        config: OracleConfig { admin: None, next_id: None },
        markets: Vec::new(),
        stakes: Vec::new(),
        timestamp: 1_000_000,
        sequence: 100,
        accounts_used: 0,
    };
    t.initialize(&admin);
    t
}

fn make_market(t: &mut TestEnv) -> u64 {
    t.create_market("Will XLM hit $1 by EOY?", 2_000_000u64, 2u32)
}

// ---------------------------------------------------------------------------
// Initialization
// ---------------------------------------------------------------------------

#[test]
fn test_initialize_sets_admin() {
    let t = setup();
    assert_eq!(t.admin(), t.admin);
}

#[test]
#[should_panic(expected = "already initialized")]
fn test_double_initialize_panics() {
    let mut t = setup();
    let other = t.generate();
    t.initialize(&other);
}

#[test]
fn test_set_admin() {
    let mut t = setup();
    let new_admin = t.generate();
    t.set_admin(&new_admin);
    assert_eq!(t.admin(), new_admin);
}

// ---------------------------------------------------------------------------
// Market creation
// ---------------------------------------------------------------------------

#[test]
fn test_create_market_returns_id() {
    let mut t = setup();
    let id = make_market(&mut t);
    assert_eq!(id, 0);
}

#[test]
fn test_create_multiple_markets_increments_id() {
    let mut t = setup();
    let id0 = make_market(&mut t);
    let id1 = make_market(&mut t);
    let id2 = make_market(&mut t);
    assert_eq!(id0, 0);
    assert_eq!(id1, 1);
    assert_eq!(id2, 2);
}

#[test]
#[should_panic(expected = "market must have at least 2 outcomes")]
fn test_create_market_single_outcome_panics() {
    let mut t = setup();
    t.create_market("bad market", 2_000_000u64, 1u32);
}

#[test]
#[should_panic(expected = "close_time must be in the future")]
fn test_create_market_past_close_time_panics() {
    let mut t = setup();
    // close_time = 0, which is in the past relative to timestamp 1_000_000
    t.create_market("expired", 0u64, 2u32);
}

#[test]
fn test_get_market_state() {
    let mut t = setup();
    let id = make_market(&mut t);
    let state = t.get_market_state(id);
    assert_eq!(state.market_id, id);
    assert_eq!(state.status, MarketStatus::Open);
    assert_eq!(state.outcome_count, 2);
    assert!(state.winning_outcome.is_none());
    assert_eq!(state.total_stake, 0);
}

// ---------------------------------------------------------------------------
// Resolution
// ---------------------------------------------------------------------------

#[test]
fn test_resolve_market_sets_winning_outcome() {
    let mut t = setup();
    let id = make_market(&mut t);
    t.resolve_market(id, 1u32);
    let state = t.get_market_state(id);
    assert_eq!(state.status, MarketStatus::Resolved);
    assert_eq!(state.winning_outcome, Some(1));
    assert!(state.resolved_at.is_some());
}

#[test]
#[should_panic(expected = "market already resolved or voided")]
fn test_double_resolve_panics() {
    let mut t = setup();
    let id = make_market(&mut t);
    t.resolve_market(id, 0u32);
    t.resolve_market(id, 1u32);
}

#[test]
#[should_panic(expected = "invalid outcome index")]
fn test_resolve_invalid_outcome_panics() {
    let mut t = setup();
    let id = make_market(&mut t);
    t.resolve_market(id, 99u32);
}

// ---------------------------------------------------------------------------
// Voiding
// ---------------------------------------------------------------------------

#[test]
fn test_void_market() {
    let mut t = setup();
    let id = make_market(&mut t);
    t.void_market(id);
    let state = t.get_market_state(id);
    assert_eq!(state.status, MarketStatus::Voided);
}

#[test]
#[should_panic(expected = "market already resolved or voided")]
fn test_void_after_resolve_panics() {
    let mut t = setup();
    let id = make_market(&mut t);
    t.resolve_market(id, 0u32);
    t.void_market(id);
}

// ---------------------------------------------------------------------------
// Staking
// ---------------------------------------------------------------------------

#[test]
fn test_stake_updates_market_totals() {
    let mut t = setup();
    let id = make_market(&mut t);
    let participant = t.generate();

    t.stake(id, &participant, 0u32, 500_000i128);
    let state = t.get_market_state(id);
    assert_eq!(state.total_stake, 500_000);
    assert_eq!(state.outcome_stakes.get(0), Some(500_000i128));
    assert_eq!(t.get_stake(id, &participant), 500_000);
}

#[test]
fn test_multiple_stakes_accumulate() {
    let mut t = setup();
    let id = make_market(&mut t);
    let p = t.generate();
    t.stake(id, &p, 0u32, 300_000i128);
    t.stake(id, &p, 0u32, 200_000i128);
    assert_eq!(t.get_stake(id, &p), 500_000);
}

#[test]
#[should_panic(expected = "amount must be positive")]
fn test_stake_zero_amount_panics() {
    let mut t = setup();
    let id = make_market(&mut t);
    let p = t.generate();
    t.stake(id, &p, 0u32, 0i128);
}

#[test]
#[should_panic(expected = "invalid outcome index")]
fn test_stake_invalid_outcome_panics() {
    let mut t = setup();
    let id = make_market(&mut t);
    let p = t.generate();
    t.stake(id, &p, 99u32, 100_000i128);
}

#[test]
#[should_panic(expected = "market is not open")]
fn test_stake_after_resolve_panics() {
    let mut t = setup();
    let id = make_market(&mut t);
    t.resolve_market(id, 0u32);
    let p = t.generate();
    t.stake(id, &p, 0u32, 100_000i128);
}

// ---------------------------------------------------------------------------
// Claims
// ---------------------------------------------------------------------------

#[test]
fn test_claim_full_pool_single_winner() {
    let mut t = setup();
    let id = make_market(&mut t);
    let winner = t.generate();
    let loser = t.generate();

    // Winner bets outcome 0, loser bets outcome 1.
    t.stake(id, &winner, 0u32, 1_000_000i128);
    t.stake(id, &loser, 1u32, 1_000_000i128);

    t.resolve_market(id, 0u32);

    let payout = t.claim_winnings(id, &winner);
    // winner_stake / winning_pool * total_stake = 1_000_000 / 1_000_000 * 2_000_000
    assert_eq!(payout, 2_000_000);
}

#[test]
#[should_panic(expected = "market is not yet resolved")]
fn test_claim_before_resolve_panics() {
    let mut t = setup();
    let id = make_market(&mut t);
    let p = t.generate();
    t.claim_winnings(id, &p);
}

#[test]
#[should_panic(expected = "no stake found for participant")]
fn test_claim_no_stake_panics() {
    let mut t = setup();
    let id = make_market(&mut t);
    t.resolve_market(id, 0u32);
    let p = t.generate();
    t.claim_winnings(id, &p);
}

#[test]
#[should_panic(expected = "no stake found for participant")]
fn test_double_claim_panics() {
    let mut t = setup();
    let id = make_market(&mut t);
    let winner = t.generate();
    let loser = t.generate();
    t.stake(id, &winner, 0u32, 1_000_000i128);
    t.stake(id, &loser, 1u32, 500_000i128);
    t.resolve_market(id, 0u32);
    t.claim_winnings(id, &winner);
    // Second claim: the stake is zeroed, so this panics.
    t.claim_winnings(id, &winner);
}

#[test]
fn test_claim_voided_market_refunds_stake() {
    let mut t = setup();
    let id = make_market(&mut t);
    let p = t.generate();
    t.stake(id, &p, 1u32, 750_000i128);
    t.void_market(id);
    let refund = t.claim_winnings(id, &p);
    assert_eq!(refund, 750_000);
}

#[test]
fn test_next_id_increments() {
    let mut t = setup();
    assert_eq!(t.next_id(), 0);
    make_market(&mut t);
    assert_eq!(t.next_id(), 1);
    make_market(&mut t);
    assert_eq!(t.next_id(), 2);
}

// ---------------------------------------------------------------------------
// Further cases: refusals, formulas and cross-call properties
// ---------------------------------------------------------------------------

fn refusal<T>(r: Result<T, OracleError>) -> OracleError {
    match r {
        Ok(_) => panic!("expected a refusal"),
        Err(e) => e,
    }
}

fn amounts_vec(env: &Env, items: &[i128]) -> soroban_sdk::Vec<i128> {
    let mut v = soroban_sdk::Vec::new(env);
    for x in items {
        v.push_back(*x);
    }
    v
}

/// A `Vec<i128>` whose second item is a boolean host value.
fn corrupt_vec(env: &Env) -> soroban_sdk::Vec<i128> {
    let mut vals: soroban_sdk::Vec<Val> = soroban_sdk::Vec::new(env);
    vals.push_back(5i128.into_val(env));
    vals.push_back(true.into_val(env));
    soroban_sdk::Vec::<i128>::try_from_val(env, &&vals).unwrap()
}

fn record(env: &Env, items: &[i128]) -> ParticipantStake {
    ParticipantStake { total: items.iter().sum(), by_outcome: amounts_vec(env, items) }
}

fn resolved_market(t: &TestEnv, pools: &[i128], total: i128, winner: Option<u32>) -> MarketState {
    MarketState {
        market_id: 7,
        description: SdkString::from_str(&t.env, "hand-built"),
        token: t.token.clone(),
        close_time: 2_000_000,
        status: MarketStatus::Resolved,
        outcome_count: pools.len() as u32,
        winning_outcome: winner,
        outcome_stakes: amounts_vec(&t.env, pools),
        total_stake: total,
        resolved_at: Some(100),
    }
}

#[test]
fn admin_refused_before_initialization() {
    let env = Env::default();
    let mut config = OracleConfig { admin: None, next_id: None };
    assert_eq!(refusal(VeridexOracle::admin(&config)), OracleError::NotInitialized);
    let a = Address::from_string(&SdkString::from_str(&env, ACCOUNTS[1]));
    assert_eq!(refusal(VeridexOracle::set_admin(&mut config, a.clone())), OracleError::NotInitialized);
    assert!(config.admin.is_none());
    let r = VeridexOracle::create_market(&mut config, &env, SdkString::from_str(&env, "q"), a, 5, 2, 1);
    assert_eq!(refusal(r), OracleError::NotInitialized);
    assert_eq!(VeridexOracle::next_id(&config), 0);
    assert_eq!(refusal(VeridexOracle::resolve_market(&config, None, 0, 1)), OracleError::NotInitialized);
    assert_eq!(refusal(VeridexOracle::void_market(&config, None, 1)), OracleError::NotInitialized);
}

#[test]
fn initialize_starts_counter_and_refuses_again() {
    let env = Env::default();
    let a = Address::from_string(&SdkString::from_str(&env, ACCOUNTS[1]));
    let b = Address::from_string(&SdkString::from_str(&env, ACCOUNTS[2]));
    let mut config = OracleConfig { admin: None, next_id: None };
    assert!(VeridexOracle::initialize(&mut config, a.clone()).is_ok());
    assert_eq!(config.next_id, Some(0));
    assert_eq!(refusal(VeridexOracle::initialize(&mut config, b)), OracleError::AlreadyInitialized);
    assert_eq!(VeridexOracle::admin(&config).unwrap(), a);
}

#[test]
fn set_admin_keeps_counter_and_names_the_old_admin() {
    let mut t = setup();
    make_market(&mut t);
    let new_admin = t.generate();
    let current = ok(VeridexOracle::set_admin(&mut t.config, new_admin.clone()));
    assert_eq!(current, t.admin);
    assert_eq!(t.next_id(), 1);
    assert_eq!(t.admin(), new_admin);
    // Settling now names the new admin as the authorizer.
    let id = make_market(&mut t);
    let (_, who) = ok(VeridexOracle::void_market(&t.config, t.stored_market(id), 1));
    assert_eq!(who, new_admin);
}

#[test]
fn created_market_has_empty_pools() {
    let mut t = setup();
    let id = t.create_market("three ways", 2_000_000, 3);
    let state = t.get_market_state(id);
    assert_eq!(state.outcome_stakes.len(), 3);
    for i in 0..3 {
        assert_eq!(state.outcome_stakes.get(i), Some(0));
    }
    assert_eq!(state.close_time, 2_000_000);
    assert_eq!(state.token, t.token);
    assert_eq!(state.resolved_at, None);
}

#[test]
fn close_time_equal_to_now_is_refused() {
    let mut t = setup();
    let token = t.token.clone();
    let r = VeridexOracle::create_market(&mut t.config, &t.env, SdkString::from_str(&t.env, "now"), token, 1_000_000, 2, 1_000_000);
    assert_eq!(refusal(r), OracleError::CloseTimeNotInFuture);
    assert_eq!(t.next_id(), 0);
}

#[test]
fn market_counter_overflow_is_refused() {
    let mut t = setup();
    t.config.next_id = Some(u64::MAX);
    let token = t.token.clone();
    let r = VeridexOracle::create_market(&mut t.config, &t.env, SdkString::from_str(&t.env, "last"), token, 2_000_000, 2, 1_000_000);
    assert_eq!(refusal(r), OracleError::ArithmeticOverflow);
    assert_eq!(t.config.next_id, Some(u64::MAX));
}

#[test]
fn missing_market_is_refused_everywhere() {
    let t = setup();
    assert_eq!(refusal(VeridexOracle::get_market_state(None)), OracleError::MarketNotFound);
    assert_eq!(refusal(VeridexOracle::stake(&t.env, None, None, 0, 10, 1)), OracleError::MarketNotFound);
    assert_eq!(refusal(VeridexOracle::resolve_market(&t.config, None, 0, 1)), OracleError::MarketNotFound);
    assert_eq!(refusal(VeridexOracle::void_market(&t.config, None, 1)), OracleError::MarketNotFound);
    let r = Some(record(&t.env, &[5, 0]));
    assert_eq!(refusal(VeridexOracle::claim_winnings(&None, r)), OracleError::MarketNotFound);
    assert_eq!(t.get_stake(3, &t.admin), 0);
}

#[test]
fn amount_is_checked_before_market_lookup() {
    let env = Env::default();
    assert_eq!(refusal(VeridexOracle::stake(&env, None, None, 0, 0, 1)), OracleError::AmountNotPositive);
    assert_eq!(refusal(VeridexOracle::stake(&env, None, None, 0, -5, 1)), OracleError::AmountNotPositive);
}

#[test]
fn stake_after_close_time_is_refused() {
    let mut t = setup();
    let id = make_market(&mut t);
    let p = t.generate();
    t.timestamp = 2_000_000;
    t.stake(id, &p, 0, 10);
    t.timestamp = 2_000_001;
    let r = VeridexOracle::stake(&t.env, t.stored_market(id), t.stored_stake(id, &p), 0, 10, t.timestamp);
    assert_eq!(refusal(r), OracleError::StakingClosed);
    assert_eq!(t.get_stake(id, &p), 10);
}

#[test]
fn stake_overflow_is_refused() {
    let mut t = setup();
    let id = make_market(&mut t);
    let p = t.generate();
    t.stake(id, &p, 0, i128::MAX);
    let r = VeridexOracle::stake(&t.env, t.stored_market(id), t.stored_stake(id, &p), 1, 1, t.timestamp);
    assert_eq!(refusal(r), OracleError::ArithmeticOverflow);
}

#[test]
fn stake_records_amounts_per_outcome() {
    let mut t = setup();
    let id = t.create_market("three ways", 2_000_000, 3);
    let a = t.generate();
    let b = t.generate();
    t.stake(id, &a, 0, 100);
    t.stake(id, &b, 2, 250);
    t.stake(id, &a, 2, 50);
    let state = t.get_market_state(id);
    assert_eq!(state.outcome_stakes.get(0), Some(100));
    assert_eq!(state.outcome_stakes.get(1), Some(0));
    assert_eq!(state.outcome_stakes.get(2), Some(300));
    assert_eq!(state.total_stake, 400);
    assert_eq!(t.get_stake(id, &a), 150);
    assert_eq!(t.get_stake(id, &b), 250);
    let ra = t.stored_stake(id, &a).unwrap();
    assert_eq!(ra.by_outcome.len(), 3);
    assert_eq!(ra.by_outcome.get(0), Some(100));
    assert_eq!(ra.by_outcome.get(1), Some(0));
    assert_eq!(ra.by_outcome.get(2), Some(50));
}

#[test]
fn two_stakes_equal_one_of_their_sum() {
    let mut t = setup();
    let id1 = make_market(&mut t);
    let id2 = make_market(&mut t);
    let p = t.generate();
    t.stake(id1, &p, 1, 30);
    t.stake(id1, &p, 1, 12);
    t.stake(id2, &p, 1, 42);
    let m1 = t.get_market_state(id1);
    let m2 = t.get_market_state(id2);
    assert_eq!(m1.outcome_stakes, m2.outcome_stakes);
    assert_eq!(m1.total_stake, m2.total_stake);
    let r1 = t.stored_stake(id1, &p).unwrap();
    let r2 = t.stored_stake(id2, &p).unwrap();
    assert_eq!(r1.by_outcome, r2.by_outcome);
    assert_eq!(r1.total, r2.total);
}

#[test]
fn corrupt_pool_is_refused_without_panic() {
    let mut t = setup();
    let id = make_market(&mut t);
    let mut m = t.stored_market(id).unwrap();
    m.outcome_stakes = corrupt_vec(&t.env);
    let r = VeridexOracle::stake(&t.env, Some(m), None, 1, 10, t.timestamp);
    assert_eq!(refusal(r), OracleError::NotAnAmount);
    let mut m = resolved_market(&t, &[5, 5], 10, Some(1));
    m.outcome_stakes = corrupt_vec(&t.env);
    let r = VeridexOracle::claim_winnings(&Some(m), Some(record(&t.env, &[0, 5])));
    assert_eq!(refusal(r), OracleError::NotAnAmount);
}

#[test]
fn corrupt_record_is_refused_without_panic() {
    let mut t = setup();
    let id = make_market(&mut t);
    let bad = ParticipantStake { total: 5, by_outcome: corrupt_vec(&t.env) };
    let r = VeridexOracle::stake(&t.env, t.stored_market(id), Some(bad), 1, 10, t.timestamp);
    assert_eq!(refusal(r), OracleError::NotAnAmount);
}

#[test]
fn short_pool_vector_is_refused() {
    let mut t = setup();
    let id = make_market(&mut t);
    let mut m = t.stored_market(id).unwrap();
    m.outcome_stakes = amounts_vec(&t.env, &[0]);
    let r = VeridexOracle::stake(&t.env, Some(m), None, 1, 10, t.timestamp);
    assert_eq!(refusal(r), OracleError::PoolOutOfBounds);
    let short = record(&t.env, &[3]);
    let r = VeridexOracle::stake(&t.env, t.stored_market(id), Some(short), 1, 10, t.timestamp);
    assert_eq!(refusal(r), OracleError::PoolOutOfBounds);
}

#[test]
fn void_after_void_is_refused() {
    let mut t = setup();
    let id = make_market(&mut t);
    t.void_market(id);
    let r = VeridexOracle::void_market(&t.config, t.stored_market(id), 101);
    assert_eq!(refusal(r), OracleError::AlreadySettled);
    let r = VeridexOracle::resolve_market(&t.config, t.stored_market(id), 0, 101);
    assert_eq!(refusal(r), OracleError::AlreadySettled);
    let state = t.get_market_state(id);
    assert_eq!(state.resolved_at, Some(100));
    assert_eq!(state.winning_outcome, None);
}

#[test]
fn stake_after_void_is_refused() {
    let mut t = setup();
    let id = make_market(&mut t);
    t.void_market(id);
    let p = t.generate();
    let r = VeridexOracle::stake(&t.env, t.stored_market(id), None, 0, 10, t.timestamp);
    assert_eq!(refusal(r), OracleError::MarketNotOpen);
    assert_eq!(t.get_stake(id, &p), 0);
}

#[test]
fn pro_rata_payouts_split_the_pool() {
    let mut t = setup();
    let id = make_market(&mut t);
    let a = t.generate();
    let b = t.generate();
    let c = t.generate();
    t.stake(id, &a, 0, 300);
    t.stake(id, &b, 0, 100);
    t.stake(id, &c, 1, 600);
    t.resolve_market(id, 0);
    assert_eq!(t.claim_winnings(id, &a), 750);
    assert_eq!(t.claim_winnings(id, &b), 250);
    assert_eq!(t.get_stake(id, &a), 0);
}

#[test]
fn payout_counts_only_the_stake_on_the_winning_outcome() {
    let mut t = setup();
    let id = make_market(&mut t);
    let both = t.generate();
    let other = t.generate();
    t.stake(id, &both, 0, 100);
    t.stake(id, &both, 1, 100);
    t.stake(id, &other, 0, 100);
    t.resolve_market(id, 0);
    // 100 * 300 / 200
    assert_eq!(t.claim_winnings(id, &both), 150);
    assert_eq!(t.claim_winnings(id, &other), 150);
}

#[test]
fn pro_rata_payout_rounds_toward_zero() {
    let mut t = setup();
    let id = t.create_market("thirds", 2_000_000, 2);
    let a = t.generate();
    let b = t.generate();
    let c = t.generate();
    t.stake(id, &a, 0, 1);
    t.stake(id, &b, 0, 2);
    t.stake(id, &c, 1, 997);
    t.resolve_market(id, 0);
    // 1 * 1000 / 3
    assert_eq!(t.claim_winnings(id, &a), 333);
    // 2 * 1000 / 3
    assert_eq!(t.claim_winnings(id, &b), 666);
}

#[test]
fn losing_stake_is_refused_and_kept() {
    let mut t = setup();
    let id = make_market(&mut t);
    let w = t.generate();
    let l = t.generate();
    t.stake(id, &w, 0, 1_000_000);
    t.stake(id, &l, 1, 500_000);
    t.resolve_market(id, 0);
    let r = VeridexOracle::claim_winnings(&t.stored_market(id), t.stored_stake(id, &l));
    assert_eq!(refusal(r), OracleError::NoWinningStakeHeld);
    assert_eq!(t.get_stake(id, &l), 500_000);
    assert_eq!(OracleError::NoWinningStakeHeld.message(), "no winning stake for participant");
}

#[test]
fn all_payouts_stay_within_total_stake() {
    let mut t = setup();
    let id = t.create_market("three ways", 2_000_000, 3);
    let ps = [t.generate(), t.generate(), t.generate(), t.generate()];
    t.stake(id, &ps[0], 1, 7);
    t.stake(id, &ps[1], 1, 5);
    t.stake(id, &ps[2], 1, 11);
    t.stake(id, &ps[3], 0, 101);
    t.stake(id, &ps[0], 2, 3);
    t.resolve_market(id, 1);
    let mut paid = 0;
    for p in ps.iter().take(3) {
        paid += t.claim_winnings(id, p);
    }
    let total = t.get_market_state(id).total_stake;
    assert_eq!(total, 127);
    // 7*127/23 + 5*127/23 + 11*127/23 = 38 + 27 + 60
    assert_eq!(paid, 125);
    assert!(paid <= total);
}

#[test]
fn empty_winning_pool_is_refused() {
    let mut t = setup();
    let id = make_market(&mut t);
    let p = t.generate();
    t.stake(id, &p, 1, 100);
    t.resolve_market(id, 0);
    let r = VeridexOracle::claim_winnings(&t.stored_market(id), t.stored_stake(id, &p));
    assert_eq!(refusal(r), OracleError::NoWinningStake);
    assert_eq!(t.get_stake(id, &p), 100);
}

#[test]
fn resolved_market_without_winner_is_refused() {
    let t = setup();
    let m = resolved_market(&t, &[5, 5], 10, None);
    let r = VeridexOracle::claim_winnings(&Some(m), Some(record(&t.env, &[5, 0])));
    assert_eq!(refusal(r), OracleError::MissingWinningOutcome);
}

#[test]
fn payout_product_overflow_is_refused() {
    let t = setup();
    let m = resolved_market(&t, &[i128::MAX, 0], i128::MAX, Some(0));
    let r = VeridexOracle::claim_winnings(&Some(m), Some(record(&t.env, &[2, 0])));
    assert_eq!(refusal(r), OracleError::PayoutOverflow);
}

#[test]
fn payout_quotient_overflow_is_refused() {
    let t = setup();
    let m = resolved_market(&t, &[-1, 0], i128::MIN, Some(0));
    let r = VeridexOracle::claim_winnings(&Some(m), Some(record(&t.env, &[1, 0])));
    assert_eq!(refusal(r), OracleError::PayoutDivision);
}

#[test]
fn winning_outcome_past_the_pools_reads_as_empty() {
    let t = setup();
    let m = resolved_market(&t, &[5, 5], 10, Some(9));
    let r = VeridexOracle::claim_winnings(&Some(m), Some(record(&t.env, &[5, 0])));
    assert_eq!(refusal(r), OracleError::NoWinningStake);
}

#[test]
fn voided_claim_refunds_total_and_cannot_repeat() {
    let mut t = setup();
    let id = make_market(&mut t);
    let a = t.generate();
    t.stake(id, &a, 0, 40);
    t.stake(id, &a, 1, 2);
    t.void_market(id);
    assert_eq!(t.claim_winnings(id, &a), 42);
    let rec = t.stored_stake(id, &a).unwrap();
    assert_eq!(rec.total, 0);
    assert_eq!(rec.by_outcome.get(0), Some(0));
    assert_eq!(rec.by_outcome.get(1), Some(0));
    let r = VeridexOracle::claim_winnings(&t.stored_market(id), Some(rec));
    assert_eq!(refusal(r), OracleError::NoStake);
}

#[test]
fn sole_winner_takes_total_stake() {
    let mut t = setup();
    let id = t.create_market("four ways", 2_000_000, 4);
    let w = t.generate();
    let others = [t.generate(), t.generate(), t.generate()];
    t.stake(id, &w, 2, 10);
    t.stake(id, &others[0], 0, 20);
    t.stake(id, &others[1], 1, 30);
    t.stake(id, &others[2], 3, 40);
    t.resolve_market(id, 2);
    assert_eq!(t.claim_winnings(id, &w), 100);
}

#[test]
fn market_state_clones() {
    let mut t = setup();
    let id = make_market(&mut t);
    let m = t.get_market_state(id);
    let c = m.clone();
    assert_eq!(c.market_id, m.market_id);
    assert_eq!(c.outcome_stakes, m.outcome_stakes);
}

#[test]
fn error_messages_match_contract_panics() {
    assert_eq!(OracleError::AlreadyInitialized.message(), "already initialized");
    assert_eq!(OracleError::NotInitialized.message(), "contract not initialized");
    assert_eq!(OracleError::TooFewOutcomes.message(), "market must have at least 2 outcomes");
    assert_eq!(OracleError::CloseTimeNotInFuture.message(), "close_time must be in the future");
    assert_eq!(OracleError::AmountNotPositive.message(), "amount must be positive");
    assert_eq!(OracleError::MarketNotFound.message(), "market not found");
    assert_eq!(OracleError::MarketNotOpen.message(), "market is not open");
    assert_eq!(OracleError::StakingClosed.message(), "staking period has closed");
    assert_eq!(OracleError::InvalidOutcome.message(), "invalid outcome index");
    assert_eq!(OracleError::AlreadySettled.message(), "market already resolved or voided");
    assert_eq!(OracleError::NotYetResolved.message(), "market is not yet resolved");
    assert_eq!(OracleError::NoStake.message(), "no stake found for participant");
    assert_eq!(OracleError::MissingWinningOutcome.message(), "resolved market must have outcome");
    assert_eq!(OracleError::NoWinningStake.message(), "no stakes on winning outcome");
    assert_eq!(OracleError::PayoutOverflow.message(), "overflow in payout calculation");
    assert_eq!(OracleError::PayoutDivision.message(), "division by zero in payout");
    assert_eq!(OracleError::ArithmeticOverflow.message(), "attempt to add with overflow");
    assert_eq!(OracleError::PoolOutOfBounds.message(), "index out of bounds");
}

#[test]
fn market_ttl_is_about_a_year_of_ledgers() {
    assert_eq!(veridex_oracle::MARKET_TTL_LEDGERS, 6_307_200);
}

#[test]
fn refunds_return_total_stake() {
    let mut t = setup();
    let id = t.create_market("three ways", 2_000_000, 3);
    let ps = [t.generate(), t.generate(), t.generate()];
    t.stake(id, &ps[0], 0, 10);
    t.stake(id, &ps[1], 1, 20);
    t.stake(id, &ps[1], 2, 5);
    t.stake(id, &ps[2], 2, 65);
    t.void_market(id);
    let mut refunded = 0;
    for p in ps.iter() {
        refunded += t.claim_winnings(id, p);
    }
    assert_eq!(refunded, t.get_market_state(id).total_stake);
    assert_eq!(refunded, 100);
}

#[test]
fn lookups_find_exactly_the_created_ids() {
    let mut t = setup();
    make_market(&mut t);
    make_market(&mut t);
    assert_eq!(t.next_id(), 2);
    assert_eq!(t.get_market_state(0).market_id, 0);
    assert_eq!(t.get_market_state(1).market_id, 1);
    assert_eq!(refusal(VeridexOracle::get_market_state(t.stored_market(2))), OracleError::MarketNotFound);
}
