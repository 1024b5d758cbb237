use prediction_market::claim_lp_fees::claim_lp_fees;
use prediction_market::claim_payout::claim_payout;
use prediction_market::create_market::{create_market, MIN_LIQUIDITY};
use prediction_market::errors::ErrorCode;
use prediction_market::fees::split_fees;
use prediction_market::initialize::initialize_protocol;
use prediction_market::place_bet::place_bet;
use prediction_market::resolve_market::resolve_market;
use prediction_market::state::{GlobalState, Market, MarketState, Position};

fn question() -> [u8; 200] {
    let mut q = [0u8; 200];
    q[0] = b'W';
    q[1] = b'?';
    q
}

#[test]
fn protocol_initialization_records_everything() {
    let gs = initialize_protocol(300, 42, 43);
    assert_eq!(
        gs,
        GlobalState { market_counter: 0, fee_rate: 300, protocol_treasury: 42, admin: 43 }
    );
}

#[test]
fn market_creation_splits_liquidity_evenly() {
    let mut gs = initialize_protocol(300, 42, 43);
    let (market, lp) =
        create_market(&mut gs, 7, 1, question(), 2_000_000_000, 1_000, 500).unwrap();
    assert_eq!(gs.market_counter, 1);
    assert_eq!(market.market_id, 1);
    assert_eq!(market.creator, 7);
    assert_eq!(market.resolver, 7);
    assert_eq!(market.yes_pool, 1_000_000_000);
    assert_eq!(market.no_pool, 1_000_000_000);
    assert_eq!(market.total_liquidity, 2_000_000_000);
    assert_eq!(market.state, MarketState::Active);
    assert_eq!(market.outcome, None);
    assert_eq!(market.close_time, 1_000);
    assert_eq!(market.resolution_time, None);
    assert_eq!(lp.lp_provider, 7);
    assert_eq!(lp.market, 1);
    assert_eq!(lp.liquidity_provided, 2_000_000_000);
    assert_eq!(lp.fees_earned, 0);
    assert!(!lp.fees_claimed);
    assert_eq!(lp.fees_claimed_amount, 0);
}

#[test]
fn odd_initial_liquidity_drops_one_unit_into_neither_pool() {
    let mut gs = initialize_protocol(300, 42, 43);
    let (market, _) =
        create_market(&mut gs, 7, 1, question(), MIN_LIQUIDITY + 1, 1_000, 500).unwrap();
    assert_eq!(market.yes_pool, MIN_LIQUIDITY / 2);
    assert_eq!(market.no_pool, MIN_LIQUIDITY / 2);
    assert_eq!(market.total_liquidity, MIN_LIQUIDITY + 1);
}

#[test]
fn fee_split_thirty_basis_points_on_one_thousand() {
    // 3% of 1000: total 30, protocol 6, provider 24, net 970.
    let s = split_fees(1000, 300);
    assert_eq!(s.total_fee, 30);
    assert_eq!(s.protocol_fee, 6);
    assert_eq!(s.lp_fee, 24);
    assert_eq!(s.net_bet, 970);
}

#[test]
fn fee_split_flooring_can_lose_a_unit() {
    // total 7: protocol floor(1.4) = 1, provider floor(5.6) = 5; one unit
    // of the fee stays in escrow.
    let s = split_fees(700, 100);
    assert_eq!(s.total_fee, 7);
    assert_eq!(s.protocol_fee, 1);
    assert_eq!(s.lp_fee, 5);
    assert_eq!(s.net_bet, 693);
}

#[test]
fn fee_split_zero_rate_charges_nothing() {
    let s = split_fees(1000, 0);
    assert_eq!(s.total_fee, 0);
    assert_eq!(s.protocol_fee, 0);
    assert_eq!(s.lp_fee, 0);
    assert_eq!(s.net_bet, 1000);
}

#[test]
fn fee_split_full_rate_takes_everything() {
    let s = split_fees(1000, 10_000);
    assert_eq!(s.total_fee, 1000);
    assert_eq!(s.net_bet, 0);
}

#[test]
fn bet_updates_pools_fees_and_position() {
    let mut gs = initialize_protocol(300, 42, 43);
    let (mut market, mut lp) =
        create_market(&mut gs, 7, 1, question(), 2_000_000_000, 1_000, 500).unwrap();
    let mut pos = Position::new(9, market.market_id);
    let receipt = place_bet(&gs, &mut market, &mut lp, &mut pos, 9, true, 1000, 600).unwrap();
    assert_eq!(receipt.protocol_fee, 6);
    assert_eq!(receipt.lp_fee, 24);
    assert_eq!(receipt.net_bet, 970);
    // yes pool's share of both pools before the bet: one half.
    assert_eq!(receipt.entry_odds, 500_000_000);
    assert_eq!(market.yes_pool, 1_000_000_970);
    assert_eq!(market.no_pool, 1_000_000_000);
    assert_eq!(market.total_liquidity, 2_000_000_970);
    assert_eq!(lp.fees_earned, 24);
    assert_eq!(pos.user, 9);
    assert_eq!(pos.market, market.market_id);
    assert!(pos.side);
    assert_eq!(pos.amount, 970);
    assert_eq!(pos.entry_odds, 500_000_000);
    assert!(!pos.claimed);
}

#[test]
fn conservation_over_a_sequence_of_bets() {
    let mut gs = initialize_protocol(250, 42, 43);
    let initial = 2_000_000_000u64;
    let (mut market, mut lp) = create_market(&mut gs, 7, 1, question(), initial, 1_000, 500).unwrap();
    let mut positions = [Position::new(10, 1), Position::new(11, 1), Position::new(12, 1)];
    let bets: [(usize, bool, u64); 5] =
        [(0, true, 40_000), (1, false, 9_999), (2, true, 123), (0, true, 7), (1, false, 1_000_000)];
    let mut net_sum = 0u64;
    for &(who, side, amount) in bets.iter() {
        let receipt =
            place_bet(&gs, &mut market, &mut lp, &mut positions[who], 10 + who as u64, side, amount, 600)
                .unwrap();
        net_sum += receipt.net_bet;
    }
    assert_eq!(market.total_liquidity, initial + net_sum);
    assert_eq!(market.yes_pool + market.no_pool, market.total_liquidity);
}

#[test]
fn repeated_bets_merge_into_one_position_and_keep_entry_odds() {
    let mut gs = initialize_protocol(0, 42, 43);
    let (mut market, mut lp) =
        create_market(&mut gs, 7, 1, question(), 2_000_000_000, 1_000, 500).unwrap();
    let mut pos = Position::new(9, 1);
    let first = place_bet(&gs, &mut market, &mut lp, &mut pos, 9, false, 500, 600).unwrap();
    let _ = place_bet(&gs, &mut market, &mut lp, &mut pos, 9, false, 700, 601).unwrap();
    assert_eq!(pos.amount, 1200);
    assert!(!pos.side);
    // The odds of the first bet are kept; later bets do not overwrite them.
    assert_eq!(pos.entry_odds, first.entry_odds);
}

#[test]
fn entry_odds_reflect_the_pool_shares_before_the_bet() {
    let gs = initialize_protocol(0, 42, 43);
    let mut market = Market {
        market_id: 1,
        question: question(),
        creator: 7,
        resolver: 7,
        yes_pool: 600,
        no_pool: 400,
        total_liquidity: 1_000,
        state: MarketState::Active,
        outcome: None,
        close_time: 1_000,
        resolution_time: None,
    };
    let mut lp = prediction_market::state::LPPosition {
        lp_provider: 7,
        market: 1,
        liquidity_provided: 1_000,
        fees_earned: 0,
        fees_claimed: false,
        fees_claimed_amount: 0,
    };
    let mut pos = Position::new(9, 1);
    let receipt = place_bet(&gs, &mut market, &mut lp, &mut pos, 9, false, 100, 600).unwrap();
    // The NO pool held 400 of 1000 before the bet: odds 0.4, scaled by 10^9.
    assert_eq!(receipt.entry_odds, 400_000_000);
    assert_eq!(market.no_pool, 500);
    assert_eq!(market.yes_pool, 600);
}

#[test]
fn resolution_records_outcome_and_time() {
    let mut gs = initialize_protocol(300, 42, 43);
    let (mut market, _) =
        create_market(&mut gs, 7, 1, question(), 2_000_000_000, 1_000, 500).unwrap();
    resolve_market(&mut market, 7, true, 1_001).unwrap();
    assert_eq!(market.state, MarketState::Resolved);
    assert_eq!(market.outcome, Some(true));
    assert_eq!(market.resolution_time, Some(1_001));
    // Pools are frozen by resolution.
    assert_eq!(market.yes_pool, 1_000_000_000);
    assert_eq!(market.no_pool, 1_000_000_000);
}

#[test]
fn winning_claim_pays_stake_plus_share_of_losing_pool() {
    // yes pool 600, no pool 400, outcome YES: a stake of 100 receives
    // 100 + floor(100 * 400 / 600) = 166.
    let market = Market {
        market_id: 1,
        question: question(),
        creator: 7,
        resolver: 7,
        yes_pool: 600,
        no_pool: 400,
        total_liquidity: 1_000,
        state: MarketState::Resolved,
        outcome: Some(true),
        close_time: 1_000,
        resolution_time: Some(1_001),
    };
    let mut pos = Position { user: 9, market: 1, side: true, amount: 100, entry_odds: 0, claimed: false };
    let payout = claim_payout(&market, &mut pos).unwrap();
    assert_eq!(payout, 166);
    assert!(pos.claimed);
    assert_eq!(pos.amount, 100);
}

#[test]
fn losing_claim_fails_and_marks_nothing() {
    let market = Market {
        market_id: 1,
        question: question(),
        creator: 7,
        resolver: 7,
        yes_pool: 600,
        no_pool: 400,
        total_liquidity: 1_000,
        state: MarketState::Resolved,
        outcome: Some(true),
        close_time: 1_000,
        resolution_time: Some(1_001),
    };
    let mut pos = Position { user: 9, market: 1, side: false, amount: 400, entry_odds: 0, claimed: false };
    assert_eq!(claim_payout(&market, &mut pos), Err(ErrorCode::PositionLost));
    assert!(!pos.claimed);
}

#[test]
fn second_payout_claim_fails_with_already_claimed() {
    let market = Market {
        market_id: 1,
        question: question(),
        creator: 7,
        resolver: 7,
        yes_pool: 600,
        no_pool: 400,
        total_liquidity: 1_000,
        state: MarketState::Resolved,
        outcome: Some(true),
        close_time: 1_000,
        resolution_time: Some(1_001),
    };
    let mut pos = Position { user: 9, market: 1, side: true, amount: 100, entry_odds: 0, claimed: false };
    claim_payout(&market, &mut pos).unwrap();
    assert_eq!(claim_payout(&market, &mut pos), Err(ErrorCode::AlreadyClaimed));
    assert!(pos.claimed);
    assert_eq!(pos.amount, 100);
}

#[test]
fn whole_losing_pool_is_distributed_to_winners() {
    // Two winners with stakes 100 and 500 against a losing pool of 400:
    // floor(100*400/600) + floor(500*400/600) = 66 + 333, one unit of
    // rounding dust stays in escrow.
    let market = Market {
        market_id: 1,
        question: question(),
        creator: 7,
        resolver: 7,
        yes_pool: 600,
        no_pool: 400,
        total_liquidity: 1_000,
        state: MarketState::Resolved,
        outcome: Some(true),
        close_time: 1_000,
        resolution_time: Some(1_001),
    };
    let mut a = Position { user: 9, market: 1, side: true, amount: 100, entry_odds: 0, claimed: false };
    let mut b = Position { user: 10, market: 1, side: true, amount: 500, entry_odds: 0, claimed: false };
    let pa = claim_payout(&market, &mut a).unwrap();
    let pb = claim_payout(&market, &mut b).unwrap();
    assert_eq!(pa - a.amount + (pb - b.amount), 399);
}

#[test]
fn lp_fee_claim_empties_the_accrued_balance_once() {
    let mut gs = initialize_protocol(300, 42, 43);
    let (mut market, mut lp) =
        create_market(&mut gs, 7, 1, question(), 2_000_000_000, 1_000, 500).unwrap();
    let mut pos = Position::new(9, 1);
    place_bet(&gs, &mut market, &mut lp, &mut pos, 9, true, 1000, 600).unwrap();
    assert_eq!(lp.fees_earned, 24);
    let claimed = claim_lp_fees(&mut lp).unwrap();
    assert_eq!(claimed, 24);
    assert_eq!(lp.fees_earned, 0);
    assert!(lp.fees_claimed);
    assert_eq!(lp.fees_claimed_amount, 24);
    assert_eq!(claim_lp_fees(&mut lp), Err(ErrorCode::NoFeesToClaim));
    assert_eq!(lp.fees_claimed_amount, 24);
}

#[test]
fn claimed_fee_total_accumulates_across_rounds() {
    let mut gs = initialize_protocol(300, 42, 43);
    let (mut market, mut lp) =
        create_market(&mut gs, 7, 1, question(), 2_000_000_000, 1_000, 500).unwrap();
    let mut pos = Position::new(9, 1);
    place_bet(&gs, &mut market, &mut lp, &mut pos, 9, true, 1000, 600).unwrap();
    claim_lp_fees(&mut lp).unwrap();
    place_bet(&gs, &mut market, &mut lp, &mut pos, 9, true, 2000, 601).unwrap();
    assert_eq!(lp.fees_earned, 48);
    claim_lp_fees(&mut lp).unwrap();
    assert_eq!(lp.fees_claimed_amount, 72);
    assert_eq!(lp.fees_earned, 0);
}
