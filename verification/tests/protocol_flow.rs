use cyper_v0::{
    create_market_handler, initialize_handler, place_bet_handler, Bet, BetData, CyperMarket,
    ErrorCode, Market, MarketOpening, MarketCategory, MarketData, MarketStatus, MarketType, Pubkey,
};

fn key(byte: u8) -> Pubkey {
    Pubkey::new_from_array([byte; 32])
}

fn zeroed_protocol() -> CyperMarket {
    CyperMarket {
        bump: 0,
        authority: key(0),
        treasury: key(0),
        default_protocol_fee_bps: 0,
        default_creator_bond: 0,
        market_count: 0,
    }
}

fn zeroed_market() -> Market {
    Market {
        bump: 0,
        creator: key(0),
        market_index: 0,
        user_bet_index: 0,
        market_type: MarketType::YesNo,
        category: MarketCategory::Crypto,
        status: MarketStatus::Open,
        question: String::new(),
        creator_bond: 0,
        lp_fee_bps: None,
        protocol_fee_bps: 0,
        resolution_deadline: 0,
        created_at: 0,
        total_bets: 0,
        vault: key(0),
        token_mint: key(0),
        market_group: None,
        total_liquidity: 0,
        market_data: MarketData::NoData,
    }
}

fn zeroed_bet() -> Bet {
    Bet {
        bump: 0,
        bettor: key(0),
        market: key(0),
        bet_index: 0,
        created_at: 0,
        claimed: false,
        amount: 0,
        bet_data: BetData::YesNo { direction: false },
    }
}

const ADMIN: u8 = 1;
const TREASURY: u8 = 2;
const MINT: u8 = 3;
const USER: u8 = 4;
const MARKET_KEY: u8 = 5;

fn done(bond_transfer: Option<u64>) -> Result<MarketOpening, ErrorCode> {
    Ok(MarketOpening { bond_transfer, outcome: Ok(()) })
}

fn protocol(fee: u16, bond: u64) -> CyperMarket {
    let mut cm = zeroed_protocol();
    initialize_handler(&mut cm, 254, key(ADMIN), key(TREASURY), fee, bond);
    cm
}

fn open(
    cm: &mut CyperMarket,
    creator: u8,
    question: &str,
    market_type: MarketType,
    lp: Option<u16>,
) -> (Result<MarketOpening, ErrorCode>, Market) {
    let mut m = zeroed_market();
    let r = create_market_handler(
        cm,
        &mut m,
        key(creator),
        7,
        key(MINT),
        1_700_000_000,
        question.to_string(),
        0,
        market_type,
        MarketCategory::Sports,
        lp,
        1_800_000_000,
        None,
        MarketData::NoData,
    );
    (r, m)
}

fn bet_on(
    m: &mut Market,
    amount: u64,
    data: BetData,
    now: i64,
) -> (Result<u64, ErrorCode>, Bet) {
    let mut b = zeroed_bet();
    let r = place_bet_handler(m, &mut b, key(USER), key(MARKET_KEY), 9, key(MINT), now, amount, data);
    (r, b)
}

#[test]
fn test_initialize_and_create_market() {
    let admin = key(10);
    let mint = key(11);
    let treasury_ata = key(12);
    let mut cm = zeroed_protocol();
    initialize_handler(&mut cm, 255, admin, treasury_ata, 50, 100);
    assert_eq!(cm.default_protocol_fee_bps, 50);
    assert_eq!(cm.default_creator_bond, 100);
    assert_eq!(cm.market_count, 0);

    let mut market = zeroed_market();
    let res2 = create_market_handler(
        &mut cm,
        &mut market,
        admin,
        254,
        mint,
        1_700_000_000,
        "Will Bitcoin hit 100k?".to_string(),
        0,
        MarketType::YesNo,
        MarketCategory::Crypto,
        Some(10),
        1800000000,
        None,
        MarketData::NoData,
    );
    assert!(res2.is_ok());
    // The admin posts no bond, so nothing is transferred.
    assert_eq!(res2, done(None));
    assert_eq!(market.market_index, 0);
    assert_eq!(cm.market_count, 1);

    let better = key(13);
    let mut bet = zeroed_bet();
    let res3 = place_bet_handler(
        &mut market,
        &mut bet,
        better,
        key(14),
        253,
        mint,
        1_700_000_001,
        1000,
        BetData::YesNo { direction: true },
    );
    assert_eq!(res3, Ok(1000));
    assert_eq!(bet.bettor, better);
    assert_eq!(bet.bet_index, 0);
    assert_eq!(market.total_liquidity, 1000);
}

#[test]
fn initialize_sets_every_field() {
    let mut cm = CyperMarket {
        bump: 9,
        authority: key(9),
        treasury: key(9),
        default_protocol_fee_bps: 9,
        default_creator_bond: 9,
        market_count: 9,
    };
    initialize_handler(&mut cm, 200, key(ADMIN), key(TREASURY), 75, 500);
    assert_eq!(
        cm,
        CyperMarket {
            bump: 200,
            authority: key(ADMIN),
            treasury: key(TREASURY),
            default_protocol_fee_bps: 75,
            default_creator_bond: 500,
            market_count: 0,
        }
    );
}

#[test]
fn first_layout_handler_keeps_bump() {
    let mut cm = cyper_v0::state::CyperMarket {
        bump: 42,
        authority: key(9),
        treasury: key(9),
        default_protocol_fee_bps: 9,
        market_count: 9,
    };
    cyper_v0::instructions::initialize::handler(&mut cm, key(ADMIN), key(TREASURY), 30);
    assert_eq!(cm.bump, 42);
    assert_eq!(cm.authority, key(ADMIN));
    assert_eq!(cm.treasury, key(TREASURY));
    assert_eq!(cm.default_protocol_fee_bps, 30);
    assert_eq!(cm.market_count, 0);
}

#[test]
fn admin_market_has_no_bond_and_full_fee() {
    let mut cm = protocol(50, 100);
    let (r, m) = open(&mut cm, ADMIN, "Q?", MarketType::YesNo, Some(10));
    assert_eq!(r, done(None));
    assert_eq!(m.creator_bond, 0);
    assert_eq!(m.protocol_fee_bps, 50);
    assert_eq!(m.creator, key(ADMIN));
    assert_eq!(m.status, MarketStatus::Open);
    assert_eq!(m.question, "Q?");
    assert_eq!(m.bump, 7);
    assert_eq!(m.token_mint, key(MINT));
    assert_eq!(m.created_at, 1_700_000_000);
    assert_eq!(m.resolution_deadline, 1_800_000_000);
    assert_eq!(m.lp_fee_bps, Some(10));
    assert_eq!(m.category, MarketCategory::Sports);
    assert_eq!(m.total_bets, 0);
    assert_eq!(m.user_bet_index, 0);
}

#[test]
fn other_creator_posts_bond_and_half_fee() {
    let mut cm = protocol(51, 100);
    let (r, m) = open(&mut cm, USER, "Q?", MarketType::MultiOutcome, Some(1));
    assert_eq!(r, done(Some(100)));
    assert_eq!(m.creator_bond, 100);
    assert_eq!(m.protocol_fee_bps, 25);
}

#[test]
fn zero_bond_is_not_transferred() {
    let mut cm = protocol(50, 0);
    let (r, m) = open(&mut cm, USER, "Q?", MarketType::YesNo, Some(3));
    assert_eq!(r, done(None));
    assert_eq!(m.creator_bond, 0);
}

#[test]
fn market_keeps_vault_and_liquidity_of_the_fresh_account() {
    let mut cm = protocol(50, 0);
    let mut m = zeroed_market();
    m.vault = key(77);
    m.total_liquidity = 5;
    let r = create_market_handler(
        &mut cm, &mut m, key(ADMIN), 1, key(MINT), 0, "x".to_string(), 0,
        MarketType::YesNo, MarketCategory::Tech, Some(1), 10, Some(key(88)), MarketData::NoData,
    );
    assert_eq!(r, done(None));
    assert_eq!(m.vault, key(77));
    assert_eq!(m.total_liquidity, 5);
    assert_eq!(m.market_group, Some(key(88)));
}

#[test]
fn question_of_two_hundred_bytes_is_accepted() {
    let mut cm = protocol(50, 0);
    let q = "a".repeat(200);
    let (r, _) = open(&mut cm, ADMIN, &q, MarketType::YesNo, Some(1));
    assert!(r.is_ok());
}

#[test]
fn question_too_long_is_refused_and_changes_nothing() {
    let mut cm = protocol(50, 0);
    let before = cm;
    let mut m = zeroed_market();
    let r = create_market_handler(
        &mut cm, &mut m, key(ADMIN), 1, key(MINT), 0, "a".repeat(201), 0,
        MarketType::YesNo, MarketCategory::Tech, Some(1), 10, None, MarketData::NoData,
    );
    assert_eq!(r, Err(ErrorCode::QuestionTooLong));
    assert_eq!(cm, before);
    assert_eq!(m, zeroed_market());
}

#[test]
fn question_length_counts_bytes_not_characters() {
    let mut cm = protocol(50, 0);
    // Each euro sign takes three bytes.
    let (r, _) = open(&mut cm, ADMIN, &"\u{20ac}".repeat(66), MarketType::YesNo, Some(1));
    assert!(r.is_ok());
    let (r, _) = open(&mut cm, ADMIN, &"\u{20ac}".repeat(67), MarketType::YesNo, Some(1));
    assert_eq!(r, Err(ErrorCode::QuestionTooLong));
}

#[test]
fn accuracy_market_refuses_lp_fee() {
    let mut cm = protocol(50, 0);
    let t = MarketType::Accuracy { fixed_price: 10 };
    let (r, _) = open(&mut cm, ADMIN, "Q", t, Some(5));
    assert_eq!(r, Err(ErrorCode::NoLpsInAccuracyMarkets));
    assert_eq!(cm.market_count, 0);
    let (r, _) = open(&mut cm, ADMIN, "Q", t, Some(0));
    assert!(r.is_ok());
    let (r, m) = open(&mut cm, ADMIN, "Q", t, None);
    assert!(r.is_ok());
    assert_eq!(m.market_type, t);
}

#[test]
fn standard_markets_require_lp_fee() {
    let mut cm = protocol(50, 0);
    let (r, _) = open(&mut cm, ADMIN, "Q", MarketType::YesNo, None);
    assert_eq!(r, Err(ErrorCode::LpFeeRequired));
    let (r, _) = open(&mut cm, ADMIN, "Q", MarketType::MultiOutcome, Some(0));
    assert_eq!(r, Err(ErrorCode::LpFeeRequired));
    assert_eq!(cm.market_count, 0);
}

#[test]
fn question_is_checked_before_lp_fee() {
    let mut cm = protocol(50, 0);
    let (r, _) = open(&mut cm, ADMIN, &"b".repeat(300), MarketType::YesNo, None);
    assert_eq!(r, Err(ErrorCode::QuestionTooLong));
}

#[test]
fn market_count_overflow_fails_after_the_bond_transfer() {
    let mut cm = protocol(50, 100);
    cm.market_count = u64::MAX;
    let (r, m) = open(&mut cm, ADMIN, "Q", MarketType::YesNo, Some(1));
    assert_eq!(
        r,
        Ok(MarketOpening { bond_transfer: None, outcome: Err(ErrorCode::MarketCountOverflow) })
    );
    assert_eq!(cm.market_count, u64::MAX);
    assert_eq!(m.market_index, u64::MAX);

    // A creator who owes a bond has it moved before the instruction fails.
    let (r, _) = open(&mut cm, USER, "Q", MarketType::YesNo, Some(1));
    assert_eq!(
        r,
        Ok(MarketOpening {
            bond_transfer: Some(100),
            outcome: Err(ErrorCode::MarketCountOverflow),
        })
    );
    assert_eq!(cm.market_count, u64::MAX);

    // The question is still checked first.
    let (r, m) = open(&mut cm, USER, &"q".repeat(201), MarketType::YesNo, Some(1));
    assert_eq!(r, Err(ErrorCode::QuestionTooLong));
    assert_eq!(m, zeroed_market());
}

#[test]
fn refused_openings_take_no_index() {
    let mut cm = protocol(50, 0);
    let (r, a) = open(&mut cm, USER, "Q", MarketType::YesNo, Some(1));
    assert!(r.is_ok());
    let (r, _) = open(&mut cm, USER, "Q", MarketType::YesNo, None);
    assert_eq!(r, Err(ErrorCode::LpFeeRequired));
    let (r, b) = open(&mut cm, USER, "Q", MarketType::Accuracy { fixed_price: 2 }, None);
    assert!(r.is_ok());
    assert_eq!((a.market_index, b.market_index, cm.market_count), (0, 1, 2));
}

#[test]
fn markets_get_consecutive_indices() {
    let mut cm = protocol(50, 0);
    for i in 0..3u64 {
        let (r, m) = open(&mut cm, USER, "Q", MarketType::YesNo, Some(1));
        assert!(r.is_ok());
        assert_eq!(m.market_index, i);
        assert_eq!(cm.market_count, i + 1);
    }
}

fn open_market(market_type: MarketType, lp: Option<u16>) -> Market {
    let mut cm = protocol(50, 0);
    let (r, m) = open(&mut cm, ADMIN, "Q", market_type, lp);
    assert!(r.is_ok());
    m
}

#[test]
fn bet_records_everything() {
    let mut m = open_market(MarketType::YesNo, Some(1));
    let (r, b) = bet_on(&mut m, 40, BetData::YesNo { direction: false }, 5);
    assert_eq!(r, Ok(40));
    assert_eq!(
        b,
        Bet {
            bump: 9,
            bettor: key(USER),
            market: key(MARKET_KEY),
            bet_index: 0,
            created_at: 5,
            claimed: false,
            amount: 40,
            bet_data: BetData::YesNo { direction: false },
        }
    );
    assert_eq!(m.user_bet_index, 1);
    assert_eq!(m.total_bets, 1);
    assert_eq!(m.total_liquidity, 40);
}

#[test]
fn liquidity_is_the_sum_of_stakes() {
    let mut m = open_market(MarketType::MultiOutcome, Some(1));
    let stakes = [5u64, 17, 1, 300];
    let mut moved = 0u64;
    for (i, s) in stakes.iter().enumerate() {
        let (r, b) = bet_on(&mut m, *s, BetData::MultiOutcome { outcome_index: 2 }, 0);
        moved += r.unwrap();
        assert_eq!(b.bet_index, i as u64);
    }
    assert_eq!(m.total_liquidity, 323);
    assert_eq!(moved, 323);
    assert_eq!(m.total_bets, 4);
    assert_eq!(m.user_bet_index, 4);
}

#[test]
fn wrong_mint_is_refused_first() {
    let mut m = open_market(MarketType::YesNo, Some(1));
    m.status = MarketStatus::Settled;
    let before = m.clone();
    let mut b = zeroed_bet();
    let r = place_bet_handler(&mut m, &mut b, key(USER), key(MARKET_KEY), 9, key(99), 0, 10, BetData::YesNo { direction: true });
    assert_eq!(r, Err(ErrorCode::InvalidMint));
    assert_eq!(m, before);
    assert_eq!(b, zeroed_bet());
}

#[test]
fn closed_market_refuses_bets() {
    for status in [MarketStatus::Locked, MarketStatus::Settled, MarketStatus::Voided] {
        let mut m = open_market(MarketType::YesNo, Some(1));
        m.status = status;
        let (r, _) = bet_on(&mut m, 10, BetData::YesNo { direction: true }, 0);
        assert_eq!(r, Err(ErrorCode::MarketNotOpen));
        assert_eq!(m.total_liquidity, 0);
    }
}

#[test]
fn bet_at_the_deadline_is_refused() {
    let mut m = open_market(MarketType::YesNo, Some(1));
    let (r, _) = bet_on(&mut m, 10, BetData::YesNo { direction: true }, 1_800_000_000);
    assert_eq!(r, Err(ErrorCode::InvalidBettingWindow));
    let (r, _) = bet_on(&mut m, 10, BetData::YesNo { direction: true }, 1_799_999_999);
    assert_eq!(r, Ok(10));
}

#[test]
fn zero_stake_is_refused() {
    let mut m = open_market(MarketType::YesNo, Some(1));
    let (r, _) = bet_on(&mut m, 0, BetData::YesNo { direction: true }, 0);
    assert_eq!(r, Err(ErrorCode::InvalidBetAmount));
    let mut m = open_market(MarketType::MultiOutcome, Some(1));
    let (r, _) = bet_on(&mut m, 0, BetData::MultiOutcome { outcome_index: 0 }, 0);
    assert_eq!(r, Err(ErrorCode::InvalidBetAmount));
}

#[test]
fn accuracy_entry_costs_the_fixed_price() {
    let mut m = open_market(MarketType::Accuracy { fixed_price: 25 }, None);
    let (r, _) = bet_on(&mut m, 24, BetData::Accuracy { predicted_value: 7 }, 0);
    assert_eq!(r, Err(ErrorCode::InvalidBetAmount));
    let (r, b) = bet_on(&mut m, 25, BetData::Accuracy { predicted_value: 7 }, 0);
    assert_eq!(r, Ok(25));
    assert_eq!(b.bet_data, BetData::Accuracy { predicted_value: 7 });
    let mut free = open_market(MarketType::Accuracy { fixed_price: 0 }, None);
    let (r, _) = bet_on(&mut free, 0, BetData::Accuracy { predicted_value: 1 }, 0);
    assert_eq!(r, Ok(0));
}

#[test]
fn prediction_of_another_kind_is_refused() {
    let mut m = open_market(MarketType::YesNo, Some(1));
    let (r, _) = bet_on(&mut m, 10, BetData::MultiOutcome { outcome_index: 1 }, 0);
    assert_eq!(r, Err(ErrorCode::MarketTypeMismatch));
    let mut m = open_market(MarketType::Accuracy { fixed_price: 3 }, None);
    let (r, _) = bet_on(&mut m, 3, BetData::YesNo { direction: true }, 0);
    assert_eq!(r, Err(ErrorCode::MarketTypeMismatch));
}

#[test]
fn counter_overflow_is_refused_and_changes_nothing() {
    let mut m = open_market(MarketType::YesNo, Some(1));
    m.total_liquidity = u64::MAX - 5;
    let before = m.clone();
    let (r, b) = bet_on(&mut m, 6, BetData::YesNo { direction: true }, 0);
    assert_eq!(r, Err(ErrorCode::MarketCountOverflow));
    assert_eq!(m, before);
    assert_eq!(b, zeroed_bet());
    let (r, _) = bet_on(&mut m, 5, BetData::YesNo { direction: true }, 0);
    assert_eq!(r, Ok(5));
    assert_eq!(m.total_liquidity, u64::MAX);

    let mut m = open_market(MarketType::YesNo, Some(1));
    m.user_bet_index = u64::MAX;
    m.total_bets = u64::MAX;
    let (r, _) = bet_on(&mut m, 1, BetData::YesNo { direction: true }, 0);
    assert_eq!(r, Err(ErrorCode::MarketCountOverflow));
}

#[test]
fn keys_compare_by_bytes() {
    let mut bytes = [4u8; 32];
    assert!(Pubkey::new_from_array(bytes) == key(4));
    bytes[31] = 5;
    assert!(Pubkey::new_from_array(bytes) != key(4));
    assert_eq!(Pubkey::new_from_array(bytes).to_bytes(), bytes);
}

#[test]
fn accuracy_liquidity_is_price_times_entries() {
    let mut m = open_market(MarketType::Accuracy { fixed_price: 12 }, None);
    for _ in 0..5 {
        let (r, _) = bet_on(&mut m, 12, BetData::Accuracy { predicted_value: 3 }, 0);
        assert_eq!(r, Ok(12));
        // Refused entries leave the market as it was.
        let (r, _) = bet_on(&mut m, 11, BetData::Accuracy { predicted_value: 3 }, 0);
        assert_eq!(r, Err(ErrorCode::InvalidBetAmount));
    }
    assert_eq!(m.total_bets, 5);
    assert_eq!(m.user_bet_index, 5);
    assert_eq!(m.total_liquidity, 12 * 5);
    assert_eq!(m.status, MarketStatus::Open);
}

#[test]
fn refused_bets_take_no_index() {
    let mut m = open_market(MarketType::YesNo, Some(1));
    let (r, first) = bet_on(&mut m, 3, BetData::YesNo { direction: true }, 0);
    assert_eq!(r, Ok(3));
    let (r, _) = bet_on(&mut m, 3, BetData::MultiOutcome { outcome_index: 0 }, 0);
    assert_eq!(r, Err(ErrorCode::MarketTypeMismatch));
    let (r, second) = bet_on(&mut m, 4, BetData::YesNo { direction: false }, 0);
    assert_eq!(r, Ok(4));
    assert_eq!((first.bet_index, second.bet_index), (0, 1));
    assert_eq!(m.total_liquidity, 7);
}
