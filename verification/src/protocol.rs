//! The instructions of the protocol as transitions over its accounts.
//!
//! Each instruction either is refused with an `ErrorCode` and leaves every account
//! as it was, or succeeds, changes the accounts as described below, and reports the
//! token transfer that completes it.
use vstd::prelude::*;
use vstd::utf8::encode_utf8;
use crate::error::ErrorCode;
use crate::key::Pubkey;
use crate::types::{Bet, BetData, CyperMarket, Market, MarketCategory, MarketData, MarketStatus, MarketType};

verus! {

/// The longest question a market may carry, in bytes.
pub const MAX_QUESTION_LEN: usize = 200;

// ---------------------------------------------------------------------------
// Setting up the protocol

/// The protocol account right after set-up: no market has been created yet.
pub open spec fn initialized_protocol(
    bump: u8,
    authority: Pubkey,
    treasury: Pubkey,
    fee: u16,
    creator_bond: u64,
) -> CyperMarket {
    CyperMarket {
        bump,
        authority,
        treasury,
        default_protocol_fee_bps: fee,
        default_creator_bond: creator_bond,
        market_count: 0,
    }
}

/// Sets up the protocol account: `authority` becomes the admin, `treasury` the fee
/// wallet, and `fee` and `creator_bond` the defaults for new markets.
pub fn initialize_handler(
    market: &mut CyperMarket,
    bump: u8,
    authority: Pubkey,
    treasury: Pubkey,
    fee: u16,
    creator_bond: u64,
)
    ensures
        *final(market) == initialized_protocol(bump, authority, treasury, fee, creator_bond),
{
    market.bump = bump;
    market.authority = authority;
    market.treasury = treasury;
    market.default_protocol_fee_bps = fee;
    market.default_creator_bond = creator_bond;
    market.market_count = 0;
}

// ---------------------------------------------------------------------------
// Opening a market

/// The size of a question in bytes, as UTF-8 stores it.
pub open spec fn question_bytes(question: Seq<char>) -> nat {
    encode_utf8(question).len()
}

/// The LP fee of a market, where none counts as zero.
pub open spec fn lp_fee_or_zero(lp_fee_bps: Option<u16>) -> u16 {
    match lp_fee_bps {
        Some(fee) => fee,
        None => 0,
    }
}

/// Accuracy markets pay entry fees into a pool and have no liquidity providers, so
/// their LP fee is zero; the other kinds are AMM markets and need a positive LP fee.
pub open spec fn lp_fee_fits(market_type: MarketType, lp_fee_bps: Option<u16>) -> bool {
    match market_type {
        MarketType::Accuracy { .. } => lp_fee_or_zero(lp_fee_bps) == 0,
        _ => lp_fee_or_zero(lp_fee_bps) > 0,
    }
}

/// The error for an LP fee that does not fit the market's type.
pub open spec fn lp_fee_error(market_type: MarketType) -> ErrorCode {
    match market_type {
        MarketType::Accuracy { .. } => ErrorCode::NoLpsInAccuracyMarkets,
        _ => ErrorCode::LpFeeRequired,
    }
}

/// Why opening a market is refused before any account is written, checked in this
/// order, or `None` when its accounts are written.
pub open spec fn create_market_refusal(
    question: Seq<char>,
    market_type: MarketType,
    lp_fee_bps: Option<u16>,
) -> Option<ErrorCode> {
    if question_bytes(question) > MAX_QUESTION_LEN {
        Some(ErrorCode::QuestionTooLong)
    } else if !lp_fee_fits(market_type, lp_fee_bps) {
        Some(lp_fee_error(market_type))
    } else {
        None
    }
}

/// The admin opens markets without a bond; everyone else posts the default bond.
pub open spec fn creator_bond_for(protocol: CyperMarket, creator: Pubkey) -> u64 {
    if creator == protocol.authority {
        0
    } else {
        protocol.default_creator_bond
    }
}

/// The admin's markets carry the full default protocol fee; everyone else's half of
/// it, rounded down.
pub open spec fn protocol_fee_for(protocol: CyperMarket, creator: Pubkey) -> u16 {
    if creator == protocol.authority {
        protocol.default_protocol_fee_bps
    } else {
        (protocol.default_protocol_fee_bps / 2) as u16
    }
}

/// The new market account after it is opened. The vault and the liquidity are not
/// written and keep what the fresh account held.
pub open spec fn opened_market(
    before: Market,
    protocol: CyperMarket,
    creator: Pubkey,
    bump: u8,
    mint: Pubkey,
    now: i64,
    question: String,
    market_type: MarketType,
    category: MarketCategory,
    lp_fee_bps: Option<u16>,
    resolution_deadline: i64,
    market_group: Option<Pubkey>,
    market_data: MarketData,
) -> Market {
    Market {
        bump,
        creator,
        market_index: protocol.market_count,
        user_bet_index: 0,
        market_type,
        category,
        status: MarketStatus::Open,
        question,
        creator_bond: creator_bond_for(protocol, creator),
        lp_fee_bps,
        protocol_fee_bps: protocol_fee_for(protocol, creator),
        resolution_deadline,
        created_at: now,
        total_bets: 0,
        vault: before.vault,
        token_mint: mint,
        market_group,
        total_liquidity: before.total_liquidity,
        market_data,
    }
}

/// The protocol account after a market is opened: one more market.
pub open spec fn after_market_opened(protocol: CyperMarket) -> CyperMarket {
    CyperMarket { market_count: (protocol.market_count + 1) as u64, ..protocol }
}

/// Raising the market count once the market is written: it fails when the count
/// can grow no further.
pub open spec fn market_count_outcome(protocol: CyperMarket) -> Result<(), ErrorCode> {
    if protocol.market_count == u64::MAX {
        Err(ErrorCode::MarketCountOverflow)
    } else {
        Ok(())
    }
}

/// The protocol account once the market count has been raised, or left as it was
/// when it could not be.
pub open spec fn protocol_after_opening(protocol: CyperMarket) -> CyperMarket {
    if protocol.market_count == u64::MAX {
        protocol
    } else {
        after_market_opened(protocol)
    }
}

/// The bond moved from the creator into the market's vault: none when it is zero.
pub open spec fn bond_transfer(bond: u64) -> Option<u64> {
    if bond > 0 {
        Some(bond)
    } else {
        None
    }
}

/// What remains of opening a market once its accounts are written, in order: first
/// the creator bond moves from the creator's token account into the market's vault
/// (when there is one), then the instruction ends with `outcome`. When `outcome` is
/// an error the whole instruction fails, and none of its writes or transfers stands.
#[derive(Clone, Copy, Debug, PartialEq, Eq)]
pub struct MarketOpening {
    pub bond_transfer: Option<u64>,
    pub outcome: Result<(), ErrorCode>,
}

/// Opens a market at index `cyper_market.market_count`, created by `market_authority`
/// at time `now`, for bets paid in `mint`.
///
/// The question and the LP fee are checked first, and a refusal there leaves both
/// accounts unchanged. Otherwise the market is written and the market count raised;
/// the returned `MarketOpening` says which bond to move and how the instruction ends:
/// when the count cannot grow, it ends with `MarketCountOverflow` after the bond
/// transfer, and the count is left as it was.
pub fn create_market_handler(
    cyper_market: &mut CyperMarket,
    new_market: &mut Market,
    market_authority: Pubkey,
    market_bump: u8,
    mint: Pubkey,
    now: i64,
    question_text: String,
    _fixed_price: u64,
    market_type: MarketType,
    category: MarketCategory,
    lp_fee_bps: Option<u16>,
    resolution_deadline: i64,
    market_group: Option<Pubkey>,
    market_data: MarketData,
) -> (result: Result<MarketOpening, ErrorCode>)
    ensures
        result is Err <==> create_market_refusal(question_text@, market_type, lp_fee_bps) is Some,
        create_market_refusal(question_text@, market_type, lp_fee_bps) matches Some(e) ==> {
            &&& result == Err::<MarketOpening, ErrorCode>(e)
            &&& *final(cyper_market) == *old(cyper_market)
            &&& *final(new_market) == *old(new_market)
        },
        create_market_refusal(question_text@, market_type, lp_fee_bps) is None ==> {
            &&& result == Ok::<MarketOpening, ErrorCode>(
                MarketOpening {
                    bond_transfer: bond_transfer(
                        creator_bond_for(*old(cyper_market), market_authority),
                    ),
                    outcome: market_count_outcome(*old(cyper_market)),
                },
            )
            &&& *final(new_market) == opened_market(
                *old(new_market),
                *old(cyper_market),
                market_authority,
                market_bump,
                mint,
                now,
                question_text,
                market_type,
                category,
                lp_fee_bps,
                resolution_deadline,
                market_group,
                market_data,
            )
            &&& *final(cyper_market) == protocol_after_opening(*old(cyper_market))
        },
{
    if question_text.as_str().as_bytes().len() > MAX_QUESTION_LEN {
        return Err(ErrorCode::QuestionTooLong);
    }
    let lp_fee = lp_fee_bps.unwrap_or(0);
    match market_type {
        MarketType::Accuracy { fixed_price: _ } => {
            if lp_fee != 0 {
                return Err(ErrorCode::NoLpsInAccuracyMarkets);
            }
        },
        MarketType::YesNo | MarketType::MultiOutcome => {
            if !(lp_fee > 0) {
                return Err(ErrorCode::LpFeeRequired);
            }
        },
    }

    let by_admin = market_authority.same_key(&cyper_market.authority);
    let creator_bond = if by_admin {
        0
    } else {
        cyper_market.default_creator_bond
    };
    let protocol_fee_bps = if by_admin {
        cyper_market.default_protocol_fee_bps
    } else {
        cyper_market.default_protocol_fee_bps.checked_div(2).unwrap_or(0)
    };

    new_market.creator = market_authority;
    new_market.market_index = cyper_market.market_count;
    new_market.bump = market_bump;
    new_market.category = category;
    new_market.status = MarketStatus::Open;
    new_market.question = question_text;
    new_market.creator_bond = creator_bond;
    new_market.market_type = market_type;
    new_market.lp_fee_bps = lp_fee_bps;
    new_market.protocol_fee_bps = protocol_fee_bps;
    new_market.resolution_deadline = resolution_deadline;
    new_market.created_at = now;
    new_market.total_bets = 0;
    new_market.token_mint = mint;
    new_market.market_group = market_group;
    new_market.market_data = market_data;
    new_market.user_bet_index = 0;

    let bond_transfer = if creator_bond > 0 {
        Some(creator_bond)
    } else {
        None
    };
    let outcome = match cyper_market.market_count.checked_add(1) {
        Some(count) => {
            cyper_market.market_count = count;
            Ok(())
        },
        None => Err(ErrorCode::MarketCountOverflow),
    };
    Ok(MarketOpening { bond_transfer, outcome })
}

// ---------------------------------------------------------------------------
// Placing a bet

/// Whether a bet of `amount` with prediction `bet_data` suits the market's type, or
/// why not: an Accuracy entry costs exactly the fixed price; a Yes/No or
/// multi-outcome bet must stake something; and the prediction must be of the
/// market's own kind.
pub open spec fn bet_amount_refusal(
    market_type: MarketType,
    bet_data: BetData,
    amount: u64,
) -> Option<ErrorCode> {
    match (market_type, bet_data) {
        (MarketType::Accuracy { fixed_price }, BetData::Accuracy { .. }) => {
            if amount == fixed_price {
                None
            } else {
                Some(ErrorCode::InvalidBetAmount)
            }
        },
        (MarketType::YesNo, BetData::YesNo { .. }) => {
            if amount > 0 {
                None
            } else {
                Some(ErrorCode::InvalidBetAmount)
            }
        },
        (MarketType::MultiOutcome, BetData::MultiOutcome { .. }) => {
            if amount > 0 {
                None
            } else {
                Some(ErrorCode::InvalidBetAmount)
            }
        },
        _ => Some(ErrorCode::MarketTypeMismatch),
    }
}

/// Whether the market's three counters can take one more bet of `amount`.
pub open spec fn counters_overflow(market: Market, amount: u64) -> bool {
    ||| market.user_bet_index == u64::MAX
    ||| market.total_bets == u64::MAX
    ||| market.total_liquidity + amount > u64::MAX
}

/// Why placing a bet is refused, checked in this order, or `None` when it is accepted.
pub open spec fn place_bet_refusal(
    market: Market,
    mint: Pubkey,
    now: i64,
    amount: u64,
    bet_data: BetData,
) -> Option<ErrorCode> {
    if mint != market.token_mint {
        Some(ErrorCode::InvalidMint)
    } else if market.status != MarketStatus::Open {
        Some(ErrorCode::MarketNotOpen)
    } else if !(now < market.resolution_deadline) {
        Some(ErrorCode::InvalidBettingWindow)
    } else if bet_amount_refusal(market.market_type, bet_data, amount) is Some {
        bet_amount_refusal(market.market_type, bet_data, amount)
    } else if counters_overflow(market, amount) {
        Some(ErrorCode::MarketCountOverflow)
    } else {
        None
    }
}

/// The bet account after a bet is placed: it takes the market's next bet index.
pub open spec fn placed_bet(
    market: Market,
    bettor: Pubkey,
    market_key: Pubkey,
    bump: u8,
    now: i64,
    amount: u64,
    bet_data: BetData,
) -> Bet {
    Bet {
        bump,
        bettor,
        market: market_key,
        bet_index: market.user_bet_index,
        created_at: now,
        claimed: false,
        amount,
        bet_data,
    }
}

/// The market after a bet of `amount`: one more bet, and the stake added to its
/// liquidity; nothing else changes.
pub open spec fn after_bet(market: Market, amount: u64) -> Market {
    Market {
        user_bet_index: (market.user_bet_index + 1) as u64,
        total_bets: (market.total_bets + 1) as u64,
        total_liquidity: (market.total_liquidity + amount) as u64,
        ..market
    }
}

/// Places a bet of `amount` tokens of `mint` by `better` on the market whose address
/// is `market_key`, at time `now`.
///
/// On success it returns the stake that must move from the bettor's token account
/// into the market's vault: always the whole `amount`.
pub fn place_bet_handler(
    market: &mut Market,
    bet: &mut Bet,
    better: Pubkey,
    market_key: Pubkey,
    bet_bump: u8,
    mint: Pubkey,
    now: i64,
    amount: u64,
    bet_data: BetData,
) -> (result: Result<u64, ErrorCode>)
    ensures
        result is Err <==> place_bet_refusal(*old(market), mint, now, amount, bet_data) is Some,
        place_bet_refusal(*old(market), mint, now, amount, bet_data) matches Some(e) ==> {
            &&& result == Err::<u64, ErrorCode>(e)
            &&& *final(market) == *old(market)
            &&& *final(bet) == *old(bet)
        },
        place_bet_refusal(*old(market), mint, now, amount, bet_data) is None ==> {
            &&& result == Ok::<u64, ErrorCode>(amount)
            &&& *final(bet) == placed_bet(
                *old(market),
                better,
                market_key,
                bet_bump,
                now,
                amount,
                bet_data,
            )
            &&& *final(market) == after_bet(*old(market), amount)
        },
{
    if !mint.same_key(&market.token_mint) {
        return Err(ErrorCode::InvalidMint);
    }
    if market.status != MarketStatus::Open {
        return Err(ErrorCode::MarketNotOpen);
    }
    if !(now < market.resolution_deadline) {
        return Err(ErrorCode::InvalidBettingWindow);
    }
    match (market.market_type, bet_data) {
        (MarketType::Accuracy { fixed_price }, BetData::Accuracy { predicted_value: _ }) => {
            if amount != fixed_price {
                return Err(ErrorCode::InvalidBetAmount);
            }
        },
        (MarketType::YesNo, BetData::YesNo { direction: _ }) => {
            if !(amount > 0) {
                return Err(ErrorCode::InvalidBetAmount);
            }
        },
        (MarketType::MultiOutcome, BetData::MultiOutcome { outcome_index: _ }) => {
            if !(amount > 0) {
                return Err(ErrorCode::InvalidBetAmount);
            }
        },
        _ => {
            return Err(ErrorCode::MarketTypeMismatch);
        },
    }
    let next_bet_index = match market.user_bet_index.checked_add(1) {
        Some(index) => index,
        None => {
            return Err(ErrorCode::MarketCountOverflow);
        },
    };
    let next_total_bets = match market.total_bets.checked_add(1) {
        Some(total) => total,
        None => {
            return Err(ErrorCode::MarketCountOverflow);
        },
    };
    let next_liquidity = match market.total_liquidity.checked_add(amount) {
        Some(total) => total,
        None => {
            return Err(ErrorCode::MarketCountOverflow);
        },
    };

    bet.bump = bet_bump;
    bet.bettor = better;
    bet.market = market_key;
    bet.bet_index = market.user_bet_index;
    bet.created_at = now;
    bet.claimed = false;
    bet.amount = amount;
    bet.bet_data = bet_data;

    market.user_bet_index = next_bet_index;
    market.total_bets = next_total_bets;
    market.total_liquidity = next_liquidity;

    Ok(amount)
}

} // verus!
