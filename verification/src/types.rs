//! The accounts of the protocol and the values stored in them.
use vstd::prelude::*;
use crate::key::Pubkey;

verus! {

/// The kind of a market, which fixes how bets on it are made.
#[derive(Clone, Copy, Debug, PartialEq, Eq, Structural)]
pub enum MarketType {
    YesNo,
    MultiOutcome,
    /// Every entry costs exactly `fixed_price` tokens.
    Accuracy { fixed_price: u64 },
}

#[derive(Clone, Copy, Debug, PartialEq, Eq, Structural)]
pub enum MarketCategory {
    Crypto,
    Politics,
    Sports,
    Tech,
    Economy,
    Culture,
    Beyond,
}

#[derive(Clone, Copy, Debug, PartialEq, Eq, Structural)]
pub enum MarketStatus {
    Open,
    Locked,
    Settled,
    Voided,
}

/// Data that a market carries beside its type; no kind of market uses any yet.
#[derive(Clone, Copy, Debug, PartialEq, Eq, Structural)]
pub enum MarketData {
    NoData,
}

/// What a bettor predicts; its variant must match the market's type.
#[derive(Clone, Copy, Debug, PartialEq, Eq, Structural)]
pub enum BetData {
    /// The value that the bettor predicts.
    Accuracy { predicted_value: u64 },
    /// `true` for "Yes", `false` for "No".
    YesNo { direction: bool },
    /// The index of the outcome that the bettor backs.
    MultiOutcome { outcome_index: u8 },
}

/// The protocol's global account.
#[derive(Clone, Copy, Debug, PartialEq, Eq)]
pub struct CyperMarket {
    pub bump: u8,
    /// The admin wallet: the top-level authority.
    pub authority: Pubkey,
    /// The wallet that collects fees.
    pub treasury: Pubkey,
    /// In basis points: 50 is 0.50%.
    pub default_protocol_fee_bps: u16,
    pub default_creator_bond: u64,
    /// How many markets have been created; also the index of the next one.
    pub market_count: u64,
}

/// One market.
#[derive(Clone, Debug, PartialEq, Eq)]
pub struct Market {
    pub bump: u8,
    /// The creator's wallet, which may lock, settle and withdraw the bond and fees.
    pub creator: Pubkey,
    pub market_index: u64,
    /// The index that the next bet on this market gets.
    pub user_bet_index: u64,
    pub market_type: MarketType,
    pub category: MarketCategory,
    pub status: MarketStatus,
    /// At most 200 bytes.
    pub question: String,
    pub creator_bond: u64,
    pub lp_fee_bps: Option<u16>,
    pub protocol_fee_bps: u16,
    pub resolution_deadline: i64,
    pub created_at: i64,
    pub total_bets: u64,
    pub vault: Pubkey,
    pub token_mint: Pubkey,
    /// `None` for a standalone market, `Some` for a tiered one.
    pub market_group: Option<Pubkey>,
    pub total_liquidity: u64,
    pub market_data: MarketData,
}

/// One bet placed on a market.
#[derive(Clone, Copy, Debug, PartialEq, Eq)]
pub struct Bet {
    pub bump: u8,
    pub bettor: Pubkey,
    pub market: Pubkey,
    pub bet_index: u64,
    pub created_at: i64,
    pub claimed: bool,
    pub amount: u64,
    pub bet_data: BetData,
}

} // verus!
