//! The accounts in their first layout, before markets carried a creator bond, a bet
//! index or their liquidity.
use vstd::prelude::*;
use crate::key::Pubkey;

verus! {

/// The protocol's global account, without a default creator bond.
#[derive(Clone, Copy, Debug, PartialEq, Eq)]
pub struct CyperMarket {
    pub bump: u8,
    /// The admin wallet: the top-level authority.
    pub authority: Pubkey,
    /// The wallet that collects fees.
    pub treasury: Pubkey,
    /// In basis points: 50 is 0.50%.
    pub default_protocol_fee_bps: u16,
    pub market_count: u64,
}

/// A market in the first layout: its LP fee is a plain number, and it keeps no bet
/// index and no liquidity.
#[derive(Clone, Debug, PartialEq, Eq)]
pub struct Market {
    pub bump: u8,
    /// The creator's wallet, which may lock, settle and withdraw the bond and fees.
    pub creator: Pubkey,
    pub market_index: u64,
    pub market_type: MarketType,
    pub category: MarketCategory,
    pub status: MarketStatus,
    /// At most 200 bytes.
    pub question: String,
    pub creator_bond: u64,
    pub lp_fee_bps: u16,
    pub protocol_fee_bps: u16,
    pub resolution_deadline: i64,
    pub created_at: i64,
    pub total_bets: u64,
    pub vault: Pubkey,
    pub token_mint: Pubkey,
    /// `None` for a standalone market, `Some` for a tiered one.
    pub market_group: Option<Pubkey>,
    pub market_data: MarketData,
}

/// The kind of a market in the first layout; an Accuracy market has no fixed price.
#[derive(Clone, Copy, Debug, PartialEq, Eq, Structural)]
pub enum MarketType {
    YesNo,
    MultiOutcome,
    Accuracy,
}

#[derive(Clone, Copy, Debug, PartialEq, Eq, Structural)]
pub enum MarketCategory {
    Crypto,
    Politics,
    Sports,
    Tech,
    Economy,
    Culture,
    Beyond,
}

#[derive(Clone, Copy, Debug, PartialEq, Eq, Structural)]
pub enum MarketStatus {
    Open,
    Locked,
    Settled,
    Voided,
}

/// Data that a market carries beside its type; no kind of market uses any yet.
#[derive(Clone, Copy, Debug, PartialEq, Eq, Structural)]
pub enum MarketData {
    NoData,
}

} // verus!
