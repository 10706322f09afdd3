//! The rules of a prediction-market protocol: setting up the protocol account,
//! opening markets, and placing bets, as pure state transitions over the accounts.
pub mod error;
pub mod instructions;
pub mod key;
pub mod laws;
pub mod protocol;
pub mod state;
pub mod types;

pub use error::ErrorCode;
pub use key::Pubkey;
pub use protocol::{create_market_handler, initialize_handler, place_bet_handler, MarketOpening, MAX_QUESTION_LEN};
pub use types::{Bet, BetData, CyperMarket, Market, MarketCategory, MarketData, MarketStatus, MarketType};
