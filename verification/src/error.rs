//! The errors that the protocol's instructions report.
use vstd::prelude::*;

verus! {

/// Every way in which an instruction of the protocol can be refused.
#[derive(Clone, Copy, Debug, PartialEq, Eq, Structural)]
pub enum ErrorCode {
    InvalidFee,
    MaxMarketReached,
    InvalidDeadline,
    NotAuthorized,
    InvalidQuestionText,
    InvalidPrice,
    MarketAlreadyExists,
    MarketAlreadySettled,
    MarketAlreadyVoided,
    MarketNotSettled,
    MarketNotVoided,
    MarketNotOpen,
    MarketNotLocked,
    MarketCountOverflow,
    NoLpsInAccuracyMarkets,
    LpFeeRequired,
    QuestionTooLong,
    InvalidBettingWindow,
    InvalidMint,
    InvalidBetAmount,
    MarketTypeMismatch,
}

} // verus!
