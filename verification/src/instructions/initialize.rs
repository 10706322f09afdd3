//! Setting up a protocol account of the first layout.
use vstd::prelude::*;
use crate::key::Pubkey;
use crate::state::CyperMarket;

verus! {

/// Sets up a zeroed protocol account of the first layout: `authority` becomes the
/// admin, `treasury` the fee wallet and `fee` the default protocol fee. The bump is
/// not written.
pub fn handler(market: &mut CyperMarket, authority: Pubkey, treasury: Pubkey, fee: u16)
    ensures
        *final(market) == (CyperMarket {
            authority,
            treasury,
            default_protocol_fee_bps: fee,
            market_count: 0,
            ..*old(market)
        }),
{
    market.authority = authority;
    market.treasury = treasury;
    market.default_protocol_fee_bps = fee;
    market.market_count = 0;
}

} // verus!
