//! What holds of the protocol across instructions.
use vstd::prelude::*;
use crate::key::Pubkey;
use vstd::utf8::encode_utf8;
use crate::error::ErrorCode;
use crate::protocol::{
    after_bet, after_market_opened, bond_transfer, initialized_protocol, bet_amount_refusal, create_market_refusal, creator_bond_for, lp_fee_fits,
    market_count_outcome, opened_market, place_bet_refusal, placed_bet, protocol_after_opening,
    protocol_fee_for, question_bytes, MAX_QUESTION_LEN,
};
use crate::types::{BetData, CyperMarket, Market, MarketCategory, MarketData, MarketStatus, MarketType};

verus! {

/// The rules that every market keeps: its question fits in 200 bytes, its LP fee
/// suits its type, and it has counted exactly as many bets as it has handed out
/// bet indices.
pub open spec fn market_rules_hold(market: Market) -> bool {
    &&& question_bytes(market.question@) <= MAX_QUESTION_LEN
    &&& lp_fee_fits(market.market_type, market.lp_fee_bps)
    &&& market.total_bets == market.user_bet_index
}

/// Every market that is opened keeps the market rules, is open, and has taken no
/// bet yet.
pub proof fn lemma_opened_market_keeps_rules(
    before: Market,
    protocol: CyperMarket,
    creator: Pubkey,
    bump: u8,
    mint: Pubkey,
    now: i64,
    question: String,
    market_type: MarketType,
    category: MarketCategory,
    lp_fee_bps: Option<u16>,
    resolution_deadline: i64,
    market_group: Option<Pubkey>,
    market_data: MarketData,
)
    requires
        create_market_refusal(question@, market_type, lp_fee_bps) is None,
    ensures
        ({
            let market = opened_market(
                before,
                protocol,
                creator,
                bump,
                mint,
                now,
                question,
                market_type,
                category,
                lp_fee_bps,
                resolution_deadline,
                market_group,
                market_data,
            );
            &&& market_rules_hold(market)
            &&& market.status == MarketStatus::Open
            &&& market.user_bet_index == 0
            &&& market.total_bets == 0
        }),
{
}

/// An accepted bet keeps the market rules.
pub proof fn lemma_bet_keeps_rules(
    market: Market,
    mint: Pubkey,
    now: i64,
    amount: u64,
    bet_data: BetData,
)
    requires
        market_rules_hold(market),
        place_bet_refusal(market, mint, now, amount, bet_data) is None,
    ensures
        market_rules_hold(after_bet(market, amount)),
{
}

/// A bet is accepted only on an open market, before its resolution deadline, in the
/// market's own token, with a prediction of the market's kind, and for the exact
/// price of an Accuracy market or a positive stake on any other.
pub proof fn lemma_accepted_bet_fits_market(
    market: Market,
    mint: Pubkey,
    now: i64,
    amount: u64,
    bet_data: BetData,
)
    requires
        place_bet_refusal(market, mint, now, amount, bet_data) is None,
    ensures
        market.status == MarketStatus::Open,
        now < market.resolution_deadline,
        mint == market.token_mint,
        match (market.market_type, bet_data) {
            (MarketType::Accuracy { fixed_price }, BetData::Accuracy { .. }) => amount
                == fixed_price,
            (MarketType::YesNo, BetData::YesNo { .. }) => amount > 0,
            (MarketType::MultiOutcome, BetData::MultiOutcome { .. }) => amount > 0,
            _ => false,
        },
{
}

/// A market that has just been opened takes any bet in its own token placed before
/// its resolution deadline whose stake suits its type, as long as its liquidity
/// can hold the stake.
pub proof fn lemma_opened_market_takes_bets(
    before: Market,
    protocol: CyperMarket,
    creator: Pubkey,
    bump: u8,
    mint: Pubkey,
    now: i64,
    question: String,
    market_type: MarketType,
    category: MarketCategory,
    lp_fee_bps: Option<u16>,
    resolution_deadline: i64,
    market_group: Option<Pubkey>,
    market_data: MarketData,
    bet_time: i64,
    amount: u64,
    bet_data: BetData,
)
    requires
        create_market_refusal(question@, market_type, lp_fee_bps) is None,
        bet_time < resolution_deadline,
        bet_amount_refusal(market_type, bet_data, amount) is None,
        before.total_liquidity + amount <= u64::MAX,
    ensures
        place_bet_refusal(
            opened_market(
                before,
                protocol,
                creator,
                bump,
                mint,
                now,
                question,
                market_type,
                category,
                lp_fee_bps,
                resolution_deadline,
                market_group,
                market_data,
            ),
            mint,
            bet_time,
            amount,
            bet_data,
        ) is None,
{
}

/// The admin opens markets without a bond and with the full default protocol fee;
/// anyone else posts the default bond and gets half the fee. No market's protocol
/// fee exceeds the default.
pub proof fn lemma_bond_and_fee_by_creator(protocol: CyperMarket, creator: Pubkey)
    ensures
        protocol_fee_for(protocol, creator) <= protocol.default_protocol_fee_bps,
        creator == protocol.authority ==> {
            &&& creator_bond_for(protocol, creator) == 0
            &&& protocol_fee_for(protocol, creator) == protocol.default_protocol_fee_bps
        },
        creator != protocol.authority ==> {
            &&& creator_bond_for(protocol, creator) == protocol.default_creator_bond
            &&& protocol_fee_for(protocol, creator) == protocol.default_protocol_fee_bps / 2
        },
{
}

/// The sum of a sequence of stakes.
pub open spec fn stakes_total(stakes: Seq<u64>) -> int
    decreases stakes.len(),
{
    if stakes.len() == 0 {
        0
    } else {
        stakes_total(stakes.drop_last()) + stakes.last()
    }
}

/// The market after accepted bets of the given stakes, in order.
pub open spec fn after_bets(market: Market, stakes: Seq<u64>) -> Market
    decreases stakes.len(),
{
    if stakes.len() == 0 {
        market
    } else {
        after_bet(after_bets(market, stakes.drop_last()), stakes.last())
    }
}

/// After a run of accepted bets, the market has counted each of them once, and its
/// liquidity has grown by exactly the sum of their stakes, which is what the bets
/// moved into its vault. Nothing else in the market changes.
pub proof fn lemma_liquidity_is_sum_of_stakes(market: Market, stakes: Seq<u64>)
    requires
        market.total_liquidity + stakes_total(stakes) <= u64::MAX,
        market.user_bet_index + stakes.len() <= u64::MAX,
        market.total_bets + stakes.len() <= u64::MAX,
    ensures
        after_bets(market, stakes) == (Market {
            user_bet_index: (market.user_bet_index + stakes.len()) as u64,
            total_bets: (market.total_bets + stakes.len()) as u64,
            total_liquidity: (market.total_liquidity + stakes_total(stakes)) as u64,
            ..market
        }),
    decreases stakes.len(),
{
    if stakes.len() > 0 {
        let rest = stakes.drop_last();
        lemma_stakes_total_monotone(stakes);
        lemma_liquidity_is_sum_of_stakes(market, rest);
    }
}

/// A prefix of stakes never sums to more than the whole.
proof fn lemma_stakes_total_monotone(stakes: Seq<u64>)
    requires
        stakes.len() > 0,
    ensures
        stakes_total(stakes.drop_last()) <= stakes_total(stakes),
        0 <= stakes_total(stakes.drop_last()),
    decreases stakes.len(),
{
    if stakes.len() > 1 {
        lemma_stakes_total_monotone(stakes.drop_last());
    }
}

/// Bets placed one after another on a market get consecutive bet indices from the
/// market's next index onward: the bet placed after the first `i` of a run gets
/// index `user_bet_index + i`.
pub proof fn lemma_bet_indices_consecutive(
    market: Market,
    stakes: Seq<u64>,
    i: int,
    bettor: Pubkey,
    market_key: Pubkey,
    bump: u8,
    now: i64,
    bet_data: BetData,
)
    requires
        0 <= i < stakes.len(),
        market.total_liquidity + stakes_total(stakes) <= u64::MAX,
        market.user_bet_index + stakes.len() <= u64::MAX,
        market.total_bets + stakes.len() <= u64::MAX,
    ensures
        placed_bet(
            after_bets(market, stakes.take(i)),
            bettor,
            market_key,
            bump,
            now,
            stakes[i],
            bet_data,
        ).bet_index == market.user_bet_index + i,
{
    lemma_prefix_total_bounded(stakes, i);
    lemma_liquidity_is_sum_of_stakes(market, stakes.take(i));
}

/// The stakes of a prefix never sum to more than all the stakes.
proof fn lemma_prefix_total_bounded(stakes: Seq<u64>, i: int)
    requires
        0 <= i <= stakes.len(),
    ensures
        0 <= stakes_total(stakes.take(i)) <= stakes_total(stakes),
    decreases stakes.len(),
{
    if stakes.len() > 0 {
        lemma_stakes_total_monotone(stakes);
        if i < stakes.len() {
            assert(stakes.drop_last().take(i) =~= stakes.take(i));
            lemma_prefix_total_bounded(stakes.drop_last(), i);
        } else {
            assert(stakes.take(i) =~= stakes);
        }
    }
}

/// When every stake of a run equals `price`, the stakes sum to `price` times their
/// number.
proof fn lemma_uniform_stakes_total(stakes: Seq<u64>, price: u64)
    requires
        forall|i: int| 0 <= i < stakes.len() ==> stakes[i] == price,
    ensures
        stakes_total(stakes) == price * stakes.len(),
    decreases stakes.len(),
{
    if stakes.len() > 0 {
        lemma_uniform_stakes_total(stakes.drop_last(), price);
        let n: int = stakes.len() as int;
        assert(price * (n - 1) + price == price * n) by (nonlinear_arith);
    }
}

/// Every entry in an Accuracy market costs its fixed price, so after a run of
/// entries the market's liquidity has grown by the price times their number.
pub proof fn lemma_accuracy_liquidity_is_price_times_entries(
    market: Market,
    stakes: Seq<u64>,
    price: u64,
)
    requires
        forall|i: int| 0 <= i < stakes.len() ==> stakes[i] == price,
        market.total_liquidity + price * stakes.len() <= u64::MAX,
        market.user_bet_index + stakes.len() <= u64::MAX,
        market.total_bets + stakes.len() <= u64::MAX,
    ensures
        after_bets(market, stakes).total_liquidity == market.total_liquidity + price
            * stakes.len(),
        after_bets(market, stakes).total_bets == market.total_bets + stakes.len(),
{
    lemma_uniform_stakes_total(stakes, price);
    lemma_liquidity_is_sum_of_stakes(market, stakes);
}

// ---------------------------------------------------------------------------
// Runs of bet requests, each accepted or refused

/// One call to place a bet: the mint given, the time, the stake and the prediction.
pub type BetRequest = (Pubkey, i64, u64, BetData);

/// The market after a run of bet requests, each applied to the market as the ones
/// before it left it: an accepted bet changes it as `place_bet_handler` says, a
/// refused one leaves it as it was.
pub open spec fn after_bet_requests(market: Market, requests: Seq<BetRequest>) -> Market
    decreases requests.len(),
{
    if requests.len() == 0 {
        market
    } else {
        let before = after_bet_requests(market, requests.drop_last());
        let r = requests.last();
        if place_bet_refusal(before, r.0, r.1, r.2, r.3) is None {
            after_bet(before, r.2)
        } else {
            before
        }
    }
}

/// How many requests of the run were accepted.
pub open spec fn accepted_bets(market: Market, requests: Seq<BetRequest>) -> nat
    decreases requests.len(),
{
    if requests.len() == 0 {
        0
    } else {
        let before = after_bet_requests(market, requests.drop_last());
        let r = requests.last();
        accepted_bets(market, requests.drop_last()) + if place_bet_refusal(
            before,
            r.0,
            r.1,
            r.2,
            r.3,
        ) is None {
            1nat
        } else {
            0nat
        }
    }
}

/// The sum of the stakes of the accepted requests of the run.
pub open spec fn accepted_stakes(market: Market, requests: Seq<BetRequest>) -> int
    decreases requests.len(),
{
    if requests.len() == 0 {
        0
    } else {
        let before = after_bet_requests(market, requests.drop_last());
        let r = requests.last();
        accepted_stakes(market, requests.drop_last()) + if place_bet_refusal(
            before,
            r.0,
            r.1,
            r.2,
            r.3,
        ) is None {
            r.2 as int
        } else {
            0
        }
    }
}

/// After any run of bet requests on a market, accepted or refused: its bet index and
/// its bet count have each grown by the number of accepted bets, its liquidity by
/// the sum of their stakes (what they moved into its vault), and nothing else in it
/// has changed, its status included. In an Accuracy market the accepted stakes sum
/// to the fixed price times the number of accepted entries.
pub proof fn lemma_bet_requests_run(market: Market, requests: Seq<BetRequest>)
    ensures
        0 <= accepted_stakes(market, requests),
        market.user_bet_index + accepted_bets(market, requests) <= u64::MAX,
        market.total_bets + accepted_bets(market, requests) <= u64::MAX,
        market.total_liquidity + accepted_stakes(market, requests) <= u64::MAX,
        after_bet_requests(market, requests) == (Market {
            user_bet_index: (market.user_bet_index + accepted_bets(market, requests)) as u64,
            total_bets: (market.total_bets + accepted_bets(market, requests)) as u64,
            total_liquidity: (market.total_liquidity + accepted_stakes(market, requests)) as u64,
            ..market
        }),
        market.market_type matches MarketType::Accuracy { fixed_price } ==> accepted_stakes(
            market,
            requests,
        ) == fixed_price * accepted_bets(market, requests),
    decreases requests.len(),
{
    if requests.len() > 0 {
        let rest = requests.drop_last();
        lemma_bet_requests_run(market, rest);
        let before = after_bet_requests(market, rest);
        let r = requests.last();
        if place_bet_refusal(before, r.0, r.1, r.2, r.3) is None {
            if let MarketType::Accuracy { fixed_price } = market.market_type {
                let n: int = accepted_bets(market, rest) as int;
                assert(r.2 == fixed_price);
                assert(fixed_price * n + fixed_price == fixed_price * (n + 1)) by (nonlinear_arith);
            }
        }
    }
}

/// A market that has just been opened has, after any run of bet requests, counted
/// exactly its accepted bets in both its bet index and its bet count, holds their
/// stakes on top of the liquidity the fresh account held, and is still open; an
/// Accuracy market holds its fixed price times its bet count on top of it.
pub proof fn lemma_opened_market_after_bet_requests(
    before: Market,
    protocol: CyperMarket,
    creator: Pubkey,
    bump: u8,
    mint: Pubkey,
    now: i64,
    question: String,
    market_type: MarketType,
    category: MarketCategory,
    lp_fee_bps: Option<u16>,
    resolution_deadline: i64,
    market_group: Option<Pubkey>,
    market_data: MarketData,
    requests: Seq<BetRequest>,
)
    ensures
        ({
            let opened = opened_market(
                before,
                protocol,
                creator,
                bump,
                mint,
                now,
                question,
                market_type,
                category,
                lp_fee_bps,
                resolution_deadline,
                market_group,
                market_data,
            );
            let after = after_bet_requests(opened, requests);
            &&& after.user_bet_index == accepted_bets(opened, requests)
            &&& after.total_bets == accepted_bets(opened, requests)
            &&& after.total_liquidity == before.total_liquidity + accepted_stakes(
                opened,
                requests,
            )
            &&& after.status == MarketStatus::Open
            &&& market_type matches MarketType::Accuracy { fixed_price } ==> after.total_liquidity
                == before.total_liquidity + fixed_price * after.total_bets
        }),
{
    let opened = opened_market(
        before,
        protocol,
        creator,
        bump,
        mint,
        now,
        question,
        market_type,
        category,
        lp_fee_bps,
        resolution_deadline,
        market_group,
        market_data,
    );
    lemma_bet_requests_run(opened, requests);
}

/// The bet made by the `i`-th request of a run, when that request is accepted,
/// takes the market's bet index plus the number of requests accepted before it.
pub proof fn lemma_bet_request_index(
    market: Market,
    requests: Seq<BetRequest>,
    i: int,
    bettor: Pubkey,
    market_key: Pubkey,
    bump: u8,
)
    requires
        0 <= i < requests.len(),
    ensures
        placed_bet(
            after_bet_requests(market, requests.take(i)),
            bettor,
            market_key,
            bump,
            requests[i].1,
            requests[i].2,
            requests[i].3,
        ).bet_index == market.user_bet_index + accepted_bets(market, requests.take(i)),
{
    lemma_bet_requests_run(market, requests.take(i));
}

/// Counting accepted requests over a longer prefix of the run never gives fewer.
proof fn lemma_accepted_bets_grow(market: Market, requests: Seq<BetRequest>, a: int, b: int)
    requires
        0 <= a <= b <= requests.len(),
    ensures
        accepted_bets(market, requests.take(a)) <= accepted_bets(market, requests.take(b)),
    decreases b - a,
{
    if a < b {
        lemma_accepted_bets_grow(market, requests, a, b - 1);
        assert(requests.take(b).drop_last() =~= requests.take(b - 1));
    }
}

/// Accepted bets take their indices in call order: when the `i`-th request is
/// accepted, every accepted request after it gets a larger bet index.
pub proof fn lemma_accepted_bets_in_call_order(
    market: Market,
    requests: Seq<BetRequest>,
    i: int,
    j: int,
)
    requires
        0 <= i < j < requests.len(),
        ({
            let r = requests[i];
            place_bet_refusal(after_bet_requests(market, requests.take(i)), r.0, r.1, r.2, r.3)
                is None
        }),
    ensures
        accepted_bets(market, requests.take(i)) < accepted_bets(market, requests.take(j)),
{
    assert(requests.take(i + 1).drop_last() =~= requests.take(i));
    assert(requests.take(i + 1).last() == requests[i]);
    lemma_accepted_bets_grow(market, requests, i + 1, j);
}

// ---------------------------------------------------------------------------
// Runs of requests to open markets, each accepted or refused

/// One call to open a market, as far as whether it succeeds: the question, the
/// market type and the LP fee.
pub type OpeningRequest = (Seq<char>, MarketType, Option<u16>);

/// Whether opening a market succeeds on the protocol account as it stands.
pub open spec fn opening_succeeds(protocol: CyperMarket, request: OpeningRequest) -> bool {
    &&& create_market_refusal(request.0, request.1, request.2) is None
    &&& market_count_outcome(protocol) is Ok
}

/// The protocol account after a run of requests to open markets, each applied to it
/// as the ones before left it, as `create_market_handler` says.
pub open spec fn after_opening_requests(
    protocol: CyperMarket,
    requests: Seq<OpeningRequest>,
) -> CyperMarket
    decreases requests.len(),
{
    if requests.len() == 0 {
        protocol
    } else {
        let before = after_opening_requests(protocol, requests.drop_last());
        let r = requests.last();
        if create_market_refusal(r.0, r.1, r.2) is None {
            protocol_after_opening(before)
        } else {
            before
        }
    }
}

/// How many requests of the run opened a market.
pub open spec fn markets_opened(protocol: CyperMarket, requests: Seq<OpeningRequest>) -> nat
    decreases requests.len(),
{
    if requests.len() == 0 {
        0
    } else {
        let before = after_opening_requests(protocol, requests.drop_last());
        markets_opened(protocol, requests.drop_last()) + if opening_succeeds(
            before,
            requests.last(),
        ) {
            1nat
        } else {
            0nat
        }
    }
}

/// After any run of requests to open markets, accepted or refused, the protocol's
/// market count has grown by exactly the number of markets opened, and nothing else
/// in the protocol account has changed.
pub proof fn lemma_opening_requests_run(protocol: CyperMarket, requests: Seq<OpeningRequest>)
    ensures
        protocol.market_count + markets_opened(protocol, requests) <= u64::MAX,
        after_opening_requests(protocol, requests) == (CyperMarket {
            market_count: (protocol.market_count + markets_opened(protocol, requests)) as u64,
            ..protocol
        }),
    decreases requests.len(),
{
    if requests.len() > 0 {
        lemma_opening_requests_run(protocol, requests.drop_last());
    }
}

/// Counting opened markets over a longer prefix of the run never gives fewer.
proof fn lemma_markets_opened_grow(
    protocol: CyperMarket,
    requests: Seq<OpeningRequest>,
    a: int,
    b: int,
)
    requires
        0 <= a <= b <= requests.len(),
    ensures
        markets_opened(protocol, requests.take(a)) <= markets_opened(protocol, requests.take(b)),
    decreases b - a,
{
    if a < b {
        lemma_markets_opened_grow(protocol, requests, a, b - 1);
        assert(requests.take(b).drop_last() =~= requests.take(b - 1));
    }
}

/// The market opened by the `i`-th request of a run takes as its index the
/// protocol's market count plus the number of markets opened before it; markets
/// opened later in the run get larger indices, so no two share one.
pub proof fn lemma_market_indices_in_call_order(
    protocol: CyperMarket,
    requests: Seq<OpeningRequest>,
    i: int,
    j: int,
)
    requires
        0 <= i < j < requests.len(),
        opening_succeeds(after_opening_requests(protocol, requests.take(i)), requests[i]),
    ensures
        after_opening_requests(protocol, requests.take(i)).market_count == protocol.market_count
            + markets_opened(protocol, requests.take(i)),
        markets_opened(protocol, requests.take(i)) < markets_opened(protocol, requests.take(j)),
{
    lemma_opening_requests_run(protocol, requests.take(i));
    assert(requests.take(i + 1).drop_last() =~= requests.take(i));
    assert(requests.take(i + 1).last() == requests[i]);
    lemma_markets_opened_grow(protocol, requests, i + 1, j);
}

// ---------------------------------------------------------------------------
// What each instruction does, in terms of its inputs

/// After set-up the protocol account holds exactly the values it was given, and
/// counts no market yet.
pub proof fn lemma_set_up_holds_given_values(
    bump: u8,
    authority: Pubkey,
    treasury: Pubkey,
    fee: u16,
    creator_bond: u64,
)
    ensures
        ({
            let p = initialized_protocol(bump, authority, treasury, fee, creator_bond);
            &&& p.bump == bump
            &&& p.authority == authority
            &&& p.treasury == treasury
            &&& p.default_protocol_fee_bps == fee
            &&& p.default_creator_bond == creator_bond
            &&& p.market_count == 0
        }),
{
}

/// Opening a market is refused exactly when its question takes more than 200 bytes
/// of UTF-8 (reported first), or when its LP fee (none counting as zero) is not zero
/// for an Accuracy market or not positive for any other.
pub proof fn lemma_opening_refused_exactly(
    question: Seq<char>,
    market_type: MarketType,
    lp_fee_bps: Option<u16>,
)
    ensures
        encode_utf8(question).len() > 200 ==> create_market_refusal(
            question,
            market_type,
            lp_fee_bps,
        ) == Some(ErrorCode::QuestionTooLong),
        encode_utf8(question).len() <= 200 ==> {
            let fee: u16 = match lp_fee_bps {
                Some(f) => f,
                None => 0,
            };
            &&& market_type is Accuracy ==> (fee == 0 <==> create_market_refusal(
                question,
                market_type,
                lp_fee_bps,
            ) is None)
            &&& market_type is Accuracy && fee != 0 ==> create_market_refusal(
                question,
                market_type,
                lp_fee_bps,
            ) == Some(ErrorCode::NoLpsInAccuracyMarkets)
            &&& !(market_type is Accuracy) ==> (fee > 0 <==> create_market_refusal(
                question,
                market_type,
                lp_fee_bps,
            ) is None)
            &&& !(market_type is Accuracy) && fee == 0 ==> create_market_refusal(
                question,
                market_type,
                lp_fee_bps,
            ) == Some(ErrorCode::LpFeeRequired)
        },
{
}

/// A market that is opened records the account that opened it as its creator, takes
/// the protocol's market count as its index, is open with no bets, and holds the
/// question, type, category, LP fee, deadline, group, data, mint, bump and opening
/// time that were given. The admin posts no bond and keeps the full default fee;
/// anyone else posts the default bond and gets half the default fee, rounded down.
/// The vault and the liquidity of the fresh account are left as they were, and the
/// bond asked of the creator is the one the market records, moved when not zero.
pub proof fn lemma_opened_market_holds_given_values(
    before: Market,
    protocol: CyperMarket,
    creator: Pubkey,
    bump: u8,
    mint: Pubkey,
    now: i64,
    question: String,
    market_type: MarketType,
    category: MarketCategory,
    lp_fee_bps: Option<u16>,
    resolution_deadline: i64,
    market_group: Option<Pubkey>,
    market_data: MarketData,
)
    ensures
        ({
            let m = opened_market(
                before,
                protocol,
                creator,
                bump,
                mint,
                now,
                question,
                market_type,
                category,
                lp_fee_bps,
                resolution_deadline,
                market_group,
                market_data,
            );
            &&& m.creator == creator
            &&& m.market_index == protocol.market_count
            &&& m.bump == bump
            &&& m.token_mint == mint
            &&& m.created_at == now
            &&& m.question == question
            &&& m.market_type == market_type
            &&& m.category == category
            &&& m.lp_fee_bps == lp_fee_bps
            &&& m.resolution_deadline == resolution_deadline
            &&& m.market_group == market_group
            &&& m.market_data == market_data
            &&& m.status == MarketStatus::Open
            &&& m.user_bet_index == 0
            &&& m.total_bets == 0
            &&& m.vault == before.vault
            &&& m.total_liquidity == before.total_liquidity
            &&& creator == protocol.authority ==> m.creator_bond == 0
                && m.protocol_fee_bps == protocol.default_protocol_fee_bps
            &&& creator != protocol.authority ==> m.creator_bond == protocol.default_creator_bond
                && m.protocol_fee_bps == protocol.default_protocol_fee_bps / 2
            &&& creator_bond_for(protocol, creator) == m.creator_bond
            &&& m.creator_bond > 0 ==> bond_transfer(creator_bond_for(protocol, creator)) == Some(
                m.creator_bond,
            )
            &&& m.creator_bond == 0 ==> bond_transfer(creator_bond_for(protocol, creator)) is None
        }),
{
}

/// The creator bond is moved exactly when it is not zero, and then all of it.
pub proof fn lemma_bond_moved_when_owed(bond: u64)
    ensures
        bond > 0 ==> bond_transfer(bond) == Some(bond),
        bond == 0 ==> bond_transfer(bond) is None,
{
}

/// Once its question and LP fee are accepted, opening a market succeeds whenever the
/// market count can still grow, and then raises the count by one and changes nothing
/// else in the protocol account; the only later failure is the count overflowing, which
/// leaves the protocol account as it was.
pub proof fn lemma_opening_succeeds_below_count_limit(protocol: CyperMarket)
    ensures
        protocol.market_count < u64::MAX ==> {
            &&& market_count_outcome(protocol) == Ok::<(), ErrorCode>(())
            &&& protocol_after_opening(protocol) == (CyperMarket {
                market_count: (protocol.market_count + 1) as u64,
                ..protocol
            })
            &&& after_market_opened(protocol) == protocol_after_opening(protocol)
        },
        protocol.market_count == u64::MAX ==> {
            &&& market_count_outcome(protocol) == Err::<(), ErrorCode>(
                ErrorCode::MarketCountOverflow,
            )
            &&& protocol_after_opening(protocol) == protocol
        },
{
}

/// A bet is accepted exactly when it is in the market's own mint, the market is open,
/// it comes strictly before the resolution deadline, its prediction is of the
/// market's kind with the fixed price as stake (Accuracy) or a positive stake (any
/// other kind), and the market's bet index, bet count and liquidity can all take it.
/// Each refusal reports the first of these that fails.
pub proof fn lemma_bet_accepted_exactly(
    market: Market,
    mint: Pubkey,
    now: i64,
    amount: u64,
    bet_data: BetData,
)
    ensures
        ({
            let kind_matches = match (market.market_type, bet_data) {
                (MarketType::Accuracy { .. }, BetData::Accuracy { .. }) => true,
                (MarketType::YesNo, BetData::YesNo { .. }) => true,
                (MarketType::MultiOutcome, BetData::MultiOutcome { .. }) => true,
                _ => false,
            };
            let stake_fits = match market.market_type {
                MarketType::Accuracy { fixed_price } => amount == fixed_price,
                _ => amount > 0,
            };
            let counters_grow = market.user_bet_index < u64::MAX && market.total_bets
                < u64::MAX && market.total_liquidity + amount <= u64::MAX;
            let refusal = place_bet_refusal(market, mint, now, amount, bet_data);
            &&& refusal is None <==> (mint == market.token_mint && market.status
                == MarketStatus::Open && now < market.resolution_deadline && kind_matches
                && stake_fits && counters_grow)
            &&& mint != market.token_mint ==> refusal == Some(ErrorCode::InvalidMint)
            &&& mint == market.token_mint && market.status != MarketStatus::Open ==> refusal
                == Some(ErrorCode::MarketNotOpen)
            &&& mint == market.token_mint && market.status == MarketStatus::Open && now
                >= market.resolution_deadline ==> refusal == Some(
                ErrorCode::InvalidBettingWindow,
            )
            &&& mint == market.token_mint && market.status == MarketStatus::Open && now
                < market.resolution_deadline && !kind_matches ==> refusal == Some(
                ErrorCode::MarketTypeMismatch,
            )
            &&& mint == market.token_mint && market.status == MarketStatus::Open && now
                < market.resolution_deadline && kind_matches && !stake_fits ==> refusal
                == Some(ErrorCode::InvalidBetAmount)
            &&& mint == market.token_mint && market.status == MarketStatus::Open && now
                < market.resolution_deadline && kind_matches && stake_fits && !counters_grow
                ==> refusal == Some(ErrorCode::MarketCountOverflow)
        }),
{
}

/// An accepted bet records exactly what was given: the bettor, the market's address,
/// the bump, the time, the stake and the prediction, unclaimed, under the market's
/// next bet index; and the market counts one more bet and holds the stake on top of
/// its liquidity, with nothing else changed.
pub proof fn lemma_bet_records_given_values(
    market: Market,
    bettor: Pubkey,
    market_key: Pubkey,
    bump: u8,
    now: i64,
    amount: u64,
    bet_data: BetData,
)
    ensures
        ({
            let b = placed_bet(market, bettor, market_key, bump, now, amount, bet_data);
            &&& b.bettor == bettor
            &&& b.market == market_key
            &&& b.bump == bump
            &&& b.created_at == now
            &&& b.amount == amount
            &&& b.bet_data == bet_data
            &&& b.claimed == false
            &&& b.bet_index == market.user_bet_index
        }),
        market.user_bet_index < u64::MAX && market.total_bets < u64::MAX
            && market.total_liquidity + amount <= u64::MAX ==> after_bet(market, amount) == (
        Market {
            user_bet_index: (market.user_bet_index + 1) as u64,
            total_bets: (market.total_bets + 1) as u64,
            total_liquidity: (market.total_liquidity + amount) as u64,
            ..market
        }),
{
}

} // verus!
