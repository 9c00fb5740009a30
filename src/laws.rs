use crate::contract::{
    answer_view, applied, feed_price_outcome, query_outcome, register_asset_outcome,
    update_config_outcome, HandleResponse, QueryMsg, QueryResponse,
};
use crate::error::{ContractError, Entity};
use crate::state::{initial_price, AssetView, OracleStore, OracleView};
use cosmwasm_std::Decimal;
use vstd::prelude::*;

verus! {

/// A query asked twice of a store that nothing wrote to in between gets the
/// same answer both times.
pub proof fn law_queries_idempotent(
    deps: &OracleStore,
    msg: QueryMsg,
    r1: Result<QueryResponse, ContractError>,
    r2: Result<QueryResponse, ContractError>,
)
    requires
        answer_view(r1) == query_outcome(deps@, msg),
        answer_view(r2) == query_outcome(deps@, msg),
    ensures
        answer_view(r1) == answer_view(r2),
{
}

/// Changing the configuration succeeds exactly when the caller is the current
/// owner. Any other caller is rejected as unauthorized, and the configuration
/// stays as it was.
pub proof fn law_update_config_needs_owner(
    before: OracleView,
    after: OracleView,
    sender: Seq<u8>,
    owner: Option<Seq<u8>>,
    r: Result<HandleResponse, ContractError>,
)
    requires
        before.config is Some,
        applied(before, after, update_config_outcome(before, sender, owner), r),
    ensures
        r is Ok <==> sender == before.config->0.owner,
        r is Err ==> r == Err::<HandleResponse, ContractError>(ContractError::Unauthorized)
            && after.config == before.config,
{
}

/// Once a symbol is registered, registering it again fails, whatever feeder and
/// token the second call names, and leaves the first asset and its price record
/// as they were.
pub proof fn law_register_once(
    v0: OracleView,
    v1: OracleView,
    v2: OracleView,
    symbol: Seq<char>,
    feeder1: Seq<u8>,
    token1: Seq<u8>,
    feeder2: Seq<u8>,
    token2: Seq<u8>,
    r1: Result<HandleResponse, ContractError>,
    r2: Result<HandleResponse, ContractError>,
)
    requires
        applied(v0, v1, register_asset_outcome(v0, symbol, feeder1, token1), r1),
        applied(v1, v2, register_asset_outcome(v1, symbol, feeder2, token2), r2),
    ensures
        r2 == Err::<HandleResponse, ContractError>(ContractError::AlreadyExists),
        v2.assets[symbol] == v1.assets[symbol],
        v2.prices[symbol] == v1.prices[symbol],
{
}

/// Right after a successful registration the symbol holds the asset with the
/// given feeder and token, and the price record {price 0, multiplier 1, time 0}.
pub proof fn law_register_pairs_asset_and_price(
    before: OracleView,
    after: OracleView,
    symbol: Seq<char>,
    feeder: Seq<u8>,
    token: Seq<u8>,
    r: Result<HandleResponse, ContractError>,
)
    requires
        applied(before, after, register_asset_outcome(before, symbol, feeder, token), r),
        r is Ok,
    ensures
        after.assets.contains_key(symbol),
        after.assets[symbol] == (AssetView { symbol, feeder, token }),
        after.prices.contains_key(symbol),
        after.prices[symbol] == initial_price(),
{
}

/// Feeding a price succeeds exactly when the symbol is registered and the caller
/// is its feeder. A rejected feed leaves every price record as it was.
pub proof fn law_feed_needs_feeder(
    deps: &OracleStore,
    after: OracleView,
    sender: Seq<u8>,
    time: u64,
    symbol: Seq<char>,
    price: Decimal,
    price_multiplier: Option<Decimal>,
    r: Result<HandleResponse, ContractError>,
)
    requires
        applied(
            deps@,
            after,
            feed_price_outcome(deps@, sender, time, symbol, price, price_multiplier),
            r,
        ),
    ensures
        r is Ok <==> deps@.assets.contains_key(symbol) && sender
            == deps@.assets[symbol].feeder,
        !deps@.assets.contains_key(symbol) ==> r == Err::<HandleResponse, ContractError>(
            ContractError::NotFound(Entity::Asset),
        ),
        deps@.assets.contains_key(symbol) && sender != deps@.assets[symbol].feeder ==> r
            == Err::<HandleResponse, ContractError>(ContractError::Unauthorized),
        r is Err ==> after.prices == deps@.prices,
{
    deps.lemma_paired();
}

/// A successful feed sets the price and the time; it keeps the earlier
/// multiplier where none is given, and stores the given one otherwise.
pub proof fn law_feed_multiplier_carries_over(
    before: OracleView,
    after: OracleView,
    sender: Seq<u8>,
    time: u64,
    symbol: Seq<char>,
    price: Decimal,
    price_multiplier: Option<Decimal>,
    r: Result<HandleResponse, ContractError>,
)
    requires
        applied(
            before,
            after,
            feed_price_outcome(before, sender, time, symbol, price, price_multiplier),
            r,
        ),
        r is Ok,
    ensures
        after.prices[symbol].price == price,
        after.prices[symbol].last_update_time == time,
        after.prices[symbol].price_multiplier == match price_multiplier {
            Some(m) => m,
            None => before.prices[symbol].price_multiplier,
        },
{
}

} // verus!
