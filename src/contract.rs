use crate::error::{ContractError, Entity};
use crate::state::{
    initial_price, new_price_record, same_identity, Asset, AssetView, Config, ConfigView,
    OracleStore, OracleView, Price,
};
use cosmwasm_std::Decimal;
use vstd::prelude::*;
use vstd::string::to_string_from_display_ensures;

verus! {

/// What the host hands each command: the canonical identity of the caller
/// and the current block time.
pub struct Env {
    pub sender: Vec<u8>,
    pub block_time: u64,
}

/// The configuration written at creation.
pub struct InitMsg {
    pub owner: Vec<u8>,
    pub base_denom: String,
}

/// The commands; identities are canonical.
pub enum HandleMsg {
    UpdateConfig { owner: Option<Vec<u8>> },
    RegisterAsset { symbol: String, feeder: Vec<u8>, token: Vec<u8> },
    FeedPrice { symbol: String, price: Decimal, price_multiplier: Option<Decimal> },
}

/// The read-only queries.
pub enum QueryMsg {
    Config,
    Asset { symbol: String },
    Price { symbol: String },
}

/// What a query returns; identities are canonical.
#[derive(Debug, PartialEq, Eq)]
pub enum QueryResponse {
    Config(Config),
    Asset(Asset),
    Price(Price),
}

/// One key-value entry of the log that a command leaves.
#[derive(Debug, PartialEq, Eq)]
pub struct LogAttribute {
    pub key: String,
    pub value: String,
}

/// What a successful command leaves besides its writes.
#[derive(Debug, PartialEq, Eq)]
pub struct HandleResponse {
    pub log: Vec<LogAttribute>,
}

pub open spec fn option_view(o: Option<Vec<u8>>) -> Option<Seq<u8>> {
    match o {
        Some(v) => Some(v@),
        None => None,
    }
}

/// The store after `update_config`, or the error it is rejected with.
pub open spec fn update_config_outcome(
    v: OracleView,
    sender: Seq<u8>,
    owner: Option<Seq<u8>>,
) -> Result<OracleView, ContractError> {
    match v.config {
        None => Err(ContractError::NotFound(Entity::Config)),
        Some(c) => if sender != c.owner {
            Err(ContractError::Unauthorized)
        } else {
            let new_owner = match owner {
                Some(o) => o,
                None => c.owner,
            };
            Ok(OracleView { config: Some(ConfigView { owner: new_owner, ..c }), ..v })
        },
    }
}

/// The store after `register_asset`, or the error it is rejected with. Any
/// caller may register; a symbol is registered once.
pub open spec fn register_asset_outcome(
    v: OracleView,
    symbol: Seq<char>,
    feeder: Seq<u8>,
    token: Seq<u8>,
) -> Result<OracleView, ContractError> {
    if v.assets.contains_key(symbol) {
        Err(ContractError::AlreadyExists)
    } else {
        Ok(
            OracleView {
                assets: v.assets.insert(symbol, AssetView { symbol, feeder, token }),
                prices: v.prices.insert(symbol, initial_price()),
                ..v
            },
        )
    }
}

/// The store after `feed_price`, or the error it is rejected with. Price and
/// time are always overwritten, the multiplier only where one is given.
pub open spec fn feed_price_outcome(
    v: OracleView,
    sender: Seq<u8>,
    time: u64,
    symbol: Seq<char>,
    price: Decimal,
    price_multiplier: Option<Decimal>,
) -> Result<OracleView, ContractError> {
    if !v.assets.contains_key(symbol) {
        Err(ContractError::NotFound(Entity::Asset))
    } else if sender != v.assets[symbol].feeder {
        Err(ContractError::Unauthorized)
    } else if !v.prices.contains_key(symbol) {
        Err(ContractError::NotFound(Entity::Price))
    } else {
        let old = v.prices[symbol];
        let multiplier = match price_multiplier {
            Some(m) => m,
            None => old.price_multiplier,
        };
        Ok(
            OracleView {
                prices: v.prices.insert(
                    symbol,
                    Price { price, price_multiplier: multiplier, last_update_time: time },
                ),
                ..v
            },
        )
    }
}

/// The store after any command, or the error it is rejected with.
pub open spec fn handle_outcome(v: OracleView, env: Env, msg: HandleMsg) -> Result<
    OracleView,
    ContractError,
> {
    match msg {
        HandleMsg::UpdateConfig { owner } => update_config_outcome(
            v,
            env.sender@,
            option_view(owner),
        ),
        HandleMsg::RegisterAsset { symbol, feeder, token } => register_asset_outcome(
            v,
            symbol@,
            feeder@,
            token@,
        ),
        HandleMsg::FeedPrice { symbol, price, price_multiplier } => feed_price_outcome(
            v,
            env.sender@,
            env.block_time,
            symbol@,
            price,
            price_multiplier,
        ),
    }
}

/// The log of a price feed: the action, then the new price as text.
pub open spec fn is_feed_log(log: Seq<LogAttribute>, price: Decimal) -> bool {
    &&& log.len() == 2
    &&& log[0].key@ == "action"@
    &&& log[0].value@ == "price_feed"@
    &&& log[1].key@ == "price"@
    &&& to_string_from_display_ensures::<Decimal>(&price, log[1].value)
}

/// Applies `outcome` to the store: the new view where it is `Ok`, none of it otherwise.
pub open spec fn applied(
    before: OracleView,
    after: OracleView,
    outcome: Result<OracleView, ContractError>,
    r: Result<HandleResponse, ContractError>,
) -> bool {
    match outcome {
        Ok(v) => r is Ok && after == v,
        Err(e) => r == Err::<HandleResponse, ContractError>(e) && after == before,
    }
}

/// Writes the configuration; called once, when the oracle is created.
pub fn init(deps: &mut OracleStore, msg: InitMsg)
    ensures
        final(deps)@ == (OracleView {
            config: Some(ConfigView { owner: msg.owner@, base_denom: msg.base_denom@ }),
            ..old(deps)@
        }),
{
    deps.store_config(Config { owner: msg.owner, base_denom: msg.base_denom });
}

/// Runs one command against the store.
pub fn handle(deps: &mut OracleStore, env: Env, msg: HandleMsg) -> (r: Result<
    HandleResponse,
    ContractError,
>)
    ensures
        applied(old(deps)@, final(deps)@, handle_outcome(old(deps)@, env, msg), r),
        r is Ok ==> match msg {
            HandleMsg::FeedPrice { price, .. } => is_feed_log(r->Ok_0.log@, price),
            _ => r->Ok_0.log@.len() == 0,
        },
{
    match msg {
        HandleMsg::UpdateConfig { owner } => try_update_config(deps, env, owner),
        HandleMsg::RegisterAsset { symbol, feeder, token } => try_register_asset(
            deps,
            env,
            symbol,
            feeder,
            token,
        ),
        HandleMsg::FeedPrice { symbol, price, price_multiplier } => try_feed_price(
            deps,
            env,
            symbol,
            price,
            price_multiplier,
        ),
    }
}

/// Lets the current owner hand the configuration to `owner`, or only confirm
/// its role where `owner` is `None`.
pub fn try_update_config(deps: &mut OracleStore, env: Env, owner: Option<Vec<u8>>) -> (r: Result<
    HandleResponse,
    ContractError,
>)
    ensures
        applied(
            old(deps)@,
            final(deps)@,
            update_config_outcome(old(deps)@, env.sender@, option_view(owner)),
            r,
        ),
        r is Ok ==> r->Ok_0.log@.len() == 0,
{
    let mut config = deps.read_config()?;
    if !same_identity(&env.sender, &config.owner) {
        return Err(ContractError::Unauthorized);
    }
    if let Some(owner) = owner {
        config.owner = owner;
    }
    deps.store_config(config);
    Ok(HandleResponse { log: Vec::new() })
}

/// Registers an asset under a new symbol, with the price record
/// `{0, 1, 0}`; a symbol that is already registered is rejected.
pub fn try_register_asset(
    deps: &mut OracleStore,
    env: Env,
    symbol: String,
    feeder: Vec<u8>,
    token: Vec<u8>,
) -> (r: Result<HandleResponse, ContractError>)
    ensures
        applied(
            old(deps)@,
            final(deps)@,
            register_asset_outcome(old(deps)@, symbol@, feeder@, token@),
            r,
        ),
        r is Ok ==> r->Ok_0.log@.len() == 0,
{
    if deps.read_asset(&symbol).is_ok() {
        return Err(ContractError::AlreadyExists);
    }
    let price = new_price_record();
    deps.store_asset(Asset { symbol, feeder, token }, price);
    Ok(HandleResponse { log: Vec::new() })
}

/// Records a new price, at the block time, for the asset under `symbol`;
/// only the asset's feeder may do so.
pub fn try_feed_price(
    deps: &mut OracleStore,
    env: Env,
    symbol: String,
    price: Decimal,
    price_multiplier: Option<Decimal>,
) -> (r: Result<HandleResponse, ContractError>)
    ensures
        applied(
            old(deps)@,
            final(deps)@,
            feed_price_outcome(
                old(deps)@,
                env.sender@,
                env.block_time,
                symbol@,
                price,
                price_multiplier,
            ),
            r,
        ),
        r is Ok ==> is_feed_log(r->Ok_0.log@, price),
{
    let asset = deps.read_asset(&symbol)?;
    if !same_identity(&env.sender, &asset.feeder) {
        return Err(ContractError::Unauthorized);
    }
    let mut state = deps.read_price(&symbol)?;
    state.last_update_time = env.block_time;
    state.price = price;
    if let Some(price_multiplier) = price_multiplier {
        state.price_multiplier = price_multiplier;
    }
    let stored = deps.store_price(&symbol, state);
    if stored.is_err() {
        return Err(ContractError::NotFound(Entity::Price));
    }
    let mut log: Vec<LogAttribute> = Vec::new();
    log.push(LogAttribute { key: "action".to_owned(), value: "price_feed".to_owned() });
    log.push(LogAttribute { key: "price".to_owned(), value: price.to_string() });
    proof {
        reveal_strlit("action");
        reveal_strlit("price_feed");
        reveal_strlit("price");
    }
    Ok(HandleResponse { log })
}

/// What a query answers, over the views of the records it returns.
pub enum QueryAnswer {
    Config(ConfigView),
    Asset(AssetView),
    Price(Price),
}

impl View for QueryResponse {
    type V = QueryAnswer;

    open spec fn view(&self) -> QueryAnswer {
        match self {
            QueryResponse::Config(c) => QueryAnswer::Config(c@),
            QueryResponse::Asset(a) => QueryAnswer::Asset(a@),
            QueryResponse::Price(p) => QueryAnswer::Price(*p),
        }
    }
}

pub open spec fn answer_view(r: Result<QueryResponse, ContractError>) -> Result<
    QueryAnswer,
    ContractError,
> {
    match r {
        Ok(x) => Ok(x@),
        Err(e) => Err(e),
    }
}

/// The answer to a query on a store with view `v`.
pub open spec fn query_outcome(v: OracleView, msg: QueryMsg) -> Result<QueryAnswer, ContractError> {
    match msg {
        QueryMsg::Config => match v.config {
            Some(c) => Ok(QueryAnswer::Config(c)),
            None => Err(ContractError::NotFound(Entity::Config)),
        },
        QueryMsg::Asset { symbol } => if v.assets.contains_key(symbol@) {
            Ok(QueryAnswer::Asset(v.assets[symbol@]))
        } else {
            Err(ContractError::NotFound(Entity::Asset))
        },
        QueryMsg::Price { symbol } => if v.prices.contains_key(symbol@) {
            Ok(QueryAnswer::Price(v.prices[symbol@]))
        } else {
            Err(ContractError::NotFound(Entity::Price))
        },
    }
}

/// Answers a query; queries read the store and change nothing.
pub fn query(deps: &OracleStore, msg: QueryMsg) -> (r: Result<QueryResponse, ContractError>)
    ensures
        answer_view(r) == query_outcome(deps@, msg),
{
    match msg {
        QueryMsg::Config => Ok(QueryResponse::Config(query_config(deps)?)),
        QueryMsg::Asset { symbol } => Ok(QueryResponse::Asset(query_asset(deps, symbol)?)),
        QueryMsg::Price { symbol } => Ok(QueryResponse::Price(query_price(deps, symbol)?)),
    }
}

/// The configuration, or `NotFound` before it was written.
pub fn query_config(deps: &OracleStore) -> (r: Result<Config, ContractError>)
    ensures
        match deps@.config {
            Some(c) => r is Ok && r->Ok_0@ == c,
            None => r == Err::<Config, ContractError>(ContractError::NotFound(Entity::Config)),
        },
{
    deps.read_config()
}

/// The asset under `symbol`, or `NotFound`.
pub fn query_asset(deps: &OracleStore, symbol: String) -> (r: Result<Asset, ContractError>)
    ensures
        if deps@.assets.contains_key(symbol@) {
            r is Ok && r->Ok_0@ == deps@.assets[symbol@]
        } else {
            r == Err::<Asset, ContractError>(ContractError::NotFound(Entity::Asset))
        },
{
    deps.read_asset(&symbol)
}

/// The price record under `symbol`, or `NotFound`.
pub fn query_price(deps: &OracleStore, symbol: String) -> (r: Result<Price, ContractError>)
    ensures
        if deps@.prices.contains_key(symbol@) {
            r == Ok::<Price, ContractError>(deps@.prices[symbol@])
        } else {
            r == Err::<Price, ContractError>(ContractError::NotFound(Entity::Price))
        },
{
    deps.read_price(&symbol)
}

} // verus!
