use crate::error::{ContractError, Entity};
use cosmwasm_std::Decimal;
use vstd::prelude::*;

verus! {

/// A fixed-point decimal of `cosmwasm_std`. The store only carries such values
/// through; it never looks inside one.
#[verifier::external_type_specification]
#[verifier::external_body]
pub struct ExDecimal(Decimal);

/// The decimal `nominator / denominator`, as `cosmwasm_std` computes it.
pub uninterp spec fn ratio_decimal(nominator: u128, denominator: u128) -> Decimal;

/// Number of atomic units in one whole unit of a decimal.
pub const DECIMAL_FRACTIONAL: u128 = 1_000_000_000_000_000_000;

/// Relies on `cosmwasm_std::Decimal::from_ratio`: the decimal nominator / denominator.
/// It panics on a zero denominator and multiplies the nominator by 10^18 unchecked.
#[verifier::external_body]
fn decimal_from_ratio(nominator: u128, denominator: u128) -> (r: Decimal)
    requires
        denominator > 0,
        nominator <= u128::MAX / DECIMAL_FRACTIONAL,
    ensures
        r == ratio_decimal(nominator, denominator),
{
    Decimal::from_ratio(nominator, denominator)
}

/// The decimal 0.
pub open spec fn decimal_zero() -> Decimal {
    ratio_decimal(0, 1)
}

/// The decimal 1.
pub open spec fn decimal_one() -> Decimal {
    ratio_decimal(1, 1)
}

/// Byte-wise equality of two canonical identities.
pub fn same_identity(a: &Vec<u8>, b: &Vec<u8>) -> (r: bool)
    ensures
        r == (a@ == b@),
{
    if a.len() != b.len() {
        return false;
    }
    let mut i: usize = 0;
    while i < a.len()
        invariant
            a.len() == b.len(),
            i <= a.len(),
            forall|j: int| 0 <= j < i ==> a@[j] == b@[j],
        decreases a.len() - i,
    {
        if a[i] != b[i] {
            return false;
        }
        i = i + 1;
    }
    assert(a@ =~= b@);
    true
}

fn copy_identity(a: &Vec<u8>) -> (r: Vec<u8>)
    ensures
        r@ == a@,
{
    let mut r: Vec<u8> = Vec::new();
    let mut i: usize = 0;
    while i < a.len()
        invariant
            i <= a.len(),
            r@ == a@.subrange(0, i as int),
        decreases a.len() - i,
    {
        r.push(a[i]);
        i = i + 1;
        assert(r@ =~= a@.subrange(0, i as int));
    }
    assert(a@.subrange(0, a.len() as int) =~= a@);
    r
}

/// The singleton configuration: who may change it, and the base denomination.
#[derive(Clone, Debug, PartialEq, Eq)]
pub struct Config {
    pub owner: Vec<u8>,
    pub base_denom: String,
}

pub struct ConfigView {
    pub owner: Seq<u8>,
    pub base_denom: Seq<char>,
}

impl View for Config {
    type V = ConfigView;

    open spec fn view(&self) -> ConfigView {
        ConfigView { owner: self.owner@, base_denom: self.base_denom@ }
    }
}

impl Config {
    pub fn copy(&self) -> (r: Config)
        ensures
            r@ == self@,
    {
        Config { owner: copy_identity(&self.owner), base_denom: self.base_denom.clone() }
    }
}

/// A registered asset: its symbol, the identity allowed to feed its price,
/// and the identity of its token.
#[derive(Clone, Debug, PartialEq, Eq)]
pub struct Asset {
    pub symbol: String,
    pub feeder: Vec<u8>,
    pub token: Vec<u8>,
}

pub struct AssetView {
    pub symbol: Seq<char>,
    pub feeder: Seq<u8>,
    pub token: Seq<u8>,
}

impl View for Asset {
    type V = AssetView;

    open spec fn view(&self) -> AssetView {
        AssetView { symbol: self.symbol@, feeder: self.feeder@, token: self.token@ }
    }
}

impl Asset {
    pub fn copy(&self) -> (r: Asset)
        ensures
            r@ == self@,
    {
        Asset {
            symbol: self.symbol.clone(),
            feeder: copy_identity(&self.feeder),
            token: copy_identity(&self.token),
        }
    }
}

/// The latest price record of an asset.
#[derive(Clone, Copy, Debug, PartialEq, Eq)]
pub struct Price {
    pub price: Decimal,
    pub price_multiplier: Decimal,
    pub last_update_time: u64,
}

/// The record that registration gives a new asset: price 0, multiplier 1, time 0.
pub open spec fn initial_price() -> Price {
    Price { price: decimal_zero(), price_multiplier: decimal_one(), last_update_time: 0 }
}

pub fn new_price_record() -> (r: Price)
    ensures
        r == initial_price(),
{
    Price {
        price: decimal_from_ratio(0, 1),
        price_multiplier: decimal_from_ratio(1, 1),
        last_update_time: 0,
    }
}

/// An asset together with its price record; the two are written and kept together.
struct Entry {
    asset: Asset,
    price: Price,
}

/// Position of the last entry registered under `s`, or -1 where there is none.
spec fn index_of(entries: Seq<Entry>, s: Seq<char>) -> int
    decreases entries.len(),
{
    if entries.len() == 0 {
        -1
    } else if entries.last().asset.symbol@ == s {
        entries.len() - 1
    } else {
        index_of(entries.drop_last(), s)
    }
}

proof fn lemma_index_of(entries: Seq<Entry>, s: Seq<char>)
    ensures
        -1 <= index_of(entries, s) < entries.len(),
        index_of(entries, s) >= 0 ==> entries[index_of(entries, s)].asset.symbol@ == s,
    decreases entries.len(),
{
    if entries.len() > 0 {
        lemma_index_of(entries.drop_last(), s);
    }
}

proof fn lemma_index_of_symbols(a: Seq<Entry>, b: Seq<Entry>, s: Seq<char>)
    requires
        a.len() == b.len(),
        forall|i: int| 0 <= i < a.len() ==> a[i].asset.symbol@ == b[i].asset.symbol@,
    ensures
        index_of(a, s) == index_of(b, s),
    decreases a.len(),
{
    if a.len() > 0 {
        lemma_index_of_symbols(a.drop_last(), b.drop_last(), s);
    }
}

/// The persistent store: the configuration, once written, and the asset
/// registry with one price record per asset.
pub struct OracleStore {
    config: Option<Config>,
    entries: Vec<Entry>,
}

/// What a store holds: the configuration, and the asset and the price record
/// under each registered symbol.
pub struct OracleView {
    pub config: Option<ConfigView>,
    pub assets: Map<Seq<char>, AssetView>,
    pub prices: Map<Seq<char>, Price>,
}

spec fn config_view(c: Option<Config>) -> Option<ConfigView> {
    match c {
        Some(c) => Some(c@),
        None => None,
    }
}

impl View for OracleStore {
    type V = OracleView;

    closed spec fn view(&self) -> OracleView {
        OracleView {
            config: config_view(self.config),
            assets: Map::new(
                |s: Seq<char>| index_of(self.entries@, s) >= 0,
                |s: Seq<char>| self.entries@[index_of(self.entries@, s)].asset@,
            ),
            prices: Map::new(
                |s: Seq<char>| index_of(self.entries@, s) >= 0,
                |s: Seq<char>| self.entries@[index_of(self.entries@, s)].price,
            ),
        }
    }
}

impl OracleStore {
    /// Every registered symbol has both an asset and a price record, and the
    /// asset under a symbol carries that symbol.
    pub proof fn lemma_paired(&self)
        ensures
            self@.assets.dom() == self@.prices.dom(),
            forall|s: Seq<char>| #[trigger]
                self@.assets.contains_key(s) ==> self@.assets[s].symbol == s,
    {
        assert(self@.assets.dom() =~= self@.prices.dom());
        assert forall|s: Seq<char>| #[trigger] self@.assets.contains_key(s) implies self@.assets[s].symbol
            == s by {
            lemma_index_of(self.entries@, s);
        }
    }

    /// An empty store: no configuration and no assets.
    pub fn new() -> (r: OracleStore)
        ensures
            r@.config is None,
            r@.assets == Map::<Seq<char>, AssetView>::empty(),
            r@.prices == Map::<Seq<char>, Price>::empty(),
    {
        let r = OracleStore { config: None, entries: Vec::new() };
        assert(r@.assets =~= Map::<Seq<char>, AssetView>::empty());
        assert(r@.prices =~= Map::<Seq<char>, Price>::empty());
        r
    }

    fn find(&self, symbol: &String) -> (r: Option<usize>)
        ensures
            r is Some <==> index_of(self.entries@, symbol@) >= 0,
            r is Some ==> r->0 == index_of(self.entries@, symbol@) && r->0 < self.entries.len(),
    {
        proof {
            lemma_index_of(self.entries@, symbol@);
        }
        let mut i: usize = self.entries.len();
        assert(self.entries@.subrange(0, i as int) =~= self.entries@);
        while i > 0
            invariant
                i <= self.entries.len(),
                index_of(self.entries@, symbol@) == index_of(
                    self.entries@.subrange(0, i as int),
                    symbol@,
                ),
            decreases i,
        {
            assert(self.entries@.subrange(0, i as int).drop_last() =~= self.entries@.subrange(
                0,
                i - 1,
            ));
            if self.entries[i - 1].asset.symbol == *symbol {
                return Some(i - 1);
            }
            i = i - 1;
        }
        None
    }

    /// The configuration, or `NotFound` where none was written.
    pub fn read_config(&self) -> (r: Result<Config, ContractError>)
        ensures
            match self@.config {
                Some(c) => r is Ok && r->Ok_0@ == c,
                None => r == Err::<Config, ContractError>(ContractError::NotFound(Entity::Config)),
            },
    {
        match &self.config {
            Some(c) => Ok(c.copy()),
            None => Err(ContractError::NotFound(Entity::Config)),
        }
    }

    /// Writes the configuration, replacing any earlier one.
    pub fn store_config(&mut self, config: Config)
        ensures
            final(self)@ == (OracleView { config: Some(config@), ..old(self)@ }),
    {
        self.config = Some(config);
        assert(final(self)@.assets =~= old(self)@.assets);
        assert(final(self)@.prices =~= old(self)@.prices);
    }

    /// The asset registered under `symbol`, or `NotFound`.
    pub fn read_asset(&self, symbol: &String) -> (r: Result<Asset, ContractError>)
        ensures
            if self@.assets.contains_key(symbol@) {
                r is Ok && r->Ok_0@ == self@.assets[symbol@]
            } else {
                r == Err::<Asset, ContractError>(ContractError::NotFound(Entity::Asset))
            },
    {
        match self.find(symbol) {
            Some(i) => Ok(self.entries[i].asset.copy()),
            None => Err(ContractError::NotFound(Entity::Asset)),
        }
    }

    /// The price record of the asset under `symbol`, or `NotFound`.
    pub fn read_price(&self, symbol: &String) -> (r: Result<Price, ContractError>)
        ensures
            if self@.prices.contains_key(symbol@) {
                r == Ok::<Price, ContractError>(self@.prices[symbol@])
            } else {
                r == Err::<Price, ContractError>(ContractError::NotFound(Entity::Price))
            },
    {
        match self.find(symbol) {
            Some(i) => Ok(self.entries[i].price),
            None => Err(ContractError::NotFound(Entity::Price)),
        }
    }

    /// Registers `asset` with `price` as its record, in one step.
    pub fn store_asset(&mut self, asset: Asset, price: Price)
        ensures
            final(self)@ == (OracleView {
                assets: old(self)@.assets.insert(asset@.symbol, asset@),
                prices: old(self)@.prices.insert(asset@.symbol, price),
                ..old(self)@
            }),
    {
        let ghost s = asset@.symbol;
        let ghost before = self.entries@;
        self.entries.push(Entry { asset, price });
        let ghost after = self.entries@;
        assert(after.drop_last() =~= before);
        assert(index_of(after, s) == before.len());
        assert forall|t: Seq<char>| t != s implies index_of(after, t) == index_of(before, t) && (
        index_of(before, t) >= 0 ==> after[index_of(before, t)] == before[index_of(before, t)]) by {
            lemma_index_of(before, t);
        }
        assert(final(self)@.assets =~= old(self)@.assets.insert(s, asset@));
        assert(final(self)@.prices =~= old(self)@.prices.insert(s, price));
    }

    /// Overwrites the price record under `symbol`; `NotFound` where there is none.
    pub fn store_price(&mut self, symbol: &String, price: Price) -> (r: Result<(), ContractError>)
        ensures
            if old(self)@.prices.contains_key(symbol@) {
                r is Ok && final(self)@ == (OracleView {
                    prices: old(self)@.prices.insert(symbol@, price),
                    ..old(self)@
                })
            } else {
                r == Err::<(), ContractError>(ContractError::NotFound(Entity::Price))
                    && final(self)@ == old(self)@
            },
    {
        match self.find(symbol) {
            Some(i) => {
                let ghost before = self.entries@;
                let asset = self.entries[i].asset.copy();
                self.entries.set(i, Entry { asset, price });
                assert forall|t: Seq<char>| index_of(self.entries@, t) == index_of(before, t) by {
                    lemma_index_of_symbols(self.entries@, before, t);
                }
                let ghost after = self.entries@;
                assert forall|t: Seq<char>| index_of(before, t) >= 0 implies after[index_of(
                    before,
                    t,
                )].asset@ == before[index_of(before, t)].asset@ && (t != symbol@ ==> after[index_of(
                    before,
                    t,
                )].price == before[index_of(before, t)].price) by {
                    lemma_index_of(before, t);
                    lemma_index_of(before, symbol@);
                }
                assert(final(self)@.assets =~= old(self)@.assets);
                assert(final(self)@.prices =~= old(self)@.prices.insert(symbol@, price));
                Ok(())
            },
            None => Err(ContractError::NotFound(Entity::Price)),
        }
    }
}

} // verus!
