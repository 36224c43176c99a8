//! Configuration records and the rules a configuration must meet.
use vstd::prelude::*;
use vstd::string::StringExecFns;
use crate::text::{lowercase_of, owned, to_lowercase};

verus! {

/// How one side of the mid price is taken from the order book.
#[derive(Clone, Copy, Debug, PartialEq, Eq, Structural)]
pub enum MidPriceMethod {
    /// The best price of the side.
    Simple,
    /// The volume-weighted average price of the side.
    WeightedByVolume,
    /// The price at which the side's cumulative value reaches a threshold.
    VolumeThreshold,
}

impl Default for MidPriceMethod {
    fn default() -> (m: Self)
        ensures
            m == MidPriceMethod::Simple,
    {
        MidPriceMethod::Simple
    }
}

/// The depth of order book fetched when the configuration does not say.
pub fn default_orderbook_depth() -> (d: u32)
    ensures
        d == 20,
{
    20
}

/// Whether volume trades place a guard order when the configuration does not say.
pub fn default_enable_guard_order() -> (b: bool)
    ensures
        b,
{
    true
}

/// Whether the account's order history must be fetched: one of the sides uses
/// the volume threshold method.
pub fn needs_order_history(bid: MidPriceMethod, ask: MidPriceMethod) -> (b: bool)
    ensures
        b == (bid == MidPriceMethod::VolumeThreshold || ask == MidPriceMethod::VolumeThreshold),
{
    bid == MidPriceMethod::VolumeThreshold || ask == MidPriceMethod::VolumeThreshold
}

/// The credentials of one venue account.
#[derive(Debug)]
pub struct ExchangeConfig {
    pub name: String,
    pub api_key: String,
    pub api_secret: String,
    pub api_passphrase: Option<String>,
}

/// The credentials of one account used for volume trades.
#[derive(Debug)]
pub struct VolumeAccountConfig {
    pub api_key: String,
    pub api_secret: String,
    pub api_passphrase: Option<String>,
}

/// Why a configuration is refused. `index` counts the venues from zero.
#[derive(Debug)]
pub enum ConfigError {
    NoExchanges,
    EmptyName { index: usize },
    EmptyApiKey { index: usize, name: String },
    EmptyApiSecret { index: usize, name: String },
    EmptySymbol,
}

/// What is wrong with the venue at `index`, checked field by field.
pub open spec fn exchange_fault(e: ExchangeConfig, index: usize) -> Option<ConfigError> {
    if e.name@.len() == 0 {
        Some(ConfigError::EmptyName { index })
    } else if e.api_key@.len() == 0 {
        Some(ConfigError::EmptyApiKey { index, name: e.name })
    } else if e.api_secret@.len() == 0 {
        Some(ConfigError::EmptyApiSecret { index, name: e.name })
    } else {
        None
    }
}

/// The fault of the first faulty venue from position `from` on.
pub open spec fn first_exchange_fault(exchanges: Seq<ExchangeConfig>, from: nat) -> Option<
    ConfigError,
>
    decreases exchanges.len() - from,
{
    if from >= exchanges.len() {
        None
    } else {
        match exchange_fault(exchanges[from as int], from as usize) {
            Some(e) => Some(e),
            None => first_exchange_fault(exchanges, from + 1),
        }
    }
}

/// The verdict on the venues and the symbol: at least one venue, every venue with a
/// name, an API key and an API secret (the first fault found is reported), then a
/// symbol.
pub open spec fn exchanges_verdict(exchanges: Seq<ExchangeConfig>, symbol: Seq<char>) -> Result<
    (),
    ConfigError,
> {
    if exchanges.len() == 0 {
        Err(ConfigError::NoExchanges)
    } else {
        match first_exchange_fault(exchanges, 0) {
            Some(e) => Err(e),
            None => if symbol.len() == 0 {
                Err(ConfigError::EmptySymbol)
            } else {
                Ok(())
            },
        }
    }
}

/// Checks the venues and the symbol of a configuration.
pub fn validate_exchanges(exchanges: &[ExchangeConfig], symbol: &str) -> (r: Result<(), ConfigError>)
    ensures
        r == exchanges_verdict(exchanges@, symbol@),
{
    if exchanges.len() == 0 {
        return Err(ConfigError::NoExchanges);
    }
    let mut i: usize = 0;
    while i < exchanges.len()
        invariant
            i <= exchanges@.len(),
            first_exchange_fault(exchanges@, 0) == first_exchange_fault(exchanges@, i as nat),
        decreases exchanges@.len() - i,
    {
        let e = &exchanges[i];
        if e.name.as_str().is_empty() {
            return Err(ConfigError::EmptyName { index: i });
        }
        if e.api_key.as_str().is_empty() {
            return Err(ConfigError::EmptyApiKey { index: i, name: e.name.clone() });
        }
        if e.api_secret.as_str().is_empty() {
            return Err(ConfigError::EmptyApiSecret { index: i, name: e.name.clone() });
        }
        i = i + 1;
    }
    if symbol.is_empty() {
        return Err(ConfigError::EmptySymbol);
    }
    Ok(())
}

/// A venue whose name, API key and API secret are all given.
pub open spec fn venue_complete(e: ExchangeConfig) -> bool {
    e.name@.len() > 0 && e.api_key@.len() > 0 && e.api_secret@.len() > 0
}

proof fn lemma_first_fault(es: Seq<ExchangeConfig>, from: nat)
    ensures
        first_exchange_fault(es, from) is None <==> forall|i: int|
            from <= i < es.len() ==> venue_complete(#[trigger] es[i]),
        first_exchange_fault(es, from) matches Some(e) ==> exists|k: int|
            from <= k < es.len() && !venue_complete(#[trigger] es[k]) && (forall|j: int|
                from <= j < k ==> venue_complete(#[trigger] es[j])) && Some(e) == exchange_fault(
                es[k],
                k as usize,
            ),
    decreases es.len() - from,
{
    if from < es.len() {
        lemma_first_fault(es, from + 1);
        let e0 = es[from as int];
        if !venue_complete(e0) {
            assert(first_exchange_fault(es, from) == exchange_fault(e0, from as usize));
        } else {
            assert(exchange_fault(e0, from as usize) is None);
            assert forall|i: int| from <= i < es.len() && (forall|j: int|
                from + 1 <= j < es.len() ==> venue_complete(#[trigger] es[j])) implies venue_complete(
                es[i],
            ) by {
                if i > from {
                }
            }
            if let Some(e) = first_exchange_fault(es, from) {
                let k = choose|k: int|
                    from + 1 <= k < es.len() && !venue_complete(#[trigger] es[k]) && (forall|j: int|
                        from + 1 <= j < k ==> venue_complete(#[trigger] es[j])) && Some(e)
                        == exchange_fault(es[k], k as usize);
                assert forall|j: int| from <= j < k implies venue_complete(#[trigger] es[j]) by {
                    if j > from {
                    }
                }
            }
        }
    }
}

/// A configuration is accepted exactly when it has a venue, every venue (at every
/// position) has a name, an API key and an API secret, and the symbol is given; a
/// refusal names the first incomplete venue, by position and name, and its first
/// missing field (name, then key, then secret).
pub proof fn lemma_configuration_verdict(es: Seq<ExchangeConfig>, symbol: Seq<char>)
    requires
        es.len() <= usize::MAX,
    ensures
        exchanges_verdict(es, symbol) is Ok <==> (es.len() > 0 && symbol.len() > 0 && forall|i: int|
            0 <= i < es.len() ==> venue_complete(#[trigger] es[i])),
        exchanges_verdict(es, symbol) matches Err(ConfigError::NoExchanges) <==> es.len() == 0,
        exchanges_verdict(es, symbol) matches Err(ConfigError::EmptySymbol) ==> symbol.len() == 0
            && forall|i: int| 0 <= i < es.len() ==> venue_complete(#[trigger] es[i]),
        exchanges_verdict(es, symbol) matches Err(ConfigError::EmptyName { index }) ==> index
            < es.len() && es[index as int].name@.len() == 0 && forall|j: int|
            0 <= j < index ==> venue_complete(#[trigger] es[j]),
        exchanges_verdict(es, symbol) matches Err(ConfigError::EmptyApiKey { index, name }) ==> index
            < es.len() && es[index as int].name@.len() > 0 && es[index as int].api_key@.len() == 0
            && name == es[index as int].name && forall|j: int|
            0 <= j < index ==> venue_complete(#[trigger] es[j]),
        exchanges_verdict(es, symbol) matches Err(ConfigError::EmptyApiSecret { index, name })
            ==> index < es.len() && es[index as int].name@.len() > 0 && es[index as int].api_key@.len()
            > 0 && es[index as int].api_secret@.len() == 0 && name == es[index as int].name
            && forall|j: int| 0 <= j < index ==> venue_complete(#[trigger] es[j]),
{
    lemma_first_fault(es, 0);
    if es.len() > 0 {
        if let Some(e) = first_exchange_fault(es, 0) {
            let k = choose|k: int|
                0 <= k < es.len() && !venue_complete(#[trigger] es[k]) && (forall|j: int|
                    0 <= j < k ==> venue_complete(#[trigger] es[j])) && Some(e) == exchange_fault(
                    es[k],
                    k as usize,
                );
            assert(k as usize == k);
        }
    }
}

/// The first position whose (lower-cased) name equals `target`.
pub fn first_name_match(lower_names: &[String], target: &str) -> (r: Option<usize>)
    ensures
        match r {
            Some(i) => i < lower_names@.len() && lower_names@[i as int]@ == target@ && forall|j: int|
                0 <= j < i ==> #[trigger] lower_names@[j]@ != target@,
            None => forall|j: int| 0 <= j < lower_names@.len() ==> #[trigger] lower_names@[j]@ != target@,
        },
{
    let t = owned(target);
    let mut i: usize = 0;
    while i < lower_names.len()
        invariant
            i <= lower_names@.len(),
            t@ == target@,
            forall|j: int| 0 <= j < i ==> #[trigger] lower_names@[j]@ != target@,
        decreases lower_names@.len() - i,
    {
        if lower_names[i] == t {
            return Some(i);
        }
        i = i + 1;
    }
    None
}

/// The position of the volume configuration to use among those for the venues
/// `names`: the first when no venue is asked for, else the first whose name equals
/// the asked one ignoring case (compared by `str::to_lowercase`).
pub fn select_volume_exchange(names: &[String], wanted: Option<&str>) -> (r: Option<usize>)
    ensures
        wanted is None ==> r == if names@.len() > 0 {
            Some(0usize)
        } else {
            None::<usize>
        },
        wanted matches Some(w) ==> match r {
            Some(i) => i < names@.len() && lowercase_of(names@[i as int]@) == lowercase_of(w@)
                && forall|j: int|
                0 <= j < i ==> lowercase_of(#[trigger] names@[j]@) != lowercase_of(w@),
            None => forall|j: int|
                0 <= j < names@.len() ==> lowercase_of(#[trigger] names@[j]@) != lowercase_of(
                    w@,
                ),
        },
{
    match wanted {
        None => {
            if names.len() > 0 {
                Some(0)
            } else {
                None
            }
        },
        Some(w) => {
            let target = to_lowercase(w);
            let mut lower: Vec<String> = Vec::new();
            let mut i: usize = 0;
            while i < names.len()
                invariant
                    i <= names@.len(),
                    lower@.len() == i,
                    forall|j: int| 0 <= j < i ==> #[trigger] lower@[j]@ == lowercase_of(names@[j]@),
                decreases names@.len() - i,
            {
                lower.push(to_lowercase(names[i].as_str()));
                i = i + 1;
            }
            let r = first_name_match(&lower, target.as_str());
            proof {
                match r {
                    Some(k) => {
                        assert forall|j: int| 0 <= j < k implies lowercase_of(#[trigger] names@[j]@)
                            != lowercase_of(w@) by {
                            assert(lower@[j]@ != target@);
                        }
                    },
                    None => {
                        assert forall|j: int| 0 <= j < names@.len() implies lowercase_of(
                            #[trigger] names@[j]@,
                        ) != lowercase_of(w@) by {
                            assert(lower@[j]@ != target@);
                        }
                    },
                }
            }
            r
        },
    }
}

/// The name of the file that keeps the last placement price of `symbol` on `exchange`.
pub open spec fn state_file_name(exchange: Seq<char>, symbol: Seq<char>) -> Seq<char> {
    ".state_"@ + exchange + "_"@ + symbol + ".json"@
}

/// `.state_{exchange}_{symbol}.json`, where the last placement price is kept.
pub fn state_file(exchange: &str, symbol: &str) -> (p: String)
    ensures
        p@ == state_file_name(exchange@, symbol@),
{
    let mut p = owned(".state_");
    p.append(exchange);
    p.append("_");
    p.append(symbol);
    p.append(".json");
    p
}

} // verus!
