//! The venues: building signed requests and reading their answers.
use vstd::prelude::*;
use crate::text::owned;

pub mod mexc;
pub mod gate;
pub mod kucoin;

pub use mexc::MexcExchange;
pub use gate::GateExchange;
pub use kucoin::KucoinExchange;

verus! {

/// The venues the bot trades on.
#[derive(Clone, Copy, Debug, PartialEq, Eq, Structural)]
pub enum ExchangeType {
    Mexc,
    Gate,
    Kucoin,
}

/// A venue with the credentials of one account.
pub enum ExchangeClient {
    Mexc(MexcExchange),
    Gate(GateExchange),
    Kucoin(KucoinExchange),
}

/// Why a venue could not be set up.
#[derive(Debug, PartialEq, Eq, Structural)]
pub enum CreateExchangeError {
    /// KuCoin signs with a passphrase, and none was given.
    MissingPassphrase,
}

/// Sets up a venue for an account: KuCoin needs a passphrase; the other venues
/// ignore it.
pub fn create_exchange(
    exchange_type: &ExchangeType,
    api_key: String,
    api_secret: String,
    api_passphrase: Option<String>,
) -> (r: Result<ExchangeClient, CreateExchangeError>)
    ensures
        match *exchange_type {
            ExchangeType::Mexc => r matches Ok(ExchangeClient::Mexc(x)) && x.key() == api_key@
                && x.secret() == api_secret@,
            ExchangeType::Gate => r matches Ok(ExchangeClient::Gate(x)) && x.key() == api_key@
                && x.secret() == api_secret@,
            ExchangeType::Kucoin => match api_passphrase {
                None => r == Err::<ExchangeClient, CreateExchangeError>(
                    CreateExchangeError::MissingPassphrase,
                ),
                Some(p) => r matches Ok(ExchangeClient::Kucoin(x)) && x.key() == api_key@
                    && x.secret() == api_secret@ && x.passphrase() == p@,
            },
        },
{
    match exchange_type {
        ExchangeType::Mexc => Ok(ExchangeClient::Mexc(MexcExchange::new(api_key, api_secret))),
        ExchangeType::Gate => Ok(ExchangeClient::Gate(GateExchange::new(api_key, api_secret))),
        ExchangeType::Kucoin => match api_passphrase {
            None => Err(CreateExchangeError::MissingPassphrase),
            Some(p) => Ok(ExchangeClient::Kucoin(KucoinExchange::new(api_key, api_secret, p))),
        },
    }
}

/// The text of a field of a venue's answer, or `default` when the field is missing.
pub open spec fn text_or_spec(value: Option<String>, default: Seq<char>) -> Seq<char> {
    match value {
        Some(v) => v@,
        None => default,
    }
}

/// The text of a field of a venue's answer, or `default` when the field is missing.
pub fn text_or(value: Option<String>, default: &str) -> (r: String)
    ensures
        r@ == text_or_spec(value, default@),
{
    match value {
        Some(v) => v,
        None => owned(default),
    }
}

proof fn lemma_chunk_step(k: nat, size: nat)
    ensures
        (k + 1) * size == k * size + size,
{
    assert((k + 1) * size == k * size + size) by (nonlinear_arith);
}

proof fn lemma_ceil_div(n: int, size: int, k: int)
    requires
        size > 0,
        n >= 0,
        k >= 0,
        k * size >= n,
        k == 0 || (k - 1) * size < n,
    ensures
        k == (n + size - 1) / size,
{
    let q = (n + size - 1) / size;
    let r = (n + size - 1) % size;
    assert(n + size - 1 == q * size + r && 0 <= r < size) by (nonlinear_arith)
        requires
            size > 0,
            q == (n + size - 1) / size,
            r == (n + size - 1) % size,
    ;
    if k == 0 {
        assert(n == 0) by (nonlinear_arith)
            requires
                k == 0,
                k * size >= n,
                n >= 0,
        ;
        assert(q == 0) by (nonlinear_arith)
            requires
                n == 0,
                size > 0,
                n + size - 1 == q * size + r,
                0 <= r < size,
        ;
    } else {
        assert(k == q) by (nonlinear_arith)
            requires
                size > 0,
                k >= 1,
                k * size >= n,
                (k - 1) * size < n,
                n + size - 1 == q * size + r,
                0 <= r < size,
        ;
    }
}

/// Splits positions `0..n` into consecutive batches of `size` (the last may be
/// shorter), as `[start, end)` pairs: batch `k` is `[k * size, min(k * size + size, n))`.
pub fn chunk_ranges(n: usize, size: usize) -> (r: Vec<(usize, usize)>)
    requires
        size > 0,
        n + size <= usize::MAX,
    ensures
        forall|k: int|
            0 <= k < r@.len() ==> #[trigger] r@[k].0 == k * size && r@[k].1 == if k * size + size
                <= n {
                k * size + size
            } else {
                n as int
            },
        r@.len() * size >= n,
        r@.len() == 0 || (r@.len() - 1) * size < n,
        r@.len() == (n + size - 1) / size as int,
{
    let mut r: Vec<(usize, usize)> = Vec::new();
    let mut start: usize = 0;
    assert(r@.len() * size == 0) by (nonlinear_arith)
        requires
            r@.len() == 0,
    ;
    while start < n
        invariant
            size > 0,
            n + size <= usize::MAX,
            start == r@.len() * size,
            r@.len() == 0 || (r@.len() - 1) * size < n,
            r@.len() > 0 ==> start <= n + size,
            start <= n + size,
            forall|k: int|
                0 <= k < r@.len() ==> #[trigger] r@[k].0 == k * size && r@[k].1 == if k * size
                    + size <= n {
                    k * size + size
                } else {
                    n as int
                },
        decreases n + size - start,
    {
        let end = if start + size <= n {
            start + size
        } else {
            n
        };
        proof {
            lemma_chunk_step(r@.len(), size as nat);
        }
        r.push((start, end));
        start = start + size;
    }
    proof {
        lemma_ceil_div(n as int, size as int, r@.len() as int);
    }
    r
}

/// The number of batches of `size` that `n` positions make (rounded up).
pub fn batch_count(n: usize, size: usize) -> (c: usize)
    requires
        size > 0,
        n + size <= usize::MAX,
    ensures
        c == (n + size - 1) / size as int,
{
    (n + size - 1) / size
}

} // verus!
