//! Decisions of the command-line operations that need no prices: confirmations,
//! which listed orders and fills are shown or used and in what order, and from when
//! fills are synchronised.
use vstd::prelude::*;
use vstd::string::{StrSliceExecFns, StringSliceAdditionalSpecFns};
use vstd::utf8::{encode_utf8, is_char_boundary};
use crate::exchange::OpenOrder;
use crate::text::{
    chars_of, ends_with, is_whitespace, is_whitespace_char, lowercase_of, owned, str_ends_with,
    string_of, to_lowercase,
};

verus! {

/// `s` without the white space at its start.
pub open spec fn trim_start(s: Seq<char>) -> Seq<char>
    decreases s.len(),
{
    if s.len() > 0 && is_whitespace_char(s[0]) {
        trim_start(s.drop_first())
    } else {
        s
    }
}

/// `s` without the white space at its end.
pub open spec fn trim_end(s: Seq<char>) -> Seq<char>
    decreases s.len(),
{
    if s.len() > 0 && is_whitespace_char(s.last()) {
        trim_end(s.drop_last())
    } else {
        s
    }
}

/// `s` without white space at either end (what `str::trim` gives).
pub open spec fn trimmed(s: Seq<char>) -> Seq<char> {
    trim_end(trim_start(s))
}

proof fn lemma_trim_start_skip(s: Seq<char>, i: int)
    requires
        0 <= i <= s.len(),
        forall|j: int| 0 <= j < i ==> is_whitespace_char(#[trigger] s[j]),
    ensures
        trim_start(s) == trim_start(s.subrange(i, s.len() as int)),
    decreases i,
{
    if i > 0 {
        assert(s.drop_first().subrange(i - 1, s.drop_first().len() as int) =~= s.subrange(
            i,
            s.len() as int,
        ));
        lemma_trim_start_skip(s.drop_first(), i - 1);
    } else {
        assert(s.subrange(0, s.len() as int) =~= s);
    }
}

proof fn lemma_trim_end_cut(s: Seq<char>, k: int)
    requires
        0 <= k <= s.len(),
        forall|j: int| k <= j < s.len() ==> is_whitespace_char(#[trigger] s[j]),
    ensures
        trim_end(s) == trim_end(s.subrange(0, k)),
    decreases s.len() - k,
{
    if k < s.len() {
        assert(s.drop_last().subrange(0, k) =~= s.subrange(0, k));
        lemma_trim_end_cut(s.drop_last(), k);
    } else {
        assert(s.subrange(0, s.len() as int) =~= s);
    }
}

/// `s` without white space at either end.
pub fn trim(s: &str) -> (r: String)
    ensures
        r@ == trimmed(s@),
{
    let v = chars_of(s);
    let mut a: usize = 0;
    while a < v.len() && is_whitespace(v[a])
        invariant
            v@ == s@,
            a <= v@.len(),
            forall|j: int| 0 <= j < a ==> is_whitespace_char(#[trigger] s@[j]),
        decreases v@.len() - a,
    {
        a = a + 1;
    }
    proof {
        lemma_trim_start_skip(s@, a as int);
    }
    let ghost t = s@.subrange(a as int, s@.len() as int);
    assert(a < v@.len() ==> !is_whitespace_char(t[0]));
    assert(trim_start(s@) == t);
    let mut b: usize = v.len();
    while b > a && is_whitespace(v[b - 1])
        invariant
            v@ == s@,
            a <= b <= v@.len(),
            t == s@.subrange(a as int, s@.len() as int),
            forall|j: int| b <= j < v@.len() ==> is_whitespace_char(#[trigger] s@[j]),
        decreases b,
    {
        b = b - 1;
    }
    proof {
        assert forall|j: int| (b - a) <= j < t.len() implies is_whitespace_char(#[trigger] t[j]) by {
            assert(t[j] == s@[a + j]);
        }
        lemma_trim_end_cut(t, (b - a) as int);
        let u = t.subrange(0, (b - a) as int);
        assert(u =~= s@.subrange(a as int, b as int));
        if u.len() > 0 {
            assert(u.last() == s@[b - 1]);
        }
        assert(trim_end(u) == u);
    }
    let mut out: Vec<char> = Vec::new();
    let mut k: usize = a;
    while k < b
        invariant
            v@ == s@,
            a <= k <= b <= v@.len(),
            out@ == s@.subrange(a as int, k as int),
        decreases b - k,
    {
        out.push(v[k]);
        assert(s@.subrange(a as int, k + 1) =~= s@.subrange(a as int, k as int).push(s@[k as int]));
        k = k + 1;
    }
    string_of(&out)
}

/// Whether a trimmed, lower-cased answer is `yes`.
pub fn is_yes(answer: &str) -> (b: bool)
    ensures
        b == (answer@ == "yes"@),
{
    let a = owned(answer);
    let yes = owned("yes");
    a == yes
}

/// Whether an answer confirms an operation: `yes` in any case, white space around
/// it ignored.
pub fn is_confirmed(input: &str) -> (b: bool)
    ensures
        b == (lowercase_of(trimmed(input@)) == "yes"@),
{
    let t = trim(input);
    let l = to_lowercase(t.as_str());
    is_yes(l.as_str())
}

/// Whether a listed order is closed: not `NEW` and not `PARTIALLY_FILLED`.
pub open spec fn is_closed(o: OpenOrder) -> bool {
    o.status@ != "NEW"@ && o.status@ != "PARTIALLY_FILLED"@
}

/// The first `limit` closed orders of a listing, in its order.
pub open spec fn closed_selection(orders: Seq<OpenOrder>, limit: u32) -> Seq<OpenOrder> {
    let closed = orders.filter(|o: OpenOrder| is_closed(o));
    closed.take(
        if closed.len() < limit {
            closed.len() as int
        } else {
            limit as int
        },
    )
}

/// The first `limit` closed orders of a listing, in its order.
pub fn select_closed_orders(orders: &[OpenOrder], limit: u32) -> (r: Vec<OpenOrder>)
    ensures
        r@ == closed_selection(orders@, limit),
{
    let ghost pred = |o: OpenOrder| is_closed(o);
    let new_status = owned("NEW");
    let partial = owned("PARTIALLY_FILLED");
    let mut r: Vec<OpenOrder> = Vec::new();
    let mut i: usize = 0;
    while i < orders.len() && r.len() < limit as usize
        invariant
            i <= orders@.len(),
            pred == (|o: OpenOrder| is_closed(o)),
            new_status@ == "NEW"@,
            partial@ == "PARTIALLY_FILLED"@,
            r@ == orders@.take(i as int).filter(pred),
            r@.len() <= limit,
        decreases orders@.len() - i,
    {
        proof {
            orders@.take(i as int).lemma_filter_push(orders@[i as int], pred);
            assert(orders@.take(i + 1) =~= orders@.take(i as int).push(orders@[i as int]));
        }
        let o = &orders[i];
        if !(o.status == new_status) && !(o.status == partial) {
            r.push(o.copy());
        }
        i = i + 1;
    }
    proof {
        let closed = orders@.filter(pred);
        let pre = orders@.take(i as int);
        let post = orders@.subrange(i as int, orders@.len() as int);
        assert(orders@ =~= pre + post);
        Seq::filter_distributes_over_add(pre, post, pred);
        assert(closed == pre.filter(pred) + post.filter(pred));
        if i == orders@.len() {
            assert(post =~= Seq::<OpenOrder>::empty());
            assert(post.filter(pred) =~= Seq::<OpenOrder>::empty()) by {
                reveal(Seq::filter);
            }
            assert(closed =~= r@);
        }
        assert(closed.take(r@.len() as int) =~= r@);
    }
    r
}

/// The closed orders shown: at most `limit` of the listed orders, none of them `NEW`
/// or `PARTIALLY_FILLED`; and when the limit does not cut the listing, every listed
/// order of any other status (`FILLED`, `CANCELED`, `CLOSED`, `PARTIALLY_CANCELED`,
/// ...) is among them.
pub proof fn lemma_closed_selection(orders: Seq<OpenOrder>, limit: u32)
    ensures
        closed_selection(orders, limit).len() <= limit,
        ({
            let count = orders.filter(
                |o: OpenOrder| o.status@ != "NEW"@ && o.status@ != "PARTIALLY_FILLED"@,
            ).len();
            closed_selection(orders, limit).len() == if count < limit {
                count
            } else {
                limit as nat
            }
        }),
        forall|j: int|
            0 <= j < closed_selection(orders, limit).len() ==> {
                let o = #[trigger] closed_selection(orders, limit)[j];
                &&& orders.contains(o)
                &&& o.status@ != "NEW"@
                &&& o.status@ != "PARTIALLY_FILLED"@
            },
        limit >= orders.len() ==> forall|k: int|
            0 <= k < orders.len() && orders[k].status@ != "NEW"@ && orders[k].status@
                != "PARTIALLY_FILLED"@ ==> closed_selection(orders, limit).contains(
                #[trigger] orders[k],
            ),
{
    let pred = |o: OpenOrder| is_closed(o);
    let closed = orders.filter(pred);
    orders.lemma_filter_len(pred);
    let inline = |o: OpenOrder| o.status@ != "NEW"@ && o.status@ != "PARTIALLY_FILLED"@;
    assert(pred =~= inline);
    let n = if closed.len() < limit {
        closed.len() as int
    } else {
        limit as int
    };
    let sel = closed.take(n);
    assert(sel == closed_selection(orders, limit));
    assert forall|j: int| 0 <= j < sel.len() implies {
        let o = #[trigger] sel[j];
        &&& orders.contains(o)
        &&& o.status@ != "NEW"@
        &&& o.status@ != "PARTIALLY_FILLED"@
    } by {
        assert(sel[j] == closed[j]);
        orders.lemma_filter_pred(pred, j);
        assert(closed.contains(closed[j]));
        orders.lemma_filter_contains_rev(pred, closed[j]);
    }
    if limit >= orders.len() {
        assert(sel =~= closed);
        assert forall|k: int|
            0 <= k < orders.len() && orders[k].status@ != "NEW"@ && orders[k].status@
                != "PARTIALLY_FILLED"@ implies sel.contains(#[trigger] orders[k]) by {
            orders.lemma_filter_contains(pred, k);
        }
    }
}

/// How many orders are fetched to show `closed` closed ones: 100 more.
pub fn closed_fetch_limit(closed: u32) -> (n: u32)
    requires
        closed + 100 <= u32::MAX,
    ensures
        n == closed + 100,
{
    closed + 100
}

/// Where the fills to analyse start among `total` fills sorted by time: the
/// `limit` most recent when `limit` is positive and smaller than `total`, else all.
pub fn recent_trades_start(total: usize, limit: usize) -> (start: usize)
    ensures
        start == if limit > 0 && total > limit {
            total - limit
        } else {
            0
        },
{
    if limit > 0 && total > limit {
        total - limit
    } else {
        0
    }
}

/// `true` when fill `a` comes before fill `b` when fills are sorted by time
/// keeping the order of equal times.
pub open spec fn before(times: Seq<i64>, a: usize, b: usize) -> bool {
    times[a as int] < times[b as int] || (times[a as int] == times[b as int] && a < b)
}

/// The positions of fills (given by their times) in the order of a stable sort by
/// time: a permutation of `0..times.len()` in which each position comes after the
/// positions with earlier times and, among equal times, after smaller positions.
pub fn order_by_time(times: &[i64]) -> (r: Vec<usize>)
    ensures
        r@.len() == times@.len(),
        forall|k: int| 0 <= k < r@.len() ==> #[trigger] r@[k] < times@.len(),
        forall|a: int, b: int|
            0 <= a < b < r@.len() ==> before(times@, #[trigger] r@[a], #[trigger] r@[b]),
{
    let mut r: Vec<usize> = Vec::new();
    let mut i: usize = 0;
    while i < times.len()
        invariant
            i <= times@.len(),
            r@.len() == i,
            forall|k: int| 0 <= k < r@.len() ==> #[trigger] r@[k] < i,
            forall|a: int, b: int|
                0 <= a < b < r@.len() ==> before(times@, #[trigger] r@[a], #[trigger] r@[b]),
        decreases times@.len() - i,
    {
        let mut pos: usize = r.len();
        while pos > 0 && (times[i] < times[r[pos - 1]])
            invariant
                i < times@.len(),
                pos <= r@.len(),
                forall|k: int| 0 <= k < r@.len() ==> #[trigger] r@[k] < i,
                forall|j: int| pos <= j < r@.len() ==> before(times@, i, #[trigger] r@[j]),
            decreases pos,
        {
            pos = pos - 1;
        }
        proof {
            if pos > 0 {
                assert(r@[pos - 1] < i);
                assert(before(times@, r@[pos - 1], i));
                assert forall|j: int| 0 <= j < pos implies before(times@, #[trigger] r@[j], i) by {
                    if j < pos - 1 {
                        assert(before(times@, r@[j], r@[pos - 1]));
                    }
                }
            }
        }
        let ghost old_r = r@;
        r.insert(pos, i);
        proof {
            assert forall|k: int| 0 <= k < r@.len() implies #[trigger] r@[k] < i + 1 by {
                if k < pos {
                    assert(r@[k] == old_r[k]);
                } else if k > pos {
                    assert(r@[k] == old_r[k - 1]);
                }
            }
            assert forall|a: int, b: int| 0 <= a < b < r@.len() implies before(
                times@,
                #[trigger] r@[a],
                #[trigger] r@[b],
            ) by {
                let ra = if a < pos {
                    old_r[a]
                } else if a == pos {
                    i
                } else {
                    old_r[a - 1]
                };
                let rb = if b < pos {
                    old_r[b]
                } else if b == pos {
                    i
                } else {
                    old_r[b - 1]
                };
                assert(r@[a] == ra);
                assert(r@[b] == rb);
                if a < pos && b > pos {
                    assert(before(times@, old_r[a], i));
                    assert(before(times@, i, old_r[b - 1]));
                }
            }
        }
        i = i + 1;
    }
    r
}

/// `true` when order `a` comes before order `b` when orders are sorted newest first
/// keeping the order of equal times.
pub open spec fn newer(times: Seq<i64>, a: usize, b: usize) -> bool {
    times[a as int] > times[b as int] || (times[a as int] == times[b as int] && a < b)
}

/// The positions of orders (given by their times) in the order of a stable sort by
/// time, newest first: a permutation of `0..times.len()` in which each position comes
/// after the positions with later times and, among equal times, after smaller positions.
pub fn newest_first(times: &[i64]) -> (r: Vec<usize>)
    ensures
        r@.len() == times@.len(),
        forall|k: int| 0 <= k < r@.len() ==> #[trigger] r@[k] < times@.len(),
        forall|a: int, b: int|
            0 <= a < b < r@.len() ==> newer(times@, #[trigger] r@[a], #[trigger] r@[b]),
{
    let mut r: Vec<usize> = Vec::new();
    let mut i: usize = 0;
    while i < times.len()
        invariant
            i <= times@.len(),
            r@.len() == i,
            forall|k: int| 0 <= k < r@.len() ==> #[trigger] r@[k] < i,
            forall|a: int, b: int|
                0 <= a < b < r@.len() ==> newer(times@, #[trigger] r@[a], #[trigger] r@[b]),
        decreases times@.len() - i,
    {
        let mut pos: usize = r.len();
        while pos > 0 && (times[i] > times[r[pos - 1]])
            invariant
                i < times@.len(),
                pos <= r@.len(),
                forall|k: int| 0 <= k < r@.len() ==> #[trigger] r@[k] < i,
                forall|j: int| pos <= j < r@.len() ==> newer(times@, i, #[trigger] r@[j]),
            decreases pos,
        {
            pos = pos - 1;
        }
        proof {
            if pos > 0 {
                assert(r@[pos - 1] < i);
                assert(newer(times@, r@[pos - 1], i));
                assert forall|j: int| 0 <= j < pos implies newer(times@, #[trigger] r@[j], i) by {
                    if j < pos - 1 {
                        assert(newer(times@, r@[j], r@[pos - 1]));
                    }
                }
            }
        }
        let ghost old_r = r@;
        r.insert(pos, i);
        proof {
            assert forall|k: int| 0 <= k < r@.len() implies #[trigger] r@[k] < i + 1 by {
                if k < pos {
                    assert(r@[k] == old_r[k]);
                } else if k > pos {
                    assert(r@[k] == old_r[k - 1]);
                }
            }
            assert forall|a: int, b: int| 0 <= a < b < r@.len() implies newer(
                times@,
                #[trigger] r@[a],
                #[trigger] r@[b],
            ) by {
                let ra = if a < pos {
                    old_r[a]
                } else if a == pos {
                    i
                } else {
                    old_r[a - 1]
                };
                let rb = if b < pos {
                    old_r[b]
                } else if b == pos {
                    i
                } else {
                    old_r[b - 1]
                };
                assert(r@[a] == ra);
                assert(r@[b] == rb);
                if a < pos && b > pos {
                    assert(newer(times@, old_r[a], i));
                    assert(newer(times@, i, old_r[b - 1]));
                }
            }
        }
        i = i + 1;
    }
    r
}

/// From when fills are synchronised (milliseconds): after the last stored fill;
/// without one, from the first snapshot (given in seconds); without one either,
/// from 30 days before `now_secs`.
pub fn sync_start_time(
    last_trade_time: Option<i64>,
    first_snapshot_secs: Option<i64>,
    now_secs: i64,
) -> (t: i64)
    requires
        last_trade_time is None ==> (first_snapshot_secs matches Some(f) ==> i64::MIN <= f * 1000
            <= i64::MAX),
        last_trade_time is None && first_snapshot_secs is None ==> i64::MIN <= (now_secs
            - 2592000) * 1000 <= i64::MAX,
    ensures
        t == match last_trade_time {
            Some(l) => l as int,
            None => match first_snapshot_secs {
                Some(f) => f * 1000,
                None => (now_secs - 2592000) * 1000,
            },
        },
{
    match last_trade_time {
        Some(l) => l,
        None => match first_snapshot_secs {
            Some(f) => f * 1000,
            None => (now_secs - 2592000) * 1000,
        },
    }
}

/// A period between two snapshots (seconds) in milliseconds.
pub fn period_millis(start_secs: i64, end_secs: i64) -> (p: (i64, i64))
    requires
        i64::MIN <= start_secs * 1000 <= i64::MAX,
        i64::MIN <= end_secs * 1000 <= i64::MAX,
    ensures
        p.0 == start_secs * 1000,
        p.1 == end_secs * 1000,
{
    (start_secs * 1000, end_secs * 1000)
}

/// The quote asset a symbol ends with when fills are analysed: `USDT` or `USDC`.
pub open spec fn stats_quote(symbol: Seq<char>) -> Option<Seq<char>> {
    if ends_with(symbol, "USDT"@) {
        Some("USDT"@)
    } else if ends_with(symbol, "USDC"@) {
        Some("USDC"@)
    } else {
        None
    }
}

/// Splitting a symbol for the analysis of fills needs a character boundary four
/// bytes before its end when it ends with neither quote and is longer than four bytes.
pub open spec fn stats_split_ok(symbol: &str) -> bool {
    stats_quote(symbol@) is None && symbol.spec_bytes().len() > 4 ==> is_char_boundary(
        symbol.spec_bytes(),
        symbol.spec_bytes().len() - 4,
    )
}

/// (base asset, quote asset) of a symbol when fills are analysed: `USDT` or `USDC`
/// at the end is cut off; otherwise the last four bytes are the quote asset, and a
/// symbol of at most four bytes has the quote asset `UNKNOWN`.
pub fn stats_assets(symbol: &str) -> (r: (String, String))
    requires
        stats_split_ok(symbol),
    ensures
        stats_quote(symbol@) matches Some(q) ==> r.0@ == symbol@.subrange(
            0,
            symbol@.len() - q.len(),
        ) && r.1@ == q,
        stats_quote(symbol@) is None && symbol.spec_bytes().len() > 4 ==> encode_utf8(r.0@)
            == symbol.spec_bytes().subrange(0, symbol.spec_bytes().len() - 4) && encode_utf8(r.1@)
            == symbol.spec_bytes().subrange(
            symbol.spec_bytes().len() - 4,
            symbol.spec_bytes().len() as int,
        ),
        stats_quote(symbol@) is None && symbol.spec_bytes().len() <= 4 ==> r.0@ == symbol@
            && r.1@ == "UNKNOWN"@,
{
    let n = symbol.unicode_len();
    if str_ends_with(symbol, "USDT") {
        proof {
            reveal_strlit("USDT");
        }
        (owned(symbol.substring_char(0, n - 4)), owned("USDT"))
    } else if str_ends_with(symbol, "USDC") {
        proof {
            reveal_strlit("USDC");
        }
        (owned(symbol.substring_char(0, n - 4)), owned("USDC"))
    } else {
        let len = symbol.as_bytes().len();
        if len > 4 {
            let (base, quote) = symbol.split_at(len - 4);
            (owned(base), owned(quote))
        } else {
            (owned(symbol), owned("UNKNOWN"))
        }
    }
}

} // verus!
