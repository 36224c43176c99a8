//! The account's fills, kept per venue and symbol in a line-framed file.
use vstd::prelude::*;
use vstd::string::StringExecFns;
use crate::exchange::Trade;
use crate::text::owned;

verus! {

/// The name of the file that keeps the fills of `symbol` on `exchange`.
pub open spec fn trades_file_name(exchange: Seq<char>, symbol: Seq<char>) -> Seq<char> {
    ".trades_"@ + exchange + "_"@ + symbol + ".jsonl"@
}

/// `true` when `t` was made between `start` and `end`, both included.
pub open spec fn in_period(t: Trade, start: i64, end: i64) -> bool {
    start <= t.time && t.time <= end
}

/// `true` when some fill of `trades` has this trade id and order id.
pub open spec fn has_key(trades: Seq<Trade>, id: Seq<char>, order_id: Seq<char>) -> bool {
    exists|i: int| 0 <= i < trades.len() && trades[i].id@ == id && trades[i].order_id@ == order_id
}

/// The fills of `new_trades` whose (trade id, order id) is not among `existing`.
pub open spec fn unseen(existing: Seq<Trade>, new_trades: Seq<Trade>) -> Seq<Trade> {
    new_trades.filter(|t: Trade| !has_key(existing, t.id@, t.order_id@))
}

/// Where the fills of one symbol on one venue are kept.
pub struct TradeHistory {
    file_path: String,
}

impl TradeHistory {
    /// The path of the file.
    pub closed spec fn path(&self) -> Seq<char> {
        self.file_path@
    }

    /// The history of `symbol` on `exchange`, kept in `.trades_{exchange}_{symbol}.jsonl`.
    pub fn new(exchange: &str, symbol: &str) -> (h: Self)
        ensures
            h.path() == trades_file_name(exchange@, symbol@),
    {
        let mut p = owned(".trades_");
        p.append(exchange);
        p.append("_");
        p.append(symbol);
        p.append(".jsonl");
        TradeHistory { file_path: p }
    }

    /// The path of the file.
    pub fn file_path(&self) -> (p: &str)
        ensures
            p@ == self.path(),
    {
        self.file_path.as_str()
    }

    /// The time of the latest fill among `trades` (the fills read from the file),
    /// `None` when there is none.
    pub fn get_last_trade_time(&self, trades: &[Trade]) -> (r: Option<i64>)
        ensures
            r is None <==> trades@.len() == 0,
            r matches Some(t) ==> (exists|i: int| 0 <= i < trades@.len() && trades@[i].time == t)
                && (forall|i: int| 0 <= i < trades@.len() ==> trades@[i].time <= t),
    {
        if trades.len() == 0 {
            return None;
        }
        let mut best: i64 = trades[0].time;
        let mut i: usize = 1;
        while i < trades.len()
            invariant
                1 <= i <= trades@.len(),
                exists|j: int| 0 <= j < i && trades@[j].time == best,
                forall|j: int| 0 <= j < i ==> trades@[j].time <= best,
            decreases trades@.len() - i,
        {
            if trades[i].time > best {
                best = trades[i].time;
            }
            i = i + 1;
        }
        Some(best)
    }

    /// The fills among `trades` made between `start_time` and `end_time`, both
    /// included, in their order.
    pub fn get_trades_in_range(&self, trades: &[Trade], start_time: i64, end_time: i64) -> (r:
        Vec<Trade>)
        ensures
            r@ == trades@.filter(|t: Trade| in_period(t, start_time, end_time)),
    {
        let ghost pred = |t: Trade| in_period(t, start_time, end_time);
        let mut r: Vec<Trade> = Vec::new();
        let mut i: usize = 0;
        while i < trades.len()
            invariant
                i <= trades@.len(),
                pred == (|t: Trade| in_period(t, start_time, end_time)),
                r@ == trades@.take(i as int).filter(pred),
            decreases trades@.len() - i,
        {
            proof {
                trades@.take(i as int).lemma_filter_push(trades@[i as int], pred);
                assert(trades@.take(i + 1) =~= trades@.take(i as int).push(trades@[i as int]));
            }
            if trades[i].time >= start_time && trades[i].time <= end_time {
                r.push(trades[i].copy());
            }
            i = i + 1;
        }
        assert(trades@.take(trades@.len() as int) =~= trades@);
        r
    }

    /// `true` when a fill among `trades` has the trade id `trade_id`.
    pub fn trade_exists(&self, trades: &[Trade], trade_id: &str) -> (b: bool)
        ensures
            b == exists|i: int| 0 <= i < trades@.len() && trades@[i].id@ == trade_id@,
    {
        let wanted = owned(trade_id);
        let mut i: usize = 0;
        while i < trades.len()
            invariant
                i <= trades@.len(),
                wanted@ == trade_id@,
                forall|j: int| 0 <= j < i ==> trades@[j].id@ != trade_id@,
            decreases trades@.len() - i,
        {
            if trades[i].id == wanted {
                return true;
            }
            i = i + 1;
        }
        false
    }

    /// The fills among `trades` made after `after` (milliseconds), in their order:
    /// those a synchronisation still has to store.
    pub fn select_after(&self, trades: &[Trade], after: i64) -> (r: Vec<Trade>)
        ensures
            r@ == trades@.filter(|t: Trade| t.time > after),
    {
        let ghost pred = |t: Trade| t.time > after;
        let mut r: Vec<Trade> = Vec::new();
        let mut i: usize = 0;
        while i < trades.len()
            invariant
                i <= trades@.len(),
                pred == (|t: Trade| t.time > after),
                r@ == trades@.take(i as int).filter(pred),
            decreases trades@.len() - i,
        {
            proof {
                trades@.take(i as int).lemma_filter_push(trades@[i as int], pred);
                assert(trades@.take(i + 1) =~= trades@.take(i as int).push(trades@[i as int]));
            }
            if trades[i].time > after {
                r.push(trades[i].copy());
            }
            i = i + 1;
        }
        assert(trades@.take(trades@.len() as int) =~= trades@);
        r
    }

    /// The fills of `new_trades` to append: those whose (trade id, order id) pair is
    /// not among the `existing` fills, in their order. The pair is the key because a
    /// venue may report one market fill twice, once per side.
    pub fn select_new_trades(&self, existing: &[Trade], new_trades: &[Trade]) -> (r: Vec<Trade>)
        ensures
            r@ == unseen(existing@, new_trades@),
    {
        let ghost pred = |t: Trade| !has_key(existing@, t.id@, t.order_id@);
        let mut r: Vec<Trade> = Vec::new();
        let mut i: usize = 0;
        while i < new_trades.len()
            invariant
                i <= new_trades@.len(),
                pred == (|t: Trade| !has_key(existing@, t.id@, t.order_id@)),
                r@ == new_trades@.take(i as int).filter(pred),
            decreases new_trades@.len() - i,
        {
            proof {
                new_trades@.take(i as int).lemma_filter_push(new_trades@[i as int], pred);
                assert(new_trades@.take(i + 1) =~= new_trades@.take(i as int).push(
                    new_trades@[i as int],
                ));
            }
            let t = &new_trades[i];
            let mut seen = false;
            let mut j: usize = 0;
            while j < existing.len()
                invariant
                    j <= existing@.len(),
                    seen ==> has_key(existing@, t.id@, t.order_id@),
                    !seen ==> forall|k: int|
                        0 <= k < j ==> !(existing@[k].id@ == t.id@ && existing@[k].order_id@
                            == t.order_id@),
                decreases existing@.len() - j,
            {
                if existing[j].id == t.id && existing[j].order_id == t.order_id {
                    seen = true;
                }
                j = j + 1;
            }
            if !seen {
                r.push(t.copy());
            }
            i = i + 1;
        }
        assert(new_trades@.take(new_trades@.len() as int) =~= new_trades@);
        r
    }
}

/// Fills that were appended are not selected again: after appending the fills
/// selected from `new_trades`, selecting from the same `new_trades` gives nothing.
pub proof fn lemma_dedup_idempotent(existing: Seq<Trade>, new_trades: Seq<Trade>)
    ensures
        unseen(existing + unseen(existing, new_trades), new_trades).len() == 0,
{
    let added = unseen(existing, new_trades);
    let all = existing + added;
    let pred = |t: Trade| !has_key(all, t.id@, t.order_id@);
    let pred0 = |t: Trade| !has_key(existing, t.id@, t.order_id@);
    assert forall|i: int| 0 <= i < new_trades.len() implies !pred(#[trigger] new_trades[i]) by {
        let t = new_trades[i];
        if has_key(existing, t.id@, t.order_id@) {
            let k = choose|k: int|
                0 <= k < existing.len() && existing[k].id@ == t.id@ && existing[k].order_id@
                    == t.order_id@;
            assert(all[k] == existing[k]);
        } else {
            assert(pred0(t));
            new_trades.lemma_filter_contains(pred0, i);
            let k = choose|k: int| 0 <= k < added.len() && added[k] == t;
            assert(all[existing.len() + k] == t);
        }
    }
    new_trades.lemma_all_neg_filter_empty(pred);
}


/// A fill from the venue is appended exactly when no stored fill has both its trade
/// id and its order id: a stored fill with only the same order id (another partial
/// fill of the same order) or only the same trade id does not keep it out.
pub proof fn lemma_new_fill_selected(existing: Seq<Trade>, new_trades: Seq<Trade>, k: int)
    requires
        0 <= k < new_trades.len(),
    ensures
        unseen(existing, new_trades).contains(new_trades[k]) <==> (forall|i: int|
            0 <= i < existing.len() ==> !(#[trigger] existing[i].id@ == new_trades[k].id@
                && existing[i].order_id@ == new_trades[k].order_id@)),
{
    let pred = |t: Trade| !has_key(existing, t.id@, t.order_id@);
    let t = new_trades[k];
    if pred(t) {
        new_trades.lemma_filter_contains(pred, k);
    } else {
        if unseen(existing, new_trades).contains(t) {
            let f = new_trades.filter(pred);
            let j = choose|j: int| 0 <= j < f.len() && f[j] == t;
            new_trades.lemma_filter_pred(pred, j);
        }
        let w = choose|i: int|
            0 <= i < existing.len() && existing[i].id@ == t.id@ && existing[i].order_id@
                == t.order_id@;
        assert(existing[w].id@ == t.id@ && existing[w].order_id@ == t.order_id@);
    }
}

/// Every appended fill is one of the venue's fills, and none of them has the trade id
/// and order id of a stored fill.
pub proof fn lemma_selected_fills_are_new(existing: Seq<Trade>, new_trades: Seq<Trade>, j: int)
    requires
        0 <= j < unseen(existing, new_trades).len(),
    ensures
        new_trades.contains(unseen(existing, new_trades)[j]),
        forall|i: int|
            0 <= i < existing.len() ==> !(#[trigger] existing[i].id@ == unseen(
                existing,
                new_trades,
            )[j].id@ && existing[i].order_id@ == unseen(existing, new_trades)[j].order_id@),
{
    let pred = |t: Trade| !has_key(existing, t.id@, t.order_id@);
    let f = new_trades.filter(pred);
    new_trades.lemma_filter_pred(pred, j);
    assert(f.contains(f[j]));
    new_trades.lemma_filter_contains_rev(pred, f[j]);
}

} // verus!
