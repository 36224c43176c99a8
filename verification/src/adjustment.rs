//! Deposits and withdrawals recorded by hand, kept per venue and symbol.
use vstd::prelude::*;
use vstd::string::StringExecFns;
use crate::text::owned;

verus! {

/// The direction of a recorded transfer.
#[derive(Clone, Copy, Debug, PartialEq, Eq, Structural)]
pub enum AdjustmentType {
    Deposit,
    Withdrawal,
}

/// The name of the file that keeps the adjustments of `symbol` on `exchange`.
pub open spec fn adjustments_file_name(exchange: Seq<char>, symbol: Seq<char>) -> Seq<char> {
    ".adjustments_"@ + exchange + "_"@ + symbol + ".jsonl"@
}

/// The positions, in order, of the timestamps between `start` and `end` (both included).
pub open spec fn positions_between(timestamps: Seq<i64>, start: i64, end: i64) -> Seq<usize> {
    Seq::new(timestamps.len(), |i: int| i as usize).filter(
        |i: usize| start <= timestamps[i as int] && timestamps[i as int] <= end,
    )
}

/// Where the adjustments of one symbol on one venue are kept.
pub struct AdjustmentHistory {
    file_path: String,
}

impl AdjustmentHistory {
    /// The path of the file.
    pub closed spec fn path(&self) -> Seq<char> {
        self.file_path@
    }

    /// The history of `symbol` on `exchange`, kept in `.adjustments_{exchange}_{symbol}.jsonl`.
    pub fn new(exchange: &str, symbol: &str) -> (h: Self)
        ensures
            h.path() == adjustments_file_name(exchange@, symbol@),
    {
        let mut p = owned(".adjustments_");
        p.append(exchange);
        p.append("_");
        p.append(symbol);
        p.append(".jsonl");
        AdjustmentHistory { file_path: p }
    }

    /// The path of the file.
    pub fn file_path(&self) -> (p: &str)
        ensures
            p@ == self.path(),
    {
        self.file_path.as_str()
    }

    /// The positions of the adjustments (given by their timestamps, in file order)
    /// made between `start_time` and `end_time`, both included.
    pub fn select_between(&self, timestamps: &[i64], start_time: i64, end_time: i64) -> (r: Vec<
        usize,
    >)
        ensures
            r@ == positions_between(timestamps@, start_time, end_time),
    {
        let ghost all = Seq::new(timestamps@.len(), |i: int| i as usize);
        let ghost pred = |i: usize|
            start_time <= timestamps@[i as int] && timestamps@[i as int] <= end_time;
        let mut r: Vec<usize> = Vec::new();
        let mut i: usize = 0;
        while i < timestamps.len()
            invariant
                i <= timestamps@.len(),
                all == Seq::new(timestamps@.len(), |i: int| i as usize),
                pred == (|i: usize|
                    start_time <= timestamps@[i as int] && timestamps@[i as int] <= end_time),
                r@ == all.take(i as int).filter(pred),
            decreases timestamps@.len() - i,
        {
            proof {
                all.take(i as int).lemma_filter_push(all[i as int], pred);
                assert(all.take(i + 1) =~= all.take(i as int).push(all[i as int]));
            }
            if timestamps[i] >= start_time && timestamps[i] <= end_time {
                r.push(i);
            }
            i = i + 1;
        }
        assert(all.take(timestamps@.len() as int) =~= all);
        r
    }
}

} // verus!
