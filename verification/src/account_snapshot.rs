//! Where account snapshots are kept, and which of them a report shows.
use vstd::prelude::*;
use vstd::string::StringExecFns;
use crate::text::owned;

verus! {

/// The name of the file that keeps the snapshots of `symbol` on `exchange`.
pub open spec fn snapshots_file_name(exchange: Seq<char>, symbol: Seq<char>) -> Seq<char> {
    ".account_snapshots_"@ + exchange + "_"@ + symbol + ".jsonl"@
}

/// Where the account snapshots of one symbol on one venue are kept.
pub struct SnapshotHistory {
    file_path: String,
}

impl SnapshotHistory {
    /// The path of the file.
    pub closed spec fn path(&self) -> Seq<char> {
        self.file_path@
    }

    /// The history of `symbol` on `exchange`, kept in
    /// `.account_snapshots_{exchange}_{symbol}.jsonl`.
    pub fn new(exchange: &str, symbol: &str) -> (h: Self)
        ensures
            h.path() == snapshots_file_name(exchange@, symbol@),
    {
        let mut p = owned(".account_snapshots_");
        p.append(exchange);
        p.append("_");
        p.append(symbol);
        p.append(".jsonl");
        SnapshotHistory { file_path: p }
    }

    /// The path of the file.
    pub fn file_path(&self) -> (p: &str)
        ensures
            p@ == self.path(),
    {
        self.file_path.as_str()
    }

    /// Where the `count` most recent of `total` snapshots start: all of them when
    /// there are at most `count`.
    pub fn recent_start(&self, total: usize, count: usize) -> (start: usize)
        ensures
            start == if total > count {
                total - count
            } else {
                0
            },
    {
        if total > count {
            total - count
        } else {
            0
        }
    }

    /// The position of the snapshot before the latest one, when there are two or more.
    pub fn previous_index(&self, total: usize) -> (r: Option<usize>)
        ensures
            r == if total >= 2 {
                Some((total - 2) as usize)
            } else {
                None::<usize>
            },
    {
        if total >= 2 {
            Some(total - 2)
        } else {
            None
        }
    }
}

} // verus!
