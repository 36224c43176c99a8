//! Line-framed record files: one serialised record per line, blank lines ignored.
use vstd::prelude::*;
use vstd::string::StringExecFns;
use crate::text::{chars_of, is_blank, str_is_blank, string_of};

verus! {

/// A line without the `\r` that may precede its `\n`.
pub open spec fn strip_cr(line: Seq<char>) -> Seq<char> {
    if line.len() > 0 && line.last() == '\r' {
        line.drop_last()
    } else {
        line
    }
}

/// The lines of `s` after the partial line `cur`: a line ends at each `\n`, which
/// is dropped together with a `\r` before it; text after the last `\n` is a last
/// line when not empty (the behaviour of `str::lines` and `BufRead::lines`).
pub open spec fn split_lines(s: Seq<char>, cur: Seq<char>) -> Seq<Seq<char>>
    decreases s.len(),
{
    if s.len() == 0 {
        if cur.len() == 0 {
            seq![]
        } else {
            seq![cur]
        }
    } else if s[0] == '\n' {
        seq![strip_cr(cur)] + split_lines(s.drop_first(), seq![])
    } else {
        split_lines(s.drop_first(), cur.push(s[0]))
    }
}

/// The lines of `s`.
pub open spec fn lines_of(s: Seq<char>) -> Seq<Seq<char>> {
    split_lines(s, seq![])
}

/// The lines that are not blank, in order.
pub open spec fn non_blank(lines: Seq<Seq<char>>) -> Seq<Seq<char>>
    decreases lines.len(),
{
    if lines.len() == 0 {
        seq![]
    } else {
        (if is_blank(lines[0]) {
            seq![]
        } else {
            seq![lines[0]]
        }) + non_blank(lines.drop_first())
    }
}

/// The records stored in a file's text: its non-blank lines.
pub open spec fn records_of(s: Seq<char>) -> Seq<Seq<char>> {
    non_blank(lines_of(s))
}

/// The text that stores one record: the record and a line feed.
pub open spec fn framed(record: Seq<char>) -> Seq<char> {
    record.push('\n')
}

/// The text that stores records one after another.
pub open spec fn framed_all(records: Seq<Seq<char>>) -> Seq<char>
    decreases records.len(),
{
    if records.len() == 0 {
        seq![]
    } else {
        framed(records[0]) + framed_all(records.drop_first())
    }
}

/// A record that reads back as itself: no line feed inside, no `\r` at its end,
/// and not blank.
pub open spec fn storable(record: Seq<char>) -> bool {
    &&& !record.contains('\n')
    &&& !(record.len() > 0 && record.last() == '\r')
    &&& !is_blank(record)
}

/// Text that ends where a line ends (or is empty), so that what is appended starts
/// a new line.
pub open spec fn at_line_start(s: Seq<char>) -> bool {
    s.len() == 0 || s.last() == '\n'
}

proof fn lemma_non_blank_add(a: Seq<Seq<char>>, b: Seq<Seq<char>>)
    ensures
        non_blank(a + b) == non_blank(a) + non_blank(b),
    decreases a.len(),
{
    if a.len() == 0 {
        assert(a + b =~= b);
    } else {
        lemma_non_blank_add(a.drop_first(), b);
        assert((a + b).drop_first() =~= a.drop_first() + b);
        assert((a + b)[0] == a[0]);
        let head: Seq<Seq<char>> = if is_blank(a[0]) {
            seq![]
        } else {
            seq![a[0]]
        };
        assert(head + (non_blank(a.drop_first()) + non_blank(b)) =~= (head + non_blank(
            a.drop_first(),
        )) + non_blank(b));
    }
}

proof fn lemma_non_blank_single(line: Seq<char>)
    ensures
        non_blank(seq![line]) == (if is_blank(line) {
            Seq::<Seq<char>>::empty()
        } else {
            seq![line]
        }),
{
    assert(seq![line].drop_first() =~= Seq::<Seq<char>>::empty());
    assert(non_blank(Seq::<Seq<char>>::empty()) == Seq::<Seq<char>>::empty());
    assert(seq![line][0] == line);
    if is_blank(line) {
        assert(Seq::<Seq<char>>::empty() + Seq::<Seq<char>>::empty() =~= Seq::<Seq<char>>::empty());
    } else {
        assert(seq![line] + Seq::<Seq<char>>::empty() =~= seq![line]);
    }
}

/// Lines of text that ends at a line end, followed by more text.
proof fn lemma_split_lines_add(c: Seq<char>, d: Seq<char>, cur: Seq<char>)
    requires
        c.len() > 0,
        c.last() == '\n',
    ensures
        split_lines(c + d, cur) == split_lines(c, cur) + lines_of(d),
    decreases c.len(),
{
    assert((c + d)[0] == c[0]);
    assert((c + d).drop_first() =~= c.drop_first() + d);
    if c.len() == 1 {
        assert(c.drop_first() + d =~= d);
        assert(split_lines(c.drop_first(), seq![]) == Seq::<Seq<char>>::empty());
        assert(split_lines(c, cur) =~= seq![strip_cr(cur)]);
    } else {
        assert(c.drop_first().last() == c.last());
        if c[0] == '\n' {
            lemma_split_lines_add(c.drop_first(), d, seq![]);
            assert(seq![strip_cr(cur)] + (split_lines(c.drop_first(), seq![]) + lines_of(d))
                =~= (seq![strip_cr(cur)] + split_lines(c.drop_first(), seq![])) + lines_of(d));
        } else {
            lemma_split_lines_add(c.drop_first(), d, cur.push(c[0]));
        }
    }
}

/// A line without line feeds, ended by one, is one line.
proof fn lemma_split_lines_framed(x: Seq<char>, cur: Seq<char>)
    requires
        !x.contains('\n'),
    ensures
        split_lines(framed(x), cur) == seq![strip_cr(cur + x)],
    decreases x.len(),
{
    if x.len() == 0 {
        assert(framed(x) =~= seq!['\n']);
        assert(cur + x =~= cur);
        assert(framed(x).drop_first() =~= Seq::<char>::empty());
        assert(framed(x)[0] == '\n');
        assert(split_lines(Seq::<char>::empty(), seq![]) == Seq::<Seq<char>>::empty());
        assert(seq![strip_cr(cur)] + Seq::<Seq<char>>::empty() =~= seq![strip_cr(cur)]);
    } else {
        assert(framed(x)[0] == x[0]);
        assert(framed(x).drop_first() =~= framed(x.drop_first()));
        assert(!x.drop_first().contains('\n')) by {
            if x.drop_first().contains('\n') {
                let k = choose|k: int| 0 <= k < x.drop_first().len() && x.drop_first()[k] == '\n';
                assert(x[k + 1] == '\n');
            }
        }
        assert(x[0] != '\n') by {
            assert(x.contains(x[0]));
        }
        lemma_split_lines_framed(x.drop_first(), cur.push(x[0]));
        assert(cur.push(x[0]) + x.drop_first() =~= cur + x);
    }
}

/// Appending one framed record to text that ends at a line end adds exactly that
/// record to what the text reads back as.
pub proof fn lemma_records_append_one(content: Seq<char>, record: Seq<char>)
    requires
        at_line_start(content),
        storable(record),
    ensures
        records_of(content + framed(record)) == records_of(content).push(record),
{
    lemma_split_lines_framed(record, seq![]);
    assert(Seq::<char>::empty() + record =~= record);
    assert(strip_cr(record) == record);
    assert(lines_of(framed(record)) =~= seq![record]);
    if content.len() == 0 {
        assert(content + framed(record) =~= framed(record));
        assert(lines_of(content) == Seq::<Seq<char>>::empty());
    } else {
        lemma_split_lines_add(content, framed(record), seq![]);
    }
    assert(lines_of(content + framed(record)) == lines_of(content) + seq![record]);
    lemma_non_blank_add(lines_of(content), seq![record]);
    lemma_non_blank_single(record);
}

/// Reading back what was written: text that ends at a line end, followed by the
/// framed records, reads as its own records followed by those records.
pub proof fn lemma_records_round_trip(content: Seq<char>, records: Seq<Seq<char>>)
    requires
        at_line_start(content),
        forall|i: int| 0 <= i < records.len() ==> storable(#[trigger] records[i]),
    ensures
        records_of(content + framed_all(records)) == records_of(content) + records,
    decreases records.len(),
{
    if records.len() == 0 {
        assert(content + framed_all(records) =~= content);
        assert(records_of(content) + records =~= records_of(content));
    } else {
        let first = records[0];
        let rest = records.drop_first();
        lemma_records_append_one(content, first);
        let next = content + framed(first);
        assert(at_line_start(next));
        assert forall|i: int| 0 <= i < rest.len() implies storable(#[trigger] rest[i]) by {
            assert(rest[i] == records[i + 1]);
        }
        lemma_records_round_trip(next, rest);
        assert(content + framed_all(records) =~= next + framed_all(rest));
        assert(records_of(content).push(first) + rest =~= records_of(content) + records);
    }
}

/// The text that stores `record` as one line.
pub fn frame_record(record: &str) -> (text: String)
    ensures
        text@ == framed(record@),
{
    let mut text = String::from_str(record);
    text.append("\n");
    proof {
        reveal_strlit("\n");
    }
    assert(text@ =~= framed(record@));
    text
}

/// The text that stores all `records`, one per line, in order.
pub fn frame_records(records: &Vec<String>) -> (text: String)
    ensures
        text@ == framed_all(records.deep_view()),
{
    let mut i: usize = records.len();
    let ghost all = records.deep_view();
    assert(framed_all(all.subrange(i as int, all.len() as int)) =~= Seq::<char>::empty()) by {
        assert(all.subrange(i as int, all.len() as int) =~= Seq::<Seq<char>>::empty());
    }
    let mut acc: Vec<char> = Vec::new();
    while i > 0
        invariant
            i <= records@.len(),
            all == records.deep_view(),
            acc@ == framed_all(all.subrange(i as int, all.len() as int)),
        decreases i,
    {
        i = i - 1;
        let line = chars_of(records[i].as_str());
        let mut next: Vec<char> = Vec::new();
        let mut k: usize = 0;
        while k < line.len()
            invariant
                k <= line@.len(),
                next@ == line@.take(k as int),
            decreases line@.len() - k,
        {
            next.push(line[k]);
            assert(line@.take(k + 1) =~= line@.take(k as int).push(line@[k as int]));
            k = k + 1;
        }
        next.push('\n');
        let mut m: usize = 0;
        let ghost mid = next@;
        while m < acc.len()
            invariant
                m <= acc@.len(),
                next@ == mid + acc@.take(m as int),
            decreases acc@.len() - m,
        {
            next.push(acc[m]);
            assert(acc@.take(m + 1) =~= acc@.take(m as int).push(acc@[m as int]));
            m = m + 1;
        }
        assert(line@.take(line@.len() as int) =~= line@);
        assert(acc@.take(acc@.len() as int) =~= acc@);
        let ghost sub = all.subrange(i as int, all.len() as int);
        assert(sub[0] == records[i as int]@);
        assert(sub.drop_first() =~= all.subrange(i + 1, all.len() as int));
        assert(next@ =~= framed_all(sub));
        acc = next;
    }
    assert(all.subrange(0, all.len() as int) =~= all);
    string_of(&acc)
}

/// The records stored in `content`: its lines (split at `\n`, a `\r` before the
/// `\n` dropped) that are not blank.
pub fn read_records(content: &str) -> (records: Vec<String>)
    ensures
        records.deep_view() == records_of(content@),
{
    let chars = chars_of(content);
    let mut out: Vec<String> = Vec::new();
    let mut cur: Vec<char> = Vec::new();
    let mut i: usize = 0;
    let ghost mut done: Seq<Seq<char>> = seq![];
    assert(chars@.subrange(0, chars@.len() as int) =~= chars@);
    while i < chars.len()
        invariant
            chars@ == content@,
            i <= chars@.len(),
            lines_of(content@) == done + split_lines(
                chars@.subrange(i as int, chars@.len() as int),
                cur@,
            ),
            out.deep_view() == non_blank(done),
        decreases chars@.len() - i,
    {
        let ghost rest = chars@.subrange(i as int, chars@.len() as int);
        assert(rest[0] == chars@[i as int]);
        assert(rest.drop_first() =~= chars@.subrange(i + 1, chars@.len() as int));
        let c = chars[i];
        if c == '\n' {
            let ghost line = strip_cr(cur@);
            if cur.len() > 0 && cur[cur.len() - 1] == '\r' {
                cur.pop();
            }
            assert(cur@ == line);
            let text = string_of(&cur);
            proof {
                lemma_non_blank_add(done, seq![line]);
                assert(seq![line].drop_first() =~= Seq::<Seq<char>>::empty());
                assert(done + (seq![line] + split_lines(rest.drop_first(), seq![])) =~= done.push(
                    line,
                ) + split_lines(rest.drop_first(), seq![]));
            }
            let ghost old_out = out.deep_view();
            if !str_is_blank(text.as_str()) {
                out.push(text);
                assert(out.deep_view() =~= old_out.push(line));
            }
            proof {
                lemma_non_blank_single(line);
                assert(done.push(line) =~= done + seq![line]);
                done = done.push(line);
            }
            cur = Vec::new();
        } else {
            cur.push(c);
        }
        i = i + 1;
    }
    assert(chars@.subrange(i as int, chars@.len() as int) =~= Seq::<char>::empty());
    if cur.len() > 0 {
        let ghost line = cur@;
        let text = string_of(&cur);
        proof {
            lemma_non_blank_add(done, seq![line]);
            assert(seq![line].drop_first() =~= Seq::<Seq<char>>::empty());
        }
        let ghost old_out = out.deep_view();
        if !str_is_blank(text.as_str()) {
            out.push(text);
            assert(out.deep_view() =~= old_out.push(line));
        }
        proof {
            lemma_non_blank_single(line);
            assert(done.push(line) =~= done + seq![line]);
            assert(split_lines(Seq::<char>::empty(), cur@) =~= seq![line]);
            assert(done + seq![line] =~= done.push(line));
            done = done.push(line);
        }
    }
    assert(lines_of(content@) == done);
    out
}

} // verus!
