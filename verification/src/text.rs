//! Strings as sequences of characters: searching, replacing, white space, case and numbers.
use vstd::prelude::*;
use vstd::string::StringExecFns;

verus! {

/// `true` when `s` ends with `suffix`.
pub open spec fn ends_with(s: Seq<char>, suffix: Seq<char>) -> bool {
    suffix.len() <= s.len() && s.subrange(s.len() - suffix.len(), s.len() as int) == suffix
}

/// `true` when `pat` occurs in `s` starting at position `i`.
pub open spec fn occurs_at(s: Seq<char>, pat: Seq<char>, i: int) -> bool {
    0 <= i && i + pat.len() <= s.len() && s.subrange(i, i + pat.len()) == pat
}

/// `true` when `pat` occurs somewhere in `s`.
pub open spec fn contains(s: Seq<char>, pat: Seq<char>) -> bool {
    exists|i: int| occurs_at(s, pat, i)
}

/// Every non-overlapping occurrence of `pat` in `s`, found from the left,
/// replaced by `rep` (the behaviour of `str::replace` for a non-empty pattern).
pub open spec fn replace_all(s: Seq<char>, pat: Seq<char>, rep: Seq<char>) -> Seq<char>
    decreases s.len(),
{
    if s.len() == 0 || pat.len() == 0 {
        s
    } else if occurs_at(s, pat, 0) {
        rep + replace_all(s.subrange(pat.len() as int, s.len() as int), pat, rep)
    } else {
        seq![s[0]] + replace_all(s.subrange(1, s.len() as int), pat, rep)
    }
}

/// `s` with every `c` removed.
pub open spec fn without(s: Seq<char>, c: char) -> Seq<char> {
    replace_all(s, seq![c], Seq::<char>::empty())
}

/// Removing a character distributes over concatenation.
pub proof fn lemma_without_add(a: Seq<char>, b: Seq<char>, c: char)
    ensures
        without(a + b, c) == without(a, c) + without(b, c),
    decreases a.len(),
{
    let p = seq![c];
    if a.len() == 0 {
        assert(a + b =~= b);
        assert(without(a, c) =~= Seq::<char>::empty());
        assert(Seq::<char>::empty() + without(b, c) =~= without(b, c));
    } else {
        let ab = a + b;
        let rest = ab.subrange(1, ab.len() as int);
        assert(rest =~= a.subrange(1, a.len() as int) + b);
        lemma_without_add(a.subrange(1, a.len() as int), b, c);
        assert(occurs_at(ab, p, 0) == occurs_at(a, p, 0)) by {
            assert(ab.subrange(0, 1) =~= seq![ab[0]]);
            assert(a.subrange(0, 1) =~= seq![a[0]]);
            assert(ab[0] == a[0]);
        }
        if occurs_at(a, p, 0) {
            assert(Seq::<char>::empty() + without(rest, c) =~= without(rest, c));
            assert(Seq::<char>::empty() + without(a.subrange(1, a.len() as int), c) =~= without(
                a.subrange(1, a.len() as int),
                c,
            ));
        } else {
            assert(ab[0] == a[0]);
            assert(seq![a[0]] + (without(a.subrange(1, a.len() as int), c) + without(b, c))
                =~= (seq![a[0]] + without(a.subrange(1, a.len() as int), c)) + without(b, c));
        }
    }
}

/// Removing a character that does not occur changes nothing.
pub proof fn lemma_without_absent(s: Seq<char>, c: char)
    requires
        !s.contains(c),
    ensures
        without(s, c) == s,
    decreases s.len(),
{
    if s.len() > 0 {
        let rest = s.subrange(1, s.len() as int);
        assert(!occurs_at(s, seq![c], 0)) by {
            if occurs_at(s, seq![c], 0) {
                assert(s.subrange(0, 1)[0] == c);
                assert(s[0] == c);
            }
        }
        assert forall|k: int| 0 <= k < rest.len() implies rest[k] != c by {
            assert(rest[k] == s[k + 1]);
        }
        lemma_without_absent(rest, c);
        assert(seq![s[0]] + rest =~= s);
    }
}

/// Putting `c` before each occurrence of a pattern without `c`, then removing every
/// `c`, gives back the text without `c`.
pub proof fn lemma_without_marked(s: Seq<char>, pat: Seq<char>, c: char)
    requires
        pat.len() > 0,
        !pat.contains(c),
    ensures
        without(replace_all(s, pat, seq![c] + pat), c) == without(s, c),
    decreases s.len(),
{
    let marked = seq![c] + pat;
    if s.len() > 0 {
        if occurs_at(s, pat, 0) {
            let rest = s.subrange(pat.len() as int, s.len() as int);
            lemma_without_marked(rest, pat, c);
            lemma_without_add(marked, replace_all(rest, pat, marked), c);
            lemma_without_add(pat, rest, c);
            lemma_without_add(seq![c], pat, c);
            lemma_without_absent(pat, c);
            assert(without(seq![c], c) =~= Seq::<char>::empty()) by {
                let one = seq![c];
                let e = Seq::<char>::empty();
                assert(one.subrange(0, 1) =~= one);
                assert(occurs_at(one, one, 0));
                assert(one.subrange(1, 1) =~= e);
                assert(replace_all(e, one, e) == e);
                assert(replace_all(one, one, e) == e + replace_all(one.subrange(1, 1), one, e));
            }
            assert(Seq::<char>::empty() + pat =~= pat);
            assert(s =~= pat + rest) by {
                assert(s.subrange(0, pat.len() as int) == pat);
            }
        } else {
            let rest = s.subrange(1, s.len() as int);
            lemma_without_marked(rest, pat, c);
            lemma_without_add(seq![s[0]], replace_all(rest, pat, marked), c);
            lemma_without_add(seq![s[0]], rest, c);
            assert(s =~= seq![s[0]] + rest);
        }
    }
}

/// The parts of `s` between line feeds, the first one continuing `cur`.
pub open spec fn split_lf(s: Seq<char>, cur: Seq<char>) -> Seq<Seq<char>>
    decreases s.len(),
{
    if s.len() == 0 {
        seq![cur]
    } else if s[0] == '\n' {
        seq![cur] + split_lf(s.drop_first(), Seq::<char>::empty())
    } else {
        split_lf(s.drop_first(), cur.push(s[0]))
    }
}

/// The parts of `s` between line feeds (one part more than there are line feeds).
pub open spec fn lf_fields(s: Seq<char>) -> Seq<Seq<char>> {
    split_lf(s, Seq::<char>::empty())
}

proof fn lemma_split_lf_plain(a: Seq<char>, rest: Seq<char>, cur: Seq<char>)
    requires
        !a.contains('\n'),
    ensures
        split_lf(a + rest, cur) == split_lf(rest, cur + a),
    decreases a.len(),
{
    if a.len() == 0 {
        assert(a + rest =~= rest);
        assert(cur + a =~= cur);
    } else {
        let x = a + rest;
        assert(x[0] == a[0]);
        assert(a[0] != '\n') by {
            if a[0] == '\n' {
                assert(a.contains('\n'));
            }
        }
        assert(x.drop_first() =~= a.drop_first() + rest);
        assert forall|k: int| 0 <= k < a.drop_first().len() implies a.drop_first()[k] != '\n' by {
            assert(a.drop_first()[k] == a[k + 1]);
        }
        lemma_split_lf_plain(a.drop_first(), rest, cur.push(a[0]));
        assert(cur.push(a[0]) + a.drop_first() =~= cur + a);
    }
}

/// A part without line feed, a line feed and the rest: the part, then the parts of the rest.
pub proof fn lemma_lf_fields_join(a: Seq<char>, rest: Seq<char>)
    requires
        !a.contains('\n'),
    ensures
        lf_fields(a + (seq!['\n'] + rest)) == seq![a] + lf_fields(rest),
{
    let e = Seq::<char>::empty();
    lemma_split_lf_plain(a, seq!['\n'] + rest, e);
    assert(e + a =~= a);
    let y = seq!['\n'] + rest;
    assert(y[0] == '\n');
    assert(y.drop_first() =~= rest);
}

/// A text without line feed is a single part.
pub proof fn lemma_lf_fields_single(a: Seq<char>)
    requires
        !a.contains('\n'),
    ensures
        lf_fields(a) == seq![a],
{
    let e = Seq::<char>::empty();
    lemma_split_lf_plain(a, e, e);
    assert(a + e =~= a);
    assert(e + a =~= a);
}

/// Decimal numbers are made of digits only.
pub proof fn lemma_decimal_digits(n: nat)
    ensures
        forall|i: int| 0 <= i < decimal(n).len() ==> '0' <= #[trigger] decimal(n)[i] <= '9',
    decreases n,
{
    assert forall|d: int| 0 <= d < 10 implies '0' <= #[trigger] digit_char(d) <= '9' by {
        assert(digit_char(0) == '0' && digit_char(1) == '1' && digit_char(2) == '2');
        assert(digit_char(3) == '3' && digit_char(4) == '4' && digit_char(5) == '5');
        assert(digit_char(6) == '6' && digit_char(7) == '7' && digit_char(8) == '8');
        assert(digit_char(9) == '9');
        assert(d == 0 || d == 1 || d == 2 || d == 3 || d == 4 || d == 5 || d == 6 || d == 7 || d
            == 8 || d == 9);
    }
    if n >= 10 {
        lemma_decimal_digits(n / 10);
        assert(decimal(n) == decimal(n / 10).push(digit_char((n % 10) as int)));
    } else {
        assert(decimal(n) == seq![digit_char(n as int)]);
    }
}

/// The decimal digit character for `d < 10`.
pub open spec fn digit_char(d: int) -> char {
    (48 + d) as char
}

/// The decimal representation of a natural number, without sign or leading zeros.
pub open spec fn decimal(n: nat) -> Seq<char>
    decreases n,
{
    if n < 10 {
        seq![digit_char(n as int)]
    } else {
        decimal(n / 10).push(digit_char((n % 10) as int))
    }
}

/// The decimal representation of an integer, with a leading `-` when negative.
pub open spec fn signed_decimal(i: int) -> Seq<char> {
    if i < 0 {
        seq!['-'] + decimal((-i) as nat)
    } else {
        decimal(i as nat)
    }
}

/// The text `str::to_lowercase` of std gives for `s`.
pub uninterp spec fn lowercase_of(s: Seq<char>) -> Seq<char>;

/// The text `str::to_uppercase` of std gives for `s`.
pub uninterp spec fn uppercase_of(s: Seq<char>) -> Seq<char>;

/// Whether `c` has the Unicode `White_Space` property, which `char::is_whitespace` of
/// std tests: tab to carriage return, space, next line, no-break space, ogham space
/// mark, the spaces U+2000 to U+200A, the line and paragraph separators, narrow
/// no-break space, medium mathematical space and ideographic space.
pub open spec fn is_whitespace_char(c: char) -> bool {
    let n = c as u32;
    (0x09 <= n <= 0x0D) || n == 0x20 || n == 0x85 || n == 0xA0 || n == 0x1680 || (0x2000 <= n
        <= 0x200A) || n == 0x2028 || n == 0x2029 || n == 0x202F || n == 0x205F || n == 0x3000
}

/// `true` when every character of `s` is white space (what `str::trim` removes entirely).
pub open spec fn is_blank(s: Seq<char>) -> bool {
    forall|i: int| 0 <= i < s.len() ==> is_whitespace_char(#[trigger] s[i])
}

/// `str::to_lowercase` of std: claims only that the result is the named lower-case form.
#[verifier::external_body]
pub(crate) fn to_lowercase(s: &str) -> (r: String)
    ensures
        r@ == lowercase_of(s@),
{
    s.to_lowercase()
}

/// `str::to_uppercase` of std: claims only that the result is the named upper-case form.
#[verifier::external_body]
pub(crate) fn to_uppercase(s: &str) -> (r: String)
    ensures
        r@ == uppercase_of(s@),
{
    s.to_uppercase()
}

/// Whether `c` is white space, as `char::is_whitespace` of std decides it.
pub(crate) fn is_whitespace(c: char) -> (b: bool)
    ensures
        b == is_whitespace_char(c),
{
    let n = c as u32;
    (0x09 <= n && n <= 0x0D) || n == 0x20 || n == 0x85 || n == 0xA0 || n == 0x1680 || (0x2000
        <= n && n <= 0x200A) || n == 0x2028 || n == 0x2029 || n == 0x202F || n == 0x205F || n
        == 0x3000
}

/// `true` when every character of `s` is white space.
pub fn str_is_blank(s: &str) -> (b: bool)
    ensures
        b == is_blank(s@),
{
    let v = chars_of(s);
    let mut i: usize = 0;
    while i < v.len()
        invariant
            v@ == s@,
            i <= v@.len(),
            forall|j: int| 0 <= j < i ==> is_whitespace_char(#[trigger] s@[j]),
        decreases v@.len() - i,
    {
        if !is_whitespace(v[i]) {
            return false;
        }
        i = i + 1;
    }
    true
}

/// The characters of `s`, in order.
pub fn chars_of(s: &str) -> (v: Vec<char>)
    ensures
        v@ == s@,
{
    let mut v: Vec<char> = Vec::new();
    for c in it: s.chars()
        invariant
            v@ == it.seq().take(it.index() as int),
            it.seq() == s@,
    {
        v.push(c);
    }
    v
}

/// Builds a `String` from a sequence of characters (`FromIterator<char>` of std).
#[verifier::external_body]
pub(crate) fn string_of(v: &Vec<char>) -> (s: String)
    ensures
        s@ == v@,
{
    v.iter().collect()
}

/// An owned copy of `s`.
pub fn owned(s: &str) -> (r: String)
    ensures
        r@ == s@,
{
    String::from_str(s)
}

fn chars_equal_at(s: &Vec<char>, pat: &Vec<char>, i: usize) -> (b: bool)
    requires
        i <= s@.len(),
    ensures
        b == occurs_at(s@, pat@, i as int),
{
    if pat.len() > s.len() - i {
        return false;
    }
    let mut k: usize = 0;
    while k < pat.len()
        invariant
            i + pat@.len() <= s@.len(),
            s@.len() <= usize::MAX,
            k <= pat@.len(),
            forall|j: int| 0 <= j < k ==> s@[i + j] == pat@[j],
        decreases pat@.len() - k,
    {
        if s[i + k] != pat[k] {
            assert(s@.subrange(i as int, i + pat@.len())[k as int] != pat@[k as int]);
            return false;
        }
        k = k + 1;
    }
    assert(s@.subrange(i as int, i + pat@.len()) =~= pat@);
    true
}

/// `str::ends_with` on a string pattern.
pub fn str_ends_with(s: &str, suffix: &str) -> (b: bool)
    ensures
        b == ends_with(s@, suffix@),
{
    let sv = chars_of(s);
    let pv = chars_of(suffix);
    if pv.len() > sv.len() {
        return false;
    }
    chars_equal_at(&sv, &pv, sv.len() - pv.len())
}

/// `str::contains` on a string pattern.
pub fn str_contains(s: &str, pat: &str) -> (b: bool)
    ensures
        b == contains(s@, pat@),
{
    let sv = chars_of(s);
    let pv = chars_of(pat);
    if pv.len() == 0 {
        assert(occurs_at(s@, pat@, 0)) by {
            assert(s@.subrange(0, 0) =~= pat@);
        }
        return true;
    }
    if pv.len() > sv.len() {
        assert forall|i: int| !occurs_at(s@, pat@, i) by {}
        return false;
    }
    let last = sv.len() - pv.len();
    let mut i: usize = 0;
    while i <= last
        invariant
            sv@ == s@,
            pv@ == pat@,
            last == sv@.len() - pv@.len(),
            pv@.len() > 0,
            sv@.len() <= usize::MAX,
            i <= last + 1,
            forall|j: int| 0 <= j < i ==> !occurs_at(s@, pat@, j),
        decreases last + 1 - i,
    {
        if chars_equal_at(&sv, &pv, i) {
            return true;
        }
        i = i + 1;
    }
    assert forall|j: int| !occurs_at(s@, pat@, j) by {
        if 0 <= j < i {
        }
    }
    false
}

/// `str::replace` with a non-empty pattern.
pub fn str_replace_all(s: &str, pat: &str, rep: &str) -> (r: String)
    requires
        pat@.len() > 0,
    ensures
        r@ == replace_all(s@, pat@, rep@),
{
    let sv = chars_of(s);
    let pv = chars_of(pat);
    let rv = chars_of(rep);
    let mut out: Vec<char> = Vec::new();
    let mut i: usize = 0;
    assert(sv@.subrange(0, sv@.len() as int) =~= sv@);
    assert(out@ + replace_all(sv@, pv@, rv@) =~= replace_all(sv@, pv@, rv@));
    while i < sv.len()
        invariant
            sv@ == s@,
            pv@ == pat@,
            rv@ == rep@,
            pat@.len() > 0,
            i <= sv@.len(),
            out@ + replace_all(sv@.subrange(i as int, sv@.len() as int), pv@, rv@)
                == replace_all(s@, pat@, rep@),
        decreases sv@.len() - i,
    {
        let ghost rest = sv@.subrange(i as int, sv@.len() as int);
        let m = chars_equal_at(&sv, &pv, i);
        assert(occurs_at(sv@, pv@, i as int) == occurs_at(rest, pv@, 0)) by {
            if i + pv@.len() <= sv@.len() {
                assert(rest.subrange(0, pv@.len() as int) =~= sv@.subrange(
                    i as int,
                    i + pv@.len(),
                ));
            }
        }
        if m {
            let ghost before = out@;
            let mut k: usize = 0;
            while k < rv.len()
                invariant
                    rv@ == rep@,
                    k <= rv@.len(),
                    out@ == before + rv@.take(k as int),
                decreases rv@.len() - k,
            {
                out.push(rv[k]);
                assert(rv@.take(k + 1) =~= rv@.take(k as int).push(rv@[k as int]));
                k = k + 1;
            }
            assert(rv@.take(rv@.len() as int) =~= rv@);
            assert(rest.subrange(pv@.len() as int, rest.len() as int) =~= sv@.subrange(
                i + pv@.len(),
                sv@.len() as int,
            ));
            assert(out@ + replace_all(sv@.subrange(i + pv@.len(), sv@.len() as int), pv@, rv@)
                =~= before + replace_all(rest, pv@, rv@));
            i = i + pv.len();
        } else {
            let ghost before = out@;
            out.push(sv[i]);
            assert(rest.subrange(1, rest.len() as int) =~= sv@.subrange(
                i + 1,
                sv@.len() as int,
            ));
            assert(out@ + replace_all(sv@.subrange(i + 1, sv@.len() as int), pv@, rv@)
                =~= before + replace_all(rest, pv@, rv@));
            i = i + 1;
        }
    }
    assert(sv@.subrange(i as int, sv@.len() as int) =~= Seq::<char>::empty());
    assert(out@ + Seq::<char>::empty() =~= out@);
    string_of(&out)
}

fn digit(d: u64) -> (c: char)
    requires
        d < 10,
    ensures
        c == digit_char(d as int),
{
    match d {
        0 => '0',
        1 => '1',
        2 => '2',
        3 => '3',
        4 => '4',
        5 => '5',
        6 => '6',
        7 => '7',
        8 => '8',
        _ => '9',
    }
}

/// The decimal text of an unsigned integer (what `format!("{}", n)` prints).
pub fn u64_text(n: u64) -> (s: String)
    ensures
        s@ == decimal(n as nat),
{
    let mut rev: Vec<char> = Vec::new();
    let mut m: u64 = n;
    while m >= 10
        invariant
            decimal(n as nat) == decimal(m as nat) + rev@.reverse(),
        decreases m,
    {
        let ghost old_rev = rev@;
        rev.push(digit(m % 10));
        assert(rev@.reverse() =~= seq![digit_char((m % 10) as int)] + old_rev.reverse());
        assert(decimal(m as nat) == decimal((m / 10) as nat).push(digit_char((m % 10) as int)));
        m = m / 10;
    }
    let mut out: Vec<char> = Vec::new();
    out.push(digit(m));
    let mut k: usize = rev.len();
    while k > 0
        invariant
            k <= rev@.len(),
            out@ == seq![digit_char(m as int)] + rev@.subrange(k as int, rev@.len() as int).reverse(),
        decreases k,
    {
        k = k - 1;
        let ghost prev = out@;
        out.push(rev[k]);
        assert(rev@.subrange(k as int, rev@.len() as int).reverse() =~= rev@.subrange(
            k + 1,
            rev@.len() as int,
        ).reverse().push(rev@[k as int]));
    }
    assert(rev@.subrange(0, rev@.len() as int) =~= rev@);
    assert(out@ =~= decimal(n as nat));
    string_of(&out)
}

/// The decimal text of a signed integer (what `format!("{}", n)` prints).
pub fn i64_text(n: i64) -> (s: String)
    ensures
        s@ == signed_decimal(n as int),
{
    if n < 0 {
        let mag: u64 = ((-(n + 1)) as u64) + 1;
        let digits = u64_text(mag);
        let mut s = String::from_str("-");
        s.append(digits.as_str());
        proof {
            reveal_strlit("-");
        }
        assert(s@ =~= seq!['-'] + decimal((-(n as int)) as nat));
        s
    } else {
        u64_text(n as u64)
    }
}

} // verus!
