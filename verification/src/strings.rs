//! Small verified string utilities shared by the extractors: the Unicode
//! whitespace test behind the "extracted text is empty" decisions, trimming,
//! decimal rendering of page numbers, and string equality.

use vstd::prelude::*;
use vstd::string::StrSliceExecFns;
use vstd::string::StringExecFns;

verus! {

/// `c` has the Unicode `White_Space` property (the set the standard library
/// documents for `char::is_whitespace`).
pub open spec fn is_whitespace_char(c: char) -> bool {
    let u = c as u32;
    ||| u == 0x09
    ||| u == 0x0A
    ||| u == 0x0B
    ||| u == 0x0C
    ||| u == 0x0D
    ||| u == 0x20
    ||| u == 0x85
    ||| u == 0xA0
    ||| u == 0x1680
    ||| (0x2000 <= u && u <= 0x200A)
    ||| u == 0x2028
    ||| u == 0x2029
    ||| u == 0x202F
    ||| u == 0x205F
    ||| u == 0x3000
}

/// The string is empty or consists of whitespace only: trimming it would
/// leave nothing.
pub open spec fn is_blank(s: Seq<char>) -> bool {
    forall|i: int| 0 <= i < s.len() ==> #[trigger] is_whitespace_char(s[i])
}

/// `s` with its leading whitespace removed.
pub open spec fn spec_trim_start(s: Seq<char>) -> Seq<char>
    decreases s.len(),
{
    if s.len() == 0 {
        s
    } else if is_whitespace_char(s[0]) {
        spec_trim_start(s.subrange(1, s.len() as int))
    } else {
        s
    }
}

/// `s` with its trailing whitespace removed.
pub open spec fn spec_trim_end(s: Seq<char>) -> Seq<char>
    decreases s.len(),
{
    if s.len() == 0 {
        s
    } else if is_whitespace_char(s[s.len() - 1]) {
        spec_trim_end(s.drop_last())
    } else {
        s
    }
}

/// `s` with surrounding whitespace removed, as `str::trim` leaves it.
pub open spec fn spec_trim(s: Seq<char>) -> Seq<char> {
    spec_trim_end(spec_trim_start(s))
}

fn is_ws_char(c: char) -> (r: bool)
    ensures
        r == is_whitespace_char(c),
{
    let u = c as u32;
    u == 0x09 || u == 0x0A || u == 0x0B || u == 0x0C || u == 0x0D || u == 0x20 || u == 0x85 || u
        == 0xA0 || u == 0x1680 || (0x2000 <= u && u <= 0x200A) || u == 0x2028 || u == 0x2029 || u
        == 0x202F || u == 0x205F || u == 0x3000
}

/// The string is empty or all whitespace.
pub fn is_blank_str(s: &str) -> (r: bool)
    ensures
        r == is_blank(s@),
{
    let n = s.unicode_len();
    let mut i: usize = 0;
    while i < n
        invariant
            i <= n,
            n == s@.len(),
            forall|j: int| 0 <= j < i ==> #[trigger] is_whitespace_char(s@[j]),
        decreases n - i,
    {
        if !is_ws_char(s.get_char(i)) {
            return false;
        }
        i = i + 1;
    }
    true
}

proof fn lemma_trim_start_skip(s: Seq<char>, k: int)
    requires
        0 <= k <= s.len(),
        forall|j: int| 0 <= j < k ==> #[trigger] is_whitespace_char(s[j]),
        k < s.len() ==> !is_whitespace_char(s[k]),
    ensures
        spec_trim_start(s) =~= s.subrange(k, s.len() as int),
    decreases k,
{
    if k == 0 {
        if s.len() == 0 {
            assert(s.subrange(0, 0) =~= s);
        } else {
            assert(s.subrange(0, s.len() as int) =~= s);
        }
    } else {
        let t = s.subrange(1, s.len() as int);
        lemma_trim_start_skip(t, k - 1);
        assert(t.subrange(k - 1, t.len() as int) =~= s.subrange(k, s.len() as int));
    }
}

proof fn lemma_trim_end_skip(t: Seq<char>, m: int)
    requires
        0 <= m <= t.len(),
        forall|j: int| m <= j < t.len() ==> #[trigger] is_whitespace_char(t[j]),
        m > 0 ==> !is_whitespace_char(t[m - 1]),
    ensures
        spec_trim_end(t) =~= t.subrange(0, m),
    decreases t.len(),
{
    if m == t.len() {
        if m == 0 {
            assert(t.subrange(0, 0) =~= t);
        } else {
            assert(t.subrange(0, m) =~= t);
        }
    } else {
        lemma_trim_end_skip(t.drop_last(), m);
        assert(t.drop_last().subrange(0, m) =~= t.subrange(0, m));
    }
}

/// `s` without its surrounding whitespace.
pub fn trim_str(s: &str) -> (r: &str)
    ensures
        r@ == spec_trim(s@),
{
    let n = s.unicode_len();
    let mut start: usize = 0;
    while start < n && is_ws_char(s.get_char(start))
        invariant
            start <= n,
            n == s@.len(),
            forall|j: int| 0 <= j < start ==> #[trigger] is_whitespace_char(s@[j]),
        decreases n - start,
    {
        start = start + 1;
    }
    let mut end: usize = n;
    while end > start && is_ws_char(s.get_char(end - 1))
        invariant
            start <= end <= n,
            n == s@.len(),
            forall|j: int| end <= j < n ==> #[trigger] is_whitespace_char(s@[j]),
        decreases end,
    {
        end = end - 1;
    }
    proof {
        lemma_trim_start_skip(s@, start as int);
        let t = s@.subrange(start as int, n as int);
        let m = end - start;
        assert(forall|j: int|
            m <= j < t.len() ==> #[trigger] is_whitespace_char(t[j]) == is_whitespace_char(
                s@[start + j],
            ));
        lemma_trim_end_skip(t, m as int);
        assert(t.subrange(0, m as int) =~= s@.subrange(start as int, end as int));
    }
    s.substring_char(start, end)
}

proof fn lemma_trim_start_keeps_non_ws(s: Seq<char>)
    requires
        !is_blank(s),
    ensures
        !is_blank(spec_trim_start(s)),
    decreases s.len(),
{
    if s.len() > 0 && is_whitespace_char(s[0]) {
        let t = s.subrange(1, s.len() as int);
        let i = choose|i: int| 0 <= i < s.len() && !is_whitespace_char(s[i]);
        assert(!is_whitespace_char(t[i - 1]));
        lemma_trim_start_keeps_non_ws(t);
    }
}

proof fn lemma_trim_end_keeps_non_ws(t: Seq<char>)
    requires
        !is_blank(t),
    ensures
        !is_blank(spec_trim_end(t)),
        spec_trim_end(t).len() > 0,
    decreases t.len(),
{
    if t.len() > 0 && is_whitespace_char(t[t.len() - 1]) {
        let i = choose|i: int| 0 <= i < t.len() && !is_whitespace_char(t[i]);
        assert(!is_whitespace_char(t.drop_last()[i]));
        lemma_trim_end_keeps_non_ws(t.drop_last());
    }
}

/// Law: the emptiness test the extractors use — the string is all
/// whitespace — holds exactly when trimming surrounding whitespace leaves
/// nothing.
pub proof fn lemma_blank_iff_trim_empty(s: Seq<char>)
    ensures
        is_blank(s) <==> spec_trim(s).len() == 0,
{
    if is_blank(s) {
        lemma_trim_start_skip(s, s.len() as int);
        assert(s.subrange(s.len() as int, s.len() as int) =~= Seq::<char>::empty());
    } else {
        lemma_trim_start_keeps_non_ws(s);
        lemma_trim_end_keeps_non_ws(spec_trim_start(s));
    }
}

/// The decimal digit character for `d`.
pub open spec fn spec_digit(d: int) -> char {
    if d == 0 {
        '0'
    } else if d == 1 {
        '1'
    } else if d == 2 {
        '2'
    } else if d == 3 {
        '3'
    } else if d == 4 {
        '4'
    } else if d == 5 {
        '5'
    } else if d == 6 {
        '6'
    } else if d == 7 {
        '7'
    } else if d == 8 {
        '8'
    } else {
        '9'
    }
}

/// The usual decimal rendering of `n`, most significant digit first.
pub open spec fn spec_decimal(n: int) -> Seq<char>
    decreases n,
{
    if n < 10 {
        seq![spec_digit(n)]
    } else {
        spec_decimal(n / 10) + seq![spec_digit(n % 10)]
    }
}

fn digit_str(d: usize) -> (r: &'static str)
    requires
        d < 10,
    ensures
        r@ =~= seq![spec_digit(d as int)],
{
    proof {
        reveal_strlit("0");
        reveal_strlit("1");
        reveal_strlit("2");
        reveal_strlit("3");
        reveal_strlit("4");
        reveal_strlit("5");
        reveal_strlit("6");
        reveal_strlit("7");
        reveal_strlit("8");
        reveal_strlit("9");
    }
    match d {
        0 => "0",
        1 => "1",
        2 => "2",
        3 => "3",
        4 => "4",
        5 => "5",
        6 => "6",
        7 => "7",
        8 => "8",
        _ => "9",
    }
}

/// Render `n` in decimal.
pub fn usize_to_string(n: usize) -> (r: String)
    ensures
        r@ == spec_decimal(n as int),
    decreases n,
{
    if n < 10 {
        String::from_str(digit_str(n))
    } else {
        let mut s = usize_to_string(n / 10);
        s.append(digit_str(n % 10));
        s
    }
}

/// The two strings hold the same characters.
pub fn str_equal(a: &str, b: &str) -> (r: bool)
    ensures
        r == (a@ == b@),
{
    let sa = a.to_owned();
    let sb = b.to_owned();
    sa == sb
}

} // verus!
