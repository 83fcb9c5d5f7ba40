//! Small text helpers: substring search and decimal rendering.

use vstd::prelude::*;
use vstd::string::StrSliceExecFns;
use vstd::string::StringExecFns;

verus! {

/// `pat` occurs in `s` at position `i`.
pub open spec fn occurs_at(s: Seq<char>, pat: Seq<char>, i: int) -> bool {
    0 <= i && i + pat.len() <= s.len() && s.subrange(i, i + pat.len()) == pat
}

/// `pat` occurs somewhere in `s`.
pub open spec fn contains_spec(s: Seq<char>, pat: Seq<char>) -> bool {
    exists|i: int| #[trigger] occurs_at(s, pat, i)
}

/// Whether `pat` occurs in `s`.
pub fn contains_text(s: &str, pat: &str) -> (r: bool)
    ensures
        r == contains_spec(s@, pat@),
{
    let n = s.unicode_len();
    let m = pat.unicode_len();
    if m > n {
        assert forall|i: int| !#[trigger] occurs_at(s@, pat@, i) by {}
        return false;
    }
    let mut i: usize = 0;
    while i <= n - m
        invariant
            n == s@.len(),
            m == pat@.len(),
            m <= n,
            0 <= i <= n - m + 1,
            forall|k: int| 0 <= k < i ==> !#[trigger] occurs_at(s@, pat@, k),
        decreases n - m + 1 - i,
    {
        let mut j: usize = 0;
        let mut same = true;
        while j < m
            invariant
                n == s@.len(),
                m == pat@.len(),
                i + m <= n,
                0 <= j <= m,
                same == forall|t: int| 0 <= t < j ==> s@[i + t] == #[trigger] pat@[t],
            decreases m - j,
        {
            if s.get_char(i + j) != pat.get_char(j) {
                same = false;
            }
            j += 1;
        }
        if same {
            assert(s@.subrange(i as int, i + m) =~= pat@);
            assert(occurs_at(s@, pat@, i as int));
            return true;
        }
        proof {
            let t = choose|t: int| 0 <= t < m && s@[i + t] != #[trigger] pat@[t];
            if occurs_at(s@, pat@, i as int) {
                assert(s@.subrange(i as int, i + m)[t] == s@[i + t]);
            }
        }
        i += 1;
    }
    assert forall|k: int| !#[trigger] occurs_at(s@, pat@, k) by {
        if 0 <= k < i {
        }
    }
    false
}

pub open spec fn digit_char(d: nat) -> char {
    if d == 0 { '0' } else if d == 1 { '1' } else if d == 2 { '2' } else if d == 3 { '3' }
    else if d == 4 { '4' } else if d == 5 { '5' } else if d == 6 { '6' } else if d == 7 { '7' }
    else if d == 8 { '8' } else { '9' }
}

/// The decimal digits of `n`, without leading zeros.
pub open spec fn decimal(n: nat) -> Seq<char>
    decreases n,
{
    if n < 10 {
        seq![digit_char(n)]
    } else {
        decimal(n / 10) + seq![digit_char(n % 10)]
    }
}

fn digit_str(d: usize) -> (r: &'static str)
    requires
        d < 10,
    ensures
        r@ == seq![digit_char(d as nat)],
{
    proof {
        reveal_strlit("0");
        reveal_strlit("1");
        reveal_strlit("2");
        reveal_strlit("3");
        reveal_strlit("4");
        reveal_strlit("5");
        reveal_strlit("6");
        reveal_strlit("7");
        reveal_strlit("8");
        reveal_strlit("9");
    }
    let r = if d == 0 { "0" } else if d == 1 { "1" } else if d == 2 { "2" } else if d == 3 { "3" }
    else if d == 4 { "4" } else if d == 5 { "5" } else if d == 6 { "6" } else if d == 7 { "7" }
    else if d == 8 { "8" } else { "9" };
    assert(r@ =~= seq![digit_char(d as nat)]);
    r
}

/// Appends the decimal digits of `n` to `s`.
pub fn push_decimal(s: &mut String, n: usize)
    ensures
        final(s)@ == old(s)@ + decimal(n as nat),
    decreases n,
{
    if n >= 10 {
        push_decimal(s, n / 10);
    }
    s.append(digit_str(n % 10));
    assert(final(s)@ =~= old(s)@ + decimal(n as nat));
}

/// The one-element parameter list holding `key`.
pub fn one_text(key: &str) -> (r: Vec<String>)
    ensures
        r@.len() == 1,
        r@[0]@ == key@,
{
    let mut v: Vec<String> = Vec::new();
    v.push(String::from_str(key));
    v
}

/// `c` as it stands in the path part of a `file:` URI: `%`, `?` and `#`
/// are percent-encoded, every other character stands for itself.
pub open spec fn uri_char(c: char) -> Seq<char> {
    if c == '%' {
        "%25"@
    } else if c == '?' {
        "%3f"@
    } else if c == '#' {
        "%23"@
    } else {
        seq![c]
    }
}

/// `s` with each character as it stands in a URI path.
pub open spec fn uri_path(s: Seq<char>) -> Seq<char>
    decreases s.len(),
{
    if s.len() == 0 {
        Seq::empty()
    } else {
        uri_path(s.drop_last()) + uri_char(s.last())
    }
}

/// The URI that opens the file at `path` read-only.
pub open spec fn read_only_uri_spec(path: Seq<char>) -> Seq<char> {
    "file:"@ + uri_path(path) + "?mode=ro"@
}

/// Builds the read-only `file:` URI of `path`.
pub fn read_only_uri(path: &str) -> (r: String)
    ensures
        r@ == read_only_uri_spec(path@),
{
    proof {
        reveal_strlit("file:");
        reveal_strlit("%25");
        reveal_strlit("%3f");
        reveal_strlit("%23");
    }
    let mut out = String::from_str("file:");
    let n = path.unicode_len();
    let mut i: usize = 0;
    while i < n
        invariant
            n == path@.len(),
            0 <= i <= n,
            out@ == "file:"@ + uri_path(path@.subrange(0, i as int)),
        decreases n - i,
    {
        let c = path.get_char(i);
        let ghost before = out@;
        if c == '%' {
            out.append("%25");
        } else if c == '?' {
            out.append("%3f");
        } else if c == '#' {
            out.append("%23");
        } else {
            out.append(path.substring_char(i, i + 1));
            assert(path@.subrange(i as int, i + 1) =~= seq![c]);
        }
        assert(path@.subrange(0, i + 1).drop_last() =~= path@.subrange(0, i as int));
        assert(out@ =~= "file:"@ + uri_path(path@.subrange(0, i + 1)));
        i += 1;
    }
    assert(path@.subrange(0, n as int) =~= path@);
    out.append("?mode=ro");
    out
}

} // verus!
