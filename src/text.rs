use vstd::prelude::*;
use crate::graph::views;

verus! {

/// The decimal digit `d` as a character.
pub open spec fn digit_char(d: nat) -> char {
    if d == 0 { '0' } else if d == 1 { '1' } else if d == 2 { '2' } else if d == 3 { '3' }
    else if d == 4 { '4' } else if d == 5 { '5' } else if d == 6 { '6' } else if d == 7 { '7' }
    else if d == 8 { '8' } else { '9' }
}

/// Decimal digits of `n`, most significant first, without leading zeros.
pub open spec fn digits(n: nat) -> Seq<char>
    decreases n,
{
    if n < 10 {
        seq![digit_char(n)]
    } else {
        digits(n / 10).push(digit_char(n % 10))
    }
}

/// Decimal text of an integer, with a leading '-' when it is negative.
pub open spec fn decimal(n: int) -> Seq<char> {
    if n < 0 {
        seq!['-'] + digits((-n) as nat)
    } else {
        digits(n as nat)
    }
}

fn digit_str(d: u64) -> (r: &'static str)
    requires
        d < 10,
    ensures
        r@ == seq![digit_char(d as nat)],
{
    proof {
        reveal_strlit("0");
        reveal_strlit("1");
        reveal_strlit("2");
        reveal_strlit("3");
        reveal_strlit("4");
        reveal_strlit("5");
        reveal_strlit("6");
        reveal_strlit("7");
        reveal_strlit("8");
        reveal_strlit("9");
    }
    if d == 0 { "0" } else if d == 1 { "1" } else if d == 2 { "2" } else if d == 3 { "3" }
    else if d == 4 { "4" } else if d == 5 { "5" } else if d == 6 { "6" } else if d == 7 { "7" }
    else if d == 8 { "8" } else { "9" }
}

/// Decimal digits of an unsigned number.
pub fn digits_of(n: u64) -> (r: String)
    ensures
        r@ == digits(n as nat),
    decreases n,
{
    if n < 10 {
        String::from_str(digit_str(n))
    } else {
        let mut s = digits_of(n / 10);
        s.append(digit_str(n % 10));
        s
    }
}

/// Decimal text of a signed number.
pub fn decimal_of(n: i64) -> (r: String)
    ensures
        r@ == decimal(n as int),
{
    if n < 0 {
        let m: u64 = if n == i64::MIN { 9223372036854775808u64 } else { (-n) as u64 };
        let d = digits_of(m);
        proof {
            reveal_strlit("-");
        }
        String::from_str("-").concat(d.as_str())
    } else {
        digits_of(n as u64)
    }
}

/// Whether `c` has the Unicode White_Space property.
pub open spec fn is_white(c: char) -> bool {
    let u = c as u32;
    (0x9 <= u && u <= 0xd) || u == 0x20 || u == 0x85 || u == 0xa0 || u == 0x1680 || (0x2000 <= u
        && u <= 0x200a) || u == 0x2028 || u == 0x2029 || u == 0x202f || u == 0x205f || u == 0x3000
}

/// `s` has nothing but white space, so that trimming it leaves nothing.
pub open spec fn blank(s: Seq<char>) -> bool {
    forall|i: int| 0 <= i < s.len() ==> is_white(#[trigger] s[i])
}

/// Whether `c` is white space.
pub fn white(c: char) -> (r: bool)
    ensures
        r == is_white(c),
{
    let u = c as u32;
    (0x9 <= u && u <= 0xd) || u == 0x20 || u == 0x85 || u == 0xa0 || u == 0x1680 || (0x2000 <= u
        && u <= 0x200a) || u == 0x2028 || u == 0x2029 || u == 0x202f || u == 0x205f || u == 0x3000
}

/// Whether the text is empty or white space only.
pub fn is_blank(s: &String) -> (r: bool)
    ensures
        r == blank(s@),
{
    let t = s.as_str();
    let n = t.unicode_len();
    let mut i: usize = 0;
    while i < n
        invariant
            n == s@.len(),
            t@ == s@,
            i <= n,
            forall|k: int| 0 <= k < i ==> is_white(#[trigger] s@[k]),
        decreases n - i,
    {
        let c = t.get_char(i);
        if !white(c) {
            return false;
        }
        i = i + 1;
    }
    true
}

/// `s` between double quotes.
pub open spec fn quoted(s: Seq<char>) -> Seq<char> {
    "\""@ + s + "\""@
}

/// The items of `xs`, each quoted, separated by ", ".
pub open spec fn quoted_list(xs: Seq<Seq<char>>) -> Seq<char>
    decreases xs.len(),
{
    if xs.len() == 0 {
        Seq::empty()
    } else if xs.len() == 1 {
        quoted(xs[0])
    } else {
        quoted_list(xs.drop_last()) + ", "@ + quoted(xs.last())
    }
}

/// The items of `xs` separated by `sep`.
pub open spec fn joined(xs: Seq<Seq<char>>, sep: Seq<char>) -> Seq<char>
    decreases xs.len(),
{
    if xs.len() == 0 {
        Seq::empty()
    } else if xs.len() == 1 {
        xs[0]
    } else {
        joined(xs.drop_last(), sep) + sep + xs.last()
    }
}

/// Each item quoted, separated by ", ".
pub fn quoted_list_of(xs: &Vec<String>) -> (r: String)
    ensures
        r@ == quoted_list(views(xs@)),
{
    let mut r = String::new();
    let mut k: usize = 0;
    while k < xs.len()
        invariant
            k <= xs@.len(),
            r@ == quoted_list(views(xs@.subrange(0, k as int))),
        decreases xs@.len() - k,
    {
        let ghost part = views(xs@.subrange(0, k as int + 1));
        assert(part.drop_last() =~= views(xs@.subrange(0, k as int)));
        assert(part.last() == xs@[k as int]@);
        if k > 0 {
            r.append(", ");
        }
        r.append("\"");
        r.append(xs[k].as_str());
        r.append("\"");
        assert(k == 0 ==> views(xs@.subrange(0, k as int)).len() == 0);
        k = k + 1;
    }
    assert(xs@.subrange(0, xs@.len() as int) =~= xs@);
    r
}

/// The items separated by `sep`.
pub fn join_with(xs: &Vec<String>, sep: &str) -> (r: String)
    ensures
        r@ == joined(views(xs@), sep@),
{
    let mut r = String::new();
    let mut k: usize = 0;
    while k < xs.len()
        invariant
            k <= xs@.len(),
            r@ == joined(views(xs@.subrange(0, k as int)), sep@),
        decreases xs@.len() - k,
    {
        let ghost part = views(xs@.subrange(0, k as int + 1));
        assert(part.drop_last() =~= views(xs@.subrange(0, k as int)));
        assert(part.last() == xs@[k as int]@);
        if k > 0 {
            r.append(sep);
        }
        r.append(xs[k].as_str());
        assert(k == 0 ==> views(xs@.subrange(0, k as int)).len() == 0);
        k = k + 1;
    }
    assert(xs@.subrange(0, xs@.len() as int) =~= xs@);
    r
}

} // verus!
