//! Text produced by the library: decimal digits, booleans and character-level predicates.

use vstd::prelude::*;
use vstd::string::StrSliceExecFns;

verus! {

/// The character of a decimal digit.
pub open spec fn digit_char(d: int) -> char
    recommends
        0 <= d < 10,
{
    seq!['0', '1', '2', '3', '4', '5', '6', '7', '8', '9'][d]
}

/// Decimal representation of a natural number, without leading zeros ("0" for zero).
pub open spec fn decimal(n: nat) -> Seq<char>
    decreases n,
{
    if n < 10 {
        seq![digit_char(n as int)]
    } else {
        decimal(n / 10) + seq![digit_char((n % 10) as int)]
    }
}

/// The text of one decimal digit.
fn digit_text(d: u64) -> (s: &'static str)
    requires
        d < 10,
    ensures
        s@ == seq![digit_char(d as int)],
{
    proof {
        reveal_strlit("0");
        reveal_strlit("1");
        reveal_strlit("2");
        reveal_strlit("3");
        reveal_strlit("4");
        reveal_strlit("5");
        reveal_strlit("6");
        reveal_strlit("7");
        reveal_strlit("8");
        reveal_strlit("9");
    }
    match d {
        0 => "0",
        1 => "1",
        2 => "2",
        3 => "3",
        4 => "4",
        5 => "5",
        6 => "6",
        7 => "7",
        8 => "8",
        _ => "9",
    }
}

/// Writes an unsigned integer in decimal, as `Display` does for integers.
pub fn u64_text(n: u64) -> (s: String)
    ensures
        s@ == decimal(n as nat),
    decreases n,
{
    if n < 10 {
        String::from_str(digit_text(n))
    } else {
        let mut s = u64_text(n / 10);
        s.append(digit_text(n % 10));
        s
    }
}

/// The Unicode `White_Space` property, which `char::is_whitespace` reports.
pub open spec fn is_white_space(c: char) -> bool {
    let u = c as u32;
    ||| 0x09 <= u <= 0x0d
    ||| u == 0x20
    ||| u == 0x85
    ||| u == 0xa0
    ||| u == 0x1680
    ||| 0x2000 <= u <= 0x200a
    ||| u == 0x2028
    ||| u == 0x2029
    ||| u == 0x202f
    ||| u == 0x205f
    ||| u == 0x3000
}

/// A text that trimming leaves empty: every character of it is white space.
pub open spec fn is_blank_text(s: Seq<char>) -> bool {
    forall|i: int| 0 <= i < s.len() ==> is_white_space(#[trigger] s[i])
}

/// Whether a character is white space.
pub fn char_is_white_space(c: char) -> (b: bool)
    ensures
        b == is_white_space(c),
{
    let u = c as u32;
    (0x09 <= u && u <= 0x0d) || u == 0x20 || u == 0x85 || u == 0xa0 || u == 0x1680 || (0x2000
        <= u && u <= 0x200a) || u == 0x2028 || u == 0x2029 || u == 0x202f || u == 0x205f || u
        == 0x3000
}

/// Whether trimming the text leaves it empty.
pub fn is_blank(s: &str) -> (b: bool)
    ensures
        b == is_blank_text(s@),
{
    let n = s.unicode_len();
    let mut i: usize = 0;
    while i < n
        invariant
            n == s@.len(),
            0 <= i <= n,
            forall|j: int| 0 <= j < i ==> is_white_space(#[trigger] s@[j]),
        decreases n - i,
    {
        if !char_is_white_space(s.get_char(i)) {
            return false;
        }
        i = i + 1;
    }
    true
}

/// Whether two texts hold the same characters.
pub fn same_text(a: &str, b: &str) -> (r: bool)
    ensures
        r == (a@ == b@),
{
    let x = a.to_owned();
    let y = b.to_owned();
    x == y
}

/// Copies a list of texts.
pub fn copy_texts(items: &[String]) -> (v: Vec<String>)
    ensures
        v@ == items@,
{
    let mut v: Vec<String> = Vec::new();
    let n = items.len();
    let mut i: usize = 0;
    while i < n
        invariant
            n == items@.len(),
            0 <= i <= n,
            v@ == items@.subrange(0, i as int),
        decreases n - i,
    {
        v.push(items[i].clone());
        assert(v@ =~= items@.subrange(0, i + 1));
        i = i + 1;
    }
    assert(items@.subrange(0, n as int) =~= items@);
    v
}

/// Lexicographic order of texts by character, which is the order of `str` and `String`:
/// `a` comes first when it is a proper prefix of `b`, or when at the first position where they
/// differ its character is the smaller.
pub open spec fn text_less(a: Seq<char>, b: Seq<char>) -> bool {
    exists|k: int| #[trigger] differs_first_at(a, b, k)
}

/// Whether `a` comes before `b`, as `a < b` on strings.
pub fn text_lt(a: &str, b: &str) -> (r: bool)
    ensures
        r == text_less(a@, b@),
{
    let n = a.unicode_len();
    let m = b.unicode_len();
    let mut i: usize = 0;
    while i < n && i < m
        invariant
            n == a@.len(),
            m == b@.len(),
            0 <= i <= n,
            i <= m,
            a@.subrange(0, i as int) == b@.subrange(0, i as int),
        decreases n - i,
    {
        let x = a.get_char(i);
        let y = b.get_char(i);
        if x != y {
            let r = (x as u32) < (y as u32);
            proof {
                lemma_first_difference(a@, b@, i as int);
            }
            return r;
        }
        assert(a@.subrange(0, i + 1) =~= a@.subrange(0, i as int).push(x));
        assert(b@.subrange(0, i + 1) =~= b@.subrange(0, i as int).push(y));
        i = i + 1;
    }
    proof {
        lemma_common_prefix(a@, b@, i as int);
    }
    i == n && i < m
}

/// The condition that `text_less` asks of a position `k`.
pub open spec fn differs_first_at(a: Seq<char>, b: Seq<char>, k: int) -> bool {
    0 <= k <= a.len() && k <= b.len() && a.subrange(0, k) == b.subrange(0, k) && ((k == a.len()
        && k < b.len()) || (k < a.len() && k < b.len() && (a[k] as u32) < (b[k] as u32)))
}

/// Two texts that agree before `i` agree at every earlier position.
proof fn lemma_prefix_agrees(a: Seq<char>, b: Seq<char>, i: int, k: int)
    requires
        0 <= k < i <= a.len(),
        i <= b.len(),
        a.subrange(0, i) == b.subrange(0, i),
    ensures
        a[k] == b[k],
{
    assert(a.subrange(0, i)[k] == a[k]);
    assert(b.subrange(0, i)[k] == b[k]);
}

/// When the texts agree before `i` and differ at `i`, their order is that of the characters at `i`.
proof fn lemma_first_difference(a: Seq<char>, b: Seq<char>, i: int)
    requires
        0 <= i < a.len(),
        i < b.len(),
        a.subrange(0, i) == b.subrange(0, i),
        a[i] != b[i],
    ensures
        text_less(a, b) == ((a[i] as u32) < (b[i] as u32)),
{
    if (a[i] as u32) < (b[i] as u32) {
        assert(differs_first_at(a, b, i));
    } else if text_less(a, b) {
        let k = choose|k: int| differs_first_at(a, b, k);
        assert(differs_first_at(a, b, k));
        if k > i {
            lemma_prefix_agrees(a, b, k, i);
        } else if k < i {
            lemma_prefix_agrees(a, b, i, k);
        }
    }
}

/// When one text is a prefix of the other, the shorter comes first, and equal texts are not
/// ordered.
proof fn lemma_common_prefix(a: Seq<char>, b: Seq<char>, i: int)
    requires
        0 <= i <= a.len(),
        i <= b.len(),
        i == a.len() || i == b.len(),
        a.subrange(0, i) == b.subrange(0, i),
    ensures
        text_less(a, b) == (i == a.len() && i < b.len()),
{
    if i == a.len() && i < b.len() {
        assert(differs_first_at(a, b, i));
    } else if text_less(a, b) {
        let k = choose|k: int| differs_first_at(a, b, k);
        assert(differs_first_at(a, b, k));
        if k < i {
            lemma_prefix_agrees(a, b, i, k);
        }
    }
}

/// Past a common prefix of length `i` lies a position where the texts differ or one of them
/// ends, with the texts agreeing before it.
proof fn lemma_split_point(a: Seq<char>, b: Seq<char>, i: int) -> (j: int)
    requires
        0 <= i <= a.len(),
        i <= b.len(),
        a.subrange(0, i) == b.subrange(0, i),
    ensures
        i <= j <= a.len(),
        j <= b.len(),
        a.subrange(0, j) == b.subrange(0, j),
        j == a.len() || j == b.len() || a[j] != b[j],
    decreases a.len() - i,
{
    if i == a.len() || i == b.len() || a[i] != b[i] {
        i
    } else {
        assert(a.subrange(0, i + 1) =~= a.subrange(0, i).push(a[i]));
        assert(b.subrange(0, i + 1) =~= b.subrange(0, i).push(b[i]));
        lemma_split_point(a, b, i + 1)
    }
}

/// The order of texts is a strict total order: no text comes before itself, of two texts at
/// most one comes before the other, and of two different texts one comes before the other.
pub proof fn lemma_text_order_strict_total(a: Seq<char>, b: Seq<char>)
    ensures
        !text_less(a, a),
        !(text_less(a, b) && text_less(b, a)),
        a != b ==> (text_less(a, b) || text_less(b, a)),
{
    lemma_common_prefix(a, a, a.len() as int);
    assert(a.subrange(0, 0) =~= b.subrange(0, 0));
    let j = lemma_split_point(a, b, 0);
    if j < a.len() && j < b.len() {
        lemma_first_difference(a, b, j);
        lemma_first_difference(b, a, j);
        vstd::utf8::char_u32_cast(a[j], a[j] as u32);
        vstd::utf8::char_u32_cast(b[j], b[j] as u32);
    } else {
        lemma_common_prefix(a, b, j);
        lemma_common_prefix(b, a, j);
        if j == a.len() && j == b.len() {
            assert(a =~= a.subrange(0, j));
            assert(b =~= b.subrange(0, j));
        }
    }
}

/// The number that a text of decimal digits stands for, read from the left.
pub open spec fn digits_value(s: Seq<char>) -> int
    decreases s.len(),
{
    if s.len() == 0 {
        0
    } else {
        digits_value(s.drop_last()) * 10 + (s.last() as int - '0' as int)
    }
}

/// The decimal text of a number is made of the digits `0`-`9`, starts with a digit other than
/// `0` unless the number is zero, and reads back as the number.
pub proof fn lemma_decimal_reads_back(n: nat)
    ensures
        decimal(n).len() >= 1,
        forall|i: int| 0 <= i < decimal(n).len() ==> '0' <= #[trigger] decimal(n)[i] <= '9',
        n > 0 ==> decimal(n)[0] != '0',
        digits_value(decimal(n)) == n,
    decreases n,
{
    let d = (n % 10) as int;
    assert(digit_char(d) as int == '0' as int + d) by {
        assert(0 <= d < 10);
    }
    if n >= 10 {
        lemma_decimal_reads_back(n / 10);
        let s = decimal(n);
        assert(s.drop_last() =~= decimal(n / 10));
        assert(s.last() == digit_char(d));
        assert((n / 10) * 10 + n % 10 == n) by (nonlinear_arith);
        assert forall|i: int| 0 <= i < s.len() implies '0' <= #[trigger] s[i] <= '9' by {
            if i < s.len() - 1 {
                assert(s[i] == decimal(n / 10)[i]);
            }
        }
        assert(s[0] == decimal(n / 10)[0]);
        assert(digits_value(s) == digits_value(decimal(n / 10)) * 10 + d);
    } else {
        assert(d == n);
        assert(decimal(n).drop_last() =~= Seq::<char>::empty());
        assert(digits_value(decimal(n)) == digits_value(Seq::<char>::empty()) * 10 + d);
    }
}

} // verus!
