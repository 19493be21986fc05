//! Plain-text building blocks shared by the renderers: decimal formatting of
//! signed integers, the fixed-width label column, and splitting off the first
//! whitespace-delimited token of a string.

use vstd::prelude::*;
use vstd::string::*;

verus! {

/// The label column of every output line is padded to this many characters.
pub const LABEL_WIDTH: usize = 20;

/// The decimal digit character for a value below ten.
pub open spec fn digit_char(d: nat) -> char {
    if d == 0 {
        '0'
    } else if d == 1 {
        '1'
    } else if d == 2 {
        '2'
    } else if d == 3 {
        '3'
    } else if d == 4 {
        '4'
    } else if d == 5 {
        '5'
    } else if d == 6 {
        '6'
    } else if d == 7 {
        '7'
    } else if d == 8 {
        '8'
    } else {
        '9'
    }
}

/// Decimal digits of a natural number, most significant first, with no
/// leading zeros except for the number zero itself.
pub open spec fn dec_nat(n: nat) -> Seq<char>
    decreases n,
{
    if n < 10 {
        seq![digit_char(n)]
    } else {
        dec_nat(n / 10) + seq![digit_char(n % 10)]
    }
}

/// Decimal rendering of a signed integer: a minus sign before the digits of
/// the magnitude when the value is negative.
pub open spec fn dec_int(n: int) -> Seq<char> {
    if n < 0 {
        seq!['-'] + dec_nat((-n) as nat)
    } else {
        dec_nat(n as nat)
    }
}

/// A run of `n` space characters.
pub open spec fn spaces(n: nat) -> Seq<char>
    decreases n,
{
    if n == 0 {
        Seq::empty()
    } else {
        spaces((n - 1) as nat) + seq![' ']
    }
}

/// One output line: the label, left-aligned in a column of `LABEL_WIDTH`
/// characters, followed directly by the value.
pub open spec fn labeled_line(label: Seq<char>, value: Seq<char>) -> Seq<char> {
    if label.len() < LABEL_WIDTH as nat {
        label + spaces((LABEL_WIDTH as nat - label.len()) as nat) + value
    } else {
        label + value
    }
}

/// Length of the leading run of characters other than `c`; the whole length
/// when `c` does not occur.
pub open spec fn prefix_len(s: Seq<char>, c: char) -> nat
    decreases s.len(),
{
    if s.len() == 0 {
        0
    } else if s[0] == c {
        0
    } else {
        1 + prefix_len(s.drop_first(), c)
    }
}

/// The first whitespace-delimited token: everything before the first space.
pub open spec fn first_token(s: Seq<char>) -> Seq<char> {
    s.take(prefix_len(s, ' ') as int)
}

/// A scan that stops at the first occurrence of `c` computes `prefix_len`.
pub proof fn lemma_prefix_len_of_scan(s: Seq<char>, c: char, n: nat)
    requires
        n <= s.len(),
        forall|i: int| 0 <= i < n ==> s[i] != c,
        n < s.len() ==> s[n as int] == c,
    ensures
        prefix_len(s, c) == n,
    decreases s.len(),
{
    if s.len() > 0 && s[0] != c {
        assert(n != 0);
        lemma_prefix_len_of_scan(s.drop_first(), c, (n - 1) as nat);
    }
}

/// String equality through the character sequences of two slices.
pub fn str_eq(a: &str, b: &str) -> (r: bool)
    ensures
        r == (a@ == b@),
{
    let x: String = a.to_owned();
    let y: String = b.to_owned();
    x == y
}

/// Appends the decimal digits of `n` to `out`.
fn push_dec_nat(out: &mut String, n: u64)
    ensures
        final(out)@ == old(out)@ + dec_nat(n as nat),
    decreases n,
{
    if n >= 10 {
        push_dec_nat(out, n / 10);
    }
    let d: u64 = n % 10;
    let digit: &str = if d == 0 {
        "0"
    } else if d == 1 {
        "1"
    } else if d == 2 {
        "2"
    } else if d == 3 {
        "3"
    } else if d == 4 {
        "4"
    } else if d == 5 {
        "5"
    } else if d == 6 {
        "6"
    } else if d == 7 {
        "7"
    } else if d == 8 {
        "8"
    } else {
        "9"
    };
    proof {
        reveal_strlit("0");
        reveal_strlit("1");
        reveal_strlit("2");
        reveal_strlit("3");
        reveal_strlit("4");
        reveal_strlit("5");
        reveal_strlit("6");
        reveal_strlit("7");
        reveal_strlit("8");
        reveal_strlit("9");
        assert(digit@ =~= seq![digit_char((n % 10) as nat)]);
    }
    out.append(digit);
    proof {
        if n < 10 {
            assert(out@ =~= old(out)@ + dec_nat(n as nat));
        } else {
            assert(out@ =~= old(out)@ + dec_nat(n as nat));
        }
    }
}

/// Decimal rendering of an unsigned machine integer.
pub fn u64_to_string(n: u64) -> (s: String)
    ensures
        s@ == dec_nat(n as nat),
{
    let mut s = String::new();
    push_dec_nat(&mut s, n);
    proof {
        assert(s@ =~= dec_nat(n as nat));
    }
    s
}

/// Decimal rendering of a signed machine integer.
pub fn i64_to_string(n: i64) -> (s: String)
    ensures
        s@ == dec_int(n as int),
{
    if n >= 0 {
        u64_to_string(n as u64)
    } else {
        let mut s = String::from_str("-");
        proof {
            reveal_strlit("-");
            assert(s@ =~= seq!['-']);
        }
        let magnitude: u64 = ((-(n + 1)) as u64) + 1;
        assert(magnitude == -(n as int));
        push_dec_nat(&mut s, magnitude);
        s
    }
}

/// Builds `labeled_line(label, value)`: the label padded with spaces to the
/// fixed column width, then the value.
pub fn render_line(label: &str, value: &str) -> (s: String)
    ensures
        s@ == labeled_line(label@, value@),
{
    let mut s = String::from_str(label);
    let mut k: usize = label.unicode_len();
    proof {
        assert(s@ =~= label@ + spaces(0));
    }
    while k < LABEL_WIDTH
        invariant
            label@.len() <= k,
            k <= LABEL_WIDTH || k == label@.len(),
            s@ == label@ + spaces((k - label@.len()) as nat),
        decreases LABEL_WIDTH - k,
    {
        s.append(" ");
        proof {
            reveal_strlit(" ");
            assert(" "@ =~= seq![' ']);
            assert(s@ =~= label@ + spaces((k + 1 - label@.len()) as nat));
        }
        k = k + 1;
    }
    s.append(value);
    proof {
        if label@.len() < LABEL_WIDTH as nat {
            assert(s@ =~= labeled_line(label@, value@));
        } else {
            assert(spaces(0) =~= Seq::<char>::empty());
            assert(s@ =~= labeled_line(label@, value@));
        }
    }
    s
}

/// The first whitespace-delimited token of `s`: its text up to the first
/// space.
pub fn first_token_of(s: &str) -> (t: String)
    ensures
        t@ == first_token(s@),
{
    let len = s.unicode_len();
    let mut i: usize = 0;
    while i < len && s.get_char(i) != ' '
        invariant
            i <= len == s@.len(),
            forall|j: int| 0 <= j < i ==> s@[j] != ' ',
        decreases len - i,
    {
        i = i + 1;
    }
    proof {
        lemma_prefix_len_of_scan(s@, ' ', i as nat);
    }
    let t = s.substring_char(0, i);
    proof {
        assert(t@ =~= first_token(s@));
    }
    t.to_owned()
}

} // verus!
