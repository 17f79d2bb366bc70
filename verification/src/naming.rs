//! Decimal rendering of counters and the names of temporary files used for
//! atomic writes.

use vstd::prelude::*;
use vstd::string::*;

verus! {

/// The character of a decimal digit.
pub open spec fn digit_char(d: nat) -> char {
    if d == 0 { '0' }
    else if d == 1 { '1' }
    else if d == 2 { '2' }
    else if d == 3 { '3' }
    else if d == 4 { '4' }
    else if d == 5 { '5' }
    else if d == 6 { '6' }
    else if d == 7 { '7' }
    else if d == 8 { '8' }
    else { '9' }
}

/// Whether `c` is one of the ten ASCII decimal digits.
pub open spec fn is_digit(c: char) -> bool {
    '0' <= c && c <= '9'
}

/// The decimal representation of `n`, most significant digit first, without
/// leading zeros (`0` is rendered as `"0"`).
pub open spec fn decimal(n: nat) -> Seq<char>
    decreases n,
{
    if n < 10 {
        seq![digit_char(n)]
    } else {
        decimal(n / 10).push(digit_char(n % 10))
    }
}

/// The extension given to the temporary file of a write: `tmp.<pid>.<seq>`.
pub open spec fn temp_extension_spec(pid: nat, seq: nat) -> Seq<char> {
    seq!['t', 'm', 'p', '.'] + decimal(pid) + seq!['.'] + decimal(seq)
}

fn digit_str(d: u64) -> (s: &'static str)
    requires
        d < 10,
    ensures
        s@ == seq![digit_char(d as nat)],
{
    proof {
        reveal_strlit("0");
        reveal_strlit("1");
        reveal_strlit("2");
        reveal_strlit("3");
        reveal_strlit("4");
        reveal_strlit("5");
        reveal_strlit("6");
        reveal_strlit("7");
        reveal_strlit("8");
        reveal_strlit("9");
    }
    if d == 0 { "0" }
    else if d == 1 { "1" }
    else if d == 2 { "2" }
    else if d == 3 { "3" }
    else if d == 4 { "4" }
    else if d == 5 { "5" }
    else if d == 6 { "6" }
    else if d == 7 { "7" }
    else if d == 8 { "8" }
    else { "9" }
}

/// Appends the decimal representation of `n` to `out`.
fn push_decimal(out: &mut String, n: u64)
    ensures
        final(out)@ == old(out)@ + decimal(n as nat),
    decreases n,
{
    if n < 10 {
        out.append(digit_str(n));
    } else {
        push_decimal(out, n / 10);
        out.append(digit_str(n % 10));
        proof {
            assert(decimal(n as nat) == decimal((n / 10) as nat).push(digit_char((n % 10) as nat)));
        }
    }
}

/// The extension of the temporary file that a write goes through before it is
/// renamed into place: `tmp.<pid>.<seq>`, where `pid` identifies the process
/// and `seq` counts the writes made by it.
pub fn temp_extension(pid: u32, seq: u64) -> (s: String)
    ensures
        s@ == temp_extension_spec(pid as nat, seq as nat),
{
    proof {
        reveal_strlit("tmp.");
        reveal_strlit(".");
    }
    let mut s = String::from_str("tmp.");
    push_decimal(&mut s, pid as u64);
    s.append(".");
    push_decimal(&mut s, seq);
    proof {
        assert(s@ =~= temp_extension_spec(pid as nat, seq as nat));
    }
    s
}

/// Every character of a decimal representation is a digit, and it is never
/// empty.
pub proof fn lemma_decimal_digits(n: nat)
    ensures
        decimal(n).len() >= 1,
        forall|i: int| 0 <= i < decimal(n).len() ==> is_digit(#[trigger] decimal(n)[i]),
        n >= 10 ==> decimal(n).len() >= 2,
    decreases n,
{
    if n >= 10 {
        lemma_decimal_digits(n / 10);
        let p = decimal(n / 10);
        assert forall|i: int| 0 <= i < decimal(n).len() implies is_digit(#[trigger] decimal(n)[i]) by {
            if i < p.len() {
                assert(decimal(n)[i] == p[i]);
            }
        }
    }
}

proof fn lemma_digit_char_injective(x: nat, y: nat)
    requires
        x < 10,
        y < 10,
        digit_char(x) == digit_char(y),
    ensures
        x == y,
{
}

/// Distinct numbers have distinct decimal representations.
pub proof fn lemma_decimal_injective(a: nat, b: nat)
    requires
        decimal(a) == decimal(b),
    ensures
        a == b,
    decreases a,
{
    lemma_decimal_digits(a);
    lemma_decimal_digits(b);
    if a < 10 && b < 10 {
        assert(decimal(a) == seq![digit_char(a)]);
        assert(decimal(b) == seq![digit_char(b)]);
        assert(decimal(a)[0] == digit_char(a));
        assert(decimal(b)[0] == digit_char(b));
        lemma_digit_char_injective(a, b);
    } else if a >= 10 && b >= 10 {
        let da = decimal(a);
        let db = decimal(b);
        assert(da.last() == db.last());
        assert(da.drop_last() =~= decimal(a / 10));
        assert(db.drop_last() =~= decimal(b / 10));
        lemma_decimal_injective(a / 10, b / 10);
        lemma_digit_char_injective(a % 10, b % 10);
    } else {
        assert(decimal(a).len() != decimal(b).len());
    }
}

/// Two writes get the same temporary file only if they come from the same
/// process with the same sequence number: the temporary name determines both.
pub proof fn lemma_temp_extension_unique(pid1: nat, seq1: nat, pid2: nat, seq2: nat)
    requires
        temp_extension_spec(pid1, seq1) == temp_extension_spec(pid2, seq2),
    ensures
        pid1 == pid2,
        seq1 == seq2,
{
    let pre = seq!['t', 'm', 'p', '.'];
    let a = decimal(pid1);
    let b = decimal(seq1);
    let c = decimal(pid2);
    let d = decimal(seq2);
    lemma_decimal_digits(pid1);
    lemma_decimal_digits(seq1);
    lemma_decimal_digits(pid2);
    lemma_decimal_digits(seq2);
    let s = temp_extension_spec(pid1, seq1);
    let t = temp_extension_spec(pid2, seq2);
    assert(s == pre + a + seq!['.'] + b);
    assert(t == pre + c + seq!['.'] + d);
    // The first '.' after the prefix ends the process id.
    if a.len() < c.len() {
        assert(s[4 + a.len() as int] == '.');
        assert(t[4 + a.len() as int] == c[a.len() as int]);
        assert(is_digit(c[a.len() as int]));
        assert(false);
    }
    if c.len() < a.len() {
        assert(t[4 + c.len() as int] == '.');
        assert(s[4 + c.len() as int] == a[c.len() as int]);
        assert(is_digit(a[c.len() as int]));
        assert(false);
    }
    assert(a.len() == c.len());
    assert forall|i: int| 0 <= i < a.len() implies a[i] == c[i] by {
        assert(s[4 + i] == a[i]);
        assert(t[4 + i] == c[i]);
    }
    assert(a =~= c);
    assert(b.len() == d.len());
    assert forall|i: int| 0 <= i < b.len() implies b[i] == d[i] by {
        assert(s[5 + a.len() + i] == b[i]);
        assert(t[5 + c.len() + i] == d[i]);
    }
    assert(b =~= d);
    lemma_decimal_injective(pid1, pid2);
    lemma_decimal_injective(seq1, seq2);
}

/// The numeric value of a digit character.
pub open spec fn digit_value(c: char) -> int {
    (c as int) - ('0' as int)
}

/// The number that a string of decimal digits denotes, read positionally.
pub open spec fn decimal_value(s: Seq<char>) -> int
    decreases s.len(),
{
    if s.len() == 0 {
        0
    } else {
        10 * decimal_value(s.drop_last()) + digit_value(s.last())
    }
}

proof fn lemma_digit_value(d: nat)
    requires
        d < 10,
    ensures
        digit_value(digit_char(d)) == d,
{
}

/// Reading a decimal representation back gives the number it represents.
pub proof fn lemma_decimal_reads_back(n: nat)
    ensures
        decimal_value(decimal(n)) == n,
    decreases n,
{
    if n < 10 {
        lemma_digit_value(n);
        assert(decimal(n).drop_last() =~= Seq::<char>::empty());
        assert(decimal(n).last() == digit_char(n));
        assert(decimal_value(decimal(n)) == 10 * decimal_value(decimal(n).drop_last()) + digit_value(decimal(n).last()));
        assert(decimal_value(Seq::<char>::empty()) == 0);
    } else {
        lemma_decimal_reads_back(n / 10);
        lemma_digit_value(n % 10);
        assert(decimal(n).drop_last() =~= decimal(n / 10));
        assert(decimal(n).last() == digit_char(n % 10));
        assert(decimal_value(decimal(n)) == 10 * decimal_value(decimal(n).drop_last()) + digit_value(decimal(n).last()));
        assert(10 * (n / 10) + n % 10 == n);
    }
}

/// The name of a temporary file is `tmp.`, the process id in decimal, `.`,
/// and the sequence number in decimal: reading the two digit groups back
/// gives the process id and the sequence number.
pub proof fn lemma_temp_extension_reads_back(pid: nat, seq: nat)
    ensures
        exists|a: Seq<char>, b: Seq<char>|
            temp_extension_spec(pid, seq) == seq!['t', 'm', 'p', '.'] + a + seq!['.'] + b
                && (forall|i: int| 0 <= i < a.len() ==> is_digit(#[trigger] a[i]))
                && (forall|i: int| 0 <= i < b.len() ==> is_digit(#[trigger] b[i]))
                && a.len() > 0 && b.len() > 0
                && #[trigger] decimal_value(a) == pid && #[trigger] decimal_value(b) == seq,
{
    lemma_decimal_digits(pid);
    lemma_decimal_digits(seq);
    lemma_decimal_reads_back(pid);
    lemma_decimal_reads_back(seq);
    let a = decimal(pid);
    let b = decimal(seq);
    assert(temp_extension_spec(pid, seq) == seq!['t', 'm', 'p', '.'] + a + seq!['.'] + b);
}

} // verus!
