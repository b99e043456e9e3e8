//! Writing an amount of money as text: `-1,234,567.89`.
//!
//! The caller splits the `f32` amount into its sign, its whole units and its
//! hundredths; this module writes those parts.

use vstd::prelude::*;
use vstd::string::StringExecFns;

verus! {

/// The character of decimal digit `d` (below 10).
pub open spec fn digit_char(d: nat) -> char {
    (48 + d) as char
}

/// The decimal digits of `n`, without leading zeros.
pub open spec fn decimal(n: nat) -> Seq<char>
    decreases n,
{
    if n < 10 {
        seq![digit_char(n)]
    } else {
        decimal(n / 10).push(digit_char(n % 10))
    }
}

/// The three decimal digits of `m` (below 1000), with leading zeros.
pub open spec fn three_digits(m: nat) -> Seq<char> {
    seq![digit_char(m / 100), digit_char((m / 10) % 10), digit_char(m % 10)]
}

/// The decimal digits of `n` in groups of three from the right, joined by `,`.
pub open spec fn grouped(n: nat) -> Seq<char>
    decreases n,
{
    if n < 1000 {
        decimal(n)
    } else {
        grouped(n / 1000) + seq![','] + three_digits(n % 1000)
    }
}

/// An amount as text: a `-` for a negative amount, the whole units in groups
/// of three, a `.` and the hundredths as two digits.
pub open spec fn spec_format_amount(negative: bool, units: nat, cents: nat) -> Seq<char> {
    (if negative { seq!['-'] } else { Seq::<char>::empty() }) + grouped(units) + seq![
        '.',
        digit_char(cents / 10),
        digit_char(cents % 10),
    ]
}

fn push_digit(out: &mut String, d: u64)
    requires
        d < 10,
    ensures
        final(out)@ == old(out)@.push(digit_char(d as nat)),
{
    proof {
        reveal_strlit("0");
        reveal_strlit("1");
        reveal_strlit("2");
        reveal_strlit("3");
        reveal_strlit("4");
        reveal_strlit("5");
        reveal_strlit("6");
        reveal_strlit("7");
        reveal_strlit("8");
        reveal_strlit("9");
    }
    let s = if d == 0 {
        "0"
    } else if d == 1 {
        "1"
    } else if d == 2 {
        "2"
    } else if d == 3 {
        "3"
    } else if d == 4 {
        "4"
    } else if d == 5 {
        "5"
    } else if d == 6 {
        "6"
    } else if d == 7 {
        "7"
    } else if d == 8 {
        "8"
    } else {
        "9"
    };
    assert(s@ =~= seq![digit_char(d as nat)]);
    out.append(s);
}

fn push_decimal(out: &mut String, n: u64)
    ensures
        final(out)@ == old(out)@ + decimal(n as nat),
    decreases n,
{
    if n >= 10 {
        push_decimal(out, n / 10);
        push_digit(out, n % 10);
        assert(final(out)@ =~= old(out)@ + decimal(n as nat));
    } else {
        push_digit(out, n);
        assert(final(out)@ =~= old(out)@ + decimal(n as nat));
    }
}

fn push_grouped(out: &mut String, n: u64)
    ensures
        final(out)@ == old(out)@ + grouped(n as nat),
    decreases n,
{
    if n >= 1000 {
        push_grouped(out, n / 1000);
        proof {
            reveal_strlit(",");
        }
        out.append(",");
        let m = n % 1000;
        push_digit(out, m / 100);
        push_digit(out, (m / 10) % 10);
        push_digit(out, m % 10);
        assert(final(out)@ =~= old(out)@ + grouped(n as nat));
    } else {
        push_decimal(out, n);
        assert(final(out)@ =~= old(out)@ + grouped(n as nat));
    }
}

/// Writes an amount from its sign, its whole units and its hundredths.
pub fn format_amount(negative: bool, units: u64, cents: u64) -> (s: String)
    requires
        cents < 100,
    ensures
        s@ == spec_format_amount(negative, units as nat, cents as nat),
{
    let mut out = String::new();
    proof {
        reveal_strlit("-");
        reveal_strlit(".");
    }
    if negative {
        out.append("-");
    }
    push_grouped(&mut out, units);
    out.append(".");
    push_digit(&mut out, cents / 10);
    push_digit(&mut out, cents % 10);
    assert(out@ =~= spec_format_amount(negative, units as nat, cents as nat));
    out
}

} // verus!

verus! {

/// The number that a text of decimal digits and `,` separators reads as,
/// the separators ignored.
pub open spec fn read_number(s: Seq<char>) -> int
    decreases s.len(),
{
    if s.len() == 0 {
        0
    } else if s.last() == ',' {
        read_number(s.drop_last())
    } else {
        read_number(s.drop_last()) * 10 + (s.last() as int - 48)
    }
}

/// Whether `c` is a decimal digit.
pub open spec fn is_digit(c: char) -> bool {
    48 <= c as int <= 57
}

proof fn lemma_digit_char(d: nat)
    requires
        d < 10,
    ensures
        digit_char(d) as int == 48 + d,
        is_digit(digit_char(d)),
        digit_char(d) != ',',
        digit_char(d) != '-',
{
}

proof fn lemma_decimal(n: nat)
    ensures
        read_number(decimal(n)) == n,
        decimal(n).len() >= 1,
        is_digit(decimal(n)[0]),
        forall|i: int| 0 <= i < decimal(n).len() ==> is_digit(#[trigger] decimal(n)[i]),
    decreases n,
{
    lemma_digit_char(n % 10);
    if n >= 10 {
        lemma_decimal(n / 10);
        let s = decimal(n);
        assert(s.drop_last() =~= decimal(n / 10));
        assert(s.last() == digit_char(n % 10));
        assert(read_number(s) == read_number(s.drop_last()) * 10 + (s.last() as int - 48));
        assert(s[0] == decimal(n / 10)[0]);
    } else {
        let s = decimal(n);
        assert(s =~= seq![digit_char(n)]);
        assert(s.drop_last() =~= Seq::<char>::empty());
        assert(read_number(s.drop_last()) == 0);
        assert(s.last() == digit_char(n));
        assert(read_number(s) == read_number(s.drop_last()) * 10 + (s.last() as int - 48));
    }
}

proof fn lemma_grouped(n: nat)
    ensures
        read_number(grouped(n)) == n,
        grouped(n).len() >= 1,
        is_digit(grouped(n)[0]),
        forall|i: int| 0 <= i < grouped(n).len() ==> is_digit(#[trigger] grouped(n)[i]) || grouped(n)[i] == ',',
    decreases n,
{
    if n < 1000 {
        lemma_decimal(n);
    } else {
        let m = n % 1000;
        lemma_grouped(n / 1000);
        lemma_digit_char(m / 100);
        lemma_digit_char((m / 10) % 10);
        lemma_digit_char(m % 10);
        let x = grouped(n / 1000);
        let s = grouped(n);
        assert(s == x + seq![','] + three_digits(m));
        assert(s.drop_last() =~= x + seq![',', digit_char(m / 100), digit_char((m / 10) % 10)]);
        assert(s.drop_last().drop_last() =~= x + seq![',', digit_char(m / 100)]);
        assert(s.drop_last().drop_last().drop_last() =~= x + seq![',']);
        assert((x + seq![',']).drop_last() =~= x);
        let s1 = s.drop_last();
        let s2 = s1.drop_last();
        let s3 = s2.drop_last();
        assert(s.last() == digit_char(m % 10));
        assert(s1.last() == digit_char((m / 10) % 10));
        assert(s2.last() == digit_char(m / 100));
        assert(s3.last() == ',');
        assert(read_number(s3) == read_number(s3.drop_last()));
        assert(read_number(s3) == n / 1000);
        assert(read_number(s2) == read_number(s3) * 10 + (m / 100));
        assert(read_number(s1) == read_number(s2) * 10 + ((m / 10) % 10));
        assert(read_number(s) == read_number(s1) * 10 + (m % 10));
        let a = m / 100;
        let b = (m / 10) % 10;
        let c = m % 10;
        assert((((n / 1000) * 10 + a) * 10 + b) * 10 + c == n as int) by (nonlinear_arith)
            requires
                m == n % 1000,
                a == m / 100,
                b == (m / 10) % 10,
                c == m % 10,
        ;
        assert(s[0] == x[0]);
        assert forall|i: int| 0 <= i < s.len() implies is_digit(#[trigger] s[i]) || s[i] == ',' by {
            if i < x.len() {
                assert(s[i] == x[i]);
            }
        }
    }
}

/// An amount's text reads back as the amount: a `-` in front exactly for a
/// negative amount, then digits with `,` separators that read as the whole
/// units and start with a digit, a `.`, and two digits that read as the
/// hundredths.
pub proof fn law_amount_reads_back(negative: bool, units: nat, cents: nat)
    requires
        cents < 100,
    ensures
        ({
            let t = spec_format_amount(negative, units, cents);
            let body = if negative { t.drop_first() } else { t };
            &&& (t[0] == '-') == negative
            &&& body.len() >= 4
            &&& body[body.len() - 3] == '.'
            &&& read_number(body.take(body.len() - 3)) == units
            &&& is_digit(body[0])
            &&& forall|i: int| 0 <= i < body.len() - 3 ==> is_digit(#[trigger] body[i]) || body[i] == ','
            &&& body.skip(body.len() - 2).len() == 2
            &&& is_digit(body[body.len() - 2]) && is_digit(body[body.len() - 1])
            &&& read_number(body.skip(body.len() - 2)) == cents
        }),
{
    lemma_grouped(units);
    lemma_digit_char(cents / 10);
    lemma_digit_char(cents % 10);
    let g = grouped(units);
    let tail = seq!['.', digit_char(cents / 10), digit_char(cents % 10)];
    let t = spec_format_amount(negative, units, cents);
    let body = if negative { t.drop_first() } else { t };
    assert(body =~= g + tail);
    assert(body.take(body.len() - 3) =~= g);
    let two = body.skip(body.len() - 2);
    assert(two =~= seq![digit_char(cents / 10), digit_char(cents % 10)]);
    assert(two.drop_last() =~= seq![digit_char(cents / 10)]);
    assert(two.drop_last().drop_last() =~= Seq::<char>::empty());
    assert((cents / 10) * 10 + cents % 10 == cents);
    assert(read_number(two.drop_last().drop_last()) == 0);
    assert(read_number(two.drop_last()) == read_number(two.drop_last().drop_last()) * 10 + (cents / 10));
    assert(read_number(two) == read_number(two.drop_last()) * 10 + (cents % 10));
    assert(body.len() == g.len() + 3);
    assert(body[body.len() - 3] == '.');
    assert(body[body.len() - 2] == digit_char(cents / 10));
    assert(body[body.len() - 1] == digit_char(cents % 10));
    assert(body[0] == g[0]);
    if negative {
        assert(t[0] == '-');
    } else {
        assert(t[0] == g[0]);
    }
    assert forall|i: int| 0 <= i < body.len() - 3 implies is_digit(#[trigger] body[i]) || body[i] == ',' by {
        assert(body[i] == g[i]);
    }
}

} // verus!
