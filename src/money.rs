use vstd::prelude::*;

verus! {

/// The character of decimal digit `d`.
pub open spec fn digit_char(d: nat) -> char {
    ((48 + d) as u8) as char
}

/// The decimal digits of `n`, most significant first, with no leading zero.
pub open spec fn decimal_digits(n: nat) -> Seq<char>
    decreases n,
{
    if n < 10 {
        seq![digit_char(n)]
    } else {
        decimal_digits(n / 10).push(digit_char(n % 10))
    }
}

/// An amount of hundredths written with two decimals: a minus sign when it is
/// negative, the whole units, a point, then the tenths and the hundredths.
pub open spec fn amount_text(cents: int) -> Seq<char> {
    let m: nat = (if cents < 0 { -cents } else { cents }) as nat;
    let sign: Seq<char> = if cents < 0 { seq!['-'] } else { seq![] };
    sign + decimal_digits(m / 100) + seq!['.', digit_char((m / 10) % 10), digit_char(m % 10)]
}

/// Relies on String::push: appends one character at the end.
#[verifier::external_body]
fn push_char(s: &mut String, c: char)
    ensures
        final(s)@ == old(s)@.push(c),
{
    s.push(c)
}

fn digit(d: u128) -> (r: char)
    requires
        d < 10,
    ensures
        r == digit_char(d as nat),
{
    ((48 + d) as u8) as char
}

fn push_digits(s: &mut String, n: u128)
    ensures
        final(s)@ == old(s)@ + decimal_digits(n as nat),
    decreases n,
{
    if n < 10 {
        push_char(s, digit(n));
        assert(final(s)@ =~= old(s)@ + decimal_digits(n as nat));
    } else {
        push_digits(s, n / 10);
        push_char(s, digit(n % 10));
        assert(final(s)@ =~= old(s)@ + decimal_digits(n as nat));
    }
}

/// Writes an amount of hundredths with exactly two decimals, as in
/// `-50.00` or `1234.05`.
pub fn format_amount(cents: i128) -> (r: String)
    ensures
        r@ == amount_text(cents as int),
{
    let mut s = String::new();
    let m: u128 = if cents < 0 {
        push_char(&mut s, '-');
        (-(cents + 1)) as u128 + 1
    } else {
        cents as u128
    };
    push_digits(&mut s, m / 100);
    push_char(&mut s, '.');
    push_char(&mut s, digit((m / 10) % 10));
    push_char(&mut s, digit(m % 10));
    proof {
        let sign: Seq<char> = if cents < 0 { seq!['-'] } else { seq![] };
        assert(s@ =~= sign + decimal_digits(m as nat / 100) + seq![
            '.',
            digit_char((m as nat / 10) % 10),
            digit_char(m as nat % 10),
        ]);
    }
    s
}

} // verus!
