//! Token amounts as they are shown: the integer in the smallest unit,
//! divided by ten to the number of decimals and written as a decimal number.

use vstd::prelude::*;

verus! {

/// The decimals of the native token, whose smallest unit is the lamport.
pub const SOL_DECIMALS: u8 = 9;

/// The decimals of the mined token.
pub const TOKEN_DECIMALS: u8 = 9;

/// Ten to the power `e`.
pub open spec fn pow10(e: nat) -> nat
    decreases e,
{
    if e == 0 {
        1
    } else {
        10 * pow10((e - 1) as nat)
    }
}

/// The whole tokens in `amount` smallest units of a token with `decimals`
/// decimals.
pub open spec fn whole_units(amount: nat, decimals: nat) -> nat {
    amount / pow10(decimals)
}

/// What is left of `amount` after the whole tokens, in smallest units.
pub open spec fn fraction_units(amount: nat, decimals: nat) -> nat {
    amount % pow10(decimals)
}

/// The character of a decimal digit.
pub open spec fn digit_char(digit: nat) -> char {
    (('0' as nat) + digit) as char
}

/// A number in decimal digits, without leading zeros.
pub open spec fn digits(n: nat) -> Seq<char>
    decreases n,
{
    if n < 10 {
        seq![digit_char(n)]
    } else {
        digits(n / 10).push(digit_char(n % 10))
    }
}

/// The last `width` decimal digits of a number, zeros in front included.
pub open spec fn padded(n: nat, width: nat) -> Seq<char>
    decreases width,
{
    if width == 0 {
        Seq::empty()
    } else {
        padded(n / 10, (width - 1) as nat).push(digit_char(n % 10))
    }
}

/// The last `width` decimal digits of a number without the zeros at their
/// end: the digits behind the decimal point.
pub open spec fn trimmed(n: nat, width: nat) -> Seq<char>
    decreases width,
{
    if width == 0 {
        Seq::empty()
    } else if n % 10 == 0 {
        trimmed(n / 10, (width - 1) as nat)
    } else {
        padded(n, width)
    }
}

/// An amount as it is shown: the whole tokens and, where the amount is not
/// a whole number of tokens, a point and the decimals up to the last one
/// that is not zero.
pub open spec fn decimal_text(amount: nat, decimals: nat) -> Seq<char> {
    if fraction_units(amount, decimals) == 0 {
        digits(whole_units(amount, decimals))
    } else {
        digits(whole_units(amount, decimals)) + seq!['.'] + trimmed(
            fraction_units(amount, decimals),
            decimals,
        )
    }
}

/// A decimal digit.
pub open spec fn is_digit(c: char) -> bool {
    '0' <= c <= '9'
}

/// The number that a decimal digit stands for.
pub open spec fn digit_value(c: char) -> nat {
    ((c as nat) - ('0' as nat)) as nat
}

/// The number that a run of decimal digits reads as; none read as zero.
pub open spec fn number_of(text: Seq<char>) -> nat
    decreases text.len(),
{
    if text.len() == 0 {
        0
    } else {
        number_of(text.drop_last()) * 10 + digit_value(text.last())
    }
}

/// Made of decimal digits only.
pub open spec fn all_digits(text: Seq<char>) -> bool {
    forall|i: int| 0 <= i < text.len() ==> is_digit(#[trigger] text[i])
}

proof fn lemma_pow10_positive(e: nat)
    ensures
        pow10(e) >= 1,
    decreases e,
{
    if e > 0 {
        lemma_pow10_positive((e - 1) as nat);
    }
}

proof fn lemma_pow10_grows(i: nat, j: nat)
    requires
        i <= j,
    ensures
        pow10(i) <= pow10(j),
    decreases j,
{
    if i < j {
        lemma_pow10_grows(i, (j - 1) as nat);
        lemma_pow10_positive((j - 1) as nat);
    }
}

/// Reads the constant `TOKEN_DECIMALS` of `ore`, the number of decimals that
/// the mined token is minted with: nine.
#[verifier::external_body]
fn minted_decimals() -> (decimals: u8)
    ensures
        decimals == TOKEN_DECIMALS,
{
    ore::TOKEN_DECIMALS
}

/// Calls `String::push` of std: the character is added at the end.
#[verifier::external_body]
fn push_char(text: &mut String, c: char)
    ensures
        final(text)@ == old(text)@.push(c),
{
    text.push(c)
}

fn digit_to_char(digit: u8) -> (c: char)
    requires
        digit < 10,
    ensures
        c == digit_char(digit as nat),
{
    match digit {
        0 => '0',
        1 => '1',
        2 => '2',
        3 => '3',
        4 => '4',
        5 => '5',
        6 => '6',
        7 => '7',
        8 => '8',
        _ => '9',
    }
}

/// Adds the characters of `reversed` to `text`, the last one first.
fn push_reversed(text: &mut String, reversed: &Vec<char>)
    ensures
        final(text)@ == old(text)@ + reversed@.reverse(),
{
    let mut left: usize = reversed.len();
    while left > 0
        invariant
            left <= reversed.len(),
            text@ == old(text)@ + reversed@.reverse().take(reversed.len() - left),
        decreases left,
    {
        left -= 1;
        push_char(text, reversed[left]);
        assert(reversed@.reverse().take(reversed.len() - left) =~= reversed@.reverse().take(
            reversed.len() - left - 1,
        ).push(reversed@[left as int]));
    }
    assert(reversed@.reverse().take(reversed.len() as int) =~= reversed@.reverse());
}

/// Adds the decimal digits of `n` to `text`.
fn push_digits(text: &mut String, n: u64)
    ensures
        final(text)@ == old(text)@ + digits(n as nat),
{
    let mut reversed: Vec<char> = Vec::new();
    let mut rest: u64 = n;
    while rest >= 10
        invariant
            digits(n as nat) == digits(rest as nat) + reversed@.reverse(),
        decreases rest,
    {
        let c = digit_to_char((rest % 10) as u8);
        proof {
            let front = digits((rest / 10) as nat);
            assert(reversed@.push(c).reverse() =~= seq![c] + reversed@.reverse());
            assert(digits(rest as nat) == front.push(c));
            assert(front.push(c) + reversed@.reverse() =~= front + (seq![c]
                + reversed@.reverse()));
        }
        reversed.push(c);
        rest = rest / 10;
    }
    let c = digit_to_char(rest as u8);
    proof {
        assert(reversed@.push(c).reverse() =~= seq![c] + reversed@.reverse());
        assert(digits(rest as nat) =~= seq![c]);
    }
    reversed.push(c);
    push_reversed(text, &reversed);
}

/// Adds to `text` the last `width` decimal digits of `n` without the zeros
/// at their end.
fn push_trimmed(text: &mut String, n: u64, width: u8)
    ensures
        final(text)@ == old(text)@ + trimmed(n as nat, width as nat),
{
    let mut rest: u64 = n;
    let mut left: u8 = width;
    while left > 0 && rest % 10 == 0
        invariant
            trimmed(n as nat, width as nat) == trimmed(rest as nat, left as nat),
        decreases left,
    {
        rest = rest / 10;
        left -= 1;
    }
    let ghost kept = rest;
    let ghost kept_width = left;
    assert(trimmed(rest as nat, left as nat) == padded(rest as nat, left as nat));
    let mut reversed: Vec<char> = Vec::new();
    while left > 0
        invariant
            padded(kept as nat, kept_width as nat) == padded(rest as nat, left as nat)
                + reversed@.reverse(),
        decreases left,
    {
        let c = digit_to_char((rest % 10) as u8);
        proof {
            let front = padded((rest / 10) as nat, (left - 1) as nat);
            assert(reversed@.push(c).reverse() =~= seq![c] + reversed@.reverse());
            assert(padded(rest as nat, left as nat) == front.push(c));
            assert(front.push(c) + reversed@.reverse() =~= front + (seq![c]
                + reversed@.reverse()));
        }
        reversed.push(c);
        rest = rest / 10;
        left -= 1;
    }
    assert(padded(rest as nat, 0) + reversed@.reverse() =~= reversed@.reverse());
    push_reversed(text, &reversed);
}

/// Splits an amount into whole tokens and what is left, in smallest units.
pub fn split_amount(amount: u64, decimals: u8) -> (parts: (u64, u64))
    ensures
        parts.0 == whole_units(amount as nat, decimals as nat),
        parts.1 == fraction_units(amount as nat, decimals as nat),
{
    let mut unit: u64 = 1;
    let mut i: u8 = 0;
    while i < decimals
        invariant
            i <= decimals,
            unit == pow10(i as nat),
        decreases decimals - i,
    {
        match unit.checked_mul(10) {
            Some(next) => {
                unit = next;
                i += 1;
            },
            None => {
                proof {
                    let one = pow10(decimals as nat);
                    lemma_pow10_grows((i + 1) as nat, decimals as nat);
                    assert(amount < one);
                    assert(amount as nat / one == 0 && amount as nat % one == amount)
                        by (nonlinear_arith)
                        requires
                            amount < one,
                    ;
                }
                return (0, amount);
            },
        }
    }
    proof {
        lemma_pow10_positive(decimals as nat);
    }
    (amount / unit, amount % unit)
}

/// Writes an amount, given in the smallest unit of a token with `decimals`
/// decimals, as a decimal number of tokens.
pub fn amount_text(amount: u64, decimals: u8) -> (text: String)
    ensures
        text@ == decimal_text(amount as nat, decimals as nat),
{
    let (whole, fraction) = split_amount(amount, decimals);
    let mut text = String::new();
    push_digits(&mut text, whole);
    if fraction != 0 {
        push_char(&mut text, '.');
        push_trimmed(&mut text, fraction, decimals);
        assert(text@ =~= digits(whole as nat) + seq!['.'] + trimmed(
            fraction as nat,
            decimals as nat,
        ));
    } else {
        assert(text@ =~= digits(whole as nat));
    }
    text
}

/// Writes an amount of the mined token, given in its smallest unit.
pub fn token_amount_text(amount: u64) -> (text: String)
    ensures
        text@ == decimal_text(amount as nat, TOKEN_DECIMALS as nat),
{
    amount_text(amount, minted_decimals())
}

/// Writes a balance of the native token, given in lamports.
pub fn sol_amount_text(lamports: u64) -> (text: String)
    ensures
        text@ == decimal_text(lamports as nat, SOL_DECIMALS as nat),
{
    amount_text(lamports, SOL_DECIMALS)
}

proof fn lemma_push_reads(text: Seq<char>, digit: nat)
    requires
        digit < 10,
        all_digits(text),
    ensures
        number_of(text.push(digit_char(digit))) == number_of(text) * 10 + digit,
        all_digits(text.push(digit_char(digit))),
        text.push(digit_char(digit)).last() == digit_char(digit),
        digit_value(digit_char(digit)) == digit,
        is_digit(digit_char(digit)),
        digit_char(digit) == '0' <==> digit == 0,
{
    let longer = text.push(digit_char(digit));
    assert(longer.drop_last() =~= text);
    assert(longer.last() == digit_char(digit));
    assert(number_of(longer) == number_of(longer.drop_last()) * 10 + digit_value(longer.last()));
}

proof fn lemma_digits_read_back(n: nat)
    ensures
        number_of(digits(n)) == n,
        all_digits(digits(n)),
        digits(n).len() >= 1,
        n >= 1 ==> digits(n)[0] != '0',
        digits(n).len() > 1 ==> n >= 10,
    decreases n,
{
    if n < 10 {
        lemma_push_reads(Seq::empty(), n);
        assert(Seq::<char>::empty().push(digit_char(n)) =~= seq![digit_char(n)]);
        assert(number_of(Seq::<char>::empty()) == 0);
    } else {
        lemma_digits_read_back(n / 10);
        lemma_push_reads(digits(n / 10), n % 10);
        assert(digits(n) == digits(n / 10).push(digit_char(n % 10)));
        assert(digits(n)[0] == digits(n / 10)[0]);
    }
}

proof fn lemma_padded_reads_back(n: nat, width: nat)
    ensures
        padded(n, width).len() == width,
        number_of(padded(n, width)) == n % pow10(width),
        all_digits(padded(n, width)),
        width > 0 ==> (padded(n, width).last() == '0' <==> n % 10 == 0),
    decreases width,
{
    if width == 0 {
        assert(n % 1 == 0);
    } else {
        let shorter = (width - 1) as nat;
        lemma_padded_reads_back(n / 10, shorter);
        lemma_push_reads(padded(n / 10, shorter), n % 10);
        lemma_pow10_positive(shorter);
        vstd::arithmetic::div_mod::lemma_breakdown(n as int, 10, pow10(shorter) as int);
        assert(padded(n, width) == padded(n / 10, shorter).push(digit_char(n % 10)));
        assert(n % pow10(width) == 10 * ((n / 10) % pow10(shorter)) + n % 10);
    }
}

proof fn lemma_trimmed_reads_back(n: nat, width: nat)
    ensures
        trimmed(n, width).len() <= width,
        number_of(trimmed(n, width)) * pow10((width - trimmed(n, width).len()) as nat) == n
            % pow10(width),
        all_digits(trimmed(n, width)),
        trimmed(n, width).len() > 0 ==> trimmed(n, width).last() != '0',
        trimmed(n, width).len() == 0 <==> n % pow10(width) == 0,
    decreases width,
{
    if width == 0 {
        assert(n % 1 == 0);
    } else if n % 10 == 0 {
        let shorter = (width - 1) as nat;
        let rest = trimmed(n / 10, shorter);
        let kept = rest.len();
        lemma_trimmed_reads_back(n / 10, shorter);
        lemma_pow10_positive(shorter);
        vstd::arithmetic::div_mod::lemma_breakdown(n as int, 10, pow10(shorter) as int);
        assert(trimmed(n, width) == rest);
        assert(n % pow10(width) == 10 * ((n / 10) % pow10(shorter)));
        assert(pow10((width - kept) as nat) == 10 * pow10((shorter - kept) as nat));
        assert(number_of(rest) * (10 * pow10((shorter - kept) as nat)) == 10 * (number_of(rest)
            * pow10((shorter - kept) as nat))) by (nonlinear_arith);
    } else {
        lemma_padded_reads_back(n, width);
        assert(trimmed(n, width) == padded(n, width));
        assert(pow10((width - width) as nat) == 1);
        assert(number_of(padded(n, width)) * 1 == number_of(padded(n, width)));
        lemma_pow10_positive((width - 1) as nat);
        vstd::arithmetic::div_mod::lemma_breakdown(
            n as int,
            10,
            pow10((width - 1) as nat) as int,
        );
        assert(n % pow10(width) == 10 * ((n / 10) % pow10((width - 1) as nat)) + n % 10);
    }
}

/// The text of an amount is exact: it is the digits of the whole tokens and,
/// where the amount is not a whole number of tokens, a point and digits that
/// end in no zero; and read back, with each digit behind the point weighed by
/// its place, the two runs of digits give the amount again, to the smallest
/// unit.
pub proof fn law_text_is_exact(amount: nat, decimals: nat)
    ensures
        ({
            let whole = digits(whole_units(amount, decimals));
            let behind = trimmed(fraction_units(amount, decimals), decimals);
            &&& decimal_text(amount, decimals) == if behind.len() == 0 {
                whole
            } else {
                whole + seq!['.'] + behind
            }
            &&& all_digits(whole) && all_digits(behind)
            &&& whole.len() >= 1
            &&& whole.len() > 1 ==> whole[0] != '0'
            &&& behind.len() <= decimals
            &&& behind.len() > 0 ==> behind.last() != '0'
            &&& number_of(whole) * pow10(decimals) + number_of(behind) * pow10(
                (decimals - behind.len()) as nat,
            ) == amount
        }),
{
    let unit = pow10(decimals);
    let whole = whole_units(amount, decimals);
    let fraction = fraction_units(amount, decimals);
    lemma_pow10_positive(decimals);
    lemma_digits_read_back(whole);
    lemma_trimmed_reads_back(fraction, decimals);
    vstd::arithmetic::div_mod::lemma_fundamental_div_mod(amount as int, unit as int);
    vstd::arithmetic::div_mod::lemma_mod_bound(amount as int, unit as int);
    vstd::arithmetic::div_mod::lemma_small_mod(fraction, unit);
    assert(fraction % unit == fraction);
    assert(amount == unit * whole + fraction);
    assert(whole * unit == unit * whole) by (nonlinear_arith);
}

} // verus!
