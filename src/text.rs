//! Rendering of integers and booleans as text, and joining of string lists.

use vstd::prelude::*;

verus! {

/// The character that stands for the decimal digit `d` (taken modulo ten).
pub open spec fn digit_char(d: nat) -> char {
    let d = d % 10;
    if d == 0 {
        '0'
    } else if d == 1 {
        '1'
    } else if d == 2 {
        '2'
    } else if d == 3 {
        '3'
    } else if d == 4 {
        '4'
    } else if d == 5 {
        '5'
    } else if d == 6 {
        '6'
    } else if d == 7 {
        '7'
    } else if d == 8 {
        '8'
    } else {
        '9'
    }
}

/// The decimal digits of `n`, most significant first, without leading zeros.
pub open spec fn nat_decimal(n: nat) -> Seq<char>
    decreases n,
{
    if n < 10 {
        seq![digit_char(n)]
    } else {
        nat_decimal(n / 10).push(digit_char(n % 10))
    }
}

/// The decimal text of `i`: a `-` before the digits of a negative number.
pub open spec fn int_decimal(i: int) -> Seq<char> {
    if i < 0 {
        seq!['-'] + nat_decimal((-i) as nat)
    } else {
        nat_decimal(i as nat)
    }
}

/// The text of a boolean: `true` or `false`.
pub open spec fn bool_text(b: bool) -> Seq<char> {
    if b {
        seq!['t', 'r', 'u', 'e']
    } else {
        seq!['f', 'a', 'l', 's', 'e']
    }
}

/// The parts joined into one text, with `sep` between each two of them.
pub open spec fn join(parts: Seq<Seq<char>>, sep: Seq<char>) -> Seq<char>
    decreases parts.len(),
{
    if parts.len() == 0 {
        Seq::empty()
    } else if parts.len() == 1 {
        parts[0]
    } else {
        join(parts.drop_last(), sep) + sep + parts.last()
    }
}

/// The views of a list of strings.
pub open spec fn views(items: Seq<String>) -> Seq<Seq<char>> {
    items.map_values(|s: String| s@)
}

/// The view of an optional string.
pub open spec fn opt_text(o: Option<String>) -> Option<Seq<char>> {
    match o {
        Some(s) => Some(s@),
        None => None,
    }
}

/// A copy of a list of strings.
pub fn copy_texts(items: &Vec<String>) -> (r: Vec<String>)
    ensures
        views(r@) == views(items@),
{
    let mut r: Vec<String> = Vec::new();
    let mut i: usize = 0;
    while i < items.len()
        invariant
            i <= items.len(),
            r@.len() == i,
            forall|j: int| 0 <= j < i ==> r@[j]@ == items@[j]@,
        decreases items.len() - i,
    {
        r.push(items[i].clone());
        i = i + 1;
    }
    assert(views(r@) =~= views(items@));
    r
}

/// A copy of an optional string.
pub fn copy_opt_text(o: &Option<String>) -> (r: Option<String>)
    ensures
        opt_text(r) == opt_text(*o),
{
    match o {
        Some(s) => Some(s.clone()),
        None => None,
    }
}

/// Whether two texts hold the same characters.
pub fn text_eq(a: &str, b: &str) -> (r: bool)
    ensures
        r == (a@ == b@),
{
    a.to_owned() == b.to_owned()
}

fn digit_str(d: u64) -> (r: &'static str)
    requires
        d < 10,
    ensures
        r@ == seq![digit_char(d as nat)],
{
    if d == 0 {
        proof { reveal_strlit("0"); }
        "0"
    } else if d == 1 {
        proof { reveal_strlit("1"); }
        "1"
    } else if d == 2 {
        proof { reveal_strlit("2"); }
        "2"
    } else if d == 3 {
        proof { reveal_strlit("3"); }
        "3"
    } else if d == 4 {
        proof { reveal_strlit("4"); }
        "4"
    } else if d == 5 {
        proof { reveal_strlit("5"); }
        "5"
    } else if d == 6 {
        proof { reveal_strlit("6"); }
        "6"
    } else if d == 7 {
        proof { reveal_strlit("7"); }
        "7"
    } else if d == 8 {
        proof { reveal_strlit("8"); }
        "8"
    } else {
        proof { reveal_strlit("9"); }
        "9"
    }
}

/// Appends the decimal digits of `n` to `out`.
pub fn push_nat(out: &mut String, n: u64)
    ensures
        final(out)@ == old(out)@ + nat_decimal(n as nat),
    decreases n,
{
    if n >= 10 {
        push_nat(out, n / 10);
    }
    out.append(digit_str(n % 10));
    assert(out@ =~= old(out)@ + nat_decimal(n as nat));
}

/// Appends the decimal text of `i` to `out`.
pub fn push_int(out: &mut String, i: i64)
    ensures
        final(out)@ == old(out)@ + int_decimal(i as int),
{
    if i < 0 {
        proof { reveal_strlit("-"); }
        out.append("-");
        let magnitude: u64 = (0i128 - i as i128) as u64;
        push_nat(out, magnitude);
        assert(out@ =~= old(out)@ + int_decimal(i as int));
    } else {
        push_nat(out, i as u64);
    }
}

/// Appends `true` or `false` to `out`.
pub fn push_bool(out: &mut String, b: bool)
    ensures
        final(out)@ == old(out)@ + bool_text(b),
{
    if b {
        proof { reveal_strlit("true"); }
        out.append("true");
    } else {
        proof { reveal_strlit("false"); }
        out.append("false");
    }
}

proof fn lemma_join_step(parts: Seq<Seq<char>>, sep: Seq<char>, i: int)
    requires
        0 <= i < parts.len(),
    ensures
        join(parts.take(i + 1), sep) == if i == 0 {
            parts[0]
        } else {
            join(parts.take(i), sep) + sep + parts[i]
        },
{
    assert(parts.take(i + 1).drop_last() =~= parts.take(i));
}

/// Appends the strings of `items` to `out`, with `sep` between each two of them.
pub fn push_joined(out: &mut String, items: &Vec<String>, sep: &str)
    ensures
        final(out)@ == old(out)@ + join(views(items@), sep@),
{
    let ghost parts = views(items@);
    let mut i: usize = 0;
    while i < items.len()
        invariant
            i <= items.len(),
            parts == views(items@),
            out@ == old(out)@ + join(parts.take(i as int), sep@),
        decreases items.len() - i,
    {
        proof { lemma_join_step(parts, sep@, i as int); }
        if i > 0 {
            out.append(sep);
        }
        out.append(items[i].as_str());
        assert(out@ =~= old(out)@ + join(parts.take(i + 1), sep@));
        i = i + 1;
    }
    assert(parts.take(i as int) =~= parts);
}
/// Ten to the power `k`.
pub open spec fn pow10(k: nat) -> nat
    decreases k,
{
    if k == 0 {
        1
    } else {
        10 * pow10((k - 1) as nat)
    }
}

/// The last `width` decimal digits of `n`, with leading zeros.
pub open spec fn padded_digits(n: nat, width: nat) -> Seq<char>
    decreases width,
{
    if width == 0 {
        Seq::empty()
    } else {
        padded_digits(n / 10, (width - 1) as nat).push(digit_char(n % 10))
    }
}

/// `s` without its trailing `0` characters.
pub open spec fn strip_trailing_zeros(s: Seq<char>) -> Seq<char>
    decreases s.len(),
{
    if s.len() > 0 && s.last() == '0' {
        strip_trailing_zeros(s.drop_last())
    } else {
        s
    }
}

/// The text of the number `m / 1_000_000`: a `-` for a negative number, the whole
/// part in decimal, then, unless the number is whole, a `.` and the digits of the
/// fraction without trailing zeros.
pub open spec fn millionths_text(m: int) -> Seq<char> {
    let a: nat = if m < 0 {
        (-m) as nat
    } else {
        m as nat
    };
    let sign = if m < 0 {
        seq!['-']
    } else {
        Seq::empty()
    };
    let whole = nat_decimal(a / 1_000_000);
    let frac = a % 1_000_000;
    if frac == 0 {
        sign + whole
    } else {
        sign + whole + seq!['.'] + strip_trailing_zeros(padded_digits(frac, 6))
    }
}

fn push_padded(out: &mut String, n: u64, width: u64)
    ensures
        final(out)@ == old(out)@ + padded_digits(n as nat, width as nat),
    decreases width,
{
    if width > 0 {
        push_padded(out, n / 10, width - 1);
        out.append(digit_str(n % 10));
        assert(out@ =~= old(out)@ + padded_digits(n as nat, width as nat));
    } else {
        assert(out@ =~= old(out)@ + padded_digits(n as nat, width as nat));
    }
}

proof fn lemma_strip_step(n: nat, width: nat)
    requires
        width > 0,
    ensures
        n % 10 == 0 ==> strip_trailing_zeros(padded_digits(n, width)) == strip_trailing_zeros(
            padded_digits(n / 10, (width - 1) as nat),
        ),
        n % 10 != 0 ==> strip_trailing_zeros(padded_digits(n, width)) == padded_digits(n, width),
{
    let s = padded_digits(n, width);
    assert(s.drop_last() =~= padded_digits(n / 10, (width - 1) as nat));
}

proof fn lemma_pow10_step(k: nat)
    ensures
        pow10(k + 1) == 10 * pow10(k),
        pow10(k) > 0,
    decreases k,
{
    if k > 0 {
        lemma_pow10_step((k - 1) as nat);
    }
}

/// Appends the digits of a fraction `frac / 1_000_000`, without trailing zeros.
fn push_fraction(out: &mut String, frac: u64)
    requires
        0 < frac < 1_000_000,
    ensures
        final(out)@ == old(out)@ + strip_trailing_zeros(padded_digits(frac as nat, 6)),
{
    let mut n: u64 = frac;
    let mut width: u64 = 6;
    proof {
        reveal_with_fuel(pow10, 7);
    }
    while n % 10 == 0
        invariant
            0 < n < pow10(width as nat),
            width <= 6,
            strip_trailing_zeros(padded_digits(n as nat, width as nat)) == strip_trailing_zeros(
                padded_digits(frac as nat, 6),
            ),
        decreases width,
    {
        if width == 0 {
            assert(false);
        }
        proof {
            lemma_strip_step(n as nat, width as nat);
            lemma_pow10_step((width - 1) as nat);
        }
        n = n / 10;
        width = width - 1;
    }
    proof {
        if width == 0 {
            assert(false);
        }
        lemma_strip_step(n as nat, width as nat);
    }
    push_padded(out, n, width);
}

/// Appends the text of the number `m / 1_000_000`.
pub fn push_millionths(out: &mut String, m: i64)
    ensures
        final(out)@ == old(out)@ + millionths_text(m as int),
{
    if m < 0 {
        proof { reveal_strlit("-"); }
        out.append("-");
    }
    let magnitude: u64 = if m < 0 {
        (0i128 - m as i128) as u64
    } else {
        m as u64
    };
    push_nat(out, magnitude / 1_000_000);
    let frac = magnitude % 1_000_000;
    if frac != 0 {
        proof { reveal_strlit("."); }
        out.append(".");
        push_fraction(out, frac);
    }
    assert(out@ =~= old(out)@ + millionths_text(m as int));
}
} // verus!
