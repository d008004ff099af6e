//! Building text out of numbers and fixed phrases.
//!
//! Each function that writes text has a spec function beside it that
//! says which characters it writes.

use vstd::prelude::*;

pub mod laws;

verus! {

/// The character for a digit of a number written in a base up to 16, with
/// upper-case letters.
pub open spec fn digit(d: int) -> char {
    if d < 10 {
        (48 + d) as char
    } else {
        (55 + d) as char
    }
}

/// `n` in decimal, without leading zeros.
pub open spec fn decimal(n: nat) -> Seq<char>
    decreases n,
{
    if n < 10 {
        seq![digit(n as int)]
    } else {
        decimal(n / 10).push(digit((n % 10) as int))
    }
}

/// `n` in decimal, filled up in front to `width` characters.
pub open spec fn padded(fill: char, n: nat, width: nat) -> Seq<char> {
    let digits = decimal(n);
    Seq::new(
        if digits.len() < width {
            (width - digits.len()) as nat
        } else {
            0
        },
        |i: int| fill,
    ) + digits
}

/// Bytes as pairs of hexadecimal digits with spaces in between.
pub open spec fn spaced_hex(bytes: Seq<u8>) -> Seq<char>
    decreases bytes.len(),
{
    if bytes.len() == 0 {
        Seq::empty()
    } else if bytes.len() == 1 {
        hex8(bytes[0])
    } else {
        spaced_hex(bytes.drop_last()) + " "@ + hex8(bytes.last())
    }
}

/// A byte as two hexadecimal digits.
pub open spec fn hex8(n: u8) -> Seq<char> {
    seq![digit(n as int / 16), digit(n as int % 16)]
}

/// A 16-bit word as four hexadecimal digits.
pub open spec fn hex16(n: u16) -> Seq<char> {
    hex8((n / 256) as u8) + hex8((n % 256) as u8)
}

/// The text of a truth value.
pub open spec fn boolean(b: bool) -> Seq<char> {
    if b {
        "true"@
    } else {
        "false"@
    }
}

// ── Order ───────────────────────────────────────────────────────────────

/// Of two texts of the same length, the first comes before the second in the
/// order of strings: where they first differ, its character is the lower one.
pub open spec fn sorts_before(a: Seq<char>, b: Seq<char>) -> bool {
    a.len() == b.len() && exists|k: int|
        0 <= k < a.len() && a[k] < b[k] && #[trigger] a.take(k) == b.take(k)
}

/// `10` multiplied with itself.
pub open spec fn power_of_ten(k: nat) -> nat
    decreases k,
{
    if k == 0 {
        1
    } else {
        10 * power_of_ten((k - 1) as nat)
    }
}

pub proof fn lemma_powers_of_ten()
    ensures
        power_of_ten(2) == 100,
        power_of_ten(4) == 10_000,
        power_of_ten(6) == 1_000_000,
{
    reveal_with_fuel(power_of_ten, 7);
}

/// What is sorted stays sorted when more is appended.
pub proof fn lemma_append_sorts(a: Seq<char>, b: Seq<char>, x: Seq<char>, y: Seq<char>)
    requires
        sorts_before(a, b),
        x.len() == y.len(),
    ensures
        sorts_before(a + x, b + y),
{
    let k = choose|k: int|
        0 <= k < a.len() && a[k] < b[k] && #[trigger] a.take(k) == b.take(k);
    assert((a + x).take(k) =~= a.take(k));
    assert((b + y).take(k) =~= b.take(k));
}

/// What is sorted stays sorted behind the same text.
pub proof fn lemma_prefix_sorts(p: Seq<char>, x: Seq<char>, y: Seq<char>)
    requires
        sorts_before(x, y),
    ensures
        sorts_before(p + x, p + y),
{
    let k = choose|k: int|
        0 <= k < x.len() && x[k] < y[k] && #[trigger] x.take(k) == y.take(k);
    let j = p.len() + k;
    assert((p + x).take(j) =~= p + x.take(k));
    assert((p + y).take(j) =~= p + y.take(k));
}

/// A number with leading zeros is its tenth with leading zeros, and its last digit.
proof fn lemma_padded_digit(n: nat, width: nat)
    requires
        width >= 2,
    ensures
        padded('0', n, width) == padded('0', n / 10, (width - 1) as nat).push(
            digit((n % 10) as int),
        ),
{
    assert(padded('0', n, width) =~= padded('0', n / 10, (width - 1) as nat).push(
        digit((n % 10) as int),
    )) by {
        assert(digit(0) == '0');
    }
}

/// A number that fits is as wide as it is padded to.
pub proof fn lemma_padded_width(n: nat, width: nat)
    requires
        width >= 1,
        n < power_of_ten(width),
    ensures
        padded('0', n, width).len() == width,
    decreases width,
{
    if width >= 2 {
        lemma_padded_digit(n, width);
        lemma_padded_width(n / 10, (width - 1) as nat);
    } else {
        reveal_with_fuel(power_of_ten, 2);
    }
}

/// Numbers of the same width sort as texts as they do as numbers.
pub proof fn lemma_padded_sorts(x: nat, y: nat, width: nat)
    requires
        width >= 1,
        x < y < power_of_ten(width),
    ensures
        sorts_before(padded('0', x, width), padded('0', y, width)),
    decreases width,
{
    let a = padded('0', x, width);
    let b = padded('0', y, width);
    lemma_padded_width(x, width);
    lemma_padded_width(y, width);
    if width >= 2 {
        let short = (width - 1) as nat;
        let p = padded('0', x / 10, short);
        let q = padded('0', y / 10, short);
        let dx = seq![digit((x % 10) as int)];
        let dy = seq![digit((y % 10) as int)];
        lemma_padded_digit(x, width);
        lemma_padded_digit(y, width);
        assert(a =~= p + dx);
        assert(b =~= q + dy);
        if x / 10 < y / 10 {
            lemma_padded_sorts(x / 10, y / 10, short);
            lemma_append_sorts(p, q, dx, dy);
        } else {
            assert(dx[0] < dy[0]);
            assert(dx.take(0) =~= dy.take(0));
            lemma_prefix_sorts(p, dx, dy);
        }
    } else {
        reveal_with_fuel(power_of_ten, 2);
        assert(a =~= seq![digit(x as int)]);
        assert(b =~= seq![digit(y as int)]);
        assert(a[0] < b[0]);
        assert(a.take(0) =~= b.take(0));
    }
}

// ── Writing ─────────────────────────────────────────────────────────────

/// The one-character text of a digit.
fn digit_text(d: u8) -> (s: &'static str)
    requires
        d < 16,
    ensures
        s@ == seq![digit(d as int)],
{
    proof {
        reveal_strlit("0");
        reveal_strlit("1");
        reveal_strlit("2");
        reveal_strlit("3");
        reveal_strlit("4");
        reveal_strlit("5");
        reveal_strlit("6");
        reveal_strlit("7");
        reveal_strlit("8");
        reveal_strlit("9");
        reveal_strlit("A");
        reveal_strlit("B");
        reveal_strlit("C");
        reveal_strlit("D");
        reveal_strlit("E");
        reveal_strlit("F");
    }
    match d {
        0 => "0",
        1 => "1",
        2 => "2",
        3 => "3",
        4 => "4",
        5 => "5",
        6 => "6",
        7 => "7",
        8 => "8",
        9 => "9",
        10 => "A",
        11 => "B",
        12 => "C",
        13 => "D",
        14 => "E",
        _ => "F",
    }
}

/// Append `n` in decimal.
pub fn push_decimal(out: &mut String, n: u128)
    ensures
        final(out)@ == old(out)@ + decimal(n as nat),
    decreases n,
{
    if n >= 10 {
        push_decimal(out, n / 10);
    }
    out.append(digit_text((n % 10) as u8));
    assert(out@ =~= old(out)@ + decimal(n as nat));
}

/// How many decimal digits a number has.
fn decimal_len(n: u128) -> (r: u128)
    ensures
        r == decimal(n as nat).len(),
{
    let mut left: u128 = n;
    let mut count: u128 = 1;
    while left >= 10
        invariant
            decimal(n as nat).len() == count - 1 + decimal(left as nat).len(),
            count + left <= n + 1,
        decreases left,
    {
        left = left / 10;
        count = count + 1;
    }
    count
}

/// Append `n` in decimal, filled up in front to `width` characters.
pub fn push_padded(out: &mut String, fill: &str, n: u128, width: u128)
    requires
        fill@.len() == 1,
    ensures
        final(out)@ == old(out)@ + padded(fill@[0], n as nat, width as nat),
{
    let ghost start = out@;
    let ghost c = fill@[0];
    let len: u128 = decimal_len(n);
    let missing: u128 = if len < width {
        width - len
    } else {
        0
    };
    let mut i: u128 = 0;
    while i < missing
        invariant
            i <= missing,
            fill@ == seq![c],
            out@ == start + Seq::new(i as nat, |k: int| c),
        decreases missing - i,
    {
        out.append(fill);
        i = i + 1;
        assert(out@ =~= start + Seq::new(i as nat, |k: int| c));
    }
    push_decimal(out, n);
    assert(out@ =~= start + padded(c, n as nat, width as nat));
}

/// Append bytes as pairs of hexadecimal digits with spaces in between.
pub fn push_spaced_hex(out: &mut String, bytes: &[u8])
    ensures
        final(out)@ == old(out)@ + spaced_hex(bytes@),
{
    let ghost start = out@;
    let mut i: usize = 0;
    while i < bytes.len()
        invariant
            i <= bytes@.len(),
            out@ == start + spaced_hex(bytes@.take(i as int)),
        decreases bytes@.len() - i,
    {
        if i > 0 {
            out.append(" ");
        }
        push_hex8(out, bytes[i]);
        assert(bytes@.take(i + 1).drop_last() =~= bytes@.take(i as int));
        assert(out@ =~= start + spaced_hex(bytes@.take(i + 1)));
        i = i + 1;
    }
    assert(bytes@.take(i as int) =~= bytes@);
}

/// Append a byte as two hexadecimal digits.
pub fn push_hex8(out: &mut String, n: u8)
    ensures
        final(out)@ == old(out)@ + hex8(n),
{
    out.append(digit_text(n / 16));
    out.append(digit_text(n % 16));
    assert(out@ =~= old(out)@ + hex8(n));
}

/// Append a 16-bit word as four hexadecimal digits.
pub fn push_hex16(out: &mut String, n: u16)
    ensures
        final(out)@ == old(out)@ + hex16(n),
{
    push_hex8(out, (n / 256) as u8);
    push_hex8(out, (n % 256) as u8);
    assert(out@ =~= old(out)@ + hex16(n));
}

/// Append the text of a truth value.
pub fn push_boolean(out: &mut String, b: bool)
    ensures
        final(out)@ == old(out)@ + boolean(b),
{
    if b {
        out.append("true");
    } else {
        out.append("false");
    }
}

} // verus!
