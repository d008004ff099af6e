//! What the texts for numbers, bytes and switches are.

use vstd::prelude::*;

verus! {

/// The decimal text of a number has no character but digits, does not start with a
/// zero unless it is a single digit, and its digits, read from the left, give the
/// number.
pub proof fn law_decimal(n: nat)
    ensures
        super::decimal(n).len() >= 1,
        forall|i: int| 0 <= i < super::decimal(n).len() ==> '0' <= #[trigger] super::decimal(n)[i] <= '9',
        super::decimal(n).len() > 1 ==> super::decimal(n)[0] != '0',
        super::decimal(n).fold_left(0int, |v: int, c: char| 10 * v + (c as int - 48)) == n,
    decreases n,
{
    let f = |v: int, c: char| 10 * v + (c as int - 48);
    reveal_with_fuel(Seq::fold_left, 2);
    if n < 10 {
        let s = super::decimal(n);
        assert(s.drop_last() =~= Seq::empty());
        assert(s.last() as int == 48 + n);
    } else {
        law_decimal(n / 10);
        let s = super::decimal(n / 10);
        let c = super::digit((n % 10) as int);
        assert(s.push(c).drop_last() =~= s);
        assert(s.push(c).last() == c);
        assert(c as int == 48 + n % 10);
        assert(super::decimal(n) == s.push(c));
        if n < 100 {
            assert(n / 10 < 10);
            assert(s[0] as int == 48 + n / 10);
        } else {
            assert(s.len() > 1) by {
                assert(n / 10 >= 10);
                law_decimal(n / 10 / 10);
            }
        }
    }
}

/// A padded number is its decimal text behind as many fill characters as are missing
/// to the width.
pub proof fn law_padded(fill: char, n: nat, width: nat)
    ensures
        ({
            let p = super::padded(fill, n, width);
            let s = super::decimal(n);
            &&& s.len() >= width ==> p == s
            &&& s.len() < width ==> {
                &&& p.len() == width
                &&& p.skip(width - s.len()) == s
                &&& forall|i: int| 0 <= i < width - s.len() ==> #[trigger] p[i] == fill
            }
        }),
{
    let p = super::padded(fill, n, width);
    let s = super::decimal(n);
    if s.len() < width {
        assert(p.skip(width - s.len()) =~= s);
    } else {
        assert(p =~= s);
    }
}

/// A byte is two hexadecimal digits and a word four, the highest first.
pub proof fn law_hex_digits(b: u8, w: u16)
    ensures
        super::hex8(b).len() == 2,
        super::hex8(b)[0] == "0123456789ABCDEF"@[b as int / 16],
        super::hex8(b)[1] == "0123456789ABCDEF"@[b as int % 16],
        super::hex16(w).len() == 4,
        super::hex16(w)[0] == "0123456789ABCDEF"@[w as int / 4096],
        super::hex16(w)[1] == "0123456789ABCDEF"@[w as int / 256 % 16],
        super::hex16(w)[2] == "0123456789ABCDEF"@[w as int / 16 % 16],
        super::hex16(w)[3] == "0123456789ABCDEF"@[w as int % 16],
{
    let high: int = w as int / 256;
    let low: int = w as int % 256;
    assert(high / 16 == w as int / 4096);
    assert(low / 16 == w as int / 16 % 16);
    assert(low % 16 == w as int % 16);
    lemma_digit(b as int / 16);
    lemma_digit(b as int % 16);
    lemma_digit(high / 16);
    lemma_digit(high % 16);
    lemma_digit(low / 16);
    lemma_digit(low % 16);
}

/// The character for a hexadecimal digit.
proof fn lemma_digit(d: int)
    requires
        0 <= d < 16,
    ensures
        super::digit(d) == "0123456789ABCDEF"@[d],
{
    reveal_strlit("0123456789ABCDEF");
}

/// Bytes are told as pairs of hexadecimal digits with one space between two bytes.
pub proof fn law_spaced_hex(bytes: Seq<u8>, b: u8)
    ensures
        super::spaced_hex(Seq::empty()) == Seq::<char>::empty(),
        bytes.len() == 0 ==> super::spaced_hex(bytes.push(b)) == super::hex8(b),
        bytes.len() > 0 ==> super::spaced_hex(bytes.push(b)) == super::spaced_hex(bytes).push(' ')
            + super::hex8(b),
        bytes.len() > 0 ==> super::spaced_hex(bytes).len() == 3 * bytes.len() - 1,
    decreases bytes.len(),
{
    reveal_strlit(" ");
    assert(bytes.push(b).drop_last() =~= bytes);
    assert(" "@ =~= seq![' ']);
    assert(super::spaced_hex(bytes) + " "@ =~= super::spaced_hex(bytes).push(' '));
    if bytes.len() > 0 {
        law_spaced_hex(bytes.drop_last(), bytes.last());
        assert(bytes.drop_last().push(bytes.last()) =~= bytes);
    }
}

/// A switch is told by the word for its state.
pub proof fn law_boolean(b: bool)
    ensures
        super::boolean(true) == "true"@,
        super::boolean(false) == "false"@,
{
}

} // verus!
