//! Numbers in words: the hexadecimal text of error messages.

use vstd::prelude::*;
use vstd::string::StringExecFns;

verus! {

/// The character of a hexadecimal digit.
pub open spec fn digit(d: nat) -> char
    recommends
        d < 16,
{
    seq![
        '0', '1', '2', '3', '4', '5', '6', '7', '8', '9', 'a', 'b', 'c', 'd', 'e', 'f',
    ][d as int]
}

/// A number in lower-case hexadecimal, without leading zeros.
pub open spec fn hex(n: nat) -> Seq<char>
    decreases n,
{
    if n < 16 {
        seq![digit(n)]
    } else {
        hex(n / 16).push(digit(n % 16))
    }
}

/// The lowest `width` hexadecimal digits of a number.
pub open spec fn hex_digits(n: nat, width: nat) -> Seq<char>
    decreases width,
{
    if width == 0 {
        Seq::empty()
    } else {
        hex_digits(n / 16, (width - 1) as nat).push(digit(n % 16))
    }
}

/// The last character of a number in hexadecimal is the digit of its remainder
/// by sixteen, `0` to `9` and then `a` to `f`; what comes before is the number
/// divided by sixteen, and nothing where that is zero.
pub proof fn hex_is_positional(n: nat)
    ensures
        hex(n).len() > 0,
        n % 16 < 10 ==> hex(n).last() as nat == 48 + n % 16,
        n % 16 >= 10 ==> hex(n).last() as nat == 97 + (n % 16 - 10),
        n < 16 ==> hex(n).drop_last() == Seq::<char>::empty(),
        n >= 16 ==> hex(n).drop_last() == hex(n / 16),
{
    if n >= 16 {
        assert(hex(n).drop_last() =~= hex(n / 16));
    }
}

/// Digits of a fixed number are as many as asked for, and each is that of the
/// number's remainder by sixteen after as many divisions by sixteen as it has
/// digits to its right.
pub proof fn hex_digits_are_positional(n: nat, width: nat)
    ensures
        hex_digits(n, width).len() == width,
        width > 0 && n % 16 < 10 ==> hex_digits(n, width).last() as nat == 48 + n % 16,
        width > 0 && n % 16 >= 10 ==> hex_digits(n, width).last() as nat == 97 + (n % 16 - 10),
        width > 0 ==> hex_digits(n, width).drop_last() == hex_digits(n / 16, (width - 1) as nat),
    decreases width,
{
    if width > 0 {
        hex_digits_are_positional(n / 16, (width - 1) as nat);
        assert(hex_digits(n, width).drop_last() =~= hex_digits(n / 16, (width - 1) as nat));
    }
}

/// Appends a hexadecimal digit.
fn push_digit(text: &mut String, d: u64)
    requires
        d < 16,
    ensures
        final(text)@ == old(text)@.push(digit(d as nat)),
{
    proof {
        reveal_strlit("0");
        reveal_strlit("1");
        reveal_strlit("2");
        reveal_strlit("3");
        reveal_strlit("4");
        reveal_strlit("5");
        reveal_strlit("6");
        reveal_strlit("7");
        reveal_strlit("8");
        reveal_strlit("9");
        reveal_strlit("a");
        reveal_strlit("b");
        reveal_strlit("c");
        reveal_strlit("d");
        reveal_strlit("e");
        reveal_strlit("f");
    }
    let s = match d {
        0 => "0",
        1 => "1",
        2 => "2",
        3 => "3",
        4 => "4",
        5 => "5",
        6 => "6",
        7 => "7",
        8 => "8",
        9 => "9",
        10 => "a",
        11 => "b",
        12 => "c",
        13 => "d",
        14 => "e",
        _ => "f",
    };
    assert(s@ =~= seq![digit(d as nat)]);
    text.append(s);
    assert(text@ =~= old(text)@.push(digit(d as nat)));
}

/// Appends a number in lower-case hexadecimal, without leading zeros.
pub(crate) fn push_hex(text: &mut String, n: u64)
    ensures
        final(text)@ == old(text)@ + hex(n as nat),
    decreases n,
{
    if n < 16 {
        push_digit(text, n);
    } else {
        push_hex(text, n / 16);
        push_digit(text, n % 16);
    }
    assert(text@ =~= old(text)@ + hex(n as nat));
}

/// Appends the lowest `width` hexadecimal digits of a number.
pub(crate) fn push_hex_digits(text: &mut String, n: u64, width: usize)
    ensures
        final(text)@ == old(text)@ + hex_digits(n as nat, width as nat),
    decreases width,
{
    if width > 0 {
        push_hex_digits(text, n / 16, width - 1);
        push_digit(text, n % 16);
    }
    assert(text@ =~= old(text)@ + hex_digits(n as nat, width as nat));
}

} // verus!
