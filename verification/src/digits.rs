//! Rendering of numbers as fixed-width hexadecimal and zero-padded decimal
//! text, with specification functions that pin each rendered character.

use vstd::prelude::*;
use vstd::string::StringExecFns;

verus! {

/// The hexadecimal digit character (upper case) for a value below sixteen.
pub open spec fn hex_digit(n: int) -> char
    recommends
        0 <= n < 16,
{
    if n == 0 {
        '0'
    } else if n == 1 {
        '1'
    } else if n == 2 {
        '2'
    } else if n == 3 {
        '3'
    } else if n == 4 {
        '4'
    } else if n == 5 {
        '5'
    } else if n == 6 {
        '6'
    } else if n == 7 {
        '7'
    } else if n == 8 {
        '8'
    } else if n == 9 {
        '9'
    } else if n == 10 {
        'A'
    } else if n == 11 {
        'B'
    } else if n == 12 {
        'C'
    } else if n == 13 {
        'D'
    } else if n == 14 {
        'E'
    } else {
        'F'
    }
}

/// A byte as exactly two hexadecimal digits.
pub open spec fn hex2(v: int) -> Seq<char>
    recommends
        0 <= v < 256,
{
    seq![hex_digit(v / 16), hex_digit(v % 16)]
}

/// A 16-bit value as exactly four hexadecimal digits.
pub open spec fn hex4(v: int) -> Seq<char>
    recommends
        0 <= v < 0x10000,
{
    hex2(v / 256) + hex2(v % 256)
}

/// A value as hexadecimal digits without leading zeroes.
pub open spec fn hex_digits(n: nat) -> Seq<char>
    decreases n,
{
    if n < 16 {
        seq![hex_digit(n as int)]
    } else {
        hex_digits(n / 16).push(hex_digit((n % 16) as int))
    }
}

/// A value as hexadecimal digits, zero-padded to a width of at least four.
pub open spec fn hex_min4(n: nat) -> Seq<char> {
    if n < 0x10000 {
        hex4(n as int)
    } else {
        hex_digits(n)
    }
}

/// The decimal digit character for a value below ten.
pub open spec fn dec_digit(n: int) -> char
    recommends
        0 <= n < 10,
{
    hex_digit(n)
}

/// A value as decimal digits without leading zeroes.
pub open spec fn dec_digits(n: nat) -> Seq<char>
    decreases n,
{
    if n < 10 {
        seq![dec_digit(n as int)]
    } else {
        dec_digits(n / 10).push(dec_digit((n % 10) as int))
    }
}

/// The run of zeroes that left-pads the decimal digits of `n` to width eight.
pub open spec fn pad8_zeroes(n: nat) -> Seq<char> {
    if n < 10 {
        seq!['0', '0', '0', '0', '0', '0', '0']
    } else if n < 100 {
        seq!['0', '0', '0', '0', '0', '0']
    } else if n < 1000 {
        seq!['0', '0', '0', '0', '0']
    } else if n < 10000 {
        seq!['0', '0', '0', '0']
    } else if n < 100000 {
        seq!['0', '0', '0']
    } else if n < 1000000 {
        seq!['0', '0']
    } else if n < 10000000 {
        seq!['0']
    } else {
        Seq::empty()
    }
}

/// A value as decimal digits, zero-padded to a width of at least eight.
pub open spec fn dec_pad8(n: nat) -> Seq<char> {
    pad8_zeroes(n) + dec_digits(n)
}

/// The single hexadecimal digit for a value below sixteen, as text.
fn hex_digit_str(n: u8) -> (r: &'static str)
    requires
        n < 16,
    ensures
        r@ =~= seq![hex_digit(n as int)],
{
    match n {
        0 => {
            proof {
                reveal_strlit("0");
            }
            "0"
        },
        1 => {
            proof {
                reveal_strlit("1");
            }
            "1"
        },
        2 => {
            proof {
                reveal_strlit("2");
            }
            "2"
        },
        3 => {
            proof {
                reveal_strlit("3");
            }
            "3"
        },
        4 => {
            proof {
                reveal_strlit("4");
            }
            "4"
        },
        5 => {
            proof {
                reveal_strlit("5");
            }
            "5"
        },
        6 => {
            proof {
                reveal_strlit("6");
            }
            "6"
        },
        7 => {
            proof {
                reveal_strlit("7");
            }
            "7"
        },
        8 => {
            proof {
                reveal_strlit("8");
            }
            "8"
        },
        9 => {
            proof {
                reveal_strlit("9");
            }
            "9"
        },
        10 => {
            proof {
                reveal_strlit("A");
            }
            "A"
        },
        11 => {
            proof {
                reveal_strlit("B");
            }
            "B"
        },
        12 => {
            proof {
                reveal_strlit("C");
            }
            "C"
        },
        13 => {
            proof {
                reveal_strlit("D");
            }
            "D"
        },
        14 => {
            proof {
                reveal_strlit("E");
            }
            "E"
        },
        _ => {
            proof {
                reveal_strlit("F");
            }
            "F"
        },
    }
}

/// Appends the two hexadecimal digits of a byte.
pub fn push_hex2(s: &mut String, v: u8)
    ensures
        final(s)@ == old(s)@ + hex2(v as int),
{
    s.append(hex_digit_str(v / 16));
    s.append(hex_digit_str(v % 16));
    proof {
        assert(final(s)@ =~= old(s)@ + hex2(v as int));
    }
}

/// Appends the four hexadecimal digits of a 16-bit value.
pub fn push_hex4(s: &mut String, v: u16)
    ensures
        final(s)@ == old(s)@ + hex4(v as int),
{
    push_hex2(s, (v / 256) as u8);
    push_hex2(s, (v % 256) as u8);
    proof {
        assert(final(s)@ =~= old(s)@ + hex4(v as int));
    }
}

/// Appends the hexadecimal digits of a value, without leading zeroes.
pub fn push_hex_digits(s: &mut String, v: u32)
    ensures
        final(s)@ == old(s)@ + hex_digits(v as nat),
    decreases v,
{
    if v < 16 {
        s.append(hex_digit_str(v as u8));
        proof {
            assert(final(s)@ =~= old(s)@ + hex_digits(v as nat));
        }
    } else {
        push_hex_digits(s, v / 16);
        s.append(hex_digit_str((v % 16) as u8));
        proof {
            assert(final(s)@ =~= old(s)@ + hex_digits(v as nat));
        }
    }
}

/// Appends the hexadecimal digits of a value, zero-padded to at least four.
pub fn push_hex_min4(s: &mut String, v: u32)
    ensures
        final(s)@ == old(s)@ + hex_min4(v as nat),
{
    if v < 0x10000 {
        push_hex4(s, v as u16);
    } else {
        push_hex_digits(s, v);
    }
}

/// Appends the decimal digits of a value, without leading zeroes.
pub fn push_dec_digits(s: &mut String, v: u32)
    ensures
        final(s)@ == old(s)@ + dec_digits(v as nat),
    decreases v,
{
    if v < 10 {
        s.append(hex_digit_str(v as u8));
        proof {
            assert(final(s)@ =~= old(s)@ + dec_digits(v as nat));
        }
    } else {
        push_dec_digits(s, v / 10);
        s.append(hex_digit_str((v % 10) as u8));
        proof {
            assert(final(s)@ =~= old(s)@ + dec_digits(v as nat));
        }
    }
}

/// Appends the decimal digits of a value, zero-padded to a width of at
/// least eight.
pub fn push_dec_pad8(s: &mut String, v: u32)
    ensures
        final(s)@ == old(s)@ + dec_pad8(v as nat),
{
    let ghost s0 = s@;
    if v < 10 {
        s.append("0000000");
        proof {
            reveal_strlit("0000000");
            assert(s@ =~= s0 + pad8_zeroes(v as nat));
        }
    } else if v < 100 {
        s.append("000000");
        proof {
            reveal_strlit("000000");
            assert(s@ =~= s0 + pad8_zeroes(v as nat));
        }
    } else if v < 1000 {
        s.append("00000");
        proof {
            reveal_strlit("00000");
            assert(s@ =~= s0 + pad8_zeroes(v as nat));
        }
    } else if v < 10000 {
        s.append("0000");
        proof {
            reveal_strlit("0000");
            assert(s@ =~= s0 + pad8_zeroes(v as nat));
        }
    } else if v < 100000 {
        s.append("000");
        proof {
            reveal_strlit("000");
            assert(s@ =~= s0 + pad8_zeroes(v as nat));
        }
    } else if v < 1000000 {
        s.append("00");
        proof {
            reveal_strlit("00");
            assert(s@ =~= s0 + pad8_zeroes(v as nat));
        }
    } else if v < 10000000 {
        s.append("0");
        proof {
            reveal_strlit("0");
            assert(s@ =~= s0 + pad8_zeroes(v as nat));
        }
    } else {
        proof {
            assert(s@ =~= s0 + pad8_zeroes(v as nat));
        }
    }
    push_dec_digits(s, v);
    proof {
        assert(final(s)@ =~= old(s)@ + dec_pad8(v as nat));
    }
}

} // verus!
