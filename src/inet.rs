use vstd::prelude::*;

use vstd::string::StringExecFns;

verus! {

/// A big-endian 16-bit field at `i`.
pub open spec fn be16(d: Seq<u8>, i: int) -> int {
    d[i] * 256 + d[i + 1]
}

/// A big-endian 32-bit field at `i`.
pub open spec fn be32(d: Seq<u8>, i: int) -> int {
    be16(d, i) * 65536 + be16(d, i + 2)
}

/// Reads a big-endian 16-bit field.
pub fn read_be16(d: &[u8], i: usize) -> (r: u16)
    requires
        i + 2 <= d@.len(),
    ensures
        r == be16(d@, i as int),
{
    (d[i] as u16) * 256 + (d[i + 1] as u16)
}

/// Reads a big-endian 32-bit field.
pub fn read_be32(d: &[u8], i: usize) -> (r: u32)
    requires
        i + 4 <= d@.len(),
    ensures
        r == be32(d@, i as int),
{
    let _len = d.len();
    let hi = read_be16(d, i);
    let lo = read_be16(d, i + 2);
    (hi as u32) * 65536 + (lo as u32)
}

/// The lower-case hexadecimal digit for `d` (0 to 15).
pub open spec fn hex_char(d: int) -> char {
    if d == 0 {
        '0'
    } else if d == 1 {
        '1'
    } else if d == 2 {
        '2'
    } else if d == 3 {
        '3'
    } else if d == 4 {
        '4'
    } else if d == 5 {
        '5'
    } else if d == 6 {
        '6'
    } else if d == 7 {
        '7'
    } else if d == 8 {
        '8'
    } else if d == 9 {
        '9'
    } else if d == 10 {
        'a'
    } else if d == 11 {
        'b'
    } else if d == 12 {
        'c'
    } else if d == 13 {
        'd'
    } else if d == 14 {
        'e'
    } else {
        'f'
    }
}

/// `n` written in decimal, without leading zeros.
pub open spec fn decimal(n: nat) -> Seq<char>
    decreases n,
{
    if n < 10 {
        seq![hex_char(n as int)]
    } else {
        decimal(n / 10).push(hex_char((n % 10) as int))
    }
}

/// An IPv4 address, most significant byte first, in dotted-quad form.
pub open spec fn dotted_quad(ip: u32) -> Seq<char> {
    decimal((ip / 0x1000000) as nat) + seq!['.'] + decimal(((ip / 0x10000) % 256) as nat) + seq!['.']
        + decimal(((ip / 256) % 256) as nat) + seq!['.'] + decimal((ip % 256) as nat)
}

/// Two hexadecimal digits for a byte.
pub open spec fn hex_byte(b: u8) -> Seq<char> {
    seq![hex_char((b / 16) as int), hex_char((b % 16) as int)]
}

pub fn hex_digit(d: u8) -> (r: &'static str)
    requires
        d < 16,
    ensures
        r@ == seq![hex_char(d as int)],
{
    match d {
        0 => {
            proof {
                reveal_strlit("0");
            }
            "0"
        },
        1 => {
            proof {
                reveal_strlit("1");
            }
            "1"
        },
        2 => {
            proof {
                reveal_strlit("2");
            }
            "2"
        },
        3 => {
            proof {
                reveal_strlit("3");
            }
            "3"
        },
        4 => {
            proof {
                reveal_strlit("4");
            }
            "4"
        },
        5 => {
            proof {
                reveal_strlit("5");
            }
            "5"
        },
        6 => {
            proof {
                reveal_strlit("6");
            }
            "6"
        },
        7 => {
            proof {
                reveal_strlit("7");
            }
            "7"
        },
        8 => {
            proof {
                reveal_strlit("8");
            }
            "8"
        },
        9 => {
            proof {
                reveal_strlit("9");
            }
            "9"
        },
        10 => {
            proof {
                reveal_strlit("a");
            }
            "a"
        },
        11 => {
            proof {
                reveal_strlit("b");
            }
            "b"
        },
        12 => {
            proof {
                reveal_strlit("c");
            }
            "c"
        },
        13 => {
            proof {
                reveal_strlit("d");
            }
            "d"
        },
        14 => {
            proof {
                reveal_strlit("e");
            }
            "e"
        },
        _ => {
            proof {
                reveal_strlit("f");
            }
            "f"
        },
    }
}

/// Appends `n` in decimal.
pub fn append_decimal(s: &mut String, n: u8)
    ensures
        final(s)@ == old(s)@ + decimal(n as nat),
{
    if n >= 100 {
        s.append(hex_digit(n / 100));
    }
    if n >= 10 {
        s.append(hex_digit((n / 10) % 10));
    }
    s.append(hex_digit(n % 10));
    proof {
        if n >= 100 {
            assert(decimal((n / 10) as nat) =~= decimal((n / 100) as nat).push(hex_char(((n / 10) % 10) as int)));
            assert(decimal((n / 100) as nat) =~= seq![hex_char((n / 100) as int)]);
        } else if n >= 10 {
            assert(decimal((n / 10) as nat) =~= seq![hex_char((n / 10) as int)]);
        }
        assert(final(s)@ =~= old(s)@ + decimal(n as nat));
    }
}

/// Appends a byte as two hexadecimal digits.
pub fn append_hex_byte(s: &mut String, b: u8)
    ensures
        final(s)@ == old(s)@ + hex_byte(b),
{
    s.append(hex_digit(b / 16));
    s.append(hex_digit(b % 16));
    assert(final(s)@ =~= old(s)@ + hex_byte(b));
}

/// An address given in host order, as dotted quad.
pub fn ip_to_string(ip: u32) -> (r: String)
    ensures
        r@ == dotted_quad(ip),
{
    proof {
        reveal_strlit(".");
    }
    let mut s = String::new();
    append_decimal(&mut s, (ip / 0x1000000) as u8);
    s.append(".");
    append_decimal(&mut s, ((ip / 0x10000) % 256) as u8);
    s.append(".");
    append_decimal(&mut s, ((ip / 256) % 256) as u8);
    s.append(".");
    append_decimal(&mut s, (ip % 256) as u8);
    assert(s@ =~= dotted_quad(ip));
    s
}

} // verus!
