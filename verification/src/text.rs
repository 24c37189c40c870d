//! Verified text building for the renderers: hexadecimal and decimal
//! digit strings, and left padding to a column width.

use vstd::prelude::*;

verus! {

/// The character for one digit value below sixteen.
pub open spec fn spec_digit(d: u8) -> char {
    if d == 0 {
        '0'
    } else if d == 1 {
        '1'
    } else if d == 2 {
        '2'
    } else if d == 3 {
        '3'
    } else if d == 4 {
        '4'
    } else if d == 5 {
        '5'
    } else if d == 6 {
        '6'
    } else if d == 7 {
        '7'
    } else if d == 8 {
        '8'
    } else if d == 9 {
        '9'
    } else if d == 10 {
        'a'
    } else if d == 11 {
        'b'
    } else if d == 12 {
        'c'
    } else if d == 13 {
        'd'
    } else if d == 14 {
        'e'
    } else {
        'f'
    }
}

/// The hexadecimal digits of `v`, most significant first; empty for zero.
pub open spec fn spec_hex_digits(v: nat) -> Seq<char>
    decreases v,
{
    if v == 0 {
        Seq::empty()
    } else {
        spec_hex_digits(v / 16).push(spec_digit((v % 16) as u8))
    }
}

/// `v` written in lowercase hexadecimal without a prefix; zero is "0".
pub open spec fn spec_hex_str(v: nat) -> Seq<char> {
    if v == 0 {
        seq!['0']
    } else {
        spec_hex_digits(v)
    }
}

/// The decimal digits of `v`, most significant first; empty for zero.
pub open spec fn spec_dec_digits(v: nat) -> Seq<char>
    decreases v,
{
    if v == 0 {
        Seq::empty()
    } else {
        spec_dec_digits(v / 10).push(spec_digit((v % 10) as u8))
    }
}

/// `v` written in decimal; zero is "0".
pub open spec fn spec_dec_str(v: nat) -> Seq<char> {
    if v == 0 {
        seq!['0']
    } else {
        spec_dec_digits(v)
    }
}

/// `s` preceded by as many spaces as the column width leaves free.
pub open spec fn spec_pad_left(s: Seq<char>, width: nat) -> Seq<char> {
    Seq::new(if s.len() < width {
        (width - s.len()) as nat
    } else {
        0
    }, |i: int| ' ') + s
}

/// Append the character of one digit value.
fn append_digit(s: &mut String, d: u8)
    requires
        d < 16,
    ensures
        final(s)@ == old(s)@.push(spec_digit(d)),
{
    let ghost before = s@;
    match d {
        0 => {
            s.append("0");
            proof {
                reveal_strlit("0");
                assert(before + "0"@ =~= before.push('0'));
            }
        },
        1 => {
            s.append("1");
            proof {
                reveal_strlit("1");
                assert(before + "1"@ =~= before.push('1'));
            }
        },
        2 => {
            s.append("2");
            proof {
                reveal_strlit("2");
                assert(before + "2"@ =~= before.push('2'));
            }
        },
        3 => {
            s.append("3");
            proof {
                reveal_strlit("3");
                assert(before + "3"@ =~= before.push('3'));
            }
        },
        4 => {
            s.append("4");
            proof {
                reveal_strlit("4");
                assert(before + "4"@ =~= before.push('4'));
            }
        },
        5 => {
            s.append("5");
            proof {
                reveal_strlit("5");
                assert(before + "5"@ =~= before.push('5'));
            }
        },
        6 => {
            s.append("6");
            proof {
                reveal_strlit("6");
                assert(before + "6"@ =~= before.push('6'));
            }
        },
        7 => {
            s.append("7");
            proof {
                reveal_strlit("7");
                assert(before + "7"@ =~= before.push('7'));
            }
        },
        8 => {
            s.append("8");
            proof {
                reveal_strlit("8");
                assert(before + "8"@ =~= before.push('8'));
            }
        },
        9 => {
            s.append("9");
            proof {
                reveal_strlit("9");
                assert(before + "9"@ =~= before.push('9'));
            }
        },
        10 => {
            s.append("a");
            proof {
                reveal_strlit("a");
                assert(before + "a"@ =~= before.push('a'));
            }
        },
        11 => {
            s.append("b");
            proof {
                reveal_strlit("b");
                assert(before + "b"@ =~= before.push('b'));
            }
        },
        12 => {
            s.append("c");
            proof {
                reveal_strlit("c");
                assert(before + "c"@ =~= before.push('c'));
            }
        },
        13 => {
            s.append("d");
            proof {
                reveal_strlit("d");
                assert(before + "d"@ =~= before.push('d'));
            }
        },
        14 => {
            s.append("e");
            proof {
                reveal_strlit("e");
                assert(before + "e"@ =~= before.push('e'));
            }
        },
        _ => {
            s.append("f");
            proof {
                reveal_strlit("f");
                assert(before + "f"@ =~= before.push('f'));
            }
        },
    }
}

/// Append the hexadecimal digits of `v`; nothing for zero.
fn append_hex_digits(s: &mut String, v: u128)
    ensures
        final(s)@ == old(s)@ + spec_hex_digits(v as nat),
    decreases v,
{
    if v == 0 {
        proof {
            assert(s@ + spec_hex_digits(0) =~= s@);
        }
    } else {
        append_hex_digits(s, v / 16);
        append_digit(s, (v % 16) as u8);
        proof {
            assert(old(s)@ + spec_hex_digits((v / 16) as nat).push(
                spec_digit((v % 16) as u8),
            ) =~= (old(s)@ + spec_hex_digits((v / 16) as nat)).push(spec_digit((v % 16) as u8)));
        }
    }
}

/// `v` written in lowercase hexadecimal without a prefix.
pub fn hex_str(v: u128) -> (r: String)
    ensures
        r@ == spec_hex_str(v as nat),
{
    if v == 0 {
        let r = String::from_str("0");
        proof {
            reveal_strlit("0");
            assert("0"@ =~= seq!['0']);
        }
        r
    } else {
        let mut s = String::new();
        append_hex_digits(&mut s, v);
        proof {
            assert(Seq::<char>::empty() + spec_hex_digits(v as nat) =~= spec_hex_digits(
                v as nat,
            ));
        }
        s
    }
}

/// Append the decimal digits of `v`; nothing for zero.
fn append_dec_digits(s: &mut String, v: u64)
    ensures
        final(s)@ == old(s)@ + spec_dec_digits(v as nat),
    decreases v,
{
    if v == 0 {
        proof {
            assert(s@ + spec_dec_digits(0) =~= s@);
        }
    } else {
        append_dec_digits(s, v / 10);
        append_digit(s, (v % 10) as u8);
        proof {
            assert(old(s)@ + spec_dec_digits((v / 10) as nat).push(
                spec_digit((v % 10) as u8),
            ) =~= (old(s)@ + spec_dec_digits((v / 10) as nat)).push(spec_digit((v % 10) as u8)));
        }
    }
}

/// `v` written in decimal.
pub fn dec_str(v: u64) -> (r: String)
    ensures
        r@ == spec_dec_str(v as nat),
{
    if v == 0 {
        let r = String::from_str("0");
        proof {
            reveal_strlit("0");
            assert("0"@ =~= seq!['0']);
        }
        r
    } else {
        let mut s = String::new();
        append_dec_digits(&mut s, v);
        proof {
            assert(Seq::<char>::empty() + spec_dec_digits(v as nat) =~= spec_dec_digits(
                v as nat,
            ));
        }
        s
    }
}

/// `s` right-justified in a column of `width` characters.
pub fn pad_left(s: &str, width: usize) -> (r: String)
    ensures
        r@ == spec_pad_left(s@, width as nat),
{
    let len = s.unicode_len();
    let mut out = String::new();
    let mut k: usize = len;
    while k < width
        invariant
            len <= k,
            len == s@.len(),
            k <= width || k == len,
            out@ == Seq::new((k - len) as nat, |i: int| ' '),
        decreases width - k,
    {
        out.append(" ");
        k = k + 1;
        proof {
            reveal_strlit(" ");
            assert(Seq::new((k - 1 - len) as nat, |i: int| ' ') + " "@ =~= Seq::new(
                (k - len) as nat,
                |i: int| ' ',
            ));
        }
    }
    out.append(s);
    proof {
        assert(out@ =~= spec_pad_left(s@, width as nat));
    }
    out
}

/// The text that decoding a byte sequence as UTF-8 yields, with invalid
/// sequences replaced: a function of the bytes alone.
pub uninterp spec fn spec_lossy_text(bytes: Seq<u8>) -> Seq<char>;

/// Relies on String::from_utf8_lossy: decodes the bytes as UTF-8,
/// replacing invalid sequences with the replacement character; the result
/// depends on the bytes alone, and no bytes decode to no text.
#[verifier::external_body]
pub fn utf8_lossy(bytes: &Vec<u8>) -> (r: String)
    ensures
        r@ == spec_lossy_text(bytes@),
        bytes@.len() == 0 ==> r@.len() == 0,
{
    String::from_utf8_lossy(bytes.as_slice()).into_owned()
}

} // verus!
