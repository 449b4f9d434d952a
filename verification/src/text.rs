//! Verified plain-text formatting: decimal and hexadecimal rendering of
//! integers, used by error messages, ICE candidate lines and identifiers.

use vstd::prelude::*;

verus! {

/// The decimal digit character for a value in `0..=9`.
pub open spec fn dec_digit_char(d: int) -> char {
    if d == 0 {
        '0'
    } else if d == 1 {
        '1'
    } else if d == 2 {
        '2'
    } else if d == 3 {
        '3'
    } else if d == 4 {
        '4'
    } else if d == 5 {
        '5'
    } else if d == 6 {
        '6'
    } else if d == 7 {
        '7'
    } else if d == 8 {
        '8'
    } else {
        '9'
    }
}

/// The lowercase hexadecimal digit character for a value in `0..=15`.
pub open spec fn hex_digit_char(d: int) -> char {
    if d < 10 {
        dec_digit_char(d)
    } else if d == 10 {
        'a'
    } else if d == 11 {
        'b'
    } else if d == 12 {
        'c'
    } else if d == 13 {
        'd'
    } else if d == 14 {
        'e'
    } else {
        'f'
    }
}

/// The uppercase hexadecimal digit character for a value in `0..=15`.
pub open spec fn hex_digit_char_upper(d: int) -> char {
    if d < 10 {
        dec_digit_char(d)
    } else if d == 10 {
        'A'
    } else if d == 11 {
        'B'
    } else if d == 12 {
        'C'
    } else if d == 13 {
        'D'
    } else if d == 14 {
        'E'
    } else {
        'F'
    }
}

/// Decimal rendering of a non-negative integer, without leading zeros
/// (a single `'0'` for zero).
pub open spec fn dec_chars(n: int) -> Seq<char>
    recommends
        n >= 0,
    decreases n,
{
    if n < 10 {
        seq![dec_digit_char(n)]
    } else {
        dec_chars(n / 10).push(dec_digit_char(n % 10))
    }
}

/// Fixed-width lowercase hexadecimal rendering (zero padded), most
/// significant digit first.
pub open spec fn hex_chars_fixed(n: int, width: nat) -> Seq<char>
    decreases width,
{
    if width == 0 {
        seq![]
    } else {
        hex_chars_fixed(n / 16, (width - 1) as nat).push(hex_digit_char(n % 16))
    }
}

/// A one-character string slice holding the decimal digit for `d`.
pub fn dec_digit_str(d: u8) -> (r: &'static str)
    requires
        d < 10,
    ensures
        r@ == seq![dec_digit_char(d as int)],
{
    if d == 0 {
        let r = "0";
        proof {
            reveal_strlit("0");
            assert(r@ =~= seq![dec_digit_char(0)]);
        }
        r
    } else if d == 1 {
        let r = "1";
        proof {
            reveal_strlit("1");
            assert(r@ =~= seq![dec_digit_char(1)]);
        }
        r
    } else if d == 2 {
        let r = "2";
        proof {
            reveal_strlit("2");
            assert(r@ =~= seq![dec_digit_char(2)]);
        }
        r
    } else if d == 3 {
        let r = "3";
        proof {
            reveal_strlit("3");
            assert(r@ =~= seq![dec_digit_char(3)]);
        }
        r
    } else if d == 4 {
        let r = "4";
        proof {
            reveal_strlit("4");
            assert(r@ =~= seq![dec_digit_char(4)]);
        }
        r
    } else if d == 5 {
        let r = "5";
        proof {
            reveal_strlit("5");
            assert(r@ =~= seq![dec_digit_char(5)]);
        }
        r
    } else if d == 6 {
        let r = "6";
        proof {
            reveal_strlit("6");
            assert(r@ =~= seq![dec_digit_char(6)]);
        }
        r
    } else if d == 7 {
        let r = "7";
        proof {
            reveal_strlit("7");
            assert(r@ =~= seq![dec_digit_char(7)]);
        }
        r
    } else if d == 8 {
        let r = "8";
        proof {
            reveal_strlit("8");
            assert(r@ =~= seq![dec_digit_char(8)]);
        }
        r
    } else {
        let r = "9";
        proof {
            reveal_strlit("9");
            assert(r@ =~= seq![dec_digit_char(9)]);
        }
        r
    }
}

/// A one-character string slice holding the lowercase hex digit for `d`.
pub fn hex_digit_str(d: u8) -> (r: &'static str)
    requires
        d < 16,
    ensures
        r@ == seq![hex_digit_char(d as int)],
{
    if d < 10 {
        dec_digit_str(d)
    } else if d == 10 {
        let r = "a";
        proof {
            reveal_strlit("a");
            assert(r@ =~= seq![hex_digit_char(10)]);
        }
        r
    } else if d == 11 {
        let r = "b";
        proof {
            reveal_strlit("b");
            assert(r@ =~= seq![hex_digit_char(11)]);
        }
        r
    } else if d == 12 {
        let r = "c";
        proof {
            reveal_strlit("c");
            assert(r@ =~= seq![hex_digit_char(12)]);
        }
        r
    } else if d == 13 {
        let r = "d";
        proof {
            reveal_strlit("d");
            assert(r@ =~= seq![hex_digit_char(13)]);
        }
        r
    } else if d == 14 {
        let r = "e";
        proof {
            reveal_strlit("e");
            assert(r@ =~= seq![hex_digit_char(14)]);
        }
        r
    } else {
        let r = "f";
        proof {
            reveal_strlit("f");
            assert(r@ =~= seq![hex_digit_char(15)]);
        }
        r
    }
}

/// A one-character string slice holding the uppercase hex digit for `d`.
pub fn hex_digit_str_upper(d: u8) -> (r: &'static str)
    requires
        d < 16,
    ensures
        r@ == seq![hex_digit_char_upper(d as int)],
{
    if d < 10 {
        dec_digit_str(d)
    } else if d == 10 {
        let r = "A";
        proof {
            reveal_strlit("A");
            assert(r@ =~= seq![hex_digit_char_upper(10)]);
        }
        r
    } else if d == 11 {
        let r = "B";
        proof {
            reveal_strlit("B");
            assert(r@ =~= seq![hex_digit_char_upper(11)]);
        }
        r
    } else if d == 12 {
        let r = "C";
        proof {
            reveal_strlit("C");
            assert(r@ =~= seq![hex_digit_char_upper(12)]);
        }
        r
    } else if d == 13 {
        let r = "D";
        proof {
            reveal_strlit("D");
            assert(r@ =~= seq![hex_digit_char_upper(13)]);
        }
        r
    } else if d == 14 {
        let r = "E";
        proof {
            reveal_strlit("E");
            assert(r@ =~= seq![hex_digit_char_upper(14)]);
        }
        r
    } else {
        let r = "F";
        proof {
            reveal_strlit("F");
            assert(r@ =~= seq![hex_digit_char_upper(15)]);
        }
        r
    }
}

/// Character-wise string equality.
pub fn str_eq(a: &str, b: &str) -> (r: bool)
    ensures
        r == (a@ == b@),
{
    let la: usize = a.unicode_len();
    let lb: usize = b.unicode_len();
    if la != lb {
        proof {
            assert(a@.len() != b@.len());
        }
        return false;
    }
    let mut i: usize = 0;
    while i < la
        invariant
            i <= la,
            la == a@.len(),
            la == b@.len(),
            forall|k: int| 0 <= k < i ==> a@[k] == b@[k],
        decreases la - i,
    {
        if a.get_char(i) != b.get_char(i) {
            return false;
        }
        i += 1;
    }
    proof {
        assert(a@ =~= b@);
    }
    true
}

/// Render an unsigned integer in decimal.
pub fn u64_to_decimal(n: u64) -> (s: String)
    ensures
        s@ == dec_chars(n as int),
    decreases n,
{
    if n < 10 {
        String::from_str(dec_digit_str(n as u8))
    } else {
        let mut s = u64_to_decimal(n / 10);
        s.append(dec_digit_str((n % 10) as u8));
        s
    }
}

/// Decimal rendering of a signed integer: a minus sign for negatives,
/// then the digits of the magnitude.
pub open spec fn dec_chars_signed(n: int) -> Seq<char> {
    if n >= 0 {
        dec_chars(n)
    } else {
        seq!['-'] + dec_chars(-n)
    }
}

/// Render a signed integer in decimal.
pub fn i64_to_decimal(n: i64) -> (s: String)
    ensures
        s@ == dec_chars_signed(n as int),
{
    if n >= 0 {
        u64_to_decimal(n as u64)
    } else {
        // Negate via a detour that stays in range for i64::MIN.
        let magnitude: u64 = (-(n + 1)) as u64 + 1;
        let minus = String::from_str("-");
        proof {
            reveal_strlit("-");
            assert(minus@ =~= seq!['-']);
        }
        minus.concat(u64_to_decimal(magnitude).as_str())
    }
}

/// Render an integer as exactly `32` lowercase hex digits, zero padded.
/// This is the wire shape of the engine's locally generated identifiers.
pub fn u128_to_hex32(n: u128) -> (s: String)
    ensures
        s@ == hex_chars_fixed(n as int, 32),
{
    hex_fixed(n, 32)
}

fn hex_fixed(n: u128, width: u8) -> (s: String)
    ensures
        s@ == hex_chars_fixed(n as int, width as nat),
    decreases width,
{
    if width == 0 {
        String::new()
    } else {
        let mut s = hex_fixed(n / 16, width - 1);
        s.append(hex_digit_str((n % 16) as u8));
        s
    }
}

} // verus!
