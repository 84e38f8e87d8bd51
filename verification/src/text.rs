//! Decimal rendering of operand values and the line templates that every
//! rendered instruction is assembled from.

use vstd::prelude::*;

verus! {

/// The character for one decimal digit value.
pub open spec fn digit_char(d: int) -> char
    recommends
        0 <= d < 10,
{
    if d == 0 {
        '0'
    } else if d == 1 {
        '1'
    } else if d == 2 {
        '2'
    } else if d == 3 {
        '3'
    } else if d == 4 {
        '4'
    } else if d == 5 {
        '5'
    } else if d == 6 {
        '6'
    } else if d == 7 {
        '7'
    } else if d == 8 {
        '8'
    } else {
        '9'
    }
}

/// The decimal digits of a nonnegative number, most significant first,
/// with no leading zeros (a lone `0` for zero itself).
pub open spec fn dec_digits(n: int) -> Seq<char>
    recommends
        0 <= n,
    decreases n,
{
    if n < 10 {
        seq![digit_char(n)]
    } else {
        dec_digits(n / 10) + seq![digit_char(n % 10)]
    }
}

/// Signed decimal text: a leading `-` before the magnitude for negative
/// values, the plain digits otherwise.
pub open spec fn dec_signed(v: int) -> Seq<char> {
    if v < 0 {
        seq!['-'] + dec_digits(-v)
    } else {
        dec_digits(v)
    }
}

/// A one-operand line: the mnemonic, a space, the operand.
pub open spec fn line1(m: Seq<char>, a: Seq<char>) -> Seq<char> {
    m + " "@ + a
}

/// A two-operand line: operands separated by a comma and a space.
pub open spec fn line2(m: Seq<char>, a: Seq<char>, b: Seq<char>) -> Seq<char> {
    m + " "@ + a + ", "@ + b
}

/// A three-operand line.
pub open spec fn line3(m: Seq<char>, a: Seq<char>, b: Seq<char>, c: Seq<char>) -> Seq<char> {
    m + " "@ + a + ", "@ + b + ", "@ + c
}

/// The `offset(base)` operand form used by loads and stores.
pub open spec fn base_offset(off: Seq<char>, base: Seq<char>) -> Seq<char> {
    off + "("@ + base + ")"@
}

/// One decimal digit as text.
fn digit_text(d: u32) -> (r: &'static str)
    requires
        d < 10,
    ensures
        r@ == seq![digit_char(d as int)],
{
    let r: &'static str = if d == 0 {
        "0"
    } else if d == 1 {
        "1"
    } else if d == 2 {
        "2"
    } else if d == 3 {
        "3"
    } else if d == 4 {
        "4"
    } else if d == 5 {
        "5"
    } else if d == 6 {
        "6"
    } else if d == 7 {
        "7"
    } else if d == 8 {
        "8"
    } else {
        "9"
    };
    proof {
        reveal_strlit("0");
        reveal_strlit("1");
        reveal_strlit("2");
        reveal_strlit("3");
        reveal_strlit("4");
        reveal_strlit("5");
        reveal_strlit("6");
        reveal_strlit("7");
        reveal_strlit("8");
        reveal_strlit("9");
        assert(r@ =~= seq![digit_char(d as int)]);
    }
    r
}

/// Unsigned decimal text of a 32-bit value.
pub fn unsigned_text(n: u32) -> (r: String)
    ensures
        r@ == dec_digits(n as int),
    decreases n,
{
    if n < 10 {
        digit_text(n).to_owned()
    } else {
        let mut r = unsigned_text(n / 10);
        r.append(digit_text(n % 10));
        r
    }
}

/// Signed decimal text of a 16-bit immediate.
pub fn signed_text(v: i16) -> (r: String)
    ensures
        r@ == dec_signed(v as int),
{
    if v < 0 {
        let mag: u32 = (0 - (v as i32)) as u32;
        let mut r = "-".to_owned();
        let digits = unsigned_text(mag);
        r.append(digits.as_str());
        proof {
            reveal_strlit("-");
            assert(r@ =~= dec_signed(v as int));
        }
        r
    } else {
        unsigned_text(v as u32)
    }
}

/// Renders a one-operand line.
pub fn join1(m: &str, a: String) -> (r: String)
    ensures
        r@ == line1(m@, a@),
{
    let mut r = m.to_owned();
    r.append(" ");
    r.append(a.as_str());
    r
}

/// Renders a two-operand line.
pub fn join2(m: &str, a: String, b: String) -> (r: String)
    ensures
        r@ == line2(m@, a@, b@),
{
    let mut r = m.to_owned();
    r.append(" ");
    r.append(a.as_str());
    r.append(", ");
    r.append(b.as_str());
    r
}

/// Renders a three-operand line.
pub fn join3(m: &str, a: String, b: String, c: String) -> (r: String)
    ensures
        r@ == line3(m@, a@, b@, c@),
{
    let mut r = m.to_owned();
    r.append(" ");
    r.append(a.as_str());
    r.append(", ");
    r.append(b.as_str());
    r.append(", ");
    r.append(c.as_str());
    r
}

/// Renders an `offset(base)` operand.
pub fn join_base_offset(off: String, base: String) -> (r: String)
    ensures
        r@ == base_offset(off@, base@),
{
    let mut r = off;
    r.append("(");
    r.append(base.as_str());
    r.append(")");
    r
}

} // verus!
