//! Decimal and hexadecimal text for the integers the renderer and the log
//! print, and the textual form of IP addresses.

use vstd::prelude::*;
use vstd::string::StringExecFns;

verus! {

/// The character for one decimal or hexadecimal digit value.
pub open spec fn digit_char(d: int) -> char {
    if d == 0 {
        '0'
    } else if d == 1 {
        '1'
    } else if d == 2 {
        '2'
    } else if d == 3 {
        '3'
    } else if d == 4 {
        '4'
    } else if d == 5 {
        '5'
    } else if d == 6 {
        '6'
    } else if d == 7 {
        '7'
    } else if d == 8 {
        '8'
    } else if d == 9 {
        '9'
    } else if d == 10 {
        'a'
    } else if d == 11 {
        'b'
    } else if d == 12 {
        'c'
    } else if d == 13 {
        'd'
    } else if d == 14 {
        'e'
    } else {
        'f'
    }
}

/// The decimal text of a non-negative integer, without leading zeros.
pub open spec fn spec_dec(n: int) -> Seq<char>
    decreases n,
{
    if n < 10 {
        seq![digit_char(n)]
    } else {
        spec_dec(n / 10).push(digit_char(n % 10))
    }
}

/// The lower-case hexadecimal text of a non-negative integer, without
/// leading zeros.
pub open spec fn spec_hex(n: int) -> Seq<char>
    decreases n,
{
    if n < 16 {
        seq![digit_char(n)]
    } else {
        spec_hex(n / 16).push(digit_char(n % 16))
    }
}

/// The decimal text of a signed integer: a minus sign, then the digits.
pub open spec fn spec_dec_signed(n: int) -> Seq<char> {
    if n < 0 {
        seq!['-'] + spec_dec(-n)
    } else {
        spec_dec(n)
    }
}

/// Appends the character for one digit value.
fn push_digit(out: &mut String, d: u8)
    requires
        d < 16,
    ensures
        final(out)@ == old(out)@ + seq![digit_char(d as int)],
{
    let s: &'static str = match d {
        0 => "0",
        1 => "1",
        2 => "2",
        3 => "3",
        4 => "4",
        5 => "5",
        6 => "6",
        7 => "7",
        8 => "8",
        9 => "9",
        10 => "a",
        11 => "b",
        12 => "c",
        13 => "d",
        14 => "e",
        _ => "f",
    };
    proof {
        reveal_strlit("0");
        reveal_strlit("1");
        reveal_strlit("2");
        reveal_strlit("3");
        reveal_strlit("4");
        reveal_strlit("5");
        reveal_strlit("6");
        reveal_strlit("7");
        reveal_strlit("8");
        reveal_strlit("9");
        reveal_strlit("a");
        reveal_strlit("b");
        reveal_strlit("c");
        reveal_strlit("d");
        reveal_strlit("e");
        reveal_strlit("f");
        assert(s@ =~= seq![digit_char(d as int)]);
    }
    out.append(s);
}

/// Appends the decimal text of `n`.
pub fn push_u64_dec(out: &mut String, n: u64)
    ensures
        final(out)@ == old(out)@ + spec_dec(n as int),
    decreases n,
{
    if n >= 10 {
        push_u64_dec(out, n / 10);
    }
    push_digit(out, (n % 10) as u8);
}

/// Appends the hexadecimal text of `n`.
pub fn push_u64_hex(out: &mut String, n: u64)
    ensures
        final(out)@ == old(out)@ + spec_hex(n as int),
    decreases n,
{
    if n >= 16 {
        push_u64_hex(out, n / 16);
    }
    push_digit(out, (n % 16) as u8);
}

/// The decimal text of `n`.
pub fn u64_dec(n: u64) -> (r: String)
    ensures
        r@ == spec_dec(n as int),
{
    let mut out = String::new();
    push_u64_dec(&mut out, n);
    out
}

/// The decimal text of a signed value.
pub fn i64_dec(n: i64) -> (r: String)
    requires
        n > i64::MIN,
    ensures
        r@ == spec_dec_signed(n as int),
{
    let mut out = String::new();
    if n < 0 {
        proof {
            reveal_strlit("-");
        }
        out.append("-");
        assert(out@ =~= seq!['-']);
        push_u64_dec(&mut out, (-n) as u64);
    } else {
        push_u64_dec(&mut out, n as u64);
    }
    out
}

/// One octet of an IPv4 value, counted from the most significant end.
pub open spec fn v4_octet(a: int, i: int) -> int {
    if i == 0 {
        a / 0x1000000 % 0x100
    } else if i == 1 {
        a / 0x10000 % 0x100
    } else if i == 2 {
        a / 0x100 % 0x100
    } else {
        a % 0x100
    }
}

/// Dotted-quad text of an IPv4 value.
pub open spec fn spec_v4_text(a: int) -> Seq<char> {
    spec_dec(v4_octet(a, 0)) + seq!['.'] + spec_dec(v4_octet(a, 1)) + seq!['.'] + spec_dec(
        v4_octet(a, 2),
    ) + seq!['.'] + spec_dec(v4_octet(a, 3))
}

/// One 16-bit group of an IPv6 value, counted from the most significant end.
pub open spec fn v6_group(a: int, i: int) -> int {
    if i == 0 {
        a / 0x1_0000_0000_0000_0000_0000_0000_0000 % 0x10000
    } else if i == 1 {
        a / 0x1_0000_0000_0000_0000_0000_0000 % 0x10000
    } else if i == 2 {
        a / 0x1_0000_0000_0000_0000_0000 % 0x10000
    } else if i == 3 {
        a / 0x1_0000_0000_0000_0000 % 0x10000
    } else if i == 4 {
        a / 0x1_0000_0000_0000 % 0x10000
    } else if i == 5 {
        a / 0x1_0000_0000 % 0x10000
    } else if i == 6 {
        a / 0x10000 % 0x10000
    } else {
        a % 0x10000
    }
}

/// Eight colon-separated hexadecimal groups, without zero-run compression.
pub open spec fn spec_v6_text(a: int) -> Seq<char> {
    spec_hex(v6_group(a, 0)) + seq![':'] + spec_hex(v6_group(a, 1)) + seq![':'] + spec_hex(
        v6_group(a, 2),
    ) + seq![':'] + spec_hex(v6_group(a, 3)) + seq![':'] + spec_hex(v6_group(a, 4)) + seq![':']
        + spec_hex(v6_group(a, 5)) + seq![':'] + spec_hex(v6_group(a, 6)) + seq![':'] + spec_hex(
        v6_group(a, 7),
    )
}

/// Appends one dot.
fn push_dot(out: &mut String)
    ensures
        final(out)@ == old(out)@ + seq!['.'],
{
    proof {
        reveal_strlit(".");
        assert("."@ =~= seq!['.']);
    }
    out.append(".");
}

/// Appends one colon.
fn push_colon(out: &mut String)
    ensures
        final(out)@ == old(out)@ + seq![':'],
{
    proof {
        reveal_strlit(":");
        assert(":"@ =~= seq![':']);
    }
    out.append(":");
}

/// Dotted-quad text of an IPv4 value.
pub fn v4_text(a: u32) -> (r: String)
    ensures
        r@ == spec_v4_text(a as int),
{
    let mut out = String::new();
    push_u64_dec(&mut out, (a / 0x1000000 % 0x100) as u64);
    push_dot(&mut out);
    push_u64_dec(&mut out, (a / 0x10000 % 0x100) as u64);
    push_dot(&mut out);
    push_u64_dec(&mut out, (a / 0x100 % 0x100) as u64);
    push_dot(&mut out);
    push_u64_dec(&mut out, (a % 0x100) as u64);
    out
}

/// Uncompressed colon-separated text of an IPv6 value.
pub fn v6_text(a: u128) -> (r: String)
    ensures
        r@ == spec_v6_text(a as int),
{
    let mut out = String::new();
    push_u64_hex(&mut out, (a / 0x1_0000_0000_0000_0000_0000_0000_0000 % 0x10000) as u64);
    push_colon(&mut out);
    push_u64_hex(&mut out, (a / 0x1_0000_0000_0000_0000_0000_0000 % 0x10000) as u64);
    push_colon(&mut out);
    push_u64_hex(&mut out, (a / 0x1_0000_0000_0000_0000_0000 % 0x10000) as u64);
    push_colon(&mut out);
    push_u64_hex(&mut out, (a / 0x1_0000_0000_0000_0000 % 0x10000) as u64);
    push_colon(&mut out);
    push_u64_hex(&mut out, (a / 0x1_0000_0000_0000 % 0x10000) as u64);
    push_colon(&mut out);
    push_u64_hex(&mut out, (a / 0x1_0000_0000 % 0x10000) as u64);
    push_colon(&mut out);
    push_u64_hex(&mut out, (a / 0x10000 % 0x10000) as u64);
    push_colon(&mut out);
    push_u64_hex(&mut out, (a % 0x10000) as u64);
    out
}

} // verus!
