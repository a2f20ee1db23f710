//! Hardware and network addresses, and how they are written.
use vstd::prelude::*;
use crate::num::{int_text, nat_text_exec};
use crate::text::{chars_of, join, join_exec, push_piece, string_from_chars, views};

verus! {

/// A big-endian 16-bit number at position `i` of the bytes.
pub open spec fn be16(s: Seq<u8>, i: int) -> int {
    s[i] * 256 + s[i + 1]
}

/// A big-endian 32-bit number at position `i` of the bytes.
pub open spec fn be32(s: Seq<u8>, i: int) -> int {
    be16(s, i) * 65536 + be16(s, i + 2)
}

/// A hexadecimal digit, in lower case.
pub open spec fn hex_digit(d: int) -> char {
    if d < 10 {
        (48 + d) as char
    } else {
        (87 + d) as char
    }
}

/// A byte as two hexadecimal digits.
pub open spec fn byte_hex(b: u8) -> Seq<char> {
    seq![hex_digit((b / 16) as int), hex_digit((b % 16) as int)]
}

/// A hardware address: six bytes written in hexadecimal, separated by colons.
pub open spec fn mac_text(m: Seq<u8>) -> Seq<char> {
    join(m.map_values(|b: u8| byte_hex(b)), ":"@)
}

/// An IPv4 address: four bytes written in decimal, separated by dots.
pub open spec fn ipv4_text(o: Seq<u8>) -> Seq<char> {
    join(o.map_values(|b: u8| int_text(b as int)), "."@)
}

/// A byte as two hexadecimal digits.
fn byte_hex_exec(b: u8) -> (r: Vec<char>)
    ensures
        r@ == byte_hex(b),
{
    let hi: u8 = b / 16;
    let lo: u8 = b % 16;
    let c1: char = if hi < 10 { (48u8 + hi) as char } else { (87u8 + hi) as char };
    let c2: char = if lo < 10 { (48u8 + lo) as char } else { (87u8 + lo) as char };
    let mut r: Vec<char> = Vec::new();
    r.push(c1);
    r.push(c2);
    proof {
        assert(r@ =~= byte_hex(b));
    }
    r
}

/// A hardware address in its written form.
pub fn mac_string(m: &[u8; 6]) -> (r: String)
    ensures
        r@ == mac_text(m@),
{
    let mut parts: Vec<Vec<char>> = Vec::new();
    let mut i: usize = 0;
    while i < 6
        invariant
            i <= 6,
            m@.len() == 6,
            views(parts@) == m@.take(i as int).map_values(|b: u8| byte_hex(b)),
        decreases 6 - i,
    {
        push_piece(&mut parts, byte_hex_exec(m[i]));
        proof {
            assert(m@.take(i + 1) =~= m@.take(i as int).push(m@[i as int]));
            assert(views(parts@) =~= m@.take(i + 1).map_values(|b: u8| byte_hex(b)));
        }
        i = i + 1;
    }
    proof {
        assert(m@.take(6) =~= m@);
    }
    string_from_chars(&join_exec(&parts, &chars_of(":")))
}

/// An IPv4 address in its written form.
pub fn ipv4_string(o: &[u8; 4]) -> (r: String)
    ensures
        r@ == ipv4_text(o@),
{
    let mut parts: Vec<Vec<char>> = Vec::new();
    let mut i: usize = 0;
    while i < 4
        invariant
            i <= 4,
            o@.len() == 4,
            views(parts@) == o@.take(i as int).map_values(|b: u8| int_text(b as int)),
        decreases 4 - i,
    {
        push_piece(&mut parts, nat_text_exec(o[i] as u128));
        proof {
            assert(o@.take(i + 1) =~= o@.take(i as int).push(o@[i as int]));
            assert(views(parts@) =~= o@.take(i + 1).map_values(|b: u8| int_text(b as int)));
        }
        i = i + 1;
    }
    proof {
        assert(o@.take(4) =~= o@);
    }
    string_from_chars(&join_exec(&parts, &chars_of(".")))
}

/// The number of bits set in a byte.
pub open spec fn ones(b: u8) -> nat
    decreases b,
{
    if b == 0 {
        0
    } else {
        (b % 2) as nat + ones(b / 2)
    }
}

/// The number of bits set in the bytes.
pub open spec fn ones_in(s: Seq<u8>) -> nat
    decreases s.len(),
{
    if s.len() == 0 {
        0
    } else {
        ones_in(s.drop_last()) + ones(s.last())
    }
}

/// The number of bits set in a byte (`u8::count_ones`).
fn ones_exec(b: u8) -> (r: u32)
    ensures
        r == ones(b),
        r <= 8,
{
    let mut n: u32 = 0;
    let mut x: u8 = b;
    let mut k: u32 = 0;
    assert(pow2_u8(8) == 256) by {
        reveal_with_fuel(pow2_u8, 9);
    }
    while x > 0
        invariant
            n + ones(x) == ones(b),
            k <= 8,
            n <= k,
            x < pow2_u8((8 - k) as u32),
        decreases x,
    {
        n = n + (x % 2) as u32;
        x = x / 2;
        k = k + 1;
    }
    n
}

/// Two to the power `k`, for `k` up to 8.
pub open spec fn pow2_u8(k: u32) -> int
    decreases k,
{
    if k == 0 {
        1
    } else {
        2 * pow2_u8((k - 1) as u32)
    }
}

/// The length of the prefix of a network mask: the number of bits set in
/// its bytes.
pub fn prefix_length(octets: &Vec<u8>) -> (r: u32)
    requires
        octets@.len() <= 16,
    ensures
        r == ones_in(octets@),
{
    let mut n: u32 = 0;
    let mut i: usize = 0;
    while i < octets.len()
        invariant
            i <= octets@.len(),
            octets@.len() <= 16,
            n == ones_in(octets@.take(i as int)),
            n <= 8 * i,
        decreases octets@.len() - i,
    {
        let c = ones_exec(octets[i]);
        proof {
            assert(octets@.take(i + 1).drop_last() =~= octets@.take(i as int));
        }
        n = n + c;
        i = i + 1;
    }
    proof {
        assert(octets@.take(octets@.len() as int) =~= octets@);
    }
    n
}

} // verus!
