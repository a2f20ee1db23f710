//! Decimal integers: reading them from text as `str::parse` does and writing
//! them as `Display` does.
use vstd::prelude::*;

verus! {

/// A decimal digit character.
pub open spec fn is_digit(c: char) -> bool {
    '0' <= c && c <= '9'
}

/// The value of a decimal digit character.
pub open spec fn digit_val(c: char) -> int {
    (c as int) - ('0' as int)
}

/// Every character of `s` is a decimal digit.
pub open spec fn all_digits(s: Seq<char>) -> bool {
    forall|i: int| 0 <= i < s.len() ==> #[trigger] is_digit(s[i])
}

/// The value of a string of decimal digits.
pub open spec fn digits_value(s: Seq<char>) -> int
    decreases s.len(),
{
    if s.len() == 0 {
        0
    } else {
        digits_value(s.drop_last()) * 10 + digit_val(s.last())
    }
}

/// The integer that `s` writes, as `FromStr` for the integer types reads it:
/// an optional sign (`-` only where `signed`), then one or more decimal
/// digits and nothing else.
pub open spec fn parse_int(s: Seq<char>, signed: bool) -> Option<int> {
    if s.len() == 0 {
        None
    } else if s[0] == '+' || (signed && s[0] == '-') {
        let d = s.drop_first();
        if d.len() > 0 && all_digits(d) {
            if s[0] == '-' {
                Some(-digits_value(d))
            } else {
                Some(digits_value(d))
            }
        } else {
            None
        }
    } else if all_digits(s) {
        Some(digits_value(s))
    } else {
        None
    }
}

/// `str::parse` into an integer type whose values are `lo..=hi`.
pub open spec fn parse_in(s: Seq<char>, signed: bool, lo: int, hi: int) -> Option<int> {
    match parse_int(s, signed) {
        Some(v) => if lo <= v <= hi {
            Some(v)
        } else {
            None
        },
        None => None,
    }
}

/// `str::parse::<u16>`.
pub open spec fn parse_u16(s: Seq<char>) -> Option<int> {
    parse_in(s, false, 0, u16::MAX as int)
}

/// `str::parse::<u32>`.
pub open spec fn parse_u32(s: Seq<char>) -> Option<int> {
    parse_in(s, false, 0, u32::MAX as int)
}

/// `str::parse::<u64>`.
pub open spec fn parse_u64(s: Seq<char>) -> Option<int> {
    parse_in(s, false, 0, u64::MAX as int)
}

/// `str::parse::<i16>`.
pub open spec fn parse_i16(s: Seq<char>) -> Option<int> {
    parse_in(s, true, i16::MIN as int, i16::MAX as int)
}

/// The character of a decimal digit.
pub open spec fn digit_char(d: int) -> char {
    (48 + d) as char
}

/// The decimal digits of a natural number, without leading zeros.
pub open spec fn nat_digits(n: nat) -> Seq<char>
    decreases n,
{
    if n < 10 {
        seq![digit_char(n as int)]
    } else {
        nat_digits(n / 10) + seq![digit_char((n % 10) as int)]
    }
}

/// An integer as `Display` writes it.
pub open spec fn int_text(n: int) -> Seq<char> {
    if n < 0 {
        seq!['-'] + nat_digits((-n) as nat)
    } else {
        nat_digits(n as nat)
    }
}

/// The value of digits grows as digits are added.
pub proof fn lemma_digits_value_prefix(s: Seq<char>, i: int)
    requires
        all_digits(s),
        0 <= i <= s.len(),
    ensures
        0 <= digits_value(s.take(i)) <= digits_value(s),
    decreases s.len(),
{
    if i == s.len() {
        assert(s.take(i) =~= s);
        lemma_digits_value_nonneg(s);
    } else {
        let t = s.drop_last();
        assert(all_digits(t)) by {
            assert forall|k: int| 0 <= k < t.len() implies #[trigger] is_digit(t[k]) by {
                assert(is_digit(s[k]));
            }
        }
        lemma_digits_value_prefix(t, i);
        assert(t.take(i) =~= s.take(i));
        assert(is_digit(s[s.len() - 1]));
    }
}

/// The value of digits is not negative.
pub proof fn lemma_digits_value_nonneg(s: Seq<char>)
    requires
        all_digits(s),
    ensures
        digits_value(s) >= 0,
    decreases s.len(),
{
    if s.len() > 0 {
        let t = s.drop_last();
        assert(all_digits(t)) by {
            assert forall|k: int| 0 <= k < t.len() implies #[trigger] is_digit(t[k]) by {
                assert(is_digit(s[k]));
            }
        }
        lemma_digits_value_nonneg(t);
        assert(is_digit(s[s.len() - 1]));
    }
}

/// Reads the digits `s[from..]` as a magnitude no greater than `bound`.
fn read_digits(s: &[char], from: usize, bound: u128) -> (r: Option<u128>)
    requires
        from <= s@.len(),
        bound <= u64::MAX as u128 + 1,
    ensures
        r matches Some(v) ==> all_digits(s@.skip(from as int)) && v == digits_value(
            s@.skip(from as int),
        ) && v <= bound,
        r is None ==> !all_digits(s@.skip(from as int)) || digits_value(s@.skip(from as int))
            > bound,
{
    let n = s.len();
    let ghost d = s@.skip(from as int);
    let mut acc: u128 = 0;
    let mut i: usize = from;
    while i < n
        invariant
            n == s@.len(),
            from <= i <= n,
            d == s@.skip(from as int),
            bound <= u64::MAX as u128 + 1,
            all_digits(d.take(i - from)),
            acc == digits_value(d.take(i - from)),
            acc <= bound,
        decreases n - i,
    {
        let c = s[i];
        if !('0' <= c && c <= '9') {
            proof {
                assert(d[i - from] == c);
                assert(!is_digit(d[i - from]));
            }
            return None;
        }
        let dv: u128 = ((c as u32) - ('0' as u32)) as u128;
        let ghost pre = d.take(i - from);
        let ghost nxt = d.take(i - from + 1);
        proof {
            assert(nxt.drop_last() =~= pre);
            assert(nxt.last() == c);
            assert(all_digits(nxt)) by {
                assert forall|k: int| 0 <= k < nxt.len() implies #[trigger] is_digit(nxt[k]) by {
                    if k < pre.len() {
                        assert(nxt[k] == pre[k]);
                        assert(is_digit(pre[k]));
                    }
                }
            }
        }
        acc = acc * 10 + dv;
        i = i + 1;
        if acc > bound {
            proof {
                if all_digits(d) {
                    lemma_digits_value_prefix(d, i - from);
                }
            }
            return None;
        }
    }
    proof {
        assert(d.take(i - from) =~= d);
    }
    Some(acc)
}

/// `str::parse` into an integer type whose values are `lo..=hi`.
pub fn parse_in_exec(s: &[char], signed: bool, lo: i128, hi: i128) -> (r: Option<i128>)
    requires
        -(u64::MAX as int) - 1 <= lo <= 0 <= hi <= u64::MAX,
    ensures
        r matches Some(v) ==> parse_in(s@, signed, lo as int, hi as int) == Some(v as int),
        r is None ==> parse_in(s@, signed, lo as int, hi as int) is None,
{
    let n = s.len();
    if n == 0 {
        return None;
    }
    let first = s[0];
    if first == '+' || (signed && first == '-') {
        proof {
            assert(s@.drop_first() =~= s@.skip(1));
        }
        if n == 1 {
            return None;
        }
        let negative = first == '-';
        let bound: u128 = if negative {
            (-lo) as u128
        } else {
            hi as u128
        };
        match read_digits(s, 1, bound) {
            Some(m) => {
                if negative {
                    Some(-(m as i128))
                } else {
                    Some(m as i128)
                }
            },
            None => None,
        }
    } else {
        proof {
            assert(s@.skip(0) =~= s@);
        }
        match read_digits(s, 0, hi as u128) {
            Some(m) => Some(m as i128),
            None => {
                proof {
                    if all_digits(s@) {
                        lemma_digits_value_nonneg(s@);
                    }
                }
                None
            },
        }
    }
}

/// `str::parse::<u16>`.
pub fn parse_u16_exec(s: &[char]) -> (r: Option<u16>)
    ensures
        r matches Some(v) ==> parse_u16(s@) == Some(v as int),
        r is None ==> parse_u16(s@) is None,
{
    match parse_in_exec(s, false, 0, 65535) {
        Some(v) => Some(v as u16),
        None => None,
    }
}

/// `str::parse::<u32>`.
pub fn parse_u32_exec(s: &[char]) -> (r: Option<u32>)
    ensures
        r matches Some(v) ==> parse_u32(s@) == Some(v as int),
        r is None ==> parse_u32(s@) is None,
{
    match parse_in_exec(s, false, 0, 4294967295) {
        Some(v) => Some(v as u32),
        None => None,
    }
}

/// `str::parse::<u64>`.
pub fn parse_u64_exec(s: &[char]) -> (r: Option<u64>)
    ensures
        r matches Some(v) ==> parse_u64(s@) == Some(v as int),
        r is None ==> parse_u64(s@) is None,
{
    match parse_in_exec(s, false, 0, 18446744073709551615) {
        Some(v) => Some(v as u64),
        None => None,
    }
}

/// `str::parse::<i16>`.
pub fn parse_i16_exec(s: &[char]) -> (r: Option<i16>)
    ensures
        r matches Some(v) ==> parse_i16(s@) == Some(v as int),
        r is None ==> parse_i16(s@) is None,
{
    match parse_in_exec(s, true, -32768, 32767) {
        Some(v) => Some(v as i16),
        None => None,
    }
}

/// The decimal digits of `n`.
pub fn nat_digits_exec(n: u128) -> (r: Vec<char>)
    ensures
        r@ == nat_digits(n as nat),
    decreases n,
{
    let d: u8 = (n % 10) as u8;
    let c: char = (48u8 + d) as char;
    if n < 10 {
        let mut r: Vec<char> = Vec::new();
        r.push(c);
        assert(r@ =~= nat_digits(n as nat));
        r
    } else {
        let mut r = nat_digits_exec(n / 10);
        r.push(c);
        assert(r@ =~= nat_digits(n as nat));
        r
    }
}

/// An integer as `Display` writes it.
pub fn int_text_exec(n: i128) -> (r: Vec<char>)
    ensures
        r@ == int_text(n as int),
{
    if n < 0 {
        let m: u128 = if n == i128::MIN {
            170141183460469231731687303715884105728u128
        } else {
            (-n) as u128
        };
        let digits = nat_digits_exec(m);
        let mut r: Vec<char> = Vec::new();
        r.push('-');
        let mut i: usize = 0;
        while i < digits.len()
            invariant
                i <= digits@.len(),
                r@ == seq!['-'] + digits@.take(i as int),
            decreases digits@.len() - i,
        {
            r.push(digits[i]);
            assert(digits@.take(i + 1) =~= digits@.take(i as int).push(digits@[i as int]));
            i = i + 1;
        }
        assert(digits@.take(digits@.len() as int) =~= digits@);
        r
    } else {
        nat_digits_exec(n as u128)
    }
}

/// A natural number as `Display` writes it.
pub fn nat_text_exec(n: u128) -> (r: Vec<char>)
    ensures
        r@ == int_text(n as int),
{
    nat_digits_exec(n)
}

} // verus!
