//! Decimal and hexadecimal text: formatting and parsing with exact contracts.

use vstd::prelude::*;

verus! {

/// The character of a digit `d` (`0 <= d < 16`): `0`-`9`, then `a`-`f`.
pub open spec fn digit_char(d: nat) -> char {
    if d < 10 {
        (48 + d) as char
    } else {
        (87 + d) as char
    }
}

/// Decimal representation of `n`, most significant digit first, no padding.
pub open spec fn decimal_digits(n: nat) -> Seq<char>
    decreases n,
{
    if n < 10 {
        seq![digit_char(n)]
    } else {
        decimal_digits(n / 10).push(digit_char(n % 10))
    }
}

/// Appends one character to a `String` (`String::push`).
#[verifier::external_body]
pub(crate) fn push_char(s: &mut String, c: char)
    ensures
        final(s)@ == old(s)@.push(c),
{
    s.push(c);
}

fn digit(d: u64) -> (c: char)
    requires
        d < 16,
    ensures
        c == digit_char(d as nat),
{
    if d < 10 {
        ((48 + d) as u8) as char
    } else {
        ((87 + d) as u8) as char
    }
}

/// Appends the decimal text of `n`.
pub fn push_decimal(s: &mut String, n: u64)
    ensures
        final(s)@ == old(s)@ + decimal_digits(n as nat),
    decreases n,
{
    if n >= 10 {
        push_decimal(s, n / 10);
    }
    push_char(s, digit(n % 10));
}

/// The digit characters: `0`-`9` for the values zero to nine, `a`-`f` for
/// ten to fifteen, and each reads back as its value.
pub proof fn lemma_digit_chars(d: nat)
    requires
        d < 16,
    ensures
        d < 10 ==> digit_char(d) as int == '0' as int + d && is_digit(digit_char(d)),
        d >= 10 ==> digit_char(d) as int == 'a' as int + (d - 10) && !is_digit(digit_char(d)),
        hex_digit_value(digit_char(d)) == d,
{
}

/// Four lowercase hexadecimal digits of `x < 65536`, zero-padded, as
/// `format!("{:04x}", x)` writes a `u16`.
pub open spec fn hex4(x: nat) -> Seq<char> {
    seq![
        digit_char(x / 4096),
        digit_char((x / 256) % 16),
        digit_char((x / 16) % 16),
        digit_char(x % 16),
    ]
}

/// The value of a lowercase hexadecimal digit.
pub open spec fn hex_digit_value(c: char) -> int {
    if '0' <= c && c <= '9' {
        c as int - 48
    } else {
        c as int - 87
    }
}

/// The four digits of `hex4(x)` are lowercase hexadecimal digits that
/// denote `x`, most significant first.
pub proof fn lemma_hex4_denotes(x: u16)
    ensures
        forall|i: int| 0 <= i < 4 ==> {
            let c = #[trigger] hex4(x as nat)[i];
            ('0' <= c && c <= '9') || ('a' <= c && c <= 'f')
        },
        4096 * hex_digit_value(hex4(x as nat)[0]) + 256 * hex_digit_value(hex4(x as nat)[1])
            + 16 * hex_digit_value(hex4(x as nat)[2]) + hex_digit_value(hex4(x as nat)[3]) == x,
{
    let h = hex4(x as nat);
    assert(x / 4096 < 16 && (x / 256) % 16 < 16 && (x / 16) % 16 < 16 && x % 16 < 16) by (bit_vector);
    assert(4096 * (x / 4096) + 256 * ((x / 256) % 16) + 16 * ((x / 16) % 16) + x % 16 == x)
        by (bit_vector);
    assert(hex_digit_value(h[0]) == x / 4096);
    assert(hex_digit_value(h[1]) == (x / 256) % 16);
    assert(hex_digit_value(h[2]) == (x / 16) % 16);
    assert(hex_digit_value(h[3]) == x % 16);
}

/// Appends the four-digit hexadecimal text of `x`.
pub fn push_hex4(s: &mut String, x: u16)
    ensures
        final(s)@ == old(s)@ + hex4(x as nat),
{
    let x: u64 = x as u64;
    push_char(s, digit(x / 4096));
    push_char(s, digit((x / 256) % 16));
    push_char(s, digit((x / 16) % 16));
    push_char(s, digit(x % 16));
    assert(s@ =~= old(s)@ + hex4(x as nat));
}

/// The decimal text of `n`, as `format!("{}", n)` writes it.
pub fn decimal_string(n: u64) -> (s: String)
    ensures
        s@ == decimal_digits(n as nat),
        s@.len() > 0,
        all_digits(s@),
        digits_value(s@) == n,
        n > 0 ==> s@[0] != '0',
        n == 0 ==> s@ == seq!['0'],
{
    proof {
        lemma_decimal_text(n as nat);
    }
    let mut s = String::new();
    push_decimal(&mut s, n);
    s
}


/// Whether `c` is one of the ASCII digits `0`-`9`.
pub open spec fn is_digit(c: char) -> bool {
    '0' <= c && c <= '9'
}

/// Every character of `s` is an ASCII digit.
pub open spec fn all_digits(s: Seq<char>) -> bool {
    forall|i: int| 0 <= i < s.len() ==> is_digit(#[trigger] s[i])
}

/// The number that a string of decimal digits denotes (leading zeros allowed).
pub open spec fn digits_value(s: Seq<char>) -> nat
    decreases s.len(),
{
    if s.len() == 0 {
        0
    } else {
        digits_value(s.drop_last()) * 10 + ((s.last() as int - 48) as nat)
    }
}

/// What follows an optional leading `+` sign.
pub open spec fn unsigned_digits(s: Seq<char>) -> Seq<char> {
    if s.len() > 0 && s[0] == '+' {
        s.drop_first()
    } else {
        s
    }
}

/// What `str::parse::<u32>` accepts: an optional `+`, then at least one
/// ASCII digit and nothing else, denoting a value that fits in a `u32`.
pub open spec fn parsed_u32(s: Seq<char>) -> Option<u32> {
    let d = unsigned_digits(s);
    if d.len() > 0 && all_digits(d) && digits_value(d) <= u32::MAX {
        Some(digits_value(d) as u32)
    } else {
        None
    }
}

/// How a digit string denotes its number: the empty string denotes zero, and
/// one more digit `c` at the end multiplies by ten and adds `c`'s value.
pub proof fn lemma_digits_value_push(t: Seq<char>, c: char)
    requires
        is_digit(c),
    ensures
        digits_value(Seq::<char>::empty()) == 0,
        digits_value(t.push(c)) == 10 * digits_value(t) + (c as int - '0' as int),
        0 <= c as int - '0' as int <= 9,
{
    assert(t.push(c).drop_last() =~= t);
}

/// Every string of ASCII digits that denotes a `u32`, with or without a
/// leading `+`, parses to that number.
pub proof fn lemma_parse_accepts_digits(t: Seq<char>)
    requires
        t.len() > 0,
        all_digits(t),
        digits_value(t) <= u32::MAX,
    ensures
        parsed_u32(t) == Some(digits_value(t) as u32),
        parsed_u32(seq!['+'] + t) == Some(digits_value(t) as u32),
{
    assert(is_digit(t[0]));
    assert((seq!['+'] + t).drop_first() =~= t);
}

/// A prefix of a digit string never denotes more than the whole string.
proof fn lemma_prefix_value_le(s: Seq<char>, k: int)
    requires
        all_digits(s),
        0 <= k <= s.len(),
    ensures
        digits_value(s.take(k)) <= digits_value(s),
    decreases s.len(),
{
    if k == s.len() {
        assert(s.take(k) =~= s);
    } else {
        let t = s.drop_last();
        assert(t.take(k) =~= s.take(k));
        assert(all_digits(t)) by {
            assert forall|i: int| 0 <= i < t.len() implies is_digit(#[trigger] t[i]) by {
                assert(t[i] == s[i]);
            }
        }
        lemma_prefix_value_le(t, k);
        assert(is_digit(s[s.len() - 1]));
    }
}

/// Parses a decimal `u32` exactly as `str::parse::<u32>` does, `None` standing
/// for its error.
pub fn parse_u32(s: &str) -> (r: Option<u32>)
    ensures
        r == parsed_u32(s@),
        s@.len() > 0 && all_digits(s@) && digits_value(s@) <= u32::MAX
            ==> r == Some(digits_value(s@) as u32),
        s@.len() > 1 && s@[0] == '+' && all_digits(s@.drop_first())
            && digits_value(s@.drop_first()) <= u32::MAX
            ==> r == Some(digits_value(s@.drop_first()) as u32),
        r matches Some(v) ==> {
            let d = if s@[0] == '+' { s@.drop_first() } else { s@ };
            &&& s@.len() > 0
            &&& d.len() > 0
            &&& all_digits(d)
            &&& digits_value(d) == v
        },
{
    proof {
        if s@.len() > 0 && all_digits(s@) {
            assert(is_digit(s@[0]));
        }
    }
    let n = s.unicode_len();
    let mut start: usize = 0;
    if n > 0 && s.get_char(0) == '+' {
        start = 1;
    }
    let ghost d = unsigned_digits(s@);
    assert(d =~= s@.subrange(start as int, n as int));
    if start == n {
        return None;
    }
    let mut acc: u64 = 0;
    let mut i: usize = start;
    assert(s@.subrange(start as int, start as int) =~= Seq::<char>::empty());
    while i < n
        invariant
            start < n,
            start <= i <= n,
            n == s@.len(),
            d == unsigned_digits(s@),
            d =~= s@.subrange(start as int, n as int),
            all_digits(s@.subrange(start as int, i as int)),
            acc == digits_value(s@.subrange(start as int, i as int)),
            acc <= u32::MAX,
        decreases n - i,
    {
        let c = s.get_char(i);
        if c < '0' || c > '9' {
            assert(d[i - start] == c);
            assert(!is_digit(d[i - start]));
            return None;
        }
        let ghost prev = s@.subrange(start as int, i as int);
        let ghost next = s@.subrange(start as int, i + 1);
        assert(next.drop_last() =~= prev);
        assert(next.last() == c);
        let v: u64 = (c as u32 - 48) as u64;
        acc = acc * 10 + v;
        assert(all_digits(next)) by {
            assert forall|j: int| 0 <= j < next.len() implies is_digit(#[trigger] next[j]) by {
                if j < prev.len() {
                    assert(next[j] == prev[j]);
                }
            }
        }
        if acc > 0xffff_ffff {
            proof {
                if all_digits(d) {
                    assert(d.take(next.len() as int) =~= next);
                    lemma_prefix_value_le(d, next.len() as int);
                }
            }
            return None;
        }
        i = i + 1;
    }
    Some(acc as u32)
}

/// The decimal text of `n` is a nonempty string of ASCII digits that
/// denotes `n`, without leading zero: it is `0` for zero, and starts with a
/// digit other than `0` otherwise.
pub proof fn lemma_decimal_text(n: nat)
    ensures
        decimal_digits(n).len() > 0,
        all_digits(decimal_digits(n)),
        digits_value(decimal_digits(n)) == n,
        n > 0 ==> decimal_digits(n)[0] != '0',
        n == 0 ==> decimal_digits(n) == seq!['0'],
    decreases n,
{
    let s = decimal_digits(n);
    if n < 10 {
        assert(s.drop_last() =~= Seq::<char>::empty());
        assert(s.last() as int == 48 + n);
        assert(digits_value(s.drop_last()) == 0);
    } else {
        lemma_decimal_text(n / 10);
        let t = decimal_digits(n / 10);
        assert(s[0] == t[0]);
        assert(s.drop_last() =~= t);
        assert(s.last() as int == 48 + n % 10);
        assert(n == (n / 10) * 10 + n % 10) by (nonlinear_arith);
        assert forall|i: int| 0 <= i < s.len() implies is_digit(#[trigger] s[i]) by {
            if i < t.len() {
                assert(s[i] == t[i]);
            }
        }
    }
}

/// Round trip: parsing the decimal text of a `u32` gives the number back.
pub proof fn lemma_decimal_round_trip(n: u32)
    ensures
        parsed_u32(decimal_digits(n as nat)) == Some(n),
{
    lemma_decimal_text(n as nat);
    let s = decimal_digits(n as nat);
    assert(is_digit(s[0]));
    assert(unsigned_digits(s) == s);
}

} // verus!
