use vstd::prelude::*;

verus! {

/// The character that writes the digit `d` (`0`-`9`, then lowercase `a`-`f`).
pub open spec fn digit_char(d: nat) -> char {
    if d < 10 {
        (d + 48) as char
    } else {
        (d + 87) as char
    }
}

/// The decimal digits of `n`, most significant first, without leading zeros.
pub open spec fn decimal_digits(n: nat) -> Seq<char>
    decreases n,
{
    if n < 10 {
        seq![digit_char(n)]
    } else {
        decimal_digits(n / 10).push(digit_char(n % 10))
    }
}

/// The lowercase hexadecimal digits of `n`, most significant first, without leading zeros.
pub open spec fn hex_digits(n: nat) -> Seq<char>
    decreases n,
{
    if n < 16 {
        seq![digit_char(n)]
    } else {
        hex_digits(n / 16).push(digit_char(n % 16))
    }
}

fn digit(d: u64) -> (c: char)
    requires
        d < 16,
    ensures
        c == digit_char(d as nat),
{
    let b: u8 = d as u8;
    if d < 10 {
        (b + 48) as char
    } else {
        (b + 87) as char
    }
}

/// Appends the decimal digits of `n` to `s`.
pub fn push_decimal(s: &mut String, n: u64)
    ensures
        final(s)@ == old(s)@ + decimal_digits(n as nat),
    decreases n,
{
    if n >= 10 {
        push_decimal(s, n / 10);
    }
    s.push(digit(n % 10));
}

/// Appends the lowercase hexadecimal digits of `n` to `s`.
pub fn push_hex(s: &mut String, n: u64)
    ensures
        final(s)@ == old(s)@ + hex_digits(n as nat),
    decreases n,
{
    if n >= 16 {
        push_hex(s, n / 16);
    }
    s.push(digit(n % 16));
}

/// `n` written in decimal.
pub fn decimal_string(n: u64) -> (s: String)
    ensures
        s@ == decimal_digits(n as nat),
{
    let mut s = String::new();
    push_decimal(&mut s, n);
    assert(s@ =~= decimal_digits(n as nat));
    s
}

/// `n` written in lowercase hexadecimal.
pub fn hex_string(n: u64) -> (s: String)
    ensures
        s@ == hex_digits(n as nat),
{
    let mut s = String::new();
    push_hex(&mut s, n);
    assert(s@ =~= hex_digits(n as nat));
    s
}


/// Whether `c` is one of the ASCII digits `0`-`9`.
pub open spec fn is_digit_char(c: char) -> bool {
    '0' <= c <= '9'
}

/// Whether every character of `s` is an ASCII digit.
pub open spec fn all_digits(s: Seq<char>) -> bool {
    forall|i: int| 0 <= i < s.len() ==> is_digit_char(#[trigger] s[i])
}

/// The value of a decimal digit character.
pub open spec fn digit_value(c: char) -> nat {
    if is_digit_char(c) {
        (c as int - 48) as nat
    } else {
        0
    }
}

/// The number written by the decimal digits `s` (most significant first).
pub open spec fn digits_value(s: Seq<char>) -> nat
    decreases s.len(),
{
    if s.len() == 0 {
        0
    } else {
        digits_value(s.drop_last()) * 10 + digit_value(s.last())
    }
}

/// What `str::parse::<i64>` accepts and gives back: an optional `+` or `-` sign, then at
/// least one ASCII digit, and a value that fits in an `i64`.
pub open spec fn spec_parse_i64(s: Seq<char>) -> Option<i64> {
    let signed = s.len() > 0 && (s[0] == '-' || s[0] == '+');
    let body = if signed { s.drop_first() } else { s };
    if body.len() == 0 || !all_digits(body) {
        None
    } else {
        let v: int = if s[0] == '-' { -digits_value(body) } else { digits_value(body) as int };
        if i64::MIN <= v <= i64::MAX { Some(v as i64) } else { None }
    }
}

/// A prefix of a digit string is worth no more than the whole string.
proof fn lemma_digits_value_prefix(s: Seq<char>, j: int)
    requires
        0 <= j <= s.len(),
    ensures
        digits_value(s.take(j)) <= digits_value(s),
    decreases s.len(),
{
    if j < s.len() {
        lemma_digits_value_prefix(s.drop_last(), j);
        assert(s.drop_last().take(j) =~= s.take(j));
    } else {
        assert(s.take(j) =~= s);
    }
}

/// Parses a signed decimal integer as `str::parse::<i64>` does.
pub fn parse_i64(s: &str) -> (r: Option<i64>)
    ensures
        r == spec_parse_i64(s@),
{
    let v = crate::text::chars_of(s);
    let n: usize = v.len();
    let mut start: usize = 0;
    let mut negative = false;
    if n > 0 && (v[0] == '-' || v[0] == '+') {
        negative = v[0] == '-';
        start = 1;
    }
    let ghost body = v@.subrange(start as int, n as int);
    assert(body =~= (if start == 1 { s@.drop_first() } else { s@ }));
    if start == n {
        return None;
    }
    let limit: u128 = if negative { 9223372036854775808 } else { 9223372036854775807 };
    let mut acc: u128 = 0;
    let mut i: usize = start;
    assert(body.take(0) =~= Seq::<char>::empty());
    while i < n
        invariant
            v@ == s@,
            n == v@.len(),
            start <= i <= n,
            body == v@.subrange(start as int, n as int),
            body == (if start == 1 { s@.drop_first() } else { s@ }),
            (start == 1) == (s@.len() > 0 && (s@[0] == '-' || s@[0] == '+')),
            negative == (s@.len() > 0 && s@[0] == '-'),
            limit == (if negative { 9223372036854775808u128 } else { 9223372036854775807u128 }),
            acc == digits_value(body.take(i - start)),
            acc <= limit,
            all_digits(body.take(i - start)),
        decreases n - i,
    {
        let c = v[i];
        assert(body[i - start] == c);
        if c < '0' || c > '9' {
            assert(!is_digit_char(body[i - start]));
            return None;
        }
        let d: u128 = ((c as u32) - 48) as u128;
        let ghost pre = body.take(i - start);
        assert(body.take(i + 1 - start) =~= pre.push(c));
        assert(body.take(i + 1 - start).drop_last() =~= pre);
        acc = acc * 10 + d;
        if acc > limit {
            proof {
                if all_digits(body) {
                    lemma_digits_value_prefix(body, i + 1 - start);
                }
            }
            return None;
        }
        i = i + 1;
    }
    assert(body.take(n - start) =~= body);
    if negative {
        Some((0 - (acc as i128)) as i64)
    } else {
        Some(acc as i64)
    }
}


/// The decimal rendering of `n` is a non-empty string of digits worth `n`.
pub proof fn lemma_decimal_digits_value(n: nat)
    ensures
        decimal_digits(n).len() > 0,
        all_digits(decimal_digits(n)),
        digits_value(decimal_digits(n)) == n,
    decreases n,
{
    let d = digit_char(n % 10);
    assert(d as int == n % 10 + 48);
    assert(is_digit_char(d));
    assert(digit_value(d) == n % 10);
    let s = decimal_digits(n);
    assert(s.last() == d);
    if n >= 10 {
        lemma_decimal_digits_value(n / 10);
        assert(s.drop_last() =~= decimal_digits(n / 10));
        assert(n == (n / 10) * 10 + n % 10);
    } else {
        assert(s.drop_last() =~= Seq::<char>::empty());
        assert(digits_value(Seq::<char>::empty()) == 0);
    }
}

/// Law: the decimal renderings of two numbers are equal only when the numbers are.
pub proof fn law_decimal_injective(a: nat, b: nat)
    ensures
        decimal_digits(a) == decimal_digits(b) ==> a == b,
{
    lemma_decimal_digits_value(a);
    lemma_decimal_digits_value(b);
}

/// `n` written in decimal, with a leading `-` when it is negative.
pub open spec fn signed_decimal_digits(n: int) -> Seq<char> {
    if n < 0 {
        "-"@ + decimal_digits((-n) as nat)
    } else {
        decimal_digits(n as nat)
    }
}

/// Law: parsing the decimal rendering of any `i64` gives it back.
pub proof fn law_parse_decimal_roundtrip(n: i64)
    ensures
        spec_parse_i64(signed_decimal_digits(n as int)) == Some(n),
{
    reveal_strlit("-");
    let m: nat = if n < 0 { (-n) as nat } else { n as nat };
    lemma_decimal_digits_value(m);
    let d = decimal_digits(m);
    let s = signed_decimal_digits(n as int);
    assert(is_digit_char(d[0]));
    if n < 0 {
        assert(s =~= seq!['-'] + d);
        assert(s.drop_first() =~= d);
    } else {
        assert(s == d);
    }
}

/// Whether `c` is a lowercase hexadecimal digit.
pub open spec fn is_hex_digit_char(c: char) -> bool {
    ('0' <= c <= '9') || ('a' <= c <= 'f')
}

/// The value of a lowercase hexadecimal digit character.
pub open spec fn hex_digit_value(c: char) -> nat {
    if '0' <= c <= '9' {
        (c as int - 48) as nat
    } else if 'a' <= c <= 'f' {
        (c as int - 87) as nat
    } else {
        0
    }
}

/// The number written by the hexadecimal digits `s` (most significant first).
pub open spec fn hex_value(s: Seq<char>) -> nat
    decreases s.len(),
{
    if s.len() == 0 {
        0
    } else {
        hex_value(s.drop_last()) * 16 + hex_digit_value(s.last())
    }
}

/// The hexadecimal rendering of `n` is made of hexadecimal digits and is worth `n`.
pub proof fn lemma_hex_digits_value(n: nat)
    ensures
        forall|i: int| 0 <= i < hex_digits(n).len() ==> is_hex_digit_char(#[trigger] hex_digits(n)[i]),
        hex_value(hex_digits(n)) == n,
    decreases n,
{
    let d = digit_char(n % 16);
    assert(d as int == (if n % 16 < 10 { n % 16 + 48 } else { n % 16 + 87 }));
    assert(is_hex_digit_char(d));
    assert(hex_digit_value(d) == n % 16);
    let s = hex_digits(n);
    assert(s.last() == d);
    if n >= 16 {
        lemma_hex_digits_value(n / 16);
        assert(s.drop_last() =~= hex_digits(n / 16));
        assert(n == (n / 16) * 16 + n % 16);
        assert forall|i: int| 0 <= i < s.len() implies is_hex_digit_char(#[trigger] s[i]) by {
            if i < s.len() - 1 {
                assert(s[i] == hex_digits(n / 16)[i]);
            }
        }
    } else {
        assert(s.drop_last() =~= Seq::<char>::empty());
        assert(hex_value(Seq::<char>::empty()) == 0);
    }
}

/// Law: the hexadecimal renderings of two numbers are equal only when the numbers are.
pub proof fn law_hex_injective(a: nat, b: nat)
    ensures
        hex_digits(a) == hex_digits(b) ==> a == b,
{
    lemma_hex_digits_value(a);
    lemma_hex_digits_value(b);
}


/// Law: the decimal rendering of `n` is the usual one: a non-empty string of digits worth
/// `n`, with no leading zero unless `n` is zero itself (so it has the fewest digits that
/// write `n`).
pub proof fn law_decimal_canonical(n: nat)
    ensures
        decimal_digits(n).len() > 0,
        all_digits(decimal_digits(n)),
        digits_value(decimal_digits(n)) == n,
        decimal_digits(n)[0] == '0' ==> n == 0,
        n == 0 ==> decimal_digits(n) == seq!['0'],
    decreases n,
{
    lemma_decimal_digits_value(n);
    if n >= 10 {
        law_decimal_canonical(n / 10);
        assert(decimal_digits(n)[0] == decimal_digits(n / 10)[0]);
    } else {
        assert((n + 48) as char == '0' ==> n == 0);
    }
}

/// Law: the hexadecimal rendering of `n` is the usual one: lowercase digits worth `n`, with
/// no leading zero unless `n` is zero itself.
pub proof fn law_hex_canonical(n: nat)
    ensures
        hex_digits(n).len() > 0,
        forall|i: int| 0 <= i < hex_digits(n).len() ==> is_hex_digit_char(#[trigger] hex_digits(n)[i]),
        hex_value(hex_digits(n)) == n,
        hex_digits(n)[0] == '0' ==> n == 0,
        n == 0 ==> hex_digits(n) == seq!['0'],
    decreases n,
{
    lemma_hex_digits_value(n);
    if n >= 16 {
        law_hex_canonical(n / 16);
        assert(hex_digits(n)[0] == hex_digits(n / 16)[0]);
    } else {
        assert(digit_char(n) as int == (if n < 10 { n + 48 } else { n + 87 }));
    }
}


/// Law: `parse_i64` accepts every string of one or more ASCII digits, alone or after `+` or
/// `-`, whose value fits in an `i64`, and gives that value (negated after `-`).
pub proof fn law_parse_accepts_signed_digits(d: Seq<char>)
    requires
        d.len() > 0,
        all_digits(d),
    ensures
        digits_value(d) <= i64::MAX ==> spec_parse_i64(d) == Some(digits_value(d) as i64),
        digits_value(d) <= i64::MAX ==> spec_parse_i64(seq!['+'] + d) == Some(digits_value(d) as i64),
        digits_value(d) <= i64::MAX + 1 ==> spec_parse_i64(seq!['-'] + d) == Some((-digits_value(d)) as i64),
        digits_value(d) > i64::MAX ==> spec_parse_i64(d) is None && spec_parse_i64(seq!['+'] + d) is None,
        digits_value(d) > i64::MAX + 1 ==> spec_parse_i64(seq!['-'] + d) is None,
{
    assert(is_digit_char(d[0]));
    assert((seq!['+'] + d).drop_first() =~= d);
    assert((seq!['-'] + d).drop_first() =~= d);
}

/// Law: whatever `parse_i64` accepts is one or more ASCII digits, alone or after one `+` or
/// `-`; anything else (an empty string, a lone sign, a space, a letter, a second sign) is
/// refused.
pub proof fn law_parse_accepts_only_signed_digits(s: Seq<char>)
    ensures
        spec_parse_i64(s) is Some ==> s.len() > 0 && ({
            let body = if s[0] == '+' || s[0] == '-' { s.drop_first() } else { s };
            body.len() > 0 && all_digits(body)
        }),
{
}

} // verus!
