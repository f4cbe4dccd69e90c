use vstd::prelude::*;

use crate::auth::{spec_check, verify_api_key, AuthError, HeaderLookup};
use crate::number::{hex_value, law_hex_canonical, hex_digits, is_hex_digit_char, law_hex_injective, lemma_hex_digits_value, push_hex};
use crate::text::lemma_split_at_separator;

verus! {

/// Lets an administrative request through only when its key check succeeds.
pub fn check_admin(secret: &Option<String>, header: &HeaderLookup) -> (r: Result<(), AuthError>)
    ensures
        r == spec_check(*secret, *header),
{
    if !verify_api_key(secret, header)? {
        return Err(AuthError::Unauthorized);
    }
    Ok(())
}

/// A new key: `nullith_`, then the time and two random numbers in lowercase hexadecimal,
/// separated by `_`.
pub open spec fn spec_secure_key(ts: u64, rnd: u64, rnd2: u64) -> Seq<char> {
    "nullith_"@ + hex_digits(ts as nat) + "_"@ + hex_digits(rnd as nat) + "_"@ + hex_digits(
        rnd2 as nat,
    )
}

/// Builds a new API key from a time stamp and two random numbers.
pub fn generate_secure_key(ts: u64, rnd: u64, rnd2: u64) -> (key: String)
    ensures
        key@ == spec_secure_key(ts, rnd, rnd2),
{
    let mut key = String::from_str("nullith_");
    push_hex(&mut key, ts);
    key.append("_");
    push_hex(&mut key, rnd);
    key.append("_");
    push_hex(&mut key, rnd2);
    key
}


/// A hexadecimal rendering holds no `_`.
proof fn lemma_hex_has_no_underscore(n: nat)
    ensures
        forall|i: int| 0 <= i < hex_digits(n).len() ==> hex_digits(n)[i] != '_',
{
    lemma_hex_digits_value(n);
    assert forall|i: int| 0 <= i < hex_digits(n).len() implies hex_digits(n)[i] != '_' by {
        assert(is_hex_digit_char(hex_digits(n)[i]));
    }
}

/// Law: two keys from `generate_secure_key` are equal only when they were built from the same time stamp and
/// the same two random numbers.
pub proof fn law_secure_key_injective(ts1: u64, a1: u64, b1: u64, ts2: u64, a2: u64, b2: u64)
    requires
        spec_secure_key(ts1, a1, b1) == spec_secure_key(ts2, a2, b2),
    ensures
        ts1 == ts2,
        a1 == a2,
        b1 == b2,
{
    reveal_strlit("_");
    reveal_strlit("nullith_");
    assert("_"@ =~= seq!['_']);
    let p = "nullith_"@;
    let h = |n: u64| hex_digits(n as nat);
    let rest1 = h(ts1) + seq!['_'] + (h(a1) + seq!['_'] + h(b1));
    let rest2 = h(ts2) + seq!['_'] + (h(a2) + seq!['_'] + h(b2));
    assert(spec_secure_key(ts1, a1, b1) =~= p + rest1);
    assert(spec_secure_key(ts2, a2, b2) =~= p + rest2);
    assert(rest1 =~= (p + rest1).subrange(p.len() as int, (p + rest1).len() as int));
    assert(rest2 =~= (p + rest2).subrange(p.len() as int, (p + rest2).len() as int));
    lemma_hex_has_no_underscore(ts1 as nat);
    lemma_hex_has_no_underscore(ts2 as nat);
    lemma_hex_has_no_underscore(a1 as nat);
    lemma_hex_has_no_underscore(a2 as nat);
    lemma_split_at_separator(h(ts1), h(a1) + seq!['_'] + h(b1), h(ts2), h(a2) + seq!['_'] + h(b2), '_');
    lemma_split_at_separator(h(a1), h(b1), h(a2), h(b2), '_');
    law_hex_injective(ts1 as nat, ts2 as nat);
    law_hex_injective(a1 as nat, a2 as nat);
    law_hex_injective(b1 as nat, b2 as nat);
}


/// Law: a key reads back as its three numbers: `nullith_`, then runs of lowercase hexadecimal
/// digits worth the time stamp and the two random numbers, each without a leading zero,
/// separated by `_`.
pub proof fn law_secure_key_reads_back(ts: u64, rnd: u64, rnd2: u64)
    ensures
        exists|a: Seq<char>, b: Seq<char>, c: Seq<char>|
            {
                &&& spec_secure_key(ts, rnd, rnd2) == "nullith_"@ + a + seq!['_'] + b + seq!['_'] + c
                &&& hex_value(a) == ts && hex_value(b) == rnd && hex_value(c) == rnd2
                &&& a.len() > 0 && (a[0] == '0' ==> ts == 0)
                &&& b.len() > 0 && (b[0] == '0' ==> rnd == 0)
                &&& c.len() > 0 && (c[0] == '0' ==> rnd2 == 0)
                &&& forall|i: int| 0 <= i < a.len() ==> is_hex_digit_char(#[trigger] a[i])
                &&& forall|i: int| 0 <= i < b.len() ==> is_hex_digit_char(#[trigger] b[i])
                &&& forall|i: int| 0 <= i < c.len() ==> is_hex_digit_char(#[trigger] c[i])
            },
{
    reveal_strlit("_");
    assert("_"@ =~= seq!['_']);
    law_hex_canonical(ts as nat);
    law_hex_canonical(rnd as nat);
    law_hex_canonical(rnd2 as nat);
    let a = hex_digits(ts as nat);
    let b = hex_digits(rnd as nat);
    let c = hex_digits(rnd2 as nat);
    assert(spec_secure_key(ts, rnd, rnd2) =~= "nullith_"@ + a + seq!['_'] + b + seq!['_'] + c);
}

} // verus!
