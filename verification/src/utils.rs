use vstd::prelude::*;

use crate::text::lemma_split_at_separator;
use crate::number::{all_digits, digits_value, law_decimal_canonical, decimal_digits, is_digit_char, lemma_decimal_digits_value, law_decimal_injective, push_decimal};

verus! {

/// An identifier made of a time stamp and a random number, in decimal, joined by `-`.
pub open spec fn spec_uuid(ts: u64, rnd: u64) -> Seq<char> {
    decimal_digits(ts as nat) + "-"@ + decimal_digits(rnd as nat)
}

/// Builds an identifier from a time stamp and a random number.
pub fn uuid(ts: u64, rnd: u64) -> (id: String)
    ensures
        id@ == spec_uuid(ts, rnd),
{
    let mut id = String::new();
    push_decimal(&mut id, ts);
    id.append("-");
    push_decimal(&mut id, rnd);
    assert(id@ =~= spec_uuid(ts, rnd));
    id
}

/// Law: two identifiers are equal only when they were built from the same time stamp and
/// the same random number.
pub proof fn law_uuid_injective(ts1: u64, rnd1: u64, ts2: u64, rnd2: u64)
    requires
        spec_uuid(ts1, rnd1) == spec_uuid(ts2, rnd2),
    ensures
        ts1 == ts2,
        rnd1 == rnd2,
{
    reveal_strlit("-");
    assert("-"@ =~= seq!['-']);
    lemma_decimal_digits_value(ts1 as nat);
    lemma_decimal_digits_value(ts2 as nat);
    let x1 = decimal_digits(ts1 as nat);
    let x2 = decimal_digits(ts2 as nat);
    assert forall|i: int| 0 <= i < x1.len() implies x1[i] != '-' by {
        assert(is_digit_char(x1[i]));
    }
    assert forall|i: int| 0 <= i < x2.len() implies x2[i] != '-' by {
        assert(is_digit_char(x2[i]));
    }
    lemma_split_at_separator(x1, decimal_digits(rnd1 as nat), x2, decimal_digits(rnd2 as nat), '-');
    law_decimal_injective(ts1 as nat, ts2 as nat);
    law_decimal_injective(rnd1 as nat, rnd2 as nat);
}


/// Law: an identifier reads back as its two numbers: it is a run of decimal digits worth the
/// time stamp, with no leading zero, then `-`, then a run of decimal digits worth the random
/// number, with no leading zero.
pub proof fn law_uuid_reads_back(ts: u64, rnd: u64)
    ensures
        exists|a: Seq<char>, b: Seq<char>|
            {
                &&& spec_uuid(ts, rnd) == a + seq!['-'] + b
                &&& a.len() > 0 && all_digits(a) && digits_value(a) == ts && (a[0] == '0' ==> ts == 0)
                &&& b.len() > 0 && all_digits(b) && digits_value(b) == rnd && (b[0] == '0' ==> rnd == 0)
            },
{
    reveal_strlit("-");
    assert("-"@ =~= seq!['-']);
    law_decimal_canonical(ts as nat);
    law_decimal_canonical(rnd as nat);
    let a = decimal_digits(ts as nat);
    let b = decimal_digits(rnd as nat);
    assert(spec_uuid(ts, rnd) =~= a + seq!['-'] + b);
}

} // verus!
