use vstd::prelude::*;

verus! {

broadcast use vstd::string::group_string_axioms;

/// `String::push` appends the given character at the end of the string.
pub assume_specification[ String::push ](s: &mut String, ch: char)
    ensures
        final(s)@ == old(s)@.push(ch),
;

/// The characters of `s`, in order.
pub fn chars_of(s: &str) -> (v: Vec<char>)
    ensures
        v@ == s@,
{
    let mut v: Vec<char> = Vec::new();
    for c in it: s.chars()
        invariant
            v@ == it.seq().take(it.index() as int),
    {
        v.push(c);
    }
    v
}


/// A string made of the characters `v[from..to]`.
pub fn string_from_chars(v: &Vec<char>, from: usize, to: usize) -> (s: String)
    requires
        from <= to <= v@.len(),
    ensures
        s@ == v@.subrange(from as int, to as int),
{
    let mut s = String::new();
    let mut i: usize = from;
    while i < to
        invariant
            from <= i <= to <= v@.len(),
            s@ == v@.subrange(from as int, i as int),
        decreases to - i,
    {
        s.push(v[i]);
        i = i + 1;
    }
    s
}

/// Whether two character vectors hold the same characters.
pub fn chars_equal(a: &Vec<char>, b: &Vec<char>) -> (eq: bool)
    ensures
        eq == (a@ == b@),
{
    if a.len() != b.len() {
        return false;
    }
    let mut i: usize = 0;
    while i < a.len()
        invariant
            a@.len() == b@.len(),
            i <= a@.len(),
            a@.take(i as int) == b@.take(i as int),
        decreases a@.len() - i,
    {
        if a[i] != b[i] {
            assert(a@[i as int] != b@[i as int]);
            return false;
        }
        assert(a@.take(i + 1) == a@.take(i as int).push(a@[i as int]));
        assert(b@.take(i + 1) == b@.take(i as int).push(b@[i as int]));
        i = i + 1;
    }
    assert(a@.take(a@.len() as int) == a@);
    assert(b@.take(b@.len() as int) == b@);
    true
}

/// Whether the characters of `s` are exactly those of the string `t`.
pub fn chars_equal_str(s: &Vec<char>, t: &str) -> (eq: bool)
    ensures
        eq == (s@ == t@),
{
    let tv = chars_of(t);
    chars_equal(s, &tv)
}

/// `s` ends with `suffix`.
pub open spec fn spec_ends_with(s: Seq<char>, suffix: Seq<char>) -> bool {
    suffix.len() <= s.len() && s.subrange(s.len() - suffix.len(), s.len() as int) == suffix
}

/// `s` starts with `prefix`.
pub open spec fn spec_starts_with(s: Seq<char>, prefix: Seq<char>) -> bool {
    prefix.len() <= s.len() && s.subrange(0, prefix.len() as int) == prefix
}

/// Whether the string `s` ends with the string `suffix`.
pub fn ends_with(s: &str, suffix: &str) -> (b: bool)
    ensures
        b == spec_ends_with(s@, suffix@),
{
    let sv = chars_of(s);
    let tv = chars_of(suffix);
    if tv.len() > sv.len() {
        return false;
    }
    let off: usize = sv.len() - tv.len();
    let mut i: usize = 0;
    while i < tv.len()
        invariant
            sv@ == s@,
            tv@ == suffix@,
            tv@.len() <= sv@.len(),
            off + tv@.len() == sv.len(),
            i <= tv@.len(),
            forall|j: int| 0 <= j < i ==> sv@[off + j] == tv@[j],
        decreases tv@.len() - i,
    {
        if sv[off + i] != tv[i] {
            assert(s@.subrange(off as int, s@.len() as int)[i as int] != suffix@[i as int]);
            return false;
        }
        i = i + 1;
    }
    assert(s@.subrange(off as int, s@.len() as int) =~= suffix@);
    true
}

/// What is left of `s` after `prefix`, when `s` starts with `prefix`.
pub open spec fn spec_strip_prefix(s: Seq<char>, prefix: Seq<char>) -> Option<Seq<char>> {
    if spec_starts_with(s, prefix) {
        Some(s.subrange(prefix.len() as int, s.len() as int))
    } else {
        None
    }
}

/// The rest of `s` after `prefix`, or `None` when `s` does not start with `prefix`.
pub fn strip_prefix(s: &str, prefix: &str) -> (r: Option<String>)
    ensures
        r matches Some(rest) ==> spec_strip_prefix(s@, prefix@) == Some(rest@),
        r is None ==> spec_strip_prefix(s@, prefix@) is None,
{
    let sv = chars_of(s);
    let pv = chars_of(prefix);
    if pv.len() > sv.len() {
        return None;
    }
    let mut i: usize = 0;
    while i < pv.len()
        invariant
            sv@ == s@,
            pv@ == prefix@,
            pv@.len() <= sv@.len(),
            i <= pv@.len(),
            forall|j: int| 0 <= j < i ==> sv@[j] == pv@[j],
        decreases pv@.len() - i,
    {
        if sv[i] != pv[i] {
            assert(s@.subrange(0, prefix@.len() as int)[i as int] != prefix@[i as int]);
            return None;
        }
        i = i + 1;
    }
    assert(s@.subrange(0, prefix@.len() as int) =~= prefix@);
    Some(string_from_chars(&sv, pv.len(), sv.len()))
}


/// Two texts made of a part without `sep`, then `sep`, then a rest, are equal only when their
/// first parts are equal and their rests are equal.
pub proof fn lemma_split_at_separator(x1: Seq<char>, y1: Seq<char>, x2: Seq<char>, y2: Seq<char>, sep: char)
    requires
        forall|i: int| 0 <= i < x1.len() ==> x1[i] != sep,
        forall|i: int| 0 <= i < x2.len() ==> x2[i] != sep,
        x1 + seq![sep] + y1 == x2 + seq![sep] + y2,
    ensures
        x1 == x2,
        y1 == y2,
{
    let u = x1 + seq![sep] + y1;
    assert(u =~= x2 + seq![sep] + y2);
    if x1.len() < x2.len() {
        assert(u[x1.len() as int] == sep);
        assert(u[x1.len() as int] == x2[x1.len() as int]);
    }
    if x2.len() < x1.len() {
        assert(u[x2.len() as int] == sep);
        assert(u[x2.len() as int] == x1[x2.len() as int]);
    }
    assert(x1 =~= u.subrange(0, x1.len() as int));
    assert(x2 =~= u.subrange(0, x2.len() as int));
    assert(y1 =~= u.subrange(x1.len() as int + 1, u.len() as int));
    assert(y2 =~= u.subrange(x2.len() as int + 1, u.len() as int));
}


/// Law: `s` ends with `suffix` exactly when `s` is some text followed by `suffix`.
pub proof fn law_ends_with_means_suffix(s: Seq<char>, suffix: Seq<char>)
    ensures
        spec_ends_with(s, suffix) <==> exists|p: Seq<char>| s == p + suffix,
{
    if spec_ends_with(s, suffix) {
        let p = s.subrange(0, s.len() - suffix.len());
        assert(s =~= p + suffix);
    }
    if exists|p: Seq<char>| s == p + suffix {
        let p = choose|p: Seq<char>| s == p + suffix;
        assert(s.subrange(s.len() - suffix.len(), s.len() as int) =~= suffix);
    }
}

/// Law: stripping `prefix` from `s` gives `rest` exactly when `s` is `prefix` followed by
/// `rest`, and gives nothing when `s` does not begin with `prefix`.
pub proof fn law_strip_prefix_means_split(s: Seq<char>, prefix: Seq<char>, rest: Seq<char>)
    ensures
        spec_strip_prefix(s, prefix) == Some(rest) <==> s == prefix + rest,
        spec_strip_prefix(s, prefix) is None <==> !(exists|r: Seq<char>| s == prefix + r),
{
    if s == prefix + rest {
        assert(s.subrange(0, prefix.len() as int) =~= prefix);
        assert(s.subrange(prefix.len() as int, s.len() as int) =~= rest);
    }
    if spec_strip_prefix(s, prefix) == Some(rest) {
        assert(s =~= prefix + rest);
    }
    if spec_strip_prefix(s, prefix) is Some {
        let r = s.subrange(prefix.len() as int, s.len() as int);
        assert(s =~= prefix + r);
    }
    if exists|r: Seq<char>| s == prefix + r {
        let r = choose|r: Seq<char>| s == prefix + r;
        assert(s.subrange(0, prefix.len() as int) =~= prefix);
    }
}

} // verus!
