//! Character-sequence helpers with exact specifications.
use vstd::prelude::*;

verus! {

/// Appends one character to a string.
///
/// Wraps `String::push`, which the standard library documents as appending
/// the given `char` to the end of the string.
#[verifier::external_body]
pub fn push_char(s: &mut String, c: char)
    ensures
        final(s)@ == old(s)@.push(c),
{
    s.push(c);
}

/// Parts joined by a separator, as `[a, b, c].join(sep)` gives them.
pub open spec fn joined(parts: Seq<Seq<char>>, sep: Seq<char>) -> Seq<char>
    decreases parts.len(),
{
    if parts.len() == 0 {
        Seq::empty()
    } else if parts.len() == 1 {
        parts[0]
    } else {
        joined(parts.drop_last(), sep) + sep + parts.last()
    }
}

/// The characters of a string slice, one by one, in a vector.
pub fn chars_of(s: &str) -> (v: Vec<char>)
    ensures
        v@ == s@,
{
    let n = s.unicode_len();
    let mut v: Vec<char> = Vec::new();
    let mut i: usize = 0;
    while i < n
        invariant
            n == s@.len(),
            i <= n,
            v@ == s@.take(i as int),
        decreases n - i,
    {
        v.push(s.get_char(i));
        assert(s@.take(i as int).push(s@[i as int]) =~= s@.take(i as int + 1));
        i = i + 1;
    }
    assert(s@.take(n as int) =~= s@);
    v
}

/// Appends every character of `v` to `s`.
pub fn push_chars(s: &mut String, v: &Vec<char>)
    ensures
        final(s)@ == old(s)@ + v@,
{
    let mut i: usize = 0;
    while i < v.len()
        invariant
            i <= v.len(),
            s@ == old(s)@ + v@.take(i as int),
        decreases v.len() - i,
    {
        push_char(s, v[i]);
        assert(v@.take(i as int).push(v@[i as int]) =~= v@.take(i as int + 1));
        i = i + 1;
    }
    assert(v@.take(v.len() as int) =~= v@);
}

/// A string made of the characters of `v`.
pub fn string_of(v: &Vec<char>) -> (s: String)
    ensures
        s@ == v@,
{
    let mut s = String::new();
    push_chars(&mut s, v);
    assert(Seq::<char>::empty() + v@ =~= v@);
    s
}

/// A copy of a string slice as an owned string.
pub fn owned(s: &str) -> (r: String)
    ensures
        r@ == s@,
{
    let v = chars_of(s);
    string_of(&v)
}

/// Whether two string slices hold the same characters.
pub fn same_text(a: &str, b: &str) -> (r: bool)
    ensures
        r == (a@ == b@),
{
    let n = a.unicode_len();
    let m = b.unicode_len();
    if n != m {
        return false;
    }
    let mut i: usize = 0;
    while i < n
        invariant
            n == a@.len(),
            m == b@.len(),
            n == m,
            i <= n,
            forall|j: int| 0 <= j < i ==> a@[j] == b@[j],
        decreases n - i,
    {
        if a.get_char(i) != b.get_char(i) {
            return false;
        }
        i = i + 1;
    }
    assert(a@ =~= b@);
    true
}

} // verus!

verus! {

/// Lexicographic order on texts, character by character, a proper prefix
/// coming first.
pub open spec fn text_le(a: Seq<char>, b: Seq<char>) -> bool
    decreases a.len(),
{
    if a.len() == 0 {
        true
    } else if b.len() == 0 {
        false
    } else if a[0] != b[0] {
        a[0] < b[0]
    } else {
        text_le(a.drop_first(), b.drop_first())
    }
}

/// Any two texts are ordered one way or the other.
pub proof fn lemma_text_le_total(a: Seq<char>, b: Seq<char>)
    ensures
        text_le(a, b) || text_le(b, a),
    decreases a.len(),
{
    if a.len() > 0 && b.len() > 0 && a[0] == b[0] {
        lemma_text_le_total(a.drop_first(), b.drop_first());
    }
}

/// The order is transitive.
pub proof fn lemma_text_le_transitive(a: Seq<char>, b: Seq<char>, c: Seq<char>)
    requires
        text_le(a, b),
        text_le(b, c),
    ensures
        text_le(a, c),
    decreases a.len(),
{
    if a.len() > 0 && b.len() > 0 && c.len() > 0 && a[0] == b[0] && b[0] == c[0] {
        lemma_text_le_transitive(a.drop_first(), b.drop_first(), c.drop_first());
    }
}

/// The order is the lexicographic order of characters: a prefix comes
/// first, texts that first differ at a position are ordered by their
/// characters there, and two texts each at most the other are equal.
pub proof fn lemma_text_le_is_lexicographic(a: Seq<char>, b: Seq<char>)
    ensures
        a.len() <= b.len() && b.take(a.len() as int) == a ==> text_le(a, b),
        forall|p: int|
            0 <= p < a.len() && p < b.len() && a.take(p) == b.take(p) && (#[trigger] a[p]) < (
            #[trigger] b[p]) ==> text_le(a, b) && !text_le(b, a),
        text_le(a, b) && text_le(b, a) ==> a == b,
    decreases a.len(),
{
    if a.len() > 0 && b.len() > 0 {
        let a1 = a.drop_first();
        let b1 = b.drop_first();
        lemma_text_le_is_lexicographic(a1, b1);
        if a.len() <= b.len() && b.take(a.len() as int) == a {
            assert(b[0] == b.take(a.len() as int)[0]);
            assert(b1.take(a1.len() as int) =~= a1) by {
                assert forall|i: int| 0 <= i < a1.len() implies #[trigger] b1.take(a1.len() as int)[i] == a1[i] by {
                    assert(b.take(a.len() as int)[i + 1] == a[i + 1]);
                }
            }
        }
        assert forall|p: int|
            0 <= p < a.len() && p < b.len() && a.take(p) == b.take(p) && (#[trigger] a[p]) < (
            #[trigger] b[p]) implies text_le(a, b) && !text_le(b, a) by {
            if p > 0 {
                assert(a[0] == a.take(p)[0] && b[0] == b.take(p)[0]);
                assert(a1.take(p - 1) =~= b1.take(p - 1)) by {
                    assert forall|i: int| 0 <= i < p - 1 implies #[trigger] a1.take(p - 1)[i] == b1.take(p - 1)[i] by {
                        assert(a.take(p)[i + 1] == b.take(p)[i + 1]);
                    }
                }
                assert(a1[p - 1] == a[p] && b1[p - 1] == b[p]);
            }
        }
        if text_le(a, b) && text_le(b, a) {
            assert(a[0] == b[0]);
            assert(a1 == b1);
            assert(a =~= seq![a[0]] + a1);
            assert(b =~= seq![b[0]] + b1);
        }
    } else if a.len() == 0 && b.len() == 0 {
        assert(a =~= b);
    }
}

/// Whether `a` comes no later than `b` in character order.
pub fn text_at_most(a: &str, b: &str) -> (r: bool)
    ensures
        r == text_le(a@, b@),
{
    let n = a.unicode_len();
    let m = b.unicode_len();
    let mut i: usize = 0;
    assert(a@.skip(0) =~= a@);
    assert(b@.skip(0) =~= b@);
    while i < n && i < m
        invariant
            n == a@.len(),
            m == b@.len(),
            i <= n,
            i <= m,
            text_le(a@, b@) == text_le(a@.skip(i as int), b@.skip(i as int)),
        decreases n - i,
    {
        let x = a.get_char(i);
        let y = b.get_char(i);
        if x != y {
            return x < y;
        }
        assert(a@.skip(i as int).drop_first() =~= a@.skip(i as int + 1));
        assert(b@.skip(i as int).drop_first() =~= b@.skip(i as int + 1));
        i = i + 1;
    }
    n <= m
}

} // verus!

verus! {

/// The decimal digit for a value below ten.
pub open spec fn digit_of(d: nat) -> char {
    if d == 0 { '0' }
    else if d == 1 { '1' }
    else if d == 2 { '2' }
    else if d == 3 { '3' }
    else if d == 4 { '4' }
    else if d == 5 { '5' }
    else if d == 6 { '6' }
    else if d == 7 { '7' }
    else if d == 8 { '8' }
    else { '9' }
}

/// The decimal numeral of a number, without sign or leading zeros.
pub open spec fn decimal(n: nat) -> Seq<char>
    decreases n,
{
    if n < 10 {
        seq![digit_of(n)]
    } else {
        decimal(n / 10).push(digit_of(n % 10))
    }
}

fn digit_char(d: u64) -> (c: char)
    requires
        d < 10,
    ensures
        c == digit_of(d as nat),
{
    if d == 0 { '0' }
    else if d == 1 { '1' }
    else if d == 2 { '2' }
    else if d == 3 { '3' }
    else if d == 4 { '4' }
    else if d == 5 { '5' }
    else if d == 6 { '6' }
    else if d == 7 { '7' }
    else if d == 8 { '8' }
    else { '9' }
}

/// Appends the decimal numeral of `n`.
pub fn push_decimal(s: &mut String, n: u64)
    ensures
        final(s)@ == old(s)@ + decimal(n as nat),
    decreases n,
{
    if n >= 10 {
        push_decimal(s, n / 10);
    }
    push_char(s, digit_char(n % 10));
    assert(s@ =~= old(s)@ + decimal(n as nat));
}

} // verus!

verus! {

/// Whether `p` occurs in `s`.
pub open spec fn has_infix(s: Seq<char>, p: Seq<char>) -> bool {
    exists|i: int| 0 <= i <= s.len() - p.len() && #[trigger] s.subrange(i, i + p.len()) == p
}

/// Whether `pattern` occurs in `s`.
pub fn includes_text(s: &str, pattern: &str) -> (r: bool)
    ensures
        r == has_infix(s@, pattern@),
{
    let sv = chars_of(s);
    let pv = chars_of(pattern);
    let n = sv.len();
    let m = pv.len();
    if m > n {
        assert forall|i: int| 0 <= i <= s@.len() - pattern@.len() implies #[trigger] s@.subrange(
            i,
            i + pattern@.len(),
        ) != pattern@ by {}
        return false;
    }
    let mut i: usize = 0;
    while i <= n - m
        invariant
            sv@ == s@,
            pv@ == pattern@,
            n == sv@.len(),
            m == pv@.len(),
            m <= n,
            i <= n - m + 1,
            forall|k: int| 0 <= k < i ==> #[trigger] s@.subrange(k, k + m) != pattern@,
        decreases n - m + 1 - i,
    {
        let mut j: usize = 0;
        while j < m && sv[i + j] == pv[j]
            invariant
                sv@ == s@,
                pv@ == pattern@,
                n == sv@.len(),
                m == pv@.len(),
                i + m <= n,
                j <= m,
                forall|q: int| 0 <= q < j ==> sv@[i + q] == pv@[q],
            decreases m - j,
        {
            j = j + 1;
        }
        if j == m {
            assert(s@.subrange(i as int, i + m) =~= pattern@);
            return true;
        }
        assert(s@.subrange(i as int, i + m)[j as int] != pattern@[j as int]);
        i = i + 1;
    }
    false
}

/// `s` with every occurrence of the character `c` replaced by `to`.
pub open spec fn replaced(s: Seq<char>, c: char, to: Seq<char>) -> Seq<char>
    decreases s.len(),
{
    if s.len() == 0 {
        Seq::empty()
    } else {
        replaced(s.drop_last(), c, to) + if s.last() == c {
            to
        } else {
            seq![s.last()]
        }
    }
}

/// Replaces every occurrence of the character `c` by `to`.
pub fn replace_char(s: &str, c: char, to: &str) -> (r: String)
    ensures
        r@ == replaced(s@, c, to@),
{
    let sv = chars_of(s);
    let mut r = String::new();
    let mut i: usize = 0;
    while i < sv.len()
        invariant
            sv@ == s@,
            i <= sv@.len(),
            r@ == replaced(s@.take(i as int), c, to@),
        decreases sv.len() - i,
    {
        assert(s@.take(i as int + 1).drop_last() =~= s@.take(i as int));
        if sv[i] == c {
            r.append(to);
        } else {
            push_char(&mut r, sv[i]);
        }
        assert(r@ =~= replaced(s@.take(i as int + 1), c, to@));
        i = i + 1;
    }
    assert(s@.take(sv@.len() as int) =~= s@);
    r
}

/// `s` without any trailing run of the character `c`.
pub open spec fn trimmed_end(s: Seq<char>, c: char) -> Seq<char>
    decreases s.len(),
{
    if s.len() > 0 && s.last() == c {
        trimmed_end(s.drop_last(), c)
    } else {
        s
    }
}

/// Removes every trailing `c`, as `trim_end_matches(c)` does.
pub fn trim_end_char(s: &str, c: char) -> (r: String)
    ensures
        r@ == trimmed_end(s@, c),
{
    let sv = chars_of(s);
    let mut j: usize = sv.len();
    assert(s@.take(j as int) =~= s@);
    while j > 0 && sv[j - 1] == c
        invariant
            sv@ == s@,
            j <= sv@.len(),
            trimmed_end(s@, c) == trimmed_end(s@.take(j as int), c),
        decreases j,
    {
        assert(s@.take(j as int).drop_last() =~= s@.take(j as int - 1));
        j = j - 1;
    }
    let mut r = String::new();
    let mut i: usize = 0;
    while i < j
        invariant
            sv@ == s@,
            j <= sv@.len(),
            i <= j,
            r@ == s@.take(i as int),
        decreases j - i,
    {
        push_char(&mut r, sv[i]);
        assert(s@.take(i as int).push(s@[i as int]) =~= s@.take(i as int + 1));
        i = i + 1;
    }
    r
}

/// `s` without any trailing repetitions of the text `p`.
pub open spec fn without_suffixes(s: Seq<char>, p: Seq<char>) -> Seq<char>
    decreases s.len(),
{
    if p.len() > 0 && s.len() >= p.len() && s.subrange(s.len() - p.len(), s.len() as int) == p {
        without_suffixes(s.subrange(0, s.len() - p.len()), p)
    } else {
        s
    }
}

/// Removes every trailing repetition of `p`, as `trim_end_matches(p)` does
/// for a non-empty pattern.
pub fn trim_end_text(s: &str, p: &str) -> (r: String)
    requires
        p@.len() > 0,
    ensures
        r@ == without_suffixes(s@, p@),
{
    let sv = chars_of(s);
    let pv = chars_of(p);
    let m = pv.len();
    let mut j: usize = sv.len();
    assert(s@.take(j as int) =~= s@);
    loop
        invariant
            sv@ == s@,
            pv@ == p@,
            m == p@.len(),
            m > 0,
            j <= sv@.len(),
            without_suffixes(s@, p@) == without_suffixes(s@.take(j as int), p@),
        ensures
            sv@ == s@,
            j <= sv@.len(),
            without_suffixes(s@, p@) == s@.take(j as int),
        decreases j,
    {
        if j < m {
            break;
        }
        let mut k: usize = 0;
        while k < m && sv[j - m + k] == pv[k]
            invariant
                sv@ == s@,
                pv@ == p@,
                m == p@.len(),
                m <= j,
                j <= sv@.len(),
                k <= m,
                forall|q: int| 0 <= q < k ==> sv@[j - m + q] == pv@[q],
            decreases m - k,
        {
            k = k + 1;
        }
        let ghost t = s@.take(j as int);
        if k < m {
            assert(t.subrange(t.len() - m, t.len() as int)[k as int] != p@[k as int]);
            break;
        }
        assert(t.subrange(t.len() - m, t.len() as int) =~= p@);
        assert(t.subrange(0, t.len() - m) =~= s@.take(j - m));
        j = j - m;
    }
    let mut r = String::new();
    let mut i: usize = 0;
    while i < j
        invariant
            sv@ == s@,
            j <= sv@.len(),
            i <= j,
            r@ == s@.take(i as int),
        decreases j - i,
    {
        push_char(&mut r, sv[i]);
        assert(s@.take(i as int).push(s@[i as int]) =~= s@.take(i as int + 1));
        i = i + 1;
    }
    r
}

} // verus!
