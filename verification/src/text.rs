use vstd::prelude::*;

verus! {

/// Appends one character to a string.
///
/// Wraps `String::push`, which std documents as appending the given `char`
/// to the end of the string: the new contents are the old ones followed by `c`.
#[verifier::external_body]
pub(crate) fn push_char(s: &mut String, c: char)
    ensures
        final(s)@ == old(s)@.push(c),
{
    s.push(c);
}

/// The characters of a string slice, in order.
pub fn chars_of(s: &str) -> (v: Vec<char>)
    ensures
        v@ == s@,
{
    let mut v: Vec<char> = Vec::new();
    for c in it: s.chars()
        invariant
            it.seq() == s@,
            v@ == s@.take(it.index() as int),
    {
        proof {
            assert(s@.take(it.index() + 1) =~= s@.take(it.index() as int).push(c));
        }
        v.push(c);
    }
    proof {
        assert(s@.take(s@.len() as int) =~= s@);
    }
    v
}

/// Appends `chars` at the end of `s`.
pub fn push_chars(s: &mut String, chars: &Vec<char>)
    ensures
        final(s)@ == old(s)@ + chars@,
{
    let mut i: usize = 0;
    while i < chars.len()
        invariant
            0 <= i <= chars@.len(),
            s@ == old(s)@ + chars@.take(i as int),
        decreases chars@.len() - i,
    {
        push_char(s, chars[i]);
        proof {
            assert(chars@.take(i + 1) =~= chars@.take(i as int).push(chars@[i as int]));
            assert(old(s)@ + chars@.take(i + 1) =~= (old(s)@ + chars@.take(i as int)).push(chars@[i as int]));
        }
        i = i + 1;
    }
    proof {
        assert(chars@.take(chars@.len() as int) =~= chars@);
    }
}

/// Whether `prefix` is a prefix of `s`.
pub fn has_prefix(s: &Vec<char>, prefix: &Vec<char>) -> (b: bool)
    ensures
        b == prefix@.is_prefix_of(s@),
{
    if prefix.len() > s.len() {
        return false;
    }
    let mut i: usize = 0;
    while i < prefix.len()
        invariant
            prefix@.len() <= s@.len(),
            0 <= i <= prefix@.len(),
            forall|j: int| 0 <= j < i ==> prefix@[j] == s@[j],
        decreases prefix@.len() - i,
    {
        if prefix[i] != s[i] {
            return false;
        }
        i = i + 1;
    }
    true
}

/// Whether two character sequences are equal.
pub fn chars_equal(a: &Vec<char>, b: &Vec<char>) -> (r: bool)
    ensures
        r == (a@ == b@),
{
    if a.len() != b.len() {
        return false;
    }
    let r = has_prefix(a, b);
    proof {
        if r {
            assert(a@ =~= b@);
        }
    }
    r
}


/// Whether `pattern` occurs in `s` at position `i`.
pub fn matches_at(s: &Vec<char>, i: usize, pattern: &Vec<char>) -> (b: bool)
    requires
        i <= s@.len(),
    ensures
        b == pattern@.is_prefix_of(s@.skip(i as int)),
{
    let n = s.len();
    if pattern.len() > n - i {
        return false;
    }
    let mut k: usize = 0;
    while k < pattern.len()
        invariant
            n == s@.len(),
            i <= s@.len(),
            pattern@.len() <= s@.len() - i,
            0 <= k <= pattern@.len(),
            forall|j: int| 0 <= j < k ==> pattern@[j] == s@.skip(i as int)[j],
        decreases pattern@.len() - k,
    {
        if pattern[k] != s[i + k] {
            assert(s@.skip(i as int)[k as int] == s@[i + k]);
            return false;
        }
        k = k + 1;
    }
    true
}

/// `s` with every occurrence of `pattern` replaced by `with`, scanning from
/// the left and never looking into a replacement, which is the rule of
/// `str::replace` for a non-empty pattern. An empty pattern leaves `s` as it
/// is here, whereas `str::replace` would put `with` between every two
/// characters; `replace_all` takes no empty pattern.
pub open spec fn replaced(s: Seq<char>, pattern: Seq<char>, with: Seq<char>) -> Seq<char>
    decreases s.len(),
{
    if s.len() == 0 || pattern.len() == 0 {
        s
    } else if pattern.is_prefix_of(s) {
        with + replaced(s.skip(pattern.len() as int), pattern, with)
    } else {
        seq![s[0]] + replaced(s.skip(1), pattern, with)
    }
}

/// Replaces every occurrence of a non-empty `pattern` in `s` by `with`.
pub fn replace_all(s: &str, pattern: &str, with: &str) -> (r: String)
    requires
        pattern@.len() > 0,
    ensures
        r@ == replaced(s@, pattern@, with@),
{
    let v = chars_of(s);
    let p = chars_of(pattern);
    let w = chars_of(with);
    let mut out = String::new();
    let mut i: usize = 0;
    proof {
        assert(v@.skip(0) =~= v@);
    }
    while i < v.len()
        invariant
            v@ == s@,
            p@ == pattern@,
            w@ == with@,
            p@.len() > 0,
            0 <= i <= v@.len(),
            out@ + replaced(v@.skip(i as int), p@, w@) == replaced(v@, p@, w@),
        decreases v@.len() - i,
    {
        let ghost rest = v@.skip(i as int);
        if matches_at(&v, i, &p) {
            proof {
                assert(rest.skip(p@.len() as int) =~= v@.skip(i + p@.len()));
                assert(out@ + w@ + replaced(v@.skip(i + p@.len()), p@, w@) =~= out@ + (w@
                    + replaced(rest.skip(p@.len() as int), p@, w@)));
            }
            push_chars(&mut out, &w);
            i = i + p.len();
        } else {
            proof {
                assert(rest.skip(1) =~= v@.skip(i + 1));
                assert(rest[0] == v@[i as int]);
                assert(out@.push(v@[i as int]) + replaced(v@.skip(i + 1), p@, w@) =~= out@ + (
                seq![rest[0]] + replaced(rest.skip(1), p@, w@)));
            }
            push_char(&mut out, v[i]);
            i = i + 1;
        }
    }
    proof {
        assert(out@ + replaced(v@.skip(i as int), p@, w@) =~= out@);
    }
    out
}

/// The character of a decimal digit.
pub open spec fn digit_char(d: int) -> char {
    (d + 48) as char
}

/// The decimal representation of `n`, without leading zeros.
pub open spec fn decimal(n: nat) -> Seq<char>
    decreases n,
{
    if n < 10 {
        seq![digit_char(n as int)]
    } else {
        decimal(n / 10).push(digit_char((n % 10) as int))
    }
}

/// Appends the decimal representation of `n` to `out`.
pub fn push_decimal(out: &mut String, n: usize)
    ensures
        final(out)@ == old(out)@ + decimal(n as nat),
    decreases n,
{
    if n >= 10 {
        push_decimal(out, n / 10);
    }
    let d: u8 = (n % 10) as u8;
    push_char(out, (d + 48) as char);
    proof {
        if n >= 10 {
            assert(old(out)@ + decimal(n as nat) =~= old(out)@ + decimal((n / 10) as nat) + seq![
                digit_char((n % 10) as int)]);
        } else {
            assert(old(out)@ + decimal(n as nat) =~= old(out)@.push(digit_char(n as int)));
        }
    }
}

/// The decimal representation of `n`, as `n.to_string()` writes it.
pub fn decimal_string(n: usize) -> (s: String)
    ensures
        s@ == decimal(n as nat),
{
    let mut s = String::new();
    push_decimal(&mut s, n);
    proof {
        assert(s@ =~= decimal(n as nat));
    }
    s
}

/// The number that a string of decimal digits stands for.
pub open spec fn digits_value(s: Seq<char>) -> int
    decreases s.len(),
{
    if s.len() == 0 {
        0
    } else {
        digits_value(s.drop_last()) * 10 + ((s.last() as u32) as int - 48)
    }
}

proof fn lemma_digit(d: int)
    requires
        0 <= d < 10,
    ensures
        (digit_char(d) as u32) as int == d + 48,
        '0' <= digit_char(d) <= '9',
        d != 0 ==> digit_char(d) != '0',
{
}

/// The decimal representation of `n` is made of the digits `0` to `9`, has
/// no leading zero, and stands for `n`.
pub proof fn lemma_decimal_reads_back(n: nat)
    ensures
        decimal(n).len() > 0,
        forall|i: int| 0 <= i < decimal(n).len() ==> '0' <= #[trigger] decimal(n)[i] <= '9',
        decimal(n).len() > 1 ==> decimal(n)[0] != '0',
        digits_value(decimal(n)) == n,
    decreases n,
{
    if n >= 10 {
        lemma_decimal_reads_back(n / 10);
        lemma_digit((n % 10) as int);
        let d = decimal(n);
        assert(d.drop_last() =~= decimal(n / 10));
        assert(d.last() == digit_char((n % 10) as int));
        assert(d[0] == decimal(n / 10)[0]);
        if n / 10 < 10 {
            lemma_digit((n / 10) as int);
            assert(decimal(n / 10) == seq![digit_char((n / 10) as int)]);
        } else {
            lemma_decimal_reads_back(n / 100);
            assert(decimal(n / 10).len() == decimal(n / 10 / 10).len() + 1);
        }
        assert(digits_value(d) == (n / 10) * 10 + n % 10);
    } else {
        lemma_digit(n as int);
        let d = decimal(n);
        assert(d.drop_last() =~= Seq::<char>::empty());
        assert(digits_value(d.drop_last()) == 0);
        assert(d.last() == digit_char(n as int));
    }
}

/// A text in which the pattern never occurs is left as it is.
pub proof fn lemma_replaced_without_match(s: Seq<char>, pattern: Seq<char>, with: Seq<char>)
    requires
        forall|i: int| 0 <= i <= s.len() ==> !pattern.is_prefix_of(#[trigger] s.skip(i)),
    ensures
        replaced(s, pattern, with) == s,
    decreases s.len(),
{
    if s.len() > 0 && pattern.len() > 0 {
        assert(s.skip(0) =~= s);
        assert forall|i: int| 0 <= i <= s.skip(1).len() implies !pattern.is_prefix_of(
            #[trigger] s.skip(1).skip(i),
        ) by {
            assert(s.skip(1).skip(i) =~= s.skip(i + 1));
        }
        lemma_replaced_without_match(s.skip(1), pattern, with);
        assert(seq![s[0]] + s.skip(1) =~= s);
    }
}

/// A text that starts with the pattern starts, once replaced, with the
/// replacement; a text that starts with a character that begins no match
/// keeps that character.
pub proof fn lemma_replaced_front(s: Seq<char>, pattern: Seq<char>, with: Seq<char>)
    requires
        pattern.len() > 0,
    ensures
        replaced(pattern + s, pattern, with) == with + replaced(s, pattern, with),
        s.len() > 0 && !pattern.is_prefix_of(s) ==> replaced(s, pattern, with) == seq![s[0]]
            + replaced(s.skip(1), pattern, with),
{
    let t = pattern + s;
    assert(pattern.is_prefix_of(t)) by {
        assert(t.take(pattern.len() as int) =~= pattern);
    }
    assert(t.skip(pattern.len() as int) =~= s);
}

} // verus!
