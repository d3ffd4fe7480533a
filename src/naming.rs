//! Character-level string operations on names and paths.

use vstd::prelude::*;
use vstd::string::*;

verus! {

/// Whether `needle` occurs in `hay` as a contiguous run of characters.
pub open spec fn is_substring(needle: Seq<char>, hay: Seq<char>) -> bool {
    exists|i: int|
        0 <= i && i + needle.len() <= hay.len() && #[trigger] hay.subrange(i, i + needle.len())
            == needle
}

/// Whether `s` ends with `suffix`.
pub open spec fn ends_with(s: Seq<char>, suffix: Seq<char>) -> bool {
    suffix.len() <= s.len() && s.subrange(s.len() - suffix.len(), s.len() as int) == suffix
}

/// The number of underscores in `s`.
pub open spec fn underscores(s: Seq<char>) -> nat
    decreases s.len(),
{
    if s.len() == 0 {
        0
    } else {
        (if s[0] == '_' {
            1nat
        } else {
            0nat
        }) + underscores(s.drop_first())
    }
}

/// The first `n` tokens of `s`, split at underscores and joined again with
/// underscores. Where `s` has fewer than `n` tokens this is `s` itself.
pub open spec fn token_prefix(s: Seq<char>, n: nat) -> Seq<char>
    decreases s.len(),
{
    if n == 0 || s.len() == 0 {
        Seq::empty()
    } else if s[0] == '_' {
        if n == 1 {
            Seq::empty()
        } else {
            seq!['_'] + token_prefix(s.drop_first(), (n - 1) as nat)
        }
    } else {
        seq![s[0]] + token_prefix(s.drop_first(), n)
    }
}

/// The part of `s` before its first `.`, or all of `s` where it has none.
pub open spec fn before_first_dot(s: Seq<char>) -> Seq<char>
    decreases s.len(),
{
    if s.len() == 0 || s[0] == '.' {
        Seq::empty()
    } else {
        seq![s[0]] + before_first_dot(s.drop_first())
    }
}

/// The decimal digit for `d < 10`.
pub open spec fn digit_char(d: nat) -> char {
    if d == 0 {
        '0'
    } else if d == 1 {
        '1'
    } else if d == 2 {
        '2'
    } else if d == 3 {
        '3'
    } else if d == 4 {
        '4'
    } else if d == 5 {
        '5'
    } else if d == 6 {
        '6'
    } else if d == 7 {
        '7'
    } else if d == 8 {
        '8'
    } else {
        '9'
    }
}

/// The decimal notation of `n`, without leading zeros.
pub open spec fn decimal(n: nat) -> Seq<char>
    decreases n,
{
    if n < 10 {
        seq![digit_char(n)]
    } else {
        decimal(n / 10).push(digit_char(n % 10))
    }
}

/// The characters of `s`, one by one.
pub fn chars_of(s: &str) -> (r: Vec<char>)
    ensures
        r@ == s@,
{
    let n = s.unicode_len();
    let mut r: Vec<char> = Vec::new();
    let mut i: usize = 0;
    while i < n
        invariant
            n == s@.len(),
            i <= n,
            r@ == s@.subrange(0, i as int),
        decreases n - i,
    {
        r.push(s.get_char(i));
        i = i + 1;
        assert(r@ =~= s@.subrange(0, i as int));
    }
    assert(r@ =~= s@);
    r
}

fn matches_at(hay: &Vec<char>, needle: &Vec<char>, at: usize) -> (r: bool)
    requires
        at + needle@.len() <= hay@.len(),
    ensures
        r == (hay@.subrange(at as int, at + needle@.len()) == needle@),
{
    let hay_len = hay.len();
    let mut j: usize = 0;
    while j < needle.len()
        invariant
            hay_len == hay@.len(),
            at + needle@.len() <= hay@.len(),
            j <= needle@.len(),
            forall|k: int| 0 <= k < j ==> hay@[at + k] == needle@[k],
        decreases needle@.len() - j,
    {
        if hay[at + j] != needle[j] {
            assert(hay@.subrange(at as int, at + needle@.len())[j as int] != needle@[j as int]);
            return false;
        }
        j = j + 1;
    }
    assert(hay@.subrange(at as int, at + needle@.len()) =~= needle@);
    true
}

fn chars_contain(hay: &Vec<char>, needle: &Vec<char>) -> (r: bool)
    ensures
        r == is_substring(needle@, hay@),
{
    if needle.len() > hay.len() {
        return false;
    }
    let last = hay.len() - needle.len();
    let mut i: usize = 0;
    while i < last
        invariant
            i <= last,
            last + needle@.len() == hay@.len(),
            forall|k: int| 0 <= k < i ==> #[trigger] hay@.subrange(k, k + needle@.len()) != needle@,
        decreases last - i,
    {
        if matches_at(hay, needle, i) {
            return true;
        }
        i = i + 1;
    }
    if matches_at(hay, needle, last) {
        return true;
    }
    assert forall|k: int| 0 <= k && k + needle@.len() <= hay@.len() implies #[trigger] hay@.subrange(
        k,
        k + needle@.len(),
    ) != needle@ by {
        assert(k <= last);
    }
    false
}

/// Whether `needle` occurs in `hay`.
pub fn contains_str(hay: &str, needle: &str) -> (r: bool)
    ensures
        r == is_substring(needle@, hay@),
{
    let h = chars_of(hay);
    let n = chars_of(needle);
    chars_contain(&h, &n)
}

/// Whether `s` ends with `suffix`.
pub fn ends_with_str(s: &str, suffix: &str) -> (r: bool)
    ensures
        r == ends_with(s@, suffix@),
{
    let h = chars_of(s);
    let n = chars_of(suffix);
    if n.len() > h.len() {
        return false;
    }
    matches_at(&h, &n, h.len() - n.len())
}

/// Whether `a` and `b` hold the same characters.
pub fn same_str(a: &str, b: &str) -> (r: bool)
    ensures
        r == (a@ == b@),
{
    let x = chars_of(a);
    let y = chars_of(b);
    if x.len() != y.len() {
        return false;
    }
    let r = matches_at(&x, &y, 0);
    assert(x@.subrange(0, y@.len() as int) =~= x@);
    r
}

proof fn lemma_token_prefix_step(s: Seq<char>, i: int, n: nat)
    requires
        0 <= i < s.len(),
        n >= 1,
    ensures
        s.subrange(i, s.len() as int).drop_first() == s.subrange(i + 1, s.len() as int),
        token_prefix(s.subrange(i, s.len() as int), n) == (if s[i] == '_' {
            if n == 1 {
                Seq::empty()
            } else {
                seq!['_'] + token_prefix(s.subrange(i + 1, s.len() as int), (n - 1) as nat)
            }
        } else {
            seq![s[i]] + token_prefix(s.subrange(i + 1, s.len() as int), n)
        }),
        underscores(s.subrange(i, s.len() as int)) == (if s[i] == '_' {
            1nat
        } else {
            0nat
        }) + underscores(s.subrange(i + 1, s.len() as int)),
{
    assert(s.subrange(i, s.len() as int).drop_first() =~= s.subrange(i + 1, s.len() as int));
}

/// The first `n` underscore-separated tokens of `name`, joined again with
/// underscores; `None` where `name` has fewer than `n` tokens.
pub fn token_prefix_of(name: &str, n: usize) -> (r: Option<String>)
    ensures
        r.is_none() <==> n > underscores(name@) + 1,
        r matches Some(p) ==> p@ == token_prefix(name@, n as nat),
{
    let s = chars_of(name);
    let len = s.len();
    if n == 0 {
        return Some(String::from_str(name.substring_char(0, 0)));
    }
    let mut i: usize = 0;
    let mut seen: usize = 0;
    assert(s@.subrange(0, len as int) =~= s@);
    assert(Seq::<char>::empty() + s@ =~= s@);
    while i < len
        invariant
            s@ == name@,
            len == s@.len(),
            i <= len,
            seen < n,
            token_prefix(s@, n as nat) == s@.subrange(0, i as int) + token_prefix(
                s@.subrange(i as int, len as int),
                (n - seen) as nat,
            ),
            underscores(s@) == seen + underscores(s@.subrange(i as int, len as int)),
        decreases len - i,
    {
        proof {
            lemma_token_prefix_step(s@, i as int, (n - seen) as nat);
        }
        if s[i] == '_' {
            if seen + 1 == n {
                assert(s@.subrange(0, i as int) + Seq::<char>::empty() =~= s@.subrange(
                    0,
                    i as int,
                ));
                return Some(String::from_str(name.substring_char(0, i)));
            }
            seen = seen + 1;
        }
        assert(s@.subrange(0, i + 1) =~= s@.subrange(0, i as int).push(s@[i as int]));
        i = i + 1;
    }
    assert(s@.subrange(i as int, len as int) =~= Seq::<char>::empty());
    assert(s@.subrange(0, len as int) =~= s@);
    if seen + 1 < n {
        return None;
    }
    Some(String::from_str(name.substring_char(0, len)))
}

/// The part of `name` before its first `.`.
pub fn base_name(name: &str) -> (r: String)
    ensures
        r@ == before_first_dot(name@),
{
    let s = chars_of(name);
    let len = s.len();
    let mut i: usize = 0;
    assert(s@.subrange(0, len as int) =~= s@);
    assert(Seq::<char>::empty() + s@ =~= s@);
    while i < len
        invariant
            s@ == name@,
            len == s@.len(),
            i <= len,
            before_first_dot(s@) == s@.subrange(0, i as int) + before_first_dot(
                s@.subrange(i as int, len as int),
            ),
        decreases len - i,
    {
        assert(s@.subrange(i as int, len as int).drop_first() =~= s@.subrange(
            i + 1,
            len as int,
        ));
        if s[i] == '.' {
            assert(s@.subrange(0, i as int) + Seq::<char>::empty() =~= s@.subrange(0, i as int));
            return String::from_str(name.substring_char(0, i));
        }
        assert(s@.subrange(0, i + 1) =~= s@.subrange(0, i as int).push(s@[i as int]));
        i = i + 1;
    }
    assert(s@.subrange(i as int, len as int) =~= Seq::<char>::empty());
    assert(s@.subrange(0, len as int) + Seq::<char>::empty() =~= s@);
    String::from_str(name.substring_char(0, len))
}

fn digit_str(d: usize) -> (r: &'static str)
    requires
        d < 10,
    ensures
        r@ == seq![digit_char(d as nat)],
{
    proof {
        reveal_strlit("0");
        reveal_strlit("1");
        reveal_strlit("2");
        reveal_strlit("3");
        reveal_strlit("4");
        reveal_strlit("5");
        reveal_strlit("6");
        reveal_strlit("7");
        reveal_strlit("8");
        reveal_strlit("9");
    }
    let r = if d == 0 {
        "0"
    } else if d == 1 {
        "1"
    } else if d == 2 {
        "2"
    } else if d == 3 {
        "3"
    } else if d == 4 {
        "4"
    } else if d == 5 {
        "5"
    } else if d == 6 {
        "6"
    } else if d == 7 {
        "7"
    } else if d == 8 {
        "8"
    } else {
        "9"
    };
    assert(r@ =~= seq![digit_char(d as nat)]);
    r
}

/// Appends the decimal notation of `n` to `out`.
pub fn push_decimal(out: &mut String, n: usize)
    ensures
        final(out)@ == old(out)@ + decimal(n as nat),
    decreases n,
{
    if n < 10 {
        out.append(digit_str(n));
    } else {
        push_decimal(out, n / 10);
        out.append(digit_str(n % 10));
        assert(decimal(n as nat) == decimal((n / 10) as nat).push(digit_char((n % 10) as nat)));
    }
}

} // verus!
