//! Verified string helpers shared by the pipeline: character filtering,
//! substring search, decimal parsing and rendering, and list joining.

use vstd::prelude::*;
use vstd::string::StringExecFns;

verus! {

/// The view of an optional string.
pub open spec fn opt_str_view(o: Option<String>) -> Option<Seq<char>> {
    match o {
        Option::Some(s) => Option::Some(s@),
        Option::None => Option::None,
    }
}

/// The views of an optional list of strings.
pub open spec fn opt_strs_view(o: Option<Vec<String>>) -> Option<Seq<Seq<char>>> {
    match o {
        Option::Some(v) => Option::Some(seq_views(v@)),
        Option::None => Option::None,
    }
}

/// An optional count, widened to an unbounded integer.
pub open spec fn opt_len_view(o: Option<usize>) -> Option<int> {
    match o {
        Option::Some(n) => Option::Some(n as int),
        Option::None => Option::None,
    }
}

/// Characters that the wire payloads wrap values in and that the pipeline
/// strips before using a value: quotes, backslashes and square brackets.
pub open spec fn is_wrapping_char(c: char) -> bool {
    c == '"' || c == '\\' || c == '[' || c == ']'
}

/// The view of a string once every wrapping character is removed.
pub open spec fn strip_wrapping(s: Seq<char>) -> Seq<char> {
    s.filter(|c: char| !is_wrapping_char(c))
}

/// Relies on `String::push`: appends exactly one character at the end.
#[verifier::external_body]
pub(crate) fn push_char(s: &mut String, c: char)
    ensures
        final(s)@ == old(s)@.push(c),
{
    s.push(c)
}

/// Removes quotes, backslashes and square brackets from a string, leaving
/// every other character in place and in order.
pub fn remove_non_alphanumeric(s: String) -> (r: String)
    ensures
        r@ == strip_wrapping(s@),
{
    let n: usize = s.as_str().unicode_len();
    let mut out = String::new();
    let mut i: usize = 0;
    while i < n
        invariant
            n == s@.len(),
            i <= n,
            out@ == strip_wrapping(s@.take(i as int)),
        decreases n - i,
    {
        let c = s.as_str().get_char(i);
        let keep = !(c == '"' || c == '\\' || c == '[' || c == ']');
        if keep {
            push_char(&mut out, c);
        }
        proof {
            reveal(Seq::filter);
            assert(s@.take(i + 1).drop_last() =~= s@.take(i as int));
            assert(s@.take(i + 1).last() == c);
        }
        i = i + 1;
    }
    proof {
        assert(s@.take(n as int) =~= s@);
    }
    out
}

/// Whether two string slices hold the same characters.
pub fn str_eq(a: &str, b: &str) -> (r: bool)
    ensures
        r == (a@ == b@),
{
    let sa = String::from_str(a);
    let sb = String::from_str(b);
    sa.eq(&sb)
}

/// The pattern `p` occurs in `t` starting at position `i`.
pub open spec fn is_match_at(t: Seq<char>, p: Seq<char>, i: int) -> bool {
    0 <= i && i + p.len() <= t.len() && t.subrange(i, i + p.len() as int) == p
}

/// The pattern `p` occurs somewhere in `t`.
pub open spec fn seq_contains(t: Seq<char>, p: Seq<char>) -> bool {
    exists|i: int| is_match_at(t, p, i)
}

/// Whether `p` occurs in `t` starting exactly at position `i`.
fn match_at(t: &str, p: &str, i: usize) -> (r: bool)
    requires
        i + p@.len() <= t@.len(),
        t@.len() <= usize::MAX,
    ensures
        r == is_match_at(t@, p@, i as int),
{
    let m: usize = p.unicode_len();
    let mut j: usize = 0;
    while j < m
        invariant
            m == p@.len(),
            i + m <= t@.len(),
            t@.len() <= usize::MAX,
            j <= m,
            forall|k: int| 0 <= k < j ==> t@[i + k] == p@[k],
        decreases m - j,
    {
        if t.get_char(i + j) != p.get_char(j) {
            proof {
                assert(t@.subrange(i as int, i + p@.len() as int) != p@) by {
                    assert(t@.subrange(i as int, i + p@.len() as int)[j as int]
                        == t@[i + j]);
                }
            }
            return false;
        }
        j = j + 1;
    }
    proof {
        assert(t@.subrange(i as int, i + p@.len() as int) =~= p@);
    }
    true
}

/// Substring search: whether `p` occurs anywhere in `t`.
pub fn contains_substr(t: &str, p: &str) -> (r: bool)
    ensures
        r == seq_contains(t@, p@),
{
    let n: usize = t.unicode_len();
    let m: usize = p.unicode_len();
    if m > n {
        proof {
            assert(forall|i: int| !is_match_at(t@, p@, i));
        }
        return false;
    }
    if m == 0 {
        proof {
            assert(t@.subrange(0, 0) =~= p@);
            assert(is_match_at(t@, p@, 0));
        }
        return true;
    }
    let mut i: usize = 0;
    while i <= n - m
        invariant
            n == t@.len(),
            m == p@.len(),
            0 < m <= n,
            i <= n - m + 1,
            forall|k: int| 0 <= k < i ==> !is_match_at(t@, p@, k),
        decreases n - m + 1 - i,
    {
        if match_at(t, p, i) {
            return true;
        }
        i = i + 1;
    }
    proof {
        assert(forall|k: int| is_match_at(t@, p@, k) ==> 0 <= k <= n - m);
    }
    false
}

/// A decimal digit, as a character.
pub open spec fn is_digit(c: char) -> bool {
    48 <= c as int <= 57
}

/// Every character of `s` is a decimal digit.
pub open spec fn all_digits(s: Seq<char>) -> bool {
    forall|i: int| 0 <= i < s.len() ==> is_digit(#[trigger] s[i])
}

/// The numeric value of a digit string, most significant digit first.
pub open spec fn dec_value(s: Seq<char>) -> int
    decreases s.len(),
{
    if s.len() == 0 {
        0
    } else {
        dec_value(s.drop_last()) * 10 + (s.last() as int - 48)
    }
}

proof fn lemma_dec_value_nonneg(s: Seq<char>)
    requires
        all_digits(s),
    ensures
        dec_value(s) >= 0,
    decreases s.len(),
{
    if s.len() > 0 {
        assert(all_digits(s.drop_last()));
        lemma_dec_value_nonneg(s.drop_last());
    }
}

proof fn lemma_dec_value_step(s: Seq<char>, i: int)
    requires
        0 <= i < s.len(),
    ensures
        dec_value(s.take(i + 1)) == dec_value(s.take(i)) * 10 + (s[i] as int - 48),
{
    assert(s.take(i + 1).drop_last() =~= s.take(i));
    assert(s.take(i + 1).last() == s[i]);
}

proof fn lemma_dec_value_grows(s: Seq<char>, i: int)
    requires
        all_digits(s),
        0 <= i <= s.len(),
    ensures
        dec_value(s.take(i)) <= dec_value(s),
    decreases s.len() - i,
{
    if i < s.len() {
        lemma_dec_value_step(s, i);
        assert(all_digits(s.take(i)));
        lemma_dec_value_nonneg(s.take(i));
        lemma_dec_value_grows(s, i + 1);
    } else {
        assert(s.take(i) =~= s);
    }
}

/// Parses a string of decimal digits into a `u32`.  Returns `Some` exactly
/// when the string is non-empty, all digits, and its value fits.
pub fn parse_u32(s: &str) -> (r: Option<u32>)
    ensures
        r is Some <==> (s@.len() > 0 && all_digits(s@) && dec_value(s@) <= u32::MAX),
        r matches Some(v) ==> v as int == dec_value(s@),
{
    let n: usize = s.unicode_len();
    if n == 0 {
        return None;
    }
    let mut acc: u32 = 0;
    let mut i: usize = 0;
    while i < n
        invariant
            n == s@.len(),
            i <= n,
            all_digits(s@.take(i as int)),
            acc as int == dec_value(s@.take(i as int)),
        decreases n - i,
    {
        let c = s.get_char(i);
        let u = c as u32;
        if u < 48 || u > 57 {
            proof {
                assert(!is_digit(s@[i as int]));
            }
            return None;
        }
        let d = u - 48;
        let wide: u64 = acc as u64 * 10 + d as u64;
        proof {
            lemma_dec_value_step(s@, i as int);
        }
        if wide > u32::MAX as u64 {
            proof {
                assert(all_digits(s@.take(i + 1)));
                if all_digits(s@) {
                    lemma_dec_value_grows(s@, i + 1);
                }
            }
            return None;
        }
        acc = wide as u32;
        i = i + 1;
    }
    proof {
        assert(s@.take(n as int) =~= s@);
    }
    Some(acc)
}

/// The digit character for a value below ten.
pub open spec fn digit_char(d: int) -> char {
    if d == 0 { '0' }
    else if d == 1 { '1' }
    else if d == 2 { '2' }
    else if d == 3 { '3' }
    else if d == 4 { '4' }
    else if d == 5 { '5' }
    else if d == 6 { '6' }
    else if d == 7 { '7' }
    else if d == 8 { '8' }
    else { '9' }
}

/// The decimal rendering of a natural number, most significant digit first.
pub open spec fn dec_digits(n: int) -> Seq<char>
    decreases n,
{
    if n < 10 {
        seq![digit_char(n)]
    } else {
        dec_digits(n / 10).push(digit_char(n % 10))
    }
}

fn digit_char_exec(d: u64) -> (c: char)
    requires
        d < 10,
    ensures
        c == digit_char(d as int),
{
    match d {
        0 => '0',
        1 => '1',
        2 => '2',
        3 => '3',
        4 => '4',
        5 => '5',
        6 => '6',
        7 => '7',
        8 => '8',
        _ => '9',
    }
}

/// Renders a number in decimal.  The result is never empty.
pub fn u64_to_string(n: u64) -> (r: String)
    ensures
        r@ == dec_digits(n as int),
        r@.len() >= 1,
    decreases n,
{
    if n < 10 {
        let mut s = String::new();
        push_char(&mut s, digit_char_exec(n));
        proof {
            assert(s@ =~= dec_digits(n as int));
        }
        s
    } else {
        let mut s = u64_to_string(n / 10);
        push_char(&mut s, digit_char_exec(n % 10));
        s
    }
}

/// The views of a sequence of strings.
pub open spec fn seq_views(xs: Seq<String>) -> Seq<Seq<char>> {
    xs.map_values(|x: String| x@)
}

/// The elements of `xs` joined with `", "` between neighbours.
pub open spec fn join_comma(xs: Seq<Seq<char>>) -> Seq<char>
    decreases xs.len(),
{
    if xs.len() == 0 {
        Seq::empty()
    } else if xs.len() == 1 {
        xs[0]
    } else {
        join_comma(xs.drop_last()) + ", "@ + xs.last()
    }
}

/// Joins a list of names with `", "`, in order.
pub fn join_with_comma(names: &Vec<String>) -> (r: String)
    ensures
        r@ == join_comma(seq_views(names@)),
{
    let mut out = String::new();
    let mut i: usize = 0;
    while i < names.len()
        invariant
            i <= names@.len(),
            out@ == join_comma(seq_views(names@).take(i as int)),
        decreases names@.len() - i,
    {
        if i > 0 {
            out.append(", ");
        }
        out.append(names[i].as_str());
        proof {
            let vs = seq_views(names@);
            assert(vs.take(i + 1).drop_last() =~= vs.take(i as int));
            assert(vs.take(i + 1).last() == names@[i as int]@);
            if i == 0 {
                assert(join_comma(vs.take(1)) == vs.take(1)[0]);
            }
        }
        i = i + 1;
    }
    proof {
        assert(seq_views(names@).take(names@.len() as int) =~= seq_views(names@));
    }
    out
}

/// The view of a string once every `'-'` is turned into `'/'`.
pub open spec fn slashify(s: Seq<char>) -> Seq<char> {
    s.map_values(|c: char| if c == '-' { '/' } else { c })
}

/// Replaces every `'-'` with `'/'`, as cover-art path segments require.
pub fn dashes_to_slashes(s: &str) -> (r: String)
    ensures
        r@ == slashify(s@),
{
    let n: usize = s.unicode_len();
    let mut out = String::new();
    let mut i: usize = 0;
    while i < n
        invariant
            n == s@.len(),
            i <= n,
            out@ == slashify(s@.take(i as int)),
        decreases n - i,
    {
        let c = s.get_char(i);
        if c == '-' {
            push_char(&mut out, '/');
        } else {
            push_char(&mut out, c);
        }
        proof {
            assert(slashify(s@.take(i + 1)) =~= slashify(s@.take(i as int)).push(
                if s@[i as int] == '-' { '/' } else { s@[i as int] },
            ));
        }
        i = i + 1;
    }
    proof {
        assert(s@.take(n as int) =~= s@);
    }
    out
}

/// The index of the last occurrence of `c` in `s`, if any.
pub open spec fn is_last_index_of(s: Seq<char>, c: char, i: int) -> bool {
    0 <= i < s.len() && s[i] == c && (forall|k: int| i < k < s.len() ==> s[k] != c)
}

/// Finds the last occurrence of a character.
pub fn find_last(s: &str, c: char) -> (r: Option<usize>)
    ensures
        r matches Some(i) ==> is_last_index_of(s@, c, i as int),
        r is None ==> forall|k: int| 0 <= k < s@.len() ==> s@[k] != c,
{
    let n: usize = s.unicode_len();
    let mut i: usize = n;
    while i > 0
        invariant
            n == s@.len(),
            i <= n,
            forall|k: int| i <= k < n ==> s@[k] != c,
        decreases i,
    {
        i = i - 1;
        if s.get_char(i) == c {
            return Some(i);
        }
    }
    None
}

} // verus!
