//! Character-level utilities: turning a `&str` into its characters, exact and
//! ASCII-case-insensitive comparison, and the character classes the sanitizer
//! and the raw-text heuristic depend on.
use vstd::prelude::*;
use vstd::std_specs::iter::IteratorSpec;

verus! {

/// A Unicode control character (category Cc): U+0000..U+001F and U+007F..U+009F.
pub open spec fn is_ctl_char(c: char) -> bool {
    (c as u32) < 0x20 || (0x7f <= (c as u32) && (c as u32) <= 0x9f)
}

/// Whether the sanitizer keeps `c`: every control character is dropped except
/// the meaningful whitespace characters newline, carriage return and tab.
pub open spec fn keeps_char(c: char) -> bool {
    !is_ctl_char(c) || c == '\n' || c == '\r' || c == '\t'
}

/// The code point of `c` with an ASCII upper-case letter folded to lower case.
pub open spec fn lower_u32(c: char) -> u32 {
    if 0x41 <= (c as u32) && (c as u32) <= 0x5a {
        ((c as u32) + 0x20) as u32
    } else {
        c as u32
    }
}

/// Case-insensitive equality of two character sequences, ASCII letters only.
pub open spec fn ci_seq_eq(a: Seq<char>, b: Seq<char>) -> bool {
    a.len() == b.len() && forall|i: int| 0 <= i < a.len() ==> lower_u32(a[i]) == lower_u32(b[i])
}

/// Whether `pat` occurs case-insensitively in `s` starting at `i`.
pub open spec fn ci_match_at(s: Seq<char>, pat: Seq<char>, i: int) -> bool {
    0 <= i && i + pat.len() <= s.len() && forall|k: int|
        0 <= k < pat.len() ==> lower_u32(s[i + k]) == lower_u32(pat[k])
}

/// Whether `pat` occurs case-insensitively anywhere in `s`.
pub open spec fn ci_contains(s: Seq<char>, pat: Seq<char>) -> bool {
    exists|i: int| ci_match_at(s, pat, i)
}

/// Whether `s` ends with `pat`, case-insensitively.
pub open spec fn ci_ends_with(s: Seq<char>, pat: Seq<char>) -> bool {
    pat.len() <= s.len() && ci_match_at(s, pat, s.len() - pat.len())
}

/// The characters of `s`, in order, as a vector.
pub fn chars_of(s: &str) -> (v: Vec<char>)
    ensures
        v@ == s@,
{
    broadcast use vstd::string::next_postcondition, vstd::string::axiom_spec_iter;

    let mut it = s.chars();
    let mut v: Vec<char> = Vec::new();
    loop
        invariant
            it.obeys_prophetic_iter_laws(),
            it.decrease() is Some,
            v@ + it.remaining() == s@,
        ensures
            v@ == s@,
        decreases it.decrease()->0,
    {
        match it.next() {
            Some(c) => {
                v.push(c);
            },
            None => {
                proof {
                    assert(v@ =~= s@);
                }
                break ;
            },
        }
    }
    v
}

/// Exec test for `is_ctl_char`.
pub fn is_ctl(c: char) -> (r: bool)
    ensures
        r == is_ctl_char(c),
{
    let u = c as u32;
    u < 0x20 || (0x7f <= u && u <= 0x9f)
}

/// Exec test for `keeps_char`.
pub fn keeps(c: char) -> (r: bool)
    ensures
        r == keeps_char(c),
{
    !is_ctl(c) || c == '\n' || c == '\r' || c == '\t'
}

/// The folded code point of `c`, as `lower_u32` gives it.
pub fn lower_of(c: char) -> (r: u32)
    ensures
        r == lower_u32(c),
{
    let u = c as u32;
    if 0x41 <= u && u <= 0x5a {
        u + 0x20
    } else {
        u
    }
}

/// Exact equality of two character vectors.
pub fn eq_chars(a: &Vec<char>, b: &Vec<char>) -> (r: bool)
    ensures
        r == (a@ == b@),
{
    if a.len() != b.len() {
        proof {
            assert(a@ != b@);
        }
        return false;
    }
    let n = a.len();
    let mut i: usize = 0;
    while i < n
        invariant
            n == a.len() == b.len(),
            0 <= i <= n,
            forall|k: int| 0 <= k < i ==> a@[k] == b@[k],
        decreases n - i,
    {
        if a[i] != b[i] {
            proof {
                assert(a@[i as int] != b@[i as int]);
            }
            return false;
        }
        i += 1;
    }
    proof {
        assert(a@ =~= b@);
    }
    true
}

/// Exact equality of two strings, by their characters.
pub fn eq_str(a: &str, b: &str) -> (r: bool)
    ensures
        r == (a@ == b@),
{
    let va = chars_of(a);
    let vb = chars_of(b);
    eq_chars(&va, &vb)
}

/// Case-insensitive equality of two strings, ASCII letters only.
pub fn eq_str_ci(a: &str, b: &str) -> (r: bool)
    ensures
        r == ci_seq_eq(a@, b@),
{
    let va = chars_of(a);
    let vb = chars_of(b);
    if va.len() != vb.len() {
        return false;
    }
    let n = va.len();
    let mut i: usize = 0;
    while i < n
        invariant
            n == va.len() == vb.len(),
            va@ == a@,
            vb@ == b@,
            0 <= i <= n,
            forall|k: int| 0 <= k < i ==> lower_u32(a@[k]) == lower_u32(b@[k]),
        decreases n - i,
    {
        if lower_of(va[i]) != lower_of(vb[i]) {
            return false;
        }
        i += 1;
    }
    true
}

/// A Unicode whitespace character, as std's `char::is_whitespace` has it.
pub open spec fn is_ws_char(c: char) -> bool {
    ||| (0x9 <= (c as u32) && (c as u32) <= 0xd)
    ||| (c as u32) == 0x20
    ||| (c as u32) == 0x85
    ||| (c as u32) == 0xa0
    ||| (c as u32) == 0x1680
    ||| (0x2000 <= (c as u32) && (c as u32) <= 0x200a)
    ||| (c as u32) == 0x2028
    ||| (c as u32) == 0x2029
    ||| (c as u32) == 0x202f
    ||| (c as u32) == 0x205f
    ||| (c as u32) == 0x3000
}

/// A character that ends a candidate span in raw text: a quote or whitespace.
pub open spec fn is_delim_char(c: char) -> bool {
    c == '"' || c == '\'' || is_ws_char(c)
}

/// Exec test for `is_delim_char`.
pub fn is_delim(c: char) -> (r: bool)
    ensures
        r == is_delim_char(c),
{
    if c == '"' || c == '\'' {
        return true;
    }
    let u = c as u32;
    (0x9 <= u && u <= 0xd) || u == 0x20 || u == 0x85 || u == 0xa0 || u == 0x1680 || (0x2000 <= u
        && u <= 0x200a) || u == 0x2028 || u == 0x2029 || u == 0x202f || u == 0x205f || u == 0x3000
}

/// The first position at or after `from` where `pat` matches `s`
/// case-insensitively, or `None`.
pub open spec fn find_ci(s: Seq<char>, pat: Seq<char>, from: int) -> Option<int>
    decreases s.len() - from
        when 0 <= from <= s.len()
{
    if from + pat.len() > s.len() {
        None
    } else if ci_match_at(s, pat, from) {
        Some(from)
    } else {
        find_ci(s, pat, from + 1)
    }
}

/// The last position before `upto` holding a delimiter character, or `None`.
pub open spec fn rfind_delim(s: Seq<char>, upto: int) -> Option<int>
    decreases upto
        when 0 <= upto <= s.len()
{
    if upto <= 0 {
        None
    } else if is_delim_char(s[upto - 1]) {
        Some(upto - 1)
    } else {
        rfind_delim(s, upto - 1)
    }
}

/// Exec test for `ci_match_at`.
pub fn ci_match_at_exec(cs: &Vec<char>, pat: &Vec<char>, i: usize) -> (r: bool)
    requires
        i + pat@.len() <= cs@.len(),
    ensures
        r == ci_match_at(cs@, pat@, i as int),
{
    let m = pat.len();
    let mut k: usize = 0;
    while k < m
        invariant
            m == pat.len(),
            i + m <= cs.len(),
            0 <= k <= m,
            forall|t: int| 0 <= t < k ==> lower_u32(cs@[i + t]) == lower_u32(pat@[t]),
        decreases m - k,
    {
        if lower_of(cs[i + k]) != lower_of(pat[k]) {
            return false;
        }
        k += 1;
    }
    true
}

/// Finds `pat` in `cs` case-insensitively from position `from` on, as
/// `find_ci` states.
pub fn find_ci_in(cs: &Vec<char>, pat: &Vec<char>, from: usize) -> (r: Option<usize>)
    requires
        from <= cs@.len(),
    ensures
        match r {
            Some(i) => find_ci(cs@, pat@, from as int) == Some(i as int) && from <= i && i
                + pat@.len() <= cs@.len(),
            None => find_ci(cs@, pat@, from as int) is None,
        },
{
    let n = cs.len();
    let m = pat.len();
    if m == 0 {
        return Some(from);
    }
    if m > n || from > n - m {
        return None;
    }
    let mut i: usize = from;
    while i <= n - m
        invariant
            n == cs.len(),
            m == pat.len(),
            0 < m <= n,
            from <= i,
            i <= n - m + 1,
            find_ci(cs@, pat@, from as int) == find_ci(cs@, pat@, i as int),
        decreases n - i,
    {
        if ci_match_at_exec(cs, pat, i) {
            return Some(i);
        }
        proof {
            assert(find_ci(cs@, pat@, i as int) == find_ci(cs@, pat@, i + 1));
        }
        i += 1;
    }
    None
}

/// Finds the last delimiter before `upto`, as `rfind_delim` states.
pub fn rfind_delim_in(cs: &Vec<char>, upto: usize) -> (r: Option<usize>)
    requires
        upto <= cs@.len(),
    ensures
        match r {
            Some(i) => rfind_delim(cs@, upto as int) == Some(i as int) && i < upto,
            None => rfind_delim(cs@, upto as int) is None,
        },
{
    let mut u: usize = upto;
    while u > 0
        invariant
            upto <= cs.len(),
            0 <= u <= upto,
            rfind_delim(cs@, upto as int) == rfind_delim(cs@, u as int),
        decreases u,
    {
        if is_delim(cs[u - 1]) {
            return Some(u - 1);
        }
        u -= 1;
    }
    None
}

} // verus!
