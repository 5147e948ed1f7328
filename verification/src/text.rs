//! String primitives over character sequences.
//!
//! Every function here is specified against the `Seq<char>` view of its
//! arguments, so that the rest of the crate can state its contracts over
//! plain sequences.

use vstd::prelude::*;
use vstd::string::*;

verus! {

/// Whether `c` has the Unicode `White_Space` property.
pub open spec fn is_space(c: char) -> bool {
    let n = c as u32;
    ||| 0x09 <= n <= 0x0D
    ||| n == 0x20
    ||| n == 0x85
    ||| n == 0xA0
    ||| n == 0x1680
    ||| 0x2000 <= n <= 0x200A
    ||| n == 0x2028
    ||| n == 0x2029
    ||| n == 0x202F
    ||| n == 0x205F
    ||| n == 0x3000
}

/// Whether every character of `s` is white space.
pub open spec fn is_blank(s: Seq<char>) -> bool {
    forall|i: int| 0 <= i < s.len() ==> is_space(#[trigger] s[i])
}

/// Whether `s` begins with `p`.
pub open spec fn has_prefix(s: Seq<char>, p: Seq<char>) -> bool {
    p.len() <= s.len() && s.subrange(0, p.len() as int) =~= p
}

/// Whether `p` occurs in `s` at index `i`.
pub open spec fn occurs_at(s: Seq<char>, p: Seq<char>, i: int) -> bool {
    0 <= i <= s.len() && has_prefix(s.subrange(i, s.len() as int), p)
}

/// Whether `p` occurs somewhere in `s`.
pub open spec fn contains(s: Seq<char>, p: Seq<char>) -> bool {
    exists|i: int| occurs_at(s, p, i)
}

/// The greatest index at or below `i` at which `p` occurs in `s`, or -1.
pub open spec fn last_at_or_before(s: Seq<char>, p: Seq<char>, i: int) -> int
    decreases i + 1,
{
    if i < 0 {
        -1
    } else if occurs_at(s, p, i) {
        i
    } else {
        last_at_or_before(s, p, i - 1)
    }
}

/// The index of the last occurrence of `p` in `s`, or -1 where there is none.
pub open spec fn last_index(s: Seq<char>, p: Seq<char>) -> int {
    last_at_or_before(s, p, s.len() as int)
}

/// `s` up to its last occurrence of `p`; all of `s` where `p` does not occur.
pub open spec fn before_last(s: Seq<char>, p: Seq<char>) -> Seq<char> {
    if last_index(s, p) < 0 {
        s
    } else {
        s.subrange(0, last_index(s, p))
    }
}

/// The number of occurrences of `p` in `s`, counted from the left without
/// overlap; an empty `p` occurs nowhere.
pub open spec fn count_matches(s: Seq<char>, p: Seq<char>) -> nat
    decreases s.len(),
{
    if p.len() == 0 || s.len() < p.len() {
        0
    } else if has_prefix(s, p) {
        1 + count_matches(s.subrange(p.len() as int, s.len() as int), p)
    } else {
        count_matches(s.drop_first(), p)
    }
}

/// `s` with each occurrence of `p`, taken from the left without overlap,
/// replaced by `t`; an empty `p` replaces nothing.
pub open spec fn replaced(s: Seq<char>, p: Seq<char>, t: Seq<char>) -> Seq<char>
    decreases s.len(),
{
    if p.len() == 0 || s.len() < p.len() {
        s
    } else if has_prefix(s, p) {
        t + replaced(s.subrange(p.len() as int, s.len() as int), p, t)
    } else {
        seq![s[0]] + replaced(s.drop_first(), p, t)
    }
}

/// The length of `s` without its trailing white space.
pub open spec fn trimmed_len(s: Seq<char>) -> nat
    decreases s.len(),
{
    if s.len() == 0 || !is_space(s.last()) {
        s.len()
    } else {
        trimmed_len(s.drop_last())
    }
}

/// `s` without its trailing white space.
pub open spec fn trim_end(s: Seq<char>) -> Seq<char> {
    s.subrange(0, trimmed_len(s) as int)
}

/// The length of `s` without its trailing occurrences of `c`.
pub open spec fn stripped_len(s: Seq<char>, c: char) -> nat
    decreases s.len(),
{
    if s.len() == 0 || s.last() != c {
        s.len()
    } else {
        stripped_len(s.drop_last(), c)
    }
}

/// The lines of `lines`, each followed by `sep` but the last.
pub open spec fn joined(lines: Seq<Seq<char>>, sep: Seq<char>) -> Seq<char>
    decreases lines.len(),
{
    if lines.len() == 0 {
        Seq::empty()
    } else if lines.len() == 1 {
        lines[0]
    } else {
        joined(lines.drop_last(), sep) + sep + lines.last()
    }
}

/// The texts of a list of strings.
pub open spec fn texts(v: Seq<String>) -> Seq<Seq<char>> {
    Seq::new(v.len(), |i: int| v[i]@)
}

/// The text of an optional string.
pub open spec fn text_of(s: Option<String>) -> Option<Seq<char>> {
    match s {
        Some(s) => Some(s@),
        None => None,
    }
}

/// Whether `c` is white space, as Unicode defines it.
pub fn is_whitespace(c: char) -> (r: bool)
    ensures
        r == is_space(c),
{
    let n: u32 = c as u32;
    (0x09 <= n && n <= 0x0D) || n == 0x20 || n == 0x85 || n == 0xA0 || n == 0x1680 || (0x2000 <= n
        && n <= 0x200A) || n == 0x2028 || n == 0x2029 || n == 0x202F || n == 0x205F || n == 0x3000
}

/// The characters of `s`, in order.
pub fn to_chars(s: &str) -> (v: Vec<char>)
    ensures
        v@ == s@,
{
    let n: usize = s.unicode_len();
    let mut v: Vec<char> = Vec::new();
    let mut i: usize = 0;
    while i < n
        invariant
            i <= n,
            n == s@.len(),
            v@ =~= s@.subrange(0, i as int),
        decreases n - i,
    {
        v.push(s.get_char(i));
        i += 1;
    }
    proof {
        assert(s@.subrange(0, n as int) =~= s@);
    }
    v
}

/// Whether `p` occurs in `s` at index `i`.
pub fn matches_at(s: &Vec<char>, p: &Vec<char>, i: usize) -> (r: bool)
    requires
        i <= s@.len(),
    ensures
        r == occurs_at(s@, p@, i as int),
{
    let n: usize = s.len();
    let m: usize = p.len();
    if m > n - i {
        return false;
    }
    let ghost rest = s@.subrange(i as int, n as int);
    let mut k: usize = 0;
    while k < m
        invariant
            k <= m,
            i + m <= n,
            n == s@.len(),
            m == p@.len(),
            rest == s@.subrange(i as int, n as int),
            forall|j: int| 0 <= j < k ==> s@[i + j] == p@[j],
        decreases m - k,
    {
        if s[i + k] != p[k] {
            proof {
                assert(rest.subrange(0, m as int)[k as int] == s@[i + k]);
            }
            return false;
        }
        k += 1;
    }
    proof {
        assert(rest.subrange(0, m as int) =~= p@);
    }
    true
}

/// Whether `s` begins with `p`.
pub fn starts_with(s: &str, p: &str) -> (r: bool)
    ensures
        r == has_prefix(s@, p@),
{
    let sv = to_chars(s);
    let pv = to_chars(p);
    proof {
        assert(s@.subrange(0, s@.len() as int) =~= s@);
    }
    matches_at(&sv, &pv, 0)
}

/// Whether `s` holds nothing but white space.
pub fn is_blank_str(s: &str) -> (r: bool)
    ensures
        r == is_blank(s@),
{
    let n: usize = s.unicode_len();
    let mut i: usize = 0;
    while i < n
        invariant
            i <= n,
            n == s@.len(),
            forall|j: int| 0 <= j < i ==> is_space(#[trigger] s@[j]),
        decreases n - i,
    {
        if !is_whitespace(s.get_char(i)) {
            return false;
        }
        i += 1;
    }
    true
}

/// The index of the last occurrence of `p` in `s`.
pub fn rfind(s: &Vec<char>, p: &Vec<char>) -> (r: Option<usize>)
    ensures
        match r {
            Some(i) => i as int == last_index(s@, p@) && i <= s@.len(),
            None => last_index(s@, p@) == -1,
        },
{
    let n: usize = s.len();
    let mut i: usize = n;
    loop
        invariant
            i <= n,
            n == s@.len(),
            last_index(s@, p@) == last_at_or_before(s@, p@, i as int),
        decreases i,
    {
        if matches_at(s, p, i) {
            return Some(i);
        }
        if i == 0 {
            proof {
                assert(last_at_or_before(s@, p@, -1) == -1);
            }
            return None;
        }
        i -= 1;
    }
}

/// How often `p` occurs in `s`, counted from the left without overlap; an
/// empty `p` is counted nowhere.
pub fn count(s: &Vec<char>, p: &Vec<char>) -> (r: usize)
    ensures
        r == count_matches(s@, p@),
{
    let n: usize = s.len();
    let m: usize = p.len();
    if m == 0 {
        return 0;
    }
    let mut i: usize = 0;
    let mut c: usize = 0;
    proof {
        assert(s@.subrange(0, n as int) =~= s@);
    }
    while i < n
        invariant
            i <= n,
            n == s@.len(),
            m == p@.len(),
            m > 0,
            c <= i,
            c + count_matches(s@.subrange(i as int, n as int), p@) == count_matches(s@, p@),
        decreases n - i,
    {
        let ghost rest = s@.subrange(i as int, n as int);
        if matches_at(s, p, i) {
            proof {
                assert(rest.subrange(m as int, rest.len() as int) =~= s@.subrange(i + m, n as int));
            }
            c += 1;
            i += m;
        } else {
            proof {
                assert(rest.drop_first() =~= s@.subrange(i + 1, n as int));
            }
            i += 1;
        }
    }
    c
}

/// `s` without its trailing white space.
pub fn trim_end_str(s: &str) -> (r: String)
    ensures
        r@ == trim_end(s@),
{
    let n: usize = s.unicode_len();
    let mut k: usize = n;
    proof {
        assert(s@.subrange(0, n as int) =~= s@);
    }
    while k > 0 && is_whitespace(s.get_char(k - 1))
        invariant
            k <= n,
            n == s@.len(),
            trimmed_len(s@) == trimmed_len(s@.subrange(0, k as int)),
        decreases k,
    {
        proof {
            assert(s@.subrange(0, k as int).drop_last() =~= s@.subrange(0, k - 1));
        }
        k -= 1;
    }
    s.substring_char(0, k).to_owned()
}

/// `s` without its trailing occurrences of `c`.
pub fn strip_end(s: &str, c: char) -> (r: String)
    ensures
        r@ == s@.subrange(0, stripped_len(s@, c) as int),
{
    let n: usize = s.unicode_len();
    let mut k: usize = n;
    proof {
        assert(s@.subrange(0, n as int) =~= s@);
    }
    while k > 0 && s.get_char(k - 1) == c
        invariant
            k <= n,
            n == s@.len(),
            stripped_len(s@, c) == stripped_len(s@.subrange(0, k as int), c),
        decreases k,
    {
        proof {
            assert(s@.subrange(0, k as int).drop_last() =~= s@.subrange(0, k - 1));
        }
        k -= 1;
    }
    s.substring_char(0, k).to_owned()
}

/// Whether `p` occurs somewhere in `s`.
pub fn contains_str(s: &str, p: &str) -> (r: bool)
    ensures
        r == contains(s@, p@),
{
    let sv = to_chars(s);
    let pv = to_chars(p);
    let n: usize = sv.len();
    let mut i: usize = 0;
    loop
        invariant
            i <= n,
            n == sv@.len(),
            sv@ == s@,
            pv@ == p@,
            forall|j: int| 0 <= j < i ==> !occurs_at(s@, p@, j),
        decreases n - i,
    {
        if matches_at(&sv, &pv, i) {
            return true;
        }
        if i == n {
            return false;
        }
        i += 1;
    }
}

/// `s` with each occurrence of `p` replaced by `t`, from the left and
/// without overlap; an empty `p` replaces nothing.
pub fn replace_all(s: &str, p: &str, t: &str) -> (r: String)
    ensures
        r@ == replaced(s@, p@, t@),
{
    let sv = to_chars(s);
    let pv = to_chars(p);
    let n: usize = sv.len();
    let m: usize = pv.len();
    if m == 0 {
        return s.to_owned();
    }
    let mut out = String::new();
    let mut start: usize = 0;
    let mut i: usize = 0;
    proof {
        assert(s@.subrange(0, n as int) =~= s@);
        assert(out@ + s@.subrange(0, 0) + replaced(s@, p@, t@) =~= replaced(s@, p@, t@));
    }
    while i < n
        invariant
            start <= i <= n,
            n == s@.len(),
            m == p@.len(),
            m > 0,
            sv@ == s@,
            pv@ == p@,
            replaced(s@, p@, t@) == out@ + s@.subrange(start as int, i as int) + replaced(
                s@.subrange(i as int, n as int),
                p@,
                t@,
            ),
        decreases n - i,
    {
        let ghost rest = s@.subrange(i as int, n as int);
        let ghost done = out@;
        let ghost kept = s@.subrange(start as int, i as int);
        if matches_at(&sv, &pv, i) {
            out.append(s.substring_char(start, i));
            out.append(t);
            proof {
                let tail = replaced(s@.subrange(i + m, n as int), p@, t@);
                assert(rest.subrange(m as int, rest.len() as int) =~= s@.subrange(i + m, n as int));
                assert(replaced(rest, p@, t@) == t@ + tail);
                assert(done + kept + (t@ + tail) =~= (done + kept + t@) + s@.subrange(
                    i + m,
                    i + m,
                ) + tail);
            }
            i += m;
            start = i;
        } else {
            proof {
                let tail = replaced(s@.subrange(i + 1, n as int), p@, t@);
                assert(rest.drop_first() =~= s@.subrange(i + 1, n as int));
                if rest.len() < m {
                    assert(replaced(rest, p@, t@) == rest);
                    assert(tail == rest.drop_first());
                    assert(rest =~= seq![rest[0]] + rest.drop_first());
                }
                assert(replaced(rest, p@, t@) == seq![rest[0]] + tail);
                assert(done + kept + (seq![rest[0]] + tail) =~= done + s@.subrange(
                    start as int,
                    i + 1,
                ) + tail);
            }
            i += 1;
        }
    }
    let ghost done = out@;
    out.append(s.substring_char(start, n));
    proof {
        assert(done + s@.subrange(start as int, n as int) + Seq::<char>::empty() =~= out@);
    }
    out
}

/// The strings of `lines` joined by `sep`.
pub fn join(lines: &Vec<String>, sep: &str) -> (r: String)
    ensures
        r@ == joined(texts(lines@), sep@),
{
    let n: usize = lines.len();
    let mut out = String::new();
    let mut i: usize = 0;
    let ghost all = texts(lines@);
    while i < n
        invariant
            i <= n,
            n == lines@.len(),
            all == texts(lines@),
            out@ == joined(all.subrange(0, i as int), sep@),
        decreases n - i,
    {
        let ghost done = out@;
        proof {
            assert(all[i as int] == lines@[i as int]@);
            assert(all.subrange(0, i + 1).drop_last() =~= all.subrange(0, i as int));
        }
        if i > 0 {
            out.append(sep);
        }
        out.append(lines[i].as_str());
        proof {
            if i == 0 {
                assert(out@ =~= all[0]);
            }
        }
        i += 1;
    }
    proof {
        assert(all.subrange(0, n as int) =~= all);
    }
    out
}

/// The strings `a` and `b` in one.
pub fn concat2(a: &str, b: &str) -> (r: String)
    ensures
        r@ == a@ + b@,
{
    a.to_owned().concat(b)
}

/// The strings `a`, `b` and `c` in one.
pub fn concat3(a: &str, b: &str, c: &str) -> (r: String)
    ensures
        r@ == a@ + b@ + c@,
{
    a.to_owned().concat(b).concat(c)
}

} // verus!
