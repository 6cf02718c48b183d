//! Text helpers over the character view of strings: white space, trimming,
//! searching and decimal rendering.

use vstd::prelude::*;
use vstd::std_specs::iter::IteratorSpec;
use vstd::string::{StrSliceExecFns, StringExecFns};

verus! {

broadcast use vstd::string::group_string_axioms;

/// The Unicode `White_Space` property, which is what `char::is_whitespace`
/// tests.
pub open spec fn is_white(c: char) -> bool {
    let n = c as u32;
    ||| 0x09 <= n <= 0x0d
    ||| n == 0x20
    ||| n == 0x85
    ||| n == 0xa0
    ||| n == 0x1680
    ||| 0x2000 <= n <= 0x200a
    ||| n == 0x2028
    ||| n == 0x2029
    ||| n == 0x202f
    ||| n == 0x205f
    ||| n == 0x3000
}

/// `s` without its leading white space.
pub open spec fn trim_start(s: Seq<char>) -> Seq<char>
    decreases s.len(),
{
    if s.len() > 0 && is_white(s[0]) {
        trim_start(s.drop_first())
    } else {
        s
    }
}

/// `s` without its trailing white space.
pub open spec fn trim_end(s: Seq<char>) -> Seq<char>
    decreases s.len(),
{
    if s.len() > 0 && is_white(s.last()) {
        trim_end(s.drop_last())
    } else {
        s
    }
}

/// `s` without leading and trailing white space, as `str::trim` gives it.
pub open spec fn trim(s: Seq<char>) -> Seq<char> {
    trim_end(trim_start(s))
}

/// `trim_start(s)` is a suffix of `s` that, unless empty, begins with a
/// character that is not white space.
pub proof fn lemma_trim_start_suffix(s: Seq<char>) -> (k: int)
    ensures
        0 <= k <= s.len(),
        trim_start(s) == s.subrange(k, s.len() as int),
        trim_start(s).len() > 0 ==> !is_white(trim_start(s)[0]),
    decreases s.len(),
{
    if s.len() > 0 && is_white(s[0]) {
        let k = lemma_trim_start_suffix(s.drop_first());
        assert(s.drop_first().subrange(k, s.drop_first().len() as int) =~= s.subrange(
            k + 1,
            s.len() as int,
        ));
        k + 1
    } else {
        assert(s.subrange(0, s.len() as int) =~= s);
        0
    }
}

/// `trim_end(s)` is a prefix of `s` that, unless empty, ends with a
/// character that is not white space.
pub proof fn lemma_trim_end_prefix(s: Seq<char>) -> (k: int)
    ensures
        0 <= k <= s.len(),
        trim_end(s) == s.subrange(0, k),
        trim_end(s).len() > 0 ==> !is_white(trim_end(s).last()),
    decreases s.len(),
{
    if s.len() > 0 && is_white(s.last()) {
        let k = lemma_trim_end_prefix(s.drop_last());
        assert(s.drop_last().subrange(0, k) =~= s.subrange(0, k));
        k
    } else {
        assert(s.subrange(0, s.len() as int) =~= s);
        s.len() as int
    }
}

/// `trim(s)` is a piece `s[a..b]` of `s` that, unless empty, begins and
/// ends with characters that are not white space.
pub proof fn lemma_trim_range(s: Seq<char>) -> (ab: (int, int))
    ensures
        0 <= ab.0 <= ab.1 <= s.len(),
        trim(s) == s.subrange(ab.0, ab.1),
        trim(s).len() > 0 ==> !is_white(trim(s)[0]) && !is_white(trim(s).last()),
{
    let a = lemma_trim_start_suffix(s);
    let y = trim_start(s);
    let k = lemma_trim_end_prefix(y);
    assert(y.subrange(0, k) =~= s.subrange(a, a + k));
    if trim(s).len() > 0 {
        assert(trim(s)[0] == y[0]);
    }
    (a, a + k)
}

/// Trimming leaves alone a text that begins and ends with characters that
/// are not white space.
pub proof fn lemma_trim_unchanged(t: Seq<char>)
    requires
        t.len() > 0,
        !is_white(t[0]),
        !is_white(t.last()),
    ensures
        trim(t) == t,
{
    assert(trim_start(t) == t);
    assert(trim_end(t) == t);
}

/// `needle` occurs in `hay` starting at position `i`.
pub open spec fn occurs_at(hay: Seq<char>, needle: Seq<char>, i: int) -> bool {
    &&& 0 <= i
    &&& i + needle.len() <= hay.len()
    &&& hay.subrange(i, i + needle.len()) == needle
}

/// `needle` occurs somewhere in `hay`.
pub open spec fn contains(hay: Seq<char>, needle: Seq<char>) -> bool {
    exists|i: int| occurs_at(hay, needle, i)
}

/// `hay` begins with `prefix`.
pub open spec fn has_prefix(hay: Seq<char>, prefix: Seq<char>) -> bool {
    occurs_at(hay, prefix, 0)
}

/// `hay` ends with `suffix`.
pub open spec fn has_suffix(hay: Seq<char>, suffix: Seq<char>) -> bool {
    occurs_at(hay, suffix, hay.len() - suffix.len())
}

/// The ASCII digit for `d < 10`.
pub open spec fn digit_char(d: nat) -> char {
    (48 + d) as char
}

/// The decimal rendering of `n`, most significant digit first, as
/// `Display` gives it for unsigned integers.
pub open spec fn decimal(n: nat) -> Seq<char>
    decreases n,
{
    if n < 10 {
        seq![digit_char(n)]
    } else {
        decimal(n / 10) + seq![digit_char(n % 10)]
    }
}

/// Collect the characters of `s` in order.
pub fn chars_of(s: &str) -> (v: Vec<char>)
    ensures
        v@ == s@,
{
    let mut it = s.chars();
    let mut v: Vec<char> = Vec::new();
    loop
        invariant
            v@ + it.remaining() == s@,
            it.obeys_prophetic_iter_laws(),
            it.decrease() is Some,
        decreases it.decrease()->0,
    {
        let next = it.next();
        match next {
            Some(c) => {
                v.push(c);
            },
            None => {
                return v;
            },
        }
    }
}

/// Whether `c` is white space, as `char::is_whitespace` decides.
pub fn is_whitespace(c: char) -> (b: bool)
    ensures
        b == is_white(c),
{
    let n = c as u32;
    (0x09 <= n && n <= 0x0d) || n == 0x20 || n == 0x85 || n == 0xa0 || n == 0x1680 || (0x2000
        <= n && n <= 0x200a) || n == 0x2028 || n == 0x2029 || n == 0x202f || n == 0x205f || n
        == 0x3000
}

/// The bounds of `v[lo..hi]` without its leading and trailing white space.
pub fn trim_range(v: &Vec<char>, lo: usize, hi: usize) -> (r: (usize, usize))
    requires
        lo <= hi <= v@.len(),
    ensures
        lo <= r.0 <= r.1 <= hi,
        v@.subrange(r.0 as int, r.1 as int) == trim(v@.subrange(lo as int, hi as int)),
{
    let ghost s = v@.subrange(lo as int, hi as int);
    let mut start: usize = lo;
    while start < hi && is_whitespace(v[start])
        invariant
            lo <= start <= hi <= v@.len(),
            s == v@.subrange(lo as int, hi as int),
            trim_start(s) == trim_start(v@.subrange(start as int, hi as int)),
        decreases hi - start,
    {
        proof {
            let t = v@.subrange(start as int, hi as int);
            assert(t.drop_first() =~= v@.subrange(start + 1, hi as int));
        }
        start = start + 1;
    }
    assert(trim_start(v@.subrange(start as int, hi as int)) == v@.subrange(start as int, hi as int));
    let mut end: usize = hi;
    while end > start && is_whitespace(v[end - 1])
        invariant
            lo <= start <= end <= hi <= v@.len(),
            trim(s) == trim_end(v@.subrange(start as int, end as int)),
        decreases end,
    {
        proof {
            let t = v@.subrange(start as int, end as int);
            assert(t.drop_last() =~= v@.subrange(start as int, end - 1));
        }
        end = end - 1;
    }
    assert(trim_end(v@.subrange(start as int, end as int)) == v@.subrange(
        start as int,
        end as int,
    ));
    (start, end)
}

/// `s` with leading and trailing white space removed (`str::trim`).
pub fn trim_str<'a>(s: &'a str) -> (r: &'a str)
    ensures
        r@ == trim(s@),
{
    let v = chars_of(s);
    assert(v@.subrange(0, v@.len() as int) =~= v@);
    let (start, end) = trim_range(&v, 0, v.len());
    s.substring_char(start, end)
}

/// `s` after removing `p` from its front as many times as it occurs there
/// (`str::trim_start_matches` with a string pattern).
pub open spec fn strip_prefix_all(s: Seq<char>, p: Seq<char>) -> Seq<char>
    decreases s.len(),
{
    if p.len() > 0 && has_prefix(s, p) {
        strip_prefix_all(s.skip(p.len() as int), p)
    } else {
        s
    }
}

/// `s` after removing `p` from its end as many times as it occurs there
/// (`str::trim_end_matches` with a string pattern).
pub open spec fn strip_suffix_all(s: Seq<char>, p: Seq<char>) -> Seq<char>
    decreases s.len(),
{
    if p.len() > 0 && has_suffix(s, p) {
        strip_suffix_all(s.take(s.len() - p.len()), p)
    } else {
        s
    }
}

/// `strip_prefix_all(s, p)` is a suffix of `s`.
pub proof fn lemma_strip_prefix_all_suffix(s: Seq<char>, p: Seq<char>) -> (k: int)
    ensures
        0 <= k <= s.len(),
        strip_prefix_all(s, p) == s.subrange(k, s.len() as int),
    decreases s.len(),
{
    if p.len() > 0 && has_prefix(s, p) {
        let rest = s.skip(p.len() as int);
        let k = lemma_strip_prefix_all_suffix(rest, p);
        assert(rest.subrange(k, rest.len() as int) =~= s.subrange(
            k + p.len(),
            s.len() as int,
        ));
        k + p.len()
    } else {
        assert(s.subrange(0, s.len() as int) =~= s);
        0
    }
}

/// `strip_suffix_all(s, p)` is a prefix of `s`.
pub proof fn lemma_strip_suffix_all_prefix(s: Seq<char>, p: Seq<char>) -> (k: int)
    ensures
        0 <= k <= s.len(),
        strip_suffix_all(s, p) == s.subrange(0, k),
    decreases s.len(),
{
    if p.len() > 0 && has_suffix(s, p) {
        let rest = s.take(s.len() - p.len());
        let k = lemma_strip_suffix_all_prefix(rest, p);
        assert(rest.subrange(0, k) =~= s.subrange(0, k));
        k
    } else {
        assert(s.subrange(0, s.len() as int) =~= s);
        s.len() as int
    }
}

/// The new start of `v[lo..hi]` once `p` is removed from its front as often
/// as it occurs there.
pub fn strip_prefix_all_range(v: &Vec<char>, lo: usize, hi: usize, p: &Vec<char>) -> (r: usize)
    requires
        lo <= hi <= v@.len(),
    ensures
        lo <= r <= hi,
        v@.subrange(r as int, hi as int) == strip_prefix_all(v@.subrange(lo as int, hi as int), p@),
{
    let m = p.len();
    if m == 0 {
        return lo;
    }
    let mut a: usize = lo;
    loop
        invariant
            lo <= a <= hi <= v@.len(),
            m == p@.len(),
            m > 0,
            strip_prefix_all(v@.subrange(lo as int, hi as int), p@) == strip_prefix_all(
                v@.subrange(a as int, hi as int),
                p@,
            ),
        decreases hi - a,
    {
        let t = Ghost(v@.subrange(a as int, hi as int));
        if hi - a < m {
            assert(!has_prefix(t@, p@));
            return a;
        }
        let found = occurs_at_exec(v, p, a);
        proof {
            assert(t@.subrange(0, m as int) =~= v@.subrange(a as int, a + m));
        }
        if !found {
            assert(!has_prefix(t@, p@));
            return a;
        }
        proof {
            assert(t@.skip(m as int) =~= v@.subrange(a + m, hi as int));
        }
        a = a + m;
    }
}

/// The new end of `v[lo..hi]` once `p` is removed from its end as often as
/// it occurs there.
pub fn strip_suffix_all_range(v: &Vec<char>, lo: usize, hi: usize, p: &Vec<char>) -> (r: usize)
    requires
        lo <= hi <= v@.len(),
    ensures
        lo <= r <= hi,
        v@.subrange(lo as int, r as int) == strip_suffix_all(v@.subrange(lo as int, hi as int), p@),
{
    let m = p.len();
    if m == 0 {
        return hi;
    }
    let mut b: usize = hi;
    loop
        invariant
            lo <= b <= hi <= v@.len(),
            m == p@.len(),
            m > 0,
            strip_suffix_all(v@.subrange(lo as int, hi as int), p@) == strip_suffix_all(
                v@.subrange(lo as int, b as int),
                p@,
            ),
        decreases b,
    {
        let t = Ghost(v@.subrange(lo as int, b as int));
        if b - lo < m {
            assert(!has_suffix(t@, p@));
            return b;
        }
        let found = occurs_at_exec(v, p, b - m);
        proof {
            assert(t@.subrange(t@.len() - m, t@.len() as int) =~= v@.subrange(b - m, b as int));
        }
        if !found {
            assert(!has_suffix(t@, p@));
            return b;
        }
        proof {
            assert(t@.take(t@.len() - m) =~= v@.subrange(lo as int, b - m));
        }
        b = b - m;
    }
}

/// `i` is the first position of `c` in `s`.
pub open spec fn is_first_index(s: Seq<char>, c: char, i: int) -> bool {
    &&& 0 <= i < s.len()
    &&& s[i] == c
    &&& forall|j: int| 0 <= j < i ==> s[j] != c
}

/// `i` is the last position of `c` in `s`.
pub open spec fn is_last_index(s: Seq<char>, c: char, i: int) -> bool {
    &&& 0 <= i < s.len()
    &&& s[i] == c
    &&& forall|j: int| i < j < s.len() ==> s[j] != c
}

/// The first position of `c` in `v` (`str::find` with a `char`, counted in
/// characters).
pub fn find_char(v: &Vec<char>, c: char) -> (r: Option<usize>)
    ensures
        r matches Some(i) ==> is_first_index(v@, c, i as int),
        r is None ==> forall|j: int| 0 <= j < v@.len() ==> v@[j] != c,
{
    let mut i: usize = 0;
    while i < v.len()
        invariant
            i <= v@.len(),
            forall|j: int| 0 <= j < i ==> v@[j] != c,
        decreases v@.len() - i,
    {
        if v[i] == c {
            return Some(i);
        }
        i = i + 1;
    }
    None
}

/// The last position of `c` in `v` (`str::rfind` with a `char`, counted in
/// characters).
pub fn rfind_char(v: &Vec<char>, c: char) -> (r: Option<usize>)
    ensures
        r matches Some(i) ==> is_last_index(v@, c, i as int),
        r is None ==> forall|j: int| 0 <= j < v@.len() ==> v@[j] != c,
{
    let mut i: usize = v.len();
    while i > 0
        invariant
            i <= v@.len(),
            forall|j: int| i <= j < v@.len() ==> v@[j] != c,
        decreases i,
    {
        if v[i - 1] == c {
            return Some(i - 1);
        }
        i = i - 1;
    }
    None
}

/// Whether `needle` occurs in `hay` at position `i` (character positions).
pub fn occurs_at_exec(hay: &Vec<char>, needle: &Vec<char>, i: usize) -> (b: bool)
    requires
        i + needle.len() <= hay.len(),
    ensures
        b == occurs_at(hay@, needle@, i as int),
{
    let m = needle.len();
    let mut k: usize = 0;
    while k < m
        invariant
            i + m <= hay.len(),
            m == needle.len(),
            k <= m,
            forall|j: int| 0 <= j < k ==> hay@[i + j] == needle@[j],
        decreases m - k,
    {
        if hay[i + k] != needle[k] {
            assert(hay@.subrange(i as int, i + m)[k as int] != needle@[k as int]);
            return false;
        }
        k = k + 1;
    }
    assert(hay@.subrange(i as int, i + m) =~= needle@);
    true
}

/// Whether `needle` occurs anywhere in `hay` (`str::contains`).
pub fn contains_str(hay: &str, needle: &str) -> (b: bool)
    ensures
        b == contains(hay@, needle@),
{
    let h = chars_of(hay);
    let n = chars_of(needle);
    if n.len() > h.len() {
        assert forall|i: int| !occurs_at(hay@, needle@, i) by {}
        return false;
    }
    let last = h.len() - n.len();
    let mut i: usize = 0;
    while i < last
        invariant
            h@ == hay@,
            n@ == needle@,
            last + n.len() == h.len(),
            i <= last,
            forall|j: int| 0 <= j < i ==> !occurs_at(hay@, needle@, j),
        decreases last - i,
    {
        if occurs_at_exec(&h, &n, i) {
            return true;
        }
        i = i + 1;
    }
    if occurs_at_exec(&h, &n, last) {
        return true;
    }
    assert forall|j: int| !occurs_at(hay@, needle@, j) by {
        if 0 <= j < i {
        }
    }
    false
}

/// Whether `hay` begins with `prefix` (`str::starts_with`).
pub fn starts_with_str(hay: &str, prefix: &str) -> (b: bool)
    ensures
        b == has_prefix(hay@, prefix@),
{
    let h = chars_of(hay);
    let p = chars_of(prefix);
    if p.len() > h.len() {
        return false;
    }
    occurs_at_exec(&h, &p, 0)
}

/// Whether `a` and `b` hold the same text (`==` on `str`).
pub fn same_str(a: &str, b: &str) -> (r: bool)
    ensures
        r == (a@ == b@),
{
    let x = chars_of(a);
    let y = chars_of(b);
    if x.len() != y.len() {
        return false;
    }
    let r = occurs_at_exec(&x, &y, 0);
    assert(x@.subrange(0, x@.len() as int) =~= x@);
    r
}

/// Append the decimal digit `d` to `out`.
fn push_digit(d: u64, out: &mut String)
    requires
        d < 10,
    ensures
        final(out)@ == old(out)@.push(digit_char(d as nat)),
{
    proof {
        reveal_strlit("0");
        reveal_strlit("1");
        reveal_strlit("2");
        reveal_strlit("3");
        reveal_strlit("4");
        reveal_strlit("5");
        reveal_strlit("6");
        reveal_strlit("7");
        reveal_strlit("8");
        reveal_strlit("9");
    }
    let ghost before = out@;
    if d == 0 {
        out.append("0");
    } else if d == 1 {
        out.append("1");
    } else if d == 2 {
        out.append("2");
    } else if d == 3 {
        out.append("3");
    } else if d == 4 {
        out.append("4");
    } else if d == 5 {
        out.append("5");
    } else if d == 6 {
        out.append("6");
    } else if d == 7 {
        out.append("7");
    } else if d == 8 {
        out.append("8");
    } else {
        out.append("9");
    }
    assert(out@ =~= before.push(digit_char(d as nat)));
}

fn push_decimal(n: u64, out: &mut String)
    ensures
        final(out)@ == old(out)@ + decimal(n as nat),
    decreases n,
{
    let ghost before = out@;
    if n >= 10 {
        push_decimal(n / 10, out);
    }
    push_digit(n % 10, out);
    proof {
        reveal_with_fuel(decimal, 2);
        assert(out@ =~= before + decimal(n as nat));
    }
}

/// The decimal rendering of `n` (`n.to_string()`).
pub fn decimal_string(n: u64) -> (r: String)
    ensures
        r@ == decimal(n as nat),
{
    let mut s = String::new();
    push_decimal(n, &mut s);
    s
}

} // verus!
