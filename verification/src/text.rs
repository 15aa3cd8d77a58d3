//! Character-level helpers on string slices, stated over `Seq<char>`.

use vstd::prelude::*;

verus! {

/// Whether `a` and `b` hold the same characters.
pub fn str_eq(a: &str, b: &str) -> (r: bool)
    ensures
        r == (a@ == b@),
{
    let n = a.unicode_len();
    let m = b.unicode_len();
    if n != m {
        return false;
    }
    let mut i: usize = 0;
    while i < n
        invariant
            n == a@.len(),
            m == b@.len(),
            n == m,
            i <= n,
            forall|k: int| 0 <= k < i ==> a@[k] == b@[k],
        decreases n - i,
    {
        if a.get_char(i) != b.get_char(i) {
            return false;
        }
        i = i + 1;
    }
    assert(a@ =~= b@);
    true
}

/// Whether `s` begins with the characters of `prefix`.
pub fn starts_with(s: &str, prefix: &str) -> (r: bool)
    ensures
        r == (prefix@.len() <= s@.len() && s@.subrange(0, prefix@.len() as int) == prefix@),
{
    let n = s.unicode_len();
    let m = prefix.unicode_len();
    if m > n {
        return false;
    }
    let mut i: usize = 0;
    while i < m
        invariant
            n == s@.len(),
            m == prefix@.len(),
            m <= n,
            i <= m,
            forall|k: int| 0 <= k < i ==> s@[k] == prefix@[k],
        decreases m - i,
    {
        if s.get_char(i) != prefix.get_char(i) {
            assert(s@.subrange(0, m as int)[i as int] != prefix@[i as int]);
            return false;
        }
        i = i + 1;
    }
    assert(s@.subrange(0, m as int) =~= prefix@);
    true
}

} // verus!

verus! {

/// Joining a relative or absolute path onto a base, as `PathBuf::push`
/// does on Unix: an absolute `name` replaces the base; otherwise a `/`
/// separates the two unless the base is empty or already ends with one.
pub open spec fn path_join_spec(base: Seq<char>, name: Seq<char>) -> Seq<char> {
    if name.len() > 0 && name[0] == '/' {
        name
    } else if base.len() == 0 || base.last() == '/' {
        base + name
    } else {
        base + seq!['/'] + name
    }
}

/// Join `name` onto the path `base`.
pub fn path_join(base: &str, name: &str) -> (r: String)
    ensures
        r@ == path_join_spec(base@, name@),
{
    let n = name.unicode_len();
    if n > 0 && name.get_char(0) == '/' {
        return String::from_str(name);
    }
    let b = base.unicode_len();
    let mut out = String::from_str(base);
    if b > 0 && base.get_char(b - 1) != '/' {
        out.append("/");
        proof {
            reveal_strlit("/");
        }
    }
    out.append(name);
    out
}

} // verus!

verus! {

/// Whether `s` has the two characters `a`, `b` at position `k`.
pub open spec fn pair_at(s: Seq<char>, k: int, a: char, b: char) -> bool {
    0 <= k && k + 1 < s.len() && s[k] == a && s[k + 1] == b
}

/// The first position at or after `i` where the pair `a b` starts, or the
/// length of `s` when there is none.
pub open spec fn find_pair(s: Seq<char>, a: char, b: char, i: int) -> int
    decreases s.len() - i,
{
    if i < 0 || i + 1 >= s.len() {
        s.len() as int
    } else if s[i] == a && s[i + 1] == b {
        i
    } else {
        find_pair(s, a, b, i + 1)
    }
}

/// The last position before `i` where the pair `a b` starts, or -1 when
/// there is none.
pub open spec fn rfind_pair(s: Seq<char>, a: char, b: char, i: int) -> int
    decreases i,
{
    if i <= 0 {
        -1
    } else if pair_at(s, i - 1, a, b) {
        i - 1
    } else {
        rfind_pair(s, a, b, i - 1)
    }
}

pub proof fn lemma_find_pair(s: Seq<char>, a: char, b: char, i: int)
    requires
        0 <= i,
    ensures
        find_pair(s, a, b, i) == s.len() || (i <= find_pair(s, a, b, i) && pair_at(s, find_pair(s, a, b, i), a, b)),
        forall|k: int| i <= k < find_pair(s, a, b, i) ==> !pair_at(s, k, a, b),
    decreases s.len() - i,
{
    if i + 1 < s.len() && !(s[i] == a && s[i + 1] == b) {
        lemma_find_pair(s, a, b, i + 1);
    }
}

pub proof fn lemma_rfind_pair(s: Seq<char>, a: char, b: char, i: int)
    ensures
        rfind_pair(s, a, b, i) == -1 || (rfind_pair(s, a, b, i) < i && pair_at(s, rfind_pair(s, a, b, i), a, b)),
        forall|k: int| rfind_pair(s, a, b, i) < k < i ==> !pair_at(s, k, a, b),
    decreases i,
{
    if i > 0 && !pair_at(s, i - 1, a, b) {
        lemma_rfind_pair(s, a, b, i - 1);
    }
}

/// The first position where `a b` starts in `s`, or the length of `s`.
pub fn find_pair_exec(s: &str, a: char, b: char) -> (k: usize)
    ensures
        k == find_pair(s@, a, b, 0),
        k <= s@.len(),
{
    let n = s.unicode_len();
    let mut i: usize = 0;
    while i < n && i + 1 < n
        invariant
            n == s@.len(),
            i <= n,
            find_pair(s@, a, b, 0) == find_pair(s@, a, b, i as int),
        decreases n - i,
    {
        if s.get_char(i) == a && s.get_char(i + 1) == b {
            return i;
        }
        i = i + 1;
    }
    n
}

/// The last position where `a b` starts in `s`, or `None`.
pub fn rfind_pair_exec(s: &str, a: char, b: char) -> (k: Option<usize>)
    ensures
        match k {
            Some(k) => k == rfind_pair(s@, a, b, s@.len() as int),
            None => rfind_pair(s@, a, b, s@.len() as int) == -1,
        },
{
    let n = s.unicode_len();
    let mut i: usize = n;
    while i > 0
        invariant
            n == s@.len(),
            i <= n,
            rfind_pair(s@, a, b, n as int) == rfind_pair(s@, a, b, i as int),
        decreases i,
    {
        if i < n && s.get_char(i - 1) == a && s.get_char(i) == b {
            return Some(i - 1);
        }
        i = i - 1;
    }
    None
}

/// Unicode white space, as `char::is_whitespace` tells it.
pub open spec fn is_space(c: char) -> bool {
    ('\u{9}' <= c <= '\u{d}') || c == ' ' || c == '\u{85}' || c == '\u{a0}' || c == '\u{1680}'
        || ('\u{2000}' <= c <= '\u{200a}') || c == '\u{2028}' || c == '\u{2029}' || c == '\u{202f}'
        || c == '\u{205f}' || c == '\u{3000}'
}

/// Whether `c` is Unicode white space.
pub fn is_space_exec(c: char) -> (b: bool)
    ensures
        b == is_space(c),
{
    ('\u{9}' <= c && c <= '\u{d}') || c == ' ' || c == '\u{85}' || c == '\u{a0}' || c == '\u{1680}'
        || ('\u{2000}' <= c && c <= '\u{200a}') || c == '\u{2028}' || c == '\u{2029}' || c == '\u{202f}'
        || c == '\u{205f}' || c == '\u{3000}'
}

/// The number of leading white-space characters of `s`.
pub open spec fn lead_space(s: Seq<char>, i: int) -> int
    decreases s.len() - i,
{
    if i < 0 || i >= s.len() || !is_space(s[i]) {
        i
    } else {
        lead_space(s, i + 1)
    }
}

/// The end of `s` once trailing white space (down to `lo`) is cut.
pub open spec fn trail_space(s: Seq<char>, lo: int, j: int) -> int
    decreases j - lo,
{
    if j <= lo || !is_space(s[j - 1]) {
        j
    } else {
        trail_space(s, lo, j - 1)
    }
}

/// `s` without leading and trailing white space.
pub open spec fn trim_spec(s: Seq<char>) -> Seq<char> {
    let lo = lead_space(s, 0);
    s.subrange(lo, trail_space(s, lo, s.len() as int))
}

pub proof fn lemma_lead_space(s: Seq<char>, i: int)
    requires
        0 <= i <= s.len(),
    ensures
        i <= lead_space(s, i) <= s.len(),
    decreases s.len() - i,
{
    if i < s.len() && is_space(s[i]) {
        lemma_lead_space(s, i + 1);
    }
}

pub proof fn lemma_trail_space(s: Seq<char>, lo: int, j: int)
    requires
        0 <= lo <= j <= s.len(),
    ensures
        lo <= trail_space(s, lo, j) <= j,
    decreases j - lo,
{
    if j > lo && is_space(s[j - 1]) {
        lemma_trail_space(s, lo, j - 1);
    }
}

/// `s` without leading and trailing white space.
pub fn trim(s: &str) -> (r: String)
    ensures
        r@ == trim_spec(s@),
{
    let n = s.unicode_len();
    let mut lo: usize = 0;
    while lo < n && is_space_exec(s.get_char(lo))
        invariant
            n == s@.len(),
            lo <= n,
            lead_space(s@, 0) == lead_space(s@, lo as int),
        decreases n - lo,
    {
        lo = lo + 1;
    }
    let mut hi: usize = n;
    while hi > lo && is_space_exec(s.get_char(hi - 1))
        invariant
            n == s@.len(),
            lo <= hi <= n,
            lo == lead_space(s@, 0),
            trail_space(s@, lo as int, n as int) == trail_space(s@, lo as int, hi as int),
        decreases hi - lo,
    {
        hi = hi - 1;
    }
    String::from_str(s.substring_char(lo, hi))
}

} // verus!

verus! {

/// The characters of `s`, in a vector.
pub fn chars_of(s: &str) -> (v: Vec<char>)
    ensures
        v@ == s@,
{
    let mut v: Vec<char> = Vec::new();
    for c in it: s.chars()
        invariant
            v@ == it.seq().take(it.index() as int),
    {
        v.push(c);
    }
    assert(v@ =~= s@);
    v
}

/// `String::push`: appends one character to the end of the string.
#[verifier::external_body]
fn push_char(s: &mut String, c: char)
    ensures
        final(s)@ == old(s)@.push(c),
{
    s.push(c);
}

/// The string of the characters `v[lo..hi]`.
pub fn string_of(v: &Vec<char>, lo: usize, hi: usize) -> (r: String)
    requires
        lo <= hi <= v@.len(),
    ensures
        r@ == v@.subrange(lo as int, hi as int),
{
    let mut r = String::new();
    let mut i = lo;
    while i < hi
        invariant
            lo <= i <= hi <= v@.len(),
            r@ == v@.subrange(lo as int, i as int),
        decreases hi - i,
    {
        push_char(&mut r, v[i]);
        assert(r@ =~= v@.subrange(lo as int, i + 1));
        i = i + 1;
    }
    r
}

} // verus!

verus! {

/// The decimal digits of `n`, most significant first, as `Display` writes
/// an unsigned integer.
pub open spec fn decimal(n: nat) -> Seq<char>
    decreases n,
{
    if n < 10 {
        seq![digit_char(n)]
    } else {
        decimal(n / 10).push(digit_char(n % 10))
    }
}

pub open spec fn digit_char(d: nat) -> char {
    if d == 0 {
        '0'
    } else if d == 1 {
        '1'
    } else if d == 2 {
        '2'
    } else if d == 3 {
        '3'
    } else if d == 4 {
        '4'
    } else if d == 5 {
        '5'
    } else if d == 6 {
        '6'
    } else if d == 7 {
        '7'
    } else if d == 8 {
        '8'
    } else {
        '9'
    }
}

fn digit_exec(d: usize) -> (c: char)
    requires
        d < 10,
    ensures
        c == digit_char(d as nat),
{
    if d == 0 {
        '0'
    } else if d == 1 {
        '1'
    } else if d == 2 {
        '2'
    } else if d == 3 {
        '3'
    } else if d == 4 {
        '4'
    } else if d == 5 {
        '5'
    } else if d == 6 {
        '6'
    } else if d == 7 {
        '7'
    } else if d == 8 {
        '8'
    } else {
        '9'
    }
}

/// The decimal text of `n`.
pub fn decimal_text(n: usize) -> (s: String)
    ensures
        s@ == decimal(n as nat),
    decreases n,
{
    if n < 10 {
        let mut s = String::new();
        push_char(&mut s, digit_exec(n));
        assert(s@ =~= seq![digit_char(n as nat)]);
        s
    } else {
        let mut s = decimal_text(n / 10);
        push_char(&mut s, digit_exec(n % 10));
        s
    }
}

} // verus!
