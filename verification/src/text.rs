//! Character-level text utilities shared by the rest of the library.

use vstd::prelude::*;

verus! {

/// Unicode `White_Space` code points, as used by `char::is_whitespace`
/// and by `str::trim`.
pub open spec fn is_white(c: char) -> bool {
    let u = c as u32;
    ||| (0x9 <= u && u <= 0xD)
    ||| u == 0x20
    ||| u == 0x85
    ||| u == 0xA0
    ||| u == 0x1680
    ||| (0x2000 <= u && u <= 0x200A)
    ||| u == 0x2028
    ||| u == 0x2029
    ||| u == 0x202F
    ||| u == 0x205F
    ||| u == 0x3000
}

/// Whether `c` is Unicode white space.
pub fn char_is_white(c: char) -> (r: bool)
    ensures
        r == is_white(c),
{
    let u = c as u32;
    (0x9 <= u && u <= 0xD) || u == 0x20 || u == 0x85 || u == 0xA0 || u == 0x1680 || (0x2000 <= u
        && u <= 0x200A) || u == 0x2028 || u == 0x2029 || u == 0x202F || u == 0x205F || u == 0x3000
}

/// `s` without its leading white space.
pub open spec fn trim_start(s: Seq<char>) -> Seq<char>
    decreases s.len(),
{
    if s.len() > 0 && is_white(s[0]) {
        trim_start(s.drop_first())
    } else {
        s
    }
}

/// `s` without its trailing white space.
pub open spec fn trim_end(s: Seq<char>) -> Seq<char>
    decreases s.len(),
{
    if s.len() > 0 && is_white(s.last()) {
        trim_end(s.drop_last())
    } else {
        s
    }
}

/// `s` without leading and trailing white space (what `str::trim` gives).
pub open spec fn trim(s: Seq<char>) -> Seq<char> {
    trim_end(trim_start(s))
}

/// A string that is empty once trimmed.
pub open spec fn is_blank(s: Seq<char>) -> bool {
    trim(s).len() == 0
}

proof fn lemma_trim_start_skip(s: Seq<char>, i: int)
    requires
        0 <= i <= s.len(),
        forall|k: int| 0 <= k < i ==> is_white(#[trigger] s[k]),
    ensures
        trim_start(s) == trim_start(s.subrange(i, s.len() as int)),
    decreases i,
{
    if i > 0 {
        assert(s.drop_first() =~= s.subrange(1, s.len() as int));
        let t = s.drop_first();
        assert forall|k: int| 0 <= k < i - 1 implies is_white(#[trigger] t[k]) by {
            assert(t[k] == s[k + 1]);
        }
        lemma_trim_start_skip(t, i - 1);
        assert(t.subrange(i - 1, t.len() as int) =~= s.subrange(i, s.len() as int));
    } else {
        assert(s.subrange(0, s.len() as int) =~= s);
    }
}

proof fn lemma_trim_end_skip(s: Seq<char>, j: int)
    requires
        0 <= j <= s.len(),
        forall|k: int| j <= k < s.len() ==> is_white(#[trigger] s[k]),
    ensures
        trim_end(s) == trim_end(s.subrange(0, j)),
    decreases s.len() - j,
{
    if j < s.len() {
        let t = s.drop_last();
        assert forall|k: int| j <= k < t.len() implies is_white(#[trigger] t[k]) by {
            assert(t[k] == s[k]);
        }
        lemma_trim_end_skip(t, j);
        assert(t.subrange(0, j) =~= s.subrange(0, j));
    } else {
        assert(s.subrange(0, j) =~= s);
    }
}

/// The characters of `s`, in order.
pub fn chars_of(s: &str) -> (v: Vec<char>)
    ensures
        v@ == s@,
{
    let mut v: Vec<char> = Vec::new();
    broadcast use vstd::string::group_string_axioms;
    for c in it: s.chars()
        invariant
            v@ == s@.take(it.index() as int),
            it.seq() == s@,
    {
        v.push(c);
    }
    assert(s@.take(s@.len() as int) =~= s@);
    v
}


/// What `str::to_lowercase` gives for a string: the Unicode lowercase mapping,
/// including its context-dependent rules.
pub uninterp spec fn str_lowercase(s: Seq<char>) -> Seq<char>;

/// An ASCII character (code point below 128).
pub open spec fn is_ascii_char(c: char) -> bool {
    (c as u32) < 128
}

/// Every character of `s` is ASCII.
pub open spec fn is_ascii_text(s: Seq<char>) -> bool {
    forall|i: int| 0 <= i < s.len() ==> is_ascii_char(#[trigger] s[i])
}

/// `A`..`Z` mapped to `a`..`z`; every other character left as it is.
pub open spec fn ascii_lower_char(c: char) -> char {
    if 'A' <= c && c <= 'Z' {
        ((c as u32) + 32) as char
    } else {
        c
    }
}

/// `s` with its ASCII letters lower-cased.
pub open spec fn ascii_lower_text(s: Seq<char>) -> Seq<char> {
    s.map_values(|c: char| ascii_lower_char(c))
}

/// The lower-case form of `s`, as `str::to_lowercase` gives it: for ASCII
/// text its ASCII letters lower-cased, otherwise the named Unicode mapping.
pub open spec fn lowercase(s: Seq<char>) -> Seq<char> {
    if is_ascii_text(s) {
        ascii_lower_text(s)
    } else {
        str_lowercase(s)
    }
}

/// Calls `str::to_lowercase`; the result is the named Unicode lowercase mapping
/// of the argument. Of ASCII text the mapping is plain: the ASCII capitals
/// become small letters and every other character stays (the Unicode
/// `Lowercase` mapping of an ASCII character is ASCII lower-casing, and std's
/// implementation lower-cases an ASCII run byte by byte). Nothing more is
/// claimed of non-ASCII text.
#[verifier::external_body]
pub(crate) fn to_lowercase(s: &str) -> (r: String)
    ensures
        r@ == str_lowercase(s@),
        is_ascii_text(s@) ==> r@ == ascii_lower_text(s@),
{
    s.to_lowercase()
}

/// Calls `String::push`: appends one character.
#[verifier::external_body]
pub(crate) fn push_char(s: &mut String, c: char)
    ensures
        final(s)@ == old(s)@.push(c),
{
    s.push(c)
}

/// A new string holding `v[from..to]`.
pub fn string_from_chars(v: &Vec<char>, from: usize, to: usize) -> (r: String)
    requires
        from <= to <= v@.len(),
    ensures
        r@ == v@.subrange(from as int, to as int),
{
    let mut r = String::new();
    let mut k = from;
    while k < to
        invariant
            from <= k <= to <= v@.len(),
            r@ == v@.subrange(from as int, k as int),
        decreases to - k,
    {
        push_char(&mut r, v[k]);
        assert(v@.subrange(from as int, k + 1) =~= v@.subrange(from as int, k as int).push(v@[k as int]));
        k = k + 1;
    }
    r
}

/// An owned copy of `s`.
pub fn owned(s: &str) -> (r: String)
    ensures
        r@ == s@,
{
    let v = chars_of(s);
    string_from_chars(&v, 0, v.len())
}

/// `a` followed by `b`.
pub fn concat(a: &str, b: &str) -> (r: String)
    ensures
        r@ == a@ + b@,
{
    let mut r = owned(a);
    let v = chars_of(b);
    let mut k: usize = 0;
    while k < v.len()
        invariant
            0 <= k <= v@.len(),
            v@ == b@,
            r@ == a@ + b@.subrange(0, k as int),
        decreases v@.len() - k,
    {
        push_char(&mut r, v[k]);
        assert(b@.subrange(0, k + 1) =~= b@.subrange(0, k as int).push(b@[k as int]));
        k = k + 1;
    }
    assert(b@.subrange(0, b@.len() as int) =~= b@);
    r
}

/// `s` without leading and trailing white space.
pub fn trim_str(s: &str) -> (r: String)
    ensures
        r@ == trim(s@),
{
    let v = chars_of(s);
    let n = v.len();
    let mut i: usize = 0;
    while i < n && char_is_white(v[i])
        invariant
            i <= n,
            n == v@.len(),
            v@ == s@,
            forall|k: int| 0 <= k < i ==> is_white(#[trigger] v@[k]),
        decreases n - i,
    {
        i = i + 1;
    }
    let mut j: usize = n;
    while j > i && char_is_white(v[j - 1])
        invariant
            i <= j <= n,
            n == v@.len(),
            v@ == s@,
            forall|k: int| j <= k < n ==> is_white(#[trigger] v@[k]),
        decreases j,
    {
        j = j - 1;
    }
    proof {
        let t = s@.subrange(i as int, n as int);
        lemma_trim_start_skip(s@, i as int);
        if i < n {
            assert(t[0] == s@[i as int]);
        }
        assert(trim_start(t) == t);
        assert forall|k: int| (j - i) <= k < t.len() implies is_white(#[trigger] t[k]) by {
            assert(t[k] == s@[k + i]);
        }
        lemma_trim_end_skip(t, j - i);
        let u = t.subrange(0, j - i);
        if j > i {
            assert(u.last() == s@[j - 1]);
        }
        assert(trim_end(u) == u);
        assert(u =~= s@.subrange(i as int, j as int));
    }
    string_from_chars(&v, i, j)
}

/// Whether `s` is empty or all white space.
pub fn is_blank_str(s: &str) -> (r: bool)
    ensures
        r == is_blank(s@),
{
    let t = trim_str(s);
    t.unicode_len() == 0
}

/// `p` is a prefix of `s`.
pub open spec fn starts_with(s: Seq<char>, p: Seq<char>) -> bool {
    p.len() <= s.len() && s.subrange(0, p.len() as int) == p
}

/// `p` occurs in `s` at position `i`.
pub open spec fn occurs_at(s: Seq<char>, p: Seq<char>, i: int) -> bool {
    0 <= i && i + p.len() <= s.len() && s.subrange(i, i + p.len()) == p
}

/// `p` occurs somewhere in `s`.
pub open spec fn contains(s: Seq<char>, p: Seq<char>) -> bool {
    exists|i: int| occurs_at(s, p, i)
}

/// `p[k..]` occurs in `s` at position `i + k`, read character by character.
pub open spec fn matches_at(s: Seq<char>, p: Seq<char>, i: int, k: int) -> bool
    decreases p.len() - k,
{
    if k >= p.len() {
        true
    } else {
        0 <= i + k < s.len() && s[i + k] == p[k] && matches_at(s, p, i, k + 1)
    }
}

/// `p` occurs in `s` at position `i` or later, searched position by position.
pub open spec fn contains_from(s: Seq<char>, p: Seq<char>, i: int) -> bool
    decreases s.len() + 1 - i,
{
    if i < 0 || i > s.len() {
        false
    } else {
        matches_at(s, p, i, 0) || contains_from(s, p, i + 1)
    }
}

proof fn lemma_matches_at(s: Seq<char>, p: Seq<char>, i: int, k: int)
    requires
        0 <= k <= p.len(),
    ensures
        matches_at(s, p, i, k) == (forall|j: int|
            k <= j < p.len() ==> 0 <= #[trigger] (i + j) < s.len() && s[i + j] == p[j]),
    decreases p.len() - k,
{
    if k < p.len() {
        lemma_matches_at(s, p, i, k + 1);
    }
}

proof fn lemma_occurs_matches(s: Seq<char>, p: Seq<char>, i: int)
    requires
        0 <= i <= s.len(),
    ensures
        occurs_at(s, p, i) == matches_at(s, p, i, 0),
{
    lemma_matches_at(s, p, i, 0);
    if occurs_at(s, p, i) {
        assert forall|j: int| 0 <= j < p.len() implies 0 <= #[trigger] (i + j) < s.len() && s[i
            + j] == p[j] by {
            assert(s.subrange(i, i + p.len())[j] == p[j]);
        }
    }
    if matches_at(s, p, i, 0) {
        if p.len() > 0 {
            assert(0 <= i + (p.len() - 1) < s.len());
        }
        assert(s.subrange(i, i + p.len()) =~= p) by {
            assert forall|j: int| 0 <= j < p.len() implies s.subrange(i, i + p.len())[j] == p[j] by {
                assert(0 <= i + j < s.len() && s[i + j] == p[j]);
            }
        }
    }
}

proof fn lemma_contains_from(s: Seq<char>, p: Seq<char>, i: int)
    requires
        0 <= i <= s.len() + 1,
    ensures
        contains_from(s, p, i) == (exists|j: int| i <= j && #[trigger] occurs_at(s, p, j)),
    decreases s.len() + 1 - i,
{
    if i <= s.len() {
        lemma_contains_from(s, p, i + 1);
        lemma_occurs_matches(s, p, i);
        if exists|j: int| i <= j && #[trigger] occurs_at(s, p, j) {
            let j = choose|j: int| i <= j && #[trigger] occurs_at(s, p, j);
            if j > i {
                assert(i + 1 <= j && occurs_at(s, p, j));
            }
        }
    } else {
        if exists|j: int| i <= j && #[trigger] occurs_at(s, p, j) {
            let j = choose|j: int| i <= j && #[trigger] occurs_at(s, p, j);
            assert(j + p.len() <= s.len());
        }
    }
}

/// Searching position by position finds exactly the occurrences of `p`.
pub proof fn lemma_contains_scan(s: Seq<char>, p: Seq<char>)
    ensures
        contains(s, p) == contains_from(s, p, 0),
{
    lemma_contains_from(s, p, 0);
    if contains(s, p) {
        let j = choose|j: int| occurs_at(s, p, j);
        assert(0 <= j && occurs_at(s, p, j));
    }
}

fn occurs_at_exec(s: &Vec<char>, p: &Vec<char>, i: usize) -> (r: bool)
    requires
        i + p@.len() <= s@.len(),
    ensures
        r == occurs_at(s@, p@, i as int),
{
    let n = s.len();
    let mut k: usize = 0;
    while k < p.len()
        invariant
            n == s@.len(),
            i + p@.len() <= s@.len(),
            0 <= k <= p@.len(),
            forall|m: int| 0 <= m < k ==> s@[i + m] == p@[m],
        decreases p@.len() - k,
    {
        if s[i + k] != p[k] {
            assert(s@.subrange(i as int, i + p@.len())[k as int] != p@[k as int]);
            return false;
        }
        k = k + 1;
    }
    assert(s@.subrange(i as int, i + p@.len()) =~= p@);
    true
}

/// Whether `s` starts with `p`.
pub fn starts_with_str(s: &str, p: &str) -> (r: bool)
    ensures
        r == starts_with(s@, p@),
{
    let sv = chars_of(s);
    let pv = chars_of(p);
    if pv.len() > sv.len() {
        return false;
    }
    occurs_at_exec(&sv, &pv, 0)
}

/// Whether `p` occurs in `s`.
pub fn contains_str(s: &str, p: &str) -> (r: bool)
    ensures
        r == contains(s@, p@),
{
    let sv = chars_of(s);
    let pv = chars_of(p);
    if pv.len() > sv.len() {
        assert forall|i: int| !occurs_at(s@, p@, i) by {}
        return false;
    }
    if pv.len() == 0 {
        assert(s@.subrange(0, 0) =~= p@);
        assert(occurs_at(s@, p@, 0));
        return true;
    }
    let end = sv.len() - pv.len() + 1;
    let mut i: usize = 0;
    while i < end
        invariant
            end + pv@.len() == sv@.len() + 1,
            sv@ == s@,
            pv@ == p@,
            forall|m: int| 0 <= m < i ==> !occurs_at(s@, p@, m),
        decreases end - i,
    {
        if occurs_at_exec(&sv, &pv, i) {
            return true;
        }
        i = i + 1;
    }
    false
}

/// Whether `a` and `b` hold the same characters.
pub fn str_eq(a: &str, b: &str) -> (r: bool)
    ensures
        r == (a@ == b@),
{
    let av = chars_of(a);
    let bv = chars_of(b);
    if av.len() != bv.len() {
        return false;
    }
    let r = occurs_at_exec(&av, &bv, 0);
    assert(a@.subrange(0, b@.len() as int) =~= a@);
    r
}


/// `s` with `p` removed from its start as often as it occurs there
/// (`str::trim_start_matches` with a string pattern).
pub open spec fn strip_prefix_all(s: Seq<char>, p: Seq<char>) -> Seq<char>
    decreases s.len(),
{
    if p.len() > 0 && starts_with(s, p) {
        strip_prefix_all(s.subrange(p.len() as int, s.len() as int), p)
    } else {
        s
    }
}

/// `s` with every leading `p` removed.
pub fn strip_prefix_all_str(s: &str, p: &str) -> (r: String)
    ensures
        r@ == strip_prefix_all(s@, p@),
{
    let sv = chars_of(s);
    let pv = chars_of(p);
    let n = sv.len();
    let m = pv.len();
    if m == 0 {
        return owned(s);
    }
    let mut i: usize = 0;
    assert(s@.subrange(0, n as int) =~= s@);
    while m <= n - i && occurs_at_exec(&sv, &pv, i)
        invariant
            n == sv@.len(),
            m == pv@.len(),
            m > 0,
            sv@ == s@,
            pv@ == p@,
            i <= n,
            strip_prefix_all(s@, p@) == strip_prefix_all(s@.subrange(i as int, n as int), p@),
        decreases n - i,
    {
        proof {
            let t = s@.subrange(i as int, n as int);
            assert(t.subrange(0, m as int) =~= s@.subrange(i as int, i + m));
            assert(t.subrange(m as int, t.len() as int) =~= s@.subrange(i + m, n as int));
        }
        i = i + m;
    }
    proof {
        let t = s@.subrange(i as int, n as int);
        if i + m <= n {
            assert(t.subrange(0, m as int) =~= s@.subrange(i as int, i + m));
        }
    }
    string_from_chars(&sv, i, n)
}

/// `a`, `b` and `c` one after the other.
pub fn concat3(a: &str, b: &str, c: &str) -> (r: String)
    ensures
        r@ == a@ + b@ + c@,
{
    let ab = concat(a, b);
    concat(ab.as_str(), c)
}

} // verus!
