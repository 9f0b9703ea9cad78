//! Verified helpers over text viewed as sequences of characters: substring
//! search, case-insensitive comparison against ASCII tokens, trimming, and
//! decimal conversion.

use vstd::prelude::*;
use vstd::string::*;

verus! {

// ---------------------------------------------------------------------------
// Substring search
// ---------------------------------------------------------------------------

/// `needle` occurs in `hay` starting at position `i`.
pub open spec fn match_at(hay: Seq<char>, needle: Seq<char>, i: int) -> bool {
    &&& 0 <= i
    &&& i + needle.len() <= hay.len()
    &&& hay.subrange(i, i + needle.len() as int) == needle
}

/// `needle` occurs somewhere in `hay`.
pub open spec fn contains_seq(hay: Seq<char>, needle: Seq<char>) -> bool {
    exists|i: int| match_at(hay, needle, i)
}

/// Position of the first occurrence of `needle` in `hay`, or -1 if there is
/// none.  An empty needle occurs at position 0.
pub open spec fn find_seq(hay: Seq<char>, needle: Seq<char>) -> int
    decreases hay.len(),
{
    if needle.len() > hay.len() {
        -1
    } else if match_at(hay, needle, 0) {
        0
    } else if hay.len() == 0 {
        -1
    } else {
        let r = find_seq(hay.drop_first(), needle);
        if r == -1 {
            -1
        } else {
            r + 1
        }
    }
}

/// `find_seq` returns -1 exactly when there is no occurrence, and otherwise
/// the position of the first one.
pub proof fn lemma_find_seq(hay: Seq<char>, needle: Seq<char>)
    ensures
        find_seq(hay, needle) == -1 ==> forall|i: int| !match_at(hay, needle, i),
        find_seq(hay, needle) != -1 ==> {
            let f = find_seq(hay, needle);
            &&& 0 <= f <= hay.len() - needle.len()
            &&& match_at(hay, needle, f)
            &&& forall|j: int| 0 <= j < f ==> !match_at(hay, needle, j)
        },
    decreases hay.len(),
{
    if needle.len() > hay.len() {
        assert forall|i: int| !match_at(hay, needle, i) by {}
    } else if match_at(hay, needle, 0) {
    } else if hay.len() == 0 {
        // needle.len() <= hay.len() == 0, so the needle is empty and matches
        // at 0, contradicting the previous branch.
        assert(hay.subrange(0, needle.len() as int) =~= needle);
        assert(false);
    } else {
        let tail = hay.drop_first();
        lemma_find_seq(tail, needle);
        assert forall|j: int| 0 <= j implies (#[trigger] match_at(tail, needle, j) == match_at(
            hay,
            needle,
            j + 1,
        )) by {
            let n = needle.len() as int;
            if match_at(tail, needle, j) {
                assert(hay.subrange(j + 1, j + 1 + n) =~= tail.subrange(j, j + n));
            }
            if match_at(hay, needle, j + 1) {
                assert(tail.subrange(j, j + n) =~= hay.subrange(j + 1, j + 1 + n));
            }
        }
        let r = find_seq(tail, needle);
        if r == -1 {
            assert forall|i: int| !match_at(hay, needle, i) by {
                if i >= 1 {
                    assert(!match_at(tail, needle, i - 1));
                    assert(match_at(tail, needle, i - 1) == match_at(hay, needle, i - 1 + 1));
                }
            }
        } else {
            assert(match_at(tail, needle, r));
            assert(match_at(hay, needle, r + 1));
            assert forall|j: int| 0 <= j < r + 1 implies !match_at(hay, needle, j) by {
                if j >= 1 {
                    assert(!match_at(tail, needle, j - 1));
                    assert(match_at(tail, needle, j - 1) == match_at(hay, needle, j - 1 + 1));
                }
            }
        }
    }
}

/// Searching for a single character is searching for each position holding
/// it.
pub proof fn lemma_find_char(s: Seq<char>, c: char)
    ensures
        find_seq(s, seq![c]) == -1 ==> forall|j: int| 0 <= j < s.len() ==> s[j] != c,
        find_seq(s, seq![c]) != -1 ==> {
            let f = find_seq(s, seq![c]);
            &&& 0 <= f < s.len()
            &&& s[f] == c
            &&& forall|j: int| 0 <= j < f ==> s[j] != c
        },
{
    lemma_find_seq(s, seq![c]);
    assert forall|j: int| 0 <= j < s.len() implies (#[trigger] match_at(s, seq![c], j) == (s[j]
        == c)) by {
        if s[j] == c {
            assert(s.subrange(j, j + 1) =~= seq![c]);
        }
        if match_at(s, seq![c], j) {
            assert(s.subrange(j, j + 1)[0] == s[j]);
        }
    }
    let f = find_seq(s, seq![c]);
    if f == -1 {
        assert forall|j: int| 0 <= j < s.len() implies s[j] != c by {
            assert(!match_at(s, seq![c], j));
        }
    } else {
        assert(match_at(s, seq![c], f));
        assert forall|j: int| 0 <= j < f implies s[j] != c by {
            assert(!match_at(s, seq![c], j));
        }
    }
}

/// The characters of `s`, collected into a vector.
pub fn to_chars(s: &str) -> (r: Vec<char>)
    ensures
        r@ == s@,
{
    let n = s.unicode_len();
    let mut r: Vec<char> = Vec::new();
    let mut i: usize = 0;
    while i < n
        invariant
            n == s@.len(),
            i <= n,
            r@ == s@.subrange(0, i as int),
        decreases n - i,
    {
        let c = s.get_char(i);
        r.push(c);
        proof {
            assert(r@ =~= s@.subrange(0, i + 1));
        }
        i = i + 1;
    }
    proof {
        assert(r@ =~= s@);
    }
    r
}

/// A copy of the character range `v[from..to]`.
pub fn subvec(v: &Vec<char>, from: usize, to: usize) -> (r: Vec<char>)
    requires
        from <= to <= v@.len(),
    ensures
        r@ == v@.subrange(from as int, to as int),
{
    let mut r: Vec<char> = Vec::new();
    let mut i = from;
    while i < to
        invariant
            from <= i <= to <= v@.len(),
            r@ == v@.subrange(from as int, i as int),
        decreases to - i,
    {
        r.push(v[i]);
        proof {
            assert(r@ =~= v@.subrange(from as int, i + 1));
        }
        i = i + 1;
    }
    r
}

/// Position of the first occurrence of `needle` in `hay`, if any.
pub fn find_sub(hay: &Vec<char>, needle: &Vec<char>) -> (r: Option<usize>)
    ensures
        match r {
            Some(i) => find_seq(hay@, needle@) == i,
            None => find_seq(hay@, needle@) == -1,
        },
{
    proof {
        lemma_find_seq(hay@, needle@);
    }
    if needle.len() > hay.len() {
        return None;
    }
    if needle.len() == 0 {
        proof {
            assert(hay@.subrange(0, 0) =~= needle@);
            assert(match_at(hay@, needle@, 0));
        }
        return Some(0);
    }
    let hn: usize = hay.len();
    let nn: usize = needle.len();
    let end: usize = hn - nn;
    let mut i: usize = 0;
    while i <= end
        invariant
            1 <= nn <= hn,
            hn == hay@.len(),
            nn == needle@.len(),
            end == hn - nn,
            i <= end + 1,
            forall|j: int| 0 <= j < i ==> !match_at(hay@, needle@, j),
        decreases end + 1 - i,
    {
        let mut k: usize = 0;
        let mut ok = true;
        while k < nn
            invariant
                1 <= nn <= hn,
                hn == hay@.len(),
                nn == needle@.len(),
                i + nn <= hn,
                k <= nn,
                ok ==> forall|m: int| 0 <= m < k ==> hay@[i + m] == needle@[m],
                !ok ==> !match_at(hay@, needle@, i as int),
            decreases nn - k,
        {
            if hay[i + k] != needle[k] {
                proof {
                    let n = needle@.len() as int;
                    assert(hay@.subrange(i as int, i + n)[k as int] == hay@[i + k]);
                }
                ok = false;
                k = nn;
            } else {
                k = k + 1;
            }
        }
        if ok {
            proof {
                lemma_find_seq(hay@, needle@);
                assert(hay@.subrange(i as int, i + needle@.len() as int) =~= needle@);
                assert(match_at(hay@, needle@, i as int));
                let f = find_seq(hay@, needle@);
                assert(f != -1);
                assert(f == i);
            }
            return Some(i);
        }
        i = i + 1;
    }
    proof {
        assert forall|j: int| !match_at(hay@, needle@, j) by {
            if 0 <= j < i {
            }
        }
        lemma_find_seq(hay@, needle@);
        assert(find_seq(hay@, needle@) == -1);
    }
    None
}

/// Whether `needle` occurs anywhere in `hay`.
pub fn contains_chars(hay: &Vec<char>, needle: &Vec<char>) -> (r: bool)
    ensures
        r == contains_seq(hay@, needle@),
{
    proof {
        lemma_find_seq(hay@, needle@);
    }
    match find_sub(hay, needle) {
        Some(i) => {
            proof {
                assert(match_at(hay@, needle@, i as int));
            }
            true
        },
        None => false,
    }
}

/// Whether `hay` contains `needle`, on string slices.
pub fn str_contains(hay: &str, needle: &str) -> (r: bool)
    ensures
        r == contains_seq(hay@, needle@),
{
    let h = to_chars(hay);
    let n = to_chars(needle);
    contains_chars(&h, &n)
}

/// Character-for-character equality of two string slices.
pub fn str_eq(a: &str, b: &str) -> (r: bool)
    ensures
        r == (a@ == b@),
{
    let na = a.unicode_len();
    let nb = b.unicode_len();
    if na != nb {
        return false;
    }
    let mut i: usize = 0;
    while i < na
        invariant
            na == a@.len(),
            na == b@.len(),
            i <= na,
            forall|j: int| 0 <= j < i ==> a@[j] == b@[j],
        decreases na - i,
    {
        let ca = a.get_char(i);
        let cb = b.get_char(i);
        if ca != cb {
            return false;
        }
        i = i + 1;
    }
    proof {
        assert(a@ =~= b@);
    }
    true
}

/// Whether `s` starts with `prefix`.
pub fn str_starts_with(s: &str, prefix: &str) -> (r: bool)
    ensures
        r == (prefix@.len() <= s@.len() && s@.subrange(0, prefix@.len() as int) == prefix@),
{
    let ns = s.unicode_len();
    let np = prefix.unicode_len();
    if np > ns {
        return false;
    }
    let mut i: usize = 0;
    while i < np
        invariant
            np <= ns,
            ns == s@.len(),
            np == prefix@.len(),
            i <= np,
            forall|j: int| 0 <= j < i ==> s@[j] == prefix@[j],
        decreases np - i,
    {
        let cs = s.get_char(i);
        let cp = prefix.get_char(i);
        if cs != cp {
            proof {
                let p = prefix@.len() as int;
                assert(s@.subrange(0, p)[i as int] == s@[i as int]);
            }
            return false;
        }
        i = i + 1;
    }
    proof {
        assert(s@.subrange(0, prefix@.len() as int) =~= prefix@);
    }
    true
}

// ---------------------------------------------------------------------------
// ASCII case-insensitive comparison
// ---------------------------------------------------------------------------

/// The two characters are equal up to ASCII case.
pub open spec fn eq_ci_char(a: char, b: char) -> bool {
    ||| a == b
    ||| ('a' <= a && a <= 'z' && b as int + 32 == a as int)
    ||| ('a' <= b && b <= 'z' && a as int + 32 == b as int)
}

/// The two texts are equal up to ASCII case.
pub open spec fn eq_ci_seq(a: Seq<char>, b: Seq<char>) -> bool {
    a.len() == b.len() && forall|i: int| 0 <= i < a.len() ==> eq_ci_char(a[i], b[i])
}

fn char_eq_ci(a: char, b: char) -> (r: bool)
    ensures
        r == eq_ci_char(a, b),
{
    if a == b {
        true
    } else {
        let ai = a as u32;
        let bi = b as u32;
        ('a' <= a && a <= 'z' && bi + 32 == ai) || ('a' <= b && b <= 'z' && ai + 32 == bi)
    }
}

/// ASCII case-insensitive equality of two string slices.
pub fn str_eq_ci(a: &str, b: &str) -> (r: bool)
    ensures
        r == eq_ci_seq(a@, b@),
{
    let na = a.unicode_len();
    let nb = b.unicode_len();
    if na != nb {
        return false;
    }
    let mut i: usize = 0;
    while i < na
        invariant
            na == a@.len(),
            na == b@.len(),
            i <= na,
            forall|j: int| 0 <= j < i ==> eq_ci_char(a@[j], b@[j]),
        decreases na - i,
    {
        if !char_eq_ci(a.get_char(i), b.get_char(i)) {
            return false;
        }
        i = i + 1;
    }
    true
}

/// ASCII case-insensitive equality of a character range against a token.
pub fn chars_eq_ci(v: &Vec<char>, lo: usize, hi: usize, token: &str) -> (r: bool)
    requires
        lo <= hi <= v@.len(),
    ensures
        r == eq_ci_seq(v@.subrange(lo as int, hi as int), token@),
{
    let n = token.unicode_len();
    if hi - lo != n {
        return false;
    }
    let mut i: usize = 0;
    while i < n
        invariant
            lo <= hi <= v@.len(),
            n == token@.len(),
            hi - lo == n,
            i <= n,
            forall|j: int| 0 <= j < i ==> eq_ci_char(v@[lo + j], token@[j]),
        decreases n - i,
    {
        if !char_eq_ci(v[lo + i], token.get_char(i)) {
            proof {
                assert(v@.subrange(lo as int, hi as int)[i as int] == v@[lo + i]);
            }
            return false;
        }
        i = i + 1;
    }
    proof {
        assert forall|j: int| 0 <= j < n implies eq_ci_char(
            v@.subrange(lo as int, hi as int)[j],
            token@[j],
        ) by {
            assert(v@.subrange(lo as int, hi as int)[j] == v@[lo + j]);
        }
    }
    true
}

// ---------------------------------------------------------------------------
// Trimming
// ---------------------------------------------------------------------------

/// ASCII whitespace.
pub open spec fn is_space(c: char) -> bool {
    c == ' ' || c == '\t' || c == '\r' || c == '\n'
}

/// `s` with leading ASCII whitespace removed.
pub open spec fn trim_start_spec(s: Seq<char>) -> Seq<char>
    decreases s.len(),
{
    if s.len() > 0 && is_space(s[0]) {
        trim_start_spec(s.drop_first())
    } else {
        s
    }
}

/// `s` with trailing ASCII whitespace removed.
pub open spec fn trim_end_spec(s: Seq<char>) -> Seq<char>
    decreases s.len(),
{
    if s.len() > 0 && is_space(s.last()) {
        trim_end_spec(s.drop_last())
    } else {
        s
    }
}

/// `s` with leading and trailing ASCII whitespace removed.
pub open spec fn trim_spec(s: Seq<char>) -> Seq<char> {
    trim_end_spec(trim_start_spec(s))
}

/// `s` with all leading and trailing double quotes removed.
pub open spec fn trim_quotes_start(s: Seq<char>) -> Seq<char>
    decreases s.len(),
{
    if s.len() > 0 && s[0] == '"' {
        trim_quotes_start(s.drop_first())
    } else {
        s
    }
}

pub open spec fn trim_quotes_end(s: Seq<char>) -> Seq<char>
    decreases s.len(),
{
    if s.len() > 0 && s.last() == '"' {
        trim_quotes_end(s.drop_last())
    } else {
        s
    }
}

pub open spec fn trim_quotes_spec(s: Seq<char>) -> Seq<char> {
    trim_quotes_end(trim_quotes_start(s))
}

fn is_space_exec(c: char) -> (r: bool)
    ensures
        r == is_space(c),
{
    c == ' ' || c == '\t' || c == '\r' || c == '\n'
}

/// Bounds `(lo, hi)` such that `v[lo..hi]` within `[from, to)` is the trimmed
/// range: `trim_spec(v[from..to]) == v[lo..hi]`.
pub fn trim_range(v: &Vec<char>, from: usize, to: usize) -> (r: (usize, usize))
    requires
        from <= to <= v@.len(),
    ensures
        from <= r.0 <= r.1 <= to,
        v@.subrange(r.0 as int, r.1 as int) == trim_spec(v@.subrange(from as int, to as int)),
{
    let mut lo = from;
    while lo < to && is_space_exec(v[lo])
        invariant
            from <= lo <= to <= v@.len(),
            trim_start_spec(v@.subrange(from as int, to as int)) == trim_start_spec(
                v@.subrange(lo as int, to as int),
            ),
        decreases to - lo,
    {
        proof {
            let cur = v@.subrange(lo as int, to as int);
            assert(cur[0] == v@[lo as int]);
            assert(cur.drop_first() =~= v@.subrange(lo + 1, to as int));
        }
        lo = lo + 1;
    }
    proof {
        let cur = v@.subrange(lo as int, to as int);
        if cur.len() > 0 {
            assert(cur[0] == v@[lo as int]);
        }
        assert(trim_start_spec(cur) == cur);
    }
    let mut hi = to;
    while hi > lo && is_space_exec(v[hi - 1])
        invariant
            from <= lo <= hi <= to <= v@.len(),
            trim_start_spec(v@.subrange(from as int, to as int)) == v@.subrange(
                lo as int,
                to as int,
            ),
            trim_end_spec(v@.subrange(lo as int, to as int)) == trim_end_spec(
                v@.subrange(lo as int, hi as int),
            ),
        decreases hi,
    {
        proof {
            let cur = v@.subrange(lo as int, hi as int);
            assert(cur.last() == v@[hi - 1]);
            assert(cur.drop_last() =~= v@.subrange(lo as int, hi - 1));
        }
        hi = hi - 1;
    }
    proof {
        let cur = v@.subrange(lo as int, hi as int);
        if cur.len() > 0 {
            assert(cur.last() == v@[hi - 1]);
        }
        assert(trim_end_spec(cur) == cur);
    }
    (lo, hi)
}

/// Bounds `(lo, hi)` such that `trim_quotes_spec(v[from..to]) == v[lo..hi]`.
pub fn trim_quotes_range(v: &Vec<char>, from: usize, to: usize) -> (r: (usize, usize))
    requires
        from <= to <= v@.len(),
    ensures
        from <= r.0 <= r.1 <= to,
        v@.subrange(r.0 as int, r.1 as int) == trim_quotes_spec(
            v@.subrange(from as int, to as int),
        ),
{
    let mut lo = from;
    while lo < to && v[lo] == '"'
        invariant
            from <= lo <= to <= v@.len(),
            trim_quotes_start(v@.subrange(from as int, to as int)) == trim_quotes_start(
                v@.subrange(lo as int, to as int),
            ),
        decreases to - lo,
    {
        proof {
            let cur = v@.subrange(lo as int, to as int);
            assert(cur[0] == v@[lo as int]);
            assert(cur.drop_first() =~= v@.subrange(lo + 1, to as int));
        }
        lo = lo + 1;
    }
    proof {
        let cur = v@.subrange(lo as int, to as int);
        if cur.len() > 0 {
            assert(cur[0] == v@[lo as int]);
        }
        assert(trim_quotes_start(cur) == cur);
    }
    let mut hi = to;
    while hi > lo && v[hi - 1] == '"'
        invariant
            from <= lo <= hi <= to <= v@.len(),
            trim_quotes_start(v@.subrange(from as int, to as int)) == v@.subrange(
                lo as int,
                to as int,
            ),
            trim_quotes_end(v@.subrange(lo as int, to as int)) == trim_quotes_end(
                v@.subrange(lo as int, hi as int),
            ),
        decreases hi,
    {
        proof {
            let cur = v@.subrange(lo as int, hi as int);
            assert(cur.last() == v@[hi - 1]);
            assert(cur.drop_last() =~= v@.subrange(lo as int, hi - 1));
        }
        hi = hi - 1;
    }
    proof {
        let cur = v@.subrange(lo as int, hi as int);
        if cur.len() > 0 {
            assert(cur.last() == v@[hi - 1]);
        }
        assert(trim_quotes_end(cur) == cur);
    }
    (lo, hi)
}

// ---------------------------------------------------------------------------
// Decimal numbers
// ---------------------------------------------------------------------------

pub open spec fn is_digit(c: char) -> bool {
    '0' <= c && c <= '9'
}

pub open spec fn digit_val(c: char) -> int {
    c as int - '0' as int
}

pub open spec fn all_digits(s: Seq<char>) -> bool {
    forall|i: int| 0 <= i < s.len() ==> is_digit(s[i])
}

/// The value of a digit string read as a decimal number.
pub open spec fn dec_val(s: Seq<char>) -> int
    decreases s.len(),
{
    if s.len() == 0 {
        0
    } else {
        dec_val(s.drop_last()) * 10 + digit_val(s.last())
    }
}

/// `s` without an optional single leading `+` sign.
pub open spec fn strip_plus(s: Seq<char>) -> Seq<char> {
    if s.len() > 0 && s[0] == '+' {
        s.drop_first()
    } else {
        s
    }
}

/// `s` is a well-formed decimal number: an optional `+` sign followed by at
/// least one digit.
pub open spec fn is_valid_dec(s: Seq<char>) -> bool {
    strip_plus(s).len() > 0 && all_digits(strip_plus(s))
}

pub proof fn lemma_dec_val_nonneg(s: Seq<char>)
    requires
        all_digits(s),
    ensures
        dec_val(s) >= 0,
    decreases s.len(),
{
    if s.len() > 0 {
        assert(all_digits(s.drop_last())) by {
            assert forall|i: int| 0 <= i < s.drop_last().len() implies is_digit(
                s.drop_last()[i],
            ) by {
                assert(s.drop_last()[i] == s[i]);
            }
        }
        lemma_dec_val_nonneg(s.drop_last());
        assert(is_digit(s.last()));
    }
}

/// Reading more digits never shrinks the value.
pub proof fn lemma_dec_val_prefix(s: Seq<char>, i: int)
    requires
        all_digits(s),
        0 <= i <= s.len(),
    ensures
        dec_val(s.subrange(0, i)) <= dec_val(s),
    decreases s.len() - i,
{
    if i < s.len() {
        let p = s.subrange(0, i);
        let q = s.subrange(0, i + 1);
        assert(q.drop_last() =~= p);
        assert(q.last() == s[i]);
        assert(all_digits(p)) by {
            assert forall|k: int| 0 <= k < p.len() implies is_digit(p[k]) by {
                assert(p[k] == s[k]);
            }
        }
        lemma_dec_val_nonneg(p);
        assert(dec_val(q) == dec_val(p) * 10 + digit_val(s[i]));
        assert(dec_val(p) * 10 >= dec_val(p)) by (nonlinear_arith)
            requires
                dec_val(p) >= 0,
        ;
        lemma_dec_val_prefix(s, i + 1);
        assert(s.subrange(0, s.len() as int) =~= s);
    } else {
        assert(s.subrange(0, i) =~= s);
    }
}

/// Parses `v[from..to]` as a decimal number, as the standard unsigned
/// integer parsers do: an optional leading `+`, then digits.  Returns the
/// value when the text is well formed and the value is at most `max`.
pub fn parse_dec(v: &Vec<char>, from: usize, to: usize, max: u32) -> (r: Option<u32>)
    requires
        from <= to <= v@.len(),
    ensures
        ({
            let s = v@.subrange(from as int, to as int);
            if is_valid_dec(s) && dec_val(strip_plus(s)) <= max {
                r == Some(dec_val(strip_plus(s)) as u32)
            } else {
                r is None
            }
        }),
{
    let ghost s = v@.subrange(from as int, to as int);
    let mut lo = from;
    if lo < to && v[lo] == '+' {
        proof {
            assert(s[0] == v@[from as int]);
        }
        lo = lo + 1;
    }
    let ghost d = strip_plus(s);
    proof {
        assert(d =~= v@.subrange(lo as int, to as int));
    }
    if lo == to {
        return None;
    }
    let mut acc: u64 = 0;
    let mut i = lo;
    while i < to
        invariant
            from <= lo <= i <= to <= v@.len(),
            s == v@.subrange(from as int, to as int),
            d == strip_plus(s),
            d == v@.subrange(lo as int, to as int),
            d.len() == to - lo,
            max <= u32::MAX,
            acc <= max,
            all_digits(d.subrange(0, i - lo)),
            acc == dec_val(d.subrange(0, i - lo)),
        decreases to - i,
    {
        let c = v[i];
        if !('0' <= c && c <= '9') {
            proof {
                assert(d[i - lo] == v@[i as int]);
                assert(!is_digit(d[i - lo]));
                assert(!all_digits(d));
            }
            return None;
        }
        let dv: u64 = (c as u32 - '0' as u32) as u64;
        let next: u64 = acc * 10 + dv;
        proof {
            let p = d.subrange(0, i - lo);
            let q = d.subrange(0, i - lo + 1);
            assert(q.drop_last() =~= p);
            assert(q.last() == d[i - lo] && d[i - lo] == v@[i as int]);
            assert(all_digits(q));
            assert(dec_val(q) == next);
        }
        if next > max as u64 {
            proof {
                let q = d.subrange(0, i - lo + 1);
                if is_valid_dec(s) {
                    lemma_dec_val_prefix(d, i - lo + 1);
                    assert(d.subrange(0, d.len() as int) =~= d);
                    assert(dec_val(d) >= dec_val(q));
                }
            }
            return None;
        }
        acc = next;
        i = i + 1;
    }
    proof {
        assert(d.subrange(0, d.len() as int) =~= d);
    }
    Some(acc as u32)
}

/// The decimal spelling of a non-negative number.
pub open spec fn digit_char(d: int) -> char {
    if d == 0 {
        '0'
    } else if d == 1 {
        '1'
    } else if d == 2 {
        '2'
    } else if d == 3 {
        '3'
    } else if d == 4 {
        '4'
    } else if d == 5 {
        '5'
    } else if d == 6 {
        '6'
    } else if d == 7 {
        '7'
    } else if d == 8 {
        '8'
    } else {
        '9'
    }
}

pub open spec fn dec_digits(n: int) -> Seq<char>
    decreases n,
{
    if n < 0 {
        Seq::empty()
    } else if n < 10 {
        seq![digit_char(n)]
    } else {
        dec_digits(n / 10).push(digit_char(n % 10))
    }
}

fn digit_str(d: u64) -> (r: &'static str)
    requires
        d < 10,
    ensures
        r@ =~= seq![digit_char(d as int)],
{
    proof {
        reveal_strlit("0");
        reveal_strlit("1");
        reveal_strlit("2");
        reveal_strlit("3");
        reveal_strlit("4");
        reveal_strlit("5");
        reveal_strlit("6");
        reveal_strlit("7");
        reveal_strlit("8");
        reveal_strlit("9");
    }
    match d {
        0 => "0",
        1 => "1",
        2 => "2",
        3 => "3",
        4 => "4",
        5 => "5",
        6 => "6",
        7 => "7",
        8 => "8",
        _ => "9",
    }
}

/// Appends the decimal spelling of `n` to `out`.
pub fn push_dec(out: &mut String, n: u64)
    ensures
        final(out)@ == old(out)@ + dec_digits(n as int),
    decreases n,
{
    if n >= 10 {
        push_dec(out, n / 10);
        out.append(digit_str(n % 10));
        proof {
            assert(old(out)@ + dec_digits(n as int) =~= (old(out)@ + dec_digits(n as int / 10))
                + seq![digit_char(n as int % 10)]);
        }
    } else {
        out.append(digit_str(n));
        proof {
            assert(old(out)@ + dec_digits(n as int) =~= old(out)@ + seq![digit_char(n as int)]);
        }
    }
}

/// The decimal spelling of `n`, as a fresh string.
pub fn dec_string(n: u64) -> (r: String)
    ensures
        r@ == dec_digits(n as int),
{
    let mut s = String::new();
    push_dec(&mut s, n);
    proof {
        assert(s@ =~= dec_digits(n as int));
    }
    s
}

} // verus!
