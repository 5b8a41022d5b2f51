//! Character-level text helpers with exact specifications: whitespace,
//! trimming, substring search, word splitting and UTF-8 lengths.

use vstd::prelude::*;

verus! {

/// Unicode `White_Space` property, the set that `char::is_whitespace` tests.
pub open spec fn is_white_space(c: char) -> bool {
    let u = c as u32;
    ||| 0x9 <= u <= 0xD
    ||| u == 0x20
    ||| u == 0x85
    ||| u == 0xA0
    ||| u == 0x1680
    ||| 0x2000 <= u <= 0x200A
    ||| u == 0x2028
    ||| u == 0x2029
    ||| u == 0x202F
    ||| u == 0x205F
    ||| u == 0x3000
}

/// Whether `c` is a whitespace character.
pub fn is_whitespace_char(c: char) -> (b: bool)
    ensures
        b == is_white_space(c),
{
    let u = c as u32;
    (0x9 <= u && u <= 0xD) || u == 0x20 || u == 0x85 || u == 0xA0 || u == 0x1680 || (0x2000
        <= u && u <= 0x200A) || u == 0x2028 || u == 0x2029 || u == 0x202F || u == 0x205F || u
        == 0x3000
}

/// Every character of `s` is whitespace (so `s` trims to nothing).
pub open spec fn all_white(s: Seq<char>) -> bool {
    forall|i: int| 0 <= i < s.len() ==> is_white_space(#[trigger] s[i])
}

/// The characters of `s`, in order.
pub fn chars_of(s: &str) -> (v: Vec<char>)
    ensures
        v@ == s@,
{
    let n = s.unicode_len();
    let mut v: Vec<char> = Vec::new();
    for i in 0..n
        invariant
            n == s@.len(),
            v@ == s@.subrange(0, i as int),
    {
        v.push(s.get_char(i));
    }
    v
}

/// Whether `s` is empty or made of whitespace only.
pub fn is_blank(s: &str) -> (b: bool)
    ensures
        b == all_white(s@),
{
    let v = chars_of(s);
    for i in 0..v.len()
        invariant
            v@ == s@,
            forall|j: int| 0 <= j < i ==> is_white_space(#[trigger] s@[j]),
    {
        if !is_whitespace_char(v[i]) {
            return false;
        }
    }
    true
}

} // verus!

verus! {

/// `s` without its leading whitespace.
pub open spec fn trim_start(s: Seq<char>) -> Seq<char>
    decreases s.len(),
{
    if s.len() > 0 && is_white_space(s[0]) {
        trim_start(s.drop_first())
    } else {
        s
    }
}

/// `s` without its trailing whitespace.
pub open spec fn trim_end(s: Seq<char>) -> Seq<char>
    decreases s.len(),
{
    if s.len() > 0 && is_white_space(s.last()) {
        trim_end(s.drop_last())
    } else {
        s
    }
}

/// `s` without leading and trailing whitespace (what `str::trim` gives).
pub open spec fn trimmed(s: Seq<char>) -> Seq<char> {
    trim_end(trim_start(s))
}

/// Skipping a whitespace run `[i, j)` that ends at a non-whitespace character
/// (or at the end) is what `trim_start` does to `s.skip(i)`.
pub proof fn lemma_trim_start_skip(s: Seq<char>, i: int, j: int)
    requires
        0 <= i <= j <= s.len(),
        forall|m: int| i <= m < j ==> is_white_space(#[trigger] s[m]),
        j == s.len() || !is_white_space(s[j]),
    ensures
        trim_start(s.skip(i)) == s.skip(j),
    decreases j - i,
{
    if i < j {
        assert(s.skip(i).drop_first() =~= s.skip(i + 1));
        lemma_trim_start_skip(s, i + 1, j);
    } else {
        if j < s.len() {
            assert(s.skip(i)[0] == s[j]);
        }
    }
}

/// Dropping a trailing whitespace run `[b, c)` of `s.take(c)` that starts after a
/// non-whitespace character (or at the start) is what `trim_end` does.
pub proof fn lemma_trim_end_take(s: Seq<char>, b: int, c: int)
    requires
        0 <= b <= c <= s.len(),
        forall|m: int| b <= m < c ==> is_white_space(#[trigger] s[m]),
        b == 0 || !is_white_space(s[b - 1]),
    ensures
        trim_end(s.take(c)) == s.take(b),
    decreases c - b,
{
    if b < c {
        assert(s.take(c).drop_last() =~= s.take(c - 1));
        assert(s.take(c).last() == s[c - 1]);
        lemma_trim_end_take(s, b, c - 1);
    } else {
        if b > 0 {
            assert(s.take(c).last() == s[b - 1]);
        }
    }
}

/// Index of the first non-whitespace character of `v` at or after `i`
/// (or `v.len()`).
pub fn skip_white(v: &Vec<char>, i: usize) -> (j: usize)
    requires
        i <= v.len(),
    ensures
        i <= j <= v.len(),
        forall|m: int| i <= m < j ==> is_white_space(#[trigger] v@[m]),
        j == v.len() || !is_white_space(v@[j as int]),
{
    let mut j = i;
    while j < v.len() && is_whitespace_char(v[j])
        invariant
            i <= j <= v.len(),
            forall|m: int| i <= m < j ==> is_white_space(#[trigger] v@[m]),
        decreases v.len() - j,
    {
        j = j + 1;
    }
    j
}

/// Index just after the last non-whitespace character of `v[lo..hi]`
/// (or `lo`).
pub fn trim_white_end(v: &Vec<char>, lo: usize, hi: usize) -> (b: usize)
    requires
        lo <= hi <= v.len(),
    ensures
        lo <= b <= hi,
        forall|m: int| b <= m < hi ==> is_white_space(#[trigger] v@[m]),
        b == lo || !is_white_space(v@[b - 1]),
{
    let mut b = hi;
    while b > lo && is_whitespace_char(v[b - 1])
        invariant
            lo <= b <= hi,
            hi <= v.len(),
            forall|m: int| b <= m < hi ==> is_white_space(#[trigger] v@[m]),
        decreases b - lo,
    {
        b = b - 1;
    }
    b
}

/// Bounds `[a, b)` of `v` that hold `trimmed(v)`.
pub fn trim_bounds(v: &Vec<char>) -> (r: (usize, usize))
    ensures
        r.0 <= r.1 <= v.len(),
        v@.subrange(r.0 as int, r.1 as int) == trimmed(v@),
{
    let a = skip_white(v, 0);
    let b = trim_white_end(v, a, v.len());
    proof {
        let s = v@;
        assert(s.skip(0) =~= s);
        lemma_trim_start_skip(s, 0, a as int);
        let t = s.skip(a as int);
        assert forall|m: int| (b - a) <= m < (v.len() - a) implies is_white_space(#[trigger] t[m]) by {
            assert(t[m] == s[m + a]);
        }
        if b > a {
            assert(t[b - a - 1] == s[b - 1]);
        }
        lemma_trim_end_take(t, (b - a) as int, (v.len() - a) as int);
        assert(t.take((v.len() - a) as int) =~= t);
        assert(t.take((b - a) as int) =~= s.subrange(a as int, b as int));
    }
    (a, b)
}

/// `s` trimmed of leading and trailing whitespace.
pub fn trim_str(s: &str) -> (r: String)
    ensures
        r@ == trimmed(s@),
{
    let v = chars_of(s);
    let (a, b) = trim_bounds(&v);
    s.substring_char(a, b).to_owned()
}

/// `needle` occurs in `hay` at position `i`.
pub open spec fn occurs_at(hay: Seq<char>, needle: Seq<char>, i: int) -> bool {
    0 <= i && i + needle.len() <= hay.len() && hay.subrange(i, i + needle.len()) == needle
}

/// `needle` is a contiguous part of `hay` (what `str::contains` tests).
pub open spec fn is_substring(hay: Seq<char>, needle: Seq<char>) -> bool {
    exists|i: int| occurs_at(hay, needle, i)
}

/// Whether `needle` occurs in `hay` at position `i`.
fn matches_at(hay: &Vec<char>, needle: &Vec<char>, i: usize) -> (b: bool)
    requires
        i + needle.len() <= hay.len(),
    ensures
        b == occurs_at(hay@, needle@, i as int),
{
    for k in 0..needle.len()
        invariant
            i + needle.len() <= hay.len(),
            forall|m: int| 0 <= m < k ==> hay@[i + m] == needle@[m],
    {
        if hay[i + k] != needle[k] {
            assert(hay@.subrange(i as int, i + needle.len())[k as int] != needle@[k as int]);
            return false;
        }
    }
    assert(hay@.subrange(i as int, i + needle.len()) =~= needle@);
    true
}

/// Whether `needle` is a contiguous part of `hay`.
pub fn contains_chars(hay: &Vec<char>, needle: &Vec<char>) -> (b: bool)
    ensures
        b == is_substring(hay@, needle@),
{
    if needle.len() > hay.len() {
        return false;
    }
    let last = hay.len() - needle.len();
    let mut i: usize = 0;
    while i < last
        invariant
            i <= last,
            last + needle.len() == hay.len(),
            forall|m: int| 0 <= m < i ==> !occurs_at(hay@, needle@, m),
        decreases last - i,
    {
        if matches_at(hay, needle, i) {
            return true;
        }
        i = i + 1;
    }
    if matches_at(hay, needle, last) {
        return true;
    }
    assert forall|m: int| !occurs_at(hay@, needle@, m) by {
        if 0 <= m < i {
        }
    }
    false
}

} // verus!

verus! {

/// Length of the run of non-whitespace characters that starts `s`.
pub open spec fn word_len(s: Seq<char>) -> nat
    decreases s.len(),
{
    if s.len() > 0 && !is_white_space(s[0]) {
        1 + word_len(s.drop_first())
    } else {
        0
    }
}

/// `trim_start` keeps a suffix of `s` that starts with a non-whitespace character.
pub proof fn lemma_trim_start_shape(s: Seq<char>)
    ensures
        trim_start(s).len() <= s.len(),
        trim_start(s).len() > 0 ==> !is_white_space(trim_start(s)[0]),
    decreases s.len(),
{
    if s.len() > 0 && is_white_space(s[0]) {
        lemma_trim_start_shape(s.drop_first());
    }
}

/// A word never runs past the end of `s`.
pub proof fn lemma_word_len_bound(s: Seq<char>)
    ensures
        word_len(s) <= s.len(),
    decreases s.len(),
{
    if s.len() > 0 && !is_white_space(s[0]) {
        lemma_word_len_bound(s.drop_first());
    }
}

/// The whitespace-separated words of `s`, in order (what `str::split_whitespace` yields).
pub open spec fn words(s: Seq<char>) -> Seq<Seq<char>>
    decreases s.len(),
{
    let t = trim_start(s);
    if t.len() == 0 {
        Seq::empty()
    } else {
        proof {
            lemma_trim_start_shape(s);
            lemma_word_len_bound(t);
        }
        seq![t.take(word_len(t) as int)] + words(t.skip(word_len(t) as int))
    }
}

/// A non-whitespace run `[j, k)` that ends at whitespace (or at the end) is a word.
pub proof fn lemma_word_len_skip(s: Seq<char>, j: int, k: int)
    requires
        0 <= j <= k <= s.len(),
        forall|m: int| j <= m < k ==> !is_white_space(#[trigger] s[m]),
        k == s.len() || is_white_space(s[k]),
    ensures
        word_len(s.skip(j)) == k - j,
    decreases k - j,
{
    if j < k {
        assert(s.skip(j).drop_first() =~= s.skip(j + 1));
        assert(s.skip(j)[0] == s[j]);
        lemma_word_len_skip(s, j + 1, k);
    } else {
        if k < s.len() {
            assert(s.skip(j)[0] == s[k]);
        }
    }
}

/// The views of a list of character vectors.
pub open spec fn views(ws: Seq<Vec<char>>) -> Seq<Seq<char>> {
    ws.map_values(|w: Vec<char>| w@)
}

/// The characters `v[j..k]`.
pub fn slice_chars(v: &Vec<char>, j: usize, k: usize) -> (w: Vec<char>)
    requires
        j <= k <= v.len(),
    ensures
        w@ == v@.subrange(j as int, k as int),
{
    let mut w: Vec<char> = Vec::new();
    for m in j..k
        invariant
            j <= k <= v.len(),
            w@ == v@.subrange(j as int, m as int),
    {
        w.push(v[m]);
    }
    w
}

/// The whitespace-separated words of `v`.
pub fn split_words(v: &Vec<char>) -> (r: Vec<Vec<char>>)
    ensures
        views(r@) == words(v@),
{
    let mut acc: Vec<Vec<char>> = Vec::new();
    let mut i: usize = 0;
    assert(v@.skip(0) =~= v@);
    while i < v.len()
        invariant
            i <= v.len(),
            words(v@) == views(acc@) + words(v@.skip(i as int)),
        decreases v.len() - i,
    {
        let j = skip_white(v, i);
        proof {
            lemma_trim_start_skip(v@, i as int, j as int);
        }
        if j == v.len() {
            assert(v@.skip(i as int) =~= v@.skip(i as int));
            assert(trim_start(v@.skip(i as int)).len() == 0);
            assert(words(v@.skip(i as int)) =~= Seq::<Seq<char>>::empty());
            assert(views(acc@) + Seq::<Seq<char>>::empty() =~= views(acc@));
            i = j;
            assert(v@.skip(i as int).len() == 0);
            assert(words(v@.skip(i as int)) =~= Seq::<Seq<char>>::empty());
        } else {
            let mut k = j;
            while k < v.len() && !is_whitespace_char(v[k])
                invariant
                    j <= k <= v.len(),
                    forall|m: int| j <= m < k ==> !is_white_space(#[trigger] v@[m]),
                decreases v.len() - k,
            {
                k = k + 1;
            }
            proof {
                lemma_word_len_skip(v@, j as int, k as int);
                let t = v@.skip(j as int);
                assert(t.take((k - j) as int) =~= v@.subrange(j as int, k as int));
                assert(t.skip((k - j) as int) =~= v@.skip(k as int));
            }
            let w = slice_chars(v, j, k);
            let ghost old_acc = acc@;
            acc.push(w);
            proof {
                assert(views(acc@) =~= views(old_acc) + seq![w@]);
            }
            i = k;
        }
    }
    proof {
        assert(v@.skip(i as int).len() == 0);
        assert(trim_start(v@.skip(i as int)).len() == 0);
        assert(views(acc@) + Seq::<Seq<char>>::empty() =~= views(acc@));
    }
    acc
}

/// Number of bytes `c` takes in UTF-8.
pub open spec fn char_utf8_len(c: char) -> nat {
    let u = c as u32;
    if u < 0x80 {
        1
    } else if u < 0x800 {
        2
    } else if u < 0x10000 {
        3
    } else {
        4
    }
}

/// Number of bytes `s` takes in UTF-8 (what `str::len` gives).
pub open spec fn utf8_len(s: Seq<char>) -> nat
    decreases s.len(),
{
    if s.len() == 0 {
        0
    } else {
        utf8_len(s.drop_last()) + char_utf8_len(s.last())
    }
}

/// Whether `w` takes more than `limit` bytes in UTF-8.
pub fn longer_than_bytes(w: &Vec<char>, limit: u32) -> (b: bool)
    requires
        limit < u32::MAX - 4,
    ensures
        b == (utf8_len(w@) > limit),
{
    let cap: u32 = limit + 1;
    let mut count: u32 = 0;
    for i in 0..w.len()
        invariant
            cap == limit + 1,
            limit < u32::MAX - 4,
            count == if utf8_len(w@.take(i as int)) < cap {
                utf8_len(w@.take(i as int))
            } else {
                cap as nat
            },
    {
        let u = w[i] as u32;
        let l: u32 = if u < 0x80 {
            1
        } else if u < 0x800 {
            2
        } else if u < 0x10000 {
            3
        } else {
            4
        };
        assert(w@.take(i + 1).drop_last() =~= w@.take(i as int));
        count = if count + l < cap {
            count + l
        } else {
            cap
        };
    }
    assert(w@.take(w.len() as int) =~= w@);
    count > limit
}

/// Whether `w` takes more than three bytes in UTF-8.
pub fn longer_than_three_bytes(w: &Vec<char>) -> (b: bool)
    ensures
        b == (utf8_len(w@) > 3),
{
    let mut count: u32 = 0;
    for i in 0..w.len()
        invariant
            count == if utf8_len(w@.take(i as int)) < 4 {
                utf8_len(w@.take(i as int))
            } else {
                4
            },
    {
        let u = w[i] as u32;
        let l: u32 = if u < 0x80 {
            1
        } else if u < 0x800 {
            2
        } else if u < 0x10000 {
            3
        } else {
            4
        };
        assert(w@.take(i + 1).drop_last() =~= w@.take(i as int));
        count = if count + l < 4 {
            count + l
        } else {
            4
        };
    }
    assert(w@.take(w.len() as int) =~= w@);
    count > 3
}

/// Every character of `s` is ASCII.
pub open spec fn is_ascii_text(s: Seq<char>) -> bool {
    forall|i: int| 0 <= i < s.len() ==> (#[trigger] s[i] as u32) < 128
}

/// The ASCII lower-case form of `c` (`A`..`Z` to `a`..`z`, others kept).
pub open spec fn ascii_lower_char(c: char) -> char {
    if 'A' <= c <= 'Z' {
        ((c as u32) + 32) as char
    } else {
        c
    }
}

/// The ASCII upper-case form of `c` (`a`..`z` to `A`..`Z`, others kept).
pub open spec fn ascii_upper_char(c: char) -> char {
    if 'a' <= c <= 'z' {
        ((c as u32) - 32) as char
    } else {
        c
    }
}

/// Lowercase form under Unicode case mapping of text that is not all ASCII.
pub uninterp spec fn unicode_lowercase(s: Seq<char>) -> Seq<char>;

/// Uppercase form under Unicode case mapping of text that is not all ASCII.
pub uninterp spec fn unicode_uppercase(s: Seq<char>) -> Seq<char>;

/// Lowercase form of `s` (`str::to_lowercase`): on ASCII text each letter
/// `A`..`Z` becomes `a`..`z` and nothing else changes; other text is named.
pub open spec fn lowercase(s: Seq<char>) -> Seq<char> {
    if is_ascii_text(s) {
        s.map_values(|c: char| ascii_lower_char(c))
    } else {
        unicode_lowercase(s)
    }
}

/// Uppercase form of `s` (`str::to_uppercase`): on ASCII text each letter
/// `a`..`z` becomes `A`..`Z` and nothing else changes; other text is named.
pub open spec fn uppercase(s: Seq<char>) -> Seq<char> {
    if is_ascii_text(s) {
        s.map_values(|c: char| ascii_upper_char(c))
    } else {
        unicode_uppercase(s)
    }
}

/// Calls `str::to_lowercase`. On ASCII text Unicode case mapping is the ASCII
/// one (`A`..`Z` to `a`..`z`, everything else kept); the lowercase form of
/// other text is named `unicode_lowercase` of the input.
#[verifier::external_body]
pub(crate) fn to_lowercase(s: &str) -> (r: String)
    ensures
        r@ == lowercase(s@),
        !is_ascii_text(s@) ==> r@ == unicode_lowercase(s@),
{
    s.to_lowercase()
}

/// Calls `str::to_uppercase`. On ASCII text Unicode case mapping is the ASCII
/// one (`a`..`z` to `A`..`Z`, everything else kept); the uppercase form of
/// other text is named `unicode_uppercase` of the input.
#[verifier::external_body]
pub(crate) fn to_uppercase(s: &str) -> (r: String)
    ensures
        r@ == uppercase(s@),
        !is_ascii_text(s@) ==> r@ == unicode_uppercase(s@),
{
    s.to_uppercase()
}

/// Changing the case of ASCII text keeps it ASCII, and lower-casing after
/// upper-casing is lower-casing alone.
pub proof fn lemma_ascii_case(s: Seq<char>)
    requires
        is_ascii_text(s),
    ensures
        is_ascii_text(uppercase(s)),
        is_ascii_text(lowercase(s)),
        lowercase(uppercase(s)) == lowercase(s),
        lowercase(lowercase(s)) == lowercase(s),
{
    let u = uppercase(s);
    let l = lowercase(s);
    assert forall|i: int| 0 <= i < u.len() implies (#[trigger] u[i] as u32) < 128 by {
        assert((s[i] as u32) < 128);
    }
    assert forall|i: int| 0 <= i < l.len() implies (#[trigger] l[i] as u32) < 128 by {
        assert((s[i] as u32) < 128);
    }
    assert(lowercase(u) =~= l);
    assert(lowercase(l) =~= l);
}

/// Whether two strings hold the same characters.
pub fn str_eq(a: &str, b: &str) -> (r: bool)
    ensures
        r == (a@ == b@),
{
    let va = chars_of(a);
    let vb = chars_of(b);
    if va.len() != vb.len() {
        return false;
    }
    for i in 0..va.len()
        invariant
            va@ == a@,
            vb@ == b@,
            va.len() == vb.len(),
            forall|m: int| 0 <= m < i ==> va@[m] == vb@[m],
    {
        if va[i] != vb[i] {
            return false;
        }
    }
    assert(va@ =~= vb@);
    true
}

} // verus!

verus! {

/// Calls `String::push`: appends `c`.
#[verifier::external_body]
pub(crate) fn push_char(s: &mut String, c: char)
    ensures
        final(s)@ == old(s)@.push(c),
{
    s.push(c);
}

/// A `String` holding the characters of `v`.
pub fn string_from_chars(v: &Vec<char>) -> (s: String)
    ensures
        s@ == v@,
{
    let mut s = String::new();
    for i in 0..v.len()
        invariant
            s@ == v@.take(i as int),
    {
        push_char(&mut s, v[i]);
        assert(v@.take(i + 1) =~= v@.take(i as int).push(v@[i as int]));
    }
    assert(v@.take(v.len() as int) =~= v@);
    s
}

/// Appends `t` to `s`.
pub fn append_str(s: &mut String, t: &str)
    ensures
        final(s)@ == old(s)@ + t@,
{
    s.append(t);
}

/// The ASCII digit for `d < 10`.
pub open spec fn digit_char(d: nat) -> char {
    ((d + 48) as u32) as char
}

/// Base-ten digits of `n`, most significant first, without leading zeros.
pub open spec fn decimal(n: nat) -> Seq<char>
    decreases n,
{
    if n < 10 {
        seq![digit_char(n)]
    } else {
        decimal(n / 10).push(digit_char(n % 10))
    }
}

/// Base-ten text of an integer, with a leading `-` when negative.
pub open spec fn int_text(i: int) -> Seq<char> {
    if i < 0 {
        seq!['-'] + decimal((-i) as nat)
    } else {
        decimal(i as nat)
    }
}

fn digit_of(d: u64) -> (c: char)
    requires
        d < 10,
    ensures
        c == digit_char(d as nat),
{
    if d == 0 { '0' } else if d == 1 { '1' } else if d == 2 { '2' } else if d == 3 { '3' } else if d
        == 4 { '4' } else if d == 5 { '5' } else if d == 6 { '6' } else if d == 7 { '7' } else if d
        == 8 { '8' } else { '9' }
}

/// Base-ten digits of `n`.
pub fn decimal_chars(n: u64) -> (v: Vec<char>)
    ensures
        v@ == decimal(n as nat),
    decreases n,
{
    if n < 10 {
        let mut v: Vec<char> = Vec::new();
        v.push(digit_of(n));
        v
    } else {
        let mut v = decimal_chars(n / 10);
        v.push(digit_of(n % 10));
        v
    }
}

/// Base-ten text of `n`.
pub fn u32_text(n: u32) -> (s: String)
    ensures
        s@ == int_text(n as int),
{
    let v = decimal_chars(n as u64);
    string_from_chars(&v)
}

/// Base-ten text of `n`, with a leading `-` when negative.
pub fn i32_text(n: i32) -> (s: String)
    ensures
        s@ == int_text(n as int),
{
    if n < 0 {
        let m: i64 = -(n as i64);
        let mut v: Vec<char> = Vec::new();
        v.push('-');
        let d = decimal_chars(m as u64);
        v.append(&mut d.clone());
        assert(v@ =~= seq!['-'] + decimal((-(n as int)) as nat));
        string_from_chars(&v)
    } else {
        u32_text(n as u32)
    }
}

/// `c` is an ASCII decimal digit.
pub open spec fn is_digit(c: char) -> bool {
    '0' <= c <= '9'
}

/// Value of a string of ASCII digits.
pub open spec fn digits_value(s: Seq<char>) -> nat
    decreases s.len(),
{
    if s.len() == 0 {
        0
    } else {
        digits_value(s.drop_last()) * 10 + ((s.last() as u32) - 48) as nat
    }
}

/// What `u32::from_str` accepts: an optional `+`, then one or more ASCII
/// digits whose value fits in a `u32`.
pub open spec fn parse_u32_spec(s: Seq<char>) -> Option<u32> {
    let d = unsigned_digits(s);
    if d.len() > 0 && all_digits(d) && digits_value(d) <= u32::MAX {
        Some(digits_value(d) as u32)
    } else {
        None
    }
}

/// `s` without one leading `+`.
pub open spec fn unsigned_digits(s: Seq<char>) -> Seq<char> {
    if s.len() > 0 && s[0] == '+' {
        s.drop_first()
    } else {
        s
    }
}

/// Every character of `s` is an ASCII digit.
pub open spec fn all_digits(s: Seq<char>) -> bool {
    forall|i: int| 0 <= i < s.len() ==> is_digit(#[trigger] s[i])
}

/// The base-ten digits of a number are ASCII digits and read back as it.
pub proof fn lemma_decimal_digits(n: nat)
    ensures
        decimal(n).len() > 0,
        all_digits(decimal(n)),
        is_ascii_text(decimal(n)),
        digits_value(decimal(n)) == n,
    decreases n,
{
    if n >= 10 {
        lemma_decimal_digits(n / 10);
        let d = decimal(n / 10);
        let e = d.push(digit_char(n % 10));
        assert(e.drop_last() =~= d);
        assert forall|i: int| 0 <= i < e.len() implies is_digit(#[trigger] e[i]) by {
            if i < d.len() {
                assert(e[i] == d[i]);
            }
        }
        assert forall|i: int| 0 <= i < e.len() implies (#[trigger] e[i] as u32) < 128 by {
            if i < d.len() {
                assert(e[i] == d[i]);
                assert(is_digit(d[i]));
            }
        }
        assert(digit_char(n % 10) as u32 == n % 10 + 48);
        assert(digits_value(e) == digits_value(d) * 10 + ((e.last() as u32) - 48) as nat);
        assert(n == (n / 10) * 10 + n % 10);
    } else {
        assert(digit_char(n) as u32 == n + 48);
        let e = seq![digit_char(n)];
        assert(e.drop_last() =~= Seq::<char>::empty());
        assert(digits_value(e) == digits_value(e.drop_last()) * 10 + ((e.last() as u32) - 48) as nat);
    }
}

/// A number's base-ten text parses back to the number.
pub proof fn lemma_parse_decimal(n: u32)
    ensures
        parse_u32_spec(decimal(n as nat)) == Some(n),
{
    lemma_decimal_digits(n as nat);
    assert(is_digit(decimal(n as nat)[0]));
}

/// Text that neither starts nor ends with whitespace trims to itself.
pub proof fn lemma_trimmed_unchanged(s: Seq<char>)
    requires
        s.len() > 0,
        !is_white_space(s[0]),
        !is_white_space(s.last()),
    ensures
        trimmed(s) == s,
{
}

/// Parses `v` as a `u32` the way `u32::from_str` does.
pub fn parse_u32_chars(v: &Vec<char>) -> (r: Option<u32>)
    ensures
        r == parse_u32_spec(v@),
{
    let start: usize = if v.len() > 0 && v[0] == '+' {
        1
    } else {
        0
    };
    let ghost d = unsigned_digits(v@);
    assert(d =~= v@.skip(start as int));
    if start >= v.len() {
        return None;
    }
    let big: u64 = 0x1_0000_0000;
    let mut acc: u64 = 0;
    let mut i = start;
    while i < v.len()
        invariant
            start <= i <= v.len(),
            d =~= v@.skip(start as int),
            d == unsigned_digits(v@),
            big == 0x1_0000_0000,
            forall|m: int| start <= m < i ==> is_digit(#[trigger] v@[m]),
            acc == if digits_value(v@.subrange(start as int, i as int)) < big {
                digits_value(v@.subrange(start as int, i as int))
            } else {
                big as nat
            },
        decreases v.len() - i,
    {
        let c = v[i];
        if !('0' <= c && c <= '9') {
            assert(d[i - start] == c);
            assert(!is_digit(d[i - start]));
            return None;
        }
        let dg = (c as u32 - 48) as u64;
        let ghost prev = digits_value(v@.subrange(start as int, i as int));
        assert(v@.subrange(start as int, i + 1).drop_last() =~= v@.subrange(start as int, i as int));
        assert(digits_value(v@.subrange(start as int, i + 1)) == prev * 10 + dg);
        let next = acc * 10 + dg;
        acc = if next < big {
            next
        } else {
            big
        };
        i = i + 1;
    }
    assert(v@.subrange(start as int, v.len() as int) =~= d);
    if acc < big {
        Some(acc as u32)
    } else {
        None
    }
}

/// Base-ten text of `n`.
pub fn usize_text(n: usize) -> (s: String)
    ensures
        s@ == int_text(n as int),
{
    let v = decimal_chars(n as u64);
    string_from_chars(&v)
}

/// The texts of a list of strings.
pub open spec fn texts(v: Seq<String>) -> Seq<Seq<char>> {
    v.map_values(|s: String| s@)
}


/// The text of an optional string.
pub open spec fn opt_text(o: Option<String>) -> Option<Seq<char>> {
    match o {
        Some(s) => Some(s@),
        None => None,
    }
}

/// The text of an optional borrowed string.
pub open spec fn opt_str_text(o: Option<&str>) -> Option<Seq<char>> {
    match o {
        Some(s) => Some(s@),
        None => None,
    }
}

/// Borrows the text of an optional string.
pub fn opt_as_str(o: &Option<String>) -> (r: Option<&str>)
    ensures
        opt_str_text(r) == opt_text(*o),
{
    match o {
        Some(s) => Some(s.as_str()),
        None => None,
    }
}

/// Whether one of `v` holds the same characters as `s`.
pub fn contains_text(v: &Vec<String>, s: &str) -> (r: bool)
    ensures
        r == texts(v@).contains(s@),
{
    for i in 0..v.len()
        invariant
            forall|m: int| 0 <= m < i ==> v@[m]@ != s@,
    {
        if str_eq(v[i].as_str(), s) {
            assert(texts(v@)[i as int] == s@);
            return true;
        }
    }
    assert forall|m: int| 0 <= m < texts(v@).len() implies texts(v@)[m] != s@ by {}
    false
}


/// The code of `c` with ASCII upper-case letters made lower-case.
pub open spec fn ascii_lower_code(c: char) -> u32 {
    if 65 <= (c as u32) <= 90 {
        ((c as u32) + 32) as u32
    } else {
        c as u32
    }
}

/// Equality of two texts when ASCII letter case is ignored (other
/// characters must match exactly).
pub open spec fn eq_ignoring_ascii_case(a: Seq<char>, b: Seq<char>) -> bool {
    &&& a.len() == b.len()
    &&& forall|i: int| 0 <= i < a.len() ==> ascii_lower_code(a[i]) == ascii_lower_code(b[i])
}

fn lower_code(c: char) -> (n: u32)
    ensures
        n == ascii_lower_code(c),
{
    let n = c as u32;
    if 65 <= n && n <= 90 {
        n + 32
    } else {
        n
    }
}

/// Whether `a` and `b` are equal when ASCII letter case is ignored.
pub fn eq_ignore_ascii_case(a: &str, b: &str) -> (r: bool)
    ensures
        r == eq_ignoring_ascii_case(a@, b@),
{
    let va = chars_of(a);
    let vb = chars_of(b);
    if va.len() != vb.len() {
        return false;
    }
    for i in 0..va.len()
        invariant
            va@ == a@,
            vb@ == b@,
            va.len() == vb.len(),
            forall|m: int| 0 <= m < i ==> ascii_lower_code(va@[m]) == ascii_lower_code(vb@[m]),
    {
        if lower_code(va[i]) != lower_code(vb[i]) {
            return false;
        }
    }
    true
}


/// The parts written one after another with `sep` between each two.
pub open spec fn joined(parts: Seq<Seq<char>>, sep: Seq<char>) -> Seq<char>
    decreases parts.len(),
{
    if parts.len() == 0 {
        Seq::empty()
    } else if parts.len() == 1 {
        parts[0]
    } else {
        joined(parts.drop_last(), sep) + sep + parts.last()
    }
}

/// Joining one more part adds the separator only where parts came before.
pub proof fn lemma_joined_push(parts: Seq<Seq<char>>, x: Seq<char>, sep: Seq<char>)
    ensures
        joined(parts.push(x), sep) == if parts.len() == 0 {
            x
        } else {
            joined(parts, sep) + sep + x
        },
{
    assert(parts.push(x).drop_last() =~= parts);
}

} // verus!
