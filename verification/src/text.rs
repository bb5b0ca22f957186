//! String helpers: case folding, trimming and comparison, with their meaning stated over
//! character sequences.

use vstd::prelude::*;
use vstd::utf8::is_ascii_chars;
use vstd::string::{StrSliceExecFns, StringExecFns};

verus! {

/// The lowercase form that `str::to_lowercase` gives a string that holds a character beyond
/// ASCII (the Unicode lowercase mapping, which may change the length).
pub uninterp spec fn unicode_lowercase(s: Seq<char>) -> Seq<char>;

/// The lowercase form of a string as `str::to_lowercase` computes it: on ASCII text the Unicode
/// lowercase mapping is the ASCII one.
pub open spec fn lowercase(s: Seq<char>) -> Seq<char> {
    if is_ascii_chars(s) {
        ascii_lowercase(s)
    } else {
        unicode_lowercase(s)
    }
}

/// The ASCII lowercase form: `A`..=`Z` become `a`..=`z`, every other character is kept.
pub open spec fn ascii_lower_char(c: char) -> char {
    if 'A' <= c && c <= 'Z' {
        ((c as u32) + 32) as char
    } else {
        c
    }
}

pub open spec fn ascii_lowercase(s: Seq<char>) -> Seq<char> {
    s.map_values(|c: char| ascii_lower_char(c))
}

/// The characters that carry the Unicode property `White_Space`.
pub open spec fn is_white_space(c: char) -> bool {
    let u = c as u32;
    ||| 0x09 <= u && u <= 0x0D
    ||| u == 0x20
    ||| u == 0x85
    ||| u == 0xA0
    ||| u == 0x1680
    ||| 0x2000 <= u && u <= 0x200A
    ||| u == 0x2028
    ||| u == 0x2029
    ||| u == 0x202F
    ||| u == 0x205F
    ||| u == 0x3000
}

/// `s` without its leading white space.
pub open spec fn trim_start_spec(s: Seq<char>) -> Seq<char>
    decreases s.len(),
{
    if s.len() > 0 && is_white_space(s[0]) {
        trim_start_spec(s.drop_first())
    } else {
        s
    }
}

/// `s` without its trailing white space.
pub open spec fn trim_end_spec(s: Seq<char>) -> Seq<char>
    decreases s.len(),
{
    if s.len() > 0 && is_white_space(s.last()) {
        trim_end_spec(s.drop_last())
    } else {
        s
    }
}

/// `s` without its leading and trailing white space.
pub open spec fn trim_spec(s: Seq<char>) -> Seq<char> {
    trim_end_spec(trim_start_spec(s))
}

/// How names are compared: lowercased first, then trimmed.
pub open spec fn normalize(s: Seq<char>) -> Seq<char> {
    trim_spec(lowercase(s))
}

/// `str::to_lowercase`: on ASCII text it maps `A`..=`Z` to `a`..=`z`; on other text its
/// result is named `unicode_lowercase`, and nothing more of the Unicode tables is stated.
#[verifier::external_body]
pub fn to_lowercase(s: &str) -> (r: String)
    ensures
        r@ == lowercase(s@),
        !is_ascii_chars(s@) ==> r@ == unicode_lowercase(s@),
{
    s.to_lowercase()
}

/// Whether a character has the Unicode `White_Space` property.
pub fn is_white_space_char(c: char) -> (r: bool)
    ensures
        r == is_white_space(c),
{
    let u = c as u32;
    (0x09 <= u && u <= 0x0D) || u == 0x20 || u == 0x85 || u == 0xA0 || u == 0x1680 || (0x2000 <= u && u
        <= 0x200A) || u == 0x2028 || u == 0x2029 || u == 0x202F || u == 0x205F || u == 0x3000
}

/// Removes the leading and trailing characters with the Unicode `White_Space` property, as
/// `str::trim` does.
pub fn trim<'a>(s: &'a str) -> (r: &'a str)
    ensures
        r@ == trim_spec(s@),
{
    let n = s.unicode_len();
    let mut a: usize = 0;
    assert(s@.subrange(0, n as int) =~= s@);
    while a < n && is_white_space_char(s.get_char(a))
        invariant
            n == s@.len(),
            a <= n,
            trim_start_spec(s@) == trim_start_spec(s@.subrange(a as int, n as int)),
        decreases n - a,
    {
        assert(s@.subrange(a as int, n as int).drop_first() =~= s@.subrange(a + 1, n as int));
        a = a + 1;
    }
    let ghost start = s@.subrange(a as int, n as int);
    assert(trim_start_spec(start) == start);
    let mut b: usize = n;
    while b > a && is_white_space_char(s.get_char(b - 1))
        invariant
            n == s@.len(),
            a <= b <= n,
            start == s@.subrange(a as int, n as int),
            trim_start_spec(s@) == start,
            trim_end_spec(start) == trim_end_spec(s@.subrange(a as int, b as int)),
        decreases b - a,
    {
        assert(s@.subrange(a as int, b as int).drop_last() =~= s@.subrange(a as int, b - 1));
        b = b - 1;
    }
    let r = s.substring_char(a, b);
    assert(trim_end_spec(r@) == r@);
    r
}

/// Character-wise equality of two string slices.
pub fn str_equal(a: &str, b: &str) -> (r: bool)
    ensures
        r == (a@ == b@),
{
    let n = a.unicode_len();
    if n != b.unicode_len() {
        return false;
    }
    let mut i: usize = 0;
    while i < n
        invariant
            n == a@.len(),
            n == b@.len(),
            i <= n,
            forall|j: int| 0 <= j < i ==> a@[j] == b@[j],
        decreases n - i,
    {
        if a.get_char(i) != b.get_char(i) {
            return false;
        }
        i = i + 1;
    }
    assert(a@ =~= b@);
    true
}

/// The lowercased and trimmed form of `s`, as the name comparisons use it.
pub fn normalized(s: &str) -> (r: String)
    ensures
        r@ == normalize(s@),
{
    let lower = to_lowercase(s);
    let t = trim(lower.as_str());
    t.to_owned()
}

/// `s` with each occurrence of `pat` replaced by `to`, scanning from the left; an occurrence
/// that overlaps one already replaced is not replaced.
pub open spec fn replace_spec(s: Seq<char>, pat: Seq<char>, to: Seq<char>) -> Seq<char>
    decreases s.len(),
{
    if s.len() == 0 || pat.len() == 0 {
        s
    } else if pat.len() <= s.len() && s.subrange(0, pat.len() as int) == pat {
        to + replace_spec(s.subrange(pat.len() as int, s.len() as int), pat, to)
    } else {
        seq![s[0]] + replace_spec(s.subrange(1, s.len() as int), pat, to)
    }
}

/// Replaces each occurrence of a non-empty pattern, as `str::replace` does.
pub fn replace_all(s: &str, pat: &str, to: &str) -> (r: String)
    requires
        pat@.len() > 0,
    ensures
        r@ == replace_spec(s@, pat@, to@),
{
    let n = s.unicode_len();
    let m = pat.unicode_len();
    let mut r = String::new();
    let mut i: usize = 0;
    assert(s@.subrange(0, n as int) =~= s@);
    assert(r@ + replace_spec(s@, pat@, to@) =~= replace_spec(s@, pat@, to@));
    while i < n
        invariant
            i <= n,
            n == s@.len(),
            m == pat@.len(),
            m > 0,
            r@ + replace_spec(s@.subrange(i as int, n as int), pat@, to@) == replace_spec(s@, pat@, to@),
        decreases n - i,
    {
        let ghost rest = s@.subrange(i as int, n as int);
        let ghost before = r@;
        if m <= n - i && str_equal(s.substring_char(i, i + m), pat) {
            proof {
                assert(rest.subrange(0, m as int) =~= s@.subrange(i as int, i + m));
                assert(rest.subrange(m as int, rest.len() as int) =~= s@.subrange(i + m, n as int));
            }
            r.append(to);
            i = i + m;
            assert(before + (to@ + replace_spec(s@.subrange(i as int, n as int), pat@, to@))
                =~= r@ + replace_spec(s@.subrange(i as int, n as int), pat@, to@));
        } else {
            let c = s.substring_char(i, i + 1);
            proof {
                if m <= n - i {
                    assert(rest.subrange(0, m as int) =~= s@.subrange(i as int, i + m));
                }
                assert(rest.subrange(1, rest.len() as int) =~= s@.subrange(i + 1, n as int));
                assert(c@ =~= seq![rest[0]]);
            }
            r.append(c);
            i = i + 1;
            assert(before + (c@ + replace_spec(s@.subrange(i as int, n as int), pat@, to@))
                =~= r@ + replace_spec(s@.subrange(i as int, n as int), pat@, to@));
        }
    }
    assert(s@.subrange(n as int, n as int) =~= Seq::<char>::empty());
    assert(r@ + Seq::<char>::empty() =~= r@);
    r
}

/// The characters of each string.
pub open spec fn views(v: Seq<String>) -> Seq<Seq<char>> {
    v.map_values(|s: String| s@)
}

/// `p` occurs in `s` as a run of consecutive characters.
pub open spec fn contains_substring(s: Seq<char>, p: Seq<char>) -> bool {
    exists|i: int| 0 <= i && i + p.len() <= s.len() && #[trigger] s.subrange(i, i + p.len()) == p
}

/// Whether `p` occurs in `s`, as `str::contains` with a string pattern tells.
pub fn str_contains(s: &str, p: &str) -> (r: bool)
    ensures
        r == contains_substring(s@, p@),
{
    let n = s.unicode_len();
    let m = p.unicode_len();
    if m > n {
        return false;
    }
    let mut i: usize = 0;
    loop
        invariant
            n == s@.len(),
            m == p@.len(),
            m <= n,
            i <= n - m,
            forall|j: int| 0 <= j < i ==> #[trigger] s@.subrange(j, j + p@.len()) != p@,
        decreases n - m - i,
    {
        if str_equal(s.substring_char(i, i + m), p) {
            assert(s@.subrange(i as int, i + p@.len()) == p@);
            return true;
        }
        if i == n - m {
            return false;
        }
        i = i + 1;
    }
}

/// An ASCII string without white space at either end is normalized by lowercasing it.
pub proof fn lemma_normalize_plain(s: Seq<char>)
    requires
        is_ascii_chars(s),
        s.len() > 0,
        !is_white_space(s[0]),
        !is_white_space(s.last()),
    ensures
        normalize(s) == ascii_lowercase(s),
{
    let l = ascii_lowercase(s);
    assert(l[0] == ascii_lower_char(s[0]));
    assert(!is_white_space(l[0]));
    assert(trim_start_spec(l) == l);
    assert(l.last() == ascii_lower_char(s.last()));
    assert(!is_white_space(l.last()));
    assert(trim_end_spec(l) == l);
}

} // verus!
