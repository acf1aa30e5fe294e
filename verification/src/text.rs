//! Character-level string operations that the settings and request logic use:
//! Unicode whitespace trimming, stripping a trailing character, prefix tests and
//! ASCII case-insensitive comparison.

use vstd::prelude::*;

verus! {

/// The Unicode `White_Space` property, which `char::is_whitespace` and `str::trim` use.
pub open spec fn is_white_space(c: char) -> bool {
    let u = c as u32;
    ||| 0x09 <= u <= 0x0D
    ||| u == 0x20
    ||| u == 0x85
    ||| u == 0xA0
    ||| u == 0x1680
    ||| 0x2000 <= u <= 0x200A
    ||| u == 0x2028
    ||| u == 0x2029
    ||| u == 0x202F
    ||| u == 0x205F
    ||| u == 0x3000
}

/// Index of the first character at or after `i` that is not whitespace (or `s.len()`).
pub open spec fn skip_white_from(s: Seq<char>, i: int) -> int
    decreases s.len() - i,
{
    if 0 <= i < s.len() && is_white_space(s[i]) {
        skip_white_from(s, i + 1)
    } else {
        i
    }
}

/// End index after dropping the whitespace that stands directly before `j`.
pub open spec fn drop_white_before(s: Seq<char>, j: int) -> int
    decreases j,
{
    if 0 < j <= s.len() && is_white_space(s[j - 1]) {
        drop_white_before(s, j - 1)
    } else {
        j
    }
}

/// `s` without its leading and trailing whitespace (what `str::trim` returns).
pub open spec fn trim_spec(s: Seq<char>) -> Seq<char> {
    let start = skip_white_from(s, 0);
    let end = drop_white_before(s, s.len() as int);
    if start < end {
        s.subrange(start, end)
    } else {
        Seq::empty()
    }
}

/// End index after dropping every `c` that stands directly before `j`.
pub open spec fn drop_char_before(s: Seq<char>, c: char, j: int) -> int
    decreases j,
{
    if 0 < j <= s.len() && s[j - 1] == c {
        drop_char_before(s, c, j - 1)
    } else {
        j
    }
}

/// `s` with every trailing `c` removed (what `str::trim_end_matches(c)` returns).
pub open spec fn trim_end_char_spec(s: Seq<char>, c: char) -> Seq<char> {
    s.subrange(0, drop_char_before(s, c, s.len() as int))
}

/// `s` begins with `prefix`.
pub open spec fn has_prefix(s: Seq<char>, prefix: Seq<char>) -> bool {
    prefix.len() <= s.len() && s.subrange(0, prefix.len() as int) == prefix
}

/// The code of `c` after mapping `A`..`Z` to `a`..`z`.
pub open spec fn ascii_lower_code(c: char) -> u32 {
    let u = c as u32;
    if 0x41 <= u <= 0x5A {
        (u + 0x20) as u32
    } else {
        u
    }
}

/// `a` and `b` are equal up to the case of ASCII letters.
pub open spec fn ascii_ci_eq(a: Seq<char>, b: Seq<char>) -> bool {
    &&& a.len() == b.len()
    &&& forall|i: int| 0 <= i < a.len() ==> ascii_lower_code(#[trigger] a[i]) == ascii_lower_code(b[i])
}

/// `skip_white_from` stops at the first character from `i` on that is not whitespace.
pub proof fn lemma_skip_white_from(s: Seq<char>, i: int)
    requires
        0 <= i <= s.len(),
    ensures
        i <= skip_white_from(s, i) <= s.len(),
        forall|j: int| i <= j < skip_white_from(s, i) ==> is_white_space(#[trigger] s[j]),
        skip_white_from(s, i) < s.len() ==> !is_white_space(s[skip_white_from(s, i)]),
    decreases s.len() - i,
{
    if i < s.len() && is_white_space(s[i]) {
        lemma_skip_white_from(s, i + 1);
    }
}

/// `drop_white_before` stops after the last character before `j` that is not whitespace.
pub proof fn lemma_drop_white_before(s: Seq<char>, j: int)
    requires
        0 <= j <= s.len(),
    ensures
        0 <= drop_white_before(s, j) <= j,
        forall|k: int| drop_white_before(s, j) <= k < j ==> is_white_space(#[trigger] s[k]),
        drop_white_before(s, j) > 0 ==> !is_white_space(s[drop_white_before(s, j) - 1]),
    decreases j,
{
    if 0 < j && is_white_space(s[j - 1]) {
        lemma_drop_white_before(s, j - 1);
    }
}

/// `drop_char_before` stops after the last character before `j` that is not `c`.
pub proof fn lemma_drop_char_before(s: Seq<char>, c: char, j: int)
    requires
        0 <= j <= s.len(),
    ensures
        0 <= drop_char_before(s, c, j) <= j,
        forall|k: int| drop_char_before(s, c, j) <= k < j ==> #[trigger] s[k] == c,
        drop_char_before(s, c, j) > 0 ==> s[drop_char_before(s, c, j) - 1] != c,
    decreases j,
{
    if 0 < j && s[j - 1] == c {
        lemma_drop_char_before(s, c, j - 1);
    }
}

/// A trimmed text is empty or begins and ends with a character that is not whitespace.
pub proof fn lemma_trim_shape(s: Seq<char>)
    ensures
        trim_spec(s).len() == 0 || (!is_white_space(trim_spec(s)[0]) && !is_white_space(
            trim_spec(s).last(),
        )),
{
    lemma_skip_white_from(s, 0);
    lemma_drop_white_before(s, s.len() as int);
}

/// A text that is empty, or begins and ends with a character that is not
/// whitespace, is its own trim.
pub proof fn lemma_trim_fixed(s: Seq<char>)
    requires
        s.len() == 0 || (!is_white_space(s[0]) && !is_white_space(s.last())),
    ensures
        trim_spec(s) == s,
{
    if s.len() > 0 {
        assert(skip_white_from(s, 0) == 0);
        assert(drop_white_before(s, s.len() as int) == s.len());
        assert(s.subrange(0, s.len() as int) =~= s);
    }
}

/// Stripping a trailing character gives a prefix that does not end in it.
pub proof fn lemma_trim_end_char_shape(s: Seq<char>, c: char)
    ensures
        trim_end_char_spec(s, c).len() <= s.len(),
        trim_end_char_spec(s, c) == s.subrange(0, trim_end_char_spec(s, c).len() as int),
        trim_end_char_spec(s, c).len() > 0 ==> trim_end_char_spec(s, c).last() != c,
{
    lemma_drop_char_before(s, c, s.len() as int);
}

/// A text that does not end in `c` is left as it is by stripping `c`.
pub proof fn lemma_trim_end_char_fixed(s: Seq<char>, c: char)
    requires
        s.len() == 0 || s.last() != c,
    ensures
        trim_end_char_spec(s, c) == s,
{
    assert(drop_char_before(s, c, s.len() as int) == s.len());
    assert(s.subrange(0, s.len() as int) =~= s);
}

/// Whether `c` has the Unicode `White_Space` property.
pub fn is_white_space_char(c: char) -> (r: bool)
    ensures
        r == is_white_space(c),
{
    let u = c as u32;
    (0x09 <= u && u <= 0x0D) || u == 0x20 || u == 0x85 || u == 0xA0 || u == 0x1680 || (0x2000
        <= u && u <= 0x200A) || u == 0x2028 || u == 0x2029 || u == 0x202F || u == 0x205F || u
        == 0x3000
}

/// The characters of `s`, one per element.
pub fn char_vec(s: &str) -> (v: Vec<char>)
    ensures
        v@ == s@,
{
    let n = s.unicode_len();
    let mut v: Vec<char> = Vec::new();
    let mut i: usize = 0;
    while i < n
        invariant
            n == s@.len(),
            i <= n,
            v@ == s@.subrange(0, i as int),
        decreases n - i,
    {
        let c = s.get_char(i);
        v.push(c);
        i = i + 1;
        assert(v@ =~= s@.subrange(0, i as int));
    }
    assert(v@ =~= s@);
    v
}

/// `s` with leading and trailing Unicode whitespace removed.
pub fn trim_text(s: &str) -> (r: String)
    ensures
        r@ == trim_spec(s@),
{
    let cs = char_vec(s);
    let n = cs.len();
    let mut start: usize = 0;
    while start < n && is_white_space_char(cs[start])
        invariant
            cs@ == s@,
            n == s@.len(),
            start <= n,
            skip_white_from(s@, start as int) == skip_white_from(s@, 0),
        decreases n - start,
    {
        start = start + 1;
    }
    let mut end: usize = n;
    while end > 0 && is_white_space_char(cs[end - 1])
        invariant
            cs@ == s@,
            n == s@.len(),
            end <= n,
            drop_white_before(s@, end as int) == drop_white_before(s@, n as int),
        decreases end,
    {
        end = end - 1;
    }
    if start < end {
        String::from_str(s.substring_char(start, end))
    } else {
        String::new()
    }
}

/// `s` with every trailing `c` removed.
pub fn trim_end_char(s: &str, c: char) -> (r: String)
    ensures
        r@ == trim_end_char_spec(s@, c),
{
    let cs = char_vec(s);
    let n = cs.len();
    let mut end: usize = n;
    while end > 0 && cs[end - 1] == c
        invariant
            cs@ == s@,
            n == s@.len(),
            end <= n,
            drop_char_before(s@, c, end as int) == drop_char_before(s@, c, n as int),
        decreases end,
    {
        end = end - 1;
    }
    String::from_str(s.substring_char(0, end))
}

/// Whether `s` begins with `prefix`.
pub fn starts_with_text(s: &str, prefix: &str) -> (r: bool)
    ensures
        r == has_prefix(s@, prefix@),
{
    let cs = char_vec(s);
    let ps = char_vec(prefix);
    if ps.len() > cs.len() {
        return false;
    }
    let mut i: usize = 0;
    while i < ps.len()
        invariant
            cs@ == s@,
            ps@ == prefix@,
            ps.len() <= cs.len(),
            i <= ps.len(),
            forall|k: int| 0 <= k < i ==> cs@[k] == ps@[k],
        decreases ps.len() - i,
    {
        if cs[i] != ps[i] {
            assert(s@.subrange(0, prefix@.len() as int)[i as int] != prefix@[i as int]);
            return false;
        }
        i = i + 1;
    }
    assert(s@.subrange(0, prefix@.len() as int) =~= prefix@);
    true
}

/// Whether `a` and `b` are equal up to the case of ASCII letters.
pub fn eq_ignore_ascii_case_text(a: &str, b: &str) -> (r: bool)
    ensures
        r == ascii_ci_eq(a@, b@),
{
    let xs = char_vec(a);
    let ys = char_vec(b);
    if xs.len() != ys.len() {
        return false;
    }
    let mut i: usize = 0;
    while i < xs.len()
        invariant
            xs@ == a@,
            ys@ == b@,
            xs.len() == ys.len(),
            i <= xs.len(),
            forall|k: int| 0 <= k < i ==> ascii_lower_code(#[trigger] xs@[k]) == ascii_lower_code(ys@[k]),
        decreases xs.len() - i,
    {
        let x = xs[i] as u32;
        let y = ys[i] as u32;
        let lx: u32 = if 0x41 <= x && x <= 0x5A { x + 0x20 } else { x };
        let ly: u32 = if 0x41 <= y && y <= 0x5A { y + 0x20 } else { y };
        if lx != ly {
            assert(ascii_lower_code(a@[i as int]) != ascii_lower_code(b@[i as int]));
            return false;
        }
        i = i + 1;
    }
    true
}

} // verus!
