//! Character-level text helpers shared by the prompt and policy renderers.

use vstd::prelude::*;
use vstd::string::*;

verus! {

/// The characters that carry the Unicode `White_Space` property.
pub open spec fn is_white_space(c: char) -> bool {
    let u = c as u32;
    ||| 0x09 <= u <= 0x0d
    ||| u == 0x20
    ||| u == 0x85
    ||| u == 0xa0
    ||| u == 0x1680
    ||| 0x2000 <= u <= 0x200a
    ||| u == 0x2028
    ||| u == 0x2029
    ||| u == 0x202f
    ||| u == 0x205f
    ||| u == 0x3000
}

/// Whether the character has the Unicode `White_Space` property.
fn char_is_white_space(c: char) -> (r: bool)
    ensures
        r == is_white_space(c),
{
    let u = c as u32;
    (0x09 <= u && u <= 0x0d) || u == 0x20 || u == 0x85 || u == 0xa0 || u == 0x1680 || (0x2000
        <= u && u <= 0x200a) || u == 0x2028 || u == 0x2029 || u == 0x202f || u == 0x205f || u
        == 0x3000
}

/// `<str as PartialEq>::eq`: two string slices are equal when they hold the
/// same characters.
#[verifier::external_body]
pub(crate) fn str_eq(a: &str, b: &str) -> (r: bool)
    ensures
        r == (a@ == b@),
{
    a == b
}

/// The decimal digit character for `d` (below ten).
pub open spec fn digit_char(d: nat) -> char {
    ((48 + d) as u32) as char
}

/// The decimal numeral of `n`, without sign or leading zeros.
pub open spec fn decimal(n: nat) -> Seq<char>
    decreases n,
{
    if n < 10 {
        seq![digit_char(n)]
    } else {
        decimal(n / 10).push(digit_char(n % 10))
    }
}

/// `usize::to_string`: the decimal numeral of the number, as `Display` for
/// integers writes it.
#[verifier::external_body]
pub(crate) fn usize_decimal(n: usize) -> (r: String)
    ensures
        r@ == decimal(n as nat),
{
    n.to_string()
}

/// Every character of `s` is white space (this includes the empty text).
pub open spec fn is_blank(s: Seq<char>) -> bool {
    forall|i: int| 0 <= i < s.len() ==> is_white_space(#[trigger] s[i])
}

/// Number of white-space characters at the start of `s`.
pub open spec fn leading_white_space(s: Seq<char>) -> nat
    decreases s.len(),
{
    if s.len() > 0 && is_white_space(s[0]) {
        1 + leading_white_space(s.drop_first())
    } else {
        0
    }
}

/// Number of white-space characters at the end of `s`.
pub open spec fn trailing_white_space(s: Seq<char>) -> nat
    decreases s.len(),
{
    if s.len() > 0 && is_white_space(s.last()) {
        1 + trailing_white_space(s.drop_last())
    } else {
        0
    }
}

/// `s` without its leading and trailing white space.
pub open spec fn trimmed(s: Seq<char>) -> Seq<char> {
    let start = leading_white_space(s);
    if start == s.len() {
        Seq::empty()
    } else {
        s.subrange(start as int, s.len() - trailing_white_space(s))
    }
}

proof fn lemma_leading_white_space(s: Seq<char>, i: int)
    requires
        0 <= i <= s.len(),
        forall|k: int| 0 <= k < i ==> is_white_space(#[trigger] s[k]),
        i == s.len() || !is_white_space(s[i]),
    ensures
        leading_white_space(s) == i,
    decreases s.len(),
{
    if i > 0 {
        assert(is_white_space(s[0]));
        let t = s.drop_first();
        assert forall|k: int| 0 <= k < i - 1 implies is_white_space(#[trigger] t[k]) by {
            assert(t[k] == s[k + 1]);
        }
        if i - 1 < t.len() {
            assert(t[i - 1] == s[i]);
        }
        lemma_leading_white_space(t, i - 1);
    }
}

proof fn lemma_trailing_white_space(s: Seq<char>, j: int)
    requires
        0 <= j <= s.len(),
        forall|k: int| j <= k < s.len() ==> is_white_space(#[trigger] s[k]),
        j == 0 || !is_white_space(s[j - 1]),
    ensures
        trailing_white_space(s) == s.len() - j,
    decreases s.len(),
{
    if j < s.len() {
        assert(is_white_space(s[s.len() - 1]));
        let t = s.drop_last();
        assert forall|k: int| j <= k < t.len() implies is_white_space(#[trigger] t[k]) by {
            assert(t[k] == s[k]);
        }
        if j > 0 {
            assert(t[j - 1] == s[j - 1]);
        }
        lemma_trailing_white_space(t, j);
    }
}

/// Whether every character of `s` is white space.
pub fn str_is_blank(s: &str) -> (r: bool)
    ensures
        r == is_blank(s@),
{
    let n = s.unicode_len();
    let mut i: usize = 0;
    while i < n
        invariant
            n == s@.len(),
            i <= n,
            forall|k: int| 0 <= k < i ==> is_white_space(#[trigger] s@[k]),
        decreases n - i,
    {
        if !char_is_white_space(s.get_char(i)) {
            return false;
        }
        i = i + 1;
    }
    true
}

/// `str::trim`: the text without leading and trailing white space.
pub fn trim_white_space(s: &str) -> (r: String)
    ensures
        r@ == trimmed(s@),
{
    let n = s.unicode_len();
    let mut start: usize = 0;
    while start < n && char_is_white_space(s.get_char(start))
        invariant
            n == s@.len(),
            start <= n,
            forall|k: int| 0 <= k < start ==> is_white_space(#[trigger] s@[k]),
        decreases n - start,
    {
        start = start + 1;
    }
    proof {
        lemma_leading_white_space(s@, start as int);
    }
    if start == n {
        return String::new();
    }
    let mut end: usize = n;
    while end > start && char_is_white_space(s.get_char(end - 1))
        invariant
            n == s@.len(),
            start < n,
            !is_white_space(s@[start as int]),
            start <= end <= n,
            forall|k: int| end <= k < n ==> is_white_space(#[trigger] s@[k]),
        decreases end,
    {
        end = end - 1;
    }
    proof {
        lemma_trailing_white_space(s@, end as int);
    }
    s.substring_char(start, end).to_owned()
}


/// `parts` joined into one text with `sep` between neighbours.
pub open spec fn joined(parts: Seq<Seq<char>>, sep: Seq<char>) -> Seq<char>
    decreases parts.len(),
{
    if parts.len() == 0 {
        Seq::empty()
    } else if parts.len() == 1 {
        parts[0]
    } else {
        joined(parts.drop_last(), sep) + sep + parts.last()
    }
}

/// The texts of `texts` that are not blank, in order.
pub open spec fn non_blank(texts: Seq<Seq<char>>) -> Seq<Seq<char>>
    decreases texts.len(),
{
    if texts.len() == 0 {
        Seq::empty()
    } else if is_blank(texts.last()) {
        non_blank(texts.drop_last())
    } else {
        non_blank(texts.drop_last()).push(texts.last())
    }
}

/// The text of an optional string.
pub open spec fn opt_text(o: Option<String>) -> Option<Seq<char>> {
    match o {
        Some(s) => Some(s@),
        None => None,
    }
}

/// The views of a vector of strings.
pub open spec fn string_views(v: Seq<String>) -> Seq<Seq<char>> {
    v.map_values(|s: String| s@)
}

/// The views of a slice of string slices.
pub open spec fn str_views(v: Seq<&str>) -> Seq<Seq<char>> {
    v.map_values(|s: &str| s@)
}

/// The empty line that separates paragraphs: two line feeds.
pub open spec fn paragraph_break() -> Seq<char> {
    seq!['\n', '\n']
}

pub proof fn lemma_joined_push(parts: Seq<Seq<char>>, sep: Seq<char>, x: Seq<char>)
    ensures
        joined(parts.push(x), sep) == if parts.len() == 0 {
            x
        } else {
            joined(parts, sep) + sep + x
        },
{
    assert(parts.push(x).drop_last() =~= parts);
}

pub proof fn lemma_non_blank_take(texts: Seq<Seq<char>>, i: int)
    requires
        0 <= i < texts.len(),
    ensures
        non_blank(texts.take(i + 1)) == if is_blank(texts[i]) {
            non_blank(texts.take(i))
        } else {
            non_blank(texts.take(i)).push(texts[i])
        },
{
    assert(texts.take(i + 1).drop_last() =~= texts.take(i));
}

pub proof fn lemma_trimmed_empty_iff_blank(s: Seq<char>)
    ensures
        (trimmed(s).len() == 0) == is_blank(s),
    decreases s.len(),
{
    lemma_leading_bounds(s);
    lemma_trailing_bounds(s);
    if leading_white_space(s) < s.len() {
        let i = leading_white_space(s) as int;
        lemma_leading_stops(s);
        assert(!is_white_space(s[i]));
        assert(!is_blank(s));
        lemma_trailing_stops(s, i);
    } else {
        lemma_leading_all(s);
    }
}

proof fn lemma_leading_bounds(s: Seq<char>)
    ensures
        leading_white_space(s) <= s.len(),
    decreases s.len(),
{
    if s.len() > 0 && is_white_space(s[0]) {
        lemma_leading_bounds(s.drop_first());
    }
}

proof fn lemma_trailing_bounds(s: Seq<char>)
    ensures
        trailing_white_space(s) <= s.len(),
    decreases s.len(),
{
    if s.len() > 0 && is_white_space(s.last()) {
        lemma_trailing_bounds(s.drop_last());
    }
}

proof fn lemma_leading_stops(s: Seq<char>)
    requires
        leading_white_space(s) < s.len(),
    ensures
        !is_white_space(s[leading_white_space(s) as int]),
    decreases s.len(),
{
    if s.len() > 0 && is_white_space(s[0]) {
        lemma_leading_stops(s.drop_first());
    }
}

proof fn lemma_leading_all(s: Seq<char>)
    requires
        leading_white_space(s) == s.len(),
    ensures
        is_blank(s),
    decreases s.len(),
{
    if s.len() > 0 {
        let t = s.drop_first();
        lemma_leading_all(t);
        assert forall|k: int| 0 <= k < s.len() implies is_white_space(#[trigger] s[k]) by {
            if k > 0 {
                assert(s[k] == t[k - 1]);
            }
        }
    }
}

/// The trailing white space never reaches a character that is not white space.
proof fn lemma_trailing_stops(s: Seq<char>, i: int)
    requires
        0 <= i < s.len(),
        !is_white_space(s[i]),
    ensures
        trailing_white_space(s) < s.len() - i,
    decreases s.len(),
{
    if is_white_space(s.last()) {
        let t = s.drop_last();
        assert(i < t.len());
        assert(t[i] == s[i]);
        lemma_trailing_stops(t, i);
    }
}

pub proof fn lemma_non_blank_elements(texts: Seq<Seq<char>>)
    ensures
        forall|i: int|
            0 <= i < non_blank(texts).len() ==> !is_blank(#[trigger] non_blank(texts)[i]),
        non_blank(texts).len() <= texts.len(),
    decreases texts.len(),
{
    if texts.len() > 0 {
        lemma_non_blank_elements(texts.drop_last());
    }
}

/// The join of texts that are not blank is empty exactly when there are none.
pub proof fn lemma_joined_empty_iff(kept: Seq<Seq<char>>, sep: Seq<char>)
    requires
        forall|i: int| 0 <= i < kept.len() ==> !is_blank(#[trigger] kept[i]),
    ensures
        (joined(kept, sep).len() == 0) == (kept.len() == 0),
    decreases kept.len(),
{
    if kept.len() > 1 {
        lemma_joined_empty_iff(kept.drop_last(), sep);
        assert(!is_blank(kept.last()));
    } else if kept.len() == 1 {
        assert(!is_blank(kept[0]));
    }
}

/// Appends `sep` and then `part` to `out` when `nonfirst`, else only `part`.
pub(crate) fn append_part(out: &mut String, nonfirst: bool, sep: &str, part: &str)
    ensures
        final(out)@ == if nonfirst {
            old(out)@ + sep@ + part@
        } else {
            old(out)@ + part@
        },
{
    if nonfirst {
        out.append(sep);
    }
    out.append(part);
}

/// The texts of `parts` joined with `sep` between neighbours.
pub fn join_texts(parts: &Vec<String>, sep: &str) -> (r: String)
    ensures
        r@ == joined(string_views(parts@), sep@),
{
    let ghost views = string_views(parts@);
    let mut out = String::new();
    let mut i: usize = 0;
    while i < parts.len()
        invariant
            i <= parts.len(),
            views == string_views(parts@),
            out@ == joined(views.take(i as int), sep@),
        decreases parts.len() - i,
    {
        proof {
            assert(views[i as int] == parts@[i as int]@);
            assert(views.take(i + 1) =~= views.take(i as int).push(views[i as int]));
            lemma_joined_push(views.take(i as int), sep@, views[i as int]);
        }
        append_part(&mut out, i > 0, sep, parts[i].as_str());
        i = i + 1;
    }
    proof {
        assert(views.take(i as int) =~= views);
    }
    out
}

/// Whether `texts` holds a text equal to `x`.
pub fn texts_contain(texts: &Vec<String>, x: &str) -> (r: bool)
    ensures
        r == string_views(texts@).contains(x@),
{
    let ghost views = string_views(texts@);
    let mut i: usize = 0;
    while i < texts.len()
        invariant
            i <= texts.len(),
            views == string_views(texts@),
            forall|k: int| 0 <= k < i ==> views[k] != x@,
        decreases texts.len() - i,
    {
        if str_eq(texts[i].as_str(), x) {
            assert(views[i as int] == x@);
            return true;
        }
        i = i + 1;
    }
    false
}

/// Whether `texts` holds a text equal to `x`.
pub fn strs_contain(texts: &[&str], x: &str) -> (r: bool)
    ensures
        r == str_views(texts@).contains(x@),
{
    let ghost views = str_views(texts@);
    let mut i: usize = 0;
    while i < texts.len()
        invariant
            i <= texts.len(),
            views == str_views(texts@),
            forall|k: int| 0 <= k < i ==> views[k] != x@,
        decreases texts.len() - i,
    {
        if str_eq(texts[i], x) {
            assert(views[i as int] == x@);
            return true;
        }
        i = i + 1;
    }
    false
}

/// The non-blank texts of `texts`, joined with an empty line between them.
pub fn join_non_blank_paragraphs(texts: &Vec<String>) -> (r: String)
    ensures
        r@ == joined(non_blank(string_views(texts@)), paragraph_break()),
{
    let ghost views = string_views(texts@);
    let mut out = String::new();
    let mut any = false;
    let mut i: usize = 0;
    proof {
        reveal_strlit("\n\n");
        assert("\n\n"@ =~= paragraph_break());
        assert(views.take(0) =~= Seq::<Seq<char>>::empty());
    }
    while i < texts.len()
        invariant
            i <= texts.len(),
            views == string_views(texts@),
            views.len() == texts@.len(),
            "\n\n"@ == paragraph_break(),
            any == (non_blank(views.take(i as int)).len() > 0),
            out@ == joined(non_blank(views.take(i as int)), paragraph_break()),
        decreases texts.len() - i,
    {
        let part = texts[i].as_str();
        proof {
            assert(views[i as int] == texts@[i as int]@);
            lemma_non_blank_take(views, i as int);
        }
        if !str_is_blank(part) {
            proof {
                lemma_joined_push(non_blank(views.take(i as int)), paragraph_break(), part@);
            }
            append_part(&mut out, any, "\n\n", part);
            any = true;
        }
        i = i + 1;
    }
    proof {
        assert(views.take(texts.len() as int) =~= views);
    }
    out
}

} // verus!
