//! Text primitives on `str` views: Unicode white-space trimming and
//! ASCII case-insensitive comparison.

use vstd::prelude::*;

verus! {

/// Unicode `White_Space` property: the characters that `char::is_whitespace`
/// accepts.
pub open spec fn is_white_space(c: char) -> bool {
    ||| ('\u{9}' <= c && c <= '\u{d}')
    ||| c == ' '
    ||| c == '\u{85}'
    ||| c == '\u{a0}'
    ||| c == '\u{1680}'
    ||| ('\u{2000}' <= c && c <= '\u{200a}')
    ||| c == '\u{2028}'
    ||| c == '\u{2029}'
    ||| c == '\u{202f}'
    ||| c == '\u{205f}'
    ||| c == '\u{3000}'
}

/// Every character of `s` is white space.
pub open spec fn all_white_space(s: Seq<char>) -> bool {
    forall|k: int| 0 <= k < s.len() ==> #[trigger] is_white_space(s[k])
}

/// `s` with its white space removed at both ends (what `str::trim` gives).
pub open spec fn trimmed(s: Seq<char>) -> Seq<char>
    decreases s.len(),
{
    if s.len() == 0 {
        s
    } else if is_white_space(s.first()) {
        trimmed(s.drop_first())
    } else if is_white_space(s.last()) {
        trimmed(s.drop_last())
    } else {
        s
    }
}

/// The code point of `c` with the ASCII capitals `A`..`Z` mapped to their
/// lower-case letters; every other character is left as it is.
pub open spec fn ascii_folded(c: char) -> u32 {
    if 'A' <= c && c <= 'Z' {
        (c as u32 + 32) as u32
    } else {
        c as u32
    }
}

/// `a` and `b` are the same text up to the case of ASCII letters
/// (what `str::eq_ignore_ascii_case` decides).
pub open spec fn eq_ignoring_ascii_case(a: Seq<char>, b: Seq<char>) -> bool {
    &&& a.len() == b.len()
    &&& forall|k: int| 0 <= k < a.len() ==> #[trigger] ascii_folded(a[k]) == ascii_folded(b[k])
}

/// Trimming `s` keeps exactly the characters between a white-space prefix
/// and a white-space suffix whose inner ends are not white space.
pub proof fn lemma_trimmed_between(s: Seq<char>, i: int, j: int)
    requires
        0 <= i <= j <= s.len(),
        forall|k: int| 0 <= k < i ==> #[trigger] is_white_space(s[k]),
        forall|k: int| j <= k < s.len() ==> #[trigger] is_white_space(s[k]),
        i < j ==> !is_white_space(s[i]) && !is_white_space(s[j - 1]),
    ensures
        trimmed(s) == s.subrange(i, j),
    decreases s.len(),
{
    if s.len() == 0 {
        assert(s.subrange(i, j) =~= s);
    } else if is_white_space(s.first()) {
        let t = s.drop_first();
        if i == j {
            assert forall|k: int| 0 <= k < t.len() implies #[trigger] is_white_space(t[k]) by {
                assert(t[k] == s[k + 1]);
            }
            lemma_trimmed_between(t, 0, 0);
            assert(s.subrange(i, j) =~= t.subrange(0, 0));
        } else {
            assert(i > 0);
            assert forall|k: int| 0 <= k < i - 1 implies #[trigger] is_white_space(t[k]) by {
                assert(t[k] == s[k + 1]);
            }
            assert forall|k: int| j - 1 <= k < t.len() implies #[trigger] is_white_space(t[k]) by {
                assert(t[k] == s[k + 1]);
            }
            lemma_trimmed_between(t, i - 1, j - 1);
            assert(s.subrange(i, j) =~= t.subrange(i - 1, j - 1));
        }
    } else if is_white_space(s.last()) {
        let t = s.drop_last();
        assert(i == 0);
        assert(j < s.len());
        assert forall|k: int| j <= k < t.len() implies #[trigger] is_white_space(t[k]) by {
            assert(t[k] == s[k]);
        }
        lemma_trimmed_between(t, i, j);
        assert(s.subrange(i, j) =~= t.subrange(i, j));
    } else {
        assert(i == 0);
        assert(j == s.len());
        assert(s.subrange(i, j) =~= s);
    }
}

/// White space around a text does not change how it is trimmed.
pub proof fn lemma_trimmed_ignores_padding(pre: Seq<char>, s: Seq<char>, post: Seq<char>)
    requires
        all_white_space(pre),
        all_white_space(post),
    ensures
        trimmed(pre + s + post) == trimmed(s),
    decreases pre.len() + s.len() + post.len(),
{
    let x = pre + s + post;
    if pre.len() > 0 {
        assert(x.first() == pre[0]);
        assert(x.drop_first() =~= pre.drop_first() + s + post);
        assert forall|k: int| 0 <= k < pre.drop_first().len() implies #[trigger] is_white_space(
            pre.drop_first()[k],
        ) by {
            assert(pre.drop_first()[k] == pre[k + 1]);
        }
        lemma_trimmed_ignores_padding(pre.drop_first(), s, post);
    } else if post.len() > 0 {
        assert(x =~= s + post);
        if s.len() == 0 {
            assert(x =~= post);
            assert(x.first() == post[0]);
            assert(x.drop_first() =~= pre + s + post.drop_first());
            assert forall|k: int| 0 <= k < post.drop_first().len() implies #[trigger] is_white_space(
                post.drop_first()[k],
            ) by {
                assert(post.drop_first()[k] == post[k + 1]);
            }
            lemma_trimmed_ignores_padding(pre, s, post.drop_first());
        } else if is_white_space(s.first()) {
            assert(x.first() == s.first());
            assert(x.drop_first() =~= pre + s.drop_first() + post);
            lemma_trimmed_ignores_padding(pre, s.drop_first(), post);
            let e = Seq::<char>::empty();
            assert(e + s.drop_first() + e =~= s.drop_first());
            lemma_trimmed_ignores_padding(e, s.drop_first(), e);
        } else {
            assert(x.first() == s.first());
            assert(x.last() == post.last());
            assert(is_white_space(post[post.len() - 1]));
            assert(x.drop_last() =~= pre + s + post.drop_last());
            assert forall|k: int| 0 <= k < post.drop_last().len() implies #[trigger] is_white_space(
                post.drop_last()[k],
            ) by {
                assert(post.drop_last()[k] == post[k]);
            }
            lemma_trimmed_ignores_padding(pre, s, post.drop_last());
        }
    } else {
        assert(x =~= s);
    }
}

/// Text made only of white space trims to nothing.
pub proof fn lemma_blank_trims_to_nothing(s: Seq<char>)
    requires
        all_white_space(s),
    ensures
        trimmed(s) == Seq::<char>::empty(),
{
    lemma_trimmed_between(s, 0, 0);
    assert(s.subrange(0, 0) =~= Seq::<char>::empty());
}

/// `s[i..j]` is `s` with a white-space prefix and suffix cut off, and the
/// kept part, when not empty, neither starts nor ends with white space.
pub open spec fn trim_bounds(s: Seq<char>, i: int, j: int) -> bool {
    &&& 0 <= i <= j <= s.len()
    &&& forall|k: int| 0 <= k < i ==> #[trigger] is_white_space(s[k])
    &&& forall|k: int| j <= k < s.len() ==> #[trigger] is_white_space(s[k])
    &&& i < j ==> !is_white_space(s[i]) && !is_white_space(s[j - 1])
}

/// Trimming keeps a contiguous part of the text: it removes exactly the
/// white space at both ends and nothing else.
pub proof fn lemma_trimmed_is_inner_part(s: Seq<char>)
    ensures
        exists|i: int, j: int| trim_bounds(s, i, j) && trimmed(s) == s.subrange(i, j),
    decreases s.len(),
{
    if s.len() == 0 {
        assert(trim_bounds(s, 0, 0) && trimmed(s) == s.subrange(0, 0));
    } else if is_white_space(s.first()) {
        let t = s.drop_first();
        lemma_trimmed_is_inner_part(t);
        let (i, j) = choose|i: int, j: int| trim_bounds(t, i, j) && trimmed(t) == t.subrange(i, j);
        assert forall|k: int| 0 <= k < i + 1 implies #[trigger] is_white_space(s[k]) by {
            if k > 0 {
                assert(s[k] == t[k - 1]);
            }
        }
        assert forall|k: int| j + 1 <= k < s.len() implies #[trigger] is_white_space(s[k]) by {
            assert(s[k] == t[k - 1]);
        }
        if i < j {
            assert(s[i + 1] == t[i]);
            assert(s[j] == t[j - 1]);
        }
        assert(t.subrange(i, j) =~= s.subrange(i + 1, j + 1));
        assert(trim_bounds(s, i + 1, j + 1) && trimmed(s) == s.subrange(i + 1, j + 1));
    } else if is_white_space(s.last()) {
        let t = s.drop_last();
        lemma_trimmed_is_inner_part(t);
        let (i, j) = choose|i: int, j: int| trim_bounds(t, i, j) && trimmed(t) == t.subrange(i, j);
        assert forall|k: int| 0 <= k < i implies #[trigger] is_white_space(s[k]) by {
            assert(s[k] == t[k]);
        }
        assert forall|k: int| j <= k < s.len() implies #[trigger] is_white_space(s[k]) by {
            if k < t.len() {
                assert(s[k] == t[k]);
            }
        }
        if i < j {
            assert(s[i] == t[i]);
            assert(s[j - 1] == t[j - 1]);
        }
        assert(t.subrange(i, j) =~= s.subrange(i, j));
        assert(trim_bounds(s, i, j) && trimmed(s) == s.subrange(i, j));
    } else {
        assert(s.subrange(0, s.len() as int) =~= s);
        assert(trim_bounds(s, 0, s.len() as int) && trimmed(s) == s.subrange(0, s.len() as int));
    }
}

/// Characters with the same code point are the same character.
pub proof fn lemma_char_code_injective(a: char, b: char)
    requires
        a as u32 == b as u32,
    ensures
        a == b,
{
    vstd::utf8::char_u32_cast(a, a as u32);
    vstd::utf8::char_u32_cast(b, b as u32);
}

/// Two characters are equal up to ASCII case exactly when they are equal,
/// or one is an ASCII capital and the other the same letter in lower case.
pub proof fn lemma_ascii_folded_equal(a: char, b: char)
    ensures
        ascii_folded(a) == ascii_folded(b) <==> (a == b || ('A' <= a && a <= 'Z' && b as u32 == a
            as u32 + 32) || ('A' <= b && b <= 'Z' && a as u32 == b as u32 + 32)),
{
}

/// Decides `is_white_space` (the Unicode `White_Space` property).
pub fn is_white_space_char(c: char) -> (r: bool)
    ensures
        r == is_white_space(c),
{
    ('\u{9}' <= c && c <= '\u{d}') || c == ' ' || c == '\u{85}' || c == '\u{a0}' || c
        == '\u{1680}' || ('\u{2000}' <= c && c <= '\u{200a}') || c == '\u{2028}' || c
        == '\u{2029}' || c == '\u{202f}' || c == '\u{205f}' || c == '\u{3000}'
}

/// `s` without its leading and trailing white space.
pub fn trim_ws(s: &str) -> (r: &str)
    ensures
        r@ == trimmed(s@),
{
    let n = s.unicode_len();
    let mut i: usize = 0;
    while i < n && is_white_space_char(s.get_char(i))
        invariant
            n == s@.len(),
            i <= n,
            forall|k: int| 0 <= k < i ==> #[trigger] is_white_space(s@[k]),
        decreases n - i,
    {
        i = i + 1;
    }
    let mut j: usize = n;
    while j > i && is_white_space_char(s.get_char(j - 1))
        invariant
            n == s@.len(),
            i <= j <= n,
            forall|k: int| 0 <= k < i ==> #[trigger] is_white_space(s@[k]),
            forall|k: int| j <= k < n ==> #[trigger] is_white_space(s@[k]),
            i < n ==> !is_white_space(s@[i as int]),
        decreases j - i,
    {
        j = j - 1;
    }
    proof {
        lemma_trimmed_between(s@, i as int, j as int);
    }
    s.substring_char(i, j)
}

/// Decides `ascii_folded`.
fn ascii_fold(c: char) -> (r: u32)
    ensures
        r == ascii_folded(c),
{
    if 'A' <= c && c <= 'Z' {
        c as u32 + 32
    } else {
        c as u32
    }
}

/// Whether `a` and `b` are equal up to the case of ASCII letters.
pub fn eq_ignore_ascii_case(a: &str, b: &str) -> (r: bool)
    ensures
        r == eq_ignoring_ascii_case(a@, b@),
{
    let n = a.unicode_len();
    if n != b.unicode_len() {
        return false;
    }
    let mut i: usize = 0;
    while i < n
        invariant
            n == a@.len(),
            n == b@.len(),
            i <= n,
            forall|k: int| 0 <= k < i ==> #[trigger] ascii_folded(a@[k]) == ascii_folded(b@[k]),
        decreases n - i,
    {
        if ascii_fold(a.get_char(i)) != ascii_fold(b.get_char(i)) {
            return false;
        }
        i = i + 1;
    }
    true
}

} // verus!
