//! Character-level helpers shared by the path and command-line modules.
//!
//! Strings are modelled by their view, a `Seq<char>`; every position in this
//! module counts characters, never bytes.

use vstd::prelude::*;
use vstd::string::*;

verus! {

/// The characters that separate words: the Unicode `White_Space` set.
pub open spec fn is_whitespace(c: char) -> bool {
    ||| '\u{9}' <= c <= '\u{d}'
    ||| c == ' '
    ||| c == '\u{85}'
    ||| c == '\u{a0}'
    ||| c == '\u{1680}'
    ||| '\u{2000}' <= c <= '\u{200a}'
    ||| c == '\u{2028}'
    ||| c == '\u{2029}'
    ||| c == '\u{202f}'
    ||| c == '\u{205f}'
    ||| c == '\u{3000}'
}

/// Length of the longest prefix of `s` made of whitespace only.
pub open spec fn leading_blank(s: Seq<char>) -> nat
    decreases s.len(),
{
    if s.len() > 0 && is_whitespace(s[0]) {
        1 + leading_blank(s.drop_first())
    } else {
        0
    }
}

/// Length of the longest prefix of `s` that holds no whitespace.
pub open spec fn leading_word(s: Seq<char>) -> nat
    decreases s.len(),
{
    if s.len() > 0 && !is_whitespace(s[0]) {
        1 + leading_word(s.drop_first())
    } else {
        0
    }
}

/// The maximal whitespace-free runs of `s`, in the order in which they occur.
pub open spec fn words(s: Seq<char>) -> Seq<Seq<char>>
    decreases s.len(),
    via words_terminates
{
    let rest = s.skip(leading_blank(s) as int);
    let n = leading_word(rest);
    if n == 0 {
        Seq::empty()
    } else {
        seq![rest.take(n as int)] + words(rest.skip(n as int))
    }
}

#[via_fn]
proof fn words_terminates(s: Seq<char>) {
    lemma_leading_blank_bound(s);
    lemma_leading_word_bound(s.skip(leading_blank(s) as int));
}

pub proof fn lemma_leading_blank_bound(s: Seq<char>)
    ensures
        leading_blank(s) <= s.len(),
        forall|i: int| 0 <= i < leading_blank(s) ==> is_whitespace(#[trigger] s[i]),
        leading_blank(s) < s.len() ==> !is_whitespace(s[leading_blank(s) as int]),
    decreases s.len(),
{
    if s.len() > 0 && is_whitespace(s[0]) {
        let t = s.drop_first();
        lemma_leading_blank_bound(t);
        assert forall|i: int| 0 <= i < leading_blank(s) implies is_whitespace(#[trigger] s[i]) by {
            if i > 0 {
                assert(s[i] == t[i - 1]);
            }
        }
        if leading_blank(s) < s.len() {
            assert(s[leading_blank(s) as int] == t[leading_blank(t) as int]);
        }
    }
}

pub proof fn lemma_leading_word_bound(s: Seq<char>)
    ensures
        leading_word(s) <= s.len(),
        forall|i: int| 0 <= i < leading_word(s) ==> !is_whitespace(#[trigger] s[i]),
        leading_word(s) < s.len() ==> is_whitespace(s[leading_word(s) as int]),
    decreases s.len(),
{
    if s.len() > 0 && !is_whitespace(s[0]) {
        let t = s.drop_first();
        lemma_leading_word_bound(t);
        assert forall|i: int| 0 <= i < leading_word(s) implies !is_whitespace(#[trigger] s[i]) by {
            if i > 0 {
                assert(s[i] == t[i - 1]);
            }
        }
        if leading_word(s) < s.len() {
            assert(s[leading_word(s) as int] == t[leading_word(t) as int]);
        }
    }
}

/// Every word is non-empty and free of whitespace.
pub proof fn lemma_words_are_clean(s: Seq<char>)
    ensures
        forall|k: int|
            0 <= k < words(s).len() ==> (#[trigger] words(s)[k]).len() > 0 && forall|i: int|
                0 <= i < words(s)[k].len() ==> !is_whitespace(#[trigger] words(s)[k][i]),
    decreases s.len(),
{
    lemma_leading_blank_bound(s);
    let rest = s.skip(leading_blank(s) as int);
    lemma_leading_word_bound(rest);
    let n = leading_word(rest);
    if n > 0 {
        let tail = rest.skip(n as int);
        lemma_words_are_clean(tail);
        let first = rest.take(n as int);
        assert forall|k: int| 0 <= k < words(s).len() implies (#[trigger] words(s)[k]).len() > 0
            && forall|i: int|
            0 <= i < words(s)[k].len() ==> !is_whitespace(#[trigger] words(s)[k][i]) by {
            if k == 0 {
                assert(words(s)[0] == first);
            } else {
                assert(words(s)[k] == words(tail)[k - 1]);
            }
        }
    }
}

/// A text without whitespace-free characters holds no word.
pub proof fn lemma_blank_text_has_no_words(s: Seq<char>)
    requires
        forall|i: int| 0 <= i < s.len() ==> is_whitespace(#[trigger] s[i]),
    ensures
        words(s).len() == 0,
{
    lemma_leading_blank_bound(s);
    let rest = s.skip(leading_blank(s) as int);
    if rest.len() > 0 {
        assert(rest[0] == s[leading_blank(s) as int]);
    }
}

/// Tells whether `c` separates words.
pub fn whitespace(c: char) -> (r: bool)
    ensures
        r == is_whitespace(c),
{
    ('\u{9}' <= c && c <= '\u{d}') || c == ' ' || c == '\u{85}' || c == '\u{a0}' || c == '\u{1680}'
        || ('\u{2000}' <= c && c <= '\u{200a}') || c == '\u{2028}' || c == '\u{2029}' || c
        == '\u{202f}' || c == '\u{205f}' || c == '\u{3000}'
}

/// The characters of `s`, one element each.
pub fn chars_of(s: &str) -> (v: Vec<char>)
    ensures
        v@ == s@,
{
    let mut v: Vec<char> = Vec::new();
    for c in it: s.chars()
        invariant
            v@ == it.seq().take(it.index() as int),
            it.seq() == s@,
    {
        v.push(c);
    }
    v
}

/// Splits `s` at whitespace and returns the words in order; a text that is
/// empty or blank gives no word.
pub fn split_whitespace(s: &str) -> (out: Vec<String>)
    ensures
        out.deep_view() == words(s@),
{
    let v = chars_of(s);
    let n: usize = v.len();
    let mut out: Vec<String> = Vec::new();
    let mut i: usize = 0;
    assert(s@.skip(0) =~= s@);
    assert(out.deep_view() =~= Seq::<Seq<char>>::empty());
    loop
        invariant_except_break
            i <= n,
            n == v.len(),
            v@ == s@,
            words(s@) == out.deep_view() + words(s@.skip(i as int)),
        ensures
            out.deep_view() == words(s@),
        decreases n - i,
    {
        let ghost from = i;
        let mut a: usize = i;
        while a < n && whitespace(v[a])
            invariant
                i <= a <= n,
                n == v.len(),
                v@ == s@,
                leading_blank(s@.skip(i as int)) == (a - i) + leading_blank(s@.skip(a as int)),
            decreases n - a,
        {
            assert(s@.skip(a as int).drop_first() =~= s@.skip(a + 1));
            a = a + 1;
        }
        let mut b: usize = a;
        while b < n && !whitespace(v[b])
            invariant
                a <= b <= n,
                n == v.len(),
                v@ == s@,
                leading_word(s@.skip(a as int)) == (b - a) + leading_word(s@.skip(b as int)),
            decreases n - b,
        {
            assert(s@.skip(b as int).drop_first() =~= s@.skip(b + 1));
            b = b + 1;
        }
        proof {
            let rest = s@.skip(i as int).skip(leading_blank(s@.skip(i as int)) as int);
            assert(rest =~= s@.skip(a as int));
            assert(rest.skip((b - a) as int) =~= s@.skip(b as int));
            assert(rest.take((b - a) as int) =~= s@.subrange(a as int, b as int));
        }
        if a == b {
            proof {
                assert(words(s@.skip(i as int)) =~= Seq::<Seq<char>>::empty());
                assert(out.deep_view() + Seq::<Seq<char>>::empty() =~= out.deep_view());
            }
            break ;
        }
        let ghost before = out.deep_view();
        let word = s.substring_char(a, b).to_owned();
        out.push(word);
        proof {
            assert(out.deep_view() =~= before + seq![s@.subrange(a as int, b as int)]);
            assert(words(s@.skip(from as int)) == seq![s@.subrange(a as int, b as int)] + words(
                s@.skip(b as int),
            ));
            assert(before + (seq![s@.subrange(a as int, b as int)] + words(s@.skip(b as int)))
                =~= (before + seq![s@.subrange(a as int, b as int)]) + words(s@.skip(b as int)));
        }
        i = b;
    }
    out
}

} // verus!
