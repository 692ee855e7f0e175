//! HTML escaping of text and of double-quoted attribute values.
use vstd::prelude::*;

use crate::text::{lemma_contains_add, lemma_substitute_add, lemma_substitute_first, substitute};

verus! {

/// What a character becomes in HTML text.
pub open spec fn text_entity(c: char) -> Seq<char> {
    if c == '&' {
        seq!['&', 'a', 'm', 'p', ';']
    } else if c == '<' {
        seq!['&', 'l', 't', ';']
    } else if c == '>' {
        seq!['&', 'g', 't', ';']
    } else {
        seq![c]
    }
}

/// What a character becomes in a double-quoted attribute value.
pub open spec fn attribute_entity(c: char) -> Seq<char> {
    if c == '"' {
        seq!['&', 'q', 'u', 'o', 't', ';']
    } else {
        text_entity(c)
    }
}

/// `s` as HTML text.
pub open spec fn escaped_text(s: Seq<char>) -> Seq<char> {
    substitute(s, |c: char| text_entity(c))
}

/// `s` as a double-quoted attribute value.
pub open spec fn escaped_attribute(s: Seq<char>) -> Seq<char> {
    substitute(s, |c: char| attribute_entity(c))
}

/// Calls `html_escape::encode_text`, which turns `&`, `<` and `>` into their
/// named entities and keeps every other character.
#[verifier::external_body]
pub(crate) fn escape(value: &str) -> (r: String)
    ensures
        r@ == escaped_text(value@),
{
    html_escape::encode_text(value).to_string()
}

/// Calls `html_escape::encode_double_quoted_attribute`, which turns `&`, `<`,
/// `>` and `"` into their named entities and keeps every other character.
#[verifier::external_body]
pub(crate) fn escape_attribute(value: &str) -> (r: String)
    ensures
        r@ == escaped_attribute(value@),
{
    html_escape::encode_double_quoted_attribute(value).to_string()
}

/// `s` holds no angle bracket.
pub open spec fn markup_free(s: Seq<char>) -> bool {
    !s.contains('<') && !s.contains('>')
}

/// Escaped text brings no tag into a page: it holds no angle bracket.
pub proof fn law_escaped_text_is_markup_free(s: Seq<char>)
    ensures
        markup_free(escaped_text(s)),
    decreases s.len(),
{
    if s.len() > 0 {
        let head = escaped_text(s.drop_last());
        let tail = text_entity(s.last());
        law_escaped_text_is_markup_free(s.drop_last());
        assert(!tail.contains('<') && !tail.contains('>'));
        lemma_contains_add(head, tail, '<');
        lemma_contains_add(head, tail, '>');
        assert(escaped_text(s) == head + tail);
    }
}

/// An escaped attribute value cannot end its attribute or open a tag: it
/// holds neither a double quote nor an angle bracket.
pub proof fn law_escaped_attribute_stays_quoted(s: Seq<char>)
    ensures
        markup_free(escaped_attribute(s)),
        !escaped_attribute(s).contains('"'),
    decreases s.len(),
{
    if s.len() > 0 {
        let head = escaped_attribute(s.drop_last());
        let tail = attribute_entity(s.last());
        law_escaped_attribute_stays_quoted(s.drop_last());
        assert(!tail.contains('<') && !tail.contains('>') && !tail.contains('"'));
        lemma_contains_add(head, tail, '<');
        lemma_contains_add(head, tail, '>');
        lemma_contains_add(head, tail, '"');
        assert(escaped_attribute(s) == head + tail);
    }
}

/// Text without `&`, `<` and `>` is shown as it is.
pub proof fn law_plain_text_escapes_to_itself(s: Seq<char>)
    requires
        forall|i: int| 0 <= i < s.len() ==> #[trigger] s[i] != '&' && s[i] != '<' && s[i] != '>',
    ensures
        escaped_text(s) == s,
    decreases s.len(),
{
    if s.len() > 0 {
        law_plain_text_escapes_to_itself(s.drop_last());
        assert(s.drop_last() + seq![s.last()] =~= s);
    }
}

/// Escaping joins: the escaped form of two texts in a row is the two escaped
/// forms in a row.
pub proof fn law_escaping_joins(a: Seq<char>, b: Seq<char>)
    ensures
        escaped_text(a + b) == escaped_text(a) + escaped_text(b),
        escaped_attribute(a + b) == escaped_attribute(a) + escaped_attribute(b),
{
    lemma_substitute_add(a, b, |c: char| text_entity(c));
    lemma_substitute_add(a, b, |c: char| attribute_entity(c));
}

/// Escaping loses nothing: two texts with the same escaped form are the same.
pub proof fn law_escaping_is_injective(a: Seq<char>, b: Seq<char>)
    ensures
        escaped_text(a) == escaped_text(b) ==> a == b,
        escaped_attribute(a) == escaped_attribute(b) ==> a == b,
{
    assert(starts_differ(|c: char| text_entity(c))) by {
        assert forall|c: char, d: char, h: Seq<char>, k: Seq<char>|
            text_entity(c) + h == text_entity(d) + k implies c == d by {
            lemma_entity_starts_differ(c, d, h, k);
        }
    }
    assert(starts_differ(|c: char| attribute_entity(c))) by {
        assert forall|c: char, d: char, h: Seq<char>, k: Seq<char>|
            attribute_entity(c) + h == attribute_entity(d) + k implies c == d by {
            lemma_entity_starts_differ(c, d, h, k);
        }
    }
    lemma_same_starts(a, b, |c: char| text_entity(c));
    lemma_same_starts(a, b, |c: char| attribute_entity(c));
}

proof fn lemma_entity_starts_differ(c: char, d: char, h: Seq<char>, k: Seq<char>)
    ensures
        text_entity(c) + h == text_entity(d) + k ==> c == d,
        attribute_entity(c) + h == attribute_entity(d) + k ==> c == d,
{
    if text_entity(c) + h == text_entity(d) + k {
        assert((text_entity(c) + h)[0] == (text_entity(d) + k)[0]);
        if c != d {
            assert((text_entity(c) + h)[1] == (text_entity(d) + k)[1]);
        }
    }
    if attribute_entity(c) + h == attribute_entity(d) + k {
        assert((attribute_entity(c) + h)[0] == (attribute_entity(d) + k)[0]);
        if c != d {
            assert((attribute_entity(c) + h)[1] == (attribute_entity(d) + k)[1]);
        }
    }
}

/// No replacement of `f` is empty or starts another one.
spec fn starts_differ(f: spec_fn(char) -> Seq<char>) -> bool {
    &&& forall|c: char| #[trigger] f(c).len() > 0
    &&& forall|c: char, d: char, h: Seq<char>, k: Seq<char>|
        #![trigger f(c) + h, f(d) + k]
        f(c) + h == f(d) + k ==> c == d
}

proof fn lemma_same_starts(a: Seq<char>, b: Seq<char>, f: spec_fn(char) -> Seq<char>)
    requires
        starts_differ(f),
    ensures
        substitute(a, f) == substitute(b, f) ==> a == b,
    decreases a.len(),
{
    if substitute(a, f) == substitute(b, f) {
        if a.len() == 0 {
            if b.len() > 0 {
                lemma_substitute_first(b, f);
                assert(f(b[0]).len() > 0);
                assert(substitute(a, f).len() == 0);
                assert(false);
            }
            assert(a =~= b);
        } else if b.len() == 0 {
            lemma_substitute_first(a, f);
            assert(f(a[0]).len() > 0);
            assert(substitute(b, f).len() == 0);
            assert(false);
        } else {
            lemma_substitute_first(a, f);
            lemma_substitute_first(b, f);
            let h = substitute(a.drop_first(), f);
            let k = substitute(b.drop_first(), f);
            assert(f(a[0]) + h == f(b[0]) + k);
            assert(a[0] == b[0]);
            assert(h =~= k) by {
                assert forall|i: int| 0 <= i < h.len() implies h[i] == k[i] by {
                    assert((f(a[0]) + h)[f(a[0]).len() + i] == (f(b[0]) + k)[f(b[0]).len() + i]);
                }
            }
            lemma_same_starts(a.drop_first(), b.drop_first(), f);
            assert(a =~= seq![a[0]] + a.drop_first());
            assert(b =~= seq![b[0]] + b.drop_first());
        }
    }
}

/// Escaping works character by character: three characters have entities in
/// text, a fourth has one in attribute values, and any other stays.
pub proof fn law_each_character_is_escaped(a: Seq<char>, c: char, b: Seq<char>)
    ensures
        escaped_text(Seq::empty()) == Seq::<char>::empty(),
        escaped_attribute(Seq::empty()) == Seq::<char>::empty(),
        ({
            let text = escaped_text(a + seq![c] + b);
            let value = escaped_attribute(a + seq![c] + b);
            let before = escaped_text(a);
            let after = escaped_text(b);
            let front = escaped_attribute(a);
            let back = escaped_attribute(b);
            &&& c == '&' ==> text == before + "&amp;"@ + after && value == front + "&amp;"@ + back
            &&& c == '<' ==> text == before + "&lt;"@ + after && value == front + "&lt;"@ + back
            &&& c == '>' ==> text == before + "&gt;"@ + after && value == front + "&gt;"@ + back
            &&& c == '"' ==> text == before + seq!['"'] + after && value == front + "&quot;"@ + back
            &&& c != '&' && c != '<' && c != '>' && c != '"' ==> text == before + seq![c] + after
                && value == front + seq![c] + back
        }),
{
    reveal_strlit("&amp;");
    reveal_strlit("&lt;");
    reveal_strlit("&gt;");
    reveal_strlit("&quot;");
    let one = seq![c];
    law_escaping_joins(a + one, b);
    law_escaping_joins(a, one);
    lemma_substitute_first(one, |c: char| text_entity(c));
    lemma_substitute_first(one, |c: char| attribute_entity(c));
    assert(one.drop_first() =~= Seq::<char>::empty());
    assert(escaped_text(one) =~= text_entity(c));
    assert(escaped_attribute(one) =~= attribute_entity(c));
    assert(c == '&' ==> text_entity(c) =~= "&amp;"@);
    assert(c == '<' ==> text_entity(c) =~= "&lt;"@);
    assert(c == '>' ==> text_entity(c) =~= "&gt;"@);
    assert(c == '"' ==> attribute_entity(c) =~= "&quot;"@);
}

} // verus!
