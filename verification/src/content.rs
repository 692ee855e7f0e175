//! What becomes of a post's text and of its time of creation.
use vstd::prelude::*;

use crate::escape::{
    escape, escaped_text, law_escaped_text_is_markup_free, law_escaping_joins,
    law_plain_text_escapes_to_itself, markup_free, text_entity,
};
use crate::text::{
    crlf_joined, join_crlf, lemma_contains_add, lemma_substitute_add, lemma_substitute_first,
    occurs_at, replace_char, replaced, replacing, substitute, trim_end_char, without_trailing,
};

verus! {

/// The mark that ends a line of a post.
pub const LINE_BREAK: &'static str = "<br>\n";

/// `s` with its line endings, `"\r\n"`, `"\r"` and `"\n"`, all made `"\n"`.
pub open spec fn unix_lines(s: Seq<char>) -> Seq<char> {
    replaced(crlf_joined(s), '\r', "\n"@)
}

/// The HTML of a post written as plain text.
pub open spec fn sanitized_post(s: Seq<char>) -> Seq<char> {
    replaced(unix_lines(escaped_text(s)), '\n', LINE_BREAK@)
}

/// The moment of creation as the store writes it, in the form of a published
/// property: a `T` for each space, and a single `Z` at the end.
pub open spec fn published_at(created: Seq<char>) -> Seq<char> {
    without_trailing(replaced(created, ' ', "T"@), 'Z') + "Z"@
}

/// The HTML of a post written as plain text: special characters escaped, and
/// a line break for each line ending.
pub fn sanitize_post_content(content: &str) -> (r: String)
    ensures
        r@ == sanitized_post(content@),
{
    let escaped: String = escape(content);
    let joined: String = join_crlf(escaped.as_str());
    let lines: String = replace_char(joined.as_str(), '\r', "\n");
    replace_char(lines.as_str(), '\n', LINE_BREAK)
}

/// The published property of a post that the store created at `created`.
pub fn post_timestamp(created: &str) -> (r: String)
    ensures
        r@ == published_at(created@),
{
    let dated: String = replace_char(created, ' ', "T");
    let mut out: String = trim_end_char(dated.as_str(), 'Z');
    out.append("Z");
    out
}

proof fn lemma_replaced_contains(s: Seq<char>, from: char, to: Seq<char>, c: char)
    ensures
        c != from && !s.contains(c) && !to.contains(c) ==> !replaced(s, from, to).contains(c),
        c == from && !to.contains(c) ==> !replaced(s, from, to).contains(c),
    decreases s.len(),
{
    if s.len() > 0 {
        let head = replaced(s.drop_last(), from, to);
        let tail = replacing(from, to)(s.last());
        lemma_replaced_contains(s.drop_last(), from, to, c);
        assert(replaced(s, from, to) == head + tail);
        lemma_contains_add(head, tail, c);
        if !s.contains(c) {
            assert(s[s.len() - 1] != c);
            assert(!s.drop_last().contains(c));
        }
        if s.last() != from && tail.contains(c) {
            assert(tail =~= seq![s.last()]);
            assert(s.last() == c);
        }
    }
}

proof fn lemma_joined_contains(s: Seq<char>, c: char)
    ensures
        !s.contains(c) ==> !crlf_joined(s).contains(c),
    decreases s.len(),
{
    if s.len() > 0 && !s.contains(c) {
        let rest = s.drop_first();
        assert(!rest.contains(c)) by {
            if rest.contains(c) {
                let i = choose|i: int| 0 <= i < rest.len() && rest[i] == c;
                assert(s[i + 1] == c);
            }
        }
        lemma_joined_contains(rest, c);
        lemma_contains_add(seq![s[0]], crlf_joined(rest), c);
        if seq![s[0]].contains(c) {
            assert(s[0] == c);
        }
    }
}

/// A sanitized post holds no carriage return, and no markup but its line
/// breaks: every `<`, `>` and line feed belongs to one of them.
pub proof fn law_sanitized_post_has_only_line_breaks(s: Seq<char>)
    ensures
        !sanitized_post(s).contains('\r'),
        forall|i: int|
            0 <= i < sanitized_post(s).len() && #[trigger] sanitized_post(s)[i] == '<'
                ==> occurs_at(sanitized_post(s), LINE_BREAK@, i),
        forall|i: int|
            0 <= i < sanitized_post(s).len() && #[trigger] sanitized_post(s)[i] == '>'
                ==> occurs_at(sanitized_post(s), LINE_BREAK@, i - 3),
        forall|i: int|
            0 <= i < sanitized_post(s).len() && #[trigger] sanitized_post(s)[i] == '\n'
                ==> occurs_at(sanitized_post(s), LINE_BREAK@, i - 4),
{
    reveal_strlit("\n");
    reveal_strlit("<br>\n");
    let escaped = escaped_text(s);
    law_escaped_text_is_markup_free(s);
    lemma_joined_contains(escaped, '<');
    lemma_joined_contains(escaped, '>');
    let lines = unix_lines(escaped);
    lemma_replaced_contains(crlf_joined(escaped), '\r', "\n"@, '<');
    lemma_replaced_contains(crlf_joined(escaped), '\r', "\n"@, '>');
    lemma_replaced_contains(crlf_joined(escaped), '\r', "\n"@, '\r');
    lemma_replaced_contains(lines, '\n', LINE_BREAK@, '\r');
    lemma_breaks_are_whole(lines);
}

proof fn lemma_breaks_are_whole(lines: Seq<char>)
    requires
        markup_free(lines),
    ensures
        forall|i: int|
            #![trigger replaced(lines, '\n', LINE_BREAK@)[i]]
            0 <= i < replaced(lines, '\n', LINE_BREAK@).len() ==> {
                let out = replaced(lines, '\n', LINE_BREAK@);
                &&& out[i] == '<' ==> occurs_at(out, LINE_BREAK@, i)
                &&& out[i] == '>' ==> occurs_at(out, LINE_BREAK@, i - 3)
                &&& out[i] == '\n' ==> occurs_at(out, LINE_BREAK@, i - 4)
            },
    decreases lines.len(),
{
    reveal_strlit("<br>\n");
    if lines.len() > 0 {
        let init = lines.drop_last();
        assert(markup_free(init)) by {
            assert(forall|c: char| init.contains(c) ==> lines.contains(c)) by {
                assert forall|c: char| init.contains(c) implies lines.contains(c) by {
                    let i = choose|i: int| 0 <= i < init.len() && init[i] == c;
                    assert(lines[i] == c);
                }
            }
        }
        lemma_breaks_are_whole(init);
        let head = replaced(init, '\n', LINE_BREAK@);
        let tail = replacing('\n', LINE_BREAK@)(lines.last());
        let out = replaced(lines, '\n', LINE_BREAK@);
        assert(out == head + tail);
        assert(lines[lines.len() - 1] != '<' && lines[lines.len() - 1] != '>');
        assert forall|i: int| 0 <= i < out.len() implies {
            &&& #[trigger] out[i] == '<' ==> occurs_at(out, LINE_BREAK@, i)
            &&& out[i] == '>' ==> occurs_at(out, LINE_BREAK@, i - 3)
            &&& out[i] == '\n' ==> occurs_at(out, LINE_BREAK@, i - 4)
        } by {
            if i < head.len() {
                assert(out[i] == head[i]);
                assert forall|at: int| occurs_at(head, LINE_BREAK@, at) implies occurs_at(
                    out,
                    LINE_BREAK@,
                    at,
                ) by {
                    assert(out.subrange(at, at + LINE_BREAK@.len()) =~= head.subrange(
                        at,
                        at + LINE_BREAK@.len(),
                    ));
                }
            } else {
                assert(out[i] == tail[i - head.len()]);
                if lines.last() == '\n' {
                    assert(out.subrange(head.len() as int, out.len() as int) =~= LINE_BREAK@);
                    assert(occurs_at(out, LINE_BREAK@, head.len() as int));
                }
            }
        }
    }
}

/// A post without special characters and line endings is published as it was
/// written.
pub proof fn law_plain_post_is_kept(s: Seq<char>)
    requires
        forall|i: int|
            0 <= i < s.len() ==> #[trigger] s[i] != '&' && s[i] != '<' && s[i] != '>' && s[i] != '\r'
                && s[i] != '\n',
    ensures
        sanitized_post(s) == s,
{
    law_plain_text_escapes_to_itself(s);
    lemma_joined_keeps(s);
    lemma_replaced_keeps(s, '\r', "\n"@);
    lemma_replaced_keeps(s, '\n', LINE_BREAK@);
}

proof fn lemma_joined_keeps(s: Seq<char>)
    requires
        forall|i: int| 0 <= i < s.len() ==> #[trigger] s[i] != '\r',
    ensures
        crlf_joined(s) == s,
    decreases s.len(),
{
    if s.len() > 0 {
        lemma_joined_keeps(s.drop_first());
        assert(seq![s[0]] + s.drop_first() =~= s);
    }
}

proof fn lemma_replaced_keeps(s: Seq<char>, from: char, to: Seq<char>)
    requires
        !s.contains(from),
    ensures
        replaced(s, from, to) == s,
    decreases s.len(),
{
    if s.len() > 0 {
        assert(s[s.len() - 1] != from);
        assert(!s.drop_last().contains(from)) by {
            if s.drop_last().contains(from) {
                let i = choose|i: int| 0 <= i < s.drop_last().len() && s.drop_last()[i] == from;
                assert(s[i] == from);
            }
        }
        lemma_replaced_keeps(s.drop_last(), from, to);
        assert(s.drop_last() + seq![s.last()] =~= s);
    }
}

proof fn lemma_joined_add(x: Seq<char>, y: Seq<char>)
    requires
        !(x.len() > 0 && x.last() == '\r' && y.len() > 0 && y[0] == '\n'),
    ensures
        crlf_joined(x + y) == crlf_joined(x) + crlf_joined(y),
    decreases x.len(),
{
    if x.len() == 0 {
        assert(x + y =~= y);
        assert(crlf_joined(x) + crlf_joined(y) =~= crlf_joined(y));
    } else {
        let rest = x.drop_first();
        assert((x + y).drop_first() =~= rest + y);
        if rest.len() > 0 {
            assert(rest.last() == x.last());
        }
        lemma_joined_add(rest, y);
        assert(seq![x[0]] + (crlf_joined(rest) + crlf_joined(y)) =~= seq![x[0]] + crlf_joined(rest)
            + crlf_joined(y));
    }
}

proof fn lemma_escaped_ends(s: Seq<char>)
    requires
        s.len() > 0,
    ensures
        escaped_text(s).len() > 0,
        escaped_text(s).last() == '\r' <==> s.last() == '\r',
        escaped_text(s)[0] == '\n' <==> s[0] == '\n',
{
    lemma_substitute_first(s, |c: char| text_entity(c));
    assert(escaped_text(s) == escaped_text(s.drop_last()) + text_entity(s.last()));
    assert(escaped_text(s) == text_entity(s[0]) + escaped_text(s.drop_first()));
}

/// The lines of two pieces of escaped text, one behind the other.
proof fn lemma_sanitized_add(x: Seq<char>, y: Seq<char>)
    requires
        !(x.len() > 0 && x.last() == '\r' && y.len() > 0 && y[0] == '\n'),
    ensures
        replaced(unix_lines(x + y), '\n', LINE_BREAK@) == replaced(unix_lines(x), '\n', LINE_BREAK@)
            + replaced(unix_lines(y), '\n', LINE_BREAK@),
{
    lemma_joined_add(x, y);
    lemma_substitute_add(crlf_joined(x), crlf_joined(y), replacing('\r', "\n"@));
    lemma_substitute_add(unix_lines(x), unix_lines(y), replacing('\n', LINE_BREAK@));
}

proof fn lemma_ending_becomes_break(ending: Seq<char>)
    requires
        ending == seq!['\n'] || ending == seq!['\r'] || ending == seq!['\r', '\n'],
    ensures
        escaped_text(ending) == ending,
        replaced(unix_lines(ending), '\n', LINE_BREAK@) == LINE_BREAK@,
{
    reveal_strlit("\n");
    law_plain_text_escapes_to_itself(ending);
    let feed = seq!['\n'];
    assert(crlf_joined(ending) == feed || crlf_joined(ending) == seq!['\r']) by {
        reveal_with_fuel(crlf_joined, 3);
        assert(ending.drop_first() =~= Seq::<char>::empty() || ending.drop_first() =~= feed);
        assert(crlf_joined(ending) =~= feed || crlf_joined(ending) =~= seq!['\r']);
    }
    assert(unix_lines(ending) == feed) by {
        reveal_with_fuel(substitute, 2);
        assert(unix_lines(ending) =~= feed);
    }
    reveal_with_fuel(substitute, 2);
    assert(replaced(feed, '\n', LINE_BREAK@) =~= LINE_BREAK@);
}

/// Every way to end a line is published alike: a line ending between two
/// texts becomes one line break between their own forms. (Where a carriage
/// return ends the first text or a line feed starts the second, a lone
/// ending between them would be part of a pair instead.)
pub proof fn law_line_endings_agree(a: Seq<char>, b: Seq<char>)
    ensures
        sanitized_post(a + seq!['\r', '\n'] + b) == sanitized_post(a) + LINE_BREAK@ + sanitized_post(b),
        !(a.len() > 0 && a.last() == '\r') ==> sanitized_post(a + seq!['\n'] + b) == sanitized_post(a)
            + LINE_BREAK@ + sanitized_post(b),
        !(b.len() > 0 && b[0] == '\n') ==> sanitized_post(a + seq!['\r'] + b) == sanitized_post(a)
            + LINE_BREAK@ + sanitized_post(b),
{
    lemma_line_ending(a, seq!['\r', '\n'], b);
    if !(a.len() > 0 && a.last() == '\r') {
        lemma_line_ending(a, seq!['\n'], b);
    }
    if !(b.len() > 0 && b[0] == '\n') {
        lemma_line_ending(a, seq!['\r'], b);
    }
}

proof fn lemma_line_ending(a: Seq<char>, ending: Seq<char>, b: Seq<char>)
    requires
        ending == seq!['\n'] || ending == seq!['\r'] || ending == seq!['\r', '\n'],
        ending[0] == '\n' ==> !(a.len() > 0 && a.last() == '\r'),
        ending.last() == '\r' ==> !(b.len() > 0 && b[0] == '\n'),
    ensures
        sanitized_post(a + ending + b) == sanitized_post(a) + LINE_BREAK@ + sanitized_post(b),
{
    if a.len() > 0 {
        lemma_escaped_ends(a);
    }
    if b.len() > 0 {
        lemma_escaped_ends(b);
    }
    lemma_ending_becomes_break(ending);
    law_escaping_joins(a + ending, b);
    law_escaping_joins(a, ending);
    lemma_sanitized_add(escaped_text(a) + ending, escaped_text(b));
    lemma_sanitized_add(escaped_text(a), ending);
}

/// Escaping changes no line ending, so the two orders agree.
proof fn lemma_escape_then_join(s: Seq<char>)
    ensures
        crlf_joined(escaped_text(s)) == escaped_text(crlf_joined(s)),
    decreases s.len(),
{
    if s.len() > 0 {
        let rest = s.drop_first();
        let head = seq![s[0]];
        lemma_escape_then_join(rest);
        lemma_substitute_first(s, |c: char| text_entity(c));
        assert(escaped_text(s) == text_entity(s[0]) + escaped_text(rest));
        if rest.len() > 0 {
            lemma_escaped_ends(rest);
        }
        if s.len() > 1 && s[0] == '\r' && s[1] == '\n' {
            assert(text_entity(s[0]) =~= seq!['\r']);
            assert(escaped_text(s).drop_first() =~= escaped_text(rest));
            assert(escaped_text(s)[1] == escaped_text(rest)[0]);
        } else {
            assert(crlf_joined(s) == head + crlf_joined(rest));
            lemma_joined_add(text_entity(s[0]), escaped_text(rest));
            lemma_joined_entity(s[0]);
            law_escaping_joins(head, crlf_joined(rest));
            lemma_substitute_first(head, |c: char| text_entity(c));
            assert(head.drop_first() =~= Seq::<char>::empty());
            assert(escaped_text(head) =~= text_entity(s[0]));
        }
    } else {
        assert(escaped_text(s) =~= s);
    }
}

proof fn lemma_joined_entity(c: char)
    ensures
        crlf_joined(text_entity(c)) == text_entity(c),
{
    let e = text_entity(c);
    if c == '\r' {
        assert(e.drop_first() =~= Seq::<char>::empty());
        assert(crlf_joined(e.drop_first()) =~= Seq::<char>::empty());
        assert(crlf_joined(e) =~= e);
    } else {
        lemma_joined_keeps(e);
    }
}

/// Escaping and making line endings alike can change places.
proof fn lemma_escape_then_lines(s: Seq<char>)
    ensures
        unix_lines(escaped_text(s)) == escaped_text(unix_lines(s)),
{
    lemma_escape_then_join(s);
    lemma_escape_then_feed(crlf_joined(s));
}

proof fn lemma_escape_then_feed(s: Seq<char>)
    ensures
        replaced(escaped_text(s), '\r', "\n"@) == escaped_text(replaced(s, '\r', "\n"@)),
    decreases s.len(),
{
    if s.len() == 0 {
        assert(replaced(escaped_text(s), '\r', "\n"@) =~= escaped_text(
            replaced(s, '\r', "\n"@),
        ));
    } else {
        reveal_strlit("\n");
        let init = s.drop_last();
        let c = s.last();
        lemma_escape_then_feed(init);
        lemma_substitute_add(escaped_text(init), text_entity(c), replacing('\r', "\n"@));
        let piece = replacing('\r', "\n"@)(c);
        law_escaping_joins(replaced(init, '\r', "\n"@), piece);
        if c == '\r' {
            let one = text_entity(c);
            assert(one =~= seq!['\r']);
            assert(one.drop_last() =~= Seq::<char>::empty());
            reveal_with_fuel(substitute, 2);
            assert(replaced(one, '\r', "\n"@) =~= "\n"@);
            law_plain_text_escapes_to_itself("\n"@);
        } else {
            lemma_replaced_keeps(text_entity(c), '\r', "\n"@);
            assert(piece =~= seq![c]);
            assert(piece.drop_last() =~= Seq::<char>::empty());
            reveal_with_fuel(substitute, 2);
            assert(escaped_text(piece) =~= text_entity(c));
        }
    }
}

/// How a text ends its lines never matters: it is published as the text with
/// all line endings made alike.
pub proof fn law_line_ending_style_does_not_matter(s: Seq<char>)
    ensures
        sanitized_post(unix_lines(s)) == sanitized_post(s),
{
    lemma_escape_then_lines(s);
    lemma_escape_then_lines(unix_lines(s));
    reveal_strlit("\n");
    lemma_replaced_contains(crlf_joined(s), '\r', "\n"@, '\r');
    let lines = unix_lines(s);
    assert forall|i: int| 0 <= i < lines.len() implies #[trigger] lines[i] != '\r' by {
        if lines[i] == '\r' {
            assert(lines.contains('\r'));
        }
    }
    lemma_joined_keeps(lines);
    lemma_replaced_keeps(lines, '\r', "\n"@);
}

/// `s` without its line-break tags.
pub open spec fn without_breaks(s: Seq<char>) -> Seq<char>
    decreases s.len(),
{
    if s.len() == 0 {
        s
    } else if s.len() >= 4 && s[0] == '<' && s[1] == 'b' && s[2] == 'r' && s[3] == '>' {
        without_breaks(s.skip(4))
    } else {
        seq![s[0]] + without_breaks(s.drop_first())
    }
}

/// Line breaks are all that is added to the escaped text: without them a
/// sanitized post is the escaped text of the post, its line endings made
/// alike.
pub proof fn law_only_line_breaks_are_added(s: Seq<char>)
    ensures
        without_breaks(sanitized_post(s)) == escaped_text(unix_lines(s)),
{
    reveal_strlit("\n");
    lemma_escape_then_lines(s);
    law_escaped_text_is_markup_free(unix_lines(s));
    lemma_breaks_removed(escaped_text(unix_lines(s)));
}

proof fn lemma_breaks_removed(lines: Seq<char>)
    requires
        !lines.contains('<'),
    ensures
        without_breaks(replaced(lines, '\n', LINE_BREAK@)) == lines,
    decreases lines.len(),
{
    reveal_strlit("<br>\n");
    let out = replaced(lines, '\n', LINE_BREAK@);
    if lines.len() > 0 {
        let rest = lines.drop_first();
        let tail = replaced(rest, '\n', LINE_BREAK@);
        assert(lines[0] != '<');
        assert(!rest.contains('<')) by {
            if rest.contains('<') {
                let i = choose|i: int| 0 <= i < rest.len() && rest[i] == '<';
                assert(lines[i + 1] == '<');
            }
        }
        lemma_breaks_removed(rest);
        lemma_substitute_first(lines, replacing('\n', LINE_BREAK@));
        if lines[0] == '\n' {
            assert(out == LINE_BREAK@ + tail);
            let after = out.skip(4);
            assert(after =~= seq!['\n'] + tail);
            assert(after.drop_first() =~= tail);
            assert(without_breaks(after) == seq!['\n'] + without_breaks(tail));
        } else {
            assert(out =~= seq![lines[0]] + tail);
            assert(out.drop_first() =~= tail);
        }
        assert(seq![lines[0]] + rest =~= lines);
    } else {
        assert(out =~= lines);
    }
}

proof fn lemma_without_trailing(s: Seq<char>, c: char)
    ensures
        without_trailing(s, c).len() > 0 ==> without_trailing(s, c).last() != c,
        forall|d: char| !s.contains(d) ==> !#[trigger] without_trailing(s, c).contains(d),
        without_trailing(s.push(c), c) == without_trailing(s, c),
    decreases s.len(),
{
    assert(s.push(c).drop_last() =~= s);
    if s.len() > 0 && s.last() == c {
        lemma_without_trailing(s.drop_last(), c);
        assert forall|d: char| !s.contains(d) implies !#[trigger] without_trailing(s, c).contains(
            d,
        ) by {
            assert(!s.drop_last().contains(d));
        }
    }
}

/// A published time holds no space, ends in one `Z` and no more, and is its
/// own published form.
pub proof fn law_published_time_is_stable(created: Seq<char>)
    ensures
        !published_at(created).contains(' '),
        published_at(created).len() > 0 && published_at(created).last() == 'Z',
        published_at(created).len() > 1 ==> published_at(created)[published_at(created).len() - 2]
            != 'Z',
        published_at(published_at(created)) == published_at(created),
{
    reveal_strlit("T");
    reveal_strlit("Z");
    let dated = replaced(created, ' ', "T"@);
    lemma_replaced_contains(created, ' ', "T"@, ' ');
    let bare = without_trailing(dated, 'Z');
    lemma_without_trailing(dated, 'Z');
    let out = published_at(created);
    lemma_contains_add(bare, "Z"@, ' ');
    lemma_replaced_keeps(out, ' ', "T"@);
    lemma_without_trailing(bare, 'Z');
    assert(out =~= bare.push('Z'));
    assert(without_trailing(bare, 'Z') == bare);
}

/// A pair of carriage return and line feed becomes a line feed, wherever it
/// stands; a text without such a pair is kept.
pub proof fn law_pairs_become_line_feeds(a: Seq<char>, b: Seq<char>)
    ensures
        crlf_joined(a + seq!['\r', '\n'] + b) == crlf_joined(a) + seq!['\n'] + crlf_joined(b),
        (forall|i: int| 0 <= i < a.len() - 1 ==> !(#[trigger] a[i] == '\r' && a[i + 1] == '\n'))
            ==> crlf_joined(a) == a,
{
    let pair = seq!['\r', '\n'];
    lemma_joined_add(a + pair, b);
    lemma_joined_add(a, pair);
    assert(crlf_joined(pair) =~= seq!['\n']) by {
        reveal_with_fuel(crlf_joined, 3);
        assert(pair.drop_first() =~= seq!['\n']);
    }
    if forall|i: int| 0 <= i < a.len() - 1 ==> !(#[trigger] a[i] == '\r' && a[i + 1] == '\n') {
        lemma_unpaired_keeps(a);
    }
}

proof fn lemma_unpaired_keeps(s: Seq<char>)
    requires
        forall|i: int| 0 <= i < s.len() - 1 ==> !(#[trigger] s[i] == '\r' && s[i + 1] == '\n'),
    ensures
        crlf_joined(s) == s,
    decreases s.len(),
{
    if s.len() > 0 {
        let rest = s.drop_first();
        assert forall|i: int| 0 <= i < rest.len() - 1 implies !(#[trigger] rest[i] == '\r' && rest[i
            + 1] == '\n') by {
            assert(rest[i] == s[i + 1] && rest[i + 1] == s[i + 2]);
        }
        lemma_unpaired_keeps(rest);
        assert(s[0] == '\r' ==> s.len() == 1 || s[1] != '\n');
        assert(seq![s[0]] + rest =~= s);
    }
}

/// A line of a post is published as its escaped text, in full.
pub proof fn law_a_line_is_published_escaped(s: Seq<char>)
    requires
        !s.contains('\r'),
        !s.contains('\n'),
    ensures
        sanitized_post(s) == escaped_text(s),
{
    let escaped = escaped_text(s);
    lemma_escaping_adds_no_ending(s);
    assert forall|i: int| 0 <= i < escaped.len() implies #[trigger] escaped[i] != '\r' by {
        if escaped[i] == '\r' {
            assert(escaped.contains('\r'));
        }
    }
    lemma_joined_keeps(escaped);
    lemma_replaced_keeps(escaped, '\r', "\n"@);
    lemma_replaced_keeps(escaped, '\n', LINE_BREAK@);
}

proof fn lemma_escaping_adds_no_ending(s: Seq<char>)
    requires
        !s.contains('\r'),
        !s.contains('\n'),
    ensures
        !escaped_text(s).contains('\r'),
        !escaped_text(s).contains('\n'),
    decreases s.len(),
{
    if s.len() > 0 {
        let init = s.drop_last();
        assert forall|c: char| init.contains(c) implies s.contains(c) by {
            let i = choose|i: int| 0 <= i < init.len() && init[i] == c;
            assert(s[i] == c);
        }
        lemma_escaping_adds_no_ending(init);
        let entity = text_entity(s.last());
        assert(s[s.len() - 1] == s.last());
        assert(!entity.contains('\r') && !entity.contains('\n'));
        lemma_contains_add(escaped_text(init), entity, '\r');
        lemma_contains_add(escaped_text(init), entity, '\n');
        assert(escaped_text(s) == escaped_text(init) + entity);
    }
}

/// A published time is the time of creation character by character, a `T` in
/// the place of each space, with a `Z` behind it; zone marks that end the
/// time of creation do not count.
pub proof fn law_published_time_is_the_created_one(created: Seq<char>, i: int)
    ensures
        (created.len() == 0 || created.last() != 'Z') ==> {
            &&& published_at(created).len() == created.len() + 1
            &&& published_at(created).last() == 'Z'
            &&& 0 <= i < created.len() && created[i] == ' ' ==> published_at(created)[i] == 'T'
            &&& 0 <= i < created.len() && created[i] != ' ' ==> published_at(created)[i]
                == created[i]
        },
        published_at(created.push('Z')) == published_at(created),
{
    reveal_strlit("T");
    reveal_strlit("Z");
    let dated = replaced(created, ' ', "T"@);
    lemma_replaced_one_by_one(created);
    if created.len() == 0 || created.last() != 'Z' {
        assert(created.len() > 0 ==> dated.last() != 'Z');
        assert(without_trailing(dated, 'Z') == dated);
    }
    let longer = created.push('Z');
    assert(longer.drop_last() =~= created);
    assert(replaced(longer, ' ', "T"@) =~= dated.push('Z'));
    lemma_without_trailing(dated, 'Z');
}

/// Replacing each space by a `T` changes no other character.
pub proof fn lemma_replaced_one_by_one(s: Seq<char>)
    ensures
        replaced(s, ' ', "T"@).len() == s.len(),
        forall|i: int|
            0 <= i < s.len() ==> #[trigger] replaced(s, ' ', "T"@)[i] == if s[i] == ' ' {
                'T'
            } else {
                s[i]
            },
    decreases s.len(),
{
    reveal_strlit("T");
    if s.len() > 0 {
        let init = s.drop_last();
        lemma_replaced_one_by_one(init);
        let piece = replacing(' ', "T"@)(s.last());
        assert(replaced(s, ' ', "T"@) == replaced(init, ' ', "T"@) + piece);
        assert forall|i: int| 0 <= i < s.len() implies #[trigger] replaced(s, ' ', "T"@)[i] == if s[i]
            == ' ' {
            'T'
        } else {
            s[i]
        } by {
            if i < init.len() {
                assert(init[i] == s[i]);
            }
        }
    }
}

} // verus!
