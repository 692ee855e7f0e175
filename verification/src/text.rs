//! Text as a sequence of characters: trimming, replacing, searching and
//! decimal numerals.
use vstd::prelude::*;

verus! {

/// `String::push` appends one character to the end of a string.
pub assume_specification[ String::push ](text: &mut String, c: char)
    ensures
        final(text)@ == old(text)@.push(c),
;

/// The characters with the Unicode property `White_Space`.
pub open spec fn is_white_space(c: char) -> bool {
    ||| '\u{9}' <= c <= '\u{d}'
    ||| c == '\u{20}'
    ||| c == '\u{85}'
    ||| c == '\u{a0}'
    ||| c == '\u{1680}'
    ||| '\u{2000}' <= c <= '\u{200a}'
    ||| c == '\u{2028}'
    ||| c == '\u{2029}'
    ||| c == '\u{202f}'
    ||| c == '\u{205f}'
    ||| c == '\u{3000}'
}

/// `s` without its leading white space.
pub open spec fn trimmed_start(s: Seq<char>) -> Seq<char>
    decreases s.len(),
{
    if s.len() > 0 && is_white_space(s[0]) {
        trimmed_start(s.drop_first())
    } else {
        s
    }
}

/// `s` without its trailing white space.
pub open spec fn trimmed_end(s: Seq<char>) -> Seq<char>
    decreases s.len(),
{
    if s.len() > 0 && is_white_space(s.last()) {
        trimmed_end(s.drop_last())
    } else {
        s
    }
}

/// `s` without white space at either end.
pub open spec fn trimmed(s: Seq<char>) -> Seq<char> {
    trimmed_end(trimmed_start(s))
}

/// `s` without the occurrences of `c` that end it.
pub open spec fn without_trailing(s: Seq<char>, c: char) -> Seq<char>
    decreases s.len(),
{
    if s.len() > 0 && s.last() == c {
        without_trailing(s.drop_last(), c)
    } else {
        s
    }
}

/// The part of `s` before its first `c`; all of `s` where it has none.
pub open spec fn before_first(s: Seq<char>, c: char) -> Seq<char>
    decreases s.len(),
{
    if s.len() == 0 || s[0] == c {
        Seq::empty()
    } else {
        seq![s[0]] + before_first(s.drop_first(), c)
    }
}

/// `part` stands in `s` at `at`.
pub open spec fn occurs_at(s: Seq<char>, part: Seq<char>, at: int) -> bool {
    &&& 0 <= at
    &&& at + part.len() <= s.len()
    &&& s.subrange(at, at + part.len()) == part
}

/// `part` stands somewhere in `s`.
pub open spec fn has_part(s: Seq<char>, part: Seq<char>) -> bool {
    exists|at: int| occurs_at(s, part, at)
}

/// `s` with `f` applied to each character, the results joined.
pub open spec fn substitute(s: Seq<char>, f: spec_fn(char) -> Seq<char>) -> Seq<char>
    decreases s.len(),
{
    if s.len() == 0 {
        Seq::empty()
    } else {
        substitute(s.drop_last(), f) + f(s.last())
    }
}

/// The texts of the items, one behind the other.
pub open spec fn joined<T>(items: Seq<T>, f: spec_fn(T) -> Seq<char>) -> Seq<char>
    decreases items.len(),
{
    if items.len() == 0 {
        Seq::empty()
    } else {
        joined(items.drop_last(), f) + f(items.last())
    }
}

/// Turns `from` into `to` and keeps every other character.
pub open spec fn replacing(from: char, to: Seq<char>) -> spec_fn(char) -> Seq<char> {
    |c: char|
        if c == from {
            to
        } else {
            seq![c]
        }
}

/// `s` with every `from` replaced by `to`.
pub open spec fn replaced(s: Seq<char>, from: char, to: Seq<char>) -> Seq<char> {
    substitute(s, replacing(from, to))
}

/// `s` with each carriage return that stands right before a line feed dropped.
pub open spec fn crlf_joined(s: Seq<char>) -> Seq<char>
    decreases s.len(),
{
    if s.len() == 0 {
        s
    } else if s.len() > 1 && s[0] == '\r' && s[1] == '\n' {
        crlf_joined(s.drop_first())
    } else {
        seq![s[0]] + crlf_joined(s.drop_first())
    }
}

/// The decimal digit of a number below ten.
pub open spec fn digit(n: nat) -> char {
    (n + ('0' as nat)) as char
}

/// The decimal numeral of a natural number, without leading zeros.
pub open spec fn decimal(n: nat) -> Seq<char>
    decreases n,
{
    if n < 10 {
        seq![digit(n)]
    } else {
        decimal(n / 10).push(digit(n % 10))
    }
}

/// The decimal numeral of an integer, with a minus sign where it is negative.
pub open spec fn signed_decimal(n: int) -> Seq<char> {
    if n < 0 {
        seq!['-'] + decimal((-n) as nat)
    } else {
        decimal(n as nat)
    }
}

/// The views of an optional string.
pub open spec fn optional(text: Option<String>) -> Option<Seq<char>> {
    match text {
        Some(text) => Some(text@),
        None => None,
    }
}

/// The views of an optional string slice.
pub open spec fn optional_str(text: Option<&str>) -> Option<Seq<char>> {
    match text {
        Some(text) => Some(text@),
        None => None,
    }
}

pub proof fn lemma_substitute_step(s: Seq<char>, f: spec_fn(char) -> Seq<char>, i: int)
    requires
        0 <= i < s.len(),
    ensures
        substitute(s.take(i + 1), f) == substitute(s.take(i), f) + f(s[i]),
{
    assert(s.take(i + 1).drop_last() =~= s.take(i));
}

pub proof fn lemma_joined_step<T>(items: Seq<T>, f: spec_fn(T) -> Seq<char>, i: int)
    requires
        0 <= i < items.len(),
    ensures
        joined(items.take(i + 1), f) == joined(items.take(i), f) + f(items[i]),
{
    assert(items.take(i + 1).drop_last() =~= items.take(i));
}

/// Substitution works on the parts of a text one by one.
pub proof fn lemma_substitute_add(a: Seq<char>, b: Seq<char>, f: spec_fn(char) -> Seq<char>)
    ensures
        substitute(a + b, f) == substitute(a, f) + substitute(b, f),
    decreases b.len(),
{
    if b.len() == 0 {
        assert(a + b =~= a);
        assert(substitute(a, f) + substitute(b, f) =~= substitute(a, f));
    } else {
        assert((a + b).drop_last() =~= a + b.drop_last());
        lemma_substitute_add(a, b.drop_last(), f);
        assert(substitute(a, f) + substitute(b.drop_last(), f) + f(b.last()) =~= substitute(a, f)
            + (substitute(b.drop_last(), f) + f(b.last())));
    }
}

pub proof fn lemma_substitute_first(s: Seq<char>, f: spec_fn(char) -> Seq<char>)
    requires
        s.len() > 0,
    ensures
        substitute(s, f) == f(s[0]) + substitute(s.drop_first(), f),
{
    let first = seq![s[0]];
    lemma_substitute_add(first, s.drop_first(), f);
    assert(first + s.drop_first() =~= s);
    assert(first.drop_last() =~= Seq::<char>::empty());
    assert(substitute(first, f) =~= f(s[0])) by {
        assert(substitute(first.drop_last(), f) =~= Seq::<char>::empty());
    }
}

pub proof fn lemma_contains_add(a: Seq<char>, b: Seq<char>, c: char)
    ensures
        (a + b).contains(c) == (a.contains(c) || b.contains(c)),
{
    if a.contains(c) {
        let i = choose|i: int| 0 <= i < a.len() && a[i] == c;
        assert((a + b)[i] == c);
    }
    if b.contains(c) {
        let i = choose|i: int| 0 <= i < b.len() && b[i] == c;
        assert((a + b)[a.len() + i] == c);
    }
    if (a + b).contains(c) {
        let i = choose|i: int| 0 <= i < (a + b).len() && (a + b)[i] == c;
        if i < a.len() {
            assert(a[i] == c);
        } else {
            assert(b[i - a.len()] == c);
        }
    }
}

/// Joining works on the parts of a list one by one.
pub proof fn lemma_joined_add<T>(a: Seq<T>, b: Seq<T>, f: spec_fn(T) -> Seq<char>)
    ensures
        joined(a + b, f) == joined(a, f) + joined(b, f),
    decreases b.len(),
{
    if b.len() == 0 {
        assert(a + b =~= a);
        assert(joined(a, f) + joined(b, f) =~= joined(a, f));
    } else {
        assert((a + b).drop_last() =~= a + b.drop_last());
        lemma_joined_add(a, b.drop_last(), f);
        assert(joined(a, f) + joined(b.drop_last(), f) + f(b.last()) =~= joined(a, f) + (joined(
            b.drop_last(),
            f,
        ) + f(b.last())));
    }
}

/// A part of the middle is a part of the whole.
pub proof fn lemma_part_of_middle(
    before: Seq<char>,
    middle: Seq<char>,
    after: Seq<char>,
    part: Seq<char>,
)
    requires
        has_part(middle, part),
    ensures
        has_part(before + middle + after, part),
{
    let at = choose|at: int| occurs_at(middle, part, at);
    let whole = before + middle + after;
    assert(whole.subrange(before.len() + at, before.len() + at + part.len()) =~= middle.subrange(
        at,
        at + part.len(),
    ));
    assert(occurs_at(whole, part, before.len() + at));
}

/// Each text of a joined list is a part of it.
pub proof fn lemma_joined_has_part<T>(
    items: Seq<T>,
    f: spec_fn(T) -> Seq<char>,
    i: int,
    part: Seq<char>,
)
    requires
        0 <= i < items.len(),
        has_part(f(items[i]), part),
    ensures
        has_part(joined(items, f), part),
    decreases items.len(),
{
    let init = joined(items.drop_last(), f);
    let tail = f(items.last());
    if i == items.len() - 1 {
        lemma_part_of_middle(init, tail, Seq::empty(), part);
        assert(init + tail + Seq::<char>::empty() =~= joined(items, f));
    } else {
        lemma_joined_has_part(items.drop_last(), f, i, part);
        lemma_part_of_middle(Seq::empty(), init, tail, part);
        assert(Seq::<char>::empty() + init + tail =~= joined(items, f));
    }
}

/// What stands behind the same beginning is the same.
pub proof fn lemma_same_prefix(base: Seq<char>, a: Seq<char>, b: Seq<char>)
    requires
        base + a == base + b,
    ensures
        a == b,
{
    assert((base + a).skip(base.len() as int) =~= a);
    assert((base + b).skip(base.len() as int) =~= b);
}

proof fn lemma_trimmed_start_ends(s: Seq<char>)
    ensures
        trimmed_start(s).len() > 0 ==> !is_white_space(trimmed_start(s)[0]),
    decreases s.len(),
{
    if s.len() > 0 && is_white_space(s[0]) {
        lemma_trimmed_start_ends(s.drop_first());
    }
}

proof fn lemma_trimmed_end_ends(s: Seq<char>)
    ensures
        trimmed_end(s).len() > 0 ==> !is_white_space(trimmed_end(s).last()) && trimmed_end(s)[0]
            == s[0],
    decreases s.len(),
{
    if s.len() > 0 && is_white_space(s.last()) {
        lemma_trimmed_end_ends(s.drop_last());
    }
}

/// A trimmed text has no white space at its ends, and trimming it again
/// changes nothing.
pub proof fn lemma_trimmed_ends(s: Seq<char>)
    ensures
        trimmed(s).len() > 0 ==> !is_white_space(trimmed(s)[0]) && !is_white_space(
            trimmed(s).last(),
        ),
        trimmed(trimmed(s)) == trimmed(s),
{
    lemma_trimmed_start_ends(s);
    lemma_trimmed_end_ends(trimmed_start(s));
    assert(trimmed_start(trimmed(s)) == trimmed(s));
    assert(trimmed_end(trimmed(s)) == trimmed(s));
}

proof fn lemma_decimal_digits(n: nat)
    ensures
        decimal(n).len() > 0,
        decimal(n)[0] != '-',
    decreases n,
{
    if n >= 10 {
        lemma_decimal_digits(n / 10);
    }
}

proof fn lemma_decimal_injective(a: nat, b: nat)
    requires
        decimal(a) == decimal(b),
    ensures
        a == b,
    decreases a,
{
    assert(decimal(a).last() == digit(a % 10));
    assert(decimal(b).last() == digit(b % 10));
    if a < 10 && b < 10 {
    } else if a < 10 {
        lemma_decimal_digits(b / 10);
        assert(decimal(a).len() == 1);
        assert(decimal(b).len() > 1);
    } else if b < 10 {
        lemma_decimal_digits(a / 10);
        assert(decimal(b).len() == 1);
        assert(decimal(a).len() > 1);
    } else {
        assert(decimal(a).drop_last() =~= decimal(a / 10));
        assert(decimal(b).drop_last() =~= decimal(b / 10));
        lemma_decimal_injective(a / 10, b / 10);
    }
}

/// Different integers have different numerals.
pub proof fn lemma_signed_decimal_injective(a: int, b: int)
    requires
        signed_decimal(a) == signed_decimal(b),
    ensures
        a == b,
{
    lemma_decimal_digits(a as nat);
    lemma_decimal_digits(b as nat);
    if a < 0 && b < 0 {
        lemma_same_prefix(seq!['-'], decimal((-a) as nat), decimal((-b) as nat));
        lemma_decimal_injective((-a) as nat, (-b) as nat);
    } else if a >= 0 && b >= 0 {
        lemma_decimal_injective(a as nat, b as nat);
    } else {
        assert(signed_decimal(a)[0] == signed_decimal(b)[0]);
    }
}

/// The characters of `text`.
pub fn characters(text: &str) -> (r: Vec<char>)
    ensures
        r@ == text@,
{
    let mut out: Vec<char> = Vec::new();
    for c in it: text.chars()
        invariant
            it.seq() == text@,
            out@ == it.seq().take(it.index()),
    {
        out.push(c);
        assert(out@ =~= it.seq().take(it.index() + 1));
    }
    assert(out@ =~= text@);
    out
}

/// The text made of the characters from `from` up to `to`.
pub fn string_of(chars: &Vec<char>, from: usize, to: usize) -> (r: String)
    requires
        from <= to <= chars@.len(),
    ensures
        r@ == chars@.subrange(from as int, to as int),
{
    let mut out: String = String::new();
    let mut i: usize = from;
    assert(out@ =~= chars@.subrange(from as int, i as int));
    while i < to
        invariant
            from <= i <= to <= chars@.len(),
            out@ == chars@.subrange(from as int, i as int),
        decreases to - i,
    {
        out.push(chars[i]);
        assert(chars@.subrange(from as int, i + 1) =~= chars@.subrange(from as int, i as int).push(
            chars@[i as int],
        ));
        i += 1;
    }
    out
}

/// Whether two texts are the same.
pub fn same_text(a: &str, b: &str) -> (r: bool)
    ensures
        r == (a@ == b@),
{
    let left: String = a.to_owned();
    let right: String = b.to_owned();
    left == right
}

/// Whether `c` is white space.
pub fn white_space(c: char) -> (r: bool)
    ensures
        r == is_white_space(c),
{
    ('\u{9}' <= c && c <= '\u{d}') || c == '\u{20}' || c == '\u{85}' || c == '\u{a0}' || c
        == '\u{1680}' || ('\u{2000}' <= c && c <= '\u{200a}') || c == '\u{2028}' || c == '\u{2029}'
        || c == '\u{202f}' || c == '\u{205f}' || c == '\u{3000}'
}

/// `text` without white space at either end.
pub fn trim(text: &str) -> (r: String)
    ensures
        r@ == trimmed(text@),
{
    let chars: Vec<char> = characters(text);
    let mut from: usize = 0;
    assert(chars@.subrange(0, chars@.len() as int) =~= chars@);
    while from < chars.len() && white_space(chars[from])
        invariant
            from <= chars@.len(),
            trimmed_start(chars@.subrange(from as int, chars@.len() as int)) == trimmed_start(chars@),
        decreases chars@.len() - from,
    {
        assert(chars@.subrange(from as int, chars@.len() as int).drop_first() =~= chars@.subrange(
            from + 1,
            chars@.len() as int,
        ));
        from += 1;
    }
    let mut to: usize = chars.len();
    while from < to && white_space(chars[to - 1])
        invariant
            from <= to <= chars@.len(),
            trimmed_end(chars@.subrange(from as int, to as int)) == trimmed(chars@),
        decreases to,
    {
        assert(chars@.subrange(from as int, to as int).drop_last() =~= chars@.subrange(
            from as int,
            to - 1,
        ));
        to -= 1;
    }
    string_of(&chars, from, to)
}

/// `text` without the occurrences of `c` that end it.
pub fn trim_end_char(text: &str, c: char) -> (r: String)
    ensures
        r@ == without_trailing(text@, c),
{
    let chars: Vec<char> = characters(text);
    let mut to: usize = chars.len();
    assert(chars@.subrange(0, to as int) =~= chars@);
    while 0 < to && chars[to - 1] == c
        invariant
            to <= chars@.len(),
            without_trailing(chars@.subrange(0, to as int), c) == without_trailing(chars@, c),
        decreases to,
    {
        assert(chars@.subrange(0, to as int).drop_last() =~= chars@.subrange(0, to - 1));
        to -= 1;
    }
    string_of(&chars, 0, to)
}

/// The part of `text` before its first `c`.
pub fn text_before(text: &str, c: char) -> (r: String)
    ensures
        r@ == before_first(text@, c),
{
    let chars: Vec<char> = characters(text);
    let mut out: String = String::new();
    let mut i: usize = 0;
    assert(chars@.skip(0) =~= chars@);
    assert(out@ + before_first(chars@, c) =~= before_first(chars@, c));
    while i < chars.len() && chars[i] != c
        invariant
            i <= chars@.len(),
            out@ + before_first(chars@.skip(i as int), c) == before_first(chars@, c),
        decreases chars@.len() - i,
    {
        let ghost rest = before_first(chars@.skip(i + 1), c);
        assert(chars@.skip(i as int).drop_first() =~= chars@.skip(i + 1));
        assert(out@ + (seq![chars@[i as int]] + rest) =~= out@.push(chars@[i as int]) + rest);
        out.push(chars[i]);
        i += 1;
    }
    assert(before_first(chars@.skip(i as int), c) =~= Seq::<char>::empty());
    assert(out@ + Seq::<char>::empty() =~= out@);
    out
}

/// Whether `part` stands in `text`.
pub fn contains_text(text: &str, part: &str) -> (r: bool)
    ensures
        r == has_part(text@, part@),
{
    let chars: Vec<char> = characters(text);
    let wanted: Vec<char> = characters(part);
    if wanted.len() > chars.len() {
        return false;
    }
    let mut at: usize = 0;
    while at <= chars.len() - wanted.len()
        invariant
            chars@ == text@,
            wanted@ == part@,
            wanted@.len() <= chars@.len(),
            at <= chars@.len() - wanted@.len() + 1,
            forall|k: int| 0 <= k < at ==> !#[trigger] occurs_at(text@, part@, k),
        decreases chars@.len() + 1 - at,
    {
        let mut matched: usize = 0;
        while matched < wanted.len() && chars[at + matched] == wanted[matched]
            invariant
                at + wanted@.len() <= chars.len(),
                matched <= wanted@.len(),
                chars@.subrange(at as int, at + matched) == wanted@.take(matched as int),
            decreases wanted@.len() - matched,
        {
            assert(chars@.subrange(at as int, at + matched + 1) =~= wanted@.take(matched + 1)) by {
                assert(forall|k: int|
                    0 <= k < matched ==> chars@.subrange(at as int, at + matched)[k] == wanted@.take(
                        matched as int,
                    )[k]);
                assert forall|k: int| 0 <= k < matched + 1 implies chars@[at + k] == wanted@[k] by {
                    if k < matched {
                        assert(chars@.subrange(at as int, at + matched)[k] == chars@[at + k]);
                        assert(wanted@.take(matched as int)[k] == wanted@[k]);
                    }
                }
            }
            matched += 1;
        }
        if matched == wanted.len() {
            assert(wanted@.take(matched as int) =~= wanted@);
            assert(occurs_at(text@, part@, at as int));
            return true;
        }
        assert(!occurs_at(text@, part@, at as int)) by {
            if occurs_at(text@, part@, at as int) {
                assert(chars@.subrange(at as int, at + wanted@.len())[matched as int]
                    == wanted@[matched as int]);
            }
        }
        at += 1;
    }
    false
}

/// `text` with every `from` replaced by `to`.
pub fn replace_char(text: &str, from: char, to: &str) -> (r: String)
    ensures
        r@ == replaced(text@, from, to@),
{
    let chars: Vec<char> = characters(text);
    let mut out: String = String::new();
    let ghost f = replacing(from, to@);
    let mut i: usize = 0;
    assert(substitute(chars@.take(0), f) =~= Seq::<char>::empty());
    while i < chars.len()
        invariant
            i <= chars@.len(),
            f == replacing(from, to@),
            out@ == substitute(chars@.take(i as int), f),
        decreases chars@.len() - i,
    {
        proof {
            lemma_substitute_step(chars@, f, i as int);
        }
        let ghost before = out@;
        if chars[i] == from {
            out.append(to);
        } else {
            out.push(chars[i]);
            assert(before.push(chars@[i as int]) =~= before + seq![chars@[i as int]]);
        }
        i += 1;
    }
    assert(chars@.take(chars@.len() as int) =~= chars@);
    out
}

/// `text` with each carriage return and line feed pair made a single line feed.
pub fn join_crlf(text: &str) -> (r: String)
    ensures
        r@ == crlf_joined(text@),
{
    let chars: Vec<char> = characters(text);
    let mut out: String = String::new();
    let mut i: usize = 0;
    assert(chars@.skip(0) =~= chars@);
    assert(out@ + crlf_joined(chars@) =~= crlf_joined(chars@));
    while i < chars.len()
        invariant
            i <= chars@.len(),
            out@ + crlf_joined(chars@.skip(i as int)) == crlf_joined(chars@),
        decreases chars@.len() - i,
    {
        let ghost rest = crlf_joined(chars@.skip(i + 1));
        assert(chars@.skip(i as int).drop_first() =~= chars@.skip(i + 1));
        let paired: bool = chars.len() - i > 1 && chars[i] == '\r' && chars[i + 1] == '\n';
        if !paired {
            assert(out@ + (seq![chars@[i as int]] + rest) =~= out@.push(chars@[i as int]) + rest);
            out.push(chars[i]);
        }
        i += 1;
    }
    assert(chars@.skip(i as int) =~= Seq::<char>::empty());
    assert(out@ + Seq::<char>::empty() =~= out@);
    out
}

/// The decimal numeral of `n`.
pub fn decimal_text(n: u64) -> (r: String)
    ensures
        r@ == decimal(n as nat),
    decreases n,
{
    let last: u64 = n % 10;
    let c: char = (48u8 + last as u8) as char;
    assert(c == digit(n as nat % 10));
    if n < 10 {
        let mut out: String = String::new();
        out.push(c);
        assert(out@ =~= decimal(n as nat));
        out
    } else {
        let mut out: String = decimal_text(n / 10);
        out.push(c);
        out
    }
}

/// The decimal numeral of `n`, with a minus sign where it is negative.
pub fn signed_decimal_text(n: i64) -> (r: String)
    ensures
        r@ == signed_decimal(n as int),
{
    if n < 0 {
        let magnitude: u64 = (-(n as i128)) as u64;
        let mut out: String = String::new();
        out.push('-');
        out.append(decimal_text(magnitude).as_str());
        assert(out@ =~= signed_decimal(n as int));
        out
    } else {
        decimal_text(n as u64)
    }
}

/// `s` is white space throughout.
pub open spec fn is_blank(s: Seq<char>) -> bool {
    forall|i: int| 0 <= i < s.len() ==> is_white_space(#[trigger] s[i])
}

proof fn lemma_trimmed_start_skips(lead: Seq<char>, rest: Seq<char>)
    requires
        is_blank(lead),
    ensures
        trimmed_start(lead + rest) == trimmed_start(rest),
    decreases lead.len(),
{
    if lead.len() == 0 {
        assert(lead + rest =~= rest);
    } else {
        assert((lead + rest)[0] == lead[0]);
        assert((lead + rest).drop_first() =~= lead.drop_first() + rest);
        lemma_trimmed_start_skips(lead.drop_first(), rest);
    }
}

proof fn lemma_trimmed_end_skips(rest: Seq<char>, trail: Seq<char>)
    requires
        is_blank(trail),
    ensures
        trimmed_end(rest + trail) == trimmed_end(rest),
    decreases trail.len(),
{
    if trail.len() == 0 {
        assert(rest + trail =~= rest);
    } else {
        assert((rest + trail).last() == trail[trail.len() - 1]);
        assert((rest + trail).drop_last() =~= rest + trail.drop_last());
        lemma_trimmed_end_skips(rest, trail.drop_last());
    }
}

/// Trimming drops the white space around a text and nothing else.
pub proof fn law_trimming_drops_surrounding_space(
    lead: Seq<char>,
    kept: Seq<char>,
    trail: Seq<char>,
)
    requires
        is_blank(lead),
        is_blank(trail),
        kept.len() > 0 ==> !is_white_space(kept[0]) && !is_white_space(kept.last()),
    ensures
        trimmed(lead + kept + trail) == kept,
{
    assert(lead + kept + trail =~= lead + (kept + trail));
    lemma_trimmed_start_skips(lead, kept + trail);
    if kept.len() == 0 {
        assert(kept + trail =~= trail + Seq::<char>::empty());
        lemma_trimmed_start_skips(trail, Seq::empty());
        assert(trimmed(lead + kept + trail) =~= kept);
    } else {
        assert((kept + trail)[0] == kept[0]);
        lemma_trimmed_end_skips(kept, trail);
    }
}

/// The part before the first `c` is all that stands before it; a text
/// without a `c` is that part itself.
pub proof fn law_text_before_ends_at_the_first(a: Seq<char>, c: char, b: Seq<char>)
    requires
        !a.contains(c),
    ensures
        before_first(a, c) == a,
        before_first(a + seq![c] + b, c) == a,
    decreases a.len(),
{
    let whole = a + seq![c] + b;
    if a.len() == 0 {
        assert(whole[0] == c);
        assert(before_first(whole, c) =~= a);
        assert(before_first(a, c) =~= a);
    } else {
        let rest = a.drop_first();
        assert(a[0] != c);
        assert(!rest.contains(c)) by {
            if rest.contains(c) {
                let i = choose|i: int| 0 <= i < rest.len() && rest[i] == c;
                assert(a[i + 1] == c);
            }
        }
        law_text_before_ends_at_the_first(rest, c, b);
        assert(whole[0] == a[0]);
        assert(whole.drop_first() =~= rest + seq![c] + b);
        assert(seq![a[0]] + rest =~= a);
    }
}

/// Of the `c` that end a text all are dropped, and nothing else.
pub proof fn law_trailing_characters_are_dropped(base: Seq<char>, c: char, n: nat)
    requires
        base.len() > 0 ==> base.last() != c,
    ensures
        without_trailing(base + Seq::new(n, |i: int| c), c) == base,
    decreases n,
{
    let whole = base + Seq::new(n, |i: int| c);
    if n == 0 {
        assert(whole =~= base);
    } else {
        let less = (n - 1) as nat;
        assert(whole.last() == c);
        assert(whole.drop_last() =~= base + Seq::new(less, |i: int| c));
        law_trailing_characters_are_dropped(base, c, less);
    }
}

/// A text has a part exactly where it is made of something, the part and
/// something more.
pub proof fn law_parts_stand_between(s: Seq<char>, part: Seq<char>, a: Seq<char>, b: Seq<char>)
    ensures
        s == a + part + b ==> has_part(s, part),
        has_part(s, part) ==> exists|before: Seq<char>, after: Seq<char>|
            s == #[trigger] (before + part + after),
{
    if s == a + part + b {
        assert(s.subrange(a.len() as int, (a.len() + part.len()) as int) =~= part);
        assert(occurs_at(s, part, a.len() as int));
    }
    if has_part(s, part) {
        let at = choose|at: int| occurs_at(s, part, at);
        let before = s.take(at);
        let after = s.skip(at + part.len());
        assert(s =~= before + part + after) by {
            assert(part == s.subrange(at, at + part.len()));
        }
    }
}

/// Replacing works character by character.
pub proof fn law_each_character_is_replaced(
    a: Seq<char>,
    c: char,
    b: Seq<char>,
    from: char,
    to: Seq<char>,
)
    ensures
        replaced(Seq::empty(), from, to) == Seq::<char>::empty(),
        c == from ==> replaced(a + seq![c] + b, from, to) == replaced(a, from, to) + to + replaced(
            b,
            from,
            to,
        ),
        c != from ==> replaced(a + seq![c] + b, from, to) == replaced(a, from, to) + seq![c]
            + replaced(b, from, to),
{
    let f = replacing(from, to);
    let one = seq![c];
    lemma_substitute_add(a + one, b, f);
    lemma_substitute_add(a, one, f);
    lemma_substitute_first(one, f);
    assert(one.drop_first() =~= Seq::<char>::empty());
    assert(f(c) + Seq::<char>::empty() =~= f(c));
}

/// Each item of a list gives its text, in the order of the list.
pub proof fn law_each_item_is_joined<T>(a: Seq<T>, item: T, b: Seq<T>, f: spec_fn(T) -> Seq<char>)
    ensures
        joined(Seq::<T>::empty(), f) == Seq::<char>::empty(),
        joined(a + seq![item] + b, f) == joined(a, f) + f(item) + joined(b, f),
{
    let one = seq![item];
    lemma_joined_add(a + one, b, f);
    lemma_joined_add(a, one, f);
    assert(one.drop_last() =~= Seq::<T>::empty());
    assert(joined(one.drop_last(), f) =~= Seq::<char>::empty());
    assert(joined(one, f) =~= f(item));
}

/// What a row of decimal digits stands for.
pub open spec fn numeral_value(s: Seq<char>) -> int
    decreases s.len(),
{
    if s.len() == 0 {
        0
    } else {
        numeral_value(s.drop_last()) * 10 + (s.last() as int - 48)
    }
}

/// The numeral of a number stands for it: it is made of digits, without
/// zeros in front, and a negative number has the minus sign before the
/// numeral of its magnitude.
pub proof fn law_numerals_stand_for_their_numbers(n: nat)
    ensures
        numeral_value(decimal(n)) == n,
        decimal(n).len() > 0,
        forall|i: int| 0 <= i < decimal(n).len() ==> '0' <= #[trigger] decimal(n)[i] <= '9',
        decimal(n).len() > 1 ==> decimal(n)[0] != '0',
        signed_decimal(n as int) == decimal(n),
        n > 0 ==> signed_decimal(-n) == seq!['-'] + decimal(n),
    decreases n,
{
    let last = digit(n % 10);
    assert('0' <= last <= '9' && last as int - 48 == n % 10);
    if n >= 10 {
        law_numerals_stand_for_their_numbers(n / 10);
        assert(decimal(n).drop_last() =~= decimal(n / 10));
        assert(decimal(n)[0] == decimal(n / 10)[0]);
        if n / 10 < 10 {
            assert(decimal(n / 10)[0] == digit(n / 10));
        } else {
            lemma_decimal_digits(n / 10 / 10);
            assert(decimal(n / 10).len() > 1);
        }
    } else {
        assert(decimal(n).drop_last() =~= Seq::<char>::empty());
        assert(numeral_value(decimal(n).drop_last()) == 0);
    }
}

/// What is there is viewed as it is, also where it is empty.
pub proof fn law_optional_texts_are_viewed_as_they_are(text: String, slice: &str)
    ensures
        optional(Some(text)) == Some(text@),
        optional(None) is None,
        optional_str(Some(slice)) == Some(slice@),
        optional_str(None) is None,
{
}

} // verus!
