//! The account of the blog's author.
use vstd::prelude::*;

use crate::escape::{
    attribute_entity, escaped_attribute, escaped_text, law_plain_text_escapes_to_itself,
};
use crate::text::{characters, optional, trimmed, trimmed_end, trimmed_start};

verus! {

/// The longest username, in characters.
pub const MAX_USERNAME: usize = 50;

/// A local account. `Text` is a `String` in programs and a sequence of
/// characters in specifications.
#[derive(Debug)]
pub struct Account<Text = String> {
    pub username: Text,
    pub name: Option<Text>,
    pub handle: Text,
}

impl View for Account {
    type V = Account<Seq<char>>;

    open spec fn view(&self) -> Account<Seq<char>> {
        Account { username: self.username@, name: optional(self.name), handle: self.handle@ }
    }
}

impl Account {
    /// Another account with the same contents.
    pub fn duplicate(&self) -> (r: Account)
        ensures
            r@ == self@,
    {
        Account {
            username: self.username.clone(),
            name: match &self.name {
                Some(name) => Some(name.clone()),
                None => None,
            },
            handle: self.handle.clone(),
        }
    }
}

/// The characters of a username: lower-case ASCII letters, digits, `_`, `-`.
pub open spec fn is_username_char(c: char) -> bool {
    'a' <= c <= 'z' || '0' <= c <= '9' || c == '_' || c == '-'
}

/// A username: one to fifty characters, each of them allowed in a username.
pub open spec fn valid_username(s: Seq<char>) -> bool {
    &&& 1 <= s.len() <= MAX_USERNAME
    &&& forall|i: int| 0 <= i < s.len() ==> is_username_char(#[trigger] s[i])
}

/// The name to show for an account: its name, or its username where it has
/// none or an empty one.
pub open spec fn shown_name(account: Account<Seq<char>>) -> Seq<char> {
    match account.name {
        Some(name) => if name.len() > 0 {
            name
        } else {
            account.username
        },
        None => account.username,
    }
}

/// Whether `username` can be the username of an account.
pub fn is_valid_username(username: &str) -> (r: bool)
    ensures
        r == valid_username(username@),
{
    let chars: Vec<char> = characters(username);
    if chars.len() == 0 || chars.len() > MAX_USERNAME {
        return false;
    }
    let mut i: usize = 0;
    while i < chars.len()
        invariant
            chars@ == username@,
            i <= chars@.len(),
            forall|k: int| 0 <= k < i ==> is_username_char(#[trigger] chars@[k]),
        decreases chars@.len() - i,
    {
        let c: char = chars[i];
        if !(('a' <= c && c <= 'z') || ('0' <= c && c <= '9') || c == '_' || c == '-') {
            assert(!is_username_char(username@[i as int]));
            return false;
        }
        i += 1;
    }
    true
}

/// The name to show for an account.
pub fn display_name(account: &Account) -> (r: String)
    ensures
        r@ == shown_name(account@),
{
    match &account.name {
        Some(name) => if !name.as_str().is_empty() {
            name.clone()
        } else {
            account.username.clone()
        },
        None => account.username.clone(),
    }
}

/// An account with a username always has a name to show.
pub proof fn law_shown_name_is_not_empty(account: Account<Seq<char>>)
    requires
        account.username.len() > 0,
    ensures
        shown_name(account).len() > 0,
{
}

/// A username stands in pages, links and identifiers as it is: there is no
/// white space to trim from it and nothing in it to escape.
pub proof fn law_username_is_plain(username: Seq<char>)
    requires
        valid_username(username),
    ensures
        trimmed(username) == username,
        escaped_text(username) == username,
        escaped_attribute(username) == username,
{
    assert(is_username_char(username[0]));
    assert(is_username_char(username[username.len() - 1]));
    assert(trimmed_start(username) == username);
    assert(trimmed_end(username) == username);
    assert forall|i: int| 0 <= i < username.len() implies #[trigger] username[i] != '&'
        && username[i] != '<' && username[i] != '>' by {
        assert(is_username_char(username[i]));
    }
    law_plain_text_escapes_to_itself(username);
    lemma_plain_attribute(username);
}

proof fn lemma_plain_attribute(s: Seq<char>)
    requires
        forall|i: int| 0 <= i < s.len() ==> is_username_char(#[trigger] s[i]),
    ensures
        escaped_attribute(s) == s,
    decreases s.len(),
{
    if s.len() > 0 {
        assert(is_username_char(s[s.len() - 1]));
        lemma_plain_attribute(s.drop_last());
        assert(attribute_entity(s.last()) =~= seq![s.last()]);
        assert(s.drop_last() + seq![s.last()] =~= s);
    }
}

/// A username is one to fifty lower-case ASCII letters, digits, underscores
/// and hyphens, and every such text is one.
pub proof fn law_usernames_are_plain_words(s: Seq<char>)
    ensures
        valid_username(s) <==> s.len() != 0 && s.len() <= 50 && forall|i: int|
            0 <= i < s.len() ==> "abcdefghijklmnopqrstuvwxyz0123456789_-"@.contains(
                #[trigger] s[i],
            ),
{
    reveal_strlit("abcdefghijklmnopqrstuvwxyz0123456789_-");
    let allowed = "abcdefghijklmnopqrstuvwxyz0123456789_-"@;
    assert forall|c: char| allowed.contains(c) <==> is_username_char(c) by {
        if is_username_char(c) {
            let at = if 'a' <= c <= 'z' {
                c as int - 97
            } else if '0' <= c <= '9' {
                c as int - 48 + 26
            } else if c == '_' {
                36
            } else {
                37
            };
            lemma_allowed_at(at);
            assert(allowed[at] as int == c as int);
            assert(allowed[at] == c);
        }
        if allowed.contains(c) {
            let at = choose|at: int| 0 <= at < allowed.len() && allowed[at] == c;
            lemma_allowed_at(at);
        }
    }
}

proof fn lemma_allowed_at(at: int)
    ensures
        "abcdefghijklmnopqrstuvwxyz0123456789_-"@.len() == 38,
        0 <= at < 26 ==> "abcdefghijklmnopqrstuvwxyz0123456789_-"@[at] as int == 97 + at,
        26 <= at < 36 ==> "abcdefghijklmnopqrstuvwxyz0123456789_-"@[at] as int == 48 + at - 26,
        at == 36 ==> "abcdefghijklmnopqrstuvwxyz0123456789_-"@[at] == '_',
        at == 37 ==> "abcdefghijklmnopqrstuvwxyz0123456789_-"@[at] == '-',
{
    reveal_strlit("abcdefghijklmnopqrstuvwxyz0123456789_-");
}

/// An account shows the name that it has, whatever that is, and only without
/// one its username.
pub proof fn law_account_shows_its_name(account: Account<Seq<char>>, name: Seq<char>)
    ensures
        account.name == Some(name) && name != Seq::<char>::empty() ==> shown_name(account) == name,
        account.name is None || account.name == Some(Seq::<char>::empty()) ==> shown_name(account)
            == account.username,
{
    if name.len() == 0 {
        assert(name =~= Seq::<char>::empty());
    }
}

} // verus!
