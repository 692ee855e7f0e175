//! The HTML of the blog's pages.
use vstd::prelude::*;

use crate::account::{display_name, shown_name, Account};
use crate::actor::ActorProfile;
use crate::content::{lemma_replaced_one_by_one, published_at};
use crate::escape::{
    escape, escape_attribute, escaped_attribute, escaped_text, law_escaped_attribute_stays_quoted,
    law_escaped_text_is_markup_free, markup_free,
};
use crate::text::{
    decimal, decimal_text, digit, has_part, joined, law_each_item_is_joined, lemma_contains_add, lemma_joined_add,
    lemma_joined_has_part, lemma_joined_step, lemma_part_of_middle, lemma_substitute_add,
    occurs_at, optional, replace_char, replaced, replacing, signed_decimal,
    signed_decimal_text, substitute,
};

verus! {

/// The form that creates the account.
pub const SETUP_FORM: &'static str = r#"
    <h1>Set up your microblog</h1>
    <form method="post" action="/setup">
        <fieldset>
            <label>
                Username
                <input
                    type="text"
                    name="username"
                    required
                    maxlength="50"
                    pattern="^[a-z0-9_-]+$"
                />
            </label>
            <label>
                Name
                <input type="text" name="name" required />
            </label>
        </fieldset>
        <input type="submit" value="Setup" />
    </form>
    "#;

/// The public home up to the name.
pub const HOME_OPEN: &'static str = r#"
        <hgroup>
            <h1>"#;

/// From the name to the profile link.
pub const HOME_PROFILE: &'static str = r#"'s timeline</h1>
            <p><a href="/users/"#;

/// From the profile link to the follow form's target.
pub const HOME_FOLLOW: &'static str = r#"">View profile</a></p>
        </hgroup>
        <form method="post" action="/users/"#;

/// From the follow form's target to the posts.
pub const HOME_TIMELINE: &'static str = r#"/following">
            <fieldset role="group">
                <input
                    type="url"
                    name="actor"
                    required
                    placeholder="https://example.com/users/alice"
                />
                <input type="submit" value="Follow" />
            </fieldset>
        </form>
        <h2>Timeline</h2>
        "#;

/// Behind the posts.
pub const HOME_CLOSE: &'static str = r#"
        "#;

/// The post composer up to the profile link.
pub const COMPOSER_OPEN: &'static str = r#"
        <hgroup>
            <h1>New post</h1>
            <p><a href="/users/"#;

/// From the profile link to the form's target.
pub const COMPOSER_FORM: &'static str = r#"">View profile</a></p>
        </hgroup>
        <form method="post" action="/users/"#;

/// Behind the form's target.
pub const COMPOSER_CLOSE: &'static str = r#"/posts">
            <fieldset>
                <label>
                    <textarea name="content" required placeholder="What's up?"></textarea>
                </label>
            </fieldset>
            <input type="submit" value="Post" />
        </form>
        "#;

/// A profile up to its own link.
pub const PROFILE_OPEN: &'static str = r#"
        <hgroup>
            <h1><a href="/users/"#;

/// From the profile's own link to the name.
pub const PROFILE_NAME: &'static str = r#"">"#;

/// From the name to the handle.
pub const PROFILE_HANDLE: &'static str = r#"</a></h1>
            <p><span style="user-select: all;">"#;

/// From the handle to the link to the followed actors.
pub const PROFILE_FOLLOWING: &'static str = r#"</span> &middot; <a href="/users/"#;

/// From that link to the number of followed actors.
pub const PROFILE_FOLLOWING_COUNT: &'static str = r#"/following">"#;

/// From that number to the link to the followers.
pub const PROFILE_FOLLOWERS: &'static str = r#" following</a> &middot; <a href="/users/"#;

/// From that link to the number of followers.
pub const PROFILE_FOLLOWERS_COUNT: &'static str = r#"/followers">"#;

/// Behind the number of followers.
pub const PROFILE_CLOSE: &'static str = r#"</a></p>
        </hgroup>
        "#;

/// The entry of a named actor up to its link.
pub const NAMED_OPEN: &'static str = r#"<li><a href=""#;

/// From the link to the name.
pub const NAMED_NAME: &'static str = r#"">"#;

/// From the name to the second link.
pub const NAMED_LINK: &'static str = r#"</a> <small>(<a href=""#;

/// From the second link to the handle.
pub const NAMED_HANDLE: &'static str = r#"" class="secondary">"#;

/// Behind the handle.
pub const NAMED_CLOSE: &'static str = r#"</a>)</small></li>"#;

/// The entry of an actor without a name up to its link.
pub const UNNAMED_OPEN: &'static str = r#"<li><a href=""#;

/// From the link to the handle.
pub const UNNAMED_HANDLE: &'static str = r#"" class="secondary">"#;

/// Behind the handle.
pub const UNNAMED_CLOSE: &'static str = r#"</a></li>"#;

/// A post up to the link to its author.
pub const ARTICLE_OPEN: &'static str = r#"
        <article>
            <header>
                <a href=""#;

/// From that link to the author's name.
pub const ARTICLE_AUTHOR: &'static str = r#"">"#;

/// From the author's name to the handle.
pub const ARTICLE_HANDLE: &'static str = r#"</a>
                <small>(<span class="secondary">"#;

/// From the handle to the content.
pub const ARTICLE_CONTENT: &'static str = r#"</span>)</small>
            </header>
            <div>"#;

/// From the content to the post's link.
pub const ARTICLE_LINK: &'static str = r#"</div>
            <footer><a href=""#;

/// From the post's link to its time.
pub const ARTICLE_DATETIME: &'static str = r#""><time datetime=""#;

/// From its time to the time as it is shown.
pub const ARTICLE_CREATED: &'static str = r#"">"#;

/// Behind the time as it is shown.
pub const ARTICLE_CLOSE: &'static str = r#"</time></a></footer>
        </article>
        "#;

/// A page up to its body.
pub const PAGE_OPEN: &'static str = r#"<!doctype html>
<html lang="en">
<head>
    <meta charset="utf-8" />
    <meta name="viewport" content="width=device-width, initial-scale=1" />
    <meta name="color-scheme" content="light dark" />
    <title>Microblog</title>
    <link rel="stylesheet" href="https://cdn.jsdelivr.net/npm/@picocss/pico@2/css/pico.min.css" />
</head>
<body>
    <main class="container">"#;

/// A page behind its body.
pub const PAGE_CLOSE: &'static str = r#"</main>
</body>
</html>"#;

/// A post as the store holds it; its content is HTML. `Text` is a `String` in
/// programs and a sequence of characters in specifications.
#[derive(Debug)]
pub struct PostRecord<Text = String> {
    pub uri: Text,
    pub content: Text,
    pub url: Option<Text>,
    pub created: Text,
}

impl View for PostRecord {
    type V = PostRecord<Seq<char>>;

    open spec fn view(&self) -> PostRecord<Seq<char>> {
        PostRecord {
            uri: self.uri@,
            content: self.content@,
            url: optional(self.url),
            created: self.created@,
        }
    }
}

/// A post of the timeline with its author.
#[derive(Debug)]
pub struct TimelinePost<Text = String> {
    pub post: PostRecord<Text>,
    pub author: ActorProfile<Text>,
}

impl View for TimelinePost {
    type V = TimelinePost<Seq<char>>;

    open spec fn view(&self) -> TimelinePost<Seq<char>> {
        TimelinePost { post: self.post@, author: self.author@ }
    }
}

/// Posts by their views.
pub open spec fn post_views(posts: Seq<PostRecord>) -> Seq<PostRecord<Seq<char>>> {
    posts.map_values(|post: PostRecord| post@)
}

/// Posts of the timeline by their views.
pub open spec fn timeline_views(posts: Seq<TimelinePost>) -> Seq<TimelinePost<Seq<char>>> {
    posts.map_values(|post: TimelinePost| post@)
}

/// Actors by their views.
pub open spec fn profile_views(actors: Seq<ActorProfile>) -> Seq<ActorProfile<Seq<char>>> {
    actors.map_values(|actor: ActorProfile| actor@)
}

/// The page with the given body.
pub open spec fn page(body: Seq<char>) -> Seq<char> {
    PAGE_OPEN@ + body + PAGE_CLOSE@
}

/// The number of followers in words.
pub open spec fn follower_label(followers: nat) -> Seq<char> {
    if followers == 1 {
        "1 follower"@
    } else {
        decimal(followers) + " followers"@
    }
}

/// The head of a profile.
pub open spec fn profile_markup(
    name: Seq<char>,
    username: Seq<char>,
    handle: Seq<char>,
    following: int,
    followers: nat,
) -> Seq<char> {
    PROFILE_OPEN@ + escaped_text(username) + PROFILE_NAME@ + escaped_text(name) + PROFILE_HANDLE@
        + escaped_text(handle) + PROFILE_FOLLOWING@ + escaped_text(username)
        + PROFILE_FOLLOWING_COUNT@ + signed_decimal(following) + PROFILE_FOLLOWERS@ + escaped_text(
        username,
    ) + PROFILE_FOLLOWERS_COUNT@ + follower_label(followers) + PROFILE_CLOSE@
}

/// The entry of an actor in a list of actors.
pub open spec fn actor_item(actor: ActorProfile<Seq<char>>) -> Seq<char> {
    let href = escaped_attribute(actor.uri);
    let handle = escaped_text(actor.handle);
    match actor.name {
        Some(name) => NAMED_OPEN@ + href + NAMED_NAME@ + escaped_text(name) + NAMED_LINK@ + href
            + NAMED_HANDLE@ + handle + NAMED_CLOSE@,
        None => UNNAMED_OPEN@ + href + UNNAMED_HANDLE@ + handle + UNNAMED_CLOSE@,
    }
}

/// The entries of a list of actors.
pub open spec fn actor_items(actors: Seq<ActorProfile<Seq<char>>>) -> Seq<char> {
    joined(actors, |actor: ActorProfile<Seq<char>>| actor_item(actor))
}

/// A list of actors under its heading.
pub open spec fn actor_list_markup(
    heading: Seq<char>,
    actors: Seq<ActorProfile<Seq<char>>>,
) -> Seq<char> {
    "<h2>"@ + escaped_text(heading) + "</h2><ul>"@ + actor_items(actors) + "</ul>"@
}

/// The name to show for an actor: its name, or its handle where it has none.
pub open spec fn author_name(author: ActorProfile<Seq<char>>) -> Seq<char> {
    match author.name {
        Some(name) => name,
        None => author.handle,
    }
}

/// Where a post links to: its URL, or its identifier where it has none.
pub open spec fn post_link(post: PostRecord<Seq<char>>) -> Seq<char> {
    match post.url {
        Some(url) => url,
        None => post.uri,
    }
}

/// The machine-readable form of a time of creation.
pub open spec fn datetime(created: Seq<char>) -> Seq<char> {
    replaced(created, ' ', "T"@) + "Z"@
}

/// A post with its author. The content of a post is HTML already.
pub open spec fn article(
    post: PostRecord<Seq<char>>,
    author: ActorProfile<Seq<char>>,
) -> Seq<char> {
    ARTICLE_OPEN@ + escaped_attribute(author.uri) + ARTICLE_AUTHOR@ + escaped_text(
        author_name(author),
    ) + ARTICLE_HANDLE@ + escaped_text(author.handle) + ARTICLE_CONTENT@ + post.content
        + ARTICLE_LINK@ + escaped_attribute(post_link(post)) + ARTICLE_DATETIME@
        + escaped_attribute(datetime(post.created)) + ARTICLE_CREATED@ + escaped_text(post.created)
        + ARTICLE_CLOSE@
}

/// The local author of an account's posts.
pub open spec fn local_author(account: Account<Seq<char>>) -> ActorProfile<Seq<char>> {
    ActorProfile {
        uri: "/users/"@ + account.username,
        name: account.name,
        handle: account.handle,
    }
}

/// The posts of an account, one behind the other.
pub open spec fn post_list_markup(
    posts: Seq<PostRecord<Seq<char>>>,
    account: Account<Seq<char>>,
) -> Seq<char> {
    joined(posts, |post: PostRecord<Seq<char>>| article(post, local_author(account)))
}

/// The posts of a timeline, one behind the other.
pub open spec fn timeline_markup(posts: Seq<TimelinePost<Seq<char>>>) -> Seq<char> {
    joined(posts, |entry: TimelinePost<Seq<char>>| article(entry.post, entry.author))
}

/// The body of the public home.
pub open spec fn public_home_markup(
    account: Account<Seq<char>>,
    posts: Seq<TimelinePost<Seq<char>>>,
) -> Seq<char> {
    HOME_OPEN@ + escaped_text(shown_name(account)) + HOME_PROFILE@ + escaped_text(account.username)
        + HOME_FOLLOW@ + escaped_text(account.username) + HOME_TIMELINE@ + timeline_markup(posts)
        + HOME_CLOSE@
}

/// The body of the post composer.
pub open spec fn post_form_markup(account: Account<Seq<char>>) -> Seq<char> {
    COMPOSER_OPEN@ + escaped_text(account.username) + COMPOSER_FORM@ + escaped_text(
        account.username,
    ) + COMPOSER_CLOSE@
}

/// The form that creates the account.
pub fn setup_form_html() -> (r: String)
    ensures
        r@ == SETUP_FORM@,
{
    SETUP_FORM.to_owned()
}

/// The body of the public home: the timeline, and a form to follow an actor.
pub fn public_home_html(account: &Account, posts: &[TimelinePost]) -> (r: String)
    ensures
        r@ == public_home_markup(account@, timeline_views(posts@)),
{
    let name: String = escape(display_name(account).as_str());
    let username: String = escape(account.username.as_str());
    let timeline: String = timeline_html(posts);
    let mut out: String = HOME_OPEN.to_owned();
    out.append(name.as_str());
    out.append(HOME_PROFILE);
    out.append(username.as_str());
    out.append(HOME_FOLLOW);
    out.append(username.as_str());
    out.append(HOME_TIMELINE);
    out.append(timeline.as_str());
    out.append(HOME_CLOSE);
    out
}

/// The body of the post composer.
pub fn post_form_html(account: &Account) -> (r: String)
    ensures
        r@ == post_form_markup(account@),
{
    let username: String = escape(account.username.as_str());
    let mut out: String = COMPOSER_OPEN.to_owned();
    out.append(username.as_str());
    out.append(COMPOSER_FORM);
    out.append(username.as_str());
    out.append(COMPOSER_CLOSE);
    out
}

/// The number of followers in words.
fn followers_text(followers: usize) -> (r: String)
    ensures
        r@ == follower_label(followers as nat),
{
    if followers == 1 {
        "1 follower".to_owned()
    } else {
        let mut out: String = decimal_text(followers as u64);
        out.append(" followers");
        out
    }
}

/// The head of a profile.
pub fn profile_html(
    name: &str,
    username: &str,
    handle: &str,
    following: i64,
    followers: usize,
) -> (r: String)
    ensures
        r@ == profile_markup(name@, username@, handle@, following as int, followers as nat),
{
    let link: String = escape(username);
    let mut out: String = PROFILE_OPEN.to_owned();
    out.append(link.as_str());
    out.append(PROFILE_NAME);
    out.append(escape(name).as_str());
    out.append(PROFILE_HANDLE);
    out.append(escape(handle).as_str());
    out.append(PROFILE_FOLLOWING);
    out.append(link.as_str());
    out.append(PROFILE_FOLLOWING_COUNT);
    out.append(signed_decimal_text(following).as_str());
    out.append(PROFILE_FOLLOWERS);
    out.append(link.as_str());
    out.append(PROFILE_FOLLOWERS_COUNT);
    out.append(followers_text(followers).as_str());
    out.append(PROFILE_CLOSE);
    out
}

/// The list of an account's followers.
pub fn followers_html(followers: &[ActorProfile]) -> (r: String)
    ensures
        r@ == actor_list_markup("Followers"@, profile_views(followers@)),
{
    actor_list_html("Followers", followers)
}

/// The entry of an actor in a list of actors.
fn actor_item_html(actor: &ActorProfile) -> (r: String)
    ensures
        r@ == actor_item(actor@),
{
    let href: String = escape_attribute(actor.uri.as_str());
    let handle: String = escape(actor.handle.as_str());
    match &actor.name {
        Some(name) => {
            let mut out: String = NAMED_OPEN.to_owned();
            out.append(href.as_str());
            out.append(NAMED_NAME);
            out.append(escape(name.as_str()).as_str());
            out.append(NAMED_LINK);
            out.append(href.as_str());
            out.append(NAMED_HANDLE);
            out.append(handle.as_str());
            out.append(NAMED_CLOSE);
            out
        },
        None => {
            let mut out: String = UNNAMED_OPEN.to_owned();
            out.append(href.as_str());
            out.append(UNNAMED_HANDLE);
            out.append(handle.as_str());
            out.append(UNNAMED_CLOSE);
            out
        },
    }
}

/// A list of actors under its heading.
pub fn actor_list_html(heading: &str, actors: &[ActorProfile]) -> (r: String)
    ensures
        r@ == actor_list_markup(heading@, profile_views(actors@)),
{
    let ghost views = profile_views(actors@);
    let ghost f = |actor: ActorProfile<Seq<char>>| actor_item(actor);
    let mut items: String = String::new();
    let mut i: usize = 0;
    assert(joined(views.take(0), f) =~= Seq::<char>::empty());
    while i < actors.len()
        invariant
            i <= actors@.len(),
            views == profile_views(actors@),
            f == |actor: ActorProfile<Seq<char>>| actor_item(actor),
            items@ == joined(views.take(i as int), f),
        decreases actors@.len() - i,
    {
        proof {
            lemma_joined_step(views, f, i as int);
        }
        items.append(actor_item_html(&actors[i]).as_str());
        i += 1;
    }
    assert(views.take(i as int) =~= views);
    let mut out: String = "<h2>".to_owned();
    out.append(escape(heading).as_str());
    out.append("</h2><ul>");
    out.append(items.as_str());
    out.append("</ul>");
    out
}

/// The posts of an account, one behind the other.
pub fn post_list_html(posts: &[PostRecord], account: &Account) -> (r: String)
    ensures
        r@ == post_list_markup(post_views(posts@), account@),
{
    let ghost views = post_views(posts@);
    let ghost f = |post: PostRecord<Seq<char>>| article(post, local_author(account@));
    let mut out: String = String::new();
    let mut i: usize = 0;
    assert(joined(views.take(0), f) =~= Seq::<char>::empty());
    while i < posts.len()
        invariant
            i <= posts@.len(),
            views == post_views(posts@),
            f == |post: PostRecord<Seq<char>>| article(post, local_author(account@)),
            out@ == joined(views.take(i as int), f),
        decreases posts@.len() - i,
    {
        proof {
            lemma_joined_step(views, f, i as int);
        }
        out.append(post_html(&posts[i], account).as_str());
        i += 1;
    }
    assert(views.take(i as int) =~= views);
    out
}

/// A post of the account itself.
pub fn post_html(post: &PostRecord, account: &Account) -> (r: String)
    ensures
        r@ == article(post@, local_author(account@)),
{
    let mut uri: String = "/users/".to_owned();
    uri.append(account.username.as_str());
    let account: Account = account.duplicate();
    let author: ActorProfile = ActorProfile { uri, name: account.name, handle: account.handle };
    post_html_with_author(post, &author)
}

/// The posts of a timeline, one behind the other.
pub fn timeline_html(posts: &[TimelinePost]) -> (r: String)
    ensures
        r@ == timeline_markup(timeline_views(posts@)),
{
    let ghost views = timeline_views(posts@);
    let ghost f = |entry: TimelinePost<Seq<char>>| article(entry.post, entry.author);
    let mut out: String = String::new();
    let mut i: usize = 0;
    assert(joined(views.take(0), f) =~= Seq::<char>::empty());
    while i < posts.len()
        invariant
            i <= posts@.len(),
            views == timeline_views(posts@),
            f == |entry: TimelinePost<Seq<char>>| article(entry.post, entry.author),
            out@ == joined(views.take(i as int), f),
        decreases posts@.len() - i,
    {
        proof {
            lemma_joined_step(views, f, i as int);
        }
        out.append(post_html_with_author(&posts[i].post, &posts[i].author).as_str());
        i += 1;
    }
    assert(views.take(i as int) =~= views);
    out
}

/// A post with its author.
pub fn post_html_with_author(post: &PostRecord, author: &ActorProfile) -> (r: String)
    ensures
        r@ == article(post@, author@),
{
    let link: &str = match &post.url {
        Some(url) => url.as_str(),
        None => post.uri.as_str(),
    };
    let name: &str = match &author.name {
        Some(name) => name.as_str(),
        None => author.handle.as_str(),
    };
    let mut time: String = replace_char(post.created.as_str(), ' ', "T");
    time.append("Z");
    let mut out: String = ARTICLE_OPEN.to_owned();
    out.append(escape_attribute(author.uri.as_str()).as_str());
    out.append(ARTICLE_AUTHOR);
    out.append(escape(name).as_str());
    out.append(ARTICLE_HANDLE);
    out.append(escape(author.handle.as_str()).as_str());
    out.append(ARTICLE_CONTENT);
    out.append(post.content.as_str());
    out.append(ARTICLE_LINK);
    out.append(escape_attribute(link).as_str());
    out.append(ARTICLE_DATETIME);
    out.append(escape_attribute(time.as_str()).as_str());
    out.append(ARTICLE_CREATED);
    out.append(escape(post.created.as_str()).as_str());
    out.append(ARTICLE_CLOSE);
    out
}

/// The page with the given body.
pub fn layout(body: &str) -> (r: String)
    ensures
        r@ == page(body@),
{
    let mut out: String = PAGE_OPEN.to_owned();
    out.append(body);
    out.append(PAGE_CLOSE);
    out
}

/// The angle brackets of a text, in order: what its tags are made of.
pub open spec fn brackets(s: Seq<char>) -> Seq<char> {
    substitute(
        s,
        |c: char|
            if c == '<' || c == '>' {
                seq![c]
            } else {
                Seq::empty()
            },
    )
}

proof fn lemma_brackets_add(a: Seq<char>, b: Seq<char>)
    ensures
        brackets(a + b) == brackets(a) + brackets(b),
{
    lemma_substitute_add(
        a,
        b,
        |c: char|
            if c == '<' || c == '>' {
                seq![c]
            } else {
                Seq::empty()
            },
    );
}

/// Text without angle brackets adds none to what it stands behind.
proof fn lemma_brackets_skip(a: Seq<char>, free: Seq<char>)
    requires
        markup_free(free),
    ensures
        brackets(a + free) == brackets(a),
    decreases free.len(),
{
    if free.len() == 0 {
        assert(a + free =~= a);
    } else {
        let init = free.drop_last();
        assert forall|c: char| init.contains(c) implies free.contains(c) by {
            let i = choose|i: int| 0 <= i < init.len() && init[i] == c;
            assert(free[i] == c);
        }
        lemma_brackets_skip(a, init);
        assert(free[free.len() - 1] == free.last());
        assert((a + free).drop_last() =~= a + init);
        assert((a + free).last() == free.last());
        assert(brackets(a + init) + Seq::<char>::empty() =~= brackets(a + init));
    }
}

proof fn lemma_decimal_is_markup_free(n: nat)
    ensures
        markup_free(decimal(n)),
    decreases n,
{
    if n >= 10 {
        lemma_decimal_is_markup_free(n / 10);
        lemma_contains_add(decimal(n / 10), seq![digit(n % 10)], '<');
        lemma_contains_add(decimal(n / 10), seq![digit(n % 10)], '>');
        assert(decimal(n) =~= decimal(n / 10) + seq![digit(n % 10)]);
    }
}

proof fn lemma_signed_decimal_is_markup_free(n: int)
    ensures
        markup_free(signed_decimal(n)),
{
    if n < 0 {
        lemma_decimal_is_markup_free((-n) as nat);
        lemma_contains_add(seq!['-'], decimal((-n) as nat), '<');
        lemma_contains_add(seq!['-'], decimal((-n) as nat), '>');
    } else {
        lemma_decimal_is_markup_free(n as nat);
    }
}

proof fn lemma_follower_label_is_markup_free(followers: nat)
    ensures
        markup_free(follower_label(followers)),
{
    reveal_strlit("1 follower");
    reveal_strlit(" followers");
    lemma_decimal_is_markup_free(followers);
    lemma_contains_add(decimal(followers), " followers"@, '<');
    lemma_contains_add(decimal(followers), " followers"@, '>');
}

/// Markup with a slot behind it for escaped text or a number.
proof fn lemma_slot(before: Seq<char>, free: Seq<char>, fixed: Seq<char>)
    requires
        markup_free(free),
    ensures
        brackets(before + free + fixed) == brackets(before) + brackets(fixed),
{
    lemma_brackets_skip(before, free);
    lemma_brackets_add(before + free, fixed);
}

/// The tags of a post come from its template and its content: nothing in the
/// names, addresses and times that it shows adds or removes one.
pub proof fn law_article_tags_are_fixed(
    post: PostRecord<Seq<char>>,
    author: ActorProfile<Seq<char>>,
    other_post: PostRecord<Seq<char>>,
    other_author: ActorProfile<Seq<char>>,
)
    requires
        post.content == other_post.content,
    ensures
        brackets(article(post, author)) == brackets(article(other_post, other_author)),
{
    lemma_article_brackets(post, author);
    lemma_article_brackets(other_post, other_author);
}

proof fn lemma_article_brackets(post: PostRecord<Seq<char>>, author: ActorProfile<Seq<char>>)
    ensures
        brackets(article(post, author)) == brackets(ARTICLE_OPEN@) + brackets(ARTICLE_AUTHOR@)
            + brackets(ARTICLE_HANDLE@) + brackets(ARTICLE_CONTENT@) + brackets(post.content)
            + brackets(ARTICLE_LINK@) + brackets(ARTICLE_DATETIME@) + brackets(ARTICLE_CREATED@)
            + brackets(ARTICLE_CLOSE@),
{
    law_escaped_attribute_stays_quoted(author.uri);
    law_escaped_attribute_stays_quoted(post_link(post));
    law_escaped_attribute_stays_quoted(datetime(post.created));
    law_escaped_text_is_markup_free(author_name(author));
    law_escaped_text_is_markup_free(author.handle);
    law_escaped_text_is_markup_free(post.created);
    let s1 = ARTICLE_OPEN@;
    lemma_slot(s1, escaped_attribute(author.uri), ARTICLE_AUTHOR@);
    let s2 = s1 + escaped_attribute(author.uri) + ARTICLE_AUTHOR@;
    lemma_slot(s2, escaped_text(author_name(author)), ARTICLE_HANDLE@);
    let s3 = s2 + escaped_text(author_name(author)) + ARTICLE_HANDLE@;
    lemma_slot(s3, escaped_text(author.handle), ARTICLE_CONTENT@);
    let s4 = s3 + escaped_text(author.handle) + ARTICLE_CONTENT@;
    lemma_brackets_add(s4, post.content);
    lemma_brackets_add(s4 + post.content, ARTICLE_LINK@);
    let s5 = s4 + post.content + ARTICLE_LINK@;
    lemma_slot(s5, escaped_attribute(post_link(post)), ARTICLE_DATETIME@);
    let s6 = s5 + escaped_attribute(post_link(post)) + ARTICLE_DATETIME@;
    lemma_slot(s6, escaped_attribute(datetime(post.created)), ARTICLE_CREATED@);
    let s7 = s6 + escaped_attribute(datetime(post.created)) + ARTICLE_CREATED@;
    lemma_slot(s7, escaped_text(post.created), ARTICLE_CLOSE@);
}

/// The tags of an actor's entry do not depend on what the actor calls itself,
/// but for whether it has a name.
pub proof fn law_actor_item_tags_are_fixed(
    actor: ActorProfile<Seq<char>>,
    other: ActorProfile<Seq<char>>,
)
    requires
        actor.name is Some == other.name is Some,
    ensures
        brackets(actor_item(actor)) == brackets(actor_item(other)),
{
    lemma_actor_item_brackets(actor);
    lemma_actor_item_brackets(other);
}

proof fn lemma_actor_item_brackets(actor: ActorProfile<Seq<char>>)
    ensures
        brackets(actor_item(actor)) == if actor.name is Some {
            brackets(NAMED_OPEN@) + brackets(NAMED_NAME@) + brackets(NAMED_LINK@) + brackets(
                NAMED_HANDLE@,
            ) + brackets(NAMED_CLOSE@)
        } else {
            brackets(UNNAMED_OPEN@) + brackets(UNNAMED_HANDLE@) + brackets(UNNAMED_CLOSE@)
        },
{
    let href = escaped_attribute(actor.uri);
    let handle = escaped_text(actor.handle);
    law_escaped_attribute_stays_quoted(actor.uri);
    law_escaped_text_is_markup_free(actor.handle);
    match actor.name {
        Some(name) => {
            law_escaped_text_is_markup_free(name);
            let s1 = NAMED_OPEN@;
            lemma_slot(s1, href, NAMED_NAME@);
            let s2 = s1 + href + NAMED_NAME@;
            lemma_slot(s2, escaped_text(name), NAMED_LINK@);
            let s3 = s2 + escaped_text(name) + NAMED_LINK@;
            lemma_slot(s3, href, NAMED_HANDLE@);
            let s4 = s3 + href + NAMED_HANDLE@;
            lemma_slot(s4, handle, NAMED_CLOSE@);
        },
        None => {
            let s1 = UNNAMED_OPEN@;
            lemma_slot(s1, href, UNNAMED_HANDLE@);
            let s2 = s1 + href + UNNAMED_HANDLE@;
            lemma_slot(s2, handle, UNNAMED_CLOSE@);
        },
    }
}

/// The tags of a profile's head are the same whatever it shows.
pub proof fn law_profile_tags_are_fixed(
    name: Seq<char>,
    username: Seq<char>,
    handle: Seq<char>,
    following: int,
    followers: nat,
)
    ensures
        brackets(profile_markup(name, username, handle, following, followers)) == brackets(
            PROFILE_OPEN@,
        ) + brackets(PROFILE_NAME@) + brackets(PROFILE_HANDLE@) + brackets(PROFILE_FOLLOWING@)
            + brackets(PROFILE_FOLLOWING_COUNT@) + brackets(PROFILE_FOLLOWERS@) + brackets(
            PROFILE_FOLLOWERS_COUNT@,
        ) + brackets(PROFILE_CLOSE@),
{
    let link = escaped_text(username);
    law_escaped_text_is_markup_free(username);
    law_escaped_text_is_markup_free(name);
    law_escaped_text_is_markup_free(handle);
    lemma_signed_decimal_is_markup_free(following);
    lemma_follower_label_is_markup_free(followers);
    let s1 = PROFILE_OPEN@;
    lemma_slot(s1, link, PROFILE_NAME@);
    let s2 = s1 + link + PROFILE_NAME@;
    lemma_slot(s2, escaped_text(name), PROFILE_HANDLE@);
    let s3 = s2 + escaped_text(name) + PROFILE_HANDLE@;
    lemma_slot(s3, escaped_text(handle), PROFILE_FOLLOWING@);
    let s4 = s3 + escaped_text(handle) + PROFILE_FOLLOWING@;
    lemma_slot(s4, link, PROFILE_FOLLOWING_COUNT@);
    let s5 = s4 + link + PROFILE_FOLLOWING_COUNT@;
    lemma_slot(s5, signed_decimal(following), PROFILE_FOLLOWERS@);
    let s6 = s5 + signed_decimal(following) + PROFILE_FOLLOWERS@;
    lemma_slot(s6, link, PROFILE_FOLLOWERS_COUNT@);
    let s7 = s6 + link + PROFILE_FOLLOWERS_COUNT@;
    lemma_slot(s7, follower_label(followers), PROFILE_CLOSE@);
}

/// A page dates a post as its note does. (The store writes no zone mark at
/// the end of a time; a note would not repeat one.)
pub proof fn law_page_dates_as_the_note(created: Seq<char>)
    requires
        created.len() > 0 ==> created.last() != 'Z',
    ensures
        datetime(created) == published_at(created),
{
    reveal_strlit("T");
    let dated = replaced(created, ' ', "T"@);
    if created.len() > 0 {
        assert(dated == replaced(created.drop_last(), ' ', "T"@) + replacing(' ', "T"@)(
            created.last(),
        ));
        assert(dated.last() != 'Z');
    }
}

/// Posts are shown in their order: the posts of two lists in a row are shown
/// as the posts of the one and then those of the other.
pub proof fn law_posts_are_shown_in_order(
    first: Seq<TimelinePost<Seq<char>>>,
    rest: Seq<TimelinePost<Seq<char>>>,
)
    ensures
        timeline_markup(first + rest) == timeline_markup(first) + timeline_markup(rest),
{
    lemma_joined_add(
        first,
        rest,
        |entry: TimelinePost<Seq<char>>| article(entry.post, entry.author),
    );
}

/// A post shows its content.
proof fn lemma_article_shows_content(post: PostRecord<Seq<char>>, author: ActorProfile<Seq<char>>)
    ensures
        has_part(article(post, author), post.content),
{
    let before = ARTICLE_OPEN@ + escaped_attribute(author.uri) + ARTICLE_AUTHOR@ + escaped_text(
        author_name(author),
    ) + ARTICLE_HANDLE@ + escaped_text(author.handle) + ARTICLE_CONTENT@;
    assert(article(post, author).subrange(
        before.len() as int,
        (before.len() + post.content.len()) as int,
    ) =~= post.content);
    assert(occurs_at(article(post, author), post.content, before.len() as int));
}

/// The public home shows the content of every post of the timeline.
pub proof fn law_public_home_shows_every_post(
    account: Account<Seq<char>>,
    posts: Seq<TimelinePost<Seq<char>>>,
    i: int,
)
    requires
        0 <= i < posts.len(),
    ensures
        has_part(page(public_home_markup(account, posts)), posts[i].post.content),
{
    let f = |entry: TimelinePost<Seq<char>>| article(entry.post, entry.author);
    let content = posts[i].post.content;
    lemma_article_shows_content(posts[i].post, posts[i].author);
    lemma_joined_has_part(posts, f, i, content);
    let before = HOME_OPEN@ + escaped_text(shown_name(account)) + HOME_PROFILE@ + escaped_text(
        account.username,
    ) + HOME_FOLLOW@ + escaped_text(account.username) + HOME_TIMELINE@;
    lemma_part_of_middle(before, timeline_markup(posts), HOME_CLOSE@, content);
    lemma_part_of_middle(PAGE_OPEN@, public_home_markup(account, posts), PAGE_CLOSE@, content);
}

/// A list of actors shows the entry of every actor.
pub proof fn law_list_shows_every_actor(
    heading: Seq<char>,
    actors: Seq<ActorProfile<Seq<char>>>,
    i: int,
)
    requires
        0 <= i < actors.len(),
    ensures
        has_part(page(actor_list_markup(heading, actors)), actor_item(actors[i])),
{
    let item = actor_item(actors[i]);
    assert(item.subrange(0, item.len() as int) =~= item);
    assert(occurs_at(item, item, 0));
    lemma_joined_has_part(actors, |actor: ActorProfile<Seq<char>>| actor_item(actor), i, item);
    let before = "<h2>"@ + escaped_text(heading) + "</h2><ul>"@;
    lemma_part_of_middle(before, actor_items(actors), "</ul>"@, item);
    lemma_part_of_middle(PAGE_OPEN@, actor_list_markup(heading, actors), PAGE_CLOSE@, item);
}

/// The tag that opens a list item stands in `s` at `at`.
pub open spec fn item_opens_at(s: Seq<char>, at: int) -> bool {
    &&& 0 <= at
    &&& at + 4 <= s.len()
    &&& s[at] == '<' && s[at + 1] == 'l' && s[at + 2] == 'i' && s[at + 3] == '>'
}

/// The number of list items that a text opens.
pub open spec fn item_count(s: Seq<char>) -> nat
    decreases s.len(),
{
    if s.len() == 0 {
        0
    } else {
        item_count(s.drop_last()) + if item_opens_at(s, s.len() - 4) {
            1nat
        } else {
            0nat
        }
    }
}

/// No tag that opens a list item is cut off at the end of `s`.
spec fn ends_whole(s: Seq<char>) -> bool {
    forall|i: int| 0 <= i < s.len() && s.len() - 3 <= i ==> #[trigger] s[i] != '<'
}

proof fn lemma_ends_whole_add(a: Seq<char>, b: Seq<char>)
    requires
        ends_whole(a),
        ends_whole(b),
    ensures
        ends_whole(a + b),
{
    let whole = a + b;
    assert forall|i: int|
        0 <= i < whole.len() && whole.len() - 3 <= i implies #[trigger] whole[i] != '<' by {
        if i < a.len() {
            assert(whole[i] == a[i]);
        } else {
            assert(whole[i] == b[i - a.len()]);
        }
    }
}

proof fn lemma_count_add(a: Seq<char>, b: Seq<char>)
    requires
        ends_whole(a),
    ensures
        item_count(a + b) == item_count(a) + item_count(b),
    decreases b.len(),
{
    if b.len() == 0 {
        assert(a + b =~= a);
    } else {
        let whole = a + b;
        lemma_count_add(a, b.drop_last());
        assert(whole.drop_last() =~= a + b.drop_last());
        let at = whole.len() - 4;
        if b.len() < 4 && 0 <= at {
            assert(whole[at] == a[at]);
            assert(!item_opens_at(whole, at));
        } else if 0 <= at {
            assert(whole[at] == b[b.len() - 4]);
            assert(item_opens_at(whole, at) == item_opens_at(b, b.len() - 4));
        }
    }
}

/// A text in which no `<` stands before an `l` opens no list item.
proof fn lemma_count_none(s: Seq<char>)
    requires
        forall|i: int| 0 <= i < s.len() - 1 ==> !(#[trigger] s[i] == '<' && s[i + 1] == 'l'),
    ensures
        item_count(s) == 0,
    decreases s.len(),
{
    if s.len() > 0 {
        let init = s.drop_last();
        assert forall|i: int| 0 <= i < init.len() - 1 implies !(#[trigger] init[i] == '<' && init[i
            + 1] == 'l') by {
            assert(init[i] == s[i] && init[i + 1] == s[i + 1]);
        }
        lemma_count_none(init);
        if item_opens_at(s, s.len() - 4) {
            assert(s[s.len() - 4] == '<');
        }
    }
}

/// Text without angle brackets opens no list item and cuts none off.
proof fn lemma_count_free(a: Seq<char>, free: Seq<char>)
    requires
        ends_whole(a),
        markup_free(free),
    ensures
        ends_whole(a + free),
        item_count(a + free) == item_count(a),
{
    assert forall|i: int| 0 <= i < free.len() implies #[trigger] free[i] != '<' by {
        if free[i] == '<' {
            assert(free.contains('<'));
        }
    }
    lemma_count_none(free);
    lemma_count_add(a, free);
    lemma_ends_whole_add(a, free);
}

/// Markup that opens no list item adds none.
proof fn lemma_count_fixed(a: Seq<char>, fixed: Seq<char>)
    requires
        ends_whole(a),
        ends_whole(fixed),
        forall|i: int|
            0 <= i < fixed.len() - 1 ==> !(#[trigger] fixed[i] == '<' && fixed[i + 1] == 'l'),
    ensures
        ends_whole(a + fixed),
        item_count(a + fixed) == item_count(a),
{
    lemma_count_none(fixed);
    lemma_count_add(a, fixed);
    lemma_ends_whole_add(a, fixed);
}

proof fn lemma_entry_opens_one_item(actor: ActorProfile<Seq<char>>)
    ensures
        item_count(actor_item(actor)) == 1,
        ends_whole(actor_item(actor)),
{
    reveal_strlit(r#"<li><a href=""#);
    reveal_strlit(r#"">"#);
    reveal_strlit(r#"</a> <small>(<a href=""#);
    reveal_strlit(r#"" class="secondary">"#);
    reveal_strlit(r#"</a>)</small></li>"#);
    reveal_strlit(r#"</a></li>"#);
    let href = escaped_attribute(actor.uri);
    let handle = escaped_text(actor.handle);
    law_escaped_attribute_stays_quoted(actor.uri);
    law_escaped_text_is_markup_free(actor.handle);
    let tag = NAMED_OPEN@.take(4);
    let link = NAMED_OPEN@.skip(4);
    assert(NAMED_OPEN@ =~= tag + link);
    assert(item_count(tag) == 1) by {
        reveal_with_fuel(item_count, 5);
        assert(item_opens_at(tag, 0));
    }
    lemma_count_fixed(tag, link);
    match actor.name {
        Some(name) => {
            law_escaped_text_is_markup_free(name);
            let s1 = NAMED_OPEN@;
            lemma_count_free(s1, href);
            lemma_count_fixed(s1 + href, NAMED_NAME@);
            let s2 = s1 + href + NAMED_NAME@;
            lemma_count_free(s2, escaped_text(name));
            lemma_count_fixed(s2 + escaped_text(name), NAMED_LINK@);
            let s3 = s2 + escaped_text(name) + NAMED_LINK@;
            lemma_count_free(s3, href);
            lemma_count_fixed(s3 + href, NAMED_HANDLE@);
            let s4 = s3 + href + NAMED_HANDLE@;
            lemma_count_free(s4, handle);
            lemma_count_fixed(s4 + handle, NAMED_CLOSE@);
        },
        None => {
            let s1 = UNNAMED_OPEN@;
            lemma_count_free(s1, href);
            lemma_count_fixed(s1 + href, UNNAMED_HANDLE@);
            let s2 = s1 + href + UNNAMED_HANDLE@;
            lemma_count_free(s2, handle);
            lemma_count_fixed(s2 + handle, UNNAMED_CLOSE@);
        },
    }
}

proof fn lemma_entries_open_items(actors: Seq<ActorProfile<Seq<char>>>)
    ensures
        item_count(actor_items(actors)) == actors.len(),
        ends_whole(actor_items(actors)),
    decreases actors.len(),
{
    if actors.len() > 0 {
        let init = actor_items(actors.drop_last());
        let last = actor_item(actors.last());
        lemma_entries_open_items(actors.drop_last());
        lemma_entry_opens_one_item(actors.last());
        lemma_count_add(init, last);
        lemma_ends_whole_add(init, last);
        assert(actor_items(actors) == init + last);
    }
}

/// A list of actors opens one list item for each actor and no more, whatever
/// the actors call themselves.
pub proof fn law_list_has_one_item_per_actor(
    heading: Seq<char>,
    actors: Seq<ActorProfile<Seq<char>>>,
)
    ensures
        item_count(actor_list_markup(heading, actors)) == actors.len(),
{
    reveal_strlit("<h2>");
    reveal_strlit("</h2><ul>");
    reveal_strlit("</ul>");
    law_escaped_text_is_markup_free(heading);
    let s1 = "<h2>"@;
    lemma_count_none(s1);
    lemma_count_free(s1, escaped_text(heading));
    lemma_count_fixed(s1 + escaped_text(heading), "</h2><ul>"@);
    let s2 = s1 + escaped_text(heading) + "</h2><ul>"@;
    lemma_entries_open_items(actors);
    lemma_count_add(s2, actor_items(actors));
    let s3 = s2 + actor_items(actors);
    lemma_ends_whole_add(s2, actor_items(actors));
    lemma_count_fixed(s3, "</ul>"@);
}

/// Every post is shown by one template: its author's name, or the handle
/// without one, as a link to the author, the handle, the content, and the
/// time of creation as a link to the post's page, or to its identifier
/// without one.
pub open spec fn is_article_template(t: Seq<Seq<char>>) -> bool {
    &&& t.len() == 8
    &&& forall|post: PostRecord<Seq<char>>, author: ActorProfile<Seq<char>>| #[trigger]
        article(post, author) == t[0] + escaped_attribute(author.uri) + t[1] + escaped_text(
            if author.name is Some {
                author.name->0
            } else {
                author.handle
            },
        ) + t[2] + escaped_text(author.handle) + t[3] + post.content + t[4] + escaped_attribute(
            if post.url is Some {
                post.url->0
            } else {
                post.uri
            },
        ) + t[5] + escaped_attribute(datetime(post.created)) + t[6] + escaped_text(post.created)
            + t[7]
}

/// Posts are shown alike: there is one template for all of them.
pub proof fn law_posts_are_shown_alike()
    ensures
        exists|t: Seq<Seq<char>>| is_article_template(t),
{
    let t = seq![
        ARTICLE_OPEN@,
        ARTICLE_AUTHOR@,
        ARTICLE_HANDLE@,
        ARTICLE_CONTENT@,
        ARTICLE_LINK@,
        ARTICLE_DATETIME@,
        ARTICLE_CREATED@,
        ARTICLE_CLOSE@,
    ];
    assert(is_article_template(t));
}

/// The machine-readable time of a post is the time of creation character by
/// character, a `T` in the place of each space, with a `Z` behind it.
pub proof fn law_page_time_is_the_created_one(created: Seq<char>, i: int)
    ensures
        datetime(created).len() == created.len() + 1,
        datetime(created).last() == 'Z',
        0 <= i < created.len() && created[i] == ' ' ==> datetime(created)[i] == 'T',
        0 <= i < created.len() && created[i] != ' ' ==> datetime(created)[i] == created[i],
{
    reveal_strlit("Z");
    lemma_replaced_one_by_one(created);
}

/// Every profile's head is shown by one template: the name as a link to the
/// profile, the handle, and the numbers of followed actors and of followers
/// as links to their lists.
pub open spec fn is_profile_template(t: Seq<Seq<char>>) -> bool {
    &&& t.len() == 8
    &&& forall|
        name: Seq<char>,
        username: Seq<char>,
        handle: Seq<char>,
        following: int,
        followers: nat,
    | #[trigger]
        profile_markup(name, username, handle, following, followers) == t[0] + escaped_text(
            username,
        ) + t[1] + escaped_text(name) + t[2] + escaped_text(handle) + t[3] + escaped_text(username)
            + t[4] + signed_decimal(following) + t[5] + escaped_text(username) + t[6] + (
        if followers == 1 {
            "1 follower"@
        } else {
            decimal(followers) + " followers"@
        }) + t[7]
}

/// Profiles are shown alike: there is one template for all of them.
pub proof fn law_profiles_are_shown_alike()
    ensures
        exists|t: Seq<Seq<char>>| is_profile_template(t),
{
    let t = seq![
        PROFILE_OPEN@,
        PROFILE_NAME@,
        PROFILE_HANDLE@,
        PROFILE_FOLLOWING@,
        PROFILE_FOLLOWING_COUNT@,
        PROFILE_FOLLOWERS@,
        PROFILE_FOLLOWERS_COUNT@,
        PROFILE_CLOSE@,
    ];
    assert(is_profile_template(t));
}

/// Every actor of a list is shown by one of two templates: one with a name
/// by the name and then the handle, one without by the handle, each as a link
/// to the actor.
pub open spec fn are_item_templates(named: Seq<Seq<char>>, unnamed: Seq<Seq<char>>) -> bool {
    &&& named.len() == 5
    &&& unnamed.len() == 3
    &&& forall|actor: ActorProfile<Seq<char>>| #[trigger]
        actor_item(actor) == {
            let href = escaped_attribute(actor.uri);
            let handle = escaped_text(actor.handle);
            if actor.name is Some {
                named[0] + href + named[1] + escaped_text(actor.name->0) + named[2] + href
                    + named[3] + handle + named[4]
            } else {
                unnamed[0] + href + unnamed[1] + handle + unnamed[2]
            }
        }
}

/// Actors are listed alike, each in the order of the list and under the
/// heading.
pub proof fn law_actors_are_listed_alike(
    first: Seq<ActorProfile<Seq<char>>>,
    actor: ActorProfile<Seq<char>>,
    rest: Seq<ActorProfile<Seq<char>>>,
)
    ensures
        exists|named: Seq<Seq<char>>, unnamed: Seq<Seq<char>>| are_item_templates(named, unnamed),
        exists|t: Seq<Seq<char>>| is_list_template(t),
        actor_items(Seq::empty()) == Seq::<char>::empty(),
        actor_items(first + seq![actor] + rest) == actor_items(first) + actor_item(actor)
            + actor_items(rest),
{
    assert(are_item_templates(
        seq![NAMED_OPEN@, NAMED_NAME@, NAMED_LINK@, NAMED_HANDLE@, NAMED_CLOSE@],
        seq![UNNAMED_OPEN@, UNNAMED_HANDLE@, UNNAMED_CLOSE@],
    ));
    assert(is_list_template(seq!["<h2>"@, "</h2><ul>"@, "</ul>"@]));
    law_each_item_is_joined(
        first,
        actor,
        rest,
        |actor: ActorProfile<Seq<char>>| actor_item(actor),
    );
}

/// Every list of actors stands under its heading in one template.
pub open spec fn is_list_template(t: Seq<Seq<char>>) -> bool {
    &&& t.len() == 3
    &&& forall|heading: Seq<char>, actors: Seq<ActorProfile<Seq<char>>>| #[trigger]
        actor_list_markup(heading, actors) == t[0] + escaped_text(heading) + t[1] + actor_items(
            actors,
        ) + t[2]
}

/// The posts of an account are shown one by one in their order, each as the
/// account's own, with a link to its profile.
pub proof fn law_own_posts_are_shown_one_by_one(
    first: Seq<PostRecord<Seq<char>>>,
    post: PostRecord<Seq<char>>,
    rest: Seq<PostRecord<Seq<char>>>,
    account: Account<Seq<char>>,
)
    ensures
        post_list_markup(Seq::empty(), account) == Seq::<char>::empty(),
        post_list_markup(first + seq![post] + rest, account) == post_list_markup(first, account)
            + article(
            post,
            ActorProfile {
                uri: "/users/"@ + account.username,
                name: account.name,
                handle: account.handle,
            },
        ) + post_list_markup(rest, account),
{
    law_each_item_is_joined(
        first,
        post,
        rest,
        |post: PostRecord<Seq<char>>| article(post, local_author(account)),
    );
}

/// The posts of a timeline are shown one by one in their order, each with its
/// author.
pub proof fn law_timeline_posts_are_shown_one_by_one(
    first: Seq<TimelinePost<Seq<char>>>,
    entry: TimelinePost<Seq<char>>,
    rest: Seq<TimelinePost<Seq<char>>>,
)
    ensures
        timeline_markup(Seq::empty()) == Seq::<char>::empty(),
        timeline_markup(first + seq![entry] + rest) == timeline_markup(first) + article(
            entry.post,
            entry.author,
        ) + timeline_markup(rest),
{
    law_each_item_is_joined(
        first,
        entry,
        rest,
        |entry: TimelinePost<Seq<char>>| article(entry.post, entry.author),
    );
}

/// The public home, the composer and the page around every body each have one
/// template.
pub open spec fn are_page_templates(
    home: Seq<Seq<char>>,
    composer: Seq<Seq<char>>,
    whole: Seq<Seq<char>>,
) -> bool {
    &&& home.len() == 5
    &&& composer.len() == 3
    &&& whole.len() == 2
    &&& forall|account: Account<Seq<char>>, posts: Seq<TimelinePost<Seq<char>>>| #[trigger]
        public_home_markup(account, posts) == home[0] + escaped_text(shown_name(account)) + home[1]
            + escaped_text(account.username) + home[2] + escaped_text(account.username) + home[3]
            + timeline_markup(posts) + home[4]
    &&& forall|account: Account<Seq<char>>| #[trigger]
        post_form_markup(account) == composer[0] + escaped_text(account.username) + composer[1]
            + escaped_text(account.username) + composer[2]
    &&& forall|body: Seq<char>| #[trigger] page(body) == whole[0] + body + whole[1]
}

/// The pages of every account are alike.
pub proof fn law_pages_are_alike()
    ensures
        exists|home: Seq<Seq<char>>, composer: Seq<Seq<char>>, whole: Seq<Seq<char>>|
            are_page_templates(home, composer, whole),
{
    assert(are_page_templates(
        seq![HOME_OPEN@, HOME_PROFILE@, HOME_FOLLOW@, HOME_TIMELINE@, HOME_CLOSE@],
        seq![COMPOSER_OPEN@, COMPOSER_FORM@, COMPOSER_CLOSE@],
        seq![PAGE_OPEN@, PAGE_CLOSE@],
    ));
}

/// The views of posts, timeline posts and actors are those of each, in order.
pub proof fn law_views_keep_the_order(
    posts: Seq<PostRecord>,
    entries: Seq<TimelinePost>,
    actors: Seq<ActorProfile>,
    i: int,
)
    ensures
        post_views(posts).len() == posts.len(),
        0 <= i < posts.len() ==> post_views(posts)[i] == posts[i]@,
        timeline_views(entries).len() == entries.len(),
        0 <= i < entries.len() ==> timeline_views(entries)[i] == entries[i]@,
        profile_views(actors).len() == actors.len(),
        0 <= i < actors.len() ==> profile_views(actors)[i] == actors[i]@,
{
}

} // verus!
