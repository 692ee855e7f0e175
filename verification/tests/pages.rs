use federog::account::Account;
use federog::actor::ActorProfile;
use federog::content::post_timestamp;
use federog::pages::{
    actor_list_html, followers_html, layout, post_form_html, post_html, post_html_with_author,
    post_list_html, profile_html, public_home_html, setup_form_html, timeline_html, PostRecord,
    TimelinePost,
};

fn alice() -> Account {
    Account {
        username: "alice".to_string(),
        name: Some("Alice & Co".to_string()),
        handle: "@alice@blog.example".to_string(),
    }
}

fn post(content: &str) -> PostRecord {
    PostRecord {
        uri: "https://blog.example/users/alice/posts/1".to_string(),
        content: content.to_string(),
        url: None,
        created: "2024-01-02 03:04:05".to_string(),
    }
}

fn bob(name: Option<&str>) -> ActorProfile {
    ActorProfile {
        uri: "https://remote.example/?a=1&b=\"2\"".to_string(),
        name: name.map(str::to_string),
        handle: "@bob@remote.example".to_string(),
    }
}

const BOBS_ARTICLE: &str = r#"
        <article>
            <header>
                <a href="https://remote.example/?a=1&amp;b=&quot;2&quot;">&lt;Bob&gt;</a>
                <small>(<span class="secondary">@bob@remote.example</span>)</small>
            </header>
            <div><p>hi</p></div>
            <footer><a href="https://blog.example/users/alice/posts/1"><time datetime="2024-01-02T03:04:05Z">2024-01-02 03:04:05</time></a></footer>
        </article>
        "#;

const ALICES_ARTICLE: &str = r#"
        <article>
            <header>
                <a href="/users/alice">Alice &amp; Co</a>
                <small>(<span class="secondary">@alice@blog.example</span>)</small>
            </header>
            <div>Hello Feder</div>
            <footer><a href="https://blog.example/users/alice/posts/1"><time datetime="2024-01-02T03:04:05Z">2024-01-02 03:04:05</time></a></footer>
        </article>
        "#;

#[test]
fn posts_show_their_author_and_time() {
    assert_eq!(post_html_with_author(&post("<p>hi</p>"), &bob(Some("<Bob>"))), BOBS_ARTICLE);
    assert_eq!(post_html(&post("Hello Feder"), &alice()), ALICES_ARTICLE);
}

#[test]
fn posts_link_to_their_own_page() {
    let mut linked = post("x");
    linked.url = Some("https://remote.example/@bob/\"1\"".to_string());
    let html = post_html_with_author(&linked, &bob(None));
    assert!(html.contains(r#"<footer><a href="https://remote.example/@bob/&quot;1&quot;">"#));
    assert!(html.contains(r#"b=&quot;2&quot;">@bob@remote.example</a>"#));
    let mut dated = post("x");
    dated.created = "1 2<3\"".to_string();
    let html = post_html_with_author(&dated, &bob(None));
    assert!(html.contains("<time datetime=\"1T2&lt;3&quot;Z\">1 2&lt;3\"</time>"));
}

#[test]
fn lists_show_each_post_in_order() {
    assert_eq!(post_list_html(&[], &alice()), "");
    let posts = [post("Hello Feder"), post("second")];
    let html = post_list_html(&posts, &alice());
    assert!(html.starts_with(ALICES_ARTICLE));
    assert_eq!(html, format!("{ALICES_ARTICLE}{}", post_html(&posts[1], &alice())));
    let entries = [
        TimelinePost { post: post("<p>hi</p>"), author: bob(Some("<Bob>")) },
        TimelinePost {
            post: post("Hello Feder"),
            author: ActorProfile {
                uri: "/users/alice".to_string(),
                name: Some("Alice & Co".to_string()),
                handle: "@alice@blog.example".to_string(),
            },
        },
    ];
    assert_eq!(timeline_html(&entries), format!("{BOBS_ARTICLE}{ALICES_ARTICLE}"));
    assert_eq!(timeline_html(&[]), "");
}

#[test]
fn actors_are_listed_by_name_and_handle() {
    assert_eq!(actor_list_html("A & B", &[]), "<h2>A &amp; B</h2><ul></ul>");
    assert_eq!(
        followers_html(&[bob(Some("<Bob>")), bob(None)]),
        concat(&[
            "<h2>Followers</h2><ul>",
            r#"<li><a href="https://remote.example/?a=1&amp;b=&quot;2&quot;">&lt;Bob&gt;</a> <small>(<a href="https://remote.example/?a=1&amp;b=&quot;2&quot;" class="secondary">@bob@remote.example</a>)</small></li>"#,
            r#"<li><a href="https://remote.example/?a=1&amp;b=&quot;2&quot;" class="secondary">@bob@remote.example</a></li>"#,
            "</ul>",
        ])
    );
}

fn concat(parts: &[&str]) -> String {
    parts.concat()
}

#[test]
fn profiles_count_who_follows() {
    assert_eq!(
        profile_html("A < B", "alice", "@alice@blog.example", 2, 1),
        r#"
        <hgroup>
            <h1><a href="/users/alice">A &lt; B</a></h1>
            <p><span style="user-select: all;">@alice@blog.example</span> &middot; <a href="/users/alice/following">2 following</a> &middot; <a href="/users/alice/followers">1 follower</a></p>
        </hgroup>
        "#
    );
    assert!(profile_html("", "a", "", -1, 0).contains(">-1 following</a>"));
    assert!(profile_html("", "a", "", 0, 0).contains(">0 followers</a>"));
    assert!(profile_html("", "a", "", 0, 1234).contains(">1234 followers</a>"));
}

#[test]
fn the_public_home_shows_the_timeline() {
    let entries = [TimelinePost { post: post("<p>hi</p>"), author: bob(Some("<Bob>")) }];
    let expected = format!(
        r#"
        <hgroup>
            <h1>Alice &amp; Co's timeline</h1>
            <p><a href="/users/alice">View profile</a></p>
        </hgroup>
        <form method="post" action="/users/alice/following">
            <fieldset role="group">
                <input
                    type="url"
                    name="actor"
                    required
                    placeholder="https://example.com/users/alice"
                />
                <input type="submit" value="Follow" />
            </fieldset>
        </form>
        <h2>Timeline</h2>
        {BOBS_ARTICLE}
        "#
    );
    assert_eq!(public_home_html(&alice(), &entries), expected);
}

#[test]
fn the_composer_posts_for_the_account() {
    assert_eq!(
        post_form_html(&alice()),
        r#"
        <hgroup>
            <h1>New post</h1>
            <p><a href="/users/alice">View profile</a></p>
        </hgroup>
        <form method="post" action="/users/alice/posts">
            <fieldset>
                <label>
                    <textarea name="content" required placeholder="What's up?"></textarea>
                </label>
            </fieldset>
            <input type="submit" value="Post" />
        </form>
        "#
    );
}

#[test]
fn the_setup_form_asks_for_a_username_and_a_name() {
    assert_eq!(
        setup_form_html(),
        r#"
    <h1>Set up your microblog</h1>
    <form method="post" action="/setup">
        <fieldset>
            <label>
                Username
                <input
                    type="text"
                    name="username"
                    required
                    maxlength="50"
                    pattern="^[a-z0-9_-]+$"
                />
            </label>
            <label>
                Name
                <input type="text" name="name" required />
            </label>
        </fieldset>
        <input type="submit" value="Setup" />
    </form>
    "#
    );
}

#[test]
fn bodies_stand_in_a_page() {
    assert_eq!(
        layout("<p>body</p>"),
        r#"<!doctype html>
<html lang="en">
<head>
    <meta charset="utf-8" />
    <meta name="viewport" content="width=device-width, initial-scale=1" />
    <meta name="color-scheme" content="light dark" />
    <title>Microblog</title>
    <link rel="stylesheet" href="https://cdn.jsdelivr.net/npm/@picocss/pico@2/css/pico.min.css" />
</head>
<body>
    <main class="container"><p>body</p></main>
</body>
</html>"#
    );
}

fn tags(html: &str) -> String {
    html.chars().filter(|c| *c == '<' || *c == '>').collect()
}

#[test]
fn what_pages_show_changes_no_tag() {
    let strange = || ActorProfile {
        uri: "\"><b>".to_string(),
        name: Some("<i>&</i>".to_string()),
        handle: "<".to_string(),
    };
    let mut dated = post("<p>hi</p>");
    dated.created = "<br>".to_string();
    assert_eq!(tags(&post_html_with_author(&dated, &strange())), tags(BOBS_ARTICLE));
    assert_eq!(
        tags(&followers_html(&[strange()])),
        tags(&followers_html(&[bob(Some("Bob"))]))
    );
    assert_eq!(
        tags(&profile_html("<", ">", "<>", i64::MIN, 0)),
        tags(&profile_html("Alice", "alice", "@alice@blog.example", 1, 1))
    );
}

#[test]
fn pages_date_posts_as_their_notes() {
    let html = post_html(&post("x"), &alice());
    let published = post_timestamp("2024-01-02 03:04:05");
    assert!(html.contains(&format!("datetime=\"{published}\"")));
}

#[test]
fn different_names_are_shown_differently() {
    let shown = |name: &str| profile_html(name, "alice", "", 0, 0);
    assert_ne!(shown("<"), shown("&lt;"));
    assert_ne!(shown("&"), shown("&amp;"));
    assert_eq!(shown("\"quoted\"").matches("\"quoted\"").count(), 1);
}

#[test]
fn a_list_has_one_item_per_actor() {
    let strange = || ActorProfile {
        uri: "<li>".to_string(),
        name: Some("<li><li>".to_string()),
        handle: "<li".to_string(),
    };
    let html = actor_list_html("<li>", &[strange(), bob(None), strange()]);
    assert_eq!(html.matches("<li>").count(), 3);
}
