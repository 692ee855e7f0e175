# Federog

Federog is a small single-user microblog that federates over ActivityPub. This
crate holds its rules, written in Verus: what the pages say, which requests are
admitted and how each is answered, and what is stored and delivered for them.
Every function states what it returns. All but the few that call other crates
(see below) are verified against that statement.

## Layout

- `src/text.rs`: text as sequences of characters
- `src/escape.rs`, `src/content.rs`: HTML escaping; the content and the time of
  a post
- `src/address.rs`: URLs, IRIs, the public origin and the identifiers under it
- `src/request.rs`: hosts, origins and content negotiation from headers
- `src/account.rs`, `src/actor.rs`: the account, remote actors and the local one
- `src/pages.rs`, `src/reading.rs`: the HTML, and the pages that read the store
- `src/setup.rs`, `src/posting.rs`, `src/following.rs`, `src/inbox.rs`: what
  setting up, posting, following and receiving do, step by step
- `src/json.rs`, `src/document.rs`: JSON documents; that of the local actor
- `src/startup.rs`: what the server publishes from the beginning
- `src/routes.rs`: what the public and the author's listener answer
- `app/`: the server around the library: listeners, SQLite, the Feder runtime
- `tests/`: the library on concrete values

Proof functions whose names begin with `law_` state what holds across
functions: that escaped text brings no markup into a page, that only notes of
followed authors are stored, that nobody posts at the public listener, and so
on.

## What is taken on trust

The functions marked `#[verifier::external_body]` call other crates
(`html-escape`, `url`, `feder-vocab`, `axum`'s headers, `serde_json`,
`ammonia`), and `src/text.rs` gives a specification to `String::push` of the
standard library. Their comments say what is claimed of each call.

## Running

The public listener binds to `0.0.0.0:3000`. Posting and account setup are
available only from the admin listener at `127.0.0.1:3001`. The public origin
is taken from `FEDEROG_PUBLIC_ORIGIN`.
