//! The object translator: pure mapping from domain entities to
//! ActivityStreams documents. A `Post` becomes a `Create` activity
//! wrapping a `Note`; an `Author` becomes a `Person` actor.

use vstd::prelude::*;
use vstd::string::*;
use crate::ids::{
    activity_uri, actor_uri, build_activity_uri, build_actor_uri, build_followers_uri,
    build_following_uri, build_inbox_uri, build_note_uri, build_outbox_uri, build_permalink_uri,
    followers_uri, following_uri, inbox_uri, note_uri, outbox_uri, permalink_uri,
};
use crate::model::{Author, Error, Post};
use crate::text::{note_content, note_content_of};

verus! {

/// Whether `url::Url::parse` accepts a text; it depends on the text alone.
pub uninterp spec fn url_ok(s: Seq<char>) -> bool;

/// Relies on `url::Url::parse`: `Ok` exactly when the text parses as a
/// URL. The `Err` payload is the parse error's description.
#[verifier::external_body]
fn check_url(s: &str) -> (r: Result<(), String>)
    ensures
        r is Ok <==> url_ok(s@),
{
    match url::Url::parse(s) {
        Ok(_) => Ok(()),
        Err(e) => Err(e.to_string()),
    }
}

/// What `ts` seconds since the Unix epoch render to as
/// `YYYY-MM-DDTHH:MM:SSZ` (UTC, second precision).
pub uninterp spec fn rfc3339_utc_of(ts: nat) -> Seq<char>;

/// The last instant this core will format: 9999-12-31T23:59:59 UTC.
pub const MAX_TIMESTAMP: u64 = 253402300799;

/// Relies on `chrono::DateTime::<Utc>::from_timestamp` and
/// `DateTime::format` with `%Y-%m-%dT%H:%M:%SZ`: for seconds within
/// `MAX_TIMESTAMP` the conversion succeeds, and the rendered text depends
/// on the seconds alone.
#[verifier::external_body]
fn format_timestamp(ts: u64) -> (r: String)
    requires
        ts <= MAX_TIMESTAMP,
    ensures
        r@ == rfc3339_utc_of(ts as nat),
{
    let dt = chrono::DateTime::<chrono::Utc>::from_timestamp(ts as i64, 0)
        .expect("timestamp within range");
    dt.format("%Y-%m-%dT%H:%M:%SZ").to_string()
}

/// The reserved URI that addresses an activity to everyone in the
/// federation.
pub open spec fn public_iri() -> Seq<char> {
    "https://www.w3.org/ns/activitystreams#Public"@
}

/// Relies on `activitypub_federation::kinds::public`: it returns the
/// fixed ActivityStreams public-addressing IRI.
#[verifier::external_body]
fn public_sentinel() -> (r: String)
    ensures
        r@ == public_iri(),
{
    String::from(activitypub_federation::kinds::public())
}

/// A `Person` actor document. The protocol type tag (`type: Person`) and
/// the `@context` envelope are affixed at the serialization boundary.
#[derive(Debug, Clone)]
pub struct Person {
    pub id: String,
    pub preferred_username: String,
    pub name: String,
    pub inbox: String,
    pub outbox: String,
    pub following: String,
    pub followers: String,
}

/// A `Note` object: the content payload of a post's activity.
#[derive(Debug, Clone)]
pub struct Note {
    pub id: String,
    pub published: String,
    pub url: String,
    pub to: Vec<String>,
    pub cc: Vec<String>,
    pub content: String,
}

/// A `Create` activity wrapping the `Note` for one post.
#[derive(Debug, Clone)]
pub struct Create {
    pub id: String,
    pub published: String,
    pub to: Vec<String>,
    pub cc: Vec<String>,
    pub object: Note,
}

/// Whether every URI of the actor document for `name` under `host`
/// parses as a URL.
pub open spec fn author_uris_ok(host: Seq<char>, name: Seq<char>) -> bool {
    &&& url_ok(actor_uri(host, name))
    &&& url_ok(inbox_uri(host, name))
    &&& url_ok(outbox_uri(host, name))
    &&& url_ok(following_uri(host, name))
    &&& url_ok(followers_uri(host, name))
}

/// What a correct actor document for `a` under `host` holds.
pub open spec fn person_ok(p: Person, host: Seq<char>, a: Author) -> bool {
    &&& p.id@ == actor_uri(host, a.name@)
    &&& p.preferred_username@ == a.name@
    &&& p.name@ == a.display_name@
    &&& p.inbox@ == inbox_uri(host, a.name@)
    &&& p.outbox@ == outbox_uri(host, a.name@)
    &&& p.following@ == following_uri(host, a.name@)
    &&& p.followers@ == followers_uri(host, a.name@)
}

/// Whether a post can be translated under `host`: its timestamp is
/// formattable and every derived URI parses as a URL.
pub open spec fn post_translatable(host: Seq<char>, p: Post) -> bool {
    &&& p.published <= MAX_TIMESTAMP
    &&& url_ok(followers_uri(host, p.author@))
    &&& url_ok(activity_uri(host, p.author@, p.published as nat))
    &&& url_ok(note_uri(host, p.author@, p.published as nat))
    &&& url_ok(permalink_uri(host, p.title@))
}

/// What a correct `Note` object for post `p` under `host` holds: the
/// canonical statuses URI as id, the formatted publication instant, the
/// slug permalink, the fixed followers-plus-public audience, and the
/// title/separator/body content.
pub open spec fn note_ok(n: Note, host: Seq<char>, p: Post) -> bool {
    &&& n.id@ == note_uri(host, p.author@, p.published as nat)
    &&& n.published@ == rfc3339_utc_of(p.published as nat)
    &&& n.url@ == permalink_uri(host, p.title@)
    &&& n.to@.len() == 1 && n.to@[0]@ == followers_uri(host, p.author@)
    &&& n.cc@.len() == 1 && n.cc@[0]@ == public_iri()
    &&& n.content@ == note_content_of(p.title@, p.content@)
}

/// What a correct `Create` activity for post `p` under `host` holds: the
/// canonical activity URI as id, the same publication instant and
/// audience as its object, and a correct `Note` inside.
pub open spec fn create_ok(c: Create, host: Seq<char>, p: Post) -> bool {
    &&& c.id@ == activity_uri(host, p.author@, p.published as nat)
    &&& c.published@ == rfc3339_utc_of(p.published as nat)
    &&& c.to@.len() == 1 && c.to@[0]@ == followers_uri(host, p.author@)
    &&& c.cc@.len() == 1 && c.cc@[0]@ == public_iri()
    &&& note_ok(c.object, host, p)
}

/// Translates an author into its `Person` actor document.
pub fn translate_author(author: &Author, hostname: &str) -> (r: Result<Person, Error>)
    ensures
        r is Ok <==> author_uris_ok(hostname@, author.name@),
        r is Ok ==> person_ok(r->Ok_0, hostname@, *author),
        r is Err ==> r->Err_0 is Internal,
{
    let id = build_actor_uri(hostname, author.name.as_str());
    if let Err(e) = check_url(id.as_str()) {
        return Err(Error::Internal(e));
    }
    let inbox = build_inbox_uri(hostname, author.name.as_str());
    if let Err(e) = check_url(inbox.as_str()) {
        return Err(Error::Internal(e));
    }
    let outbox = build_outbox_uri(hostname, author.name.as_str());
    if let Err(e) = check_url(outbox.as_str()) {
        return Err(Error::Internal(e));
    }
    let following = build_following_uri(hostname, author.name.as_str());
    if let Err(e) = check_url(following.as_str()) {
        return Err(Error::Internal(e));
    }
    let followers = build_followers_uri(hostname, author.name.as_str());
    if let Err(e) = check_url(followers.as_str()) {
        return Err(Error::Internal(e));
    }
    Ok(Person {
        id,
        preferred_username: author.name.clone(),
        name: author.display_name.clone(),
        inbox,
        outbox,
        following,
        followers,
    })
}

/// Translates a post into a `Create` activity wrapping its `Note`.
pub fn translate_post(post: &Post, hostname: &str) -> (r: Result<Create, Error>)
    ensures
        r is Ok <==> post_translatable(hostname@, *post),
        r is Ok ==> create_ok(r->Ok_0, hostname@, *post),
        r is Err ==> r->Err_0 is Internal,
{
    if post.published > MAX_TIMESTAMP {
        return Err(Error::Internal(String::from_str("publication instant out of range")));
    }
    let published = format_timestamp(post.published);
    let followers = build_followers_uri(hostname, post.author.as_str());
    if let Err(e) = check_url(followers.as_str()) {
        return Err(Error::Internal(e));
    }
    let activity_id = build_activity_uri(hostname, post.author.as_str(), post.published);
    if let Err(e) = check_url(activity_id.as_str()) {
        return Err(Error::Internal(e));
    }
    let note_id = build_note_uri(hostname, post.author.as_str(), post.published);
    if let Err(e) = check_url(note_id.as_str()) {
        return Err(Error::Internal(e));
    }
    let permalink = build_permalink_uri(hostname, post.title.as_str());
    if let Err(e) = check_url(permalink.as_str()) {
        return Err(Error::Internal(e));
    }
    let sentinel = public_sentinel();
    let mut to_create: Vec<String> = Vec::new();
    to_create.push(followers.clone());
    let mut cc_create: Vec<String> = Vec::new();
    cc_create.push(sentinel.clone());
    let mut to_note: Vec<String> = Vec::new();
    to_note.push(followers);
    let mut cc_note: Vec<String> = Vec::new();
    cc_note.push(sentinel);
    Ok(Create {
        id: activity_id,
        published: published.clone(),
        to: to_create,
        cc: cc_create,
        object: Note {
            id: note_id,
            published,
            url: permalink,
            to: to_note,
            cc: cc_note,
            content: note_content(post.title.as_str(), post.content.as_str()),
        },
    })
}

/// Translation is deterministic: the contract of `translate_post` pins
/// every rendered text of a successful result to functions of the post
/// and hostname alone, so any two results for the same input are
/// character-for-character identical.
pub proof fn lemma_translate_post_deterministic(c1: Create, c2: Create, host: Seq<char>, p: Post)
    requires
        create_ok(c1, host, p),
        create_ok(c2, host, p),
    ensures
        c1.id@ == c2.id@,
        c1.published@ == c2.published@,
        c1.to@[0]@ == c2.to@[0]@,
        c1.cc@[0]@ == c2.cc@[0]@,
        c1.object.id@ == c2.object.id@,
        c1.object.published@ == c2.object.published@,
        c1.object.url@ == c2.object.url@,
        c1.object.to@[0]@ == c2.object.to@[0]@,
        c1.object.cc@[0]@ == c2.object.cc@[0]@,
        c1.object.content@ == c2.object.content@,
{
}

} // verus!
