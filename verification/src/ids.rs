//! The identifier scheme: canonical, dereferenceable URIs for actors,
//! activities, objects and permalinks, derived deterministically from the
//! configured hostname and the domain entities.

use vstd::prelude::*;
use vstd::string::*;
use crate::text::{dec_of, slug_of, slugify, u64_to_dec_string};

verus! {

/// The canonical actor URI: `{hostname}/users/{name}`.
pub open spec fn actor_uri(host: Seq<char>, name: Seq<char>) -> Seq<char> {
    host + "/users/"@ + name
}

/// The actor's inbox URI: the actor URI with `/inbox` appended.
pub open spec fn inbox_uri(host: Seq<char>, name: Seq<char>) -> Seq<char> {
    actor_uri(host, name) + "/inbox"@
}

/// The actor's outbox URI: the actor URI with `/outbox` appended.
pub open spec fn outbox_uri(host: Seq<char>, name: Seq<char>) -> Seq<char> {
    actor_uri(host, name) + "/outbox"@
}

/// The actor's following-collection URI: the actor URI with `/following`
/// appended.
pub open spec fn following_uri(host: Seq<char>, name: Seq<char>) -> Seq<char> {
    actor_uri(host, name) + "/following"@
}

/// The actor's followers-collection URI: the actor URI with `/followers`
/// appended.
pub open spec fn followers_uri(host: Seq<char>, name: Seq<char>) -> Seq<char> {
    actor_uri(host, name) + "/followers"@
}

/// The canonical Note (object) URI:
/// `{hostname}/users/{name}/statuses/{ts}`, where `ts` is the post's
/// publication instant in integer seconds since the epoch.
pub open spec fn note_uri(host: Seq<char>, name: Seq<char>, ts: nat) -> Seq<char> {
    actor_uri(host, name) + "/statuses/"@ + dec_of(ts)
}

/// The Create (activity) URI: the Note URI with `/activity` appended.
pub open spec fn activity_uri(host: Seq<char>, name: Seq<char>, ts: nat) -> Seq<char> {
    note_uri(host, name, ts) + "/activity"@
}

/// The human-facing permalink of a post: `{hostname}/blog/{slug}`.
pub open spec fn permalink_uri(host: Seq<char>, title: Seq<char>) -> Seq<char> {
    host + "/blog/"@ + slug_of(title)
}

/// Builds the actor URI.
pub fn build_actor_uri(host: &str, name: &str) -> (r: String)
    ensures
        r@ == actor_uri(host@, name@),
{
    let mut s = String::from_str(host);
    s.append("/users/");
    s.append(name);
    s
}

/// Builds the actor's inbox URI.
pub fn build_inbox_uri(host: &str, name: &str) -> (r: String)
    ensures
        r@ == inbox_uri(host@, name@),
{
    let mut s = build_actor_uri(host, name);
    s.append("/inbox");
    s
}

/// Builds the actor's outbox URI.
pub fn build_outbox_uri(host: &str, name: &str) -> (r: String)
    ensures
        r@ == outbox_uri(host@, name@),
{
    let mut s = build_actor_uri(host, name);
    s.append("/outbox");
    s
}

/// Builds the actor's following-collection URI.
pub fn build_following_uri(host: &str, name: &str) -> (r: String)
    ensures
        r@ == following_uri(host@, name@),
{
    let mut s = build_actor_uri(host, name);
    s.append("/following");
    s
}

/// Builds the actor's followers-collection URI.
pub fn build_followers_uri(host: &str, name: &str) -> (r: String)
    ensures
        r@ == followers_uri(host@, name@),
{
    let mut s = build_actor_uri(host, name);
    s.append("/followers");
    s
}

/// Builds the Note URI for a post published at `ts` seconds since the
/// epoch.
pub fn build_note_uri(host: &str, name: &str, ts: u64) -> (r: String)
    ensures
        r@ == note_uri(host@, name@, ts as nat),
{
    let mut s = build_actor_uri(host, name);
    s.append("/statuses/");
    let digits = u64_to_dec_string(ts);
    s.append(digits.as_str());
    s
}

/// Builds the Create activity URI for a post published at `ts` seconds
/// since the epoch.
pub fn build_activity_uri(host: &str, name: &str, ts: u64) -> (r: String)
    ensures
        r@ == activity_uri(host@, name@, ts as nat),
{
    let mut s = build_note_uri(host, name, ts);
    s.append("/activity");
    s
}

/// Builds the permalink of a post from its title.
pub fn build_permalink_uri(host: &str, title: &str) -> (r: String)
    ensures
        r@ == permalink_uri(host@, title@),
{
    let mut s = String::from_str(host);
    s.append("/blog/");
    let slug = slugify(title);
    s.append(slug.as_str());
    s
}

/// A sequence is a prefix of itself followed by anything.
proof fn lemma_concat_prefix(a: Seq<char>, b: Seq<char>)
    ensures
        a.is_prefix_of(a + b),
{
    assert((a + b).subrange(0, a.len() as int) =~= a);
}

/// All five actor-document URIs of one actor share the actor URI
/// `{hostname}/users/{name}` as a common prefix, each extends it by its
/// own well-known suffix, and the five are pairwise distinct.
pub proof fn lemma_actor_uris_share_prefix(host: Seq<char>, name: Seq<char>)
    ensures
        inbox_uri(host, name) == actor_uri(host, name) + "/inbox"@,
        outbox_uri(host, name) == actor_uri(host, name) + "/outbox"@,
        following_uri(host, name) == actor_uri(host, name) + "/following"@,
        followers_uri(host, name) == actor_uri(host, name) + "/followers"@,
        actor_uri(host, name).is_prefix_of(inbox_uri(host, name)),
        actor_uri(host, name).is_prefix_of(outbox_uri(host, name)),
        actor_uri(host, name).is_prefix_of(following_uri(host, name)),
        actor_uri(host, name).is_prefix_of(followers_uri(host, name)),
        actor_uri(host, name) != inbox_uri(host, name),
        actor_uri(host, name) != outbox_uri(host, name),
        actor_uri(host, name) != following_uri(host, name),
        actor_uri(host, name) != followers_uri(host, name),
        inbox_uri(host, name) != outbox_uri(host, name),
        inbox_uri(host, name) != following_uri(host, name),
        inbox_uri(host, name) != followers_uri(host, name),
        outbox_uri(host, name) != following_uri(host, name),
        outbox_uri(host, name) != followers_uri(host, name),
        following_uri(host, name) != followers_uri(host, name),
{
    reveal_strlit("/inbox");
    reveal_strlit("/outbox");
    reveal_strlit("/following");
    reveal_strlit("/followers");
    let a = actor_uri(host, name);
    lemma_concat_prefix(a, "/inbox"@);
    lemma_concat_prefix(a, "/outbox"@);
    lemma_concat_prefix(a, "/following"@);
    lemma_concat_prefix(a, "/followers"@);
    assert(following_uri(host, name) != followers_uri(host, name)) by {
        assert(following_uri(host, name)[a.len() as int + 7] == 'i');
        assert(followers_uri(host, name)[a.len() as int + 7] == 'e');
    }
}

/// The Note id and the Create id derived from the same post embed the
/// identical timestamp integer, rendered in decimal, and differ only in
/// the trailing `/activity` suffix of the Create id.
pub proof fn lemma_note_and_activity_ids(host: Seq<char>, name: Seq<char>, ts: nat)
    ensures
        activity_uri(host, name, ts) == note_uri(host, name, ts) + "/activity"@,
        note_uri(host, name, ts) == actor_uri(host, name) + "/statuses/"@ + dec_of(ts),
        note_uri(host, name, ts).is_prefix_of(activity_uri(host, name, ts)),
{
    lemma_concat_prefix(note_uri(host, name, ts), "/activity"@);
}

} // verus!
