//! The endpoint layer: the three read-only operations a federated peer
//! issues — actor profile, outbox collection, and WebFinger lookup. Each
//! resolves an author by exact name match and delegates to the object
//! translator; none mutates state.

use vstd::prelude::*;
use vstd::string::*;
use crate::ids::actor_uri;
use crate::model::{find_author, has_author, Blog, Error, Post, WebfingerQuery};
use crate::translate::{
    author_uris_ok, create_ok, person_ok, post_translatable, translate_author, translate_post,
    Create, Person,
};

verus! {

/// The posts owned by the author named `name`, in storage order.
pub open spec fn posts_by(posts: Seq<Post>, name: Seq<char>) -> Seq<Post> {
    posts.filter(|p: Post| p.author@ == name)
}

/// Whether every post of `posts` can be translated under `host`.
pub open spec fn all_translatable(host: Seq<char>, posts: Seq<Post>) -> bool {
    forall|i: int| 0 <= i < posts.len() ==> post_translatable(host, #[trigger] posts[i])
}

/// An `OrderedCollection` document: the whole matching set in one page.
/// The protocol type tag and `@context` envelope are affixed at the
/// serialization boundary.
#[derive(Debug, Clone)]
pub struct OrderedCollection<T> {
    pub total_items: usize,
    pub ordered_items: Vec<T>,
}

/// A WebFinger JRD binding: the queried `resource` string bound to the
/// actor's canonical id.
#[derive(Debug, Clone)]
pub struct WebfingerBinding {
    pub subject: String,
    pub actor_id: String,
}

/// Filtering one more post keeps the selection, extended by the post
/// exactly when its author matches.
proof fn lemma_posts_by_push(posts: Seq<Post>, p: Post, name: Seq<char>)
    ensures
        posts_by(posts.push(p), name) == if p.author@ == name {
            posts_by(posts, name).push(p)
        } else {
            posts_by(posts, name)
        },
{
    reveal(Seq::filter);
    assert(posts.push(p).drop_last() =~= posts);
    assert(posts.push(p).last() == p);
}

/// Serves `GET /users/{name}`: the actor profile document.
pub fn get_actor(blog: &Blog, name: &str) -> (r: Result<Person, Error>)
    ensures
        (r is Err && r->Err_0 is NotFound) <==> !has_author(blog.authors@, name@),
        r is Ok <==> has_author(blog.authors@, name@) && author_uris_ok(blog.hostname@, name@),
        r is Ok ==> exists|i: int|
            0 <= i < blog.authors@.len() && #[trigger] blog.authors@[i].name@ == name@ && person_ok(
                r->Ok_0,
                blog.hostname@,
                blog.authors@[i],
            ),
{
    match find_author(&blog.authors, name) {
        None => Err(Error::NotFound),
        Some(author) => translate_author(author, blog.hostname.as_str()),
    }
}

/// Serves `GET /users/{name}/outbox`: the ordered collection of the
/// author's posts, translated to `Create` activities in storage order,
/// with `total_items` equal to their count. A single failed translation
/// aborts the whole response.
pub fn get_outbox(blog: &Blog, name: &str) -> (r: Result<OrderedCollection<Create>, Error>)
    ensures
        (r is Err && r->Err_0 is NotFound) <==> !has_author(blog.authors@, name@),
        r is Ok <==> has_author(blog.authors@, name@) && all_translatable(
            blog.hostname@,
            posts_by(blog.posts@, name@),
        ),
        r is Ok ==> {
            &&& r->Ok_0.total_items == posts_by(blog.posts@, name@).len()
            &&& r->Ok_0.ordered_items@.len() == posts_by(blog.posts@, name@).len()
            &&& forall|i: int|
                0 <= i < posts_by(blog.posts@, name@).len() ==> create_ok(
                    #[trigger] r->Ok_0.ordered_items@[i],
                    blog.hostname@,
                    posts_by(blog.posts@, name@)[i],
                )
        },
{
    if find_author(&blog.authors, name).is_none() {
        return Err(Error::NotFound);
    }
    let wanted = String::from_str(name);
    let ghost all = blog.posts@;
    let mut items: Vec<Create> = Vec::new();
    let mut i: usize = 0;
    while i < blog.posts.len()
        invariant
            i <= all.len(),
            all == blog.posts@,
            wanted@ == name@,
            has_author(blog.authors@, name@),
            items@.len() == posts_by(all.take(i as int), name@).len(),
            all_translatable(blog.hostname@, posts_by(all.take(i as int), name@)),
            forall|j: int|
                0 <= j < items@.len() ==> create_ok(
                    #[trigger] items@[j],
                    blog.hostname@,
                    posts_by(all.take(i as int), name@)[j],
                ),
        decreases all.len() - i,
    {
        let p = &blog.posts[i];
        let ghost prev = posts_by(all.take(i as int), name@);
        proof {
            assert(all.take(i + 1 as int) =~= all.take(i as int).push(all[i as int]));
            lemma_posts_by_push(all.take(i as int), all[i as int], name@);
        }
        if p.author == wanted {
            match translate_post(p, blog.hostname.as_str()) {
                Ok(c) => {
                    items.push(c);
                    proof {
                        assert(posts_by(all.take(i + 1 as int), name@) == prev.push(*p));
                    }
                },
                Err(e) => {
                    proof {
                        let sel = posts_by(all, name@);
                        assert(all.take(all.len() as int) =~= all);
                        assert(sel.contains(all[i as int])) by {
                            all.lemma_filter_contains(|q: Post| q.author@ == name@, i as int);
                        }
                        let k = choose|k: int| 0 <= k < sel.len() && sel[k] == all[i as int];
                        assert(!post_translatable(blog.hostname@, sel[k]));
                    }
                    return Err(e);
                },
            }
        }
        i = i + 1;
    }
    proof {
        assert(all.take(all.len() as int) =~= all);
    }
    Ok(OrderedCollection { total_items: items.len(), ordered_items: items })
}

/// Serves `GET /.well-known/webfinger` once the collaborator has
/// extracted the bare author name from the `resource` parameter: binds
/// the original `resource` string to the actor's canonical id.
pub fn webfinger(blog: &Blog, query: &WebfingerQuery, name: &str) -> (r: Result<
    WebfingerBinding,
    Error,
>)
    ensures
        (r is Err && r->Err_0 is NotFound) <==> !has_author(blog.authors@, name@),
        r is Ok <==> has_author(blog.authors@, name@) && author_uris_ok(blog.hostname@, name@),
        r is Ok ==> r->Ok_0.subject@ == query.resource@ && r->Ok_0.actor_id@ == actor_uri(
            blog.hostname@,
            name@,
        ),
{
    match get_actor(blog, name) {
        Ok(person) => Ok(
            WebfingerBinding { subject: query.resource.clone(), actor_id: person.id },
        ),
        Err(e) => Err(e),
    }
}

} // verus!
