//! The domain model: authors and posts of one blog, read-only after
//! construction, together with the endpoint layer's failure taxonomy and
//! the author lookup.

use vstd::prelude::*;
use vstd::string::*;

verus! {

/// An author of the blog: one federated actor.
#[derive(Debug, Clone)]
pub struct Author {
    /// Unique short identifier, used in URIs (case-sensitive).
    pub name: String,
    /// Human-readable name shown in the actor profile.
    pub display_name: String,
    /// Follower actor URIs; populated by inbox-side logic outside this
    /// core and unused by the read endpoints.
    pub followers: Vec<String>,
}

/// One blog post, owned by the author whose `name` equals `author`.
#[derive(Debug, Clone)]
pub struct Post {
    /// The owning author's `name` (a logical foreign key).
    pub author: String,
    /// Publication instant, in integer seconds since the Unix epoch.
    pub published: u64,
    /// Display title; also the source of the permalink slug.
    pub title: String,
    /// Raw body text.
    pub content: String,
}

/// The whole domain model: the configured base hostname, the authors and
/// the posts, in storage order (assumed chronological by construction).
#[derive(Debug, Clone)]
pub struct Blog {
    pub hostname: String,
    pub authors: Vec<Author>,
    pub posts: Vec<Post>,
}

/// The query parameters of a WebFinger lookup request.
#[derive(Debug, Clone)]
pub struct WebfingerQuery {
    /// The `resource` parameter, conventionally `acct:name@domain`.
    pub resource: String,
}

/// The two failure kinds of this core.
#[derive(Debug, Clone)]
pub enum Error {
    /// The requested author name does not exist in the domain model.
    NotFound,
    /// A failure during URI construction or timestamp formatting,
    /// carrying the underlying cause's description.
    Internal(String),
}

/// Whether some author in `authors` bears the name `name`.
pub open spec fn has_author(authors: Seq<Author>, name: Seq<char>) -> bool {
    exists|i: int| 0 <= i < authors.len() && authors[i].name@ == name
}

/// A well-formed blog: author names are unique identifiers, and every
/// post's `author` resolves to an existing author.
pub open spec fn blog_wf(blog: Blog) -> bool {
    &&& forall|i: int, j: int|
        0 <= i < j < blog.authors@.len() ==> blog.authors@[i].name@ != blog.authors@[j].name@
    &&& forall|i: int|
        0 <= i < blog.posts@.len() ==> has_author(blog.authors@, #[trigger] blog.posts@[i].author@)
}

/// In a well-formed blog at most one author bears a given name, so the
/// author a known name resolves to — and with it the actor document the
/// endpoints derive — is uniquely determined.
pub proof fn lemma_wf_author_unique(blog: Blog, i: int, j: int)
    requires
        blog_wf(blog),
        0 <= i < blog.authors@.len(),
        0 <= j < blog.authors@.len(),
        blog.authors@[i].name@ == blog.authors@[j].name@,
    ensures
        i == j,
{
}

/// Resolves an author by exact name match; `None` exactly when no author
/// bears the name.
pub fn find_author<'a>(authors: &'a Vec<Author>, name: &str) -> (r: Option<&'a Author>)
    ensures
        r is Some <==> has_author(authors@, name@),
        r is Some ==> r->0.name@ == name@ && authors@.contains(*r->0),
{
    let wanted = String::from_str(name);
    let mut i: usize = 0;
    while i < authors.len()
        invariant
            i <= authors@.len(),
            wanted@ == name@,
            forall|j: int| 0 <= j < i ==> authors@[j].name@ != name@,
        decreases authors@.len() - i,
    {
        let a = &authors[i];
        if a.name == wanted {
            return Some(a);
        }
        i = i + 1;
    }
    None
}

} // verus!
