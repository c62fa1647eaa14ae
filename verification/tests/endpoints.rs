//! End-to-end checks of the three read endpoints against a small
//! in-memory blog.

use fediblog::endpoints::{get_actor, get_outbox, webfinger};
use fediblog::model::{Author, Blog, Error, Post, WebfingerQuery};

const HOST: &str = "http://localhost:3000";

fn sample_blog() -> Blog {
    Blog {
        hostname: HOST.to_string(),
        authors: vec![Author {
            name: "astavie".to_string(),
            display_name: "Astavie".to_string(),
            followers: vec![],
        }],
        posts: vec![Post {
            author: "astavie".to_string(),
            published: 1700000000,
            title: "Initial post".to_string(),
            content: "Hello, Fediverse!".to_string(),
        }],
    }
}

#[test]
fn actor_uris_share_prefix_and_suffixes() {
    let blog = sample_blog();
    let person = get_actor(&blog, "astavie").unwrap();
    assert_eq!(person.id, "http://localhost:3000/users/astavie");
    assert_eq!(person.inbox, "http://localhost:3000/users/astavie/inbox");
    assert_eq!(person.outbox, "http://localhost:3000/users/astavie/outbox");
    assert_eq!(
        person.following,
        "http://localhost:3000/users/astavie/following"
    );
    assert_eq!(
        person.followers,
        "http://localhost:3000/users/astavie/followers"
    );
    assert!(person.inbox.starts_with(&person.id));
    assert!(person.outbox.starts_with(&person.id));
    assert!(person.following.starts_with(&person.id));
    assert!(person.followers.starts_with(&person.id));
}

#[test]
fn scenario_known_author_profile() {
    let blog = sample_blog();
    let person = get_actor(&blog, "astavie").unwrap();
    assert_eq!(person.preferred_username, "astavie");
    assert_eq!(person.name, "Astavie");
}

#[test]
fn scenario_outbox_with_one_post() {
    let blog = sample_blog();
    let outbox = get_outbox(&blog, "astavie").unwrap();
    assert_eq!(outbox.total_items, 1);
    assert_eq!(outbox.ordered_items.len(), 1);
    let create = &outbox.ordered_items[0];
    assert_eq!(
        create.object.url,
        "http://localhost:3000/blog/initial-post"
    );
}

#[test]
fn scenario_unknown_author_not_found() {
    let blog = sample_blog();
    assert!(matches!(get_actor(&blog, "nobody"), Err(Error::NotFound)));
}

#[test]
fn unknown_author_never_internal() {
    let blog = sample_blog();
    assert!(matches!(get_actor(&blog, "ghost"), Err(Error::NotFound)));
    assert!(matches!(get_outbox(&blog, "ghost"), Err(Error::NotFound)));
    let query = WebfingerQuery {
        resource: "acct:ghost@localhost:3000".to_string(),
    };
    assert!(matches!(
        webfinger(&blog, &query, "ghost"),
        Err(Error::NotFound)
    ));
}

#[test]
fn outbox_counts_match_owned_posts() {
    let mut blog = sample_blog();
    blog.authors.push(Author {
        name: "other".to_string(),
        display_name: "Other".to_string(),
        followers: vec![],
    });
    blog.posts.push(Post {
        author: "other".to_string(),
        published: 1700000001,
        title: "Not hers".to_string(),
        content: "x".to_string(),
    });
    blog.posts.push(Post {
        author: "astavie".to_string(),
        published: 1700000002,
        title: "Second post".to_string(),
        content: "More text".to_string(),
    });
    let outbox = get_outbox(&blog, "astavie").unwrap();
    assert_eq!(outbox.total_items, 2);
    assert_eq!(outbox.ordered_items.len(), 2);
    // Storage order is preserved.
    assert!(outbox.ordered_items[0].id.contains("1700000000"));
    assert!(outbox.ordered_items[1].id.contains("1700000002"));
    let other = get_outbox(&blog, "other").unwrap();
    assert_eq!(other.total_items, 1);
}

#[test]
fn outbox_of_author_with_no_posts_is_empty() {
    let mut blog = sample_blog();
    blog.authors.push(Author {
        name: "quiet".to_string(),
        display_name: "Quiet".to_string(),
        followers: vec![],
    });
    let outbox = get_outbox(&blog, "quiet").unwrap();
    assert_eq!(outbox.total_items, 0);
    assert!(outbox.ordered_items.is_empty());
}

#[test]
fn malformed_hostname_yields_internal() {
    let mut blog = sample_blog();
    blog.hostname = "not a url".to_string();
    assert!(matches!(
        get_actor(&blog, "astavie"),
        Err(Error::Internal(_))
    ));
    assert!(matches!(
        get_outbox(&blog, "astavie"),
        Err(Error::Internal(_))
    ));
}

#[test]
fn webfinger_binds_resource_to_actor_id() {
    let blog = sample_blog();
    let query = WebfingerQuery {
        resource: "acct:astavie@localhost:3000".to_string(),
    };
    let binding = webfinger(&blog, &query, "astavie").unwrap();
    let person = get_actor(&blog, "astavie").unwrap();
    assert_eq!(binding.subject, "acct:astavie@localhost:3000");
    assert_eq!(binding.actor_id, person.id);
}

#[test]
fn webfinger_name_extraction_roundtrip() {
    // The collaborator's extraction rule feeds this core; check the two
    // compose: acct:astavie@{domain} resolves to astavie's actor id.
    let rt = tokio::runtime::Runtime::new().unwrap();
    let extracted = rt.block_on(async {
        let config = activitypub_federation::config::FederationConfig::builder()
            .domain("localhost:3000")
            .app_data(())
            .build()
            .await
            .unwrap();
        let data = config.to_request_data();
        activitypub_federation::fetch::webfinger::extract_webfinger_name(
            "acct:astavie@localhost:3000",
            &data,
        )
        .unwrap()
    });
    assert_eq!(extracted, "astavie");
    let blog = sample_blog();
    let query = WebfingerQuery {
        resource: "acct:astavie@localhost:3000".to_string(),
    };
    let binding = webfinger(&blog, &query, &extracted).unwrap();
    assert_eq!(binding.actor_id, "http://localhost:3000/users/astavie");
}
