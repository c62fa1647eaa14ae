//! Checks of the object translator: Create/Note structure, timestamp
//! rendering, content layout, audience, and determinism.

use fediblog::model::{Author, Error, Post};
use fediblog::translate::{translate_author, translate_post, MAX_TIMESTAMP};

const HOST: &str = "https://example.org";

fn sample_post() -> Post {
    Post {
        author: "astavie".to_string(),
        published: 1700000000,
        title: "Initial post".to_string(),
        content: "Hello, Fediverse!".to_string(),
    }
}

#[test]
fn note_content_is_title_separator_body() {
    let create = translate_post(&sample_post(), HOST).unwrap();
    assert_eq!(create.object.content, "Initial post\n---\n\nHello, Fediverse!");
}

#[test]
fn translate_post_is_deterministic() {
    let post = sample_post();
    let a = translate_post(&post, HOST).unwrap();
    let b = translate_post(&post, HOST).unwrap();
    assert_eq!(a.id, b.id);
    assert_eq!(a.published, b.published);
    assert_eq!(a.to, b.to);
    assert_eq!(a.cc, b.cc);
    assert_eq!(a.object.id, b.object.id);
    assert_eq!(a.object.published, b.object.published);
    assert_eq!(a.object.url, b.object.url);
    assert_eq!(a.object.to, b.object.to);
    assert_eq!(a.object.cc, b.object.cc);
    assert_eq!(a.object.content, b.object.content);
}

#[test]
fn note_and_create_ids_differ_by_activity_suffix() {
    let create = translate_post(&sample_post(), HOST).unwrap();
    assert_eq!(
        create.object.id,
        "https://example.org/users/astavie/statuses/1700000000"
    );
    assert_eq!(create.id, format!("{}/activity", create.object.id));
    assert!(create.id.contains("1700000000"));
    assert!(create.object.id.contains("1700000000"));
}

#[test]
fn published_is_rendered_in_utc_second_precision() {
    let create = translate_post(&sample_post(), HOST).unwrap();
    assert_eq!(create.published, "2023-11-14T22:13:20Z");
    assert_eq!(create.object.published, "2023-11-14T22:13:20Z");
    let epoch = translate_post(
        &Post {
            published: 0,
            ..sample_post()
        },
        HOST,
    )
    .unwrap();
    assert_eq!(epoch.published, "1970-01-01T00:00:00Z");
}

#[test]
fn greatest_supported_instant_formats() {
    let last = translate_post(
        &Post {
            published: MAX_TIMESTAMP,
            ..sample_post()
        },
        HOST,
    )
    .unwrap();
    assert_eq!(last.published, "9999-12-31T23:59:59Z");
}

#[test]
fn instant_beyond_range_is_internal() {
    let r = translate_post(
        &Post {
            published: MAX_TIMESTAMP + 1,
            ..sample_post()
        },
        HOST,
    );
    assert!(matches!(r, Err(Error::Internal(_))));
}

#[test]
fn audience_is_followers_plus_public() {
    let create = translate_post(&sample_post(), HOST).unwrap();
    let followers = "https://example.org/users/astavie/followers";
    let public = "https://www.w3.org/ns/activitystreams#Public";
    assert_eq!(create.to, vec![followers.to_string()]);
    assert_eq!(create.cc, vec![public.to_string()]);
    assert_eq!(create.object.to, vec![followers.to_string()]);
    assert_eq!(create.object.cc, vec![public.to_string()]);
}

#[test]
fn permalink_uses_lowercased_hyphenated_slug() {
    let create = translate_post(
        &Post {
            title: "My GREAT Second Post".to_string(),
            ..sample_post()
        },
        HOST,
    )
    .unwrap();
    assert_eq!(
        create.object.url,
        "https://example.org/blog/my-great-second-post"
    );
}

#[test]
fn translate_author_fields() {
    let author = Author {
        name: "astavie".to_string(),
        display_name: "Astavie".to_string(),
        followers: vec![],
    };
    let person = translate_author(&author, HOST).unwrap();
    assert_eq!(person.id, "https://example.org/users/astavie");
    assert_eq!(person.preferred_username, "astavie");
    assert_eq!(person.name, "Astavie");
    assert_eq!(person.followers, "https://example.org/users/astavie/followers");
}

#[test]
fn empty_title_gives_bare_blog_permalink() {
    let create = translate_post(
        &Post {
            title: String::new(),
            ..sample_post()
        },
        HOST,
    )
    .unwrap();
    assert_eq!(create.object.url, "https://example.org/blog/");
    assert_eq!(create.object.content, "\n---\n\nHello, Fediverse!");
}

#[test]
fn malformed_hostname_is_internal_for_posts() {
    let r = translate_post(&sample_post(), "no scheme here");
    assert!(matches!(r, Err(Error::Internal(_))));
}
