use adot::{prepare_post, AdotError, EnvVar, MICROBLOG_COLLECTION};

#[test]
fn post_keeps_content_and_stamps_time() {
    let (config, post) = prepare_post("hello there".to_string(), Some("p".to_string()), Some("c".to_string())).unwrap();
    assert_eq!(config.project_id, "p");
    assert_eq!(config.credentials_path, "c");
    assert_eq!(post.content, "hello there");
    assert_eq!(post.id.len(), 36);
    assert_eq!(&post.id[14..15], "4");
    assert!(post.id.chars().all(|c| c == '-' || c.is_ascii_digit() || ('a'..='f').contains(&c)));
    assert!(post.posted_at.ends_with("+00:00"));
    assert_eq!(MICROBLOG_COLLECTION, "microblog");
}

#[test]
fn two_posts_get_distinct_ids() {
    let (_, a) = prepare_post("same".to_string(), Some("p".to_string()), Some("c".to_string())).unwrap();
    let (_, b) = prepare_post("same".to_string(), Some("p".to_string()), Some("c".to_string())).unwrap();
    assert_eq!(a.content, b.content);
    assert_ne!(a.id, b.id);
}

#[test]
fn post_needs_store_settings() {
    let e = prepare_post("x".to_string(), None, Some("c".to_string())).unwrap_err();
    assert_eq!(e, AdotError::MissingConfig { var: EnvVar::ProjectId });
    let e = prepare_post("x".to_string(), Some("p".to_string()), None).unwrap_err();
    assert_eq!(e, AdotError::MissingConfig { var: EnvVar::Credentials });
}
