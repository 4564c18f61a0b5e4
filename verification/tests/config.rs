use director_gateway::storage::config::{StorageConfig, StorageType};
use director_gateway::storage::error::StorageError;
use director_gateway::storage::local::{create_provider, LocalStorageProvider};

#[test]
fn local_config_is_the_default() {
    let c = StorageConfig::local();
    assert_eq!(c.storage_type, StorageType::Local);
    assert!(c.id.is_none());
    assert!(c.default_projects_path.is_none());
    assert!(!c.show_hidden);
    assert!(c.s3_endpoint.is_none());
    assert!(c.s3_region.is_none());
    assert!(c.s3_access_key.is_none());
    assert!(c.s3_secret_key.is_none());
    assert!(c.s3_bucket.is_none());
}

#[test]
fn default_config_is_local_and_empty() {
    let c = StorageConfig::default();
    assert_eq!(c.storage_type, StorageType::Local);
    assert!(c.id.is_none());
    assert!(!c.show_hidden);
    assert_eq!(StorageType::default(), StorageType::Local);
}

#[test]
fn minio_config_names_endpoint_keys_and_bucket() {
    let c = StorageConfig::minio("http://localhost:9000", "access", "SECRET-REDACTED", "media");
    assert_eq!(c.storage_type, StorageType::S3);
    assert_eq!(c.s3_endpoint.as_deref(), Some("http://localhost:9000"));
    assert_eq!(c.s3_region.as_deref(), Some("us-east-1"));
    assert_eq!(c.s3_access_key.as_deref(), Some("access"));
    assert_eq!(c.s3_secret_key.as_deref(), Some("SECRET-REDACTED"));
    assert_eq!(c.s3_bucket.as_deref(), Some("media"));
    assert!(c.id.is_none());
    assert!(c.default_projects_path.is_none());
    assert!(!c.show_hidden);
}

#[test]
fn object_store_is_not_supported() {
    let c = StorageConfig::minio("http://localhost:9000", "a", "b", "c");
    match create_provider(&c, None) {
        Err(StorageError::NotSupported) => {}
        _ => panic!("an object store must be refused as not supported"),
    }
}

#[test]
fn local_provider_keeps_what_is_configured() {
    let mut c = StorageConfig::local();
    c.id = Some("store-1".to_string());
    c.default_projects_path = Some("/srv/projects".to_string());
    c.show_hidden = true;
    let p = create_provider(&c, None).expect("the local backend is supported");
    assert_eq!(p.id().as_str(), "store-1");
    assert_eq!(p.default_projects_path().as_str(), "/srv/projects");
    assert!(p.show_hidden());
}

#[test]
fn provider_draws_an_identifier_where_none_is_configured() {
    let c = StorageConfig::local();
    let a = LocalStorageProvider::new(&c, None).expect("always succeeds");
    let b = LocalStorageProvider::new(&c, None).expect("always succeeds");
    assert!(!a.id().is_empty());
    assert_ne!(a.id(), b.id());
    assert!(!a.default_projects_path().is_empty());
}

#[test]
fn provider_takes_the_directory_for_videos_from_the_caller() {
    let c = StorageConfig::local();
    let p = LocalStorageProvider::new(&c, Some("/home/u/Videos".to_string())).expect("always succeeds");
    assert_eq!(p.default_projects_path().as_str(), "/home/u/Videos");
    let mut c = StorageConfig::local();
    c.default_projects_path = Some("/data".to_string());
    let p = create_provider(&c, Some("/home/u/Videos".to_string())).expect("the local backend is supported");
    assert_eq!(p.default_projects_path().as_str(), "/data");
}

#[test]
fn drawn_identifier_has_the_form_of_a_random_identifier() {
    let c = StorageConfig::local();
    let p = LocalStorageProvider::new(&c, None).expect("always succeeds");
    let id = p.id().clone();
    assert_eq!(id.len(), 36);
    for (i, ch) in id.chars().enumerate() {
        if i == 8 || i == 13 || i == 18 || i == 23 {
            assert_eq!(ch, '-');
        } else {
            assert!(ch.is_ascii_digit() || ('a'..='f').contains(&ch));
        }
    }
    assert_eq!(id.chars().nth(14), Some('4'));
}

#[test]
fn provider_places_projects_by_the_environment() {
    let c = StorageConfig::local();
    let p = LocalStorageProvider::with_environment(
        &c,
        "drawn".to_string(),
        Some("/home/u/Videos".to_string()),
        Some("/home/u".to_string()),
    );
    assert_eq!(p.id().as_str(), "drawn");
    assert_eq!(p.default_projects_path().as_str(), "/home/u/Videos");

    let p = LocalStorageProvider::with_environment(
        &c,
        "drawn".to_string(),
        None,
        Some("/home/u".to_string()),
    );
    assert_eq!(p.default_projects_path().as_str(), "/home/u/Videos");

    let p = LocalStorageProvider::with_environment(&c, "drawn".to_string(), None, None);
    assert_eq!(p.default_projects_path().as_str(), "/tmp");

    let mut c = StorageConfig::local();
    c.id = Some("fixed".to_string());
    c.default_projects_path = Some("/data".to_string());
    let p = LocalStorageProvider::with_environment(
        &c,
        "drawn".to_string(),
        Some("/home/u/Videos".to_string()),
        None,
    );
    assert_eq!(p.id().as_str(), "fixed");
    assert_eq!(p.default_projects_path().as_str(), "/data");
}
