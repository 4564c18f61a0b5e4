use crate::text::{opt_text, owned};
use vstd::prelude::*;

verus! {

/// The kind of medium behind a storage backend.
#[derive(Debug, Clone, Copy, PartialEq, Eq, Structural)]
pub enum StorageType {
    /// The local file system.
    Local,
    /// An S3-compatible object store.
    S3,
}

impl Default for StorageType {
    fn default() -> (r: StorageType)
        ensures
            r == StorageType::Local,
    {
        StorageType::Local
    }
}

/// How a storage backend is set up.
#[derive(Debug, Clone)]
pub struct StorageConfig {
    /// The kind of medium.
    pub storage_type: StorageType,
    /// The backend's identifier; one is drawn at start where none is given.
    pub id: Option<String>,
    /// Where new projects are placed unless the caller says otherwise.
    pub default_projects_path: Option<String>,
    /// Whether entries whose name begins with a dot are listed.
    pub show_hidden: bool,
    /// The object store's endpoint.
    pub s3_endpoint: Option<String>,
    /// The object store's region.
    pub s3_region: Option<String>,
    /// The access key for the object store.
    pub s3_access_key: Option<String>,
    /// The secret key for the object store.
    pub s3_secret_key: Option<String>,
    /// The bucket used unless the caller says otherwise.
    pub s3_bucket: Option<String>,
}

/// A [`StorageConfig`] as a mathematical value.
pub struct StorageConfigView {
    pub storage_type: StorageType,
    pub id: Option<Seq<char>>,
    pub default_projects_path: Option<Seq<char>>,
    pub show_hidden: bool,
    pub s3_endpoint: Option<Seq<char>>,
    pub s3_region: Option<Seq<char>>,
    pub s3_access_key: Option<Seq<char>>,
    pub s3_secret_key: Option<Seq<char>>,
    pub s3_bucket: Option<Seq<char>>,
}

impl View for StorageConfig {
    type V = StorageConfigView;

    open spec fn view(&self) -> StorageConfigView {
        StorageConfigView {
            storage_type: self.storage_type,
            id: opt_text(self.id),
            default_projects_path: opt_text(self.default_projects_path),
            show_hidden: self.show_hidden,
            s3_endpoint: opt_text(self.s3_endpoint),
            s3_region: opt_text(self.s3_region),
            s3_access_key: opt_text(self.s3_access_key),
            s3_secret_key: opt_text(self.s3_secret_key),
            s3_bucket: opt_text(self.s3_bucket),
        }
    }
}

/// The configuration in which nothing is set: the local file system, hidden
/// entries not shown.
pub open spec fn default_config() -> StorageConfigView {
    StorageConfigView {
        storage_type: StorageType::Local,
        id: None,
        default_projects_path: None,
        show_hidden: false,
        s3_endpoint: None,
        s3_region: None,
        s3_access_key: None,
        s3_secret_key: None,
        s3_bucket: None,
    }
}

/// The configuration for a MinIO server: an object store in the region
/// `us-east-1`, with the given endpoint, keys and bucket.
pub open spec fn minio_config(
    endpoint: Seq<char>,
    access_key: Seq<char>,
    secret_key: Seq<char>,
    bucket: Seq<char>,
) -> StorageConfigView {
    StorageConfigView {
        storage_type: StorageType::S3,
        s3_endpoint: Some(endpoint),
        s3_region: Some("us-east-1"@),
        s3_access_key: Some(access_key),
        s3_secret_key: Some(secret_key),
        s3_bucket: Some(bucket),
        ..default_config()
    }
}

impl Default for StorageConfig {
    fn default() -> (r: StorageConfig)
        ensures
            r@ == default_config(),
    {
        StorageConfig {
            storage_type: StorageType::Local,
            id: None,
            default_projects_path: None,
            show_hidden: false,
            s3_endpoint: None,
            s3_region: None,
            s3_access_key: None,
            s3_secret_key: None,
            s3_bucket: None,
        }
    }
}

impl StorageConfig {
    /// The configuration for the local file system.
    pub fn local() -> (r: StorageConfig)
        ensures
            r@ == default_config(),
    {
        StorageConfig {
            storage_type: StorageType::Local,
            id: None,
            default_projects_path: None,
            show_hidden: false,
            s3_endpoint: None,
            s3_region: None,
            s3_access_key: None,
            s3_secret_key: None,
            s3_bucket: None,
        }
    }

    /// The configuration for a MinIO server.
    pub fn minio(endpoint: &str, access_key: &str, secret_key: &str, bucket: &str) -> (r:
        StorageConfig)
        ensures
            r@ == minio_config(endpoint@, access_key@, secret_key@, bucket@),
    {
        StorageConfig {
            storage_type: StorageType::S3,
            id: None,
            default_projects_path: None,
            show_hidden: false,
            s3_endpoint: Some(owned(endpoint)),
            s3_region: Some(owned("us-east-1")),
            s3_access_key: Some(owned(access_key)),
            s3_secret_key: Some(owned(secret_key)),
            s3_bucket: Some(owned(bucket)),
        }
    }
}

} // verus!
