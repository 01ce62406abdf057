use celld_storage::bucket::client_options;
use celld_storage::settings::RetryLimits;
use celld_storage::storage_backend::AwsEnvironment;
use celld_storage::storage_backend::ObjectMeta;
use celld_storage::storage_backend::ObjectStorageConfig;
use celld_storage::storage_backend::PutResult;
use celld_storage::storage_backend::StaticCredentials;
use object_store::aws::AmazonS3Builder;
use object_store::aws::AmazonS3ConfigKey;

fn credentials(token: Option<&str>) -> StaticCredentials {
    StaticCredentials {
        access_key_id: "key".to_string(),
        secret_access_key: "secret".to_string(),
        session_token: token.map(|token| token.to_string()),
    }
}

fn environment(key: Option<&str>, secret: Option<&str>, token: Option<&str>) -> AwsEnvironment {
    AwsEnvironment {
        access_key_id: key.map(|text| text.to_string()),
        secret_access_key: secret.map(|text| text.to_string()),
        session_token: token.map(|text| text.to_string()),
    }
}

fn value(builder: &AmazonS3Builder, key: AmazonS3ConfigKey) -> Option<String> {
    builder.get_config_value(&key)
}

#[test]
fn parses_s3_and_bare_identically() {
    assert!(
        ObjectStorageConfig::from_bucket_uri("bucket", None, "r").unwrap()
            == ObjectStorageConfig::from_bucket_uri("s3://bucket", None, "r").unwrap()
    );
}

#[test]
fn maps_etag_version() {
    let storage = ObjectStorageConfig::from_bucket_uri("b", None, "r").unwrap();
    let update = storage.update_version("tag");
    assert_eq!(update.e_tag.as_deref(), Some("tag"));
    assert!(update.version.is_none());
}

#[test]
fn scheme_is_taken_off_wherever_it_leads() {
    let named = |uri: &str| {
        ObjectStorageConfig::from_bucket_uri(uri, None, "r").unwrap().bucket().to_string()
    };
    assert_eq!(named("s3://s3://bucket"), "bucket");
    assert_eq!(named("s3:/bucket"), "s3:/bucket");
    assert_eq!(named("bucket/s3://"), "bucket/s3://");
    assert_eq!(named("s3://"), "");
    assert_eq!(named(""), "");
    assert_eq!(named("s3://b\u{fc}cket"), "b\u{fc}cket");
    assert_eq!(named(&named("s3://bucket")), "bucket");
}

#[test]
fn a_managed_bucket_has_its_endpoint_and_credentials() {
    let managed = ObjectStorageConfig::managed(
        "s3://bucket",
        "auto".to_string(),
        "https://endpoint".to_string(),
        credentials(None),
    )
    .unwrap();
    let given = ObjectStorageConfig::s3(
        "bucket",
        Some("https://endpoint"),
        "auto",
        Some(credentials(None)),
    )
    .unwrap();
    assert!(managed == given);
    let added = ObjectStorageConfig::from_bucket_uri("bucket", Some("https://endpoint"), "auto")
        .unwrap()
        .with_credentials(credentials(None));
    assert!(managed == added);
    assert!(managed.clone() == managed);
    let other = given.with_credentials(credentials(Some("token")));
    assert!(managed != other);
}

#[test]
fn configuration_overrides_the_base() {
    let base = AmazonS3Builder::new()
        .with_bucket_name("other")
        .with_region("other")
        .with_endpoint("https://other")
        .with_access_key_id("other")
        .with_secret_access_key("other")
        .with_token("other")
        .with_virtual_hosted_style_request(true);
    let storage = ObjectStorageConfig::s3(
        "bucket",
        Some("https://endpoint"),
        "region",
        Some(credentials(Some("token"))),
    )
    .unwrap();
    let builder = storage.configure_builder(base);
    assert_eq!(value(&builder, AmazonS3ConfigKey::Bucket).as_deref(), Some("bucket"));
    assert_eq!(value(&builder, AmazonS3ConfigKey::Region).as_deref(), Some("region"));
    assert_eq!(value(&builder, AmazonS3ConfigKey::Endpoint).as_deref(), Some("https://endpoint"));
    assert_eq!(value(&builder, AmazonS3ConfigKey::AccessKeyId).as_deref(), Some("key"));
    assert_eq!(value(&builder, AmazonS3ConfigKey::SecretAccessKey).as_deref(), Some("secret"));
    assert_eq!(value(&builder, AmazonS3ConfigKey::Token).as_deref(), Some("token"));
    assert_eq!(
        value(&builder, AmazonS3ConfigKey::VirtualHostedStyleRequest).as_deref(),
        Some("false")
    );
}

#[test]
fn the_base_fills_what_is_left_open() {
    let base = AmazonS3Builder::new()
        .with_endpoint("https://other")
        .with_access_key_id("other key")
        .with_secret_access_key("other secret")
        .with_token("other token");
    let open = ObjectStorageConfig::from_bucket_uri("bucket", None, "region").unwrap();
    let builder = open.configure_builder(base.clone());
    assert_eq!(value(&builder, AmazonS3ConfigKey::Endpoint).as_deref(), Some("https://other"));
    assert_eq!(value(&builder, AmazonS3ConfigKey::AccessKeyId).as_deref(), Some("other key"));
    assert_eq!(value(&builder, AmazonS3ConfigKey::SecretAccessKey).as_deref(), Some("other secret"));
    assert_eq!(value(&builder, AmazonS3ConfigKey::Token).as_deref(), Some("other token"));
    assert_eq!(
        value(&builder, AmazonS3ConfigKey::VirtualHostedStyleRequest).as_deref(),
        Some("true")
    );
    let keyed = open.with_credentials(credentials(None)).configure_builder(base);
    assert_eq!(value(&keyed, AmazonS3ConfigKey::AccessKeyId).as_deref(), Some("key"));
    assert_eq!(value(&keyed, AmazonS3ConfigKey::Token).as_deref(), Some("other token"));
}

#[test]
fn the_runtime_builder_names_the_bucket() {
    let storage = ObjectStorageConfig::from_bucket_uri("s3://bucket", None, "region").unwrap();
    let builder = storage.runtime_builder();
    assert_eq!(value(&builder, AmazonS3ConfigKey::Bucket).as_deref(), Some("bucket"));
    assert_eq!(value(&builder, AmazonS3ConfigKey::Region).as_deref(), Some("region"));
}

#[test]
fn bucket_builders_differ_in_their_retry_limits() {
    let base = AmazonS3Builder::new().with_bucket_name("bucket");
    let options = client_options(Some("lease")).unwrap();
    let (ordinary, cas) = ObjectStorageConfig::bucket_builders(
        base,
        options,
        RetryLimits { max_retries: 7, retry_timeout_secs: 11 },
        RetryLimits { max_retries: 4, retry_timeout_secs: 13 },
    );
    for builder in [&ordinary, &cas] {
        assert_eq!(value(builder, AmazonS3ConfigKey::ConditionalPut).as_deref(), Some("etag"));
        assert_eq!(value(builder, AmazonS3ConfigKey::Bucket).as_deref(), Some("bucket"));
        assert_eq!(
            value(builder, "timeout".parse().unwrap()).as_deref(),
            Some("15s")
        );
        assert_eq!(
            value(builder, "user_agent".parse().unwrap()).as_deref(),
            Some("celld app/lease")
        );
    }
    let ordinary = format!("{:?}", ordinary);
    let cas = format!("{:?}", cas);
    assert!(ordinary.contains("max_retries: 7, retry_timeout: 11s"));
    assert!(cas.contains("max_retries: 4, retry_timeout: 13s"));
}

#[test]
fn the_first_client_that_is_not_built_is_named() {
    let built = || AmazonS3Builder::new().with_bucket_name("bucket").build();
    let failed = || AmazonS3Builder::new().build();
    assert!(ObjectStorageConfig::built_stores(built(), built()).is_ok());
    let message = |error: celld_storage::failure::StorageError| match error {
        celld_storage::failure::StorageError::Client(failure) => {
            (failure.context, failure.error.to_string())
        }
        celld_storage::failure::StorageError::UserAgent(failure) => {
            (failure.context, failure.error.to_string())
        }
    };
    for cas in [built(), failed()] {
        let error = ObjectStorageConfig::built_stores(failed(), cas).unwrap_err();
        let (context, cause) = message(error);
        assert_eq!(context, "build s3 client");
        assert!(cause.contains("Missing bucket name"));
    }
    let error = ObjectStorageConfig::built_stores(built(), failed()).unwrap_err();
    assert_eq!(message(error).0, "build s3 cas client");
}

#[test]
fn an_entity_tag_is_the_version() {
    let storage = ObjectStorageConfig::from_bucket_uri("b", None, "r").unwrap();
    let meta = ObjectMeta {
        size: 3,
        e_tag: Some("tag".to_string()),
        version: Some("other".to_string()),
    };
    assert_eq!(storage.object_version(&meta), "tag");
    let untagged = ObjectMeta { size: 3, e_tag: None, version: Some("other".to_string()) };
    assert_eq!(storage.object_version(&untagged), "");
    let written = PutResult { e_tag: Some("next".to_string()), version: None };
    assert_eq!(storage.put_result_version(written), "next");
    let untagged = PutResult { e_tag: None, version: Some("other".to_string()) };
    assert_eq!(storage.put_result_version(untagged), "");
}

#[test]
fn a_replica_without_credentials_takes_the_environments() {
    let storage = ObjectStorageConfig::from_bucket_uri("s3://bucket", None, "region").unwrap();
    let set = environment(Some("env key"), Some("env secret"), Some("env token"));
    let config = storage.replica_config("path".to_string(), &set);
    assert_eq!(config.bucket, "bucket");
    assert_eq!(config.path, "path");
    assert_eq!(config.region, "region");
    assert_eq!(config.endpoint, "");
    assert_eq!(config.access_key_id, "env key");
    assert_eq!(config.secret_access_key, "env secret");
    assert_eq!(config.session_token, "env token");
    assert!(!config.force_path_style);
    assert!(!config.skip_verify);
    assert_eq!(config.part_size, 0);
    assert_eq!(config.concurrency, 0);
    let unset = storage.replica_config(String::new(), &environment(None, None, None));
    let blank = storage.replica_config(String::new(), &environment(Some(""), Some(""), Some("")));
    assert!(unset == blank);
    assert_eq!(unset.access_key_id, "");
    assert_eq!(unset.secret_access_key, "");
    assert_eq!(unset.session_token, "");
}

#[test]
fn a_replica_prefers_filled_credentials_of_its_own() {
    let set = environment(Some("env key"), Some("env secret"), Some("env token"));
    let storage = ObjectStorageConfig::s3(
        "bucket",
        Some("https://endpoint"),
        "region",
        Some(credentials(Some("token"))),
    )
    .unwrap();
    let config = storage.ltx_store_config(&set);
    assert_eq!(config.path, "");
    assert_eq!(config.endpoint, "https://endpoint");
    assert!(config.force_path_style);
    assert_eq!(config.access_key_id, "key");
    assert_eq!(config.secret_access_key, "secret");
    assert_eq!(config.session_token, "token");
    let blank = StaticCredentials {
        access_key_id: String::new(),
        secret_access_key: String::new(),
        session_token: Some(String::new()),
    };
    let config = storage.clone().with_credentials(blank).ltx_store_config(&set);
    assert_eq!(config.access_key_id, "env key");
    assert_eq!(config.secret_access_key, "env secret");
    assert_eq!(config.session_token, "env token");
    let config = storage.with_credentials(credentials(None)).ltx_store_config(&set);
    assert_eq!(config.access_key_id, "key");
    assert_eq!(config.session_token, "env token");
}

#[test]
fn a_blank_endpoint_does_not_force_a_replicas_path_style() {
    let storage = ObjectStorageConfig::from_bucket_uri("bucket", Some(""), "region").unwrap();
    let config = storage.ltx_store_config(&environment(None, None, None));
    assert!(!config.force_path_style);
    let builder = storage.configure_builder(AmazonS3Builder::new());
    assert_eq!(
        value(&builder, AmazonS3ConfigKey::VirtualHostedStyleRequest).as_deref(),
        Some("false")
    );
}
