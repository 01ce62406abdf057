use celld_storage::bucket::client_options;
use celld_storage::bucket::Bucket;
use celld_storage::bucket::ListStep;
use celld_storage::bucket::PutMode;
use celld_storage::bucket::Write;
use celld_storage::failure::ErrorKind;
use celld_storage::failure::Failure;
use celld_storage::failure::StorageError;
use celld_storage::failure::StoreError;
use celld_storage::storage_backend::ObjectMeta;
use celld_storage::storage_backend::ObjectStorageConfig;
use celld_storage::storage_backend::PutResult;
use futures_util::FutureExt;
use futures_util::StreamExt;
use object_store::memory::InMemory;
use object_store::path::Path;
use object_store::Attribute;
use object_store::Attributes;
use object_store::ClientConfigKey;
use object_store::ObjectStore;
use object_store::PutOptions;

const OTHER_KINDS: [ErrorKind; 9] = [
    ErrorKind::Generic,
    ErrorKind::InvalidPath,
    ErrorKind::JoinError,
    ErrorKind::NotSupported,
    ErrorKind::NotModified,
    ErrorKind::NotImplemented,
    ErrorKind::PermissionDenied,
    ErrorKind::Unauthenticated,
    ErrorKind::UnknownConfigurationKey,
];

fn bucket() -> Bucket {
    let storage = ObjectStorageConfig::from_bucket_uri("s3://b", None, "r").unwrap();
    Bucket::open(storage, Some("cas-test")).unwrap()
}

fn meta(size: usize, tag: Option<&str>) -> ObjectMeta {
    ObjectMeta { size, e_tag: tag.map(|tag| tag.to_string()), version: None }
}

fn written(tag: Option<&str>) -> PutResult {
    PutResult { e_tag: tag.map(|tag| tag.to_string()), version: None }
}

fn error(kind: ErrorKind) -> StoreError<u8> {
    StoreError { kind, error: 7 }
}

fn failed<T>(result: Result<T, Failure<u8>>) -> String {
    match result {
        Ok(_) => panic!("a failure was expected"),
        Err(failure) => {
            assert_eq!(failure.error, 7);
            failure.context
        }
    }
}

fn store_error(error: object_store::Error) -> StoreError<object_store::Error> {
    let kind = match &error {
        object_store::Error::NotFound { .. } => ErrorKind::NotFound,
        object_store::Error::AlreadyExists { .. } => ErrorKind::AlreadyExists,
        object_store::Error::Precondition { .. } => ErrorKind::Precondition,
        _ => ErrorKind::Generic,
    };
    StoreError { kind, error }
}

fn memory_write(
    store: &InMemory,
    write: Write<'_>,
    body: &'static str,
) -> Result<PutResult, StoreError<object_store::Error>> {
    let mode = match write.mode {
        PutMode::Overwrite => object_store::PutMode::Overwrite,
        PutMode::Create => object_store::PutMode::Create,
        PutMode::Update(update) => object_store::PutMode::Update(object_store::UpdateVersion {
            e_tag: update.e_tag,
            version: update.version,
        }),
    };
    let options = PutOptions { mode, attributes: write.attributes, ..PutOptions::default() };
    match store.put_opts(&write.target.path, body.into(), options).now_or_never().unwrap() {
        Ok(result) => Ok(PutResult { e_tag: result.e_tag, version: result.version }),
        Err(error) => Err(store_error(error)),
    }
}

fn memory_put_cas(
    bucket: &Bucket,
    store: &InMemory,
    key: &str,
    body: &'static str,
    version: Option<&str>,
) -> Option<String> {
    let reply = memory_write(store, bucket.conditional_write(key, version), body);
    bucket.put_cas(key, reply).unwrap()
}

fn memory_get(bucket: &Bucket, store: &InMemory, key: &str) -> Option<(String, String)> {
    let target = bucket.target(key);
    let reply = match store.get(&target.path).now_or_never().unwrap() {
        Ok(result) => {
            let meta = ObjectMeta {
                size: result.meta.size,
                e_tag: result.meta.e_tag.clone(),
                version: result.meta.version.clone(),
            };
            Ok((meta, result.bytes().now_or_never().unwrap()))
        }
        Err(error) => Err(store_error(error)),
    };
    let found = bucket.get(key, reply).unwrap();
    found.map(|(body, version)| (String::from_utf8(body.to_vec()).unwrap(), version))
}

fn memory_list(bucket: &Bucket, store: &InMemory, prefix: &str) -> Vec<String> {
    let target = bucket.list_target(prefix);
    let mut stream = store.list(target.prefix.as_ref());
    let mut objects = Vec::new();
    loop {
        let item = stream.next().now_or_never().unwrap();
        match bucket.list(prefix, objects, item) {
            ListStep::More(more) => objects = more,
            ListStep::Done(all) => {
                return all.into_iter().map(|object| object.location.to_string()).collect();
            }
            ListStep::Failed(failure) => panic!("{}", failure.context),
        }
    }
}

#[test]
fn an_opened_bucket_has_a_lane_that_never_retries() {
    let bucket = bucket();
    assert_eq!(bucket.name, "b");
    assert_eq!(bucket.name(), "b");
    let target = bucket.target("key");
    let ordinary = format!("{:?}", target.store);
    let write = bucket.conditional_write("key", None);
    let conditional = format!("{:?}", write.target.store);
    assert!(ordinary.contains("max_retries: 2, retry_timeout: 30s"));
    assert!(conditional.contains("max_retries: 0, retry_timeout: 30s"));
    for lane in [&ordinary, &conditional] {
        assert!(lane.contains("conditional_put: Some(ETagMatch)"));
        assert!(lane.contains("celld app/cas-test"));
    }
}

#[test]
fn a_copy_of_a_bucket_has_the_same_lanes() {
    let bucket = bucket();
    let copy = bucket.clone();
    assert_eq!(copy.name, "b");
    assert!(format!("{:?}", copy.target("key").store).contains("max_retries: 2,"));
    let write = copy.conditional_write("key", None);
    assert!(format!("{:?}", write.target.store).contains("max_retries: 0,"));
}

#[test]
fn a_bucket_keeps_the_stores_it_is_given() {
    let store = |name: &str| {
        object_store::aws::AmazonS3Builder::new().with_bucket_name(name).build().unwrap()
    };
    let storage = ObjectStorageConfig::from_bucket_uri("s3://b", None, "r").unwrap();
    let bucket = Bucket::with_stores(storage, store("ordinary"), store("conditional"));
    assert_eq!(bucket.name, "b");
    assert_eq!(bucket.target("key").store.to_string(), "AmazonS3(ordinary)");
    let write = bucket.conditional_write("key", None);
    assert_eq!(write.target.store.to_string(), "AmazonS3(conditional)");
    assert_eq!(bucket.metadata_read("key").target.store.to_string(), "AmazonS3(ordinary)");
    assert_eq!(bucket.metadata_write("key", &[]).target.store.to_string(), "AmazonS3(ordinary)");
    assert_eq!(bucket.list_target("key").store.to_string(), "AmazonS3(ordinary)");
    assert_eq!(bucket.validate_target().store.to_string(), "AmazonS3(ordinary)");
}

#[test]
fn the_client_is_bounded_and_labelled() {
    let plain = client_options(None).unwrap();
    let labelled = client_options(Some("lease\tl\u{e4}ne")).unwrap();
    for options in [&plain, &labelled] {
        let value = |key: ClientConfigKey| options.get_config_value(&key);
        assert_eq!(value(ClientConfigKey::Timeout).as_deref(), Some("15s"));
        assert_eq!(value(ClientConfigKey::ConnectTimeout).as_deref(), Some("3s"));
        assert_eq!(value(ClientConfigKey::AllowHttp).as_deref(), Some("true"));
    }
    let agent = |app: Option<&str>| {
        client_options(app).unwrap().get_config_value(&ClientConfigKey::UserAgent)
    };
    assert_eq!(agent(None), None);
    assert_eq!(agent(Some("lease")).as_deref(), Some("celld app/lease"));
    assert_eq!(agent(Some("")).as_deref(), Some("celld app/"));
}

#[test]
fn a_label_that_no_header_holds_is_refused() {
    for label in ["a\nb", "\r", "\u{0}", "x\u{7f}"] {
        let storage = ObjectStorageConfig::from_bucket_uri("b", None, "r").unwrap();
        match Bucket::open(storage, Some(label)) {
            Err(StorageError::UserAgent(failure)) => {
                assert_eq!(failure.context, "app user agent");
            }
            _ => panic!("{:?} was accepted", label),
        }
    }
}

#[test]
fn a_key_is_encoded_to_a_path() {
    let bucket = bucket();
    let path = |key: &str| bucket.target(key).path.to_string();
    assert_eq!(path("cas-probe/1"), "cas-probe/1");
    assert_eq!(path("/a//b/"), "a/b");
    assert_eq!(path("a/../b%"), "a/%2E%2E/b%25");
    assert_eq!(bucket.conditional_write("a//b", None).target.path.to_string(), "a/b");
    assert_eq!(bucket.metadata_read("a//b").target.path.to_string(), "a/b");
    assert!(bucket.metadata_read("a//b").head);
    assert_eq!(bucket.metadata_write("a//b", &[]).target.path.to_string(), "a/b");
}

#[test]
fn get_gives_body_and_version() {
    let bucket = bucket();
    let reply = Ok((meta(4, Some("tag")), Ok("body")));
    let found = bucket.get::<&str, u8>("key", reply).unwrap();
    assert_eq!(found, Some(("body", "tag".to_string())));
    let reply = Ok((meta(4, None), Ok("body")));
    let found = bucket.get::<&str, u8>("key", reply).unwrap();
    assert_eq!(found, Some(("body", String::new())));
    let absent = bucket.get::<&str, u8>("key", Err(error(ErrorKind::NotFound))).unwrap();
    assert_eq!(absent, None);
    let unread = bucket.get::<&str, u8>("key", Ok((meta(4, Some("tag")), Err(7))));
    assert_eq!(failed(unread), "read body s3://b/key");
    for kind in OTHER_KINDS {
        let result = bucket.get::<&str, u8>("key", Err(error(kind)));
        assert_eq!(failed(result), "read s3://b/key");
    }
    let result = bucket.get::<&str, u8>("key", Err(error(ErrorKind::Precondition)));
    assert_eq!(failed(result), "read s3://b/key");
}

#[test]
fn head_gives_size_and_version() {
    let bucket = bucket();
    let found = bucket.head::<u8>("key", Ok(meta(4, Some("tag")))).unwrap();
    assert_eq!(found, Some((4, "tag".to_string())));
    let absent = bucket.head("key", Err(error(ErrorKind::NotFound))).unwrap();
    assert_eq!(absent, None);
    for kind in OTHER_KINDS {
        assert_eq!(failed(bucket.head("key", Err(error(kind)))), "head s3://b/key");
    }
}

#[test]
fn put_succeeds_or_says_what_was_written() {
    let bucket = bucket();
    assert!(bucket.put::<u8>("key", Ok(written(None))).is_ok());
    assert_eq!(failed(bucket.put("key", Err(7))), "write s3://b/key");
    assert!(bucket.put_with_meta::<u8>("key", Ok(written(None))).is_ok());
    assert_eq!(failed(bucket.put_with_meta("key", Err(7))), "write s3://b/key");
}

#[test]
fn metadata_reads_back_what_was_written_last() {
    let bucket = bucket();
    let pairs = [("epoch", "1"), ("owner", "a"), ("epoch", "2")];
    let write = bucket.metadata_write("key", &pairs);
    assert_eq!(write.attributes.len(), 2);
    let read = |name: &str| {
        let reply: Result<(ObjectMeta, Attributes), StoreError<u8>> =
            Ok((meta(4, None), write.attributes.clone()));
        bucket.head_with_meta("key", name, reply).unwrap().unwrap()
    };
    assert_eq!(read("epoch"), (4, Some("2".to_string())));
    assert_eq!(read("owner"), (4, Some("a".to_string())));
    assert_eq!(read("absent"), (4, None));
    assert_eq!(read("ContentType"), (4, None));
    assert!(bucket.metadata_write("key", &[]).attributes.is_empty());
    let owner = write.attributes.get(&Attribute::Metadata("owner".into()));
    assert_eq!(owner.map(|value| value.as_ref()), Some("a"));
}

#[test]
fn a_write_sends_its_metadata_and_nothing_else() {
    let bucket = bucket();
    let write = bucket.metadata_write("key", &[("a", "1"), ("a", "2"), ("b", "3")]);
    let mut sent: Vec<(String, String)> = write
        .attributes
        .iter()
        .map(|(attribute, value)| match attribute {
            Attribute::Metadata(name) => (name.to_string(), value.as_ref().to_string()),
            other => panic!("{:?} was sent", other),
        })
        .collect();
    sent.sort();
    let pair = |name: &str, value: &str| (name.to_string(), value.to_string());
    assert_eq!(sent, vec![pair("a", "2"), pair("b", "3")]);
}

#[test]
fn a_write_without_metadata_is_a_plain_write() {
    let bucket = bucket();
    let plain = bucket.plain_write("a//b");
    let write = bucket.metadata_write("a//b", &[]);
    assert!(std::ptr::eq(write.target.store, plain.target.store));
    assert_eq!(write.target.path, plain.target.path);
    assert_eq!(write.mode, plain.mode);
    assert_eq!(write.attributes, plain.attributes);
    assert_eq!(write.attributes, Attributes::new());
    assert_eq!(failed(bucket.put_with_meta("key", Err(7))), failed(bucket.put("key", Err(7))));
}

#[test]
fn head_with_meta_of_an_absent_key_is_none() {
    let bucket = bucket();
    let absent = bucket.head_with_meta("key", "name", Err(error(ErrorKind::NotFound))).unwrap();
    assert_eq!(absent, None);
    for kind in OTHER_KINDS {
        let result = bucket.head_with_meta("key", "name", Err(error(kind)));
        assert_eq!(failed(result), "head s3://b/key");
    }
}

#[test]
fn a_conditional_write_requires_absence_or_a_version() {
    let bucket = bucket();
    assert_eq!(bucket.conditional_write("key", None).mode, PutMode::Create);
    match bucket.conditional_write("key", Some("tag")).mode {
        PutMode::Update(update) => {
            assert_eq!(update.e_tag.as_deref(), Some("tag"));
            assert_eq!(update.version, None);
        }
        _ => panic!("an update was expected"),
    }
    assert!(bucket.conditional_write("key", Some("tag")).attributes.is_empty());
}

#[test]
fn a_plain_write_requires_nothing() {
    let bucket = bucket();
    let plain = bucket.plain_write("a//b");
    assert_eq!(plain.mode, PutMode::Overwrite);
    assert_eq!(plain.target.path.to_string(), "a/b");
    assert!(plain.attributes.is_empty());
    assert!(format!("{:?}", plain.target.store).contains("max_retries: 2,"));
    assert_eq!(bucket.metadata_write("key", &[]).mode, PutMode::Overwrite);
    assert_eq!(bucket.metadata_write("key", &[("a", "1")]).mode, PutMode::Overwrite);
}

#[test]
fn a_plain_write_replaces_what_a_memory_store_holds() {
    let bucket = bucket();
    let store = InMemory::new();
    for body in ["v1", "v2"] {
        let reply = memory_write(&store, bucket.plain_write("key"), body);
        assert!(bucket.put("key", reply).is_ok());
        assert_eq!(memory_get(&bucket, &store, "key").unwrap().0, body);
    }
    let reply = memory_write(&store, bucket.metadata_write("key", &[("a", "1")]), "v3");
    assert!(bucket.put_with_meta("key", reply).is_ok());
    assert_eq!(memory_get(&bucket, &store, "key").unwrap().0, "v3");
}

#[test]
fn only_a_clean_rejection_is_none() {
    let bucket = bucket();
    let applied = bucket.put_cas::<u8>("key", Ok(written(Some("next")))).unwrap();
    assert_eq!(applied.as_deref(), Some("next"));
    let untagged = bucket.put_cas::<u8>("key", Ok(written(None))).unwrap();
    assert_eq!(untagged.as_deref(), Some(""));
    for kind in [ErrorKind::Precondition, ErrorKind::AlreadyExists] {
        assert_eq!(bucket.put_cas("key", Err(error(kind))).unwrap(), None);
    }
    for kind in OTHER_KINDS {
        assert_eq!(
            failed(bucket.put_cas("key", Err(error(kind)))),
            "conditional write s3://b/key may have committed"
        );
    }
    assert_eq!(
        failed(bucket.put_cas("key", Err(error(ErrorKind::NotFound)))),
        "conditional write s3://b/key may have committed"
    );
}

#[test]
fn put_cas_contract_against_a_memory_store() {
    let bucket = bucket();
    let store = InMemory::new();
    let key = "cas-probe/1";
    let first = memory_put_cas(&bucket, &store, key, "v1", None)
        .expect("fresh create must apply (Ok(Some))");
    assert!(memory_put_cas(&bucket, &store, key, "v1b", None).is_none());
    let read = memory_get(&bucket, &store, key).unwrap();
    assert_eq!(read, ("v1".to_string(), first.clone()));
    let next = memory_put_cas(&bucket, &store, key, "v3", Some(&first))
        .expect("update with current etag must apply (Ok(Some))");
    assert!(memory_put_cas(&bucket, &store, key, "v4", Some(&first)).is_none());
    assert_eq!(memory_get(&bucket, &store, key).unwrap(), ("v3".to_string(), next));
    assert_eq!(memory_get(&bucket, &store, "cas-probe/2"), None);
}

#[test]
fn a_clean_rejection_leaves_the_object_as_it_was() {
    let bucket = bucket();
    let store = InMemory::new();
    let first = memory_put_cas(&bucket, &store, "key", "v1", None).unwrap();
    memory_put_cas(&bucket, &store, "key", "v2", Some(&first)).unwrap();
    let before = memory_get(&bucket, &store, "key");
    assert!(before.is_some());
    assert_eq!(memory_put_cas(&bucket, &store, "key", "v3", None), None);
    assert_eq!(memory_get(&bucket, &store, "key"), before);
    assert_eq!(memory_put_cas(&bucket, &store, "key", "v3", Some(&first)), None);
    assert_eq!(memory_get(&bucket, &store, "key"), before);
}

#[test]
fn deleting_an_absent_key_succeeds() {
    let bucket = bucket();
    assert!(bucket.delete::<u8>("key", Ok(())).is_ok());
    assert!(bucket.delete("key", Err(error(ErrorKind::NotFound))).is_ok());
    for kind in OTHER_KINDS {
        assert_eq!(failed(bucket.delete("key", Err(error(kind)))), "delete s3://b/key");
    }
}

#[test]
fn slashes_at_a_prefixs_end_do_not_matter() {
    let bucket = bucket();
    let path = |prefix: &str| bucket.list_target(prefix).prefix.unwrap().to_string();
    assert_eq!(path("logs"), "logs");
    assert_eq!(path("logs/"), "logs");
    assert_eq!(path("logs///"), "logs");
    assert_eq!(path("a/b/"), "a/b");
    assert_eq!(path("/"), "");
    assert_eq!(path(""), "");
    assert!(bucket.validate_target().prefix.is_none());
}

#[test]
fn a_listing_gives_all_or_the_first_error() {
    let bucket = bucket();
    let more = match bucket.list::<u8, u8>("logs/", vec![1], Some(Ok(2))) {
        ListStep::More(more) => more,
        _ => panic!("more was expected"),
    };
    assert_eq!(more, vec![1, 2]);
    match bucket.list::<u8, u8>("logs/", more, None) {
        ListStep::Done(all) => assert_eq!(all, vec![1, 2]),
        _ => panic!("the end was expected"),
    }
    match bucket.list::<u8, u8>("logs/", vec![1], Some(Err(7))) {
        ListStep::Failed(failure) => {
            assert_eq!(failure.context, "list s3://b/logs/");
            assert_eq!(failure.error, 7);
        }
        _ => panic!("a failure was expected"),
    }
}

#[test]
fn a_memory_store_lists_what_stands_under_a_prefix() {
    let bucket = bucket();
    let store = InMemory::new();
    for key in ["logs/1", "logs/2", "logs2/3", "other"] {
        let target = bucket.target(key);
        store.put(&target.path, "body".into()).now_or_never().unwrap().unwrap();
    }
    assert_eq!(memory_list(&bucket, &store, "logs/"), vec!["logs/1", "logs/2"]);
    assert_eq!(memory_list(&bucket, &store, "logs"), vec!["logs/1", "logs/2"]);
    assert_eq!(memory_list(&bucket, &store, "none").len(), 0);
}

#[test]
fn the_first_item_tells_whether_anything_is_listed() {
    let bucket = bucket();
    assert!(!bucket.list_any::<u8, u8>("logs/", None).unwrap());
    assert!(bucket.list_any::<u8, u8>("logs/", Some(Ok(1))).unwrap());
    let result = bucket.list_any::<u8, u8>("logs/", Some(Err(7)));
    assert_eq!(failed(result), "list s3://b/logs/");
}

#[test]
fn common_prefixes_are_given_as_text() {
    let bucket = bucket();
    let paths = vec![Path::from("a/b%"), Path::from("c")];
    let prefixes = bucket.common_prefixes::<u8>("a/", Ok(paths)).unwrap();
    assert_eq!(prefixes, vec!["a/b%25", "c"]);
    assert_eq!(bucket.common_prefixes::<u8>("a/", Ok(vec![])).unwrap().len(), 0);
    assert_eq!(failed(bucket.common_prefixes("a/", Err(7))), "list s3://b/a/");
}

#[test]
fn a_bucket_is_valid_unless_listing_fails() {
    let bucket = bucket();
    assert!(bucket.validate::<u8, u8>(None).is_ok());
    assert!(bucket.validate::<u8, u8>(Some(Ok(1))).is_ok());
    assert_eq!(failed(bucket.validate::<u8, u8>(Some(Err(7)))), "validate s3://b");
}
