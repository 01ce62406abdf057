//! One bucket: what is asked of the store for each call, and what each of the
//! store's replies amounts to. No call streams a body: everything is held in
//! memory.
//!
//! Error contract, relied on by the self-fence: `put_cas` answers `Ok(None)`
//! only for a clean 412 or 409 rejection; every other failure is ambiguous (the
//! write may have committed) and surfaces as `Err`.

use crate::failure::chain_unauthorized;
use crate::failure::failure_chain;
use crate::failure::is_verb;
use crate::failure::law_context_keeps_verdict;
use crate::failure::locates_at;
use crate::failure::reports_at;
use crate::failure::starts_as_context;
use crate::failure::CauseModel;
use crate::failure::ErrorKind;
use crate::failure::Failure;
use crate::failure::StorageError;
use crate::failure::StoreError;
use crate::location::encoded_key;
use crate::location::path_from;
use crate::location::path_text;
use crate::location::path_to_string;
use crate::metadata::attributes_get;
use crate::metadata::attributes_new;
use crate::metadata::attributes_of;
use crate::metadata::entries;
use crate::metadata::law_metadata_reads_back;
use crate::metadata::law_unnamed_metadata_is_absent;
use crate::metadata::metadata_of;
use crate::metadata::no_entries;
use crate::metadata::other_attributes_of;
use crate::settings::builder_settings;
use crate::settings::client_options_new;
use crate::settings::client_settings;
use crate::settings::default_client;
use crate::settings::header_value;
use crate::settings::is_from_environment;
use crate::settings::is_header_char;
use crate::settings::is_header_text;
use crate::settings::store_settings;
use crate::settings::with_allow_http;
use crate::settings::with_connect_timeout;
use crate::settings::with_timeout;
use crate::settings::with_user_agent;
use crate::settings::RetryLimits;
use crate::settings::Setting;
use crate::settings::SettingValue;
use crate::storage_backend::law_clients_are_built_of_the_configuration;
use crate::storage_backend::version_of;
use crate::storage_backend::ConfigModel;
use crate::storage_backend::ObjectMeta;
use crate::storage_backend::ObjectStorageConfig;
use crate::storage_backend::PutResult;
use crate::storage_backend::UpdateVersion;
use crate::text::lemma_without_trailing_pushed;
use crate::text::lemma_without_trailing_stops;
use crate::text::str_text_of;
use crate::text::text_of;
use crate::text::trim_trailing;
use crate::text::without_trailing;
use object_store::aws::AmazonS3;
use object_store::aws::AmazonS3Builder;
use object_store::path::Path;
use object_store::Attributes;
use object_store::ClientOptions;
use vstd::prelude::*;

pub use crate::failure::is_unauthorized;

verus! {

/// How long one attempt may take. This and the next two bounds are a
/// correctness condition of the node's self-fence, not tuning.
pub const REQUEST_TIMEOUT_SECS: u64 = 15;

/// How long connecting may take.
pub const CONNECT_TIMEOUT_SECS: u64 = 3;

/// How long after the first attempt a request is still tried again.
pub const RETRY_TIMEOUT_SECS: u64 = 30;

/// How often an ordinary request is tried again.
pub const ORDINARY_RETRIES: usize = 2;

/// How often a conditional write is tried again: never. A retried one can find
/// the object as its first attempt left it and report a definite rejection of a
/// write that was applied.
pub const CAS_RETRIES: usize = 0;

/// The bucket's two clients.
#[derive(Clone, Copy, Debug, PartialEq, Eq, Structural)]
pub enum Lane {
    /// Everything but conditional writes.
    Ordinary,
    /// Conditional writes only, never tried again.
    Conditional,
}

/// One S3-compatible bucket. Each `open` builds its own HTTP transport, so a
/// dedicated instance also isolates its traffic.
pub struct Bucket {
    store: AmazonS3,
    cas_store: AmazonS3,
    /// The bucket's name, for messages: the clients are already bound to it.
    pub name: String,
    storage_config: ObjectStorageConfig,
}

/// An object, and the client to reach it with.
pub struct Target<'a> {
    pub store: &'a AmazonS3,
    pub path: Path,
}

/// A read of an object with its metadata, and whether it leaves the body out.
pub struct MetadataRead<'a> {
    pub target: Target<'a>,
    pub head: bool,
}

/// What a write requires.
#[derive(Clone, Debug, PartialEq, Eq)]
pub enum PutMode {
    /// Nothing: the object may be there or not.
    Overwrite,
    /// That the object is absent.
    Create,
    /// That the object is there in this version.
    Update(UpdateVersion),
}

/// What a write requires, over the versions' characters.
pub enum PutModeModel {
    Overwrite,
    Create,
    Update { e_tag: Option<Seq<char>>, version: Option<Seq<char>> },
}

impl View for PutMode {
    type V = PutModeModel;

    open spec fn view(&self) -> PutModeModel {
        match self {
            PutMode::Overwrite => PutModeModel::Overwrite,
            PutMode::Create => PutModeModel::Create,
            PutMode::Update(update) => PutModeModel::Update {
                e_tag: text_of(update.e_tag),
                version: text_of(update.version),
            },
        }
    }
}

/// A write of an object: what it requires, and the attributes that it sends.
pub struct Write<'a> {
    pub target: Target<'a>,
    pub mode: PutMode,
    pub attributes: Attributes,
}

/// What to list, all of the bucket where there is no prefix, and the client to
/// list it with.
pub struct ListTarget<'a> {
    pub store: &'a AmazonS3,
    pub prefix: Option<Path>,
}

/// Where a listing stands after one item of the store's reply.
pub enum ListStep<M, E> {
    /// Ask for the next item; these came so far.
    More(Vec<M>),
    /// All has come.
    Done(Vec<M>),
    /// The listing failed.
    Failed(Failure<E>),
}

/// Where a listing stands, over what came so far.
pub enum ListStepModel<M, E> {
    More(Seq<M>),
    Done(Seq<M>),
    Failed(E),
}

/// Where a listing stands after `item`, `None` being the end, where `objects`
/// came before it.
pub open spec fn list_step<M, E>(objects: Seq<M>, item: Option<Result<M, E>>) -> ListStepModel<
    M,
    E,
> {
    match item {
        None => ListStepModel::Done(objects),
        Some(Ok(object)) => ListStepModel::More(objects.push(object)),
        Some(Err(error)) => ListStepModel::Failed(error),
    }
}

/// Where a listing stands that takes the items of the store's reply one by one,
/// where `objects` came before them.
pub open spec fn listing<M, E>(objects: Seq<M>, items: Seq<Result<M, E>>) -> ListStepModel<M, E>
    decreases items.len(),
{
    if items.len() == 0 {
        list_step::<M, E>(objects, None)
    } else {
        match list_step(objects, Some(items[0])) {
            ListStepModel::More(more) => listing(more, items.drop_first()),
            step => step,
        }
    }
}

/// Whether a listing holds anything, by its first item.
pub open spec fn holds_any<M, E>(first: Option<Result<M, E>>) -> Result<bool, E> {
    match first {
        None => Ok(false),
        Some(Ok(_)) => Ok(true),
        Some(Err(error)) => Err(error),
    }
}

/// `verb s3://name`
pub open spec fn bucket_context(verb: Seq<char>, name: Seq<char>) -> Seq<char> {
    verb + " s3://"@ + name
}

/// `verb s3://name/key`
pub open spec fn object_context(verb: Seq<char>, name: Seq<char>, key: Seq<char>) -> Seq<char> {
    bucket_context(verb, name) + "/"@ + key
}

/// `conditional write s3://name/key may have committed`
pub open spec fn ambiguous_context(name: Seq<char>, key: Seq<char>) -> Seq<char> {
    object_context("conditional write"@, name, key) + " may have committed"@
}

/// The user agent of an application's label.
pub open spec fn user_agent(label: Seq<char>) -> Seq<char> {
    "celld app/"@ + label
}

/// The HTTP client settings of a bucket that an application opens.
pub open spec fn bucket_client(app: Option<Seq<char>>) -> Map<Setting, SettingValue> {
    let bounded = default_client().insert(
        Setting::Timeout,
        SettingValue::Seconds(REQUEST_TIMEOUT_SECS as nat),
    ).insert(Setting::ConnectTimeout, SettingValue::Seconds(CONNECT_TIMEOUT_SECS as nat)).insert(
        Setting::AllowHttp,
        SettingValue::Flag(true),
    );
    match app {
        Some(label) => bounded.insert(Setting::UserAgent, SettingValue::Text(user_agent(label))),
        None => bounded,
    }
}

/// An application's label that the user agent can hold.
pub open spec fn is_app_label(app: Option<Seq<char>>) -> bool {
    app matches Some(label) ==> is_header_text(label)
}

/// The retry limits of a client.
pub open spec fn lane_limits(lane: Lane) -> RetryLimits {
    RetryLimits {
        max_retries: match lane {
            Lane::Ordinary => ORDINARY_RETRIES,
            Lane::Conditional => CAS_RETRIES,
        },
        retry_timeout_secs: RETRY_TIMEOUT_SECS,
    }
}

/// The key that a listing under `prefix` is made for: the prefix without the
/// slashes that it ends with.
pub open spec fn listed_key(prefix: Seq<char>) -> Seq<char> {
    encoded_key(without_trailing(prefix, '/'))
}

/// What a conditional write requires in order to create an object, or to
/// replace it in a version.
pub open spec fn cas_mode(version: Option<Seq<char>>) -> PutModeModel {
    match version {
        None => PutModeModel::Create,
        Some(version) => PutModeModel::Update { e_tag: Some(version), version: None },
    }
}

/// The error kinds that cleanly reject a conditional write: the write was not
/// applied.
pub open spec fn is_clean_rejection(kind: ErrorKind) -> bool {
    kind is Precondition || kind is AlreadyExists
}

/// What the reply to a read amounts to.
pub enum ReadOutcome<B, E> {
    /// The object's body and version.
    Found(B, Seq<char>),
    /// There is no such object.
    Absent,
    /// The object is there, and reading its body failed.
    BodyFailed(E),
    /// The read failed.
    Failed(E),
}

/// What a reply to a read amounts to.
pub open spec fn read_outcome<B, E>(
    reply: Result<(ObjectMeta, Result<B, E>), StoreError<E>>,
) -> ReadOutcome<B, E> {
    match reply {
        Ok((meta, Ok(body))) => ReadOutcome::Found(body, version_of(text_of(meta.e_tag))),
        Ok((_, Err(error))) => ReadOutcome::BodyFailed(error),
        Err(error) => if error.kind is NotFound {
            ReadOutcome::Absent
        } else {
            ReadOutcome::Failed(error.error)
        },
    }
}

/// What the reply to a conditional write amounts to.
pub enum CasOutcome {
    /// The write was applied; the object has this version now.
    Applied(Seq<char>),
    /// The write was cleanly rejected.
    Rejected,
    /// The write may have been applied.
    Ambiguous,
}

/// What a reply to a conditional write amounts to.
pub open spec fn cas_outcome<E>(reply: Result<PutResult, StoreError<E>>) -> CasOutcome {
    match reply {
        Ok(result) => CasOutcome::Applied(version_of(text_of(result.e_tag))),
        Err(error) => if is_clean_rejection(error.kind) {
            CasOutcome::Rejected
        } else {
            CasOutcome::Ambiguous
        },
    }
}

/// The HTTP client options of a bucket that an application opens.
pub fn client_options(app: Option<&str>) -> (result: Result<ClientOptions, StorageError>)
    ensures
        result is Ok <==> is_app_label(str_text_of(app)),
        result matches Ok(options) ==> client_settings(options) == bucket_client(str_text_of(app)),
        result matches Err(error) ==> {
            &&& error matches StorageError::UserAgent(failure)
            &&& failure.context@ == "app user agent"@
        },
{
    let mut options = with_timeout(client_options_new(), REQUEST_TIMEOUT_SECS);
    options = with_connect_timeout(options, CONNECT_TIMEOUT_SECS);
    options = with_allow_http(options, true);
    if let Some(app) = app {
        let agent = "celld app/".to_owned().concat(app);
        proof {
            reveal_strlit("celld app/");
            let prefix = "celld app/"@;
            assert forall|i: int| 0 <= i < prefix.len() implies is_header_char(
                #[trigger] agent@[i],
            ) by {
                assert(agent@[i] == prefix[i]);
            }
            assert forall|i: int| 0 <= i < app@.len() implies app@[i] == #[trigger] agent@[i
                + prefix.len()] by {}
            if is_header_text(agent@) {
                assert forall|i: int| 0 <= i < app@.len() implies is_header_char(
                    #[trigger] app@[i],
                ) by {
                    assert(is_header_char(agent@[i + prefix.len()]));
                }
            }
            if is_header_text(app@) {
                assert forall|i: int| 0 <= i < agent@.len() implies is_header_char(
                    #[trigger] agent@[i],
                ) by {
                    if i >= prefix.len() {
                        assert(agent@[i] == app@[i - prefix.len()]);
                    }
                }
            }
        }
        match header_value(agent.as_str()) {
            Ok(agent) => {
                options = with_user_agent(options, agent);
            },
            Err(error) => {
                return Err(
                    StorageError::UserAgent(Failure { context: "app user agent".to_owned(), error }),
                );
            },
        }
    }
    Ok(options)
}

impl Clone for Bucket {
    /// Another handle on the same bucket, with clients on the same settings.
    fn clone(&self) -> (copy: Self)
        ensures
            copy.name_text() == self.name_text(),
            copy.config() == self.config(),
            forall|lane: Lane|
                store_settings(#[trigger] copy.client(lane)) == store_settings(self.client(lane)),
    {
        Bucket {
            store: self.store.clone(),
            cas_store: self.cas_store.clone(),
            name: self.name.clone(),
            storage_config: self.storage_config.clone(),
        }
    }
}

impl Bucket {
    /// The client of a lane.
    pub closed spec fn client(&self, lane: Lane) -> AmazonS3 {
        match lane {
            Lane::Ordinary => self.store,
            Lane::Conditional => self.cas_store,
        }
    }

    /// The bucket's name, as messages give it.
    pub closed spec fn name_text(&self) -> Seq<char> {
        self.name@
    }

    /// The configuration that the bucket was opened with.
    pub closed spec fn config(&self) -> ConfigModel {
        self.storage_config@
    }

    /// The bucket's clients run on its configuration, with the HTTP client
    /// settings `client`, over what the process environment sets.
    pub open spec fn runs_on(
        &self,
        environment: Map<Setting, SettingValue>,
        client: Map<Setting, SettingValue>,
    ) -> bool {
        forall|lane: Lane|
            store_settings(#[trigger] self.client(lane)) == self.config().bucket_settings(
                environment,
                client,
                lane_limits(lane),
            )
    }

    /// A target is the object of a key, reached with the client of a lane.
    pub open spec fn aims_at(&self, target: Target<'_>, lane: Lane, key: Seq<char>) -> bool {
        &&& *target.store == self.client(lane)
        &&& path_text(target.path) == encoded_key(key)
    }

    /// A write goes to the object of a key through the client of a lane. It
    /// requires `mode`, and sends `meta` as metadata and no other attribute.
    pub open spec fn sends(
        &self,
        write: Write<'_>,
        lane: Lane,
        key: Seq<char>,
        mode: PutModeModel,
        meta: Map<Seq<char>, Seq<char>>,
    ) -> bool {
        &&& self.aims_at(write.target, lane, key)
        &&& write.mode@ == mode
        &&& metadata_of(write.attributes) == meta
        &&& other_attributes_of(write.attributes) == no_entries()
    }

    /// `result` is what a reply to a plain write amounts to.
    pub open spec fn writes<E>(
        &self,
        key: Seq<char>,
        reply: Result<PutResult, E>,
        result: Result<(), Failure<E>>,
    ) -> bool {
        match reply {
            Ok(_) => result is Ok,
            Err(error) => {
                &&& result matches Err(failure)
                &&& failure.context@ == object_context("write"@, self.name_text(), key)
                &&& failure.error == error
            },
        }
    }

    /// The bucket's name, as messages give it.
    pub fn name(&self) -> (name: &str)
        ensures
            name@ == self.name_text(),
    {
        self.name.as_str()
    }

    /// The bucket that `storage_config` names, reached with the given clients.
    pub fn with_stores(
        storage_config: ObjectStorageConfig,
        store: AmazonS3,
        cas_store: AmazonS3,
    ) -> (bucket: Bucket)
        ensures
            bucket.name_text() == storage_config@.bucket,
            bucket.config() == storage_config@,
            bucket.client(Lane::Ordinary) == store,
            bucket.client(Lane::Conditional) == cas_store,
    {
        let name = storage_config.bucket().to_owned();
        Bucket { store, cas_store, name, storage_config }
    }

    /// Opens a bucket. `app` labels this client's traffic in the User-Agent
    /// (`app/<name>`), which keeps a safety lane observable in storage traces.
    /// Conditional writes get a client of their own, which never tries again.
    pub fn open(storage_config: ObjectStorageConfig, app: Option<&str>) -> (result: Result<
        Bucket,
        StorageError,
    >)
        ensures
            result matches Ok(bucket) ==> {
                &&& bucket.name_text() == storage_config@.bucket
                &&& bucket.config() == storage_config@
                &&& exists|environment: Map<Setting, SettingValue>| #[trigger]
                    bucket.runs_on(environment, bucket_client(str_text_of(app)))
            },
            is_app_label(str_text_of(app)) <==> !(result matches Err(StorageError::UserAgent(_))),
            result matches Err(StorageError::UserAgent(failure)) ==> failure.context@
                == "app user agent"@,
            result matches Err(StorageError::Client(failure)) ==> failure.context@
                == "build s3 client"@ || failure.context@ == "build s3 cas client"@,
            result matches Ok(bucket) ==> exists|base: AmazonS3Builder| #[trigger]
                is_from_environment(base) && bucket.runs_on(
                    builder_settings(base),
                    bucket_client(str_text_of(app)),
                ),
            is_app_label(str_text_of(app)) ==> exists|
                base: AmazonS3Builder,
                stores: Result<(AmazonS3, AmazonS3), StorageError>,
            |
                {
                    &&& is_from_environment(base)
                    &&& #[trigger] storage_config@.builds(
                        base,
                        bucket_client(str_text_of(app)),
                        lane_limits(Lane::Ordinary),
                        lane_limits(Lane::Conditional),
                        stores,
                    )
                    &&& match stores {
                        Ok(stores) => {
                            &&& result matches Ok(bucket)
                            &&& bucket.client(Lane::Ordinary) == stores.0
                            &&& bucket.client(Lane::Conditional) == stores.1
                        },
                        Err(error) => result == Err::<Bucket, StorageError>(error),
                    }
                },
    {
        let options = match client_options(app) {
            Ok(options) => options,
            Err(error) => {
                return Err(error);
            },
        };
        let ordinary = RetryLimits {
            max_retries: ORDINARY_RETRIES,
            retry_timeout_secs: RETRY_TIMEOUT_SECS,
        };
        let cas = RetryLimits { max_retries: CAS_RETRIES, retry_timeout_secs: RETRY_TIMEOUT_SECS };
        let ghost client = bucket_client(str_text_of(app));
        let stores = storage_config.build_bucket_stores(options, ordinary, cas);
        let ghost base = choose|base: AmazonS3Builder|
            is_from_environment(base) && #[trigger] storage_config@.builds(
                base,
                client,
                ordinary,
                cas,
                stores,
            );
        proof {
            law_clients_are_built_of_the_configuration(
                storage_config@,
                base,
                client,
                ordinary,
                cas,
                stores,
            );
            assert(ordinary == lane_limits(Lane::Ordinary) && cas == lane_limits(
                Lane::Conditional,
            ));
            assert(storage_config@.builds(
                base,
                client,
                lane_limits(Lane::Ordinary),
                lane_limits(Lane::Conditional),
                stores,
            ));
        }
        match stores {
            Ok((store, cas_store)) => {
                let bucket = Bucket::with_stores(storage_config, store, cas_store);
                assert(bucket.runs_on(builder_settings(base), client));
                Ok(bucket)
            },
            Err(error) => Err(error),
        }
    }

    /// `verb s3://name`
    fn bucket_message(&self, verb: &str) -> (message: String)
        ensures
            message@ == bucket_context(verb@, self.name_text()),
    {
        verb.to_owned().concat(" s3://").concat(self.name.as_str())
    }

    /// `verb s3://name/key`
    fn object_message(&self, verb: &str, key: &str) -> (message: String)
        ensures
            message@ == object_context(verb@, self.name_text(), key@),
    {
        self.bucket_message(verb).concat("/").concat(key)
    }

    /// Where an object is read or deleted.
    pub fn target(&self, key: &str) -> (target: Target<'_>)
        ensures
            self.aims_at(target, Lane::Ordinary, key@),
    {
        Target { store: &self.store, path: path_from(key) }
    }

    /// Body and version of an object, or `None` when the key does not exist.
    /// `reply` is what came of asking for the object and, where there is one,
    /// of reading its body.
    pub fn get<B, E>(
        &self,
        key: &str,
        reply: Result<(ObjectMeta, Result<B, E>), StoreError<E>>,
    ) -> (result: Result<Option<(B, String)>, Failure<E>>)
        ensures
            match read_outcome(reply) {
                ReadOutcome::Found(body, version) => {
                    &&& result matches Ok(Some(found))
                    &&& found.0 == body
                    &&& found.1@ == version
                },
                ReadOutcome::Absent => result matches Ok(None),
                ReadOutcome::BodyFailed(error) => {
                    &&& result matches Err(failure)
                    &&& failure.context@ == object_context("read body"@, self.name_text(), key@)
                    &&& failure.error == error
                },
                ReadOutcome::Failed(error) => {
                    &&& result matches Err(failure)
                    &&& failure.context@ == object_context("read"@, self.name_text(), key@)
                    &&& failure.error == error
                },
            },
    {
        match reply {
            Ok((meta, body)) => {
                let version = self.storage_config.object_version(&meta);
                match body {
                    Ok(body) => Ok(Some((body, version))),
                    Err(error) => Err(
                        Failure { context: self.object_message("read body", key), error },
                    ),
                }
            },
            Err(StoreError { kind: ErrorKind::NotFound, .. }) => Ok(None),
            Err(error) => Err(
                Failure { context: self.object_message("read", key), error: error.error },
            ),
        }
    }

    /// Size and version of an object, or `None` when the key does not exist.
    pub fn head<E>(&self, key: &str, reply: Result<ObjectMeta, StoreError<E>>) -> (result: Result<
        Option<(u64, String)>,
        Failure<E>,
    >)
        ensures
            match reply {
                Ok(meta) => {
                    &&& result matches Ok(Some(found))
                    &&& found.0 == meta.size
                    &&& found.1@ == version_of(text_of(meta.e_tag))
                },
                Err(error) => if error.kind is NotFound {
                    result matches Ok(None)
                } else {
                    &&& result matches Err(failure)
                    &&& failure.context@ == object_context("head"@, self.name_text(), key@)
                    &&& failure.error == error.error
                },
            },
    {
        match reply {
            Ok(meta) => {
                let version = self.storage_config.object_version(&meta);
                Ok(Some((meta.size as u64, version)))
            },
            Err(StoreError { kind: ErrorKind::NotFound, .. }) => Ok(None),
            Err(error) => Err(
                Failure { context: self.object_message("head", key), error: error.error },
            ),
        }
    }

    /// How an object is written plainly: whether it is there or not, and with no
    /// attributes.
    pub fn plain_write(&self, key: &str) -> (write: Write<'_>)
        ensures
            self.sends(write, Lane::Ordinary, key@, PutModeModel::Overwrite, no_entries()),
    {
        Write { target: self.target(key), mode: PutMode::Overwrite, attributes: attributes_new() }
    }

    /// What came of a plain write.
    pub fn put<E>(&self, key: &str, reply: Result<PutResult, E>) -> (result: Result<
        (),
        Failure<E>,
    >)
        ensures
            self.writes(key@, reply, result),
    {
        match reply {
            Ok(_) => Ok(()),
            Err(error) => Err(Failure { context: self.object_message("write", key), error }),
        }
    }

    /// How an object is read for one metadata value: as a read that leaves the
    /// body out. A plain `head` cannot see user metadata; this one can.
    pub fn metadata_read(&self, key: &str) -> (read: MetadataRead<'_>)
        ensures
            self.aims_at(read.target, Lane::Ordinary, key@),
            read.head,
    {
        MetadataRead { target: self.target(key), head: true }
    }

    /// Size and one metadata value of an object, or `None` when the key does
    /// not exist.
    pub fn head_with_meta<E>(
        &self,
        key: &str,
        name: &str,
        reply: Result<(ObjectMeta, Attributes), StoreError<E>>,
    ) -> (result: Result<Option<(u64, Option<String>)>, Failure<E>>)
        ensures
            match reply {
                Ok((meta, attributes)) => {
                    &&& result matches Ok(Some(found))
                    &&& found.0 == meta.size
                    &&& found.1 is Some <==> metadata_of(attributes).contains_key(name@)
                    &&& found.1 matches Some(value) ==> value@ == metadata_of(attributes)[name@]
                },
                Err(error) => if error.kind is NotFound {
                    result matches Ok(None)
                } else {
                    &&& result matches Err(failure)
                    &&& failure.context@ == object_context("head"@, self.name_text(), key@)
                    &&& failure.error == error.error
                },
            },
    {
        match reply {
            Ok((meta, attributes)) => {
                let value = attributes_get(&attributes, name);
                Ok(Some((meta.size as u64, value)))
            },
            Err(StoreError { kind: ErrorKind::NotFound, .. }) => Ok(None),
            Err(error) => Err(
                Failure { context: self.object_message("head", key), error: error.error },
            ),
        }
    }

    /// How an object is written with user metadata: whether it is there or not,
    /// and with no attribute beside the metadata.
    pub fn metadata_write(&self, key: &str, meta: &[(&'static str, &str)]) -> (write: Write<'_>)
        ensures
            self.sends(write, Lane::Ordinary, key@, PutModeModel::Overwrite, entries(meta@)),
    {
        Write {
            target: self.target(key),
            mode: PutMode::Overwrite,
            attributes: attributes_of(meta),
        }
    }

    /// What came of a plain write with user metadata.
    pub fn put_with_meta<E>(&self, key: &str, reply: Result<PutResult, E>) -> (result: Result<
        (),
        Failure<E>,
    >)
        ensures
            self.writes(key@, reply, result),
    {
        self.put(key, reply)
    }

    /// How an object is written conditionally. `version: None` requires the key
    /// to be absent; `Some` requires the current version. Such writes alone go
    /// through the client that never tries again.
    pub fn conditional_write(&self, key: &str, version: Option<&str>) -> (write: Write<'_>)
        ensures
            self.sends(
                write,
                Lane::Conditional,
                key@,
                cas_mode(str_text_of(version)),
                no_entries(),
            ),
    {
        let mode = match version {
            None => PutMode::Create,
            Some(version) => PutMode::Update(self.storage_config.update_version(version)),
        };
        Write {
            target: Target { store: &self.cas_store, path: path_from(key) },
            mode,
            attributes: attributes_new(),
        }
    }

    /// What came of a conditional write. `Ok(Some(new_version))` applied,
    /// `Ok(None)` cleanly rejected; any other failure is ambiguous and stays an
    /// error.
    pub fn put_cas<E>(&self, key: &str, reply: Result<PutResult, StoreError<E>>) -> (result: Result<
        Option<String>,
        Failure<E>,
    >)
        ensures
            match cas_outcome(reply) {
                CasOutcome::Applied(version) => {
                    &&& result matches Ok(Some(new_version))
                    &&& new_version@ == version
                },
                CasOutcome::Rejected => result matches Ok(None),
                CasOutcome::Ambiguous => {
                    &&& result matches Err(failure)
                    &&& failure.context@ == ambiguous_context(self.name_text(), key@)
                    &&& reply matches Err(error) && failure.error == error.error
                },
            },
    {
        match reply {
            Ok(result) => {
                let new_version = self.storage_config.put_result_version(result);
                Ok(Some(new_version))
            },
            Err(StoreError { kind: ErrorKind::Precondition, .. }) => Ok(None),
            Err(StoreError { kind: ErrorKind::AlreadyExists, .. }) => Ok(None),
            Err(error) => Err(
                Failure {
                    context: self.object_message("conditional write", key).concat(
                        " may have committed",
                    ),
                    error: error.error,
                },
            ),
        }
    }

    /// What came of a delete. Idempotent: deleting an absent key succeeds.
    pub fn delete<E>(&self, key: &str, reply: Result<(), StoreError<E>>) -> (result: Result<
        (),
        Failure<E>,
    >)
        ensures
            match reply {
                Ok(_) => result is Ok,
                Err(error) => if error.kind is NotFound {
                    result is Ok
                } else {
                    &&& result matches Err(failure)
                    &&& failure.context@ == object_context("delete"@, self.name_text(), key@)
                    &&& failure.error == error.error
                },
            },
    {
        match reply {
            Ok(()) => Ok(()),
            Err(StoreError { kind: ErrorKind::NotFound, .. }) => Ok(()),
            Err(error) => Err(
                Failure { context: self.object_message("delete", key), error: error.error },
            ),
        }
    }

    /// Where everything under `prefix/` is listed.
    pub fn list_target(&self, prefix: &str) -> (target: ListTarget<'_>)
        ensures
            *target.store == self.client(Lane::Ordinary),
            target.prefix matches Some(path) && path_text(path) == listed_key(prefix@),
    {
        ListTarget { store: &self.store, prefix: Some(path_from(trim_trailing(prefix, '/'))) }
    }

    /// One step of listing every object under `prefix/`: `objects` came so far,
    /// and `item` is the store's next item, `None` at the end.
    pub fn list<M, E>(&self, prefix: &str, objects: Vec<M>, item: Option<Result<M, E>>) -> (step:
        ListStep<M, E>)
        ensures
            match list_step(objects@, item) {
                ListStepModel::More(more) => step matches ListStep::More(list) && list@ == more,
                ListStepModel::Done(all) => step matches ListStep::Done(list) && list@ == all,
                ListStepModel::Failed(error) => {
                    &&& step matches ListStep::Failed(failure)
                    &&& failure.context@ == object_context("list"@, self.name_text(), prefix@)
                    &&& failure.error == error
                },
            },
    {
        match item {
            None => ListStep::Done(objects),
            Some(Ok(object)) => {
                let mut objects = objects;
                objects.push(object);
                ListStep::More(objects)
            },
            Some(Err(error)) => ListStep::Failed(
                Failure { context: self.object_message("list", prefix), error },
            ),
        }
    }

    /// Does anything exist under `prefix/`? `first` is the first item of the
    /// store's listing.
    pub fn list_any<M, E>(&self, prefix: &str, first: Option<Result<M, E>>) -> (result: Result<
        bool,
        Failure<E>,
    >)
        ensures
            match holds_any(first) {
                Ok(any) => result matches Ok(answer) && answer == any,
                Err(error) => {
                    &&& result matches Err(failure)
                    &&& failure.context@ == object_context("list"@, self.name_text(), prefix@)
                    &&& failure.error == error
                },
            },
    {
        match first {
            None => Ok(false),
            Some(Ok(_)) => Ok(true),
            Some(Err(error)) => Err(
                Failure { context: self.object_message("list", prefix), error },
            ),
        }
    }

    /// Immediate child "directories" under `prefix/`, as full prefixes. `reply`
    /// is what came of listing with a delimiter.
    pub fn common_prefixes<E>(&self, prefix: &str, reply: Result<Vec<Path>, E>) -> (result: Result<
        Vec<String>,
        Failure<E>,
    >)
        ensures
            match reply {
                Ok(paths) => {
                    &&& result matches Ok(prefixes)
                    &&& prefixes@.len() == paths@.len()
                    &&& forall|i: int|
                        0 <= i < paths@.len() ==> (#[trigger] prefixes@[i])@ == path_text(paths@[i])
                },
                Err(error) => {
                    &&& result matches Err(failure)
                    &&& failure.context@ == object_context("list"@, self.name_text(), prefix@)
                    &&& failure.error == error
                },
            },
    {
        let paths = match reply {
            Ok(paths) => paths,
            Err(error) => {
                return Err(Failure { context: self.object_message("list", prefix), error });
            },
        };
        let mut prefixes: Vec<String> = Vec::new();
        let mut i: usize = 0;
        while i < paths.len()
            invariant
                i <= paths@.len(),
                prefixes@.len() == i,
                forall|k: int| 0 <= k < i ==> (#[trigger] prefixes@[k])@ == path_text(paths@[k]),
            decreases paths@.len() - i,
        {
            prefixes.push(path_to_string(&paths[i]));
            i = i + 1;
        }
        Ok(prefixes)
    }

    /// Where the whole bucket is listed, to prove that it is reachable and that
    /// the credential is accepted.
    pub fn validate_target(&self) -> (target: ListTarget<'_>)
        ensures
            *target.store == self.client(Lane::Ordinary),
            target.prefix is None,
    {
        ListTarget { store: &self.store, prefix: None }
    }

    /// Is the bucket reachable and the credential accepted? `first` is the first
    /// item of a listing of the whole bucket.
    pub fn validate<M, E>(&self, first: Option<Result<M, E>>) -> (result: Result<(), Failure<E>>)
        ensures
            match first {
                Some(Err(error)) => {
                    &&& result matches Err(failure)
                    &&& failure.context@ == bucket_context("validate"@, self.name_text())
                    &&& failure.error == error
                },
                _ => result is Ok,
            },
    {
        match first {
            None | Some(Ok(_)) => Ok(()),
            Some(Err(error)) => Err(Failure { context: self.bucket_message("validate"), error }),
        }
    }
}

/// An object as a store holds it: its body, and the entity tag that the store
/// gives for it, where it gives one.
pub struct Held<B> {
    pub body: B,
    pub e_tag: Option<Seq<char>>,
}

/// A store that holds `held` under a key lets a write through.
pub open spec fn admits<B>(mode: PutModeModel, held: Option<Held<B>>) -> bool {
    match mode {
        PutModeModel::Overwrite => true,
        PutModeModel::Create => held is None,
        PutModeModel::Update { e_tag, .. } => {
            &&& held matches Some(object)
            &&& e_tag is Some
            &&& object.e_tag == e_tag
        },
    }
}

/// `reply` is how a store that holds `held` under a key answers a write that
/// would leave `written` there: it applies a write that it lets
/// through, and rejects any other for its precondition.
pub open spec fn answers<B, E>(
    mode: PutModeModel,
    held: Option<Held<B>>,
    written: Held<B>,
    reply: Result<PutResult, StoreError<E>>,
) -> bool {
    if admits(mode, held) {
        reply matches Ok(result) && text_of(result.e_tag) == written.e_tag
    } else {
        reply matches Err(error) && is_clean_rejection(error.kind)
    }
}

/// What a store that held `held` under a key holds there after a write of
/// `written`: that object where it lets the write through, what it held
/// where it does not.
pub open spec fn held_after<B>(
    mode: PutModeModel,
    held: Option<Held<B>>,
    written: Held<B>,
) -> Option<Held<B>> {
    if admits(mode, held) {
        Some(written)
    } else {
        held
    }
}

/// `reply` is how a store that holds `held` under a key answers a read.
pub open spec fn serves<B, E>(
    held: Option<Held<B>>,
    reply: Result<(ObjectMeta, Result<B, E>), StoreError<E>>,
) -> bool {
    match held {
        Some(object) => {
            &&& reply matches Ok((meta, Ok(body)))
            &&& body == object.body
            &&& text_of(meta.e_tag) == object.e_tag
        },
        None => reply matches Err(error) && error.kind is NotFound,
    }
}

/// A conditional write counts as rejected just where the store rejected it for
/// its precondition or for an object in its place, and as applied just where
/// the store says so. Every other failure leaves it open.
pub proof fn law_only_clean_rejections_reject<E>(reply: Result<PutResult, StoreError<E>>)
    ensures
        cas_outcome(reply) is Rejected <==> (reply matches Err(error) && (error.kind is Precondition
            || error.kind is AlreadyExists)),
        cas_outcome(reply) is Applied <==> reply is Ok,
        cas_outcome(reply) is Ambiguous <==> (reply matches Err(error) && !(
        error.kind is Precondition || error.kind is AlreadyExists)),
{
}

/// The conditional-write contract, against a store that answers by its
/// preconditions: a create applies to an absent key and is cleanly rejected over
/// an object; an update with the current version applies, and one with a stale
/// version, or over an absent key, is cleanly rejected.
pub proof fn law_cas_contract<B, E>(
    version: Option<Seq<char>>,
    held: Option<Held<B>>,
    written: Held<B>,
    reply: Result<PutResult, StoreError<E>>,
)
    requires
        answers(cas_mode(version), held, written, reply),
    ensures
        ({
            let named = match version {
                None => held is None,
                Some(version) => held matches Some(object) && object.e_tag == Some(version),
            };
            &&& cas_outcome(reply) is Applied <==> named
            &&& cas_outcome(reply) is Rejected <==> !named
        }),
{
}

/// A clean rejection leaves the object as it was: where nobody else writes, a
/// read after it gives the body and the version that a read before it gave.
pub proof fn law_rejection_changes_nothing<B, E>(
    version: Option<Seq<char>>,
    held: Option<Held<B>>,
    written: Held<B>,
    reply: Result<PutResult, StoreError<E>>,
    before: Result<(ObjectMeta, Result<B, E>), StoreError<E>>,
    after: Result<(ObjectMeta, Result<B, E>), StoreError<E>>,
)
    requires
        answers(cas_mode(version), held, written, reply),
        cas_outcome(reply) is Rejected,
        serves(held, before),
        serves(held_after(cas_mode(version), held, written), after),
    ensures
        held_after(cas_mode(version), held, written) == held,
        read_outcome(after) == read_outcome(before),
{
}

/// An applied conditional write reads back: where nobody else writes, a read
/// after it gives the body that was written and the version that the write gave.
pub proof fn law_applied_write_reads_back<B, E>(
    version: Option<Seq<char>>,
    held: Option<Held<B>>,
    written: Held<B>,
    reply: Result<PutResult, StoreError<E>>,
    after: Result<(ObjectMeta, Result<B, E>), StoreError<E>>,
)
    requires
        answers(cas_mode(version), held, written, reply),
        serves(held_after(cas_mode(version), held, written), after),
    ensures
        cas_outcome(reply) matches CasOutcome::Applied(new_version) ==> read_outcome(after)
            == ReadOutcome::<B, E>::Found(written.body, new_version),
{
}

/// The version that a conditional write gave an object, and that a read gives
/// of it, is what the next conditional write must name: a write that names it
/// is let through just where the object has not changed since.
pub proof fn law_version_guards_next_write<B>(e_tag: Seq<char>, held: Option<Held<B>>)
    ensures
        admits(cas_mode(Some(version_of(Some(e_tag)))), held) <==> (held matches Some(object)
            && object.e_tag == Some(e_tag)),
{
}

/// A plain write, with metadata or without, is never turned away for what the
/// store holds: where nobody else writes, a read after it gives the body that
/// was written.
pub proof fn law_plain_write_reads_back<B, E>(
    held: Option<Held<B>>,
    written: Held<B>,
    after: Result<(ObjectMeta, Result<B, E>), StoreError<E>>,
)
    requires
        serves(held_after(PutModeModel::Overwrite, held, written), after),
    ensures
        admits(PutModeModel::Overwrite, held),
        read_outcome(after) == ReadOutcome::<B, E>::Found(
            written.body,
            version_of(written.e_tag),
        ),
{
}

/// A write with an empty list of metadata is a plain write: it goes through the
/// same client to the same object, requires as little, sends no attributes, and
/// its reply amounts to the same.
pub proof fn law_write_without_metadata_is_plain<E>(
    bucket: Bucket,
    key: Seq<char>,
    plain: Write<'_>,
    write: Write<'_>,
    reply: Result<PutResult, E>,
    plain_result: Result<(), Failure<E>>,
    result: Result<(), Failure<E>>,
)
    requires
        bucket.sends(plain, Lane::Ordinary, key, PutModeModel::Overwrite, no_entries()),
        bucket.sends(write, Lane::Ordinary, key, PutModeModel::Overwrite, entries(Seq::empty())),
        bucket.writes(key, reply, plain_result),
        bucket.writes(key, reply, result),
    ensures
        *write.target.store == *plain.target.store,
        path_text(write.target.path) == path_text(plain.target.path),
        write.mode@ == plain.mode@,
        metadata_of(write.attributes) == metadata_of(plain.attributes),
        other_attributes_of(write.attributes) == other_attributes_of(plain.attributes),
        metadata_of(write.attributes) == no_entries(),
        other_attributes_of(write.attributes) == no_entries(),
        result is Ok <==> plain_result is Ok,
        result matches Err(failure) ==> {
            &&& failure.context@ == plain_result->Err_0.context@
            &&& failure.error == plain_result->Err_0.error
        },
{
}

/// A verb and a location start a message as the context of a call, whatever
/// follows.
proof fn lemma_location_starts_context(verb: Seq<char>, rest: Seq<char>)
    requires
        is_verb(verb),
    ensures
        starts_as_context(verb + " s3://"@ + rest),
{
    let text = verb + " s3://"@ + rest;
    let n = verb.len() as int;
    assert(text.take(n) =~= verb);
    assert(text.subrange(n, n + " s3://"@.len()) =~= " s3://"@);
    assert(locates_at(text, n));
}

/// What a bucket's call adds to an error changes nothing of whether the
/// credential was rejected, whatever the bucket's name and the key read like:
/// the verdict on the failure is that on the store's error.
pub proof fn law_call_context_keeps_verdict(
    verb: Seq<char>,
    name: Seq<char>,
    key: Seq<char>,
    error: Seq<CauseModel>,
)
    requires
        is_verb(verb),
        error.len() > 0,
    ensures
        chain_unauthorized(failure_chain(bucket_context(verb, name), error))
            <==> chain_unauthorized(error),
        chain_unauthorized(failure_chain(object_context(verb, name, key), error))
            <==> chain_unauthorized(error),
        chain_unauthorized(failure_chain(ambiguous_context(name, key), error))
            <==> chain_unauthorized(error),
{
    let object = name + "/"@ + key;
    let ambiguous = object + " may have committed"@;
    lemma_location_starts_context(verb, name);
    lemma_location_starts_context(verb, object);
    lemma_location_starts_context("conditional write"@, ambiguous);
    assert(object_context(verb, name, key) =~= verb + " s3://"@ + object);
    assert(ambiguous_context(name, key) =~= "conditional write"@ + " s3://"@ + ambiguous);
    law_context_keeps_verdict(bucket_context(verb, name), error);
    law_context_keeps_verdict(object_context(verb, name, key), error);
    law_context_keeps_verdict(ambiguous_context(name, key), error);
}

/// What opening a bucket adds to an error changes nothing of whether the
/// credential was rejected either.
pub proof fn law_opening_context_keeps_verdict(context: Seq<char>, error: Seq<CauseModel>)
    requires
        context == "app user agent"@ || context == "build s3 client"@ || context
            == "build s3 cas client"@,
    ensures
        chain_unauthorized(failure_chain(context, error)) <==> chain_unauthorized(error),
{
    reveal_strlit("app user agent");
    reveal_strlit("build s3 client");
    reveal_strlit("build s3 cas client");
    reveal_strlit("status 403");
    reveal_strlit("status 401");
    assert forall|at: int| !(#[trigger] reports_at(context, at)) by {
        if reports_at(context, at) {
            let found = context.subrange(at, at + 10);
            assert(found[0] == 's' && found[1] == 't');
            assert(context[at] == 's' && context[at + 1] == 't');
            assert(at == 0 || at == 1 || at == 2 || at == 3 || at == 4 || at == 5 || at == 6 || at
                == 7 || at == 8 || at == 9);
        }
    }
    law_context_keeps_verdict(context, error);
}

/// Conditional writes are never tried again.
pub proof fn law_conditional_lane_never_retries(
    bucket: Bucket,
    environment: Map<Setting, SettingValue>,
    client: Map<Setting, SettingValue>,
)
    requires
        bucket.runs_on(environment, client),
    ensures
        store_settings(bucket.client(Lane::Conditional)).contains_pair(
            Setting::MaxRetries,
            SettingValue::Count(0),
        ),
{
}

/// The two clients of a bucket differ in how often they try again, and in
/// nothing else.
pub proof fn law_lanes_differ_in_retries_alone(
    bucket: Bucket,
    environment: Map<Setting, SettingValue>,
    client: Map<Setting, SettingValue>,
    setting: Setting,
)
    requires
        bucket.runs_on(environment, client),
        !(setting is MaxRetries),
    ensures
        ({
            let ordinary = store_settings(bucket.client(Lane::Ordinary));
            let conditional = store_settings(bucket.client(Lane::Conditional));
            &&& ordinary.contains_key(setting) <==> conditional.contains_key(setting)
            &&& ordinary[setting] == conditional[setting]
        }),
{
}

/// Every request of an opened bucket is bounded, whatever the environment sets:
/// in connecting, in each attempt and in all of its attempts together; and every
/// conditional write goes by entity tags.
pub proof fn law_requests_are_bounded(
    bucket: Bucket,
    environment: Map<Setting, SettingValue>,
    app: Option<Seq<char>>,
    lane: Lane,
)
    requires
        bucket.runs_on(environment, bucket_client(app)),
    ensures
        ({
            let settings = store_settings(bucket.client(lane));
            &&& settings.contains_pair(Setting::ConnectTimeout, SettingValue::Seconds(3))
            &&& settings.contains_pair(Setting::Timeout, SettingValue::Seconds(15))
            &&& settings.contains_pair(Setting::RetryTimeout, SettingValue::Seconds(30))
            &&& settings.contains_pair(
                Setting::ConditionalPut,
                SettingValue::Precondition(crate::settings::ConditionalPut::ETagMatch),
            )
        }),
{
}

/// An application's label shows in the user agent, and in nothing else.
pub proof fn law_label_shows_in_user_agent_alone(label: Seq<char>, setting: Setting)
    ensures
        bucket_client(Some(label)).contains_pair(
            Setting::UserAgent,
            SettingValue::Text("celld app/"@ + label),
        ),
        !(setting is UserAgent) ==> {
            &&& bucket_client(Some(label)).contains_key(setting) <==> bucket_client(
                None,
            ).contains_key(setting)
            &&& bucket_client(Some(label))[setting] == bucket_client(None)[setting]
        },
{
}

/// A prefix is listed alike with and without a slash at its end.
pub proof fn law_trailing_slash_is_optional(prefix: Seq<char>)
    ensures
        listed_key(prefix.push('/')) == listed_key(prefix),
{
    lemma_without_trailing_pushed(prefix, '/');
}

/// A listing without an error gives every item, in the store's order, after
/// what came before.
pub proof fn law_listing_is_complete<M, E>(objects: Seq<M>, items: Seq<Result<M, E>>)
    requires
        forall|i: int| 0 <= i < items.len() ==> (#[trigger] items[i]) is Ok,
    ensures
        listing(objects, items) == ListStepModel::<M, E>::Done(
            objects + items.map_values(|item: Result<M, E>| item->Ok_0),
        ),
    decreases items.len(),
{
    let found = items.map_values(|item: Result<M, E>| item->Ok_0);
    if items.len() == 0 {
        assert(objects + found =~= objects);
    } else {
        let rest = items.drop_first();
        assert(items[0] is Ok);
        assert forall|i: int| 0 <= i < rest.len() implies (#[trigger] rest[i]) is Ok by {
            assert(rest[i] == items[i + 1]);
        }
        law_listing_is_complete(objects.push(items[0]->Ok_0), rest);
        assert(objects.push(items[0]->Ok_0) + rest.map_values(
            |item: Result<M, E>| item->Ok_0,
        ) =~= objects + found);
    }
}

/// A listing fails with its first error, whatever comes after.
pub proof fn law_listing_fails_at_first_error<M, E>(
    objects: Seq<M>,
    items: Seq<Result<M, E>>,
    at: int,
)
    requires
        0 <= at < items.len(),
        forall|i: int| 0 <= i < at ==> (#[trigger] items[i]) is Ok,
        items[at] is Err,
    ensures
        listing(objects, items) == ListStepModel::<M, E>::Failed(items[at]->Err_0),
    decreases items.len(),
{
    if at > 0 {
        let rest = items.drop_first();
        assert(items[0] is Ok);
        assert forall|i: int| 0 <= i < at - 1 implies (#[trigger] rest[i]) is Ok by {
            assert(rest[i] == items[i + 1]);
        }
        law_listing_fails_at_first_error(objects.push(items[0]->Ok_0), rest, at - 1);
    }
}

/// Where a listing succeeds, its first item tells whether it holds anything.
pub proof fn law_first_item_tells<M, E>(items: Seq<Result<M, E>>)
    requires
        forall|i: int| 0 <= i < items.len() ==> (#[trigger] items[i]) is Ok,
    ensures
        listing(Seq::empty(), items) matches ListStepModel::Done(objects) && holds_any(
            if items.len() > 0 {
                Some(items[0])
            } else {
                None
            },
        ) == Ok::<bool, E>(objects.len() > 0),
{
    law_listing_is_complete(Seq::empty(), items);
    if items.len() > 0 {
        assert(items[0] is Ok);
    }
}

/// A call on a key reaches the object of that very key, with the client of its
/// lane.
pub proof fn law_target_is_the_keys_object(
    bucket: Bucket,
    target: Target<'_>,
    lane: Lane,
    key: Seq<char>,
)
    requires
        bucket.aims_at(target, lane, key),
    ensures
        *target.store == bucket.client(lane),
        path_text(target.path) == encoded_key(key),
{
}

/// Calls on the same key reach the same object, through whichever client: what
/// a conditional write of a key leaves is what a read of it finds, a plain write
/// replaces and a delete takes away.
pub proof fn law_calls_on_a_key_reach_one_object(
    bucket: Bucket,
    target: Target<'_>,
    lane: Lane,
    other_target: Target<'_>,
    other_lane: Lane,
    key: Seq<char>,
)
    requires
        bucket.aims_at(target, lane, key),
        bucket.aims_at(other_target, other_lane, key),
    ensures
        path_text(target.path) == path_text(other_target.path),
        path_text(target.path) == encoded_key(key),
{
}

/// A plain write goes to the object of its key through the ordinary client. It
/// requires nothing of what is there and sends no attribute.
pub proof fn law_plain_write_is_unconditional(
    bucket: Bucket,
    write: Write<'_>,
    key: Seq<char>,
    name: Seq<char>,
)
    requires
        bucket.sends(write, Lane::Ordinary, key, PutModeModel::Overwrite, no_entries()),
    ensures
        *write.target.store == bucket.client(Lane::Ordinary),
        path_text(write.target.path) == encoded_key(key),
        write.mode is Overwrite,
        !metadata_of(write.attributes).contains_key(name),
        !other_attributes_of(write.attributes).contains_key(name),
{
}

/// A write with metadata goes to the object of its key through the ordinary
/// client and requires nothing of what is there. Under each name that it was
/// given it sends the last value given for it, whole, and under no other name
/// anything.
pub proof fn law_metadata_write_sends_last_values(
    bucket: Bucket,
    write: Write<'_>,
    key: Seq<char>,
    meta: Seq<(&'static str, &str)>,
    name: Seq<char>,
)
    requires
        bucket.sends(write, Lane::Ordinary, key, PutModeModel::Overwrite, entries(meta)),
    ensures
        *write.target.store == bucket.client(Lane::Ordinary),
        path_text(write.target.path) == encoded_key(key),
        write.mode is Overwrite,
        !other_attributes_of(write.attributes).contains_key(name),
        metadata_of(write.attributes).contains_key(name) <==> exists|i: int|
            0 <= i < meta.len() && (#[trigger] meta[i]).0@ == name,
        forall|i: int|
            0 <= i < meta.len() && (#[trigger] meta[i]).0@ == name && (forall|k: int|
                i < k < meta.len() ==> (#[trigger] meta[k]).0@ != name)
                ==> metadata_of(write.attributes)[name] == meta[i].1@,
{
    if forall|i: int| 0 <= i < meta.len() ==> (#[trigger] meta[i]).0@ != name {
        law_unnamed_metadata_is_absent(meta, name);
    } else {
        let i = lemma_last_named(meta, name, meta.len() as int);
        law_metadata_reads_back(meta, i);
        assert forall|k: int|
            0 <= k < meta.len() && (#[trigger] meta[k]).0@ == name && (forall|l: int|
                k < l < meta.len() ==> (#[trigger] meta[l]).0@ != name) implies metadata_of(
            write.attributes,
        )[name] == meta[k].1@ by {
            assert(k <= i);
            if k < i {
                assert(meta[i].0@ != name);
            }
        }
    }
}

/// A name that one of the first pairs has is the name of a last one among them.
proof fn lemma_last_named(meta: Seq<(&'static str, &str)>, name: Seq<char>, end: int) -> (last: int)
    requires
        0 <= end <= meta.len(),
        exists|i: int| 0 <= i < end && (#[trigger] meta[i]).0@ == name,
    ensures
        0 <= last < end,
        meta[last].0@ == name,
        forall|k: int| last < k < end ==> (#[trigger] meta[k]).0@ != name,
    decreases end,
{
    if meta[end - 1].0@ == name {
        end - 1
    } else {
        let last = lemma_last_named(meta, name, end - 1);
        last
    }
}

/// A conditional write goes to the object of its key through the client that
/// never tries again, and sends no attribute. Without a version it requires that
/// the object is absent; with one, that the object has that very version.
pub proof fn law_conditional_write_requires_the_version(
    bucket: Bucket,
    write: Write<'_>,
    key: Seq<char>,
    version: Option<&str>,
    name: Seq<char>,
)
    requires
        bucket.sends(
            write,
            Lane::Conditional,
            key,
            cas_mode(str_text_of(version)),
            no_entries(),
        ),
    ensures
        *write.target.store == bucket.client(Lane::Conditional),
        path_text(write.target.path) == encoded_key(key),
        version is None <==> write.mode is Create,
        version matches Some(text) ==> {
            &&& write.mode matches PutMode::Update(update)
            &&& update.e_tag matches Some(tag)
            &&& tag@ == text@
            &&& update.version is None
        },
        !metadata_of(write.attributes).contains_key(name),
        !other_attributes_of(write.attributes).contains_key(name),
{
}

/// A read gives the body and the entity tag that the store sent, both whole, and
/// no object just where the store has none. Every other error stays an error, and
/// is told from one in reading the body.
pub proof fn law_read_gives_what_the_store_sent<B, E>(
    reply: Result<(ObjectMeta, Result<B, E>), StoreError<E>>,
)
    ensures
        reply matches Ok((meta, Ok(body))) ==> {
            &&& read_outcome(reply) matches ReadOutcome::Found(found, version)
            &&& found == body
            &&& meta.e_tag matches Some(tag) ==> version == tag@
            &&& meta.e_tag is None ==> version.len() == 0
        },
        reply matches Ok((meta, Err(error))) ==> read_outcome(reply) == ReadOutcome::<
            B,
            E,
        >::BodyFailed(error),
        reply matches Err(error) ==> error.kind == ErrorKind::NotFound ==> read_outcome(reply)
            == ReadOutcome::<B, E>::Absent,
        reply matches Err(error) ==> error.kind != ErrorKind::NotFound ==> read_outcome(reply)
            == ReadOutcome::<B, E>::Failed(error.error),
{
}

/// An applied conditional write gives the entity tag that the store sent, whole,
/// and a version that a read of the same tag gives too.
pub proof fn law_applied_write_gives_the_entity_tag<B, E>(
    result: PutResult,
    reply: Result<PutResult, StoreError<E>>,
    meta: ObjectMeta,
    body: B,
)
    requires
        reply == Ok::<PutResult, StoreError<E>>(result),
        result.e_tag == meta.e_tag,
    ensures
        cas_outcome(reply) matches CasOutcome::Applied(version) && {
            &&& result.e_tag matches Some(tag) ==> version == tag@
            &&& result.e_tag is None ==> version.len() == 0
            &&& read_outcome(Ok::<_, StoreError<E>>((meta, Ok::<B, E>(body)))) == ReadOutcome::<
                B,
                E,
            >::Found(body, version)
        },
{
}

/// A plain write succeeds just where the store says so. Otherwise it fails with
/// the store's error, under the message that names the write, the bucket and the
/// key.
pub proof fn law_write_succeeds_as_the_store_says<E>(
    bucket: Bucket,
    key: Seq<char>,
    reply: Result<PutResult, E>,
    result: Result<(), Failure<E>>,
)
    requires
        bucket.writes(key, reply, result),
    ensures
        result is Ok <==> reply is Ok,
        reply matches Err(error) ==> {
            &&& result->Err_0.error == error
            &&& result->Err_0.context@ == object_context("write"@, bucket.name_text(), key)
        },
{
}

/// Exactly the slashes at its end are taken off a prefix before it is listed:
/// what is listed stops right behind the last other character.
pub proof fn law_listed_prefix_stops_at_its_slashes(prefix: Seq<char>, end: int)
    requires
        0 <= end <= prefix.len(),
        forall|k: int| end <= k < prefix.len() ==> #[trigger] prefix[k] == '/',
        end > 0 ==> prefix[end - 1] != '/',
    ensures
        listed_key(prefix) == encoded_key(prefix.take(end)),
{
    lemma_without_trailing_stops(prefix, '/', end);
}

/// A prefix that does not end with a slash is listed as it stands.
pub proof fn law_bare_prefix_is_listed_as_it_stands(prefix: Seq<char>)
    requires
        prefix.len() > 0 ==> prefix.last() != '/',
    ensures
        listed_key(prefix) == encoded_key(prefix),
{
    assert(prefix.take(prefix.len() as int) =~= prefix);
    law_listed_prefix_stops_at_its_slashes(prefix, prefix.len() as int);
}

/// Each object that a listing gives comes right behind those before it, the end
/// gives what came, and an error ends the listing.
pub proof fn law_listing_takes_items_in_order<M, E>(
    objects: Seq<M>,
    item: Option<Result<M, E>>,
)
    ensures
        item is None ==> list_step(objects, item) == ListStepModel::<M, E>::Done(objects),
        item matches Some(Ok(object)) ==> {
            &&& list_step(objects, item) matches ListStepModel::More(more)
            &&& more.len() == objects.len() + 1
            &&& more.take(objects.len() as int) == objects
            &&& more.last() == object
        },
        item matches Some(Err(error)) ==> list_step(objects, item) == ListStepModel::<
            M,
            E,
        >::Failed(error),
{
    if let Some(Ok(object)) = item {
        assert(objects.push(object).take(objects.len() as int) =~= objects);
    }
}

/// Something exists under a prefix just where the listing has a first item, and
/// an error in its place stays an error.
pub proof fn law_anything_exists_where_an_item_comes<M, E>(first: Option<Result<M, E>>)
    ensures
        first is None ==> holds_any(first) == Ok::<bool, E>(false),
        first matches Some(Ok(_)) ==> holds_any(first) == Ok::<bool, E>(true),
        first matches Some(Err(error)) ==> holds_any(first) == Err::<bool, E>(error),
{
}

/// The message of a failure names the call, then ` s3://`, then the bucket, and
/// nothing more.
pub proof fn law_message_names_call_and_bucket(verb: Seq<char>, name: Seq<char>)
    ensures
        ({
            let message = bucket_context(verb, name);
            let named = verb.len() + 6;
            &&& message.len() == named + name.len()
            &&& message.take(verb.len() as int) == verb
            &&& message.subrange(verb.len() as int, named as int) == " s3://"@
            &&& message.skip(named as int) == name
        }),
{
    reveal_strlit(" s3://");
    let message = bucket_context(verb, name);
    let end: int = verb.len() as int;
    assert(message.take(end) =~= verb);
    assert(message.subrange(end, end + 6) =~= " s3://"@);
    assert(message.skip(end + 6) =~= name);
}

/// The message of a failure on an object names the call and the bucket as that on
/// the bucket does, then a slash, then the key, whole.
pub proof fn law_message_names_key(verb: Seq<char>, name: Seq<char>, key: Seq<char>)
    ensures
        ({
            let message = object_context(verb, name, key);
            let start = bucket_context(verb, name);
            let end: int = start.len() as int;
            &&& message.len() == end + 1 + key.len()
            &&& message.take(end) == start
            &&& message[end] == '/'
            &&& message.skip(end + 1) == key
        }),
{
    reveal_strlit("/");
    let message = object_context(verb, name, key);
    let start = bucket_context(verb, name);
    let end: int = start.len() as int;
    assert(message.take(end) =~= start);
    assert(message.skip(end + 1) =~= key);
}

/// The message of an ambiguous conditional write is that of a conditional write
/// of its key, and says that the write may have committed.
pub proof fn law_ambiguous_message_says_so(name: Seq<char>, key: Seq<char>)
    ensures
        ({
            let message = ambiguous_context(name, key);
            let start = object_context("conditional write"@, name, key);
            &&& start.is_prefix_of(message)
            &&& message.skip(start.len() as int) == " may have committed"@
        }),
{
    let message = ambiguous_context(name, key);
    let start = object_context("conditional write"@, name, key);
    assert(message.subrange(0, start.len() as int) =~= start);
    assert(message.skip(start.len() as int) =~= " may have committed"@);
}

/// A label is accepted just where each of its characters is a tab or no ASCII
/// control character. Without one there is nothing to refuse.
pub proof fn law_label_is_refused_for_control_characters(app: Option<&str>)
    ensures
        app is None ==> is_app_label(str_text_of(app)),
        app matches Some(label) ==> (is_app_label(str_text_of(app)) <==> forall|i: int|
            0 <= i < label@.len() ==> {
                let c = #[trigger] label@[i];
                c == '\t' || (c as int >= 32 && c as int != 127)
            }),
{
    if let Some(label) = app {
        assert(forall|i: int|
            0 <= i < label@.len() ==> (is_header_char(#[trigger] label@[i]) <==> (label@[i] == '\t'
                || (label@[i] as int >= 32 && label@[i] as int != 127))));
    }
}

/// The HTTP client of a bucket takes 15 seconds for a request and 3 for
/// connecting, allows plain HTTP, and names the application's label where there
/// is one. Nothing else is set on it.
pub proof fn law_client_is_bounded_and_labelled(app: Option<&str>, setting: Setting)
    ensures
        ({
            let client = bucket_client(str_text_of(app));
            &&& client.contains_pair(Setting::Timeout, SettingValue::Seconds(15))
            &&& client.contains_pair(Setting::ConnectTimeout, SettingValue::Seconds(3))
            &&& client.contains_pair(Setting::AllowHttp, SettingValue::Flag(true))
            &&& app matches Some(label) ==> client.contains_pair(
                Setting::UserAgent,
                SettingValue::Text("celld app/"@ + label@),
            )
            &&& app is None ==> !client.contains_key(Setting::UserAgent)
            &&& client.contains_key(setting) ==> setting is Timeout || setting is ConnectTimeout
                || setting is AllowHttp || setting is UserAgent
        }),
{
}

/// Both clients of an opened bucket run on what its configuration sets, whatever
/// the environment holds: they are bound to its bucket and its region, and reach
/// it the way and with the credentials that the configuration says.
pub proof fn law_clients_run_on_the_configuration(
    bucket: Bucket,
    environment: Map<Setting, SettingValue>,
    client: Map<Setting, SettingValue>,
    lane: Lane,
)
    requires
        bucket.runs_on(environment, client),
    ensures
        ({
            let settings = store_settings(bucket.client(lane));
            let config = bucket.config();
            &&& settings.contains_pair(Setting::Bucket, SettingValue::Text(config.bucket))
            &&& settings.contains_pair(Setting::Region, SettingValue::Text(config.region))
            &&& settings.contains_pair(
                Setting::VirtualHostedStyle,
                SettingValue::Flag(!config.force_path_style),
            )
            &&& config.endpoint matches Some(endpoint) ==> settings.contains_pair(
                Setting::Endpoint,
                SettingValue::Text(endpoint),
            )
            &&& config.credentials matches Some(credentials) ==> {
                &&& settings.contains_pair(
                    Setting::AccessKeyId,
                    SettingValue::Text(credentials.access_key_id),
                )
                &&& settings.contains_pair(
                    Setting::SecretAccessKey,
                    SettingValue::Text(credentials.secret_access_key),
                )
                &&& credentials.session_token matches Some(token) ==> settings.contains_pair(
                    Setting::SessionToken,
                    SettingValue::Text(token),
                )
            }
        }),
{
}

/// What its configuration leaves open of how a bucket is reached, both clients of
/// an opened bucket take from the environment, and from nowhere else.
pub proof fn law_clients_take_the_rest_from_the_environment(
    bucket: Bucket,
    environment: Map<Setting, SettingValue>,
    client: Map<Setting, SettingValue>,
    lane: Lane,
    setting: Setting,
)
    requires
        bucket.runs_on(environment, client),
        setting is Endpoint || setting is AccessKeyId || setting is SecretAccessKey
            || setting is SessionToken,
        setting is Endpoint ==> bucket.config().endpoint is None,
        setting is AccessKeyId || setting is SecretAccessKey ==> bucket.config().credentials is None,
        setting is SessionToken ==> (bucket.config().credentials matches Some(credentials)
            ==> credentials.session_token is None),
    ensures
        ({
            let settings = store_settings(bucket.client(lane));
            &&& settings.contains_key(setting) <==> environment.contains_key(setting)
            &&& environment.contains_key(setting) ==> settings[setting] == environment[setting]
        }),
{
}

/// Both clients of a bucket that an application opens try again for 30 seconds
/// at most, allow 15 seconds for an attempt and 3 for connecting, allow plain
/// HTTP, write conditionally by entity tags, and name the application's label
/// where there is one. The ordinary one tries twice more, the other never.
pub proof fn law_opened_clients_are_bounded(
    bucket: Bucket,
    environment: Map<Setting, SettingValue>,
    app: Option<&str>,
    lane: Lane,
)
    requires
        bucket.runs_on(environment, bucket_client(str_text_of(app))),
    ensures
        ({
            let settings = store_settings(bucket.client(lane));
            &&& lane is Ordinary ==> settings.contains_pair(
                Setting::MaxRetries,
                SettingValue::Count(2),
            )
            &&& lane is Conditional ==> settings.contains_pair(
                Setting::MaxRetries,
                SettingValue::Count(0),
            )
            &&& settings.contains_pair(Setting::RetryTimeout, SettingValue::Seconds(30))
            &&& settings.contains_pair(Setting::Timeout, SettingValue::Seconds(15))
            &&& settings.contains_pair(Setting::ConnectTimeout, SettingValue::Seconds(3))
            &&& settings.contains_pair(Setting::AllowHttp, SettingValue::Flag(true))
            &&& settings.contains_pair(
                Setting::ConditionalPut,
                SettingValue::Precondition(crate::settings::ConditionalPut::ETagMatch),
            )
            &&& app matches Some(label) ==> settings.contains_pair(
                Setting::UserAgent,
                SettingValue::Text("celld app/"@ + label@),
            )
            &&& app is None ==> !settings.contains_key(Setting::UserAgent)
        }),
{
}

/// The name that messages give is the one that the bucket shows.
proof fn law_messages_give_the_shown_name(bucket: Bucket)
    ensures
        bucket.name_text() == bucket.name@,
{
}

/// What a bucket's call adds to an error is no ground to reject the credential,
/// whichever call it is and whatever the bucket's name and the key read like.
pub proof fn law_every_call_keeps_the_verdict(
    verb: Seq<char>,
    name: Seq<char>,
    key: Seq<char>,
    error: Seq<CauseModel>,
)
    requires
        verb == "read"@ || verb == "read body"@ || verb == "head"@ || verb == "write"@ || verb
            == "conditional write"@ || verb == "delete"@ || verb == "list"@ || verb == "validate"@,
        error.len() > 0,
    ensures
        chain_unauthorized(
            seq![CauseModel { kind: None, text: bucket_context(verb, name) }] + error,
        ) <==> chain_unauthorized(error),
        chain_unauthorized(
            seq![CauseModel { kind: None, text: object_context(verb, name, key) }] + error,
        ) <==> chain_unauthorized(error),
        chain_unauthorized(
            seq![CauseModel { kind: None, text: ambiguous_context(name, key) }] + error,
        ) <==> chain_unauthorized(error),
{
    law_call_context_keeps_verdict(verb, name, key, error);
}

} // verus!
