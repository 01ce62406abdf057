//! The daemon-wide object-storage policy: which bucket, reached how, with
//! which credentials.

use crate::failure::Failure;
use crate::failure::StorageError;
use crate::settings::builder_build;
use crate::settings::builder_clone;
use crate::settings::builder_from_env;
use crate::settings::builder_settings;
use crate::settings::client_settings;
use crate::settings::is_build_of;
use crate::settings::is_from_environment;
use crate::settings::law_building_gives_the_result;
use crate::settings::law_client_has_its_builders_settings;
use crate::settings::law_environment_gives_the_builder;
use crate::settings::store_settings;
use crate::settings::with_access_key_id;
use crate::settings::with_bucket_name;
use crate::settings::with_client;
use crate::settings::with_client_options;
use crate::settings::with_conditional_put;
use crate::settings::with_endpoint;
use crate::settings::with_limits;
use crate::settings::with_region;
use crate::settings::with_retry;
use crate::settings::with_secret_access_key;
use crate::settings::with_token;
use crate::settings::with_virtual_hosted_style;
use crate::settings::ConditionalPut;
use crate::settings::RetryLimits;
use crate::settings::Setting;
use crate::settings::SettingValue;
use crate::text::lemma_without_leading_idempotent;
use crate::text::lemma_without_leading_prefixed;
use crate::text::or_empty;
use crate::text::own;
use crate::text::str_text_of;
use crate::text::text_of;
use crate::text::text_or_empty;
use crate::text::trim_leading;
use crate::text::without_leading;
use object_store::aws::AmazonS3;
use object_store::aws::AmazonS3Builder;
use object_store::ClientOptions;
use vstd::prelude::*;

verus! {

/// A credential that does not change.
#[derive(PartialEq, Eq)]
pub struct StaticCredentials {
    pub access_key_id: String,
    pub secret_access_key: String,
    pub session_token: Option<String>,
}

/// What a static credential says.
pub struct CredentialsModel {
    pub access_key_id: Seq<char>,
    pub secret_access_key: Seq<char>,
    pub session_token: Option<Seq<char>>,
}

impl View for StaticCredentials {
    type V = CredentialsModel;

    open spec fn view(&self) -> CredentialsModel {
        CredentialsModel {
            access_key_id: self.access_key_id@,
            secret_access_key: self.secret_access_key@,
            session_token: text_of(self.session_token),
        }
    }
}

impl Clone for StaticCredentials {
    fn clone(&self) -> (copy: Self)
        ensures
            copy@ == self@,
    {
        StaticCredentials {
            access_key_id: self.access_key_id.clone(),
            secret_access_key: self.secret_access_key.clone(),
            session_token: self.session_token.clone(),
        }
    }
}

/// What an optional static credential says.
pub open spec fn credentials_of(credentials: Option<StaticCredentials>) -> Option<
    CredentialsModel,
> {
    match credentials {
        Some(credentials) => Some(credentials@),
        None => None,
    }
}

/// One S3-compatible bucket and how to reach it.
#[derive(PartialEq, Eq)]
pub struct ObjectStorageConfig {
    bucket: String,
    region: String,
    endpoint: Option<String>,
    credentials: Option<StaticCredentials>,
    force_path_style: bool,
}

/// What a storage configuration says.
pub struct ConfigModel {
    pub bucket: Seq<char>,
    pub region: Seq<char>,
    pub endpoint: Option<Seq<char>>,
    pub credentials: Option<CredentialsModel>,
    pub force_path_style: bool,
}

impl View for ObjectStorageConfig {
    type V = ConfigModel;

    closed spec fn view(&self) -> ConfigModel {
        ConfigModel {
            bucket: self.bucket@,
            region: self.region@,
            endpoint: text_of(self.endpoint),
            credentials: credentials_of(self.credentials),
            force_path_style: self.force_path_style,
        }
    }
}

impl Clone for ObjectStorageConfig {
    fn clone(&self) -> (copy: Self)
        ensures
            copy@ == self@,
    {
        ObjectStorageConfig {
            bucket: self.bucket.clone(),
            region: self.region.clone(),
            endpoint: self.endpoint.clone(),
            credentials: self.credentials.clone(),
            force_path_style: self.force_path_style,
        }
    }
}

/// The AWS credential variables of the process environment, each where it is
/// set to valid text.
#[derive(Clone, Debug, PartialEq, Eq)]
pub struct AwsEnvironment {
    /// `AWS_ACCESS_KEY_ID`
    pub access_key_id: Option<String>,
    /// `AWS_SECRET_ACCESS_KEY`
    pub secret_access_key: Option<String>,
    /// `AWS_SESSION_TOKEN`
    pub session_token: Option<String>,
}

/// How a replica reaches its bucket. An empty text leaves the setting open.
#[derive(Clone, PartialEq, Eq)]
pub struct ObjectStoreConfig {
    pub bucket: String,
    pub path: String,
    pub region: String,
    pub endpoint: String,
    pub access_key_id: String,
    pub secret_access_key: String,
    pub session_token: String,
    pub force_path_style: bool,
    pub skip_verify: bool,
    pub part_size: usize,
    pub concurrency: usize,
}

/// The version that a conditional write requires.
#[derive(Clone, Debug, PartialEq, Eq)]
pub struct UpdateVersion {
    pub e_tag: Option<String>,
    pub version: Option<String>,
}

/// What the store says of an object that it holds.
#[derive(Clone, Debug, PartialEq, Eq)]
pub struct ObjectMeta {
    pub size: usize,
    pub e_tag: Option<String>,
    pub version: Option<String>,
}

/// What the store says of an object that it has just written.
#[derive(Clone, Debug, PartialEq, Eq)]
pub struct PutResult {
    pub e_tag: Option<String>,
    pub version: Option<String>,
}

/// The text of `first` where it has one, else that of `second`, else nothing.
/// A blank text counts as none.
pub open spec fn first_filled(first: Option<Seq<char>>, second: Option<Seq<char>>) -> Seq<char> {
    if text_or_empty(first).len() > 0 {
        text_or_empty(first)
    } else {
        text_or_empty(second)
    }
}

/// The version of an object, which is its entity tag. An object without one has
/// the empty version.
pub open spec fn version_of(e_tag: Option<Seq<char>>) -> Seq<char> {
    text_or_empty(e_tag)
}

/// The configuration for a bucket that is named with or without `s3://` before
/// it. Given an endpoint, the bucket is addressed in the path.
pub open spec fn s3_config(
    bucket: Seq<char>,
    endpoint: Option<Seq<char>>,
    region: Seq<char>,
    credentials: Option<CredentialsModel>,
) -> ConfigModel {
    ConfigModel {
        bucket: without_leading(bucket, "s3://"@),
        region,
        endpoint,
        credentials,
        force_path_style: endpoint is Some,
    }
}

impl ConfigModel {
    /// The configuration with other credentials.
    pub open spec fn with_credentials(self, credentials: CredentialsModel) -> ConfigModel {
        ConfigModel { credentials: Some(credentials), ..self }
    }

    /// The access key of the configuration itself.
    pub open spec fn own_access_key_id(self) -> Option<Seq<char>> {
        match self.credentials {
            Some(credentials) => Some(credentials.access_key_id),
            None => None,
        }
    }

    /// The secret key of the configuration itself.
    pub open spec fn own_secret_access_key(self) -> Option<Seq<char>> {
        match self.credentials {
            Some(credentials) => Some(credentials.secret_access_key),
            None => None,
        }
    }

    /// The session token of the configuration itself.
    pub open spec fn own_session_token(self) -> Option<Seq<char>> {
        match self.credentials {
            Some(credentials) => credentials.session_token,
            None => None,
        }
    }

    /// `config` is how a replica under `path` reaches the bucket: with the
    /// configuration's own credentials, and with those of the environment for
    /// what they leave blank.
    pub open spec fn replicates(
        self,
        path: Seq<char>,
        environment: AwsEnvironment,
        config: ObjectStoreConfig,
    ) -> bool {
        &&& config.bucket@ == self.bucket
        &&& config.path@ == path
        &&& config.region@ == self.region
        &&& config.endpoint@ == text_or_empty(self.endpoint)
        &&& config.access_key_id@ == first_filled(
            self.own_access_key_id(),
            text_of(environment.access_key_id),
        )
        &&& config.secret_access_key@ == first_filled(
            self.own_secret_access_key(),
            text_of(environment.secret_access_key),
        )
        &&& config.session_token@ == first_filled(
            self.own_session_token(),
            text_of(environment.session_token),
        )
        &&& config.force_path_style == (text_or_empty(self.endpoint).len() > 0)
        &&& !config.skip_verify
        &&& config.part_size == 0
        &&& config.concurrency == 0
    }

    /// `settings` with `setting` set to `text`, or left alone where there is
    /// none.
    pub open spec fn set(
        settings: Map<Setting, SettingValue>,
        setting: Setting,
        text: Option<Seq<char>>,
    ) -> Map<Setting, SettingValue> {
        match text {
            Some(text) => settings.insert(setting, SettingValue::Text(text)),
            None => settings,
        }
    }

    /// The client settings that the configuration leads to: its own, over the
    /// settings `base` for what it leaves open.
    pub open spec fn runtime_settings(self, base: Map<Setting, SettingValue>) -> Map<
        Setting,
        SettingValue,
    > {
        let named = base.insert(Setting::Bucket, SettingValue::Text(self.bucket)).insert(
            Setting::Region,
            SettingValue::Text(self.region),
        ).insert(Setting::VirtualHostedStyle, SettingValue::Flag(!self.force_path_style));
        let reached = Self::set(named, Setting::Endpoint, self.endpoint);
        let keyed = Self::set(reached, Setting::AccessKeyId, self.own_access_key_id());
        let signed = Self::set(keyed, Setting::SecretAccessKey, self.own_secret_access_key());
        Self::set(signed, Setting::SessionToken, self.own_session_token())
    }

    /// `result` is what comes of building the bucket's two clients with the
    /// HTTP client settings `client`, over what the builder `base` holds.
    pub open spec fn builds(
        self,
        base: AmazonS3Builder,
        client: Map<Setting, SettingValue>,
        ordinary: RetryLimits,
        cas: RetryLimits,
        result: Result<(AmazonS3, AmazonS3), StorageError>,
    ) -> bool {
        exists|
            builder: AmazonS3Builder,
            store: Result<AmazonS3, object_store::Error>,
            cas_builder: AmazonS3Builder,
            cas_store: Result<AmazonS3, object_store::Error>,
        | #[trigger]
            is_build_of(builder, store) && #[trigger] is_build_of(cas_builder, cas_store)
                && builder_settings(builder) == self.bucket_settings(
                builder_settings(base),
                client,
                ordinary,
            ) && builder_settings(cas_builder) == self.bucket_settings(
                builder_settings(base),
                client,
                cas,
            ) && are_stores_of(store, cas_store, result)
    }

    /// The settings of a client for the bucket: those that the configuration
    /// leads to, the HTTP client's, entity-tag preconditions, and retry limits.
    pub open spec fn bucket_settings(
        self,
        base: Map<Setting, SettingValue>,
        client: Map<Setting, SettingValue>,
        limits: RetryLimits,
    ) -> Map<Setting, SettingValue> {
        with_limits(
            with_client(self.runtime_settings(base), client).insert(
                Setting::ConditionalPut,
                SettingValue::Precondition(ConditionalPut::ETagMatch),
            ),
            limits,
        )
    }
}

/// The one that is filled of a first text and, where that is blank, a second.
fn first_filled_text(first: Option<&String>, second: &Option<String>) -> (text: String)
    ensures
        text@ == first_filled(
            match first {
                Some(text) => Some(text@),
                None => None,
            },
            text_of(*second),
        ),
{
    match first {
        Some(text) => {
            if !text.as_str().is_empty() {
                return text.clone();
            }
        },
        None => {},
    }
    match second {
        Some(text) => text.clone(),
        None => String::new(),
    }
}

/// What came of building the bucket's two clients: both, where both were built,
/// otherwise the first error, and which client it kept from being built.
pub open spec fn are_stores_of(
    store: Result<AmazonS3, object_store::Error>,
    cas_store: Result<AmazonS3, object_store::Error>,
    result: Result<(AmazonS3, AmazonS3), StorageError>,
) -> bool {
    match (store, cas_store) {
        (Ok(store), Ok(cas_store)) => result matches Ok(stores) && stores == (store, cas_store),
        (Err(error), _) => {
            &&& result matches Err(StorageError::Client(failure))
            &&& failure.context@ == "build s3 client"@
            &&& failure.error == error
        },
        (Ok(_), Err(error)) => {
            &&& result matches Err(StorageError::Client(failure))
            &&& failure.context@ == "build s3 cas client"@
            &&& failure.error == error
        },
    }
}

impl ObjectStorageConfig {
    /// The configuration for a bucket without credentials of its own.
    pub fn from_bucket_uri(bucket: &str, endpoint: Option<&str>, region: &str) -> (result: Result<
        Self,
        StorageError,
    >)
        ensures
            result matches Ok(config) && config@ == s3_config(
                bucket@,
                str_text_of(endpoint),
                region@,
                None,
            ),
    {
        Self::s3(bucket, endpoint, region, None)
    }

    /// The configuration for a bucket that is named with or without `s3://`
    /// before it.
    pub fn s3(
        bucket: &str,
        endpoint: Option<&str>,
        region: &str,
        credentials: Option<StaticCredentials>,
    ) -> (result: Result<Self, StorageError>)
        ensures
            result matches Ok(config) && config@ == s3_config(
                bucket@,
                str_text_of(endpoint),
                region@,
                credentials_of(credentials),
            ),
    {
        Ok(
            ObjectStorageConfig {
                bucket: trim_leading(bucket, "s3://"),
                region: region.to_owned(),
                endpoint: own(endpoint),
                credentials,
                force_path_style: endpoint.is_some(),
            },
        )
    }

    /// The configuration for a bucket at an endpoint, with its credentials.
    pub fn managed(
        bucket: &str,
        region: String,
        endpoint: String,
        credentials: StaticCredentials,
    ) -> (result: Result<Self, StorageError>)
        ensures
            result matches Ok(config) && config@ == s3_config(
                bucket@,
                Some(endpoint@),
                region@,
                Some(credentials@),
            ),
    {
        Self::s3(bucket, Some(endpoint.as_str()), region.as_str(), Some(credentials))
    }

    /// The configuration with other credentials.
    pub fn with_credentials(self, credentials: StaticCredentials) -> (result: Self)
        ensures
            result@ == self@.with_credentials(credentials@),
    {
        ObjectStorageConfig { credentials: Some(credentials), ..self }
    }

    /// The bucket's name.
    pub fn bucket(&self) -> (bucket: &str)
        ensures
            bucket@ == self@.bucket,
    {
        self.bucket.as_str()
    }

    /// `builder` with what this configuration sets.
    pub fn configure_builder(&self, builder: AmazonS3Builder) -> (result: AmazonS3Builder)
        ensures
            builder_settings(result) == self@.runtime_settings(builder_settings(builder)),
    {
        let mut builder = with_bucket_name(builder, self.bucket.as_str());
        builder = with_region(builder, self.region.as_str());
        builder = with_virtual_hosted_style(builder, !self.force_path_style);
        if let Some(endpoint) = &self.endpoint {
            builder = with_endpoint(builder, endpoint.as_str());
        }
        if let Some(credentials) = &self.credentials {
            builder = with_access_key_id(builder, credentials.access_key_id.as_str());
            builder = with_secret_access_key(builder, credentials.secret_access_key.as_str());
            if let Some(token) = &credentials.session_token {
                builder = with_token(builder, token.as_str());
            }
        }
        builder
    }

    /// A builder for clients of the bucket: what this configuration sets, over
    /// what the process environment sets.
    pub fn runtime_builder(&self) -> (result: AmazonS3Builder)
        ensures
            exists|environment: Map<Setting, SettingValue>|
                builder_settings(result) == #[trigger] self@.runtime_settings(environment),
            exists|base: AmazonS3Builder| #[trigger]
                is_from_environment(base) && builder_settings(result) == self@.runtime_settings(
                    builder_settings(base),
                ),
    {
        let base = builder_from_env();
        proof {
            law_environment_gives_the_builder(base);
        }
        self.configure_builder(base)
    }

    /// The builders of the bucket's two clients, from one builder that the
    /// configuration has been applied to.
    pub fn bucket_builders(
        builder: AmazonS3Builder,
        options: ClientOptions,
        ordinary: RetryLimits,
        cas: RetryLimits,
    ) -> (result: (AmazonS3Builder, AmazonS3Builder))
        ensures
            builder_settings(result.0) == with_limits(
                with_client(builder_settings(builder), client_settings(options)).insert(
                    Setting::ConditionalPut,
                    SettingValue::Precondition(ConditionalPut::ETagMatch),
                ),
                ordinary,
            ),
            builder_settings(result.1) == with_limits(
                with_client(builder_settings(builder), client_settings(options)).insert(
                    Setting::ConditionalPut,
                    SettingValue::Precondition(ConditionalPut::ETagMatch),
                ),
                cas,
            ),
    {
        let builder = with_conditional_put(
            with_client_options(builder, options),
            ConditionalPut::ETagMatch,
        );
        let store = with_retry(builder_clone(&builder), ordinary);
        let cas_store = with_retry(builder, cas);
        (store, cas_store)
    }

    /// The bucket's two clients, where both were built. Otherwise the first
    /// error, and which client it kept from being built.
    pub fn built_stores(
        store: Result<AmazonS3, object_store::Error>,
        cas_store: Result<AmazonS3, object_store::Error>,
    ) -> (result: Result<(AmazonS3, AmazonS3), StorageError>)
        ensures
            match (store, cas_store) {
                (Ok(store), Ok(cas_store)) => result matches Ok(stores) && stores == (
                    store,
                    cas_store,
                ),
                (Err(error), _) => {
                    &&& result matches Err(StorageError::Client(failure))
                    &&& failure.context@ == "build s3 client"@
                    &&& failure.error == error
                },
                (Ok(_), Err(error)) => {
                    &&& result matches Err(StorageError::Client(failure))
                    &&& failure.context@ == "build s3 cas client"@
                    &&& failure.error == error
                },
            },
    {
        let store = match store {
            Ok(store) => store,
            Err(error) => {
                return Err(
                    StorageError::Client(Failure { context: "build s3 client".to_owned(), error }),
                );
            },
        };
        match cas_store {
            Ok(cas_store) => Ok((store, cas_store)),
            Err(error) => Err(
                StorageError::Client(Failure { context: "build s3 cas client".to_owned(), error }),
            ),
        }
    }

    /// The bucket's two clients: one for ordinary requests, one for conditional
    /// writes. They differ in their retry limits alone.
    pub fn build_bucket_stores(
        &self,
        options: ClientOptions,
        ordinary: RetryLimits,
        cas: RetryLimits,
    ) -> (result: Result<(AmazonS3, AmazonS3), StorageError>)
        ensures
            result matches Ok(stores) ==> exists|environment: Map<Setting, SettingValue>|
                {
                    &&& store_settings(stores.0) == #[trigger] self@.bucket_settings(
                        environment,
                        client_settings(options),
                        ordinary,
                    )
                    &&& store_settings(stores.1) == self@.bucket_settings(
                        environment,
                        client_settings(options),
                        cas,
                    )
                },
            result matches Err(error) ==> {
                &&& error matches StorageError::Client(failure)
                &&& failure.context@ == "build s3 client"@ || failure.context@
                    == "build s3 cas client"@
            },
            exists|base: AmazonS3Builder|
                is_from_environment(base) && #[trigger] self@.builds(
                    base,
                    client_settings(options),
                    ordinary,
                    cas,
                    result,
                ),
    {
        let builder = self.runtime_builder();
        let ghost base = choose|base: AmazonS3Builder| #[trigger]
            is_from_environment(base) && builder_settings(builder) == self@.runtime_settings(
                builder_settings(base),
            );
        let ghost environment = builder_settings(base);
        let (store, cas_store) = Self::bucket_builders(builder, options, ordinary, cas);
        proof {
            assert(builder_settings(store) == self@.bucket_settings(
                environment,
                client_settings(options),
                ordinary,
            ));
        }
        let built = builder_build(store);
        let cas_built = builder_build(cas_store);
        let result = Self::built_stores(built, cas_built);
        proof {
            law_building_gives_the_result(store, built);
            law_building_gives_the_result(cas_store, cas_built);
            assert(self@.builds(base, client_settings(options), ordinary, cas, result));
        }
        result
    }

    /// The version of an object that the store holds: its entity tag.
    pub fn object_version(&self, meta: &ObjectMeta) -> (version: String)
        ensures
            version@ == version_of(text_of(meta.e_tag)),
            meta.e_tag matches Some(tag) ==> version@ == tag@,
            meta.e_tag is None ==> version@.len() == 0,
    {
        match &meta.e_tag {
            Some(tag) => tag.clone(),
            None => String::new(),
        }
    }

    /// The version of an object that the store has just written: its entity
    /// tag.
    pub fn put_result_version(&self, result: PutResult) -> (version: String)
        ensures
            version@ == version_of(text_of(result.e_tag)),
            result.e_tag matches Some(tag) ==> version@ == tag@,
            result.e_tag is None ==> version@.len() == 0,
    {
        or_empty(result.e_tag)
    }

    /// What a conditional write requires in order to replace `version`.
    pub fn update_version(&self, version: &str) -> (update: UpdateVersion)
        ensures
            text_of(update.e_tag) == Some(version@),
            update.e_tag matches Some(tag) && tag@ == version@,
            update.version is None,
    {
        UpdateVersion { e_tag: Some(version.to_owned()), version: None }
    }

    /// How a replica under `path` reaches the bucket. What the credentials
    /// leave blank is taken from the environment.
    pub fn replica_config(&self, path: String, environment: &AwsEnvironment) -> (config:
        ObjectStoreConfig)
        ensures
            self@.replicates(path@, *environment, config),
    {
        let (access_key_id, secret_access_key, session_token) = match &self.credentials {
            None => (
                first_filled_text(None, &environment.access_key_id),
                first_filled_text(None, &environment.secret_access_key),
                first_filled_text(None, &environment.session_token),
            ),
            Some(credentials) => (
                first_filled_text(Some(&credentials.access_key_id), &environment.access_key_id),
                first_filled_text(
                    Some(&credentials.secret_access_key),
                    &environment.secret_access_key,
                ),
                first_filled_text(credentials.session_token.as_ref(), &environment.session_token),
            ),
        };
        let endpoint = match &self.endpoint {
            Some(endpoint) => endpoint.clone(),
            None => String::new(),
        };
        let force_path_style = !endpoint.as_str().is_empty();
        ObjectStoreConfig {
            bucket: self.bucket.clone(),
            path,
            region: self.region.clone(),
            endpoint,
            access_key_id,
            secret_access_key,
            session_token,
            force_path_style,
            skip_verify: false,
            part_size: 0,
            concurrency: 0,
        }
    }

    /// How the replication store, which stands at the bucket's root, reaches
    /// the bucket.
    pub fn ltx_store_config(&self, environment: &AwsEnvironment) -> (config: ObjectStoreConfig)
        ensures
            self@.replicates(Seq::empty(), *environment, config),
    {
        self.replica_config(String::new(), environment)
    }
}

/// A bucket named with `s3://` before it is configured as one named without.
pub proof fn law_scheme_is_optional(
    bucket: Seq<char>,
    endpoint: Option<Seq<char>>,
    region: Seq<char>,
    credentials: Option<CredentialsModel>,
)
    ensures
        s3_config("s3://"@ + bucket, endpoint, region, credentials) == s3_config(
            bucket,
            endpoint,
            region,
            credentials,
        ),
{
    lemma_without_leading_prefixed(bucket, "s3://"@);
}

/// The name that a configuration gives its bucket names the same bucket again.
pub proof fn law_bucket_name_is_stable(
    bucket: Seq<char>,
    endpoint: Option<Seq<char>>,
    region: Seq<char>,
    credentials: Option<CredentialsModel>,
)
    ensures
        s3_config(
            s3_config(bucket, endpoint, region, credentials).bucket,
            endpoint,
            region,
            credentials,
        ) == s3_config(bucket, endpoint, region, credentials),
{
    lemma_without_leading_idempotent(bucket, "s3://"@);
}

/// What a configuration sets is not for the environment to change.
pub proof fn law_configuration_overrides_environment(
    config: ConfigModel,
    environment: Map<Setting, SettingValue>,
)
    ensures
        ({
            let settings = config.runtime_settings(environment);
            &&& settings.contains_pair(Setting::Bucket, SettingValue::Text(config.bucket))
            &&& settings.contains_pair(Setting::Region, SettingValue::Text(config.region))
            &&& settings.contains_pair(
                Setting::VirtualHostedStyle,
                SettingValue::Flag(!config.force_path_style),
            )
            &&& config.endpoint matches Some(endpoint) ==> settings.contains_pair(
                Setting::Endpoint,
                SettingValue::Text(endpoint),
            )
            &&& config.credentials matches Some(credentials) ==> {
                &&& settings.contains_pair(
                    Setting::AccessKeyId,
                    SettingValue::Text(credentials.access_key_id),
                )
                &&& settings.contains_pair(
                    Setting::SecretAccessKey,
                    SettingValue::Text(credentials.secret_access_key),
                )
                &&& credentials.session_token matches Some(token) ==> settings.contains_pair(
                    Setting::SessionToken,
                    SettingValue::Text(token),
                )
            }
        }),
{
}

/// What a configuration leaves open is as the environment sets it.
pub proof fn law_environment_fills_the_rest(
    config: ConfigModel,
    environment: Map<Setting, SettingValue>,
    setting: Setting,
)
    requires
        !(setting is Bucket || setting is Region || setting is VirtualHostedStyle),
        setting is Endpoint ==> config.endpoint is None,
        setting is AccessKeyId || setting is SecretAccessKey ==> config.credentials is None,
        setting is SessionToken ==> config.own_session_token() is None,
    ensures
        config.runtime_settings(environment).contains_key(setting) <==> environment.contains_key(
            setting,
        ),
        config.runtime_settings(environment)[setting] == environment[setting],
{
}

/// A replica signs with the credentials of the configuration where they are
/// filled, whatever the environment holds.
pub proof fn law_own_credentials_come_first(
    config: ConfigModel,
    path: Seq<char>,
    environment: AwsEnvironment,
    replica: ObjectStoreConfig,
)
    requires
        config.replicates(path, environment, replica),
    ensures
        config.own_access_key_id() matches Some(key) ==> key.len() > 0 ==> replica.access_key_id@
            == key,
        config.own_secret_access_key() matches Some(key) ==> key.len() > 0
            ==> replica.secret_access_key@ == key,
        config.own_session_token() matches Some(token) ==> token.len() > 0
            ==> replica.session_token@ == token,
{
}

/// A blank text counts as one that is not set: of the configuration's own it
/// leaves the choice to the environment, and of the environment it leaves
/// nothing.
pub proof fn law_blank_is_unset(first: Option<Seq<char>>, second: Option<Seq<char>>)
    ensures
        first_filled(Some(Seq::empty()), second) == first_filled(None, second),
        first_filled(first, Some(Seq::empty())) == first_filled(first, None),
{
}

/// The scheme is taken off in whole copies.
proof fn lemma_scheme_is_taken_off_whole(text: Seq<char>)
    ensures
        ({
            let name = without_leading(text, "s3://"@);
            let taken = text.len() - name.len();
            &&& taken >= 0
            &&& taken % 5 == 0
            &&& forall|from: int|
                0 <= from < taken && from % 5 == 0 ==> #[trigger] text.subrange(from, from + 5)
                    == "s3://"@
            &&& text.skip(taken) == name
            &&& !"s3://"@.is_prefix_of(name)
        }),
    decreases text.len(),
{
    let scheme = "s3://"@;
    assert(scheme.len() == 5) by {
        reveal_strlit("s3://");
    }
    if scheme.is_prefix_of(text) {
        let rest = text.skip(5);
        lemma_scheme_is_taken_off_whole(rest);
        let name = without_leading(rest, scheme);
        let taken = text.len() - name.len();
        assert(without_leading(text, scheme) == name);
        assert forall|from: int| 0 <= from < taken && from % 5 == 0 implies #[trigger] text.subrange(
            from,
            from + 5,
        ) == scheme by {
            if from > 0 {
                assert(from >= 5);
                assert(text.subrange(from, from + 5) =~= rest.subrange(from - 5, from));
                assert(rest.subrange(from - 5, (from - 5) + 5) == scheme);
            }
        }
        assert(text.skip(taken) =~= rest.skip(taken - 5));
    } else {
        assert(text.skip(0) =~= text);
    }
}

/// A bucket is named by what follows the copies of `s3://` that lead its URI,
/// and by nothing less: what was taken off is copies of `s3://`, and what is left
/// does not start with another.
pub proof fn law_bucket_is_what_follows_the_scheme(
    bucket: Seq<char>,
    endpoint: Option<Seq<char>>,
    region: Seq<char>,
    credentials: Option<CredentialsModel>,
)
    ensures
        ({
            let name = s3_config(bucket, endpoint, region, credentials).bucket;
            let taken = bucket.len() - name.len();
            &&& taken >= 0
            &&& taken % 5 == 0
            &&& forall|from: int|
                0 <= from < taken && from % 5 == 0 ==> #[trigger] bucket.subrange(from, from + 5)
                    == "s3://"@
            &&& bucket.skip(taken) == name
            &&& !"s3://"@.is_prefix_of(name)
        }),
{
    lemma_scheme_is_taken_off_whole(bucket);
}

/// A bucket that is named without a scheme keeps its name.
pub proof fn law_bare_bucket_keeps_its_name(
    bucket: Seq<char>,
    endpoint: Option<Seq<char>>,
    region: Seq<char>,
    credentials: Option<CredentialsModel>,
)
    requires
        !"s3://"@.is_prefix_of(bucket),
    ensures
        s3_config(bucket, endpoint, region, credentials).bucket == bucket,
{
}

/// A configuration holds the region, the endpoint and the credentials that it
/// was given, unchanged, and addresses the bucket in the path just where it was
/// given an endpoint.
pub proof fn law_configuration_holds_what_was_given(
    bucket: Seq<char>,
    endpoint: Option<&str>,
    region: Seq<char>,
    credentials: Option<StaticCredentials>,
)
    ensures
        ({
            let config = s3_config(
                bucket,
                str_text_of(endpoint),
                region,
                credentials_of(credentials),
            );
            &&& config.region == region
            &&& endpoint matches Some(text) ==> config.endpoint == Some(text@)
            &&& endpoint is None ==> config.endpoint is None
            &&& config.force_path_style <==> endpoint is Some
            &&& credentials is None ==> config.credentials is None
            &&& credentials matches Some(given) ==> {
                &&& config.credentials matches Some(held)
                &&& held.access_key_id == given.access_key_id@
                &&& held.secret_access_key == given.secret_access_key@
                &&& given.session_token matches Some(token) ==> held.session_token == Some(token@)
                &&& given.session_token is None ==> held.session_token is None
            }
        }),
{
}

/// A managed bucket has its endpoint and its credentials, unchanged, and is
/// addressed in the path.
pub proof fn law_managed_bucket_holds_what_was_given(
    bucket: Seq<char>,
    endpoint: Seq<char>,
    region: Seq<char>,
    given: StaticCredentials,
)
    ensures
        ({
            let config = s3_config(bucket, Some(endpoint), region, Some(given@));
            &&& config.region == region
            &&& config.endpoint == Some(endpoint)
            &&& config.force_path_style
            &&& config.credentials matches Some(held)
            &&& held.access_key_id == given.access_key_id@
            &&& held.secret_access_key == given.secret_access_key@
            &&& given.session_token matches Some(token) ==> held.session_token == Some(token@)
            &&& given.session_token is None ==> held.session_token is None
        }),
{
}

/// Other credentials replace a configuration's own, and change nothing else.
pub proof fn law_credentials_replace_credentials_alone(
    config: ConfigModel,
    given: StaticCredentials,
)
    ensures
        ({
            let result = config.with_credentials(given@);
            &&& result.bucket == config.bucket
            &&& result.region == config.region
            &&& result.endpoint == config.endpoint
            &&& result.force_path_style == config.force_path_style
            &&& result.credentials matches Some(held)
            &&& held.access_key_id == given.access_key_id@
            &&& held.secret_access_key == given.secret_access_key@
            &&& given.session_token matches Some(token) ==> held.session_token == Some(token@)
            &&& given.session_token is None ==> held.session_token is None
        }),
{
}

/// What a configuration leaves open is as the environment sets it, and nothing
/// is set that neither of them sets.
pub proof fn law_open_settings_are_the_environments(
    config: ConfigModel,
    environment: Map<Setting, SettingValue>,
    setting: Setting,
)
    requires
        !(setting is Bucket || setting is Region || setting is VirtualHostedStyle),
        setting is Endpoint ==> config.endpoint is None,
        setting is AccessKeyId || setting is SecretAccessKey ==> config.credentials is None,
        setting is SessionToken ==> (config.credentials matches Some(credentials)
            ==> credentials.session_token is None),
    ensures
        config.runtime_settings(environment).contains_key(setting) <==> environment.contains_key(
            setting,
        ),
        environment.contains_key(setting) ==> config.runtime_settings(environment)[setting]
            == environment[setting],
{
}

/// A client of the bucket keeps every setting that the configuration leads to,
/// but for those of the HTTP client, which are the given ones, the retry limits,
/// which are the given ones too, and the precondition of conditional writes,
/// which is the entity tag.
pub proof fn law_bucket_settings_keep_the_configuration(
    config: ConfigModel,
    base: Map<Setting, SettingValue>,
    client: Map<Setting, SettingValue>,
    limits: RetryLimits,
    setting: Setting,
)
    ensures
        ({
            let settings = config.bucket_settings(base, client, limits);
            let source = if setting is Timeout || setting is ConnectTimeout || setting is AllowHttp
                || setting is UserAgent {
                client
            } else {
                config.runtime_settings(base)
            };
            &&& settings.contains_pair(
                Setting::ConditionalPut,
                SettingValue::Precondition(ConditionalPut::ETagMatch),
            )
            &&& settings.contains_pair(
                Setting::MaxRetries,
                SettingValue::Count(limits.max_retries as nat),
            )
            &&& settings.contains_pair(
                Setting::RetryTimeout,
                SettingValue::Seconds(limits.retry_timeout_secs as nat),
            )
            &&& !(setting is ConditionalPut || setting is MaxRetries || setting is RetryTimeout)
                ==> {
                &&& settings.contains_key(setting) <==> source.contains_key(setting)
                &&& source.contains_key(setting) ==> settings[setting] == source[setting]
            }
        }),
{
}

/// Every client of the bucket is bound to the bucket and the region of the
/// configuration, and reaches it the way and with the credentials that the
/// configuration says, whatever the environment sets.
pub proof fn law_bucket_settings_are_the_configurations(
    config: ConfigModel,
    base: Map<Setting, SettingValue>,
    client: Map<Setting, SettingValue>,
    limits: RetryLimits,
)
    ensures
        ({
            let settings = config.bucket_settings(base, client, limits);
            &&& settings.contains_pair(Setting::Bucket, SettingValue::Text(config.bucket))
            &&& settings.contains_pair(Setting::Region, SettingValue::Text(config.region))
            &&& settings.contains_pair(
                Setting::VirtualHostedStyle,
                SettingValue::Flag(!config.force_path_style),
            )
            &&& config.endpoint matches Some(endpoint) ==> settings.contains_pair(
                Setting::Endpoint,
                SettingValue::Text(endpoint),
            )
            &&& config.credentials matches Some(credentials) ==> {
                &&& settings.contains_pair(
                    Setting::AccessKeyId,
                    SettingValue::Text(credentials.access_key_id),
                )
                &&& settings.contains_pair(
                    Setting::SecretAccessKey,
                    SettingValue::Text(credentials.secret_access_key),
                )
                &&& credentials.session_token matches Some(token) ==> settings.contains_pair(
                    Setting::SessionToken,
                    SettingValue::Text(token),
                )
            }
        }),
{
}

/// Where both clients are built, each has the settings of its own limits.
/// Otherwise the error is that of a builder with such settings, under the context
/// that names the client, and the client for conditional writes is at fault only
/// where the other was built.
pub proof fn law_clients_are_built_of_the_configuration(
    config: ConfigModel,
    base: AmazonS3Builder,
    client: Map<Setting, SettingValue>,
    ordinary: RetryLimits,
    cas: RetryLimits,
    result: Result<(AmazonS3, AmazonS3), StorageError>,
)
    requires
        config.builds(base, client, ordinary, cas, result),
    ensures
        result matches Ok(stores) ==> {
            &&& store_settings(stores.0) == config.bucket_settings(
                builder_settings(base),
                client,
                ordinary,
            )
            &&& store_settings(stores.1) == config.bucket_settings(
                builder_settings(base),
                client,
                cas,
            )
        },
        result matches Err(error) ==> {
            &&& error matches StorageError::Client(failure)
            &&& exists|builder: AmazonS3Builder, attempt: Result<AmazonS3, object_store::Error>|
                {
                    &&& #[trigger] is_build_of(builder, attempt)
                    &&& attempt == Err::<AmazonS3, object_store::Error>(failure.error)
                    &&& ({
                        ||| failure.context@ == "build s3 client"@ && builder_settings(builder)
                            == config.bucket_settings(builder_settings(base), client, ordinary)
                        ||| failure.context@ == "build s3 cas client"@ && builder_settings(builder)
                            == config.bucket_settings(builder_settings(base), client, cas)
                    })
                }
            &&& failure.context@ != "build s3 client"@ ==> exists|
                builder: AmazonS3Builder,
                attempt: Result<AmazonS3, object_store::Error>,
            |
                {
                    &&& #[trigger] is_build_of(builder, attempt)
                    &&& attempt is Ok
                    &&& builder_settings(builder) == config.bucket_settings(
                        builder_settings(base),
                        client,
                        ordinary,
                    )
                }
        },
{
    let (builder, store, cas_builder, cas_store) = choose|
        builder: AmazonS3Builder,
        store: Result<AmazonS3, object_store::Error>,
        cas_builder: AmazonS3Builder,
        cas_store: Result<AmazonS3, object_store::Error>,
    | #[trigger]
        is_build_of(builder, store) && #[trigger] is_build_of(cas_builder, cas_store)
            && builder_settings(builder) == config.bucket_settings(
            builder_settings(base),
            client,
            ordinary,
        ) && builder_settings(cas_builder) == config.bucket_settings(
            builder_settings(base),
            client,
            cas,
        ) && are_stores_of(store, cas_store, result);
    law_client_has_its_builders_settings(builder, store);
    law_client_has_its_builders_settings(cas_builder, cas_store);
}

/// A replica reaches the bucket of the configuration in its region and at its
/// endpoint, under the path that it was given. It forces the path style just
/// where there is an endpoint that is not blank, verifies certificates, and
/// leaves part size and concurrency open.
pub proof fn law_replica_reaches_the_bucket(
    config: ConfigModel,
    path: Seq<char>,
    environment: AwsEnvironment,
    replica: ObjectStoreConfig,
)
    requires
        config.replicates(path, environment, replica),
    ensures
        replica.bucket@ == config.bucket,
        replica.path@ == path,
        replica.region@ == config.region,
        config.endpoint matches Some(endpoint) ==> replica.endpoint@ == endpoint,
        config.endpoint is None ==> replica.endpoint@.len() == 0,
        replica.force_path_style <==> replica.endpoint@.len() > 0,
        !replica.skip_verify,
        replica.part_size == 0,
        replica.concurrency == 0,
{
}

/// A replica signs with what the configuration has, whole, whatever the
/// environment holds; each of key, secret and token that the configuration lacks
/// or leaves blank is the environment's variable, whole, or blank where that is
/// not set.
pub proof fn law_replica_signs_with_own_or_environment(
    config: ConfigModel,
    path: Seq<char>,
    environment: AwsEnvironment,
    replica: ObjectStoreConfig,
)
    requires
        config.replicates(path, environment, replica),
    ensures
        ({
            let lacking = config.credentials is None || config.credentials->0.access_key_id.len()
                == 0;
            &&& !lacking ==> replica.access_key_id@ == config.credentials->0.access_key_id
            &&& lacking ==> {
                &&& environment.access_key_id matches Some(key) ==> replica.access_key_id@ == key@
                &&& environment.access_key_id is None ==> replica.access_key_id@.len() == 0
            }
        }),
        ({
            let lacking = config.credentials is None
                || config.credentials->0.secret_access_key.len() == 0;
            &&& !lacking ==> replica.secret_access_key@ == config.credentials->0.secret_access_key
            &&& lacking ==> {
                &&& environment.secret_access_key matches Some(key) ==> replica.secret_access_key@
                    == key@
                &&& environment.secret_access_key is None ==> replica.secret_access_key@.len() == 0
            }
        }),
        ({
            let lacking = config.credentials is None || config.credentials->0.session_token is None
                || config.credentials->0.session_token->0.len() == 0;
            &&& !lacking ==> replica.session_token@ == config.credentials->0.session_token->0
            &&& lacking ==> {
                &&& environment.session_token matches Some(token) ==> replica.session_token@
                    == token@
                &&& environment.session_token is None ==> replica.session_token@.len() == 0
            }
        }),
{
}

/// The version of an object is its entity tag, whole. Objects have the same
/// version just where they have the same tag, an empty one counting as none.
pub proof fn law_version_is_the_entity_tag(e_tag: Option<String>, other: Option<String>)
    ensures
        e_tag matches Some(tag) ==> version_of(text_of(e_tag)) == tag@,
        e_tag is None ==> version_of(text_of(e_tag)).len() == 0,
        (e_tag is Some && other is Some) ==> (version_of(text_of(e_tag)) == version_of(
            text_of(other),
        ) <==> e_tag->0@ == other->0@),
{
}

} // verus!
