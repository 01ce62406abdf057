//! The settings that an S3 client is built from, and the outside types that
//! collect them: `object_store`'s `ClientOptions` and `AmazonS3Builder`, both
//! collections of settings that are written one by one, later writes
//! overriding earlier ones.

use hyper::header::HeaderValue;
use hyper::header::InvalidHeaderValue;
use object_store::aws::AmazonS3;
use object_store::aws::AmazonS3Builder;
use object_store::aws::S3ConditionalPut;
use object_store::ClientOptions;
use object_store::RetryConfig;
use std::time::Duration;
use vstd::prelude::*;

verus! {

/// What a setting is about.
pub enum Setting {
    /// The bucket's name.
    Bucket,
    /// The region that requests are signed for.
    Region,
    /// Whether the bucket is named in the host rather than in the path.
    VirtualHostedStyle,
    /// The endpoint, where it is not the region's own.
    Endpoint,
    /// The static access key.
    AccessKeyId,
    /// The static secret key.
    SecretAccessKey,
    /// The static session token.
    SessionToken,
    /// How conditional writes are provided.
    ConditionalPut,
    /// How often a failed request is tried again.
    MaxRetries,
    /// How long after the first attempt a request is still tried again.
    RetryTimeout,
    /// How long one attempt may take.
    Timeout,
    /// How long connecting may take.
    ConnectTimeout,
    /// Whether plain HTTP is allowed.
    AllowHttp,
    /// The User-Agent header.
    UserAgent,
}

/// How a store provides conditional writes.
#[derive(Clone, Copy, Debug, PartialEq, Eq, Structural)]
pub enum ConditionalPut {
    /// With the standard `If-Match` and `If-None-Match` preconditions on
    /// entity tags.
    ETagMatch,
}

/// What a setting is set to.
pub enum SettingValue {
    Text(Seq<char>),
    Flag(bool),
    Count(nat),
    Seconds(nat),
    Precondition(ConditionalPut),
}

/// The settings of the HTTP client.
pub open spec fn is_client_setting(setting: Setting) -> bool {
    setting is Timeout || setting is ConnectTimeout || setting is AllowHttp || setting is UserAgent
}

/// `settings` with its HTTP client settings replaced by those of `client`.
pub open spec fn with_client(
    settings: Map<Setting, SettingValue>,
    client: Map<Setting, SettingValue>,
) -> Map<Setting, SettingValue> {
    Map::new(
        |setting: Setting|
            if is_client_setting(setting) {
                client.contains_key(setting)
            } else {
                settings.contains_key(setting)
            },
        |setting: Setting|
            if is_client_setting(setting) {
                client[setting]
            } else {
                settings[setting]
            },
    )
}

/// The settings of a client that nothing has been set on.
pub open spec fn default_client() -> Map<Setting, SettingValue> {
    map![
        Setting::Timeout => SettingValue::Seconds(30),
        Setting::ConnectTimeout => SettingValue::Seconds(5),
        Setting::AllowHttp => SettingValue::Flag(false),
    ]
}

/// A character that a header value may hold: a tab, or any character that is
/// no ASCII control character.
pub open spec fn is_header_char(c: char) -> bool {
    c == '\t' || (c >= ' ' && c != '\x7f')
}

/// A text that a header value may hold.
pub open spec fn is_header_text(text: Seq<char>) -> bool {
    forall|i: int| 0 <= i < text.len() ==> is_header_char(#[trigger] text[i])
}

/// How often, and for how long, a failed request is tried again.
#[derive(Clone, Copy, Debug, PartialEq, Eq, Structural)]
pub struct RetryLimits {
    pub max_retries: usize,
    pub retry_timeout_secs: u64,
}

/// `settings` with the given retry limits.
pub open spec fn with_limits(
    settings: Map<Setting, SettingValue>,
    limits: RetryLimits,
) -> Map<Setting, SettingValue> {
    settings.insert(Setting::MaxRetries, SettingValue::Count(limits.max_retries as nat)).insert(
        Setting::RetryTimeout,
        SettingValue::Seconds(limits.retry_timeout_secs as nat),
    )
}

/// The value of an HTTP header, of the `http` crate that `hyper` re-exports.
#[verifier::external_type_specification]
#[verifier::external_body]
pub struct ExHeaderValue(HeaderValue);

/// The error for a text that no header value may hold.
#[verifier::external_type_specification]
#[verifier::external_body]
pub struct ExInvalidHeaderValue(InvalidHeaderValue);

/// The HTTP client's collection of settings.
#[verifier::external_type_specification]
#[verifier::external_body]
pub struct ExClientOptions(ClientOptions);

/// The S3 client's collection of settings, those of its HTTP client among them.
#[verifier::external_type_specification]
#[verifier::external_body]
pub struct ExAmazonS3Builder(AmazonS3Builder);

/// A built S3 client.
#[verifier::external_type_specification]
#[verifier::external_body]
pub struct ExAmazonS3(AmazonS3);

/// The error of `object_store`.
#[verifier::external_type_specification]
#[verifier::external_body]
pub struct ExStoreError(object_store::Error);

/// The characters that a header value holds.
pub uninterp spec fn header_text(value: HeaderValue) -> Seq<char>;

/// The settings that a `ClientOptions` holds: its request timeout, connect
/// timeout, `allow_http` flag and user agent, each where it is set. A duration
/// counts in seconds.
pub uninterp spec fn client_settings(options: ClientOptions) -> Map<Setting, SettingValue>;

/// The settings that an `AmazonS3Builder` holds, each where it is set: those
/// of its own fields, those of its `ClientOptions` and those of its
/// `RetryConfig`.
pub uninterp spec fn builder_settings(builder: AmazonS3Builder) -> Map<Setting, SettingValue>;

/// The settings of the builder that an `AmazonS3` was built from.
pub uninterp spec fn store_settings(store: AmazonS3) -> Map<Setting, SettingValue>;

/// Calls `HeaderValue::from_str`. It is trusted to accept a text just where
/// none of its characters is an ASCII control character other than the tab
/// (every byte of a character beyond ASCII is accepted), and to keep the text.
#[verifier::external_body]
pub(crate) fn header_value(text: &str) -> (result: Result<HeaderValue, InvalidHeaderValue>)
    ensures
        result is Ok <==> is_header_text(text@),
        result matches Ok(value) ==> header_text(value) == text@,
{
    HeaderValue::from_str(text)
}

/// Calls `ClientOptions::new`. It is trusted to hold a request timeout of 30
/// seconds, a connect timeout of 5 seconds, to refuse plain HTTP, and to set no
/// user agent.
#[verifier::external_body]
pub(crate) fn client_options_new() -> (options: ClientOptions)
    ensures
        client_settings(options) == default_client(),
{
    ClientOptions::new()
}

/// Calls `ClientOptions::with_timeout`. It is trusted to set the request
/// timeout and nothing else.
#[verifier::external_body]
pub(crate) fn with_timeout(options: ClientOptions, seconds: u64) -> (result: ClientOptions)
    ensures
        client_settings(result) == client_settings(options).insert(
            Setting::Timeout,
            SettingValue::Seconds(seconds as nat),
        ),
{
    options.with_timeout(Duration::from_secs(seconds))
}

/// Calls `ClientOptions::with_connect_timeout`. It is trusted to set the
/// connect timeout and nothing else.
#[verifier::external_body]
pub(crate) fn with_connect_timeout(options: ClientOptions, seconds: u64) -> (result: ClientOptions)
    ensures
        client_settings(result) == client_settings(options).insert(
            Setting::ConnectTimeout,
            SettingValue::Seconds(seconds as nat),
        ),
{
    options.with_connect_timeout(Duration::from_secs(seconds))
}

/// Calls `ClientOptions::with_allow_http`. It is trusted to set whether plain
/// HTTP is allowed and nothing else.
#[verifier::external_body]
pub(crate) fn with_allow_http(options: ClientOptions, allow: bool) -> (result: ClientOptions)
    ensures
        client_settings(result) == client_settings(options).insert(
            Setting::AllowHttp,
            SettingValue::Flag(allow),
        ),
{
    options.with_allow_http(allow)
}

/// Calls `ClientOptions::with_user_agent`. It is trusted to set the user agent
/// and nothing else.
#[verifier::external_body]
pub(crate) fn with_user_agent(options: ClientOptions, agent: HeaderValue) -> (result: ClientOptions)
    ensures
        client_settings(result) == client_settings(options).insert(
            Setting::UserAgent,
            SettingValue::Text(header_text(agent)),
        ),
{
    options.with_user_agent(agent)
}

/// Calls `AmazonS3Builder::from_env`. Which settings the builder holds is for
/// the process environment to say: nothing is claimed of them.
#[verifier::external_body]
pub(crate) fn builder_from_env() -> (builder: AmazonS3Builder) {
    AmazonS3Builder::from_env()
}

/// A builder that `builder_from_env` may give.
pub closed spec fn is_from_environment(builder: AmazonS3Builder) -> bool {
    call_ensures(builder_from_env, (), builder)
}

/// Calls `AmazonS3Builder::with_bucket_name`. It is trusted to set the bucket
/// and nothing else.
#[verifier::external_body]
pub(crate) fn with_bucket_name(builder: AmazonS3Builder, name: &str) -> (result: AmazonS3Builder)
    ensures
        builder_settings(result) == builder_settings(builder).insert(
            Setting::Bucket,
            SettingValue::Text(name@),
        ),
{
    builder.with_bucket_name(name)
}

/// Calls `AmazonS3Builder::with_region`. It is trusted to set the region and
/// nothing else.
#[verifier::external_body]
pub(crate) fn with_region(builder: AmazonS3Builder, region: &str) -> (result: AmazonS3Builder)
    ensures
        builder_settings(result) == builder_settings(builder).insert(
            Setting::Region,
            SettingValue::Text(region@),
        ),
{
    builder.with_region(region)
}

/// Calls `AmazonS3Builder::with_virtual_hosted_style_request`. It is trusted
/// to set whether requests are virtual-hosted and nothing else.
#[verifier::external_body]
pub(crate) fn with_virtual_hosted_style(builder: AmazonS3Builder, on: bool) -> (result:
    AmazonS3Builder)
    ensures
        builder_settings(result) == builder_settings(builder).insert(
            Setting::VirtualHostedStyle,
            SettingValue::Flag(on),
        ),
{
    builder.with_virtual_hosted_style_request(on)
}

/// Calls `AmazonS3Builder::with_endpoint`. It is trusted to set the endpoint
/// and nothing else.
#[verifier::external_body]
pub(crate) fn with_endpoint(builder: AmazonS3Builder, endpoint: &str) -> (result: AmazonS3Builder)
    ensures
        builder_settings(result) == builder_settings(builder).insert(
            Setting::Endpoint,
            SettingValue::Text(endpoint@),
        ),
{
    builder.with_endpoint(endpoint)
}

/// Calls `AmazonS3Builder::with_access_key_id`. It is trusted to set the access
/// key and nothing else.
#[verifier::external_body]
pub(crate) fn with_access_key_id(builder: AmazonS3Builder, key: &str) -> (result: AmazonS3Builder)
    ensures
        builder_settings(result) == builder_settings(builder).insert(
            Setting::AccessKeyId,
            SettingValue::Text(key@),
        ),
{
    builder.with_access_key_id(key)
}

/// Calls `AmazonS3Builder::with_secret_access_key`. It is trusted to set the
/// secret key and nothing else.
#[verifier::external_body]
pub(crate) fn with_secret_access_key(builder: AmazonS3Builder, key: &str) -> (result:
    AmazonS3Builder)
    ensures
        builder_settings(result) == builder_settings(builder).insert(
            Setting::SecretAccessKey,
            SettingValue::Text(key@),
        ),
{
    builder.with_secret_access_key(key)
}

/// Calls `AmazonS3Builder::with_token`. It is trusted to set the session token
/// and nothing else.
#[verifier::external_body]
pub(crate) fn with_token(builder: AmazonS3Builder, token: &str) -> (result: AmazonS3Builder)
    ensures
        builder_settings(result) == builder_settings(builder).insert(
            Setting::SessionToken,
            SettingValue::Text(token@),
        ),
{
    builder.with_token(token)
}

/// Calls `AmazonS3Builder::with_client_options`. It is trusted to override all
/// settings of the HTTP client and nothing else.
#[verifier::external_body]
pub(crate) fn with_client_options(builder: AmazonS3Builder, options: ClientOptions) -> (result:
    AmazonS3Builder)
    ensures
        builder_settings(result) == with_client(
            builder_settings(builder),
            client_settings(options),
        ),
{
    builder.with_client_options(options)
}

/// Calls `AmazonS3Builder::with_conditional_put`. It is trusted to set how
/// conditional writes are provided and nothing else.
#[verifier::external_body]
pub(crate) fn with_conditional_put(builder: AmazonS3Builder, put: ConditionalPut) -> (result:
    AmazonS3Builder)
    ensures
        builder_settings(result) == builder_settings(builder).insert(
            Setting::ConditionalPut,
            SettingValue::Precondition(put),
        ),
{
    builder.with_conditional_put(
        match put {
            ConditionalPut::ETagMatch => S3ConditionalPut::ETagMatch,
        },
    )
}

/// Calls `AmazonS3Builder::with_retry` with a `RetryConfig` of the given
/// limits and the default backoff. It is trusted to set the two limits and,
/// of the settings named here, nothing else.
#[verifier::external_body]
pub(crate) fn with_retry(builder: AmazonS3Builder, limits: RetryLimits) -> (result: AmazonS3Builder)
    ensures
        builder_settings(result) == with_limits(builder_settings(builder), limits),
{
    builder.with_retry(
        RetryConfig {
            max_retries: limits.max_retries,
            retry_timeout: Duration::from_secs(limits.retry_timeout_secs),
            ..RetryConfig::default()
        },
    )
}

/// Calls `AmazonS3Builder::clone`. The copy is trusted to hold the same
/// settings.
#[verifier::external_body]
pub(crate) fn builder_clone(builder: &AmazonS3Builder) -> (result: AmazonS3Builder)
    ensures
        builder_settings(result) == builder_settings(*builder),
{
    builder.clone()
}

/// Calls `AmazonS3Builder::build`. A client that it builds is trusted to be
/// built from the builder's settings. Whether one is built also depends on the
/// process environment and on the machine's TLS configuration: nothing is
/// claimed of that, nor of what a URL set on the builder, which is none of these
/// settings, puts in their place.
#[verifier::external_body]
pub(crate) fn builder_build(builder: AmazonS3Builder) -> (result: Result<
    AmazonS3,
    object_store::Error,
>)
    ensures
        result matches Ok(store) ==> store_settings(store) == builder_settings(builder),
{
    builder.build()
}

/// A result that `builder_build` may give for a builder.
pub closed spec fn is_build_of(
    builder: AmazonS3Builder,
    result: Result<AmazonS3, object_store::Error>,
) -> bool {
    call_ensures(builder_build, (builder,), result)
}

/// `AmazonS3::clone` is trusted to give a client that shares the original's
/// settings.
pub assume_specification[ <AmazonS3 as Clone>::clone ](store: &AmazonS3) -> (copy: AmazonS3)
    ensures
        store_settings(copy) == store_settings(*store),
;

/// A builder counts as the environment's just where reading the environment
/// may give it.
pub(crate) proof fn law_environment_gives_the_builder(builder: AmazonS3Builder)
    ensures
        is_from_environment(builder) <==> call_ensures(builder_from_env, (), builder),
{
}

/// A result counts as a builder's just where building that builder may give it.
pub(crate) proof fn law_building_gives_the_result(
    builder: AmazonS3Builder,
    result: Result<AmazonS3, object_store::Error>,
)
    ensures
        is_build_of(builder, result) <==> call_ensures(builder_build, (builder,), result),
{
}

/// A client that is built has the settings of its builder.
pub proof fn law_client_has_its_builders_settings(
    builder: AmazonS3Builder,
    result: Result<AmazonS3, object_store::Error>,
)
    requires
        is_build_of(builder, result),
    ensures
        result matches Ok(store) ==> store_settings(store) == builder_settings(builder),
{
}

/// The options of the HTTP client replace its four settings, those that they
/// leave open too, and touch no other.
pub proof fn law_client_options_replace_client_settings(
    settings: Map<Setting, SettingValue>,
    client: Map<Setting, SettingValue>,
    setting: Setting,
)
    ensures
        ({
            let result = with_client(settings, client);
            let source = if setting is Timeout || setting is ConnectTimeout || setting is AllowHttp
                || setting is UserAgent {
                client
            } else {
                settings
            };
            &&& result.contains_key(setting) <==> source.contains_key(setting)
            &&& source.contains_key(setting) ==> result[setting] == source[setting]
        }),
{
}

/// Retry limits set how often and how long a request is tried again, and touch
/// no other setting.
pub proof fn law_retry_limits_set_two_settings(
    settings: Map<Setting, SettingValue>,
    limits: RetryLimits,
    setting: Setting,
)
    ensures
        ({
            let result = with_limits(settings, limits);
            &&& result.contains_pair(
                Setting::MaxRetries,
                SettingValue::Count(limits.max_retries as nat),
            )
            &&& result.contains_pair(
                Setting::RetryTimeout,
                SettingValue::Seconds(limits.retry_timeout_secs as nat),
            )
            &&& !(setting is MaxRetries || setting is RetryTimeout) ==> {
                &&& result.contains_key(setting) <==> settings.contains_key(setting)
                &&& settings.contains_key(setting) ==> result[setting] == settings[setting]
            }
        }),
{
}

} // verus!
