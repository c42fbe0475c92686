//! The settings that the mediator runs with.

use crate::auth::{ed25519_public_of, jwt_public_key};
use crate::config::raw::{ConfigRaw, DIDResolverConfig};
use crate::config::sources::{
    base64url_bytes, decode_jwt_secret, hostname_from, hostname_reason, spec_hostname,
};
use crate::dispatch::refused_because;
use crate::errors::{ErrorKind, MediatorError};
use crate::mailbox::model::StoreLimits;
use crate::secrets::{Secret, SecretStore};
use crate::session::RequestLimits;
use crate::text::{
    bool_value, decimal, decimal_text, opt_text, parse_bool, parse_unsigned, slice_chars,
    spec_with_number, str_eq, texts, unsigned_value, with_number,
};
use vstd::prelude::*;
use vstd::string::StringExecFns;

verus! {

/// How much the mediator logs.
#[derive(Clone, Copy, Debug, PartialEq, Eq, Structural)]
pub enum LogLevel {
    Trace,
    Debug,
    Info,
    Warn,
    Error,
}

/// The level that `name` spells; `Info` where it spells none.
pub open spec fn spec_log_level(name: Seq<char>) -> LogLevel {
    if name == "trace"@ {
        LogLevel::Trace
    } else if name == "debug"@ {
        LogLevel::Debug
    } else if name == "info"@ {
        LogLevel::Info
    } else if name == "warn"@ {
        LogLevel::Warn
    } else if name == "error"@ {
        LogLevel::Error
    } else {
        LogLevel::Info
    }
}

/// The level that `name` spells.
pub fn log_level(name: &str) -> (level: LogLevel)
    ensures
        level == spec_log_level(name@),
{
    if str_eq(name, "trace") {
        LogLevel::Trace
    } else if str_eq(name, "debug") {
        LogLevel::Debug
    } else if str_eq(name, "info") {
        LogLevel::Info
    } else if str_eq(name, "warn") {
        LogLevel::Warn
    } else if str_eq(name, "error") {
        LogLevel::Error
    } else {
        LogLevel::Info
    }
}

/// The number that `s` denotes, or `default` where it denotes none that
/// fits 32 bits.
pub open spec fn spec_u32_or(s: Seq<char>, default: u32) -> u32 {
    match unsigned_value(s, u32::MAX as nat) {
        Some(v) => v as u32,
        None => default,
    }
}

/// The number that `s` denotes, or `default`.
pub fn u32_or(s: &str, default: u32) -> (value: u32)
    ensures
        value == spec_u32_or(s@, default),
{
    match parse_unsigned(s, 0xffff_ffff) {
        Some(v) => v as u32,
        None => default,
    }
}

/// The number that `s` denotes, or `default` where it denotes none that
/// fits a machine word.
pub open spec fn spec_usize_or(s: Seq<char>, default: usize) -> usize {
    match unsigned_value(s, usize::MAX as nat) {
        Some(v) => v as usize,
        None => default,
    }
}

/// The number that `s` denotes, or `default`.
pub fn usize_or(s: &str, default: usize) -> (value: usize)
    ensures
        value == spec_usize_or(s@, default),
{
    match parse_unsigned(s, usize::MAX as u64) {
        Some(v) => v as usize,
        None => default,
    }
}

/// The truth value that `s` spells, or `default` where it spells none.
pub open spec fn spec_bool_or(s: Seq<char>, default: bool) -> bool {
    match bool_value(s) {
        Some(v) => v,
        None => default,
    }
}

/// The truth value that `s` spells, or `default`.
pub fn bool_or(s: &str, default: bool) -> (value: bool)
    ensures
        value == spec_bool_or(s@, default),
{
    match parse_bool(s) {
        Some(v) => v,
        None => default,
    }
}

/// The first position at or after `from` that holds a comma, or the length
/// of `s`.
pub open spec fn comma_from(s: Seq<char>, from: int) -> int
    decreases s.len() - from,
{
    if 0 <= from < s.len() && s[from] != ',' {
        comma_from(s, from + 1)
    } else {
        from
    }
}

/// The parts of `s` from position `from` on that commas separate. A text
/// without a comma is one part, and so is the empty text.
pub open spec fn parts_from(s: Seq<char>, from: int) -> Seq<Seq<char>>
    decreases s.len() - from,
{
    let comma = comma_from(s, from);
    if from < 0 || from > s.len() || comma < from {
        Seq::empty()
    } else if comma >= s.len() {
        seq![s.subrange(from, s.len() as int)]
    } else {
        seq![s.subrange(from, comma)] + parts_from(s, comma + 1)
    }
}

/// The origins that a comma-separated list names.
pub open spec fn spec_origins(s: Seq<char>) -> Seq<Seq<char>> {
    parts_from(s, 0)
}

/// Whether `c` may stand in the value of a header: a tab, or any character
/// from the space on but the delete character.
pub open spec fn is_header_char(c: char) -> bool {
    c == '\t' || (' ' <= c && c as u32 != 127)
}

/// Whether `s` can be the value of a header.
pub open spec fn is_header_value(s: Seq<char>) -> bool {
    forall|i: int| 0 <= i < s.len() ==> is_header_char(#[trigger] s[i])
}

/// Whether every one of `origins` can be the value of a header.
pub open spec fn origins_legal(origins: Seq<Seq<char>>) -> bool {
    forall|i: int| 0 <= i < origins.len() ==> is_header_value(#[trigger] origins[i])
}

/// Calls `http::HeaderValue::from_str` and says whether it succeeded. The
/// crate accepts a text exactly if each of its bytes is a tab or is 32 or
/// more and not 127; the bytes of a character beyond ASCII are all above
/// 127, so the contract states the same of the characters. Not proved.
#[verifier::external_body]
fn header_value_legal(text: &str) -> (legal: bool)
    ensures
        legal == is_header_value(text@),
{
    http::HeaderValue::from_str(text).is_ok()
}

/// The origins from which requests are allowed, out of their
/// comma-separated list: one for each piece between commas, in order. A
/// piece that cannot be the value of a header is a configuration error.
pub fn parse_cors_allow_origin(cors_allow_origin: &str) -> (result: Result<
    Vec<String>,
    MediatorError,
>)
    ensures
        origins_legal(spec_origins(cors_allow_origin@)) ==> (result matches Ok(origins) && texts(
            origins@,
        ) == spec_origins(cors_allow_origin@)),
        !origins_legal(spec_origins(cors_allow_origin@)) ==> refused_because(
            result,
            ErrorKind::ConfigError,
            "NA"@,
            "Invalid `cors_allow_origin`: an origin is no legal header value"@,
        ),
{
    let origins = split_origins(cors_allow_origin);
    let mut i: usize = 0;
    while i < origins.len()
        invariant
            0 <= i <= origins.len(),
            texts(origins@) == spec_origins(cors_allow_origin@),
            forall|j: int| 0 <= j < i ==> is_header_value(#[trigger] texts(origins@)[j]),
        decreases origins.len() - i,
    {
        assert(texts(origins@)[i as int] == origins@[i as int]@);
        if !header_value_legal(origins[i].as_str()) {
            assert(!is_header_value(texts(origins@)[i as int]));
            return Err(
                MediatorError::without_session(
                    ErrorKind::ConfigError,
                    "Invalid `cors_allow_origin`: an origin is no legal header value",
                ),
            );
        }
        assert(texts(origins@)[i as int] == origins@[i as int]@);
        i += 1;
    }
    Ok(origins)
}

/// Splits a comma-separated list into its pieces.
pub fn split_origins(cors_allow_origin: &str) -> (origins: Vec<String>)
    ensures
        texts(origins@) == spec_origins(cors_allow_origin@),
{
    let ghost s = cors_allow_origin@;
    let n = cors_allow_origin.unicode_len();
    let mut origins: Vec<String> = Vec::new();
    let mut from: usize = 0;
    assert(texts(origins@) + parts_from(s, 0) =~= parts_from(s, 0));
    loop
        invariant
            0 <= from <= n,
            n == s.len(),
            s == cors_allow_origin@,
            texts(origins@) + parts_from(s, from as int) == spec_origins(s),
        decreases n - from,
    {
        let mut comma: usize = from;
        while comma < n && cors_allow_origin.get_char(comma) != ','
            invariant
                from <= comma <= n,
                n == s.len(),
                s == cors_allow_origin@,
                comma_from(s, from as int) == comma_from(s, comma as int),
            decreases n - comma,
        {
            comma += 1;
        }
        assert(comma_from(s, from as int) == comma);
        let ghost seen = texts(origins@);
        let part = slice_chars(cors_allow_origin, from, comma);
        let ghost part_text = part@;
        origins.push(part);
        assert(texts(origins@) =~= seen.push(part_text));
        if comma >= n {
            assert(seen + seq![part_text] =~= seen.push(part_text));
            return origins;
        }
        proof {
            assert((seen + seq![part_text]) + parts_from(s, comma + 1) =~= seen + (seq![part_text]
                + parts_from(s, comma + 1)));
            assert(seen + seq![part_text] =~= seen.push(part_text));
        }
        from = comma + 1;
    }
}

/// The settings of the DID resolver.
#[derive(Debug, PartialEq, Eq)]
pub struct ResolverSettings {
    /// The address of a resolver service. Where there is none, the resolver
    /// works on its own.
    pub address: Option<String>,
    /// The most DID documents that the cache holds.
    pub cache_capacity: u32,
    /// The seconds for which a cached document is good.
    pub cache_ttl: u32,
    /// The seconds after which a call to the resolver service is given up.
    pub network_timeout: u32,
    /// The most calls to the resolver service that may wait for an answer.
    pub network_limit: u32,
}

/// The settings of the DID resolver.
pub struct ResolverModel {
    pub address: Option<Seq<char>>,
    pub cache_capacity: u32,
    pub cache_ttl: u32,
    pub network_timeout: u32,
    pub network_limit: u32,
}

impl View for ResolverSettings {
    type V = ResolverModel;

    open spec fn view(&self) -> ResolverModel {
        ResolverModel {
            address: opt_text(self.address),
            cache_capacity: self.cache_capacity,
            cache_ttl: self.cache_ttl,
            network_timeout: self.network_timeout,
            network_limit: self.network_limit,
        }
    }
}

/// The resolver's settings where nothing is configured: no service, 1000
/// documents for 300 seconds, calls given up after 5 seconds, and 100 calls
/// at most.
pub open spec fn default_resolver() -> ResolverModel {
    ResolverModel {
        address: None,
        cache_capacity: 1000,
        cache_ttl: 300,
        network_timeout: 5,
        network_limit: 100,
    }
}

/// `seconds` in milliseconds, or the most that 32 bits hold where that is
/// less.
pub open spec fn spec_millis(seconds: u32) -> u32 {
    if seconds * 1000 <= u32::MAX {
        (seconds * 1000) as u32
    } else {
        u32::MAX
    }
}

/// `seconds` in milliseconds.
pub fn millis(seconds: u32) -> (ms: u32)
    ensures
        ms == spec_millis(seconds),
{
    if seconds <= 4294967 {
        seconds * 1000
    } else {
        u32::MAX
    }
}

/// The configuration of the DID resolver, as the resolver crate holds it.
/// Nothing of its inside is seen here.
#[verifier::external_type_specification]
#[verifier::external_body]
pub struct ExDIDCacheConfig(affinidi_did_resolver_cache_sdk::config::DIDCacheConfig);

/// The configuration of a resolver that asks the service at `address`, or
/// works on its own where there is none, holds `cache_capacity` documents for
/// `cache_ttl` seconds, gives a call up after `timeout_millis` milliseconds,
/// lets `network_limit` calls wait, and is otherwise as the resolver crate
/// makes it by default. It stands for what `DIDCacheConfigBuilder` builds.
pub uninterp spec fn resolver_config(
    address: Option<Seq<char>>,
    cache_capacity: u32,
    cache_ttl: u32,
    timeout_millis: u32,
    network_limit: u32,
) -> affinidi_did_resolver_cache_sdk::config::DIDCacheConfig;

/// Builds the configuration of a resolver that works on its own, with
/// `DIDCacheConfigBuilder` of the resolver crate: `default`,
/// `with_cache_capacity`, `with_cache_ttl`, `with_network_timeout`,
/// `with_network_cache_limit_count` and `build`. The builder starts from
/// constants and copies the numbers, so the contract names the result. Not
/// proved.
#[verifier::external_body]
fn build_local_config(cache_capacity: u32, cache_ttl: u32, timeout_millis: u32, network_limit: u32) -> (config:
    affinidi_did_resolver_cache_sdk::config::DIDCacheConfig)
    ensures
        config == resolver_config(None, cache_capacity, cache_ttl, timeout_millis, network_limit),
{
    affinidi_did_resolver_cache_sdk::config::DIDCacheConfigBuilder::default()
        .with_cache_capacity(cache_capacity)
        .with_cache_ttl(cache_ttl)
        .with_network_timeout(timeout_millis)
        .with_network_cache_limit_count(network_limit)
        .build()
}

/// Builds the configuration of a resolver that asks the service at
/// `address`: as `build_local_config`, and `with_network_mode`. The contract
/// names the result. Not proved.
#[verifier::external_body]
fn build_network_config(
    address: &str,
    cache_capacity: u32,
    cache_ttl: u32,
    timeout_millis: u32,
    network_limit: u32,
) -> (config: affinidi_did_resolver_cache_sdk::config::DIDCacheConfig)
    ensures
        config == resolver_config(
            Some(address@),
            cache_capacity,
            cache_ttl,
            timeout_millis,
            network_limit,
        ),
{
    affinidi_did_resolver_cache_sdk::config::DIDCacheConfigBuilder::default()
        .with_cache_capacity(cache_capacity)
        .with_cache_ttl(cache_ttl)
        .with_network_timeout(timeout_millis)
        .with_network_cache_limit_count(network_limit)
        .with_network_mode(address)
        .build()
}

/// The configuration that the resolver crate makes of `settings`.
pub open spec fn spec_resolver_config(settings: ResolverModel) -> affinidi_did_resolver_cache_sdk::config::DIDCacheConfig {
    resolver_config(
        settings.address,
        settings.cache_capacity,
        settings.cache_ttl,
        spec_millis(settings.network_timeout),
        settings.network_limit,
    )
}

impl ResolverSettings {
    /// The configuration of the DID resolver that these settings ask for:
    /// each of the five is applied.
    pub fn build(&self) -> (config: affinidi_did_resolver_cache_sdk::config::DIDCacheConfig)
        ensures
            config == spec_resolver_config(self@),
    {
        let timeout = millis(self.network_timeout);
        match &self.address {
            Some(address) => build_network_config(
                address.as_str(),
                self.cache_capacity,
                self.cache_ttl,
                timeout,
                self.network_limit,
            ),
            None => build_local_config(
                self.cache_capacity,
                self.cache_ttl,
                timeout,
                self.network_limit,
            ),
        }
    }
}

impl DIDResolverConfig {
    /// The resolver's settings as they are configured: the address as it
    /// stands, and each number as its text denotes it, or its default where
    /// the text denotes none: 1000 documents, 300 seconds, 5 seconds, 100
    /// calls.
    pub open spec fn spec_settings(&self) -> ResolverModel {
        ResolverModel {
            address: opt_text(self.address),
            cache_capacity: spec_u32_or(self.cache_capacity@, 1000),
            cache_ttl: spec_u32_or(self.cache_ttl@, 300),
            network_timeout: spec_u32_or(self.network_timeout@, 5),
            network_limit: spec_u32_or(self.network_limit@, 100),
        }
    }

    /// The resolver's settings as they are configured.
    pub fn settings(&self) -> (settings: ResolverSettings)
        ensures
            settings@ == self.spec_settings(),
    {
        ResolverSettings {
            address: crate::text::clone_opt(&self.address),
            cache_capacity: u32_or(self.cache_capacity.as_str(), 1000),
            cache_ttl: u32_or(self.cache_ttl.as_str(), 300),
            network_timeout: u32_or(self.network_timeout.as_str(), 5),
            network_limit: u32_or(self.network_limit.as_str(), 100),
        }
    }

    /// The configuration of the DID resolver: the one that the resolver
    /// crate makes of all five settings.
    pub fn convert(&self) -> (config: affinidi_did_resolver_cache_sdk::config::DIDCacheConfig)
        ensures
            config == spec_resolver_config(self.spec_settings()),
    {
        self.settings().build()
    }
}

/// The settings that the mediator runs with.
pub struct Config {
    pub log_level: LogLevel,
    pub listen_address: String,
    pub mediator_did: String,
    pub mediator_secrets: SecretStore,
    pub database_url: String,
    pub database_pool_size: usize,
    pub database_timeout: u32,
    pub api_prefix: String,
    pub http_size_limit: u32,
    pub ws_size_limit: u32,
    pub max_message_size: u32,
    pub max_queued_messages: u32,
    pub message_expiry_minutes: u32,
    pub max_listed_messages: u32,
    pub max_deleted_messages: u32,
    pub use_ssl: bool,
    pub ssl_certificate_file: String,
    pub ssl_key_file: String,
    /// The PKCS#8 document of the key pair that signs tokens.
    pub jwt_encoding_key: Option<Vec<u8>>,
    /// The public key that verifies tokens.
    pub jwt_decoding_key: Option<Vec<u8>>,
    pub streaming_enabled: bool,
    pub streaming_uuid: String,
    pub did_resolver_config: ResolverSettings,
    pub to_recipients_limit: usize,
    /// The origins from which requests are allowed; any origin where none
    /// is named.
    pub cors_allow_origin: Option<Vec<String>>,
    pub crypto_operations_per_message_limit: usize,
    pub to_keys_per_recipient_limit: usize,
}

/// The bytes of an optional key.
pub open spec fn opt_bytes(key: Option<Vec<u8>>) -> Option<Seq<u8>> {
    match key {
        Some(k) => Some(k@),
        None => None,
    }
}

impl Config {
    /// Whether these are the settings that hold where nothing is configured.
    pub open spec fn is_default(&self) -> bool {
        &&& self.log_level == LogLevel::Info
        &&& self.listen_address@ == ""@
        &&& self.mediator_did@ == ""@
        &&& self.mediator_secrets.contents().len() == 0
        &&& self.database_url@ == "redis://127.0.0.1/"@
        &&& self.database_pool_size == 10
        &&& self.database_timeout == 2
        &&& self.api_prefix@ == "/mediator/v1/"@
        &&& self.http_size_limit == 10485760
        &&& self.ws_size_limit == 10485760
        &&& self.max_message_size == 1048576
        &&& self.max_queued_messages == 100
        &&& self.message_expiry_minutes == 10080
        &&& self.max_listed_messages == 100
        &&& self.max_deleted_messages == 100
        &&& self.use_ssl
        &&& self.ssl_certificate_file@ == ""@
        &&& self.ssl_key_file@ == ""@
        &&& self.jwt_encoding_key is None
        &&& self.jwt_decoding_key is None
        &&& self.streaming_enabled
        &&& self.streaming_uuid@ == ""@
        &&& self.did_resolver_config@ == default_resolver()
        &&& self.to_recipients_limit == 100
        &&& self.cors_allow_origin is None
        &&& self.crypto_operations_per_message_limit == 1000
        &&& self.to_keys_per_recipient_limit == 100
    }

    /// The bounds that the mailbox store keeps under these settings.
    pub open spec fn spec_store_limits(&self) -> StoreLimits {
        StoreLimits {
            max_message_size: self.max_message_size,
            max_queued_messages: self.max_queued_messages,
            message_expiry_minutes: self.message_expiry_minutes,
            max_listed_messages: self.max_listed_messages,
            max_deleted_messages: self.max_deleted_messages,
        }
    }

    /// The bounds that the mailbox store keeps under these settings.
    #[verifier::when_used_as_spec(spec_store_limits)]
    pub fn store_limits(&self) -> (limits: StoreLimits)
        ensures
            limits == self.spec_store_limits(),
    {
        StoreLimits {
            max_message_size: self.max_message_size,
            max_queued_messages: self.max_queued_messages,
            message_expiry_minutes: self.message_expiry_minutes,
            max_listed_messages: self.max_listed_messages,
            max_deleted_messages: self.max_deleted_messages,
        }
    }

    /// The limits that bear on one request under these settings.
    pub open spec fn spec_request_limits(&self) -> RequestLimits {
        RequestLimits {
            max_listed_messages: self.max_listed_messages,
            max_deleted_messages: self.max_deleted_messages,
            to_recipients_limit: self.to_recipients_limit,
            to_keys_per_recipient_limit: self.to_keys_per_recipient_limit,
            crypto_operations_per_message_limit: self.crypto_operations_per_message_limit,
        }
    }

    /// The limits that bear on one request under these settings.
    #[verifier::when_used_as_spec(spec_request_limits)]
    pub fn request_limits(&self) -> (limits: RequestLimits)
        ensures
            limits == self.spec_request_limits(),
    {
        RequestLimits {
            max_listed_messages: self.max_listed_messages,
            max_deleted_messages: self.max_deleted_messages,
            to_recipients_limit: self.to_recipients_limit,
            to_keys_per_recipient_limit: self.to_keys_per_recipient_limit,
            crypto_operations_per_message_limit: self.crypto_operations_per_message_limit,
        }
    }
}

impl Default for Config {
    fn default() -> (config: Config)
        ensures
            config.is_default(),
    {
        proof {
            reveal_strlit("");
            assert(""@ =~= Seq::<char>::empty());
        }
        Config {
            log_level: LogLevel::Info,
            listen_address: String::new(),
            mediator_did: String::new(),
            mediator_secrets: SecretStore::new(Vec::new()),
            database_url: "redis://127.0.0.1/".to_owned(),
            database_pool_size: 10,
            database_timeout: 2,
            api_prefix: "/mediator/v1/".to_owned(),
            http_size_limit: 10485760,
            ws_size_limit: 10485760,
            max_message_size: 1048576,
            max_queued_messages: 100,
            message_expiry_minutes: 10080,
            max_listed_messages: 100,
            max_deleted_messages: 100,
            use_ssl: true,
            ssl_certificate_file: String::new(),
            ssl_key_file: String::new(),
            jwt_encoding_key: None,
            jwt_decoding_key: None,
            streaming_enabled: true,
            streaming_uuid: String::new(),
            did_resolver_config: ResolverSettings {
                address: None,
                cache_capacity: 1000,
                cache_ttl: 300,
                network_timeout: 5,
                network_limit: 100,
            },
            to_recipients_limit: 100,
            cors_allow_origin: None,
            crypto_operations_per_message_limit: 1000,
            to_keys_per_recipient_limit: 100,
        }
    }
}

/// One line of a description: a name, a colon, a value.
pub open spec fn spec_line(name: Seq<char>, value: Seq<char>) -> Seq<char> {
    name + ": "@ + value + "\n"@
}

/// Adds the line of `name` and `value` to `text`.
pub fn push_line(text: &mut String, name: &str, value: &str)
    ensures
        final(text)@ == old(text)@ + spec_line(name@, value@),
{
    let ghost before = text@;
    text.append(name);
    text.append(": ");
    text.append(value);
    text.append("\n");
    assert(text@ =~= before + spec_line(name@, value@));
}

/// How a truth value is written.
pub open spec fn bool_name(b: bool) -> Seq<char> {
    if b {
        "true"@
    } else {
        "false"@
    }
}

/// How a truth value is written.
pub fn bool_text(b: bool) -> (text: String)
    ensures
        text@ == bool_name(b),
{
    if b {
        "true".to_owned()
    } else {
        "false".to_owned()
    }
}

/// How a log level is written.
pub open spec fn level_name(level: LogLevel) -> Seq<char> {
    match level {
        LogLevel::Trace => "trace"@,
        LogLevel::Debug => "debug"@,
        LogLevel::Info => "info"@,
        LogLevel::Warn => "warn"@,
        LogLevel::Error => "error"@,
    }
}

/// How a log level is written.
pub fn level_text(level: LogLevel) -> (text: String)
    ensures
        text@ == level_name(level),
{
    match level {
        LogLevel::Trace => "trace".to_owned(),
        LogLevel::Debug => "debug".to_owned(),
        LogLevel::Info => "info".to_owned(),
        LogLevel::Warn => "warn".to_owned(),
        LogLevel::Error => "error".to_owned(),
    }
}

/// How the allowed origins are written: any origin, or how many are named.
pub open spec fn origins_name(origins: Option<Vec<String>>) -> Seq<char> {
    match origins {
        Some(list) => spec_with_number("("@, list@.len(), ") origins"@),
        None => "any"@,
    }
}

/// How the allowed origins are written.
pub fn origins_text(origins: &Option<Vec<String>>) -> (text: String)
    ensures
        text@ == origins_name(*origins),
{
    match origins {
        Some(list) => with_number("(", list.len() as u64, ") origins"),
        None => "any".to_owned(),
    }
}

/// How the address of the resolver service is written: the address, or that
/// the resolver works on its own.
pub open spec fn address_name(address: Option<String>) -> Seq<char> {
    match address {
        Some(a) => a@,
        None => "local"@,
    }
}

/// How the address of the resolver service is written.
pub fn address_text(address: &Option<String>) -> (text: String)
    ensures
        text@ == address_name(*address),
{
    match address {
        Some(a) => a.clone(),
        None => "local".to_owned(),
    }
}

impl Config {
    /// The settings as text, one to a line, without what is secret: of the
    /// mediator's secrets only how many there are, and of the keys that sign
    /// and verify tokens only whether they are there.
    pub open spec fn spec_describe(&self) -> Seq<char> {
        Seq::<char>::empty()
            + spec_line("log_level"@, level_name(self.log_level))
            + spec_line("listen_address"@, self.listen_address@)
            + spec_line("mediator_did"@, self.mediator_did@)
            + spec_line("mediator_did_doc"@, "Hidden"@)
            + spec_line("mediator_secrets"@, spec_with_number("("@, self.mediator_secrets.contents().len(), ") secrets loaded"@))
            + spec_line("use_ssl"@, bool_name(self.use_ssl))
            + spec_line("cors_allow_origin"@, origins_name(self.cors_allow_origin))
            + spec_line("database_url"@, self.database_url@)
            + spec_line("database_pool_size"@, decimal_text(self.database_pool_size as nat))
            + spec_line("database_timeout"@, decimal_text(self.database_timeout as nat))
            + spec_line("max_message_size"@, decimal_text(self.max_message_size as nat))
            + spec_line("max_listed_messages"@, decimal_text(self.max_listed_messages as nat))
            + spec_line("message_expiry_minutes"@, decimal_text(self.message_expiry_minutes as nat))
            + spec_line("max_queued_messages"@, decimal_text(self.max_queued_messages as nat))
            + spec_line("max_deleted_messages"@, decimal_text(self.max_deleted_messages as nat))
            + spec_line("ssl_certificate_file"@, self.ssl_certificate_file@)
            + spec_line("ssl_key_file"@, self.ssl_key_file@)
            + spec_line("jwt_encoding_key?"@, bool_name(self.jwt_encoding_key is Some))
            + spec_line("jwt_decoding_key?"@, bool_name(self.jwt_decoding_key is Some))
            + spec_line("streaming_enabled?"@, bool_name(self.streaming_enabled))
            + spec_line("streaming_uuid"@, self.streaming_uuid@)
            + spec_line("did_resolver_address"@, address_name(self.did_resolver_config.address))
            + spec_line("did_resolver_cache_capacity"@, decimal_text(self.did_resolver_config.cache_capacity as nat))
            + spec_line("did_resolver_cache_ttl"@, decimal_text(self.did_resolver_config.cache_ttl as nat))
            + spec_line("did_resolver_network_timeout"@, decimal_text(self.did_resolver_config.network_timeout as nat))
            + spec_line("did_resolver_network_limit"@, decimal_text(self.did_resolver_config.network_limit as nat))
            + spec_line("to_recipients_limit"@, decimal_text(self.to_recipients_limit as nat))
            + spec_line("api_prefix"@, self.api_prefix@)
            + spec_line("http_size_limit"@, decimal_text(self.http_size_limit as nat))
            + spec_line("ws_size_limit"@, decimal_text(self.ws_size_limit as nat))
            + spec_line("crypto_operations_per_message_limit"@, decimal_text(self.crypto_operations_per_message_limit as nat))
            + spec_line("to_keys_per_recipient_limit"@, decimal_text(self.to_keys_per_recipient_limit as nat))
    }

    /// The settings as text, without what is secret.
    pub fn describe(&self) -> (text: String)
        ensures
            text@ == self.spec_describe(),
    {
        let mut text = String::new();
        push_line(&mut text, "log_level", level_text(self.log_level).as_str());
        push_line(&mut text, "listen_address", self.listen_address.clone().as_str());
        push_line(&mut text, "mediator_did", self.mediator_did.clone().as_str());
        push_line(&mut text, "mediator_did_doc", "Hidden".to_owned().as_str());
        push_line(&mut text, "mediator_secrets", with_number("(", self.mediator_secrets.len() as u64, ") secrets loaded").as_str());
        push_line(&mut text, "use_ssl", bool_text(self.use_ssl).as_str());
        push_line(&mut text, "cors_allow_origin", origins_text(&self.cors_allow_origin).as_str());
        push_line(&mut text, "database_url", self.database_url.clone().as_str());
        push_line(&mut text, "database_pool_size", decimal(self.database_pool_size as u64).as_str());
        push_line(&mut text, "database_timeout", decimal(self.database_timeout as u64).as_str());
        push_line(&mut text, "max_message_size", decimal(self.max_message_size as u64).as_str());
        push_line(&mut text, "max_listed_messages", decimal(self.max_listed_messages as u64).as_str());
        push_line(&mut text, "message_expiry_minutes", decimal(self.message_expiry_minutes as u64).as_str());
        push_line(&mut text, "max_queued_messages", decimal(self.max_queued_messages as u64).as_str());
        push_line(&mut text, "max_deleted_messages", decimal(self.max_deleted_messages as u64).as_str());
        push_line(&mut text, "ssl_certificate_file", self.ssl_certificate_file.clone().as_str());
        push_line(&mut text, "ssl_key_file", self.ssl_key_file.clone().as_str());
        push_line(&mut text, "jwt_encoding_key?", bool_text(self.jwt_encoding_key.is_some()).as_str());
        push_line(&mut text, "jwt_decoding_key?", bool_text(self.jwt_decoding_key.is_some()).as_str());
        push_line(&mut text, "streaming_enabled?", bool_text(self.streaming_enabled).as_str());
        push_line(&mut text, "streaming_uuid", self.streaming_uuid.clone().as_str());
        push_line(&mut text, "did_resolver_address", address_text(&self.did_resolver_config.address).as_str());
        push_line(&mut text, "did_resolver_cache_capacity", decimal(self.did_resolver_config.cache_capacity as u64).as_str());
        push_line(&mut text, "did_resolver_cache_ttl", decimal(self.did_resolver_config.cache_ttl as u64).as_str());
        push_line(&mut text, "did_resolver_network_timeout", decimal(self.did_resolver_config.network_timeout as u64).as_str());
        push_line(&mut text, "did_resolver_network_limit", decimal(self.did_resolver_config.network_limit as u64).as_str());
        push_line(&mut text, "to_recipients_limit", decimal(self.to_recipients_limit as u64).as_str());
        push_line(&mut text, "api_prefix", self.api_prefix.clone().as_str());
        push_line(&mut text, "http_size_limit", decimal(self.http_size_limit as u64).as_str());
        push_line(&mut text, "ws_size_limit", decimal(self.ws_size_limit as u64).as_str());
        push_line(&mut text, "crypto_operations_per_message_limit", decimal(self.crypto_operations_per_message_limit as u64).as_str());
        push_line(&mut text, "to_keys_per_recipient_limit", decimal(self.to_keys_per_recipient_limit as u64).as_str());
        text
    }
}

/// What was fetched for the configuration from where it said.
pub struct Resolved {
    /// The mediator's DID.
    pub mediator_did: String,
    /// The mediator's secrets.
    pub mediator_secrets: Vec<Secret>,
    /// The key pair that signs tokens: a PKCS#8 document in URL-safe base64
    /// without padding.
    pub jwt_secret: String,
    /// The name of the machine, if it could be had.
    pub machine: Option<String>,
}

/// The origins of an optional comma-separated list.
pub open spec fn opt_origins(list: Option<Seq<char>>) -> Option<Seq<Seq<char>>> {
    match list {
        Some(s) => Some(spec_origins(s)),
        None => None,
    }
}

/// The texts of an optional list of strings.
pub open spec fn opt_list(list: Option<Vec<String>>) -> Option<Seq<Seq<char>>> {
    match list {
        Some(v) => Some(texts(v@)),
        None => None,
    }
}

/// Whether `config` holds what `raw` and `resolved` say, where `key` is the
/// key pair that signs tokens and `public_key` its public key: each number
/// and truth value as its text denotes it, or the default where the text
/// denotes none.
pub open spec fn config_reads(
    config: Config,
    raw: ConfigRaw,
    resolved: Resolved,
    key: Seq<u8>,
    public_key: Seq<u8>,
) -> bool {
    &&& config.log_level == spec_log_level(raw.log_level@)
    &&& config.listen_address@ == raw.listen_address@
    &&& config.mediator_did@ == resolved.mediator_did@
    &&& config.mediator_secrets.contents() == resolved.mediator_secrets@
    &&& config.database_url@ == raw.database.database_url@
    &&& config.database_pool_size == spec_usize_or(raw.database.database_pool_size@, 10)
    &&& config.database_timeout == spec_u32_or(raw.database.database_timeout@, 2)
    &&& config.api_prefix@ == raw.server.api_prefix@
    &&& config.http_size_limit == spec_u32_or(raw.server.http_size_limit@, 10485760)
    &&& config.ws_size_limit == spec_u32_or(raw.server.ws_size_limit@, 10485760)
    &&& config.max_message_size == spec_u32_or(raw.database.max_message_size@, 1048576)
    &&& config.max_queued_messages == spec_u32_or(raw.database.max_queued_messages@, 100)
    &&& config.message_expiry_minutes == spec_u32_or(raw.database.message_expiry_minutes@, 10080)
    &&& config.max_listed_messages == spec_u32_or(raw.database.max_listed_messages@, 100)
    &&& config.max_deleted_messages == spec_u32_or(raw.database.max_deleted_messages@, 100)
    &&& config.use_ssl == spec_bool_or(raw.security.use_ssl@, true)
    &&& config.ssl_certificate_file@ == raw.security.ssl_certificate_file@
    &&& config.ssl_key_file@ == raw.security.ssl_key_file@
    &&& opt_bytes(config.jwt_encoding_key) == Some(key)
    &&& opt_bytes(config.jwt_decoding_key) == Some(public_key)
    &&& config.streaming_enabled == spec_bool_or(raw.streaming.enabled@, true)
    &&& config.streaming_uuid@ == if config.streaming_enabled {
        spec_hostname(raw.streaming.uuid@, opt_text(resolved.machine))->Some_0
    } else {
        ""@
    }
    &&& config.did_resolver_config@ == raw.did_resolver.spec_settings()
    &&& config.to_recipients_limit == spec_usize_or(raw.other.to_recipients_limit@, 100)
    &&& opt_list(config.cors_allow_origin) == opt_origins(opt_text(raw.security.cors_allow_origin))
    &&& config.crypto_operations_per_message_limit == spec_usize_or(
        raw.other.crypto_operations_per_message_limit@,
        1000,
    )
    &&& config.to_keys_per_recipient_limit == spec_usize_or(
        raw.other.to_keys_per_recipient_limit@,
        100,
    )
}

/// Whether the settings can be made of `raw` and `resolved`: every origin
/// that is allowed must be a legal header value, the key that signs tokens
/// must be base64 of a PKCS#8 document that holds an Ed25519 key pair, and
/// where live streaming is on, the id of this instance's streams must be
/// configured and to be had.
pub open spec fn config_ok(raw: ConfigRaw, resolved: Resolved) -> bool {
    &&& raw.security.cors_allow_origin matches Some(list) ==> origins_legal(spec_origins(list@))
    &&& base64url_bytes(resolved.jwt_secret@) matches Some(key)
    &&& ed25519_public_of(key) is Some
    &&& spec_bool_or(raw.streaming.enabled@, true) ==> spec_hostname(
        raw.streaming.uuid@,
        opt_text(resolved.machine),
    ) is Some
}

/// The reason for which no settings can be made of `raw` and `resolved`:
/// that of the first of the three demands of `config_ok` that is not met.
pub open spec fn config_failure(raw: ConfigRaw, resolved: Resolved) -> Seq<char> {
    if raw.security.cors_allow_origin matches Some(list) && !origins_legal(spec_origins(list@)) {
        "Invalid `cors_allow_origin`: an origin is no legal header value"@
    } else if !(base64url_bytes(resolved.jwt_secret@) matches Some(key) && ed25519_public_of(key)
        is Some) {
        "Could not create JWT key pair"@
    } else {
        hostname_reason(raw.streaming.uuid@)
    }
}

impl Config {
    /// Makes the settings of the configuration file as it was read and of
    /// what was fetched for it.
    ///
    /// A number or truth value that its text does not denote takes its
    /// default. The failure is a `ConfigError`, and comes exactly where
    /// `config_ok` does not hold.
    pub fn try_from(raw: ConfigRaw, resolved: Resolved) -> (result: Result<Config, MediatorError>)
        ensures
            result is Ok <==> config_ok(raw, resolved),
            result matches Ok(config) ==> config_reads(
                config,
                raw,
                resolved,
                base64url_bytes(resolved.jwt_secret@)->Some_0,
                ed25519_public_of(base64url_bytes(resolved.jwt_secret@)->Some_0)->Some_0,
            ),
            result is Err ==> refused_because(
                result,
                ErrorKind::ConfigError,
                "NA"@,
                config_failure(raw, resolved),
            ),
    {
        proof {
            reveal_strlit("");
            assert(""@ =~= Seq::<char>::empty());
        }
        let cors_allow_origin = match &raw.security.cors_allow_origin {
            Some(list) => Some(parse_cors_allow_origin(list.as_str())?),
            None => None,
        };
        let key = decode_jwt_secret(resolved.jwt_secret.as_str())?;
        let public_key = match jwt_public_key(key.as_slice()) {
            Some(public_key) => public_key,
            None => {
                return Err(
                    MediatorError::without_session(
                        ErrorKind::ConfigError,
                        "Could not create JWT key pair",
                    ),
                );
            },
        };
        let streaming_enabled = bool_or(raw.streaming.enabled.as_str(), true);
        let streaming_uuid = if streaming_enabled {
            hostname_from(raw.streaming.uuid.as_str(), resolved.machine)?
        } else {
            String::new()
        };
        Ok(
            Config {
                log_level: log_level(raw.log_level.as_str()),
                listen_address: raw.listen_address,
                mediator_did: resolved.mediator_did,
                mediator_secrets: SecretStore::new(resolved.mediator_secrets),
                database_url: raw.database.database_url,
                database_pool_size: usize_or(raw.database.database_pool_size.as_str(), 10),
                database_timeout: u32_or(raw.database.database_timeout.as_str(), 2),
                api_prefix: raw.server.api_prefix,
                http_size_limit: u32_or(raw.server.http_size_limit.as_str(), 10485760),
                ws_size_limit: u32_or(raw.server.ws_size_limit.as_str(), 10485760),
                max_message_size: u32_or(raw.database.max_message_size.as_str(), 1048576),
                max_queued_messages: u32_or(raw.database.max_queued_messages.as_str(), 100),
                message_expiry_minutes: u32_or(raw.database.message_expiry_minutes.as_str(), 10080),
                max_listed_messages: u32_or(raw.database.max_listed_messages.as_str(), 100),
                max_deleted_messages: u32_or(raw.database.max_deleted_messages.as_str(), 100),
                use_ssl: bool_or(raw.security.use_ssl.as_str(), true),
                ssl_certificate_file: raw.security.ssl_certificate_file,
                ssl_key_file: raw.security.ssl_key_file,
                jwt_encoding_key: Some(key),
                jwt_decoding_key: Some(public_key),
                streaming_enabled,
                streaming_uuid,
                did_resolver_config: raw.did_resolver.settings(),
                to_recipients_limit: usize_or(raw.other.to_recipients_limit.as_str(), 100),
                cors_allow_origin,
                crypto_operations_per_message_limit: usize_or(
                    raw.other.crypto_operations_per_message_limit.as_str(),
                    1000,
                ),
                to_keys_per_recipient_limit: usize_or(
                    raw.other.to_keys_per_recipient_limit.as_str(),
                    100,
                ),
            },
        )
    }
}

} // verus!
