//! The configuration file as it is read: every value still text.

use crate::config::env::{bindings, expand_env_vars, join_lines, joined, no_comment, read_file_lines, spec_expand};
use crate::dispatch::refused_because;
use crate::errors::{ErrorKind, MediatorError};
use crate::text::{opt_text, texts};
use vstd::prelude::*;

verus! {

/// The settings of the HTTP server, as text.
#[derive(Debug)]
pub struct ServerConfig {
    pub api_prefix: String,
    pub http_size_limit: String,
    pub ws_size_limit: String,
}

/// The settings of the message store, as text.
#[derive(Debug)]
pub struct DatabaseConfig {
    pub database_url: String,
    pub database_pool_size: String,
    pub database_timeout: String,
    pub max_message_size: String,
    pub max_queued_messages: String,
    pub message_expiry_minutes: String,
    pub max_listed_messages: String,
    pub max_deleted_messages: String,
}

/// The security settings, as text.
#[derive(Debug)]
pub struct SecurityConfig {
    pub use_ssl: String,
    pub ssl_certificate_file: String,
    pub ssl_key_file: String,
    pub jwt_authorization_secret: String,
    pub cors_allow_origin: Option<String>,
}

/// The settings of live streaming, as text.
#[derive(Debug)]
pub struct StreamingConfig {
    pub enabled: String,
    pub uuid: String,
}

/// The settings of the DID resolver, as text.
#[derive(Debug)]
pub struct DIDResolverConfig {
    pub address: Option<String>,
    pub cache_capacity: String,
    pub cache_ttl: String,
    pub network_timeout: String,
    pub network_limit: String,
}

/// The limits on the work spent on one message, as text.
#[derive(Debug)]
pub struct OtherConfig {
    pub to_recipients_limit: String,
    pub crypto_operations_per_message_limit: String,
    pub to_keys_per_recipient_limit: String,
}

/// The configuration file, every value as the text that stands in it.
#[derive(Debug)]
pub struct ConfigRaw {
    pub log_level: String,
    pub listen_address: String,
    pub mediator_did: String,
    pub mediator_secrets: String,
    pub server: ServerConfig,
    pub database: DatabaseConfig,
    pub security: SecurityConfig,
    pub streaming: StreamingConfig,
    pub did_resolver: DIDResolverConfig,
    pub other: OtherConfig,
}

/// The text under the key `key` at the top of the TOML document `document`:
/// `Some(Some(text))` where the key holds a string, `Some(None)` where the
/// document has no such key, and `None` where the document is not TOML or the
/// key holds something else than a string. It stands for what parsing the
/// document into a `toml::Table` and `get` on it return.
pub uninterp spec fn toml_top_text(document: Seq<char>, key: Seq<char>) -> Option<Option<Seq<char>>>;

/// The text under the key `key` in the table `table` of the TOML document
/// `document`: as `toml_top_text`, and `None` too where the document has no
/// such table.
pub uninterp spec fn toml_table_text(document: Seq<char>, table: Seq<char>, key: Seq<char>) -> Option<
    Option<Seq<char>>,
>;

/// The text of an entry.
pub open spec fn entry_text(entry: Option<Option<String>>) -> Option<Option<Seq<char>>> {
    match entry {
        Some(value) => Some(opt_text(value)),
        None => None,
    }
}

/// Parses the document into a `toml::Table` with `str::parse` and looks the
/// key up with `get`. Both depend on their arguments alone, so the contract
/// names the result. Not proved.
#[verifier::external_body]
fn toml_top(document: &str, key: &str) -> (entry: Option<Option<String>>)
    ensures
        entry_text(entry) == toml_top_text(document@, key@),
{
    let parsed = document.parse::<toml::Table>().ok()?;
    match parsed.get(key) {
        None => Some(None),
        Some(toml::Value::String(text)) => Some(Some(text.clone())),
        Some(_) => None,
    }
}

/// Parses the document into a `toml::Table` with `str::parse`, takes the
/// table with `get` and `as_table`, and looks the key up in it with `get`.
/// All depend on their arguments alone, so the contract names the result.
/// Not proved.
#[verifier::external_body]
fn toml_in(document: &str, table: &str, key: &str) -> (entry: Option<Option<String>>)
    ensures
        entry_text(entry) == toml_table_text(document@, table@, key@),
{
    let parsed = document.parse::<toml::Table>().ok()?;
    let scope = parsed.get(table)?.as_table()?;
    match scope.get(key) {
        None => Some(None),
        Some(toml::Value::String(text)) => Some(Some(text.clone())),
        Some(_) => None,
    }
}

/// The text of an entry that must be there.
pub open spec fn required_text(entry: Option<Option<Seq<char>>>) -> Option<Seq<char>> {
    match entry {
        Some(Some(text)) => Some(text),
        _ => None,
    }
}

/// The text of an entry that must be there: a configuration error where it
/// is missing or no text.
pub fn required(entry: Option<Option<String>>) -> (result: Result<String, MediatorError>)
    ensures
        match required_text(entry_text(entry)) {
            Some(text) => result matches Ok(s) && s@ == text,
            None => refused_because(
                result,
                ErrorKind::ConfigError,
                "NA"@,
                "Could not parse configuration settings"@,
            ),
        },
{
    match entry {
        Some(Some(text)) => Ok(text),
        _ => Err(
            MediatorError::without_session(
                ErrorKind::ConfigError,
                "Could not parse configuration settings",
            ),
        ),
    }
}

/// The text of an entry that may be missing: a configuration error where it
/// is there and no text.
pub fn optional(entry: Option<Option<String>>) -> (result: Result<Option<String>, MediatorError>)
    ensures
        match entry_text(entry) {
            Some(text) => result matches Ok(s) && opt_text(s) == text,
            None => refused_because(
                result,
                ErrorKind::ConfigError,
                "NA"@,
                "Could not parse configuration settings"@,
            ),
        },
{
    match entry {
        Some(value) => Ok(value),
        None => Err(
            MediatorError::without_session(
                ErrorKind::ConfigError,
                "Could not parse configuration settings",
            ),
        ),
    }
}

/// Whether the TOML document `document` holds every setting that must be
/// there as text, and the two that may be missing as text or not at all.
pub open spec fn raw_complete(document: Seq<char>) -> bool {
    &&& required_text(toml_top_text(document, "log_level"@)) is Some
    &&& required_text(toml_top_text(document, "listen_address"@)) is Some
    &&& required_text(toml_top_text(document, "mediator_did"@)) is Some
    &&& required_text(toml_top_text(document, "mediator_secrets"@)) is Some
    &&& required_text(toml_table_text(document, "server"@, "api_prefix"@)) is Some
    &&& required_text(toml_table_text(document, "server"@, "http_size_limit"@)) is Some
    &&& required_text(toml_table_text(document, "server"@, "ws_size_limit"@)) is Some
    &&& required_text(toml_table_text(document, "database"@, "database_url"@)) is Some
    &&& required_text(toml_table_text(document, "database"@, "database_pool_size"@)) is Some
    &&& required_text(toml_table_text(document, "database"@, "database_timeout"@)) is Some
    &&& required_text(toml_table_text(document, "database"@, "max_message_size"@)) is Some
    &&& required_text(toml_table_text(document, "database"@, "max_queued_messages"@)) is Some
    &&& required_text(toml_table_text(document, "database"@, "message_expiry_minutes"@)) is Some
    &&& required_text(toml_table_text(document, "database"@, "max_listed_messages"@)) is Some
    &&& required_text(toml_table_text(document, "database"@, "max_deleted_messages"@)) is Some
    &&& required_text(toml_table_text(document, "security"@, "use_ssl"@)) is Some
    &&& required_text(toml_table_text(document, "security"@, "ssl_certificate_file"@)) is Some
    &&& required_text(toml_table_text(document, "security"@, "ssl_key_file"@)) is Some
    &&& required_text(toml_table_text(document, "security"@, "jwt_authorization_secret"@)) is Some
    &&& toml_table_text(document, "security"@, "cors_allow_origin"@) is Some
    &&& required_text(toml_table_text(document, "streaming"@, "enabled"@)) is Some
    &&& required_text(toml_table_text(document, "streaming"@, "uuid"@)) is Some
    &&& toml_table_text(document, "did_resolver"@, "address"@) is Some
    &&& required_text(toml_table_text(document, "did_resolver"@, "cache_capacity"@)) is Some
    &&& required_text(toml_table_text(document, "did_resolver"@, "cache_ttl"@)) is Some
    &&& required_text(toml_table_text(document, "did_resolver"@, "network_timeout"@)) is Some
    &&& required_text(toml_table_text(document, "did_resolver"@, "network_limit"@)) is Some
    &&& required_text(toml_table_text(document, "other"@, "to_recipients_limit"@)) is Some
    &&& required_text(toml_table_text(document, "other"@, "crypto_operations_per_message_limit"@)) is Some
    &&& required_text(toml_table_text(document, "other"@, "to_keys_per_recipient_limit"@)) is Some
}

/// Whether `raw` holds the settings of the TOML document `document`, each
/// under its key.
pub open spec fn raw_reads(raw: ConfigRaw, document: Seq<char>) -> bool {
    &&& toml_top_text(document, "log_level"@) == Some(Some(raw.log_level@))
    &&& toml_top_text(document, "listen_address"@) == Some(Some(raw.listen_address@))
    &&& toml_top_text(document, "mediator_did"@) == Some(Some(raw.mediator_did@))
    &&& toml_top_text(document, "mediator_secrets"@) == Some(Some(raw.mediator_secrets@))
    &&& toml_table_text(document, "server"@, "api_prefix"@) == Some(Some(raw.server.api_prefix@))
    &&& toml_table_text(document, "server"@, "http_size_limit"@) == Some(Some(raw.server.http_size_limit@))
    &&& toml_table_text(document, "server"@, "ws_size_limit"@) == Some(Some(raw.server.ws_size_limit@))
    &&& toml_table_text(document, "database"@, "database_url"@) == Some(Some(raw.database.database_url@))
    &&& toml_table_text(document, "database"@, "database_pool_size"@) == Some(Some(raw.database.database_pool_size@))
    &&& toml_table_text(document, "database"@, "database_timeout"@) == Some(Some(raw.database.database_timeout@))
    &&& toml_table_text(document, "database"@, "max_message_size"@) == Some(Some(raw.database.max_message_size@))
    &&& toml_table_text(document, "database"@, "max_queued_messages"@) == Some(Some(raw.database.max_queued_messages@))
    &&& toml_table_text(document, "database"@, "message_expiry_minutes"@) == Some(Some(raw.database.message_expiry_minutes@))
    &&& toml_table_text(document, "database"@, "max_listed_messages"@) == Some(Some(raw.database.max_listed_messages@))
    &&& toml_table_text(document, "database"@, "max_deleted_messages"@) == Some(Some(raw.database.max_deleted_messages@))
    &&& toml_table_text(document, "security"@, "use_ssl"@) == Some(Some(raw.security.use_ssl@))
    &&& toml_table_text(document, "security"@, "ssl_certificate_file"@) == Some(Some(raw.security.ssl_certificate_file@))
    &&& toml_table_text(document, "security"@, "ssl_key_file"@) == Some(Some(raw.security.ssl_key_file@))
    &&& toml_table_text(document, "security"@, "jwt_authorization_secret"@) == Some(Some(raw.security.jwt_authorization_secret@))
    &&& toml_table_text(document, "security"@, "cors_allow_origin"@) == Some(opt_text(raw.security.cors_allow_origin))
    &&& toml_table_text(document, "streaming"@, "enabled"@) == Some(Some(raw.streaming.enabled@))
    &&& toml_table_text(document, "streaming"@, "uuid"@) == Some(Some(raw.streaming.uuid@))
    &&& toml_table_text(document, "did_resolver"@, "address"@) == Some(opt_text(raw.did_resolver.address))
    &&& toml_table_text(document, "did_resolver"@, "cache_capacity"@) == Some(Some(raw.did_resolver.cache_capacity@))
    &&& toml_table_text(document, "did_resolver"@, "cache_ttl"@) == Some(Some(raw.did_resolver.cache_ttl@))
    &&& toml_table_text(document, "did_resolver"@, "network_timeout"@) == Some(Some(raw.did_resolver.network_timeout@))
    &&& toml_table_text(document, "did_resolver"@, "network_limit"@) == Some(Some(raw.did_resolver.network_limit@))
    &&& toml_table_text(document, "other"@, "to_recipients_limit"@) == Some(Some(raw.other.to_recipients_limit@))
    &&& toml_table_text(document, "other"@, "crypto_operations_per_message_limit"@) == Some(Some(raw.other.crypto_operations_per_message_limit@))
    &&& toml_table_text(document, "other"@, "to_keys_per_recipient_limit"@) == Some(Some(raw.other.to_keys_per_recipient_limit@))
}

/// Reads the settings out of a TOML document. A document that is not TOML,
/// or that lacks a setting or holds one that is no text, is a configuration
/// error.
pub fn parse_config(document: &str) -> (result: Result<ConfigRaw, MediatorError>)
    ensures
        result is Ok <==> raw_complete(document@),
        result matches Ok(raw) ==> raw_reads(raw, document@),
        result is Err ==> refused_because(
                result,
                ErrorKind::ConfigError,
                "NA"@,
                "Could not parse configuration settings"@,
            ),
{
    let log_level = required(toml_top(document, "log_level"))?;
    let listen_address = required(toml_top(document, "listen_address"))?;
    let mediator_did = required(toml_top(document, "mediator_did"))?;
    let mediator_secrets = required(toml_top(document, "mediator_secrets"))?;
    let server = ServerConfig {
        api_prefix: required(toml_in(document, "server", "api_prefix"))?,
        http_size_limit: required(toml_in(document, "server", "http_size_limit"))?,
        ws_size_limit: required(toml_in(document, "server", "ws_size_limit"))?,
    };
    let database = DatabaseConfig {
        database_url: required(toml_in(document, "database", "database_url"))?,
        database_pool_size: required(toml_in(document, "database", "database_pool_size"))?,
        database_timeout: required(toml_in(document, "database", "database_timeout"))?,
        max_message_size: required(toml_in(document, "database", "max_message_size"))?,
        max_queued_messages: required(toml_in(document, "database", "max_queued_messages"))?,
        message_expiry_minutes: required(toml_in(document, "database", "message_expiry_minutes"))?,
        max_listed_messages: required(toml_in(document, "database", "max_listed_messages"))?,
        max_deleted_messages: required(toml_in(document, "database", "max_deleted_messages"))?,
    };
    let security = SecurityConfig {
        use_ssl: required(toml_in(document, "security", "use_ssl"))?,
        ssl_certificate_file: required(toml_in(document, "security", "ssl_certificate_file"))?,
        ssl_key_file: required(toml_in(document, "security", "ssl_key_file"))?,
        jwt_authorization_secret: required(toml_in(document, "security", "jwt_authorization_secret"))?,
        cors_allow_origin: optional(toml_in(document, "security", "cors_allow_origin"))?,
    };
    let streaming = StreamingConfig {
        enabled: required(toml_in(document, "streaming", "enabled"))?,
        uuid: required(toml_in(document, "streaming", "uuid"))?,
    };
    let did_resolver = DIDResolverConfig {
        address: optional(toml_in(document, "did_resolver", "address"))?,
        cache_capacity: required(toml_in(document, "did_resolver", "cache_capacity"))?,
        cache_ttl: required(toml_in(document, "did_resolver", "cache_ttl"))?,
        network_timeout: required(toml_in(document, "did_resolver", "network_timeout"))?,
        network_limit: required(toml_in(document, "did_resolver", "network_limit"))?,
    };
    let other = OtherConfig {
        to_recipients_limit: required(toml_in(document, "other", "to_recipients_limit"))?,
        crypto_operations_per_message_limit: required(toml_in(document, "other", "crypto_operations_per_message_limit"))?,
        to_keys_per_recipient_limit: required(toml_in(document, "other", "to_keys_per_recipient_limit"))?,
    };
    Ok(ConfigRaw {
        log_level,
        listen_address,
        mediator_did,
        mediator_secrets,
        server,
        database,
        security,
        streaming,
        did_resolver,
        other,
    })
}

/// The lines of a configuration file made ready: comments dropped, then
/// placeholders expanded.
pub open spec fn prepared(content: Seq<Seq<char>>, env: Seq<(Seq<char>, Seq<char>)>) -> Seq<Seq<char>> {
    content.filter(no_comment()).map_values(|line: Seq<char>| spec_expand(line, env))
}

/// The TOML document that the lines of a configuration file make up: the
/// lines that are no comments, their placeholders expanded from the
/// environment `env`, joined by line feeds.
pub open spec fn spec_document(content: Seq<Seq<char>>, env: Seq<(Seq<char>, Seq<char>)>) -> Seq<char> {
    joined(prepared(content, env))
}

/// Makes the TOML document out of the lines of a configuration file.
pub fn config_document(content: &Vec<String>, env: &Vec<(String, String)>) -> (document: String)
    ensures
        document@ == spec_document(texts(content@), bindings(env@)),
{
    let kept = read_file_lines(content);
    let expanded = expand_env_vars(&kept, env);
    assert(texts(expanded@) =~= prepared(texts(content@), bindings(env@)));
    join_lines(&expanded)
}

/// Reads the configuration out of the lines of its file, given the
/// environment: comments are dropped, placeholders expanded, and the settings
/// read out of the TOML document that is left.
pub fn read_config_file(content: &Vec<String>, env: &Vec<(String, String)>) -> (result: Result<
    ConfigRaw,
    MediatorError,
>)
    ensures
        result is Ok <==> raw_complete(spec_document(texts(content@), bindings(env@))),
        result matches Ok(raw) ==> raw_reads(raw, spec_document(texts(content@), bindings(env@))),
        result is Err ==> refused_because(
                result,
                ErrorKind::ConfigError,
                "NA"@,
                "Could not parse configuration settings"@,
            ),
{
    let document = config_document(content, env);
    parse_config(document.as_str())
}

} // verus!
