//! The mediator's start: reading the configuration, and the state that its
//! handlers share.

use crate::auth::{AuthModel, AuthService};
use crate::config::raw::{
    raw_complete, raw_reads, read_config_file, required_text, spec_document, toml_table_text,
    toml_top_text, ConfigRaw,
};
use crate::config::env::bindings;
use crate::config::settings::Config;
use crate::config::sources::{
    config_jwt_secret, did_source_reason, jwt_source_reason, load_secrets, read_did_config,
    secrets_source_reason, spec_did_source, spec_jwt_source, spec_secrets_source, Source,
};
use crate::dispatch::refused_because;
use crate::errors::{ErrorKind, MediatorError};
use crate::mailbox::model::StoreModel;
use crate::mailbox::store::MailboxStore;
use crate::streaming::{LiveStreams, StreamsModel};
use crate::text::texts;
use affinidi_messaging_didcomm::DIDCommAgent;
use vstd::prelude::*;

verus! {

/// Where the values come from that the configuration does not hold itself.
#[derive(Debug)]
pub struct SourcePlan {
    pub mediator_did: Source,
    pub mediator_secrets: Source,
    pub jwt_secret: Source,
}

/// Whether the TOML document `document` is a configuration that says where
/// each of its outside values comes from.
pub open spec fn plan_ok(document: Seq<char>) -> bool {
    &&& raw_complete(document)
    &&& spec_did_source(required_text(toml_top_text(document, "mediator_did"@))->Some_0) is Some
    &&& spec_secrets_source(
        required_text(toml_top_text(document, "mediator_secrets"@))->Some_0,
    ) is Some
    &&& spec_jwt_source(
        required_text(
            toml_table_text(document, "security"@, "jwt_authorization_secret"@),
        )->Some_0,
    ) is Some
}

/// The reason for which the TOML document `document` is no configuration
/// that can be planned: it is incomplete, or the first of its three sources
/// that is not understood.
pub open spec fn plan_failure(document: Seq<char>) -> Seq<char> {
    let did = required_text(toml_top_text(document, "mediator_did"@))->Some_0;
    let secrets = required_text(toml_top_text(document, "mediator_secrets"@))->Some_0;
    let jwt = required_text(
        toml_table_text(document, "security"@, "jwt_authorization_secret"@),
    )->Some_0;
    if !raw_complete(document) {
        "Could not parse configuration settings"@
    } else if spec_did_source(did) is None {
        did_source_reason(did)
    } else if spec_secrets_source(secrets) is None {
        secrets_source_reason(secrets)
    } else {
        jwt_source_reason(jwt)
    }
}

/// Whether `plan` names the sources that `raw` configures.
pub open spec fn plan_reads(plan: SourcePlan, raw: ConfigRaw) -> bool {
    &&& Some(plan.mediator_did@) == spec_did_source(raw.mediator_did@)
    &&& Some(plan.mediator_secrets@) == spec_secrets_source(raw.mediator_secrets@)
    &&& Some(plan.jwt_secret@) == spec_jwt_source(raw.security.jwt_authorization_secret@)
}

/// Reads the configuration out of the lines of its file, given the
/// environment, and says what is to be fetched for it.
///
/// The failure is a `ConfigError`, and comes exactly where the file is no
/// complete configuration or names a source that is not understood.
pub fn init(content: &Vec<String>, env: &Vec<(String, String)>) -> (result: Result<
    (ConfigRaw, SourcePlan),
    MediatorError,
>)
    ensures
        result is Ok <==> plan_ok(spec_document(texts(content@), bindings(env@))),
        result matches Ok(read) ==> {
            &&& raw_reads(read.0, spec_document(texts(content@), bindings(env@)))
            &&& plan_reads(read.1, read.0)
        },
        result is Err ==> refused_because(
            result,
            ErrorKind::ConfigError,
            "NA"@,
            plan_failure(spec_document(texts(content@), bindings(env@))),
        ),
{
    let raw = read_config_file(content, env)?;
    let mediator_did = read_did_config(raw.mediator_did.as_str())?;
    let mediator_secrets = load_secrets(raw.mediator_secrets.as_str())?;
    let jwt_secret = config_jwt_secret(raw.security.jwt_authorization_secret.as_str())?;
    Ok((raw, SourcePlan { mediator_did, mediator_secrets, jwt_secret }))
}

/// The seconds for which an access token is good.
pub const ACCESS_TOKEN_SECONDS: u64 = 900;

/// The seconds for which a refresh token is good.
pub const REFRESH_TOKEN_SECONDS: u64 = 86400;

/// The most messages that may wait for one live subscriber.
pub const STREAM_BUFFER: usize = 32;

/// What the handlers of the mediator share.
pub struct SharedData {
    pub config: Config,
    /// The second at which the service started.
    pub service_start_timestamp: u64,
    pub database: MailboxStore,
    pub streams: LiveStreams,
    pub auth: AuthService,
    /// The keys of the mediator and of the peers that were resolved.
    pub didcomm: DIDCommAgent,
}

impl SharedData {
    /// Whether the store, the bus and the authentication service are each in
    /// a state that their operations keep.
    pub open spec fn wf(&self) -> bool {
        &&& self.database.wf()
        &&& self.streams.wf()
        &&& self.auth.wf()
    }

    /// The state of a mediator that starts at the second `now` with the
    /// settings `config` and the keys of `didcomm`: an empty store under the
    /// configured bounds, a bus without subscribers, and no outstanding
    /// challenge.
    pub fn new(config: Config, didcomm: DIDCommAgent, now: u64) -> (state:
        SharedData)
        ensures
            state.wf(),
            state.config == config,
            state.didcomm == didcomm,
            state.service_start_timestamp == now,
            state.database@ == StoreModel::empty(config.store_limits()),
            state.streams@ == StreamsModel::empty(config.streaming_uuid@, STREAM_BUFFER),
            state.auth@ == (AuthModel {
                outstanding: Seq::empty(),
                access_ttl: ACCESS_TOKEN_SECONDS,
                refresh_ttl: REFRESH_TOKEN_SECONDS,
            }),
    {
        let database = MailboxStore::new(config.store_limits());
        let streams = LiveStreams::new(config.streaming_uuid.as_str(), STREAM_BUFFER);
        let auth = AuthService::new(ACCESS_TOKEN_SECONDS, REFRESH_TOKEN_SECONDS);
        SharedData { config, service_start_timestamp: now, database, streams, auth, didcomm }
    }
}

} // verus!
