//! Where a configured value comes from: the part before `://` says how to
//! get it, the part after says what to get.

use crate::dispatch::refused_because;
use crate::errors::{ErrorKind, MediatorError};
use crate::text::{
    find_from, has_prefix, occurs_at, opt_text, slice_chars, starts_with, str_eq,
};
use vstd::prelude::*;

verus! {

/// The separator between the scheme of a configured value and the rest.
pub open spec fn spec_separator() -> Seq<char> {
    "://"@
}

/// Whether `s` holds the separator at `i` and nowhere else: not before it,
/// and not after its end.
pub open spec fn splits_at(s: Seq<char>, i: int) -> bool {
    &&& occurs_at(s, spec_separator(), i)
    &&& forall|j: int| 0 <= j < i ==> !occurs_at(s, spec_separator(), j)
    &&& forall|j: int| i + 3 <= j ==> !occurs_at(s, spec_separator(), j)
}

/// The scheme and the rest of `s`, where `s` holds the separator exactly
/// once.
pub open spec fn spec_split_scheme(s: Seq<char>) -> Option<(Seq<char>, Seq<char>)> {
    if exists|i: int| splits_at(s, i) {
        let i = choose|i: int| splits_at(s, i);
        Some((s.subrange(0, i), s.subrange(i + 3, s.len() as int)))
    } else {
        None
    }
}

/// The texts of an optional pair of strings.
pub open spec fn pair_text(p: Option<(String, String)>) -> Option<(Seq<char>, Seq<char>)> {
    match p {
        Some((a, b)) => Some((a@, b@)),
        None => None,
    }
}

/// Splits `s` into its scheme and the rest, if it holds `://` exactly once.
pub fn split_scheme(s: &str) -> (parts: Option<(String, String)>)
    ensures
        pair_text(parts) == spec_split_scheme(s@),
{
    proof {
        reveal_strlit("://");
    }
    let n = s.unicode_len();
    match find_from(s, "://", 0) {
        None => {
            assert(forall|i: int| !splits_at(s@, i));
            None
        },
        Some(i) => {
            match find_from(s, "://", i + 3) {
                Some(k) => {
                    assert forall|x: int| !splits_at(s@, x) by {
                        if splits_at(s@, x) {
                            if x < i {
                                assert(!occurs_at(s@, spec_separator(), i as int));
                            } else if x > i {
                                assert(!occurs_at(s@, spec_separator(), x));
                            } else {
                                assert(!occurs_at(s@, spec_separator(), k as int));
                            }
                        }
                    }
                    None
                },
                None => {
                    assert(splits_at(s@, i as int));
                    let ghost chosen = choose|x: int| splits_at(s@, x);
                    assert(chosen == i) by {
                        if chosen < i {
                            assert(!occurs_at(s@, spec_separator(), chosen));
                        } else if chosen > i {
                            assert(!occurs_at(s@, spec_separator(), i as int));
                        }
                    }
                    Some((slice_chars(s, 0, i), slice_chars(s, i + 3, n)))
                },
            }
        },
    }
}

/// Where a configured value comes from.
#[derive(Debug)]
pub enum Source {
    /// The value stands in the configuration itself.
    Inline(String),
    /// The value is the content of the file at this path.
    File(String),
    /// The value is the secret of this id in the AWS Secrets Manager.
    AwsSecret(String),
    /// The value is the parameter of this name in the AWS parameter store.
    AwsParameter(String),
}

/// Where a configured value comes from.
pub enum SourceModel {
    Inline(Seq<char>),
    File(Seq<char>),
    AwsSecret(Seq<char>),
    AwsParameter(Seq<char>),
}

impl View for Source {
    type V = SourceModel;

    open spec fn view(&self) -> SourceModel {
        match self {
            Source::Inline(s) => SourceModel::Inline(s@),
            Source::File(s) => SourceModel::File(s@),
            Source::AwsSecret(s) => SourceModel::AwsSecret(s@),
            Source::AwsParameter(s) => SourceModel::AwsParameter(s@),
        }
    }
}

/// The reason for which the configured value `text` names no source:
/// `malformed` where it does not hold `://` exactly once, `unknown` where
/// its scheme is not understood.
pub open spec fn source_reason(text: Seq<char>, malformed: Seq<char>, unknown: Seq<char>) -> Seq<
    char,
> {
    if spec_split_scheme(text) is None {
        malformed
    } else {
        unknown
    }
}

/// Whether `result` is the source `expected`, or a configuration error for
/// the reason `reason` where there is none.
pub open spec fn sourced(
    result: Result<Source, MediatorError>,
    expected: Option<SourceModel>,
    reason: Seq<char>,
) -> bool {
    match expected {
        Some(source) => result matches Ok(s) && s@ == source,
        None => refused_because(result, ErrorKind::ConfigError, "NA"@, reason),
    }
}

/// The reason for which `did_config` names no source of the mediator's DID.
pub open spec fn did_source_reason(did_config: Seq<char>) -> Seq<char> {
    source_reason(
        did_config,
        "Invalid `mediator_did` format"@,
        "Invalid `mediator_did` format! Expecting did:// or aws_parameter_store:// ..."@,
    )
}

/// The reason for which `secrets` names no source of the mediator's secrets.
pub open spec fn secrets_source_reason(secrets: Seq<char>) -> Seq<char> {
    source_reason(
        secrets,
        "Invalid `mediator_secrets` format"@,
        "Invalid `mediator_secrets` format! Expecting file:// or aws_secrets:// ..."@,
    )
}

/// The reason for which `jwt_secret` names no source of the key that signs
/// tokens.
pub open spec fn jwt_source_reason(jwt_secret: Seq<char>) -> Seq<char> {
    source_reason(
        jwt_secret,
        "Invalid `jwt_authorization_secret` format"@,
        "Invalid `jwt_authorization_secret` format! Expecting string:// or aws_secrets:// ..."@,
    )
}

/// The source of the mediator's DID: `did://` and the DID itself, or
/// `aws_parameter_store://` and the name of the parameter that holds it.
pub open spec fn spec_did_source(did_config: Seq<char>) -> Option<SourceModel> {
    match spec_split_scheme(did_config) {
        Some((scheme, rest)) => if scheme == "did"@ {
            Some(SourceModel::Inline(rest))
        } else if scheme == "aws_parameter_store"@ {
            Some(SourceModel::AwsParameter(rest))
        } else {
            None
        },
        None => None,
    }
}

/// Says where the mediator's DID comes from.
pub fn read_did_config(did_config: &str) -> (result: Result<Source, MediatorError>)
    ensures
        sourced(result, spec_did_source(did_config@), did_source_reason(did_config@)),
{
    match split_scheme(did_config) {
        None => Err(
            MediatorError::without_session(ErrorKind::ConfigError, "Invalid `mediator_did` format"),
        ),
        Some((scheme, rest)) => {
            if str_eq(scheme.as_str(), "did") {
                Ok(Source::Inline(rest))
            } else if str_eq(scheme.as_str(), "aws_parameter_store") {
                Ok(Source::AwsParameter(rest))
            } else {
                Err(
                    MediatorError::without_session(
                        ErrorKind::ConfigError,
                        "Invalid `mediator_did` format! Expecting did:// or aws_parameter_store:// ...",
                    ),
                )
            }
        },
    }
}

/// The source of the mediator's secrets: `file://` and a path, or
/// `aws_secrets://` and the id of a secret.
pub open spec fn spec_secrets_source(secrets: Seq<char>) -> Option<SourceModel> {
    match spec_split_scheme(secrets) {
        Some((scheme, rest)) => if scheme == "file"@ {
            Some(SourceModel::File(rest))
        } else if scheme == "aws_secrets"@ {
            Some(SourceModel::AwsSecret(rest))
        } else {
            None
        },
        None => None,
    }
}

/// Says where the mediator's secrets come from.
pub fn load_secrets(secrets: &str) -> (result: Result<Source, MediatorError>)
    ensures
        sourced(result, spec_secrets_source(secrets@), secrets_source_reason(secrets@)),
{
    match split_scheme(secrets) {
        None => Err(
            MediatorError::without_session(
                ErrorKind::ConfigError,
                "Invalid `mediator_secrets` format",
            ),
        ),
        Some((scheme, rest)) => {
            if str_eq(scheme.as_str(), "file") {
                Ok(Source::File(rest))
            } else if str_eq(scheme.as_str(), "aws_secrets") {
                Ok(Source::AwsSecret(rest))
            } else {
                Err(
                    MediatorError::without_session(
                        ErrorKind::ConfigError,
                        "Invalid `mediator_secrets` format! Expecting file:// or aws_secrets:// ...",
                    ),
                )
            }
        },
    }
}

/// The source of the key that signs tokens: `string://` and the key itself
/// in base64, or `aws_secrets://` and the id of a secret.
pub open spec fn spec_jwt_source(jwt_secret: Seq<char>) -> Option<SourceModel> {
    match spec_split_scheme(jwt_secret) {
        Some((scheme, rest)) => if scheme == "string"@ {
            Some(SourceModel::Inline(rest))
        } else if scheme == "aws_secrets"@ {
            Some(SourceModel::AwsSecret(rest))
        } else {
            None
        },
        None => None,
    }
}

/// Says where the key that signs tokens comes from.
pub fn config_jwt_secret(jwt_secret: &str) -> (result: Result<Source, MediatorError>)
    ensures
        sourced(result, spec_jwt_source(jwt_secret@), jwt_source_reason(jwt_secret@)),
{
    match split_scheme(jwt_secret) {
        None => Err(
            MediatorError::without_session(
                ErrorKind::ConfigError,
                "Invalid `jwt_authorization_secret` format",
            ),
        ),
        Some((scheme, rest)) => {
            if str_eq(scheme.as_str(), "string") {
                Ok(Source::Inline(rest))
            } else if str_eq(scheme.as_str(), "aws_secrets") {
                Ok(Source::AwsSecret(rest))
            } else {
                Err(
                    MediatorError::without_session(
                        ErrorKind::ConfigError,
                        "Invalid `jwt_authorization_secret` format! Expecting string:// or aws_secrets:// ...",
                    ),
                )
            }
        },
    }
}

/// The bytes that `content` denotes in URL-safe base64 without padding;
/// nothing where it is no such text. It stands for what the `decode` of
/// `base64::prelude::BASE64_URL_SAFE_NO_PAD` returns.
pub uninterp spec fn base64url_bytes(content: Seq<char>) -> Option<Seq<u8>>;

/// Calls `decode` of `base64::prelude::BASE64_URL_SAFE_NO_PAD`. Decoding
/// depends on the text alone, so the contract names the result. Not proved.
#[verifier::external_body]
fn base64url_decode(content: &str) -> (bytes: Option<Vec<u8>>)
    ensures
        match bytes {
            Some(b) => base64url_bytes(content@) == Some(b@),
            None => base64url_bytes(content@) is None,
        },
{
    base64::Engine::decode(&base64::prelude::BASE64_URL_SAFE_NO_PAD, content).ok()
}

/// Decodes the key that signs tokens from its base64 text. A text that is
/// not URL-safe base64 without padding is a configuration error.
pub fn decode_jwt_secret(content: &str) -> (result: Result<Vec<u8>, MediatorError>)
    ensures
        match base64url_bytes(content@) {
            Some(bytes) => result matches Ok(key) && key@ == bytes,
            None => refused_because(
                result,
                ErrorKind::ConfigError,
                "NA"@,
                "Could not create JWT key pair"@,
            ),
        },
{
    match base64url_decode(content) {
        Some(bytes) => Ok(bytes),
        None => Err(
            MediatorError::without_session(
                ErrorKind::ConfigError,
                "Could not create JWT key pair",
            ),
        ),
    }
}

/// Calls `hostname::get` and turns the name into text. The name is the
/// machine's, so nothing is claimed of it; it is absent where the call fails
/// or the name is not Unicode.
#[verifier::external_body]
fn machine_hostname() -> Option<String> {
    hostname::get().ok()?.into_string().ok()
}

/// The id of this instance's streams as configured by `host_name`, where
/// `machine` is the name of the machine if it could be had: `hostname://`
/// asks for the machine's name, `string://` is followed by the id itself.
pub open spec fn spec_hostname(host_name: Seq<char>, machine: Option<Seq<char>>) -> Option<
    Seq<char>,
> {
    if has_prefix(host_name, "hostname://"@) {
        machine
    } else if has_prefix(host_name, "string://"@) {
        Some(host_name.subrange(9, host_name.len() as int))
    } else {
        None
    }
}

/// The reason for which `host_name` yields no id: the machine does not tell
/// its name, or the text asks neither for that nor gives an id itself.
pub open spec fn hostname_reason(host_name: Seq<char>) -> Seq<char> {
    if has_prefix(host_name, "hostname://"@) {
        "Couldn't get hostname"@
    } else {
        "Invalid hostname format!"@
    }
}

/// Whether `result` is the text `expected`, or a configuration error for
/// the reason `reason` where there is none.
pub open spec fn configured(
    result: Result<String, MediatorError>,
    expected: Option<Seq<char>>,
    reason: Seq<char>,
) -> bool {
    match expected {
        Some(text) => result matches Ok(s) && s@ == text,
        None => refused_because(result, ErrorKind::ConfigError, "NA"@, reason),
    }
}

/// The id of this instance's streams, given the machine's name if it could
/// be had.
pub fn hostname_from(host_name: &str, machine: Option<String>) -> (result: Result<
    String,
    MediatorError,
>)
    ensures
        configured(
            result,
            spec_hostname(host_name@, opt_text(machine)),
            hostname_reason(host_name@),
        ),
{
    proof {
        reveal_strlit("string://");
    }
    if starts_with(host_name, "hostname://") {
        match machine {
            Some(name) => Ok(name),
            None => Err(
                MediatorError::without_session(ErrorKind::ConfigError, "Couldn't get hostname"),
            ),
        }
    } else if starts_with(host_name, "string://") {
        let n = host_name.unicode_len();
        Ok(slice_chars(host_name, 9, n))
    } else {
        Err(MediatorError::without_session(ErrorKind::ConfigError, "Invalid hostname format!"))
    }
}

/// The id of this instance's streams as configured by `host_name`.
///
/// After `string://` the id stands itself. After `hostname://` it is the
/// name of the machine, whatever that is, and a configuration error where the
/// machine does not tell. Anything else is a configuration error.
pub fn get_hostname(host_name: &str) -> (result: Result<String, MediatorError>)
    ensures
        exists|machine: Option<Seq<char>>|
            configured(result, spec_hostname(host_name@, machine), hostname_reason(host_name@)),
        !has_prefix(host_name@, "hostname://"@) ==> configured(
            result,
            spec_hostname(host_name@, None),
            hostname_reason(host_name@),
        ),
{
    if starts_with(host_name, "hostname://") {
        let machine = machine_hostname();
        let result = hostname_from(host_name, machine);
        assert(configured(
            result,
            spec_hostname(host_name@, opt_text(machine)),
            hostname_reason(host_name@),
        ));
        result
    } else {
        let result = hostname_from(host_name, None);
        assert(configured(result, spec_hostname(host_name@, None), hostname_reason(host_name@)));
        result
    }
}

} // verus!
