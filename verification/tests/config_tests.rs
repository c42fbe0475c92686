use messaging_mediator::config::env::{
    expand_env_vars, expand_line, join_lines, lookup, read_file_lines,
};
use messaging_mediator::config::raw::{config_document, parse_config, read_config_file};
use messaging_mediator::config::settings::{
    bool_or, log_level, millis, parse_cors_allow_origin, split_origins, u32_or, usize_or,
    Config, LogLevel, Resolved, ResolverSettings,
};
use messaging_mediator::config::sources::{
    config_jwt_secret, decode_jwt_secret, get_hostname, hostname_from, load_secrets,
    read_did_config, split_scheme, Source,
};
use messaging_mediator::errors::ErrorKind;
use messaging_mediator::secrets::Secret;
use messaging_mediator::state::{init, SharedData, STREAM_BUFFER};

fn env(pairs: &[(&str, &str)]) -> Vec<(String, String)> {
    pairs.iter().map(|(k, v)| (k.to_string(), v.to_string())).collect()
}

fn lines(text: &str) -> Vec<String> {
    text.lines().map(|l| l.to_string()).collect()
}

fn pkcs8() -> Vec<u8> {
    let rng = ring::rand::SystemRandom::new();
    ring::signature::Ed25519KeyPair::generate_pkcs8(&rng).unwrap().as_ref().to_vec()
}

fn b64(bytes: &[u8]) -> String {
    base64::Engine::encode(&base64::prelude::BASE64_URL_SAFE_NO_PAD, bytes)
}

const SAMPLE: &str = r#"# The mediator's configuration
log_level = "debug"
listen_address = "${LISTEN_ADDRESS:0.0.0.0:7037}"
mediator_did = "did://did:peer:mediator"
mediator_secrets = "file://./conf/secrets.json"

[server]
api_prefix = "/mediator/v1/"
http_size_limit = "${HTTP_SIZE_LIMIT:10485760}"
ws_size_limit = "oops"

[database]
database_url = "redis://127.0.0.1/"
database_pool_size = "7"
database_timeout = "3"
max_message_size = "2048"
max_queued_messages = "2"
message_expiry_minutes = "1"
max_listed_messages = "50"
max_deleted_messages = "5"

[security]
use_ssl = "false"
ssl_certificate_file = "conf/cert.pem"
ssl_key_file = "conf/key.pem"
jwt_authorization_secret = "string://KEY"
cors_allow_origin = "https://a.example,https://b.example"

[streaming]
enabled = "true"
uuid = "string://mediator-1"

[did_resolver]
cache_capacity = "500"
cache_ttl = "x"
network_timeout = "5"
network_limit = "100"

[other]
to_recipients_limit = "3"
crypto_operations_per_message_limit = "1000"
to_keys_per_recipient_limit = "100"
"#;

#[test]
fn placeholder_takes_the_variable_or_the_default() {
    let e = env(&[("HOME_DIR", "/home/me"), ("EMPTY", "")]);
    assert_eq!(expand_line("dir = ${HOME_DIR:/tmp}", &e), "dir = /home/me");
    assert_eq!(expand_line("dir = ${OTHER_DIR:/tmp}", &e), "dir = /tmp");
    assert_eq!(expand_line("x${EMPTY:d}y", &e), "xy");
    assert_eq!(expand_line("${A:}", &e), "");
    assert_eq!(expand_line("no placeholder", &e), "no placeholder");
    assert_eq!(expand_line("", &e), "");
}

#[test]
fn every_placeholder_of_a_line_is_expanded_on_its_own() {
    let e = env(&[]);
    assert_eq!(expand_line("a=${X:1} b=${Y:2}", &e), "a=1 b=2");
    assert_eq!(expand_line("${A:1} and ${B:2}", &e), "1 and 2");
    assert_eq!(expand_line("${A:1}${B:2}${C:}", &e), "12");
    assert_eq!(expand_line("${A:{x}} tail", &e), "{x} tail");
    assert_eq!(expand_line("${A:1}} tail", &e), "1} tail");
    assert_eq!(expand_line("${A:1}\n${B:2}", &e), "1\n2");
    assert_eq!(expand_line("${A:1\n}", &e), "${A:1\n}");
    assert_eq!(expand_line("${A:1}\r${B:2}", &e), "1\r2");
    let y = env(&[("Y", "why")]);
    assert_eq!(expand_line("a${X:1}b${Y:2}c\nd${Z:3}e", &y), "a1bwhyc\nd3e");
    assert_eq!(expand_line("${X:${Y:2}}", &y), "${Y:2}");
    let lines = vec!["a=${X:1} b=${Y:2}".to_string()];
    assert_eq!(expand_env_vars(&lines, &e), vec!["a=1 b=2"]);
}

#[test]
fn placeholder_needs_a_proper_name_and_a_colon() {
    let e = env(&[("A", "set"), ("A1", "one"), ("_B", "under")]);
    assert_eq!(expand_line("${a:x}", &e), "${a:x}");
    assert_eq!(expand_line("${1A:x}", &e), "${1A:x}");
    assert_eq!(expand_line("${A1:x}", &e), "one");
    assert_eq!(expand_line("${_B:x}", &e), "under");
    assert_eq!(expand_line("${A}", &e), "${A}");
    assert_eq!(expand_line("${A-b:x}", &e), "${A-b:x}");
    assert_eq!(expand_line("${:x}", &e), "${:x}");
    assert_eq!(expand_line("$A:x}", &e), "$A:x}");
    assert_eq!(expand_line("${A:x", &e), "${A:x");
    assert_eq!(expand_line("${${A:x}", &e), "${set");
}

#[test]
fn environment_gives_the_first_binding() {
    let e = env(&[("A", "1"), ("B", "2"), ("A", "3")]);
    assert_eq!(lookup(&e, "A"), Some("1".to_string()));
    assert_eq!(lookup(&e, "B"), Some("2".to_string()));
    assert_eq!(lookup(&e, "C"), None);
}

#[test]
fn comments_are_dropped_and_lines_joined() {
    let content = lines("# one\na = 1\n  # indented stays\n#two\nb = 2");
    let kept = read_file_lines(&content);
    assert_eq!(kept, vec!["a = 1", "  # indented stays", "b = 2"]);
    assert_eq!(join_lines(&kept), "a = 1\n  # indented stays\nb = 2");
    assert_eq!(join_lines(&Vec::new()), "");
    assert_eq!(join_lines(&vec!["only".to_string()]), "only");
    let expanded = expand_env_vars(&lines("${A:1}\nplain"), &env(&[]));
    assert_eq!(expanded, vec!["1", "plain"]);
    assert_eq!(
        config_document(&lines("#c\nx = \"${X:y}\"\nz = 1"), &env(&[("X", "v")])),
        "x = \"v\"\nz = 1"
    );
}

#[test]
fn scheme_is_split_off_once() {
    assert_eq!(
        split_scheme("file://a/b"),
        Some(("file".to_string(), "a/b".to_string()))
    );
    assert_eq!(split_scheme("://x"), Some(("".to_string(), "x".to_string())));
    assert_eq!(split_scheme("x://"), Some(("x".to_string(), "".to_string())));
    assert_eq!(split_scheme("plain"), None);
    assert_eq!(split_scheme("a://b://c"), None);
    assert_eq!(split_scheme(""), None);
}

#[test]
fn sources_are_told_by_their_scheme() {
    assert!(matches!(read_did_config("did://did:peer:m"), Ok(Source::Inline(d)) if d == "did:peer:m"));
    assert!(matches!(read_did_config("aws_parameter_store://name"), Ok(Source::AwsParameter(n)) if n == "name"));
    let unknown = read_did_config("file://x").unwrap_err();
    assert_eq!(unknown.kind, ErrorKind::ConfigError);
    assert_eq!(
        unknown.reason,
        "Invalid `mediator_did` format! Expecting did:// or aws_parameter_store:// ..."
    );
    let malformed = read_did_config("did:peer:m").unwrap_err();
    assert_eq!(malformed.kind, ErrorKind::ConfigError);
    assert_eq!(malformed.reason, "Invalid `mediator_did` format");

    assert!(matches!(load_secrets("file://conf/s.json"), Ok(Source::File(p)) if p == "conf/s.json"));
    assert!(matches!(load_secrets("aws_secrets://id"), Ok(Source::AwsSecret(i)) if i == "id"));
    assert_eq!(load_secrets("string://x").unwrap_err().kind, ErrorKind::ConfigError);
    assert_eq!(load_secrets("file://a://b").unwrap_err().session_id, "NA");

    assert!(matches!(config_jwt_secret("string://abc"), Ok(Source::Inline(k)) if k == "abc"));
    assert!(matches!(config_jwt_secret("aws_secrets://id"), Ok(Source::AwsSecret(i)) if i == "id"));
    assert_eq!(config_jwt_secret("file://x").unwrap_err().kind, ErrorKind::ConfigError);
}

#[test]
fn jwt_secret_is_base64_without_padding() {
    assert_eq!(decode_jwt_secret("aGVsbG8").unwrap(), b"hello".to_vec());
    assert_eq!(decode_jwt_secret("_-8").unwrap(), vec![0xff, 0xef]);
    assert_eq!(decode_jwt_secret("").unwrap(), Vec::<u8>::new());
    assert_eq!(decode_jwt_secret("aGVsbG8=").unwrap_err().kind, ErrorKind::ConfigError);
    assert_eq!(decode_jwt_secret("a b").unwrap_err().kind, ErrorKind::ConfigError);
    assert_eq!(decode_jwt_secret("+/8").unwrap_err().kind, ErrorKind::ConfigError);
}

#[test]
fn stream_id_is_the_given_text_or_the_machine_name() {
    assert_eq!(hostname_from("string://m-1", None).unwrap(), "m-1");
    assert_eq!(hostname_from("string://", Some("box".to_string())).unwrap(), "");
    assert_eq!(hostname_from("hostname://", Some("box".to_string())).unwrap(), "box");
    assert_eq!(hostname_from("hostname://", None).unwrap_err().kind, ErrorKind::ConfigError);
    assert_eq!(hostname_from("other://x", None).unwrap_err().kind, ErrorKind::ConfigError);
    assert_eq!(get_hostname("string://m-2").unwrap(), "m-2");
    assert_eq!(get_hostname("m-2").unwrap_err().kind, ErrorKind::ConfigError);
    if let Ok(name) = get_hostname("hostname://") {
        assert_eq!(Some(name), hostname::get().ok().and_then(|n| n.into_string().ok()));
    }
}

#[test]
fn values_fall_back_to_their_defaults() {
    assert_eq!(u32_or("17", 5), 17);
    assert_eq!(u32_or("4294967295", 5), u32::MAX);
    assert_eq!(u32_or("4294967296", 5), 5);
    assert_eq!(u32_or("", 5), 5);
    assert_eq!(u32_or("1.5", 5), 5);
    assert_eq!(usize_or("12", 3), 12);
    assert_eq!(usize_or("-12", 3), 3);
    assert!(bool_or("true", false));
    assert!(!bool_or("false", true));
    assert!(bool_or("yes", true));
    assert_eq!(log_level("trace"), LogLevel::Trace);
    assert_eq!(log_level("debug"), LogLevel::Debug);
    assert_eq!(log_level("info"), LogLevel::Info);
    assert_eq!(log_level("warn"), LogLevel::Warn);
    assert_eq!(log_level("error"), LogLevel::Error);
    assert_eq!(log_level("loud"), LogLevel::Info);
}

fn resolver(
    address: Option<&str>,
    cache_capacity: u32,
    cache_ttl: u32,
    network_timeout: u32,
    network_limit: u32,
) -> ResolverSettings {
    ResolverSettings {
        address: address.map(|a| a.to_string()),
        cache_capacity,
        cache_ttl,
        network_timeout,
        network_limit,
    }
}

#[test]
fn origins_are_separated_by_commas() {
    assert_eq!(
        parse_cors_allow_origin("https://a.example,https://b.example").unwrap(),
        vec!["https://a.example", "https://b.example"]
    );
    assert_eq!(parse_cors_allow_origin("one").unwrap(), vec!["one"]);
    assert_eq!(parse_cors_allow_origin("").unwrap(), vec![""]);
    assert_eq!(parse_cors_allow_origin("a,,b,").unwrap(), vec!["a", "", "b", ""]);
    for s in ["", ",", "a,b", ",a", "a, b ,c", "tab\there,é"] {
        let expected: Vec<String> = s.split(',').map(|p| p.to_string()).collect();
        assert_eq!(split_origins(s), expected);
        assert_eq!(parse_cors_allow_origin(s).unwrap(), expected);
    }
}

#[test]
fn origin_that_is_no_header_value_is_a_configuration_error() {
    for s in ["https://a\nb", "ok,bad\r", "\u{7f}", "a,b\u{0}c", "x\u{1f}"] {
        let e = parse_cors_allow_origin(s).unwrap_err();
        assert_eq!(e.kind, ErrorKind::ConfigError, "{:?}", s);
        assert_eq!(e.session_id, "NA");
        for piece in split_origins(s) {
            assert_eq!(
                parse_cors_allow_origin(&piece).is_ok(),
                piece.parse::<http::HeaderValue>().is_ok(),
                "{:?}",
                piece
            );
        }
    }
    for s in ["plain", "tab\tinside", "é", " ", "~", "\u{80}"] {
        assert!(parse_cors_allow_origin(s).is_ok(), "{:?}", s);
        assert!(s.parse::<http::HeaderValue>().is_ok(), "{:?}", s);
    }
    let bad = SAMPLE.replace("https://a.example,https://b.example", "https://a.example,bad\\norigin");
    let raw = parse_config(&bad).unwrap();
    assert_eq!(raw.security.cors_allow_origin.as_deref(), Some("https://a.example,bad\norigin"));
    let resolved = Resolved {
        mediator_did: "did:peer:mediator".to_string(),
        mediator_secrets: Vec::new(),
        jwt_secret: b64(&pkcs8()),
        machine: None,
    };
    assert_eq!(Config::try_from(raw, resolved).err().unwrap().kind, ErrorKind::ConfigError);
}

#[test]
fn default_settings_are_as_documented() {
    let config = Config::default();
    assert_eq!(config.log_level, LogLevel::Info);
    assert_eq!(config.database_url, "redis://127.0.0.1/");
    assert_eq!(config.database_pool_size, 10);
    assert_eq!(config.database_timeout, 2);
    assert_eq!(config.max_message_size, 1048576);
    assert_eq!(config.max_queued_messages, 100);
    assert_eq!(config.message_expiry_minutes, 10080);
    assert_eq!(config.max_listed_messages, 100);
    assert_eq!(config.max_deleted_messages, 100);
    assert!(config.use_ssl);
    assert!(config.streaming_enabled);
    assert_eq!(config.api_prefix, "/mediator/v1/");
    assert_eq!(config.http_size_limit, 10485760);
    assert_eq!(config.ws_size_limit, 10485760);
    assert_eq!(config.to_recipients_limit, 100);
    assert_eq!(config.crypto_operations_per_message_limit, 1000);
    assert_eq!(config.to_keys_per_recipient_limit, 100);
    assert_eq!(config.did_resolver_config, resolver(None, 1000, 300, 5, 100));
    assert!(config.cors_allow_origin.is_none());
    assert!(config.jwt_encoding_key.is_none() && config.jwt_decoding_key.is_none());
    assert_eq!(config.mediator_secrets.len(), 0);
}

#[test]
fn configuration_file_is_read() {
    let raw = read_config_file(&lines(SAMPLE), &env(&[("LISTEN_ADDRESS", "127.0.0.1:1")])).unwrap();
    assert_eq!(raw.log_level, "debug");
    assert_eq!(raw.listen_address, "127.0.0.1:1");
    assert_eq!(raw.server.http_size_limit, "10485760");
    assert_eq!(raw.database.max_queued_messages, "2");
    assert_eq!(raw.security.cors_allow_origin.as_deref(), Some("https://a.example,https://b.example"));
    assert_eq!(raw.did_resolver.address, None);
    assert_eq!(raw.did_resolver.cache_ttl, "x");
    assert_eq!(raw.other.to_recipients_limit, "3");
    assert_eq!(raw.streaming.uuid, "string://mediator-1");
}

#[test]
fn incomplete_configuration_is_refused() {
    let without_key = SAMPLE.replace("log_level = \"debug\"\n", "");
    assert_eq!(parse_config(&without_key).unwrap_err().kind, ErrorKind::ConfigError);
    let without_table = SAMPLE.replace("[streaming]\nenabled = \"true\"\nuuid = \"string://mediator-1\"\n", "");
    assert_eq!(parse_config(&without_table).unwrap_err().kind, ErrorKind::ConfigError);
    let number = SAMPLE.replace("database_timeout = \"3\"", "database_timeout = 3");
    assert_eq!(parse_config(&number).unwrap_err().kind, ErrorKind::ConfigError);
    let bad_optional = SAMPLE.replace("cache_capacity = \"500\"", "cache_capacity = \"500\"\naddress = 5");
    assert_eq!(parse_config(&bad_optional).unwrap_err().kind, ErrorKind::ConfigError);
    assert_eq!(parse_config("not toml at all [").unwrap_err().kind, ErrorKind::ConfigError);
    let without_optional = SAMPLE.replace("cors_allow_origin = \"https://a.example,https://b.example\"\n", "");
    assert!(parse_config(&without_optional).unwrap().security.cors_allow_origin.is_none());
    let with_more = format!("extra = 1\n{}", SAMPLE);
    assert!(parse_config(&with_more).is_ok());
}

#[test]
fn init_plans_what_to_fetch() {
    let (raw, plan) = init(&lines(SAMPLE), &env(&[])).unwrap();
    assert_eq!(raw.listen_address, "0.0.0.0:7037");
    assert!(matches!(plan.mediator_did, Source::Inline(d) if d == "did:peer:mediator"));
    assert!(matches!(plan.mediator_secrets, Source::File(p) if p == "./conf/secrets.json"));
    assert!(matches!(plan.jwt_secret, Source::Inline(k) if k == "KEY"));
    let bad = SAMPLE.replace("file://./conf", "ftp://./conf");
    assert_eq!(init(&lines(&bad), &env(&[])).unwrap_err().kind, ErrorKind::ConfigError);
}

#[test]
fn settings_are_made_of_the_file_and_what_was_fetched() {
    let key = pkcs8();
    let raw = parse_config(SAMPLE).unwrap();
    let secret = Secret {
        id: "did:peer:mediator#key-1".to_string(),
        type_: "JsonWebKey2020".to_string(),
        private_key: "d".to_string(),
        public_key: "x".to_string(),
    };
    let resolved = Resolved {
        mediator_did: "did:peer:mediator".to_string(),
        mediator_secrets: vec![secret],
        jwt_secret: b64(&key),
        machine: None,
    };
    let config = Config::try_from(raw, resolved).ok().unwrap();
    assert_eq!(config.log_level, LogLevel::Debug);
    assert_eq!(config.mediator_did, "did:peer:mediator");
    assert_eq!(config.mediator_secrets.len(), 1);
    assert_eq!(config.database_pool_size, 7);
    assert_eq!(config.database_timeout, 3);
    assert_eq!(config.http_size_limit, 10485760);
    assert_eq!(config.ws_size_limit, 10485760);
    assert_eq!(config.max_message_size, 2048);
    assert_eq!(config.max_queued_messages, 2);
    assert_eq!(config.message_expiry_minutes, 1);
    assert_eq!(config.max_listed_messages, 50);
    assert_eq!(config.max_deleted_messages, 5);
    assert!(!config.use_ssl);
    assert!(config.streaming_enabled);
    assert_eq!(config.streaming_uuid, "mediator-1");
    assert_eq!(config.did_resolver_config, resolver(None, 500, 300, 5, 100));
    assert_eq!(config.to_recipients_limit, 3);
    assert_eq!(
        config.cors_allow_origin,
        Some(vec!["https://a.example".to_string(), "https://b.example".to_string()])
    );
    assert_eq!(config.jwt_encoding_key.as_deref(), Some(key.as_slice()));
    let pair = ring::signature::Ed25519KeyPair::from_pkcs8(&key).unwrap();
    assert_eq!(
        config.jwt_decoding_key.as_deref(),
        Some(ring::signature::KeyPair::public_key(&pair).as_ref())
    );
    assert_eq!(config.store_limits().max_queued_messages, 2);
    assert_eq!(config.request_limits().to_recipients_limit, 3);

    let text = config.describe();
    let lines: Vec<&str> = text.lines().collect();
    assert_eq!(lines.len(), 32);
    assert_eq!(lines[0], "log_level: debug");
    assert_eq!(lines[2], "mediator_did: did:peer:mediator");
    assert_eq!(lines[3], "mediator_did_doc: Hidden");
    assert_eq!(lines[4], "mediator_secrets: (1) secrets loaded");
    assert_eq!(lines[5], "use_ssl: false");
    assert_eq!(lines[6], "cors_allow_origin: (2) origins");
    assert_eq!(lines[10], "max_message_size: 2048");
    assert_eq!(lines[17], "jwt_encoding_key?: true");
    assert_eq!(lines[18], "jwt_decoding_key?: true");
    assert_eq!(lines[20], "streaming_uuid: mediator-1");
    assert_eq!(lines[21], "did_resolver_address: local");
    assert_eq!(lines[22], "did_resolver_cache_capacity: 500");
    assert_eq!(lines[24], "did_resolver_network_timeout: 5");
    assert_eq!(lines[31], "to_keys_per_recipient_limit: 100");
    assert!(text.ends_with('\n'));
    assert!(!text.contains(&b64(&key)));
    assert!(Config::default().describe().contains("cors_allow_origin: any\n"));
    assert!(Config::default().describe().contains("jwt_encoding_key?: false\n"));

    let state = SharedData::new(config, affinidi_messaging_didcomm::DIDCommAgent::new(), 77);
    assert_eq!(state.service_start_timestamp, 77);
    assert_eq!(state.database.message_count(), 0);
    assert_eq!(state.auth.outstanding_count(), 0);
    assert_eq!(STREAM_BUFFER, 32);
}

#[test]
fn bad_jwt_secret_is_a_configuration_error() {
    let resolved = |jwt: String, machine: Option<String>| Resolved {
        mediator_did: "did:peer:mediator".to_string(),
        mediator_secrets: Vec::new(),
        jwt_secret: jwt,
        machine,
    };
    let not_base64 = Config::try_from(parse_config(SAMPLE).unwrap(), resolved("%%%".into(), None));
    assert_eq!(not_base64.err().unwrap().kind, ErrorKind::ConfigError);
    let not_a_key = Config::try_from(parse_config(SAMPLE).unwrap(), resolved(b64(b"hello"), None));
    assert_eq!(not_a_key.err().unwrap().kind, ErrorKind::ConfigError);
    let by_hostname = SAMPLE.replace("string://mediator-1", "hostname://");
    let no_machine = Config::try_from(parse_config(&by_hostname).unwrap(), resolved(b64(&pkcs8()), None));
    assert_eq!(no_machine.err().unwrap().kind, ErrorKind::ConfigError);
    let machine = Config::try_from(
        parse_config(&by_hostname).unwrap(),
        resolved(b64(&pkcs8()), Some("box".into())),
    );
    assert_eq!(machine.ok().unwrap().streaming_uuid, "box");
    let off = by_hostname.replace("enabled = \"true\"", "enabled = \"false\"");
    let unused = Config::try_from(parse_config(&off).unwrap(), resolved(b64(&pkcs8()), None));
    assert_eq!(unused.ok().unwrap().streaming_uuid, "");
}

#[test]
fn resolver_configuration_applies_every_setting() {
    let raw = parse_config(SAMPLE).unwrap();
    assert_eq!(raw.did_resolver.settings(), resolver(None, 500, 300, 5, 100));
    let built = format!("{:?}", raw.did_resolver.convert());
    assert_eq!(built, format!("{:?}", raw.did_resolver.settings().build()));
    assert_eq!(built, format!("{:?}", resolver(None, 500, 300, 5, 100).build()));
    assert!(built.contains("500"), "{}", built);
    assert!(built.contains("300"), "{}", built);
    // Each of the five settings shows in what is built.
    let others = [
        resolver(None, 77, 300, 5, 100),
        resolver(None, 500, 301, 5, 100),
        resolver(None, 500, 300, 6, 100),
        resolver(None, 500, 300, 5, 101),
        resolver(Some("ws://127.0.0.1:8080/did/v1/ws"), 500, 300, 5, 100),
    ];
    for other in &others {
        assert_ne!(built, format!("{:?}", other.build()), "{:?}", other);
    }
    assert!(format!("{:?}", others[4].build()).contains("ws://127.0.0.1:8080/did/v1/ws"));

    let configured = SAMPLE
        .replace("network_timeout = \"5\"", "network_timeout = \"9\"")
        .replace("network_limit = \"100\"", "network_limit = \"12\"")
        .replace("cache_capacity = \"500\"", "address = \"ws://resolver.example/ws\"\ncache_capacity = \"500\"");
    let raw = parse_config(&configured).unwrap();
    assert_eq!(
        raw.did_resolver.settings(),
        resolver(Some("ws://resolver.example/ws"), 500, 300, 9, 12)
    );
    let timed = parse_config(&SAMPLE.replace("network_timeout = \"5\"", "network_timeout = \"x\"")).unwrap();
    assert_eq!(timed.did_resolver.settings().network_timeout, 5);
    assert_eq!(millis(0), 0);
    assert_eq!(millis(5), 5000);
    assert_eq!(millis(4294967), 4294967000);
    assert_eq!(millis(4294968), u32::MAX);
    assert_eq!(millis(u32::MAX), u32::MAX);
}
