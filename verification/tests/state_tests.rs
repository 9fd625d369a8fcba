use mail_autoconfig::certs::CertError;
use mail_autoconfig::certs::Certs;
use mail_autoconfig::certs::SignError;
use mail_autoconfig::config::Config;
use mail_autoconfig::config::Domain;
use mail_autoconfig::config::ServerConfig;
use mail_autoconfig::config::SocketType;
use mail_autoconfig::global_state::BuildError;
use mail_autoconfig::global_state::GlobalState;
use mail_autoconfig::global_state::GlobalStateData;
use mail_autoconfig::global_state::Notify;
use mail_autoconfig::global_state::ReloadReport;
use openssl::asn1::Asn1Time;
use openssl::bn::BigNum;
use openssl::hash::MessageDigest;
use openssl::pkcs7::Pkcs7;
use openssl::pkey::PKey;
use openssl::rsa::Rsa;
use openssl::x509::X509NameBuilder;
use openssl::x509::X509;
use std::sync::Arc;
use tera::Tera;

fn bundle(common_name: &str) -> Result<Certs, CertError> {
    let key = PKey::from_rsa(Rsa::generate(2048).unwrap()).unwrap();
    let mut name = X509NameBuilder::new().unwrap();
    name.append_entry_by_text("CN", common_name).unwrap();
    let name = name.build();
    let mut builder = X509::builder().unwrap();
    builder.set_version(2).unwrap();
    let serial = BigNum::from_u32(1).unwrap().to_asn1_integer().unwrap();
    builder.set_serial_number(&serial).unwrap();
    builder.set_subject_name(&name).unwrap();
    builder.set_issuer_name(&name).unwrap();
    builder.set_pubkey(&key).unwrap();
    builder.set_not_before(&Asn1Time::days_from_now(0).unwrap()).unwrap();
    builder.set_not_after(&Asn1Time::days_from_now(2).unwrap()).unwrap();
    builder.sign(&key, MessageDigest::sha256()).unwrap();
    let chain = builder.build().to_pem().unwrap();
    Certs::new(&Ok(chain), &Ok(key.private_key_to_pem_pkcs8().unwrap()))
}

fn failed_bundle() -> Result<Certs, CertError> {
    Certs::new(&Ok(Vec::new()), &Ok(Vec::new()))
}

fn domain(email_domain: &str, hosts: &[&str]) -> Domain {
    Domain {
        email_domain: email_domain.to_string(),
        ssl_cert: "cert.pem".to_string(),
        ssl_chain: "chain.pem".to_string(),
        ssl_key: "key.pem".to_string(),
        display_name: "Example Mail".to_string(),
        display_short_name: "Example".to_string(),
        allowed_hosts: hosts.iter().map(|host| host.to_string()).collect(),
        smtp: ServerConfig {
            host: "smtp.example.com".to_string(),
            port: 587,
            socket_type: SocketType::StartTLS,
        },
        imap: ServerConfig {
            host: "imap.example.com".to_string(),
            port: 993,
            socket_type: SocketType::SSL,
        },
    }
}

fn config(domains: Vec<Domain>) -> Config {
    Config {
        domains,
        socket_address: "127.0.0.1:8080".to_string(),
        template_path: "templates/*".to_string(),
        watch_path: None,
    }
}

fn two_domains() -> Config {
    config(vec![
        domain("example.com", &["autoconfig.example.com", "sales.example.com"]),
        domain("example.org", &["autoconfig.example.org"]),
    ])
}

fn built(config: Config) -> GlobalStateData {
    let bundles = config.domains.iter().map(|domain| bundle(&domain.email_domain)).collect();
    match GlobalStateData::new(config, bundles, Ok(Tera::default())) {
        Ok(state) => state,
        Err(error) => panic!("the build failed: {:?}", error),
    }
}

#[test]
fn hosts_resolve_to_the_position_of_their_domain() {
    let state = built(two_domains());
    assert_eq!(state.resolve("autoconfig.example.com"), Some(0));
    assert_eq!(state.resolve("sales.example.com"), Some(0));
    assert_eq!(state.resolve("autoconfig.example.org"), Some(1));
}

#[test]
fn unknown_hosts_do_not_resolve() {
    let state = built(two_domains());
    assert_eq!(state.resolve("example.com"), None);
    assert_eq!(state.resolve("AUTOCONFIG.example.com"), None);
    assert_eq!(state.resolve(""), None);
    assert_eq!(state.resolve(":8443"), None);
}

#[test]
fn the_port_of_a_host_header_does_not_matter() {
    let state = built(two_domains());
    assert_eq!(state.resolve("sales.example.com:8443"), Some(0));
    assert_eq!(
        state.resolve("sales.example.com:8443"),
        state.resolve("sales.example.com")
    );
    assert_eq!(state.resolve("autoconfig.example.org:"), Some(1));
    assert_eq!(state.resolve("autoconfig.example.org:80:more"), Some(1));
    assert_eq!(state.resolve("unknown.example.com:8443"), None);
}

#[test]
fn a_host_declared_twice_goes_to_the_later_domain() {
    let state = built(config(vec![
        domain("example.com", &["shared.example.net", "a.example.com"]),
        domain("example.org", &["shared.example.net"]),
        domain("example.net", &[]),
    ]));
    assert_eq!(state.resolve("shared.example.net"), Some(1));
    assert_eq!(state.resolve("a.example.com"), Some(0));
}

#[test]
fn a_snapshot_keeps_its_configuration() {
    let state = built(two_domains());
    assert_eq!(*state.config(), two_domains());
    assert_eq!(state.domain(1), Some(&two_domains().domains[1]));
    assert_eq!(state.domain(2), None);
    assert!(state.templates().get_template_names().next().is_none());
}

#[test]
fn every_domain_of_a_snapshot_has_its_bundle() {
    let state = built(two_domains());
    assert!(state.certs("example.com").is_some());
    assert!(state.certs("example.org").is_some());
    assert!(state.certs("example.net").is_none());
}

#[test]
fn a_snapshot_signs_for_its_domains() {
    let state = built(two_domains());
    let signed = state.sign(1, b"content").unwrap();
    assert!(Pkcs7::from_der(&signed).is_ok());
    assert!(matches!(
        state.sign(2, b"content"),
        Err(SignError::MissingCertificate)
    ));
}

#[test]
fn building_twice_gives_the_same_index_and_domains() {
    let first = built(two_domains());
    let second = built(two_domains());
    assert_eq!(first.config().domains, second.config().domains);
    for host in [
        "autoconfig.example.com",
        "sales.example.com",
        "autoconfig.example.org",
        "unknown.example.com",
    ] {
        assert_eq!(first.resolve(host), second.resolve(host));
    }
}

#[test]
fn a_failed_bundle_fails_the_build() {
    let bundles = vec![bundle("example.com"), failed_bundle()];
    let result = GlobalStateData::new(two_domains(), bundles, Ok(Tera::default()));
    assert!(matches!(
        result,
        Err(BuildError::Certificate { domain: 1, error: CertError::EmptyChain })
    ));
}

#[test]
fn the_first_failed_bundle_decides() {
    let bundles = vec![
        Certs::new(&Err("gone".to_string()), &Ok(Vec::new())),
        failed_bundle(),
    ];
    let result = GlobalStateData::new(two_domains(), bundles, Err("templates".to_string()));
    assert!(matches!(
        result,
        Err(BuildError::Certificate { domain: 0, error: CertError::ChainUnreadable(_) })
    ));
}

#[test]
fn a_missing_bundle_fails_the_build() {
    let bundles = vec![bundle("example.com")];
    let result = GlobalStateData::new(two_domains(), bundles, Ok(Tera::default()));
    assert!(matches!(result, Err(BuildError::MissingBundle { domain: 1 })));
    let result = GlobalStateData::new(two_domains(), Vec::new(), Ok(Tera::default()));
    assert!(matches!(result, Err(BuildError::MissingBundle { domain: 0 })));
}

#[test]
fn templates_that_did_not_compile_fail_the_build() {
    let bundles = vec![bundle("example.com"), bundle("example.org")];
    let result = GlobalStateData::new(two_domains(), bundles, Err("syntax error".to_string()));
    match result {
        Err(BuildError::Templates(reason)) => assert_eq!(reason, "syntax error"),
        _ => panic!("the build did not fail on the templates"),
    }
}

#[test]
fn bundles_come_before_templates() {
    let bundles = vec![bundle("example.com"), failed_bundle()];
    let result = GlobalStateData::new(two_domains(), bundles, Err("syntax error".to_string()));
    assert!(matches!(result, Err(BuildError::Certificate { domain: 1, .. })));
}

#[test]
fn a_configuration_without_domains_builds() {
    let state = built(config(Vec::new()));
    assert_eq!(state.resolve("autoconfig.example.com"), None);
    assert_eq!(state.domain(0), None);
}

#[test]
fn more_bundles_than_domains_are_left_aside() {
    let bundles = vec![bundle("example.com"), bundle("example.org"), failed_bundle()];
    assert!(GlobalStateData::new(two_domains(), bundles, Ok(Tera::default())).is_ok());
}

#[test]
fn the_container_hands_out_its_snapshot() {
    let state = GlobalState::new(built(two_domains()));
    let first = state.load();
    let second = state.load();
    assert!(Arc::ptr_eq(&first, &second));
    assert_eq!(*first.config(), two_domains());
}

#[test]
fn a_built_snapshot_becomes_current() {
    let mut state = GlobalState::new(built(two_domains()));
    let before = state.load();
    let next = config(vec![domain("example.net", &["autoconfig.example.net"])]);
    let report = state.reload_state(Ok(built(next.clone())));
    assert!(matches!(report, ReloadReport::Updated { state_changed: true }));
    let after = state.load();
    assert!(!Arc::ptr_eq(&before, &after));
    assert_eq!(*after.config(), next);
    assert_eq!(after.resolve("autoconfig.example.net"), Some(0));
    assert_eq!(after.resolve("autoconfig.example.com"), None);
    assert_eq!(*before.config(), two_domains());
    assert_eq!(before.resolve("autoconfig.example.com"), Some(0));
}

#[test]
fn an_equal_configuration_is_reported_as_unchanged() {
    let mut state = GlobalState::new(built(two_domains()));
    let report = state.reload_state(Ok(built(two_domains())));
    assert!(matches!(report, ReloadReport::Updated { state_changed: false }));
}

#[test]
fn a_failed_build_leaves_the_snapshot_untouched() {
    let mut state = GlobalState::new(built(two_domains()));
    let before = state.load();
    let report = state.reload_state(Err(BuildError::Config("unreadable".to_string())));
    match report {
        ReloadReport::Failed(BuildError::Config(reason)) => assert_eq!(reason, "unreadable"),
        _ => panic!("the reload did not fail"),
    }
    assert!(Arc::ptr_eq(&before, &state.load()));
}

#[test]
fn a_failed_certificate_leaves_the_snapshot_untouched() {
    let mut state = GlobalState::new(built(two_domains()));
    let before = state.load();
    let next = config(vec![
        domain("example.net", &["autoconfig.example.net"]),
        domain("example.org", &["autoconfig.example.org"]),
    ]);
    let report = state.reload(
        next,
        vec![bundle("example.net"), failed_bundle()],
        Ok(Tera::default()),
    );
    assert!(matches!(
        report,
        ReloadReport::Failed(BuildError::Certificate { domain: 1, .. })
    ));
    let after = state.load();
    assert!(Arc::ptr_eq(&before, &after));
    assert_eq!(after.resolve("autoconfig.example.net"), None);
    assert_eq!(after.resolve("autoconfig.example.com"), Some(0));
    assert!(after.certs("example.net").is_none());
}

#[test]
fn a_reload_that_builds_makes_the_snapshot_current() {
    let mut state = GlobalState::new(built(two_domains()));
    let next = config(vec![domain("example.net", &["autoconfig.example.net"])]);
    let report = state.reload(next.clone(), vec![bundle("example.net")], Ok(Tera::default()));
    assert!(matches!(report, ReloadReport::Updated { state_changed: true }));
    assert_eq!(*state.load().config(), next);
}

#[test]
fn a_failed_reload_never_wins_a_race() {
    let valid = config(vec![domain("example.net", &["autoconfig.example.net"])]);

    let mut state = GlobalState::new(built(two_domains()));
    state.reload_state(Ok(built(valid.clone())));
    state.reload_state(Err(BuildError::Config("invalid".to_string())));
    assert_eq!(*state.load().config(), valid);

    let mut state = GlobalState::new(built(two_domains()));
    state.reload_state(Err(BuildError::Config("invalid".to_string())));
    assert_eq!(*state.load().config(), two_domains());
    state.reload_state(Ok(built(valid.clone())));
    assert_eq!(*state.load().config(), valid);
}

#[test]
fn a_notification_asks_for_a_reload() {
    let mut state = GlobalState::new(built(two_domains()));
    let before = state.load();
    let report = state.notify(Notify::Reload, Err(BuildError::Templates("broken".to_string())));
    assert!(matches!(report, ReloadReport::Failed(BuildError::Templates(_))));
    assert!(Arc::ptr_eq(&before, &state.load()));
    let report = state.notify(Notify::Reload, Ok(built(two_domains())));
    assert!(matches!(report, ReloadReport::Updated { state_changed: false }));
    assert!(!Arc::ptr_eq(&before, &state.load()));
}

#[test]
fn every_position_of_the_list_has_its_signing_bundle() {
    let state = built(two_domains());
    assert!(state.signing_bundle(0).is_some());
    assert!(state.signing_bundle(1).is_some());
    assert!(state.signing_bundle(2).is_none());
}

#[test]
fn a_domain_signs_with_the_bundle_of_its_own_email_domain() {
    let state = built(two_domains());
    for position in [0, 1] {
        let signed = state.sign(position, b"content").unwrap();
        let signers = Pkcs7::from_der(&signed)
            .unwrap()
            .signers(&openssl::stack::Stack::new().unwrap(), openssl::pkcs7::Pkcs7Flags::empty())
            .unwrap();
        let signer = signers.get(0).unwrap();
        let name = signer
            .subject_name()
            .entries()
            .next()
            .unwrap()
            .data()
            .as_utf8()
            .unwrap()
            .to_string();
        assert_eq!(name, two_domains().domains[position].email_domain);
    }
}

#[test]
fn the_container_tells_whether_a_configuration_differs() {
    let state = GlobalState::new(built(two_domains()));
    assert!(!state.config_changed(&built(two_domains())));
    let other = config(vec![domain("example.net", &["autoconfig.example.net"])]);
    assert!(state.config_changed(&built(other)));
}
