use mail_autoconfig::config::Domain;
use mail_autoconfig::config::ServerConfig;
use mail_autoconfig::config::SocketType;
use mail_autoconfig::payload::reverse_dns_identifier;
use mail_autoconfig::payload::Payload;
use mail_autoconfig::text::find_char;
use mail_autoconfig::text::split;
use uuid::Uuid;
use uuid::Variant;

fn domain(email_domain: &str) -> Domain {
    Domain {
        email_domain: email_domain.to_string(),
        ssl_cert: String::new(),
        ssl_chain: String::new(),
        ssl_key: String::new(),
        display_name: "Example Mail".to_string(),
        display_short_name: "Example".to_string(),
        allowed_hosts: Vec::new(),
        smtp: ServerConfig { host: "smtp".to_string(), port: 25, socket_type: SocketType::Plain },
        imap: ServerConfig { host: "imap".to_string(), port: 143, socket_type: SocketType::Plain },
    }
}

#[test]
fn identifier_reverses_the_labels() {
    assert_eq!(reverse_dns_identifier("example.com"), "com.example.autoconfig");
    assert_eq!(
        reverse_dns_identifier("mail.sales.example.com"),
        "com.example.sales.mail.autoconfig"
    );
}

#[test]
fn identifier_of_a_single_label() {
    assert_eq!(reverse_dns_identifier("localhost"), "localhost.autoconfig");
}

#[test]
fn identifier_keeps_empty_labels() {
    assert_eq!(reverse_dns_identifier(""), ".autoconfig");
    assert_eq!(reverse_dns_identifier("a."), ".a.autoconfig");
    assert_eq!(reverse_dns_identifier(".a"), "a..autoconfig");
    assert_eq!(reverse_dns_identifier("a..b"), "b..a.autoconfig");
}

#[test]
fn identifier_agrees_with_split_reverse_join() {
    for text in ["example.com", "a.b.c.d", "x", "", "..", "b\u{fc}cher.example"] {
        let mut parts: Vec<&str> = text.split('.').rev().collect();
        parts.push("autoconfig");
        assert_eq!(reverse_dns_identifier(text), parts.join("."));
    }
}

#[test]
fn split_agrees_with_the_standard_library() {
    for text in ["example.com", "a.b.c.d", "x", "", ".", "..", "a.", ".a", "b\u{fc}cher.example"] {
        let expected: Vec<String> = text.split('.').map(|piece| piece.to_string()).collect();
        assert_eq!(split(text, '.'), expected);
    }
}

#[test]
fn find_char_gives_the_first_position_or_the_length() {
    assert_eq!(find_char("host:8443", ':'), 4);
    assert_eq!(find_char("a:b:c", ':'), 1);
    assert_eq!(find_char(":x", ':'), 0);
    assert_eq!(find_char("host", ':'), 4);
    assert_eq!(find_char("", ':'), 0);
    assert_eq!(find_char("b\u{fc}cher:1", ':'), 6);
}

#[test]
fn umbrella_payload_follows_from_the_domain() {
    let payload = Payload::plist_with_uuid(&domain("example.com"), 7);
    assert_eq!(
        payload,
        Payload {
            uuid: 7,
            identifier: "com.example.autoconfig".to_string(),
            description: "Install this profile to autoconfigure your email on example.com"
                .to_string(),
            display_name: "Email Autoconfiguration".to_string(),
            ptype: "Configuration".to_string(),
            organization: "example.com mail provider".to_string(),
        }
    );
}

#[test]
fn account_payload_overrides_three_fields() {
    let payload = Payload::domain_with_uuid(&domain("example.com"), 9);
    assert_eq!(
        payload,
        Payload {
            uuid: 9,
            identifier: "com.example.autoconfig".to_string(),
            description: "Example Mail".to_string(),
            display_name: "Example".to_string(),
            ptype: "com.apple.mail.managed".to_string(),
            organization: "example.com mail provider".to_string(),
        }
    );
}

#[test]
fn fresh_payloads_carry_random_uuids() {
    let domain = domain("example.com");
    let first = Payload::new_plist(&domain);
    let second = Payload::new_domain(&domain);
    for payload in [&first, &second] {
        let uuid = Uuid::from_u128(payload.uuid);
        assert_eq!(uuid.get_version_num(), 4);
        assert_eq!(uuid.get_variant(), Variant::RFC4122);
        assert_eq!(
            payload.uuid & 0xf000_c000_0000_0000_0000,
            0x4000_8000_0000_0000_0000
        );
    }
    assert_ne!(first.uuid, second.uuid);
    assert_eq!(first, Payload::plist_with_uuid(&domain, first.uuid));
    assert_eq!(second, Payload::domain_with_uuid(&domain, second.uuid));
}
