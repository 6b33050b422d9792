use rust_ddns::providers::cloudflare::DnsRecord;
use rust_ddns::providers::cloudflare::DnsRecordMeta;
use rust_ddns::utils::internal;
use rust_ddns::utils::{
    get_record_id_and_ip, get_viewable_api_key, parse_config, split_domain, DDNSConfig,
    HasSuccessField,
};

fn raw_config(domain: &str) -> internal::DDNSConfig {
    internal::DDNSConfig {
        domain: domain.to_string(),
        api_key: "AB1234567890CD".to_string(),
        backend: "cloudflare".to_string(),
    }
}

fn empty_defaults() -> internal::DDNSConfig {
    internal::DDNSConfig { domain: String::new(), api_key: String::new(), backend: String::new() }
}

fn record_named(name: &str, id: &str, ip: &str) -> DnsRecord {
    DnsRecord {
        id: id.to_string(),
        zone_id: "zone".to_string(),
        zone_name: "example.com".to_string(),
        name: name.to_string(),
        record_type: "A".to_string(),
        content: ip.to_string(),
        proxiable: true,
        proxied: false,
        ttl: 1,
        meta: DnsRecordMeta {
            auto_added: false,
            managed_by_apps: false,
            managed_by_argo_tunnel: false,
            source: None,
        },
        created_on: "2021-01-01T00:00:00Z".to_string(),
        modified_on: "2021-01-01T00:00:00Z".to_string(),
    }
}

#[test]
fn split_takes_the_prefix_up_to_the_first_dot() {
    let config = DDNSConfig::from(raw_config("www.example.com"));
    assert_eq!(config.host, "www.");
    assert_eq!(config.domain, "example.com");
    assert_eq!(config.api_key, "AB1234567890CD");
    assert_eq!(config.backend, "cloudflare");
}

#[test]
fn split_of_a_name_with_one_dot_has_no_prefix() {
    let config = DDNSConfig::from(raw_config("example.com"));
    assert_eq!(config.host, "");
    assert_eq!(config.domain, "example.com");
}

#[test]
fn split_of_a_name_without_dots_has_no_prefix() {
    let (host, domain) = split_domain("localhost");
    assert_eq!(host, "");
    assert_eq!(domain, "localhost");
}

#[test]
fn split_of_the_empty_name_is_empty() {
    let (host, domain) = split_domain("");
    assert_eq!(host, "");
    assert_eq!(domain, "");
}

#[test]
fn split_of_a_deep_name_cuts_once() {
    let (host, domain) = split_domain("a.b.c.example.org");
    assert_eq!(host, "a.");
    assert_eq!(domain, "b.c.example.org");
}

#[test]
fn split_with_leading_and_trailing_dots() {
    let (host, domain) = split_domain("..");
    assert_eq!(host, ".");
    assert_eq!(domain, ".");
    let (host, domain) = split_domain(".com");
    assert_eq!(host, "");
    assert_eq!(domain, ".com");
    let (host, domain) = split_domain("www.example.");
    assert_eq!(host, "www.");
    assert_eq!(domain, "example.");
}

#[test]
fn split_counts_characters_not_bytes() {
    let (host, domain) = split_domain("b\u{fc}cher.m\u{fc}nchen.de");
    assert_eq!(host, "b\u{fc}cher.");
    assert_eq!(domain, "m\u{fc}nchen.de");
}

#[test]
fn split_parts_give_the_full_name_again() {
    for full in ["www.example.com", "example.com", "localhost", "", ".", "..", "a.b.c.d", "x..y", "\u{e9}.\u{e9}.\u{e9}"] {
        let (host, domain) = split_domain(full);
        assert_eq!(format!("{}{}", host, domain), full);
    }
}

#[test]
fn parse_config_takes_what_is_given() {
    let defaults = internal::DDNSConfig {
        domain: "default.example.net".to_string(),
        api_key: "default-key".to_string(),
        backend: "namesilo".to_string(),
    };
    let config = parse_config(
        Some("given-key".to_string()),
        Some("home.example.com".to_string()),
        Some("cloudflare".to_string()),
        defaults,
    );
    assert_eq!(config.api_key, "given-key");
    assert_eq!(config.host, "home.");
    assert_eq!(config.domain, "example.com");
    assert_eq!(config.backend, "cloudflare");
}

#[test]
fn parse_config_falls_back_to_the_defaults() {
    let defaults = internal::DDNSConfig {
        domain: "default.example.net".to_string(),
        api_key: "default-key".to_string(),
        backend: "namesilo".to_string(),
    };
    let config = parse_config(None, None, None, defaults);
    assert_eq!(config.api_key, "default-key");
    assert_eq!(config.host, "default.");
    assert_eq!(config.domain, "example.net");
    assert_eq!(config.backend, "namesilo");
}

#[test]
fn parse_config_mixes_given_and_default() {
    let defaults = internal::DDNSConfig {
        domain: "default.example.net".to_string(),
        api_key: "default-key".to_string(),
        backend: "namesilo".to_string(),
    };
    let config = parse_config(None, Some("example.com".to_string()), None, defaults);
    assert_eq!(config.api_key, "default-key");
    assert_eq!(config.host, "");
    assert_eq!(config.domain, "example.com");
    assert_eq!(config.backend, "namesilo");
    let config = parse_config(Some("k".to_string()), None, Some("b".to_string()), empty_defaults());
    assert_eq!(config.api_key, "k");
    assert_eq!(config.host, "");
    assert_eq!(config.domain, "");
    assert_eq!(config.backend, "b");
}

#[test]
fn viewable_key_shows_two_characters_at_each_end() {
    assert_eq!(get_viewable_api_key("AB1234567890CD"), "AB***CD");
}

#[test]
fn viewable_key_hides_a_short_key() {
    assert_eq!(get_viewable_api_key("short"), "*******");
    assert_eq!(get_viewable_api_key(""), "*******");
}

#[test]
fn viewable_key_hides_a_key_of_ten_characters() {
    assert_eq!(get_viewable_api_key("0123456789"), "*******");
}

#[test]
fn viewable_key_shows_a_key_of_eleven_characters() {
    assert_eq!(get_viewable_api_key("0123456789a"), "01***9a");
}

#[test]
fn viewable_key_counts_characters() {
    assert_eq!(get_viewable_api_key("\u{e9}\u{e9}\u{e9}\u{e9}\u{e9}\u{e9}"), "*******");
    assert_eq!(
        get_viewable_api_key("\u{e9}b345678901\u{fc}z"),
        "\u{e9}b***\u{fc}z"
    );
}

#[test]
fn record_lookup_finds_the_name() {
    let records = vec![
        record_named("other.example.com", "id-0", "10.0.0.1"),
        record_named("www.example.com", "id-1", "10.0.0.2"),
    ];
    let found = get_record_id_and_ip(&records, "example.com", "www.");
    let (id, ip) = found.unwrap();
    assert_eq!(id, "id-1");
    assert_eq!(ip, "10.0.0.2");
}

#[test]
fn record_lookup_takes_the_first_of_two_matches() {
    let records = vec![
        record_named("www.example.com", "first", "10.0.0.1"),
        record_named("www.example.com", "second", "10.0.0.2"),
    ];
    let (id, ip) = get_record_id_and_ip(&records, "example.com", "www.").unwrap();
    assert_eq!(id, "first");
    assert_eq!(ip, "10.0.0.1");
}

#[test]
fn record_lookup_is_case_sensitive() {
    let records = vec![record_named("WWW.example.com", "id", "10.0.0.1")];
    assert!(get_record_id_and_ip(&records, "example.com", "www.").is_none());
}

#[test]
fn record_lookup_wants_the_whole_name() {
    let records = vec![
        record_named("example.com", "apex", "10.0.0.1"),
        record_named("www.example.com.", "dotted", "10.0.0.2"),
    ];
    assert!(get_record_id_and_ip(&records, "example.com", "www.").is_none());
    let (id, _) = get_record_id_and_ip(&records, "example.com", "").unwrap();
    assert_eq!(id, "apex");
}

#[test]
fn record_lookup_in_an_empty_list_finds_nothing() {
    let records: Vec<DnsRecord> = Vec::new();
    assert!(get_record_id_and_ip(&records, "example.com", "www.").is_none());
}

#[test]
fn json_document_reports_its_success_member() {
    let yes: serde_json::Value = serde_json::from_str("{\"success\": true, \"result\": []}").unwrap();
    assert!(yes.success());
    let no: serde_json::Value = serde_json::from_str("{\"success\": false}").unwrap();
    assert!(!no.success());
}

#[test]
fn json_document_without_a_boolean_success_reports_failure() {
    let missing: serde_json::Value = serde_json::from_str("{\"result\": []}").unwrap();
    assert!(!missing.success());
    let text: serde_json::Value = serde_json::from_str("{\"success\": \"true\"}").unwrap();
    assert!(!text.success());
    let number: serde_json::Value = serde_json::from_str("{\"success\": 1}").unwrap();
    assert!(!number.success());
    let list: serde_json::Value = serde_json::from_str("[true]").unwrap();
    assert!(!list.success());
    let flag: serde_json::Value = serde_json::from_str("true").unwrap();
    assert!(!flag.success());
}
